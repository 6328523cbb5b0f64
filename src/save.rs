use crate::format::{decimal, push_decimal};
use vstd::prelude::*;

verus! {

/// The raw file a save wrote does not hold what the ring held.
#[derive(Debug, Clone, Copy, PartialEq, Eq, Structural)]
pub struct IntegrityError {
    pub expected: u64,
    pub written: u64,
}

/// `n` in base ten, with a minus sign when negative.
pub open spec fn signed_decimal(n: int) -> Seq<char> {
    if n < 0 {
        "-"@ + decimal((-n) as nat)
    } else {
        decimal(n as nat)
    }
}

/// Checks the size of a written raw file against the size it must have; only
/// a file that passes is handed to the encoder.
pub fn check_raw_len(expected: u64, written: u64) -> (r: Result<(), IntegrityError>)
    ensures
        r is Ok <==> written == expected,
        r matches Err(e) ==> e == (IntegrityError { expected, written }),
{
    if written == expected {
        Ok(())
    } else {
        Err(IntegrityError { expected, written })
    }
}

fn push_signed(s: &mut String, n: i64)
    ensures
        final(s)@ == old(s)@ + signed_decimal(n as int),
{
    if n < 0 {
        s.append("-");
        let magnitude: u128 = (0i128 - n as i128) as u128;
        push_decimal(s, magnitude);
        assert(final(s)@ =~= old(s)@ + signed_decimal(n as int));
    } else {
        push_decimal(s, n as u128);
    }
}

/// The name of the raw file for a save stamped `stamp`.
pub fn raw_file_name(stamp: i64) -> (r: String)
    ensures
        r@ == "raw"@ + signed_decimal(stamp as int) + ".raw"@,
{
    let mut s = String::new();
    s.append("raw");
    push_signed(&mut s, stamp);
    s.append(".raw");
    s
}

/// The name of the encoded video for a save stamped `stamp`.
pub fn encoded_file_name(stamp: i64) -> (r: String)
    ensures
        r@ == "crafted"@ + signed_decimal(stamp as int) + ".mp4"@,
{
    let mut s = String::new();
    s.append("crafted");
    push_signed(&mut s, stamp);
    s.append(".mp4");
    s
}

} // verus!
