use vstd::prelude::*;

verus! {

/// How each captured frame is laid out, and how often one is taken.
#[derive(Debug, Clone, Copy, PartialEq, Eq, Structural)]
pub struct FrameFormat {
    pub width: u32,
    pub height: u32,
    pub channels: u8,
    pub bit_depth: u8,
    pub frame_rate: u32,
}

/// How much history to keep, and how much memory it may take.
#[derive(Debug, Clone, Copy, PartialEq, Eq, Structural)]
pub struct RetentionPolicy {
    pub retention_millis: u64,
    pub memory_budget: u64,
}

/// Why no ring can be planned for a format and a policy.
#[derive(Debug, Clone, Copy, PartialEq, Eq, Structural)]
pub enum ConfigError {
    /// A frame would hold no whole byte.
    EmptyFrame,
    /// A frame's size does not fit in a `usize`.
    FrameTooLarge,
    /// The budget is smaller than one frame.
    BudgetBelowOneFrame,
    /// The retention window holds no frame at the frame rate.
    NoRetention,
    /// The slot count does not fit in a `usize`.
    CapacityTooLarge,
}

pub open spec fn frame_bytes(f: FrameFormat) -> int {
    (f.width as int * f.height as int * f.channels as int * f.bit_depth as int) / 8
}

/// Frames taken over the retention window, rounded up.
pub open spec fn frames_for_duration(f: FrameFormat, p: RetentionPolicy) -> int {
    (p.retention_millis as int * f.frame_rate as int + 999) / 1000
}

pub open spec fn frames_for_budget(f: FrameFormat, p: RetentionPolicy) -> int {
    p.memory_budget as int / frame_bytes(f)
}

pub open spec fn min_int(a: int, b: int) -> int {
    if a <= b {
        a
    } else {
        b
    }
}

/// The slot count for a format and a policy, or why there is none.
pub open spec fn planned(f: FrameFormat, p: RetentionPolicy) -> Result<int, ConfigError> {
    let b = frame_bytes(f);
    if b == 0 {
        Err(ConfigError::EmptyFrame)
    } else if b > usize::MAX {
        Err(ConfigError::FrameTooLarge)
    } else if p.memory_budget < b {
        Err(ConfigError::BudgetBelowOneFrame)
    } else if frames_for_duration(f, p) == 0 {
        Err(ConfigError::NoRetention)
    } else if min_int(frames_for_duration(f, p), frames_for_budget(f, p)) > usize::MAX {
        Err(ConfigError::CapacityTooLarge)
    } else {
        Ok(min_int(frames_for_duration(f, p), frames_for_budget(f, p)))
    }
}

proof fn lemma_frame_bits_fit(f: FrameFormat)
    ensures
        0 <= f.width * f.height <= u64::MAX,
        0 <= f.width * f.height * f.channels <= 0xffff_ffff_ffff_ffff_ffu128,
        0 <= f.width * f.height * f.channels * f.bit_depth <= 0xffff_ffff_ffff_ffff_ffffu128,
{
    let w = f.width as int;
    let h = f.height as int;
    let c = f.channels as int;
    let d = f.bit_depth as int;
    assert(0 <= w * h <= 0xffff_ffff * 0xffff_ffff) by (nonlinear_arith)
        requires
            0 <= w <= 0xffff_ffff,
            0 <= h <= 0xffff_ffff,
    ;
    assert(0 <= w * h * c <= 0xffff_ffff_ffff_ffff * 0xff) by (nonlinear_arith)
        requires
            0 <= w * h <= 0xffff_ffff_ffff_ffff,
            0 <= c <= 0xff,
    ;
    assert(0 <= w * h * c * d <= 0xffff_ffff_ffff_ffff_ff * 0xff) by (nonlinear_arith)
        requires
            0 <= w * h * c <= 0xffff_ffff_ffff_ffff_ff,
            0 <= d <= 0xff,
    ;
}

impl FrameFormat {
    /// Bytes in one frame: width × height × channels × bit depth / 8.
    pub fn bytes_per_frame(&self) -> (r: Result<usize, ConfigError>)
        ensures
            frame_bytes(*self) == 0 ==> r == Err::<usize, ConfigError>(ConfigError::EmptyFrame),
            frame_bytes(*self) > usize::MAX ==> r == Err::<usize, ConfigError>(
                ConfigError::FrameTooLarge,
            ),
            0 < frame_bytes(*self) <= usize::MAX ==> r == Ok::<usize, ConfigError>(
                frame_bytes(*self) as usize,
            ),
    {
        proof {
            lemma_frame_bits_fit(*self);
        }
        let bits: u128 = self.width as u128 * self.height as u128 * self.channels as u128
            * self.bit_depth as u128;
        let bytes: u128 = bits / 8;
        if bytes == 0 {
            Err(ConfigError::EmptyFrame)
        } else if bytes > usize::MAX as u128 {
            Err(ConfigError::FrameTooLarge)
        } else {
            Ok(bytes as usize)
        }
    }
}

impl RetentionPolicy {
    pub fn from_secs(seconds: u32, memory_budget: u64) -> (r: RetentionPolicy)
        ensures
            r.retention_millis == seconds * 1000,
            r.memory_budget == memory_budget,
    {
        RetentionPolicy { retention_millis: seconds as u64 * 1000, memory_budget }
    }
}

/// How many frame slots to reserve: enough for the retention window, but no
/// more than the memory budget holds.
pub fn plan(format: &FrameFormat, policy: &RetentionPolicy) -> (r: Result<usize, ConfigError>)
    ensures
        match r {
            Ok(c) => planned(*format, *policy) == Ok::<int, ConfigError>(c as int),
            Err(e) => planned(*format, *policy) == Err::<int, ConfigError>(e),
        },
        r matches Ok(c) ==> c >= 1,
{
    let bytes = match format.bytes_per_frame() {
        Ok(b) => b,
        Err(e) => {
            return Err(e);
        },
    };
    if policy.memory_budget < bytes as u64 {
        return Err(ConfigError::BudgetBelowOneFrame);
    }
    let for_duration = frame_count_for_duration(format, policy);
    if for_duration == 0 {
        return Err(ConfigError::NoRetention);
    }
    let for_budget: u64 = policy.memory_budget / bytes as u64;
    proof {
        let m = policy.memory_budget as int;
        let b = bytes as int;
        assert(m / b >= 1) by (nonlinear_arith)
            requires
                m >= b,
                b > 0,
        ;
    }
    let capacity: u128 = if for_duration <= for_budget as u128 {
        for_duration
    } else {
        for_budget as u128
    };
    if capacity > usize::MAX as u128 {
        return Err(ConfigError::CapacityTooLarge);
    }
    Ok(capacity as usize)
}

/// Frames taken over the retention window, rounded up.
pub fn frame_count_for_duration(format: &FrameFormat, policy: &RetentionPolicy) -> (r: u128)
    ensures
        r == frames_for_duration(*format, *policy),
{
    let ms = policy.retention_millis;
    let rate = format.frame_rate;
    proof {
        assert(0 <= ms * rate <= 0xffff_ffff_ffff_ffff * 0xffff_ffff) by (nonlinear_arith)
            requires
                0 <= ms <= 0xffff_ffff_ffff_ffff,
                0 <= rate <= 0xffff_ffff,
        ;
    }
    (ms as u128 * rate as u128 + 999) / 1000
}

/// Whether the memory budget, not the retention window, sets the slot count:
/// the window a planned ring covers is then shorter than asked for.
pub fn memory_bound(format: &FrameFormat, policy: &RetentionPolicy) -> (r: bool)
    requires
        planned(*format, *policy) is Ok,
    ensures
        r == (frames_for_budget(*format, *policy) < frames_for_duration(*format, *policy)),
{
    let bytes = match format.bytes_per_frame() {
        Ok(b) => b,
        Err(_) => {
            return false;
        },
    };
    let for_budget: u64 = policy.memory_budget / bytes as u64;
    (for_budget as u128) < frame_count_for_duration(format, policy)
}

} // verus!
