//! Constants of the native media library and rational numbers as it writes them.

use vstd::prelude::*;

verus! {

/// Media kind of a video stream.
pub const AVMEDIA_TYPE_VIDEO: i32 = 0;

/// Media kind of an audio stream.
pub const AVMEDIA_TYPE_AUDIO: i32 = 1;

/// The native end-of-stream code.
pub const AVERROR_EOF: i32 = -541478725;

/// The native "try again" code (negated `EAGAIN`).
pub const AVERROR_EAGAIN: i32 = -11;

/// The native code for input that cannot be parsed.
pub const AVERROR_INVALIDDATA: i32 = -1094995529;

/// The native code for a missing file (negated `ENOENT`).
pub const AVERROR_ENOENT: i32 = -2;

/// The native "unknown timestamp" sentinel.
pub const AV_NOPTS_VALUE: i64 = -9223372036854775808;

/// Code carried by errors that this library raises itself.
pub const LOCAL_ERROR: i32 = -1;

/// A rational number `num / den`, as the native library writes time bases and rates.
#[derive(Clone, Copy, Debug, PartialEq, Eq, Structural)]
pub struct Rational {
    pub num: i32,
    pub den: i32,
}

impl Rational {
    /// The rational is a positive number.
    pub open spec fn is_positive(self) -> bool {
        (self.num > 0 && self.den > 0) || (self.num < 0 && self.den < 0)
    }

    pub fn new(num: i32, den: i32) -> (r: Rational)
        ensures
            r.num == num,
            r.den == den,
    {
        Rational { num, den }
    }

    /// Whether the rational is a positive number.
    pub fn positive(&self) -> (r: bool)
        ensures
            r == self.is_positive(),
    {
        (self.num > 0 && self.den > 0) || (self.num < 0 && self.den < 0)
    }
}

/// A time value in native units: `value` ticks of `unit` seconds each.
#[derive(Clone, Copy, Debug, PartialEq, Eq, Structural)]
pub struct TimeValue {
    pub value: i64,
    pub unit: Rational,
}

} // verus!

verus! {

/// The stage at which building a codec context failed.
#[derive(Clone, Copy, Debug, PartialEq, Eq, Structural)]
pub enum SetupFailure {
    /// No decoder for the stream's codec.
    DecoderNotFound,
    /// The codec context could not be allocated.
    ContextAlloc,
    /// The stream's parameters could not be copied into it.
    ParameterCopy,
    /// The decoder did not open; the native code.
    Open(i32),
}

/// Code reported for a failed codec-context build, the same for video and
/// audio: -1, -2, -3, -4 for the four stages, one code per stage.
pub open spec fn setup_code(f: SetupFailure) -> int {
    match f {
        SetupFailure::DecoderNotFound => -1,
        SetupFailure::ContextAlloc => -2,
        SetupFailure::ParameterCopy => -3,
        SetupFailure::Open(_) => -4,
    }
}

pub fn setup_failure_code(f: SetupFailure) -> (r: i32)
    ensures
        r as int == setup_code(f),
{
    match f {
        SetupFailure::DecoderNotFound => -1,
        SetupFailure::ContextAlloc => -2,
        SetupFailure::ParameterCopy => -3,
        SetupFailure::Open(_) => -4,
    }
}

} // verus!
