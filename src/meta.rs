//! Per-stream facts as the native library reports them, and the metadata
//! derived from them.

use vstd::prelude::*;
use vstd::arithmetic::div_mod::{lemma_add_mod_noop, lemma_mul_mod_noop_left, lemma_mod_bound};
use crate::media::{AVMEDIA_TYPE_VIDEO, AV_NOPTS_VALUE, Rational, TimeValue};

verus! {

/// What the native library reports of one stream of a probed container.
#[derive(Debug)]
pub struct StreamInfo {
    /// Media kind of the stream's codec parameters.
    pub kind: i32,
    pub index: i32,
    pub nb_frames: i64,
    pub time_base: Rational,
    pub r_frame_rate: Rational,
    /// Duration in time-base units, or the unknown sentinel.
    pub duration: i64,
    /// Bytes of the `rotate` metadata tag, where the stream has one.
    pub rotate_tag: Option<Vec<u8>>,
}

/// Metadata derived from a stream's facts.
#[derive(Clone, Copy, Debug, PartialEq, Eq, Structural)]
pub struct WrapperStreamMeta {
    pub idx: i32,
    pub nfr: i64,
    pub tb: Rational,
    /// Frame rate (video only; `0/1` otherwise).
    pub fps: Rational,
    /// Duration in time-base units (video only; 0 when unknown).
    pub dur: TimeValue,
    /// Rotation in degrees, in `(-360, 360)` (video only; 0 otherwise).
    pub rtt: i32,
}

/// C's `isspace` on a byte.
pub open spec fn is_space(b: u8) -> bool {
    b == 32 || (9 <= b && b <= 13)
}

pub open spec fn is_digit(b: u8) -> bool {
    48 <= b && b <= 57
}

/// Index of the first byte at or after `i` that is no space.
pub open spec fn skip_spaces(s: Seq<u8>, i: int) -> int
    decreases s.len() - i,
{
    if 0 <= i < s.len() && is_space(s[i]) {
        skip_spaces(s, i + 1)
    } else {
        i
    }
}

/// Index of the first byte at or after `i` that is no digit.
pub open spec fn digits_end(s: Seq<u8>, i: int) -> int
    decreases s.len() - i,
{
    if 0 <= i < s.len() && is_digit(s[i]) {
        digits_end(s, i + 1)
    } else {
        i
    }
}

/// Decimal value of the digits `s[i..j]`.
pub open spec fn digits_value(s: Seq<u8>, i: int, j: int) -> int
    decreases j - i,
{
    if j <= i {
        0
    } else {
        digits_value(s, i, j - 1) * 10 + (s[j - 1] - 48)
    }
}

/// Index where the digits of a tag start, after spaces and an optional sign.
pub open spec fn tag_digits_start(s: Seq<u8>) -> int {
    let k = skip_spaces(s, 0);
    if k < s.len() && (s[k] == 43 || s[k] == 45) {
        k + 1
    } else {
        k
    }
}

pub open spec fn tag_is_negative(s: Seq<u8>) -> bool {
    let k = skip_spaces(s, 0);
    k < s.len() && s[k] == 45
}

/// The tag read as C's `atoi` reads it (spaces, a sign, digits), reduced
/// modulo 360 with the sign kept, as C's `%` reduces.
pub open spec fn tag_degrees(s: Seq<u8>) -> int {
    let start = tag_digits_start(s);
    let v = digits_value(s, start, digits_end(s, start)) % 360;
    if tag_is_negative(s) {
        -v
    } else {
        v
    }
}

proof fn lemma_digit_step(v: int, d: int)
    requires
        0 <= d <= 9,
    ensures
        ((v % 360) * 10 + d) % 360 == (v * 10 + d) % 360,
{
    lemma_mul_mod_noop_left(v, 10, 360);
    lemma_add_mod_noop((v % 360) * 10, d, 360);
    lemma_add_mod_noop(v * 10, d, 360);
    lemma_mod_bound(d, 360);
    assert(d % 360 == d);
}

proof fn lemma_skip_spaces_bounds(s: Seq<u8>, i: int)
    requires
        0 <= i <= s.len(),
    ensures
        i <= skip_spaces(s, i) <= s.len(),
    decreases s.len() - i,
{
    if i < s.len() && is_space(s[i]) {
        lemma_skip_spaces_bounds(s, i + 1);
    }
}

/// Rotation in degrees that a `rotate` tag states.
pub fn rotation_from_tag(tag: &[u8]) -> (r: i32)
    ensures
        r as int == tag_degrees(tag@),
        -360 < r < 360,
{
    let s = Ghost(tag@);
    let n: usize = tag.len();
    let mut i: usize = 0;
    while i < n && (tag[i] == 32 || (9 <= tag[i] && tag[i] <= 13))
        invariant
            n == s@.len(),
            s@ == tag@,
            0 <= i <= n,
            skip_spaces(s@, i as int) == skip_spaces(s@, 0),
        decreases n - i,
    {
        i = i + 1;
    }
    proof {
        lemma_skip_spaces_bounds(s@, 0);
    }
    let mut negative = false;
    if i < n && (tag[i] == 43 || tag[i] == 45) {
        negative = tag[i] == 45;
        i = i + 1;
    }
    let start: usize = i;
    assert(start as int == tag_digits_start(s@));
    let mut acc: u32 = 0;
    while i < n && 48 <= tag[i] && tag[i] <= 57
        invariant
            n == s@.len(),
            s@ == tag@,
            start <= i <= n,
            digits_end(s@, i as int) == digits_end(s@, start as int),
            acc < 360,
            acc as int == digits_value(s@, start as int, i as int) % 360,
        decreases n - i,
    {
        let d: u32 = (tag[i] - 48) as u32;
        proof {
            lemma_digit_step(digits_value(s@, start as int, i as int), d as int);
            lemma_mod_bound(acc * 10 + d, 360);
        }
        acc = (acc * 10 + d) % 360;
        i = i + 1;
    }
    if negative {
        -(acc as i32)
    } else {
        acc as i32
    }
}

/// The metadata of a stream of kind `kind` with facts `info`.
pub open spec fn meta_of(info: StreamInfo, kind: i32) -> WrapperStreamMeta {
    if kind != AVMEDIA_TYPE_VIDEO {
        WrapperStreamMeta {
            idx: info.index,
            nfr: info.nb_frames,
            tb: info.time_base,
            fps: Rational { num: 0, den: 1 },
            dur: TimeValue { value: 0, unit: info.time_base },
            rtt: 0,
        }
    } else {
        WrapperStreamMeta {
            idx: info.index,
            nfr: info.nb_frames,
            tb: info.time_base,
            fps: info.r_frame_rate,
            dur: TimeValue {
                value: if info.duration == AV_NOPTS_VALUE { 0 } else { info.duration },
                unit: info.time_base,
            },
            rtt: match info.rotate_tag {
                Some(t) => tag_degrees(t@) as i32,
                None => 0,
            },
        }
    }
}

/// Derives a stream's metadata: index, frame count and time base for every
/// stream; frame rate, duration and rotation for video streams.
pub fn wrapper_get_meta(info: &StreamInfo, kind: i32) -> (r: WrapperStreamMeta)
    ensures
        r == meta_of(*info, kind),
{
    if kind != AVMEDIA_TYPE_VIDEO {
        return WrapperStreamMeta {
            idx: info.index,
            nfr: info.nb_frames,
            tb: info.time_base,
            fps: Rational { num: 0, den: 1 },
            dur: TimeValue { value: 0, unit: info.time_base },
            rtt: 0,
        };
    }
    let value = if info.duration == AV_NOPTS_VALUE {
        0
    } else {
        info.duration
    };
    let rtt = match &info.rotate_tag {
        Some(t) => rotation_from_tag(t.as_slice()),
        None => 0,
    };
    WrapperStreamMeta {
        idx: info.index,
        nfr: info.nb_frames,
        tb: info.time_base,
        fps: info.r_frame_rate,
        dur: TimeValue { value, unit: info.time_base },
        rtt,
    }
}

} // verus!
