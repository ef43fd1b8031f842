//! Streams: derived metadata, the video pull state machine with its pixel
//! conversion steps, and the seek controller.

use vstd::prelude::*;
use vstd::arithmetic::div_mod::{lemma_fundamental_div_mod, lemma_mod_bound};
use crate::error::{FFmpegError, detail_of};
use crate::media::{
    AVERROR_EAGAIN, AVERROR_EOF, AVMEDIA_TYPE_VIDEO, AV_NOPTS_VALUE, LOCAL_ERROR, Rational,
    TimeValue,
};
use crate::meta::{StreamInfo, WrapperStreamMeta, meta_of, wrapper_get_meta};

verus! {

/// Display orientation of a video stream.
#[derive(Clone, Copy, Debug, PartialEq, Eq, Structural)]
pub enum Orientation {
    Top,
    Bottom,
    Left,
    Right,
}

/// Remainder of `a / m` with the sign of `a`, as Rust's and C's `%` give it.
pub open spec fn trunc_rem(a: int, m: int) -> int {
    if a >= 0 {
        a % m
    } else {
        -((-a) % m)
    }
}

/// Quotient of `a / b` rounded toward zero, for `b > 0`.
pub open spec fn trunc_div(a: int, b: int) -> int {
    if a >= 0 {
        a / b
    } else {
        -((-a) / b)
    }
}

/// 0 maps to Top, 90 to Left, 180 to Bottom, 270 to Right (after reduction
/// modulo 360); any other value to Top.
pub open spec fn orientation_of(deg: int) -> Orientation {
    let r = trunc_rem(deg, 360);
    if r == 90 {
        Orientation::Left
    } else if r == 180 {
        Orientation::Bottom
    } else if r == 270 {
        Orientation::Right
    } else {
        Orientation::Top
    }
}

pub fn degree_to_orientation(deg: i32) -> (r: Orientation)
    ensures
        r == orientation_of(deg as int),
{
    if deg < 0 {
        // a negative remainder is never one of the quarter turns
        return Orientation::Top;
    }
    let rem: u32 = (deg as u32) % 360;
    if rem == 90 {
        Orientation::Left
    } else if rem == 180 {
        Orientation::Bottom
    } else if rem == 270 {
        Orientation::Right
    } else {
        Orientation::Top
    }
}

/// Record of the converted output of a stream: whether the conversion context
/// and the destination image exist, and the image's dimensions.
#[derive(Clone, Copy, Debug, PartialEq, Eq, Structural)]
pub struct WrapperFrameOutput {
    pub has_converter: bool,
    pub allocated: bool,
    pub width: i32,
    pub height: i32,
    pub stride: i32,
}

/// Decision state of a stream's video decode context.
#[derive(Clone, Copy, Debug, PartialEq, Eq, Structural)]
pub struct WrapperDecodeCtx {
    /// The codec context exists.
    pub opened: bool,
    /// A packet must be read and sent before a frame can be received.
    pub need_sent: bool,
    pub output: WrapperFrameOutput,
    /// Timestamps of the last decoded frame.
    pub pts: TimeValue,
    pub dts: TimeValue,
}

/// A decoded video frame: `height * stride` bytes of 24-bit BGR pixels.
#[derive(Debug)]
pub struct Frame {
    pub buffer: Vec<u8>,
    pub width: i32,
    pub height: i32,
    pub stride: i32,
    pub pts: TimeValue,
    pub dts: TimeValue,
}

/// One elementary stream of a container.
#[derive(Debug)]
pub struct Stream {
    pub orientation: Orientation,
    pub n_frame: i64,
    pub fps: Rational,
    pub duration: TimeValue,
    pub time_base: Rational,
    pub kind: i32,
    pub index: i32,
    pub decode_ctx: WrapperDecodeCtx,
}

/// What the host does next while pulling a video frame.
#[derive(Clone, Copy, Debug, PartialEq, Eq, Structural)]
pub enum PullStep {
    /// Build the codec context (decoder lookup, allocation, parameter copy, open).
    CreateDecoder,
    /// Read the container's next packet.
    ReadPacket,
    /// Send the packet just read to the decoder.
    SendPacket,
    /// Receive a frame from the decoder.
    ReceiveFrame,
    /// Create the conversion context to 24-bit BGR.
    CreateConverter,
    /// Allocate the destination image.
    AllocateImage,
    /// Convert the decoded frame into the destination image.
    Convert,
    /// Copy the destination image out as a frame.
    Emit,
    /// The stream is not a video stream.
    KindMismatch,
    /// Building the codec context failed with this code.
    DecoderFailed(i32),
    /// Pulling failed with this code (end of stream included).
    Failed(i32),
}

/// Tag of the operation that a failed pull step reports.
pub open spec fn pull_tag(step: PullStep) -> Seq<char> {
    match step {
        PullStep::DecoderFailed(_) => "ffmpeg_create_decode_ctx"@,
        _ => "next_frame"@,
    }
}

/// A fresh decode context: nothing created yet.
pub open spec fn fresh_ctx(tb: Rational) -> WrapperDecodeCtx {
    WrapperDecodeCtx {
        opened: false,
        need_sent: false,
        output: WrapperFrameOutput {
            has_converter: false,
            allocated: false,
            width: 0,
            height: 0,
            stride: 0,
        },
        pts: TimeValue { value: 0, unit: tb },
        dts: TimeValue { value: 0, unit: tb },
    }
}

/// The stream made from facts `info` for kind `kind`.
pub open spec fn stream_of(info: StreamInfo, kind: i32) -> Stream {
    let m = meta_of(info, kind);
    Stream {
        orientation: orientation_of(m.rtt as int),
        n_frame: m.nfr,
        fps: m.fps,
        duration: m.dur,
        time_base: m.tb,
        kind,
        index: m.idx,
        decode_ctx: fresh_ctx(m.tb),
    }
}

/// Once the destination image exists, its record never changes: every frame
/// that a stream yields has the same width, height and stride.
pub open spec fn output_kept(a: WrapperDecodeCtx, b: WrapperDecodeCtx) -> bool {
    a.output.allocated ==> {
        &&& b.output.allocated
        &&& b.output.width == a.output.width
        &&& b.output.height == a.output.height
        &&& b.output.stride == a.output.stride
    }
}

/// The next conversion step for a decoded frame.
pub open spec fn conversion_step(o: WrapperFrameOutput) -> PullStep {
    if !o.has_converter {
        PullStep::CreateConverter
    } else if !o.allocated {
        PullStep::AllocateImage
    } else {
        PullStep::Convert
    }
}

pub fn new_stream(info: &StreamInfo, kind: i32) -> (r: Stream)
    ensures
        r == stream_of(*info, kind),
{
    let m: WrapperStreamMeta = wrapper_get_meta(info, kind);
    Stream {
        orientation: degree_to_orientation(m.rtt),
        n_frame: m.nfr,
        fps: m.fps,
        duration: m.dur,
        time_base: m.tb,
        kind,
        index: m.idx,
        decode_ctx: WrapperDecodeCtx {
            opened: false,
            need_sent: false,
            output: WrapperFrameOutput {
                has_converter: false,
                allocated: false,
                width: 0,
                height: 0,
                stride: 0,
            },
            pts: TimeValue { value: 0, unit: m.tb },
            dts: TimeValue { value: 0, unit: m.tb },
        },
    }
}

/// The error that a failed pull step reports; `native` is the native
/// library's description of its code.
pub fn pull_error(step: PullStep, native: &str) -> (r: Option<FFmpegError>)
    ensures
        match step {
            PullStep::KindMismatch => r.is_some() && r.unwrap().code == LOCAL_ERROR
                && r.unwrap().detail@ == "stream type mismatch"@,
            PullStep::DecoderFailed(c) => r.is_some() && r.unwrap().code == c
                && r.unwrap().desc@ == pull_tag(step)
                && r.unwrap().detail@ == detail_of(c, pull_tag(step), native@),
            PullStep::Failed(c) => r.is_some() && r.unwrap().code == c
                && r.unwrap().desc@ == pull_tag(step)
                && r.unwrap().detail@ == detail_of(c, pull_tag(step), native@),
            _ => r.is_none(),
        },
{
    match step {
        PullStep::KindMismatch => Some(FFmpegError::local("stream type mismatch")),
        PullStep::DecoderFailed(c) => Some(FFmpegError::new(c, "ffmpeg_create_decode_ctx", native)),
        PullStep::Failed(c) => Some(FFmpegError::new(c, "next_frame", native)),
        _ => None,
    }
}

impl Stream {
    /// First step of pulling the next video frame.
    pub fn begin_video_frame(&self) -> (r: PullStep)
        ensures
            r == (if self.kind != AVMEDIA_TYPE_VIDEO {
                PullStep::KindMismatch
            } else if !self.decode_ctx.opened {
                PullStep::CreateDecoder
            } else if self.decode_ctx.need_sent {
                PullStep::ReadPacket
            } else {
                PullStep::ReceiveFrame
            }),
    {
        if self.kind != AVMEDIA_TYPE_VIDEO {
            PullStep::KindMismatch
        } else if !self.decode_ctx.opened {
            PullStep::CreateDecoder
        } else if self.decode_ctx.need_sent {
            PullStep::ReadPacket
        } else {
            PullStep::ReceiveFrame
        }
    }

    /// The codec context was built with result `ret`.
    pub fn on_decoder_created(&mut self, ret: i32) -> (r: PullStep)
        ensures
            ret < 0 ==> r == PullStep::DecoderFailed(ret) && *final(self) == *old(self),
            ret >= 0 ==> r == PullStep::ReadPacket && *final(self) == (Stream {
                decode_ctx: WrapperDecodeCtx {
                    opened: true,
                    need_sent: true,
                    ..old(self).decode_ctx
                },
                ..*old(self)
            }),
            output_kept(old(self).decode_ctx, final(self).decode_ctx),
    {
        if ret < 0 {
            return PullStep::DecoderFailed(ret);
        }
        self.decode_ctx.opened = true;
        self.decode_ctx.need_sent = true;
        PullStep::ReadPacket
    }

    /// A packet was read with result `ret`; it belongs to stream `packet_index`.
    /// Packets of other streams are skipped.
    pub fn on_packet_read(&mut self, ret: i32, packet_index: i32) -> (r: PullStep)
        ensures
            *final(self) == *old(self),
            r == (if ret < 0 {
                PullStep::Failed(ret)
            } else if packet_index != old(self).index {
                PullStep::ReadPacket
            } else {
                PullStep::SendPacket
            }),
    {
        if ret < 0 {
            PullStep::Failed(ret)
        } else if packet_index != self.index {
            PullStep::ReadPacket
        } else {
            PullStep::SendPacket
        }
    }

    /// The packet was sent to the decoder with result `ret`.
    pub fn on_packet_sent(&mut self, ret: i32) -> (r: PullStep)
        ensures
            ret < 0 ==> r == PullStep::Failed(ret) && *final(self) == *old(self),
            ret >= 0 ==> r == PullStep::ReceiveFrame && *final(self) == (Stream {
                decode_ctx: WrapperDecodeCtx { need_sent: false, ..old(self).decode_ctx },
                ..*old(self)
            }),
            output_kept(old(self).decode_ctx, final(self).decode_ctx),
    {
        if ret < 0 {
            return PullStep::Failed(ret);
        }
        self.decode_ctx.need_sent = false;
        PullStep::ReceiveFrame
    }

    /// The decoder answered with result `ret`; for a frame, its best-effort
    /// presentation timestamp and its decode timestamp in time-base units.
    /// "Try again" and "end of stream" ask for another packet.
    pub fn on_frame_received(&mut self, ret: i32, pts: i64, dts: i64) -> (r: PullStep)
        ensures
            (ret == AVERROR_EOF || ret == AVERROR_EAGAIN) ==> r == PullStep::ReadPacket
                && *final(self) == (Stream {
                    decode_ctx: WrapperDecodeCtx { need_sent: true, ..old(self).decode_ctx },
                    ..*old(self)
                }),
            (ret < 0 && ret != AVERROR_EOF && ret != AVERROR_EAGAIN) ==> r == PullStep::Failed(ret)
                && *final(self) == *old(self),
            ret >= 0 ==> r == conversion_step(old(self).decode_ctx.output)
                && *final(self) == (Stream {
                    decode_ctx: WrapperDecodeCtx {
                        pts: TimeValue { value: pts, unit: old(self).time_base },
                        dts: TimeValue { value: dts, unit: old(self).time_base },
                        ..old(self).decode_ctx
                    },
                    ..*old(self)
                }),
            output_kept(old(self).decode_ctx, final(self).decode_ctx),
    {
        if ret == AVERROR_EOF || ret == AVERROR_EAGAIN {
            self.decode_ctx.need_sent = true;
            return PullStep::ReadPacket;
        }
        if ret < 0 {
            return PullStep::Failed(ret);
        }
        self.decode_ctx.pts = TimeValue { value: pts, unit: self.time_base };
        self.decode_ctx.dts = TimeValue { value: dts, unit: self.time_base };
        let o = self.decode_ctx.output;
        if !o.has_converter {
            PullStep::CreateConverter
        } else if !o.allocated {
            PullStep::AllocateImage
        } else {
            PullStep::Convert
        }
    }

    /// The conversion context was requested; `created` tells whether it exists.
    pub fn on_converter_created(&mut self, created: bool) -> (r: PullStep)
        ensures
            !created ==> r == PullStep::Failed(LOCAL_ERROR) && *final(self) == *old(self),
            created ==> *final(self) == (Stream {
                decode_ctx: WrapperDecodeCtx {
                    output: WrapperFrameOutput {
                        has_converter: true,
                        ..old(self).decode_ctx.output
                    },
                    ..old(self).decode_ctx
                },
                ..*old(self)
            }) && r == conversion_step(final(self).decode_ctx.output),
            output_kept(old(self).decode_ctx, final(self).decode_ctx),
    {
        if !created {
            return PullStep::Failed(LOCAL_ERROR);
        }
        self.decode_ctx.output.has_converter = true;
        if !self.decode_ctx.output.allocated {
            PullStep::AllocateImage
        } else {
            PullStep::Convert
        }
    }

    /// The destination image was allocated with result `ret`, for a
    /// `width` x `height` frame with rows of `stride` bytes. It is allocated
    /// once and reused for every later frame.
    pub fn on_image_allocated(&mut self, ret: i32, width: i32, height: i32, stride: i32) -> (r: PullStep)
        requires
            !old(self).decode_ctx.output.allocated,
        ensures
            ret < 0 ==> r == PullStep::Failed(ret) && *final(self) == *old(self),
            ret >= 0 ==> r == PullStep::Convert && *final(self) == (Stream {
                decode_ctx: WrapperDecodeCtx {
                    output: WrapperFrameOutput {
                        allocated: true,
                        width,
                        height,
                        stride,
                        ..old(self).decode_ctx.output
                    },
                    ..old(self).decode_ctx
                },
                ..*old(self)
            }),
    {
        if ret < 0 {
            return PullStep::Failed(ret);
        }
        self.decode_ctx.output.allocated = true;
        self.decode_ctx.output.width = width;
        self.decode_ctx.output.height = height;
        self.decode_ctx.output.stride = stride;
        PullStep::Convert
    }

    /// The frame was converted into the destination image with result `ret`.
    pub fn on_converted(&mut self, ret: i32) -> (r: PullStep)
        ensures
            *final(self) == *old(self),
            r == (if ret < 0 { PullStep::Failed(ret) } else { PullStep::Emit }),
    {
        if ret < 0 {
            PullStep::Failed(ret)
        } else {
            PullStep::Emit
        }
    }

    /// Copies the destination image (`pixels`, its first plane) out as a frame
    /// of `height * stride` bytes, so that the frame owns its bytes.
    pub fn make_frame(&self, pixels: &[u8]) -> (r: Frame)
        requires
            self.decode_ctx.output.height >= 0,
            self.decode_ctx.output.stride >= 0,
            self.decode_ctx.output.height * self.decode_ctx.output.stride <= pixels@.len(),
        ensures
            r.buffer@ == pixels@.subrange(
                0,
                self.decode_ctx.output.height * self.decode_ctx.output.stride,
            ),
            r.width == self.decode_ctx.output.width,
            r.height == self.decode_ctx.output.height,
            r.stride == self.decode_ctx.output.stride,
            r.pts == self.decode_ctx.pts,
            r.dts == self.decode_ctx.dts,
    {
        let o = self.decode_ctx.output;
        let ghost len = o.height * o.stride;
        let h = o.height as usize;
        let s = o.stride as usize;
        let plen: usize = pixels.len();
        proof {
            assert(0 <= (h as int) * (s as int) <= plen) by (nonlinear_arith)
                requires h as int == o.height, s as int == o.stride, len == o.height * o.stride,
                    len <= plen, o.height >= 0, o.stride >= 0;
        }
        let n: usize = h * s;
        let mut buffer: Vec<u8> = Vec::new();
        let mut i: usize = 0;
        while i < n
            invariant
                n as int == len,
                n <= pixels@.len(),
                i <= n,
                buffer@ == pixels@.subrange(0, i as int),
            decreases n - i,
        {
            buffer.push(pixels[i]);
            i = i + 1;
        }
        Frame {
            buffer,
            width: o.width,
            height: o.height,
            stride: o.stride,
            pts: self.decode_ctx.pts,
            dts: self.decode_ctx.dts,
        }
    }
}

/// What the host does after the container seek returned.
#[derive(Clone, Copy, Debug, PartialEq, Eq, Structural)]
pub enum SeekStep {
    /// The seek failed with this code; nothing is flushed.
    Failed(i32),
    /// Flush the stream's decoder so that no frame from before the seek comes out.
    Flush,
    /// Nothing more to do: the stream has no decoder yet.
    Done,
}

/// Native timestamp of time `t` in a stream of time base `tb`, rounded toward zero.
pub open spec fn seek_ticks(t: TimeValue, tb: Rational) -> int {
    let a = t.value * t.unit.num * tb.den;
    let b = t.unit.den * tb.num;
    if b > 0 {
        trunc_div(a, b)
    } else {
        trunc_div(-a, -b)
    }
}

/// The container's start offset, where it reports one.
pub open spec fn start_offset(start_time: i64) -> int {
    if start_time == AV_NOPTS_VALUE {
        0
    } else {
        start_time as int
    }
}

/// Target of a seek to time `t`: its native timestamp plus the start offset.
pub open spec fn seek_target(t: TimeValue, tb: Rational, start_time: i64) -> int {
    seek_ticks(t, tb) + start_offset(start_time)
}

/// The units are not zero-sized and the target is a native timestamp.
pub open spec fn seek_possible(t: TimeValue, tb: Rational, start_time: i64) -> bool {
    &&& t.unit.den != 0
    &&& tb.num != 0
    &&& i64::MIN <= seek_target(t, tb, start_time) <= i64::MAX
}

/// The time of frame `pos` at `fps` frames per second.
pub open spec fn frame_time(pos: i32, fps: Rational) -> TimeValue {
    TimeValue { value: pos as i64, unit: Rational { num: fps.den, den: fps.num } }
}

proof fn lemma_product_bounds(v: i64, n: i32, d: i32)
    ensures
        -0x4000_0000_0000_0000_0000_0000 <= (v as int) * (n as int) <= 0x4000_0000_0000_0000_0000_0000,
        -0x2000_0000_0000_0000_0000_0000_0000_0000 <= (v as int) * (n as int) * (d as int)
            <= 0x2000_0000_0000_0000_0000_0000_0000_0000,
        -0x4000_0000_0000_0000 <= (n as int) * (d as int) <= 0x4000_0000_0000_0000,
{
    let x: int = v as int;
    let y: int = n as int;
    let z: int = d as int;
    assert(-0x4000_0000_0000_0000_0000_0000 <= x * y <= 0x4000_0000_0000_0000_0000_0000) by (nonlinear_arith)
        requires -0x8000_0000_0000_0000 <= x <= 0x8000_0000_0000_0000, -0x8000_0000 <= y <= 0x8000_0000;
    assert(-0x2000_0000_0000_0000_0000_0000_0000_0000 <= (x * y) * z
        <= 0x2000_0000_0000_0000_0000_0000_0000_0000) by (nonlinear_arith)
        requires -0x4000_0000_0000_0000_0000_0000 <= x * y <= 0x4000_0000_0000_0000_0000_0000,
            -0x8000_0000 <= z <= 0x8000_0000;
    assert(-0x4000_0000_0000_0000 <= y * z <= 0x4000_0000_0000_0000) by (nonlinear_arith)
        requires -0x8000_0000 <= y <= 0x8000_0000, -0x8000_0000 <= z <= 0x8000_0000;
}

impl Stream {
    /// Native seek target for time `t`, where the container's start time is
    /// `start_time` (or the unknown sentinel).
    pub fn seek_by_time(&self, t: TimeValue, start_time: i64) -> (r: Result<i64, FFmpegError>)
        ensures
            seek_possible(t, self.time_base, start_time) ==> r == Ok::<i64, FFmpegError>(
                seek_target(t, self.time_base, start_time) as i64,
            ),
            !seek_possible(t, self.time_base, start_time) ==> r.is_err() && r->Err_0.code
                == LOCAL_ERROR,
            (t.unit.den == 0 || self.time_base.num == 0) ==> r.is_err() && r->Err_0.detail@
                == "invalid time base"@,
    {
        let tb = self.time_base;
        if t.unit.den == 0 || tb.num == 0 {
            return Err(FFmpegError::local("invalid time base"));
        }
        proof {
            lemma_product_bounds(t.value, t.unit.num, tb.den);
            lemma_product_bounds(0, t.unit.den, tb.num);
        }
        let vn: i128 = t.value as i128 * t.unit.num as i128;
        let mut a: i128 = vn * tb.den as i128;
        let mut b: i128 = t.unit.den as i128 * tb.num as i128;
        assert(b != 0) by (nonlinear_arith)
            requires b == (t.unit.den as int) * (tb.num as int), t.unit.den != 0, tb.num != 0;
        if b < 0 {
            a = -a;
            b = -b;
        }
        let q: i128 = if a >= 0 {
            ((a as u128) / (b as u128)) as i128
        } else {
            -(((-a) as u128 / (b as u128)) as i128)
        };
        assert(q == seek_ticks(t, tb));
        let offset: i128 = if start_time == AV_NOPTS_VALUE {
            0
        } else {
            start_time as i128
        };
        let target: i128 = q + offset;
        if target < i64::MIN as i128 || target > i64::MAX as i128 {
            return Err(FFmpegError::local("seek target out of range"));
        }
        Ok(target as i64)
    }

    /// Native seek target for frame `pos`, through the time `pos / fps`. A frame
    /// rate that is not positive is an invalid argument.
    pub fn seek_by_frame(&self, pos: i32, start_time: i64) -> (r: Result<i64, FFmpegError>)
        ensures
            !self.fps.is_positive() ==> r.is_err() && r->Err_0.code == LOCAL_ERROR
                && r->Err_0.detail@ == "invalid frame rate"@,
            self.fps.is_positive() && seek_possible(frame_time(pos, self.fps), self.time_base, start_time)
                ==> r == Ok::<i64, FFmpegError>(
                seek_target(frame_time(pos, self.fps), self.time_base, start_time) as i64,
            ),
            self.fps.is_positive() && !seek_possible(frame_time(pos, self.fps), self.time_base, start_time)
                ==> r.is_err() && r->Err_0.code == LOCAL_ERROR,
    {
        if !self.fps.positive() {
            return Err(FFmpegError::local("invalid frame rate"));
        }
        let t = TimeValue { value: pos as i64, unit: Rational { num: self.fps.den, den: self.fps.num } };
        self.seek_by_time(t, start_time)
    }

    /// The container seek returned `rc`: a failure is reported as it is,
    /// else a stream whose decoder exists flushes it.
    pub fn finish_seek(&self, rc: i32) -> (r: SeekStep)
        ensures
            r == (if rc < 0 {
                SeekStep::Failed(rc)
            } else if self.decode_ctx.opened {
                SeekStep::Flush
            } else {
                SeekStep::Done
            }),
    {
        if rc < 0 {
            SeekStep::Failed(rc)
        } else if self.decode_ctx.opened {
            SeekStep::Flush
        } else {
            SeekStep::Done
        }
    }
}

/// The error of a failed container seek; `by_frame` tells which seek it was.
pub fn seek_error(rc: i32, by_frame: bool, native: &str) -> (r: FFmpegError)
    ensures
        r.code == rc,
        r.detail@ == detail_of(rc, if by_frame { "ffmpeg_seek_frame"@ } else { "ffmpeg_seek_time"@ }, native@),
{
    if by_frame {
        FFmpegError::new(rc, "ffmpeg_seek_frame", native)
    } else {
        FFmpegError::new(rc, "ffmpeg_seek_time", native)
    }
}

/// Seeking to frame 0 lands where seeking to time 0 does, at the container's
/// start: decoding after it starts from the first frames.
pub proof fn lemma_frame_zero_seeks_to_start(fps: Rational, tb: Rational, unit: Rational, start_time: i64)
    requires
        fps.is_positive(),
        unit.den != 0,
        tb.num != 0,
    ensures
        seek_target(frame_time(0, fps), tb, start_time) == start_offset(start_time),
        seek_target(TimeValue { value: 0, unit }, tb, start_time) == start_offset(start_time),
{
    let b1 = fps.num * tb.num;
    let b2 = unit.den * tb.num;
    assert(b1 != 0) by (nonlinear_arith)
        requires b1 == fps.num * tb.num, fps.num != 0, tb.num != 0;
    assert(b2 != 0) by (nonlinear_arith)
        requires b2 == unit.den * tb.num, unit.den != 0, tb.num != 0;
    assert((0 as int) * fps.den * tb.den == 0) by (nonlinear_arith);
    assert((0 as int) * unit.num * tb.den == 0) by (nonlinear_arith);
    assert(seek_ticks(frame_time(0, fps), tb) == 0);
    assert(seek_ticks(TimeValue { value: 0, unit }, tb) == 0);
}

/// A seek to a time within a stream's duration never fails in this library:
/// where the time base is positive, `t` is a non-negative time with a
/// positive unit, `t` lies before the duration (`duration` ticks of `tb`, as
/// the cross-multiplied comparison states), and the start offset leaves room
/// for the duration, the target exists and lies in `[0, duration]` ticks
/// past the start offset.
pub proof fn lemma_seek_within_duration_succeeds(t: TimeValue, tb: Rational, duration: i64, start_time: i64)
    requires
        tb.num > 0,
        tb.den > 0,
        t.unit.num >= 0,
        t.unit.den > 0,
        t.value >= 0,
        duration >= 0,
        (t.value as int) * (t.unit.num as int) * (tb.den as int) < (duration as int) * ((t.unit.den as int)
            * (tb.num as int)),
        i64::MIN <= start_offset(start_time),
        start_offset(start_time) + duration <= i64::MAX,
    ensures
        seek_possible(t, tb, start_time),
        0 <= seek_ticks(t, tb) <= duration,
{
    let a = (t.value as int) * (t.unit.num as int) * (tb.den as int);
    let b = (t.unit.den as int) * (tb.num as int);
    assert(a >= 0) by (nonlinear_arith)
        requires a == (t.value as int) * (t.unit.num as int) * (tb.den as int), t.value >= 0,
            t.unit.num >= 0, tb.den > 0;
    assert(b > 0) by (nonlinear_arith)
        requires b == (t.unit.den as int) * (tb.num as int), t.unit.den > 0, tb.num > 0;
    lemma_fundamental_div_mod(a, b);
    lemma_mod_bound(a, b);
    let q = a / b;
    assert(0 <= q < duration) by (nonlinear_arith)
        requires a == b * q + a % b, 0 <= a % b < b, b > 0, a >= 0, a < (duration as int) * b;
    assert(seek_ticks(t, tb) == q);
}

/// The record of the destination image is kept across any run of steps: once
/// a stream has yielded a frame, all its frames have that width, height and
/// stride.
pub proof fn lemma_output_kept_transitive(a: WrapperDecodeCtx, b: WrapperDecodeCtx, c: WrapperDecodeCtx)
    requires
        output_kept(a, b),
        output_kept(b, c),
    ensures
        output_kept(a, c),
{
}

/// Two frames that a stream yields share width, height and stride: `fa` was
/// copied out in state `a`, once the destination image existed, and `fb` in a
/// later state `b` that every step in between kept the record for.
pub proof fn lemma_frames_share_dimensions(a: Stream, b: Stream, fa: Frame, fb: Frame)
    requires
        a.decode_ctx.output.allocated,
        output_kept(a.decode_ctx, b.decode_ctx),
        fa.width == a.decode_ctx.output.width,
        fa.height == a.decode_ctx.output.height,
        fa.stride == a.decode_ctx.output.stride,
        fb.width == b.decode_ctx.output.width,
        fb.height == b.decode_ctx.output.height,
        fb.stride == b.decode_ctx.output.stride,
    ensures
        fa.width == fb.width,
        fa.height == fb.height,
        fa.stride == fb.stride,
{
}

/// The read that finds the stream exhausted ends the pull with the
/// end-of-stream error, whose detail is the literal `AV_EOF`.
pub proof fn lemma_exhaustion_reports_eof(native: Seq<char>)
    ensures
        detail_of(AVERROR_EOF, pull_tag(PullStep::Failed(AVERROR_EOF)), native) == "AV_EOF"@,
{
}

} // verus!
