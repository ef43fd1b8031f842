//! The one-shot audio pipeline: checks the request, rescales each decoded
//! frame's sample count to the target rate, and accumulates the resampled
//! 16-bit samples in a growable buffer that becomes the result.

use vstd::prelude::*;
use vstd::arithmetic::div_mod::{lemma_fundamental_div_mod, lemma_mod_bound};
use crate::error::{FFmpegError, detail_of};
use crate::media::{AVERROR_EAGAIN, AVERROR_EOF, AVMEDIA_TYPE_AUDIO, LOCAL_ERROR};
use crate::stream::Stream;

verus! {

/// `a / b` rounded up, for `a >= 0` and `b > 0`.
pub open spec fn ceil_div(a: int, b: int) -> int {
    (a + b - 1) / b
}

/// Samples at rate `dst` that `n` samples at rate `src` become, rounded up.
pub open spec fn dst_samples(n: int, dst: int, src: int) -> int {
    ceil_div(n * dst, src)
}

/// Samples at rate `dst` that frames of `ns` samples each at rate `src` become.
pub open spec fn total_dst_samples(ns: Seq<int>, dst: int, src: int) -> int
    decreases ns.len(),
{
    if ns.len() == 0 {
        0
    } else {
        total_dst_samples(ns.drop_last(), dst, src) + dst_samples(ns.last(), dst, src)
    }
}

/// Bytes of the chunk that a frame of `n` source samples resamples into.
pub open spec fn chunk_len(job: AudioDecodeJob, n: int) -> int {
    2 * job.dst_channels * dst_samples(n, job.dst_sample_rate as int, job.src_sample_rate as int)
}

/// What the host does next while decoding audio.
#[derive(Clone, Copy, Debug, PartialEq, Eq, Structural)]
pub enum AudioStep {
    /// Read the container's next packet.
    ReadPacket,
    /// Send the packet to the decoder.
    SendPacket,
    /// Receive a frame from the decoder.
    ReceiveFrame,
    /// Resample the frame into this many samples per channel and hand them in.
    Convert(i64),
    /// The stream is exhausted: take the result.
    Finish,
    /// The decode failed with this code: no result.
    Abort(i32),
}

/// Decoding state of one audio request: the target, the source rate, and the
/// resampled samples so far.
pub struct AudioDecodeJob {
    pub dst_channels: i32,
    pub dst_sample_rate: i32,
    pub src_sample_rate: i32,
    pub stream_index: i32,
    /// Interleaved 16-bit samples at the target layout and rate.
    pub fifo: Vec<u8>,
    /// Sample counts of the source frames resampled so far.
    pub frames: Ghost<Seq<int>>,
}

impl AudioDecodeJob {
    /// The buffer holds exactly the resampled frames.
    pub open spec fn wf(&self) -> bool {
        &&& self.dst_channels > 0
        &&& self.dst_sample_rate > 0
        &&& self.src_sample_rate > 0
        &&& forall|i: int| 0 <= i < self.frames@.len() ==> 0 <= #[trigger] self.frames@[i]
        &&& self.fifo@.len() == 2 * self.dst_channels * total_dst_samples(
            self.frames@,
            self.dst_sample_rate as int,
            self.src_sample_rate as int,
        )
    }

    /// A job for stream `stream_index` that resamples from `src_sample_rate` to
    /// `dst_sample_rate` with `dst_channels` channels; nothing decoded yet.
    pub fn new(stream_index: i32, dst_channels: i32, dst_sample_rate: i32, src_sample_rate: i32) -> (r: Self)
        requires
            dst_channels > 0,
            dst_sample_rate > 0,
            src_sample_rate > 0,
        ensures
            r.wf(),
            r.stream_index == stream_index,
            r.dst_channels == dst_channels,
            r.dst_sample_rate == dst_sample_rate,
            r.src_sample_rate == src_sample_rate,
            r.fifo@.len() == 0,
            r.frames@.len() == 0,
    {
        AudioDecodeJob {
            dst_channels,
            dst_sample_rate,
            src_sample_rate,
            stream_index,
            fifo: Vec::new(),
            frames: Ghost(Seq::empty()),
        }
    }

    /// A packet was read with result `ret` for stream `packet_index`: the end
    /// of the stream finishes, any other failure aborts; packets of other
    /// streams are skipped.
    pub fn on_packet_read(&self, ret: i32, packet_index: i32) -> (r: AudioStep)
        ensures
            r == (if ret == AVERROR_EOF {
                AudioStep::Finish
            } else if ret < 0 {
                AudioStep::Abort(ret)
            } else if packet_index != self.stream_index {
                AudioStep::ReadPacket
            } else {
                AudioStep::SendPacket
            }),
    {
        if ret == AVERROR_EOF {
            AudioStep::Finish
        } else if ret < 0 {
            AudioStep::Abort(ret)
        } else if packet_index != self.stream_index {
            AudioStep::ReadPacket
        } else {
            AudioStep::SendPacket
        }
    }

    /// The packet was sent with result `rc`.
    pub fn on_packet_sent(&self, rc: i32) -> (r: AudioStep)
        ensures
            r == (if rc < 0 { AudioStep::Abort(rc) } else { AudioStep::ReceiveFrame }),
    {
        if rc < 0 {
            AudioStep::Abort(rc)
        } else {
            AudioStep::ReceiveFrame
        }
    }

    /// The decoder answered with result `rc`, a frame of `nb_samples` samples
    /// per channel: it is to be resampled into the rescaled count, rounded up.
    /// "Try again" asks for the next packet; the decoder's end of stream
    /// finishes; any other failure aborts.
    pub fn on_frame_received(&self, rc: i32, nb_samples: i32) -> (r: AudioStep)
        requires
            self.wf(),
        ensures
            rc == AVERROR_EAGAIN ==> r == AudioStep::ReadPacket,
            rc == AVERROR_EOF ==> r == AudioStep::Finish,
            rc < 0 && rc != AVERROR_EAGAIN && rc != AVERROR_EOF ==> r == AudioStep::Abort(rc),
            rc >= 0 && nb_samples < 0 ==> r == AudioStep::Abort(LOCAL_ERROR),
            rc >= 0 && nb_samples >= 0 ==> r == AudioStep::Convert(
                dst_samples(nb_samples as int, self.dst_sample_rate as int, self.src_sample_rate as int) as i64,
            ),
    {
        if rc == AVERROR_EAGAIN {
            return AudioStep::ReadPacket;
        }
        if rc == AVERROR_EOF {
            return AudioStep::Finish;
        }
        if rc < 0 {
            return AudioStep::Abort(rc);
        }
        if nb_samples < 0 {
            return AudioStep::Abort(LOCAL_ERROR);
        }
        AudioStep::Convert(dst_frame_size(nb_samples, self.dst_sample_rate, self.src_sample_rate))
    }

    /// Resampling a frame of `nb_samples` source samples returned `rc`;
    /// `samples` are the converted bytes. A chunk of the rescaled length joins
    /// the buffer and the decoder is asked for its next frame; a chunk of any
    /// other length is a short write, which aborts.
    pub fn on_converted(&mut self, rc: i32, nb_samples: i32, samples: &[u8]) -> (r: AudioStep)
        requires
            old(self).wf(),
            nb_samples >= 0,
            old(self).fifo@.len() + samples@.len() <= usize::MAX,
        ensures
            final(self).wf(),
            rc < 0 ==> r == AudioStep::Abort(rc) && *final(self) == *old(self),
            rc >= 0 && samples@.len() != chunk_len(*old(self), nb_samples as int) ==> r
                == AudioStep::Abort(LOCAL_ERROR) && *final(self) == *old(self),
            rc >= 0 && samples@.len() == chunk_len(*old(self), nb_samples as int) ==> r
                == AudioStep::ReceiveFrame
                && final(self).fifo@ == old(self).fifo@ + samples@
                && final(self).frames@ == old(self).frames@.push(nb_samples as int)
                && final(self).dst_channels == old(self).dst_channels
                && final(self).dst_sample_rate == old(self).dst_sample_rate
                && final(self).src_sample_rate == old(self).src_sample_rate
                && final(self).stream_index == old(self).stream_index,
    {
        if rc < 0 {
            return AudioStep::Abort(rc);
        }
        let dst = dst_frame_size(nb_samples, self.dst_sample_rate, self.src_sample_rate);
        assert(0 <= 2 * (self.dst_channels as int) * (dst as int) <= 0x1_0000_0000_0000_0000_0000_0000)
            by (nonlinear_arith)
            requires 0 < self.dst_channels <= 0x7fff_ffff, 0 <= dst <= 0x7fff_ffff_ffff_ffff;
        let want: u128 = 2 * self.dst_channels as u128 * dst as u128;
        if samples.len() as u128 != want {
            return AudioStep::Abort(LOCAL_ERROR);
        }
        let ghost before = self.fifo@;
        let mut i: usize = 0;
        while i < samples.len()
            invariant
                i <= samples@.len(),
                self.fifo@ == before + samples@.subrange(0, i as int),
                self.dst_channels == old(self).dst_channels,
                self.dst_sample_rate == old(self).dst_sample_rate,
                self.src_sample_rate == old(self).src_sample_rate,
                self.stream_index == old(self).stream_index,
                self.frames == old(self).frames,
                before == old(self).fifo@,
            decreases samples@.len() - i,
        {
            self.fifo.push(samples[i]);
            i = i + 1;
            assert(before + samples@.subrange(0, i as int) == (before + samples@.subrange(
                0,
                i as int - 1,
            )).push(samples@[i as int - 1]));
        }
        assert(samples@.subrange(0, samples@.len() as int) == samples@);
        let ghost frames = self.frames@;
        self.frames = Ghost(frames.push(nb_samples as int));
        assert(self.frames@.drop_last() == frames);
        proof {
            assert(2 * self.dst_channels * total_dst_samples(frames, self.dst_sample_rate as int, self.src_sample_rate as int)
                + 2 * self.dst_channels * dst_samples(nb_samples as int, self.dst_sample_rate as int, self.src_sample_rate as int)
                == 2 * self.dst_channels * (total_dst_samples(frames, self.dst_sample_rate as int, self.src_sample_rate as int)
                + dst_samples(nb_samples as int, self.dst_sample_rate as int, self.src_sample_rate as int))) by (nonlinear_arith);
        }
        AudioStep::ReceiveFrame
    }

    /// The result: every resampled sample, `2 * channels` bytes per sample
    /// frame; empty when the stream gave no frame.
    pub fn finish(self) -> (r: Vec<u8>)
        requires
            self.wf(),
        ensures
            r@ == self.fifo@,
            r@.len() == 2 * self.dst_channels * total_dst_samples(
                self.frames@,
                self.dst_sample_rate as int,
                self.src_sample_rate as int,
            ),
    {
        self.fifo
    }
}

/// Samples at rate `dst` that `n` samples at rate `src` become, rounded up.
pub fn dst_frame_size(n: i32, dst: i32, src: i32) -> (r: i64)
    requires
        n >= 0,
        dst > 0,
        src > 0,
    ensures
        r as int == dst_samples(n as int, dst as int, src as int),
        r >= 0,
{
    assert(0 <= (n as int) * (dst as int) <= 0x4000_0000_0000_0000) by (nonlinear_arith)
        requires 0 <= n <= 0x7fff_ffff, 0 < dst <= 0x7fff_ffff;
    let a: i64 = n as i64 * dst as i64;
    let q: i64 = (a + src as i64 - 1) / src as i64;
    assert(q >= 0) by (nonlinear_arith)
        requires q == (a + src - 1) / (src as int), a >= 0, src > 0;
    q
}

/// Channel layout of the source: the native one, or mono where the container
/// reports none.
pub fn source_channel_layout(native: u64) -> (r: u64)
    ensures
        r == (if native == 0 { 1 } else { native }),
{
    if native == 0 {
        1
    } else {
        native
    }
}

impl Stream {
    /// Checks an audio request before any work: the stream must be an audio
    /// stream, and the channel layout and the sample rate positive.
    pub fn check_audio_request(&self, channel_layout: i32, sample_rate: i32) -> (r: Result<(), FFmpegError>)
        ensures
            self.kind != AVMEDIA_TYPE_AUDIO ==> r.is_err() && r->Err_0.code == LOCAL_ERROR
                && r->Err_0.detail@ == "stream type mismatch"@,
            self.kind == AVMEDIA_TYPE_AUDIO && channel_layout <= 0 ==> r.is_err() && r->Err_0.code
                == LOCAL_ERROR && r->Err_0.detail@ == "invalid channel layout"@,
            self.kind == AVMEDIA_TYPE_AUDIO && channel_layout > 0 && sample_rate <= 0 ==> r.is_err()
                && r->Err_0.code == LOCAL_ERROR && r->Err_0.detail@ == "invalid sample rate"@,
            self.kind == AVMEDIA_TYPE_AUDIO && channel_layout > 0 && sample_rate > 0 ==> r.is_ok(),
    {
        if self.kind != AVMEDIA_TYPE_AUDIO {
            return Err(FFmpegError::local("stream type mismatch"));
        }
        if channel_layout <= 0 {
            return Err(FFmpegError::local("invalid channel layout"));
        }
        if sample_rate <= 0 {
            return Err(FFmpegError::local("invalid sample rate"));
        }
        Ok(())
    }
}

/// The error of an aborted audio decode; `native` is the native library's
/// description of `rc`.
pub fn audio_error(rc: i32, native: &str) -> (r: FFmpegError)
    ensures
        r.code == rc,
        r.detail@ == detail_of(rc, "ffmpeg_stream_decode_audio"@, native@),
{
    FFmpegError::new(rc, "ffmpeg_stream_decode_audio", native)
}

proof fn lemma_ceil_div_bounds(a: int, b: int)
    requires
        a >= 0,
        b > 0,
    ensures
        ceil_div(a, b) * b >= a,
        ceil_div(a, b) * b < a + b,
{
    let x = a + b - 1;
    lemma_fundamental_div_mod(x, b);
    lemma_mod_bound(x, b);
    let q = x / b;
    assert(ceil_div(a, b) == q);
    assert(q * b == b * q) by (nonlinear_arith);
}

/// Per frame: the count at twice a rate is twice the count at the rate, or
/// one less.
proof fn lemma_double_rate_frame(n: int, h: int, s: int)
    requires
        n >= 0,
        h > 0,
        s > 0,
    ensures
        2 * dst_samples(n, h, s) - 1 <= dst_samples(n, 2 * h, s) <= 2 * dst_samples(n, h, s),
{
    let a = n * h;
    assert(n * (2 * h) == 2 * a) by (nonlinear_arith)
        requires a == n * h;
    assert(a >= 0) by (nonlinear_arith)
        requires a == n * h, n >= 0, h > 0;
    lemma_ceil_div_bounds(a, s);
    lemma_ceil_div_bounds(2 * a, s);
    let q = ceil_div(a, s);
    let p = ceil_div(2 * a, s);
    assert(p <= 2 * q) by (nonlinear_arith)
        requires p * s < 2 * a + s, q * s >= a, s > 0;
    assert(p >= 2 * q - 1) by (nonlinear_arith)
        requires p * s >= 2 * a, q * s < a + s, s > 0;
}

/// Halving the target rate halves the resampled length, within rounding: at
/// rate `2 * h` the frames `ns` give twice what they give at rate `h`, or up
/// to one sample per frame less; in bytes, with `channels` 16-bit channels,
/// the same holds per sample frame. The length depends on the frames, the
/// rates and the channel count alone, so decoding the same stream twice with
/// the same target gives the same length.
pub proof fn lemma_half_rate_halves_length(ns: Seq<int>, channels: int, h: int, s: int)
    requires
        forall|i: int| 0 <= i < ns.len() ==> 0 <= #[trigger] ns[i],
        channels > 0,
        h > 0,
        s > 0,
    ensures
        2 * total_dst_samples(ns, h, s) - ns.len() <= total_dst_samples(ns, 2 * h, s)
            <= 2 * total_dst_samples(ns, h, s),
        2 * (2 * channels * total_dst_samples(ns, h, s)) - 2 * channels * ns.len()
            <= 2 * channels * total_dst_samples(ns, 2 * h, s)
            <= 2 * (2 * channels * total_dst_samples(ns, h, s)),
    decreases ns.len(),
{
    if ns.len() > 0 {
        let init = ns.drop_last();
        assert forall|i: int| 0 <= i < init.len() implies 0 <= #[trigger] init[i] by {
            assert(init[i] == ns[i]);
        }
        lemma_half_rate_halves_length(init, channels, h, s);
        lemma_double_rate_frame(ns.last(), h, s);
    }
    let t1 = total_dst_samples(ns, h, s);
    let t2 = total_dst_samples(ns, 2 * h, s);
    let len = ns.len() as int;
    assert(2 * (2 * channels * t1) - 2 * channels * len <= 2 * channels * t2 <= 2 * (2 * channels * t1))
        by (nonlinear_arith)
        requires 2 * t1 - len <= t2 <= 2 * t1, channels > 0;
}

/// Two decodes that resampled the same frames to the same target hold buffers
/// of the same length.
pub proof fn lemma_audio_length_deterministic(a: AudioDecodeJob, b: AudioDecodeJob)
    requires
        a.wf(),
        b.wf(),
        a.frames@ == b.frames@,
        a.dst_channels == b.dst_channels,
        a.dst_sample_rate == b.dst_sample_rate,
        a.src_sample_rate == b.src_sample_rate,
    ensures
        a.fifo@.len() == b.fifo@.len(),
{
}

} // verus!
