//! A probed container: its stream counts and its lazily built stream catalog.

use vstd::prelude::*;
use crate::error::{FFmpegError, detail_of};
use crate::media::{AVMEDIA_TYPE_AUDIO, AVMEDIA_TYPE_VIDEO};
use crate::meta::StreamInfo;
use crate::stream::{Stream, new_stream, stream_of};

verus! {

/// Number of streams of kind `kind`.
pub open spec fn count_kind(s: Seq<StreamInfo>, kind: i32) -> int
    decreases s.len(),
{
    if s.len() == 0 {
        0
    } else {
        count_kind(s.drop_last(), kind) + if s.last().kind == kind { 1int } else { 0int }
    }
}

/// Number of streams that are neither video nor audio.
pub open spec fn count_other(s: Seq<StreamInfo>) -> int
    decreases s.len(),
{
    if s.len() == 0 {
        0
    } else {
        count_other(s.drop_last()) + if s.last().kind != AVMEDIA_TYPE_VIDEO && s.last().kind
            != AVMEDIA_TYPE_AUDIO {
            1int
        } else {
            0int
        }
    }
}

/// The streams of kind `kind`, in container order, each with its derived metadata.
pub open spec fn streams_of_kind(s: Seq<StreamInfo>, kind: i32) -> Seq<Stream>
    decreases s.len(),
{
    if s.len() == 0 {
        Seq::empty()
    } else if s.last().kind == kind {
        streams_of_kind(s.drop_last(), kind).push(stream_of(s.last(), kind))
    } else {
        streams_of_kind(s.drop_last(), kind)
    }
}

/// A probed container.
#[derive(Debug)]
pub struct Format {
    pub n_streams: i32,
    pub n_video_streams: i32,
    pub n_audio_streams: i32,
    /// What the native library reported of each stream, in container order.
    pub infos: Vec<StreamInfo>,
    pub video_streams: Vec<Stream>,
    pub audio_streams: Vec<Stream>,
    pub video_loaded: bool,
    pub audio_loaded: bool,
}

/// The code that makes opening fail: that of the open call where it is
/// negative, else that of the stream-info probe where it is not 0.
pub open spec fn open_failure_spec(open_ret: i32, probe_ret: i32) -> Option<i32> {
    if open_ret < 0 {
        Some(open_ret)
    } else if probe_ret != 0 {
        Some(probe_ret)
    } else {
        None
    }
}

pub fn open_failure(open_ret: i32, probe_ret: i32) -> (r: Option<i32>)
    ensures
        r == open_failure_spec(open_ret, probe_ret),
{
    if open_ret < 0 {
        Some(open_ret)
    } else if probe_ret != 0 {
        Some(probe_ret)
    } else {
        None
    }
}

/// Code of a failed demux-context allocation for in-memory input.
pub const DEMUX_ALLOC_FAILED: i32 = -888;

/// Opening in-memory input first allocates a demux context for the byte
/// source; `allocated` tells whether that worked. Where it did not, opening
/// fails with the library's own code, before any open call.
pub fn demux_alloc_failure(allocated: bool) -> (r: Option<i32>)
    ensures
        allocated ==> r.is_none(),
        !allocated ==> r == Some(DEMUX_ALLOC_FAILED),
{
    if allocated {
        None
    } else {
        Some(DEMUX_ALLOC_FAILED)
    }
}

/// The error of a failed open; `native` is the native library's description of `code`.
pub fn open_error(code: i32, native: &str) -> (r: FFmpegError)
    ensures
        r.code == code,
        r.desc@ == "ffmpeg_open"@,
        r.detail@ == detail_of(code, "ffmpeg_open"@, native@),
{
    FFmpegError::new(code, "ffmpeg_open", native)
}

proof fn lemma_count_bound(s: Seq<StreamInfo>, kind: i32)
    ensures
        0 <= count_kind(s, kind) <= s.len(),
    decreases s.len(),
{
    if s.len() > 0 {
        lemma_count_bound(s.drop_last(), kind);
    }
}

/// Builds the streams of kind `kind`.
fn get_streams(infos: &Vec<StreamInfo>, kind: i32) -> (r: Vec<Stream>)
    ensures
        r@ == streams_of_kind(infos@, kind),
{
    let mut out: Vec<Stream> = Vec::new();
    let mut i: usize = 0;
    while i < infos.len()
        invariant
            i <= infos@.len(),
            out@ == streams_of_kind(infos@.subrange(0, i as int), kind),
        decreases infos@.len() - i,
    {
        assert(infos@.subrange(0, i as int + 1).drop_last() == infos@.subrange(0, i as int));
        if infos[i].kind == kind {
            out.push(new_stream(&infos[i], kind));
        }
        i = i + 1;
    }
    assert(infos@.subrange(0, infos@.len() as int) == infos@);
    out
}

impl Format {
    /// The counts agree with the stream facts.
    pub open spec fn wf(&self) -> bool {
        &&& self.n_streams as int == self.infos@.len()
        &&& self.n_video_streams as int == count_kind(self.infos@, AVMEDIA_TYPE_VIDEO)
        &&& self.n_audio_streams as int == count_kind(self.infos@, AVMEDIA_TYPE_AUDIO)
    }

    /// A container with streams `infos`: counts every stream, and its video and
    /// audio streams apart; no stream list is built yet.
    pub fn from_streams(infos: Vec<StreamInfo>) -> (r: Format)
        requires
            infos@.len() <= i32::MAX,
        ensures
            r.wf(),
            r.infos@ == infos@,
            r.video_streams@.len() == 0,
            r.audio_streams@.len() == 0,
            !r.video_loaded,
            !r.audio_loaded,
    {
        let mut videos: i32 = 0;
        let mut audios: i32 = 0;
        let mut i: usize = 0;
        while i < infos.len()
            invariant
                i <= infos@.len(),
                infos@.len() <= i32::MAX,
                videos as int == count_kind(infos@.subrange(0, i as int), AVMEDIA_TYPE_VIDEO),
                audios as int == count_kind(infos@.subrange(0, i as int), AVMEDIA_TYPE_AUDIO),
            decreases infos@.len() - i,
        {
            assert(infos@.subrange(0, i as int + 1).drop_last() == infos@.subrange(0, i as int));
            proof {
                lemma_count_bound(infos@.subrange(0, i as int), AVMEDIA_TYPE_VIDEO);
                lemma_count_bound(infos@.subrange(0, i as int), AVMEDIA_TYPE_AUDIO);
            }
            let k = infos[i].kind;
            if k == AVMEDIA_TYPE_VIDEO {
                videos = videos + 1;
            } else if k == AVMEDIA_TYPE_AUDIO {
                audios = audios + 1;
            }
            i = i + 1;
        }
        assert(infos@.subrange(0, infos@.len() as int) == infos@);
        let n = infos.len() as i32;
        Format {
            n_streams: n,
            n_video_streams: videos,
            n_audio_streams: audios,
            infos,
            video_streams: Vec::new(),
            audio_streams: Vec::new(),
            video_loaded: false,
            audio_loaded: false,
        }
    }

    /// The video streams: built on the first call, the same list after it.
    pub fn video_streams(&mut self) -> (r: &mut Vec<Stream>)
        ensures
            !old(self).video_loaded ==> r@ == streams_of_kind(old(self).infos@, AVMEDIA_TYPE_VIDEO),
            old(self).video_loaded ==> r@ == old(self).video_streams@,
            *final(self) == (Format {
                video_streams: *final(r),
                video_loaded: true,
                ..*old(self)
            }),
    {
        if !self.video_loaded {
            self.video_streams = get_streams(&self.infos, AVMEDIA_TYPE_VIDEO);
            self.video_loaded = true;
        }
        &mut self.video_streams
    }

    /// The audio streams: built on the first call, the same list after it.
    pub fn audio_streams(&mut self) -> (r: &mut Vec<Stream>)
        ensures
            !old(self).audio_loaded ==> r@ == streams_of_kind(old(self).infos@, AVMEDIA_TYPE_AUDIO),
            old(self).audio_loaded ==> r@ == old(self).audio_streams@,
            *final(self) == (Format {
                audio_streams: *final(r),
                audio_loaded: true,
                ..*old(self)
            }),
    {
        if !self.audio_loaded {
            self.audio_streams = get_streams(&self.infos, AVMEDIA_TYPE_AUDIO);
            self.audio_loaded = true;
        }
        &mut self.audio_streams
    }
}

/// Every stream is counted once: as video, as audio or as another kind; and
/// the catalog of a kind holds as many streams as that kind counts.
pub proof fn lemma_stream_counts(s: Seq<StreamInfo>)
    ensures
        s.len() == count_kind(s, AVMEDIA_TYPE_VIDEO) + count_kind(s, AVMEDIA_TYPE_AUDIO)
            + count_other(s),
        streams_of_kind(s, AVMEDIA_TYPE_VIDEO).len() == count_kind(s, AVMEDIA_TYPE_VIDEO),
        streams_of_kind(s, AVMEDIA_TYPE_AUDIO).len() == count_kind(s, AVMEDIA_TYPE_AUDIO),
    decreases s.len(),
{
    if s.len() > 0 {
        lemma_stream_counts(s.drop_last());
    }
}

} // verus!
