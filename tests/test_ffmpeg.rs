use ffmpeg::audio::{dst_frame_size, source_channel_layout, AudioDecodeJob, AudioStep};
use ffmpeg::byte_source::{
    read_packet, seek_packet, wrapper_fillin_buffer, AVSEEK_SIZE, SEEK_CUR, SEEK_END, SEEK_FAILED,
    SEEK_SET,
};
use ffmpeg::error::FFmpegError;
use ffmpeg::format::{demux_alloc_failure, open_error, open_failure, Format, DEMUX_ALLOC_FAILED};
use ffmpeg::media::{
    setup_failure_code, Rational, SetupFailure, TimeValue, AVERROR_EAGAIN, AVERROR_ENOENT,
    AVERROR_EOF, AVERROR_INVALIDDATA, AVMEDIA_TYPE_AUDIO, AVMEDIA_TYPE_VIDEO, AV_NOPTS_VALUE,
    LOCAL_ERROR,
};
use ffmpeg::meta::{rotation_from_tag, wrapper_get_meta, StreamInfo};
use ffmpeg::stream::{
    degree_to_orientation, new_stream, pull_error, seek_error, Frame, Orientation, PullStep,
    SeekStep, Stream,
};

fn video_info(index: i32, rotate: Option<&str>) -> StreamInfo {
    StreamInfo {
        kind: AVMEDIA_TYPE_VIDEO,
        index,
        nb_frames: 240,
        time_base: Rational::new(1, 12288),
        r_frame_rate: Rational::new(12012, 500),
        duration: 122880,
        rotate_tag: rotate.map(|t| t.as_bytes().to_vec()),
    }
}

fn audio_info(index: i32) -> StreamInfo {
    StreamInfo {
        kind: AVMEDIA_TYPE_AUDIO,
        index,
        nb_frames: 430,
        time_base: Rational::new(1, 44100),
        r_frame_rate: Rational::new(0, 0),
        duration: 441000,
        rotate_tag: None,
    }
}

/// A stand-in for the native decoder: packets by stream index, one frame per
/// packet of the wanted stream.
struct FakeDemuxer {
    packets: Vec<i32>,
    next: usize,
    pending: i64,
    decoded: i64,
}

fn fake(packets: Vec<i32>) -> FakeDemuxer {
    FakeDemuxer { packets, next: 0, pending: 0, decoded: 0 }
}

fn pull_frame(stream: &mut Stream, dm: &mut FakeDemuxer, pixels: &[u8]) -> Result<Frame, FFmpegError> {
    let mut step = stream.begin_video_frame();
    loop {
        step = match step {
            PullStep::CreateDecoder => stream.on_decoder_created(0),
            PullStep::ReadPacket => {
                if dm.next < dm.packets.len() {
                    let idx = dm.packets[dm.next];
                    dm.next += 1;
                    stream.on_packet_read(0, idx)
                } else {
                    stream.on_packet_read(AVERROR_EOF, -1)
                }
            }
            PullStep::SendPacket => {
                dm.pending += 1;
                stream.on_packet_sent(0)
            }
            PullStep::ReceiveFrame => {
                if dm.pending > 0 {
                    dm.pending -= 1;
                    let ts = dm.decoded * 512;
                    dm.decoded += 1;
                    stream.on_frame_received(0, ts, ts)
                } else {
                    stream.on_frame_received(AVERROR_EAGAIN, 0, 0)
                }
            }
            PullStep::CreateConverter => stream.on_converter_created(true),
            PullStep::AllocateImage => stream.on_image_allocated(0, 640, 360, 1920),
            PullStep::Convert => stream.on_converted(0),
            PullStep::Emit => return Ok(stream.make_frame(pixels)),
            other => {
                let native = if other == PullStep::Failed(AVERROR_EOF) { "End of file" } else { "Unknown error" };
                return Err(pull_error(other, native).unwrap());
            }
        };
    }
}

fn traverse_frame(stream: &mut Stream, dm: &mut FakeDemuxer, width: i32, height: i32, stride: i32) -> i32 {
    let pixels = vec![7u8; (height * stride) as usize + 64];
    let mut frame_count = 0;
    loop {
        match pull_frame(stream, dm, &pixels) {
            Err(err) => {
                assert_eq!("AV_EOF", err.description());
                break;
            }
            Ok(frame) => {
                assert_eq!(width, frame.width);
                assert_eq!(height, frame.height);
                assert_eq!(stride, frame.stride);
                assert_eq!((height * stride) as usize, frame.buffer.len());
                let dur = stream.duration.value;
                if dur > 0 {
                    assert!(frame.pts.value >= 0 && frame.pts.value < dur);
                    assert!(frame.dts.value >= 0 && frame.dts.value < dur);
                }
                frame_count += 1;
            }
        }
    }
    assert!(frame_count > 0);
    frame_count
}

#[test]
fn catalog_counts_and_video_orientation() {
    let mut fm = Format::from_streams(vec![video_info(0, None), audio_info(1)]);
    assert_eq!(2, fm.n_streams);
    assert_eq!(1, fm.n_video_streams);
    assert_eq!(1, fm.n_audio_streams);

    assert_eq!(1, fm.video_streams().len());
    assert_eq!(1, fm.audio_streams().len());

    let vs = &fm.video_streams()[0];
    assert_eq!(Orientation::Top, vs.orientation);
    let fps = vs.fps.num as f64 / vs.fps.den as f64;
    assert!(fps > 24.0 && fps < 24.1);
}

#[test]
fn video_pull_keeps_dimensions_until_eof() {
    let mut fm = Format::from_streams(vec![video_info(0, None), audio_info(1)]);
    assert_eq!(1, fm.video_streams().len());
    let mut dm = fake(vec![0, 1, 0, 1, 0, 0, 1]);
    let n = traverse_frame(&mut fm.video_streams()[0], &mut dm, 640, 360, 1920);
    assert_eq!(4, n);
}

#[test]
fn blob_source_reads_back_its_bytes() {
    let blob: Vec<u8> = (0..100u32).map(|i| (i * 7 % 251) as u8).collect();
    let mut source = wrapper_fillin_buffer(&blob);
    let mut read_back: Vec<u8> = Vec::new();
    let mut buf = vec![0u8; 32];
    loop {
        let n = read_packet(&mut source, &mut buf, 32);
        if n == 0 {
            break;
        }
        read_back.extend_from_slice(&buf[..n as usize]);
    }
    assert_eq!(blob, read_back);

    let mut fm = Format::from_streams(vec![video_info(0, None)]);
    assert_eq!(1, fm.video_streams().len());
    let mut dm = fake(vec![0, 0, 0]);
    let n = traverse_frame(&mut fm.video_streams()[0], &mut dm, 640, 360, 1920);
    assert_eq!(3, n);
}

#[test]
fn open_error_for_missing_file() {
    let code = open_failure(AVERROR_ENOENT, 0).unwrap();
    let err = open_error(code, "No such file or directory");
    assert_eq!("ffmpeg_open: No such file or directory", err.description())
}

#[test]
fn open_error_for_invalid_data() {
    let code = open_failure(0, AVERROR_INVALIDDATA).unwrap();
    let err = open_error(code, "Invalid data found when processing input");
    assert_eq!("ffmpeg_open: Invalid data found when processing input", err.description())
}

#[test]
fn seek_targets_by_time_and_frame() {
    let mut fm = Format::from_streams(vec![video_info(0, None), audio_info(1)]);
    assert_eq!(1, fm.video_streams().len());

    let vs = &fm.video_streams()[0];
    // 1.5 s at a time base of 1/12288
    let t = TimeValue { value: 1_500_000, unit: Rational::new(1, 1_000_000) };
    assert_eq!(18432, vs.seek_by_time(t, AV_NOPTS_VALUE).unwrap());
    // frame 10 at 12012/500 fps: 10 * 500 * 12288 / 12012 = 5114.9 ticks
    assert_eq!(5114, vs.seek_by_frame(10, AV_NOPTS_VALUE).unwrap());
    assert_eq!(SeekStep::Done, vs.finish_seek(0));
}

#[test]
fn audio_length_halves_at_half_rate() {
    let mut fm = Format::from_streams(vec![audio_info(0)]);
    assert_eq!(1, fm.audio_streams().len());
    let audio_stream = &fm.audio_streams()[0];
    assert!(audio_stream.check_audio_request(1, 16000).is_ok());

    // ten packets, each decoding into one frame of 1152 samples at 44100 Hz
    let run = |rate: i32| -> Vec<u8> {
        let mut job = AudioDecodeJob::new(0, 1, rate, 44100);
        for _ in 0..10 {
            assert_eq!(AudioStep::SendPacket, job.on_packet_read(0, 0));
            assert_eq!(AudioStep::ReceiveFrame, job.on_packet_sent(0));
            let n = match job.on_frame_received(0, 1152) {
                AudioStep::Convert(n) => n,
                other => panic!("unexpected step {:?}", other),
            };
            let samples = vec![1u8; (n * 2) as usize];
            assert_eq!(AudioStep::ReceiveFrame, job.on_converted(0, 1152, &samples));
            assert_eq!(AudioStep::ReadPacket, job.on_frame_received(AVERROR_EAGAIN, 0));
        }
        assert_eq!(AudioStep::Finish, job.on_packet_read(AVERROR_EOF, -1));
        job.finish()
    };
    let expected_size = 8360;
    let pcm = run(16000);
    assert_eq!(expected_size, pcm.len());
    assert_eq!(pcm.len(), run(16000).len());
    let pcm = run(8000);
    assert_eq!(expected_size / 2, pcm.len());
}

#[test]
fn error_detail_forms() {
    let e = FFmpegError::new(AVERROR_EOF, "next_frame", "End of file");
    assert_eq!("AV_EOF", e.description());
    assert!(e.is_eof());
    let e = FFmpegError::new(-5, "next_frame", "Input/output error");
    assert_eq!("next_frame: Input/output error", e.description());
    assert_eq!(-5, e.code());
    let e = FFmpegError::local("invalid sample rate");
    assert_eq!(LOCAL_ERROR, e.code);
    assert_eq!("invalid sample rate", e.description());
}

#[test]
fn orientation_from_degrees() {
    assert_eq!(Orientation::Top, degree_to_orientation(0));
    assert_eq!(Orientation::Left, degree_to_orientation(90));
    assert_eq!(Orientation::Bottom, degree_to_orientation(180));
    assert_eq!(Orientation::Right, degree_to_orientation(270));
    assert_eq!(Orientation::Left, degree_to_orientation(450));
    assert_eq!(Orientation::Top, degree_to_orientation(45));
    assert_eq!(Orientation::Top, degree_to_orientation(-90));
}

#[test]
fn rotate_tag_parsing() {
    assert_eq!(90, rotation_from_tag(b"90"));
    assert_eq!(90, rotation_from_tag(b"  +450xyz"));
    assert_eq!(-90, rotation_from_tag(b"-90"));
    assert_eq!(0, rotation_from_tag(b""));
    assert_eq!(0, rotation_from_tag(b"abc"));
    assert_eq!(270, rotation_from_tag(b"99999999999999999990"));
    let s = new_stream(&video_info(0, Some("270")), AVMEDIA_TYPE_VIDEO);
    assert_eq!(Orientation::Right, s.orientation);
}

#[test]
fn metadata_of_video_and_audio() {
    let mut info = video_info(3, Some("180"));
    info.duration = AV_NOPTS_VALUE;
    let m = wrapper_get_meta(&info, AVMEDIA_TYPE_VIDEO);
    assert_eq!(3, m.idx);
    assert_eq!(240, m.nfr);
    assert_eq!(0, m.dur.value);
    assert_eq!(180, m.rtt);
    assert_eq!(Rational::new(12012, 500), m.fps);
    let m = wrapper_get_meta(&audio_info(1), AVMEDIA_TYPE_AUDIO);
    assert_eq!(0, m.dur.value);
    assert_eq!(Rational::new(0, 1), m.fps);
    assert_eq!(Rational::new(1, 44100), m.tb);
}

#[test]
fn stream_counts_with_other_kinds() {
    let mut data = audio_info(2);
    data.kind = 2;
    let mut fm = Format::from_streams(vec![video_info(0, None), audio_info(1), data, audio_info(3)]);
    assert_eq!(4, fm.n_streams);
    assert_eq!(1, fm.n_video_streams);
    assert_eq!(2, fm.n_audio_streams);
    assert_eq!(2, fm.audio_streams().len());
    assert_eq!(3, fm.audio_streams()[1].index);
    let empty = Format::from_streams(vec![]);
    assert_eq!(0, empty.n_streams);
}

#[test]
fn byte_source_seeks() {
    let blob: Vec<u8> = (0..10u8).collect();
    let mut src = wrapper_fillin_buffer(&blob);
    assert_eq!(10, seek_packet(&mut src, 0, AVSEEK_SIZE));
    assert_eq!(4, seek_packet(&mut src, 4, SEEK_SET));
    assert_eq!(SEEK_FAILED, seek_packet(&mut src, 10, SEEK_SET));
    assert_eq!(SEEK_FAILED, seek_packet(&mut src, -1, SEEK_SET));
    assert_eq!(7, seek_packet(&mut src, 3, SEEK_CUR));
    assert_eq!(SEEK_FAILED, seek_packet(&mut src, -7, SEEK_CUR));
    assert_eq!(10, seek_packet(&mut src, 0, SEEK_END));
    assert_eq!(2, seek_packet(&mut src, -8, SEEK_END));
    assert_eq!(SEEK_FAILED, seek_packet(&mut src, -10, SEEK_END));
    assert_eq!(SEEK_FAILED, seek_packet(&mut src, 0, 7));
    assert_eq!(2, src.position());
    let mut buf = vec![9u8; 4];
    assert_eq!(3, read_packet(&mut src, &mut buf, 3));
    assert_eq!(vec![2u8, 3, 4, 9], buf);
    assert_eq!(5, src.position());
    assert_eq!(5, src.remaining());
    assert_eq!(10, src.total());
}

#[test]
fn pull_errors_and_kind_mismatch() {
    let mut s = new_stream(&audio_info(0), AVMEDIA_TYPE_AUDIO);
    let step = s.begin_video_frame();
    assert_eq!(PullStep::KindMismatch, step);
    assert_eq!("stream type mismatch", pull_error(step, "").unwrap().description());
    assert!(s.check_audio_request(0, 16000).is_err());
    assert_eq!("invalid sample rate", s.check_audio_request(1, 0).unwrap_err().description());
    let mut v = new_stream(&video_info(0, None), AVMEDIA_TYPE_VIDEO);
    assert_eq!("stream type mismatch", v.check_audio_request(1, 16000).unwrap_err().description());
    assert_eq!(PullStep::DecoderFailed(-4), v.on_decoder_created(-4));
    let e = pull_error(PullStep::DecoderFailed(-4), "Interrupted system call").unwrap();
    assert_eq!("ffmpeg_create_decode_ctx: Interrupted system call", e.description());
    assert_eq!(PullStep::ReadPacket, v.on_decoder_created(0));
    assert_eq!(PullStep::Failed(-5), v.on_packet_sent(-5));
    assert_eq!(PullStep::SendPacket, v.on_packet_read(0, 0));
    assert_eq!(PullStep::ReceiveFrame, v.on_packet_sent(0));
    assert_eq!(PullStep::Failed(-22), v.on_frame_received(-22, 0, 0));
    assert_eq!(PullStep::Failed(LOCAL_ERROR), v.on_converter_created(false));
    assert_eq!(None, pull_error(PullStep::Emit, "").map(|e| e.code));
}

#[test]
fn seek_edges() {
    let mut info = video_info(0, None);
    info.r_frame_rate = Rational::new(0, 1);
    let s = new_stream(&info, AVMEDIA_TYPE_VIDEO);
    assert_eq!("invalid frame rate", s.seek_by_frame(10, 0).unwrap_err().description());
    let zero = TimeValue { value: 0, unit: Rational::new(1, 1000) };
    assert_eq!(1000, s.seek_by_time(zero, 1000).unwrap());
    let neg = TimeValue { value: -1, unit: Rational::new(1, 1000) };
    assert_eq!(-12, s.seek_by_time(neg, AV_NOPTS_VALUE).unwrap());
    let bad = TimeValue { value: 1, unit: Rational::new(1, 0) };
    assert_eq!("invalid time base", s.seek_by_time(bad, 0).unwrap_err().description());
    let huge = TimeValue { value: i64::MAX, unit: Rational::new(1, 1) };
    assert!(s.seek_by_time(huge, 0).is_err());
    let v = new_stream(&video_info(0, None), AVMEDIA_TYPE_VIDEO);
    assert_eq!(0, v.seek_by_frame(0, AV_NOPTS_VALUE).unwrap());
    assert_eq!("ffmpeg_seek_frame: Operation not permitted", seek_error(-1, true, "Operation not permitted").description());
    let mut w = new_stream(&video_info(0, None), AVMEDIA_TYPE_VIDEO);
    w.on_decoder_created(0);
    assert_eq!(SeekStep::Flush, w.finish_seek(0));
    assert_eq!(SeekStep::Failed(-1), w.finish_seek(-1));
}

#[test]
fn audio_sizes_and_setup_codes() {
    assert_eq!(418, dst_frame_size(1152, 16000, 44100));
    assert_eq!(209, dst_frame_size(1152, 8000, 44100));
    assert_eq!(0, dst_frame_size(0, 8000, 44100));
    assert_eq!(1, source_channel_layout(0));
    assert_eq!(3, source_channel_layout(3));
    let job = AudioDecodeJob::new(2, 1, 16000, 44100);
    assert_eq!(AudioStep::ReadPacket, job.on_packet_read(0, 5));
    assert_eq!(AudioStep::ReadPacket, job.on_frame_received(AVERROR_EAGAIN, 0));
    assert_eq!(AudioStep::Finish, job.on_frame_received(AVERROR_EOF, 0));
    assert_eq!(AudioStep::Abort(-22), job.on_frame_received(-22, 0));
    assert_eq!(AudioStep::Abort(LOCAL_ERROR), job.on_frame_received(0, -5));
    assert_eq!(AudioStep::Abort(-5), job.on_packet_read(-5, 0));
    assert_eq!(AudioStep::Finish, job.on_packet_read(AVERROR_EOF, 0));
    assert_eq!(AudioStep::Abort(-1), job.on_packet_sent(-1));
    assert!(job.finish().is_empty());
    assert_eq!(None, demux_alloc_failure(true));
    assert_eq!(Some(DEMUX_ALLOC_FAILED), demux_alloc_failure(false));
    assert_eq!(-1, setup_failure_code(SetupFailure::DecoderNotFound));
    assert_eq!(-2, setup_failure_code(SetupFailure::ContextAlloc));
    assert_eq!(-3, setup_failure_code(SetupFailure::ParameterCopy));
    assert_eq!(-4, setup_failure_code(SetupFailure::Open(-22)));
    assert_eq!(-4, setup_failure_code(SetupFailure::Open(-1)));
}

#[test]
fn audio_packet_with_several_frames_and_short_write() {
    // one packet decoding into two frames, then a read error mid-stream
    let mut job = AudioDecodeJob::new(0, 2, 8000, 16000);
    assert_eq!(AudioStep::SendPacket, job.on_packet_read(0, 0));
    assert_eq!(AudioStep::ReceiveFrame, job.on_packet_sent(0));
    assert_eq!(AudioStep::Convert(50), job.on_frame_received(0, 100));
    assert_eq!(AudioStep::ReceiveFrame, job.on_converted(0, 100, &vec![3u8; 200]));
    assert_eq!(AudioStep::Convert(25), job.on_frame_received(0, 49));
    // a short write aborts and leaves the buffer as it was
    assert_eq!(AudioStep::Abort(LOCAL_ERROR), job.on_converted(0, 49, &vec![4u8; 99]));
    assert_eq!(200, job.fifo.len());
    assert_eq!(AudioStep::ReceiveFrame, job.on_converted(0, 49, &vec![4u8; 100]));
    assert_eq!(AudioStep::ReadPacket, job.on_frame_received(AVERROR_EAGAIN, 0));
    assert_eq!(AudioStep::Abort(-5), job.on_packet_read(-5, 0));
    assert_eq!(AudioStep::Abort(-7), job.on_converted(-7, 10, &[]));
    let pcm = job.finish();
    assert_eq!(300, pcm.len());
    assert_eq!(3, pcm[0]);
    assert_eq!(4, pcm[299]);
}
