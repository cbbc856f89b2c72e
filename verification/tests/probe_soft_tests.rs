use hwcodec::common::{
    CodecError, DecodeContext, EncodeContext, MediaUnit, OpenRequest, PixelFormat, Quality,
    RateControl, RawFrame,
};
use hwcodec::geometry::compute_geometry;
use hwcodec::probe::{probe_decoders, probe_encoders};
use hwcodec::rank::prioritize;
use hwcodec::session::{Session, SessionState};
use hwcodec::soft::SoftCodec;

fn encode_ctx(pixfmt: PixelFormat, width: u32, height: u32, align: u32, gop: u32) -> EncodeContext {
    EncodeContext {
        name: String::from(""),
        device: None,
        width,
        height,
        pixfmt,
        align,
        kbitrate: 1000,
        fps: 30,
        gop,
        quality: Quality::Auto,
        rc: RateControl::Cbr,
        thread_count: 4,
        q: -1,
    }
}

fn decode_ctx() -> DecodeContext {
    DecodeContext { name: String::from(""), device: None }
}

fn zero_frame(len: usize, pts: u64) -> MediaUnit {
    MediaUnit::Raw(RawFrame { data: vec![0u8; len], pts })
}

#[test]
fn probing_zero_backends_returns_empty_list() {
    let ctx = encode_ctx(PixelFormat::Nv12, 1280, 720, 0, 60);
    let out = probe_encoders(ctx, Vec::<SoftCodec>::new()).unwrap();
    assert!(out.is_empty());
    let out = probe_decoders(decode_ctx(), Vec::<SoftCodec>::new());
    assert!(out.is_empty());
}

#[test]
fn probing_unsupported_geometry_fails_before_any_backend() {
    let ctx = encode_ctx(PixelFormat::Nv12, 0, 720, 0, 60);
    let backends = vec![SoftCodec::new(String::from("h264"))];
    assert_eq!(probe_encoders(ctx, backends), Err(CodecError::UnsupportedFormat));
}

#[test]
fn probing_finds_software_encoders() {
    let ctx = encode_ctx(PixelFormat::Nv12, 1280, 720, 0, 60);
    let backends = vec![
        SoftCodec::new(String::from("h264")),
        SoftCodec::new(String::from("hevc")),
    ];
    let out = probe_encoders(ctx, backends).unwrap();
    assert_eq!(out.len(), 2);
    assert_eq!(out[0].name, "h264");
    assert_eq!(out[1].name, "hevc");
    for info in &out {
        assert!(!info.hardware);
        assert_eq!(info.score, 8);
        assert_eq!(
            info.formats,
            vec![PixelFormat::Yuv420p, PixelFormat::Nv12, PixelFormat::Yuv444p, PixelFormat::Bgra]
        );
    }
    // Prioritizing a purely software list keeps the probe order.
    let names: Vec<String> = prioritize(out).into_iter().map(|c| c.name).collect();
    assert_eq!(names, vec![String::from("h264"), String::from("hevc")]);
}

#[test]
fn probing_finds_software_decoders() {
    let out = probe_decoders(decode_ctx(), vec![SoftCodec::new(String::from("hevc"))]);
    assert_eq!(out.len(), 1);
    assert_eq!(out[0].name, "hevc");
}

#[test]
fn ten_frames_with_gop_sixty_all_come_out_after_drain() {
    // Lookahead buffering may hold packets back while feeding, but a full
    // feed+flush cycle loses no frame.
    let ctx = encode_ctx(PixelFormat::Nv12, 64, 64, 0, 60);
    let total = compute_geometry(ctx.pixfmt, ctx.width, ctx.height, ctx.align)
        .unwrap()
        .total;
    let req = OpenRequest::Encode(ctx);
    let mut s = Session::open(SoftCodec::new(String::from("h264")), &req).unwrap();
    let mut packets = Vec::new();
    for i in 0..10u64 {
        let out = s.feed(&zero_frame(total, i)).unwrap();
        packets.extend(out);
    }
    assert!(packets.len() < 10);
    packets.extend(s.drain().unwrap());
    assert_eq!(packets.len(), 10);
    assert_eq!(s.state(), SessionState::Closed);
    // Outputs come back in presentation order, key frame first (GOP 60 puts
    // only frame 0 on a key frame within ten frames).
    for (i, p) in packets.iter().enumerate() {
        match p {
            MediaUnit::Packet(p) => {
                assert_eq!(p.pts, i as u64);
                assert_eq!(p.key, i == 0);
            }
            MediaUnit::Raw(_) => panic!("encoder must emit packets"),
        }
    }
}

#[test]
fn gop_length_places_key_frames() {
    let ctx = encode_ctx(PixelFormat::Yuv444p, 4, 4, 0, 3);
    let total = compute_geometry(ctx.pixfmt, ctx.width, ctx.height, ctx.align)
        .unwrap()
        .total;
    let req = OpenRequest::Encode(ctx);
    let mut s = Session::open(SoftCodec::new(String::from("h264")), &req).unwrap();
    let mut packets = Vec::new();
    for i in 0..7u64 {
        packets.extend(s.feed(&zero_frame(total, i)).unwrap());
    }
    packets.extend(s.drain().unwrap());
    let keys: Vec<bool> = packets
        .iter()
        .map(|u| match u {
            MediaUnit::Packet(p) => p.key,
            MediaUnit::Raw(_) => panic!("encoder must emit packets"),
        })
        .collect();
    assert_eq!(keys, vec![true, false, false, true, false, false, true]);
}

#[test]
fn round_trip_through_software_backend_preserves_shape() {
    // Encode one synthetic frame, decode the packets back: the decoded
    // buffer must have the original geometry-computed length.
    let ctx = encode_ctx(PixelFormat::Nv12, 64, 64, 0, 60);
    let total = compute_geometry(ctx.pixfmt, ctx.width, ctx.height, ctx.align)
        .unwrap()
        .total;
    let mut data = vec![0u8; total];
    for (i, b) in data.iter_mut().enumerate() {
        *b = (i % 251) as u8;
    }
    let frame = MediaUnit::Raw(RawFrame { data: data.clone(), pts: 9 });

    let req = OpenRequest::Encode(ctx);
    let mut enc = Session::open(SoftCodec::new(String::from("h264")), &req).unwrap();
    let mut packets = enc.feed(&frame).unwrap();
    packets.extend(enc.drain().unwrap());
    assert_eq!(packets.len(), 1);

    let dreq = OpenRequest::Decode(decode_ctx());
    let mut dec = Session::open(SoftCodec::new(String::from("h264")), &dreq).unwrap();
    let mut frames = Vec::new();
    for p in &packets {
        frames.extend(dec.feed(p).unwrap());
    }
    frames.extend(dec.drain().unwrap());
    assert_eq!(frames.len(), 1);
    match &frames[0] {
        MediaUnit::Raw(f) => {
            assert_eq!(f.data.len(), total);
            assert_eq!(f.data, data);
            assert_eq!(f.pts, 9);
        }
        MediaUnit::Packet(_) => panic!("decoder must emit raw frames"),
    }
}

#[test]
fn transient_soft_failures_leave_session_running() {
    let ctx = encode_ctx(PixelFormat::Nv12, 64, 64, 0, 60);
    let total = compute_geometry(ctx.pixfmt, ctx.width, ctx.height, ctx.align)
        .unwrap()
        .total;
    let req = OpenRequest::Encode(ctx);
    let mut s = Session::open(SoftCodec::new(String::from("h264")), &req).unwrap();
    // A wrongly sized frame fails this call only.
    assert_eq!(
        s.feed(&zero_frame(total - 1, 0)),
        Err(CodecError::TransientFeedFailure)
    );
    assert_eq!(s.state(), SessionState::Running);
    assert!(s.feed(&zero_frame(total, 1)).is_ok());
    s.close();
}

#[test]
fn soft_decoder_rejects_empty_packet() {
    let dreq = OpenRequest::Decode(decode_ctx());
    let mut dec = Session::open(SoftCodec::new(String::from("h264")), &dreq).unwrap();
    let empty = MediaUnit::Packet(hwcodec::common::EncodedPacket {
        data: Vec::new(),
        pts: 0,
        key: false,
    });
    assert_eq!(dec.feed(&empty), Err(CodecError::TransientFeedFailure));
    assert_eq!(dec.state(), SessionState::Running);
    dec.close();
}

#[test]
fn soft_backend_rejects_unsupported_encode_open() {
    let ctx = encode_ctx(PixelFormat::Yuv420p, 3, 2, 0, 60);
    let req = OpenRequest::Encode(ctx);
    match Session::open(SoftCodec::new(String::from("h264")), &req) {
        Ok(_) => panic!("open should fail on odd dimensions"),
        Err(e) => assert_eq!(e, CodecError::BackendUnavailable),
    }
}
