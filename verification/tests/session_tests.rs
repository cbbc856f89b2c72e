use hwcodec::common::{
    CodecError, DecodeContext, EncodeContext, EncodedPacket, MediaUnit, OpenRequest, PixelFormat,
    Quality, RateControl, RawFrame,
};
use hwcodec::session::{Session, SessionState};
use hwcodec::soft::SoftCodec;

fn encode_request(width: u32, height: u32, gop: u32) -> OpenRequest {
    OpenRequest::Encode(EncodeContext {
        name: String::from(""),
        device: None,
        width,
        height,
        pixfmt: PixelFormat::Nv12,
        align: 0,
        kbitrate: 1000,
        fps: 30,
        gop,
        quality: Quality::Auto,
        rc: RateControl::Cbr,
        thread_count: 4,
        q: -1,
    })
}

fn decode_request() -> OpenRequest {
    OpenRequest::Decode(DecodeContext { name: String::from(""), device: None })
}

fn soft() -> SoftCodec {
    SoftCodec::new(String::from("h264"))
}

fn zero_frame(len: usize, pts: u64) -> MediaUnit {
    MediaUnit::Raw(RawFrame { data: vec![0u8; len], pts })
}

// NV12 at 64x64 with default alignment: 64*64 + 64*32 bytes.
const FRAME_LEN: usize = 6144;

#[test]
fn session_releases_backend_exactly_once_despite_transient_failure() {
    // Open, feed five units of which one fails transiently, drain: the
    // backend must have been closed exactly once.
    let mut s = Session::open(soft(), &encode_request(64, 64, 60)).unwrap();
    let mut failures = 0;
    for i in 0..5u64 {
        // The third frame has the wrong buffer size and fails this call only.
        let len = if i == 2 { FRAME_LEN - 1 } else { FRAME_LEN };
        match s.feed(&zero_frame(len, i)) {
            Ok(_) => {}
            Err(e) => {
                assert_eq!(e, CodecError::TransientFeedFailure);
                failures += 1;
            }
        }
    }
    assert_eq!(failures, 1);
    assert_eq!(s.frames_fed(), 5);
    assert_eq!(s.state(), SessionState::Running);
    s.drain().unwrap();
    assert_eq!(s.state(), SessionState::Closed);
    assert_eq!(s.backend.close_count, 1);
    // Draining or closing again must not release the backend a second time.
    assert_eq!(s.drain(), Err(CodecError::SessionClosed));
    s.close();
    assert_eq!(s.backend.close_count, 1);
}

#[test]
fn outputs_pass_through_unmodified_in_order() {
    // With a lookahead of two, the third feed emits the first packet; the
    // session hands it through unchanged, oldest first.
    let mut s = Session::open(soft(), &encode_request(64, 64, 60)).unwrap();
    assert_eq!(s.feed(&zero_frame(FRAME_LEN, 0)).unwrap(), Vec::new());
    assert_eq!(s.feed(&zero_frame(FRAME_LEN, 1)).unwrap(), Vec::new());
    let out = s.feed(&zero_frame(FRAME_LEN, 2)).unwrap();
    assert_eq!(out.len(), 1);
    match &out[0] {
        MediaUnit::Packet(p) => {
            assert_eq!(p.pts, 0);
            assert!(p.key);
            assert_eq!(p.data.len(), FRAME_LEN + 1);
        }
        MediaUnit::Raw(_) => panic!("encoder must emit packets"),
    }
    // Draining returns the remaining two, still in order.
    let rest = s.drain().unwrap();
    let pts: Vec<u64> = rest
        .iter()
        .map(|u| match u {
            MediaUnit::Packet(p) => p.pts,
            MediaUnit::Raw(_) => panic!("encoder must emit packets"),
        })
        .collect();
    assert_eq!(pts, vec![1, 2]);
}

#[test]
fn open_failure_reports_backend_unavailable() {
    // Odd dimensions under 4:2:0 subsampling cannot be opened.
    match Session::open(soft(), &encode_request(63, 64, 60)) {
        Ok(_) => panic!("open should fail"),
        Err(e) => assert_eq!(e, CodecError::BackendUnavailable),
    }
}

#[test]
fn feed_after_close_reports_session_closed() {
    let mut s = Session::open(soft(), &decode_request()).unwrap();
    s.close();
    assert_eq!(s.backend.close_count, 1);
    let p = MediaUnit::Packet(EncodedPacket { data: vec![1, 2], pts: 0, key: false });
    assert_eq!(s.feed(&p), Err(CodecError::SessionClosed));
    assert_eq!(s.drain(), Err(CodecError::SessionClosed));
    assert_eq!(s.backend.close_count, 1);
}

#[test]
fn input_counter_counts_every_running_feed() {
    let mut s = Session::open(soft(), &decode_request()).unwrap();
    let good = MediaUnit::Packet(EncodedPacket { data: vec![0, 9], pts: 3, key: false });
    let bad = MediaUnit::Packet(EncodedPacket { data: Vec::new(), pts: 4, key: false });
    assert!(s.feed(&good).is_ok());
    assert_eq!(s.feed(&bad), Err(CodecError::TransientFeedFailure));
    assert!(s.feed(&good).is_ok());
    assert_eq!(s.frames_fed(), 3);
    s.close();
    // A closed session no longer counts.
    let _ = s.feed(&good);
    assert_eq!(s.frames_fed(), 3);
}

#[test]
fn terminated_session_refuses_every_call() {
    // A session whose backend reported an unrecoverable fault sits in the
    // Terminated state with the backend already released; every further
    // call fails with SessionTerminated and nothing changes.
    let mut b = soft();
    b.soft_close();
    let mut s = Session { backend: b, state: SessionState::Terminated, fed: 7 };
    let p = MediaUnit::Packet(EncodedPacket { data: vec![1], pts: 0, key: false });
    assert_eq!(s.feed(&p), Err(CodecError::SessionTerminated));
    assert_eq!(s.drain(), Err(CodecError::SessionTerminated));
    s.close();
    assert_eq!(s.state(), SessionState::Terminated);
    assert_eq!(s.frames_fed(), 7);
    assert_eq!(s.backend.close_count, 1);
}

#[test]
fn buffer_pool_reuses_unit_sized_buffers() {
    let mut pool = hwcodec::pool::BufferPool::new(16);
    let a = pool.acquire();
    assert_eq!(a.len(), 16);
    assert!(a.iter().all(|&x| x == 0));
    pool.release(a);
    assert_eq!(pool.available(), 1);
    let b = pool.acquire();
    assert_eq!(b.len(), 16);
    assert_eq!(pool.available(), 0);
    // A buffer of the wrong size is dropped, not pooled.
    pool.release(vec![0u8; 8]);
    assert_eq!(pool.available(), 0);
    let frame = RawFrame { data: pool.acquire(), pts: 0 };
    assert_eq!(frame.data.len(), 16);
}
