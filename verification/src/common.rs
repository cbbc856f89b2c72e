//! Shared value types: pixel formats, encode/decode configuration, media
//! units exchanged with backends, error kinds, and the log severity scale.

use vstd::prelude::*;

verus! {

/// The fixed set of raw pixel layouts the geometry calculator understands.
#[derive(Clone, Copy, Debug, PartialEq, Eq, Structural)]
pub enum PixelFormat {
    /// Planar 4:2:0: full-size luma plane, quarter-size U and V planes.
    Yuv420p,
    /// Semi-planar 4:2:0: full-size luma plane, interleaved half-height UV plane.
    Nv12,
    /// Planar 4:4:4: three full-size planes.
    Yuv444p,
    /// Packed 32-bit blue/green/red/alpha, one plane, four bytes per pixel.
    Bgra,
}

/// Encoder quality tier; `Auto` leaves the choice to the backend.
#[derive(Clone, Copy, Debug, PartialEq, Eq, Structural)]
pub enum Quality {
    Auto,
    Low,
    Medium,
    High,
}

/// Rate-control mode; `Auto` leaves the choice to the backend.
#[derive(Clone, Copy, Debug, PartialEq, Eq, Structural)]
pub enum RateControl {
    Auto,
    /// Constant bitrate.
    Cbr,
    /// Variable bitrate.
    Vbr,
    /// Constant-quality (quantizer driven).
    Cq,
}

/// Immutable description of an intended encode stream.
#[derive(Clone, Debug)]
pub struct EncodeContext {
    /// Backend name; the empty string lets the system choose.
    pub name: String,
    /// Optional hardware device or vendor hint.
    pub device: Option<String>,
    /// Frame width in pixels; must be positive.
    pub width: u32,
    /// Frame height in pixels; must be positive.
    pub height: u32,
    /// Raw-frame pixel layout fed to the encoder.
    pub pixfmt: PixelFormat,
    /// Per-plane byte alignment: a power of two, or zero for the backend default.
    pub align: u32,
    /// Target bitrate in kilobits per second.
    pub kbitrate: u32,
    /// Frames per second.
    pub fps: u32,
    /// Group-of-pictures length (distance between key frames).
    pub gop: u32,
    /// Quality tier.
    pub quality: Quality,
    /// Rate-control mode.
    pub rc: RateControl,
    /// Worker-thread count hint for the backend.
    pub thread_count: u32,
    /// Encoder-specific quantizer override; negative means unset.
    pub q: i32,
}

/// Immutable description of an intended decode stream.
#[derive(Clone, Debug)]
pub struct DecodeContext {
    /// Backend name; the empty string lets the system choose.
    pub name: String,
    /// Optional hardware device or vendor hint.
    pub device: Option<String>,
}

/// What a session or probe asks a backend to open.
#[derive(Clone, Debug)]
pub enum OpenRequest {
    Encode(EncodeContext),
    Decode(DecodeContext),
}

/// A raw (unencoded) video frame: an owned byte buffer laid out per the
/// geometry calculator, plus its presentation timestamp.
#[derive(Clone, Debug, PartialEq)]
pub struct RawFrame {
    pub data: Vec<u8>,
    pub pts: u64,
}

/// An encoded unit (one access unit of the bitstream) with its timestamp and
/// key-frame flag.
#[derive(Clone, Debug, PartialEq)]
pub struct EncodedPacket {
    pub data: Vec<u8>,
    pub pts: u64,
    pub key: bool,
}

/// One unit of data flowing through a session: raw frames go into encoders
/// and out of decoders; packets go the other way.
#[derive(Clone, Debug, PartialEq)]
pub enum MediaUnit {
    Raw(RawFrame),
    Packet(EncodedPacket),
}

/// Mathematical image of a `RawFrame`.
pub struct RawFrameV {
    pub data: Seq<u8>,
    pub pts: u64,
}

/// Mathematical image of an `EncodedPacket`.
pub struct EncodedPacketV {
    pub data: Seq<u8>,
    pub pts: u64,
    pub key: bool,
}

/// Mathematical image of a `MediaUnit`.
pub enum MediaUnitV {
    Raw(RawFrameV),
    Packet(EncodedPacketV),
}

impl View for RawFrame {
    type V = RawFrameV;

    open spec fn view(&self) -> RawFrameV {
        RawFrameV { data: self.data@, pts: self.pts }
    }
}

impl View for EncodedPacket {
    type V = EncodedPacketV;

    open spec fn view(&self) -> EncodedPacketV {
        EncodedPacketV { data: self.data@, pts: self.pts, key: self.key }
    }
}

impl View for MediaUnit {
    type V = MediaUnitV;

    open spec fn view(&self) -> MediaUnitV {
        match self {
            MediaUnit::Raw(f) => MediaUnitV::Raw(f@),
            MediaUnit::Packet(p) => MediaUnitV::Packet(p@),
        }
    }
}

/// The image of a whole queue of media units.
pub open spec fn units_view(s: Seq<MediaUnit>) -> Seq<MediaUnitV> {
    s.map_values(|u: MediaUnit| u@)
}

/// Every failure the core reports, each at its call site.
#[derive(Clone, Copy, Debug, PartialEq, Eq, Structural)]
pub enum CodecError {
    /// The geometry for the requested format/dimension combination cannot be
    /// represented; the caller must change the request.
    UnsupportedFormat,
    /// Probe or open failed; routine, the backend is simply not viable.
    BackendUnavailable,
    /// One feed or flush call failed but the session is still usable.
    TransientFeedFailure,
    /// The backend reported an unrecoverable fault; the session is closed.
    SessionTerminated,
    /// An operation was attempted on a session that was already closed.
    SessionClosed,
}

/// Failure reported by a backend adapter for a single call.
#[derive(Clone, Copy, Debug, PartialEq, Eq, Structural)]
pub enum AdapterError {
    /// The backend cannot serve the requested configuration at all.
    Unavailable,
    /// This call failed but the handle is still usable.
    Transient,
    /// The handle is unrecoverable; the session must be closed.
    Fatal,
}

/// The fixed five-level severity scale of the logging bridge.
#[derive(Clone, Copy, Debug, PartialEq, Eq, Structural)]
pub enum Severity {
    Error,
    Warn,
    Info,
    Debug,
    Trace,
}

/// How an integer severity level from a foreign caller maps onto the scale:
/// 0 through 4 in order of decreasing urgency, anything else dropped.
pub open spec fn spec_severity_from_level(level: i32) -> Option<Severity> {
    if level == 0 {
        Some(Severity::Error)
    } else if level == 1 {
        Some(Severity::Warn)
    } else if level == 2 {
        Some(Severity::Info)
    } else if level == 3 {
        Some(Severity::Debug)
    } else if level == 4 {
        Some(Severity::Trace)
    } else {
        None
    }
}

/// Maps a foreign integer severity level onto the five-level scale; levels
/// outside the scale yield `None` and the line is to be dropped, never a crash.
pub fn severity_from_level(level: i32) -> (r: Option<Severity>)
    ensures
        r == spec_severity_from_level(level),
{
    match level {
        0 => Some(Severity::Error),
        1 => Some(Severity::Warn),
        2 => Some(Severity::Info),
        3 => Some(Severity::Debug),
        4 => Some(Severity::Trace),
        _ => None,
    }
}

} // verus!
