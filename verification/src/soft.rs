//! The built-in software backend: a reference codec that exercises the whole
//! adapter surface without any foreign binding. Encoding frames a raw buffer
//! behind a one-byte key-frame marker and holds a small lookahead window, so
//! one feed may yield zero or one packet and flush drains the remainder —
//! the zero-output and multi-output cases every caller must handle. Decoding
//! strips the marker and yields one frame per packet. Feeding frames in and
//! flushing loses nothing: after a flush, the packets emitted over the whole
//! run equal the frames fed.

use vstd::prelude::*;
use crate::adapter::BackendAdapter;
use crate::common::{
    AdapterError, EncodedPacket, EncodedPacketV, MediaUnit, MediaUnitV, OpenRequest, PixelFormat,
    RawFrame, RawFrameV, units_view,
};
use crate::geometry::{compute_geometry, geometry_ok};

verus! {

/// How many packets the encoder holds back to model lookahead buffering.
pub const SOFT_LOOKAHEAD: usize = 2;

/// The packet an encoded frame becomes: a one-byte key-frame marker, then
/// the raw payload unchanged.
pub open spec fn spec_encode_packet(f: RawFrameV, key: bool) -> EncodedPacketV {
    EncodedPacketV {
        data: seq![
            if key {
                1u8
            } else {
                0u8
            },
        ] + f.data,
        pts: f.pts,
        key,
    }
}

/// The frame a packet decodes back to: everything after the marker byte.
pub open spec fn spec_decode_frame(p: EncodedPacketV) -> RawFrameV {
    RawFrameV { data: p.data.drop_first(), pts: p.pts }
}

/// Encoding then decoding reproduces the frame exactly — in particular the
/// decoded buffer has the original geometry-computed length.
pub proof fn lemma_soft_round_trip(f: RawFrameV, key: bool)
    ensures
        spec_decode_frame(spec_encode_packet(f, key)) == f,
        spec_encode_packet(f, key).data.len() == f.data.len() + 1,
{
    assert(spec_decode_frame(spec_encode_packet(f, key)).data =~= f.data);
}

/// Which requests the software backend accepts: any decode stream, and any
/// encode stream whose buffer geometry exists.
pub open spec fn spec_soft_accepts(req: OpenRequest) -> bool {
    match req {
        OpenRequest::Encode(ctx) => geometry_ok(
            ctx.pixfmt,
            ctx.width as int,
            ctx.height as int,
            ctx.align as int,
        ),
        OpenRequest::Decode(_) => true,
    }
}

/// A raw frame the opened encoder accepts: the exact geometry-computed
/// buffer length, with room left on the input counter.
pub open spec fn enc_input_ok(s: SoftCodec, u: MediaUnitV) -> bool {
    &&& u matches MediaUnitV::Raw(f)
    &&& f.data.len() == s.expected_len
    &&& s.frame_index < u64::MAX
}

/// A packet the opened decoder accepts: at least the marker byte.
pub open spec fn dec_input_ok(u: MediaUnitV) -> bool {
    u matches MediaUnitV::Packet(p) && p.data.len() >= 1
}

/// The pending queue after accepting one frame, before any packet leaves.
pub open spec fn spec_enc_queue(s: SoftCodec, u: MediaUnitV) -> Seq<MediaUnitV>
    recommends
        u is Raw,
{
    units_view(s.pending@).push(
        MediaUnitV::Packet(
            spec_encode_packet(u->Raw_0, (s.frame_index as int % s.gop as int) == 0),
        ),
    )
}

/// The software codec. One value serves one stream: `try_open` decides the
/// direction, `feed` consumes one unit, `flush` drains the lookahead queue,
/// `close` releases it.
pub struct SoftCodec {
    /// Backend name this instance reports.
    pub name: String,
    /// Whether `try_open` has succeeded.
    pub opened: bool,
    /// Whether `close` has run.
    pub closed: bool,
    /// How many times `close` has run; ghost twin of `close_count`.
    pub closes: Ghost<nat>,
    /// How many times `close` has run, observable at run time (saturating).
    pub close_count: u32,
    /// True after an encode open, false after a decode open.
    pub encoding: bool,
    /// Geometry-computed raw-frame length the encoder expects.
    pub expected_len: usize,
    /// Effective group-of-pictures length, at least one.
    pub gop: u64,
    /// Frames accepted so far (encode mode).
    pub frame_index: u64,
    /// Packets handed out so far (encode mode).
    pub emitted: u64,
    /// Encoded packets not yet handed out.
    pub pending: Vec<MediaUnit>,
}

impl SoftCodec {
    /// Internal consistency: the lookahead queue accounts for every frame
    /// accepted and not yet emitted, and the decoder buffers nothing.
    pub open spec fn inv(&self) -> bool {
        &&& self.gop >= 1
        &&& self.frame_index == self.emitted + self.pending@.len()
        &&& (!self.encoding ==> self.pending@.len() == 0)
    }

    /// A fresh, unopened software codec under the given backend name.
    pub fn new(name: String) -> (r: SoftCodec)
        ensures
            r.inv(),
            r.name@ == name@,
            !r.opened,
            !r.closed,
            r.closes@ == 0,
            r.close_count == 0,
    {
        SoftCodec {
            name,
            opened: false,
            closed: false,
            closes: Ghost(0),
            close_count: 0,
            encoding: false,
            expected_len: 0,
            gop: 1,
            frame_index: 0,
            emitted: 0,
            pending: Vec::new(),
        }
    }

    /// Opens the codec for one stream: accepts exactly the requests
    /// `spec_soft_accepts` allows, and resets all stream state.
    pub fn soft_open(&mut self, req: &OpenRequest) -> (r: Result<(), AdapterError>)
        requires
            !old(self).closed,
        ensures
            final(self).name@ == old(self).name@,
            final(self).closes@ == old(self).closes@,
            !final(self).closed,
            r is Ok <==> spec_soft_accepts(*req),
            r matches Err(e) ==> e == AdapterError::Unavailable && *final(self) == *old(self),
            r is Ok ==> {
                &&& final(self).inv()
                &&& final(self).opened
                &&& final(self).encoding == (req is Encode)
                &&& (req matches OpenRequest::Encode(ctx) ==> {
                    &&& final(self).expected_len == crate::geometry::spec_total(
                        ctx.pixfmt,
                        ctx.width as int,
                        ctx.height as int,
                        ctx.align as int,
                    )
                    &&& final(self).gop == (if ctx.gop == 0 {
                        1u64
                    } else {
                        ctx.gop as u64
                    })
                })
                &&& final(self).frame_index == 0
                &&& final(self).emitted == 0
                &&& final(self).pending@.len() == 0
            },
    {
        match req {
            OpenRequest::Encode(ctx) => {
                match compute_geometry(ctx.pixfmt, ctx.width, ctx.height, ctx.align) {
                    Ok(g) => {
                        self.opened = true;
                        self.encoding = true;
                        self.expected_len = g.total;
                        self.gop = if ctx.gop == 0 {
                            1
                        } else {
                            ctx.gop as u64
                        };
                        self.frame_index = 0;
                        self.emitted = 0;
                        self.pending = Vec::new();
                        Ok(())
                    },
                    Err(_) => Err(AdapterError::Unavailable),
                }
            },
            OpenRequest::Decode(_) => {
                self.opened = true;
                self.encoding = false;
                self.expected_len = 0;
                self.gop = 1;
                self.frame_index = 0;
                self.emitted = 0;
                self.pending = Vec::new();
                Ok(())
            },
        }
    }

    /// Consumes one unit. Encoding: a well-sized raw frame enters the
    /// lookahead queue and, once the queue exceeds the lookahead window, the
    /// oldest packet comes out; anything else is a transient failure that
    /// changes nothing. Decoding: a non-empty packet yields its frame at
    /// once; anything else is a transient failure.
    pub fn soft_feed(&mut self, input: &MediaUnit) -> (r: Result<Vec<MediaUnit>, AdapterError>)
        requires
            old(self).inv(),
            old(self).opened,
            !old(self).closed,
        ensures
            final(self).inv(),
            final(self).name@ == old(self).name@,
            final(self).closes@ == old(self).closes@,
            final(self).opened,
            !final(self).closed,
            final(self).encoding == old(self).encoding,
            old(self).encoding ==> {
                &&& (r is Ok <==> enc_input_ok(*old(self), input@))
                &&& (r matches Err(e) ==> e == AdapterError::Transient && *final(self) == *old(
                    self,
                ))
                &&& (r matches Ok(out) ==> {
                    let q = spec_enc_queue(*old(self), input@);
                    &&& final(self).frame_index == old(self).frame_index + 1
                    &&& final(self).emitted == old(self).emitted + out@.len()
                    &&& (if q.len() > SOFT_LOOKAHEAD {
                        units_view(out@) == seq![q[0]] && units_view(final(self).pending@)
                            == q.drop_first()
                    } else {
                        out@.len() == 0 && units_view(final(self).pending@) == q
                    })
                })
            },
            !old(self).encoding ==> {
                &&& *final(self) == *old(self)
                &&& (r is Ok <==> dec_input_ok(input@))
                &&& (r matches Err(e) ==> e == AdapterError::Transient)
                &&& (r matches Ok(out) ==> units_view(out@) == seq![
                    MediaUnitV::Raw(spec_decode_frame(input@->Packet_0)),
                ])
            },
    {
        if self.encoding {
            match input {
                MediaUnit::Raw(f) => {
                    if f.data.len() != self.expected_len {
                        return Err(AdapterError::Transient);
                    }
                    if self.frame_index == u64::MAX {
                        return Err(AdapterError::Transient);
                    }
                    let key = self.frame_index % self.gop == 0;
                    let payload = encode_payload(&f.data, key);
                    let packet = EncodedPacket { data: payload, pts: f.pts, key };
                    self.pending.push(MediaUnit::Packet(packet));
                    self.frame_index = self.frame_index + 1;
                    proof {
                        assert(units_view(self.pending@) =~= spec_enc_queue(*old(self), input@));
                    }
                    if self.pending.len() > SOFT_LOOKAHEAD {
                        let front = self.pending.remove(0);
                        self.emitted = self.emitted + 1;
                        let mut out: Vec<MediaUnit> = Vec::new();
                        out.push(front);
                        proof {
                            let q = spec_enc_queue(*old(self), input@);
                            assert(units_view(out@) =~= seq![q[0]]);
                            assert(units_view(self.pending@) =~= q.drop_first());
                        }
                        Ok(out)
                    } else {
                        Ok(Vec::new())
                    }
                },
                MediaUnit::Packet(_) => Err(AdapterError::Transient),
            }
        } else {
            match input {
                MediaUnit::Packet(p) => {
                    if p.data.len() == 0 {
                        return Err(AdapterError::Transient);
                    }
                    let frame = RawFrame { data: decode_payload(&p.data), pts: p.pts };
                    let mut out: Vec<MediaUnit> = Vec::new();
                    out.push(MediaUnit::Raw(frame));
                    proof {
                        assert(units_view(out@) =~= seq![
                            MediaUnitV::Raw(spec_decode_frame(input@->Packet_0)),
                        ]);
                    }
                    Ok(out)
                },
                MediaUnit::Raw(_) => Err(AdapterError::Transient),
            }
        }
    }

    /// Drains the lookahead queue in order. Afterwards nothing is buffered
    /// and — the lossless-count contract — the packets emitted over the
    /// whole run equal the frames fed.
    pub fn soft_flush(&mut self) -> (r: Result<Vec<MediaUnit>, AdapterError>)
        requires
            old(self).inv(),
            old(self).opened,
            !old(self).closed,
        ensures
            final(self).inv(),
            final(self).name@ == old(self).name@,
            final(self).closes@ == old(self).closes@,
            final(self).opened,
            !final(self).closed,
            final(self).encoding == old(self).encoding,
            final(self).frame_index == old(self).frame_index,
            r matches Ok(out) && units_view(out@) == units_view(old(self).pending@),
            final(self).pending@.len() == 0,
            final(self).emitted == old(self).emitted + old(self).pending@.len(),
            final(self).emitted == final(self).frame_index,
    {
        let ghost orig = self.pending@;
        let mut out: Vec<MediaUnit> = Vec::new();
        while self.pending.len() > 0
            invariant
                out@.len() + self.pending@.len() == orig.len(),
                out@ + self.pending@ =~= orig,
                self.name == old(self).name,
                self.opened == old(self).opened,
                self.closed == old(self).closed,
                self.closes == old(self).closes,
                self.encoding == old(self).encoding,
                self.expected_len == old(self).expected_len,
                self.gop == old(self).gop,
                self.frame_index == old(self).frame_index,
                self.emitted == old(self).emitted,
                self.gop >= 1,
                self.emitted + orig.len() == self.frame_index,
                !self.encoding ==> orig.len() == 0,
            decreases self.pending@.len(),
        {
            let front = self.pending.remove(0);
            out.push(front);
        }
        proof {
            assert(out@ =~= orig);
            assert(units_view(out@) =~= units_view(orig));
        }
        let n = out.len();
        self.emitted = self.emitted + n as u64;
        Ok(out)
    }

    /// Releases the codec; `feed` and `flush` may no longer run on it.
    pub fn soft_close(&mut self)
        ensures
            final(self).inv() == old(self).inv(),
            final(self).name@ == old(self).name@,
            final(self).closed,
            final(self).closes@ == old(self).closes@ + 1,
            old(self).close_count < u32::MAX ==> final(self).close_count == old(
                self,
            ).close_count + 1,
    {
        self.closed = true;
        self.closes = Ghost(self.closes@ + 1);
        if self.close_count < u32::MAX {
            self.close_count = self.close_count + 1;
        }
    }
}

/// One packet payload: the key-frame marker byte, then the frame bytes.
fn encode_payload(data: &Vec<u8>, key: bool) -> (r: Vec<u8>)
    ensures
        r@ == seq![
            if key {
                1u8
            } else {
                0u8
            },
        ] + data@,
{
    let mut r: Vec<u8> = Vec::new();
    r.push(
        if key {
            1
        } else {
            0
        },
    );
    let n = data.len();
    let mut i: usize = 0;
    while i < n
        invariant
            0 <= i <= n,
            n == data@.len(),
            r@ == seq![
                if key {
                    1u8
                } else {
                    0u8
                },
            ] + data@.take(i as int),
        decreases n - i,
    {
        r.push(data[i]);
        proof {
            assert(seq![
                if key {
                    1u8
                } else {
                    0u8
                },
            ] + data@.take(i as int) + seq![data@[i as int]] =~= seq![
                if key {
                    1u8
                } else {
                    0u8
                },
            ] + data@.take(i as int + 1));
        }
        i += 1;
    }
    proof {
        assert(data@.take(n as int) =~= data@);
    }
    r
}

/// One decoded frame payload: every packet byte after the marker.
fn decode_payload(data: &Vec<u8>) -> (r: Vec<u8>)
    requires
        data@.len() >= 1,
    ensures
        r@ == data@.drop_first(),
{
    let n = data.len();
    let mut r: Vec<u8> = Vec::new();
    let mut i: usize = 1;
    while i < n
        invariant
            1 <= i <= n,
            n == data@.len(),
            r@ == data@.subrange(1, i as int),
        decreases n - i,
    {
        r.push(data[i]);
        proof {
            assert(data@.subrange(1, i as int) + seq![data@[i as int]] =~= data@.subrange(
                1,
                i as int + 1,
            ));
        }
        i += 1;
    }
    proof {
        assert(data@.subrange(1, n as int) =~= data@.drop_first());
    }
    r
}

impl BackendAdapter for SoftCodec {
    open spec fn spec_name(&self) -> Seq<char> {
        self.name@
    }

    open spec fn spec_hardware(&self) -> bool {
        false
    }

    open spec fn spec_formats(&self) -> Seq<PixelFormat> {
        seq![PixelFormat::Yuv420p, PixelFormat::Nv12, PixelFormat::Yuv444p, PixelFormat::Bgra]
    }

    open spec fn spec_open(&self) -> bool {
        self.opened && self.inv()
    }

    open spec fn spec_closed(&self) -> bool {
        self.closed
    }

    open spec fn spec_close_calls(&self) -> nat {
        self.closes@
    }

    fn name(&self) -> (r: String) {
        self.name.clone()
    }

    fn is_hardware(&self) -> (r: bool) {
        false
    }

    fn supported_formats(&self) -> (r: Vec<PixelFormat>) {
        let mut v: Vec<PixelFormat> = Vec::new();
        v.push(PixelFormat::Yuv420p);
        v.push(PixelFormat::Nv12);
        v.push(PixelFormat::Yuv444p);
        v.push(PixelFormat::Bgra);
        proof {
            assert(v@ =~= self.spec_formats());
        }
        v
    }

    fn try_open(&mut self, req: &OpenRequest) -> (r: Result<(), AdapterError>) {
        self.soft_open(req)
    }

    fn feed(&mut self, input: &MediaUnit) -> (r: Result<Vec<MediaUnit>, AdapterError>) {
        self.soft_feed(input)
    }

    fn flush(&mut self) -> (r: Result<Vec<MediaUnit>, AdapterError>) {
        self.soft_flush()
    }

    fn close(&mut self) {
        self.soft_close()
    }
}

} // verus!
