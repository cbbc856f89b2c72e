//! The capability prober: empirically tests every registered backend
//! against a requested configuration instead of trusting static metadata.
//! Each candidate is opened, fed one synthetic sample, and closed — always
//! closed, viable or not. Backends that fail are silently excluded; one
//! misbehaving candidate never prevents the others from being probed, as
//! every attempt touches only its own backend. Attempts are run one after
//! the other here; candidates are independent, so nothing depends on the
//! order.

use vstd::prelude::*;
use crate::adapter::{same_descr, BackendAdapter};
use crate::common::{
    CodecError, DecodeContext, EncodeContext, EncodedPacket, MediaUnit, OpenRequest, RawFrame,
};
use crate::geometry::{compute_geometry, geometry_ok};
use crate::rank::{infos_view, rank_of_name, spec_rank_of_name, CodecInfo, CodecInfoV};

verus! {

/// The probe record a viable backend produces: its own descriptors, with the
/// score drawn from the fixed vendor preference table.
pub open spec fn probed_info<B: BackendAdapter>(b: B) -> CodecInfoV {
    CodecInfoV {
        name: b.spec_name(),
        hardware: b.spec_hardware(),
        score: spec_rank_of_name(b.spec_name()),
        formats: b.spec_formats(),
    }
}

/// The probe output is a selection of the candidates: some subsequence of
/// them, in candidate order, each mapped to its probe record.
pub open spec fn is_probe_selection<B: BackendAdapter>(
    cands: Seq<B>,
    out: Seq<CodecInfoV>,
) -> bool {
    exists|sel: Seq<int>|
        {
            &&& sel.len() == out.len()
            &&& (forall|k: int| 0 <= k < sel.len() ==> 0 <= #[trigger] sel[k] < cands.len())
            &&& (forall|k: int| 0 < k < sel.len() ==> #[trigger] sel[k - 1] < sel[k])
            &&& (forall|k: int| 0 <= k < out.len() ==> #[trigger] out[k] == probed_info(
                cands[sel[k]],
            ))
        }
}

/// Builds the probe record of one backend from what it reports.
fn make_info<B: BackendAdapter>(b: &B) -> (r: CodecInfo)
    ensures
        r@ == probed_info(*b),
{
    let name = b.name();
    let score = rank_of_name(name.as_str());
    CodecInfo { name, hardware: b.is_hardware(), score, formats: b.supported_formats() }
}

/// One probe attempt: open, one feed of the sample, on a failed feed one
/// flush; viable means the open succeeded and at least one feed-or-flush
/// cycle did. The backend is left open-capable and unclosed either way; the
/// caller closes it.
fn attempt<B: BackendAdapter>(b: &mut B, req: &OpenRequest, sample: &MediaUnit) -> (viable: bool)
    requires
        !old(b).spec_closed(),
    ensures
        same_descr(*old(b), *final(b)),
        final(b).spec_close_calls() == old(b).spec_close_calls(),
        !final(b).spec_closed(),
{
    match b.try_open(req) {
        Err(_) => false,
        Ok(()) => match b.feed(sample) {
            Ok(_) => true,
            Err(_) => match b.flush() {
                Ok(_) => true,
                Err(_) => false,
            },
        },
    }
}

/// Probes every candidate against one request with one sample unit. Every
/// candidate is closed exactly once; the result lists the viable ones, in
/// candidate order, by their own descriptors; no candidates, no records —
/// and never an error.
fn probe_with_sample<B: BackendAdapter>(
    req: &OpenRequest,
    sample: &MediaUnit,
    backends: Vec<B>,
) -> (r: Vec<CodecInfo>)
    requires
        forall|i: int| 0 <= i < backends@.len() ==> !(#[trigger] backends@[i]).spec_closed(),
    ensures
        r@.len() <= backends@.len(),
        backends@.len() == 0 ==> r@.len() == 0,
        is_probe_selection(backends@, infos_view(r@)),
{
    let ghost orig = backends@;
    let mut rest = backends;
    let mut out: Vec<CodecInfo> = Vec::new();
    let ghost mut done: int = 0;
    let ghost mut sel: Seq<int> = Seq::empty();
    proof {
        assert(rest@ =~= orig.skip(0));
    }
    while rest.len() > 0
        invariant
            0 <= done <= orig.len(),
            rest@ =~= orig.skip(done),
            forall|i: int| 0 <= i < orig.len() ==> !(#[trigger] orig[i]).spec_closed(),
            sel.len() == out@.len(),
            sel.len() <= done,
            forall|k: int| 0 <= k < sel.len() ==> 0 <= #[trigger] sel[k] < done,
            forall|k: int| 0 < k < sel.len() ==> #[trigger] sel[k - 1] < sel[k],
            forall|k: int| 0 <= k < out@.len() ==> #[trigger] infos_view(out@)[k] == probed_info(
                orig[sel[k]],
            ),
        decreases rest@.len(),
    {
        let mut b = rest.remove(0);
        proof {
            assert(b == orig[done]);
            assert(rest@ =~= orig.skip(done + 1));
        }
        let viable = attempt(&mut b, req, sample);
        b.close();
        if viable {
            let info = make_info(&b);
            let ghost prev = out@;
            let ghost prev_sel = sel;
            out.push(info);
            proof {
                sel = sel.push(done);
                assert forall|k: int| 0 <= k < out@.len() implies #[trigger] infos_view(out@)[k]
                    == probed_info(orig[sel[k]]) by {
                    assert(infos_view(out@)[k] == out@[k]@);
                    if k < out@.len() - 1 {
                        assert(out@[k] == prev[k]);
                        assert(sel[k] == prev_sel[k]);
                        assert(infos_view(prev)[k] == prev[k]@);
                    } else {
                        assert(out@[k] == info);
                        assert(sel[k] == done);
                    }
                }
            }
        }
        proof {
            done = done + 1;
        }
    }
    proof {
        assert(is_probe_selection(orig, infos_view(out@)));
    }
    out
}

/// A zero-filled buffer of the given length.
fn zero_buf(n: usize) -> (r: Vec<u8>)
    ensures
        r@.len() == n,
        forall|i: int| 0 <= i < n ==> r@[i] == 0u8,
{
    let mut r: Vec<u8> = Vec::new();
    let mut i: usize = 0;
    while i < n
        invariant
            0 <= i <= n,
            r@.len() == i,
            forall|j: int| 0 <= j < i ==> r@[j] == 0u8,
        decreases n - i,
    {
        r.push(0);
        i += 1;
    }
    r
}

/// Probes every candidate encoder backend against the context. The geometry
/// step runs first: an unrepresentable combination fails with
/// `UnsupportedFormat` before any backend is attempted. Otherwise each
/// candidate is opened, fed one synthetic zero-filled frame sized by the
/// geometry calculator, and closed; the viable ones are returned in
/// candidate order — with no candidates, an empty list, never an error.
pub fn probe_encoders<B: BackendAdapter>(ctx: EncodeContext, backends: Vec<B>) -> (r: Result<
    Vec<CodecInfo>,
    CodecError,
>)
    requires
        forall|i: int| 0 <= i < backends@.len() ==> !(#[trigger] backends@[i]).spec_closed(),
    ensures
        r is Ok <==> geometry_ok(ctx.pixfmt, ctx.width as int, ctx.height as int, ctx.align as int),
        r matches Err(e) ==> e == CodecError::UnsupportedFormat,
        r matches Ok(out) ==> {
            &&& out@.len() <= backends@.len()
            &&& (backends@.len() == 0 ==> out@.len() == 0)
            &&& is_probe_selection(backends@, infos_view(out@))
        },
{
    let total = match compute_geometry(ctx.pixfmt, ctx.width, ctx.height, ctx.align) {
        Ok(g) => g.total,
        Err(e) => {
            return Err(e);
        },
    };
    let sample = MediaUnit::Raw(RawFrame { data: zero_buf(total), pts: 0 });
    let req = OpenRequest::Encode(ctx);
    Ok(probe_with_sample(&req, &sample, backends))
}

/// Probes every candidate decoder backend against the context: each is
/// opened, fed one minimal valid encoded unit, and closed; the viable ones
/// are returned in candidate order — with no candidates, an empty list,
/// never an error.
pub fn probe_decoders<B: BackendAdapter>(ctx: DecodeContext, backends: Vec<B>) -> (r: Vec<
    CodecInfo,
>)
    requires
        forall|i: int| 0 <= i < backends@.len() ==> !(#[trigger] backends@[i]).spec_closed(),
    ensures
        r@.len() <= backends@.len(),
        backends@.len() == 0 ==> r@.len() == 0,
        is_probe_selection(backends@, infos_view(r@)),
{
    let mut data: Vec<u8> = Vec::new();
    data.push(1);
    let sample = MediaUnit::Packet(EncodedPacket { data, pts: 0, key: true });
    let req = OpenRequest::Decode(ctx);
    probe_with_sample(&req, &sample, backends)
}

} // verus!
