//! Probe results and their deterministic ranking: hardware-accelerated
//! backends before software ones, a fixed vendor preference order within each
//! tier, remaining ties broken by name, and entries of fully equal rank kept
//! in their original probe order.

use vstd::prelude::*;
use crate::common::PixelFormat;
use crate::strtools::{lex_le, lemma_lex_le_total, lemma_lex_le_trans, str_eq, str_lex_le};

verus! {

/// The record produced by successfully probing one backend against one
/// context: only backends that completed a real trial appear in one.
#[derive(Clone, Debug, PartialEq)]
pub struct CodecInfo {
    /// Stable backend name.
    pub name: String,
    /// Whether the backend is hardware-accelerated.
    pub hardware: bool,
    /// Derived preference rank within a tier; lower ranks first.
    pub score: u32,
    /// Pixel formats the backend reported as supported.
    pub formats: Vec<PixelFormat>,
}

/// Mathematical image of a `CodecInfo`.
pub struct CodecInfoV {
    pub name: Seq<char>,
    pub hardware: bool,
    pub score: u32,
    pub formats: Seq<PixelFormat>,
}

impl View for CodecInfo {
    type V = CodecInfoV;

    open spec fn view(&self) -> CodecInfoV {
        CodecInfoV {
            name: self.name@,
            hardware: self.hardware,
            score: self.score,
            formats: self.formats@,
        }
    }
}

/// The image of a whole list of probe records.
pub open spec fn infos_view(s: Seq<CodecInfo>) -> Seq<CodecInfoV> {
    s.map_values(|c: CodecInfo| c@)
}

/// The fixed vendor preference table, keyed by backend name: lower is
/// preferred. Unknown names rank last, after the plain software names.
pub open spec fn spec_rank_of_name(s: Seq<char>) -> u32 {
    if s == "h264_nvenc"@ || s == "hevc_nvenc"@ {
        1
    } else if s == "h264_amf"@ || s == "hevc_amf"@ {
        2
    } else if s == "h264_qsv"@ || s == "hevc_qsv"@ {
        3
    } else if s == "h264_videotoolbox"@ || s == "hevc_videotoolbox"@ {
        4
    } else if s == "h264_mediacodec"@ || s == "hevc_mediacodec"@ {
        5
    } else if s == "h264"@ || s == "hevc"@ {
        8
    } else {
        9
    }
}

/// Looks a backend name up in the fixed vendor preference table.
pub fn rank_of_name(s: &str) -> (r: u32)
    ensures
        r == spec_rank_of_name(s@),
{
    if str_eq(s, "h264_nvenc") || str_eq(s, "hevc_nvenc") {
        1
    } else if str_eq(s, "h264_amf") || str_eq(s, "hevc_amf") {
        2
    } else if str_eq(s, "h264_qsv") || str_eq(s, "hevc_qsv") {
        3
    } else if str_eq(s, "h264_videotoolbox") || str_eq(s, "hevc_videotoolbox") {
        4
    } else if str_eq(s, "h264_mediacodec") || str_eq(s, "hevc_mediacodec") {
        5
    } else if str_eq(s, "h264") || str_eq(s, "hevc") {
        8
    } else {
        9
    }
}

/// The ranking order: hardware before software; within a tier, lower score
/// first; ties broken by lexicographic name order. A total preorder.
pub open spec fn rank_le(a: CodecInfoV, b: CodecInfoV) -> bool {
    if a.hardware != b.hardware {
        a.hardware
    } else if a.score != b.score {
        a.score < b.score
    } else {
        lex_le(a.name, b.name)
    }
}

/// Any two records are comparable.
pub proof fn lemma_rank_le_total(a: CodecInfoV, b: CodecInfoV)
    ensures
        rank_le(a, b) || rank_le(b, a),
{
    lemma_lex_le_total(a.name, b.name);
}

/// The ranking order is transitive.
pub proof fn lemma_rank_le_trans(a: CodecInfoV, b: CodecInfoV, c: CodecInfoV)
    requires
        rank_le(a, b),
        rank_le(b, c),
    ensures
        rank_le(a, c),
{
    if a.hardware == b.hardware && b.hardware == c.hardware && a.score == b.score && b.score
        == c.score {
        lemma_lex_le_trans(a.name, b.name, c.name);
    }
}

/// A list sorted by the ranking order.
pub open spec fn sorted(s: Seq<CodecInfoV>) -> bool {
    forall|i: int, j: int| 0 <= i < j < s.len() ==> rank_le(s[i], s[j])
}

/// Stable insertion of one record into a sorted list: `x` goes after every
/// leading record that ranks no worse than it.
pub open spec fn insert_spec(x: CodecInfoV, s: Seq<CodecInfoV>) -> Seq<CodecInfoV>
    decreases s.len(),
{
    if s.len() == 0 {
        seq![x]
    } else if rank_le(s[0], x) {
        seq![s[0]] + insert_spec(x, s.drop_first())
    } else {
        seq![x] + s
    }
}

/// The prioritized order of a list: each record inserted stably, in probe
/// order, into the sorted order of the records before it.
pub open spec fn sort_spec(s: Seq<CodecInfoV>) -> Seq<CodecInfoV>
    decreases s.len(),
{
    if s.len() == 0 {
        Seq::empty()
    } else {
        insert_spec(s.last(), sort_spec(s.drop_last()))
    }
}

proof fn lemma_insert_len(x: CodecInfoV, s: Seq<CodecInfoV>)
    ensures
        insert_spec(x, s).len() == s.len() + 1,
    decreases s.len(),
{
    if s.len() != 0 && rank_le(s[0], x) {
        lemma_insert_len(x, s.drop_first());
    }
}

proof fn lemma_insert_multiset(x: CodecInfoV, s: Seq<CodecInfoV>)
    ensures
        insert_spec(x, s).to_multiset() == s.to_multiset().insert(x),
    decreases s.len(),
{
    broadcast use vstd::seq_lib::group_to_multiset_ensures;
    broadcast use vstd::seq_lib::to_multiset_insert;

    if s.len() == 0 {
        assert(seq![x] =~= Seq::<CodecInfoV>::empty().insert(0, x));
        assert(Seq::<CodecInfoV>::empty().insert(0, x).to_multiset() == Seq::<
            CodecInfoV,
        >::empty().to_multiset().insert(x));
    } else if rank_le(s[0], x) {
        lemma_insert_multiset(x, s.drop_first());
        let rest = insert_spec(x, s.drop_first());
        assert(seq![s[0]] + rest =~= rest.insert(0, s[0]));
        assert(rest.insert(0, s[0]).to_multiset() == rest.to_multiset().insert(s[0]));
        assert(s =~= s.drop_first().insert(0, s[0]));
        assert(s.drop_first().insert(0, s[0]).to_multiset() == s.drop_first().to_multiset().insert(
            s[0],
        ));
        assert(s.drop_first().to_multiset().insert(x).insert(s[0]) =~= s.drop_first()
            .to_multiset()
            .insert(s[0])
            .insert(x));
    } else {
        assert(seq![x] + s =~= s.insert(0, x));
        assert(s.insert(0, x).to_multiset() == s.to_multiset().insert(x));
    }
}

proof fn lemma_sorted_drop_first(s: Seq<CodecInfoV>)
    requires
        sorted(s),
        s.len() > 0,
    ensures
        sorted(s.drop_first()),
{
    assert forall|i: int, j: int| 0 <= i < j < s.drop_first().len() implies rank_le(
        s.drop_first()[i],
        s.drop_first()[j],
    ) by {
        assert(s.drop_first()[i] == s[i + 1]);
        assert(s.drop_first()[j] == s[j + 1]);
    }
}

proof fn lemma_insert_sorted(x: CodecInfoV, s: Seq<CodecInfoV>)
    requires
        sorted(s),
    ensures
        sorted(insert_spec(x, s)),
    decreases s.len(),
{
    if s.len() == 0 {
    } else if rank_le(s[0], x) {
        lemma_sorted_drop_first(s);
        lemma_insert_sorted(x, s.drop_first());
        lemma_insert_len(x, s.drop_first());
        let rest = insert_spec(x, s.drop_first());
        let out = seq![s[0]] + rest;
        assert forall|i: int, j: int| 0 <= i < j < out.len() implies rank_le(out[i], out[j]) by {
            if i == 0 {
                // out[j] is either x or an element of s; s[0] ranks no worse
                // than either.
                assert(out[j] == rest[j - 1]);
                lemma_insert_from(x, s.drop_first(), j - 1);
                if rest[j - 1] == x {
                } else {
                    let k = choose|k: int|
                        0 <= k < s.drop_first().len() && rest[j - 1] == s.drop_first()[k];
                    assert(s.drop_first()[k] == s[k + 1]);
                    assert(rank_le(s[0], s[k + 1]));
                }
            } else {
                assert(out[i] == rest[i - 1]);
                assert(out[j] == rest[j - 1]);
            }
        }
    } else {
        lemma_rank_le_total(x, s[0]);
        let out = seq![x] + s;
        assert forall|i: int, j: int| 0 <= i < j < out.len() implies rank_le(out[i], out[j]) by {
            if i == 0 {
                assert(out[j] == s[j - 1]);
                if j == 1 {
                } else {
                    lemma_rank_le_trans(x, s[0], s[j - 1]);
                }
            } else {
                assert(out[i] == s[i - 1]);
                assert(out[j] == s[j - 1]);
            }
        }
    }
}

/// Every element of an insertion result is `x` or comes from `s`.
proof fn lemma_insert_from(x: CodecInfoV, s: Seq<CodecInfoV>, j: int)
    requires
        0 <= j < insert_spec(x, s).len(),
    ensures
        insert_spec(x, s)[j] == x || exists|k: int| 0 <= k < s.len() && insert_spec(x, s)[j]
            == s[k],
    decreases s.len(),
{
    lemma_insert_len(x, s);
    if s.len() == 0 {
    } else if rank_le(s[0], x) {
        if j == 0 {
            assert(insert_spec(x, s)[0] == s[0]);
        } else {
            lemma_insert_from(x, s.drop_first(), j - 1);
            if insert_spec(x, s.drop_first())[j - 1] != x {
                let k = choose|k: int|
                    0 <= k < s.drop_first().len() && insert_spec(x, s.drop_first())[j - 1]
                        == s.drop_first()[k];
                assert(s.drop_first()[k] == s[k + 1]);
            }
        }
    }
}

/// Inserting into a sorted list whose every element ranks no worse than `x`
/// appends `x` at the end.
proof fn lemma_insert_at_end(x: CodecInfoV, s: Seq<CodecInfoV>)
    requires
        forall|i: int| 0 <= i < s.len() ==> rank_le(#[trigger] s[i], x),
    ensures
        insert_spec(x, s) == s.push(x),
    decreases s.len(),
{
    if s.len() == 0 {
        assert(insert_spec(x, s) =~= s.push(x));
    } else {
        lemma_insert_at_end(x, s.drop_first());
        assert(seq![s[0]] + s.drop_first().push(x) =~= s.push(x));
    }
}

/// Prioritizing an already prioritized list changes nothing.
proof fn lemma_sort_of_sorted(s: Seq<CodecInfoV>)
    requires
        sorted(s),
    ensures
        sort_spec(s) == s,
    decreases s.len(),
{
    if s.len() != 0 {
        assert(sorted(s.drop_last()));
        lemma_sort_of_sorted(s.drop_last());
        lemma_insert_at_end(s.last(), s.drop_last());
        assert(s.drop_last().push(s.last()) =~= s);
    }
}

/// The prioritized order is sorted by the ranking order.
pub proof fn lemma_sort_sorted(s: Seq<CodecInfoV>)
    ensures
        sorted(sort_spec(s)),
    decreases s.len(),
{
    if s.len() != 0 {
        lemma_sort_sorted(s.drop_last());
        lemma_insert_sorted(s.last(), sort_spec(s.drop_last()));
    }
}

/// Prioritizing keeps exactly the given records: the output is a permutation
/// of the input.
pub proof fn lemma_sort_permutes(s: Seq<CodecInfoV>)
    ensures
        sort_spec(s).to_multiset() == s.to_multiset(),
        sort_spec(s).len() == s.len(),
    decreases s.len(),
{
    broadcast use vstd::seq_lib::group_to_multiset_ensures;

    if s.len() != 0 {
        lemma_sort_permutes(s.drop_last());
        lemma_insert_multiset(s.last(), sort_spec(s.drop_last()));
        lemma_insert_len(s.last(), sort_spec(s.drop_last()));
        assert(s =~= s.drop_last().push(s.last()));
        assert(s.to_multiset() == s.drop_last().to_multiset().insert(s.last()));
    }
}

/// Prioritization is idempotent: prioritizing a prioritized list returns it
/// unchanged.
pub proof fn lemma_prioritize_idempotent(s: Seq<CodecInfoV>)
    ensures
        sort_spec(sort_spec(s)) == sort_spec(s),
{
    lemma_sort_sorted(s);
    lemma_sort_of_sorted(sort_spec(s));
}

/// Every hardware-flagged record ranks before every software-flagged record:
/// in a prioritized list no hardware entry follows a software entry.
pub proof fn lemma_hardware_first(s: Seq<CodecInfoV>, i: int, j: int)
    requires
        0 <= i <= j < sort_spec(s).len(),
        sort_spec(s)[j].hardware,
    ensures
        sort_spec(s)[i].hardware,
{
    if i < j {
        lemma_sort_sorted(s);
        assert(rank_le(sort_spec(s)[i], sort_spec(s)[j]));
    }
}

/// Compares two probe records by the ranking order.
fn rank_le_exec(a: &CodecInfo, b: &CodecInfo) -> (r: bool)
    ensures
        r == rank_le(a@, b@),
{
    if a.hardware != b.hardware {
        a.hardware
    } else if a.score != b.score {
        a.score < b.score
    } else {
        str_lex_le(a.name.as_str(), b.name.as_str())
    }
}

/// Inserting before the first strictly worse element of a sorted prefix is
/// exactly the stable insertion.
proof fn lemma_insert_split(x: CodecInfoV, s: Seq<CodecInfoV>, p: int)
    requires
        0 <= p <= s.len(),
        forall|j: int| 0 <= j < p ==> rank_le(#[trigger] s[j], x),
        p < s.len() ==> !rank_le(s[p], x),
    ensures
        insert_spec(x, s) == s.take(p) + seq![x] + s.skip(p),
    decreases p,
{
    if s.len() == 0 {
        assert(insert_spec(x, s) =~= s.take(p) + seq![x] + s.skip(p));
    } else if p == 0 {
        if !rank_le(s[0], x) {
            assert(insert_spec(x, s) =~= s.take(0) + seq![x] + s.skip(0));
        }
    } else {
        assert(rank_le(s[0], x));
        lemma_insert_split(x, s.drop_first(), p - 1);
        assert(s.drop_first().take(p - 1) =~= s.take(p).drop_first());
        assert(s.drop_first().skip(p - 1) =~= s.skip(p));
        assert(seq![s[0]] + (s.take(p).drop_first() + seq![x] + s.skip(p)) =~= s.take(p)
            + seq![x] + s.skip(p));
    }
}

/// Finds where a record belongs in a prioritized list: just after every
/// entry that ranks no worse than it.
fn find_slot(list: &Vec<CodecInfo>, x: &CodecInfo) -> (p: usize)
    ensures
        0 <= p <= list@.len(),
        forall|j: int| 0 <= j < p ==> rank_le(#[trigger] infos_view(list@)[j], x@),
        p < list@.len() ==> !rank_le(infos_view(list@)[p as int], x@),
{
    let mut p: usize = 0;
    loop
        invariant
            0 <= p <= list@.len(),
            forall|j: int| 0 <= j < p ==> rank_le(#[trigger] infos_view(list@)[j], x@),
        decreases list@.len() - p,
    {
        if p == list.len() {
            return p;
        }
        if !rank_le_exec(&list[p], &x) {
            return p;
        }
        proof {
            assert(infos_view(list@)[p as int] == list@[p as int]@);
        }
        p += 1;
    }
}

/// Inserts one record into a prioritized list, keeping it prioritized and
/// placing the record after every entry of equal rank already present.
fn insert_prioritized(list: &mut Vec<CodecInfo>, x: CodecInfo)
    ensures
        infos_view(final(list)@) == insert_spec(x@, infos_view(old(list)@)),
{
    let ghost s = infos_view(list@);
    let p = find_slot(list, &x);
    proof {
        lemma_insert_split(x@, s, p as int);
    }
    list.insert(p, x);
    proof {
        assert(infos_view(list@) =~= s.take(p as int) + seq![x@] + s.skip(p as int));
    }
}

/// Orders probe records by the deterministic ranking heuristic: hardware
/// before software, the vendor preference table within each tier, names as
/// the final tie break, with records of fully equal rank kept in probe order.
/// A pure function of its input list.
pub fn prioritize(list: Vec<CodecInfo>) -> (r: Vec<CodecInfo>)
    ensures
        infos_view(r@) == sort_spec(infos_view(list@)),
{
    let ghost orig: Seq<CodecInfo> = list@;
    let mut out: Vec<CodecInfo> = Vec::new();
    let mut rest = list;
    let ghost mut done: int = 0;
    proof {
        assert(infos_view(out@) =~= Seq::<CodecInfoV>::empty());
        assert(rest@ =~= orig.skip(0));
    }
    while rest.len() > 0
        invariant
            0 <= done <= orig.len(),
            rest@ =~= orig.skip(done),
            infos_view(out@) == sort_spec(infos_view(orig.take(done))),
        decreases rest.len(),
    {
        let x = rest.remove(0);
        proof {
            assert(x == orig[done]);
            assert(rest@ =~= orig.skip(done + 1));
            let prefix = infos_view(orig.take(done + 1));
            assert(prefix.drop_last() =~= infos_view(orig.take(done)));
            assert(prefix.last() == orig[done]@);
        }
        insert_prioritized(&mut out, x);
        proof {
            done = done + 1;
        }
    }
    proof {
        assert(orig.take(orig.len() as int) =~= orig);
    }
    out
}

} // verus!
