//! Case-insensitive text matching of a filter query against process rows,
//! and the derived filtered view of a snapshot.

use vstd::prelude::*;
use crate::{distinct_pids, row_text, sorted_by_pid, spec_row_text, ProcessRecord};

verus! {

/// What `str::to_lowercase` returns for the characters `s`; a function of
/// those characters alone.
pub uninterp spec fn lower_of(s: Seq<char>) -> Seq<char>;

/// `needle` occurs contiguously inside `hay`.
pub open spec fn is_substring(needle: Seq<char>, hay: Seq<char>) -> bool {
    exists|i: int|
        0 <= i && i + needle.len() <= hay.len() && #[trigger] hay.subrange(i, i + needle.len())
            == needle
}

/// Case-insensitive containment of `query` in `text`.
pub open spec fn matches_query(query: Seq<char>, text: Seq<char>) -> bool {
    is_substring(lower_of(query), lower_of(text))
}

/// Relies on str::to_lowercase: the result depends on the characters alone,
/// and an empty string lowercases to the empty string.
#[verifier::external_body]
fn lowercase(s: &str) -> (r: String)
    ensures
        r@ == lower_of(s@),
        s@.len() == 0 ==> r@.len() == 0,
{
    s.to_lowercase()
}

/// Relies on str::contains: true exactly when the needle's characters occur
/// as a contiguous substring of the haystack's.
#[verifier::external_body]
fn contains_str(hay: &str, needle: &str) -> (r: bool)
    ensures
        r == is_substring(needle@, hay@),
{
    hay.contains(needle)
}

/// Decides whether `text` contains `query` up to case.
pub fn text_matches(query: &str, text: &str) -> (r: bool)
    ensures
        r == matches_query(query@, text@),
{
    let lq = lowercase(query);
    let lt = lowercase(text);
    contains_str(lt.as_str(), lq.as_str())
}

/// The visible subset of snapshot `s` under query `q`: everything for the
/// empty query, else exactly the records whose row matches `q`.
pub open spec fn spec_filtered(s: Seq<ProcessRecord>, q: Seq<char>) -> Seq<ProcessRecord> {
    if q.len() == 0 {
        s
    } else {
        s.filter(|r: ProcessRecord| matches_query(q, spec_row_text(r)))
    }
}

/// Copies a snapshot record for record.
pub fn clone_records(v: &Vec<ProcessRecord>) -> (out: Vec<ProcessRecord>)
    ensures
        out@ == v@,
{
    let mut out: Vec<ProcessRecord> = Vec::new();
    let mut idx: usize = 0;
    while idx < v.len()
        invariant
            idx <= v.len(),
            out@ =~= v@.take(idx as int),
        decreases v.len() - idx,
    {
        out.push(v[idx].clone());
        idx = idx + 1;
    }
    proof {
        assert(out@ =~= v@);
    }
    out
}

/// Computes the filtered view of `procs` under `query`.
pub fn filter_records(procs: &Vec<ProcessRecord>, query: &String) -> (out: Vec<ProcessRecord>)
    ensures
        out@ == spec_filtered(procs@, query@),
{
    if query.as_str().is_empty() {
        return clone_records(procs);
    }
    let ghost pred = |r: ProcessRecord| matches_query(query@, spec_row_text(r));
    let mut out: Vec<ProcessRecord> = Vec::new();
    let mut idx: usize = 0;
    while idx < procs.len()
        invariant
            idx <= procs.len(),
            out@ == procs@.take(idx as int).filter(pred),
            pred == (|r: ProcessRecord| matches_query(query@, spec_row_text(r))),
        decreases procs.len() - idx,
    {
        let row = row_text(&procs[idx]);
        let keep = text_matches(query.as_str(), row.as_str());
        proof {
            procs@.take(idx as int).lemma_filter_push(procs@[idx as int], pred);
            assert(procs@.take(idx as int + 1) =~= procs@.take(idx as int).push(
                procs@[idx as int],
            ));
        }
        if keep {
            out.push(procs[idx].clone());
        }
        idx = idx + 1;
    }
    proof {
        assert(procs@.take(procs@.len() as int) =~= procs@);
    }
    out
}

/// Filtering keeps the snapshot's order: what survives a predicate over a
/// list that ascends by pid, without a pid repeated, itself ascends by pid
/// without a pid repeated.
proof fn lemma_filter_keeps_pid_order(s: Seq<ProcessRecord>, pred: spec_fn(ProcessRecord) -> bool)
    requires
        sorted_by_pid(s),
        distinct_pids(s),
    ensures
        sorted_by_pid(s.filter(pred)),
        distinct_pids(s.filter(pred)),
    decreases s.len(),
{
    if s.len() == 0 {
        s.lemma_filter_len(pred);
    } else {
        let s0 = s.drop_last();
        let last = s.last();
        assert(s =~= s0.push(last));
        assert(forall|i: int| 0 <= i < s0.len() ==> s0[i] == s[i]);
        lemma_filter_keeps_pid_order(s0, pred);
        s0.lemma_filter_push(last, pred);
        if pred(last) {
            let f0 = s0.filter(pred);
            assert forall|i: int| 0 <= i < f0.len() implies (#[trigger] f0[i]).pid
                < last.pid by {
                assert(f0.contains(f0[i]));
                s0.lemma_filter_contains_rev(pred, f0[i]);
                let k = choose|k: int| 0 <= k < s0.len() && s0[k] == f0[i];
                assert(s[k].pid <= s[s.len() - 1].pid);
                assert(s[k].pid != s[s.len() - 1].pid);
            }
            assert(s.filter(pred) == f0.push(last));
        }
    }
}

/// The visible list after any recomputation of the filtered view keeps the
/// snapshot's shape: over a snapshot that ascends by pid without duplicates,
/// the filtered view of any query — and so the visible list, since the
/// empty query keeps the snapshot whole — ascends by pid without duplicates.
pub proof fn lemma_filtered_keeps_pid_order(s: Seq<ProcessRecord>, q: Seq<char>)
    requires
        sorted_by_pid(s),
        distinct_pids(s),
    ensures
        sorted_by_pid(spec_filtered(s, q)),
        distinct_pids(spec_filtered(s, q)),
{
    if q.len() > 0 {
        let pred = |r: ProcessRecord| matches_query(q, spec_row_text(r));
        lemma_filter_keeps_pid_order(s, pred);
    }
}

/// The filtered view is a subset of the snapshot; with a non-empty query
/// every surviving record's row matches it, and the empty query keeps the
/// snapshot whole.
pub proof fn lemma_filtered_is_matching_subset(s: Seq<ProcessRecord>, q: Seq<char>)
    ensures
        spec_filtered(s, q).len() <= s.len(),
        forall|i: int|
            0 <= i < spec_filtered(s, q).len() ==> s.contains(#[trigger] spec_filtered(s, q)[i]),
        q.len() > 0 ==> forall|i: int|
            0 <= i < spec_filtered(s, q).len() ==> matches_query(
                q,
                spec_row_text(#[trigger] spec_filtered(s, q)[i]),
            ),
        q.len() == 0 ==> spec_filtered(s, q) == s,
{
    if q.len() > 0 {
        let pred = |r: ProcessRecord| matches_query(q, spec_row_text(r));
        s.lemma_filter_len(pred);
        assert forall|i: int| 0 <= i < spec_filtered(s, q).len() implies s.contains(
            #[trigger] spec_filtered(s, q)[i],
        ) && matches_query(q, spec_row_text(spec_filtered(s, q)[i])) by {
            s.lemma_filter_pred(pred, i);
            assert(s.filter(pred).contains(s.filter(pred)[i]));
            s.lemma_filter_contains_rev(pred, s.filter(pred)[i]);
        }
    }
}

} // verus!
