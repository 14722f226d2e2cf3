//! Normalisation of a fresh snapshot: ascending pid order, one record per pid.

use vstd::prelude::*;
use crate::{distinct_pids, has_pid, sorted_by_pid, ProcessRecord};

verus! {

/// Sorts the records of a snapshot into ascending pid order, keeping exactly
/// the same records.
#[verifier::loop_isolation(false)]
pub fn sort_by_pid_order(input: Vec<ProcessRecord>) -> (out: Vec<ProcessRecord>)
    ensures
        sorted_by_pid(out@),
        out@.to_multiset() == input@.to_multiset(),
        out@.len() == input@.len(),
{
    broadcast use vstd::seq_lib::group_to_multiset_ensures;

    let mut out: Vec<ProcessRecord> = Vec::new();
    let mut idx: usize = 0;
    proof {
        assert(out@ =~= input@.take(0));
    }
    while idx < input.len()
        invariant
            idx <= input.len(),
            sorted_by_pid(out@),
            out@.to_multiset() == input@.take(idx as int).to_multiset(),
            out@.len() == idx,
        decreases input.len() - idx,
    {
        let rec = input[idx].clone();
        let mut j: usize = 0;
        while j < out.len() && out[j].pid <= rec.pid
            invariant
                j <= out.len(),
                forall|k: int| 0 <= k < j ==> out@[k].pid <= rec.pid,
            decreases out.len() - j,
        {
            j = j + 1;
        }
        let ghost prev = out@;
        out.insert(j, rec);
        proof {
            prev.insert_ensures(j as int, rec);
            assert forall|a: int, b: int| 0 <= a < b < out@.len() implies out@[a].pid
                <= out@[b].pid by {
                if a == j {
                    assert(out@[b] == prev[b - 1] && j <= b - 1);
                } else if b == j {
                    assert(out@[a] == prev[a] && a < j);
                } else if a < j && b > j {
                    assert(out@[a] == prev[a] && out@[b] == prev[b - 1] && a < j <= b - 1);
                } else if b < j {
                    assert(out@[a] == prev[a] && out@[b] == prev[b]);
                } else {
                    assert(out@[a] == prev[a - 1] && out@[b] == prev[b - 1]);
                }
            }
            vstd::seq_lib::to_multiset_insert(prev, j as int, rec);
            assert(input@.take(idx as int + 1) =~= input@.take(idx as int).push(
                input@[idx as int],
            ));
            vstd::seq_lib::to_multiset_build(input@.take(idx as int), input@[idx as int]);
        }
        idx = idx + 1;
    }
    proof {
        assert(input@.take(input@.len() as int) =~= input@);
    }
    out
}

/// Drops every later record of a pid already seen, so that each pid keeps its
/// first record of the run. On input without duplicate pids this changes
/// nothing.
#[verifier::loop_isolation(false)]
#[verifier::rlimit(60)]
pub fn dedup_by_pid(input: Vec<ProcessRecord>) -> (out: Vec<ProcessRecord>)
    requires
        sorted_by_pid(input@),
    ensures
        sorted_by_pid(out@),
        distinct_pids(out@),
        forall|i: int| 0 <= i < out@.len() ==> input@.contains(#[trigger] out@[i]),
        forall|i: int| 0 <= i < input@.len() ==> has_pid(out@, (#[trigger] input@[i]).pid),
        distinct_pids(input@) ==> out@ == input@,
{
    let mut out: Vec<ProcessRecord> = Vec::new();
    let mut idx: usize = 0;
    while idx < input.len()
        invariant
            idx <= input.len(),
            sorted_by_pid(out@),
            distinct_pids(out@),
            out@.len() <= idx,
            out@.len() > 0 ==> idx > 0 && out@.last().pid == input@[idx - 1].pid,
            forall|i: int| 0 <= i < out@.len() ==> input@.contains(#[trigger] out@[i]),
            forall|i: int| 0 <= i < idx ==> has_pid(out@, (#[trigger] input@[i]).pid),
            distinct_pids(input@.take(idx as int)) ==> out@ == input@.take(idx as int),
        decreases input.len() - idx,
    {
        let ghost prev = out@;
        if out.len() == 0 || out[out.len() - 1].pid != input[idx].pid {
            let rec = input[idx].clone();
            out.push(rec);
            proof {
                assert(out@[out@.len() - 1] == input@[idx as int]);
                assert(input@.contains(input@[idx as int]));
                if prev.len() > 0 {
                    assert(prev.last().pid == input@[idx - 1].pid);
                    assert(input@[idx - 1].pid <= input@[idx as int].pid);
                    let ghost newpid = input@[idx as int].pid;
                    assert forall|a: int| 0 <= a < prev.len() implies out@[a].pid < newpid by {
                        assert(prev[a].pid <= prev[prev.len() - 1].pid);
                    }
                }
                if distinct_pids(input@.take(idx as int + 1)) {
                    assert(distinct_pids(input@.take(idx as int))) by {
                        assert(forall|a: int, b: int|
                            0 <= a < b < idx ==> input@.take(idx as int)[a] == input@.take(
                                idx as int + 1,
                            )[a] && input@.take(idx as int)[b] == input@.take(idx as int + 1)[b]);
                    }
                    assert(out@ =~= input@.take(idx as int + 1));
                }
            }
        } else {
            proof {
                assert(prev.last().pid == input@[idx as int].pid);
                assert(input@.take(idx as int + 1)[idx - 1].pid == input@.take(
                    idx as int + 1,
                )[idx as int].pid);
                assert(!distinct_pids(input@.take(idx as int + 1)));
            }
        }
        proof {
            assert forall|i: int| 0 <= i < idx + 1 implies has_pid(
                out@,
                (#[trigger] input@[i]).pid,
            ) by {
                if i < idx {
                    let k = choose|k: int|
                        0 <= k < prev.len() && (#[trigger] prev[k]).pid == input@[i].pid;
                    assert(out@[k].pid == input@[i].pid);
                } else {
                    assert(out@[out@.len() - 1].pid == input@[i].pid);
                }
            }
        }
        idx = idx + 1;
    }
    proof {
        assert(input@.take(input@.len() as int) =~= input@);
    }
    out
}

/// Rearranging a snapshot cannot introduce a pid collision: a permutation of
/// records with pairwise distinct pids again has pairwise distinct pids.
pub proof fn lemma_permutation_keeps_distinct_pids(a: Seq<ProcessRecord>, b: Seq<ProcessRecord>)
    requires
        a.to_multiset() == b.to_multiset(),
        distinct_pids(a),
    ensures
        distinct_pids(b),
{
    broadcast use vstd::seq_lib::group_to_multiset_ensures;

    assert forall|i: int, j: int| 0 <= i < j < b.len() implies #[trigger] b[i].pid
        != #[trigger] b[j].pid by {
        if b[i].pid == b[j].pid {
            if b[i] == b[j] {
                assert forall|x: int, y: int|
                    0 <= x < a.len() && 0 <= y < a.len() && x != y implies a[x] != a[y] by {
                    if x < y {
                        assert(a[x].pid != a[y].pid);
                    } else {
                        assert(a[y].pid != a[x].pid);
                    }
                }
                assert(a.no_duplicates());
                a.lemma_multiset_has_no_duplicates();
                b.lemma_multiset_has_no_duplicates_conv();
            } else {
                assert(b.contains(b[i]) && b.contains(b[j]));
                assert(b.to_multiset().count(b[i]) > 0 && b.to_multiset().count(b[j]) > 0);
                assert(a.to_multiset().count(b[i]) > 0 && a.to_multiset().count(b[j]) > 0);
                assert(a.contains(b[i]) && a.contains(b[j]));
                let x = choose|x: int| 0 <= x < a.len() && a[x] == b[i];
                let y = choose|y: int| 0 <= y < a.len() && a[y] == b[j];
                assert(a[x].pid == a[y].pid && x != y);
            }
        }
    }
}

/// Sorts a fresh snapshot by pid and drops duplicate pids: the normal form
/// every visible list is kept in. Every kept record comes from the input,
/// every input pid is still represented, and input without duplicate pids is
/// kept whole.
pub fn normalize_snapshot(input: Vec<ProcessRecord>) -> (out: Vec<ProcessRecord>)
    ensures
        sorted_by_pid(out@),
        distinct_pids(out@),
        forall|i: int| 0 <= i < out@.len() ==> input@.contains(#[trigger] out@[i]),
        forall|i: int| 0 <= i < input@.len() ==> has_pid(out@, (#[trigger] input@[i]).pid),
        distinct_pids(input@) ==> out@.to_multiset() == input@.to_multiset(),
{
    let ghost input_view = input@;
    let sorted = sort_by_pid_order(input);
    let out = dedup_by_pid(sorted);
    proof {
        broadcast use vstd::seq_lib::group_to_multiset_ensures;

        assert forall|i: int| 0 <= i < out@.len() implies input_view.contains(
            #[trigger] out@[i],
        ) by {
            assert(sorted@.contains(out@[i]));
            assert(sorted@.to_multiset().count(out@[i]) > 0);
            assert(input_view.to_multiset().count(out@[i]) > 0);
        }
        assert forall|i: int| 0 <= i < input_view.len() implies has_pid(
            out@,
            (#[trigger] input_view[i]).pid,
        ) by {
            assert(input_view.contains(input_view[i]));
            assert(input_view.to_multiset().count(input_view[i]) > 0);
            assert(sorted@.to_multiset().count(input_view[i]) > 0);
            assert(sorted@.contains(input_view[i]));
            let j = choose|j: int| 0 <= j < sorted@.len() && sorted@[j] == input_view[i];
            assert(has_pid(out@, sorted@[j].pid));
            assert(sorted@[j].pid == input_view[i].pid);
        }
        if distinct_pids(input_view) {
            lemma_permutation_keeps_distinct_pids(input_view, sorted@);
        }
    }
    out
}

} // verus!
