//! Decision logic of the one-shot commands: which processes a pid or a name
//! designates, the exit code owed, and the diagnostic lines printed on
//! failure. Signal delivery itself stays with the caller.

use vstd::prelude::*;
use vstd::string::StringExecFns;
use crate::{row_text, spec_row_text, ProcessRecord};
use crate::textfmt::dec_digits;
use crate::textfmt::u64_string;

verus! {

/// The pids of the records named exactly `name`, in snapshot order.
pub open spec fn spec_pids_with_name(s: Seq<ProcessRecord>, name: Seq<char>) -> Seq<u32> {
    s.filter(|r: ProcessRecord| r.name@ == name).map_values(|r: ProcessRecord| r.pid)
}

/// Collects the pids of every record whose name matches `name` exactly.
pub fn pids_with_name(procs: &Vec<ProcessRecord>, name: &String) -> (out: Vec<u32>)
    ensures
        out@ == spec_pids_with_name(procs@, name@),
{
    let ghost pred = |r: ProcessRecord| r.name@ == name@;
    let mut out: Vec<u32> = Vec::new();
    let mut idx: usize = 0;
    while idx < procs.len()
        invariant
            idx <= procs.len(),
            out@ == spec_pids_with_name(procs@.take(idx as int), name@),
            pred == (|r: ProcessRecord| r.name@ == name@),
        decreases procs.len() - idx,
    {
        proof {
            procs@.take(idx as int).lemma_filter_push(procs@[idx as int], pred);
            assert(procs@.take(idx as int + 1) =~= procs@.take(idx as int).push(
                procs@[idx as int],
            ));
            assert(procs@.take(idx as int).filter(pred).push(procs@[idx as int]).map_values(
                |r: ProcessRecord| r.pid,
            ) =~= procs@.take(idx as int).filter(pred).map_values(|r: ProcessRecord| r.pid).push(
                procs@[idx as int].pid,
            ));
        }
        if procs[idx].name == *name {
            out.push(procs[idx].pid);
        }
        idx = idx + 1;
    }
    proof {
        assert(procs@.take(procs@.len() as int) =~= procs@);
    }
    out
}

/// The exit code of a one-shot operation: success exactly when at least one
/// signal was delivered.
pub fn command_exit_code(delivered: usize) -> (code: u8)
    ensures
        code == 0 <==> delivered > 0,
        code == 0 || code == 1,
{
    if delivered > 0 {
        0
    } else {
        1
    }
}

/// The diagnostic printed when a pid designates no process.
pub fn pid_not_found_message(pid: u32) -> (s: String)
    ensures
        s@ == "PID '"@ + dec_digits(pid as nat) + "' not found"@,
{
    let mut s = String::from_str("PID '");
    let digits = u64_string(pid as u64);
    s.append(digits.as_str());
    s.append("' not found");
    s
}

/// The diagnostic printed when a name designates no process.
pub fn name_not_found_message(name: &String) -> (s: String)
    ensures
        s@ == "Process '"@ + name@ + "' not found"@,
{
    let mut s = String::from_str("Process '");
    s.append(name.as_str());
    s.append("' not found");
    s
}

/// The diagnostic printed when the kill signal was refused for a pid.
pub fn kill_failed_message(pid: u32) -> (s: String)
    ensures
        s@ == "Failed to kill process '"@ + dec_digits(pid as nat) + "'"@,
{
    let mut s = String::from_str("Failed to kill process '");
    let digits = u64_string(pid as u64);
    s.append(digits.as_str());
    s.append("'");
    s
}

/// The diagnostic printed when the kill signal was refused for a process
/// addressed by name.
pub fn kill_failed_by_name_message(name: &String) -> (s: String)
    ensures
        s@ == "Failed to kill process '"@ + name@ + "'"@,
{
    let mut s = String::from_str("Failed to kill process '");
    s.append(name.as_str());
    s.append("'");
    s
}

/// The diagnostic printed when a stop or continue signal was refused for a
/// pid.
pub fn signal_failed_message(pid: u32) -> (s: String)
    ensures
        s@ == "Failed to signal process '"@ + dec_digits(pid as nat) + "'"@,
{
    let mut s = String::from_str("Failed to signal process '");
    let digits = u64_string(pid as u64);
    s.append(digits.as_str());
    s.append("'");
    s
}

/// The header line of the one-shot listing.
pub fn listing_header() -> (s: String)
    ensures
        s@ == "PID\tUID\tCPU\tMEM\tSTART\t\tNAME"@,
{
    String::from_str("PID\tUID\tCPU\tMEM\tSTART\t\tNAME")
}

/// One canonical text row per record of the snapshot, in order.
pub fn snapshot_rows(procs: &Vec<ProcessRecord>) -> (out: Vec<String>)
    ensures
        out@.len() == procs@.len(),
        forall|i: int|
            0 <= i < procs@.len() ==> (#[trigger] out@[i])@ == spec_row_text(procs@[i]),
{
    let mut out: Vec<String> = Vec::new();
    let mut idx: usize = 0;
    while idx < procs.len()
        invariant
            idx <= procs.len(),
            out@.len() == idx,
            forall|i: int| 0 <= i < idx ==> (#[trigger] out@[i])@ == spec_row_text(procs@[i]),
        decreases procs.len() - idx,
    {
        out.push(row_text(&procs[idx]));
        idx = idx + 1;
    }
    out
}

} // verus!
