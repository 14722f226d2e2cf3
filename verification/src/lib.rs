//! A small process-manager library: a snapshot model of the running
//! processes, the interactive session state machine that navigates, filters
//! and confirms terminations over it, the pure renderer of that session, and
//! the decision logic of the one-shot kill/pause/resume commands.

pub mod commands;
pub mod query;
pub mod render;
pub mod session;
pub mod snapshot;
pub mod textfmt;

use vstd::prelude::*;
use vstd::string::StringExecFns;
use crate::textfmt::{clock_string, clock_text, dec_digits, two_digits, u64_string,
    two_digit_string};

verus! {

/// One process as captured at refresh time. Immutable once built; a new
/// snapshot replaces all records wholesale.
pub struct ProcessRecord {
    /// Process identifier; unique within a snapshot.
    pub pid: u32,
    /// Numeric id of the owning user.
    pub owner_id: u32,
    /// CPU usage in hundredths of a percent.
    pub cpu_centi_percent: u64,
    /// Resident memory in bytes.
    pub memory_bytes: u64,
    /// Local wall-clock second of the day at which the process started.
    pub start_secs_of_day: u32,
    /// Process name.
    pub name: String,
}

impl Clone for ProcessRecord {
    fn clone(&self) -> (r: Self)
        ensures
            r == *self,
    {
        ProcessRecord {
            pid: self.pid,
            owner_id: self.owner_id,
            cpu_centi_percent: self.cpu_centi_percent,
            memory_bytes: self.memory_bytes,
            start_secs_of_day: self.start_secs_of_day,
            name: self.name.clone(),
        }
    }
}

impl ProcessRecord {
    /// Builds a record from the plain values a snapshot provider reports,
    /// converting the start timestamp to a local second-of-day: the shift of
    /// the timestamp by the machine's zone offset, or zero past the
    /// supported range.
    pub fn new(
        pid: u32,
        owner_id: u32,
        cpu_centi_percent: u64,
        memory_bytes: u64,
        start_time: u64,
        name: String,
    ) -> (r: ProcessRecord)
        ensures
            r.pid == pid,
            r.owner_id == owner_id,
            r.cpu_centi_percent == cpu_centi_percent,
            r.memory_bytes == memory_bytes,
            r.start_secs_of_day < 86400,
            start_time >= 100_000_000_000 ==> r.start_secs_of_day == 0,
            start_time < 100_000_000_000 ==> exists|off: int|
                -86400 < off < 86400 && r.start_secs_of_day
                    == crate::textfmt::shifted_secs_of_day(start_time as nat, off),
            r.name == name,
    {
        let start_secs_of_day = crate::textfmt::local_secs_of_day(start_time);
        ProcessRecord { pid, owner_id, cpu_centi_percent, memory_bytes, start_secs_of_day, name }
    }
}

/// The records of `s` stand in ascending pid order.
pub open spec fn sorted_by_pid(s: Seq<ProcessRecord>) -> bool {
    forall|i: int, j: int| 0 <= i < j < s.len() ==> #[trigger] s[i].pid <= #[trigger] s[j].pid
}

/// No two records of `s` share a pid.
pub open spec fn distinct_pids(s: Seq<ProcessRecord>) -> bool {
    forall|i: int, j: int| 0 <= i < j < s.len() ==> #[trigger] s[i].pid != #[trigger] s[j].pid
}

/// Some record of `s` carries the pid `p`.
pub open spec fn has_pid(s: Seq<ProcessRecord>, p: u32) -> bool {
    exists|k: int| 0 <= k < s.len() && (#[trigger] s[k]).pid == p
}

/// The canonical tab-separated text row of a record: pid, owner id, CPU
/// percentage with two decimals, memory in whole megabytes, start clock and
/// name. Both the one-shot listing and the filter match against this row.
pub open spec fn spec_row_text(r: ProcessRecord) -> Seq<char> {
    dec_digits(r.pid as nat) + seq!['\t'] + dec_digits(r.owner_id as nat) + seq!['\t'] + dec_digits(
        (r.cpu_centi_percent / 100) as nat,
    ) + seq!['.'] + two_digits((r.cpu_centi_percent % 100) as nat) + seq!['%', '\t'] + dec_digits(
        (r.memory_bytes / 1048576) as nat,
    ) + seq!['M', 'B', '\t'] + clock_text(r.start_secs_of_day as nat) + seq!['\t'] + r.name@
}

/// Builds the canonical text row of a record.
pub fn row_text(r: &ProcessRecord) -> (s: String)
    ensures
        s@ == spec_row_text(*r),
{
    proof {
        reveal_strlit("\t");
        reveal_strlit(".");
        reveal_strlit("%\t");
        reveal_strlit("MB\t");
    }
    let mut s = u64_string(r.pid as u64);
    s.append("\t");
    let owner = u64_string(r.owner_id as u64);
    s.append(owner.as_str());
    s.append("\t");
    let cpu_whole = u64_string(r.cpu_centi_percent / 100);
    s.append(cpu_whole.as_str());
    s.append(".");
    let cpu_frac = two_digit_string(r.cpu_centi_percent % 100);
    s.append(cpu_frac.as_str());
    s.append("%\t");
    let mem = u64_string(r.memory_bytes / 1048576);
    s.append(mem.as_str());
    s.append("MB\t");
    let clock = clock_string(r.start_secs_of_day);
    s.append(clock.as_str());
    s.append("\t");
    s.append(r.name.as_str());
    proof {
        assert("\t"@ =~= seq!['\t']);
        assert("."@ =~= seq!['.']);
        assert("%\t"@ =~= seq!['%', '\t']);
        assert("MB\t"@ =~= seq!['M', 'B', '\t']);
        assert(s@ =~= spec_row_text(*r));
    }
    s
}

} // verus!
