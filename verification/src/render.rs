//! The renderer: a pure projection of the session state into display lines,
//! with no side effect beyond the buffer it returns. A title, an optional
//! two-line confirmation banner, a column header, one fixed-width row per
//! visible record with the cursor row marked, and a footer of key hints.

use vstd::prelude::*;
use vstd::string::StringExecFns;
use crate::{spec_row_text, ProcessRecord};
use crate::textfmt::{clock_string, clock_text, dec_digits, padded_to, pad_to, two_digits,
    two_digit_string, u64_string};
use crate::session::{visible_of, App, SessionView};

verus! {

/// The fixed-width display row of one record.
pub open spec fn spec_display_row(r: ProcessRecord) -> Seq<char> {
    padded_to(dec_digits(r.pid as nat), 8) + seq![' '] + padded_to(
        dec_digits(r.owner_id as nat),
        8,
    ) + seq![' '] + padded_to(
        dec_digits((r.cpu_centi_percent / 100) as nat) + seq!['.'] + two_digits(
            (r.cpu_centi_percent % 100) as nat,
        ) + seq!['%'],
        8,
    ) + seq![' '] + padded_to(dec_digits((r.memory_bytes / 1048576) as nat) + seq!['M', 'B'], 8)
        + seq![' '] + padded_to(clock_text(r.start_secs_of_day as nat), 10) + seq![' '] + r.name@
}

/// Builds the fixed-width display row of one record.
pub fn display_row(r: &ProcessRecord) -> (s: String)
    ensures
        s@ == spec_display_row(*r),
{
    proof {
        reveal_strlit(" ");
        reveal_strlit(".");
        reveal_strlit("%");
        reveal_strlit("MB");
    }
    let mut s = pad_to(u64_string(r.pid as u64), 8);
    s.append(" ");
    let owner = pad_to(u64_string(r.owner_id as u64), 8);
    s.append(owner.as_str());
    s.append(" ");
    let mut cpu = u64_string(r.cpu_centi_percent / 100);
    cpu.append(".");
    let frac = two_digit_string(r.cpu_centi_percent % 100);
    cpu.append(frac.as_str());
    cpu.append("%");
    let cpu_col = pad_to(cpu, 8);
    s.append(cpu_col.as_str());
    s.append(" ");
    let mut mem = u64_string(r.memory_bytes / 1048576);
    mem.append("MB");
    let mem_col = pad_to(mem, 8);
    s.append(mem_col.as_str());
    s.append(" ");
    let clock_col = pad_to(clock_string(r.start_secs_of_day), 10);
    s.append(clock_col.as_str());
    s.append(" ");
    s.append(r.name.as_str());
    proof {
        assert(" "@ =~= seq![' ']);
        assert("."@ =~= seq!['.']);
        assert("%"@ =~= seq!['%']);
        assert("MB"@ =~= seq!['M', 'B']);
        assert(s@ =~= spec_display_row(*r));
    }
    s
}

/// The column header above the rows.
pub open spec fn spec_header_row() -> Seq<char> {
    padded_to("PID"@, 8) + seq![' '] + padded_to("UID"@, 8) + seq![' '] + padded_to("CPU"@, 8)
        + seq![' '] + padded_to("MEM"@, 8) + seq![' '] + padded_to("START"@, 10) + seq![' ']
        + "NAME"@
}

/// Builds the column header row.
pub fn header_row() -> (s: String)
    ensures
        s@ == spec_header_row(),
{
    proof {
        reveal_strlit(" ");
    }
    let mut s = pad_to(String::from_str("PID"), 8);
    s.append(" ");
    let uid = pad_to(String::from_str("UID"), 8);
    s.append(uid.as_str());
    s.append(" ");
    let cpu = pad_to(String::from_str("CPU"), 8);
    s.append(cpu.as_str());
    s.append(" ");
    let mem = pad_to(String::from_str("MEM"), 8);
    s.append(mem.as_str());
    s.append(" ");
    let start = pad_to(String::from_str("START"), 10);
    s.append(start.as_str());
    s.append(" ");
    s.append("NAME");
    proof {
        assert(" "@ =~= seq![' ']);
        assert(s@ =~= spec_header_row());
    }
    s
}

/// The cursor marker: an arrow before the selected line, blanks elsewhere.
pub open spec fn spec_marker(selected: bool) -> Seq<char> {
    if selected {
        "> "@
    } else {
        "  "@
    }
}

/// The two-line confirmation banner text for a pending pid.
pub open spec fn spec_banner(pid: u32) -> Seq<char> {
    "Kill process "@ + dec_digits(pid as nat) + " ? (Y/N)"@
}

/// The footer of key hints for the session's mode.
pub open spec fn spec_footer(v: SessionView) -> Seq<char> {
    if v.pending is Some {
        " Confirm Kill <Y/N>"@
    } else if v.searching {
        " Search: "@ + v.query + " Exit Search <Esc>"@
    } else {
        " Navigate <Up/Down> Kill <Enter> Search <S> Refresh <R> Quit <Q>"@
    }
}

/// Builds the footer of key hints.
pub fn footer_line(app: &App) -> (s: String)
    ensures
        s@ == spec_footer(app@),
{
    if app.pid_to_kill.is_some() {
        String::from_str(" Confirm Kill <Y/N>")
    } else if app.search_mode {
        let mut s = String::from_str(" Search: ");
        s.append(app.search_query.as_str());
        s.append(" Exit Search <Esc>");
        s
    } else {
        String::from_str(" Navigate <Up/Down> Kill <Enter> Search <S> Refresh <R> Quit <Q>")
    }
}

/// How many lines the banner contributes: the prompt and a blank spacer.
pub open spec fn spec_banner_lines(v: SessionView) -> nat {
    if v.pending is Some {
        2
    } else {
        0
    }
}

/// Projects the whole session state into display lines: title, banner when
/// confirming, header, one marked row per visible record, footer.
#[verifier::loop_isolation(false)]
pub fn render_lines(app: &App) -> (lines: Vec<String>)
    ensures
        lines@.len() == 3 + spec_banner_lines(app@) + visible_of(app@).len(),
        lines@[0]@ == "Rspm Top"@,
        app@.pending matches Some(p) ==> lines@[1]@ == spec_banner(p) && lines@[2]@ == Seq::<
            char,
        >::empty(),
        lines@[spec_banner_lines(app@) as int + 1]@ == spec_marker(app@.cursor == Some(0usize))
            + spec_header_row(),
        forall|i: int|
            0 <= i < visible_of(app@).len()
                ==> (#[trigger] lines@[spec_banner_lines(app@) as int + 2 + i])@
                == spec_marker(app@.cursor == Some((i + 1) as usize))
                + spec_display_row(visible_of(app@)[i]),
        lines@[lines@.len() - 1]@ == spec_footer(app@),
{
    let mut lines: Vec<String> = Vec::new();
    lines.push(String::from_str("Rspm Top"));
    match app.pid_to_kill {
        Some(pid) => {
            let mut banner = String::from_str("Kill process ");
            let digits = u64_string(pid as u64);
            banner.append(digits.as_str());
            banner.append(" ? (Y/N)");
            lines.push(banner);
            lines.push(String::new());
        },
        None => {},
    }
    let header_selected = match app.cursor {
        Some(i) => i == 0,
        None => false,
    };
    let mut header = String::from_str(if header_selected {
        "> "
    } else {
        "  "
    });
    header.append(header_row().as_str());
    lines.push(header);
    let ghost base = lines@.len();
    let ghost head = lines@;
    proof {
        assert(head[0]@ == "Rspm Top"@);
        assert(head[base - 1]@ == spec_marker(app@.cursor == Some(0usize)) + spec_header_row());
        if app@.pending is Some {
            assert(head[1]@ == spec_banner(app@.pending->Some_0));
            assert(head[2]@ == Seq::<char>::empty());
        }
    }
    let n = if app.search_mode {
        app.filtered_processes.len()
    } else {
        app.processes.len()
    };
    let mut idx: usize = 0;
    while idx < n
        invariant
            idx <= n,
            n == visible_of(app@).len(),
            base == spec_banner_lines(app@) + 2,
            lines@.len() == base + idx,
            lines@.take(base as int) == head,
            forall|i: int|
                0 <= i < idx ==> (#[trigger] lines@[base + i])@ == spec_marker(
                    app@.cursor == Some((i + 1) as usize),
                ) + spec_display_row(visible_of(app@)[i]),
        decreases n - idx,
    {
        let selected = match app.cursor {
            Some(c) => c == idx + 1,
            None => false,
        };
        let mut line = String::from_str(if selected {
            "> "
        } else {
            "  "
        });
        let row = if app.search_mode {
            display_row(&app.filtered_processes[idx])
        } else {
            display_row(&app.processes[idx])
        };
        line.append(row.as_str());
        lines.push(line);
        idx = idx + 1;
        proof {
            assert(lines@.take(base as int) =~= head);
        }
    }
    proof {
        assert(lines@.take(base as int) == head);
    }
    let ghost rows_done = lines@;
    lines.push(footer_line(app));
    proof {
        assert(lines@[0] == head[0]);
        assert(lines@[base - 1] == head[base - 1]);
        if app@.pending is Some {
            assert(lines@[1] == head[1]);
            assert(lines@[2] == head[2]);
        }
        assert forall|i: int|
            0 <= i < visible_of(app@).len() implies (#[trigger] lines@[spec_banner_lines(app@)
            as int + 2 + i])@ == spec_marker(app@.cursor == Some((i + 1) as usize))
            + spec_display_row(visible_of(app@)[i]) by {
            assert(lines@[base + i] == rows_done[base + i]);
        }
        assert(lines@[lines@.len() - 1]@ == spec_footer(app@));
    }
    lines
}

} // verus!
