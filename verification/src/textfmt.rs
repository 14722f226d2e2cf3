//! Plain-text formatting of the numeric fields that appear in process rows:
//! decimal numbers, fixed-width padding, and wall-clock times.

use vstd::prelude::*;
use vstd::string::StringExecFns;
use vstd::string::StrSliceExecFns;

verus! {

/// The character for a single decimal digit value (`d < 10`).
pub open spec fn digit_char(d: nat) -> char {
    if d == 0 {
        '0'
    } else if d == 1 {
        '1'
    } else if d == 2 {
        '2'
    } else if d == 3 {
        '3'
    } else if d == 4 {
        '4'
    } else if d == 5 {
        '5'
    } else if d == 6 {
        '6'
    } else if d == 7 {
        '7'
    } else if d == 8 {
        '8'
    } else {
        '9'
    }
}

/// The decimal digits of `n`, most significant first, without leading zeros
/// (a single `'0'` for zero).
pub open spec fn dec_digits(n: nat) -> Seq<char>
    decreases n,
{
    if n < 10 {
        seq![digit_char(n)]
    } else {
        dec_digits(n / 10).push(digit_char(n % 10))
    }
}

/// The two-character, zero-padded decimal form of `n` (`n < 100`).
pub open spec fn two_digits(n: nat) -> Seq<char> {
    seq![digit_char(n / 10), digit_char(n % 10)]
}

/// `n` space characters.
pub open spec fn spaces(n: nat) -> Seq<char>
    decreases n,
{
    if n == 0 {
        Seq::empty()
    } else {
        spaces((n - 1) as nat).push(' ')
    }
}

/// `s` extended with trailing spaces to width `w`; unchanged if already that wide.
pub open spec fn padded_to(s: Seq<char>, w: nat) -> Seq<char> {
    if s.len() >= w {
        s
    } else {
        s + spaces((w - s.len()) as nat)
    }
}

fn digit_str(d: u64) -> (r: &'static str)
    requires
        d < 10,
    ensures
        r@ == seq![digit_char(d as nat)],
{
    let r: &'static str = if d == 0 {
        "0"
    } else if d == 1 {
        "1"
    } else if d == 2 {
        "2"
    } else if d == 3 {
        "3"
    } else if d == 4 {
        "4"
    } else if d == 5 {
        "5"
    } else if d == 6 {
        "6"
    } else if d == 7 {
        "7"
    } else if d == 8 {
        "8"
    } else {
        "9"
    };
    proof {
        reveal_strlit("0");
        reveal_strlit("1");
        reveal_strlit("2");
        reveal_strlit("3");
        reveal_strlit("4");
        reveal_strlit("5");
        reveal_strlit("6");
        reveal_strlit("7");
        reveal_strlit("8");
        reveal_strlit("9");
        assert(r@ =~= seq![digit_char(d as nat)]);
    }
    r
}

/// The decimal text of `n`, without leading zeros.
pub fn u64_string(n: u64) -> (s: String)
    ensures
        s@ == dec_digits(n as nat),
    decreases n,
{
    if n < 10 {
        String::from_str(digit_str(n))
    } else {
        let mut s = u64_string(n / 10);
        s.append(digit_str(n % 10));
        s
    }
}

/// The two-digit, zero-padded decimal text of `n` (`n < 100`).
pub fn two_digit_string(n: u64) -> (s: String)
    requires
        n < 100,
    ensures
        s@ == two_digits(n as nat),
{
    let mut s = String::from_str(digit_str(n / 10));
    s.append(digit_str(n % 10));
    proof {
        assert(s@ =~= two_digits(n as nat));
    }
    s
}

/// `s` padded with trailing spaces to `width` characters.
pub fn pad_to(s: String, width: usize) -> (r: String)
    ensures
        r@ == padded_to(s@, width as nat),
{
    let mut r = s;
    let mut l: usize = r.as_str().unicode_len();
    let ghost orig: Seq<char> = r@;
    proof {
        reveal_strlit(" ");
        assert(orig + spaces(0) =~= orig);
    }
    while l < width
        invariant
            orig.len() <= l,
            l <= width || l == orig.len(),
            r@ == orig + spaces((l - orig.len()) as nat),
            " "@ == seq![' '],
        decreases width - l,
    {
        r.append(" ");
        l = l + 1;
        proof {
            assert(spaces((l - orig.len()) as nat) == spaces((l - 1 - orig.len()) as nat).push(' '));
            assert(r@ =~= orig + spaces((l - orig.len()) as nat));
        }
    }
    proof {
        assert(r@ =~= padded_to(orig, width as nat));
    }
    r
}

/// The `HH:MM:SS` text for `secs` seconds after midnight, reduced modulo one day.
pub open spec fn clock_text(secs: nat) -> Seq<char> {
    let s = secs % 86400;
    two_digits(s / 3600) + seq![':'] + two_digits((s % 3600) / 60) + seq![':'] + two_digits(s % 60)
}

/// Formats a seconds-after-midnight count as `HH:MM:SS`.
pub fn clock_string(secs: u32) -> (r: String)
    ensures
        r@ == clock_text(secs as nat),
{
    let s: u32 = secs % 86400;
    let h: u32 = s / 3600;
    let m: u32 = (s % 3600) / 60;
    let sec: u32 = s % 60;
    assert(h < 24 && m < 60 && sec < 60) by (nonlinear_arith)
        requires
            s < 86400 && h == s / 3600 && m == (s % 3600) / 60 && sec == s % 60,
    ;
    proof {
        reveal_strlit(":");
    }
    let mut r = two_digit_string(h as u64);
    r.append(":");
    let mm = two_digit_string(m as u64);
    r.append(mm.as_str());
    r.append(":");
    let ss = two_digit_string(sec as u64);
    r.append(ss.as_str());
    proof {
        assert(":"@ =~= seq![':']);
        assert(r@ =~= clock_text(secs as nat));
    }
    r
}

/// The in-range result of shifting the Unix timestamp `ts` by the zone offset
/// `off` and reducing to seconds within the day.
pub open spec fn shifted_secs_of_day(ts: nat, off: int) -> int {
    let base = ts % 86400;
    if base + off < 0 {
        base + off + 86400
    } else if base + off >= 86400 {
        base + off - 86400
    } else {
        base + off
    }
}

/// Relies on chrono: `DateTime::from_timestamp` accepts every timestamp in the
/// required range, and the offset of a `DateTime<Local>` is a `FixedOffset`,
/// which chrono only constructs strictly between -86400 and 86400 seconds.
/// Nothing more is promised: the value depends on the machine's time zone.
#[verifier::external_body]
fn local_offset_seconds(ts: u64) -> (r: i64)
    requires
        ts < 100_000_000_000,
    ensures
        -86400 < r < 86400,
{
    let utc = chrono::DateTime::from_timestamp(ts as i64, 0).unwrap();
    let local: chrono::DateTime<chrono::Local> = utc.into();
    local.offset().local_minus_utc() as i64
}

/// The second-of-day that the timestamp `ts` shows under the zone offset
/// `off`: the timestamp's second within its UTC day, shifted by the offset
/// and wrapped back into one day.
pub fn secs_of_day_at_offset(ts: u64, off: i64) -> (r: u32)
    requires
        ts < 100_000_000_000,
        -86400 < off < 86400,
    ensures
        r == shifted_secs_of_day(ts as nat, off as int),
        r < 86400,
{
    let base: i64 = (ts % 86400) as i64;
    let x: i64 = base + off;
    let shifted: i64 = if x < 0 {
        x + 86400
    } else if x >= 86400 {
        x - 86400
    } else {
        x
    };
    shifted as u32
}

/// The local wall-clock second-of-day at the Unix timestamp `ts`: the shift
/// of `ts` by whatever zone offset the machine reports, and zero for a
/// timestamp past the supported range, where no offset is looked up.
pub fn local_secs_of_day(ts: u64) -> (r: u32)
    ensures
        r < 86400,
        ts >= 100_000_000_000 ==> r == 0,
        ts < 100_000_000_000 ==> exists|off: int|
            -86400 < off < 86400 && r == shifted_secs_of_day(ts as nat, off),
{
    if ts >= 100_000_000_000 {
        return 0;
    }
    let off: i64 = local_offset_seconds(ts);
    let r = secs_of_day_at_offset(ts, off);
    proof {
        assert(-86400 < (off as int) && (off as int) < 86400 && r == shifted_secs_of_day(
            ts as nat,
            off as int,
        ));
    }
    r
}

} // verus!
