//! Rendering of log lines. The exact on-disk format is
//! `[YYYY-MM-DD HH:MM:SS.mmm] LEVEL PID:<pid> TID:<thread-id> <message>`,
//! newline-terminated; other tooling depends on it, so every piece is
//! specified to the character.

use vstd::prelude::*;
use crate::clock::Timestamp;
use crate::clock::now_local;
use crate::level::LogLevel;

verus! {

/// The decimal digit character for `d` (which must be below ten).
pub open spec fn spec_digit(d: nat) -> char {
    if d == 0 {
        '0'
    } else if d == 1 {
        '1'
    } else if d == 2 {
        '2'
    } else if d == 3 {
        '3'
    } else if d == 4 {
        '4'
    } else if d == 5 {
        '5'
    } else if d == 6 {
        '6'
    } else if d == 7 {
        '7'
    } else if d == 8 {
        '8'
    } else {
        '9'
    }
}

/// The decimal rendering of `n`, without sign or padding.
pub open spec fn spec_dec(n: nat) -> Seq<char>
    decreases n,
{
    if n < 10 {
        seq![spec_digit(n)]
    } else {
        spec_dec(n / 10) + seq![spec_digit(n % 10)]
    }
}

/// `n` zero-padded to at least two digits.
pub open spec fn spec_pad2(n: nat) -> Seq<char> {
    if n < 10 {
        seq!['0'] + spec_dec(n)
    } else {
        spec_dec(n)
    }
}

/// `n` zero-padded to at least three digits.
pub open spec fn spec_pad3(n: nat) -> Seq<char> {
    if n < 10 {
        seq!['0', '0'] + spec_dec(n)
    } else if n < 100 {
        seq!['0'] + spec_dec(n)
    } else {
        spec_dec(n)
    }
}

/// `n` zero-padded to at least four digits.
pub open spec fn spec_pad4(n: nat) -> Seq<char> {
    if n < 10 {
        seq!['0', '0', '0'] + spec_dec(n)
    } else if n < 100 {
        seq!['0', '0'] + spec_dec(n)
    } else if n < 1000 {
        seq!['0'] + spec_dec(n)
    } else {
        spec_dec(n)
    }
}

/// A year as rendered in a timestamp: zero-padded to at least four digits,
/// with a leading minus sign for years before year zero.
pub open spec fn spec_year(y: int) -> Seq<char> {
    if y < 0 {
        seq!['-'] + spec_pad4((-y) as nat)
    } else {
        spec_pad4(y as nat)
    }
}

/// The bracketed timestamp part of a line: `[YYYY-MM-DD HH:MM:SS.mmm]`.
pub open spec fn spec_stamp(t: Timestamp) -> Seq<char> {
    "["@ + spec_year(t.year as int) + "-"@ + spec_pad2(t.month as nat) + "-"@ + spec_pad2(
        t.day as nat,
    ) + " "@ + spec_pad2(t.hour as nat) + ":"@ + spec_pad2(t.minute as nat) + ":"@ + spec_pad2(
        t.second as nat,
    ) + "."@ + spec_pad3(t.milli as nat) + "]"@
}

/// A whole formatted line, without the terminating newline.
pub open spec fn spec_line(
    t: Timestamp,
    level: LogLevel,
    pid: nat,
    tid: Seq<char>,
    message: Seq<char>,
) -> Seq<char> {
    spec_stamp(t) + " "@ + level.spec_as_str() + " PID:"@ + spec_dec(pid) + " TID:"@ + tid + " "@
        + message
}

/// A formatted line as written to the file: the line plus its newline.
pub open spec fn spec_rendered(
    t: Timestamp,
    level: LogLevel,
    pid: nat,
    tid: Seq<char>,
    message: Seq<char>,
) -> Seq<char> {
    spec_line(t, level, pid, tid, message) + "\n"@
}

fn digit_str(d: u64) -> (r: &'static str)
    requires
        d < 10,
    ensures
        r@ == seq![spec_digit(d as nat)],
{
    proof {
        reveal_strlit("0");
        reveal_strlit("1");
        reveal_strlit("2");
        reveal_strlit("3");
        reveal_strlit("4");
        reveal_strlit("5");
        reveal_strlit("6");
        reveal_strlit("7");
        reveal_strlit("8");
        reveal_strlit("9");
    }
    let r = if d == 0 {
        "0"
    } else if d == 1 {
        "1"
    } else if d == 2 {
        "2"
    } else if d == 3 {
        "3"
    } else if d == 4 {
        "4"
    } else if d == 5 {
        "5"
    } else if d == 6 {
        "6"
    } else if d == 7 {
        "7"
    } else if d == 8 {
        "8"
    } else {
        "9"
    };
    proof {
        assert(r@ =~= seq![spec_digit(d as nat)]);
    }
    r
}

/// The decimal rendering of `n`.
pub fn u64_to_string(n: u64) -> (r: String)
    ensures
        r@ == spec_dec(n as nat),
    decreases n,
{
    if n < 10 {
        String::from_str(digit_str(n))
    } else {
        let mut s = u64_to_string(n / 10);
        s.append(digit_str(n % 10));
        s
    }
}

fn pad2(n: u64) -> (r: String)
    ensures
        r@ == spec_pad2(n as nat),
{
    proof {
        reveal_strlit("0");
    }
    let mut s = String::new();
    if n < 10 {
        s.append("0");
        proof {
            assert(s@ =~= seq!['0']);
        }
    }
    let d = u64_to_string(n);
    s.append(d.as_str());
    s
}

fn pad3(n: u64) -> (r: String)
    ensures
        r@ == spec_pad3(n as nat),
{
    proof {
        reveal_strlit("0");
        reveal_strlit("00");
    }
    let mut s = String::new();
    if n < 10 {
        s.append("00");
        proof {
            assert(s@ =~= seq!['0', '0']);
        }
    } else if n < 100 {
        s.append("0");
        proof {
            assert(s@ =~= seq!['0']);
        }
    }
    let d = u64_to_string(n);
    s.append(d.as_str());
    s
}

fn pad4(n: u64) -> (r: String)
    ensures
        r@ == spec_pad4(n as nat),
{
    proof {
        reveal_strlit("0");
        reveal_strlit("00");
        reveal_strlit("000");
    }
    let mut s = String::new();
    if n < 10 {
        s.append("000");
        proof {
            assert(s@ =~= seq!['0', '0', '0']);
        }
    } else if n < 100 {
        s.append("00");
        proof {
            assert(s@ =~= seq!['0', '0']);
        }
    } else if n < 1000 {
        s.append("0");
        proof {
            assert(s@ =~= seq!['0']);
        }
    }
    let d = u64_to_string(n);
    s.append(d.as_str());
    s
}

fn year_to_string(y: i64) -> (r: String)
    requires
        -2147483648 <= y <= 2147483647,
    ensures
        r@ == spec_year(y as int),
{
    proof {
        reveal_strlit("-");
    }
    if y < 0 {
        let mut s = String::from_str("-");
        proof {
            assert(s@ =~= seq!['-']);
        }
        let p = pad4((-y) as u64);
        s.append(p.as_str());
        s
    } else {
        pad4(y as u64)
    }
}

/// Renders the bracketed timestamp `[YYYY-MM-DD HH:MM:SS.mmm]`.
pub fn format_stamp(t: &Timestamp) -> (r: String)
    requires
        t.wf(),
    ensures
        r@ == spec_stamp(*t),
{
    let mut s = String::from_str("[");
    let year = year_to_string(t.year);
    s.append(year.as_str());
    s.append("-");
    let month = pad2(t.month as u64);
    s.append(month.as_str());
    s.append("-");
    let day = pad2(t.day as u64);
    s.append(day.as_str());
    s.append(" ");
    let hour = pad2(t.hour as u64);
    s.append(hour.as_str());
    s.append(":");
    let minute = pad2(t.minute as u64);
    s.append(minute.as_str());
    s.append(":");
    let second = pad2(t.second as u64);
    s.append(second.as_str());
    s.append(".");
    let milli = pad3(t.milli as u64);
    s.append(milli.as_str());
    s.append("]");
    s
}

/// Renders one log line (without the newline): the timestamp, the level
/// name, the process id in decimal, the thread identifier, and the message.
pub fn format_log_line(
    t: &Timestamp,
    level: LogLevel,
    pid: u32,
    tid: &str,
    message: &str,
) -> (r: String)
    requires
        t.wf(),
    ensures
        r@ == spec_line(*t, level, pid as nat, tid@, message@),
{
    let mut s = format_stamp(t);
    s.append(" ");
    s.append(level.as_str());
    s.append(" PID:");
    let pid_str = u64_to_string(pid as u64);
    s.append(pid_str.as_str());
    s.append(" TID:");
    s.append(tid);
    s.append(" ");
    s.append(message);
    s
}

/// One log line stamped with the current local time: the clock reading that
/// was taken and the line rendered from it.
pub fn stamped_line(level: LogLevel, pid: u32, tid: &str, message: &str) -> (r: (
    Timestamp,
    String,
))
    ensures
        r.0.wf(),
        r.1@ == spec_line(r.0, level, pid as nat, tid@, message@),
{
    let t = now_local();
    let line = format_log_line(&t, level, pid, tid, message);
    (t, line)
}

} // verus!
