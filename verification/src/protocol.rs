//! The control protocol between a client invocation and the running daemon:
//! single-word commands on the wire, and the one-line status report
//! `"<P> MM:SS"` — `W` for a work phase, `B` for either kind of break,
//! minutes and seconds zero-padded to two digits.

use vstd::prelude::*;

use crate::timer::TimerType;

verus! {

/// The commands the control channel accepts. `Resume` maps to starting the
/// current timer; `Abort` only tells an already-running daemon to exit.
#[derive(Copy, Clone, PartialEq, Eq, Structural, Debug)]
pub enum Command {
    Pause,
    Resume,
    Stop,
    Status,
    Next,
    Abort,
}

/// The wire word of each command.
pub open spec fn spec_command_word(c: Command) -> Seq<char> {
    match c {
        Command::Pause => "pause"@,
        Command::Resume => "resume"@,
        Command::Stop => "stop"@,
        Command::Status => "status"@,
        Command::Next => "next"@,
        Command::Abort => "abort"@,
    }
}

/// The word a client sends for `c`.
pub fn command_word(c: Command) -> (w: &'static str)
    ensures
        w@ == spec_command_word(c),
{
    match c {
        Command::Pause => "pause",
        Command::Resume => "resume",
        Command::Stop => "stop",
        Command::Status => "status",
        Command::Next => "next",
        Command::Abort => "abort",
    }
}

/// Character-for-character string equality.
fn str_eq(a: &str, b: &str) -> (r: bool)
    ensures
        r <==> a@ == b@,
{
    let a_len = a.unicode_len();
    let b_len = b.unicode_len();
    if a_len != b_len {
        return false;
    }
    let mut i: usize = 0;
    while i < a_len
        invariant
            a_len == a@.len(),
            a@.len() == b@.len(),
            i <= a_len,
            forall|j: int| 0 <= j < i ==> a@[j] == b@[j],
        decreases a_len - i,
    {
        if a.get_char(i) != b.get_char(i) {
            return false;
        }
        i = i + 1;
    }
    proof {
        assert(a@ =~= b@);
    }
    true
}

/// Recognize an incoming word: exactly the six command words parse, each to
/// its command; anything else is rejected.
pub fn parse_command(s: &str) -> (c: Option<Command>)
    ensures
        match c {
            Some(cmd) => s@ == spec_command_word(cmd),
            None => forall|cmd: Command| s@ != spec_command_word(cmd),
        },
{
    if str_eq(s, "pause") {
        Some(Command::Pause)
    } else if str_eq(s, "resume") {
        Some(Command::Resume)
    } else if str_eq(s, "stop") {
        Some(Command::Stop)
    } else if str_eq(s, "status") {
        Some(Command::Status)
    } else if str_eq(s, "next") {
        Some(Command::Next)
    } else if str_eq(s, "abort") {
        Some(Command::Abort)
    } else {
        proof {
            assert forall|cmd: Command| s@ != spec_command_word(cmd) by {
                match cmd {
                    Command::Pause => {},
                    Command::Resume => {},
                    Command::Stop => {},
                    Command::Status => {},
                    Command::Next => {},
                    Command::Abort => {},
                }
            }
        }
        None
    }
}

/// The character of a single decimal digit.
pub open spec fn spec_digit_char(d: u64) -> char
    recommends
        d < 10,
{
    if d == 0 {
        '0'
    } else if d == 1 {
        '1'
    } else if d == 2 {
        '2'
    } else if d == 3 {
        '3'
    } else if d == 4 {
        '4'
    } else if d == 5 {
        '5'
    } else if d == 6 {
        '6'
    } else if d == 7 {
        '7'
    } else if d == 8 {
        '8'
    } else {
        '9'
    }
}

/// The decimal digits of `n`, most significant first, no leading zero except
/// for zero itself.
pub open spec fn spec_decimal(n: u64) -> Seq<char>
    decreases n,
{
    if n < 10 {
        seq![spec_digit_char(n)]
    } else {
        spec_decimal((n / 10) as u64).push(spec_digit_char((n % 10) as u64))
    }
}

/// The decimal digits of `n`, zero-padded on the left to at least two.
pub open spec fn spec_pad2(n: u64) -> Seq<char> {
    if n < 10 {
        seq!['0'] + spec_decimal(n)
    } else {
        spec_decimal(n)
    }
}

/// The status line for a timer of kind `t` with `remaining_ms` milliseconds
/// left: the phase letter, a space, and whole minutes and leftover seconds
/// zero-padded to two digits each.
pub open spec fn spec_status_line(t: TimerType, remaining_ms: u64) -> Seq<char> {
    spec_status_prefix(t) + seq![' '] + spec_pad2((remaining_ms / 1000 / 60) as u64) + seq![':']
        + spec_pad2((remaining_ms / 1000 % 60) as u64)
}

/// The phase letter: `W` for work, `B` for either kind of break.
pub open spec fn spec_status_prefix(t: TimerType) -> Seq<char> {
    if t is Work {
        seq!['W']
    } else {
        seq!['B']
    }
}

/// The one-character string of a single decimal digit.
fn digit_str(d: u64) -> (s: &'static str)
    requires
        d < 10,
    ensures
        s@ == seq![spec_digit_char(d)],
{
    if d == 0 {
        proof {
            reveal_strlit("0");
            assert("0"@ =~= seq![spec_digit_char(0u64)]);
        }
        "0"
    } else if d == 1 {
        proof {
            reveal_strlit("1");
            assert("1"@ =~= seq![spec_digit_char(1u64)]);
        }
        "1"
    } else if d == 2 {
        proof {
            reveal_strlit("2");
            assert("2"@ =~= seq![spec_digit_char(2u64)]);
        }
        "2"
    } else if d == 3 {
        proof {
            reveal_strlit("3");
            assert("3"@ =~= seq![spec_digit_char(3u64)]);
        }
        "3"
    } else if d == 4 {
        proof {
            reveal_strlit("4");
            assert("4"@ =~= seq![spec_digit_char(4u64)]);
        }
        "4"
    } else if d == 5 {
        proof {
            reveal_strlit("5");
            assert("5"@ =~= seq![spec_digit_char(5u64)]);
        }
        "5"
    } else if d == 6 {
        proof {
            reveal_strlit("6");
            assert("6"@ =~= seq![spec_digit_char(6u64)]);
        }
        "6"
    } else if d == 7 {
        proof {
            reveal_strlit("7");
            assert("7"@ =~= seq![spec_digit_char(7u64)]);
        }
        "7"
    } else if d == 8 {
        proof {
            reveal_strlit("8");
            assert("8"@ =~= seq![spec_digit_char(8u64)]);
        }
        "8"
    } else {
        proof {
            reveal_strlit("9");
            assert("9"@ =~= seq![spec_digit_char(9u64)]);
        }
        "9"
    }
}

/// The decimal digits of `n`, as a string.
pub fn decimal_string(n: u64) -> (s: String)
    ensures
        s@ == spec_decimal(n),
    decreases n,
{
    if n < 10 {
        String::from_str(digit_str(n))
    } else {
        let mut s = decimal_string(n / 10);
        s.append(digit_str(n % 10));
        proof {
            assert(spec_decimal(n / 10).push(spec_digit_char(n % 10)) =~= spec_decimal(n / 10)
                + seq![spec_digit_char(n % 10)]);
        }
        s
    }
}

/// The decimal digits of `n`, zero-padded on the left to at least two.
fn pad2_string(n: u64) -> (s: String)
    ensures
        s@ == spec_pad2(n),
{
    if n < 10 {
        let mut s = String::from_str("0");
        s.append(digit_str(n));
        proof {
            reveal_strlit("0");
            assert("0"@ + seq![spec_digit_char(n)] =~= seq!['0'] + spec_decimal(n));
        }
        s
    } else {
        decimal_string(n)
    }
}

/// The status line sent back for a `status` command: the phase letter, a
/// space, and the time left as zero-padded minutes and seconds.
pub fn format_status(timer_type: TimerType, remaining_ms: u64) -> (s: String)
    ensures
        s@ == spec_status_line(timer_type, remaining_ms),
{
    let secs = remaining_ms / 1000;
    let minutes = secs / 60;
    let seconds = secs % 60;
    let mut s = match timer_type {
        TimerType::Work => {
            proof {
                reveal_strlit("W ");
                assert("W "@ =~= spec_status_prefix(TimerType::Work) + seq![' ']);
            }
            String::from_str("W ")
        },
        _ => {
            proof {
                reveal_strlit("B ");
            }
            String::from_str("B ")
        },
    };
    proof {
        assert(!(timer_type is Work) ==> "B "@ =~= spec_status_prefix(timer_type) + seq![' ']);
    }
    let mm = pad2_string(minutes);
    s.append(mm.as_str());
    s.append(":");
    let ss = pad2_string(seconds);
    s.append(ss.as_str());
    proof {
        reveal_strlit(":");
        assert(":"@ =~= seq![':']);
        assert(s@ =~= spec_status_line(timer_type, remaining_ms));
    }
    s
}

} // verus!
