use vstd::prelude::*;
use vstd::string::*;
use chrono::Timelike;

verus! {

/// The number of seconds in one day.
pub const SECONDS_PER_DAY: u32 = 86400;

/// A wall-clock time of day, to the second.
#[derive(Clone, Copy, Debug, PartialEq, Eq, Structural)]
pub struct ClockTime {
    pub hour: u8,
    pub minute: u8,
    pub second: u8,
}

/// The decimal digit character for `d` (which is below ten).
pub open spec fn digit_char(d: nat) -> char {
    (48 + d) as char
}

/// `n` (below one hundred) written with exactly two decimal digits.
pub open spec fn two_digits(n: nat) -> Seq<char> {
    seq![digit_char(n / 10), digit_char(n % 10)]
}

impl ClockTime {
    pub open spec fn wf(self) -> bool {
        self.hour < 24 && self.minute < 60 && self.second < 60
    }

    /// The `HH:MM:SS` text of this time.
    pub open spec fn hms(self) -> Seq<char> {
        two_digits(self.hour as nat) + seq![':'] + two_digits(self.minute as nat) + seq![':']
            + two_digits(self.second as nat)
    }

    /// The time that lies `secs` seconds after midnight.
    pub fn from_seconds(secs: u32) -> (r: ClockTime)
        requires
            secs < SECONDS_PER_DAY,
        ensures
            r.wf(),
            r.hour as nat * 3600 + r.minute as nat * 60 + r.second as nat == secs as nat,
    {
        let h = secs / 3600;
        let rest = secs % 3600;
        let m = rest / 60;
        let s = rest % 60;
        ClockTime { hour: h as u8, minute: m as u8, second: s as u8 }
    }

    /// The time of day now, on the local clock.
    pub fn now() -> (r: ClockTime)
        ensures
            r.wf(),
    {
        let secs = local_seconds_from_midnight();
        ClockTime::from_seconds(secs)
    }

    /// Formats the time as `HH:MM:SS`, each field with two digits.
    pub fn to_hms(&self) -> (r: String)
        requires
            self.wf(),
        ensures
            r@ == self.hms(),
    {
        let mut out = two_digit_text(self.hour);
        out.append(":");
        let mm = two_digit_text(self.minute);
        out.append(mm.as_str());
        out.append(":");
        let ss = two_digit_text(self.second);
        out.append(ss.as_str());
        proof {
            reveal_strlit(":");
        }
        out
    }
}

/// Relies on chrono's `Local::now` and `Timelike::num_seconds_from_midnight`:
/// the local time of day as non-leap seconds past midnight, documented to lie
/// in 0-86399.
#[verifier::external_body]
fn local_seconds_from_midnight() -> (r: u32)
    ensures
        r < SECONDS_PER_DAY,
{
    chrono::Local::now().num_seconds_from_midnight()
}

fn digit_text(d: u8) -> (r: &'static str)
    requires
        d < 10,
    ensures
        r@ == seq![digit_char(d as nat)],
{
    proof {
        reveal_strlit("0");
        reveal_strlit("1");
        reveal_strlit("2");
        reveal_strlit("3");
        reveal_strlit("4");
        reveal_strlit("5");
        reveal_strlit("6");
        reveal_strlit("7");
        reveal_strlit("8");
        reveal_strlit("9");
    }
    match d {
        0 => "0",
        1 => "1",
        2 => "2",
        3 => "3",
        4 => "4",
        5 => "5",
        6 => "6",
        7 => "7",
        8 => "8",
        _ => "9",
    }
}

fn two_digit_text(n: u8) -> (r: String)
    requires
        n < 100,
    ensures
        r@ == two_digits(n as nat),
{
    let mut out = String::from_str(digit_text(n / 10));
    out.append(digit_text(n % 10));
    out
}

} // verus!
