use vstd::prelude::*;

verus! {

/// A local wall-clock time, as the parts a file name shows.
#[derive(Clone, Copy, Debug, PartialEq, Eq, Structural)]
pub struct Timestamp {
    pub year: u32,
    pub month: u32,
    pub day: u32,
    pub hour: u32,
    pub minute: u32,
    pub second: u32,
}

/// Whether `year` is a leap year of the Gregorian calendar.
pub open spec fn is_leap_year(year: int) -> bool {
    (year % 4 == 0 && year % 100 != 0) || year % 400 == 0
}

/// The number of days of `month` (1 to 12) in `year`.
pub open spec fn days_in_month(year: int, month: int) -> int {
    if month == 2 {
        if is_leap_year(year) {
            29
        } else {
            28
        }
    } else if month == 4 || month == 6 || month == 9 || month == 11 {
        30
    } else {
        31
    }
}

impl Timestamp {
    /// A real date of the years 0 to 9999 and a time of day.
    pub open spec fn wf(&self) -> bool {
        self.year <= 9999 && 1 <= self.month <= 12 && 1 <= self.day <= days_in_month(
            self.year as int,
            self.month as int,
        ) && self.hour <= 23 && self.minute <= 59 && self.second <= 59
    }

    /// Whether the timestamp is well formed.
    pub fn is_valid(&self) -> (r: bool)
        ensures
            r == self.wf(),
    {
        if self.year > 9999 || self.month < 1 || self.month > 12 || self.day < 1 || self.hour > 23
            || self.minute > 59 || self.second > 59 {
            return false;
        }
        let leap = (self.year % 4 == 0 && self.year % 100 != 0) || self.year % 400 == 0;
        let days: u32 = if self.month == 2 {
            if leap {
                29
            } else {
                28
            }
        } else if self.month == 4 || self.month == 6 || self.month == 9 || self.month == 11 {
            30
        } else {
            31
        };
        self.day <= days
    }
}

/// The decimal digit of `d`.
pub open spec fn digit_char(d: nat) -> char {
    if d == 0 {
        '0'
    } else if d == 1 {
        '1'
    } else if d == 2 {
        '2'
    } else if d == 3 {
        '3'
    } else if d == 4 {
        '4'
    } else if d == 5 {
        '5'
    } else if d == 6 {
        '6'
    } else if d == 7 {
        '7'
    } else if d == 8 {
        '8'
    } else {
        '9'
    }
}

/// `n` written in decimal, without leading zeros.
pub open spec fn decimal(n: nat) -> Seq<char>
    decreases n,
{
    if n < 10 {
        seq![digit_char(n)]
    } else {
        decimal(n / 10) + seq![digit_char(n % 10)]
    }
}

/// `k` zeros.
pub open spec fn zeros(k: nat) -> Seq<char>
    decreases k,
{
    if k == 0 {
        Seq::empty()
    } else {
        zeros((k - 1) as nat).push('0')
    }
}

/// `n` in decimal, padded with zeros on the left to `w` characters.
pub open spec fn padded(n: nat, w: nat) -> Seq<char> {
    if decimal(n).len() >= w {
        decimal(n)
    } else {
        zeros((w - decimal(n).len()) as nat) + decimal(n)
    }
}

/// `n` in decimal with a leading minus sign when it is negative.
pub open spec fn signed_decimal(n: int) -> Seq<char> {
    if n < 0 {
        seq!['-'] + decimal((-n) as nat)
    } else {
        decimal(n as nat)
    }
}

/// `t` as `YYYYMMDD_HHMMSS`.
pub open spec fn stamp_text(t: Timestamp) -> Seq<char> {
    padded(t.year as nat, 4) + padded(t.month as nat, 2) + padded(t.day as nat, 2) + seq!['_']
        + padded(t.hour as nat, 2) + padded(t.minute as nat, 2) + padded(t.second as nat, 2)
}

fn digit_str(d: u64) -> (r: &'static str)
    requires
        d < 10,
    ensures
        r@ == seq![digit_char(d as nat)],
{
    proof {
        reveal_strlit("0");
        reveal_strlit("1");
        reveal_strlit("2");
        reveal_strlit("3");
        reveal_strlit("4");
        reveal_strlit("5");
        reveal_strlit("6");
        reveal_strlit("7");
        reveal_strlit("8");
        reveal_strlit("9");
    }
    let r = if d == 0 {
        "0"
    } else if d == 1 {
        "1"
    } else if d == 2 {
        "2"
    } else if d == 3 {
        "3"
    } else if d == 4 {
        "4"
    } else if d == 5 {
        "5"
    } else if d == 6 {
        "6"
    } else if d == 7 {
        "7"
    } else if d == 8 {
        "8"
    } else {
        "9"
    };
    assert(r@ =~= seq![digit_char(d as nat)]);
    r
}

fn push_decimal(out: &mut String, n: u64)
    ensures
        final(out)@ == old(out)@ + decimal(n as nat),
    decreases n,
{
    if n >= 10 {
        push_decimal(out, n / 10);
    }
    out.append(digit_str(n % 10));
    proof {
        if n >= 10 {
            assert(out@ =~= old(out)@ + decimal(n as nat));
        }
    }
}

/// Relies on chrono's `NaiveDate::from_ymd_opt`, `NaiveDate::and_hms_opt`
/// and `NaiveDateTime::format` with `%Y%m%d_%H%M%S`: a valid date and time
/// is accepted, and the year (0 to 9999) is written zero-padded to four
/// digits, every other part to two.
#[verifier::external_body]
fn format_stamp(t: &Timestamp) -> (r: String)
    requires
        t.wf(),
    ensures
        r@ == stamp_text(*t),
{
    let date = chrono::NaiveDate::from_ymd_opt(t.year as i32, t.month, t.day).unwrap();
    let time = date.and_hms_opt(t.hour, t.minute, t.second).unwrap();
    time.format("%Y%m%d_%H%M%S").to_string()
}

/// The name under which code sent at `t` by user `user_id` is archived:
/// `YYYYMMDD_HHMMSS_<user_id>.<ext>`.
pub fn archive_file_name(t: &Timestamp, user_id: i64, ext: &str) -> (r: String)
    requires
        t.wf(),
    ensures
        r@ == stamp_text(*t) + seq!['_'] + signed_decimal(user_id as int) + seq!['.'] + ext@,
{
    let mut r = format_stamp(t);
    r.append("_");
    if user_id < 0 {
        r.append("-");
        let m: u64 = if user_id == i64::MIN {
            9223372036854775808u64
        } else {
            (-user_id) as u64
        };
        push_decimal(&mut r, m);
    } else {
        push_decimal(&mut r, user_id as u64);
    }
    r.append(".");
    r.append(ext);
    proof {
        reveal_strlit("_");
        reveal_strlit("-");
        reveal_strlit(".");
        assert(r@ =~= stamp_text(*t) + seq!['_'] + signed_decimal(user_id as int) + seq!['.']
            + ext@);
    }
    r
}

} // verus!
