use vstd::prelude::*;
use vstd::string::StringExecFns;

verus! {

/// One reading of the local clock, as plain values.
pub struct LocalReading {
    /// The local date, time and offset, as text.
    pub timestamp: String,
    /// The ISO week of the year.
    pub iso_week: u32,
    /// The day of the week, counted from Monday as 0.
    pub weekday: u32,
}

impl LocalReading {
    pub open spec fn wf(&self) -> bool {
        1 <= self.iso_week <= 53 && self.weekday < 7
    }
}

/// Reads the local clock.
/// Relies on chrono: `Local::now` for the reading, `DateTime`'s `Display`
/// for the timestamp, `IsoWeek::week` (from 1 to 53) for the week and
/// `Weekday::num_days_from_monday` (from 0 to 6) for the day.
#[verifier::external_body]
fn read_local_clock() -> (r: LocalReading)
    ensures
        r.wf(),
{
    let now = chrono::Local::now();
    LocalReading {
        timestamp: now.to_string(),
        iso_week: chrono::Datelike::iso_week(&now).week(),
        weekday: chrono::Datelike::weekday(&now).num_days_from_monday(),
    }
}

/// The decimal digit `d`.
pub open spec fn digit_char(d: nat) -> char {
    if d == 0 {
        '0'
    } else if d == 1 {
        '1'
    } else if d == 2 {
        '2'
    } else if d == 3 {
        '3'
    } else if d == 4 {
        '4'
    } else if d == 5 {
        '5'
    } else if d == 6 {
        '6'
    } else if d == 7 {
        '7'
    } else if d == 8 {
        '8'
    } else {
        '9'
    }
}

/// `n` in decimal, without leading zeros.
pub open spec fn decimal(n: nat) -> Seq<char>
    decreases n,
{
    if n < 10 {
        seq![digit_char(n)]
    } else {
        decimal(n / 10) + seq![digit_char(n % 10)]
    }
}

fn digit_text(d: u32) -> (r: String)
    requires
        d < 10,
    ensures
        r@ == seq![digit_char(d as nat)],
{
    if d == 0 {
        proof { reveal_strlit("0"); }
        String::from_str("0")
    } else if d == 1 {
        proof { reveal_strlit("1"); }
        String::from_str("1")
    } else if d == 2 {
        proof { reveal_strlit("2"); }
        String::from_str("2")
    } else if d == 3 {
        proof { reveal_strlit("3"); }
        String::from_str("3")
    } else if d == 4 {
        proof { reveal_strlit("4"); }
        String::from_str("4")
    } else if d == 5 {
        proof { reveal_strlit("5"); }
        String::from_str("5")
    } else if d == 6 {
        proof { reveal_strlit("6"); }
        String::from_str("6")
    } else if d == 7 {
        proof { reveal_strlit("7"); }
        String::from_str("7")
    } else if d == 8 {
        proof { reveal_strlit("8"); }
        String::from_str("8")
    } else {
        proof { reveal_strlit("9"); }
        String::from_str("9")
    }
}

/// Writes `n` in decimal.
pub fn decimal_text(n: u32) -> (r: String)
    ensures
        r@ == decimal(n as nat),
    decreases n,
{
    if n < 10 {
        digit_text(n)
    } else {
        let head = decimal_text(n / 10);
        let last = digit_text(n % 10);
        head.concat(last.as_str())
    }
}

/// The English name of the day of the week `d`, counted from Monday as 0.
pub open spec fn weekday_name(d: nat) -> Seq<char> {
    if d == 0 {
        "Monday"@
    } else if d == 1 {
        "Tuesday"@
    } else if d == 2 {
        "Wednesday"@
    } else if d == 3 {
        "Thursday"@
    } else if d == 4 {
        "Friday"@
    } else if d == 5 {
        "Saturday"@
    } else {
        "Sunday"@
    }
}

/// Names the day of the week `d`, counted from Monday as 0.
pub fn weekday_text(d: u32) -> (r: String)
    requires
        d < 7,
    ensures
        r@ == weekday_name(d as nat),
{
    if d == 0 {
        String::from_str("Monday")
    } else if d == 1 {
        String::from_str("Tuesday")
    } else if d == 2 {
        String::from_str("Wednesday")
    } else if d == 3 {
        String::from_str("Thursday")
    } else if d == 4 {
        String::from_str("Friday")
    } else if d == 5 {
        String::from_str("Saturday")
    } else {
        String::from_str("Sunday")
    }
}

/// The three-line report of a clock reading.
pub open spec fn time_info(c: LocalReading) -> Seq<char> {
    "Current local time: "@ + c.timestamp@ + "\nWeek of the year: "@ + decimal(c.iso_week as nat)
        + "\nDay of the week: "@ + weekday_name(c.weekday as nat) + "\n"@
}

/// `text` is the report of some reading of the local clock.
pub open spec fn reports_time(text: Seq<char>) -> bool {
    exists|c: LocalReading| c.wf() && text == time_info(c)
}

/// Writes the report of a clock reading: the timestamp, the ISO week and the
/// name of the day, one per line.
pub fn time_info_text(c: &LocalReading) -> (r: String)
    requires
        c.wf(),
    ensures
        r@ == time_info(*c),
{
    let mut out = String::from_str("Current local time: ");
    out.append(c.timestamp.as_str());
    out.append("\nWeek of the year: ");
    let week = decimal_text(c.iso_week);
    out.append(week.as_str());
    out.append("\nDay of the week: ");
    let day = weekday_text(c.weekday);
    out.append(day.as_str());
    out.append("\n");
    out
}

/// Reads the local clock and writes its report.
pub fn get_current_time_info() -> (r: String)
    ensures
        reports_time(r@),
        r@.len() > 0,
{
    let c = read_local_clock();
    let r = time_info_text(&c);
    assert(c.wf() && r@ == time_info(c));
    proof {
        lemma_report_not_empty(c);
    }
    r
}

/// A report is never empty.
pub proof fn lemma_report_not_empty(c: LocalReading)
    ensures
        time_info(c).len() > 0,
{
    reveal_strlit("Current local time: ");
}

} // verus!
