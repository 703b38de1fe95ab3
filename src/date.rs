use vstd::prelude::*;

verus! {

/// The earliest and latest years a date of the clock can carry.
pub const MIN_YEAR: i32 = -262144;
pub const MAX_YEAR: i32 = 262143;

/// A calendar date: year, month (1 to 12) and day of the month.
#[derive(Debug, Clone, Copy, PartialEq, Eq, Structural)]
pub struct CivilDate {
    pub year: i32,
    pub month: u32,
    pub day: u32,
}

pub open spec fn is_leap(y: int) -> bool {
    (y % 4 == 0 && y % 100 != 0) || y % 400 == 0
}

pub open spec fn days_in_month(y: int, m: int) -> int {
    if m == 2 {
        if is_leap(y) { 29 } else { 28 }
    } else if m == 4 || m == 6 || m == 9 || m == 11 {
        30
    } else {
        31
    }
}

impl CivilDate {
    /// The date names a day of the calendar.
    pub open spec fn wf(self) -> bool {
        &&& MIN_YEAR <= self.year <= MAX_YEAR
        &&& 1 <= self.month <= 12
        &&& 1 <= self.day <= days_in_month(self.year as int, self.month as int)
    }

    /// The date of year `y`, month `m`, day `d`, if that day exists.
    pub fn new(year: i32, month: u32, day: u32) -> (r: Option<CivilDate>)
        ensures
            r is Some <==> (CivilDate { year, month, day }).wf(),
            r is Some ==> r->0 == (CivilDate { year, month, day }),
    {
        if year < MIN_YEAR || year > MAX_YEAR || month < 1 || month > 12 || day < 1 {
            return None;
        }
        let leap = (year % 4 == 0 && year % 100 != 0) || year % 400 == 0;
        let len: u32 = if month == 2 {
            if leap { 29 } else { 28 }
        } else if month == 4 || month == 6 || month == 9 || month == 11 {
            30
        } else {
            31
        };
        if day > len {
            None
        } else {
            Some(CivilDate { year, month, day })
        }
    }
}

/// The character of a decimal digit.
pub open spec fn digit_char(d: int) -> char {
    if d == 0 { '0' }
    else if d == 1 { '1' }
    else if d == 2 { '2' }
    else if d == 3 { '3' }
    else if d == 4 { '4' }
    else if d == 5 { '5' }
    else if d == 6 { '6' }
    else if d == 7 { '7' }
    else if d == 8 { '8' }
    else { '9' }
}

/// The decimal digits of `n`, at least `width` of them, with leading zeros.
pub open spec fn padded(n: nat, width: nat) -> Seq<char>
    decreases n + width,
{
    if n < 10 && width <= 1 {
        seq![digit_char(n as int)]
    } else {
        padded(n / 10, if width == 0 { 0 } else { (width - 1) as nat }).push(digit_char(n as int % 10))
    }
}

/// A year as a calendar writes it: four digits from 0 to 9999, else a sign and at least four digits.
pub open spec fn year_text(y: int) -> Seq<char> {
    if 0 <= y <= 9999 {
        padded(y as nat, 4)
    } else if y < 0 {
        seq!['-'] + padded((-y) as nat, 4)
    } else {
        seq!['+'] + padded(y as nat, 4)
    }
}

/// The sortable form of a date, `YYYY-MM-DD`.
pub open spec fn iso_text(d: CivilDate) -> Seq<char> {
    year_text(d.year as int) + seq!['-'] + padded(d.month as nat, 2) + seq!['-'] + padded(
        d.day as nat,
        2,
    )
}

/// The display form of a date, `DD.MM.YYYY`.
pub open spec fn display_text(d: CivilDate) -> Seq<char> {
    padded(d.day as nat, 2) + seq!['.'] + padded(d.month as nat, 2) + seq!['.'] + year_text(
        d.year as int,
    )
}

fn digit_str(d: u64) -> (r: &'static str)
    requires
        d < 10,
    ensures
        r@ == seq![digit_char(d as int)],
{
    proof {
        reveal_strlit("0");
        reveal_strlit("1");
        reveal_strlit("2");
        reveal_strlit("3");
        reveal_strlit("4");
        reveal_strlit("5");
        reveal_strlit("6");
        reveal_strlit("7");
        reveal_strlit("8");
        reveal_strlit("9");
    }
    let r = if d == 0 { "0" }
    else if d == 1 { "1" }
    else if d == 2 { "2" }
    else if d == 3 { "3" }
    else if d == 4 { "4" }
    else if d == 5 { "5" }
    else if d == 6 { "6" }
    else if d == 7 { "7" }
    else if d == 8 { "8" }
    else { "9" };
    assert(r@ =~= seq![digit_char(d as int)]);
    r
}

/// The decimal digits of `n`, at least `width` of them, with leading zeros.
pub fn write_padded(n: u64, width: u64) -> (r: String)
    ensures
        r@ == padded(n as nat, width as nat),
    decreases n + width,
{
    if n < 10 && width <= 1 {
        String::from_str(digit_str(n))
    } else {
        let w: u64 = if width == 0 { 0 } else { width - 1 };
        let front = write_padded(n / 10, w);
        let r = front.concat(digit_str(n % 10));
        assert(r@ =~= padded(n as nat, width as nat));
        r
    }
}

/// A year as a calendar writes it.
pub fn write_year(y: i32) -> (r: String)
    requires
        MIN_YEAR <= y <= MAX_YEAR,
    ensures
        r@ == year_text(y as int),
{
    proof {
        reveal_strlit("-");
        reveal_strlit("+");
    }
    if 0 <= y && y <= 9999 {
        write_padded(y as u64, 4)
    } else if y < 0 {
        let digits = write_padded((-y) as u64, 4);
        let r = String::from_str("-").concat(digits.as_str());
        assert(r@ =~= year_text(y as int));
        r
    } else {
        let digits = write_padded(y as u64, 4);
        let r = String::from_str("+").concat(digits.as_str());
        assert(r@ =~= year_text(y as int));
        r
    }
}

impl CivilDate {
    /// The sortable form, `YYYY-MM-DD`, used in file names.
    pub fn iso(&self) -> (r: String)
        requires
            self.wf(),
        ensures
            r@ == iso_text(*self),
    {
        proof {
            reveal_strlit("-");
        }
        let r = write_year(self.year).concat("-").concat(write_padded(self.month as u64, 2).as_str()).concat(
            "-",
        ).concat(write_padded(self.day as u64, 2).as_str());
        assert(r@ =~= iso_text(*self));
        r
    }

    /// The display form, `DD.MM.YYYY`, used in the letter's date line.
    pub fn display(&self) -> (r: String)
        requires
            self.wf(),
        ensures
            r@ == display_text(*self),
    {
        proof {
            reveal_strlit(".");
        }
        let r = write_padded(self.day as u64, 2).concat(".").concat(write_padded(self.month as u64, 2).as_str()).concat(
            ".",
        ).concat(write_year(self.year).as_str());
        assert(r@ =~= display_text(*self));
        r
    }
}

/// Relies on chrono::Local::now, DateTime::date_naive and chrono's Datelike accessors: today's
/// date in the local time zone. A NaiveDate is always a day of the calendar, and it packs its
/// year into the upper 19 bits of an i32, so the year lies between -262144 and 262143.
#[verifier::external_body]
pub(crate) fn today() -> (r: CivilDate)
    ensures
        r.wf(),
{
    let d = chrono::Local::now().date_naive();
    CivilDate {
        year: chrono::Datelike::year(&d),
        month: chrono::Datelike::month(&d),
        day: chrono::Datelike::day(&d),
    }
}

} // verus!
