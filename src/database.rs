use crate::schemas::{GeneralSchema, TypeT};
use vstd::prelude::*;

verus! {

/// One stored record awaiting classification.
#[derive(Debug)]
pub struct ToEval {
    pub id: String,
    pub descr: String,
    pub eval: TypeT,
}

/// What a record awaiting classification holds.
pub struct ToEvalView {
    pub id: Seq<char>,
    pub descr: Seq<char>,
    pub eval: TypeT,
}

impl View for ToEval {
    type V = ToEvalView;

    open spec fn view(&self) -> ToEvalView {
        ToEvalView { id: self.id@, descr: self.descr@, eval: self.eval }
    }
}

impl ToEval {
    /// A record that has not been classified yet.
    pub fn new(a_id: String, a_descr: String) -> (r: ToEval)
        ensures
            r.id@ == a_id@,
            r.descr@ == a_descr@,
            r.eval == TypeT::NoEval,
    {
        ToEval { id: a_id, descr: a_descr, eval: TypeT::NoEval }
    }
}

/// The text of an optional value, empty where there is none.
pub fn option_to_string(opt: Option<String>) -> (r: String)
    ensures
        r@ == match opt {
            Some(s) => s@,
            None => Seq::<char>::empty(),
        },
{
    match opt {
        Some(s) => s,
        None => String::new(),
    }
}

/// The description of an item: its first description, a space, and its
/// second description where there is one.
pub open spec fn description_text(first: Seq<char>, second: Option<Seq<char>>) -> Seq<char> {
    first + " "@ + match second {
        Some(s) => s,
        None => Seq::empty(),
    }
}

/// The text of an optional string.
pub open spec fn opt_text(o: Option<String>) -> Option<Seq<char>> {
    match o {
        Some(s) => Some(s@),
        None => None,
    }
}

/// Joins the two descriptions of an item into the text it is classified by.
pub fn item_description(first: &String, second: &Option<String>) -> (r: String)
    ensures
        r@ == description_text(first@, opt_text(*second)),
{
    let mut out = first.clone();
    out.append(" ");
    match second {
        Some(s) => out.append(s.as_str()),
        None => {},
    }
    out
}

/// A labelled example kept in the vector store.
#[derive(Clone, Debug, Default)]
pub struct VecItem {
    pub description: String,
    pub eval: String,
}

impl VecItem {
    /// The example that a classified record gives: its description and its
    /// category. A record without a first description or an evaluation gives
    /// none.
    pub fn from_schema(a_schema: &GeneralSchema) -> (r: Option<VecItem>)
        ensures
            match (a_schema.product_description_1, a_schema.eval) {
                (Some(first), Some(eval)) => r matches Some(item) && item.description@
                    == description_text(first@, opt_text(a_schema.product_description_2))
                    && item.eval@ == eval@,
                _ => r is None,
            },
    {
        match (&a_schema.product_description_1, &a_schema.eval) {
            (Some(first), Some(eval)) => Some(
                VecItem {
                    description: item_description(first, &a_schema.product_description_2),
                    eval: eval.clone(),
                },
            ),
            _ => None,
        }
    }
}

/// A calendar date.
#[derive(Clone, Copy, Debug, PartialEq, Eq, Structural)]
pub struct Date {
    pub year: i32,
    pub month: u32,
    pub day: u32,
}

/// Year, month and day of a date.
pub open spec fn ymd(d: Date) -> (int, int, int) {
    (d.year as int, d.month as int, d.day as int)
}

/// Month and day lie in their calendar ranges.
pub open spec fn date_in_range(d: Date) -> bool {
    1 <= d.month <= 12 && 1 <= d.day <= 31
}

/// `a` falls strictly before `b`.
pub open spec fn before(a: (int, int, int), b: (int, int, int)) -> bool {
    a.0 < b.0 || (a.0 == b.0 && (a.1 < b.1 || (a.1 == b.1 && a.2 < b.2)))
}

impl Date {
    /// Whether this date falls strictly after `other`.
    pub fn is_after(&self, other: &Date) -> (r: bool)
        ensures
            r == before(ymd(*other), ymd(*self)),
    {
        self.year > other.year || (self.year == other.year && (self.month > other.month || (
        self.month == other.month && self.day > other.day)))
    }
}

/// The date that `s` gives when read in the `strftime` format `fmt`.
pub uninterp spec fn date_in_format(s: Seq<char>, fmt: Seq<char>) -> Option<(int, int, int)>;

/// Relies on chrono's `NaiveDate::parse_from_str`, which reads a date from
/// a text in a given format or fails, and on `Datelike`'s accessors, whose
/// month lies in 1..=12 and day in 1..=31.
#[verifier::external_body]
fn parse_in_format(s: &str, fmt: &str) -> (r: Option<Date>)
    ensures
        match r {
            Some(d) => date_in_format(s@, fmt@) == Some(ymd(d)) && date_in_range(d),
            None => date_in_format(s@, fmt@) is None,
        },
{
    match chrono::NaiveDate::parse_from_str(s, fmt) {
        Ok(d) => Some(
            Date {
                year: chrono::Datelike::year(&d),
                month: chrono::Datelike::month(&d),
                day: chrono::Datelike::day(&d),
            },
        ),
        Err(_) => None,
    }
}

/// The calendar date, in UTC, of the instant `secs` seconds after the Unix
/// epoch, where chrono can represent it.
pub uninterp spec fn date_of_timestamp(secs: int) -> Option<(int, int, int)>;

/// Relies on chrono's `DateTime::from_timestamp`, which gives the UTC instant
/// of a Unix timestamp or `None` when it is out of range, and on the date of
/// that instant.
#[verifier::external_body]
fn timestamp_date(secs: i64) -> (r: Option<Date>)
    ensures
        match r {
            Some(d) => date_of_timestamp(secs as int) == Some(ymd(d)) && date_in_range(d),
            None => date_of_timestamp(secs as int) is None,
        },
{
    match chrono::DateTime::from_timestamp(secs, 0) {
        Some(t) => {
            let d = t.naive_local().date();
            Some(
                Date {
                    year: chrono::Datelike::year(&d),
                    month: chrono::Datelike::month(&d),
                    day: chrono::Datelike::day(&d),
                },
            )
        },
        None => None,
    }
}

pub open spec fn is_digit(c: char) -> bool {
    '0' <= c <= '9'
}

pub open spec fn all_digits(d: Seq<char>) -> bool {
    forall|i: int| 0 <= i < d.len() ==> is_digit(#[trigger] d[i])
}

/// The value of a run of decimal digits.
pub open spec fn digits_value(d: Seq<char>) -> int
    decreases d.len(),
{
    if d.len() == 0 {
        0
    } else {
        digits_value(d.drop_last()) * 10 + (d.last() as int - '0' as int)
    }
}

/// The integer that a decimal text names: an optional sign followed by at
/// least one digit, and nothing else.
pub open spec fn integer_text(s: Seq<char>) -> Option<int> {
    if s.len() > 0 && (s[0] == '-' || s[0] == '+') {
        let d = s.drop_first();
        if d.len() > 0 && all_digits(d) {
            Some(
                if s[0] == '-' {
                    -digits_value(d)
                } else {
                    digits_value(d)
                },
            )
        } else {
            None
        }
    } else if s.len() > 0 && all_digits(s) {
        Some(digits_value(s))
    } else {
        None
    }
}

/// The `i64` that a decimal text names, where it is in range.
pub open spec fn i64_text(s: Seq<char>) -> Option<int> {
    match integer_text(s) {
        Some(v) => if i64::MIN <= v <= i64::MAX {
            Some(v)
        } else {
            None
        },
        None => None,
    }
}

/// Relies on `str::parse::<i64>`: an optional `+` or `-` followed by decimal
/// digits only, whose value fits in an `i64`; anything else is an error.
#[verifier::external_body]
fn parse_i64(s: &str) -> (r: Option<i64>)
    ensures
        match r {
            Some(v) => i64_text(s@) == Some(v as int),
            None => i64_text(s@) is None,
        },
{
    s.parse::<i64>().ok()
}

/// The date a text gives: the first of the accepted formats that reads it,
/// else the date of the Unix timestamp it names.
pub open spec fn date_of_text(s: Seq<char>) -> Option<(int, int, int)> {
    if date_in_format(s, "%Y-%m-%d"@) is Some {
        date_in_format(s, "%Y-%m-%d"@)
    } else if date_in_format(s, "%m/%d/%Y"@) is Some {
        date_in_format(s, "%m/%d/%Y"@)
    } else if date_in_format(s, "%Y/%m/%d"@) is Some {
        date_in_format(s, "%Y/%m/%d"@)
    } else if date_in_format(s, "%d.%m.%Y"@) is Some {
        date_in_format(s, "%d.%m.%Y"@)
    } else if date_in_format(s, "%d-%m-%Y"@) is Some {
        date_in_format(s, "%d-%m-%Y"@)
    } else {
        match i64_text(s) {
            Some(v) => date_of_timestamp(v),
            None => None,
        }
    }
}

/// Reads a date in one of the accepted formats, tried in turn
/// (`2024-05-01`, `05/01/2024`, `2024/05/01`, `01.05.2024`, `01-05-2024`),
/// or as a Unix timestamp.
pub fn parse_date(date_str: &str) -> (r: Option<Date>)
    ensures
        match r {
            Some(d) => date_of_text(date_str@) == Some(ymd(d)) && date_in_range(d),
            None => date_of_text(date_str@) is None,
        },
{
    if let Some(d) = parse_in_format(date_str, "%Y-%m-%d") {
        return Some(d);
    }
    if let Some(d) = parse_in_format(date_str, "%m/%d/%Y") {
        return Some(d);
    }
    if let Some(d) = parse_in_format(date_str, "%Y/%m/%d") {
        return Some(d);
    }
    if let Some(d) = parse_in_format(date_str, "%d.%m.%Y") {
        return Some(d);
    }
    if let Some(d) = parse_in_format(date_str, "%d-%m-%Y") {
        return Some(d);
    }
    match parse_i64(date_str) {
        Some(secs) => timestamp_date(secs),
        None => None,
    }
}

/// The date of an optional field: none where the field is missing or empty.
pub fn parse_optional_date(field: &Option<String>) -> (r: Option<Date>)
    ensures
        match opt_text(*field) {
            Some(s) => if s.len() == 0 {
                r is None
            } else {
                match r {
                    Some(d) => date_of_text(s) == Some(ymd(d)),
                    None => date_of_text(s) is None,
                }
            },
            None => r is None,
        },
{
    match field {
        Some(s) => {
            if s.as_str().unicode_len() == 0 {
                None
            } else {
                parse_date(s.as_str())
            }
        },
        None => None,
    }
}

/// The date from which records count as new when the store holds none yet.
pub open spec fn first_load_date() -> Date {
    Date { year: 2000, month: 1, day: 1 }
}

/// The date after which read records are new: the latest stored one, or the
/// first of January 2000 for an empty store.
pub fn load_threshold(latest: Option<Date>) -> (r: Date)
    ensures
        r == match latest {
            Some(d) => d,
            None => first_load_date(),
        },
{
    match latest {
        Some(d) => d,
        None => Date { year: 2000, month: 1, day: 1 },
    }
}

/// Whether a read record is newer than what the store holds: its effective
/// date reads as a date after `threshold`. A record without a readable date
/// is not new.
pub fn is_new_record(row: &GeneralSchema, threshold: &Date) -> (r: bool)
    ensures
        r == match opt_text(row.effective_date) {
            Some(s) => match date_of_text(s) {
                Some(d) => before(ymd(*threshold), d),
                None => false,
            },
            None => false,
        },
{
    match &row.effective_date {
        Some(s) => match parse_date(s.as_str()) {
            Some(d) => d.is_after(threshold),
            None => false,
        },
        None => false,
    }
}

/// Whether a read record is a labelled example: it carries an evaluation
/// other than `NoEval`.
pub fn is_known_example(row: &GeneralSchema) -> (r: bool)
    ensures
        r == match opt_text(row.eval) {
            Some(e) => e != crate::schemas::name_of(TypeT::NoEval),
            None => false,
        },
{
    match &row.eval {
        Some(e) => !crate::text::same_text(e.as_str(), TypeT::NoEval.name()),
        None => false,
    }
}

} // verus!
