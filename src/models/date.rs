//! The `Date` struct.
use vstd::prelude::*;

use crate::json::{Json, absent, field, fits_int, get, i32_field, i32_of, int_fits, member_or_null, object_of, object_or_null, u32_field, u32_of};
use crate::error::Error;

use chrono::Datelike;
use crate::text::{decimal, int_text, padded_text, replace_text, replaced, zero_padded};

verus! {

/// A calendar date in which any part may be unknown.
#[derive(Debug, Clone, Copy, PartialEq, Eq, Default, Structural)]
pub struct Date {
    /// The year.
    pub year: Option<i32>,
    /// The month, `1..=12`.
    pub month: Option<u32>,
    /// The day of the month.
    pub day: Option<u32>,
}

impl Date {
    /// Whether the decoded fields of this date are what the object `j` gives;
    /// an absent or `null` member leaves its field unset or empty.
    pub open spec fn matches_json(self, j: Json) -> bool {
        &&& self.year == i32_of(field(j, "year"@))
        &&& self.month == u32_of(field(j, "month"@))
        &&& self.day == u32_of(field(j, "day"@))
    }

    /// Whether `j` has the shape of a date: an object or `null` whose members
    /// are each absent, `null` or of their expected type.
    pub open spec fn well_typed(j: Json) -> bool {
        &&& object_or_null(j)
        &&& fits_int(field(j, "year"@), i32::MIN as int, i32::MAX as int)
        &&& fits_int(field(j, "month"@), 0 as int, 4294967295 as int)
        &&& fits_int(field(j, "day"@), 0 as int, 4294967295 as int)
    }

    /// Whether a member is absent, or has the shape of a date.
    pub open spec fn fits(v: Option<Json>) -> bool {
        match v {
            None => true,
            Some(x) => Date::well_typed(x),
        }
    }

    /// Whether an array item is a date object.
    pub open spec fn item_ok(j: Json) -> bool {
        j is Object && Date::well_typed(j)
    }

    /// Whether a member is absent, `null`, or an array of date objects.
    pub open spec fn fits_list(v: Option<Json>) -> bool {
        ||| absent(v)
        ||| (v matches Some(Json::Array(items)) && forall|i: int|
            0 <= i < items@.len() ==> Date::item_ok(#[trigger] items@[i]))
    }

    /// Decodes a date object; a member of the wrong type is a `DecodeError`.
    pub fn from_json(j: &Json) -> (r: Result<Date, Error>)
        ensures
            r is Ok <==> Date::well_typed(*j),
            r matches Ok(x) ==> x.matches_json(*j),
            r matches Err(e) ==> e is DecodeError,
    {
        match j {
            Json::Object(_) => {},
            Json::Null => {},
            _ => return Err(Error::DecodeError("object".to_string())),
        }
        if !int_fits(j, "year", i32::MIN as i128, i32::MAX as i128) {
            return Err(Error::DecodeError("year".to_string()));
        }
        let f_year = i32_field(j, "year");
        if !int_fits(j, "month", 0 as i128, 4294967295 as i128) {
            return Err(Error::DecodeError("month".to_string()));
        }
        let f_month = u32_field(j, "month");
        if !int_fits(j, "day", 0 as i128, 4294967295 as i128) {
            return Err(Error::DecodeError("day".to_string()));
        }
        let f_day = u32_field(j, "day");
        Ok(Date {
            year: f_year,
            month: f_month,
            day: f_day,
        })
    }

    /// Decodes the member `key` of `j`; an absent member decodes as `null`.
    pub fn from_member(j: &Json, key: &str) -> (r: Result<Date, Error>)
        ensures
            r is Ok <==> Date::fits(field(*j, key@)),
            r matches Ok(x) ==> x.matches_json(member_or_null(*j, key@)),
            r matches Err(e) ==> e is DecodeError,
    {
        match get(j, key) {
            Some(v) => match Date::from_json(v) {
                Ok(x) => Ok(x),
                Err(_) => Err(Error::DecodeError(key.to_string())),
            },
            None => Date::from_json(&Json::Null),
        }
    }

    /// Decodes the member `key` of `j` when it is an object; none when it is
    /// absent or `null`.
    pub fn from_optional_member(j: &Json, key: &str) -> (r: Result<Option<Date>, Error>)
        ensures
            r is Ok <==> Date::fits(field(*j, key@)),
            r matches Ok(o) ==> match object_of(field(*j, key@)) {
                Some(x) => o matches Some(y) && y.matches_json(x),
                None => o is None,
            },
            r matches Err(e) ==> e is DecodeError,
    {
        match get(j, key) {
            Some(v) => match v {
                Json::Object(_) => match Date::from_json(v) {
                    Ok(x) => Ok(Some(x)),
                    Err(_) => Err(Error::DecodeError(key.to_string())),
                },
                Json::Null => Ok(None),
                _ => Err(Error::DecodeError(key.to_string())),
            },
            None => Ok(None),
        }
    }

    /// Whether each of `l` is what the item at its index decodes to.
    pub open spec fn seq_matches(l: Seq<Date>, items: Seq<Json>) -> bool {
        &&& l.len() == items.len()
        &&& forall|i: int| 0 <= i < items.len() ==> (#[trigger] l[i]).matches_json(items[i])
    }

    /// Decodes the member `key` of `j` as a list of objects; none when it is
    /// absent or `null`.
    pub fn list_field(j: &Json, key: &str) -> (r: Result<Option<Vec<Date>>, Error>)
        ensures
            r is Ok <==> Date::fits_list(field(*j, key@)),
            r matches Ok(o) ==> match field(*j, key@) {
                Some(Json::Array(items)) => o matches Some(l) && Date::seq_matches(l@, items@),
                _ => o is None,
            },
            r matches Err(e) ==> e is DecodeError,
    {
        match get(j, key) {
            Some(Json::Array(items)) => {
                let mut out: Vec<Date> = Vec::new();
                let mut i: usize = 0;
                while i < items.len()
                    invariant
                        i <= items@.len(),
                        field(*j, key@) == Some(Json::Array(*items)),
                        out@.len() == i,
                        forall|k: int| 0 <= k < i ==> (#[trigger] out@[k]).matches_json(items@[k]),
                        forall|k: int| 0 <= k < i ==> Date::item_ok(#[trigger] items@[k]),
                    decreases items.len() - i,
                {
                    match &items[i] {
                        Json::Object(_) => match Date::from_json(&items[i]) {
                            Ok(x) => out.push(x),
                            Err(_) => {
                                assert(!Date::item_ok(items@[i as int]));
                                assert(!absent(field(*j, key@)));
                                assert(field(*j, key@) matches Some(Json::Array(its)) && its@ == items@);
                                return Err(Error::DecodeError(key.to_string()));
                            },
                        },
                        _ => {
                            assert(!Date::item_ok(items@[i as int]));
                            assert(!absent(field(*j, key@)));
                                assert(field(*j, key@) matches Some(Json::Array(its)) && its@ == items@);
                            return Err(Error::DecodeError(key.to_string()));
                        },
                    }
                    i = i + 1;
                }
                Ok(Some(out))
            },
            Some(Json::Null) => Ok(None),
            None => Ok(None),
            _ => Err(Error::DecodeError(key.to_string())),
        }
    }

    /// Whether two dates hold the same decoded values, field by field (strings by
    /// their characters).
    pub open spec fn agrees(self, o: Date) -> bool {
        &&& self.year == o.year
        &&& self.month == o.month
        &&& self.day == o.day
    }

    /// Decoding one object twice gives values that agree.
    pub proof fn lemma_decode_agrees(a: Date, b: Date, j: Json)
        requires
            a.matches_json(j),
            b.matches_json(j),
        ensures
            a.agrees(b),
    {
    }

    /// Whether two lists hold values that agree, index by index.
    pub open spec fn seq_agrees(l1: Seq<Date>, l2: Seq<Date>) -> bool {
        &&& l1.len() == l2.len()
        &&& forall|i: int| 0 <= i < l1.len() ==> (#[trigger] l1[i]).agrees(l2[i])
    }

    /// Decoding one array twice gives lists that agree.
    pub proof fn lemma_seq_agrees(l1: Seq<Date>, l2: Seq<Date>, items: Seq<Json>)
        requires
            Date::seq_matches(l1, items),
            Date::seq_matches(l2, items),
        ensures
            Date::seq_agrees(l1, l2),
    {
        assert forall|i: int| 0 <= i < l1.len() implies (#[trigger] l1[i]).agrees(l2[i]) by {
            Date::lemma_decode_agrees(l1[i], l2[i], items[i]);
        }
    }
}

/// The last two digits of a year, keeping its sign (the remainder of Rust's `%`).
pub open spec fn year_tail(y: int) -> int {
    if y >= 0 {
        y % 100
    } else {
        -((-y) % 100)
    }
}

/// A pattern with its year placeholders filled in.
pub open spec fn fill_year(s: Seq<char>, y: int) -> Seq<char> {
    let full = decimal(y);
    let short = zero_padded(year_tail(y));
    let s1 = replaced(s, "{year}"@, full);
    let s2 = replaced(s1, "{yyyy}"@, full);
    let s3 = replaced(s2, "{yy}"@, short);
    let s4 = replaced(s3, "{y}"@, full);
    let s5 = replaced(s4, "{YEAR}"@, full);
    let s6 = replaced(s5, "{YYYY}"@, full);
    let s7 = replaced(s6, "{YY}"@, short);
    replaced(s7, "{Y}"@, full)
}

/// A pattern with its month placeholders filled in.
pub open spec fn fill_month(s: Seq<char>, m: int) -> Seq<char> {
    let padded = zero_padded(m);
    let plain = decimal(m);
    let s1 = replaced(s, "{month}"@, padded);
    let s2 = replaced(s1, "{mon}"@, padded);
    let s3 = replaced(s2, "{mm}"@, padded);
    let s4 = replaced(s3, "{m}"@, plain);
    let s5 = replaced(s4, "{MONTH}"@, padded);
    let s6 = replaced(s5, "{MON}"@, padded);
    let s7 = replaced(s6, "{MM}"@, padded);
    replaced(s7, "{M}"@, plain)
}

/// A pattern with its day placeholders filled in.
pub open spec fn fill_day(s: Seq<char>, d: int) -> Seq<char> {
    let padded = zero_padded(d);
    let plain = decimal(d);
    let s1 = replaced(s, "{day}"@, padded);
    let s2 = replaced(s1, "{dd}"@, padded);
    let s3 = replaced(s2, "{d}"@, plain);
    let s4 = replaced(s3, "{DAY}"@, padded);
    let s5 = replaced(s4, "{DD}"@, padded);
    replaced(s5, "{D}"@, plain)
}

/// Relies on chrono's `Local::now` and `NaiveDate`'s `year`, `month` and `day`:
/// today's date on this machine, a month in `1..=12` and a day in `1..=31`.
#[verifier::external_body]
fn today() -> (r: (i32, u32, u32))
    ensures
        1 <= r.1 <= 12,
        1 <= r.2 <= 31,
{
    let now = chrono::Local::now().date_naive();
    (now.year(), now.month(), now.day())
}

impl Date {
    /// Creates a new date.
    pub fn new(year: Option<i32>, month: Option<u32>, day: Option<u32>) -> (r: Date)
        ensures
            r.year == year,
            r.month == month,
            r.day == day,
    {
        Date { year, month, day }
    }
    /// Creates a date holding today's date on this machine.
    pub fn now() -> (r: Date)
        ensures
            r.year is Some,
            r.month matches Some(m) && 1 <= m <= 12,
            r.day matches Some(d) && 1 <= d <= 31,
    {
        let (y, m, d) = today();
        Date { year: Some(y), month: Some(m), day: Some(d) }
    }
    /// Returns the year.
    pub fn year(&self) -> (r: Option<i32>)
        ensures
            r == self.year,
    {
        self.year
    }
    /// Returns the month.
    pub fn month(&self) -> (r: Option<u32>)
        ensures
            r == self.month,
    {
        self.month
    }
    /// Returns the day.
    pub fn day(&self) -> (r: Option<u32>)
        ensures
            r == self.day,
    {
        self.day
    }
    /// The pattern with the placeholders of the known parts filled in.
    pub open spec fn format_spec(self, pattern: Seq<char>) -> Seq<char> {
        let a = match self.year {
            Some(y) => fill_year(pattern, y as int),
            None => pattern,
        };
        let b = match self.month {
            Some(m) => fill_month(a, m as int),
            None => a,
        };
        match self.day {
            Some(d) => fill_day(b, d as int),
            None => b,
        }
    }
    /// Formats the date by a pattern. For a known year, `{year}`, `{yyyy}`, `{y}`,
    /// `{YEAR}`, `{YYYY}`, `{Y}` become the year and `{yy}`, `{YY}` its last two
    /// digits; for a known month, `{month}`, `{mon}`, `{mm}`, `{MONTH}`, `{MON}`,
    /// `{MM}` become the month in two digits and `{m}`, `{M}` the month; for a known
    /// day, `{day}`, `{dd}`, `{DAY}`, `{DD}` become the day in two digits and `{d}`,
    /// `{D}` the day. Placeholders of unknown parts stay as written.
    pub fn format(&self, pattern: &str) -> (r: String)
        ensures
            r@ == self.format_spec(pattern@),
    {
        let mut out = pattern.to_string();
        if let Some(year) = self.year {
            let y = year as i64;
            let full = int_text(y);
            let tail: i64 = if y >= 0 { y % 100 } else { -((-y) % 100) };
            let short = padded_text(tail);
            out = replace_text(out.as_str(), "{year}", full.as_str());
            out = replace_text(out.as_str(), "{yyyy}", full.as_str());
            out = replace_text(out.as_str(), "{yy}", short.as_str());
            out = replace_text(out.as_str(), "{y}", full.as_str());
            out = replace_text(out.as_str(), "{YEAR}", full.as_str());
            out = replace_text(out.as_str(), "{YYYY}", full.as_str());
            out = replace_text(out.as_str(), "{YY}", short.as_str());
            out = replace_text(out.as_str(), "{Y}", full.as_str());
        }
        if let Some(month) = self.month {
            let padded = padded_text(month as i64);
            let plain = int_text(month as i64);
            out = replace_text(out.as_str(), "{month}", padded.as_str());
            out = replace_text(out.as_str(), "{mon}", padded.as_str());
            out = replace_text(out.as_str(), "{mm}", padded.as_str());
            out = replace_text(out.as_str(), "{m}", plain.as_str());
            out = replace_text(out.as_str(), "{MONTH}", padded.as_str());
            out = replace_text(out.as_str(), "{MON}", padded.as_str());
            out = replace_text(out.as_str(), "{MM}", padded.as_str());
            out = replace_text(out.as_str(), "{M}", plain.as_str());
        }
        if let Some(day) = self.day {
            let padded = padded_text(day as i64);
            let plain = int_text(day as i64);
            out = replace_text(out.as_str(), "{day}", padded.as_str());
            out = replace_text(out.as_str(), "{dd}", padded.as_str());
            out = replace_text(out.as_str(), "{d}", plain.as_str());
            out = replace_text(out.as_str(), "{DAY}", padded.as_str());
            out = replace_text(out.as_str(), "{DD}", padded.as_str());
            out = replace_text(out.as_str(), "{D}", plain.as_str());
        }
        out
    }
    /// The date as `year-mm-dd`, each unknown part left empty.
    pub open spec fn as_string_spec(self) -> Seq<char> {
        let y = match self.year {
            Some(y) => decimal(y as int),
            None => Seq::empty(),
        };
        let m = match self.month {
            Some(m) => zero_padded(m as int),
            None => Seq::empty(),
        };
        let d = match self.day {
            Some(d) => zero_padded(d as int),
            None => Seq::empty(),
        };
        y + "-"@ + m + "-"@ + d
    }
    /// Returns the date as `year-mm-dd`; an unknown part is left empty.
    pub fn as_string(&self) -> (r: String)
        ensures
            r@ == self.as_string_spec(),
    {
        let mut out = match self.year {
            Some(y) => int_text(y as i64),
            None => String::new(),
        };
        out.append("-");
        match self.month {
            Some(m) => out.append(padded_text(m as i64).as_str()),
            None => {},
        }
        out.append("-");
        match self.day {
            Some(d) => out.append(padded_text(d as i64).as_str()),
            None => {},
        }
        out
    }
    /// Returns whether year, month and day are all known.
    pub fn is_valid(&self) -> (r: bool)
        ensures
            r == (self.year is Some && self.month is Some && self.day is Some),
    {
        self.year.is_some() && self.month.is_some() && self.day.is_some()
    }
}

} // verus!
