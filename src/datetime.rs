//! Timestamps in the RFC 3339 date-time format that the processor uses for
//! the dates it returns. The `time` crate reads and writes the text; a
//! timestamp keeps the text it was read from, so that it is written back
//! exactly.
use vstd::prelude::*;

use crate::json::{DecodeError, Json, WireValue};

verus! {

/// The parts of a date and time with its offset from UTC.
#[derive(Debug, Clone, Copy, PartialEq, Eq, Structural)]
pub struct DateTimeParts {
    pub year: i32,
    pub month: u8,
    pub day: u8,
    pub hour: u8,
    pub minute: u8,
    pub second: u8,
    pub nanosecond: u32,
    pub offset_seconds: i32,
}

/// The parts that the `time` crate reads from an RFC 3339 text, if it reads
/// one.
pub uninterp spec fn rfc3339_reading(s: Seq<char>) -> Option<DateTimeParts>;

/// The RFC 3339 text that the `time` crate writes for the parts, if they
/// make a date and time that it can write.
pub uninterp spec fn rfc3339_writing(p: DateTimeParts) -> Option<Seq<char>>;

/// Relies on `time::OffsetDateTime::parse` with the `Rfc3339` description:
/// what it reads depends on the text alone. The parts are the value's own
/// getters.
#[verifier::external_body]
fn read_rfc3339(s: &str) -> (r: Option<DateTimeParts>)
    ensures
        r == rfc3339_reading(s@),
{
    let t = time::OffsetDateTime::parse(s, &time::format_description::well_known::Rfc3339).ok()?;
    Some(DateTimeParts {
        year: t.year(),
        month: t.month() as u8,
        day: t.day(),
        hour: t.hour(),
        minute: t.minute(),
        second: t.second(),
        nanosecond: t.nanosecond(),
        offset_seconds: t.offset().whole_seconds(),
    })
}

/// Relies on `time::OffsetDateTime::format` with the `Rfc3339` description:
/// what it writes depends on the parts alone. The value is built by
/// `Month::try_from`, `Date::from_calendar_date`, `Time::from_hms_nano`,
/// `UtcOffset::from_whole_seconds` and `OffsetDateTime::new_in_offset`,
/// which refuse parts out of range.
#[verifier::external_body]
fn write_rfc3339(p: &DateTimeParts) -> (r: Option<String>)
    ensures
        match r {
            Some(s) => rfc3339_writing(*p) == Some(s@),
            None => rfc3339_writing(*p) is None,
        },
{
    let month = time::Month::try_from(p.month).ok()?;
    let date = time::Date::from_calendar_date(p.year, month, p.day).ok()?;
    let clock = time::Time::from_hms_nano(p.hour, p.minute, p.second, p.nanosecond).ok()?;
    let offset = time::UtcOffset::from_whole_seconds(p.offset_seconds).ok()?;
    let t = time::OffsetDateTime::new_in_offset(date, clock, offset);
    t.format(&time::format_description::well_known::Rfc3339).ok()
}

/// A date and time, with the RFC 3339 text that stands for it.
#[derive(Debug, PartialEq)]
pub struct Timestamp {
    text: String,
    parts: DateTimeParts,
}

impl View for Timestamp {
    type V = DateTimeParts;

    closed spec fn view(&self) -> DateTimeParts {
        self.parts
    }
}

impl Timestamp {
    #[verifier::type_invariant]
    spec fn text_reads_as_parts(&self) -> bool {
        rfc3339_reading(self.text@) == Some(self.parts)
    }

    /// The RFC 3339 text of the timestamp.
    pub closed spec fn spec_text(&self) -> Seq<char> {
        self.text@
    }

    /// Reads an RFC 3339 text.
    pub fn parse(s: &str) -> (r: Option<Timestamp>)
        ensures
            match r {
                Some(t) => rfc3339_reading(s@) == Some(t@) && t.spec_text() == s@,
                None => rfc3339_reading(s@) is None,
            },
    {
        match read_rfc3339(s) {
            Some(parts) => Some(Timestamp { text: String::from_str(s), parts }),
            None => None,
        }
    }

    /// The timestamp of the given parts, where the `time` crate writes them
    /// as a text that it reads back as the same parts.
    pub fn from_parts(p: DateTimeParts) -> (r: Option<Timestamp>)
        ensures
            match r {
                Some(t) => t@ == p && rfc3339_writing(p) == Some(t.spec_text()),
                None => !(rfc3339_writing(p) matches Some(s) && rfc3339_reading(s) == Some(p)),
            },
    {
        let text = match write_rfc3339(&p) {
            Some(text) => text,
            None => {
                return None;
            },
        };
        match read_rfc3339(text.as_str()) {
            Some(q) => if q == p {
                Some(Timestamp { text, parts: p })
            } else {
                None
            },
            None => None,
        }
    }

    /// The date and time parts.
    pub fn parts(&self) -> (r: DateTimeParts)
        ensures
            r == self@,
    {
        self.parts
    }

    /// The RFC 3339 text.
    pub fn to_text(&self) -> (r: String)
        ensures
            r@ == self.spec_text(),
            rfc3339_reading(r@) == Some(self@),
    {
        proof {
            use_type_invariant(self);
        }
        self.text.clone()
    }
}

impl Clone for Timestamp {
    fn clone(&self) -> (r: Self) {
        proof {
            use_type_invariant(self);
        }
        Timestamp { text: self.text.clone(), parts: self.parts }
    }
}

impl WireValue for Timestamp {
    open spec fn wire_form(&self, j: Json) -> bool {
        j matches Json::Str(s) && rfc3339_reading(s@) == Some(self@)
    }

    open spec fn omits_absent(&self, j: Json) -> bool {
        true
    }

    open spec fn agrees(&self, other: &Self) -> bool {
        self@ == other@
    }

    open spec fn own_key(key: Seq<char>) -> bool {
        false
    }

    open spec fn written_as(&self, j: Json) -> bool {
        j matches Json::Str(s) && s@ == self.spec_text()
    }

    fn to_json(&self) -> (r: Json) {
        Json::Str(self.to_text())
    }

    fn from_json(j: &Json) -> (r: Result<Self, DecodeError>) {
        match j {
            Json::Str(s) => match Timestamp::parse(s.as_str()) {
                Some(t) => Ok(t),
                None => Err(DecodeError { path: Vec::new() }),
            },
            _ => Err(DecodeError { path: Vec::new() }),
        }
    }

    proof fn lemma_wire_form_unique(&self, other: &Self, j: Json) {
    }
}

} // verus!
