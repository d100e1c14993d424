//! The `date` helper: reads a date and time in the first of six input formats
//! that accepts the text, and writes it again in a requested output format.
//! Parsing and formatting are the `time` crate's; the order of the attempts,
//! the default output format and the errors are decided here.

use vstd::prelude::*;
use vstd::string::StringExecFns;

verus! {

/// A date and a wall-clock time, without an offset.
#[derive(Clone, Copy, Debug, PartialEq, Eq, Structural)]
pub struct DateTime {
    pub year: i32,
    pub month: u8,
    pub day: u8,
    pub hour: u8,
    pub minute: u8,
    pub second: u8,
    pub nanosecond: u32,
}

/// Whether `year` is a leap year of the Gregorian calendar.
pub open spec fn is_leap_year(year: int) -> bool {
    year % 4 == 0 && (year % 100 != 0 || year % 400 == 0)
}

/// The number of days of `month` in `year`; 0 where `month` is none.
pub open spec fn days_in_month(year: int, month: int) -> int {
    if month == 2 {
        if is_leap_year(year) {
            29
        } else {
            28
        }
    } else if month == 4 || month == 6 || month == 9 || month == 11 {
        30
    } else if 1 <= month <= 12 {
        31
    } else {
        0
    }
}

impl DateTime {
    /// Whether the fields name a day of the calendar and a time of the day.
    pub open spec fn is_calendar(self) -> bool {
        &&& 1 <= self.month <= 12
        &&& 1 <= self.day <= days_in_month(self.year as int, self.month as int)
        &&& self.hour < 24
        &&& self.minute < 60
        &&& self.second < 60
        &&& self.nanosecond < 1_000_000_000
    }

    /// Whether the fields name a day of the calendar and a time of the day.
    pub fn is_valid(&self) -> (r: bool)
        ensures
            r == self.is_calendar(),
    {
        let leap: bool = self.year % 4 == 0 && (self.year % 100 != 0 || self.year % 400 == 0);
        let days: u8 = if self.month == 2 {
            if leap {
                29
            } else {
                28
            }
        } else if self.month == 4 || self.month == 6 || self.month == 9 || self.month == 11 {
            30
        } else if 1 <= self.month && self.month <= 12 {
            31
        } else {
            0
        };
        1 <= self.month && self.month <= 12 && 1 <= self.day && self.day <= days && self.hour < 24
            && self.minute < 60 && self.second < 60 && self.nanosecond < 1_000_000_000
    }
}

/// The input formats of the `date` helper.
#[derive(Clone, Copy, Debug, PartialEq, Eq, Structural)]
pub enum InputFormat {
    /// ISO 8601, in the `time` crate's default configuration.
    Iso8601,
    /// RFC 3339.
    Rfc3339,
    /// RFC 2822.
    Rfc2822,
    /// `[year]-[month]-[day] [hour]:[minute]:[second]`.
    Seconds,
    /// `[year]-[month]-[day] [hour]:[minute]`.
    Minutes,
    /// `[year]-[month]-[day] [hour]`.
    Hours,
}

/// The output format of the `date` helper where the template names none.
pub const DEFAULT_OUTPUT_FORMAT: &'static str = "[year]-[month]-[day]";

/// What the `time` crate reads from `input` as ISO 8601.
pub uninterp spec fn iso8601_reading(input: Seq<char>) -> Option<DateTime>;

/// What the `time` crate reads from `input` as RFC 3339.
pub uninterp spec fn rfc3339_reading(input: Seq<char>) -> Option<DateTime>;

/// What the `time` crate reads from `input` as RFC 2822.
pub uninterp spec fn rfc2822_reading(input: Seq<char>) -> Option<DateTime>;

/// What the `time` crate reads from `input` under a format description.
pub uninterp spec fn described_reading(description: Seq<char>, input: Seq<char>) -> Option<
    DateTime,
>;

/// What the `time` crate writes for `moment` under a format description: the
/// text, or the reason why there is none.
pub uninterp spec fn described_writing(moment: DateTime, description: Seq<char>) -> Result<
    Seq<char>,
    Seq<char>,
>;

/// A result of two strings, each by its characters.
pub open spec fn text_result(r: Result<String, String>) -> Result<Seq<char>, Seq<char>> {
    match r {
        Ok(text) => Ok(text@),
        Err(cause) => Err(cause@),
    }
}

/// Calls `time::PrimitiveDateTime::parse` with `Iso8601::DEFAULT`. The result
/// is `None` where the crate rejects `input`, and else the fields of the date
/// and time it read, which are those of a calendar day and a time of day.
#[verifier::external_body]
fn parse_iso8601(input: &str) -> (r: Option<DateTime>)
    ensures
        r == iso8601_reading(input@),
        r matches Some(moment) ==> moment.is_calendar(),
{
    let d = time::PrimitiveDateTime::parse(
        input,
        &time::format_description::well_known::Iso8601::DEFAULT,
    ).ok()?;
    Some(
        DateTime {
            year: d.year(),
            month: u8::from(d.month()),
            day: d.day(),
            hour: d.hour(),
            minute: d.minute(),
            second: d.second(),
            nanosecond: d.nanosecond(),
        },
    )
}

/// Calls `time::PrimitiveDateTime::parse` with `Rfc3339`. The result is
/// `None` where the crate rejects `input`, and else the fields of the date and
/// time it read, which are those of a calendar day and a time of day.
#[verifier::external_body]
fn parse_rfc3339(input: &str) -> (r: Option<DateTime>)
    ensures
        r == rfc3339_reading(input@),
        r matches Some(moment) ==> moment.is_calendar(),
{
    let d = time::PrimitiveDateTime::parse(
        input,
        &time::format_description::well_known::Rfc3339,
    ).ok()?;
    Some(
        DateTime {
            year: d.year(),
            month: u8::from(d.month()),
            day: d.day(),
            hour: d.hour(),
            minute: d.minute(),
            second: d.second(),
            nanosecond: d.nanosecond(),
        },
    )
}

/// Calls `time::PrimitiveDateTime::parse` with `Rfc2822`. The result is
/// `None` where the crate rejects `input`, and else the fields of the date and
/// time it read, which are those of a calendar day and a time of day.
#[verifier::external_body]
fn parse_rfc2822(input: &str) -> (r: Option<DateTime>)
    ensures
        r == rfc2822_reading(input@),
        r matches Some(moment) ==> moment.is_calendar(),
{
    let d = time::PrimitiveDateTime::parse(
        input,
        &time::format_description::well_known::Rfc2822,
    ).ok()?;
    Some(
        DateTime {
            year: d.year(),
            month: u8::from(d.month()),
            day: d.day(),
            hour: d.hour(),
            minute: d.minute(),
            second: d.second(),
            nanosecond: d.nanosecond(),
        },
    )
}

/// Calls `time::format_description::parse_borrowed::<1>` on `description` and
/// `time::PrimitiveDateTime::parse` with what it gives. The result is `None`
/// where the crate rejects the description or `input`, and else the fields of
/// the date and time it read, which are those of a calendar day and a time of
/// day.
#[verifier::external_body]
fn parse_described(description: &str, input: &str) -> (r: Option<DateTime>)
    ensures
        r == described_reading(description@, input@),
        r matches Some(moment) ==> moment.is_calendar(),
{
    let items = time::format_description::parse_borrowed::<1>(description).ok()?;
    let d = time::PrimitiveDateTime::parse(input, &items).ok()?;
    Some(
        DateTime {
            year: d.year(),
            month: u8::from(d.month()),
            day: d.day(),
            hour: d.hour(),
            minute: d.minute(),
            second: d.second(),
            nanosecond: d.nanosecond(),
        },
    )
}

/// Calls `time::format_description::parse_borrowed::<1>` on `description` and
/// `time::PrimitiveDateTime::format` with what it gives, on the date and time
/// that `time::Date::from_calendar_date` and `time::Time::from_hms_nano` make
/// of the fields. The result is the text, or the message of the first of these
/// calls that failed.
#[verifier::external_body]
fn format_described(moment: &DateTime, description: &str) -> (r: Result<String, String>)
    ensures
        text_result(r) == described_writing(*moment, description@),
{
    let month = time::Month::try_from(moment.month).map_err(|e| e.to_string())?;
    let date = time::Date::from_calendar_date(moment.year, month, moment.day).map_err(
        |e| e.to_string(),
    )?;
    let time = time::Time::from_hms_nano(
        moment.hour,
        moment.minute,
        moment.second,
        moment.nanosecond,
    ).map_err(|e| e.to_string())?;
    let items = time::format_description::parse_borrowed::<1>(description).map_err(
        |e| e.to_string(),
    )?;
    time::PrimitiveDateTime::new(date, time).format(&items).map_err(|e| e.to_string())
}

impl InputFormat {
    /// The format description of the three formats that are given by one.
    pub open spec fn description_text(self) -> Option<Seq<char>> {
        match self {
            InputFormat::Seconds => Some("[year]-[month]-[day] [hour]:[minute]:[second]"@),
            InputFormat::Minutes => Some("[year]-[month]-[day] [hour]:[minute]"@),
            InputFormat::Hours => Some("[year]-[month]-[day] [hour]"@),
            _ => None,
        }
    }

    /// What this format reads from `input`.
    pub open spec fn reading(self, input: Seq<char>) -> Option<DateTime> {
        match self {
            InputFormat::Iso8601 => iso8601_reading(input),
            InputFormat::Rfc3339 => rfc3339_reading(input),
            InputFormat::Rfc2822 => rfc2822_reading(input),
            _ => described_reading(self.description_text()->0, input),
        }
    }

    /// The format description of the three formats that are given by one.
    pub fn description(self) -> (r: Option<&'static str>)
        ensures
            r is Some == self.description_text() is Some,
            r matches Some(text) ==> self.description_text() == Some(text@),
    {
        match self {
            InputFormat::Seconds => Some("[year]-[month]-[day] [hour]:[minute]:[second]"),
            InputFormat::Minutes => Some("[year]-[month]-[day] [hour]:[minute]"),
            InputFormat::Hours => Some("[year]-[month]-[day] [hour]"),
            _ => None,
        }
    }

    /// Reads `input` in this format.
    pub fn read(self, input: &str) -> (r: Option<DateTime>)
        ensures
            r == self.reading(input@),
            r matches Some(moment) ==> moment.is_calendar(),
    {
        match self {
            InputFormat::Iso8601 => parse_iso8601(input),
            InputFormat::Rfc3339 => parse_rfc3339(input),
            InputFormat::Rfc2822 => parse_rfc2822(input),
            _ => {
                match self.description() {
                    Some(text) => parse_described(text, input),
                    None => None,
                }
            },
        }
    }
}

/// The input formats in the order in which they are tried.
pub open spec fn formats_in_order() -> Seq<InputFormat> {
    seq![
        InputFormat::Iso8601,
        InputFormat::Rfc3339,
        InputFormat::Rfc2822,
        InputFormat::Seconds,
        InputFormat::Minutes,
        InputFormat::Hours,
    ]
}

/// The first reading among `readings` that succeeded.
pub open spec fn first_some(readings: Seq<Option<DateTime>>) -> Option<DateTime>
    decreases readings.len(),
{
    if readings.len() == 0 {
        None
    } else if readings.first() is Some {
        readings.first()
    } else {
        first_some(readings.drop_first())
    }
}

/// What each input format reads from `input`, in the order of the attempts.
pub open spec fn readings(input: Seq<char>) -> Seq<Option<DateTime>> {
    formats_in_order().map_values(|format: InputFormat| format.reading(input))
}

/// What the helper reads from `input`: the reading of the first format, in
/// order, that accepts it.
pub open spec fn date_reading(input: Seq<char>) -> Option<DateTime> {
    first_some(readings(input))
}

/// The first match wins: a format's reading is the helper's exactly when
/// every format before it rejected the input, and the helper reads nothing
/// exactly when every format rejected it.
pub proof fn first_match_wins(all: Seq<Option<DateTime>>)
    ensures
        first_some(all) is None <==> forall|i: int| 0 <= i < all.len() ==> all[i] is None,
        forall|i: int|
            0 <= i < all.len() && all[i] is Some && (forall|j: int| 0 <= j < i ==> all[j] is None)
                ==> first_some(all) == #[trigger] all[i],
    decreases all.len(),
{
    if all.len() > 0 {
        let rest = all.drop_first();
        first_match_wins(rest);
        if all.first() is None {
            assert forall|i: int| 0 <= i < all.len() implies (all[i] is None <==> (i == 0
                || rest[i - 1] is None)) by {}
            if first_some(rest) is None {
                assert forall|i: int| 0 <= i < all.len() implies all[i] is None by {
                    if i > 0 {
                        assert(rest[i - 1] is None);
                    }
                }
            } else {
                if forall|i: int| 0 <= i < all.len() ==> all[i] is None {
                    assert forall|i: int| 0 <= i < rest.len() implies rest[i] is None by {
                        assert(all[i + 1] is None);
                    }
                }
            }
            assert forall|i: int|
                0 <= i < all.len() && all[i] is Some && (forall|j: int|
                    0 <= j < i ==> all[j] is None) implies first_some(all) == #[trigger] all[i] by {
                assert(i > 0);
                assert(rest[i - 1] == all[i]);
                assert forall|j: int| 0 <= j < i - 1 implies rest[j] is None by {
                    assert(all[j + 1] is None);
                }
            }
        } else {
            assert forall|i: int|
                0 <= i < all.len() && all[i] is Some && (forall|j: int|
                    0 <= j < i ==> all[j] is None) implies first_some(all) == #[trigger] all[i] by {
                if i > 0 {
                    assert(all[0] is None);
                }
            }
        }
    }
}

/// The input formats in the order in which they are tried.
pub fn input_formats() -> (formats: Vec<InputFormat>)
    ensures
        formats@ == formats_in_order(),
{
    let mut formats: Vec<InputFormat> = Vec::new();
    formats.push(InputFormat::Iso8601);
    formats.push(InputFormat::Rfc3339);
    formats.push(InputFormat::Rfc2822);
    formats.push(InputFormat::Seconds);
    formats.push(InputFormat::Minutes);
    formats.push(InputFormat::Hours);
    assert(formats@ =~= formats_in_order());
    formats
}

/// The first of `readings` that succeeded.
pub fn first_success(readings: &Vec<Option<DateTime>>) -> (r: Option<DateTime>)
    ensures
        r == first_some(readings@),
{
    let mut i: usize = 0;
    assert(readings@.skip(0) =~= readings@);
    while i < readings.len()
        invariant
            i <= readings.len(),
            first_some(readings@) == first_some(readings@.skip(i as int)),
        decreases readings.len() - i,
    {
        let ghost left = readings@.skip(i as int);
        assert(left.first() == readings@[i as int]);
        assert(left.drop_first() =~= readings@.skip(i + 1));
        match readings[i] {
            Some(moment) => {
                return Some(moment);
            },
            None => {},
        }
        i += 1;
    }
    assert(readings@.skip(readings@.len() as int) =~= Seq::<Option<DateTime>>::empty());
    None
}

/// Reads `input` in every input format, in order, and keeps the first
/// reading that succeeded.
pub fn parse_date(input: &str) -> (r: Option<DateTime>)
    ensures
        r == date_reading(input@),
        r matches Some(moment) ==> moment.is_calendar(),
{
    let formats = input_formats();
    let mut all: Vec<Option<DateTime>> = Vec::new();
    let mut i: usize = 0;
    while i < formats.len()
        invariant
            i <= formats.len(),
            formats@ == formats_in_order(),
            all@.len() == i,
            forall|j: int| 0 <= j < i ==> all@[j] == (#[trigger] formats@[j]).reading(input@),
            forall|j: int|
                0 <= j < i ==> ((#[trigger] all@[j]) matches Some(moment) ==> moment.is_calendar()),
        decreases formats.len() - i,
    {
        all.push(formats[i].read(input));
        i += 1;
    }
    assert(all@ =~= readings(input@));
    let r = first_success(&all);
    proof {
        if r is Some {
            first_some_is_member(all@);
        }
    }
    r
}

/// A reading that was kept is one of the readings.
proof fn first_some_is_member(all: Seq<Option<DateTime>>)
    requires
        first_some(all) is Some,
    ensures
        exists|i: int| 0 <= i < all.len() && #[trigger] all[i] == first_some(all),
    decreases all.len(),
{
    if all.len() > 0 {
        if all.first() is Some {
            assert(all[0] == first_some(all));
        } else {
            first_some_is_member(all.drop_first());
            let i = choose|i: int|
                0 <= i < all.drop_first().len() && #[trigger] all.drop_first()[i] == first_some(
                    all.drop_first(),
                );
            assert(all[i + 1] == first_some(all));
        }
    }
}

/// Why the `date` helper gave no text.
#[derive(Debug)]
pub enum DateError {
    /// No input format accepts the input.
    Unparseable { input: String },
    /// The output format cannot be used on the date that was read.
    Unformattable { format: String, cause: String },
}

impl DateError {
    /// The error in words, naming the input or the format at fault.
    pub fn message(&self) -> (r: String)
        ensures
            match *self {
                DateError::Unparseable { input } => r@ == "Could not parse date "@ + input@,
                DateError::Unformattable { format, cause } => r@ == "Could not format date as "@
                    + format@ + ": "@ + cause@,
            },
    {
        match self {
            DateError::Unparseable { input } => {
                let mut r = "Could not parse date ".to_owned();
                r.append(input.as_str());
                r
            },
            DateError::Unformattable { format, cause } => {
                let mut r = "Could not format date as ".to_owned();
                r.append(format.as_str());
                r.append(": ");
                r.append(cause.as_str());
                r
            },
        }
    }
}

/// The output format in use: the one given, or the default.
pub open spec fn chosen_format(output_format: Option<&str>) -> Seq<char> {
    match output_format {
        Some(format) => format@,
        None => DEFAULT_OUTPUT_FORMAT@,
    }
}

/// Writes the date and time that was read from `input`, or says that none
/// was. Takes the reading as an argument, so that its part is stated for
/// every reading.
pub fn write_date(input: &str, reading: Option<DateTime>, output_format: Option<&str>) -> (r:
    Result<String, DateError>)
    ensures
        match r {
            Ok(text) => reading matches Some(moment) && described_writing(
                moment,
                chosen_format(output_format),
            ) == Ok::<Seq<char>, Seq<char>>(text@),
            Err(DateError::Unparseable { input: named }) => reading is None && named@ == input@,
            Err(DateError::Unformattable { format, cause }) => reading matches Some(moment)
                && format@ == chosen_format(output_format) && described_writing(
                moment,
                chosen_format(output_format),
            ) == Err::<Seq<char>, Seq<char>>(cause@),
        },
{
    let format: &str = match output_format {
        Some(format) => format,
        None => DEFAULT_OUTPUT_FORMAT,
    };
    match reading {
        None => Err(DateError::Unparseable { input: input.to_owned() }),
        Some(moment) => {
            match format_described(&moment, format) {
                Ok(text) => Ok(text),
                Err(cause) => Err(DateError::Unformattable { format: format.to_owned(), cause }),
            }
        },
    }
}

/// The `date` helper. Reads `input` in the first input format that accepts
/// it and writes the date in `output_format`, by default
/// `[year]-[month]-[day]`. The fields are written as they were read: no
/// offset is applied.
pub fn date(input: &str, output_format: Option<&str>) -> (r: Result<String, DateError>)
    ensures
        match r {
            Ok(text) => date_reading(input@) matches Some(moment) && described_writing(
                moment,
                chosen_format(output_format),
            ) == Ok::<Seq<char>, Seq<char>>(text@),
            Err(DateError::Unparseable { input: named }) => date_reading(input@) is None
                && named@ == input@,
            Err(DateError::Unformattable { format, cause }) => date_reading(input@) matches Some(
                moment,
            ) && format@ == chosen_format(output_format) && described_writing(
                moment,
                chosen_format(output_format),
            ) == Err::<Seq<char>, Seq<char>>(cause@),
        },
{
    let reading = parse_date(input);
    write_date(input, reading, output_format)
}

/// What a template hands the helper in one place: nothing, a text, or a
/// value that is no text.
#[derive(Debug)]
pub enum Argument {
    Absent,
    Text(String),
    Other,
}

/// What the helper says where the template hands it nothing to read.
pub const MISSING_INPUT: &'static str = "`date` helper: Couldn't read parameter dt";

/// What the helper says where what it is to read is no text.
pub const INPUT_NOT_TEXT: &'static str =
    "`date` helper: Couldn't convert parameter dt to type `String`";

/// What the helper says where the output format is no text.
pub const FORMAT_NOT_TEXT: &'static str = "`date` helper: Couldn't convert hash fmt to type `str`";

/// The output format that the helper uses: the one that the template names,
/// and the default where it names none.
pub open spec fn helper_format(output_format: Argument) -> Seq<char> {
    match output_format {
        Argument::Text(format) => format@,
        _ => DEFAULT_OUTPUT_FORMAT@,
    }
}

/// What the `date` helper answers to a template: the date that was read from
/// `input`, written in `output_format`, or the message of the error. It fails
/// on the input where there is none or it is no text, then on an output
/// format that is no text, and then as `date` does.
pub fn date_for_template(input: &Argument, output_format: &Argument) -> (r: Result<String, String>)
    ensures
        match (*input, *output_format) {
            (Argument::Absent, _) => r matches Err(message) && message@ == MISSING_INPUT@,
            (Argument::Other, _) => r matches Err(message) && message@ == INPUT_NOT_TEXT@,
            (Argument::Text(_), Argument::Other) => r matches Err(message) && message@
                == FORMAT_NOT_TEXT@,
            (Argument::Text(input), format) => match r {
                Ok(text) => date_reading(input@) matches Some(moment) && described_writing(
                    moment,
                    helper_format(format),
                ) == Ok::<Seq<char>, Seq<char>>(text@),
                Err(message) => match date_reading(input@) {
                    None => message@ == "Could not parse date "@ + input@,
                    Some(moment) => described_writing(moment, helper_format(format)) matches Err(
                        cause,
                    ) && message@ == "Could not format date as "@ + helper_format(format) + ": "@
                        + cause,
                },
            },
        },
{
    let input: &str = match input {
        Argument::Absent => {
            return Err(MISSING_INPUT.to_owned());
        },
        Argument::Other => {
            return Err(INPUT_NOT_TEXT.to_owned());
        },
        Argument::Text(input) => input.as_str(),
    };
    let format: Option<&str> = match output_format {
        Argument::Absent => None,
        Argument::Other => {
            return Err(FORMAT_NOT_TEXT.to_owned());
        },
        Argument::Text(format) => Some(format.as_str()),
    };
    match date(input, format) {
        Ok(text) => Ok(text),
        Err(error) => Err(error.message()),
    }
}

} // verus!
