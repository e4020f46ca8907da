//! The request for price bars: a code, an adjustment mode, an interval, and
//! either a number of bars or a time range.

use vstd::prelude::*;
use vstd::string::StringExecFns;
use crate::error::{THSError, api_error};
use crate::code::{uppercase, well_formed, market_texts, to_uppercase, is_well_formed};
use crate::code::{invalid_code, invalid_code_text};
use crate::constants::{Adjust, Interval, is_listed};
use crate::listings::MethodCall;
use crate::session::THS;
use crate::text::{decimal, push_decimal};

verus! {

/// The buffer capacity of a request for price bars, in bytes.
pub const KLINES_CAPACITY: usize = 1048576;

/// The JSON text of a string: the string between double quotes, with the
/// characters escaped that JSON does not take as they are.
pub uninterp spec fn json_string_text(text: Seq<char>) -> Seq<char>;

/// `serde_json`'s compact rendering of `Value::String`: the JSON text of the
/// string.
#[verifier::external_body]
fn json_string(text: &str) -> (out: String)
    ensures
        out@ == json_string_text(text@),
{
    serde_json::Value::String(text.to_owned()).to_string()
}

/// The text `YYYY-MM-DD hh:mm:ss` of a date and a time of day, where they
/// exist in the calendar and on the clock.
pub uninterp spec fn clock_text(
    year: int,
    month: int,
    day: int,
    hour: int,
    minute: int,
    second: int,
) -> Option<Seq<char>>;

/// `chrono`'s `NaiveDate::from_ymd_opt`, `NaiveDate::and_hms_opt` and
/// `NaiveDateTime::format` with `%Y-%m-%d %H:%M:%S`: the text of the date
/// and time, or nothing where chrono refuses them.
#[verifier::external_body]
fn format_clock(year: i32, month: u32, day: u32, hour: u32, minute: u32, second: u32) -> (r: Option<
    String,
>)
    ensures
        match r {
            Some(t) => clock_text(
                year as int,
                month as int,
                day as int,
                hour as int,
                minute as int,
                second as int,
            ) == Some(t@),
            None => clock_text(
                year as int,
                month as int,
                day as int,
                hour as int,
                minute as int,
                second as int,
            ) is None,
        },
{
    match chrono::NaiveDate::from_ymd_opt(year, month, day) {
        Some(date) => match date.and_hms_opt(hour, minute, second) {
            Some(time) => Some(time.format("%Y-%m-%d %H:%M:%S").to_string()),
            None => None,
        },
        None => None,
    }
}

/// A date and a time of day that exist, with their text.
#[derive(Debug)]
pub struct ClockTime {
    year: i32,
    month: u32,
    day: u32,
    hour: u32,
    minute: u32,
    second: u32,
    text: String,
}

impl View for ClockTime {
    type V = Seq<char>;

    closed spec fn view(&self) -> Seq<char> {
        self.text@
    }
}

impl ClockTime {
    #[verifier::type_invariant]
    spec fn inv(self) -> bool {
        clock_text(
            self.year as int,
            self.month as int,
            self.day as int,
            self.hour as int,
            self.minute as int,
            self.second as int,
        ) == Some(self.text@)
    }

    /// The date and time with the given parts, where they exist.
    pub fn new(year: i32, month: u32, day: u32, hour: u32, minute: u32, second: u32) -> (r: Option<
        ClockTime,
    >)
        ensures
            match r {
                Some(t) => clock_text(
                    year as int,
                    month as int,
                    day as int,
                    hour as int,
                    minute as int,
                    second as int,
                ) == Some(t@),
                None => clock_text(
                    year as int,
                    month as int,
                    day as int,
                    hour as int,
                    minute as int,
                    second as int,
                ) is None,
            },
    {
        match format_clock(year, month, day, hour, minute, second) {
            Some(text) => Some(ClockTime { year, month, day, hour, minute, second, text }),
            None => None,
        }
    }

    /// The text of the date and time.
    pub fn text(&self) -> (t: &str)
        ensures
            t@ == self@,
    {
        self.text.as_str()
    }
}

/// The text of a time that may be absent.
pub open spec fn time_text(time: Option<&ClockTime>) -> Option<Seq<char>> {
    match time {
        Some(t) => Some(t@),
        None => None,
    }
}

/// The member that bounds the bars from above: their number where it is
/// positive, else the end of the range where there is one.
pub open spec fn count_or_end_text(count: i32, end: Option<Seq<char>>) -> Seq<char> {
    if count > 0 {
        ",\"count\":"@ + decimal(count as int)
    } else {
        match end {
            Some(e) => ",\"end_time\":"@ + json_string_text(e),
            None => Seq::<char>::empty(),
        }
    }
}

/// The member for the start of the range, where bars are asked for by range
/// and a start is given.
pub open spec fn start_text(count: i32, start: Option<Seq<char>>) -> Seq<char> {
    if count > 0 {
        Seq::<char>::empty()
    } else {
        match start {
            Some(s) => ",\"start_time\":"@ + json_string_text(s),
            None => Seq::<char>::empty(),
        }
    }
}

/// The parameters of a request for price bars: a JSON object with its
/// members in the order of their names.
pub open spec fn klines_params_text(
    code: Seq<char>,
    adjust: Seq<char>,
    interval: Seq<char>,
    count: i32,
    start: Option<Seq<char>>,
    end: Option<Seq<char>>,
) -> Seq<char> {
    "{\"adjust\":"@ + json_string_text(adjust) + ",\"code\":"@ + json_string_text(code)
        + count_or_end_text(count, end) + ",\"interval\":"@ + json_string_text(interval)
        + start_text(count, start) + "}"@
}

/// The message for an unknown adjustment mode.
pub open spec fn invalid_adjust_text(adjust: Seq<char>) -> Seq<char> {
    "invalid adjust type: "@ + adjust
}

/// The message for an unknown interval.
pub open spec fn invalid_interval_text(interval: Seq<char>) -> Seq<char> {
    "invalid interval type: "@ + interval
}

/// Builds the member that bounds the bars from above.
fn count_or_end(count: i32, end: Option<&ClockTime>) -> (out: String)
    ensures
        out@ == count_or_end_text(count, time_text(end)),
{
    if count > 0 {
        let mut out = String::from_str(",\"count\":");
        push_decimal(&mut out, count as i64);
        out
    } else {
        match end {
            Some(e) => {
                let mut out = String::from_str(",\"end_time\":");
                let quoted = json_string(e.text());
                out.append(quoted.as_str());
                out
            },
            None => String::new(),
        }
    }
}

/// Builds the member for the start of the range.
fn start_member(count: i32, start: Option<&ClockTime>) -> (out: String)
    ensures
        out@ == start_text(count, time_text(start)),
{
    if count > 0 {
        String::new()
    } else {
        match start {
            Some(s) => {
                let mut out = String::from_str(",\"start_time\":");
                let quoted = json_string(s.text());
                out.append(quoted.as_str());
                out
            },
            None => String::new(),
        }
    }
}

/// Builds the parameters of a request for price bars.
pub fn klines_params(
    code: &str,
    adjust: &str,
    interval: &str,
    count: i32,
    start: Option<&ClockTime>,
    end: Option<&ClockTime>,
) -> (out: String)
    ensures
        out@ == klines_params_text(
            code@,
            adjust@,
            interval@,
            count,
            time_text(start),
            time_text(end),
        ),
{
    let mut out = String::from_str("{\"adjust\":");
    out.append(json_string(adjust).as_str());
    out.append(",\"code\":");
    out.append(json_string(code).as_str());
    out.append(count_or_end(count, end).as_str());
    out.append(",\"interval\":");
    out.append(json_string(interval).as_str());
    out.append(start_member(count, start).as_str());
    out.append("}");
    out
}

impl THS {
    /// The call that asks for the price bars of the security `ths_code`:
    /// the last `count` bars where `count` is positive, else the bars
    /// between `start_time` and `end_time` as far as these are given.
    ///
    /// The code, put in upper case, must be well formed on `markets`, else
    /// the call is an `InvalidCode`; `adjust` must be an adjustment mode and
    /// `interval` an interval, else it is an `ApiError` that names the
    /// offending text. The code is checked first, then the mode, then the
    /// interval.
    pub fn klines(
        &self,
        ths_code: &str,
        start_time: Option<&ClockTime>,
        end_time: Option<&ClockTime>,
        adjust: &str,
        interval: &str,
        count: i32,
        markets: &[&str],
    ) -> (r: Result<MethodCall, THSError>)
        ensures
            match r {
                Ok(c) => well_formed(uppercase(ths_code@), market_texts(markets@))
                    && Adjust::all().contains(adjust@) && (Interval::minutes()
                    + Interval::days_and_above()).contains(interval@) && c.is(
                    "klines"@,
                    Some(
                        klines_params_text(
                            uppercase(ths_code@),
                            adjust@,
                            interval@,
                            count,
                            time_text(start_time),
                            time_text(end_time),
                        ),
                    ),
                    KLINES_CAPACITY,
                ),
                Err(e) => if !well_formed(uppercase(ths_code@), market_texts(markets@)) {
                    e is InvalidCode && e.message() == invalid_code_text()
                } else if !Adjust::all().contains(adjust@) {
                    e is ApiError && e.message() == invalid_adjust_text(adjust@)
                } else {
                    !(Interval::minutes() + Interval::days_and_above()).contains(interval@)
                        && e is ApiError && e.message() == invalid_interval_text(interval@)
                },
            },
    {
        let code = to_uppercase(ths_code);
        if !is_well_formed(code.as_str(), markets) {
            return Err(invalid_code());
        }
        if !is_listed(&Adjust::all_types(), adjust) {
            let mut msg = String::from_str("invalid adjust type: ");
            msg.append(adjust);
            return Err(api_error(msg));
        }
        if !is_listed(&Interval::all_types(), interval) {
            let mut msg = String::from_str("invalid interval type: ");
            msg.append(interval);
            return Err(api_error(msg));
        }
        let params = klines_params(code.as_str(), adjust, interval, count, start_time, end_time);
        Ok(
            MethodCall {
                method: String::from_str("klines"),
                params: Some(params),
                buffer_size: KLINES_CAPACITY,
            },
        )
    }
}

} // verus!
