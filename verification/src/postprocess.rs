//! What the query methods do to an answer before they hand it on: the time
//! fields of price bars are put in a readable form, minute-by-minute items
//! are filtered by the fields they carry, and the help text is taken out of
//! its envelope.

use vstd::prelude::*;
use vstd::string::StringExecFns;
use chrono::TimeZone;
use crate::constants::{Interval, is_listed};
use crate::envelope::{Response, Payload};
use crate::json::{Json, position_of, find_member};
use crate::text::{decimal, push_decimal};

verus! {

/// The name of the member that holds the time of a price bar.
pub const TIME_KEY: &'static str = "时间";

/// The name of the member that holds the help text.
pub const HELP_KEY: &'static str = "help";

/// The quotient of a division that rounds toward zero.
pub open spec fn trunc_div(a: int, b: int) -> int
    recommends
        b > 0,
{
    if a >= 0 {
        a / b
    } else {
        -((-a) / b)
    }
}

/// The remainder of a division that rounds toward zero.
pub open spec fn trunc_rem(a: int, b: int) -> int
    recommends
        b > 0,
{
    if a >= 0 {
        a % b
    } else {
        -((-a) % b)
    }
}

/// A number in at least two characters: a zero goes before a single digit.
pub open spec fn pad2(n: int) -> Seq<char> {
    if 0 <= n < 10 {
        "0"@ + decimal(n)
    } else {
        decimal(n)
    }
}

/// The time of day `hh:mm:ss` that the number `hhmmss` stands for.
pub open spec fn clock_of(t: i64) -> Seq<char> {
    pad2(trunc_div(t as int, 10000)) + ":"@ + pad2(trunc_div(trunc_rem(t as int, 10000), 100))
        + ":"@ + pad2(trunc_rem(t as int, 100))
}

/// Renders a number in at least two characters.
fn pad2_string(n: i64) -> (out: String)
    ensures
        out@ == pad2(n as int),
{
    if 0 <= n && n < 10 {
        let mut out = String::from_str("0");
        push_decimal(&mut out, n);
        out
    } else {
        let mut out = String::new();
        push_decimal(&mut out, n);
        assert(out@ =~= decimal(n as int));
        out
    }
}

/// Renders the number `hhmmss` as the time of day `hh:mm:ss`.
pub fn clock_string(t: i64) -> (out: String)
    ensures
        out@ == clock_of(t),
{
    let hours: i64;
    let minutes: i64;
    let seconds: i64;
    if t >= 0 {
        hours = t / 10000;
        minutes = (t % 10000) / 100;
        seconds = t % 100;
    } else {
        let magnitude: u64 = if t == i64::MIN {
            9223372036854775808u64
        } else {
            (-t) as u64
        };
        hours = -((magnitude / 10000) as i64);
        minutes = -(((magnitude % 10000) / 100) as i64);
        seconds = -((magnitude % 100) as i64);
    }
    let mut out = pad2_string(hours);
    out.append(":");
    out.append(pad2_string(minutes).as_str());
    out.append(":");
    out.append(pad2_string(seconds).as_str());
    out
}

/// Whether `after` is the object `before` with the value of its time member
/// replaced by the text `text`: the first member named by the time key holds
/// that text, and every other member is as it was.
pub open spec fn retimed(before: Json, after: Json, text: Seq<char>) -> bool {
    &&& before matches Json::Object(old_members)
    &&& after matches Json::Object(new_members)
    &&& position_of(old_members@, TIME_KEY@) matches Some(i)
    &&& new_members@.len() == old_members@.len()
    &&& new_members@[i].0 == old_members@[i].0
    &&& new_members@[i].1 matches Json::Text(t)
    &&& t@ == text
    &&& forall|j: int|
        0 <= j < old_members@.len() && j != i ==> #[trigger] new_members@[j] == old_members@[j]
}

/// The readable time of a bar of an interval shorter than a day: where the
/// bar is an object whose time member is an integer `hhmmss`, the text
/// `hh:mm:ss`.
pub open spec fn minute_text(item: Json) -> Option<Seq<char>> {
    match item.member(TIME_KEY@) {
        Some(v) => match v.integer() {
            Some(t) => Some(clock_of(t)),
            None => None,
        },
        None => None,
    }
}

/// What happens to a bar of an interval shorter than a day.
pub open spec fn minute_retimed(before: Json, after: Json) -> bool {
    match minute_text(before) {
        Some(text) => retimed(before, after, text),
        None => after == before,
    }
}

/// What happens to a bar of an interval of a day or longer: it stays as it
/// is, or, where it is an object whose time member is a text, that text may
/// be replaced by another.
pub open spec fn day_retimed(before: Json, after: Json) -> bool {
    after == before || (before.member(TIME_KEY@) matches Some(v) && v.text() is Some
        && exists|text: Seq<char>| retimed(before, after, text))
}

/// What happens to a bar.
pub open spec fn bar_retimed(minute: bool, before: Json, after: Json) -> bool {
    if minute {
        minute_retimed(before, after)
    } else {
        day_retimed(before, after)
    }
}

/// `chrono`'s `Local.datetime_from_str` with the format `%Y%m%d`, and
/// `DateTime::format` with `%Y-%m-%d` on what it gives: the date in the
/// readable form where chrono reads one in the machine's time zone. Nothing
/// is claimed of the result.
#[verifier::external_body]
#[allow(deprecated)]
fn reparse_day(text: &str) -> Option<String> {
    match chrono::Local.datetime_from_str(text, "%Y%m%d") {
        Ok(day) => Some(day.format("%Y-%m-%d").to_string()),
        Err(_) => None,
    }
}

/// Puts the time of one bar in its readable form.
pub fn retime_bar(item: Json, minute: bool) -> (out: Json)
    ensures
        bar_retimed(minute, item, out),
{
    match item {
        Json::Object(mut members) => {
            let ghost old_members = members@;
            match find_member(&members, TIME_KEY) {
                Some(i) => {
                    let new_text: Option<String> = if minute {
                        match members[i].1.as_i64() {
                            Some(t) => Some(clock_string(t)),
                            None => None,
                        }
                    } else {
                        match members[i].1.as_str() {
                            Some(s) => reparse_day(s),
                            None => None,
                        }
                    };
                    match new_text {
                        Some(text) => {
                            let ghost shown = text@;
                            let (key, _) = members.remove(i);
                            members.insert(i, (key, Json::Text(text)));
                            let out = Json::Object(members);
                            proof {
                                assert(members@.len() == old_members.len());
                                assert forall|j: int|
                                    0 <= j < old_members.len() && j != i implies #[trigger] members@[j]
                                    == old_members[j] by {}
                                assert(retimed(item, out, shown));
                            }
                            out
                        },
                        None => Json::Object(members),
                    }
                },
                None => Json::Object(members),
            }
        },
        other => other,
    }
}

/// Whether `after` is the answer `before` with the times of its bars in
/// their readable form: where the result is an array, each bar of it is
/// treated as its interval asks; everything else is as it was.
pub open spec fn times_formatted(before: Response, after: Response, minute: bool) -> bool {
    &&& after.err_info == before.err_info
    &&& after.payload.dict_extra == before.payload.dict_extra
    &&& match before.payload.result {
        Some(Json::Array(items)) => after.payload.result matches Some(Json::Array(new_items))
            && new_items@.len() == items@.len() && forall|i: int|
            0 <= i < items@.len() ==> bar_retimed(minute, items@[i], #[trigger] new_items@[i]),
        _ => after.payload.result == before.payload.result,
    }
}

/// Puts the times of the bars in an answer in their readable form. The bars
/// of an interval shorter than a day carry their time as a number, which
/// becomes `hh:mm:ss`.
pub fn format_kline_times(response: Response, interval: &str) -> (out: Response)
    ensures
        times_formatted(response, out, Interval::minutes().contains(interval@)),
{
    let minute = is_listed(&Interval::minute_intervals(), interval);
    let Response { err_info, payload } = response;
    let Payload { result, dict_extra } = payload;
    let new_result = match result {
        Some(Json::Array(items)) => {
            let ghost old_items = items@;
            let mut bars: Vec<Json> = Vec::new();
            for item in it: items
                invariant
                    it.seq() == old_items,
                    bars@.len() == it.index(),
                    forall|i: int|
                        0 <= i < bars@.len() ==> bar_retimed(minute, old_items[i], #[trigger] bars@[i]),
            {
                let bar = retime_bar(item, minute);
                bars.push(bar);
            }
            Some(Json::Array(bars))
        },
        other => other,
    };
    Response { err_info, payload: Payload { result: new_result, dict_extra } }
}

/// The texts of a list of field names.
pub open spec fn field_texts(fields: Seq<&str>) -> Seq<Seq<char>> {
    Seq::new(fields.len(), |i: int| fields[i]@)
}

/// The texts of a list of field names that may be absent.
pub open spec fn wanted_fields(fields: Option<&[&str]>) -> Option<Seq<Seq<char>>> {
    match fields {
        Some(f) => Some(field_texts(f@)),
        None => None,
    }
}

/// Whether `item` has a member for each of `fields`.
pub open spec fn has_fields(item: Json, fields: Seq<Seq<char>>) -> bool {
    forall|k: int| 0 <= k < fields.len() ==> item.member(#[trigger] fields[k]) is Some
}

/// Whether an item stays: it is an object, and it has every field asked
/// for, if any are.
pub open spec fn keeps(item: Json, fields: Option<Seq<Seq<char>>>) -> bool {
    item is Object && match fields {
        Some(f) => has_fields(item, f),
        None => true,
    }
}

/// The items that stay, in their order.
pub open spec fn kept(items: Seq<Json>, fields: Option<Seq<Seq<char>>>) -> Seq<Json>
    decreases items.len(),
{
    if items.len() == 0 {
        Seq::<Json>::empty()
    } else if keeps(items.last(), fields) {
        kept(items.drop_last(), fields).push(items.last())
    } else {
        kept(items.drop_last(), fields)
    }
}

/// Whether `after` is the answer `before` with its items filtered: where the
/// result is an array, the items that stay; everything else is as it was.
pub open spec fn items_filtered(
    before: Response,
    after: Response,
    fields: Option<Seq<Seq<char>>>,
) -> bool {
    &&& after.err_info == before.err_info
    &&& after.payload.dict_extra == before.payload.dict_extra
    &&& match before.payload.result {
        Some(Json::Array(items)) => after.payload.result matches Some(Json::Array(new_items))
            && new_items@ == kept(items@, fields),
        _ => after.payload.result == before.payload.result,
    }
}

/// Whether `item` has a member for each of `fields`.
fn has_all_fields(item: &Json, fields: &[&str]) -> (all: bool)
    ensures
        all == has_fields(*item, field_texts(fields@)),
{
    let mut k: usize = 0;
    while k < fields.len()
        invariant
            k <= fields.len(),
            forall|j: int| 0 <= j < k ==> item.member(#[trigger] field_texts(fields@)[j]) is Some,
        decreases fields.len() - k,
    {
        if item.get(fields[k]).is_none() {
            assert(item.member(field_texts(fields@)[k as int]) is None);
            return false;
        }
        k += 1;
    }
    true
}

/// Whether an item stays.
fn stays(item: &Json, fields: Option<&[&str]>) -> (stay: bool)
    ensures
        stay == keeps(*item, wanted_fields(fields)),
{
    match item {
        Json::Object(_) => match fields {
            Some(f) => has_all_fields(item, f),
            None => true,
        },
        _ => false,
    }
}

/// Filters the items of a minute-by-minute answer: items that are no
/// objects are dropped, and, where `fields` are given, so are the items that
/// lack one of them.
pub fn filter_minute_items(response: Response, fields: Option<&[&str]>) -> (out: Response)
    ensures
        items_filtered(response, out, wanted_fields(fields)),
{
    let Response { err_info, payload } = response;
    let Payload { result, dict_extra } = payload;
    let new_result = match result {
        Some(Json::Array(items)) => {
            let ghost old_items = items@;
            let ghost wanted = wanted_fields(fields);
            let mut filtered: Vec<Json> = Vec::new();
            for item in it: items
                invariant
                    it.seq() == old_items,
                    wanted == wanted_fields(fields),
                    filtered@ == kept(old_items.take(it.index() as int), wanted),
            {
                let ghost k = it.index() as int;
                assert(old_items.take(k + 1).drop_last() =~= old_items.take(k));
                assert(old_items.take(k + 1).last() == item);
                if stays(&item, fields) {
                    filtered.push(item);
                }
            }
            assert(old_items.take(old_items.len() as int) =~= old_items);
            Some(Json::Array(filtered))
        },
        other => other,
    };
    Response { err_info, payload: Payload { result: new_result, dict_extra } }
}

/// The help text in an answer: the result itself where it is a text, its
/// `help` member where it is an object that has one that is a text, and
/// nothing otherwise.
pub open spec fn help_of(response: Response) -> Seq<char> {
    match response.payload.result {
        Some(Json::Text(s)) => s@,
        Some(Json::Object(members)) => match Json::Object(members).member(HELP_KEY@) {
            Some(v) => match v.text() {
                Some(t) => t,
                None => Seq::<char>::empty(),
            },
            None => Seq::<char>::empty(),
        },
        _ => Seq::<char>::empty(),
    }
}

/// Takes the help text out of an answer.
pub fn help_text(response: &Response) -> (out: String)
    ensures
        out@ == help_of(*response),
{
    match &response.payload.result {
        Some(Json::Text(s)) => s.clone(),
        Some(other) => match other.get(HELP_KEY) {
            Some(v) => match v.as_str() {
                Some(t) => String::from_str(t),
                None => String::new(),
            },
            None => String::new(),
        },
        None => String::new(),
    }
}

} // verus!
