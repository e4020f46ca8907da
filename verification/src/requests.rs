//! The requests of the query methods: what each method sends, and with what
//! buffer and how many attempts.

use vstd::prelude::*;
use vstd::string::StringExecFns;
use crate::error::{THSError, api_error};
use crate::text::{decimal, hex_i32, push_decimal, push_hex_i32};
use crate::code::{SecurityCode, parse_code, uppercase, well_formed, splittable, market_texts};
use crate::code::{market_of, short_of, invalid_code_text};
use crate::session::{THS, SessionState, following_id};

verus! {

/// The initial buffer capacity of a data query, in bytes.
pub const QUERY_CAPACITY: usize = 2097152;

/// The attempts that a data query is allowed.
pub const QUERY_ATTEMPTS: usize = 5;

/// The fields asked of a trade-by-trade query.
pub const TRADE_FIELDS: &'static str = "1,5,10,12,18,49";

/// The fields asked of an extended trade-by-trade query.
pub const SUPER_TRADE_FIELDS: &'static str =
    "1,5,7,10,12,13,14,18,19,20,21,25,26,27,28,29,31,32,33,34,35,49,69,70,92,123,125,150,151,152,153,154,155,156,157,45,66,661,102,103,104,105,106,107,108,109,110,111,112,113,114,115,116,117,118,119,120,121,123,125";

/// The fields asked of a level-2 trade query.
pub const L2_TRADE_FIELDS: &'static str = "5,10,12,13";

/// The fields asked of a minute-by-minute history query.
pub const MINUTE_FIELDS: &'static str = "1,10,13,19,40";

/// A data query: the request text, the service that answers it, the initial
/// buffer capacity and the attempts allowed.
#[derive(Debug, Clone)]
pub struct DataQuery {
    pub request: String,
    pub service_key: String,
    pub buffer_size: usize,
    pub max_attempts: usize,
}

impl DataQuery {
    /// Whether this is the query for `request` to `service_key` with the
    /// usual buffer and attempts.
    pub open spec fn is(self, request: Seq<char>, service_key: Seq<char>) -> bool {
        &&& self.request@ == request
        &&& self.service_key@ == service_key
        &&& self.buffer_size == QUERY_CAPACITY
        &&& self.max_attempts == QUERY_ATTEMPTS
    }
}

/// The start of every request: its kind, the instance id and the
/// compression version.
pub open spec fn head_text(id: Seq<char>, instance: int, zip: int) -> Seq<char> {
    "\"id="@ + id + "&instance="@ + decimal(instance) + "&zipversion="@ + decimal(zip)
}

/// The request for the members of the block numbered `block_id`.
pub open spec fn block_request_text(instance: int, zip: int, block_id: i32) -> Seq<char> {
    head_text("7"@, instance, zip) + "&sortbegin=0&sortcount=0&sortorder=D&sortid=55&blockid="@
        + hex_i32(block_id) + "&reqflag=blockserve\""@
}

/// The request for the components of the block with the given link code.
pub open spec fn components_request_text(instance: int, zip: int, link_code: Seq<char>) -> Seq<
    char,
> {
    head_text("7"@, instance, zip) + "&sortbegin=0&sortcount=0&sortorder=D&sortid=55&linkcode="@
        + link_code + "\""@
}

/// The request for the trades of a security between two timestamps.
pub open spec fn trade_request_text(
    kind: TradeKind,
    instance: int,
    zip: int,
    short_code: Seq<char>,
    market: Seq<char>,
    start: int,
    end: int,
) -> Seq<char> {
    head_text(kind.id(), instance, zip) + "&code="@ + short_code + "&market="@ + market
        + "&start="@ + decimal(start) + "&end="@ + decimal(end) + "&datatype="@ + kind.fields()
        + kind.tail()
}

/// The request for the minute-by-minute history of a security on a date.
pub open spec fn minute_request_text(
    instance: int,
    zip: int,
    short_code: Seq<char>,
    market: Seq<char>,
    date: Seq<char>,
) -> Seq<char> {
    head_text("207"@, instance, zip) + "&code="@ + short_code + "&market="@ + market
        + "&datatype="@ + MINUTE_FIELDS@ + "&date="@ + date + "\""@
}

/// The kinds of trade queries.
#[derive(Debug, Clone, Copy, PartialEq, Eq, Structural)]
pub enum TradeKind {
    /// Trade by trade.
    Plain,
    /// Trade by trade with the extended fields.
    Super,
    /// Level-2 trades.
    L2,
}

impl TradeKind {
    /// The request kind.
    pub open spec fn id(self) -> Seq<char> {
        match self {
            TradeKind::Plain => "205"@,
            TradeKind::Super => "205"@,
            TradeKind::L2 => "220"@,
        }
    }

    /// The fields asked for.
    pub open spec fn fields(self) -> Seq<char> {
        match self {
            TradeKind::Plain => TRADE_FIELDS@,
            TradeKind::Super => SUPER_TRADE_FIELDS@,
            TradeKind::L2 => L2_TRADE_FIELDS@,
        }
    }

    /// The end of the request.
    pub open spec fn tail(self) -> Seq<char> {
        match self {
            TradeKind::Plain => "&TraceDetail=0\""@,
            TradeKind::Super => "&TraceDetail=0\""@,
            TradeKind::L2 => "\""@,
        }
    }
}

/// The message for a time range that is empty or reversed.
pub open spec fn time_range_text() -> Seq<char> {
    "the start timestamp must be less than the end timestamp"@
}

/// The message for a missing block code.
pub open spec fn missing_block_text() -> Seq<char> {
    "a block code is required"@
}

/// Builds the start of a request.
fn head(id: &str, instance: i32, zip: i32) -> (out: String)
    ensures
        out@ == head_text(id@, instance as int, zip as int),
{
    let mut out = String::from_str("\"id=");
    out.append(id);
    out.append("&instance=");
    push_decimal(&mut out, instance as i64);
    out.append("&zipversion=");
    push_decimal(&mut out, zip as i64);
    out
}

/// Builds the request for the members of a block.
pub fn block_request(instance: i32, zip: i32, block_id: i32) -> (out: String)
    ensures
        out@ == block_request_text(instance as int, zip as int, block_id),
{
    let mut out = head("7", instance, zip);
    out.append("&sortbegin=0&sortcount=0&sortorder=D&sortid=55&blockid=");
    push_hex_i32(&mut out, block_id);
    out.append("&reqflag=blockserve\"");
    out
}

/// Builds the request for the components of a block.
pub fn components_request(instance: i32, zip: i32, link_code: &str) -> (out: String)
    ensures
        out@ == components_request_text(instance as int, zip as int, link_code@),
{
    let mut out = head("7", instance, zip);
    out.append("&sortbegin=0&sortcount=0&sortorder=D&sortid=55&linkcode=");
    out.append(link_code);
    out.append("\"");
    out
}

/// Builds the request for the trades of a security between two timestamps.
pub fn trade_request(
    kind: TradeKind,
    instance: i32,
    zip: i32,
    code: &SecurityCode,
    start: i64,
    end: i64,
) -> (out: String)
    ensures
        out@ == trade_request_text(
            kind,
            instance as int,
            zip as int,
            code.short_code@,
            code.market@,
            start as int,
            end as int,
        ),
{
    let mut out = match kind {
        TradeKind::Plain => head("205", instance, zip),
        TradeKind::Super => head("205", instance, zip),
        TradeKind::L2 => head("220", instance, zip),
    };
    out.append("&code=");
    out.append(code.short_code.as_str());
    out.append("&market=");
    out.append(code.market.as_str());
    out.append("&start=");
    push_decimal(&mut out, start);
    out.append("&end=");
    push_decimal(&mut out, end);
    out.append("&datatype=");
    match kind {
        TradeKind::Plain => {
            out.append(TRADE_FIELDS);
            out.append("&TraceDetail=0\"");
        },
        TradeKind::Super => {
            out.append(SUPER_TRADE_FIELDS);
            out.append("&TraceDetail=0\"");
        },
        TradeKind::L2 => {
            out.append(L2_TRADE_FIELDS);
            out.append("\"");
        },
    }
    out
}

/// Builds the request for the minute-by-minute history of a security.
pub fn minute_request(instance: i32, zip: i32, code: &SecurityCode, date: &str) -> (out: String)
    ensures
        out@ == minute_request_text(
            instance as int,
            zip as int,
            code.short_code@,
            code.market@,
            date@,
        ),
{
    let mut out = head("207", instance, zip);
    out.append("&code=");
    out.append(code.short_code.as_str());
    out.append("&market=");
    out.append(code.market.as_str());
    out.append("&datatype=");
    out.append(MINUTE_FIELDS);
    out.append("&date=");
    out.append(date);
    out.append("\"");
    out
}

/// The usual data query for `request` to the service `service_key`.
fn data_query(request: String, service_key: &str) -> (q: DataQuery)
    ensures
        q.is(request@, service_key@),
{
    DataQuery {
        request,
        service_key: String::from_str(service_key),
        buffer_size: QUERY_CAPACITY,
        max_attempts: QUERY_ATTEMPTS,
    }
}

/// Whether a code is accepted: in upper case it is well formed and can be
/// split after the market.
pub open spec fn accepted(code: Seq<char>, markets: Seq<Seq<char>>) -> bool {
    well_formed(uppercase(code), markets) && splittable(uppercase(code))
}

/// What a trade query of `kind` returns for a code and a time range, and
/// what it does to the session. The code must be accepted on `markets`,
/// else the query is an `InvalidCode`; the start must lie before the end,
/// else it is an `ApiError`. Where it succeeds it uses up one instance id.
pub open spec fn trade_query_result(
    kind: TradeKind,
    before: THS,
    after: THS,
    ths_code: Seq<char>,
    start: i64,
    end: i64,
    markets: Seq<&str>,
    r: Result<DataQuery, THSError>,
) -> bool {
    match r {
        Ok(q) => accepted(ths_code, market_texts(markets)) && start < end && q.is(
            trade_request_text(
                kind,
                before@.instance_id as int,
                2,
                short_of(uppercase(ths_code)),
                market_of(uppercase(ths_code)),
                start as int,
                end as int,
            ),
            "zhu"@,
        ) && after@ == (SessionState { instance_id: following_id(before@.instance_id), ..before@ }),
        Err(e) => after@ == before@ && if !accepted(ths_code, market_texts(markets)) {
            e is InvalidCode && e.message() == invalid_code_text()
        } else {
            start >= end && e is ApiError && e.message() == time_range_text()
        },
    }
}

impl THS {
    /// The query for the members of the block numbered `block_id`. Uses up
    /// one instance id.
    pub fn get_block_data(&mut self, block_id: i32) -> (q: DataQuery)
        ensures
            q.is(block_request_text(old(self)@.instance_id as int, 2, block_id), "bk"@),
            final(self)@ == (SessionState {
                instance_id: following_id(old(self)@.instance_id),
                ..old(self)@
            }),
    {
        let instance = self.next_share_instance_id();
        let zip = self.zip_version();
        data_query(block_request(instance, zip, block_id), "bk")
    }

    /// The query for the components of the block with the given link code,
    /// which must not be empty. Uses up one instance id where it succeeds.
    pub fn get_block_components(&mut self, link_code: &str) -> (r: Result<DataQuery, THSError>)
        ensures
            match r {
                Ok(q) => link_code@.len() > 0 && q.is(
                    components_request_text(old(self)@.instance_id as int, 2, link_code@),
                    "bk"@,
                ) && final(self)@ == (SessionState {
                    instance_id: following_id(old(self)@.instance_id),
                    ..old(self)@
                }),
                Err(e) => link_code@.len() == 0 && e is ApiError && e.message()
                    == missing_block_text() && final(self)@ == old(self)@,
            },
    {
        if link_code.is_empty() {
            return Err(api_error(String::from_str("a block code is required")));
        }
        let instance = self.next_share_instance_id();
        let zip = self.zip_version();
        Ok(data_query(components_request(instance, zip, link_code), "bk"))
    }

    /// The query for the trades of the security `ths_code` between the
    /// timestamps `start` and `end`, of the given kind. The code must be
    /// accepted on `markets`, else the query is an `InvalidCode`; the start
    /// must lie before the end, else it is an `ApiError`. Uses up one
    /// instance id where it succeeds.
    pub fn trade_query(
        &mut self,
        kind: TradeKind,
        ths_code: &str,
        start: i64,
        end: i64,
        markets: &[&str],
    ) -> (r: Result<DataQuery, THSError>)
        ensures
            trade_query_result(kind, *old(self), *final(self), ths_code@, start, end, markets@, r),
    {
        let code = match parse_code(ths_code, markets) {
            Ok(c) => c,
            Err(e) => {
                return Err(e);
            },
        };
        if start >= end {
            return Err(
                api_error(
                    String::from_str("the start timestamp must be less than the end timestamp"),
                ),
            );
        }
        let instance = self.next_share_instance_id();
        let zip = self.zip_version();
        Ok(data_query(trade_request(kind, instance, zip, &code, start, end), "zhu"))
    }
}

impl THS {
    /// The query for the trades of a security between two timestamps.
    pub fn get_transaction_data(
        &mut self,
        ths_code: &str,
        start: i64,
        end: i64,
        markets: &[&str],
    ) -> (r: Result<DataQuery, THSError>)
        ensures
            trade_query_result(TradeKind::Plain, *old(self), *final(self), ths_code@, start, end, markets@, r),
    {
        self.trade_query(TradeKind::Plain, ths_code, start, end, markets)
    }

    /// The query for the trades of a security between two timestamps, with
    /// the extended fields.
    pub fn get_super_transaction_data(
        &mut self,
        ths_code: &str,
        start: i64,
        end: i64,
        markets: &[&str],
    ) -> (r: Result<DataQuery, THSError>)
        ensures
            trade_query_result(TradeKind::Super, *old(self), *final(self), ths_code@, start, end, markets@, r),
    {
        self.trade_query(TradeKind::Super, ths_code, start, end, markets)
    }

    /// The query for the level-2 trades of a security between two
    /// timestamps.
    pub fn get_l2_transaction_data(
        &mut self,
        ths_code: &str,
        start: i64,
        end: i64,
        markets: &[&str],
    ) -> (r: Result<DataQuery, THSError>)
        ensures
            trade_query_result(TradeKind::L2, *old(self), *final(self), ths_code@, start, end, markets@, r),
    {
        self.trade_query(TradeKind::L2, ths_code, start, end, markets)
    }

    /// The query for the minute-by-minute history of the security
    /// `ths_code` on `date`. The code must be accepted on `markets`, else the
    /// query is an `InvalidCode`. Uses up one instance id where it succeeds.
    pub fn history_minute_time_data(&mut self, ths_code: &str, date: &str, markets: &[&str]) -> (r:
        Result<DataQuery, THSError>)
        ensures
            match r {
                Ok(q) => accepted(ths_code@, market_texts(markets@)) && q.is(
                    minute_request_text(
                        old(self)@.instance_id as int,
                        2,
                        short_of(uppercase(ths_code@)),
                        market_of(uppercase(ths_code@)),
                        date@,
                    ),
                    "zhu"@,
                ) && final(self)@ == (SessionState {
                    instance_id: following_id(old(self)@.instance_id),
                    ..old(self)@
                }),
                Err(e) => final(self)@ == old(self)@ && !accepted(
                    ths_code@,
                    market_texts(markets@),
                ) && e is InvalidCode && e.message() == invalid_code_text(),
            },
    {
        let code = match parse_code(ths_code, markets) {
            Ok(c) => c,
            Err(e) => {
                return Err(e);
            },
        };
        let instance = self.next_share_instance_id();
        let zip = self.zip_version();
        Ok(data_query(minute_request(instance, zip, &code, date), "zhu"))
    }
}

} // verus!
