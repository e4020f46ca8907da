//! The queries that list the members of a fixed block, and the methods that
//! are called directly with a fixed buffer.

use vstd::prelude::*;
use vstd::string::StringExecFns;
use crate::requests::{DataQuery, block_request_text};
use crate::session::{THS, SessionState, following_id};

verus! {

/// A direct call of a method of the native module: the method, its
/// parameters if it has any, and the capacity of the output buffer.
#[derive(Debug, Clone)]
pub struct MethodCall {
    pub method: String,
    pub params: Option<String>,
    pub buffer_size: usize,
}

impl MethodCall {
    /// Whether this is the call of `method` with `params` and a buffer of
    /// `buffer_size` bytes.
    pub open spec fn is(self, method: Seq<char>, params: Option<Seq<char>>, buffer_size: usize) -> bool {
        &&& self.method@ == method
        &&& match params {
            Some(p) => self.params matches Some(q) && q@ == p,
            None => self.params is None,
        }
        &&& self.buffer_size == buffer_size
    }
}

/// A text between double quotes.
pub open spec fn quoted(text: Seq<char>) -> Seq<char> {
    "\""@ + text + "\""@
}

/// What a listing of the block numbered `block_id` returns and does to the
/// session: the query for that block's members, for one instance id.
pub open spec fn lists_block(block_id: i32, before: THS, after: THS, q: DataQuery) -> bool {
    &&& q.is(block_request_text(before@.instance_id as int, 2, block_id), "bk"@)
    &&& after@ == (SessionState { instance_id: following_id(before@.instance_id), ..before@ })
}

/// Builds a direct call.
fn method_call(method: &str, params: Option<String>, buffer_size: usize) -> (c: MethodCall)
    ensures
        c.method@ == method@,
        c.params == params,
        c.buffer_size == buffer_size,
{
    MethodCall { method: String::from_str(method), params, buffer_size }
}

/// Puts a text between double quotes.
fn quote(text: &str) -> (out: String)
    ensures
        out@ == quoted(text@),
{
    let mut out = String::from_str("\"");
    out.append(text);
    out.append("\"");
    out
}

impl THS {
    /// The industries.
    pub fn query_ths_industry(&mut self) -> (q: DataQuery)
        ensures
            lists_block(0xCE5F, *old(self), *final(self), q),
    {
        self.get_block_data(0xCE5F)
    }

    /// The concepts.
    pub fn query_ths_concept(&mut self) -> (q: DataQuery)
        ensures
            lists_block(0xCE5E, *old(self), *final(self), q),
    {
        self.get_block_data(0xCE5E)
    }

    /// The indexes.
    pub fn query_ths_index(&mut self) -> (q: DataQuery)
        ensures
            lists_block(0xD2, *old(self), *final(self), q),
    {
        self.get_block_data(0xD2)
    }

    /// The A shares.
    pub fn stock_zh_lists(&mut self) -> (q: DataQuery)
        ensures
            lists_block(0xE, *old(self), *final(self), q),
    {
        self.get_block_data(0xE)
    }

    /// The US stocks.
    pub fn stock_us_lists(&mut self) -> (q: DataQuery)
        ensures
            lists_block(0xDC47, *old(self), *final(self), q),
    {
        self.get_block_data(0xDC47)
    }

    /// The Hong Kong stocks.
    pub fn stock_hk_lists(&mut self) -> (q: DataQuery)
        ensures
            lists_block(0xB, *old(self), *final(self), q),
    {
        self.get_block_data(0xB)
    }

    /// The B shares.
    pub fn stock_zh_b_lists(&mut self) -> (q: DataQuery)
        ensures
            lists_block(0xF, *old(self), *final(self), q),
    {
        self.get_block_data(0xF)
    }

    /// The convertible bonds.
    pub fn cbond_lists(&mut self) -> (q: DataQuery)
        ensures
            lists_block(0xCE14, *old(self), *final(self), q),
    {
        self.get_block_data(0xCE14)
    }

    /// The exchange-traded funds.
    pub fn fund_etf_lists(&mut self) -> (q: DataQuery)
        ensures
            lists_block(0xCFF3, *old(self), *final(self), q),
    {
        self.get_block_data(0xCFF3)
    }

    /// The exchange-traded funds that settle on the day of the trade.
    pub fn fund_etf_t0_lists(&mut self) -> (q: DataQuery)
        ensures
            lists_block(0xD90C, *old(self), *final(self), q),
    {
        self.get_block_data(0xD90C)
    }

    /// The call that asks for the module's help on `req`.
    pub fn help(&self, req: &str) -> (c: MethodCall)
        ensures
            c.is("help"@, Some(req@), 1024),
    {
        method_call("help", Some(String::from_str(req)), 1024)
    }

    /// The call that screens securities by `condition`.
    pub fn wencai_base(&self, condition: &str) -> (c: MethodCall)
        ensures
            c.is("wencai_base"@, Some(condition@), 1048576),
    {
        method_call("wencai_base", Some(String::from_str(condition)), 1048576)
    }

    /// The call that screens securities by a question in plain words.
    pub fn wencai_nlp(&self, condition: &str) -> (c: MethodCall)
        ensures
            c.is("wencai_nlp"@, Some(condition@), 8388608),
    {
        method_call("wencai_nlp", Some(String::from_str(condition)), 8388608)
    }

    /// The call that asks for the sell side of the order book of a
    /// security.
    pub fn order_book_ask(&self, ths_code: &str) -> (c: MethodCall)
        ensures
            c.is("order_book_ask"@, Some(quoted(ths_code@)), 8388608),
    {
        method_call("order_book_ask", Some(quote(ths_code)), 8388608)
    }

    /// The call that asks for the buy side of the order book of a security.
    pub fn order_book_bid(&self, ths_code: &str) -> (c: MethodCall)
        ensures
            c.is("order_book_bid"@, Some(quoted(ths_code@)), 8388608),
    {
        method_call("order_book_bid", Some(quote(ths_code)), 8388608)
    }

    /// The call that asks for today's new listings.
    pub fn ipo_today(&self) -> (c: MethodCall)
        ensures
            c.is("ipo_today"@, None, 1024),
    {
        method_call("ipo_today", None, 1024)
    }

    /// The call that asks for the listings to come.
    pub fn ipo_wait(&self) -> (c: MethodCall)
        ensures
            c.is("ipo_wait"@, None, 1024),
    {
        method_call("ipo_wait", None, 1024)
    }
}

} // verus!
