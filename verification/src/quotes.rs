//! Quote queries for one security or several: the codes come as one text,
//! separated by commas, and must all lie on the same market.

use vstd::prelude::*;
use vstd::string::StringExecFns;
use crate::error::{THSError, api_error};
use crate::code::{SecurityCode, uppercase, well_formed, splittable, market_texts, market_of, short_of};
use crate::code::{to_uppercase, is_well_formed, split_market, invalid_code_text};
use crate::constants::str_equal;
use crate::requests::{DataQuery, head_text, QUERY_CAPACITY, QUERY_ATTEMPTS};
use crate::session::{THS, SessionState, following_id};
use crate::text::{decimal, push_decimal};

verus! {

/// The fields asked of a quote query for stocks.
pub const STOCK_FIELDS: &'static str =
    "5,6,8,9,10,12,13,402,19,407,24,30,48,49,69,70,3250,920371,55,199112,264648,1968584,461256,1771976,3475914,3541450,526792,3153,592888,592890";

/// The fields asked of a quote query for blocks.
pub const BLOCK_FIELDS: &'static str = "55,38,39,13,19,92,90,5,275,276,277";

/// The pieces of a text between its commas, in order. A text without a
/// comma is its own single piece; two commas in a row, or a comma at either
/// end, give an empty piece.
pub open spec fn split_commas(text: Seq<char>) -> Seq<Seq<char>>
    decreases text.len(),
{
    if text.len() == 0 {
        seq![Seq::<char>::empty()]
    } else {
        let before = split_commas(text.drop_last());
        if text.last() == ',' {
            before.push(Seq::<char>::empty())
        } else {
            before.update(before.len() - 1, before.last().push(text.last()))
        }
    }
}

/// The pieces joined again, with a comma between each two.
pub open spec fn join_commas(pieces: Seq<Seq<char>>) -> Seq<char>
    decreases pieces.len(),
{
    if pieces.len() == 0 {
        Seq::<char>::empty()
    } else if pieces.len() == 1 {
        pieces[0]
    } else {
        join_commas(pieces.drop_last()) + ","@ + pieces.last()
    }
}

/// A text always has at least one piece.
pub proof fn lemma_split_nonempty(text: Seq<char>)
    ensures
        split_commas(text).len() >= 1,
    decreases text.len(),
{
    if text.len() > 0 {
        lemma_split_nonempty(text.drop_last());
    }
}

/// The pieces of a text, joined with commas, are the text again.
pub proof fn law_join_split(text: Seq<char>)
    ensures
        join_commas(split_commas(text)) == text,
    decreases text.len(),
{
    reveal_strlit(",");
    if text.len() == 0 {
        assert(join_commas(split_commas(text)) =~= text);
    } else {
        let front = text.drop_last();
        let before = split_commas(front);
        lemma_split_nonempty(front);
        law_join_split(front);
        if text.last() == ',' {
            let pieces = before.push(Seq::<char>::empty());
            assert(pieces.drop_last() =~= before);
            assert(join_commas(pieces) =~= front.push(','));
            assert(front.push(',') =~= text);
        } else {
            let grown = before.last().push(text.last());
            let pieces = before.update(before.len() - 1, grown);
            if before.len() == 1 {
                assert(join_commas(pieces) =~= before[0].push(text.last()));
            } else {
                assert(pieces.drop_last() =~= before.drop_last());
                assert(join_commas(pieces) =~= (join_commas(before.drop_last()) + ","@
                    + before.last()).push(text.last()));
            }
            assert(front.push(text.last()) =~= text);
        }
    }
}

/// The texts of a list of strings.
pub open spec fn string_texts(list: Seq<String>) -> Seq<Seq<char>> {
    Seq::new(list.len(), |i: int| list[i]@)
}

/// Whether a code of a list is accepted: in upper case it is well formed,
/// and as written it can be split after the market.
pub open spec fn listed_ok(code: Seq<char>, markets: Seq<Seq<char>>) -> bool {
    well_formed(uppercase(code), markets) && splittable(code)
}

/// Whether every code of a list is accepted.
pub open spec fn all_listed_ok(codes: Seq<Seq<char>>, markets: Seq<Seq<char>>) -> bool {
    forall|i: int| 0 <= i < codes.len() ==> listed_ok(#[trigger] codes[i], markets)
}

/// Whether every code of a list lies on the market of the first.
pub open spec fn same_market(codes: Seq<Seq<char>>) -> bool {
    forall|i: int| 0 <= i < codes.len() ==> market_of(#[trigger] codes[i]) == market_of(codes[0])
}

/// The short codes of a list of codes.
pub open spec fn short_codes(codes: Seq<Seq<char>>) -> Seq<Seq<char>> {
    Seq::new(codes.len(), |i: int| short_of(codes[i]))
}

/// The request for the quotes of the securities `codelist` on `market`.
pub open spec fn quote_request_text(
    instance: int,
    zip: int,
    codelist: Seq<char>,
    market: Seq<char>,
    fields: Seq<char>,
) -> Seq<char> {
    head_text("200"@, instance, zip) + "&codelist="@ + codelist + "&market="@ + market
        + "&datatype="@ + fields + "\""@
}

/// The message for codes of several markets in one query.
pub open spec fn mixed_markets_text() -> Seq<char> {
    "the codes of one query must all be on the same market"@
}

/// The message for a malformed block code.
pub open spec fn invalid_block_text() -> Seq<char> {
    "a block code must be 10 characters long"@
}

/// Splits a text at its commas.
pub fn split_at_commas(text: &str) -> (pieces: Vec<String>)
    ensures
        string_texts(pieces@) == split_commas(text@),
        pieces@.len() >= 1,
{
    broadcast use vstd::string::axiom_spec_iter;
    let mut done: Vec<String> = Vec::new();
    let mut current = String::new();
    assert(string_texts(done@).push(current@) =~= split_commas(text@.take(0)));
    for c in it: text.chars()
        invariant
            it.seq() == text@,
            string_texts(done@).push(current@) == split_commas(text@.take(it.index() as int)),
    {
        let ghost k = it.index() as int;
        assert(text@.take(k + 1).drop_last() =~= text@.take(k));
        assert(text@.take(k + 1).last() == c);
        if c == ',' {
            done.push(current);
            current = String::new();
            assert(string_texts(done@).push(current@) =~= split_commas(text@.take(k)).push(
                Seq::<char>::empty(),
            ));
        } else {
            let ghost before = split_commas(text@.take(k));
            current.push(c);
            assert(string_texts(done@).push(current@) =~= before.update(
                before.len() - 1,
                before.last().push(c),
            ));
        }
    }
    assert(text@.take(text@.len() as int) =~= text@);
    let ghost all = string_texts(done@).push(current@);
    done.push(current);
    assert(string_texts(done@) =~= all);
    done
}

/// Splits each code of a list into market and short code, where all are
/// accepted.
fn split_listed(pieces: &Vec<String>, markets: &[&str]) -> (r: Option<Vec<SecurityCode>>)
    ensures
        r is Some <==> all_listed_ok(string_texts(pieces@), market_texts(markets@)),
        match r {
            Some(codes) => codes@.len() == pieces@.len() && forall|i: int|
                0 <= i < codes@.len() ==> (#[trigger] codes@[i]).is_split_of(pieces@[i]@),
            None => true,
        },
{
    let mut codes: Vec<SecurityCode> = Vec::new();
    let mut i: usize = 0;
    while i < pieces.len()
        invariant
            i <= pieces.len(),
            codes@.len() == i,
            forall|j: int|
                0 <= j < i ==> listed_ok(
                    #[trigger] string_texts(pieces@)[j],
                    market_texts(markets@),
                ),
            forall|j: int| 0 <= j < i ==> (#[trigger] codes@[j]).is_split_of(pieces@[j]@),
        decreases pieces.len() - i,
    {
        let piece = pieces[i].as_str();
        let upper = to_uppercase(piece);
        if !is_well_formed(upper.as_str(), markets) {
            assert(!listed_ok(string_texts(pieces@)[i as int], market_texts(markets@)));
            return None;
        }
        match split_market(piece) {
            Some(c) => {
                codes.push(c);
            },
            None => {
                assert(!listed_ok(string_texts(pieces@)[i as int], market_texts(markets@)));
                return None;
            },
        }
        i += 1;
    }
    Some(codes)
}

/// Whether every code lies on the market of the first.
fn share_market(codes: &Vec<SecurityCode>) -> (same: bool)
    ensures
        same == (forall|i: int|
            0 <= i < codes@.len() ==> (#[trigger] codes@[i]).market@ == codes@[0].market@),
{
    let mut i: usize = 1;
    while i < codes.len()
        invariant
            1 <= i,
            forall|j: int| 1 <= j < i && j < codes@.len() ==> (#[trigger] codes@[j]).market@ == codes@[0].market@,
        decreases codes.len() - i,
    {
        if !str_equal(codes[i].market.as_str(), codes[0].market.as_str()) {
            return false;
        }
        i += 1;
    }
    true
}

/// The short codes of a list, as texts.
pub open spec fn short_texts(codes: Seq<SecurityCode>) -> Seq<Seq<char>> {
    Seq::new(codes.len(), |i: int| codes[i].short_code@)
}

/// Joins the short codes with commas.
fn join_short_codes(codes: &Vec<SecurityCode>) -> (out: String)
    ensures
        out@ == join_commas(short_texts(codes@)),
{
    let mut out = String::new();
    let mut i: usize = 0;
    assert(short_texts(codes@).take(0) =~= Seq::<Seq<char>>::empty());
    while i < codes.len()
        invariant
            i <= codes.len(),
            out@ == join_commas(short_texts(codes@).take(i as int)),
        decreases codes.len() - i,
    {
        let ghost upto = short_texts(codes@).take(i as int + 1);
        assert(upto.drop_last() =~= short_texts(codes@).take(i as int));
        assert(upto.last() == codes@[i as int].short_code@);
        if i > 0 {
            out.append(",");
        } else {
            assert(out@ + codes@[0].short_code@ =~= codes@[0].short_code@);
        }
        out.append(codes[i].short_code.as_str());
        i += 1;
    }
    assert(short_texts(codes@).take(codes@.len() as int) =~= short_texts(codes@));
    out
}

/// Builds the request for the quotes of the securities `codelist` on
/// `market`.
pub fn quote_request(instance: i32, zip: i32, codelist: &str, market: &str, fields: &str) -> (out:
    String)
    ensures
        out@ == quote_request_text(instance as int, zip as int, codelist@, market@, fields@),
{
    let mut out = String::from_str("\"id=");
    out.append("200");
    out.append("&instance=");
    push_decimal(&mut out, instance as i64);
    out.append("&zipversion=");
    push_decimal(&mut out, zip as i64);
    out.append("&codelist=");
    out.append(codelist);
    out.append("&market=");
    out.append(market);
    out.append("&datatype=");
    out.append(fields);
    out.append("\"");
    out
}

/// What a quote query returns for a list of codes, and what it does to the
/// session. Every code must be accepted on `markets`, else the query is an
/// `InvalidCode` with the message `invalid`; all must lie on one market,
/// else it is an `ApiError`. Where it succeeds it asks for `fields` of the
/// short codes on that market, and uses up one instance id.
pub open spec fn quote_query_result(
    before: THS,
    after: THS,
    codes_text: Seq<char>,
    markets: Seq<&str>,
    fields: Seq<char>,
    invalid: Seq<char>,
    r: Result<DataQuery, THSError>,
) -> bool {
    let codes = split_commas(codes_text);
    match r {
        Ok(q) => all_listed_ok(codes, market_texts(markets)) && same_market(codes) && q.is(
            quote_request_text(
                before@.instance_id as int,
                2,
                join_commas(short_codes(codes)),
                market_of(codes[0]),
                fields,
            ),
            "fu"@,
        ) && after@ == (SessionState { instance_id: following_id(before@.instance_id), ..before@ }),
        Err(e) => after@ == before@ && if !all_listed_ok(codes, market_texts(markets)) {
            e is InvalidCode && e.message() == invalid
        } else {
            !same_market(codes) && e is ApiError && e.message() == mixed_markets_text()
        },
    }
}

impl THS {
    /// The quote query for the codes in `codes_text`.
    fn quote_query(&mut self, codes_text: &str, markets: &[&str], fields: &str, invalid: &str) -> (r:
        Result<DataQuery, THSError>)
        ensures
            quote_query_result(*old(self), *final(self), codes_text@, markets@, fields@, invalid@, r),
    {
        let pieces = split_at_commas(codes_text);
        let codes = match split_listed(&pieces, markets) {
            Some(c) => c,
            None => {
                return Err(THSError::InvalidCode(String::from_str(invalid)));
            },
        };
        let ghost texts = split_commas(codes_text@);
        proof {
            assert forall|i: int| 0 <= i < texts.len() implies market_of(#[trigger] texts[i])
                == codes@[i].market@ by {
                assert(codes@[i].is_split_of(pieces@[i]@));
            }
            assert(short_texts(codes@) =~= short_codes(texts)) by {
                assert forall|i: int| 0 <= i < texts.len() implies short_texts(codes@)[i]
                    == short_codes(texts)[i] by {
                    assert(codes@[i].is_split_of(pieces@[i]@));
                }
            }
        }
        if !share_market(&codes) {
            proof {
                if same_market(texts) {
                    assert forall|i: int| 0 <= i < codes@.len() implies (#[trigger] codes@[i]).market@
                        == codes@[0].market@ by {
                        assert(market_of(texts[i]) == market_of(texts[0]));
                    }
                }
            }
            return Err(
                api_error(String::from_str("the codes of one query must all be on the same market")),
            );
        }
        proof {
            assert forall|i: int| 0 <= i < texts.len() implies market_of(#[trigger] texts[i])
                == market_of(texts[0]) by {
                assert(codes@[i].market@ == codes@[0].market@);
            }
        }
        let codelist = join_short_codes(&codes);
        let instance = self.next_share_instance_id();
        let zip = self.zip_version();
        let request = quote_request(
            instance,
            zip,
            codelist.as_str(),
            codes[0].market.as_str(),
            fields,
        );
        Ok(
            DataQuery {
                request,
                service_key: String::from_str("fu"),
                buffer_size: QUERY_CAPACITY,
                max_attempts: QUERY_ATTEMPTS,
            },
        )
    }

    /// The quote query for one stock or several, separated by commas.
    pub fn stock_market_data(&mut self, ths_code: &str, markets: &[&str]) -> (r: Result<
        DataQuery,
        THSError,
    >)
        ensures
            quote_query_result(
                *old(self),
                *final(self),
                ths_code@,
                markets@,
                STOCK_FIELDS@,
                invalid_code_text(),
                r,
            ),
    {
        self.quote_query(
            ths_code,
            markets,
            STOCK_FIELDS,
            "a security code must be 10 characters long and begin with a known market",
        )
    }

    /// The quote query for one block or several, separated by commas.
    pub fn block_market_data(&mut self, block_code: &str, block_markets: &[&str]) -> (r: Result<
        DataQuery,
        THSError,
    >)
        ensures
            quote_query_result(
                *old(self),
                *final(self),
                block_code@,
                block_markets@,
                BLOCK_FIELDS@,
                invalid_block_text(),
                r,
            ),
    {
        self.quote_query(
            block_code,
            block_markets,
            BLOCK_FIELDS,
            "a block code must be 10 characters long",
        )
    }
}

} // verus!
