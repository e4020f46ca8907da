//! Security codes: ten bytes of text, of which the first four name the
//! market and the rest the security on that market.

use vstd::prelude::*;
use vstd::string::StringExecFns;
use vstd::string::StringSliceAdditionalSpecFns;
use vstd::utf8::{encode_utf8, decode_utf8, is_char_boundary, valid_utf8};
use vstd::utf8::{encode_utf8_decode_utf8, encode_utf8_valid_utf8, decode_utf8_split};
use vstd::utf8::{decode_utf8_encode_utf8, valid_utf8_split};
use crate::error::THSError;

verus! {

/// The upper-case form of a text, as `str::to_uppercase` gives it.
pub uninterp spec fn uppercase(text: Seq<char>) -> Seq<char>;

/// `str::to_uppercase`: the upper-case form of the text.
#[verifier::external_body]
pub(crate) fn to_uppercase(s: &str) -> (r: String)
    ensures
        r@ == uppercase(s@),
{
    s.to_uppercase()
}

/// `str::starts_with` for a text pattern: whether the text begins with the
/// pattern.
#[verifier::external_body]
fn starts_with(s: &str, prefix: &str) -> (b: bool)
    ensures
        b == prefix@.is_prefix_of(s@),
{
    s.starts_with(prefix)
}

/// The number of bytes that name the market.
pub const MARKET_BYTES: usize = 4;

/// The length in bytes of a security code.
pub const CODE_BYTES: usize = 10;

/// A security code in its two parts.
#[derive(Debug, Clone)]
pub struct SecurityCode {
    /// The market: the first four bytes of the code.
    pub market: String,
    /// The security on that market: the rest of the code.
    pub short_code: String,
}

/// Whether `code` begins with one of `markets`.
pub open spec fn on_known_market(code: Seq<char>, markets: Seq<Seq<char>>) -> bool {
    exists|i: int| 0 <= i < markets.len() && #[trigger] markets[i].is_prefix_of(code)
}

/// Whether `code`, already in upper case, has the form of a security code:
/// ten bytes that begin with one of `markets`.
pub open spec fn well_formed(code: Seq<char>, markets: Seq<Seq<char>>) -> bool {
    encode_utf8(code).len() == CODE_BYTES && on_known_market(code, markets)
}

/// Whether the first four bytes of `text` are whole characters.
pub open spec fn splittable(text: Seq<char>) -> bool {
    is_char_boundary(encode_utf8(text), MARKET_BYTES as int)
}

/// The market of a code: the text of its first four bytes.
pub open spec fn market_of(text: Seq<char>) -> Seq<char> {
    decode_utf8(encode_utf8(text).subrange(0, MARKET_BYTES as int))
}

/// The short code of a code: the text of the bytes after the fourth.
pub open spec fn short_of(text: Seq<char>) -> Seq<char> {
    decode_utf8(encode_utf8(text).subrange(MARKET_BYTES as int, encode_utf8(text).len() as int))
}

impl SecurityCode {
    /// Whether these are the two parts of `text`.
    pub open spec fn is_split_of(self, text: Seq<char>) -> bool {
        self.market@ == market_of(text) && self.short_code@ == short_of(text)
    }
}

/// The two parts of a code that can be split make up the code, and the
/// market is four bytes long.
pub proof fn law_parts_make_code(text: Seq<char>)
    requires
        splittable(text),
    ensures
        market_of(text) + short_of(text) == text,
        encode_utf8(market_of(text)).len() == MARKET_BYTES,
{
    let bytes = encode_utf8(text);
    encode_utf8_valid_utf8(text);
    encode_utf8_decode_utf8(text);
    decode_utf8_split(bytes, MARKET_BYTES as int);
    valid_utf8_split(bytes, MARKET_BYTES as int);
    assert(bytes.len() >= MARKET_BYTES) by {
        reveal_with_fuel(is_char_boundary, 1);
    }
    decode_utf8_encode_utf8(bytes.subrange(0, MARKET_BYTES as int));
}

/// The texts of a list of market names.
pub open spec fn market_texts(markets: Seq<&str>) -> Seq<Seq<char>> {
    Seq::new(markets.len(), |i: int| markets[i]@)
}

/// The message for a malformed security code.
pub open spec fn invalid_code_text() -> Seq<char> {
    "a security code must be 10 characters long and begin with a known market"@
}

/// The failure for a malformed security code.
pub fn invalid_code() -> (e: THSError)
    ensures
        e is InvalidCode,
        e.message() == invalid_code_text(),
{
    THSError::InvalidCode(
        String::from_str(
            "a security code must be 10 characters long and begin with a known market",
        ),
    )
}

/// Whether `code`, already in upper case, has the form of a security code.
pub fn is_well_formed(code: &str, markets: &[&str]) -> (ok: bool)
    ensures
        ok == well_formed(code@, market_texts(markets@)),
{
    if code.as_bytes().len() != CODE_BYTES {
        return false;
    }
    let ghost texts = market_texts(markets@);
    let mut i: usize = 0;
    while i < markets.len()
        invariant
            i <= markets.len(),
            texts == market_texts(markets@),
            encode_utf8(code@).len() == CODE_BYTES,
            forall|j: int| 0 <= j < i ==> !(#[trigger] texts[j]).is_prefix_of(code@),
        decreases markets.len() - i,
    {
        if starts_with(code, markets[i]) {
            assert(market_texts(markets@)[i as int].is_prefix_of(code@));
            assert(on_known_market(code@, market_texts(markets@)));
            return true;
        }
        i += 1;
    }
    false
}

/// Splits `text` after its fourth byte, where a character ends there.
pub fn split_market(text: &str) -> (r: Option<SecurityCode>)
    ensures
        r is Some <==> splittable(text@),
        match r {
            Some(c) => c.is_split_of(text@),
            None => true,
        },
{
    if !text.is_char_boundary(MARKET_BYTES) {
        return None;
    }
    let (head, tail) = text.split_at(MARKET_BYTES);
    proof {
        let bytes = encode_utf8(text@);
        encode_utf8_valid_utf8(text@);
        encode_utf8_decode_utf8(text@);
        encode_utf8_decode_utf8(head@);
        encode_utf8_decode_utf8(tail@);
    }
    Some(SecurityCode { market: String::from_str(head), short_code: String::from_str(tail) })
}

/// Reads a security code: puts it in upper case, checks its form against
/// `markets`, and splits it into market and short code. A code of another
/// form is an `InvalidCode`.
pub fn parse_code(code: &str, markets: &[&str]) -> (r: Result<SecurityCode, THSError>)
    ensures
        match r {
            Ok(c) => well_formed(uppercase(code@), market_texts(markets@)) && splittable(
                uppercase(code@),
            ) && c.is_split_of(uppercase(code@)),
            Err(e) => !(well_formed(uppercase(code@), market_texts(markets@)) && splittable(
                uppercase(code@),
            )) && e is InvalidCode && e.message() == invalid_code_text(),
        },
{
    let upper = to_uppercase(code);
    if !is_well_formed(upper.as_str(), markets) {
        return Err(invalid_code());
    }
    match split_market(upper.as_str()) {
        Some(c) => Ok(c),
        None => Err(invalid_code()),
    }
}

} // verus!
