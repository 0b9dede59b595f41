//! Price-feed certification: a spot price fetched from an exchange's public
//! API is accepted only when the response status is 2xx and the price is a
//! numeric decimal string; the certified record keeps the raw price string
//! unchanged. Two upstream response shapes are supported, one flat
//! (symbol and price) and one nested (amount, base and currency), with the
//! same normalization downstream.

use vstd::prelude::*;
use vstd::string::*;

use crate::text::str_eq;

verus! {

pub open spec fn is_digit_char(c: char) -> bool {
    '0' <= c && c <= '9'
}

/// A numeric decimal price string: nonempty, only digits and at most one
/// decimal point, and at least one digit.
pub open spec fn is_decimal_string(s: Seq<char>) -> bool {
    &&& s.len() > 0
    &&& forall|i: int| 0 <= i < s.len() ==> is_digit_char(#[trigger] s[i]) || s[i] == '.'
    &&& forall|i: int, j: int|
        0 <= i < s.len() && 0 <= j < s.len() && (#[trigger] s[i]) == '.' && (#[trigger] s[j])
            == '.' ==> i == j
    &&& exists|i: int| 0 <= i < s.len() && is_digit_char(#[trigger] s[i])
}

/// Decide whether a price string is numeric.
pub fn is_decimal_str(s: &str) -> (b: bool)
    ensures
        b == is_decimal_string(s@),
{
    let n = s.unicode_len();
    if n == 0 {
        return false;
    }
    let mut i: usize = 0;
    let mut saw_digit = false;
    let mut dot_at: Option<usize> = Option::None;
    while i < n
        invariant
            n == s@.len(),
            i <= n,
            forall|k: int| 0 <= k < i ==> is_digit_char(#[trigger] s@[k]) || s@[k] == '.',
            saw_digit <==> exists|k: int| 0 <= k < i && is_digit_char(#[trigger] s@[k]),
            match dot_at {
                Option::Some(d) => d < i && s@[d as int] == '.' && forall|k: int|
                    0 <= k < i && (#[trigger] s@[k]) == '.' ==> k == d,
                Option::None => forall|k: int| 0 <= k < i ==> (#[trigger] s@[k]) != '.',
            },
        decreases n - i,
    {
        let c = s.get_char(i);
        if '0' <= c && c <= '9' {
            saw_digit = true;
        } else if c == '.' {
            match dot_at {
                Option::Some(_) => {
                    return false;
                },
                Option::None => {
                    dot_at = Option::Some(i);
                },
            }
        } else {
            return false;
        }
        i += 1;
    }
    saw_digit
}

/// Whether an HTTP status code counts as success (2xx).
pub fn is_success_status(status: u16) -> (b: bool)
    ensures
        b == (200 <= status < 300),
{
    200 <= status && status < 300
}

/// Build the ticker-price endpoint URL of the flat-shape API for a symbol.
pub fn binance_url(symbol: &str) -> (r: String)
    ensures
        r@ == "https://api.binance.com/api/v3/ticker/price?symbol="@ + symbol@,
{
    let prefix = String::from_str("https://api.binance.com/api/v3/ticker/price?symbol=");
    prefix.concat(symbol)
}

/// Build the spot-price endpoint URL of the nested-shape API for a symbol.
pub fn coinbase_url(symbol: &str) -> (r: String)
    ensures
        r@ == "https://api.coinbase.com/v2/prices/"@ + symbol@ + "/spot"@,
{
    let prefix = String::from_str("https://api.coinbase.com/v2/prices/");
    prefix.concat(symbol).concat("/spot")
}

/// Join the nested-shape response's base and currency into a trading-pair
/// symbol.
pub fn coinbase_symbol(base: &str, currency: &str) -> (r: String)
    ensures
        r@ == base@ + "-"@ + currency@,
{
    String::from_str(base).concat("-").concat(currency)
}

/// The certified record a successful price fetch produces. The raw price
/// string is kept verbatim; display rounding never touches it.
#[derive(Debug)]
pub struct PriceFeedResult {
    pub symbol: String,
    pub raw_price: String,
    pub timestamp: String,
    pub source: String,
    pub certified: bool,
}

/// Why a price fetch is rejected: a non-2xx upstream status, or a price
/// string that is not numeric. Both are terminal input errors, not
/// certification failures.
#[derive(Clone, Copy, Debug, PartialEq, Eq, Structural)]
pub enum PriceFeedError {
    BadStatus(u16),
    NonNumericPrice,
}

/// Normalize one upstream response into a certified record. Succeeds exactly
/// on a 2xx status with a numeric price string; the record then carries the
/// inputs unchanged and is always marked certified. The status is checked
/// first, so a bad status wins over a bad price.
pub fn evaluate_price_feed(
    symbol: String,
    raw_price: String,
    status: u16,
    timestamp: String,
    source: String,
) -> (r: Result<PriceFeedResult, PriceFeedError>)
    ensures
        r is Ok <==> 200 <= status < 300 && is_decimal_string(raw_price@),
        r matches Ok(p) ==> p.symbol@ == symbol@,
        r matches Ok(p) ==> p.raw_price@ == raw_price@,
        r matches Ok(p) ==> p.timestamp@ == timestamp@,
        r matches Ok(p) ==> p.source@ == source@,
        r matches Ok(p) ==> p.certified,
        !(200 <= status < 300) <==> r == Result::<PriceFeedResult, PriceFeedError>::Err(
            PriceFeedError::BadStatus(status),
        ),
        200 <= status < 300 && !is_decimal_string(raw_price@) <==> r == Result::<
            PriceFeedResult,
            PriceFeedError,
        >::Err(PriceFeedError::NonNumericPrice),
{
    if !is_success_status(status) {
        Result::Err(PriceFeedError::BadStatus(status))
    } else if !is_decimal_str(raw_price.as_str()) {
        Result::Err(PriceFeedError::NonNumericPrice)
    } else {
        Result::Ok(
            PriceFeedResult { symbol, raw_price, timestamp, source, certified: true },
        )
    }
}

/// Whether a command-line argument carries the symbol flag.
pub open spec fn has_symbol_flag(arg: Seq<char>) -> bool {
    arg.len() >= 9 && arg.subrange(0, 9) == "--symbol="@
}

/// The characters of s before its first '=', or all of s when it has none.
pub open spec fn prefix_before_eq(s: Seq<char>) -> Seq<char>
    decreases s.len(),
{
    if s.len() == 0 {
        s
    } else if s[0] == '=' {
        Seq::empty()
    } else {
        seq![s[0]] + prefix_before_eq(s.subrange(1, s.len() as int))
    }
}

/// When the first j characters of t are '='-free and t either ends at j or
/// has '=' there, the prefix before the first '=' is exactly t up to j.
proof fn lemma_prefix_before_eq_of_clean_prefix(t: Seq<char>, j: int)
    requires
        0 <= j <= t.len(),
        forall|i: int| 0 <= i < j ==> t[i] != '=',
        j == t.len() || t[j] == '=',
    ensures
        prefix_before_eq(t) == t.subrange(0, j),
    decreases j,
{
    if j == 0 {
        if t.len() == 0 {
            assert(t.subrange(0, 0) =~= t);
        } else {
            assert(prefix_before_eq(t) =~= t.subrange(0, 0));
        }
    } else {
        let rest = t.subrange(1, t.len() as int);
        assert(forall|i: int| 0 <= i < j - 1 ==> rest[i] != '=');
        lemma_prefix_before_eq_of_clean_prefix(rest, j - 1);
        assert(rest.subrange(0, j - 1) =~= t.subrange(1, j));
        assert(seq![t[0]] + t.subrange(1, j) =~= t.subrange(0, j));
    }
}

/// Extract the value of a hand-rolled `--symbol=` flag: the characters
/// after the flag's own '=' up to the next '=' or the end of the argument.
/// Arguments that do not carry the flag are passed over.
pub fn parse_symbol_flag(arg: &str) -> (r: Option<String>)
    ensures
        r is Some <==> has_symbol_flag(arg@),
        r matches Some(v) ==> v@ == prefix_before_eq(arg@.subrange(9, arg@.len() as int)),
{
    let n = arg.unicode_len();
    if n < 9 {
        return Option::None;
    }
    let head = arg.substring_char(0, 9);
    if !str_eq(head, "--symbol=") {
        return Option::None;
    }
    let mut j: usize = 9;
    while j < n && arg.get_char(j) != '='
        invariant
            n == arg@.len(),
            9 <= j <= n,
            forall|k: int| 9 <= k < j ==> arg@[k] != '=',
        decreases n - j,
    {
        j += 1;
    }
    let val = arg.substring_char(9, j);
    proof {
        let t = arg@.subrange(9, n as int);
        assert(forall|i: int| 0 <= i < j - 9 ==> t[i] != '=');
        lemma_prefix_before_eq_of_clean_prefix(t, j - 9);
        assert(t.subrange(0, j - 9) =~= arg@.subrange(9, j as int));
    }
    Option::Some(val.to_owned())
}

/// The symbol fetched when no flag overrides it.
pub open spec fn default_symbol() -> Seq<char> {
    "BTCUSDT"@
}

/// The spec-level view of each argument string.
pub open spec fn views_of(args: Seq<String>) -> Seq<Seq<char>> {
    args.map_values(|a: String| a@)
}

/// The symbol the argument list names from position i on: the value of the
/// first `--symbol=` flag, or the default when none occurs.
pub open spec fn spec_symbol_from(args: Seq<Seq<char>>, i: int) -> Seq<char>
    decreases args.len() - i,
{
    if i < 0 || i >= args.len() {
        default_symbol()
    } else if has_symbol_flag(args[i]) {
        prefix_before_eq(args[i].subrange(9, args[i].len() as int))
    } else {
        spec_symbol_from(args, i + 1)
    }
}

/// The uppercase image of a character sequence, as str::to_uppercase maps
/// it.
pub uninterp spec fn upper_of(s: Seq<char>) -> Seq<char>;

/// Relies on str::to_uppercase: the result depends on the characters alone,
/// and an empty string stays empty.
#[verifier::external_body]
fn to_uppercase_str(s: &str) -> (r: String)
    ensures
        r@ == upper_of(s@),
        s@.len() == 0 ==> r@.len() == 0,
{
    s.to_uppercase()
}

/// Uppercase a user-supplied trading symbol to its canonical form.
pub fn normalize_symbol(s: &str) -> (r: String)
    ensures
        r@ == upper_of(s@),
{
    to_uppercase_str(s)
}

/// Choose the symbol to fetch from the raw argument list (program name
/// first): the value of the first `--symbol=` flag after the program name,
/// or the default when no argument carries the flag, uppercased either way.
pub fn select_symbol(args: &Vec<String>) -> (r: String)
    ensures
        r@ == upper_of(spec_symbol_from(views_of(args@), 1)),
{
    let ghost views = views_of(args@);
    let n = args.len();
    let mut i: usize = 1;
    let mut flag_val: Option<String> = Option::None;
    while i < n && flag_val.is_none()
        invariant
            n == args@.len(),
            views == views_of(args@),
            1 <= i,
            flag_val is None ==> spec_symbol_from(views, 1) == spec_symbol_from(views, i as int),
            flag_val matches Some(v) ==> v@ == spec_symbol_from(views, 1),
        decreases n - i,
    {
        let a = &args[i];
        proof {
            assert(views[i as int] == a@);
        }
        match parse_symbol_flag(a.as_str()) {
            Option::Some(v) => {
                flag_val = Option::Some(v);
                i += 1;
            },
            Option::None => {
                i += 1;
            },
        }
    }
    let sym = match flag_val {
        Option::Some(v) => v,
        Option::None => String::from_str("BTCUSDT"),
    };
    to_uppercase_str(sym.as_str())
}

/// Relies on chrono's Utc::now together with DateTime::to_rfc3339: an
/// RFC 3339 timestamp of the current wall-clock time. The value depends on
/// the clock, so nothing is promised of it.
#[verifier::external_body]
fn now_rfc3339() -> String {
    chrono::Utc::now().to_rfc3339()
}

/// Certify a flat-shape (symbol, price) response observed with the given
/// HTTP status, stamped with the current time and the flat API's label.
pub fn binance_result(symbol: String, raw_price: String, status: u16) -> (r: Result<
    PriceFeedResult,
    PriceFeedError,
>)
    ensures
        r is Ok <==> 200 <= status < 300 && is_decimal_string(raw_price@),
        r matches Ok(p) ==> p.symbol@ == symbol@,
        r matches Ok(p) ==> p.raw_price@ == raw_price@,
        r matches Ok(p) ==> p.source@ == "Binance API"@,
        r matches Ok(p) ==> p.certified,
        !(200 <= status < 300) <==> r == Result::<PriceFeedResult, PriceFeedError>::Err(
            PriceFeedError::BadStatus(status),
        ),
        200 <= status < 300 && !is_decimal_string(raw_price@) <==> r == Result::<
            PriceFeedResult,
            PriceFeedError,
        >::Err(PriceFeedError::NonNumericPrice),
{
    let timestamp = now_rfc3339();
    let source = String::from_str("Binance API");
    evaluate_price_feed(symbol, raw_price, status, timestamp, source)
}

/// Certify a nested-shape (amount, base, currency) response observed with
/// the given HTTP status: the certified symbol joins base and currency,
/// stamped with the current time and the nested API's label.
pub fn coinbase_result(base: String, currency: String, amount: String, status: u16) -> (r: Result<
    PriceFeedResult,
    PriceFeedError,
>)
    ensures
        r is Ok <==> 200 <= status < 300 && is_decimal_string(amount@),
        r matches Ok(p) ==> p.symbol@ == base@ + "-"@ + currency@,
        r matches Ok(p) ==> p.raw_price@ == amount@,
        r matches Ok(p) ==> p.source@ == "Coinbase API"@,
        r matches Ok(p) ==> p.certified,
        !(200 <= status < 300) <==> r == Result::<PriceFeedResult, PriceFeedError>::Err(
            PriceFeedError::BadStatus(status),
        ),
        200 <= status < 300 && !is_decimal_string(amount@) <==> r == Result::<
            PriceFeedResult,
            PriceFeedError,
        >::Err(PriceFeedError::NonNumericPrice),
{
    let symbol = coinbase_symbol(base.as_str(), currency.as_str());
    let timestamp = now_rfc3339();
    let source = String::from_str("Coinbase API");
    evaluate_price_feed(symbol, amount, status, timestamp, source)
}

} // verus!
