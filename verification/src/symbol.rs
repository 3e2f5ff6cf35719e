//! Trading pairs: how a symbol splits into base and quote asset.

use vstd::prelude::*;

verus! {

/// Number of quote assets that a symbol is tried against.
pub const QUOTE_ASSET_COUNT: usize = 8;

/// The quote assets that a symbol is tried against, in this order.
pub open spec fn quote_asset_at(i: int) -> Seq<char> {
    if i == 0 {
        "USDT"@
    } else if i == 1 {
        "BUSD"@
    } else if i == 2 {
        "USDC"@
    } else if i == 3 {
        "TUSD"@
    } else if i == 4 {
        "BTC"@
    } else if i == 5 {
        "ETH"@
    } else if i == 6 {
        "BNB"@
    } else {
        "DAI"@
    }
}

/// `s` ends with `suffix`.
pub open spec fn ends_with(s: Seq<char>, suffix: Seq<char>) -> bool {
    suffix.len() <= s.len() && s.skip(s.len() - suffix.len()) == suffix
}

/// The split of `s` by the first quote asset, from the one at `from` on,
/// that `s` ends with and is longer than; the two halves of `s` if there is
/// none.
pub open spec fn split_from(s: Seq<char>, from: int) -> (Seq<char>, Seq<char>)
    decreases QUOTE_ASSET_COUNT - from,
{
    if from < 0 || from >= QUOTE_ASSET_COUNT {
        (s.take(s.len() as int / 2), s.skip(s.len() as int / 2))
    } else if ends_with(s, quote_asset_at(from)) && s.len() > quote_asset_at(from).len() {
        (s.take(s.len() - quote_asset_at(from).len()), quote_asset_at(from))
    } else {
        split_from(s, from + 1)
    }
}

/// Base and quote asset of a symbol: `BTCUSDT` is `BTC` and `USDT`.
pub open spec fn split_symbol(s: Seq<char>) -> (Seq<char>, Seq<char>) {
    split_from(s, 0)
}

/// Returns the quote asset at position `i` of the list.
pub fn quote_asset(i: usize) -> (r: &'static str)
    requires
        i < QUOTE_ASSET_COUNT,
    ensures
        r@ == quote_asset_at(i as int),
{
    if i == 0 {
        "USDT"
    } else if i == 1 {
        "BUSD"
    } else if i == 2 {
        "USDC"
    } else if i == 3 {
        "TUSD"
    } else if i == 4 {
        "BTC"
    } else if i == 5 {
        "ETH"
    } else if i == 6 {
        "BNB"
    } else {
        "DAI"
    }
}

/// Tells whether `s` ends with `suffix`.
pub fn has_suffix(s: &str, suffix: &str) -> (r: bool)
    ensures
        r == ends_with(s@, suffix@),
{
    let n = s.unicode_len();
    let m = suffix.unicode_len();
    if m > n {
        return false;
    }
    let mut j: usize = 0;
    while j < m
        invariant
            n == s@.len(),
            m == suffix@.len(),
            m <= n,
            j <= m,
            forall|k: int| 0 <= k < j ==> s@[n - m + k] == #[trigger] suffix@[k],
        decreases m - j,
    {
        if s.get_char(n - m + j) != suffix.get_char(j) {
            proof {
                assert(s@.skip(n - m)[j as int] == s@[n - m + j]);
            }
            return false;
        }
        j = j + 1;
    }
    proof {
        assert(s@.skip(n - m) =~= suffix@);
    }
    true
}

/// Splits a symbol into base and quote asset.
pub fn parse_symbol(symbol: &str) -> (r: (String, String))
    ensures
        r.0@ == split_symbol(symbol@).0,
        r.1@ == split_symbol(symbol@).1,
{
    let n = symbol.unicode_len();
    let mut i: usize = 0;
    while i < QUOTE_ASSET_COUNT
        invariant
            n == symbol@.len(),
            i <= QUOTE_ASSET_COUNT,
            split_symbol(symbol@) == split_from(symbol@, i as int),
        decreases QUOTE_ASSET_COUNT - i,
    {
        let quote = quote_asset(i);
        let m = quote.unicode_len();
        if has_suffix(symbol, quote) && n > m {
            let base = symbol.substring_char(0, n - m);
            proof {
                assert(symbol@.subrange(0, n - m) =~= symbol@.take(n - m));
            }
            return (base.to_owned(), quote.to_owned());
        }
        i = i + 1;
    }
    let mid = n / 2;
    let base = symbol.substring_char(0, mid);
    let quote = symbol.substring_char(mid, n);
    proof {
        assert(symbol@.subrange(0, mid as int) =~= symbol@.take(mid as int));
        assert(symbol@.subrange(mid as int, n as int) =~= symbol@.skip(mid as int));
    }
    (base.to_owned(), quote.to_owned())
}

/// The texts of the pairs offered while the exchange's list cannot be had.
pub open spec fn default_symbol_texts() -> Seq<Seq<char>> {
    seq![
        "BTCUSDT"@,
        "ETHUSDT"@,
        "XRPUSDT"@,
        "ADAUSDT"@,
        "DOGEUSDT"@,
        "SOLUSDT"@,
        "TRXUSDT"@,
        "RONUSDT"@,
        "BNBUSDT"@,
    ]
}

/// The texts of a list of strings.
pub open spec fn texts_of(strings: Seq<String>) -> Seq<Seq<char>> {
    Seq::new(strings.len(), |i: int| strings[i]@)
}

/// The pairs offered while the exchange's list cannot be had.
pub fn default_symbols() -> (r: Vec<String>)
    ensures
        texts_of(r@) == default_symbol_texts(),
{
    let mut out: Vec<String> = Vec::new();
    out.push("BTCUSDT".to_owned());
    out.push("ETHUSDT".to_owned());
    out.push("XRPUSDT".to_owned());
    out.push("ADAUSDT".to_owned());
    out.push("DOGEUSDT".to_owned());
    out.push("SOLUSDT".to_owned());
    out.push("TRXUSDT".to_owned());
    out.push("RONUSDT".to_owned());
    out.push("BNBUSDT".to_owned());
    proof {
        assert(texts_of(out@) =~= default_symbol_texts());
    }
    out
}

} // verus!
