//! The price stream: which address to connect to, and which event a
//! message carries.

use vstd::prelude::*;
use crate::models::ticker::{CombinedStreamWrapper, MiniTickerEvent};
use crate::text::{push_str, string_from_chars};

verus! {

/// Seconds to wait before connecting again after the stream has ended.
pub const RECONNECT_DELAY_SECS: u64 = 5;

/// The text in lower case, as `str::to_lowercase` gives it.
pub uninterp spec fn lowercase(text: Seq<char>) -> Seq<char>;

/// Puts a text in lower case with `str::to_lowercase`.
///
/// Trusted: the result is the lower-case form of the text, a function of
/// the text alone.
#[verifier::external_body]
fn to_lowercase(text: &str) -> (r: String)
    ensures
        r@ == lowercase(text@),
{
    text.to_lowercase()
}

/// The name of the stream of one symbol.
pub open spec fn stream_name(symbol: Seq<char>) -> Seq<char> {
    lowercase(symbol) + "@miniTicker"@
}

/// The stream names of the symbols, joined by `/`.
pub open spec fn stream_names(symbols: Seq<String>) -> Seq<char>
    decreases symbols.len(),
{
    if symbols.len() == 0 {
        Seq::empty()
    } else if symbols.len() == 1 {
        stream_name(symbols[0]@)
    } else {
        stream_names(symbols.drop_last()) + "/"@ + stream_name(symbols.last()@)
    }
}

/// The address of the combined stream of the symbols.
pub open spec fn stream_address(symbols: Seq<String>) -> Seq<char> {
    "wss://stream.binance.com:9443/stream?streams="@ + stream_names(symbols)
}

/// Returns the address of the combined stream of the symbols, or `None`
/// where there is no symbol to stream: then the feed waits for the list to
/// change. Prices are public, so the address is on the main network.
pub fn stream_url(symbols: &Vec<String>) -> (r: Option<String>)
    ensures
        symbols@.len() == 0 ==> r is None,
        symbols@.len() > 0 ==> (r matches Some(url) && url@ == stream_address(symbols@)),
{
    if symbols.len() == 0 {
        return None;
    }
    let mut out: Vec<char> = Vec::new();
    push_str(&mut out, "wss://stream.binance.com:9443/stream?streams=");
    let ghost prefix = out@;
    let mut i: usize = 0;
    while i < symbols.len()
        invariant
            i <= symbols.len(),
            prefix == "wss://stream.binance.com:9443/stream?streams="@,
            out@ == prefix + stream_names(symbols@.take(i as int)),
        decreases symbols.len() - i,
    {
        proof {
            assert(symbols@.take(i + 1).drop_last() =~= symbols@.take(i as int));
            assert(symbols@.take(i + 1).last() == symbols@[i as int]);
            assert(symbols@.take(i + 1)[0] == symbols@[0]);
        }
        if i > 0 {
            push_str(&mut out, "/");
        }
        let lower = to_lowercase(symbols[i].as_str());
        push_str(&mut out, lower.as_str());
        push_str(&mut out, "@miniTicker");
        proof {
            assert(out@ =~= prefix + stream_names(symbols@.take(i + 1)));
        }
        i = i + 1;
    }
    proof {
        assert(symbols@.take(i as int) =~= symbols@);
    }
    Some(string_from_chars(&out))
}

/// The event that a text message carries: that of the combined-stream
/// wrapper where the message is one, else the message itself where it is an
/// event, else none.
pub fn select_event(wrapped: Option<CombinedStreamWrapper>, bare: Option<MiniTickerEvent>) -> (r: Option<MiniTickerEvent>)
    ensures
        r == (match wrapped {
            Some(w) => Some(w.data),
            None => bare,
        }),
{
    match wrapped {
        Some(w) => Some(w.data),
        None => bare,
    }
}

} // verus!
