//! URL construction.
//!
//! Every operation's URL is `BASE_URL + symbol + "/" + segment + "/"`, with
//! the coin's canonical symbol used verbatim as a path segment.

use vstd::prelude::*;
use vstd::string::*;

use crate::coin::{spec_symbol, Coin};

verus! {

/// The fixed origin of the exchange's public market-data API.
pub open spec fn spec_base_url() -> Seq<char> {
    "https://www.mercadobitcoin.net/api/"@
}

/// The URL of one operation: base, symbol, one path segment, each
/// slash-terminated.
pub open spec fn spec_url(c: Coin, seg: Seq<char>) -> Seq<char> {
    spec_base_url() + spec_symbol(c) + "/"@ + seg + "/"@
}

/// The fixed origin, as a string.
pub fn base_url() -> (r: &'static str)
    ensures
        r@ == spec_base_url(),
{
    "https://www.mercadobitcoin.net/api/"
}

/// Builds the URL of the operation with path segment `seg` for `coin`.
pub fn url_for(coin: Coin, seg: &str) -> (r: String)
    ensures
        r@ == spec_url(coin, seg@),
{
    let mut u = String::from_str(base_url());
    u.append(coin.symbol());
    u.append("/");
    u.append(seg);
    u.append("/");
    u
}

/// The URL of the ticker operation.
pub fn ticker_url(coin: Coin) -> (r: String)
    ensures
        r@ == spec_url(coin, "ticker"@),
{
    url_for(coin, "ticker")
}

/// The URL of the order-book operation.
pub fn order_book_url(coin: Coin) -> (r: String)
    ensures
        r@ == spec_url(coin, "orderbook"@),
{
    url_for(coin, "orderbook")
}

/// The URL of the trade-history operation.
pub fn trades_url(coin: Coin) -> (r: String)
    ensures
        r@ == spec_url(coin, "trades"@),
{
    url_for(coin, "trades")
}

/// The URL of the day-summary operation.
///
/// It shares the trade-history path segment, as the client is wired today;
/// the mapping is kept separate here so that pointing it at a dedicated
/// resource, once confirmed, touches only this function.
pub fn day_summary_url(coin: Coin) -> (r: String)
    ensures
        r@ == spec_url(coin, "trades"@),
{
    url_for(coin, "trades")
}

} // verus!
