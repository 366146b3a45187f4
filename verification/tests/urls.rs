use mercadobitcoin::coin::Coin;
use mercadobitcoin::url::{base_url, day_summary_url, order_book_url, ticker_url, trades_url, url_for};

#[test]
fn btc_ticker_url_exact() {
    assert_eq!(ticker_url(Coin::BTC), "https://www.mercadobitcoin.net/api/BTC/ticker/");
}

#[test]
fn eth_order_book_url_exact() {
    assert_eq!(order_book_url(Coin::ETH), "https://www.mercadobitcoin.net/api/ETH/orderbook/");
}

#[test]
fn ltc_trades_url_exact() {
    assert_eq!(trades_url(Coin::LTC), "https://www.mercadobitcoin.net/api/LTC/trades/");
}

#[test]
fn day_summary_url_shares_trades_segment() {
    assert_eq!(day_summary_url(Coin::BTC), trades_url(Coin::BTC));
}

#[test]
fn url_for_interpolates_symbol_and_segment() {
    assert_eq!(url_for(Coin::XRP, "seg"), format!("{}XRP/seg/", base_url()));
}
