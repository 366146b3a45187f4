use mercadobitcoin::decimal::Decimal;
use mercadobitcoin::decode::{decode_day_summary, decode_order_book, decode_ticker, decode_trades, TradeType};

fn dec(neg: bool, mantissa: u128, scale: u32) -> Decimal {
    Decimal { neg, mantissa, scale }
}

#[test]
fn ticker_well_formed() {
    let body = "{\"ticker\":{\"high\":\"35000.00\",\"low\":\"34000.00\",\"vol\":\"120.5\",\"last\":\"34500.00\",\"buy\":\"34490.00\",\"sell\":\"34510.00\",\"date\":1623110400}}";
    let t = decode_ticker(body.as_bytes()).unwrap();
    assert_eq!(t.last, dec(false, 3450000, 2));
    assert_eq!(t.high, dec(false, 3500000, 2));
    assert_eq!(t.low, dec(false, 3400000, 2));
    assert_eq!(t.vol, dec(false, 1205, 1));
    assert_eq!(t.buy, dec(false, 3449000, 2));
    assert_eq!(t.sell, dec(false, 3451000, 2));
    assert_eq!(t.date, 1623110400);
}

#[test]
fn ticker_numeric_and_string_forms_agree() {
    let with_strings = "{\"ticker\":{\"high\":\"35000.00\",\"low\":\"34000.00\",\"vol\":\"120.5\",\"last\":\"34500.00\",\"buy\":\"34490.00\",\"sell\":\"34510.00\",\"date\":7}}";
    let with_numbers = "{\"ticker\":{\"high\":35000.00,\"low\":34000.00,\"vol\":120.5,\"last\":34500.00,\"buy\":34490.00,\"sell\":34510.00,\"date\":7}}";
    let a = decode_ticker(with_strings.as_bytes()).unwrap();
    let b = decode_ticker(with_numbers.as_bytes()).unwrap();
    assert_eq!(a, b);
}

#[test]
fn ticker_ignores_unknown_members() {
    let body = "{\"extra\":[1,{\"deep\":null}],\"ticker\":{\"note\":\"a\\nb\",\"high\":\"1\",\"low\":\"1\",\"vol\":\"1\",\"last\":\"1\",\"buy\":\"1\",\"sell\":\"1\",\"date\":0}}";
    let t = decode_ticker(body.as_bytes()).unwrap();
    assert_eq!(t.last, dec(false, 1, 0));
}

#[test]
fn ticker_key_absent_fails() {
    let body = "{\"nothing\":{}}";
    assert!(decode_ticker(body.as_bytes()).is_err());
}

#[test]
fn ticker_missing_member_fails() {
    let body = "{\"ticker\":{\"high\":\"1\",\"low\":\"1\",\"vol\":\"1\",\"buy\":\"1\",\"sell\":\"1\",\"date\":0}}";
    assert!(decode_ticker(body.as_bytes()).is_err());
}

#[test]
fn ticker_null_member_fails() {
    let body = "{\"ticker\":{\"high\":null,\"low\":\"1\",\"vol\":\"1\",\"last\":\"1\",\"buy\":\"1\",\"sell\":\"1\",\"date\":0}}";
    assert!(decode_ticker(body.as_bytes()).is_err());
}

#[test]
fn ticker_fractional_date_fails() {
    let body = "{\"ticker\":{\"high\":\"1\",\"low\":\"1\",\"vol\":\"1\",\"last\":\"1\",\"buy\":\"1\",\"sell\":\"1\",\"date\":1.5}}";
    assert!(decode_ticker(body.as_bytes()).is_err());
}

#[test]
fn ticker_garbage_body_fails() {
    assert!(decode_ticker(b"").is_err());
    assert!(decode_ticker(b"null").is_err());
    assert!(decode_ticker(b"{\"ticker\":").is_err());
    assert!(decode_ticker(b"[1,2,3]").is_err());
}

#[test]
fn ticker_bad_decimal_fails() {
    let body = "{\"ticker\":{\"high\":\"1..2\",\"low\":\"1\",\"vol\":\"1\",\"last\":\"1\",\"buy\":\"1\",\"sell\":\"1\",\"date\":0}}";
    assert!(decode_ticker(body.as_bytes()).is_err());
    let body2 = "{\"ticker\":{\"high\":\"\",\"low\":\"1\",\"vol\":\"1\",\"last\":\"1\",\"buy\":\"1\",\"sell\":\"1\",\"date\":0}}";
    assert!(decode_ticker(body2.as_bytes()).is_err());
}

#[test]
fn decimal_out_of_range_fails() {
    // One digit above the 96-bit mantissa bound.
    let body = "{\"ticker\":{\"high\":\"99999999999999999999999999999999\",\"low\":\"1\",\"vol\":\"1\",\"last\":\"1\",\"buy\":\"1\",\"sell\":\"1\",\"date\":0}}";
    assert!(decode_ticker(body.as_bytes()).is_err());
    // More than 28 fractional digits.
    let body2 = "{\"ticker\":{\"high\":\"0.00000000000000000000000000001\",\"low\":\"1\",\"vol\":\"1\",\"last\":\"1\",\"buy\":\"1\",\"sell\":\"1\",\"date\":0}}";
    assert!(decode_ticker(body2.as_bytes()).is_err());
}

#[test]
fn ticker_negative_decimal_is_kept() {
    let body = "{\"ticker\":{\"high\":\"-1.5\",\"low\":\"1\",\"vol\":\"1\",\"last\":\"1\",\"buy\":\"1\",\"sell\":\"1\",\"date\":0}}";
    let t = decode_ticker(body.as_bytes()).unwrap();
    assert_eq!(t.high, dec(true, 15, 1));
}

#[test]
fn order_book_preserves_order_and_values() {
    let body = "{\"asks\":[[\"100.5\",\"2.0\"]],\"bids\":[[\"99.5\",\"1.0\"]]}";
    let ob = decode_order_book(body.as_bytes()).unwrap();
    assert_eq!(ob.asks.len(), 1);
    assert_eq!(ob.bids.len(), 1);
    assert_eq!(ob.asks[0], vec![dec(false, 1005, 1), dec(false, 20, 1)]);
    assert_eq!(ob.bids[0], vec![dec(false, 995, 1), dec(false, 10, 1)]);
}

#[test]
fn order_book_does_not_resort() {
    // Entries deliberately out of price order: they must come back as sent.
    let body = "{\"asks\":[[\"3\",\"1\"],[\"1\",\"1\"],[\"2\",\"1\"]],\"bids\":[]}";
    let ob = decode_order_book(body.as_bytes()).unwrap();
    assert_eq!(ob.asks.len(), 3);
    assert_eq!(ob.asks[0][0], dec(false, 3, 0));
    assert_eq!(ob.asks[1][0], dec(false, 1, 0));
    assert_eq!(ob.asks[2][0], dec(false, 2, 0));
    assert_eq!(ob.bids.len(), 0);
}

#[test]
fn order_book_missing_side_fails() {
    assert!(decode_order_book(b"{\"asks\":[]}").is_err());
}

#[test]
fn order_book_non_decimal_entry_fails() {
    assert!(decode_order_book(b"{\"asks\":[[true]],\"bids\":[]}").is_err());
}

#[test]
fn trades_tags_and_order() {
    let body = "[{\"date\":1623110400,\"price\":\"10.0\",\"amount\":\"1.5\",\"tid\":100,\"type\":\"buy\"},{\"date\":1623110500,\"price\":\"11.0\",\"amount\":\"2.5\",\"tid\":101,\"type\":\"sell\"}]";
    let ts = decode_trades(body.as_bytes()).unwrap();
    assert_eq!(ts.len(), 2);
    assert_eq!(ts[0].tp, TradeType::Buy);
    assert_eq!(ts[1].tp, TradeType::Sell);
    assert_eq!(ts[0].tid, 100);
    assert_eq!(ts[1].tid, 101);
    assert_eq!(ts[0].date, 1623110400);
    assert_eq!(ts[0].price, dec(false, 100, 1));
    assert_eq!(ts[1].amount, dec(false, 25, 1));
}

#[test]
fn trades_null_price_fails() {
    let body = "[{\"date\":1,\"price\":null,\"amount\":\"1\",\"tid\":1,\"type\":\"buy\"}]";
    assert!(decode_trades(body.as_bytes()).is_err());
}

#[test]
fn trades_unknown_tag_fails() {
    let body = "[{\"date\":1,\"price\":\"1\",\"amount\":\"1\",\"tid\":1,\"type\":\"hold\"}]";
    assert!(decode_trades(body.as_bytes()).is_err());
}

#[test]
fn trades_empty_array_is_empty() {
    let ts = decode_trades(b"[]").unwrap();
    assert_eq!(ts.len(), 0);
}

#[test]
fn trades_object_body_fails() {
    assert!(decode_trades(b"{}").is_err());
}

#[test]
fn day_summary_well_formed() {
    let body = "{\"date\":\"2021-06-07\",\"opening\":\"330000.0\",\"closing\":\"331000.5\",\"lowest\":\"329000.0\",\"highest\":\"332000.0\",\"volume\":\"1000000.00\",\"quantity\":\"3.02\",\"amount\":42,\"avg_price\":\"330500.25\"}";
    let ds = decode_day_summary(body.as_bytes()).unwrap();
    assert_eq!(ds.date, "2021-06-07");
    assert_eq!(ds.opening, dec(false, 3300000, 1));
    assert_eq!(ds.closing, dec(false, 3310005, 1));
    assert_eq!(ds.lowest, dec(false, 3290000, 1));
    assert_eq!(ds.highest, dec(false, 3320000, 1));
    assert_eq!(ds.volume, dec(false, 100000000, 2));
    assert_eq!(ds.quantity, dec(false, 302, 2));
    assert_eq!(ds.amount, 42);
    assert_eq!(ds.avg_price, dec(false, 33050025, 2));
}

#[test]
fn day_summary_numeric_date_fails() {
    let body = "{\"date\":20210607,\"opening\":\"1\",\"closing\":\"1\",\"lowest\":\"1\",\"highest\":\"1\",\"volume\":\"1\",\"quantity\":\"1\",\"amount\":1,\"avg_price\":\"1\"}";
    assert!(decode_day_summary(body.as_bytes()).is_err());
}

#[test]
fn day_summary_missing_member_fails() {
    let body = "{\"date\":\"2021-06-07\",\"opening\":\"1\"}";
    assert!(decode_day_summary(body.as_bytes()).is_err());
}

#[test]
fn whitespace_is_tolerated() {
    let body = " {\n\t\"asks\" : [ [ \"1.5\" , \"2\" ] ] , \"bids\" : [ ] } ";
    let ob = decode_order_book(body.as_bytes()).unwrap();
    assert_eq!(ob.asks[0][0], dec(false, 15, 1));
}

#[test]
fn trailing_garbage_fails() {
    assert!(decode_order_book(b"{\"asks\":[],\"bids\":[]}x").is_err());
}

#[test]
fn exponent_form_fails() {
    assert!(decode_order_book(b"{\"asks\":[[1e3]],\"bids\":[]}").is_err());
}

#[test]
fn duplicate_member_first_wins() {
    let body = "{\"asks\":[],\"bids\":[],\"asks\":[[\"1\",\"2\"]]}";
    let ob = decode_order_book(body.as_bytes()).unwrap();
    assert_eq!(ob.asks.len(), 0);
}

#[test]
fn unicode_escape_fails() {
    let body = "{\"date\":\"a\\u0041\",\"opening\":\"1\",\"closing\":\"1\",\"lowest\":\"1\",\"highest\":\"1\",\"volume\":\"1\",\"quantity\":\"1\",\"amount\":1,\"avg_price\":\"1\"}";
    assert!(decode_day_summary(body.as_bytes()).is_err());
}

#[test]
fn string_escapes_are_decoded() {
    let body = "{\"date\":\"a\\\"b\\\\c\",\"opening\":\"1\",\"closing\":\"1\",\"lowest\":\"1\",\"highest\":\"1\",\"volume\":\"1\",\"quantity\":\"1\",\"amount\":1,\"avg_price\":\"1\"}";
    let ds = decode_day_summary(body.as_bytes()).unwrap();
    assert_eq!(ds.date, "a\"b\\c");
}
