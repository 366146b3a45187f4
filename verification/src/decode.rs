//! The response value types and their decoders.
//!
//! Each decoder parses a whole response body as JSON and maps it onto one
//! value type, ignoring unknown object members and failing — never defaulting,
//! never panicking — when a required member is missing or of the wrong shape.
//! Price and quantity members are accepted both as JSON strings and as JSON
//! numbers, and always read as exact decimals.

use vstd::prelude::*;
use vstd::string::*;
use vstd::utf8::encode_utf8;

use crate::decimal::{dec_of_bytes, spec_dec_of_bytes, Decimal};
use crate::json::{
    jview, jviews, jviews_obj, lemma_jview_arr, lemma_jview_obj, parse_doc, spec_parse_doc, JVal,
    Json,
};

verus! {

/// A response body that does not decode to the requested shape.
#[derive(Debug, Clone, Copy, PartialEq, Eq, Structural)]
pub struct DecodeError;

/// Snapshot of the last 24 hours of trading for one instrument.
#[derive(Debug, Clone, Copy, PartialEq, Eq, Structural)]
pub struct Ticker {
    /// Highest unit price traded over the period.
    pub high: Decimal,
    /// Lowest unit price traded over the period.
    pub low: Decimal,
    /// Quantity traded over the period.
    pub vol: Decimal,
    /// Unit price of the most recent trade.
    pub last: Decimal,
    /// Best bid: highest open offer to buy.
    pub buy: Decimal,
    /// Best ask: lowest open offer to sell.
    pub sell: Decimal,
    /// Time of the snapshot, in Unix seconds.
    pub date: u64,
}

/// Open offers for one instrument: `asks` ascending and `bids` descending by
/// price, each entry `[unit price, aggregated quantity]`, kept exactly in the
/// order received.
#[derive(Debug)]
pub struct OrderBook {
    pub asks: Vec<Vec<Decimal>>,
    pub bids: Vec<Vec<Decimal>>,
}

/// Which side's order was the executing (taker) side of a trade.
#[derive(Debug, Clone, Copy, PartialEq, Eq, Structural)]
pub enum TradeType {
    Sell,
    Buy,
}

/// One executed transaction.
#[derive(Debug, Clone, Copy, PartialEq, Eq, Structural)]
pub struct Trade {
    /// Time of execution, in Unix seconds.
    pub date: u64,
    /// Unit price.
    pub price: Decimal,
    /// Quantity traded.
    pub amount: Decimal,
    /// Unique, monotonically increasing trade identifier.
    pub tid: usize,
    /// Taker side of the trade (the wire member is named `type`).
    pub tp: TradeType,
}

/// Aggregate statistics for one instrument on one calendar day.
#[derive(Debug, Clone, PartialEq, Eq)]
pub struct DaySummary {
    /// The day the summary is for, as sent by the exchange.
    pub date: String,
    /// Opening unit price.
    pub opening: Decimal,
    /// Closing unit price.
    pub closing: Decimal,
    /// Lowest unit price.
    pub lowest: Decimal,
    /// Highest unit price.
    pub highest: Decimal,
    /// Quote-currency volume traded.
    pub volume: Decimal,
    /// Base-currency quantity traded.
    pub quantity: Decimal,
    /// Number of trades.
    pub amount: usize,
    /// Volume-weighted average unit price.
    pub avg_price: Decimal,
}

/// Specification-level day summary: the date as its raw (UTF-8) bytes.
pub struct DaySummaryV {
    pub date: Seq<u8>,
    pub opening: Decimal,
    pub closing: Decimal,
    pub lowest: Decimal,
    pub highest: Decimal,
    pub volume: Decimal,
    pub quantity: Decimal,
    pub amount: usize,
    pub avg_price: Decimal,
}

/// `ds` is the decoded form of `dv`: same fields, and the date string's UTF-8
/// encoding is the raw bytes.
pub open spec fn day_summary_matches(ds: DaySummary, dv: DaySummaryV) -> bool {
    &&& encode_utf8(ds.date@) == dv.date
    &&& ds.opening == dv.opening
    &&& ds.closing == dv.closing
    &&& ds.lowest == dv.lowest
    &&& ds.highest == dv.highest
    &&& ds.volume == dv.volume
    &&& ds.quantity == dv.quantity
    &&& ds.amount == dv.amount
    &&& ds.avg_price == dv.avg_price
}

/// First member of `es` named `key`, searching from index `k`.
pub open spec fn obj_lookup_from(es: Seq<(Seq<u8>, JVal)>, key: Seq<u8>, k: int) -> Option<JVal>
    decreases es.len() - k,
{
    if !(0 <= k < es.len()) {
        None
    } else if es[k].0 == key {
        Some(es[k].1)
    } else {
        obj_lookup_from(es, key, k + 1)
    }
}

/// First member of `es` named `key`.
pub open spec fn obj_lookup(es: Seq<(Seq<u8>, JVal)>, key: Seq<u8>) -> Option<JVal> {
    obj_lookup_from(es, key, 0)
}

/// A decimal quantity: a JSON number, or a JSON string holding a decimal
/// literal.
pub open spec fn jval_as_dec(v: JVal) -> Option<Decimal> {
    match v {
        JVal::Num(d) => Some(d),
        JVal::Str(b) => spec_dec_of_bytes(b),
        _ => None,
    }
}

/// An unsigned integer: a non-negative JSON number without a fraction.
pub open spec fn jval_as_u64(v: JVal) -> Option<u64> {
    match v {
        JVal::Num(d) => if !d.neg && d.scale == 0 && d.mantissa <= u64::MAX as u128 {
            Some(d.mantissa as u64)
        } else {
            None
        },
        _ => None,
    }
}

/// An unsigned machine-word integer: as `jval_as_u64`, within `usize`.
pub open spec fn jval_as_usize(v: JVal) -> Option<usize> {
    match v {
        JVal::Num(d) => if !d.neg && d.scale == 0 && d.mantissa <= usize::MAX as u128 {
            Some(d.mantissa as usize)
        } else {
            None
        },
        _ => None,
    }
}

/// The member `key` of `es`, as a decimal quantity.
pub open spec fn spec_field_dec(es: Seq<(Seq<u8>, JVal)>, key: Seq<u8>) -> Option<Decimal> {
    match obj_lookup(es, key) {
        Some(v) => jval_as_dec(v),
        None => None,
    }
}

/// The member `key` of `es`, as an unsigned integer.
pub open spec fn spec_field_u64(es: Seq<(Seq<u8>, JVal)>, key: Seq<u8>) -> Option<u64> {
    match obj_lookup(es, key) {
        Some(v) => jval_as_u64(v),
        None => None,
    }
}

/// The member `key` of `es`, as an unsigned machine-word integer.
pub open spec fn spec_field_usize(es: Seq<(Seq<u8>, JVal)>, key: Seq<u8>) -> Option<usize> {
    match obj_lookup(es, key) {
        Some(v) => jval_as_usize(v),
        None => None,
    }
}

/// The member `key` of `es`, as a string's bytes.
pub open spec fn spec_field_str(es: Seq<(Seq<u8>, JVal)>, key: Seq<u8>) -> Option<Seq<u8>> {
    match obj_lookup(es, key) {
        Some(JVal::Str(b)) => Some(b),
        _ => None,
    }
}

/// The ticker object's members, mapped onto a `Ticker`.
pub open spec fn spec_ticker_fields(es: Seq<(Seq<u8>, JVal)>) -> Option<Ticker> {
    let high = spec_field_dec(es, "high".spec_bytes());
    let low = spec_field_dec(es, "low".spec_bytes());
    let vol = spec_field_dec(es, "vol".spec_bytes());
    let last = spec_field_dec(es, "last".spec_bytes());
    let buy = spec_field_dec(es, "buy".spec_bytes());
    let sell = spec_field_dec(es, "sell".spec_bytes());
    let date = spec_field_u64(es, "date".spec_bytes());
    if high is Some && low is Some && vol is Some && last is Some && buy is Some && sell is Some
        && date is Some {
        Some(
            Ticker {
                high: high->0,
                low: low->0,
                vol: vol->0,
                last: last->0,
                buy: buy->0,
                sell: sell->0,
                date: date->0,
            },
        )
    } else {
        None
    }
}

/// A ticker response: an object whose `ticker` member holds the statistics.
pub open spec fn spec_ticker_of(v: JVal) -> Option<Ticker> {
    match v {
        JVal::Obj(es) => match obj_lookup(es, "ticker".spec_bytes()) {
            Some(JVal::Obj(t)) => spec_ticker_fields(t),
            _ => None,
        },
        _ => None,
    }
}

/// What decoding a ticker body yields, if anything.
pub open spec fn spec_decode_ticker(s: Seq<u8>) -> Option<Ticker> {
    match spec_parse_doc(s) {
        Some(v) => spec_ticker_of(v),
        None => None,
    }
}

/// One order-book row: every element a decimal quantity, in order.
pub open spec fn row_acc(es: Seq<JVal>, k: int, acc: Seq<Decimal>) -> Option<Seq<Decimal>>
    decreases es.len() - k,
{
    if !(0 <= k <= es.len()) {
        None
    } else if k == es.len() {
        Some(acc)
    } else {
        match jval_as_dec(es[k]) {
            Some(d) => row_acc(es, k + 1, acc.push(d)),
            None => None,
        }
    }
}

/// Order-book rows: every element an array of decimal quantities, in order.
pub open spec fn rows_acc(es: Seq<JVal>, k: int, acc: Seq<Seq<Decimal>>) -> Option<
    Seq<Seq<Decimal>>,
>
    decreases es.len() - k,
{
    if !(0 <= k <= es.len()) {
        None
    } else if k == es.len() {
        Some(acc)
    } else {
        match es[k] {
            JVal::Arr(row) => match row_acc(row, 0, Seq::empty()) {
                Some(rw) => rows_acc(es, k + 1, acc.push(rw)),
                None => None,
            },
            _ => None,
        }
    }
}

/// An array of order-book rows.
pub open spec fn jval_rows(v: JVal) -> Option<Seq<Seq<Decimal>>> {
    match v {
        JVal::Arr(es) => rows_acc(es, 0, Seq::empty()),
        _ => None,
    }
}

/// An order-book response: an object with `asks` and `bids` row arrays.
pub open spec fn spec_order_book_of(v: JVal) -> Option<(Seq<Seq<Decimal>>, Seq<Seq<Decimal>>)> {
    match v {
        JVal::Obj(es) => {
            let asks = match obj_lookup(es, "asks".spec_bytes()) {
                Some(a) => jval_rows(a),
                None => None,
            };
            let bids = match obj_lookup(es, "bids".spec_bytes()) {
                Some(b) => jval_rows(b),
                None => None,
            };
            if asks is Some && bids is Some {
                Some((asks->0, bids->0))
            } else {
                None
            }
        },
        _ => None,
    }
}

/// What decoding an order-book body yields, if anything.
pub open spec fn spec_decode_order_book(s: Seq<u8>) -> Option<
    (Seq<Seq<Decimal>>, Seq<Seq<Decimal>>),
> {
    match spec_parse_doc(s) {
        Some(v) => spec_order_book_of(v),
        None => None,
    }
}

/// Element-wise view of decoded order-book rows.
pub open spec fn rows_view(v: Seq<Vec<Decimal>>) -> Seq<Seq<Decimal>> {
    Seq::new(v.len(), |k: int| v[k]@)
}

/// The taker-side tag: the wire sends `"buy"` or `"sell"`.
pub open spec fn spec_trade_type(b: Seq<u8>) -> Option<TradeType> {
    if b == "buy".spec_bytes() {
        Some(TradeType::Buy)
    } else if b == "sell".spec_bytes() {
        Some(TradeType::Sell)
    } else {
        None
    }
}

/// One trade object's members, mapped onto a `Trade`.
pub open spec fn spec_trade_of(v: JVal) -> Option<Trade> {
    match v {
        JVal::Obj(es) => {
            let date = spec_field_u64(es, "date".spec_bytes());
            let price = spec_field_dec(es, "price".spec_bytes());
            let amount = spec_field_dec(es, "amount".spec_bytes());
            let tid = spec_field_usize(es, "tid".spec_bytes());
            let tp = match spec_field_str(es, "type".spec_bytes()) {
                Some(b) => spec_trade_type(b),
                None => None,
            };
            if date is Some && price is Some && amount is Some && tid is Some && tp is Some {
                Some(
                    Trade {
                        date: date->0,
                        price: price->0,
                        amount: amount->0,
                        tid: tid->0,
                        tp: tp->0,
                    },
                )
            } else {
                None
            }
        },
        _ => None,
    }
}

/// The trades of a trade-history array, in order.
pub open spec fn trades_acc(es: Seq<JVal>, k: int, acc: Seq<Trade>) -> Option<Seq<Trade>>
    decreases es.len() - k,
{
    if !(0 <= k <= es.len()) {
        None
    } else if k == es.len() {
        Some(acc)
    } else {
        match spec_trade_of(es[k]) {
            Some(t) => trades_acc(es, k + 1, acc.push(t)),
            None => None,
        }
    }
}

/// What decoding a trade-history body yields, if anything.
pub open spec fn spec_decode_trades(s: Seq<u8>) -> Option<Seq<Trade>> {
    match spec_parse_doc(s) {
        Some(JVal::Arr(es)) => trades_acc(es, 0, Seq::empty()),
        _ => None,
    }
}

/// The day-summary object's members, mapped onto a `DaySummaryV`.
pub open spec fn spec_day_summary_of(v: JVal) -> Option<DaySummaryV> {
    match v {
        JVal::Obj(es) => {
            let date = spec_field_str(es, "date".spec_bytes());
            let opening = spec_field_dec(es, "opening".spec_bytes());
            let closing = spec_field_dec(es, "closing".spec_bytes());
            let lowest = spec_field_dec(es, "lowest".spec_bytes());
            let highest = spec_field_dec(es, "highest".spec_bytes());
            let volume = spec_field_dec(es, "volume".spec_bytes());
            let quantity = spec_field_dec(es, "quantity".spec_bytes());
            let amount = spec_field_usize(es, "amount".spec_bytes());
            let avg_price = spec_field_dec(es, "avg_price".spec_bytes());
            if date is Some && opening is Some && closing is Some && lowest is Some && highest
                is Some && volume is Some && quantity is Some && amount is Some && avg_price
                is Some {
                Some(
                    DaySummaryV {
                        date: date->0,
                        opening: opening->0,
                        closing: closing->0,
                        lowest: lowest->0,
                        highest: highest->0,
                        volume: volume->0,
                        quantity: quantity->0,
                        amount: amount->0,
                        avg_price: avg_price->0,
                    },
                )
            } else {
                None
            }
        },
        _ => None,
    }
}

/// What decoding a day-summary body yields, if anything.
pub open spec fn spec_decode_day_summary(s: Seq<u8>) -> Option<DaySummaryV> {
    match spec_parse_doc(s) {
        Some(v) => spec_day_summary_of(v),
        None => None,
    }
}

/// Do the bytes of `k` spell `name`?
fn key_is(k: &Vec<u8>, name: &str) -> (r: bool)
    ensures
        r == (k@ == name.spec_bytes()),
{
    let nb = name.as_bytes();
    if k.len() != nb.len() {
        return false;
    }
    let mut t: usize = 0;
    while t < nb.len()
        invariant
            0 <= t <= nb@.len(),
            k@.len() == nb@.len(),
            nb@ == name.spec_bytes(),
            forall|u: int| 0 <= u < t ==> k@[u] == nb@[u],
        decreases nb@.len() - t,
    {
        if k[t] != nb[t] {
            return false;
        }
        t = t + 1;
    }
    proof {
        assert(k@ =~= nb@);
    }
    true
}

/// First member of `es` named `name`, exactly as `obj_lookup` describes.
fn obj_get<'a>(es: &'a Vec<(Vec<u8>, Json)>, name: &str) -> (r: Option<&'a Json>)
    ensures
        match r {
            Some(v) => obj_lookup(jviews_obj(es@), name.spec_bytes()) == Some(jview(*v)),
            None => obj_lookup(jviews_obj(es@), name.spec_bytes()) is None,
        },
{
    let ghost ev = jviews_obj(es@);
    let ghost key = name.spec_bytes();
    let mut t: usize = 0;
    while t < es.len()
        invariant
            0 <= t <= es@.len(),
            ev == jviews_obj(es@),
            key == name.spec_bytes(),
            ev.len() == es@.len(),
            obj_lookup_from(ev, key, 0) == obj_lookup_from(ev, key, t as int),
        decreases es@.len() - t,
    {
        if key_is(&es[t].0, name) {
            assert(ev[t as int].0 == key);
            return Some(&es[t].1);
        }
        assert(ev[t as int].0 != key);
        t = t + 1;
    }
    None
}

/// The object members of `j`, if it is an object.
fn as_obj<'a>(j: &'a Json) -> (r: Option<&'a Vec<(Vec<u8>, Json)>>)
    ensures
        match r {
            Some(es) => jview(*j) == JVal::Obj(jviews_obj(es@)),
            None => !(jview(*j) is Obj),
        },
{
    match j {
        Json::Obj(es) => {
            proof {
                lemma_jview_obj(*es);
            }
            Some(es)
        },
        Json::Null => None,
        Json::Bool(_) => None,
        Json::Num(_) => None,
        Json::Str(_) => None,
        Json::Arr(_) => None,
    }
}

/// The array elements of `j`, if it is an array.
fn as_arr<'a>(j: &'a Json) -> (r: Option<&'a Vec<Json>>)
    ensures
        match r {
            Some(es) => jview(*j) == JVal::Arr(jviews(es@)),
            None => !(jview(*j) is Arr),
        },
{
    match j {
        Json::Arr(es) => {
            proof {
                lemma_jview_arr(*es);
            }
            Some(es)
        },
        Json::Null => None,
        Json::Bool(_) => None,
        Json::Num(_) => None,
        Json::Str(_) => None,
        Json::Obj(_) => None,
    }
}

/// `j` as a decimal quantity, exactly as `jval_as_dec` describes.
fn as_dec(j: &Json) -> (r: Option<Decimal>)
    ensures
        r == jval_as_dec(jview(*j)),
{
    match j {
        Json::Num(d) => Some(*d),
        Json::Str(b) => dec_of_bytes(b.as_slice()),
        Json::Null => None,
        Json::Bool(_) => None,
        Json::Arr(_) => None,
        Json::Obj(_) => None,
    }
}

/// `j` as an unsigned integer, exactly as `jval_as_u64` describes.
fn as_u64(j: &Json) -> (r: Option<u64>)
    ensures
        r == jval_as_u64(jview(*j)),
{
    match j {
        Json::Num(d) => {
            if !d.neg && d.scale == 0 && d.mantissa <= u64::MAX as u128 {
                Some(d.mantissa as u64)
            } else {
                None
            }
        },
        Json::Null => None,
        Json::Bool(_) => None,
        Json::Str(_) => None,
        Json::Arr(_) => None,
        Json::Obj(_) => None,
    }
}

/// `j` as an unsigned machine-word integer, exactly as `jval_as_usize`
/// describes.
fn as_usize(j: &Json) -> (r: Option<usize>)
    ensures
        r == jval_as_usize(jview(*j)),
{
    match j {
        Json::Num(d) => {
            if !d.neg && d.scale == 0 && d.mantissa <= usize::MAX as u128 {
                Some(d.mantissa as usize)
            } else {
                None
            }
        },
        Json::Null => None,
        Json::Bool(_) => None,
        Json::Str(_) => None,
        Json::Arr(_) => None,
        Json::Obj(_) => None,
    }
}

/// The member `name` of `es` as a decimal quantity.
fn field_dec(es: &Vec<(Vec<u8>, Json)>, name: &str) -> (r: Option<Decimal>)
    ensures
        r == spec_field_dec(jviews_obj(es@), name.spec_bytes()),
{
    match obj_get(es, name) {
        Some(j) => as_dec(j),
        None => None,
    }
}

/// The member `name` of `es` as an unsigned integer.
fn field_u64(es: &Vec<(Vec<u8>, Json)>, name: &str) -> (r: Option<u64>)
    ensures
        r == spec_field_u64(jviews_obj(es@), name.spec_bytes()),
{
    match obj_get(es, name) {
        Some(j) => as_u64(j),
        None => None,
    }
}

/// The member `name` of `es` as an unsigned machine-word integer.
fn field_usize(es: &Vec<(Vec<u8>, Json)>, name: &str) -> (r: Option<usize>)
    ensures
        r == spec_field_usize(jviews_obj(es@), name.spec_bytes()),
{
    match obj_get(es, name) {
        Some(j) => as_usize(j),
        None => None,
    }
}

/// The member `name` of `es` as a string's bytes.
fn field_str<'a>(es: &'a Vec<(Vec<u8>, Json)>, name: &str) -> (r: Option<&'a Vec<u8>>)
    ensures
        match r {
            Some(b) => spec_field_str(jviews_obj(es@), name.spec_bytes()) == Some(b@),
            None => spec_field_str(jviews_obj(es@), name.spec_bytes()) is None,
        },
{
    match obj_get(es, name) {
        Some(j) => match j {
            Json::Str(b) => Some(b),
            Json::Null => None,
            Json::Bool(_) => None,
            Json::Num(_) => None,
            Json::Arr(_) => None,
            Json::Obj(_) => None,
        },
        None => None,
    }
}

/// Decodes a ticker response body.
///
/// Succeeds, with exactly the value `spec_decode_ticker` gives, if and only if
/// the body is well-formed JSON of the ticker shape.
pub fn decode_ticker(body: &[u8]) -> (r: Result<Ticker, DecodeError>)
    ensures
        match r {
            Ok(t) => spec_decode_ticker(body@) == Some(t),
            Err(_) => spec_decode_ticker(body@) is None,
        },
{
    let doc = match parse_doc(body) {
        Some(d) => d,
        None => {
            return Err(DecodeError);
        },
    };
    let entries = match as_obj(&doc) {
        Some(es) => es,
        None => {
            return Err(DecodeError);
        },
    };
    let tv = match obj_get(entries, "ticker") {
        Some(t) => t,
        None => {
            return Err(DecodeError);
        },
    };
    let tes = match as_obj(tv) {
        Some(es) => es,
        None => {
            return Err(DecodeError);
        },
    };
    let high = match field_dec(tes, "high") {
        Some(d) => d,
        None => {
            return Err(DecodeError);
        },
    };
    let low = match field_dec(tes, "low") {
        Some(d) => d,
        None => {
            return Err(DecodeError);
        },
    };
    let vol = match field_dec(tes, "vol") {
        Some(d) => d,
        None => {
            return Err(DecodeError);
        },
    };
    let last = match field_dec(tes, "last") {
        Some(d) => d,
        None => {
            return Err(DecodeError);
        },
    };
    let buy = match field_dec(tes, "buy") {
        Some(d) => d,
        None => {
            return Err(DecodeError);
        },
    };
    let sell = match field_dec(tes, "sell") {
        Some(d) => d,
        None => {
            return Err(DecodeError);
        },
    };
    let date = match field_u64(tes, "date") {
        Some(d) => d,
        None => {
            return Err(DecodeError);
        },
    };
    Ok(Ticker { high, low, vol, last, buy, sell, date })
}

/// Decodes one order-book row.
fn decode_row(es: &Vec<Json>) -> (r: Option<Vec<Decimal>>)
    ensures
        match r {
            Some(row) => row_acc(jviews(es@), 0, Seq::empty()) == Some(row@),
            None => row_acc(jviews(es@), 0, Seq::empty()) is None,
        },
{
    let ghost ev = jviews(es@);
    let mut acc: Vec<Decimal> = Vec::new();
    let mut t: usize = 0;
    while t < es.len()
        invariant
            0 <= t <= es@.len(),
            ev == jviews(es@),
            ev.len() == es@.len(),
            row_acc(ev, 0, Seq::empty()) == row_acc(ev, t as int, acc@),
        decreases es@.len() - t,
    {
        match as_dec(&es[t]) {
            Some(d) => {
                acc.push(d);
            },
            None => {
                return None;
            },
        }
        t = t + 1;
    }
    Some(acc)
}

/// Decodes an array of order-book rows.
fn decode_rows(es: &Vec<Json>) -> (r: Option<Vec<Vec<Decimal>>>)
    ensures
        match r {
            Some(rows) => rows_acc(jviews(es@), 0, Seq::empty()) == Some(rows_view(rows@)),
            None => rows_acc(jviews(es@), 0, Seq::empty()) is None,
        },
{
    let ghost ev = jviews(es@);
    let mut acc: Vec<Vec<Decimal>> = Vec::new();
    let mut t: usize = 0;
    proof {
        assert(rows_view(acc@) =~= Seq::<Seq<Decimal>>::empty());
    }
    while t < es.len()
        invariant
            0 <= t <= es@.len(),
            ev == jviews(es@),
            ev.len() == es@.len(),
            rows_acc(ev, 0, Seq::empty()) == rows_acc(ev, t as int, rows_view(acc@)),
        decreases es@.len() - t,
    {
        let row_es = match as_arr(&es[t]) {
            Some(re) => re,
            None => {
                return None;
            },
        };
        let row = match decode_row(row_es) {
            Some(rw) => rw,
            None => {
                return None;
            },
        };
        let ghost before = rows_view(acc@);
        let ghost rv = row@;
        acc.push(row);
        proof {
            assert(rows_view(acc@) =~= before.push(rv));
        }
        t = t + 1;
    }
    Some(acc)
}

/// Decodes an order-book response body.
///
/// Succeeds, with exactly the rows `spec_decode_order_book` gives — order
/// preserved, nothing re-sorted or re-aggregated — if and only if the body is
/// well-formed JSON of the order-book shape.
pub fn decode_order_book(body: &[u8]) -> (r: Result<OrderBook, DecodeError>)
    ensures
        match r {
            Ok(ob) => spec_decode_order_book(body@) == Some(
                (rows_view(ob.asks@), rows_view(ob.bids@)),
            ),
            Err(_) => spec_decode_order_book(body@) is None,
        },
{
    let doc = match parse_doc(body) {
        Some(d) => d,
        None => {
            return Err(DecodeError);
        },
    };
    let entries = match as_obj(&doc) {
        Some(es) => es,
        None => {
            return Err(DecodeError);
        },
    };
    let asks_v = match obj_get(entries, "asks") {
        Some(a) => a,
        None => {
            return Err(DecodeError);
        },
    };
    let bids_v = match obj_get(entries, "bids") {
        Some(b) => b,
        None => {
            return Err(DecodeError);
        },
    };
    let asks_es = match as_arr(asks_v) {
        Some(es) => es,
        None => {
            return Err(DecodeError);
        },
    };
    let bids_es = match as_arr(bids_v) {
        Some(es) => es,
        None => {
            return Err(DecodeError);
        },
    };
    let asks = match decode_rows(asks_es) {
        Some(rows) => rows,
        None => {
            return Err(DecodeError);
        },
    };
    let bids = match decode_rows(bids_es) {
        Some(rows) => rows,
        None => {
            return Err(DecodeError);
        },
    };
    Ok(OrderBook { asks, bids })
}

/// Decodes one trade object, exactly as `spec_trade_of` describes.
fn decode_trade(j: &Json) -> (r: Option<Trade>)
    ensures
        r == spec_trade_of(jview(*j)),
{
    let es = match as_obj(j) {
        Some(es) => es,
        None => {
            return None;
        },
    };
    let date = match field_u64(es, "date") {
        Some(d) => d,
        None => {
            return None;
        },
    };
    let price = match field_dec(es, "price") {
        Some(d) => d,
        None => {
            return None;
        },
    };
    let amount = match field_dec(es, "amount") {
        Some(d) => d,
        None => {
            return None;
        },
    };
    let tid = match field_usize(es, "tid") {
        Some(d) => d,
        None => {
            return None;
        },
    };
    let tag = match field_str(es, "type") {
        Some(b) => b,
        None => {
            return None;
        },
    };
    let tp = if key_is(tag, "buy") {
        TradeType::Buy
    } else if key_is(tag, "sell") {
        TradeType::Sell
    } else {
        return None;
    };
    Some(Trade { date, price, amount, tid, tp })
}

/// Decodes a trade-history response body.
///
/// Succeeds, with exactly the trades `spec_decode_trades` gives, in wire
/// order, if and only if the body is a well-formed JSON array of trades.
pub fn decode_trades(body: &[u8]) -> (r: Result<Vec<Trade>, DecodeError>)
    ensures
        match r {
            Ok(ts) => spec_decode_trades(body@) == Some(ts@),
            Err(_) => spec_decode_trades(body@) is None,
        },
{
    let doc = match parse_doc(body) {
        Some(d) => d,
        None => {
            return Err(DecodeError);
        },
    };
    let es = match as_arr(&doc) {
        Some(es) => es,
        None => {
            return Err(DecodeError);
        },
    };
    let ghost ev = jviews(es@);
    let mut acc: Vec<Trade> = Vec::new();
    let mut t: usize = 0;
    while t < es.len()
        invariant
            0 <= t <= es@.len(),
            ev == jviews(es@),
            ev.len() == es@.len(),
            spec_parse_doc(body@) == Some(JVal::Arr(ev)),
            trades_acc(ev, 0, Seq::empty()) == trades_acc(ev, t as int, acc@),
        decreases es@.len() - t,
    {
        match decode_trade(&es[t]) {
            Some(tr) => {
                acc.push(tr);
            },
            None => {
                proof {
                    assert(ev[t as int] == jview(es@[t as int]));
                    assert(trades_acc(ev, t as int, acc@) is None);
                }
                return Err(DecodeError);
            },
        }
        t = t + 1;
    }
    Ok(acc)
}

/// Relies on `String::from_utf8`: it succeeds exactly on UTF-8 input, and the
/// returned string's UTF-8 encoding is the input bytes.
#[verifier::external_body]
fn string_from_utf8(v: Vec<u8>) -> (r: Option<String>)
    ensures
        match r {
            Some(s) => encode_utf8(s@) == v@,
            None => !(exists|cs: Seq<char>| encode_utf8(cs) == v@),
        },
{
    match String::from_utf8(v) {
        Ok(s) => Some(s),
        Err(_) => None,
    }
}

/// Decodes a day-summary response body.
///
/// Succeeds if and only if the body is well-formed JSON of the day-summary
/// shape and its date string is UTF-8; the value is then exactly the one
/// `spec_decode_day_summary` gives, with the date bytes decoded to a string.
pub fn decode_day_summary(body: &[u8]) -> (r: Result<DaySummary, DecodeError>)
    ensures
        match r {
            Ok(ds) => spec_decode_day_summary(body@) matches Some(dv) && day_summary_matches(
                ds,
                dv,
            ),
            Err(_) => match spec_decode_day_summary(body@) {
                Some(dv) => !(exists|cs: Seq<char>| encode_utf8(cs) == dv.date),
                None => true,
            },
        },
{
    let doc = match parse_doc(body) {
        Some(d) => d,
        None => {
            return Err(DecodeError);
        },
    };
    let es = match as_obj(&doc) {
        Some(es) => es,
        None => {
            return Err(DecodeError);
        },
    };
    let date_bytes = match field_str(es, "date") {
        Some(b) => b,
        None => {
            return Err(DecodeError);
        },
    };
    let opening = match field_dec(es, "opening") {
        Some(d) => d,
        None => {
            return Err(DecodeError);
        },
    };
    let closing = match field_dec(es, "closing") {
        Some(d) => d,
        None => {
            return Err(DecodeError);
        },
    };
    let lowest = match field_dec(es, "lowest") {
        Some(d) => d,
        None => {
            return Err(DecodeError);
        },
    };
    let highest = match field_dec(es, "highest") {
        Some(d) => d,
        None => {
            return Err(DecodeError);
        },
    };
    let volume = match field_dec(es, "volume") {
        Some(d) => d,
        None => {
            return Err(DecodeError);
        },
    };
    let quantity = match field_dec(es, "quantity") {
        Some(d) => d,
        None => {
            return Err(DecodeError);
        },
    };
    let amount = match field_usize(es, "amount") {
        Some(d) => d,
        None => {
            return Err(DecodeError);
        },
    };
    let avg_price = match field_dec(es, "avg_price") {
        Some(d) => d,
        None => {
            return Err(DecodeError);
        },
    };
    let date = match string_from_utf8(date_bytes.clone()) {
        Some(s) => s,
        None => {
            return Err(DecodeError);
        },
    };
    Ok(DaySummary { date, opening, closing, lowest, highest, volume, quantity, amount, avg_price })
}

} // verus!
