//! The unauthenticated market-data surface.
//!
//! One method per endpoint: each builds the request to send, and a
//! matching function decodes the response body into the typed model. No
//! authentication is involved; the transport performs the request and
//! hands the status and body back.

use vstd::prelude::*;

use crate::clock::Timestamp;
use crate::decimal::Decimal;
use crate::decode::{
    arr_field, bool_field, dec_field, get_dec, get_side, get_str, get_time, get_u64, get_uuid,
    side_field, str_field, time_field, u64_field, uuid_field,
};
use crate::ids::Uuid;
use crate::json::{elements_view, json_view, Json, JsonVal};
use crate::{Error, Side};

verus! {

/// How deep an order book to ask for.
#[derive(Clone, Copy, Debug, PartialEq, Eq, Structural)]
pub enum Level {
    Best,
    Top50,
    Full,
}

/// The number the book endpoint expects for each level.
pub open spec fn level_number(level: Level) -> u64 {
    match level {
        Level::Best => 1,
        Level::Top50 => 2,
        Level::Full => 3,
    }
}

impl Level {
    /// The query value for this level.
    pub fn number(&self) -> (r: u64)
        ensures
            r == level_number(*self),
    {
        match self {
            Level::Best => 1,
            Level::Top50 => 2,
            Level::Full => 3,
        }
    }
}

/// A tradable pair and its size limits.
#[derive(Clone, Debug)]
pub struct Product {
    pub id: String,
    pub base_currency: String,
    pub quote_currency: String,
    pub base_min_size: Decimal,
    pub base_max_size: Decimal,
    pub quote_increment: Decimal,
}

/// One depth-aggregated row of an order book.
#[derive(Clone, Copy, Debug, PartialEq, Eq, Structural)]
pub struct BookEntry {
    pub price: Decimal,
    pub size: Decimal,
    pub num_orders: u64,
}

/// One per-order row of a full order book.
#[derive(Clone, Debug)]
pub struct FullBookEntry {
    pub price: Decimal,
    pub size: Decimal,
    pub order_id: Uuid,
}

/// An order-book snapshot: a monotonic sequence number and the two sides.
#[derive(Clone, Debug)]
pub struct OrderBook<T> {
    pub sequence: u64,
    pub bids: Vec<T>,
    pub asks: Vec<T>,
}

/// The latest tick of a product.
#[derive(Clone, Debug)]
pub struct Tick {
    pub trade_id: u64,
    pub price: Decimal,
    pub size: Decimal,
    pub bid: Decimal,
    pub ask: Decimal,
    pub volume: Decimal,
    pub time: Timestamp,
}

/// One public trade.
#[derive(Clone, Debug)]
pub struct Trade {
    pub time: Timestamp,
    pub trade_id: u64,
    pub price: Decimal,
    pub size: Decimal,
    pub side: Side,
}

/// One historic-rate bucket.
#[derive(Clone, Copy, Debug, PartialEq, Eq, Structural)]
pub struct Candle {
    pub time: u64,
    pub low: Decimal,
    pub high: Decimal,
    pub open: Decimal,
    pub close: Decimal,
    pub volume: Decimal,
}

/// A day's statistics for a product.
#[derive(Clone, Copy, Debug, PartialEq, Eq, Structural)]
pub struct Stats {
    pub open: Decimal,
    pub high: Decimal,
    pub low: Decimal,
    pub volume: Decimal,
}

/// A currency the exchange knows.
#[derive(Clone, Debug)]
pub struct Currency {
    pub id: String,
    pub name: String,
    pub min_size: Decimal,
}

/// The exchange's clock.
#[derive(Clone, Debug)]
pub struct Time {
    pub iso: Timestamp,
    pub epoch: Decimal,
}

/// Which trees decode as a [`Product`].
pub open spec fn product_ok(t: JsonVal) -> bool {
    &&& str_field(t, "id"@) is Some
    &&& str_field(t, "base_currency"@) is Some
    &&& str_field(t, "quote_currency"@) is Some
    &&& dec_field(t, "base_min_size"@) is Some
    &&& dec_field(t, "base_max_size"@) is Some
    &&& dec_field(t, "quote_increment"@) is Some
}

/// What a decoded [`Product`] holds, field by field.
pub open spec fn product_matches(t: JsonVal, p: Product) -> bool {
    &&& str_field(t, "id"@) == Some(p.id@)
    &&& str_field(t, "base_currency"@) == Some(p.base_currency@)
    &&& str_field(t, "quote_currency"@) == Some(p.quote_currency@)
    &&& dec_field(t, "base_min_size"@) == Some(p.base_min_size)
    &&& dec_field(t, "base_max_size"@) == Some(p.base_max_size)
    &&& dec_field(t, "quote_increment"@) == Some(p.quote_increment)
}

/// Decode one product object.
pub fn decode_product(j: &Json) -> (r: Result<Product, Error>)
    ensures
        match r {
            Ok(p) => product_ok(json_view(*j)) && product_matches(json_view(*j), p),
            Err(e) => !product_ok(json_view(*j)) && e is Json,
        },
{
    let id = match get_str(j, "id") {
        Ok(v) => v,
        Err(e) => {
            return Err(e);
        },
    };
    let base_currency = match get_str(j, "base_currency") {
        Ok(v) => v,
        Err(e) => {
            return Err(e);
        },
    };
    let quote_currency = match get_str(j, "quote_currency") {
        Ok(v) => v,
        Err(e) => {
            return Err(e);
        },
    };
    let base_min_size = match get_dec(j, "base_min_size") {
        Ok(v) => v,
        Err(e) => {
            return Err(e);
        },
    };
    let base_max_size = match get_dec(j, "base_max_size") {
        Ok(v) => v,
        Err(e) => {
            return Err(e);
        },
    };
    let quote_increment = match get_dec(j, "quote_increment") {
        Ok(v) => v,
        Err(e) => {
            return Err(e);
        },
    };
    Ok(
        Product {
            id,
            base_currency,
            quote_currency,
            base_min_size,
            base_max_size,
            quote_increment,
        },
    )
}

/// Which trees decode as a [`BookEntry`].
pub open spec fn book_entry_ok(t: JsonVal) -> bool {
    &&& dec_field(t, "price"@) is Some
    &&& dec_field(t, "size"@) is Some
    &&& u64_field(t, "num_orders"@) is Some
}

/// What a decoded [`BookEntry`] holds.
pub open spec fn book_entry_matches(t: JsonVal, e: BookEntry) -> bool {
    &&& dec_field(t, "price"@) == Some(e.price)
    &&& dec_field(t, "size"@) == Some(e.size)
    &&& u64_field(t, "num_orders"@) == Some(e.num_orders)
}

/// Decode one aggregated book row.
pub fn decode_book_entry(j: &Json) -> (r: Result<BookEntry, Error>)
    ensures
        match r {
            Ok(e) => book_entry_ok(json_view(*j)) && book_entry_matches(json_view(*j), e),
            Err(e) => !book_entry_ok(json_view(*j)) && e is Json,
        },
{
    let price = match get_dec(j, "price") {
        Ok(v) => v,
        Err(e) => {
            return Err(e);
        },
    };
    let size = match get_dec(j, "size") {
        Ok(v) => v,
        Err(e) => {
            return Err(e);
        },
    };
    let num_orders = match get_u64(j, "num_orders") {
        Ok(v) => v,
        Err(e) => {
            return Err(e);
        },
    };
    Ok(BookEntry { price, size, num_orders })
}

/// Which trees decode as a [`FullBookEntry`].
pub open spec fn full_book_entry_ok(t: JsonVal) -> bool {
    &&& dec_field(t, "price"@) is Some
    &&& dec_field(t, "size"@) is Some
    &&& uuid_field(t, "order_id"@) is Some
}

/// What a decoded [`FullBookEntry`] holds.
pub open spec fn full_book_entry_matches(t: JsonVal, e: FullBookEntry) -> bool {
    &&& dec_field(t, "price"@) == Some(e.price)
    &&& dec_field(t, "size"@) == Some(e.size)
    &&& uuid_field(t, "order_id"@) == Some(e.order_id@)
}

/// Decode one per-order book row.
pub fn decode_full_book_entry(j: &Json) -> (r: Result<FullBookEntry, Error>)
    ensures
        match r {
            Ok(e) => full_book_entry_ok(json_view(*j)) && full_book_entry_matches(
                json_view(*j),
                e,
            ),
            Err(e) => !full_book_entry_ok(json_view(*j)) && e is Json,
        },
{
    let price = match get_dec(j, "price") {
        Ok(v) => v,
        Err(e) => {
            return Err(e);
        },
    };
    let size = match get_dec(j, "size") {
        Ok(v) => v,
        Err(e) => {
            return Err(e);
        },
    };
    let order_id = match get_uuid(j, "order_id") {
        Ok(v) => v,
        Err(e) => {
            return Err(e);
        },
    };
    Ok(FullBookEntry { price, size, order_id })
}

/// Which trees decode as a [`Tick`].
pub open spec fn tick_ok(t: JsonVal) -> bool {
    &&& u64_field(t, "trade_id"@) is Some
    &&& dec_field(t, "price"@) is Some
    &&& dec_field(t, "size"@) is Some
    &&& dec_field(t, "bid"@) is Some
    &&& dec_field(t, "ask"@) is Some
    &&& dec_field(t, "volume"@) is Some
    &&& time_field(t, "time"@) is Some
}

/// What a decoded [`Tick`] holds, field by field.
pub open spec fn tick_matches(t: JsonVal, v: Tick) -> bool {
    &&& u64_field(t, "trade_id"@) == Some(v.trade_id)
    &&& dec_field(t, "price"@) == Some(v.price)
    &&& dec_field(t, "size"@) == Some(v.size)
    &&& dec_field(t, "bid"@) == Some(v.bid)
    &&& dec_field(t, "ask"@) == Some(v.ask)
    &&& dec_field(t, "volume"@) == Some(v.volume)
    &&& time_field(t, "time"@) == Some((v.time.secs, v.time.nanos))
}

/// Decode the latest tick.
pub fn decode_tick(j: &Json) -> (r: Result<Tick, Error>)
    ensures
        match r {
            Ok(v) => tick_ok(json_view(*j)) && tick_matches(json_view(*j), v),
            Err(e) => !tick_ok(json_view(*j)) && e is Json,
        },
{
    let trade_id = match get_u64(j, "trade_id") {
        Ok(v) => v,
        Err(e) => {
            return Err(e);
        },
    };
    let price = match get_dec(j, "price") {
        Ok(v) => v,
        Err(e) => {
            return Err(e);
        },
    };
    let size = match get_dec(j, "size") {
        Ok(v) => v,
        Err(e) => {
            return Err(e);
        },
    };
    let bid = match get_dec(j, "bid") {
        Ok(v) => v,
        Err(e) => {
            return Err(e);
        },
    };
    let ask = match get_dec(j, "ask") {
        Ok(v) => v,
        Err(e) => {
            return Err(e);
        },
    };
    let volume = match get_dec(j, "volume") {
        Ok(v) => v,
        Err(e) => {
            return Err(e);
        },
    };
    let time = match get_time(j, "time") {
        Ok(v) => v,
        Err(e) => {
            return Err(e);
        },
    };
    Ok(Tick { trade_id, price, size, bid, ask, volume, time })
}

/// Which trees decode as a [`Trade`].
pub open spec fn trade_ok(t: JsonVal) -> bool {
    &&& time_field(t, "time"@) is Some
    &&& u64_field(t, "trade_id"@) is Some
    &&& dec_field(t, "price"@) is Some
    &&& dec_field(t, "size"@) is Some
    &&& side_field(t, "side"@) is Some
}

/// What a decoded [`Trade`] holds, field by field.
pub open spec fn trade_matches(t: JsonVal, v: Trade) -> bool {
    &&& time_field(t, "time"@) == Some((v.time.secs, v.time.nanos))
    &&& u64_field(t, "trade_id"@) == Some(v.trade_id)
    &&& dec_field(t, "price"@) == Some(v.price)
    &&& dec_field(t, "size"@) == Some(v.size)
    &&& side_field(t, "side"@) == Some(v.side)
}

/// Decode one public trade.
pub fn decode_trade(j: &Json) -> (r: Result<Trade, Error>)
    ensures
        match r {
            Ok(v) => trade_ok(json_view(*j)) && trade_matches(json_view(*j), v),
            Err(e) => !trade_ok(json_view(*j)) && e is Json,
        },
{
    let time = match get_time(j, "time") {
        Ok(v) => v,
        Err(e) => {
            return Err(e);
        },
    };
    let trade_id = match get_u64(j, "trade_id") {
        Ok(v) => v,
        Err(e) => {
            return Err(e);
        },
    };
    let price = match get_dec(j, "price") {
        Ok(v) => v,
        Err(e) => {
            return Err(e);
        },
    };
    let size = match get_dec(j, "size") {
        Ok(v) => v,
        Err(e) => {
            return Err(e);
        },
    };
    let side = match get_side(j, "side") {
        Ok(v) => v,
        Err(e) => {
            return Err(e);
        },
    };
    Ok(Trade { time, trade_id, price, size, side })
}

/// Which trees decode as a [`Candle`].
pub open spec fn candle_ok(t: JsonVal) -> bool {
    &&& u64_field(t, "time"@) is Some
    &&& dec_field(t, "low"@) is Some
    &&& dec_field(t, "high"@) is Some
    &&& dec_field(t, "open"@) is Some
    &&& dec_field(t, "close"@) is Some
    &&& dec_field(t, "volume"@) is Some
}

/// What a decoded [`Candle`] holds, field by field.
pub open spec fn candle_matches(t: JsonVal, v: Candle) -> bool {
    &&& u64_field(t, "time"@) == Some(v.time)
    &&& dec_field(t, "low"@) == Some(v.low)
    &&& dec_field(t, "high"@) == Some(v.high)
    &&& dec_field(t, "open"@) == Some(v.open)
    &&& dec_field(t, "close"@) == Some(v.close)
    &&& dec_field(t, "volume"@) == Some(v.volume)
}

/// Decode one historic-rate bucket.
pub fn decode_candle(j: &Json) -> (r: Result<Candle, Error>)
    ensures
        match r {
            Ok(v) => candle_ok(json_view(*j)) && candle_matches(json_view(*j), v),
            Err(e) => !candle_ok(json_view(*j)) && e is Json,
        },
{
    let time = match get_u64(j, "time") {
        Ok(v) => v,
        Err(e) => {
            return Err(e);
        },
    };
    let low = match get_dec(j, "low") {
        Ok(v) => v,
        Err(e) => {
            return Err(e);
        },
    };
    let high = match get_dec(j, "high") {
        Ok(v) => v,
        Err(e) => {
            return Err(e);
        },
    };
    let open = match get_dec(j, "open") {
        Ok(v) => v,
        Err(e) => {
            return Err(e);
        },
    };
    let close = match get_dec(j, "close") {
        Ok(v) => v,
        Err(e) => {
            return Err(e);
        },
    };
    let volume = match get_dec(j, "volume") {
        Ok(v) => v,
        Err(e) => {
            return Err(e);
        },
    };
    Ok(Candle { time, low, high, open, close, volume })
}

/// Which trees decode as a [`Stats`].
pub open spec fn stats_ok(t: JsonVal) -> bool {
    &&& dec_field(t, "open"@) is Some
    &&& dec_field(t, "high"@) is Some
    &&& dec_field(t, "low"@) is Some
    &&& dec_field(t, "volume"@) is Some
}

/// What a decoded [`Stats`] holds, field by field.
pub open spec fn stats_matches(t: JsonVal, v: Stats) -> bool {
    &&& dec_field(t, "open"@) == Some(v.open)
    &&& dec_field(t, "high"@) == Some(v.high)
    &&& dec_field(t, "low"@) == Some(v.low)
    &&& dec_field(t, "volume"@) == Some(v.volume)
}

/// Decode a day's statistics.
pub fn decode_stats(j: &Json) -> (r: Result<Stats, Error>)
    ensures
        match r {
            Ok(v) => stats_ok(json_view(*j)) && stats_matches(json_view(*j), v),
            Err(e) => !stats_ok(json_view(*j)) && e is Json,
        },
{
    let open = match get_dec(j, "open") {
        Ok(v) => v,
        Err(e) => {
            return Err(e);
        },
    };
    let high = match get_dec(j, "high") {
        Ok(v) => v,
        Err(e) => {
            return Err(e);
        },
    };
    let low = match get_dec(j, "low") {
        Ok(v) => v,
        Err(e) => {
            return Err(e);
        },
    };
    let volume = match get_dec(j, "volume") {
        Ok(v) => v,
        Err(e) => {
            return Err(e);
        },
    };
    Ok(Stats { open, high, low, volume })
}

/// Which trees decode as a [`Currency`].
pub open spec fn currency_ok(t: JsonVal) -> bool {
    &&& str_field(t, "id"@) is Some
    &&& str_field(t, "name"@) is Some
    &&& dec_field(t, "min_size"@) is Some
}

/// What a decoded [`Currency`] holds, field by field.
pub open spec fn currency_matches(t: JsonVal, v: Currency) -> bool {
    &&& str_field(t, "id"@) == Some(v.id@)
    &&& str_field(t, "name"@) == Some(v.name@)
    &&& dec_field(t, "min_size"@) == Some(v.min_size)
}

/// Decode one currency.
pub fn decode_currency(j: &Json) -> (r: Result<Currency, Error>)
    ensures
        match r {
            Ok(v) => currency_ok(json_view(*j)) && currency_matches(json_view(*j), v),
            Err(e) => !currency_ok(json_view(*j)) && e is Json,
        },
{
    let id = match get_str(j, "id") {
        Ok(v) => v,
        Err(e) => {
            return Err(e);
        },
    };
    let name = match get_str(j, "name") {
        Ok(v) => v,
        Err(e) => {
            return Err(e);
        },
    };
    let min_size = match get_dec(j, "min_size") {
        Ok(v) => v,
        Err(e) => {
            return Err(e);
        },
    };
    Ok(Currency { id, name, min_size })
}

/// Which trees decode as a [`Time`].
pub open spec fn server_time_ok(t: JsonVal) -> bool {
    &&& time_field(t, "iso"@) is Some
    &&& dec_field(t, "epoch"@) is Some
}

/// What a decoded [`Time`] holds, field by field.
pub open spec fn server_time_matches(t: JsonVal, v: Time) -> bool {
    &&& time_field(t, "iso"@) == Some((v.iso.secs, v.iso.nanos))
    &&& dec_field(t, "epoch"@) == Some(v.epoch)
}

/// Decode the exchange's clock.
pub fn decode_server_time(j: &Json) -> (r: Result<Time, Error>)
    ensures
        match r {
            Ok(v) => server_time_ok(json_view(*j)) && server_time_matches(json_view(*j), v),
            Err(e) => !server_time_ok(json_view(*j)) && e is Json,
        },
{
    let iso = match get_time(j, "iso") {
        Ok(v) => v,
        Err(e) => {
            return Err(e);
        },
    };
    let epoch = match get_dec(j, "epoch") {
        Ok(v) => v,
        Err(e) => {
            return Err(e);
        },
    };
    Ok(Time { iso, epoch })
}

/// Which trees decode as a list of [`Product`] values.
pub open spec fn products_ok(t: JsonVal) -> bool {
    &&& t is Arr
    &&& forall|i: int| 0 <= i < t->Arr_0.len() ==> product_ok(#[trigger] t->Arr_0[i])
}

/// What a decoded list of [`Product`] values holds, element by element.
pub open spec fn products_match(t: JsonVal, s: Seq<Product>) -> bool {
    &&& t is Arr
    &&& s.len() == t->Arr_0.len()
    &&& forall|i: int| 0 <= i < s.len() ==> product_matches(t->Arr_0[i], #[trigger] s[i])
}

/// Decode the product list.
#[verifier::loop_isolation(false)]
pub fn decode_products(j: &Json) -> (r: Result<Vec<Product>, Error>)
    ensures
        match r {
            Ok(v) => products_ok(json_view(*j)) && products_match(json_view(*j), v@),
            Err(e) => !products_ok(json_view(*j)) && e is Json,
        },
{
    match j {
        Json::Arr(elems) => {
            let mut out: Vec<Product> = Vec::new();
            let n = elems.len();
            for i in 0..n
                invariant
                    n == elems@.len(),
                    out@.len() == i,
                    forall|k: int|
                        0 <= k < i ==> product_ok(#[trigger] elements_view(elems@)[k])
                            && product_matches(elements_view(elems@)[k], out@[k]),
            {
                match decode_product(&elems[i]) {
                    Ok(v) => out.push(v),
                    Err(e) => {
                        proof {
                            assert(elements_view(elems@)[i as int] == json_view(
                                elems@[i as int],
                            ));
                            assert(json_view(*j)->Arr_0 == elements_view(elems@));
                            assert(!product_ok(json_view(*j)->Arr_0[i as int]));
                        }
                        return Err(e);
                    },
                }
            }
            Ok(out)
        },
        _ => Err(crate::decode::decode_error()),
    }
}

/// Which trees decode as a list of [`Trade`] values.
pub open spec fn trades_ok(t: JsonVal) -> bool {
    &&& t is Arr
    &&& forall|i: int| 0 <= i < t->Arr_0.len() ==> trade_ok(#[trigger] t->Arr_0[i])
}

/// What a decoded list of [`Trade`] values holds, element by element.
pub open spec fn trades_match(t: JsonVal, s: Seq<Trade>) -> bool {
    &&& t is Arr
    &&& s.len() == t->Arr_0.len()
    &&& forall|i: int| 0 <= i < s.len() ==> trade_matches(t->Arr_0[i], #[trigger] s[i])
}

/// Decode the trade list.
#[verifier::loop_isolation(false)]
pub fn decode_trades(j: &Json) -> (r: Result<Vec<Trade>, Error>)
    ensures
        match r {
            Ok(v) => trades_ok(json_view(*j)) && trades_match(json_view(*j), v@),
            Err(e) => !trades_ok(json_view(*j)) && e is Json,
        },
{
    match j {
        Json::Arr(elems) => {
            let mut out: Vec<Trade> = Vec::new();
            let n = elems.len();
            for i in 0..n
                invariant
                    n == elems@.len(),
                    out@.len() == i,
                    forall|k: int|
                        0 <= k < i ==> trade_ok(#[trigger] elements_view(elems@)[k])
                            && trade_matches(elements_view(elems@)[k], out@[k]),
            {
                match decode_trade(&elems[i]) {
                    Ok(v) => out.push(v),
                    Err(e) => {
                        proof {
                            assert(elements_view(elems@)[i as int] == json_view(
                                elems@[i as int],
                            ));
                            assert(json_view(*j)->Arr_0 == elements_view(elems@));
                            assert(!trade_ok(json_view(*j)->Arr_0[i as int]));
                        }
                        return Err(e);
                    },
                }
            }
            Ok(out)
        },
        _ => Err(crate::decode::decode_error()),
    }
}

/// Which trees decode as a list of [`Candle`] values.
pub open spec fn candles_ok(t: JsonVal) -> bool {
    &&& t is Arr
    &&& forall|i: int| 0 <= i < t->Arr_0.len() ==> candle_ok(#[trigger] t->Arr_0[i])
}

/// What a decoded list of [`Candle`] values holds, element by element.
pub open spec fn candles_match(t: JsonVal, s: Seq<Candle>) -> bool {
    &&& t is Arr
    &&& s.len() == t->Arr_0.len()
    &&& forall|i: int| 0 <= i < s.len() ==> candle_matches(t->Arr_0[i], #[trigger] s[i])
}

/// Decode the candle list.
#[verifier::loop_isolation(false)]
pub fn decode_candles(j: &Json) -> (r: Result<Vec<Candle>, Error>)
    ensures
        match r {
            Ok(v) => candles_ok(json_view(*j)) && candles_match(json_view(*j), v@),
            Err(e) => !candles_ok(json_view(*j)) && e is Json,
        },
{
    match j {
        Json::Arr(elems) => {
            let mut out: Vec<Candle> = Vec::new();
            let n = elems.len();
            for i in 0..n
                invariant
                    n == elems@.len(),
                    out@.len() == i,
                    forall|k: int|
                        0 <= k < i ==> candle_ok(#[trigger] elements_view(elems@)[k])
                            && candle_matches(elements_view(elems@)[k], out@[k]),
            {
                match decode_candle(&elems[i]) {
                    Ok(v) => out.push(v),
                    Err(e) => {
                        proof {
                            assert(elements_view(elems@)[i as int] == json_view(
                                elems@[i as int],
                            ));
                            assert(json_view(*j)->Arr_0 == elements_view(elems@));
                            assert(!candle_ok(json_view(*j)->Arr_0[i as int]));
                        }
                        return Err(e);
                    },
                }
            }
            Ok(out)
        },
        _ => Err(crate::decode::decode_error()),
    }
}

/// Which trees decode as a list of [`Currency`] values.
pub open spec fn currencies_ok(t: JsonVal) -> bool {
    &&& t is Arr
    &&& forall|i: int| 0 <= i < t->Arr_0.len() ==> currency_ok(#[trigger] t->Arr_0[i])
}

/// What a decoded list of [`Currency`] values holds, element by element.
pub open spec fn currencies_match(t: JsonVal, s: Seq<Currency>) -> bool {
    &&& t is Arr
    &&& s.len() == t->Arr_0.len()
    &&& forall|i: int| 0 <= i < s.len() ==> currency_matches(t->Arr_0[i], #[trigger] s[i])
}

/// Decode the currency list.
#[verifier::loop_isolation(false)]
pub fn decode_currencies(j: &Json) -> (r: Result<Vec<Currency>, Error>)
    ensures
        match r {
            Ok(v) => currencies_ok(json_view(*j)) && currencies_match(json_view(*j), v@),
            Err(e) => !currencies_ok(json_view(*j)) && e is Json,
        },
{
    match j {
        Json::Arr(elems) => {
            let mut out: Vec<Currency> = Vec::new();
            let n = elems.len();
            for i in 0..n
                invariant
                    n == elems@.len(),
                    out@.len() == i,
                    forall|k: int|
                        0 <= k < i ==> currency_ok(#[trigger] elements_view(elems@)[k])
                            && currency_matches(elements_view(elems@)[k], out@[k]),
            {
                match decode_currency(&elems[i]) {
                    Ok(v) => out.push(v),
                    Err(e) => {
                        proof {
                            assert(elements_view(elems@)[i as int] == json_view(
                                elems@[i as int],
                            ));
                            assert(json_view(*j)->Arr_0 == elements_view(elems@));
                            assert(!currency_ok(json_view(*j)->Arr_0[i as int]));
                        }
                        return Err(e);
                    },
                }
            }
            Ok(out)
        },
        _ => Err(crate::decode::decode_error()),
    }
}

/// Which row sequences decode as aggregated book rows.
pub open spec fn book_rows_ok(s: Seq<JsonVal>) -> bool {
    forall|i: int| 0 <= i < s.len() ==> book_entry_ok(#[trigger] s[i])
}

/// What decoded aggregated rows hold.
pub open spec fn book_rows_match(s: Seq<JsonVal>, rows: Seq<BookEntry>) -> bool {
    &&& rows.len() == s.len()
    &&& forall|i: int| 0 <= i < rows.len() ==> book_entry_matches(s[i], #[trigger] rows[i])
}

/// Which row sequences decode as per-order book rows.
pub open spec fn full_book_rows_ok(s: Seq<JsonVal>) -> bool {
    forall|i: int| 0 <= i < s.len() ==> full_book_entry_ok(#[trigger] s[i])
}

/// What decoded per-order rows hold.
pub open spec fn full_book_rows_match(s: Seq<JsonVal>, rows: Seq<FullBookEntry>) -> bool {
    &&& rows.len() == s.len()
    &&& forall|i: int| 0 <= i < rows.len() ==> full_book_entry_matches(s[i], #[trigger] rows[i])
}

#[verifier::loop_isolation(false)]
fn decode_book_rows(elems: &Vec<Json>) -> (r: Result<Vec<BookEntry>, Error>)
    ensures
        match r {
            Ok(v) => book_rows_ok(elements_view(elems@)) && book_rows_match(
                elements_view(elems@),
                v@,
            ),
            Err(e) => !book_rows_ok(elements_view(elems@)) && e is Json,
        },
{
    let mut out: Vec<BookEntry> = Vec::new();
    let n = elems.len();
    for i in 0..n
        invariant
            n == elems@.len(),
            out@.len() == i,
            forall|k: int|
                0 <= k < i ==> book_entry_ok(#[trigger] elements_view(elems@)[k])
                    && book_entry_matches(elements_view(elems@)[k], out@[k]),
    {
        match decode_book_entry(&elems[i]) {
            Ok(v) => out.push(v),
            Err(e) => {
                proof {
                    assert(elements_view(elems@)[i as int] == json_view(elems@[i as int]));
                }
                return Err(e);
            },
        }
    }
    Ok(out)
}

#[verifier::loop_isolation(false)]
fn decode_full_book_rows(elems: &Vec<Json>) -> (r: Result<Vec<FullBookEntry>, Error>)
    ensures
        match r {
            Ok(v) => full_book_rows_ok(elements_view(elems@)) && full_book_rows_match(
                elements_view(elems@),
                v@,
            ),
            Err(e) => !full_book_rows_ok(elements_view(elems@)) && e is Json,
        },
{
    let mut out: Vec<FullBookEntry> = Vec::new();
    let n = elems.len();
    for i in 0..n
        invariant
            n == elems@.len(),
            out@.len() == i,
            forall|k: int|
                0 <= k < i ==> full_book_entry_ok(#[trigger] elements_view(elems@)[k])
                    && full_book_entry_matches(elements_view(elems@)[k], out@[k]),
    {
        match decode_full_book_entry(&elems[i]) {
            Ok(v) => out.push(v),
            Err(e) => {
                proof {
                    assert(elements_view(elems@)[i as int] == json_view(elems@[i as int]));
                }
                return Err(e);
            },
        }
    }
    Ok(out)
}

/// Which trees decode as an aggregated [`OrderBook`].
pub open spec fn order_book_ok(t: JsonVal) -> bool {
    &&& u64_field(t, "sequence"@) is Some
    &&& arr_field(t, "bids"@) is Some
    &&& book_rows_ok(arr_field(t, "bids"@)->Some_0)
    &&& arr_field(t, "asks"@) is Some
    &&& book_rows_ok(arr_field(t, "asks"@)->Some_0)
}

/// What a decoded aggregated [`OrderBook`] holds.
pub open spec fn order_book_matches(t: JsonVal, b: OrderBook<BookEntry>) -> bool {
    &&& u64_field(t, "sequence"@) == Some(b.sequence)
    &&& arr_field(t, "bids"@) is Some
    &&& book_rows_match(arr_field(t, "bids"@)->Some_0, b.bids@)
    &&& arr_field(t, "asks"@) is Some
    &&& book_rows_match(arr_field(t, "asks"@)->Some_0, b.asks@)
}

/// Decode an aggregated order-book snapshot.
pub fn decode_order_book(j: &Json) -> (r: Result<OrderBook<BookEntry>, Error>)
    ensures
        match r {
            Ok(b) => order_book_ok(json_view(*j)) && order_book_matches(json_view(*j), b),
            Err(e) => !order_book_ok(json_view(*j)) && e is Json,
        },
{
    let sequence = match get_u64(j, "sequence") {
        Ok(v) => v,
        Err(e) => {
            return Err(e);
        },
    };
    let bids_json = match crate::decode::get_arr(j, "bids") {
        Ok(v) => v,
        Err(e) => {
            return Err(e);
        },
    };
    let bids = match decode_book_rows(bids_json) {
        Ok(v) => v,
        Err(e) => {
            return Err(e);
        },
    };
    let asks_json = match crate::decode::get_arr(j, "asks") {
        Ok(v) => v,
        Err(e) => {
            return Err(e);
        },
    };
    let asks = match decode_book_rows(asks_json) {
        Ok(v) => v,
        Err(e) => {
            return Err(e);
        },
    };
    Ok(OrderBook { sequence, bids, asks })
}

/// Which trees decode as a per-order [`OrderBook`].
pub open spec fn full_order_book_ok(t: JsonVal) -> bool {
    &&& u64_field(t, "sequence"@) is Some
    &&& arr_field(t, "bids"@) is Some
    &&& full_book_rows_ok(arr_field(t, "bids"@)->Some_0)
    &&& arr_field(t, "asks"@) is Some
    &&& full_book_rows_ok(arr_field(t, "asks"@)->Some_0)
}

/// What a decoded per-order [`OrderBook`] holds.
pub open spec fn full_order_book_matches(t: JsonVal, b: OrderBook<FullBookEntry>) -> bool {
    &&& u64_field(t, "sequence"@) == Some(b.sequence)
    &&& arr_field(t, "bids"@) is Some
    &&& full_book_rows_match(arr_field(t, "bids"@)->Some_0, b.bids@)
    &&& arr_field(t, "asks"@) is Some
    &&& full_book_rows_match(arr_field(t, "asks"@)->Some_0, b.asks@)
}

/// Decode a per-order order-book snapshot.
pub fn decode_full_order_book(j: &Json) -> (r: Result<OrderBook<FullBookEntry>, Error>)
    ensures
        match r {
            Ok(b) => full_order_book_ok(json_view(*j)) && full_order_book_matches(
                json_view(*j),
                b,
            ),
            Err(e) => !full_order_book_ok(json_view(*j)) && e is Json,
        },
{
    let sequence = match get_u64(j, "sequence") {
        Ok(v) => v,
        Err(e) => {
            return Err(e);
        },
    };
    let bids_json = match crate::decode::get_arr(j, "bids") {
        Ok(v) => v,
        Err(e) => {
            return Err(e);
        },
    };
    let bids = match decode_full_book_rows(bids_json) {
        Ok(v) => v,
        Err(e) => {
            return Err(e);
        },
    };
    let asks_json = match crate::decode::get_arr(j, "asks") {
        Ok(v) => v,
        Err(e) => {
            return Err(e);
        },
    };
    let asks = match decode_full_book_rows(asks_json) {
        Ok(v) => v,
        Err(e) => {
            return Err(e);
        },
    };
    Ok(OrderBook { sequence, bids, asks })
}

/// Decode the product list response.
pub fn decode_products_response(status: u16, body: &str) -> (r: Result<Vec<Product>, Error>)
    ensures
        crate::decode::response_contract(
            status,
            body@,
            r,
            |t: JsonVal| products_ok(t),
            |t: JsonVal, v: Vec<Product>| products_match(t, v@),
        ),
{
    match crate::decode::check_response(status, body) {
        Ok(j) => decode_products(&j),
        Err(e) => Err(e),
    }
}

/// Decode the aggregated book response.
pub fn decode_book_response(status: u16, body: &str) -> (r: Result<OrderBook<BookEntry>, Error>)
    ensures
        crate::decode::response_contract(
            status,
            body@,
            r,
            |t: JsonVal| order_book_ok(t),
            |t: JsonVal, v: OrderBook<BookEntry>| order_book_matches(t, v),
        ),
{
    match crate::decode::check_response(status, body) {
        Ok(j) => decode_order_book(&j),
        Err(e) => Err(e),
    }
}

/// Decode the per-order book response.
pub fn decode_full_book_response(status: u16, body: &str) -> (r: Result<OrderBook<FullBookEntry>, Error>)
    ensures
        crate::decode::response_contract(
            status,
            body@,
            r,
            |t: JsonVal| full_order_book_ok(t),
            |t: JsonVal, v: OrderBook<FullBookEntry>| full_order_book_matches(t, v),
        ),
{
    match crate::decode::check_response(status, body) {
        Ok(j) => decode_full_order_book(&j),
        Err(e) => Err(e),
    }
}

/// Decode the ticker response.
pub fn decode_ticker_response(status: u16, body: &str) -> (r: Result<Tick, Error>)
    ensures
        crate::decode::response_contract(
            status,
            body@,
            r,
            |t: JsonVal| tick_ok(t),
            |t: JsonVal, v: Tick| tick_matches(t, v),
        ),
{
    match crate::decode::check_response(status, body) {
        Ok(j) => decode_tick(&j),
        Err(e) => Err(e),
    }
}

/// Decode the trade list response.
pub fn decode_trades_response(status: u16, body: &str) -> (r: Result<Vec<Trade>, Error>)
    ensures
        crate::decode::response_contract(
            status,
            body@,
            r,
            |t: JsonVal| trades_ok(t),
            |t: JsonVal, v: Vec<Trade>| trades_match(t, v@),
        ),
{
    match crate::decode::check_response(status, body) {
        Ok(j) => decode_trades(&j),
        Err(e) => Err(e),
    }
}

/// Decode the candle list response.
pub fn decode_candles_response(status: u16, body: &str) -> (r: Result<Vec<Candle>, Error>)
    ensures
        crate::decode::response_contract(
            status,
            body@,
            r,
            |t: JsonVal| candles_ok(t),
            |t: JsonVal, v: Vec<Candle>| candles_match(t, v@),
        ),
{
    match crate::decode::check_response(status, body) {
        Ok(j) => decode_candles(&j),
        Err(e) => Err(e),
    }
}

/// Decode the statistics response.
pub fn decode_stats_response(status: u16, body: &str) -> (r: Result<Stats, Error>)
    ensures
        crate::decode::response_contract(
            status,
            body@,
            r,
            |t: JsonVal| stats_ok(t),
            |t: JsonVal, v: Stats| stats_matches(t, v),
        ),
{
    match crate::decode::check_response(status, body) {
        Ok(j) => decode_stats(&j),
        Err(e) => Err(e),
    }
}

/// Decode the currency list response.
pub fn decode_currencies_response(status: u16, body: &str) -> (r: Result<Vec<Currency>, Error>)
    ensures
        crate::decode::response_contract(
            status,
            body@,
            r,
            |t: JsonVal| currencies_ok(t),
            |t: JsonVal, v: Vec<Currency>| currencies_match(t, v@),
        ),
{
    match crate::decode::check_response(status, body) {
        Ok(j) => decode_currencies(&j),
        Err(e) => Err(e),
    }
}

/// Decode the server clock response.
pub fn decode_time_response(status: u16, body: &str) -> (r: Result<Time, Error>)
    ensures
        crate::decode::response_contract(
            status,
            body@,
            r,
            |t: JsonVal| server_time_ok(t),
            |t: JsonVal, v: Time| server_time_matches(t, v),
        ),
{
    match crate::decode::check_response(status, body) {
        Ok(j) => decode_server_time(&j),
        Err(e) => Err(e),
    }
}

/// A request against the public surface: the full URL to fetch with a
/// plain GET and the library's user agent.
pub struct PublicRequest {
    pub url: String,
}

/// The market-data facade. It holds no state; each method names one
/// endpoint and builds the request for it.
pub struct Client {
}

impl Client {
    /// A public client.
    pub fn new() -> Client {
        Client {  }
    }

    /// `GET /products`.
    pub fn get_products(&self) -> (r: PublicRequest)
        ensures
            r.url@ == "https://api.gdax.com/products"@,
    {
        PublicRequest { url: String::from_str("https://api.gdax.com/products") }
    }

    fn book_request(&self, product: &str, level: Level) -> (r: PublicRequest)
        ensures
            r.url@ == "https://api.gdax.com/products/"@ + product@ + "/book?level="@
                + crate::text::dec_chars(level_number(level) as int),
    {
        let mut url = String::from_str("https://api.gdax.com/products/");
        url.append(product);
        url.append("/book?level=");
        let digits = crate::text::u64_to_string(level.number());
        url.append(digits.as_str());
        PublicRequest { url }
    }

    /// `GET /products/{id}/book?level=1`: the best bid and ask.
    pub fn get_best_order(&self, product: &str) -> (r: PublicRequest)
        ensures
            r.url@ == "https://api.gdax.com/products/"@ + product@ + "/book?level="@
                + crate::text::dec_chars(1),
    {
        self.book_request(product, Level::Best)
    }

    /// `GET /products/{id}/book?level=2`: the top fifty aggregated rows.
    pub fn get_top50_orders(&self, product: &str) -> (r: PublicRequest)
        ensures
            r.url@ == "https://api.gdax.com/products/"@ + product@ + "/book?level="@
                + crate::text::dec_chars(2),
    {
        self.book_request(product, Level::Top50)
    }

    /// `GET /products/{id}/book?level=3`: the whole book, order by order.
    pub fn get_full_book(&self, product: &str) -> (r: PublicRequest)
        ensures
            r.url@ == "https://api.gdax.com/products/"@ + product@ + "/book?level="@
                + crate::text::dec_chars(3),
    {
        self.book_request(product, Level::Full)
    }

    /// `GET /products/{id}/ticker`.
    pub fn get_product_ticker(&self, product: &str) -> (r: PublicRequest)
        ensures
            r.url@ == "https://api.gdax.com/products/"@ + product@ + "/ticker"@,
    {
        let mut url = String::from_str("https://api.gdax.com/products/");
        url.append(product);
        url.append("/ticker");
        PublicRequest { url }
    }

    /// `GET /products/{id}/trades`.
    pub fn get_trades(&self, product: &str) -> (r: PublicRequest)
        ensures
            r.url@ == "https://api.gdax.com/products/"@ + product@ + "/trades"@,
    {
        let mut url = String::from_str("https://api.gdax.com/products/");
        url.append(product);
        url.append("/trades");
        PublicRequest { url }
    }

    /// `GET /products/{id}/candles?start={rfc3339}&end={rfc3339}&granularity={seconds}`.
    /// `None` exactly when an endpoint of the range has no RFC 3339 form.
    pub fn get_historic_rates(
        &self,
        product: &str,
        start_time: Timestamp,
        end_time: Timestamp,
        granularity: u64,
    ) -> (r: Option<PublicRequest>)
        ensures
            r is Some <==> crate::clock::rfc3339_of(start_time.secs as int) is Some
                && crate::clock::rfc3339_of(end_time.secs as int) is Some,
            r matches Some(req) ==> req.url@ == "https://api.gdax.com/products/"@ + product@
                + "/candles?start="@ + crate::clock::rfc3339_of(start_time.secs as int)->Some_0
                + "&end="@ + crate::clock::rfc3339_of(end_time.secs as int)->Some_0
                + "&granularity="@ + crate::text::dec_chars(granularity as int),
    {
        let start = match start_time.to_rfc3339_secs() {
            Some(s) => s,
            None => {
                return None;
            },
        };
        let end = match end_time.to_rfc3339_secs() {
            Some(s) => s,
            None => {
                return None;
            },
        };
        let mut url = String::from_str("https://api.gdax.com/products/");
        url.append(product);
        url.append("/candles?start=");
        url.append(start.as_str());
        url.append("&end=");
        url.append(end.as_str());
        url.append("&granularity=");
        let digits = crate::text::u64_to_string(granularity);
        url.append(digits.as_str());
        Some(PublicRequest { url })
    }

    /// `GET /products/{id}/stats`.
    pub fn get_24hr_stats(&self, product: &str) -> (r: PublicRequest)
        ensures
            r.url@ == "https://api.gdax.com/products/"@ + product@ + "/stats"@,
    {
        let mut url = String::from_str("https://api.gdax.com/products/");
        url.append(product);
        url.append("/stats");
        PublicRequest { url }
    }

    /// `GET /currencies`.
    pub fn get_currencies(&self) -> (r: PublicRequest)
        ensures
            r.url@ == "https://api.gdax.com/currencies"@,
    {
        PublicRequest { url: String::from_str("https://api.gdax.com/currencies") }
    }

    /// `GET /time`.
    pub fn get_time(&self) -> (r: PublicRequest)
        ensures
            r.url@ == "https://api.gdax.com/time"@,
    {
        PublicRequest { url: String::from_str("https://api.gdax.com/time") }
    }
}

} // verus!
