use gdax_client::decimal::Decimal;
use gdax_client::private::{
    decode_account_response, decode_accounts_response, decode_cancel_all_response,
    decode_holds_response, decode_ledger_response, decode_order_response,
    decode_orders_response, decode_post_order_response, EntryType, HoldType,
};
use gdax_client::public::{
    decode_book_response, decode_candles_response, decode_currencies_response,
    decode_full_book_response, decode_products_response, decode_stats_response,
    decode_ticker_response, decode_time_response, decode_trades_response,
};
use gdax_client::{Error, Side};

fn dec(s: &str) -> Decimal {
    Decimal::parse(s).unwrap()
}

#[test]
fn account_decodes_with_exact_balances() {
    let body = "{\"id\":\"a1b2c3d4-e5f6-7890-abcd-ef1234567890\",\"balance\":\"1.50\",\
                \"hold\":\"0.50\",\"available\":\"1.00\",\"currency\":\"BTC\"}";
    let a = decode_account_response(200, body).unwrap();
    assert_eq!(a.id.as_str(), "a1b2c3d4-e5f6-7890-abcd-ef1234567890");
    assert_eq!(a.balance, dec("1.50"));
    assert_eq!(a.hold, dec("0.50"));
    assert_eq!(a.available, dec("1.00"));
    assert_eq!(a.currency, "BTC");
    // The account invariant: balance equals hold plus available, exactly.
    let sum = a.hold.checked_add(&a.available).unwrap();
    assert!(sum.eq_value(&a.balance));
}

#[test]
fn accounts_list_decodes() {
    let body = "[{\"id\":\"a1b2c3d4-e5f6-7890-abcd-ef1234567890\",\"balance\":1.5,\
                \"hold\":0.5,\"available\":1,\"currency\":\"BTC\"}]";
    let accounts = decode_accounts_response(200, body).unwrap();
    assert_eq!(accounts.len(), 1);
    assert!(accounts[0].balance.eq_value(&dec("1.5")));
}

#[test]
fn insufficient_funds_surfaces_as_api_error() {
    let r = decode_post_order_response(400, "{\"message\":\"Insufficient funds\"}");
    match r {
        Err(Error::Api(e)) => assert_eq!(e.message, "Insufficient funds"),
        _ => panic!("expected the exchange's message as an Api error"),
    }
}

#[test]
fn malformed_error_body_is_a_decode_error() {
    let r = decode_post_order_response(400, "{\"unexpected\":true}");
    assert!(matches!(r, Err(Error::Json(_))));
    let r = decode_post_order_response(400, "not json at all");
    assert!(matches!(r, Err(Error::Json(_))));
}

#[test]
fn invalid_success_body_is_a_decode_error() {
    let r = decode_accounts_response(200, "{\"not\":\"a list\"}");
    assert!(matches!(r, Err(Error::Json(_))));
    let r = decode_accounts_response(200, "][");
    assert!(matches!(r, Err(Error::Json(_))));
}

#[test]
fn posted_order_id_decodes() {
    let id = decode_post_order_response(200, "{\"id\":\"a1b2c3d4-e5f6-7890-abcd-ef1234567890\"}")
        .unwrap();
    assert_eq!(id.as_str(), "a1b2c3d4-e5f6-7890-abcd-ef1234567890");
}

#[test]
fn cancelled_ids_decode() {
    let ids = decode_cancel_all_response(
        200,
        "[\"a1b2c3d4-e5f6-7890-abcd-ef1234567890\",\"00000000-0000-0000-0000-000000000000\"]",
    )
    .unwrap();
    assert_eq!(ids.len(), 2);
    assert_eq!(ids[1].as_str(), "00000000-0000-0000-0000-000000000000");
}

#[test]
fn ledger_decodes_with_and_without_details() {
    let body = "[{\"id\":100,\"created_at\":\"1970-01-01T00:00:10Z\",\"amount\":\"0.001\",\
                \"balance\":\"239.669\",\"type\":\"fee\"},\
                {\"id\":101,\"created_at\":\"1970-01-01T00:00:20Z\",\"amount\":\"-0.5\",\
                \"balance\":\"239.169\",\"type\":\"match\",\"details\":{\
                \"order_id\":\"a1b2c3d4-e5f6-7890-abcd-ef1234567890\",\"trade_id\":74,\
                \"product_id\":\"BTC-USD\"}}]";
    let ledger = decode_ledger_response(200, body).unwrap();
    assert_eq!(ledger.len(), 2);
    assert!(matches!(ledger[0].entry_type, EntryType::Fee));
    assert!(ledger[0].details.is_none());
    assert_eq!(ledger[0].created_at.secs, 10);
    assert!(matches!(ledger[1].entry_type, EntryType::Match));
    let details = ledger[1].details.as_ref().unwrap();
    assert_eq!(details.trade_id, Some(74));
    assert_eq!(details.product_id.as_deref(), Some("BTC-USD"));
    assert!(details.transfer_id.is_none());
    assert!(ledger[1].amount.eq_value(&dec("-0.5")));
}

#[test]
fn holds_decode_with_optional_account_reference() {
    let body = "[{\"id\":\"a1b2c3d4-e5f6-7890-abcd-ef1234567890\",\
                \"created_at\":\"1970-01-01T00:00:00Z\",\"updated_at\":null,\
                \"amount\":\"4.23\",\"type\":\"order\",\
                \"ref\":\"00000000-0000-0000-0000-000000000000\"}]";
    let holds = decode_holds_response(200, body).unwrap();
    assert_eq!(holds.len(), 1);
    assert!(holds[0].account_id.is_none());
    assert!(holds[0].updated_at.is_none());
    assert!(matches!(holds[0].hold_type, HoldType::Order));
    assert!(holds[0].amount.eq_value(&dec("4.23")));
}

#[test]
fn open_orders_decode() {
    let body = "[{\"id\":\"a1b2c3d4-e5f6-7890-abcd-ef1234567890\",\"size\":\"1.00\",\
                \"price\":\"1.00\",\"product_id\":\"BTC-USD\",\"status\":\"open\",\
                \"filled_size\":\"0.00\",\"executed_value\":\"0.00\",\"fill_fees\":\"0.00\",\
                \"settled\":false,\"side\":\"buy\",\"created_at\":\"1970-01-01T00:00:00Z\"}]";
    let orders = decode_orders_response(200, body).unwrap();
    assert_eq!(orders.len(), 1);
    assert_eq!(orders[0].status, "open");
    assert!(matches!(orders[0].side, Side::Buy));
    assert!(!orders[0].settled);
}

#[test]
fn single_order_decodes_with_null_done_fields() {
    let body = "{\"id\":\"a1b2c3d4-e5f6-7890-abcd-ef1234567890\",\"size\":\"1.00\",\
                \"price\":\"1.00\",\"done_reason\":null,\"status\":\"open\",\"settled\":false,\
                \"filled_size\":\"0.00\",\"executed_value\":\"0.00\",\"product_id\":\"BTC-USD\",\
                \"fill_fees\":\"0.00\",\"side\":\"sell\",\
                \"created_at\":\"2014-11-07T22:19:28.578544Z\",\"done_at\":null}";
    let order = decode_order_response(200, body).unwrap();
    assert!(order.done_reason.is_none());
    assert!(order.done_at.is_none());
    assert!(matches!(order.side, Side::Sell));
    assert_eq!(order.created_at.secs, 1415398768);
    assert_eq!(order.created_at.nanos, 578544000);
}

#[test]
fn products_decode_with_mixed_number_forms() {
    let body = "[{\"id\":\"BTC-USD\",\"base_currency\":\"BTC\",\"quote_currency\":\"USD\",\
                \"base_min_size\":0.01,\"base_max_size\":\"10000.0\",\"quote_increment\":0.01}]";
    let products = decode_products_response(200, body).unwrap();
    assert_eq!(products.len(), 1);
    assert_eq!(products[0].id, "BTC-USD");
    assert!(products[0].base_max_size.eq_value(&dec("10000")));
}

#[test]
fn order_books_decode_at_both_detail_levels() {
    let body = "{\"sequence\":3,\"bids\":[{\"price\":\"295.96\",\"size\":\"4.39\",\
                \"num_orders\":2}],\"asks\":[]}";
    let book = decode_book_response(200, body).unwrap();
    assert_eq!(book.sequence, 3);
    assert_eq!(book.bids.len(), 1);
    assert_eq!(book.asks.len(), 0);
    assert_eq!(book.bids[0].num_orders, 2);
    let body = "{\"sequence\":4,\"bids\":[],\"asks\":[{\"price\":\"295.97\",\"size\":\"1\",\
                \"order_id\":\"a1b2c3d4-e5f6-7890-abcd-ef1234567890\"}]}";
    let book = decode_full_book_response(200, body).unwrap();
    assert_eq!(book.sequence, 4);
    assert_eq!(book.asks[0].order_id.as_str(), "a1b2c3d4-e5f6-7890-abcd-ef1234567890");
}

#[test]
fn ticker_trades_candles_stats_currencies_time_decode() {
    let tick = decode_ticker_response(
        200,
        "{\"trade_id\":7,\"price\":\"10.00\",\"size\":\"0.1\",\"bid\":\"9.99\",\
         \"ask\":\"10.01\",\"volume\":\"100\",\"time\":\"1970-01-01T00:01:00Z\"}",
    )
    .unwrap();
    assert_eq!(tick.trade_id, 7);
    assert_eq!(tick.time.secs, 60);
    let trades = decode_trades_response(
        200,
        "[{\"time\":\"1970-01-01T00:01:00Z\",\"trade_id\":8,\"price\":\"10\",\
         \"size\":\"1\",\"side\":\"SELL\"}]",
    )
    .unwrap();
    assert!(matches!(trades[0].side, Side::Sell));
    let candles = decode_candles_response(
        200,
        "[{\"time\":60,\"low\":\"1\",\"high\":\"2\",\"open\":\"1.5\",\"close\":\"1.6\",\
         \"volume\":\"10\"}]",
    )
    .unwrap();
    assert_eq!(candles[0].time, 60);
    assert!(candles[0].close.eq_value(&dec("1.60")));
    let stats = decode_stats_response(
        200,
        "{\"open\":\"1\",\"high\":\"2\",\"low\":\"0.5\",\"volume\":\"10\"}",
    )
    .unwrap();
    assert!(stats.high.eq_value(&dec("2")));
    let currencies = decode_currencies_response(
        200,
        "[{\"id\":\"BTC\",\"name\":\"Bitcoin\",\"min_size\":\"0.00000001\"}]",
    )
    .unwrap();
    assert_eq!(currencies[0].name, "Bitcoin");
    let time = decode_time_response(
        200,
        "{\"iso\":\"1970-01-02T00:00:00Z\",\"epoch\":86400.0}",
    )
    .unwrap();
    assert_eq!(time.iso.secs, 86400);
    assert!(time.epoch.eq_value(&dec("86400")));
}

#[test]
fn missing_fields_are_errors_not_defaults() {
    let r = decode_ticker_response(200, "{\"trade_id\":7}");
    assert!(matches!(r, Err(Error::Json(_))));
    let r = decode_account_response(
        200,
        "{\"id\":\"a1b2c3d4-e5f6-7890-abcd-ef1234567890\",\"balance\":\"1.50\"}",
    );
    assert!(matches!(r, Err(Error::Json(_))));
}

#[test]
fn non_success_status_wins_over_a_decodable_body() {
    let r = decode_stats_response(500, "{\"message\":\"internal error\"}");
    match r {
        Err(Error::Api(e)) => assert_eq!(e.message, "internal error"),
        _ => panic!("expected an Api error"),
    }
}
