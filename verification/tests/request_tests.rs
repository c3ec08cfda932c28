use gdax_client::clock::Timestamp;
use gdax_client::decimal::Decimal;
use gdax_client::ids::Uuid;
use gdax_client::private::{NewOrder, SizeOrFunds};
use gdax_client::sign::sign;
use gdax_client::{PrivateClient, PublicClient, Side};

fn client() -> PrivateClient {
    PrivateClient::new("the-key", "c2VjcmV0", "the-passphrase")
}

fn uuid() -> Uuid {
    Uuid::parse("a1b2c3d4-e5f6-7890-abcd-ef1234567890").unwrap()
}

#[test]
fn status_filters_keep_their_order_and_skip_the_rest() {
    let req = client().get_orders_with_status(true, false, true).unwrap();
    assert_eq!(req.path, "/orders?status=open&status=active");
    let req = client().get_orders_with_status(true, true, true).unwrap();
    assert_eq!(req.path, "/orders?status=open&status=pending&status=active");
    let req = client().get_orders_with_status(false, true, false).unwrap();
    assert_eq!(req.path, "/orders?status=pending");
    let req = client().get_orders_with_status(false, false, true).unwrap();
    assert_eq!(req.path, "/orders?status=active");
}

#[test]
fn no_filter_means_no_query_string() {
    let req = client().get_orders_with_status(false, false, false).unwrap();
    assert_eq!(req.path, "/orders");
    assert!(!req.url.contains('?'));
}

#[test]
fn get_orders_asks_for_every_status() {
    let req = client().get_orders().unwrap();
    assert_eq!(req.path, "/orders?status=open&status=pending&status=active");
}

#[test]
fn public_urls_are_exact() {
    let public = PublicClient::new();
    assert_eq!(public.get_products().url, "https://api.gdax.com/products");
    assert_eq!(
        public.get_best_order("BTC-USD").url,
        "https://api.gdax.com/products/BTC-USD/book?level=1"
    );
    assert_eq!(
        public.get_top50_orders("BTC-USD").url,
        "https://api.gdax.com/products/BTC-USD/book?level=2"
    );
    assert_eq!(
        public.get_full_book("BTC-USD").url,
        "https://api.gdax.com/products/BTC-USD/book?level=3"
    );
    assert_eq!(
        public.get_product_ticker("BTC-USD").url,
        "https://api.gdax.com/products/BTC-USD/ticker"
    );
    assert_eq!(
        public.get_trades("BTC-USD").url,
        "https://api.gdax.com/products/BTC-USD/trades"
    );
    assert_eq!(
        public.get_24hr_stats("BTC-USD").url,
        "https://api.gdax.com/products/BTC-USD/stats"
    );
    assert_eq!(public.get_currencies().url, "https://api.gdax.com/currencies");
    assert_eq!(public.get_time().url, "https://api.gdax.com/time");
}

#[test]
fn historic_rates_formats_its_interval() {
    let public = PublicClient::new();
    let start = Timestamp { secs: 0, nanos: 0 };
    let end = Timestamp { secs: 86400, nanos: 0 };
    let req = public.get_historic_rates("BTC-USD", start, end, 200).unwrap();
    assert_eq!(
        req.url,
        "https://api.gdax.com/products/BTC-USD/candles?start=1970-01-01T00:00:00+00:00\
         &end=1970-01-02T00:00:00+00:00&granularity=200"
    );
}

#[test]
fn signed_paths_are_exact() {
    let c = client();
    assert_eq!(c.get_accounts().unwrap().path, "/accounts");
    assert_eq!(
        c.get_account(&uuid()).unwrap().path,
        "/accounts/a1b2c3d4-e5f6-7890-abcd-ef1234567890"
    );
    assert_eq!(
        c.get_account_history(&uuid()).unwrap().path,
        "/accounts/a1b2c3d4-e5f6-7890-abcd-ef1234567890/ledger"
    );
    assert_eq!(
        c.get_account_holds(&uuid()).unwrap().path,
        "/accounts/a1b2c3d4-e5f6-7890-abcd-ef1234567890/holds"
    );
    assert_eq!(
        c.cancel_order(&uuid()).unwrap().path,
        "/order/a1b2c3d4-e5f6-7890-abcd-ef1234567890"
    );
    assert_eq!(c.cancel_all_orders(None).unwrap().path, "/orders");
    assert_eq!(
        c.cancel_all_orders(Some("BTC-USD")).unwrap().path,
        "/orders?product_id=BTC-USD"
    );
    assert_eq!(
        c.get_order(&uuid()).unwrap().path,
        "/orders/a1b2c3d4-e5f6-7890-abcd-ef1234567890"
    );
}

#[test]
fn a_signed_request_carries_a_verifiable_signature() {
    let req = client().get_accounts().unwrap();
    assert_eq!(req.method, "GET");
    assert_eq!(req.url, "https://api.gdax.com/accounts");
    assert_eq!(req.body, "");
    // Recomputing with the request's own timestamp gives the same header.
    let again = sign("c2VjcmV0", &req.timestamp, "GET", "/accounts", "").unwrap();
    assert_eq!(req.signature, again);
}

#[test]
fn headers_carry_the_credentials() {
    let req = client().get_accounts().unwrap();
    let headers = req.headers();
    assert_eq!(headers.len(), 6);
    assert_eq!(headers[0].0, "CB-ACCESS-KEY");
    assert_eq!(headers[0].1, "the-key");
    assert_eq!(headers[1].0, "CB-ACCESS-SIGN");
    assert_eq!(headers[1].1, req.signature);
    assert_eq!(headers[2].0, "CB-ACCESS-PASSPHRASE");
    assert_eq!(headers[2].1, "the-passphrase");
    assert_eq!(headers[3].0, "CB-ACCESS-TIMESTAMP");
    assert_eq!(headers[3].1, req.timestamp);
    assert_eq!(headers[4].0, "Accept");
    assert_eq!(headers[5].0, "User-Agent");
    assert_eq!(headers[5].1, "rust-gdax-client/0.1.0");
}

#[test]
fn a_body_adds_its_content_type_header() {
    let order = NewOrder::limit(
        Side::Buy,
        "BTC-USD",
        Decimal::parse("2").unwrap(),
        Decimal::parse("1.5").unwrap(),
    );
    let req = client().post_order(&order).unwrap();
    assert_eq!(req.method, "POST");
    assert_eq!(req.path, "/orders");
    assert_eq!(
        req.body,
        "{\"type\":\"limit\",\"side\":\"buy\",\"product_id\":\"BTC-USD\",\"price\":1.5,\"size\":2}"
    );
    let headers = req.headers();
    assert_eq!(headers.len(), 7);
    assert_eq!(headers[6].0, "Content-Type");
    assert_eq!(headers[6].1, "application/json");
    // The signature covers exactly the body that is sent.
    let again = sign("c2VjcmV0", &req.timestamp, "POST", "/orders", &req.body).unwrap();
    assert_eq!(req.signature, again);
}

#[test]
fn a_bad_secret_fails_at_signing_time() {
    let c = PrivateClient::new("k", "!!!", "p");
    assert!(matches!(
        c.get_accounts(),
        Err(gdax_client::Error::InvalidSecretKey)
    ));
    let o = NewOrder::market(
        Side::Buy,
        "BTC-USD",
        SizeOrFunds::Funds(Decimal::parse("10").unwrap()),
    );
    assert!(matches!(
        c.post_order(&o),
        Err(gdax_client::Error::InvalidSecretKey)
    ));
}
