use gdax_client::decimal::Decimal;
use gdax_client::ids::Uuid;
use gdax_client::json::parse_json;
use gdax_client::private::{decode_new_order, EntryType, HoldType, NewOrder, SizeOrFunds};
use gdax_client::Side;

fn dec(s: &str) -> Decimal {
    Decimal::parse(s).unwrap()
}

#[test]
fn side_decodes_case_insensitively() {
    assert_eq!(Side::parse("buy"), Some(Side::Buy));
    assert_eq!(Side::parse("BUY"), Some(Side::Buy));
    assert_eq!(Side::parse("Buy"), Some(Side::Buy));
    assert_eq!(Side::parse("sell"), Some(Side::Sell));
    assert_eq!(Side::parse("SeLL"), Some(Side::Sell));
    assert_eq!(Side::parse("hold"), None);
    assert_eq!(Side::parse(""), None);
}

#[test]
fn side_encodes_lowercase() {
    assert_eq!(Side::Buy.wire_str(), "buy");
    assert_eq!(Side::Sell.wire_str(), "sell");
}

#[test]
fn side_displays_capitalized() {
    assert_eq!(Side::Buy.display_str(), "Buy");
    assert_eq!(Side::Sell.display_str(), "Sell");
}

#[test]
fn entry_type_decodes_case_insensitively() {
    assert!(matches!(EntryType::parse("fee"), Some(EntryType::Fee)));
    assert!(matches!(EntryType::parse("Match"), Some(EntryType::Match)));
    assert!(matches!(EntryType::parse("TRANSFER"), Some(EntryType::Transfer)));
    assert!(matches!(EntryType::parse("rebate"), None));
}

#[test]
fn hold_type_decodes_case_insensitively() {
    assert!(matches!(HoldType::parse("order"), Some(HoldType::Order)));
    assert!(matches!(HoldType::parse("Transfer"), Some(HoldType::Transfer)));
    assert!(matches!(HoldType::parse("fee"), None));
}

#[test]
fn decimal_parses_exactly() {
    let d = dec("1.50");
    assert_eq!(d.negative, false);
    assert_eq!(d.mantissa, 150);
    assert_eq!(d.scale, 2);
    let d = dec("-0.005");
    assert_eq!(d.negative, true);
    assert_eq!(d.mantissa, 5);
    assert_eq!(d.scale, 3);
    let d = dec("42");
    assert_eq!(d.mantissa, 42);
    assert_eq!(d.scale, 0);
}

#[test]
fn decimal_rejects_malformed_text() {
    assert_eq!(Decimal::parse(""), None);
    assert_eq!(Decimal::parse("-"), None);
    assert_eq!(Decimal::parse("1."), None);
    assert_eq!(Decimal::parse(".5"), None);
    assert_eq!(Decimal::parse("1..5"), None);
    assert_eq!(Decimal::parse("1.2.3"), None);
    assert_eq!(Decimal::parse("1e5"), None);
    assert_eq!(Decimal::parse("+1"), None);
    // At the mantissa bound: eighteen nines parse, a nineteenth digit does not.
    assert!(Decimal::parse("999999999999999999").is_some());
    assert_eq!(Decimal::parse("9999999999999999999"), None);
}

#[test]
fn decimal_render_inverts_parse() {
    for text in ["1.50", "-0.005", "42", "0.00", "-7"] {
        let d = Decimal::parse(text).unwrap();
        assert_eq!(d.render(), text);
    }
}

#[test]
fn decimal_value_equality_crosses_scales() {
    assert!(dec("1.50").eq_value(&dec("1.5")));
    assert!(dec("1.50").eq_value(&dec("1.500")));
    assert!(!dec("1.50").eq_value(&dec("1.51")));
    assert!(dec("0").eq_value(&dec("-0.000")));
    assert!(!dec("1").eq_value(&dec("-1")));
}

#[test]
fn decimal_addition_is_exact() {
    let sum = dec("0.50").checked_add(&dec("1.00")).unwrap();
    assert!(sum.eq_value(&dec("1.50")));
    assert_eq!(sum.scale, 2);
    let sum = dec("1.2").checked_add(&dec("-0.45")).unwrap();
    assert!(sum.eq_value(&dec("0.75")));
    assert_eq!(dec("999999999999999999").checked_add(&dec("1")), None);
}

#[test]
fn limit_order_encodes_to_the_documented_shape() {
    let o = NewOrder::limit(Side::Buy, "BTC-USD", dec("2"), dec("1.5"));
    assert_eq!(
        o.encode(),
        "{\"type\":\"limit\",\"side\":\"buy\",\"product_id\":\"BTC-USD\",\"price\":1.5,\"size\":2}"
    );
}

#[test]
fn market_order_encodes_size_or_funds_never_both() {
    let o = NewOrder::market(Side::Sell, "ETH-USD", SizeOrFunds::Size(dec("3")));
    let body = o.encode();
    assert_eq!(
        body,
        "{\"type\":\"market\",\"side\":\"sell\",\"product_id\":\"ETH-USD\",\"size\":3}"
    );
    assert!(!body.contains("funds"));
    let o = NewOrder::market(Side::Buy, "ETH-USD", SizeOrFunds::Funds(dec("100.00")));
    let body = o.encode();
    assert_eq!(
        body,
        "{\"type\":\"market\",\"side\":\"buy\",\"product_id\":\"ETH-USD\",\"funds\":100.00}"
    );
    assert!(!body.contains("size"));
}

#[test]
fn stop_order_encodes_both_quantity_forms() {
    let o = NewOrder::stop(Side::Sell, "BTC-USD", SizeOrFunds::Size(dec("1")), dec("900"));
    assert_eq!(
        o.encode(),
        "{\"type\":\"stop\",\"side\":\"sell\",\"product_id\":\"BTC-USD\",\"price\":900,\"size\":1}"
    );
    let o = NewOrder::stop(Side::Buy, "BTC-USD", SizeOrFunds::Funds(dec("50")), dec("1100.5"));
    assert_eq!(
        o.encode(),
        "{\"type\":\"stop\",\"side\":\"buy\",\"product_id\":\"BTC-USD\",\"price\":1100.5,\"funds\":50}"
    );
}

#[test]
fn product_id_is_escaped_in_the_body() {
    let o = NewOrder::market(Side::Buy, "A\"B\\C", SizeOrFunds::Size(dec("1")));
    assert_eq!(
        o.encode(),
        "{\"type\":\"market\",\"side\":\"buy\",\"product_id\":\"A\\\"B\\\\C\",\"size\":1}"
    );
}

#[test]
fn encode_then_decode_round_trips_every_variant() {
    let orders = vec![
        NewOrder::limit(Side::Buy, "BTC-USD", dec("2"), dec("1.5")),
        NewOrder::market(Side::Sell, "ETH-USD", SizeOrFunds::Size(dec("3"))),
        NewOrder::market(Side::Buy, "ETH-USD", SizeOrFunds::Funds(dec("100.00"))),
        NewOrder::stop(Side::Sell, "BTC-USD", SizeOrFunds::Size(dec("1")), dec("900")),
        NewOrder::stop(Side::Buy, "BTC-USD", SizeOrFunds::Funds(dec("50")), dec("1100.5")),
    ];
    for o in orders {
        let body = o.encode();
        let tree = parse_json(body.as_str()).unwrap();
        let back = decode_new_order(&tree).unwrap();
        match (&o, &back) {
            (
                NewOrder::Limit { side: s1, product_id: p1, price: pr1, size: z1 },
                NewOrder::Limit { side: s2, product_id: p2, price: pr2, size: z2 },
            ) => {
                assert_eq!(s1, s2);
                assert_eq!(p1, p2);
                assert_eq!(pr1, pr2);
                assert_eq!(z1, z2);
            },
            (
                NewOrder::Market { side: s1, product_id: p1, size_or_funds: f1 },
                NewOrder::Market { side: s2, product_id: p2, size_or_funds: f2 },
            ) => {
                assert_eq!(s1, s2);
                assert_eq!(p1, p2);
                assert_eq!(f1, f2);
            },
            (
                NewOrder::Stop { side: s1, product_id: p1, price: pr1, size_or_funds: f1 },
                NewOrder::Stop { side: s2, product_id: p2, price: pr2, size_or_funds: f2 },
            ) => {
                assert_eq!(s1, s2);
                assert_eq!(p1, p2);
                assert_eq!(pr1, pr2);
                assert_eq!(f1, f2);
            },
            _ => panic!("the decoded order changed its variant"),
        }
    }
}

#[test]
fn uuid_accepts_only_the_canonical_shape() {
    assert!(Uuid::parse("a1b2c3d4-e5f6-7890-abcd-ef1234567890").is_some());
    assert!(Uuid::parse("A1B2C3D4-E5F6-7890-ABCD-EF1234567890").is_some());
    assert!(Uuid::parse("a1b2c3d4e5f67890abcdef1234567890").is_none());
    assert!(Uuid::parse("a1b2c3d4-e5f6-7890-abcd-ef123456789").is_none());
    assert!(Uuid::parse("a1b2c3d4-e5f6-7890-abcd-ef123456789g").is_none());
    assert!(Uuid::parse("").is_none());
    let u = Uuid::parse("a1b2c3d4-e5f6-7890-abcd-ef1234567890").unwrap();
    assert_eq!(u.as_str(), "a1b2c3d4-e5f6-7890-abcd-ef1234567890");
}
