use order_creation::app_data::OrderCreationAppData;
use order_creation::error::MalformedAppData;
use order_creation::order::OrderCreation;
use order_creation::request::{Member, Request};

fn entry(key: &str, text: &str) -> Member {
    Member { key: key.to_string(), text: Some(text.to_string()) }
}

fn order(sell: &str, buy: &str, app_data: OrderCreationAppData) -> OrderCreation {
    OrderCreation { sell_token: sell.to_string(), buy_token: buy.to_string(), app_data }
}

const SELL: &str = "0x6810e776880c02933d47db1b9fc05908e5386b96";
const BUY: &str = "0xc02aaa39b223fe8d0a0e5c4f27ead9083c756cc2";

#[test]
fn default_order_is_empty() {
    let default = OrderCreation::default();
    assert_eq!(default.sell_token, "");
    assert_eq!(default.buy_token, "");
    assert_eq!(default.app_data, OrderCreationAppData::Hash { hash: String::new() });
}

#[test]
fn order_with_data_and_hash() {
    let request = Request::Object(vec![
        entry("sellToken", "0xAA"),
        entry("buyToken", "0xBB"),
        entry("appData", "{\"x\":1}"),
        entry("appDataHash", "0x123"),
    ]);
    let expected = order(
        "0xAA",
        "0xBB",
        OrderCreationAppData::Both { full: "{\"x\":1}".to_string(), expected: "0x123".to_string() },
    );
    assert_eq!(OrderCreation::from_request(&request, true), Ok(expected.clone()));
    assert_eq!(OrderCreation::from_request(&request, false), Ok(expected));
}

#[test]
fn order_without_app_data() {
    let request = Request::Object(vec![entry("sellToken", "0xAA"), entry("buyToken", "0xBB")]);
    let expected = order("0xAA", "0xBB", OrderCreationAppData::Hash { hash: String::new() });
    assert_eq!(OrderCreation::from_request(&request, true), Ok(expected));
}

#[test]
fn order_with_data_alone() {
    let request = Request::Object(vec![
        entry("appData", "{}"),
        entry("buyToken", BUY),
        entry("sellToken", SELL),
    ]);
    let expected = order(SELL, BUY, OrderCreationAppData::Full { full: "{}".to_string() });
    assert_eq!(OrderCreation::from_request(&request, true), Ok(expected));
}

#[test]
fn order_with_hash_alone() {
    let request = Request::Object(vec![
        entry("sellToken", SELL),
        entry("appDataHash", "0x01"),
        entry("buyToken", BUY),
    ]);
    let expected = order(SELL, BUY, OrderCreationAppData::Hash { hash: "0x01".to_string() });
    assert_eq!(OrderCreation::from_request(&request, false), Ok(expected));
}

#[test]
fn order_from_anything_but_an_object_is_malformed() {
    assert_eq!(OrderCreation::from_request(&Request::Other, false), Err(MalformedAppData));
    assert_eq!(OrderCreation::from_request(&Request::Other, true), Err(MalformedAppData));
}

#[test]
fn order_without_sell_token_is_malformed() {
    let request = Request::Object(vec![entry("buyToken", BUY), entry("appData", "{}")]);
    assert_eq!(OrderCreation::from_request(&request, false), Err(MalformedAppData));
}

#[test]
fn order_without_buy_token_is_malformed() {
    let request = Request::Object(vec![entry("sellToken", SELL), entry("appData", "{}")]);
    assert_eq!(OrderCreation::from_request(&request, false), Err(MalformedAppData));
}

#[test]
fn order_with_a_token_twice_is_malformed() {
    let request = Request::Object(vec![
        entry("sellToken", SELL),
        entry("buyToken", BUY),
        entry("sellToken", SELL),
    ]);
    assert_eq!(OrderCreation::from_request(&request, false), Err(MalformedAppData));
}

#[test]
fn order_with_a_token_that_is_no_string_is_malformed() {
    let request = Request::Object(vec![
        entry("sellToken", SELL),
        Member { key: "buyToken".to_string(), text: None },
    ]);
    assert_eq!(OrderCreation::from_request(&request, false), Err(MalformedAppData));
}

#[test]
fn order_with_malformed_app_data_is_malformed() {
    let request = Request::Object(vec![
        entry("sellToken", SELL),
        entry("buyToken", BUY),
        entry("appData", "{}"),
        entry("appData", "{}"),
    ]);
    assert_eq!(OrderCreation::from_request(&request, false), Err(MalformedAppData));
}

#[test]
fn order_with_unknown_key_is_malformed_only_when_strict() {
    let request = Request::Object(vec![
        entry("sellToken", SELL),
        entry("buyToken", BUY),
        entry("kind", "sell"),
    ]);
    assert_eq!(OrderCreation::from_request(&request, true), Err(MalformedAppData));
    assert_eq!(
        OrderCreation::from_request(&request, false),
        Ok(order(SELL, BUY, OrderCreationAppData::default()))
    );
}

#[test]
fn order_is_written_as_tokens_then_app_data() {
    let written = order(
        SELL,
        BUY,
        OrderCreationAppData::Both { full: "{}".to_string(), expected: "0x1".to_string() },
    )
    .to_request();
    assert_eq!(
        written,
        Request::Object(vec![
            entry("sellToken", SELL),
            entry("buyToken", BUY),
            entry("appData", "{}"),
            entry("appDataHash", "0x1"),
        ])
    );
}

#[test]
fn default_order_is_written_with_an_empty_hash_as_data() {
    assert_eq!(
        OrderCreation::default().to_request(),
        Request::Object(vec![entry("sellToken", ""), entry("buyToken", ""), entry("appData", "")])
    );
}

#[test]
fn written_order_reads_as_itself() {
    let orders = [
        order(
            SELL,
            BUY,
            OrderCreationAppData::Both { full: "{\"x\":1}".to_string(), expected: "0x123".to_string() },
        ),
        order(SELL, BUY, OrderCreationAppData::Full { full: "{}".to_string() }),
        order("", "", OrderCreationAppData::Full { full: String::new() }),
    ];
    for order in orders {
        let written = order.to_request();
        assert_eq!(OrderCreation::from_request(&written, true), Ok(order.clone()));
        assert_eq!(OrderCreation::from_request(&written, false), Ok(order));
    }
}

#[test]
fn written_order_with_hash_alone_reads_with_full_data() {
    let written = order(SELL, BUY, OrderCreationAppData::Hash { hash: "0x5".to_string() });
    let read = OrderCreation::from_request(&written.to_request(), true);
    assert_eq!(read, Ok(order(SELL, BUY, OrderCreationAppData::Full { full: "0x5".to_string() })));
}

#[test]
fn order_clone_is_equal_to_its_source() {
    let source = order(SELL, BUY, OrderCreationAppData::Full { full: "{}".to_string() });
    assert_eq!(source.clone(), source);
}

#[test]
fn orders_differ_by_each_field() {
    let base = order("a", "b", OrderCreationAppData::default());
    assert_ne!(base, order("x", "b", OrderCreationAppData::default()));
    assert_ne!(base, order("a", "x", OrderCreationAppData::default()));
    assert_ne!(base, order("a", "b", OrderCreationAppData::Full { full: String::new() }));
}
