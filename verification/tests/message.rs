use payment::amount::parse_amount;
use payment::error::PaymentError;
use payment::ft_contract::FtMessage;
use payment::json::JsonObject;
use payment::order::{Order, PaymentMethod};
use payment::store::OrderStore;

#[test]
fn parse_amount_reads_decimal_digits() {
    assert_eq!(parse_amount("0"), Some(0));
    assert_eq!(parse_amount("7"), Some(7));
    assert_eq!(parse_amount("1000"), Some(1000));
    assert_eq!(parse_amount("0001000"), Some(1000));
    assert_eq!(parse_amount("1000000000000000000000000"), Some(1_000_000_000_000_000_000_000_000));
}

#[test]
fn parse_amount_takes_one_leading_plus() {
    assert_eq!(parse_amount("+5"), Some(5));
    assert_eq!(parse_amount("+0"), Some(0));
    assert_eq!(parse_amount("+"), None);
    assert_eq!(parse_amount("++5"), None);
    assert_eq!(parse_amount("5+"), None);
}

#[test]
fn parse_amount_stops_at_the_largest_value() {
    assert_eq!(parse_amount("340282366920938463463374607431768211455"), Some(u128::MAX));
    assert_eq!(parse_amount("340282366920938463463374607431768211456"), None);
    assert_eq!(parse_amount("3402823669209384634633746074317682114550"), None);
    assert_eq!(parse_amount("999999999999999999999999999999999999999"), None);
    assert_eq!(parse_amount("00340282366920938463463374607431768211455"), Some(u128::MAX));
}

#[test]
fn parse_amount_rejects_what_is_not_a_number() {
    for s in ["", " ", "-1", "-0", "1 ", " 1", "12a", "a12", "1_000", "1,000", "10.5", "1e3", "0x10"] {
        assert_eq!(parse_amount(s), None, "text {:?}", s);
    }
}

#[test]
fn parse_amount_rejects_digits_outside_ascii() {
    assert_eq!(parse_amount("\u{ff11}\u{ff12}"), None);
    assert_eq!(parse_amount("1\u{0663}"), None);
    assert_eq!(parse_amount("\u{e9}"), None);
    assert_eq!(parse_amount("+\u{ff11}"), None);
}

#[test]
fn parse_amount_agrees_with_the_standard_parser() {
    for s in ["0", "42", "+42", "", "+", "-", "4 2", "340282366920938463463374607431768211455",
        "340282366920938463463374607431768211456", "007", "٣"] {
        assert_eq!(parse_amount(s), s.parse::<u128>().ok(), "text {:?}", s);
    }
}

fn member(name: &str, text: Option<&str>) -> (String, Option<String>) {
    (name.to_owned(), text.map(|t| t.to_owned()))
}

#[test]
fn object_parse_gives_the_members() {
    assert_eq!(JsonObject::parse("{}"), Ok(JsonObject { members: vec![] }));
    assert_eq!(
        JsonObject::parse(" {\"a\": \"x\"} "),
        Ok(JsonObject { members: vec![member("a", Some("x"))] })
    );
    assert_eq!(
        JsonObject::parse("{\"a\": \"\\u0062\\n\", \"k\": {\"a\": \"deep\"}, \"n\": 1, \"z\": null}"),
        Ok(JsonObject {
            members: vec![
                member("a", Some("b\n")),
                member("k", None),
                member("n", None),
                member("z", None),
            ]
        })
    );
}

#[test]
fn object_parse_holds_each_name_once() {
    assert_eq!(
        JsonObject::parse("{\"a\": \"1\", \"a\": \"2\"}"),
        Ok(JsonObject { members: vec![member("a", Some("2"))] })
    );
    assert_eq!(
        JsonObject::parse("{\"a\": \"1\", \"a\": 2}"),
        Ok(JsonObject { members: vec![member("a", None)] })
    );
}

#[test]
fn object_parse_rejects_what_is_not_one_object() {
    for s in [
        "", "   ", "{", "{\"a\": }", "{'a': 1}", "{a: 1}", "{} x", "{}{}", "{\"a\": 1,}",
        "{\"a\": \"open}", "null", "true", "12", "\"abc\"", "[]", "[{\"a\": \"1\"}]",
    ] {
        assert_eq!(JsonObject::parse(s), Err(PaymentError::InvalidMessage), "text {:?}", s);
    }
}

#[test]
fn text_member_finds_by_name() {
    let object = JsonObject::parse("{\"b\": \"2\", \"a\": \"1\", \"c\": 3}").unwrap();
    assert_eq!(object.text_member("a"), Some(&"1".to_owned()));
    assert_eq!(object.text_member("b"), Some(&"2".to_owned()));
    assert_eq!(object.text_member("c"), None);
    assert_eq!(object.text_member("d"), None);
    assert_eq!(object.text_member(""), None);
    assert_eq!(object.text_member("A"), None);
}

#[test]
fn text_member_takes_the_first_of_a_name() {
    let object = JsonObject {
        members: vec![
            member("a", Some("first")),
            member("b", None),
            member("a", Some("second")),
            member("b", Some("late")),
        ],
    };
    assert_eq!(object.text_member("a"), Some(&"first".to_owned()));
    assert_eq!(object.text_member("b"), None);
}

#[test]
fn text_member_of_an_empty_object_is_none() {
    assert_eq!(JsonObject { members: vec![] }.text_member("a"), None);
    let empty_text = JsonObject { members: vec![member("a", Some(""))] };
    assert_eq!(empty_text.text_member("a"), Some(&String::new()));
}

#[test]
fn message_parse_reads_id_and_amount() {
    assert_eq!(
        FtMessage::parse("{\"order_id\": \"o2\", \"order_amount\": \"1000\"}"),
        Ok(FtMessage { order_id: "o2".to_owned(), order_amount: 1000 })
    );
    assert_eq!(
        FtMessage::parse("{\"order_amount\":\"+7\",\"order_id\":\"\"}"),
        Ok(FtMessage { order_id: String::new(), order_amount: 7 })
    );
}

#[test]
fn message_parse_ignores_other_members() {
    assert_eq!(
        FtMessage::parse(
            "{\"note\": [1, 2], \"order_id\": \"o2\", \"order_amount\": \"0\", \"zz\": null}"
        ),
        Ok(FtMessage { order_id: "o2".to_owned(), order_amount: 0 })
    );
}

#[test]
fn message_from_json_wants_two_strings() {
    let good = JsonObject {
        members: vec![member("order_id", Some("o2")), member("order_amount", Some("1000"))],
    };
    assert_eq!(
        FtMessage::from_json(&good),
        Some(FtMessage { order_id: "o2".to_owned(), order_amount: 1000 })
    );
    let number = JsonObject {
        members: vec![member("order_id", Some("o2")), member("order_amount", None)],
    };
    assert_eq!(FtMessage::from_json(&number), None);
    let no_id = JsonObject { members: vec![member("order_amount", Some("1000"))] };
    assert_eq!(FtMessage::from_json(&no_id), None);
    let no_amount = JsonObject { members: vec![member("order_id", Some("o2"))] };
    assert_eq!(FtMessage::from_json(&no_amount), None);
    let bad_amount = JsonObject {
        members: vec![member("order_id", Some("o2")), member("order_amount", Some("ten"))],
    };
    assert_eq!(FtMessage::from_json(&bad_amount), None);
    assert_eq!(FtMessage::from_json(&JsonObject { members: vec![] }), None);
}

#[test]
fn message_parse_of_a_bad_payload_is_invalid_message() {
    assert_eq!(FtMessage::parse("{"), Err(PaymentError::InvalidMessage));
    assert_eq!(FtMessage::parse("{}"), Err(PaymentError::InvalidMessage));
    assert_eq!(
        FtMessage::parse("{\"order_id\": \"o2\", \"order_amount\": \"1e3\"}"),
        Err(PaymentError::InvalidMessage)
    );
}

fn order(order_id: &str, amount: u128) -> Order {
    Order {
        order_id: order_id.to_owned(),
        payer_id: "charlie".to_owned(),
        payment_method: PaymentMethod::Near,
        amount,
        received_amount: amount,
        is_completed: true,
        is_refund: false,
        created_at: 9,
    }
}

#[test]
fn store_get_after_upsert_gives_the_order() {
    let mut store = OrderStore::new();
    assert!(!store.contains("o1"));
    assert_eq!(store.get("o1"), Err(PaymentError::NotFound));
    store.upsert("o1".to_owned(), order("o1", 5));
    assert!(store.contains("o1"));
    assert_eq!(store.get("o1"), Ok(order("o1", 5)));
    assert_eq!(store.get("o2"), Err(PaymentError::NotFound));
}

#[test]
fn store_upsert_overwrites_and_keeps_the_rest() {
    let mut store = OrderStore::new();
    store.upsert("o1".to_owned(), order("o1", 5));
    store.upsert("o2".to_owned(), order("o2", 6));
    store.upsert("o1".to_owned(), order("o1", 7));
    assert_eq!(store.get("o1"), Ok(order("o1", 7)));
    assert_eq!(store.get("o2"), Ok(order("o2", 6)));
}

#[test]
fn order_clone_is_equal() {
    let first = order("o1", 5);
    assert_eq!(first.clone(), first);
}

#[test]
fn message_parse_takes_the_last_of_a_repeated_member() {
    assert_eq!(
        FtMessage::parse("{\"order_id\": \"a\", \"order_id\": \"b\", \"order_amount\": \"1\"}"),
        Ok(FtMessage { order_id: "b".to_owned(), order_amount: 1 })
    );
    assert_eq!(
        FtMessage::parse("{\"order_id\": \"a\", \"order_amount\": \"1\", \"order_amount\": \"2\"}"),
        Ok(FtMessage { order_id: "a".to_owned(), order_amount: 2 })
    );
    assert_eq!(
        FtMessage::parse("{\"order_id\": \"a\", \"order_amount\": \"1\", \"order_amount\": 2}"),
        Err(PaymentError::InvalidMessage)
    );
}
