use figma_api::json::parse;
use figma_api::raw::{Number, Raw};

#[test]
fn primitives_are_read_as_they_stand() {
    assert_eq!(parse("null").unwrap(), Raw::Null);
    assert_eq!(parse("true").unwrap(), Raw::Bool(true));
    assert_eq!(parse("false").unwrap(), Raw::Bool(false));
    assert_eq!(parse("\"a b\"").unwrap(), Raw::String("a b".to_string()));
    assert_eq!(parse("\"\"").unwrap(), Raw::String(String::new()));
}

#[test]
fn numbers_keep_their_kind() {
    assert_eq!(parse("0").unwrap(), Raw::Number(Number::PosInt(0)));
    assert_eq!(parse("17").unwrap(), Raw::Number(Number::PosInt(17)));
    assert_eq!(parse("18446744073709551615").unwrap(), Raw::Number(Number::PosInt(u64::MAX)));
    assert_eq!(parse("-3").unwrap(), Raw::Number(Number::NegInt(-3)));
    assert_eq!(parse("-9223372036854775808").unwrap(), Raw::Number(Number::NegInt(i64::MIN)));
    assert_eq!(parse("0.5").unwrap(), Raw::Number(Number::Float(0.5f64.to_bits())));
    assert_eq!(parse("-2.25e3").unwrap(), Raw::Number(Number::Float((-2250.0f64).to_bits())));
    assert_eq!(parse("1.0").unwrap(), Raw::Number(Number::Float(1.0f64.to_bits())));
}

#[test]
fn arrays_keep_their_order() {
    let v = parse("[1, \"two\", [3], null]").unwrap();
    assert_eq!(
        v,
        Raw::Array(vec![
            Raw::Number(Number::PosInt(1)),
            Raw::String("two".to_string()),
            Raw::Array(vec![Raw::Number(Number::PosInt(3))]),
            Raw::Null,
        ])
    );
    assert_eq!(parse("[]").unwrap(), Raw::Array(vec![]));
}

#[test]
fn objects_hold_every_member_once() {
    let v = parse("{\"b\": 1, \"a\": {\"c\": true}}").unwrap();
    assert_eq!(v.get("b"), Some(&Raw::Number(Number::PosInt(1))));
    assert_eq!(v.get("a").unwrap().get("c"), Some(&Raw::Bool(true)));
    assert_eq!(v.get("c"), None);
    match v {
        Raw::Object(members) => assert_eq!(members.len(), 2),
        _ => panic!("not an object"),
    }
    assert_eq!(parse("{}").unwrap(), Raw::Object(vec![]));
}

#[test]
fn a_repeated_key_keeps_its_last_value() {
    let v = parse("{\"k\": 1, \"k\": 2}").unwrap();
    assert_eq!(v.get("k"), Some(&Raw::Number(Number::PosInt(2))));
    let by_hand = Raw::Object(vec![
        ("k".to_string(), Raw::Number(Number::PosInt(1))),
        ("k".to_string(), Raw::Number(Number::PosInt(2))),
    ]);
    assert_eq!(by_hand.get("k"), Some(&Raw::Number(Number::PosInt(2))));
}

#[test]
fn get_tells_keys_apart() {
    let v = Raw::Object(vec![
        ("name".to_string(), Raw::Bool(true)),
        ("Name".to_string(), Raw::Bool(false)),
    ]);
    assert_eq!(v.get("name"), Some(&Raw::Bool(true)));
    assert_eq!(v.get("Name"), Some(&Raw::Bool(false)));
    assert_eq!(v.get("nam"), None);
    assert_eq!(Raw::Array(vec![]).get("name"), None);
}

#[test]
fn text_that_is_not_json_is_refused() {
    assert!(parse("").is_err());
    assert!(parse("{").is_err());
    assert!(parse("{\"a\": }").is_err());
    assert!(parse("[1, 2,]").is_err());
    assert!(parse("nul").is_err());
    assert!(parse("1 2").is_err());
}

#[test]
fn a_copy_equals_what_it_was_made_from() {
    let v = parse("{\"a\": [1, -2, 0.5, \"x\", null, {\"b\": false}]}").unwrap();
    assert_eq!(v.duplicate(), v);
}
