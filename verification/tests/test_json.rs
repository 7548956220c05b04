use asl::json::{Json, JsonNumber, JsonValue, PathStep};
use asl::types::{EmptyContext, StateMachineContext};

struct FixedContext {
    value: JsonValue,
}

impl StateMachineContext for FixedContext {
    fn json(&self) -> Json {
        unreachable!("a document for proofs, which no program asks for")
    }

    fn as_value(&self) -> &JsonValue {
        &self.value
    }
}

#[test]
fn parse_reads_an_object() {
    let value = JsonValue::parse(r#"{"foo": 1, "bar": [true, null, "x", -2, 1.5]}"#).unwrap();
    let expected = JsonValue::Object(vec![
        ("foo".to_string(), JsonValue::Number(JsonNumber::PosInt(1))),
        (
            "bar".to_string(),
            JsonValue::Array(vec![
                JsonValue::Bool(true),
                JsonValue::Null,
                JsonValue::String("x".to_string()),
                JsonValue::Number(JsonNumber::NegInt(-2)),
                JsonValue::Number(JsonNumber::Float("1.5".to_string())),
            ]),
        ),
    ]);
    assert_eq!(value, expected);
}

#[test]
fn json_parse_refuses_what_is_not_json() {
    assert!(JsonValue::parse("{").is_err());
}

#[test]
fn to_text_writes_compact_json() {
    let value = JsonValue::parse(r#"{"foo": 1, "bar": [true, null, "x", -2, 1.5]}"#).unwrap();
    assert_eq!(value.to_text(), r#"{"foo":1,"bar":[true,null,"x",-2,1.5]}"#);
}

#[test]
fn descend_follows_keys_and_indexes() {
    let value = JsonValue::parse(r#"{"a": [10, {"b": "deep"}]}"#).unwrap();
    let steps = vec![
        PathStep::Key("a".to_string()),
        PathStep::Index(1),
        PathStep::Key("b".to_string()),
    ];
    assert_eq!(value.descend(&steps), Some(&JsonValue::String("deep".to_string())));
    let missing = vec![PathStep::Key("a".to_string()), PathStep::Index(2)];
    assert_eq!(value.descend(&missing), None);
}

#[test]
fn get_takes_the_last_member_of_a_name() {
    let value = JsonValue::Object(vec![
        ("k".to_string(), JsonValue::Bool(false)),
        ("k".to_string(), JsonValue::Bool(true)),
    ]);
    assert_eq!(value.get("k"), Some(&JsonValue::Bool(true)));
}

#[test]
fn double_bits_of_integers_and_floats() {
    assert_eq!(JsonNumber::PosInt(1).double_bits(), Some(1.0f64.to_bits()));
    assert_eq!(JsonNumber::NegInt(-2).double_bits(), Some((-2.0f64).to_bits()));
    assert_eq!(JsonNumber::Float("1.5".to_string()).double_bits(), Some(1.5f64.to_bits()));
    assert_eq!(JsonNumber::Float("abc".to_string()).double_bits(), None);
}

#[test]
fn contexts_hand_out_their_value() {
    assert_eq!(EmptyContext {}.as_value(), &JsonValue::Null);
    let context = FixedContext { value: JsonValue::Bool(true) };
    assert_eq!(context.as_value(), &JsonValue::Bool(true));
}

#[test]
fn to_debug_text_shows_the_kinds_of_values() {
    assert_eq!(JsonValue::String("x".to_string()).to_debug_text(), "String(\"x\")");
    assert_eq!(JsonValue::Null.to_debug_text(), "Null");
    assert_eq!(JsonValue::Number(JsonNumber::NegInt(-2)).to_debug_text(), "Number(-2)");
}
