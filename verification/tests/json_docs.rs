use kraken_rs::json::{obj_get, parse_json, JsonNum, JsonValue};

fn num(neg: bool, mant: u64, scale: u32) -> JsonValue {
    JsonValue::Num(JsonNum { neg, mant, scale })
}

#[test]
fn parse_scalars() {
    assert_eq!(parse_json(b"null"), Some(JsonValue::Null));
    assert_eq!(parse_json(b"true"), Some(JsonValue::Bool(true)));
    assert_eq!(parse_json(b"false"), Some(JsonValue::Bool(false)));
    assert_eq!(parse_json(b"0"), Some(num(false, 0, 0)));
    assert_eq!(parse_json(b"42"), Some(num(false, 42, 0)));
    assert_eq!(parse_json(b"-7"), Some(num(true, 7, 0)));
    assert_eq!(parse_json(b"30000.5"), Some(num(false, 300005, 1)));
    assert_eq!(parse_json(b"-0.001"), Some(num(true, 1, 3)));
}

#[test]
fn parse_strings_and_escapes() {
    assert_eq!(
        parse_json(b"\"ab\""),
        Some(JsonValue::Str(b"ab".to_vec()))
    );
    assert_eq!(
        parse_json(b"\"a\\\"b\\\\c\\n\""),
        Some(JsonValue::Str(b"a\"b\\c\n".to_vec()))
    );
    assert_eq!(parse_json(b"\"a\\u0041\""), None, "unicode escapes are not read");
}

#[test]
fn parse_structures() {
    let doc = parse_json(b" { \"a\" : [ 1 , 2 ] , \"b\" : { } } ").unwrap();
    match &doc {
        JsonValue::Obj(ms) => {
            assert_eq!(ms.len(), 2);
            assert_eq!(obj_get(ms, b"a"), Some(&JsonValue::Arr(vec![
                num(false, 1, 0),
                num(false, 2, 0),
            ])));
            assert_eq!(obj_get(ms, b"b"), Some(&JsonValue::Obj(Vec::new())));
            assert_eq!(obj_get(ms, b"c"), None);
        }
        other => panic!("unexpected {:?}", other),
    }
}

#[test]
fn obj_get_takes_first_of_duplicates() {
    let doc = parse_json(b"{\"k\":1,\"k\":2}").unwrap();
    match &doc {
        JsonValue::Obj(ms) => assert_eq!(obj_get(ms, b"k"), Some(&num(false, 1, 0))),
        other => panic!("unexpected {:?}", other),
    }
}

#[test]
fn parse_rejects_malformed() {
    assert_eq!(parse_json(b""), None);
    assert_eq!(parse_json(b"{"), None);
    assert_eq!(parse_json(b"[1,]"), None);
    assert_eq!(parse_json(b"{\"a\":}"), None);
    assert_eq!(parse_json(b"1 2"), None, "trailing content fails");
    assert_eq!(parse_json(b"01"), None, "redundant leading zero fails");
    assert_eq!(parse_json(b"1."), None, "a point needs fraction digits");
    assert_eq!(parse_json(b"1e5"), None, "exponent forms are not read");
    assert_eq!(parse_json(b"\"a\x01b\""), None, "raw control bytes fail");
    assert_eq!(
        parse_json(b"99999999999999999999999999"),
        None,
        "mantissas wider than u64 are rejected, not rounded"
    );
}

#[test]
fn encoded_frames_parse_back() {
    // The wire forms the encoders emit are well-formed JSON carrying
    // exactly the encoded fields.
    let wire = kraken_rs::command::challenge_wire("my-key");
    let doc = parse_json(&wire).unwrap();
    match &doc {
        JsonValue::Obj(ms) => {
            assert_eq!(ms.len(), 2);
            assert_eq!(obj_get(ms, b"api_key"), Some(&JsonValue::Str(b"my-key".to_vec())));
            assert_eq!(obj_get(ms, b"event"), Some(&JsonValue::Str(b"challenge".to_vec())));
        }
        other => panic!("unexpected {:?}", other),
    }
    let wire = kraken_rs::command::Command::fills()
        .to_authenticated_wire("k", "abc123", "sig")
        .unwrap();
    let doc = parse_json(&wire).unwrap();
    match &doc {
        JsonValue::Obj(ms) => {
            assert_eq!(ms.len(), 5);
            assert_eq!(
                obj_get(ms, b"original_challenge"),
                Some(&JsonValue::Str(b"abc123".to_vec()))
            );
            assert_eq!(obj_get(ms, b"signed_challenge"), Some(&JsonValue::Str(b"sig".to_vec())));
        }
        other => panic!("unexpected {:?}", other),
    }
}
