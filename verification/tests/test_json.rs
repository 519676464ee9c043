use tiled_json_rs::{Json, Number, TiledError};

#[test]
fn documents() {
    assert_eq!(Json::parse("null"), Ok(Json::Null));
    assert_eq!(Json::parse(" true "), Ok(Json::Bool(true)));
    assert_eq!(Json::parse("\"a\\u00e9\""), Ok(Json::String("aé".to_string())));
    assert_eq!(Json::parse("17"), Ok(Json::Number(Number::PosInt(17))));
    assert_eq!(Json::parse("-17"), Ok(Json::Number(Number::NegInt(-17))));
    assert_eq!(Json::parse("18446744073709551615"), Ok(Json::Number(Number::PosInt(u64::MAX))));
    assert_eq!(Json::parse("1.5"), Ok(Json::Number(Number::Float(1.5f64.to_bits()))));
    assert_eq!(Json::parse("1e2"), Ok(Json::Number(Number::Float(100f64.to_bits()))));
    assert_eq!(
        Json::parse("[1, [], {}]"),
        Ok(Json::Array(vec![
            Json::Number(Number::PosInt(1)),
            Json::Array(vec![]),
            Json::Object(vec![])
        ]))
    );
    assert_eq!(Json::parse(""), Err(TiledError::Syntax));
    assert_eq!(Json::parse("{\"a\":}"), Err(TiledError::Syntax));
    assert_eq!(Json::parse("1 2"), Err(TiledError::Syntax));
    assert_eq!(Json::read("[1"), None);
    assert_eq!(Json::read("[1]"), Some(Json::Array(vec![Json::Number(Number::PosInt(1))])));
}

#[test]
fn members() {
    let j = Json::parse(r##"{"b":1, "a":null, "c":{"a":true}}"##).expect("fail");
    assert!(j.is_object());
    assert_eq!(j.get("b"), Some(&Json::Number(Number::PosInt(1))));
    assert_eq!(j.get("a"), Some(&Json::Null));
    assert_eq!(j.get_if_set("a"), None);
    assert_eq!(j.get_if_set("b"), Some(&Json::Number(Number::PosInt(1))));
    assert_eq!(j.get("d"), None);
    assert_eq!(j.get(""), None);
    assert_eq!(j.get("c").and_then(|c| c.get("a")), Some(&Json::Bool(true)));
    assert_eq!(Json::Null.get("a"), None);
    assert!(!Json::Array(vec![]).is_object());
    // of two members with one key the first counts
    let twice = Json::Object(vec![
        ("k".to_string(), Json::Bool(true)),
        ("k".to_string(), Json::Bool(false)),
    ]);
    assert_eq!(twice.get("k"), Some(&Json::Bool(true)));
    assert_eq!(j.clone(), j);
}

#[test]
fn numbers() {
    assert_eq!(Number::PosInt(4294967295).to_u32(), Some(4294967295));
    assert_eq!(Number::PosInt(4294967296).to_u32(), None);
    assert_eq!(Number::NegInt(-1).to_u32(), None);
    assert_eq!(Number::NegInt(7).to_u32(), Some(7));
    assert_eq!(Number::Float(0).to_u32(), None);
    assert_eq!(Number::PosInt(2147483647).to_i32(), Some(2147483647));
    assert_eq!(Number::PosInt(2147483648).to_i32(), None);
    assert_eq!(Number::NegInt(-2147483648).to_i32(), Some(-2147483648));
    assert_eq!(Number::NegInt(-2147483649).to_i32(), None);
    assert_eq!(Number::PosInt(255).to_u8(), Some(255));
    assert_eq!(Number::PosInt(256).to_u8(), None);
    assert_eq!(Number::NegInt(-128).to_i8(), Some(-128));
    assert_eq!(Number::PosInt(128).to_i8(), None);
    assert_eq!(Number::NegInt(-129).to_i8(), None);
}
