use game_master::json::{parse_json, same_text, Json, Member, NESTING_LIMIT};

#[test]
fn parse_json_reads_scalars() {
    assert!(matches!(parse_json("null"), Some(Json::Null)));
    assert!(matches!(parse_json("true"), Some(Json::Bool(true))));
    assert!(matches!(parse_json("17"), Some(Json::Number(Some(17)))));
    assert!(matches!(parse_json("18446744073709551615"), Some(Json::Number(Some(u64::MAX)))));
    assert!(matches!(parse_json("18446744073709551616"), Some(Json::Number(None))));
    assert!(matches!(parse_json("-1"), Some(Json::Number(None))));
    assert!(matches!(parse_json("1.5"), Some(Json::Number(None))));
    assert!(matches!(parse_json("3.0"), Some(Json::Number(None))));
    assert!(matches!(parse_json("\"a\\nb\""), Some(Json::Text(t)) if t == "a\nb"));
}

#[test]
fn parse_json_refuses_what_is_no_document() {
    for text in ["", "{", "[1,]", "{\"a\":1} x", "nul", "'a'", "{a:1}"] {
        assert!(parse_json(text).is_none(), "{:?}", text);
    }
}

#[test]
fn parse_json_reads_nested_documents() {
    let tree = parse_json("{\"b\":[1,{\"c\":null}],\"a\":\"x\"}").unwrap();
    assert!(matches!(tree.get("a"), Some(Json::Text(t)) if t == "x"));
    assert!(tree.get("c").is_none());
    match tree.get("b") {
        Some(Json::Array(items)) => {
            assert_eq!(items.len(), 2);
            assert!(matches!(items[0], Json::Number(Some(1))));
            assert!(matches!(items[1].get("c"), Some(Json::Null)));
        }
        _ => panic!("b is an array"),
    }
}

#[test]
fn get_finds_nothing_outside_objects() {
    assert!(Json::Null.get("a").is_none());
    assert!(Json::Array(vec![Json::Text("a".to_string())]).get("a").is_none());
    assert!(Json::Text("a".to_string()).get("a").is_none());
}

#[test]
fn same_text_compares_characters() {
    assert!(same_text(&"action".to_string(), "action"));
    assert!(!same_text(&"action".to_string(), "Action"));
    assert!(!same_text(&"".to_string(), "a"));
}

#[test]
fn parse_json_keeps_members_and_items() {
    let tree = parse_json("{\"k\":[true,null,\"s\",[],{}]}").unwrap();
    assert_eq!(
        tree,
        Json::Object(vec![Member {
            key: "k".to_string(),
            value: Json::Array(vec![
                Json::Bool(true),
                Json::Null,
                Json::Text("s".to_string()),
                Json::Array(vec![]),
                Json::Object(vec![]),
            ]),
        }])
    );
}

#[test]
fn parse_json_keeps_the_order_of_items() {
    let tree = parse_json("[0,1,2,3,4,5,6,7,8,9]").unwrap();
    let expected: Vec<Json> = (0..10u64).map(|n| Json::Number(Some(n))).collect();
    assert_eq!(tree, Json::Array(expected));
}

#[test]
fn parse_json_reads_as_deep_as_serde_json_does() {
    let deep = |n: usize| format!("{}{}", "[".repeat(n), "]".repeat(n));
    let mut tree = parse_json(&deep(127)).unwrap();
    let mut levels = 0;
    while let Json::Array(mut items) = tree {
        levels += 1;
        match items.pop() {
            Some(inner) => tree = inner,
            None => break,
        }
    }
    assert_eq!(levels, 127);
    assert!(parse_json(&deep(128)).is_none());
    assert!(parse_json(&deep(1000)).is_none());
}

#[test]
fn later_member_of_the_same_key_is_the_one_read() {
    let tree = parse_json("{\"a\":1,\"a\":2}").unwrap();
    assert!(matches!(tree.get("a"), Some(Json::Number(Some(2)))));
}

#[test]
fn nesting_limit_is_above_what_serde_json_reads() {
    assert_eq!(NESTING_LIMIT, 128);
}
