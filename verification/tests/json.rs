use cc_workbench::json::{extract_u64, read_leaf, JsonLeaf};

#[test]
fn test_extract_u64() {
    let json: serde_json::Value =
        serde_json::from_str("{\"data\":{\"used\":123,\"limit\":\"456\"}}").unwrap();
    assert_eq!(extract_u64(&json, "/data/used").unwrap(), 123);
    assert_eq!(extract_u64(&json, "/data/limit").unwrap(), 456);
    assert!(extract_u64(&json, "/missing").is_err());
}

#[test]
fn read_leaf_names_the_missing_pointer() {
    assert_eq!(read_leaf(None, "/a/b"), Err("missing /a/b".to_string()));
    assert_eq!(read_leaf(Some(JsonLeaf::Other), "/a"), Err("not u64".to_string()));
    assert_eq!(read_leaf(Some(JsonLeaf::Text("12x".to_string())), "/a"), Err("not u64".to_string()));
    assert_eq!(read_leaf(Some(JsonLeaf::Text("+12".to_string())), "/a"), Ok(12));
    assert_eq!(read_leaf(Some(JsonLeaf::Unsigned(9)), "/a"), Ok(9));
}
