use rust_hw::log::rejects_request;

#[test]
fn requests_with_marker_are_rejected() {
    assert!(rejects_request("RedisRequest { key: Some(\"Mkey\") }"));
    assert!(!rejects_request("RedisRequest { key: Some(\"key\") }"));
    assert!(!rejects_request(""));
}
