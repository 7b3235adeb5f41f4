use rust_hw::redis::{RedisResponse, RequestType, ResponseType};
use rust_hw::redis_client::{parse_command, response_line, ClientError};

fn strings(v: &[&str]) -> Vec<String> {
    v.iter().map(|s| s.to_string()).collect()
}

#[test]
fn parse_set_and_get() {
    let r = parse_command(&strings(&["client", "SET", "k", "v"])).unwrap();
    assert_eq!(r.request_type, RequestType::SetKey);
    assert_eq!(r.key.as_deref(), Some("k"));
    assert_eq!(r.value.as_deref(), Some("v"));
    let r = parse_command(&strings(&["client", "get", "k"])).unwrap();
    assert_eq!(r.request_type, RequestType::Get);
    assert_eq!(r.key.as_deref(), Some("k"));
    assert_eq!(r.value, None);
}

#[test]
fn parse_ping_and_publish() {
    let r = parse_command(&strings(&["client", "Ping"])).unwrap();
    assert_eq!(r.request_type, RequestType::Ping);
    assert_eq!(r.key, None);
    let r = parse_command(&strings(&["client", "publish", "ch", "hello"])).unwrap();
    assert_eq!(r.request_type, RequestType::Publish);
    assert_eq!(r.value.as_deref(), Some("hello"));
}

#[test]
fn parse_refusals() {
    assert_eq!(parse_command(&strings(&["client"])).unwrap_err(), ClientError::MissingArgument);
    assert_eq!(parse_command(&strings(&["client", "fly", "x"])).unwrap_err(), ClientError::UnknownCommand);
    assert_eq!(parse_command(&strings(&["client", "set", "k"])).unwrap_err(), ClientError::MissingArgument);
    assert_eq!(parse_command(&strings(&["client", "del"])).unwrap_err(), ClientError::MissingArgument);
}

#[test]
fn lines_for_responses() {
    let publish = |v: &str| RedisResponse { response_type: ResponseType::Publish, value: Some(v.to_string()) };
    assert_eq!(response_line(&publish("Error")).unwrap(), "There is no subscriber.");
    assert_eq!(response_line(&publish("3")).unwrap(), "Publish sucess. The number of subscriber is 3");
    let get = RedisResponse { response_type: ResponseType::Get, value: Some("v".to_string()) };
    assert_eq!(response_line(&get).unwrap(), "v");
    let empty = RedisResponse { response_type: ResponseType::Ping, value: None };
    assert_eq!(response_line(&empty), None);
}
