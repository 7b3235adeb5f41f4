use rust_hw::redis::{
    publish_reply, subscribe_reply, u8_to_decimal, RedisRequest, RedisResponse, Reply,
    RequestType, ResponseType, S,
};

fn req(t: RequestType, key: Option<&str>, value: Option<&str>) -> RedisRequest {
    RedisRequest {
        request_type: t,
        key: key.map(|k| k.to_string()),
        value: value.map(|v| v.to_string()),
    }
}

fn answer(r: Reply) -> RedisResponse {
    match r {
        Reply::Respond(resp) => resp,
        Reply::AwaitMessage(_) => panic!("expected an immediate answer"),
    }
}

fn text(r: Reply, t: ResponseType) -> String {
    let resp = answer(r);
    assert_eq!(resp.response_type, t);
    resp.value.unwrap()
}

#[test]
fn set_then_get_gives_value_back() {
    let mut s = S::new();
    assert_eq!(text(s.redis_command(req(RequestType::SetKey, Some("k"), Some("v"))), ResponseType::SetKey), "Ok");
    assert_eq!(text(s.redis_command(req(RequestType::Get, Some("k"), None)), ResponseType::Get), "v");
    assert_eq!(text(s.redis_command(req(RequestType::SetKey, Some("k"), Some("w"))), ResponseType::SetKey), "Ok");
    assert_eq!(text(s.redis_command(req(RequestType::Get, Some("k"), None)), ResponseType::Get), "w");
}

#[test]
fn get_of_missing_key() {
    let mut s = S::new();
    assert_eq!(
        text(s.redis_command(req(RequestType::Get, Some("nope"), None)), ResponseType::Get),
        "Key not found."
    );
}

#[test]
fn del_removes_key() {
    let mut s = S::new();
    s.redis_command(req(RequestType::SetKey, Some("a"), Some("1")));
    s.redis_command(req(RequestType::SetKey, Some("b"), Some("2")));
    assert_eq!(text(s.redis_command(req(RequestType::Del, Some("a"), None)), ResponseType::Del), "OK");
    assert_eq!(text(s.redis_command(req(RequestType::Del, Some("a"), None)), ResponseType::Del), "Key not found.");
    assert_eq!(text(s.redis_command(req(RequestType::Get, Some("a"), None)), ResponseType::Get), "Key not found.");
    assert_eq!(text(s.redis_command(req(RequestType::Get, Some("b"), None)), ResponseType::Get), "2");
}

#[test]
fn ping_answers_pong() {
    let mut s = S::new();
    assert_eq!(text(s.redis_command(req(RequestType::Ping, None, None)), ResponseType::Ping), "pong");
}

#[test]
fn publish_without_channel_is_error() {
    let mut s = S::new();
    assert_eq!(
        text(s.redis_command(req(RequestType::Publish, Some("ch"), Some("hi"))), ResponseType::Publish),
        "Error"
    );
}

#[test]
fn subscribe_then_publish_delivers() {
    let mut s = S::new();
    let mut rx1 = match s.redis_command(req(RequestType::Subscribe, Some("ch"), None)) {
        Reply::AwaitMessage(sub) => sub.rx,
        Reply::Respond(_) => panic!("expected a receiver"),
    };
    let mut rx2 = match s.redis_command(req(RequestType::Subscribe, Some("ch"), None)) {
        Reply::AwaitMessage(sub) => sub.rx,
        Reply::Respond(_) => panic!("expected a receiver"),
    };
    assert_eq!(
        text(s.redis_command(req(RequestType::Publish, Some("ch"), Some("hi"))), ResponseType::Publish),
        "2"
    );
    assert_eq!(rx1.try_recv().unwrap(), "hi");
    assert_eq!(rx2.try_recv().unwrap(), "hi");
    drop(rx1);
    drop(rx2);
    assert_eq!(
        text(s.redis_command(req(RequestType::Publish, Some("ch"), Some("again"))), ResponseType::Publish),
        "Error"
    );
}

#[test]
fn publish_reply_counts_modulo_256() {
    assert_eq!(publish_reply(Some(3)).value.unwrap(), "3");
    assert_eq!(publish_reply(Some(256)).value.unwrap(), "0");
    assert_eq!(publish_reply(Some(300)).value.unwrap(), "44");
    assert_eq!(publish_reply(None).value.unwrap(), "Error");
    assert_eq!(publish_reply(None).response_type, ResponseType::Publish);
}

#[test]
fn subscribe_reply_passes_message_or_error() {
    assert_eq!(subscribe_reply(Some("msg".to_string())).value.unwrap(), "msg");
    assert_eq!(subscribe_reply(None).value.unwrap(), "Error");
    assert_eq!(subscribe_reply(None).response_type, ResponseType::Subscribe);
}

#[test]
fn decimal_of_bytes() {
    assert_eq!(u8_to_decimal(0), "0");
    assert_eq!(u8_to_decimal(9), "9");
    assert_eq!(u8_to_decimal(10), "10");
    assert_eq!(u8_to_decimal(99), "99");
    assert_eq!(u8_to_decimal(100), "100");
    assert_eq!(u8_to_decimal(255), "255");
}
