use handler::reply::{JSON_CONTENT_TYPE, STATUS_OK};
use handler::{Reply, Response};

#[test]
fn reply_is_ok_with_a_json_body() {
    let reply = Response::new("test".to_string()).into_response();
    assert_eq!(reply.status, 200);
    assert_eq!(reply.content_type, "application/json");
    assert_eq!(
        reply.body,
        "{\"message\":\"Hello world!!!! Your user agent is test\"}"
    );
}

#[test]
fn reply_for_a_browser() {
    let reply = Response::new("Mozilla/5.0".to_string()).into_response();
    assert_eq!(reply.status, 200);
    assert_eq!(reply.content_type, "application/json");
    assert_eq!(
        reply.body,
        "{\"message\":\"Hello world!!!! Your user agent is Mozilla/5.0\"}"
    );
}

#[test]
fn reply_body_is_the_json_of_the_response() {
    for user_agent in ["", "test", "a\"b", "tab\there", "\u{1f980}"] {
        let body = Response::new(user_agent.to_string()).to_json();
        let reply = Response::new(user_agent.to_string()).into_response();
        assert_eq!(reply.status, STATUS_OK);
        assert_eq!(reply.content_type, JSON_CONTENT_TYPE);
        assert_eq!(reply.body, body);
    }
}

#[test]
fn reply_constants() {
    assert_eq!(STATUS_OK, 200);
    assert_eq!(JSON_CONTENT_TYPE, "application/json");
}

#[test]
fn reply_is_the_same_for_the_same_user_agent() {
    let first = Response::new("test".to_string()).into_response();
    let second = Response::new("test".to_string()).into_response();
    assert_eq!(first.status, second.status);
    assert_eq!(first.content_type, second.content_type);
    assert_eq!(first.body, second.body);
}
