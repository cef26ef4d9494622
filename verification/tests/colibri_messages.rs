use colibri::JsonMessage;
use jitsi_meet_signalling::colibri::{answer, answer_for, EndpointMessage};

fn message(from: Option<&str>, to: Option<&str>, payload: &str) -> EndpointMessage {
    EndpointMessage {
        from: from.map(|s| s.to_string()),
        to: to.map(|s| s.to_string()),
        payload: payload.to_string(),
    }
}

const PING: &str = "{\"type\":\"e2e-ping-request\",\"id\":7}";

#[test]
fn ping_is_answered_to_its_sender() {
    let reply = answer("ab12", &message(Some("cd34"), Some("ab12"), PING)).unwrap();
    assert_eq!(reply.from, None);
    assert_eq!(reply.to.as_deref(), Some("cd34"));
    let payload: JsonMessage = serde_json::from_str(&reply.payload).unwrap();
    assert_eq!(payload, JsonMessage::E2ePingResponse { id: 7 });
}

#[test]
fn ping_without_sender_is_answered_to_nobody() {
    let reply = answer("ab12", &message(None, Some("ab12"), PING)).unwrap();
    assert_eq!(reply.to, None);
}

#[test]
fn ping_for_others_is_left_alone() {
    assert!(answer("ab12", &message(Some("cd34"), Some("ef56"), PING)).is_none());
    assert!(answer("ab12", &message(Some("cd34"), None, PING)).is_none());
}

#[test]
fn other_payloads_are_left_alone() {
    for payload in [
        "{}",
        "not json",
        "{\"type\":\"e2e-ping-response\",\"id\":7}",
        "{\"type\":\"e2e-ping-request\"}",
        "{\"type\":\"other\",\"id\":7}",
    ] {
        assert!(answer("ab12", &message(Some("cd34"), Some("ab12"), payload)).is_none());
    }
}

#[test]
fn answers_are_not_answered() {
    let reply = answer("ab12", &message(Some("cd34"), Some("ab12"), PING)).unwrap();
    assert!(answer("cd34", &reply).is_none());
}

#[test]
fn answer_depends_on_the_ping_that_was_read() {
    let chat = message(Some("cd34"), Some("ab12"), "{}");
    assert!(answer_for("ab12", &chat, None).is_none());
    let reply = answer_for("ab12", &chat, Some(-1)).unwrap();
    assert_eq!(reply.payload, "{\"type\":\"e2e-ping-response\",\"id\":-1}");
    let reply = answer_for("ab12", &chat, Some(-2147483648)).unwrap();
    assert_eq!(reply.payload, "{\"type\":\"e2e-ping-response\",\"id\":-2147483648}");
    let reply = answer_for("ab12", &chat, Some(0)).unwrap();
    assert_eq!(reply.payload, "{\"type\":\"e2e-ping-response\",\"id\":0}");
}
