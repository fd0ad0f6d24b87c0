use demo_server::messages::{
    basic_health_reply, echo_reply, echo_text_reply, health_status, hello_message,
    ok_json_envelope,
};

#[test]
fn health_report_is_the_fixed_record() {
    let h = health_status();
    assert_eq!(h.status, "ok");
    assert_eq!(h.message, "Rust server is running");
    assert_eq!(h.port, 3000);
}

#[test]
fn health_report_does_not_change_between_calls() {
    let a = health_status();
    let b = health_status();
    assert_eq!(a.status, b.status);
    assert_eq!(a.message, b.message);
    assert_eq!(a.port, b.port);
}

#[test]
fn echo_returns_the_message_unchanged() {
    assert_eq!(echo_reply("hi".to_string()).echo, "hi");
    assert_eq!(echo_reply(String::new()).echo, "");
    let tricky = "a \"quoted\" line\nwith unicode: café";
    assert_eq!(echo_reply(tricky.to_string()).echo, tricky);
}

#[test]
fn reduced_echo_moves_text_into_message() {
    assert_eq!(echo_text_reply("ping".to_string()).message, "ping");
    assert_eq!(echo_text_reply(String::new()).message, "");
}

#[test]
fn reduced_health_and_greeting_are_fixed() {
    assert_eq!(basic_health_reply().message, "OK");
    assert_eq!(hello_message(), "Hello from Rust!");
}

#[test]
fn json_envelope_carries_body_and_cors() {
    let r = ok_json_envelope("{\"echo\":\"hi\"}".to_string());
    assert_eq!(r.status, 200);
    assert_eq!(r.content_type.as_deref(), Some("application/json"));
    assert!(r.cors);
    assert_eq!(r.body, "{\"echo\":\"hi\"}");
}
