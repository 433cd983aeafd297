use proxy_control::report::{Ack, InitReport, Payload, StatusReport};
use proxy_control::wire::{render, render_reply};
use serde_json::Value;

fn object(members: &[(&str, Value)]) -> Value {
    let mut map = serde_json::Map::new();
    for (key, value) in members {
        map.insert(key.to_string(), value.clone());
    }
    Value::Object(map)
}

#[test]
fn init_report_renders_as_three_flags() {
    let payload = Payload::Initialized(InitReport {
        hosts_modified: true,
        proxy_running: false,
        cert_installed: true,
    });
    let text = render(&payload);
    let expected = object(&[
        ("hostsModified", Value::Bool(true)),
        ("proxyRunning", Value::Bool(false)),
        ("certInstalled", Value::Bool(true)),
    ]);
    assert_eq!(serde_json::from_str::<Value>(&text).unwrap(), expected);
    assert_eq!(text, expected.to_string());
}

#[test]
fn status_report_renders_as_three_flags() {
    let payload = Payload::Status(StatusReport {
        hosts_modified: false,
        proxy_running: true,
        process_supervised: false,
    });
    let text = render(&payload);
    let expected = object(&[
        ("hostsModified", Value::Bool(false)),
        ("proxyRunning", Value::Bool(true)),
        ("processSupervised", Value::Bool(false)),
    ]);
    assert_eq!(serde_json::from_str::<Value>(&text).unwrap(), expected);
    assert_eq!(text, expected.to_string());
    assert!(!text.contains(' ') && !text.contains('\n'));
}

#[test]
fn acknowledgments_render_as_ok_with_message() {
    for (ack, message) in [
        (Ack::Started, "Proxy started"),
        (Ack::Stopped, "Proxy stopped"),
        (Ack::Restored, "Restored"),
    ] {
        let text = render(&Payload::Done(ack));
        let expected = object(&[
            ("ok", Value::Bool(true)),
            ("message", Value::String(message.to_string())),
        ]);
        assert_eq!(serde_json::from_str::<Value>(&text).unwrap(), expected);
        let sorted = format!("{{\"message\":\"{}\",\"ok\":true}}", message);
        let as_inserted = format!("{{\"ok\":true,\"message\":\"{}\"}}", message);
        assert!(text == sorted || text == as_inserted, "{}", text);
    }
}

#[test]
fn reply_is_json_on_success_and_the_message_on_failure() {
    let done = render_reply(Ok(Payload::Done(Ack::Stopped)));
    assert_eq!(done, Ok(render(&Payload::Done(Ack::Stopped))));
    let failed = render_reply(Err("Read hosts failed: \"denied\"".to_string()));
    assert_eq!(failed, Err("Read hosts failed: \"denied\"".to_string()));
}
