use bitburner_oxide::bitburner::message::{
    BitburnerMessage, BitburnerMessageParams, BitburnerMethod, MessageCounter,
};
use bitburner_oxide::bitburner::operation::{extract_file_name, EventKind, RawEvent, SyncError};
use bitburner_oxide::bitburner::{BitburnerRequest, HttpVerb};
use bitburner_oxide::config::{Config, Protocol};
use bitburner_oxide::dispatch::{
    begin_dispatch, finish_dispatch, DispatchStep, Outcome, Transport, WireRequest,
};
use bitburner_oxide::handler::{event_is_valid, handle_event, is_valid_file, Message};

fn config_at(root: &str, protocol: Protocol) -> Config {
    let mut config = Config::default();
    config.scripts_folder = root.to_string();
    config.protocol = protocol;
    config
}

fn event(kind: EventKind, paths: &[&str]) -> RawEvent {
    RawEvent { kind, paths: paths.iter().map(|p| p.to_string()).collect() }
}

/// Sends every message of a handled event through the dispatch decision,
/// with a transport that always succeeds.
fn dispatch_all(config: &Config, messages: &[Message]) -> Vec<Outcome> {
    messages
        .iter()
        .map(|m| match begin_dispatch(config, m) {
            DispatchStep::Finished(outcome) => outcome,
            DispatchStep::Transmit(_) => finish_dispatch(Ok(())),
        })
        .collect()
}

#[test]
fn assert_path_prefix_is_stripped() {
    let config = config_at("/one/two", Protocol::Rest);
    assert_eq!(
        extract_file_name(&config, &"/one/two/three.txt".to_string()).unwrap(),
        String::from("three.txt")
    )
}

#[test]
fn assert_valid_file() {
    let config = config_at("/one/two", Protocol::Rest);
    assert_eq!(is_valid_file(&config, &"test.js".to_string()), true);
}

#[test]
fn assert_invalid_file() {
    let config = config_at("/one/two", Protocol::Rest);
    assert_eq!(is_valid_file(&config, &"test.kt".to_string()), false);
}

#[test]
fn assert_write_event_is_successful() {
    let config = config_at("/one/two", Protocol::Rest);
    let event = event(EventKind::Create, &["/one/two/test.js"]);
    let mut counter = MessageCounter::new();
    let messages = handle_event(&config, &event, Some(b"written".to_vec()), &mut counter);
    assert!(messages.is_ok());
    let messages = messages.unwrap();
    assert_eq!(messages.len(), 1);
    assert!(matches!(messages[0], Message::Rest(HttpVerb::Put, _)));
    assert_eq!(dispatch_all(&config, &messages), vec![Outcome::Sent]);
}

#[test]
fn assert_rename_event_is_successful() {
    let config = config_at("/one/two", Protocol::Rest);
    let event = event(EventKind::Modify, &["/one/two/source.js", "/one/two/destination.js"]);
    let mut counter = MessageCounter::new();
    let messages = handle_event(&config, &event, Some(b"written".to_vec()), &mut counter);
    assert!(messages.is_ok());
    let messages = messages.unwrap();
    assert_eq!(
        messages,
        vec![
            Message::Rest(
                HttpVerb::Delete,
                BitburnerRequest { filename: "source.js".to_string(), code: None }
            ),
            Message::Rest(
                HttpVerb::Put,
                BitburnerRequest {
                    filename: "destination.js".to_string(),
                    code: Some("d3JpdHRlbg==".to_string())
                }
            ),
        ]
    );
    assert_eq!(dispatch_all(&config, &messages), vec![Outcome::Sent, Outcome::Sent]);
}

#[test]
fn assert_remove_event_is_successful() {
    let config = config_at("/one/two", Protocol::Rest);
    let event = event(EventKind::Remove, &["/one/two/test.js"]);
    let mut counter = MessageCounter::new();
    let messages = handle_event(&config, &event, None, &mut counter);
    assert!(messages.is_ok());
    let messages = messages.unwrap();
    assert!(matches!(messages[0], Message::Rest(HttpVerb::Delete, _)));
    assert_eq!(dispatch_all(&config, &messages), vec![Outcome::Sent]);
}

#[test]
fn remove_scenario_over_rest() {
    let mut config = config_at("/root/scripts", Protocol::Rest);
    config.allowed_filetypes = vec!["js".to_string()];
    let event = event(EventKind::Remove, &["/root/scripts/a.js"]);
    let mut counter = MessageCounter::new();
    let messages = handle_event(&config, &event, None, &mut counter).unwrap();
    let request = BitburnerRequest { filename: "a.js".to_string(), code: None };
    assert_eq!(messages, vec![Message::Rest(HttpVerb::Delete, request.clone())]);
    assert_eq!(request.to_json(), "{\"filename\":\"a.js\",\"code\":null}");
    assert_eq!(
        begin_dispatch(&config, &messages[0]),
        DispatchStep::Transmit(WireRequest {
            transport: Transport::Delete,
            body: "{\"filename\":\"a.js\",\"code\":null}".to_string(),
        })
    );
}

#[test]
fn remove_scenario_over_rpc() {
    let mut config = config_at("/root/scripts", Protocol::Rpc);
    config.allowed_filetypes = vec!["js".to_string()];
    let event = event(EventKind::Remove, &["/root/scripts/a.js"]);
    let mut counter = MessageCounter::new();
    let messages = handle_event(&config, &event, None, &mut counter).unwrap();
    let expected = BitburnerMessage {
        id: 0,
        method: BitburnerMethod::DeleteFile,
        params: BitburnerMessageParams {
            filename: Some("a.js".to_string()),
            content: None,
            ..Default::default()
        },
        ..Default::default()
    };
    assert_eq!(messages, vec![Message::Rpc(expected)]);
    assert_eq!(
        begin_dispatch(&config, &messages[0]),
        DispatchStep::Transmit(WireRequest {
            transport: Transport::Broadcast,
            body: "{\"jsonrpc\":\"2.0\",\"id\":0,\"method\":\"deleteFile\",\"params\":{\"filename\":\"a.js\",\"content\":null,\"server\":\"home\"}}".to_string(),
        })
    );
}

#[test]
fn disallowed_extension_is_dropped() {
    let config = config_at("/root/scripts", Protocol::Rpc);
    let event = event(EventKind::Other, &["/root/scripts/a.kt"]);
    let mut counter = MessageCounter::new();
    assert_eq!(handle_event(&config, &event, None, &mut counter), Ok(vec![]));
    assert_eq!(counter.next_id(), 0);
}

#[test]
fn move_with_one_disallowed_side_is_dropped_whole() {
    let config = config_at("/root/scripts", Protocol::Rpc);
    let moved = event(EventKind::Modify, &["/root/scripts/a.js", "/root/scripts/a.kt"]);
    let mut counter = MessageCounter::new();
    assert!(!event_is_valid(&config, &moved));
    assert_eq!(handle_event(&config, &moved, Some(b"x".to_vec()), &mut counter), Ok(vec![]));
    assert_eq!(counter.next_id(), 0);
}

#[test]
fn move_over_rpc_deletes_then_pushes() {
    let config = config_at("/root/scripts", Protocol::Rpc);
    let moved = event(EventKind::Modify, &["/root/scripts/a.js", "/root/scripts/b.js"]);
    let mut counter = MessageCounter::new();
    counter.next_id();
    let messages = handle_event(&config, &moved, Some(b"hello".to_vec()), &mut counter).unwrap();
    let delete = BitburnerMessage {
        id: 1,
        method: BitburnerMethod::DeleteFile,
        params: BitburnerMessageParams { filename: Some("a.js".to_string()), ..Default::default() },
        ..Default::default()
    };
    let push = BitburnerMessage {
        id: 2,
        method: BitburnerMethod::PushFile,
        params: BitburnerMessageParams {
            filename: Some("b.js".to_string()),
            content: Some("aGVsbG8=".to_string()),
            ..Default::default()
        },
        ..Default::default()
    };
    assert_eq!(messages, vec![Message::Rpc(delete), Message::Rpc(push)]);
    assert_eq!(counter.next_id(), 3);
}

#[test]
fn classification_errors_pass_through() {
    let config = config_at("/root/scripts", Protocol::Rest);
    let outside = event(EventKind::Create, &["/elsewhere/a.js"]);
    let mut counter = MessageCounter::new();
    assert_eq!(
        handle_event(&config, &outside, Some(b"x".to_vec()), &mut counter),
        Err(SyncError::PathOutsideRoot)
    );
    let unreadable = event(EventKind::Create, &["/root/scripts/a.js"]);
    assert_eq!(
        handle_event(&config, &unreadable, None, &mut counter),
        Err(SyncError::ContentUnavailable)
    );
}

#[test]
fn rest_messages_take_no_ids() {
    let config = config_at("/root/scripts", Protocol::Rest);
    let created = event(EventKind::Create, &["/root/scripts/a.js"]);
    let mut counter = MessageCounter::new();
    handle_event(&config, &created, Some(b"x".to_vec()), &mut counter).unwrap();
    assert_eq!(counter.next_id(), 0);
}

#[test]
fn dry_run_sends_nothing() {
    let mut config = config_at("/root/scripts", Protocol::Rest);
    config.dry = true;
    let created = event(EventKind::Create, &["/root/scripts/a.js"]);
    let mut counter = MessageCounter::new();
    let messages = handle_event(&config, &created, Some(b"x".to_vec()), &mut counter).unwrap();
    assert_eq!(messages.len(), 1);
    assert_eq!(begin_dispatch(&config, &messages[0]), DispatchStep::Finished(Outcome::Sent));
    config.protocol = Protocol::Rpc;
    let rpc = Message::Rpc(BitburnerMessage::default());
    assert_eq!(begin_dispatch(&config, &rpc), DispatchStep::Finished(Outcome::Sent));
}

#[test]
fn put_request_body_carries_contents() {
    let config = config_at("/root/scripts", Protocol::Rest);
    let created = event(EventKind::Create, &["/root/scripts/a.js"]);
    let mut counter = MessageCounter::new();
    let messages = handle_event(&config, &created, Some(b"hello".to_vec()), &mut counter).unwrap();
    assert_eq!(
        begin_dispatch(&config, &messages[0]),
        DispatchStep::Transmit(WireRequest {
            transport: Transport::Put,
            body: "{\"filename\":\"a.js\",\"code\":\"aGVsbG8=\"}".to_string(),
        })
    );
}

#[test]
fn transport_failure_becomes_transport_error() {
    assert_eq!(finish_dispatch(Ok(())), Outcome::Sent);
    assert_eq!(
        finish_dispatch(Err("connection refused".to_string())),
        Outcome::TransportError("connection refused".to_string())
    );
}

#[test]
fn extensions_follow_the_last_dot_of_the_file_name() {
    let mut config = config_at("/", Protocol::Rest);
    config.allowed_filetypes = vec!["js".to_string(), "gz".to_string()];
    assert!(is_valid_file(&config, &"/a/b.js".to_string()));
    assert!(is_valid_file(&config, &"/a/b.tar.gz".to_string()));
    assert!(is_valid_file(&config, &"/a/.hidden.js".to_string()));
    assert!(!is_valid_file(&config, &"/a/.js".to_string()));
    assert!(!is_valid_file(&config, &"/a.js/b".to_string()));
    assert!(!is_valid_file(&config, &"/a/b.JS".to_string()));
    assert!(!is_valid_file(&config, &"/a/Makefile".to_string()));
    assert!(!is_valid_file(&config, &"".to_string()));
    assert!(!is_valid_file(&config, &"/a/b.js/".to_string()));
    assert!(!is_valid_file(&config, &"/a/b.js/.".to_string()));
    assert!(is_valid_file(&config, &"a/./b.js".to_string()));
}

#[test]
fn default_config_values() {
    let config = Config::default();
    assert_eq!(config.allowed_filetypes, vec!["script", "js", "ns", "txt"]);
    assert!(!config.allow_deleting_files);
    assert_eq!(config.port, 12525);
    assert_eq!(config.scripts_folder, ".");
    assert!(!config.quiet);
    assert!(!config.dry);
    assert!(!config.push_all_on_connection);
    assert!(config.definitions_file.update);
    assert_eq!(config.definitions_file.location, "NetScriptDefinitions.d.ts");
    assert_eq!(config.protocol, Protocol::Rpc);
}
