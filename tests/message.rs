use bitburner_oxide::bitburner::message::{
    BitburnerMessage, BitburnerMessageParams, BitburnerMethod, JsonrpcVersion, MessageCounter,
};
use bitburner_oxide::bitburner::operation::{extract_file_name, Action, BitburnerOperation, File};
use bitburner_oxide::config::Config;

const CARGO_TOML_BASE64: &str = "W3BhY2thZ2VdCm5hbWUgPSAiYml0YnVybmVyLW94aWRlIgo=";
const CARGO_LOCK_BASE64: &str = "dmVyc2lvbiA9IDMK";

fn name_of(path: &str) -> String {
    extract_file_name(&Config::default(), &path.to_string()).unwrap()
}

/// A counter that already handed out `n` ids.
fn counter_after(n: usize) -> MessageCounter {
    let mut counter = MessageCounter::new();
    for _ in 0..n {
        counter.next_id();
    }
    counter
}

#[test]
fn create_operation_transforms_into_messages() {
    let target_file = "./Cargo.toml";
    let source_filename = name_of(target_file);
    let operation = BitburnerOperation {
        action: Action::CREATE,
        files: vec![File {
            filename: name_of(target_file),
            code: Some(CARGO_TOML_BASE64.to_string()),
        }],
    };
    let mut counter = counter_after(0);
    let messages = BitburnerMessage::from_operation(&operation, &mut counter);
    assert_eq!(
        messages[0],
        BitburnerMessage {
            id: 0,
            method: BitburnerMethod::PushFile,
            params: BitburnerMessageParams {
                filename: Some(source_filename.to_owned()),
                content: Some(CARGO_TOML_BASE64.to_string()),
                ..Default::default()
            },
            ..Default::default()
        }
    );
}

#[test]
fn move_operation_transforms_into_messages() {
    let target_file = "./Cargo.toml";
    let destination_file = "./Cargo.lock";
    let source_filename = name_of(target_file);
    let destination_filename = name_of(destination_file);
    let operation = BitburnerOperation {
        action: Action::MOVE,
        files: vec![
            File { filename: name_of(target_file), code: None },
            File {
                filename: name_of(destination_file),
                code: Some(CARGO_LOCK_BASE64.to_string()),
            },
        ],
    };
    let mut counter = counter_after(1);
    let messages = BitburnerMessage::from_operation(&operation, &mut counter);
    assert_eq!(
        messages[0],
        BitburnerMessage {
            id: 1,
            method: BitburnerMethod::DeleteFile,
            params: BitburnerMessageParams {
                filename: Some(source_filename.to_owned()),
                content: None,
                ..Default::default()
            },
            ..Default::default()
        }
    );
    assert_eq!(
        messages[1],
        BitburnerMessage {
            id: 2,
            method: BitburnerMethod::PushFile,
            params: BitburnerMessageParams {
                filename: Some(destination_filename.to_owned()),
                content: Some(CARGO_LOCK_BASE64.to_string()),
                ..Default::default()
            },
            ..Default::default()
        }
    );
}

#[test]
fn remove_operation_transforms_into_messages() {
    let target_file = "./Cargo.toml";
    let source_filename = name_of(target_file);
    let operation = BitburnerOperation {
        action: Action::REMOVE,
        files: vec![File { filename: name_of(target_file), code: None }],
    };
    let mut counter = counter_after(3);
    let messages = BitburnerMessage::from_operation(&operation, &mut counter);
    assert_eq!(
        messages[0],
        BitburnerMessage {
            id: 3,
            method: BitburnerMethod::DeleteFile,
            params: BitburnerMessageParams {
                filename: Some(source_filename.to_owned()),
                content: None,
                ..Default::default()
            },
            ..Default::default()
        }
    );
}

#[test]
fn ignore_operation_transforms_into_no_messages() {
    let operation = BitburnerOperation { action: Action::IGNORE, files: vec![] };
    let mut counter = MessageCounter::new();
    assert!(BitburnerMessage::from_operation(&operation, &mut counter).is_empty());
    assert_eq!(counter.next_id(), 0);
}

#[test]
fn counter_hands_out_consecutive_ids_across_operations() {
    let mut counter = MessageCounter::new();
    let create = BitburnerOperation {
        action: Action::CREATE,
        files: vec![File { filename: "a.js".to_string(), code: Some("YQ==".to_string()) }],
    };
    let moved = BitburnerOperation {
        action: Action::MOVE,
        files: vec![
            File { filename: "a.js".to_string(), code: None },
            File { filename: "b.js".to_string(), code: Some("YQ==".to_string()) },
        ],
    };
    let removed = BitburnerOperation {
        action: Action::REMOVE,
        files: vec![File { filename: "b.js".to_string(), code: None }],
    };
    let mut ids = Vec::new();
    for op in [&create, &moved, &removed] {
        for m in BitburnerMessage::from_operation(op, &mut counter) {
            ids.push(m.id);
        }
    }
    assert_eq!(ids, vec![0, 1, 2, 3]);
    assert_eq!(counter.next_id(), 4);
}

#[test]
fn method_names_on_the_wire() {
    assert_eq!(BitburnerMethod::PushFile.as_str(), "pushFile");
    assert_eq!(BitburnerMethod::GetFile.as_str(), "getFile");
    assert_eq!(BitburnerMethod::DeleteFile.as_str(), "deleteFile");
    assert_eq!(BitburnerMethod::GetFileNames.as_str(), "getFileNames");
    assert_eq!(BitburnerMethod::GetAllFiles.as_str(), "getAllFiles");
    assert_eq!(BitburnerMethod::CalculateRam.as_str(), "calculateRam");
    assert_eq!(BitburnerMethod::GetDefinitionFile.as_str(), "getDefinitionsFile");
    assert_eq!(JsonrpcVersion::Two.as_str(), "2.0");
}

#[test]
fn default_message_asks_for_definitions_on_home() {
    let m = BitburnerMessage::default();
    assert_eq!(m.jsonrpc, JsonrpcVersion::Two);
    assert_eq!(m.id, 0);
    assert_eq!(m.method, BitburnerMethod::GetDefinitionFile);
    assert_eq!(m.params.filename, None);
    assert_eq!(m.params.content, None);
    assert_eq!(m.params.server, Some("home".to_string()));
}

#[test]
fn rpc_message_json_text() {
    let m = BitburnerMessage {
        id: 42,
        method: BitburnerMethod::PushFile,
        params: BitburnerMessageParams {
            filename: Some("dir/a \"b\".js".to_string()),
            content: Some("YQ==".to_string()),
            ..Default::default()
        },
        ..Default::default()
    };
    assert_eq!(
        m.to_json(),
        "{\"jsonrpc\":\"2.0\",\"id\":42,\"method\":\"pushFile\",\"params\":{\"filename\":\"dir/a \\\"b\\\".js\",\"content\":\"YQ==\",\"server\":\"home\"}}"
    );
}

#[test]
fn counter_reports_room_for_more_ids() {
    let counter = counter_after(2);
    assert!(counter.has_room(0));
    assert!(counter.has_room(usize::MAX - 2));
    assert!(!counter.has_room(usize::MAX - 1));
}

#[test]
fn json_text_escapes_quotes_controls_and_backslashes() {
    let m = BitburnerMessage {
        id: 7,
        method: BitburnerMethod::PushFile,
        params: BitburnerMessageParams {
            filename: Some("a\\b\n\u{1}\u{7f}\u{e9}.js".to_string()),
            content: None,
            ..Default::default()
        },
        ..Default::default()
    };
    assert_eq!(
        m.to_json(),
        "{\"jsonrpc\":\"2.0\",\"id\":7,\"method\":\"pushFile\",\"params\":{\"filename\":\"a\\\\b\\n\\u0001\u{7f}\u{e9}.js\",\"content\":null,\"server\":\"home\"}}"
    );
}
