//! The per-event pipeline: filetype filter, classification and encoding.
use vstd::prelude::*;

use crate::bitburner::message::{
    BitburnerMessage,
    MessageCounter,
    MessageView,
    delete_message,
    push_message,
    rpc_messages,
};
use crate::bitburner::operation::{
    BitburnerOperation,
    OperationView,
    RawEvent,
    RawEventView,
    SyncError,
    Action,
    EventKind,
    FileView,
    classify,
    deleted_file,
    file_count,
    paths_required,
    pushed_file,
};
use crate::encoding::base64_of;
use crate::path::{is_under, relative_name};
use crate::bitburner::{BitburnerRequest, HttpVerb, RequestView, rest_requests};
use crate::config::{Config, Protocol};
use crate::path::{extension_of, file_extension};

verus! {

/// A path passes the filter when it has an extension and the allow-list
/// holds it (compared exactly, without the dot).
pub open spec fn file_allowed(allowed: Seq<Seq<char>>, path: Seq<char>) -> bool {
    match extension_of(path) {
        Some(e) => allowed.contains(e),
        None => false,
    }
}

/// Every path of an event passes the filter.
pub open spec fn event_allowed(allowed: Seq<Seq<char>>, paths: Seq<Seq<char>>) -> bool {
    forall|i: int| 0 <= i < paths.len() ==> file_allowed(allowed, #[trigger] paths[i])
}

/// Whether `path` passes the filetype filter of `config`.
pub fn is_valid_file(config: &Config, path: &String) -> (r: bool)
    ensures
        r == file_allowed(config.allowed_extensions(), path@),
{
    let ext = match file_extension(path.as_str()) {
        Some(e) => e,
        None => return false,
    };
    let allowed = &config.allowed_filetypes;
    let mut i: usize = 0;
    while i < allowed.len()
        invariant
            i <= allowed.len(),
            allowed.deep_view() == config.allowed_extensions(),
            ext@ == extension_of(path@)->Some_0,
            extension_of(path@) is Some,
            forall|j: int| 0 <= j < i ==> allowed.deep_view()[j] != ext@,
        decreases allowed.len() - i,
    {
        if allowed[i] == ext {
            assert(allowed.deep_view()[i as int] == ext@);
            return true;
        }
        i = i + 1;
    }
    assert(!allowed.deep_view().contains(ext@));
    false
}

/// Whether every path of `event` passes the filetype filter of `config`.
pub fn event_is_valid(config: &Config, event: &RawEvent) -> (r: bool)
    ensures
        r == event_allowed(config.allowed_extensions(), event@.paths),
{
    let mut i: usize = 0;
    while i < event.paths.len()
        invariant
            i <= event.paths.len(),
            forall|j: int|
                0 <= j < i ==> file_allowed(config.allowed_extensions(), #[trigger] event@.paths[j]),
        decreases event.paths.len() - i,
    {
        if !is_valid_file(config, &event.paths[i]) {
            assert(!file_allowed(config.allowed_extensions(), event@.paths[i as int]));
            return false;
        }
        i = i + 1;
    }
    true
}

/// One outbound wire instruction, for either protocol.
#[derive(Debug, Clone, PartialEq, Eq)]
pub enum Message {
    /// A REST request and its verb.
    Rest(HttpVerb, BitburnerRequest),
    /// A JSON-RPC message.
    Rpc(BitburnerMessage),
}

/// Abstract view of a [Message].
pub enum EncodedView {
    Rest(HttpVerb, RequestView),
    Rpc(MessageView),
}

impl View for Message {
    type V = EncodedView;

    open spec fn view(&self) -> EncodedView {
        match self {
            Message::Rest(verb, req) => EncodedView::Rest(*verb, req@),
            Message::Rpc(m) => EncodedView::Rpc(m@),
        }
    }
}

/// Views of a sequence of messages.
pub open spec fn encoded_view(v: Seq<Message>) -> Seq<EncodedView> {
    v.map_values(|m: Message| m@)
}

/// The messages that an operation becomes under a protocol; JSON-RPC
/// messages are numbered from `first_id`.
pub open spec fn encoded(op: OperationView, protocol: Protocol, first_id: nat) -> Seq<EncodedView> {
    match protocol {
        Protocol::Rest => rest_requests(op).map_values(
            |p: (HttpVerb, RequestView)| EncodedView::Rest(p.0, p.1),
        ),
        Protocol::Rpc => rpc_messages(op, first_id).map_values(|m: MessageView| EncodedView::Rpc(m)),
    }
}

/// Correlation ids that a batch of messages under a protocol consumes.
pub open spec fn ids_used(protocol: Protocol, count: nat) -> nat {
    match protocol {
        Protocol::Rest => 0,
        Protocol::Rpc => count,
    }
}

/// Encodes `operation` for `protocol`; JSON-RPC messages take their ids from
/// `counter`.
pub fn encode_operation(
    operation: &BitburnerOperation,
    protocol: Protocol,
    counter: &mut MessageCounter,
) -> (r: Vec<Message>)
    requires
        operation@.well_formed(),
        old(counter)@ + file_count(operation.action) <= usize::MAX,
    ensures
        encoded_view(r@) == encoded(operation@, protocol, old(counter)@),
        r.len() == file_count(operation.action),
        final(counter)@ == old(counter)@ + ids_used(protocol, r.len() as nat),
{
    let ghost start = counter@;
    let mut out: Vec<Message> = Vec::new();
    match protocol {
        Protocol::Rest => {
            let mut requests = BitburnerRequest::from_operation(operation);
            let ghost expected = rest_requests(operation@);
            let ghost n = requests.len();
            while requests.len() > 0
                invariant
                    out.len() + requests.len() == n,
                    n == expected.len(),
                    forall|j: int|
                        0 <= j < out.len() ==> #[trigger] out@[j]@ == EncodedView::Rest(
                            expected[j].0,
                            expected[j].1,
                        ),
                    forall|j: int|
                        0 <= j < requests.len() ==> (#[trigger] requests@[j]).0 == expected[out.len()
                            + j].0 && requests@[j].1@ == expected[out.len() + j].1,
                decreases requests.len(),
            {
                let (verb, request) = requests.remove(0);
                out.push(Message::Rest(verb, request));
            }
            assert(encoded_view(out@) =~= encoded(operation@, protocol, start));
        },
        Protocol::Rpc => {
            let mut messages = BitburnerMessage::from_operation(operation, counter);
            let ghost expected = rpc_messages(operation@, start);
            let ghost n = messages.len();
            assert(forall|j: int| 0 <= j < n ==> #[trigger] messages@[j]@ == expected[j]);
            while messages.len() > 0
                invariant
                    out.len() + messages.len() == n,
                    n == expected.len(),
                    forall|j: int|
                        0 <= j < out.len() ==> #[trigger] out@[j]@ == EncodedView::Rpc(expected[j]),
                    forall|j: int|
                        0 <= j < messages.len() ==> (#[trigger] messages@[j])@ == expected[out.len() + j],
                decreases messages.len(),
            {
                let message = messages.remove(0);
                out.push(Message::Rpc(message));
            }
            assert(encoded_view(out@) =~= encoded(operation@, protocol, start));
        },
    }
    out
}

/// What the pipeline makes of one event: nothing where a path fails the
/// filter, else the classification's error or its encoded messages.
pub open spec fn handled(
    config: Config,
    event: RawEventView,
    text: Option<Seq<u8>>,
    first_id: nat,
) -> Result<Seq<EncodedView>, SyncError> {
    if !event_allowed(config.allowed_extensions(), event.paths) {
        Ok(seq![])
    } else {
        match classify(config.scripts_folder@, event, text) {
            Ok(op) => Ok(encoded(op, config.protocol, first_id)),
            Err(e) => Err(e),
        }
    }
}

/// Runs one event through the filter, the classifier and the encoder.
/// `content` holds the bytes read from the event's content path (see
/// [RawEvent::content_path_index]), or `None` where it could not be read.
pub fn handle_event(
    config: &Config,
    event: &RawEvent,
    content: Option<Vec<u8>>,
    counter: &mut MessageCounter,
) -> (r: Result<Vec<Message>, SyncError>)
    requires
        event.paths.len() >= paths_required(event.kind),
        old(counter)@ + paths_required(event.kind) <= usize::MAX,
    ensures
        match r {
            Ok(v) => {
                &&& handled(*config, event@, content.deep_view(), old(counter)@) == Ok::<
                    Seq<EncodedView>,
                    SyncError,
                >(encoded_view(v@))
                &&& final(counter)@ == old(counter)@ + ids_used(config.protocol, v.len() as nat)
            },
            Err(e) => {
                &&& handled(*config, event@, content.deep_view(), old(counter)@) == Err::<
                    Seq<EncodedView>,
                    SyncError,
                >(e)
                &&& final(counter)@ == old(counter)@
            },
        },
{
    if !event_is_valid(config, event) {
        let none: Vec<Message> = Vec::new();
        assert(encoded_view(none@) =~= seq![]);
        return Ok(none);
    }
    let operation = BitburnerOperation::build_operation(config, event, content)?;
    Ok(encode_operation(&operation, config.protocol, counter))
}


/// An event with a path that fails the filter is dropped before
/// classification: nothing is sent and no error is reported.
pub proof fn filtered_event_sends_nothing(
    config: Config,
    event: RawEventView,
    text: Option<Seq<u8>>,
    first_id: nat,
)
    requires
        exists|i: int|
            0 <= i < event.paths.len() && !file_allowed(
                config.allowed_extensions(),
                #[trigger] event.paths[i],
            ),
    ensures
        handled(config, event, text, first_id) == Ok::<Seq<EncodedView>, SyncError>(seq![]),
{
}

/// A move of an allowed source `a` to an allowed destination `b`, both under
/// the root, becomes a move operation whose source carries no contents and
/// whose destination carries the encoded contents of `b`; it is encoded as
/// exactly two messages, a delete of `a`'s name and then a push of `b`'s
/// name with those contents, under either protocol.
pub proof fn move_event_deletes_then_pushes(
    config: Config,
    event: RawEventView,
    text: Seq<u8>,
    first_id: nat,
)
    requires
        event.kind == EventKind::Modify,
        event.paths.len() == 2,
        is_under(config.scripts_folder@, event.paths[0]),
        is_under(config.scripts_folder@, event.paths[1]),
        file_allowed(config.allowed_extensions(), event.paths[0]),
        file_allowed(config.allowed_extensions(), event.paths[1]),
    ensures
        ({
            let root = config.scripts_folder@;
            let source = relative_name(root, event.paths[0]);
            let destination = relative_name(root, event.paths[1]);
            let contents = Some(base64_of(text));
            let op = OperationView {
                action: Action::MOVE,
                files: seq![
                    FileView { filename: source, code: None },
                    FileView { filename: destination, code: contents },
                ],
            };
            &&& classify(root, event, Some(text)) == Ok::<OperationView, SyncError>(op)
            &&& encoded(op, Protocol::Rest, first_id) == seq![
                EncodedView::Rest(HttpVerb::Delete, RequestView { filename: source, code: None }),
                EncodedView::Rest(HttpVerb::Put, RequestView { filename: destination, code: contents }),
            ]
            &&& encoded(op, Protocol::Rpc, first_id) == seq![
                EncodedView::Rpc(delete_message(first_id, FileView { filename: source, code: None })),
                EncodedView::Rpc(
                    push_message(first_id + 1, FileView { filename: destination, code: contents }),
                ),
            ]
            &&& handled(config, event, Some(text), first_id) == Ok::<Seq<EncodedView>, SyncError>(
                encoded(op, config.protocol, first_id),
            )
        }),
{
    let root = config.scripts_folder@;
    let op = OperationView {
        action: Action::MOVE,
        files: seq![deleted_file(root, event.paths[0]), pushed_file(root, event.paths[1], text)],
    };
    assert(event_allowed(config.allowed_extensions(), event.paths));
    assert(encoded(op, Protocol::Rest, first_id) =~= seq![
        EncodedView::Rest(HttpVerb::Delete, RequestView { filename: op.files[0].filename, code: None }),
        EncodedView::Rest(HttpVerb::Put, RequestView { filename: op.files[1].filename, code: op.files[1].code }),
    ]);
    assert(encoded(op, Protocol::Rpc, first_id) =~= seq![
        EncodedView::Rpc(delete_message(first_id, op.files[0])),
        EncodedView::Rpc(push_message(first_id + 1, op.files[1])),
    ]);
}

} // verus!
