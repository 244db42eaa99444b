//! JSON-RPC messages for the game's websocket, and their correlation ids.
use vstd::prelude::*;

use crate::bitburner::operation::{Action, BitburnerOperation, FileView, OperationView, file_count};
use crate::encoding::{decimal, decimal_text, json_optional_of, quote_json_optional};

verus! {

/// Source of correlation ids: hands out 0, 1, 2, ... and never repeats one.
#[derive(Debug)]
pub struct MessageCounter {
    next: usize,
}

impl View for MessageCounter {
    type V = nat;

    /// The id that the next message receives.
    closed spec fn view(&self) -> nat {
        self.next as nat
    }
}

impl MessageCounter {
    /// A counter whose first id is 0.
    pub fn new() -> (r: MessageCounter)
        ensures
            r@ == 0,
    {
        MessageCounter { next: 0 }
    }

    /// The next id never exceeds `usize::MAX`.
    pub proof fn lemma_bounded(&self)
        ensures
            self@ <= usize::MAX,
    {
    }

    /// Whether `n` more ids can be handed out.
    pub fn has_room(&self, n: usize) -> (r: bool)
        ensures
            r == (self@ + n <= usize::MAX),
    {
        n <= usize::MAX - self.next
    }

    /// Takes the next id, advancing the counter by one.
    pub fn next_id(&mut self) -> (id: usize)
        requires
            old(self)@ < usize::MAX,
        ensures
            id == old(self)@,
            final(self)@ == old(self)@ + 1,
    {
        let id = self.next;
        self.next = self.next + 1;
        id
    }
}

/// Json message to be broadcast to bitburner websocket client.
#[derive(Debug, Clone, PartialEq, Eq)]
pub struct BitburnerMessage {
    pub jsonrpc: JsonrpcVersion,
    pub id: usize,
    pub method: BitburnerMethod,
    pub params: BitburnerMessageParams,
}

/// Parameters of a [BitburnerMessage].
#[derive(Debug, Clone, PartialEq, Eq)]
pub struct BitburnerMessageParams {
    pub filename: Option<String>,
    pub content: Option<String>,
    pub server: Option<String>,
}

/// Methods of the game's JSON-RPC interface.
#[derive(Debug, Clone, Copy, PartialEq, Eq, Structural)]
pub enum BitburnerMethod {
    PushFile,
    GetFile,
    DeleteFile,
    GetFileNames,
    GetAllFiles,
    CalculateRam,
    GetDefinitionFile,
}

/// Version tag of the JSON-RPC protocol.
#[derive(Debug, Clone, Copy, PartialEq, Eq, Structural)]
pub enum JsonrpcVersion {
    Two,
}

/// Wire name of a method.
pub open spec fn method_name(m: BitburnerMethod) -> Seq<char> {
    match m {
        BitburnerMethod::PushFile => "pushFile"@,
        BitburnerMethod::GetFile => "getFile"@,
        BitburnerMethod::DeleteFile => "deleteFile"@,
        BitburnerMethod::GetFileNames => "getFileNames"@,
        BitburnerMethod::GetAllFiles => "getAllFiles"@,
        BitburnerMethod::CalculateRam => "calculateRam"@,
        BitburnerMethod::GetDefinitionFile => "getDefinitionsFile"@,
    }
}

impl BitburnerMethod {
    pub fn as_str(&self) -> (r: &'static str)
        ensures
            r@ == method_name(*self),
    {
        match self {
            BitburnerMethod::PushFile => "pushFile",
            BitburnerMethod::GetFile => "getFile",
            BitburnerMethod::DeleteFile => "deleteFile",
            BitburnerMethod::GetFileNames => "getFileNames",
            BitburnerMethod::GetAllFiles => "getAllFiles",
            BitburnerMethod::CalculateRam => "calculateRam",
            BitburnerMethod::GetDefinitionFile => "getDefinitionsFile",
        }
    }
}

impl JsonrpcVersion {
    pub fn as_str(&self) -> (r: &'static str)
        ensures
            r@ == "2.0"@,
    {
        match self {
            JsonrpcVersion::Two => "2.0",
        }
    }
}

/// Abstract view of [BitburnerMessageParams].
pub struct ParamsView {
    pub filename: Option<Seq<char>>,
    pub content: Option<Seq<char>>,
    pub server: Option<Seq<char>>,
}

/// Abstract view of a [BitburnerMessage].
pub struct MessageView {
    pub jsonrpc: JsonrpcVersion,
    pub id: nat,
    pub method: BitburnerMethod,
    pub params: ParamsView,
}

impl View for BitburnerMessageParams {
    type V = ParamsView;

    open spec fn view(&self) -> ParamsView {
        ParamsView {
            filename: self.filename.deep_view(),
            content: self.content.deep_view(),
            server: self.server.deep_view(),
        }
    }
}

impl View for BitburnerMessage {
    type V = MessageView;

    open spec fn view(&self) -> MessageView {
        MessageView {
            jsonrpc: self.jsonrpc,
            id: self.id as nat,
            method: self.method,
            params: self.params@,
        }
    }
}

/// The server that every file message addresses.
pub open spec fn home() -> Seq<char> {
    "home"@
}

/// Message that pushes a file's contents under its name.
pub open spec fn push_message(id: nat, f: FileView) -> MessageView {
    MessageView {
        jsonrpc: JsonrpcVersion::Two,
        id,
        method: BitburnerMethod::PushFile,
        params: ParamsView { filename: Some(f.filename), content: f.code, server: Some(home()) },
    }
}

/// Message that deletes a file by name.
pub open spec fn delete_message(id: nat, f: FileView) -> MessageView {
    MessageView {
        jsonrpc: JsonrpcVersion::Two,
        id,
        method: BitburnerMethod::DeleteFile,
        params: ParamsView { filename: Some(f.filename), content: None, server: Some(home()) },
    }
}

/// The messages that an operation becomes, numbered from `first_id`: a move
/// is a delete of its source followed by a push of its destination.
pub open spec fn rpc_messages(op: OperationView, first_id: nat) -> Seq<MessageView> {
    match op.action {
        Action::CREATE => seq![push_message(first_id, op.files[0])],
        Action::REMOVE => seq![delete_message(first_id, op.files[0])],
        Action::MOVE => seq![
            delete_message(first_id, op.files[0]),
            push_message(first_id + 1, op.files[1]),
        ],
        Action::IGNORE => seq![],
    }
}

/// The messages of a sequence of operations encoded one after the other,
/// the first numbered from `first_id` and each next one from where the
/// previous left the counter.
pub open spec fn rpc_stream(ops: Seq<OperationView>, first_id: nat) -> Seq<MessageView>
    decreases ops.len(),
{
    if ops.len() == 0 {
        seq![]
    } else {
        let head = rpc_messages(ops[0], first_id);
        head + rpc_stream(ops.drop_first(), first_id + head.len())
    }
}

/// Each message of `msgs` carries the id `first_id` plus its position.
pub open spec fn numbered_from(msgs: Seq<MessageView>, first_id: nat) -> bool {
    forall|i: int| 0 <= i < msgs.len() ==> (#[trigger] msgs[i]).id == first_id + i
}

/// The messages of one operation are numbered consecutively from the id
/// that the counter held.
pub proof fn operation_ids_are_consecutive(op: OperationView, first_id: nat)
    ensures
        numbered_from(rpc_messages(op, first_id), first_id),
{
}

/// Correlation ids over any sequence of encoded operations go up by exactly
/// one per message, whatever the operations: no id is repeated and each is
/// larger than every earlier one.
pub proof fn correlation_ids_increase_by_one(ops: Seq<OperationView>, first_id: nat)
    ensures
        numbered_from(rpc_stream(ops, first_id), first_id),
        forall|i: int, j: int|
            0 <= i < j < rpc_stream(ops, first_id).len() ==> rpc_stream(ops, first_id)[i].id
                < rpc_stream(ops, first_id)[j].id,
    decreases ops.len(),
{
    if ops.len() > 0 {
        let head = rpc_messages(ops[0], first_id);
        operation_ids_are_consecutive(ops[0], first_id);
        correlation_ids_increase_by_one(ops.drop_first(), first_id + head.len());
        let tail = rpc_stream(ops.drop_first(), first_id + head.len());
        let all = rpc_stream(ops, first_id);
        assert(all == head + tail);
        assert forall|i: int| 0 <= i < all.len() implies (#[trigger] all[i]).id == first_id + i by {
            if i >= head.len() {
                assert(all[i] == tail[i - head.len()]);
            }
        }
    }
}

/// Views of a sequence of messages.
pub open spec fn messages_view(v: Seq<BitburnerMessage>) -> Seq<MessageView> {
    v.map_values(|m: BitburnerMessage| m@)
}

/// JSON text of a message: `{"jsonrpc":"2.0","id":N,"method":"M","params":
/// {"filename":F,"content":C,"server":S}}`, with `null` for absent texts.
pub open spec fn rpc_body(m: MessageView) -> Seq<char> {
    "{\"jsonrpc\":\""@ + "2.0"@ + "\",\"id\":"@ + decimal(m.id) + ",\"method\":\""@ + method_name(m.method)
        + "\",\"params\":{\"filename\":"@ + json_optional_of(m.params.filename) + ",\"content\":"@
        + json_optional_of(m.params.content) + ",\"server\":"@ + json_optional_of(m.params.server)
        + "}}"@
}

/// Clone of an optional text.
pub(crate) fn copy_text(t: &Option<String>) -> (r: Option<String>)
    ensures
        r.deep_view() == t.deep_view(),
{
    match t {
        Some(s) => Some(s.clone()),
        None => None,
    }
}

impl Default for BitburnerMessageParams {
    fn default() -> (r: BitburnerMessageParams)
        ensures
            r@ == (ParamsView { filename: None, content: None, server: Some(home()) }),
    {
        BitburnerMessageParams { filename: None, content: None, server: Some(String::from_str("home")) }
    }
}

impl Default for BitburnerMessage {
    fn default() -> (r: BitburnerMessage)
        ensures
            r@ == (MessageView {
                jsonrpc: JsonrpcVersion::Two,
                id: 0,
                method: BitburnerMethod::GetDefinitionFile,
                params: ParamsView { filename: None, content: None, server: Some(home()) },
            }),
    {
        BitburnerMessage {
            jsonrpc: JsonrpcVersion::Two,
            id: 0,
            method: BitburnerMethod::GetDefinitionFile,
            params: BitburnerMessageParams::default(),
        }
    }
}

impl BitburnerMessage {
    /// Message with the next id that pushes `code` under `filename`.
    fn push(filename: &String, code: &Option<String>, counter: &mut MessageCounter) -> (r:
        BitburnerMessage)
        requires
            old(counter)@ < usize::MAX,
        ensures
            r@ == push_message(old(counter)@, FileView { filename: filename@, code: code.deep_view() }),
            final(counter)@ == old(counter)@ + 1,
    {
        let id = counter.next_id();
        let params = BitburnerMessageParams {
            filename: Some(filename.clone()),
            content: copy_text(code),
            server: Some(String::from_str("home")),
        };
        BitburnerMessage { jsonrpc: JsonrpcVersion::Two, id, method: BitburnerMethod::PushFile, params }
    }

    /// Message with the next id that deletes `filename`.
    fn delete(filename: &String, counter: &mut MessageCounter) -> (r: BitburnerMessage)
        requires
            old(counter)@ < usize::MAX,
        ensures
            r@ == delete_message(old(counter)@, FileView { filename: filename@, code: None }),
            final(counter)@ == old(counter)@ + 1,
    {
        let id = counter.next_id();
        let params = BitburnerMessageParams {
            filename: Some(filename.clone()),
            content: None,
            server: Some(String::from_str("home")),
        };
        BitburnerMessage { jsonrpc: JsonrpcVersion::Two, id, method: BitburnerMethod::DeleteFile, params }
    }

    /// The JSON text of this message (see [rpc_body]).
    pub fn to_json(&self) -> (r: String)
        ensures
            r@ == rpc_body(self@),
    {
        let filename = quote_json_optional(&self.params.filename);
        let content = quote_json_optional(&self.params.content);
        let server = quote_json_optional(&self.params.server);
        let mut text = String::from_str("{\"jsonrpc\":\"");
        text.append(self.jsonrpc.as_str());
        text.append("\",\"id\":");
        let id = decimal_text(self.id);
        text.append(id.as_str());
        text.append(",\"method\":\"");
        text.append(self.method.as_str());
        text.append("\",\"params\":{\"filename\":");
        text.append(filename.as_str());
        text.append(",\"content\":");
        text.append(content.as_str());
        text.append(",\"server\":");
        text.append(server.as_str());
        text.append("}}");
        text
    }

    /// The messages for `operation`, each with the next id of `counter`.
    pub fn from_operation(operation: &BitburnerOperation, counter: &mut MessageCounter) -> (r: Vec<
        BitburnerMessage,
    >)
        requires
            operation@.well_formed(),
            old(counter)@ + file_count(operation.action) <= usize::MAX,
        ensures
            messages_view(r@) == rpc_messages(operation@, old(counter)@),
            final(counter)@ == old(counter)@ + r.len(),
    {
        let ghost start = counter@;
        let r = match operation.action {
            Action::CREATE => {
                let f = &operation.files[0];
                vec![BitburnerMessage::push(&f.filename, &f.code, counter)]
            },
            Action::REMOVE => {
                vec![BitburnerMessage::delete(&operation.files[0].filename, counter)]
            },
            Action::MOVE => {
                let source = BitburnerMessage::delete(&operation.files[0].filename, counter);
                let f = &operation.files[1];
                let destination = BitburnerMessage::push(&f.filename, &f.code, counter);
                vec![source, destination]
            },
            Action::IGNORE => Vec::new(),
        };
        assert(messages_view(r@) =~= rpc_messages(operation@, start));
        r
    }
}

} // verus!
