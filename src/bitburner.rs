//! The two encodings of a sync operation: REST requests (here) and JSON-RPC
//! messages (`message`).
use vstd::prelude::*;

pub mod message;
pub mod operation;

use crate::bitburner::message::copy_text;
use crate::bitburner::operation::{Action, BitburnerOperation, FileView, OperationView, file_count};
use crate::encoding::{json_optional_of, json_string_literal, quote_json, quote_json_optional};

verus! {

/// HTTP verb of a REST request.
#[derive(Debug, Clone, Copy, PartialEq, Eq, Structural)]
pub enum HttpVerb {
    /// Writes a file.
    Put,
    /// Deletes a file.
    Delete,
}

/// Body of a REST request to the game.
#[derive(Debug, Clone, PartialEq, Eq)]
pub struct BitburnerRequest {
    pub filename: String,
    pub code: Option<String>,
}

/// Abstract view of a [BitburnerRequest].
pub struct RequestView {
    pub filename: Seq<char>,
    pub code: Option<Seq<char>>,
}

impl View for BitburnerRequest {
    type V = RequestView;

    open spec fn view(&self) -> RequestView {
        RequestView { filename: self.filename@, code: self.code.deep_view() }
    }
}

/// Request that writes a file's contents under its name.
pub open spec fn put_request(f: FileView) -> (HttpVerb, RequestView) {
    (HttpVerb::Put, RequestView { filename: f.filename, code: f.code })
}

/// Request that deletes a file by name.
pub open spec fn delete_request(f: FileView) -> (HttpVerb, RequestView) {
    (HttpVerb::Delete, RequestView { filename: f.filename, code: None })
}

/// The requests that an operation becomes: a move is a delete of its source
/// followed by a write of its destination.
pub open spec fn rest_requests(op: OperationView) -> Seq<(HttpVerb, RequestView)> {
    match op.action {
        Action::CREATE => seq![put_request(op.files[0])],
        Action::REMOVE => seq![delete_request(op.files[0])],
        Action::MOVE => seq![delete_request(op.files[0]), put_request(op.files[1])],
        Action::IGNORE => seq![],
    }
}

/// Views of a sequence of requests.
pub open spec fn requests_view(v: Seq<(HttpVerb, BitburnerRequest)>) -> Seq<(HttpVerb, RequestView)> {
    v.map_values(|p: (HttpVerb, BitburnerRequest)| (p.0, p.1@))
}

/// JSON body of a request: `{"filename":...,"code":...}`, with `null` for
/// absent contents.
pub open spec fn rest_body(req: RequestView) -> Seq<char> {
    "{\"filename\":"@ + json_string_literal(req.filename) + ",\"code\":"@ + json_optional_of(req.code)
        + "}"@
}

impl BitburnerRequest {
    /// The requests for `operation`, in the order in which they are sent.
    pub fn from_operation(operation: &BitburnerOperation) -> (r: Vec<(HttpVerb, BitburnerRequest)>)
        requires
            operation@.well_formed(),
        ensures
            requests_view(r@) == rest_requests(operation@),
            r.len() == file_count(operation.action),
    {
        let r = match operation.action {
            Action::CREATE => {
                let f = &operation.files[0];
                vec![(HttpVerb::Put, BitburnerRequest { filename: f.filename.clone(), code: copy_text(&f.code) })]
            },
            Action::REMOVE => {
                let f = &operation.files[0];
                vec![(HttpVerb::Delete, BitburnerRequest { filename: f.filename.clone(), code: None })]
            },
            Action::MOVE => {
                let source = &operation.files[0];
                let destination = &operation.files[1];
                vec![
                    (HttpVerb::Delete, BitburnerRequest { filename: source.filename.clone(), code: None }),
                    (
                        HttpVerb::Put,
                        BitburnerRequest {
                            filename: destination.filename.clone(),
                            code: copy_text(&destination.code),
                        },
                    ),
                ]
            },
            Action::IGNORE => Vec::new(),
        };
        assert(requests_view(r@) =~= rest_requests(operation@));
        r
    }

    /// The JSON body of this request (see [rest_body]).
    pub fn to_json(&self) -> (r: String)
        ensures
            r@ == rest_body(self@),
    {
        let filename = quote_json(self.filename.as_str());
        let code = quote_json_optional(&self.code);
        let mut body = String::from_str("{\"filename\":");
        body.append(filename.as_str());
        body.append(",\"code\":");
        body.append(code.as_str());
        body.append("}");
        body
    }
}

} // verus!
