//! Sync operations and their classification from raw watch events.
use vstd::prelude::*;

use crate::config::Config;
use crate::encoding::{base64_of, encode_contents};
use crate::path::{is_under, relative_name, strip_root};

verus! {

/// Kind tag of a raw watch event.
#[derive(Debug, Clone, Copy, PartialEq, Eq, Structural)]
pub enum EventKind {
    Create,
    /// A modification that carries two paths: a rename or move.
    Modify,
    Remove,
    /// Metadata-only changes and anything else the watcher reports.
    Other,
}

/// One filesystem notification: a kind and the paths it concerns.
#[derive(Debug, Clone)]
pub struct RawEvent {
    pub kind: EventKind,
    pub paths: Vec<String>,
}

/// Abstract view of a raw event.
pub struct RawEventView {
    pub kind: EventKind,
    pub paths: Seq<Seq<char>>,
}

impl View for RawEvent {
    type V = RawEventView;

    open spec fn view(&self) -> RawEventView {
        RawEventView { kind: self.kind, paths: self.paths.deep_view() }
    }
}

/// Kind of a notification as the filesystem watcher reports it, with the
/// sort of modification where it reports one.
#[derive(Debug, Clone, Copy, PartialEq, Eq, Structural)]
pub enum WatchKind {
    Any,
    Access,
    Create,
    ModifyAny,
    ModifyData,
    ModifyMetadata,
    ModifyName,
    ModifyOther,
    Remove,
    Other,
}

/// Whether a watcher kind is a modification of some sort.
pub open spec fn is_modification(kind: WatchKind) -> bool {
    match kind {
        WatchKind::ModifyAny | WatchKind::ModifyData | WatchKind::ModifyMetadata
        | WatchKind::ModifyName | WatchKind::ModifyOther => true,
        _ => false,
    }
}

/// The event kind of a notification with `path_count` paths. A modification
/// that names two paths is a rename or move. A content change (or an
/// unspecified modification) of a single path overwrites that file, which
/// is pushed again as a creation is. Everything else (access, metadata,
/// a one-sided rename) changes nothing on the game's side.
pub open spec fn event_kind_of(kind: WatchKind, path_count: nat) -> EventKind {
    if kind == WatchKind::Create {
        EventKind::Create
    } else if kind == WatchKind::Remove {
        EventKind::Remove
    } else if is_modification(kind) && path_count >= 2 {
        EventKind::Modify
    } else if (kind == WatchKind::ModifyData || kind == WatchKind::ModifyAny) && path_count == 1 {
        EventKind::Create
    } else {
        EventKind::Other
    }
}

/// Number of paths that the watcher guarantees for an event of a kind.
pub open spec fn paths_required(kind: EventKind) -> nat {
    match kind {
        EventKind::Create => 1,
        EventKind::Modify => 2,
        EventKind::Remove => 1,
        EventKind::Other => 0,
    }
}

/// Index of the path whose contents an event of a kind pushes, if any.
pub open spec fn content_index(kind: EventKind) -> Option<nat> {
    match kind {
        EventKind::Create => Some(0),
        EventKind::Modify => Some(1),
        _ => None,
    }
}

impl RawEvent {
    /// The event for a watcher notification of `kind` about `paths`.
    pub fn from_watch(kind: WatchKind, paths: Vec<String>) -> (r: RawEvent)
        ensures
            r.kind == event_kind_of(kind, paths.len() as nat),
            r.paths == paths,
    {
        let n = paths.len();
        let modification = match kind {
            WatchKind::ModifyAny | WatchKind::ModifyData | WatchKind::ModifyMetadata
            | WatchKind::ModifyName | WatchKind::ModifyOther => true,
            _ => false,
        };
        let event_kind = match kind {
            WatchKind::Create => EventKind::Create,
            WatchKind::Remove => EventKind::Remove,
            _ => {
                if modification && n >= 2 {
                    EventKind::Modify
                } else if (kind == WatchKind::ModifyData || kind == WatchKind::ModifyAny) && n == 1 {
                    EventKind::Create
                } else {
                    EventKind::Other
                }
            },
        };
        RawEvent { kind: event_kind, paths }
    }

    /// Whether the event carries the paths that its kind guarantees.
    pub fn has_required_paths(&self) -> (r: bool)
        ensures
            r == (self.paths.len() >= paths_required(self.kind)),
    {
        let required: usize = match self.kind {
            EventKind::Create => 1,
            EventKind::Modify => 2,
            EventKind::Remove => 1,
            EventKind::Other => 0,
        };
        self.paths.len() >= required
    }

    /// Index of the path whose contents must be read before classification.
    pub fn content_path_index(&self) -> (r: Option<usize>)
        ensures
            r matches Some(i) ==> content_index(self.kind) == Some(i as nat),
            r is None ==> content_index(self.kind) is None,
    {
        match self.kind {
            EventKind::Create => Some(0),
            EventKind::Modify => Some(1),
            _ => None,
        }
    }
}

/// Why an event could not become an operation.
#[derive(Debug, Clone, Copy, PartialEq, Eq, Structural)]
pub enum SyncError {
    /// A referenced path does not lie under the scripts folder.
    PathOutsideRoot,
    /// The contents to push could not be read.
    ContentUnavailable,
}

/// Subject of [BitburnerOperation]
#[derive(Debug, Clone, PartialEq, Eq)]
pub struct File {
    /// File path with the scripts folder treated as root
    pub filename: String,
    /// File contents encoded into base64.
    pub code: Option<String>,
}

/// Abstract view of a [File].
pub struct FileView {
    pub filename: Seq<char>,
    pub code: Option<Seq<char>>,
}

impl View for File {
    type V = FileView;

    open spec fn view(&self) -> FileView {
        FileView { filename: self.filename@, code: self.code.deep_view() }
    }
}

/// Action of [BitburnerOperation]
#[allow(non_camel_case_types)]
#[derive(Debug, Clone, Copy, PartialEq, Eq, Structural)]
pub enum Action {
    REMOVE,
    CREATE,
    MOVE,
    IGNORE,
}

/// Number of files that an operation of an action carries.
pub open spec fn file_count(action: Action) -> nat {
    match action {
        Action::CREATE => 1,
        Action::REMOVE => 1,
        Action::MOVE => 2,
        Action::IGNORE => 0,
    }
}

/// Collection of [File] and the [Action] to be performed. Two separate files are needed for a move or rename operation.
/// In this instance, the source file will be at the first index and the destination file at the second index.
#[derive(Debug, Clone, PartialEq, Eq)]
pub struct BitburnerOperation {
    pub action: Action,
    pub files: Vec<File>,
}

/// Abstract view of a [BitburnerOperation].
pub struct OperationView {
    pub action: Action,
    pub files: Seq<FileView>,
}

impl OperationView {
    /// The operation carries at least the files that its action reads.
    pub open spec fn well_formed(self) -> bool {
        self.files.len() >= file_count(self.action)
    }
}

impl View for BitburnerOperation {
    type V = OperationView;

    open spec fn view(&self) -> OperationView {
        OperationView { action: self.action, files: self.files@.map_values(|f: File| f@) }
    }
}

/// A file record to be pushed with the given encoded contents.
pub open spec fn pushed_file(root: Seq<char>, path: Seq<char>, bytes: Seq<u8>) -> FileView {
    FileView { filename: relative_name(root, path), code: Some(base64_of(bytes)) }
}

/// A file record to be deleted.
pub open spec fn deleted_file(root: Seq<char>, path: Seq<char>) -> FileView {
    FileView { filename: relative_name(root, path), code: None }
}

/// The operation that an event becomes, given the scripts folder `root` and
/// the bytes read from the event's content path (`None` where it could not be
/// read).
pub open spec fn classify(
    root: Seq<char>,
    event: RawEventView,
    text: Option<Seq<u8>>,
) -> Result<OperationView, SyncError> {
    match event.kind {
        EventKind::Create => {
            let p = event.paths[0];
            if !is_under(root, p) {
                Err(SyncError::PathOutsideRoot)
            } else {
                match text {
                    None => Err(SyncError::ContentUnavailable),
                    Some(t) => Ok(
                        OperationView { action: Action::CREATE, files: seq![pushed_file(root, p, t)] },
                    ),
                }
            }
        },
        EventKind::Modify => {
            let a = event.paths[0];
            let b = event.paths[1];
            if !is_under(root, a) || !is_under(root, b) {
                Err(SyncError::PathOutsideRoot)
            } else {
                match text {
                    None => Err(SyncError::ContentUnavailable),
                    Some(t) => Ok(
                        OperationView {
                            action: Action::MOVE,
                            files: seq![deleted_file(root, a), pushed_file(root, b, t)],
                        },
                    ),
                }
            }
        },
        EventKind::Remove => {
            let p = event.paths[0];
            if !is_under(root, p) {
                Err(SyncError::PathOutsideRoot)
            } else {
                Ok(OperationView { action: Action::REMOVE, files: seq![deleted_file(root, p)] })
            }
        },
        EventKind::Other => Ok(OperationView { action: Action::IGNORE, files: seq![] }),
    }
}

/// Classification as it lands in an exec result.
pub open spec fn classified_as(
    r: Result<BitburnerOperation, SyncError>,
    expected: Result<OperationView, SyncError>,
) -> bool {
    match r {
        Ok(op) => expected == Ok::<OperationView, SyncError>(op@),
        Err(e) => expected == Err::<OperationView, SyncError>(e),
    }
}

/// A create event for a path under the root becomes a single create
/// operation whose one file carries the path's relative name and the
/// base64 encoding of the contents read at classification time.
pub proof fn create_event_pushes_its_contents(
    root: Seq<char>,
    allowed: Seq<Seq<char>>,
    event: RawEventView,
    text: Seq<u8>,
)
    requires
        event.kind == EventKind::Create,
        event.paths.len() >= 1,
        is_under(root, event.paths[0]),
        crate::handler::file_allowed(allowed, event.paths[0]),
    ensures
        classify(root, event, Some(text)) == Ok::<OperationView, SyncError>(
            OperationView {
                action: Action::CREATE,
                files: seq![
                    FileView {
                        filename: relative_name(root, event.paths[0]),
                        code: Some(base64_of(text)),
                    },
                ],
            },
        ),
{
}

/// Classifying the same event twice, with the same contents, gives equal
/// results: equal operations, or the same error.
pub proof fn classification_is_repeatable(
    config: Config,
    event: RawEvent,
    content: Option<Vec<u8>>,
    first: Result<BitburnerOperation, SyncError>,
    second: Result<BitburnerOperation, SyncError>,
)
    requires
        classified_as(first, classify(config.scripts_folder@, event@, content.deep_view())),
        classified_as(second, classify(config.scripts_folder@, event@, content.deep_view())),
    ensures
        match (first, second) {
            (Ok(a), Ok(b)) => a@ == b@,
            (Err(x), Err(y)) => x == y,
            _ => false,
        },
{
}

impl BitburnerOperation {
    /// Builds the operation for `event`. `content` holds the bytes read from
    /// the event's content path (see [RawEvent::content_path_index]), or
    /// `None` where it could not be read; it is not looked at for other kinds.
    pub fn build_operation(
        config: &Config,
        event: &RawEvent,
        content: Option<Vec<u8>>,
    ) -> (r: Result<BitburnerOperation, SyncError>)
        requires
            event.paths.len() >= paths_required(event.kind),
        ensures
            classified_as(r, classify(config.scripts_folder@, event@, content.deep_view())),
            r matches Ok(op) ==> op@.well_formed(),
    {
        match event.kind {
            EventKind::Create => {
                let filename = extract_file_name(config, &event.paths[0])?;
                let bytes = match content {
                    Some(t) => t,
                    None => return Err(SyncError::ContentUnavailable),
                };
                assert(bytes.deep_view() =~= bytes@);
                let code = encode_contents(bytes.as_slice());
                let files = vec![File { filename, code: Some(code) }];
                let op = BitburnerOperation { action: Action::CREATE, files };
                assert(op@.files =~= seq![
                    pushed_file(config.scripts_folder@, event@.paths[0], bytes@),
                ]);
                Ok(op)
            },
            EventKind::Modify => {
                let source = extract_file_name(config, &event.paths[0])?;
                let destination = extract_file_name(config, &event.paths[1])?;
                let bytes = match content {
                    Some(t) => t,
                    None => return Err(SyncError::ContentUnavailable),
                };
                assert(bytes.deep_view() =~= bytes@);
                let code = encode_contents(bytes.as_slice());
                let files = vec![
                    File { filename: source, code: None },
                    File { filename: destination, code: Some(code) },
                ];
                let op = BitburnerOperation { action: Action::MOVE, files };
                assert(op@.files =~= seq![
                    deleted_file(config.scripts_folder@, event@.paths[0]),
                    pushed_file(config.scripts_folder@, event@.paths[1], bytes@),
                ]);
                Ok(op)
            },
            EventKind::Remove => {
                let filename = extract_file_name(config, &event.paths[0])?;
                let files = vec![File { filename, code: None }];
                let op = BitburnerOperation { action: Action::REMOVE, files };
                assert(op@.files =~= seq![deleted_file(config.scripts_folder@, event@.paths[0])]);
                Ok(op)
            },
            EventKind::Other => {
                let op = BitburnerOperation { action: Action::IGNORE, files: Vec::new() };
                assert(op@.files =~= Seq::<FileView>::empty());
                Ok(op)
            },
        }
    }
}

/// The name of `path` relative to the scripts folder.
pub fn extract_file_name(config: &Config, path: &String) -> (r: Result<String, SyncError>)
    ensures
        match r {
            Ok(name) => is_under(config.scripts_folder@, path@) && name@ == relative_name(
                config.scripts_folder@,
                path@,
            ),
            Err(e) => !is_under(config.scripts_folder@, path@) && e == SyncError::PathOutsideRoot,
        },
{
    match strip_root(config.scripts_folder.as_str(), path.as_str()) {
        Some(name) => Ok(name),
        None => Err(SyncError::PathOutsideRoot),
    }
}

} // verus!
