use vstd::prelude::*;

verus! {

/// How a file handle that was accessed had been opened.
#[derive(Debug, Clone, Copy, PartialEq, Eq, Structural)]
pub enum AccessMode {
    Any,
    Execute,
    Read,
    Write,
    Other,
}

/// The kind of a raw filesystem event.
#[derive(Debug, Clone, Copy, PartialEq, Eq, Structural)]
pub enum FsEventKind {
    Any,
    Created,
    Modified,
    Removed,
    /// A file handle was opened.
    AccessOpen(AccessMode),
    /// A file handle was closed.
    AccessClose(AccessMode),
    /// Any other access: a read, or one the watcher could not tell apart.
    AccessOther,
    Other,
}

/// One event as the watcher reports it: what happened, and to which paths.
#[derive(Debug, Clone, PartialEq, Eq)]
pub struct RawFsEvent {
    pub kind: FsEventKind,
    pub paths: Vec<String>,
}

/// What to do with an event.
#[derive(Debug, Clone, PartialEq, Eq)]
pub enum Action {
    /// Upload each of these paths, in this order.
    Upload(Vec<String>),
    Ignore,
}

/// A handle opened for writing was closed: the file is complete.
pub open spec fn is_write_close(kind: FsEventKind) -> bool {
    kind == FsEventKind::AccessClose(AccessMode::Write)
}

impl Action {
    pub open spec fn is_ignore(&self) -> bool {
        self is Ignore
    }

    /// The paths to upload; none for `Ignore`.
    pub open spec fn uploads(&self) -> Seq<String> {
        match self {
            Action::Upload(paths) => paths@,
            Action::Ignore => Seq::empty(),
        }
    }
}

/// What `classify` promises for an event.
pub open spec fn classify_outcome(event: RawFsEvent, r: Action) -> bool {
    if is_write_close(event.kind) {
        r == Action::Upload(event.paths)
    } else {
        r.is_ignore()
    }
}

/// Only a close after writing leads to an upload, of every path of the event
/// in order; every other kind is ignored.
pub fn classify(event: RawFsEvent) -> (r: Action)
    ensures
        classify_outcome(event, r),
{
    match event.kind {
        FsEventKind::AccessClose(AccessMode::Write) => Action::Upload(event.paths),
        _ => Action::Ignore,
    }
}

/// An event of any kind but a close after writing asks for no upload at all.
pub proof fn lemma_non_write_close_uploads_nothing(event: RawFsEvent, r: Action)
    requires
        !is_write_close(event.kind),
        classify_outcome(event, r),
    ensures
        r.is_ignore(),
        r.uploads().len() == 0,
{
}

} // verus!
