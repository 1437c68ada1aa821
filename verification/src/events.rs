//! Classification of raw filesystem change notifications.
//!
//! A raw event is rebuild-worthy when its kind is a creation, a removal, a
//! modification, or a close of a file that had been opened for writing. The
//! last case catches editors and compilers that write in place, where the
//! underlying watch primitive may suppress a plain modification notification.
//! Plain accesses and unrelated kinds are ignored. No debouncing happens at
//! this layer: each worthy event independently satisfies a pending wait.

use vstd::prelude::*;

verus! {

/// The kind of a raw filesystem change notification, as the watch primitive
/// reports it.
#[derive(Clone, Copy, Debug, PartialEq, Eq, Structural)]
pub enum RawEventKind {
    /// A file or directory was created.
    Create,
    /// A file or directory was removed.
    Remove,
    /// A file or directory was modified.
    Modify,
    /// A file previously opened for writing was closed.
    AccessCloseWrite,
    /// Some other access (open, read, close of a read-only handle).
    AccessOther,
    /// Any other kind of notification.
    Other,
}

/// One raw change notification: a kind and the path it concerns. Consumed
/// immediately by `check_raw_event`; the rebuild decision reads the kind only.
#[derive(Clone, Debug)]
pub struct RawChangeEvent {
    pub kind: RawEventKind,
    pub path: String,
}

/// The rebuild policy: creations, removals, modifications and write-closes
/// are worthy; everything else is not.
pub open spec fn event_is_worthy(kind: RawEventKind) -> bool {
    ||| kind == RawEventKind::Create
    ||| kind == RawEventKind::Remove
    ||| kind == RawEventKind::Modify
    ||| kind == RawEventKind::AccessCloseWrite
}

/// Decide whether one raw event should trigger a rebuild.
pub fn check_raw_event(event: &RawChangeEvent) -> (worthy: bool)
    ensures
        worthy == event_is_worthy(event.kind),
{
    match event.kind {
        RawEventKind::Create => true,
        RawEventKind::Remove => true,
        RawEventKind::Modify => true,
        RawEventKind::AccessCloseWrite => true,
        RawEventKind::AccessOther => false,
        RawEventKind::Other => false,
    }
}

} // verus!
