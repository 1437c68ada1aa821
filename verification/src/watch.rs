//! The watch session: a pull-based view over a push-style stream of raw
//! filesystem events.
//!
//! The watch primitive delivers events from a thread of its own; a
//! thread-safe unbounded channel is the only state shared with the caller.
//! The session owns the receiving end and exposes a blocking and a
//! non-blocking wait for the next rebuild-worthy signal. Events are examined
//! in the order the primitive emitted them; no reordering or deduplication.

use vstd::prelude::*;
use crate::package::{Package, PackageInfo};
use crate::errors::NextError;
use crate::events::{RawChangeEvent, check_raw_event, event_is_worthy};

verus! {

/// One message on the event channel: a raw change event, or an internal
/// error the watch primitive reported in the event stream.
#[derive(Debug, Clone)]
pub enum WatchMsg {
    Event(RawChangeEvent),
    Error(String),
}

#[verifier::external_type_specification]
#[verifier::external_body]
#[verifier::reject_recursive_types(T)]
pub struct ExReceiver<T>(crossbeam_channel::Receiver<T>);

/// What one non-blocking poll of the channel yielded.
enum Polled {
    Msg(WatchMsg),
    Empty,
    Closed,
}

/// Relies on `crossbeam_channel::Receiver::recv`: blocks until a message
/// arrives or every sender is dropped. The channel is fed by another thread,
/// so nothing can be promised about which message, if any, arrives.
#[verifier::external_body]
fn recv_msg(rx: &crossbeam_channel::Receiver<WatchMsg>) -> (r: Option<WatchMsg>) {
    rx.recv().ok()
}

/// Relies on `crossbeam_channel::Receiver::len`: the number of messages
/// buffered at the moment of the call. The channel is fed by another thread,
/// so the count may be stale as soon as it is returned.
#[verifier::external_body]
fn queue_len(rx: &crossbeam_channel::Receiver<WatchMsg>) -> (r: usize) {
    rx.len()
}

/// Relies on `crossbeam_channel::Receiver::try_recv`: returns a buffered
/// message if one is ready, else reports the channel empty or disconnected,
/// without blocking. The channel is fed by another thread, so nothing can be
/// promised about which outcome comes.
#[verifier::external_body]
fn try_recv_msg(rx: &crossbeam_channel::Receiver<WatchMsg>) -> (r: Polled) {
    match rx.try_recv() {
        Ok(m) => Polled::Msg(m),
        Err(crossbeam_channel::TryRecvError::Empty) => Polled::Empty,
        Err(crossbeam_channel::TryRecvError::Disconnected) => Polled::Closed,
    }
}

/// Watches and re-builds the library upon changes to its source code: owns
/// the package description and the receiving end of the event channel.
pub struct Watch {
    pub package_info: PackageInfo,
    pub event_rx: crossbeam_channel::Receiver<WatchMsg>,
}

impl Watch {
    /// Assemble a session from its resolved package description and the
    /// receiving end of the channel that the watch subscription feeds.
    pub fn from_parts(package_info: PackageInfo, event_rx: crossbeam_channel::Receiver<WatchMsg>)
        -> (w: Watch)
        ensures
            w.package_info == package_info,
            w.event_rx == event_rx,
    {
        Watch { package_info, event_rx }
    }

    /// The path to the package's build manifest.
    pub fn manifest_path(&self) -> (r: &str)
        ensures
            r@ == self.package_info.manifest_path@,
    {
        self.package_info.manifest_path.as_str()
    }

    /// The path to the source directory being watched.
    pub fn src_path(&self) -> (r: &str)
        ensures
            r@ == self.package_info.src_path@,
    {
        self.package_info.src_path.as_str()
    }

    /// The package descriptor, immediately and without any event check.
    /// Useful for forcing an initial build before any file has changed.
    pub fn package(&self) -> (p: Package)
        ensures
            p.info == &self.package_info,
    {
        Package { info: &self.package_info }
    }

    /// Decide what one received message (or a closed channel, as `None`)
    /// means for a pending wait: a rebuild-worthy event yields the package,
    /// an error event fails with `Notify` and is dropped, a closed channel
    /// fails with `ChannelClosed`, and an unworthy event decides nothing.
    pub fn handle_msg(&self, msg: Option<WatchMsg>) -> (r: Option<Result<Package, NextError>>)
        ensures
            match msg {
                None => r matches Some(Err(NextError::ChannelClosed)),
                Some(WatchMsg::Error(m)) => (r matches Some(Err(NextError::Notify { message }))
                    && message@ == m@),
                Some(WatchMsg::Event(e)) => if event_is_worthy(e.kind) {
                    r matches Some(Ok(p)) && p.info == &self.package_info
                } else {
                    r is None
                },
            },
    {
        match msg {
            None => Some(Err(NextError::ChannelClosed)),
            Some(WatchMsg::Error(message)) => Some(Err(NextError::Notify { message })),
            Some(WatchMsg::Event(event)) => {
                if check_raw_event(&event) {
                    Some(Ok(self.package()))
                } else {
                    None
                }
            },
        }
    }

    /// Block until one message arrives (or the channel closes), and decide
    /// what it means: `None` when the message was an unworthy event and the
    /// wait must go on. A wait for the next rebuild-worthy signal is a loop
    /// over this step; the loop cannot be bounded, since the caller may
    /// simply never touch a watched file.
    pub fn next_step(&self) -> (r: Option<Result<Package, NextError>>)
        ensures
            r matches Some(Ok(p)) ==> p.info == &self.package_info,
    {
        let msg = recv_msg(&self.event_rx);
        self.handle_msg(msg)
    }

    /// Drain the events buffered at the moment of the call, without
    /// blocking: the first rebuild-worthy one yields `Some` package, an
    /// error event fails as a wait does, a disconnected channel fails with
    /// `ChannelClosed`, and a buffer with no worthy event yields `None`.
    pub fn try_next(&self) -> (r: Result<Option<Package>, NextError>)
        ensures
            r matches Ok(Some(p)) ==> p.info == &self.package_info,
    {
        // One poll more than the buffered count, so that a channel whose
        // buffer is drained (or was empty) still reports emptiness or
        // disconnection rather than being skipped.
        let mut remaining: usize = queue_len(&self.event_rx);
        loop
            decreases remaining,
        {
            match try_recv_msg(&self.event_rx) {
                Polled::Empty => {
                    return Ok(None);
                },
                Polled::Closed => {
                    return Err(NextError::ChannelClosed);
                },
                Polled::Msg(m) => {
                    match self.handle_msg(Some(m)) {
                        Some(Ok(p)) => {
                            return Ok(Some(p));
                        },
                        Some(Err(e)) => {
                            return Err(e);
                        },
                        None => {},
                    }
                },
            }
            if remaining == 0 {
                return Ok(None);
            }
            remaining -= 1;
        }
    }
}

} // verus!
