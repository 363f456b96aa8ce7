//! The push-channel registry: one bounded, multi-subscriber, best-effort
//! fan-out channel per session, used to deliver server-to-client messages
//! independently of the HTTP response that triggered them.

use vstd::prelude::*;

use tokio::sync::broadcast::Sender;

use crate::registry::StrTable;

verus! {

#[verifier::external_type_specification]
#[verifier::external_body]
#[verifier::reject_recursive_types(T)]
pub struct ExSender<T>(Sender<T>);

/// Bound on each channel's pending-message buffer: a subscriber that
/// falls further behind misses the overwritten messages; publishers
/// never block.
pub const CHANNEL_CAPACITY: usize = 256;

/// Relies on tokio::sync::broadcast::channel: creates a bounded
/// multi-subscriber channel and hands back the sender half. The
/// precondition rules out the capacities the call panics on.
#[verifier::external_body]
fn new_channel_sender(capacity: usize) -> Sender<String>
    requires
        1 <= capacity <= usize::MAX / 2,
{
    tokio::sync::broadcast::channel(capacity).0
}

/// Relies on tokio::sync::broadcast::Sender::clone: another handle to
/// the same underlying channel.
#[verifier::external_body]
fn clone_sender(tx: &Sender<String>) -> Sender<String> {
    tx.clone()
}

/// Relies on tokio::sync::broadcast::Sender::send: best-effort fan-out
/// to the subscribers attached right now; never blocks, and fails only
/// when no subscriber is attached. Returns whether anyone received it.
#[verifier::external_body]
fn send_message(tx: &Sender<String>, message: String) -> bool {
    tx.send(message).is_ok()
}

/// The registry of push channels, keyed by session id.
pub struct ChannelRegistry {
    table: StrTable<Sender<String>>,
}

impl ChannelRegistry {
    /// The registry's key table is well formed.
    pub closed spec fn wf(&self) -> bool {
        self.table.wf()
    }

    /// A channel exists for `id`.
    pub closed spec fn has_channel(&self, id: Seq<char>) -> bool {
        self.table.contains_id(id)
    }

    /// An empty registry.
    pub fn new() -> (r: Self)
        ensures
            r.wf(),
            forall|k: Seq<char>| !r.has_channel(k),
    {
        ChannelRegistry { table: StrTable::new() }
    }

    /// Does a channel exist for `id`?
    pub fn contains(&self, id: &str) -> (r: bool)
        ensures
            r == self.has_channel(id@),
    {
        self.table.contains(id)
    }

    /// The channel for `id`, created lazily on first use. Returns a
    /// sender handle for it.
    pub fn get_or_create(&mut self, id: &str) -> (tx: Sender<String>)
        requires
            old(self).wf(),
        ensures
            final(self).wf(),
            final(self).has_channel(id@),
            forall|k: Seq<char>|
                k != id@ ==> final(self).has_channel(k) == old(self).has_channel(k),
    {
        let existing = match self.table.get(id) {
            Some(tx) => Some(clone_sender(tx)),
            None => None,
        };
        match existing {
            Some(tx) => tx,
            None => {
                let tx = new_channel_sender(CHANNEL_CAPACITY);
                let handle = clone_sender(&tx);
                self.table.insert(id.to_owned(), tx);
                handle
            },
        }
    }

    /// A sender handle for `id`'s channel, if one exists.
    pub fn sender_for(&self, id: &str) -> (r: Option<Sender<String>>)
        requires
            self.wf(),
        ensures
            r.is_some() == self.has_channel(id@),
    {
        match self.table.get(id) {
            Some(tx) => Some(clone_sender(tx)),
            None => None,
        }
    }

    /// Publish `message` on `id`'s channel, best effort: subscribers
    /// that lag are not waited for. Returns whether a channel existed.
    pub fn publish(&self, id: &str, message: String) -> (found: bool)
        requires
            self.wf(),
        ensures
            found == self.has_channel(id@),
    {
        match self.table.get(id) {
            Some(tx) => {
                let _ = send_message(tx, message);
                true
            },
            None => false,
        }
    }

    /// Drop `id`'s channel, if any; returns whether one existed.
    pub fn remove(&mut self, id: &str) -> (removed: bool)
        requires
            old(self).wf(),
        ensures
            final(self).wf(),
            removed == old(self).has_channel(id@),
            !final(self).has_channel(id@),
            forall|k: Seq<char>|
                k != id@ ==> final(self).has_channel(k) == old(self).has_channel(k),
    {
        self.table.take(id).is_some()
    }
}

} // verus!
