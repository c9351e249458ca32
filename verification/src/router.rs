//! Demultiplexing of decoded messages to waiting consumers.
//!
//! The router owns the inbound message stream. For every decoded RPC
//! message it looks up and removes the one waiter registered under the
//! message's identifier and resolves it with the payload; a reply whose
//! identifier has no registered waiter is discarded silently. Every stream
//! message is published to all current subscribers (see [`crate::fanout`]).
//!
//! The waiter type `W` is the resolving half of whatever single-resolution
//! handle the surrounding runtime uses; this module only decides which
//! waiter an incoming message belongs to.
use crate::message;
use crate::rpc;
use crate::stream;
use std::collections::HashMap;
use vstd::prelude::*;

verus! {

broadcast use vstd::std_specs::hash::group_hash_axioms;

/// One single-resolution waiter slot per outstanding RPC identifier.
///
/// At most one unresolved waiter may occupy an identifier at a time; an
/// identifier becomes reusable once its waiter is removed (resolved) or
/// replaced after abandonment.
pub struct WaiterTable<W> {
    rpc: HashMap<u16, W>,
}

impl<W> View for WaiterTable<W> {
    type V = Map<u16, W>;

    closed spec fn view(&self) -> Map<u16, W> {
        self.rpc@
    }
}

impl<W> WaiterTable<W> {
    /// Create an empty table.
    pub fn new() -> (r: Self)
        ensures
            r@ == Map::<u16, W>::empty(),
    {
        WaiterTable { rpc: HashMap::new() }
    }

    /// Whether a waiter occupies `id`.
    pub fn contains(&self, id: u16) -> (r: bool)
        ensures
            r == self@.contains_key(id),
    {
        self.rpc.contains_key(&id)
    }

    /// The waiter occupying `id`, if any.
    pub fn get(&self, id: u16) -> (r: Option<&W>)
        ensures
            match r {
                Some(w) => self@.contains_key(id) && *w == self@[id],
                None => !self@.contains_key(id),
            },
    {
        self.rpc.get(&id)
    }

    /// Number of registered waiters.
    pub fn len(&self) -> (n: usize)
        ensures
            n == self@.len(),
    {
        self.rpc.len()
    }

    /// Register a waiter under `id`.
    ///
    /// Registration fails, handing the waiter back, exactly when an
    /// unresolved waiter already occupies `id`: `stale` is the caller's
    /// judgment that the present occupant (if any) has been abandoned by
    /// its caller and may be replaced.
    pub fn register(&mut self, id: u16, waiter: W, stale: bool) -> (r: Result<(), W>)
        ensures
            r is Ok <==> (!old(self)@.contains_key(id) || stale),
            match r {
                Ok(_) => final(self)@ == old(self)@.insert(id, waiter),
                Err(w) => w == waiter && final(self)@ == old(self)@,
            },
    {
        if self.rpc.contains_key(&id) && !stale {
            Err(waiter)
        } else {
            self.rpc.insert(id, waiter);
            Ok(())
        }
    }

    /// Remove and return the waiter occupying `id`, freeing the identifier
    /// for reuse.
    pub fn remove(&mut self, id: u16) -> (r: Option<W>)
        ensures
            final(self)@ == old(self)@.remove(id),
            match r {
                Some(w) => old(self)@.contains_key(id) && w == old(self)@[id],
                None => !old(self)@.contains_key(id) && final(self)@ =~= old(self)@,
            },
    {
        self.rpc.remove(&id)
    }

    /// Drop every registered waiter. The surrounding runtime does this when
    /// the connection dies: dropping a waiter's resolving half resolves its
    /// holder as disconnected.
    pub fn clear(&mut self)
        ensures
            final(self)@ == Map::<u16, W>::empty(),
    {
        self.rpc.clear();
    }
}

/// What the router must do with one decoded message.
#[allow(inconsistent_fields)]
pub enum RouterAction<W> {
    /// An RPC reply matched this registered waiter: resolve it with the
    /// payload. The waiter has been removed from the table.
    Resolve { waiter: W, payload: rpc::Payload },
    /// An RPC reply whose identifier has no registered waiter (late,
    /// duplicate, or unsolicited): discard it silently.
    Discard,
    /// A stream message: publish the payload to every subscriber.
    Publish { payload: stream::Payload },
}

/// Decide the routing of one decoded message, removing the resolved waiter
/// from the table.
///
/// An RPC message resolves exactly the waiter registered under its own
/// identifier; every other waiter is untouched. A message without a
/// matching waiter is discarded without affecting the table. A stream
/// message never touches the table.
pub fn dispatch<W>(table: &mut WaiterTable<W>, message: &message::Message) -> (r: RouterAction<W>)
    ensures
        match message.payload {
            message::Payload::RPC(rm) => {
                &&& final(table)@ == old(table)@.remove(rm.id)
                &&& if old(table)@.contains_key(rm.id) {
                    r == (RouterAction::Resolve { waiter: old(table)@[rm.id], payload: rm.payload })
                } else {
                    r == RouterAction::Discard::<W> && final(table)@ =~= old(table)@
                }
            },
            message::Payload::Stream(sm) => r == (RouterAction::Publish::<W> {
                payload: sm.payload,
            }) && final(table)@ == old(table)@,
        },
{
    match &message.payload {
        message::Payload::RPC(rm) => match table.remove(rm.id) {
            Some(waiter) => RouterAction::Resolve { waiter, payload: rm.payload },
            None => RouterAction::Discard,
        },
        message::Payload::Stream(sm) => RouterAction::Publish { payload: sm.payload },
    }
}

/// Identifier exclusivity: registering a waiter occupies its identifier,
/// so a second registration under it is refused while the first stands
/// (see [`WaiterTable::register`]); removing the waiter — its resolution —
/// frees the identifier for a new registration.
pub proof fn lemma_identifier_exclusivity<W>(table: Map<u16, W>, id: u16, w: W)
    requires
        !table.contains_key(id),
    ensures
        table.insert(id, w).contains_key(id),
        !table.insert(id, w).remove(id).contains_key(id),
{
}

/// Dispatch is exclusive: resolving the waiter under one identifier leaves
/// the waiter under any other identifier registered and unchanged.
pub proof fn lemma_dispatch_exclusive<W>(table: Map<u16, W>, id: u16, id_other: u16)
    requires
        table.contains_key(id),
        table.contains_key(id_other),
        id != id_other,
    ensures
        !table.remove(id).contains_key(id),
        table.remove(id).contains_key(id_other),
        table.remove(id)[id_other] == table[id_other],
{
}

} // verus!