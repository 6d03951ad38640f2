//! The socket hub match servers connect to: which clients are connected, and
//! what to do with each event of the hub.

use vstd::prelude::*;
use std::collections::HashMap;

verus! {

broadcast use vstd::std_specs::hash::group_hash_axioms;

/// An event of the socket hub, with the means `R` of answering a client.
#[derive(Debug)]
pub enum HubEvent<R> {
    /// A client connected.
    Connect(u64, R),
    /// A client went away.
    Disconnect(u64),
    /// A client sent a message.
    Message(u64, String),
}

/// The connected clients, by id, with the means of answering each.
pub struct MatchServerConn<R> {
    clients: HashMap<u64, R>,
    outbound_queue: Vec<String>,
}

impl<R> MatchServerConn<R> {
    /// The connected clients.
    pub closed spec fn clients(&self) -> Map<u64, R> {
        self.clients@
    }

    /// Messages waiting to be sent.
    pub closed spec fn outbound(&self) -> Seq<String> {
        self.outbound_queue@
    }

    /// No client is connected yet and nothing waits to be sent.
    pub fn new() -> (r: Self)
        ensures
            r.clients() == Map::<u64, R>::empty(),
            r.outbound().len() == 0,
    {
        MatchServerConn { clients: HashMap::new(), outbound_queue: Vec::new() }
    }

    /// The means of answering client `client_id`, if it is connected.
    pub fn responder(&self, client_id: u64) -> (r: Option<&R>)
        ensures
            match r {
                Some(rs) => self.clients().contains_key(client_id) && *rs == self.clients()[client_id],
                None => !self.clients().contains_key(client_id),
            },
    {
        self.clients.get(&client_id)
    }

    /// Handles one event of the hub: a connecting client is registered, a
    /// leaving one forgotten, and a message is to be echoed back to its
    /// sender (the id and the message), if the sender is connected.
    pub fn handle_event(&mut self, event: HubEvent<R>) -> (r: Option<(u64, String)>)
        ensures
            final(self).outbound() == old(self).outbound(),
            match event {
                HubEvent::Connect(id, responder) => final(self).clients() == old(self).clients().insert(
                    id,
                    responder,
                ) && r is None,
                HubEvent::Disconnect(id) => final(self).clients() == old(self).clients().remove(id)
                    && r is None,
                HubEvent::Message(id, message) => final(self).clients() == old(self).clients() && (
                if old(self).clients().contains_key(id) {
                    r == Some((id, message))
                } else {
                    r is None
                }),
            },
    {
        match event {
            HubEvent::Connect(client_id, responder) => {
                self.clients.insert(client_id, responder);
                None
            },
            HubEvent::Disconnect(client_id) => {
                self.clients.remove(&client_id);
                None
            },
            HubEvent::Message(client_id, message) => {
                if self.clients.contains_key(&client_id) {
                    Some((client_id, message))
                } else {
                    None
                }
            },
        }
    }
}

/// A client is answered from the time it connects until it disconnects:
/// after its connection its messages are echoed to it, with the means of
/// answering it that it connected with, and after its disconnection they
/// are not; other clients are unaffected by either.
pub proof fn law_hub_answers_connected_clients<R>(clients: Map<u64, R>, id: u64, responder: R, other: u64)
    requires
        other != id,
    ensures
        clients.insert(id, responder).contains_key(id),
        clients.insert(id, responder)[id] == responder,
        !clients.remove(id).contains_key(id),
        clients.insert(id, responder).contains_key(other) == clients.contains_key(other),
        clients.remove(id).contains_key(other) == clients.contains_key(other),
{
}

} // verus!
