//! The sessions of a server.
use crate::actor::{Actor, LocalActorRef};
use crate::ident::Id;
use crate::remote::net::server::session::{RemoteSession, SessionClosed, SessionWrite};
use vstd::prelude::*;
use vstd::string::StringExecFns;

verus! {

/// Tells the store that a connection was accepted and a session started.
pub struct NewSession(pub Id, pub LocalActorRef<RemoteSession>);

/// The sessions of a server, by session identifier.
pub struct RemoteSessionStore {
    sessions: std::collections::HashMap<Id, LocalActorRef<RemoteSession>>,
}

impl Actor for RemoteSessionStore {
    open spec fn type_tag() -> Seq<char> {
        "RemoteSessionStore"@
    }

    fn actor_type() -> (name: String) {
        String::from_str("RemoteSessionStore")
    }
}

impl View for RemoteSessionStore {
    type V = Map<Id, LocalActorRef<RemoteSession>>;

    closed spec fn view(&self) -> Map<Id, LocalActorRef<RemoteSession>> {
        self.sessions@
    }
}

impl RemoteSessionStore {
    /// A store without sessions.
    pub fn new() -> (store: RemoteSessionStore)
        ensures
            store@ == Map::<Id, LocalActorRef<RemoteSession>>::empty(),
    {
        RemoteSessionStore { sessions: std::collections::HashMap::new() }
    }

    /// Keeps a new session.
    pub fn handle_new_session(&mut self, message: NewSession)
        ensures
            final(self)@ == old(self)@.insert(message.0, message.1),
    {
        self.sessions.insert(message.0, message.1);
    }

    /// Lets go of a session that has ended.
    pub fn handle_session_closed(&mut self, message: SessionClosed) -> (known: bool)
        ensures
            final(self)@ == old(self)@.remove(message.0),
            known == old(self)@.contains_key(message.0),
    {
        self.sessions.remove(&message.0).is_some()
    }

    /// Finds the session that is to send an event; an event for a session
    /// that is gone goes nowhere.
    pub fn handle_session_write(&self, message: SessionWrite) -> (forward: Option<
        (LocalActorRef<RemoteSession>, SessionWrite),
    >)
        ensures
            forward == if self@.contains_key(message.0) {
                Some((self@[message.0], message))
            } else {
                None
            },
    {
        match self.sessions.get(&message.0) {
            Some(session) => Some((session.clone(), message)),
            None => None,
        }
    }

    /// How many sessions are open.
    pub fn len(&self) -> (n: usize)
        ensures
            n == self@.len(),
    {
        self.sessions.len()
    }
}

} // verus!
