//! The session registry: at most one connection for each IMEI.
//!
//! The registry owns the handles and says which handle an IMEI has. Locking
//! is the caller's: the registry itself sits behind one short-lived lock,
//! and each handle carries the lock that a workflow holds while it talks to
//! the scooter.

use crate::decimal::digits_value;
use crate::decimal::lemma_digits_value_bound;
use crate::decimal::lemma_digits_value_injective;
use crate::decimal::pow10;
use crate::server::handler::imei_number;
use crate::server::handler::is_imei;
use std::collections::HashMap;
use vstd::prelude::*;
use vstd::string::StringExecFns;

verus! {

/// The sessions of the connected scooters, each under its IMEI. `C` is the
/// handle of a connection.
pub struct Registry<C> {
    sessions: HashMap<u64, C>,
}

/// The sessions after `connection` is registered under `imei`: it takes the
/// place of whatever the IMEI had.
pub open spec fn registered<C>(sessions: Map<Seq<char>, C>, imei: Seq<char>, connection: C) -> Map<
    Seq<char>,
    C,
> {
    sessions.insert(imei, connection)
}

/// The handle that `imei` has, if it has one. It is what a checkout hands
/// out, and what a registration or a removal displaces.
pub open spec fn session_of<C>(sessions: Map<Seq<char>, C>, imei: Seq<char>) -> Option<C> {
    if sessions.contains_key(imei) {
        Some(sessions[imei])
    } else {
        None
    }
}

/// The sessions after the one of `imei` is removed.
pub open spec fn unregistered<C>(sessions: Map<Seq<char>, C>, imei: Seq<char>) -> Map<
    Seq<char>,
    C,
> {
    sessions.remove(imei)
}

/// What a checkout answers where `imei` has no session.
pub open spec fn not_found_text(imei: Seq<char>) -> Seq<char> {
    "Client with IMEI "@ + imei + " not found"@
}

/// Different IMEIs have different numbers.
proof fn lemma_imei_numbers_differ(a: Seq<char>, b: Seq<char>)
    requires
        is_imei(a),
        is_imei(b),
        a != b,
    ensures
        digits_value(a) as u64 != digits_value(b) as u64,
{
    reveal_with_fuel(pow10, 16);
    lemma_digits_value_bound(a);
    lemma_digits_value_bound(b);
    if digits_value(a) == digits_value(b) {
        lemma_digits_value_injective(a, b);
    }
}

impl<C> Registry<C> {
    /// The sessions, each under the text of its IMEI.
    pub closed spec fn view(&self) -> Map<Seq<char>, C> {
        Map::new(
            |imei: Seq<char>|
                is_imei(imei) && self.sessions@.contains_key(digits_value(imei) as u64),
            |imei: Seq<char>| self.sessions@[digits_value(imei) as u64],
        )
    }

    /// Every session is kept under an IMEI, and an IMEI has at most one:
    /// the sessions are a map.
    pub proof fn lemma_sessions_are_under_imeis(&self)
        ensures
            forall|imei: Seq<char>| self@.contains_key(imei) ==> is_imei(imei),
    {
    }

    /// A registry without sessions.
    pub fn new() -> (registry: Self)
        ensures
            registry@ == Map::<Seq<char>, C>::empty(),
    {
        Registry { sessions: HashMap::new() }
    }

    /// Registers `connection` under `imei` and hands back the connection
    /// that it displaces, for the caller to close. A text that is no IMEI
    /// gets no session: the connection itself comes back.
    pub fn register(&mut self, imei: &str, connection: C) -> (displaced: Option<C>)
        ensures
            is_imei(imei@) ==> final(self)@ == registered(old(self)@, imei@, connection)
                && displaced == session_of(old(self)@, imei@),
            !is_imei(imei@) ==> final(self)@ == old(self)@ && displaced == Some(connection),
    {
        match imei_number(imei) {
            Some(key) => {
                let displaced = self.sessions.insert(key, connection);
                proof {
                    assert forall|other: Seq<char>|
                        is_imei(other) && other != imei@ implies digits_value(other) as u64
                        != key by {
                        lemma_imei_numbers_differ(other, imei@);
                    }
                }
                displaced
            },
            None => Some(connection),
        }
    }

    /// The handle of the session of `imei`. An IMEI without a session is
    /// answered with a message that names it.
    pub fn checkout(&self, imei: &str) -> (handle: Result<&C, String>)
        ensures
            match handle {
                Ok(connection) => session_of(self@, imei@) == Some(*connection),
                Err(message) => session_of(self@, imei@) is None && message@ == not_found_text(
                    imei@,
                ),
            },
    {
        let found = match imei_number(imei) {
            Some(key) => self.sessions.get(&key),
            None => None,
        };
        match found {
            Some(connection) => Ok(connection),
            None => {
                let mut message = String::from_str("Client with IMEI ");
                message.append(imei);
                message.append(" not found");
                Err(message)
            },
        }
    }

    /// Removes the session of `imei` and hands back its connection, for the
    /// caller to close.
    pub fn unregister(&mut self, imei: &str) -> (removed: Option<C>)
        ensures
            final(self)@ == unregistered(old(self)@, imei@),
            removed == session_of(old(self)@, imei@),
    {
        match imei_number(imei) {
            Some(key) => {
                let removed = self.sessions.remove(&key);
                proof {
                    assert forall|other: Seq<char>|
                        is_imei(other) && other != imei@ implies digits_value(other) as u64
                        != key by {
                        lemma_imei_numbers_differ(other, imei@);
                    }
                }
                removed
            },
            None => None,
        }
    }
}

/// A second registration under an IMEI displaces the first: the IMEI then
/// has the second connection, and the caller is handed the first.
pub proof fn lemma_registration_replaces<C>(
    sessions: Map<Seq<char>, C>,
    imei: Seq<char>,
    first: C,
    second: C,
)
    ensures
        session_of(registered(sessions, imei, first), imei) == Some(first),
        session_of(registered(registered(sessions, imei, first), imei, second), imei) == Some(
            second,
        ),
        registered(registered(sessions, imei, first), imei, second) == registered(
            sessions,
            imei,
            second,
        ),
{
    assert(registered(registered(sessions, imei, first), imei, second) =~= registered(
        sessions,
        imei,
        second,
    ));
}

/// Registering and removing touch one IMEI only: every other IMEI keeps
/// the session it had.
pub proof fn lemma_other_sessions_stay<C>(
    sessions: Map<Seq<char>, C>,
    imei: Seq<char>,
    other: Seq<char>,
    connection: C,
)
    requires
        imei != other,
    ensures
        session_of(registered(sessions, imei, connection), other) == session_of(sessions, other),
        session_of(unregistered(sessions, imei), other) == session_of(sessions, other),
        session_of(unregistered(sessions, imei), imei) is None,
{
}

} // verus!
