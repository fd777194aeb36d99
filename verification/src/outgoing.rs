//! The way out: from an application token to the handle that a notification
//! or an indication is sent for.

use std::collections::HashMap;
use std::hash::Hash;
use vstd::prelude::*;
use vstd::std_specs::hash::obeys_key_model;

verus! {

broadcast use vstd::std_specs::hash::group_hash_axioms;

/// The outbound half of an ATT connection. Nothing is known of what is
/// inside.
#[verifier::external_type_specification]
#[verifier::external_body]
pub struct ExAttOutgoing(att::server::Outgoing);

/// Why the ATT connection did not take a notification.
#[verifier::external_type_specification]
#[verifier::external_body]
pub struct ExNotifyError(att::server::NotifyError);

/// Why the ATT connection gave up on an indication.
#[verifier::external_type_specification]
#[verifier::external_body]
pub struct ExIndicateError(att::server::IndicateError);

/// The way out is closed: the peer has gone, or the connection is no longer
/// served.
#[derive(Clone, Copy, Debug, PartialEq, Eq, Structural)]
pub struct OutgoingError;

impl OutgoingError {
    /// The text of the error.
    pub fn message(&self) -> (text: String)
        ensures
            text@ == "channel error"@,
    {
        "channel error".to_owned()
    }
}

/// The handle registered for `token`, if there is one.
pub open spec fn resolved<T>(handles: Map<T, u16>, token: T) -> Option<u16> {
    if handles.contains_key(token) {
        Some(handles[token])
    } else {
        None
    }
}

/// Looks `token` up among the handles registered for notifications and
/// indications.
pub fn resolve<T: Eq + Hash>(handles: &HashMap<T, u16>, token: &T) -> (handle: Option<u16>)
    requires
        obeys_key_model::<T>(),
    ensures
        handle == resolved(handles@, *token),
{
    match handles.get(token) {
        Some(handle) => Some(*handle),
        None => None,
    }
}

/// What the application is told of a notification, from what the connection
/// said of it: success for success, and the one error for any refusal.
pub fn notified(sent: Result<(), att::server::NotifyError>) -> (told: Result<(), OutgoingError>)
    ensures
        told is Ok <==> sent is Ok,
{
    match sent {
        Ok(_) => Ok(()),
        Err(_) => Err(OutgoingError),
    }
}

/// What the application is told of an indication, from what the connection
/// said of it once the peer had confirmed it or the wait had ended: success
/// for success, and the one error for any failure.
pub fn indicated(sent: Result<(), att::server::IndicateError>) -> (told: Result<(), OutgoingError>)
    ensures
        told is Ok <==> sent is Ok,
{
    match sent {
        Ok(_) => Ok(()),
        Err(_) => Err(OutgoingError),
    }
}

/// `att::server::Outgoing::notify`: queues a notification of `value` for
/// `handle` on the connection and returns at once. It fails when the
/// connection is no longer served, which no argument shows, so nothing is
/// claimed of the result.
#[verifier::external_body]
fn outbound_notify(outbound: &att::server::Outgoing, handle: u16, value: Vec<u8>) -> (sent: Result<
    (),
    att::server::NotifyError,
>) {
    outbound.notify(att::Handle::new(handle), bytes::Bytes::from(value))
}

/// The application's handle on the way out of one session: the outbound half
/// of the connection, and the handle of each token that may be notified or
/// indicated. The handles stay as they are for the whole session.
#[verifier::reject_recursive_types(T)]
pub struct Outbound<T> {
    inner: att::server::Outgoing,
    token_map: HashMap<T, u16>,
}

impl<T: Eq + Hash> Outbound<T> {
    /// The handles registered for notifications and indications, by token.
    pub closed spec fn handles(&self) -> Map<T, u16> {
        self.token_map@
    }

    /// The outbound half of the connection that notifications go to.
    pub closed spec fn link(&self) -> att::server::Outgoing {
        self.inner
    }

    pub fn new(inner: att::server::Outgoing, token_map: HashMap<T, u16>) -> (outbound: Self)
        ensures
            outbound.handles() == token_map@,
            outbound.link() == inner,
    {
        Outbound { inner, token_map }
    }

    /// The outbound half of the connection, for what only the connection can
    /// do: an indication, which waits for the peer.
    pub fn connection(&self) -> (link: &att::server::Outgoing)
        ensures
            *link == self.link(),
    {
        &self.inner
    }

    /// The handle registered for `token`, if there is one.
    pub fn handle_of(&self, token: &T) -> (handle: Option<u16>)
        requires
            obeys_key_model::<T>(),
        ensures
            handle == resolved(self.handles(), *token),
    {
        resolve(&self.token_map, token)
    }

    /// Sends a notification of `val` for the handle of `token` and returns
    /// without waiting. For a token that was never registered nothing is
    /// sent, and the answer is the error. For a registered one the
    /// connection alone decides whether the notification is taken.
    pub fn notify(&self, token: &T, val: Vec<u8>) -> (told: Result<(), OutgoingError>)
        requires
            obeys_key_model::<T>(),
        ensures
            !self.handles().contains_key(*token) ==> told is Err,
    {
        match resolve(&self.token_map, token) {
            Some(handle) => notified(outbound_notify(&self.inner, handle, val)),
            None => Err(OutgoingError),
        }
    }
}

} // verus!
