//! The protocol handler: one decision per request.
//!
//! A request is handled in two steps. The first turns the request into the
//! database operation that it asks for and, for a write, into the event that
//! the application is owed. The second turns the outcome of that operation
//! into what goes back to the peer. Between the two the handler delivers the
//! event and hands the operation to the driver of the session, who performs
//! it: the event of a write is out before anyone knows whether the write
//! succeeds.
//!
//! No request is ever authenticated or authorized here: every operation
//! carries `false` for both, and only a signed write command is marked as
//! signed.

use std::collections::HashMap;
use tokio::sync::mpsc::{UnboundedReceiver, UnboundedSender};
use vstd::prelude::*;
use crate::database::{FindInformation, Read, ReadByGroupType, ReadByType, Write, WriteView};
use crate::event::Event;
use crate::packet::{
    ErrorCode, ErrorResponse, ExchangeMtuRequest, ExchangeMtuResponse, FindInformationRequest,
    FindInformationResponse, ReadByGroupTypeRequest, ReadByGroupTypeResponse, ReadByTypeRequest,
    ReadByTypeResponse, ReadRequest, ReadResponse, SignedWriteCommand, Uuid, WriteCommand,
    WriteRequest, WriteResponse,
};

verus! {

broadcast use vstd::std_specs::hash::group_hash_axioms;

/// The sending half of tokio's unbounded channel. Nothing is known of what
/// is inside.
#[verifier::external_type_specification]
#[verifier::external_body]
#[verifier::reject_recursive_types(T)]
pub struct ExUnboundedSender<T>(UnboundedSender<T>);

/// The receiving half of tokio's unbounded channel. Nothing is known of what
/// is inside.
#[verifier::external_type_specification]
#[verifier::external_body]
#[verifier::reject_recursive_types(T)]
pub struct ExUnboundedReceiver<T>(UnboundedReceiver<T>);

/// The three ways in which a peer writes an attribute.
#[derive(Clone, Copy, Debug, PartialEq, Eq, Structural)]
pub enum WriteKind {
    /// A write request: the peer waits for a response.
    Request,
    /// A write command: nothing goes back.
    Command,
    /// A signed write command: nothing goes back.
    SignedCommand,
}

/// What an incoming write asks for: first `event`, if there is one, goes to
/// the application; then `operation` goes to the database.
#[derive(Clone, Debug, PartialEq, Eq)]
pub struct WritePlan<T> {
    pub event: Option<Event<T>>,
    pub operation: Write,
}

/// How a write ends: what goes back to the peer, and what is left for the
/// log.
#[derive(Clone, Copy, Debug, PartialEq, Eq)]
pub struct WriteCompletion {
    pub response: Option<Result<WriteResponse, ErrorResponse>>,
    pub unreported: Option<(u16, ErrorCode)>,
}

/// The event that a write of `value` to `handle` raises, given the tokens
/// registered for writes: none for a handle without a token; for a handle
/// with one, a `Write` with a clone of that token and the bytes written.
pub open spec fn is_event_of<T: Clone>(
    tokens: Map<u16, T>,
    handle: u16,
    value: Seq<u8>,
    event: Option<Event<T>>,
) -> bool {
    match event {
        Some(e) => tokens.contains_key(handle) && cloned(tokens[handle], e.token())
            && e.payload() == value,
        None => !tokens.contains_key(handle),
    }
}

/// The database operation of a write: never authenticated, and signed only
/// for a signed write command.
pub open spec fn write_operation(kind: WriteKind, handle: u16, value: Seq<u8>) -> WriteView {
    WriteView { handle, value, authenticated: false, signed: kind == WriteKind::SignedCommand }
}

/// The error response for a failed operation: the same handle and the same
/// code.
pub open spec fn failure(error: (u16, ErrorCode)) -> ErrorResponse {
    ErrorResponse { handle: error.0, code: error.1 }
}

/// What goes back to the peer after a find information request.
pub open spec fn find_information_reply(
    outcome: Result<Vec<(u16, Uuid)>, (u16, ErrorCode)>,
) -> Result<FindInformationResponse, ErrorResponse> {
    match outcome {
        Ok(values) => Ok(FindInformationResponse { values }),
        Err(e) => Err(failure(e)),
    }
}

/// What goes back to the peer after a read by type request.
pub open spec fn read_by_type_reply(
    outcome: Result<Vec<(u16, Vec<u8>)>, (u16, ErrorCode)>,
) -> Result<ReadByTypeResponse, ErrorResponse> {
    match outcome {
        Ok(values) => Ok(ReadByTypeResponse { values }),
        Err(e) => Err(failure(e)),
    }
}

/// What goes back to the peer after a read request.
pub open spec fn read_reply(outcome: Result<Vec<u8>, (u16, ErrorCode)>) -> Result<
    ReadResponse,
    ErrorResponse,
> {
    match outcome {
        Ok(attribute_value) => Ok(ReadResponse { attribute_value }),
        Err(e) => Err(failure(e)),
    }
}

/// What goes back to the peer after a read by group type request.
pub open spec fn read_by_group_type_reply(
    outcome: Result<Vec<(u16, u16, Vec<u8>)>, (u16, ErrorCode)>,
) -> Result<ReadByGroupTypeResponse, ErrorResponse> {
    match outcome {
        Ok(values) => Ok(ReadByGroupTypeResponse { values }),
        Err(e) => Err(failure(e)),
    }
}

/// What goes back to the peer after a write: a response or an error response
/// for a request, nothing for a command.
pub open spec fn write_reply(kind: WriteKind, outcome: Result<(), (u16, ErrorCode)>) -> Option<
    Result<WriteResponse, ErrorResponse>,
> {
    match kind {
        WriteKind::Request => Some(
            match outcome {
                Ok(_) => Ok(WriteResponse {  }),
                Err(e) => Err(failure(e)),
            },
        ),
        _ => None,
    }
}

/// What a write leaves for the log: the failure of a command, which no
/// response can carry.
pub open spec fn write_unreported(kind: WriteKind, outcome: Result<(), (u16, ErrorCode)>) -> Option<
    (u16, ErrorCode),
> {
    match (kind, outcome) {
        (WriteKind::Request, _) => None,
        (_, Ok(_)) => None,
        (_, Err(e)) => Some(e),
    }
}

/// `tokio::sync::mpsc::UnboundedSender::send`: hands `event` to the channel
/// and reports whether the channel took it. The channel refuses a message
/// once its receiving half is closed or dropped, so nothing is claimed of the
/// result.
#[verifier::external_body]
fn send_event<T>(events_tx: &UnboundedSender<Event<T>>, event: Event<T>) -> (accepted: bool) {
    events_tx.send(event).is_ok()
}

/// `tokio::sync::mpsc::unbounded_channel`: the two halves of a new channel
/// without a bound. Nothing is known of either half.
#[verifier::external_body]
fn event_channel<T>() -> (halves: (UnboundedSender<Event<T>>, UnboundedReceiver<Event<T>>)) {
    tokio::sync::mpsc::unbounded_channel()
}

/// The handler of one session: the tokens of the attributes whose writes the
/// application wants to hear of, by handle, and the channel to the
/// application. Both stay as they are for the whole session.
#[verifier::reject_recursive_types(T)]
pub struct GattHandler<T> {
    write_tokens: HashMap<u16, T>,
    events_tx: UnboundedSender<Event<T>>,
}

impl<T: Clone> GattHandler<T> {
    /// The tokens registered for writes, by handle.
    pub closed spec fn write_tokens(&self) -> Map<u16, T> {
        self.write_tokens@
    }

    /// The sending half of the channel on which the application hears of
    /// writes.
    pub closed spec fn events_tx(&self) -> UnboundedSender<Event<T>> {
        self.events_tx
    }

    /// A handler for the given tokens that reports to the given channel.
    pub fn new(write_tokens: HashMap<u16, T>, events_tx: UnboundedSender<Event<T>>) -> (handler:
        Self)
        ensures
            handler.write_tokens() == write_tokens@,
            handler.events_tx() == events_tx,
    {
        GattHandler { write_tokens, events_tx }
    }

    /// A handler with a channel of its own, and the half of that channel on
    /// which the application hears of writes.
    pub fn with_events(write_tokens: HashMap<u16, T>) -> (parts: (
        Self,
        UnboundedReceiver<Event<T>>,
    ))
        ensures
            parts.0.write_tokens() == write_tokens@,
    {
        let (events_tx, events_rx) = event_channel();
        (GattHandler::new(write_tokens, events_tx), events_rx)
    }

    /// The event that a write of `value` to `handle` raises.
    pub fn write_event(&self, handle: u16, value: &Vec<u8>) -> (event: Option<Event<T>>)
        ensures
            is_event_of(self.write_tokens(), handle, value@, event),
    {
        match self.write_tokens.get(&handle) {
            Some(token) => Some(Event::Write(token.clone(), value.clone())),
            None => None,
        }
    }

    /// What a write of `value` to `handle` asks for, whichever way it came
    /// in.
    pub fn plan_write(&self, kind: WriteKind, handle: u16, value: &Vec<u8>) -> (plan: WritePlan<T>)
        ensures
            is_event_of(self.write_tokens(), handle, value@, plan.event),
            plan.operation@ == write_operation(kind, handle, value@),
    {
        let event = self.write_event(handle, value);
        let signed = match kind {
            WriteKind::SignedCommand => true,
            _ => false,
        };
        WritePlan {
            event,
            operation: Write { handle, value: value.clone(), authenticated: false, signed },
        }
    }

    /// Hands the event of a plan, if there is one, to the application's
    /// channel, and says whether the channel took it. An application that
    /// has stopped listening is no failure of the exchange: the caller goes
    /// on with the plan's operation whatever comes back.
    pub fn deliver(&self, event: Option<Event<T>>) -> (accepted: bool)
        ensures
            event is None ==> !accepted,
    {
        match event {
            Some(e) => send_event(&self.events_tx, e),
            None => false,
        }
    }

    /// Carries a plan out as far as the handler can: delivers its event, if
    /// there is one, and only then hands out its operation for the database.
    /// Whether the application took the event changes nothing.
    pub fn announce(&self, plan: WritePlan<T>) -> (operation: Write)
        ensures
            operation == plan.operation,
    {
        let WritePlan { event, operation } = plan;
        self.deliver(event);
        operation
    }

    /// An MTU exchange always succeeds, and the negotiated MTU is the one
    /// that the client proposed: it is not clamped to any maximum of the
    /// server.
    pub fn handle_exchange_mtu_request(&self, item: &ExchangeMtuRequest) -> (response: Result<
        ExchangeMtuResponse,
        ErrorResponse,
    >)
        ensures
            response == Ok::<ExchangeMtuResponse, ErrorResponse>(
                ExchangeMtuResponse { server_rx_mtu: item.client_rx_mtu },
            ),
    {
        Ok(ExchangeMtuResponse { server_rx_mtu: item.client_rx_mtu })
    }

    /// A find information request asks for the attributes between its two
    /// handles, both included.
    pub fn handle_find_information_request(&self, item: &FindInformationRequest) -> (operation:
        FindInformation)
        ensures
            operation == (FindInformation { start: item.starting_handle, end: item.ending_handle }),
    {
        FindInformation { start: item.starting_handle, end: item.ending_handle }
    }

    /// A read by type request asks for the attributes of its type between
    /// its two handles, both included.
    pub fn handle_read_by_type_request(&self, item: &ReadByTypeRequest) -> (operation: ReadByType)
        ensures
            operation == (ReadByType {
                start: item.starting_handle,
                end: item.ending_handle,
                attribute_type: item.attribute_type,
                authenticated: false,
                authorized: false,
            }),
    {
        ReadByType {
            start: item.starting_handle,
            end: item.ending_handle,
            attribute_type: item.attribute_type,
            authenticated: false,
            authorized: false,
        }
    }

    /// A read request asks for the value of its attribute.
    pub fn handle_read_request(&self, item: &ReadRequest) -> (operation: Read)
        ensures
            operation == (Read {
                handle: item.attribute_handle,
                authenticated: false,
                authorized: false,
            }),
    {
        Read { handle: item.attribute_handle, authenticated: false, authorized: false }
    }

    /// A read by group type request asks for the groups of its type between
    /// its two handles, both included.
    pub fn handle_read_by_group_type_request(&self, item: &ReadByGroupTypeRequest) -> (operation:
        ReadByGroupType)
        ensures
            operation == (ReadByGroupType {
                start: item.starting_handle,
                end: item.ending_handle,
                attribute_group_type: item.attribute_group_type,
                authenticated: false,
                authorized: false,
            }),
    {
        ReadByGroupType {
            start: item.starting_handle,
            end: item.ending_handle,
            attribute_group_type: item.attribute_group_type,
            authenticated: false,
            authorized: false,
        }
    }

    /// A write request raises the event of its handle and asks for a plain
    /// write.
    pub fn handle_write_request(&self, item: &WriteRequest) -> (plan: WritePlan<T>)
        ensures
            is_event_of(
                self.write_tokens(),
                item.attribute_handle,
                item.attribute_value@,
                plan.event,
            ),
            plan.operation@ == write_operation(
                WriteKind::Request,
                item.attribute_handle,
                item.attribute_value@,
            ),
    {
        self.plan_write(WriteKind::Request, item.attribute_handle, &item.attribute_value)
    }

    /// A write command raises the event of its handle and asks for a plain
    /// write.
    pub fn handle_write_command(&self, item: &WriteCommand) -> (plan: WritePlan<T>)
        ensures
            is_event_of(
                self.write_tokens(),
                item.attribute_handle,
                item.attribute_value@,
                plan.event,
            ),
            plan.operation@ == write_operation(
                WriteKind::Command,
                item.attribute_handle,
                item.attribute_value@,
            ),
    {
        self.plan_write(WriteKind::Command, item.attribute_handle, &item.attribute_value)
    }

    /// A signed write command raises the event of its handle and asks for a
    /// signed write. The signature itself is not looked at here.
    pub fn handle_signed_write_command(&self, item: &SignedWriteCommand) -> (plan: WritePlan<T>)
        ensures
            is_event_of(
                self.write_tokens(),
                item.attribute_handle,
                item.attribute_value@,
                plan.event,
            ),
            plan.operation@ == write_operation(
                WriteKind::SignedCommand,
                item.attribute_handle,
                item.attribute_value@,
            ),
    {
        self.plan_write(WriteKind::SignedCommand, item.attribute_handle, &item.attribute_value)
    }
}

/// The response to a find information request, from the outcome of its
/// operation.
pub fn find_information_response(outcome: Result<Vec<(u16, Uuid)>, (u16, ErrorCode)>) -> (response:
    Result<FindInformationResponse, ErrorResponse>)
    ensures
        response == find_information_reply(outcome),
{
    match outcome {
        Ok(values) => Ok(FindInformationResponse { values }),
        Err((handle, code)) => Err(ErrorResponse::new(handle, code)),
    }
}

/// The response to a read by type request, from the outcome of its
/// operation.
pub fn read_by_type_response(outcome: Result<Vec<(u16, Vec<u8>)>, (u16, ErrorCode)>) -> (response:
    Result<ReadByTypeResponse, ErrorResponse>)
    ensures
        response == read_by_type_reply(outcome),
{
    match outcome {
        Ok(values) => Ok(ReadByTypeResponse { values }),
        Err((handle, code)) => Err(ErrorResponse::new(handle, code)),
    }
}

/// The response to a read request, from the outcome of its operation.
pub fn read_response(outcome: Result<Vec<u8>, (u16, ErrorCode)>) -> (response: Result<
    ReadResponse,
    ErrorResponse,
>)
    ensures
        response == read_reply(outcome),
{
    match outcome {
        Ok(attribute_value) => Ok(ReadResponse { attribute_value }),
        Err((handle, code)) => Err(ErrorResponse::new(handle, code)),
    }
}

/// The response to a read by group type request, from the outcome of its
/// operation.
pub fn read_by_group_type_response(
    outcome: Result<Vec<(u16, u16, Vec<u8>)>, (u16, ErrorCode)>,
) -> (response: Result<ReadByGroupTypeResponse, ErrorResponse>)
    ensures
        response == read_by_group_type_reply(outcome),
{
    match outcome {
        Ok(values) => Ok(ReadByGroupTypeResponse { values }),
        Err((handle, code)) => Err(ErrorResponse::new(handle, code)),
    }
}

/// The response to a write request, from the outcome of its operation.
pub fn write_response(outcome: Result<(), (u16, ErrorCode)>) -> (response: Result<
    WriteResponse,
    ErrorResponse,
>)
    ensures
        write_reply(WriteKind::Request, outcome) == Some(response),
{
    match outcome {
        Ok(_) => Ok(WriteResponse {  }),
        Err((handle, code)) => Err(ErrorResponse::new(handle, code)),
    }
}

/// How a write ends, whichever way it came in: a request is answered and
/// leaves nothing for the log; a command is never answered, and its failure
/// is left for the log.
pub fn complete_write(kind: WriteKind, outcome: Result<(), (u16, ErrorCode)>) -> (done:
    WriteCompletion)
    ensures
        done.response == write_reply(kind, outcome),
        done.unreported == write_unreported(kind, outcome),
{
    match kind {
        WriteKind::Request => WriteCompletion {
            response: Some(write_response(outcome)),
            unreported: None,
        },
        _ => match outcome {
            Ok(_) => WriteCompletion { response: None, unreported: None },
            Err(e) => WriteCompletion { response: None, unreported: Some(e) },
        },
    }
}

/// A write to a handle that has a token raises one event, with a clone of
/// that token and exactly the bytes written, whichever way the write came in
/// and however the database answers it: the event is fixed before the
/// operation is performed.
pub proof fn lemma_registered_write_raises_its_event<T: Clone>(
    tokens: Map<u16, T>,
    handle: u16,
    value: Seq<u8>,
    event: Option<Event<T>>,
)
    requires
        tokens.contains_key(handle),
        is_event_of(tokens, handle, value, event),
    ensures
        event is Some,
        cloned(tokens[handle], event->0.token()),
        event->0.payload() == value,
{
}

/// A write to a handle without a token raises no event.
pub proof fn lemma_unregistered_write_raises_no_event<T: Clone>(
    tokens: Map<u16, T>,
    handle: u16,
    value: Seq<u8>,
    event: Option<Event<T>>,
)
    requires
        !tokens.contains_key(handle),
        is_event_of(tokens, handle, value, event),
    ensures
        event is None,
{
}

/// The failure of an operation goes back to the peer with the same handle
/// and the same code, whatever the request was.
pub proof fn lemma_failure_goes_back_unchanged(handle: u16, code: ErrorCode)
    ensures
        find_information_reply(Err((handle, code))) == Err::<
            FindInformationResponse,
            ErrorResponse,
        >(ErrorResponse { handle, code }),
        read_by_type_reply(Err((handle, code))) == Err::<ReadByTypeResponse, ErrorResponse>(
            ErrorResponse { handle, code },
        ),
        read_reply(Err((handle, code))) == Err::<ReadResponse, ErrorResponse>(
            ErrorResponse { handle, code },
        ),
        read_by_group_type_reply(Err((handle, code))) == Err::<
            ReadByGroupTypeResponse,
            ErrorResponse,
        >(ErrorResponse { handle, code }),
        write_reply(WriteKind::Request, Err((handle, code))) == Some(
            Err::<WriteResponse, ErrorResponse>(ErrorResponse { handle, code }),
        ),
{
}

/// A write command, signed or not, is never answered, not even when the
/// database refuses the write: the failure is left for the log.
pub proof fn lemma_command_is_never_answered(kind: WriteKind, outcome: Result<(), (u16, ErrorCode)>)
    requires
        kind != WriteKind::Request,
    ensures
        write_reply(kind, outcome) is None,
        write_unreported(kind, outcome) == match outcome {
            Ok(_) => None::<(u16, ErrorCode)>,
            Err(e) => Some(e),
        },
{
}

} // verus!
