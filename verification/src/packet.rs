//! The protocol data units that a session reads and writes, as plain values.
//!
//! An attribute handle is a `u16`; an attribute value is a byte vector.

use vstd::prelude::*;

verus! {

/// Error code of an error response.
#[derive(Clone, Copy, Debug, PartialEq, Eq, Structural)]
pub enum ErrorCode {
    InvalidHandle,
    ReadNotPermitted,
    WriteNotPermitted,
    InvalidPDU,
    InsufficientAuthentication,
    RequestNotSupported,
    InvalidOffset,
    InsufficientAuthorization,
    PrepareQueueFull,
    AttributeNotFound,
    AttributeNotLong,
    InsufficientEncryptionKeySize,
    InvalidAttributeValueLength,
    UnlikelyError,
    InsufficientEncryption,
    UnsupportedGroupType,
    InsufficientResources,
    DatabaseOutOfSync,
    ValueNotAllowed,
    ApplicationError(u8),
    CommonProfileAndServiceErrorCodes(u8),
    ReservedForFutureUse(u8),
}

/// Attribute type: a 16 bit or a 128 bit UUID.
#[derive(Clone, Copy, Debug, PartialEq, Eq, Structural)]
pub enum Uuid {
    Uuid16(u16),
    Uuid128(u128),
}

/// The failure of a request: the handle in error and the reason.
#[derive(Clone, Copy, Debug, PartialEq, Eq, Structural)]
pub struct ErrorResponse {
    pub handle: u16,
    pub code: ErrorCode,
}

impl ErrorResponse {
    pub fn new(handle: u16, code: ErrorCode) -> (r: Self)
        ensures
            r == (ErrorResponse { handle, code }),
    {
        ErrorResponse { handle, code }
    }
}

#[derive(Clone, Copy, Debug, PartialEq, Eq, Structural)]
pub struct ExchangeMtuRequest {
    pub client_rx_mtu: u16,
}

#[derive(Clone, Copy, Debug, PartialEq, Eq, Structural)]
pub struct ExchangeMtuResponse {
    pub server_rx_mtu: u16,
}

#[derive(Clone, Copy, Debug, PartialEq, Eq, Structural)]
pub struct FindInformationRequest {
    pub starting_handle: u16,
    pub ending_handle: u16,
}

#[derive(Clone, Debug, PartialEq, Eq)]
pub struct FindInformationResponse {
    pub values: Vec<(u16, Uuid)>,
}

#[derive(Clone, Copy, Debug, PartialEq, Eq, Structural)]
pub struct ReadByTypeRequest {
    pub starting_handle: u16,
    pub ending_handle: u16,
    pub attribute_type: Uuid,
}

#[derive(Clone, Debug, PartialEq, Eq)]
pub struct ReadByTypeResponse {
    pub values: Vec<(u16, Vec<u8>)>,
}

#[derive(Clone, Copy, Debug, PartialEq, Eq, Structural)]
pub struct ReadRequest {
    pub attribute_handle: u16,
}

#[derive(Clone, Debug, PartialEq, Eq)]
pub struct ReadResponse {
    pub attribute_value: Vec<u8>,
}

#[derive(Clone, Copy, Debug, PartialEq, Eq, Structural)]
pub struct ReadByGroupTypeRequest {
    pub starting_handle: u16,
    pub ending_handle: u16,
    pub attribute_group_type: Uuid,
}

#[derive(Clone, Debug, PartialEq, Eq)]
pub struct ReadByGroupTypeResponse {
    pub values: Vec<(u16, u16, Vec<u8>)>,
}

#[derive(Clone, Debug, PartialEq, Eq)]
pub struct WriteRequest {
    pub attribute_handle: u16,
    pub attribute_value: Vec<u8>,
}

#[derive(Clone, Copy, Debug, PartialEq, Eq, Structural)]
pub struct WriteResponse {}

#[derive(Clone, Debug, PartialEq, Eq)]
pub struct WriteCommand {
    pub attribute_handle: u16,
    pub attribute_value: Vec<u8>,
}

#[derive(Clone, Debug, PartialEq, Eq)]
pub struct SignedWriteCommand {
    pub attribute_handle: u16,
    pub attribute_value: Vec<u8>,
    pub authentication_signature: Vec<u8>,
}

} // verus!
