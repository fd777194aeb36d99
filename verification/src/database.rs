//! The operations that a session asks of the attribute database, and what the
//! database answers.
//!
//! The database itself is not part of this crate. A request is turned into
//! one of the operations below; whoever drives the session performs it and
//! hands the outcome back. An outcome is `Ok` with what was found, or `Err`
//! with the handle in error and the error code.

use vstd::prelude::*;
use crate::packet::Uuid;

verus! {

/// List the attributes with a handle in `start..=end`, each with its type.
#[derive(Clone, Copy, Debug, PartialEq, Eq, Structural)]
pub struct FindInformation {
    pub start: u16,
    pub end: u16,
}

/// Read the attributes of type `attribute_type` with a handle in
/// `start..=end`.
#[derive(Clone, Copy, Debug, PartialEq, Eq, Structural)]
pub struct ReadByType {
    pub start: u16,
    pub end: u16,
    pub attribute_type: Uuid,
    pub authenticated: bool,
    pub authorized: bool,
}

/// Read the value of one attribute.
#[derive(Clone, Copy, Debug, PartialEq, Eq, Structural)]
pub struct Read {
    pub handle: u16,
    pub authenticated: bool,
    pub authorized: bool,
}

/// Read the groups of type `attribute_group_type` with a handle in
/// `start..=end`.
#[derive(Clone, Copy, Debug, PartialEq, Eq, Structural)]
pub struct ReadByGroupType {
    pub start: u16,
    pub end: u16,
    pub attribute_group_type: Uuid,
    pub authenticated: bool,
    pub authorized: bool,
}

/// Write `value` to one attribute. `signed` is set for a write that arrived
/// as a signed command, and for no other.
#[derive(Clone, Debug, PartialEq, Eq)]
pub struct Write {
    pub handle: u16,
    pub value: Vec<u8>,
    pub authenticated: bool,
    pub signed: bool,
}

/// A write operation with its bytes as a sequence.
pub struct WriteView {
    pub handle: u16,
    pub value: Seq<u8>,
    pub authenticated: bool,
    pub signed: bool,
}

impl View for Write {
    type V = WriteView;

    open spec fn view(&self) -> WriteView {
        WriteView {
            handle: self.handle,
            value: self.value@,
            authenticated: self.authenticated,
            signed: self.signed,
        }
    }
}

} // verus!
