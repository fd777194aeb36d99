//! What the handler tells the application.

use vstd::prelude::*;

verus! {

/// An incoming write to a characteristic that the application registered.
#[derive(Clone, Debug, PartialEq, Eq)]
pub enum Event<T> {
    /// The token of the characteristic and the bytes that the peer wrote.
    Write(T, Vec<u8>),
}

impl<T> Event<T> {
    /// The token of the characteristic written to.
    pub open spec fn token(self) -> T {
        self->Write_0
    }

    /// The bytes written.
    pub open spec fn payload(self) -> Seq<u8> {
        self->Write_1@
    }
}

} // verus!
