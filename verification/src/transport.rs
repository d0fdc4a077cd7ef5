//! The transport: the capability through which the driver reaches the bus.

use vstd::prelude::*;

verus! {

/// A link to one peripheral on an SPI bus.
///
/// The driver owns its transport and makes exactly one call on it per
/// operation. What a call does on the wire, and when it fails, is the
/// implementation's business: nothing here constrains it.
pub trait Transport {
    /// Why a bus operation failed.
    type Error;

    /// Sends `bytes`; nothing is received.
    fn write(&mut self, bytes: &[u8]) -> (ret: Result<(), Self::Error>);

    /// Sends `tx` and receives into `rx` at the same time: byte `i` of `rx`
    /// arrives while byte `i` of `tx` is sent. The two are of one length.
    fn transfer(&mut self, rx: &mut [u8], tx: &[u8]) -> (ret: Result<(), Self::Error>)
        requires
            old(rx)@.len() == tx@.len(),
    ;
}

/// One call on the transport, as the driver made it and as it ended.
pub enum Exchange<E> {
    /// A write-only send of `frame`.
    Write { frame: Seq<u8>, outcome: Result<(), E> },
    /// A full-duplex transfer that sent `frame` and left `response` in the
    /// receive buffer.
    Transfer { frame: Seq<u8>, response: Seq<u8>, outcome: Result<(), E> },
}

impl<E> Exchange<E> {
    /// The bytes that were handed to the transport for sending.
    pub open spec fn frame(self) -> Seq<u8> {
        match self {
            Exchange::Write { frame, .. } => frame,
            Exchange::Transfer { frame, .. } => frame,
        }
    }

    /// The bytes that the receive buffer held after the call; none for a
    /// write.
    pub open spec fn response(self) -> Seq<u8> {
        match self {
            Exchange::Write { .. } => Seq::empty(),
            Exchange::Transfer { response, .. } => response,
        }
    }

    /// What the transport returned.
    pub open spec fn outcome(self) -> Result<(), E> {
        match self {
            Exchange::Write { outcome, .. } => outcome,
            Exchange::Transfer { outcome, .. } => outcome,
        }
    }
}

} // verus!
