//! The wire format: what a request frame holds and which bytes of a response
//! carry data.
//!
//! Every frame starts with the command's code. The peripheral answers while
//! the frame is still being clocked out, so the first byte of a response is
//! received during the command byte and carries nothing; the data follows
//! from the second byte on.

use crate::opcode::Opcode;
use vstd::prelude::*;

verus! {

/// `n` zero bytes: the filler sent while a response is clocked in.
pub open spec fn padding(n: nat) -> Seq<u8> {
    Seq::new(n, |i: int| 0u8)
}

/// The frame of a command that carries `payload`: the command's code, then
/// the payload.
pub open spec fn command_frame(op: Opcode, payload: Seq<u8>) -> Seq<u8> {
    seq![op.code()] + payload
}

/// The frame of a command that reads `n` bytes: the command's code, then `n`
/// bytes of padding.
pub open spec fn poll_frame(op: Opcode, n: nat) -> Seq<u8> {
    command_frame(op, padding(n))
}

/// The data that a response carries: all but its first byte.
pub open spec fn response_data(response: Seq<u8>) -> Seq<u8> {
    response.skip(1)
}

/// What a register poll returns for a three-byte response and the
/// transport's verdict on the transfer: status and data from the second and
/// third byte, or the transport's error.
pub open spec fn status_data<E>(response: Seq<u8>, outcome: Result<(), E>) -> Result<(u8, u8), E> {
    match outcome {
        Ok(()) => Ok((response[1], response[2])),
        Err(e) => Err(e),
    }
}

/// The data of a response leaves out exactly its first byte: it is one byte
/// shorter than the response, its byte `i` is byte `i + 1` of the response,
/// and it does not depend on what the first byte is.
pub proof fn lemma_response_data_skips_first_byte(response: Seq<u8>, first: u8)
    requires
        response.len() >= 1,
    ensures
        response_data(response).len() == response.len() - 1,
        forall|i: int|
            0 <= i < response.len() - 1 ==> response_data(response)[i] == response[i + 1],
        response_data(response.update(0, first)) == response_data(response),
{
    assert(response_data(response.update(0, first)) =~= response_data(response));
}

/// A register poll whose transfer failed returns the transport's error as it
/// is, whatever the receive buffer holds.
pub proof fn lemma_status_data_keeps_error<E>(response: Seq<u8>, e: E)
    ensures
        status_data::<E>(response, Err(e)) == Err::<(u8, u8), E>(e),
{
}

/// Copies the data of `response` into `data`, leaving out the first byte.
pub fn copy_response_data(response: &[u8], data: &mut [u8])
    requires
        response@.len() == old(data)@.len() + 1,
    ensures
        final(data)@ == response_data(response@),
{
    let n = data.len();
    let mut i: usize = 0;
    while i < n
        invariant
            n == data@.len(),
            response@.len() == n + 1,
            i <= n,
            forall|j: int| 0 <= j < i ==> data@[j] == response@[j + 1],
        decreases n - i,
    {
        data[i] = response[i + 1];
        i += 1;
    }
}

/// Reads status and data out of the response to a register poll, unless the
/// transfer failed.
pub fn read_status_data<E>(response: &[u8], outcome: Result<(), E>) -> (ret: Result<(u8, u8), E>)
    requires
        response@.len() == 3,
    ensures
        ret == status_data(response@, outcome),
{
    let status = response[1];
    let data = response[2];
    match outcome {
        Ok(()) => Ok((status, data)),
        Err(e) => Err(e),
    }
}

} // verus!
