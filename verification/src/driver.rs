//! The driver: one method per command of the peripheral.

use crate::frame::{
    command_frame, copy_response_data, poll_frame, read_status_data, response_data, status_data,
};
use crate::opcode::Opcode;
use crate::scratch::{Scratch, MAX_FRAME_LEN};
use crate::transport::{Exchange, Transport};
use vstd::prelude::*;

verus! {

/// Driver for one ICMU behind a transport.
///
/// Each operation stages a frame in the transmit buffer, makes one call on
/// the transport, hands the data of the response to the caller, and clears
/// both buffers again, whether or not the call succeeded.
///
/// The driver keeps a ghost trace of its calls on the transport: the frame it
/// handed over, what the receive buffer held afterwards, and what the
/// transport returned. The contracts below are stated over that trace; it is
/// erased from the compiled driver.
pub struct ICMU<T: Transport> {
    spi: T,
    buf_tx: Scratch,
    buf_rx: Scratch,
    trace: Ghost<Seq<Exchange<T::Error>>>,
}

impl<T: Transport> ICMU<T> {
    /// The transport that the driver owns.
    pub closed spec fn transport(&self) -> T {
        self.spi
    }

    /// The bytes in the transmit buffer.
    pub closed spec fn staged(&self) -> Seq<u8> {
        self.buf_tx@
    }

    /// The bytes in the receive buffer.
    pub closed spec fn received(&self) -> Seq<u8> {
        self.buf_rx@
    }

    /// Both scratch buffers are empty: the state between operations.
    pub open spec fn idle(&self) -> bool {
        self.staged().len() == 0 && self.received().len() == 0
    }

    /// Every call that the driver has made on its transport, oldest first.
    pub closed spec fn trace(&self) -> Seq<Exchange<T::Error>> {
        self.trace@
    }

    /// What the receive buffer held after the latest call on the transport.
    pub open spec fn last_response(&self) -> Seq<u8> {
        self.trace().last().response()
    }

    /// What the latest call on the transport returned.
    pub open spec fn last_outcome(&self) -> Result<(), T::Error> {
        self.trace().last().outcome()
    }

    /// A driver that owns `spi`. Nothing is sent.
    pub fn new(spi: T) -> (icmu: Self)
        ensures
            icmu.transport() == spi,
            icmu.idle(),
            icmu.trace() == Seq::<Exchange<T::Error>>::empty(),
    {
        ICMU { spi, buf_tx: Scratch::new(), buf_rx: Scratch::new(), trace: Ghost(Seq::empty()) }
    }

    /// Sends the staged frame and records the call.
    fn send(&mut self) -> (ret: Result<(), T::Error>)
        ensures
            final(self).buf_tx@ == old(self).buf_tx@,
            final(self).buf_rx@ == old(self).buf_rx@,
            final(self).trace@ == old(self).trace@.push(
                Exchange::Write { frame: old(self).buf_tx@, outcome: ret },
            ),
    {
        let ret = self.spi.write(self.buf_tx.as_slice());
        proof {
            self.trace@ = self.trace@.push(Exchange::Write { frame: self.buf_tx@, outcome: ret });
        }
        ret
    }

    /// Sends the staged frame while receiving into the receive buffer, and
    /// records the call.
    fn exchange(&mut self) -> (ret: Result<(), T::Error>)
        requires
            old(self).buf_rx@.len() == old(self).buf_tx@.len(),
        ensures
            final(self).buf_tx@ == old(self).buf_tx@,
            final(self).buf_rx@.len() == old(self).buf_rx@.len(),
            final(self).trace@ == old(self).trace@.push(
                Exchange::Transfer {
                    frame: old(self).buf_tx@,
                    response: final(self).buf_rx@,
                    outcome: ret,
                },
            ),
    {
        let ret = self.spi.transfer(self.buf_rx.as_mut_slice(), self.buf_tx.as_slice());
        proof {
            self.trace@ = self.trace@.push(
                Exchange::Transfer { frame: self.buf_tx@, response: self.buf_rx@, outcome: ret },
            );
        }
        ret
    }

    /// Activates the channels named by `active_vector`.
    pub fn activate(&mut self, active_vector: &[u8]) -> (ret: Result<(), T::Error>)
        requires
            old(self).idle(),
            active_vector@.len() < MAX_FRAME_LEN,
        ensures
            final(self).idle(),
            final(self).trace() == old(self).trace().push(
                Exchange::Write {
                    frame: command_frame(Opcode::Activate, active_vector@),
                    outcome: ret,
                },
            ),
    {
        self.buf_tx.push(Opcode::Activate.byte());
        self.buf_tx.extend_from_slice(active_vector);
        assert(self.buf_tx@ =~= command_frame(Opcode::Activate, active_vector@));

        let ret = self.send();
        self.buf_tx.clear();
        ret
    }

    /// Reads sense data: fills `data_rx` with the bytes that follow the first
    /// byte of the response. `data_rx` is filled also when the transfer fails.
    pub fn sdad_transmission(&mut self, data_rx: &mut [u8]) -> (ret: Result<(), T::Error>)
        requires
            old(self).idle(),
            old(data_rx)@.len() < MAX_FRAME_LEN,
        ensures
            final(self).idle(),
            final(self).trace() == old(self).trace().push(
                Exchange::Transfer {
                    frame: poll_frame(Opcode::SdadTransmission, old(data_rx)@.len()),
                    response: final(self).last_response(),
                    outcome: ret,
                },
            ),
            final(self).last_response().len() == old(data_rx)@.len() + 1,
            final(data_rx)@ == response_data(final(self).last_response()),
    {
        let bufsize = data_rx.len() + 1;
        self.buf_tx.push(Opcode::SdadTransmission.byte());
        self.buf_tx.resize(bufsize, 0);
        self.buf_rx.resize(bufsize, 0);
        assert(self.buf_tx@ =~= poll_frame(Opcode::SdadTransmission, old(data_rx)@.len()));

        let ret = self.exchange();
        copy_response_data(self.buf_rx.as_slice(), data_rx);
        self.buf_tx.clear();
        self.buf_rx.clear();
        ret
    }

    /// Reads the validity flags of the sense data: fills `svalid_vector` with
    /// the bytes that follow the first byte of the response. `svalid_vector`
    /// is filled also when the transfer fails.
    pub fn sdad_status(&mut self, svalid_vector: &mut [u8]) -> (ret: Result<(), T::Error>)
        requires
            old(self).idle(),
            old(svalid_vector)@.len() < MAX_FRAME_LEN,
        ensures
            final(self).idle(),
            final(self).trace() == old(self).trace().push(
                Exchange::Transfer {
                    frame: poll_frame(Opcode::SdadStatus, old(svalid_vector)@.len()),
                    response: final(self).last_response(),
                    outcome: ret,
                },
            ),
            final(self).last_response().len() == old(svalid_vector)@.len() + 1,
            final(svalid_vector)@ == response_data(final(self).last_response()),
    {
        let bufsize = svalid_vector.len() + 1;
        self.buf_tx.push(Opcode::SdadStatus.byte());
        self.buf_tx.resize(bufsize, 0);
        self.buf_rx.resize(bufsize, 0);
        assert(self.buf_tx@ =~= poll_frame(Opcode::SdadStatus, old(svalid_vector)@.len()));

        let ret = self.exchange();
        copy_response_data(self.buf_rx.as_slice(), svalid_vector);
        self.buf_tx.clear();
        self.buf_rx.clear();
        ret
    }

    /// Asks the peripheral to read the register at `addr`. The value is not
    /// received here: it is fetched by a later
    /// [`register_status_data`](Self::register_status_data).
    pub fn read_register(&mut self, addr: u8) -> (ret: Result<(), T::Error>)
        requires
            old(self).idle(),
        ensures
            final(self).idle(),
            final(self).trace() == old(self).trace().push(
                Exchange::Write {
                    frame: command_frame(Opcode::ReadRegister, seq![addr]),
                    outcome: ret,
                },
            ),
    {
        self.buf_tx.push(Opcode::ReadRegister.byte());
        self.buf_tx.push(addr);
        assert(self.buf_tx@ =~= command_frame(Opcode::ReadRegister, seq![addr]));

        let ret = self.send();
        self.buf_tx.clear();
        ret
    }

    /// Writes `data_tx` to the register at `addr`.
    pub fn write_register(&mut self, addr: u8, data_tx: u8) -> (ret: Result<(), T::Error>)
        requires
            old(self).idle(),
        ensures
            final(self).idle(),
            final(self).trace() == old(self).trace().push(
                Exchange::Write {
                    frame: command_frame(Opcode::WriteRegister, seq![addr, data_tx]),
                    outcome: ret,
                },
            ),
    {
        self.buf_tx.push(Opcode::WriteRegister.byte());
        self.buf_tx.push(addr);
        self.buf_tx.push(data_tx);
        assert(self.buf_tx@ =~= command_frame(Opcode::WriteRegister, seq![addr, data_tx]));

        let ret = self.send();
        self.buf_tx.clear();
        ret
    }

    /// Polls the outcome of the last register access: the status byte and
    /// the data byte, taken from the second and third byte of the response.
    pub fn register_status_data(&mut self) -> (ret: Result<(u8, u8), T::Error>)
        requires
            old(self).idle(),
        ensures
            final(self).idle(),
            final(self).trace() == old(self).trace().push(
                Exchange::Transfer {
                    frame: poll_frame(Opcode::RegisterStatusData, 2),
                    response: final(self).last_response(),
                    outcome: final(self).last_outcome(),
                },
            ),
            final(self).last_response().len() == 3,
            ret == status_data(final(self).last_response(), final(self).last_outcome()),
    {
        self.buf_tx.push(Opcode::RegisterStatusData.byte());
        self.buf_tx.resize(3, 0);
        self.buf_rx.resize(3, 0);
        assert(self.buf_tx@ =~= poll_frame(Opcode::RegisterStatusData, 2));

        let ret = self.exchange();
        let status_data_rx = read_status_data(self.buf_rx.as_slice(), ret);
        self.buf_tx.clear();
        self.buf_rx.clear();
        status_data_rx
    }
}

} // verus!
