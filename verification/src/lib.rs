//! Driver for the ICMU, a peripheral on an SPI bus.
//!
//! The driver turns each command of the peripheral into one bus transaction:
//! it builds the request frame, hands it to a [`transport::Transport`], and
//! gives back the data of the response.

pub mod driver;
pub mod frame;
pub mod opcode;
pub mod scratch;
pub mod transport;

pub use driver::ICMU;
