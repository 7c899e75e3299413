//! Block-write transport engine for SD/MMC cards driven over an SPI bus.
//!
//! The engine plans and validates the exact, ordered exchange a block write
//! needs on the wire: framing the command, streaming each data block behind
//! its start token, decoding the card's per-block response token, and the
//! bounded busy-waits that let the card finish programming. It issues the
//! exchange one bus operation at a time, so an unverified driver can perform
//! the raw transfers while every decision stays here.

use vstd::prelude::*;

pub mod command;
pub mod data;
pub mod protocol;
pub mod write;

verus! {

/// Number of payload bytes in one card block.
pub const BLOCK_SIZE: usize = 512;

/// Ceiling, in milliseconds, of the bounded busy-wait that follows each
/// data block while the card performs internal programming.
pub const BUSY_WAIT_MS: u64 = 250;

/// All-ones filler byte used to idle the bus and to release the card's
/// data-output line.
pub const FILLER: u8 = 0xFF;

/// Failures the write engine itself reports. Faults of the raw transport
/// (a byte channel or chip-select line that cannot be driven) are the
/// driver's to propagate and are not represented here.
#[derive(Clone, Copy, Debug, PartialEq, Eq)]
pub enum BusError {
    /// The card answered a data block with a recognized token that rejects
    /// the transfer.
    Transfer(crate::data::DataError),
    /// The card's response byte matched no known token, so the exchange can
    /// no longer be trusted at the bus level.
    Generic,
}

} // verus!
