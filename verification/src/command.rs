//! Command framing: choosing the single-block or multi-block write command
//! for a payload, and the start token that choice commits the data phase to.

use vstd::prelude::*;

use crate::data::Token;
use crate::BLOCK_SIZE;

verus! {

/// Outgoing card instruction, parameterized by a 32-bit block address.
/// Immutable once constructed; serialization to wire bytes is the transport
/// layer's concern.
#[derive(Clone, Copy, Debug, PartialEq, Eq)]
pub enum Command {
    /// Write exactly one block at the given block address.
    WriteBlock(u32),
    /// Write more than one block starting at the given block address.
    WriteMultipleBlock(u32),
}

/// Command framed for a write of `len` payload bytes at `address`: the
/// single-block variant exactly when the payload is one block long.
pub open spec fn spec_command_for(address: u32, len: nat) -> Command {
    if len == BLOCK_SIZE {
        Command::WriteBlock(address)
    } else {
        Command::WriteMultipleBlock(address)
    }
}

/// Start token the data phase must use for a write of `len` payload bytes:
/// `Start` for a single-block write, `StartWriteMultipleBlock` for every
/// block of a multi-block write.
pub open spec fn spec_start_token(len: nat) -> Token {
    if len == BLOCK_SIZE {
        Token::Start
    } else {
        Token::StartWriteMultipleBlock
    }
}

/// Chooses the command variant for a write of `len` payload bytes at
/// `address`.
pub fn command_for(address: u32, len: usize) -> (r: Command)
    ensures
        r == spec_command_for(address, len as nat),
{
    if len == BLOCK_SIZE {
        Command::WriteBlock(address)
    } else {
        Command::WriteMultipleBlock(address)
    }
}

/// Chooses the start token for a write of `len` payload bytes.
pub fn start_token_for(len: usize) -> (r: Token)
    ensures
        r == spec_start_token(len as nat),
{
    if len == BLOCK_SIZE {
        Token::Start
    } else {
        Token::StartWriteMultipleBlock
    }
}

} // verus!
