//! Token and response vocabulary of the block-write protocol: the one-byte
//! framing tokens the host sends and the response token the card returns
//! after each data block.

use vstd::prelude::*;

verus! {

/// One-byte framing tokens sent ahead of (or after) block payloads.
#[derive(Clone, Copy, Debug, PartialEq, Eq)]
pub enum Token {
    /// Announces the single data block of a single-block write.
    Start,
    /// Announces each data block of a multi-block write.
    StartWriteMultipleBlock,
    /// Ends a multi-block write.
    Stop,
}

impl Token {
    /// Wire value of the token.
    pub open spec fn spec_byte(self) -> u8 {
        match self {
            Token::Start => 0xFE,
            Token::StartWriteMultipleBlock => 0xFC,
            Token::Stop => 0xFD,
        }
    }

    /// Wire value of the token.
    #[verifier::when_used_as_spec(spec_byte)]
    pub fn byte(self) -> (r: u8)
        ensures
            r == self.spec_byte(),
    {
        match self {
            Token::Start => 0xFE,
            Token::StartWriteMultipleBlock => 0xFC,
            Token::Stop => 0xFD,
        }
    }
}

/// Decoded meaning of the response token the card returns after each data
/// block. Only `Accepted` permits the write to continue.
#[derive(Clone, Copy, Debug, PartialEq, Eq)]
pub enum Response {
    /// The block was accepted; the card begins internal programming.
    Accepted,
    /// The block was rejected for a CRC mismatch.
    CrcRejected,
    /// The block was rejected for a write error.
    WriteError,
}

/// Protocol-level rejection reported when the card returns a recognized,
/// non-accepting response token.
#[derive(Clone, Copy, Debug, PartialEq, Eq)]
pub enum DataError {
    /// The card rejected a data block.
    Generic,
}

impl Response {
    /// Meaning of a raw response byte. The status sits in the low five bits
    /// (`x x x 0 s s s 1`); any byte whose masked value matches no known
    /// pattern decodes to `None`.
    pub open spec fn spec_decode(byte: u8) -> Option<Response> {
        if byte & 0x1F == 0x05 {
            Some(Response::Accepted)
        } else if byte & 0x1F == 0x0B {
            Some(Response::CrcRejected)
        } else if byte & 0x1F == 0x0D {
            Some(Response::WriteError)
        } else {
            None
        }
    }

    /// Decodes a raw response byte by masking the status bits and matching
    /// them against the known patterns.
    pub fn decode(byte: u8) -> (r: Option<Response>)
        ensures
            r == Response::spec_decode(byte),
    {
        let masked = byte & 0x1F;
        if masked == 0x05 {
            Some(Response::Accepted)
        } else if masked == 0x0B {
            Some(Response::CrcRejected)
        } else if masked == 0x0D {
            Some(Response::WriteError)
        } else {
            None
        }
    }
}

} // verus!
