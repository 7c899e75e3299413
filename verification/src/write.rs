//! The write engine: a transaction that issues, one bus operation at a
//! time, the exact exchange a block write needs, and decides from each
//! response token whether the write may continue.
//!
//! A transport driver runs the loop: it asks for the next operation,
//! performs it on the wire, and hands every received response byte back to
//! be resolved. Transport faults abort the transaction on the driver's
//! side; every protocol decision is made, and verified, here.

use vstd::prelude::*;

use crate::command::command_for;
use crate::command::start_token_for;
use crate::data::{DataError, Response, Token};
use crate::protocol::{
    block_at, lemma_block_count, num_blocks, trace_len, trace_op, valid_len, BusOp,
};
use crate::{BusError, BLOCK_SIZE, BUSY_WAIT_MS, FILLER};

verus! {

/// One in-flight block-write transaction. Exactly one may be driven
/// against a bus at a time; the engine has no buffering beyond the payload
/// it carries.
pub struct WriteTransaction {
    address: u32,
    bytes: Vec<u8>,
    pos: usize,
    awaiting: bool,
    failed: bool,
}

impl WriteTransaction {
    /// Target block address of the transaction.
    pub closed spec fn spec_address(self) -> u32 {
        self.address
    }

    /// Payload the transaction writes.
    pub closed spec fn payload(self) -> Seq<u8> {
        self.bytes@
    }

    /// Number of bus operations handed out so far.
    pub closed spec fn emitted(self) -> nat {
        self.pos as nat
    }

    /// A response byte has been requested and not yet resolved.
    pub closed spec fn awaiting_response(self) -> bool {
        self.awaiting
    }

    /// The card rejected the write; the transaction is abandoned.
    pub closed spec fn has_failed(self) -> bool {
        self.failed
    }

    /// Every bus operation of the exchange has been handed out and none of
    /// the card's responses rejected the write.
    pub open spec fn complete(self) -> bool {
        &&& self.emitted() == trace_len(self.payload().len())
        &&& !self.awaiting_response()
        &&& !self.has_failed()
    }

    /// Internal consistency: the payload is a positive whole number of
    /// blocks, the engine never runs past the end of the exchange, and a
    /// pending response always belongs to the receive operation just
    /// handed out.
    pub closed spec fn wf(self) -> bool {
        &&& valid_len(self.bytes@.len())
        &&& self.pos <= trace_len(self.bytes@.len())
        &&& (self.awaiting ==> self.pos >= 1 && trace_op(
            self.address,
            self.bytes@,
            self.pos - 1,
        ) is ReceiveResponse)
        &&& (self.awaiting ==> !self.failed)
    }

    /// Opens a write transaction for `bytes` at block address `address`.
    /// The payload must be a positive whole number of blocks; the engine
    /// leaves the behavior for any other length undefined and refuses it
    /// here.
    pub fn new(address: u32, bytes: Vec<u8>) -> (t: WriteTransaction)
        requires
            bytes@.len() >= BLOCK_SIZE,
            bytes@.len() % (BLOCK_SIZE as nat) == 0,
        ensures
            t.wf(),
            t.spec_address() == address,
            t.payload() == bytes@,
            t.emitted() == 0,
            !t.awaiting_response(),
            !t.has_failed(),
    {
        WriteTransaction { address, bytes, pos: 0, awaiting: false, failed: false }
    }

    /// Hands out the next bus operation of the exchange: operation number
    /// `emitted()` of the success trace. After a receive operation the
    /// response byte must be resolved before the next operation can be
    /// asked for.
    pub fn next_op(&mut self) -> (op: BusOp)
        requires
            old(self).wf(),
            !old(self).complete(),
            !old(self).awaiting_response(),
            !old(self).has_failed(),
        ensures
            final(self).wf(),
            final(self).spec_address() == old(self).spec_address(),
            final(self).payload() == old(self).payload(),
            final(self).emitted() == old(self).emitted() + 1,
            !final(self).has_failed(),
            op@ == trace_op(
                old(self).spec_address(),
                old(self).payload(),
                old(self).emitted() as int,
            ),
            final(self).awaiting_response() <==> op@ is ReceiveResponse,
    {
        proof {
            lemma_block_count(self.bytes@.len());
        }
        let i = self.pos;
        let n = self.bytes.len() / BLOCK_SIZE;
        let op: BusOp;
        if i == 0 {
            let mut v: Vec<u8> = Vec::new();
            v.push(FILLER);
            v.push(FILLER);
            v.push(FILLER);
            v.push(FILLER);
            v.push(FILLER);
            proof {
                assert(v@ =~= seq![FILLER, FILLER, FILLER, FILLER, FILLER]);
            }
            op = BusOp::Transmit(v);
        } else if i == 1 {
            op = BusOp::Select;
        } else if i == 2 {
            op = BusOp::SendCommand(command_for(self.address, self.bytes.len()));
        } else if i < 3 + 5 * n {
            let rel = i - 3;
            let b = rel / 5;
            let s = rel % 5;
            if s == 0 {
                let mut v: Vec<u8> = Vec::new();
                v.push(start_token_for(self.bytes.len()).byte());
                proof {
                    assert(v@ =~= seq![
                        crate::command::spec_start_token(self.bytes@.len()).spec_byte(),
                    ]);
                }
                op = BusOp::Transmit(v);
            } else if s == 1 {
                op = BusOp::Transmit(self.copy_block(b));
            } else if s == 2 {
                let mut v: Vec<u8> = Vec::new();
                v.push(0u8);
                v.push(0u8);
                proof {
                    assert(v@ =~= seq![0u8, 0u8]);
                }
                op = BusOp::Transmit(v);
            } else if s == 3 {
                op = BusOp::ReceiveResponse;
            } else {
                op = BusOp::Wait(BUSY_WAIT_MS);
            }
        } else if n > 1 && i == 3 + 5 * n {
            let mut v: Vec<u8> = Vec::new();
            v.push(Token::Stop.byte());
            v.push(FILLER);
            proof {
                assert(v@ =~= seq![Token::Stop.spec_byte(), FILLER]);
            }
            op = BusOp::Transmit(v);
        } else if n > 1 && i == 4 + 5 * n {
            op = BusOp::Wait(BUSY_WAIT_MS);
        } else {
            let tl = if n > 1 {
                5 * n + 7
            } else {
                5 * n + 5
            };
            if i == tl - 2 {
                op = BusOp::Deselect;
            } else {
                let mut v: Vec<u8> = Vec::new();
                v.push(FILLER);
                proof {
                    assert(v@ =~= seq![FILLER]);
                }
                op = BusOp::Transmit(v);
            }
        }
        let awaiting = match &op {
            BusOp::ReceiveResponse => true,
            _ => false,
        };
        self.pos = i + 1;
        self.awaiting = awaiting;
        op
    }

    /// Resolves the response byte received for the pending receive
    /// operation. Only an accepted token lets the exchange continue: a
    /// recognized rejection fails the write with a transfer-level data
    /// error, and a byte matching no known token fails it with a generic
    /// bus error; either way no further operation will be handed out.
    pub fn resolve_response(&mut self, byte: u8) -> (r: Result<(), BusError>)
        requires
            old(self).wf(),
            old(self).awaiting_response(),
        ensures
            final(self).wf(),
            final(self).spec_address() == old(self).spec_address(),
            final(self).payload() == old(self).payload(),
            final(self).emitted() == old(self).emitted(),
            !final(self).awaiting_response(),
            match Response::spec_decode(byte) {
                Some(Response::Accepted) => r is Ok && !final(self).has_failed(),
                Some(_) => r == Err::<(), BusError>(BusError::Transfer(DataError::Generic))
                    && final(self).has_failed(),
                None => r == Err::<(), BusError>(BusError::Generic) && final(self).has_failed(),
            },
    {
        self.awaiting = false;
        match Response::decode(byte) {
            Some(Response::Accepted) => Ok(()),
            Some(_) => {
                self.failed = true;
                Err(BusError::Transfer(DataError::Generic))
            },
            None => {
                self.failed = true;
                Err(BusError::Generic)
            },
        }
    }

    /// The transaction has handed out its whole exchange and may be
    /// dropped; the bus is released.
    pub fn is_complete(&self) -> (r: bool)
        requires
            self.wf(),
        ensures
            r == self.complete(),
    {
        proof {
            lemma_block_count(self.bytes@.len());
        }
        let n = self.bytes.len() / BLOCK_SIZE;
        let tl = if n > 1 {
            5 * n + 7
        } else {
            5 * n + 5
        };
        self.pos == tl && !self.awaiting && !self.failed
    }

    /// A response byte is pending resolution.
    pub fn is_awaiting_response(&self) -> (r: bool)
        ensures
            r == self.awaiting_response(),
    {
        self.awaiting
    }

    /// The card rejected the write.
    pub fn is_failed(&self) -> (r: bool)
        ensures
            r == self.has_failed(),
    {
        self.failed
    }

    /// Copies block `b` of the payload into a fresh buffer for
    /// transmission.
    fn copy_block(&self, b: usize) -> (v: Vec<u8>)
        requires
            valid_len(self.bytes@.len()),
            b < num_blocks(self.bytes@.len()),
        ensures
            v@ == block_at(self.bytes@, b as int),
    {
        proof {
            lemma_block_count(self.bytes@.len());
        }
        let total = self.bytes.len();
        let start = b * BLOCK_SIZE;
        proof {
            assert(start + BLOCK_SIZE <= total);
        }
        let mut v: Vec<u8> = Vec::new();
        let mut j: usize = 0;
        while j < BLOCK_SIZE
            invariant
                j <= BLOCK_SIZE,
                start == b * BLOCK_SIZE,
                start + BLOCK_SIZE <= self.bytes@.len(),
                v@ == self.bytes@.subrange(start as int, start as int + j as int),
            decreases BLOCK_SIZE - j,
        {
            v.push(self.bytes[start + j]);
            proof {
                assert(v@ =~= self.bytes@.subrange(start as int, start as int + j as int + 1));
            }
            j += 1;
        }
        proof {
            assert(v@ =~= block_at(self.bytes@, b as int));
        }
        v
    }
}

} // verus!
