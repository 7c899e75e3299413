//! The wire-level shape of a block-write exchange: the vocabulary of bus
//! operations the engine can ask a transport driver to perform, and the
//! exact, ordered operation sequence of a successful write.

use vstd::arithmetic::div_mod::lemma_fundamental_div_mod;
use vstd::arithmetic::div_mod::lemma_fundamental_div_mod_converse;
use vstd::prelude::*;

use crate::command::{spec_command_for, spec_start_token, Command};
use crate::data::Token;
use crate::{BLOCK_SIZE, BUSY_WAIT_MS, FILLER};

verus! {

/// Specification-level image of one bus operation.
pub enum Op {
    /// Bytes transmitted to the card, in order.
    Transmit(Seq<u8>),
    /// The framed command, serialized to its wire form and transmitted by
    /// the command-encoding layer.
    SendCommand(Command),
    /// One response byte received from the card.
    ReceiveResponse,
    /// Bounded busy-wait of the given number of milliseconds for the card's
    /// internal programming.
    Wait(u64),
    /// Chip-select asserted.
    Select,
    /// Chip-select deasserted.
    Deselect,
}

/// One bus operation the engine hands to the transport driver. The driver
/// performs it verbatim; every decision about what comes next stays with
/// the engine.
#[derive(Debug, PartialEq, Eq)]
pub enum BusOp {
    /// Transmit these bytes to the card, in order.
    Transmit(Vec<u8>),
    /// Serialize and transmit the framed command.
    SendCommand(Command),
    /// Receive one response byte and resolve it with the engine.
    ReceiveResponse,
    /// Suspend for up to the given number of milliseconds.
    Wait(u64),
    /// Assert chip-select.
    Select,
    /// Deassert chip-select.
    Deselect,
}

impl View for BusOp {
    type V = Op;

    open spec fn view(&self) -> Op {
        match self {
            BusOp::Transmit(bytes) => Op::Transmit(bytes@),
            BusOp::SendCommand(cmd) => Op::SendCommand(*cmd),
            BusOp::ReceiveResponse => Op::ReceiveResponse,
            BusOp::Wait(ms) => Op::Wait(*ms),
            BusOp::Select => Op::Select,
            BusOp::Deselect => Op::Deselect,
        }
    }
}

/// A payload the engine accepts: a positive whole number of blocks.
pub open spec fn valid_len(len: nat) -> bool {
    &&& len >= BLOCK_SIZE
    &&& len % (BLOCK_SIZE as nat) == 0
}

/// Number of whole blocks in a payload of `len` bytes.
pub open spec fn num_blocks(len: nat) -> nat {
    len / (BLOCK_SIZE as nat)
}

/// A write of more than one block must end with the stop-transmission
/// sequence.
pub open spec fn has_stop_sequence(len: nat) -> bool {
    num_blocks(len) > 1
}

/// Number of bus operations in the complete exchange for a payload of
/// `len` bytes: the filler flush, select, and command; five operations per
/// block; the two-operation stop sequence of a multi-block write; deselect
/// and the final filler byte.
pub open spec fn trace_len(len: nat) -> nat {
    5 + 5 * num_blocks(len) + if has_stop_sequence(len) {
        2nat
    } else {
        0nat
    }
}

/// Block `b` of the payload.
pub open spec fn block_at(bytes: Seq<u8>, b: int) -> Seq<u8> {
    bytes.subrange(b * (BLOCK_SIZE as int), (b + 1) * (BLOCK_SIZE as int))
}

/// Bus operation number `i` of the complete, successful exchange writing
/// `bytes` at block address `address`: the bus is idled with five filler
/// bytes and selected, the command is sent, each block goes out behind its
/// start token followed by the two-byte CRC placeholder, a response token
/// is received and a busy-wait performed per block, a multi-block write is
/// closed by the stop token plus filler and one more busy-wait, and the bus
/// is deselected with one final filler byte to release the data-output
/// line.
pub open spec fn trace_op(address: u32, bytes: Seq<u8>, i: int) -> Op {
    let n = num_blocks(bytes.len()) as int;
    if i == 0 {
        Op::Transmit(seq![FILLER, FILLER, FILLER, FILLER, FILLER])
    } else if i == 1 {
        Op::Select
    } else if i == 2 {
        Op::SendCommand(spec_command_for(address, bytes.len()))
    } else if i < 3 + 5 * n {
        let s = (i - 3) % 5;
        if s == 0 {
            Op::Transmit(seq![spec_start_token(bytes.len()).spec_byte()])
        } else if s == 1 {
            Op::Transmit(block_at(bytes, (i - 3) / 5))
        } else if s == 2 {
            Op::Transmit(seq![0u8, 0u8])
        } else if s == 3 {
            Op::ReceiveResponse
        } else {
            Op::Wait(BUSY_WAIT_MS)
        }
    } else if has_stop_sequence(bytes.len()) && i == 3 + 5 * n {
        Op::Transmit(seq![Token::Stop.spec_byte(), FILLER])
    } else if has_stop_sequence(bytes.len()) && i == 4 + 5 * n {
        Op::Wait(BUSY_WAIT_MS)
    } else if i == trace_len(bytes.len()) - 2 {
        Op::Deselect
    } else {
        Op::Transmit(seq![FILLER])
    }
}

/// The complete, successful exchange writing `bytes` at block address
/// `address`, as the ordered sequence of its bus operations.
pub open spec fn success_trace(address: u32, bytes: Seq<u8>) -> Seq<Op> {
    Seq::new(trace_len(bytes.len()), |i: int| trace_op(address, bytes, i))
}

/// A valid payload consists of `num_blocks` whole blocks, and of at least
/// one.
pub proof fn lemma_block_count(len: nat)
    requires
        valid_len(len),
    ensures
        num_blocks(len) >= 1,
        (BLOCK_SIZE as nat) * num_blocks(len) == len,
{
    lemma_fundamental_div_mod(len as int, BLOCK_SIZE as int);
}

/// The five bus operations of data cycle `b` inside the exchange `tr`:
/// start token, payload block, CRC placeholder, response token, busy-wait.
pub open spec fn data_cycle_at(tr: Seq<Op>, bytes: Seq<u8>, token: Token, b: int) -> bool {
    &&& tr[3 + 5 * b] == Op::Transmit(seq![token.spec_byte()])
    &&& tr[4 + 5 * b] == Op::Transmit(block_at(bytes, b))
    &&& tr[5 + 5 * b] == Op::Transmit(seq![0u8, 0u8])
    &&& tr[6 + 5 * b] == Op::ReceiveResponse
    &&& tr[7 + 5 * b] == Op::Wait(BUSY_WAIT_MS)
}

/// Law: a payload of exactly one block is written with the single-block
/// command and exactly one token/payload/CRC/response/busy-wait cycle, and
/// no stop sequence is transmitted — the whole exchange is these ten
/// operations.
pub proof fn lemma_single_block_exchange(address: u32, bytes: Seq<u8>)
    requires
        bytes.len() == BLOCK_SIZE,
    ensures
        success_trace(address, bytes) =~= seq![
            Op::Transmit(seq![FILLER, FILLER, FILLER, FILLER, FILLER]),
            Op::Select,
            Op::SendCommand(Command::WriteBlock(address)),
            Op::Transmit(seq![Token::Start.spec_byte()]),
            Op::Transmit(bytes),
            Op::Transmit(seq![0u8, 0u8]),
            Op::ReceiveResponse,
            Op::Wait(BUSY_WAIT_MS),
            Op::Deselect,
            Op::Transmit(seq![FILLER]),
        ],
{
    lemma_block_count(bytes.len());
    assert(num_blocks(bytes.len()) == 1);
    assert(block_at(bytes, 0) =~= bytes);
}

/// Law: a payload of more than one block is written with the multi-block
/// command; one data cycle occurs per block, in address order, each behind
/// the multi-block start token; the stop token plus one filler byte and a
/// final busy-wait follow the last cycle; deselect and the final filler
/// byte close the exchange.
pub proof fn lemma_multi_block_exchange(address: u32, bytes: Seq<u8>)
    requires
        valid_len(bytes.len()),
        bytes.len() > BLOCK_SIZE,
    ensures
        ({
            let tr = success_trace(address, bytes);
            let n = num_blocks(bytes.len()) as int;
            &&& tr.len() == 5 * n + 7
            &&& tr[0] == Op::Transmit(seq![FILLER, FILLER, FILLER, FILLER, FILLER])
            &&& tr[1] == Op::Select
            &&& tr[2] == Op::SendCommand(Command::WriteMultipleBlock(address))
            &&& forall|b: int|
                0 <= b < n ==> #[trigger] data_cycle_at(
                    tr,
                    bytes,
                    Token::StartWriteMultipleBlock,
                    b,
                )
            &&& tr[3 + 5 * n] == Op::Transmit(seq![Token::Stop.spec_byte(), FILLER])
            &&& tr[4 + 5 * n] == Op::Wait(BUSY_WAIT_MS)
            &&& tr[5 + 5 * n] == Op::Deselect
            &&& tr[6 + 5 * n] == Op::Transmit(seq![FILLER])
        }),
{
    lemma_block_count(bytes.len());
    let tr = success_trace(address, bytes);
    let n = num_blocks(bytes.len()) as int;
    assert(n > 1);
    assert forall|b: int|
        0 <= b < n implies #[trigger] data_cycle_at(
        tr,
        bytes,
        Token::StartWriteMultipleBlock,
        b,
    ) by {
        lemma_fundamental_div_mod_converse(5 * b + 0, 5, b, 0);
        lemma_fundamental_div_mod_converse(5 * b + 1, 5, b, 1);
        lemma_fundamental_div_mod_converse(5 * b + 2, 5, b, 2);
        lemma_fundamental_div_mod_converse(5 * b + 3, 5, b, 3);
        lemma_fundamental_div_mod_converse(5 * b + 4, 5, b, 4);
    }
}

/// Law: exactly one command is sent per write — operation 2 of the
/// exchange, right after the bus is selected, and no other.
pub proof fn lemma_single_command(address: u32, bytes: Seq<u8>)
    requires
        valid_len(bytes.len()),
    ensures
        ({
            let tr = success_trace(address, bytes);
            &&& tr[2] == Op::SendCommand(spec_command_for(address, bytes.len()))
            &&& forall|i: int| 0 <= i < tr.len() && (#[trigger] tr[i]) is SendCommand ==> i == 2
        }),
{
    lemma_block_count(bytes.len());
}

/// Law: on the success path, chip-select is asserted exactly once, before
/// the command is sent, and deasserted exactly once, after the last
/// protocol step; exactly one filler-byte transmission follows the
/// deassertion.
pub proof fn lemma_chip_select_discipline(address: u32, bytes: Seq<u8>)
    requires
        valid_len(bytes.len()),
    ensures
        ({
            let tr = success_trace(address, bytes);
            &&& tr.len() >= 10
            &&& tr[1] == Op::Select
            &&& tr[2] == Op::SendCommand(spec_command_for(address, bytes.len()))
            &&& forall|i: int| 0 <= i < tr.len() && (#[trigger] tr[i]) is Select ==> i == 1
            &&& tr[tr.len() - 2] == Op::Deselect
            &&& forall|i: int|
                0 <= i < tr.len() && (#[trigger] tr[i]) is Deselect ==> i == tr.len() - 2
            &&& tr[tr.len() - 1] == Op::Transmit(seq![FILLER])
        }),
{
    lemma_block_count(bytes.len());
}

} // verus!
