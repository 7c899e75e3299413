use sdspi::command::Command;
use sdspi::data::DataError;
use sdspi::protocol::BusOp;
use sdspi::write::WriteTransaction;
use sdspi::{BusError, BLOCK_SIZE};

/// Drives a transaction to completion or failure, performing no real bus
/// work: collects every operation the engine hands out and answers each
/// response request with the next byte of `responses`.
fn drive(txn: &mut WriteTransaction, responses: &[u8]) -> (Vec<BusOp>, Result<(), BusError>) {
    let mut ops: Vec<BusOp> = Vec::new();
    let mut next_response = 0;
    while !txn.is_complete() {
        let op = txn.next_op();
        let receive = op == BusOp::ReceiveResponse;
        ops.push(op);
        if receive {
            assert!(txn.is_awaiting_response());
            let byte = responses[next_response];
            next_response += 1;
            if let Err(e) = txn.resolve_response(byte) {
                return (ops, Err(e));
            }
        }
    }
    (ops, Ok(()))
}

#[test]
fn single_block_write_scenario() {
    let mut txn = WriteTransaction::new(100, vec![0xAA; BLOCK_SIZE]);
    let (ops, result) = drive(&mut txn, &[0x05]);
    assert!(result.is_ok());
    assert!(txn.is_complete());
    assert!(!txn.is_failed());
    let expected = vec![
        BusOp::Transmit(vec![0xFF; 5]),
        BusOp::Select,
        BusOp::SendCommand(Command::WriteBlock(100)),
        BusOp::Transmit(vec![0xFE]),
        BusOp::Transmit(vec![0xAA; BLOCK_SIZE]),
        BusOp::Transmit(vec![0x00, 0x00]),
        BusOp::ReceiveResponse,
        BusOp::Wait(250),
        BusOp::Deselect,
        BusOp::Transmit(vec![0xFF]),
    ];
    assert_eq!(ops, expected);
}

#[test]
fn multi_block_write_scenario() {
    let mut bytes: Vec<u8> = Vec::new();
    bytes.extend(vec![1u8; BLOCK_SIZE]);
    bytes.extend(vec![2u8; BLOCK_SIZE]);
    bytes.extend(vec![3u8; BLOCK_SIZE]);
    let mut txn = WriteTransaction::new(5, bytes);
    let (ops, result) = drive(&mut txn, &[0x05, 0x05, 0x05]);
    assert!(result.is_ok());
    assert!(txn.is_complete());
    let mut expected = vec![
        BusOp::Transmit(vec![0xFF; 5]),
        BusOp::Select,
        BusOp::SendCommand(Command::WriteMultipleBlock(5)),
    ];
    for fill in 1u8..=3 {
        expected.push(BusOp::Transmit(vec![0xFC]));
        expected.push(BusOp::Transmit(vec![fill; BLOCK_SIZE]));
        expected.push(BusOp::Transmit(vec![0x00, 0x00]));
        expected.push(BusOp::ReceiveResponse);
        expected.push(BusOp::Wait(250));
    }
    expected.push(BusOp::Transmit(vec![0xFD, 0xFF]));
    expected.push(BusOp::Wait(250));
    expected.push(BusOp::Deselect);
    expected.push(BusOp::Transmit(vec![0xFF]));
    assert_eq!(ops, expected);
}

#[test]
fn two_block_write_has_stop_sequence() {
    let mut txn = WriteTransaction::new(0, vec![9u8; 2 * BLOCK_SIZE]);
    let (ops, result) = drive(&mut txn, &[0x05, 0x05]);
    assert!(result.is_ok());
    assert_eq!(ops.len(), 5 * 2 + 7);
    assert_eq!(ops[2], BusOp::SendCommand(Command::WriteMultipleBlock(0)));
    assert_eq!(ops[13], BusOp::Transmit(vec![0xFD, 0xFF]));
    assert_eq!(ops[14], BusOp::Wait(250));
    assert_eq!(ops[15], BusOp::Deselect);
    assert_eq!(ops[16], BusOp::Transmit(vec![0xFF]));
}

#[test]
fn chip_select_discipline_on_success() {
    let mut txn = WriteTransaction::new(1, vec![0x55; 2 * BLOCK_SIZE]);
    let (ops, result) = drive(&mut txn, &[0x05, 0x05]);
    assert!(result.is_ok());
    assert_eq!(ops[1], BusOp::Select);
    assert!(matches!(ops[2], BusOp::SendCommand(_)));
    assert_eq!(ops[ops.len() - 2], BusOp::Deselect);
    assert_eq!(ops[ops.len() - 1], BusOp::Transmit(vec![0xFF]));
    assert_eq!(ops.iter().filter(|op| **op == BusOp::Select).count(), 1);
    assert_eq!(ops.iter().filter(|op| **op == BusOp::Deselect).count(), 1);
    assert_eq!(
        ops.iter().filter(|op| matches!(op, BusOp::SendCommand(_))).count(),
        1
    );
}

#[test]
fn write_error_on_second_block_aborts() {
    let mut txn = WriteTransaction::new(9, vec![7u8; 3 * BLOCK_SIZE]);
    let (ops, result) = drive(&mut txn, &[0x05, 0x0D]);
    assert_eq!(result, Err(BusError::Transfer(DataError::Generic)));
    assert!(txn.is_failed());
    assert!(!txn.is_complete());
    // Command, one full cycle for the first block, and the second block's
    // cycle up to its response request; the third block never reaches the
    // wire.
    let expected = vec![
        BusOp::Transmit(vec![0xFF; 5]),
        BusOp::Select,
        BusOp::SendCommand(Command::WriteMultipleBlock(9)),
        BusOp::Transmit(vec![0xFC]),
        BusOp::Transmit(vec![7u8; BLOCK_SIZE]),
        BusOp::Transmit(vec![0x00, 0x00]),
        BusOp::ReceiveResponse,
        BusOp::Wait(250),
        BusOp::Transmit(vec![0xFC]),
        BusOp::Transmit(vec![7u8; BLOCK_SIZE]),
        BusOp::Transmit(vec![0x00, 0x00]),
        BusOp::ReceiveResponse,
    ];
    assert_eq!(ops, expected);
}

#[test]
fn crc_rejection_fails_with_transfer_error() {
    let mut txn = WriteTransaction::new(3, vec![0u8; BLOCK_SIZE]);
    let (_, result) = drive(&mut txn, &[0x0B]);
    assert_eq!(result, Err(BusError::Transfer(DataError::Generic)));
    assert!(txn.is_failed());
}

#[test]
fn unrecognized_response_fails_with_generic_error() {
    let mut txn = WriteTransaction::new(3, vec![0u8; BLOCK_SIZE]);
    let (ops, result) = drive(&mut txn, &[0x1F]);
    assert_eq!(result, Err(BusError::Generic));
    assert!(txn.is_failed());
    // The exchange stops right at the rejected response: nothing after the
    // receive request went out, in particular no busy-wait and no release.
    assert_eq!(ops.last(), Some(&BusOp::ReceiveResponse));
    assert_eq!(ops.len(), 7);
}
