use flash_loan::batch::{
    borrow_discriminator_bytes, read_le_u16, read_le_u64, repay_discriminator_bytes, AccountRef,
    Batch, BatchError, Instruction,
};
use flash_loan::identity::Identity;

fn id(tag: u8) -> Identity {
    let mut bytes = [0u8; 32];
    bytes[0] = tag;
    Identity { bytes }
}

fn plain_ix(program_tag: u8, data: Vec<u8>) -> Instruction {
    Instruction {
        program_id: id(program_tag),
        accounts: vec![AccountRef { key: id(9), is_signer: false, is_writable: false }],
        data,
    }
}

#[test]
fn count_reports_the_batch_length() {
    let batch = Batch {
        instructions: vec![plain_ix(1, vec![0; 8]), plain_ix(2, vec![1; 8])],
    };
    assert_eq!(batch.count(), 2);
    let empty = Batch { instructions: vec![] };
    assert_eq!(empty.count(), 0);
}

#[test]
fn decode_returns_the_instruction_at_the_position() {
    let batch = Batch {
        instructions: vec![plain_ix(1, vec![7; 8]), plain_ix(2, vec![8; 8])],
    };
    let ix = batch.decode(1).unwrap();
    assert_eq!(ix.program_id, id(2));
    assert_eq!(ix.data, vec![8; 8]);
}

#[test]
fn decode_out_of_range_fails() {
    let batch = Batch { instructions: vec![plain_ix(1, vec![0; 8])] };
    assert_eq!(batch.decode(1).unwrap_err(), BatchError::OutOfRange);
    let empty = Batch { instructions: vec![] };
    assert_eq!(empty.decode(0).unwrap_err(), BatchError::OutOfRange);
}

#[test]
fn decode_twice_yields_identical_results() {
    let batch = Batch {
        instructions: vec![plain_ix(3, vec![1, 2, 3, 4, 5, 6, 7, 8])],
    };
    let first = batch.decode(0).unwrap();
    let first_program = first.program_id;
    let first_data = first.data.clone();
    let second = batch.decode(0).unwrap();
    assert_eq!(second.program_id, first_program);
    assert_eq!(second.data, first_data);
    assert_eq!(batch.decode(5).unwrap_err(), batch.decode(5).unwrap_err());
}

#[test]
fn read_le_u64_decodes_little_endian() {
    let data = vec![0, 0, 0, 0, 0, 0, 0, 0, 0x15, 0xCD, 0x5B, 0x07, 0, 0, 0, 0];
    assert_eq!(read_le_u64(&data, 8), 123_456_789);
    let max = vec![0xFF; 8];
    assert_eq!(read_le_u64(&max, 0), u64::MAX);
    let one = vec![1, 0, 0, 0, 0, 0, 0, 0];
    assert_eq!(read_le_u64(&one, 0), 1);
}

#[test]
fn read_le_u16_decodes_little_endian() {
    assert_eq!(read_le_u16(&[3, 1]), 259);
    assert_eq!(read_le_u16(&[0, 0, 7]), 0);
    assert_eq!(read_le_u16(&[255, 255]), u16::MAX);
}

#[test]
fn discriminators_differ() {
    let borrow = borrow_discriminator_bytes();
    let repay = repay_discriminator_bytes();
    assert_eq!(repay, vec![234, 103, 67, 82, 208, 234, 219, 166]);
    assert_eq!(borrow.len(), 8);
    assert_ne!(borrow, repay);
}
