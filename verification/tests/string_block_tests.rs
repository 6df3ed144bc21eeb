//! The string block: deobfuscation, lookup by offset, and exact re-encoding.

use wld_codec::error::WldError;
use wld_codec::string_block::StringBlock;

const MASK: [u8; 8] = [0x95, 0x3A, 0xC5, 0x2A, 0x95, 0x7A, 0x95, 0x6A];

/// Obfuscate plain text the way a compliant writer would, so the tests can
/// fabricate raw blocks.
fn obfuscate(plain: &[u8]) -> Vec<u8> {
    plain
        .iter()
        .enumerate()
        .map(|(i, b)| b ^ MASK[i % 8])
        .collect()
}

fn sample_plain() -> Vec<u8> {
    // Offset 0 is the leading null; -1 names "HELLO", -7 names "WORLD".
    b"\0HELLO\0WORLD\0".to_vec()
}

#[test]
fn decode_recovers_plain_text() {
    let raw = obfuscate(&sample_plain());
    let block = StringBlock::decode(&raw);
    assert_eq!(block.len(), raw.len());
    assert_eq!(block.text_at(-1).unwrap(), b"HELLO".to_vec());
    assert_eq!(block.text_at(-7).unwrap(), b"WORLD".to_vec());
}

#[test]
fn offset_zero_is_empty() {
    let raw = obfuscate(&sample_plain());
    let block = StringBlock::decode(&raw);
    assert_eq!(block.text_at(0).unwrap(), Vec::<u8>::new());
}

#[test]
fn decode_is_idempotent() {
    let raw = obfuscate(&sample_plain());
    let once = StringBlock::decode(&raw);
    let twice = StringBlock::decode(&raw);
    assert_eq!(once.encode(), twice.encode());
    for offset in -12..=0 {
        assert_eq!(once.text_at(offset), twice.text_at(offset));
    }
}

#[test]
fn encode_reproduces_raw_bytes() {
    let raw = obfuscate(&sample_plain());
    let block = StringBlock::decode(&raw);
    assert_eq!(block.encode(), raw);
}

#[test]
fn out_of_range_offsets_are_rejected() {
    let raw = obfuscate(&sample_plain());
    let block = StringBlock::decode(&raw);
    assert_eq!(block.text_at(1), Err(WldError::OffsetOutOfRange));
    let beyond = -(raw.len() as i32) - 1;
    assert_eq!(block.text_at(beyond), Err(WldError::OffsetOutOfRange));
}

#[test]
fn run_without_terminator_stops_at_block_end() {
    let raw = obfuscate(b"\0AB");
    let block = StringBlock::decode(&raw);
    assert_eq!(block.text_at(-1).unwrap(), b"AB".to_vec());
    // The position one past the end names the empty run.
    assert_eq!(block.text_at(-3).unwrap(), Vec::<u8>::new());
}

#[test]
fn empty_block_round_trips() {
    let block = StringBlock::decode(&[]);
    assert_eq!(block.len(), 0);
    assert_eq!(block.encode(), Vec::<u8>::new());
    assert_eq!(block.text_at(0).unwrap(), Vec::<u8>::new());
    assert_eq!(block.text_at(-1), Err(WldError::OffsetOutOfRange));
}
