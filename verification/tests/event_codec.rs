//! Tests of the event codec: decoding, the raw-bytes fallback, the error
//! taxonomy, and the encode/decode round trip.

use dats::byte_walker::SliceByteWalker;
use dats::byte_walker::VecByteWalker;
use dats::error::DatError;
use dats::event::opcode_metadata;
use dats::event::Event;
use dats::event::EventBlock;
use dats::event::EventHeader;
use dats::event::EventOpcode;
use dats::event::EventSeries;
use dats::event::ParsedData;
use dats::opcode_descriptions::determine_opcode_0x1f_size;
use dats::opcode_descriptions::determine_opcode_0x9d_size;
use dats::opcode_descriptions::resolve_opcode_size;

fn simple_event_bytes() -> Vec<u8> {
    vec![0x01, 0x00, 0x00, 0x00, 0x18, 0x00, 0x00, 0x00, 0xFF, 0xFF, 0xFF, 0x7F, 0x01, 0x00, 0x00, 0x00, 0x00, 0x00, 0x05, 0x00, 0x00, 0x00, 0x00, 0x00, 0x04, 0x00, 0x00, 0x00, 0x00, 0x00, 0x00, 0x00]
}

#[test]
fn windurst_woods_from_dat() {
    let bytes = simple_event_bytes();
    let mut walker = SliceByteWalker::new(&bytes);
    let res = Event::parse(&mut walker).unwrap();
    assert!(res.header.block_count > 0);
    assert_eq!(res.blocks.len(), 1);
    let block = &res.blocks[0];
    assert_eq!(block.actor_number, 0x7FFFFFFF);
    assert_eq!(block.tag_count, 1);
    assert_eq!(block.event_series.len(), 1);
    match &block.event_series[0].parsed_data {
        ParsedData::Opcodes(ops) => {
            assert_eq!(ops.len(), 4);
            for op in ops {
                assert_eq!(op.opcode, 0x00);
                assert!(op.params.is_empty());
            }
        },
        ParsedData::RawBytes(_) => panic!("expected decoded opcodes"),
    }
}

#[test]
fn encode_inverts_decode_simple() {
    let bytes = simple_event_bytes();
    let mut walker = SliceByteWalker::new(&bytes);
    let ev = Event::parse(&mut walker).unwrap();
    let mut out = VecByteWalker::new();
    ev.write(&mut out);
    assert_eq!(out.into_vec(), bytes);
}

#[test]
fn empty_series_decodes_and_round_trips() {
    let bytes: Vec<u8> = vec![0x01, 0x00, 0x00, 0x00, 0x20, 0x00, 0x00, 0x00, 0x2A, 0x00, 0x00, 0x00, 0x02, 0x00, 0x00, 0x00, 0x00, 0x00, 0x00, 0x00, 0x01, 0x00, 0x02, 0x00, 0x01, 0x00, 0x00, 0x00, 0xAD, 0xDE, 0x00, 0x00, 0x02, 0x00, 0x00, 0x00, 0x00, 0x00, 0xFF, 0xFF];
    let mut walker = SliceByteWalker::new(&bytes);
    let ev = Event::parse(&mut walker).unwrap();
    let block = &ev.blocks[0];
    assert_eq!(block.event_series.len(), 2);
    match &block.event_series[0].parsed_data {
        ParsedData::RawBytes(raw) => assert!(raw.is_empty()),
        _ => panic!("first series should be an empty raw payload"),
    }
    match &block.event_series[1].parsed_data {
        ParsedData::Opcodes(ops) => assert_eq!(ops.len(), 2),
        _ => panic!("second series should decode"),
    }
    let mut out = VecByteWalker::new();
    ev.write(&mut out);
    assert_eq!(out.into_vec(), bytes);
}

#[test]
fn ambiguous_opcode_falls_back_and_isolates_series() {
    let bytes: Vec<u8> = vec![0x01, 0x00, 0x00, 0x00, 0x1C, 0x00, 0x00, 0x00, 0x07, 0x00, 0x00, 0x00, 0x02, 0x00, 0x00, 0x00, 0x00, 0x00, 0x02, 0x00, 0x09, 0x00, 0x0A, 0x00, 0x00, 0x00, 0x00, 0x00, 0x03, 0x00, 0x00, 0x00, 0x31, 0x07, 0x00, 0xFF];
    let mut walker = SliceByteWalker::new(&bytes);
    let ev = Event::parse(&mut walker).unwrap();
    let block = &ev.blocks[0];
    assert_eq!(block.event_series.len(), 2);
    match &block.event_series[0].parsed_data {
        ParsedData::RawBytes(raw) => assert_eq!(raw, &vec![0x31u8, 0x07]),
        _ => panic!("ambiguous series should fall back to raw bytes"),
    }
    match &block.event_series[1].parsed_data {
        ParsedData::Opcodes(ops) => {
            assert_eq!(ops.len(), 1);
            assert_eq!(ops[0].opcode, 0x00);
        },
        _ => panic!("the next series should still decode"),
    }
    let mut out = VecByteWalker::new();
    ev.write(&mut out);
    assert_eq!(out.into_vec(), bytes);
}

#[test]
fn zero_block_count_is_rejected() {
    let bytes: Vec<u8> = vec![0, 0, 0, 0];
    let mut walker = SliceByteWalker::new(&bytes);
    let r = Event::parse(&mut walker);
    assert_eq!(r.unwrap_err(), DatError::InvalidBlockCount { count: 0 });
}

#[test]
fn oversized_block_count_is_rejected() {
    let bytes: Vec<u8> = vec![0xFF, 0xFF, 0, 0];
    let mut walker = SliceByteWalker::new(&bytes);
    let r = EventHeader::parse(&mut walker);
    assert_eq!(r.unwrap_err(), DatError::InvalidBlockCount { count: 0xFFFF });
}

#[test]
fn zero_block_size_is_rejected() {
    let bytes: Vec<u8> = vec![1, 0, 0, 0, 0, 0, 0, 0];
    let mut walker = SliceByteWalker::new(&bytes);
    let r = EventHeader::parse(&mut walker);
    assert_eq!(r.unwrap_err(), DatError::InvalidBlockSize { size: 0 });
}

#[test]
fn zero_event_data_size_is_rejected() {
    let mut bytes: Vec<u8> = Vec::new();
    bytes.extend_from_slice(&[1, 0, 0, 0]);
    bytes.extend_from_slice(&[20, 0, 0, 0]);
    bytes.extend_from_slice(&[9, 0, 0, 0]);
    bytes.extend_from_slice(&[0, 0, 0, 0]);
    bytes.extend_from_slice(&[0, 0, 0, 0]);
    bytes.extend_from_slice(&[0, 0, 0, 0]);
    let mut walker = SliceByteWalker::new(&bytes);
    let r = Event::parse(&mut walker);
    assert_eq!(r.unwrap_err(), DatError::InvalidEventDataSize { size: 0 });
}

#[test]
fn decreasing_series_bounds_are_rejected() {
    let mut bytes: Vec<u8> = Vec::new();
    bytes.extend_from_slice(&[1, 0, 0, 0]);
    bytes.extend_from_slice(&[40, 0, 0, 0]);
    bytes.extend_from_slice(&[9, 0, 0, 0]);
    bytes.extend_from_slice(&[3, 0, 0, 0]);
    bytes.extend_from_slice(&[0, 0, 2, 0, 1, 0]);
    bytes.extend_from_slice(&[1, 0, 2, 0, 3, 0]);
    bytes.extend_from_slice(&[0, 0, 0, 0]);
    bytes.extend_from_slice(&[4, 0, 0, 0]);
    bytes.extend_from_slice(&[0, 0, 0, 0]);
    let mut walker = SliceByteWalker::new(&bytes);
    let r = Event::parse(&mut walker);
    assert!(matches!(r, Err(DatError::InvalidSeriesBounds { .. })));
}

#[test]
fn metadata_covers_exactly_the_known_opcodes() {
    let meta = opcode_metadata(0x00).unwrap();
    assert_eq!(meta.sizes, vec![1usize]);
    assert!(!meta.has_resolver);
    let meta = opcode_metadata(0x59).unwrap();
    assert_eq!(meta.sizes, vec![4usize, 6, 7, 8]);
    assert!(meta.has_resolver);
    assert!(opcode_metadata(0xD9).is_some());
    assert!(opcode_metadata(0xDA).is_none());
    assert!(opcode_metadata(0xFF).is_none());
}

#[test]
fn resolver_answers_follow_the_first_parameter() {
    assert_eq!(determine_opcode_0x1f_size(0x1F, &[0x00], &[]), Some(8));
    assert_eq!(determine_opcode_0x1f_size(0x1F, &[0x01], &[]), Some(2));
    assert_eq!(determine_opcode_0x1f_size(0x1F, &[0x02], &[]), None);
    assert_eq!(determine_opcode_0x1f_size(0x1F, &[], &[]), None);
    assert_eq!(determine_opcode_0x1f_size(0x20, &[0x00], &[]), None);
    assert_eq!(resolve_opcode_size(0x1F, &[0x00], &[]), Some(8));
    assert_eq!(resolve_opcode_size(0x31, &[0x00], &[]), None);
}

#[test]
fn string_resolver_reads_its_packed_values() {
    let data = [0x0C, 0, 0, 0, 64, 0, 0, 0];
    assert_eq!(determine_opcode_0x9d_size(0x9D, &data, &[]), Some(6));
    let data = [0x0C, 0, 0, 0, 64, 0, 1, 0];
    assert_eq!(determine_opcode_0x9d_size(0x9D, &data, &[]), Some(8));
    assert_eq!(determine_opcode_0x9d_size(0x9D, &[0x08], &[]), Some(23));
}

#[test]
fn lookahead_keeps_the_single_plausible_size() {
    let bytes: Vec<u8> = vec![0x46, 0x02, 0x00, 0xFF];
    let walker = SliceByteWalker::new(&bytes);
    let sizes = vec![2usize, 4];
    let r = EventBlock::check_opcode_size_by_validity(&sizes, 0, &walker, 4);
    assert_eq!(r, Some(2));
}

#[test]
fn event_data_size_counts_opcodes_and_raw_spans() {
    let block = EventBlock {
        actor_number: 1,
        tag_count: 2,
        tag_offsets: vec![0, 3],
        event_exec_nums: vec![1, 2],
        immed_count: 0,
        immed_data: vec![],
        event_series: vec![
            EventSeries {
                id: 1,
                parsed_data: ParsedData::Opcodes(vec![EventOpcode {
                    opcode: 0x01,
                    params: vec![0xAA, 0xBB],
                }]),
            },
            EventSeries { id: 2, parsed_data: ParsedData::RawBytes(vec![1, 2, 3, 4, 5]) },
        ],
    };
    assert_eq!(block.calculate_event_data_size(), 8);
}
