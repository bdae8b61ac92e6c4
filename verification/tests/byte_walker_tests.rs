//! Tests of the byte cursors: little-endian reads and writes, clamping,
//! growth, and the eight-byte swaps.

use dats::byte_walker::SliceByteWalker;
use dats::byte_walker::VecByteWalker;
use dats::error::DatError;

#[test]
fn swapping_8_bytes() {
    let data: Vec<u8> = (0..100u8).collect();
    let mut walker = VecByteWalker::on(data);

    let bytes_at_6 = u64::from_le_bytes([6, 7, 8, 9, 10, 11, 12, 13]);
    let bytes_at_20 = u64::from_le_bytes([20, 21, 22, 23, 24, 25, 26, 27]);

    assert_eq!(walker.read_u64_le_at(6).unwrap(), bytes_at_6);
    assert_eq!(walker.read_u64_le_at(20).unwrap(), bytes_at_20);

    walker.swap_8_bytes(6, 20);

    assert_eq!(walker.read_u64_le_at(20).unwrap(), bytes_at_6);
    assert_eq!(walker.read_u64_le_at(6).unwrap(), bytes_at_20);

    walker.swap_8_bytes_xor(6, 20);

    assert_eq!(walker.read_u64_le_at(6).unwrap(), bytes_at_6);
    assert_eq!(walker.read_u64_le_at(20).unwrap(), bytes_at_20);
}

#[test]
fn stepping_reads_little_endian_values() {
    let bytes: Vec<u8> = vec![0x01, 0x02, 0x03, 0x04, 0x05, 0x06, 0x07];
    let mut walker = SliceByteWalker::new(&bytes);
    assert_eq!(walker.step_u8().unwrap(), 0x01);
    assert_eq!(walker.step_u16().unwrap(), 0x0302);
    assert_eq!(walker.step_u32().unwrap(), 0x07060504);
    assert_eq!(walker.offset(), 7);
    assert_eq!(walker.remaining(), 0);
    assert_eq!(
        walker.step_u8(),
        Err(DatError::OutOfRange { buffer_length: 7, requested_index: 7 })
    );
}

#[test]
fn take_bytes_clamps_to_what_is_left() {
    let bytes: Vec<u8> = vec![1, 2, 3];
    let mut walker = SliceByteWalker::new(&bytes);
    walker.skip(1);
    let taken = walker.take_bytes(10);
    assert_eq!(taken, &[2, 3]);
    assert_eq!(walker.offset(), 3);
}

#[test]
fn read_bytes_at_fails_only_past_the_end() {
    let bytes: Vec<u8> = vec![9, 8, 7];
    let walker = SliceByteWalker::new(&bytes);
    assert_eq!(walker.read_bytes_at(1, 10).unwrap(), &[8, 7]);
    assert!(walker.read_bytes_at(3, 1).is_err());
}

#[test]
fn writes_append_little_endian_values() {
    let mut walker = VecByteWalker::new();
    walker.write_u32(0x04030201);
    walker.write_u16(0x0605);
    walker.write_u8(0x07);
    walker.write_bytes(&[0x08, 0x09]);
    assert_eq!(walker.into_vec(), vec![1, 2, 3, 4, 5, 6, 7, 8, 9]);
}

#[test]
fn with_size_and_set_size_zero_fill() {
    let walker = VecByteWalker::with_size(3);
    assert_eq!(walker.into_vec(), vec![0, 0, 0]);
    let mut walker = VecByteWalker::on(vec![1, 2]);
    walker.set_size(4);
    assert_eq!(walker.into_vec(), vec![1, 2, 0, 0]);
    let mut walker = VecByteWalker::on(vec![1, 2, 3]);
    walker.set_size(1);
    assert_eq!(walker.into_vec(), vec![1]);
}

#[test]
fn write_u8_at_overwrites_in_place() {
    let mut walker = VecByteWalker::on(vec![1, 2, 3]);
    walker.write_u8_at(1, 9);
    assert_eq!(walker.read_u8_at(1).unwrap(), 9);
    assert_eq!(walker.into_vec(), vec![1, 9, 3]);
}

#[test]
fn equal_swap_offsets_are_a_no_op() {
    let mut walker = VecByteWalker::on((0..32u8).collect());
    walker.swap_8_bytes(4, 4);
    assert_eq!(walker.into_vec(), (0..32u8).collect::<Vec<u8>>());
}

#[test]
fn write_bytes_at_overwrites_and_grows() {
    let mut walker = VecByteWalker::on(vec![1, 2, 3, 4]);
    walker.write_bytes_at(2, &[9, 9]);
    assert_eq!(walker.read_u8_at(2).unwrap(), 9);
    let mut walker = VecByteWalker::on(vec![1, 2]);
    walker.write_bytes_at(4, &[7, 8]);
    assert_eq!(walker.into_vec(), vec![1, 2, 0, 0, 7, 8]);
}
