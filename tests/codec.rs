use eth2_transition::codec::{
    read_bool, read_bytes, read_u32, read_u64, read_u64_list, write_bytes, write_u64,
};
use eth2_transition::fixture::build_test_state;
use eth2_transition::types::{BeaconState, Eth1Data};
use eth2_transition::wire::{read_eth1_data, write_eth1_data};

#[test]
fn u64_little_endian() {
    let mut buf = Vec::new();
    write_u64(&mut buf, 0x0102_0304_0506_0708);
    assert_eq!(buf, vec![8, 7, 6, 5, 4, 3, 2, 1]);
    assert_eq!(read_u64(&buf, 0), Some((0x0102_0304_0506_0708, 8)));
    assert_eq!(read_u64(&buf, 1), None);
    assert_eq!(read_u32(&buf, 4), Some((0x0102_0304, 8)));
}

#[test]
fn bool_reads_nonzero_as_true() {
    assert_eq!(read_bool(&[0], 0), Some((false, 1)));
    assert_eq!(read_bool(&[2], 0), Some((true, 1)));
    assert_eq!(read_bool(&[2], 1), None);
}

#[test]
fn bytes_prefixed_by_length() {
    let mut buf = Vec::new();
    write_bytes(&mut buf, &[9, 8, 7]);
    assert_eq!(buf, vec![3, 0, 0, 0, 9, 8, 7]);
    assert_eq!(read_bytes(&buf, 0), Some((vec![9, 8, 7], 7)));
    assert_eq!(read_bytes(&buf[..6], 0), None);
}

#[test]
fn list_with_short_tail_fails() {
    let data = [2u8, 0, 0, 0, 1, 0, 0, 0, 0, 0, 0, 0, 5];
    assert_eq!(read_u64_list(&data, 0), None);
    let data = [1u8, 0, 0, 0, 1, 0, 0, 0, 0, 0, 0, 0];
    assert_eq!(read_u64_list(&data, 0), Some((vec![1], 12)));
}

#[test]
fn eth1_data_round_trip() {
    let e = Eth1Data { deposit_root: vec![1; 32], deposit_count: 42, block_hash: vec![2; 32] };
    let mut buf = vec![0xAA];
    write_eth1_data(&mut buf, &e);
    assert_eq!(buf.len(), 1 + 80);
    assert_eq!(read_eth1_data(&buf, 1), Some((e, 81)));
}

#[test]
fn state_round_trip() {
    let mut s = build_test_state(3);
    s.balances[1] = 7;
    s.eth1_data_votes.push(Eth1Data { deposit_root: vec![3], deposit_count: 1, block_hash: vec![] });
    let bytes = s.serialize();
    let (back, used) = BeaconState::deserialize(&bytes).unwrap();
    assert_eq!(used, bytes.len());
    assert_eq!(back, s);
    let mut longer = bytes.clone();
    longer.extend_from_slice(&[1, 2, 3]);
    let (back2, used2) = BeaconState::deserialize(&longer).unwrap();
    assert_eq!(used2, bytes.len());
    assert_eq!(back2, s);
}

#[test]
fn empty_state_round_trip() {
    let s = BeaconState::default();
    let bytes = s.serialize();
    let (back, used) = BeaconState::deserialize(&bytes).unwrap();
    assert_eq!(used, bytes.len());
    assert_eq!(back, s);
    assert_eq!(BeaconState::deserialize(&bytes[..bytes.len() - 1]), None);
}
