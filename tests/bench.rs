use eth2_transition::bench::{format_number, sum, BenchResult, Eth2BenchResult};

fn eth2_result(output_bytes: Vec<u8>, wall_times_ms: Vec<u128>) -> Eth2BenchResult {
    Eth2BenchResult {
        guest_name: "Rust".to_string(),
        num_validators: 10,
        output_bytes,
        user_cycles: 0,
        total_cycles: None,
        paging_cycles: None,
        segments: 0,
        wall_times_ms,
    }
}

#[test]
fn masked_sums() {
    assert_eq!(sum(0), 0);
    assert_eq!(sum(1), 1);
    assert_eq!(sum(10), 55);
    assert_eq!(sum(1000), 41748);
    assert_eq!(sum(100000), 46416);
}

#[test]
fn median_of_wall_times() {
    let r = BenchResult {
        guest_name: "Other".to_string(),
        input: 10,
        output: 55,
        user_cycles: 1,
        total_cycles: Some(2),
        paging_cycles: Some(3),
        segments: 1,
        wall_times_ms: vec![5, 1, 3],
    };
    assert_eq!(r.median_wall_ms(), 3);
    assert_eq!(eth2_result(vec![], vec![4, 1, 3, 2]).median_wall_ms(), 3);
    assert_eq!(eth2_result(vec![], vec![9]).median_wall_ms(), 9);
}

#[test]
fn output_descriptions() {
    assert_eq!(eth2_result(vec![], vec![1]).error_description(), "CRASHED");
    assert_eq!(eth2_result(vec![0xFF], vec![1]).error_description(), "State decode error");
    assert_eq!(eth2_result(vec![0xFE], vec![1]).error_description(), "Block decode error");
    assert_eq!(eth2_result(vec![0xFD], vec![1]).error_description(), "STF error");
    assert_eq!(eth2_result(vec![0x01], vec![1]).error_description(), "Unknown error");
    assert_eq!(eth2_result(vec![0xFF, 0], vec![1]).error_description(), "OK");
}

#[test]
fn error_outputs() {
    assert!(eth2_result(vec![], vec![1]).is_error());
    assert!(eth2_result(vec![0xFD], vec![1]).is_error());
    assert!(!eth2_result(vec![1, 2], vec![1]).is_error());
}

#[test]
fn numbers_grouped_by_thousands() {
    assert_eq!(format_number(0), "0");
    assert_eq!(format_number(999), "999");
    assert_eq!(format_number(1000), "1,000");
    assert_eq!(format_number(79182), "79,182");
    assert_eq!(format_number(1234567), "1,234,567");
    assert_eq!(format_number(u64::MAX), "18,446,744,073,709,551,615");
}
