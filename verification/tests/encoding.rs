use frost_session::encoding::{copy_range, x_only, UnexpectedLength, COMPRESSED_LEN, X_ONLY_LEN};
use frost_session::text::{decimal, describe};

fn compressed(prefix: u8) -> Vec<u8> {
    let mut bytes = vec![prefix];
    bytes.extend((1..=32).map(|b: u8| b.wrapping_mul(7)));
    bytes
}

#[test]
fn lengths_are_those_of_bip340() {
    assert_eq!(X_ONLY_LEN, 32);
    assert_eq!(COMPRESSED_LEN, 33);
}

#[test]
fn compressed_point_with_even_prefix_loses_prefix() {
    let bytes = compressed(0x02);
    let x = x_only(&bytes).unwrap();
    assert_eq!(x.len(), 32);
    assert_eq!(x, bytes[1..].to_vec());
}

#[test]
fn compressed_point_with_odd_prefix_loses_prefix() {
    let bytes = compressed(0x03);
    let x = x_only(&bytes).unwrap();
    assert_eq!(x, bytes[1..33].to_vec());
    assert_eq!(x[0], 7);
    assert_eq!(x[31], 32u8.wrapping_mul(7));
}

#[test]
fn x_only_point_is_kept() {
    let bytes: Vec<u8> = (100..132).collect();
    assert_eq!(x_only(&bytes), Ok(bytes.clone()));
}

#[test]
fn other_lengths_are_refused_with_their_length() {
    for len in [0usize, 1, 31, 34, 64, 65] {
        let bytes = vec![0x02u8; len];
        assert_eq!(x_only(&bytes), Err(UnexpectedLength { len }));
    }
}

#[test]
fn copy_range_takes_the_positions_asked_for() {
    let bytes = [10u8, 11, 12, 13, 14];
    assert_eq!(copy_range(&bytes, 1, 4), vec![11, 12, 13]);
    assert_eq!(copy_range(&bytes, 0, 5), bytes.to_vec());
    assert_eq!(copy_range(&bytes, 3, 3), Vec::<u8>::new());
}

#[test]
fn decimal_writes_base_ten() {
    assert_eq!(decimal(0), "0");
    assert_eq!(decimal(7), "7");
    assert_eq!(decimal(10), "10");
    assert_eq!(decimal(31), "31");
    assert_eq!(decimal(1209), "1209");
    assert_eq!(decimal(65535), "65535");
    assert_eq!(decimal(1234567890), "1234567890");
}

#[test]
fn decimal_agrees_with_the_standard_formatting() {
    for n in [0usize, 9, 10, 99, 100, 101, 4096, usize::MAX] {
        assert_eq!(decimal(n), format!("{}", n));
    }
}

#[test]
fn describe_puts_the_cause_after_the_phrase() {
    assert_eq!(describe("Protocol error: ", "aborted"), "Protocol error: aborted");
    assert_eq!(describe("", ""), "");
    assert_eq!(describe("a", ""), "a");
}
