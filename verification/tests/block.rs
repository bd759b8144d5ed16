use abci::block::{Height, Size};
use abci::error::DecodeError;
use std::convert::TryFrom;

#[test]
fn default_time_iota_is_one_second() {
    assert_eq!(Size::default_time_iota_ms(), 1000);
}

#[test]
fn size_holds_its_parameters() {
    let size = Size {
        max_bytes: 22020096,
        max_gas: -1,
        time_iota_ms: Size::default_time_iota_ms(),
    };
    assert_eq!(size.max_bytes, 22020096);
    assert_eq!(size.max_gas, -1);
    assert_eq!(size.time_iota_ms, 1000);
    assert_eq!(size, size.clone());
}

#[test]
fn height_is_at_most_the_largest_signed_integer() {
    assert_eq!(Height::new(0).unwrap().value(), 0);
    assert_eq!(Height::new(42).unwrap().value(), 42);
    assert_eq!(Height::new(i64::MAX as u64).unwrap().value(), i64::MAX as u64);
    assert_eq!(Height::new(i64::MAX as u64 + 1), None);
    assert_eq!(Height::new(u64::MAX), None);
}

#[test]
fn height_decodes_from_a_non_negative_integer() {
    assert_eq!(Height::try_from(0), Ok(Height::new(0).unwrap()));
    assert_eq!(Height::try_from(12), Ok(Height::new(12).unwrap()));
    assert_eq!(Height::try_from(i64::MAX), Ok(Height::new(i64::MAX as u64).unwrap()));
    assert_eq!(Height::try_from(-1), Err(DecodeError::Malformed));
    assert_eq!(Height::try_from(i64::MIN), Err(DecodeError::Malformed));
}

#[test]
fn height_encodes_to_its_number() {
    assert_eq!(i64::from(Height::new(0).unwrap()), 0);
    assert_eq!(i64::from(Height::new(12).unwrap()), 12);
    assert_eq!(i64::from(Height::new(i64::MAX as u64).unwrap()), i64::MAX);
    for number in [0i64, 1, 255, 1 << 40, i64::MAX] {
        assert_eq!(i64::from(Height::try_from(number).unwrap()), number);
    }
}

#[test]
fn heights_are_ordered_by_their_number() {
    assert!(Height::new(1).unwrap() < Height::new(2).unwrap());
    assert!(Height::new(2).unwrap() == Height::new(2).unwrap());
}
