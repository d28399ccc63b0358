use std::str::FromStr;

use itchy::parser::{
    parse_add_order, parse_cross_trade, parse_imbalance_indicator, parse_ipo_quoting_period,
    parse_noncross_trade, parse_participant_position,
    parse_retail_price_improvement_indicator, parse_stock_directory, parse_system_event,
};
use itchy::{MemSource, MessageStream, ParseOutcome, Price4, Price8};

fn hex_to_bytes(bytes: &[u8]) -> Vec<u8> {
    fn h2b(h: u8) -> Option<u8> {
        match h {
            v @ b'0'..=b'9' => Some(v - b'0'),
            v @ b'a'..=b'f' => Some(v - b'a' + 10),
            b' ' | b'\n' => None,
            _ => panic!("Invalid hex: {}", h as char),
        }
    }
    bytes
        .iter()
        .filter_map(|b| h2b(*b))
        .collect::<Vec<_>>()
        .chunks(2)
        .map(|slice| (slice[0] << 4) + slice[1])
        .collect()
}

/// The count of unconsumed bytes after decoding a body at offset zero.
fn leftover<T>(outcome: ParseOutcome<T>, total: usize) -> usize {
    match outcome {
        ParseOutcome::Done { used, .. } => total - used,
        ParseOutcome::Fail(k) => panic!("decode failed: {:?}", k),
        ParseOutcome::Incomplete => panic!("decode incomplete"),
    }
}

#[test]
fn system_event() {
    let code = b"4f";
    let bytes = hex_to_bytes(&code[..]);
    assert_eq!(leftover(parse_system_event(&bytes, 0), bytes.len()), 0);
}

#[test]
fn stock_directory() {
    let code = b"41 2020 2020 2020 204e 2000
                 0000 644e 435a 2050 4e20 314e 0000 0000 4e";
    let bytes = hex_to_bytes(&code[..]);
    assert_eq!(leftover(parse_stock_directory(&bytes, 0), bytes.len()), 0);
}

#[test]
fn market_participant_position() {
    let code = b"41 44 41 4d 42 42 52 59 20 20 20 20 59 4e 41";
    let bytes = hex_to_bytes(&code[..]);
    assert_eq!(leftover(parse_participant_position(&bytes, 0), bytes.len()), 0);
}

#[test]
fn add_order() {
    let code = b"00 00 00 00 00 00 05 84 42 00 00 00 64 5a 58 5a 5a 54 20 20 20 00 00 27 10";
    let bytes = hex_to_bytes(&code[..]);
    assert_eq!(leftover(parse_add_order(&bytes, 0, false), bytes.len()), 0);
}

#[test]
fn add_order_with_attr() {
    // same code as in add_order test with 4 additional `10` bytes
    let code =
        b"00 00 00 00 00 00 05 84 42 00 00 00 64 5a 58 5a 5a 54 20 20 20 00 00 27 10 10 10 10 10";
    let bytes = hex_to_bytes(&code[..]);
    assert_eq!(leftover(parse_add_order(&bytes, 0, true), bytes.len()), 0);
}

#[test]
fn test_imbalance() {
    let code = b"00 00 00 00 00 00 00 00 00 00 00 00 00 00 00 00 4f 48 49 42 42 20 20 20 20
                 00 00 00 00 00 00 00 00 00 00 00 00 43 20";
    let bytes = hex_to_bytes(&code[..]);
    assert_eq!(leftover(parse_imbalance_indicator(&bytes, 0), bytes.len()), 0);
}

#[test]
fn test_cross_trade() {
    let code = b"00 00 00 00 00 00 00 00 45 53 53 41 20 20 20 20 00 00
                00 00 00 00 00 00 00 00 03 c0 43";
    let bytes = hex_to_bytes(&code[..]);
    assert_eq!(leftover(parse_cross_trade(&bytes, 0), bytes.len()), 0);
}

#[test]
fn test_retail_price_improvement_indicator() {
    let code = b"45 53 53 41 20 20 20 20 4e";
    let bytes = hex_to_bytes(&code[..]);
    assert_eq!(
        leftover(parse_retail_price_improvement_indicator(&bytes, 0), bytes.len()),
        0
    );
}

#[test]
fn test_noncross_trade() {
    let code = b"00 00 00 00 00 00 00 00 42 00 00 0b b8 4e 55 47 54 20
                 20 20 20 00 01 93 e8 00 00 00 00 00 00 41 7f";
    let bytes = hex_to_bytes(&code[..]);
    assert_eq!(leftover(parse_noncross_trade(&bytes, 0), bytes.len()), 0);
}

#[test]
fn test_ipo_release() {
    let code = b"5a 57 5a 5a 54 20 20 20 00 00 89 1c 41 00 01 86 a0";
    let bytes = hex_to_bytes(&code[..]);
    assert_eq!(leftover(parse_ipo_quoting_period(&bytes, 0), bytes.len()), 0);
}

#[test]
fn test_parse_empty_buffer() {
    let mut stream = MessageStream::from_reader(MemSource::new(Vec::new()));
    assert!(stream.next().is_none()); // stops iterating immediately
}

#[test]
fn test_parse_invalid_buffer_fails() {
    let buf: Vec<u8> = vec![0, 0xc, 0x53, 0, 0, 0, 0x28, 0x6a];
    let mut stream = MessageStream::from_reader(MemSource::new(buf));
    assert!(stream.next().unwrap().is_err()); // first time gives error
    assert!(stream.next().is_none()); // then it stops iterating
}

#[test]
fn test_parse_one_message() {
    let code = b"000c 5300 0000 0028 6aab 3b3a 994f";
    let buf = hex_to_bytes(&code[..]);
    let mut stream = MessageStream::from_reader(MemSource::new(buf));
    assert!(stream.next().unwrap().is_ok()); // first time ok
    assert!(stream.next().is_none()); // then it stops iterating
}

#[test]
fn test_price4() {
    let p4 = Price4::from(12340001u32).to_decimal();
    assert_eq!(p4, rust_decimal::Decimal::from_str("1234.0001").unwrap());
}

#[test]
fn test_price8() {
    let p8 = Price8::from(123400010002u64).to_decimal();
    assert_eq!(p8, rust_decimal::Decimal::from_str("1234.00010002").unwrap());
}
