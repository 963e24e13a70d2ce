use trading_desk::ledger::Order;
use trading_desk::wire::{
    bits_of, decode_request, encode_balance, encode_history, encode_login_reply, encode_request,
    i32_at, low_bits_of, push_all, push_i32, push_u32, signed_of, u32_at, Decoded, Request,
    TAG_BALANCE, TAG_HISTORY, TAG_LOGIN, TAG_TRADE,
};

fn complete(bytes: &[u8]) -> (Request, usize) {
    match decode_request(bytes) {
        Decoded::Complete(request, used) => (request, used),
        other => panic!("not a whole request: {:?}", other),
    }
}

fn needed(bytes: &[u8]) -> u64 {
    match decode_request(bytes) {
        Decoded::Incomplete(needed) => needed,
        other => panic!("not cut short: {:?}", other),
    }
}

fn malformed(bytes: &[u8]) -> bool {
    matches!(decode_request(bytes), Decoded::Malformed)
}

#[test]
fn the_tags_of_the_protocol() {
    assert_eq!(TAG_LOGIN, 0);
    assert_eq!(TAG_BALANCE, 1);
    assert_eq!(TAG_TRADE, 2);
    assert_eq!(TAG_HISTORY, 4);
}

#[test]
fn a_login_on_the_wire() {
    let request = Request::Login { region: 2, password: "correct".to_string() };
    let bytes = encode_request(&request).unwrap();
    assert_eq!(bytes, vec![0, 2, 7, 0, 0, 0, b'c', b'o', b'r', b'r', b'e', b'c', b't']);
    assert_eq!(complete(&bytes), (request, 13));
}

#[test]
fn a_login_with_an_empty_password() {
    let request = Request::Login { region: 0, password: String::new() };
    let bytes = encode_request(&request).unwrap();
    assert_eq!(bytes, vec![0, 0, 0, 0, 0, 0]);
    assert_eq!(complete(&bytes), (request, 6));
}

#[test]
fn a_password_beyond_ascii_survives_the_wire() {
    let password = "pässwörd ✓ 鍵".to_string();
    let request = Request::Login { region: 9, password: password.clone() };
    let bytes = encode_request(&request).unwrap();
    assert_eq!(bytes.len(), 6 + password.len());
    assert_eq!(bytes[2] as usize, password.len());
    assert_eq!(&bytes[6..], password.as_bytes());
    assert_eq!(complete(&bytes), (request, bytes.len()));
}

#[test]
fn a_password_that_is_not_text_is_malformed() {
    assert!(malformed(&[0, 0, 2, 0, 0, 0, 0xff, 0xfe]));
    assert!(malformed(&[0, 0, 1, 0, 0, 0, 0x80]));
    assert!(malformed(&[0, 0, 2, 0, 0, 0, 0xc3, 0x28]));
    assert!(malformed(&[0, 0, 3, 0, 0, 0, 0xed, 0xa0, 0x80]));
    assert!(malformed(&[0, 0, 2, 0, 0, 0, 0xc0, 0x80]));
    assert!(malformed(&[0, 0, 4, 0, 0, 0, 0xf4, 0x90, 0x80, 0x80]));
    assert!(malformed(&[0, 0, 3, 0, 0, 0, b'a', 0xe2, 0x82]));
    assert_eq!(
        complete(&[0, 7, 4, 0, 0, 0, 0xf4, 0x8f, 0xbf, 0xbf]),
        (Request::Login { region: 7, password: "\u{10ffff}".to_string() }, 10)
    );
    assert_eq!(
        complete(&[0, 0, 2, 0, 0, 0, 0xc3, 0xa4]),
        (Request::Login { region: 0, password: "ä".to_string() }, 8)
    );
}

#[test]
fn a_balance_request_on_the_wire() {
    assert_eq!(encode_request(&Request::Balance).unwrap(), vec![1]);
    assert_eq!(complete(&[1]), (Request::Balance, 1));
    assert_eq!(complete(&[1, 2, 3]), (Request::Balance, 1));
}

#[test]
fn a_trade_on_the_wire() {
    let request = Request::Trade { sender: 1, recipient: 258, money: -2 };
    let bytes = encode_request(&request).unwrap();
    assert_eq!(bytes, vec![2, 1, 0, 0, 0, 2, 1, 0, 0, 0xfe, 0xff, 0xff, 0xff]);
    assert_eq!(complete(&bytes), (request, 13));
    let extremes = Request::Trade { sender: i32::MAX, recipient: i32::MIN, money: 0 };
    let bytes = encode_request(&extremes).unwrap();
    assert_eq!(bytes, vec![2, 0xff, 0xff, 0xff, 0x7f, 0, 0, 0, 0x80, 0, 0, 0, 0]);
    assert_eq!(complete(&bytes), (extremes, 13));
}

#[test]
fn a_history_request_on_the_wire() {
    let request = Request::History { count: 50 };
    let bytes = encode_request(&request).unwrap();
    assert_eq!(bytes, vec![4, 50, 0, 0, 0]);
    assert_eq!(complete(&bytes), (request, 5));
    let most = Request::History { count: u32::MAX };
    assert_eq!(encode_request(&most).unwrap(), vec![4, 0xff, 0xff, 0xff, 0xff]);
    assert_eq!(complete(&[4, 0x78, 0x56, 0x34, 0x12]), (Request::History { count: 0x12345678 }, 5));
}

#[test]
fn what_follows_a_request_is_left_alone() {
    let mut bytes = encode_request(&Request::Login { region: 1, password: "ab".to_string() }).unwrap();
    bytes.extend_from_slice(&[1, 4, 9, 9]);
    assert_eq!(complete(&bytes), (Request::Login { region: 1, password: "ab".to_string() }, 8));
    assert_eq!(complete(&bytes[8..]), (Request::Balance, 1));
    assert_eq!(needed(&bytes[9..]), 5);
}

#[test]
fn a_buffer_that_ends_early_says_how_much_is_needed() {
    assert_eq!(needed(&[]), 1);
    assert_eq!(needed(&[0]), 6);
    assert_eq!(needed(&[0, 0, 5, 0, 0]), 6);
    assert_eq!(needed(&[0, 0, 5, 0, 0, 0]), 11);
    assert_eq!(needed(&[0, 0, 5, 0, 0, 0, b'a', b'b', b'c', b'd']), 11);
    assert_eq!(needed(&[0, 0, 0xff, 0xff, 0xff, 0xff, b'a']), 6 + 0xffff_ffff);
    assert_eq!(needed(&[2]), 13);
    assert_eq!(needed(&[2, 0, 0, 0, 0, 0, 0, 0, 0, 0, 0, 0]), 13);
    assert_eq!(needed(&[4]), 5);
    assert_eq!(needed(&[4, 1, 2, 3]), 5);
}

#[test]
fn an_unknown_tag_is_malformed() {
    assert!(malformed(&[3]));
    assert!(malformed(&[5]));
    assert!(malformed(&[255, 1, 2, 3, 4]));
    assert!(malformed(&[3, 0, 0, 0, 0, 0, 0, 0, 0, 0, 0, 0, 0]));
}

#[test]
fn the_replies_of_the_server() {
    assert_eq!(encode_login_reply(true), vec![1]);
    assert_eq!(encode_login_reply(false), vec![0]);
    assert_eq!(encode_balance(0), vec![0, 0, 0, 0]);
    assert_eq!(encode_balance(-1), vec![0xff, 0xff, 0xff, 0xff]);
    assert_eq!(encode_balance(380), vec![0x7c, 0x01, 0, 0]);
    assert_eq!(encode_balance(i32::MIN), vec![0, 0, 0, 0x80]);
    assert_eq!(encode_history(&Vec::new()), vec![0, 0, 0, 0]);
    let orders = vec![Order::new(0, 1, 250, 0), Order::new(2, 0, -3, 0)];
    assert_eq!(
        encode_history(&orders),
        vec![
            2, 0, 0, 0, 0, 0, 0, 0, 1, 0, 0, 0, 250, 0, 0, 0, 2, 0, 0, 0, 0, 0, 0, 0, 0xfd, 0xff,
            0xff, 0xff
        ]
    );
}

#[test]
fn integers_least_significant_byte_first() {
    let mut out = vec![9];
    push_u32(&mut out, 0x0403_0201);
    push_i32(&mut out, -256);
    push_all(&mut out, &[7, 8]);
    assert_eq!(out, vec![9, 1, 2, 3, 4, 0, 0xff, 0xff, 0xff, 7, 8]);
    assert_eq!(u32_at(&out, 1), 0x0403_0201);
    assert_eq!(i32_at(&out, 5), -256);
    assert_eq!(u32_at(&out, 5), 0xffff_ff00);
    assert_eq!(u32_at(&[0, 0, 1, 0], 0), 65536);
    assert_eq!(u32_at(&[0xff, 0xff, 0xff, 0xff], 0), u32::MAX);
    assert_eq!(i32_at(&[0xff, 0xff, 0xff, 0x7f], 0), i32::MAX);
}

#[test]
fn bit_patterns_of_signed_numbers() {
    assert_eq!(bits_of(0), 0);
    assert_eq!(bits_of(1), 1);
    assert_eq!(bits_of(-1), u32::MAX);
    assert_eq!(bits_of(i32::MIN), 0x8000_0000);
    assert_eq!(bits_of(i32::MAX), 0x7fff_ffff);
    assert_eq!(signed_of(0), 0);
    assert_eq!(signed_of(u32::MAX), -1);
    assert_eq!(signed_of(0x8000_0000), i32::MIN);
    assert_eq!(signed_of(0x7fff_ffff), i32::MAX);
    assert_eq!(low_bits_of(5), 5);
    assert_eq!(low_bits_of(u32::MAX as usize), u32::MAX);
    assert_eq!(low_bits_of((u32::MAX as usize).wrapping_add(3)), 2);
}
