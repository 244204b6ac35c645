use device_kit::char_lcd::{find_newline, message_writes};
use device_kit::char_lcd_i2c::{
    byte_frames, init_sequence, nibble_frames, set_cursor_command, InitStep, CMD_CLEAR, CMD_DISPLAY_ON,
    CMD_ENTRY_MODE, CMD_FUNCTION_SET,
};
use device_kit::dns_server::{dns_response, DNS_ANSWER_SIZE, DNS_BUFFER_SIZE, DNS_HEADER_SIZE};
use device_kit::rfid_cards::{servo_degrees, CardRegistry, Uid};

#[test]
fn lcd_nibbles_and_bytes() {
    assert_eq!(nibble_frames(0x3, false), (0x3C, 0x38));
    assert_eq!(nibble_frames(0xA, true), (0xAD, 0xA9));
    assert_eq!(byte_frames(b'H', true), [0x4D, 0x49, 0x8D, 0x89]);
    assert_eq!(byte_frames(CMD_CLEAR, false), [0x0C, 0x08, 0x1C, 0x18]);
}

#[test]
fn lcd_cursor_addresses() {
    assert_eq!(set_cursor_command(0, 0), 0x80);
    assert_eq!(set_cursor_command(1, 0), 0xC0);
    assert_eq!(set_cursor_command(2, 3), 0x80 | 0x17);
    assert_eq!(set_cursor_command(3, 19), 0x80 | 0x67);
    assert_eq!(set_cursor_command(7, 5), 0x80);
}

#[test]
fn lcd_init_sequence() {
    assert_eq!(
        init_sequence(),
        vec![
            InitStep::Nibble(0x03, 5000),
            InitStep::Nibble(0x03, 150),
            InitStep::Nibble(0x03, 0),
            InitStep::Nibble(0x02, 0),
            InitStep::Command(CMD_FUNCTION_SET, 0),
            InitStep::Command(CMD_DISPLAY_ON, 0),
            InitStep::Command(CMD_CLEAR, 2000),
            InitStep::Command(CMD_ENTRY_MODE, 0),
        ]
    );
}

#[test]
fn lcd_message_lines() {
    assert_eq!(find_newline(b"ab\ncd\n"), Some(2));
    assert_eq!(find_newline(b"abc"), None);
    assert_eq!(message_writes(b"hi"), vec![(CMD_CLEAR, false), (b'h', true), (b'i', true)]);
    assert_eq!(
        message_writes(b"a\nb\nc"),
        vec![(CMD_CLEAR, false), (b'a', true), (0xC0, false), (b'b', true), (b'\n', true), (b'c', true)]
    );
    assert_eq!(message_writes(b""), vec![(CMD_CLEAR, false)]);
}

#[test]
fn dns_answers_with_ip() {
    let mut query = vec![0x12, 0x34, 0x01, 0x00, 0x00, 0x01, 0x00, 0x00, 0x00, 0x00, 0x00, 0x00];
    query.extend_from_slice(&[3, b'f', b'o', b'o', 0, 0, 1, 0, 1]);
    let response = dns_response(&query, [192, 168, 4, 1]).unwrap();
    assert_eq!(response.len(), query.len() + DNS_ANSWER_SIZE);
    assert_eq!(&response[0..2], &[0x12, 0x34]);
    assert_eq!(&response[2..4], &[0x84, 0x00]);
    assert_eq!(&response[4..6], &[0x00, 0x01]);
    assert_eq!(&response[6..8], &[0x00, 0x01]);
    assert_eq!(&response[12..query.len()], &query[12..]);
    assert_eq!(
        &response[query.len()..],
        &[0xC0, 0x0C, 0x00, 0x01, 0x00, 0x01, 0x00, 0x00, 0x00, 0x3C, 0x00, 0x04, 192, 168, 4, 1]
    );
}

#[test]
fn dns_refuses_bad_sizes() {
    assert_eq!(dns_response(&[0u8; 11], [1, 2, 3, 4]), None);
    assert!(dns_response(&[0u8; DNS_HEADER_SIZE], [1, 2, 3, 4]).is_some());
    assert!(dns_response(&vec![0u8; DNS_BUFFER_SIZE - DNS_ANSWER_SIZE], [1, 2, 3, 4]).is_some());
    assert_eq!(dns_response(&vec![0u8; DNS_BUFFER_SIZE - DNS_ANSWER_SIZE + 1], [1, 2, 3, 4]), None);
}

fn uid(n: u8) -> Uid {
    [n, 0, 0, 0, 0, 0, 0, 0, 0, n]
}

#[test]
fn cards_get_letters_in_order() {
    let mut registry = CardRegistry::new();
    assert_eq!(registry.card_seen(uid(1)), Some(b'A'));
    assert_eq!(registry.card_seen(uid(2)), Some(b'B'));
    assert_eq!(registry.card_seen(uid(1)), Some(b'A'));
    assert_eq!(registry.card_seen(uid(3)), Some(b'C'));
    assert_eq!(registry.card_seen(uid(4)), Some(b'D'));
    assert_eq!(registry.card_seen(uid(5)), None);
    assert_eq!(registry.card_seen(uid(2)), Some(b'B'));
    registry.reset();
    assert_eq!(registry.card_seen(uid(5)), Some(b'A'));
}

#[test]
fn servo_positions() {
    assert_eq!(servo_degrees(Some(b'A')), 180);
    assert_eq!(servo_degrees(Some(b'B')), 135);
    assert_eq!(servo_degrees(Some(b'C')), 90);
    assert_eq!(servo_degrees(Some(b'D')), 45);
    assert_eq!(servo_degrees(Some(b'E')), 0);
    assert_eq!(servo_degrees(None), 0);
}
