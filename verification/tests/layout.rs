use pd200x::{
    build_command_packet, build_eq_packet, build_query_packet, checksum, parse_response, Error,
    Response,
};

#[test]
fn command_packet_exact_bytes() {
    let p = build_command_packet(0x2023, 50);
    // bytes 1..10 sum to 0x147, so the checksum is 0x10000 - 0x147 = 0xFEB9
    let mut expected = [0u8; 65];
    expected[..12].copy_from_slice(&[0x4B, 0xC4, 0x0B, 0x00, 0x00, 0x03, 0x23, 0x20, 0x32, 0x00, 0xB9, 0xFE]);
    assert_eq!(p, expected);
}

#[test]
fn query_packet_exact_bytes() {
    let p = build_query_packet(0x2031);
    // 0xC4 + 0x09 + 0x04 + 0x31 + 0x20 = 0x122 -> checksum 0xFEDE
    let mut expected = [0u8; 65];
    expected[..10].copy_from_slice(&[0x4B, 0xC4, 0x09, 0x00, 0x00, 0x04, 0x31, 0x20, 0xDE, 0xFE]);
    assert_eq!(p, expected);
}

#[test]
fn eq_packet_words_in_order() {
    let pairs = [
        (0x204D, 1u16),
        (0x204E, 0u16),
        (0x204F, 110u16),
        (0x2050, 2030u16),
        (0x2051, 50u16),
    ];
    let p = build_eq_packet(pairs);
    assert_eq!(&p[..6], &[0x4B, 0xC4, 0x1B, 0x00, 0x00, 0x03]);
    for (k, (cmd, value)) in pairs.iter().enumerate() {
        let off = 6 + 4 * k;
        assert_eq!(u16::from_le_bytes([p[off], p[off + 1]]), *cmd);
        assert_eq!(u16::from_le_bytes([p[off + 2], p[off + 3]]), *value);
    }
    assert!(p[0x1C..].iter().all(|&b| b == 0));
}

#[test]
fn checksum_cancels_byte_sum() {
    let data: Vec<u8> = (0u8..=255).collect();
    for end in [1usize, 2, 10, 100, 256] {
        let sum: u32 = data[1..end].iter().map(|&b| b as u32).sum();
        let cs = checksum(&data, end);
        assert_eq!((sum + cs as u32) % 0x10000, 0);
    }
    assert_eq!(checksum(&data, 1), 0);
    // a sum above 2^16 wraps: 255 bytes of 0xFF sum to 0xFE01
    let ones = [0xFFu8; 256];
    assert_eq!(checksum(&ones, 256), 0x01FF);
}

#[test]
fn command_packet_parses_back() {
    for (cmd, value) in [(0x2023u16, 50u16), (0x2070, 0), (0xFFFF, 0xFFFF), (0, 0)] {
        let p = build_command_packet(cmd, value);
        let mut raw = [0u8; 64];
        raw.copy_from_slice(&p[..64]);
        assert_eq!(parse_response(&raw).unwrap(), Response { command: cmd, value });
    }
}

#[test]
fn parse_response_reads_fields_and_rejects_each_error() {
    let p = build_command_packet(0x203B, 1400);
    let mut raw = [0u8; 64];
    raw.copy_from_slice(&p[..64]);
    let r = parse_response(&raw).unwrap();
    assert_eq!(r.command, 0x203B);
    assert_eq!(r.value, 1400);

    let mut bad_value = raw;
    bad_value[8] ^= 0x01;
    assert!(matches!(parse_response(&bad_value), Err(Error::BadResponse)));

    let mut bad_magic = raw;
    bad_magic[1] = 0xC5;
    assert!(matches!(parse_response(&bad_magic), Err(Error::BadResponse)));

    // byte 0 is not checked
    let mut other_first = raw;
    other_first[0] = 0x00;
    assert!(parse_response(&other_first).is_ok());
}
