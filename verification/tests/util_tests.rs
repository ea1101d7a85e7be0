use quadcopter::util::parse_u8;

fn std_parse(bytes: &[u8]) -> u8 {
    core::str::from_utf8(bytes).unwrap_or("0").parse::<u8>().unwrap_or(0)
}

#[test]
fn parse_u8_reads_plain_numbers() {
    assert_eq!(parse_u8(b"0"), 0);
    assert_eq!(parse_u8(b"7"), 7);
    assert_eq!(parse_u8(b"08"), 8);
    assert_eq!(parse_u8(b"255"), 255);
    assert_eq!(parse_u8(b"+12"), 12);
}

#[test]
fn parse_u8_rejects_to_zero() {
    assert_eq!(parse_u8(b""), 0);
    assert_eq!(parse_u8(b"+"), 0);
    assert_eq!(parse_u8(b"256"), 0);
    assert_eq!(parse_u8(b"-1"), 0);
    assert_eq!(parse_u8(b"1a"), 0);
    assert_eq!(parse_u8(b" 1"), 0);
    assert_eq!(parse_u8(b"++1"), 0);
    assert_eq!(parse_u8(&[0xff, b'1']), 0);
    assert_eq!(parse_u8(b"99999999999999999999"), 0);
}

#[test]
fn parse_u8_leading_zeros() {
    assert_eq!(parse_u8(b"0000000000000000000255"), 255);
    assert_eq!(parse_u8(b"000"), 0);
}

#[test]
fn parse_u8_agrees_with_std_on_short_strings() {
    let alphabet: [u8; 8] = [b'0', b'1', b'5', b'9', b'+', b'-', b'a', 0xc3];
    let mut buf = [0u8; 4];
    for len in 0..=4usize {
        let total = alphabet.len().pow(len as u32);
        for mut code in 0..total {
            for i in 0..len {
                buf[i] = alphabet[code % alphabet.len()];
                code /= alphabet.len();
            }
            let s = &buf[..len];
            assert_eq!(parse_u8(s), std_parse(s), "input {:?}", s);
        }
    }
}

#[test]
fn parse_u8_agrees_with_std_on_all_three_digit_numbers() {
    for n in 0..1000u32 {
        let text = format!("{}", n);
        assert_eq!(parse_u8(text.as_bytes()), std_parse(text.as_bytes()));
        let padded = format!("{:03}", n);
        assert_eq!(parse_u8(padded.as_bytes()), std_parse(padded.as_bytes()));
    }
}
