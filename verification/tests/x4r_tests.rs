use quadcopter::x4r::{channel_offset, transfer_needs_reset, X4r, X4rData, X4rError, SBUS_MESSAGE_LENGTH};

/// Packs sixteen 11-bit channels into a frame, least significant bit first.
fn frame(channels: [u16; 16], flags: u8, sync: u8, footer: u8) -> [u8; SBUS_MESSAGE_LENGTH] {
    let mut buf = [0u8; SBUS_MESSAGE_LENGTH];
    buf[0] = sync;
    let mut bit = 0usize;
    for ch in channels.iter() {
        for b in 0..11 {
            if ch & (1 << b) != 0 {
                buf[1 + (bit + b) / 8] |= 1 << ((bit + b) % 8);
            }
        }
        bit += 11;
    }
    buf[23] = flags;
    buf[24] = footer;
    buf
}

#[test]
fn new_receiver_is_clean() {
    let x = X4r::new();
    assert_eq!(
        x.get_data(),
        X4rData { status: X4rError::NoErr, throttle: None, roll: None, pitch: None, yaw: None }
    );
}

#[test]
fn decodes_first_four_channels() {
    let mut ch = [992u16; 16];
    ch[0] = 172;
    ch[1] = 1811;
    ch[2] = 1234;
    ch[3] = 2047;
    let mut x = X4r::new();
    assert_eq!(x.parse(&frame(ch, 0, 0x0F, 0x00)), Ok(()));
    assert_eq!(
        x.get_data(),
        X4rData {
            status: X4rError::NoErr,
            throttle: Some(172),
            roll: Some(1811),
            pitch: Some(1234),
            yaw: Some(2047)
        }
    );
}

#[test]
fn decodes_known_bytes() {
    let mut buf = [0u8; SBUS_MESSAGE_LENGTH];
    buf[0] = 0x0F;
    buf[1] = 0xAC;
    buf[2] = 0x60;
    buf[3] = 0x05;
    buf[4] = 0x2B;
    buf[5] = 0x58;
    buf[6] = 0x01;
    let mut x = X4r::new();
    assert_eq!(x.parse(&buf), Ok(()));
    let d = x.get_data();
    assert_eq!(d.throttle, Some(0xAC));
    assert_eq!(d.roll, Some((0x60 >> 3) | ((0x05 & 0x3F) << 5)));
    assert_eq!(d.pitch, Some((0x05 >> 6) | (0x2B << 2) | ((0x58 & 0x01) << 10)));
    assert_eq!(d.yaw, Some((0x58 >> 1) | ((0x01 & 0x0F) << 7)));
}

#[test]
fn bad_sync_is_framing_error() {
    let mut x = X4r::new();
    x.parse(&frame([1000; 16], 0, 0x0F, 0x00)).unwrap();
    assert_eq!(x.parse(&frame([1000; 16], 0, 0x0E, 0x00)), Err(X4rError::FramingErr));
    assert_eq!(
        x.get_data(),
        X4rData {
            status: X4rError::FramingErr,
            throttle: None,
            roll: None,
            pitch: None,
            yaw: None
        }
    );
}

#[test]
fn bad_footer_is_framing_error() {
    let mut x = X4r::new();
    assert_eq!(x.parse(&frame([1000; 16], 0, 0x0F, 0x04)), Err(X4rError::FramingErr));
    assert_eq!(x.get_data().status, X4rError::FramingErr);
}

#[test]
fn failsafe_flag_is_signal_loss() {
    let mut x = X4r::new();
    x.parse(&frame([1000; 16], 0, 0x0F, 0x00)).unwrap();
    assert_eq!(x.parse(&frame([1000; 16], 0x08, 0x0F, 0x00)), Err(X4rError::FailSafeErr));
    assert_eq!(
        x.get_data(),
        X4rData {
            status: X4rError::FailSafeErr,
            throttle: None,
            roll: None,
            pitch: None,
            yaw: None
        }
    );
}

#[test]
fn frame_lost_flag_is_signal_loss() {
    let mut x = X4r::new();
    assert_eq!(x.parse(&frame([1000; 16], 0x04, 0x0F, 0x00)), Err(X4rError::FailSafeErr));
    assert_eq!(x.get_data().status, X4rError::FailSafeErr);
    assert_eq!(x.parse(&frame([1000; 16], 0x0C, 0x0F, 0x00)), Err(X4rError::FailSafeErr));
}

#[test]
fn other_flag_bits_are_accepted() {
    // Bits 0 and 1 (digital channels 17 and 18) are not signal loss.
    let mut x = X4r::new();
    assert_eq!(x.parse(&frame([1000; 16], 0x03, 0x0F, 0x00)), Ok(()));
    assert_eq!(x.get_data().throttle, Some(1000));
}

#[test]
fn framing_is_checked_before_flags() {
    let mut x = X4r::new();
    assert_eq!(x.parse(&frame([1000; 16], 0x08, 0x0E, 0x00)), Err(X4rError::FramingErr));
}

#[test]
fn error_messages() {
    assert_eq!(X4rError::NoErr.message(), "No Error");
    assert_eq!(X4rError::FramingErr.message(), "Framing Error");
    assert_eq!(X4rError::FailSafeErr.message(), "FATAL: No Signal");
}

#[test]
fn channel_offsets() {
    assert_eq!(channel_offset(171), None);
    assert_eq!(channel_offset(172), Some(0));
    assert_eq!(channel_offset(992), Some(820));
    assert_eq!(channel_offset(1811), Some(1639));
    assert_eq!(channel_offset(1812), None);
    assert_eq!(channel_offset(0), None);
}

#[test]
fn parse_replaces_previous_state() {
    let mut a = X4r::new();
    let mut b = X4r::new();
    let f = frame([600; 16], 0, 0x0F, 0x00);
    a.parse(&frame([1500; 16], 0, 0x0F, 0x00)).unwrap();
    a.parse(&f).unwrap();
    b.parse(&f).unwrap();
    assert_eq!(a.get_data(), b.get_data());
}

#[test]
fn transfer_reset_decision() {
    assert!(!transfer_needs_reset(0));
    assert!(!transfer_needs_reset(25));
    assert!(transfer_needs_reset(1));
    assert!(transfer_needs_reset(24));
    assert!(transfer_needs_reset(26));
}
