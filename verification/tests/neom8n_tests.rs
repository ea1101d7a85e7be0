use quadcopter::neom8n::{split_fields, FixQuality, GpsData, Neom8n, MAX_NMEA_0183};

const RMC: &[u8] = b"$GPRMC,123519.00,A,4807.038,N,01131.000,E,022.4,084.4,230394,003.1,W*6A\r\n";
const GGA: &[u8] = b"$GPGGA,092750,5321.6802,S,00630.3372,W,1,08,1.03,61.7,M,55.2,M,,*76\r\n";

fn feed(gps: &mut Neom8n, bytes: &[u8]) -> Vec<bool> {
    bytes.iter().map(|b| gps.build_message(*b)).collect()
}

fn padded(sentence: &[u8]) -> [u8; MAX_NMEA_0183] {
    let mut buf = [0u8; MAX_NMEA_0183];
    buf[..sentence.len()].copy_from_slice(sentence);
    buf
}

#[test]
fn new_data_is_unknown() {
    let d = GpsData::new();
    assert!(d.lat.degrees.is_empty() && d.lat.minutes.is_empty() && !d.lat.negative);
    assert!(d.heading.is_empty() && d.speed_knots.is_empty() && d.alt.is_empty());
    assert_eq!((d.utc.hours, d.utc.mins), (0, 0));
    assert_eq!(d.utc.secs, b"0".to_vec());
    assert_eq!(d.fix_quality, FixQuality { fix: 0, satellites: 0 });
    assert_eq!(d.rmc_rx_buf_copy, [0u8; MAX_NMEA_0183]);
}

#[test]
fn sentence_completes_at_line_end() {
    let mut gps = Neom8n::new();
    let out = feed(&mut gps, RMC);
    let n = RMC.len();
    assert!(out[..n - 1].iter().all(|b| !b));
    assert!(out[n - 1]);
}

#[test]
fn noise_before_sync_is_ignored() {
    let mut gps = Neom8n::new();
    let out = feed(&mut gps, b"garbage\r\n,,\n");
    assert!(out.iter().all(|b| !b));
    let out = feed(&mut gps, RMC);
    assert!(out[RMC.len() - 1]);
    gps.parse_message();
    assert_eq!(gps.get_data().rmc_rx_buf_copy, padded(RMC));
}

#[test]
fn overlong_sentence_is_dropped() {
    let mut gps = Neom8n::new();
    let mut long = vec![b'$'];
    long.extend(std::iter::repeat(b'x').take(MAX_NMEA_0183));
    long.push(b'\n');
    let out = feed(&mut gps, &long);
    assert!(out.iter().all(|b| !b));
}

#[test]
fn rmc_updates_position_time_and_motion() {
    let mut gps = Neom8n::new();
    feed(&mut gps, RMC);
    assert!(gps.message_is_parsable());
    gps.parse_message();
    let d = gps.get_data();
    assert_eq!(d.lat.degrees, b"48".to_vec());
    assert_eq!(d.lat.minutes, b"07.038".to_vec());
    assert!(!d.lat.negative);
    assert_eq!(d.long.degrees, b"011".to_vec());
    assert_eq!(d.long.minutes, b"31.000".to_vec());
    assert!(!d.long.negative);
    assert_eq!(d.speed_knots, b"022.4".to_vec());
    assert_eq!(d.heading, b"084.4".to_vec());
    assert_eq!((d.utc.hours, d.utc.mins), (12, 35));
    assert_eq!(d.utc.secs, b"19.00".to_vec());
    assert_eq!(d.rmc_rx_buf_copy, padded(RMC));
    assert!(d.alt.is_empty());
    assert_eq!(d.fix_quality, FixQuality { fix: 0, satellites: 0 });
}

#[test]
fn gga_updates_position_fix_and_altitude() {
    let mut gps = Neom8n::new();
    feed(&mut gps, GGA);
    assert!(gps.message_is_parsable());
    gps.parse_message();
    let d = gps.get_data();
    assert_eq!(d.lat.degrees, b"53".to_vec());
    assert_eq!(d.lat.minutes, b"21.6802".to_vec());
    assert!(d.lat.negative);
    assert_eq!(d.long.degrees, b"006".to_vec());
    assert_eq!(d.long.minutes, b"30.3372".to_vec());
    assert!(d.long.negative);
    assert_eq!(d.alt, b"61.7".to_vec());
    assert_eq!(d.fix_quality, FixQuality { fix: 1, satellites: 8 });
    assert_eq!((d.utc.hours, d.utc.mins), (9, 27));
    assert_eq!(d.utc.secs, b"50".to_vec());
    assert_eq!(d.gga_rx_buf_copy, padded(GGA));
    assert!(d.heading.is_empty());
}

#[test]
fn rmc_without_fix_changes_nothing() {
    let mut gps = Neom8n::new();
    feed(&mut gps, b"$GPRMC,235947.000,V,,,,,,,,,N*4E\r\n");
    assert!(gps.message_is_parsable());
    gps.parse_message();
    let d = gps.get_data();
    assert!(d.lat.degrees.is_empty());
    assert_eq!(d.utc.hours, 0);
    assert_eq!(d.rmc_rx_buf_copy, [0u8; MAX_NMEA_0183]);
}

#[test]
fn other_sentences_change_nothing() {
    let mut gps = Neom8n::new();
    feed(&mut gps, b"$GPGSV,3,1,11,03,03,111,00,04,15,270,00*74\r\n");
    assert!(gps.message_is_parsable());
    gps.parse_message();
    let d = gps.get_data();
    assert!(d.lat.degrees.is_empty());
    assert_eq!(d.gga_rx_buf_copy, [0u8; MAX_NMEA_0183]);
}

#[test]
fn short_sentences_are_not_parsable() {
    let mut gps = Neom8n::new();
    feed(&mut gps, b"$GPRMC,1,A\r\n");
    assert!(!gps.message_is_parsable());
    feed(&mut gps, b"$GPGGA,,,,,,0,00,99.99,,,,,,*48\r\n");
    assert!(!gps.message_is_parsable());
}

#[test]
fn time_field_that_is_not_utf8_reads_as_midnight() {
    let mut gps = Neom8n::new();
    feed(&mut gps, b"$GPGGA,1234\xff5,4807.038,N,01131.000,E,1,08,0.9,545.4,M,46.9,M,,*47\r\n");
    assert!(gps.message_is_parsable());
    gps.parse_message();
    let d = gps.get_data();
    assert_eq!((d.utc.hours, d.utc.mins), (0, 0));
    assert_eq!(d.utc.secs, b"\xff5".to_vec());
    assert_eq!(d.fix_quality, FixQuality { fix: 1, satellites: 8 });
}

#[test]
fn time_field_split_inside_a_character_is_not_parsable() {
    let mut gps = Neom8n::new();
    // U+00E9 takes bytes 1 and 2 of the time field: byte 2 does not start a character.
    feed(&mut gps, "$GPGGA,1\u{e9}345,4807.038,N,01131.000,E,1,08,0.9,545.4,M,46.9,M,,*47\r\n".as_bytes());
    assert!(!gps.message_is_parsable());
}

#[test]
fn split_fields_keeps_empty_fields() {
    let f = split_fields(b"a,,bc,");
    assert_eq!(f, vec![b"a".to_vec(), vec![], b"bc".to_vec(), vec![]]);
    assert_eq!(split_fields(b""), vec![Vec::<u8>::new()]);
}

#[test]
fn split_fields_joins_back() {
    for text in [&b""[..], b",", b"a,b", b",,x,", b"$GPGGA,1,2,,3", b"no commas"] {
        let fields = split_fields(text);
        assert_eq!(fields.len(), text.iter().filter(|b| **b == b',').count() + 1);
        assert!(fields.iter().all(|f| !f.contains(&b',')));
        assert_eq!(fields.join(&b','), text.to_vec());
    }
}
