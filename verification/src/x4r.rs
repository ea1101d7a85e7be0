//! FrSky X4R receiver: decoding of SBUS frames.
//!
//! An SBUS frame is 25 bytes: a sync byte, 22 bytes holding sixteen 11-bit
//! channels packed least significant bit first, a flags byte and a footer.
//! The first four channels carry throttle, roll, pitch and yaw.
use vstd::prelude::*;

verus! {

/// Length of one SBUS frame in bytes.
pub const SBUS_MESSAGE_LENGTH: usize = 25;

/// Index of the flags byte, which carries the failsafe and frame-lost bits.
pub const FLAGS_IDX: usize = 23;

/// First byte of every frame.
pub const SYNC_BYTE: u8 = 0x0F;

/// Last byte of every frame.
pub const FOOTER_BYTE: u8 = 0x00;

/// Flag bit: the receiver is in failsafe.
pub const FAILSAFE_FLAG: u8 = 0x08;

/// Flag bit: the receiver lost a frame.
pub const FRAME_LOST_FLAG: u8 = 0x04;

/// Channel value that stands for -100%.
pub const SBUS_MIN: u16 = 172;

/// Channel value that stands for +100%.
pub const SBUS_MAX: u16 = 1811;

/// Outcome of decoding a frame.
///
/// `NoErr`: clean transmission; `FramingErr`: misplaced sync or footer byte;
/// `FailSafeErr`: the receiver reported failsafe or a lost frame (no signal).
#[derive(Debug, Clone, Copy, PartialEq, Eq, Structural)]
pub enum X4rError {
    NoErr,
    FramingErr,
    FailSafeErr,
}

impl X4rError {
    /// The text the firmware logs for this status.
    pub fn message(&self) -> (s: &'static str)
        ensures
            s@ == self.spec_message(),
    {
        match self {
            X4rError::NoErr => "No Error",
            X4rError::FramingErr => "Framing Error",
            X4rError::FailSafeErr => "FATAL: No Signal",
        }
    }

    /// The log text of each status.
    pub open spec fn spec_message(&self) -> Seq<char> {
        match self {
            X4rError::NoErr => "No Error"@,
            X4rError::FramingErr => "Framing Error"@,
            X4rError::FailSafeErr => "FATAL: No Signal"@,
        }
    }
}

/// The last decoded receiver state: the status of the last frame and the
/// raw 11-bit values of the four control channels.
///
/// A channel is `None` when there is no reading for it (before the first
/// frame and after a rejected one); a stick without a reading stands at 0%.
#[derive(Debug, Clone, Copy, PartialEq, Eq, Structural)]
pub struct X4rData {
    pub status: X4rError,
    pub throttle: Option<u16>,
    pub roll: Option<u16>,
    pub pitch: Option<u16>,
    pub yaw: Option<u16>,
}

/// The receiver state with the given status and no channel reading.
pub open spec fn no_reading(status: X4rError) -> X4rData {
    X4rData { status, throttle: None, roll: None, pitch: None, yaw: None }
}

/// The first 48 payload bits of a frame (bytes 1 to 6), least significant first.
pub open spec fn sbus_payload(b: Seq<u8>) -> u64 {
    (b[1] as u64) | ((b[2] as u64) << 8u64) | ((b[3] as u64) << 16u64) | ((b[4] as u64)
        << 24u64) | ((b[5] as u64) << 32u64) | ((b[6] as u64) << 40u64)
}

/// Channel `k` (0-based) of a frame: payload bits `11k .. 11k + 10`.
pub open spec fn sbus_channel(b: Seq<u8>, k: u64) -> u16 {
    ((sbus_payload(b) >> ((11 * k) as u64)) & 0x7ffu64) as u16
}

/// True when the frame starts with the sync byte and ends with the footer.
pub open spec fn frame_is_framed(b: Seq<u8>) -> bool {
    b[0] == SYNC_BYTE && b[24] == FOOTER_BYTE
}

/// True when the flags byte reports failsafe or a lost frame.
pub open spec fn flags_report_loss(flags: u8) -> bool {
    flags & FAILSAFE_FLAG != 0 || flags & FRAME_LOST_FLAG != 0
}

/// The status a frame decodes to.
pub open spec fn frame_status(b: Seq<u8>) -> X4rError {
    if !frame_is_framed(b) {
        X4rError::FramingErr
    } else if flags_report_loss(b[FLAGS_IDX as int]) {
        X4rError::FailSafeErr
    } else {
        X4rError::NoErr
    }
}

/// The receiver state a frame decodes to.
pub open spec fn frame_data(b: Seq<u8>) -> X4rData {
    let status = frame_status(b);
    if status == X4rError::NoErr {
        X4rData {
            status,
            throttle: Some(sbus_channel(b, 0)),
            roll: Some(sbus_channel(b, 1)),
            pitch: Some(sbus_channel(b, 2)),
            yaw: Some(sbus_channel(b, 3)),
        }
    } else {
        no_reading(status)
    }
}

/// The value [`X4r::parse`] returns for a frame.
pub open spec fn frame_result(b: Seq<u8>) -> Result<(), X4rError> {
    if frame_status(b) == X4rError::NoErr {
        Ok(())
    } else {
        Err(frame_status(b))
    }
}

/// The offset of a channel value above -100%, or `None` for a value outside
/// the stick range (which reads as "not a number").
pub open spec fn spec_channel_offset(val: u16) -> Option<u16> {
    if val < SBUS_MIN || val > SBUS_MAX {
        None
    } else {
        Some((val - SBUS_MIN) as u16)
    }
}

/// Integer part of the channel-to-percent conversion: `None` when the value
/// is outside `SBUS_MIN ..= SBUS_MAX`, else its distance from `SBUS_MIN`.
/// The percent is then `offset / (SBUS_MAX - SBUS_MIN) * 2 - 1`.
pub fn channel_offset(val: u16) -> (r: Option<u16>)
    ensures
        r == spec_channel_offset(val),
{
    if val < SBUS_MIN || val > SBUS_MAX {
        None
    } else {
        Some(val - SBUS_MIN)
    }
}

/// Whether the frame transfer must be restarted when the receive line goes
/// idle with `remaining` bytes of the current transfer still to come: a
/// transfer that stopped inside a frame has lost step with the frames.
pub fn transfer_needs_reset(remaining: u16) -> (r: bool)
    ensures
        r == (remaining != 0 && remaining != SBUS_MESSAGE_LENGTH as u16),
{
    remaining != 0 && remaining != SBUS_MESSAGE_LENGTH as u16
}

/// Law: a stick value has an offset exactly when it lies in 172 ..= 1811,
/// and the offset is its distance above 172. The offset lies between 0 and
/// `SBUS_MAX - SBUS_MIN`, so the percent value lies between -1 and 1; the
/// ends of the range are -100% and +100%.
pub proof fn lemma_offset_within_span(val: u16)
    ensures
        spec_channel_offset(val) is Some <==> 172 <= val <= 1811,
        spec_channel_offset(val) matches Some(o) ==> o + 172 == val,
        spec_channel_offset(val) matches Some(o) ==> o <= SBUS_MAX - SBUS_MIN,
        spec_channel_offset(SBUS_MIN) == Some(0u16),
        spec_channel_offset(SBUS_MAX) == Some((SBUS_MAX - SBUS_MIN) as u16),
{
}

/// Telemetry receiver.
pub struct X4r {
    data: X4rData,
}

impl X4r {
    /// The state held by the receiver.
    pub closed spec fn spec_data(&self) -> X4rData {
        self.data
    }

    /// A receiver that has seen no frame: clean status, no channel reading
    /// (every stick at 0%).
    pub fn new() -> (r: Self)
        ensures
            r.spec_data() == no_reading(X4rError::NoErr),
    {
        X4r {
            data: X4rData {
                status: X4rError::NoErr,
                throttle: None,
                roll: None,
                pitch: None,
                yaw: None,
            },
        }
    }

    /// Decodes one SBUS frame and stores the result.
    ///
    /// Errors: `FramingErr` when the sync or footer byte is wrong,
    /// `FailSafeErr` when the flags byte reports failsafe or a lost frame.
    /// On error the stored channels are cleared (no reading, 0%).
    pub fn parse(&mut self, buf: &[u8; SBUS_MESSAGE_LENGTH]) -> (r: Result<(), X4rError>)
        ensures
            r == frame_result(buf@),
            final(self).spec_data() == frame_data(buf@),
    {
        if buf[0] != SYNC_BYTE || buf[24] != FOOTER_BYTE {
            self.data = X4rData {
                status: X4rError::FramingErr,
                throttle: None,
                roll: None,
                pitch: None,
                yaw: None,
            };
            return Err(X4rError::FramingErr);
        }
        let flags = buf[FLAGS_IDX];
        if flags & FAILSAFE_FLAG > 0 || flags & FRAME_LOST_FLAG > 0 {
            self.data = X4rData {
                status: X4rError::FailSafeErr,
                throttle: None,
                roll: None,
                pitch: None,
                yaw: None,
            };
            return Err(X4rError::FailSafeErr);
        }
        let b1: u8 = buf[1];
        let b2: u8 = buf[2];
        let b3: u8 = buf[3];
        let b4: u8 = buf[4];
        let b5: u8 = buf[5];
        let b6: u8 = buf[6];
        let ch1: u16 = (b1 as u16) | (((b2 as u16) & 0x07) << 8u16);
        let ch2: u16 = (((b2 as u16) & 0xF8) >> 3u16) | (((b3 as u16) & 0x3F) << 5u16);
        let ch3: u16 = (((b3 as u16) & 0xC0) >> 6u16) | ((b4 as u16) << 2u16) | (((b5 as u16)
            & 0x01) << 10u16);
        let ch4: u16 = ((b5 as u16) >> 1u16) | (((b6 as u16) & 0x0F) << 7u16);
        proof {
            lemma_channels(b1, b2, b3, b4, b5, b6, ch1, ch2, ch3, ch4);
        }
        self.data = X4rData {
            status: X4rError::NoErr,
            throttle: Some(ch1),
            roll: Some(ch2),
            pitch: Some(ch3),
            yaw: Some(ch4),
        };
        Ok(())
    }

    /// The state stored by the last call of [`X4r::parse`].
    pub fn get_data(&self) -> (r: X4rData)
        ensures
            r == self.spec_data(),
    {
        self.data
    }
}

/// Law: the status stored by a parse is the outcome it returns (`NoErr`
/// exactly when it returns `Ok`); a rejected frame leaves no channel
/// reading, and an accepted one a reading on all four channels.
pub proof fn lemma_status_matches_result(b: Seq<u8>)
    ensures
        (frame_result(b) is Ok) <==> frame_data(b).status == X4rError::NoErr,
        frame_result(b) matches Err(e) ==> frame_data(b).status == e,
        frame_data(b).status != X4rError::NoErr ==> frame_data(b) == no_reading(
            frame_data(b).status,
        ),
        frame_data(b).status == X4rError::NoErr ==> frame_data(b).throttle is Some
            && frame_data(b).roll is Some && frame_data(b).pitch is Some
            && frame_data(b).yaw is Some,
{
}

/// Law: a frame whose sync and footer bytes are right, and whose flags byte
/// has the failsafe or the frame-lost bit set, is rejected as `FailSafeErr`
/// with no channel reading.
pub proof fn lemma_signal_loss_rejected(b: Seq<u8>)
    requires
        b.len() == SBUS_MESSAGE_LENGTH,
        frame_is_framed(b),
        b[FLAGS_IDX as int] & (FAILSAFE_FLAG | FRAME_LOST_FLAG) != 0,
    ensures
        frame_result(b) == Err::<(), X4rError>(X4rError::FailSafeErr),
        frame_data(b) == no_reading(X4rError::FailSafeErr),
{
    let f = b[FLAGS_IDX as int];
    assert(f & (0x08u8 | 0x04u8) != 0 ==> (f & 0x08u8 != 0 || f & 0x04u8 != 0)) by (bit_vector);
}

/// Law: which frames are accepted. A frame is accepted exactly when it
/// starts with `0x0F`, ends with `0x00` and its flags byte (byte 23) has
/// neither the failsafe bit `0x08` nor the frame-lost bit `0x04` set; the
/// other flag bits (the digital channels) do not matter. An accepted frame
/// gives a reading on each of the four channels, channel `k` being payload
/// bits `11k .. 11k + 10`; a rejected one gives none, with `FramingErr` when
/// the sync or footer byte is wrong and `FailSafeErr` otherwise.
pub proof fn lemma_acceptance(b: Seq<u8>)
    requires
        b.len() == SBUS_MESSAGE_LENGTH,
    ensures
        (frame_result(b) == Ok::<(), X4rError>(())) <==> (b[0] == 0x0F && b[24] == 0x00 && b[23]
            & 0x0C == 0),
        frame_result(b) == Ok::<(), X4rError>(()) ==> frame_data(b) == (X4rData {
            status: X4rError::NoErr,
            throttle: Some(sbus_channel(b, 0)),
            roll: Some(sbus_channel(b, 1)),
            pitch: Some(sbus_channel(b, 2)),
            yaw: Some(sbus_channel(b, 3)),
        }),
        !(b[0] == 0x0F && b[24] == 0x00) ==> frame_result(b) == Err::<(), X4rError>(
            X4rError::FramingErr,
        ) && frame_data(b) == no_reading(X4rError::FramingErr),
        (b[0] == 0x0F && b[24] == 0x00 && b[23] & 0x0C != 0) ==> frame_result(b) == Err::<
            (),
            X4rError,
        >(X4rError::FailSafeErr) && frame_data(b) == no_reading(X4rError::FailSafeErr),
{
    let f = b[23];
    assert((f & 0x0Cu8 == 0) <==> !(f & 0x08u8 != 0 || f & 0x04u8 != 0)) by (bit_vector);
}

/// Law: every decoded channel is an 11-bit value.
pub proof fn lemma_channels_eleven_bits(b: Seq<u8>, k: u64)
    ensures
        sbus_channel(b, k) < 2048,
{
    let p = sbus_payload(b);
    let s = (11 * k) as u64;
    assert(((p >> s) & 0x7ffu64) < 2048) by (bit_vector);
}

/// The six payload bytes that carry channels 0 to 3 (the high bits of
/// byte 6 belong to channel 4).
pub open spec fn sbus_pack(c0: u16, c1: u16, c2: u16, c3: u16, c4: u16) -> Seq<u8> {
    seq![
        SYNC_BYTE,
        (c0 & 0xff) as u8,
        (((c0 >> 8u16) | (c1 << 3u16)) & 0xff) as u8,
        (((c1 >> 5u16) | (c2 << 6u16)) & 0xff) as u8,
        ((c2 >> 2u16) & 0xff) as u8,
        (((c2 >> 10u16) | (c3 << 1u16)) & 0xff) as u8,
        (((c3 >> 7u16) | (c4 << 4u16)) & 0xff) as u8,
    ]
}

/// Law: channels are independent 11-bit fields: packing any four channel
/// values (and the low bits of a fifth) into a frame and decoding it gives
/// the four values back.
pub proof fn lemma_channels_roundtrip(c0: u16, c1: u16, c2: u16, c3: u16, c4: u16)
    requires
        c0 < 2048,
        c1 < 2048,
        c2 < 2048,
        c3 < 2048,
    ensures
        sbus_channel(sbus_pack(c0, c1, c2, c3, c4), 0) == c0,
        sbus_channel(sbus_pack(c0, c1, c2, c3, c4), 1) == c1,
        sbus_channel(sbus_pack(c0, c1, c2, c3, c4), 2) == c2,
        sbus_channel(sbus_pack(c0, c1, c2, c3, c4), 3) == c3,
{
    let f = sbus_pack(c0, c1, c2, c3, c4);
    let b1 = f[1];
    let b2 = f[2];
    let b3 = f[3];
    let b4 = f[4];
    let b5 = f[5];
    let b6 = f[6];
    let p = sbus_payload(f);
    assert(p == (b1 as u64) | ((b2 as u64) << 8u64) | ((b3 as u64) << 16u64) | ((b4 as u64)
        << 24u64) | ((b5 as u64) << 32u64) | ((b6 as u64) << 40u64));
    assert(((p >> 0u64) & 0x7ffu64) as u16 == c0 && ((p >> 11u64) & 0x7ffu64) as u16 == c1
        && ((p >> 22u64) & 0x7ffu64) as u16 == c2 && ((p >> 33u64) & 0x7ffu64) as u16 == c3)
        by (bit_vector)
        requires
            c0 < 2048,
            c1 < 2048,
            c2 < 2048,
            c3 < 2048,
            b1 == (c0 & 0xff) as u8,
            b2 == (((c0 >> 8u16) | (c1 << 3u16)) & 0xff) as u8,
            b3 == (((c1 >> 5u16) | (c2 << 6u16)) & 0xff) as u8,
            b4 == ((c2 >> 2u16) & 0xff) as u8,
            b5 == (((c2 >> 10u16) | (c3 << 1u16)) & 0xff) as u8,
            b6 == (((c3 >> 7u16) | (c4 << 4u16)) & 0xff) as u8,
            p == (b1 as u64) | ((b2 as u64) << 8u64) | ((b3 as u64) << 16u64) | ((b4 as u64)
                << 24u64) | ((b5 as u64) << 32u64) | ((b6 as u64) << 40u64),
    ;
}

/// The byte-wise channel extraction equals the bit-field definition.
proof fn lemma_channels(
    b1: u8,
    b2: u8,
    b3: u8,
    b4: u8,
    b5: u8,
    b6: u8,
    ch1: u16,
    ch2: u16,
    ch3: u16,
    ch4: u16,
)
    requires
        ch1 == (b1 as u16) | (((b2 as u16) & 0x07) << 8u16),
        ch2 == (((b2 as u16) & 0xF8) >> 3u16) | (((b3 as u16) & 0x3F) << 5u16),
        ch3 == (((b3 as u16) & 0xC0) >> 6u16) | ((b4 as u16) << 2u16) | (((b5 as u16) & 0x01)
            << 10u16),
        ch4 == ((b5 as u16) >> 1u16) | (((b6 as u16) & 0x0F) << 7u16),
    ensures
        ({
            let p = (b1 as u64) | ((b2 as u64) << 8u64) | ((b3 as u64) << 16u64) | ((b4 as u64)
                << 24u64) | ((b5 as u64) << 32u64) | ((b6 as u64) << 40u64);
            &&& ch1 == ((p >> 0u64) & 0x7ffu64) as u16
            &&& ch2 == ((p >> 11u64) & 0x7ffu64) as u16
            &&& ch3 == ((p >> 22u64) & 0x7ffu64) as u16
            &&& ch4 == ((p >> 33u64) & 0x7ffu64) as u16
        }),
{
    let p = (b1 as u64) | ((b2 as u64) << 8u64) | ((b3 as u64) << 16u64) | ((b4 as u64)
        << 24u64) | ((b5 as u64) << 32u64) | ((b6 as u64) << 40u64);
    assert(ch1 == ((p >> 0u64) & 0x7ffu64) as u16) by (bit_vector)
        requires
            ch1 == (b1 as u16) | (((b2 as u16) & 0x07) << 8u16),
            p == (b1 as u64) | ((b2 as u64) << 8u64) | ((b3 as u64) << 16u64) | ((b4 as u64)
                << 24u64) | ((b5 as u64) << 32u64) | ((b6 as u64) << 40u64),
    ;
    assert(ch2 == ((p >> 11u64) & 0x7ffu64) as u16) by (bit_vector)
        requires
            ch2 == (((b2 as u16) & 0xF8) >> 3u16) | (((b3 as u16) & 0x3F) << 5u16),
            p == (b1 as u64) | ((b2 as u64) << 8u64) | ((b3 as u64) << 16u64) | ((b4 as u64)
                << 24u64) | ((b5 as u64) << 32u64) | ((b6 as u64) << 40u64),
    ;
    assert(ch3 == ((p >> 22u64) & 0x7ffu64) as u16) by (bit_vector)
        requires
            ch3 == (((b3 as u16) & 0xC0) >> 6u16) | ((b4 as u16) << 2u16) | (((b5 as u16)
                & 0x01) << 10u16),
            p == (b1 as u64) | ((b2 as u64) << 8u64) | ((b3 as u64) << 16u64) | ((b4 as u64)
                << 24u64) | ((b5 as u64) << 32u64) | ((b6 as u64) << 40u64),
    ;
    assert(ch4 == ((p >> 33u64) & 0x7ffu64) as u16) by (bit_vector)
        requires
            ch4 == ((b5 as u16) >> 1u16) | (((b6 as u16) & 0x0F) << 7u16),
            p == (b1 as u64) | ((b2 as u64) << 8u64) | ((b3 as u64) << 16u64) | ((b4 as u64)
                << 24u64) | ((b5 as u64) << 32u64) | ((b6 as u64) << 40u64),
    ;
}

} // verus!
