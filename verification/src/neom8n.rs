//! u-blox NEO-M8N GPS receiver: assembly of NMEA 0183 sentences from the
//! serial byte stream, and extraction of the RMC and GGA fields.
//!
//! Numbers that the receiver writes with a fraction (coordinates, speed,
//! course, altitude, seconds) are kept as the text the receiver sent; the
//! firmware turns that text into floating-point values.
use vstd::prelude::*;
use vstd::utf8::{valid_utf8, is_char_boundary, is_continuation_byte, pop_first_scalar};
use crate::util::{parse_u8, spec_parse_u8, utf8_is_valid};

verus! {

broadcast use {
    vstd::utf8::is_char_boundary_iff_not_is_continuation_byte,
    vstd::utf8::is_char_boundary_start_end_of_seq,
};

/// Longest NMEA 0183 sentence, `$` and line end included.
pub const MAX_NMEA_0183: usize = 82;

/// `'$'`: first byte of a sentence.
pub const SENTENCE_START: u8 = 36;

/// `'\n'`: last byte of a sentence.
pub const SENTENCE_END: u8 = 10;

/// `','`: separates the fields of a sentence.
pub const FIELD_SEPARATOR: u8 = 44;

/// `'A'`: RMC status of a valid fix.
pub const STATUS_VALID: u8 = 65;

/// `'S'`: southern hemisphere.
pub const HEMISPHERE_SOUTH: u8 = 83;

/// `'W'`: western hemisphere.
pub const HEMISPHERE_WEST: u8 = 87;

/// Fix indicator and number of satellites in use, from a GGA sentence.
#[derive(Debug, Clone, Copy, PartialEq, Eq, Structural)]
pub struct FixQuality {
    pub fix: u8,
    pub satellites: u8,
}

impl FixQuality {
    /// No fix, no satellites.
    pub fn new() -> (r: Self)
        ensures
            r.fix == 0 && r.satellites == 0,
    {
        FixQuality { fix: 0, satellites: 0 }
    }
}

/// Time of day (UTC): hours and minutes as read, and the seconds field
/// (`ss.sss`) as the receiver wrote it.
#[derive(Debug)]
pub struct UtcTime {
    pub hours: u8,
    pub mins: u8,
    pub secs: Vec<u8>,
}

/// The contents of a [`UtcTime`].
#[verifier::ext_equal]
pub struct UtcView {
    pub hours: u8,
    pub mins: u8,
    pub secs: Seq<u8>,
}

impl View for UtcTime {
    type V = UtcView;

    open spec fn view(&self) -> UtcView {
        UtcView { hours: self.hours, mins: self.mins, secs: self.secs@ }
    }
}

impl UtcTime {
    /// Midnight: 0 hours, 0 minutes, seconds `"0"`.
    pub fn new() -> (r: Self)
        ensures
            r@ == (UtcView { hours: 0, mins: 0, secs: seq![48u8] }),
    {
        let mut secs: Vec<u8> = Vec::new();
        secs.push(48u8);
        UtcTime { hours: 0, mins: 0, secs }
    }
}

impl Clone for UtcTime {
    fn clone(&self) -> (r: Self)
        ensures
            r@ == self@,
    {
        UtcTime { hours: self.hours, mins: self.mins, secs: copy_bytes(self.secs.as_slice()) }
    }
}

/// A latitude or longitude as the receiver wrote it: whole degrees, decimal
/// minutes, and whether it lies south (or west) of the reference line.
/// The angle in degrees is `degrees + minutes / 60`, negated when `negative`.
#[derive(Debug)]
pub struct Angle {
    pub degrees: Vec<u8>,
    pub minutes: Vec<u8>,
    pub negative: bool,
}

/// The contents of an [`Angle`].
#[verifier::ext_equal]
pub struct AngleView {
    pub degrees: Seq<u8>,
    pub minutes: Seq<u8>,
    pub negative: bool,
}

impl View for Angle {
    type V = AngleView;

    open spec fn view(&self) -> AngleView {
        AngleView { degrees: self.degrees@, minutes: self.minutes@, negative: self.negative }
    }
}

impl Angle {
    /// An angle with no text, which reads as "not a number".
    fn unknown() -> (r: Self)
        ensures
            r@ == (AngleView { degrees: Seq::empty(), minutes: Seq::empty(), negative: false }),
    {
        Angle { degrees: Vec::new(), minutes: Vec::new(), negative: false }
    }
}

impl Clone for Angle {
    fn clone(&self) -> (r: Self)
        ensures
            r@ == self@,
    {
        Angle {
            degrees: copy_bytes(self.degrees.as_slice()),
            minutes: copy_bytes(self.minutes.as_slice()),
            negative: self.negative,
        }
    }
}

/// Position, motion and time from the last RMC and GGA sentences, with a
/// copy of the last sentence of each kind that was taken in.
#[derive(Debug)]
pub struct GpsData {
    /// Latitude (degrees in the first two digits).
    pub lat: Angle,
    /// Longitude (degrees in the first three digits).
    pub long: Angle,
    /// Course over ground, degrees, as written.
    pub heading: Vec<u8>,
    /// Speed over ground, knots, as written.
    pub speed_knots: Vec<u8>,
    /// Altitude above mean sea level, metres, as written.
    pub alt: Vec<u8>,
    pub utc: UtcTime,
    pub fix_quality: FixQuality,
    pub rmc_rx_buf_copy: [u8; MAX_NMEA_0183],
    pub gga_rx_buf_copy: [u8; MAX_NMEA_0183],
}

/// The contents of a [`GpsData`].
#[verifier::ext_equal]
pub struct GpsView {
    pub lat: AngleView,
    pub long: AngleView,
    pub heading: Seq<u8>,
    pub speed_knots: Seq<u8>,
    pub alt: Seq<u8>,
    pub utc: UtcView,
    pub fix_quality: FixQuality,
    pub rmc_rx_buf_copy: Seq<u8>,
    pub gga_rx_buf_copy: Seq<u8>,
}

impl View for GpsData {
    type V = GpsView;

    open spec fn view(&self) -> GpsView {
        GpsView {
            lat: self.lat@,
            long: self.long@,
            heading: self.heading@,
            speed_knots: self.speed_knots@,
            alt: self.alt@,
            utc: self.utc@,
            fix_quality: self.fix_quality,
            rmc_rx_buf_copy: self.rmc_rx_buf_copy@,
            gga_rx_buf_copy: self.gga_rx_buf_copy@,
        }
    }
}

/// `n` zero bytes.
pub open spec fn zeros(n: nat) -> Seq<u8> {
    Seq::new(n, |i: int| 0u8)
}

/// The data before any sentence: every value unknown, the clock at
/// midnight, no fix, empty sentence copies.
pub open spec fn initial_gps_view() -> GpsView {
    GpsView {
        lat: AngleView { degrees: Seq::empty(), minutes: Seq::empty(), negative: false },
        long: AngleView { degrees: Seq::empty(), minutes: Seq::empty(), negative: false },
        heading: Seq::empty(),
        speed_knots: Seq::empty(),
        alt: Seq::empty(),
        utc: UtcView { hours: 0, mins: 0, secs: seq![48u8] },
        fix_quality: FixQuality { fix: 0, satellites: 0 },
        rmc_rx_buf_copy: zeros(82),
        gga_rx_buf_copy: zeros(82),
    }
}

impl GpsData {
    /// Nothing received yet: every value unknown, the clock at midnight,
    /// no fix, empty sentence copies.
    pub fn new() -> (r: Self)
        ensures
            r@ == initial_gps_view(),
    {
        let r = GpsData {
            lat: Angle::unknown(),
            long: Angle::unknown(),
            heading: Vec::new(),
            speed_knots: Vec::new(),
            alt: Vec::new(),
            utc: UtcTime::new(),
            fix_quality: FixQuality::new(),
            rmc_rx_buf_copy: [0u8; 82],
            gga_rx_buf_copy: [0u8; 82],
        };
        assert(r@.rmc_rx_buf_copy =~= zeros(82));
        assert(r@.gga_rx_buf_copy =~= zeros(82));
        r
    }
}

impl Clone for GpsData {
    fn clone(&self) -> (r: Self)
        ensures
            r@ == self@,
    {
        GpsData {
            lat: self.lat.clone(),
            long: self.long.clone(),
            heading: copy_bytes(self.heading.as_slice()),
            speed_knots: copy_bytes(self.speed_knots.as_slice()),
            alt: copy_bytes(self.alt.as_slice()),
            utc: self.utc.clone(),
            fix_quality: self.fix_quality,
            rmc_rx_buf_copy: self.rmc_rx_buf_copy,
            gga_rx_buf_copy: self.gga_rx_buf_copy,
        }
    }
}

/// A fresh vector holding `src[start..end]`.
fn copy_range(src: &[u8], start: usize, end: usize) -> (r: Vec<u8>)
    requires
        start <= end <= src@.len(),
    ensures
        r@ == src@.subrange(start as int, end as int),
{
    let mut r: Vec<u8> = Vec::new();
    let mut i = start;
    while i < end
        invariant
            start <= i <= end,
            end <= src@.len(),
            r@ == src@.subrange(start as int, i as int),
        decreases end - i,
    {
        r.push(src[i]);
        i = i + 1;
        assert(r@ =~= src@.subrange(start as int, i as int));
    }
    r
}

/// A fresh vector holding `src`.
fn copy_bytes(src: &[u8]) -> (r: Vec<u8>)
    ensures
        r@ == src@,
{
    let r = copy_range(src, 0, src.len());
    assert(src@.subrange(0, src@.len() as int) =~= src@);
    r
}

// ---------------------------------------------------------------------------
// Sentence assembly
// ---------------------------------------------------------------------------

/// The state of sentence assembly: whether a sentence is being received,
/// where its next byte goes, and the receive buffer.
#[verifier::ext_equal]
pub struct Assembly {
    pub started: bool,
    pub idx: int,
    pub buffer: Seq<u8>,
}

/// What one received byte does to the assembly, and whether it completes a
/// sentence.
///
/// While idle, only `'$'` matters: it clears the buffer, stores itself and
/// starts a sentence. While a sentence is open, a full buffer drops the
/// sentence (and the byte); otherwise the byte is stored, and a line end
/// completes the sentence.
pub open spec fn assembly_step(a: Assembly, byte: u8) -> (Assembly, bool) {
    if a.started {
        if a.idx >= MAX_NMEA_0183 {
            (Assembly { started: false, idx: 0, buffer: a.buffer }, false)
        } else if byte == SENTENCE_END {
            (Assembly { started: false, idx: 0, buffer: a.buffer.update(a.idx, byte) }, true)
        } else {
            (Assembly { started: true, idx: a.idx + 1, buffer: a.buffer.update(a.idx, byte) }, false)
        }
    } else if byte == SENTENCE_START {
        (Assembly { started: true, idx: 1, buffer: zeros(82).update(0, SENTENCE_START) }, false)
    } else {
        (a, false)
    }
}

/// The assembly after the bytes `bytes`, and for each byte whether it
/// completed a sentence.
pub open spec fn assembly_run(a: Assembly, bytes: Seq<u8>) -> (Assembly, Seq<bool>)
    decreases bytes.len(),
{
    if bytes.len() == 0 {
        (a, Seq::empty())
    } else {
        let (b, outs) = assembly_run(a, bytes.drop_last());
        let (c, o) = assembly_step(b, bytes.last());
        (c, outs.push(o))
    }
}

/// A well-formed assembly state: the buffer holds [`MAX_NMEA_0183`] bytes,
/// the next position lies within it (or just past its end while a sentence
/// is open), and an idle receiver points at the start.
pub open spec fn assembly_wf(a: Assembly) -> bool {
    &&& a.buffer.len() == MAX_NMEA_0183
    &&& 0 <= a.idx <= MAX_NMEA_0183
    &&& !a.started ==> a.idx == 0
}

/// Law: every byte keeps a well-formed assembly well-formed.
pub proof fn lemma_step_keeps_wf(a: Assembly, byte: u8)
    requires
        assembly_wf(a),
    ensures
        assembly_wf(assembly_step(a, byte).0),
{
}

/// A sentence as the receiver sends it: `'$'`, a body without line ends,
/// and a line end, at most [`MAX_NMEA_0183`] bytes in all.
pub open spec fn is_sentence(s: Seq<u8>) -> bool {
    &&& 2 <= s.len() <= MAX_NMEA_0183
    &&& s[0] == SENTENCE_START
    &&& s.last() == SENTENCE_END
    &&& forall|i: int| 0 < i < s.len() - 1 ==> #[trigger] s[i] != SENTENCE_END
}

/// While the first `k` bytes of a sentence (not yet its line end) come in,
/// they stand at the front of a zeroed buffer and nothing is reported.
proof fn lemma_sentence_prefix(a: Assembly, s: Seq<u8>, k: int)
    requires
        !a.started,
        1 <= k <= s.len(),
        k <= MAX_NMEA_0183,
        s[0] == SENTENCE_START,
        forall|i: int| 0 < i < k ==> #[trigger] s[i] != SENTENCE_END,
    ensures
        assembly_run(a, s.subrange(0, k)).0 == (Assembly {
            started: true,
            idx: k,
            buffer: s.subrange(0, k) + zeros((82 - k) as nat),
        }),
        assembly_run(a, s.subrange(0, k)).1 == Seq::new(k as nat, |i: int| false),
    decreases k,
{
    let p = s.subrange(0, k);
    let (b, outs) = assembly_run(a, p.drop_last());
    assert(assembly_run(a, p) == ({
        let (c, o) = assembly_step(b, p.last());
        (c, outs.push(o))
    }));
    if k == 1 {
        assert(p.drop_last() =~= Seq::<u8>::empty());
        assert(b == a && outs == Seq::<bool>::empty());
        assert(zeros(82).update(0, SENTENCE_START) =~= p + zeros(81));
        assert(Seq::<bool>::empty().push(false) =~= Seq::new(1, |i: int| false));
    } else {
        lemma_sentence_prefix(a, s, k - 1);
        assert(p.drop_last() =~= s.subrange(0, k - 1));
        assert(p.last() == s[k - 1]);
        let prev = s.subrange(0, k - 1) + zeros((82 - (k - 1)) as nat);
        assert(prev.update(k - 1, s[k - 1]) =~= p + zeros((82 - k) as nat));
        assert(Seq::new((k - 1) as nat, |i: int| false).push(false) =~= Seq::new(
            k as nat,
            |i: int| false,
        ));
    }
}

/// Law: from an idle receiver, the bytes of one sentence are reported
/// complete exactly at its line end, and leave the receiver idle with the
/// sentence at the front of the buffer and zeros after it.
pub proof fn lemma_sentence_assembled(a: Assembly, s: Seq<u8>)
    requires
        !a.started,
        is_sentence(s),
    ensures
        assembly_run(a, s).0 == (Assembly {
            started: false,
            idx: 0,
            buffer: s + zeros((82 - s.len()) as nat),
        }),
        assembly_run(a, s).1 == Seq::new(s.len(), |i: int| i == s.len() - 1),
{
    let n = s.len() as int;
    lemma_sentence_prefix(a, s, n - 1);
    assert(s.drop_last() =~= s.subrange(0, n - 1));
    let (b, outs) = assembly_run(a, s.drop_last());
    assert(assembly_run(a, s) == ({
        let (c, o) = assembly_step(b, s.last());
        (c, outs.push(o))
    }));
    let prev = s.subrange(0, n - 1) + zeros((82 - (n - 1)) as nat);
    assert(prev.update(n - 1, s[n - 1]) =~= s + zeros((82 - n) as nat));
    assert(Seq::new((n - 1) as nat, |i: int| false).push(true) =~= Seq::new(
        s.len(),
        |i: int| i == n - 1,
    ));
}

/// Law: an idle receiver ignores every byte until a `'$'`; it stays as it
/// was and reports nothing.
pub proof fn lemma_noise_ignored(a: Assembly, bytes: Seq<u8>)
    requires
        !a.started,
        forall|i: int| 0 <= i < bytes.len() ==> #[trigger] bytes[i] != SENTENCE_START,
    ensures
        assembly_run(a, bytes).0 == a,
        assembly_run(a, bytes).1 == Seq::new(bytes.len(), |i: int| false),
    decreases bytes.len(),
{
    if bytes.len() > 0 {
        let t = bytes.drop_last();
        assert forall|i: int| 0 <= i < t.len() implies #[trigger] t[i] != SENTENCE_START by {
            assert(t[i] == bytes[i]);
        }
        lemma_noise_ignored(a, t);
        assert(Seq::new(t.len(), |i: int| false).push(false) =~= Seq::new(
            bytes.len(),
            |i: int| false,
        ));
    } else {
        assert(Seq::<bool>::empty() =~= Seq::new(0, |i: int| false));
    }
}

/// Law: a sentence that does not end within [`MAX_NMEA_0183`] bytes is
/// dropped: after `'$'` and 81 more bytes without a line end, the next byte
/// leaves the receiver idle and reports nothing.
pub proof fn lemma_overlong_dropped(a: Assembly, bytes: Seq<u8>)
    requires
        !a.started,
        bytes.len() == MAX_NMEA_0183 + 1,
        bytes[0] == SENTENCE_START,
        forall|i: int| 0 < i < MAX_NMEA_0183 ==> #[trigger] bytes[i] != SENTENCE_END,
    ensures
        !assembly_run(a, bytes).0.started,
        assembly_run(a, bytes).1 == Seq::new(bytes.len(), |i: int| false),
{
    lemma_sentence_prefix(a, bytes, 82);
    assert(bytes.drop_last() =~= bytes.subrange(0, 82));
    let (b, outs) = assembly_run(a, bytes.drop_last());
    assert(assembly_run(a, bytes) == ({
        let (c, o) = assembly_step(b, bytes.last());
        (c, outs.push(o))
    }));
    assert(Seq::new(82, |i: int| false).push(false) =~= Seq::new(83, |i: int| false));
}

// ---------------------------------------------------------------------------
// Fields
// ---------------------------------------------------------------------------

/// The comma-separated fields of `s`, as `split` on `','` yields them:
/// `n` commas give `n + 1` fields, empty ones included.
pub open spec fn comma_fields(s: Seq<u8>) -> Seq<Seq<u8>>
    decreases s.len(),
{
    if s.len() == 0 {
        seq![Seq::<u8>::empty()]
    } else {
        let prev = comma_fields(s.drop_last());
        if s.last() == FIELD_SEPARATOR {
            prev.push(Seq::<u8>::empty())
        } else {
            prev.update(prev.len() - 1, prev.last().push(s.last()))
        }
    }
}

/// There is always at least one field.
pub proof fn lemma_comma_fields_nonempty(s: Seq<u8>)
    ensures
        comma_fields(s).len() >= 1,
    decreases s.len(),
{
    if s.len() > 0 {
        lemma_comma_fields_nonempty(s.drop_last());
    }
}

/// The number of commas in `s`.
pub open spec fn comma_count(s: Seq<u8>) -> nat
    decreases s.len(),
{
    if s.len() == 0 {
        0
    } else {
        comma_count(s.drop_last()) + if s.last() == FIELD_SEPARATOR {
            1nat
        } else {
            0nat
        }
    }
}

/// The fields joined back together with `','` between them.
pub open spec fn join_fields(f: Seq<Seq<u8>>) -> Seq<u8>
    decreases f.len(),
{
    if f.len() == 0 {
        Seq::empty()
    } else if f.len() == 1 {
        f[0]
    } else {
        join_fields(f.drop_last()) + seq![FIELD_SEPARATOR] + f.last()
    }
}

/// Law: splitting loses nothing and is exact: joining the fields with
/// commas gives back the text, no field holds a comma, and there is one
/// more field than there are commas.
pub proof fn lemma_split_join(s: Seq<u8>)
    ensures
        join_fields(comma_fields(s)) == s,
        forall|j: int, k: int|
            0 <= j < comma_fields(s).len() && 0 <= k < comma_fields(s)[j].len()
                ==> #[trigger] comma_fields(s)[j][k] != FIELD_SEPARATOR,
        comma_fields(s).len() == comma_count(s) + 1,
    decreases s.len(),
{
    if s.len() > 0 {
        let t = s.drop_last();
        let b = s.last();
        lemma_split_join(t);
        lemma_comma_fields_nonempty(t);
        let prev = comma_fields(t);
        let f = comma_fields(s);
        assert(s =~= t.push(b));
        if b == FIELD_SEPARATOR {
            assert(f == prev.push(Seq::<u8>::empty()));
            assert(f.drop_last() =~= prev);
            assert(join_fields(f) =~= t + seq![FIELD_SEPARATOR] + Seq::<u8>::empty());
            assert(join_fields(f) =~= s);
        } else {
            assert(f == prev.update(prev.len() - 1, prev.last().push(b)));
            if prev.len() == 1 {
                assert(join_fields(f) =~= s);
            } else {
                assert(f.drop_last() =~= prev.drop_last());
                assert(join_fields(f) =~= join_fields(prev.drop_last()) + seq![FIELD_SEPARATOR]
                    + prev.last().push(b));
                assert(join_fields(prev) =~= join_fields(prev.drop_last()) + seq![FIELD_SEPARATOR]
                    + prev.last());
                assert(join_fields(f) =~= s);
            }
            assert forall|j: int, k: int|
                0 <= j < f.len() && 0 <= k < f[j].len() implies #[trigger] f[j][k] != FIELD_SEPARATOR by {
                if j == prev.len() - 1 && k == prev.last().len() {
                    assert(f[j][k] == b);
                } else {
                    assert(f[j][k] == prev[j][k]);
                }
            }
        }
    }
}

/// Splits `msg` at every `','`.
pub fn split_fields(msg: &[u8]) -> (fields: Vec<Vec<u8>>)
    ensures
        fields@.len() == comma_fields(msg@).len(),
        forall|j: int| 0 <= j < fields@.len() ==> #[trigger] fields@[j]@ == comma_fields(msg@)[j],
{
    let mut fields: Vec<Vec<u8>> = Vec::new();
    let mut cur: Vec<u8> = Vec::new();
    let mut i: usize = 0;
    assert(msg@.subrange(0, 0) =~= Seq::<u8>::empty());
    while i < msg.len()
        invariant
            i <= msg@.len(),
            comma_fields(msg@.subrange(0, i as int)).len() == fields@.len() + 1,
            forall|j: int|
                0 <= j < fields@.len() ==> #[trigger] fields@[j]@ == comma_fields(
                    msg@.subrange(0, i as int),
                )[j],
            cur@ == comma_fields(msg@.subrange(0, i as int))[fields@.len() as int],
        decreases msg@.len() - i,
    {
        let b = msg[i];
        let ghost prefix = msg@.subrange(0, i + 1);
        assert(prefix.drop_last() =~= msg@.subrange(0, i as int));
        assert(prefix.last() == b);
        proof {
            lemma_comma_fields_nonempty(msg@.subrange(0, i as int));
        }
        if b == FIELD_SEPARATOR {
            fields.push(cur);
            cur = Vec::new();
        } else {
            cur.push(b);
        }
        i = i + 1;
    }
    assert(msg@.subrange(0, msg@.len() as int) =~= msg@);
    fields.push(cur);
    fields
}

/// True when `field` is exactly the one byte `mark`.
pub open spec fn is_mark(field: Seq<u8>, mark: u8) -> bool {
    field.len() == 1 && field[0] == mark
}

/// An angle field split after `deg_len` degree digits, with its hemisphere
/// field; `negative_mark` is the hemisphere letter that negates it.
pub open spec fn spec_angle(text: Seq<u8>, hemisphere: Seq<u8>, deg_len: int, negative_mark: u8) -> AngleView {
    AngleView {
        degrees: text.subrange(0, deg_len),
        minutes: text.subrange(deg_len, text.len() as int),
        negative: is_mark(hemisphere, negative_mark),
    }
}

/// A time field can be read without fault: it has at least four bytes and,
/// when it is UTF-8, bytes 2 and 4 start characters.
pub open spec fn utc_parsable(u: Seq<u8>) -> bool {
    u.len() >= 4 && (valid_utf8(u) ==> is_char_boundary(u, 2) && is_char_boundary(u, 4))
}

/// The time a field `hhmmss.sss` reads as; text that is not UTF-8 reads as
/// 0 hours and 0 minutes.
pub open spec fn spec_parse_utc(u: Seq<u8>) -> UtcView {
    UtcView {
        hours: if valid_utf8(u) { spec_parse_u8(u.subrange(0, 2)) } else { 0 },
        mins: if valid_utf8(u) { spec_parse_u8(u.subrange(2, 4)) } else { 0 },
        secs: u.subrange(4, u.len() as int),
    }
}

/// ASCII text is valid UTF-8.
proof fn lemma_ascii_is_utf8(s: Seq<u8>)
    requires
        forall|i: int| 0 <= i < s.len() ==> #[trigger] s[i] < 0x80,
    ensures
        valid_utf8(s),
    decreases s.len(),
{
    if s.len() > 0 {
        let b = s[0];
        assert((b & 0x7Fu8) == b && (b as u32 & 0x7Fu32) == b as u32) by (bit_vector)
            requires
                b < 0x80,
        ;
        let rest = s.subrange(1, s.len() as int);
        assert forall|i: int| 0 <= i < rest.len() implies #[trigger] rest[i] < 0x80 by {
            assert(rest[i] == s[i + 1]);
        }
        lemma_ascii_is_utf8(rest);
        assert(pop_first_scalar(s) =~= rest);
    }
}

/// Law: an ASCII time field `hhmmss.sss` reads its hours from the first two
/// bytes, its minutes from the next two, and keeps the rest as the seconds.
pub proof fn lemma_utc_reads_hhmm(u: Seq<u8>)
    requires
        u.len() >= 4,
        forall|i: int| 0 <= i < u.len() ==> #[trigger] u[i] < 0x80,
    ensures
        spec_parse_utc(u).hours == spec_parse_u8(u.take(2)),
        spec_parse_utc(u).mins == spec_parse_u8(u.subrange(2, 4)),
        spec_parse_utc(u).secs == u.skip(4),
{
    lemma_ascii_is_utf8(u);
    assert(u.take(2) =~= u.subrange(0, 2));
    assert(u.skip(4) =~= u.subrange(4, u.len() as int));
}

/// True when the RMC status field marks a valid fix (its first byte is `'A'`).
pub open spec fn rmc_status_valid(status: Seq<u8>) -> bool {
    status.len() > 0 && status[0] == STATUS_VALID
}

/// Which sentence a buffer holds, by the three letters after the talker id.
pub enum SentenceKind {
    Rmc,
    Gga,
    Other,
}

/// The kind of sentence in `b` (`$ttRMC...`, `$ttGGA...`, or anything else).
pub open spec fn sentence_kind(b: Seq<u8>) -> SentenceKind {
    if b[3] == 82 && b[4] == 77 && b[5] == 67 {
        SentenceKind::Rmc
    } else if b[3] == 71 && b[4] == 71 && b[5] == 65 {
        SentenceKind::Gga
    } else {
        SentenceKind::Other
    }
}

/// An RMC sentence can be read without fault: it has at least 12 fields,
/// and when the fix is valid its latitude has 2 and its longitude 3 bytes
/// of degrees and its time field can be read.
pub open spec fn rmc_parsable(b: Seq<u8>) -> bool {
    let f = comma_fields(b);
    f.len() >= 12 && (rmc_status_valid(f[2]) ==> f[3].len() >= 2 && f[5].len() >= 3
        && utc_parsable(f[1]))
}

/// A GGA sentence can be read without fault: it has at least 14 fields, its
/// time field can be read, and its latitude has 2 and its longitude 3 bytes
/// of degrees.
pub open spec fn gga_parsable(b: Seq<u8>) -> bool {
    let f = comma_fields(b);
    f.len() >= 14 && utc_parsable(f[1]) && f[2].len() >= 2 && f[4].len() >= 3
}

/// The buffer holds a sentence that [`Neom8n::parse_message`] can read.
pub open spec fn message_parsable(b: Seq<u8>) -> bool {
    match sentence_kind(b) {
        SentenceKind::Rmc => rmc_parsable(b),
        SentenceKind::Gga => gga_parsable(b),
        SentenceKind::Other => true,
    }
}

/// The data after an RMC sentence: with a valid fix, time, position, speed
/// and course come from fields 1 and 3 to 8 and the sentence is kept;
/// otherwise nothing changes.
pub open spec fn rmc_update(d: GpsView, b: Seq<u8>) -> GpsView {
    let f = comma_fields(b);
    if !rmc_status_valid(f[2]) {
        d
    } else {
        GpsView {
            lat: spec_angle(f[3], f[4], 2, HEMISPHERE_SOUTH),
            long: spec_angle(f[5], f[6], 3, HEMISPHERE_WEST),
            heading: f[8],
            speed_knots: f[7],
            alt: d.alt,
            utc: spec_parse_utc(f[1]),
            fix_quality: d.fix_quality,
            rmc_rx_buf_copy: b,
            gga_rx_buf_copy: d.gga_rx_buf_copy,
        }
    }
}

/// The data after a GGA sentence: time, position, fix, satellites and
/// altitude come from fields 1 to 7 and 9, and the sentence is kept.
pub open spec fn gga_update(d: GpsView, b: Seq<u8>) -> GpsView {
    let f = comma_fields(b);
    GpsView {
        lat: spec_angle(f[2], f[3], 2, HEMISPHERE_SOUTH),
        long: spec_angle(f[4], f[5], 3, HEMISPHERE_WEST),
        heading: d.heading,
        speed_knots: d.speed_knots,
        alt: f[9],
        utc: spec_parse_utc(f[1]),
        fix_quality: FixQuality { fix: spec_parse_u8(f[6]), satellites: spec_parse_u8(f[7]) },
        rmc_rx_buf_copy: d.rmc_rx_buf_copy,
        gga_rx_buf_copy: b,
    }
}

/// The data after the sentence in buffer `b` is read.
pub open spec fn message_update(d: GpsView, b: Seq<u8>) -> GpsView {
    match sentence_kind(b) {
        SentenceKind::Rmc => rmc_update(d, b),
        SentenceKind::Gga => gga_update(d, b),
        SentenceKind::Other => d,
    }
}

/// Law: the position read from a valid RMC sentence. The latitude is field
/// 3 split after two degree digits and is negative exactly when field 4 is
/// `S`; the longitude is field 5 split after three degree digits and is
/// negative exactly when field 6 is `W`. Time, speed and course come from
/// fields 1, 7 and 8, and the sentence itself is kept.
pub proof fn lemma_rmc_reads_fields(d: GpsView, b: Seq<u8>)
    requires
        sentence_kind(b) is Rmc,
        rmc_status_valid(comma_fields(b)[2]),
    ensures
        ({
            let f = comma_fields(b);
            let e = message_update(d, b);
            &&& e.lat.degrees == f[3].take(2)
            &&& e.lat.minutes == f[3].skip(2)
            &&& e.lat.negative == (f[4] =~= seq![('S' as u8)])
            &&& e.long.degrees == f[5].take(3)
            &&& e.long.minutes == f[5].skip(3)
            &&& e.long.negative == (f[6] =~= seq![('W' as u8)])
            &&& e.utc == spec_parse_utc(f[1])
            &&& e.speed_knots == f[7]
            &&& e.heading == f[8]
            &&& e.rmc_rx_buf_copy == b
        }),
{
    let f = comma_fields(b);
    lemma_mark_is_one_byte(f[4], ('S' as u8));
    lemma_mark_is_one_byte(f[6], ('W' as u8));
    assert(f[3].take(2) =~= f[3].subrange(0, 2));
    assert(f[3].skip(2) =~= f[3].subrange(2, f[3].len() as int));
    assert(f[5].take(3) =~= f[5].subrange(0, 3));
    assert(f[5].skip(3) =~= f[5].subrange(3, f[5].len() as int));
}

/// Law: the data read from a GGA sentence. The latitude is field 2 split
/// after two degree digits and is negative exactly when field 3 is `S`; the
/// longitude is field 4 split after three degree digits and is negative
/// exactly when field 5 is `W`. Time comes from field 1, the fix indicator
/// and the satellite count are the numbers in fields 6 and 7, the altitude
/// is field 9, and the sentence itself is kept.
pub proof fn lemma_gga_reads_fields(d: GpsView, b: Seq<u8>)
    requires
        sentence_kind(b) is Gga,
    ensures
        ({
            let f = comma_fields(b);
            let e = message_update(d, b);
            &&& e.lat.degrees == f[2].take(2)
            &&& e.lat.minutes == f[2].skip(2)
            &&& e.lat.negative == (f[3] =~= seq![('S' as u8)])
            &&& e.long.degrees == f[4].take(3)
            &&& e.long.minutes == f[4].skip(3)
            &&& e.long.negative == (f[5] =~= seq![('W' as u8)])
            &&& e.utc == spec_parse_utc(f[1])
            &&& e.fix_quality.fix == spec_parse_u8(f[6])
            &&& e.fix_quality.satellites == spec_parse_u8(f[7])
            &&& e.alt == f[9]
            &&& e.gga_rx_buf_copy == b
        }),
{
    let f = comma_fields(b);
    lemma_mark_is_one_byte(f[3], ('S' as u8));
    lemma_mark_is_one_byte(f[5], ('W' as u8));
    assert(f[2].take(2) =~= f[2].subrange(0, 2));
    assert(f[2].skip(2) =~= f[2].subrange(2, f[2].len() as int));
    assert(f[4].take(3) =~= f[4].subrange(0, 3));
    assert(f[4].skip(3) =~= f[4].subrange(3, f[4].len() as int));
}

/// A field is the hemisphere mark `mark` exactly when it is that one byte.
proof fn lemma_mark_is_one_byte(field: Seq<u8>, mark: u8)
    ensures
        is_mark(field, mark) == (field =~= seq![mark]),
{
    if is_mark(field, mark) {
        assert(field =~= seq![mark]);
    }
}

/// Law: reading a sentence only ever changes what that kind of sentence
/// carries. An RMC sentence without a valid fix, and any sentence that is
/// neither RMC nor GGA, change nothing; an RMC sentence leaves altitude, fix
/// quality and the GGA copy as they were; a GGA sentence leaves course,
/// speed and the RMC copy as they were.
pub proof fn lemma_sentence_touches_own_fields(d: GpsView, b: Seq<u8>)
    ensures
        sentence_kind(b) is Other ==> message_update(d, b) == d,
        sentence_kind(b) is Rmc && !rmc_status_valid(comma_fields(b)[2]) ==> message_update(d, b)
            == d,
        sentence_kind(b) is Rmc ==> ({
            let e = message_update(d, b);
            &&& e.alt == d.alt
            &&& e.fix_quality == d.fix_quality
            &&& e.gga_rx_buf_copy == d.gga_rx_buf_copy
        }),
        sentence_kind(b) is Gga ==> ({
            let e = message_update(d, b);
            &&& e.heading == d.heading
            &&& e.speed_knots == d.speed_knots
            &&& e.rmc_rx_buf_copy == d.rmc_rx_buf_copy
        }),
{
}

/// Errors of the GPS link: a serial error, a sentence that does not read,
/// or no position fix.
#[derive(Debug)]
pub enum GpsError<E> {
    Uart(E),
    BrokenMessage,
    InvalidFix,
}

/// GPS receiver state: the data read so far and the sentence being received.
pub struct Neom8n {
    data: GpsData,
    rx_buffer: [u8; MAX_NMEA_0183],
    msg_idx: usize,
    msg_started: bool,
}

impl Neom8n {
    #[verifier::type_invariant]
    spec fn assembly_is_wf(&self) -> bool {
        assembly_wf(self.assembly())
    }

    /// The sentence-assembly state.
    pub closed spec fn assembly(&self) -> Assembly {
        Assembly { started: self.msg_started, idx: self.msg_idx as int, buffer: self.rx_buffer@ }
    }

    /// The data read so far.
    pub closed spec fn data(&self) -> GpsView {
        self.data@
    }

    /// A receiver that is idle, with an empty buffer and no data.
    pub fn new() -> (r: Self)
        ensures
            r.assembly() == (Assembly { started: false, idx: 0, buffer: zeros(82) }),
            assembly_wf(r.assembly()),
            r.data() == initial_gps_view(),
    {
        let data = GpsData::new();
        let r = Neom8n { data, rx_buffer: [0u8; 82], msg_idx: 0, msg_started: false };
        assert(r.rx_buffer@ =~= zeros(82));
        r
    }

    /// Takes in one byte from the serial line; returns true when it completes
    /// a sentence, which then stands in the buffer.
    pub fn build_message(&mut self, byte: u8) -> (complete: bool)
        ensures
            final(self).assembly() == assembly_step(old(self).assembly(), byte).0,
            complete == assembly_step(old(self).assembly(), byte).1,
            final(self).data() == old(self).data(),
            assembly_wf(final(self).assembly()),
    {
        proof {
            use_type_invariant(&*self);
        }
        if self.msg_started {
            if self.msg_idx >= MAX_NMEA_0183 {
                self.msg_idx = 0;
                self.msg_started = false;
            } else if byte == SENTENCE_END {
                self.rx_buffer[self.msg_idx] = byte;
                self.msg_idx = 0;
                self.msg_started = false;
                return true;
            } else {
                self.rx_buffer[self.msg_idx] = byte;
                self.msg_idx = self.msg_idx + 1;
            }
        } else {
            if byte == SENTENCE_START {
                self.msg_idx = 0;
                self.msg_started = true;
                self.rx_buffer = [0u8; 82];
                self.rx_buffer[0] = byte;
                self.msg_idx = 1;
                assert(self.rx_buffer@ =~= zeros(82).update(0, SENTENCE_START));
            }
        }
        false
    }

    /// True when the sentence in the buffer can be read by
    /// [`Neom8n::parse_message`].
    pub fn message_is_parsable(&self) -> (r: bool)
        ensures
            r == message_parsable(self.assembly().buffer),
    {
        let buf: &[u8] = self.rx_buffer.as_slice();
        if buf[3] == 82 && buf[4] == 77 && buf[5] == 67 {
            let f = split_fields(buf);
            if f.len() < 12 {
                return false;
            }
            if !(f[2].len() > 0 && f[2][0] == STATUS_VALID) {
                return true;
            }
            f[3].len() >= 2 && f[5].len() >= 3 && Self::utc_is_parsable(f[1].as_slice())
        } else if buf[3] == 71 && buf[4] == 71 && buf[5] == 65 {
            let f = split_fields(buf);
            f.len() >= 14 && Self::utc_is_parsable(f[1].as_slice()) && f[2].len() >= 2
                && f[4].len() >= 3
        } else {
            true
        }
    }

    /// True when a time field can be read without fault.
    fn utc_is_parsable(u: &[u8]) -> (r: bool)
        ensures
            r == utc_parsable(u@),
    {
        if u.len() < 4 {
            return false;
        }
        if !utf8_is_valid(u) {
            return true;
        }
        let b2 = u[2];
        let start2 = !(0x80 <= b2 && b2 <= 0xbf);
        let start4 = u.len() == 4 || !(0x80 <= u[4] && u[4] <= 0xbf);
        proof {
            assert(is_char_boundary(u@, 2) == !is_continuation_byte(u@[2]));
            if u@.len() > 4 {
                assert(is_char_boundary(u@, 4) == !is_continuation_byte(u@[4]));
            } else {
                assert(is_char_boundary(u@, u@.len() as int));
            }
        }
        start2 && start4
    }

    /// Reads the sentence in the buffer: an RMC or GGA sentence updates the
    /// data, any other sentence is ignored.
    pub fn parse_message(&mut self)
        requires
            message_parsable(old(self).assembly().buffer),
        ensures
            final(self).data() == message_update(old(self).data(), old(self).assembly().buffer),
            final(self).assembly() == old(self).assembly(),
            assembly_wf(final(self).assembly()),
    {
        proof {
            use_type_invariant(&*self);
        }
        let buf: [u8; MAX_NMEA_0183] = self.rx_buffer;
        if buf[3] == 82 && buf[4] == 77 && buf[5] == 67 {
            self.parse_rmc(&buf);
        } else if buf[3] == 71 && buf[4] == 71 && buf[5] == 65 {
            self.parse_gga(&buf);
        }
    }

    /// Reads the time field `hhmmss.sss`.
    fn parse_utc(utc_slice: &[u8]) -> (t: UtcTime)
        requires
            utc_parsable(utc_slice@),
        ensures
            t@ == spec_parse_utc(utc_slice@),
    {
        let valid = utf8_is_valid(utc_slice);
        let hours = if valid {
            parse_u8(&utc_slice[0..2])
        } else {
            0
        };
        let mins = if valid {
            parse_u8(&utc_slice[2..4])
        } else {
            0
        };
        UtcTime { hours, mins, secs: copy_range(utc_slice, 4, utc_slice.len()) }
    }

    /// Reads a latitude and longitude with their hemisphere fields.
    fn parse_lla(lat: &[u8], long: &[u8], ns: &[u8], ew: &[u8]) -> (r: (Angle, Angle))
        requires
            lat@.len() >= 2,
            long@.len() >= 3,
        ensures
            r.0@ == spec_angle(lat@, ns@, 2, HEMISPHERE_SOUTH),
            r.1@ == spec_angle(long@, ew@, 3, HEMISPHERE_WEST),
    {
        let lat_angle = Angle {
            degrees: copy_range(lat, 0, 2),
            minutes: copy_range(lat, 2, lat.len()),
            negative: ns.len() == 1 && ns[0] == HEMISPHERE_SOUTH,
        };
        let long_angle = Angle {
            degrees: copy_range(long, 0, 3),
            minutes: copy_range(long, 3, long.len()),
            negative: ew.len() == 1 && ew[0] == HEMISPHERE_WEST,
        };
        (lat_angle, long_angle)
    }

    /// RMC: `$ID,UTC,STATUS,LAT,N/S,LONG,E/W,SPEED,COURSE,DATE,MAGVAR,E/W,...`
    fn parse_rmc(&mut self, msg: &[u8; MAX_NMEA_0183])
        requires
            rmc_parsable(msg@),
        ensures
            final(self).data() == rmc_update(old(self).data(), msg@),
            final(self).assembly() == old(self).assembly(),
    {
        proof {
            use_type_invariant(&*self);
        }
        let sections = split_fields(msg.as_slice());
        let ghost f = comma_fields(msg@);
        assert(sections@[2]@ == f[2]);
        if !(sections[2].len() > 0 && sections[2][0] == STATUS_VALID) {
            return;
        }
        assert(sections@[1]@ == f[1] && sections@[3]@ == f[3] && sections@[4]@ == f[4]);
        assert(sections@[5]@ == f[5] && sections@[6]@ == f[6] && sections@[7]@ == f[7]);
        assert(sections@[8]@ == f[8]);
        let (lat, long) = Self::parse_lla(
            sections[3].as_slice(),
            sections[5].as_slice(),
            sections[4].as_slice(),
            sections[6].as_slice(),
        );
        let utc = Self::parse_utc(sections[1].as_slice());
        let speed = copy_bytes(sections[7].as_slice());
        let course = copy_bytes(sections[8].as_slice());
        self.data.utc = utc;
        self.data.lat = lat;
        self.data.long = long;
        self.data.heading = course;
        self.data.speed_knots = speed;
        self.data.rmc_rx_buf_copy = *msg;
    }

    /// GGA: `$ID,UTC,LAT,N/S,LONG,E/W,FIX,SATS,HDOP,ALT,M,GEOID,M,AGE,...`
    fn parse_gga(&mut self, msg: &[u8; MAX_NMEA_0183])
        requires
            gga_parsable(msg@),
        ensures
            final(self).data() == gga_update(old(self).data(), msg@),
            final(self).assembly() == old(self).assembly(),
    {
        proof {
            use_type_invariant(&*self);
        }
        let sections = split_fields(msg.as_slice());
        let ghost f = comma_fields(msg@);
        assert(sections@[1]@ == f[1] && sections@[2]@ == f[2] && sections@[3]@ == f[3]);
        assert(sections@[4]@ == f[4] && sections@[5]@ == f[5] && sections@[6]@ == f[6]);
        assert(sections@[7]@ == f[7] && sections@[9]@ == f[9]);
        let utc = Self::parse_utc(sections[1].as_slice());
        let (lat, long) = Self::parse_lla(
            sections[2].as_slice(),
            sections[4].as_slice(),
            sections[3].as_slice(),
            sections[5].as_slice(),
        );
        let fix = parse_u8(sections[6].as_slice());
        let alt = copy_bytes(sections[9].as_slice());
        let satellites = parse_u8(sections[7].as_slice());
        let fix_qual = FixQuality { fix, satellites };
        self.data.utc = utc;
        self.data.lat = lat;
        self.data.long = long;
        self.data.alt = alt;
        self.data.fix_quality = fix_qual;
        self.data.gga_rx_buf_copy = *msg;
    }

    /// A copy of the data read so far.
    pub fn get_data(&self) -> (r: GpsData)
        ensures
            r@ == self.data(),
    {
        self.data.clone()
    }
}

} // verus!
