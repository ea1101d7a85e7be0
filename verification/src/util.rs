//! Text-to-number helpers shared by the drivers.
use vstd::prelude::*;
use vstd::utf8::valid_utf8;

verus! {

/// True when `bytes` is well-formed UTF-8, as `core::str::from_utf8` decides.
///
/// Trusted: calls `core::str::from_utf8`, whose documentation says it returns
/// `Ok` exactly when the slice is valid UTF-8; the contract claims that this
/// agrees with vstd's `valid_utf8`.
#[verifier::external_body]
pub(crate) fn utf8_is_valid(bytes: &[u8]) -> (r: bool)
    ensures
        r == valid_utf8(bytes@),
{
    core::str::from_utf8(bytes).is_ok()
}

/// A value shown as a decimal number by the firmware's text output
/// ("NaN" when it is not a number).
pub struct DisplayFloat<T>(pub T);

/// ASCII `'0'`.
pub const ASCII_ZERO: u8 = 48;

/// ASCII `'+'`.
pub const ASCII_PLUS: u8 = 43;

/// True when `b` is an ASCII decimal digit.
pub open spec fn is_digit(b: u8) -> bool {
    ASCII_ZERO <= b && b <= 57
}

/// True when every byte of `s` is an ASCII decimal digit.
pub open spec fn all_digits(s: Seq<u8>) -> bool {
    forall|i: int| 0 <= i < s.len() ==> #[trigger] is_digit(s[i])
}

/// The value of a string of decimal digits, most significant first.
pub open spec fn decimal_value(s: Seq<u8>) -> nat
    decreases s.len(),
{
    if s.len() == 0 {
        0
    } else {
        decimal_value(s.drop_last()) * 10 + (s.last() - ASCII_ZERO) as nat
    }
}

/// The digits of an unsigned number: the text with one leading `'+'` removed.
pub open spec fn unsigned_digits(s: Seq<u8>) -> Seq<u8> {
    if s.len() > 0 && s[0] == ASCII_PLUS {
        s.drop_first()
    } else {
        s
    }
}

/// What the text `s` reads as a `u8`: an optional `'+'` followed by one or
/// more decimal digits whose value fits in a byte; any other text reads as 0.
pub open spec fn spec_parse_u8(s: Seq<u8>) -> u8 {
    let d = unsigned_digits(s);
    if d.len() > 0 && all_digits(d) && decimal_value(d) <= 255 {
        decimal_value(d) as u8
    } else {
        0
    }
}

/// Appending a digit never lowers the value of a digit string.
proof fn lemma_decimal_value_prefix(s: Seq<u8>, k: int)
    requires
        0 <= k <= s.len(),
        all_digits(s),
    ensures
        decimal_value(s.subrange(0, k)) <= decimal_value(s),
    decreases s.len(),
{
    if k < s.len() {
        let t = s.drop_last();
        assert(all_digits(t));
        assert(t.subrange(0, k) =~= s.subrange(0, k));
        lemma_decimal_value_prefix(t, k);
    } else {
        assert(s.subrange(0, k) =~= s);
    }
}

/// Reads a byte string as an unsigned 8-bit number; text that is not a
/// number in range reads as 0.
pub fn parse_u8(val: &[u8]) -> (r: u8)
    ensures
        r == spec_parse_u8(val@),
{
    let n = val.len();
    let mut start: usize = 0;
    if n > 0 && val[0] == ASCII_PLUS {
        start = 1;
    }
    let ghost d = unsigned_digits(val@);
    assert(d =~= val@.subrange(start as int, n as int));
    if start == n {
        return 0;
    }
    let mut i: usize = start;
    let mut acc: u32 = 0;
    while i < n
        invariant
            start <= i <= n,
            n == val@.len(),
            d == unsigned_digits(val@),
            d =~= val@.subrange(start as int, n as int),
            d.len() > 0,
            all_digits(d.subrange(0, i - start)),
            acc as nat == decimal_value(d.subrange(0, i - start)),
            acc <= 255,
        decreases n - i,
    {
        let b = val[i];
        if b < ASCII_ZERO || b > 57 {
            assert(!is_digit(d[i - start]));
            return 0;
        }
        let ghost pre = d.subrange(0, i - start);
        let ghost nxt = d.subrange(0, i - start + 1);
        assert(nxt.drop_last() =~= pre);
        assert(all_digits(nxt));
        let next: u32 = acc * 10 + (b - ASCII_ZERO) as u32;
        if next > 255 {
            proof {
                if all_digits(d) {
                    lemma_decimal_value_prefix(d, i - start + 1);
                }
            }
            return 0;
        }
        acc = next;
        i = i + 1;
    }
    assert(d.subrange(0, n - start) =~= d);
    acc as u8
}

/// The decimal text of `n`, most significant digit first, without leading
/// zeros.
pub open spec fn decimal_text(n: nat) -> Seq<u8>
    decreases n,
{
    if n < 10 {
        seq![(48 + n) as u8]
    } else {
        decimal_text(n / 10).push((48 + n % 10) as u8)
    }
}

/// The decimal text of `n` is a non-empty string of digits whose value is `n`.
proof fn lemma_decimal_text(n: nat)
    ensures
        decimal_text(n).len() > 0,
        all_digits(decimal_text(n)),
        decimal_value(decimal_text(n)) == n,
    decreases n,
{
    let t = decimal_text(n);
    if n < 10 {
        assert(t.drop_last() =~= Seq::<u8>::empty());
        assert(decimal_value(Seq::<u8>::empty()) == 0);
        assert(t.last() - 48 == n);
    } else {
        lemma_decimal_text(n / 10);
        assert(t.drop_last() =~= decimal_text(n / 10));
        assert(t.last() - 48 == n % 10);
        assert(decimal_value(t) == (n / 10) * 10 + n % 10);
    }
}

/// A digit `'0'` in front of a digit string keeps its value.
proof fn lemma_leading_zero(s: Seq<u8>)
    requires
        all_digits(s),
    ensures
        decimal_value(seq![48u8] + s) == decimal_value(s),
    decreases s.len(),
{
    let z = seq![48u8] + s;
    if s.len() == 0 {
        assert(z.drop_last() =~= Seq::<u8>::empty());
        assert(decimal_value(Seq::<u8>::empty()) == 0);
        assert(z.last() == 48);
    } else {
        assert(all_digits(s.drop_last()));
        lemma_leading_zero(s.drop_last());
        assert(z.drop_last() =~= seq![48u8] + s.drop_last());
        assert(z.last() == s.last());
    }
}

/// Law: the decimal text of every byte value reads back as that value, also
/// behind a `'+'` sign or a leading `'0'` (as in a two-digit field such as
/// `08`); the text of a number above 255 reads as 0.
pub proof fn lemma_parse_u8_reads_decimal(n: nat)
    ensures
        n <= 255 ==> spec_parse_u8(decimal_text(n)) == n,
        n <= 255 ==> spec_parse_u8(seq![43u8] + decimal_text(n)) == n,
        n <= 255 ==> spec_parse_u8(seq![48u8] + decimal_text(n)) == n,
        n > 255 ==> spec_parse_u8(decimal_text(n)) == 0,
{
    let t = decimal_text(n);
    lemma_decimal_text(n);
    assert(is_digit(t[0]));
    let p = seq![43u8] + t;
    assert(p.drop_first() =~= t);
    let z = seq![48u8] + t;
    lemma_leading_zero(t);
    assert(all_digits(z)) by {
        assert forall|i: int| 0 <= i < z.len() implies #[trigger] is_digit(z[i]) by {
            if i > 0 {
                assert(z[i] == t[i - 1]);
            }
        }
    }
}

} // verus!
