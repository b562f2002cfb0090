//! Byte-level text encoding shared by the sentence formats: the XOR checksum,
//! hexadecimal and decimal digits, fixed-point numbers and coordinates.

use vstd::prelude::*;

verus! {

/// XOR of every byte of `s`, folded from the left.
pub open spec fn xor_fold(s: Seq<u8>) -> u8
    decreases s.len(),
{
    if s.len() == 0 {
        0u8
    } else {
        xor_fold(s.drop_last()) ^ s.last()
    }
}

/// Checksum of a sentence: the XOR of all bytes after the leading `$`.
pub fn checksum(buf: &[u8]) -> (r: u8)
    requires
        buf@.len() >= 1,
    ensures
        r == xor_fold(buf@.drop_first()),
{
    let mut sum: u8 = 0;
    let mut i: usize = 1;
    while i < buf.len()
        invariant
            1 <= i <= buf@.len(),
            sum == xor_fold(buf@.subrange(1, i as int)),
        decreases buf@.len() - i,
    {
        assert(buf@.subrange(1, i + 1).drop_last() =~= buf@.subrange(1, i as int));
        sum = sum ^ buf[i];
        i = i + 1;
    }
    assert(buf@.subrange(1, buf@.len() as int) =~= buf@.drop_first());
    sum
}

/// The ASCII digit for `d`, for `d < 10`.
pub open spec fn digit(d: nat) -> u8 {
    (48 + d) as u8
}

/// Decimal digits of `n`, most significant first, without leading zeros.
pub open spec fn decimal(n: nat) -> Seq<u8>
    decreases n,
{
    if n < 10 {
        seq![digit(n)]
    } else {
        decimal(n / 10).push(digit(n % 10))
    }
}

/// `k` ASCII zeros.
pub open spec fn zeros(k: nat) -> Seq<u8> {
    Seq::new(k, |_i: int| 48u8)
}

/// Decimal digits of `n`, left-padded with zeros to at least `width` bytes.
pub open spec fn padded(n: nat, width: nat) -> Seq<u8> {
    let d = decimal(n);
    if d.len() >= width {
        d
    } else {
        zeros((width - d.len()) as nat) + d
    }
}

/// `10` to the power `p`.
pub open spec fn pow10(p: nat) -> nat
    decreases p,
{
    if p == 0 {
        1
    } else {
        10 * pow10((p - 1) as nat)
    }
}

/// Absolute value.
pub open spec fn abs(v: int) -> nat {
    if v < 0 {
        (-v) as nat
    } else {
        v as nat
    }
}

/// A signed fixed-point number `v / 10^places`, written with exactly `places`
/// fractional digits and a leading `-` when negative.
pub open spec fn fixed(v: int, places: nat) -> Seq<u8> {
    let sign: Seq<u8> = if v < 0 { seq![45u8] } else { seq![] };
    sign + decimal(abs(v) / pow10(places)) + seq![46u8] + padded(abs(v) % pow10(places), places)
}

/// Uppercase hexadecimal digit for `d < 16`.
pub open spec fn hex_digit(d: nat) -> u8 {
    if d < 10 {
        (48 + d) as u8
    } else {
        (55 + d) as u8
    }
}

/// Two uppercase hexadecimal digits of a byte.
pub open spec fn hex2(b: u8) -> Seq<u8> {
    seq![hex_digit(b as nat / 16), hex_digit(b as nat % 16)]
}

/// Appends the decimal digits of `n`.
pub fn push_decimal(buf: &mut Vec<u8>, n: u64)
    ensures
        ascii(old(buf)@) ==> ascii(final(buf)@),
        final(buf)@ == old(buf)@ + decimal(n as nat),
    decreases n,
{
    if n >= 10 {
        push_decimal(buf, n / 10);
    }
    let d: u8 = (n % 10) as u8;
    buf.push(48u8 + d);
    assert(final(buf)@ =~= old(buf)@ + decimal(n as nat));
}

/// Appends the decimal digits of `n`, zero-padded to at least `width` bytes.
pub fn push_padded(buf: &mut Vec<u8>, n: u64, width: usize)
    ensures
        ascii(old(buf)@) ==> ascii(final(buf)@),
        final(buf)@ == old(buf)@ + padded(n as nat, width as nat),
{
    let mut digits: Vec<u8> = Vec::new();
    push_decimal(&mut digits, n);
    assert(digits@ =~= decimal(n as nat));
    let mut k: usize = digits.len();
    while k < width
        invariant
            digits@.len() <= k <= width || (k == digits@.len() && k >= width),
            buf@ == old(buf)@ + zeros((k - digits@.len()) as nat),
            digits@ == decimal(n as nat),
        decreases width - k,
    {
        buf.push(48u8);
        k = k + 1;
        assert(buf@ =~= old(buf)@ + zeros((k - digits@.len()) as nat));
    }
    buf.append(&mut digits);
    assert(final(buf)@ =~= old(buf)@ + padded(n as nat, width as nat));
}

/// Computes `10^p` for the small exponents used by the formats.
fn pow10_u64(p: u32) -> (r: u64)
    requires
        p <= 9,
    ensures
        r as nat == pow10(p as nat),
        1 <= r <= 1_000_000_000,
{
    let mut r: u64 = 1;
    let mut i: u32 = 0;
    while i < p
        invariant
            i <= p <= 9,
            r as nat == pow10(i as nat),
        decreases p - i,
    {
        proof {
            lemma_pow10_monotonic((i + 1) as nat, 9);
            reveal_with_fuel(pow10, 10);
        }
        r = r * 10;
        i = i + 1;
    }
    proof {
        lemma_pow10_monotonic(p as nat, 9);
        lemma_pow10_positive(p as nat);
        reveal_with_fuel(pow10, 10);
    }
    r
}

/// Powers of ten grow with the exponent.
pub proof fn lemma_pow10_monotonic(p: nat, q: nat)
    requires
        p <= q,
    ensures
        pow10(p) <= pow10(q),
    decreases q,
{
    if p < q {
        lemma_pow10_monotonic(p, (q - 1) as nat);
        lemma_pow10_positive((q - 1) as nat);
    }
}

/// Every power of ten is at least one.
pub proof fn lemma_pow10_positive(p: nat)
    ensures
        pow10(p) >= 1,
    decreases p,
{
    if p > 0 {
        lemma_pow10_positive((p - 1) as nat);
    }
}

/// Magnitude of a signed value, without overflow at `i64::MIN`.
pub fn magnitude(v: i64) -> (r: u64)
    ensures
        r as nat == abs(v as int),
{
    if v < 0 {
        (-(v as i128)) as u64
    } else {
        v as u64
    }
}

/// Appends `v / 10^places` with exactly `places` fractional digits.
pub fn push_fixed(buf: &mut Vec<u8>, v: i64, places: u32)
    requires
        1 <= places <= 9,
    ensures
        ascii(old(buf)@) ==> ascii(final(buf)@),
        final(buf)@ == old(buf)@ + fixed(v as int, places as nat),
{
    let scale = pow10_u64(places);
    let mag = magnitude(v);
    if v < 0 {
        buf.push(45u8);
    }
    let ghost after_sign = buf@;
    push_decimal(buf, mag / scale);
    buf.push(46u8);
    push_padded(buf, mag % scale, places as usize);
    let ghost sign: Seq<u8> = if v < 0 { seq![45u8] } else { seq![] };
    assert(after_sign =~= old(buf)@ + sign);
    assert(final(buf)@ =~= old(buf)@ + fixed(v as int, places as nat));
}

/// Appends the two uppercase hexadecimal digits of `b`.
pub fn push_hex2(buf: &mut Vec<u8>, b: u8)
    ensures
        ascii(old(buf)@) ==> ascii(final(buf)@),
        final(buf)@ == old(buf)@ + hex2(b),
{
    let hi: u8 = b / 16;
    let lo: u8 = b % 16;
    buf.push(if hi < 10 { 48u8 + hi } else { 55u8 + hi });
    buf.push(if lo < 10 { 48u8 + lo } else { 55u8 + lo });
    assert(final(buf)@ =~= old(buf)@ + hex2(b));
}


/// Every byte is 7-bit ASCII.
pub open spec fn ascii(s: Seq<u8>) -> bool {
    forall|i: int| 0 <= i < s.len() ==> s[i] < 128
}

/// One ten-millionth of a minute is six hundred-millionths of a degree,
/// so the minutes of a coordinate held in `1e-8` degrees are exact.
pub open spec fn coordinate(v: int, deg_width: nat) -> Seq<u8> {
    let m = abs(v);
    let minutes_e7 = (m % 100_000_000) * 6;
    padded(m / 100_000_000, deg_width) + padded(minutes_e7 / 10_000_000, 2) + seq![46u8]
        + padded(minutes_e7 % 10_000_000, 7)
}

/// Appends a coordinate held in units of `1e-8` degrees as whole degrees
/// (zero-padded to `deg_width`) followed by minutes with seven decimals.
pub fn push_coordinate(buf: &mut Vec<u8>, v: i64, deg_width: usize)
    ensures
        final(buf)@ == old(buf)@ + coordinate(v as int, deg_width as nat),
        ascii(old(buf)@) ==> ascii(final(buf)@),
{
    let m = magnitude(v);
    let minutes_e7: u64 = (m % 100_000_000) * 6;
    push_padded(buf, m / 100_000_000, deg_width);
    push_padded(buf, minutes_e7 / 10_000_000, 2);
    buf.push(46u8);
    push_padded(buf, minutes_e7 % 10_000_000, 7);
    assert(final(buf)@ =~= old(buf)@ + coordinate(v as int, deg_width as nat));
}


/// The characters of an ASCII byte sequence.
pub open spec fn ascii_text(b: Seq<u8>) -> Seq<char> {
    Seq::new(b.len(), |i: int| b[i] as char)
}

/// Relies on `String::from_utf8`: ASCII bytes are valid UTF-8 and decode to
/// one character each.
#[verifier::external_body]
pub(crate) fn ascii_string(bytes: Vec<u8>) -> (r: String)
    requires
        ascii(bytes@),
    ensures
        r@ == ascii_text(bytes@),
{
    String::from_utf8(bytes).unwrap_or_default()
}


/// No byte is a comma, so a field never splits into two slots.
pub open spec fn comma_free(s: Seq<u8>) -> bool {
    forall|i: int| 0 <= i < s.len() ==> s[i] != 44u8
}

/// Decimal digits are ASCII `0` to `9`.
pub proof fn lemma_decimal_digits(n: nat)
    ensures
        forall|i: int| 0 <= i < decimal(n).len() ==> 48 <= #[trigger] decimal(n)[i] <= 57,
        decimal(n).len() >= 1,
    decreases n,
{
    if n >= 10 {
        lemma_decimal_digits(n / 10);
    }
}

/// Zero-padded decimals are ASCII digits.
pub proof fn lemma_padded_digits(n: nat, width: nat)
    ensures
        forall|i: int| 0 <= i < padded(n, width).len() ==> 48 <= #[trigger] padded(n, width)[i] <= 57,
{
    lemma_decimal_digits(n);
    let d = decimal(n);
    if d.len() < width {
        let z = zeros((width - d.len()) as nat);
        assert forall|i: int| 0 <= i < padded(n, width).len() implies 48 <= #[trigger] padded(
            n,
            width,
        )[i] <= 57 by {
            if i < z.len() {
                assert(padded(n, width)[i] == z[i]);
            } else {
                assert(padded(n, width)[i] == d[i - z.len()]);
            }
        }
    }
}

/// The fixed-point and coordinate formats hold no comma.
pub proof fn lemma_numbers_comma_free(v: int, places: nat, deg_width: nat)
    ensures
        comma_free(fixed(v, places)),
        comma_free(coordinate(v, deg_width)),
        comma_free(decimal(abs(v))),
        comma_free(padded(abs(v), deg_width)),
{
    lemma_decimal_digits(abs(v) / pow10(places));
    lemma_decimal_digits(abs(v));
    lemma_padded_digits(abs(v) % pow10(places), places);
    lemma_padded_digits(abs(v), deg_width);
    let m = abs(v);
    let minutes_e7 = (m % 100_000_000) * 6;
    lemma_padded_digits(m / 100_000_000, deg_width);
    lemma_padded_digits(minutes_e7 / 10_000_000, 2);
    lemma_padded_digits(minutes_e7 % 10_000_000, 7);
}

} // verus!
