//! Byte-level helpers: comparison, lowercase hex and decimal rendering.

use vstd::prelude::*;

verus! {

/// Compares two byte strings, length first and then content.
pub fn bytes_equal(a: &[u8], b: &[u8]) -> (same: bool)
    ensures
        same == (a@ == b@),
{
    if a.len() != b.len() {
        return false;
    }
    let mut i: usize = 0;
    while i < a.len()
        invariant
            i <= a.len(),
            a.len() == b.len(),
            forall|j: int| 0 <= j < i ==> a@[j] == b@[j],
        decreases a.len() - i,
    {
        if a[i] != b[i] {
            return false;
        }
        i += 1;
    }
    assert(a@ =~= b@);
    true
}

/// The ASCII code of the lowercase hex digit for a value below sixteen.
pub open spec fn hex_digit(nibble: int) -> u8 {
    if nibble < 10 {
        (48 + nibble) as u8
    } else {
        (87 + nibble) as u8
    }
}

/// The lowercase hex rendering of a byte string: two digits per byte, high
/// nibble first.
pub open spec fn hex(bytes: Seq<u8>) -> Seq<u8>
    decreases bytes.len(),
{
    if bytes.len() == 0 {
        Seq::empty()
    } else {
        hex(bytes.drop_last()).push(hex_digit(bytes.last() as int / 16)).push(
            hex_digit(bytes.last() as int % 16),
        )
    }
}

fn hex_digit_of(nibble: u8) -> (digit: u8)
    requires
        nibble < 16,
    ensures
        digit == hex_digit(nibble as int),
{
    if nibble < 10 {
        48 + nibble
    } else {
        87 + nibble
    }
}

/// Renders bytes as lowercase hex, in ASCII.
pub fn to_hex(bytes: &[u8]) -> (text: Vec<u8>)
    ensures
        text@ == hex(bytes@),
        text@.len() == 2 * bytes@.len(),
{
    let mut text: Vec<u8> = Vec::new();
    let mut i: usize = 0;
    while i < bytes.len()
        invariant
            i <= bytes.len(),
            text@ == hex(bytes@.take(i as int)),
            text@.len() == 2 * i,
        decreases bytes.len() - i,
    {
        let byte: u8 = bytes[i];
        proof {
            let next = bytes@.take(i as int + 1);
            assert(next.drop_last() =~= bytes@.take(i as int));
            assert(next.last() == byte);
        }
        text.push(hex_digit_of(byte / 16));
        text.push(hex_digit_of(byte % 16));
        i += 1;
    }
    assert(bytes@.take(i as int) =~= bytes@);
    text
}

/// The decimal rendering of a natural number, in ASCII, without leading zeros.
pub open spec fn decimal(n: nat) -> Seq<u8>
    decreases n,
{
    if n < 10 {
        seq![(48 + n) as u8]
    } else {
        decimal(n / 10).push((48 + n % 10) as u8)
    }
}

/// The decimal rendering of an integer: a minus sign before a negative one.
pub open spec fn signed_decimal(v: int) -> Seq<u8> {
    if v < 0 {
        seq![45u8] + decimal((-v) as nat)
    } else {
        decimal(v as nat)
    }
}

/// Appends the decimal rendering of `n` to `out`.
pub fn push_decimal(out: &mut Vec<u8>, n: u64)
    ensures
        final(out)@ == old(out)@ + decimal(n as nat),
{
    // Digits come out least significant first; `low` collects them in that
    // order until a single digit is left.
    let mut low: Vec<u8> = Vec::new();
    let mut rest: u64 = n;
    while rest >= 10
        invariant
            decimal(n as nat) == decimal(rest as nat) + low@.reverse(),
        decreases rest,
    {
        let digit: u8 = 48 + (rest % 10) as u8;
        proof {
            let grown = low@.push(digit);
            assert(grown.reverse() =~= seq![digit] + low@.reverse());
            assert(decimal(rest as nat) == decimal((rest / 10) as nat).push(digit));
            assert(decimal((rest / 10) as nat).push(digit) + low@.reverse() =~= decimal(
                (rest / 10) as nat,
            ) + grown.reverse());
        }
        low.push(digit);
        rest = rest / 10;
    }
    let ghost start = out@;
    out.push(48 + rest as u8);
    let mut k: usize = low.len();
    while k > 0
        invariant
            k <= low.len(),
            out@ == start + decimal(rest as nat) + low@.reverse().take(low.len() - k),
        decreases k,
    {
        k -= 1;
        proof {
            let rev = low@.reverse();
            let done = low.len() - k - 1;
            assert(rev.take(done + 1) =~= rev.take(done).push(rev[done]));
            assert(rev[done] == low@[k as int]);
        }
        out.push(low[k]);
    }
    assert(low@.reverse().take(low.len() as int) =~= low@.reverse());
    assert(start + decimal(rest as nat) + low@.reverse() =~= start + (decimal(rest as nat)
        + low@.reverse()));
}

/// Appends the decimal rendering of `v` to `out`.
pub fn push_signed_decimal(out: &mut Vec<u8>, v: i64)
    ensures
        final(out)@ == old(out)@ + signed_decimal(v as int),
{
    if v < 0 {
        out.push(45);
        // The magnitude of the least value does not fit the signed type.
        let magnitude: u64 = (-(v + 1)) as u64 + 1;
        push_decimal(out, magnitude);
        assert(old(out)@.push(45u8) + decimal(magnitude as nat) =~= old(out)@ + (seq![45u8]
            + decimal(magnitude as nat)));
    } else {
        push_decimal(out, v as u64);
    }
}

} // verus!
