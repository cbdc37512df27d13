//! Building console text: literal strings and fixed-width lowercase hex.

use vstd::prelude::*;
use vstd::string::StringSliceAdditionalSpecFns;

verus! {

/// Lowercase hex digit for a nibble.
pub open spec fn hex_char(d: u8) -> u8 {
    if d < 10 {
        (0x30 + d) as u8
    } else {
        (0x61 + d - 10) as u8
    }
}

/// The last `n` hex digits of `value`, most significant first (the form of
/// `{:0nx}` for a value below 16^n).
pub open spec fn hex_digits(value: u32, n: nat) -> Seq<u8> {
    Seq::new(n, |i: int| hex_char(((value >> ((4 * (n - 1 - i)) as u32)) & 0xF) as u8))
}

/// The ASCII digit of a value below ten.
pub open spec fn digit(d: nat) -> u8 {
    (0x30 + d) as u8
}

/// Appends the bytes of `s`.
pub fn push_str(buf: &mut Vec<u8>, s: &str)
    ensures
        final(buf)@ == old(buf)@ + s.spec_bytes(),
{
    let b = s.as_bytes();
    let mut i: usize = 0;
    while i < b.len()
        invariant
            i <= b@.len(),
            b@ == s.spec_bytes(),
            buf@ == old(buf)@ + b@.take(i as int),
        decreases b@.len() - i,
    {
        buf.push(b[i]);
        i = i + 1;
        assert(buf@ =~= old(buf)@ + b@.take(i as int));
    }
    assert(b@.take(i as int) =~= b@);
}

/// Appends `value` as exactly `n` lowercase hex digits.
pub fn push_hex(buf: &mut Vec<u8>, value: u32, n: usize)
    requires
        1 <= n <= 8,
    ensures
        final(buf)@ == old(buf)@ + hex_digits(value, n as nat),
{
    let mut i: usize = 0;
    while i < n
        invariant
            1 <= n <= 8,
            i <= n,
            buf@ == old(buf)@ + hex_digits(value, n as nat).take(i as int),
        decreases n - i,
    {
        let shift: u32 = (4 * (n - 1 - i)) as u32;
        let d: u8 = ((value >> shift) & 0xF) as u8;
        assert(((value >> shift) & 0xF) < 16) by (bit_vector);
        let c: u8 = if d < 10 { 0x30 + d } else { 0x61 + d - 10 };
        buf.push(c);
        i = i + 1;
        assert(buf@ =~= old(buf)@ + hex_digits(value, n as nat).take(i as int));
    }
    assert(hex_digits(value, n as nat).take(i as int) =~= hex_digits(value, n as nat));
}

} // verus!
