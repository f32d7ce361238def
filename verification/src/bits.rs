//! Bit-level access to integers through the `bit_field` crate.
use bit_field::BitField;
use vstd::prelude::*;

verus! {

/// Bit `n` of a 16-bit value.
pub open spec fn bit16(x: u16, n: u16) -> bool {
    (x >> n) & 1u16 == 1u16
}

/// `x` with bit `n` forced to `v`.
pub open spec fn with_bit16(x: u16, n: u16, v: bool) -> u16 {
    if v {
        x | (1u16 << n)
    } else {
        x & !(1u16 << n)
    }
}

/// The `len` low bits set, for `len` below 16.
pub open spec fn mask16(len: u16) -> u16 {
    ((1u16 << len) - 1u16) as u16
}

/// Bits `lo..=hi` of `x`, moved down to bit 0.
pub open spec fn bits16(x: u16, lo: u16, hi: u16) -> u16 {
    (x >> lo) & mask16((hi - lo + 1) as u16)
}

/// `x` with bits `lo..=hi` replaced by `v`.
pub open spec fn with_bits16(x: u16, lo: u16, hi: u16, v: u16) -> u16 {
    (x & !(mask16((hi - lo + 1) as u16) << lo)) | (v << lo)
}

/// Calls `BitField::get_bit` on a `u16`. The crate's source returns
/// `(x & (1 << bit)) != 0` and panics unless `bit < 16`.
#[verifier::external_body]
pub(crate) fn get_bit_u16(x: u16, bit: u16) -> (r: bool)
    requires
        bit < 16,
    ensures
        r == bit16(x, bit),
{
    x.get_bit(bit as usize)
}

/// Calls `BitField::set_bit` on a `u16`. The crate's source ORs in
/// `1 << bit` when `value` holds and masks it out otherwise; it panics unless
/// `bit < 16`.
#[verifier::external_body]
pub(crate) fn set_bit_u16(x: u16, bit: u16, value: bool) -> (r: u16)
    requires
        bit < 16,
    ensures
        r == with_bit16(x, bit, value),
{
    let mut y = x;
    y.set_bit(bit as usize, value);
    y
}

/// Calls `BitField::get_bits` on a `u16` with the range `lo..=hi`. The
/// crate's source shifts the bits above `hi` and below `lo` away, which
/// leaves bits `lo..=hi` at the bottom; it panics when the range leaves the
/// field.
#[verifier::external_body]
pub(crate) fn get_bits_u16(x: u16, lo: u16, hi: u16) -> (r: u16)
    requires
        lo <= hi < 16,
        hi - lo < 15,
    ensures
        r == bits16(x, lo, hi),
{
    x.get_bits((lo as usize)..=(hi as usize))
}

/// Calls `BitField::set_bits` on a `u16` with the range `lo..=hi`. The
/// crate's source clears the range and ORs in `value << lo`; it panics when
/// `value` has a bit set above the width of the range.
#[verifier::external_body]
pub(crate) fn set_bits_u16(x: u16, lo: u16, hi: u16, value: u16) -> (r: u16)
    requires
        lo <= hi < 16,
        hi - lo < 15,
        value <= mask16((hi - lo + 1) as u16),
    ensures
        r == with_bits16(x, lo, hi, value),
{
    let mut y = x;
    y.set_bits((lo as usize)..=(hi as usize), value);
    y
}

/// Setting a bit and reading it back gives the value set; the other bits
/// keep their values.
pub proof fn lemma_bit16_set_get(x: u16, n: u16, m: u16, v: bool)
    by (bit_vector)
    requires
        n < 16,
        m < 16,
    ensures
        bit16(with_bit16(x, n, v), n) == v,
        m != n ==> bit16(with_bit16(x, n, v), m) == bit16(x, m),
{
}

/// The values of the low-bit masks that the register fields use.
pub proof fn lemma_mask_values()
    by (bit_vector)
    ensures
        mask16(4) == 15,
        mask32(2) == 3,
        mask32(3) == 7,
        mask32(4) == 15,
        mask32(5) == 31,
        mask32(6) == 63,
        mask32(7) == 127,
        mask32(8) == 255,
        mask32(10) == 1023,
        mask32(12) == 4095,
        mask32(13) == 8191,
        mask32(14) == 16383,
        mask32(16) == 65535,
        mask32(30) == 0x3fff_ffff,
{
}


/// Bit `n` of a 32-bit value.
pub open spec fn bit32(x: u32, n: u32) -> bool {
    (x >> n) & 1u32 == 1u32
}

/// `x` with bit `n` forced to `v`.
pub open spec fn with_bit32(x: u32, n: u32, v: bool) -> u32 {
    if v {
        x | (1u32 << n)
    } else {
        x & !(1u32 << n)
    }
}

/// The `len` low bits set, for `len` below 32.
pub open spec fn mask32(len: u32) -> u32 {
    ((1u32 << len) - 1u32) as u32
}

/// Bits `lo..=hi` of `x`, moved down to bit 0.
pub open spec fn bits32(x: u32, lo: u32, hi: u32) -> u32 {
    (x >> lo) & mask32((hi - lo + 1) as u32)
}

/// `x` with bits `lo..=hi` replaced by `v`.
pub open spec fn with_bits32(x: u32, lo: u32, hi: u32, v: u32) -> u32 {
    (x & !(mask32((hi - lo + 1) as u32) << lo)) | (v << lo)
}

/// Calls `BitField::get_bit` on a `u32`. The crate's source returns
/// `(x & (1 << bit)) != 0` and panics unless `bit < 32`.
#[verifier::external_body]
pub(crate) fn get_bit_u32(x: u32, bit: u32) -> (r: bool)
    requires
        bit < 32,
    ensures
        r == bit32(x, bit),
{
    x.get_bit(bit as usize)
}

/// Calls `BitField::set_bit` on a `u32`. The crate's source ORs in
/// `1 << bit` when `value` holds and masks it out otherwise; it panics unless
/// `bit < 32`.
#[verifier::external_body]
pub(crate) fn set_bit_u32(x: u32, bit: u32, value: bool) -> (r: u32)
    requires
        bit < 32,
    ensures
        r == with_bit32(x, bit, value),
{
    let mut y = x;
    y.set_bit(bit as usize, value);
    y
}

/// Calls `BitField::get_bits` on a `u32` with the range `lo..=hi`. The
/// crate's source shifts the bits above `hi` and below `lo` away, which
/// leaves bits `lo..=hi` at the bottom; it panics when the range leaves the
/// field.
#[verifier::external_body]
pub(crate) fn get_bits_u32(x: u32, lo: u32, hi: u32) -> (r: u32)
    requires
        lo <= hi < 32,
        hi - lo < 31,
    ensures
        r == bits32(x, lo, hi),
{
    x.get_bits((lo as usize)..=(hi as usize))
}

/// Calls `BitField::set_bits` on a `u32` with the range `lo..=hi`. The
/// crate's source clears the range and ORs in `value << lo`; it panics when
/// `value` has a bit set above the width of the range.
#[verifier::external_body]
pub(crate) fn set_bits_u32(x: u32, lo: u32, hi: u32, value: u32) -> (r: u32)
    requires
        lo <= hi < 32,
        hi - lo < 31,
        value <= mask32((hi - lo + 1) as u32),
    ensures
        r == with_bits32(x, lo, hi, value),
{
    let mut y = x;
    y.set_bits((lo as usize)..=(hi as usize), value);
    y
}

/// Setting a bit and reading it back gives the value set; the other bits
/// keep their values.
pub proof fn lemma_bit32_set_get(x: u32, n: u32, m: u32, v: bool)
    by (bit_vector)
    requires
        n < 32,
        m < 32,
    ensures
        bit32(with_bit32(x, n, v), n) == v,
        m != n ==> bit32(with_bit32(x, n, v), m) == bit32(x, m),
{
}

/// Writing a field and reading it back gives the value written, for any
/// field of at most 8 bits whose value fits.
pub proof fn lemma_bits32_set_get(x: u32, lo: u32, hi: u32, v: u32)
    requires
        lo <= hi < 32,
        hi - lo < 8,
        v <= mask32((hi - lo + 1) as u32),
    ensures
        bits32(with_bits32(x, lo, hi, v), lo, hi) == v,
{
    let len = (hi - lo + 1) as u32;
    assert((((x & !((((1u32 << len) - 1u32) as u32) << lo)) | (v << lo)) >> lo)
        & (((1u32 << len) - 1u32) as u32) == v) by (bit_vector)
        requires
            lo <= hi < 32,
            len == hi - lo + 1,
            len <= 8,
            v <= (((1u32 << len) - 1u32) as u32),
    ;
}


/// Bit `n` of an 8-bit value.
pub open spec fn bit8(x: u8, n: u8) -> bool {
    (x >> n) & 1u8 == 1u8
}

/// Calls `BitField::get_bit` on a `u8`. The crate's source returns
/// `(x & (1 << bit)) != 0` and panics unless `bit < 8`.
#[verifier::external_body]
pub(crate) fn get_bit_u8(x: u8, bit: u8) -> (r: bool)
    requires
        bit < 8,
    ensures
        r == bit8(x, bit),
{
    x.get_bit(bit as usize)
}

} // verus!
