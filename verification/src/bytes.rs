//! Fixed-width integers as bytes in the machine's native byte order.
//!
//! The byte order of the executing machine is vstd's `endianness()`: one
//! order for the whole program, so that what one call encodes, another call
//! decodes.
use vstd::prelude::*;

use vstd::endian::{endianness, Endian};

verus! {

/// 256 to the power `n`: the number of values that `n` bytes can hold.
pub open spec fn byte_range(n: nat) -> nat
    decreases n,
{
    if n == 0 {
        1
    } else {
        256 * byte_range((n - 1) as nat)
    }
}

/// The `n` low bytes of `v`, least significant first.
pub open spec fn le_bytes(v: nat, n: nat) -> Seq<u8>
    decreases n,
{
    if n == 0 {
        Seq::empty()
    } else {
        seq![(v % 256) as u8] + le_bytes(v / 256, (n - 1) as nat)
    }
}

/// The number that the bytes `s` denote, least significant first.
pub open spec fn le_value(s: Seq<u8>) -> nat
    decreases s.len(),
{
    if s.len() == 0 {
        0
    } else {
        s[0] as nat + 256 * le_value(s.drop_first())
    }
}

/// The `n` low bytes of `v` in the machine's byte order.
pub open spec fn native_bytes(v: nat, n: nat) -> Seq<u8> {
    match endianness() {
        Endian::Little => le_bytes(v, n),
        Endian::Big => le_bytes(v, n).reverse(),
    }
}

/// The number that the bytes `s` denote in the machine's byte order.
pub open spec fn native_value(s: Seq<u8>) -> nat {
    match endianness() {
        Endian::Little => le_value(s),
        Endian::Big => le_value(s.reverse()),
    }
}

/// `256^n` is positive.
proof fn lemma_byte_range_positive(n: nat)
    ensures
        byte_range(n) > 0,
    decreases n,
{
    if n > 0 {
        lemma_byte_range_positive((n - 1) as nat);
    }
}

/// Byte `i` of the little-endian bytes of `v` is digit `i` of `v` in base
/// 256: the least significant byte comes first.
pub proof fn lemma_le_bytes_digit(v: nat, n: nat, i: int)
    requires
        0 <= i < n,
    ensures
        le_bytes(v, n).len() == n,
        le_bytes(v, n)[i] == (v / byte_range(i as nat)) % 256,
    decreases n,
{
    let m = (n - 1) as nat;
    lemma_le_bytes_len(v / 256, m);
    let s = le_bytes(v, n);
    assert(s == seq![(v % 256) as u8] + le_bytes(v / 256, m));
    if i > 0 {
        lemma_le_bytes_digit(v / 256, m, i - 1);
        lemma_byte_range_positive((i - 1) as nat);
        assert(s[i] == le_bytes(v / 256, m)[i - 1]);
        assert(byte_range(i as nat) == 256 * byte_range((i - 1) as nat));
        vstd::arithmetic::div_mod::lemma_div_denominator(
            v as int,
            256,
            byte_range((i - 1) as nat) as int,
        );
    } else {
        assert(byte_range(0) == 1);
        assert(s[0] == (v % 256) as u8);
    }
}

proof fn lemma_le_bytes_len(v: nat, n: nat)
    ensures
        le_bytes(v, n).len() == n,
    decreases n,
{
    if n > 0 {
        lemma_le_bytes_len(v / 256, (n - 1) as nat);
    }
}

/// Reading back the little-endian bytes of a value that fits gives the value.
pub proof fn lemma_le_bytes_roundtrip(v: nat, n: nat)
    requires
        v < byte_range(n),
    ensures
        le_bytes(v, n).len() == n,
        le_value(le_bytes(v, n)) == v,
    decreases n,
{
    if n > 0 {
        let m = (n - 1) as nat;
        let r = byte_range(m);
        assert(v / 256 < r) by (nonlinear_arith)
            requires
                v < 256 * r,
        ;
        lemma_le_bytes_roundtrip(v / 256, m);
        let s = le_bytes(v, n);
        assert(s.drop_first() =~= le_bytes(v / 256, m));
    }
}

/// Reading back the native bytes of a value that fits gives the value.
pub proof fn lemma_native_bytes_roundtrip(v: nat, n: nat)
    requires
        v < byte_range(n),
    ensures
        native_bytes(v, n).len() == n,
        native_value(native_bytes(v, n)) == v,
{
    lemma_le_bytes_roundtrip(v, n);
    assert(le_bytes(v, n).reverse().reverse() =~= le_bytes(v, n));
}

/// The little-endian value of `n` bytes is below `256^n`.
pub proof fn lemma_le_value_bound(s: Seq<u8>)
    ensures
        le_value(s) < byte_range(s.len()),
    decreases s.len(),
{
    if s.len() > 0 {
        lemma_le_value_bound(s.drop_first());
        let r = byte_range(s.drop_first().len());
        let t = le_value(s.drop_first());
        let b = s[0] as nat;
        assert(b + 256 * t < 256 * r) by (nonlinear_arith)
            requires
                t < r,
                b < 256,
        ;
    }
}

/// The native value of `n` bytes is below `256^n`.
pub proof fn lemma_native_value_bound(s: Seq<u8>)
    ensures
        native_value(s) < byte_range(s.len()),
{
    lemma_le_value_bound(s);
    lemma_le_value_bound(s.reverse());
}

/// The byte ranges of the integer widths.
pub proof fn lemma_byte_ranges()
    ensures
        byte_range(1) == 0x100,
        byte_range(2) == 0x1_0000,
        byte_range(4) == 0x1_0000_0000,
        byte_range(8) == 0x1_0000_0000_0000_0000,
{
    reveal_with_fuel(byte_range, 9);
}

/// `u16::to_ne_bytes`: the memory representation of `x`, that is its two
/// bytes in the machine's byte order.
#[verifier::external_body]
pub(crate) fn u16_to_ne_bytes(x: u16) -> (r: [u8; 2])
    ensures
        r@ == native_bytes(x as nat, 2),
{
    x.to_ne_bytes()
}

/// `u16::from_ne_bytes`: the integer whose memory representation is `b`,
/// that is the value of the bytes read in the machine's byte order.
#[verifier::external_body]
pub(crate) fn u16_from_ne_bytes(b: [u8; 2]) -> (r: u16)
    ensures
        r as nat == native_value(b@),
{
    u16::from_ne_bytes(b)
}

/// `u32::to_ne_bytes`: the four bytes of `x` in the machine's byte order.
#[verifier::external_body]
pub(crate) fn u32_to_ne_bytes(x: u32) -> (r: [u8; 4])
    ensures
        r@ == native_bytes(x as nat, 4),
{
    x.to_ne_bytes()
}

/// `u32::from_ne_bytes`: the value of four bytes read in the machine's byte order.
#[verifier::external_body]
pub(crate) fn u32_from_ne_bytes(b: [u8; 4]) -> (r: u32)
    ensures
        r as nat == native_value(b@),
{
    u32::from_ne_bytes(b)
}

/// `u64::to_ne_bytes`: the eight bytes of `x` in the machine's byte order.
#[verifier::external_body]
pub(crate) fn u64_to_ne_bytes(x: u64) -> (r: [u8; 8])
    ensures
        r@ == native_bytes(x as nat, 8),
{
    x.to_ne_bytes()
}

/// `u64::from_ne_bytes`: the value of eight bytes read in the machine's byte order.
#[verifier::external_body]
pub(crate) fn u64_from_ne_bytes(b: [u8; 8]) -> (r: u64)
    ensures
        r as nat == native_value(b@),
{
    u64::from_ne_bytes(b)
}

} // verus!
