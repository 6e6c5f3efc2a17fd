//! Fixed-width big-endian integers.
//!
//! Every integer on the wire is a two's-complement value of 2, 4 or 8 bytes, most
//! significant byte first. `be_bytes` says what those bytes are for any mathematical
//! integer, `be_signed` reads them back, and the executable `put_*` functions are
//! proved to append exactly `be_bytes`.

use vstd::prelude::*;

verus! {

/// The number of values that `width` bytes can tell apart: 256 to the power `width`.
pub open spec fn radix(width: nat) -> int
    decreases width,
{
    if width == 0 {
        1
    } else {
        256 * radix((width - 1) as nat)
    }
}

/// The `width` low-order bytes of `n` in two's complement, most significant first.
///
/// Division and remainder are Euclidean, so a negative `n` yields its two's-complement
/// image and an `n` that needs more than `width` bytes loses its high-order part.
pub open spec fn be_bytes(n: int, width: nat) -> Seq<u8>
    decreases width,
{
    if width == 0 {
        Seq::empty()
    } else {
        be_bytes(n / 256, (width - 1) as nat).push((n % 256) as u8)
    }
}

/// The non-negative number that `bytes` spell, most significant byte first.
pub open spec fn be_unsigned(bytes: Seq<u8>) -> int
    decreases bytes.len(),
{
    if bytes.len() == 0 {
        0
    } else {
        256 * be_unsigned(bytes.drop_last()) + bytes.last() as int
    }
}

/// The two's-complement number that `bytes` spell, most significant byte first.
pub open spec fn be_signed(bytes: Seq<u8>) -> int {
    let u = be_unsigned(bytes);
    if 2 * u >= radix(bytes.len()) {
        u - radix(bytes.len())
    } else {
        u
    }
}

/// The one integer in the signed range of `width` bytes that differs from `n` by a
/// multiple of `radix(width)`: what a `width`-byte signed field holds once `n` has been
/// stored in it.
pub open spec fn wrap_signed(n: int, width: nat) -> int {
    let u = n % radix(width);
    if 2 * u >= radix(width) {
        u - radix(width)
    } else {
        u
    }
}

/// There is at least one value of every width.
pub proof fn lemma_radix_positive(width: nat)
    ensures
        radix(width) > 0,
    decreases width,
{
    if width > 0 {
        lemma_radix_positive((width - 1) as nat);
    }
}

/// A field of `width` bytes has `width` bytes, whatever it holds.
pub proof fn lemma_be_bytes_len(n: int, width: nat)
    ensures
        be_bytes(n, width).len() == width,
    decreases width,
{
    if width > 0 {
        lemma_be_bytes_len(n / 256, (width - 1) as nat);
    }
}

/// Integers that differ by a multiple of `radix(width)` have the same `width` bytes.
pub proof fn lemma_be_bytes_periodic(n: int, k: int, width: nat)
    ensures
        be_bytes(n + k * radix(width), width) == be_bytes(n, width),
    decreases width,
{
    if width > 0 {
        let r = radix((width - 1) as nat);
        assert(k * radix(width) == 256 * (k * r)) by (nonlinear_arith)
            requires
                radix(width) == 256 * r,
        ;
        let m = n + k * radix(width);
        assert(m / 256 == n / 256 + k * r);
        assert(m % 256 == n % 256);
        lemma_be_bytes_periodic(n / 256, k, (width - 1) as nat);
    }
}

/// Read as an unsigned number, the bytes of `n` give `n` modulo `radix(width)`.
pub proof fn lemma_be_unsigned_of_be_bytes(n: int, width: nat)
    ensures
        be_unsigned(be_bytes(n, width)) == n % radix(width),
    decreases width,
{
    if width > 0 {
        let w = (width - 1) as nat;
        let r = radix(w);
        lemma_radix_positive(w);
        lemma_be_bytes_len(n / 256, w);
        lemma_be_unsigned_of_be_bytes(n / 256, w);
        let s = be_bytes(n, width);
        assert(s.drop_last() =~= be_bytes(n / 256, w));
        assert(s.last() == (n % 256) as u8);
        let q = n / 256;
        let t = q / r;
        let c = q % r;
        vstd::arithmetic::div_mod::lemma_fundamental_div_mod(q, r);
        assert(n == t * (256 * r) + (256 * c + n % 256)) by (nonlinear_arith)
            requires
                n == 256 * q + n % 256,
                q == r * t + c,
        ;
        vstd::arithmetic::div_mod::lemma_fundamental_div_mod_converse_mod(
            n,
            256 * r,
            t,
            256 * c + n % 256,
        );
    } else {
        assert(be_bytes(n, width).len() == 0);
    }
}

/// Reading the bytes of `n` back as a signed number gives `n` wrapped into `width` bytes.
pub proof fn lemma_be_signed_of_be_bytes(n: int, width: nat)
    ensures
        be_signed(be_bytes(n, width)) == wrap_signed(n, width),
{
    lemma_be_unsigned_of_be_bytes(n, width);
    lemma_be_bytes_len(n, width);
}

/// A number inside the signed range of `width` bytes is stored unchanged.
pub proof fn lemma_wrap_signed_in_range(n: int, width: nat)
    requires
        -radix(width) <= 2 * n < radix(width),
    ensures
        wrap_signed(n, width) == n,
{
    let r = radix(width);
    if n >= 0 {
        vstd::arithmetic::div_mod::lemma_small_mod(n as nat, r as nat);
    } else {
        vstd::arithmetic::div_mod::lemma_small_mod((n + r) as nat, r as nat);
        vstd::arithmetic::div_mod::lemma_mod_multiples_vanish(1, n, r);
    }
}

/// Wrapping `n` into `width` bytes does not change those bytes.
pub proof fn lemma_be_bytes_of_wrap_signed(n: int, width: nat)
    ensures
        be_bytes(wrap_signed(n, width), width) == be_bytes(n, width),
{
    let r = radix(width);
    lemma_radix_positive(width);
    vstd::arithmetic::div_mod::lemma_fundamental_div_mod(n, r);
    let q = n / r;
    assert(n % r == n + (-q) * r) by (nonlinear_arith)
        requires
            n == r * q + n % r,
    ;
    lemma_be_bytes_periodic(n, -q, width);
    if 2 * (n % r) >= r {
        assert(n % r - r == n % r + (-1) * r) by (nonlinear_arith);
        lemma_be_bytes_periodic(n % r, -1, width);
    }
}

/// A signed field of `width` bytes gives back every number of its range.
pub proof fn lemma_be_signed_round_trip(n: int, width: nat)
    requires
        -radix(width) <= 2 * n < radix(width),
    ensures
        be_signed(be_bytes(n, width)) == n,
{
    lemma_be_signed_of_be_bytes(n, width);
    lemma_wrap_signed_in_range(n, width);
}

/// Appends the `width` low-order bytes of `u`, most significant first.
fn put_be(buff: &mut Vec<u8>, u: u64, width: usize)
    ensures
        final(buff)@ == old(buff)@ + be_bytes(u as int, width as nat),
    decreases width,
{
    if width > 0 {
        put_be(buff, u / 256, width - 1);
        buff.push((u % 256) as u8);
    }
    assert(buff@ =~= old(buff)@ + be_bytes(u as int, width as nat));
}

/// Appends `x` as two big-endian bytes.
pub fn put_i16(buff: &mut Vec<u8>, x: i16)
    ensures
        final(buff)@ == old(buff)@ + be_bytes(x as int, 2),
{
    let u: u64 = if x < 0 {
        (x as i32 + 0x1_0000) as u64
    } else {
        x as u64
    };
    proof {
        reveal_with_fuel(radix, 3);
        lemma_be_bytes_periodic(x as int, if x < 0 { 1 } else { 0 }, 2);
    }
    put_be(buff, u, 2);
}

/// Appends `x` as four big-endian bytes.
pub fn put_i32(buff: &mut Vec<u8>, x: i32)
    ensures
        final(buff)@ == old(buff)@ + be_bytes(x as int, 4),
{
    let u: u64 = if x < 0 {
        (x as i64 + 0x1_0000_0000) as u64
    } else {
        x as u64
    };
    proof {
        reveal_with_fuel(radix, 5);
        lemma_be_bytes_periodic(x as int, if x < 0 { 1 } else { 0 }, 4);
    }
    put_be(buff, u, 4);
}

/// Appends `x` as eight big-endian bytes.
pub fn put_i64(buff: &mut Vec<u8>, x: i64)
    ensures
        final(buff)@ == old(buff)@ + be_bytes(x as int, 8),
{
    let u: u64 = if x < 0 {
        (x as i128 + 0x1_0000_0000_0000_0000) as u64
    } else {
        x as u64
    };
    proof {
        reveal_with_fuel(radix, 9);
        lemma_be_bytes_periodic(x as int, if x < 0 { 1 } else { 0 }, 8);
    }
    put_be(buff, u, 8);
}

/// Appends `bytes` unchanged.
pub fn put_bytes(buff: &mut Vec<u8>, bytes: &[u8])
    ensures
        final(buff)@ == old(buff)@ + bytes@,
{
    buff.extend_from_slice(bytes);
    assert(buff@ =~= old(buff)@ + bytes@);
}

/// The value a four-byte signed field holds once `n` has been stored in it: `n` itself
/// up to `i32::MAX`, its low 32 bits read as two's complement beyond.
pub fn wrap_to_i32(n: u128) -> (r: i32)
    ensures
        r == wrap_signed(n as int, 4),
        n <= i32::MAX ==> r == n,
{
    proof {
        reveal_with_fuel(radix, 5);
        if n <= i32::MAX {
            lemma_wrap_signed_in_range(n as int, 4);
        }
    }
    let low: u64 = (n % 0x1_0000_0000) as u64;
    if low >= 0x8000_0000 {
        (low as i64 - 0x1_0000_0000) as i32
    } else {
        low as i32
    }
}

/// The value an eight-byte signed field holds once `n` has been stored in it: `n`
/// itself up to `i64::MAX`, its low 64 bits read as two's complement beyond.
pub fn wrap_to_i64(n: u128) -> (r: i64)
    ensures
        r == wrap_signed(n as int, 8),
        n <= i64::MAX ==> r == n,
{
    proof {
        reveal_with_fuel(radix, 9);
        if n <= i64::MAX {
            lemma_wrap_signed_in_range(n as int, 8);
        }
    }
    let low: u128 = n % 0x1_0000_0000_0000_0000;
    if low >= 0x8000_0000_0000_0000 {
        (low as i128 - 0x1_0000_0000_0000_0000) as i64
    } else {
        low as i64
    }
}

} // verus!
