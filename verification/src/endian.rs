//! Big-endian layout of the fixed-width integers.
//!
//! The spec functions say which bytes stand for a number; the executable
//! functions compute them and are proved against that statement.

use vstd::arithmetic::div_mod::lemma_fundamental_div_mod_converse;
use vstd::prelude::*;

verus! {

/// The two bytes of `n`, most significant first.
pub open spec fn be_u16(n: u16) -> Seq<u8> {
    seq![(n / 256) as u8, (n % 256) as u8]
}

/// The four bytes of `n`, most significant first.
pub open spec fn be_u32(n: u32) -> Seq<u8> {
    seq![
        (n / 16777216) as u8,
        ((n / 65536) % 256) as u8,
        ((n / 256) % 256) as u8,
        (n % 256) as u8,
    ]
}

/// The number whose big-endian bytes are `hi`, `lo`.
pub open spec fn u16_of(hi: u8, lo: u8) -> u16 {
    (hi * 256 + lo) as u16
}

/// The number whose big-endian bytes are `b0` to `b3`.
pub open spec fn u32_of(b0: u8, b1: u8, b2: u8, b3: u8) -> u32 {
    (b0 * 16777216 + b1 * 65536 + b2 * 256 + b3) as u32
}

/// The byte that holds `n` in two's complement.
pub open spec fn unsigned8(n: i8) -> u8 {
    (if n < 0 { n + 256 } else { n as int }) as u8
}

/// The 16-bit pattern that holds `n` in two's complement.
pub open spec fn unsigned16(n: i16) -> u16 {
    (if n < 0 { n + 65536 } else { n as int }) as u16
}

/// The 32-bit pattern that holds `n` in two's complement.
pub open spec fn unsigned32(n: i32) -> u32 {
    (if n < 0 { n + 4294967296 } else { n as int }) as u32
}

/// The number that the byte `b` holds in two's complement.
pub open spec fn signed8(b: u8) -> i8 {
    (if b >= 128 { b - 256 } else { b as int }) as i8
}

/// The number that the pattern `n` holds in two's complement.
pub open spec fn signed16(n: u16) -> i16 {
    (if n >= 32768 { n - 65536 } else { n as int }) as i16
}

/// The number that the pattern `n` holds in two's complement.
pub open spec fn signed32(n: u32) -> i32 {
    (if n >= 2147483648 { n - 4294967296 } else { n as int }) as i32
}

/// Splits `n` into its big-endian bytes.
pub fn u16_to_be_bytes(n: u16) -> (r: [u8; 2])
    ensures
        r@ == be_u16(n),
{
    let r: [u8; 2] = [(n / 256) as u8, (n % 256) as u8];
    assert(r@ =~= be_u16(n));
    r
}

/// Splits `n` into its big-endian bytes.
pub fn u32_to_be_bytes(n: u32) -> (r: [u8; 4])
    ensures
        r@ == be_u32(n),
{
    let r: [u8; 4] = [
        (n / 16777216) as u8,
        ((n / 65536) % 256) as u8,
        ((n / 256) % 256) as u8,
        (n % 256) as u8,
    ];
    assert(r@ =~= be_u32(n));
    r
}

/// Joins two big-endian bytes.
pub fn u16_from_be_bytes(hi: u8, lo: u8) -> (r: u16)
    ensures
        r == u16_of(hi, lo),
{
    let h: u16 = hi as u16;
    let l: u16 = lo as u16;
    h * 256 + l
}

/// Joins four big-endian bytes.
pub fn u32_from_be_bytes(b0: u8, b1: u8, b2: u8, b3: u8) -> (r: u32)
    ensures
        r == u32_of(b0, b1, b2, b3),
{
    let x0: u32 = b0 as u32;
    let x1: u32 = b1 as u32;
    let x2: u32 = b2 as u32;
    let x3: u32 = b3 as u32;
    x0 * 16777216 + x1 * 65536 + x2 * 256 + x3
}

/// The two's complement pattern of `n`.
pub fn i8_to_u8(n: i8) -> (r: u8)
    ensures
        r == unsigned8(n),
{
    if n < 0 {
        let wide: i16 = n as i16;
        (wide + 256) as u8
    } else {
        n as u8
    }
}

/// The two's complement pattern of `n`.
pub fn i16_to_u16(n: i16) -> (r: u16)
    ensures
        r == unsigned16(n),
{
    if n < 0 {
        let wide: i32 = n as i32;
        (wide + 65536) as u16
    } else {
        n as u16
    }
}

/// The two's complement pattern of `n`.
pub fn i32_to_u32(n: i32) -> (r: u32)
    ensures
        r == unsigned32(n),
{
    if n < 0 {
        let wide: i64 = n as i64;
        (wide + 4294967296) as u32
    } else {
        n as u32
    }
}

/// The number that `b` holds in two's complement.
pub fn u8_to_i8(b: u8) -> (r: i8)
    ensures
        r == signed8(b),
{
    if b >= 128 {
        let wide: i16 = b as i16;
        (wide - 256) as i8
    } else {
        b as i8
    }
}

/// The number that `n` holds in two's complement.
pub fn u16_to_i16(n: u16) -> (r: i16)
    ensures
        r == signed16(n),
{
    if n >= 32768 {
        let wide: i32 = n as i32;
        (wide - 65536) as i16
    } else {
        n as i16
    }
}

/// The number that `n` holds in two's complement.
pub fn u32_to_i32(n: u32) -> (r: i32)
    ensures
        r == signed32(n),
{
    if n >= 2147483648 {
        let wide: i64 = n as i64;
        (wide - 4294967296) as i32
    } else {
        n as i32
    }
}

/// Reading back the bytes of a number gives the number.
pub proof fn u16_bytes_round_trip(n: u16)
    ensures
        u16_of(be_u16(n)[0], be_u16(n)[1]) == n,
{
}

/// Splitting the number made of two bytes gives the bytes.
pub proof fn u16_of_bytes_round_trip(hi: u8, lo: u8)
    ensures
        be_u16(u16_of(hi, lo)) == seq![hi, lo],
{
    assert(be_u16(u16_of(hi, lo)) =~= seq![hi, lo]);
}

/// Reading back the bytes of a number gives the number.
pub proof fn u32_bytes_round_trip(n: u32)
    ensures
        u32_of(be_u32(n)[0], be_u32(n)[1], be_u32(n)[2], be_u32(n)[3]) == n,
{
}

/// Splitting the number made of four bytes gives the bytes.
pub proof fn u32_of_bytes_round_trip(b0: u8, b1: u8, b2: u8, b3: u8)
    ensures
        be_u32(u32_of(b0, b1, b2, b3)) == seq![b0, b1, b2, b3],
{
    let n: int = b0 * 16777216 + b1 * 65536 + b2 * 256 + b3;
    lemma_fundamental_div_mod_converse(n, 16777216, b0 as int, b1 * 65536 + b2 * 256 + b3);
    lemma_fundamental_div_mod_converse(n, 65536, b0 * 256 + b1, b2 * 256 + b3);
    lemma_fundamental_div_mod_converse(b0 * 256 + b1, 256, b0 as int, b1 as int);
    lemma_fundamental_div_mod_converse(n, 256, b0 * 65536 + b1 * 256 + b2, b3 as int);
    lemma_fundamental_div_mod_converse(b0 * 65536 + b1 * 256 + b2, 256, b0 * 256 + b1, b2 as int);
    assert(be_u32(u32_of(b0, b1, b2, b3)) =~= seq![b0, b1, b2, b3]);
}

/// Two's complement loses nothing: the number that the pattern of `n` holds
/// is `n`.
pub proof fn signed_of_unsigned8(n: i8)
    ensures
        signed8(unsigned8(n)) == n,
{
}

/// Two's complement loses nothing: the number that the pattern of `n` holds
/// is `n`.
pub proof fn signed_of_unsigned16(n: i16)
    ensures
        signed16(unsigned16(n)) == n,
{
}

/// Two's complement loses nothing: the number that the pattern of `n` holds
/// is `n`.
pub proof fn signed_of_unsigned32(n: i32)
    ensures
        signed32(unsigned32(n)) == n,
{
}

/// Every pattern is the pattern of the number it holds.
pub proof fn unsigned_of_signed(a: u8, b: u16, c: u32)
    ensures
        unsigned8(signed8(a)) == a,
        unsigned16(signed16(b)) == b,
        unsigned32(signed32(c)) == c,
{
}

} // verus!
