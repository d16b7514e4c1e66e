//! CRC-32/IEEE: its definition, the incremental hasher of the `crc32fast`
//! crate, and the laws of the checksum that sharding relies on.
//!
//! The checksum is defined here bit by bit, as the remainder of a division in
//! a shift register. `crc32fast` computes the same function with lookup tables
//! or with carry-less multiplication; that it does is what the
//! `assume_specification` items below claim of it.

use vstd::prelude::*;

verus! {

/// The generator polynomial of CRC-32/IEEE, least significant bit first.
pub const CRC32_POLYNOMIAL: u32 = 0xEDB8_8320;

/// The register after one bit has been shifted out.
pub open spec fn crc32_bit(register: u32) -> u32 {
    if register & 1 == 1 {
        (register >> 1) ^ CRC32_POLYNOMIAL
    } else {
        register >> 1
    }
}

/// The register after four bits have been shifted out.
pub open spec fn crc32_nibble(register: u32) -> u32 {
    crc32_bit(crc32_bit(crc32_bit(crc32_bit(register))))
}

/// The register after `byte` has been added to it and shifted out.
pub open spec fn crc32_byte(register: u32, byte: u8) -> u32 {
    crc32_nibble(crc32_nibble(register ^ (byte as u32)))
}

/// The register after all of `bytes` have been shifted through it, in order.
pub open spec fn crc32_register(register: u32, bytes: Seq<u8>) -> u32
    decreases bytes.len(),
{
    if bytes.len() == 0 {
        register
    } else {
        crc32_byte(crc32_register(register, bytes.drop_last()), bytes.last())
    }
}

/// The checksum that `bytes` make of a checksum `crc` of what came before them.
///
/// A checksum is the complement of the register that it stands for.
pub open spec fn crc32_update(crc: u32, bytes: Seq<u8>) -> u32 {
    !crc32_register(!crc, bytes)
}

/// The CRC-32/IEEE checksum of `bytes`.
pub open spec fn crc32_ieee(bytes: Seq<u8>) -> u32 {
    crc32_update(0, bytes)
}

/// An in-progress checksum of the `crc32fast` crate. Its fields are private to
/// that crate; [`hasher_state`] and [`hasher_amount`] name what it holds.
#[verifier::external_type_specification]
#[verifier::external_body]
pub struct ExHasher(crc32fast::Hasher);

/// The checksum of everything that has been fed to `hasher`.
pub uninterp spec fn hasher_state(hasher: crc32fast::Hasher) -> u32;

/// The number of bytes that have been fed to `hasher`.
pub uninterp spec fn hasher_amount(hasher: crc32fast::Hasher) -> u64;

/// `crc32fast::Hasher::new`: a hasher that has been fed nothing. It stands at
/// the checksum of no bytes, which is zero, whichever implementation the
/// crate selects for the processor that it runs on.
pub assume_specification[ crc32fast::Hasher::new ]() -> (hasher: crc32fast::Hasher)
    ensures
        hasher_state(hasher) == 0,
        hasher_amount(hasher) == 0,
;

/// `crc32fast::Hasher::update`: feeds `buf` to the hasher, which carries the
/// CRC-32/IEEE checksum on by these bytes and adds their number to a 64-bit
/// count. That count must not overflow.
pub assume_specification[ crc32fast::Hasher::update ](hasher: &mut crc32fast::Hasher, buf: &[u8])
    requires
        hasher_amount(*old(hasher)) + buf@.len() <= u64::MAX,
    ensures
        hasher_state(*final(hasher)) == crc32_update(hasher_state(*old(hasher)), buf@),
        hasher_amount(*final(hasher)) == hasher_amount(*old(hasher)) + buf@.len(),
;

/// `crc32fast::Hasher::finalize`: the checksum that the hasher stands at.
pub assume_specification[ crc32fast::Hasher::finalize ](hasher: crc32fast::Hasher) -> (crc: u32)
    ensures
        crc == hasher_state(hasher),
;

/// A step of the register by a byte is one lookup in a table of 256 entries,
/// which holds the registers that the bytes make of zero.
pub proof fn lemma_byte_by_table(register: u32, byte: u8)
    ensures
        crc32_byte(register, byte) == crc32_byte(0, (register as u8) ^ byte) ^ (register >> 8),
{
    assert(crc32_byte(register, byte) == crc32_byte(0, (register as u8) ^ byte) ^ (register
        >> 8u32)) by (bit_vector);
}

/// A shift of the register is linear: it distributes over bitwise addition.
proof fn lemma_bit_linear(a: u32, b: u32)
    ensures
        crc32_bit(a ^ b) == crc32_bit(a) ^ crc32_bit(b),
{
    assert(crc32_bit(a ^ b) == crc32_bit(a) ^ crc32_bit(b)) by (bit_vector);
}

/// Four shifts of the register are linear.
proof fn lemma_nibble_linear(a: u32, b: u32)
    ensures
        crc32_nibble(a ^ b) == crc32_nibble(a) ^ crc32_nibble(b),
{
    lemma_bit_linear(a, b);
    lemma_bit_linear(crc32_bit(a), crc32_bit(b));
    lemma_bit_linear(crc32_bit(crc32_bit(a)), crc32_bit(crc32_bit(b)));
    lemma_bit_linear(crc32_bit(crc32_bit(crc32_bit(a))), crc32_bit(crc32_bit(crc32_bit(b))));
}

/// A step of the register is linear in the register and in the byte: what a
/// change of either does to the result does not depend on what was changed.
pub proof fn lemma_byte_linear(a: u32, b: u32, x: u8, y: u8)
    ensures
        crc32_byte(a ^ b, x ^ y) == crc32_byte(a, x) ^ crc32_byte(b, y),
{
    assert((a ^ b) ^ ((x ^ y) as u32) == (a ^ (x as u32)) ^ (b ^ (y as u32))) by (bit_vector);
    lemma_nibble_linear(a ^ (x as u32), b ^ (y as u32));
    lemma_nibble_linear(crc32_nibble(a ^ (x as u32)), crc32_nibble(b ^ (y as u32)));
}

/// One more byte takes one more step of the register.
pub broadcast proof fn lemma_register_push(register: u32, bytes: Seq<u8>, byte: u8)
    ensures
        #[trigger] crc32_register(register, bytes.push(byte)) == crc32_byte(
            crc32_register(register, bytes),
            byte,
        ),
{
    assert(bytes.push(byte).drop_last() =~= bytes);
}

/// Shifting `a` and then `b` through the register is shifting `a + b` through it.
pub proof fn lemma_register_concat(register: u32, a: Seq<u8>, b: Seq<u8>)
    ensures
        crc32_register(crc32_register(register, a), b) == crc32_register(register, a + b),
    decreases b.len(),
{
    if b.len() == 0 {
        assert(a + b =~= a);
    } else {
        assert((a + b).drop_last() =~= a + b.drop_last());
        lemma_register_concat(register, a, b.drop_last());
    }
}

/// The checksum can be computed piece by piece: carrying the checksum of `a`
/// on by `b` gives the checksum of `a + b`.
pub proof fn lemma_update_concat(crc: u32, a: Seq<u8>, b: Seq<u8>)
    ensures
        crc32_update(crc32_update(crc, a), b) == crc32_update(crc, a + b),
{
    let register = crc32_register(!crc, a);
    assert(!(!register) == register) by (bit_vector);
    lemma_register_concat(!crc, a, b);
}

/// No bytes leave a checksum as it is.
pub proof fn lemma_update_empty(crc: u32)
    ensures
        crc32_update(crc, Seq::empty()) == crc,
{
    assert(!(!crc) == crc) by (bit_vector);
}

/// Shifting one bit out halves the register; a bit that is shifted out as one
/// brings the polynomial in.
pub proof fn lemma_bit_halves(half: u32)
    requires
        half < 0x8000_0000,
    ensures
        crc32_bit((2 * half) as u32) == half,
        crc32_bit((2 * half + 1) as u32) == half ^ 0xEDB8_8320,
{
    assert(crc32_bit((2 * half) as u32) == half && crc32_bit((2 * half + 1) as u32) == half
        ^ 0xEDB8_8320) by (bit_vector)
        requires
            half < 0x8000_0000,
    ;
}

/// What the eight bits of a byte make of an empty register. With
/// [`lemma_byte_by_table`] and [`lemma_byte_linear`] they fix every step.
pub proof fn lemma_byte_basis()
    ensures
        crc32_byte(0, 0) == 0,
        crc32_byte(0, 0x01) == 0x7707_3096,
        crc32_byte(0, 0x02) == 0xEE0E_612C,
        crc32_byte(0, 0x04) == 0x076D_C419,
        crc32_byte(0, 0x08) == 0x0EDB_8832,
        crc32_byte(0, 0x10) == 0x1DB7_1064,
        crc32_byte(0, 0x20) == 0x3B6E_20C8,
        crc32_byte(0, 0x40) == 0x76DC_4190,
        crc32_byte(0, 0x80) == 0xEDB8_8320,
{
    assert({
        &&& crc32_byte(0u32, 0u8) == 0u32
        &&& crc32_byte(0u32, 0x01u8) == 0x7707_3096u32
        &&& crc32_byte(0u32, 0x02u8) == 0xEE0E_612Cu32
        &&& crc32_byte(0u32, 0x04u8) == 0x076D_C419u32
        &&& crc32_byte(0u32, 0x08u8) == 0x0EDB_8832u32
    }) by (bit_vector);
    assert({
        &&& crc32_byte(0u32, 0x10u8) == 0x1DB7_1064u32
        &&& crc32_byte(0u32, 0x20u8) == 0x3B6E_20C8u32
        &&& crc32_byte(0u32, 0x40u8) == 0x76DC_4190u32
        &&& crc32_byte(0u32, 0x80u8) == 0xEDB8_8320u32
    }) by (bit_vector);
}

/// A shift loses nothing: different registers stay different.
proof fn lemma_bit_injective(a: u32, b: u32)
    requires
        a != b,
    ensures
        crc32_bit(a) != crc32_bit(b),
{
    assert(crc32_bit(a) != crc32_bit(b)) by (bit_vector)
        requires
            a != b,
    ;
}

/// Four shifts lose nothing.
proof fn lemma_nibble_injective(a: u32, b: u32)
    requires
        a != b,
    ensures
        crc32_nibble(a) != crc32_nibble(b),
{
    lemma_bit_injective(a, b);
    lemma_bit_injective(crc32_bit(a), crc32_bit(b));
    lemma_bit_injective(crc32_bit(crc32_bit(a)), crc32_bit(crc32_bit(b)));
    lemma_bit_injective(crc32_bit(crc32_bit(crc32_bit(a))), crc32_bit(crc32_bit(crc32_bit(b))));
}

/// A step loses nothing: different registers stay different under one byte, and
/// different bytes make one register different.
pub proof fn lemma_byte_injective(a: u32, b: u32, x: u8, y: u8)
    ensures
        a != b ==> crc32_byte(a, x) != crc32_byte(b, x),
        x != y ==> crc32_byte(a, x) != crc32_byte(a, y),
{
    if a != b {
        assert(a ^ (x as u32) != b ^ (x as u32)) by (bit_vector)
            requires
                a != b,
        ;
        lemma_nibble_injective(a ^ (x as u32), b ^ (x as u32));
        lemma_nibble_injective(
            crc32_nibble(a ^ (x as u32)),
            crc32_nibble(b ^ (x as u32)),
        );
    }
    if x != y {
        assert(a ^ (x as u32) != a ^ (y as u32)) by (bit_vector)
            requires
                x != y,
        ;
        lemma_nibble_injective(a ^ (x as u32), a ^ (y as u32));
        lemma_nibble_injective(
            crc32_nibble(a ^ (x as u32)),
            crc32_nibble(a ^ (y as u32)),
        );
    }
}

/// Different registers stay different, whatever is shifted through them.
pub proof fn lemma_register_injective(a: u32, b: u32, bytes: Seq<u8>)
    requires
        a != b,
    ensures
        crc32_register(a, bytes) != crc32_register(b, bytes),
    decreases bytes.len(),
{
    if bytes.len() > 0 {
        lemma_register_injective(a, b, bytes.drop_last());
        lemma_byte_injective(
            crc32_register(a, bytes.drop_last()),
            crc32_register(b, bytes.drop_last()),
            bytes.last(),
            0,
        );
    }
}

/// No bytes leave a register as it is.
pub proof fn lemma_register_empty(register: u32)
    ensures
        crc32_register(register, Seq::empty()) == register,
{
}

/// One more byte carries a checksum on by one step of the register that it is
/// the complement of.
pub proof fn lemma_update_push(crc: u32, bytes: Seq<u8>, byte: u8)
    ensures
        crc32_update(crc, bytes.push(byte)) == !crc32_byte(!crc32_update(crc, bytes), byte),
{
    let register = crc32_register(!crc, bytes);
    assert(!(!register) == register) by (bit_vector);
    lemma_register_push(!crc, bytes, byte);
}

/// The checksum of no bytes is zero, and each byte of a key carries on the
/// checksum of the bytes before it.
pub proof fn lemma_ieee_push(key: Seq<u8>, byte: u8)
    ensures
        crc32_ieee(Seq::empty()) == 0,
        crc32_ieee(key.push(byte)) == crc32_update(crc32_ieee(key), seq![byte]),
        crc32_ieee(key.push(byte)) == !crc32_byte(!crc32_ieee(key), byte),
{
    lemma_update_empty(0);
    assert(key.push(byte) =~= key + seq![byte]);
    lemma_update_concat(0, key, seq![byte]);
    lemma_update_push(0, key, byte);
}

/// The first byte of a key counts: it is the first step of a register of ones,
/// and the rest of the key goes on from there.
pub proof fn lemma_ieee_first(first: u8, rest: Seq<u8>)
    ensures
        crc32_ieee(seq![first] + rest) == !crc32_register(crc32_byte(0xFFFF_FFFF, first), rest),
        crc32_ieee(seq![first] + rest) == crc32_update(crc32_ieee(seq![first]), rest),
{
    assert(!0u32 == 0xFFFF_FFFFu32) by (bit_vector);
    lemma_register_push(0xFFFF_FFFF, Seq::empty(), first);
    assert(seq![first] =~= Seq::empty().push(first));
    lemma_register_concat(0xFFFF_FFFF, seq![first], rest);
    lemma_update_concat(0, seq![first], rest);
}

/// The checksum of two keys, one after the other, is the checksum of the first
/// carried on by the second.
pub proof fn lemma_ieee_concat(a: Seq<u8>, b: Seq<u8>)
    ensures
        crc32_ieee(a + b) == crc32_update(crc32_ieee(a), b),
{
    lemma_update_concat(0, a, b);
}

/// A change of one byte, wherever it stands in a key, changes the checksum.
pub proof fn lemma_one_byte_changes_checksum(before: Seq<u8>, x: u8, y: u8, after: Seq<u8>)
    requires
        x != y,
    ensures
        crc32_ieee(before + seq![x] + after) != crc32_ieee(before + seq![y] + after),
{
    let register = crc32_register(!0, before);
    let a = crc32_byte(register, x);
    let b = crc32_byte(register, y);
    lemma_byte_injective(register, register, x, y);
    lemma_register_injective(a, b, after);
    assert(before + seq![x] =~= before.push(x));
    assert(before + seq![y] =~= before.push(y));
    lemma_register_push(!0, before, x);
    lemma_register_push(!0, before, y);
    lemma_register_concat(!0, before + seq![x], after);
    lemma_register_concat(!0, before + seq![y], after);
    let c = crc32_register(a, after);
    let d = crc32_register(b, after);
    assert(!c != !d) by (bit_vector)
        requires
            c != d,
    ;
}

/// A byte that a register ends in takes itself out of it: of `register ^ word`,
/// a step by the low byte of `word` leaves what a step by zero leaves of
/// `register`, and the other bytes of `word`.
proof fn lemma_byte_cancels(register: u32, word: u32)
    ensures
        crc32_byte(register ^ word, word as u8) == crc32_byte(register, 0) ^ (word >> 8),
{
    let low = word as u8;
    assert(0u8 ^ low == low) by (bit_vector);
    assert(low ^ low == 0u8) by (bit_vector);
    assert(0u32 ^ (word >> 8u32) == word >> 8u32) by (bit_vector);
    lemma_byte_linear(register, word, 0, low);
    lemma_byte_by_table(word, low);
    lemma_byte_basis();
}

/// The bytes of a checksum, least significant first.
pub open spec fn checksum_bytes(crc: u32) -> Seq<u8> {
    seq![crc as u8, (crc >> 8) as u8, (crc >> 16) as u8, (crc >> 24) as u8]
}

/// A key that is followed by its own checksum has one and the same checksum,
/// whatever the key: the residue of CRC-32/IEEE.
pub proof fn lemma_residue(key: Seq<u8>)
    ensures
        crc32_ieee(key + checksum_bytes(crc32_ieee(key))) == 0x2144_DF1C,
{
    broadcast use lemma_register_push;

    let crc = crc32_ieee(key);
    let register = crc32_register(!0, key);
    let tail = checksum_bytes(crc);
    assert(tail =~= Seq::empty().push(crc as u8).push((crc >> 8) as u8).push((crc >> 16) as u8).push(
        (crc >> 24) as u8,
    ));
    assert(register == 0xFFFF_FFFFu32 ^ crc) by (bit_vector)
        requires
            crc == !register,
    ;
    assert({
        &&& (crc >> 8u32) >> 8u32 == crc >> 16u32
        &&& (crc >> 16u32) >> 8u32 == crc >> 24u32
        &&& (crc >> 24u32) >> 8u32 == 0u32
    }) by (bit_vector);
    assert(crc32_byte(0xFFFF_FFFFu32, 0u8) == 0x2DFD_1072u32) by (bit_vector);
    assert(crc32_byte(0x2DFD_1072u32, 0u8) == 0xBE26_ED00u32) by (bit_vector);
    assert(crc32_byte(0xBE26_ED00u32, 0u8) == 0x00BE_26EDu32) by (bit_vector);
    assert(crc32_byte(0x00BE_26EDu32, 0u8) == 0xDEBB_20E3u32) by (bit_vector);
    lemma_byte_cancels(0xFFFF_FFFF, crc);
    lemma_byte_cancels(0x2DFD_1072, crc >> 8);
    lemma_byte_cancels(0xBE26_ED00, crc >> 16);
    lemma_byte_cancels(0x00BE_26ED, crc >> 24);
    assert(0xDEBB_20E3u32 ^ 0 == 0xDEBB_20E3u32) by (bit_vector);
    assert(!0xDEBB_20E3u32 == 0x2144_DF1Cu32) by (bit_vector);
    lemma_register_concat(!0, key, tail);
}

/// The definition has the check value by which CRC-32/IEEE is told apart from
/// the other checksums of its size: `0xCBF43926`, for the digits 1 to 9.
pub proof fn lemma_check_value()
    ensures
        crc32_ieee(seq![0x31, 0x32, 0x33, 0x34, 0x35, 0x36, 0x37, 0x38, 0x39]) == 0xCBF4_3926,
{
    broadcast use lemma_register_push;

    let digits: Seq<u8> = seq![0x31, 0x32, 0x33, 0x34, 0x35, 0x36, 0x37, 0x38, 0x39];
    assert(digits =~= Seq::empty().push(0x31u8).push(0x32).push(0x33).push(0x34).push(0x35).push(
        0x36,
    ).push(0x37).push(0x38).push(0x39));
    assert({
        &&& crc32_byte(0xFFFF_FFFFu32, 0x31u8) == 0x7C23_1048u32
        &&& crc32_byte(0x7C23_1048u32, 0x32u8) == 0xB0AC_BB32u32
        &&& crc32_byte(0xB0AC_BB32u32, 0x33u8) == 0x77B7_9C2Du32
        &&& crc32_byte(0x77B7_9C2Du32, 0x34u8) == 0x641C_1F5Cu32
        &&& crc32_byte(0x641C_1F5Cu32, 0x35u8) == 0x340A_C5E3u32
    }) by (bit_vector);
    assert({
        &&& crc32_byte(0x340A_C5E3u32, 0x36u8) == 0xF68D_2C9Eu32
        &&& crc32_byte(0xF68D_2C9Eu32, 0x37u8) == 0xAFFC_9660u32
        &&& crc32_byte(0xAFFC_9660u32, 0x38u8) == 0x651F_2550u32
        &&& crc32_byte(0x651F_2550u32, 0x39u8) == 0x340B_C6D9u32
    }) by (bit_vector);
    assert(!0u32 == 0xFFFF_FFFFu32) by (bit_vector);
    assert(!0x340B_C6D9u32 == 0xCBF4_3926u32) by (bit_vector);
}

} // verus!
