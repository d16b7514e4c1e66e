//! How evenly decimal integer keys spread over eight shards.
//!
//! The slot of a key in a table of eight shards is the low three bits of its
//! checksum. The checksum is linear in the bits of the key, so the last digits of
//! a key move these bits by amounts that do not depend on the digits before
//! them, and the ten or the hundred keys that share their leading digits reach
//! every slot about equally often.

use crate::crc32::{crc32_byte, crc32_register, lemma_byte_linear, lemma_register_push};
use crate::shardkey::slot_of;
use vstd::prelude::*;

verus! {

/// The decimal digits of `n` as ASCII bytes: the encoding of an integer key.
pub open spec fn decimal(n: nat) -> Seq<u8>
    decreases n,
{
    if n < 10 {
        seq![(0x30 + n) as u8]
    } else {
        decimal(n / 10).push((0x30 + n % 10) as u8)
    }
}

/// How many of the integer keys from `lo` up to, but not including, `hi` belong
/// to `slot`.
pub open spec fn keys_in_slot(lo: nat, hi: nat, shard_cnt: u32, slot: u32) -> nat
    decreases hi,
{
    if hi <= lo {
        0
    } else {
        let last = (hi - 1) as nat;
        let hit = if slot_of(decimal(last), shard_cnt) == slot {
            1nat
        } else {
            0nat
        };
        keys_in_slot(lo, last, shard_cnt, slot) + hit
    }
}

/// By which bits `slot` differs from the slot of a key that leaves the register
/// at `register`.
spec fn slot_offset(register: u32, slot: u32) -> u32 {
    ((!register) & 7) ^ slot
}

/// By which bits `digit`, in place of a zero at the end of a key, moves its slot.
spec fn last_digit_move(digit: u8) -> u32 {
    crc32_byte(0, digit) & 7
}

/// By which bits `digit`, in place of a zero before the last digit of a key,
/// moves its slot.
spec fn last_digit_but_one_move(digit: u8) -> u32 {
    crc32_byte(crc32_byte(0, digit), 0) & 7
}

/// How many of the ten last digits move a key by `offset`.
spec fn digits_moving_by(offset: u32) -> u32 {
    if offset == 2 || offset == 4 {
        2
    } else {
        1
    }
}

/// A number of one digit is that digit, and a further digit stands at the end.
pub proof fn lemma_decimal_digits(n: nat, digit: nat)
    requires
        digit < 10,
    ensures
        decimal(digit).len() == 1,
        decimal(digit)[0] == 0x30 + digit,
        n >= 1 ==> decimal(10 * n + digit) == decimal(n).push((0x30 + digit) as u8),
{
    if n >= 1 {
        assert((10 * n + digit) / 10 == n);
        assert((10 * n + digit) % 10 == digit);
    }
}

/// A single key is counted in its own slot and in no other.
pub proof fn lemma_keys_single(n: nat, shard_cnt: u32, slot: u32)
    ensures
        keys_in_slot(n, n, shard_cnt, slot) == 0,
        slot_of(decimal(n), shard_cnt) == slot ==> keys_in_slot(n, n + 1, shard_cnt, slot) == 1,
        slot_of(decimal(n), shard_cnt) != slot ==> keys_in_slot(n, n + 1, shard_cnt, slot) == 0,
{
    reveal_with_fuel(keys_in_slot, 2);
}

/// Counting may be interrupted anywhere.
pub proof fn lemma_keys_split(lo: nat, mid: nat, hi: nat, shard_cnt: u32, slot: u32)
    requires
        lo <= mid <= hi,
    ensures
        keys_in_slot(lo, hi, shard_cnt, slot) == keys_in_slot(lo, mid, shard_cnt, slot)
            + keys_in_slot(mid, hi, shard_cnt, slot),
    decreases hi,
{
    if mid < hi {
        lemma_keys_split(lo, mid, (hi - 1) as nat, shard_cnt, slot);
    }
}

/// No more keys belong to a slot than there are.
pub proof fn lemma_keys_bounded(lo: nat, hi: nat, shard_cnt: u32, slot: u32)
    requires
        lo <= hi,
    ensures
        keys_in_slot(lo, hi, shard_cnt, slot) <= hi - lo,
    decreases hi,
{
    if lo < hi {
        lemma_keys_bounded(lo, (hi - 1) as nat, shard_cnt, slot);
    }
}

/// The register that the digits of `n` leave.
spec fn decimal_register(n: nat) -> u32 {
    crc32_register(!0, decimal(n))
}

/// A further digit is a further step of the register.
proof fn lemma_digit_step(n: nat, digit: u8)
    requires
        n >= 1,
        digit < 10,
    ensures
        decimal_register(10 * n + digit as nat) == crc32_byte(
            decimal_register(n),
            (0x30 + digit) as u8,
        ),
        slot_of(decimal(10 * n + digit as nat), 8) == (!decimal_register(
            10 * n + digit as nat,
        )) % 8,
{
    assert((10 * n + digit) / 10 == n);
    assert((10 * n + digit) % 10 == digit);
    lemma_register_push(!0, decimal(n), (0x30 + digit) as u8);
}

/// What a digit does to the register, in place of a zero, does not depend on the
/// register.
proof fn lemma_digit_in_place_of_zero(register: u32, digit: u8)
    requires
        digit < 10,
    ensures
        crc32_byte(register, (0x30 + digit) as u8) == crc32_byte(register, 0x30) ^ crc32_byte(
            0,
            digit,
        ),
        crc32_byte(crc32_byte(register, (0x30 + digit) as u8), 0x30) == crc32_byte(
            crc32_byte(register, 0x30),
            0x30,
        ) ^ crc32_byte(crc32_byte(0, digit), 0),
{
    assert(register ^ 0 == register) by (bit_vector);
    assert(0x30u8 ^ 0 == 0x30u8) by (bit_vector);
    assert(0x30u8 ^ digit == 0x30 + digit) by (bit_vector)
        requires
            digit < 10,
    ;
    lemma_byte_linear(register, 0, 0x30, digit);
    lemma_byte_linear(crc32_byte(register, 0x30), crc32_byte(0, digit), 0x30, 0);
}

/// How the digits move the slot of a key.
proof fn lemma_digit_moves()
    ensures
        last_digit_move(0) == 0,
        last_digit_move(1) == 6,
        last_digit_move(2) == 4,
        last_digit_move(3) == 2,
        last_digit_move(4) == 1,
        last_digit_move(5) == 7,
        last_digit_move(6) == 5,
        last_digit_move(7) == 3,
        last_digit_move(8) == 2,
        last_digit_move(9) == 4,
        last_digit_but_one_move(0) == 0,
        last_digit_but_one_move(1) == 1,
        last_digit_but_one_move(2) == 2,
        last_digit_but_one_move(3) == 3,
        last_digit_but_one_move(4) == 4,
        last_digit_but_one_move(5) == 5,
        last_digit_but_one_move(6) == 6,
        last_digit_but_one_move(7) == 7,
        last_digit_but_one_move(8) == 0,
        last_digit_but_one_move(9) == 1,
{
    assert({
        &&& crc32_byte(0u32, 0u8) == 0x0000_0000u32
        &&& crc32_byte(0u32, 1u8) == 0x7707_3096u32
        &&& crc32_byte(0u32, 2u8) == 0xEE0E_612Cu32
        &&& crc32_byte(0u32, 3u8) == 0x9909_51BAu32
        &&& crc32_byte(0u32, 4u8) == 0x076D_C419u32
        &&& 0x0000_0000u32 & 7 == 0
        &&& 0x7707_3096u32 & 7 == 6
        &&& 0xEE0E_612Cu32 & 7 == 4
        &&& 0x9909_51BAu32 & 7 == 2
        &&& 0x076D_C419u32 & 7 == 1
    }) by (bit_vector);
    assert({
        &&& crc32_byte(0u32, 5u8) == 0x706A_F48Fu32
        &&& crc32_byte(0u32, 6u8) == 0xE963_A535u32
        &&& crc32_byte(0u32, 7u8) == 0x9E64_95A3u32
        &&& crc32_byte(0u32, 8u8) == 0x0EDB_8832u32
        &&& crc32_byte(0u32, 9u8) == 0x79DC_B8A4u32
        &&& 0x706A_F48Fu32 & 7 == 7
        &&& 0xE963_A535u32 & 7 == 5
        &&& 0x9E64_95A3u32 & 7 == 3
        &&& 0x0EDB_8832u32 & 7 == 2
        &&& 0x79DC_B8A4u32 & 7 == 4
    }) by (bit_vector);
    assert({
        &&& crc32_byte(0x0000_0000u32, 0u8) == 0x0000_0000u32
        &&& crc32_byte(0x7707_3096u32, 0u8) == 0x191B_3141u32
        &&& crc32_byte(0xEE0E_612Cu32, 0u8) == 0x3236_6282u32
        &&& crc32_byte(0x9909_51BAu32, 0u8) == 0x2B2D_53C3u32
        &&& crc32_byte(0x076D_C419u32, 0u8) == 0x646C_C504u32
        &&& 0x0000_0000u32 & 7 == 0
        &&& 0x191B_3141u32 & 7 == 1
        &&& 0x3236_6282u32 & 7 == 2
        &&& 0x2B2D_53C3u32 & 7 == 3
        &&& 0x646C_C504u32 & 7 == 4
    }) by (bit_vector);
    assert({
        &&& crc32_byte(0x706A_F48Fu32, 0u8) == 0x7D77_F445u32
        &&& crc32_byte(0xE963_A535u32, 0u8) == 0x565A_A786u32
        &&& crc32_byte(0x9E64_95A3u32, 0u8) == 0x4F41_96C7u32
        &&& crc32_byte(0x0EDB_8832u32, 0u8) == 0xC8D9_8A08u32
        &&& crc32_byte(0x79DC_B8A4u32, 0u8) == 0xD1C2_BB49u32
        &&& 0x7D77_F445u32 & 7 == 5
        &&& 0x565A_A786u32 & 7 == 6
        &&& 0x4F41_96C7u32 & 7 == 7
        &&& 0xC8D9_8A08u32 & 7 == 0
        &&& 0xD1C2_BB49u32 & 7 == 1
    }) by (bit_vector);
}

/// A key belongs to `slot` exactly when its last digit moves it by the offset of
/// `slot` from the key that ends in zero.
proof fn lemma_last_digit(n: nat, digit: u8, slot: u32)
    requires
        n >= 1,
        digit < 10,
        slot < 8,
    ensures
        slot_of(decimal(10 * n + digit as nat), 8) == slot <==> slot_offset(
            crc32_byte(decimal_register(n), 0x30),
            slot,
        ) == last_digit_move(digit),
{
    let zero = crc32_byte(decimal_register(n), 0x30);
    let change = crc32_byte(0, digit);
    lemma_digit_step(n, digit);
    lemma_digit_in_place_of_zero(decimal_register(n), digit);
    assert(((!(zero ^ change)) % 8 == slot) == (slot_offset(zero, slot) == change & 7))
        by (bit_vector)
        requires
            slot < 8,
    ;
}

/// The ten keys that share all digits but the last reach every slot: each once
/// or twice, as the moves of the last digit say.
proof fn lemma_ten_keys(n: nat, slot: u32)
    requires
        n >= 1,
        slot < 8,
    ensures
        keys_in_slot(10 * n, 10 * n + 10, 8, slot) == digits_moving_by(
            slot_offset(crc32_byte(decimal_register(n), 0x30), slot),
        ),
{
    let zero = crc32_byte(decimal_register(n), 0x30);
    assert(slot_offset(zero, slot) < 8) by (bit_vector)
        requires
            slot < 8,
    ;
    reveal_with_fuel(keys_in_slot, 11);
    lemma_digit_moves();
    lemma_last_digit(n, 0, slot);
    lemma_last_digit(n, 1, slot);
    lemma_last_digit(n, 2, slot);
    lemma_last_digit(n, 3, slot);
    lemma_last_digit(n, 4, slot);
    lemma_last_digit(n, 5, slot);
    lemma_last_digit(n, 6, slot);
    lemma_last_digit(n, 7, slot);
    lemma_last_digit(n, 8, slot);
    lemma_last_digit(n, 9, slot);
}

/// Ten further keys, whose last digit but one is `digit`, add to a slot what the
/// moves of that digit say.
proof fn lemma_ten_more_keys(n: nat, digit: u8, slot: u32)
    requires
        n >= 1,
        digit < 10,
        slot < 8,
    ensures
        keys_in_slot(100 * n, 100 * n + 10 * digit as nat + 10, 8, slot) == keys_in_slot(
            100 * n,
            100 * n + 10 * digit as nat,
            8,
            slot,
        ) + digits_moving_by(
            slot_offset(crc32_byte(crc32_byte(decimal_register(n), 0x30), 0x30), slot)
                ^ last_digit_but_one_move(digit),
        ),
{
    let zeros = crc32_byte(crc32_byte(decimal_register(n), 0x30), 0x30);
    let change = crc32_byte(crc32_byte(0, digit), 0);
    lemma_digit_step(n, digit);
    lemma_digit_in_place_of_zero(decimal_register(n), digit);
    assert(slot_offset(zeros ^ change, slot) == slot_offset(zeros, slot) ^ (change & 7))
        by (bit_vector);
    lemma_ten_keys(10 * n + digit as nat, slot);
    lemma_keys_split(
        100 * n,
        100 * n + 10 * digit as nat,
        100 * n + 10 * digit as nat + 10,
        8,
        slot,
    );
}

/// Among any ten keys that share all digits but the last, every slot is hit once
/// or twice.
pub proof fn lemma_ten_keys_spread(n: nat, slot: u32)
    requires
        n >= 1,
        slot < 8,
    ensures
        1 <= keys_in_slot(10 * n, 10 * n + 10, 8, slot) <= 2,
{
    lemma_ten_keys(n, slot);
}

/// Among any hundred keys that share all digits but the last two, every slot is
/// hit twelve or thirteen times.
pub proof fn lemma_hundred_keys_spread(n: nat, slot: u32)
    requires
        n >= 1,
        slot < 8,
    ensures
        12 <= keys_in_slot(100 * n, 100 * n + 100, 8, slot) <= 13,
{
    let zeros = crc32_byte(crc32_byte(decimal_register(n), 0x30), 0x30);
    let offset = slot_offset(zeros, slot);
    assert(slot_offset(zeros, slot) < 8) by (bit_vector)
        requires
            slot < 8,
    ;
    lemma_digit_moves();
    lemma_ten_more_keys(n, 0, slot);
    lemma_ten_more_keys(n, 1, slot);
    lemma_ten_more_keys(n, 2, slot);
    lemma_ten_more_keys(n, 3, slot);
    lemma_ten_more_keys(n, 4, slot);
    lemma_ten_more_keys(n, 5, slot);
    lemma_ten_more_keys(n, 6, slot);
    lemma_ten_more_keys(n, 7, slot);
    lemma_ten_more_keys(n, 8, slot);
    lemma_ten_more_keys(n, 9, slot);
    assert(12 <= digits_moving_by(offset ^ 0) + digits_moving_by(offset ^ 1) + digits_moving_by(
        offset ^ 2,
    ) + digits_moving_by(offset ^ 3) + digits_moving_by(offset ^ 4) + digits_moving_by(offset ^ 5)
        + digits_moving_by(offset ^ 6) + digits_moving_by(offset ^ 7) + digits_moving_by(offset ^ 0)
        + digits_moving_by(offset ^ 1) <= 13) by (bit_vector)
        requires
            offset < 8,
    ;
}

/// The integer keys below a multiple of one hundred spread evenly over eight
/// shards: each hundred after the first adds twelve or thirteen keys to every
/// slot.
pub proof fn lemma_decimal_keys_spread(hundreds: nat, slot: u32)
    requires
        hundreds >= 1,
        slot < 8,
    ensures
        12 * (hundreds - 1) <= keys_in_slot(0, 100 * hundreds, 8, slot),
        keys_in_slot(0, 100 * hundreds, 8, slot) <= 13 * (hundreds - 1) + 100,
    decreases hundreds,
{
    if hundreds == 1 {
        lemma_keys_bounded(0, 100, 8, slot);
    } else {
        let before = (hundreds - 1) as nat;
        lemma_decimal_keys_spread(before, slot);
        lemma_hundred_keys_spread(before, slot);
        lemma_keys_split(0, 100 * before, 100 * before + 100, 8, slot);
    }
}

/// Of the integer keys below 100 000, every one of eight shards gets its share of
/// 12 500, give or take less than a fifth of it.
pub proof fn lemma_hundred_thousand_keys_spread(slot: u32)
    requires
        slot < 8,
    ensures
        -2_500 < keys_in_slot(0, 100_000, 8, slot) - 12_500 < 2_500,
{
    lemma_decimal_keys_spread(1000, slot);
}

} // verus!
