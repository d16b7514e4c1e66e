//! Tests of the shard slots.

use mpp_support::shardkey::{shard_slot, shard_slot_multi, ShardKeyInfo};

#[test]
fn test_shard_slot_basic() {
    // shard_cnt=1 always returns 0.
    assert_eq!(shard_slot(b"anything", 1), 0);
    // Result is always in [0, shard_cnt).
    for cnt in [2, 4, 8, 16, 32, 64] {
        let slot = shard_slot(b"test_value", cnt);
        assert!(slot < cnt, "slot {} not in [0, {})", slot, cnt);
    }
}

#[test]
fn test_shard_slot_distribution() {
    let shard_cnt: u32 = 8;
    let mut counts = vec![0u64; shard_cnt as usize];
    // Simulate integer shard keys 0..100_000 encoded as decimal strings
    // (matching TiDB's Datum.ToString() for integers).
    for i in 0..100_000u64 {
        let s = i.to_string();
        let slot = shard_slot(s.as_bytes(), shard_cnt);
        counts[slot as usize] += 1;
    }
    let expected = 100_000 / shard_cnt as u64;
    for (idx, &count) in counts.iter().enumerate() {
        let diff = count.abs_diff(expected);
        assert!(
            diff < expected / 5,
            "Shard {} distribution uneven: {} vs expected {} (diff {})",
            idx,
            count,
            expected,
            diff,
        );
    }
}

#[test]
fn test_shard_slot_multi_matches_concat() {
    // Multi-column shard slot must match concatenated single-call.
    let col1 = b"42";
    let col2 = b"hello";
    let concat: Vec<u8> = [col1.as_slice(), col2.as_slice()].concat();
    let slot_single = shard_slot(&concat, 16);
    let slot_multi = shard_slot_multi(&[col1, col2], 16);
    assert_eq!(slot_single, slot_multi);
}

#[test]
fn test_null_encoding() {
    // NULL columns are encoded as a single 0x00 byte on the TiDB side.
    let null_byte: &[u8] = &[0x00];
    let slot = shard_slot(null_byte, 4);
    assert!(slot < 4);
}

// Cross-check test vectors against TiDB's locateShard().
//
// TiDB encoding for int64 values:
//   Datum.ToString() → string, then binCollator.Key(s) → []byte(s)
//   e.g. int64(42) → "42" → [0x34, 0x32]
//
// Verify in Go playground (https://go.dev/play/):
//   package main
//   import ("fmt"; "hash/crc32")
//   func main() {
//       for _, tc := range []struct{ s string; cnt uint32 }{
//           {"42", 4}, {"99", 4}, {"1", 4}, {"42", 16},
//       } {
//           h := crc32.NewIEEE()
//           h.Write([]byte(tc.s))
//           fmt.Printf("CRC32(%q) = 0x%08X, %%%d = %d\n",
//               tc.s, h.Sum32(), tc.cnt, h.Sum32()%tc.cnt)
//       }
//   }
#[test]
fn test_crc32_ieee_cross_check() {
    // CRC32/IEEE of b"42" = 0x3224B088 = 841_265_288
    assert_eq!(crc32fast::hash(b"42"), 0x3224_B088);
    assert_eq!(shard_slot(b"42", 4), 0);  // 841_265_288 % 4 = 0
    assert_eq!(shard_slot(b"42", 16), 8); // 841_265_288 % 16 = 8

    // CRC32/IEEE of b"99" = 0x1058174D = 274_208_589
    assert_eq!(crc32fast::hash(b"99"), 0x1058_174D);
    assert_eq!(shard_slot(b"99", 4), 1); // 274_208_589 % 4 = 1

    // CRC32/IEEE of b"1" = 0x83DCEFB7 = 2_212_294_583
    assert_eq!(crc32fast::hash(b"1"), 0x83DC_EFB7);
    assert_eq!(shard_slot(b"1", 4), 3); // 2_212_294_583 % 4 = 3

    // CRC32/IEEE of b"hello" = 0x3610A686 = 907_060_870
    assert_eq!(crc32fast::hash(b"hello"), 0x3610_A686);
    assert_eq!(shard_slot(b"hello", 4), 2); // 907_060_870 % 4 = 2
}

#[test]
fn test_multi_column_cross_check() {
    // Multi-column: CRC32/IEEE fed b"42" then b"hello" sequentially.
    // CRC32/IEEE("42"+"hello") = 0x78C0A902 = 2_025_892_098
    let mut h = crc32fast::Hasher::new();
    h.update(b"42");
    h.update(b"hello");
    assert_eq!(h.finalize(), 0x78C0_A902);
    assert_eq!(shard_slot_multi(&[b"42", b"hello"], 4), 2); // 2_025_892_098 % 4 = 2
}

#[test]
fn test_null_cross_check() {
    // NULL → single 0x00 byte. CRC32/IEEE(0x00) = 0xD202EF8D = 3_523_407_757
    assert_eq!(crc32fast::hash(&[0x00]), 0xD202_EF8D);
    assert_eq!(shard_slot(&[0x00], 4), 1); // 3_523_407_757 % 4 = 1
}

#[test]
fn test_shard_key_info() {
    let info = ShardKeyInfo {
        columns: vec!["company_id".to_string()],
        shard_cnt: 4,
    };
    assert_eq!(info.columns.len(), 1);
    assert_eq!(info.shard_cnt, 4);
}

/// The checksum itself: one that is below `u32::MAX` is its own slot.
fn checksum(bytes: &[u8]) -> u32 {
    shard_slot(bytes, u32::MAX)
}

/// The checksum by its definition, bit by bit.
fn checksum_by_bits(bytes: &[u8]) -> u32 {
    let mut register: u32 = 0xFFFF_FFFF;
    for byte in bytes {
        register ^= *byte as u32;
        for _ in 0..8 {
            register = if register & 1 == 1 {
                (register >> 1) ^ mpp_support::crc32::CRC32_POLYNOMIAL
            } else {
                register >> 1
            };
        }
    }
    !register
}

#[test]
fn checksum_has_the_check_value() {
    assert_eq!(checksum(b"123456789"), 0xCBF4_3926);
}

#[test]
fn checksum_of_nothing_is_zero() {
    assert_eq!(checksum(b""), 0);
    assert_eq!(shard_slot(b"", 64), 0);
    assert_eq!(shard_slot_multi(&[], 64), 0);
    assert_eq!(shard_slot_multi(&[b"", b""], 64), 0);
}

#[test]
fn checksum_follows_its_definition_at_every_length() {
    // Lengths at which the hasher switches from one strategy to another.
    let mut bytes: Vec<u8> = Vec::new();
    let mut seed: u32 = 0x1234_5678;
    for _ in 0..5000 {
        seed = seed.wrapping_mul(1_664_525).wrapping_add(1_013_904_223);
        bytes.push((seed >> 24) as u8);
    }
    for len in (0..300).chain([511, 512, 1023, 1024, 2047, 2048, 2049, 2304, 4999, 5000]) {
        assert_eq!(checksum(&bytes[..len]), checksum_by_bits(&bytes[..len]));
        let (a, b) = bytes[..len].split_at(len / 3);
        assert_eq!(shard_slot_multi(&[a, b], u32::MAX), checksum_by_bits(&bytes[..len]));
    }
}

#[test]
fn cutting_the_key_makes_no_difference() {
    let key = b"42hello";
    let whole = shard_slot(key, 64);
    for i in 0..=key.len() {
        for j in i..=key.len() {
            let columns = [&key[..i], &key[i..j], &key[j..]];
            assert_eq!(shard_slot_multi(&columns, 64), whole);
        }
    }
    assert_eq!(shard_slot_multi(&[key], 64), whole);
}

#[test]
fn column_order_matters() {
    assert_eq!(checksum(b"42hello"), 0x78C0_A902);
    assert_eq!(shard_slot_multi(&[b"42", b"hello"], u32::MAX), 0x78C0_A902);
    assert_ne!(
        shard_slot_multi(&[b"42", b"hello"], u32::MAX),
        shard_slot_multi(&[b"hello", b"42"], u32::MAX),
    );
}

#[test]
fn null_column_is_a_zero_byte() {
    // (NULL, 42) feeds 0x00 and then the digits.
    assert_eq!(shard_slot_multi(&[&[0x00], b"42"], u32::MAX), checksum(&[0x00, 0x34, 0x32]));
    assert_ne!(checksum(&[0x00]), checksum(b""));
}

#[test]
fn single_shard_holds_every_row() {
    for key in [&b""[..], b"42", b"hello", &[0x00]] {
        assert_eq!(shard_slot(key, 1), 0);
        assert_eq!(shard_slot_multi(&[key, key], 1), 0);
    }
}

#[test]
fn shard_key_infos_compare_by_their_fields() {
    let info = ShardKeyInfo {
        columns: vec!["company_id".to_string(), "region".to_string()],
        shard_cnt: 4,
    };
    assert_eq!(info, info.clone());
    let mut other = info.clone();
    other.shard_cnt = 8;
    assert_ne!(info, other);
    let mut other = info.clone();
    other.columns[1] = "zone".to_string();
    assert_ne!(info, other);
    let mut other = info.clone();
    other.columns.pop();
    assert_ne!(info, other);
}

fn keys_in_slot(lo: u64, hi: u64, slot: u32) -> usize {
    (lo..hi).filter(|n| shard_slot(n.to_string().as_bytes(), 8) == slot).count()
}

#[test]
fn keys_that_differ_in_their_last_digits_spread_evenly() {
    for n in [1, 9, 10, 42, 999, 123_456_789] {
        for slot in 0..8 {
            let ten = keys_in_slot(10 * n, 10 * n + 10, slot);
            assert!(1 <= ten && ten <= 2);
            let hundred = keys_in_slot(100 * n, 100 * n + 100, slot);
            assert!(12 <= hundred && hundred <= 13);
        }
    }
    // The hundred keys from 100 on, slot by slot, add up.
    let total: usize = (0..8).map(|slot| keys_in_slot(100, 200, slot)).sum();
    assert_eq!(total, 100);
}

#[test]
fn checksums_are_linear_in_the_key() {
    // Keys of one length: the checksum of their bitwise sum is the sum of theirs.
    let (a, b, c) = (b"42hello", b"99world", b"1234567");
    let sum: Vec<u8> = (0..7).map(|i| a[i] ^ b[i] ^ c[i]).collect();
    assert_eq!(checksum(&sum), checksum(a) ^ checksum(b) ^ checksum(c));
}
