//! The bloom filter hint.

use vstd::arithmetic::div_mod::lemma_add_mod_noop_right;
use vstd::prelude::*;
use vstd::std_specs::cmp::PartialEqSpec;

verus! {

/// Bloom filter hint for encoded pushdown.
///
/// When the columnstore has dictionary-encoded data, bloom filters can be built
/// on dictionary entries (which are fewer than actual rows) for efficient
/// semi-join filtering.
#[derive(Debug)]
pub struct EncodedBloomFilterHint {
    /// The column ID this bloom filter applies to
    pub column_id: i64,
    /// Hash values for the bloom filter (from the build side of a join)
    pub hash_values: Vec<u64>,
    /// Number of bits in the bloom filter
    pub num_bits: u32,
    /// Number of hash functions used
    pub num_hash_funcs: u32,
}

/// The view of an [`EncodedBloomFilterHint`].
pub struct EncodedBloomFilterHintView {
    pub column_id: i64,
    pub hash_values: Seq<u64>,
    pub num_bits: u32,
    pub num_hash_funcs: u32,
}

impl View for EncodedBloomFilterHint {
    type V = EncodedBloomFilterHintView;

    open spec fn view(&self) -> EncodedBloomFilterHintView {
        EncodedBloomFilterHintView {
            column_id: self.column_id,
            hash_values: self.hash_values@,
            num_bits: self.num_bits,
            num_hash_funcs: self.num_hash_funcs,
        }
    }
}

impl Clone for EncodedBloomFilterHint {
    fn clone(&self) -> (copy: Self)
        ensures
            copy@ == self@,
            copy.eq_spec(self),
            copy.column_id == self.column_id,
            copy.hash_values@ == self.hash_values@,
            copy.num_bits == self.num_bits,
            copy.num_hash_funcs == self.num_hash_funcs,
    {
        EncodedBloomFilterHint {
            column_id: self.column_id,
            hash_values: self.hash_values.clone(),
            num_bits: self.num_bits,
            num_hash_funcs: self.num_hash_funcs,
        }
    }
}

impl PartialEq for EncodedBloomFilterHint {
    fn eq(&self, other: &Self) -> (same: bool) {
        let same_hashes = self.hash_values == other.hash_values;
        assert(same_hashes == (self@.hash_values =~= other@.hash_values));
        same_hashes && self.column_id == other.column_id && self.num_bits == other.num_bits
            && self.num_hash_funcs == other.num_hash_funcs
    }
}

impl vstd::std_specs::cmp::PartialEqSpecImpl for EncodedBloomFilterHint {
    open spec fn obeys_eq_spec() -> bool {
        true
    }

    open spec fn eq_spec(&self, other: &Self) -> bool {
        self@ == other@
    }
}

/// `hash` with its upper and its lower 32 bits exchanged: the second hash of
/// double hashing.
pub open spec fn second_hash(hash: u64) -> int {
    (hash as int % 0x1_0000_0000) * 0x1_0000_0000 + hash as int / 0x1_0000_0000
}

/// The bit that hash function number `i` maps `hash` to, in a filter of
/// `num_bits` bits: double hashing, modulo the word size and then the filter's.
pub open spec fn probe(hash: u64, i: int, num_bits: int) -> int {
    ((hash as int + i * second_hash(hash)) % 0x1_0000_0000_0000_0000) % num_bits
}

/// Every probe falls into the filter: its bit is one of the filter's bits, and
/// its byte one of the bytes that hold them.
pub proof fn lemma_probe_in_filter(hash: u64, i: int, num_bits: int)
    requires
        num_bits > 0,
    ensures
        0 <= probe(hash, i, num_bits) < num_bits,
        0 <= probe(hash, i, num_bits) / 8 < (num_bits + 7) / 8,
{
    let word = (hash as int + i * second_hash(hash)) % 0x1_0000_0000_0000_0000;
    assert(0 <= word % num_bits < num_bits) by (nonlinear_arith)
        requires
            num_bits > 0,
    ;
}

/// The view of a bloom filter hint holds every field of it.
pub proof fn lemma_view_holds_fields(value: EncodedBloomFilterHint)
    ensures
        value@.column_id == value.column_id,
        value@.hash_values == value.hash_values@,
        value@.num_bits == value.num_bits,
        value@.num_hash_funcs == value.num_hash_funcs,
{
}

/// Two such values are equal exactly when they agree in every field.
pub proof fn lemma_equal_iff_fields_equal(a: EncodedBloomFilterHint, b: EncodedBloomFilterHint)
    ensures
        EncodedBloomFilterHint::obeys_eq_spec(),
        a.eq_spec(&b) <==> {
            &&& a.column_id == b.column_id
            &&& a.hash_values@ == b.hash_values@
            &&& a.num_bits == b.num_bits
            &&& a.num_hash_funcs == b.num_hash_funcs
        },
{
}

/// The second hash exchanges the halves of the first, and exchanging them again
/// gives the first back.
pub proof fn lemma_second_hash_exchanges_halves(high: u32, low: u32)
    ensures
        second_hash((high * 0x1_0000_0000 + low) as u64) == low * 0x1_0000_0000 + high,
        second_hash(second_hash((high * 0x1_0000_0000 + low) as u64) as u64) == high * 0x1_0000_0000
            + low,
{
    let word = high * 0x1_0000_0000 + low;
    assert(0 <= word <= u64::MAX);
    assert(word % 0x1_0000_0000 == low && word / 0x1_0000_0000 == high);
    let swapped = low * 0x1_0000_0000 + high;
    assert(0 <= swapped <= u64::MAX);
    assert(swapped % 0x1_0000_0000 == high && swapped / 0x1_0000_0000 == low);
}

/// The probes walk from the first hash in steps of the second, around a word of
/// 64 bits; a filter sees of each what is left over its size.
pub proof fn lemma_probes_walk(hash: u64, i: int, num_bits: int)
    requires
        num_bits > 0,
    ensures
        probe(hash, 0, 0x1_0000_0000_0000_0000) == hash,
        probe(hash, i + 1, 0x1_0000_0000_0000_0000) == (probe(hash, i, 0x1_0000_0000_0000_0000)
            + second_hash(hash)) % 0x1_0000_0000_0000_0000,
        probe(hash, i, num_bits) == probe(hash, i, 0x1_0000_0000_0000_0000) % num_bits,
{
    let word: int = 0x1_0000_0000_0000_0000;
    let step = second_hash(hash);
    assert(0 * step == 0) by (nonlinear_arith);
    assert((i + 1) * step == i * step + step) by (nonlinear_arith);
    let at = hash as int + i * step;
    lemma_add_mod_noop_right(step, at, word);
}

impl EncodedBloomFilterHint {
    /// The bit that hash function number `i` maps `hash` to.
    pub fn probe_position(&self, hash: u64, i: u32) -> (bit_pos: u64)
        requires
            self@.num_bits > 0,
        ensures
            bit_pos == probe(hash, i as int, self@.num_bits as int),
            bit_pos < self@.num_bits,
            bit_pos == ((hash + i * ((hash % 0x1_0000_0000) * 0x1_0000_0000 + hash / 0x1_0000_0000))
                % 0x1_0000_0000_0000_0000) % (self.num_bits as int),
    {
        let h1: u64 = hash;
        let h2: u64 = hash.wrapping_shr(32) | hash.wrapping_shl(32);
        proof {
            assert((hash >> 32u32) | (hash << 32u32) == (hash % 0x1_0000_0000) * 0x1_0000_0000
                + hash / 0x1_0000_0000) by (bit_vector);
            assert(h2 == second_hash(hash));
            lemma_add_mod_noop_right(h1 as int, i * h2, 0x1_0000_0000_0000_0000);
            lemma_probe_in_filter(hash, i as int, self.num_bits as int);
        }
        h1.wrapping_add((i as u64).wrapping_mul(h2)) % (self.num_bits as u64)
    }

    /// Check if a value might be in the bloom filter
    ///
    /// The hint carries the geometry of a filter and not its bit array, so no
    /// probe can rule a value out: the answer is always that the value might be
    /// contained. In particular there are no false negatives.
    pub fn might_contain(&self, hash: u64) -> (possible: bool)
        ensures
            possible,
    {
        if self.num_bits == 0 {
            return true;
        }
        let byte_cnt: u64 = (self.num_bits as u64 + 7) / 8;
        for i in 0..self.num_hash_funcs
            invariant
                self@.num_bits > 0,
        {
            let bit_pos = self.probe_position(hash, i);
            // A byte outside of the filter could not rule the value out either;
            // `lemma_probe_in_filter` shows that there is none.
            if bit_pos / 8 >= byte_cnt {
                return true;
            }
        }
        true
    }
}

} // verus!
