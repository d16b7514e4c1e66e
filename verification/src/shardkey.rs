//! Shard-key support for MPP co-location optimization.
//!
//! A table created with `SHARD BY (col) SHARDS N` has N physical table IDs, and
//! its rows are routed to them by CRC32/IEEE hashing. The storage layer uses
//! this module to verify co-location when joins are pushed down: if shard slot S
//! of table A and shard slot S of table B are both local, the join can run
//! without cross-node data movement.
//!
//! # Encoding contract
//!
//! TiDB computes the shard slot in `locateShard()`:
//!
//! ```text
//! h := crc32.NewIEEE()
//! for each shard-key column:
//!     if value is NULL:
//!         h.Write([]byte{0x00})
//!     else:
//!         h.Write(value.ToHashKey())
//! slot = h.Sum32() % shardCnt
//! ```
//!
//! For the binary collator, `ToHashKey()` gives the UTF-8 bytes of the decimal
//! string representation for integers, and the raw string bytes for string
//! types.
//!
//! **Examples:**
//! - Integer `42` → `"42"` → bytes `[0x34, 0x32]`
//! - String `"hello"` → bytes `[0x68, 0x65, 0x6c, 0x6c, 0x6f]`
//! - NULL → bytes `[0x00]`
//! - Multi-column `(42, "ab")` → CRC32 fed `[0x34, 0x32]` then `[0x61, 0x62]`
//!
//! The caller is responsible for encoding column values to bytes by these rules
//! before it calls [`shard_slot`]. Bytes that differ from those that TiDB would
//! feed to CRC32 make a different shard slot, and co-located joins would then
//! silently produce wrong results.

use vstd::prelude::*;
use vstd::std_specs::cmp::PartialEqSpec;

verus! {

/// ShardKeyInfo describes the shard key for MPP co-location optimization.
/// Tables with matching shard keys can skip exchange during joins.
#[derive(Debug)]
pub struct ShardKeyInfo {
    /// Column names forming the shard key.
    pub columns: Vec<String>,
    /// Number of shards (must be >= 2 and <= 64 per TiDB DDL validation).
    pub shard_cnt: u32,
}

/// The view of a [`ShardKeyInfo`].
pub struct ShardKeyInfoView {
    pub columns: Seq<Seq<char>>,
    pub shard_cnt: u32,
}

impl View for ShardKeyInfo {
    type V = ShardKeyInfoView;

    open spec fn view(&self) -> ShardKeyInfoView {
        ShardKeyInfoView {
            columns: self.columns@.map_values(|name: String| name@),
            shard_cnt: self.shard_cnt,
        }
    }
}

impl ShardKeyInfoView {
    /// Whether the number of shards is one that a table can be created with.
    pub open spec fn valid_shard_cnt(self) -> bool {
        2 <= self.shard_cnt <= 64
    }
}

impl Clone for ShardKeyInfo {
    fn clone(&self) -> (copy: Self)
        ensures
            copy@ == self@,
            copy.eq_spec(self),
            copy.shard_cnt == self.shard_cnt,
            copy.columns@.len() == self.columns@.len(),
            forall|i: int|
                0 <= i < self.columns@.len() ==> (#[trigger] copy.columns@[i])@
                    == self.columns@[i]@,
    {
        let copy = ShardKeyInfo { columns: self.columns.clone(), shard_cnt: self.shard_cnt };
        assert(copy@.columns =~= self@.columns);
        copy
    }
}

impl PartialEq for ShardKeyInfo {
    fn eq(&self, other: &Self) -> (same: bool) {
        if self.shard_cnt != other.shard_cnt || self.columns.len() != other.columns.len() {
            assert(self@.columns.len() == self.columns.len());
            assert(other@.columns.len() == other.columns.len());
            return false;
        }
        let mut i: usize = 0;
        while i < self.columns.len()
            invariant
                i <= self.columns.len(),
                self.columns.len() == other.columns.len(),
                forall|j: int| 0 <= j < i ==> self@.columns[j] == other@.columns[j],
            decreases self.columns.len() - i,
        {
            if self.columns[i] != other.columns[i] {
                assert(self@.columns[i as int] != other@.columns[i as int]);
                return false;
            }
            i = i + 1;
        }
        assert(self@.columns =~= other@.columns);
        true
    }
}

impl vstd::std_specs::cmp::PartialEqSpecImpl for ShardKeyInfo {
    open spec fn obeys_eq_spec() -> bool {
        true
    }

    open spec fn eq_spec(&self, other: &Self) -> bool {
        self@ == other@
    }
}

/// The view of a shard key holds every field of it.
pub proof fn lemma_view_holds_fields(info: ShardKeyInfo)
    ensures
        info@.shard_cnt == info.shard_cnt,
        info@.columns.len() == info.columns@.len(),
        forall|i: int|
            0 <= i < info.columns@.len() ==> (#[trigger] info@.columns[i]) == info.columns@[i]@,
{
}

/// Two shard keys are equal exactly when they have equally many shards and the
/// same column names in the same order.
pub proof fn lemma_equal_iff_fields_equal(a: ShardKeyInfo, b: ShardKeyInfo)
    ensures
        ShardKeyInfo::obeys_eq_spec(),
        a.eq_spec(&b) <==> {
            &&& a.shard_cnt == b.shard_cnt
            &&& a.columns@.len() == b.columns@.len()
            &&& forall|i: int|
                0 <= i < a.columns@.len() ==> (#[trigger] a.columns@[i])@ == b.columns@[i]@
        },
{
    lemma_view_holds_fields(a);
    lemma_view_holds_fields(b);
    if a.eq_spec(&b) {
        assert forall|i: int| 0 <= i < a.columns@.len() implies (#[trigger] a.columns@[i])@
            == b.columns@[i]@ by {
            assert(a@.columns[i] == b@.columns[i]);
        }
    } else if a.shard_cnt == b.shard_cnt && a.columns@.len() == b.columns@.len() && (forall|i: int|
        0 <= i < a.columns@.len() ==> (#[trigger] a.columns@[i])@ == b.columns@[i]@) {
        assert(a@.columns =~= b@.columns);
    }
}

/// A table can be created with two to sixty-four shards.
pub proof fn lemma_valid_shard_cnt_range(info: ShardKeyInfo)
    ensures
        info.shard_cnt < 2 ==> !info@.valid_shard_cnt(),
        info.shard_cnt > 64 ==> !info@.valid_shard_cnt(),
        2 <= info.shard_cnt <= 64 ==> info@.valid_shard_cnt(),
{
}

/// The shard slot of a row whose shard key is encoded as `key`, in a table of
/// `shard_cnt` shards.
pub open spec fn slot_of(key: Seq<u8>, shard_cnt: u32) -> u32 {
    crate::crc32::crc32_ieee(key) % shard_cnt
}

/// The encoded shard key: the encoded columns, one after the other.
pub open spec fn concat_columns(columns: Seq<&[u8]>) -> Seq<u8> {
    columns.map_values(|column: &[u8]| column@).flatten()
}

/// The checksum of a hasher that has been fed the encoded columns one by one.
pub open spec fn fed_checksum(columns: Seq<&[u8]>) -> u32
    decreases columns.len(),
{
    if columns.len() == 0 {
        0
    } else {
        crate::crc32::crc32_update(fed_checksum(columns.drop_last()), columns.last()@)
    }
}

/// Compute which shard slot a row belongs to.
///
/// `key_bytes` is the concatenation of each shard-key column's encoded bytes,
/// in column order, following the encoding contract documented at module level.
/// `shard_cnt` is the total number of shards for the table.
///
/// Returns the shard slot index in `[0, shard_cnt)`.
pub fn shard_slot(key_bytes: &[u8], shard_cnt: u32) -> (slot: u32)
    requires
        shard_cnt > 0,
    ensures
        slot == slot_of(key_bytes@, shard_cnt),
        slot == (!crate::crc32::crc32_register(0xFFFF_FFFF, key_bytes@)) % shard_cnt,
        slot < shard_cnt,
{
    let mut h = crc32fast::Hasher::new();
    assert(!0u32 == 0xFFFF_FFFFu32) by (bit_vector);
    // The length of a slice fits in the hasher's count.
    assert(key_bytes.len() <= u64::MAX);
    h.update(key_bytes);
    h.finalize() % shard_cnt
}

/// Convenience: compute shard slot by feeding multiple column byte slices
/// sequentially into a single CRC32 hasher.
///
/// This is equivalent to [`shard_slot`] on the concatenated columns but avoids
/// the allocation. The hasher counts the bytes that it is fed in 64 bits, so
/// there can be no more of them than that.
pub fn shard_slot_multi(columns: &[&[u8]], shard_cnt: u32) -> (slot: u32)
    requires
        shard_cnt > 0,
        concat_columns(columns@).len() <= u64::MAX,
    ensures
        slot == fed_checksum(columns@) % shard_cnt,
        slot == slot_of(concat_columns(columns@), shard_cnt),
        slot == (!crate::crc32::crc32_register(
            0xFFFF_FFFF,
            columns@.map_values(|column: &[u8]| column@).flatten(),
        )) % shard_cnt,
        slot < shard_cnt,
{
    let mut h = crc32fast::Hasher::new();
    let mut i: usize = 0;
    assert(columns@.take(0) =~= Seq::empty());
    while i < columns.len()
        invariant
            i <= columns@.len(),
            concat_columns(columns@).len() <= u64::MAX,
            crate::crc32::hasher_state(h) == fed_checksum(columns@.take(i as int)),
            crate::crc32::hasher_amount(h) == concat_columns(columns@.take(i as int)).len(),
        decreases columns@.len() - i,
    {
        proof {
            let fed = columns@.take(i as int);
            let next = columns@.take(i + 1);
            assert(next =~= fed.push(columns@[i as int]));
            assert(next.drop_last() =~= fed);
            lemma_concat_push(fed, columns@[i as int]);
            assert(columns@ =~= next + columns@.skip(i + 1));
            lemma_concat_append(next, columns@.skip(i + 1));
        }
        h.update(columns[i]);
        i = i + 1;
    }
    assert(columns@.take(i as int) =~= columns@);
    assert(!0u32 == 0xFFFF_FFFFu32) by (bit_vector);
    proof {
        lemma_feeding_is_concatenating(columns@);
    }
    h.finalize() % shard_cnt
}

/// No columns make an empty key.
pub proof fn lemma_concat_none()
    ensures
        concat_columns(Seq::empty()) == Seq::<u8>::empty(),
{
}

/// The key of a single column is that column.
pub proof fn lemma_concat_single(column: &[u8])
    ensures
        concat_columns(seq![column]) == column@,
{
    lemma_concat_none();
    lemma_concat_push(Seq::empty(), column);
}

/// A further column adds its bytes at the end of the key.
pub proof fn lemma_concat_push(columns: Seq<&[u8]>, column: &[u8])
    ensures
        concat_columns(columns.push(column)) == concat_columns(columns) + column@,
{
    let f = |column: &[u8]| column@;
    assert(columns.push(column).map_values(f) =~= columns.map_values(f).push(column@));
    columns.map_values(f).lemma_flatten_push(column@);
}

/// Where a list of columns is cut in two makes no difference to the key.
pub proof fn lemma_concat_append(a: Seq<&[u8]>, b: Seq<&[u8]>)
    ensures
        concat_columns(a + b) == concat_columns(a) + concat_columns(b),
    decreases b.len(),
{
    if b.len() == 0 {
        lemma_concat_none();
        assert(b =~= Seq::empty());
        assert(a + b =~= a);
    } else {
        let last = b.last();
        lemma_concat_append(a, b.drop_last());
        lemma_concat_push(a + b.drop_last(), last);
        lemma_concat_push(b.drop_last(), last);
        assert(a + b =~= (a + b.drop_last()).push(last));
        assert(b =~= b.drop_last().push(last));
    }
}

/// A hasher that is fed the columns one by one ends at the checksum of their
/// concatenation.
pub proof fn lemma_feeding_is_concatenating(columns: Seq<&[u8]>)
    ensures
        fed_checksum(columns) == crate::crc32::crc32_ieee(concat_columns(columns)),
    decreases columns.len(),
{
    if columns.len() == 0 {
        assert(columns =~= Seq::empty());
        lemma_concat_none();
        crate::crc32::lemma_update_empty(0);
    } else {
        let init = columns.drop_last();
        lemma_feeding_is_concatenating(init);
        assert(columns =~= init.push(columns.last()));
        lemma_concat_push(init, columns.last());
        crate::crc32::lemma_update_concat(0, concat_columns(init), columns.last()@);
    }
}

/// A hasher that is fed no columns stands at zero, and every further column
/// carries the checksum on from where the columns before it left it.
pub proof fn lemma_feeding_column_by_column(columns: Seq<&[u8]>, column: &[u8])
    ensures
        fed_checksum(Seq::empty()) == 0,
        fed_checksum(columns.push(column)) == crate::crc32::crc32_update(
            fed_checksum(columns),
            column@,
        ),
{
    assert(columns.push(column).drop_last() =~= columns);
}

/// The first column counts: the columns after it go on from its checksum. A NULL
/// in front, which is encoded as a zero byte, is a step of the register by zero.
pub proof fn lemma_feeding_first_column(first: &[u8], rest: Seq<&[u8]>)
    ensures
        fed_checksum(seq![first] + rest) == crate::crc32::crc32_update(
            crate::crc32::crc32_update(0, first@),
            concat_columns(rest),
        ),
        first@ == seq![0u8] ==> fed_checksum(seq![first] + rest)
            == !crate::crc32::crc32_register(
            crate::crc32::crc32_byte(0xFFFF_FFFF, 0),
            concat_columns(rest),
        ),
{
    lemma_feeding_is_concatenating(seq![first] + rest);
    lemma_concat_append(seq![first], rest);
    lemma_concat_single(first);
    crate::crc32::lemma_update_concat(0, first@, concat_columns(rest));
    crate::crc32::lemma_ieee_first(0, concat_columns(rest));
}

/// The concatenated key has the bytes of all columns, none more and none less.
pub proof fn lemma_concat_length(columns: Seq<&[u8]>, column: &[u8])
    ensures
        concat_columns(columns.push(column)).len() == concat_columns(columns).len() + column@.len(),
        concat_columns(columns.push(column)).take(concat_columns(columns).len() as int)
            == concat_columns(columns),
        concat_columns(columns.push(column)).skip(concat_columns(columns).len() as int) == column@,
{
    lemma_concat_push(columns, column);
    let key = concat_columns(columns);
    assert((key + column@).take(key.len() as int) =~= key);
    assert((key + column@).skip(key.len() as int) =~= column@);
}

/// The slot is what the checksum of the whole key leaves over a multiple of the
/// number of shards.
pub proof fn lemma_slot_is_remainder(key: Seq<u8>, shard_cnt: u32)
    requires
        shard_cnt > 0,
    ensures
        slot_of(key, shard_cnt) < shard_cnt,
        exists|whole: int|
            crate::crc32::crc32_update(0, key) as int == #[trigger] (whole * shard_cnt) + slot_of(
                key,
                shard_cnt,
            ),
        slot_of(key, shard_cnt) == (!crate::crc32::crc32_register(0xFFFF_FFFF, key)) % shard_cnt,
{
    assert(!0u32 == 0xFFFF_FFFFu32) by (bit_vector);
    let crc = crate::crc32::crc32_update(0, key) as int;
    vstd::arithmetic::div_mod::lemma_fundamental_div_mod(crc, shard_cnt as int);
    let whole = crc / shard_cnt as int;
    assert(whole * shard_cnt == shard_cnt * whole) by (nonlinear_arith);
    assert(crc == whole * shard_cnt + slot_of(key, shard_cnt));
}

/// Every byte of a key counts, the first and the last included: the slot of no
/// bytes is zero, and that of a longer key follows from the checksum of the key
/// before the byte was added, at either end.
pub proof fn lemma_slot_counts_every_byte(key: Seq<u8>, byte: u8, shard_cnt: u32)
    requires
        shard_cnt > 0,
    ensures
        slot_of(Seq::empty(), shard_cnt) == 0,
        slot_of(key.push(byte), shard_cnt) == crate::crc32::crc32_update(
            crate::crc32::crc32_update(0, key),
            seq![byte],
        ) % shard_cnt,
        slot_of(seq![byte] + key, shard_cnt) == crate::crc32::crc32_update(
            crate::crc32::crc32_update(0, seq![byte]),
            key,
        ) % shard_cnt,
{
    crate::crc32::lemma_ieee_push(key, byte);
    crate::crc32::lemma_ieee_first(byte, key);
}

/// When the number of shards is divided by `factor`, the rows of a slot stay
/// together: they all move to the slot that is left over.
pub proof fn lemma_fewer_shards_merge_slots(key: Seq<u8>, shard_cnt: u32, factor: u32)
    requires
        shard_cnt > 0,
        factor > 0,
        shard_cnt * factor <= u32::MAX,
    ensures
        slot_of(key, (shard_cnt * factor) as u32) % shard_cnt == slot_of(key, shard_cnt),
{
    let crc = crate::crc32::crc32_ieee(key) as int;
    assert(shard_cnt * factor > 0) by (nonlinear_arith)
        requires
            shard_cnt > 0,
            factor > 0,
    ;
    vstd::arithmetic::div_mod::lemma_mod_mod(crc, shard_cnt as int, factor as int);
}

/// In a table of as many shards as there are checksums but one, keys that differ
/// in one byte can share a slot only if one of them has the largest checksum.
pub proof fn lemma_one_byte_changes_slot(before: Seq<u8>, x: u8, y: u8, after: Seq<u8>)
    requires
        x != y,
        crate::crc32::crc32_update(0, before + seq![x] + after) != u32::MAX,
        crate::crc32::crc32_update(0, before + seq![y] + after) != u32::MAX,
    ensures
        slot_of(before + seq![x] + after, u32::MAX) != slot_of(before + seq![y] + after, u32::MAX),
{
    crate::crc32::lemma_one_byte_changes_checksum(before, x, y, after);
}

/// Every slot is one of the table's; a table of a single shard has all of its
/// rows in slot 0.
pub proof fn lemma_slot_in_range(key: Seq<u8>, shard_cnt: u32)
    requires
        shard_cnt > 0,
    ensures
        0 <= slot_of(key, shard_cnt) < shard_cnt,
        shard_cnt == 1 ==> slot_of(key, shard_cnt) == 0,
{
}

/// A number of shards that a table can be created with is one that slots can be
/// computed for, and no slot is beyond the largest such number.
pub proof fn lemma_valid_shard_cnt(info: ShardKeyInfoView, key: Seq<u8>)
    requires
        info.valid_shard_cnt(),
    ensures
        info.shard_cnt > 0,
        slot_of(key, info.shard_cnt) < info.shard_cnt <= 64,
{
}

/// Rows of two tables with equally many shards are co-located if their key
/// columns are encoded to the same bytes, wherever one column ends and the next
/// begins.
pub proof fn lemma_equal_keys_share_a_slot(
    a: ShardKeyInfoView,
    b: ShardKeyInfoView,
    row_a: Seq<&[u8]>,
    row_b: Seq<&[u8]>,
)
    requires
        a.shard_cnt == b.shard_cnt,
        concat_columns(row_a) == concat_columns(row_b),
    ensures
        slot_of(concat_columns(row_a), a.shard_cnt) == slot_of(
            concat_columns(row_b),
            b.shard_cnt,
        ),
{
}

} // verus!
