//! The base encoding hint.

use vstd::prelude::*;
use vstd::std_specs::cmp::PartialEqSpec;

verus! {

/// The cardinality threshold of a hint that does not choose its own.
pub const DEFAULT_MAX_CARDINALITY: u32 = 4096;

/// Encoding hint that can be attached to a coprocessor request. It tells the
/// columnstore about dictionary encoding opportunities.
#[derive(Debug)]
pub struct EncodingHint {
    /// Column IDs eligible for dictionary encoding
    pub dict_eligible_columns: Vec<i64>,
    /// Maximum cardinality threshold for dictionary encoding
    pub max_cardinality: u32,
    /// Whether encoded filter operations are requested
    pub enable_encoded_filter: bool,
    /// Whether encoded group-by operations are requested
    pub enable_encoded_group_by: bool,
    /// Whether encoded bloom filter pushdown is requested
    pub enable_encoded_bloom_filter: bool,
}

/// The view of an [`EncodingHint`].
pub struct EncodingHintView {
    pub dict_eligible_columns: Seq<i64>,
    pub max_cardinality: u32,
    pub enable_encoded_filter: bool,
    pub enable_encoded_group_by: bool,
    pub enable_encoded_bloom_filter: bool,
}

impl View for EncodingHint {
    type V = EncodingHintView;

    open spec fn view(&self) -> EncodingHintView {
        EncodingHintView {
            dict_eligible_columns: self.dict_eligible_columns@,
            max_cardinality: self.max_cardinality,
            enable_encoded_filter: self.enable_encoded_filter,
            enable_encoded_group_by: self.enable_encoded_group_by,
            enable_encoded_bloom_filter: self.enable_encoded_bloom_filter,
        }
    }
}

impl EncodingHintView {
    /// The hint that names no column and requests no operation.
    pub open spec fn default_hint() -> EncodingHintView {
        EncodingHintView {
            dict_eligible_columns: Seq::empty(),
            max_cardinality: DEFAULT_MAX_CARDINALITY,
            enable_encoded_filter: false,
            enable_encoded_group_by: false,
            enable_encoded_bloom_filter: false,
        }
    }

    /// Whether at least one kind of encoded operation is requested.
    pub open spec fn has_any_encoded_ops(self) -> bool {
        ||| self.enable_encoded_filter
        ||| self.enable_encoded_group_by
        ||| self.enable_encoded_bloom_filter
    }
}

impl Default for EncodingHint {
    fn default() -> (hint: Self)
        ensures
            hint@ == EncodingHintView::default_hint(),
            hint.dict_eligible_columns@.len() == 0,
            hint.max_cardinality == 4096,
            !hint.enable_encoded_filter,
            !hint.enable_encoded_group_by,
            !hint.enable_encoded_bloom_filter,
    {
        EncodingHint {
            dict_eligible_columns: Vec::new(),
            max_cardinality: DEFAULT_MAX_CARDINALITY,
            enable_encoded_filter: false,
            enable_encoded_group_by: false,
            enable_encoded_bloom_filter: false,
        }
    }
}

impl Clone for EncodingHint {
    fn clone(&self) -> (copy: Self)
        ensures
            copy@ == self@,
            copy.eq_spec(self),
            copy.dict_eligible_columns@ == self.dict_eligible_columns@,
            copy.max_cardinality == self.max_cardinality,
            copy.enable_encoded_filter == self.enable_encoded_filter,
            copy.enable_encoded_group_by == self.enable_encoded_group_by,
            copy.enable_encoded_bloom_filter == self.enable_encoded_bloom_filter,
    {
        EncodingHint {
            dict_eligible_columns: self.dict_eligible_columns.clone(),
            max_cardinality: self.max_cardinality,
            enable_encoded_filter: self.enable_encoded_filter,
            enable_encoded_group_by: self.enable_encoded_group_by,
            enable_encoded_bloom_filter: self.enable_encoded_bloom_filter,
        }
    }
}

impl PartialEq for EncodingHint {
    fn eq(&self, other: &Self) -> (same: bool) {
        let same_columns = self.dict_eligible_columns == other.dict_eligible_columns;
        assert(same_columns == (self@.dict_eligible_columns =~= other@.dict_eligible_columns));
        same_columns && self.max_cardinality == other.max_cardinality
            && self.enable_encoded_filter == other.enable_encoded_filter
            && self.enable_encoded_group_by == other.enable_encoded_group_by
            && self.enable_encoded_bloom_filter == other.enable_encoded_bloom_filter
    }
}

impl vstd::std_specs::cmp::PartialEqSpecImpl for EncodingHint {
    open spec fn obeys_eq_spec() -> bool {
        true
    }

    open spec fn eq_spec(&self, other: &Self) -> bool {
        self@ == other@
    }
}

impl EncodingHint {
    /// Create a new encoding hint with default settings
    pub fn new() -> (hint: Self)
        ensures
            hint@ == EncodingHintView::default_hint(),
            hint.dict_eligible_columns@.len() == 0,
            hint.max_cardinality == 4096,
            !hint.enable_encoded_filter,
            !hint.enable_encoded_group_by,
            !hint.enable_encoded_bloom_filter,
    {
        Self::default()
    }

    /// Check if any encoded operations are enabled
    pub fn has_any_encoded_ops(&self) -> (any: bool)
        ensures
            any == self@.has_any_encoded_ops(),
            self.enable_encoded_filter ==> any,
            self.enable_encoded_group_by ==> any,
            self.enable_encoded_bloom_filter ==> any,
            any ==> self.enable_encoded_filter || self.enable_encoded_group_by
                || self.enable_encoded_bloom_filter,
    {
        self.enable_encoded_filter || self.enable_encoded_group_by
            || self.enable_encoded_bloom_filter
    }

    /// Check if a specific column is eligible for dictionary encoding
    pub fn is_column_eligible(&self, col_id: i64) -> (eligible: bool)
        ensures
            eligible == self@.dict_eligible_columns.contains(col_id),
            eligible <==> exists|i: int|
                0 <= i < self.dict_eligible_columns@.len() && self.dict_eligible_columns@[i]
                    == col_id,
    {
        let mut i: usize = 0;
        while i < self.dict_eligible_columns.len()
            invariant
                i <= self.dict_eligible_columns@.len(),
                forall|j: int| 0 <= j < i ==> self.dict_eligible_columns@[j] != col_id,
            decreases self.dict_eligible_columns@.len() - i,
        {
            if self.dict_eligible_columns[i] == col_id {
                return true;
            }
            i = i + 1;
        }
        false
    }
}

/// The view of a hint holds every field of it.
pub proof fn lemma_view_holds_fields(value: EncodingHint)
    ensures
        value@.dict_eligible_columns == value.dict_eligible_columns@,
        value@.max_cardinality == value.max_cardinality,
        value@.enable_encoded_filter == value.enable_encoded_filter,
        value@.enable_encoded_group_by == value.enable_encoded_group_by,
        value@.enable_encoded_bloom_filter == value.enable_encoded_bloom_filter,
{
}

/// Two such values are equal exactly when they agree in every field.
pub proof fn lemma_equal_iff_fields_equal(a: EncodingHint, b: EncodingHint)
    ensures
        EncodingHint::obeys_eq_spec(),
        a.eq_spec(&b) <==> {
            &&& a.dict_eligible_columns@ == b.dict_eligible_columns@
            &&& a.max_cardinality == b.max_cardinality
            &&& a.enable_encoded_filter == b.enable_encoded_filter
            &&& a.enable_encoded_group_by == b.enable_encoded_group_by
            &&& a.enable_encoded_bloom_filter == b.enable_encoded_bloom_filter
        },
{
}

/// Any enabled flag suffices, whatever the other two are, and without one there
/// is no encoded operation.
pub proof fn lemma_any_flag_suffices(hint: EncodingHint)
    ensures
        hint.enable_encoded_filter ==> hint@.has_any_encoded_ops(),
        hint.enable_encoded_group_by ==> hint@.has_any_encoded_ops(),
        hint.enable_encoded_bloom_filter ==> hint@.has_any_encoded_ops(),
        !hint.enable_encoded_filter && !hint.enable_encoded_group_by
            && !hint.enable_encoded_bloom_filter ==> !hint@.has_any_encoded_ops(),
{
}

/// Enabling a further operation never takes the others back, and which columns
/// are eligible, or up to which cardinality, makes no difference.
pub proof fn lemma_enabling_is_monotone(hint: EncodingHintView, other: EncodingHintView)
    requires
        hint.enable_encoded_filter ==> other.enable_encoded_filter,
        hint.enable_encoded_group_by ==> other.enable_encoded_group_by,
        hint.enable_encoded_bloom_filter ==> other.enable_encoded_bloom_filter,
    ensures
        hint.has_any_encoded_ops() ==> other.has_any_encoded_ops(),
{
}

/// A column that is added to a hint becomes eligible, and no other does.
pub proof fn lemma_added_column_is_eligible(
    hint: EncodingHint,
    with: EncodingHint,
    added: i64,
    col_id: i64,
)
    requires
        with.dict_eligible_columns@ == hint.dict_eligible_columns@.push(added),
    ensures
        with@.dict_eligible_columns.contains(added),
        with@.dict_eligible_columns.contains(col_id) <==> col_id == added
            || hint@.dict_eligible_columns.contains(col_id),
{
    let columns = hint.dict_eligible_columns@;
    assert(columns.push(added)[columns.len() as int] == added);
    if columns.contains(col_id) {
        let i = choose|i: int| 0 <= i < columns.len() && columns[i] == col_id;
        assert(columns.push(added)[i] == col_id);
    }
    if columns.push(added).contains(col_id) && col_id != added {
        let i = choose|i: int|
            0 <= i < columns.push(added).len() && columns.push(added)[i] == col_id;
        assert(columns[i] == col_id);
    }
}

/// A default hint has the default threshold and no column.
pub proof fn lemma_default_hint_fields()
    ensures
        EncodingHintView::default_hint().dict_eligible_columns.len() == 0,
        EncodingHintView::default_hint().max_cardinality == 4096,
        !EncodingHintView::default_hint().enable_encoded_filter,
        !EncodingHintView::default_hint().enable_encoded_group_by,
        !EncodingHintView::default_hint().enable_encoded_bloom_filter,
{
}

/// A default hint names no column as eligible and enables no operation.
pub proof fn lemma_default_hint_is_inert(col_id: i64)
    ensures
        !EncodingHintView::default_hint().has_any_encoded_ops(),
        !EncodingHintView::default_hint().dict_eligible_columns.contains(col_id),
{
}

} // verus!
