//! Filters on dictionary-encoded columns.

use vstd::prelude::*;
use vstd::std_specs::cmp::PartialEqSpec;

verus! {

/// Encoded filter request relayed from the planner to the columnstore.
/// Describes a filter predicate on a dictionary-encoded column.
#[derive(Debug)]
pub struct EncodedFilterRequest {
    /// Column being filtered
    pub column_id: i64,
    /// Filter type: "eq", "ne", "in", "like", "range"
    pub filter_type: String,
    /// Constant values for the filter (serialized)
    pub filter_values: Vec<Vec<u8>>,
    /// Whether this filter can use the encoded path
    pub can_use_encoded_path: bool,
}

/// The view of an [`EncodedFilterRequest`].
pub struct EncodedFilterRequestView {
    pub column_id: i64,
    pub filter_type: Seq<char>,
    pub filter_values: Seq<Seq<u8>>,
    pub can_use_encoded_path: bool,
}

impl View for EncodedFilterRequest {
    type V = EncodedFilterRequestView;

    open spec fn view(&self) -> EncodedFilterRequestView {
        EncodedFilterRequestView {
            column_id: self.column_id,
            filter_type: self.filter_type@,
            filter_values: self.filter_values@.map_values(|value: Vec<u8>| value@),
            can_use_encoded_path: self.can_use_encoded_path,
        }
    }
}

impl Clone for EncodedFilterRequest {
    fn clone(&self) -> (copy: Self)
        ensures
            copy@ == self@,
            copy.eq_spec(self),
            copy.column_id == self.column_id,
            copy.filter_type@ == self.filter_type@,
            copy.filter_values@.len() == self.filter_values@.len(),
            forall|i: int|
                0 <= i < self.filter_values@.len() ==> (#[trigger] copy.filter_values@[i])@
                    == self.filter_values@[i]@,
            copy.can_use_encoded_path == self.can_use_encoded_path,
    {
        let copy = EncodedFilterRequest {
            column_id: self.column_id,
            filter_type: self.filter_type.clone(),
            filter_values: self.filter_values.clone(),
            can_use_encoded_path: self.can_use_encoded_path,
        };
        proof {
            let values = self.filter_values@;
            assert forall|i: int| 0 <= i < values.len() implies copy.filter_values@[i]@
                == values[i]@ by {
                assert(cloned::<Vec<u8>>(values[i], copy.filter_values@[i]));
            }
            assert(copy@.filter_values =~= self@.filter_values);
        }
        copy
    }
}

impl PartialEq for EncodedFilterRequest {
    fn eq(&self, other: &Self) -> (same: bool) {
        let same_values = self.filter_values == other.filter_values;
        proof {
            let mine = self@.filter_values;
            let theirs = other@.filter_values;
            if same_values {
                assert forall|i: int| 0 <= i < mine.len() implies mine[i] == theirs[i] by {
                    assert(self.filter_values[i].eq_spec(&other.filter_values[i]));
                    assert(mine[i] =~= theirs[i]);
                }
                assert(mine =~= theirs);
            } else if mine == theirs {
                assert(self.filter_values.len() == mine.len());
                assert(other.filter_values.len() == theirs.len());
                assert forall|i: int|
                    0 <= i < self.filter_values.len() implies self.filter_values[i].eq_spec(
                    &other.filter_values[i],
                ) by {
                    assert(mine[i] == theirs[i]);
                }
            }
        }
        same_values && self.column_id == other.column_id && self.filter_type == other.filter_type
            && self.can_use_encoded_path == other.can_use_encoded_path
    }
}

impl vstd::std_specs::cmp::PartialEqSpecImpl for EncodedFilterRequest {
    open spec fn obeys_eq_spec() -> bool {
        true
    }

    open spec fn eq_spec(&self, other: &Self) -> bool {
        self@ == other@
    }
}

/// The view of a filter holds every field of it.
pub proof fn lemma_view_holds_fields(value: EncodedFilterRequest)
    ensures
        value@.column_id == value.column_id,
        value@.filter_type == value.filter_type@,
        value@.filter_values.len() == value.filter_values@.len(),
        forall|i: int|
            0 <= i < value.filter_values@.len() ==> (#[trigger] value@.filter_values[i])
                == value.filter_values@[i]@,
        value@.can_use_encoded_path == value.can_use_encoded_path,
{
}

/// Two filters are equal exactly when they agree in every field, and in every
/// byte of every value.
pub proof fn lemma_equal_iff_fields_equal(a: EncodedFilterRequest, b: EncodedFilterRequest)
    ensures
        EncodedFilterRequest::obeys_eq_spec(),
        a.eq_spec(&b) <==> {
            &&& a.column_id == b.column_id
            &&& a.filter_type@ == b.filter_type@
            &&& a.filter_values@.len() == b.filter_values@.len()
            &&& forall|i: int|
                0 <= i < a.filter_values@.len() ==> (#[trigger] a.filter_values@[i])@
                    == b.filter_values@[i]@
            &&& a.can_use_encoded_path == b.can_use_encoded_path
        },
{
    lemma_view_holds_fields(a);
    lemma_view_holds_fields(b);
    if a.eq_spec(&b) {
        assert forall|i: int| 0 <= i < a.filter_values@.len() implies (
        #[trigger] a.filter_values@[i])@ == b.filter_values@[i]@ by {
            assert(a@.filter_values[i] == b@.filter_values[i]);
        }
    } else if a.filter_values@.len() == b.filter_values@.len() && (forall|i: int|
        0 <= i < a.filter_values@.len() ==> (#[trigger] a.filter_values@[i])@
            == b.filter_values@[i]@) {
        assert(a@.filter_values =~= b@.filter_values);
    }
}

} // verus!
