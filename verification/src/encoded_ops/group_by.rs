//! Group-by on dictionary IDs.

use vstd::prelude::*;
use vstd::std_specs::cmp::PartialEqSpec;

verus! {

/// Aggregate function types supported in encoded group-by.
#[derive(Debug)]
pub enum AggFuncType {
    Sum,
    Count,
    Min,
    Max,
    Any,
}

impl Clone for AggFuncType {
    fn clone(&self) -> (copy: Self)
        ensures
            copy == *self,
            copy.eq_spec(self),
    {
        match self {
            AggFuncType::Sum => AggFuncType::Sum,
            AggFuncType::Count => AggFuncType::Count,
            AggFuncType::Min => AggFuncType::Min,
            AggFuncType::Max => AggFuncType::Max,
            AggFuncType::Any => AggFuncType::Any,
        }
    }
}

impl PartialEq for AggFuncType {
    fn eq(&self, other: &Self) -> (same: bool) {
        match (self, other) {
            (AggFuncType::Sum, AggFuncType::Sum) => true,
            (AggFuncType::Count, AggFuncType::Count) => true,
            (AggFuncType::Min, AggFuncType::Min) => true,
            (AggFuncType::Max, AggFuncType::Max) => true,
            (AggFuncType::Any, AggFuncType::Any) => true,
            _ => false,
        }
    }
}

impl vstd::std_specs::cmp::PartialEqSpecImpl for AggFuncType {
    open spec fn obeys_eq_spec() -> bool {
        true
    }

    open spec fn eq_spec(&self, other: &Self) -> bool {
        *self == *other
    }
}

/// Encoded group-by request relayed from the planner to the columnstore.
/// Describes a group-by that can operate directly on dictionary IDs.
#[derive(Debug)]
pub struct EncodedGroupByRequest {
    /// Column IDs being grouped on
    pub group_by_column_ids: Vec<i64>,
    /// Aggregate functions requested
    pub agg_funcs: Vec<AggFuncType>,
    /// Column IDs being aggregated
    pub agg_column_ids: Vec<i64>,
    /// Estimated number of groups (from the planner's statistics)
    pub estimated_groups: u64,
    /// Whether array-indexed aggregation is feasible
    pub can_use_encoded_path: bool,
}

/// The view of an [`EncodedGroupByRequest`].
pub struct EncodedGroupByRequestView {
    pub group_by_column_ids: Seq<i64>,
    pub agg_funcs: Seq<AggFuncType>,
    pub agg_column_ids: Seq<i64>,
    pub estimated_groups: u64,
    pub can_use_encoded_path: bool,
}

impl View for EncodedGroupByRequest {
    type V = EncodedGroupByRequestView;

    open spec fn view(&self) -> EncodedGroupByRequestView {
        EncodedGroupByRequestView {
            group_by_column_ids: self.group_by_column_ids@,
            agg_funcs: self.agg_funcs@,
            agg_column_ids: self.agg_column_ids@,
            estimated_groups: self.estimated_groups,
            can_use_encoded_path: self.can_use_encoded_path,
        }
    }
}

impl Clone for EncodedGroupByRequest {
    fn clone(&self) -> (copy: Self)
        ensures
            copy@ == self@,
            copy.eq_spec(self),
            copy.group_by_column_ids@ == self.group_by_column_ids@,
            copy.agg_funcs@ == self.agg_funcs@,
            copy.agg_column_ids@ == self.agg_column_ids@,
            copy.estimated_groups == self.estimated_groups,
            copy.can_use_encoded_path == self.can_use_encoded_path,
    {
        let copy = EncodedGroupByRequest {
            group_by_column_ids: self.group_by_column_ids.clone(),
            agg_funcs: self.agg_funcs.clone(),
            agg_column_ids: self.agg_column_ids.clone(),
            estimated_groups: self.estimated_groups,
            can_use_encoded_path: self.can_use_encoded_path,
        };
        assert(copy@.agg_funcs =~= self@.agg_funcs);
        copy
    }
}

impl PartialEq for EncodedGroupByRequest {
    fn eq(&self, other: &Self) -> (same: bool) {
        let same_groups = self.group_by_column_ids == other.group_by_column_ids;
        let same_funcs = self.agg_funcs == other.agg_funcs;
        let same_columns = self.agg_column_ids == other.agg_column_ids;
        assert(same_groups == (self@.group_by_column_ids =~= other@.group_by_column_ids));
        assert(same_funcs == (self@.agg_funcs =~= other@.agg_funcs));
        assert(same_columns == (self@.agg_column_ids =~= other@.agg_column_ids));
        same_groups && same_funcs && same_columns && self.estimated_groups == other.estimated_groups
            && self.can_use_encoded_path == other.can_use_encoded_path
    }
}

impl vstd::std_specs::cmp::PartialEqSpecImpl for EncodedGroupByRequest {
    open spec fn obeys_eq_spec() -> bool {
        true
    }

    open spec fn eq_spec(&self, other: &Self) -> bool {
        self@ == other@
    }
}

/// The view of a group-by holds every field of it.
pub proof fn lemma_view_holds_fields(value: EncodedGroupByRequest)
    ensures
        value@.group_by_column_ids == value.group_by_column_ids@,
        value@.agg_funcs == value.agg_funcs@,
        value@.agg_column_ids == value.agg_column_ids@,
        value@.estimated_groups == value.estimated_groups,
        value@.can_use_encoded_path == value.can_use_encoded_path,
{
}

/// Two such values are equal exactly when they agree in every field.
pub proof fn lemma_equal_iff_fields_equal(a: EncodedGroupByRequest, b: EncodedGroupByRequest)
    ensures
        EncodedGroupByRequest::obeys_eq_spec(),
        a.eq_spec(&b) <==> {
            &&& a.group_by_column_ids@ == b.group_by_column_ids@
            &&& a.agg_funcs@ == b.agg_funcs@
            &&& a.agg_column_ids@ == b.agg_column_ids@
            &&& a.estimated_groups == b.estimated_groups
            &&& a.can_use_encoded_path == b.can_use_encoded_path
        },
{
}

/// Two aggregate functions are equal exactly when they are the same one.
pub proof fn lemma_equal_functions_are_the_same(a: AggFuncType, b: AggFuncType)
    ensures
        AggFuncType::obeys_eq_spec(),
        a.eq_spec(&b) <==> a == b,
{
}

} // verus!
