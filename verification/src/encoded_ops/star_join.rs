//! Star joins on dictionary-encoded data.

use vstd::prelude::*;
use vstd::std_specs::cmp::PartialEqSpec;

verus! {

/// One dimension in a star join request.
#[derive(Debug)]
pub struct DimensionJoinRequest {
    /// Dimension table ID
    pub dimension_table_id: i64,
    /// Foreign key column in fact table
    pub fact_join_column_id: i64,
    /// Primary key column in dimension table
    pub dim_join_column_id: i64,
    /// Column from dimension used in GROUP BY
    pub dim_group_column_id: i64,
    /// Estimated dimension table size
    pub estimated_dim_size: u64,
}

impl Clone for DimensionJoinRequest {
    fn clone(&self) -> (copy: Self)
        ensures
            copy == *self,
            copy.eq_spec(self),
            copy.dimension_table_id == self.dimension_table_id,
            copy.fact_join_column_id == self.fact_join_column_id,
            copy.dim_join_column_id == self.dim_join_column_id,
            copy.dim_group_column_id == self.dim_group_column_id,
            copy.estimated_dim_size == self.estimated_dim_size,
    {
        DimensionJoinRequest {
            dimension_table_id: self.dimension_table_id,
            fact_join_column_id: self.fact_join_column_id,
            dim_join_column_id: self.dim_join_column_id,
            dim_group_column_id: self.dim_group_column_id,
            estimated_dim_size: self.estimated_dim_size,
        }
    }
}

impl PartialEq for DimensionJoinRequest {
    fn eq(&self, other: &Self) -> (same: bool) {
        self.dimension_table_id == other.dimension_table_id
            && self.fact_join_column_id == other.fact_join_column_id
            && self.dim_join_column_id == other.dim_join_column_id
            && self.dim_group_column_id == other.dim_group_column_id
            && self.estimated_dim_size == other.estimated_dim_size
    }
}

impl vstd::std_specs::cmp::PartialEqSpecImpl for DimensionJoinRequest {
    open spec fn obeys_eq_spec() -> bool {
        true
    }

    open spec fn eq_spec(&self, other: &Self) -> bool {
        *self == *other
    }
}

/// Encoded star join request relayed from the planner to the columnstore.
/// Describes a fused join+group-by+aggregate pipeline on encoded data.
#[derive(Debug)]
pub struct EncodedStarJoinRequest {
    /// Fact table ID
    pub fact_table_id: i64,
    /// Dimension joins in the star schema
    pub dimension_joins: Vec<DimensionJoinRequest>,
    /// Whether GROUP BY is present above the join
    pub has_group_by_above: bool,
    /// Whether fused scan, join and aggregation is feasible
    pub can_use_fused_path: bool,
}

/// The view of an [`EncodedStarJoinRequest`].
pub struct EncodedStarJoinRequestView {
    pub fact_table_id: i64,
    pub dimension_joins: Seq<DimensionJoinRequest>,
    pub has_group_by_above: bool,
    pub can_use_fused_path: bool,
}

impl View for EncodedStarJoinRequest {
    type V = EncodedStarJoinRequestView;

    open spec fn view(&self) -> EncodedStarJoinRequestView {
        EncodedStarJoinRequestView {
            fact_table_id: self.fact_table_id,
            dimension_joins: self.dimension_joins@,
            has_group_by_above: self.has_group_by_above,
            can_use_fused_path: self.can_use_fused_path,
        }
    }
}

impl Clone for EncodedStarJoinRequest {
    fn clone(&self) -> (copy: Self)
        ensures
            copy@ == self@,
            copy.eq_spec(self),
            copy.fact_table_id == self.fact_table_id,
            copy.dimension_joins@ == self.dimension_joins@,
            copy.has_group_by_above == self.has_group_by_above,
            copy.can_use_fused_path == self.can_use_fused_path,
    {
        let copy = EncodedStarJoinRequest {
            fact_table_id: self.fact_table_id,
            dimension_joins: self.dimension_joins.clone(),
            has_group_by_above: self.has_group_by_above,
            can_use_fused_path: self.can_use_fused_path,
        };
        assert(copy@.dimension_joins =~= self@.dimension_joins);
        copy
    }
}

impl PartialEq for EncodedStarJoinRequest {
    fn eq(&self, other: &Self) -> (same: bool) {
        let same_joins = self.dimension_joins == other.dimension_joins;
        assert(same_joins == (self@.dimension_joins =~= other@.dimension_joins));
        same_joins && self.fact_table_id == other.fact_table_id
            && self.has_group_by_above == other.has_group_by_above
            && self.can_use_fused_path == other.can_use_fused_path
    }
}

impl vstd::std_specs::cmp::PartialEqSpecImpl for EncodedStarJoinRequest {
    open spec fn obeys_eq_spec() -> bool {
        true
    }

    open spec fn eq_spec(&self, other: &Self) -> bool {
        self@ == other@
    }
}

/// The view of a star join holds every field of it.
pub proof fn lemma_view_holds_fields(value: EncodedStarJoinRequest)
    ensures
        value@.fact_table_id == value.fact_table_id,
        value@.dimension_joins == value.dimension_joins@,
        value@.has_group_by_above == value.has_group_by_above,
        value@.can_use_fused_path == value.can_use_fused_path,
{
}

/// Two such values are equal exactly when they agree in every field.
pub proof fn lemma_equal_iff_fields_equal(a: EncodedStarJoinRequest, b: EncodedStarJoinRequest)
    ensures
        EncodedStarJoinRequest::obeys_eq_spec(),
        a.eq_spec(&b) <==> {
            &&& a.fact_table_id == b.fact_table_id
            &&& a.dimension_joins@ == b.dimension_joins@
            &&& a.has_group_by_above == b.has_group_by_above
            &&& a.can_use_fused_path == b.can_use_fused_path
        },
{
}

/// Two such values are equal exactly when they agree in every field.
pub proof fn lemma_equal_dimensions_iff_fields_equal(a: DimensionJoinRequest, b: DimensionJoinRequest)
    ensures
        DimensionJoinRequest::obeys_eq_spec(),
        a.eq_spec(&b) <==> {
            &&& a.dimension_table_id == b.dimension_table_id
            &&& a.fact_join_column_id == b.fact_join_column_id
            &&& a.dim_join_column_id == b.dim_join_column_id
            &&& a.dim_group_column_id == b.dim_group_column_id
            &&& a.estimated_dim_size == b.estimated_dim_size
        },
{
}

} // verus!
