//! The full request, which combines all phases.

use vstd::prelude::*;
use vstd::std_specs::cmp::PartialEqSpec;

use super::encoding_hint::{EncodingHint, EncodingHintView};
use super::filter::{EncodedFilterRequest, EncodedFilterRequestView};
use super::group_by::{EncodedGroupByRequest, EncodedGroupByRequestView};
use super::star_join::{EncodedStarJoinRequest, EncodedStarJoinRequestView};

verus! {

/// Full encoded operations request combining all phases. This is attached to
/// the coprocessor request for the columnstore.
#[derive(Debug)]
pub struct EncodedOpsRequest {
    /// Base encoding hint (Phase 1)
    pub encoding_hint: Option<EncodingHint>,
    /// Filter requests (Phase 2)
    pub filter_requests: Vec<EncodedFilterRequest>,
    /// Group-by request (Phase 3)
    pub group_by_request: Option<EncodedGroupByRequest>,
    /// Star join request (Phase 4)
    pub star_join_request: Option<EncodedStarJoinRequest>,
}

/// The view of an [`EncodedOpsRequest`].
pub struct EncodedOpsRequestView {
    pub encoding_hint: Option<EncodingHintView>,
    pub filter_requests: Seq<EncodedFilterRequestView>,
    pub group_by_request: Option<EncodedGroupByRequestView>,
    pub star_join_request: Option<EncodedStarJoinRequestView>,
}

impl View for EncodedOpsRequest {
    type V = EncodedOpsRequestView;

    open spec fn view(&self) -> EncodedOpsRequestView {
        EncodedOpsRequestView {
            encoding_hint: match self.encoding_hint {
                Some(hint) => Some(hint@),
                None => None,
            },
            filter_requests: self.filter_requests@.map_values(
                |filter: EncodedFilterRequest| filter@,
            ),
            group_by_request: match self.group_by_request {
                Some(group_by) => Some(group_by@),
                None => None,
            },
            star_join_request: match self.star_join_request {
                Some(star_join) => Some(star_join@),
                None => None,
            },
        }
    }
}

/// One if the phase is active, zero if it is not.
pub open spec fn phase_count(active: bool) -> int {
    if active {
        1
    } else {
        0
    }
}

impl EncodedOpsRequestView {
    /// The request that asks for nothing.
    pub open spec fn empty() -> EncodedOpsRequestView {
        EncodedOpsRequestView {
            encoding_hint: None,
            filter_requests: Seq::empty(),
            group_by_request: None,
            star_join_request: None,
        }
    }

    /// Whether any phase is active.
    pub open spec fn has_any_ops(self) -> bool {
        ||| self.encoding_hint is Some
        ||| self.filter_requests.len() > 0
        ||| self.group_by_request is Some
        ||| self.star_join_request is Some
    }

    /// The number of active phases.
    pub open spec fn active_phases(self) -> int {
        phase_count(self.encoding_hint is Some) + phase_count(self.filter_requests.len() > 0)
            + phase_count(self.group_by_request is Some) + phase_count(
            self.star_join_request is Some,
        )
    }
}

impl Default for EncodedOpsRequest {
    fn default() -> (request: Self)
        ensures
            request@ == EncodedOpsRequestView::empty(),
            request.encoding_hint is None,
            request.filter_requests@.len() == 0,
            request.group_by_request is None,
            request.star_join_request is None,
    {
        let request = EncodedOpsRequest {
            encoding_hint: None,
            filter_requests: Vec::new(),
            group_by_request: None,
            star_join_request: None,
        };
        assert(request@.filter_requests =~= Seq::empty());
        request
    }
}

impl Clone for EncodedOpsRequest {
    fn clone(&self) -> (copy: Self)
        ensures
            copy@ == self@,
            copy.eq_spec(self),
            copy.encoding_hint is Some == self.encoding_hint is Some,
            self.encoding_hint is Some ==> copy.encoding_hint->0@ == self.encoding_hint->0@,
            copy.filter_requests@.len() == self.filter_requests@.len(),
            forall|i: int|
                0 <= i < self.filter_requests@.len() ==> (#[trigger] copy.filter_requests@[i])@
                    == self.filter_requests@[i]@,
            copy.group_by_request is Some == self.group_by_request is Some,
            self.group_by_request is Some ==> copy.group_by_request->0@
                == self.group_by_request->0@,
            copy.star_join_request is Some == self.star_join_request is Some,
            self.star_join_request is Some ==> copy.star_join_request->0@
                == self.star_join_request->0@,
    {
        let copy = EncodedOpsRequest {
            encoding_hint: self.encoding_hint.clone(),
            filter_requests: self.filter_requests.clone(),
            group_by_request: self.group_by_request.clone(),
            star_join_request: self.star_join_request.clone(),
        };
        assert(copy@.filter_requests =~= self@.filter_requests);
        copy
    }
}

impl PartialEq for EncodedOpsRequest {
    fn eq(&self, other: &Self) -> (same: bool) {
        let same_hint = self.encoding_hint == other.encoding_hint;
        let same_filters = self.filter_requests == other.filter_requests;
        let same_group_by = self.group_by_request == other.group_by_request;
        let same_star_join = self.star_join_request == other.star_join_request;
        assert(same_hint == (self@.encoding_hint == other@.encoding_hint));
        assert(same_group_by == (self@.group_by_request == other@.group_by_request));
        assert(same_star_join == (self@.star_join_request == other@.star_join_request));
        proof {
            let mine = self@.filter_requests;
            let theirs = other@.filter_requests;
            if same_filters {
                assert(mine =~= theirs);
            } else if mine == theirs {
                assert(self.filter_requests.len() == mine.len());
                assert(other.filter_requests.len() == theirs.len());
                assert forall|i: int|
                    0 <= i < self.filter_requests.len() implies self.filter_requests[i].eq_spec(
                    &other.filter_requests[i],
                ) by {
                    assert(mine[i] == theirs[i]);
                }
            }
        }
        same_hint && same_filters && same_group_by && same_star_join
    }
}

impl vstd::std_specs::cmp::PartialEqSpecImpl for EncodedOpsRequest {
    open spec fn obeys_eq_spec() -> bool {
        true
    }

    open spec fn eq_spec(&self, other: &Self) -> bool {
        self@ == other@
    }
}

impl EncodedOpsRequest {
    /// Create a new empty request
    pub fn new() -> (request: Self)
        ensures
            request@ == EncodedOpsRequestView::empty(),
            request.encoding_hint is None,
            request.filter_requests@.len() == 0,
            request.group_by_request is None,
            request.star_join_request is None,
    {
        Self::default()
    }

    /// Check if any encoded operations are requested
    pub fn has_any_ops(&self) -> (any: bool)
        ensures
            any == self@.has_any_ops(),
            self.encoding_hint is Some ==> any,
            self.filter_requests@.len() > 0 ==> any,
            self.group_by_request is Some ==> any,
            self.star_join_request is Some ==> any,
            any ==> self.encoding_hint is Some || self.filter_requests@.len() > 0
                || self.group_by_request is Some || self.star_join_request is Some,
    {
        self.encoding_hint.is_some() || !self.filter_requests.is_empty()
            || self.group_by_request.is_some() || self.star_join_request.is_some()
    }

    /// Get the number of phases with active requests
    pub fn active_phases(&self) -> (count: u32)
        ensures
            count == self@.active_phases(),
            count == (if self.encoding_hint is Some {
                1int
            } else {
                0
            }) + (if self.filter_requests@.len() > 0 {
                1int
            } else {
                0
            }) + (if self.group_by_request is Some {
                1int
            } else {
                0
            }) + (if self.star_join_request is Some {
                1int
            } else {
                0
            }),
    {
        let mut count: u32 = 0;
        if self.encoding_hint.is_some() {
            count += 1;
        }
        if !self.filter_requests.is_empty() {
            count += 1;
        }
        if self.group_by_request.is_some() {
            count += 1;
        }
        if self.star_join_request.is_some() {
            count += 1;
        }
        count
    }
}

/// The view of a request holds every phase of it.
pub proof fn lemma_view_holds_fields(request: EncodedOpsRequest)
    ensures
        request@.encoding_hint is Some == request.encoding_hint is Some,
        request.encoding_hint is Some ==> request@.encoding_hint->0 == request.encoding_hint->0@,
        request@.filter_requests.len() == request.filter_requests@.len(),
        forall|i: int|
            0 <= i < request.filter_requests@.len() ==> (#[trigger] request@.filter_requests[i])
                == request.filter_requests@[i]@,
        request@.group_by_request is Some == request.group_by_request is Some,
        request.group_by_request is Some ==> request@.group_by_request->0
            == request.group_by_request->0@,
        request@.star_join_request is Some == request.star_join_request is Some,
        request.star_join_request is Some ==> request@.star_join_request->0
            == request.star_join_request->0@,
{
}

/// Two requests are equal exactly when each phase is absent in both or equal in
/// both.
pub proof fn lemma_equal_iff_fields_equal(a: EncodedOpsRequest, b: EncodedOpsRequest)
    ensures
        EncodedOpsRequest::obeys_eq_spec(),
        a.eq_spec(&b) <==> {
            &&& a.encoding_hint is Some == b.encoding_hint is Some
            &&& a.encoding_hint is Some ==> a.encoding_hint->0.eq_spec(&b.encoding_hint->0)
            &&& a.filter_requests@.len() == b.filter_requests@.len()
            &&& forall|i: int|
                0 <= i < a.filter_requests@.len() ==> (#[trigger] a.filter_requests@[i]).eq_spec(
                    &b.filter_requests@[i],
                )
            &&& a.group_by_request is Some == b.group_by_request is Some
            &&& a.group_by_request is Some ==> a.group_by_request->0.eq_spec(
                &b.group_by_request->0,
            )
            &&& a.star_join_request is Some == b.star_join_request is Some
            &&& a.star_join_request is Some ==> a.star_join_request->0.eq_spec(
                &b.star_join_request->0,
            )
        },
{
    lemma_view_holds_fields(a);
    lemma_view_holds_fields(b);
    if a.eq_spec(&b) {
        assert forall|i: int| 0 <= i < a.filter_requests@.len() implies (
        #[trigger] a.filter_requests@[i]).eq_spec(&b.filter_requests@[i]) by {
            assert(a@.filter_requests[i] == b@.filter_requests[i]);
        }
    } else if a.filter_requests@.len() == b.filter_requests@.len() && (forall|i: int|
        0 <= i < a.filter_requests@.len() ==> (#[trigger] a.filter_requests@[i]).eq_spec(
            &b.filter_requests@[i],
        )) {
        assert(a@.filter_requests =~= b@.filter_requests);
    }
}

/// A present hint is one phase, whatever it holds and whatever else is asked.
pub proof fn lemma_hint_is_a_phase(request: EncodedOpsRequestView, hint: EncodingHintView)
    ensures
        (EncodedOpsRequestView { encoding_hint: Some(hint), ..request }).active_phases() == (
        EncodedOpsRequestView { encoding_hint: None, ..request }).active_phases() + 1,
{
}

/// Filters are one phase, whatever they are, however many, and whatever else is
/// asked.
pub proof fn lemma_filters_are_a_phase(
    request: EncodedOpsRequestView,
    filters: Seq<EncodedFilterRequestView>,
)
    requires
        filters.len() > 0,
    ensures
        (EncodedOpsRequestView { filter_requests: filters, ..request }).active_phases() == (
        EncodedOpsRequestView { filter_requests: Seq::empty(), ..request }).active_phases() + 1,
{
}

/// A present group-by is one phase, whatever it holds and whatever else is asked.
pub proof fn lemma_group_by_is_a_phase(
    request: EncodedOpsRequestView,
    group_by: EncodedGroupByRequestView,
)
    ensures
        (EncodedOpsRequestView { group_by_request: Some(group_by), ..request }).active_phases() == (
        EncodedOpsRequestView { group_by_request: None, ..request }).active_phases() + 1,
{
}

/// A present star join is one phase, whatever it holds and whatever else is asked.
pub proof fn lemma_star_join_is_a_phase(
    request: EncodedOpsRequestView,
    star_join: EncodedStarJoinRequestView,
)
    ensures
        (EncodedOpsRequestView { star_join_request: Some(star_join), ..request }).active_phases()
            == (EncodedOpsRequestView { star_join_request: None, ..request }).active_phases() + 1,
{
}

/// Each phase that is present makes a request one that asks for something, and a
/// request without any asks for nothing.
pub proof fn lemma_any_phase_suffices(request: EncodedOpsRequest)
    ensures
        request.encoding_hint is Some ==> request@.has_any_ops(),
        request.filter_requests@.len() > 0 ==> request@.has_any_ops(),
        request.group_by_request is Some ==> request@.has_any_ops(),
        request.star_join_request is Some ==> request@.has_any_ops(),
        request.encoding_hint is None && request.filter_requests@.len() == 0
            && request.group_by_request is None && request.star_join_request is None
            ==> !request@.has_any_ops() && request@.active_phases() == 0,
{
    lemma_view_holds_fields(request);
}

/// The empty request has no hint, no filter, no group-by and no star join.
pub proof fn lemma_empty_request_fields()
    ensures
        EncodedOpsRequestView::empty().encoding_hint is None,
        EncodedOpsRequestView::empty().filter_requests.len() == 0,
        EncodedOpsRequestView::empty().group_by_request is None,
        EncodedOpsRequestView::empty().star_join_request is None,
{
}

/// There are four phases, and a request asks for some operation exactly when
/// at least one of them is active.
pub proof fn lemma_any_ops_iff_active_phase(request: EncodedOpsRequestView)
    ensures
        0 <= request.active_phases() <= 4,
        request.has_any_ops() <==> request.active_phases() > 0,
{
}

/// A request that is relayed as an equal one asks for the same: the same
/// phases are active, and no filter is lost.
pub proof fn lemma_equal_requests_ask_the_same(
    request: EncodedOpsRequest,
    relayed: EncodedOpsRequest,
)
    requires
        relayed.eq_spec(&request),
    ensures
        relayed@.has_any_ops() == request@.has_any_ops(),
        relayed@.active_phases() == request@.active_phases(),
        relayed.filter_requests@.len() == request.filter_requests@.len(),
        forall|i: int|
            0 <= i < request.filter_requests@.len() ==> (#[trigger] relayed.filter_requests@[i])@
                == request.filter_requests@[i]@,
{
    assert(relayed@.filter_requests.len() == relayed.filter_requests@.len());
    assert(request@.filter_requests.len() == request.filter_requests@.len());
    assert forall|i: int| 0 <= i < request.filter_requests@.len() implies (
    #[trigger] relayed.filter_requests@[i])@ == request.filter_requests@[i]@ by {
        assert(relayed@.filter_requests[i] == request@.filter_requests[i]);
    }
}

/// The empty request asks for nothing, and is the only request that does.
pub proof fn lemma_empty_request(request: EncodedOpsRequestView)
    ensures
        request.active_phases() == 0 <==> request == EncodedOpsRequestView::empty(),
{
    if request.active_phases() == 0 {
        assert(request.filter_requests =~= Seq::empty());
    }
}

} // verus!
