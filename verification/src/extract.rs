//! Building the ordered candidate list from the scraped containers.
//!
//! The containers are walked in document order. Each yields a candidate via
//! [`crate::candidate::assemble_candidate`]; a candidate whose link marks a
//! short-form video is rejected and does not count toward the cap. Walking
//! stops as soon as five candidates have been accepted, so containers beyond
//! that point are never inspected.

use vstd::prelude::*;
use crate::candidate::Candidate;
use crate::candidate::CandidateView;
use crate::candidate::RawContainer;
use crate::candidate::RawContainerView;
use crate::candidate::assemble_candidate;
use crate::candidate::contains_shorts;
use crate::candidate::spec_candidate_of;
use crate::candidate::spec_is_short;
use crate::candidate::text_or_empty;

verus! {

/// The most candidates one extraction returns.
pub const MAX_RESULTS: usize = 5;

/// Whether a container's candidate is kept: its link does not mark a
/// short-form video.
pub open spec fn spec_accepted(r: RawContainerView) -> bool {
    !spec_is_short(text_or_empty(r.link))
}

/// The candidates of all accepted containers, in container order, with no
/// cap applied.
pub open spec fn spec_accepted_candidates(rs: Seq<RawContainerView>) -> Seq<CandidateView>
    decreases rs.len(),
{
    if rs.len() == 0 {
        Seq::empty()
    } else {
        let front = spec_accepted_candidates(rs.drop_last());
        if spec_accepted(rs.last()) {
            front.push(spec_candidate_of(rs.last()))
        } else {
            front
        }
    }
}

/// What extraction returns: the accepted candidates in container order,
/// capped at [`MAX_RESULTS`].
pub open spec fn spec_extract(rs: Seq<RawContainerView>) -> Seq<CandidateView> {
    let acc = spec_accepted_candidates(rs);
    if acc.len() <= MAX_RESULTS {
        acc
    } else {
        acc.take(MAX_RESULTS as int)
    }
}

/// The views of a sequence of raw containers, element by element.
pub open spec fn raw_views(s: Seq<RawContainer>) -> Seq<RawContainerView> {
    Seq::new(s.len(), |i: int| s[i]@)
}

/// The views of a sequence of candidates, element by element.
pub open spec fn candidate_views(s: Seq<Candidate>) -> Seq<CandidateView> {
    Seq::new(s.len(), |i: int| s[i]@)
}

/// The accepted candidates of a prefix form a prefix of the accepted
/// candidates of the whole list.
proof fn lemma_accepted_candidates_prefix(rs: Seq<RawContainerView>, i: int)
    requires
        0 <= i <= rs.len(),
    ensures
        spec_accepted_candidates(rs.take(i)).len() <= spec_accepted_candidates(rs).len(),
        spec_accepted_candidates(rs.take(i)) == spec_accepted_candidates(rs).take(
            spec_accepted_candidates(rs.take(i)).len() as int,
        ),
    decreases rs.len() - i,
{
    if i == rs.len() {
        assert(rs.take(i) =~= rs);
        assert(spec_accepted_candidates(rs).take(spec_accepted_candidates(rs).len() as int)
            =~= spec_accepted_candidates(rs));
    } else {
        lemma_accepted_candidates_prefix(rs, i + 1);
        let part = spec_accepted_candidates(rs.take(i));
        let next = spec_accepted_candidates(rs.take(i + 1));
        let full = spec_accepted_candidates(rs);
        assert(rs.take(i + 1).drop_last() =~= rs.take(i));
        assert(rs.take(i + 1).last() == rs[i]);
        if spec_accepted(rs[i]) {
            assert(next == part.push(spec_candidate_of(rs[i])));
            assert(part =~= next.take(part.len() as int));
            assert(next.take(part.len() as int) =~= full.take(next.len() as int).take(
                part.len() as int,
            ));
            assert(full.take(next.len() as int).take(part.len() as int) =~= full.take(
                part.len() as int,
            ));
        } else {
            assert(next == part);
        }
    }
}

/// Walks the container list in order, assembling and filtering candidates,
/// and stops as soon as [`MAX_RESULTS`] have been accepted: containers past
/// that point are never inspected.
pub fn extract(containers: &Vec<RawContainer>) -> (r: Vec<Candidate>)
    ensures
        candidate_views(r@) == spec_extract(raw_views(containers@)),
        r@.len() <= MAX_RESULTS,
        forall|j: int| 0 <= j < r@.len() ==> !spec_is_short((#[trigger] r@[j])@.link),
{
    let mut out: Vec<Candidate> = Vec::new();
    let mut i: usize = 0;
    while i < containers.len() && out.len() < MAX_RESULTS
        invariant
            i <= containers@.len(),
            out@.len() <= MAX_RESULTS,
            candidate_views(out@) == spec_accepted_candidates(
                raw_views(containers@).take(i as int),
            ),
        decreases containers@.len() - i,
    {
        let c = assemble_candidate(&containers[i]);
        let is_short = contains_shorts(c.link.as_str());
        proof {
            let rsv = raw_views(containers@);
            assert(rsv.take(i as int + 1).drop_last() =~= rsv.take(i as int));
            assert(rsv.take(i as int + 1).last() == rsv[i as int]);
            assert(rsv[i as int] == containers@[i as int]@);
            assert(c@.link == text_or_empty(rsv[i as int].link));
        }
        if !is_short {
            out.push(c);
        }
        proof {
            assert(candidate_views(out@) =~= spec_accepted_candidates(
                raw_views(containers@).take(i as int + 1),
            ));
        }
        i = i + 1;
    }
    proof {
        let rsv = raw_views(containers@);
        let acc = spec_accepted_candidates(rsv);
        lemma_accepted_candidates_prefix(rsv, i as int);
        if i == containers@.len() {
            assert(rsv.take(i as int) =~= rsv);
            assert(candidate_views(out@) == acc);
            assert(candidate_views(out@).len() == out@.len());
            assert(spec_extract(rsv) == acc);
        } else {
            assert(out@.len() == MAX_RESULTS);
            assert(candidate_views(out@).len() == MAX_RESULTS);
            assert(acc.len() >= MAX_RESULTS);
            if acc.len() == MAX_RESULTS {
                assert(acc.take(MAX_RESULTS as int) =~= acc);
            }
            assert(spec_extract(rsv) == acc.take(MAX_RESULTS as int));
            assert(candidate_views(out@) == spec_extract(rsv));
        }
        lemma_extract_filters_and_caps(rsv);
        assert forall|j: int| 0 <= j < out@.len() implies !spec_is_short(
            (out@[j])@.link,
        ) by {
            assert(candidate_views(out@)[j] == out@[j]@);
            assert(spec_extract(rsv)[j] == spec_accepted_candidates(rsv)[j]);
        }
    }
    out
}

/// With no short-form entry in the list, extraction keeps every container:
/// the result holds exactly the first `min(N, 5)` containers' candidates,
/// in the original order.
pub proof fn lemma_extract_no_shorts_all_kept(rs: Seq<RawContainerView>)
    requires
        forall|i: int| 0 <= i < rs.len() ==> spec_accepted(#[trigger] rs[i]),
    ensures
        rs.len() <= MAX_RESULTS ==> spec_extract(rs).len() == rs.len(),
        rs.len() > MAX_RESULTS ==> spec_extract(rs).len() == MAX_RESULTS,
        forall|i: int|
            0 <= i < spec_extract(rs).len() ==> #[trigger] spec_extract(rs)[i]
                == spec_candidate_of(rs[i]),
{
    lemma_accepted_candidates_all_kept(rs);
}

/// Helper for [`lemma_extract_no_shorts_all_kept`]: with every container
/// accepted, the uncapped accepted list is the whole list's candidates.
proof fn lemma_accepted_candidates_all_kept(rs: Seq<RawContainerView>)
    requires
        forall|i: int| 0 <= i < rs.len() ==> spec_accepted(#[trigger] rs[i]),
    ensures
        spec_accepted_candidates(rs).len() == rs.len(),
        forall|i: int|
            0 <= i < rs.len() ==> #[trigger] spec_accepted_candidates(rs)[i]
                == spec_candidate_of(rs[i]),
    decreases rs.len(),
{
    if rs.len() > 0 {
        lemma_accepted_candidates_all_kept(rs.drop_last());
    }
}

/// Extraction never returns more than five candidates; what it returns is
/// exactly the leading accepted (non-short-form) candidates, in container
/// order, and no returned candidate's link marks a short-form video — even
/// where more accepted containers exist beyond the cap.
pub proof fn lemma_extract_filters_and_caps(rs: Seq<RawContainerView>)
    ensures
        spec_extract(rs).len() <= MAX_RESULTS,
        spec_accepted_candidates(rs).len() <= MAX_RESULTS ==> spec_extract(rs).len()
            == spec_accepted_candidates(rs).len(),
        spec_accepted_candidates(rs).len() > MAX_RESULTS ==> spec_extract(rs).len()
            == MAX_RESULTS,
        forall|i: int|
            0 <= i < spec_extract(rs).len() ==> #[trigger] spec_extract(rs)[i]
                == spec_accepted_candidates(rs)[i],
        forall|i: int|
            0 <= i < spec_accepted_candidates(rs).len() ==> !spec_is_short(
                (#[trigger] spec_accepted_candidates(rs)[i]).link,
            ),
{
    lemma_accepted_candidates_no_shorts(rs);
}

/// Helper for [`lemma_extract_filters_and_caps`]: every accepted candidate's
/// link is free of the short-form marker.
proof fn lemma_accepted_candidates_no_shorts(rs: Seq<RawContainerView>)
    ensures
        forall|i: int|
            0 <= i < spec_accepted_candidates(rs).len() ==> !spec_is_short(
                (#[trigger] spec_accepted_candidates(rs)[i]).link,
            ),
    decreases rs.len(),
{
    if rs.len() > 0 {
        lemma_accepted_candidates_no_shorts(rs.drop_last());
        let front = spec_accepted_candidates(rs.drop_last());
        let acc = spec_accepted_candidates(rs);
        assert forall|i: int| 0 <= i < acc.len() implies !spec_is_short(acc[i].link) by {
            if i < front.len() {
                assert(acc[i] == front[i]);
            } else {
                assert(spec_accepted(rs.last()));
                assert(acc[i] == spec_candidate_of(rs.last()));
            }
        }
    }
}

} // verus!
