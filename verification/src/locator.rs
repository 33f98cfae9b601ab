//! The element locator: every lookup in the engine goes through it.
//!
//! `find_all` reports every match present at the single instant of one
//! snapshot, in tree order, with no retry.  `find_first` degrades gracefully
//! to "keep polling until the control exists", because the host application
//! redraws asynchronously after keystrokes with no completion event: it
//! re-observes the tree once per poll interval until a match appears or the
//! query's timeout has elapsed.

use vstd::prelude::*;
use crate::query::{filter_matches, Filter, Query};
use crate::tree::{ElementNode, ElementRef, UiSnapshot};
use crate::AbcError;

verus! {

/// The poll interval of a retried search, in milliseconds.
pub const POLL_INTERVAL_MS: u64 = 100;

/// The positions in `s[lo..hi]` whose elements satisfy `f`, in ascending
/// (tree) order.
pub open spec fn matching_between(s: Seq<ElementNode>, f: Filter, lo: int, hi: int) -> Seq<int>
    decreases hi - lo,
{
    if lo >= hi {
        Seq::empty()
    } else if filter_matches(f, s[lo].props) {
        seq![lo] + matching_between(s, f, lo + 1, hi)
    } else {
        matching_between(s, f, lo + 1, hi)
    }
}

/// The positions of the elements of `snap` that satisfy `f` within the
/// subtree of `scope`, in tree order.
pub open spec fn scope_matches(snap: UiSnapshot, scope: ElementRef, f: Filter) -> Seq<int> {
    matching_between(snap@, f, scope.index as int, snap@[scope.index as int].subtree_end as int)
}

/// Extending the searched range by one position appends its match, if any.
proof fn lemma_matching_between_snoc(s: Seq<ElementNode>, f: Filter, lo: int, hi: int)
    requires
        lo <= hi,
    ensures
        matching_between(s, f, lo, hi + 1) == matching_between(s, f, lo, hi) + (
        if filter_matches(f, s[hi].props) {
            seq![hi]
        } else {
            Seq::<int>::empty()
        }),
    decreases hi - lo,
{
    let tail = if filter_matches(f, s[hi].props) {
        seq![hi]
    } else {
        Seq::<int>::empty()
    };
    if lo == hi {
        assert(matching_between(s, f, lo, hi) =~= Seq::<int>::empty());
        assert(matching_between(s, f, hi + 1, hi + 1) =~= Seq::<int>::empty());
        assert(matching_between(s, f, lo, hi + 1) =~= tail);
        assert(matching_between(s, f, lo, hi) + tail =~= tail);
    } else {
        lemma_matching_between_snoc(s, f, lo + 1, hi);
        if filter_matches(f, s[lo].props) {
            assert(seq![lo] + (matching_between(s, f, lo + 1, hi) + tail) =~= (seq![lo]
                + matching_between(s, f, lo + 1, hi)) + tail);
        }
    }
}

/// Every reported position lies in the searched range, matches the query,
/// and the positions are strictly ascending; and every matching position in
/// the range is reported.
pub proof fn lemma_matching_between_props(s: Seq<ElementNode>, f: Filter, lo: int, hi: int)
    ensures
        forall|t: int|
            0 <= t < matching_between(s, f, lo, hi).len() ==> lo <= #[trigger] matching_between(
                s,
                f,
                lo,
                hi,
            )[t] < hi && filter_matches(f, s[matching_between(s, f, lo, hi)[t]].props),
        forall|t1: int, t2: int|
            0 <= t1 < t2 < matching_between(s, f, lo, hi).len() ==> #[trigger] matching_between(
                s,
                f,
                lo,
                hi,
            )[t1] < #[trigger] matching_between(s, f, lo, hi)[t2],
        forall|i: int|
            lo <= i < hi && filter_matches(f, s[i].props) ==> matching_between(
                s,
                f,
                lo,
                hi,
            ).contains(i),
    decreases hi - lo,
{
    if lo < hi {
        lemma_matching_between_props(s, f, lo + 1, hi);
        let ms = matching_between(s, f, lo, hi);
        let rest = matching_between(s, f, lo + 1, hi);
        if filter_matches(f, s[lo].props) {
            assert(ms == seq![lo] + rest);
            assert forall|i: int| lo <= i < hi && filter_matches(f, s[i].props) implies ms.contains(
                i,
            ) by {
                if i == lo {
                    assert(ms[0] == lo);
                } else {
                    assert(rest.contains(i));
                    let t = choose|t: int| 0 <= t < rest.len() && rest[t] == i;
                    assert(ms[t + 1] == i);
                }
            }
        } else {
            assert forall|i: int| lo <= i < hi && filter_matches(f, s[i].props) implies ms.contains(
                i,
            ) by {
                assert(rest.contains(i));
                let t = choose|t: int| 0 <= t < rest.len() && rest[t] == i;
                assert(ms[t] == i);
            }
        }
    }
}

/// Returns every element of `snap` matching `q` within the subtree of
/// `scope`, in tree order, as observed at the single instant of the
/// snapshot; the result may be empty, and repeated calls on one snapshot
/// report the same sequence.
pub fn find_all(snap: &UiSnapshot, scope: ElementRef, q: &Query) -> (r: Vec<ElementRef>)
    requires
        snap.wf(),
        scope.index < snap@.len(),
    ensures
        r@.map_values(|e: ElementRef| e.index as int) == scope_matches(*snap, scope, q.filter()),
{
    let lo = scope.index;
    let hi = snap.subtree_end(scope.index);
    let mut r: Vec<ElementRef> = Vec::new();
    let mut i: usize = lo;
    while i < hi
        invariant
            snap.wf(),
            lo < hi <= snap@.len(),
            hi == snap@[lo as int].subtree_end,
            lo <= i <= hi,
            r@.map_values(|e: ElementRef| e.index as int) == matching_between(
                snap@,
                q.filter(),
                lo as int,
                i as int,
            ),
        decreases hi - i,
    {
        proof {
            lemma_matching_between_snoc(snap@, q.filter(), lo as int, i as int);
        }
        let ghost prev = r@.map_values(|e: ElementRef| e.index as int);
        if q.matches(snap.props(i)) {
            r.push(ElementRef { index: i });
            proof {
                assert(r@.map_values(|e: ElementRef| e.index as int) =~= prev + seq![i as int]);
            }
        }
        proof {
            assert(r@.map_values(|e: ElementRef| e.index as int) =~= matching_between(
                snap@,
                q.filter(),
                lo as int,
                i + 1,
            ));
        }
        i += 1;
    }
    r
}

/// Returns the first tree-order match of `q` within the subtree of `scope`,
/// as observed at the single instant of the snapshot, or `None` when nothing
/// matches at that instant.
pub fn find_first_in_snapshot(snap: &UiSnapshot, scope: ElementRef, q: &Query) -> (r: Option<
    ElementRef,
>)
    requires
        snap.wf(),
        scope.index < snap@.len(),
    ensures
        r matches Some(e) ==> scope_matches(*snap, scope, q.filter()).len() > 0 && e.index
            == scope_matches(*snap, scope, q.filter())[0],
        r is None <==> scope_matches(*snap, scope, q.filter()).len() == 0,
{
    let all = find_all(snap, scope, q);
    if all.len() > 0 {
        let e = all[0];
        proof {
            assert(scope_matches(*snap, scope, q.filter())[0] == all@.map_values(
                |e: ElementRef| e.index as int,
            )[0]);
        }
        Some(e)
    } else {
        None
    }
}

/// Law: `find_all` reports matches in stable tree order.  Any two results
/// observed from one fixed snapshot are the identical sequence, and that
/// sequence is strictly ascending in the depth-first order of the tree.
pub proof fn lemma_find_all_stable(
    snap: UiSnapshot,
    scope: ElementRef,
    f: Filter,
    r1: Seq<ElementRef>,
    r2: Seq<ElementRef>,
)
    requires
        r1.map_values(|e: ElementRef| e.index as int) == scope_matches(snap, scope, f),
        r2.map_values(|e: ElementRef| e.index as int) == scope_matches(snap, scope, f),
    ensures
        r1 == r2,
        forall|t1: int, t2: int| 0 <= t1 < t2 < r1.len() ==> r1[t1].index < r1[t2].index,
{
    let ms = scope_matches(snap, scope, f);
    let lo = scope.index as int;
    let hi = snap@[scope.index as int].subtree_end as int;
    lemma_matching_between_props(snap@, f, lo, hi);
    assert(r1.len() == ms.len() && r2.len() == ms.len());
    assert forall|t: int| 0 <= t < r1.len() implies r1[t] == r2[t] by {
        assert(r1[t].index as int == ms[t] && r2[t].index as int == ms[t]);
    }
    assert(r1 =~= r2);
    assert forall|t1: int, t2: int| 0 <= t1 < t2 < r1.len() implies r1[t1].index < r1[t2].index by {
        assert(r1[t1].index as int == ms[t1] && r1[t2].index as int == ms[t2]);
    }
}

/// The snapshot at each poll tick of a simulated observation of the host
/// application: frame `t` is what the accessibility tree showed at the
/// `t`-th poll.  Every frame is a well-formed forest and holds the scope
/// element that the search starts from.
pub open spec fn feed_wf(frames: Seq<UiSnapshot>, scope: ElementRef) -> bool {
    forall|t: int|
        0 <= t < frames.len() ==> (#[trigger] frames[t]).wf() && scope.index < frames[t]@.len()
}

/// Whether a polled search over the feed would locate a match before
/// giving up: some frame within the timeout window (the window extends to
/// the first poll tick at or past the timeout) shows a matching element.
pub open spec fn feed_finds(
    frames: Seq<UiSnapshot>,
    scope: ElementRef,
    f: Filter,
    timeout_ms: u64,
) -> bool {
    exists|t: int|
        0 <= t < frames.len() && t * POLL_INTERVAL_MS < timeout_ms + POLL_INTERVAL_MS
            && #[trigger] scope_matches(frames[t], scope, f).len() > 0
}

/// `e` is the element a polled search over the feed locates: the first
/// tree-order match of the earliest frame that shows any match.
pub open spec fn feed_first_found(
    frames: Seq<UiSnapshot>,
    scope: ElementRef,
    f: Filter,
    e: ElementRef,
) -> bool {
    exists|t: int|
        {
            &&& 0 <= t < frames.len()
            &&& #[trigger] scope_matches(frames[t], scope, f).len() > 0
            &&& e.index == scope_matches(frames[t], scope, f)[0]
            &&& forall|u: int| 0 <= u < t ==> #[trigger] scope_matches(frames[u], scope, f).len() == 0
        }
}

/// Polled first-match search over a feed of snapshots, one frame per poll
/// tick.  Returns the located element and the elapsed time in milliseconds,
/// or `ElementNotFound` once the query's full timeout has elapsed with no
/// match — never sooner.
pub fn find_first(frames: &Vec<UiSnapshot>, scope: ElementRef, q: &Query) -> (r: (Result<
    ElementRef,
    AbcError,
>, u64))
    requires
        feed_wf(frames@, scope),
        frames@.len() * POLL_INTERVAL_MS >= q.timeout_ms + POLL_INTERVAL_MS,
        q.timeout_ms + POLL_INTERVAL_MS <= u64::MAX,
    ensures
        r.0 is Ok <==> feed_finds(frames@, scope, q.filter(), q.timeout_ms),
        r.0 matches Ok(e) ==> feed_first_found(frames@, scope, q.filter(), e),
        r.0 matches Ok(e) ==> exists|t: int|
            {
                &&& 0 <= t < frames@.len()
                &&& r.1 == t * POLL_INTERVAL_MS
                &&& r.1 < q.timeout_ms + POLL_INTERVAL_MS
                &&& #[trigger] scope_matches(frames@[t], scope, q.filter()).len() > 0
                &&& e.index == scope_matches(frames@[t], scope, q.filter())[0]
                &&& forall|u: int|
                    0 <= u < t ==> #[trigger] scope_matches(frames@[u], scope, q.filter()).len() == 0
            },
        r.0 is Err ==> {
            &&& r.0 == Err::<ElementRef, AbcError>(AbcError::ElementNotFound)
            &&& r.1 >= q.timeout_ms
            &&& forall|t: int|
                0 <= t && t * POLL_INTERVAL_MS <= r.1 && t < frames@.len()
                    ==> #[trigger] scope_matches(frames@[t], scope, q.filter()).len() == 0
        },
{
    let n = frames.len();
    let mut k: usize = 0;
    let mut elapsed: u64 = 0;
    loop
        invariant
            n == frames@.len(),
            feed_wf(frames@, scope),
            frames@.len() * POLL_INTERVAL_MS >= q.timeout_ms + POLL_INTERVAL_MS,
            q.timeout_ms + POLL_INTERVAL_MS <= u64::MAX,
            elapsed == k * POLL_INTERVAL_MS,
            elapsed < q.timeout_ms + POLL_INTERVAL_MS,
            forall|u: int| 0 <= u < k ==> #[trigger] scope_matches(frames@[u], scope, q.filter()).len()
                == 0,
        decreases q.timeout_ms + POLL_INTERVAL_MS - elapsed,
    {
        proof {
            if k >= frames@.len() {
                vstd::arithmetic::mul::lemma_mul_inequality(
                    frames@.len() as int,
                    k as int,
                    POLL_INTERVAL_MS as int,
                );
                assert(false);
            }
        }
        if let Some(e) = find_first_in_snapshot(&frames[k], scope, q) {
            proof {
                assert((k as int) < frames@.len() && elapsed == (k as int) * POLL_INTERVAL_MS
                    && scope_matches(frames@[k as int], scope, q.filter()).len() > 0 && e.index
                    == scope_matches(frames@[k as int], scope, q.filter())[0]);
            }
            return (Ok(e), elapsed);
        }
        if elapsed >= q.timeout_ms {
            proof {
                assert forall|t: int|
                    0 <= t && t * POLL_INTERVAL_MS <= elapsed && t < frames@.len() implies #[trigger] scope_matches(
                    frames@[t],
                    scope,
                    q.filter(),
                ).len() == 0 by {
                    if t > k {
                        vstd::arithmetic::mul::lemma_mul_inequality(
                            k as int + 1,
                            t,
                            POLL_INTERVAL_MS as int,
                        );
                        assert((k + 1) * POLL_INTERVAL_MS == k * POLL_INTERVAL_MS
                            + POLL_INTERVAL_MS) by (nonlinear_arith);
                        assert(false);
                    }
                }
            }
            return (Err(AbcError::ElementNotFound), elapsed);
        }
        proof {
            assert((k + 1) * POLL_INTERVAL_MS == k * POLL_INTERVAL_MS + POLL_INTERVAL_MS)
                by (nonlinear_arith);
        }
        k += 1;
        elapsed += POLL_INTERVAL_MS;
    }
}

} // verus!
