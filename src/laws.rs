//! Properties of the coordinator that span several calls, proved over
//! `CoordinatorView`, the model that the operations' contracts speak of.

use vstd::prelude::*;

use crate::coordinator::CoordinatorView;
use crate::worker::Phase;

verus! {

/// The state after `n` more pick requests.
pub open spec fn requested_n(v: CoordinatorView, n: nat) -> CoordinatorView
    decreases n,
{
    if n == 0 {
        v
    } else {
        requested_n(v, (n - 1) as nat).requested()
    }
}

/// The worker serves requests one after another: for each outcome in turn it
/// opens a picker (when it can) and the picker closes with that outcome.
pub open spec fn served(v: CoordinatorView, outcomes: Seq<Option<Seq<char>>>) -> CoordinatorView
    decreases outcomes.len(),
{
    if outcomes.len() == 0 {
        v
    } else {
        served(v.begun().ended(outcomes[0]), outcomes.drop_first())
    }
}

/// The names among `outcomes`, in order; cancels leave no trace.
pub open spec fn chosen_names(outcomes: Seq<Option<Seq<char>>>) -> Seq<Seq<char>>
    decreases outcomes.len(),
{
    if outcomes.len() == 0 {
        Seq::empty()
    } else {
        let rest = chosen_names(outcomes.drop_first());
        match outcomes[0] {
            Some(name) => seq![name] + rest,
            None => rest,
        }
    }
}

/// What `n` polls in a row report.
pub open spec fn polls(v: CoordinatorView, n: nat) -> Seq<Option<Seq<char>>>
    decreases n,
{
    if n == 0 {
        Seq::empty()
    } else {
        seq![v.polled().1] + polls(v.polled().0, (n - 1) as nat)
    }
}

/// `n` requests raise the issued count by `n` and change nothing else.
pub proof fn lemma_requested_n(v: CoordinatorView, n: nat)
    ensures
        requested_n(v, n) == (CoordinatorView { issued: v.issued + n, ..v }),
    decreases n,
{
    if n > 0 {
        lemma_requested_n(v, (n - 1) as nat);
    }
}

/// An idle worker with at least as many waiting requests as outcomes opens
/// one picker per outcome, each for the oldest waiting request, ends idle,
/// and appends exactly the chosen names, in order, to the result queue.
pub proof fn lemma_served(v: CoordinatorView, outcomes: Seq<Option<Seq<char>>>)
    requires
        v.phase == Phase::Idle,
        v.opened <= v.issued,
        v.pending() >= outcomes.len(),
    ensures
        served(v, outcomes) == (CoordinatorView {
            opened: v.opened + outcomes.len(),
            results: v.results + chosen_names(outcomes),
            ..v
        }),
    decreases outcomes.len(),
{
    if outcomes.len() == 0 {
        assert(v.results + chosen_names(outcomes) =~= v.results);
    } else {
        let w = v.begun().ended(outcomes[0]);
        lemma_served(w, outcomes.drop_first());
        match outcomes[0] {
            Some(name) => {
                assert(v.results.push(name) + chosen_names(outcomes.drop_first()) =~= v.results
                    + chosen_names(outcomes));
            },
            None => {},
        }
    }
}

/// Order of service: after `n` requests issued to an idle worker with an
/// empty request queue, the worker opens a picker exactly `n` times, taking
/// the requests in the order they were issued, whatever each picker's outcome;
/// then the queue is empty and it opens no further picker.
pub proof fn lemma_fifo_service(v: CoordinatorView, n: nat, outcomes: Seq<Option<Seq<char>>>)
    requires
        v.phase == Phase::Idle,
        v.opened == v.issued,
        outcomes.len() == n,
    ensures
        served(requested_n(v, n), outcomes).opened == v.opened + n,
        served(requested_n(v, n), outcomes).pending() == 0,
        served(requested_n(v, n), outcomes).phase == Phase::Idle,
        !served(requested_n(v, n), outcomes).can_begin(),
        served(requested_n(v, n), outcomes).begun() == served(requested_n(v, n), outcomes),
{
    lemma_requested_n(v, n);
    lemma_served(requested_n(v, n), outcomes);
}

/// A canceled picker reports nothing: the result queue is unchanged, the
/// worker is idle again, and when a request waits it opens the next picker.
pub proof fn lemma_cancel_is_silent(v: CoordinatorView)
    requires
        v.phase == Phase::AwaitingUser,
    ensures
        v.ended(None).results == v.results,
        v.ended(None).pending() == v.pending(),
        v.ended(None).phase == Phase::Idle,
        v.pending() > 0 ==> v.ended(None).can_begin() && v.ended(None).begun().opened == v.opened
            + 1,
{
}

/// At most one picker is open at any time: a request issued while a picker
/// is open is queued, not dropped, and opens no second picker until the first
/// has closed.
pub proof fn lemma_at_most_one_dialog(v: CoordinatorView)
    requires
        v.phase == Phase::AwaitingUser,
    ensures
        v.open_dialogs() == 1,
        v.requested().pending() == v.pending() + 1,
        !v.requested().can_begin(),
        v.requested().begun() == v.requested(),
        v.requested().begun().open_dialogs() == 1,
{
}

/// Every state has zero or one open picker.
pub proof fn lemma_open_dialogs_bounded(v: CoordinatorView)
    ensures
        v.open_dialogs() <= 1,
{
}

/// The names the interface receives correspond to the pickers' outcomes:
/// from a fresh coordinator, one request per outcome, served in turn, leaves
/// exactly the chosen names in the result queue, in order, and polling reports
/// them in that order and then nothing.
pub proof fn lemma_results_correspond(outcomes: Seq<Option<Seq<char>>>, extra: nat)
    ensures
        served(requested_n(CoordinatorView::initial(), outcomes.len()), outcomes).results
            == chosen_names(outcomes),
        polls(
            served(requested_n(CoordinatorView::initial(), outcomes.len()), outcomes),
            chosen_names(outcomes).len() + extra,
        ) == chosen_names(outcomes).map_values(|name: Seq<char>| Some(name)) + Seq::new(
            extra,
            |i: int| None::<Seq<char>>,
        ),
{
    let v = CoordinatorView::initial();
    lemma_requested_n(v, outcomes.len());
    lemma_served(requested_n(v, outcomes.len()), outcomes);
    assert(Seq::<Seq<char>>::empty() + chosen_names(outcomes) =~= chosen_names(outcomes));
    lemma_polls_drain(
        served(requested_n(v, outcomes.len()), outcomes),
        extra,
    );
}

/// Polling reports the result queue in order, then nothing.
pub proof fn lemma_polls_drain(v: CoordinatorView, extra: nat)
    ensures
        polls(v, v.results.len() + extra) == v.results.map_values(|name: Seq<char>| Some(name))
            + Seq::new(extra, |i: int| None::<Seq<char>>),
    decreases v.results.len() + extra,
{
    if v.results.len() == 0 {
        lemma_idle_polls(v, extra);
        assert(v.results.map_values(|name: Seq<char>| Some(name)) + Seq::new(
            extra,
            |i: int| None::<Seq<char>>,
        ) =~= Seq::new(extra, |i: int| None::<Seq<char>>));
    } else {
        let w = v.polled().0;
        lemma_polls_drain(w, extra);
        assert(seq![Some(v.results[0])] + (w.results.map_values(|name: Seq<char>| Some(name))
            + Seq::new(extra, |i: int| None::<Seq<char>>)) =~= v.results.map_values(
            |name: Seq<char>| Some(name),
        ) + Seq::new(extra, |i: int| None::<Seq<char>>));
    }
}

/// With no chosen name waiting, every poll reports nothing and changes nothing.
pub proof fn lemma_idle_polls(v: CoordinatorView, n: nat)
    requires
        v.results.len() == 0,
    ensures
        polls(v, n) == Seq::new(n, |i: int| None::<Seq<char>>),
    decreases n,
{
    if n > 0 {
        lemma_idle_polls(v, (n - 1) as nat);
        assert(polls(v, n) =~= Seq::new(n, |i: int| None::<Seq<char>>));
    } else {
        assert(polls(v, n) =~= Seq::new(n, |i: int| None::<Seq<char>>));
    }
}

/// A fresh coordinator with no request issued reports nothing on every poll.
pub proof fn lemma_idle_default(n: nat)
    ensures
        polls(CoordinatorView::initial(), n) == Seq::new(n, |i: int| None::<Seq<char>>),
        CoordinatorView::initial().polled().0 == CoordinatorView::initial(),
{
    lemma_idle_polls(CoordinatorView::initial(), n);
}

} // verus!
