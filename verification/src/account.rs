//! Connection accounting over whole creation runs.
//!
//! A run is a begun creation attempt followed by the events the embedding
//! program reports, each answered by [`crate::create::spec_step`]. The laws
//! here balance the books: every display connection a run acquires is either
//! closed by an effect the run requested or owned by the context the run
//! produced — so a failed creation leaves no connection open, and a
//! successful one leaves open exactly the connection its context owns.

use vstd::prelude::*;
use crate::create::CreateEffect;
use crate::create::CreateEvent;
use crate::create::CreateStateView;
use crate::create::expects;
use crate::create::spec_begin;
use crate::create::spec_step;
use crate::create::wf_state;
use crate::text::has_nul;

verus! {

/// How many `OpenDisplay` effects a batch requests.
pub open spec fn open_count(effs: Seq<CreateEffect>) -> int
    decreases effs.len(),
{
    if effs.len() == 0 {
        0
    } else {
        (if effs[0] is OpenDisplay {
            1int
        } else {
            0int
        }) + open_count(effs.drop_first())
    }
}

/// How many `CloseDisplay` effects a batch requests.
pub open spec fn close_count(effs: Seq<CreateEffect>) -> int
    decreases effs.len(),
{
    if effs.len() == 0 {
        0
    } else {
        (if effs[0] is CloseDisplay {
            1int
        } else {
            0int
        }) + close_count(effs.drop_first())
    }
}

/// How many display connections an event reports as actually acquired: one
/// for a non-null display handle, none otherwise.
pub open spec fn acquired(e: CreateEvent) -> int {
    match e {
        CreateEvent::DisplayResult { display } => if display != 0 {
            1int
        } else {
            0int
        },
        _ => 0,
    }
}

/// How many display connections a state holds: one from the moment a
/// connection is reported open — owned by the ready context at the end —
/// and none before that or after a failure.
pub open spec fn displays_held(s: CreateStateView) -> int {
    match s {
        CreateStateView::DisplayPending { .. } => 0,
        CreateStateView::FontSetPending { .. } => 1,
        CreateStateView::FontPending { .. } => 1,
        CreateStateView::Ready { .. } => 1,
        CreateStateView::Failed { .. } => 0,
    }
}

/// The state after a begun run has consumed `events`, and every effect the
/// run requested along the way.
pub open spec fn run_create(pattern: Seq<char>, events: Seq<CreateEvent>) -> (CreateStateView, Seq<
    CreateEffect,
>)
    decreases events.len(),
{
    if events.len() == 0 {
        spec_begin(pattern)
    } else {
        let prev = run_create(pattern, events.drop_last());
        let step = spec_step(prev.0, events.last());
        (step.0, prev.1 + step.1)
    }
}

/// The events of a run each arrive in a state that awaits them.
pub open spec fn run_expected(pattern: Seq<char>, events: Seq<CreateEvent>) -> bool
    decreases events.len(),
{
    if events.len() == 0 {
        true
    } else {
        run_expected(pattern, events.drop_last()) && expects(
            run_create(pattern, events.drop_last()).0,
            events.last(),
        )
    }
}

/// How many display connections a run of events actually acquired.
pub open spec fn acquired_total(events: Seq<CreateEvent>) -> int
    decreases events.len(),
{
    if events.len() == 0 {
        0
    } else {
        acquired_total(events.drop_last()) + acquired(events.last())
    }
}

/// One step keeps the connection books balanced: whatever the event
/// acquires either stays held by the next state or is closed by a requested
/// effect.
pub proof fn lemma_step_balance(s: CreateStateView, e: CreateEvent)
    requires
        expects(s, e),
    ensures
        displays_held(spec_step(s, e).0) + close_count(spec_step(s, e).1) == displays_held(s)
            + acquired(e),
{
    reveal_with_fuel(close_count, 4);
}

/// No step after the first ever opens a connection: opening happens once,
/// when the attempt begins.
pub proof fn lemma_step_opens_nothing(s: CreateStateView, e: CreateEvent)
    requires
        expects(s, e),
    ensures
        open_count(spec_step(s, e).1) == 0,
{
    reveal_with_fuel(open_count, 4);
}

/// A step taken in a well-formed state leaves a well-formed state: display
/// handles carried forward are live, and a ready context is well-formed.
pub proof fn lemma_step_preserves_wf(s: CreateStateView, e: CreateEvent)
    requires
        wf_state(s),
        expects(s, e),
    ensures
        wf_state(spec_step(s, e).0),
{
}

/// Terminal states take no further event: there is no transition out of
/// `Ready` or `Failed`.
pub proof fn lemma_terminal_states_final(s: CreateStateView, e: CreateEvent)
    requires
        s is Ready || s is Failed,
    ensures
        !expects(s, e),
{
}

/// Every state a run reaches is well-formed.
pub proof fn lemma_run_wf(pattern: Seq<char>, events: Seq<CreateEvent>)
    requires
        run_expected(pattern, events),
    ensures
        wf_state(run_create(pattern, events).0),
    decreases events.len(),
{
    if events.len() > 0 {
        lemma_run_wf(pattern, events.drop_last());
        lemma_step_preserves_wf(run_create(pattern, events.drop_last()).0, events.last());
    }
}

/// Batches of effects count additively.
proof fn lemma_counts_add(a: Seq<CreateEffect>, b: Seq<CreateEffect>)
    ensures
        open_count(a + b) == open_count(a) + open_count(b),
        close_count(a + b) == close_count(a) + close_count(b),
    decreases a.len(),
{
    if a.len() == 0 {
        assert(a + b =~= b);
    } else {
        assert((a + b).drop_first() =~= a.drop_first() + b);
        lemma_counts_add(a.drop_first(), b);
    }
}

/// The central balance law: over a whole run, the connections acquired are
/// exactly those closed by requested effects plus the one the final state
/// still holds. In particular a run that ends in `Failed` has closed every
/// connection it acquired.
pub proof fn lemma_run_connection_balance(pattern: Seq<char>, events: Seq<CreateEvent>)
    requires
        run_expected(pattern, events),
    ensures
        acquired_total(events) == close_count(run_create(pattern, events).1) + displays_held(
            run_create(pattern, events).0,
        ),
    decreases events.len(),
{
    reveal_with_fuel(close_count, 4);
    if events.len() == 0 {
    } else {
        let prev = run_create(pattern, events.drop_last());
        lemma_run_connection_balance(pattern, events.drop_last());
        lemma_step_balance(prev.0, events.last());
        lemma_counts_add(prev.1, spec_step(prev.0, events.last()).1);
    }
}

/// A failed creation leaves no display connection open: every connection the
/// run acquired was closed by an effect the run requested.
pub proof fn lemma_failed_create_closes_all(pattern: Seq<char>, events: Seq<CreateEvent>)
    requires
        run_expected(pattern, events),
        run_create(pattern, events).0 is Failed,
    ensures
        acquired_total(events) == close_count(run_create(pattern, events).1),
{
    lemma_run_connection_balance(pattern, events);
}

/// A successful creation holds exactly one connection open — the one its
/// context owns; everything else the run acquired was closed.
pub proof fn lemma_ready_create_owns_one(pattern: Seq<char>, events: Seq<CreateEvent>)
    requires
        run_expected(pattern, events),
        run_create(pattern, events).0 is Ready,
    ensures
        acquired_total(events) == close_count(run_create(pattern, events).1) + 1,
{
    lemma_run_connection_balance(pattern, events);
}

/// A run requests at most one `OpenDisplay`, and none at all when the
/// specification holds an embedded NUL.
pub proof fn lemma_one_open_per_create(pattern: Seq<char>, events: Seq<CreateEvent>)
    requires
        run_expected(pattern, events),
    ensures
        open_count(run_create(pattern, events).1) == if has_nul(pattern) {
            0int
        } else {
            1int
        },
    decreases events.len(),
{
    reveal_with_fuel(open_count, 4);
    if events.len() == 0 {
    } else {
        let prev = run_create(pattern, events.drop_last());
        lemma_one_open_per_create(pattern, events.drop_last());
        lemma_step_opens_nothing(prev.0, events.last());
        lemma_counts_add(prev.1, spec_step(prev.0, events.last()).1);
    }
}

/// A specification with an embedded NUL fails at once: the run is over
/// before any event, with `NulError` reported and no effect — in particular
/// no connection — ever requested.
pub proof fn lemma_nul_opens_nothing(pattern: Seq<char>, events: Seq<CreateEvent>)
    requires
        has_nul(pattern),
        run_expected(pattern, events),
    ensures
        events.len() == 0,
        run_create(pattern, events).0 == (CreateStateView::Failed {
            err: crate::error::XErrorView::NulError,
        }),
        run_create(pattern, events).1 =~= Seq::<CreateEffect>::empty(),
    decreases events.len(),
{
    if events.len() > 0 {
        lemma_nul_opens_nothing(pattern, events.drop_last());
    }
}

} // verus!
