use vstd::prelude::*;

use crate::surface::{initial, step, Event, SurfaceView};

verus! {

/// The state reached from `s` by handling `events` in order.
pub open spec fn replay(s: SurfaceView, events: Seq<Event>) -> SurfaceView
    decreases events.len(),
{
    if events.len() == 0 {
        s
    } else {
        step(replay(s, events.drop_last()), events.last())
    }
}

/// `n` button activations in a row.
pub open spec fn presses(n: nat) -> Seq<Event> {
    Seq::new(n, |i: int| Event::ButtonPressed)
}

/// A fresh surface reads zero before any event.
pub proof fn lemma_initial_counter_zero()
    ensures
        initial().counter == 0,
        replay(initial(), Seq::empty()).counter == 0,
{
}

/// After `n` button activations on a fresh surface the counter reads exactly
/// `n`, for every `n` that the counter's type can hold.
pub proof fn lemma_presses_from_fresh(n: nat)
    requires
        n <= i32::MAX,
    ensures
        replay(initial(), presses(n)).counter == n,
    decreases n,
{
    if n > 0 {
        assert(presses(n).drop_last() =~= presses((n - 1) as nat));
        lemma_presses_from_fresh((n - 1) as nat);
    }
}

/// One event never lowers the counter, and any event other than a button
/// activation leaves it unchanged.
pub proof fn lemma_step_monotone(s: SurfaceView, e: Event)
    ensures
        step(s, e).counter >= s.counter,
        e != Event::ButtonPressed ==> step(s, e).counter == s.counter,
{
}

/// Over any run of events the counter never decreases, and it ends where it
/// started when none of the events is a button activation.
pub proof fn lemma_replay_monotone(s: SurfaceView, events: Seq<Event>)
    ensures
        replay(s, events).counter >= s.counter,
        (forall|i: int| 0 <= i < events.len() ==> events[i] != Event::ButtonPressed)
            ==> replay(s, events).counter == s.counter,
    decreases events.len(),
{
    if events.len() > 0 {
        let prefix = events.drop_last();
        lemma_replay_monotone(s, prefix);
        lemma_step_monotone(replay(s, prefix), events.last());
        if forall|i: int| 0 <= i < events.len() ==> events[i] != Event::ButtonPressed {
            assert forall|i: int| 0 <= i < prefix.len() implies prefix[i] != Event::ButtonPressed by {
                assert(prefix[i] == events[i]);
            }
            assert(events.last() == events[events.len() - 1]);
        }
    }
}

} // verus!
