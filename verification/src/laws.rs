//! What holds of every history of a wrapper.
//!
//! The operations of [`NativeVsync`](crate::vsync::NativeVsync) are stated
//! over [`Ownership::step`]. The laws here follow a wrapper through whole
//! histories of such steps and count what the driver was told to destroy.

use vstd::prelude::*;

use crate::ownership::{Event, Ownership};

verus! {

/// Whether every event of a history only borrows the wrapper.
pub open spec fn all_borrowing(events: Seq<Event>) -> bool {
    forall|i: int| 0 <= i < events.len() ==> (#[trigger] events[i]).is_borrowing()
}

/// A history that is told in two parts ends where the second part ends
/// when it starts from the end of the first.
pub proof fn lemma_run_concat(state: Ownership, first: Seq<Event>, second: Seq<Event>)
    ensures
        state.run(first + second) == state.run(first).run(second),
    decreases second.len(),
{
    if second.len() == 0 {
        assert(first + second =~= first);
    } else {
        lemma_run_concat(state, first, second.drop_last());
        assert((first + second).drop_last() =~= first + second.drop_last());
    }
}

/// What a history destroys is what its first part destroys, followed by
/// what its second part destroys.
pub proof fn lemma_destroyed_concat(state: Ownership, first: Seq<Event>, second: Seq<Event>)
    ensures
        state.destroyed(first + second) == state.destroyed(first) + state.run(first).destroyed(
            second,
        ),
    decreases second.len(),
{
    if second.len() == 0 {
        assert(first + second =~= first);
        assert(state.destroyed(first) + Seq::<usize>::empty() =~= state.destroyed(first));
    } else {
        let shorter = second.drop_last();
        lemma_destroyed_concat(state, first, shorter);
        lemma_run_concat(state, first, shorter);
        assert((first + second).drop_last() =~= first + shorter);
        let before = state.destroyed(first) + state.run(first).destroyed(shorter);
        match state.run(first).run(shorter).step(second.last()).destroy {
            Some(raw) => {
                assert(before.push(raw) =~= state.destroyed(first) + state.run(first).destroyed(
                    shorter,
                ).push(raw));
            },
            None => {},
        }
    }
}

/// A released wrapper stays released and destroys nothing, whatever
/// happens to it.
pub proof fn lemma_released_is_final(events: Seq<Event>)
    ensures
        Ownership::Released.run(events) == Ownership::Released,
        Ownership::Released.destroyed(events) == Seq::<usize>::empty(),
    decreases events.len(),
{
    if events.len() > 0 {
        lemma_released_is_final(events.drop_last());
    }
}

/// Frame requests and period queries, however many and whatever the native
/// service answers, leave the handle with the wrapper and destroy nothing.
pub proof fn lemma_borrowing_keeps_handle(raw: usize, events: Seq<Event>)
    requires
        all_borrowing(events),
    ensures
        Ownership::Owned(raw).run(events) == Ownership::Owned(raw),
        Ownership::Owned(raw).destroyed(events) == Seq::<usize>::empty(),
    decreases events.len(),
{
    if events.len() > 0 {
        lemma_borrowing_keeps_handle(raw, events.drop_last());
        assert(events.last().is_borrowing());
    }
}

/// No handle is destroyed twice: a history destroys at most one handle. If
/// it destroys one, that is the handle the wrapper started with, and the
/// wrapper ends released. If the wrapper ends owning, it owns what it
/// started with and nothing was destroyed.
pub proof fn lemma_destroyed_at_most_once(state: Ownership, events: Seq<Event>)
    ensures
        state.destroyed(events).len() <= 1,
        state.destroyed(events).len() == 1 ==> state == Ownership::Owned(
            state.destroyed(events)[0],
        ) && state.run(events) == Ownership::Released,
        state.run(events).is_owned() ==> state.run(events) == state && state.destroyed(
            events,
        ).len() == 0,
    decreases events.len(),
{
    if events.len() > 0 {
        lemma_destroyed_at_most_once(state, events.drop_last());
    }
}

/// A wrapper that is never released has its handle destroyed exactly once,
/// at the end of its scope: nothing is destroyed while it is only borrowed,
/// the end of the scope destroys the handle, and nothing that happens to
/// the wrapper afterwards destroys again.
pub proof fn lemma_scope_end_destroys_once(raw: usize, borrows: Seq<Event>, later: Seq<Event>)
    requires
        all_borrowing(borrows),
    ensures
        Ownership::Owned(raw).destroyed(borrows) == Seq::<usize>::empty(),
        Ownership::Owned(raw).destroyed(borrows.push(Event::ScopeEnded)) == seq![raw],
        Ownership::Owned(raw).destroyed(borrows.push(Event::ScopeEnded) + later) == seq![raw],
{
    let owned = Ownership::Owned(raw);
    let ended = borrows.push(Event::ScopeEnded);
    lemma_borrowing_keeps_handle(raw, borrows);
    assert(ended.drop_last() =~= borrows);
    assert(owned.destroyed(ended) =~= seq![raw]);
    assert(owned.run(ended) == Ownership::Released);
    lemma_destroyed_concat(owned, ended, later);
    lemma_released_is_final(later);
    assert(seq![raw] + Seq::<usize>::empty() =~= seq![raw]);
}

/// A frame request with the handle as user data that the native service
/// accepted destroys nothing, neither at once nor through anything that
/// happens to the wrapper later, the end of its scope included: the handle
/// belongs to the pending callback.
pub proof fn lemma_accepted_transfer_destroys_nothing(raw: usize, later: Seq<Event>)
    ensures
        Ownership::Owned(raw).step(Event::FrameRequestedWithSelf { status: 0 }).destroy is None,
        Ownership::Owned(raw).destroyed(seq![Event::FrameRequestedWithSelf { status: 0 }] + later)
            == Seq::<usize>::empty(),
{
    let owned = Ownership::Owned(raw);
    let request = seq![Event::FrameRequestedWithSelf { status: 0 }];
    lemma_single_step(owned, request[0]);
    lemma_destroyed_concat(owned, request, later);
    lemma_released_is_final(later);
    assert(request =~= seq![request[0]]);
    assert(Seq::<usize>::empty() + Seq::<usize>::empty() =~= Seq::<usize>::empty());
}

/// A frame request with the handle as user data that the native service
/// refused destroys the handle exactly once, in the step that returns the
/// error; nothing that happens to the wrapper later destroys again.
pub proof fn lemma_refused_transfer_destroys_once(raw: usize, status: i32, later: Seq<Event>)
    requires
        status != 0,
    ensures
        Ownership::Owned(raw).step(Event::FrameRequestedWithSelf { status }).destroy == Some(raw),
        Ownership::Owned(raw).destroyed(seq![Event::FrameRequestedWithSelf { status }] + later)
            == seq![raw],
{
    let owned = Ownership::Owned(raw);
    let request = seq![Event::FrameRequestedWithSelf { status }];
    lemma_single_step(owned, request[0]);
    lemma_destroyed_concat(owned, request, later);
    lemma_released_is_final(later);
    assert(request =~= seq![request[0]]);
    assert(seq![raw] + Seq::<usize>::empty() =~= seq![raw]);
}

/// Handing a handle out and adopting it again moves the duty to destroy
/// from the first wrapper to the second, whole: the first wrapper destroys
/// nothing, whatever happens to it afterwards, and the second, which owns
/// the same handle, destroys it exactly once at the end of its scope.
///
/// The handle is not null, since only such a handle can be adopted.
pub proof fn lemma_hand_out_then_adopt(
    raw: usize,
    later_on_first: Seq<Event>,
    borrows_on_second: Seq<Event>,
)
    requires
        raw != 0,
        all_borrowing(borrows_on_second),
    ensures
        Ownership::Owned(raw).destroyed(seq![Event::HandedOut] + later_on_first) == Seq::<
            usize,
        >::empty(),
        Ownership::Owned(raw).destroyed(borrows_on_second.push(Event::ScopeEnded)) == seq![raw],
{
    let owned = Ownership::Owned(raw);
    let hand_out = seq![Event::HandedOut];
    lemma_single_step(owned, hand_out[0]);
    lemma_destroyed_concat(owned, hand_out, later_on_first);
    lemma_released_is_final(later_on_first);
    assert(hand_out =~= seq![hand_out[0]]);
    assert(Seq::<usize>::empty() + Seq::<usize>::empty() =~= Seq::<usize>::empty());
    lemma_scope_end_destroys_once(raw, borrows_on_second, Seq::empty());
}

/// A history of one event is that event's step.
pub proof fn lemma_single_step(state: Ownership, event: Event)
    ensures
        state.run(seq![event]) == state.step(event).next,
        state.destroyed(seq![event]) == match state.step(event).destroy {
            Some(raw) => seq![raw],
            None => Seq::<usize>::empty(),
        },
{
    let events = seq![event];
    assert(events.drop_last() =~= Seq::<Event>::empty());
    assert(state.run(events.drop_last()) == state);
    assert(state.destroyed(events.drop_last()) =~= Seq::<usize>::empty());
    match state.step(event).destroy {
        Some(raw) => {
            assert(Seq::<usize>::empty().push(raw) =~= seq![raw]);
        },
        None => {},
    }
}

} // verus!
