//! The call protocol of a configuration set, as a state machine over plain
//! values. The owner of the foreign handle tells what it wants to do and
//! what the foreign side answered; the machine says which state follows and
//! which foreign calls are to be made next. The laws at the end of the file
//! hold of every run of the machine.

use vstd::prelude::*;
use crate::sentinel::is_success;

verus! {

/// Where a configuration set stands, with what it is holding on to.
pub enum State {
    /// The handle is allocated and initialised; no operation is under way.
    Ready,
    /// Files were handed over for loading; the status of `due` of them has
    /// not come back yet.
    Loading { due: nat },
    /// An integer lookup was issued; its answer is due.
    IntLookup,
    /// A string lookup was issued; its status is due.
    StringLookup,
    /// The foreign side has handed out a buffer that it allocated. It has
    /// to be copied and then released.
    BufferOwned,
    /// The buffer was copied into `bytes`; it still has to be released.
    BufferCopied { bytes: Seq<u8> },
    /// The handle was given back. Nothing can follow.
    Released,
}

/// A call into the foreign library, with its arguments as they cross the
/// boundary (the contents of each string, in front of its terminator).
pub enum CallView {
    /// Add the file at this path to the set. Returns a status.
    AddFile(Seq<u8>),
    /// Look this key up as an integer. Returns a status and fills a slot.
    GetInt(Seq<u8>),
    /// Look this key up as a string. Returns a status and, on success, a
    /// buffer that the foreign side allocated and the caller must release.
    GetString(Seq<u8>),
    /// Copy the bytes of that buffer, up to and with its terminator.
    CopyBuffer,
    /// Release that buffer with the foreign deallocation primitive.
    Free,
    /// Clear the set and release its handle.
    ClearAndFree,
}

/// What the owner of the handle does or learns.
pub enum Event {
    /// It asks to load the files at these paths, in this order.
    AddFiles { paths: Seq<Seq<u8>> },
    /// One file was processed, with this status.
    FileStatus { status: i32 },
    /// It asks for the integer under this key.
    GetInt { key: Seq<u8> },
    /// The integer lookup came back.
    IntReply { status: i32, slot: i32 },
    /// It asks for the string under this key.
    GetStr { key: Seq<u8> },
    /// The string lookup came back with this status.
    StringStatus { status: i32 },
    /// The buffer was copied; these are its bytes.
    Copied { bytes: Seq<u8> },
    /// The buffer was released.
    Freed,
    /// It is done with the set.
    Release,
}

/// Whether the machine accepts `event` in `state`. A new operation starts
/// only when none is under way, an answer is accepted only by the operation
/// that waits for it, and a released set accepts nothing.
pub open spec fn enabled(state: State, event: Event) -> bool {
    match event {
        Event::AddFiles { .. } | Event::GetInt { .. } | Event::GetStr { .. } | Event::Release => {
            state is Ready
        },
        Event::FileStatus { .. } => state is Loading,
        Event::IntReply { .. } => state is IntLookup,
        Event::StringStatus { .. } => state is StringLookup,
        Event::Copied { .. } => state is BufferOwned,
        Event::Freed => state is BufferCopied,
    }
}

/// The state that follows `state` on `event`.
pub open spec fn next(state: State, event: Event) -> State {
    match event {
        Event::AddFiles { paths } => if paths.len() == 0 {
            State::Ready
        } else {
            State::Loading { due: paths.len() }
        },
        Event::FileStatus { .. } => match state {
            State::Loading { due } if due > 1 => State::Loading { due: (due - 1) as nat },
            _ => State::Ready,
        },
        Event::GetInt { .. } => State::IntLookup,
        Event::IntReply { .. } => State::Ready,
        Event::GetStr { .. } => State::StringLookup,
        Event::StringStatus { status } => if is_success(status) {
            State::BufferOwned
        } else {
            State::Ready
        },
        Event::Copied { bytes } => State::BufferCopied { bytes },
        Event::Freed => State::Ready,
        Event::Release => State::Released,
    }
}

/// The foreign calls that the owner is to make, in order, after `event`.
pub open spec fn calls(event: Event) -> Seq<CallView> {
    match event {
        Event::AddFiles { paths } => Seq::new(paths.len(), |i: int| CallView::AddFile(paths[i])),
        Event::FileStatus { .. } => Seq::empty(),
        Event::GetInt { key } => seq![CallView::GetInt(key)],
        Event::IntReply { .. } => Seq::empty(),
        Event::GetStr { key } => seq![CallView::GetString(key)],
        Event::StringStatus { status } => if is_success(status) {
            seq![CallView::CopyBuffer]
        } else {
            Seq::empty()
        },
        Event::Copied { .. } => seq![CallView::Free],
        Event::Freed => Seq::empty(),
        Event::Release => seq![CallView::ClearAndFree],
    }
}

/// Whether the machine accepts `events` one after another, from `state`.
pub open spec fn accepts(state: State, events: Seq<Event>) -> bool
    decreases events.len(),
{
    events.len() == 0 || (accepts(state, events.drop_last()) && enabled(
        run(state, events.drop_last()),
        events.last(),
    ))
}

/// The state that the machine is in after `events`, from `state`.
pub open spec fn run(state: State, events: Seq<Event>) -> State
    decreases events.len(),
{
    if events.len() == 0 {
        state
    } else {
        next(run(state, events.drop_last()), events.last())
    }
}

/// All the foreign calls handed out in the course of `events`, in order.
pub open spec fn issued(events: Seq<Event>) -> Seq<CallView>
    decreases events.len(),
{
    if events.len() == 0 {
        Seq::empty()
    } else {
        issued(events.drop_last()) + calls(events.last())
    }
}

/// How often `call` occurs in `list`.
pub open spec fn occurrences(list: Seq<CallView>, call: CallView) -> nat
    decreases list.len(),
{
    if list.len() == 0 {
        0
    } else {
        occurrences(list.drop_last(), call) + if list.last() == call {
            1nat
        } else {
            0nat
        }
    }
}

/// How many buffers the foreign side hands out in the course of `events`:
/// one with each string lookup that succeeds.
pub open spec fn buffers_granted(events: Seq<Event>) -> nat
    decreases events.len(),
{
    if events.len() == 0 {
        0
    } else {
        buffers_granted(events.drop_last()) + match events.last() {
            Event::StringStatus { status } if is_success(status) => 1nat,
            _ => 0nat,
        }
    }
}

/// How many foreign buffers are held in `state` whose release has not been
/// asked for yet.
pub open spec fn buffers_owed(state: State) -> nat {
    if state is BufferOwned {
        1
    } else {
        0
    }
}

/// The events of loading files whose processing ends with `statuses`.
pub open spec fn load_events(paths: Seq<Seq<u8>>, statuses: Seq<i32>) -> Seq<Event> {
    seq![Event::AddFiles { paths }] + Seq::new(
        statuses.len(),
        |i: int| Event::FileStatus { status: statuses[i] },
    )
}

proof fn lemma_occurrences_add(front: Seq<CallView>, back: Seq<CallView>, call: CallView)
    ensures
        occurrences(front + back, call) == occurrences(front, call) + occurrences(back, call),
    decreases back.len(),
{
    if back.len() == 0 {
        assert(front + back =~= front);
    } else {
        assert((front + back).drop_last() =~= front + back.drop_last());
        lemma_occurrences_add(front, back.drop_last(), call);
    }
}

proof fn lemma_occurrences_absent(list: Seq<CallView>, call: CallView)
    requires
        forall|i: int| 0 <= i < list.len() ==> list[i] != call,
    ensures
        occurrences(list, call) == 0,
    decreases list.len(),
{
    if list.len() > 0 {
        lemma_occurrences_absent(list.drop_last(), call);
    }
}

proof fn lemma_occurrences_single(only: CallView, call: CallView)
    ensures
        occurrences(seq![only], call) == if only == call {
            1nat
        } else {
            0nat
        },
{
    let list = seq![only];
    assert(list.drop_last().len() == 0);
    assert(occurrences(list.drop_last(), call) == 0);
    assert(list.last() == only);
}

proof fn lemma_occurrences_in_calls(event: Event)
    ensures
        occurrences(calls(event), CallView::Free) == if event is Copied {
            1nat
        } else {
            0nat
        },
        occurrences(calls(event), CallView::ClearAndFree) == if event is Release {
            1nat
        } else {
            0nat
        },
{
    let list = calls(event);
    if list.len() == 1 {
        assert(list =~= seq![list[0]]);
        lemma_occurrences_single(list[0], CallView::Free);
        lemma_occurrences_single(list[0], CallView::ClearAndFree);
    } else {
        lemma_occurrences_absent(list, CallView::Free);
        lemma_occurrences_absent(list, CallView::ClearAndFree);
    }
}

/// A released set is at its end: no event is accepted in it.
pub proof fn law_released_is_terminal(event: Event)
    ensures
        !enabled(State::Released, event),
{
}

/// A set reaches its end by the release that its owner asks for, and by
/// nothing else: no load and no lookup, whatever the foreign side answers,
/// leaves the set without its handle.
pub proof fn law_release_only_when_asked(state: State, event: Event)
    requires
        enabled(state, event),
    ensures
        next(state, event) is Released <==> event is Release,
{
}

/// Every buffer handed out is released once. In any run that the machine
/// accepts, the buffers owed at its start and those granted on the way are,
/// one for one, those whose release was asked for and those still owed at
/// its end. A run from a ready set to a ready or a released set therefore
/// asks for as many releases as buffers were granted: none leaks, none is
/// released twice.
pub proof fn law_buffers_released_once(state: State, events: Seq<Event>)
    requires
        accepts(state, events),
    ensures
        buffers_owed(state) + buffers_granted(events) == occurrences(
            issued(events),
            CallView::Free,
        ) + buffers_owed(run(state, events)),
    decreases events.len(),
{
    if events.len() > 0 {
        let front = events.drop_last();
        law_buffers_released_once(state, front);
        lemma_occurrences_add(issued(front), calls(events.last()), CallView::Free);
        lemma_occurrences_in_calls(events.last());
    }
}

/// The handle is given back at most once, and exactly once in a run that
/// ends in the released state.
pub proof fn law_handle_released_once(state: State, events: Seq<Event>)
    requires
        accepts(state, events),
        !(state is Released),
    ensures
        occurrences(issued(events), CallView::ClearAndFree) == if run(state, events) is Released {
            1nat
        } else {
            0nat
        },
    decreases events.len(),
{
    if events.len() > 0 {
        let front = events.drop_last();
        law_handle_released_once(state, front);
        lemma_occurrences_add(issued(front), calls(events.last()), CallView::ClearAndFree);
        lemma_occurrences_in_calls(events.last());
    }
}

/// A failed load is tolerated. Whatever status each file comes back with,
/// the machine accepts it, and after the last one the set is ready again,
/// as it was before the load.
pub proof fn law_load_tolerates_failure(paths: Seq<Seq<u8>>, statuses: Seq<i32>)
    requires
        statuses.len() == paths.len(),
    ensures
        accepts(State::Ready, load_events(paths, statuses)),
        run(State::Ready, load_events(paths, statuses)) == State::Ready,
{
    lemma_load_progress(paths, statuses, statuses.len());
    assert(load_events(paths, statuses.take(statuses.len() as int)) =~= load_events(
        paths,
        statuses,
    ));
}

proof fn lemma_load_progress(paths: Seq<Seq<u8>>, statuses: Seq<i32>, done: nat)
    requires
        statuses.len() == paths.len(),
        done <= statuses.len(),
    ensures
        accepts(State::Ready, load_events(paths, statuses.take(done as int))),
        run(State::Ready, load_events(paths, statuses.take(done as int))) == if done
            == paths.len() {
            State::Ready
        } else {
            State::Loading { due: (paths.len() - done) as nat }
        },
    decreases done,
{
    let events = load_events(paths, statuses.take(done as int));
    if done == 0 {
        assert(events.drop_last() =~= Seq::<Event>::empty());
        assert(events.last() == Event::AddFiles { paths });
        assert(accepts(State::Ready, events.drop_last()));
        assert(run(State::Ready, events.drop_last()) == State::Ready);
    } else {
        let before = load_events(paths, statuses.take(done - 1));
        lemma_load_progress(paths, statuses, (done - 1) as nat);
        assert(events.drop_last() =~= before);
        assert(events.last() == Event::FileStatus { status: statuses[done - 1] });
    }
}

} // verus!
