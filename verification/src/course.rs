//! What holds of every course that a decompression can take, whatever the
//! driver reports.

use crate::chain::{terminal_of, well_formed};
use crate::format::Format;
use crate::route::{route_of, Route};
use crate::session::{action_of, initial, next, Action, Event, Outcome, Session};
use vstd::prelude::*;

verus! {

/// The state after the driver has reported `events`, one after the other,
/// beginning in `state`.
pub open spec fn run(state: Session, events: Seq<Event>) -> Session
    decreases events.len(),
{
    if events.len() == 0 {
        state
    } else {
        next(run(state, events.drop_last()), events.last())
    }
}

/// The state after the first `step` of `events`.
pub open spec fn state_at(state: Session, events: Seq<Event>, step: int) -> Session
    recommends
        0 <= step <= events.len(),
{
    run(state, events.take(step))
}

/// The action that the driver is given after the first `step` of `events`.
pub open spec fn action_at(state: Session, events: Seq<Event>, step: int) -> Action
    recommends
        0 <= step <= events.len(),
{
    action_of(state_at(state, events, step))
}

/// A state in which the temporary directory exists and has not been
/// ordered away yet.
pub open spec fn holds_temp(state: Session) -> bool {
    state is Extracting || state is Listing || state is Resolving || state is Promoting
}

/// No event has passed at step zero, and each further step takes one
/// event.
pub proof fn lemma_state_at_unfolds(state: Session, events: Seq<Event>, step: int)
    requires
        0 <= step <= events.len(),
    ensures
        state_at(state, events, 0) == state,
        step > 0 ==> state_at(state, events, step) == next(
            state_at(state, events, step - 1),
            events[step - 1],
        ),
{
    assert(events.take(0).len() == 0);
    if step > 0 {
        assert(events.take(step).drop_last() == events.take(step - 1));
        assert(events.take(step).last() == events[step - 1]);
    }
}

/// The user is asked about loading into memory at the start or never: no
/// event leads back to that question.
pub proof fn lemma_memory_load_asked_at_start_only(state: Session, events: Seq<Event>, step: int)
    requires
        0 < step <= events.len(),
    ensures
        action_at(state, events, step) != Action::ConfirmMemoryLoad,
{
    lemma_state_at_unfolds(state, events, step);
}

/// A chain that is one container that seeks, and nothing else, is unpacked
/// without the question about loading into memory, in every course: the
/// container is read from the file itself.
pub proof fn lemma_direct_seekable_never_asks(layers: Seq<Format>, events: Seq<Event>, step: int)
    requires
        layers.len() == 1,
        layers[0].spec_requires_random_access(),
        0 <= step <= events.len(),
    ensures
        route_of(layers) == Route::SeekDirect,
        action_at(initial(route_of(layers)), events, step) != Action::ConfirmMemoryLoad,
{
    let state = initial(route_of(layers));
    lemma_state_at_unfolds(state, events, step);
    if step > 0 {
        lemma_memory_load_asked_at_start_only(state, events, step);
    }
}

/// On every route but the one that buffers, the question about loading
/// into memory is never asked.
pub proof fn lemma_unbuffered_routes_never_ask(route: Route, events: Seq<Event>, step: int)
    requires
        !route.spec_loads_into_memory(),
        0 <= step <= events.len(),
    ensures
        action_at(initial(route), events, step) != Action::ConfirmMemoryLoad,
{
    lemma_state_at_unfolds(initial(route), events, step);
    if step > 0 {
        lemma_memory_load_asked_at_start_only(initial(route), events, step);
    }
}

/// For a container that seeks behind filters, the question about loading
/// into memory is the first action and is asked that once; nothing is
/// extracted before it is answered.
pub proof fn lemma_wrapped_seekable_asks_once(layers: Seq<Format>, events: Seq<Event>, step: int)
    requires
        well_formed(layers),
        layers.len() > 1,
        terminal_of(layers).spec_requires_random_access(),
        0 <= step <= events.len(),
    ensures
        action_at(initial(route_of(layers)), events, 0) == Action::ConfirmMemoryLoad,
        step > 0 ==> action_at(initial(route_of(layers)), events, step)
            != Action::ConfirmMemoryLoad,
        action_at(initial(route_of(layers)), events, step) is Extract ==> step > 1,
{
    let state = initial(route_of(layers));
    lemma_state_at_unfolds(state, events, step);
    if step > 0 {
        lemma_memory_load_asked_at_start_only(state, events, step);
        lemma_state_at_unfolds(state, events, 1);
    }
}

/// Once a decompression has ended, it stays ended with the same outcome.
pub proof fn lemma_finished_stays(state: Session, events: Seq<Event>, from: int, step: int)
    requires
        0 <= from <= step <= events.len(),
        state_at(state, events, from) is Finished,
    ensures
        state_at(state, events, step) == state_at(state, events, from),
    decreases step - from,
{
    if from < step {
        lemma_finished_stays(state, events, from, step - 1);
        lemma_state_at_unfolds(state, events, step);
    }
}

/// When the user declines the question about loading into memory, the
/// decompression ends there: no action follows but the report that it was
/// aborted, so nothing is created, extracted or moved.
pub proof fn lemma_declined_memory_load_aborts(events: Seq<Event>, step: int)
    requires
        0 < step <= events.len(),
        events[0] == (Event::Answered { proceed: false }),
    ensures
        state_at(Session::ConfirmingMemoryLoad, events, step) == (Session::Finished {
            outcome: Outcome::Aborted,
        }),
        action_at(Session::ConfirmingMemoryLoad, events, step) == Action::Finish(Outcome::Aborted),
{
    lemma_state_at_unfolds(Session::ConfirmingMemoryLoad, events, 1);
    lemma_finished_stays(Session::ConfirmingMemoryLoad, events, 1, step);
}

/// When the user declines to have the way cleared for a promotion, the
/// temporary directory is ordered away next and the decompression ends as
/// aborted: no later action moves or writes anything.
pub proof fn lemma_declined_collision_aborts(
    state: Session,
    events: Seq<Event>,
    asked: int,
    step: int,
)
    requires
        0 <= asked < step <= events.len(),
        state_at(state, events, asked) is Resolving,
        events[asked] == (Event::Answered { proceed: false }),
    ensures
        action_at(state, events, asked + 1) == Action::RemoveTempDir,
        step > asked + 1 ==> action_at(state, events, step) == Action::Finish(Outcome::Aborted),
{
    lemma_state_at_unfolds(state, events, asked + 1);
    if step > asked + 1 {
        lemma_state_at_unfolds(state, events, asked + 2);
        lemma_finished_stays(state, events, asked + 2, step);
    }
}

/// When the user declines to have an existing file replaced by the decoded
/// one, the decompression ends there as aborted: nothing is written.
pub proof fn lemma_declined_output_file_aborts(state: Session, events: Seq<Event>, asked: int, step: int)
    requires
        0 <= asked < step <= events.len(),
        state_at(state, events, asked) is CreatingOutputFile,
        events[asked] == (Event::Answered { proceed: false }),
    ensures
        action_at(state, events, step) == Action::Finish(Outcome::Aborted),
{
    lemma_state_at_unfolds(state, events, asked + 1);
    lemma_finished_stays(state, events, asked + 1, step);
}

/// The temporary directory is removed on every way to the end: where it
/// exists at one step and the decompression has ended at a later one, its
/// removal was ordered in between. The step of that order is returned.
pub proof fn lemma_temp_removed_before_end(
    state: Session,
    events: Seq<Event>,
    held: int,
    ended: int,
) -> (removed: int)
    requires
        0 <= held < ended <= events.len(),
        holds_temp(state_at(state, events, held)),
        state_at(state, events, ended) is Finished,
    ensures
        held < removed < ended,
        action_at(state, events, removed) == Action::RemoveTempDir,
    decreases ended - held,
{
    lemma_state_at_unfolds(state, events, held + 1);
    let after = state_at(state, events, held + 1);
    assert(holds_temp(after) || after is Cleaning);
    if after is Cleaning {
        held + 1
    } else {
        lemma_temp_removed_before_end(state, events, held + 1, ended)
    }
}

/// The temporary directory comes to exist only as the answer to the order
/// to create it, and a decompression never ends while it exists.
pub proof fn lemma_temp_held_only_between_create_and_remove(state: Session, event: Event)
    ensures
        holds_temp(next(state, event)) && !holds_temp(state) ==> action_of(state)
            == Action::CreateTempDir && event == Event::Completed,
        holds_temp(state) ==> !(next(state, event) is Finished),
{
}

/// `state` lies on a course on which the extraction wrote `written`
/// entries: it carries that number, or it is on its way to an end that
/// reports that number or no number.
pub open spec fn counts(state: Session, written: usize) -> bool {
    match state {
        Session::Listing { written: carried } => carried == written,
        Session::Resolving { written: carried, .. } => carried == written,
        Session::Promoting { written: carried, .. } => carried == written,
        Session::Cleaning { outcome: Outcome::Unpacked { entries } } => entries == written,
        Session::Finished { outcome: Outcome::Unpacked { entries } } => entries == written,
        Session::Cleaning { .. } => true,
        Session::Finished { .. } => true,
        _ => false,
    }
}

/// The count that a finished decompression reports is the count that the
/// extraction gave: from the moment the extraction has reported `written`
/// entries, every course that ends with content in place ends with that
/// number.
pub proof fn lemma_reported_count_is_extracted_count(
    written: usize,
    events: Seq<Event>,
    step: int,
)
    requires
        0 <= step <= events.len(),
    ensures
        counts(state_at(Session::Listing { written }, events, step), written),
        state_at(Session::Listing { written }, events, step) matches Session::Finished {
            outcome: Outcome::Unpacked { entries },
        } ==> entries == written,
    decreases step,
{
    lemma_state_at_unfolds(Session::Listing { written }, events, step);
    if step > 0 {
        lemma_reported_count_is_extracted_count(written, events, step - 1);
    }
}

} // verus!
