//! The destination directory and the temporary directory, as far as the
//! placement of unpacked content is concerned, and what the placing
//! actions make of them.
//!
//! This is a model: it says what the driver's actions are meant to do to
//! the two directories, so that the outcome of a placement can be stated.

use crate::session::{action_of, next, Action, Event, Outcome, Session};
use crate::unpack::{promotion_for, Promotion};
use vstd::prelude::*;

verus! {

/// What stands under a name at the top level of the destination directory.
pub enum Content {
    /// Something that was there before the decompression.
    Earlier,
    /// An entry that came out of the archive and was moved there as it is.
    Entry,
    /// A directory that holds the entries of these names, as they came out
    /// of the archive.
    Directory(Set<Seq<char>>),
}

/// The two directories.
pub struct Disk {
    /// The top level of the destination directory, the temporary directory
    /// left aside.
    pub destination: Map<Seq<char>, Content>,
    /// The names at the top level of the temporary directory, or nothing
    /// while it does not exist.
    pub temp: Option<Set<Seq<char>>>,
}

/// The name in the destination directory under which `promotion` places
/// its entry: the name of the only entry, or the name of the proposed
/// path.
pub open spec fn target_of(promotion: Promotion, disk: Disk, proposed: Seq<char>) -> Seq<char> {
    match (promotion, disk.temp) {
        (Promotion::SoleEntry, Some(entries)) => entries.choose(),
        _ => proposed,
    }
}

/// The directories after `action` was answered by `event`. Clearing the
/// way removes what stood at the target; a promotion is one rename, of the
/// only entry or of the temporary directory itself; the removal leaves no
/// temporary directory. An action that failed, was declined, or does not
/// place anything leaves both directories as they were.
pub open spec fn effect(action: Action, event: Event, disk: Disk, proposed: Seq<char>) -> Disk {
    match (action, event, disk.temp) {
        (Action::ResolveCollision(promotion), Event::Answered { proceed: true }, _) => Disk {
            destination: disk.destination.remove(target_of(promotion, disk, proposed)),
            temp: disk.temp,
        },
        (Action::Promote(Promotion::SoleEntry), Event::Completed, Some(entries)) => Disk {
            destination: disk.destination.insert(entries.choose(), Content::Entry),
            temp: Some(entries.remove(entries.choose())),
        },
        (Action::Promote(Promotion::WholeDirectory), Event::Completed, Some(entries)) => Disk {
            destination: disk.destination.insert(proposed, Content::Directory(entries)),
            temp: None,
        },
        (Action::RemoveTempDir, Event::Completed, _) => Disk {
            destination: disk.destination,
            temp: None,
        },
        _ => disk,
    }
}

/// One step of a decompression together with what it does to the
/// directories.
pub open spec fn step(state: Session, disk: Disk, proposed: Seq<char>, event: Event) -> (
    Session,
    Disk,
) {
    (next(state, event), effect(action_of(state), event, disk, proposed))
}

/// The state and the directories after a placement in which the driver
/// found `listed` entries, the user gave the answer `proceed` where the
/// way had to be cleared, and every action succeeded.
pub open spec fn placed(
    written: usize,
    disk: Disk,
    proposed: Seq<char>,
    listed: usize,
    proceed: bool,
) -> (Session, Disk) {
    let counted = step(Session::Listing { written }, disk, proposed, Event::Listed { entries: listed });
    let resolved = step(counted.0, counted.1, proposed, Event::Answered { proceed });
    if proceed {
        let promoted = step(resolved.0, resolved.1, proposed, Event::Completed);
        step(promoted.0, promoted.1, proposed, Event::Completed)
    } else {
        step(resolved.0, resolved.1, proposed, Event::Completed)
    }
}

/// The actions of a placement that goes ahead: count, clear the way, move
/// by one rename, remove the temporary directory, report.
pub proof fn lemma_placement_actions(written: usize, listed: usize)
    ensures
        ({
            let promotion = promotion_for(listed as int);
            let counting = Session::Listing { written };
            let resolving = next(counting, Event::Listed { entries: listed });
            let promoting = next(resolving, Event::Answered { proceed: true });
            let cleaning = next(promoting, Event::Completed);
            let finished = next(cleaning, Event::Completed);
            &&& action_of(counting) == Action::CountTempEntries
            &&& action_of(resolving) == Action::ResolveCollision(promotion)
            &&& action_of(promoting) == Action::Promote(promotion)
            &&& action_of(cleaning) == Action::RemoveTempDir
            &&& action_of(finished) == Action::Finish(Outcome::Unpacked { entries: written })
        }),
{
}

/// An only entry is promoted by itself: when the temporary directory holds
/// one entry, of the name `name`, and the placement goes ahead, that entry
/// stands in the destination directory under `name`, nothing else there
/// has changed, and the temporary directory is gone. In a destination
/// directory that was empty, `name` is then all there is.
pub proof fn lemma_sole_entry_promoted(
    written: usize,
    disk: Disk,
    proposed: Seq<char>,
    name: Seq<char>,
)
    requires
        disk.temp == Some(set![name]),
    ensures
        placed(written, disk, proposed, 1, true).0 == (Session::Finished {
            outcome: Outcome::Unpacked { entries: written },
        }),
        placed(written, disk, proposed, 1, true).1.destination == disk.destination.insert(
            name,
            Content::Entry,
        ),
        placed(written, disk, proposed, 1, true).1.temp is None,
        disk.destination == Map::<Seq<char>, Content>::empty() ==> placed(
            written,
            disk,
            proposed,
            1,
            true,
        ).1.destination.dom() == set![name],
{
    let entries = set![name];
    assert(entries.contains(name));
    assert(entries.contains(entries.choose()));
    assert(entries.choose() == name);
    let end = placed(written, disk, proposed, 1, true).1;
    assert(end.destination == disk.destination.remove(name).insert(name, Content::Entry));
    assert(disk.destination.remove(name).insert(name, Content::Entry)
        == disk.destination.insert(name, Content::Entry));
    if disk.destination == Map::<Seq<char>, Content>::empty() {
        assert(end.destination.dom() == set![name]);
    }
}

/// Several entries stay together: when the temporary directory holds any
/// number of entries but one and the placement goes ahead, the directory
/// at the proposed path holds exactly those entries, nothing else in the
/// destination directory has changed, and the temporary directory is gone
/// from where it was.
pub proof fn lemma_whole_directory_promoted(
    written: usize,
    disk: Disk,
    proposed: Seq<char>,
    entries: Set<Seq<char>>,
    listed: usize,
)
    requires
        disk.temp == Some(entries),
        entries.finite(),
        listed == entries.len(),
        listed != 1,
    ensures
        placed(written, disk, proposed, listed, true).0 == (Session::Finished {
            outcome: Outcome::Unpacked { entries: written },
        }),
        placed(written, disk, proposed, listed, true).1.destination == disk.destination.insert(
            proposed,
            Content::Directory(entries),
        ),
        placed(written, disk, proposed, listed, true).1.temp is None,
{
    let end = placed(written, disk, proposed, listed, true).1;
    assert(end.destination == disk.destination.remove(proposed).insert(
        proposed,
        Content::Directory(entries),
    ));
    assert(disk.destination.remove(proposed).insert(proposed, Content::Directory(entries))
        == disk.destination.insert(proposed, Content::Directory(entries)));
}

/// A declined collision changes nothing: whatever the temporary directory
/// holds, when the user does not let the way be cleared, the destination
/// directory is as it was, the temporary directory is removed, and the
/// decompression ends as aborted.
pub proof fn lemma_declined_placement_changes_nothing(
    written: usize,
    disk: Disk,
    proposed: Seq<char>,
    listed: usize,
)
    ensures
        placed(written, disk, proposed, listed, false).0 == (Session::Finished {
            outcome: Outcome::Aborted,
        }),
        placed(written, disk, proposed, listed, false).1.destination == disk.destination,
        placed(written, disk, proposed, listed, false).1.temp is None,
{
}

/// Only three actions touch the directories, and of those only the
/// clearing of the way and the promotion touch the destination directory:
/// every other step leaves it as it was.
pub proof fn lemma_destination_changes_only_by_placement(
    state: Session,
    disk: Disk,
    proposed: Seq<char>,
    event: Event,
)
    ensures
        !(state is Resolving || state is Promoting) ==> step(
            state,
            disk,
            proposed,
            event,
        ).1.destination == disk.destination,
        event is Failed || event == (Event::Answered { proceed: false }) ==> step(
            state,
            disk,
            proposed,
            event,
        ).1 == disk,
{
}

} // verus!
