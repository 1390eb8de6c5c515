//! The course of one decompression, as a machine that tells its driver
//! what to do next and hears from it what came of that.
//!
//! The machine touches no file. Its driver carries out each action on the
//! file system, or asks the user, and hands back an event. All that is
//! decided between two such steps is decided here.

use crate::chain::{ChainError, FormatChain, first_misplaced, well_formed};
use crate::format::Format;
use crate::route::{route, route_of, Route};
use crate::unpack::{promotion_for, smart_unpack, Promotion};
use vstd::prelude::*;

verus! {

/// The part that unpacks a container into the temporary directory.
#[derive(Clone, Copy, Debug, PartialEq, Eq, Structural)]
pub enum Extractor {
    /// Reads the container front to back from the decoded stream.
    Streaming,
    /// Reads a container that seeks from the file itself.
    SeekingFile,
    /// Decodes the filters into memory and reads a container that seeks
    /// from there.
    SeekingBuffer,
    /// Opens the container by the path of the file.
    SelfContained,
}

/// Why a decompression failed.
#[derive(Clone, Copy, Debug, PartialEq, Eq, Structural)]
pub enum Failure {
    /// The decoder or reader of this format refused its input.
    Codec(Format),
    /// The file system refused an operation.
    Io,
    /// The driver answered an action with an event that cannot follow it.
    InvariantViolation,
}

/// How a decompression ended.
#[derive(Clone, Copy, Debug, PartialEq, Eq, Structural)]
pub enum Outcome {
    /// The content is in place; `entries` entries were written.
    Unpacked { entries: usize },
    /// The user declined; nothing was placed.
    Aborted,
    /// The decompression failed; nothing was placed.
    Failed(Failure),
}

/// What the driver is to do next.
#[derive(Clone, Copy, Debug, PartialEq, Eq, Structural)]
pub enum Action {
    /// Warn that the whole content will be held in memory and ask whether
    /// to go on. Answered by `Answered`.
    ConfirmMemoryLoad,
    /// Create the file at the proposed path; where something is there
    /// already, ask first. Answered by `Answered`: no, where the user
    /// declined.
    CreateOutputFile,
    /// Decode all layers and write the bytes to the file that was created.
    /// Answered by `Completed`.
    CopyDecoded,
    /// Create a fresh temporary directory inside the destination directory.
    /// Answered by `Completed`.
    CreateTempDir,
    /// Unpack the container into the temporary directory. Answered by
    /// `Extracted` with the number of entries written.
    Extract(Extractor),
    /// Count the entries at the top level of the temporary directory.
    /// Answered by `Listed`.
    CountTempEntries,
    /// Make sure that nothing stands where the promotion will put its
    /// entry; where something does, ask whether it may go. Answered by
    /// `Answered`.
    ResolveCollision(Promotion),
    /// Move into place by one rename. Answered by `Completed`.
    Promote(Promotion),
    /// Remove the temporary directory with all that is left in it.
    /// Answered by any event.
    RemoveTempDir,
    /// Nothing more is to be done.
    Finish(Outcome),
}

/// What came of the last action.
#[derive(Clone, Copy, Debug, PartialEq, Eq, Structural)]
pub enum Event {
    /// The action was carried out.
    Completed,
    /// The extraction wrote this many entries.
    Extracted { entries: usize },
    /// The temporary directory holds this many entries at its top level.
    Listed { entries: usize },
    /// The user, or the policy that stands for the user, has answered.
    Answered { proceed: bool },
    /// The action failed, for this reason.
    Failed(Failure),
}

/// Where a decompression stands. Each state waits for the event that
/// answers its action.
#[derive(Clone, Copy, Debug, PartialEq, Eq, Structural)]
pub enum Session {
    ConfirmingMemoryLoad,
    CreatingOutputFile,
    Copying,
    CreatingTemp { extractor: Extractor },
    Extracting { extractor: Extractor },
    Listing { written: usize },
    Resolving { written: usize, promotion: Promotion },
    Promoting { written: usize, promotion: Promotion },
    Cleaning { outcome: Outcome },
    Finished { outcome: Outcome },
}

/// The state in which a decompression on `route` starts.
pub open spec fn initial(route: Route) -> Session {
    match route {
        Route::CopyToFile => Session::CreatingOutputFile,
        Route::StreamExtract => Session::CreatingTemp { extractor: Extractor::Streaming },
        Route::SeekDirect => Session::CreatingTemp { extractor: Extractor::SeekingFile },
        Route::SeekBuffered => Session::ConfirmingMemoryLoad,
        Route::FromPath => Session::CreatingTemp { extractor: Extractor::SelfContained },
    }
}

/// The outcome after an event that does not answer the action: a failure
/// that the driver reported is passed on with its reason, anything else is
/// a fault of the driver.
pub open spec fn failure_of(event: Event) -> Outcome {
    match event {
        Event::Failed(failure) => Outcome::Failed(failure),
        _ => Outcome::Failed(Failure::InvariantViolation),
    }
}

/// The action for which `state` waits.
pub open spec fn action_of(state: Session) -> Action {
    match state {
        Session::ConfirmingMemoryLoad => Action::ConfirmMemoryLoad,
        Session::CreatingOutputFile => Action::CreateOutputFile,
        Session::Copying => Action::CopyDecoded,
        Session::CreatingTemp { .. } => Action::CreateTempDir,
        Session::Extracting { extractor } => Action::Extract(extractor),
        Session::Listing { .. } => Action::CountTempEntries,
        Session::Resolving { promotion, .. } => Action::ResolveCollision(promotion),
        Session::Promoting { promotion, .. } => Action::Promote(promotion),
        Session::Cleaning { .. } => Action::RemoveTempDir,
        Session::Finished { outcome } => Action::Finish(outcome),
    }
}

/// The state after `event` has answered the action of `state`.
///
/// Before the temporary directory exists, a refusal or a failure ends the
/// decompression at once. Once it exists, every way to the end leads
/// through its removal.
pub open spec fn next(state: Session, event: Event) -> Session {
    match state {
        Session::ConfirmingMemoryLoad => match event {
            Event::Answered { proceed: true } => Session::CreatingTemp {
                extractor: Extractor::SeekingBuffer,
            },
            Event::Answered { proceed: false } => Session::Finished { outcome: Outcome::Aborted },
            _ => Session::Finished { outcome: failure_of(event) },
        },
        Session::CreatingOutputFile => match event {
            Event::Answered { proceed: true } => Session::Copying,
            Event::Answered { proceed: false } => Session::Finished { outcome: Outcome::Aborted },
            _ => Session::Finished { outcome: failure_of(event) },
        },
        Session::Copying => match event {
            Event::Completed => Session::Finished { outcome: Outcome::Unpacked { entries: 1 } },
            _ => Session::Finished { outcome: failure_of(event) },
        },
        Session::CreatingTemp { extractor } => match event {
            Event::Completed => Session::Extracting { extractor },
            _ => Session::Finished { outcome: failure_of(event) },
        },
        Session::Extracting { .. } => match event {
            Event::Extracted { entries } => Session::Listing { written: entries },
            _ => Session::Cleaning { outcome: failure_of(event) },
        },
        Session::Listing { written } => match event {
            Event::Listed { entries } => Session::Resolving {
                written,
                promotion: promotion_for(entries as int),
            },
            _ => Session::Cleaning { outcome: failure_of(event) },
        },
        Session::Resolving { written, promotion } => match event {
            Event::Answered { proceed: true } => Session::Promoting { written, promotion },
            Event::Answered { proceed: false } => Session::Cleaning { outcome: Outcome::Aborted },
            _ => Session::Cleaning { outcome: failure_of(event) },
        },
        Session::Promoting { written, .. } => match event {
            Event::Completed => Session::Cleaning {
                outcome: Outcome::Unpacked { entries: written },
            },
            _ => Session::Cleaning { outcome: failure_of(event) },
        },
        Session::Cleaning { outcome } => Session::Finished { outcome },
        Session::Finished { outcome } => Session::Finished { outcome },
    }
}

fn failure(event: Event) -> (outcome: Outcome)
    ensures
        outcome == failure_of(event),
{
    match event {
        Event::Failed(failure) => Outcome::Failed(failure),
        _ => Outcome::Failed(Failure::InvariantViolation),
    }
}

impl Session {
    /// The state in which a decompression on `route` starts.
    pub fn start(route: Route) -> (state: Session)
        ensures
            state == initial(route),
    {
        match route {
            Route::CopyToFile => Session::CreatingOutputFile,
            Route::StreamExtract => Session::CreatingTemp { extractor: Extractor::Streaming },
            Route::SeekDirect => Session::CreatingTemp { extractor: Extractor::SeekingFile },
            Route::SeekBuffered => Session::ConfirmingMemoryLoad,
            Route::FromPath => Session::CreatingTemp { extractor: Extractor::SelfContained },
        }
    }

    /// What the driver is to do now.
    pub fn action(&self) -> (action: Action)
        ensures
            action == action_of(*self),
    {
        match *self {
            Session::ConfirmingMemoryLoad => Action::ConfirmMemoryLoad,
            Session::CreatingOutputFile => Action::CreateOutputFile,
            Session::Copying => Action::CopyDecoded,
            Session::CreatingTemp { .. } => Action::CreateTempDir,
            Session::Extracting { extractor } => Action::Extract(extractor),
            Session::Listing { .. } => Action::CountTempEntries,
            Session::Resolving { promotion, .. } => Action::ResolveCollision(promotion),
            Session::Promoting { promotion, .. } => Action::Promote(promotion),
            Session::Cleaning { .. } => Action::RemoveTempDir,
            Session::Finished { outcome } => Action::Finish(outcome),
        }
    }

    /// The outcome, once the decompression has ended.
    pub fn outcome(&self) -> (outcome: Option<Outcome>)
        ensures
            outcome == match *self {
                Session::Finished { outcome } => Some(outcome),
                _ => None,
            },
    {
        match *self {
            Session::Finished { outcome } => Some(outcome),
            _ => None,
        }
    }

    /// Takes the event that answers the current action and moves on.
    pub fn advance(self, event: Event) -> (after: Session)
        ensures
            after == next(self, event),
    {
        match self {
            Session::ConfirmingMemoryLoad => match event {
                Event::Answered { proceed } => if proceed {
                    Session::CreatingTemp { extractor: Extractor::SeekingBuffer }
                } else {
                    Session::Finished { outcome: Outcome::Aborted }
                },
                _ => Session::Finished { outcome: failure(event) },
            },
            Session::CreatingOutputFile => match event {
                Event::Answered { proceed } => if proceed {
                    Session::Copying
                } else {
                    Session::Finished { outcome: Outcome::Aborted }
                },
                _ => Session::Finished { outcome: failure(event) },
            },
            Session::Copying => match event {
                Event::Completed => Session::Finished { outcome: Outcome::Unpacked { entries: 1 } },
                _ => Session::Finished { outcome: failure(event) },
            },
            Session::CreatingTemp { extractor } => match event {
                Event::Completed => Session::Extracting { extractor },
                _ => Session::Finished { outcome: failure(event) },
            },
            Session::Extracting { .. } => match event {
                Event::Extracted { entries } => Session::Listing { written: entries },
                _ => Session::Cleaning { outcome: failure(event) },
            },
            Session::Listing { written } => match event {
                Event::Listed { entries } => Session::Resolving {
                    written,
                    promotion: smart_unpack(entries),
                },
                _ => Session::Cleaning { outcome: failure(event) },
            },
            Session::Resolving { written, promotion } => match event {
                Event::Answered { proceed } => if proceed {
                    Session::Promoting { written, promotion }
                } else {
                    Session::Cleaning { outcome: Outcome::Aborted }
                },
                _ => Session::Cleaning { outcome: failure(event) },
            },
            Session::Promoting { written, .. } => match event {
                Event::Completed => Session::Cleaning {
                    outcome: Outcome::Unpacked { entries: written },
                },
                _ => Session::Cleaning { outcome: failure(event) },
            },
            Session::Cleaning { outcome } => Session::Finished { outcome },
            Session::Finished { outcome } => Session::Finished { outcome },
        }
    }
}

/// Starts the decompression of a file whose layers are `formats`,
/// outermost first. A list that is no chain is refused before anything is
/// done; otherwise the chain comes back with the state whose action is
/// the first thing to do.
pub fn decompress_file(formats: Vec<Format>) -> (started: Result<(FormatChain, Session), ChainError>)
    ensures
        started is Ok <==> well_formed(formats@),
        match started {
            Ok((chain, session)) => chain@ == formats@ && session == initial(route_of(formats@)),
            Err(ChainError::Empty) => formats@.len() == 0,
            Err(ChainError::MisplacedContainer { index }) => first_misplaced(
                formats@,
                index as int,
            ),
        },
{
    match FormatChain::new(formats) {
        Ok(chain) => {
            let session = Session::start(route(&chain));
            Ok((chain, session))
        },
        Err(error) => Err(error),
    }
}

} // verus!
