//! The bootstrap protocol: what an adapter under construction does to
//! make sure that its root prefix exists.
//!
//! The protocol is a machine of two phases. In each phase one call on the
//! store is pending, and the answer to it decides what follows: a further
//! call, a ready adapter, or a construction that has failed for good.
//! Nothing is retried and no failure is passed over.

use vstd::prelude::*;
use vstd::string::to_string_from_display_ensures;
use crate::client::is_not_found;
use crate::error::StorageError;

verus! {

/// The call that a construction waits for.
#[derive(Debug, Clone, Copy, PartialEq, Eq, Structural)]
pub enum Phase {
    /// The root prefix is probed for existence.
    Probing,
    /// The root prefix is created, after a probe that did not find it.
    Creating,
}

/// What the store answered to the pending call.
#[derive(Debug, Clone, PartialEq, Eq)]
pub enum Event {
    /// The call succeeded.
    Done,
    /// The store reported "not found", with its description.
    NotFound(String),
    /// The store reported any other failure, with its description.
    Failed(String),
}

/// Where a construction stands after an answer.
#[derive(Debug, Clone, PartialEq, Eq)]
pub enum Outcome {
    /// A further call is pending.
    Pending(Phase),
    /// The root prefix exists: the adapter is ready.
    Ready,
    /// The construction has failed, with the error that is surfaced.
    Failed(StorageError),
}

/// The protocol. A probe that succeeds ends it, a probe that finds nothing
/// is followed by a creation, and a creation that succeeds ends it. Every
/// other answer is fatal and carries its description over.
pub open spec fn next(phase: Phase, event: Event) -> Outcome {
    match (phase, event) {
        (_, Event::Done) => Outcome::Ready,
        (Phase::Probing, Event::NotFound(_)) => Outcome::Pending(Phase::Creating),
        (Phase::Creating, Event::NotFound(message)) => Outcome::Failed(
            StorageError::Bootstrap(message),
        ),
        (_, Event::Failed(message)) => Outcome::Failed(StorageError::Bootstrap(message)),
    }
}

/// Where a construction that is in `phase` stands after a sequence of
/// answers. Answers that come after the end of the protocol answer no call
/// and change nothing.
pub open spec fn run(phase: Phase, events: Seq<Event>) -> Outcome
    decreases events.len(),
{
    if events.len() == 0 {
        Outcome::Pending(phase)
    } else {
        match next(phase, events[0]) {
            Outcome::Pending(following) => run(following, events.drop_first()),
            done => done,
        }
    }
}

/// The number of creation calls that a construction in `phase` issues
/// while it takes a sequence of answers.
pub open spec fn creations(phase: Phase, events: Seq<Event>) -> nat
    decreases events.len(),
{
    if events.len() == 0 {
        0
    } else {
        match next(phase, events[0]) {
            Outcome::Pending(following) => {
                let issued: nat = if following == Phase::Creating {
                    1
                } else {
                    0
                };
                issued + creations(following, events.drop_first())
            },
            _ => 0,
        }
    }
}

/// Idempotence: a construction whose probe finds the root prefix is ready
/// at once and has issued no creation call.
pub proof fn lemma_existing_prefix_is_kept(events: Seq<Event>)
    requires
        events.len() > 0,
        events[0] == Event::Done,
    ensures
        run(Phase::Probing, events) == Outcome::Ready,
        creations(Phase::Probing, events) == 0,
{
}

/// Recovery: a construction whose probe does not find the root prefix,
/// and whose creation succeeds, is ready and has issued exactly one
/// creation call.
pub proof fn lemma_absent_prefix_is_created(events: Seq<Event>)
    requires
        events.len() > 1,
        events[0] is NotFound,
        events[1] == Event::Done,
    ensures
        run(Phase::Probing, events) == Outcome::Ready,
        creations(Phase::Probing, events) == 1,
{
    let rest = events.drop_first();
    assert(rest[0] == events[1]);
    assert(run(Phase::Creating, rest) == Outcome::Ready);
    assert(creations(Phase::Creating, rest) == 0);
}

/// No construction issues more than one creation call, whatever the store
/// answers.
pub proof fn lemma_at_most_one_creation(phase: Phase, events: Seq<Event>)
    ensures
        creations(phase, events) <= 1,
        phase == Phase::Creating ==> creations(phase, events) == 0,
    decreases events.len(),
{
    if events.len() > 0 {
        match next(phase, events[0]) {
            Outcome::Pending(following) => {
                lemma_at_most_one_creation(following, events.drop_first());
            },
            _ => {},
        }
    }
}

/// No failure is passed over: where a call is still pending after the
/// first `i` answers and the next answer is a failure other than "not
/// found", the construction has failed with `StorageError::Bootstrap` and
/// the description of that failure.
pub proof fn lemma_failure_is_surfaced(phase: Phase, events: Seq<Event>, i: int)
    requires
        0 <= i < events.len(),
        run(phase, events.take(i)) is Pending,
        events[i] is Failed,
    ensures
        run(phase, events) == Outcome::Failed(StorageError::Bootstrap(events[i]->Failed_0)),
    decreases i,
{
    if i == 0 {
    } else {
        let head = events.take(i);
        assert(head[0] == events[0]);
        match next(phase, events[0]) {
            Outcome::Pending(following) => {
                assert(head.drop_first() =~= events.drop_first().take(i - 1));
                lemma_failure_is_surfaced(following, events.drop_first(), i - 1);
            },
            _ => {},
        }
    }
}

/// A construction is ready only after a call that succeeded: without the
/// answer `Done` it never is.
pub proof fn lemma_ready_only_after_success(phase: Phase, events: Seq<Event>)
    requires
        run(phase, events) == Outcome::Ready,
    ensures
        exists|i: int| 0 <= i < events.len() && events[i] == Event::Done,
    decreases events.len(),
{
    if events.len() > 0 {
        match next(phase, events[0]) {
            Outcome::Pending(following) => {
                let rest = events.drop_first();
                lemma_ready_only_after_success(following, rest);
                let i = choose|i: int| 0 <= i < rest.len() && rest[i] == Event::Done;
                assert(events[i + 1] == Event::Done);
            },
            _ => {
                assert(events[0] == Event::Done);
            },
        }
    }
}

/// Takes the answer to the pending call and says where the construction
/// stands.
pub fn advance(phase: Phase, event: Event) -> (out: Outcome)
    ensures
        out == next(phase, event),
{
    match event {
        Event::Done => Outcome::Ready,
        Event::NotFound(message) => match phase {
            Phase::Probing => Outcome::Pending(Phase::Creating),
            Phase::Creating => Outcome::Failed(StorageError::Bootstrap(message)),
        },
        Event::Failed(message) => Outcome::Failed(StorageError::Bootstrap(message)),
    }
}

impl Event {
    /// The answer that a failure stands for, from whether it is a "not
    /// found" and from its description.
    pub fn of_failure(not_found: bool, message: String) -> (out: Event)
        ensures
            out == if not_found {
                Event::NotFound(message)
            } else {
                Event::Failed(message)
            },
    {
        if not_found {
            Event::NotFound(message)
        } else {
            Event::Failed(message)
        }
    }

    /// The answer that the result of a call on the store stands for.
    ///
    /// A success is `Done`. A failure is `NotFound` or `Failed`, as the
    /// object-store client classes it, and either carries the failure's
    /// description.
    pub fn of_result(result: Result<(), opendal::Error>) -> (out: Event)
        ensures
            match result {
                Ok(_) => out == Event::Done,
                Err(failure) => (out matches Event::NotFound(message)
                    && to_string_from_display_ensures::<opendal::Error>(&failure, message)) || (
                out matches Event::Failed(message) && to_string_from_display_ensures::<
                    opendal::Error,
                >(&failure, message)),
            },
    {
        match result {
            Ok(_) => Event::Done,
            Err(failure) => {
                let not_found: bool = is_not_found(&failure);
                Event::of_failure(not_found, failure.to_string())
            },
        }
    }
}

} // verus!
