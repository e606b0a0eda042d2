//! Pushing a resolved status: what to do next, given what has happened.
//!
//! The caller does the work, the remote call and the writing of the cache,
//! and reports after each whether it succeeded. The cache is written only
//! after the remote profile took the update.

use vstd::prelude::*;

use crate::address::IpAddress;
use crate::cache::{Cache, CacheView, StatusRecord};
use crate::clock::expiration_of;
use crate::config::{ConfigView, StatusTemplate};
use crate::error::StatusError;
use crate::resolver::{resolution, Resolution};

verus! {

/// The steps of an update, as mathematical values.
pub enum Step {
    Send(CacheView),
    Save(CacheView),
    Done(Result<(), StatusError>),
}

/// What is to be done next in an update.
#[derive(Debug, PartialEq, Eq)]
pub enum Update {
    /// Send the entry's status, with its expiration, to the remote profile.
    Send(Cache),
    /// The remote profile took the status: store the entry as the cache.
    Save(Cache),
    /// Nothing is left to do; this is how the update ended.
    Done(Result<(), StatusError>),
}

impl View for Update {
    type V = Step;

    open spec fn view(&self) -> Step {
        match *self {
            Update::Send(entry) => Step::Send(entry@),
            Update::Save(entry) => Step::Save(entry@),
            Update::Done(outcome) => Step::Done(outcome),
        }
    }
}

/// The cache entry that records a resolved status once it is pushed.
pub open spec fn entry_of(resolved: Resolution, manually_set: bool) -> CacheView {
    CacheView {
        status: StatusRecord {
            text: resolved.status.text,
            emoji: resolved.status.emoji,
            expiration: resolved.computed_expiration as i64,
        },
        manually_set,
    }
}

/// How an update begins: a suppressed resolution is done at once, with
/// success and nothing sent; any other is sent.
pub open spec fn first_step(resolved: Resolution, manually_set: bool) -> Step {
    if resolved.suppress_update {
        Step::Done(Ok(()))
    } else {
        Step::Send(entry_of(resolved, manually_set))
    }
}

/// The step that follows `step`, given whether the work it asked for
/// succeeded.
pub open spec fn next_step(step: Step, succeeded: bool) -> Step {
    match step {
        Step::Send(entry) => if succeeded {
            Step::Save(entry)
        } else {
            Step::Done(Err(StatusError::UpdateFailed))
        },
        Step::Save(_) => if succeeded {
            Step::Done(Ok(()))
        } else {
            Step::Done(Err(StatusError::CacheUnwritable))
        },
        Step::Done(outcome) => Step::Done(outcome),
    }
}

/// How many pieces of work an update is away from its end.
pub open spec fn steps_left(step: Step) -> nat {
    match step {
        Step::Send(_) => 2,
        Step::Save(_) => 1,
        Step::Done(_) => 0,
    }
}

impl Update {
    /// The step that follows, given whether the work that this one asked
    /// for succeeded.
    pub fn advance(self, succeeded: bool) -> (next: Update)
        ensures
            next@ == next_step(self@, succeeded),
    {
        match self {
            Update::Send(entry) => if succeeded {
                Update::Save(entry)
            } else {
                Update::Done(Err(StatusError::UpdateFailed))
            },
            Update::Save(_) => if succeeded {
                Update::Done(Ok(()))
            } else {
                Update::Done(Err(StatusError::CacheUnwritable))
            },
            Update::Done(outcome) => Update::Done(outcome),
        }
    }
}

/// A status asked for by hand goes on record as set by hand, whatever the
/// cache held before: its update begins by sending the status with the
/// expiration resolved, and the entry to store says that it was set
/// manually.
pub proof fn lemma_override_is_recorded_manual(
    config: ConfigView,
    ip: IpAddress,
    cache: Option<CacheView>,
    status: StatusTemplate,
    now: int,
)
    ensures
        first_step(resolution(config, ip, cache, Some(status), now), true) == Step::Send(
            CacheView {
                status: StatusRecord {
                    text: status.text,
                    emoji: status.emoji,
                    expiration: expiration_of(status.expire_after_hours, now) as i64,
                },
                manually_set: true,
            },
        ),
        next_step(
            first_step(resolution(config, ip, cache, Some(status), now), true),
            true,
        ) matches Step::Save(entry) && entry.manually_set,
{
}

/// A suppressed resolution sends nothing and stores nothing: its update is
/// done before it began, with success.
pub proof fn lemma_suppressed_update_is_noop(resolved: Resolution, manually_set: bool, succeeded: bool)
    requires
        resolved.suppress_update,
    ensures
        first_step(resolved, manually_set) == Step::Done(Ok(())),
        next_step(first_step(resolved, manually_set), succeeded) == Step::Done(Ok(())),
{
}

/// The cache is written only with the entry that was sent, and only after
/// the remote profile took it: a failed send ends the update with the cache
/// untouched.
pub proof fn lemma_save_follows_send(step: Step, succeeded: bool)
    ensures
        next_step(step, succeeded) matches Step::Save(entry) ==> succeeded && step == Step::Send(
            entry,
        ),
        step is Send && !succeeded ==> next_step(step, succeeded) == Step::Done(
            Err(StatusError::UpdateFailed),
        ),
{
}

/// Every piece of work brings an update nearer its end, which it reaches
/// after two at most; an update that succeeded went through the writing of
/// the cache or had nothing to send.
pub proof fn lemma_update_ends(step: Step, succeeded: bool)
    ensures
        steps_left(step) <= 2,
        !(step is Done) ==> steps_left(next_step(step, succeeded)) < steps_left(step),
        step is Done ==> next_step(step, succeeded) == step,
{
}

} // verus!
