//! The work on one (tenant, user) row, as a state machine.
//!
//! A task never talks to the store or to the remote services itself. It names
//! the next request as an [`Action`]; whoever drives it carries the request out
//! and reports what happened as an [`Event`]. Remote effects come before the
//! ledger is written, so a ledger row confirms them and never merely announces
//! them.

use vstd::prelude::*;

verus! {

/// A user within a tenant: the key of an anniversary and of an active grant.
#[derive(Clone, Copy, Debug, PartialEq, Eq, Structural)]
pub struct Pair {
    pub tenant: u64,
    pub user: u64,
}

/// Why a row was left as it was, to be taken up again on a later tick.
#[derive(Clone, Copy, Debug, PartialEq, Eq, Structural)]
pub enum RowError {
    /// The tenant has not set the role or the channel yet.
    ConfigurationMissing,
    /// The directory or the notification service refused or could not be reached.
    ExternalService,
    /// The store failed to answer a lookup or to take a write.
    Persistence,
    /// A stored identifier could not be read back.
    MalformedRecord,
}

/// How the work on a row ended.
#[derive(Clone, Copy, Debug, PartialEq, Eq, Structural)]
pub enum Outcome {
    /// The role was granted, the announcement posted and the grant recorded.
    Activated,
    /// The role was revoked and the grant removed from the ledger.
    Expired,
    /// Nothing was written to the ledger.
    Skipped(RowError),
}

/// A request to the store or to a remote service, or the end of the task.
#[derive(Clone, Copy, Debug, PartialEq, Eq, Structural)]
pub enum Action {
    /// Ask the store for the role the tenant grants.
    LookupRole { tenant: u64 },
    /// Ask the store for the channel the tenant announces in.
    LookupChannel { tenant: u64 },
    /// Ask the directory to give the user the role.
    GrantRole { pair: Pair, role: u64 },
    /// Ask the directory to take the role from the user.
    RevokeRole { pair: Pair, role: u64 },
    /// Post the anniversary announcement for the user in the channel.
    Announce { pair: Pair, channel: u64 },
    /// Record in the ledger that the user holds the role since `granted_at`.
    InsertGrant { pair: Pair, granted_at: i64 },
    /// Remove the user's grant from the ledger.
    DeleteGrant { pair: Pair },
    /// Nothing is left to do.
    Finish(Outcome),
}

/// What came back from carrying out an [`Action`].
#[derive(Clone, Copy, Debug, PartialEq, Eq, Structural)]
pub enum Event {
    /// A lookup found this identifier.
    Found(u64),
    /// A lookup found that the tenant has not set the value.
    NotConfigured,
    /// A lookup found a value that is no identifier.
    Malformed,
    /// A remote call or a ledger write went through.
    Succeeded,
    /// The request failed.
    Failed,
}

/// Which answer a task is waiting for.
#[derive(Clone, Copy, Debug, PartialEq, Eq, Structural)]
pub enum Stage {
    /// Expiry: waiting for the tenant's role.
    ExpireRole,
    /// Expiry: waiting for the directory to revoke.
    ExpireRevoke,
    /// Expiry: waiting for the ledger to drop the grant.
    ExpireDelete,
    /// Activation: waiting for the tenant's role.
    ActivateRole,
    /// Activation: waiting for the tenant's channel.
    ActivateChannel { role: u64 },
    /// Activation: waiting for the directory to grant.
    ActivateGrant { channel: u64 },
    /// Activation: waiting for the announcement to be posted.
    ActivateAnnounce,
    /// Activation: waiting for the ledger to record the grant.
    ActivateInsert,
    /// The task has ended.
    Done(Outcome),
}

/// The work on one row, part way through.
#[derive(Clone, Copy, Debug, PartialEq, Eq, Structural)]
pub struct RowTask {
    /// The row being worked on.
    pub pair: Pair,
    /// The time an activation records as the start of the grant.
    pub now: i64,
    /// What the task is waiting for.
    pub stage: Stage,
}

/// The task that expires the grant of `pair`, and its first request.
pub open spec fn spec_expire(pair: Pair) -> (RowTask, Action) {
    (RowTask { pair, now: 0, stage: Stage::ExpireRole }, Action::LookupRole { tenant: pair.tenant })
}

/// The task that activates `pair` at time `now`, and its first request.
pub open spec fn spec_activate(pair: Pair, now: i64) -> (RowTask, Action) {
    (RowTask { pair, now, stage: Stage::ActivateRole }, Action::LookupRole { tenant: pair.tenant })
}

/// The error a lookup ends the task with, unless it found an identifier.
pub open spec fn lookup_error(event: Event) -> RowError {
    match event {
        Event::NotConfigured => RowError::ConfigurationMissing,
        Event::Malformed => RowError::MalformedRecord,
        _ => RowError::Persistence,
    }
}

/// The transition function: the stage after `event`, and the next request.
///
/// An event that cannot answer the pending request counts as its failure. A
/// finished task stays finished and repeats its outcome.
pub open spec fn spec_step(task: RowTask, event: Event) -> (RowTask, Action) {
    let pair = task.pair;
    let stop = |error: RowError|
        (
            RowTask { stage: Stage::Done(Outcome::Skipped(error)), ..task },
            Action::Finish(Outcome::Skipped(error)),
        );
    match task.stage {
        Stage::ExpireRole => match event {
            Event::Found(role) => (
                RowTask { stage: Stage::ExpireRevoke, ..task },
                Action::RevokeRole { pair, role },
            ),
            _ => stop(lookup_error(event)),
        },
        Stage::ExpireRevoke => match event {
            Event::Succeeded => (
                RowTask { stage: Stage::ExpireDelete, ..task },
                Action::DeleteGrant { pair },
            ),
            _ => stop(RowError::ExternalService),
        },
        Stage::ExpireDelete => match event {
            Event::Succeeded => (
                RowTask { stage: Stage::Done(Outcome::Expired), ..task },
                Action::Finish(Outcome::Expired),
            ),
            _ => stop(RowError::Persistence),
        },
        Stage::ActivateRole => match event {
            Event::Found(role) => (
                RowTask { stage: Stage::ActivateChannel { role }, ..task },
                Action::LookupChannel { tenant: pair.tenant },
            ),
            _ => stop(lookup_error(event)),
        },
        Stage::ActivateChannel { role } => match event {
            Event::Found(channel) => (
                RowTask { stage: Stage::ActivateGrant { channel }, ..task },
                Action::GrantRole { pair, role },
            ),
            _ => stop(lookup_error(event)),
        },
        Stage::ActivateGrant { channel } => match event {
            Event::Succeeded => (
                RowTask { stage: Stage::ActivateAnnounce, ..task },
                Action::Announce { pair, channel },
            ),
            _ => stop(RowError::ExternalService),
        },
        Stage::ActivateAnnounce => match event {
            Event::Succeeded => (
                RowTask { stage: Stage::ActivateInsert, ..task },
                Action::InsertGrant { pair, granted_at: task.now },
            ),
            _ => stop(RowError::ExternalService),
        },
        Stage::ActivateInsert => match event {
            Event::Succeeded => (
                RowTask { stage: Stage::Done(Outcome::Activated), ..task },
                Action::Finish(Outcome::Activated),
            ),
            _ => stop(RowError::Persistence),
        },
        Stage::Done(outcome) => (task, Action::Finish(outcome)),
    }
}

/// How many more requests a task can make at most.
pub open spec fn spec_remaining(stage: Stage) -> nat {
    match stage {
        Stage::ExpireRole => 3,
        Stage::ExpireRevoke => 2,
        Stage::ExpireDelete => 1,
        Stage::ActivateRole => 5,
        Stage::ActivateChannel { .. } => 4,
        Stage::ActivateGrant { .. } => 3,
        Stage::ActivateAnnounce => 2,
        Stage::ActivateInsert => 1,
        Stage::Done(_) => 0,
    }
}

impl RowTask {
    /// Starts the expiry of the grant of `pair`: the role is looked up first.
    pub fn expire(pair: Pair) -> (started: (RowTask, Action))
        ensures
            started == spec_expire(pair),
    {
        (RowTask { pair, now: 0, stage: Stage::ExpireRole }, Action::LookupRole { tenant: pair.tenant })
    }

    /// Starts the activation of `pair`: the role and the channel are looked up
    /// before anything is asked of the directory. A grant that gets recorded
    /// holds `now` as its start.
    pub fn activate(pair: Pair, now: i64) -> (started: (RowTask, Action))
        ensures
            started == spec_activate(pair, now),
    {
        (
            RowTask { pair, now, stage: Stage::ActivateRole },
            Action::LookupRole { tenant: pair.tenant },
        )
    }

    /// Ends the task with `error`.
    fn stop(&mut self, error: RowError) -> (action: Action)
        ensures
            *final(self) == (RowTask { stage: Stage::Done(Outcome::Skipped(error)), ..*old(self) }),
            action == Action::Finish(Outcome::Skipped(error)),
    {
        self.stage = Stage::Done(Outcome::Skipped(error));
        Action::Finish(Outcome::Skipped(error))
    }

    /// Takes the answer to the pending request and names the next one.
    pub fn step(&mut self, event: Event) -> (action: Action)
        ensures
            (*final(self), action) == spec_step(*old(self), event),
            spec_remaining(old(self).stage) > 0 ==> spec_remaining(final(self).stage)
                < spec_remaining(old(self).stage),
    {
        let pair = self.pair;
        match self.stage {
            Stage::ExpireRole => match event {
                Event::Found(role) => {
                    self.stage = Stage::ExpireRevoke;
                    Action::RevokeRole { pair, role }
                },
                _ => self.stop(failed_lookup(event)),
            },
            Stage::ExpireRevoke => match event {
                Event::Succeeded => {
                    self.stage = Stage::ExpireDelete;
                    Action::DeleteGrant { pair }
                },
                _ => self.stop(RowError::ExternalService),
            },
            Stage::ExpireDelete => match event {
                Event::Succeeded => {
                    self.stage = Stage::Done(Outcome::Expired);
                    Action::Finish(Outcome::Expired)
                },
                _ => self.stop(RowError::Persistence),
            },
            Stage::ActivateRole => match event {
                Event::Found(role) => {
                    self.stage = Stage::ActivateChannel { role };
                    Action::LookupChannel { tenant: pair.tenant }
                },
                _ => self.stop(failed_lookup(event)),
            },
            Stage::ActivateChannel { role } => match event {
                Event::Found(channel) => {
                    self.stage = Stage::ActivateGrant { channel };
                    Action::GrantRole { pair, role }
                },
                _ => self.stop(failed_lookup(event)),
            },
            Stage::ActivateGrant { channel } => match event {
                Event::Succeeded => {
                    self.stage = Stage::ActivateAnnounce;
                    Action::Announce { pair, channel }
                },
                _ => self.stop(RowError::ExternalService),
            },
            Stage::ActivateAnnounce => match event {
                Event::Succeeded => {
                    self.stage = Stage::ActivateInsert;
                    Action::InsertGrant { pair, granted_at: self.now }
                },
                _ => self.stop(RowError::ExternalService),
            },
            Stage::ActivateInsert => match event {
                Event::Succeeded => {
                    self.stage = Stage::Done(Outcome::Activated);
                    Action::Finish(Outcome::Activated)
                },
                _ => self.stop(RowError::Persistence),
            },
            Stage::Done(outcome) => Action::Finish(outcome),
        }
    }

    /// The outcome, once the task has ended.
    pub fn outcome(&self) -> (ended: Option<Outcome>)
        ensures
            ended == match self.stage {
                Stage::Done(outcome) => Some(outcome),
                _ => None,
            },
    {
        match self.stage {
            Stage::Done(outcome) => Some(outcome),
            _ => None,
        }
    }
}

/// The error a lookup ends the task with, unless it found an identifier.
fn failed_lookup(event: Event) -> (error: RowError)
    ensures
        error == lookup_error(event),
{
    match event {
        Event::NotConfigured => RowError::ConfigurationMissing,
        Event::Malformed => RowError::MalformedRecord,
        _ => RowError::Persistence,
    }
}

} // verus!
