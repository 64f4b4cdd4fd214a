//! One tick of the reconciler, as a state machine over whole rows.
//!
//! A tick asks the store for the expired grants and works on each, then asks
//! for the anniversaries that are due and works on each. The order matters: a
//! grant that expires on a day on which its anniversary falls again is
//! removed first and made anew afterwards. The reconciler names what is to
//! be done as a [`Directive`] and is told what came of it as a [`Feedback`];
//! how a single row fares never keeps the next one from being worked on.

use vstd::prelude::*;
use crate::calendar::{Moment, MonthDay};
use crate::clock::utc_now;
use crate::ident::Listing;
use crate::task::{spec_activate, spec_expire, Action, Outcome, Pair, RowError, RowTask};

verus! {

/// What a tick did, by the way its rows ended. Each count stops at the
/// largest value it can hold.
#[derive(Clone, Copy, Debug, PartialEq, Eq, Structural)]
pub struct Report {
    /// Rows that were activated.
    pub activated: u64,
    /// Rows whose grant was expired.
    pub expired: u64,
    /// Rows skipped because the tenant lacks a setting.
    pub configuration_missing: u64,
    /// Rows skipped because a remote service failed.
    pub external_service: u64,
    /// Rows skipped because the store failed, and listings that failed.
    pub persistence: u64,
    /// Rows and settings that could not be read back.
    pub malformed: u64,
}

/// `count` and `by` more, stopping at the largest value.
pub open spec fn raised(count: u64, by: nat) -> u64 {
    if count + by <= u64::MAX {
        (count + by) as u64
    } else {
        u64::MAX
    }
}

/// The report of a tick on which nothing has happened yet.
pub open spec fn blank() -> Report {
    Report {
        activated: 0,
        expired: 0,
        configuration_missing: 0,
        external_service: 0,
        persistence: 0,
        malformed: 0,
    }
}

impl Report {
    /// The report with one more row that ended in `outcome`.
    pub open spec fn with(self, outcome: Outcome) -> Report {
        match outcome {
            Outcome::Activated => Report { activated: raised(self.activated, 1), ..self },
            Outcome::Expired => Report { expired: raised(self.expired, 1), ..self },
            Outcome::Skipped(RowError::ConfigurationMissing) => Report {
                configuration_missing: raised(self.configuration_missing, 1),
                ..self
            },
            Outcome::Skipped(RowError::ExternalService) => Report {
                external_service: raised(self.external_service, 1),
                ..self
            },
            Outcome::Skipped(RowError::Persistence) => Report {
                persistence: raised(self.persistence, 1),
                ..self
            },
            Outcome::Skipped(RowError::MalformedRecord) => Report {
                malformed: raised(self.malformed, 1),
                ..self
            },
        }
    }

    /// The report of a tick on which nothing has happened yet.
    pub fn new() -> (report: Report)
        ensures
            report == blank(),
    {
        Report {
            activated: 0,
            expired: 0,
            configuration_missing: 0,
            external_service: 0,
            persistence: 0,
            malformed: 0,
        }
    }

    /// Counts one more row that ended in `outcome`.
    pub fn record(&mut self, outcome: Outcome)
        ensures
            *final(self) == old(self).with(outcome),
    {
        match outcome {
            Outcome::Activated => self.activated = self.activated.saturating_add(1),
            Outcome::Expired => self.expired = self.expired.saturating_add(1),
            Outcome::Skipped(RowError::ConfigurationMissing) => self.configuration_missing =
                self.configuration_missing.saturating_add(1),
            Outcome::Skipped(RowError::ExternalService) => self.external_service =
                self.external_service.saturating_add(1),
            Outcome::Skipped(RowError::Persistence) => self.persistence =
                self.persistence.saturating_add(1),
            Outcome::Skipped(RowError::MalformedRecord) => self.malformed =
                self.malformed.saturating_add(1),
        }
    }

    /// How many rows ended without a change to the ledger.
    pub fn skipped(&self) -> (count: u64)
        ensures
            count == raised(
                0,
                (self.configuration_missing + self.external_service + self.persistence
                    + self.malformed) as nat,
            ),
    {
        self.configuration_missing.saturating_add(self.external_service).saturating_add(
            self.persistence,
        ).saturating_add(self.malformed)
    }
}

/// Whether more than `window` seconds have passed at `now` since `granted_at`.
pub open spec fn spec_outlived(granted_at: i64, now: i64, window: u64) -> bool {
    now - granted_at > window
}

/// The time before which a grant must have been made to count as expired at
/// `now`: `window` seconds earlier, or the earliest time there is.
pub open spec fn spec_cutoff(now: i64, window: u64) -> i64 {
    if now - window >= i64::MIN {
        (now - window) as i64
    } else {
        i64::MIN
    }
}

/// The time before which a grant must have been made to count as expired at
/// `now`. A grant is expired when more than `window` seconds have passed
/// since it was made, and that is so exactly of the grants made before the
/// time returned.
pub fn cutoff(now: i64, window: u64) -> (before: i64)
    ensures
        before == spec_cutoff(now, window),
        forall|granted_at: i64| #[trigger]
            spec_outlived(granted_at, now, window) <==> granted_at < before,
{
    let earliest: i128 = now as i128 - window as i128;
    if earliest >= i64::MIN as i128 {
        earliest as i64
    } else {
        i64::MIN
    }
}

/// Where a tick stands.
#[derive(Clone, Copy, Debug, PartialEq, Eq, Structural)]
pub enum Phase {
    /// No tick is under way.
    Idle,
    /// Waiting for the list of expired grants.
    ListingExpired,
    /// Waiting for the work on an expired grant to end.
    Expiring,
    /// Waiting for the list of due anniversaries.
    ListingDue,
    /// Waiting for the work on a due anniversary to end.
    Activating,
}

/// What the driver of a tick is to do next.
#[derive(Clone, Copy, Debug, PartialEq, Eq, Structural)]
pub enum Directive {
    /// List the pairs that hold a grant made before `cutoff`.
    ListExpired { cutoff: i64 },
    /// List the pairs whose anniversary is `today` and that hold no grant.
    ListDue { today: MonthDay },
    /// Drive `task` to its end, starting with the request `action`.
    Work { task: RowTask, action: Action },
    /// The tick is over.
    Rest(Report),
}

/// What came of a [`Directive`].
#[derive(Debug, PartialEq, Eq)]
pub enum Feedback {
    /// The rows of a listing.
    Rows(Listing),
    /// The store failed to list.
    ListingFailed,
    /// How the task of a row ended.
    Row(Outcome),
}

/// A [`Feedback`] as contracts see it.
pub enum Reply {
    Rows { pairs: Seq<Pair>, malformed: nat },
    ListingFailed,
    Row(Outcome),
}

impl View for Feedback {
    type V = Reply;

    open spec fn view(&self) -> Reply {
        match self {
            Feedback::Rows(listing) => Reply::Rows {
                pairs: listing.pairs@,
                malformed: listing.malformed as nat,
            },
            Feedback::ListingFailed => Reply::ListingFailed,
            Feedback::Row(outcome) => Reply::Row(*outcome),
        }
    }
}

/// The reconciler: the retention window it was made with, and the tick that
/// is under way, if one is.
#[derive(Debug)]
pub struct Reconciler {
    window: u64,
    now: Moment,
    phase: Phase,
    queue: Vec<Pair>,
    next: usize,
    report: Report,
}

/// A [`Reconciler`] as contracts see it.
pub struct State {
    /// How long a grant lasts, in seconds.
    pub window: u64,
    /// The time of the tick under way.
    pub now: Moment,
    /// Where the tick stands.
    pub phase: Phase,
    /// The rows of the pass under way.
    pub queue: Seq<Pair>,
    /// How many rows of the queue have been worked on.
    pub next: nat,
    /// What the tick has done so far.
    pub report: Report,
}

impl View for Reconciler {
    type V = State;

    closed spec fn view(&self) -> State {
        State {
            window: self.window,
            now: self.now,
            phase: self.phase,
            queue: self.queue@,
            next: self.next as nat,
            report: self.report,
        }
    }
}

/// The state of a reconciler that has not run a tick yet.
pub open spec fn at_rest(window: u64) -> State {
    State {
        window,
        now: Moment { unix_secs: 0, year: 1970, today: MonthDay { month: 1, day: 1 } },
        phase: Phase::Idle,
        queue: Seq::empty(),
        next: 0,
        report: blank(),
    }
}

/// The state at the start of a tick at `now`, and its first directive.
/// Whatever was under way is given up; no row of it is half done, since the
/// ledger is written last.
pub open spec fn spec_begin(s: State, now: Moment) -> (State, Directive) {
    (
        State {
            window: s.window,
            now,
            phase: Phase::ListingExpired,
            queue: Seq::empty(),
            next: 0,
            report: blank(),
        },
        Directive::ListExpired { cutoff: spec_cutoff(now.unix_secs, s.window) },
    )
}

/// The state once a listing has come in: its rows are queued. A listing that
/// failed, or anything else in its place, counts as a failure of the store
/// and queues nothing.
pub open spec fn loaded(s: State, reply: Reply) -> State {
    match reply {
        Reply::Rows { pairs, malformed } => State {
            queue: pairs,
            next: 0,
            report: Report { malformed: raised(s.report.malformed, malformed), ..s.report },
            ..s
        },
        _ => State {
            queue: Seq::empty(),
            next: 0,
            report: s.report.with(Outcome::Skipped(RowError::Persistence)),
            ..s
        },
    }
}

/// The state once the work on a row has ended: the row is counted and the
/// next one is up. Anything else in place of an outcome counts as a failure
/// of the store on that row.
pub open spec fn settled(s: State, reply: Reply) -> State {
    State {
        next: if s.next < s.queue.len() {
            s.next + 1
        } else {
            s.next
        },
        report: s.report.with(
            match reply {
                Reply::Row(outcome) => outcome,
                _ => Outcome::Skipped(RowError::Persistence),
            },
        ),
        ..s
    }
}

/// Goes on with the expiry pass: the next row, or the listing of what is due.
pub open spec fn expire_next(s: State) -> (State, Directive) {
    if s.next < s.queue.len() {
        let started = spec_expire(s.queue[s.next as int]);
        (State { phase: Phase::Expiring, ..s }, Directive::Work { task: started.0, action: started.1 })
    } else {
        (
            State { phase: Phase::ListingDue, queue: Seq::empty(), next: 0, ..s },
            Directive::ListDue { today: s.now.today },
        )
    }
}

/// Goes on with the activation pass: the next row, or the end of the tick.
pub open spec fn activate_next(s: State) -> (State, Directive) {
    if s.next < s.queue.len() {
        let started = spec_activate(s.queue[s.next as int], s.now.unix_secs);
        (
            State { phase: Phase::Activating, ..s },
            Directive::Work { task: started.0, action: started.1 },
        )
    } else {
        (
            State { phase: Phase::Idle, queue: Seq::empty(), next: 0, ..s },
            Directive::Rest(s.report),
        )
    }
}

/// The transition function of a tick: the state after `reply`, and the next
/// directive. With no tick under way nothing changes.
pub open spec fn spec_advance(s: State, reply: Reply) -> (State, Directive) {
    match s.phase {
        Phase::Idle => (s, Directive::Rest(s.report)),
        Phase::ListingExpired => expire_next(loaded(s, reply)),
        Phase::Expiring => expire_next(settled(s, reply)),
        Phase::ListingDue => activate_next(loaded(s, reply)),
        Phase::Activating => activate_next(settled(s, reply)),
    }
}

impl Reconciler {
    /// A reconciler at rest, for grants that last `window` seconds.
    pub fn new(window: u64) -> (reconciler: Reconciler)
        ensures
            reconciler@ == at_rest(window),
    {
        Reconciler {
            window,
            now: Moment { unix_secs: 0, year: 1970, today: MonthDay { month: 1, day: 1 } },
            phase: Phase::Idle,
            queue: Vec::new(),
            next: 0,
            report: Report::new(),
        }
    }

    /// Starts a tick at `now`.
    pub fn begin(&mut self, now: Moment) -> (directive: Directive)
        ensures
            (final(self)@, directive) == spec_begin(old(self)@, now),
    {
        self.now = now;
        self.phase = Phase::ListingExpired;
        self.queue = Vec::new();
        self.next = 0;
        self.report = Report::new();
        Directive::ListExpired { cutoff: cutoff(now.unix_secs, self.window) }
    }

    /// Starts a tick at the current time. The clock decides which time that
    /// is, and the time is returned; the tick is the one that `begin` starts
    /// at that time.
    pub fn begin_now(&mut self) -> (started: (Moment, Directive))
        ensures
            (final(self)@, started.1) == spec_begin(old(self)@, started.0),
            1 <= started.0.today.month <= 12,
            1 <= started.0.today.day <= 31,
    {
        let now = utc_now();
        let directive = self.begin(now);
        (now, directive)
    }

    /// Takes what came of the last directive and gives the next one.
    pub fn advance(&mut self, feedback: Feedback) -> (directive: Directive)
        ensures
            (final(self)@, directive) == spec_advance(old(self)@, feedback@),
    {
        match self.phase {
            Phase::Idle => Directive::Rest(self.report),
            Phase::ListingExpired => {
                self.load(feedback);
                self.expire_next()
            },
            Phase::Expiring => {
                self.settle(feedback);
                self.expire_next()
            },
            Phase::ListingDue => {
                self.load(feedback);
                self.activate_next()
            },
            Phase::Activating => {
                self.settle(feedback);
                self.activate_next()
            },
        }
    }

    /// Where the tick stands.
    pub fn phase(&self) -> (phase: Phase)
        ensures
            phase == self@.phase,
    {
        self.phase
    }

    /// What the tick has done so far.
    pub fn report(&self) -> (report: Report)
        ensures
            report == self@.report,
    {
        self.report
    }

    /// How long a grant lasts, in seconds.
    pub fn window(&self) -> (window: u64)
        ensures
            window == self@.window,
    {
        self.window
    }

    fn load(&mut self, feedback: Feedback)
        ensures
            final(self)@ == loaded(old(self)@, feedback@),
    {
        self.next = 0;
        match feedback {
            Feedback::Rows(listing) => {
                self.queue = listing.pairs;
                let malformed: u64 = listing.malformed as u64;
                self.report.malformed = self.report.malformed.saturating_add(malformed);
            },
            _ => {
                self.queue = Vec::new();
                self.report.record(Outcome::Skipped(RowError::Persistence));
            },
        }
    }

    fn settle(&mut self, feedback: Feedback)
        ensures
            final(self)@ == settled(old(self)@, feedback@),
    {
        if self.next < self.queue.len() {
            self.next = self.next + 1;
        }
        let outcome = match feedback {
            Feedback::Row(outcome) => outcome,
            _ => Outcome::Skipped(RowError::Persistence),
        };
        self.report.record(outcome);
    }

    fn expire_next(&mut self) -> (directive: Directive)
        ensures
            (final(self)@, directive) == expire_next(old(self)@),
    {
        if self.next < self.queue.len() {
            self.phase = Phase::Expiring;
            let (task, action) = RowTask::expire(self.queue[self.next]);
            Directive::Work { task, action }
        } else {
            self.phase = Phase::ListingDue;
            self.queue = Vec::new();
            self.next = 0;
            Directive::ListDue { today: self.now.today }
        }
    }

    fn activate_next(&mut self) -> (directive: Directive)
        ensures
            (final(self)@, directive) == activate_next(old(self)@),
    {
        if self.next < self.queue.len() {
            self.phase = Phase::Activating;
            let (task, action) = RowTask::activate(self.queue[self.next], self.now.unix_secs);
            Directive::Work { task, action }
        } else {
            self.phase = Phase::Idle;
            self.queue = Vec::new();
            self.next = 0;
            Directive::Rest(self.report)
        }
    }
}

} // verus!
