//! What driving a tick to its end does to the world.
//!
//! The reconciler only decides; a driver lists rows when told to and drives
//! the task of each row. This module says in the model what such a driver
//! does, and proves that a tick driven this way is the expiry pass over the
//! listed grants followed by the activation pass over the listed
//! anniversaries: the tick that the laws speak of.

use vstd::prelude::*;
use crate::calendar::Moment;
use crate::reconciler::{
    activate_next, expire_next, spec_advance, spec_begin, Directive, Phase, Reply, Report, State,
};
use crate::task::Pair;
use crate::world::{drive, lemma_phase_front, phase, tick, Pass, World};

verus! {

/// What carrying out `directive` does to the world and what it reports,
/// where the store lists `expired` and `due` when asked.
pub open spec fn answer(w: World, directive: Directive, expired: Seq<Pair>, due: Seq<Pair>) -> (
    World,
    Reply,
) {
    match directive {
        Directive::ListExpired { .. } => (w, Reply::Rows { pairs: expired, malformed: 0 }),
        Directive::ListDue { .. } => (w, Reply::Rows { pairs: due, malformed: 0 }),
        Directive::Work { task, action } => {
            let ended = drive(w, task, action);
            (ended.0, Reply::Row(ended.1))
        },
        Directive::Rest(_) => (w, Reply::ListingFailed),
    }
}

/// How many phases a tick has still to go through.
pub open spec fn phases_left(phase: Phase) -> nat {
    match phase {
        Phase::ListingExpired => 4,
        Phase::Expiring => 3,
        Phase::ListingDue => 2,
        Phase::Activating => 1,
        Phase::Idle => 0,
    }
}

/// How many rows of the queue are still to be worked on.
pub open spec fn rows_left(s: State) -> nat {
    if s.next < s.queue.len() {
        (s.queue.len() - s.next) as nat
    } else {
        0
    }
}

/// The world and the reconciler once a tick has been driven to its end:
/// each directive is carried out and its result handed back, until the
/// reconciler rests.
pub open spec fn run(
    w: World,
    s: State,
    directive: Directive,
    expired: Seq<Pair>,
    due: Seq<Pair>,
) -> (World, State)
    decreases phases_left(s.phase), rows_left(s), (if directive is Rest { 0nat } else { 1nat }),
{
    match directive {
        Directive::Rest(_) => (w, s),
        _ => {
            let answered = answer(w, directive, expired, due);
            let next = spec_advance(s, answered.1);
            run(answered.0, next.0, next.1, expired, due)
        },
    }
}

/// How many rows and failed listings a report accounts for.
pub open spec fn accounted(report: Report) -> nat {
    (report.activated + report.expired + report.configuration_missing + report.external_service
        + report.persistence + report.malformed) as nat
}

/// From a row of the activation pass on, a driven tick is the pass over the
/// rows that are left, and each of them is counted once.
proof fn lemma_run_activating(w: World, s: State, expired: Seq<Pair>, due: Seq<Pair>)
    requires
        s.phase == Phase::Activating,
        s.next < s.queue.len(),
    ensures
        run(w, s, activate_next(s).1, expired, due).0 == phase(
            w,
            Pass::Activate { now: s.now.unix_secs },
            s.queue.skip(s.next as int),
        ),
        run(w, s, activate_next(s).1, expired, due).1.phase == Phase::Idle,
        accounted(s.report) + (s.queue.len() - s.next) <= u64::MAX ==> accounted(
            run(w, s, activate_next(s).1, expired, due).1.report,
        ) == accounted(s.report) + (s.queue.len() - s.next),
    decreases s.queue.len() - s.next,
{
    reveal_with_fuel(run, 3);
    let pass = Pass::Activate { now: s.now.unix_secs };
    let rows = s.queue.skip(s.next as int);
    let directive = activate_next(s).1;
    let answered = answer(w, directive, expired, due);
    let next = spec_advance(s, answered.1);
    lemma_phase_front(w, pass, rows);
    assert(rows[0] == s.queue[s.next as int]);
    assert(rows.skip(1) =~= s.queue.skip(s.next as int + 1));
    if s.next + 1 < s.queue.len() {
        lemma_run_activating(answered.0, next.0, expired, due);
    } else {
        assert(rows.skip(1) =~= Seq::<Pair>::empty());
    }
}

/// From the listing of what is due on, a driven tick is the activation pass.
proof fn lemma_run_listing_due(w: World, s: State, expired: Seq<Pair>, due: Seq<Pair>)
    requires
        s.phase == Phase::ListingDue,
    ensures
        run(w, s, Directive::ListDue { today: s.now.today }, expired, due).0 == phase(
            w,
            Pass::Activate { now: s.now.unix_secs },
            due,
        ),
        run(w, s, Directive::ListDue { today: s.now.today }, expired, due).1.phase == Phase::Idle,
        accounted(s.report) + due.len() <= u64::MAX ==> accounted(
            run(w, s, Directive::ListDue { today: s.now.today }, expired, due).1.report,
        ) == accounted(s.report) + due.len(),
{
    reveal_with_fuel(run, 3);
    let directive = Directive::ListDue { today: s.now.today };
    let answered = answer(w, directive, expired, due);
    let next = spec_advance(s, answered.1);
    if due.len() > 0 {
        assert(next.0.queue.skip(0) =~= due);
        lemma_run_activating(w, next.0, expired, due);
    }
}

/// From a row of the expiry pass on, a driven tick is that pass over the
/// rows that are left, and then the activation pass.
proof fn lemma_run_expiring(w: World, s: State, expired: Seq<Pair>, due: Seq<Pair>)
    requires
        s.phase == Phase::Expiring,
        s.next < s.queue.len(),
    ensures
        run(w, s, expire_next(s).1, expired, due).0 == phase(
            phase(w, Pass::Expire, s.queue.skip(s.next as int)),
            Pass::Activate { now: s.now.unix_secs },
            due,
        ),
        run(w, s, expire_next(s).1, expired, due).1.phase == Phase::Idle,
        accounted(s.report) + (s.queue.len() - s.next) + due.len() <= u64::MAX ==> accounted(
            run(w, s, expire_next(s).1, expired, due).1.report,
        ) == accounted(s.report) + (s.queue.len() - s.next) + due.len(),
    decreases s.queue.len() - s.next,
{
    reveal_with_fuel(run, 3);
    let rows = s.queue.skip(s.next as int);
    let directive = expire_next(s).1;
    let answered = answer(w, directive, expired, due);
    let next = spec_advance(s, answered.1);
    lemma_phase_front(w, Pass::Expire, rows);
    assert(rows[0] == s.queue[s.next as int]);
    assert(rows.skip(1) =~= s.queue.skip(s.next as int + 1));
    if s.next + 1 < s.queue.len() {
        lemma_run_expiring(answered.0, next.0, expired, due);
    } else {
        assert(rows.skip(1) =~= Seq::<Pair>::empty());
        lemma_run_listing_due(answered.0, next.0, expired, due);
    }
}

/// A tick driven to its end, from whatever state the reconciler was in, does
/// to the world what the two passes do one after the other, and leaves the
/// reconciler at rest. No row is passed over, however the rows before it
/// fared: the report accounts for each listed row once.
pub proof fn law_driven_tick_is_two_passes(
    w: World,
    s: State,
    now: Moment,
    expired: Seq<Pair>,
    due: Seq<Pair>,
)
    ensures
        run(w, spec_begin(s, now).0, spec_begin(s, now).1, expired, due).0 == tick(
            w,
            now,
            expired,
            due,
        ),
        run(w, spec_begin(s, now).0, spec_begin(s, now).1, expired, due).1.phase == Phase::Idle,
        expired.len() + due.len() <= u64::MAX ==> accounted(
            run(w, spec_begin(s, now).0, spec_begin(s, now).1, expired, due).1.report,
        ) == expired.len() + due.len(),
{
    reveal_with_fuel(run, 3);
    let begun = spec_begin(s, now);
    let answered = answer(w, begun.1, expired, due);
    let next = spec_advance(begun.0, answered.1);
    if expired.len() > 0 {
        assert(next.0.queue.skip(0) =~= expired);
        lemma_run_expiring(w, next.0, expired, due);
    } else {
        lemma_run_listing_due(w, next.0, expired, due);
    }
}

} // verus!
