//! A model of what surrounds the reconciler: the ledger, the tenants'
//! settings, and the remote services with the requests they currently refuse.
//!
//! The model is ghost: it is never run. It says what carrying out an
//! [`Action`] does, and from that what a task, a pass over a list of rows and a
//! whole tick do. The laws of the reconciler are stated over it.

use vstd::prelude::*;
use crate::calendar::{Moment, MonthDay};
use crate::reconciler::spec_outlived;
use crate::task::{
    spec_activate, spec_expire, spec_remaining, spec_step, Action, Event, Outcome, Pair, RowTask,
};

verus! {

/// The state outside the reconciler.
pub struct World {
    /// The role each tenant grants, where one is set.
    pub roles: Map<u64, u64>,
    /// The channel each tenant announces in, where one is set.
    pub channels: Map<u64, u64>,
    /// The saved anniversaries.
    pub days: Map<Pair, MonthDay>,
    /// The ledger of active grants, each with the time it was made.
    pub grants: Map<Pair, i64>,
    /// The requests that fail when they are made.
    pub failing: Set<Action>,
    /// The remote operations that were carried out, oldest first.
    pub calls: Seq<Action>,
}

/// What carrying out `action` does to the world, and the answer it gives.
///
/// A failing request changes nothing. A lookup reads the tenant's settings. A
/// remote call is logged. Recording a grant fails where the pair has one.
pub open spec fn perform(w: World, action: Action) -> (World, Event) {
    if w.failing.contains(action) {
        (w, Event::Failed)
    } else {
        match action {
            Action::LookupRole { tenant } => (
                w,
                if w.roles.contains_key(tenant) {
                    Event::Found(w.roles[tenant])
                } else {
                    Event::NotConfigured
                },
            ),
            Action::LookupChannel { tenant } => (
                w,
                if w.channels.contains_key(tenant) {
                    Event::Found(w.channels[tenant])
                } else {
                    Event::NotConfigured
                },
            ),
            Action::GrantRole { .. } | Action::RevokeRole { .. } | Action::Announce { .. } => (
                World { calls: w.calls.push(action), ..w },
                Event::Succeeded,
            ),
            Action::InsertGrant { pair, granted_at } => if w.grants.contains_key(pair) {
                (w, Event::Failed)
            } else {
                (World { grants: w.grants.insert(pair, granted_at), ..w }, Event::Succeeded)
            },
            Action::DeleteGrant { pair } => (
                World { grants: w.grants.remove(pair), ..w },
                Event::Succeeded,
            ),
            Action::Finish(_) => (w, Event::Succeeded),
        }
    }
}

/// The world after a task has been driven to its end, and how the task
/// ended: each request is carried out and its answer handed to the task,
/// until the task finishes.
pub open spec fn drive(w: World, task: RowTask, action: Action) -> (World, Outcome)
    decreases spec_remaining(task.stage), (if action is Finish { 0nat } else { 1nat }),
{
    match action {
        Action::Finish(outcome) => (w, outcome),
        _ => {
            let answered = perform(w, action);
            let next = spec_step(task, answered.1);
            drive(answered.0, next.0, next.1)
        },
    }
}

/// Which of the two passes of a tick a row is worked on in.
pub enum Pass {
    /// Grants past the retention window are revoked and removed.
    Expire,
    /// Anniversaries that fall on today are granted, announced and recorded
    /// with `now` as the start of the grant.
    Activate { now: i64 },
}

/// The world after the work of `pass` on the row `pair`.
pub open spec fn row(w: World, pass: Pass, pair: Pair) -> World {
    match pass {
        Pass::Expire => drive(w, spec_expire(pair).0, spec_expire(pair).1).0,
        Pass::Activate { now } => drive(
            w,
            spec_activate(pair, now).0,
            spec_activate(pair, now).1,
        ).0,
    }
}

/// The world after `pass` has worked on `rows` one after the other.
pub open spec fn phase(w: World, pass: Pass, rows: Seq<Pair>) -> World
    decreases rows.len(),
{
    if rows.len() == 0 {
        w
    } else {
        row(phase(w, pass, rows.drop_last()), pass, rows.last())
    }
}

/// The world after one tick at `now`: the expiry pass over `expired`, then
/// the activation pass over `due`.
pub open spec fn tick(w: World, now: Moment, expired: Seq<Pair>, due: Seq<Pair>) -> World {
    phase(phase(w, Pass::Expire, expired), Pass::Activate { now: now.unix_secs }, due)
}

/// Whether `pair` holds a grant that is older than `window` seconds at `now`.
pub open spec fn is_expired(w: World, pair: Pair, now: i64, window: u64) -> bool {
    w.grants.contains_key(pair) && spec_outlived(w.grants[pair], now, window)
}

/// Whether `pair` has its anniversary on `today` and holds no grant.
pub open spec fn is_due(w: World, pair: Pair, today: MonthDay) -> bool {
    w.days.contains_key(pair) && w.days[pair] == today && !w.grants.contains_key(pair)
}

/// Whether `rows` is what the store lists as expired: each such pair once.
pub open spec fn lists_expired(w: World, rows: Seq<Pair>, now: i64, window: u64) -> bool {
    rows.no_duplicates() && forall|p: Pair| #[trigger] rows.contains(p) <==> is_expired(w, p, now, window)
}

/// Whether `rows` is what the store lists as due: each such pair once.
pub open spec fn lists_due(w: World, rows: Seq<Pair>, today: MonthDay) -> bool {
    rows.no_duplicates() && forall|p: Pair| #[trigger] rows.contains(p) <==> is_due(w, p, today)
}

/// Whether `expired` and `due` are the lists the store gives during a tick at
/// `now`: the expired grants at its start, and the due anniversaries once the
/// expiry pass is over.
pub open spec fn listed(
    w: World,
    now: Moment,
    window: u64,
    expired: Seq<Pair>,
    due: Seq<Pair>,
) -> bool {
    lists_expired(w, expired, now.unix_secs, window) && lists_due(
        phase(w, Pass::Expire, expired),
        due,
        now.today,
    )
}

/// The pair whose role or ledger row `action` touches, if it touches one.
pub open spec fn concerns(action: Action) -> Option<Pair> {
    match action {
        Action::GrantRole { pair, .. } => Some(pair),
        Action::RevokeRole { pair, .. } => Some(pair),
        Action::Announce { pair, .. } => Some(pair),
        Action::InsertGrant { pair, .. } => Some(pair),
        Action::DeleteGrant { pair } => Some(pair),
        _ => None,
    }
}

/// How often `call` stands in the log `calls`.
pub open spec fn times(calls: Seq<Action>, call: Action) -> nat
    decreases calls.len(),
{
    if calls.len() == 0 {
        0
    } else {
        times(calls.drop_last(), call) + if calls.last() == call {
            1nat
        } else {
            0nat
        }
    }
}

/// The start of the grant that `pair` holds, if it holds one.
pub open spec fn grant_of(w: World, pair: Pair) -> Option<i64> {
    if w.grants.contains_key(pair) {
        Some(w.grants[pair])
    } else {
        None
    }
}

/// Whether two worlds have the same settings, anniversaries and failures.
pub open spec fn same_setup(a: World, b: World) -> bool {
    a.roles == b.roles && a.channels == b.channels && a.days == b.days && a.failing == b.failing
}

/// Whether two worlds agree on `pair`: on its grant, and on how often each
/// remote operation that concerns it was carried out.
pub open spec fn agree_on(a: World, b: World, pair: Pair) -> bool {
    grant_of(a, pair) == grant_of(b, pair) && forall|c: Action|
        #[trigger] concerns(c) == Some(pair) ==> times(a.calls, c) == times(b.calls, c)
}

/// Whether the remote operations that concern `pair` are in `after` those of
/// `before` and, on top of them, exactly those in `extra`.
pub open spec fn grew_by(before: World, after: World, pair: Pair, extra: Seq<Action>) -> bool {
    forall|c: Action| #[trigger]
        concerns(c) == Some(pair) ==> times(after.calls, c) == times(before.calls, c) + times(
            extra,
            c,
        )
}

/// What the work of the expiry pass on `pair` comes to.
///
/// Nothing happens unless the role is found and the directory revokes it. The
/// grant is removed once the role is revoked, unless the store refuses.
pub open spec fn expire_effect(w: World, pair: Pair) -> World {
    if w.failing.contains(Action::LookupRole { tenant: pair.tenant }) || !w.roles.contains_key(
        pair.tenant,
    ) {
        w
    } else {
        let revoke = Action::RevokeRole { pair, role: w.roles[pair.tenant] };
        if w.failing.contains(revoke) {
            w
        } else if w.failing.contains(Action::DeleteGrant { pair }) {
            World { calls: w.calls.push(revoke), ..w }
        } else {
            World { calls: w.calls.push(revoke), grants: w.grants.remove(pair), ..w }
        }
    }
}

/// What the work of the activation pass on `pair` at `now` comes to.
///
/// Nothing happens unless both settings are found and the directory grants
/// the role. The grant is recorded once the announcement is posted, unless the
/// pair holds one or the store refuses.
pub open spec fn activate_effect(w: World, pair: Pair, now: i64) -> World {
    let tenant = pair.tenant;
    if w.failing.contains(Action::LookupRole { tenant }) || !w.roles.contains_key(tenant) {
        w
    } else if w.failing.contains(Action::LookupChannel { tenant }) || !w.channels.contains_key(
        tenant,
    ) {
        w
    } else {
        let grant = Action::GrantRole { pair, role: w.roles[tenant] };
        let announce = Action::Announce { pair, channel: w.channels[tenant] };
        let insert = Action::InsertGrant { pair, granted_at: now };
        if w.failing.contains(grant) {
            w
        } else if w.failing.contains(announce) {
            World { calls: w.calls.push(grant), ..w }
        } else if w.failing.contains(insert) || w.grants.contains_key(pair) {
            World { calls: w.calls.push(grant).push(announce), ..w }
        } else {
            World {
                calls: w.calls.push(grant).push(announce),
                grants: w.grants.insert(pair, now),
                ..w
            }
        }
    }
}

/// What the work of `pass` on `pair` comes to.
pub open spec fn effect(w: World, pass: Pass, pair: Pair) -> World {
    match pass {
        Pass::Expire => expire_effect(w, pair),
        Pass::Activate { now } => activate_effect(w, pair, now),
    }
}

/// Driving a task request by request comes to the effect of its pass.
pub proof fn lemma_row_is_effect(w: World, pass: Pass, pair: Pair)
    ensures
        row(w, pass, pair) == effect(w, pass, pair),
{
    reveal_with_fuel(drive, 7);
}

/// One more entry in the log counts once, for the call it holds.
pub proof fn lemma_times_push(calls: Seq<Action>, last: Action, call: Action)
    ensures
        times(calls.push(last), call) == times(calls, call) + if last == call {
            1nat
        } else {
            0nat
        },
{
    assert(calls.push(last).drop_last() =~= calls);
}

/// The work on a row leaves settings, anniversaries and failures alone.
pub proof fn lemma_effect_setup(w: World, pass: Pass, pair: Pair)
    ensures
        same_setup(w, effect(w, pass, pair)),
{
}

/// The work on a row leaves every other pair as it was.
pub proof fn lemma_effect_frame(w: World, pass: Pass, worked: Pair, pair: Pair)
    requires
        worked != pair,
    ensures
        agree_on(w, effect(w, pass, worked), pair),
{
    let after = effect(w, pass, worked);
    assert forall|c: Action| #[trigger] concerns(c) == Some(pair) implies times(after.calls, c)
        == times(w.calls, c) by {
        let tenant = worked.tenant;
        let revoke = Action::RevokeRole { pair: worked, role: w.roles[tenant] };
        let grant = Action::GrantRole { pair: worked, role: w.roles[tenant] };
        let announce = Action::Announce { pair: worked, channel: w.channels[tenant] };
        lemma_times_push(w.calls, revoke, c);
        lemma_times_push(w.calls, grant, c);
        lemma_times_push(w.calls.push(grant), announce, c);
    }
}

/// The work on a row depends on nothing but the setup and that row.
pub proof fn lemma_effect_local(a: World, b: World, pass: Pass, pair: Pair)
    requires
        same_setup(a, b),
        agree_on(a, b, pair),
    ensures
        agree_on(effect(a, pass, pair), effect(b, pass, pair), pair),
{
    let a2 = effect(a, pass, pair);
    let b2 = effect(b, pass, pair);
    assert forall|c: Action| #[trigger] concerns(c) == Some(pair) implies times(a2.calls, c)
        == times(b2.calls, c) by {
        let tenant = pair.tenant;
        let revoke = Action::RevokeRole { pair, role: a.roles[tenant] };
        let grant = Action::GrantRole { pair, role: a.roles[tenant] };
        let announce = Action::Announce { pair, channel: a.channels[tenant] };
        lemma_times_push(a.calls, revoke, c);
        lemma_times_push(b.calls, revoke, c);
        lemma_times_push(a.calls, grant, c);
        lemma_times_push(b.calls, grant, c);
        lemma_times_push(a.calls.push(grant), announce, c);
        lemma_times_push(b.calls.push(grant), announce, c);
    }
}

/// A pass leaves settings, anniversaries and failures alone.
pub proof fn lemma_phase_setup(w: World, pass: Pass, rows: Seq<Pair>)
    ensures
        same_setup(w, phase(w, pass, rows)),
    decreases rows.len(),
{
    if rows.len() > 0 {
        let before = phase(w, pass, rows.drop_last());
        lemma_phase_setup(w, pass, rows.drop_last());
        lemma_row_is_effect(before, pass, rows.last());
        lemma_effect_setup(before, pass, rows.last());
    }
}

/// A pass leaves a pair that is not among its rows as it was.
pub proof fn lemma_phase_skips(w: World, pass: Pass, rows: Seq<Pair>, pair: Pair)
    requires
        !rows.contains(pair),
    ensures
        agree_on(w, phase(w, pass, rows), pair),
    decreases rows.len(),
{
    if rows.len() > 0 {
        let init = rows.drop_last();
        let before = phase(w, pass, init);
        assert(rows.last() == rows[rows.len() - 1]);
        assert forall|i: int| 0 <= i < init.len() implies init[i] != pair by {
            assert(init[i] == rows[i]);
        }
        lemma_phase_skips(w, pass, init, pair);
        lemma_row_is_effect(before, pass, rows.last());
        lemma_effect_frame(before, pass, rows.last(), pair);
    }
}

/// A pass does to a pair among its rows what the work on that row alone
/// would have done, whatever the other rows are and however they fare.
pub proof fn lemma_phase_hits(w: World, pass: Pass, rows: Seq<Pair>, pair: Pair)
    requires
        rows.no_duplicates(),
        rows.contains(pair),
    ensures
        agree_on(effect(w, pass, pair), phase(w, pass, rows), pair),
    decreases rows.len(),
{
    let init = rows.drop_last();
    let last = rows.last();
    let before = phase(w, pass, init);
    let at = choose|i: int| 0 <= i < rows.len() && rows[i] == pair;
    assert(init.no_duplicates()) by {
        assert forall|i: int, j: int| 0 <= i < init.len() && 0 <= j < init.len() && i != j implies init[i]
            != init[j] by {
            assert(init[i] == rows[i] && init[j] == rows[j]);
        }
    }
    lemma_phase_setup(w, pass, init);
    lemma_row_is_effect(before, pass, last);
    if last == pair {
        assert forall|i: int| 0 <= i < init.len() implies init[i] != pair by {
            assert(init[i] == rows[i]);
            assert(rows[rows.len() - 1] == pair);
        }
        lemma_phase_skips(w, pass, init, pair);
        lemma_effect_local(w, before, pass, pair);
    } else {
        assert(init[at] == pair);
        lemma_phase_hits(w, pass, init, pair);
        lemma_effect_frame(before, pass, last, pair);
    }
}

/// A pass over rows is the work on the first row and then the pass over the
/// rest.
pub proof fn lemma_phase_front(w: World, pass: Pass, rows: Seq<Pair>)
    requires
        rows.len() > 0,
    ensures
        phase(w, pass, rows) == phase(row(w, pass, rows[0]), pass, rows.skip(1)),
    decreases rows.len(),
{
    if rows.len() == 1 {
        assert(rows.drop_last() =~= Seq::<Pair>::empty());
        assert(rows.skip(1) =~= Seq::<Pair>::empty());
        assert(phase(w, pass, rows.drop_last()) == w);
    } else {
        lemma_phase_front(w, pass, rows.drop_last());
        assert(rows.drop_last().skip(1) =~= rows.skip(1).drop_last());
        assert(rows.drop_last()[0] == rows[0]);
        assert(rows.skip(1).last() == rows.last());
    }
}

} // verus!
