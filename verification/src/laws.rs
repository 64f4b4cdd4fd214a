//! What holds of every tick, proved over the model of the world.
//!
//! Each law speaks of one pair and asks nothing of any other: the rows of a
//! pass are independent, so what is promised to a pair holds however the rest
//! of the tick goes.

use vstd::prelude::*;
use crate::calendar::Moment;
use crate::task::{Action, Pair};
use crate::world::{
    agree_on, concerns, effect, grant_of, grew_by, is_due, is_expired, lemma_effect_local, lemma_phase_hits,
    lemma_phase_setup, lemma_phase_skips, lemma_row_is_effect, lemma_times_push, listed, phase,
    same_setup, tick, times, Pass, World,
};

verus! {

/// Whether `pair` can be activated at `now`: its tenant has set `role` and
/// `channel`, and none of the requests of the activation fails.
pub open spec fn can_activate(w: World, pair: Pair, role: u64, channel: u64, now: i64) -> bool {
    &&& w.roles.contains_key(pair.tenant) && w.roles[pair.tenant] == role
    &&& w.channels.contains_key(pair.tenant) && w.channels[pair.tenant] == channel
    &&& !w.failing.contains(Action::LookupRole { tenant: pair.tenant })
    &&& !w.failing.contains(Action::LookupChannel { tenant: pair.tenant })
    &&& !w.failing.contains(Action::GrantRole { pair, role })
    &&& !w.failing.contains(Action::Announce { pair, channel })
    &&& !w.failing.contains(Action::InsertGrant { pair, granted_at: now })
}

/// Whether the grant of `pair` can be expired: its tenant has set `role`, and
/// none of the requests of the expiry fails.
pub open spec fn can_expire(w: World, pair: Pair, role: u64) -> bool {
    &&& w.roles.contains_key(pair.tenant) && w.roles[pair.tenant] == role
    &&& !w.failing.contains(Action::LookupRole { tenant: pair.tenant })
    &&& !w.failing.contains(Action::RevokeRole { pair, role })
    &&& !w.failing.contains(Action::DeleteGrant { pair })
}

/// Whether the anniversary of `pair` falls on the day of `now`.
pub open spec fn celebrates(w: World, pair: Pair, now: Moment) -> bool {
    w.days.contains_key(pair) && w.days[pair] == now.today
}

/// The log that holds `first` and then `second`.
pub open spec fn two(first: Action, second: Action) -> Seq<Action> {
    Seq::<Action>::empty().push(first).push(second)
}

/// The log that holds `only`.
pub open spec fn one(only: Action) -> Seq<Action> {
    Seq::<Action>::empty().push(only)
}

/// Activation. A pair whose anniversary is today, which holds no grant and
/// whose tenant is configured, holds a grant from `now` on after one tick, and
/// the tick made exactly one grant call and one announcement for it.
pub proof fn law_activation(
    w: World,
    now: Moment,
    window: u64,
    expired: Seq<Pair>,
    due: Seq<Pair>,
    pair: Pair,
    role: u64,
    channel: u64,
)
    requires
        listed(w, now, window, expired, due),
        is_due(w, pair, now.today),
        can_activate(w, pair, role, channel, now.unix_secs),
    ensures
        grant_of(tick(w, now, expired, due), pair) == Some(now.unix_secs),
        grew_by(
            w,
            tick(w, now, expired, due),
            pair,
            two(Action::GrantRole { pair, role }, Action::Announce { pair, channel }),
        ),
{
    let pass = Pass::Activate { now: now.unix_secs };
    let mid = phase(w, Pass::Expire, expired);
    let after = tick(w, now, expired, due);
    let grant = Action::GrantRole { pair, role };
    let announce = Action::Announce { pair, channel };
    assert(!expired.contains(pair));
    lemma_phase_skips(w, Pass::Expire, expired, pair);
    lemma_phase_setup(w, Pass::Expire, expired);
    assert(is_due(mid, pair, now.today));
    assert(due.contains(pair));
    lemma_phase_hits(mid, pass, due, pair);
    lemma_effect_local(w, mid, pass, pair);
    let alone = effect(w, pass, pair);
    assert(alone.calls == w.calls.push(grant).push(announce));
    assert forall|c: Action| #[trigger] concerns(c) == Some(pair) implies times(after.calls, c)
        == times(w.calls, c) + times(two(grant, announce), c) by {
        lemma_times_push(w.calls, grant, c);
        lemma_times_push(w.calls.push(grant), announce, c);
        lemma_times_push(Seq::<Action>::empty(), grant, c);
        lemma_times_push(Seq::<Action>::empty().push(grant), announce, c);
    }
}

/// A pair that holds a grant which has not outlived the window is left as it
/// is by a tick: its grant stays, and no remote operation is made for it.
pub proof fn law_fresh_grant_is_kept(
    w: World,
    now: Moment,
    window: u64,
    expired: Seq<Pair>,
    due: Seq<Pair>,
    pair: Pair,
)
    requires
        listed(w, now, window, expired, due),
        w.grants.contains_key(pair),
        now.unix_secs - w.grants[pair] <= window,
    ensures
        agree_on(w, tick(w, now, expired, due), pair),
{
    let mid = phase(w, Pass::Expire, expired);
    assert(!expired.contains(pair));
    lemma_phase_skips(w, Pass::Expire, expired, pair);
    assert(!is_due(mid, pair, now.today));
    assert(!due.contains(pair));
    lemma_phase_skips(mid, Pass::Activate { now: now.unix_secs }, due, pair);
}

/// The match of an anniversary with today is exact. A pair without a grant
/// whose anniversary is any other day, be it the day before or the day after,
/// is left as it is by a tick: no grant, and no remote operation for it.
pub proof fn law_no_activation_off_the_day(
    w: World,
    now: Moment,
    window: u64,
    expired: Seq<Pair>,
    due: Seq<Pair>,
    pair: Pair,
)
    requires
        listed(w, now, window, expired, due),
        !w.grants.contains_key(pair),
        !celebrates(w, pair, now),
    ensures
        agree_on(w, tick(w, now, expired, due), pair),
        !tick(w, now, expired, due).grants.contains_key(pair),
{
    let mid = phase(w, Pass::Expire, expired);
    assert(!expired.contains(pair));
    lemma_phase_skips(w, Pass::Expire, expired, pair);
    lemma_phase_setup(w, Pass::Expire, expired);
    assert(!is_due(mid, pair, now.today));
    assert(!due.contains(pair));
    lemma_phase_skips(mid, Pass::Activate { now: now.unix_secs }, due, pair);
}

/// Idempotence of activation. After a tick has activated a pair, a second tick
/// that comes before the grant has outlived the window makes no further grant
/// call and no further announcement for it, and the grant still dates from the
/// first tick.
pub proof fn law_second_run_adds_nothing(
    w: World,
    first: Moment,
    second: Moment,
    window: u64,
    expired: Seq<Pair>,
    due: Seq<Pair>,
    expired_again: Seq<Pair>,
    due_again: Seq<Pair>,
    pair: Pair,
    role: u64,
    channel: u64,
)
    requires
        listed(w, first, window, expired, due),
        is_due(w, pair, first.today),
        can_activate(w, pair, role, channel, first.unix_secs),
        listed(tick(w, first, expired, due), second, window, expired_again, due_again),
        second.unix_secs - first.unix_secs <= window,
    ensures
        grant_of(
            tick(tick(w, first, expired, due), second, expired_again, due_again),
            pair,
        ) == Some(first.unix_secs),
        grew_by(
            w,
            tick(tick(w, first, expired, due), second, expired_again, due_again),
            pair,
            two(Action::GrantRole { pair, role }, Action::Announce { pair, channel }),
        ),
{
    let once = tick(w, first, expired, due);
    law_activation(w, first, window, expired, due, pair, role, channel);
    law_fresh_grant_is_kept(once, second, window, expired_again, due_again, pair);
}

/// Expiry. A grant that has outlived the window, of a pair whose tenant has
/// set the role and whose anniversary is not today, is gone after one tick,
/// and the tick made exactly one revoke call for the pair.
pub proof fn law_expiry(
    w: World,
    now: Moment,
    window: u64,
    expired: Seq<Pair>,
    due: Seq<Pair>,
    pair: Pair,
    role: u64,
)
    requires
        listed(w, now, window, expired, due),
        is_expired(w, pair, now.unix_secs, window),
        can_expire(w, pair, role),
        !celebrates(w, pair, now),
    ensures
        !tick(w, now, expired, due).grants.contains_key(pair),
        grew_by(w, tick(w, now, expired, due), pair, one(Action::RevokeRole { pair, role })),
{
    let mid = phase(w, Pass::Expire, expired);
    let after = tick(w, now, expired, due);
    let revoke = Action::RevokeRole { pair, role };
    assert(expired.contains(pair));
    lemma_phase_hits(w, Pass::Expire, expired, pair);
    lemma_phase_setup(w, Pass::Expire, expired);
    let alone = effect(w, Pass::Expire, pair);
    assert(alone.calls == w.calls.push(revoke));
    assert(!alone.grants.contains_key(pair));
    assert(!is_due(mid, pair, now.today));
    assert(!due.contains(pair));
    lemma_phase_skips(mid, Pass::Activate { now: now.unix_secs }, due, pair);
    assert forall|c: Action| #[trigger] concerns(c) == Some(pair) implies times(after.calls, c)
        == times(w.calls, c) + times(one(revoke), c) by {
        lemma_times_push(w.calls, revoke, c);
        lemma_times_push(Seq::<Action>::empty(), revoke, c);
    }
}

/// Expiry happens once. After a tick has expired a grant, a second tick on a
/// day that is not the anniversary makes no further call for the pair and
/// leaves it without a grant.
pub proof fn law_expiry_happens_once(
    w: World,
    first: Moment,
    second: Moment,
    window: u64,
    expired: Seq<Pair>,
    due: Seq<Pair>,
    expired_again: Seq<Pair>,
    due_again: Seq<Pair>,
    pair: Pair,
    role: u64,
)
    requires
        listed(w, first, window, expired, due),
        is_expired(w, pair, first.unix_secs, window),
        can_expire(w, pair, role),
        !celebrates(w, pair, first),
        !celebrates(w, pair, second),
        listed(tick(w, first, expired, due), second, window, expired_again, due_again),
    ensures
        !tick(tick(w, first, expired, due), second, expired_again, due_again).grants.contains_key(
            pair,
        ),
        grew_by(
            w,
            tick(tick(w, first, expired, due), second, expired_again, due_again),
            pair,
            one(Action::RevokeRole { pair, role }),
        ),
{
    let once = tick(w, first, expired, due);
    law_expiry(w, first, window, expired, due, pair, role);
    lemma_tick_setup(w, first, expired, due);
    law_no_activation_off_the_day(once, second, window, expired_again, due_again, pair);
}

/// A tick leaves settings, anniversaries and failures alone.
pub proof fn lemma_tick_setup(w: World, now: Moment, expired: Seq<Pair>, due: Seq<Pair>)
    ensures
        same_setup(w, tick(w, now, expired, due)),
{
    let mid = phase(w, Pass::Expire, expired);
    lemma_phase_setup(w, Pass::Expire, expired);
    lemma_phase_setup(mid, Pass::Activate { now: now.unix_secs }, due);
}

/// Failure isolation. Where the directory refuses to revoke the role of one
/// pair, that pair keeps its grant and no call is logged for it; and another
/// pair whose grant has expired in the same tick is expired all the same.
pub proof fn law_failure_isolation(
    w: World,
    now: Moment,
    window: u64,
    expired: Seq<Pair>,
    due: Seq<Pair>,
    refused: Pair,
    other: Pair,
    role: u64,
)
    requires
        listed(w, now, window, expired, due),
        is_expired(w, refused, now.unix_secs, window),
        w.roles.contains_key(refused.tenant) ==> w.failing.contains(
            Action::RevokeRole { pair: refused, role: w.roles[refused.tenant] },
        ),
        other != refused,
        is_expired(w, other, now.unix_secs, window),
        can_expire(w, other, role),
        !celebrates(w, other, now),
    ensures
        agree_on(w, tick(w, now, expired, due), refused),
        !tick(w, now, expired, due).grants.contains_key(other),
        grew_by(w, tick(w, now, expired, due), other, one(Action::RevokeRole { pair: other, role })),
{
    let mid = phase(w, Pass::Expire, expired);
    law_expiry(w, now, window, expired, due, other, role);
    assert(expired.contains(refused));
    lemma_phase_hits(w, Pass::Expire, expired, refused);
    assert(effect(w, Pass::Expire, refused) == w);
    assert(!is_due(mid, refused, now.today));
    assert(!due.contains(refused));
    lemma_phase_skips(mid, Pass::Activate { now: now.unix_secs }, due, refused);
}

/// The life of a pair. A tick leaves the grant of a pair as it was, or removes
/// one that has outlived the window, or records one from `now` on for a pair
/// whose anniversary is today and that held none or one that had outlived
/// the window. Nothing else ever happens to a grant.
pub proof fn law_pair_lifecycle(
    w: World,
    now: Moment,
    window: u64,
    expired: Seq<Pair>,
    due: Seq<Pair>,
    pair: Pair,
)
    requires
        listed(w, now, window, expired, due),
    ensures
        ({
            let before = grant_of(w, pair);
            let after = grant_of(tick(w, now, expired, due), pair);
            ||| after == before
            ||| is_expired(w, pair, now.unix_secs, window) && after is None
            ||| celebrates(w, pair, now) && after == Some(now.unix_secs) && (before is None
                || is_expired(w, pair, now.unix_secs, window))
        }),
{
    let pass = Pass::Activate { now: now.unix_secs };
    let mid = phase(w, Pass::Expire, expired);
    lemma_phase_setup(w, Pass::Expire, expired);
    if expired.contains(pair) {
        lemma_phase_hits(w, Pass::Expire, expired, pair);
    } else {
        lemma_phase_skips(w, Pass::Expire, expired, pair);
    }
    if due.contains(pair) {
        lemma_phase_hits(mid, pass, due, pair);
    } else {
        lemma_phase_skips(mid, pass, due, pair);
    }
}

/// Whether the ledger has followed the remote effects between two worlds, as
/// far as `pair` goes: where it holds a grant that it did not hold before, a
/// grant call and an announcement were made for the pair in between; where a
/// grant that it held is gone or replaced, a revoke call was made.
pub open spec fn confirms(before: World, after: World, pair: Pair) -> bool {
    let grant = Action::GrantRole { pair, role: before.roles[pair.tenant] };
    let announce = Action::Announce { pair, channel: before.channels[pair.tenant] };
    let revoke = Action::RevokeRole { pair, role: before.roles[pair.tenant] };
    let changed = grant_of(after, pair) != grant_of(before, pair);
    &&& times(after.calls, grant) >= times(before.calls, grant)
    &&& times(after.calls, announce) >= times(before.calls, announce)
    &&& times(after.calls, revoke) >= times(before.calls, revoke)
    &&& changed && grant_of(after, pair) is Some ==> times(after.calls, grant) > times(
        before.calls,
        grant,
    ) && times(after.calls, announce) > times(before.calls, announce)
    &&& changed && grant_of(before, pair) is Some ==> times(after.calls, revoke) > times(
        before.calls,
        revoke,
    )
}

/// The work on any row lets the ledger follow the remote effects.
proof fn lemma_effect_confirms(w: World, pass: Pass, worked: Pair, pair: Pair)
    ensures
        confirms(w, effect(w, pass, worked), pair),
{
    let grant = Action::GrantRole { pair, role: w.roles[pair.tenant] };
    let announce = Action::Announce { pair, channel: w.channels[pair.tenant] };
    let revoke = Action::RevokeRole { pair, role: w.roles[pair.tenant] };
    let made_revoke = Action::RevokeRole { pair: worked, role: w.roles[worked.tenant] };
    let made_grant = Action::GrantRole { pair: worked, role: w.roles[worked.tenant] };
    let made_announce = Action::Announce { pair: worked, channel: w.channels[worked.tenant] };
    lemma_times_push(w.calls, made_revoke, grant);
    lemma_times_push(w.calls, made_revoke, announce);
    lemma_times_push(w.calls, made_revoke, revoke);
    lemma_times_push(w.calls, made_grant, grant);
    lemma_times_push(w.calls, made_grant, announce);
    lemma_times_push(w.calls, made_grant, revoke);
    lemma_times_push(w.calls.push(made_grant), made_announce, grant);
    lemma_times_push(w.calls.push(made_grant), made_announce, announce);
    lemma_times_push(w.calls.push(made_grant), made_announce, revoke);
}

/// A pass over any rows lets the ledger follow the remote effects.
proof fn lemma_phase_confirms(w: World, pass: Pass, rows: Seq<Pair>, pair: Pair)
    ensures
        confirms(w, phase(w, pass, rows), pair),
    decreases rows.len(),
{
    if rows.len() > 0 {
        let before = phase(w, pass, rows.drop_last());
        lemma_phase_confirms(w, pass, rows.drop_last(), pair);
        lemma_phase_setup(w, pass, rows.drop_last());
        lemma_row_is_effect(before, pass, rows.last());
        lemma_effect_confirms(before, pass, rows.last(), pair);
    }
}

/// The ledger follows the remote effects and never runs ahead of them,
/// whatever rows a tick is given. Where a tick leaves a pair with a grant
/// that it did not hold before, the tick has made a grant call and an
/// announcement for it; where a grant that the pair held is gone or replaced,
/// the tick has made a revoke call for it.
pub proof fn law_ledger_confirms_remote_effects(
    w: World,
    now: Moment,
    expired: Seq<Pair>,
    due: Seq<Pair>,
    pair: Pair,
)
    ensures
        confirms(w, tick(w, now, expired, due), pair),
{
    let mid = phase(w, Pass::Expire, expired);
    lemma_phase_setup(w, Pass::Expire, expired);
    lemma_phase_confirms(w, Pass::Expire, expired, pair);
    lemma_phase_confirms(mid, Pass::Activate { now: now.unix_secs }, due, pair);
}

/// One tick as the store and the clock feed it.
pub struct Run {
    pub now: Moment,
    pub expired: Seq<Pair>,
    pub due: Seq<Pair>,
}

/// The world after the ticks `runs`, one after the other.
pub open spec fn ticks(w: World, runs: Seq<Run>) -> World
    decreases runs.len(),
{
    if runs.len() == 0 {
        w
    } else {
        let last = runs.last();
        tick(ticks(w, runs.drop_last()), last.now, last.expired, last.due)
    }
}

/// Whether the directory refuses every request to grant or revoke a role.
pub open spec fn directory_down(w: World) -> bool {
    forall|pair: Pair, role: u64|
        #![auto]
        w.failing.contains(Action::GrantRole { pair, role }) && w.failing.contains(
            Action::RevokeRole { pair, role },
        )
}

/// The world `w` with `failing` as the requests that fail from now on.
pub open spec fn with_failures(w: World, failing: Set<Action>) -> World {
    World { failing, ..w }
}

/// While the directory is down a pass changes nothing at all.
pub proof fn lemma_phase_during_outage(w: World, pass: Pass, rows: Seq<Pair>)
    requires
        directory_down(w),
    ensures
        phase(w, pass, rows) == w,
    decreases rows.len(),
{
    if rows.len() > 0 {
        lemma_phase_during_outage(w, pass, rows.drop_last());
        lemma_row_is_effect(w, pass, rows.last());
    }
}

/// While the directory is down, ticks change nothing: no grant is recorded or
/// removed, and nothing is added to the log, however many ticks there are and
/// whatever rows they are given.
pub proof fn law_outage_changes_nothing(w: World, runs: Seq<Run>)
    requires
        directory_down(w),
    ensures
        ticks(w, runs) == w,
    decreases runs.len(),
{
    if runs.len() > 0 {
        let last = runs.last();
        law_outage_changes_nothing(w, runs.drop_last());
        lemma_phase_during_outage(w, Pass::Expire, last.expired);
        lemma_phase_during_outage(w, Pass::Activate { now: last.now.unix_secs }, last.due);
    }
}

/// Recovery of an activation. After any number of ticks with the directory
/// down, the first tick with the services back activates a pair that is due,
/// and since before the outage exactly one grant call and one announcement
/// were made for it.
pub proof fn law_recovery_activates_once(
    w: World,
    outage: Seq<Run>,
    failing: Set<Action>,
    now: Moment,
    window: u64,
    expired: Seq<Pair>,
    due: Seq<Pair>,
    pair: Pair,
    role: u64,
    channel: u64,
)
    requires
        directory_down(w),
        listed(with_failures(ticks(w, outage), failing), now, window, expired, due),
        is_due(w, pair, now.today),
        can_activate(with_failures(w, failing), pair, role, channel, now.unix_secs),
    ensures
        grant_of(
            tick(with_failures(ticks(w, outage), failing), now, expired, due),
            pair,
        ) == Some(now.unix_secs),
        grew_by(
            w,
            tick(with_failures(ticks(w, outage), failing), now, expired, due),
            pair,
            two(Action::GrantRole { pair, role }, Action::Announce { pair, channel }),
        ),
{
    law_outage_changes_nothing(w, outage);
    law_activation(with_failures(w, failing), now, window, expired, due, pair, role, channel);
}

/// Recovery of an expiry. After any number of ticks with the directory down,
/// the first tick with the services back removes a grant that has outlived
/// the window, and since before the outage exactly one revoke call was made
/// for the pair.
pub proof fn law_recovery_expires_once(
    w: World,
    outage: Seq<Run>,
    failing: Set<Action>,
    now: Moment,
    window: u64,
    expired: Seq<Pair>,
    due: Seq<Pair>,
    pair: Pair,
    role: u64,
)
    requires
        directory_down(w),
        listed(with_failures(ticks(w, outage), failing), now, window, expired, due),
        is_expired(w, pair, now.unix_secs, window),
        can_expire(with_failures(w, failing), pair, role),
        !celebrates(w, pair, now),
    ensures
        !tick(with_failures(ticks(w, outage), failing), now, expired, due).grants.contains_key(pair),
        grew_by(
            w,
            tick(with_failures(ticks(w, outage), failing), now, expired, due),
            pair,
            one(Action::RevokeRole { pair, role }),
        ),
{
    law_outage_changes_nothing(w, outage);
    law_expiry(with_failures(w, failing), now, window, expired, due, pair, role);
}

} // verus!
