use casper::calendar::{Moment, MonthDay};
use casper::ident::{read_rows, read_setting, Listing};
use casper::reconciler::{cutoff, Directive, Feedback, Phase, Reconciler, Report};
use casper::task::{Action, Event, Outcome, Pair, RowError, RowTask};

const HOUR: u64 = 3_600;
const DAY: i64 = 86_400;

/// A store that keeps identifiers as text, and remote services that log what
/// they carried out and refuse what they are told to refuse.
struct Fake {
    roles: Vec<(String, String)>,
    channels: Vec<(String, String)>,
    days: Vec<(String, String, MonthDay)>,
    grants: Vec<(String, String, i64)>,
    failing: Vec<Action>,
    listings_fail: bool,
    directory_down: bool,
    calls: Vec<Action>,
}

impl Fake {
    fn new() -> Fake {
        Fake {
            roles: Vec::new(),
            channels: Vec::new(),
            days: Vec::new(),
            grants: Vec::new(),
            failing: Vec::new(),
            listings_fail: false,
            directory_down: false,
            calls: Vec::new(),
        }
    }

    fn configure(&mut self, tenant: u64, role: u64, channel: u64) {
        self.roles.push((tenant.to_string(), role.to_string()));
        self.channels.push((tenant.to_string(), channel.to_string()));
    }

    fn save(&mut self, pair: Pair, month: u32, day: u32) {
        self.days.push((pair.tenant.to_string(), pair.user.to_string(), MonthDay { month, day }));
    }

    fn grant_of(&self, pair: Pair) -> Option<i64> {
        let tenant = pair.tenant.to_string();
        let user = pair.user.to_string();
        self.grants.iter().find(|row| row.0 == tenant && row.1 == user).map(|row| row.2)
    }

    fn count(&self, call: Action) -> usize {
        self.calls.iter().filter(|made| **made == call).count()
    }

    fn calls_about(&self, pair: Pair) -> Vec<Action> {
        self.calls
            .iter()
            .filter(|made| match made {
                Action::GrantRole { pair: p, .. }
                | Action::RevokeRole { pair: p, .. }
                | Action::Announce { pair: p, .. } => *p == pair,
                _ => false,
            })
            .copied()
            .collect()
    }

    fn setting(table: &[(String, String)], tenant: u64) -> Event {
        let key = tenant.to_string();
        let stored = table.iter().find(|row| row.0 == key).map(|row| row.1.as_str());
        read_setting(stored)
    }

    fn perform(&mut self, action: Action) -> Event {
        if self.failing.contains(&action) {
            return Event::Failed;
        }
        match action {
            Action::LookupRole { tenant } => Fake::setting(&self.roles, tenant),
            Action::LookupChannel { tenant } => Fake::setting(&self.channels, tenant),
            Action::GrantRole { .. } | Action::RevokeRole { .. } => {
                if self.directory_down {
                    return Event::Failed;
                }
                self.calls.push(action);
                Event::Succeeded
            }
            Action::Announce { .. } => {
                self.calls.push(action);
                Event::Succeeded
            }
            Action::InsertGrant { pair, granted_at } => {
                if self.grant_of(pair).is_some() {
                    return Event::Failed;
                }
                self.grants.push((pair.tenant.to_string(), pair.user.to_string(), granted_at));
                Event::Succeeded
            }
            Action::DeleteGrant { pair } => {
                let tenant = pair.tenant.to_string();
                let user = pair.user.to_string();
                self.grants.retain(|row| !(row.0 == tenant && row.1 == user));
                Event::Succeeded
            }
            Action::Finish(_) => Event::Succeeded,
        }
    }

    fn drive(&mut self, mut task: RowTask, mut action: Action) -> Outcome {
        loop {
            if let Action::Finish(outcome) = action {
                return outcome;
            }
            let event = self.perform(action);
            action = task.step(event);
        }
    }

    fn list_expired(&self, before: i64) -> Vec<(String, String)> {
        self.grants
            .iter()
            .filter(|row| row.2 < before)
            .map(|row| (row.0.clone(), row.1.clone()))
            .collect()
    }

    fn list_due(&self, today: MonthDay) -> Vec<(String, String)> {
        self.days
            .iter()
            .filter(|row| row.2 == today)
            .filter(|row| !self.grants.iter().any(|held| held.0 == row.0 && held.1 == row.1))
            .map(|row| (row.0.clone(), row.1.clone()))
            .collect()
    }

    fn tick(&mut self, reconciler: &mut Reconciler, now: Moment) -> Report {
        let mut directive = reconciler.begin(now);
        loop {
            let feedback = match directive {
                Directive::ListExpired { cutoff } => {
                    if self.listings_fail {
                        Feedback::ListingFailed
                    } else {
                        Feedback::Rows(read_rows(&self.list_expired(cutoff)))
                    }
                }
                Directive::ListDue { today } => {
                    if self.listings_fail {
                        Feedback::ListingFailed
                    } else {
                        Feedback::Rows(read_rows(&self.list_due(today)))
                    }
                }
                Directive::Work { task, action } => Feedback::Row(self.drive(task, action)),
                Directive::Rest(report) => return report,
            };
            directive = reconciler.advance(feedback);
        }
    }
}

fn at(unix_secs: i64, month: u32, day: u32) -> Moment {
    Moment { unix_secs, year: 2023, today: MonthDay { month, day } }
}

fn blank() -> Report {
    Report {
        activated: 0,
        expired: 0,
        configuration_missing: 0,
        external_service: 0,
        persistence: 0,
        malformed: 0,
    }
}

const T: u64 = 100;
const U: Pair = Pair { tenant: 100, user: 7 };
const V: Pair = Pair { tenant: 100, user: 8 };
const R1: u64 = 11;
const C1: u64 = 21;
const JUNE_15: i64 = 1_686_787_200;

#[test]
fn due_anniversary_is_activated_once() {
    let mut world = Fake::new();
    world.configure(T, R1, C1);
    world.save(U, 6, 15);
    let mut reconciler = Reconciler::new(HOUR);
    let report = world.tick(&mut reconciler, at(JUNE_15, 6, 15));
    assert_eq!(report, Report { activated: 1, ..blank() });
    assert_eq!(world.grant_of(U), Some(JUNE_15));
    assert_eq!(world.grants.len(), 1);
    assert_eq!(
        world.calls,
        vec![Action::GrantRole { pair: U, role: R1 }, Action::Announce { pair: U, channel: C1 }]
    );
    assert_eq!(reconciler.phase(), Phase::Idle);
    assert_eq!(reconciler.report(), report);
}

#[test]
fn second_run_on_the_same_day_adds_nothing() {
    let mut world = Fake::new();
    world.configure(T, R1, C1);
    world.save(U, 6, 15);
    let mut reconciler = Reconciler::new(HOUR);
    world.tick(&mut reconciler, at(JUNE_15, 6, 15));
    let report = world.tick(&mut reconciler, at(JUNE_15 + 10, 6, 15));
    assert_eq!(report, blank());
    assert_eq!(world.grant_of(U), Some(JUNE_15));
    assert_eq!(world.grants.len(), 1);
    assert_eq!(world.count(Action::GrantRole { pair: U, role: R1 }), 1);
    assert_eq!(world.count(Action::Announce { pair: U, channel: C1 }), 1);
    assert_eq!(world.calls.len(), 2);
}

#[test]
fn grant_past_the_window_is_revoked_once() {
    let mut world = Fake::new();
    world.configure(T, R1, C1);
    world.grants.push(("100".to_string(), "7".to_string(), JUNE_15));
    let mut reconciler = Reconciler::new(HOUR);
    let later = JUNE_15 + HOUR as i64 + 1;
    let report = world.tick(&mut reconciler, at(later, 6, 15));
    assert_eq!(report, Report { expired: 1, ..blank() });
    assert_eq!(world.grant_of(U), None);
    assert_eq!(world.calls, vec![Action::RevokeRole { pair: U, role: R1 }]);
    let again = world.tick(&mut reconciler, at(later + 10, 6, 15));
    assert_eq!(again, blank());
    assert_eq!(world.calls, vec![Action::RevokeRole { pair: U, role: R1 }]);
    assert_eq!(world.grant_of(U), None);
}

#[test]
fn grant_exactly_as_old_as_the_window_stays() {
    let mut world = Fake::new();
    world.configure(T, R1, C1);
    world.grants.push(("100".to_string(), "7".to_string(), JUNE_15));
    let mut reconciler = Reconciler::new(HOUR);
    let report = world.tick(&mut reconciler, at(JUNE_15 + HOUR as i64, 6, 16));
    assert_eq!(report, blank());
    assert_eq!(world.grant_of(U), Some(JUNE_15));
    assert!(world.calls.is_empty());
}

#[test]
fn refused_revoke_keeps_its_grant_and_others_go_on() {
    let mut world = Fake::new();
    world.configure(T, R1, C1);
    world.grants.push(("100".to_string(), "7".to_string(), JUNE_15));
    world.grants.push(("100".to_string(), "8".to_string(), JUNE_15 + 5));
    world.grants.push(("100".to_string(), "9".to_string(), JUNE_15 + 6));
    world.failing.push(Action::RevokeRole { pair: V, role: R1 });
    let mut reconciler = Reconciler::new(HOUR);
    let report = world.tick(&mut reconciler, at(JUNE_15 + DAY, 6, 16));
    assert_eq!(report, Report { expired: 2, external_service: 1, ..blank() });
    assert_eq!(world.grant_of(V), Some(JUNE_15 + 5));
    assert_eq!(world.grant_of(U), None);
    assert_eq!(world.grant_of(Pair { tenant: 100, user: 9 }), None);
    assert!(world.calls_about(V).is_empty());
    assert_eq!(world.count(Action::RevokeRole { pair: U, role: R1 }), 1);
    assert_eq!(world.count(Action::RevokeRole { pair: Pair { tenant: 100, user: 9 }, role: R1 }), 1);
}

#[test]
fn refused_grant_does_not_stop_other_activations() {
    let mut world = Fake::new();
    world.configure(T, R1, C1);
    world.save(U, 6, 15);
    world.save(V, 6, 15);
    world.failing.push(Action::GrantRole { pair: U, role: R1 });
    let mut reconciler = Reconciler::new(HOUR);
    let report = world.tick(&mut reconciler, at(JUNE_15, 6, 15));
    assert_eq!(report, Report { activated: 1, external_service: 1, ..blank() });
    assert_eq!(world.grant_of(U), None);
    assert_eq!(world.grant_of(V), Some(JUNE_15));
    assert!(world.calls_about(U).is_empty());
}

#[test]
fn outage_of_the_directory_is_recovered_with_one_call() {
    let mut world = Fake::new();
    world.configure(T, R1, C1);
    world.save(U, 6, 15);
    world.grants.push(("100".to_string(), "8".to_string(), JUNE_15 - DAY));
    world.directory_down = true;
    let mut reconciler = Reconciler::new(HOUR);
    for n in 0..4 {
        let report = world.tick(&mut reconciler, at(JUNE_15 + n * 10, 6, 15));
        assert_eq!(report, Report { external_service: 2, ..blank() });
        assert!(world.calls.is_empty());
        assert_eq!(world.grant_of(U), None);
        assert_eq!(world.grant_of(V), Some(JUNE_15 - DAY));
    }
    world.directory_down = false;
    let report = world.tick(&mut reconciler, at(JUNE_15 + 40, 6, 15));
    assert_eq!(report, Report { activated: 1, expired: 1, ..blank() });
    assert_eq!(world.grant_of(U), Some(JUNE_15 + 40));
    assert_eq!(world.grant_of(V), None);
    assert_eq!(world.count(Action::GrantRole { pair: U, role: R1 }), 1);
    assert_eq!(world.count(Action::Announce { pair: U, channel: C1 }), 1);
    assert_eq!(world.count(Action::RevokeRole { pair: V, role: R1 }), 1);
    assert_eq!(world.calls.len(), 3);
}

#[test]
fn anniversary_is_granted_on_its_day_and_revoked_after_the_window() {
    let mut world = Fake::new();
    world.configure(T, R1, C1);
    world.save(U, 6, 15);
    let mut reconciler = Reconciler::new(HOUR);
    let quiet = world.tick(&mut reconciler, at(JUNE_15 - DAY, 6, 14));
    assert_eq!(quiet, blank());
    assert!(world.calls.is_empty());

    let granted = world.tick(&mut reconciler, at(JUNE_15, 6, 15));
    assert_eq!(granted, Report { activated: 1, ..blank() });
    assert_eq!(world.grant_of(U), Some(JUNE_15));
    assert_eq!(world.count(Action::Announce { pair: U, channel: C1 }), 1);

    let revoked = world.tick(&mut reconciler, at(JUNE_15 + DAY, 6, 16));
    assert_eq!(revoked, Report { expired: 1, ..blank() });
    assert_eq!(world.grant_of(U), None);
    assert_eq!(
        world.calls,
        vec![
            Action::GrantRole { pair: U, role: R1 },
            Action::Announce { pair: U, channel: C1 },
            Action::RevokeRole { pair: U, role: R1 },
        ]
    );

    let after = world.tick(&mut reconciler, at(JUNE_15 + 2 * DAY, 6, 17));
    assert_eq!(after, blank());
    assert_eq!(world.calls.len(), 3);
}

#[test]
fn leap_day_is_not_observed_on_the_days_around_it() {
    let mut world = Fake::new();
    world.configure(T, R1, C1);
    world.save(U, 2, 29);
    let mut reconciler = Reconciler::new(HOUR);
    let feb_28 = 1_677_542_400;
    assert_eq!(world.tick(&mut reconciler, at(feb_28, 2, 28)), blank());
    assert_eq!(world.tick(&mut reconciler, at(feb_28 + DAY, 3, 1)), blank());
    assert!(world.calls.is_empty());
    assert!(world.grants.is_empty());
    let leap = Moment { unix_secs: 1_709_164_800, year: 2024, today: MonthDay { month: 2, day: 29 } };
    assert_eq!(world.tick(&mut reconciler, leap), Report { activated: 1, ..blank() });
    assert_eq!(world.grant_of(U), Some(1_709_164_800));
}

#[test]
fn tenant_without_role_is_skipped_until_configured() {
    let mut world = Fake::new();
    world.save(U, 6, 15);
    world.grants.push(("100".to_string(), "8".to_string(), 0));
    let mut reconciler = Reconciler::new(HOUR);
    let report = world.tick(&mut reconciler, at(JUNE_15, 6, 15));
    assert_eq!(report, Report { configuration_missing: 2, ..blank() });
    assert!(world.calls.is_empty());
    assert_eq!(world.grant_of(V), Some(0));
    assert_eq!(world.grant_of(U), None);

    world.configure(T, R1, C1);
    let report = world.tick(&mut reconciler, at(JUNE_15 + 10, 6, 15));
    assert_eq!(report, Report { activated: 1, expired: 1, ..blank() });
}

#[test]
fn tenant_without_channel_gets_no_grant_attempt() {
    let mut world = Fake::new();
    world.roles.push(("100".to_string(), "11".to_string()));
    world.save(U, 6, 15);
    let mut reconciler = Reconciler::new(HOUR);
    let report = world.tick(&mut reconciler, at(JUNE_15, 6, 15));
    assert_eq!(report, Report { configuration_missing: 1, ..blank() });
    assert!(world.calls.is_empty());
    assert_eq!(world.grant_of(U), None);
}

#[test]
fn failed_announcement_records_nothing_and_is_tried_again() {
    let mut world = Fake::new();
    world.configure(T, R1, C1);
    world.save(U, 6, 15);
    world.failing.push(Action::Announce { pair: U, channel: C1 });
    let mut reconciler = Reconciler::new(HOUR);
    let report = world.tick(&mut reconciler, at(JUNE_15, 6, 15));
    assert_eq!(report, Report { external_service: 1, ..blank() });
    assert_eq!(world.grant_of(U), None);
    assert_eq!(world.calls, vec![Action::GrantRole { pair: U, role: R1 }]);

    world.failing.clear();
    let report = world.tick(&mut reconciler, at(JUNE_15 + 10, 6, 15));
    assert_eq!(report, Report { activated: 1, ..blank() });
    assert_eq!(world.count(Action::GrantRole { pair: U, role: R1 }), 2);
    assert_eq!(world.count(Action::Announce { pair: U, channel: C1 }), 1);
    assert_eq!(world.grant_of(U), Some(JUNE_15 + 10));
}

#[test]
fn failed_ledger_write_is_a_persistence_error() {
    let mut world = Fake::new();
    world.configure(T, R1, C1);
    world.save(U, 6, 15);
    world.grants.push(("100".to_string(), "8".to_string(), 0));
    world.failing.push(Action::InsertGrant { pair: U, granted_at: JUNE_15 });
    world.failing.push(Action::DeleteGrant { pair: V });
    let mut reconciler = Reconciler::new(HOUR);
    let report = world.tick(&mut reconciler, at(JUNE_15, 6, 15));
    assert_eq!(report, Report { persistence: 2, ..blank() });
    assert_eq!(world.grant_of(U), None);
    assert_eq!(world.grant_of(V), Some(0));
}

#[test]
fn failed_listings_leave_the_tick_without_rows() {
    let mut world = Fake::new();
    world.configure(T, R1, C1);
    world.save(U, 6, 15);
    world.grants.push(("100".to_string(), "8".to_string(), 0));
    world.listings_fail = true;
    let mut reconciler = Reconciler::new(HOUR);
    let report = world.tick(&mut reconciler, at(JUNE_15, 6, 15));
    assert_eq!(report, Report { persistence: 2, ..blank() });
    assert!(world.calls.is_empty());
    assert_eq!(world.grants.len(), 1);
}

#[test]
fn unreadable_rows_are_reported_and_the_rest_is_worked_on() {
    let mut world = Fake::new();
    world.configure(T, R1, C1);
    world.save(U, 6, 15);
    world.days.push(("100".to_string(), "user-9".to_string(), MonthDay { month: 6, day: 15 }));
    world.grants.push(("guild".to_string(), "8".to_string(), 0));
    let mut reconciler = Reconciler::new(HOUR);
    let report = world.tick(&mut reconciler, at(JUNE_15, 6, 15));
    assert_eq!(report, Report { activated: 1, malformed: 2, ..blank() });
    assert_eq!(world.grant_of(U), Some(JUNE_15));
}

#[test]
fn unreadable_role_is_a_malformed_record() {
    let mut world = Fake::new();
    world.roles.push(("100".to_string(), "the-role".to_string()));
    world.channels.push(("100".to_string(), "21".to_string()));
    world.save(U, 6, 15);
    let mut reconciler = Reconciler::new(HOUR);
    let report = world.tick(&mut reconciler, at(JUNE_15, 6, 15));
    assert_eq!(report, Report { malformed: 1, ..blank() });
    assert!(world.calls.is_empty());
}

#[test]
fn expired_grant_on_its_anniversary_is_removed_then_made_anew() {
    let mut world = Fake::new();
    world.configure(T, R1, C1);
    world.save(U, 6, 15);
    world.grants.push(("100".to_string(), "7".to_string(), JUNE_15));
    let mut reconciler = Reconciler::new(HOUR);
    let later = JUNE_15 + 2 * HOUR as i64;
    let report = world.tick(&mut reconciler, at(later, 6, 15));
    assert_eq!(report, Report { activated: 1, expired: 1, ..blank() });
    assert_eq!(world.grant_of(U), Some(later));
    assert_eq!(
        world.calls,
        vec![
            Action::RevokeRole { pair: U, role: R1 },
            Action::GrantRole { pair: U, role: R1 },
            Action::Announce { pair: U, channel: C1 },
        ]
    );
}

#[test]
fn directives_follow_the_two_passes_in_order() {
    let mut reconciler = Reconciler::new(HOUR);
    assert_eq!(reconciler.window(), HOUR);
    assert_eq!(reconciler.phase(), Phase::Idle);
    let now = at(JUNE_15, 6, 15);
    assert_eq!(reconciler.begin(now), Directive::ListExpired { cutoff: JUNE_15 - 3_600 });
    assert_eq!(reconciler.phase(), Phase::ListingExpired);
    let (task, action) = RowTask::expire(U);
    assert_eq!(
        reconciler.advance(Feedback::Rows(Listing { pairs: vec![U, V], malformed: 0 })),
        Directive::Work { task, action }
    );
    assert_eq!(reconciler.phase(), Phase::Expiring);
    let (task, action) = RowTask::expire(V);
    assert_eq!(
        reconciler.advance(Feedback::Row(Outcome::Expired)),
        Directive::Work { task, action }
    );
    assert_eq!(
        reconciler.advance(Feedback::Row(Outcome::Skipped(RowError::ExternalService))),
        Directive::ListDue { today: MonthDay { month: 6, day: 15 } }
    );
    assert_eq!(reconciler.phase(), Phase::ListingDue);
    let (task, action) = RowTask::activate(U, JUNE_15);
    assert_eq!(
        reconciler.advance(Feedback::Rows(Listing { pairs: vec![U], malformed: 3 })),
        Directive::Work { task, action }
    );
    assert_eq!(reconciler.phase(), Phase::Activating);
    let report = Report { activated: 1, expired: 1, external_service: 1, malformed: 3, ..blank() };
    assert_eq!(reconciler.advance(Feedback::Row(Outcome::Activated)), Directive::Rest(report));
    assert_eq!(reconciler.phase(), Phase::Idle);
    assert_eq!(reconciler.advance(Feedback::Row(Outcome::Activated)), Directive::Rest(report));
    assert_eq!(reconciler.report(), report);
}

#[test]
fn empty_listings_end_the_tick_at_once() {
    let mut reconciler = Reconciler::new(HOUR);
    reconciler.begin(at(JUNE_15, 6, 15));
    assert_eq!(
        reconciler.advance(Feedback::Rows(Listing { pairs: Vec::new(), malformed: 0 })),
        Directive::ListDue { today: MonthDay { month: 6, day: 15 } }
    );
    assert_eq!(
        reconciler.advance(Feedback::Rows(Listing { pairs: Vec::new(), malformed: 0 })),
        Directive::Rest(blank())
    );
}

#[test]
fn feedback_of_the_wrong_kind_counts_as_a_store_failure() {
    let mut reconciler = Reconciler::new(HOUR);
    reconciler.begin(at(JUNE_15, 6, 15));
    assert_eq!(
        reconciler.advance(Feedback::Row(Outcome::Activated)),
        Directive::ListDue { today: MonthDay { month: 6, day: 15 } }
    );
    let (task, action) = RowTask::activate(U, JUNE_15);
    assert_eq!(
        reconciler.advance(Feedback::Rows(Listing { pairs: vec![U], malformed: 0 })),
        Directive::Work { task, action }
    );
    assert_eq!(
        reconciler.advance(Feedback::ListingFailed),
        Directive::Rest(Report { persistence: 2, ..blank() })
    );
}

#[test]
fn beginning_anew_gives_up_the_tick_under_way() {
    let mut reconciler = Reconciler::new(HOUR);
    reconciler.begin(at(JUNE_15, 6, 15));
    reconciler.advance(Feedback::Rows(Listing { pairs: vec![U, V], malformed: 1 }));
    reconciler.advance(Feedback::Row(Outcome::Expired));
    assert_eq!(
        reconciler.begin(at(JUNE_15 + 60, 6, 15)),
        Directive::ListExpired { cutoff: JUNE_15 + 60 - 3_600 }
    );
    assert_eq!(reconciler.report(), blank());
    assert_eq!(reconciler.phase(), Phase::ListingExpired);
}

#[test]
fn cutoff_is_the_window_before_now() {
    assert_eq!(cutoff(10_000, 3_600), 6_400);
    assert_eq!(cutoff(0, 0), 0);
    assert_eq!(cutoff(-5, 10), -15);
    assert_eq!(cutoff(i64::MAX, u64::MAX), i64::MIN);
    assert_eq!(cutoff(i64::MIN, 0), i64::MIN);
    assert_eq!(cutoff(i64::MIN, 1), i64::MIN);
    assert_eq!(cutoff(0, u64::MAX), i64::MIN);
    assert_eq!(cutoff(0, i64::MAX as u64), -i64::MAX);
    assert_eq!(cutoff(-1, i64::MAX as u64), i64::MIN);
    assert_eq!(cutoff(-2, i64::MAX as u64), i64::MIN);
}

#[test]
fn grants_before_the_cutoff_are_those_older_than_the_window() {
    let now: i64 = 10_000;
    let window: u64 = 3_600;
    for granted_at in [i64::MIN, -1, 0, 990, 6_399, 6_400, 6_401, 10_000, 10_001, i64::MAX] {
        let older = (now as i128) - (granted_at as i128) > window as i128;
        assert_eq!(granted_at < cutoff(now, window), older, "granted at {}", granted_at);
    }
    for granted_at in [i64::MIN, i64::MIN + 1, 0, i64::MAX] {
        let older = (i64::MAX as i128) - (granted_at as i128) > u64::MAX as i128;
        assert_eq!(granted_at < cutoff(i64::MAX, u64::MAX), older);
        assert!(!older);
    }
}

#[test]
fn report_counts_each_kind_of_outcome() {
    let mut report = Report::new();
    assert_eq!(report, blank());
    report.record(Outcome::Activated);
    report.record(Outcome::Expired);
    report.record(Outcome::Expired);
    report.record(Outcome::Skipped(RowError::ConfigurationMissing));
    report.record(Outcome::Skipped(RowError::ExternalService));
    report.record(Outcome::Skipped(RowError::ExternalService));
    report.record(Outcome::Skipped(RowError::Persistence));
    report.record(Outcome::Skipped(RowError::MalformedRecord));
    assert_eq!(
        report,
        Report {
            activated: 1,
            expired: 2,
            configuration_missing: 1,
            external_service: 2,
            persistence: 1,
            malformed: 1,
        }
    );
    assert_eq!(report.skipped(), 5);
}

#[test]
fn report_counts_stop_at_the_largest_value() {
    let mut report = Report { activated: u64::MAX, malformed: u64::MAX, persistence: 3, ..blank() };
    report.record(Outcome::Activated);
    assert_eq!(report.activated, u64::MAX);
    assert_eq!(report.skipped(), u64::MAX);
}

#[test]
fn tick_at_the_current_time_starts_from_the_clock() {
    let mut reconciler = Reconciler::new(HOUR);
    let (now, directive) = reconciler.begin_now();
    assert!(now.unix_secs > 1_600_000_000);
    assert!(now.year >= 2020);
    assert!((1..=12).contains(&now.today.month));
    assert!((1..=31).contains(&now.today.day));
    assert_eq!(directive, Directive::ListExpired { cutoff: now.unix_secs - 3_600 });
    assert_eq!(reconciler.phase(), Phase::ListingExpired);
    assert_eq!(
        reconciler.advance(Feedback::ListingFailed),
        Directive::ListDue { today: now.today }
    );
}
