use school_db::id::{PomodoroSessionId, Timestamp, UserId};
use school_db::page::Uuid;
use school_db::pomodoro::{
    day_number, finish, list_for_user, start, Closing, Finish, FinishRefusal, FinishReply, Quota,
    StudyCounters,
};
use school_db::profile::{load, stats, BadgeStats, PomodoroTotals};
use school_db::transaction::Step;

const MINUTE: i64 = 60_000;
const DAY: i64 = 86_400_000;
const QUOTA: Quota = Quota {
    min_ms: 25 * MINUTE,
    per_day: 3,
};

/// One user's rows, as the statements of a finish see them.
struct Desk {
    open: Option<(i64, Option<String>)>,
    user: Option<(StudyCounters, i64, i64, i64)>,
    log: Vec<Closing>,
}

impl Desk {
    fn new() -> Desk {
        let counters = StudyCounters {
            counted_today: 0,
            counted_day: None,
            streak_current: 0,
            streak_last_day: None,
        };
        Desk {
            open: None,
            user: Some((counters, 0, 0, 0)),
            log: Vec::new(),
        }
    }

    /// `(current, longest)`.
    fn streak(&self) -> (i64, i64) {
        let user = self.user.as_ref().unwrap();
        (user.0.streak_current, user.3)
    }

    /// `(finished_total, focus_ms_total)`.
    fn totals(&self) -> (i64, i64) {
        let user = self.user.as_ref().unwrap();
        (user.1, user.2)
    }

    fn start(&mut self, at: i64, label: Option<&str>) {
        self.open = Some((at, label.map(|text| text.to_string())));
    }

    fn finish(&mut self, done: i64) -> Result<(), FinishRefusal> {
        let done = Timestamp(done);
        let mut at = Finish::TakeOpen;
        let mut open = self.open.clone();
        let mut user = self.user;
        let mut filed: Vec<Closing> = Vec::new();
        loop {
            let reply = match &at {
                Finish::TakeOpen => match open.take() {
                    Some((started, label)) => FinishReply::Open {
                        started_at: Timestamp(started),
                        label,
                    },
                    None => FinishReply::Empty,
                },
                Finish::ReadCounters { .. } => match &user {
                    Some(user) => FinishReply::Counters(user.0),
                    None => FinishReply::Empty,
                },
                Finish::CreditStint { credit, .. } => {
                    let row = user.as_mut().unwrap();
                    row.0 = StudyCounters {
                        counted_today: credit.counted_today,
                        counted_day: Some(credit.day),
                        streak_current: credit.streak,
                        streak_last_day: Some(credit.day),
                    };
                    row.1 += 1;
                    row.2 += credit.ms;
                    row.3 = row.3.max(credit.streak);
                    FinishReply::Done
                }
                Finish::RollDay { day, .. } => {
                    let row = user.as_mut().unwrap();
                    row.0.counted_today = 0;
                    row.0.counted_day = Some(*day);
                    FinishReply::Done
                }
                Finish::FileStint { closing } => {
                    filed.push(Closing {
                        started_at: closing.started_at,
                        finished_at: closing.finished_at,
                        counted: closing.counted,
                        label: closing.label.clone(),
                    });
                    FinishReply::Done
                }
            };
            match finish(at, reply, done, QUOTA) {
                Step::Ask(next) => at = next,
                Step::Commit(()) => {
                    self.open = open;
                    self.user = user;
                    self.log.extend(filed);
                    return Ok(());
                }
                Step::Abort(refusal) => return Err(refusal),
            }
        }
    }

    fn one_stint(&mut self, day: i64) {
        let at = day * DAY + 8 * 3_600_000;
        self.start(at, None);
        self.finish(at + QUOTA.min_ms).unwrap();
    }
}

#[test]
fn consecutive_days_extend_the_streak_and_a_repeat_day_does_not() {
    let mut desk = Desk::new();
    assert_eq!(desk.streak(), (0, 0));
    desk.one_stint(100);
    assert_eq!(desk.streak(), (1, 1));
    desk.one_stint(100);
    assert_eq!(desk.streak(), (1, 1));
    desk.one_stint(101);
    assert_eq!(desk.streak(), (2, 2));
    desk.one_stint(102);
    assert_eq!(desk.streak(), (3, 3));
}

#[test]
fn a_gap_resets_the_run_but_never_the_high_water_mark() {
    let mut desk = Desk::new();
    desk.one_stint(100);
    desk.one_stint(101);
    assert_eq!(desk.streak().0, 2);
    desk.one_stint(103);
    assert_eq!(desk.streak(), (1, 2));
    // A clock that stepped back over a boundary is a gap too.
    desk.one_stint(98);
    assert_eq!(desk.streak(), (1, 2));
}

#[test]
fn finishing_bumps_the_stored_counters_and_an_open_stint_bumps_neither() {
    let mut desk = Desk::new();
    desk.start(0, None);
    assert_eq!(desk.totals(), (0, 0));
    desk.finish(QUOTA.min_ms + 7).unwrap();
    desk.start(QUOTA.min_ms + 10, None);
    desk.finish(2 * QUOTA.min_ms + 10).unwrap();
    desk.start(2 * QUOTA.min_ms + 11, None);
    assert_eq!(desk.totals(), (2, 2 * QUOTA.min_ms + 7));
}

#[test]
fn a_backwards_clock_adds_zero_ms_to_the_counter_never_a_negative() {
    let mut desk = Desk::new();
    desk.start(DAY + 3_600_000, None);
    desk.finish(DAY).unwrap();
    assert!(!desk.log[0].counted);
    assert_eq!(desk.totals(), (0, 0));
}

#[test]
fn a_backwards_clock_records_a_zero_stint_not_a_negative_one() {
    let mut desk = Desk::new();
    desk.start(3_600_000, Some("okuma"));
    desk.finish(1_000).unwrap();
    let closed = &desk.log[0];
    assert_eq!(closed.finished_at, Timestamp(3_600_000));
    assert!(!closed.counted);
    assert_eq!(closed.label.as_deref(), Some("okuma"));
    assert_eq!(desk.totals(), (0, 0));
}

#[test]
fn a_stint_under_the_minimum_is_logged_and_listed_but_counts_for_nothing() {
    let mut desk = Desk::new();
    desk.start(0, None);
    desk.finish(QUOTA.min_ms - 1).unwrap();
    assert!(!desk.log[0].counted);
    assert_eq!(desk.totals(), (0, 0));
    assert_eq!(desk.streak(), (0, 0));
    // Exactly the minimum counts.
    desk.start(QUOTA.min_ms, None);
    desk.finish(2 * QUOTA.min_ms).unwrap();
    assert!(desk.log[1].counted);
    assert_eq!(desk.totals(), (1, QUOTA.min_ms));
    assert_eq!(desk.streak().0, 1);
    assert_eq!(desk.log.len(), 2);
}

#[test]
fn the_day_quota_caps_the_counter_and_rolls_at_midnight_utc() {
    let mut desk = Desk::new();
    for _ in 0..QUOTA.per_day {
        desk.one_stint(5);
    }
    let before = desk.totals();
    assert_eq!(before.0, QUOTA.per_day);
    for _ in 0..3 {
        desk.one_stint(5);
    }
    assert_eq!(desk.totals(), before);
    assert_eq!(desk.log.len() as i64, QUOTA.per_day + 3);
    // The quota is a day's, not a lifetime's.
    desk.one_stint(6);
    assert_eq!(desk.totals().0, QUOTA.per_day + 1);
}

#[test]
fn the_start_finish_farm_moves_no_counter_and_mints_no_badge() {
    let mut desk = Desk::new();
    for i in 0..200 {
        desk.start(i, None);
        desk.finish(i + 1).unwrap();
    }
    assert_eq!(desk.totals(), (0, 0));
    assert_eq!(desk.streak(), (0, 0));
    assert_eq!(desk.log.len(), 200);
    // The log and the counters agree on what counted.
    for _ in 0..2 * QUOTA.per_day {
        desk.one_stint(9);
    }
    let counted = desk.log.iter().filter(|stint| stint.counted).count();
    assert_eq!(desk.totals().0, counted as i64);
    assert_eq!(counted as i64, QUOTA.per_day);
}

#[test]
fn restart_replaces_the_open_session_and_finish_closes_it() {
    let mut desk = Desk::new();
    assert_eq!(desk.finish(5), Err(FinishRefusal::NotRunning));
    desk.start(10, Some("a"));
    desk.start(20, None);
    desk.finish(30).unwrap();
    assert_eq!(desk.log.len(), 1);
    assert_eq!(desk.log[0].started_at, Timestamp(20));
    assert_eq!(desk.log[0].label, None);
    // The slot is free: a stray second finish is refused.
    assert_eq!(desk.finish(40), Err(FinishRefusal::NotRunning));
}

#[test]
fn a_finish_for_nobody_writes_nothing() {
    let mut desk = Desk::new();
    desk.user = None;
    desk.start(1, None);
    assert_eq!(desk.finish(2), Err(FinishRefusal::Gone));
    assert!(desk.open.is_some());
    assert!(desk.log.is_empty());
    assert_eq!(
        format!("{:?}", FinishRefusal::NotRunning.error()),
        "Conflict(\"no pomodoro session running\")"
    );
    assert_eq!(format!("{:?}", FinishRefusal::Gone.error()), "NotFound");
}

#[test]
fn days_are_counted_from_the_epoch_in_both_directions() {
    assert_eq!(day_number(Timestamp(0)), 0);
    assert_eq!(day_number(Timestamp(DAY - 1)), 0);
    assert_eq!(day_number(Timestamp(DAY)), 1);
    assert_eq!(day_number(Timestamp(-1)), -1);
    assert_eq!(day_number(Timestamp(-DAY)), -1);
    assert_eq!(day_number(Timestamp(-DAY - 1)), -2);
}

#[test]
fn the_statements_of_a_stint_bind_its_values() {
    let user = UserId(Uuid(7));
    let started = start(user, PomodoroSessionId(Uuid(8)), Timestamp(9), Some("etüt"));
    assert!(started
        .sql
        .contains("ON CONFLICT (app_user) WHERE finished_at IS NULL DO UPDATE"));
    assert_eq!(
        format!("{:?}", started.binds),
        "[Uuid(Uuid(7)), Uuid(Uuid(8)), I64(9), OptText(Some(\"etüt\"))]"
    );
    assert!(list_for_user(user)
        .sql
        .ends_with("ORDER BY started_at DESC, id DESC"));
    let filed = Finish::FileStint {
        closing: Closing {
            started_at: Timestamp(1),
            finished_at: Timestamp(2),
            counted: true,
            label: None,
        },
    }
    .statement(user, PomodoroSessionId(Uuid(3)));
    assert_eq!(
        format!("{:?}", filed.binds),
        "[Uuid(Uuid(3)), Uuid(Uuid(7)), I64(1), OptI64(Some(2)), Bool(true), OptText(None)]"
    );
}

#[test]
fn an_account_with_no_history_reads_as_zeros() {
    let totals = PomodoroTotals {
        sessions: 0,
        focus_ms: 0,
    };
    let figures = stats(totals, None, 3, 1);
    assert_eq!(figures.pomodoro_sessions, 0);
    assert_eq!(figures.pomodoro_focus_ms, 0);
    assert_eq!(figures.totals, BadgeStats::default());
    assert_eq!(figures.totals.homework_submitted, 0);
    assert_eq!(figures.courses, 3);
    assert_eq!(figures.classes, 1);
}

#[test]
fn only_finished_stints_count_and_an_open_one_is_invisible() {
    let (stints, counters) = load(UserId(Uuid(4)));
    assert!(stints.sql.contains("finished_at IS NOT NULL"));
    assert!(counters.sql.contains("study_streak_longest AS study_streak"));
    let mut history = BadgeStats::default();
    history.exam_sat = 6;
    let totals = PomodoroTotals {
        sessions: 2,
        focus_ms: 3000,
    };
    let figures = stats(totals, Some(history), 0, 0);
    assert_eq!(figures.pomodoro_sessions, 2);
    assert_eq!(figures.pomodoro_focus_ms, 2000 + 1000);
    assert_eq!(figures.totals.exam_sat, 6);
}

#[test]
fn a_negative_stint_sum_is_floored_at_zero() {
    let totals = PomodoroTotals {
        sessions: 1,
        focus_ms: -4000,
    };
    assert_eq!(stats(totals, None, 0, 0).pomodoro_focus_ms, 0);
}

/// Whatever is started and finished, no day counts past its quota, the
/// counters are the counted stints of the log, and the longest run never falls.
#[test]
fn no_run_of_stints_counts_a_day_past_its_quota() {
    let mut desk = Desk::new();
    let mut longest = 0;
    for day in [40, 40, 41, 41, 41, 41, 41, 42, 45, 45, 46] {
        desk.one_stint(day);
        desk.start(day * DAY + 9 * 3_600_000, Some("short"));
        desk.finish(day * DAY + 9 * 3_600_000 + MINUTE).unwrap();
        assert!(desk.finish(day * DAY + 10 * 3_600_000).is_err());
        assert!(desk.streak().1 >= longest);
        longest = desk.streak().1;
        let counted: Vec<i64> = desk
            .log
            .iter()
            .filter(|stint| stint.counted)
            .map(|stint| stint.finished_at.0.div_euclid(DAY))
            .collect();
        for seen in &counted {
            assert!(counted.iter().filter(|other| *other == seen).count() <= 3);
        }
        assert_eq!(desk.totals().0, counted.len() as i64);
    }
    assert_eq!(desk.log.len(), 22);
    assert_eq!(desk.totals(), (9, 9 * QUOTA.min_ms));
    assert_eq!(desk.streak(), (2, 3));
}
