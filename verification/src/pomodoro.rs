//! The `pomodoro_session` table: the start and finish of the one open stint,
//! and the log. Whether a stint counts, the lifetime counters and the study
//! streak are all decided in the one transaction of a finish.

use vstd::prelude::*;

use crate::error::{AppError, AppErrorView};
use crate::id::{PomodoroSessionId, Timestamp, UserId};
use crate::page::{opt_string, opt_text, Param, ParamView, Statement, StatementView};
use crate::sql::{Cell, Cond, Conflict, Cuts, Expr, Picking, Row, Storing, Term, Text, Writing};
use crate::transaction::Step;

verus! {

pub const START: &'static str =
    "INSERT INTO pomodoro_session (id, app_user, started_at, finished_at, counted, label) \
     VALUES ($2, $1, $3, NULL, NULL, $4) ON CONFLICT (app_user) WHERE finished_at IS NULL DO \
     UPDATE SET started_at = EXCLUDED.started_at, finished_at = NULL, counted = NULL, label = \
     EXCLUDED.label RETURNING id, app_user AS \"user\", started_at, finished_at, counted, label";

/// The start of a stint. A stint that still runs is restamped in place: it
/// never counted, and there is one open stint for each user.
pub fn start(
    user: UserId,
    id: PomodoroSessionId,
    started_at: Timestamp,
    label: Option<&str>,
) -> (statement: Statement)
    ensures
        statement@ == crate::page::sends(
            START,
            seq![
                ParamView::Uuid(user.0),
                ParamView::Uuid(id.0),
                ParamView::I64(started_at.0),
                ParamView::OptText(crate::page::opt_view(label)),
            ],
        ),
{
    Statement::new(
        START,
        vec![
            Param::Uuid(user.0),
            Param::Uuid(id.0),
            Param::I64(started_at.0),
            Param::OptText(opt_text(label)),
        ],
    )
}

pub const LIST_FOR_USER: &'static str =
    "SELECT id, app_user AS \"user\", started_at, finished_at, counted, label FROM \
     pomodoro_session WHERE app_user = $1 ORDER BY started_at DESC, id DESC";

/// The read of a user's stints, newest start first, the running one among them.
pub fn list_for_user(user: UserId) -> (statement: Statement)
    ensures
        statement@ == crate::page::sends(LIST_FOR_USER, seq![ParamView::Uuid(user.0)]),
{
    Statement::new(LIST_FOR_USER, vec![Param::Uuid(user.0)])
}

/// The milliseconds of a day.
pub const DAY_MS: i64 = 86_400_000;

/// The UTC day of a moment.
pub open spec fn utc_day(at: Timestamp) -> int {
    at.0 as int / DAY_MS as int
}

/// The UTC day of a moment.
pub fn day_number(at: Timestamp) -> (day: i64)
    ensures
        day == utc_day(at),
        i64::MIN < day < i64::MAX,
{
    let ms: i64 = at.0;
    if ms >= 0 {
        ms / DAY_MS
    } else {
        let whole: i64 = -(ms + 1) / DAY_MS;
        assert(ms as int / DAY_MS as int == -(whole as int) - 1) by (nonlinear_arith)
            requires
                ms < 0,
                whole == -(ms + 1) / 86_400_000,
                DAY_MS == 86_400_000,
        ;
        -whole - 1
    }
}

/// What a stint must reach to count, and how many count on one day.
#[derive(Clone, Copy, PartialEq, Eq, Structural, Debug)]
pub struct Quota {
    pub min_ms: i64,
    pub per_day: i64,
}

/// The counters of a user that a finish decides by.
#[derive(Clone, Copy, PartialEq, Eq, Structural, Debug)]
pub struct StudyCounters {
    pub counted_today: i64,
    pub counted_day: Option<i64>,
    pub streak_current: i64,
    pub streak_last_day: Option<i64>,
}

/// What a counted stint moves.
#[derive(Clone, Copy, PartialEq, Eq, Structural, Debug)]
pub struct Credit {
    pub ms: i64,
    pub counted_today: i64,
    pub day: i64,
    pub streak: i64,
}

/// A stint that is being closed.
#[derive(Clone, Debug)]
pub struct Closing {
    pub started_at: Timestamp,
    pub finished_at: Timestamp,
    pub counted: bool,
    pub label: Option<String>,
}

/// The statement a finish waits for.
#[derive(Clone, Debug)]
pub enum Finish {
    /// Take the open stint.
    TakeOpen,
    /// Lock the user and read the counters.
    ReadCounters { started_at: Timestamp, label: Option<String> },
    /// Move the counters of a stint that counts.
    CreditStint { credit: Credit, closing: Closing },
    /// Open a new day's quota for a stint that does not count.
    RollDay { day: i64, closing: Closing },
    /// File the closed stint; its row is the answer.
    FileStint { closing: Closing },
}

/// What a statement of a finish answered.
#[derive(Debug)]
pub enum FinishReply {
    Empty,
    Open { started_at: Timestamp, label: Option<String> },
    Counters(StudyCounters),
    Done,
}

/// Why a finish is refused.
#[derive(Clone, Copy, PartialEq, Eq, Structural, Debug)]
pub enum FinishRefusal {
    NotRunning,
    Gone,
}

/// The answer to a finish with nothing running.
pub const NOT_RUNNING: &'static str = "no pomodoro session running";

impl FinishRefusal {
    /// What this refusal answers.
    pub open spec fn answers(self) -> AppErrorView {
        match self {
            FinishRefusal::NotRunning => AppErrorView::Conflict(NOT_RUNNING@),
            FinishRefusal::Gone => AppErrorView::NotFound,
        }
    }

    /// What this refusal answers.
    pub fn error(self) -> (error: AppError)
        ensures
            error@ == self.answers(),
    {
        match self {
            FinishRefusal::NotRunning => AppError::Conflict(NOT_RUNNING),
            FinishRefusal::Gone => AppError::NotFound,
        }
    }
}

pub const TAKE_OPEN: &'static str =
    "DELETE FROM pomodoro_session WHERE app_user = $1 AND finished_at IS NULL RETURNING \
     started_at, label";

pub const READ_COUNTERS: &'static str =
    "SELECT pomodoro_counted_today, pomodoro_counted_day, pomodoro_finished_total, \
     pomodoro_focus_ms_total, study_streak_current, study_streak_last_day, study_streak_longest \
     FROM app_user WHERE id = $1 FOR NO KEY UPDATE";

pub const CREDIT_STINT: &'static str =
    "UPDATE app_user SET pomodoro_finished_total = pomodoro_finished_total + 1, \
     pomodoro_focus_ms_total = pomodoro_focus_ms_total + $2, pomodoro_counted_today = $3, \
     pomodoro_counted_day = $4, study_streak_current = $5, study_streak_last_day = $4, \
     study_streak_longest = GREATEST(study_streak_longest, $5) WHERE id = $1";

pub const ROLL_DAY: &'static str =
    "UPDATE app_user SET pomodoro_counted_today = 0, pomodoro_counted_day = $2 WHERE id = $1";

pub const FILE_STINT: &'static str =
    "INSERT INTO pomodoro_session (id, app_user, started_at, finished_at, counted, label) \
     VALUES ($1, $2, $3, $4, $5, $6) RETURNING id, app_user AS \"user\", started_at, \
     finished_at, counted, label";

impl Finish {
    /// The statement of this step. `id` is the fresh key the closed stint is
    /// filed under.
    pub open spec fn asks(self, user: UserId, id: PomodoroSessionId) -> StatementView {
        match self {
            Finish::TakeOpen => crate::page::sends(TAKE_OPEN, seq![ParamView::Uuid(user.0)]),
            Finish::ReadCounters { .. } => crate::page::sends(
                READ_COUNTERS,
                seq![ParamView::Uuid(user.0)],
            ),
            Finish::CreditStint { credit, .. } => crate::page::sends(
                CREDIT_STINT,
                seq![
                    ParamView::Uuid(user.0),
                    ParamView::I64(credit.ms),
                    ParamView::I64(credit.counted_today),
                    ParamView::I64(credit.day),
                    ParamView::I64(credit.streak),
                ],
            ),
            Finish::RollDay { day, .. } => crate::page::sends(
                ROLL_DAY,
                seq![ParamView::Uuid(user.0), ParamView::I64(day)],
            ),
            Finish::FileStint { closing } => crate::page::sends(
                FILE_STINT,
                seq![
                    ParamView::Uuid(id.0),
                    ParamView::Uuid(user.0),
                    ParamView::I64(closing.started_at.0),
                    ParamView::OptI64(Some(closing.finished_at.0)),
                    ParamView::Bool(closing.counted),
                    ParamView::OptText(crate::page::opt_string_view(closing.label)),
                ],
            ),
        }
    }

    /// The statement of this step. `id` is the fresh key the closed stint is
    /// filed under.
    pub fn statement(&self, user: UserId, id: PomodoroSessionId) -> (statement: Statement)
        ensures
            statement@ == self.asks(user, id),
    {
        match self {
            Finish::TakeOpen => Statement::new(TAKE_OPEN, vec![Param::Uuid(user.0)]),
            Finish::ReadCounters { .. } => Statement::new(
                READ_COUNTERS,
                vec![Param::Uuid(user.0)],
            ),
            Finish::CreditStint { credit, .. } => Statement::new(
                CREDIT_STINT,
                vec![
                    Param::Uuid(user.0),
                    Param::I64(credit.ms),
                    Param::I64(credit.counted_today),
                    Param::I64(credit.day),
                    Param::I64(credit.streak),
                ],
            ),
            Finish::RollDay { day, .. } => Statement::new(
                ROLL_DAY,
                vec![Param::Uuid(user.0), Param::I64(*day)],
            ),
            Finish::FileStint { closing } => Statement::new(
                FILE_STINT,
                vec![
                    Param::Uuid(id.0),
                    Param::Uuid(user.0),
                    Param::I64(closing.started_at.0),
                    Param::OptI64(Some(closing.finished_at.0)),
                    Param::Bool(closing.counted),
                    Param::OptText(opt_string(&closing.label)),
                ],
            ),
        }
    }
}

/// When a stint ends: now, but never before it started, for a clock may have
/// stepped back under it.
pub open spec fn end_of(started_at: Timestamp, done: Timestamp) -> Timestamp {
    if started_at.0 > done.0 {
        started_at
    } else {
        done
    }
}

/// How many stints counted on `day` so far: a new day opens a new quota.
pub open spec fn counted_so_far(counters: StudyCounters, day: int) -> int {
    if counters.counted_day is Some && counters.counted_day->0 == day {
        counters.counted_today as int
    } else {
        0
    }
}

/// Whether a stint counts.
pub open spec fn counts(
    started_at: Timestamp,
    done: Timestamp,
    counters: StudyCounters,
    quota: Quota,
) -> bool {
    &&& end_of(started_at, done).0 - started_at.0 >= quota.min_ms
    &&& counted_so_far(counters, utc_day(done)) < quota.per_day
}

/// The run of study days with a stint that counts on `day`: the same day
/// again changes nothing, the next day extends it, and anything else starts a
/// new one.
pub open spec fn streak_after(counters: StudyCounters, day: int) -> int {
    match counters.streak_last_day {
        Some(last) => if last == day {
            counters.streak_current as int
        } else if last == day - 1 {
            counters.streak_current + 1
        } else {
            1
        },
        None => 1,
    }
}

/// What a finish at `done` does once the statement of `at` is answered.
pub open spec fn finish_next(
    at: Finish,
    reply: FinishReply,
    done: Timestamp,
    quota: Quota,
) -> Step<Finish, (), FinishRefusal> {
    match at {
        Finish::TakeOpen => match reply {
            FinishReply::Open { started_at, label } => Step::Ask(
                Finish::ReadCounters { started_at, label },
            ),
            _ => Step::Abort(FinishRefusal::NotRunning),
        },
        Finish::ReadCounters { started_at, label } => match reply {
            FinishReply::Counters(counters) => {
                let day = utc_day(done);
                let counted = counts(started_at, done, counters, quota);
                let finished_at = end_of(started_at, done);
                let closing = Closing { started_at, finished_at, counted, label };
                if counted {
                    Step::Ask(
                        Finish::CreditStint {
                            credit: Credit {
                                ms: (finished_at.0 - started_at.0) as i64,
                                counted_today: (counted_so_far(counters, day) + 1) as i64,
                                day: day as i64,
                                streak: streak_after(counters, day) as i64,
                            },
                            closing,
                        },
                    )
                } else if counters.counted_day is Some && counters.counted_day->0 == day {
                    Step::Ask(Finish::FileStint { closing })
                } else {
                    Step::Ask(Finish::RollDay { day: day as i64, closing })
                }
            },
            _ => Step::Abort(FinishRefusal::Gone),
        },
        Finish::CreditStint { closing, .. } => Step::Ask(Finish::FileStint { closing }),
        Finish::RollDay { closing, .. } => Step::Ask(Finish::FileStint { closing }),
        Finish::FileStint { .. } => Step::Commit(()),
    }
}

/// Whether a streak that is extended at `done` fits the machine's range.
pub open spec fn streak_fits(counters: StudyCounters, done: Timestamp) -> bool {
    streak_after(counters, utc_day(done)) <= i64::MAX
}

/// Whether what a finish computes fits the machine's range.
pub open spec fn finish_fits(at: Finish, reply: FinishReply, done: Timestamp) -> bool {
    match (at, reply) {
        (Finish::ReadCounters { started_at, .. }, FinishReply::Counters(counters)) => done.0
            - started_at.0 <= i64::MAX && streak_fits(counters, done),
        _ => true,
    }
}

/// Close the running stint at `done`: the step that follows the answer to
/// `at`. A finish starts at [`Finish::TakeOpen`].
pub fn finish(at: Finish, reply: FinishReply, done: Timestamp, quota: Quota) -> (step: Step<
    Finish,
    (),
    FinishRefusal,
>)
    requires
        finish_fits(at, reply, done),
    ensures
        step == finish_next(at, reply, done, quota),
{
    match at {
        Finish::TakeOpen => match reply {
            FinishReply::Open { started_at, label } => Step::Ask(
                Finish::ReadCounters { started_at, label },
            ),
            _ => Step::Abort(FinishRefusal::NotRunning),
        },
        Finish::ReadCounters { started_at, label } => match reply {
            FinishReply::Counters(counters) => {
                let day: i64 = day_number(done);
                let finished_at = if started_at.0 > done.0 {
                    started_at
                } else {
                    done
                };
                let ms: i64 = finished_at.0 - started_at.0;
                let today = match counters.counted_day {
                    Some(last) => last == day,
                    None => false,
                };
                let so_far: i64 = if today {
                    counters.counted_today
                } else {
                    0
                };
                let counted = ms >= quota.min_ms && so_far < quota.per_day;
                let closing = Closing { started_at, finished_at, counted, label };
                if counted {
                    let streak: i64 = match counters.streak_last_day {
                        Some(last) => if last == day {
                            counters.streak_current
                        } else if last == day - 1 {
                            counters.streak_current + 1
                        } else {
                            1
                        },
                        None => 1,
                    };
                    Step::Ask(
                        Finish::CreditStint {
                            credit: Credit { ms, counted_today: so_far + 1, day, streak },
                            closing,
                        },
                    )
                } else if today {
                    Step::Ask(Finish::FileStint { closing })
                } else {
                    Step::Ask(Finish::RollDay { day, closing })
                }
            },
            _ => Step::Abort(FinishRefusal::Gone),
        },
        Finish::CreditStint { closing, .. } => Step::Ask(Finish::FileStint { closing }),
        Finish::RollDay { closing, .. } => Step::Ask(Finish::FileStint { closing }),
        Finish::FileStint { .. } => Step::Commit(()),
    }
}

/// A user's study record: what a finish decides by, and what it only moves.
pub struct Study {
    pub counters: StudyCounters,
    pub finished_total: int,
    pub focus_ms_total: int,
    pub streak_longest: int,
}

/// One user's stints: the running one, the log of closed ones, and the study
/// record where the user is there.
#[verifier::ext_equal]
pub struct Desk {
    pub open: Option<(Timestamp, Option<String>)>,
    pub log: Seq<Closing>,
    pub study: Option<Study>,
}

/// What a start leaves.
pub open spec fn started(desk: Desk, at: Timestamp, label: Option<String>) -> Desk {
    Desk { open: Some((at, label)), ..desk }
}

/// The record after the counters of a counted stint moved.
pub open spec fn credited(study: Study, credit: Credit) -> Study {
    Study {
        counters: StudyCounters {
            counted_today: credit.counted_today,
            counted_day: Some(credit.day),
            streak_current: credit.streak,
            streak_last_day: Some(credit.day),
        },
        finished_total: study.finished_total + 1,
        focus_ms_total: study.focus_ms_total + credit.ms,
        streak_longest: if study.streak_longest > credit.streak {
            study.streak_longest
        } else {
            credit.streak as int
        },
    }
}

/// What each statement of a finish does, and what it replies.
pub open spec fn finish_effect(desk: Desk, at: Finish) -> (Desk, FinishReply) {
    match at {
        Finish::TakeOpen => match desk.open {
            Some((started_at, label)) => (
                Desk { open: None, ..desk },
                FinishReply::Open { started_at, label },
            ),
            None => (desk, FinishReply::Empty),
        },
        Finish::ReadCounters { .. } => match desk.study {
            Some(study) => (desk, FinishReply::Counters(study.counters)),
            None => (desk, FinishReply::Empty),
        },
        Finish::CreditStint { credit, .. } => match desk.study {
            Some(study) => (
                Desk { study: Some(credited(study, credit)), ..desk },
                FinishReply::Done,
            ),
            None => (desk, FinishReply::Done),
        },
        Finish::RollDay { day, .. } => match desk.study {
            Some(study) => (
                Desk {
                    study: Some(
                        Study {
                            counters: StudyCounters {
                                counted_today: 0,
                                counted_day: Some(day),
                                ..study.counters
                            },
                            ..study
                        },
                    ),
                    ..desk
                },
                FinishReply::Done,
            ),
            None => (desk, FinishReply::Done),
        },
        Finish::FileStint { closing } => (
            Desk { log: desk.log.push(closing), ..desk },
            FinishReply::Done,
        ),
    }
}

/// A whole finish.
pub open spec fn finish_run(desk: Desk, done: Timestamp, quota: Quota) -> (
    Desk,
    Step<Finish, (), FinishRefusal>,
) {
    crate::transaction::run(
        desk,
        Step::Ask(Finish::TakeOpen),
        |at: Finish, reply: FinishReply| finish_next(at, reply, done, quota),
        |before: Desk, at: Finish| finish_effect(before, at),
        4,
    )
}

/// What a finish leaves stored.
pub open spec fn finished(desk: Desk, done: Timestamp, quota: Quota) -> Desk {
    crate::transaction::stored(desk, finish_run(desk, done, quota))
}

/// Whether the numbers of a desk leave room for one more finish at `done`.
pub open spec fn room(desk: Desk, done: Timestamp) -> bool {
    &&& desk.open is Some ==> done.0 - (desk.open->0).0.0 <= i64::MAX
    &&& desk.study is Some ==> streak_fits(desk.study->0.counters, done)
}

/// Whether a finish of this desk at `done` counts.
pub open spec fn will_count(desk: Desk, done: Timestamp, quota: Quota) -> bool {
    &&& desk.open is Some
    &&& desk.study is Some
    &&& counts((desk.open->0).0, done, desk.study->0.counters, quota)
}

/// A finish is refused with nothing running or with no such user, and then
/// nothing is written; otherwise it goes through, frees the open slot, and
/// files exactly the stint that ran, never ending before it started.
pub proof fn law_finish_files_the_stint(desk: Desk, done: Timestamp, quota: Quota)
    requires
        room(desk, done),
    ensures
        ({
            let end = finish_run(desk, done, quota);
            let after = finished(desk, done, quota);
            &&& desk.open is None ==> end.1 == Step::<Finish, (), FinishRefusal>::Abort(
                FinishRefusal::NotRunning,
            )
            &&& desk.open is Some && desk.study is None ==> end.1 == Step::<
                Finish,
                (),
                FinishRefusal,
            >::Abort(FinishRefusal::Gone)
            &&& end.1 !is Commit ==> after == desk
            &&& desk.open is Some && desk.study is Some ==> {
                let stint = Closing {
                    started_at: (desk.open->0).0,
                    finished_at: end_of((desk.open->0).0, done),
                    counted: will_count(desk, done, quota),
                    label: (desk.open->0).1,
                };
                &&& end.1 is Commit
                &&& after.open is None
                &&& after.log == desk.log.push(stint)
                &&& stint.finished_at.0 >= stint.started_at.0
            }
        }),
{
    reveal_with_fuel(crate::transaction::run, 5);
}

/// The counters follow what a stint is found to be: one that counts adds one
/// stint and its own filed length, and extends or restarts the streak; one
/// that does not adds nothing and leaves the streak alone.
pub proof fn law_counters_follow_the_verdict(desk: Desk, done: Timestamp, quota: Quota)
    requires
        room(desk, done),
        desk.open is Some,
        desk.study is Some,
    ensures
        ({
            let before = desk.study->0;
            let after = finished(desk, done, quota).study->0;
            let ms = end_of((desk.open->0).0, done).0 - (desk.open->0).0.0;
            let day = utc_day(done);
            &&& will_count(desk, done, quota) ==> {
                &&& after.finished_total == before.finished_total + 1
                &&& after.focus_ms_total == before.focus_ms_total + ms
                &&& after.counters.streak_current == streak_after(before.counters, day)
                &&& after.counters.streak_last_day == Some(day as i64)
                &&& after.counters.counted_today == counted_so_far(before.counters, day) + 1
            }
            &&& !will_count(desk, done, quota) ==> {
                &&& after.finished_total == before.finished_total
                &&& after.focus_ms_total == before.focus_ms_total
                &&& after.streak_longest == before.streak_longest
                &&& after.counters.streak_current == before.counters.streak_current
                &&& after.counters.streak_last_day == before.counters.streak_last_day
                &&& after.counters.counted_today == counted_so_far(before.counters, day)
            }
            &&& after.counters.counted_day == Some(day as i64)
        }),
{
    reveal_with_fuel(crate::transaction::run, 5);
    lemma_day_fits(done);
}

/// A day fits the machine's range.
proof fn lemma_day_fits(at: Timestamp)
    ensures
        i64::MIN < utc_day(at) < i64::MAX,
{
}

/// Whether the high-water mark of a study record is not below its run.
pub open spec fn above_the_run(desk: Desk) -> bool {
    desk.study is Some ==> desk.study->0.streak_longest >= desk.study->0.counters.streak_current
}

/// The high-water mark never falls, and one that is not below the run stays
/// so.
pub proof fn law_longest_never_falls(desk: Desk, done: Timestamp, quota: Quota)
    requires
        room(desk, done),
        desk.study is Some,
    ensures
        finished(desk, done, quota).study is Some,
        finished(desk, done, quota).study->0.streak_longest >= desk.study->0.streak_longest,
        above_the_run(desk) ==> above_the_run(finished(desk, done, quota)),
{
    reveal_with_fuel(crate::transaction::run, 5);
}

/// No more stints count on a day than the quota allows, and a stint under the
/// minimum never counts.
pub proof fn law_quota_bounds_the_day(desk: Desk, done: Timestamp, quota: Quota)
    requires
        room(desk, done),
        quota.per_day >= 0,
        desk.study is Some,
        desk.study->0.counters.counted_today <= quota.per_day,
    ensures
        finished(desk, done, quota).study is Some,
        finished(desk, done, quota).study->0.counters.counted_today <= quota.per_day,
        desk.open is Some && end_of((desk.open->0).0, done).0 - (desk.open->0).0.0 < quota.min_ms
            ==> !will_count(desk, done, quota),
        counted_so_far(desk.study->0.counters, utc_day(done)) >= quota.per_day ==> !will_count(
            desk,
            done,
            quota,
        ),
{
    reveal_with_fuel(crate::transaction::run, 5);
}

/// The number of counted stints in a log.
pub open spec fn counted_stints(log: Seq<Closing>) -> int
    decreases log.len(),
{
    if log.len() == 0 {
        0
    } else {
        counted_stints(log.drop_last()) + if log.last().counted {
            1int
        } else {
            0int
        }
    }
}

/// The time of the counted stints in a log.
pub open spec fn counted_ms(log: Seq<Closing>) -> int
    decreases log.len(),
{
    if log.len() == 0 {
        0
    } else {
        counted_ms(log.drop_last()) + if log.last().counted {
            log.last().finished_at.0 - log.last().started_at.0
        } else {
            0
        }
    }
}

/// Whether the lifetime counters are the counted stints of the log.
pub open spec fn kept(desk: Desk) -> bool {
    desk.study is Some ==> desk.study->0.finished_total == counted_stints(desk.log)
        && desk.study->0.focus_ms_total == counted_ms(desk.log)
}

/// The lifetime counters are exactly the counted stints of the log and their
/// time, whatever is started and finished.
pub proof fn law_counters_are_the_counted_log(
    desk: Desk,
    at: Timestamp,
    label: Option<String>,
    done: Timestamp,
    quota: Quota,
)
    requires
        kept(desk),
        room(desk, done),
    ensures
        kept(started(desk, at, label)),
        kept(finished(desk, done, quota)),
{
    law_finish_files_the_stint(desk, done, quota);
    if desk.open is Some && desk.study is Some {
        law_counters_follow_the_verdict(desk, done, quota);
        let after = finished(desk, done, quota);
        assert(after.log.drop_last() =~= desk.log);
    }
}

/// A restart replaces the running stint, and of two finishes on one start
/// only the first goes through.
pub proof fn law_one_stint_runs(
    desk: Desk,
    at: Timestamp,
    again: Timestamp,
    label: Option<String>,
    done: Timestamp,
    later: Timestamp,
    quota: Quota,
)
    requires
        room(started(desk, at, label), done),
        desk.study is Some,
    ensures
        started(started(desk, at, label), again, None) == started(desk, again, None),
        started(desk, at, label).log == desk.log,
        ({
            let once = finished(started(desk, at, label), done, quota);
            finish_run(once, later, quota).1 == Step::<Finish, (), FinishRefusal>::Abort(
                FinishRefusal::NotRunning,
            )
        }),
{
    law_finish_files_the_stint(started(desk, at, label), done, quota);
    reveal_with_fuel(crate::transaction::run, 2);
}

/// What happens at a desk.
pub enum Event {
    Start { at: Timestamp, label: Option<String> },
    Finish { done: Timestamp },
}

/// What one event leaves.
pub open spec fn happened(desk: Desk, event: Event, quota: Quota) -> Desk {
    match event {
        Event::Start { at, label } => started(desk, at, label),
        Event::Finish { done } => finished(desk, done, quota),
    }
}

/// What one event after the other leaves.
pub open spec fn replayed(desk: Desk, events: Seq<Event>, quota: Quota) -> Desk
    decreases events.len(),
{
    if events.len() == 0 {
        desk
    } else {
        happened(replayed(desk, events.drop_last(), quota), events.last(), quota)
    }
}

/// Whether every finish among the events has room for its numbers.
pub open spec fn roomy(desk: Desk, events: Seq<Event>, quota: Quota) -> bool
    decreases events.len(),
{
    events.len() > 0 ==> {
        &&& roomy(desk, events.drop_last(), quota)
        &&& match events.last() {
            Event::Finish { done } => room(replayed(desk, events.drop_last(), quota), done),
            Event::Start { .. } => true,
        }
    }
}

/// Whatever is started and finished, in whatever order: the lifetime counters
/// are the counted stints of the log, the day's counter is within the quota,
/// the high-water mark never falls, and nothing that was filed is lost.
pub proof fn law_counters_hold_over_any_run(desk: Desk, events: Seq<Event>, quota: Quota)
    requires
        roomy(desk, events, quota),
        desk.study is Some,
        quota.per_day >= 0,
    ensures
        ({
            let after = replayed(desk, events, quota);
            &&& after.study is Some
            &&& kept(desk) ==> kept(after)
            &&& desk.study->0.counters.counted_today <= quota.per_day
                ==> after.study->0.counters.counted_today <= quota.per_day
            &&& after.study->0.streak_longest >= desk.study->0.streak_longest
            &&& above_the_run(desk) ==> above_the_run(after)
            &&& desk.log.len() <= after.log.len()
            &&& after.log.take(desk.log.len() as int) == desk.log
        }),
    decreases events.len(),
{
    if events.len() > 0 {
        let before = replayed(desk, events.drop_last(), quota);
        law_counters_hold_over_any_run(desk, events.drop_last(), quota);
        match events.last() {
            Event::Start { at, label } => {},
            Event::Finish { done } => {
                law_finish_files_the_stint(before, done, quota);
                law_longest_never_falls(before, done, quota);
                if before.study->0.counters.counted_today <= quota.per_day {
                    law_quota_bounds_the_day(before, done, quota);
                }
                if kept(before) {
                    law_counters_are_the_counted_log(before, done, None, done, quota);
                }
            },
        }
    }
    let after = replayed(desk, events, quota);
    assert(after.log.take(desk.log.len() as int) =~= desk.log);
}

/// The number of counted stints in a log that ended on a day.
pub open spec fn counted_on(log: Seq<Closing>, day: int) -> int
    decreases log.len(),
{
    if log.len() == 0 {
        0
    } else {
        counted_on(log.drop_last(), day) + if log.last().counted && utc_day(log.last().finished_at)
            == day {
            1int
        } else {
            0int
        }
    }
}

/// Whether the day's counter is the counted stints of its day, nothing counted
/// on a later one, and no day is past the quota.
pub open spec fn tallied(desk: Desk, quota: Quota) -> bool {
    &&& desk.study is Some
    &&& forall|day: int| #[trigger] counted_on(desk.log, day) <= quota.per_day
    &&& match desk.study->0.counters.counted_day {
        Some(last) => {
            &&& counted_on(desk.log, last as int) == desk.study->0.counters.counted_today
            &&& forall|day: int| day > last ==> #[trigger] counted_on(desk.log, day) == 0
        },
        None => forall|day: int| #[trigger] counted_on(desk.log, day) == 0,
    }
}

/// Whether no finish is on a day before the last one that was decided.
pub open spec fn days_go_forward(desk: Desk, events: Seq<Event>, quota: Quota) -> bool
    decreases events.len(),
{
    events.len() > 0 ==> {
        &&& days_go_forward(desk, events.drop_last(), quota)
        &&& match events.last() {
            Event::Finish { done } => {
                let study = replayed(desk, events.drop_last(), quota).study;
                study is Some && study->0.counters.counted_day is Some
                    ==> study->0.counters.counted_day->0 <= utc_day(done)
            },
            Event::Start { .. } => true,
        }
    }
}

proof fn lemma_finish_keeps_tally(desk: Desk, done: Timestamp, quota: Quota)
    requires
        room(desk, done),
        tallied(desk, quota),
        quota.min_ms > 0,
        quota.per_day >= 0,
        desk.study->0.counters.counted_day is Some ==> desk.study->0.counters.counted_day->0
            <= utc_day(done),
    ensures
        tallied(finished(desk, done, quota), quota),
{
    law_finish_files_the_stint(desk, done, quota);
    if desk.open is Some {
        law_counters_follow_the_verdict(desk, done, quota);
        lemma_day_fits(done);
        let after = finished(desk, done, quota);
        let today = utc_day(done);
        assert(after.log.drop_last() =~= desk.log);
        assert(after.study is Some) by {
            law_longest_never_falls(desk, done, quota);
        }
        assert(counted_on(desk.log, today) == counted_so_far(desk.study->0.counters, today));
        assert forall|day: int| #[trigger]
            counted_on(after.log, day) == counted_on(desk.log, day) + (if will_count(
            desk,
            done,
            quota,
        ) && day == today {
            1int
        } else {
            0int
        }) by {
            assert(after.log.last().counted == will_count(desk, done, quota));
        }
    }
}

/// No day ever counts more stints than its quota, over any run of starts and
/// finishes whose days go forward. A clock that steps back over midnight is
/// left out: the day it returns to opens a new quota.
pub proof fn law_no_day_counts_past_the_quota(
    desk: Desk,
    events: Seq<Event>,
    quota: Quota,
    day: int,
)
    requires
        roomy(desk, events, quota),
        days_go_forward(desk, events, quota),
        tallied(desk, quota),
        quota.min_ms > 0,
        quota.per_day >= 0,
    ensures
        tallied(replayed(desk, events, quota), quota),
        counted_on(replayed(desk, events, quota).log, day) <= quota.per_day,
    decreases events.len(),
{
    if events.len() > 0 {
        let before = replayed(desk, events.drop_last(), quota);
        law_no_day_counts_past_the_quota(desk, events.drop_last(), quota, day);
        if let Event::Finish { done } = events.last() {
            lemma_finish_keeps_tally(before, done, quota);
        }
    }
}

/// What [`TAKE_OPEN`] says.
pub open spec fn take_open_reading() -> Picking {
    Picking {
        skip: 0,
        head: "DELETE FROM "@,
        columns: Seq::empty(),
        table: "pomodoro_session"@,
        conditions: seq![crate::sql::is_bound("app_user"@, 1), Cond::Null(crate::sql::column("finished_at"@))],
        rest: crate::sql::returning(),
    }
}

proof fn lemma_take_open_reads()
    ensures
        crate::sql::spells(TAKE_OPEN@, 0, take_open_reading().text()),
{
    reveal_strlit("DELETE FROM pomodoro_session WHERE app_user = $1 AND finished_at IS NULL RETURNING started_at, label");
    reveal_strlit("DELETE FROM ");
    reveal_strlit("pomodoro_session");
    reveal_strlit(" WHERE ");
    reveal_strlit("app_user");
    reveal_strlit(" = ");
    reveal_strlit("$");
    reveal_strlit(" AND ");
    reveal_strlit("finished_at");
    reveal_strlit(" IS NULL");
    reveal_strlit(" RETURNING ");
    reveal(crate::sql::Picking::text);
    reveal_with_fuel(crate::sql::where_text, 3);
    reveal_with_fuel(crate::sql::stands, 17);
    reveal_with_fuel(crate::sql::spells_by, 11);
    crate::sql::lemma_spells_by(TAKE_OPEN@, 0, take_open_reading().text(), crate::sql::cut(12, crate::sql::cut(28, crate::sql::cut(35, crate::sql::cut(43, crate::sql::cut(46, crate::sql::cut(48, crate::sql::cut(53, crate::sql::cut(64, crate::sql::cut(72, crate::sql::cut(83, Cuts::Last)))))))))));
}

/// What [`READ_COUNTERS`] says.
pub open spec fn read_counters_reading() -> Picking {
    Picking {
        skip: 168,
        head: " FROM "@,
        columns: Seq::empty(),
        table: "app_user"@,
        conditions: seq![crate::sql::is_bound("id"@, 1)],
        rest: crate::sql::before(" FOR NO KEY UPDATE"@, Text::End),
    }
}

proof fn lemma_read_counters_reads()
    ensures
        crate::sql::spells(READ_COUNTERS@, 168, read_counters_reading().text()),
{
    reveal_strlit("SELECT pomodoro_counted_today, pomodoro_counted_day, pomodoro_finished_total, pomodoro_focus_ms_total, study_streak_current, study_streak_last_day, study_streak_longest FROM app_user WHERE id = $1 FOR NO KEY UPDATE");
    reveal_strlit(" FROM ");
    reveal_strlit("app_user");
    reveal_strlit(" WHERE ");
    reveal_strlit("id");
    reveal_strlit(" = ");
    reveal_strlit("$");
    reveal_strlit(" FOR NO KEY UPDATE");
    reveal(crate::sql::Picking::text);
    reveal_with_fuel(crate::sql::where_text, 2);
    reveal_with_fuel(crate::sql::stands, 19);
    reveal_with_fuel(crate::sql::spells_by, 8);
    crate::sql::lemma_spells_by(READ_COUNTERS@, 168, read_counters_reading().text(), crate::sql::cut(174, crate::sql::cut(182, crate::sql::cut(189, crate::sql::cut(191, crate::sql::cut(194, crate::sql::cut(196, crate::sql::cut(214, Cuts::Last))))))));
}

/// What [`CREDIT_STINT`] says.
pub open spec fn credit_stint_reading() -> Writing {
    Writing {
        head: "UPDATE "@,
        table: "app_user"@,
        sets: seq![("pomodoro_finished_total"@, Expr::Plus(Term::Column("pomodoro_finished_total"@), Term::Word("1"@, Cell::Int(1)))), ("pomodoro_focus_ms_total"@, Expr::Plus(Term::Column("pomodoro_focus_ms_total"@), Term::Bind(2))), ("pomodoro_counted_today"@, crate::sql::bind(3)), ("pomodoro_counted_day"@, crate::sql::bind(4)), ("study_streak_current"@, crate::sql::bind(5)), ("study_streak_last_day"@, crate::sql::bind(4)), ("study_streak_longest"@, Expr::Greatest(Term::Column("study_streak_longest"@), Term::Bind(5)))],
        conditions: seq![crate::sql::is_bound("id"@, 1)],
        rest: Text::End,
    }
}

#[verifier::rlimit(20)]
proof fn lemma_credit_stint_reads()
    ensures
        crate::sql::spells(CREDIT_STINT@, 0, credit_stint_reading().text()),
{
    reveal_strlit("UPDATE app_user SET pomodoro_finished_total = pomodoro_finished_total + 1, pomodoro_focus_ms_total = pomodoro_focus_ms_total + $2, pomodoro_counted_today = $3, pomodoro_counted_day = $4, study_streak_current = $5, study_streak_last_day = $4, study_streak_longest = GREATEST(study_streak_longest, $5) WHERE id = $1");
    reveal_strlit("UPDATE ");
    reveal_strlit("app_user");
    reveal_strlit(" SET ");
    reveal_strlit("pomodoro_finished_total");
    reveal_strlit(" = ");
    reveal_strlit(" + ");
    reveal_strlit("1");
    reveal_strlit(", ");
    reveal_strlit("pomodoro_focus_ms_total");
    reveal_strlit("$");
    reveal_strlit("pomodoro_counted_today");
    reveal_strlit("pomodoro_counted_day");
    reveal_strlit("study_streak_current");
    reveal_strlit("study_streak_last_day");
    reveal_strlit("study_streak_longest");
    reveal_strlit("GREATEST(");
    reveal_strlit(")");
    reveal_strlit(" WHERE ");
    reveal_strlit("id");
    reveal(crate::sql::Writing::text);
    reveal_with_fuel(crate::sql::set_text, 8);
    reveal_with_fuel(crate::sql::where_text, 2);
    reveal_with_fuel(crate::sql::stands, 24);
    reveal_with_fuel(crate::sql::spells_by, 43);
    crate::sql::lemma_spells_by(CREDIT_STINT@, 0, credit_stint_reading().text(), crate::sql::cut(7, crate::sql::cut(15, crate::sql::cut(20, crate::sql::cut(43, crate::sql::cut(46, crate::sql::cut(69, crate::sql::cut(72, crate::sql::cut(73, crate::sql::cut(75, crate::sql::cut(98, crate::sql::cut(101, crate::sql::cut(124, crate::sql::cut(127, crate::sql::cut(129, crate::sql::cut(131, crate::sql::cut(153, crate::sql::cut(156, crate::sql::cut(158, crate::sql::cut(160, crate::sql::cut(180, crate::sql::cut(183, crate::sql::cut(185, crate::sql::cut(187, crate::sql::cut(207, crate::sql::cut(210, crate::sql::cut(212, crate::sql::cut(214, crate::sql::cut(235, crate::sql::cut(238, crate::sql::cut(240, crate::sql::cut(242, crate::sql::cut(262, crate::sql::cut(265, crate::sql::cut(274, crate::sql::cut(294, crate::sql::cut(296, crate::sql::cut(298, crate::sql::cut(299, crate::sql::cut(306, crate::sql::cut(308, crate::sql::cut(311, crate::sql::cut(313, Cuts::Last)))))))))))))))))))))))))))))))))))))))))));
}

/// What [`ROLL_DAY`] says.
pub open spec fn roll_day_reading() -> Writing {
    Writing {
        head: "UPDATE "@,
        table: "app_user"@,
        sets: seq![("pomodoro_counted_today"@, crate::sql::word("0"@, Cell::Int(0))), ("pomodoro_counted_day"@, crate::sql::bind(2))],
        conditions: seq![crate::sql::is_bound("id"@, 1)],
        rest: Text::End,
    }
}

proof fn lemma_roll_day_reads()
    ensures
        crate::sql::spells(ROLL_DAY@, 0, roll_day_reading().text()),
{
    reveal_strlit("UPDATE app_user SET pomodoro_counted_today = 0, pomodoro_counted_day = $2 WHERE id = $1");
    reveal_strlit("UPDATE ");
    reveal_strlit("app_user");
    reveal_strlit(" SET ");
    reveal_strlit("pomodoro_counted_today");
    reveal_strlit(" = ");
    reveal_strlit("0");
    reveal_strlit(", ");
    reveal_strlit("pomodoro_counted_day");
    reveal_strlit("$");
    reveal_strlit(" WHERE ");
    reveal_strlit("id");
    reveal(crate::sql::Writing::text);
    reveal_with_fuel(crate::sql::set_text, 3);
    reveal_with_fuel(crate::sql::where_text, 2);
    reveal_with_fuel(crate::sql::stands, 23);
    reveal_with_fuel(crate::sql::spells_by, 15);
    crate::sql::lemma_spells_by(ROLL_DAY@, 0, roll_day_reading().text(), crate::sql::cut(7, crate::sql::cut(15, crate::sql::cut(20, crate::sql::cut(42, crate::sql::cut(45, crate::sql::cut(46, crate::sql::cut(48, crate::sql::cut(68, crate::sql::cut(71, crate::sql::cut(73, crate::sql::cut(80, crate::sql::cut(82, crate::sql::cut(85, crate::sql::cut(87, Cuts::Last)))))))))))))));
}

/// What [`FILE_STINT`] says.
pub open spec fn file_stint_reading() -> Storing {
    Storing {
        head: "INSERT INTO "@,
        table: "pomodoro_session"@,
        columns: seq!["id"@, "app_user"@, "started_at"@, "finished_at"@, "counted"@, "label"@],
        values: seq![Term::Bind(1), Term::Bind(2), Term::Bind(3), Term::Bind(4), Term::Bind(5), Term::Bind(6)],
        selected: false,
        conflict: Conflict::Unread,
        rest: crate::sql::returning(),
    }
}

proof fn lemma_file_stint_reads()
    ensures
        crate::sql::spells(FILE_STINT@, 0, file_stint_reading().text()),
{
    reveal_strlit("INSERT INTO pomodoro_session (id, app_user, started_at, finished_at, counted, label) VALUES ($1, $2, $3, $4, $5, $6) RETURNING id, app_user AS \"user\", started_at, finished_at, counted, label");
    reveal_strlit("INSERT INTO ");
    reveal_strlit("pomodoro_session");
    reveal_strlit(" (");
    reveal_strlit("id");
    reveal_strlit(", ");
    reveal_strlit("app_user");
    reveal_strlit("started_at");
    reveal_strlit("finished_at");
    reveal_strlit("counted");
    reveal_strlit("label");
    reveal_strlit(") VALUES (");
    reveal_strlit("$");
    reveal_strlit(")");
    reveal_strlit(" RETURNING ");
    reveal(crate::sql::Storing::text);
    reveal_with_fuel(crate::sql::names_text, 7);
    reveal_with_fuel(crate::sql::values_text, 7);
    reveal_with_fuel(crate::sql::stands, 17);
    reveal_with_fuel(crate::sql::spells_by, 29);
    crate::sql::lemma_spells_by(FILE_STINT@, 0, file_stint_reading().text(), crate::sql::cut(12, crate::sql::cut(28, crate::sql::cut(30, crate::sql::cut(32, crate::sql::cut(34, crate::sql::cut(42, crate::sql::cut(44, crate::sql::cut(54, crate::sql::cut(56, crate::sql::cut(67, crate::sql::cut(69, crate::sql::cut(76, crate::sql::cut(78, crate::sql::cut(83, crate::sql::cut(93, crate::sql::cut(95, crate::sql::cut(97, crate::sql::cut(99, crate::sql::cut(101, crate::sql::cut(103, crate::sql::cut(105, crate::sql::cut(107, crate::sql::cut(109, crate::sql::cut(111, crate::sql::cut(113, crate::sql::cut(115, crate::sql::cut(116, crate::sql::cut(127, Cuts::Last)))))))))))))))))))))))))))));
}

/// Whether a row of the users' table holds a study record. A day that is not
/// there is `NULL`.
pub open spec fn holds_study(row: Row, user: UserId, study: Study) -> bool {
    &&& row["id"@] == Cell::Uuid(user.0)
    &&& row["pomodoro_finished_total"@] == Cell::Int(study.finished_total)
    &&& row["pomodoro_focus_ms_total"@] == Cell::Int(study.focus_ms_total)
    &&& row["pomodoro_counted_today"@] == Cell::Int(study.counters.counted_today as int)
    &&& row["pomodoro_counted_day"@] == crate::sql::opt_int(study.counters.counted_day)
    &&& row["study_streak_current"@] == Cell::Int(study.counters.streak_current as int)
    &&& row["study_streak_last_day"@] == crate::sql::opt_int(study.counters.streak_last_day)
    &&& row["study_streak_longest"@] == Cell::Int(study.streak_longest)
}

/// The credit of a counted stint, carried out on the user's row with the values
/// it binds, overwrites each column of the study record with what the record
/// holds after it: one more stint, the stint's length on the total, the day's
/// count, the day, the streak, and the longest one. No other row is picked.
#[verifier::rlimit(40)]
#[verifier::spinoff_prover]
pub proof fn law_credit_lands_in_its_columns(
    user: UserId,
    id: PomodoroSessionId,
    credit: Credit,
    closing: Closing,
    desk: Desk,
    row: Row,
)
    requires
        desk.study is Some,
    ensures
        ({
            let at = Finish::CreditStint { credit, closing };
            let sent = at.asks(user, id);
            let before = desk.study->0;
            let after = finish_effect(desk, at).0.study->0;
            &&& credit_stint_reading().is_read(sent)
            &&& credit_stint_reading().picks(sent.binds, row) == (row["id"@] == Cell::Uuid(user.0))
            &&& holds_study(row, user, before) ==> credit_stint_reading().writes(sent.binds, row)
                == seq![
                ("pomodoro_finished_total"@, Cell::Int(after.finished_total)),
                ("pomodoro_focus_ms_total"@, Cell::Int(after.focus_ms_total)),
                ("pomodoro_counted_today"@, Cell::Int(after.counters.counted_today as int)),
                ("pomodoro_counted_day"@, crate::sql::opt_int(after.counters.counted_day)),
                ("study_streak_current"@, Cell::Int(after.counters.streak_current as int)),
                ("study_streak_last_day"@, crate::sql::opt_int(after.counters.streak_last_day)),
                ("study_streak_longest"@, Cell::Int(after.streak_longest)),
            ]
            &&& after.finished_total == before.finished_total + 1
            &&& after.focus_ms_total == before.focus_ms_total + credit.ms
            &&& after.counters.counted_today == credit.counted_today
            &&& after.counters.counted_day == Some(credit.day)
            &&& after.counters.streak_current == credit.streak
            &&& after.counters.streak_last_day == Some(credit.day)
        }),
{
    lemma_credit_stint_reads();
    reveal_with_fuel(crate::sql::all_hold, 2);
}

/// A new day's quota, carried out on the user's row, starts the day's count at
/// zero under that day and leaves the streak and the totals alone.
pub proof fn law_new_day_lands_in_its_columns(
    user: UserId,
    id: PomodoroSessionId,
    day: i64,
    closing: Closing,
    desk: Desk,
    row: Row,
)
    requires
        desk.study is Some,
    ensures
        ({
            let at = Finish::RollDay { day, closing };
            let sent = at.asks(user, id);
            let after = finish_effect(desk, at).0.study->0;
            &&& roll_day_reading().is_read(sent)
            &&& roll_day_reading().picks(sent.binds, row) == (row["id"@] == Cell::Uuid(user.0))
            &&& roll_day_reading().writes(sent.binds, row) == seq![
                ("pomodoro_counted_today"@, Cell::Int(after.counters.counted_today as int)),
                ("pomodoro_counted_day"@, crate::sql::opt_int(after.counters.counted_day)),
            ]
            &&& after.counters.counted_today == 0
            &&& after.counters.counted_day == Some(day)
        }),
{
    lemma_roll_day_reads();
    reveal_with_fuel(crate::sql::all_hold, 2);
}

/// The stint that runs is the one of the user that has no end; closing takes
/// that one alone.
pub proof fn law_the_running_stint_is_taken(user: UserId, id: PomodoroSessionId, row: Row)
    ensures
        ({
            let sent = Finish::TakeOpen.asks(user, id);
            &&& take_open_reading().is_read(sent)
            &&& take_open_reading().picks(sent.binds, row) == (row["app_user"@] == Cell::Uuid(
                user.0,
            ) && row["finished_at"@] is Null)
        }),
{
    lemma_take_open_reads();
    reveal_with_fuel(crate::sql::all_hold, 3);
}

/// A finish decides by the counters of its own user.
pub proof fn law_counters_are_read_of_the_user(
    user: UserId,
    id: PomodoroSessionId,
    started_at: Timestamp,
    label: Option<String>,
    row: Row,
)
    ensures
        ({
            let sent = Finish::ReadCounters { started_at, label }.asks(user, id);
            &&& read_counters_reading().is_read(sent)
            &&& read_counters_reading().picks(sent.binds, row) == (row["id"@] == Cell::Uuid(user.0))
        }),
{
    lemma_read_counters_reads();
    reveal_with_fuel(crate::sql::all_hold, 2);
}

/// A closed stint is filed under its user with its start, its end, its verdict
/// and its label, each in its own column.
pub proof fn law_stint_is_filed_as_closed(user: UserId, id: PomodoroSessionId, closing: Closing)
    ensures
        ({
            let sent = Finish::FileStint { closing }.asks(user, id);
            &&& file_stint_reading().is_read(sent)
            &&& file_stint_reading().stores(sent.binds) == seq![
                ("id"@, Cell::Uuid(id.0)),
                ("app_user"@, Cell::Uuid(user.0)),
                ("started_at"@, Cell::Int(closing.started_at.0 as int)),
                ("finished_at"@, Cell::Int(closing.finished_at.0 as int)),
                ("counted"@, Cell::Bool(closing.counted)),
                ("label"@, crate::sql::opt_text(crate::page::opt_string_view(closing.label))),
            ]
        }),
{
    lemma_file_stint_reads();
}

/// The text of [`START`], taken apart at its placeholders.
pub open spec fn start_text() -> Text {
    crate::sql::before("INSERT INTO pomodoro_session (id, app_user,"@, crate::sql::before(" started_at, finished_at, counted, label)"@, crate::sql::before(" VALUES ("@, crate::sql::before(crate::text::placeholder(2), crate::sql::before(", "@, crate::sql::before(crate::text::placeholder(1), crate::sql::before(", "@, crate::sql::before(crate::text::placeholder(3), crate::sql::before(", NULL, NULL, "@, crate::sql::before(crate::text::placeholder(4), crate::sql::before(") ON CONFLICT (app_user) WHERE finished_at IS"@, crate::sql::before(" NULL DO UPDATE SET started_at ="@, crate::sql::before(" EXCLUDED.started_at, finished_at = NULL,"@, crate::sql::before(" counted = NULL, label = EXCLUDED.label"@, crate::sql::before(" RETURNING id, app_user AS \"user\", started_at,"@, crate::sql::before(" finished_at, counted, label"@, Text::End))))))))))))))))
}

proof fn lemma_start_reads()
    ensures
        crate::sql::spells(START@, 0, start_text()),
{
    reveal_strlit("INSERT INTO pomodoro_session (id, app_user, started_at, finished_at, counted, label) VALUES ($2, $1, $3, NULL, NULL, $4) ON CONFLICT (app_user) WHERE finished_at IS NULL DO UPDATE SET started_at = EXCLUDED.started_at, finished_at = NULL, counted = NULL, label = EXCLUDED.label RETURNING id, app_user AS \"user\", started_at, finished_at, counted, label");
    reveal_strlit("INSERT INTO pomodoro_session (id, app_user,");
    reveal_strlit(" started_at, finished_at, counted, label)");
    reveal_strlit(" VALUES (");
    reveal_strlit("$");
    reveal_strlit(", ");
    reveal_strlit(", NULL, NULL, ");
    reveal_strlit(") ON CONFLICT (app_user) WHERE finished_at IS");
    reveal_strlit(" NULL DO UPDATE SET started_at =");
    reveal_strlit(" EXCLUDED.started_at, finished_at = NULL,");
    reveal_strlit(" counted = NULL, label = EXCLUDED.label");
    reveal_strlit(" RETURNING id, app_user AS \"user\", started_at,");
    reveal_strlit(" finished_at, counted, label");
    reveal_with_fuel(crate::sql::stands, 47);
    reveal_with_fuel(crate::sql::spells_by, 17);
    crate::sql::lemma_spells_by(START@, 0, start_text(), crate::sql::cut(43, crate::sql::cut(84, crate::sql::cut(93, crate::sql::cut(95, crate::sql::cut(97, crate::sql::cut(99, crate::sql::cut(101, crate::sql::cut(103, crate::sql::cut(117, crate::sql::cut(119, crate::sql::cut(164, crate::sql::cut(196, crate::sql::cut(237, crate::sql::cut(276, crate::sql::cut(322, crate::sql::cut(350, Cuts::Last)))))))))))))))));
}

/// [`start`] binds each value at its own place in the text.
pub proof fn law_start_binds_its_values(
    user: UserId,
    id: PomodoroSessionId,
    started_at: Timestamp,
    label: Option<&str>,
    sent: Statement,
)
    requires
        call_ensures(start, (user, id, started_at, label), sent),
    ensures
        crate::sql::spells(sent@.sql, 0, start_text()),
        sent@.binds.len() == 4,
        crate::sql::cell(sent@.binds[0]) == Cell::Uuid(user.0),
        crate::sql::cell(sent@.binds[1]) == Cell::Uuid(id.0),
        crate::sql::cell(sent@.binds[2]) == Cell::Int(started_at.0 as int),
        crate::sql::cell(sent@.binds[3]) == crate::sql::opt_text(crate::page::opt_view(label)),
{
    lemma_start_reads();
}

/// What [`LIST_FOR_USER`] says.
pub open spec fn list_for_user_reading() -> Picking {
    Picking {
        skip: 70,
        head: " FROM "@,
        columns: Seq::empty(),
        table: "pomodoro_session"@,
        conditions: seq![crate::sql::is_bound("app_user"@, 1)],
        rest: crate::sql::before(" ORDER BY started_at DESC, id DESC"@, Text::End),
    }
}

proof fn lemma_list_for_user_reads()
    ensures
        crate::sql::spells(LIST_FOR_USER@, 70, list_for_user_reading().text()),
{
    reveal_strlit("SELECT id, app_user AS \"user\", started_at, finished_at, counted, label FROM pomodoro_session WHERE app_user = $1 ORDER BY started_at DESC, id DESC");
    reveal_strlit(" FROM ");
    reveal_strlit("pomodoro_session");
    reveal_strlit(" WHERE ");
    reveal_strlit("app_user");
    reveal_strlit(" = ");
    reveal_strlit("$");
    reveal_strlit(" ORDER BY started_at DESC, id DESC");
    reveal(crate::sql::Picking::text);
    reveal_with_fuel(crate::sql::where_text, 2);
    reveal_with_fuel(crate::sql::stands, 35);
    reveal_with_fuel(crate::sql::spells_by, 8);
    crate::sql::lemma_spells_by(LIST_FOR_USER@, 70, list_for_user_reading().text(), crate::sql::cut(76, crate::sql::cut(92, crate::sql::cut(99, crate::sql::cut(107, crate::sql::cut(110, crate::sql::cut(112, crate::sql::cut(146, Cuts::Last))))))));
}

/// [`list_for_user`] reads the rows it names and no other.
pub proof fn law_list_for_user_reads_its_rows(
    user: UserId,
    sent: Statement,
    row: Row,
)
    requires
        call_ensures(list_for_user, (user,), sent),
    ensures
        list_for_user_reading().is_read(sent@),
        list_for_user_reading().picks(sent@.binds, row) == (row["app_user"@] == Cell::Uuid(user.0)),
{
    lemma_list_for_user_reads();
    reveal_with_fuel(crate::sql::all_hold, 2);
}

} // verus!
