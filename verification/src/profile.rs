//! The motivational figures of a profile: one aggregate read with the lifetime
//! counters beside it.

use vstd::prelude::*;

use crate::id::UserId;
use crate::page::{Param, ParamView, Statement};
use crate::sql::{Cell, Cond, Cuts, Picking, Row, Text};

verus! {

/// The lifetime counters of an account.
#[derive(Clone, Copy, PartialEq, Eq, Structural, Debug)]
pub struct BadgeStats {
    pub homework_submitted: i64,
    pub homework_on_time: i64,
    pub exam_sat: i64,
    pub pomodoro_finished: i64,
    pub pomodoro_focus_ms: i64,
    pub marks_given: i64,
    pub lessons_held: i64,
    pub pool_approved: i64,
    pub pool_published: i64,
    pub lessons_attended: i64,
    pub high_mark: i64,
    pub study_streak: i64,
}

/// The counters of an account with no history.
pub open spec fn no_history() -> BadgeStats {
    BadgeStats {
            homework_submitted: 0,
            homework_on_time: 0,
            exam_sat: 0,
            pomodoro_finished: 0,
            pomodoro_focus_ms: 0,
            marks_given: 0,
            lessons_held: 0,
            pool_approved: 0,
            pool_published: 0,
            lessons_attended: 0,
            high_mark: 0,
            study_streak: 0,
    }
}

impl Default for BadgeStats {
    fn default() -> (stats: BadgeStats)
        ensures
            stats == no_history(),
    {
        BadgeStats {
            homework_submitted: 0,
            homework_on_time: 0,
            exam_sat: 0,
            pomodoro_finished: 0,
            pomodoro_focus_ms: 0,
            marks_given: 0,
            lessons_held: 0,
            pool_approved: 0,
            pool_published: 0,
            lessons_attended: 0,
            high_mark: 0,
            study_streak: 0,
        }
    }
}

/// How many stints an account finished, and how long they ran together.
#[derive(Clone, Copy, PartialEq, Eq, Structural, Debug)]
pub struct PomodoroTotals {
    pub sessions: i64,
    pub focus_ms: i64,
}

/// The figures of a profile.
#[derive(Clone, Copy, PartialEq, Eq, Structural, Debug)]
pub struct ProfileStats {
    pub totals: BadgeStats,
    pub pomodoro_sessions: i64,
    pub pomodoro_focus_ms: i64,
    pub courses: i64,
    pub classes: i64,
}

pub const FINISHED_STINTS: &'static str =
    "SELECT count(*) AS sessions, COALESCE(sum(finished_at - started_at), 0)::BIGINT AS \
     focus_ms FROM pomodoro_session WHERE app_user = $1 AND finished_at IS NOT NULL";

pub const LIFETIME_COUNTERS: &'static str =
    "SELECT homework_submitted_total AS homework_submitted, homework_on_time_total AS \
     homework_on_time, exam_sat_total AS exam_sat, pomodoro_finished_total AS \
     pomodoro_finished, pomodoro_focus_ms_total AS pomodoro_focus_ms, marks_given_total AS \
     marks_given, lessons_held_total AS lessons_held, pool_approved_total AS pool_approved, \
     pool_published_total AS pool_published, lessons_attended_total AS lessons_attended, \
     high_mark_total AS high_mark, study_streak_longest AS study_streak FROM app_user WHERE id \
     = $1";

/// The reads behind a profile: the finished stints, of which there is always
/// one row, and the lifetime counters.
pub fn load(user: UserId) -> (both: (Statement, Statement))
    ensures
        both.0@ == crate::page::sends(FINISHED_STINTS, seq![ParamView::Uuid(user.0)]),
        both.1@ == crate::page::sends(LIFETIME_COUNTERS, seq![ParamView::Uuid(user.0)]),
{
    (
        Statement::new(FINISHED_STINTS, vec![Param::Uuid(user.0)]),
        Statement::new(LIFETIME_COUNTERS, vec![Param::Uuid(user.0)]),
    )
}

/// The figures of a profile from what was read. Stints closed by a clock that
/// stepped back can sum below zero; the focus time is never shown so.
pub fn stats(
    totals: PomodoroTotals,
    counters: Option<BadgeStats>,
    courses: i64,
    classes: i64,
) -> (stats: ProfileStats)
    ensures
        stats == (ProfileStats {
            totals: match counters {
                Some(counters) => counters,
                None => no_history(),
            },
            pomodoro_sessions: totals.sessions,
            pomodoro_focus_ms: if totals.focus_ms > 0 {
                totals.focus_ms
            } else {
                0
            },
            courses,
            classes,
        }),
{
    ProfileStats {
        totals: match counters {
            Some(counters) => counters,
            None => BadgeStats::default(),
        },
        pomodoro_sessions: totals.sessions,
        pomodoro_focus_ms: if totals.focus_ms > 0 {
            totals.focus_ms
        } else {
            0
        },
        courses,
        classes,
    }
}

/// A stint: when it started, and when it was finished if it was.
pub struct Stint {
    pub started_at: int,
    pub finished_at: Option<int>,
}

/// The number of finished stints.
pub open spec fn finished(stints: Seq<Stint>) -> int
    decreases stints.len(),
{
    if stints.len() == 0 {
        0
    } else {
        finished(stints.drop_last()) + if stints.last().finished_at is Some {
            1int
        } else {
            0int
        }
    }
}

/// The time of the finished stints together.
pub open spec fn focus(stints: Seq<Stint>) -> int
    decreases stints.len(),
{
    if stints.len() == 0 {
        0
    } else {
        focus(stints.drop_last()) + match stints.last().finished_at {
            Some(at) => at - stints.last().started_at,
            None => 0int,
        }
    }
}

/// An open stint counts for nothing.
pub proof fn law_open_stint_is_invisible(stints: Seq<Stint>, started_at: int)
    ensures
        ({
            let more = stints.push(Stint { started_at, finished_at: None });
            finished(more) == finished(stints) && focus(more) == focus(stints)
        }),
{
    let more = stints.push(Stint { started_at, finished_at: None });
    assert(more.drop_last() =~= stints);
}

/// What [`FINISHED_STINTS`] says.
pub open spec fn finished_stints_reading() -> Picking {
    Picking {
        skip: 91,
        head: " FROM "@,
        columns: Seq::empty(),
        table: "pomodoro_session"@,
        conditions: seq![crate::sql::is_bound("app_user"@, 1), Cond::NotNull(crate::sql::column("finished_at"@))],
        rest: Text::End,
    }
}

proof fn lemma_finished_stints_reads()
    ensures
        crate::sql::spells(FINISHED_STINTS@, 91, finished_stints_reading().text()),
{
    reveal_strlit("SELECT count(*) AS sessions, COALESCE(sum(finished_at - started_at), 0)::BIGINT AS focus_ms FROM pomodoro_session WHERE app_user = $1 AND finished_at IS NOT NULL");
    reveal_strlit(" FROM ");
    reveal_strlit("pomodoro_session");
    reveal_strlit(" WHERE ");
    reveal_strlit("app_user");
    reveal_strlit(" = ");
    reveal_strlit("$");
    reveal_strlit(" AND ");
    reveal_strlit("finished_at");
    reveal_strlit(" IS NOT NULL");
    reveal(crate::sql::Picking::text);
    reveal_with_fuel(crate::sql::where_text, 3);
    reveal_with_fuel(crate::sql::stands, 17);
    reveal_with_fuel(crate::sql::spells_by, 10);
    crate::sql::lemma_spells_by(FINISHED_STINTS@, 91, finished_stints_reading().text(), crate::sql::cut(97, crate::sql::cut(113, crate::sql::cut(120, crate::sql::cut(128, crate::sql::cut(131, crate::sql::cut(133, crate::sql::cut(138, crate::sql::cut(149, crate::sql::cut(161, Cuts::Last))))))))));
}

/// What [`LIFETIME_COUNTERS`] says.
pub open spec fn lifetime_counters_reading() -> Picking {
    Picking {
        skip: 477,
        head: " FROM "@,
        columns: Seq::empty(),
        table: "app_user"@,
        conditions: seq![crate::sql::is_bound("id"@, 1)],
        rest: Text::End,
    }
}

proof fn lemma_lifetime_counters_reads()
    ensures
        crate::sql::spells(LIFETIME_COUNTERS@, 477, lifetime_counters_reading().text()),
{
    reveal_strlit("SELECT homework_submitted_total AS homework_submitted, homework_on_time_total AS homework_on_time, exam_sat_total AS exam_sat, pomodoro_finished_total AS pomodoro_finished, pomodoro_focus_ms_total AS pomodoro_focus_ms, marks_given_total AS marks_given, lessons_held_total AS lessons_held, pool_approved_total AS pool_approved, pool_published_total AS pool_published, lessons_attended_total AS lessons_attended, high_mark_total AS high_mark, study_streak_longest AS study_streak FROM app_user WHERE id = $1");
    reveal_strlit(" FROM ");
    reveal_strlit("app_user");
    reveal_strlit(" WHERE ");
    reveal_strlit("id");
    reveal_strlit(" = ");
    reveal_strlit("$");
    reveal(crate::sql::Picking::text);
    reveal_with_fuel(crate::sql::where_text, 2);
    reveal_with_fuel(crate::sql::stands, 9);
    reveal_with_fuel(crate::sql::spells_by, 7);
    crate::sql::lemma_spells_by(LIFETIME_COUNTERS@, 477, lifetime_counters_reading().text(), crate::sql::cut(483, crate::sql::cut(491, crate::sql::cut(498, crate::sql::cut(500, crate::sql::cut(503, crate::sql::cut(505, Cuts::Last)))))));
}

/// A profile is read of its own user.
pub proof fn law_load_reads_its_rows(
    user: UserId,
    both: (Statement, Statement),
    row: Row,
)
    requires
        call_ensures(load, (user,), both),
    ensures
        finished_stints_reading().is_read(both.0@),
        finished_stints_reading().picks(both.0@.binds, row) == (row["app_user"@] == Cell::Uuid(user.0) && row["finished_at"@] !is Null),
        lifetime_counters_reading().is_read(both.1@),
        lifetime_counters_reading().picks(both.1@.binds, row) == (row["id"@] == Cell::Uuid(user.0)),
{
    lemma_finished_stints_reads();
    lemma_lifetime_counters_reads();
    reveal_with_fuel(crate::sql::all_hold, 3);
}

} // verus!
