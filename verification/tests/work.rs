use school_db::error::{AppError, DbError, Gone};
use school_db::exam_result::Mark;
use school_db::homework::{
    self, claim_statement, created, ensure_no_orphans, graded_statement, keys_of, list_all,
    list_for_course, list_for_courses, list_for_user_in_course, lock_statement, release_statement,
    subject_gone, submitted_statement, Homework, HomeworkPatch, Retag, Update, UpdateRefusal,
};
use school_db::homework_file::{self, no_seat, Deleted, HomeworkFile};
use school_db::homework_result::{self, Grade, GradeRefusal, HomeworkResult, Remove, Removed};
use school_db::homework_submission::{
    self, delete_lock, delete_target, is_graded, touch, Upsert, UpsertRequest, Upserted, Withdrawal,
};
use school_db::id::{
    CourseId, HomeworkFileId, HomeworkId, HomeworkResultId, HomeworkSubmissionId, SubjectId,
    Timestamp, UserId,
};
use school_db::page::{Statement, Uuid};
use school_db::transaction::{Reply, Step};

const HOMEWORK: HomeworkId = HomeworkId(Uuid(1));
const COURSE: CourseId = CourseId(Uuid(2));
const OLD: SubjectId = SubjectId(Uuid(3));
const NEW: SubjectId = SubjectId(Uuid(4));
const DEAD: SubjectId = SubjectId(Uuid(5));
const STUDENT: UserId = UserId(Uuid(6));
const OTHER: UserId = UserId(Uuid(7));
const TEACHER: UserId = UserId(Uuid(8));

fn homework(assigned: Option<Vec<UserId>>) -> Homework {
    Homework {
        id: HOMEWORK,
        course: COURSE,
        subject: OLD,
        title: "Ödev".to_string(),
        description: None,
        due_at: Timestamp(100),
        assigned,
        created_by: TEACHER,
        created_at: Timestamp(1),
    }
}

fn patch() -> HomeworkPatch {
    HomeworkPatch {
        subject: None,
        title: None,
        description: None,
        due_at: None,
        assigned: None,
    }
}

/// One homework row under two live subjects.
#[derive(Clone, PartialEq, Debug)]
struct Tags {
    row: Option<SubjectId>,
    old: i64,
    new: i64,
    orphans: bool,
}

impl Tags {
    fn count(&mut self, subject: SubjectId) -> Option<&mut i64> {
        if subject == OLD {
            Some(&mut self.old)
        } else if subject == NEW {
            Some(&mut self.new)
        } else {
            None
        }
    }

    fn update(&mut self, retag: Retag) -> Result<(), UpdateRefusal> {
        let mut work = self.clone();
        let mut at = Update::Lock;
        loop {
            let reply = match at {
                Update::Lock => match work.row {
                    Some(subject) => Reply::Key(subject.0),
                    None => Reply::Empty,
                },
                Update::ReadSubmitted { .. } => Reply::Row,
                Update::ReadGraded { .. } => Reply::Flag(work.orphans),
                Update::Release { .. } => {
                    if let Some(count) = work.count(retag.snapshot) {
                        *count = (*count - 1).max(0);
                    }
                    Reply::Row
                }
                Update::Claim { .. } => match work.count(retag.subject.unwrap()) {
                    Some(count) => {
                        *count += 1;
                        Reply::Row
                    }
                    None => Reply::Empty,
                },
                Update::Write => {
                    work.row = Some(retag.subject.unwrap_or(work.row.unwrap()));
                    Reply::Row
                }
            };
            match homework::update(at, retag, reply) {
                Step::Ask(next) => at = next,
                Step::Commit(()) => {
                    *self = work;
                    return Ok(());
                }
                Step::Abort(refusal) => return Err(refusal),
            }
        }
    }
}

fn tags() -> Tags {
    Tags { row: Some(OLD), old: 1, new: 0, orphans: false }
}

fn retag(subject: SubjectId, snapshot: SubjectId) -> Retag {
    Retag { subject: Some(subject), snapshot, narrows: false }
}

/// Each step of an edit asks for what the patch and the rows read so far say.
#[test]
fn an_edit_claims_the_subject_its_patch_names() {
    let moves = HomeworkPatch { subject: Some(NEW), ..patch() };
    let current = Some(homework(None));
    let asked = |patch: &HomeworkPatch, at: Update| patch.statement(at, HOMEWORK, OLD, &current);
    let same = |statement: Option<Statement>, other: Statement| {
        let statement = statement.unwrap();
        assert_eq!(statement.sql, other.sql);
        assert_eq!(format!("{:?}", statement.binds), format!("{:?}", other.binds));
    };
    same(asked(&moves, Update::Lock), lock_statement(HOMEWORK));
    same(asked(&moves, Update::ReadSubmitted { stored: OLD }), submitted_statement(HOMEWORK));
    same(asked(&moves, Update::ReadGraded { stored: OLD }), graded_statement(HOMEWORK));
    same(asked(&moves, Update::Release { stored: OLD }), release_statement(OLD));
    same(asked(&moves, Update::Claim { stored: OLD }), claim_statement(NEW));
    same(asked(&moves, Update::Write), moves.write_statement(&homework(None)));
    // Nothing to claim where nothing moves, nothing to write where nothing was read.
    assert!(asked(&patch(), Update::Claim { stored: OLD }).is_none());
    let stays = HomeworkPatch { subject: Some(OLD), ..patch() };
    assert!(asked(&stays, Update::Claim { stored: OLD }).is_none());
    assert!(moves.statement(Update::Write, HOMEWORK, OLD, &None).is_none());
}

/// Both lists are read before a narrowed edit is let through.
#[test]
fn a_narrowed_edit_reads_both_lists() {
    let narrows = Retag { subject: None, snapshot: OLD, narrows: true };
    let locked = homework::update(Update::Lock, narrows, Reply::Key(OLD.0));
    assert!(matches!(locked, Step::Ask(Update::ReadSubmitted { stored: OLD })));
    let read = homework::update(Update::ReadSubmitted { stored: OLD }, narrows, Reply::Empty);
    assert!(matches!(read, Step::Ask(Update::ReadGraded { stored: OLD })));
    let fine = homework::update(Update::ReadGraded { stored: OLD }, narrows, Reply::Flag(false));
    assert!(matches!(fine, Step::Ask(Update::Write)));
    let orphans = homework::update(Update::ReadGraded { stored: OLD }, narrows, Reply::Flag(true));
    assert!(matches!(orphans, Step::Abort(UpdateRefusal::Orphans)));
}

#[test]
fn homework_a_subject_move_moves_the_count() {
    let mut db = tags();
    db.update(retag(NEW, OLD)).unwrap();
    assert_eq!((db.old, db.new, db.row), (0, 1, Some(NEW)));
}

#[test]
fn homework_a_move_to_a_dead_subject_leaves_everything_untouched() {
    let mut db = tags();
    assert_eq!(db.update(retag(DEAD, OLD)), Err(UpdateRefusal::SubjectGone));
    assert_eq!(db, tags());
    match (UpdateRefusal::SubjectGone.error(), subject_gone()) {
        (AppError::Validation(a), AppError::Validation(b)) => {
            assert_eq!(format!("{a:?}"), format!("{b:?}"))
        }
        other => panic!("{other:?}"),
    }
}

#[test]
fn homework_a_stale_mover_is_refused_and_claims_nothing() {
    let mut db = Tags { row: Some(NEW), old: 0, new: 1, orphans: false };
    let before = db.clone();
    assert_eq!(db.update(retag(NEW, OLD)), Err(UpdateRefusal::Stale));
    assert_eq!(db, before);
    match UpdateRefusal::Stale.error() {
        AppError::Conflict(text) => assert_eq!(text, homework::STALE_MOVE),
        other => panic!("{other:?}"),
    }
}

#[test]
fn homework_a_stale_re_stater_is_refused_and_reverts_nothing() {
    let mut db = Tags { row: Some(NEW), old: 0, new: 1, orphans: false };
    let before = db.clone();
    assert_eq!(db.update(retag(OLD, OLD)), Err(UpdateRefusal::Stale));
    assert_eq!(db, before);
    let mut fresh = tags();
    fresh.update(retag(OLD, OLD)).unwrap();
    assert_eq!(fresh, tags());
}

#[test]
fn a_narrowing_that_orphans_work_is_refused() {
    let mut db = Tags { orphans: true, ..tags() };
    let narrows = Retag { subject: None, snapshot: OLD, narrows: true };
    assert_eq!(db.update(narrows), Err(UpdateRefusal::Orphans));
    db.orphans = false;
    db.update(narrows).unwrap();
    db.row = None;
    assert_eq!(db.update(narrows), Err(UpdateRefusal::Gone));
    assert!(matches!(UpdateRefusal::Gone.error(), AppError::NotFound));
}

#[test]
fn orphaned_students_are_named_once_each() {
    let kept = Some(vec![STUDENT]);
    assert!(ensure_no_orphans(&None, &vec![OTHER], &vec![]).is_ok());
    assert!(ensure_no_orphans(&kept, &vec![STUDENT], &vec![STUDENT]).is_ok());
    match ensure_no_orphans(&kept, &vec![OTHER, STUDENT], &vec![OTHER, TEACHER]) {
        Err(AppError::ConflictOwned(text)) => assert_eq!(
            text,
            "narrowing the assigned list would orphan existing work by 2 student(s): \
             00000000-0000-0000-0000-000000000007, 00000000-0000-0000-0000-000000000008"
        ),
        other => panic!("{other:?}"),
    }
}

#[test]
fn an_update_merges_what_was_carried_into_the_locked_row() {
    let current = homework(Some(vec![STUDENT]));
    let carried = HomeworkPatch {
        subject: Some(NEW),
        assigned: Some(None),
        ..patch()
    };
    assert_eq!(
        format!("{:?}", carried.write_statement(&current).binds),
        "[Uuid(Uuid(1)), Uuid(Uuid(4)), Text(\"Ödev\"), OptText(None), I64(100), Uuids([])]"
    );
    let cleared = HomeworkPatch {
        description: Some(None),
        title: Some("Yeni".to_string()),
        due_at: Some(Timestamp(200)),
        assigned: Some(Some(vec![OTHER])),
        ..patch()
    };
    assert_eq!(
        format!("{:?}", cleared.write_statement(&current).binds),
        "[Uuid(Uuid(1)), Uuid(Uuid(3)), Text(\"Yeni\"), OptText(None), I64(200), Uuids([Uuid(7)])]"
    );
    assert!(cleared.retag(OLD).narrows);
    assert!(!carried.retag(OLD).narrows);
    assert_eq!(carried.retag(OLD).subject, Some(NEW));
}

#[test]
fn a_refused_create_writes_neither_row_nor_count() {
    let statement = homework::create(&homework(None));
    assert!(statement.sql.starts_with("WITH seat AS"));
    assert_eq!(
        format!("{:?}", statement.binds),
        "[Uuid(Uuid(3)), Uuid(Uuid(1)), Uuid(Uuid(2)), Text(\"Ödev\"), OptText(None), I64(100), \
         Uuids([]), Uuid(Uuid(8)), I64(1)]"
    );
    assert_eq!(created(Ok(Some(1))).unwrap(), 1);
    match (created::<i32>(Ok(None)), subject_gone()) {
        (Err(AppError::Validation(a)), AppError::Validation(b)) => {
            assert_eq!(format!("{a:?}"), format!("{b:?}"))
        }
        other => panic!("{other:?}"),
    }
    let other = DbError { code: Some("40001".to_string()), constraint: None, message: String::new() };
    assert!(matches!(created::<i32>(Err(other)), Err(AppError::Db(_))));
}

#[test]
fn a_deleted_homework_hands_its_reference_back() {
    let mut at = homework::Delete::ReadFiles;
    let mut sent: Vec<String> = Vec::new();
    loop {
        sent.push(at.statement(HOMEWORK).sql);
        let reply = match at {
            homework::Delete::DeleteRow => Reply::Key(OLD.0),
            _ => Reply::Empty,
        };
        match homework::delete(at, reply) {
            Step::Ask(next) => at = next,
            Step::Commit(()) => break,
            Step::Abort(_) => panic!("refused"),
        }
    }
    assert_eq!(sent.len(), 6);
    assert!(sent[5].contains("GREATEST(homework_count - 1, 0)"));
    assert!(matches!(
        homework::delete(homework::Delete::DeleteRow, Reply::Empty),
        Step::Abort(Gone)
    ));
}

#[test]
fn homework_reads_bind_their_scope() {
    assert!(homework::read(HOMEWORK).sql.ends_with("WHERE id = $1"));
    assert!(list_all().binds.is_empty());
    assert!(list_for_course(COURSE).sql.ends_with("WHERE course = $1 ORDER BY id DESC"));
    assert!(list_for_courses(&Vec::new()).is_none());
    assert_eq!(
        format!("{:?}", list_for_courses(&vec![COURSE]).unwrap().binds),
        "[Uuids([Uuid(2)])]"
    );
    assert_eq!(
        format!("{:?}", list_for_user_in_course(COURSE, STUDENT).binds),
        "[Uuid(Uuid(2)), Uuid(Uuid(6))]"
    );
    assert!(lock_statement(HOMEWORK).sql.ends_with("FOR UPDATE"));
    assert!(submitted_statement(HOMEWORK).sql.contains("homework_submission"));
    assert!(graded_statement(HOMEWORK).sql.contains("homework_result"));
    assert!(release_statement(OLD).sql.contains("GREATEST(homework_count - 1, 0)"));
    assert!(claim_statement(NEW).sql.contains("homework_count + 1"));
    assert_eq!(keys_of(&vec![STUDENT, OTHER]), vec![Uuid(6), Uuid(7)]);
}

#[derive(Clone, PartialEq, Debug)]
struct Handin {
    submitted_at: i64,
    updated_at: i64,
    text: Option<String>,
    counted: Option<bool>,
    graded: bool,
}

#[derive(Clone, PartialEq, Debug)]
struct Handins {
    due: Option<i64>,
    row: Option<Handin>,
    submitted: i64,
    on_time: i64,
}

fn handins(due: i64) -> Handins {
    Handins { due: Some(due), row: None, submitted: 0, on_time: 0 }
}

impl Handins {
    fn upsert(&mut self, text: &str, preserve: bool, now: i64) -> Result<Upserted, Gone> {
        let request = UpsertRequest {
            id: HomeworkSubmissionId(Uuid(20)),
            homework: HOMEWORK,
            user: STUDENT,
            text: Some(text.to_string()),
            preserve_text: preserve,
            now: Timestamp(now),
        };
        let mut at = Upsert::LockHomework;
        loop {
            let statement = at.statement(&request);
            let reply = match at {
                Upsert::LockHomework => match self.due {
                    Some(due) => Reply::Int(due),
                    None => Reply::Empty,
                },
                Upsert::ReadExisting { .. } => match self.row {
                    Some(_) => Reply::Row,
                    None => Reply::Empty,
                },
                Upsert::Restamp => {
                    let row = self.row.as_mut().unwrap();
                    if row.graded {
                        Reply::Empty
                    } else {
                        row.updated_at = now;
                        if statement.sql.contains("text = $3") {
                            row.text = Some(text.to_string());
                        }
                        Reply::Row
                    }
                }
                Upsert::Insert { on_time } => {
                    self.row = Some(Handin {
                        submitted_at: now,
                        updated_at: now,
                        text: Some(text.to_string()),
                        counted: Some(on_time),
                        graded: false,
                    });
                    Reply::Row
                }
                Upsert::CountUp { on_time } => {
                    assert_eq!(
                        format!("{:?}", statement.binds),
                        format!("[Uuid(Uuid(6)), I64({})]", i64::from(on_time))
                    );
                    self.submitted += 1;
                    self.on_time += i64::from(on_time);
                    Reply::Row
                }
            };
            match homework_submission::upsert(at, Timestamp(now), reply) {
                Step::Ask(next) => at = next,
                Step::Commit(outcome) => return Ok(outcome),
                Step::Abort(gone) => return Err(gone),
            }
        }
    }

    fn withdraw(&mut self) -> bool {
        let target = match &self.row {
            Some(row) if !row.graded => Some(Withdrawal {
                id: HomeworkSubmissionId(Uuid(20)),
                user: STUDENT,
                submitted_at: Timestamp(row.submitted_at),
                counted_on_time: row.counted,
            }),
            _ => None,
        };
        let statements = match homework_submission::delete(self.due.map(Timestamp), target) {
            Some(statements) => statements,
            None => return false,
        };
        assert_eq!(statements.len(), 3);
        self.row = None;
        self.submitted = (self.submitted - 1).max(0);
        let by = format!("{:?}", statements[2].binds);
        if by.ends_with("I64(1)]") {
            self.on_time = (self.on_time - 1).max(0);
        }
        true
    }
}

#[test]
fn resubmit_keeps_submitted_at_and_restamps_updated_at() {
    let mut db = handins(100);
    assert_eq!(db.upsert("bir", false, 10), Ok(Upserted::Created));
    assert_eq!(db.upsert("iki", false, 20), Ok(Upserted::Restamped));
    let row = db.row.clone().unwrap();
    assert_eq!((row.submitted_at, row.updated_at), (10, 20));
    assert_eq!(row.text.as_deref(), Some("iki"));
    assert_eq!(db.upsert("üç", true, 30), Ok(Upserted::Restamped));
    assert_eq!(db.row.unwrap().text.as_deref(), Some("iki"));
}

#[test]
fn a_grade_freezes_the_submission_row_itself() {
    let mut db = handins(100);
    db.upsert("bir", false, 10).unwrap();
    db.row.as_mut().unwrap().graded = true;
    let before = db.clone();
    assert_eq!(db.upsert("iki", false, 20), Ok(Upserted::Frozen));
    assert!(!db.withdraw());
    assert_eq!(db, before);
}

#[test]
fn touch_moves_updated_at_but_not_submitted_at_or_text() {
    let statement = touch(HomeworkSubmissionId(Uuid(20)), Timestamp(9));
    assert!(statement.sql.contains("SET updated_at = $2 WHERE id = $1"));
    assert!(!statement.sql.contains("submitted_at =") && !statement.sql.contains("text ="));
    assert!(is_graded(HomeworkSubmissionId(Uuid(20))).sql.contains("graded_by_result IS NOT NULL"));
    assert!(delete_lock(HOMEWORK).sql.ends_with("FOR UPDATE"));
    assert!(delete_target(HomeworkSubmissionId(Uuid(20))).sql.contains("graded_by_result IS NULL"));
    assert!(homework_submission::read_for(HOMEWORK, STUDENT).sql.contains("app_user = $2"));
    assert!(homework_submission::list_for_homework(HOMEWORK).sql.ends_with("ORDER BY id ASC"));
}

#[test]
fn submit_delete_submit_is_worth_one_submission() {
    let mut db = handins(100);
    for _ in 0..3 {
        db.upsert("bir", false, 10).unwrap();
        assert_eq!((db.submitted, db.on_time), (1, 1));
        assert!(db.withdraw());
        assert_eq!((db.submitted, db.on_time), (0, 0));
    }
    assert!(!db.withdraw());
}

#[test]
fn a_late_submission_counts_as_submitted_but_not_on_time() {
    let mut db = handins(100);
    db.upsert("geç", false, 101).unwrap();
    assert_eq!((db.submitted, db.on_time), (1, 0));
    let mut exact = handins(100);
    exact.upsert("tam", false, 100).unwrap();
    assert_eq!((exact.submitted, exact.on_time), (1, 1));
}

#[test]
fn a_row_with_no_stored_verdict_falls_back_to_the_deadline() {
    let mut db = handins(100);
    db.upsert("bir", false, 10).unwrap();
    db.row.as_mut().unwrap().counted = None;
    assert!(db.withdraw());
    assert_eq!((db.submitted, db.on_time), (0, 0));
    db.upsert("bir", false, 10).unwrap();
    db.row.as_mut().unwrap().counted = None;
    db.due = None;
    assert!(db.withdraw());
    assert_eq!((db.submitted, db.on_time), (0, 1));
}

#[test]
fn a_deadline_moved_under_the_caller_is_judged_by_the_stored_value() {
    let mut db = handins(100);
    db.due = Some(5);
    db.upsert("bir", false, 10).unwrap();
    assert_eq!(db.on_time, 0);
    // The verdict of the hand-in is given back, not the deadline of today.
    db.due = Some(100);
    db.on_time = 3;
    assert!(db.withdraw());
    assert_eq!(db.on_time, 3);
    db.due = None;
    assert!(db.upsert("bir", false, 10).is_err());
}

#[derive(Clone, PartialEq, Debug)]
struct Grades {
    homework: bool,
    grader: Option<UserId>,
    frozen: bool,
    given: i64,
}

impl Grades {
    fn row(&self, grader: UserId) -> HomeworkResult {
        HomeworkResult {
            id: HomeworkResultId(Uuid(30)),
            homework: HOMEWORK,
            user: STUDENT,
            status: "done".to_string(),
            mark: Some(Mark(90)),
            graded_by: grader,
            created_at: Timestamp(1),
        }
    }

    fn grade(&mut self, grader: UserId) -> Result<(), GradeRefusal> {
        let row = self.row(grader);
        let mut at = Grade::LockHomework;
        loop {
            let statement = at.statement(&row);
            let sql = &statement.sql;
            let reply = match at {
                Grade::LockHomework => {
                    if self.homework {
                        Reply::Row
                    } else {
                        Reply::Empty
                    }
                }
                Grade::ReadBefore => match self.grader {
                    Some(_) => Reply::Row,
                    None => Reply::Empty,
                },
                Grade::Store { .. } => {
                    self.grader = Some(grader);
                    // A pair that has a grade keeps the key of its first.
                    Reply::Key(Uuid(29))
                }
                Grade::Stamp { .. } => {
                    assert!(format!("{:?}", statement.binds).ends_with("Uuid(Uuid(29))]"));
                    self.frozen = true;
                    Reply::Row
                }
                Grade::CreditGrader => {
                    assert!(sql.contains("marks_given_total + 1"));
                    self.given += 1;
                    Reply::Row
                }
            };
            match homework_result::grade(at, reply) {
                Step::Ask(next) => at = next,
                Step::Commit(()) => return Ok(()),
                Step::Abort(gone) => return Err(gone),
            }
        }
    }

    fn remove(&mut self) -> Removed {
        let mut at = Remove::LockHomework;
        loop {
            let sql = at.statement(HOMEWORK, STUDENT).sql;
            let reply = match at {
                Remove::LockHomework => {
                    if self.homework {
                        Reply::Row
                    } else {
                        Reply::Empty
                    }
                }
                Remove::ClearStamp => {
                    if self.grader.is_some() {
                        self.frozen = false;
                    }
                    Reply::Row
                }
                Remove::DeleteGrade => match self.grader.take() {
                    Some(grader) => Reply::Key(grader.0),
                    None => Reply::Empty,
                },
                Remove::DebitGrader { grader } => {
                    assert_eq!(grader, TEACHER);
                    assert!(sql.contains("GREATEST(marks_given_total - 1, 0)"));
                    self.given = (self.given - 1).max(0);
                    Reply::Row
                }
            };
            match homework_result::remove(at, reply) {
                Step::Ask(next) => at = next,
                Step::Commit(removed) => return removed,
                Step::Abort(()) => panic!("refused"),
            }
        }
    }
}

fn grades() -> Grades {
    Grades { homework: true, grader: None, frozen: false, given: 0 }
}

#[test]
fn grade_upserts_one_row_per_pair_and_remove_unfreezes() {
    let mut db = grades();
    db.grade(TEACHER).unwrap();
    db.grade(TEACHER).unwrap();
    assert!(db.frozen);
    assert_eq!(db.remove(), Removed::Grade);
    assert!(!db.frozen && db.grader.is_none());
    assert_eq!(db.remove(), Removed::Nothing);
    db.homework = false;
    assert_eq!(db.grade(TEACHER), Err(GradeRefusal::Gone));
    assert!(matches!(GradeRefusal::Gone.error(), AppError::NotFound));
    assert_eq!(db.remove(), Removed::Nothing);
    // An upsert that gives no row back is the database's fault.
    let lost = homework_result::grade(Grade::Store { first: true }, Reply::Empty);
    assert!(matches!(lost, Step::Abort(GradeRefusal::NoRow)));
    match GradeRefusal::NoRow.error() {
        AppError::Db(error) => assert_eq!(error.message, homework_result::NO_ROW),
        other => panic!("{other:?}"),
    }
}

#[test]
fn a_first_grade_credits_the_grader_and_a_regrade_does_not() {
    let mut db = grades();
    db.grade(TEACHER).unwrap();
    assert_eq!(db.given, 1);
    db.grade(TEACHER).unwrap();
    assert_eq!(db.given, 1);
}

#[test]
fn ungrading_gives_the_grader_credit_back() {
    let mut db = grades();
    db.grade(TEACHER).unwrap();
    db.remove();
    assert_eq!(db, grades());
    assert!(homework_result::read_for(HOMEWORK, STUDENT).sql.contains("homework = $1"));
    assert!(homework_result::list_for_homework(HOMEWORK).sql.ends_with("ORDER BY id DESC"));
    assert_eq!(
        format!("{:?}", homework_result::list_for_user_in_course(COURSE, STUDENT).binds),
        "[Uuid(Uuid(6)), Uuid(Uuid(2))]"
    );
}

/// A submission's files under its counter.
struct Files {
    count: i64,
    rows: Vec<u128>,
    graded: bool,
}

const SUBMISSION: HomeworkSubmissionId = HomeworkSubmissionId(Uuid(20));

impl Files {
    fn insert(&mut self, id: u128) -> Result<Option<u128>, AppError> {
        let cap = homework_file::MAX_HOMEWORK_FILES_PER_SUBMISSION;
        let outcome = if self.count < cap && !self.graded {
            self.count += 1;
            self.rows.push(id);
            Ok(Some(id))
        } else {
            Ok(None)
        };
        match homework_file::inserted(outcome)? {
            Some(id) => Ok(Some(id)),
            None => {
                no_seat(self.graded)?;
                Ok(None)
            }
        }
    }

    fn delete(&mut self, id: u128) -> Result<Deleted, Gone> {
        let mut at = homework_file::Delete::Gate;
        loop {
            let reply = match at {
                homework_file::Delete::Gate => {
                    if self.graded {
                        Reply::Empty
                    } else {
                        Reply::Row
                    }
                }
                homework_file::Delete::DeleteRow => {
                    match self.rows.iter().position(|row| *row == id) {
                        Some(i) => {
                            self.rows.remove(i);
                            Reply::Row
                        }
                        None => Reply::Empty,
                    }
                }
                homework_file::Delete::ReleaseSeat => {
                    self.count = (self.count - 1).max(0);
                    Reply::Row
                }
            };
            match homework_file::delete(at, reply) {
                Step::Ask(next) => at = next,
                Step::Commit(done) => return Ok(done),
                Step::Abort(gone) => return Err(gone),
            }
        }
    }
}

#[test]
fn rows_scope_to_their_submission_gc_and_cap() {
    let mut files = Files { count: 0, rows: Vec::new(), graded: false };
    for i in 0..10 {
        assert_eq!(files.insert(i).unwrap(), Some(i));
    }
    match files.insert(10) {
        Err(AppError::Conflict(text)) => {
            assert_eq!(text, homework_file::FULL);
            assert_eq!(
                text,
                "the submission already holds the maximum of 10 files — delete one first"
            );
        }
        other => panic!("{other:?}"),
    }
    assert_eq!(files.delete(4), Ok(Deleted::File));
    assert!(files.delete(4).is_err());
    assert_eq!(files.count as usize, files.rows.len());
    assert_eq!(files.insert(11).unwrap(), Some(11));
    let id = HomeworkFileId(Uuid(40));
    assert!(homework_file::read_for(id, SUBMISSION).sql.ends_with("WHERE id = $1 AND submission = $2"));
    assert!(homework_file::read_in_homework(id, HOMEWORK).sql.contains("homework = $2"));
    assert!(homework_file::list_for_submission(SUBMISSION).sql.ends_with("ORDER BY id DESC"));
    assert!(homework_file::count_for_submission(SUBMISSION).sql.starts_with("SELECT count(*)"));
    assert!(homework_file::file_keys_for_homework(HOMEWORK).sql.contains("homework = $1"));
    assert!(homework_file::file_keys_for_course(COURSE).sql.contains("course = $1"));
}

#[test]
fn a_grade_freezes_the_files_too() {
    let mut files = Files { count: 1, rows: vec![1], graded: true };
    assert_eq!(files.insert(2).unwrap(), None);
    assert_eq!(files.delete(1), Ok(Deleted::Closed));
    assert_eq!((files.count, files.rows.len()), (1, 1));
    let file = HomeworkFile {
        id: HomeworkFileId(Uuid(40)),
        submission: SUBMISSION,
        name: "a.pdf".to_string(),
        content_type: "application/pdf".to_string(),
        size: 5,
        file: "homework/a".to_string(),
        created_at: Timestamp(6),
    };
    assert_eq!(
        format!("{:?}", homework_file::insert(&file).binds),
        "[I64(10), Uuid(Uuid(20)), Uuid(Uuid(40)), Text(\"a.pdf\"), Text(\"application/pdf\"), \
         I64(5), Text(\"homework/a\"), I64(6)]"
    );
    let taken = DbError {
        code: Some("23505".to_string()),
        constraint: None,
        message: String::new(),
    };
    match homework_file::inserted::<i32>(Err(taken)) {
        Err(AppError::Internal(text)) => assert_eq!(text, "homework file id collided"),
        other => panic!("{other:?}"),
    }
}
