use school_db::error::AppError;
use school_db::exam_result::{
    grade, latest_per_pair, list_all_for_exam_user, list_for_exam, list_for_user_in_course,
    read_for_user, remove, remove_statement, ExamResult, GoneMark, Grade, GradeRefusal,
    GradeRequest, Mark,
};
use school_db::id::{CourseId, ExamId, UserId};
use school_db::page::Uuid;
use school_db::transaction::{Reply, Step};

const EXAM: ExamId = ExamId(Uuid(1));
const SECOND: ExamId = ExamId(Uuid(11));
const STUDENT: UserId = UserId(Uuid(2));
const GRADER: UserId = UserId(Uuid(3));
const OTHER: UserId = UserId(Uuid(4));

/// The rows a grading touches: the exam at hand, one kind, one student, two
/// graders. `result_count` is the sum over the exams.
#[derive(Clone)]
struct Store {
    at: ExamId,
    exam: Option<bool>,
    retired: bool,
    marks: Vec<(ExamId, i64, i64, UserId)>,
    kind_count: i64,
    result_count: i64,
    given: [i64; 2],
    high: i64,
}

impl Store {
    fn new() -> Store {
        Store {
            at: EXAM,
            exam: Some(false),
            retired: false,
            marks: Vec::new(),
            kind_count: 0,
            result_count: 0,
            given: [0, 0],
            high: 0,
        }
    }

    /// `(kind_count, result_count)`.
    fn counters(&self) -> (i64, i64) {
        (self.kind_count, self.result_count)
    }

    /// `(marks_given_total, high_mark_total)`.
    fn badge_counters(&self) -> (i64, i64) {
        (self.given[0], self.high)
    }

    /// The rows of the exam at hand, oldest sitting first.
    fn results(&self) -> Vec<ExamResult> {
        let mut rows: Vec<ExamResult> = self
            .marks
            .iter()
            .filter(|row| row.0 == self.at)
            .map(|row| ExamResult {
                exam: row.0,
                user: STUDENT,
                seq: row.1,
                mark: Mark(row.2),
                graded_by: row.3,
            })
            .collect();
        rows.sort_by_key(|row| row.seq);
        rows
    }

    fn credit(&mut self, grader: UserId, by: i64) {
        let at = if grader == GRADER { 0 } else { 1 };
        self.given[at] = (self.given[at] + by).max(0);
    }

    fn grade(&mut self, seq: i64, mark: i64, grader: UserId) -> Result<(), GradeRefusal> {
        let mut work = self.clone();
        let exam = self.at;
        let mut at = Grade::LockExam;
        loop {
            let reply = match at {
                Grade::LockExam => match work.exam {
                    Some(draft) => Reply::Flag(draft),
                    None => Reply::Empty,
                },
                Grade::ReadMark => match work
                    .marks
                    .iter()
                    .find(|row| row.0 == exam && row.1 == seq)
                {
                    Some(row) => Reply::Int(row.2),
                    None => Reply::Empty,
                },
                Grade::ClaimKind => {
                    if work.retired {
                        Reply::Empty
                    } else {
                        work.kind_count += 1;
                        Reply::Row
                    }
                }
                Grade::CountMark => {
                    work.result_count += 1;
                    Reply::Row
                }
                Grade::CreditGrader => {
                    work.credit(grader, 1);
                    Reply::Row
                }
                Grade::MoveHigh { by } => {
                    work.high = (work.high + by).max(0);
                    Reply::Row
                }
                Grade::StoreMark => {
                    match work.marks.iter_mut().find(|row| row.0 == exam && row.1 == seq) {
                        Some(row) => {
                            row.2 = mark;
                            row.3 = grader;
                        }
                        None => work.marks.push((exam, seq, mark, grader)),
                    }
                    Reply::Row
                }
            };
            match grade(at, Mark(mark), reply) {
                Step::Ask(next) => at = next,
                Step::Commit(()) => {
                    *self = work;
                    return Ok(());
                }
                Step::Abort(refusal) => return Err(refusal),
            }
        }
    }

    fn remove(&mut self) -> Option<ExamResult> {
        let exam = self.at;
        let mut gone: Vec<GoneMark> = self
            .marks
            .iter()
            .filter(|row| row.0 == exam)
            .map(|row| GoneMark {
                seq: row.1,
                mark: Mark(row.2),
                graded_by: row.3,
            })
            .collect();
        self.marks.retain(|row| row.0 != exam);
        gone.sort_by_key(|row| row.seq);
        let removal = remove(exam, STUDENT, "midterm", &gone)?;
        for statement in &removal.refunds {
            let binds = format!("{:?}", statement.binds);
            let tail = binds.rsplit("I64(").next().unwrap();
            let by: i64 = tail.trim_end_matches(|c| c == ')' || c == ']').parse().unwrap();
            if statement.sql.contains("kind_ref") {
                self.kind_count -= by;
            } else if statement.sql.contains("result_count") {
                self.result_count -= by;
            } else if statement.sql.contains("high_mark_total") {
                self.high = (self.high - by).max(0);
            } else {
                let grader = if binds.contains("Uuid(Uuid(3))") { GRADER } else { OTHER };
                self.credit(grader, -by);
            }
        }
        Some(removal.row)
    }
}

#[test]
fn a_new_mark_moves_both_counters_and_a_regrade_moves_neither() {
    let mut store = Store::new();
    store.grade(1, 40, GRADER).unwrap();
    assert_eq!(store.counters(), (1, 1));
    // Same sitting, new mark: an overwrite, so neither counter moves.
    store.grade(1, 90, GRADER).unwrap();
    assert_eq!(store.marks, vec![(EXAM, 1, 90, GRADER)]);
    assert_eq!(store.counters(), (1, 1));
    // A retake is a second row, so it does claim.
    store.grade(2, 70, GRADER).unwrap();
    assert_eq!(store.counters(), (2, 2));
}

#[test]
fn a_grade_credits_the_grader_once_and_a_high_mark_the_student() {
    let mut store = Store::new();
    store.grade(1, 90, GRADER).unwrap();
    assert_eq!(store.badge_counters(), (1, 1), "at the line earns it");
    store.grade(1, 100, GRADER).unwrap();
    assert_eq!(store.badge_counters(), (1, 1), "a regrade moves nothing");
    store.grade(2, 89, GRADER).unwrap();
    assert_eq!(store.badge_counters(), (2, 1), "89 is under the line");
    store.grade(3, 95, GRADER).unwrap();
    assert_eq!(store.badge_counters(), (3, 2));
}

#[test]
fn a_regrade_across_the_line_moves_the_student_counter_with_it() {
    let mut store = Store::new();
    // Up across the line: no row is added, but a high mark now exists.
    store.grade(1, 40, GRADER).unwrap();
    assert_eq!(store.badge_counters(), (1, 0), "40 is under the line");
    store.grade(1, 95, GRADER).unwrap();
    assert_eq!(store.badge_counters(), (1, 1), "the regrade crossed up");
    store.remove().expect("the mark was there");
    assert_eq!(store.badge_counters(), (0, 0));
    // Down across it: the credit goes back the moment the mark does.
    store.grade(1, 95, GRADER).unwrap();
    assert_eq!(store.badge_counters(), (1, 1));
    store.grade(1, 40, GRADER).unwrap();
    assert_eq!(store.badge_counters(), (1, 0), "the regrade crossed down");
    store.remove().expect("the mark was there");
    assert_eq!(store.badge_counters(), (0, 0));
    // Both sides of a regrade above the line: nothing crosses, nothing moves.
    store.grade(1, 90, GRADER).unwrap();
    store.grade(1, 100, GRADER).unwrap();
    assert_eq!(store.badge_counters(), (1, 1), "90 to 100 stays one");
    // Three rounds of high, low and delete leave the counters where they were.
    for _ in 0..3 {
        store.grade(1, 95, GRADER).unwrap();
        store.grade(1, 40, GRADER).unwrap();
        store.remove().expect("the mark was there");
    }
    assert_eq!(store.badge_counters(), (0, 0));
}

#[test]
fn ungrading_gives_the_badge_counters_back() {
    let mut store = Store::new();
    for _ in 0..3 {
        store.grade(1, 95, GRADER).unwrap();
        assert_eq!(store.badge_counters(), (1, 1));
        store.remove().expect("the mark was there");
        assert_eq!(store.badge_counters(), (0, 0), "the loop kept a credit");
        assert_eq!(store.counters(), (0, 0));
    }
    // Every removed sitting is refunded, and only the ones that took.
    store.grade(1, 40, GRADER).unwrap();
    store.grade(2, 95, GRADER).unwrap();
    assert_eq!(store.badge_counters(), (2, 1));
    let row = store.remove().expect("both sittings were there");
    // The first sitting's mark answers for them all.
    assert_eq!((row.seq, row.mark), (1, Mark(40)));
    assert_eq!(store.badge_counters(), (0, 0));
    // Nothing to remove is nothing to give back.
    assert!(store.remove().is_none());
    assert_eq!(store.badge_counters(), (0, 0));
}

#[test]
fn each_grader_gets_back_what_they_gave() {
    let mut store = Store::new();
    store.grade(1, 95, GRADER).unwrap();
    store.grade(2, 50, OTHER).unwrap();
    store.grade(3, 99, GRADER).unwrap();
    assert_eq!(store.given, [2, 1]);
    store.remove().unwrap();
    assert_eq!(store.given, [0, 0]);
}

#[test]
fn one_exams_regrade_never_eats_another_exams_high_mark() {
    let mut store = Store::new();
    store.grade(1, 95, GRADER).unwrap();
    assert_eq!(store.badge_counters(), (1, 1), "earned on the first exam");
    store.at = SECOND;
    store.grade(1, 40, GRADER).unwrap();
    store.grade(1, 95, GRADER).unwrap();
    assert_eq!(store.badge_counters(), (2, 2));
    store.remove().expect("the mark was there");
    assert_eq!(store.badge_counters(), (1, 1), "the first exam's high mark was eaten");
    assert_eq!(store.marks, vec![(EXAM, 1, 95, GRADER)]);
}

#[test]
fn a_refused_mark_credits_nobody() {
    let mut store = Store::new();
    store.exam = Some(true);
    assert!(store.grade(1, 100, GRADER).is_err());
    assert_eq!(store.badge_counters(), (0, 0));
    assert_eq!(store.given, [0, 0]);
}

#[test]
fn a_mark_is_refused_on_an_exam_that_no_longer_exists() {
    let mut store = Store::new();
    store.exam = None;
    let refused = store.grade(1, 40, GRADER).unwrap_err();
    assert_eq!(refused, GradeRefusal::NoExam);
    assert!(matches!(refused.error("midterm"), AppError::NotFound));
    assert!(store.marks.is_empty());
    assert_eq!(store.counters(), (0, 0));
}

#[test]
fn a_retired_kind_refuses_the_mark_and_leaves_both_counters_alone() {
    let mut store = Store::new();
    store.retired = true;
    let refused = store.grade(1, 40, GRADER).unwrap_err();
    assert_eq!(refused, GradeRefusal::RetiredKind);
    match refused.error("midterm") {
        AppError::ConflictOwned(message) => {
            assert!(message.contains("'midterm'"));
            assert!(message.contains("has been removed from the school's settings"));
        }
        other => panic!("{other:?}"),
    }
    assert!(store.marks.is_empty(), "the mark must not have landed");
    assert_eq!(store.counters(), (0, 0));
}

#[test]
fn a_draft_exam_refuses_the_mark_and_leaves_both_counters_alone() {
    let mut store = Store::new();
    store.exam = Some(true);
    let refused = store.grade(1, 40, GRADER).unwrap_err();
    assert_eq!(refused, GradeRefusal::Draft);
    assert!(matches!(refused.error("midterm"), AppError::Conflict(_)));
    assert!(store.marks.is_empty());
    assert_eq!(store.counters(), (0, 0));
}

#[test]
fn a_retired_kind_still_takes_a_regrade() {
    let mut store = Store::new();
    store.grade(1, 50, GRADER).unwrap();
    store.retired = true;
    store.grade(1, 60, GRADER).unwrap();
    assert_eq!(store.marks, vec![(EXAM, 1, 60, GRADER)]);
    assert_eq!(store.kind_count, 1);
}

fn result(exam: u128, user: u128, seq: i64) -> ExamResult {
    ExamResult {
        exam: ExamId(Uuid(exam)),
        user: UserId(Uuid(user)),
        seq,
        mark: Mark(seq * 10),
        graded_by: GRADER,
    }
}

#[test]
fn retakes_keep_a_mark_per_sitting_with_the_latest_as_grade_of_record() {
    let mut store = Store::new();
    store.grade(1, 40, GRADER).unwrap();
    store.grade(2, 90, GRADER).unwrap();
    // History keeps both sittings, oldest first.
    let mut history = store.results();
    assert_eq!(history.iter().map(|row| row.mark).collect::<Vec<_>>(), vec![Mark(40), Mark(90)]);
    // The grade of record is the latest sitting's, one row a pair.
    history.reverse();
    let roster = latest_per_pair(&history);
    assert_eq!(roster.len(), 1);
    assert_eq!((roster[0].seq, roster[0].mark), (2, Mark(90)));
    // Deleting the pair removes every sitting.
    store.remove().expect("both sittings were there");
    assert!(store.results().is_empty());
}

#[test]
fn the_first_row_of_each_pair_is_its_grade_of_record() {
    let rows = vec![
        result(1, 1, 3),
        result(1, 1, 2),
        result(2, 1, 1),
        result(1, 2, 5),
        result(1, 1, 1),
        result(1, 2, 4),
    ];
    let latest: Vec<(u128, u128, i64)> = latest_per_pair(&rows)
        .iter()
        .map(|row| ((row.exam.0).0, (row.user.0).0, row.seq))
        .collect();
    assert_eq!(latest, vec![(1, 1, 3), (2, 1, 1), (1, 2, 5)]);
    assert!(latest_per_pair(&Vec::new()).is_empty());
}

#[test]
fn the_statements_of_a_mark_bind_the_sitting() {
    let request = GradeRequest {
        exam: EXAM,
        user: STUDENT,
        seq: 2,
        mark: Mark(75),
        graded_by: GRADER,
        kind: "midterm".to_string(),
    };
    let stored = Grade::StoreMark.statement(&request);
    let binds = format!("{:?}", stored.binds);
    assert!(binds.contains("I64(2)") && binds.contains("I64(75)"));
    assert!(Grade::LockExam.statement(&request).sql.contains("FOR"));
    assert!(remove_statement(EXAM, STUDENT).sql.contains("DELETE FROM exam_result"));
    assert!(read_for_user(EXAM, STUDENT).sql.contains("exam_result"));
    assert!(list_for_exam(EXAM).sql.contains("exam_result"));
    assert!(list_all_for_exam_user(EXAM, STUDENT).sql.contains("exam_result"));
    assert!(list_for_user_in_course(CourseId(Uuid(5)), STUDENT).sql.contains("exam_result"));
}

/// Any number of gradings, retakes, regrades and refusals among them, and the
/// removal that follows net to nothing.
#[test]
fn many_gradings_and_a_removal_net_to_nothing() {
    let mut store = Store::new();
    store.kind_count = 5;
    store.given = [4, 2];
    store.high = 1;
    store.result_count = 3;
    store.grade(1, 95, GRADER).unwrap();
    store.grade(2, 40, OTHER).unwrap();
    store.grade(1, 60, GRADER).unwrap();
    store.retired = true;
    assert_eq!(store.grade(3, 99, GRADER), Err(GradeRefusal::RetiredKind));
    store.grade(2, 99, OTHER).unwrap();
    assert_eq!((store.kind_count, store.result_count, store.high), (7, 5, 2));
    assert_eq!(store.given, [5, 3]);
    store.remove().unwrap();
    assert_eq!((store.kind_count, store.result_count, store.high), (5, 3, 1));
    assert_eq!(store.given, [4, 2]);
    assert!(store.marks.is_empty());
}
