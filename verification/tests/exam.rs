use school_db::claim::Claimed;
use school_db::error::{AppError, DbError};
use school_db::exam_attempt::{
    self, create, create_in, freeze_gate, frozen_error, guard_start, ExamWindow, Freeze,
    FreezeRefusal, Sitting,
};
use school_db::exam_audience::{self, Audience};
use school_db::exam_question::{
    self, dead_subject, ExamQuestion, Insert, InsertRefusal, QuestionSpec, Update, UpdateRefusal,
    UpdateRequest,
};
use school_db::exam_weight;
use school_db::id::{
    BankQuestionId, ClassCourseId, ClassGroupId, CourseId, CourseOfferingId, ExamId,
    ExamQuestionId, SubjectId, Timestamp, UserId,
};
use school_db::offering_subject;
use school_db::page::Uuid;
use school_db::question_image::{self, QuestionImage, Upsert};
use school_db::transaction::{Reply, Step};

const EXAM: ExamId = ExamId(Uuid(1));
const SITTING: Sitting = Sitting {
    exam: EXAM,
    user: UserId(Uuid(2)),
    seq: 1,
};

fn violation(code: &str, constraint: &str) -> DbError {
    DbError {
        code: Some(code.to_string()),
        constraint: Some(constraint.to_string()),
        message: String::new(),
    }
}

#[test]
fn the_freeze_gate_opens_only_before_the_first_sitting() {
    assert!(matches!(
        freeze_gate(Freeze::LockExam, Reply::Empty),
        Step::Abort(FreezeRefusal::NoExam)
    ));
    assert!(matches!(
        freeze_gate(Freeze::LockExam, Reply::Row),
        Step::Ask(Freeze::AnyAttempt)
    ));
    assert!(matches!(
        freeze_gate(Freeze::AnyAttempt, Reply::Flag(true)),
        Step::Abort(FreezeRefusal::Frozen)
    ));
    assert!(matches!(
        freeze_gate(Freeze::AnyAttempt, Reply::Flag(false)),
        Step::Commit(())
    ));
    assert_eq!(
        format!("{:?}", frozen_error()),
        format!("{:?}", FreezeRefusal::Frozen.error())
    );
    assert_eq!(
        format!("{:?}", frozen_error()),
        "Conflict(\"cannot change questions after attempts have started\")"
    );
    assert_eq!(format!("{:?}", FreezeRefusal::NoExam.error()), "NotFound");
}

fn window(draft: bool, scheduled: bool, from: Option<i64>, to: Option<i64>) -> Option<ExamWindow> {
    Some(ExamWindow {
        draft,
        scheduled,
        starts_at: from.map(Timestamp),
        ends_at: to.map(Timestamp),
    })
}

#[test]
fn an_exam_starts_only_inside_its_window() {
    let now = Timestamp(100);
    assert!(guard_start(window(false, true, Some(100), Some(101)), now).is_ok());
    assert!(guard_start(window(false, true, None, None), now).is_ok());
    assert!(matches!(guard_start(None, now), Err(AppError::NotFound)));
    assert!(matches!(
        guard_start(window(true, true, None, None), now),
        Err(AppError::NotFound)
    ));
    assert!(matches!(
        guard_start(window(false, false, None, None), now),
        Err(AppError::Conflict(_))
    ));
    assert!(matches!(
        guard_start(window(false, true, Some(101), None), now),
        Err(AppError::Conflict("the exam has not started yet"))
    ));
    assert!(matches!(
        guard_start(window(false, true, None, Some(100)), now),
        Err(AppError::Conflict("the exam has already ended"))
    ));
    let insert = create(window(false, true, None, None), SITTING, now, true, now).unwrap();
    assert_eq!(
        format!("{:?}", insert.binds),
        "[Uuid(Uuid(1)), Uuid(Uuid(2)), I64(1), I64(1), I64(100)]"
    );
    let uncounted = create(window(false, true, None, None), SITTING, now, false, now).unwrap();
    assert!(format!("{:?}", uncounted.binds).contains("I64(1), I64(0), I64(100)"));
    assert!(create(None, SITTING, now, true, now).is_err());
}

#[test]
fn a_start_is_made_full_or_a_duplicate() {
    assert!(matches!(create_in(Ok(Some(1))), Ok(Claimed::Made(1))));
    assert!(matches!(create_in::<i32>(Ok(None)), Ok(Claimed::Full)));
    assert!(matches!(
        create_in::<i32>(Err(violation("23505", "exam_attempt_exam_user_seq"))),
        Ok(Claimed::Duplicate)
    ));
    assert!(matches!(
        create_in::<i32>(Err(violation("23505", "other"))),
        Err(AppError::Db(_))
    ));
}

/// The submission writes one column and the walk-out the other, so neither
/// reverts the other in whichever order they land.
#[test]
fn stamping_left_never_reverts_a_submission() {
    let left = exam_attempt::set_left(SITTING, Some(Timestamp(9)));
    let set = left.sql.split("WHERE").next().unwrap();
    assert!(set.contains("left_at = ") && !set.contains("finished_at = "));
    assert!(format!("{:?}", left.binds).contains("OptI64(Some(9))"));
}

#[test]
fn submitting_never_reverts_a_walk_out_that_raced_it() {
    let finished = exam_attempt::finish(SITTING, Timestamp(9));
    let set = finished.sql.split("WHERE").next().unwrap();
    assert!(set.contains("finished_at = ") && !set.contains("left_at = "));
    let left = exam_attempt::stamp_left_if_running(SITTING, Timestamp(9));
    let set = left.sql.split("WHERE").next().unwrap();
    assert!(set.contains("left_at = ") && !set.contains("finished_at = "));
    let cleared = exam_attempt::set_left(SITTING, None);
    assert!(format!("{:?}", cleared.binds).contains("OptI64(None)"));
}

#[test]
fn the_reads_of_sittings_are_scoped() {
    assert!(exam_attempt::read(SITTING).sql.contains("exam = $1"));
    assert!(exam_attempt::read_latest_for_user(EXAM, SITTING.user).sql.contains("LIMIT 1"));
    assert!(exam_attempt::list_for_user(EXAM, SITTING.user).sql.contains("exam_attempt"));
    assert!(exam_attempt::list_unfinished_for_user(SITTING.user)
        .sql
        .contains("finished_at IS NULL"));
    assert!(exam_attempt::list_for_exam(EXAM).sql.contains("exam = $1"));
    assert!(exam_attempt::any_for_exam(EXAM).sql.contains("EXISTS"));
    assert_eq!(
        format!("{:?}", exam_attempt::guard_statement(EXAM).binds),
        "[Uuid(Uuid(1))]"
    );
}

fn spec() -> QuestionSpec {
    QuestionSpec {
        kind: "choice".to_string(),
        choices: Some(serde_json::from_str("[{\"id\":\"a\"}]").unwrap()),
        correct: Some("a".to_string()),
    }
}

fn question() -> ExamQuestion {
    exam_question::create(
        ExamQuestionId(Uuid(7)),
        EXAM,
        SubjectId(Uuid(8)),
        "2+2?".to_string(),
        5,
        spec(),
    )
}

/// One exam's questions with the subjects they hang off.
struct Paper {
    sat: bool,
    rows: Vec<(u128, SubjectId)>,
    counts: Vec<(SubjectId, i64)>,
}

impl Paper {
    fn new() -> Paper {
        Paper {
            sat: false,
            rows: Vec::new(),
            counts: vec![(SubjectId(Uuid(8)), 0), (SubjectId(Uuid(9)), 0)],
        }
    }

    fn count(&self, subject: u128) -> i64 {
        self.counts.iter().find(|row| row.0 == SubjectId(Uuid(subject))).unwrap().1
    }

    fn gate(&self, at: Freeze) -> Reply {
        match at {
            Freeze::LockExam => Reply::Row,
            Freeze::AnyAttempt => Reply::Flag(self.sat),
        }
    }

    fn insert(&mut self, id: u128, subject: SubjectId) -> Result<(), InsertRefusal> {
        let mut at = Insert::Gate(Freeze::LockExam);
        loop {
            let reply = match at {
                Insert::Gate(gate) => self.gate(gate),
                Insert::ClaimAndInsert => match self.counts.iter_mut().find(|row| row.0 == subject) {
                    Some(row) => {
                        row.1 += 1;
                        self.rows.push((id, subject));
                        Reply::Row
                    }
                    None => Reply::Empty,
                },
            };
            match exam_question::insert(at, reply) {
                Step::Ask(next) => at = next,
                Step::Commit(()) => return Ok(()),
                Step::Abort(refusal) => return Err(refusal),
            }
        }
    }

    fn update(&mut self, id: u128, snapshot: u128, subject: u128) -> Result<(), UpdateRefusal> {
        let retag = snapshot != subject;
        let mut rows = self.rows.clone();
        let mut counts = self.counts.clone();
        let mut at = Update::Gate(Freeze::LockExam);
        loop {
            let reply = match at {
                Update::Gate(gate) => self.gate(gate),
                Update::Release => {
                    if let Some(row) = counts.iter_mut().find(|row| row.0 == SubjectId(Uuid(snapshot))) {
                        row.1 = (row.1 - 1).max(0);
                    }
                    Reply::Row
                }
                Update::Claim => match counts.iter_mut().find(|row| row.0 == SubjectId(Uuid(subject))) {
                    Some(row) => {
                        row.1 += 1;
                        Reply::Row
                    }
                    None => Reply::Empty,
                },
                Update::Write => match rows
                    .iter_mut()
                    .find(|row| row.0 == id && row.1 == SubjectId(Uuid(snapshot)))
                {
                    Some(row) => {
                        row.1 = SubjectId(Uuid(subject));
                        Reply::Row
                    }
                    None => Reply::Empty,
                },
                Update::Probe => Reply::Flag(rows.iter().any(|row| row.0 == id)),
            };
            match exam_question::update(at, retag, reply) {
                Step::Ask(next) => at = next,
                Step::Commit(()) => {
                    self.rows = rows;
                    self.counts = counts;
                    return Ok(());
                }
                Step::Abort(refusal) => return Err(refusal),
            }
        }
    }
}

#[test]
fn a_frozen_exam_leaves_the_subject_counters_untouched() {
    let mut paper = Paper::new();
    paper.insert(1, SubjectId(Uuid(8))).unwrap();
    paper.sat = true;
    let frozen = InsertRefusal::Gate(FreezeRefusal::Frozen);
    assert_eq!(paper.insert(2, SubjectId(Uuid(8))), Err(frozen));
    assert_eq!(
        paper.update(1, 8, 9),
        Err(UpdateRefusal::Gate(FreezeRefusal::Frozen))
    );
    assert_eq!((paper.count(8), paper.count(9)), (1, 0));
}

#[test]
fn a_create_on_a_dead_subject_writes_neither_row_nor_count() {
    let mut paper = Paper::new();
    assert_eq!(
        paper.insert(1, SubjectId(Uuid(77))),
        Err(InsertRefusal::DeadSubject)
    );
    assert!(paper.rows.is_empty());
    assert_eq!(
        format!("{:?}", InsertRefusal::DeadSubject.error()),
        format!("{:?}", dead_subject())
    );
    assert!(format!("{:?}", dead_subject()).contains("subject does not exist"));
}

#[test]
fn exam_question_a_subject_move_moves_the_count() {
    let mut paper = Paper::new();
    paper.insert(1, SubjectId(Uuid(8))).unwrap();
    paper.update(1, 8, 9).unwrap();
    assert_eq!((paper.count(8), paper.count(9)), (0, 1));
    paper.update(1, 9, 8).unwrap();
    assert_eq!((paper.count(8), paper.count(9)), (1, 0));
}

#[test]
fn exam_question_a_move_to_a_dead_subject_leaves_everything_untouched() {
    let mut paper = Paper::new();
    paper.insert(1, SubjectId(Uuid(8))).unwrap();
    assert_eq!(paper.update(1, 8, 77), Err(UpdateRefusal::DeadSubject));
    assert_eq!(paper.count(8), 1);
    assert_eq!(paper.rows, vec![(1, SubjectId(Uuid(8)))]);
}

#[test]
fn exam_question_a_stale_mover_is_refused_and_claims_nothing() {
    let mut paper = Paper::new();
    paper.insert(1, SubjectId(Uuid(8))).unwrap();
    paper.update(1, 8, 9).unwrap();
    // The second mover read the row before the first one moved it.
    assert_eq!(paper.update(1, 8, 9), Err(UpdateRefusal::Stale));
    assert_eq!((paper.count(8), paper.count(9)), (0, 1));
    assert!(matches!(UpdateRefusal::Stale.error(), AppError::Conflict(_)));
}

#[test]
fn exam_question_a_stale_re_stater_is_refused_and_reverts_nothing() {
    let mut paper = Paper::new();
    paper.insert(1, SubjectId(Uuid(8))).unwrap();
    paper.update(1, 8, 9).unwrap();
    assert_eq!(paper.update(1, 8, 8), Err(UpdateRefusal::Stale));
    assert_eq!(paper.rows, vec![(1, SubjectId(Uuid(9)))]);
}

#[test]
fn a_no_op_re_state_still_lands() {
    let mut paper = Paper::new();
    paper.insert(1, SubjectId(Uuid(8))).unwrap();
    assert_eq!(paper.update(1, 8, 8), Ok(()));
    assert_eq!(paper.count(8), 1);
}

#[test]
fn a_move_of_a_deleted_question_is_still_a_404() {
    let mut paper = Paper::new();
    assert_eq!(paper.update(1, 8, 9), Err(UpdateRefusal::Gone));
    assert!(matches!(UpdateRefusal::Gone.error(), AppError::NotFound));
    assert_eq!(paper.count(9), 0);
}

#[test]
fn a_delete_gives_the_subject_its_reference_back() {
    let mut at = exam_question::Delete::Gate(Freeze::LockExam);
    let mut sent: Vec<String> = Vec::new();
    loop {
        sent.push(at.statement(ExamQuestionId(Uuid(7)), EXAM).sql);
        let reply = match at {
            exam_question::Delete::Gate(Freeze::AnyAttempt) => Reply::Flag(false),
            exam_question::Delete::DeleteRow => Reply::Key(Uuid(8)),
            _ => Reply::Row,
        };
        match exam_question::delete(at, reply) {
            Step::Ask(next) => at = next,
            Step::Commit(()) => break,
            Step::Abort(refusal) => panic!("{refusal:?}"),
        }
    }
    assert_eq!(sent.len(), 6);
    assert!(sent[5].contains("exam_question_count"));
    assert!(matches!(
        exam_question::delete(exam_question::Delete::DeleteRow, Reply::Empty),
        Step::Abort(exam_question::DeleteRefusal::Gone)
    ));
    assert!(matches!(exam_question::DeleteRefusal::Gone.error(), AppError::NotFound));
}

#[test]
fn a_question_is_stored_with_where_it_came_from() {
    let own = question();
    assert!(own.from_bank.is_none() && own.banked_as.is_none());
    let copied = exam_question::create_from_bank(
        ExamQuestionId(Uuid(7)),
        EXAM,
        SubjectId(Uuid(8)),
        "2+2?".to_string(),
        5,
        spec(),
        BankQuestionId(Uuid(6)),
    );
    assert_eq!(copied.from_bank, Some(BankQuestionId(Uuid(6))));
    let insert = Insert::ClaimAndInsert.statement(&copied);
    assert!(insert.sql.starts_with("WITH seat AS ("));
    let binds = format!("{:?}", insert.binds);
    assert!(binds.starts_with("[Uuid(Uuid(8)), Uuid(Uuid(7)), Uuid(Uuid(1)), Text(\"2+2?\")"));
    let request = UpdateRequest {
        id: ExamQuestionId(Uuid(7)),
        exam: EXAM,
        snapshot: SubjectId(Uuid(8)),
        subject: SubjectId(Uuid(9)),
        text: "3+3?".to_string(),
        points: 6,
        spec: spec(),
    };
    assert!(request.statement(Update::Write).sql.starts_with("UPDATE exam_question"));
    assert!(request.retags());
    let kept = UpdateRequest { subject: SubjectId(Uuid(8)), ..request };
    assert!(!kept.retags());
    assert!(exam_question::read(ExamQuestionId(Uuid(7))).sql.contains("WHERE id = $1"));
    let (page, _) = exam_question::list_for_exam(EXAM, Some(1), 0);
    assert!(page.sql.contains("exam_question WHERE exam = $1"));
    assert!(exam_question::list_shared_with(EXAM, &Vec::new()).is_none());
    assert!(exam_question::list_shared_with(EXAM, &vec![ExamId(Uuid(3))]).is_some());
    let linked = exam_question::link_banked_as(ExamQuestionId(Uuid(7)), BankQuestionId(Uuid(6)));
    assert!(linked.sql.contains("banked_as"));
}

#[test]
fn an_audience_is_announced_once() {
    let audience = Audience {
        class_course: ClassCourseId(Uuid(1)),
        class: ClassGroupId(Uuid(2)),
        course: CourseId(Uuid(3)),
    };
    assert_eq!(audience.get_instance(), &ClassCourseId(Uuid(1)));
    assert_eq!(audience.get_class(), &ClassGroupId(Uuid(2)));
    assert_eq!(audience.get_course(), &CourseId(Uuid(3)));
    assert!(exam_audience::add(EXAM, ClassCourseId(Uuid(1))).sql.contains("ON CONFLICT"));
    assert!(exam_audience::added(Ok(())).is_ok());
    assert!(matches!(
        exam_audience::added(Err(violation("23503", "x"))),
        Err(AppError::NotFound)
    ));
    assert!(matches!(
        exam_audience::added(Err(violation("40001", "x"))),
        Err(AppError::Db(_))
    ));
    assert!(exam_audience::remove(EXAM, ClassCourseId(Uuid(1))).sql.starts_with("DELETE"));
    assert_eq!(
        exam_audience::list_for_exam(EXAM).sql,
        "SELECT a.class_course, c.class, c.course FROM exam_audience a JOIN class_course c ON \
         c.id = a.class_course WHERE a.exam = $1 ORDER BY a.class_course"
    );
    assert!(exam_audience::list_for_instance(ClassCourseId(Uuid(1))).sql.contains("class_course"));
    assert!(exam_audience::enrolled(EXAM, UserId(Uuid(2))).sql.contains("EXISTS"));
}

#[test]
fn a_weight_taken_off_a_class_answers_whether_it_was_there() {
    assert_eq!(exam_weight::deleted_from_class(Some(1)).unwrap(), true);
    assert_eq!(exam_weight::deleted_from_class(Some(0)).unwrap(), false);
    assert!(matches!(
        exam_weight::deleted_from_class(None),
        Err(AppError::NotFound)
    ));
    let offering = CourseOfferingId(Uuid(1));
    let class = ClassCourseId(Uuid(2));
    let set = exam_weight::upsert_for_offering(offering, "yazili", 40);
    assert!(format!("{:?}", set.binds).contains("I64(40)"));
    assert!(exam_weight::list_for_offering(offering).sql.contains("offering"));
    assert!(exam_weight::offering_weight(offering, "yazili").sql.contains("weight"));
    assert!(exam_weight::delete_from_offering(offering, "yazili").sql.contains("DELETE"));
    assert!(exam_weight::list_for_class(class).sql.contains("weight"));
    assert!(exam_weight::class_weight(class, "yazili").sql.contains("weight"));
    assert!(exam_weight::upsert_for_class(class, "yazili", 5).sql.contains("weight"));
    assert!(exam_weight::delete_from_class(class, "yazili").sql.contains("DELETE"));
    assert!(exam_weight::reset_class(class).sql.contains("DELETE"));
}

#[test]
fn a_subject_added_to_what_is_gone_is_not_found() {
    assert!(matches!(
        offering_subject::gone(violation("23503", "x")),
        AppError::NotFound
    ));
    assert!(matches!(
        offering_subject::gone(violation("40001", "x")),
        AppError::Db(_)
    ));
    let (offering, class, subject) = (
        CourseOfferingId(Uuid(1)),
        ClassCourseId(Uuid(2)),
        SubjectId(Uuid(3)),
    );
    assert!(offering_subject::add_for_offering(offering, subject).sql.contains("INSERT"));
    assert!(offering_subject::remove_for_offering(offering, subject).sql.contains("DELETE"));
    assert!(offering_subject::list_for_offering(offering).sql.contains("subject"));
    assert!(offering_subject::list_for_class_course(class).sql.contains("subject"));
    assert!(offering_subject::add_for_class_course(class, subject).sql.contains("INSERT"));
    assert!(offering_subject::remove_for_class_course(class, subject).sql.contains("DELETE"));
    assert!(offering_subject::reset_for_class_course(class).sql.contains("DELETE"));
    assert!(offering_subject::resolves_for_class_course(class, subject).sql.contains("EXISTS"));
}

fn image(slot: Option<&str>) -> QuestionImage {
    QuestionImage {
        exam: EXAM,
        question: ExamQuestionId(Uuid(7)),
        slot: slot.map(|text| text.to_string()),
        file: "blob".to_string(),
        content_type: "image/png".to_string(),
        size: 3,
    }
}

#[test]
fn upsert_replaces_per_slot() {
    let mut at = Upsert::Gate(Freeze::LockExam);
    let mut sent: Vec<String> = Vec::new();
    loop {
        sent.push(at.statement(&image(Some("a"))).sql);
        let reply = match at {
            Upsert::Gate(Freeze::AnyAttempt) => Reply::Flag(false),
            _ => Reply::Row,
        };
        match question_image::upsert(at, reply) {
            Step::Ask(next) => at = next,
            Step::Commit(()) => break,
            Step::Abort(refusal) => panic!("{refusal:?}"),
        }
    }
    assert_eq!(sent.len(), 4);
    // The replaced blob is read before the row that replaces it is written.
    assert!(sent[2].starts_with("SELECT file"));
    assert!(sent[3].contains("ON CONFLICT (question, slot) DO UPDATE"));
    assert!(matches!(
        question_image::upsert(Upsert::Gate(Freeze::AnyAttempt), Reply::Flag(true)),
        Step::Abort(FreezeRefusal::Frozen)
    ));
}

#[test]
fn an_empty_keep_set_clears_every_option_picture_but_not_the_illustration() {
    let swept = question_image::delete_choices_not_in(ExamQuestionId(Uuid(7)), &Vec::new());
    assert!(swept.sql.contains("slot IS NOT NULL"));
    assert!(format!("{:?}", swept.binds).contains("Texts([])"));
}

#[test]
fn only_the_dropped_options_lose_their_pictures() {
    let keep = vec!["a".to_string()];
    let swept = question_image::delete_choices_not_in(ExamQuestionId(Uuid(7)), &keep);
    assert!(swept.sql.contains("slot IS NOT NULL"));
    assert!(format!("{:?}", swept.binds).contains("Texts([\"a\"])"));
    assert!(question_image::list_for_exam(EXAM).sql.contains("WHERE exam = $1"));
    assert!(question_image::list_for_question(ExamQuestionId(Uuid(7)))
        .sql
        .contains("WHERE question = $1"));
    assert!(question_image::read_slot(ExamQuestionId(Uuid(7)), None)
        .sql
        .contains("slot IS NOT DISTINCT FROM $2"));
    assert!(question_image::file_keys_for_course(CourseId(Uuid(1))).sql.contains("file"));
    let gone = question_image::delete(question_image::Delete::DeleteRow, Reply::Empty);
    assert!(matches!(gone, Step::Abort(question_image::DeleteRefusal::Gone)));
    assert!(matches!(
        question_image::delete(question_image::Delete::DeleteRow, Reply::Row),
        Step::Commit(())
    ));
}
