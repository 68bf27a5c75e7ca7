use school_db::id::{PoolQuestionId, SolutionId, Timestamp, UserId};
use school_db::page::Uuid;
use school_db::pool_question::{
    approve, clear_image, delete, deleted, insert, list_all, list_visible_to, read, set_image,
    Approve, ClearImage, Delete, PhotoReply, PoolQuestion, SetImage, Solution, STATUS_APPROVED,
    STATUS_PENDING,
};
use school_db::pool_question_image;
use school_db::transaction::{Reply, Step};

const ASKER: UserId = UserId(Uuid(1));
const TEACHER: UserId = UserId(Uuid(2));
const ID: PoolQuestionId = PoolQuestionId(Uuid(9));

/// One question with its image, and the credit of every user.
struct Pool {
    asker: UserId,
    there: bool,
    approved_by: Option<UserId>,
    image: Option<String>,
    approved: Vec<(UserId, i64)>,
    published: Vec<(UserId, i64)>,
}

fn bump(totals: &mut Vec<(UserId, i64)>, user: UserId) {
    match totals.iter_mut().find(|row| row.0 == user) {
        Some(row) => row.1 += 1,
        None => totals.push((user, 1)),
    }
}

fn of(totals: &Vec<(UserId, i64)>, user: UserId) -> i64 {
    match totals.iter().find(|row| row.0 == user) {
        Some(row) => row.1,
        None => 0,
    }
}

impl Pool {
    fn new(asker: UserId) -> Pool {
        Pool {
            asker,
            there: true,
            approved_by: None,
            image: None,
            approved: Vec::new(),
            published: Vec::new(),
        }
    }

    fn approve(&mut self, approver: UserId) -> bool {
        let mut at = Approve::Publish;
        loop {
            let reply = match at {
                Approve::Publish => {
                    if self.there && self.approved_by.is_none() {
                        self.approved_by = Some(approver);
                        Reply::Key(self.asker.0)
                    } else {
                        Reply::Empty
                    }
                }
                Approve::CreditApprover { .. } => {
                    bump(&mut self.approved, approver);
                    Reply::Row
                }
                Approve::CreditAsker { asker } => {
                    bump(&mut self.published, asker);
                    Reply::Row
                }
            };
            match approve(at, reply, approver) {
                Step::Ask(next) => at = next,
                Step::Commit(answer) => return answer,
                Step::Abort(()) => unreachable!(),
            }
        }
    }

    fn locked(&self) -> PhotoReply {
        if !self.there {
            PhotoReply::Empty
        } else if self.approved_by.is_some() {
            PhotoReply::Status(STATUS_APPROVED.to_string())
        } else {
            PhotoReply::Status(STATUS_PENDING.to_string())
        }
    }

    fn held(&self) -> PhotoReply {
        match &self.image {
            Some(file) => PhotoReply::File(file.clone()),
            None => PhotoReply::Empty,
        }
    }

    fn set_image(&mut self, file: &str) -> Option<Option<String>> {
        let mut at = SetImage::Lock;
        loop {
            let reply = match &at {
                SetImage::Lock => self.locked(),
                SetImage::ReadReplaced => self.held(),
                SetImage::Store { .. } => {
                    self.image = Some(file.to_string());
                    PhotoReply::Empty
                }
            };
            match set_image(at, reply) {
                Step::Ask(next) => at = next,
                Step::Commit(answer) => return answer,
                Step::Abort(()) => unreachable!(),
            }
        }
    }

    fn clear_image(&mut self) -> Option<Option<String>> {
        let mut at = ClearImage::Lock;
        loop {
            let reply = match at {
                ClearImage::Lock => self.locked(),
                ClearImage::Detach => {
                    let held = self.held();
                    self.image = None;
                    held
                }
            };
            match clear_image(at, reply) {
                Step::Ask(next) => at = next,
                Step::Commit(answer) => return answer,
                Step::Abort(()) => unreachable!(),
            }
        }
    }
}

#[test]
fn approval_is_a_one_way_race_safe_transition() {
    let mut pool = Pool::new(ASKER);
    assert!(pool.approve(TEACHER));
    assert_eq!(pool.approved_by, Some(TEACHER));
    // A second approval finds nothing pending, whoever makes it.
    assert!(!pool.approve(TEACHER));
    assert!(!pool.approve(ASKER));
    assert_eq!(pool.approved_by, Some(TEACHER));
    let mut missing = Pool::new(ASKER);
    missing.there = false;
    assert!(!missing.approve(TEACHER));
}

#[test]
fn approval_moves_both_counters_once_and_only_once() {
    let mut pool = Pool::new(ASKER);
    pool.approve(TEACHER);
    pool.approve(TEACHER);
    assert_eq!((of(&pool.approved, TEACHER), of(&pool.published, TEACHER)), (1, 0));
    assert_eq!((of(&pool.approved, ASKER), of(&pool.published, ASKER)), (0, 1));
}

#[test]
fn self_approval_still_approves_but_moves_neither_counter() {
    let mut pool = Pool::new(TEACHER);
    assert!(pool.approve(TEACHER));
    assert_eq!(pool.approved_by, Some(TEACHER));
    assert_eq!(of(&pool.approved, TEACHER), 0);
    assert_eq!(of(&pool.published, TEACHER), 0);
}

#[test]
fn visibility_hides_others_pending_questions() {
    let statement = list_visible_to(ASKER);
    assert!(statement.sql.contains("WHERE status = $1 OR asker = $2"));
    assert_eq!(
        format!("{:?}", statement.binds),
        "[Text(\"approved\"), Uuid(Uuid(1))]"
    );
    assert!(!list_all().sql.contains("WHERE"));
}

#[test]
fn image_attaches_only_while_pending_and_reports_the_replaced_blob() {
    let mut pool = Pool::new(ASKER);
    assert_eq!(pool.set_image("blob_a"), Some(None));
    assert_eq!(pool.set_image("blob_b"), Some(Some("blob_a".to_string())));
    assert_eq!(pool.image.as_deref(), Some("blob_b"));
    assert_eq!(pool.clear_image(), Some(Some("blob_b".to_string())));
    assert_eq!(pool.clear_image(), Some(None));
    pool.approve(TEACHER);
    assert_eq!(pool.set_image("blob_c"), None);
    assert_eq!(pool.clear_image(), None);
    assert_eq!(pool.image, None);
    pool.there = false;
    assert_eq!(pool.set_image("blob_d"), None);
}

fn question() -> PoolQuestion {
    PoolQuestion {
        id: ID,
        asker: ASKER,
        title: "Bu integral nasıl çözülür?".to_string(),
        body: "∫x·eˣ dx adım adım?".to_string(),
        status: STATUS_PENDING.to_string(),
        asked_at: Timestamp(5),
        approved_by: None,
    }
}

#[test]
fn delete_cascades_solutions_and_returns_the_row() {
    let mut at = Delete::WipeSolutionImages;
    let mut sent: Vec<String> = Vec::new();
    let answer = loop {
        sent.push(at.statement(ID).sql);
        match delete(at, Reply::Row) {
            Step::Ask(next) => at = next,
            Step::Commit(answer) => break answer,
            Step::Abort(()) => unreachable!(),
        }
    };
    assert!(answer);
    assert!(sent[0].starts_with("DELETE FROM solution_image"));
    assert!(sent[1].starts_with("DELETE FROM solution WHERE"));
    assert!(sent[2].starts_with("DELETE FROM pool_question_image"));
    assert!(sent[3].starts_with("DELETE FROM pool_question WHERE"));
    let solution = Solution {
        id: SolutionId(Uuid(3)),
        question: ID,
        author: TEACHER,
        body: "Kısmi integrasyon uygula.".to_string(),
        offered_at: Timestamp(6),
    };
    let removed = deleted(
        Some(question()),
        vec![solution],
        vec!["s_blob".to_string()],
        Some("q_blob".to_string()),
    )
    .unwrap();
    assert_eq!(removed.question.id, ID);
    assert_eq!(removed.solutions.len(), 1);
    assert_eq!(removed.image_files, vec!["s_blob", "q_blob"]);
    // Deleting the already deleted is none, and no error.
    assert!(matches!(
        delete(Delete::DeleteRow, Reply::Empty),
        Step::Commit(false)
    ));
    assert!(deleted(None, Vec::new(), Vec::new(), None).is_none());
}

#[test]
fn a_question_is_stored_with_its_values() {
    let statement = insert(&question());
    assert_eq!(
        format!("{:?}", statement.binds),
        "[Uuid(Uuid(9)), Uuid(Uuid(1)), Text(\"Bu integral nasıl çözülür?\"), \
         Text(\"∫x·eˣ dx adım adım?\"), Text(\"pending\"), I64(5)]"
    );
    assert!(read(ID).sql.ends_with("FROM pool_question WHERE id = $1"));
    let published = Approve::Publish.statement(ID, TEACHER);
    assert_eq!(
        format!("{:?}", published.binds),
        "[Uuid(Uuid(9)), Text(\"approved\"), Uuid(Uuid(2)), Text(\"pending\")]"
    );
}

#[test]
fn no_question_asks_for_no_photos() {
    assert!(pool_question_image::list_for_questions(&Vec::new()).is_none());
    let some = pool_question_image::list_for_questions(&vec![Uuid(1), Uuid(2)]).unwrap();
    assert_eq!(format!("{:?}", some.binds), "[Uuids([Uuid(1), Uuid(2)])]");
    assert!(pool_question_image::read(ID).sql.contains("WHERE question = $1"));
}
