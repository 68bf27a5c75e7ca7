use school_db::error::{any_affected, found, AppError, DbError};
use school_db::field_update::{
    answer, mark, run_refcount_tx, run_with_refcount, start_refcount_tx, FieldUpdate, MoveRefusal,
    Moving, Refcount, UpdatePlan, STALE_MOVE,
};
use school_db::holiday::{self, HolidayPatch};
use school_db::id::{HolidayId, NoteFileId, NoteId, Timestamp, UserId};
use school_db::note::{self, Note};
use school_db::note_file::{self, NoteFile, FULL, MAX_NOTE_FILES};
use school_db::page::{Param, Uuid};
use school_db::transaction::{Reply, Step};

const ID: Uuid = Uuid(7);

#[test]
fn an_omitted_field_is_never_written() {
    let plan = FieldUpdate::new("note", ID)
        .set("title", Some(Param::from("t".to_string())))
        .set("content", None)
        .run();
    match plan {
        UpdatePlan::Write { update, refused } => {
            assert_eq!(update.sql, "UPDATE note SET title = $1 WHERE id = $2 RETURNING *");
            assert_eq!(format!("{:?}", update.binds), "[Text(\"t\"), Uuid(Uuid(7))]");
            assert!(refused.is_none());
        }
        other => panic!("{other:?}"),
    }
}

#[test]
fn a_request_that_carries_nothing_reads_the_row_back() {
    match FieldUpdate::new("note", ID).set("title", None).run() {
        UpdatePlan::Read(read) => {
            assert_eq!(read.sql, "SELECT * FROM note WHERE id = $1");
            assert_eq!(format!("{:?}", read.binds), "[Uuid(Uuid(7))]");
        }
        other => panic!("{other:?}"),
    }
}

#[test]
fn a_guard_and_a_range_share_one_where() {
    let plan = FieldUpdate::new("t", ID)
        .set("a", Some(Param::from(1i64)))
        .ordered("a", "b", AppError::Conflict("inverted"))
        .guard("open", AppError::Conflict("closed"))
        .run();
    match plan {
        UpdatePlan::Write { update, refused } => {
            assert_eq!(update.sql.matches("WHERE").count(), 1);
            assert!(update.sql.contains(" AND "));
            assert!(update.sql.ends_with("id = $2 RETURNING *"));
            assert!(refused.is_some());
        }
        other => panic!("{other:?}"),
    }
}

/// A guard stands in brackets, so an `OR` in it cannot let the key past.
#[test]
fn a_guard_with_an_or_still_names_its_own_row() {
    let plan = FieldUpdate::new("t", ID)
        .set("a", Some(Param::from(1i64)))
        .guard("b = 1 OR c = 2", AppError::Conflict("closed"))
        .run();
    match plan {
        UpdatePlan::Write { update, .. } => assert_eq!(
            update.sql,
            "UPDATE t SET a = $1 WHERE (b = 1 OR c = 2) AND id = $2 RETURNING *"
        ),
        other => panic!("{other:?}"),
    }
}

#[test]
fn a_write_that_matches_nothing_answers_its_refusal() {
    assert_eq!(answer(Some(3), None).unwrap(), 3);
    assert!(matches!(answer::<i32>(None, None), Err(AppError::NotFound)));
    assert!(matches!(
        answer::<i32>(None, Some(AppError::Conflict("closed"))),
        Err(AppError::Conflict("closed"))
    ));
    assert_eq!(found(Some(1)).unwrap(), 1);
    assert!(matches!(found::<i32>(None), Err(AppError::NotFound)));
    assert!(any_affected(1) && !any_affected(0));
}

fn moving() -> Refcount {
    Refcount {
        counter_table: "subject",
        counter_field: "homework_count",
        link: "subject",
        expected: Some(Uuid(1)),
        claim: Some(Uuid(2)),
        release: Some(Uuid(1)),
        refused: AppError::Conflict("no such subject"),
    }
}

#[test]
fn a_carried_link_moves_its_counters_in_the_same_transaction() {
    let plan = FieldUpdate::new("homework", ID)
        .set("subject", Some(Param::from(Uuid(2))))
        .refcount(moving())
        .run();
    match plan {
        UpdatePlan::Moved { update, counters, .. } => {
            assert!(update.sql.contains("subject IS NOT DISTINCT FROM"));
            let release = counters.release.unwrap();
            assert!(release.sql.contains("GREATEST(homework_count - 1, 0)"));
            assert_eq!(format!("{:?}", release.binds), "[Uuid(Uuid(1))]");
            let claim = counters.claim.unwrap();
            assert!(claim.sql.contains("homework_count = homework_count + 1"));
            assert_eq!(format!("{:?}", claim.binds), "[Uuid(Uuid(2))]");
        }
        other => panic!("{other:?}"),
    }
}

/// A row with a link, and the counters of the rows it can point at.
#[derive(Clone)]
struct Links {
    link: Option<u128>,
    counts: Vec<(u128, i64)>,
}

impl Links {
    fn run(&mut self, expected: u128, target: u128) -> Result<(), MoveRefusal> {
        let mut work = self.clone();
        let moves = expected != target;
        let mut at = start_refcount_tx(moves, moves);
        loop {
            let reply = match at {
                Moving::Release => {
                    if let Some(row) = work.counts.iter_mut().find(|row| row.0 == expected) {
                        row.1 = (row.1 - 1).max(0);
                    }
                    Reply::Row
                }
                Moving::Claim => match work.counts.iter_mut().find(|row| row.0 == target) {
                    Some(row) => {
                        row.1 += 1;
                        Reply::Row
                    }
                    None => Reply::Empty,
                },
                Moving::Update => {
                    if work.link == Some(expected) {
                        work.link = Some(target);
                        Reply::Row
                    } else {
                        Reply::Empty
                    }
                }
                Moving::Probe => {
                    if work.link.is_some() {
                        Reply::Row
                    } else {
                        Reply::Empty
                    }
                }
            };
            match run_refcount_tx(at, moves, reply) {
                Step::Ask(next) => at = next,
                Step::Commit(()) => {
                    *self = work;
                    return Ok(());
                }
                Step::Abort(refusal) => return Err(refusal),
            }
        }
    }
}

#[test]
fn a_move_and_back_leaves_the_counters_as_they_were() {
    let mut links = Links { link: Some(1), counts: vec![(1, 1), (2, 0)] };
    links.run(1, 2).unwrap();
    assert_eq!(links.counts, vec![(1, 0), (2, 1)]);
    links.run(2, 1).unwrap();
    assert_eq!(links.counts, vec![(1, 1), (2, 0)]);
    assert_eq!(links.run(2, 1), Err(MoveRefusal::Stale));
    assert_eq!(links.run(1, 9), Err(MoveRefusal::ClaimGone));
    assert_eq!(links.counts, vec![(1, 1), (2, 0)]);
    links.link = None;
    assert_eq!(links.run(1, 2), Err(MoveRefusal::Gone));
}

#[test]
fn a_refused_move_is_told_by_its_mark() {
    let refused = || AppError::Conflict("no such subject");
    let told = |refusal: MoveRefusal| run_with_refcount::<i32>(Err(refusal.error()), refused());
    assert!(matches!(
        told(MoveRefusal::ClaimGone),
        Err(AppError::Conflict("no such subject"))
    ));
    match told(MoveRefusal::Stale) {
        Err(AppError::Conflict(text)) => assert_eq!(text, STALE_MOVE),
        other => panic!("{other:?}"),
    }
    assert!(matches!(told(MoveRefusal::Gone), Ok(None)));
    assert!(matches!(
        run_with_refcount::<i32>(Err(mark("something else")), refused()),
        Err(AppError::Internal(_))
    ));
    assert!(matches!(run_with_refcount(Ok(Some(1)), refused()), Ok(Some(1))));
}

#[test]
fn a_holiday_update_rechecks_its_range() {
    let patch = HolidayPatch {
        ends_at: Some(Timestamp(9)),
        ..HolidayPatch::default()
    };
    match holiday::update(HolidayId(ID), patch, AppError::Conflict("inverted")) {
        UpdatePlan::Write { update, refused } => {
            assert_eq!(
                update.sql,
                "UPDATE holiday SET ends_at = $1 WHERE (starts_at IS NULL OR $1 IS NULL OR \
                 starts_at <= $1) AND id = $2 RETURNING *"
            );
            assert!(matches!(refused, Some(AppError::Conflict("inverted"))));
        }
        other => panic!("{other:?}"),
    }
    let renamed = HolidayPatch {
        name: Some("Bayram".to_string()),
        ..HolidayPatch::default()
    };
    match holiday::update(HolidayId(ID), renamed, AppError::Conflict("inverted")) {
        UpdatePlan::Write { update, .. } => assert!(!update.sql.contains("starts_at")),
        other => panic!("{other:?}"),
    }
    assert!(matches!(
        holiday::update(HolidayId(ID), HolidayPatch::default(), AppError::NotFound),
        UpdatePlan::Read(_)
    ));
}

#[test]
fn holidays_are_listed_by_overlap() {
    let (page, count) = holiday::list(Some(1), None, Some(5), 0);
    assert!(page.sql.contains("ends_at >= $1") && page.sql.contains("starts_at <= $2"));
    assert_eq!(
        format!("{:?}", page.binds),
        "[OptI64(Some(1)), OptI64(None), I64(5), I64(0)]"
    );
    assert!(count.is_some());
    assert!(holiday::list_between(Timestamp(1), Timestamp(2)).sql.ends_with("ORDER BY starts_at"));
    let day = holiday::Holiday {
        id: HolidayId(ID),
        name: "Bayram".to_string(),
        starts_at: Timestamp(1),
        ends_at: Timestamp(2),
        kind: "resmi".to_string(),
        creator: UserId(Uuid(3)),
        created_at: Timestamp(4),
    };
    assert_eq!(holiday::create(&day).binds.len(), 7);
    assert!(holiday::read(HolidayId(ID)).sql.contains("WHERE id = $1"));
    assert!(holiday::delete(HolidayId(ID)).sql.starts_with("DELETE FROM holiday"));
}

#[test]
fn delete_returns_the_attachment_rows_it_removed() {
    let id = NoteId(ID);
    let mut at = note::Delete::WipeOutputs;
    let mut sent: Vec<String> = Vec::new();
    loop {
        sent.push(at.statement(id).sql);
        match note::delete(at, Reply::Row) {
            Step::Ask(next) => at = next,
            Step::Commit(()) => break,
            Step::Abort(_) => panic!("refused"),
        }
    }
    assert_eq!(sent.len(), 3);
    // The files come back from the statement that removes them.
    assert!(sent[1].starts_with("DELETE FROM note_file WHERE note = $1 RETURNING"));
    match note::delete(note::Delete::DeleteRow, Reply::Empty) {
        Step::Abort(gone) => assert!(matches!(gone.error(), AppError::NotFound)),
        other => panic!("{other:?}"),
    }
}

#[test]
fn a_note_update_writes_only_what_was_carried() {
    match note::update(NoteId(ID), None, Some("c".to_string())) {
        UpdatePlan::Write { update, .. } => {
            assert_eq!(update.sql, "UPDATE note SET content = $1 WHERE id = $2 RETURNING *")
        }
        other => panic!("{other:?}"),
    }
    assert!(matches!(note::update(NoteId(ID), None, None), UpdatePlan::Read(_)));
    let row = Note {
        id: NoteId(ID),
        user: UserId(Uuid(1)),
        title: "t".to_string(),
        content: "c".to_string(),
    };
    assert_eq!(note::create(&row).binds.len(), 4);
    assert!(note::read_owned(NoteId(ID), UserId(Uuid(1))).sql.contains("app_user = $2"));
    let (page, _) = note::list_for(UserId(Uuid(1)), None, 0);
    assert!(page.sql.ends_with("ORDER BY id DESC"));
}

/// A note's files under its counter.
struct Files {
    count: i64,
    rows: Vec<NoteFileId>,
}

impl Files {
    fn insert(&mut self, id: u128) -> Result<NoteFileId, AppError> {
        let outcome: Result<Option<NoteFileId>, DbError> = if self.count < MAX_NOTE_FILES {
            self.count += 1;
            self.rows.push(NoteFileId(Uuid(id)));
            Ok(Some(NoteFileId(Uuid(id))))
        } else {
            Ok(None)
        };
        note_file::inserted(outcome)
    }

    fn delete(&mut self, id: u128) -> bool {
        let mut at = note_file::Delete::DeleteRow;
        loop {
            let reply = match at {
                note_file::Delete::DeleteRow => {
                    match self.rows.iter().position(|row| *row == NoteFileId(Uuid(id))) {
                        Some(i) => {
                            self.rows.remove(i);
                            Reply::Key(ID)
                        }
                        None => Reply::Empty,
                    }
                }
                note_file::Delete::ReleaseSeat { .. } => {
                    self.count = (self.count - 1).max(0);
                    Reply::Row
                }
            };
            match note_file::delete(at, reply) {
                Step::Ask(next) => at = next,
                Step::Commit(()) => return true,
                Step::Abort(_) => return false,
            }
        }
    }
}

#[test]
fn insert_refuses_at_the_cap_without_leaking_a_slot() {
    let mut files = Files { count: 0, rows: Vec::new() };
    for i in 0..10 {
        files.insert(i).unwrap();
    }
    match files.insert(10) {
        Err(AppError::Conflict(text)) => assert_eq!(text, FULL),
        other => panic!("{other:?}"),
    }
    assert_eq!(files.count, 10);
    assert_eq!(
        FULL,
        "the note already holds the maximum of 10 files — delete one first"
    );
}

#[test]
fn delete_returns_the_slot_to_the_note() {
    let mut files = Files { count: 0, rows: Vec::new() };
    for i in 0..10 {
        files.insert(i).unwrap();
    }
    assert!(files.delete(3));
    assert!(!files.delete(3));
    assert_eq!(files.count, 9);
    files.insert(11).unwrap();
    assert_eq!(files.count as usize, files.rows.len());
}

#[test]
fn a_note_file_key_that_is_taken_is_a_fault_of_ours() {
    let error = |code: &str| DbError {
        code: Some(code.to_string()),
        constraint: None,
        message: String::new(),
    };
    match note_file::inserted::<i32>(Err(error("23505"))) {
        Err(AppError::Internal(text)) => assert_eq!(text, "failed to create note file"),
        other => panic!("{other:?}"),
    }
    assert!(matches!(
        note_file::inserted::<i32>(Err(error("23503"))),
        Err(AppError::Db(_))
    ));
    let file = NoteFile {
        id: NoteFileId(Uuid(1)),
        note: NoteId(ID),
        name: "a.pdf".to_string(),
        content_type: "application/pdf".to_string(),
        size: 4,
    };
    let statement = note_file::insert(&file);
    assert!(statement.sql.contains("file_count < $2"));
    assert!(format!("{:?}", statement.binds).starts_with("[Uuid(Uuid(7)), I64(10)"));
    assert!(note_file::read_for(NoteFileId(Uuid(1)), NoteId(ID)).sql.contains("note = $2"));
    let (page, _) = note_file::list_for(NoteId(ID), None, 0);
    assert!(page.sql.contains("note_file WHERE note = $1"));
}
