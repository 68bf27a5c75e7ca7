use school_db::id::{
    CourseId, CourseNoteFileId, CourseNoteId, PodcastJobId, RagMessageId, RagOutputId, RagThreadId,
    Timestamp, UserId,
};
use school_db::page::{Bits, Param, Uuid};
use school_db::podcast_job::{self, NoteTitle, PodcastJob, PodcastJobState};
use school_db::rag_message::{
    all_projected, append_pending_assistant, append_user, complete, fail, list_for_thread,
    list_settled_tail, list_tail, oldest_first, owned, prompt_of, read_for, RagMessage, RagMessageRole,
    RagMessageStatus,
};
use school_db::rag_output::{
    self, create_output, outputs, sorted, sources_for, sources_statement, Create, Delete,
    RagOutputRow, SourceLink,
};
use school_db::transaction::{Reply, Step};

const THREAD: RagThreadId = RagThreadId(Uuid(1));
const USER: UserId = UserId(Uuid(2));

#[test]
fn a_question_is_born_complete_and_an_answer_pending() {
    let asked = append_user(
        RagMessageId(Uuid(3)),
        THREAD,
        USER,
        "soru".to_string(),
        Timestamp(4),
        Timestamp(5),
    );
    assert!(asked.sql.contains("updated_at = GREATEST($2, updated_at + 1)"));
    assert_eq!(
        format!("{:?}", asked.binds),
        "[Uuid(Uuid(1)), I64(5), Uuid(Uuid(3)), Uuid(Uuid(2)), Text(\"user\"), Text(\"soru\"), \
         Text(\"complete\"), OptJson(None), OptText(None), I64(4), OptI64(Some(4))]"
    );
    let reserved =
        append_pending_assistant(RagMessageId(Uuid(6)), THREAD, USER, Timestamp(7), Timestamp(8));
    assert_eq!(
        format!("{:?}", reserved.binds),
        "[Uuid(Uuid(1)), I64(8), Uuid(Uuid(6)), Uuid(Uuid(2)), Text(\"assistant\"), Text(\"\"), \
         Text(\"pending\"), OptJson(None), OptText(None), I64(7), OptI64(None)]"
    );
}

#[test]
fn a_completed_answer_carries_its_reply() {
    let reply: serde_json::Value = serde_json::from_str("{\"abstained\":false}").unwrap();
    let statement = complete(RagMessageId(Uuid(3)), "F = m·a", reply, Timestamp(9));
    assert!(statement.sql.contains("WHERE id = $1 AND status = 'pending'"));
    assert_eq!(
        format!("{:?}", statement.binds),
        "[Uuid(Uuid(3)), Text(\"F = m·a\"), Text(\"complete\"), \
         OptJson(Some(Object {\"abstained\": Bool(false)})), OptText(None), I64(9)]"
    );
}

#[test]
fn a_failed_answer_stores_a_clipped_code_and_no_reply() {
    let statement = fail(RagMessageId(Uuid(3)), "çok uzun", 3, Timestamp(9));
    assert_eq!(
        format!("{:?}", statement.binds),
        "[Uuid(Uuid(3)), Text(\"\"), Text(\"failed\"), OptJson(None), OptText(Some(\"çok\")), I64(9)]"
    );
    let short = fail(RagMessageId(Uuid(3)), "kod", 8, Timestamp(9));
    assert!(format!("{:?}", short.binds).contains("Some(\"kod\")"));
    let none = fail(RagMessageId(Uuid(3)), "kod", 0, Timestamp(9));
    assert!(format!("{:?}", none.binds).contains("Some(\"\")"));
}

#[test]
fn a_tail_is_turned_round() {
    assert_eq!(oldest_first(vec![3, 2, 1]), vec![1, 2, 3]);
    assert_eq!(oldest_first(Vec::<i32>::new()), Vec::<i32>::new());
    let tail = list_tail(THREAD, 5);
    assert!(tail.sql.ends_with("ORDER BY created_at DESC, id DESC LIMIT $2"));
    assert_eq!(format!("{:?}", tail.binds), "[Uuid(Uuid(1)), I64(5)]");
    let settled = list_settled_tail(THREAD, 5);
    assert!(settled.sql.contains("status = 'complete' AND content <> ''"));
    let (page, _) = list_for_thread(THREAD, None, 0);
    assert!(page.sql.ends_with("ORDER BY created_at ASC, id ASC"));
}

#[test]
fn a_turn_is_read_only_by_its_owner() {
    let turn = || RagMessage {
        id: RagMessageId(Uuid(3)),
        thread: THREAD,
        user_id: USER,
        role: RagMessageRole::Assistant,
        content: String::new(),
        status: RagMessageStatus::Pending,
        reply: None,
        error_code: None,
        created_at: Timestamp(1),
        completed_at: None,
    };
    let late = |message: RagMessage| RagMessage {
        status: RagMessageStatus::Failed,
        error_code: Some("timeout".to_string()),
        ..message
    };
    // An answer that is still awaited is shown as the projection makes it.
    let shown = owned(Some(turn()), USER, &late).unwrap();
    assert_eq!(shown.status, RagMessageStatus::Failed);
    assert_eq!(shown.error_code.as_deref(), Some("timeout"));
    assert!(owned(Some(turn()), UserId(Uuid(99)), &late).is_none());
    assert!(owned(None, USER, &late).is_none());
    // A settled turn is shown as it is stored, in its place.
    let settled = RagMessage {
        status: RagMessageStatus::Complete,
        content: "yanıt".to_string(),
        ..turn()
    };
    let page = all_projected(vec![settled, turn()], &late);
    assert_eq!(page.len(), 2);
    assert_eq!(page[0].status, RagMessageStatus::Complete);
    assert_eq!(page[0].content, "yanıt");
    assert_eq!(page[0].error_code, None);
    assert_eq!(page[1].status, RagMessageStatus::Failed);
    assert_eq!(
        read_for(RagMessageId(Uuid(3))).sql,
        prompt_of(RagMessageId(Uuid(3))).sql
    );
}

fn file(n: u128) -> CourseNoteFileId {
    CourseNoteFileId(Uuid(n))
}

#[test]
fn citations_come_back_in_key_order() {
    assert_eq!(sorted(&vec![file(3), file(1), file(2), file(1)]), vec![
        file(1),
        file(1),
        file(2),
        file(3)
    ]);
    let payload: serde_json::Value = serde_json::from_str("{\"a\":1}").unwrap();
    let output = create_output(
        RagOutputId(Uuid(9)),
        CourseNoteId(Uuid(8)),
        CourseId(Uuid(7)),
        &vec![file(5), file(4)],
        payload,
        Timestamp(6),
    );
    assert_eq!(output.sources, vec![file(4), file(5)]);
    let links = Create::InsertLinks.statement(&output);
    assert_eq!(
        format!("{:?}", links.binds),
        "[Uuid(Uuid(9)), Uuids([Uuid(4), Uuid(5)])]"
    );
    assert_eq!(Create::InsertRow.statement(&output).binds.len(), 5);
    assert!(matches!(
        rag_output::create(Create::InsertRow),
        Step::Ask(Create::InsertLinks)
    ));
    assert!(matches!(rag_output::create(Create::InsertLinks), Step::Commit(())));
}

fn link(output: u128, source: u128) -> SourceLink {
    SourceLink { output: RagOutputId(Uuid(output)), source: file(source) }
}

#[test]
fn citations_are_attached_to_their_outputs() {
    let row = |id: u128| RagOutputRow {
        id: RagOutputId(Uuid(id)),
        course_note: CourseNoteId(Uuid(8)),
        course: CourseId(Uuid(7)),
        payload: serde_json::Value::Null,
        generated_at: Timestamp(1),
    };
    let links = vec![link(2, 10), link(1, 11), link(2, 12)];
    let items = outputs(vec![row(2), row(3), row(1)], &links);
    let cited: Vec<Vec<CourseNoteFileId>> = items.into_iter().map(|item| item.sources).collect();
    assert_eq!(cited, vec![vec![file(10), file(12)], vec![], vec![file(11)]]);
    assert_eq!(sources_for(&links, RagOutputId(Uuid(1))), vec![file(11)]);
    assert!(sources_for(&links, RagOutputId(Uuid(9))).is_empty());
    assert!(sources_statement(&vec![Uuid(1)]).sql.ends_with("ORDER BY source"));
}

#[test]
fn delete_returns_the_row_then_refuses() {
    let mut at = Delete::ReadLinks;
    let mut sent: Vec<String> = Vec::new();
    loop {
        sent.push(at.statement(RagOutputId(Uuid(9))).sql);
        match rag_output::delete(at, Reply::Row) {
            Step::Ask(next) => at = next,
            Step::Commit(()) => break,
            Step::Abort(_) => panic!("refused"),
        }
    }
    assert!(sent[0].starts_with("SELECT source"));
    assert!(sent[1].starts_with("DELETE FROM rag_output_source"));
    assert!(sent[2].starts_with("DELETE FROM rag_output WHERE id"));
    assert!(matches!(
        rag_output::delete(Delete::DeleteRow, Reply::Empty),
        Step::Abort(_)
    ));
}

#[test]
fn a_replace_sweeps_only_what_is_older() {
    let note = CourseNoteId(Uuid(8));
    let (links, rows) = rag_output::replace_for_note(note, RagOutputId(Uuid(5)));
    assert!(links.sql.starts_with("DELETE FROM rag_output_source"));
    assert!(rows.sql.ends_with("WHERE course_note = $1 AND id < $2"));
    for statement in [links, rows] {
        assert_eq!(format!("{:?}", statement.binds), "[Uuid(Uuid(8)), Uuid(Uuid(5))]");
    }
    let (links, rows) = rag_output::delete_for_note(note);
    assert!(links.sql.contains("SELECT id FROM rag_output WHERE course_note = $1"));
    assert_eq!(rows.sql, "DELETE FROM rag_output WHERE course_note = $1");
    assert_eq!(
        rag_output::delete_with_source(file(1)).sql,
        "DELETE FROM rag_output_source WHERE source = $1"
    );
    assert!(rag_output::read(RagOutputId(Uuid(1))).sql.contains("WHERE id = $1"));
    let (page, _) = rag_output::list_for(note, None, 0);
    assert!(page.sql.ends_with("ORDER BY id DESC"));
}

#[test]
fn a_report_is_guarded_by_the_state_it_validated_against() {
    let id = PodcastJobId(Uuid(1));
    let statement = podcast_job::report(
        id,
        PodcastJobState::Queued,
        PodcastJobState::Running,
        "script",
        Bits((0.25f64).to_bits()),
        None,
        Some("duz_okuma"),
        Timestamp(3),
    );
    assert!(statement.sql.contains("WHERE id = $1 AND state = $2"));
    assert!(statement.sql.contains("format = COALESCE(format, $7::text)"));
    assert_eq!(
        format!("{:?}", statement.binds),
        format!(
            "[Uuid(Uuid(1)), Text(\"queued\"), Text(\"running\"), Text(\"script\"), \
             Real(Bits({})), OptText(None), OptText(Some(\"duz_okuma\")), I64(3)]",
            (0.25f64).to_bits()
        )
    );
    for statement in [
        podcast_job::set_cancelled(id, Timestamp(3)),
        podcast_job::set_failed(id, "interrupted", Timestamp(3)),
    ] {
        assert!(statement.sql.contains("state IN ('queued', 'running')"));
    }
}

#[test]
fn a_job_is_stored_with_its_values() {
    let job = PodcastJob {
        id: PodcastJobId(Uuid(1)),
        user_id: USER,
        source_id: "src".to_string(),
        format: None,
        state: PodcastJobState::Queued,
        stage: String::new(),
        progress: Bits((0.0f64).to_bits()),
        error_code: None,
        audio_key: None,
        audio_name: None,
        audio_type: None,
        audio_bytes: None,
        duration_secs: None,
        eta_secs: Some(30),
        created_at: Timestamp(4),
        updated_at: Timestamp(4),
    };
    let statement = podcast_job::insert(&job);
    assert!(statement.sql.contains("$14, $15, $15)"));
    assert_eq!(statement.binds.len(), 15);
    assert!(format!("{:?}", statement.binds).contains("Text(\"queued\")"));
    let id = PodcastJobId(Uuid(1));
    assert!(podcast_job::read(id).sql.ends_with("WHERE id = $1"));
    assert!(podcast_job::read_for(id, USER).sql.ends_with("WHERE id = $1 AND user_id = $2"));
    let audio = podcast_job::set_audio(
        id,
        "podcast/x.mp3",
        "episode.mp3",
        "audio/mpeg",
        12,
        Some(Bits((3.5f64).to_bits())),
        Timestamp(5),
    );
    assert!(format!("{:?}", audio.binds).contains("OptReal(Some(Bits("));
    assert_eq!(
        format!("{:?}", podcast_job::set_eta(id, 9).binds),
        "[Uuid(Uuid(1)), I64(9)]"
    );
    for (state, name) in [
        (PodcastJobState::Running, "running"),
        (PodcastJobState::Done, "done"),
        (PodcastJobState::Failed, "failed"),
        (PodcastJobState::Cancelled, "cancelled"),
    ] {
        assert_eq!(state.as_str(), name);
    }
}

#[test]
fn a_job_keeps_its_place_when_its_note_is_gone() {
    let note = |n: u128| CourseNoteId(Uuid(n));
    let titles = vec![
        NoteTitle { id: note(1), title: "Kuvvet".to_string() },
        NoteTitle { id: note(2), title: "Enerji".to_string() },
    ];
    let paired = podcast_job::with_source_titles(&vec![note(2), note(9), note(1), note(2)], &titles);
    assert_eq!(
        paired,
        vec![
            Some("Enerji".to_string()),
            None,
            Some("Kuvvet".to_string()),
            Some("Enerji".to_string())
        ]
    );
    assert!(podcast_job::source_titles(&Vec::new()).is_none());
    assert!(podcast_job::source_titles(&vec![Uuid(1)]).is_some());
    let (page, _) = podcast_job::list_for_user(USER, None, 0);
    assert!(page.sql.ends_with("ORDER BY created_at DESC, id DESC"));
}

#[test]
fn a_turns_two_rows_never_sort_inverted() {
    // Question and answer land in one millisecond; the keys rise.
    let mut rows: Vec<(i64, u128, String)> = Vec::new();
    for turn in 0..200u128 {
        let asked = append_user(
            RagMessageId(Uuid(2 * turn)),
            THREAD,
            USER,
            format!("soru {turn}"),
            Timestamp(turn as i64),
            Timestamp(turn as i64),
        );
        let reserved = append_pending_assistant(
            RagMessageId(Uuid(2 * turn + 1)),
            THREAD,
            USER,
            Timestamp(turn as i64),
            Timestamp(turn as i64),
        );
        for statement in [reserved, asked] {
            match (&statement.binds[9], &statement.binds[2], &statement.binds[4]) {
                (Param::I64(at), Param::Uuid(id), Param::Text(role)) => {
                    rows.push((*at, id.0, role.clone()))
                }
                other => panic!("{other:?}"),
            }
        }
    }
    rows.sort_by(|a, b| (b.0, b.1).cmp(&(a.0, a.1)));
    let turned = oldest_first(rows);
    assert_eq!(turned.len(), 400);
    for (turn, pair) in turned.chunks(2).enumerate() {
        assert_eq!(pair[0].0, turn as i64);
        assert_eq!(pair[0].2, "user");
        assert_eq!(pair[1].2, "assistant");
    }
}
