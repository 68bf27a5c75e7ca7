use school_db::error::{AppError, DbError, ValidationError};
use school_db::insight::{
    as_validation, carries_evidence, check_batch, is_zero, merge_limitation, parse_all, parse_opt,
    parse_uuid, run_day_ok, write_profiles, write_recommendations, write_run, write_segments,
    write_summaries, AttentionRow, ProfileRow, RecommendationRow, RunRow, SegmentConfidences,
    SegmentLabels, SegmentRow, SummaryRow, WriteReceipt,
};
use school_db::insight_report::{
    active_schools, all_profiles, all_recommendations, all_summaries, children_of_runs, identity,
    last_pending, pending_list, profile_row, recommendation_row, run_days, runs, runs_for_report,
    school_identity, summaries, RunFailed, RunPending, StoredAttention, StoredProfile,
    StoredRecommendation, StoredRun, StoredSummary,
};
use school_db::insight_sweep::{purge_departed, purged, sweep, swept};
use school_db::page::{Bits, Param, Statement, Uuid};

const KEY: &str = "019732e3-7b00-7000-8000-00000000cafe";
const KEY_BITS: u128 = 0x019732e37b00700080000000_0000cafe;

fn json(text: &str) -> serde_json::Value {
    serde_json::from_str(text).unwrap()
}

fn item(course: Option<&str>) -> AttentionRow {
    AttentionRow {
        trigger: "not_egilimi_dusuyor".to_string(),
        course: course.map(|text| text.to_string()),
        fact: "düşüyor".to_string(),
        window_from: 1,
        window_to: 2,
        evidence: json("{\"n\":3}"),
    }
}

fn summary(student: &str, attention: Vec<AttentionRow>) -> SummaryRow {
    SummaryRow {
        student: student.to_string(),
        marks: Some(json("{\"ort\":70}")),
        attendance: None,
        submission: None,
        study: None,
        confidence: "stable".to_string(),
        computed_at: 10,
        retain_until: 20,
        attention,
    }
}

#[test]
fn a_key_is_read_in_every_form_that_spells_one() {
    let id = Uuid(KEY_BITS);
    assert_eq!(parse_uuid("student", KEY).unwrap(), id);
    assert_eq!(parse_uuid("student", &KEY.to_uppercase()).unwrap(), id);
    assert_eq!(
        parse_uuid("student", "019732e37b007000800000000000cafe").unwrap(),
        id
    );
    let urn = format!("urn:uuid:{KEY}");
    assert_eq!(parse_uuid("student", &urn).unwrap(), id);
    let braced = format!("{{{KEY}}}");
    assert_eq!(parse_uuid("student", &braced).unwrap(), id);
    for bad in ["", "x", "019732e3-7b00-7000-8000-00000000caf", "019732e3_7b00-7000-8000-00000000cafe"] {
        match parse_uuid("student", bad) {
            Err(AppError::Validation(ValidationError::Invalid { field, reason })) => {
                assert_eq!(field, "student");
                assert_eq!(reason, "must be a hyphenated uuid");
            }
            other => panic!("{bad}: {other:?}"),
        }
    }
}

#[test]
fn optional_and_listed_keys_are_refused_by_their_field() {
    assert_eq!(parse_opt("about", &None).unwrap(), None);
    assert_eq!(
        parse_opt("about", &Some(KEY.to_string())).unwrap(),
        Some(Uuid(KEY_BITS))
    );
    assert!(parse_opt("about", &Some("?".to_string())).is_err());
    let both = vec![KEY.to_string(), KEY.to_string()];
    assert_eq!(parse_all("students", &both).unwrap().len(), 2);
    let bad = vec![KEY.to_string(), "?".to_string()];
    assert!(parse_all("students", &bad).is_err());
}

#[test]
fn a_batch_past_the_ceiling_is_refused_whole() {
    assert!(check_batch("rows", &vec![1, 2, 3], 3).is_ok());
    match check_batch("rows", &vec![1, 2, 3, 4], 3) {
        Err(AppError::PayloadTooLarge(text)) => assert_eq!(
            text,
            "rows: 4 rows is over the ceiling of 3 rows per call"
        ),
        other => panic!("{other:?}"),
    }
    let rows = vec![summary(KEY, Vec::new()), summary(KEY, Vec::new())];
    assert!(matches!(
        write_summaries(&rows, 1),
        Err(AppError::PayloadTooLarge(_))
    ));
}

#[test]
fn a_missing_reference_is_an_error_of_the_payload() {
    let missing = DbError {
        code: Some("23503".to_string()),
        constraint: None,
        message: String::new(),
    };
    match as_validation(AppError::Db(missing)) {
        AppError::Validation(ValidationError::Invalid { field, reason }) => {
            assert_eq!(field, "rows");
            assert_eq!(reason, "a referenced row does not exist in this school");
        }
        other => panic!("{other:?}"),
    }
    let other = DbError {
        code: Some("40001".to_string()),
        constraint: None,
        message: String::new(),
    };
    assert!(matches!(as_validation(AppError::Db(other)), AppError::Db(_)));
    assert!(matches!(as_validation(AppError::NotFound), AppError::NotFound));
}

#[test]
fn a_run_day_is_ten_characters_of_digits_and_hyphens() {
    for good in ["2025-01-31", "0000-00-00", "9999-99-99"] {
        assert!(run_day_ok(good), "{good}");
    }
    for bad in ["", "2025-1-31", "2025-01-3", "2025/01/31", "2025-01-311", "2025-01-3a", "２025-01-3"] {
        assert!(!run_day_ok(bad), "{bad}");
    }
}

#[test]
fn attention_items_are_replaced_in_their_order() {
    let rows = vec![summary(KEY, vec![item(None), item(Some(KEY))])];
    let (batch, receipt) = write_summaries(&rows, 10).unwrap();
    assert!(batch.refusal.is_none());
    assert_eq!(receipt, WriteReceipt { written: 1, rejected: 0 });
    let sql: Vec<&str> = batch.statements.iter().map(|s| s.sql.as_str()).collect();
    assert_eq!(sql.len(), 4);
    assert!(sql[0].starts_with("INSERT INTO zeka_student_summary"));
    assert_eq!(sql[1], "DELETE FROM zeka_attention_item WHERE student = $1");
    assert!(sql[2].starts_with("INSERT INTO zeka_attention_item"));
    let first = format!("{:?}", batch.statements[2].binds);
    assert!(first.contains("OptUuid(None)"));
    assert!(first.ends_with("I16(0)]"));
    let second = format!("{:?}", batch.statements[3].binds);
    assert!(second.contains(&format!("OptUuid(Some(Uuid({KEY_BITS})))")));
    assert!(second.ends_with("I16(1)]"));
    // No item clears the ones that were there.
    let (batch, _) = write_summaries(&vec![summary(KEY, Vec::new())], 10).unwrap();
    assert_eq!(batch.statements.len(), 2);
}

#[test]
fn the_first_bad_row_refuses_the_batch() {
    let rows = vec![
        summary(KEY, Vec::new()),
        summary(KEY, vec![item(None), item(Some("?"))]),
        summary("?", Vec::new()),
    ];
    let (batch, _) = write_summaries(&rows, 10).unwrap();
    assert!(format!("{:?}", batch.refusal).contains("\"course\""));
    // Everything before the bad item was sent, and rolls back with it.
    assert_eq!(batch.statements.len(), 2 + 2 + 1);
}

#[test]
fn a_card_with_nothing_but_its_limitation_carries_no_evidence() {
    assert!(carries_evidence(&json("{\"n\":1}")));
    assert!(carries_evidence(&json("{\"limitation\":\"az\",\"n\":0}")));
    assert!(!carries_evidence(&json("{}")));
    assert!(!carries_evidence(&json("{\"limitation\":\"az\"}")));
    assert!(!carries_evidence(&json("{\"n\":null}")));
    assert!(!carries_evidence(&json("[1]")));
    assert!(!carries_evidence(&json("null")));
}

#[test]
fn a_limitation_is_merged_into_the_evidence() {
    let merged = merge_limitation(&json("{\"n\":1}"), Some("az veri")).unwrap();
    assert_eq!(merged, json("{\"n\":1,\"limitation\":\"az veri\"}"));
    let replaced = merge_limitation(&json("{\"n\":1,\"limitation\":2}"), Some("yeni")).unwrap();
    assert_eq!(replaced, json("{\"n\":1,\"limitation\":\"yeni\"}"));
    let kept = merge_limitation(&json("{\"n\":1}"), None).unwrap();
    assert_eq!(kept, json("{\"n\":1}"));
    for value in ["[]", "3", "\"x\"", "null"] {
        match merge_limitation(&json(value), Some("az")) {
            Err(AppError::Validation(ValidationError::Invalid { field, reason })) => {
                assert_eq!((field, reason), ("evidence", "must be a JSON object"));
            }
            other => panic!("{other:?}"),
        }
        assert!(merge_limitation(&json(value), None).is_err());
    }
}

fn card(audience: &str, evidence: &str) -> RecommendationRow {
    RecommendationRow {
        audience: audience.to_string(),
        product: "student_home".to_string(),
        rule_id: "r1".to_string(),
        rule_version: 2,
        scope: None,
        about: Some(KEY.to_string()),
        audience_role: "student".to_string(),
        course: None,
        evidence: json(evidence),
        limitation: Some("az".to_string()),
        confidence: "stable".to_string(),
        computed_at: 1,
        expires_at: 2,
        retain_until: 3,
    }
}

#[test]
fn every_card_is_written_or_rejected() {
    let rows = vec![
        card(KEY, "{\"n\":1}"),
        card(KEY, "{\"limitation\":\"x\"}"),
        card(KEY, "{\"n\":2}"),
    ];
    let ids = vec![Uuid(1), Uuid(2), Uuid(3)];
    let (batch, receipt) = write_recommendations(&rows, &ids, 10).unwrap();
    assert!(batch.refusal.is_none());
    assert_eq!(receipt, WriteReceipt { written: 2, rejected: 1 });
    assert_eq!(batch.statements.len(), 2);
    let binds = format!("{:?}", batch.statements[1].binds);
    assert!(binds.starts_with("[Uuid(Uuid(3)), "));
    assert!(binds.contains("\"limitation\": String(\"az\")"));
    // A rejected row is not looked at any further.
    let rows = vec![card("?", "{}"), card("?", "{\"n\":1}")];
    let (batch, _) = write_recommendations(&rows, &ids, 10).unwrap();
    assert!(format!("{:?}", batch.refusal).contains("\"audience\""));
    assert!(batch.statements.is_empty());
    assert!(is_zero(&0));
    assert!(!is_zero(&1));
}

fn segment() -> SegmentRow {
    SegmentRow {
        question: KEY.to_string(),
        exam: KEY.to_string(),
        course: KEY.to_string(),
        subject: KEY.to_string(),
        labels: SegmentLabels {
            bilissel_talep: "a".to_string(),
            dikkat_tuzagi: "b".to_string(),
            okuma_yuku: "c".to_string(),
            adim_sayisi: "d".to_string(),
        },
        confidences: SegmentConfidences {
            bilissel_talep: Bits((0.5f64).to_bits()),
            dikkat_tuzagi: Bits(0),
            okuma_yuku: Bits(0),
            adim_sayisi: Bits(0),
        },
        confidence: "stable".to_string(),
        trap_choice: None,
        rationale: "r".to_string(),
        model: "m".to_string(),
        prompt_version: "1".to_string(),
        variant: None,
        computed_at: 1,
        retain_until: 2,
        downstream_dimensions: vec!["x".to_string(), "y".to_string()],
        experimental_dimensions: vec!["z".to_string()],
    }
}

#[test]
fn dimensions_are_numbered_through_both_roles() {
    let (batch, receipt) = write_segments(&vec![segment()], 10).unwrap();
    assert!(batch.refusal.is_none());
    assert_eq!(receipt.written, 1);
    assert_eq!(batch.statements.len(), 5);
    assert_eq!(
        batch.statements[1].sql,
        "DELETE FROM zeka_question_segment_dimension WHERE question = $1"
    );
    let tails: Vec<String> = batch.statements[2..]
        .iter()
        .map(|s| format!("{:?}", &s.binds[1..]))
        .collect();
    assert_eq!(tails[0], "[Text(\"x\"), Text(\"downstream\"), I16(0)]");
    assert_eq!(tails[1], "[Text(\"y\"), Text(\"downstream\"), I16(1)]");
    assert_eq!(tails[2], "[Text(\"z\"), Text(\"experimental\"), I16(2)]");
    let first = format!("{:?}", batch.statements[0].binds);
    assert!(first.contains(&format!("Real(Bits({}))", (0.5f64).to_bits())));
    for (field, row) in [
        ("question", SegmentRow { question: "?".to_string(), ..segment() }),
        ("exam", SegmentRow { exam: "?".to_string(), ..segment() }),
        ("course", SegmentRow { course: "?".to_string(), ..segment() }),
        ("subject", SegmentRow { subject: "?".to_string(), ..segment() }),
    ] {
        let (batch, _) = write_segments(&vec![row], 10).unwrap();
        assert!(format!("{:?}", batch.refusal).contains(field));
        assert!(batch.statements.is_empty());
    }
}

/// A table's rows as the batch's statements leave them.
fn landed(statements: &[Statement], into: &str) -> Vec<Vec<String>> {
    let mut rows: Vec<Vec<String>> = Vec::new();
    for statement in statements {
        let binds: Vec<String> = statement.binds.iter().map(|bind| format!("{bind:?}")).collect();
        if statement.sql.starts_with(&format!("DELETE FROM {into} ")) {
            rows.retain(|row| row[0] != binds[0]);
        } else if statement.sql.starts_with(&format!("INSERT INTO {into} ")) {
            if statement.sql.contains("ON CONFLICT") {
                rows.retain(|row| row[0] != binds[0]);
            }
            rows.push(binds);
        }
    }
    rows
}

/// A question that a batch holds twice stands as its last row says, with that
/// row's dimensions alone.
#[test]
fn the_last_segment_of_a_question_stands() {
    let other = SegmentRow {
        rationale: "son".to_string(),
        downstream_dimensions: vec!["w".to_string()],
        experimental_dimensions: Vec::new(),
        ..segment()
    };
    let beside = SegmentRow {
        question: "0f0e0d0c-0b0a-0908-0706-050403020100".to_string(),
        ..segment()
    };
    let (batch, receipt) = write_segments(&vec![segment(), beside, other], 10).unwrap();
    assert!(batch.refusal.is_none());
    assert_eq!(receipt.written, 3);
    let rows = landed(&batch.statements, "zeka_question_segment");
    assert_eq!(rows.len(), 2);
    assert!(rows[1].contains(&"Text(\"son\")".to_string()));
    let dimensions: Vec<String> = landed(&batch.statements, "zeka_question_segment_dimension")
        .iter()
        .map(|row| row[1..].join(" "))
        .collect();
    assert_eq!(
        dimensions,
        vec![
            "Text(\"x\") Text(\"downstream\") I16(0)",
            "Text(\"y\") Text(\"downstream\") I16(1)",
            "Text(\"z\") Text(\"experimental\") I16(2)",
            "Text(\"w\") Text(\"downstream\") I16(0)",
        ]
    );
}

fn profile(student: &str) -> ProfileRow {
    ProfileRow {
        student: student.to_string(),
        dimension: "okuma_yuku".to_string(),
        label: "uzun".to_string(),
        n_answers: 10,
        n_correct: 4,
        accuracy: Bits((0.4f64).to_bits()),
        overall_n_answers: 50,
        overall_accuracy: Bits((0.6f64).to_bits()),
        contrast: Bits((-0.2f64).to_bits()),
        confidence: "stable".to_string(),
        computed_at: 1,
        retain_until: 2,
    }
}

#[test]
fn a_profile_is_one_upsert() {
    let (batch, receipt) = write_profiles(&vec![profile(KEY), profile(KEY)], 2).unwrap();
    assert_eq!(batch.statements.len(), 2);
    assert_eq!(receipt.written, 2);
    assert!(batch.statements[0]
        .sql
        .contains("ON CONFLICT (student, dimension, label) DO UPDATE"));
    let (batch, _) = write_profiles(&vec![profile(KEY), profile("?")], 2).unwrap();
    assert_eq!(batch.statements.len(), 1);
    assert!(batch.refusal.is_some());
}

fn run(day: &str, pending: Vec<&str>) -> RunRow {
    RunRow {
        run_day: day.to_string(),
        started_at: 1,
        finished_at: None,
        status: "ok".to_string(),
        duration_ms: Some(5),
        students_total: 3,
        students_ok: 2,
        students_failed: 1,
        students_skipped: 0,
        rows_written: 9,
        budget_exceeded: true,
        budget_ms: 100,
        retain_until: 200,
        pending_students: pending.iter().map(|text| text.to_string()).collect(),
        failed_modules: vec!["m1".to_string(), "m2".to_string()],
    }
}

#[test]
fn a_run_replaces_its_children() {
    let (batch, receipt) = write_run(&run("2025-01-31", vec![KEY])).unwrap();
    assert_eq!(receipt, WriteReceipt { written: 1, rejected: 0 });
    let sql: Vec<&str> = batch.statements.iter().map(|s| s.sql.as_str()).collect();
    assert!(sql[0].starts_with("INSERT INTO zeka_run ("));
    assert_eq!(sql[1], "DELETE FROM zeka_run_pending WHERE run = $1");
    assert_eq!(sql[2], "DELETE FROM zeka_run_failed_module WHERE run = $1");
    assert_eq!(
        format!("{:?}", batch.statements[3].binds),
        format!("[Text(\"2025-01-31\"), Uuid(Uuid({KEY_BITS})), I32(0)]")
    );
    assert_eq!(
        format!("{:?}", batch.statements[5].binds),
        "[Text(\"2025-01-31\"), Text(\"m2\"), I16(1)]"
    );
    match write_run(&run("2025-1-31", vec!["?"])) {
        Err(AppError::Validation(ValidationError::Invalid { field, reason })) => {
            assert_eq!((field, reason), ("run_day", "must be YYYY-MM-DD"));
        }
        other => panic!("{other:?}"),
    }
    assert!(format!("{:?}", write_run(&run("2025-01-31", vec!["?"]))).contains("pending_students"));
}

#[test]
fn a_long_pending_list_is_refused_and_never_clipped() {
    let asked = last_pending(2);
    assert_eq!(format!("{:?}", asked.binds), "[I64(3)]");
    let two = pending_list(&vec![Uuid(KEY_BITS), Uuid(0)], 2).unwrap();
    assert_eq!(
        two.students,
        vec![KEY.to_string(), "00000000-0000-0000-0000-000000000000".to_string()]
    );
    match pending_list(&vec![Uuid(1), Uuid(2), Uuid(3)], 2) {
        Err(AppError::PayloadTooLarge(text)) => assert_eq!(
            text,
            "students: the freshest run left more than 2 students pending"
        ),
        other => panic!("{other:?}"),
    }
}

#[test]
fn a_school_is_shown_by_its_key_slug_and_name() {
    assert!(active_schools().sql.contains("status = 'active'"));
    assert_eq!(format!("{:?}", school_identity("ankara").binds), "[Text(\"ankara\")]");
    let school = identity(Some((Uuid(KEY_BITS), "Ankara Lisesi".to_string())), "ankara").unwrap();
    assert_eq!(school.id, KEY);
    assert_eq!(school.slug, "ankara");
    assert_eq!(school.name, "Ankara Lisesi");
    assert!(identity(None, "ankara").is_none());
}

fn stored_summary(student: u128) -> StoredSummary {
    StoredSummary {
        student: Uuid(student),
        marks: None,
        attendance: None,
        submission: None,
        study: None,
        confidence: "none".to_string(),
        computed_at: 1,
        retain_until: 2,
    }
}

fn stored_item(student: u128, fact: &str) -> StoredAttention {
    StoredAttention {
        student: Uuid(student),
        trigger: "t".to_string(),
        course: Some(Uuid(KEY_BITS)),
        fact: fact.to_string(),
        window_from: 1,
        window_to: 2,
        evidence: json("{}"),
    }
}

#[test]
fn attention_items_are_grouped_under_their_students() {
    let (rows, items) = all_summaries();
    assert!(rows.sql.ends_with("ORDER BY student"));
    assert!(items.sql.ends_with("ORDER BY student, ord"));
    let told = summaries(
        vec![stored_summary(1), stored_summary(2), stored_summary(3)],
        vec![stored_item(1, "a"), stored_item(1, "b"), stored_item(3, "c"), stored_item(9, "d")],
    );
    let facts: Vec<Vec<&str>> = told
        .iter()
        .map(|row| row.attention.iter().map(|item| item.fact.as_str()).collect())
        .collect();
    assert_eq!(facts, vec![vec!["a", "b"], vec![], vec!["c"]]);
    assert_eq!(told[0].student, "00000000-0000-0000-0000-000000000001");
    assert_eq!(told[0].attention[0].course.as_deref(), Some(KEY));
    // The items of a student go to the first of its rows.
    let twice = summaries(vec![stored_summary(1), stored_summary(1)], vec![stored_item(1, "a")]);
    assert_eq!(twice[0].attention.len(), 1);
    assert!(twice[1].attention.is_empty());
}

#[test]
fn a_card_reads_back_with_its_limitation_in_its_evidence() {
    assert!(all_recommendations().sql.ends_with("ORDER BY audience, created_at, rule_id"));
    let back = recommendation_row(StoredRecommendation {
        audience: Uuid(KEY_BITS),
        product: "p".to_string(),
        rule_id: "r".to_string(),
        rule_version: 4,
        scope: Some("s".to_string()),
        about: Some(Uuid(KEY_BITS)),
        audience_role: "teacher".to_string(),
        course: None,
        evidence: json("{\"n\":1,\"limitation\":\"az\"}"),
        confidence: "stable".to_string(),
        created_at: 7,
        expires_at: 8,
        retain_until: 9,
    });
    assert_eq!(back.audience, KEY);
    assert_eq!(back.about.as_deref(), Some(KEY));
    assert_eq!(back.course, None);
    assert_eq!(back.limitation, None);
    assert_eq!(back.computed_at, 7);
    assert_eq!(back.evidence, json("{\"n\":1,\"limitation\":\"az\"}"));
    assert_eq!(parse_uuid("audience", &back.audience).unwrap(), Uuid(KEY_BITS));
}

#[test]
fn a_profile_reads_back_bit_for_bit() {
    assert!(all_profiles().sql.ends_with("ORDER BY student, dimension, label"));
    let back = profile_row(StoredProfile {
        student: Uuid(KEY_BITS),
        dimension: "okuma_yuku".to_string(),
        label: "uzun".to_string(),
        n_answers: 10,
        n_correct: 4,
        accuracy: Bits((0.4f64).to_bits()),
        overall_n_answers: 50,
        overall_accuracy: Bits(1),
        contrast: Bits(2),
        confidence: "none".to_string(),
        computed_at: 1,
        retain_until: 2,
    });
    assert_eq!(back.student, KEY);
    assert_eq!(f64::from_bits(back.accuracy.0), 0.4);
    assert_eq!(back.n_correct, 4);
}

fn stored_run(day: &str) -> StoredRun {
    StoredRun {
        run_day: day.to_string(),
        started_at: 1,
        finished_at: Some(2),
        status: "ok".to_string(),
        duration_ms: None,
        students_total: 1,
        students_ok: 1,
        students_failed: 0,
        students_skipped: 0,
        rows_written: 3,
        budget_exceeded: false,
        budget_ms: 4,
        retain_until: 5,
    }
}

#[test]
fn a_report_carries_each_run_with_its_children() {
    let asked = runs_for_report("2025-01-02");
    assert_eq!(format!("{:?}", asked.binds), "[Text(\"2025-01-02\"), I64(5)]");
    assert!(asked.sql.contains("ORDER BY (run_day = $1) DESC, started_at DESC, run_day DESC"));
    let rows = vec![stored_run("2025-01-02"), stored_run("2025-01-03")];
    let days = run_days(&rows);
    assert_eq!(days, vec!["2025-01-02", "2025-01-03"]);
    let (pending, failed) = children_of_runs(&days);
    assert_eq!(
        format!("{:?}", pending.binds),
        "[Texts([\"2025-01-02\", \"2025-01-03\"])]"
    );
    assert!(failed.sql.contains("zeka_run_failed_module"));
    let told = runs(
        rows,
        &vec![
            RunPending { run: "2025-01-02".to_string(), student: Uuid(1) },
            RunPending { run: "2025-01-03".to_string(), student: Uuid(2) },
            RunPending { run: "2025-01-02".to_string(), student: Uuid(KEY_BITS) },
        ],
        &vec![RunFailed { run: "2025-01-03".to_string(), module: "m".to_string() }],
    );
    assert_eq!(told[0].pending_students.len(), 2);
    assert_eq!(told[0].pending_students[1], KEY);
    assert!(told[0].failed_modules.is_empty());
    assert_eq!(told[1].failed_modules, vec!["m"]);
    assert_eq!(told[1].run_day, "2025-01-03");
}

#[test]
fn a_sweep_takes_children_before_their_parents() {
    let steps = sweep(77);
    let tables: Vec<&str> = steps.iter().map(|step| step.table).collect();
    assert_eq!(tables.len(), 9);
    let at = |name: &str| tables.iter().position(|table| *table == name).unwrap();
    for (child, parent) in [
        ("zeka_attention_item", "zeka_student_summary"),
        ("zeka_question_segment_dimension", "zeka_question_segment"),
        ("zeka_run_pending", "zeka_run"),
        ("zeka_run_failed_module", "zeka_run"),
    ] {
        assert!(at(child) < at(parent));
    }
    assert_eq!(
        steps[at("zeka_run_pending")].statement.sql,
        "DELETE FROM zeka_run_pending WHERE run IN \
         (SELECT run_day FROM zeka_run WHERE retain_until < $1)"
    );
    assert_eq!(
        steps[at("zeka_recommendation")].statement.sql,
        "DELETE FROM zeka_recommendation WHERE retain_until < $1"
    );
    assert_eq!(format!("{:?}", steps[0].statement.binds), "[I64(77)]");
    let mut outcomes = vec![true; 9];
    outcomes[at("zeka_run")] = false;
    let told = swept(&outcomes);
    let names: Vec<&str> = told.tables.iter().map(|row| row.0.as_str()).collect();
    let mut sorted = names.clone();
    sorted.sort();
    assert_eq!(names, sorted);
    for (name, ok) in &told.tables {
        assert_eq!(*ok, name != "zeka_run");
    }
}

#[test]
fn an_empty_roster_is_refused_and_never_obeyed() {
    match purge_departed(&Vec::new(), 10) {
        Err(AppError::Validation(ValidationError::Empty(field))) => assert_eq!(field, "students"),
        other => panic!("{other:?}"),
    }
    let two = vec![KEY.to_string(), KEY.to_string()];
    match purge_departed(&two, 1) {
        Err(AppError::PayloadTooLarge(text)) => assert_eq!(
            text,
            "students: 2 ids is over the ceiling of 1 per call"
        ),
        other => panic!("{other:?}"),
    }
    assert!(purge_departed(&vec!["?".to_string()], 1).is_err());
    let statements = purge_departed(&two, 2).unwrap();
    assert_eq!(statements.len(), 5);
    assert!(statements[0].sql.starts_with("DELETE FROM zeka_attention_item"));
    assert_eq!(
        statements[3].sql,
        "DELETE FROM zeka_recommendation WHERE about IS NOT NULL AND about <> ALL($1)"
    );
    let told = purged();
    assert_eq!(told.tables.len(), 5);
    assert!(told.tables.iter().all(|row| row.1));
}

/// The summary tables, as the statements of a batch leave them.
struct Stored {
    summaries: Vec<StoredSummary>,
    attention: Vec<(i16, StoredAttention)>,
}

impl Stored {
    fn take(&mut self, statements: Vec<Statement>) {
        for statement in statements {
            let mut binds = statement.binds.into_iter();
            let student = match binds.next() {
                Some(Param::Uuid(student)) => student,
                other => panic!("{other:?}"),
            };
            let rest: Vec<Param> = binds.collect();
            if statement.sql.starts_with("DELETE FROM zeka_attention_item") {
                self.attention.retain(|(_, item)| item.student != student);
            } else if statement.sql.starts_with("INSERT INTO zeka_student_summary") {
                self.summaries.retain(|row| row.student != student);
                self.summaries.push(summary_of(student, rest));
            } else {
                self.attention.push(item_of(student, rest));
            }
        }
    }

    fn read(&self) -> Vec<SummaryRow> {
        let mut rows: Vec<StoredSummary> = self.summaries.iter().map(same_summary).collect();
        rows.sort_by_key(|row| row.student.0);
        let mut placed: Vec<&(i16, StoredAttention)> = self.attention.iter().collect();
        placed.sort_by_key(|(ord, item)| (item.student.0, *ord));
        summaries(rows, placed.into_iter().map(|(_, item)| same_item(item)).collect())
    }
}

fn same_summary(row: &StoredSummary) -> StoredSummary {
    StoredSummary {
        student: row.student,
        marks: row.marks.clone(),
        attendance: row.attendance.clone(),
        submission: row.submission.clone(),
        study: row.study.clone(),
        confidence: row.confidence.clone(),
        computed_at: row.computed_at,
        retain_until: row.retain_until,
    }
}

fn same_item(item: &StoredAttention) -> StoredAttention {
    StoredAttention {
        student: item.student,
        trigger: item.trigger.clone(),
        course: item.course,
        fact: item.fact.clone(),
        window_from: item.window_from,
        window_to: item.window_to,
        evidence: item.evidence.clone(),
    }
}

fn text(bind: &Param) -> String {
    match bind {
        Param::Text(value) => value.clone(),
        other => panic!("{other:?}"),
    }
}

fn number(bind: &Param) -> i64 {
    match bind {
        Param::I64(value) => *value,
        other => panic!("{other:?}"),
    }
}

fn document(bind: &Param) -> Option<serde_json::Value> {
    match bind {
        Param::OptJson(value) => value.clone(),
        Param::Json(value) => Some(value.clone()),
        other => panic!("{other:?}"),
    }
}

fn summary_of(student: Uuid, binds: Vec<Param>) -> StoredSummary {
    StoredSummary {
        student,
        marks: document(&binds[0]),
        attendance: document(&binds[1]),
        submission: document(&binds[2]),
        study: document(&binds[3]),
        confidence: text(&binds[4]),
        computed_at: number(&binds[5]),
        retain_until: number(&binds[6]),
    }
}

fn item_of(student: Uuid, binds: Vec<Param>) -> (i16, StoredAttention) {
    let course = match &binds[1] {
        Param::OptUuid(course) => *course,
        other => panic!("{other:?}"),
    };
    let ord = match &binds[6] {
        Param::I16(ord) => *ord,
        other => panic!("{other:?}"),
    };
    let item = StoredAttention {
        student,
        trigger: text(&binds[0]),
        course,
        fact: text(&binds[2]),
        window_from: number(&binds[3]),
        window_to: number(&binds[4]),
        evidence: document(&binds[5]).unwrap(),
    };
    (ord, item)
}

fn fact(text: &str) -> AttentionRow {
    AttentionRow { fact: text.to_string(), ..item(Some(KEY)) }
}

#[test]
fn a_batch_of_summaries_reads_back() {
    let low = "00000000-0000-0000-0000-000000000001";
    let mut stored = Stored { summaries: Vec::new(), attention: Vec::new() };
    let earlier = vec![summary(KEY, vec![fact("old"), fact("older"), fact("oldest")])];
    stored.take(write_summaries(&earlier, 9).unwrap().0.statements);
    let rows = vec![
        summary(KEY, vec![fact("dropped")]),
        summary(low, vec![]),
        SummaryRow { computed_at: 11, ..summary(KEY, vec![fact("b"), fact("a")]) },
    ];
    stored.take(write_summaries(&rows, 9).unwrap().0.statements);
    let read = stored.read();
    let students: Vec<&str> = read.iter().map(|row| row.student.as_str()).collect();
    assert_eq!(students, vec![low, KEY]);
    // The later row of a student stands, with its own items in their order.
    assert_eq!(format!("{:?}", read[0]), format!("{:?}", rows[1]));
    assert_eq!(format!("{:?}", read[1]), format!("{:?}", rows[2]));
}

#[test]
fn the_pending_list_reads_back_the_freshest_run() {
    let low = "00000000-0000-0000-0000-000000000001";
    let mut pending: Vec<(String, i32, Uuid)> = Vec::new();
    let mut started: Vec<(i64, String)> = Vec::new();
    for row in [
        run("2025-01-30", vec![low]),
        run("2025-01-31", vec![low, low, low]),
        RunRow { started_at: 0, ..run("2025-02-01", vec![low]) },
        run("2025-01-31", vec![KEY, low]),
    ] {
        for statement in write_run(&row).unwrap().0.statements {
            let day = text(&statement.binds[0]);
            if statement.sql.starts_with("INSERT INTO zeka_run (") {
                started.retain(|(_, other)| *other != day);
                started.push((number(&statement.binds[1]), day));
            } else if statement.sql.starts_with("DELETE FROM zeka_run_pending") {
                pending.retain(|(other, _, _)| *other != day);
            } else if let (Some(Param::Uuid(student)), Some(Param::I32(ord))) =
                (statement.binds.get(1), statement.binds.get(2))
            {
                pending.push((day, *ord, *student));
            }
        }
    }
    started.sort();
    let freshest = started.last().unwrap().1.clone();
    assert_eq!(freshest, "2025-01-31");
    pending.retain(|(day, _, _)| *day == freshest);
    pending.sort_by_key(|(_, ord, _)| *ord);
    let rows: Vec<Uuid> = pending.iter().map(|(_, _, student)| *student).collect();
    let taken = |most: usize| rows.iter().copied().take(most + 1).collect::<Vec<Uuid>>();
    let list = pending_list(&taken(2), 2).unwrap();
    assert_eq!(list.students, vec![KEY.to_string(), low.to_string()]);
    assert!(matches!(pending_list(&taken(1), 1), Err(AppError::PayloadTooLarge(_))));
}

fn card_of(binds: &[Param]) -> StoredRecommendation {
    let key = |bind: &Param| match bind {
        Param::Uuid(value) => *value,
        other => panic!("{other:?}"),
    };
    let opt_key = |bind: &Param| match bind {
        Param::OptUuid(value) => *value,
        other => panic!("{other:?}"),
    };
    let opt_text = |bind: &Param| match bind {
        Param::OptText(value) => value.clone(),
        other => panic!("{other:?}"),
    };
    StoredRecommendation {
        audience: key(&binds[1]),
        product: text(&binds[2]),
        rule_id: text(&binds[3]),
        rule_version: number(&binds[4]),
        scope: opt_text(&binds[5]),
        about: opt_key(&binds[6]),
        audience_role: text(&binds[7]),
        course: opt_key(&binds[8]),
        evidence: document(&binds[9]).unwrap(),
        confidence: text(&binds[10]),
        created_at: number(&binds[11]),
        expires_at: number(&binds[12]),
        retain_until: number(&binds[13]),
    }
}

/// A card that is written reads back as it came, its limitation in its evidence.
#[test]
fn a_batch_of_cards_reads_back() {
    let rows = vec![
        card(KEY, "{\"n\":1}"),
        RecommendationRow {
            rule_id: "r2".to_string(),
            scope: Some("s".to_string()),
            course: Some(KEY.to_string()),
            limitation: None,
            ..card(KEY, "{\"n\":2}")
        },
    ];
    let (batch, receipt) = write_recommendations(&rows, &vec![Uuid(1), Uuid(2)], 10).unwrap();
    assert_eq!(receipt, WriteReceipt { written: 2, rejected: 0 });
    let back: Vec<RecommendationRow> = batch
        .statements
        .iter()
        .map(|statement| recommendation_row(card_of(&statement.binds)))
        .collect();
    for (row, read) in rows.iter().zip(&back) {
        assert_eq!(read.audience, row.audience);
        assert_eq!(read.product, row.product);
        assert_eq!(read.rule_id, row.rule_id);
        assert_eq!(read.rule_version, row.rule_version);
        assert_eq!(read.scope, row.scope);
        assert_eq!(read.about, row.about);
        assert_eq!(read.audience_role, row.audience_role);
        assert_eq!(read.course, row.course);
        assert_eq!(read.confidence, row.confidence);
        assert_eq!(read.computed_at, row.computed_at);
        assert_eq!(read.expires_at, row.expires_at);
        assert_eq!(read.retain_until, row.retain_until);
        assert_eq!(read.limitation, None);
    }
    assert_eq!(back[0].evidence, json("{\"n\":1,\"limitation\":\"az\"}"));
    assert_eq!(back[1].evidence, json("{\"n\":2}"));
}
