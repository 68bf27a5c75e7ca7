use school_db::claim::Claimed;
use school_db::error::{AppError, DbError};
use school_db::fee_plan::{self, EditRefusal, Installments};
use school_db::fee_plan_assignment;
use school_db::id::{FeePlanId, Timestamp, UserId};
use school_db::meal_ledger::LedgerAmount;
use school_db::page::Uuid;
use school_db::payment_ledger::{
    append, appended, applied_statement, applied_to, balance_of, balance_statement,
    charge_for_installment, installment_line, list_for_student, lock_for_cap, lock_statement, read,
    Billed, KindFold, LockedLine, PaymentLedger, PaymentLedgerKind, MOST_APPLIED,
};
use school_db::transaction::{Reply, Step};

const PLAN: FeePlanId = FeePlanId(Uuid(5));
const STUDENT: UserId = UserId(Uuid(6));

fn line(kind: PaymentLedgerKind) -> PaymentLedger {
    PaymentLedger {
        id: "k".to_string(),
        student: STUDENT,
        kind,
        amount_minor: LedgerAmount(150),
        source: None,
        due_at: Some(Timestamp(9)),
        method: None,
        note: Some("n".to_string()),
        recorded_by: UserId(Uuid(7)),
        created_at: Timestamp(8),
    }
}

fn fold(kind: PaymentLedgerKind, total: i64, lines: i64) -> KindFold {
    KindFold { kind, total, lines }
}

#[test]
fn an_append_never_hands_out_a_line_of_another_kind() {
    let stored = appended(Some(line(PaymentLedgerKind::Credit)), PaymentLedgerKind::Credit);
    assert!(stored.is_ok());
    match appended(Some(line(PaymentLedgerKind::Refund)), PaymentLedgerKind::Credit) {
        Err(AppError::Internal(text)) => {
            assert_eq!(text, "a ledger id resolved to a line of another kind")
        }
        other => panic!("{other:?}"),
    }
    match appended(None, PaymentLedgerKind::Credit) {
        Err(AppError::Internal(text)) => assert_eq!(text, "failed to write the ledger line"),
        other => panic!("{other:?}"),
    }
}

#[test]
fn an_append_reads_the_stored_line_back() {
    let statement = append(&line(PaymentLedgerKind::Charge));
    assert!(statement.sql.contains("ON CONFLICT (id) DO NOTHING"));
    assert!(statement.sql.contains("WHERE id = $1 AND NOT EXISTS (SELECT 1 FROM ins)"));
    assert_eq!(
        format!("{:?}", statement.binds),
        "[Text(\"k\"), Uuid(Uuid(6)), Text(\"charge\"), I64(150), OptText(None), \
         OptI64(Some(9)), OptText(None), OptText(Some(\"n\")), Uuid(Uuid(7)), I64(8)]"
    );
    assert_eq!(format!("{:?}", read("k").binds), "[Text(\"k\")]");
    let (page, _) = list_for_student(STUDENT, None, 0);
    assert!(page.sql.contains("payment_ledger WHERE student = $1"));
}

fn billed() -> Billed {
    Billed {
        id: "plan.student.1".to_string(),
        assignment: "plan.student".to_string(),
        student: STUDENT,
        amount_minor: LedgerAmount(250_000),
        due_at: Timestamp(2_000),
    }
}

#[test]
fn an_installment_is_charged_as_the_plan_carried_it() {
    let charge = installment_line(billed(), UserId(Uuid(7)), Timestamp(3));
    assert_eq!(charge.kind, PaymentLedgerKind::Charge);
    assert_eq!(charge.amount_minor, LedgerAmount(250_000));
    assert_eq!(charge.source.as_deref(), Some("plan.student"));
    let statement = charge_for_installment(billed(), UserId(Uuid(7)), Timestamp(3));
    assert_eq!(
        format!("{:?}", statement.binds),
        format!("{:?}", append(&charge).binds)
    );
}

#[test]
fn a_balance_is_credits_and_reversals_less_charges_and_refunds() {
    let folds = vec![
        fold(PaymentLedgerKind::Charge, 1000, 2),
        fold(PaymentLedgerKind::Credit, 600, 1),
        fold(PaymentLedgerKind::Refund, 100, 1),
        fold(PaymentLedgerKind::Reversal, 50, 1),
    ];
    assert_eq!(balance_of(&folds), 600 + 50 - 1000 - 100);
    assert_eq!(balance_of(&Vec::new()), 0);
    assert!(balance_statement(STUDENT).sql.ends_with("WHERE student = $1 GROUP BY kind"));
}

#[test]
fn money_given_back_frees_the_room_it_took() {
    // A charge paid in full and refunded is owed again.
    let folds = vec![
        fold(PaymentLedgerKind::Credit, 400, 1),
        fold(PaymentLedgerKind::Refund, 400, 1),
    ];
    assert_eq!(applied_to(&folds, PaymentLedgerKind::Charge, 10).unwrap(), 0);
    // A credit's room is measured in the refunds against it.
    let refunds = vec![fold(PaymentLedgerKind::Refund, 150, 1)];
    assert_eq!(applied_to(&refunds, PaymentLedgerKind::Credit, 10).unwrap(), 150);
    let paid = vec![fold(PaymentLedgerKind::Credit, 150, 1)];
    assert_eq!(applied_to(&paid, PaymentLedgerKind::Charge, 10).unwrap(), 150);
    assert!(applied_statement("k").sql.starts_with("WITH RECURSIVE applied"));
}

#[test]
fn a_line_carries_only_so_many() {
    let folds = vec![
        fold(PaymentLedgerKind::Credit, 1, 2),
        fold(PaymentLedgerKind::Refund, 1, 1),
    ];
    assert!(applied_to(&folds, PaymentLedgerKind::Charge, 4).is_ok());
    match applied_to(&folds, PaymentLedgerKind::Charge, 3) {
        Err(AppError::Conflict(text)) => assert_eq!(text, MOST_APPLIED),
        other => panic!("{other:?}"),
    }
}

#[test]
fn a_lock_walks_up_to_the_charge() {
    // refund -> credit -> charge, whose source is an assignment.
    let ledger = [
        ("refund", PaymentLedgerKind::Refund, Some("credit")),
        ("credit", PaymentLedgerKind::Credit, Some("charge")),
        ("charge", PaymentLedgerKind::Charge, Some("assignment")),
        ("loose", PaymentLedgerKind::Credit, None),
    ];
    let walk = |from: &str| {
        let mut keys: Vec<String> = Vec::new();
        let mut next = Some(from.to_string());
        while let Some(key) = next {
            assert!(lock_statement(&key).sql.ends_with("FOR UPDATE"));
            let row = ledger.iter().find(|row| row.0 == key).map(|row| LockedLine {
                kind: row.1,
                source: row.2.map(|text| text.to_string()),
            });
            keys.push(key);
            next = lock_for_cap(row);
        }
        keys
    };
    assert_eq!(walk("refund"), vec!["refund", "credit", "charge"]);
    assert_eq!(walk("credit"), vec!["credit", "charge"]);
    assert_eq!(walk("charge"), vec!["charge"]);
    assert_eq!(walk("loose"), vec!["loose"]);
    assert_eq!(walk("missing"), vec!["missing"]);
}

fn installments(text: &str) -> Installments {
    Installments {
        checked: Ok(()),
        encoded: Ok(serde_json::from_str(text).unwrap()),
    }
}

#[test]
fn installments_are_bound_as_one_document() {
    let statement = fee_plan::create(
        PLAN,
        "Yearly",
        installments("[{\"amount_minor\":150000}]"),
        UserId(Uuid(1)),
        Timestamp(4),
    )
    .unwrap();
    let binds = format!("{:?}", statement.binds);
    assert!(binds.contains("Number(150000)"));
    assert!(binds.starts_with("[Uuid(Uuid(5)), Text(\"Yearly\")"));
}

#[test]
fn bad_installments_are_refused_before_they_are_encoded() {
    let refused = |checked: Result<(), AppError>, encoded: Result<serde_json::Value, String>| {
        fee_plan::create(
            PLAN,
            "Yearly",
            Installments { checked, encoded },
            UserId(Uuid(1)),
            Timestamp(4),
        )
    };
    assert!(matches!(
        refused(Err(AppError::Conflict("x")), Err("e".to_string())),
        Err(AppError::Conflict("x"))
    ));
    match refused(Ok(()), Err("bad key".to_string())) {
        Err(AppError::Internal(text)) => assert_eq!(text, "fee plan encode: bad key"),
        other => panic!("{other:?}"),
    }
}

/// Edits a plan that is there, or not, and is assigned, or not.
fn edit(there: bool, assigned: bool, name: Option<&str>) -> Result<bool, EditRefusal> {
    let (first, _) = fee_plan::start_update(name, None).unwrap();
    let mut at = first;
    let mut wrote = false;
    loop {
        let row = match at {
            fee_plan::Update::Write => {
                wrote = there && !assigned;
                wrote
            }
            _ => there,
        };
        let reply = if row { Reply::Row } else { Reply::Empty };
        match fee_plan::update(at, reply) {
            Step::Ask(next) => at = next,
            Step::Commit(()) => return Ok(wrote),
            Step::Abort(refusal) => return Err(refusal),
        }
    }
}

#[test]
fn an_assigned_plan_is_frozen() {
    assert_eq!(edit(true, false, Some("Yeni")), Ok(true));
    assert_eq!(edit(true, true, Some("Yeni")), Err(EditRefusal::Assigned));
    assert_eq!(edit(false, false, Some("Yeni")), Err(EditRefusal::Gone));
    // A request that carries nothing is answered all the same.
    assert_eq!(edit(true, true, None), Ok(false));
    assert_eq!(edit(false, true, None), Err(EditRefusal::Gone));
    assert_eq!(
        format!("{:?}", EditRefusal::Assigned.error()),
        "Conflict(\"an assigned plan cannot be edited\")"
    );
    assert_eq!(format!("{:?}", EditRefusal::Gone.error()), "NotFound");
    let (first, value) = fee_plan::start_update(None, Some(installments("[]"))).unwrap();
    let statement = first.statement(PLAN, None, &value);
    assert!(statement.sql.contains("assignment_count = 0"));
    assert_eq!(
        format!("{:?}", statement.binds),
        "[Uuid(Uuid(5)), OptText(None), OptJson(Some(Array []))]"
    );
}

#[test]
fn a_plan_is_deleted_only_while_nobody_is_on_it() {
    assert!(matches!(
        fee_plan::delete(fee_plan::Delete::DeleteRow, Reply::Row),
        Step::Commit(true)
    ));
    assert!(matches!(
        fee_plan::delete(fee_plan::Delete::DeleteRow, Reply::Empty),
        Step::Ask(fee_plan::Delete::ReadRefused)
    ));
    assert!(matches!(
        fee_plan::delete(fee_plan::Delete::ReadRefused, Reply::Row),
        Step::Commit(false)
    ));
    assert!(matches!(
        fee_plan::delete(fee_plan::Delete::ReadRefused, Reply::Empty),
        Step::Abort(_)
    ));
    assert!(fee_plan::Delete::DeleteRow
        .statement(PLAN)
        .sql
        .contains("assignment_count = 0"));
    let (page, count) = fee_plan::list_all(Some(2), 0);
    assert!(page.sql.contains("FROM fee_plan ORDER BY created_at DESC, id DESC LIMIT $1"));
    assert!(count.is_some());
}

#[test]
fn a_placement_is_made_full_or_a_duplicate() {
    let statement =
        fee_plan_assignment::create(PLAN, STUDENT, UserId(Uuid(1)), Timestamp(2), i64::MAX);
    assert_eq!(
        format!("{:?}", statement.binds),
        format!(
            "[Uuid(Uuid(5)), I64({}), Uuid(Uuid(5)), Uuid(Uuid(6)), Uuid(Uuid(1)), I64(2)]",
            i64::MAX
        )
    );
    assert!(matches!(
        fee_plan_assignment::created(Ok(Some(1))),
        Ok(Claimed::Made(1))
    ));
    assert!(matches!(
        fee_plan_assignment::created::<i32>(Ok(None)),
        Ok(Claimed::Full)
    ));
    let taken = |constraint: &str| DbError {
        code: Some("23505".to_string()),
        constraint: Some(constraint.to_string()),
        message: String::new(),
    };
    assert!(matches!(
        fee_plan_assignment::created::<i32>(Err(taken("fee_plan_assignment_plan"))),
        Ok(Claimed::Duplicate)
    ));
    assert!(matches!(
        fee_plan_assignment::created::<i32>(Err(taken("other"))),
        Err(AppError::Db(_))
    ));
    assert!(fee_plan_assignment::read(PLAN, STUDENT).sql.contains("WHERE plan = $1"));
    assert!(fee_plan_assignment::exists_for_plan(PLAN).sql.contains("EXISTS"));
    let (by_plan, _) = fee_plan_assignment::list_for_plan(PLAN, None, 0);
    let (by_student, _) = fee_plan_assignment::list_for_student(STUDENT, None, 0);
    assert!(by_plan.sql.contains("WHERE plan = $1"));
    assert!(by_student.sql.contains("WHERE student = $1"));
}

/// The least number is out of range only where its sign has to turn.
#[test]
fn the_least_total_counts_where_its_sign_stays() {
    let least = vec![fold(PaymentLedgerKind::Credit, i64::MIN, 1)];
    assert_eq!(balance_of(&least), i64::MIN);
    assert_eq!(applied_to(&least, PaymentLedgerKind::Charge, 10).unwrap(), i64::MIN);
    // A full line is refused before its balance is asked for.
    let full = vec![fold(PaymentLedgerKind::Charge, i64::MIN, 3)];
    assert!(applied_to(&full, PaymentLedgerKind::Credit, 3).is_err());
}

/// A count below zero is no room.
#[test]
fn a_line_with_a_count_below_zero_takes_nothing() {
    let folds = vec![fold(PaymentLedgerKind::Credit, 1, -1)];
    match applied_to(&folds, PaymentLedgerKind::Charge, 3) {
        Err(AppError::Conflict(text)) => assert_eq!(text, MOST_APPLIED),
        other => panic!("{other:?}"),
    }
}
