//! The `payment_ledger` table: the append-only lines, and the reads the
//! balance and the over-payment cap fold. No line is ever edited or deleted; a
//! mistake is corrected by appending the opposing line.

use vstd::prelude::*;

use crate::error::{AppError, AppErrorView};
use crate::id::{millis, Timestamp, UserId};
use crate::meal_ledger::LedgerAmount;
use crate::page::{opt_string, paged, Param, ParamView, Statement};
use crate::sql::{Cell, Conflict, Cuts, Picking, Row, Storing, Term, Text};

verus! {

/// What a line does to the balance.
#[derive(Clone, Copy, PartialEq, Eq, Structural, Debug)]
pub enum PaymentLedgerKind {
    Charge,
    Credit,
    Refund,
    Reversal,
}

impl PaymentLedgerKind {
    /// `+1` for a credit and a reversal, `-1` for a charge and a refund.
    pub open spec fn signed(self) -> int {
        match self {
            PaymentLedgerKind::Charge | PaymentLedgerKind::Refund => -1,
            PaymentLedgerKind::Credit | PaymentLedgerKind::Reversal => 1,
        }
    }

    /// `+1` for a credit and a reversal, `-1` for a charge and a refund.
    pub fn sign(self) -> (sign: i64)
        ensures
            sign == self.signed(),
    {
        match self {
            PaymentLedgerKind::Charge | PaymentLedgerKind::Refund => -1,
            PaymentLedgerKind::Credit | PaymentLedgerKind::Reversal => 1,
        }
    }

    /// The stored name of a kind.
    pub open spec fn name(self) -> Seq<char> {
        match self {
            PaymentLedgerKind::Charge => "charge"@,
            PaymentLedgerKind::Credit => "credit"@,
            PaymentLedgerKind::Refund => "refund"@,
            PaymentLedgerKind::Reversal => "reversal"@,
        }
    }

    /// The stored name of a kind.
    pub fn as_str(self) -> (name: &'static str)
        ensures
            name@ == self.name(),
    {
        match self {
            PaymentLedgerKind::Charge => "charge",
            PaymentLedgerKind::Credit => "credit",
            PaymentLedgerKind::Refund => "refund",
            PaymentLedgerKind::Reversal => "reversal",
        }
    }
}

/// A ledger line. Its key is derived from what it records, which makes it an
/// idempotence key: replaying an append is no second line.
#[derive(Debug)]
pub struct PaymentLedger {
    pub id: String,
    pub student: UserId,
    pub kind: PaymentLedgerKind,
    pub amount_minor: LedgerAmount,
    pub source: Option<String>,
    pub due_at: Option<Timestamp>,
    pub method: Option<String>,
    pub note: Option<String>,
    pub recorded_by: UserId,
    pub created_at: Timestamp,
}

pub const APPEND: &'static str =
    "WITH ins AS ( INSERT INTO payment_ledger (id, student, kind, amount_minor, source, due_at, \
     method, note, recorded_by, created_at) VALUES ($1, $2, $3, $4, $5, $6, $7, $8, $9, $10) ON \
     CONFLICT (id) DO NOTHING RETURNING id, student, kind, amount_minor, source, due_at, \
     method, note, recorded_by, created_at) SELECT id, student, kind, amount_minor, source, \
     due_at, method, note, recorded_by, created_at FROM ins UNION ALL SELECT id, student, kind, \
     amount_minor, source, due_at, method, note, recorded_by, created_at FROM payment_ledger \
     WHERE id = $1 AND NOT EXISTS (SELECT 1 FROM ins)";

/// The append of a line. A line whose key is taken is left exactly as it is,
/// and the same statement reads the stored one back.
pub fn append(line: &PaymentLedger) -> (statement: Statement)
    ensures
        statement@ == crate::page::sends(
            APPEND,
            seq![
                ParamView::Text(line.id@),
                ParamView::Uuid(line.student.0),
                ParamView::Text(line.kind.name()),
                ParamView::I64(line.amount_minor.0),
                ParamView::OptText(crate::page::opt_string_view(line.source)),
                ParamView::OptI64(crate::id::opt_millis(line.due_at)),
                ParamView::OptText(crate::page::opt_string_view(line.method)),
                ParamView::OptText(crate::page::opt_string_view(line.note)),
                ParamView::Uuid(line.recorded_by.0),
                ParamView::I64(line.created_at.0),
            ],
        ),
{
    Statement::new(
        APPEND,
        vec![
            Param::Text(line.id.clone()),
            Param::Uuid(line.student.0),
            Param::Text(line.kind.as_str().to_owned()),
            Param::I64(line.amount_minor.0),
            Param::OptText(opt_string(&line.source)),
            Param::OptI64(millis(line.due_at)),
            Param::OptText(opt_string(&line.method)),
            Param::OptText(opt_string(&line.note)),
            Param::Uuid(line.recorded_by.0),
            Param::I64(line.created_at.0),
        ],
    )
}

/// What an append answers: the line that holds the key. A stored line of
/// another kind is never handed out as the one that was appended.
pub fn appended(row: Option<PaymentLedger>, kind: PaymentLedgerKind) -> (answer: Result<
    PaymentLedger,
    AppError,
>)
    ensures
        match row {
            Some(line) => if line.kind == kind {
                answer == Ok::<PaymentLedger, AppError>(line)
            } else {
                answer is Err && answer->Err_0@ == AppErrorView::Internal(
                    "a ledger id resolved to a line of another kind"@,
                )
            },
            None => answer is Err && answer->Err_0@ == AppErrorView::Internal(
                "failed to write the ledger line"@,
            ),
        },
{
    match row {
        Some(line) => if line.kind == kind {
            Ok(line)
        } else {
            Err(AppError::Internal("a ledger id resolved to a line of another kind".to_owned()))
        },
        None => Err(AppError::Internal("failed to write the ledger line".to_owned())),
    }
}

pub const READ: &'static str =
    "SELECT id, student, kind, amount_minor, source, due_at, method, note, recorded_by, \
     created_at FROM payment_ledger WHERE id = $1";

/// The read of one line.
pub fn read(id: &str) -> (statement: Statement)
    ensures
        statement@ == crate::page::sends(READ, seq![ParamView::Text(id@)]),
{
    Statement::new(READ, vec![Param::Text(id.to_owned())])
}

/// An installment as an assignment bills it: the key of its charge, the key of
/// the assignment, and the amount and due date the plan carried.
#[derive(Debug)]
pub struct Billed {
    pub id: String,
    pub assignment: String,
    pub student: UserId,
    pub amount_minor: LedgerAmount,
    pub due_at: Timestamp,
}

/// The charge of one installment: a frozen copy, so that editing the plan
/// moves no line that was billed from it.
pub fn installment_line(billed: Billed, recorded_by: UserId, now: Timestamp) -> (line:
    PaymentLedger)
    ensures
        line == (PaymentLedger {
            id: billed.id,
            student: billed.student,
            kind: PaymentLedgerKind::Charge,
            amount_minor: billed.amount_minor,
            source: Some(billed.assignment),
            due_at: Some(billed.due_at),
            method: None,
            note: None,
            recorded_by,
            created_at: now,
        }),
{
    PaymentLedger {
        id: billed.id,
        student: billed.student,
        kind: PaymentLedgerKind::Charge,
        amount_minor: billed.amount_minor,
        source: Some(billed.assignment),
        due_at: Some(billed.due_at),
        method: None,
        note: None,
        recorded_by,
        created_at: now,
    }
}

/// The billing of one installment. Its key is that of the assignment and the
/// installment's number, so billing it again writes nothing.
pub fn charge_for_installment(billed: Billed, recorded_by: UserId, now: Timestamp) -> (statement:
    Statement)
    ensures
        statement@ == crate::page::sends(
            APPEND,
            seq![
                ParamView::Text(billed.id@),
                ParamView::Uuid(billed.student.0),
                ParamView::Text("charge"@),
                ParamView::I64(billed.amount_minor.0),
                ParamView::OptText(Some(billed.assignment@)),
                ParamView::OptI64(Some(billed.due_at.0)),
                ParamView::OptText(None),
                ParamView::OptText(None),
                ParamView::Uuid(recorded_by.0),
                ParamView::I64(now.0),
            ],
        ),
{
    append(&installment_line(billed, recorded_by, now))
}

pub const LIST_FOR_STUDENT_FROM: &'static str =
    "payment_ledger WHERE student = $1";

pub const LIST_FOR_STUDENT_ORDER: &'static str = "ORDER BY created_at DESC, id DESC";

/// The read of a student's statement, newest first.
pub fn list_for_student(
    student: UserId,
    limit: Option<i64>,
    offset: i64,
) -> (both: (Statement, Option<Statement>))
    ensures
        crate::page::pages(
            both,
            LIST_FOR_STUDENT_FROM@,
            LIST_FOR_STUDENT_ORDER@,
            seq![ParamView::Uuid(student.0)],
            limit,
            offset,
        ),
{
    let binds: Vec<Param> = vec![Param::Uuid(student.0)];
    assert(crate::page::bound(binds@) =~= seq![ParamView::Uuid(student.0)]);
    paged(LIST_FOR_STUDENT_FROM, LIST_FOR_STUDENT_ORDER, binds, limit, offset)
}

/// The total and the number of the lines of one kind.
#[derive(Clone, Copy, PartialEq, Eq, Structural, Debug)]
pub struct KindFold {
    pub kind: PaymentLedgerKind,
    pub total: i64,
    pub lines: i64,
}

pub const KIND_FOLDS: &'static str =
    "SELECT kind, COALESCE(sum(amount_minor), 0)::bigint AS total, count(*)::bigint AS lines \
     FROM payment_ledger WHERE student = $1 GROUP BY kind";

/// The totals of a student's statement, one for each kind.
pub fn balance_statement(student: UserId) -> (statement: Statement)
    ensures
        statement@ == crate::page::sends(KIND_FOLDS, seq![ParamView::Uuid(student.0)]),
{
    Statement::new(KIND_FOLDS, vec![Param::Uuid(student.0)])
}

/// Credits and reversals less charges and refunds.
pub open spec fn balance(folds: Seq<KindFold>) -> int
    decreases folds.len(),
{
    if folds.len() == 0 {
        0
    } else {
        balance(folds.drop_last()) + folds.last().kind.signed() * folds.last().total
    }
}

/// Whether a balance and every sum on the way to it fits the machine's range.
pub open spec fn balance_fits(folds: Seq<KindFold>) -> bool {
    &&& forall|i: int|
        0 <= i < folds.len() && (#[trigger] folds[i]).kind.signed() == -1 ==> folds[i].total
            != i64::MIN
    &&& forall|n: int|
        0 <= n <= folds.len() ==> i64::MIN <= balance(#[trigger] folds.take(n)) <= i64::MAX
}

/// The derived balance: credits and reversals less charges and refunds, in
/// minor units. Negative means the family owes the school. The database sums
/// per kind and the signs are applied here.
pub fn balance_of(folds: &Vec<KindFold>) -> (sum: i64)
    requires
        balance_fits(folds@),
    ensures
        sum == balance(folds@),
{
    let mut sum: i64 = 0;
    let mut i: usize = 0;
    assert(folds@.take(0) =~= Seq::empty());
    while i < folds.len()
        invariant
            0 <= i <= folds.len(),
            balance_fits(folds@),
            sum == balance(folds@.take(i as int)),
        decreases folds.len() - i,
    {
        let fold = folds[i];
        let ghost next = folds@.take(i + 1);
        assert(next.drop_last() =~= folds@.take(i as int));
        assert(next.last() == fold);
        assert(i64::MIN <= balance(next) <= i64::MAX);
        assert(fold.kind.signed() == -1 ==> folds@[i as int].total != i64::MIN);
        let sign: i64 = fold.kind.sign();
        let signed: i64 = if sign == 1 {
            fold.total
        } else {
            -fold.total
        };
        assert(signed == fold.kind.signed() * fold.total) by (nonlinear_arith)
            requires
                sign == fold.kind.signed(),
                sign == 1 || sign == -1,
                signed == (if sign == 1 {
                    fold.total as int
                } else {
                    -(fold.total as int)
                }),
        ;
        sum = sum + signed;
        i += 1;
    }
    assert(folds@.take(folds.len() as int) =~= folds@);
    sum
}

/// What locking a line tells of it: its kind, and what it points at.
#[derive(Debug)]
pub struct LockedLine {
    pub kind: PaymentLedgerKind,
    pub source: Option<String>,
}

pub const LOCK_LINE: &'static str =
    "SELECT kind, source FROM payment_ledger WHERE id = $1 FOR UPDATE";

/// The lock of one line.
pub fn lock_statement(id: &str) -> (statement: Statement)
    ensures
        statement@ == crate::page::sends(LOCK_LINE, seq![ParamView::Text(id@)]),
{
    Statement::new(LOCK_LINE, vec![Param::Text(id.to_owned())])
}

/// The line to lock after one of `kind` that points at `source`: a charge
/// names an assignment and no line, and ends the walk.
pub open spec fn next_up(kind: PaymentLedgerKind, source: Option<Seq<char>>) -> Option<Seq<char>> {
    if kind == PaymentLedgerKind::Charge {
        None
    } else {
        source
    }
}

/// Lock the chain of a line from the line up to its charge: the key to lock
/// next, given what locking the last one told. The walk starts at the line
/// itself and ends at `None`.
pub fn lock_for_cap(locked: Option<LockedLine>) -> (next: Option<String>)
    ensures
        crate::page::opt_string_view(next) == match locked {
            Some(line) => next_up(line.kind, crate::page::opt_string_view(line.source)),
            None => None,
        },
{
    match locked {
        Some(line) => if line.kind == PaymentLedgerKind::Charge {
            None
        } else {
            line.source
        },
        None => None,
    }
}

pub const APPLIED_FOLDS: &'static str =
    "WITH RECURSIVE applied(id, kind, amount_minor) AS ( SELECT id, kind, amount_minor FROM \
     payment_ledger WHERE source = $1 UNION ALL SELECT l.id, l.kind, l.amount_minor FROM \
     payment_ledger l JOIN applied a ON l.source = a.id ) SELECT kind, \
     COALESCE(sum(amount_minor), 0)::bigint AS total, count(*)::bigint AS lines FROM applied \
     GROUP BY kind";

/// The totals of everything that points at a line, however deep, one for each
/// kind.
pub fn applied_statement(target: &str) -> (statement: Statement)
    ensures
        statement@ == crate::page::sends(APPLIED_FOLDS, seq![ParamView::Text(target@)]),
{
    Statement::new(APPLIED_FOLDS, vec![Param::Text(target.to_owned())])
}

/// The number of lines behind some folds.
pub open spec fn line_count(folds: Seq<KindFold>) -> int
    decreases folds.len(),
{
    if folds.len() == 0 {
        0
    } else {
        line_count(folds.drop_last()) + folds.last().lines
    }
}

/// Whether the count of the lines, and every sum on the way to it, fits the
/// machine's range.
pub open spec fn count_fits(folds: Seq<KindFold>) -> bool {
    forall|n: int|
        0 <= n <= folds.len() ==> i64::MIN <= line_count(#[trigger] folds.take(n)) <= i64::MAX
}

/// Whether a line carries the most lines it may. A count below zero is none,
/// and is refused with them.
pub open spec fn is_full(folds: Seq<KindFold>, most: i64) -> bool {
    line_count(folds) < 0 || line_count(folds) >= most
}

/// The answer to a line that carries the most lines it may.
pub const MOST_APPLIED: &'static str =
    "this line already carries the most lines that may be applied to it; record the rest \
     against another";

/// How much of a line of kind `target` is taken up by the lines applied to
/// it, read the way the line is measured, or the refusal of a line that
/// carries `most` lines already.
pub fn applied_to(folds: &Vec<KindFold>, target: PaymentLedgerKind, most: i64) -> (applied: Result<
    i64,
    AppError,
>)
    requires
        count_fits(folds@),
        is_full(folds@, most) || (balance_fits(folds@) && (target.signed() == 1 ==> balance(folds@)
            != i64::MIN)),
    ensures
        if is_full(folds@, most) {
            applied is Err && applied->Err_0@ == AppErrorView::Conflict(MOST_APPLIED@)
        } else {
            applied is Ok && applied->Ok_0 == balance(folds@) * -target.signed()
        },
{
    let mut lines: i64 = 0;
    let mut i: usize = 0;
    assert(folds@.take(0) =~= Seq::empty());
    while i < folds.len()
        invariant
            0 <= i <= folds.len(),
            count_fits(folds@),
            lines == line_count(folds@.take(i as int)),
        decreases folds.len() - i,
    {
        let ghost next = folds@.take(i + 1);
        assert(next.drop_last() =~= folds@.take(i as int));
        assert(i64::MIN <= line_count(next) <= i64::MAX);
        lines = lines + folds[i].lines;
        i += 1;
    }
    assert(folds@.take(folds.len() as int) =~= folds@);
    if lines < 0 || lines >= most {
        return Err(AppError::Conflict(MOST_APPLIED));
    }
    let total: i64 = balance_of(folds);
    assert(total * -1 == -total);
    assert(total * -(-1) == total);
    if target.sign() == 1 {
        Ok(-total)
    } else {
        Ok(total)
    }
}

/// A balance adds up: that of two statements together is the sum of theirs.
pub proof fn law_balance_adds_up(a: Seq<KindFold>, b: Seq<KindFold>)
    ensures
        balance(a + b) == balance(a) + balance(b),
    decreases b.len(),
{
    if b.len() == 0 {
        assert(a + b =~= a);
    } else {
        assert((a + b).drop_last() =~= a + b.drop_last());
        assert((a + b).last() == b.last());
        law_balance_adds_up(a, b.drop_last());
    }
}

/// Money given back frees the room it took: a credit and its refund leave a
/// balance as it was, and the reversal of the refund puts the credit back.
pub proof fn law_refund_frees_the_room(
    folds: Seq<KindFold>,
    credit: KindFold,
    refund: KindFold,
    reversal: KindFold,
)
    requires
        credit.kind == PaymentLedgerKind::Credit,
        refund.kind == PaymentLedgerKind::Refund,
        reversal.kind == PaymentLedgerKind::Reversal,
        credit.total == refund.total == reversal.total,
    ensures
        balance(folds.push(credit).push(refund)) == balance(folds),
        balance(folds.push(credit).push(refund).push(reversal)) == balance(folds.push(credit)),
{
    let paid = folds.push(credit);
    let returned = paid.push(refund);
    let restored = returned.push(reversal);
    assert(paid.drop_last() =~= folds);
    assert(returned.drop_last() =~= paid);
    assert(restored.drop_last() =~= returned);
    assert(balance(paid) == balance(folds) + credit.total);
    assert(balance(returned) == balance(paid) - refund.total);
    assert(balance(restored) == balance(returned) + reversal.total);
}

/// A stored line, as far as the laws read it.
#[verifier::ext_equal]
pub struct LineRow {
    pub kind: PaymentLedgerKind,
    pub amount: int,
    pub source: Option<Seq<char>>,
}

/// The lines by key.
pub type Ledger = Map<Seq<char>, LineRow>;

/// What an append leaves, and the line it hands back.
pub open spec fn after_append(ledger: Ledger, id: Seq<char>, line: LineRow) -> (Ledger, LineRow) {
    if ledger.contains_key(id) {
        (ledger, ledger[id])
    } else {
        (ledger.insert(id, line), line)
    }
}

/// An append never edits a line, and replaying it is no second line: the
/// ledger stays as the first one left it and the first line is handed back.
pub proof fn law_append_is_idempotent(ledger: Ledger, id: Seq<char>, line: LineRow, again: LineRow)
    ensures
        ({
            let first = after_append(ledger, id, line);
            let second = after_append(first.0, id, again);
            &&& second.0 == first.0
            &&& second.1 == first.1
            &&& forall|key: Seq<char>| #[trigger]
                ledger.contains_key(key) ==> first.0.contains_key(key) && first.0[key]
                    == ledger[key]
        }),
{
}

/// Whether the line `up` is reached from `id` in `steps` steps of the walk.
pub open spec fn leads(ledger: Ledger, id: Seq<char>, up: Seq<char>, steps: nat) -> bool
    decreases steps,
{
    if steps == 0 {
        id == up
    } else {
        ledger.contains_key(id) && match next_up(ledger[id].kind, ledger[id].source) {
            Some(next) => leads(ledger, next, up, (steps - 1) as nat),
            None => false,
        }
    }
}

/// The keys that a walk from `id` locks, in order, `most` at the most.
pub open spec fn walk(ledger: Ledger, id: Seq<char>, most: nat) -> Seq<Seq<char>>
    decreases most,
{
    if most == 0 {
        Seq::empty()
    } else {
        let above = if ledger.contains_key(id) {
            next_up(ledger[id].kind, ledger[id].source)
        } else {
            None
        };
        match above {
            Some(next) => seq![id] + walk(ledger, next, (most - 1) as nat),
            None => seq![id],
        }
    }
}

/// A walk locks every line above the one it starts at, so writers to lines
/// below one root all hold the lock of that root.
pub proof fn law_walk_locks_the_root(
    ledger: Ledger,
    id: Seq<char>,
    root: Seq<char>,
    steps: nat,
    most: nat,
)
    requires
        leads(ledger, id, root, steps),
        steps < most,
    ensures
        walk(ledger, id, most).len() > steps,
        walk(ledger, id, most)[steps as int] == root,
    decreases steps,
{
    if steps > 0 {
        let next = next_up(ledger[id].kind, ledger[id].source)->0;
        law_walk_locks_the_root(ledger, next, root, (steps - 1) as nat, (most - 1) as nat);
    }
}

/// Steps of the walk add up.
pub proof fn lemma_leads_on(
    ledger: Ledger,
    a: Seq<char>,
    b: Seq<char>,
    c: Seq<char>,
    first: nat,
    second: nat,
)
    requires
        leads(ledger, a, b, first),
        leads(ledger, b, c, second),
    ensures
        leads(ledger, a, c, first + second),
    decreases first,
{
    if first > 0 {
        let next = next_up(ledger[a].kind, ledger[a].source)->0;
        lemma_leads_on(ledger, next, b, c, (first - 1) as nat, second);
    }
}

/// A walk takes its locks from the line upwards.
pub proof fn law_walk_goes_up(ledger: Ledger, id: Seq<char>, most: nat, i: int, j: int)
    requires
        0 <= i <= j < walk(ledger, id, most).len(),
    ensures
        leads(ledger, walk(ledger, id, most)[i], walk(ledger, id, most)[j], (j - i) as nat),
    decreases most,
{
    let keys = walk(ledger, id, most);
    let above = if ledger.contains_key(id) {
        next_up(ledger[id].kind, ledger[id].source)
    } else {
        None
    };
    if above is Some {
        let rest = walk(ledger, above->0, (most - 1) as nat);
        assert(keys =~= seq![id] + rest);
        if i > 0 {
            law_walk_goes_up(ledger, above->0, (most - 1) as nat, i - 1, j - 1);
        } else if j > 0 {
            assert(rest.len() > 0);
            law_walk_goes_up(ledger, above->0, (most - 1) as nat, 0, j - 1);
            assert(rest[0] == above->0);
        }
    }
}

/// No two walks take a pair of locks in opposite orders, so no two writers
/// wait for each other: where `x` is locked before `y` on one walk, no walk
/// locks `y` before `x`.
pub proof fn law_walks_never_cross(
    ledger: Ledger,
    a: Seq<char>,
    b: Seq<char>,
    most: nat,
    first: (int, int),
    second: (int, int),
)
    requires
        forall|key: Seq<char>, steps: nat|
            steps > 0 ==> !(#[trigger] leads(ledger, key, key, steps)),
        0 <= first.0 < first.1 < walk(ledger, a, most).len(),
        0 <= second.0 < second.1 < walk(ledger, b, most).len(),
    ensures
        !(walk(ledger, a, most)[first.0] == walk(ledger, b, most)[second.1] && walk(
            ledger,
            a,
            most,
        )[first.1] == walk(ledger, b, most)[second.0]),
{
    let x = walk(ledger, a, most)[first.0];
    let y = walk(ledger, a, most)[first.1];
    if x == walk(ledger, b, most)[second.1] && y == walk(ledger, b, most)[second.0] {
        law_walk_goes_up(ledger, a, most, first.0, first.1);
        law_walk_goes_up(ledger, b, most, second.0, second.1);
        let up = (first.1 - first.0) as nat;
        let back = (second.1 - second.0) as nat;
        lemma_leads_on(ledger, x, y, x, up, back);
        assert(leads(ledger, x, x, up + back));
    }
}

/// What [`APPEND`] says.
pub open spec fn append_reading() -> Storing {
    Storing {
        head: "WITH ins AS ( INSERT INTO "@,
        table: "payment_ledger"@,
        columns: seq!["id"@, "student"@, "kind"@, "amount_minor"@, "source"@, "due_at"@, "method"@, "note"@, "recorded_by"@, "created_at"@],
        values: seq![Term::Bind(1), Term::Bind(2), Term::Bind(3), Term::Bind(4), Term::Bind(5), Term::Bind(6), Term::Bind(7), Term::Bind(8), Term::Bind(9), Term::Bind(10)],
        selected: false,
        conflict: Conflict::Stays(seq!["id"@]),
        rest: crate::sql::returning(),
    }
}

proof fn lemma_append_reads()
    ensures
        crate::sql::spells(APPEND@, 0, append_reading().text()),
{
    reveal_strlit("WITH ins AS ( INSERT INTO payment_ledger (id, student, kind, amount_minor, source, due_at, method, note, recorded_by, created_at) VALUES ($1, $2, $3, $4, $5, $6, $7, $8, $9, $10) ON CONFLICT (id) DO NOTHING RETURNING id, student, kind, amount_minor, source, due_at, method, note, recorded_by, created_at) SELECT id, student, kind, amount_minor, source, due_at, method, note, recorded_by, created_at FROM ins UNION ALL SELECT id, student, kind, amount_minor, source, due_at, method, note, recorded_by, created_at FROM payment_ledger WHERE id = $1 AND NOT EXISTS (SELECT 1 FROM ins)");
    reveal_strlit("WITH ins AS ( INSERT INTO ");
    reveal_strlit("payment_ledger");
    reveal_strlit(" (");
    reveal_strlit("id");
    reveal_strlit(", ");
    reveal_strlit("student");
    reveal_strlit("kind");
    reveal_strlit("amount_minor");
    reveal_strlit("source");
    reveal_strlit("due_at");
    reveal_strlit("method");
    reveal_strlit("note");
    reveal_strlit("recorded_by");
    reveal_strlit("created_at");
    reveal_strlit(") VALUES (");
    reveal_strlit("$");
    reveal_strlit(")");
    reveal_strlit(" ON CONFLICT (");
    reveal_strlit(") DO NOTHING");
    reveal_strlit(" RETURNING ");
    reveal(crate::sql::Storing::text);
    reveal_with_fuel(crate::sql::names_text, 11);
    reveal_with_fuel(crate::sql::values_text, 11);
    reveal_with_fuel(crate::text::decimal_text, 2);
    reveal_with_fuel(crate::sql::stands, 27);
    reveal_with_fuel(crate::sql::spells_by, 48);
    crate::sql::lemma_spells_by(APPEND@, 0, append_reading().text(), crate::sql::cut(26, crate::sql::cut(40, crate::sql::cut(42, crate::sql::cut(44, crate::sql::cut(46, crate::sql::cut(53, crate::sql::cut(55, crate::sql::cut(59, crate::sql::cut(61, crate::sql::cut(73, crate::sql::cut(75, crate::sql::cut(81, crate::sql::cut(83, crate::sql::cut(89, crate::sql::cut(91, crate::sql::cut(97, crate::sql::cut(99, crate::sql::cut(103, crate::sql::cut(105, crate::sql::cut(116, crate::sql::cut(118, crate::sql::cut(128, crate::sql::cut(138, crate::sql::cut(140, crate::sql::cut(142, crate::sql::cut(144, crate::sql::cut(146, crate::sql::cut(148, crate::sql::cut(150, crate::sql::cut(152, crate::sql::cut(154, crate::sql::cut(156, crate::sql::cut(158, crate::sql::cut(160, crate::sql::cut(162, crate::sql::cut(164, crate::sql::cut(166, crate::sql::cut(168, crate::sql::cut(170, crate::sql::cut(172, crate::sql::cut(174, crate::sql::cut(177, crate::sql::cut(178, crate::sql::cut(192, crate::sql::cut(194, crate::sql::cut(206, crate::sql::cut(217, Cuts::Last))))))))))))))))))))))))))))))))))))))))))))))));
}

/// What [`append`] stores, column by column, is what it is given.
pub proof fn law_append_lands_in_its_columns(
    line: &PaymentLedger,
    sent: Statement,
)
    requires
        call_ensures(append, (line,), sent),
    ensures
        append_reading().is_read(sent@),
        append_reading().stores(sent@.binds) == seq![
            ("id"@, Cell::Text(line.id@)),
            ("student"@, Cell::Uuid(line.student.0)),
            ("kind"@, Cell::Text(line.kind.name())),
            ("amount_minor"@, Cell::Int(line.amount_minor.0 as int)),
            ("source"@, crate::sql::opt_text(crate::page::opt_string_view(line.source))),
            ("due_at"@, crate::sql::opt_int(crate::id::opt_millis(line.due_at))),
            ("method"@, crate::sql::opt_text(crate::page::opt_string_view(line.method))),
            ("note"@, crate::sql::opt_text(crate::page::opt_string_view(line.note))),
            ("recorded_by"@, Cell::Uuid(line.recorded_by.0)),
            ("created_at"@, Cell::Int(line.created_at.0 as int)),
        ],
        append_reading().conflict == Conflict::Stays(seq!["id"@]),
{
    lemma_append_reads();
}

/// What [`READ`] says.
pub open spec fn read_reading() -> Picking {
    Picking {
        skip: 93,
        head: " FROM "@,
        columns: Seq::empty(),
        table: "payment_ledger"@,
        conditions: seq![crate::sql::is_bound("id"@, 1)],
        rest: Text::End,
    }
}

proof fn lemma_read_reads()
    ensures
        crate::sql::spells(READ@, 93, read_reading().text()),
{
    reveal_strlit("SELECT id, student, kind, amount_minor, source, due_at, method, note, recorded_by, created_at FROM payment_ledger WHERE id = $1");
    reveal_strlit(" FROM ");
    reveal_strlit("payment_ledger");
    reveal_strlit(" WHERE ");
    reveal_strlit("id");
    reveal_strlit(" = ");
    reveal_strlit("$");
    reveal(crate::sql::Picking::text);
    reveal_with_fuel(crate::sql::where_text, 2);
    reveal_with_fuel(crate::sql::stands, 15);
    reveal_with_fuel(crate::sql::spells_by, 7);
    crate::sql::lemma_spells_by(READ@, 93, read_reading().text(), crate::sql::cut(99, crate::sql::cut(113, crate::sql::cut(120, crate::sql::cut(122, crate::sql::cut(125, crate::sql::cut(127, Cuts::Last)))))));
}

/// [`read`] reads the rows it names and no other.
pub proof fn law_read_reads_its_rows(
    id: &str,
    sent: Statement,
    row: Row,
)
    requires
        call_ensures(read, (id,), sent),
    ensures
        read_reading().is_read(sent@),
        read_reading().picks(sent@.binds, row) == (row["id"@] == Cell::Text(id@)),
{
    lemma_read_reads();
    reveal_with_fuel(crate::sql::all_hold, 2);
}

/// What [`charge_for_installment`] stores, column by column, is what it is given.
pub proof fn law_charge_for_installment_lands_in_its_columns(
    billed: Billed,
    recorded_by: UserId,
    now: Timestamp,
    sent: Statement,
)
    requires
        call_ensures(charge_for_installment, (billed, recorded_by, now), sent),
    ensures
        append_reading().is_read(sent@),
        append_reading().stores(sent@.binds) == seq![
            ("id"@, Cell::Text(billed.id@)),
            ("student"@, Cell::Uuid(billed.student.0)),
            ("kind"@, Cell::Text("charge"@)),
            ("amount_minor"@, Cell::Int(billed.amount_minor.0 as int)),
            ("source"@, crate::sql::opt_text(Some(billed.assignment@))),
            ("due_at"@, crate::sql::opt_int(Some(billed.due_at.0))),
            ("method"@, crate::sql::opt_text(None)),
            ("note"@, crate::sql::opt_text(None)),
            ("recorded_by"@, Cell::Uuid(recorded_by.0)),
            ("created_at"@, Cell::Int(now.0 as int)),
        ],
        append_reading().conflict == Conflict::Stays(seq!["id"@]),
{
    lemma_append_reads();
}

/// What [`KIND_FOLDS`] says.
pub open spec fn kind_folds_reading() -> Picking {
    Picking {
        skip: 87,
        head: " FROM "@,
        columns: Seq::empty(),
        table: "payment_ledger"@,
        conditions: seq![crate::sql::is_bound("student"@, 1)],
        rest: crate::sql::before(" GROUP BY kind"@, Text::End),
    }
}

proof fn lemma_kind_folds_reads()
    ensures
        crate::sql::spells(KIND_FOLDS@, 87, kind_folds_reading().text()),
{
    reveal_strlit("SELECT kind, COALESCE(sum(amount_minor), 0)::bigint AS total, count(*)::bigint AS lines FROM payment_ledger WHERE student = $1 GROUP BY kind");
    reveal_strlit(" FROM ");
    reveal_strlit("payment_ledger");
    reveal_strlit(" WHERE ");
    reveal_strlit("student");
    reveal_strlit(" = ");
    reveal_strlit("$");
    reveal_strlit(" GROUP BY kind");
    reveal(crate::sql::Picking::text);
    reveal_with_fuel(crate::sql::where_text, 2);
    reveal_with_fuel(crate::sql::stands, 15);
    reveal_with_fuel(crate::sql::spells_by, 8);
    crate::sql::lemma_spells_by(KIND_FOLDS@, 87, kind_folds_reading().text(), crate::sql::cut(93, crate::sql::cut(107, crate::sql::cut(114, crate::sql::cut(121, crate::sql::cut(124, crate::sql::cut(126, crate::sql::cut(140, Cuts::Last))))))));
}

/// [`balance_statement`] reads the rows it names and no other.
pub proof fn law_balance_statement_reads_its_rows(
    student: UserId,
    sent: Statement,
    row: Row,
)
    requires
        call_ensures(balance_statement, (student,), sent),
    ensures
        kind_folds_reading().is_read(sent@),
        kind_folds_reading().picks(sent@.binds, row) == (row["student"@] == Cell::Uuid(student.0)),
{
    lemma_kind_folds_reads();
    reveal_with_fuel(crate::sql::all_hold, 2);
}

/// What [`LOCK_LINE`] says.
pub open spec fn lock_line_reading() -> Picking {
    Picking {
        skip: 0,
        head: "SELECT "@,
        columns: seq!["kind"@, "source"@],
        table: "payment_ledger"@,
        conditions: seq![crate::sql::is_bound("id"@, 1)],
        rest: crate::sql::before(" FOR UPDATE"@, Text::End),
    }
}

proof fn lemma_lock_line_reads()
    ensures
        crate::sql::spells(LOCK_LINE@, 0, lock_line_reading().text()),
{
    reveal_strlit("SELECT kind, source FROM payment_ledger WHERE id = $1 FOR UPDATE");
    reveal_strlit("SELECT ");
    reveal_strlit("kind");
    reveal_strlit(", ");
    reveal_strlit("source");
    reveal_strlit(" FROM ");
    reveal_strlit("payment_ledger");
    reveal_strlit(" WHERE ");
    reveal_strlit("id");
    reveal_strlit(" = ");
    reveal_strlit("$");
    reveal_strlit(" FOR UPDATE");
    reveal(crate::sql::Picking::text);
    reveal_with_fuel(crate::sql::where_text, 2);
    reveal_with_fuel(crate::sql::names_text, 3);
    reveal_with_fuel(crate::sql::stands, 15);
    reveal_with_fuel(crate::sql::spells_by, 12);
    crate::sql::lemma_spells_by(LOCK_LINE@, 0, lock_line_reading().text(), crate::sql::cut(7, crate::sql::cut(11, crate::sql::cut(13, crate::sql::cut(19, crate::sql::cut(25, crate::sql::cut(39, crate::sql::cut(46, crate::sql::cut(48, crate::sql::cut(51, crate::sql::cut(53, crate::sql::cut(64, Cuts::Last))))))))))));
}

/// [`lock_statement`] reads the rows it names and no other.
pub proof fn law_lock_statement_reads_its_rows(
    id: &str,
    sent: Statement,
    row: Row,
)
    requires
        call_ensures(lock_statement, (id,), sent),
    ensures
        lock_line_reading().is_read(sent@),
        lock_line_reading().picks(sent@.binds, row) == (row["id"@] == Cell::Text(id@)),
{
    lemma_lock_line_reads();
    reveal_with_fuel(crate::sql::all_hold, 2);
}

/// The text of [`APPLIED_FOLDS`], taken apart at its placeholders.
pub open spec fn applied_folds_text() -> Text {
    crate::sql::before("WITH RECURSIVE applied(id, kind, amount_minor)"@, crate::sql::before(" AS ( SELECT id, kind, amount_minor FROM"@, crate::sql::before(" payment_ledger WHERE source = "@, crate::sql::before(crate::text::placeholder(1), crate::sql::before(" UNION ALL SELECT l.id, l.kind, l.amount_minor"@, crate::sql::before(" FROM payment_ledger l JOIN applied a ON"@, crate::sql::before(" l.source = a.id ) SELECT kind,"@, crate::sql::before(" COALESCE(sum(amount_minor), 0)::bigint AS"@, crate::sql::before(" total, count(*)::bigint AS lines FROM applied"@, crate::sql::before(" GROUP BY kind"@, Text::End))))))))))
}

proof fn lemma_applied_folds_reads()
    ensures
        crate::sql::spells(APPLIED_FOLDS@, 0, applied_folds_text()),
{
    reveal_strlit("WITH RECURSIVE applied(id, kind, amount_minor) AS ( SELECT id, kind, amount_minor FROM payment_ledger WHERE source = $1 UNION ALL SELECT l.id, l.kind, l.amount_minor FROM payment_ledger l JOIN applied a ON l.source = a.id ) SELECT kind, COALESCE(sum(amount_minor), 0)::bigint AS total, count(*)::bigint AS lines FROM applied GROUP BY kind");
    reveal_strlit("WITH RECURSIVE applied(id, kind, amount_minor)");
    reveal_strlit(" AS ( SELECT id, kind, amount_minor FROM");
    reveal_strlit(" payment_ledger WHERE source = ");
    reveal_strlit("$");
    reveal_strlit(" UNION ALL SELECT l.id, l.kind, l.amount_minor");
    reveal_strlit(" FROM payment_ledger l JOIN applied a ON");
    reveal_strlit(" l.source = a.id ) SELECT kind,");
    reveal_strlit(" COALESCE(sum(amount_minor), 0)::bigint AS");
    reveal_strlit(" total, count(*)::bigint AS lines FROM applied");
    reveal_strlit(" GROUP BY kind");
    reveal_with_fuel(crate::sql::stands, 47);
    reveal_with_fuel(crate::sql::spells_by, 11);
    crate::sql::lemma_spells_by(APPLIED_FOLDS@, 0, applied_folds_text(), crate::sql::cut(46, crate::sql::cut(86, crate::sql::cut(117, crate::sql::cut(119, crate::sql::cut(165, crate::sql::cut(205, crate::sql::cut(236, crate::sql::cut(278, crate::sql::cut(324, crate::sql::cut(338, Cuts::Last)))))))))));
}

/// [`applied_statement`] binds each value at its own place in the text.
pub proof fn law_applied_statement_binds_its_values(
    target: &str,
    sent: Statement,
)
    requires
        call_ensures(applied_statement, (target,), sent),
    ensures
        crate::sql::spells(sent@.sql, 0, applied_folds_text()),
        sent@.binds.len() == 1,
        crate::sql::cell(sent@.binds[0]) == Cell::Text(target@),
{
    lemma_applied_folds_reads();
}

/// What [`LIST_FOR_STUDENT_FROM`] says.
pub open spec fn list_for_student_from_reading() -> Picking {
    Picking {
        skip: 0,
        head: ""@,
        columns: Seq::empty(),
        table: "payment_ledger"@,
        conditions: seq![crate::sql::is_bound("student"@, 1)],
        rest: Text::End,
    }
}

proof fn lemma_list_for_student_from_reads()
    ensures
        crate::sql::spells(LIST_FOR_STUDENT_FROM@, 0, list_for_student_from_reading().text()),
{
    reveal_strlit("payment_ledger WHERE student = $1");
    reveal_strlit("");
    reveal_strlit("payment_ledger");
    reveal_strlit(" WHERE ");
    reveal_strlit("student");
    reveal_strlit(" = ");
    reveal_strlit("$");
    reveal(crate::sql::Picking::text);
    reveal_with_fuel(crate::sql::where_text, 2);
    reveal_with_fuel(crate::sql::stands, 15);
    reveal_with_fuel(crate::sql::spells_by, 7);
    crate::sql::lemma_spells_by(LIST_FOR_STUDENT_FROM@, 0, list_for_student_from_reading().text(), crate::sql::cut(0, crate::sql::cut(14, crate::sql::cut(21, crate::sql::cut(28, crate::sql::cut(31, crate::sql::cut(33, Cuts::Last)))))));
}

/// [`list_for_student`] pages the rows it names and no other.
pub proof fn law_list_for_student_reads_its_rows(
    student: UserId,
    limit: Option<i64>,
    offset: i64,
    both: (Statement, Option<Statement>),
    row: Row,
)
    requires
        call_ensures(list_for_student, (student, limit, offset), both),
    ensures
        crate::sql::spells(
            both.0@.sql,
            0,
            crate::sql::before("SELECT * FROM "@, crate::sql::opened(list_for_student_from_reading().text())),
        ),
        list_for_student_from_reading().picks(both.0@.binds, row) == (row["student"@] == Cell::Uuid(student.0)),
{
    lemma_list_for_student_from_reads();
    reveal(crate::sql::Picking::text);
    reveal_with_fuel(crate::sql::where_text, 2);
    reveal_with_fuel(crate::sql::is_open, 7);
    reveal_with_fuel(crate::sql::all_hold, 2);
    crate::page::law_page_reads_its_rows(
        both,
        LIST_FOR_STUDENT_FROM@,
        LIST_FOR_STUDENT_ORDER@,
        seq![ParamView::Uuid(student.0)],
        limit,
        offset,
        list_for_student_from_reading().text(),
    );
}

} // verus!
