//! The `meal_ledger` table: the append-only money writes and reads of the
//! canteen.

use vstd::prelude::*;

use crate::error::{AppError, AppErrorView};
use crate::id::{Timestamp, UserId};
use crate::page::{opt_string, paged, Param, ParamView, Statement, StatementView};
use crate::sql::{Cell, Conflict, Cuts, Picking, Row, Storing, Term, Text};
use crate::transaction::{Reply, Step};

verus! {

/// What a line does to the balance.
#[derive(Clone, Copy, PartialEq, Eq, Structural, Debug)]
pub enum MealLedgerKind {
    Credit,
    Charge,
    Reversal,
}

impl MealLedgerKind {
    /// `+1` for a credit and a reversal, `-1` for a charge.
    pub open spec fn signed(self) -> int {
        match self {
            MealLedgerKind::Charge => -1,
            _ => 1,
        }
    }

    /// `+1` for a credit and a reversal, `-1` for a charge.
    pub fn sign(self) -> (sign: i64)
        ensures
            sign == self.signed(),
    {
        match self {
            MealLedgerKind::Charge => -1,
            _ => 1,
        }
    }

    /// The stored name of a kind.
    pub open spec fn name(self) -> Seq<char> {
        match self {
            MealLedgerKind::Credit => "credit"@,
            MealLedgerKind::Charge => "charge"@,
            MealLedgerKind::Reversal => "reversal"@,
        }
    }

    /// The stored name of a kind.
    pub fn as_str(self) -> (name: &'static str)
        ensures
            name@ == self.name(),
    {
        match self {
            MealLedgerKind::Credit => "credit",
            MealLedgerKind::Charge => "charge",
            MealLedgerKind::Reversal => "reversal",
        }
    }
}

/// An amount of money, in minor units.
#[derive(Clone, Copy, PartialEq, Eq, Structural, Debug)]
pub struct LedgerAmount(pub i64);

/// A ledger line. Its key is deterministic, which makes it an idempotence
/// key: replaying an append is no second line.
#[derive(Debug)]
pub struct MealLedger {
    pub id: String,
    pub student: UserId,
    pub kind: MealLedgerKind,
    pub amount_minor: LedgerAmount,
    pub source: Option<String>,
    pub method: Option<String>,
    pub note: Option<String>,
    pub recorded_by: UserId,
    pub created_at: Timestamp,
}

pub const INSERT_LINE: &'static str =
    "INSERT INTO meal_ledger (id, student, kind, amount_minor, source, method, note, \
     recorded_by, created_at) VALUES ($1, $2, $3, $4, $5, $6, $7, $8, $9) ON CONFLICT (id) DO \
     NOTHING";
pub const APPEND_LINE: &'static str =
    "INSERT INTO meal_ledger (id, student, kind, amount_minor, source, method, note, \
     recorded_by, created_at) VALUES ($1, $2, $3, $4, $5, $6, $7, $8, $9) ON CONFLICT (id) DO \
     NOTHING RETURNING id, student, kind, amount_minor, source, method, note, recorded_by, \
     created_at";
pub const READ_LINE: &'static str =
    "SELECT id, student, kind, amount_minor, source, method, note, recorded_by, created_at FROM \
     meal_ledger WHERE id = $1";

impl MealLedger {
    /// The line's values as an insert binds them.
    pub open spec fn line_binds(self) -> Seq<ParamView> {
        seq![
            ParamView::Text(self.id@),
            ParamView::Uuid(self.student.0),
            ParamView::Text(self.kind.name()),
            ParamView::I64(self.amount_minor.0),
            ParamView::OptText(crate::page::opt_string_view(self.source)),
            ParamView::OptText(crate::page::opt_string_view(self.method)),
            ParamView::OptText(crate::page::opt_string_view(self.note)),
            ParamView::Uuid(self.recorded_by.0),
            ParamView::I64(self.created_at.0),
        ]
    }

    /// The line's values as an insert binds them.
    pub fn binds(&self) -> (binds: Vec<Param>)
        ensures
            crate::page::bound(binds@) == self.line_binds(),
    {
        let binds = vec![
            Param::Text(self.id.clone()),
            Param::Uuid(self.student.0),
            Param::Text(self.kind.as_str().to_owned()),
            Param::I64(self.amount_minor.0),
            Param::OptText(opt_string(&self.source)),
            Param::OptText(opt_string(&self.method)),
            Param::OptText(opt_string(&self.note)),
            Param::Uuid(self.recorded_by.0),
            Param::I64(self.created_at.0),
        ];
        assert(crate::page::bound(binds@) =~= self.line_binds());
        binds
    }
}

/// The insert of a line, which leaves a line of the same key as it is.
pub fn insert_statement(line: &MealLedger) -> (statement: Statement)
    ensures
        statement@ == crate::page::sends(INSERT_LINE, line.line_binds()),
{
    Statement::new(INSERT_LINE, line.binds())
}

/// The read of one line.
pub fn read(id: &str) -> (statement: Statement)
    ensures
        statement@ == crate::page::sends(READ_LINE, seq![ParamView::Text(id@)]),
{
    Statement::new(READ_LINE, vec![Param::Text(id.to_owned())])
}

/// The statement an append waits for.
#[derive(Clone, Copy, PartialEq, Eq, Structural, Debug)]
pub enum Append {
    /// Read the line of this key, if it is there: the row is the answer.
    Read,
    /// Insert the line, where no other has its key: the row is the answer.
    Insert,
    /// Read the line that won the key: the row is the answer.
    ReadBack,
}

impl Append {
    /// The statement of this step.
    pub open spec fn asks(self, line: MealLedger) -> StatementView {
        match self {
            Append::Insert => crate::page::sends(APPEND_LINE, line.line_binds()),
            _ => crate::page::sends(READ_LINE, seq![ParamView::Text(line.id@)]),
        }
    }

    /// The statement of this step.
    pub fn statement(self, line: &MealLedger) -> (statement: Statement)
        ensures
            statement@ == self.asks(*line),
    {
        match self {
            Append::Insert => Statement::new(APPEND_LINE, line.binds()),
            _ => read(line.id.as_str()),
        }
    }
}

/// What an append does once the statement of `at` is answered.
pub open spec fn append_next(at: Append, reply: Reply) -> Step<Append, (), Unwritten> {
    if reply.has_row() {
        Step::Commit(())
    } else {
        match at {
            Append::Read => Step::Ask(Append::Insert),
            Append::Insert => Step::Ask(Append::ReadBack),
            Append::ReadBack => Step::Abort(Unwritten),
        }
    }
}

/// Append a line: the step that follows the answer to `at`. An append starts
/// at [`Append::Read`]. A line whose key is taken is left exactly as it is,
/// and the stored line is the answer.
pub fn append(at: Append, reply: Reply) -> (step: Step<Append, (), Unwritten>)
    ensures
        step == append_next(at, reply),
{
    if reply.row() {
        return Step::Commit(());
    }
    match at {
        Append::Read => Step::Ask(Append::Insert),
        Append::Insert => Step::Ask(Append::ReadBack),
        Append::ReadBack => Step::Abort(Unwritten),
    }
}

/// A line that is neither there nor written.
#[derive(Clone, Copy, PartialEq, Eq, Structural, Debug)]
pub struct Unwritten;

impl Unwritten {
    /// What it answers.
    pub fn error(self) -> (error: AppError)
        ensures
            error@ == AppErrorView::Internal("failed to write the ledger line"@),
    {
        AppError::Internal("failed to write the ledger line".to_owned())
    }
}

pub const PRICE_OF_MENU: &'static str =
    "SELECT CAST(COALESCE(sum(price_minor), 0) AS BIGINT) AS total FROM menu_dish WHERE menu = $1";

/// The sum of a menu's dishes.
pub fn price_statement(menu: &str) -> (statement: Statement)
    ensures
        statement@ == crate::page::sends(PRICE_OF_MENU, seq![ParamView::Text(menu@)]),
{
    Statement::new(PRICE_OF_MENU, vec![Param::Text(menu.to_owned())])
}

/// What a seat costs: nothing where the dishes sum to zero, and otherwise the
/// sum as an amount, or the refusal of a sum that is no amount. `amount` is
/// what checking the sum against the ledger's range gave.
pub fn price_snapshot(total: i64, amount: Result<LedgerAmount, AppError>) -> (price: Result<
    Option<LedgerAmount>,
    AppError,
>)
    ensures
        price == (if total == 0 {
            Ok::<Option<LedgerAmount>, AppError>(None)
        } else {
            match amount {
                Ok(amount) => Ok(Some(amount)),
                Err(error) => Err(error),
            }
        }),
{
    if total == 0 {
        return Ok(None);
    }
    match amount {
        Ok(amount) => Ok(Some(amount)),
        Err(error) => Err(error),
    }
}

pub const LIST_FOR_STUDENT_FROM: &'static str =
    "meal_ledger WHERE student = $1";

pub const LIST_FOR_STUDENT_ORDER: &'static str = "ORDER BY created_at DESC, id DESC";

/// The read of a student's statement, newest first.
pub fn list_for_student(
    student: UserId,
    limit: Option<i64>,
    offset: i64,
) -> (both: (Statement, Option<Statement>))
    ensures
        crate::page::pages(
            both,
            LIST_FOR_STUDENT_FROM@,
            LIST_FOR_STUDENT_ORDER@,
            seq![ParamView::Uuid(student.0)],
            limit,
            offset,
        ),
{
    let binds: Vec<Param> = vec![Param::Uuid(student.0)];
    assert(crate::page::bound(binds@) =~= seq![ParamView::Uuid(student.0)]);
    paged(LIST_FOR_STUDENT_FROM, LIST_FOR_STUDENT_ORDER, binds, limit, offset)
}

/// The total of one kind on a student's statement.
#[derive(Clone, Copy, PartialEq, Eq, Structural, Debug)]
pub struct KindTotal {
    pub kind: MealLedgerKind,
    pub total: i64,
}

pub const KIND_TOTALS: &'static str =
    "SELECT kind, CAST(sum(amount_minor) AS BIGINT) AS total FROM meal_ledger WHERE student = \
     $1 GROUP BY kind";

/// The totals of a student's statement, one for each kind.
pub fn balance_statement(student: UserId) -> (statement: Statement)
    ensures
        statement@ == crate::page::sends(KIND_TOTALS, seq![ParamView::Uuid(student.0)]),
{
    Statement::new(KIND_TOTALS, vec![Param::Uuid(student.0)])
}

/// Credits and reversals less charges.
pub open spec fn balance(totals: Seq<KindTotal>) -> int
    decreases totals.len(),
{
    if totals.len() == 0 {
        0
    } else {
        balance(totals.drop_last()) + totals.last().kind.signed() * totals.last().total
    }
}

/// Whether a balance and every sum on the way to it fits the machine's range.
pub open spec fn balance_fits(totals: Seq<KindTotal>) -> bool {
    &&& forall|i: int|
        0 <= i < totals.len() && (#[trigger] totals[i]).kind.signed() == -1 ==> totals[i].total
            != i64::MIN
    &&& forall|n: int|
        0 <= n <= totals.len() ==> i64::MIN <= balance(#[trigger] totals.take(n)) <= i64::MAX
}

/// The derived balance: credits and reversals less charges, in minor units.
/// Negative means the student owes the school.
pub fn balance_of(totals: &Vec<KindTotal>) -> (sum: i64)
    requires
        balance_fits(totals@),
    ensures
        sum == balance(totals@),
{
    let mut sum: i64 = 0;
    let mut i: usize = 0;
    assert(totals@.take(0) =~= Seq::empty());
    while i < totals.len()
        invariant
            0 <= i <= totals.len(),
            balance_fits(totals@),
            sum == balance(totals@.take(i as int)),
        decreases totals.len() - i,
    {
        let row = totals[i];
        let ghost next = totals@.take(i + 1);
        assert(next.drop_last() =~= totals@.take(i as int));
        assert(next.last() == row);
        assert(i64::MIN <= balance(next) <= i64::MAX);
        assert(row.kind.signed() == -1 ==> totals@[i as int].total != i64::MIN);
        let sign: i64 = row.kind.sign();
        let signed: i64 = if sign == 1 {
            row.total
        } else {
            -row.total
        };
        assert(signed == row.kind.signed() * row.total) by (nonlinear_arith)
            requires
                sign == row.kind.signed(),
                sign == 1 || sign == -1,
                signed == (if sign == 1 {
                    row.total as int
                } else {
                    -(row.total as int)
                }),
        ;
        sum = sum + signed;
        i += 1;
    }
    assert(totals@.take(totals.len() as int) =~= totals@);
    sum
}

/// A balance adds up: that of two statements together is the sum of theirs.
pub proof fn law_balance_adds_up(a: Seq<KindTotal>, b: Seq<KindTotal>)
    ensures
        balance(a + b) == balance(a) + balance(b),
    decreases b.len(),
{
    if b.len() == 0 {
        assert(a + b =~= a);
    } else {
        assert((a + b).drop_last() =~= a + b.drop_last());
        assert((a + b).last() == b.last());
        law_balance_adds_up(a, b.drop_last());
    }
}

/// A stored line.
pub struct LineRow {
    pub student: UserId,
    pub kind: MealLedgerKind,
    pub amount: int,
}

/// What an append leaves in the ledger: an existing key keeps its line.
pub open spec fn appended(
    ledger: Map<Seq<char>, LineRow>,
    id: Seq<char>,
    line: LineRow,
) -> Map<Seq<char>, LineRow> {
    if ledger.contains_key(id) {
        ledger
    } else {
        ledger.insert(id, line)
    }
}

/// What each statement of an append does to the ledger, and what it replies.
pub open spec fn append_effect(
    ledger: Map<Seq<char>, LineRow>,
    id: Seq<char>,
    line: LineRow,
    at: Append,
) -> (Map<Seq<char>, LineRow>, Reply) {
    match at {
        Append::Insert => if ledger.contains_key(id) {
            (ledger, Reply::Empty)
        } else {
            (ledger.insert(id, line), Reply::Row)
        },
        _ => (
            ledger,
            if ledger.contains_key(id) {
                Reply::Row
            } else {
                Reply::Empty
            },
        ),
    }
}

/// A whole append against the ledger.
pub open spec fn append_run(
    ledger: Map<Seq<char>, LineRow>,
    id: Seq<char>,
    line: LineRow,
) -> (Map<Seq<char>, LineRow>, Step<Append, (), Unwritten>) {
    crate::transaction::run(
        ledger,
        Step::Ask(Append::Read),
        |at: Append, reply: Reply| append_next(at, reply),
        |lines: Map<Seq<char>, LineRow>, at: Append| append_effect(lines, id, line, at),
        3,
    )
}

/// An append answers, leaves one line under its key, never edits a line that
/// was there, and changes nothing when it is replayed.
pub proof fn law_append_is_idempotent(
    ledger: Map<Seq<char>, LineRow>,
    id: Seq<char>,
    line: LineRow,
    again: LineRow,
)
    ensures
        append_run(ledger, id, line).1 is Commit,
        append_run(ledger, id, line).0 == appended(ledger, id, line),
        appended(appended(ledger, id, line), id, again) == appended(ledger, id, line),
        ledger.contains_key(id) ==> appended(ledger, id, line) == ledger,
{
    reveal_with_fuel(crate::transaction::run, 4);
}

/// What a line adds to a student's balance.
pub open spec fn line_amount(student: UserId) -> spec_fn(Seq<char>, LineRow) -> int {
    |id: Seq<char>, line: LineRow|
        if line.student == student {
            line.kind.signed() * line.amount
        } else {
            0
        }
}

/// A student's balance over the stored lines.
pub open spec fn stored_balance(ledger: Map<Seq<char>, LineRow>, student: UserId) -> int {
    crate::tally::total(ledger, line_amount(student))
}

/// What [`INSERT_LINE`] says.
pub open spec fn insert_line_reading() -> Storing {
    Storing {
        head: "INSERT INTO "@,
        table: "meal_ledger"@,
        columns: seq!["id"@, "student"@, "kind"@, "amount_minor"@, "source"@, "method"@, "note"@, "recorded_by"@, "created_at"@],
        values: seq![Term::Bind(1), Term::Bind(2), Term::Bind(3), Term::Bind(4), Term::Bind(5), Term::Bind(6), Term::Bind(7), Term::Bind(8), Term::Bind(9)],
        selected: false,
        conflict: Conflict::Stays(seq!["id"@]),
        rest: Text::End,
    }
}

proof fn lemma_insert_line_reads()
    ensures
        crate::sql::spells(INSERT_LINE@, 0, insert_line_reading().text()),
{
    reveal_strlit("INSERT INTO meal_ledger (id, student, kind, amount_minor, source, method, note, recorded_by, created_at) VALUES ($1, $2, $3, $4, $5, $6, $7, $8, $9) ON CONFLICT (id) DO NOTHING");
    reveal_strlit("INSERT INTO ");
    reveal_strlit("meal_ledger");
    reveal_strlit(" (");
    reveal_strlit("id");
    reveal_strlit(", ");
    reveal_strlit("student");
    reveal_strlit("kind");
    reveal_strlit("amount_minor");
    reveal_strlit("source");
    reveal_strlit("method");
    reveal_strlit("note");
    reveal_strlit("recorded_by");
    reveal_strlit("created_at");
    reveal_strlit(") VALUES (");
    reveal_strlit("$");
    reveal_strlit(")");
    reveal_strlit(" ON CONFLICT (");
    reveal_strlit(") DO NOTHING");
    reveal(crate::sql::Storing::text);
    reveal_with_fuel(crate::sql::names_text, 10);
    reveal_with_fuel(crate::sql::values_text, 10);
    reveal_with_fuel(crate::sql::stands, 15);
    reveal_with_fuel(crate::sql::spells_by, 43);
    crate::sql::lemma_spells_by(INSERT_LINE@, 0, insert_line_reading().text(), crate::sql::cut(12, crate::sql::cut(23, crate::sql::cut(25, crate::sql::cut(27, crate::sql::cut(29, crate::sql::cut(36, crate::sql::cut(38, crate::sql::cut(42, crate::sql::cut(44, crate::sql::cut(56, crate::sql::cut(58, crate::sql::cut(64, crate::sql::cut(66, crate::sql::cut(72, crate::sql::cut(74, crate::sql::cut(78, crate::sql::cut(80, crate::sql::cut(91, crate::sql::cut(93, crate::sql::cut(103, crate::sql::cut(113, crate::sql::cut(115, crate::sql::cut(117, crate::sql::cut(119, crate::sql::cut(121, crate::sql::cut(123, crate::sql::cut(125, crate::sql::cut(127, crate::sql::cut(129, crate::sql::cut(131, crate::sql::cut(133, crate::sql::cut(135, crate::sql::cut(137, crate::sql::cut(139, crate::sql::cut(141, crate::sql::cut(143, crate::sql::cut(145, crate::sql::cut(147, crate::sql::cut(148, crate::sql::cut(162, crate::sql::cut(164, crate::sql::cut(176, Cuts::Last)))))))))))))))))))))))))))))))))))))))))));
}

/// What [`APPEND_LINE`] says.
pub open spec fn append_line_reading() -> Storing {
    Storing {
        head: "INSERT INTO "@,
        table: "meal_ledger"@,
        columns: seq!["id"@, "student"@, "kind"@, "amount_minor"@, "source"@, "method"@, "note"@, "recorded_by"@, "created_at"@],
        values: seq![Term::Bind(1), Term::Bind(2), Term::Bind(3), Term::Bind(4), Term::Bind(5), Term::Bind(6), Term::Bind(7), Term::Bind(8), Term::Bind(9)],
        selected: false,
        conflict: Conflict::Stays(seq!["id"@]),
        rest: crate::sql::returning(),
    }
}

proof fn lemma_append_line_reads()
    ensures
        crate::sql::spells(APPEND_LINE@, 0, append_line_reading().text()),
{
    reveal_strlit("INSERT INTO meal_ledger (id, student, kind, amount_minor, source, method, note, recorded_by, created_at) VALUES ($1, $2, $3, $4, $5, $6, $7, $8, $9) ON CONFLICT (id) DO NOTHING RETURNING id, student, kind, amount_minor, source, method, note, recorded_by, created_at");
    reveal_strlit("INSERT INTO ");
    reveal_strlit("meal_ledger");
    reveal_strlit(" (");
    reveal_strlit("id");
    reveal_strlit(", ");
    reveal_strlit("student");
    reveal_strlit("kind");
    reveal_strlit("amount_minor");
    reveal_strlit("source");
    reveal_strlit("method");
    reveal_strlit("note");
    reveal_strlit("recorded_by");
    reveal_strlit("created_at");
    reveal_strlit(") VALUES (");
    reveal_strlit("$");
    reveal_strlit(")");
    reveal_strlit(" ON CONFLICT (");
    reveal_strlit(") DO NOTHING");
    reveal_strlit(" RETURNING ");
    reveal(crate::sql::Storing::text);
    reveal_with_fuel(crate::sql::names_text, 10);
    reveal_with_fuel(crate::sql::values_text, 10);
    reveal_with_fuel(crate::sql::stands, 15);
    reveal_with_fuel(crate::sql::spells_by, 44);
    crate::sql::lemma_spells_by(APPEND_LINE@, 0, append_line_reading().text(), crate::sql::cut(12, crate::sql::cut(23, crate::sql::cut(25, crate::sql::cut(27, crate::sql::cut(29, crate::sql::cut(36, crate::sql::cut(38, crate::sql::cut(42, crate::sql::cut(44, crate::sql::cut(56, crate::sql::cut(58, crate::sql::cut(64, crate::sql::cut(66, crate::sql::cut(72, crate::sql::cut(74, crate::sql::cut(78, crate::sql::cut(80, crate::sql::cut(91, crate::sql::cut(93, crate::sql::cut(103, crate::sql::cut(113, crate::sql::cut(115, crate::sql::cut(117, crate::sql::cut(119, crate::sql::cut(121, crate::sql::cut(123, crate::sql::cut(125, crate::sql::cut(127, crate::sql::cut(129, crate::sql::cut(131, crate::sql::cut(133, crate::sql::cut(135, crate::sql::cut(137, crate::sql::cut(139, crate::sql::cut(141, crate::sql::cut(143, crate::sql::cut(145, crate::sql::cut(147, crate::sql::cut(148, crate::sql::cut(162, crate::sql::cut(164, crate::sql::cut(176, crate::sql::cut(187, Cuts::Last))))))))))))))))))))))))))))))))))))))))))));
}

/// A line lands column by column as it is: its key, student, kind, amount,
/// source, method, note, recorder and moment. A line of the same key stays.
pub proof fn law_line_lands_in_its_columns(line: MealLedger)
    ensures
        insert_line_reading().is_read(crate::page::sends(INSERT_LINE, line.line_binds())),
        insert_line_reading().stores(line.line_binds()) == line.columns(),
        insert_line_reading().conflict == Conflict::Stays(seq!["id"@]),
        append_line_reading().is_read(Append::Insert.asks(line)),
        append_line_reading().stores(Append::Insert.asks(line).binds) == line.columns(),
        append_line_reading().conflict == Conflict::Stays(seq!["id"@]),
{
    lemma_insert_line_reads();
    lemma_append_line_reads();
}

impl MealLedger {
    /// The line as its table holds it, column by column.
    pub open spec fn columns(self) -> Seq<(Seq<char>, Cell)> {
        seq![
            ("id"@, Cell::Text(self.id@)),
            ("student"@, Cell::Uuid(self.student.0)),
            ("kind"@, Cell::Text(self.kind.name())),
            ("amount_minor"@, Cell::Int(self.amount_minor.0 as int)),
            ("source"@, crate::sql::opt_text(crate::page::opt_string_view(self.source))),
            ("method"@, crate::sql::opt_text(crate::page::opt_string_view(self.method))),
            ("note"@, crate::sql::opt_text(crate::page::opt_string_view(self.note))),
            ("recorded_by"@, Cell::Uuid(self.recorded_by.0)),
            ("created_at"@, Cell::Int(self.created_at.0 as int)),
        ]
    }
}

/// What [`READ_LINE`] says.
pub open spec fn read_line_reading() -> Picking {
    Picking {
        skip: 85,
        head: " FROM "@,
        columns: Seq::empty(),
        table: "meal_ledger"@,
        conditions: seq![crate::sql::is_bound("id"@, 1)],
        rest: Text::End,
    }
}

proof fn lemma_read_line_reads()
    ensures
        crate::sql::spells(READ_LINE@, 85, read_line_reading().text()),
{
    reveal_strlit("SELECT id, student, kind, amount_minor, source, method, note, recorded_by, created_at FROM meal_ledger WHERE id = $1");
    reveal_strlit(" FROM ");
    reveal_strlit("meal_ledger");
    reveal_strlit(" WHERE ");
    reveal_strlit("id");
    reveal_strlit(" = ");
    reveal_strlit("$");
    reveal(crate::sql::Picking::text);
    reveal_with_fuel(crate::sql::where_text, 2);
    reveal_with_fuel(crate::sql::stands, 12);
    reveal_with_fuel(crate::sql::spells_by, 7);
    crate::sql::lemma_spells_by(READ_LINE@, 85, read_line_reading().text(), crate::sql::cut(91, crate::sql::cut(102, crate::sql::cut(109, crate::sql::cut(111, crate::sql::cut(114, crate::sql::cut(116, Cuts::Last)))))));
}

/// [`read`] reads the rows it names and no other.
pub proof fn law_read_reads_its_rows(
    id: &str,
    sent: Statement,
    row: Row,
)
    requires
        call_ensures(read, (id,), sent),
    ensures
        read_line_reading().is_read(sent@),
        read_line_reading().picks(sent@.binds, row) == (row["id"@] == Cell::Text(id@)),
{
    lemma_read_line_reads();
    reveal_with_fuel(crate::sql::all_hold, 2);
}

/// What [`PRICE_OF_MENU`] says.
pub open spec fn price_of_menu_reading() -> Picking {
    Picking {
        skip: 61,
        head: " FROM "@,
        columns: Seq::empty(),
        table: "menu_dish"@,
        conditions: seq![crate::sql::is_bound("menu"@, 1)],
        rest: Text::End,
    }
}

proof fn lemma_price_of_menu_reads()
    ensures
        crate::sql::spells(PRICE_OF_MENU@, 61, price_of_menu_reading().text()),
{
    reveal_strlit("SELECT CAST(COALESCE(sum(price_minor), 0) AS BIGINT) AS total FROM menu_dish WHERE menu = $1");
    reveal_strlit(" FROM ");
    reveal_strlit("menu_dish");
    reveal_strlit(" WHERE ");
    reveal_strlit("menu");
    reveal_strlit(" = ");
    reveal_strlit("$");
    reveal(crate::sql::Picking::text);
    reveal_with_fuel(crate::sql::where_text, 2);
    reveal_with_fuel(crate::sql::stands, 10);
    reveal_with_fuel(crate::sql::spells_by, 7);
    crate::sql::lemma_spells_by(PRICE_OF_MENU@, 61, price_of_menu_reading().text(), crate::sql::cut(67, crate::sql::cut(76, crate::sql::cut(83, crate::sql::cut(87, crate::sql::cut(90, crate::sql::cut(92, Cuts::Last)))))));
}

/// [`price_statement`] reads the rows it names and no other.
pub proof fn law_price_statement_reads_its_rows(
    menu: &str,
    sent: Statement,
    row: Row,
)
    requires
        call_ensures(price_statement, (menu,), sent),
    ensures
        price_of_menu_reading().is_read(sent@),
        price_of_menu_reading().picks(sent@.binds, row) == (row["menu"@] == Cell::Text(menu@)),
{
    lemma_price_of_menu_reads();
    reveal_with_fuel(crate::sql::all_hold, 2);
}

/// What [`KIND_TOTALS`] says.
pub open spec fn kind_totals_reading() -> Picking {
    Picking {
        skip: 55,
        head: " FROM "@,
        columns: Seq::empty(),
        table: "meal_ledger"@,
        conditions: seq![crate::sql::is_bound("student"@, 1)],
        rest: crate::sql::before(" GROUP BY kind"@, Text::End),
    }
}

proof fn lemma_kind_totals_reads()
    ensures
        crate::sql::spells(KIND_TOTALS@, 55, kind_totals_reading().text()),
{
    reveal_strlit("SELECT kind, CAST(sum(amount_minor) AS BIGINT) AS total FROM meal_ledger WHERE student = $1 GROUP BY kind");
    reveal_strlit(" FROM ");
    reveal_strlit("meal_ledger");
    reveal_strlit(" WHERE ");
    reveal_strlit("student");
    reveal_strlit(" = ");
    reveal_strlit("$");
    reveal_strlit(" GROUP BY kind");
    reveal(crate::sql::Picking::text);
    reveal_with_fuel(crate::sql::where_text, 2);
    reveal_with_fuel(crate::sql::stands, 15);
    reveal_with_fuel(crate::sql::spells_by, 8);
    crate::sql::lemma_spells_by(KIND_TOTALS@, 55, kind_totals_reading().text(), crate::sql::cut(61, crate::sql::cut(72, crate::sql::cut(79, crate::sql::cut(86, crate::sql::cut(89, crate::sql::cut(91, crate::sql::cut(105, Cuts::Last))))))));
}

/// [`balance_statement`] reads the rows it names and no other.
pub proof fn law_balance_statement_reads_its_rows(
    student: UserId,
    sent: Statement,
    row: Row,
)
    requires
        call_ensures(balance_statement, (student,), sent),
    ensures
        kind_totals_reading().is_read(sent@),
        kind_totals_reading().picks(sent@.binds, row) == (row["student"@] == Cell::Uuid(student.0)),
{
    lemma_kind_totals_reads();
    reveal_with_fuel(crate::sql::all_hold, 2);
}

/// What [`LIST_FOR_STUDENT_FROM`] says.
pub open spec fn list_for_student_from_reading() -> Picking {
    Picking {
        skip: 0,
        head: ""@,
        columns: Seq::empty(),
        table: "meal_ledger"@,
        conditions: seq![crate::sql::is_bound("student"@, 1)],
        rest: Text::End,
    }
}

proof fn lemma_list_for_student_from_reads()
    ensures
        crate::sql::spells(LIST_FOR_STUDENT_FROM@, 0, list_for_student_from_reading().text()),
{
    reveal_strlit("meal_ledger WHERE student = $1");
    reveal_strlit("");
    reveal_strlit("meal_ledger");
    reveal_strlit(" WHERE ");
    reveal_strlit("student");
    reveal_strlit(" = ");
    reveal_strlit("$");
    reveal(crate::sql::Picking::text);
    reveal_with_fuel(crate::sql::where_text, 2);
    reveal_with_fuel(crate::sql::stands, 12);
    reveal_with_fuel(crate::sql::spells_by, 7);
    crate::sql::lemma_spells_by(LIST_FOR_STUDENT_FROM@, 0, list_for_student_from_reading().text(), crate::sql::cut(0, crate::sql::cut(11, crate::sql::cut(18, crate::sql::cut(25, crate::sql::cut(28, crate::sql::cut(30, Cuts::Last)))))));
}

/// [`list_for_student`] pages the rows it names and no other.
pub proof fn law_list_for_student_reads_its_rows(
    student: UserId,
    limit: Option<i64>,
    offset: i64,
    both: (Statement, Option<Statement>),
    row: Row,
)
    requires
        call_ensures(list_for_student, (student, limit, offset), both),
    ensures
        crate::sql::spells(
            both.0@.sql,
            0,
            crate::sql::before("SELECT * FROM "@, crate::sql::opened(list_for_student_from_reading().text())),
        ),
        list_for_student_from_reading().picks(both.0@.binds, row) == (row["student"@] == Cell::Uuid(student.0)),
{
    lemma_list_for_student_from_reads();
    reveal(crate::sql::Picking::text);
    reveal_with_fuel(crate::sql::where_text, 2);
    reveal_with_fuel(crate::sql::is_open, 7);
    reveal_with_fuel(crate::sql::all_hold, 2);
    crate::page::law_page_reads_its_rows(
        both,
        LIST_FOR_STUDENT_FROM@,
        LIST_FOR_STUDENT_ORDER@,
        seq![ParamView::Uuid(student.0)],
        limit,
        offset,
        list_for_student_from_reading().text(),
    );
}

} // verus!
