//! What a statement does, read off its text: which columns it writes with
//! which of the bound values, and which rows it picks.
//!
//! A reading is a statement taken apart: its table, its columns, its values
//! and its conditions. `text` spells a reading out, and a reading is that of
//! a statement where its text is the statement's. `picks` and `writes` carry a
//! reading out on a row, each placeholder standing for the value bound at its
//! place.

use vstd::prelude::*;

use crate::page::{Bits, ParamView, StatementView, Uuid};

verus! {

/// The value of a column.
#[verifier::ext_equal]
pub enum Cell {
    Null,
    Int(int),
    Bool(bool),
    Text(Seq<char>),
    Uuid(Uuid),
    Uuids(Seq<Uuid>),
    Texts(Seq<Seq<char>>),
    Json(serde_json::Value),
    Real(Bits),
}

impl Cell {
    /// The number of a cell that holds one.
    pub open spec fn number(self) -> int {
        self->Int_0
    }
}

/// A row: the value of each of its columns.
pub type Row = Map<Seq<char>, Cell>;

/// The value a parameter gives a column: one that is absent is `NULL`.
pub open spec fn cell(value: ParamView) -> Cell {
    match value {
        ParamView::I64(value) => Cell::Int(value as int),
        ParamView::Bool(value) => Cell::Bool(value),
        ParamView::Text(value) => Cell::Text(value),
        ParamView::Uuid(value) => Cell::Uuid(value),
        ParamView::OptUuid(value) => opt_uuid(value),
        ParamView::OptText(value) => opt_text(value),
        ParamView::OptI64(value) => opt_int(value),
        ParamView::Uuids(value) => Cell::Uuids(value),
        ParamView::Texts(value) => Cell::Texts(value),
        ParamView::OptTexts(value) => opt_texts(value),
        ParamView::Json(value) => Cell::Json(value),
        ParamView::OptJson(value) => opt_json(value),
        ParamView::Real(value) => Cell::Real(value),
        ParamView::OptReal(value) => opt_real(value),
        ParamView::I16(value) => Cell::Int(value as int),
        ParamView::I32(value) => Cell::Int(value as int),
    }
}

/// A text, or `NULL`.
pub open spec fn opt_text(value: Option<Seq<char>>) -> Cell {
    match value {
        Some(value) => Cell::Text(value),
        None => Cell::Null,
    }
}

/// A number, or `NULL`.
pub open spec fn opt_int(value: Option<i64>) -> Cell {
    match value {
        Some(value) => Cell::Int(value as int),
        None => Cell::Null,
    }
}

/// A key, or `NULL`.
pub open spec fn opt_uuid(value: Option<Uuid>) -> Cell {
    match value {
        Some(value) => Cell::Uuid(value),
        None => Cell::Null,
    }
}

/// A floating-point number, or `NULL`.
pub open spec fn opt_real(value: Option<Bits>) -> Cell {
    match value {
        Some(value) => Cell::Real(value),
        None => Cell::Null,
    }
}

/// Texts, or `NULL`.
pub open spec fn opt_texts(value: Option<Seq<Seq<char>>>) -> Cell {
    match value {
        Some(value) => Cell::Texts(value),
        None => Cell::Null,
    }
}

/// A document, or `NULL`.
pub open spec fn opt_json(value: Option<serde_json::Value>) -> Cell {
    match value {
        Some(value) => Cell::Json(value),
        None => Cell::Null,
    }
}

/// A text in pieces; what stands behind an open one is not read.
pub enum Text {
    End,
    Open,
    Piece(Seq<char>, Box<Text>),
}

/// A piece before a text.
pub open spec fn before(piece: Seq<char>, rest: Text) -> Text {
    Text::Piece(piece, Box::new(rest))
}

/// Whether `piece`, from its `k`-th character on, stands in `sql` at `at`.
#[verifier::opaque]
pub open spec fn stands(sql: Seq<char>, at: int, piece: Seq<char>, k: int) -> bool
    decreases piece.len() - k,
{
    k >= piece.len() || (at + k < sql.len() && sql[at + k] == piece[k] && stands(
        sql,
        at,
        piece,
        k + 1,
    ))
}

/// Whether `sql`, from `at` on, is the pieces of `text` one after the other.
#[verifier::opaque]
pub open spec fn spells(sql: Seq<char>, at: int, text: Text) -> bool
    decreases text,
{
    match text {
        Text::End => at == sql.len(),
        Text::Open => true,
        Text::Piece(piece, rest) => stands(sql, at, piece, 0) && spells(
            sql,
            at + piece.len(),
            *rest,
        ),
    }
}

/// The pieces of a text, one after the other.
pub open spec fn flat(text: Text) -> Seq<char>
    decreases text,
{
    match text {
        Text::Piece(piece, rest) => piece + flat(*rest),
        _ => Seq::empty(),
    }
}

/// Whether a text is open at its end.
pub open spec fn is_open(text: Text) -> bool
    decreases text,
{
    match text {
        Text::Piece(piece, rest) => is_open(*rest),
        Text::Open => true,
        Text::End => false,
    }
}

/// A text with its end open.
pub open spec fn opened(text: Text) -> Text
    decreases text,
{
    match text {
        Text::Piece(piece, rest) => before(piece, opened(*rest)),
        _ => Text::Open,
    }
}

/// A statement is its closed text, piece by piece.
proof fn lemma_flat(sql: Seq<char>, at: int, text: Text)
    requires
        0 <= at,
        spells(sql, at, text),
        !is_open(text),
    ensures
        at <= sql.len(),
        sql.skip(at) == flat(text),
        flat(opened(text)) == flat(text),
        is_open(opened(text)),
    decreases text,
{
    reveal_with_fuel(spells, 2);
    match text {
        Text::Piece(piece, rest) => {
            lemma_flat(sql, at + piece.len(), *rest);
            assert forall|i: int| 0 <= i < piece.len() implies at + i < sql.len() && sql[at + i]
                == #[trigger] piece[i] by {
                lemma_stood(sql, at, piece, 0, i);
            }
            assert(sql.skip(at) =~= piece + sql.skip(at + piece.len()));
            assert(flat(opened(text)) == piece + flat(opened(*rest)));
        },
        _ => {
            assert(sql.skip(at) =~= Seq::empty());
        },
    }
}

proof fn lemma_stood(sql: Seq<char>, at: int, piece: Seq<char>, k: int, i: int)
    requires
        stands(sql, at, piece, k),
        0 <= k <= i < piece.len(),
    ensures
        at + i < sql.len(),
        sql[at + i] == piece[i],
    decreases piece.len() - k,
{
    reveal_with_fuel(stands, 2);
    if k < i {
        lemma_stood(sql, at, piece, k + 1, i);
    }
}

/// A text in the middle of a statement is read there.
pub proof fn lemma_spells_within(head: Seq<char>, sql: Seq<char>, tail: Seq<char>, text: Text)
    requires
        spells(sql, 0, text),
        !is_open(text),
    ensures
        spells(head + sql + tail, 0, before(head, opened(text))),
{
    lemma_flat(sql, 0, text);
    assert(sql.skip(0) =~= sql);
    let whole = before(head, opened(text));
    reveal_with_fuel(flat, 2);
    reveal_with_fuel(is_open, 2);
    assert(flat(whole) == head + flat(opened(text)));
    let all = head + sql + tail;
    assert(all.skip(0) =~= flat(whole) + tail);
    lemma_spells_flat(all, 0, whole, tail);
}

proof fn lemma_stands(sql: Seq<char>, at: int, piece: Seq<char>, k: int)
    requires
        0 <= at,
        0 <= k,
        at + piece.len() <= sql.len(),
        sql.subrange(at, at + piece.len()) == piece,
    ensures
        stands(sql, at, piece, k),
    decreases piece.len() - k,
{
    reveal_with_fuel(stands, 2);
    if k < piece.len() {
        assert(sql.subrange(at, at + piece.len())[k] == sql[at + k]);
        lemma_stands(sql, at, piece, k + 1);
    }
}

/// A text that ends in `text`, with `tail` behind where it is open, is spelled
/// by it.
pub proof fn lemma_spells_flat(sql: Seq<char>, at: int, text: Text, tail: Seq<char>)
    requires
        0 <= at <= sql.len(),
        sql.skip(at) == flat(text) + tail,
        !is_open(text) ==> tail.len() == 0,
    ensures
        spells(sql, at, text),
    decreases text,
{
    reveal_with_fuel(spells, 2);
    match text {
        Text::Piece(piece, rest) => {
            let n = piece.len();
            let after = sql.skip(at);
            assert(after.len() == n + flat(*rest).len() + tail.len());
            assert(after.subrange(0, n as int) =~= piece);
            assert(sql.subrange(at, at + n) =~= after.subrange(0, n as int));
            lemma_stands(sql, at, piece, 0);
            assert(sql.skip(at + n) =~= after.skip(n as int));
            assert(after.skip(n as int) =~= flat(*rest) + tail);
            lemma_spells_flat(sql, at + n, *rest, tail);
        },
        _ => {},
    }
}

/// Where the pieces of a text end.
pub enum Cuts {
    Last,
    /// What is left is read apart.
    Rest,
    At(int, Box<Cuts>),
}

/// An end before others.
pub open spec fn cut(at: int, rest: Cuts) -> Cuts {
    Cuts::At(at, Box::new(rest))
}

/// Whether `sql`, from `at` on, is the pieces of `text`, each up to its cut.
#[verifier::opaque]
pub open spec fn spells_by(sql: Seq<char>, at: int, text: Text, cuts: Cuts) -> bool
    decreases text,
{
    match (text, cuts) {
        (_, Cuts::Rest) => spells(sql, at, text),
        (Text::End, _) => at == sql.len(),
        (Text::Open, _) => true,
        (Text::Piece(piece, rest), Cuts::At(next, more)) => next == at + piece.len() && stands(
            sql,
            at,
            piece,
            0,
        ) && spells_by(sql, next, *rest, *more),
        _ => false,
    }
}

/// A text that is cut right is spelled.
pub proof fn lemma_spells_by(sql: Seq<char>, at: int, text: Text, cuts: Cuts)
    requires
        spells_by(sql, at, text, cuts),
    ensures
        spells(sql, at, text),
    decreases text,
{
    reveal_with_fuel(spells, 2);
    reveal_with_fuel(spells_by, 2);
    match (text, cuts) {
        (Text::Piece(piece, rest), Cuts::At(next, more)) => {
            lemma_spells_by(sql, next, *rest, *more);
        },
        _ => {},
    }
}

/// A column, the `n`-th bound value, or a value that the text itself names.
pub enum Term {
    Column(Seq<char>),
    /// A column under its table's name.
    Of(Seq<char>, Seq<char>),
    Bind(nat),
    /// The `n`-th bound value under a type's name.
    Cast(nat, Seq<char>),
    Word(Seq<char>, Cell),
}

impl Term {
    pub open spec fn text(self, rest: Text) -> Text {
        match self {
            Term::Column(name) => before(name, rest),
            Term::Of(table, name) => before(table, before("."@, before(name, rest))),
            Term::Bind(n) => before(crate::text::placeholder(n), rest),
            Term::Cast(n, kind) => before(crate::text::placeholder(n), before("::"@, before(kind, rest))),
            Term::Word(text, value) => before(text, rest),
        }
    }

    /// The value in a row, under the bound values.
    pub open spec fn value(self, binds: Seq<ParamView>, row: Row) -> Cell {
        match self {
            Term::Column(name) => row[name],
            Term::Of(table, name) => row[name],
            Term::Bind(n) => cell(binds[n - 1]),
            Term::Cast(n, kind) => cell(binds[n - 1]),
            Term::Word(text, value) => value,
        }
    }
}

/// What a column is set to or compared with.
pub enum Expr {
    Is(Term),
    Plus(Term, Term),
    Minus(Term, Term),
    /// `GREATEST(a - b, 0)`.
    Floored(Term, Term),
    /// `GREATEST(a + b, 0)`.
    Raised(Term, Term),
    Greatest(Term, Term),
    Coalesce(Term, Term),
    /// `COALESCE(a, 0) + 1`.
    Revised(Term),
    /// `GREATEST(a, b + 1)`.
    Later(Term, Term),
    /// `CASE WHEN a THEN b ELSE c END`.
    Chosen(Term, Term, Term),
}

impl Expr {
    pub open spec fn text(self, rest: Text) -> Text {
        match self {
            Expr::Is(a) => a.text(rest),
            Expr::Plus(a, b) => a.text(before(" + "@, b.text(rest))),
            Expr::Minus(a, b) => a.text(before(" - "@, b.text(rest))),
            Expr::Floored(a, b) => before(
                "GREATEST("@,
                a.text(before(" - "@, b.text(before(", 0)"@, rest)))),
            ),
            Expr::Raised(a, b) => before(
                "GREATEST("@,
                a.text(before(" + "@, b.text(before(", 0)"@, rest)))),
            ),
            Expr::Greatest(a, b) => before(
                "GREATEST("@,
                a.text(before(", "@, b.text(before(")"@, rest)))),
            ),
            Expr::Coalesce(a, b) => before(
                "COALESCE("@,
                a.text(before(", "@, b.text(before(")"@, rest)))),
            ),
            Expr::Revised(a) => before("COALESCE("@, a.text(before(", 0) + 1"@, rest))),
            Expr::Chosen(a, b, c) => before(
                "CASE WHEN "@,
                a.text(before(" THEN "@, b.text(before(" ELSE "@, c.text(before(" END"@, rest)))))),
            ),
            Expr::Later(a, b) => before(
                "GREATEST("@,
                a.text(before(", "@, b.text(before(" + 1)"@, rest)))),
            ),
        }
    }

    /// The value in a row, under the bound values.
    pub open spec fn value(self, binds: Seq<ParamView>, row: Row) -> Cell {
        match self {
            Expr::Is(a) => a.value(binds, row),
            Expr::Plus(a, b) => Cell::Int(a.value(binds, row).number() + b.value(binds, row).number()),
            Expr::Minus(a, b) => Cell::Int(a.value(binds, row).number() - b.value(binds, row).number()),
            Expr::Floored(a, b) => Cell::Int(
                crate::tally::floored(a.value(binds, row).number() - b.value(binds, row).number()),
            ),
            Expr::Raised(a, b) => Cell::Int(
                crate::tally::floored(a.value(binds, row).number() + b.value(binds, row).number()),
            ),
            Expr::Greatest(a, b) => if a.value(binds, row).number() >= b.value(binds, row).number() {
                a.value(binds, row)
            } else {
                b.value(binds, row)
            },
            Expr::Coalesce(a, b) => if a.value(binds, row) is Null {
                b.value(binds, row)
            } else {
                a.value(binds, row)
            },
            Expr::Chosen(a, b, c) => if a.value(binds, row) == Cell::Bool(true) {
                b.value(binds, row)
            } else {
                c.value(binds, row)
            },
            Expr::Later(a, b) => if a.value(binds, row).number() >= b.value(binds, row).number() + 1 {
                a.value(binds, row)
            } else {
                Cell::Int(b.value(binds, row).number() + 1)
            },
            Expr::Revised(a) => Cell::Int(
                (if a.value(binds, row) is Null {
                    0
                } else {
                    a.value(binds, row).number()
                }) + 1,
            ),
        }
    }
}

/// Whether a text stands before another or is it, character by character.
pub open spec fn text_at_most(a: Seq<char>, b: Seq<char>) -> bool
    decreases a.len(),
{
    if a.len() == 0 {
        true
    } else if b.len() == 0 {
        false
    } else if a[0] == b[0] {
        text_at_most(a.drop_first(), b.drop_first())
    } else {
        a[0] < b[0]
    }
}

/// Whether a number or a text is at most another.
pub open spec fn at_most(a: Cell, b: Cell) -> bool {
    match (a, b) {
        (Cell::Int(a), Cell::Int(b)) => a <= b,
        (Cell::Text(a), Cell::Text(b)) => text_at_most(a, b),
        _ => false,
    }
}

/// A condition on a row. A comparison with `NULL` does not hold.
pub enum Cond {
    Equal(Expr, Expr),
    Below(Expr, Expr),
    Same(Expr, Expr),
    Other(Expr, Expr),
    Null(Expr),
    NotNull(Expr),
    /// The key is among the bound ones.
    Among(Term, Term),
    /// The list of keys in the column is empty, or holds the bound one.
    OpenTo(Seq<char>, Term),
    AtLeast(Expr, Expr),
    AtMost(Expr, Expr),
    Unlike(Expr, Expr),
    /// The key is none of the bound ones.
    Outside(Term, Term),
    /// The column is one of two words.
    OneOf(Seq<char>, Term, Term),
    /// The bound value is absent, or the column is at least it.
    Since(Term, Seq<char>, Term),
    /// The bound value is absent, or the column is at most it.
    Until(Term, Seq<char>, Term),
}

impl Cond {
    pub open spec fn text(self, rest: Text) -> Text {
        match self {
            Cond::Equal(a, b) => a.text(before(" = "@, b.text(rest))),
            Cond::Below(a, b) => a.text(before(" < "@, b.text(rest))),
            Cond::Same(a, b) => a.text(before(" IS NOT DISTINCT FROM "@, b.text(rest))),
            Cond::Other(a, b) => a.text(before(" IS DISTINCT FROM "@, b.text(rest))),
            Cond::Null(a) => a.text(before(" IS NULL"@, rest)),
            Cond::NotNull(a) => a.text(before(" IS NOT NULL"@, rest)),
            Cond::Among(a, b) => a.text(before(" = ANY("@, b.text(before(")"@, rest)))),
            Cond::AtLeast(a, b) => a.text(before(" >= "@, b.text(rest))),
            Cond::AtMost(a, b) => a.text(before(" <= "@, b.text(rest))),
            Cond::Unlike(a, b) => a.text(before(" <> "@, b.text(rest))),
            Cond::Outside(a, b) => a.text(before(" <> ALL("@, b.text(before(")"@, rest)))),
            Cond::OneOf(column, a, b) => before(
                column,
                before(" IN ("@, a.text(before(", "@, b.text(before(")"@, rest))))),
            ),
            Cond::Since(a, column, b) => before(
                "("@,
                a.text(
                    before(
                        " IS NULL OR "@,
                        before(column, before(" >= "@, b.text(before(")"@, rest)))),
                    ),
                ),
            ),
            Cond::Until(a, column, b) => before(
                "("@,
                a.text(
                    before(
                        " IS NULL OR "@,
                        before(column, before(" <= "@, b.text(before(")"@, rest)))),
                    ),
                ),
            ),
            Cond::OpenTo(column, a) => before(
                "(cardinality("@,
                before(
                    column,
                    before(
                        ") = 0 OR "@,
                        a.text(before(" = ANY("@, before(column, before("))"@, rest)))),
                    ),
                ),
            ),
        }
    }

    pub open spec fn holds(self, binds: Seq<ParamView>, row: Row) -> bool {
        match self {
            Cond::Equal(a, b) => a.value(binds, row) !is Null && a.value(binds, row) == b.value(
                binds,
                row,
            ),
            Cond::Below(a, b) => match (a.value(binds, row), b.value(binds, row)) {
                (Cell::Int(a), Cell::Int(b)) => a < b,
                (Cell::Uuid(a), Cell::Uuid(b)) => a.0 < b.0,
                _ => false,
            },
            Cond::Same(a, b) => a.value(binds, row) == b.value(binds, row),
            Cond::Other(a, b) => a.value(binds, row) != b.value(binds, row),
            Cond::Null(a) => a.value(binds, row) is Null,
            Cond::NotNull(a) => a.value(binds, row) !is Null,
            Cond::Among(a, b) => match (a.value(binds, row), b.value(binds, row)) {
                (Cell::Uuid(key), Cell::Uuids(keys)) => keys.contains(key),
                (Cell::Text(key), Cell::Texts(keys)) => keys.contains(key),
                _ => false,
            },
            Cond::AtLeast(a, b) => a.value(binds, row) !is Null && b.value(binds, row) !is Null
                && at_most(b.value(binds, row), a.value(binds, row)),
            Cond::AtMost(a, b) => a.value(binds, row) !is Null && b.value(binds, row) !is Null
                && at_most(a.value(binds, row), b.value(binds, row)),
            Cond::Unlike(a, b) => a.value(binds, row) !is Null && b.value(binds, row) !is Null
                && a.value(binds, row) != b.value(binds, row),
            Cond::Outside(a, b) => match (a.value(binds, row), b.value(binds, row)) {
                (Cell::Uuid(key), Cell::Uuids(keys)) => !keys.contains(key),
                (Cell::Text(key), Cell::Texts(keys)) => !keys.contains(key),
                _ => false,
            },
            Cond::OneOf(column, a, b) => row[column] !is Null && (row[column] == a.value(
                binds,
                row,
            ) || row[column] == b.value(binds, row)),
            Cond::Since(a, column, b) => a.value(binds, row) is Null || (row[column] !is Null
                && b.value(binds, row) !is Null && at_most(b.value(binds, row), row[column])),
            Cond::Until(a, column, b) => a.value(binds, row) is Null || (row[column] !is Null
                && b.value(binds, row) !is Null && at_most(row[column], b.value(binds, row))),
            Cond::OpenTo(column, a) => match (row[column], a.value(binds, row)) {
                (Cell::Uuids(keys), Cell::Uuid(key)) => keys.len() == 0 || keys.contains(key),
                _ => false,
            },
        }
    }
}

/// That a column is the `n`-th bound value.
pub open spec fn is_bound(column: Seq<char>, n: nat) -> Cond {
    Cond::Equal(Expr::Is(Term::Column(column)), Expr::Is(Term::Bind(n)))
}

/// The `n`-th bound value.
pub open spec fn bind(n: nat) -> Expr {
    Expr::Is(Term::Bind(n))
}

/// A column of the row.
pub open spec fn column(name: Seq<char>) -> Expr {
    Expr::Is(Term::Column(name))
}

/// A value that the text itself names.
pub open spec fn word(text: Seq<char>, value: Cell) -> Expr {
    Expr::Is(Term::Word(text, value))
}

/// The conditions of a statement from the `i`-th on.
pub open spec fn where_text(conditions: Seq<Cond>, i: nat, rest: Text) -> Text
    decreases conditions.len() - i,
{
    if i >= conditions.len() {
        rest
    } else {
        before(
            if i == 0 {
                " WHERE "@
            } else {
                " AND "@
            },
            conditions[i as int].text(where_text(conditions, i + 1, rest)),
        )
    }
}

/// Whether the first `n` conditions hold of a row.
pub open spec fn all_hold(conditions: Seq<Cond>, binds: Seq<ParamView>, row: Row, n: nat) -> bool
    decreases n,
{
    n == 0 || (all_hold(conditions, binds, row, (n - 1) as nat) && conditions[n - 1].holds(
        binds,
        row,
    ))
}

/// What the columns are set to, from the `i`-th on.
pub open spec fn set_text(sets: Seq<(Seq<char>, Expr)>, i: nat, rest: Text) -> Text
    decreases sets.len() - i,
{
    if i >= sets.len() {
        rest
    } else {
        before(
            if i == 0 {
                " SET "@
            } else {
                ", "@
            },
            before(sets[i as int].0, before(" = "@, sets[i as int].1.text(set_text(sets, i + 1, rest)))),
        )
    }
}

/// The rows a write gives back, which change nothing.
pub open spec fn returning() -> Text {
    before(" RETURNING "@, Text::Open)
}

/// A row with some of its columns overwritten, one after the other.
pub open spec fn put(row: Row, cells: Seq<(Seq<char>, Cell)>) -> Row
    decreases cells.len(),
{
    if cells.len() == 0 {
        row
    } else {
        put(row, cells.drop_last()).insert(cells.last().0, cells.last().1)
    }
}

/// A column that is overwritten once holds what it is overwritten with, and one
/// that is not holds what it held.
pub proof fn lemma_put(row: Row, cells: Seq<(Seq<char>, Cell)>, column: Seq<char>)
    ensures
        forall|k: int|
            0 <= k < cells.len() && (#[trigger] cells[k]).0 == column && (forall|j: int|
                k < j < cells.len() ==> (#[trigger] cells[j]).0 != column) ==> put(
                row,
                cells,
            ).contains_key(column) && put(row, cells)[column] == cells[k].1,
        (forall|k: int| 0 <= k < cells.len() ==> (#[trigger] cells[k]).0 != column) ==> put(
            row,
            cells,
        ).contains_key(column) == row.contains_key(column) && put(row, cells)[column]
            == row[column],
    decreases cells.len(),
{
    if cells.len() > 0 {
        let earlier = cells.drop_last();
        lemma_put(row, earlier, column);
        assert forall|k: int|
            0 <= k < cells.len() && (#[trigger] cells[k]).0 == column && (forall|j: int|
                k < j < cells.len() ==> (#[trigger] cells[j]).0 != column) implies put(
            row,
            cells,
        ).contains_key(column) && put(row, cells)[column] == cells[k].1 by {
            if k < cells.len() - 1 {
                assert(cells[cells.len() - 1].0 != column);
                assert(earlier[k] == cells[k]);
                assert forall|j: int| k < j < earlier.len() implies (#[trigger] earlier[j]).0
                    != column by {
                    assert(cells[j] == earlier[j]);
                }
            }
        }
        if forall|k: int| 0 <= k < cells.len() ==> (#[trigger] cells[k]).0 != column {
            assert(cells[cells.len() - 1].0 != column);
            assert forall|k: int| 0 <= k < earlier.len() implies (#[trigger] earlier[k]).0
                != column by {
                assert(cells[k] == earlier[k]);
            }
        }
    }
}

/// An `UPDATE`: what each column is set to, and in which rows. `head` stands up to
/// the table.
pub struct Writing {
    pub head: Seq<char>,
    pub table: Seq<char>,
    pub sets: Seq<(Seq<char>, Expr)>,
    pub conditions: Seq<Cond>,
    pub rest: Text,
}

impl Writing {
    #[verifier::opaque]
    pub open spec fn text(self) -> Text {
        before(
            self.head,
            before(self.table, set_text(self.sets, 0, where_text(self.conditions, 0, self.rest))),
        )
    }

    /// Whether a row is updated.
    pub open spec fn picks(self, binds: Seq<ParamView>, row: Row) -> bool {
        all_hold(self.conditions, binds, row, self.conditions.len())
    }

    /// What a row is overwritten with, column by column.
    pub open spec fn writes(self, binds: Seq<ParamView>, row: Row) -> Seq<(Seq<char>, Cell)> {
        Seq::new(
            self.sets.len(),
            |i: int| (self.sets[i].0, self.sets[i].1.value(binds, row)),
        )
    }

    /// What the statement leaves of a row that it picks.
    pub open spec fn leaves(self, binds: Seq<ParamView>, row: Row) -> Row {
        put(row, self.writes(binds, row))
    }

    /// Whether this is what `sent` says.
    pub open spec fn is_read(self, sent: StatementView) -> bool {
        spells(sent.sql, 0, self.text())
    }
}

/// The names of some columns from the `i`-th on.
pub open spec fn names_text(columns: Seq<Seq<char>>, i: nat, rest: Text) -> Text
    decreases columns.len() - i,
{
    if i >= columns.len() {
        rest
    } else if i == 0 {
        before(columns[0], names_text(columns, 1, rest))
    } else {
        before(", "@, before(columns[i as int], names_text(columns, i + 1, rest)))
    }
}

/// The values of some columns from the `i`-th on.
pub open spec fn values_text(values: Seq<Term>, i: nat, rest: Text) -> Text
    decreases values.len() - i,
{
    if i >= values.len() {
        rest
    } else if i == 0 {
        values[0].text(values_text(values, 1, rest))
    } else {
        before(", "@, values[i as int].text(values_text(values, i + 1, rest)))
    }
}

/// The overwriting of some columns with the values that were to be inserted.
pub open spec fn excluded_text(columns: Seq<Seq<char>>, i: nat, rest: Text) -> Text
    decreases columns.len() - i,
{
    if i >= columns.len() {
        rest
    } else {
        before(
            if i == 0 {
                " SET "@
            } else {
                ", "@
            },
            before(
                columns[i as int],
                before(
                    " = EXCLUDED."@,
                    before(columns[i as int], excluded_text(columns, i + 1, rest)),
                ),
            ),
        )
    }
}

/// What an insert does where a row of its key is there.
pub enum Conflict {
    /// The key is not looked at.
    Unread,
    /// The row of these columns stays as it is.
    Stays(Seq<Seq<char>>),
    /// The row of these columns takes the new values of those.
    Takes(Seq<Seq<char>>, Seq<Seq<char>>),
    /// A row in the way stays as it is, whichever its key.
    Skips(Seq<char>),
    /// The row of these columns is updated, where the conditions hold of it.
    Moves(Seq<Seq<char>>, Seq<(Seq<char>, Expr)>, Seq<Cond>),
}

impl Conflict {
    pub open spec fn text(self, rest: Text) -> Text {
        match self {
            Conflict::Unread => rest,
            Conflict::Stays(keys) => before(
                " ON CONFLICT ("@,
                names_text(keys, 0, before(") DO NOTHING"@, rest)),
            ),
            Conflict::Takes(keys, columns) => before(
                " ON CONFLICT ("@,
                names_text(keys, 0, before(") DO UPDATE"@, excluded_text(columns, 0, rest))),
            ),
            Conflict::Skips(text) => before(text, rest),
            Conflict::Moves(keys, sets, conditions) => before(
                " ON CONFLICT ("@,
                names_text(
                    keys,
                    0,
                    before(") DO UPDATE"@, set_text(sets, 0, where_text(conditions, 0, rest))),
                ),
            ),
        }
    }
}

/// An `INSERT`: the value of each column. `selected` is whether the values stand
/// in a `SELECT` and not in a list; `head` stands up to the table.
pub struct Storing {
    pub head: Seq<char>,
    pub table: Seq<char>,
    pub columns: Seq<Seq<char>>,
    pub values: Seq<Term>,
    pub selected: bool,
    pub conflict: Conflict,
    pub rest: Text,
}

impl Storing {
    #[verifier::opaque]
    pub open spec fn text(self) -> Text {
        before(
            self.head,
            before(
                self.table,
                before(
                    " ("@,
                    names_text(
                        self.columns,
                        0,
                        if self.selected {
                            before(
                                ") SELECT "@,
                                values_text(self.values, 0, self.conflict.text(self.rest)),
                            )
                        } else {
                            before(
                                ") VALUES ("@,
                                values_text(
                                    self.values,
                                    0,
                                    before(")"@, self.conflict.text(self.rest)),
                                ),
                            )
                        },
                    ),
                ),
            ),
        )
    }

    /// The row that is inserted, column by column.
    pub open spec fn stores(self, binds: Seq<ParamView>) -> Seq<(Seq<char>, Cell)> {
        Seq::new(
            self.columns.len(),
            |i: int| (self.columns[i], self.values[i].value(binds, Map::empty())),
        )
    }

    /// Whether this is what `sent` says.
    pub open spec fn is_read(self, sent: StatementView) -> bool {
        self.columns.len() == self.values.len() && spells(sent.sql, 0, self.text())
    }
}

/// A `DELETE`, or a `SELECT` of some columns: the rows it picks. It is read from
/// `skip` on; `head` stands up to the columns, or up to the table where there are
/// none.
pub struct Picking {
    pub skip: nat,
    pub head: Seq<char>,
    pub columns: Seq<Seq<char>>,
    pub table: Seq<char>,
    pub conditions: Seq<Cond>,
    pub rest: Text,
}

impl Picking {
    #[verifier::opaque]
    pub open spec fn text(self) -> Text {
        let table = before(self.table, where_text(self.conditions, 0, self.rest));
        before(
            self.head,
            if self.columns.len() == 0 {
                table
            } else {
                names_text(self.columns, 0, before(" FROM "@, table))
            },
        )
    }

    /// Whether a row is picked.
    pub open spec fn picks(self, binds: Seq<ParamView>, row: Row) -> bool {
        all_hold(self.conditions, binds, row, self.conditions.len())
    }

    /// Whether this is what `sent` says.
    pub open spec fn is_read(self, sent: StatementView) -> bool {
        spells(sent.sql, self.skip as int, self.text())
    }
}

} // verus!
