//! One paged `SELECT`: the window and the total that goes with it, both done
//! by the database.
//!
//! The window is `LIMIT`/`OFFSET` in the statement, and the total is a
//! `count(*)` over the same `WHERE`, so a page cannot disagree with the count
//! that pages it. An unpaged read from row zero is one statement: the rows in
//! hand are the total.

use vstd::prelude::*;

use crate::sql::Text;
use crate::text::push_placeholder;

verus! {

/// A uuid, as the number its 128 bits spell.
#[derive(Clone, Copy, PartialEq, Eq, Structural, Debug)]
pub struct Uuid(pub u128);

/// A floating-point number by its bit pattern: it is carried to the database
/// and never computed with.
#[derive(Clone, Copy, PartialEq, Eq, Structural, Debug)]
pub struct Bits(pub u64);

/// One bound value of a statement, in `$1, $2, …` order.
#[derive(Debug)]
pub enum Param {
    I64(i64),
    Bool(bool),
    Text(String),
    Uuid(Uuid),
    /// A nullable column value: `None` binds `NULL` with the type still named.
    OptUuid(Option<Uuid>),
    OptText(Option<String>),
    OptI64(Option<i64>),
    Uuids(Vec<Uuid>),
    Texts(Vec<String>),
    OptTexts(Option<Vec<String>>),
    Json(serde_json::Value),
    OptJson(Option<serde_json::Value>),
    Real(Bits),
    OptReal(Option<Bits>),
    I16(i16),
    I32(i32),
}

/// The value a [`Param`] binds.
#[verifier::ext_equal]
pub enum ParamView {
    I64(i64),
    Bool(bool),
    Text(Seq<char>),
    Uuid(Uuid),
    OptUuid(Option<Uuid>),
    OptText(Option<Seq<char>>),
    OptI64(Option<i64>),
    Uuids(Seq<Uuid>),
    Texts(Seq<Seq<char>>),
    OptTexts(Option<Seq<Seq<char>>>),
    Json(serde_json::Value),
    OptJson(Option<serde_json::Value>),
    Real(Bits),
    OptReal(Option<Bits>),
    I16(i16),
    I32(i32),
}

impl View for Param {
    type V = ParamView;

    open spec fn view(&self) -> ParamView {
        match self {
            Param::I64(value) => ParamView::I64(*value),
            Param::Bool(value) => ParamView::Bool(*value),
            Param::Text(value) => ParamView::Text(value@),
            Param::Uuid(value) => ParamView::Uuid(*value),
            Param::OptUuid(value) => ParamView::OptUuid(*value),
            Param::OptText(value) => ParamView::OptText(
                match value {
                    Some(text) => Some(text@),
                    None => None,
                },
            ),
            Param::OptI64(value) => ParamView::OptI64(*value),
            Param::Uuids(value) => ParamView::Uuids(value@),
            Param::Texts(value) => ParamView::Texts(crate::text::views(value@)),
            Param::OptTexts(value) => ParamView::OptTexts(opt_texts_view(*value)),
            Param::Json(value) => ParamView::Json(*value),
            Param::OptJson(value) => ParamView::OptJson(*value),
            Param::Real(value) => ParamView::Real(*value),
            Param::OptReal(value) => ParamView::OptReal(*value),
            Param::I16(value) => ParamView::I16(*value),
            Param::I32(value) => ParamView::I32(*value),
        }
    }
}

impl From<i64> for Param {
    fn from(value: i64) -> (param: Self) {
        Param::I64(value)
    }
}

impl vstd::std_specs::convert::FromSpecImpl<i64> for Param {
    open spec fn obeys_from_spec() -> bool {
        true
    }

    open spec fn from_spec(value: i64) -> Self {
        Param::I64(value)
    }
}

impl From<String> for Param {
    fn from(value: String) -> (param: Self) {
        Param::Text(value)
    }
}

impl vstd::std_specs::convert::FromSpecImpl<String> for Param {
    open spec fn obeys_from_spec() -> bool {
        true
    }

    open spec fn from_spec(value: String) -> Self {
        Param::Text(value)
    }
}

impl From<Uuid> for Param {
    fn from(value: Uuid) -> (param: Self) {
        Param::Uuid(value)
    }
}

impl vstd::std_specs::convert::FromSpecImpl<Uuid> for Param {
    open spec fn obeys_from_spec() -> bool {
        true
    }

    open spec fn from_spec(value: Uuid) -> Self {
        Param::Uuid(value)
    }
}

impl From<Option<Uuid>> for Param {
    fn from(value: Option<Uuid>) -> (param: Self) {
        Param::OptUuid(value)
    }
}

impl vstd::std_specs::convert::FromSpecImpl<Option<Uuid>> for Param {
    open spec fn obeys_from_spec() -> bool {
        true
    }

    open spec fn from_spec(value: Option<Uuid>) -> Self {
        Param::OptUuid(value)
    }
}

/// A statement and the values it binds.
#[derive(Debug)]
pub struct Statement {
    pub sql: String,
    pub binds: Vec<Param>,
}

/// What a [`Statement`] sends.
#[verifier::ext_equal]
pub struct StatementView {
    pub sql: Seq<char>,
    pub binds: Seq<ParamView>,
}

/// The values a list of parameters binds.
pub open spec fn bound(binds: Seq<Param>) -> Seq<ParamView> {
    Seq::new(binds.len(), |i: int| binds[i]@)
}

impl View for Statement {
    type V = StatementView;

    open spec fn view(&self) -> StatementView {
        StatementView { sql: self.sql@, binds: bound(self.binds@) }
    }
}

/// The statement `sql` with `binds`, as the value a [`Statement`] stands for.
pub open spec fn sends(sql: &str, binds: Seq<ParamView>) -> StatementView {
    StatementView { sql: sql@, binds }
}

/// What a list of statements sends, in order.
pub open spec fn all_sent(statements: Seq<Statement>) -> Seq<StatementView> {
    Seq::new(statements.len(), |i: int| statements[i]@)
}

impl Statement {
    /// A statement with its bound values.
    pub fn new(sql: &str, binds: Vec<Param>) -> (statement: Statement)
        ensures
            statement@ == sends(sql, bound(binds@)),
    {
        Statement { sql: sql.to_owned(), binds }
    }
}

impl Param {
    /// The same value, to bind a second time.
    pub fn duplicate(&self) -> (copy: Param)
        ensures
            copy@ == self@,
    {
        match self {
            Param::I64(value) => Param::I64(*value),
            Param::Bool(value) => Param::Bool(*value),
            Param::Text(value) => Param::Text(value.clone()),
            Param::Uuid(value) => Param::Uuid(*value),
            Param::OptUuid(value) => Param::OptUuid(*value),
            Param::OptText(value) => Param::OptText(
                match value {
                    Some(text) => Some(text.clone()),
                    None => None,
                },
            ),
            Param::OptI64(value) => Param::OptI64(*value),
            Param::Uuids(value) => {
                let copy = value.clone();
                assert(copy@ =~= value@);
                Param::Uuids(copy)
            },
            Param::Texts(value) => {
                let copy = value.clone();
                assert(crate::text::views(copy@) =~= crate::text::views(value@));
                Param::Texts(copy)
            },
            Param::OptTexts(value) => Param::OptTexts(opt_texts(value)),
            Param::Json(value) => Param::Json(value.clone()),
            Param::OptJson(value) => Param::OptJson(crate::json::opt_json(value)),
            Param::Real(value) => Param::Real(*value),
            Param::OptReal(value) => Param::OptReal(*value),
            Param::I16(value) => Param::I16(*value),
            Param::I32(value) => Param::I32(*value),
        }
    }
}

/// The text of an optional value.
pub open spec fn opt_view(value: Option<&str>) -> Option<Seq<char>> {
    match value {
        Some(text) => Some(text@),
        None => None,
    }
}

/// The text of an optional value.
pub open spec fn opt_string_view(value: Option<String>) -> Option<Seq<char>> {
    match value {
        Some(text) => Some(text@),
        None => None,
    }
}

/// An optional text, owned.
pub fn opt_text(value: Option<&str>) -> (owned: Option<String>)
    ensures
        opt_string_view(owned) == opt_view(value),
{
    match value {
        Some(text) => Some(text.to_owned()),
        None => None,
    }
}

/// A copy of an optional text.
pub fn opt_string(value: &Option<String>) -> (copy: Option<String>)
    ensures
        opt_string_view(copy) == opt_string_view(*value),
{
    match value {
        Some(text) => Some(text.clone()),
        None => None,
    }
}

/// A copy of a list of texts.
pub fn texts(values: &Vec<String>) -> (copy: Vec<String>)
    ensures
        crate::text::views(copy@) == crate::text::views(values@),
{
    let copy = values.clone();
    assert(crate::text::views(copy@) =~= crate::text::views(values@));
    copy
}

/// The texts of an optional list.
pub open spec fn opt_texts_view(value: Option<Vec<String>>) -> Option<Seq<Seq<char>>> {
    match value {
        Some(values) => Some(crate::text::views(values@)),
        None => None,
    }
}

/// A copy of an optional list of texts.
pub fn opt_texts(value: &Option<Vec<String>>) -> (copy: Option<Vec<String>>)
    ensures
        opt_texts_view(copy) == opt_texts_view(*value),
{
    match value {
        Some(values) => Some(texts(values)),
        None => None,
    }
}

/// A copy of a list of keys.
pub fn uuids(values: &Vec<Uuid>) -> (copy: Vec<Uuid>)
    ensures
        copy@ == values@,
{
    let copy = values.clone();
    assert(copy@ =~= values@);
    copy
}

/// The same values, to bind a second time.
pub fn duplicate(binds: &Vec<Param>) -> (copy: Vec<Param>)
    ensures
        bound(copy@) == bound(binds@),
{
    let mut copy: Vec<Param> = Vec::new();
    let mut i: usize = 0;
    while i < binds.len()
        invariant
            0 <= i <= binds.len(),
            copy.len() == i,
            forall|k: int| 0 <= k < i ==> (#[trigger] copy@[k])@ == binds@[k]@,
        decreases binds.len() - i,
    {
        copy.push(binds[i].duplicate());
        i += 1;
    }
    copy
}

/// A list read: what stands after `FROM`, the order of the page, and the
/// values the placeholders of `from_where` bind.
pub struct PagedList {
    pub from_where: String,
    pub order: &'static str,
    pub binds: Vec<Param>,
}

/// Whether a window can hide rows, so that the rows in hand are not the total.
pub open spec fn counted(limit: Option<i64>, offset: i64) -> bool {
    limit is Some || offset > 0
}

/// The page statement of a window over `given` bound values.
pub open spec fn page_text(
    from_where: Seq<char>,
    order: Seq<char>,
    given: nat,
    limit: Option<i64>,
    offset: i64,
) -> Seq<char> {
    let whole = "SELECT * FROM "@ + from_where + " "@ + order;
    if limit is Some {
        whole + " LIMIT "@ + crate::text::placeholder(given + 1) + " OFFSET "@
            + crate::text::placeholder(given + 2)
    } else if offset > 0 {
        whole + " OFFSET "@ + crate::text::placeholder(given + 1)
    } else {
        whole
    }
}

/// The statement that counts what a page windows.
pub open spec fn count_text(from_where: Seq<char>) -> Seq<char> {
    "SELECT count(*) FROM "@ + from_where
}

/// The values of a page statement: those of the `WHERE`, then the window's.
pub open spec fn page_values(
    given: Seq<ParamView>,
    limit: Option<i64>,
    offset: i64,
) -> Seq<ParamView> {
    if limit is Some {
        given + seq![ParamView::I64(limit->0), ParamView::I64(offset)]
    } else if offset > 0 {
        given + seq![ParamView::I64(offset)]
    } else {
        given
    }
}

/// Whether `both` is the page of a window and, where the window can hide
/// rows, the count over the same `WHERE` with the same values.
pub open spec fn pages(
    both: (Statement, Option<Statement>),
    from_where: Seq<char>,
    order: Seq<char>,
    given: Seq<ParamView>,
    limit: Option<i64>,
    offset: i64,
) -> bool {
    &&& both.0@ == (StatementView {
        sql: page_text(from_where, order, given.len(), limit, offset),
        binds: page_values(given, limit, offset),
    })
    &&& both.1 is Some == counted(limit, offset)
    &&& both.1 is Some ==> both.1->0@ == (StatementView {
        sql: count_text(from_where),
        binds: given,
    })
}

impl PagedList {
    /// A whole-table read (`"term"`) or a filtered one
    /// (`"note WHERE user_id = $1"`).
    pub fn new(from_where: &str, order: &'static str) -> (list: PagedList)
        ensures
            list.from_where@ == from_where@,
            list.order@ == order@,
            bound(list.binds@) == Seq::<ParamView>::empty(),
    {
        PagedList { from_where: from_where.to_owned(), order, binds: Vec::new() }
    }

    /// Binds the next positional parameter.
    #[must_use]
    pub fn bind(self, value: Param) -> (list: PagedList)
        ensures
            list.from_where == self.from_where,
            list.order == self.order,
            bound(list.binds@) == bound(self.binds@).push(value@),
    {
        let mut binds = self.binds;
        binds.push(value);
        PagedList { from_where: self.from_where, order: self.order, binds }
    }

    /// The page statement and, when the window can hide rows, the count
    /// statement.
    pub fn statements(&self, limit: Option<i64>, offset: i64) -> (both: (String, Option<String>))
        ensures
            both.0@ == page_text(
                self.from_where@,
                self.order@,
                self.binds@.len(),
                limit,
                offset,
            ),
            both.1 is Some == counted(limit, offset),
            both.1 is Some ==> both.1->0@ == count_text(self.from_where@),
    {
        let mut next: u128 = self.binds.len() as u128;
        let mut sql = "SELECT * FROM ".to_owned();
        sql.append(self.from_where.as_str());
        sql.append(" ");
        sql.append(self.order);
        if limit.is_some() {
            next += 1;
            sql.append(" LIMIT ");
            push_placeholder(&mut sql, next);
        }
        let counted = limit.is_some() || offset > 0;
        if counted {
            next += 1;
            sql.append(" OFFSET ");
            push_placeholder(&mut sql, next);
            let mut count = "SELECT count(*) FROM ".to_owned();
            count.append(self.from_where.as_str());
            (sql, Some(count))
        } else {
            (sql, None)
        }
    }

    /// What a read sends: the page and, when the window can hide rows, the
    /// count over the same `WHERE` with the same values.
    pub fn run(self, limit: Option<i64>, offset: i64) -> (both: (Statement, Option<Statement>))
        ensures
            pages(both, self.from_where@, self.order@, bound(self.binds@), limit, offset),
    {
        let (page_sql, count_sql) = self.statements(limit, offset);
        let mut binds = duplicate(&self.binds);
        if let Some(limit) = limit {
            binds.push(Param::I64(limit));
        }
        if count_sql.is_some() {
            binds.push(Param::I64(offset));
        }
        assert(bound(binds@) =~= page_values(bound(self.binds@), limit, offset));
        let page = Statement { sql: page_sql, binds };
        match count_sql {
            Some(count_sql) => (page, Some(Statement { sql: count_sql, binds: self.binds })),
            None => (page, None),
        }
    }
}

/// What a list read sends: the page and, where the window can hide rows, the
/// count.
pub fn paged(
    from_where: &str,
    order: &'static str,
    binds: Vec<Param>,
    limit: Option<i64>,
    offset: i64,
) -> (both: (Statement, Option<Statement>))
    ensures
        pages(both, from_where@, order@, bound(binds@), limit, offset),
{
    PagedList { from_where: from_where.to_owned(), order, binds }.run(limit, offset)
}

/// A page and its count share the `WHERE` and the values it binds: the count
/// statement is the page's without its order and window, and the window's
/// values continue the numbering.
pub proof fn law_page_and_count_agree(
    both: (Statement, Option<Statement>),
    from_where: Seq<char>,
    order: Seq<char>,
    given: Seq<ParamView>,
    limit: Option<i64>,
    offset: i64,
)
    requires
        pages(both, from_where, order, given, limit, offset),
        both.1 is Some,
    ensures
        both.0@.sql.take(("SELECT * FROM "@ + from_where).len() as int) == "SELECT * FROM "@
            + from_where,
        both.1->0@.sql == "SELECT count(*) FROM "@ + from_where,
        both.0@.binds.take(given.len() as int) == given,
        both.1->0@.binds == given,
        both.0@.binds.len() == given.len() + (if limit is Some {
            2int
        } else {
            1int
        }),
{
    let head = "SELECT * FROM "@ + from_where;
    assert(both.0@.sql.take(head.len() as int) =~= head);
    assert(both.0@.binds.take(given.len() as int) =~= given);
}

/// The total of a read: the count where one ran, else the rows in hand.
pub open spec fn total_of(rows: int, count: Option<int>) -> int {
    match count {
        Some(count) => count,
        None => rows,
    }
}

/// The total of a read: the count where one ran, else the rows in hand.
pub fn total(rows: usize, count: Option<i64>) -> (total: i64)
    requires
        rows <= i64::MAX,
    ensures
        total == total_of(
            rows as int,
            match count {
                Some(count) => Some(count as int),
                None => None,
            },
        ),
{
    match count {
        Some(count) => count,
        None => rows as i64,
    }
}

/// The value a window binds.
pub open spec fn window_value(value: ParamView) -> int {
    match value {
        ParamView::I64(value) => value as int,
        _ => 0,
    }
}

/// The lesser of two numbers.
pub open spec fn lesser(a: int, b: int) -> int {
    if a < b {
        a
    } else {
        b
    }
}

/// The rows after the first `n`.
pub open spec fn after_first<T>(rows: Seq<T>, n: int) -> Seq<T> {
    rows.skip(lesser(n, rows.len() as int))
}

/// The first `n` rows.
pub open spec fn first_rows<T>(rows: Seq<T>, n: int) -> Seq<T> {
    rows.take(lesser(n, rows.len() as int))
}

/// What a page statement replies, given every row that its `WHERE` matches, in
/// its order: `OFFSET` passes over rows, `LIMIT` ends the list, and a
/// statement without a window replies them all. `window` is what it binds
/// beyond the values of the `WHERE`.
pub open spec fn windowed<T>(matching: Seq<T>, window: Seq<ParamView>) -> Seq<T> {
    if window.len() == 2 {
        first_rows(after_first(matching, window_value(window[1])), window_value(window[0]))
    } else if window.len() == 1 {
        after_first(matching, window_value(window[0]))
    } else {
        matching
    }
}

/// What the count statement of a read replies, where there is one.
pub open spec fn count_reply<T>(matching: Seq<T>, count: Option<Statement>) -> Option<int> {
    match count {
        Some(_) => Some(matching.len() as int),
        None => None,
    }
}

/// A window of a read is the slice of the unpaged read between its two ends,
/// and the total is the number of all rows, whatever the window.
pub proof fn law_window_is_a_slice<T>(
    matching: Seq<T>,
    both: (Statement, Option<Statement>),
    from_where: Seq<char>,
    order: Seq<char>,
    given: Seq<ParamView>,
    limit: Option<i64>,
    offset: i64,
)
    requires
        pages(both, from_where, order, given, limit, offset),
        limit is Some ==> limit->0 >= 0,
        offset >= 0,
    ensures
        ({
            let n = matching.len() as int;
            let rows = windowed(matching, both.0@.binds.skip(given.len() as int));
            let start = lesser(offset as int, n);
            let end = match limit {
                Some(limit) => lesser(offset + limit, n),
                None => n,
            };
            &&& rows == matching.subrange(start, end)
            &&& limit is None && offset == 0 ==> rows == matching
            &&& total_of(rows.len() as int, count_reply(matching, both.1)) == n
        }),
{
    let n = matching.len() as int;
    let window = both.0@.binds.skip(given.len() as int);
    let rows = windowed(matching, window);
    let start = lesser(offset as int, n);
    if let Some(limit) = limit {
        assert(window =~= seq![ParamView::I64(limit), ParamView::I64(offset)]);
        assert(rows =~= matching.subrange(start, lesser(offset + limit, n)));
    } else if offset > 0 {
        assert(window =~= seq![ParamView::I64(offset)]);
        assert(rows =~= matching.subrange(start, n));
    } else {
        assert(window =~= Seq::empty());
        assert(rows =~= matching.subrange(start, n));
    }
}

/// A page and its count read what stands behind `FROM`, under the values it
/// binds, in both statements.
pub proof fn law_page_reads_its_rows(
    both: (Statement, Option<Statement>),
    from_where: Seq<char>,
    order: Seq<char>,
    given: Seq<ParamView>,
    limit: Option<i64>,
    offset: i64,
    text: Text,
)
    requires
        pages(both, from_where, order, given, limit, offset),
        crate::sql::spells(from_where, 0, text),
        !crate::sql::is_open(text),
    ensures
        crate::sql::spells(
            both.0@.sql,
            0,
            crate::sql::before("SELECT * FROM "@, crate::sql::opened(text)),
        ),
        both.1 is Some ==> crate::sql::spells(
            both.1->0@.sql,
            0,
            crate::sql::before("SELECT count(*) FROM "@, crate::sql::opened(text)),
        ),
{
    let page = both.0@.sql;
    let head = "SELECT * FROM "@ + from_where;
    let tail = page.skip(head.len() as int);
    assert(page =~= "SELECT * FROM "@ + from_where + tail);
    crate::sql::lemma_spells_within("SELECT * FROM "@, from_where, tail, text);
    let count = "SELECT count(*) FROM "@;
    assert(count + from_where + Seq::<char>::empty() =~= count + from_where);
    crate::sql::lemma_spells_within(count, from_where, Seq::empty(), text);
}

/// The window of a page is the caller's: what stands behind `LIMIT` is bound to
/// the limit, and what stands behind `OFFSET` to the offset.
pub proof fn law_window_binds_its_values(
    both: (Statement, Option<Statement>),
    from_where: Seq<char>,
    order: Seq<char>,
    given: Seq<ParamView>,
    limit: Option<i64>,
    offset: i64,
)
    requires
        pages(both, from_where, order, given, limit, offset),
    ensures
        ({
            let whole = "SELECT * FROM "@ + from_where + " "@ + order;
            let sent = both.0@;
            if limit is Some {
                exists|n: nat, m: nat|
                    #![trigger crate::text::placeholder(n), crate::text::placeholder(m)]
                    1 <= n <= sent.binds.len() && 1 <= m <= sent.binds.len() && sent.sql == whole
                        + " LIMIT "@ + crate::text::placeholder(n) + " OFFSET "@
                        + crate::text::placeholder(m) && sent.binds[n - 1] == ParamView::I64(
                        limit->0,
                    ) && sent.binds[m - 1] == ParamView::I64(offset)
            } else if offset > 0 {
                exists|m: nat|
                    #![trigger crate::text::placeholder(m)]
                    1 <= m <= sent.binds.len() && sent.sql == whole + " OFFSET "@
                        + crate::text::placeholder(m) && sent.binds[m - 1] == ParamView::I64(offset)
            } else {
                sent.sql == whole
            }
        }),
{
    let sent = both.0@;
    let n = given.len() + 1;
    let whole = "SELECT * FROM "@ + from_where + " "@ + order;
    if limit is Some {
        assert(sent.binds[n - 1] == ParamView::I64(limit->0));
        assert(sent.binds[(n + 1) - 1] == ParamView::I64(offset));
        assert(sent.sql == whole + " LIMIT "@ + crate::text::placeholder(n) + " OFFSET "@
            + crate::text::placeholder(n + 1));
    } else if offset > 0 {
        assert(sent.binds[n - 1] == ParamView::I64(offset));
        assert(sent.sql == whole + " OFFSET "@ + crate::text::placeholder(n));
    }
}

} // verus!
