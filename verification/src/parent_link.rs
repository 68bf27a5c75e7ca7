//! The `parent_link` table: the upsert of a pair, the existence probe, the
//! listing of a parent's students, and the delete.

use vstd::prelude::*;

use crate::id::UserId;
use crate::page::{Param, ParamView, Statement};
use crate::sql::{Cell, Conflict, Cuts, Picking, Row, Storing, Term, Text};

verus! {

/// A parent tied to a student, and who tied them.
#[derive(Clone, Copy, PartialEq, Eq, Structural, Debug)]
pub struct ParentLink {
    pub parent: UserId,
    pub student: UserId,
    pub linked_by: UserId,
}

pub const LINK: &'static str =
    "INSERT INTO parent_link (parent, student, linked_by) VALUES ($1, $2, $3) ON CONFLICT \
     (parent, student) DO UPDATE SET linked_by = $3 RETURNING parent, student, linked_by";

/// The link of a parent and a student; linking again restamps who linked them.
pub fn link(parent: UserId, student: UserId, linked_by: UserId) -> (statement: Statement)
    ensures
        statement@ == crate::page::sends(
            LINK,
            seq![
                ParamView::Uuid(parent.0),
                ParamView::Uuid(student.0),
                ParamView::Uuid(linked_by.0),
            ],
        ),
{
    Statement::new(
        LINK,
        vec![Param::Uuid(parent.0), Param::Uuid(student.0), Param::Uuid(linked_by.0)],
    )
}

pub const IS_LINKED: &'static str =
    "SELECT EXISTS(SELECT 1 FROM parent_link WHERE parent = $1 AND student = $2) AS present";

/// The read of whether a pair is linked.
pub fn is_linked(parent: UserId, student: UserId) -> (statement: Statement)
    ensures
        statement@ == crate::page::sends(
            IS_LINKED,
            seq![ParamView::Uuid(parent.0), ParamView::Uuid(student.0)],
        ),
{
    Statement::new(IS_LINKED, vec![Param::Uuid(parent.0), Param::Uuid(student.0)])
}

pub const LIST_FOR_PARENT: &'static str =
    "SELECT parent, student, linked_by FROM parent_link WHERE parent = $1 ORDER BY student DESC";

/// The read of every student a parent observes.
pub fn list_for_parent(parent: UserId) -> (statement: Statement)
    ensures
        statement@ == crate::page::sends(LIST_FOR_PARENT, seq![ParamView::Uuid(parent.0)]),
{
    Statement::new(LIST_FOR_PARENT, vec![Param::Uuid(parent.0)])
}

pub const REMOVE: &'static str =
    "DELETE FROM parent_link WHERE parent = $1 AND student = $2 RETURNING parent, student, \
     linked_by";

/// The drop of a link; nothing comes back where there was none.
pub fn remove(parent: UserId, student: UserId) -> (statement: Statement)
    ensures
        statement@ == crate::page::sends(
            REMOVE,
            seq![ParamView::Uuid(parent.0), ParamView::Uuid(student.0)],
        ),
{
    Statement::new(REMOVE, vec![Param::Uuid(parent.0), Param::Uuid(student.0)])
}

/// The links, by parent and student, with who made each.
pub type Links = Map<(UserId, UserId), UserId>;

/// What [`link`] leaves.
pub open spec fn linked(links: Links, parent: UserId, student: UserId, linked_by: UserId) -> Links {
    links.insert((parent, student), linked_by)
}

/// What [`remove`] leaves.
pub open spec fn unlinked(links: Links, parent: UserId, student: UserId) -> Links {
    links.remove((parent, student))
}

/// What [`is_linked`] replies.
pub open spec fn present(links: Links, parent: UserId, student: UserId) -> bool {
    links.contains_key((parent, student))
}

/// Whether `rows` is what [`list_for_parent`] replies: each link of the parent
/// once, the students in falling order.
pub open spec fn lists_students(links: Links, parent: UserId, rows: Seq<ParentLink>) -> bool {
    &&& forall|i: int|
        0 <= i < rows.len() ==> (#[trigger] rows[i]).parent == parent && present(
            links,
            parent,
            rows[i].student,
        ) && rows[i].linked_by == links[(parent, rows[i].student)]
    &&& forall|i: int, j: int|
        0 <= i < j < rows.len() ==> (#[trigger] rows[i]).student.0.0 > (
        #[trigger] rows[j]).student.0.0
    &&& forall|student: UserId| #[trigger]
        present(links, parent, student) ==> exists|i: int|
            0 <= i < rows.len() && (#[trigger] rows[i]).student == student
}

/// A pair has one link: it is there once the pair is linked, and names who
/// linked it last, however often it was linked before. Removing it leaves none,
/// so a new link that is removed leaves no trace; neither touches another pair.
pub proof fn law_one_link_per_pair(
    links: Links,
    parent: UserId,
    student: UserId,
    by: UserId,
    again: UserId,
    other: (UserId, UserId),
)
    ensures
        present(linked(links, parent, student, by), parent, student),
        linked(linked(links, parent, student, by), parent, student, again) == linked(
            links,
            parent,
            student,
            again,
        ),
        !present(unlinked(links, parent, student), parent, student),
        !present(links, parent, student) ==> unlinked(
            linked(links, parent, student, by),
            parent,
            student,
        ) == links && unlinked(links, parent, student) == links,
        other != (parent, student) ==> present(
            linked(links, parent, student, by),
            other.0,
            other.1,
        ) == present(links, other.0, other.1) && present(
            unlinked(links, parent, student),
            other.0,
            other.1,
        ) == present(links, other.0, other.1),
{
    assert(linked(linked(links, parent, student, by), parent, student, again) =~= linked(
        links,
        parent,
        student,
        again,
    ));
    if !present(links, parent, student) {
        assert(unlinked(linked(links, parent, student, by), parent, student) =~= links);
        assert(unlinked(links, parent, student) =~= links);
    }
}

/// A linked student is listed for the parent exactly once, under the name of who
/// linked them last.
pub proof fn law_link_is_listed(
    links: Links,
    parent: UserId,
    student: UserId,
    by: UserId,
    rows: Seq<ParentLink>,
) -> (at: int)
    requires
        lists_students(linked(links, parent, student, by), parent, rows),
    ensures
        0 <= at < rows.len(),
        rows[at] == (ParentLink { parent, student, linked_by: by }),
        forall|i: int| 0 <= i < rows.len() && i != at ==> (#[trigger] rows[i]).student != student,
{
    let after = linked(links, parent, student, by);
    assert(present(after, parent, student));
    let at = choose|at: int| 0 <= at < rows.len() && (#[trigger] rows[at]).student == student;
    assert forall|i: int| 0 <= i < rows.len() && i != at implies (#[trigger] rows[i]).student
        != student by {
        if i < at {
            assert(rows[i].student.0.0 > rows[at].student.0.0);
        } else {
            assert(rows[at].student.0.0 > rows[i].student.0.0);
        }
    }
    at
}

/// What [`LINK`] says.
pub open spec fn link_reading() -> Storing {
    Storing {
        head: "INSERT INTO "@,
        table: "parent_link"@,
        columns: seq!["parent"@, "student"@, "linked_by"@],
        values: seq![Term::Bind(1), Term::Bind(2), Term::Bind(3)],
        selected: false,
        conflict: Conflict::Moves(seq!["parent"@, "student"@], seq![("linked_by"@, crate::sql::bind(3))], Seq::empty()),
        rest: crate::sql::returning(),
    }
}

proof fn lemma_link_reads()
    ensures
        crate::sql::spells(LINK@, 0, link_reading().text()),
{
    reveal_strlit("INSERT INTO parent_link (parent, student, linked_by) VALUES ($1, $2, $3) ON CONFLICT (parent, student) DO UPDATE SET linked_by = $3 RETURNING parent, student, linked_by");
    reveal_strlit("INSERT INTO ");
    reveal_strlit("parent_link");
    reveal_strlit(" (");
    reveal_strlit("parent");
    reveal_strlit(", ");
    reveal_strlit("student");
    reveal_strlit("linked_by");
    reveal_strlit(") VALUES (");
    reveal_strlit("$");
    reveal_strlit(")");
    reveal_strlit(" ON CONFLICT (");
    reveal_strlit(") DO UPDATE");
    reveal_strlit(" SET ");
    reveal_strlit(" = ");
    reveal_strlit(" RETURNING ");
    reveal(crate::sql::Storing::text);
    reveal_with_fuel(crate::sql::names_text, 4);
    reveal_with_fuel(crate::sql::values_text, 4);
    reveal_with_fuel(crate::sql::set_text, 2);
    reveal_with_fuel(crate::sql::where_text, 1);
    reveal_with_fuel(crate::sql::stands, 15);
    reveal_with_fuel(crate::sql::spells_by, 26);
    crate::sql::lemma_spells_by(LINK@, 0, link_reading().text(), crate::sql::cut(12, crate::sql::cut(23, crate::sql::cut(25, crate::sql::cut(31, crate::sql::cut(33, crate::sql::cut(40, crate::sql::cut(42, crate::sql::cut(51, crate::sql::cut(61, crate::sql::cut(63, crate::sql::cut(65, crate::sql::cut(67, crate::sql::cut(69, crate::sql::cut(71, crate::sql::cut(72, crate::sql::cut(86, crate::sql::cut(92, crate::sql::cut(94, crate::sql::cut(101, crate::sql::cut(112, crate::sql::cut(117, crate::sql::cut(126, crate::sql::cut(129, crate::sql::cut(131, crate::sql::cut(142, Cuts::Last))))))))))))))))))))))))));
}

/// What [`link`] stores, column by column, is what it is given.
pub proof fn law_link_lands_in_its_columns(
    parent: UserId,
    student: UserId,
    linked_by: UserId,
    sent: Statement,
)
    requires
        call_ensures(link, (parent, student, linked_by), sent),
    ensures
        link_reading().is_read(sent@),
        link_reading().stores(sent@.binds) == seq![
            ("parent"@, Cell::Uuid(parent.0)),
            ("student"@, Cell::Uuid(student.0)),
            ("linked_by"@, Cell::Uuid(linked_by.0)),
        ],
{
    lemma_link_reads();
}

/// What [`IS_LINKED`] says.
pub open spec fn is_linked_reading() -> Picking {
    Picking {
        skip: 0,
        head: "SELECT EXISTS(SELECT 1 FROM "@,
        columns: Seq::empty(),
        table: "parent_link"@,
        conditions: seq![crate::sql::is_bound("parent"@, 1), crate::sql::is_bound("student"@, 2)],
        rest: crate::sql::before(") AS present"@, Text::End),
    }
}

proof fn lemma_is_linked_reads()
    ensures
        crate::sql::spells(IS_LINKED@, 0, is_linked_reading().text()),
{
    reveal_strlit("SELECT EXISTS(SELECT 1 FROM parent_link WHERE parent = $1 AND student = $2) AS present");
    reveal_strlit("SELECT EXISTS(SELECT 1 FROM ");
    reveal_strlit("parent_link");
    reveal_strlit(" WHERE ");
    reveal_strlit("parent");
    reveal_strlit(" = ");
    reveal_strlit("$");
    reveal_strlit(" AND ");
    reveal_strlit("student");
    reveal_strlit(") AS present");
    reveal(crate::sql::Picking::text);
    reveal_with_fuel(crate::sql::where_text, 3);
    reveal_with_fuel(crate::sql::stands, 29);
    reveal_with_fuel(crate::sql::spells_by, 12);
    crate::sql::lemma_spells_by(IS_LINKED@, 0, is_linked_reading().text(), crate::sql::cut(28, crate::sql::cut(39, crate::sql::cut(46, crate::sql::cut(52, crate::sql::cut(55, crate::sql::cut(57, crate::sql::cut(62, crate::sql::cut(69, crate::sql::cut(72, crate::sql::cut(74, crate::sql::cut(86, Cuts::Last))))))))))));
}

/// [`is_linked`] reads the rows it names and no other.
pub proof fn law_is_linked_reads_its_rows(
    parent: UserId,
    student: UserId,
    sent: Statement,
    row: Row,
)
    requires
        call_ensures(is_linked, (parent, student), sent),
    ensures
        is_linked_reading().is_read(sent@),
        is_linked_reading().picks(sent@.binds, row) == (row["parent"@] == Cell::Uuid(parent.0) && row["student"@] == Cell::Uuid(student.0)),
{
    lemma_is_linked_reads();
    reveal_with_fuel(crate::sql::all_hold, 3);
}

/// What [`LIST_FOR_PARENT`] says.
pub open spec fn list_for_parent_reading() -> Picking {
    Picking {
        skip: 0,
        head: "SELECT "@,
        columns: seq!["parent"@, "student"@, "linked_by"@],
        table: "parent_link"@,
        conditions: seq![crate::sql::is_bound("parent"@, 1)],
        rest: crate::sql::before(" ORDER BY student DESC"@, Text::End),
    }
}

proof fn lemma_list_for_parent_reads()
    ensures
        crate::sql::spells(LIST_FOR_PARENT@, 0, list_for_parent_reading().text()),
{
    reveal_strlit("SELECT parent, student, linked_by FROM parent_link WHERE parent = $1 ORDER BY student DESC");
    reveal_strlit("SELECT ");
    reveal_strlit("parent");
    reveal_strlit(", ");
    reveal_strlit("student");
    reveal_strlit("linked_by");
    reveal_strlit(" FROM ");
    reveal_strlit("parent_link");
    reveal_strlit(" WHERE ");
    reveal_strlit(" = ");
    reveal_strlit("$");
    reveal_strlit(" ORDER BY student DESC");
    reveal(crate::sql::Picking::text);
    reveal_with_fuel(crate::sql::where_text, 2);
    reveal_with_fuel(crate::sql::names_text, 4);
    reveal_with_fuel(crate::sql::stands, 23);
    reveal_with_fuel(crate::sql::spells_by, 14);
    crate::sql::lemma_spells_by(LIST_FOR_PARENT@, 0, list_for_parent_reading().text(), crate::sql::cut(7, crate::sql::cut(13, crate::sql::cut(15, crate::sql::cut(22, crate::sql::cut(24, crate::sql::cut(33, crate::sql::cut(39, crate::sql::cut(50, crate::sql::cut(57, crate::sql::cut(63, crate::sql::cut(66, crate::sql::cut(68, crate::sql::cut(90, Cuts::Last))))))))))))));
}

/// [`list_for_parent`] reads the rows it names and no other.
pub proof fn law_list_for_parent_reads_its_rows(
    parent: UserId,
    sent: Statement,
    row: Row,
)
    requires
        call_ensures(list_for_parent, (parent,), sent),
    ensures
        list_for_parent_reading().is_read(sent@),
        list_for_parent_reading().picks(sent@.binds, row) == (row["parent"@] == Cell::Uuid(parent.0)),
{
    lemma_list_for_parent_reads();
    reveal_with_fuel(crate::sql::all_hold, 2);
}

/// What [`REMOVE`] says.
pub open spec fn remove_reading() -> Picking {
    Picking {
        skip: 0,
        head: "DELETE FROM "@,
        columns: Seq::empty(),
        table: "parent_link"@,
        conditions: seq![crate::sql::is_bound("parent"@, 1), crate::sql::is_bound("student"@, 2)],
        rest: crate::sql::returning(),
    }
}

proof fn lemma_remove_reads()
    ensures
        crate::sql::spells(REMOVE@, 0, remove_reading().text()),
{
    reveal_strlit("DELETE FROM parent_link WHERE parent = $1 AND student = $2 RETURNING parent, student, linked_by");
    reveal_strlit("DELETE FROM ");
    reveal_strlit("parent_link");
    reveal_strlit(" WHERE ");
    reveal_strlit("parent");
    reveal_strlit(" = ");
    reveal_strlit("$");
    reveal_strlit(" AND ");
    reveal_strlit("student");
    reveal_strlit(" RETURNING ");
    reveal(crate::sql::Picking::text);
    reveal_with_fuel(crate::sql::where_text, 3);
    reveal_with_fuel(crate::sql::stands, 13);
    reveal_with_fuel(crate::sql::spells_by, 12);
    crate::sql::lemma_spells_by(REMOVE@, 0, remove_reading().text(), crate::sql::cut(12, crate::sql::cut(23, crate::sql::cut(30, crate::sql::cut(36, crate::sql::cut(39, crate::sql::cut(41, crate::sql::cut(46, crate::sql::cut(53, crate::sql::cut(56, crate::sql::cut(58, crate::sql::cut(69, Cuts::Last))))))))))));
}

/// [`remove`] deletes the rows it names and no other.
pub proof fn law_remove_deletes_its_rows(
    parent: UserId,
    student: UserId,
    sent: Statement,
    row: Row,
)
    requires
        call_ensures(remove, (parent, student), sent),
    ensures
        remove_reading().is_read(sent@),
        remove_reading().picks(sent@.binds, row) == (row["parent"@] == Cell::Uuid(parent.0) && row["student"@] == Cell::Uuid(student.0)),
{
    lemma_remove_reads();
    reveal_with_fuel(crate::sql::all_hold, 3);
}

} // verus!
