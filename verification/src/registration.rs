//! The `registration` table: the seat reads, the listing of an event, the
//! capped claim, and the delete that gives the seat back in the same
//! transaction.

use vstd::prelude::*;

use crate::claim::{verdict, Claimed};
use crate::error::{AppError, AppErrorView, DbError};
use crate::id::{EventId, UserId};
use crate::page::{Param, ParamView, Statement, StatementView};
use crate::reference::References;
use crate::sql::{Cell, Cuts, Expr, Picking, Row, Term, Text, Writing};
use crate::transaction::{Reply, Step};

verus! {

/// A seat on an event.
#[derive(Clone, Copy, PartialEq, Eq, Structural, Debug)]
pub struct Registration {
    pub event: EventId,
    pub user: UserId,
    pub registered_by: UserId,
}

pub const READ_FOR_USER: &'static str =
    "SELECT event, app_user, registered_by FROM registration WHERE event = $1 AND app_user = $2 \
     LIMIT 1";

/// The read of the seat `user` holds on `event`, if any.
pub fn read_for_user(event: EventId, user: UserId) -> (statement: Statement)
    ensures
        statement@ == crate::page::sends(
            READ_FOR_USER,
            seq![ParamView::Uuid(event.0), ParamView::Uuid(user.0)],
        ),
{
    Statement::new(READ_FOR_USER, vec![Param::Uuid(event.0), Param::Uuid(user.0)])
}

pub const LIST_FOR_EVENT: &'static str =
    "SELECT event, app_user, registered_by FROM registration WHERE event = $1 ORDER BY event \
     DESC, app_user DESC";

/// The read of every seat of an event.
pub fn list_for_event(event: EventId) -> (statement: Statement)
    ensures
        statement@ == crate::page::sends(LIST_FOR_EVENT, seq![ParamView::Uuid(event.0)]),
{
    Statement::new(LIST_FOR_EVENT, vec![Param::Uuid(event.0)])
}

pub const CLAIM_SEAT: &'static str =
    "WITH seat AS ( UPDATE event SET registration_count = registration_count + 1 WHERE id = $1 \
     AND (audience_capacity IS NULL OR registration_count < audience_capacity) RETURNING 1), \
     person AS ( SELECT 1 FROM app_user WHERE id = $2 AND role IS DISTINCT FROM 'parent' FOR NO \
     KEY UPDATE) INSERT INTO registration (event, app_user, registered_by) SELECT $1, $2, $3 \
     WHERE EXISTS (SELECT 1 FROM seat) AND EXISTS (SELECT 1 FROM person) RETURNING event, \
     app_user, registered_by";

/// The claim of a seat: the bump of the event's counter, the check of the
/// holder's role and the insert are one statement, so neither a racing
/// placement nor a lowered capacity can over-admit.
pub fn claim_seat(event: EventId, user: UserId, registered_by: UserId) -> (statement: Statement)
    ensures
        statement@ == crate::page::sends(
            CLAIM_SEAT,
            seq![
                ParamView::Uuid(event.0),
                ParamView::Uuid(user.0),
                ParamView::Uuid(registered_by.0),
            ],
        ),
{
    Statement::new(
        CLAIM_SEAT,
        vec![Param::Uuid(event.0), Param::Uuid(user.0), Param::Uuid(registered_by.0)],
    )
}

/// The unique constraint of a seat.
pub const REGISTRATION_PAIR: &'static str = "registration_event_user";

/// What a claim comes to: the seat; a rival placement of the same pair that
/// won; or an event that is full or gone, or a holder who may not sit.
pub fn seat_claimed<T>(outcome: Result<Option<T>, DbError>) -> (claimed: Result<
    Claimed<T>,
    AppError,
>)
    ensures
        match outcome {
            Ok(Some(row)) => claimed == Ok::<Claimed<T>, AppError>(Claimed::Made(row)),
            Ok(None) => claimed == Ok::<Claimed<T>, AppError>(Claimed::Full),
            Err(error) => if error.violates_unique(REGISTRATION_PAIR@) {
                claimed == Ok::<Claimed<T>, AppError>(Claimed::Duplicate)
            } else {
                claimed is Err && claimed->Err_0@ == AppErrorView::Db(error)
            },
        },
{
    verdict(outcome, REGISTRATION_PAIR)
}

/// The statement a removal waits for.
#[derive(Clone, Copy, PartialEq, Eq, Structural, Debug)]
pub enum Remove {
    /// Delete the seat; its row is the answer.
    DeleteRow,
    /// Give the seat back to the event.
    ReleaseSeat,
}

pub const DELETE_SEAT: &'static str =
    "DELETE FROM registration WHERE event = $1 AND app_user = $2 RETURNING event, app_user, \
     registered_by";
pub const RELEASE_SEAT: &'static str =
    "UPDATE event SET registration_count = GREATEST(registration_count - 1, 0) WHERE id = $1";

impl Remove {
    /// The statement of this step.
    pub open spec fn asks(self, event: EventId, user: UserId) -> StatementView {
        match self {
            Remove::DeleteRow => crate::page::sends(
                DELETE_SEAT,
                seq![ParamView::Uuid(event.0), ParamView::Uuid(user.0)],
            ),
            Remove::ReleaseSeat => crate::page::sends(
                RELEASE_SEAT,
                seq![ParamView::Uuid(event.0)],
            ),
        }
    }

    /// The statement of this step.
    pub fn statement(self, event: EventId, user: UserId) -> (statement: Statement)
        ensures
            statement@ == self.asks(event, user),
    {
        match self {
            Remove::DeleteRow => Statement::new(
                DELETE_SEAT,
                vec![Param::Uuid(event.0), Param::Uuid(user.0)],
            ),
            Remove::ReleaseSeat => Statement::new(RELEASE_SEAT, vec![Param::Uuid(event.0)]),
        }
    }
}

/// What a removal does once the statement of `at` is answered.
pub open spec fn remove_next(at: Remove, reply: Reply) -> Step<Remove, bool, ()> {
    match at {
        Remove::DeleteRow => if reply.has_row() {
            Step::Ask(Remove::ReleaseSeat)
        } else {
            Step::Commit(false)
        },
        Remove::ReleaseSeat => Step::Commit(true),
    }
}

/// Remove a seat: the step that follows the answer to `at`. A removal starts
/// at [`Remove::DeleteRow`] and answers whether there was a seat.
pub fn remove(at: Remove, reply: Reply) -> (step: Step<Remove, bool, ()>)
    ensures
        step == remove_next(at, reply),
{
    match at {
        Remove::DeleteRow => if reply.row() {
            Step::Ask(Remove::ReleaseSeat)
        } else {
            Step::Commit(false)
        },
        Remove::ReleaseSeat => Step::Commit(true),
    }
}

/// The seats with each event's counter, each event's capacity where it has
/// one, and who may sit.
#[verifier::ext_equal]
pub struct Hall {
    pub seats: References<(EventId, UserId), EventId>,
    pub capacity: Map<EventId, int>,
    pub may_sit: Set<UserId>,
}

impl Hall {
    /// Whether an event has room, by its counter.
    pub open spec fn has_room(self, event: EventId) -> bool {
        self.seats.counts.contains_key(event) && (self.capacity.contains_key(event)
            ==> self.seats.counts[event] < self.capacity[event])
    }

    /// No event has more seats taken than it has.
    pub open spec fn within_capacity(self) -> bool {
        forall|event: EventId| #[trigger]
            self.seats.counts.contains_key(event) && self.capacity.contains_key(event)
                ==> self.seats.counts[event] <= self.capacity[event]
    }

    /// No counter is behind the seats it counts.
    pub open spec fn covered(self) -> bool {
        &&& self.seats.links.dom().finite()
        &&& forall|event: EventId| #[trigger]
            self.seats.counts.contains_key(event) ==> self.seats.counts[event]
                >= crate::tally::tally(self.seats.links, crate::reference::points_at(event))
    }

    /// What a claim leaves, and what it comes to.
    pub open spec fn after_claim(self, event: EventId, user: UserId) -> (Hall, Claimed<()>) {
        if !self.has_room(event) {
            (self, Claimed::Full)
        } else if !self.may_sit.contains(user) {
            (Hall { seats: self.seats.claimed(event), ..self }, Claimed::Full)
        } else if self.seats.links.contains_key((event, user)) {
            (self, Claimed::Duplicate)
        } else {
            (
                Hall {
                    seats: self.seats.claimed(event).linked((event, user), event),
                    ..self
                },
                Claimed::Made(()),
            )
        }
    }
}

/// Whatever a claim comes to, no event is over-admitted: its counter never
/// passes its capacity and is never behind its seats.
pub proof fn law_claim_never_over_admits(db: Hall, event: EventId, user: UserId)
    requires
        db.covered(),
        db.within_capacity(),
    ensures
        db.after_claim(event, user).0.covered(),
        db.after_claim(event, user).0.within_capacity(),
{
    let after = db.after_claim(event, user).0;
    assert forall|other: EventId| #[trigger] after.seats.counts.contains_key(other) implies
        after.seats.counts[other] >= crate::tally::tally(
        after.seats.links,
        crate::reference::points_at(other),
    ) by {
        assert(db.seats.counts.contains_key(other));
        if after.seats.links != db.seats.links {
            crate::tally::lemma_tally_insert(
                db.seats.links,
                (event, user),
                event,
                crate::reference::points_at(other),
            );
        }
    }
    assert forall|other: EventId| #[trigger]
        after.seats.counts.contains_key(other) && after.capacity.contains_key(other) implies
        after.seats.counts[other] <= after.capacity[other] by {
        assert(db.seats.counts.contains_key(other));
    }
}

/// A claim of somebody who may sit keeps each counter equal to the seats it
/// counts, and a claim that is not made writes nothing.
pub proof fn law_claim_keeps_seats(db: Hall, event: EventId, user: UserId)
    requires
        db.seats.counted(),
        db.may_sit.contains(user),
    ensures
        db.after_claim(event, user).0.seats.counted(),
        db.after_claim(event, user).1 is Made <==> db.has_room(event)
            && !db.seats.links.contains_key((event, user)),
        db.after_claim(event, user).1 !is Made ==> db.after_claim(event, user).0 == db,
{
    if db.after_claim(event, user).1 is Made {
        crate::reference::lemma_link_counted(db.seats, (event, user), event);
    }
}

/// What each statement of a removal does, and what it replies.
pub open spec fn remove_effect(db: Hall, event: EventId, user: UserId, at: Remove) -> (
    Hall,
    Reply,
) {
    match at {
        Remove::DeleteRow => if db.seats.links.contains_key((event, user)) {
            (Hall { seats: db.seats.unlinked((event, user)), ..db }, Reply::Row)
        } else {
            (db, Reply::Empty)
        },
        Remove::ReleaseSeat => (Hall { seats: db.seats.released(event), ..db }, Reply::Row),
    }
}

/// A whole removal.
pub open spec fn remove_run(db: Hall, event: EventId, user: UserId) -> (
    Hall,
    Step<Remove, bool, ()>,
) {
    crate::transaction::run(
        db,
        Step::Ask(Remove::DeleteRow),
        |at: Remove, reply: Reply| remove_next(at, reply),
        |hall: Hall, at: Remove| remove_effect(hall, event, user, at),
        2,
    )
}

/// A removal gives the seat back with the row, answers whether there was one,
/// and writes nothing where there was none.
pub proof fn law_remove_keeps_seats(db: Hall, event: EventId, user: UserId)
    requires
        db.seats.counted(),
        db.seats.links.contains_key((event, user)) ==> db.seats.links[(event, user)] == event,
    ensures
        ({
            let end = remove_run(db, event, user);
            let after = crate::transaction::stored(db, end);
            &&& end.1 == Step::<Remove, bool, ()>::Commit(
                db.seats.links.contains_key((event, user)),
            )
            &&& !db.seats.links.contains_key((event, user)) ==> after == db
            &&& !after.seats.links.contains_key((event, user))
            &&& after.seats.counted()
        }),
{
    reveal_with_fuel(crate::transaction::run, 3);
    if db.seats.links.contains_key((event, user)) {
        crate::reference::lemma_unlink_counted(db.seats, (event, user));
    }
}

/// A seat taken and given up leaves the hall as it was.
pub proof fn law_claim_then_remove(db: Hall, event: EventId, user: UserId)
    requires
        db.seats.counted(),
        db.after_claim(event, user).1 is Made,
    ensures
        ({
            let seated = db.after_claim(event, user).0;
            crate::transaction::stored(seated, remove_run(seated, event, user)) == db
        }),
{
    reveal_with_fuel(crate::transaction::run, 3);
    let seated = db.after_claim(event, user).0;
    let after = crate::transaction::stored(seated, remove_run(seated, event, user));
    assert(db.seats.counts[event] == crate::tally::tally(
        db.seats.links,
        crate::reference::points_at(event),
    ));
    assert(after.seats.links =~= db.seats.links);
    assert(after.seats.counts =~= db.seats.counts);
}

/// What [`READ_FOR_USER`] says.
pub open spec fn read_for_user_reading() -> Picking {
    Picking {
        skip: 0,
        head: "SELECT "@,
        columns: seq!["event"@, "app_user"@, "registered_by"@],
        table: "registration"@,
        conditions: seq![crate::sql::is_bound("event"@, 1), crate::sql::is_bound("app_user"@, 2)],
        rest: crate::sql::before(" LIMIT 1"@, Text::End),
    }
}

proof fn lemma_read_for_user_reads()
    ensures
        crate::sql::spells(READ_FOR_USER@, 0, read_for_user_reading().text()),
{
    reveal_strlit("SELECT event, app_user, registered_by FROM registration WHERE event = $1 AND app_user = $2 LIMIT 1");
    reveal_strlit("SELECT ");
    reveal_strlit("event");
    reveal_strlit(", ");
    reveal_strlit("app_user");
    reveal_strlit("registered_by");
    reveal_strlit(" FROM ");
    reveal_strlit("registration");
    reveal_strlit(" WHERE ");
    reveal_strlit(" = ");
    reveal_strlit("$");
    reveal_strlit(" AND ");
    reveal_strlit(" LIMIT 1");
    reveal(crate::sql::Picking::text);
    reveal_with_fuel(crate::sql::where_text, 3);
    reveal_with_fuel(crate::sql::names_text, 4);
    reveal_with_fuel(crate::sql::stands, 14);
    reveal_with_fuel(crate::sql::spells_by, 18);
    crate::sql::lemma_spells_by(READ_FOR_USER@, 0, read_for_user_reading().text(), crate::sql::cut(7, crate::sql::cut(12, crate::sql::cut(14, crate::sql::cut(22, crate::sql::cut(24, crate::sql::cut(37, crate::sql::cut(43, crate::sql::cut(55, crate::sql::cut(62, crate::sql::cut(67, crate::sql::cut(70, crate::sql::cut(72, crate::sql::cut(77, crate::sql::cut(85, crate::sql::cut(88, crate::sql::cut(90, crate::sql::cut(98, Cuts::Last))))))))))))))))));
}

/// [`read_for_user`] reads the rows it names and no other.
pub proof fn law_read_for_user_reads_its_rows(
    event: EventId,
    user: UserId,
    sent: Statement,
    row: Row,
)
    requires
        call_ensures(read_for_user, (event, user), sent),
    ensures
        read_for_user_reading().is_read(sent@),
        read_for_user_reading().picks(sent@.binds, row) == (row["event"@] == Cell::Uuid(event.0) && row["app_user"@] == Cell::Uuid(user.0)),
{
    lemma_read_for_user_reads();
    reveal_with_fuel(crate::sql::all_hold, 3);
}

/// What [`LIST_FOR_EVENT`] says.
pub open spec fn list_for_event_reading() -> Picking {
    Picking {
        skip: 0,
        head: "SELECT "@,
        columns: seq!["event"@, "app_user"@, "registered_by"@],
        table: "registration"@,
        conditions: seq![crate::sql::is_bound("event"@, 1)],
        rest: crate::sql::before(" ORDER BY event DESC, app_user DESC"@, Text::End),
    }
}

proof fn lemma_list_for_event_reads()
    ensures
        crate::sql::spells(LIST_FOR_EVENT@, 0, list_for_event_reading().text()),
{
    reveal_strlit("SELECT event, app_user, registered_by FROM registration WHERE event = $1 ORDER BY event DESC, app_user DESC");
    reveal_strlit("SELECT ");
    reveal_strlit("event");
    reveal_strlit(", ");
    reveal_strlit("app_user");
    reveal_strlit("registered_by");
    reveal_strlit(" FROM ");
    reveal_strlit("registration");
    reveal_strlit(" WHERE ");
    reveal_strlit(" = ");
    reveal_strlit("$");
    reveal_strlit(" ORDER BY event DESC, app_user DESC");
    reveal(crate::sql::Picking::text);
    reveal_with_fuel(crate::sql::where_text, 2);
    reveal_with_fuel(crate::sql::names_text, 4);
    reveal_with_fuel(crate::sql::stands, 36);
    reveal_with_fuel(crate::sql::spells_by, 14);
    crate::sql::lemma_spells_by(LIST_FOR_EVENT@, 0, list_for_event_reading().text(), crate::sql::cut(7, crate::sql::cut(12, crate::sql::cut(14, crate::sql::cut(22, crate::sql::cut(24, crate::sql::cut(37, crate::sql::cut(43, crate::sql::cut(55, crate::sql::cut(62, crate::sql::cut(67, crate::sql::cut(70, crate::sql::cut(72, crate::sql::cut(107, Cuts::Last))))))))))))));
}

/// [`list_for_event`] reads the rows it names and no other.
pub proof fn law_list_for_event_reads_its_rows(
    event: EventId,
    sent: Statement,
    row: Row,
)
    requires
        call_ensures(list_for_event, (event,), sent),
    ensures
        list_for_event_reading().is_read(sent@),
        list_for_event_reading().picks(sent@.binds, row) == (row["event"@] == Cell::Uuid(event.0)),
{
    lemma_list_for_event_reads();
    reveal_with_fuel(crate::sql::all_hold, 2);
}

/// The text of [`CLAIM_SEAT`], taken apart at its placeholders.
pub open spec fn claim_seat_text() -> Text {
    crate::sql::before("WITH seat AS ( UPDATE event SET"@, crate::sql::before(" registration_count = registration_count + 1"@, crate::sql::before(" WHERE id = "@, crate::sql::before(crate::text::placeholder(1), crate::sql::before(" AND (audience_capacity IS NULL OR"@, crate::sql::before(" registration_count < audience_capacity)"@, crate::sql::before(" RETURNING 1), person AS ( SELECT 1 FROM"@, crate::sql::before(" app_user WHERE id = "@, crate::sql::before(crate::text::placeholder(2), crate::sql::before(" AND role IS DISTINCT FROM 'parent' FOR NO KEY"@, crate::sql::before(" UPDATE) INSERT INTO registration (event,"@, crate::sql::before(" app_user, registered_by) SELECT "@, crate::sql::before(crate::text::placeholder(1), crate::sql::before(", "@, crate::sql::before(crate::text::placeholder(2), crate::sql::before(", "@, crate::sql::before(crate::text::placeholder(3), crate::sql::before(" WHERE EXISTS (SELECT 1 FROM seat) AND EXISTS"@, crate::sql::before(" (SELECT 1 FROM person) RETURNING event,"@, crate::sql::before(" app_user, registered_by"@, Text::End))))))))))))))))))))
}

proof fn lemma_claim_seat_reads()
    ensures
        crate::sql::spells(CLAIM_SEAT@, 0, claim_seat_text()),
{
    reveal_strlit("WITH seat AS ( UPDATE event SET registration_count = registration_count + 1 WHERE id = $1 AND (audience_capacity IS NULL OR registration_count < audience_capacity) RETURNING 1), person AS ( SELECT 1 FROM app_user WHERE id = $2 AND role IS DISTINCT FROM 'parent' FOR NO KEY UPDATE) INSERT INTO registration (event, app_user, registered_by) SELECT $1, $2, $3 WHERE EXISTS (SELECT 1 FROM seat) AND EXISTS (SELECT 1 FROM person) RETURNING event, app_user, registered_by");
    reveal_strlit("WITH seat AS ( UPDATE event SET");
    reveal_strlit(" registration_count = registration_count + 1");
    reveal_strlit(" WHERE id = ");
    reveal_strlit("$");
    reveal_strlit(" AND (audience_capacity IS NULL OR");
    reveal_strlit(" registration_count < audience_capacity)");
    reveal_strlit(" RETURNING 1), person AS ( SELECT 1 FROM");
    reveal_strlit(" app_user WHERE id = ");
    reveal_strlit(" AND role IS DISTINCT FROM 'parent' FOR NO KEY");
    reveal_strlit(" UPDATE) INSERT INTO registration (event,");
    reveal_strlit(" app_user, registered_by) SELECT ");
    reveal_strlit(", ");
    reveal_strlit(" WHERE EXISTS (SELECT 1 FROM seat) AND EXISTS");
    reveal_strlit(" (SELECT 1 FROM person) RETURNING event,");
    reveal_strlit(" app_user, registered_by");
    reveal_with_fuel(crate::sql::stands, 47);
    reveal_with_fuel(crate::sql::spells_by, 21);
    crate::sql::lemma_spells_by(CLAIM_SEAT@, 0, claim_seat_text(), crate::sql::cut(31, crate::sql::cut(75, crate::sql::cut(87, crate::sql::cut(89, crate::sql::cut(123, crate::sql::cut(163, crate::sql::cut(203, crate::sql::cut(224, crate::sql::cut(226, crate::sql::cut(272, crate::sql::cut(313, crate::sql::cut(346, crate::sql::cut(348, crate::sql::cut(350, crate::sql::cut(352, crate::sql::cut(354, crate::sql::cut(356, crate::sql::cut(401, crate::sql::cut(441, crate::sql::cut(465, Cuts::Last)))))))))))))))))))));
}

/// [`claim_seat`] binds each value at its own place in the text.
pub proof fn law_claim_seat_binds_its_values(
    event: EventId,
    user: UserId,
    registered_by: UserId,
    sent: Statement,
)
    requires
        call_ensures(claim_seat, (event, user, registered_by), sent),
    ensures
        crate::sql::spells(sent@.sql, 0, claim_seat_text()),
        sent@.binds.len() == 3,
        crate::sql::cell(sent@.binds[0]) == Cell::Uuid(event.0),
        crate::sql::cell(sent@.binds[1]) == Cell::Uuid(user.0),
        crate::sql::cell(sent@.binds[2]) == Cell::Uuid(registered_by.0),
{
    lemma_claim_seat_reads();
}

/// What [`DELETE_SEAT`] says.
pub open spec fn delete_seat_reading() -> Picking {
    Picking {
        skip: 0,
        head: "DELETE FROM "@,
        columns: Seq::empty(),
        table: "registration"@,
        conditions: seq![crate::sql::is_bound("event"@, 1), crate::sql::is_bound("app_user"@, 2)],
        rest: crate::sql::returning(),
    }
}

proof fn lemma_delete_seat_reads()
    ensures
        crate::sql::spells(DELETE_SEAT@, 0, delete_seat_reading().text()),
{
    reveal_strlit("DELETE FROM registration WHERE event = $1 AND app_user = $2 RETURNING event, app_user, registered_by");
    reveal_strlit("DELETE FROM ");
    reveal_strlit("registration");
    reveal_strlit(" WHERE ");
    reveal_strlit("event");
    reveal_strlit(" = ");
    reveal_strlit("$");
    reveal_strlit(" AND ");
    reveal_strlit("app_user");
    reveal_strlit(" RETURNING ");
    reveal(crate::sql::Picking::text);
    reveal_with_fuel(crate::sql::where_text, 3);
    reveal_with_fuel(crate::sql::stands, 13);
    reveal_with_fuel(crate::sql::spells_by, 12);
    crate::sql::lemma_spells_by(DELETE_SEAT@, 0, delete_seat_reading().text(), crate::sql::cut(12, crate::sql::cut(24, crate::sql::cut(31, crate::sql::cut(36, crate::sql::cut(39, crate::sql::cut(41, crate::sql::cut(46, crate::sql::cut(54, crate::sql::cut(57, crate::sql::cut(59, crate::sql::cut(70, Cuts::Last))))))))))));
}

/// [`Remove::DeleteRow`] deletes the rows it names and no other.
pub proof fn law_remove_delete_row_deletes_its_rows(
    event: EventId,
    user: UserId,
    row: Row,
)
    ensures
        ({
            let sent = Remove::DeleteRow.asks(event, user);
            &&& delete_seat_reading().is_read(sent)
            &&& delete_seat_reading().picks(sent.binds, row) == (row["event"@] == Cell::Uuid(event.0) && row["app_user"@] == Cell::Uuid(user.0))
        }),
{
    lemma_delete_seat_reads();
    reveal_with_fuel(crate::sql::all_hold, 3);
}

/// What [`RELEASE_SEAT`] says.
pub open spec fn release_seat_reading() -> Writing {
    Writing {
        head: "UPDATE "@,
        table: "event"@,
        sets: seq![("registration_count"@, Expr::Floored(Term::Column("registration_count"@), Term::Word("1"@, Cell::Int(1))))],
        conditions: seq![crate::sql::is_bound("id"@, 1)],
        rest: Text::End,
    }
}

proof fn lemma_release_seat_reads()
    ensures
        crate::sql::spells(RELEASE_SEAT@, 0, release_seat_reading().text()),
{
    reveal_strlit("UPDATE event SET registration_count = GREATEST(registration_count - 1, 0) WHERE id = $1");
    reveal_strlit("UPDATE ");
    reveal_strlit("event");
    reveal_strlit(" SET ");
    reveal_strlit("registration_count");
    reveal_strlit(" = ");
    reveal_strlit("GREATEST(");
    reveal_strlit(" - ");
    reveal_strlit("1");
    reveal_strlit(", 0)");
    reveal_strlit(" WHERE ");
    reveal_strlit("id");
    reveal_strlit("$");
    reveal(crate::sql::Writing::text);
    reveal_with_fuel(crate::sql::set_text, 2);
    reveal_with_fuel(crate::sql::where_text, 2);
    reveal_with_fuel(crate::sql::stands, 19);
    reveal_with_fuel(crate::sql::spells_by, 15);
    crate::sql::lemma_spells_by(RELEASE_SEAT@, 0, release_seat_reading().text(), crate::sql::cut(7, crate::sql::cut(12, crate::sql::cut(17, crate::sql::cut(35, crate::sql::cut(38, crate::sql::cut(47, crate::sql::cut(65, crate::sql::cut(68, crate::sql::cut(69, crate::sql::cut(73, crate::sql::cut(80, crate::sql::cut(82, crate::sql::cut(85, crate::sql::cut(87, Cuts::Last)))))))))))))));
}

/// [`Remove::ReleaseSeat`] picks the rows it names and no other, and overwrites each column with
/// its own value.
pub proof fn law_remove_release_seat_writes_its_row(
    event: EventId,
    user: UserId,
    row: Row,
)
    ensures
        ({
            let sent = Remove::ReleaseSeat.asks(event, user);
            &&& release_seat_reading().is_read(sent)
            &&& release_seat_reading().picks(sent.binds, row) == (row["id"@] == Cell::Uuid(event.0))
            &&& release_seat_reading().writes(sent.binds, row) == seq![
                ("registration_count"@, Cell::Int(crate::tally::floored(row["registration_count"@].number() - 1))),
            ]
        }),
{
    lemma_release_seat_reads();
    reveal_with_fuel(crate::sql::all_hold, 2);
}

} // verus!
