//! The `meal_booking` table: row reads, the two listings, and the folded
//! transactions every seat moves by: [`claim_and_place`] (seat, row and charge
//! in one) and [`release_seat`] (flip, counter and refund in one).

use vstd::prelude::*;

use crate::claim::ClaimRefusal;
use crate::id::{Timestamp, UserId};
use crate::meal_ledger::{LedgerAmount, LineRow, MealLedger, MealLedgerKind};
use crate::page::{paged, Param, ParamView, Statement, StatementView, Uuid};
use crate::sql::{Cell, Cond, Conflict, Cuts, Expr, Picking, Row, Storing, Term, Text, Writing};
use crate::transaction::{Reply, Step};

verus! {

/// Whether a seat is held.
#[derive(Clone, Copy, PartialEq, Eq, Structural, Debug)]
pub enum MealBookingStatus {
    Booked,
    Cancelled,
}

impl MealBookingStatus {
    /// The stored name of a status.
    pub open spec fn name(self) -> Seq<char> {
        match self {
            MealBookingStatus::Booked => "booked"@,
            MealBookingStatus::Cancelled => "cancelled"@,
        }
    }

    /// The stored name of a status.
    pub fn as_str(self) -> (name: &'static str)
        ensures
            name@ == self.name(),
    {
        match self {
            MealBookingStatus::Booked => "booked",
            MealBookingStatus::Cancelled => "cancelled",
        }
    }
}

/// A student's seat on a menu. `attempt` counts how often it was booked.
#[derive(Debug)]
pub struct MealBooking {
    pub menu: String,
    pub student: UserId,
    pub booked_by: UserId,
    pub status: MealBookingStatus,
    pub attempt: i64,
    pub price_minor: Option<LedgerAmount>,
    pub cancelled_at: Option<Timestamp>,
    pub created_at: Timestamp,
}

pub const READ: &'static str =
    "SELECT menu, student, booked_by, status, attempt, price_minor, cancelled_at, created_at \
     FROM meal_booking WHERE menu = $1 AND student = $2";

/// The read of a student's seat on a menu.
pub fn read(menu: &str, student: UserId) -> (statement: Statement)
    ensures
        statement@ == crate::page::sends(
            READ,
            seq![ParamView::Text(menu@), ParamView::Uuid(student.0)],
        ),
{
    Statement::new(READ, vec![Param::Text(menu.to_owned()), Param::Uuid(student.0)])
}

pub const LIST_FOR_MENU_FROM: &'static str =
    "meal_booking WHERE menu = $1";

pub const LIST_FOR_MENU_ORDER: &'static str = "ORDER BY created_at DESC, student DESC";

/// The read of every booking on a menu, cancelled ones too.
pub fn list_for_menu(
    menu: &str,
    limit: Option<i64>,
    offset: i64,
) -> (both: (Statement, Option<Statement>))
    ensures
        crate::page::pages(
            both,
            LIST_FOR_MENU_FROM@,
            LIST_FOR_MENU_ORDER@,
            seq![ParamView::Text(menu@)],
            limit,
            offset,
        ),
{
    let binds: Vec<Param> = vec![Param::Text(menu.to_owned())];
    assert(crate::page::bound(binds@) =~= seq![ParamView::Text(menu@)]);
    paged(LIST_FOR_MENU_FROM, LIST_FOR_MENU_ORDER, binds, limit, offset)
}

pub const LIST_FOR_STUDENTS: &'static str =
    "SELECT menu, student, booked_by, status, attempt, price_minor, cancelled_at, created_at \
     FROM meal_booking WHERE student = ANY($1::uuid[]) ORDER BY created_at DESC, menu DESC \
     LIMIT $2 OFFSET $3";
pub const COUNT_FOR_STUDENTS: &'static str =
    "SELECT count(*) FROM meal_booking WHERE student = ANY($1::uuid[])";

/// The read of every seat held for one of `students`, newest first, and its
/// total where the window can hide rows. Nobody is no read: an empty list and
/// a total of zero.
pub fn list_for_students(students: &Vec<UserId>, limit: Option<i64>, offset: i64) -> (both: Option<
    (Statement, Option<Statement>),
>)
    ensures
        both is Some == (students.len() > 0),
        both is Some ==> {
            let keys = ParamView::Uuids(crate::homework::user_keys(students@));
            let (list, count) = both->0;
            &&& list@ == crate::page::sends(
                LIST_FOR_STUDENTS,
                seq![keys, ParamView::OptI64(limit), ParamView::I64(offset)],
            )
            &&& count is Some == (limit is Some || offset != 0)
            &&& count is Some ==> count->0@ == crate::page::sends(COUNT_FOR_STUDENTS, seq![keys])
        },
{
    if students.len() == 0 {
        return None;
    }
    let keys: Vec<Uuid> = crate::homework::keys_of(students);
    let list = Statement::new(
        LIST_FOR_STUDENTS,
        vec![
            Param::Uuids(crate::page::uuids(&keys)),
            Param::OptI64(limit),
            Param::I64(offset),
        ],
    );
    if limit.is_some() || offset != 0 {
        let count = Statement::new(COUNT_FOR_STUDENTS, vec![Param::Uuids(keys)]);
        Some((list, Some(count)))
    } else {
        Some((list, None))
    }
}

/// The statement a booking waits for.
#[derive(Clone, Copy, PartialEq, Eq, Structural, Debug)]
pub enum Place {
    /// Read whether the student holds the seat already.
    ReadHeld,
    /// Take a seat, under the cap and at the revision the price was read at.
    ClaimSeat,
    /// Revive a cancelled row that still stands at the attempt before; its
    /// row is the answer.
    Revive,
    /// Insert a fresh row, where there is none; its row is the answer.
    Insert,
    /// Write the charge, unless it is there.
    Charge,
}

/// A booking: the row to place, at the attempt the caller minted, the cap and
/// the menu revision its price was read at.
pub struct PlaceRequest {
    pub row: MealBooking,
    pub cap: i64,
    pub seen: i64,
    pub price: Option<LedgerAmount>,
    pub charge: Option<MealLedger>,
}

pub const READ_HELD: &'static str =
    "SELECT 1 AS held FROM meal_booking WHERE menu = $1 AND student = $2 AND status = 'booked'";
pub const CLAIM_SEAT: &'static str =
    "UPDATE menu SET seats_booked = seats_booked + 1 WHERE id = $1 AND seats_booked < $2 AND \
     COALESCE(version, 0) = $3 RETURNING 1 AS seat";
pub const REVIVE: &'static str =
    "UPDATE meal_booking SET status = 'booked', attempt = $3, price_minor = $4, cancelled_at = \
     NULL WHERE menu = $1 AND student = $2 AND status = 'cancelled' AND attempt = $3::bigint - \
     1 RETURNING menu, student, booked_by, status, attempt, price_minor, cancelled_at, \
     created_at";
pub const INSERT_BOOKING: &'static str =
    "INSERT INTO meal_booking (menu, student, booked_by, status, attempt, price_minor, \
     cancelled_at, created_at) VALUES ($1, $2, $3, $4, $5, $6, $7, $8) ON CONFLICT (menu, \
     student) DO NOTHING RETURNING menu, student, booked_by, status, attempt, price_minor, \
     cancelled_at, created_at";

/// The value of an optional amount.
pub open spec fn amount_value(amount: Option<LedgerAmount>) -> Option<i64> {
    match amount {
        Some(amount) => Some(amount.0),
        None => None,
    }
}

/// The value of an optional moment.
pub open spec fn moment_value(moment: Option<Timestamp>) -> Option<i64> {
    match moment {
        Some(moment) => Some(moment.0),
        None => None,
    }
}

fn amount_of(amount: Option<LedgerAmount>) -> (value: Option<i64>)
    ensures
        value == amount_value(amount),
{
    match amount {
        Some(amount) => Some(amount.0),
        None => None,
    }
}

fn moment_of(moment: Option<Timestamp>) -> (value: Option<i64>)
    ensures
        value == moment_value(moment),
{
    match moment {
        Some(moment) => Some(moment.0),
        None => None,
    }
}

impl PlaceRequest {
    /// The statement of a step; [`Place::Charge`] is asked only of a request
    /// that carries a charge.
    pub open spec fn asks(self, at: Place) -> StatementView {
        let menu = ParamView::Text(self.row.menu@);
        let student = ParamView::Uuid(self.row.student.0);
        let attempt = ParamView::I64(self.row.attempt);
        let price = ParamView::OptI64(amount_value(self.price));
        match at {
            Place::ReadHeld => crate::page::sends(READ_HELD, seq![menu, student]),
            Place::ClaimSeat => crate::page::sends(
                CLAIM_SEAT,
                seq![menu, ParamView::I64(self.cap), ParamView::I64(self.seen)],
            ),
            Place::Revive => crate::page::sends(REVIVE, seq![menu, student, attempt, price]),
            Place::Insert => crate::page::sends(
                INSERT_BOOKING,
                seq![
                    menu,
                    student,
                    ParamView::Uuid(self.row.booked_by.0),
                    ParamView::Text(self.row.status.name()),
                    attempt,
                    price,
                    ParamView::OptI64(moment_value(self.row.cancelled_at)),
                    ParamView::I64(self.row.created_at.0),
                ],
            ),
            Place::Charge => crate::page::sends(
                crate::meal_ledger::INSERT_LINE,
                self.charge->0.line_binds(),
            ),
        }
    }

    /// The statement of a step, and none for the charge of a request that
    /// carries none.
    pub fn statement(&self, at: Place) -> (statement: Option<Statement>)
        ensures
            statement is Some == (at != Place::Charge || self.charge is Some),
            statement is Some ==> statement->0@ == self.asks(at),
    {
        let menu = Param::Text(self.row.menu.clone());
        let student = Param::Uuid(self.row.student.0);
        let attempt = Param::I64(self.row.attempt);
        let price = Param::OptI64(amount_of(self.price));
        match at {
            Place::ReadHeld => Some(Statement::new(READ_HELD, vec![menu, student])),
            Place::ClaimSeat => Some(
                Statement::new(
                    CLAIM_SEAT,
                    vec![menu, Param::I64(self.cap), Param::I64(self.seen)],
                ),
            ),
            Place::Revive => Some(Statement::new(REVIVE, vec![menu, student, attempt, price])),
            Place::Insert => Some(
                Statement::new(
                    INSERT_BOOKING,
                    vec![
                        menu,
                        student,
                        Param::Uuid(self.row.booked_by.0),
                        Param::Text(self.row.status.as_str().to_owned()),
                        attempt,
                        price,
                        Param::OptI64(moment_of(self.row.cancelled_at)),
                        Param::I64(self.row.created_at.0),
                    ],
                ),
            ),
            Place::Charge => match &self.charge {
                Some(line) => Some(crate::meal_ledger::insert_statement(line)),
                None => None,
            },
        }
    }
}

/// A placed row is charged, where there is a charge, and answered.
pub open spec fn placed_step(charged: bool) -> Step<Place, (), ClaimRefusal> {
    if charged {
        Step::Ask(Place::Charge)
    } else {
        Step::Commit(())
    }
}

/// What a booking does once the statement of `at` is answered. `charged` is
/// whether it carries a charge.
pub open spec fn place_next(at: Place, charged: bool, reply: Reply) -> Step<
    Place,
    (),
    ClaimRefusal,
> {
    match at {
        Place::ReadHeld => if reply.has_row() {
            Step::Abort(ClaimRefusal::Duplicate)
        } else {
            Step::Ask(Place::ClaimSeat)
        },
        Place::ClaimSeat => if reply.has_row() {
            Step::Ask(Place::Revive)
        } else {
            Step::Abort(ClaimRefusal::Full)
        },
        Place::Revive => if reply.has_row() {
            placed_step(charged)
        } else {
            Step::Ask(Place::Insert)
        },
        Place::Insert => if reply.has_row() {
            placed_step(charged)
        } else {
            Step::Abort(ClaimRefusal::Duplicate)
        },
        Place::Charge => Step::Commit(()),
    }
}

/// Take the seat and place the row in one transaction: the step that follows
/// the answer to `at`. A booking starts at [`Place::ReadHeld`].
///
/// Every refused path rolls the seat back: a seat held already and a row that
/// a rival placed are duplicates, and a menu without a seat at this revision
/// is full.
pub fn claim_and_place(at: Place, charged: bool, reply: Reply) -> (step: Step<
    Place,
    (),
    ClaimRefusal,
>)
    ensures
        step == place_next(at, charged, reply),
{
    let placed: Step<Place, (), ClaimRefusal> = if charged {
        Step::Ask(Place::Charge)
    } else {
        Step::Commit(())
    };
    match at {
        Place::ReadHeld => if reply.row() {
            Step::Abort(ClaimRefusal::Duplicate)
        } else {
            Step::Ask(Place::ClaimSeat)
        },
        Place::ClaimSeat => if reply.row() {
            Step::Ask(Place::Revive)
        } else {
            Step::Abort(ClaimRefusal::Full)
        },
        Place::Revive => if reply.row() {
            placed
        } else {
            Step::Ask(Place::Insert)
        },
        Place::Insert => if reply.row() {
            placed
        } else {
            Step::Abort(ClaimRefusal::Duplicate)
        },
        Place::Charge => Step::Commit(()),
    }
}

/// The statement a cancel waits for.
#[derive(Clone, Copy, PartialEq, Eq, Structural, Debug)]
pub enum Release {
    /// Flip the row to cancelled, only at the attempt that was read; its row
    /// is the answer.
    Flip,
    /// Give the seat back to the menu.
    GiveBack,
    /// Read whether the charge to undo is there.
    ReadCharge,
    /// Read whether it was undone before.
    ReadReversal { charged: bool },
    /// Write the reversal.
    Refund,
}

/// What a cancel comes to.
#[derive(Clone, Copy, PartialEq, Eq, Structural, Debug)]
pub enum Released {
    /// The seat is free.
    Freed,
    /// The row was not this call's own booked attempt any more.
    NotHeld,
}

/// The reversal of a seat's charge, and the key of the charge it undoes.
pub struct Refund {
    pub charge: String,
    pub line: MealLedger,
}

/// A cancel of the attempt that was read; a seat that was never billed
/// carries no refund.
pub struct ReleaseRequest {
    pub menu: String,
    pub student: UserId,
    pub attempt: i64,
    pub cancelled_at: Timestamp,
    pub refund: Option<Refund>,
}

pub const FLIP: &'static str =
    "UPDATE meal_booking SET status = 'cancelled', cancelled_at = $3 WHERE menu = $1 AND \
     student = $2 AND status = 'booked' AND attempt = $4 RETURNING menu, student, booked_by, \
     status, attempt, price_minor, cancelled_at, created_at";
pub const GIVE_SEAT_BACK: &'static str =
    "UPDATE menu SET seats_booked = GREATEST(seats_booked - 1, 0) WHERE id = $1";
pub const LINE_THERE: &'static str =
    "SELECT 1 AS there FROM meal_ledger WHERE id = $1";

impl ReleaseRequest {
    /// The statement of a step; the last three are asked only of a request
    /// that carries a refund.
    pub open spec fn asks(self, at: Release) -> StatementView {
        let menu = ParamView::Text(self.menu@);
        match at {
            Release::Flip => crate::page::sends(
                FLIP,
                seq![
                    menu,
                    ParamView::Uuid(self.student.0),
                    ParamView::I64(self.cancelled_at.0),
                    ParamView::I64(self.attempt),
                ],
            ),
            Release::GiveBack => crate::page::sends(GIVE_SEAT_BACK, seq![menu]),
            Release::ReadCharge => crate::page::sends(
                LINE_THERE,
                seq![ParamView::Text(self.refund->0.charge@)],
            ),
            Release::ReadReversal { .. } => crate::page::sends(
                LINE_THERE,
                seq![ParamView::Text(self.refund->0.line.id@)],
            ),
            Release::Refund => crate::page::sends(
                crate::meal_ledger::INSERT_LINE,
                self.refund->0.line.line_binds(),
            ),
        }
    }

    /// The statement of a step, and none where it is about a refund that the
    /// request does not carry.
    pub fn statement(&self, at: Release) -> (statement: Option<Statement>)
        ensures
            statement is Some == (at is Flip || at is GiveBack || self.refund is Some),
            statement is Some ==> statement->0@ == self.asks(at),
    {
        let menu = Param::Text(self.menu.clone());
        match at {
            Release::Flip => Some(
                Statement::new(
                    FLIP,
                    vec![
                        menu,
                        Param::Uuid(self.student.0),
                        Param::I64(self.cancelled_at.0),
                        Param::I64(self.attempt),
                    ],
                ),
            ),
            Release::GiveBack => Some(Statement::new(GIVE_SEAT_BACK, vec![menu])),
            Release::ReadCharge => match &self.refund {
                Some(refund) => Some(
                    Statement::new(LINE_THERE, vec![Param::Text(refund.charge.clone())]),
                ),
                None => None,
            },
            Release::ReadReversal { .. } => match &self.refund {
                Some(refund) => Some(
                    Statement::new(LINE_THERE, vec![Param::Text(refund.line.id.clone())]),
                ),
                None => None,
            },
            Release::Refund => match &self.refund {
                Some(refund) => Some(crate::meal_ledger::insert_statement(&refund.line)),
                None => None,
            },
        }
    }
}

/// What a cancel does once the statement of `at` is answered. `refunds` is
/// whether it carries a refund. It is never refused.
pub open spec fn release_next(at: Release, refunds: bool, reply: Reply) -> Step<
    Release,
    Released,
    (),
> {
    match at {
        Release::Flip => if reply.has_row() {
            Step::Ask(Release::GiveBack)
        } else {
            Step::Commit(Released::NotHeld)
        },
        Release::GiveBack => if refunds {
            Step::Ask(Release::ReadCharge)
        } else {
            Step::Commit(Released::Freed)
        },
        Release::ReadCharge => Step::Ask(Release::ReadReversal { charged: reply.has_row() }),
        Release::ReadReversal { charged } => if charged && !reply.has_row() {
            Step::Ask(Release::Refund)
        } else {
            Step::Commit(Released::Freed)
        },
        Release::Refund => Step::Commit(Released::Freed),
    }
}

/// Flip the seat to cancelled, give it back and refund it in one transaction:
/// the step that follows the answer to `at`. A cancel starts at
/// [`Release::Flip`]. The seat and the refund ride the flip: a row that is
/// not this call's own booked attempt moves neither, and a reversal is
/// written only for a charge that is there and was not undone.
pub fn release_seat(at: Release, refunds: bool, reply: Reply) -> (step: Step<
    Release,
    Released,
    (),
>)
    ensures
        step == release_next(at, refunds, reply),
{
    match at {
        Release::Flip => if reply.row() {
            Step::Ask(Release::GiveBack)
        } else {
            Step::Commit(Released::NotHeld)
        },
        Release::GiveBack => if refunds {
            Step::Ask(Release::ReadCharge)
        } else {
            Step::Commit(Released::Freed)
        },
        Release::ReadCharge => Step::Ask(Release::ReadReversal { charged: reply.row() }),
        Release::ReadReversal { charged } => if charged && !reply.row() {
            Step::Ask(Release::Refund)
        } else {
            Step::Commit(Released::Freed)
        },
        Release::Refund => Step::Commit(Released::Freed),
    }
}

/// The columns of a menu that seats read and write.
pub struct MenuSeats {
    pub seats: int,
    pub version: int,
}

/// A stored booking.
pub struct BookingRow {
    pub booked_by: UserId,
    pub booked: bool,
    pub attempt: int,
    pub price: Option<i64>,
    pub cancelled_at: Option<i64>,
    pub created_at: i64,
}

/// The tables a seat touches.
#[verifier::ext_equal]
pub struct Kitchen {
    pub menus: Map<Seq<char>, MenuSeats>,
    pub bookings: Map<(Seq<char>, UserId), BookingRow>,
    pub ledger: Map<Seq<char>, LineRow>,
}

/// The seats held on one menu.
pub open spec fn held_on(menu: Seq<char>) -> spec_fn((Seq<char>, UserId), BookingRow) -> bool {
    |key: (Seq<char>, UserId), row: BookingRow| key.0 == menu && row.booked
}

impl Kitchen {
    /// Every menu's `seats_booked` is the number of seats held on it.
    pub open spec fn seats_counted(self) -> bool {
        &&& self.bookings.dom().finite()
        &&& self.ledger.dom().finite()
        &&& forall|menu: Seq<char>| #[trigger]
            self.menus.contains_key(menu) ==> self.menus[menu].seats == crate::tally::tally(
                self.bookings,
                held_on(menu),
            )
    }
}

/// A booking as the tables see it: its key, who books and when, its attempt,
/// cap, revision and price, and the key of the charge, where there is one.
pub struct Booking {
    pub menu: Seq<char>,
    pub student: UserId,
    pub booked_by: UserId,
    pub created_at: i64,
    pub attempt: int,
    pub cap: int,
    pub seen: int,
    pub price: Option<i64>,
    pub charge: Option<(Seq<char>, int)>,
}

impl Booking {
    /// The key of the seat.
    pub open spec fn seat(self) -> (Seq<char>, UserId) {
        (self.menu, self.student)
    }
}

/// The row a booking leaves. Who opened the seat, and when, is fixed history:
/// a revived row keeps both.
pub open spec fn placed_row(db: Kitchen, booking: Booking) -> BookingRow {
    let key = booking.seat();
    BookingRow {
        booked_by: if db.bookings.contains_key(key) {
            db.bookings[key].booked_by
        } else {
            booking.booked_by
        },
        booked: true,
        attempt: booking.attempt,
        price: booking.price,
        cancelled_at: None,
        created_at: if db.bookings.contains_key(key) {
            db.bookings[key].created_at
        } else {
            booking.created_at
        },
    }
}

/// What each statement of a booking does to the tables, and what it replies.
pub open spec fn place_effect(db: Kitchen, booking: Booking, at: Place) -> (Kitchen, Reply) {
    let key = booking.seat();
    let placed = placed_row(db, booking);
    match at {
        Place::ReadHeld => (
            db,
            if db.bookings.contains_key(key) && db.bookings[key].booked {
                Reply::Row
            } else {
                Reply::Empty
            },
        ),
        Place::ClaimSeat => if db.menus.contains_key(booking.menu) && db.menus[booking.menu].seats
            < booking.cap && db.menus[booking.menu].version == booking.seen {
            (
                Kitchen {
                    menus: db.menus.insert(
                        booking.menu,
                        MenuSeats {
                            seats: db.menus[booking.menu].seats + 1,
                            ..db.menus[booking.menu]
                        },
                    ),
                    ..db
                },
                Reply::Row,
            )
        } else {
            (db, Reply::Empty)
        },
        Place::Revive => if db.bookings.contains_key(key) && !db.bookings[key].booked
            && db.bookings[key].attempt == booking.attempt - 1 {
            (Kitchen { bookings: db.bookings.insert(key, placed), ..db }, Reply::Row)
        } else {
            (db, Reply::Empty)
        },
        Place::Insert => if db.bookings.contains_key(key) {
            (db, Reply::Empty)
        } else {
            (Kitchen { bookings: db.bookings.insert(key, placed), ..db }, Reply::Row)
        },
        Place::Charge => match booking.charge {
            Some((id, amount)) => (
                Kitchen {
                    ledger: crate::meal_ledger::appended(
                        db.ledger,
                        id,
                        LineRow { student: booking.student, kind: MealLedgerKind::Charge, amount },
                    ),
                    ..db
                },
                Reply::Row,
            ),
            None => (db, Reply::Row),
        },
    }
}

/// A whole booking against the tables.
pub open spec fn place_run(db: Kitchen, booking: Booking) -> (Kitchen, Step<
    Place,
    (),
    ClaimRefusal,
>) {
    crate::transaction::run(
        db,
        Step::Ask(Place::ReadHeld),
        |at: Place, reply: Reply| place_next(at, booking.charge is Some, reply),
        |tables: Kitchen, at: Place| place_effect(tables, booking, at),
        5,
    )
}

/// What the tables hold after a booking.
pub open spec fn after_place(db: Kitchen, booking: Booking) -> Kitchen {
    crate::transaction::stored(db, place_run(db, booking))
}

/// The refusal a booking meets, if any: a held seat first, then a menu that
/// is gone, full or at another revision, then a row that stands at another
/// attempt.
pub open spec fn place_refusal(db: Kitchen, booking: Booking) -> Option<ClaimRefusal> {
    let key = booking.seat();
    if db.bookings.contains_key(key) && db.bookings[key].booked {
        Some(ClaimRefusal::Duplicate)
    } else if !(db.menus.contains_key(booking.menu) && db.menus[booking.menu].seats < booking.cap
        && db.menus[booking.menu].version == booking.seen) {
        Some(ClaimRefusal::Full)
    } else if db.bookings.contains_key(key) && db.bookings[key].attempt != booking.attempt - 1 {
        Some(ClaimRefusal::Duplicate)
    } else {
        None
    }
}

/// A booking is made exactly when nothing refuses it. A refused one leaves
/// every seat, row and line as it was; a seat cannot be claimed at a revision
/// the menu has left.
pub proof fn law_place_answers(db: Kitchen, booking: Booking)
    ensures
        place_run(db, booking).1 == crate::transaction::ends::<Place, (), ClaimRefusal>(
            (),
            place_refusal(db, booking),
        ),
        place_refusal(db, booking) is Some ==> after_place(db, booking) == db,
{
    reveal_with_fuel(crate::transaction::run, 6);
}

/// A booking that is made takes one seat, under the cap, places the row at
/// its attempt and price, with no cancellation on it, and writes its charge
/// with it. A cancelled row that it revives keeps who opened it and when.
pub proof fn law_place_writes(db: Kitchen, booking: Booking)
    requires
        place_refusal(db, booking) is None,
    ensures
        ({
            let after = after_place(db, booking);
            &&& after.menus == db.menus.insert(
                booking.menu,
                MenuSeats { seats: db.menus[booking.menu].seats + 1, ..db.menus[booking.menu] },
            )
            &&& after.menus[booking.menu].seats <= booking.cap
            &&& after.bookings == db.bookings.insert(
                booking.seat(),
                placed_row(db, booking),
            )
            &&& after.ledger == (match booking.charge {
                Some((id, amount)) => crate::meal_ledger::appended(
                    db.ledger,
                    id,
                    LineRow { student: booking.student, kind: MealLedgerKind::Charge, amount },
                ),
                None => db.ledger,
            })
        }),
{
    reveal_with_fuel(crate::transaction::run, 6);
}

/// A booking keeps every menu's counter equal to the seats held on it.
pub proof fn law_place_keeps_seats(db: Kitchen, booking: Booking)
    requires
        db.seats_counted(),
    ensures
        after_place(db, booking).seats_counted(),
{
    law_place_answers(db, booking);
    if place_refusal(db, booking) is None {
        law_place_writes(db, booking);
        let after = after_place(db, booking);
        let row = placed_row(db, booking);
        assert forall|menu: Seq<char>| #[trigger] after.menus.contains_key(menu) implies
            after.menus[menu].seats == crate::tally::tally(after.bookings, held_on(menu)) by {
            assert(db.menus.contains_key(menu));
            crate::tally::lemma_tally_insert(db.bookings, booking.seat(), row, held_on(menu));
        }
    }
}

/// A cancel as the tables see it.
pub struct Cancel {
    pub menu: Seq<char>,
    pub student: UserId,
    pub attempt: int,
    pub cancelled_at: i64,
    pub charge: Option<(Seq<char>, Seq<char>, int)>,
}

/// The row a cancel leaves: all of it but the status and the stamp.
pub open spec fn cancelled_row(row: BookingRow, cancel: Cancel) -> BookingRow {
    BookingRow { booked: false, cancelled_at: Some(cancel.cancelled_at), ..row }
}

/// What each statement of a cancel does to the tables, and what it replies.
/// `charge` is the charge's key, the reversal's key and the amount.
pub open spec fn release_effect(db: Kitchen, cancel: Cancel, at: Release) -> (Kitchen, Reply) {
    let key = (cancel.menu, cancel.student);
    match at {
        Release::Flip => if db.bookings.contains_key(key) && db.bookings[key].booked
            && db.bookings[key].attempt == cancel.attempt {
            (
                Kitchen {
                    bookings: db.bookings.insert(
                        key,
                        cancelled_row(db.bookings[key], cancel),
                    ),
                    ..db
                },
                Reply::Row,
            )
        } else {
            (db, Reply::Empty)
        },
        Release::GiveBack => (
            if db.menus.contains_key(cancel.menu) {
                Kitchen {
                    menus: db.menus.insert(
                        cancel.menu,
                        MenuSeats {
                            seats: crate::tally::floored(db.menus[cancel.menu].seats - 1),
                            ..db.menus[cancel.menu]
                        },
                    ),
                    ..db
                }
            } else {
                db
            },
            Reply::Row,
        ),
        Release::ReadCharge => (
            db,
            if cancel.charge is Some && db.ledger.contains_key((cancel.charge->0).0) {
                Reply::Row
            } else {
                Reply::Empty
            },
        ),
        Release::ReadReversal { .. } => (
            db,
            if cancel.charge is Some && db.ledger.contains_key((cancel.charge->0).1) {
                Reply::Row
            } else {
                Reply::Empty
            },
        ),
        Release::Refund => match cancel.charge {
            Some((charge, reversal, amount)) => (
                Kitchen {
                    ledger: crate::meal_ledger::appended(
                        db.ledger,
                        reversal,
                        LineRow { student: cancel.student, kind: MealLedgerKind::Reversal, amount },
                    ),
                    ..db
                },
                Reply::Row,
            ),
            None => (db, Reply::Row),
        },
    }
}

/// A whole cancel against the tables.
pub open spec fn release_run(db: Kitchen, cancel: Cancel) -> (Kitchen, Step<
    Release,
    Released,
    (),
>) {
    crate::transaction::run(
        db,
        Step::Ask(Release::Flip),
        |at: Release, reply: Reply| release_next(at, cancel.charge is Some, reply),
        |tables: Kitchen, at: Release| release_effect(tables, cancel, at),
        5,
    )
}

/// What the tables hold after a cancel.
pub open spec fn after_release(db: Kitchen, cancel: Cancel) -> Kitchen {
    crate::transaction::stored(db, release_run(db, cancel))
}

/// Whether a cancel finds its own booked attempt.
pub open spec fn is_held(db: Kitchen, cancel: Cancel) -> bool {
    let key = (cancel.menu, cancel.student);
    db.bookings.contains_key(key) && db.bookings[key].booked && db.bookings[key].attempt
        == cancel.attempt
}

/// A cancel releases only the attempt it read: of any other it frees no seat
/// and moves no money. Of its own it frees the seat, stamps the row and, where
/// the charge is there and not undone, writes the reversal with it.
pub proof fn law_release_answers(db: Kitchen, cancel: Cancel)
    ensures
        ({
            let end = release_run(db, cancel).1;
            let after = after_release(db, cancel);
            if !is_held(db, cancel) {
                end == Step::<Release, Released, ()>::Commit(Released::NotHeld) && after == db
            } else {
                &&& end == Step::<Release, Released, ()>::Commit(Released::Freed)
                &&& after.bookings == db.bookings.insert(
                    (cancel.menu, cancel.student),
                    cancelled_row(db.bookings[(cancel.menu, cancel.student)], cancel),
                )
                &&& after.menus == if db.menus.contains_key(cancel.menu) {
                    db.menus.insert(
                        cancel.menu,
                        MenuSeats {
                            seats: crate::tally::floored(db.menus[cancel.menu].seats - 1),
                            ..db.menus[cancel.menu]
                        },
                    )
                } else {
                    db.menus
                }
                &&& after.ledger == (match cancel.charge {
                    Some((charge, reversal, amount)) => if db.ledger.contains_key(charge)
                        && !db.ledger.contains_key(reversal) {
                        db.ledger.insert(
                            reversal,
                            LineRow {
                                student: cancel.student,
                                kind: MealLedgerKind::Reversal,
                                amount,
                            },
                        )
                    } else {
                        db.ledger
                    },
                    None => db.ledger,
                })
            }
        }),
{
    reveal_with_fuel(crate::transaction::run, 6);
}

/// A cancel keeps every menu's counter equal to the seats held on it.
pub proof fn law_release_keeps_seats(db: Kitchen, cancel: Cancel)
    requires
        db.seats_counted(),
    ensures
        after_release(db, cancel).seats_counted(),
{
    reveal_with_fuel(crate::transaction::run, 6);
    law_release_answers(db, cancel);
    if is_held(db, cancel) {
        let key = (cancel.menu, cancel.student);
        let after = after_release(db, cancel);
        let row = cancelled_row(db.bookings[key], cancel);
        assert forall|menu: Seq<char>| #[trigger] after.menus.contains_key(menu) implies
            after.menus[menu].seats == crate::tally::tally(after.bookings, held_on(menu)) by {
            assert(db.menus.contains_key(menu));
            crate::tally::lemma_tally_insert(db.bookings, key, row, held_on(menu));
            crate::tally::lemma_tally_holds(db.bookings, key, held_on(menu));
        }
    }
}

/// A cancelled attempt is refunded once: cancelling it again changes nothing.
pub proof fn law_release_is_once(db: Kitchen, cancel: Cancel)
    ensures
        after_release(after_release(db, cancel), cancel) == after_release(db, cancel),
{
    law_release_answers(db, cancel);
    law_release_answers(after_release(db, cancel), cancel);
}

/// Booking a seat and cancelling it moves no money: the student's balance and
/// the menu's seats stand where they stood. The charge and its reversal are
/// keyed to the attempt, so neither key is in the ledger before.
pub proof fn law_book_then_cancel(db: Kitchen, booking: Booking, cancel: Cancel)
    requires
        db.seats_counted(),
        place_refusal(db, booking) is None,
        cancel.menu == booking.menu,
        cancel.student == booking.student,
        cancel.attempt == booking.attempt,
        match booking.charge {
            Some((id, amount)) => cancel.charge is Some && (cancel.charge->0).0 == id && (
            cancel.charge->0).2 == amount && (cancel.charge->0).1 != id
                && !db.ledger.contains_key(id) && !db.ledger.contains_key((cancel.charge->0).1),
            None => cancel.charge is None,
        },
    ensures
        ({
            let after = after_release(after_place(db, booking), cancel);
            &&& after.menus == db.menus
            &&& crate::meal_ledger::stored_balance(after.ledger, booking.student)
                == crate::meal_ledger::stored_balance(db.ledger, booking.student)
            &&& after.bookings[booking.seat()] == cancelled_row(placed_row(db, booking), cancel)
        }),
{
    let between = after_place(db, booking);
    law_place_answers(db, booking);
    law_place_writes(db, booking);
    law_release_answers(between, cancel);
    reveal_with_fuel(crate::transaction::run, 6);
    let after = after_release(between, cancel);
    assert(db.menus[booking.menu].seats == crate::tally::tally(
        db.bookings,
        held_on(booking.menu),
    ));
    assert(after.menus =~= db.menus);
    if booking.charge is Some {
        let (id, amount) = booking.charge->0;
        let reversal = (cancel.charge->0).1;
        let owed = crate::meal_ledger::line_amount(booking.student);
        let charge_line = LineRow { student: booking.student, kind: MealLedgerKind::Charge, amount };
        let refund_line = LineRow {
            student: cancel.student,
            kind: MealLedgerKind::Reversal,
            amount,
        };
        crate::tally::lemma_total_insert(db.ledger, id, charge_line, owed);
        crate::tally::lemma_total_insert(between.ledger, reversal, refund_line, owed);
        assert(owed(id, charge_line) == -amount);
        assert(owed(reversal, refund_line) == amount);
    }
}

/// What [`READ`] says.
pub open spec fn read_reading() -> Picking {
    Picking {
        skip: 87,
        head: " FROM "@,
        columns: Seq::empty(),
        table: "meal_booking"@,
        conditions: seq![crate::sql::is_bound("menu"@, 1), crate::sql::is_bound("student"@, 2)],
        rest: Text::End,
    }
}

proof fn lemma_read_reads()
    ensures
        crate::sql::spells(READ@, 87, read_reading().text()),
{
    reveal_strlit("SELECT menu, student, booked_by, status, attempt, price_minor, cancelled_at, created_at FROM meal_booking WHERE menu = $1 AND student = $2");
    reveal_strlit(" FROM ");
    reveal_strlit("meal_booking");
    reveal_strlit(" WHERE ");
    reveal_strlit("menu");
    reveal_strlit(" = ");
    reveal_strlit("$");
    reveal_strlit(" AND ");
    reveal_strlit("student");
    reveal(crate::sql::Picking::text);
    reveal_with_fuel(crate::sql::where_text, 3);
    reveal_with_fuel(crate::sql::stands, 13);
    reveal_with_fuel(crate::sql::spells_by, 11);
    crate::sql::lemma_spells_by(READ@, 87, read_reading().text(), crate::sql::cut(93, crate::sql::cut(105, crate::sql::cut(112, crate::sql::cut(116, crate::sql::cut(119, crate::sql::cut(121, crate::sql::cut(126, crate::sql::cut(133, crate::sql::cut(136, crate::sql::cut(138, Cuts::Last)))))))))));
}

/// What [`READ_HELD`] says.
pub open spec fn read_held_reading() -> Picking {
    Picking {
        skip: 0,
        head: "SELECT "@,
        columns: seq!["1 AS held"@],
        table: "meal_booking"@,
        conditions: seq![crate::sql::is_bound("menu"@, 1), crate::sql::is_bound("student"@, 2), Cond::Equal(crate::sql::column("status"@), crate::sql::word("'booked'"@, Cell::Text("booked"@)))],
        rest: Text::End,
    }
}

proof fn lemma_read_held_reads()
    ensures
        crate::sql::spells(READ_HELD@, 0, read_held_reading().text()),
{
    reveal_strlit("SELECT 1 AS held FROM meal_booking WHERE menu = $1 AND student = $2 AND status = 'booked'");
    reveal_strlit("SELECT ");
    reveal_strlit("1 AS held");
    reveal_strlit(" FROM ");
    reveal_strlit("meal_booking");
    reveal_strlit(" WHERE ");
    reveal_strlit("menu");
    reveal_strlit(" = ");
    reveal_strlit("$");
    reveal_strlit(" AND ");
    reveal_strlit("student");
    reveal_strlit("status");
    reveal_strlit("'booked'");
    reveal(crate::sql::Picking::text);
    reveal_with_fuel(crate::sql::where_text, 4);
    reveal_with_fuel(crate::sql::names_text, 2);
    reveal_with_fuel(crate::sql::stands, 13);
    reveal_with_fuel(crate::sql::spells_by, 17);
    crate::sql::lemma_spells_by(READ_HELD@, 0, read_held_reading().text(), crate::sql::cut(7, crate::sql::cut(16, crate::sql::cut(22, crate::sql::cut(34, crate::sql::cut(41, crate::sql::cut(45, crate::sql::cut(48, crate::sql::cut(50, crate::sql::cut(55, crate::sql::cut(62, crate::sql::cut(65, crate::sql::cut(67, crate::sql::cut(72, crate::sql::cut(78, crate::sql::cut(81, crate::sql::cut(89, Cuts::Last)))))))))))))))));
}

/// What [`CLAIM_SEAT`] says.
pub open spec fn claim_seat_reading() -> Writing {
    Writing {
        head: "UPDATE "@,
        table: "menu"@,
        sets: seq![("seats_booked"@, Expr::Plus(Term::Column("seats_booked"@), Term::Word("1"@, Cell::Int(1))))],
        conditions: seq![crate::sql::is_bound("id"@, 1), Cond::Below(crate::sql::column("seats_booked"@), crate::sql::bind(2)), Cond::Equal(Expr::Coalesce(Term::Column("version"@), Term::Word("0"@, Cell::Int(0))), crate::sql::bind(3))],
        rest: crate::sql::returning(),
    }
}

proof fn lemma_claim_seat_reads()
    ensures
        crate::sql::spells(CLAIM_SEAT@, 0, claim_seat_reading().text()),
{
    reveal_strlit("UPDATE menu SET seats_booked = seats_booked + 1 WHERE id = $1 AND seats_booked < $2 AND COALESCE(version, 0) = $3 RETURNING 1 AS seat");
    reveal_strlit("UPDATE ");
    reveal_strlit("menu");
    reveal_strlit(" SET ");
    reveal_strlit("seats_booked");
    reveal_strlit(" = ");
    reveal_strlit(" + ");
    reveal_strlit("1");
    reveal_strlit(" WHERE ");
    reveal_strlit("id");
    reveal_strlit("$");
    reveal_strlit(" AND ");
    reveal_strlit(" < ");
    reveal_strlit("COALESCE(");
    reveal_strlit("version");
    reveal_strlit(", ");
    reveal_strlit("0");
    reveal_strlit(")");
    reveal_strlit(" RETURNING ");
    reveal(crate::sql::Writing::text);
    reveal_with_fuel(crate::sql::set_text, 2);
    reveal_with_fuel(crate::sql::where_text, 4);
    reveal_with_fuel(crate::sql::stands, 13);
    reveal_with_fuel(crate::sql::spells_by, 26);
    crate::sql::lemma_spells_by(CLAIM_SEAT@, 0, claim_seat_reading().text(), crate::sql::cut(7, crate::sql::cut(11, crate::sql::cut(16, crate::sql::cut(28, crate::sql::cut(31, crate::sql::cut(43, crate::sql::cut(46, crate::sql::cut(47, crate::sql::cut(54, crate::sql::cut(56, crate::sql::cut(59, crate::sql::cut(61, crate::sql::cut(66, crate::sql::cut(78, crate::sql::cut(81, crate::sql::cut(83, crate::sql::cut(88, crate::sql::cut(97, crate::sql::cut(104, crate::sql::cut(106, crate::sql::cut(107, crate::sql::cut(108, crate::sql::cut(111, crate::sql::cut(113, crate::sql::cut(124, Cuts::Last))))))))))))))))))))))))));
}

/// What [`REVIVE`] says.
pub open spec fn revive_reading() -> Writing {
    Writing {
        head: "UPDATE "@,
        table: "meal_booking"@,
        sets: seq![("status"@, crate::sql::word("'booked'"@, Cell::Text("booked"@))), ("attempt"@, crate::sql::bind(3)), ("price_minor"@, crate::sql::bind(4)), ("cancelled_at"@, crate::sql::word("NULL"@, Cell::Null))],
        conditions: seq![crate::sql::is_bound("menu"@, 1), crate::sql::is_bound("student"@, 2), Cond::Equal(crate::sql::column("status"@), crate::sql::word("'cancelled'"@, Cell::Text("cancelled"@))), Cond::Equal(crate::sql::column("attempt"@), Expr::Minus(Term::Cast(3, "bigint"@), Term::Word("1"@, Cell::Int(1))))],
        rest: crate::sql::returning(),
    }
}

proof fn lemma_revive_reads()
    ensures
        crate::sql::spells(REVIVE@, 0, revive_reading().text()),
{
    reveal_strlit("UPDATE meal_booking SET status = 'booked', attempt = $3, price_minor = $4, cancelled_at = NULL WHERE menu = $1 AND student = $2 AND status = 'cancelled' AND attempt = $3::bigint - 1 RETURNING menu, student, booked_by, status, attempt, price_minor, cancelled_at, created_at");
    reveal_strlit("UPDATE ");
    reveal_strlit("meal_booking");
    reveal_strlit(" SET ");
    reveal_strlit("status");
    reveal_strlit(" = ");
    reveal_strlit("'booked'");
    reveal_strlit(", ");
    reveal_strlit("attempt");
    reveal_strlit("$");
    reveal_strlit("price_minor");
    reveal_strlit("cancelled_at");
    reveal_strlit("NULL");
    reveal_strlit(" WHERE ");
    reveal_strlit("menu");
    reveal_strlit(" AND ");
    reveal_strlit("student");
    reveal_strlit("'cancelled'");
    reveal_strlit("::");
    reveal_strlit("bigint");
    reveal_strlit(" - ");
    reveal_strlit("1");
    reveal_strlit(" RETURNING ");
    reveal(crate::sql::Writing::text);
    reveal_with_fuel(crate::sql::set_text, 5);
    reveal_with_fuel(crate::sql::where_text, 5);
    reveal_with_fuel(crate::sql::stands, 13);
    reveal_with_fuel(crate::sql::spells_by, 40);
    crate::sql::lemma_spells_by(REVIVE@, 0, revive_reading().text(), crate::sql::cut(7, crate::sql::cut(19, crate::sql::cut(24, crate::sql::cut(30, crate::sql::cut(33, crate::sql::cut(41, crate::sql::cut(43, crate::sql::cut(50, crate::sql::cut(53, crate::sql::cut(55, crate::sql::cut(57, crate::sql::cut(68, crate::sql::cut(71, crate::sql::cut(73, crate::sql::cut(75, crate::sql::cut(87, crate::sql::cut(90, crate::sql::cut(94, crate::sql::cut(101, crate::sql::cut(105, crate::sql::cut(108, crate::sql::cut(110, crate::sql::cut(115, crate::sql::cut(122, crate::sql::cut(125, crate::sql::cut(127, crate::sql::cut(132, crate::sql::cut(138, crate::sql::cut(141, crate::sql::cut(152, crate::sql::cut(157, crate::sql::cut(164, crate::sql::cut(167, crate::sql::cut(169, crate::sql::cut(171, crate::sql::cut(177, crate::sql::cut(180, crate::sql::cut(181, crate::sql::cut(192, Cuts::Last))))))))))))))))))))))))))))))))))))))));
}

/// What [`INSERT_BOOKING`] says.
pub open spec fn insert_booking_reading() -> Storing {
    Storing {
        head: "INSERT INTO "@,
        table: "meal_booking"@,
        columns: seq!["menu"@, "student"@, "booked_by"@, "status"@, "attempt"@, "price_minor"@, "cancelled_at"@, "created_at"@],
        values: seq![Term::Bind(1), Term::Bind(2), Term::Bind(3), Term::Bind(4), Term::Bind(5), Term::Bind(6), Term::Bind(7), Term::Bind(8)],
        selected: false,
        conflict: Conflict::Stays(seq!["menu"@, "student"@]),
        rest: crate::sql::returning(),
    }
}

proof fn lemma_insert_booking_reads()
    ensures
        crate::sql::spells(INSERT_BOOKING@, 0, insert_booking_reading().text()),
{
    reveal_strlit("INSERT INTO meal_booking (menu, student, booked_by, status, attempt, price_minor, cancelled_at, created_at) VALUES ($1, $2, $3, $4, $5, $6, $7, $8) ON CONFLICT (menu, student) DO NOTHING RETURNING menu, student, booked_by, status, attempt, price_minor, cancelled_at, created_at");
    reveal_strlit("INSERT INTO ");
    reveal_strlit("meal_booking");
    reveal_strlit(" (");
    reveal_strlit("menu");
    reveal_strlit(", ");
    reveal_strlit("student");
    reveal_strlit("booked_by");
    reveal_strlit("status");
    reveal_strlit("attempt");
    reveal_strlit("price_minor");
    reveal_strlit("cancelled_at");
    reveal_strlit("created_at");
    reveal_strlit(") VALUES (");
    reveal_strlit("$");
    reveal_strlit(")");
    reveal_strlit(" ON CONFLICT (");
    reveal_strlit(") DO NOTHING");
    reveal_strlit(" RETURNING ");
    reveal(crate::sql::Storing::text);
    reveal_with_fuel(crate::sql::names_text, 9);
    reveal_with_fuel(crate::sql::values_text, 9);
    reveal_with_fuel(crate::sql::stands, 15);
    reveal_with_fuel(crate::sql::spells_by, 42);
    crate::sql::lemma_spells_by(INSERT_BOOKING@, 0, insert_booking_reading().text(), crate::sql::cut(12, crate::sql::cut(24, crate::sql::cut(26, crate::sql::cut(30, crate::sql::cut(32, crate::sql::cut(39, crate::sql::cut(41, crate::sql::cut(50, crate::sql::cut(52, crate::sql::cut(58, crate::sql::cut(60, crate::sql::cut(67, crate::sql::cut(69, crate::sql::cut(80, crate::sql::cut(82, crate::sql::cut(94, crate::sql::cut(96, crate::sql::cut(106, crate::sql::cut(116, crate::sql::cut(118, crate::sql::cut(120, crate::sql::cut(122, crate::sql::cut(124, crate::sql::cut(126, crate::sql::cut(128, crate::sql::cut(130, crate::sql::cut(132, crate::sql::cut(134, crate::sql::cut(136, crate::sql::cut(138, crate::sql::cut(140, crate::sql::cut(142, crate::sql::cut(144, crate::sql::cut(146, crate::sql::cut(147, crate::sql::cut(161, crate::sql::cut(165, crate::sql::cut(167, crate::sql::cut(174, crate::sql::cut(186, crate::sql::cut(197, Cuts::Last))))))))))))))))))))))))))))))))))))))))));
}

/// What [`FLIP`] says.
pub open spec fn flip_reading() -> Writing {
    Writing {
        head: "UPDATE "@,
        table: "meal_booking"@,
        sets: seq![("status"@, crate::sql::word("'cancelled'"@, Cell::Text("cancelled"@))), ("cancelled_at"@, crate::sql::bind(3))],
        conditions: seq![crate::sql::is_bound("menu"@, 1), crate::sql::is_bound("student"@, 2), Cond::Equal(crate::sql::column("status"@), crate::sql::word("'booked'"@, Cell::Text("booked"@))), crate::sql::is_bound("attempt"@, 4)],
        rest: crate::sql::returning(),
    }
}

proof fn lemma_flip_reads()
    ensures
        crate::sql::spells(FLIP@, 0, flip_reading().text()),
{
    reveal_strlit("UPDATE meal_booking SET status = 'cancelled', cancelled_at = $3 WHERE menu = $1 AND student = $2 AND status = 'booked' AND attempt = $4 RETURNING menu, student, booked_by, status, attempt, price_minor, cancelled_at, created_at");
    reveal_strlit("UPDATE ");
    reveal_strlit("meal_booking");
    reveal_strlit(" SET ");
    reveal_strlit("status");
    reveal_strlit(" = ");
    reveal_strlit("'cancelled'");
    reveal_strlit(", ");
    reveal_strlit("cancelled_at");
    reveal_strlit("$");
    reveal_strlit(" WHERE ");
    reveal_strlit("menu");
    reveal_strlit(" AND ");
    reveal_strlit("student");
    reveal_strlit("'booked'");
    reveal_strlit("attempt");
    reveal_strlit(" RETURNING ");
    reveal(crate::sql::Writing::text);
    reveal_with_fuel(crate::sql::set_text, 3);
    reveal_with_fuel(crate::sql::where_text, 5);
    reveal_with_fuel(crate::sql::stands, 13);
    reveal_with_fuel(crate::sql::spells_by, 28);
    crate::sql::lemma_spells_by(FLIP@, 0, flip_reading().text(), crate::sql::cut(7, crate::sql::cut(19, crate::sql::cut(24, crate::sql::cut(30, crate::sql::cut(33, crate::sql::cut(44, crate::sql::cut(46, crate::sql::cut(58, crate::sql::cut(61, crate::sql::cut(63, crate::sql::cut(70, crate::sql::cut(74, crate::sql::cut(77, crate::sql::cut(79, crate::sql::cut(84, crate::sql::cut(91, crate::sql::cut(94, crate::sql::cut(96, crate::sql::cut(101, crate::sql::cut(107, crate::sql::cut(110, crate::sql::cut(118, crate::sql::cut(123, crate::sql::cut(130, crate::sql::cut(133, crate::sql::cut(135, crate::sql::cut(146, Cuts::Last))))))))))))))))))))))))))));
}

/// What [`GIVE_SEAT_BACK`] says.
pub open spec fn give_seat_back_reading() -> Writing {
    Writing {
        head: "UPDATE "@,
        table: "menu"@,
        sets: seq![("seats_booked"@, Expr::Floored(Term::Column("seats_booked"@), Term::Word("1"@, Cell::Int(1))))],
        conditions: seq![crate::sql::is_bound("id"@, 1)],
        rest: Text::End,
    }
}

proof fn lemma_give_seat_back_reads()
    ensures
        crate::sql::spells(GIVE_SEAT_BACK@, 0, give_seat_back_reading().text()),
{
    reveal_strlit("UPDATE menu SET seats_booked = GREATEST(seats_booked - 1, 0) WHERE id = $1");
    reveal_strlit("UPDATE ");
    reveal_strlit("menu");
    reveal_strlit(" SET ");
    reveal_strlit("seats_booked");
    reveal_strlit(" = ");
    reveal_strlit("GREATEST(");
    reveal_strlit(" - ");
    reveal_strlit("1");
    reveal_strlit(", 0)");
    reveal_strlit(" WHERE ");
    reveal_strlit("id");
    reveal_strlit("$");
    reveal(crate::sql::Writing::text);
    reveal_with_fuel(crate::sql::set_text, 2);
    reveal_with_fuel(crate::sql::where_text, 2);
    reveal_with_fuel(crate::sql::stands, 13);
    reveal_with_fuel(crate::sql::spells_by, 15);
    crate::sql::lemma_spells_by(GIVE_SEAT_BACK@, 0, give_seat_back_reading().text(), crate::sql::cut(7, crate::sql::cut(11, crate::sql::cut(16, crate::sql::cut(28, crate::sql::cut(31, crate::sql::cut(40, crate::sql::cut(52, crate::sql::cut(55, crate::sql::cut(56, crate::sql::cut(60, crate::sql::cut(67, crate::sql::cut(69, crate::sql::cut(72, crate::sql::cut(74, Cuts::Last)))))))))))))));
}

/// What [`LINE_THERE`] says.
pub open spec fn line_there_reading() -> Picking {
    Picking {
        skip: 0,
        head: "SELECT "@,
        columns: seq!["1 AS there"@],
        table: "meal_ledger"@,
        conditions: seq![crate::sql::is_bound("id"@, 1)],
        rest: Text::End,
    }
}

proof fn lemma_line_there_reads()
    ensures
        crate::sql::spells(LINE_THERE@, 0, line_there_reading().text()),
{
    reveal_strlit("SELECT 1 AS there FROM meal_ledger WHERE id = $1");
    reveal_strlit("SELECT ");
    reveal_strlit("1 AS there");
    reveal_strlit(" FROM ");
    reveal_strlit("meal_ledger");
    reveal_strlit(" WHERE ");
    reveal_strlit("id");
    reveal_strlit(" = ");
    reveal_strlit("$");
    reveal(crate::sql::Picking::text);
    reveal_with_fuel(crate::sql::where_text, 2);
    reveal_with_fuel(crate::sql::names_text, 2);
    reveal_with_fuel(crate::sql::stands, 12);
    reveal_with_fuel(crate::sql::spells_by, 9);
    crate::sql::lemma_spells_by(LINE_THERE@, 0, line_there_reading().text(), crate::sql::cut(7, crate::sql::cut(17, crate::sql::cut(23, crate::sql::cut(34, crate::sql::cut(41, crate::sql::cut(43, crate::sql::cut(46, crate::sql::cut(48, Cuts::Last)))))))));
}

/// Whether a row of the menus' table holds a menu's seats. A menu that was never
/// revised stands at revision zero.
pub open spec fn holds_menu(row: Row, id: Seq<char>, menu: MenuSeats) -> bool {
    &&& row["id"@] == Cell::Text(id)
    &&& row["seats_booked"@] == Cell::Int(menu.seats)
    &&& row["version"@] == Cell::Int(menu.version) || (row["version"@] is Null && menu.version == 0)
}

/// Whether a row of the bookings' table holds a booking.
pub open spec fn holds_booking(row: Row, seat: (Seq<char>, UserId), booking: BookingRow) -> bool {
    &&& row["menu"@] == Cell::Text(seat.0)
    &&& row["student"@] == Cell::Uuid(seat.1.0)
    &&& row["booked_by"@] == Cell::Uuid(booking.booked_by.0)
    &&& row["status"@] == Cell::Text(
        if booking.booked {
            "booked"@
        } else {
            "cancelled"@
        },
    )
    &&& row["attempt"@] == Cell::Int(booking.attempt)
    &&& row["price_minor"@] == crate::sql::opt_int(booking.price)
    &&& row["cancelled_at"@] == crate::sql::opt_int(booking.cancelled_at)
    &&& row["created_at"@] == Cell::Int(booking.created_at as int)
}

impl PlaceRequest {
    /// The booking that a request asks of the tables.
    pub open spec fn booking(self) -> Booking {
        Booking {
            menu: self.row.menu@,
            student: self.row.student,
            booked_by: self.row.booked_by,
            created_at: self.row.created_at.0,
            attempt: self.row.attempt as int,
            cap: self.cap as int,
            seen: self.seen as int,
            price: amount_value(self.price),
            charge: match self.charge {
                Some(line) => Some((line.id@, line.amount_minor.0 as int)),
                None => None,
            },
        }
    }
}

impl ReleaseRequest {
    /// The cancel that a request asks of the tables.
    pub open spec fn cancel(self) -> Cancel {
        Cancel {
            menu: self.menu@,
            student: self.student,
            attempt: self.attempt as int,
            cancelled_at: self.cancelled_at.0,
            charge: match self.refund {
                Some(refund) => Some(
                    (refund.charge@, refund.line.id@, refund.line.amount_minor.0 as int),
                ),
                None => None,
            },
        }
    }
}

/// The seat claim as it is sent takes a seat of a menu exactly where the menu is
/// the request's, has fewer seats taken than the request's cap and stands at the
/// revision the request has seen; it then takes one, and the menu is what the
/// tables hold of it after the step.
#[verifier::rlimit(40)]
#[verifier::spinoff_prover]
pub proof fn law_claim_takes_a_seat_under_the_cap(
    db: Kitchen,
    request: PlaceRequest,
    id: Seq<char>,
    row: Row,
)
    requires
        db.menus.contains_key(id),
        holds_menu(row, id, db.menus[id]),
    ensures
        ({
            let sent = request.asks(Place::ClaimSeat);
            let (after, reply) = place_effect(db, request.booking(), Place::ClaimSeat);
            let picked = claim_seat_reading().picks(sent.binds, row);
            &&& claim_seat_reading().is_read(sent)
            &&& picked == (id == request.row.menu@ && db.menus[id].seats < request.cap
                && db.menus[id].version == request.seen)
            &&& picked ==> reply.has_row() && claim_seat_reading().writes(sent.binds, row) == seq![
                ("seats_booked"@, Cell::Int(after.menus[id].seats)),
            ] && after.menus[id].seats == db.menus[id].seats + 1
            &&& !picked ==> after.menus[id] == db.menus[id]
            &&& id == request.row.menu@ ==> reply.has_row() == picked
        }),
{
    lemma_claim_seat_reads();
    reveal_with_fuel(crate::sql::all_hold, 4);
}

/// A cancelled row of the request's seat that stands at the attempt before is
/// revived, and no other: it is booked again at the request's attempt and price,
/// with no cancellation on it, which is what the tables hold of it after.
#[verifier::rlimit(40)]
#[verifier::spinoff_prover]
pub proof fn law_revival_lands_in_its_columns(
    db: Kitchen,
    request: PlaceRequest,
    seat: (Seq<char>, UserId),
    row: Row,
)
    requires
        db.bookings.contains_key(seat),
        holds_booking(row, seat, db.bookings[seat]),
    ensures
        ({
            let sent = request.asks(Place::Revive);
            let (after, reply) = place_effect(db, request.booking(), Place::Revive);
            let picked = revive_reading().picks(sent.binds, row);
            &&& revive_reading().is_read(sent)
            &&& picked == (seat == (request.row.menu@, request.row.student)
                && !db.bookings[seat].booked && db.bookings[seat].attempt == request.row.attempt
                - 1)
            &&& picked ==> reply.has_row() && after.bookings[seat].booked && revive_reading().writes(
                sent.binds,
                row,
            ) == seq![
                ("status"@, Cell::Text("booked"@)),
                ("attempt"@, Cell::Int(after.bookings[seat].attempt)),
                ("price_minor"@, crate::sql::opt_int(after.bookings[seat].price)),
                ("cancelled_at"@, crate::sql::opt_int(after.bookings[seat].cancelled_at)),
            ]
            &&& picked ==> after.bookings[seat].attempt == request.row.attempt
                && after.bookings[seat].price == amount_value(request.price)
            &&& !picked ==> after.bookings[seat] == db.bookings[seat]
        }),
{
    lemma_revive_reads();
    reveal_strlit("booked");
    reveal_strlit("cancelled");
    assert("booked"@.len() != "cancelled"@.len());
    reveal_with_fuel(crate::sql::all_hold, 5);
}

/// A fresh booking is stored column by column as the request has it; a seat that
/// has a row keeps it. Where the request's row is booked and not cancelled, it is
/// the row that the tables hold of the seat after.
#[verifier::rlimit(40)]
#[verifier::spinoff_prover]
pub proof fn law_booking_lands_in_its_columns(db: Kitchen, request: PlaceRequest)
    ensures
        ({
            let sent = request.asks(Place::Insert);
            let (after, reply) = place_effect(db, request.booking(), Place::Insert);
            let seat = (request.row.menu@, request.row.student);
            let kept = after.bookings[seat];
            &&& insert_booking_reading().is_read(sent)
            &&& insert_booking_reading().conflict == Conflict::Stays(seq!["menu"@, "student"@])
            &&& insert_booking_reading().stores(sent.binds) == seq![
                ("menu"@, Cell::Text(request.row.menu@)),
                ("student"@, Cell::Uuid(request.row.student.0)),
                ("booked_by"@, Cell::Uuid(request.row.booked_by.0)),
                ("status"@, Cell::Text(request.row.status.name())),
                ("attempt"@, Cell::Int(request.row.attempt as int)),
                ("price_minor"@, crate::sql::opt_int(amount_value(request.price))),
                ("cancelled_at"@, crate::sql::opt_int(moment_value(request.row.cancelled_at))),
                ("created_at"@, Cell::Int(request.row.created_at.0 as int)),
            ]
            &&& !db.bookings.contains_key(seat) && request.row.status == MealBookingStatus::Booked
                && request.row.cancelled_at is None ==> insert_booking_reading().stores(sent.binds)
                == seq![
                ("menu"@, Cell::Text(seat.0)),
                ("student"@, Cell::Uuid(seat.1.0)),
                ("booked_by"@, Cell::Uuid(kept.booked_by.0)),
                ("status"@, Cell::Text("booked"@)),
                ("attempt"@, Cell::Int(kept.attempt)),
                ("price_minor"@, crate::sql::opt_int(kept.price)),
                ("cancelled_at"@, crate::sql::opt_int(kept.cancelled_at)),
                ("created_at"@, Cell::Int(kept.created_at as int)),
            ] && kept.booked && reply.has_row()
        }),
{
    lemma_insert_booking_reads();
}

/// Whether the student holds the seat is asked of the request's own seat, and
/// the charge is written as the request carries it.
pub proof fn law_booking_asks_about_its_seat(
    db: Kitchen,
    request: PlaceRequest,
    seat: (Seq<char>, UserId),
    row: Row,
)
    requires
        db.bookings.contains_key(seat),
        holds_booking(row, seat, db.bookings[seat]),
    ensures
        read_held_reading().is_read(request.asks(Place::ReadHeld)),
        read_held_reading().picks(request.asks(Place::ReadHeld).binds, row) == (seat == (
            request.row.menu@,
            request.row.student,
        ) && db.bookings[seat].booked),
        seat == (request.row.menu@, request.row.student) ==> read_held_reading().picks(
            request.asks(Place::ReadHeld).binds,
            row,
        ) == place_effect(db, request.booking(), Place::ReadHeld).1.has_row(),
        request.charge is Some ==> crate::meal_ledger::insert_line_reading().is_read(
            request.asks(Place::Charge),
        ) && crate::meal_ledger::insert_line_reading().stores(request.asks(Place::Charge).binds)
            == request.charge->0.columns(),
{
    lemma_read_held_reads();
    reveal_strlit("booked");
    reveal_strlit("cancelled");
    assert("booked"@.len() != "cancelled"@.len());
    reveal_with_fuel(crate::sql::all_hold, 4);
    if request.charge is Some {
        crate::meal_ledger::law_line_lands_in_its_columns(request.charge->0);
    }
}

/// A cancel flips the request's own seat, booked at the request's attempt, and
/// no other: the row is cancelled at the request's moment and is what the tables
/// hold of it after.
#[verifier::rlimit(40)]
#[verifier::spinoff_prover]
pub proof fn law_cancel_lands_in_its_columns(
    db: Kitchen,
    request: ReleaseRequest,
    seat: (Seq<char>, UserId),
    row: Row,
)
    requires
        db.bookings.contains_key(seat),
        holds_booking(row, seat, db.bookings[seat]),
    ensures
        ({
            let sent = request.asks(Release::Flip);
            let (after, reply) = release_effect(db, request.cancel(), Release::Flip);
            let picked = flip_reading().picks(sent.binds, row);
            &&& flip_reading().is_read(sent)
            &&& picked == (seat == (request.menu@, request.student) && db.bookings[seat].booked
                && db.bookings[seat].attempt == request.attempt)
            &&& picked ==> reply.has_row() && !after.bookings[seat].booked && flip_reading().writes(
                sent.binds,
                row,
            ) == seq![
                ("status"@, Cell::Text("cancelled"@)),
                ("cancelled_at"@, crate::sql::opt_int(after.bookings[seat].cancelled_at)),
            ] && after.bookings[seat].cancelled_at == Some(request.cancelled_at.0)
            &&& !picked ==> after.bookings[seat] == db.bookings[seat]
        }),
{
    lemma_flip_reads();
    reveal_strlit("booked");
    reveal_strlit("cancelled");
    assert("booked"@.len() != "cancelled"@.len());
    reveal_with_fuel(crate::sql::all_hold, 5);
}

/// A cancel gives one seat of the request's own menu back, never below zero, and
/// its reversal is looked for and written under the keys the request carries.
pub proof fn law_cancel_gives_its_seat_back(
    db: Kitchen,
    request: ReleaseRequest,
    id: Seq<char>,
    charged: bool,
    row: Row,
    line: Row,
)
    requires
        db.menus.contains_key(id),
        holds_menu(row, id, db.menus[id]),
    ensures
        ({
            let sent = request.asks(Release::GiveBack);
            let after = release_effect(db, request.cancel(), Release::GiveBack).0;
            &&& give_seat_back_reading().is_read(sent)
            &&& give_seat_back_reading().picks(sent.binds, row) == (id == request.menu@)
            &&& if id == request.menu@ {
                give_seat_back_reading().writes(sent.binds, row) == seq![
                    ("seats_booked"@, Cell::Int(after.menus[id].seats)),
                ]
            } else {
                after.menus[id] == db.menus[id]
            }
        }),
        request.refund is Some ==> ({
            let refund = request.refund->0;
            let charge = request.asks(Release::ReadCharge);
            let reversal = request.asks(Release::ReadReversal { charged });
            let sent = request.asks(Release::Refund);
            &&& line_there_reading().is_read(charge)
            &&& line_there_reading().picks(charge.binds, line) == (line["id"@] == Cell::Text(
                refund.charge@,
            ))
            &&& line_there_reading().is_read(reversal)
            &&& line_there_reading().picks(reversal.binds, line) == (line["id"@] == Cell::Text(
                refund.line.id@,
            ))
            &&& crate::meal_ledger::insert_line_reading().is_read(sent)
            &&& crate::meal_ledger::insert_line_reading().stores(sent.binds)
                == refund.line.columns()
        }),
{
    lemma_give_seat_back_reads();
    lemma_line_there_reads();
    reveal_with_fuel(crate::sql::all_hold, 2);
    if request.refund is Some {
        crate::meal_ledger::law_line_lands_in_its_columns(request.refund->0.line);
    }
}

/// A student's seat is read by its own menu and student.
pub proof fn law_seat_is_read_by_its_key(menu: &str, student: UserId, sent: Statement, row: Row)
    requires
        call_ensures(read, (menu, student), sent),
    ensures
        read_reading().is_read(sent@),
        read_reading().picks(sent@.binds, row) == (row["menu"@] == Cell::Text(menu@)
            && row["student"@] == Cell::Uuid(student.0)),
{
    lemma_read_reads();
    reveal_with_fuel(crate::sql::all_hold, 3);
}

/// What [`LIST_FOR_MENU_FROM`] says.
pub open spec fn list_for_menu_from_reading() -> Picking {
    Picking {
        skip: 0,
        head: ""@,
        columns: Seq::empty(),
        table: "meal_booking"@,
        conditions: seq![crate::sql::is_bound("menu"@, 1)],
        rest: Text::End,
    }
}

proof fn lemma_list_for_menu_from_reads()
    ensures
        crate::sql::spells(LIST_FOR_MENU_FROM@, 0, list_for_menu_from_reading().text()),
{
    reveal_strlit("meal_booking WHERE menu = $1");
    reveal_strlit("");
    reveal_strlit("meal_booking");
    reveal_strlit(" WHERE ");
    reveal_strlit("menu");
    reveal_strlit(" = ");
    reveal_strlit("$");
    reveal(crate::sql::Picking::text);
    reveal_with_fuel(crate::sql::where_text, 2);
    reveal_with_fuel(crate::sql::stands, 13);
    reveal_with_fuel(crate::sql::spells_by, 7);
    crate::sql::lemma_spells_by(LIST_FOR_MENU_FROM@, 0, list_for_menu_from_reading().text(), crate::sql::cut(0, crate::sql::cut(12, crate::sql::cut(19, crate::sql::cut(23, crate::sql::cut(26, crate::sql::cut(28, Cuts::Last)))))));
}

/// [`list_for_menu`] pages the rows it names and no other.
pub proof fn law_list_for_menu_reads_its_rows(
    menu: &str,
    limit: Option<i64>,
    offset: i64,
    both: (Statement, Option<Statement>),
    row: Row,
)
    requires
        call_ensures(list_for_menu, (menu, limit, offset), both),
    ensures
        crate::sql::spells(
            both.0@.sql,
            0,
            crate::sql::before("SELECT * FROM "@, crate::sql::opened(list_for_menu_from_reading().text())),
        ),
        list_for_menu_from_reading().picks(both.0@.binds, row) == (row["menu"@] == Cell::Text(menu@)),
{
    lemma_list_for_menu_from_reads();
    reveal(crate::sql::Picking::text);
    reveal_with_fuel(crate::sql::where_text, 2);
    reveal_with_fuel(crate::sql::is_open, 7);
    reveal_with_fuel(crate::sql::all_hold, 2);
    crate::page::law_page_reads_its_rows(
        both,
        LIST_FOR_MENU_FROM@,
        LIST_FOR_MENU_ORDER@,
        seq![ParamView::Text(menu@)],
        limit,
        offset,
        list_for_menu_from_reading().text(),
    );
}

/// The text of [`LIST_FOR_STUDENTS`], taken apart at its placeholders.
pub open spec fn list_for_students_text() -> Text {
    crate::sql::before("SELECT menu, student, booked_by, status,"@, crate::sql::before(" attempt, price_minor, cancelled_at, created_at"@, crate::sql::before(" FROM meal_booking WHERE student = ANY("@, crate::sql::before(crate::text::placeholder(1), crate::sql::before("::uuid[]) ORDER BY created_at DESC, menu DESC"@, crate::sql::before(" LIMIT "@, crate::sql::before(crate::text::placeholder(2), crate::sql::before(" OFFSET "@, crate::sql::before(crate::text::placeholder(3), Text::End)))))))))
}

proof fn lemma_list_for_students_reads()
    ensures
        crate::sql::spells(LIST_FOR_STUDENTS@, 0, list_for_students_text()),
{
    reveal_strlit("SELECT menu, student, booked_by, status, attempt, price_minor, cancelled_at, created_at FROM meal_booking WHERE student = ANY($1::uuid[]) ORDER BY created_at DESC, menu DESC LIMIT $2 OFFSET $3");
    reveal_strlit("SELECT menu, student, booked_by, status,");
    reveal_strlit(" attempt, price_minor, cancelled_at, created_at");
    reveal_strlit(" FROM meal_booking WHERE student = ANY(");
    reveal_strlit("$");
    reveal_strlit("::uuid[]) ORDER BY created_at DESC, menu DESC");
    reveal_strlit(" LIMIT ");
    reveal_strlit(" OFFSET ");
    reveal_with_fuel(crate::sql::stands, 48);
    reveal_with_fuel(crate::sql::spells_by, 10);
    crate::sql::lemma_spells_by(LIST_FOR_STUDENTS@, 0, list_for_students_text(), crate::sql::cut(40, crate::sql::cut(87, crate::sql::cut(126, crate::sql::cut(128, crate::sql::cut(173, crate::sql::cut(180, crate::sql::cut(182, crate::sql::cut(190, crate::sql::cut(192, Cuts::Last))))))))));
}

/// What [`COUNT_FOR_STUDENTS`] says.
pub open spec fn count_for_students_reading() -> Picking {
    Picking {
        skip: 0,
        head: "SELECT "@,
        columns: seq!["count(*)"@],
        table: "meal_booking"@,
        conditions: seq![Cond::Among(Term::Column("student"@), Term::Cast(1, "uuid[]"@))],
        rest: Text::End,
    }
}

proof fn lemma_count_for_students_reads()
    ensures
        crate::sql::spells(COUNT_FOR_STUDENTS@, 0, count_for_students_reading().text()),
{
    reveal_strlit("SELECT count(*) FROM meal_booking WHERE student = ANY($1::uuid[])");
    reveal_strlit("SELECT ");
    reveal_strlit("count(*)");
    reveal_strlit(" FROM ");
    reveal_strlit("meal_booking");
    reveal_strlit(" WHERE ");
    reveal_strlit("student");
    reveal_strlit(" = ANY(");
    reveal_strlit("$");
    reveal_strlit("::");
    reveal_strlit("uuid[]");
    reveal_strlit(")");
    reveal(crate::sql::Picking::text);
    reveal_with_fuel(crate::sql::where_text, 2);
    reveal_with_fuel(crate::sql::names_text, 2);
    reveal_with_fuel(crate::sql::stands, 13);
    reveal_with_fuel(crate::sql::spells_by, 12);
    crate::sql::lemma_spells_by(COUNT_FOR_STUDENTS@, 0, count_for_students_reading().text(), crate::sql::cut(7, crate::sql::cut(15, crate::sql::cut(21, crate::sql::cut(33, crate::sql::cut(40, crate::sql::cut(47, crate::sql::cut(54, crate::sql::cut(56, crate::sql::cut(58, crate::sql::cut(64, crate::sql::cut(65, Cuts::Last))))))))))));
}

/// [`list_for_students`] pages the seats of the students it names and no other:
/// what stands behind `LIMIT` and `OFFSET` is the caller's window.
pub proof fn law_list_for_students_binds_its_values(
    students: &Vec<UserId>,
    limit: Option<i64>,
    offset: i64,
    both: Option<(Statement, Option<Statement>)>,
    row: Row,
)
    requires
        call_ensures(list_for_students, (students, limit, offset), both),
        both is Some,
    ensures
        crate::sql::spells((both->0).0@.sql, 0, list_for_students_text()),
        (both->0).0@.binds.len() == 3,
        crate::sql::cell((both->0).0@.binds[0]) == Cell::Uuids(crate::homework::user_keys(students@)),
        crate::sql::cell((both->0).0@.binds[1]) == crate::sql::opt_int(limit),
        crate::sql::cell((both->0).0@.binds[2]) == Cell::Int(offset as int),
        (both->0).1 is Some ==> count_for_students_reading().is_read((both->0).1->0@),
        (both->0).1 is Some ==> count_for_students_reading().picks((both->0).1->0@.binds, row) == ((row["student"@] is Uuid && crate::homework::user_keys(students@).contains(row["student"@]->Uuid_0))),
{
    lemma_list_for_students_reads();
    lemma_count_for_students_reads();
    reveal_with_fuel(crate::sql::all_hold, 2);
}

} // verus!
