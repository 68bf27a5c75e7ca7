use school_db::claim::ClaimRefusal;
use school_db::error::{AppError, DbError, Gone};
use school_db::id::{MenuDishId, Timestamp, UserId};
use school_db::meal_attendance::{self, MealAttendance, Marking};
use school_db::meal_booking::{
    self, claim_and_place, list_for_students, release_seat, MealBooking, MealBookingStatus, Place,
    PlaceRequest, Refund, Release, ReleaseRequest, Released,
};
use school_db::meal_ledger::{
    append, balance_of, price_snapshot, Append, KindTotal, LedgerAmount, MealLedger,
    MealLedgerKind,
};
use school_db::menu::{self, CreateRefusal, Deleted, Menu};
use school_db::menu_dish::{self, Change, DishPatch, MenuDish};
use school_db::page::Uuid;
use school_db::transaction::{Reply, Step};

const STUDENT: UserId = UserId(Uuid(6));
const COOK: UserId = UserId(Uuid(7));

fn line(id: &str, kind: MealLedgerKind, amount: i64) -> MealLedger {
    MealLedger {
        id: id.to_string(),
        student: STUDENT,
        kind,
        amount_minor: LedgerAmount(amount),
        source: None,
        method: None,
        note: None,
        recorded_by: COOK,
        created_at: Timestamp(1),
    }
}

fn booking(attempt: i64) -> MealBooking {
    MealBooking {
        menu: "m".to_string(),
        student: STUDENT,
        booked_by: STUDENT,
        status: MealBookingStatus::Booked,
        attempt,
        price_minor: Some(LedgerAmount(500)),
        cancelled_at: None,
        created_at: Timestamp(1),
    }
}

/// One menu, its bookings by one student and the ledger lines' keys.
#[derive(Clone, PartialEq, Debug)]
struct Kitchen {
    seats: i64,
    version: i64,
    held: Option<(bool, i64)>,
    lines: Vec<String>,
}

fn kitchen() -> Kitchen {
    Kitchen { seats: 0, version: 0, held: None, lines: Vec::new() }
}

impl Kitchen {
    fn place(&mut self, attempt: i64, cap: i64, seen: i64, charge: Option<&str>) -> Result<(), ClaimRefusal> {
        let request = PlaceRequest {
            row: booking(attempt),
            cap,
            seen,
            price: Some(LedgerAmount(500)),
            charge: charge.map(|id| line(id, MealLedgerKind::Charge, 500)),
        };
        let mut work = self.clone();
        let mut at = Place::ReadHeld;
        loop {
            let statement = request.statement(at);
            let there = match at {
                Place::ReadHeld => matches!(work.held, Some((true, _))),
                Place::ClaimSeat => {
                    let open = work.seats < cap && work.version == seen;
                    if open {
                        work.seats += 1;
                    }
                    open
                }
                Place::Revive => match work.held {
                    Some((false, last)) if last == attempt - 1 => {
                        work.held = Some((true, attempt));
                        true
                    }
                    _ => false,
                },
                Place::Insert => {
                    let free = work.held.is_none();
                    if free {
                        work.held = Some((true, attempt));
                    }
                    free
                }
                Place::Charge => {
                    assert!(statement.unwrap().sql.starts_with("INSERT INTO meal_ledger"));
                    work.lines.push(charge.unwrap().to_string());
                    true
                }
            };
            let reply = if there { Reply::Row } else { Reply::Empty };
            match claim_and_place(at, charge.is_some(), reply) {
                Step::Ask(next) => at = next,
                Step::Commit(()) => {
                    *self = work;
                    return Ok(());
                }
                Step::Abort(refusal) => return Err(refusal),
            }
        }
    }

    fn release(&mut self, attempt: i64, refund: Option<(&str, &str)>) -> Released {
        let request = ReleaseRequest {
            menu: "m".to_string(),
            student: STUDENT,
            attempt,
            cancelled_at: Timestamp(2),
            refund: refund.map(|(charge, reversal)| Refund {
                charge: charge.to_string(),
                line: line(reversal, MealLedgerKind::Reversal, 500),
            }),
        };
        let mut at = Release::Flip;
        loop {
            let statement = request.statement(at);
            let there = match at {
                Release::Flip => {
                    let held = self.held == Some((true, attempt));
                    if held {
                        self.held = Some((false, attempt));
                    }
                    held
                }
                Release::GiveBack => {
                    self.seats = (self.seats - 1).max(0);
                    true
                }
                Release::ReadCharge => self.lines.iter().any(|id| id == refund.unwrap().0),
                Release::ReadReversal { .. } => {
                    self.lines.iter().any(|id| id == refund.unwrap().1)
                }
                Release::Refund => {
                    assert!(statement.unwrap().sql.starts_with("INSERT INTO meal_ledger"));
                    self.lines.push(refund.unwrap().1.to_string());
                    true
                }
            };
            let reply = if there { Reply::Row } else { Reply::Empty };
            match release_seat(at, refund.is_some(), reply) {
                Step::Ask(next) => at = next,
                Step::Commit(done) => return done,
                Step::Abort(()) => panic!("refused"),
            }
        }
    }
}

#[test]
fn a_seat_cannot_be_claimed_at_a_revision_the_menu_has_left() {
    let mut db = kitchen();
    db.version = 1;
    let before = db.clone();
    assert_eq!(db.place(1, 5, 0, None), Err(ClaimRefusal::Full));
    assert_eq!(db, before);
    assert_eq!(db.place(1, 5, 1, None), Ok(()));
    assert_eq!(db.seats, 1);
}

#[test]
fn a_full_menu_and_a_held_seat_refuse() {
    let mut db = kitchen();
    assert_eq!(db.place(1, 0, 0, Some("c1")), Err(ClaimRefusal::Full));
    assert!(db.lines.is_empty());
    assert_eq!(db.place(1, 1, 0, Some("c1")), Ok(()));
    assert_eq!(db.place(2, 5, 0, Some("c2")), Err(ClaimRefusal::Duplicate));
    assert_eq!((db.seats, db.lines.len()), (1, 1));
    // A cancelled row of another attempt cannot be revived.
    db.held = Some((false, 7));
    let before = db.clone();
    assert_eq!(db.place(2, 5, 0, None), Err(ClaimRefusal::Duplicate));
    assert_eq!(db, before);
}

#[test]
fn a_cancel_cannot_release_an_attempt_it_never_read() {
    let mut db = kitchen();
    db.place(1, 5, 0, Some("c1")).unwrap();
    let before = db.clone();
    assert_eq!(db.release(2, Some(("c1", "r1"))), Released::NotHeld);
    assert_eq!(db, before);
    assert_eq!(db.release(1, Some(("c1", "r1"))), Released::Freed);
    assert_eq!(db.release(1, Some(("c1", "r1"))), Released::NotHeld);
}

#[test]
fn the_seat_cannot_be_freed_without_its_refund() {
    let mut db = kitchen();
    db.place(1, 5, 0, Some("c1")).unwrap();
    assert_eq!(db.release(1, Some(("c1", "r1"))), Released::Freed);
    assert_eq!(db.lines, vec!["c1".to_string(), "r1".to_string()]);
    assert_eq!(db.seats, 0);
}

#[test]
fn the_seat_cannot_be_claimed_without_its_charge() {
    let mut db = kitchen();
    db.place(1, 5, 0, Some("c1")).unwrap();
    assert_eq!(db.lines, vec!["c1".to_string()]);
    db.release(1, Some(("c1", "r1")));
    db.place(2, 5, 0, Some("c2")).unwrap();
    assert_eq!(db.held, Some((true, 2)));
    assert_eq!(db.lines.len(), 3);
}

#[test]
fn a_seat_that_was_never_billed_frees_without_a_line() {
    let mut db = kitchen();
    db.place(1, 5, 0, None).unwrap();
    assert_eq!(db.release(1, None), Released::Freed);
    assert!(db.lines.is_empty());
    db.place(2, 5, 0, None).unwrap();
    assert_eq!(db.release(2, Some(("c2", "r2"))), Released::Freed);
    assert!(db.lines.is_empty());
    assert_eq!(db.seats, 0);
}

#[test]
fn booking_reads_bind_their_scope() {
    assert!(meal_booking::read("m", STUDENT).sql.ends_with("WHERE menu = $1 AND student = $2"));
    let (page, _) = meal_booking::list_for_menu("m", None, 0);
    assert!(page.sql.ends_with("ORDER BY created_at DESC, student DESC"));
    assert!(list_for_students(&Vec::new(), None, 0).is_none());
    let (page, count) = list_for_students(&vec![STUDENT], Some(5), 0).unwrap();
    assert_eq!(
        format!("{:?}", page.binds),
        "[Uuids([Uuid(6)]), OptI64(Some(5)), I64(0)]"
    );
    assert!(count.is_some());
    assert!(list_for_students(&vec![STUDENT], None, 0).unwrap().1.is_none());
}

#[test]
fn the_balance_aggregate_decodes_on_a_real_server() {
    let totals = vec![
        KindTotal { kind: MealLedgerKind::Credit, total: 2000 },
        KindTotal { kind: MealLedgerKind::Charge, total: 500 },
        KindTotal { kind: MealLedgerKind::Reversal, total: 500 },
    ];
    assert_eq!(balance_of(&totals), 2000);
    assert_eq!(balance_of(&Vec::new()), 0);
    assert_eq!(MealLedgerKind::Charge.sign(), -1);
    assert_eq!(MealLedgerKind::Reversal.as_str(), "reversal");
}

#[test]
fn a_ledger_line_is_appended_once() {
    let row = line("c1", MealLedgerKind::Credit, 10);
    let mut stored: Vec<String> = Vec::new();
    for _ in 0..2 {
        let mut at = Append::Read;
        loop {
            let reply = match at {
                Append::Insert => {
                    assert!(at.statement(&row).sql.contains("ON CONFLICT (id) DO NOTHING"));
                    stored.push(row.id.clone());
                    Reply::Row
                }
                _ => {
                    if stored.contains(&row.id) {
                        Reply::Row
                    } else {
                        Reply::Empty
                    }
                }
            };
            match append(at, reply) {
                Step::Ask(next) => at = next,
                Step::Commit(()) => break,
                Step::Abort(_) => panic!("unwritten"),
            }
        }
    }
    assert_eq!(stored.len(), 1);
    match append(Append::ReadBack, Reply::Empty) {
        Step::Abort(unwritten) => assert!(matches!(unwritten.error(), AppError::Internal(_))),
        other => panic!("{other:?}"),
    }
}

#[test]
fn a_free_menu_has_no_price() {
    assert!(matches!(price_snapshot(0, Err(AppError::NotFound)), Ok(None)));
    assert!(matches!(
        price_snapshot(5, Ok(LedgerAmount(5))),
        Ok(Some(LedgerAmount(5)))
    ));
    assert!(matches!(
        price_snapshot(5, Err(AppError::NotFound)),
        Err(AppError::NotFound)
    ));
}

fn published() -> Menu {
    Menu {
        id: "m".to_string(),
        date: "2026-01-05".to_string(),
        slot: "öğle".to_string(),
        capacity: Some(5),
        version: Some(0),
        created_by: COOK,
        created_at: Timestamp(1),
    }
}

#[derive(Clone, PartialEq, Debug)]
struct Board {
    menu: bool,
    seats: i64,
    references: i64,
    retired: bool,
    dishes: i64,
    marks: i64,
}

fn board() -> Board {
    Board { menu: false, seats: 0, references: 0, retired: false, dishes: 0, marks: 0 }
}

impl Board {
    fn create(&mut self) -> Result<(), CreateRefusal> {
        let mut at = menu::Create::ReadTaken;
        loop {
            let statement = at.statement(&published(), "lunch");
            let there = match at {
                menu::Create::ReadTaken => self.menu,
                menu::Create::Insert => {
                    assert_eq!(statement.binds.len(), 8);
                    if !self.retired {
                        self.menu = true;
                        self.references += 1;
                    }
                    !self.retired
                }
            };
            let reply = if there { Reply::Row } else { Reply::Empty };
            match menu::create(at, reply) {
                Step::Ask(next) => at = next,
                Step::Commit(()) => return Ok(()),
                Step::Abort(refusal) => return Err(refusal),
            }
        }
    }

    fn delete(&mut self) -> Deleted {
        let mut at = menu::Delete::Guard;
        loop {
            let sql = at.statement("m", "lunch").sql;
            let there = match at {
                menu::Delete::Guard => self.menu && self.seats == 0,
                menu::Delete::WipeMarks => {
                    assert!(sql.starts_with("DELETE FROM meal_attendance "));
                    self.marks = 0;
                    true
                }
                menu::Delete::WipeDishes => {
                    assert!(sql.starts_with("DELETE FROM menu_dish "));
                    self.dishes = 0;
                    true
                }
                menu::Delete::DeleteRow => {
                    self.menu = false;
                    true
                }
                menu::Delete::ReleaseSlot => {
                    assert!(sql.contains("GREATEST(count - 1, 0)"));
                    self.references = (self.references - 1).max(0);
                    true
                }
            };
            let reply = if there { Reply::Row } else { Reply::Empty };
            match menu::delete(at, reply) {
                Step::Ask(next) => at = next,
                Step::Commit(done) => return done,
                Step::Abort(()) => panic!("refused"),
            }
        }
    }
}

#[test]
fn publishing_lands_the_menu_and_its_reference_together() {
    let mut db = board();
    db.create().unwrap();
    assert!(db.menu && db.references == 1);
}

#[test]
fn a_retired_slot_refuses_and_writes_nothing() {
    let mut db = Board { retired: true, ..board() };
    let before = db.clone();
    assert_eq!(db.create(), Err(CreateRefusal::RetiredSlot));
    assert_eq!(db, before);
    match CreateRefusal::RetiredSlot.error("öğle") {
        AppError::ConflictOwned(text) => assert_eq!(
            text,
            "the 'öğle' meal slot has been removed from the school's settings"
        ),
        other => panic!("{other:?}"),
    }
}

#[test]
fn a_rival_on_the_id_answers_taken_and_counts_nothing() {
    let mut db = board();
    db.create().unwrap();
    assert_eq!(db.create(), Err(CreateRefusal::Taken));
    assert_eq!(db.references, 1);
    match CreateRefusal::Taken.error("öğle") {
        AppError::Conflict(text) => assert_eq!(text, menu::TAKEN),
        other => panic!("{other:?}"),
    }
    let rival = |name: &str| DbError {
        code: Some("23505".to_string()),
        constraint: Some(name.to_string()),
        message: String::new(),
    };
    for name in ["menu_pkey", "menu_date_slot"] {
        assert!(matches!(menu::insert_failed(rival(name)), AppError::Conflict(_)));
    }
    assert!(matches!(menu::insert_failed(rival("slot_ref_pkey")), AppError::Db(_)));
}

#[test]
fn the_cap_and_the_revision_move_together_or_not_at_all() {
    let moved = menu::update("m", Some(Some(3)));
    assert!(moved.sql.contains("capacity = $2, version = COALESCE(version, 0) + 1"));
    assert_eq!(format!("{:?}", moved.binds), "[Text(\"m\"), OptI64(Some(3))]");
    let lifted = menu::update("m", Some(None));
    assert_eq!(format!("{:?}", lifted.binds), "[Text(\"m\"), OptI64(None)]");
    assert!(menu::update("m", None).sql.starts_with("SELECT"));
}

#[test]
fn deleting_hands_the_reference_back_in_the_same_step() {
    let mut db = board();
    db.create().unwrap();
    db.dishes = 2;
    db.marks = 3;
    db.seats = 1;
    let before = db.clone();
    assert_eq!(db.delete(), Deleted::Nothing);
    assert_eq!(db, before);
    match menu::delete_refused(true) {
        AppError::Conflict(text) => assert_eq!(text, menu::LIVE_BOOKINGS),
        other => panic!("{other:?}"),
    }
    db.seats = 0;
    assert_eq!(db.delete(), Deleted::Menu);
    assert_eq!(db, board());
    assert_eq!(db.delete(), Deleted::Nothing);
    assert!(matches!(menu::delete_refused(false), AppError::NotFound));
    assert!(menu::find("2026-01-05", "öğle").sql.ends_with("LIMIT 1"));
    let (page, _) = menu::list(Some("2026-01-01"), None, None, 0);
    assert_eq!(
        format!("{:?}", page.binds),
        "[OptText(Some(\"2026-01-01\")), OptText(None)]"
    );
}

#[test]
fn every_menu_write_that_moves_the_price_moves_the_revision() {
    let dish = MenuDish {
        id: MenuDishId(Uuid(3)),
        menu: "m".to_string(),
        name: "Çorba".to_string(),
        description: None,
        price_minor: 100,
        tags: vec!["vegan".to_string()],
        created_at: Timestamp(1),
    };
    assert!(menu_dish::Create::Bump.statement(&dish, 4).sql.contains("version"));
    assert!(matches!(
        menu_dish::create(menu_dish::Create::Lock, Reply::Row),
        Step::Ask(menu_dish::Create::Bump)
    ));
    assert!(matches!(
        menu_dish::create(menu_dish::Create::Bump, Reply::Row),
        Step::Ask(menu_dish::Create::Insert)
    ));
    match menu_dish::create(menu_dish::Create::Insert, Reply::Empty) {
        Step::Abort(refusal) => match refusal.error() {
            AppError::Conflict(text) => assert_eq!(text, menu_dish::FULL),
            other => panic!("{other:?}"),
        },
        other => panic!("{other:?}"),
    }
    match menu_dish::create(menu_dish::Create::Lock, Reply::Empty) {
        Step::Abort(refusal) => assert!(matches!(refusal.error(), AppError::NotFound)),
        other => panic!("{other:?}"),
    }
    let insert = menu_dish::Create::Insert.statement(&dish, 4);
    assert!(format!("{:?}", insert.binds).ends_with("Texts([\"vegan\"]), I64(1), I64(4)]"));
    let patch = DishPatch {
        name: None,
        description: Some(None),
        price_minor: Some(150),
        tags: None,
    };
    assert!(Change::Bump.update_statement("m", dish.id, &patch).sql.contains("version"));
    assert_eq!(
        format!("{:?}", Change::Dish.update_statement("m", dish.id, &patch).binds),
        "[Uuid(Uuid(3)), OptText(None), Bool(true), OptText(None), OptI64(Some(150)), OptTexts(None)]"
    );
    assert!(Change::Bump.delete_statement("m", dish.id).sql.contains("version"));
    assert!(matches!(menu_dish::update(Change::Bump, Reply::Row), Step::Ask(Change::Dish)));
    assert!(matches!(menu_dish::update(Change::Dish, Reply::Empty), Step::Abort(Gone)));
    assert!(matches!(menu_dish::delete(Change::Bump, Reply::Empty), Step::Abort(Gone)));
    assert!(matches!(menu_dish::delete(Change::Dish, Reply::Row), Step::Commit(())));
    assert!(menu_dish::list_for_menus(&Vec::new()).is_none());
    assert_eq!(
        format!("{:?}", menu_dish::list_for_menu("m").binds),
        format!("{:?}", menu_dish::list_for_menus(&vec!["m".to_string()]).unwrap().binds)
    );
    assert!(menu_dish::read(dish.id).sql.ends_with("WHERE id = $1"));
}

#[test]
fn a_mark_rides_its_menu() {
    let row = MealAttendance {
        menu: "m".to_string(),
        student: STUDENT,
        status: "present".to_string(),
        marked_by: COOK,
        marked_at: Timestamp(2),
    };
    assert!(Marking::Bump.statement(&row).sql.contains("version"));
    assert_eq!(
        format!("{:?}", Marking::Store.statement(&row).binds),
        "[Text(\"m\"), Uuid(Uuid(6)), Text(\"present\"), Uuid(Uuid(7)), I64(2)]"
    );
    assert!(matches!(meal_attendance::mark(Marking::Bump, Reply::Empty), Step::Abort(Gone)));
    assert!(matches!(
        meal_attendance::mark(Marking::Bump, Reply::Row),
        Step::Ask(Marking::Store)
    ));
    assert!(matches!(meal_attendance::mark(Marking::Store, Reply::Row), Step::Commit(())));
    let (page, _) = meal_attendance::list_for_menu("m", None, 0);
    assert!(page.sql.ends_with("ORDER BY marked_at DESC, menu DESC"));
    let (page, _) = meal_attendance::list_for_student(STUDENT, None, Some("2026-02-01"), None, 0);
    assert_eq!(
        format!("{:?}", page.binds),
        "[Uuid(Uuid(6)), OptText(None), OptText(Some(\"2026-02-01\"))]"
    );
}

/// The least number is out of range only where its sign has to turn.
#[test]
fn the_least_credit_is_a_balance_too() {
    let least = vec![KindTotal { kind: MealLedgerKind::Credit, total: i64::MIN }];
    assert_eq!(balance_of(&least), i64::MIN);
}
