use school_db::claim::Claimed;
use school_db::error::{AppError, DbError};
use school_db::id::{EventId, PersonId, SchoolId, SessionId, TermId, Timestamp, UserId};
use school_db::karne;
use school_db::page::Uuid;
use school_db::parent_link;
use school_db::person::{self, Person};
use school_db::registration::{self, Remove};
use school_db::transaction::{Reply, Step};

fn unique(constraint: &str) -> DbError {
    DbError {
        code: Some("23505".to_string()),
        constraint: Some(constraint.to_string()),
        message: "duplicate key".to_string(),
    }
}

#[test]
fn a_padded_login_looks_up_the_name_it_pads() {
    for attempt in ["ayse", "  ayse", "ayse\t\n", "\u{3000}ayse\u{00A0}", "\u{2009} ayse \u{0085}"] {
        let statement = person::find_by_username(attempt);
        assert_eq!(format!("{:?}", statement.binds), "[Text(\"ayse\")]");
    }
    // What is inside a name stays.
    assert_eq!(
        format!("{:?}", person::find_by_username(" a b ").binds),
        "[Text(\"a b\")]"
    );
    assert_eq!(format!("{:?}", person::find_by_username("  ").binds), "[Text(\"\")]");
    assert_eq!(
        format!("{:?}", person::find_by_username("\u{200B}a").binds),
        format!("[Text({:?})]", "\u{200B}a")
    );
}

#[test]
fn a_taken_username_is_a_conflict() {
    let account = Person {
        id: PersonId(Uuid(1)),
        username: "ayse".to_string(),
        password_hash: "h".to_string(),
    };
    let statement = person::create(&account, Timestamp(2));
    assert_eq!(
        format!("{:?}", statement.binds),
        "[Uuid(Uuid(1)), Text(\"ayse\"), Text(\"h\"), I64(2)]"
    );
    assert!(person::created(Ok(())).is_ok());
    assert!(matches!(
        person::created(Err(unique("person_username"))),
        Err(AppError::Conflict("username already taken"))
    ));
    assert!(matches!(
        person::created(Err(unique("person_pkey"))),
        Err(AppError::Db(_))
    ));
}

#[test]
fn a_join_is_idempotent_by_its_statement() {
    let statement = person::add_membership(PersonId(Uuid(1)), "ankara", Timestamp(3));
    assert!(statement.sql.ends_with("ON CONFLICT DO NOTHING"));
    assert_eq!(
        format!("{:?}", statement.binds),
        "[Uuid(Uuid(1)), Text(\"ankara\"), I64(3)]"
    );
    assert!(person::memberships(PersonId(Uuid(1))).sql.ends_with("ORDER BY s.slug"));
    assert!(person::membership_of(PersonId(Uuid(1)), "ankara")
        .sql
        .ends_with("AND s.slug = $2"));
    let dropped = person::delete_memberships_by_school(SchoolId(Uuid(4)));
    assert_eq!(dropped.sql, "DELETE FROM person_school WHERE school = $1");
}

#[test]
fn sessions_are_kept_by_token() {
    let opened = person::create_session(
        SessionId(Uuid(1)),
        PersonId(Uuid(2)),
        "tok",
        Timestamp(3),
        Timestamp(4),
    );
    assert_eq!(
        format!("{:?}", opened.binds),
        "[Uuid(Uuid(1)), Uuid(Uuid(2)), Text(\"tok\"), I64(3), I64(4)]"
    );
    assert!(person::find_session_by_token("tok").sql.ends_with("WHERE token = $1"));
    assert!(person::delete_session_by_token("tok").sql.starts_with("DELETE"));
    assert!(person::delete_sessions_by_person(PersonId(Uuid(2))).sql.ends_with("person = $1"));
    let moved = person::set_password_hash("ayse", "h2");
    assert_eq!(format!("{:?}", moved.binds), "[Text(\"ayse\"), Text(\"h2\")]");
    assert!(person::read(PersonId(Uuid(2))).sql.ends_with("FROM person WHERE id = $1"));
}

#[test]
fn linking_again_restamps_who_linked_them() {
    let (parent, student, by) = (UserId(Uuid(1)), UserId(Uuid(2)), UserId(Uuid(3)));
    let linked = parent_link::link(parent, student, by);
    assert!(linked.sql.contains("ON CONFLICT (parent, student) DO UPDATE SET linked_by = $3"));
    assert!(parent_link::is_linked(parent, student).sql.contains("SELECT EXISTS"));
    assert!(parent_link::list_for_parent(parent).sql.contains("WHERE parent = $1"));
    assert!(parent_link::remove(parent, student).sql.starts_with("DELETE FROM parent_link"));
}

/// A pair has one link, which the listing shows until it is taken away.
#[test]
fn a_linked_student_is_listed_once() {
    let (parent, student) = (UserId(Uuid(1)), UserId(Uuid(2)));
    let mut links: Vec<(String, String, String)> = Vec::new();
    for by in [UserId(Uuid(3)), UserId(Uuid(4))] {
        let sent = parent_link::link(parent, student, by);
        let binds: Vec<String> = sent.binds.iter().map(|bind| format!("{bind:?}")).collect();
        match links.iter_mut().find(|row| row.0 == binds[0] && row.1 == binds[1]) {
            Some(row) => row.2 = binds[2].clone(),
            None => links.push((binds[0].clone(), binds[1].clone(), binds[2].clone())),
        }
    }
    assert_eq!(links.len(), 1);
    assert_eq!(links[0].2, "Uuid(Uuid(4))");
    let asked = parent_link::list_for_parent(parent);
    let of = format!("{:?}", asked.binds[0]);
    let listed: Vec<&String> = links.iter().filter(|row| row.0 == of).map(|row| &row.1).collect();
    assert_eq!(listed, vec!["Uuid(Uuid(2))"]);
    let taken = parent_link::remove(parent, student);
    assert_eq!(format!("{:?}", taken.binds), "[Uuid(Uuid(1)), Uuid(Uuid(2))]");
}

#[test]
fn freezing_a_report_again_refreshes_it() {
    let payload: serde_json::Value = serde_json::from_str("{\"ort\":85}").unwrap();
    let statement = karne::snapshot(TermId(Uuid(1)), UserId(Uuid(2)), &payload, Timestamp(3));
    assert!(statement.sql.contains("ON CONFLICT (term, app_user) DO UPDATE"));
    assert_eq!(
        format!("{:?}", statement.binds),
        "[Uuid(Uuid(1)), Uuid(Uuid(2)), Json(Object {\"ort\": Number(85)}), I64(3)]"
    );
    assert!(karne::read_snapshot(TermId(Uuid(1)), UserId(Uuid(2)))
        .sql
        .contains("WHERE term = $1 AND app_user = $2"));
}

/// A hall with a capacity, its counter, and the seats it counts.
struct Hall {
    capacity: Option<i64>,
    count: i64,
    seats: Vec<UserId>,
}

impl Hall {
    fn claim(&mut self, user: UserId, may_sit: bool) -> Claimed<UserId> {
        let room = match self.capacity {
            Some(capacity) => self.count < capacity,
            None => true,
        };
        let outcome = if room && may_sit && self.seats.contains(&user) {
            Err(unique("registration_event_user"))
        } else if room && may_sit {
            self.count += 1;
            self.seats.push(user);
            Ok(Some(user))
        } else {
            Ok(None)
        };
        registration::seat_claimed(outcome).unwrap()
    }

    fn remove(&mut self, user: UserId) -> bool {
        let mut at = Remove::DeleteRow;
        loop {
            let reply = match at {
                Remove::DeleteRow => match self.seats.iter().position(|seat| *seat == user) {
                    Some(i) => {
                        self.seats.remove(i);
                        Reply::Row
                    }
                    None => Reply::Empty,
                },
                Remove::ReleaseSeat => {
                    self.count = (self.count - 1).max(0);
                    Reply::Row
                }
            };
            match registration::remove(at, reply) {
                Step::Ask(next) => at = next,
                Step::Commit(answer) => return answer,
                Step::Abort(()) => unreachable!(),
            }
        }
    }
}

#[test]
fn a_hall_is_never_over_admitted() {
    let mut hall = Hall { capacity: Some(2), count: 0, seats: Vec::new() };
    let user = |n: u128| UserId(Uuid(n));
    assert!(matches!(hall.claim(user(1), true), Claimed::Made(_)));
    assert!(matches!(hall.claim(user(1), true), Claimed::Duplicate));
    assert!(matches!(hall.claim(user(2), false), Claimed::Full));
    assert!(matches!(hall.claim(user(2), true), Claimed::Made(_)));
    assert!(matches!(hall.claim(user(3), true), Claimed::Full));
    assert_eq!(hall.count, 2);
    assert!(hall.remove(user(1)));
    assert!(!hall.remove(user(1)));
    assert_eq!(hall.count, 1);
    assert!(matches!(hall.claim(user(3), true), Claimed::Made(_)));
    assert_eq!(hall.count as usize, hall.seats.len());
}

#[test]
fn the_statements_of_a_seat_name_the_pair() {
    let (event, user) = (EventId(Uuid(1)), UserId(Uuid(2)));
    let claimed = registration::claim_seat(event, user, UserId(Uuid(3)));
    assert!(claimed
        .sql
        .contains("audience_capacity IS NULL OR registration_count < audience_capacity"));
    assert!(claimed.sql.contains("role IS DISTINCT FROM 'parent'"));
    assert_eq!(
        format!("{:?}", claimed.binds),
        "[Uuid(Uuid(1)), Uuid(Uuid(2)), Uuid(Uuid(3))]"
    );
    assert!(registration::read_for_user(event, user).sql.ends_with("LIMIT 1"));
    assert!(registration::list_for_event(event).sql.contains("WHERE event = $1"));
    assert!(Remove::ReleaseSeat
        .statement(event, user)
        .sql
        .contains("GREATEST(registration_count - 1, 0)"));
    assert!(matches!(
        registration::seat_claimed::<i32>(Err(unique("other"))),
        Err(AppError::Db(_))
    ));
}
