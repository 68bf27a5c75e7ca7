//! The person tables of the control database: the global account, its school
//! memberships, and its login sessions keyed by cookie token.

use vstd::prelude::*;

use crate::error::{unique_violation, AppError, AppErrorView, DbError};
use crate::id::{PersonId, SchoolId, SessionId, Timestamp};
use crate::page::{Param, ParamView, Statement};
use crate::sql::{Cell, Conflict, Cuts, Picking, Row, Storing, Term, Text, Writing};
use crate::text::trim;

verus! {

/// A global account.
#[derive(Debug)]
pub struct Person {
    pub id: PersonId,
    pub username: String,
    pub password_hash: String,
}

pub const CREATE: &'static str =
    "INSERT INTO person (id, username, password_hash, created_at) VALUES ($1, $2, $3, $4)";

/// The insert of an account.
pub fn create(person: &Person, now: Timestamp) -> (statement: Statement)
    ensures
        statement@ == crate::page::sends(
            CREATE,
            seq![
                ParamView::Uuid(person.id.0),
                ParamView::Text(person.username@),
                ParamView::Text(person.password_hash@),
                ParamView::I64(now.0),
            ],
        ),
{
    Statement::new(
        CREATE,
        vec![
            Param::Uuid(person.id.0),
            Param::Text(person.username.clone()),
            Param::Text(person.password_hash.clone()),
            Param::I64(now.0),
        ],
    )
}

/// The unique constraint of a username.
pub const USERNAME_INDEX: &'static str = "person_username";

/// The answer to a username somebody has.
pub const USERNAME_TAKEN: &'static str = "username already taken";

/// What an insert answers: the unique index is the whole availability check,
/// so the loser of a race is answered as a later duplicate is.
pub fn created(outcome: Result<(), DbError>) -> (answer: Result<(), AppError>)
    ensures
        match outcome {
            Ok(_) => answer is Ok,
            Err(error) => answer is Err && answer->Err_0@ == (if error.violates_unique(
                USERNAME_INDEX@,
            ) {
                AppErrorView::Conflict(USERNAME_TAKEN@)
            } else {
                AppErrorView::Db(error)
            }),
        },
{
    match outcome {
        Ok(_) => Ok(()),
        Err(error) => if unique_violation(&error, USERNAME_INDEX) {
            Err(AppError::Conflict(USERNAME_TAKEN))
        } else {
            Err(AppError::Db(error))
        },
    }
}

pub const READ: &'static str =
    "SELECT id, username, password_hash FROM person WHERE id = $1";

/// The read of an account.
pub fn read(id: PersonId) -> (statement: Statement)
    ensures
        statement@ == crate::page::sends(READ, seq![ParamView::Uuid(id.0)]),
{
    Statement::new(READ, vec![Param::Uuid(id.0)])
}

pub const FIND_BY_USERNAME: &'static str =
    "SELECT id, username, password_hash FROM person WHERE username = $1";

/// The login lookup. Usernames are stored trimmed, so a padded attempt is
/// trimmed to the name it pads.
pub fn find_by_username(username: &str) -> (statement: Statement)
    ensures
        statement@ == crate::page::sends(
            FIND_BY_USERNAME,
            seq![ParamView::Text(crate::text::trimmed(username@))],
        ),
{
    Statement::new(FIND_BY_USERNAME, vec![Param::Text(trim(username).to_owned())])
}

pub const MEMBERSHIPS: &'static str =
    "SELECT s.slug, s.name, s.status FROM person_school ps JOIN school s ON s.id = ps.school \
     WHERE ps.person = $1 ORDER BY s.slug";

/// The read of every school a person belongs to, suspended ones too.
pub fn memberships(person: PersonId) -> (statement: Statement)
    ensures
        statement@ == crate::page::sends(MEMBERSHIPS, seq![ParamView::Uuid(person.0)]),
{
    Statement::new(MEMBERSHIPS, vec![Param::Uuid(person.0)])
}

pub const MEMBERSHIP_OF: &'static str =
    "SELECT s.slug, s.name, s.status FROM person_school ps JOIN school s ON s.id = ps.school \
     WHERE ps.person = $1 AND s.slug = $2";

/// The read of a person's membership in one school.
pub fn membership_of(person: PersonId, slug: &str) -> (statement: Statement)
    ensures
        statement@ == crate::page::sends(
            MEMBERSHIP_OF,
            seq![ParamView::Uuid(person.0), ParamView::Text(slug@)],
        ),
{
    Statement::new(MEMBERSHIP_OF, vec![Param::Uuid(person.0), Param::Text(slug.to_owned())])
}

pub const ADD_MEMBERSHIP: &'static str =
    "INSERT INTO person_school (person, school, created_at) SELECT $1, s.id, $3 FROM school s \
     WHERE s.slug = $2 ON CONFLICT DO NOTHING";

/// The join of a person and a school; joining again, or a school that is gone,
/// writes nothing.
pub fn add_membership(person: PersonId, slug: &str, now: Timestamp) -> (statement: Statement)
    ensures
        statement@ == crate::page::sends(
            ADD_MEMBERSHIP,
            seq![ParamView::Uuid(person.0), ParamView::Text(slug@), ParamView::I64(now.0)],
        ),
{
    Statement::new(
        ADD_MEMBERSHIP,
        vec![Param::Uuid(person.0), Param::Text(slug.to_owned()), Param::I64(now.0)],
    )
}

pub const DELETE_MEMBERSHIPS_BY_SCHOOL: &'static str =
    "DELETE FROM person_school WHERE school = $1";

/// The drop of every membership in a school; the persons stay.
pub fn delete_memberships_by_school(school: SchoolId) -> (statement: Statement)
    ensures
        statement@ == crate::page::sends(
            DELETE_MEMBERSHIPS_BY_SCHOOL,
            seq![ParamView::Uuid(school.0)],
        ),
{
    Statement::new(DELETE_MEMBERSHIPS_BY_SCHOOL, vec![Param::Uuid(school.0)])
}

pub const CREATE_SESSION: &'static str =
    "INSERT INTO person_session (id, person, token, created_at, expires_at) VALUES ($1, $2, $3, \
     $4, $5) RETURNING person, token, expires_at";

/// The insert of a login session.
pub fn create_session(
    id: SessionId,
    person: PersonId,
    token: &str,
    now: Timestamp,
    expires_at: Timestamp,
) -> (statement: Statement)
    ensures
        statement@ == crate::page::sends(
            CREATE_SESSION,
            seq![
                ParamView::Uuid(id.0),
                ParamView::Uuid(person.0),
                ParamView::Text(token@),
                ParamView::I64(now.0),
                ParamView::I64(expires_at.0),
            ],
        ),
{
    Statement::new(
        CREATE_SESSION,
        vec![
            Param::Uuid(id.0),
            Param::Uuid(person.0),
            Param::Text(token.to_owned()),
            Param::I64(now.0),
            Param::I64(expires_at.0),
        ],
    )
}

pub const FIND_SESSION_BY_TOKEN: &'static str =
    "SELECT person, token, expires_at FROM person_session WHERE token = $1";

/// The read of the session a token opens.
pub fn find_session_by_token(token: &str) -> (statement: Statement)
    ensures
        statement@ == crate::page::sends(FIND_SESSION_BY_TOKEN, seq![ParamView::Text(token@)]),
{
    Statement::new(FIND_SESSION_BY_TOKEN, vec![Param::Text(token.to_owned())])
}

pub const DELETE_SESSION_BY_TOKEN: &'static str =
    "DELETE FROM person_session WHERE token = $1";

/// The end of the session a token opens.
pub fn delete_session_by_token(token: &str) -> (statement: Statement)
    ensures
        statement@ == crate::page::sends(DELETE_SESSION_BY_TOKEN, seq![ParamView::Text(token@)]),
{
    Statement::new(DELETE_SESSION_BY_TOKEN, vec![Param::Text(token.to_owned())])
}

pub const DELETE_SESSIONS_BY_PERSON: &'static str =
    "DELETE FROM person_session WHERE person = $1";

/// The end of every session of a person.
pub fn delete_sessions_by_person(person: PersonId) -> (statement: Statement)
    ensures
        statement@ == crate::page::sends(
            DELETE_SESSIONS_BY_PERSON,
            seq![ParamView::Uuid(person.0)],
        ),
{
    Statement::new(DELETE_SESSIONS_BY_PERSON, vec![Param::Uuid(person.0)])
}

pub const SET_PASSWORD_HASH: &'static str =
    "UPDATE person SET password_hash = $2 WHERE username = $1";

/// The move of an account's credential.
pub fn set_password_hash(username: &str, password_hash: &str) -> (statement: Statement)
    ensures
        statement@ == crate::page::sends(
            SET_PASSWORD_HASH,
            seq![ParamView::Text(username@), ParamView::Text(password_hash@)],
        ),
{
    Statement::new(
        SET_PASSWORD_HASH,
        vec![Param::Text(username.to_owned()), Param::Text(password_hash.to_owned())],
    )
}

/// Whether every character of a text is white space.
pub open spec fn is_blank(text: Seq<char>) -> bool {
    forall|i: int| 0 <= i < text.len() ==> crate::text::is_white_space(#[trigger] text[i])
}

/// A padded login attempt looks up the name it pads.
pub proof fn law_padding_is_ignored(before: Seq<char>, name: Seq<char>, after: Seq<char>)
    requires
        is_blank(before),
        is_blank(after),
    ensures
        crate::text::trimmed(before + name + after) == crate::text::trimmed(name),
    decreases before.len() + after.len(),
{
    let padded = before + name + after;
    if before.len() > 0 {
        assert(crate::text::is_white_space(before[0]));
        assert(padded[0] == before[0]);
        let rest = before.drop_first();
        assert(padded.drop_first() =~= rest + name + after);
        assert(is_blank(rest)) by {
            assert forall|i: int| 0 <= i < rest.len() implies crate::text::is_white_space(
                #[trigger] rest[i],
            ) by {
                assert(rest[i] == before[i + 1]);
            }
        }
        law_padding_is_ignored(rest, name, after);
    } else if after.len() > 0 {
        let rest = after.drop_last();
        assert(is_blank(rest)) by {
            assert forall|i: int| 0 <= i < rest.len() implies crate::text::is_white_space(
                #[trigger] rest[i],
            ) by {
                assert(rest[i] == after[i]);
            }
        }
        assert(padded =~= name + after);
        assert(padded.drop_last() =~= name + rest);
        assert(Seq::<char>::empty() + name + rest =~= name + rest);
        law_padding_is_ignored(Seq::empty(), name, rest);
        assert(padded.last() == after[after.len() - 1]);
        lemma_trims_at_the_end(padded);
    } else {
        assert(padded =~= name);
    }
}

/// White space at the end of a text does not change what is left of it.
proof fn lemma_trims_at_the_end(text: Seq<char>)
    requires
        text.len() > 0,
        crate::text::is_white_space(text.last()),
    ensures
        crate::text::trimmed(text) == crate::text::trimmed(text.drop_last()),
    decreases text.len(),
{
    if crate::text::is_white_space(text[0]) {
        if text.len() == 1 {
            assert(text.drop_first() =~= text.drop_last());
        } else {
            let rest = text.drop_first();
            assert(rest.last() == text.last());
            lemma_trims_at_the_end(rest);
            assert(rest.drop_last() =~= text.drop_last().drop_first());
        }
    }
}

/// Who belongs to which school.
pub type Memberships = Set<(PersonId, SchoolId)>;

/// What a join leaves, where the registry knows the school.
pub open spec fn joined(
    members: Memberships,
    person: PersonId,
    school: Option<SchoolId>,
) -> Memberships {
    match school {
        Some(school) => members.insert((person, school)),
        None => members,
    }
}

/// What the drop of a school leaves.
pub open spec fn dropped(members: Memberships, school: SchoolId) -> Memberships {
    members.filter(|pair: (PersonId, SchoolId)| pair.1 != school)
}

/// A repeated join is no change, and a join of a school that is gone joins
/// nothing.
pub proof fn law_join_is_idempotent(
    members: Memberships,
    person: PersonId,
    school: Option<SchoolId>,
)
    ensures
        joined(joined(members, person, school), person, school) == joined(members, person, school),
        joined(members, person, None) == members,
{
    assert(joined(joined(members, person, school), person, school) =~= joined(
        members,
        person,
        school,
    ));
}

/// A dropped school keeps no member, and every other membership stays.
pub proof fn law_drop_takes_one_school(
    members: Memberships,
    school: SchoolId,
    pair: (PersonId, SchoolId),
)
    ensures
        dropped(members, school).contains(pair) <==> members.contains(pair) && pair.1 != school,
{
}

/// What [`CREATE`] says.
pub open spec fn create_reading() -> Storing {
    Storing {
        head: "INSERT INTO "@,
        table: "person"@,
        columns: seq!["id"@, "username"@, "password_hash"@, "created_at"@],
        values: seq![Term::Bind(1), Term::Bind(2), Term::Bind(3), Term::Bind(4)],
        selected: false,
        conflict: Conflict::Unread,
        rest: Text::End,
    }
}

proof fn lemma_create_reads()
    ensures
        crate::sql::spells(CREATE@, 0, create_reading().text()),
{
    reveal_strlit("INSERT INTO person (id, username, password_hash, created_at) VALUES ($1, $2, $3, $4)");
    reveal_strlit("INSERT INTO ");
    reveal_strlit("person");
    reveal_strlit(" (");
    reveal_strlit("id");
    reveal_strlit(", ");
    reveal_strlit("username");
    reveal_strlit("password_hash");
    reveal_strlit("created_at");
    reveal_strlit(") VALUES (");
    reveal_strlit("$");
    reveal_strlit(")");
    reveal(crate::sql::Storing::text);
    reveal_with_fuel(crate::sql::names_text, 5);
    reveal_with_fuel(crate::sql::values_text, 5);
    reveal_with_fuel(crate::sql::stands, 14);
    reveal_with_fuel(crate::sql::spells_by, 20);
    crate::sql::lemma_spells_by(CREATE@, 0, create_reading().text(), crate::sql::cut(12, crate::sql::cut(18, crate::sql::cut(20, crate::sql::cut(22, crate::sql::cut(24, crate::sql::cut(32, crate::sql::cut(34, crate::sql::cut(47, crate::sql::cut(49, crate::sql::cut(59, crate::sql::cut(69, crate::sql::cut(71, crate::sql::cut(73, crate::sql::cut(75, crate::sql::cut(77, crate::sql::cut(79, crate::sql::cut(81, crate::sql::cut(83, crate::sql::cut(84, Cuts::Last))))))))))))))))))));
}

/// What [`create`] stores, column by column, is what it is given.
pub proof fn law_create_lands_in_its_columns(
    person: &Person,
    now: Timestamp,
    sent: Statement,
)
    requires
        call_ensures(create, (person, now), sent),
    ensures
        create_reading().is_read(sent@),
        create_reading().stores(sent@.binds) == seq![
            ("id"@, Cell::Uuid(person.id.0)),
            ("username"@, Cell::Text(person.username@)),
            ("password_hash"@, Cell::Text(person.password_hash@)),
            ("created_at"@, Cell::Int(now.0 as int)),
        ],
{
    lemma_create_reads();
}

/// What [`READ`] says.
pub open spec fn read_reading() -> Picking {
    Picking {
        skip: 0,
        head: "SELECT "@,
        columns: seq!["id"@, "username"@, "password_hash"@],
        table: "person"@,
        conditions: seq![crate::sql::is_bound("id"@, 1)],
        rest: Text::End,
    }
}

proof fn lemma_read_reads()
    ensures
        crate::sql::spells(READ@, 0, read_reading().text()),
{
    reveal_strlit("SELECT id, username, password_hash FROM person WHERE id = $1");
    reveal_strlit("SELECT ");
    reveal_strlit("id");
    reveal_strlit(", ");
    reveal_strlit("username");
    reveal_strlit("password_hash");
    reveal_strlit(" FROM ");
    reveal_strlit("person");
    reveal_strlit(" WHERE ");
    reveal_strlit(" = ");
    reveal_strlit("$");
    reveal(crate::sql::Picking::text);
    reveal_with_fuel(crate::sql::where_text, 2);
    reveal_with_fuel(crate::sql::names_text, 4);
    reveal_with_fuel(crate::sql::stands, 14);
    reveal_with_fuel(crate::sql::spells_by, 13);
    crate::sql::lemma_spells_by(READ@, 0, read_reading().text(), crate::sql::cut(7, crate::sql::cut(9, crate::sql::cut(11, crate::sql::cut(19, crate::sql::cut(21, crate::sql::cut(34, crate::sql::cut(40, crate::sql::cut(46, crate::sql::cut(53, crate::sql::cut(55, crate::sql::cut(58, crate::sql::cut(60, Cuts::Last)))))))))))));
}

/// [`read`] reads the rows it names and no other.
pub proof fn law_read_reads_its_rows(
    id: PersonId,
    sent: Statement,
    row: Row,
)
    requires
        call_ensures(read, (id,), sent),
    ensures
        read_reading().is_read(sent@),
        read_reading().picks(sent@.binds, row) == (row["id"@] == Cell::Uuid(id.0)),
{
    lemma_read_reads();
    reveal_with_fuel(crate::sql::all_hold, 2);
}

/// What [`FIND_BY_USERNAME`] says.
pub open spec fn find_by_username_reading() -> Picking {
    Picking {
        skip: 0,
        head: "SELECT "@,
        columns: seq!["id"@, "username"@, "password_hash"@],
        table: "person"@,
        conditions: seq![crate::sql::is_bound("username"@, 1)],
        rest: Text::End,
    }
}

proof fn lemma_find_by_username_reads()
    ensures
        crate::sql::spells(FIND_BY_USERNAME@, 0, find_by_username_reading().text()),
{
    reveal_strlit("SELECT id, username, password_hash FROM person WHERE username = $1");
    reveal_strlit("SELECT ");
    reveal_strlit("id");
    reveal_strlit(", ");
    reveal_strlit("username");
    reveal_strlit("password_hash");
    reveal_strlit(" FROM ");
    reveal_strlit("person");
    reveal_strlit(" WHERE ");
    reveal_strlit(" = ");
    reveal_strlit("$");
    reveal(crate::sql::Picking::text);
    reveal_with_fuel(crate::sql::where_text, 2);
    reveal_with_fuel(crate::sql::names_text, 4);
    reveal_with_fuel(crate::sql::stands, 14);
    reveal_with_fuel(crate::sql::spells_by, 13);
    crate::sql::lemma_spells_by(FIND_BY_USERNAME@, 0, find_by_username_reading().text(), crate::sql::cut(7, crate::sql::cut(9, crate::sql::cut(11, crate::sql::cut(19, crate::sql::cut(21, crate::sql::cut(34, crate::sql::cut(40, crate::sql::cut(46, crate::sql::cut(53, crate::sql::cut(61, crate::sql::cut(64, crate::sql::cut(66, Cuts::Last)))))))))))));
}

/// [`find_by_username`] reads the rows it names and no other.
pub proof fn law_find_by_username_reads_its_rows(
    username: &str,
    sent: Statement,
    row: Row,
)
    requires
        call_ensures(find_by_username, (username,), sent),
    ensures
        find_by_username_reading().is_read(sent@),
        find_by_username_reading().picks(sent@.binds, row) == (row["username"@] == Cell::Text(crate::text::trimmed(username@))),
{
    lemma_find_by_username_reads();
    reveal_with_fuel(crate::sql::all_hold, 2);
}

/// What [`MEMBERSHIPS`] says.
pub open spec fn memberships_reading() -> Picking {
    Picking {
        skip: 0,
        head: "SELECT "@,
        columns: seq!["s.slug"@, "s.name"@, "s.status"@],
        table: "person_school ps JOIN school s ON s.id = ps.school"@,
        conditions: seq![crate::sql::is_bound("ps.person"@, 1)],
        rest: crate::sql::before(" ORDER BY s.slug"@, Text::End),
    }
}

proof fn lemma_memberships_reads()
    ensures
        crate::sql::spells(MEMBERSHIPS@, 0, memberships_reading().text()),
{
    reveal_strlit("SELECT s.slug, s.name, s.status FROM person_school ps JOIN school s ON s.id = ps.school WHERE ps.person = $1 ORDER BY s.slug");
    reveal_strlit("SELECT ");
    reveal_strlit("s.slug");
    reveal_strlit(", ");
    reveal_strlit("s.name");
    reveal_strlit("s.status");
    reveal_strlit(" FROM ");
    reveal_strlit("person_school ps JOIN school s ON s.id = ps.school");
    reveal_strlit(" WHERE ");
    reveal_strlit("ps.person");
    reveal_strlit(" = ");
    reveal_strlit("$");
    reveal_strlit(" ORDER BY s.slug");
    reveal(crate::sql::Picking::text);
    reveal_with_fuel(crate::sql::where_text, 2);
    reveal_with_fuel(crate::sql::names_text, 4);
    reveal_with_fuel(crate::sql::stands, 51);
    reveal_with_fuel(crate::sql::spells_by, 14);
    crate::sql::lemma_spells_by(MEMBERSHIPS@, 0, memberships_reading().text(), crate::sql::cut(7, crate::sql::cut(13, crate::sql::cut(15, crate::sql::cut(21, crate::sql::cut(23, crate::sql::cut(31, crate::sql::cut(37, crate::sql::cut(87, crate::sql::cut(94, crate::sql::cut(103, crate::sql::cut(106, crate::sql::cut(108, crate::sql::cut(124, Cuts::Last))))))))))))));
}

/// [`memberships`] reads the rows it names and no other.
pub proof fn law_memberships_reads_its_rows(
    person: PersonId,
    sent: Statement,
    row: Row,
)
    requires
        call_ensures(memberships, (person,), sent),
    ensures
        memberships_reading().is_read(sent@),
        memberships_reading().picks(sent@.binds, row) == (row["ps.person"@] == Cell::Uuid(person.0)),
{
    lemma_memberships_reads();
    reveal_with_fuel(crate::sql::all_hold, 2);
}

/// What [`MEMBERSHIP_OF`] says.
pub open spec fn membership_of_reading() -> Picking {
    Picking {
        skip: 0,
        head: "SELECT "@,
        columns: seq!["s.slug"@, "s.name"@, "s.status"@],
        table: "person_school ps JOIN school s ON s.id = ps.school"@,
        conditions: seq![crate::sql::is_bound("ps.person"@, 1), crate::sql::is_bound("s.slug"@, 2)],
        rest: Text::End,
    }
}

proof fn lemma_membership_of_reads()
    ensures
        crate::sql::spells(MEMBERSHIP_OF@, 0, membership_of_reading().text()),
{
    reveal_strlit("SELECT s.slug, s.name, s.status FROM person_school ps JOIN school s ON s.id = ps.school WHERE ps.person = $1 AND s.slug = $2");
    reveal_strlit("SELECT ");
    reveal_strlit("s.slug");
    reveal_strlit(", ");
    reveal_strlit("s.name");
    reveal_strlit("s.status");
    reveal_strlit(" FROM ");
    reveal_strlit("person_school ps JOIN school s ON s.id = ps.school");
    reveal_strlit(" WHERE ");
    reveal_strlit("ps.person");
    reveal_strlit(" = ");
    reveal_strlit("$");
    reveal_strlit(" AND ");
    reveal(crate::sql::Picking::text);
    reveal_with_fuel(crate::sql::where_text, 3);
    reveal_with_fuel(crate::sql::names_text, 4);
    reveal_with_fuel(crate::sql::stands, 51);
    reveal_with_fuel(crate::sql::spells_by, 17);
    crate::sql::lemma_spells_by(MEMBERSHIP_OF@, 0, membership_of_reading().text(), crate::sql::cut(7, crate::sql::cut(13, crate::sql::cut(15, crate::sql::cut(21, crate::sql::cut(23, crate::sql::cut(31, crate::sql::cut(37, crate::sql::cut(87, crate::sql::cut(94, crate::sql::cut(103, crate::sql::cut(106, crate::sql::cut(108, crate::sql::cut(113, crate::sql::cut(119, crate::sql::cut(122, crate::sql::cut(124, Cuts::Last)))))))))))))))));
}

/// [`membership_of`] reads the rows it names and no other.
pub proof fn law_membership_of_reads_its_rows(
    person: PersonId,
    slug: &str,
    sent: Statement,
    row: Row,
)
    requires
        call_ensures(membership_of, (person, slug), sent),
    ensures
        membership_of_reading().is_read(sent@),
        membership_of_reading().picks(sent@.binds, row) == (row["ps.person"@] == Cell::Uuid(person.0) && row["s.slug"@] == Cell::Text(slug@)),
{
    lemma_membership_of_reads();
    reveal_with_fuel(crate::sql::all_hold, 3);
}

/// The text of [`ADD_MEMBERSHIP`], taken apart at its placeholders.
pub open spec fn add_membership_text() -> Text {
    crate::sql::before("INSERT INTO person_school (person, school,"@, crate::sql::before(" created_at) SELECT "@, crate::sql::before(crate::text::placeholder(1), crate::sql::before(", s.id, "@, crate::sql::before(crate::text::placeholder(3), crate::sql::before(" FROM school s WHERE s.slug = "@, crate::sql::before(crate::text::placeholder(2), crate::sql::before(" ON CONFLICT DO NOTHING"@, Text::End))))))))
}

proof fn lemma_add_membership_reads()
    ensures
        crate::sql::spells(ADD_MEMBERSHIP@, 0, add_membership_text()),
{
    reveal_strlit("INSERT INTO person_school (person, school, created_at) SELECT $1, s.id, $3 FROM school s WHERE s.slug = $2 ON CONFLICT DO NOTHING");
    reveal_strlit("INSERT INTO person_school (person, school,");
    reveal_strlit(" created_at) SELECT ");
    reveal_strlit("$");
    reveal_strlit(", s.id, ");
    reveal_strlit(" FROM school s WHERE s.slug = ");
    reveal_strlit(" ON CONFLICT DO NOTHING");
    reveal_with_fuel(crate::sql::stands, 43);
    reveal_with_fuel(crate::sql::spells_by, 9);
    crate::sql::lemma_spells_by(ADD_MEMBERSHIP@, 0, add_membership_text(), crate::sql::cut(42, crate::sql::cut(62, crate::sql::cut(64, crate::sql::cut(72, crate::sql::cut(74, crate::sql::cut(104, crate::sql::cut(106, crate::sql::cut(129, Cuts::Last)))))))));
}

/// [`add_membership`] binds each value at its own place in the text.
pub proof fn law_add_membership_binds_its_values(
    person: PersonId,
    slug: &str,
    now: Timestamp,
    sent: Statement,
)
    requires
        call_ensures(add_membership, (person, slug, now), sent),
    ensures
        crate::sql::spells(sent@.sql, 0, add_membership_text()),
        sent@.binds.len() == 3,
        crate::sql::cell(sent@.binds[0]) == Cell::Uuid(person.0),
        crate::sql::cell(sent@.binds[1]) == Cell::Text(slug@),
        crate::sql::cell(sent@.binds[2]) == Cell::Int(now.0 as int),
{
    lemma_add_membership_reads();
}

/// What [`DELETE_MEMBERSHIPS_BY_SCHOOL`] says.
pub open spec fn delete_memberships_by_school_reading() -> Picking {
    Picking {
        skip: 0,
        head: "DELETE FROM "@,
        columns: Seq::empty(),
        table: "person_school"@,
        conditions: seq![crate::sql::is_bound("school"@, 1)],
        rest: Text::End,
    }
}

proof fn lemma_delete_memberships_by_school_reads()
    ensures
        crate::sql::spells(DELETE_MEMBERSHIPS_BY_SCHOOL@, 0, delete_memberships_by_school_reading().text()),
{
    reveal_strlit("DELETE FROM person_school WHERE school = $1");
    reveal_strlit("DELETE FROM ");
    reveal_strlit("person_school");
    reveal_strlit(" WHERE ");
    reveal_strlit("school");
    reveal_strlit(" = ");
    reveal_strlit("$");
    reveal(crate::sql::Picking::text);
    reveal_with_fuel(crate::sql::where_text, 2);
    reveal_with_fuel(crate::sql::stands, 14);
    reveal_with_fuel(crate::sql::spells_by, 7);
    crate::sql::lemma_spells_by(DELETE_MEMBERSHIPS_BY_SCHOOL@, 0, delete_memberships_by_school_reading().text(), crate::sql::cut(12, crate::sql::cut(25, crate::sql::cut(32, crate::sql::cut(38, crate::sql::cut(41, crate::sql::cut(43, Cuts::Last)))))));
}

/// [`delete_memberships_by_school`] deletes the rows it names and no other.
pub proof fn law_delete_memberships_by_school_deletes_its_rows(
    school: SchoolId,
    sent: Statement,
    row: Row,
)
    requires
        call_ensures(delete_memberships_by_school, (school,), sent),
    ensures
        delete_memberships_by_school_reading().is_read(sent@),
        delete_memberships_by_school_reading().picks(sent@.binds, row) == (row["school"@] == Cell::Uuid(school.0)),
{
    lemma_delete_memberships_by_school_reads();
    reveal_with_fuel(crate::sql::all_hold, 2);
}

/// What [`CREATE_SESSION`] says.
pub open spec fn create_session_reading() -> Storing {
    Storing {
        head: "INSERT INTO "@,
        table: "person_session"@,
        columns: seq!["id"@, "person"@, "token"@, "created_at"@, "expires_at"@],
        values: seq![Term::Bind(1), Term::Bind(2), Term::Bind(3), Term::Bind(4), Term::Bind(5)],
        selected: false,
        conflict: Conflict::Unread,
        rest: crate::sql::returning(),
    }
}

proof fn lemma_create_session_reads()
    ensures
        crate::sql::spells(CREATE_SESSION@, 0, create_session_reading().text()),
{
    reveal_strlit("INSERT INTO person_session (id, person, token, created_at, expires_at) VALUES ($1, $2, $3, $4, $5) RETURNING person, token, expires_at");
    reveal_strlit("INSERT INTO ");
    reveal_strlit("person_session");
    reveal_strlit(" (");
    reveal_strlit("id");
    reveal_strlit(", ");
    reveal_strlit("person");
    reveal_strlit("token");
    reveal_strlit("created_at");
    reveal_strlit("expires_at");
    reveal_strlit(") VALUES (");
    reveal_strlit("$");
    reveal_strlit(")");
    reveal_strlit(" RETURNING ");
    reveal(crate::sql::Storing::text);
    reveal_with_fuel(crate::sql::names_text, 6);
    reveal_with_fuel(crate::sql::values_text, 6);
    reveal_with_fuel(crate::sql::stands, 15);
    reveal_with_fuel(crate::sql::spells_by, 25);
    crate::sql::lemma_spells_by(CREATE_SESSION@, 0, create_session_reading().text(), crate::sql::cut(12, crate::sql::cut(26, crate::sql::cut(28, crate::sql::cut(30, crate::sql::cut(32, crate::sql::cut(38, crate::sql::cut(40, crate::sql::cut(45, crate::sql::cut(47, crate::sql::cut(57, crate::sql::cut(59, crate::sql::cut(69, crate::sql::cut(79, crate::sql::cut(81, crate::sql::cut(83, crate::sql::cut(85, crate::sql::cut(87, crate::sql::cut(89, crate::sql::cut(91, crate::sql::cut(93, crate::sql::cut(95, crate::sql::cut(97, crate::sql::cut(98, crate::sql::cut(109, Cuts::Last)))))))))))))))))))))))));
}

/// What [`create_session`] stores, column by column, is what it is given.
pub proof fn law_create_session_lands_in_its_columns(
    id: SessionId,
    person: PersonId,
    token: &str,
    now: Timestamp,
    expires_at: Timestamp,
    sent: Statement,
)
    requires
        call_ensures(create_session, (id, person, token, now, expires_at), sent),
    ensures
        create_session_reading().is_read(sent@),
        create_session_reading().stores(sent@.binds) == seq![
            ("id"@, Cell::Uuid(id.0)),
            ("person"@, Cell::Uuid(person.0)),
            ("token"@, Cell::Text(token@)),
            ("created_at"@, Cell::Int(now.0 as int)),
            ("expires_at"@, Cell::Int(expires_at.0 as int)),
        ],
{
    lemma_create_session_reads();
}

/// What [`FIND_SESSION_BY_TOKEN`] says.
pub open spec fn find_session_by_token_reading() -> Picking {
    Picking {
        skip: 0,
        head: "SELECT "@,
        columns: seq!["person"@, "token"@, "expires_at"@],
        table: "person_session"@,
        conditions: seq![crate::sql::is_bound("token"@, 1)],
        rest: Text::End,
    }
}

proof fn lemma_find_session_by_token_reads()
    ensures
        crate::sql::spells(FIND_SESSION_BY_TOKEN@, 0, find_session_by_token_reading().text()),
{
    reveal_strlit("SELECT person, token, expires_at FROM person_session WHERE token = $1");
    reveal_strlit("SELECT ");
    reveal_strlit("person");
    reveal_strlit(", ");
    reveal_strlit("token");
    reveal_strlit("expires_at");
    reveal_strlit(" FROM ");
    reveal_strlit("person_session");
    reveal_strlit(" WHERE ");
    reveal_strlit(" = ");
    reveal_strlit("$");
    reveal(crate::sql::Picking::text);
    reveal_with_fuel(crate::sql::where_text, 2);
    reveal_with_fuel(crate::sql::names_text, 4);
    reveal_with_fuel(crate::sql::stands, 15);
    reveal_with_fuel(crate::sql::spells_by, 13);
    crate::sql::lemma_spells_by(FIND_SESSION_BY_TOKEN@, 0, find_session_by_token_reading().text(), crate::sql::cut(7, crate::sql::cut(13, crate::sql::cut(15, crate::sql::cut(20, crate::sql::cut(22, crate::sql::cut(32, crate::sql::cut(38, crate::sql::cut(52, crate::sql::cut(59, crate::sql::cut(64, crate::sql::cut(67, crate::sql::cut(69, Cuts::Last)))))))))))));
}

/// [`find_session_by_token`] reads the rows it names and no other.
pub proof fn law_find_session_by_token_reads_its_rows(
    token: &str,
    sent: Statement,
    row: Row,
)
    requires
        call_ensures(find_session_by_token, (token,), sent),
    ensures
        find_session_by_token_reading().is_read(sent@),
        find_session_by_token_reading().picks(sent@.binds, row) == (row["token"@] == Cell::Text(token@)),
{
    lemma_find_session_by_token_reads();
    reveal_with_fuel(crate::sql::all_hold, 2);
}

/// What [`DELETE_SESSION_BY_TOKEN`] says.
pub open spec fn delete_session_by_token_reading() -> Picking {
    Picking {
        skip: 0,
        head: "DELETE FROM "@,
        columns: Seq::empty(),
        table: "person_session"@,
        conditions: seq![crate::sql::is_bound("token"@, 1)],
        rest: Text::End,
    }
}

proof fn lemma_delete_session_by_token_reads()
    ensures
        crate::sql::spells(DELETE_SESSION_BY_TOKEN@, 0, delete_session_by_token_reading().text()),
{
    reveal_strlit("DELETE FROM person_session WHERE token = $1");
    reveal_strlit("DELETE FROM ");
    reveal_strlit("person_session");
    reveal_strlit(" WHERE ");
    reveal_strlit("token");
    reveal_strlit(" = ");
    reveal_strlit("$");
    reveal(crate::sql::Picking::text);
    reveal_with_fuel(crate::sql::where_text, 2);
    reveal_with_fuel(crate::sql::stands, 15);
    reveal_with_fuel(crate::sql::spells_by, 7);
    crate::sql::lemma_spells_by(DELETE_SESSION_BY_TOKEN@, 0, delete_session_by_token_reading().text(), crate::sql::cut(12, crate::sql::cut(26, crate::sql::cut(33, crate::sql::cut(38, crate::sql::cut(41, crate::sql::cut(43, Cuts::Last)))))));
}

/// [`delete_session_by_token`] deletes the rows it names and no other.
pub proof fn law_delete_session_by_token_deletes_its_rows(
    token: &str,
    sent: Statement,
    row: Row,
)
    requires
        call_ensures(delete_session_by_token, (token,), sent),
    ensures
        delete_session_by_token_reading().is_read(sent@),
        delete_session_by_token_reading().picks(sent@.binds, row) == (row["token"@] == Cell::Text(token@)),
{
    lemma_delete_session_by_token_reads();
    reveal_with_fuel(crate::sql::all_hold, 2);
}

/// What [`DELETE_SESSIONS_BY_PERSON`] says.
pub open spec fn delete_sessions_by_person_reading() -> Picking {
    Picking {
        skip: 0,
        head: "DELETE FROM "@,
        columns: Seq::empty(),
        table: "person_session"@,
        conditions: seq![crate::sql::is_bound("person"@, 1)],
        rest: Text::End,
    }
}

proof fn lemma_delete_sessions_by_person_reads()
    ensures
        crate::sql::spells(DELETE_SESSIONS_BY_PERSON@, 0, delete_sessions_by_person_reading().text()),
{
    reveal_strlit("DELETE FROM person_session WHERE person = $1");
    reveal_strlit("DELETE FROM ");
    reveal_strlit("person_session");
    reveal_strlit(" WHERE ");
    reveal_strlit("person");
    reveal_strlit(" = ");
    reveal_strlit("$");
    reveal(crate::sql::Picking::text);
    reveal_with_fuel(crate::sql::where_text, 2);
    reveal_with_fuel(crate::sql::stands, 15);
    reveal_with_fuel(crate::sql::spells_by, 7);
    crate::sql::lemma_spells_by(DELETE_SESSIONS_BY_PERSON@, 0, delete_sessions_by_person_reading().text(), crate::sql::cut(12, crate::sql::cut(26, crate::sql::cut(33, crate::sql::cut(39, crate::sql::cut(42, crate::sql::cut(44, Cuts::Last)))))));
}

/// [`delete_sessions_by_person`] deletes the rows it names and no other.
pub proof fn law_delete_sessions_by_person_deletes_its_rows(
    person: PersonId,
    sent: Statement,
    row: Row,
)
    requires
        call_ensures(delete_sessions_by_person, (person,), sent),
    ensures
        delete_sessions_by_person_reading().is_read(sent@),
        delete_sessions_by_person_reading().picks(sent@.binds, row) == (row["person"@] == Cell::Uuid(person.0)),
{
    lemma_delete_sessions_by_person_reads();
    reveal_with_fuel(crate::sql::all_hold, 2);
}

/// What [`SET_PASSWORD_HASH`] says.
pub open spec fn set_password_hash_reading() -> Writing {
    Writing {
        head: "UPDATE "@,
        table: "person"@,
        sets: seq![("password_hash"@, crate::sql::bind(2))],
        conditions: seq![crate::sql::is_bound("username"@, 1)],
        rest: Text::End,
    }
}

proof fn lemma_set_password_hash_reads()
    ensures
        crate::sql::spells(SET_PASSWORD_HASH@, 0, set_password_hash_reading().text()),
{
    reveal_strlit("UPDATE person SET password_hash = $2 WHERE username = $1");
    reveal_strlit("UPDATE ");
    reveal_strlit("person");
    reveal_strlit(" SET ");
    reveal_strlit("password_hash");
    reveal_strlit(" = ");
    reveal_strlit("$");
    reveal_strlit(" WHERE ");
    reveal_strlit("username");
    reveal(crate::sql::Writing::text);
    reveal_with_fuel(crate::sql::set_text, 2);
    reveal_with_fuel(crate::sql::where_text, 2);
    reveal_with_fuel(crate::sql::stands, 14);
    reveal_with_fuel(crate::sql::spells_by, 11);
    crate::sql::lemma_spells_by(SET_PASSWORD_HASH@, 0, set_password_hash_reading().text(), crate::sql::cut(7, crate::sql::cut(13, crate::sql::cut(18, crate::sql::cut(31, crate::sql::cut(34, crate::sql::cut(36, crate::sql::cut(43, crate::sql::cut(51, crate::sql::cut(54, crate::sql::cut(56, Cuts::Last)))))))))));
}

/// [`set_password_hash`] picks the rows it names and no other, and overwrites each column with
/// its own value.
pub proof fn law_set_password_hash_writes_its_row(
    username: &str,
    password_hash: &str,
    sent: Statement,
    row: Row,
)
    requires
        call_ensures(set_password_hash, (username, password_hash), sent),
    ensures
        set_password_hash_reading().is_read(sent@),
        set_password_hash_reading().picks(sent@.binds, row) == (row["username"@] == Cell::Text(username@)),
        set_password_hash_reading().writes(sent@.binds, row) == seq![
            ("password_hash"@, Cell::Text(password_hash@)),
        ],
{
    lemma_set_password_hash_reads();
    reveal_with_fuel(crate::sql::all_hold, 2);
}

} // verus!
