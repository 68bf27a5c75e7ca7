//! The `karne_snapshot` table: the frozen report card of a student and a
//! term, written when the term is archived.

use vstd::prelude::*;

use crate::id::{TermId, Timestamp, UserId};
use crate::page::{Param, ParamView, Statement};
use crate::sql::{Cell, Conflict, Cuts, Picking, Row, Storing, Term, Text};

verus! {

pub const SNAPSHOT: &'static str =
    "INSERT INTO karne_snapshot (term, app_user, payload, created_at) VALUES ($1, $2, $3, $4) \
     ON CONFLICT (term, app_user) DO UPDATE SET payload = EXCLUDED.payload, created_at = \
     EXCLUDED.created_at";

/// The write (or refresh) of a frozen report.
pub fn snapshot(
    term: TermId,
    user: UserId,
    payload: &serde_json::Value,
    now: Timestamp,
) -> (statement: Statement)
    ensures
        statement@ == crate::page::sends(
            SNAPSHOT,
            seq![
                ParamView::Uuid(term.0),
                ParamView::Uuid(user.0),
                ParamView::Json(*payload),
                ParamView::I64(now.0),
            ],
        ),
{
    Statement::new(
        SNAPSHOT,
        vec![
            Param::Uuid(term.0),
            Param::Uuid(user.0),
            Param::Json(payload.clone()),
            Param::I64(now.0),
        ],
    )
}

pub const READ_SNAPSHOT: &'static str =
    "SELECT payload FROM karne_snapshot WHERE term = $1 AND app_user = $2";

/// The read of a frozen report; nothing comes back for a term that was never
/// frozen.
pub fn read_snapshot(term: TermId, user: UserId) -> (statement: Statement)
    ensures
        statement@ == crate::page::sends(
            READ_SNAPSHOT,
            seq![ParamView::Uuid(term.0), ParamView::Uuid(user.0)],
        ),
{
    Statement::new(READ_SNAPSHOT, vec![Param::Uuid(term.0), Param::Uuid(user.0)])
}

/// The frozen reports.
pub type Reports = Map<(TermId, UserId), serde_json::Value>;

/// What a snapshot leaves.
pub open spec fn frozen(
    reports: Reports,
    term: TermId,
    user: UserId,
    payload: serde_json::Value,
) -> Reports {
    reports.insert((term, user), payload)
}

/// Freezing is idempotent, reads back what was frozen, and touches no other
/// report.
pub proof fn law_freeze_is_idempotent(
    reports: Reports,
    term: TermId,
    user: UserId,
    payload: serde_json::Value,
    other: (TermId, UserId),
)
    ensures
        frozen(frozen(reports, term, user, payload), term, user, payload) == frozen(
            reports,
            term,
            user,
            payload,
        ),
        frozen(reports, term, user, payload)[(term, user)] == payload,
        other != (term, user) ==> frozen(reports, term, user, payload).contains_key(other)
            == reports.contains_key(other),
        other != (term, user) && reports.contains_key(other) ==> frozen(
            reports,
            term,
            user,
            payload,
        )[other] == reports[other],
{
    assert(frozen(frozen(reports, term, user, payload), term, user, payload) =~= frozen(
        reports,
        term,
        user,
        payload,
    ));
}

/// What [`SNAPSHOT`] says.
pub open spec fn snapshot_reading() -> Storing {
    Storing {
        head: "INSERT INTO "@,
        table: "karne_snapshot"@,
        columns: seq!["term"@, "app_user"@, "payload"@, "created_at"@],
        values: seq![Term::Bind(1), Term::Bind(2), Term::Bind(3), Term::Bind(4)],
        selected: false,
        conflict: Conflict::Takes(seq!["term"@, "app_user"@], seq!["payload"@, "created_at"@]),
        rest: Text::End,
    }
}

proof fn lemma_snapshot_reads()
    ensures
        crate::sql::spells(SNAPSHOT@, 0, snapshot_reading().text()),
{
    reveal_strlit("INSERT INTO karne_snapshot (term, app_user, payload, created_at) VALUES ($1, $2, $3, $4) ON CONFLICT (term, app_user) DO UPDATE SET payload = EXCLUDED.payload, created_at = EXCLUDED.created_at");
    reveal_strlit("INSERT INTO ");
    reveal_strlit("karne_snapshot");
    reveal_strlit(" (");
    reveal_strlit("term");
    reveal_strlit(", ");
    reveal_strlit("app_user");
    reveal_strlit("payload");
    reveal_strlit("created_at");
    reveal_strlit(") VALUES (");
    reveal_strlit("$");
    reveal_strlit(")");
    reveal_strlit(" ON CONFLICT (");
    reveal_strlit(") DO UPDATE");
    reveal_strlit(" SET ");
    reveal_strlit(" = EXCLUDED.");
    reveal(crate::sql::Storing::text);
    reveal_with_fuel(crate::sql::names_text, 5);
    reveal_with_fuel(crate::sql::values_text, 5);
    reveal_with_fuel(crate::sql::excluded_text, 3);
    reveal_with_fuel(crate::sql::stands, 15);
    reveal_with_fuel(crate::sql::spells_by, 33);
    crate::sql::lemma_spells_by(SNAPSHOT@, 0, snapshot_reading().text(), crate::sql::cut(12, crate::sql::cut(26, crate::sql::cut(28, crate::sql::cut(32, crate::sql::cut(34, crate::sql::cut(42, crate::sql::cut(44, crate::sql::cut(51, crate::sql::cut(53, crate::sql::cut(63, crate::sql::cut(73, crate::sql::cut(75, crate::sql::cut(77, crate::sql::cut(79, crate::sql::cut(81, crate::sql::cut(83, crate::sql::cut(85, crate::sql::cut(87, crate::sql::cut(88, crate::sql::cut(102, crate::sql::cut(106, crate::sql::cut(108, crate::sql::cut(116, crate::sql::cut(127, crate::sql::cut(132, crate::sql::cut(139, crate::sql::cut(151, crate::sql::cut(158, crate::sql::cut(160, crate::sql::cut(170, crate::sql::cut(182, crate::sql::cut(192, Cuts::Last)))))))))))))))))))))))))))))))));
}

/// What [`snapshot`] stores, column by column, is what it is given.
pub proof fn law_snapshot_lands_in_its_columns(
    term: TermId,
    user: UserId,
    payload: &serde_json::Value,
    now: Timestamp,
    sent: Statement,
)
    requires
        call_ensures(snapshot, (term, user, payload, now), sent),
    ensures
        snapshot_reading().is_read(sent@),
        snapshot_reading().stores(sent@.binds) == seq![
            ("term"@, Cell::Uuid(term.0)),
            ("app_user"@, Cell::Uuid(user.0)),
            ("payload"@, Cell::Json(*payload)),
            ("created_at"@, Cell::Int(now.0 as int)),
        ],
        snapshot_reading().conflict == Conflict::Takes(seq!["term"@, "app_user"@], seq!["payload"@, "created_at"@]),
{
    lemma_snapshot_reads();
}

/// What [`READ_SNAPSHOT`] says.
pub open spec fn read_snapshot_reading() -> Picking {
    Picking {
        skip: 0,
        head: "SELECT "@,
        columns: seq!["payload"@],
        table: "karne_snapshot"@,
        conditions: seq![crate::sql::is_bound("term"@, 1), crate::sql::is_bound("app_user"@, 2)],
        rest: Text::End,
    }
}

proof fn lemma_read_snapshot_reads()
    ensures
        crate::sql::spells(READ_SNAPSHOT@, 0, read_snapshot_reading().text()),
{
    reveal_strlit("SELECT payload FROM karne_snapshot WHERE term = $1 AND app_user = $2");
    reveal_strlit("SELECT ");
    reveal_strlit("payload");
    reveal_strlit(" FROM ");
    reveal_strlit("karne_snapshot");
    reveal_strlit(" WHERE ");
    reveal_strlit("term");
    reveal_strlit(" = ");
    reveal_strlit("$");
    reveal_strlit(" AND ");
    reveal_strlit("app_user");
    reveal(crate::sql::Picking::text);
    reveal_with_fuel(crate::sql::where_text, 3);
    reveal_with_fuel(crate::sql::names_text, 2);
    reveal_with_fuel(crate::sql::stands, 15);
    reveal_with_fuel(crate::sql::spells_by, 13);
    crate::sql::lemma_spells_by(READ_SNAPSHOT@, 0, read_snapshot_reading().text(), crate::sql::cut(7, crate::sql::cut(14, crate::sql::cut(20, crate::sql::cut(34, crate::sql::cut(41, crate::sql::cut(45, crate::sql::cut(48, crate::sql::cut(50, crate::sql::cut(55, crate::sql::cut(63, crate::sql::cut(66, crate::sql::cut(68, Cuts::Last)))))))))))));
}

/// [`read_snapshot`] reads the rows it names and no other.
pub proof fn law_read_snapshot_reads_its_rows(
    term: TermId,
    user: UserId,
    sent: Statement,
    row: Row,
)
    requires
        call_ensures(read_snapshot, (term, user), sent),
    ensures
        read_snapshot_reading().is_read(sent@),
        read_snapshot_reading().picks(sent@.binds, row) == (row["term"@] == Cell::Uuid(term.0) && row["app_user"@] == Cell::Uuid(user.0)),
{
    lemma_read_snapshot_reads();
    reveal_with_fuel(crate::sql::all_hold, 3);
}

} // verus!
