//! How many rows of a table meet a condition, and how that number moves when
//! one row is written or some are deleted. The stored counters of the schema
//! are compared against it.

use vstd::prelude::*;

verus! {

/// `GREATEST(n, 0)`: a counter never falls below zero.
pub open spec fn floored(n: int) -> int {
    if n < 0 {
        0
    } else {
        n
    }
}

/// The keys of the rows that meet `counts`.
pub open spec fn matching<K, V>(rows: Map<K, V>, counts: spec_fn(K, V) -> bool) -> Set<K> {
    rows.dom().filter(|k: K| counts(k, rows[k]))
}

/// The number of rows that meet `counts`.
pub open spec fn tally<K, V>(rows: Map<K, V>, counts: spec_fn(K, V) -> bool) -> int {
    matching(rows, counts).len() as int
}

/// One for a row that is there and meets the condition, zero for any other.
pub open spec fn weight<K, V>(rows: Map<K, V>, key: K, counts: spec_fn(K, V) -> bool) -> int {
    if rows.contains_key(key) && counts(key, rows[key]) {
        1
    } else {
        0
    }
}

/// Writing one row moves the tally by what the row weighs afterwards less
/// what it weighed before.
pub proof fn lemma_tally_insert<K, V>(
    rows: Map<K, V>,
    key: K,
    value: V,
    counts: spec_fn(K, V) -> bool,
)
    requires
        rows.dom().finite(),
    ensures
        tally(rows.insert(key, value), counts) == tally(rows, counts) - weight(rows, key, counts)
            + (if counts(key, value) {
            1int
        } else {
            0int
        }),
{
    let before = matching(rows, counts);
    let after = matching(rows.insert(key, value), counts);
    assert(before.finite()) by {
        rows.dom().lemma_len_filter(|k: K| counts(k, rows[k]));
    }
    if counts(key, value) {
        assert(after =~= before.insert(key));
    } else {
        assert(after =~= before.remove(key));
    }
}

/// Deleting one row lowers the tally by what it weighed.
pub proof fn lemma_tally_remove<K, V>(rows: Map<K, V>, key: K, counts: spec_fn(K, V) -> bool)
    requires
        rows.dom().finite(),
    ensures
        tally(rows.remove(key), counts) == tally(rows, counts) - weight(rows, key, counts),
{
    let before = matching(rows, counts);
    let after = matching(rows.remove(key), counts);
    assert(before.finite()) by {
        rows.dom().lemma_len_filter(|k: K| counts(k, rows[k]));
    }
    assert(after =~= before.remove(key));
}

/// A tally is at least what any one row of the table weighs.
pub proof fn lemma_tally_holds<K, V>(rows: Map<K, V>, key: K, counts: spec_fn(K, V) -> bool)
    requires
        rows.dom().finite(),
    ensures
        tally(rows, counts) >= weight(rows, key, counts),
{
    lemma_tally_remove(rows, key, counts);
}

/// The sum of an amount over all rows of a table.
pub open spec fn total<K, V>(rows: Map<K, V>, amount: spec_fn(K, V) -> int) -> int
    decreases rows.dom().len(),
{
    if !rows.dom().finite() || rows.dom().len() == 0 {
        0
    } else {
        let key = rows.dom().choose();
        proof {
            assert(rows.dom().contains(key));
            assert(rows.remove(key).dom() =~= rows.dom().remove(key));
        }
        amount(key, rows[key]) + total(rows.remove(key), amount)
    }
}

/// A sum is what any one row adds and the sum of the rest.
pub proof fn lemma_total_remove<K, V>(rows: Map<K, V>, key: K, amount: spec_fn(K, V) -> int)
    requires
        rows.dom().finite(),
        rows.contains_key(key),
    ensures
        total(rows, amount) == amount(key, rows[key]) + total(rows.remove(key), amount),
    decreases rows.dom().len(),
{
    let first = rows.dom().choose();
    assert(rows.dom().len() > 0);
    assert(rows.dom().contains(first));
    if first != key {
        let rest = rows.remove(first);
        assert(rest.dom() =~= rows.dom().remove(first));
        lemma_total_remove(rest, key, amount);
        let others = rows.remove(key);
        assert(others.dom() =~= rows.dom().remove(key));
        lemma_total_remove(others, first, amount);
        assert(rest.remove(key) =~= others.remove(first));
    }
}

/// Writing a row moves the sum by what it adds afterwards less what it added
/// before.
pub proof fn lemma_total_insert<K, V>(
    rows: Map<K, V>,
    key: K,
    value: V,
    amount: spec_fn(K, V) -> int,
)
    requires
        rows.dom().finite(),
    ensures
        total(rows.insert(key, value), amount) == total(rows, amount) + amount(key, value) - (
        if rows.contains_key(key) {
            amount(key, rows[key])
        } else {
            0
        }),
{
    let after = rows.insert(key, value);
    lemma_total_remove(after, key, amount);
    if rows.contains_key(key) {
        lemma_total_remove(rows, key, amount);
        assert(after.remove(key) =~= rows.remove(key));
    } else {
        assert(after.remove(key) =~= rows);
    }
}

} // verus!
