//! Rows that each point at a parent, and the counters on the parents that say
//! how many do.

use vstd::prelude::*;

verus! {

/// The parent each row points at, and the counter of each parent.
#[verifier::ext_equal]
#[verifier::reject_recursive_types(K)]
#[verifier::reject_recursive_types(P)]
pub struct References<K, P> {
    pub links: Map<K, P>,
    pub counts: Map<P, int>,
}

/// The rows that point at `parent`.
pub open spec fn points_at<K, P>(parent: P) -> spec_fn(K, P) -> bool {
    |key: K, target: P| target == parent
}

impl<K, P> References<K, P> {
    /// Every counter is the number of rows that point at its parent.
    pub open spec fn counted(self) -> bool {
        &&& self.links.dom().finite()
        &&& forall|parent: P| #[trigger]
            self.counts.contains_key(parent) ==> self.counts[parent] == crate::tally::tally(
                self.links,
                points_at(parent),
            )
    }

    /// One more reference on `parent`, where it is there.
    pub open spec fn claimed(self, parent: P) -> Self {
        if self.counts.contains_key(parent) {
            References { counts: self.counts.insert(parent, self.counts[parent] + 1), ..self }
        } else {
            self
        }
    }

    /// One reference on `parent` given back, never below zero.
    pub open spec fn released(self, parent: P) -> Self {
        if self.counts.contains_key(parent) {
            References {
                counts: self.counts.insert(
                    parent,
                    crate::tally::floored(self.counts[parent] - 1),
                ),
                ..self
            }
        } else {
            self
        }
    }

    /// A row that points at `parent`, written.
    pub open spec fn linked(self, key: K, parent: P) -> Self {
        References { links: self.links.insert(key, parent), ..self }
    }

    /// A row deleted.
    pub open spec fn unlinked(self, key: K) -> Self {
        References { links: self.links.remove(key), ..self }
    }
}

/// A new row claimed on its parent keeps the counters.
pub proof fn lemma_link_counted<K, P>(db: References<K, P>, key: K, parent: P)
    requires
        db.counted(),
        !db.links.contains_key(key),
    ensures
        db.claimed(parent).linked(key, parent).counted(),
{
    let after = db.claimed(parent).linked(key, parent);
    assert forall|other: P| #[trigger] after.counts.contains_key(other) implies after.counts[other]
        == crate::tally::tally(after.links, points_at(other)) by {
        assert(db.counts.contains_key(other));
        crate::tally::lemma_tally_insert(db.links, key, parent, points_at(other));
    }
}

/// A deleted row released on its parent keeps the counters.
pub proof fn lemma_unlink_counted<K, P>(db: References<K, P>, key: K)
    requires
        db.counted(),
        db.links.contains_key(key),
    ensures
        db.unlinked(key).released(db.links[key]).counted(),
{
    let after = db.unlinked(key).released(db.links[key]);
    assert forall|other: P| #[trigger] after.counts.contains_key(other) implies after.counts[other]
        == crate::tally::tally(after.links, points_at(other)) by {
        assert(db.counts.contains_key(other));
        crate::tally::lemma_tally_remove(db.links, key, points_at(other));
        crate::tally::lemma_tally_holds(db.links, key, points_at(other));
    }
}

/// A row moved from one parent to another, released there and claimed here,
/// keeps the counters.
pub proof fn lemma_relink_counted<K, P>(db: References<K, P>, key: K, parent: P)
    requires
        db.counted(),
        db.links.contains_key(key),
        db.links[key] != parent,
    ensures
        db.released(db.links[key]).claimed(parent).linked(key, parent).counted(),
{
    let after = db.released(db.links[key]).claimed(parent).linked(key, parent);
    assert forall|other: P| #[trigger] after.counts.contains_key(other) implies after.counts[other]
        == crate::tally::tally(after.links, points_at(other)) by {
        assert(db.counts.contains_key(other));
        crate::tally::lemma_tally_insert(db.links, key, parent, points_at(other));
        crate::tally::lemma_tally_holds(db.links, key, points_at(other));
    }
}

impl<K, P> References<K, P> {
    /// No parent holds more than `cap`.
    pub open spec fn within(self, cap: int) -> bool {
        forall|parent: P| #[trigger] self.counts.contains_key(parent) ==> self.counts[parent] <= cap
    }

    /// A capped insert: the seat and the row land together where the parent
    /// is there, open and under its cap, and neither lands otherwise.
    pub open spec fn seated(self, key: K, parent: P, cap: int, open: bool) -> Self {
        if self.counts.contains_key(parent) && self.counts[parent] < cap && open {
            self.claimed(parent).linked(key, parent)
        } else {
            self
        }
    }

    /// A row deleted off `parent` with its seat given back, where it is there.
    pub open spec fn unseated(self, key: K, parent: P) -> Self {
        if self.links.contains_key(key) && self.links[key] == parent {
            self.unlinked(key).released(parent)
        } else {
            self
        }
    }
}

/// A capped insert keeps the counters and the cap.
pub proof fn lemma_seat_counted<K, P>(
    db: References<K, P>,
    key: K,
    parent: P,
    cap: int,
    open: bool,
)
    requires
        db.counted(),
        db.within(cap),
        !db.links.contains_key(key),
    ensures
        db.seated(key, parent, cap, open).counted(),
        db.seated(key, parent, cap, open).within(cap),
{
    lemma_link_counted(db, key, parent);
    let after = db.seated(key, parent, cap, open);
    assert forall|other: P| #[trigger] after.counts.contains_key(other) implies after.counts[other]
        <= cap by {
        assert(db.counts.contains_key(other));
    }
}

/// A delete that gives its seat back keeps the counters and the cap.
pub proof fn lemma_unseat_counted<K, P>(db: References<K, P>, key: K, parent: P, cap: int)
    requires
        db.counted(),
        db.within(cap),
        0 <= cap,
    ensures
        db.unseated(key, parent).counted(),
        db.unseated(key, parent).within(cap),
{
    if db.links.contains_key(key) && db.links[key] == parent {
        lemma_unlink_counted(db, key);
        let after = db.unseated(key, parent);
        assert forall|other: P| #[trigger] after.counts.contains_key(other) implies
            after.counts[other] <= cap by {
            assert(db.counts.contains_key(other));
        }
    }
}

/// An insert and its delete net to nothing.
pub proof fn lemma_seat_then_unseat<K, P>(
    db: References<K, P>,
    key: K,
    parent: P,
    cap: int,
    open: bool,
)
    requires
        db.counted(),
        !db.links.contains_key(key),
    ensures
        db.seated(key, parent, cap, open).unseated(key, parent) == db,
{
    let between = db.seated(key, parent, cap, open);
    let after = between.unseated(key, parent);
    if between.links.contains_key(key) {
        assert(db.counts[parent] == crate::tally::tally(db.links, points_at(parent)));
        assert(after.links =~= db.links);
        assert(after.counts =~= db.counts);
    }
}

} // verus!
