//! A set that a section may hold for itself: while its flag says that it
//! inherits, the template's rows apply; once it owns its set, its own rows do,
//! also where there are none.

use vstd::prelude::*;

verus! {

/// A section's own rows, and whether it inherits the template's.
#[verifier::reject_recursive_types(K)]
#[verifier::reject_recursive_types(V)]
#[verifier::ext_equal]
pub struct Section<K, V> {
    pub own: Map<K, V>,
    pub inherited: bool,
}

impl<K, V> Section<K, V> {
    /// A section that inherits holds no row of its own.
    pub open spec fn in_order(self) -> bool {
        self.inherited ==> self.own == Map::<K, V>::empty()
    }

    /// A row written, which takes the set own.
    pub open spec fn written(self, key: K, value: V) -> Self {
        Section { own: self.own.insert(key, value), inherited: false }
    }

    /// A row dropped, which takes the set own only where there was one.
    pub open spec fn dropped(self, key: K) -> Self {
        if self.own.contains_key(key) {
            Section { own: self.own.remove(key), inherited: false }
        } else {
            self
        }
    }

    /// Every own row swept and the template in force again.
    pub open spec fn reset(self) -> Self {
        Section { own: Map::empty(), inherited: true }
    }

    /// The rows in force, over the template's.
    pub open spec fn in_force(self, template: Map<K, V>) -> Map<K, V> {
        if self.inherited {
            template
        } else {
            self.own
        }
    }
}

/// Every write keeps the flag honest: a section never claims to inherit over
/// rows it holds.
pub proof fn law_flag_never_drifts<K, V>(section: Section<K, V>, key: K, value: V)
    requires
        section.in_order(),
    ensures
        section.written(key, value).in_order(),
        section.dropped(key).in_order(),
        section.reset().in_order(),
{
}

/// A delete that names no row changes nothing, not even the flag.
pub proof fn law_refused_drop_changes_nothing<K, V>(section: Section<K, V>, key: K)
    requires
        !section.own.contains_key(key),
    ensures
        section.dropped(key) == section,
{
}

/// A reset restores the template, however often it is run, and what was
/// written or dropped before leaves no trace.
pub proof fn law_reset_restores_the_template<K, V>(
    section: Section<K, V>,
    template: Map<K, V>,
    key: K,
    value: V,
)
    ensures
        section.reset().in_force(template) == template,
        section.reset().reset() == section.reset(),
        section.written(key, value).reset() == section.reset(),
        section.dropped(key).reset() == section.reset(),
{
}

/// A written row is in force at once, and a dropped one is not.
pub proof fn law_own_rows_are_in_force<K, V>(
    section: Section<K, V>,
    template: Map<K, V>,
    key: K,
    value: V,
)
    ensures
        section.written(key, value).in_force(template).contains_key(key),
        section.written(key, value).in_force(template)[key] == value,
        section.own.contains_key(key) ==> !section.dropped(key).in_force(template).contains_key(
            key,
        ),
{
}

} // verus!
