//! The process-wide descriptor cache.
//!
//! A spliced descriptor is built once per distinct shadow type and kept for
//! the life of the process. The cache maps a shadow type's identity key to
//! the table built for it: a lookup that finds the key returns the stored
//! table and changes nothing, and a miss builds the spliced table, stores
//! it, and returns it. Requesting the descriptor for the same shadow type
//! twice therefore yields the same table.

use vstd::prelude::*;

use crate::descriptor::layout_compatible;
use crate::descriptor::ReflectVtable;
use crate::descriptor::TypeDesc;
use crate::splice::new_vtable;
use crate::splice::spliced_table;

verus! {

/// The first table stored under `key`, if any.
pub open spec fn spec_find(entries: Seq<(u64, ReflectVtable)>, key: u64) -> Option<ReflectVtable>
    decreases entries.len(),
{
    if entries.len() == 0 {
        None
    } else if entries[0].0 == key {
        Some(entries[0].1)
    } else {
        spec_find(entries.drop_first(), key)
    }
}

/// One request against the cache: the entries afterwards, and the table
/// handed back. A hit returns the stored table and keeps the entries; a
/// miss appends the freshly spliced table and returns it.
pub open spec fn cache_step(
    entries: Seq<(u64, ReflectVtable)>,
    shadow: TypeDesc,
    foreign: TypeDesc,
) -> (Seq<(u64, ReflectVtable)>, ReflectVtable) {
    match spec_find(entries, shadow.key) {
        Some(t) => (entries, t),
        None => (
            entries.push((shadow.key, spliced_table(shadow, foreign))),
            spliced_table(shadow, foreign),
        ),
    }
}

/// The cache of spliced descriptors, keyed by shadow-type identity.
#[derive(Debug, PartialEq, Eq)]
pub struct DescriptorCache {
    entries: Vec<(u64, ReflectVtable)>,
}

impl DescriptorCache {
    /// The stored entries, oldest first.
    pub closed spec fn view(&self) -> Seq<(u64, ReflectVtable)> {
        self.entries@
    }

    /// An empty cache.
    pub fn new() -> (r: DescriptorCache)
        ensures
            r@ == Seq::<(u64, ReflectVtable)>::empty(),
    {
        DescriptorCache { entries: Vec::new() }
    }

    /// How many shadow types have a stored descriptor.
    pub fn len(&self) -> (n: usize)
        ensures
            n == self@.len(),
    {
        self.entries.len()
    }

    /// The spliced descriptor for the shadow/foreign pair: the stored table
    /// when this shadow type was seen before, else a freshly built one that
    /// is stored before it is returned.
    pub fn get_or_build(&mut self, shadow: &TypeDesc, foreign: &TypeDesc) -> (r: ReflectVtable)
        requires
            layout_compatible(*shadow, *foreign),
        ensures
            (final(self)@, r) == cache_step(old(self)@, *shadow, *foreign),
    {
        let n = self.entries.len();
        let mut i: usize = 0;
        proof {
            assert(self.entries@.skip(0) =~= self.entries@);
        }
        while i < n
            invariant
                i <= n,
                n == self.entries@.len(),
                spec_find(self.entries@, shadow.key) == spec_find(
                    self.entries@.skip(i as int),
                    shadow.key,
                ),
            decreases n - i,
        {
            proof {
                assert(self.entries@.skip(i as int)[0] == self.entries@[i as int]);
            }
            if self.entries[i].0 == shadow.key {
                let t = self.entries[i].1;
                proof {
                    assert(spec_find(self.entries@.skip(i as int), shadow.key) == Some(
                        self.entries@[i as int].1,
                    ));
                }
                return t;
            }
            proof {
                assert(self.entries@.skip(i as int).drop_first() =~= self.entries@.skip(
                    i as int + 1,
                ));
            }
            i = i + 1;
        }
        let built = new_vtable(shadow, foreign);
        self.entries.push((shadow.key, built));
        built
    }
}

/// Stores commute with lookups of their own key: appending a table under a
/// key that the entries do not yet hold makes that table the one the key
/// finds.
proof fn lemma_find_after_push(entries: Seq<(u64, ReflectVtable)>, key: u64, t: ReflectVtable)
    requires
        spec_find(entries, key) is None,
    ensures
        spec_find(entries.push((key, t)), key) == Some(t),
    decreases entries.len(),
{
    if entries.len() == 0 {
        assert(entries.push((key, t))[0] == (key, t));
    } else {
        assert(entries.push((key, t))[0] == entries[0]);
        assert(entries.push((key, t)).drop_first() =~= entries.drop_first().push((key, t)));
        lemma_find_after_push(entries.drop_first(), key, t);
    }
}

/// No shadow-type key is stored twice.
pub open spec fn distinct_keys(entries: Seq<(u64, ReflectVtable)>) -> bool {
    forall|i: int, j: int| 0 <= i < j < entries.len() ==> entries[i].0 != entries[j].0
}

/// A key that the lookup misses appears in no entry.
proof fn lemma_find_none_means_absent(entries: Seq<(u64, ReflectVtable)>, key: u64)
    requires
        spec_find(entries, key) is None,
    ensures
        forall|i: int| 0 <= i < entries.len() ==> entries[i].0 != key,
    decreases entries.len(),
{
    if entries.len() > 0 {
        lemma_find_none_means_absent(entries.drop_first(), key);
        assert forall|i: int| 0 <= i < entries.len() implies entries[i].0 != key by {
            if i > 0 {
                assert(entries.drop_first()[i - 1] == entries[i]);
            }
        }
    }
}

/// Law: the cache holds at most one table per distinct shadow type. A
/// request against a cache whose keys are distinct leaves the keys
/// distinct: a hit stores nothing, and a miss stores a key that was absent.
pub proof fn lemma_cache_keeps_distinct_keys(
    entries: Seq<(u64, ReflectVtable)>,
    shadow: TypeDesc,
    foreign: TypeDesc,
)
    requires
        distinct_keys(entries),
    ensures
        distinct_keys(cache_step(entries, shadow, foreign).0),
{
    match spec_find(entries, shadow.key) {
        Some(t) => {},
        None => {
            lemma_find_none_means_absent(entries, shadow.key);
            let pushed = entries.push((shadow.key, spliced_table(shadow, foreign)));
            assert forall|i: int, j: int| 0 <= i < j < pushed.len() implies pushed[i].0
                != pushed[j].0 by {
                if j < entries.len() {
                    assert(pushed[i] == entries[i] && pushed[j] == entries[j]);
                } else {
                    assert(pushed[i] == entries[i] && pushed[j] == (
                        shadow.key,
                        spliced_table(shadow, foreign),
                    ));
                }
            }
        },
    }
}

/// Law: constructing the descriptor twice for the same shadow type is
/// memoized. After one request, a second request for the same shadow type
/// returns the very table the first one did and leaves the cache unchanged.
pub proof fn lemma_cache_idempotent(
    entries: Seq<(u64, ReflectVtable)>,
    shadow: TypeDesc,
    foreign: TypeDesc,
)
    ensures
        ({
            let (entries1, r1) = cache_step(entries, shadow, foreign);
            cache_step(entries1, shadow, foreign) == (entries1, r1)
        }),
{
    match spec_find(entries, shadow.key) {
        Some(t) => {},
        None => {
            lemma_find_after_push(entries, shadow.key, spliced_table(shadow, foreign));
        },
    }
}

} // verus!
