//! The chat cache: chat identifiers and the peer each one stands for.

use vstd::prelude::*;

verus! {

/// The map that a list of bindings describes. A later binding of an
/// identifier replaces an earlier one.
pub open spec fn bindings_map(bindings: Seq<(Seq<char>, u64)>) -> Map<Seq<char>, u64>
    decreases bindings.len(),
{
    if bindings.len() == 0 {
        Map::empty()
    } else {
        bindings_map(bindings.drop_last()).insert(bindings.last().0, bindings.last().1)
    }
}

/// A binding that no later binding of the same identifier follows decides
/// what the map holds for that identifier.
pub proof fn lemma_last_binding_wins(bindings: Seq<(Seq<char>, u64)>, i: int)
    requires
        0 <= i < bindings.len(),
        forall|j: int| i < j < bindings.len() ==> (#[trigger] bindings[j]).0 != bindings[i].0,
    ensures
        bindings_map(bindings).contains_key(bindings[i].0),
        bindings_map(bindings)[bindings[i].0] == bindings[i].1,
    decreases bindings.len(),
{
    if i < bindings.len() - 1 {
        let rest = bindings.drop_last();
        assert(bindings.last() == bindings[bindings.len() - 1]);
        assert(rest[i] == bindings[i]);
        assert forall|j: int| i < j < rest.len() implies (#[trigger] rest[j]).0 != rest[i].0 by {
            assert(rest[j] == bindings[j]);
        }
        lemma_last_binding_wins(rest, i);
    }
}

/// Every identifier that is bound somewhere in the list is a key of the map.
pub proof fn lemma_bound_is_key(bindings: Seq<(Seq<char>, u64)>, i: int)
    requires
        0 <= i < bindings.len(),
    ensures
        bindings_map(bindings).contains_key(bindings[i].0),
    decreases bindings.len(),
{
    if i < bindings.len() - 1 {
        let rest = bindings.drop_last();
        assert(rest[i] == bindings[i]);
        lemma_bound_is_key(rest, i);
    }
}

/// An identifier that the list binds nowhere is no key of the map.
pub proof fn lemma_unbound_is_no_key(bindings: Seq<(Seq<char>, u64)>, id: Seq<char>)
    requires
        forall|j: int| 0 <= j < bindings.len() ==> (#[trigger] bindings[j]).0 != id,
    ensures
        !bindings_map(bindings).contains_key(id),
    decreases bindings.len(),
{
    if bindings.len() > 0 {
        let rest = bindings.drop_last();
        assert forall|j: int| 0 <= j < rest.len() implies (#[trigger] rest[j]).0 != id by {
            assert(rest[j] == bindings[j]);
        }
        lemma_unbound_is_no_key(rest, id);
        assert(bindings.last() == bindings[bindings.len() - 1]);
    }
}

/// Whether no identifier is bound twice in the list.
pub open spec fn distinct_ids(bindings: Seq<(Seq<char>, u64)>) -> bool {
    forall|i: int, j: int| 0 <= i < j < bindings.len() ==> bindings[i].0 != bindings[j].0
}

/// What binding the identifier at `i` anew means for one identifier `id`,
/// in a list that binds nothing twice.
proof fn lemma_rebinding_at(bindings: Seq<(Seq<char>, u64)>, i: int, peer: u64, id: Seq<char>)
    requires
        distinct_ids(bindings),
        0 <= i < bindings.len(),
    ensures
        ({
            let before = bindings_map(bindings);
            let after = bindings_map(bindings.update(i, (bindings[i].0, peer)));
            &&& after.contains_key(id) == (id == bindings[i].0 || before.contains_key(id))
            &&& id == bindings[i].0 ==> after[id] == peer
            &&& id != bindings[i].0 && before.contains_key(id) ==> after[id] == before[id]
        }),
{
    let rebound = bindings.update(i, (bindings[i].0, peer));
    assert(distinct_ids(rebound)) by {
        assert forall|a: int, b: int| 0 <= a < b < rebound.len() implies rebound[a].0
            != rebound[b].0 by {
            assert(rebound[a].0 == bindings[a].0);
            assert(rebound[b].0 == bindings[b].0);
        }
    }
    if exists|j: int| 0 <= j < bindings.len() && bindings[j].0 == id {
        let j = choose|j: int| 0 <= j < bindings.len() && bindings[j].0 == id;
        assert(rebound[j].0 == id);
        lemma_last_binding_wins(bindings, j);
        lemma_last_binding_wins(rebound, j);
    } else {
        assert forall|j: int| 0 <= j < rebound.len() implies (#[trigger] rebound[j]).0 != id by {
            assert(rebound[j].0 == bindings[j].0);
        }
        lemma_unbound_is_no_key(bindings, id);
        lemma_unbound_is_no_key(rebound, id);
    }
}

/// In a list that binds nothing twice, binding the identifier at `i` anew
/// changes the map at that identifier and nowhere else.
pub proof fn lemma_rebinding(bindings: Seq<(Seq<char>, u64)>, i: int, peer: u64)
    requires
        distinct_ids(bindings),
        0 <= i < bindings.len(),
    ensures
        distinct_ids(bindings.update(i, (bindings[i].0, peer))),
        bindings_map(bindings.update(i, (bindings[i].0, peer))) == bindings_map(bindings).insert(
            bindings[i].0,
            peer,
        ),
{
    let rebound = bindings.update(i, (bindings[i].0, peer));
    let before = bindings_map(bindings).insert(bindings[i].0, peer);
    let after = bindings_map(rebound);
    assert forall|a: int, b: int| 0 <= a < b < rebound.len() implies rebound[a].0
        != rebound[b].0 by {
        assert(rebound[a].0 == bindings[a].0);
        assert(rebound[b].0 == bindings[b].0);
    }
    assert forall|id: Seq<char>| #[trigger] after.contains_key(id) == before.contains_key(id) by {
        lemma_rebinding_at(bindings, i, peer, id);
    }
    assert forall|id: Seq<char>| #[trigger] after.contains_key(id) implies after[id]
        == before[id] by {
        lemma_rebinding_at(bindings, i, peer, id);
    }
    assert(after =~= before);
}

/// The bindings that a list of entries holds, in the list's order.
pub open spec fn entry_bindings(entries: Seq<CacheEntry>) -> Seq<(Seq<char>, u64)> {
    Seq::new(entries.len(), |i: int| (entries[i].id@, entries[i].peer))
}

/// Binds `id` to `peer` in a list of entries that binds nothing twice: the
/// entry for `id` is replaced where there is one, and added where not.
fn bind(entries: &mut Vec<CacheEntry>, id: String, peer: u64)
    requires
        distinct_ids(entry_bindings(old(entries)@)),
    ensures
        distinct_ids(entry_bindings(final(entries)@)),
        bindings_map(entry_bindings(final(entries)@)) == bindings_map(
            entry_bindings(old(entries)@),
        ).insert(id@, peer),
{
    let ghost before = entry_bindings(entries@);
    let mut i: usize = 0;
    while i < entries.len()
        invariant
            i <= entries@.len(),
            entries@ == old(entries)@,
            before == entry_bindings(entries@),
            distinct_ids(before),
            forall|j: int| 0 <= j < i ==> entries@[j].id@ != id@,
        decreases entries@.len() - i,
    {
        if entries[i].id == id {
            entries.set(i, CacheEntry { id, peer });
            proof {
                assert(before[i as int].0 == id@);
                lemma_rebinding(before, i as int, peer);
                assert(entry_bindings(entries@) =~= before.update(i as int, (id@, peer)));
            }
            return ;
        }
        i = i + 1;
    }
    entries.push(CacheEntry { id, peer });
    proof {
        let after = entry_bindings(entries@);
        assert(after.drop_last() =~= before);
        assert(after.last() == (id@, peer));
        assert forall|a: int, b: int| 0 <= a < b < after.len() implies after[a].0 != after[b].0 by {
            if b < before.len() {
                assert(after[a] == before[a]);
                assert(after[b] == before[b]);
            } else {
                assert(after[a].0 == old(entries)@[a].id@);
            }
        }
    }
}

/// One binding of the cache.
pub struct CacheEntry {
    pub id: String,
    pub peer: u64,
}

/// Chat identifiers with the peer handle that each one was last bound to.
/// No identifier has two entries.
pub struct ChatCache {
    entries: Vec<CacheEntry>,
}

impl ChatCache {
    /// The bindings that the cache holds.
    pub closed spec fn bindings(&self) -> Seq<(Seq<char>, u64)> {
        entry_bindings(self.entries@)
    }

    #[verifier::type_invariant]
    spec fn no_identifier_twice(&self) -> bool {
        distinct_ids(entry_bindings(self.entries@))
    }

    /// An empty cache.
    pub fn new() -> (cache: ChatCache)
        ensures
            cache@ == Map::<Seq<char>, u64>::empty(),
    {
        ChatCache { entries: Vec::new() }
    }

    /// Binds `id` to `peer`, in place of what `id` was bound to before.
    pub fn insert(&mut self, id: String, peer: u64)
        ensures
            final(self)@ == old(self)@.insert(id@, peer),
    {
        proof {
            use_type_invariant(&*self);
        }
        let mut entries: Vec<CacheEntry> = Vec::new();
        core::mem::swap(&mut self.entries, &mut entries);
        bind(&mut entries, id, peer);
        self.entries = entries;
    }

    /// The peer that `id` is bound to, if it is bound.
    pub fn lookup(&self, id: &String) -> (found: Option<u64>)
        ensures
            found == (if self@.contains_key(id@) {
                Some(self@[id@])
            } else {
                None
            }),
    {
        let mut i: usize = self.entries.len();
        while i > 0
            invariant
                i <= self.entries@.len(),
                forall|j: int| i <= j < self.entries@.len() ==> self.entries@[j].id@ != id@,
            decreases i,
        {
            i = i - 1;
            if self.entries[i].id == *id {
                proof {
                    let b = self.bindings();
                    assert(b[i as int].0 == id@);
                    assert forall|j: int| i < j < b.len() implies (#[trigger] b[j]).0 != b[i as int].0 by {
                        assert(self.entries@[j].id@ != id@);
                    }
                    lemma_last_binding_wins(b, i as int);
                }
                return Some(self.entries[i].peer);
            }
        }
        proof {
            let b = self.bindings();
            assert forall|j: int| 0 <= j < b.len() implies (#[trigger] b[j]).0 != id@ by {
                assert(self.entries@[j].id@ != id@);
            }
            lemma_unbound_is_no_key(b, id@);
        }
        None
    }

    /// Forgets every binding.
    pub fn clear(&mut self)
        ensures
            final(self)@ == Map::<Seq<char>, u64>::empty(),
    {
        self.entries = Vec::new();
    }

    /// Whether the cache holds no binding.
    pub fn is_empty(&self) -> (empty: bool)
        ensures
            empty == (self@ == Map::<Seq<char>, u64>::empty()),
    {
        let empty = self.entries.len() == 0;
        proof {
            if !empty {
                lemma_bound_is_key(self.bindings(), 0);
            }
        }
        empty
    }
}

impl View for ChatCache {
    type V = Map<Seq<char>, u64>;

    closed spec fn view(&self) -> Map<Seq<char>, u64> {
        bindings_map(self.bindings())
    }
}

} // verus!
