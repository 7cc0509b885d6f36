use vstd::prelude::*;

use crate::text::str_eq;

verus! {

/// One registered adapter and its stable identifier.
#[derive(Debug)]
struct RegisteredAdapter<A> {
    adapter_id: String,
    adapter: A,
}

/// Identifiers of the registered adapters, in storage order.
spec fn adapter_ids_of<A>(entries: Seq<RegisteredAdapter<A>>) -> Seq<Seq<char>> {
    Seq::new(entries.len(), |i: int| entries[i].adapter_id@)
}

/// The entries as a map from identifier to adapter.
spec fn adapter_map<A>(entries: Seq<RegisteredAdapter<A>>) -> Map<Seq<char>, A> {
    Map::new(
        |id: Seq<char>| adapter_ids_of(entries).contains(id),
        |id: Seq<char>| entries[adapter_ids_of(entries).index_of(id)].adapter,
    )
}

/// With distinct identifiers, the identifier stored at `i` is found at `i`.
proof fn lemma_adapter_index<A>(entries: Seq<RegisteredAdapter<A>>, i: int)
    requires
        adapter_ids_of(entries).no_duplicates(),
        0 <= i < entries.len(),
    ensures
        adapter_ids_of(entries).contains(entries[i].adapter_id@),
        adapter_ids_of(entries).index_of(entries[i].adapter_id@) == i,
{
    let ids = adapter_ids_of(entries);
    assert(ids[i] == entries[i].adapter_id@);
    assert(ids.contains(ids[i]));
    let j = ids.index_of(ids[i]);
    assert(0 <= j < ids.len() && ids[j] == ids[i]);
}

/// The registered identifiers are exactly the stored ones: finitely many,
/// and as many as there are entries when no identifier repeats.
proof fn lemma_adapter_domain<A>(entries: Seq<RegisteredAdapter<A>>)
    ensures
        adapter_map(entries).dom() == adapter_ids_of(entries).to_set(),
        adapter_map(entries).dom().finite(),
        adapter_ids_of(entries).no_duplicates() ==> adapter_map(entries).dom().len()
            == entries.len(),
{
    let ids = adapter_ids_of(entries);
    assert(adapter_map(entries).dom() =~= ids.to_set());
    vstd::seq_lib::seq_to_set_is_finite(ids);
    if ids.no_duplicates() {
        ids.unique_seq_to_set();
    }
}

/// No adapter is registered under the requested identifier.
#[derive(Debug, PartialEq, Eq)]
pub struct AdapterNotRegistered {
    pub adapter_id: String,
}

impl AdapterNotRegistered {
    /// "telemetry adapter not registered: {adapter_id}"
    pub fn message(&self) -> (text: String)
        ensures
            text@ == "telemetry adapter not registered: "@ + self.adapter_id@,
    {
        let mut text = "telemetry adapter not registered: ".to_owned();
        text.append(self.adapter_id.as_str());
        text
    }
}

/// Stores the telemetry adapters available to the ingestion service under
/// stable identifiers such as `legacy-fuel-json` or `kum-modbus`. The view
/// maps each identifier to its adapter.
#[derive(Debug)]
pub struct AdapterRegistry<A> {
    entries: Vec<RegisteredAdapter<A>>,
}

impl<A> View for AdapterRegistry<A> {
    type V = Map<Seq<char>, A>;

    closed spec fn view(&self) -> Map<Seq<char>, A> {
        adapter_map(self.entries@)
    }
}

/// Every registry holds finitely many adapters.
pub proof fn lemma_registered_adapters_are_finite<A>(registry: AdapterRegistry<A>)
    ensures
        registry@.dom().finite(),
{
    lemma_adapter_domain(registry.entries@);
}

impl<A> AdapterRegistry<A> {
    #[verifier::type_invariant]
    spec fn identifiers_are_distinct(self) -> bool {
        adapter_ids_of(self.entries@).no_duplicates()
    }

    pub fn new() -> (registry: AdapterRegistry<A>)
        ensures
            registry@ == Map::<Seq<char>, A>::empty(),
            registry@.dom().finite(),
    {
        let registry = AdapterRegistry { entries: Vec::new() };
        assert(registry@ =~= Map::<Seq<char>, A>::empty());
        registry
    }

    fn find(&self, adapter_id: &str) -> (found: Option<usize>)
        ensures
            match found {
                Some(i) => i < self.entries@.len() && self.entries@[i as int].adapter_id@
                    == adapter_id@,
                None => !adapter_ids_of(self.entries@).contains(adapter_id@),
            },
    {
        let mut index: usize = 0;
        while index < self.entries.len()
            invariant
                index <= self.entries@.len(),
                forall|j: int| 0 <= j < index ==> self.entries@[j].adapter_id@ != adapter_id@,
            decreases self.entries@.len() - index,
        {
            if str_eq(self.entries[index].adapter_id.as_str(), adapter_id) {
                return Some(index);
            }
            index = index + 1;
        }
        let ghost ids = adapter_ids_of(self.entries@);
        assert forall|j: int| 0 <= j < ids.len() implies ids[j] != adapter_id@ by {
            assert(ids[j] == self.entries@[j].adapter_id@);
        }
        None
    }

    /// Registers an adapter under a stable identifier; registering the same
    /// identifier twice replaces the existing adapter.
    pub fn register(&mut self, adapter_id: String, adapter: A)
        ensures
            final(self)@ == old(self)@.insert(adapter_id@, adapter),
            final(self)@.dom().finite(),
            final(self)@.dom().len() == old(self)@.dom().len() + if old(self)@.contains_key(
                adapter_id@,
            ) {
                0int
            } else {
                1int
            },
    {
        proof {
            use_type_invariant(&*self);
        }
        let found = self.find(adapter_id.as_str());
        let ghost old_entries = self.entries@;
        let ghost old_ids = adapter_ids_of(old_entries);
        let ghost id_view = adapter_id@;
        let ghost new_adapter = adapter;
        let mut entries: Vec<RegisteredAdapter<A>> = Vec::new();
        std::mem::swap(&mut entries, &mut self.entries);
        match found {
            Some(i) => {
                let _replaced = entries.remove(i);
                entries.insert(i, RegisteredAdapter { adapter_id, adapter });
                proof {
                    let new_entries = entries@;
                    assert(adapter_ids_of(new_entries) =~= old_ids);
                    let m_old = adapter_map(old_entries);
                    let m_new = adapter_map(new_entries);
                    let expected = m_old.insert(id_view, new_adapter);
                    lemma_adapter_index(old_entries, i as int);
                    assert forall|id: Seq<char>| #[trigger] m_new.contains_key(id) implies m_new[id]
                        == expected[id] by {
                        let k = old_ids.index_of(id);
                        assert(0 <= k < old_ids.len() && old_ids[k] == id);
                        lemma_adapter_index(old_entries, k);
                        if k != i as int {
                            assert(new_entries[k] == old_entries[k]);
                        }
                    }
                    assert(m_new =~= expected);
                }
            },
            None => {
                entries.push(RegisteredAdapter { adapter_id, adapter });
                proof {
                    let new_entries = entries@;
                    let new_ids = adapter_ids_of(new_entries);
                    assert(new_ids =~= old_ids.push(id_view));
                    assert forall|a: int, b: int|
                        0 <= a < new_ids.len() && 0 <= b < new_ids.len() && a != b implies new_ids[a]
                        != new_ids[b] by {
                        if a < old_ids.len() && b < old_ids.len() {
                        } else if a == old_ids.len() {
                            assert(new_ids[b] == old_ids[b]);
                        } else {
                            assert(new_ids[a] == old_ids[a]);
                        }
                    }
                    let m_old = adapter_map(old_entries);
                    let m_new = adapter_map(new_entries);
                    let expected = m_old.insert(id_view, new_adapter);
                    let last = old_entries.len() as int;
                    lemma_adapter_index(new_entries, last);
                    assert forall|id: Seq<char>| #[trigger] expected.contains_key(id) implies m_new.contains_key(id) by {
                        if id != id_view {
                            let k = old_ids.index_of(id);
                            assert(0 <= k < old_ids.len() && old_ids[k] == id);
                            assert(new_ids[k] == id);
                        }
                    }
                    assert forall|id: Seq<char>| #[trigger] m_new.contains_key(id) implies expected.contains_key(id) && m_new[id]
                        == expected[id] by {
                        let k = new_ids.index_of(id);
                        assert(0 <= k < new_ids.len() && new_ids[k] == id);
                        lemma_adapter_index(new_entries, k);
                        if k != last {
                            assert(old_ids[k] == id);
                            lemma_adapter_index(old_entries, k);
                            assert(new_entries[k] == old_entries[k]);
                        }
                    }
                    assert(m_new =~= expected);
                }
            },
        }
        self.entries = entries;
        proof {
            use_type_invariant(&*self);
            lemma_adapter_domain(old_entries);
            lemma_adapter_domain(self.entries@);
        }
    }

    /// Returns the adapter registered under `adapter_id`.
    pub fn get(&self, adapter_id: &str) -> (adapter: Result<&A, AdapterNotRegistered>)
        ensures
            match adapter {
                Ok(a) => self@.contains_key(adapter_id@) && *a == self@[adapter_id@],
                Err(missing) => !self@.contains_key(adapter_id@) && missing.adapter_id@
                    == adapter_id@,
            },
    {
        proof {
            use_type_invariant(self);
        }
        match self.find(adapter_id) {
            Some(i) => {
                proof {
                    lemma_adapter_index(self.entries@, i as int);
                }
                Ok(&self.entries[i].adapter)
            },
            None => Err(AdapterNotRegistered { adapter_id: adapter_id.to_owned() }),
        }
    }

    /// Indicates whether an adapter is registered.
    pub fn contains(&self, adapter_id: &str) -> (registered: bool)
        ensures
            registered == self@.contains_key(adapter_id@),
    {
        self.get(adapter_id).is_ok()
    }

    /// Returns all registered adapter identifiers, each once.
    pub fn adapter_ids(&self) -> (ids: Vec<&str>)
        ensures
            ids@.len() == self@.dom().len(),
            forall|i: int| 0 <= i < ids@.len() ==> self@.contains_key(#[trigger] ids@[i]@),
            forall|id: Seq<char>| #[trigger] self@.contains_key(id) ==> exists|i: int|
                0 <= i < ids@.len() && ids@[i]@ == id,
            forall|i: int, j: int| 0 <= i < ids@.len() && 0 <= j < ids@.len() && i != j ==> ids@[i]@
                != ids@[j]@,
    {
        proof {
            use_type_invariant(self);
        }
        let ghost all_ids = adapter_ids_of(self.entries@);
        let mut ids: Vec<&str> = Vec::new();
        let mut index: usize = 0;
        while index < self.entries.len()
            invariant
                index <= self.entries@.len(),
                all_ids == adapter_ids_of(self.entries@),
                ids@.len() == index,
                forall|i: int| 0 <= i < index ==> #[trigger] ids@[i]@ == all_ids[i],
            decreases self.entries@.len() - index,
        {
            ids.push(self.entries[index].adapter_id.as_str());
            index = index + 1;
        }
        proof {
            all_ids.unique_seq_to_set();
            assert(self@.dom() =~= all_ids.to_set());
            assert forall|id: Seq<char>| #[trigger] self@.contains_key(id) implies exists|i: int|
                0 <= i < ids@.len() && ids@[i]@ == id by {
                let k = all_ids.index_of(id);
                assert(0 <= k < all_ids.len() && all_ids[k] == id);
                assert(ids@[k]@ == id);
            }
            assert forall|i: int| 0 <= i < ids@.len() implies self@.contains_key(#[trigger] ids@[i]@) by {
                assert(ids@[i]@ == all_ids[i]);
                assert(all_ids.contains(all_ids[i]));
            }
        }
        ids
    }
}

impl<A> Default for AdapterRegistry<A> {
    fn default() -> (registry: AdapterRegistry<A>)
        ensures
            registry@ == Map::<Seq<char>, A>::empty(),
            registry@.dom().finite(),
    {
        AdapterRegistry::new()
    }
}

} // verus!
