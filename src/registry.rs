use std::collections::HashMap;
use vstd::prelude::*;

verus! {

broadcast use vstd::std_specs::hash::group_hash_axioms;

/// The registry after registering `handle` under `id`: an identifier
/// already present keeps its entry.
pub open spec fn registered<H>(m: Map<usize, H>, id: usize, handle: H) -> Map<usize, H> {
    if m.contains_key(id) {
        m
    } else {
        m.insert(id, handle)
    }
}

/// The registry after registering every entry, in order.
pub open spec fn registered_all<H>(m: Map<usize, H>, entries: Seq<(usize, H)>) -> Map<usize, H>
    decreases entries.len(),
{
    if entries.len() == 0 {
        m
    } else {
        registered(registered_all(m, entries.drop_last()), entries.last().0, entries.last().1)
    }
}

/// Whether the identifiers of the entries are pairwise distinct.
pub open spec fn distinct_ids<H>(entries: Seq<(usize, H)>) -> bool {
    forall|i: int, j: int| 0 <= i < j < entries.len() ==> entries[i].0 != entries[j].0
}

/// Maps each connected agent's identifier to the handle of its shared
/// state. Entries are never removed.
pub struct TurtleManager<H> {
    pub turtles: HashMap<usize, H>,
}

impl<H> TurtleManager<H> {
    pub fn new() -> (r: TurtleManager<H>)
        ensures
            r.turtles@ == Map::<usize, H>::empty(),
    {
        TurtleManager { turtles: HashMap::new() }
    }

    /// Registers `turtle` under `id`. Fails, returning `false` and leaving
    /// the registry as it was, when `id` is already registered.
    pub fn add_turtle(&mut self, id: usize, turtle: H) -> (r: bool)
        ensures
            r == !old(self).turtles@.contains_key(id),
            final(self).turtles@ == registered(old(self).turtles@, id, turtle),
    {
        if self.turtles.contains_key(&id) {
            return false;
        }
        self.turtles.insert(id, turtle);
        true
    }

    /// The handle registered under `id`.
    pub fn get_turtle(&self, id: usize) -> (r: Option<&H>)
        ensures
            match r {
                Some(h) => self.turtles@.contains_key(id) && *h == self.turtles@[id],
                None => !self.turtles@.contains_key(id),
            },
    {
        self.turtles.get(&id)
    }

    /// Number of registered agents.
    pub fn len(&self) -> (r: usize)
        ensures
            r == self.turtles@.len(),
    {
        self.turtles.len()
    }
}

proof fn lemma_distinct_registrations<H>(entries: Seq<(usize, H)>)
    requires
        distinct_ids(entries),
    ensures
        registered_all(Map::<usize, H>::empty(), entries).dom().len() == entries.len(),
        registered_all(Map::<usize, H>::empty(), entries).dom().finite(),
        forall|i: int|
            0 <= i < entries.len() ==> #[trigger] registered_all(Map::<usize, H>::empty(), entries)[entries[i].0]
                == entries[i].1 && registered_all(Map::<usize, H>::empty(), entries).contains_key(entries[i].0),
        forall|id: usize|
            #[trigger] registered_all(Map::<usize, H>::empty(), entries).contains_key(id) ==> exists|i: int|
                0 <= i < entries.len() && entries[i].0 == id,
    decreases entries.len(),
{
    if entries.len() > 0 {
        let init = entries.drop_last();
        assert(distinct_ids(init));
        lemma_distinct_registrations(init);
        let m = registered_all(Map::<usize, H>::empty(), init);
        let last = entries.last();
        if m.contains_key(last.0) {
            let i = choose|i: int| 0 <= i < init.len() && init[i].0 == last.0;
            assert(entries[i].0 == entries[entries.len() - 1].0);
        }
        assert(m.insert(last.0, last.1).dom() =~= m.dom().insert(last.0));
        assert forall|i: int| 0 <= i < entries.len() implies #[trigger] registered_all(
            Map::<usize, H>::empty(),
            entries,
        )[entries[i].0] == entries[i].1 && registered_all(Map::<usize, H>::empty(), entries).contains_key(
            entries[i].0,
        ) by {
            if i < entries.len() - 1 {
                assert(init[i] == entries[i]);
            }
        }
        assert forall|id: usize|
            #[trigger] registered_all(Map::<usize, H>::empty(), entries).contains_key(id) implies exists|i: int|
                0 <= i < entries.len() && entries[i].0 == id by {
            if id != last.0 {
                assert(m.contains_key(id));
                let i = choose|i: int| 0 <= i < init.len() && init[i].0 == id;
                assert(entries[i] == init[i]);
            } else {
                assert(entries[entries.len() - 1].0 == id);
            }
        }
    } else {
        assert(Map::<usize, H>::empty().dom() =~= Set::<usize>::empty());
    }
}

proof fn lemma_states_follow_entries<H>(states: Seq<Map<usize, H>>, entries: Seq<(usize, H)>, i: int)
    requires
        states.len() == entries.len() + 1,
        states[0] == Map::<usize, H>::empty(),
        forall|j: int| 0 <= j < entries.len() ==> #[trigger] states[j + 1] == registered(states[j], entries[j].0, entries[j].1),
        0 <= i <= entries.len(),
    ensures
        states[i] == registered_all(Map::<usize, H>::empty(), entries.take(i)),
    decreases i,
{
    if i > 0 {
        lemma_states_follow_entries(states, entries, i - 1);
        assert(entries.take(i).drop_last() =~= entries.take(i - 1));
        assert(states[(i - 1) + 1] == registered(states[i - 1], entries[i - 1].0, entries[i - 1].1));
    } else {
        assert(entries.take(0) =~= Seq::<(usize, H)>::empty());
    }
}

/// Registering agents with distinct identifiers one after another, in any
/// order (`states[i + 1]` is the registry after `add_turtle` of `entries[i]`
/// on `states[i]`), from an empty registry: every registration succeeds, the
/// registry ends with exactly one entry per agent, each identifier leads to
/// its own agent's handle, and no other identifier is registered.
pub proof fn lemma_registrations_in_turn<H>(states: Seq<Map<usize, H>>, entries: Seq<(usize, H)>)
    requires
        distinct_ids(entries),
        states.len() == entries.len() + 1,
        states[0] == Map::<usize, H>::empty(),
        forall|j: int| 0 <= j < entries.len() ==> #[trigger] states[j + 1] == registered(states[j], entries[j].0, entries[j].1),
    ensures
        forall|j: int| 0 <= j < entries.len() ==> !(#[trigger] states[j]).contains_key(entries[j].0),
        states.last().dom().finite(),
        states.last().dom().len() == entries.len(),
        forall|j: int|
            0 <= j < entries.len() ==> states.last().contains_key(#[trigger] entries[j].0)
                && states.last()[entries[j].0] == entries[j].1,
        forall|id: usize|
            #[trigger] states.last().contains_key(id) ==> exists|j: int| 0 <= j < entries.len() && entries[j].0 == id,
{
    let k = entries.len() as int;
    lemma_states_follow_entries(states, entries, k);
    assert(entries.take(k) =~= entries);
    lemma_distinct_registrations(entries);
    assert forall|j: int| 0 <= j < entries.len() implies !(#[trigger] states[j]).contains_key(entries[j].0) by {
        lemma_states_follow_entries(states, entries, j);
        let pre = entries.take(j);
        assert(distinct_ids(pre));
        lemma_distinct_registrations(pre);
        if states[j].contains_key(entries[j].0) {
            let i = choose|i: int| 0 <= i < pre.len() && pre[i].0 == entries[j].0;
            assert(entries[i].0 == entries[j].0);
        }
    }
    assert forall|j: int| 0 <= j < entries.len() implies states.last().contains_key(#[trigger] entries[j].0)
        && states.last()[entries[j].0] == entries[j].1 by {
        assert(registered_all(Map::<usize, H>::empty(), entries)[entries[j].0] == entries[j].1);
    }
}

} // verus!
