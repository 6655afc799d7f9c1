use vstd::prelude::*;

verus! {

/// Whether no two entries of a port listing share a port name.
pub open spec fn keys_unique<V>(s: Seq<(Seq<char>, V)>) -> bool {
    forall|i: int, j: int|
        0 <= i < s.len() && 0 <= j < s.len() && i != j ==> #[trigger] s[i].0 != #[trigger] s[j].0
}

/// Whether the listing has an entry for port `k`.
pub open spec fn has_port<V>(s: Seq<(Seq<char>, V)>, k: Seq<char>) -> bool {
    exists|i: int| 0 <= i < s.len() && #[trigger] s[i].0 == k
}

/// Whether the listing maps port `k` to `v`.
pub open spec fn entry_found<V>(s: Seq<(Seq<char>, V)>, k: Seq<char>, v: V) -> bool {
    exists|i: int| 0 <= i < s.len() && #[trigger] s[i].0 == k && s[i].1 == v
}

/// Whether `after` is `before` with the value `old_v` of port `k` replaced by `new_v`.
pub open spec fn entry_replaced<V>(
    before: Seq<(Seq<char>, V)>,
    after: Seq<(Seq<char>, V)>,
    k: Seq<char>,
    old_v: V,
    new_v: V,
) -> bool {
    exists|i: int|
        0 <= i < before.len() && #[trigger] before[i].0 == k && before[i].1 == old_v
            && after =~= before.update(i, (k, new_v))
}

/// The mapping from port name to value that a listing with unique names stands for.
pub open spec fn port_map<V>(s: Seq<(Seq<char>, V)>) -> Map<Seq<char>, V> {
    Map::new(
        |k: Seq<char>| has_port(s, k),
        |k: Seq<char>| s[choose|i: int| 0 <= i < s.len() && #[trigger] s[i].0 == k].1,
    )
}

/// The listing that a sequence of owned entries stands for.
pub open spec fn entries_view<V>(s: Seq<(String, V)>) -> Seq<(Seq<char>, V)> {
    s.map_values(|e: (String, V)| (e.0@, e.1))
}

/// A mapping from port names to values, one entry per port.
#[derive(Debug)]
pub struct PortMap<V> {
    entries: Vec<(String, V)>,
}

impl<V> View for PortMap<V> {
    type V = Seq<(Seq<char>, V)>;

    closed spec fn view(&self) -> Seq<(Seq<char>, V)> {
        entries_view(self.entries@)
    }
}

impl<V> PortMap<V> {
    /// Port names are unique.
    pub open spec fn wf(&self) -> bool {
        keys_unique(self@)
    }

    /// The mapping this value stands for.
    pub open spec fn spec_map(&self) -> Map<Seq<char>, V> {
        port_map(self@)
    }

    pub fn new() -> (r: PortMap<V>)
        ensures
            r@ == Seq::<(Seq<char>, V)>::empty(),
            r.wf(),
    {
        PortMap { entries: Vec::new() }
    }

    pub fn len(&self) -> (r: usize)
        ensures
            r == self@.len(),
    {
        self.entries.len()
    }

    pub fn key_at(&self, i: usize) -> (r: &String)
        requires
            i < self@.len(),
        ensures
            r@ == self@[i as int].0,
    {
        &self.entries[i].0
    }

    pub fn value_at(&self, i: usize) -> (r: &V)
        requires
            i < self@.len(),
        ensures
            *r == self@[i as int].1,
    {
        &self.entries[i].1
    }

    /// The position of port `id`, if it has an entry.
    fn position(&self, id: &str) -> (r: Option<usize>)
        ensures
            match r {
                Some(i) => i < self@.len() && self@[i as int].0 == id@,
                None => !has_port(self@, id@),
            },
    {
        let key = id.to_owned();
        let mut i: usize = 0;
        while i < self.entries.len()
            invariant
                i <= self@.len(),
                key@ == id@,
                forall|j: int| 0 <= j < i ==> #[trigger] self@[j].0 != id@,
            decreases self@.len() - i,
        {
            if self.entries[i].0 == key {
                return Some(i);
            }
            i = i + 1;
        }
        None
    }

    /// The value of port `id`.
    pub fn get(&self, id: &str) -> (r: Option<&V>)
        ensures
            match r {
                Some(v) => entry_found(self@, id@, *v),
                None => !has_port(self@, id@),
            },
    {
        match self.position(id) {
            Some(i) => Some(&self.entries[i].1),
            None => None,
        }
    }

    /// Sets the value of port `id`, handing back the value it replaces.
    pub fn insert(&mut self, id: String, value: V) -> (r: Option<V>)
        requires
            old(self).wf(),
        ensures
            final(self).wf(),
            match r {
                Some(v) => entry_replaced(old(self)@, final(self)@, id@, v, value),
                None => !has_port(old(self)@, id@) && final(self)@ == old(self)@.push((id@, value)),
            },
    {
        match self.position(id.as_str()) {
            Some(i) => {
                let ghost before = self@;
                let (k, v) = self.entries.remove(i);
                self.entries.insert(i, (id, value));
                assert(self@ =~= before.update(i as int, (id@, value)));
                Some(v)
            },
            None => {
                let ghost before = self@;
                self.entries.push((id, value));
                assert(self@ =~= before.push((id@, value)));
                None
            },
        }
    }

    /// The value of port `id`, to be changed in place.
    pub fn get_mut(&mut self, id: &str) -> (r: Option<&mut V>)
        ensures
            final(self)@.len() == old(self)@.len(),
            match r {
                Some(v) => entry_replaced(old(self)@, final(self)@, id@, *v, *final(v)),
                None => !has_port(old(self)@, id@) && final(self)@ == old(self)@,
            },
    {
        match self.position(id) {
            Some(i) => Some(&mut self.entries[i].1),
            None => None,
        }
    }
    /// The entries, in order, handed over.
    pub fn into_entries(self) -> (r: Vec<(String, V)>)
        ensures
            entries_view(r@) == self@,
    {
        self.entries
    }

    /// The map with the given entries, whose port names are unique.
    pub fn from_entries(entries: Vec<(String, V)>) -> (r: PortMap<V>)
        requires
            keys_unique(entries_view(entries@)),
        ensures
            r@ == entries_view(entries@),
            r.wf(),
    {
        PortMap { entries }
    }
}

} // verus!
