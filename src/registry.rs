//! The registry of active logical connections: which identifiers are in use, and by which
//! transport.

use vstd::prelude::*;

verus! {

/// The protocol a logical connection speaks with its local service.
#[derive(Debug, Clone, Copy, PartialEq, Eq, Structural)]
pub enum TransportKind {
    Http,
    WebSocket,
}

/// Whether two identifiers are equal.
pub fn same_id(a: &Vec<u8>, b: &Vec<u8>) -> (r: bool)
    ensures
        r == (a@ == b@),
{
    if a.len() != b.len() {
        return false;
    }
    let mut i: usize = 0;
    while i < a.len()
        invariant
            a@.len() == b@.len(),
            i <= a@.len(),
            forall|j: int| 0 <= j < i ==> a@[j] == b@[j],
        decreases a@.len() - i,
    {
        if a[i] != b[i] {
            return false;
        }
        i = i + 1;
    }
    assert(a@ =~= b@);
    true
}

/// Map from logical identifier to the transport of its connection.
pub struct Registry {
    entries: Vec<(Vec<u8>, TransportKind)>,
    model: Ghost<Map<Seq<u8>, TransportKind>>,
}

impl View for Registry {
    type V = Map<Seq<u8>, TransportKind>;

    closed spec fn view(&self) -> Map<Seq<u8>, TransportKind> {
        self.model@
    }
}

impl Registry {
    /// The entries hold each identifier once, and exactly the keys of the model.
    pub closed spec fn wf(&self) -> bool {
        &&& forall|i: int|
            0 <= i < self.entries@.len() ==> #[trigger] self.model@.contains_key(
                self.entries@[i].0@,
            ) && self.model@[self.entries@[i].0@] == self.entries@[i].1
        &&& forall|k: Seq<u8>|
            #[trigger] self.model@.contains_key(k) ==> exists|i: int|
                0 <= i < self.entries@.len() && self.entries@[i].0@ == k
        &&& forall|i: int, j: int|
            0 <= i < self.entries@.len() && 0 <= j < self.entries@.len() && i != j
                ==> self.entries@[i].0@ != self.entries@[j].0@
    }

    pub fn new() -> (r: Registry)
        ensures
            r.wf(),
            r@ == Map::<Seq<u8>, TransportKind>::empty(),
    {
        Registry { entries: Vec::new(), model: Ghost(Map::empty()) }
    }

    fn position(&self, id: &Vec<u8>) -> (r: Option<usize>)
        requires
            self.wf(),
        ensures
            r is None ==> !self@.contains_key(id@),
            r matches Some(i) ==> i < self.entries@.len() && self.entries@[i as int].0@ == id@,
    {
        let mut i: usize = 0;
        while i < self.entries.len()
            invariant
                i <= self.entries@.len(),
                forall|j: int| 0 <= j < i ==> self.entries@[j].0@ != id@,
            decreases self.entries@.len() - i,
        {
            if same_id(&self.entries[i].0, id) {
                return Some(i);
            }
            i = i + 1;
        }
        None
    }

    /// The transport of the connection `id`, if it is registered.
    pub fn kind_of(&self, id: &Vec<u8>) -> (r: Option<TransportKind>)
        requires
            self.wf(),
        ensures
            r == (if self@.contains_key(id@) {
                Some(self@[id@])
            } else {
                None
            }),
    {
        match self.position(id) {
            Some(i) => Some(self.entries[i].1),
            None => None,
        }
    }

    /// Registers a connection under an identifier that is not in use.
    pub fn insert(&mut self, id: Vec<u8>, kind: TransportKind)
        requires
            old(self).wf(),
            !old(self)@.contains_key(id@),
        ensures
            final(self).wf(),
            final(self)@ == old(self)@.insert(id@, kind),
    {
        let ghost key = id@;
        self.entries.push((id, kind));
        self.model = Ghost(self.model@.insert(key, kind));
        assert forall|k: Seq<u8>| #[trigger] self.model@.contains_key(k) implies exists|i: int|
            0 <= i < self.entries@.len() && self.entries@[i].0@ == k by {
            if k == key {
                assert(self.entries@[self.entries@.len() - 1].0@ == k);
            } else {
                assert(old(self).model@.contains_key(k));
                let i = choose|i: int|
                    0 <= i < old(self).entries@.len() && old(self).entries@[i].0@ == k;
                assert(self.entries@[i].0@ == k);
            }
        }
    }

    /// Removes the connection `id`, giving back its transport if it was registered.
    pub fn remove(&mut self, id: &Vec<u8>) -> (r: Option<TransportKind>)
        requires
            old(self).wf(),
        ensures
            final(self).wf(),
            final(self)@ == old(self)@.remove(id@),
            r == (if old(self)@.contains_key(id@) {
                Some(old(self)@[id@])
            } else {
                None
            }),
    {
        match self.position(id) {
            None => {
                assert(self.model@.remove(id@) =~= self.model@);
                None
            },
            Some(p) => {
                let ghost old_entries = self.entries@;
                let entry = self.entries.remove(p);
                self.model = Ghost(self.model@.remove(id@));
                assert forall|i: int| 0 <= i < self.entries@.len() implies #[trigger] self.model@.contains_key(
                    self.entries@[i].0@,
                ) && self.model@[self.entries@[i].0@] == self.entries@[i].1 by {
                    if i < p {
                        assert(self.entries@[i] == old_entries[i]);
                    } else {
                        assert(self.entries@[i] == old_entries[i + 1]);
                    }
                }
                assert forall|k: Seq<u8>| #[trigger] self.model@.contains_key(k) implies exists|i: int|
                    0 <= i < self.entries@.len() && self.entries@[i].0@ == k by {
                    assert(old(self).model@.contains_key(k));
                    let j = choose|j: int| 0 <= j < old_entries.len() && old_entries[j].0@ == k;
                    if j < p {
                        assert(self.entries@[j].0@ == k);
                    } else {
                        assert(j != p);
                        assert(self.entries@[j - 1].0@ == k);
                    }
                }
                assert forall|i: int, j: int|
                    0 <= i < self.entries@.len() && 0 <= j < self.entries@.len() && i != j
                        implies self.entries@[i].0@ != self.entries@[j].0@ by {
                    let oi = if i < p { i } else { i + 1 };
                    let oj = if j < p { j } else { j + 1 };
                    assert(self.entries@[i] == old_entries[oi]);
                    assert(self.entries@[j] == old_entries[oj]);
                }
                Some(entry.1)
            },
        }
    }

    /// Removes every connection, giving back their identifiers, each once.
    pub fn drain(&mut self) -> (r: Vec<Vec<u8>>)
        requires
            old(self).wf(),
        ensures
            final(self).wf(),
            final(self)@ == Map::<Seq<u8>, TransportKind>::empty(),
            forall|k: Seq<u8>|
                old(self)@.contains_key(k) <==> exists|i: int| 0 <= i < r@.len() && r@[i]@ == k,
            forall|i: int, j: int| 0 <= i < r@.len() && 0 <= j < r@.len() && i != j ==> r@[i]@ != r@[j]@,
    {
        let mut r: Vec<Vec<u8>> = Vec::new();
        let mut i: usize = 0;
        while i < self.entries.len()
            invariant
                self.wf(),
                self@ == old(self)@,
                i <= self.entries@.len(),
                r@.len() == i,
                forall|j: int| 0 <= j < i ==> r@[j]@ == self.entries@[j].0@,
            decreases self.entries@.len() - i,
        {
            r.push(self.entries[i].0.clone());
            i = i + 1;
        }
        proof {
            assert forall|k: Seq<u8>| old(self)@.contains_key(k) implies exists|i: int|
                0 <= i < r@.len() && r@[i]@ == k by {
                assert(self.model@.contains_key(k));
                let j = choose|j: int| 0 <= j < self.entries@.len() && self.entries@[j].0@ == k;
                assert(r@[j]@ == k);
            }
        }
        self.entries = Vec::new();
        self.model = Ghost(Map::empty());
        r
    }
}

} // verus!
