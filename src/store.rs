use crate::error::RuntimeError;
use crate::spec::{Spec, SpecView};
use crate::state::{State, StateView};
use vstd::prelude::*;

verus! {

/// Lexicographic order on ids, by character (the order of `str`).
pub open spec fn id_lt(a: Seq<char>, b: Seq<char>) -> bool
    decreases a.len(),
{
    if a.len() == 0 {
        b.len() > 0
    } else if b.len() == 0 {
        false
    } else if a[0] != b[0] {
        a[0] < b[0]
    } else {
        id_lt(a.drop_first(), b.drop_first())
    }
}

proof fn lemma_id_lt_irreflexive(a: Seq<char>)
    ensures
        !id_lt(a, a),
    decreases a.len(),
{
    if a.len() > 0 {
        lemma_id_lt_irreflexive(a.drop_first());
    }
}

proof fn lemma_id_lt_total(a: Seq<char>, b: Seq<char>)
    requires
        a != b,
    ensures
        id_lt(a, b) || id_lt(b, a),
    decreases a.len(),
{
    if a.len() > 0 && b.len() > 0 && a[0] == b[0] {
        if a.drop_first() == b.drop_first() {
            assert(a =~= seq![a[0]] + a.drop_first());
            assert(b =~= seq![b[0]] + b.drop_first());
        }
        lemma_id_lt_total(a.drop_first(), b.drop_first());
    } else if a.len() == 0 && b.len() == 0 {
        assert(a =~= b);
    }
}

proof fn lemma_id_lt_transitive(a: Seq<char>, b: Seq<char>, c: Seq<char>)
    requires
        id_lt(a, b),
        id_lt(b, c),
    ensures
        id_lt(a, c),
    decreases a.len(),
{
    if a.len() > 0 && b.len() > 0 && c.len() > 0 && a[0] == b[0] && b[0] == c[0] {
        lemma_id_lt_transitive(a.drop_first(), b.drop_first(), c.drop_first());
    }
}

/// Whether `a` comes before `b` in id order.
fn str_lt(a: &str, b: &str) -> (r: bool)
    ensures
        r == id_lt(a@, b@),
{
    let n = a.unicode_len();
    let m = b.unicode_len();
    let mut i: usize = 0;
    assert(a@.skip(0) =~= a@);
    assert(b@.skip(0) =~= b@);
    while i < n && i < m && a.get_char(i) == b.get_char(i)
        invariant
            n == a@.len(),
            m == b@.len(),
            i <= n,
            i <= m,
            id_lt(a@, b@) == id_lt(a@.skip(i as int), b@.skip(i as int)),
        decreases n - i,
    {
        proof {
            let x = a@.skip(i as int);
            let y = b@.skip(i as int);
            assert(x.drop_first() =~= a@.skip(i + 1));
            assert(y.drop_first() =~= b@.skip(i + 1));
        }
        i += 1;
    }
    if i == n {
        i < m
    } else if i == m {
        false
    } else {
        proof {
            let x = a@.skip(i as int);
            let y = b@.skip(i as int);
            assert(x[0] == a@[i as int]);
            assert(y[0] == b@[i as int]);
        }
        a.get_char(i) < b.get_char(i)
    }
}

struct Record {
    id: String,
    spec: Spec,
    state: State,
}

/// The record store: for each container id, its spec and its state.
///
/// The store is held in memory; the program around the library loads it
/// from durable storage and writes it back after each operation.
pub struct Store {
    records: Vec<Record>,
    model: Ghost<Map<Seq<char>, (SpecView, StateView)>>,
}

impl View for Store {
    type V = Map<Seq<char>, (SpecView, StateView)>;

    closed spec fn view(&self) -> Map<Seq<char>, (SpecView, StateView)> {
        self.model@
    }
}

impl Store {
    /// The records agree with the model and are kept in strict id order,
    /// so there is one record per id.
    pub closed spec fn wf(&self) -> bool {
        &&& forall|i: int, j: int|
            0 <= i < j < self.records@.len() ==> id_lt(self.records@[i].id@, self.records@[j].id@)
        &&& forall|i: int|
            0 <= i < self.records@.len() ==> {
                let r = #[trigger] self.records@[i];
                &&& self.model@.contains_key(r.id@)
                &&& self.model@[r.id@] == (r.spec@, r.state@)
            }
        &&& forall|k: Seq<char>|
            #[trigger] self.model@.contains_key(k) ==> exists|i: int|
                0 <= i < self.records@.len() && self.records@[i].id@ == k
    }

    /// An empty store.
    pub fn new() -> (r: Store)
        ensures
            r.wf(),
            r@ == Map::<Seq<char>, (SpecView, StateView)>::empty(),
    {
        Store { records: Vec::new(), model: Ghost(Map::empty()) }
    }

    fn find(&self, id: &str) -> (r: Option<usize>)
        requires
            self.wf(),
        ensures
            r.is_none() <==> !self@.contains_key(id@),
            r matches Some(i) ==> i < self.records@.len() && self.records@[i as int].id@ == id@,
    {
        let key = String::from_str(id);
        let mut i: usize = 0;
        while i < self.records.len()
            invariant
                self.wf(),
                key@ == id@,
                i <= self.records@.len(),
                forall|j: int| 0 <= j < i ==> self.records@[j].id@ != id@,
            decreases self.records@.len() - i,
        {
            if self.records[i].id == key {
                return Some(i);
            }
            i += 1;
        }
        None
    }

    /// Whether a record exists for `id`.
    pub fn contains(&self, id: &str) -> (r: bool)
        requires
            self.wf(),
        ensures
            r == self@.contains_key(id@),
    {
        self.find(id).is_some()
    }

    /// Adds the record for `id`; fails, changing nothing, if one exists.
    pub fn create_container(&mut self, id: &str, spec: &Spec, state: &State) -> (r: Result<(), RuntimeError>)
        requires
            old(self).wf(),
        ensures
            final(self).wf(),
            old(self)@.contains_key(id@) ==> (r matches Err(RuntimeError::AlreadyExists(e)) && e@ == id@),
            old(self)@.contains_key(id@) ==> final(self)@ == old(self)@,
            !old(self)@.contains_key(id@) ==> r is Ok,
            !old(self)@.contains_key(id@) ==> final(self)@ == old(self)@.insert(id@, (spec@, state@)),
    {
        if self.find(id).is_some() {
            return Err(RuntimeError::AlreadyExists(String::from_str(id)));
        }
        let rec = Record { id: String::from_str(id), spec: spec.duplicate(), state: state.duplicate() };
        let mut pos: usize = 0;
        while pos < self.records.len() && str_lt(self.records[pos].id.as_str(), id)
            invariant
                self.wf(),
                pos <= self.records@.len(),
                forall|j: int| 0 <= j < pos ==> id_lt(#[trigger] self.records@[j].id@, id@),
            decreases self.records@.len() - pos,
        {
            pos += 1;
        }
        let ghost old_records = self.records@;
        let ghost old_model = self.model@;
        proof {
            assert forall|j: int| pos <= j < old_records.len() implies id_lt(id@, #[trigger] old_records[j].id@) by {
                let p = pos as int;
                assert(!id_lt(old_records[p].id@, id@));
                assert(old_records[p].id@ != id@);
                lemma_id_lt_total(old_records[p].id@, id@);
                if j > p {
                    lemma_id_lt_transitive(id@, old_records[p].id@, old_records[j].id@);
                }
            }
        }
        self.records.insert(pos, rec);
        self.model = Ghost(self.model@.insert(id@, (spec@, state@)));
        proof {
            let p = pos as int;
            assert(self.records@[p].id@ == id@);
            assert forall|j: int| 0 <= j < self.records@.len() && j != p implies #[trigger] self.records@[j]
                == old_records[if j < p { j } else { j - 1 }] by {}
            assert forall|k: Seq<char>| #[trigger] self.model@.contains_key(k) implies exists|i: int|
                0 <= i < self.records@.len() && self.records@[i].id@ == k by {
                if k != id@ {
                    assert(old_model.contains_key(k));
                    let i = choose|i: int| 0 <= i < old_records.len() && old_records[i].id@ == k;
                    let i1 = if i < p { i } else { i + 1 };
                    assert(self.records@[i1].id@ == k);
                }
            }
            assert forall|i: int| 0 <= i < self.records@.len() implies {
                let r = #[trigger] self.records@[i];
                &&& self.model@.contains_key(r.id@)
                &&& self.model@[r.id@] == (r.spec@, r.state@)
            } by {
                if i != p {
                    let i0 = if i < p { i } else { i - 1 };
                    assert(self.records@[i] == old_records[i0]);
                    if i0 < p {
                        assert(id_lt(old_records[i0].id@, id@));
                    } else {
                        assert(id_lt(id@, old_records[i0].id@));
                    }
                    lemma_id_lt_irreflexive(id@);
                }
            }
            assert forall|a: int, b: int| 0 <= a < b < self.records@.len() implies id_lt(
                self.records@[a].id@,
                self.records@[b].id@,
            ) by {
                let a0 = if a < p { a } else { a - 1 };
                let b0 = if b < p { b } else { b - 1 };
                if a == p {
                    assert(self.records@[b] == old_records[b0]);
                } else if b == p {
                    assert(self.records@[a] == old_records[a0]);
                } else {
                    assert(self.records@[a] == old_records[a0]);
                    assert(self.records@[b] == old_records[b0]);
                }
            }
        }
        Ok(())
    }

    /// The spec stored for `id`.
    pub fn load_spec(&self, id: &str) -> (r: Result<Spec, RuntimeError>)
        requires
            self.wf(),
        ensures
            !self@.contains_key(id@) ==> (r matches Err(RuntimeError::NotFound(e)) && e@ == id@),
            self@.contains_key(id@) ==> (r matches Ok(s) && s@ == self@[id@].0),
    {
        match self.find(id) {
            Some(i) => Ok(self.records[i].spec.duplicate()),
            None => Err(RuntimeError::NotFound(String::from_str(id))),
        }
    }

    /// The state stored for `id`.
    pub fn load_state(&self, id: &str) -> (r: Result<State, RuntimeError>)
        requires
            self.wf(),
        ensures
            !self@.contains_key(id@) ==> (r matches Err(RuntimeError::NotFound(e)) && e@ == id@),
            self@.contains_key(id@) ==> (r matches Ok(s) && s@ == self@[id@].1),
    {
        match self.find(id) {
            Some(i) => Ok(self.records[i].state.duplicate()),
            None => Err(RuntimeError::NotFound(String::from_str(id))),
        }
    }

    /// Overwrites the state stored for `id`; fails, changing nothing, if
    /// there is no record for `id`.
    pub fn save_state(&mut self, id: &str, state: &State) -> (r: Result<(), RuntimeError>)
        requires
            old(self).wf(),
        ensures
            final(self).wf(),
            !old(self)@.contains_key(id@) ==> (r matches Err(RuntimeError::NotFound(e)) && e@ == id@),
            !old(self)@.contains_key(id@) ==> final(self)@ == old(self)@,
            old(self)@.contains_key(id@) ==> r is Ok,
            old(self)@.contains_key(id@) ==> final(self)@ == old(self)@.insert(
                id@,
                (old(self)@[id@].0, state@),
            ),
    {
        match self.find(id) {
            None => Err(RuntimeError::NotFound(String::from_str(id))),
            Some(i) => {
                let ghost old_records = self.records@;
                let ghost old_model = self.model@;
                self.records[i].state = state.duplicate();
                self.model = Ghost(self.model@.insert(id@, (old_model[id@].0, state@)));
                proof {
                    assert forall|k: Seq<char>| #[trigger] self.model@.contains_key(k) implies exists|j: int|
                        0 <= j < self.records@.len() && self.records@[j].id@ == k by {
                        if k == id@ {
                            assert(self.records@[i as int].id@ == k);
                        } else {
                            let j = choose|j: int| 0 <= j < old_records.len() && old_records[j].id@ == k;
                            assert(self.records@[j].id@ == old_records[j].id@);
                        }
                    }
                    assert forall|j: int| 0 <= j < self.records@.len() implies {
                        let r = #[trigger] self.records@[j];
                        &&& self.model@.contains_key(r.id@)
                        &&& self.model@[r.id@] == (r.spec@, r.state@)
                    } by {
                        if j != i {
                            assert(self.records@[j] == old_records[j]);
                            if j < i {
                                assert(id_lt(old_records[j].id@, old_records[i as int].id@));
                            } else {
                                assert(id_lt(old_records[i as int].id@, old_records[j].id@));
                            }
                            lemma_id_lt_irreflexive(id@);
                        }
                    }
                }
                Ok(())
            },
        }
    }

    /// Removes the record for `id`, if there is one.
    pub fn remove(&mut self, id: &str)
        requires
            old(self).wf(),
        ensures
            final(self).wf(),
            final(self)@ == old(self)@.remove(id@),
    {
        match self.find(id) {
            None => {
                assert(self.model@.remove(id@) =~= self.model@);
            },
            Some(i) => {
                let ghost old_records = self.records@;
                let ghost old_model = self.model@;
                self.records.remove(i);
                self.model = Ghost(self.model@.remove(id@));
                proof {
                    assert forall|k: Seq<char>| #[trigger] self.model@.contains_key(k) implies exists|j: int|
                        0 <= j < self.records@.len() && self.records@[j].id@ == k by {
                        assert(old_model.contains_key(k));
                        let j = choose|j: int| 0 <= j < old_records.len() && old_records[j].id@ == k;
                        assert(j != i);
                        if j < i {
                            assert(self.records@[j] == old_records[j]);
                        } else {
                            assert(self.records@[j - 1] == old_records[j]);
                        }
                    }
                    assert forall|j: int| 0 <= j < self.records@.len() implies {
                        let r = #[trigger] self.records@[j];
                        &&& self.model@.contains_key(r.id@)
                        &&& self.model@[r.id@] == (r.spec@, r.state@)
                    } by {
                        let j0 = if j < i { j } else { j + 1 };
                        assert(self.records@[j] == old_records[j0]);
                        if j0 < i {
                            assert(id_lt(old_records[j0].id@, old_records[i as int].id@));
                        } else {
                            assert(id_lt(old_records[i as int].id@, old_records[j0].id@));
                        }
                        lemma_id_lt_irreflexive(id@);
                    }
                    assert forall|a: int, b: int| 0 <= a < b < self.records@.len() implies
                        id_lt(self.records@[a].id@, self.records@[b].id@) by {
                        let a0 = if a < i { a } else { a + 1 };
                        let b0 = if b < i { b } else { b + 1 };
                        assert(self.records@[a] == old_records[a0]);
                        assert(self.records@[b] == old_records[b0]);
                    }
                }
            },
        }
    }

    /// The ids that have a record, in id order, each once.
    pub fn list_ids(&self) -> (r: Vec<String>)
        requires
            self.wf(),
        ensures
            forall|i: int| 0 <= i < r@.len() ==> self@.contains_key(#[trigger] r@[i]@),
            forall|k: Seq<char>| #[trigger] self@.contains_key(k) ==> exists|i: int|
                0 <= i < r@.len() && r@[i]@ == k,
            forall|i: int, j: int| 0 <= i < j < r@.len() ==> id_lt(r@[i]@, r@[j]@),
            forall|i: int, j: int| 0 <= i < j < r@.len() ==> r@[i]@ != r@[j]@,
    {
        let mut r: Vec<String> = Vec::new();
        let mut i: usize = 0;
        while i < self.records.len()
            invariant
                self.wf(),
                i <= self.records@.len(),
                r@.len() == i,
                forall|j: int| 0 <= j < i ==> r@[j]@ == #[trigger] self.records@[j].id@,
            decreases self.records@.len() - i,
        {
            r.push(self.records[i].id.clone());
            i += 1;
        }
        proof {
            assert forall|k: Seq<char>| #[trigger] self@.contains_key(k) implies exists|j: int|
                0 <= j < r@.len() && r@[j]@ == k by {
                let j = choose|j: int| 0 <= j < self.records@.len() && self.records@[j].id@ == k;
                assert(r@[j]@ == self.records@[j].id@);
            }
            assert forall|a: int| 0 <= a < r@.len() implies self@.contains_key(#[trigger] r@[a]@) by {
                assert(r@[a]@ == self.records@[a].id@);
            }
            assert forall|a: int, b: int| 0 <= a < b < r@.len() implies id_lt(r@[a]@, r@[b]@) by {
                assert(r@[a]@ == self.records@[a].id@);
                assert(r@[b]@ == self.records@[b].id@);
            }
            assert forall|a: int, b: int| 0 <= a < b < r@.len() implies r@[a]@ != r@[b]@ by {
                assert(id_lt(r@[a]@, r@[b]@));
                lemma_id_lt_irreflexive(r@[a]@);
            }
        }
        r
    }
}

} // verus!
