//! A table of values by name, in which no name occurs twice: what the
//! tool and skill registries keep their entries in.

use vstd::prelude::*;

verus! {

/// Whether two texts are equal.
pub fn text_eq(a: &str, b: &str) -> (r: bool)
    ensures
        r == (a@ == b@),
{
    let n = a.unicode_len();
    if n != b.unicode_len() {
        return false;
    }
    let mut i: usize = 0;
    while i < n
        invariant
            n == a@.len(),
            n == b@.len(),
            i <= n,
            forall|j: int| 0 <= j < i ==> a@[j] == b@[j],
        decreases n - i,
    {
        if a.get_char(i) != b.get_char(i) {
            return false;
        }
        i = i + 1;
    }
    assert(a@ =~= b@);
    true
}

/// Values by name, in the order in which their names were first added.
pub struct NameTable<T> {
    entries: Vec<(String, T)>,
}

impl<T> NameTable<T> {
    /// The names, in order.
    pub closed spec fn names(&self) -> Seq<Seq<char>> {
        self.entries@.map_values(|e: (String, T)| e.0@)
    }

    /// No name occurs twice.
    pub closed spec fn wf(&self) -> bool {
        forall|i: int, j: int|
            0 <= i < j < self.entries@.len() ==> #[trigger] self.entries@[i].0@ != #[trigger] self.entries@[j].0@
    }

    /// The value under each name.
    pub closed spec fn view(&self) -> Map<Seq<char>, T> {
        Map::new(
            |n: Seq<char>| exists|i: int| 0 <= i < self.entries@.len() && #[trigger] self.entries@[i].0@ == n,
            |n: Seq<char>| self.entries@[choose|i: int| 0 <= i < self.entries@.len() && #[trigger] self.entries@[i].0@ == n].1,
        )
    }

    /// The values, in the order of their names.
    pub closed spec fn values(&self) -> Seq<T> {
        self.entries@.map_values(|e: (String, T)| e.1)
    }

    proof fn lemma_index(&self, i: int)
        requires
            self.wf(),
            0 <= i < self.entries@.len(),
        ensures
            self.view().dom().contains(self.entries@[i].0@),
            self.view()[self.entries@[i].0@] == self.entries@[i].1,
    {
        let n = self.entries@[i].0@;
        assert(self.view().dom().contains(n));
        let k = choose|k: int| 0 <= k < self.entries@.len() && #[trigger] self.entries@[k].0@ == n;
        assert(k == i);
    }

    /// The names are those of the table's domain, each once, and the values
    /// follow them.
    pub proof fn lemma_names(&self)
        requires
            self.wf(),
        ensures
            self.names().no_duplicates(),
            self.names().len() == self.values().len(),
            forall|n: Seq<char>| self.view().dom().contains(n) <==> self.names().contains(n),
            forall|i: int| 0 <= i < self.names().len() ==> self.view()[#[trigger] self.names()[i]] == self.values()[i],
            self.view().dom().finite(),
            self.view().dom().len() == self.names().len(),
    {
        assert forall|i: int| 0 <= i < self.names().len() implies self.view()[#[trigger] self.names()[i]] == self.values()[i] by {
            self.lemma_index(i);
        }
        assert forall|n: Seq<char>| self.view().dom().contains(n) <==> self.names().contains(n) by {
            if self.view().dom().contains(n) {
                let k = choose|k: int| 0 <= k < self.entries@.len() && #[trigger] self.entries@[k].0@ == n;
                assert(self.names()[k] == n);
            }
            if self.names().contains(n) {
                let k = choose|k: int| 0 <= k < self.names().len() && self.names()[k] == n;
                assert(self.entries@[k].0@ == n);
            }
        }
        assert(self.view().dom() =~= self.names().to_set());
        self.names().unique_seq_to_set();
    }

    /// An empty table.
    pub fn new() -> (t: Self)
        ensures
            t.wf(),
            t.view() == Map::<Seq<char>, T>::empty(),
            t.names() == Seq::<Seq<char>>::empty(),
    {
        let t = NameTable { entries: Vec::new() };
        assert(t.view() =~= Map::<Seq<char>, T>::empty());
        assert(t.names() =~= Seq::<Seq<char>>::empty());
        t
    }

    /// The position of a name, if present.
    fn find(&self, name: &str) -> (r: Option<usize>)
        requires
            self.wf(),
        ensures
            match r {
                Some(i) => i < self.entries@.len() && self.entries@[i as int].0@ == name@,
                None => !self.view().dom().contains(name@),
            },
    {
        let mut i: usize = 0;
        while i < self.entries.len()
            invariant
                i <= self.entries@.len(),
                forall|j: int| 0 <= j < i ==> self.entries@[j].0@ != name@,
            decreases self.entries@.len() - i,
        {
            if text_eq(self.entries[i].0.as_str(), name) {
                return Some(i);
            }
            i = i + 1;
        }
        None
    }

    /// Puts `value` under `name`, replacing the value there; a new name
    /// goes last.
    pub fn insert(&mut self, name: String, value: T)
        requires
            old(self).wf(),
        ensures
            final(self).wf(),
            final(self).view() == old(self).view().insert(name@, value),
            old(self).view().dom().contains(name@) ==> final(self).names() == old(self).names(),
            !old(self).view().dom().contains(name@) ==> final(self).names() == old(self).names().push(name@),
    {
        match self.find(name.as_str()) {
            Some(i) => {
                let ghost n = name@;
                let ghost before = self.entries@;
                self.entries.set(i, (name, value));
                assert(self.wf());
                assert forall|m: Seq<char>| #![auto] self.view().dom().contains(m) <==> old(self).view().insert(n, value).dom().contains(m) by {
                    if m != n && old(self).view().dom().contains(m) {
                        let k = choose|k: int| 0 <= k < before.len() && #[trigger] before[k].0@ == m;
                        assert(self.entries@[k].0@ == m);
                    }
                    if self.view().dom().contains(m) && m != n {
                        let k = choose|k: int| 0 <= k < self.entries@.len() && #[trigger] self.entries@[k].0@ == m;
                        assert(before[k].0@ == m);
                    }
                    if m == n {
                        assert(self.entries@[i as int].0@ == n);
                    }
                }
                assert forall|m: Seq<char>| #![auto] self.view().dom().contains(m) implies self.view()[m] == old(self).view().insert(n, value)[m] by {
                    let k = choose|k: int| 0 <= k < self.entries@.len() && #[trigger] self.entries@[k].0@ == m;
                    self.lemma_index(k);
                    if m != n {
                        assert(k != i);
                        old(self).lemma_index(k);
                    } else {
                        assert(k == i);
                    }
                }
                assert(self.view() =~= old(self).view().insert(n, value));
                assert(self.names() =~= old(self).names());
            },
            None => {
                let ghost n = name@;
                self.entries.push((name, value));
                assert(self.wf());
                assert forall|m: Seq<char>| #![auto] self.view().dom().contains(m) <==> old(self).view().insert(n, value).dom().contains(m) by {
                    if m != n && old(self).view().dom().contains(m) {
                        let k = choose|k: int| 0 <= k < old(self).entries@.len() && #[trigger] old(self).entries@[k].0@ == m;
                        assert(self.entries@[k].0@ == m);
                    }
                    if m == n {
                        assert(self.entries@[self.entries@.len() - 1].0@ == n);
                    }
                }
                assert forall|m: Seq<char>| #![auto] self.view().dom().contains(m) implies self.view()[m] == old(self).view().insert(n, value)[m] by {
                    let k = choose|k: int| 0 <= k < self.entries@.len() && #[trigger] self.entries@[k].0@ == m;
                    self.lemma_index(k);
                    if m != n {
                        old(self).lemma_index(k);
                    }
                }
                assert(self.view() =~= old(self).view().insert(n, value));
                assert(self.names() =~= old(self).names().push(n));
            },
        }
    }

    /// The value under `name`, if any.
    pub fn get(&self, name: &str) -> (r: Option<&T>)
        requires
            self.wf(),
        ensures
            match r {
                Some(v) => self.view().dom().contains(name@) && *v == self.view()[name@],
                None => !self.view().dom().contains(name@),
            },
    {
        match self.find(name) {
            Some(i) => {
                proof {
                    self.lemma_index(i as int);
                }
                Some(&self.entries[i].1)
            },
            None => None,
        }
    }

    /// Removes the entry under `name`; says whether there was one.
    pub fn remove(&mut self, name: &str) -> (removed: bool)
        requires
            old(self).wf(),
        ensures
            final(self).wf(),
            removed == old(self).view().dom().contains(name@),
            final(self).view() == old(self).view().remove(name@),
    {
        match self.find(name) {
            Some(i) => {
                let ghost n = name@;
                let ghost before = self.entries@;
                let _ = self.entries.remove(i);
                assert(self.entries@ =~= before.remove(i as int));
                assert(self.wf()) by {
                    assert forall|a: int, b: int| 0 <= a < b < self.entries@.len() implies #[trigger] self.entries@[a].0@ != #[trigger] self.entries@[b].0@ by {
                        let a0 = if a < i { a } else { a + 1 };
                        let b0 = if b < i { b } else { b + 1 };
                        assert(self.entries@[a] == before[a0]);
                        assert(self.entries@[b] == before[b0]);
                    }
                }
                assert(old(self).view().dom().contains(n)) by {
                    old(self).lemma_index(i as int);
                }
                assert forall|m: Seq<char>| #![auto] self.view().dom().contains(m) <==> old(self).view().remove(n).dom().contains(m) by {
                    if self.view().dom().contains(m) {
                        let k = choose|k: int| 0 <= k < self.entries@.len() && #[trigger] self.entries@[k].0@ == m;
                        let k0 = if k < i { k } else { k + 1 };
                        assert(before[k0].0@ == m);
                        assert(k0 != i);
                        assert(m != n);
                    }
                    if old(self).view().remove(n).dom().contains(m) {
                        let k0 = choose|k: int| 0 <= k < before.len() && #[trigger] before[k].0@ == m;
                        assert(k0 != i);
                        let k = if k0 < i { k0 } else { k0 - 1 };
                        assert(self.entries@[k].0@ == m);
                    }
                }
                assert forall|m: Seq<char>| #![auto] self.view().dom().contains(m) implies self.view()[m] == old(self).view().remove(n)[m] by {
                    let k = choose|k: int| 0 <= k < self.entries@.len() && #[trigger] self.entries@[k].0@ == m;
                    self.lemma_index(k);
                    let k0 = if k < i { k } else { k + 1 };
                    assert(before[k0] == self.entries@[k]);
                    old(self).lemma_index(k0);
                }
                assert(self.view() =~= old(self).view().remove(n));
                true
            },
            None => {
                assert(self.view() =~= old(self).view().remove(name@));
                false
            },
        }
    }

    /// The number of entries.
    pub fn len(&self) -> (n: usize)
        requires
            self.wf(),
        ensures
            n == self.view().dom().len(),
    {
        proof {
            self.lemma_names();
        }
        self.entries.len()
    }

    /// The value at position `i` (in the order of the names).
    pub fn value_at(&self, i: usize) -> (v: &T)
        requires
            i < self.values().len(),
        ensures
            *v == self.values()[i as int],
    {
        &self.entries[i].1
    }
}

} // verus!

verus! {

/// A sequence of operations on a name table: `(name, Some(v))` puts `v`
/// under `name`, `(name, None)` removes `name`.
pub open spec fn apply_ops<T>(ops: Seq<(Seq<char>, Option<T>)>) -> Map<Seq<char>, T>
    decreases ops.len(),
{
    if ops.len() == 0 {
        Map::empty()
    } else {
        let prev = apply_ops(ops.drop_last());
        match ops.last().1 {
            Some(v) => prev.insert(ops.last().0, v),
            None => prev.remove(ops.last().0),
        }
    }
}

/// The position of the last operation on `name`, or -1 where none is.
pub open spec fn last_op_index<T>(ops: Seq<(Seq<char>, Option<T>)>, name: Seq<char>) -> int
    decreases ops.len(),
{
    if ops.len() == 0 {
        -1
    } else if ops.last().0 == name {
        ops.len() - 1
    } else {
        last_op_index(ops.drop_last(), name)
    }
}

/// Starting from an empty table, after a sequence of operations a name is
/// present exactly when the last operation on it put a value there, and
/// then holds that value; a name no operation touched is absent.
pub proof fn lemma_apply_ops<T>(ops: Seq<(Seq<char>, Option<T>)>, name: Seq<char>)
    ensures
        -1 <= last_op_index(ops, name) < ops.len(),
        last_op_index(ops, name) >= 0 ==> ops[last_op_index(ops, name)].0 == name,
        forall|j: int| last_op_index(ops, name) < j < ops.len() ==> ops[j].0 != name,
        last_op_index(ops, name) == -1 ==> !apply_ops(ops).dom().contains(name),
        last_op_index(ops, name) >= 0 ==> (apply_ops(ops).dom().contains(name)
            <==> ops[last_op_index(ops, name)].1 is Some),
        last_op_index(ops, name) >= 0 && ops[last_op_index(ops, name)].1 is Some ==> apply_ops(ops)[name]
            == ops[last_op_index(ops, name)].1->Some_0,
    decreases ops.len(),
{
    if ops.len() > 0 {
        lemma_apply_ops(ops.drop_last(), name);
        let k = last_op_index(ops.drop_last(), name);
        if ops.last().0 != name {
            assert forall|j: int| last_op_index(ops, name) < j < ops.len() implies ops[j].0 != name by {
                if j < ops.len() - 1 {
                    assert(ops.drop_last()[j] == ops[j]);
                }
            }
            if k >= 0 {
                assert(ops.drop_last()[k] == ops[k]);
            }
        }
    }
}

/// A sequence of table states, each following from the one before by the
/// operation at its position, starting empty, ends in `apply_ops(ops)`.
pub proof fn lemma_states_follow_ops<T>(states: Seq<Map<Seq<char>, T>>, ops: Seq<(Seq<char>, Option<T>)>)
    requires
        states.len() == ops.len() + 1,
        states[0] == Map::<Seq<char>, T>::empty(),
        forall|i: int|
            0 <= i < ops.len() ==> #[trigger] states[i + 1] == match ops[i].1 {
                Some(v) => states[i].insert(ops[i].0, v),
                None => states[i].remove(ops[i].0),
            },
    ensures
        forall|i: int| 0 <= i <= ops.len() ==> #[trigger] states[i] == apply_ops(ops.take(i)),
{
    assert forall|i: int| 0 <= i <= ops.len() implies #[trigger] states[i] == apply_ops(ops.take(i)) by {
        lemma_state_at(states, ops, i);
    }
}

proof fn lemma_state_at<T>(states: Seq<Map<Seq<char>, T>>, ops: Seq<(Seq<char>, Option<T>)>, i: int)
    requires
        states.len() == ops.len() + 1,
        states[0] == Map::<Seq<char>, T>::empty(),
        forall|i: int|
            0 <= i < ops.len() ==> #[trigger] states[i + 1] == match ops[i].1 {
                Some(v) => states[i].insert(ops[i].0, v),
                None => states[i].remove(ops[i].0),
            },
        0 <= i <= ops.len(),
    ensures
        states[i] == apply_ops(ops.take(i)),
    decreases i,
{
    if i == 0 {
        assert(apply_ops(ops.take(0)) =~= Map::<Seq<char>, T>::empty());
    } else {
        lemma_state_at(states, ops, i - 1);
        assert(ops.take(i).drop_last() =~= ops.take(i - 1));
        assert(ops.take(i).last() == ops[i - 1]);
        assert(states[(i - 1) + 1] == states[i]);
    }
}

} // verus!
