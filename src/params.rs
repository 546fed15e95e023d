//! Named text parameters of a request: its query string or its form body.

use vstd::prelude::*;

verus! {

/// Relies on `<str as PartialEq>::eq`: two string slices are equal exactly
/// when they hold the same characters.
pub assume_specification[ <str as PartialEq>::eq ](a: &str, b: &str) -> (r: bool)
    ensures
        r == (a@ == b@),
;

/// Parameters by name; each name occurs at most once.
#[derive(Debug)]
pub struct Params {
    entries: Vec<(String, String)>,
}

/// There is an entry named `k` in `entries`.
pub open spec fn has_name(entries: Seq<(String, String)>, k: Seq<char>) -> bool {
    exists|i: int| 0 <= i < entries.len() && (#[trigger] entries[i]).0@ == k
}

impl Params {
    /// Each name occurs once.
    pub closed spec fn wf(self) -> bool {
        forall|i: int, j: int|
            0 <= i < j < self.entries@.len() ==> (#[trigger] self.entries@[i]).0@
                != (#[trigger] self.entries@[j]).0@
    }

    proof fn lemma_view_at(self, i: int)
        requires
            self.wf(),
            0 <= i < self.entries@.len(),
        ensures
            self@.contains_key(self.entries@[i].0@),
            self@[self.entries@[i].0@] == self.entries@[i].1@,
    {
        let k = self.entries@[i].0@;
        assert(has_name(self.entries@, k));
        let j = choose|j: int| 0 <= j < self.entries@.len() && (#[trigger] self.entries@[j]).0@ == k;
        if j < i {
            assert(self.entries@[j].0@ != self.entries@[i].0@);
        } else if i < j {
            assert(self.entries@[i].0@ != self.entries@[j].0@);
        }
    }

    /// Writing an entry at `i`, over the entry of the same name or past the
    /// end when no entry has that name, keeps names unique and sets that name.
    proof fn lemma_written(before: Params, after: Params, i: int)
        requires
            before.wf(),
            0 <= i <= before.entries@.len(),
            i < before.entries@.len() ==> before.entries@[i].0@ == after.entries@[i].0@
                && after.entries@ == before.entries@.update(i, after.entries@[i]),
            i == before.entries@.len() ==> after.entries@ == before.entries@.push(
                after.entries@[i],
            ),
            forall|j: int|
                0 <= j < before.entries@.len() && j != i ==> (#[trigger] before.entries@[j]).0@
                    != after.entries@[i].0@,
        ensures
            after.wf(),
            after@ == before@.insert(after.entries@[i].0@, after.entries@[i].1@),
    {
        let old_entries = before.entries@;
        let new_entries = after.entries@;
        let n = old_entries.len();
        let name = new_entries[i].0@;
        let value = new_entries[i].1@;
        assert forall|a: int, b: int| 0 <= a < b < new_entries.len() implies (#[trigger] new_entries[a]).0@
            != (#[trigger] new_entries[b]).0@ by {
            if b < n && a != i && b != i {
                assert(old_entries[a].0@ != old_entries[b].0@);
            }
        }
        assert forall|k: Seq<char>| #[trigger] after@.contains_key(k) implies before@.contains_key(k)
            || k == name by {
            let j = choose|j: int| 0 <= j < new_entries.len() && (#[trigger] new_entries[j]).0@ == k;
            if j != i {
                assert(old_entries[j].0@ == k);
            }
        }
        assert forall|k: Seq<char>| #[trigger] before@.contains_key(k) implies after@.contains_key(k) by {
            let j = choose|j: int| 0 <= j < n && (#[trigger] old_entries[j]).0@ == k;
            assert(new_entries[j].0@ == k);
        }
        assert forall|k: Seq<char>| #[trigger] after@.contains_key(k) implies after@[k]
            == before@.insert(name, value)[k] by {
            let j = choose|j: int| 0 <= j < new_entries.len() && (#[trigger] new_entries[j]).0@ == k;
            after.lemma_view_at(j);
            if j != i {
                before.lemma_view_at(j);
            }
        }
        after.lemma_view_at(i);
        assert(after@ =~= before@.insert(name, value));
    }

    /// No parameters.
    pub fn new() -> (r: Params)
        ensures
            r@ == Map::<Seq<char>, Seq<char>>::empty(),
            r.wf(),
    {
        let r = Params { entries: Vec::new() };
        assert(r@ =~= Map::<Seq<char>, Seq<char>>::empty());
        r
    }

    /// Sets parameter `name` to `value`, replacing any earlier value.
    pub fn insert(&mut self, name: String, value: String)
        requires
            old(self).wf(),
        ensures
            final(self)@ == old(self)@.insert(name@, value@),
            final(self).wf(),
    {
        let ghost before = self.entries@;
        let n = self.entries.len();
        let mut i: usize = 0;
        while i < n
            invariant
                n == self.entries@.len(),
                self.entries@ == before,
                before == old(self).entries@,
                old(self).wf(),
                i <= n,
                forall|j: int| 0 <= j < i ==> (#[trigger] before[j]).0@ != name@,
            decreases n - i,
        {
            if self.entries[i].0 == name {
                self.entries.set(i, (name, value));
                proof {
                    Params::lemma_written(*old(self), *self, i as int);
                }
                return;
            }
            i = i + 1;
        }
        self.entries.push((name, value));
        proof {
            Params::lemma_written(*old(self), *self, n as int);
        }
    }

    /// The value of parameter `name`, if it is given.
    pub fn get(&self, name: &str) -> (r: Option<&String>)
        requires
            self.wf(),
        ensures
            r is Some <==> self@.contains_key(name@),
            r matches Some(v) ==> v@ == self@[name@],
    {
        let n = self.entries.len();
        let mut i: usize = 0;
        while i < n
            invariant
                n == self.entries@.len(),
                self.wf(),
                i <= n,
                forall|j: int| 0 <= j < i ==> (#[trigger] self.entries@[j]).0@ != name@,
            decreases n - i,
        {
            if self.entries[i].0.as_str().eq(name) {
                proof {
                    self.lemma_view_at(i as int);
                }
                return Some(&self.entries[i].1);
            }
            i = i + 1;
        }
        None
    }

    /// Whether parameter `name` is given.
    pub fn contains_key(&self, name: &str) -> (r: bool)
        requires
            self.wf(),
        ensures
            r == self@.contains_key(name@),
    {
        self.get(name).is_some()
    }

    /// Whether no parameter is given.
    pub fn is_empty(&self) -> (r: bool)
        requires
            self.wf(),
        ensures
            r == (self@ == Map::<Seq<char>, Seq<char>>::empty()),
    {
        if self.entries.len() == 0 {
            assert(self@ =~= Map::<Seq<char>, Seq<char>>::empty());
            true
        } else {
            proof {
                self.lemma_view_at(0);
            }
            false
        }
    }
}

impl View for Params {
    type V = Map<Seq<char>, Seq<char>>;

    closed spec fn view(&self) -> Map<Seq<char>, Seq<char>> {
        Map::new(
            |k: Seq<char>| has_name(self.entries@, k),
            |k: Seq<char>|
                self.entries@[choose|i: int|
                    0 <= i < self.entries@.len() && (#[trigger] self.entries@[i]).0@ == k].1@,
        )
    }
}

} // verus!
