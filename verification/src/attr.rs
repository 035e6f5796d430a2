use vstd::prelude::*;

verus! {

/// The value of one attribute of a DynamoDB item, as far as the weather
/// logic reads it: a string (`S`), a number (`N`), or any other kind.
///
/// A number holds the bit pattern of the `f64` that its text denotes, or
/// `None` when its text is not a valid `f64`.
pub enum AttrValue {
    S(String),
    N(Option<u64>),
    Other,
}

/// The mathematical value of an [`AttrValue`].
pub enum AttrModel {
    S(Seq<char>),
    N(Option<u64>),
    Other,
}

impl View for AttrValue {
    type V = AttrModel;

    open spec fn view(&self) -> AttrModel {
        match self {
            AttrValue::S(s) => AttrModel::S(s@),
            AttrValue::N(n) => AttrModel::N(*n),
            AttrValue::Other => AttrModel::Other,
        }
    }
}

/// Whether some entry of `es` is named `k`.
pub open spec fn has_name(es: Seq<(String, AttrValue)>, k: Seq<char>) -> bool {
    exists|i: int| 0 <= i < es.len() && (#[trigger] es[i]).0@ == k
}

/// No two entries of `es` carry the same name.
pub open spec fn names_distinct(es: Seq<(String, AttrValue)>) -> bool {
    forall|i: int, j: int|
        0 <= i < es.len() && 0 <= j < es.len() && i != j ==> (#[trigger] es[i]).0@ != (
        #[trigger] es[j]).0@
}

/// The map from names to values that the entries `es` describe.
pub open spec fn entries_map(es: Seq<(String, AttrValue)>) -> Map<Seq<char>, AttrModel> {
    Map::new(
        |k: Seq<char>| has_name(es, k),
        |k: Seq<char>| es[choose|i: int| 0 <= i < es.len() && (#[trigger] es[i]).0@ == k].1@,
    )
}

/// A DynamoDB item: a map from attribute names to attribute values.
pub struct Record {
    entries: Vec<(String, AttrValue)>,
}

impl Record {
    #[verifier::type_invariant]
    spec fn names_are_distinct(self) -> bool {
        names_distinct(self.entries@)
    }

    /// The entries of the record, in the order they were first inserted.
    pub closed spec fn entry_seq(self) -> Seq<(String, AttrValue)> {
        self.entries@
    }
}

impl View for Record {
    type V = Map<Seq<char>, AttrModel>;

    closed spec fn view(&self) -> Map<Seq<char>, AttrModel> {
        entries_map(self.entries@)
    }
}

proof fn lemma_lookup(es: Seq<(String, AttrValue)>, i: int)
    requires
        names_distinct(es),
        0 <= i < es.len(),
    ensures
        entries_map(es).contains_key(es[i].0@),
        entries_map(es)[es[i].0@] == es[i].1@,
{
    let k = es[i].0@;
    assert(has_name(es, k));
    let j = choose|j: int| 0 <= j < es.len() && (#[trigger] es[j]).0@ == k;
    assert(j == i);
}

impl Record {
    /// An item with no attributes.
    pub fn new() -> (r: Record)
        ensures
            r@ == Map::<Seq<char>, AttrModel>::empty(),
    {
        let r = Record { entries: Vec::new() };
        assert(r@ =~= Map::<Seq<char>, AttrModel>::empty());
        r
    }

    /// The number of attributes.
    pub fn len(&self) -> (n: usize)
        ensures
            n == self@.len(),
            n == self.entry_seq().len(),
    {
        proof {
            use_type_invariant(self);
            self.lemma_len();
        }
        self.entries.len()
    }

    proof fn lemma_len(self)
        requires
            names_distinct(self.entries@),
        ensures
            self@.dom().finite(),
            self@.len() == self.entries@.len(),
    {
        let es = self.entries@;
        let names = es.map_values(|e: (String, AttrValue)| e.0@);
        assert(self@.dom() =~= names.to_set()) by {
            assert forall|k: Seq<char>| self@.dom().contains(k) implies names.to_set().contains(
                k,
            ) by {
                let i = choose|i: int| 0 <= i < es.len() && (#[trigger] es[i]).0@ == k;
                assert(names[i] == k);
            }
            assert forall|k: Seq<char>| names.to_set().contains(k) implies self@.dom().contains(
                k,
            ) by {
                let i = choose|i: int| 0 <= i < names.len() && names[i] == k;
                assert(es[i].0@ == k);
            }
        }
        assert(names.no_duplicates()) by {
            assert forall|i: int, j: int|
                0 <= i < names.len() && 0 <= j < names.len() && i != j implies names[i]
                != names[j] by {
                assert(es[i].0@ != es[j].0@);
            }
        }
        names.unique_seq_to_set();
    }

    /// The `i`-th entry, in the order the names were first inserted.
    pub fn entry(&self, i: usize) -> (e: (&String, &AttrValue))
        requires
            i < self.entry_seq().len(),
        ensures
            e.0@ == self.entry_seq()[i as int].0@,
            e.1@ == self.entry_seq()[i as int].1@,
            self@.contains_key(e.0@),
            self@[e.0@] == e.1@,
    {
        proof {
            use_type_invariant(self);
            lemma_lookup(self.entries@, i as int);
        }
        (&self.entries[i].0, &self.entries[i].1)
    }

    /// The position of the entry named `name`, if there is one.
    fn position(&self, name: &String) -> (r: Option<usize>)
        ensures
            match r {
                Some(i) => i < self.entries@.len() && self.entries@[i as int].0@ == name@,
                None => !has_name(self.entries@, name@),
            },
    {
        let n = self.entries.len();
        let mut i: usize = 0;
        while i < n
            invariant
                n == self.entries@.len(),
                i <= n,
                forall|j: int| 0 <= j < i ==> (#[trigger] self.entries@[j]).0@ != name@,
            decreases n - i,
        {
            if self.entries[i].0 == *name {
                return Some(i);
            }
            i = i + 1;
        }
        None
    }

    /// The value of the attribute `name`, if the item has one.
    pub fn get(&self, name: &str) -> (r: Option<&AttrValue>)
        ensures
            match r {
                Some(v) => self@.contains_key(name@) && v@ == self@[name@],
                None => !self@.contains_key(name@),
            },
    {
        proof {
            use_type_invariant(self);
        }
        let key = String::from_str(name);
        match self.position(&key) {
            Some(i) => {
                proof {
                    lemma_lookup(self.entries@, i as int);
                }
                Some(&self.entries[i].1)
            },
            None => None,
        }
    }

    /// Sets the attribute `name` to `value`, replacing the value it had.
    pub fn insert(&mut self, name: String, value: AttrValue)
        ensures
            final(self)@ == old(self)@.insert(name@, value@),
    {
        proof {
            use_type_invariant(&*self);
        }
        let ghost old_es = self.entries@;
        let ghost k = name@;
        let found = self.position(&name);
        let mut es_exec: Vec<(String, AttrValue)> = Vec::new();
        std::mem::swap(&mut es_exec, &mut self.entries);
        match found {
            Some(i) => {
                es_exec.set(i, (name, value));
                self.entries = es_exec;
                let ghost es = self.entries@;
                assert(names_distinct(es)) by {
                    assert forall|a: int, b: int|
                        0 <= a < es.len() && 0 <= b < es.len() && a != b implies (
                    #[trigger] es[a]).0@ != (#[trigger] es[b]).0@ by {
                        if a != i as int && b != i as int {
                            assert(es[a] == old_es[a] && es[b] == old_es[b]);
                        } else if a == i as int {
                            assert(es[b] == old_es[b]);
                            assert(old_es[a].0@ != old_es[b].0@);
                        } else {
                            assert(es[a] == old_es[a]);
                            assert(old_es[a].0@ != old_es[b].0@);
                        }
                    }
                }
                proof {
                    self.lemma_after_update(old_es, i as int, k);
                }
            },
            None => {
                es_exec.push((name, value));
                self.entries = es_exec;
                let ghost es = self.entries@;
                assert(names_distinct(es)) by {
                    assert forall|a: int, b: int|
                        0 <= a < es.len() && 0 <= b < es.len() && a != b implies (
                    #[trigger] es[a]).0@ != (#[trigger] es[b]).0@ by {
                        if a < old_es.len() && b < old_es.len() {
                            assert(es[a] == old_es[a] && es[b] == old_es[b]);
                        } else if a < old_es.len() {
                            assert(es[a] == old_es[a]);
                        } else {
                            assert(es[b] == old_es[b]);
                        }
                    }
                }
                proof {
                    self.lemma_after_push(old_es, k);
                }
            },
        }
    }

    proof fn lemma_after_update(self, old_es: Seq<(String, AttrValue)>, i: int, k: Seq<char>)
        requires
            names_distinct(old_es),
            names_distinct(self.entries@),
            0 <= i < old_es.len(),
            old_es[i].0@ == k,
            self.entries@ == old_es.update(i, self.entries@[i]),
            self.entries@[i].0@ == k,
        ensures
            self@ == entries_map(old_es).insert(k, self.entries@[i].1@),
    {
        let es = self.entries@;
        let m = entries_map(old_es).insert(k, es[i].1@);
        assert forall|key: Seq<char>| #[trigger] self@.contains_key(key) <==> m.contains_key(key) by {
            if has_name(es, key) {
                let j = choose|j: int| 0 <= j < es.len() && (#[trigger] es[j]).0@ == key;
                if j != i {
                    assert(old_es[j] == es[j]);
                }
            }
            if has_name(old_es, key) {
                let j = choose|j: int| 0 <= j < old_es.len() && (#[trigger] old_es[j]).0@ == key;
                if j != i {
                    assert(old_es[j] == es[j]);
                } else {
                    assert(es[i].0@ == key);
                }
            }
            if key == k {
                assert(es[i].0@ == key);
            }
        }
        assert forall|key: Seq<char>| #[trigger] self@.contains_key(key) implies self@[key]
            == m[key] by {
            let j = choose|j: int| 0 <= j < es.len() && (#[trigger] es[j]).0@ == key;
            lemma_lookup(es, j);
            if j != i {
                assert(old_es[j] == es[j]);
                lemma_lookup(old_es, j);
            }
        }
        assert(self@ =~= m);
    }

    proof fn lemma_after_push(self, old_es: Seq<(String, AttrValue)>, k: Seq<char>)
        requires
            names_distinct(old_es),
            names_distinct(self.entries@),
            !has_name(old_es, k),
            self.entries@.len() == old_es.len() + 1,
            forall|j: int| 0 <= j < old_es.len() ==> self.entries@[j] == old_es[j],
            self.entries@.last().0@ == k,
        ensures
            self@ == entries_map(old_es).insert(k, self.entries@.last().1@),
    {
        let es = self.entries@;
        let n = old_es.len() as int;
        let m = entries_map(old_es).insert(k, es[n].1@);
        assert forall|key: Seq<char>| #[trigger] self@.contains_key(key) <==> m.contains_key(key) by {
            if has_name(es, key) {
                let j = choose|j: int| 0 <= j < es.len() && (#[trigger] es[j]).0@ == key;
                if j < n {
                    assert(old_es[j] == es[j]);
                }
            }
            if has_name(old_es, key) {
                let j = choose|j: int| 0 <= j < old_es.len() && (#[trigger] old_es[j]).0@ == key;
                assert(es[j] == old_es[j]);
            }
            if key == k {
                assert(es[n].0@ == key);
            }
        }
        assert forall|key: Seq<char>| #[trigger] self@.contains_key(key) implies self@[key]
            == m[key] by {
            let j = choose|j: int| 0 <= j < es.len() && (#[trigger] es[j]).0@ == key;
            lemma_lookup(es, j);
            if j < n {
                assert(old_es[j] == es[j]);
                lemma_lookup(old_es, j);
            }
        }
        assert(self@ =~= m);
    }
}

} // verus!
