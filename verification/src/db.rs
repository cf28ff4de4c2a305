//! The flag store: the names of users who have opted out of text transforms.

use crate::words::texts;
use vstd::prelude::*;

verus! {

/// The set of opted-out user names. No name is held twice.
pub struct Database {
    immuwune: Vec<String>,
}

impl View for Database {
    type V = Set<Seq<char>>;

    closed spec fn view(&self) -> Set<Seq<char>> {
        texts(self.immuwune@).to_set()
    }
}

impl Default for Database {
    fn default() -> (r: Database)
        ensures
            r@ == Set::<Seq<char>>::empty(),
    {
        Database::new()
    }
}

proof fn lemma_grown(names: Seq<String>, name: String)
    ensures
        texts(names.push(name)) == texts(names).push(name@),
        texts(names.push(name)).to_set() == texts(names).to_set().insert(name@),
{
    let more = texts(names.push(name));
    let less = texts(names);
    assert(more =~= less.push(name@));
    assert forall|t: Seq<char>| more.contains(t) <==> (less.contains(t) || t == name@) by {
        if less.contains(t) {
            let k = choose|k: int| 0 <= k < less.len() && less[k] == t;
            assert(more[k] == t);
        }
        assert(more[names.len() as int] == name@);
    }
    assert(more.to_set() =~= less.to_set().insert(name@));
}

proof fn lemma_shrunk(names: Seq<String>, at: int)
    requires
        texts(names).no_duplicates(),
        0 <= at < names.len(),
    ensures
        texts(names.remove(at)).no_duplicates(),
        texts(names.remove(at)).to_set() == texts(names).to_set().remove(names[at]@),
{
    let less = texts(names.remove(at));
    let more = texts(names);
    assert(less =~= more.remove(at));
    assert forall|i: int, j: int| 0 <= i < less.len() && 0 <= j < less.len() && i != j implies less[i]
        != less[j] by {
        let a = if i < at { i } else { i + 1 };
        let b = if j < at { j } else { j + 1 };
        assert(less[i] == more[a] && less[j] == more[b]);
    }
    assert forall|t: Seq<char>| less.contains(t) <==> (more.contains(t) && t != names[at]@) by {
        if less.contains(t) {
            let k = choose|k: int| 0 <= k < less.len() && less[k] == t;
            let a = if k < at { k } else { k + 1 };
            assert(more[a] == t);
            assert(more[at] == names[at]@);
        }
        if more.contains(t) && t != names[at]@ {
            let k = choose|k: int| 0 <= k < more.len() && more[k] == t;
            assert(more[at] == names[at]@);
            let a = if k < at { k } else { k - 1 };
            assert(less[a] == t);
        }
    }
    assert(less.to_set() =~= more.to_set().remove(names[at]@));
}

impl Database {
    #[verifier::type_invariant]
    spec fn each_name_once(self) -> bool {
        texts(self.immuwune@).no_duplicates()
    }

    /// An empty store.
    pub fn new() -> (r: Database)
        ensures
            r@ == Set::<Seq<char>>::empty(),
    {
        let r = Database { immuwune: Vec::new() };
        assert(r@ =~= Set::<Seq<char>>::empty());
        r
    }

    /// The store that holds exactly the given names. A name given twice is
    /// held once.
    pub fn from_names(names: Vec<String>) -> (r: Database)
        ensures
            r@ == texts(names@).to_set(),
    {
        let mut db = Database::new();
        let mut i: usize = 0;
        while i < names.len()
            invariant
                i <= names.len(),
                db@ == texts(names@.take(i as int)).to_set(),
            decreases names.len() - i,
        {
            proof {
                assert(names@.take(i as int + 1) =~= names@.take(i as int).push(names@[i as int]));
                lemma_grown(names@.take(i as int), names@[i as int]);
            }
            if !db.is_immune(names[i].as_str()) {
                db.toggle(names[i].clone());
            }
            assert(db@ =~= texts(names@.take(i as int + 1)).to_set());
            i += 1;
        }
        assert(names@.take(i as int) =~= names@);
        db
    }

    /// The names held, each once, in no particular order.
    pub fn names(&self) -> (r: Vec<String>)
        ensures
            texts(r@).to_set() == self@,
            texts(r@).no_duplicates(),
    {
        proof {
            use_type_invariant(self);
        }
        let mut out: Vec<String> = Vec::new();
        let mut i: usize = 0;
        while i < self.immuwune.len()
            invariant
                i <= self.immuwune.len(),
                out@.len() == i,
                texts(out@) == texts(self.immuwune@).take(i as int),
            decreases self.immuwune.len() - i,
        {
            let ghost copied = out@;
            out.push(self.immuwune[i].clone());
            proof {
                lemma_grown(copied, out@[i as int]);
                assert(texts(copied) == texts(self.immuwune@).take(i as int));
                assert(texts(out@) =~= texts(self.immuwune@).take(i as int + 1));
            }
            i += 1;
        }
        assert(texts(self.immuwune@).take(i as int) =~= texts(self.immuwune@));
        out
    }

    fn position(&self, name: &String) -> (r: Option<usize>)
        ensures
            match r {
                Some(at) => at < self.immuwune@.len() && self.immuwune@[at as int]@ == name@,
                None => !self@.contains(name@),
            },
    {
        let mut i: usize = 0;
        while i < self.immuwune.len()
            invariant
                i <= self.immuwune.len(),
                forall|j: int| 0 <= j < i ==> self.immuwune@[j]@ != name@,
            decreases self.immuwune.len() - i,
        {
            if self.immuwune[i] == *name {
                return Some(i);
            }
            i += 1;
        }
        proof {
            if texts(self.immuwune@).contains(name@) {
                let k = choose|k: int|
                    0 <= k < texts(self.immuwune@).len() && texts(self.immuwune@)[k] == name@;
                assert(self.immuwune@[k]@ == name@);
            }
        }
        None
    }

    /// Whether `name` has opted out.
    pub fn is_immune(&self, name: &str) -> (r: bool)
        ensures
            r == self@.contains(name@),
    {
        let wanted = name.to_owned();
        match self.position(&wanted) {
            Some(at) => {
                assert(texts(self.immuwune@)[at as int] == name@);
                true
            },
            None => false,
        }
    }

    /// Flips the flag of `name` and returns whether it is set afterwards:
    /// a name that was absent is added, one that was present is removed.
    pub fn toggle(&mut self, name: String) -> (r: bool)
        ensures
            r == !old(self)@.contains(name@),
            final(self)@ == if r {
                old(self)@.insert(name@)
            } else {
                old(self)@.remove(name@)
            },
    {
        proof {
            use_type_invariant(&*self);
        }
        let found = self.position(&name);
        let mut names: Vec<String> = Vec::new();
        std::mem::swap(&mut self.immuwune, &mut names);
        let now_set = match found {
            Some(at) => {
                proof {
                    assert(texts(names@)[at as int] == name@);
                    lemma_shrunk(names@, at as int);
                }
                names.remove(at);
                false
            },
            None => {
                proof {
                    lemma_grown(names@, name);
                    assert forall|i: int, j: int|
                        0 <= i < names@.len() + 1 && 0 <= j < names@.len() + 1 && i != j implies texts(
                        names@,
                    ).push(name@)[i] != texts(names@).push(name@)[j] by {
                        if i < names@.len() {
                            assert(texts(names@).contains(texts(names@)[i]));
                        }
                        if j < names@.len() {
                            assert(texts(names@).contains(texts(names@)[j]));
                        }
                    }
                }
                names.push(name);
                true
            },
        };
        self.immuwune = names;
        now_set
    }
}

} // verus!
