//! Invocation arguments: a mapping from parameter name to value that
//! remembers the order in which its keys were first set.

use vstd::prelude::*;
use vstd::string::*;
use crate::search::{distinct, first_index, is_first, lemma_first_absent, lemma_first_found,
    lemma_first_true, lemma_push_fresh, occurrences};
use crate::value::{Value, ValueView};

verus! {

/// The keys of an argument list, in order.
pub open spec fn keys(args: Seq<(Seq<char>, ValueView)>) -> Seq<Seq<char>> {
    Seq::new(args.len(), |i: int| args[i].0)
}

/// The value that an argument list gives to `key`, if it gives one.
pub open spec fn value_of(args: Seq<(Seq<char>, ValueView)>, key: Seq<char>) -> Option<
    ValueView,
> {
    match first_index(keys(args), key) {
        Some(i) => Some(args[i].1),
        None => None,
    }
}

/// The views of a run of entries, in order.
pub open spec fn entry_views(entries: Seq<(String, Value)>) -> Seq<(Seq<char>, ValueView)> {
    Seq::new(entries.len(), |i: int| (entries[i].0@, entries[i].1@))
}

/// Setting `key` to `value`: an existing entry is replaced where it stands, a
/// new key goes to the end.
pub open spec fn with_entry(
    args: Seq<(Seq<char>, ValueView)>,
    key: Seq<char>,
    value: ValueView,
) -> Seq<(Seq<char>, ValueView)> {
    match first_index(keys(args), key) {
        Some(i) => args.update(i, (key, value)),
        None => args.push((key, value)),
    }
}

/// The arguments of one invocation. No key occurs twice.
#[derive(Debug, PartialEq, Eq)]
pub struct Arguments {
    entries: Vec<(String, Value)>,
}

impl View for Arguments {
    type V = Seq<(Seq<char>, ValueView)>;

    closed spec fn view(&self) -> Seq<(Seq<char>, ValueView)> {
        entry_views(self.entries@)
    }
}

impl Arguments {
    #[verifier::type_invariant]
    spec fn inv(self) -> bool {
        distinct(keys(entry_views(self.entries@)))
    }

    /// No arguments.
    pub fn new() -> (a: Arguments)
        ensures
            a@ == Seq::<(Seq<char>, ValueView)>::empty(),
    {
        let a = Arguments { entries: Vec::new() };
        assert(a@ =~= Seq::empty());
        a
    }

    /// The number of keys.
    pub fn len(&self) -> (n: usize)
        ensures
            n == self@.len(),
            distinct(keys(self@)),
    {
        proof {
            use_type_invariant(self);
        }
        self.entries.len()
    }

    /// The position of `key` among the entries.
    fn position(&self, key: &String) -> (r: Option<usize>)
        ensures
            match r {
                Some(i) => first_index(keys(self@), key@) == Some(i as int),
                None => first_index(keys(self@), key@) is None,
            },
    {
        let ghost flags = occurrences(keys(self@), key@);
        let mut i: usize = 0;
        while i < self.entries.len()
            invariant
                i <= self.entries@.len(),
                flags == occurrences(keys(self@), key@),
                forall|j: int| 0 <= j < i ==> !flags[j],
            decreases self.entries@.len() - i,
        {
            if self.entries[i].0 == *key {
                proof {
                    assert(is_first(flags, i as int));
                    lemma_first_found(flags, i as int);
                }
                return Some(i);
            }
            i += 1;
        }
        proof {
            lemma_first_absent(flags);
        }
        None
    }

    /// The key and the value at position `i`, if there is one.
    pub fn entry(&self, i: usize) -> (r: Option<(&str, &Value)>)
        ensures
            match r {
                Some((k, v)) => i < self@.len() && (k@, v@) == self@[i as int],
                None => i >= self@.len(),
            },
    {
        if i < self.entries.len() {
            Some((self.entries[i].0.as_str(), &self.entries[i].1))
        } else {
            None
        }
    }

    /// The value given to `key`, if one is given.
    pub fn get(&self, key: &str) -> (r: Option<&Value>)
        ensures
            match r {
                Some(v) => value_of(self@, key@) == Some(v@),
                None => value_of(self@, key@) is None,
            },
    {
        let owned = String::from_str(key);
        match self.position(&owned) {
            Some(i) => {
                proof {
                    lemma_first_true(occurrences(keys(self@), key@));
                }
                Some(&self.entries[i].1)
            },
            None => None,
        }
    }

    /// Gives `key` the value `value`, in place of any value it had.
    pub fn set(&mut self, key: &str, value: Value)
        ensures
            final(self)@ == with_entry(old(self)@, key@, value@),
    {
        proof {
            use_type_invariant(&*self);
        }
        let owned = String::from_str(key);
        let ghost before = self@;
        let found = self.position(&owned);
        let mut entries: Vec<(String, Value)> = Vec::new();
        core::mem::swap(&mut self.entries, &mut entries);
        match found {
            Some(i) => {
                proof {
                    lemma_first_true(occurrences(keys(before), key@));
                }
                entries.set(i, (owned, value));
                proof {
                    let after = entry_views(entries@);
                    assert(after =~= before.update(i as int, (key@, value@)));
                    assert(keys(after) =~= keys(before));
                }
            },
            None => {
                entries.push((owned, value));
                proof {
                    let after = entry_views(entries@);
                    assert(after =~= before.push((key@, value@)));
                    assert(keys(after) =~= keys(before).push(key@));
                    lemma_push_fresh(keys(before), key@);
                }
            },
        }
        self.entries = entries;
    }
}

impl Clone for Arguments {
    fn clone(&self) -> (r: Self)
        ensures
            r@ == self@,
    {
        proof {
            use_type_invariant(self);
        }
        let mut entries: Vec<(String, Value)> = Vec::new();
        let mut i: usize = 0;
        while i < self.entries.len()
            invariant
                i <= self.entries@.len(),
                entries@.len() == i,
                forall|j: int|
                    0 <= j < i ==> entries@[j].0@ == self.entries@[j].0@ && entries@[j].1@
                        == self.entries@[j].1@,
            decreases self.entries@.len() - i,
        {
            entries.push((self.entries[i].0.clone(), self.entries[i].1.clone()));
            i += 1;
        }
        assert(entry_views(entries@) =~= entry_views(self.entries@));
        Arguments { entries }
    }
}

} // verus!
