//! "The first index at which something holds", stated once for every scan in
//! the library: by name in the registry, by key in an argument list, and for
//! the first argument violation.

use vstd::prelude::*;

verus! {

/// `i` is the least index at which `flags` holds `true`.
pub open spec fn is_first(flags: Seq<bool>, i: int) -> bool {
    &&& 0 <= i < flags.len()
    &&& flags[i]
    &&& forall|j: int| 0 <= j < i ==> !flags[j]
}

/// The least index at which `flags` holds `true`, if there is one.
pub open spec fn first_true(flags: Seq<bool>) -> Option<int> {
    if exists|i: int| is_first(flags, i) {
        Some(choose|i: int| is_first(flags, i))
    } else {
        None
    }
}

/// A scan that stopped at `i` has found the first index.
pub proof fn lemma_first_found(flags: Seq<bool>, i: int)
    requires
        is_first(flags, i),
    ensures
        first_true(flags) == Some(i),
{
    let k = choose|k: int| is_first(flags, k);
    assert(is_first(flags, k));
    if k < i {
        assert(!flags[k]);
    } else if i < k {
        assert(!flags[i]);
    }
}

/// A scan that reached the end has shown that there is no such index.
pub proof fn lemma_first_absent(flags: Seq<bool>)
    requires
        forall|j: int| 0 <= j < flags.len() ==> !flags[j],
    ensures
        first_true(flags) is None,
{
    if exists|i: int| is_first(flags, i) {
        let k = choose|k: int| is_first(flags, k);
        assert(!flags[k]);
    }
}

/// What `first_true` returns is in range, holds `true`, and nothing before it
/// does; when it returns nothing, every flag is `false`.
pub proof fn lemma_first_true(flags: Seq<bool>)
    ensures
        match first_true(flags) {
            Some(i) => is_first(flags, i),
            None => forall|j: int| 0 <= j < flags.len() ==> !flags[j],
        },
{
    if first_true(flags) is None {
        assert forall|j: int| 0 <= j < flags.len() implies !flags[j] by {
            if flags[j] {
                lemma_least_exists(flags, j);
            }
        }
    }
}

/// If a flag is set somewhere, one is set at a least index.
proof fn lemma_least_exists(flags: Seq<bool>, j: int)
    requires
        0 <= j < flags.len(),
        flags[j],
    ensures
        exists|i: int| is_first(flags, i),
    decreases j,
{
    if forall|k: int| 0 <= k < j ==> !flags[k] {
        assert(is_first(flags, j));
    } else {
        let k = choose|k: int| 0 <= k < j && flags[k];
        lemma_least_exists(flags, k);
    }
}

/// For each position of `names`, whether `name` stands there.
pub open spec fn occurrences(names: Seq<Seq<char>>, name: Seq<char>) -> Seq<bool> {
    Seq::new(names.len(), |i: int| names[i] == name)
}

/// The first index at which `name` occurs in `names`.
pub open spec fn first_index(names: Seq<Seq<char>>, name: Seq<char>) -> Option<int> {
    first_true(occurrences(names, name))
}

/// No name occurs twice.
pub open spec fn distinct(names: Seq<Seq<char>>) -> bool {
    forall|i: int, j: int| 0 <= i < j < names.len() ==> names[i] != names[j]
}

/// Appending a name does not move the first occurrence of any other name.
pub proof fn lemma_push_other(names: Seq<Seq<char>>, name: Seq<char>, other: Seq<char>)
    requires
        other != name,
    ensures
        first_index(names.push(name), other) == first_index(names, other),
{
    let before = occurrences(names, other);
    let after = occurrences(names.push(name), other);
    lemma_first_true(before);
    match first_true(before) {
        Some(i) => {
            assert(before[i]);
            assert forall|j: int| 0 <= j < i implies !after[j] by {
                assert(!before[j]);
            }
            assert(is_first(after, i));
            lemma_first_found(after, i);
        },
        None => {
            assert forall|j: int| 0 <= j < after.len() implies !after[j] by {
                if j < names.len() {
                    assert(!before[j]);
                }
            }
            lemma_first_absent(after);
        },
    }
}

/// Appending a name that does not occur yet keeps the names distinct, keeps
/// every earlier name where it was, and puts the new name last.
pub proof fn lemma_push_fresh(names: Seq<Seq<char>>, name: Seq<char>)
    requires
        distinct(names),
        first_index(names, name) is None,
    ensures
        distinct(names.push(name)),
        first_index(names.push(name), name) == Some(names.len() as int),
        forall|other: Seq<char>|
            other != name ==> #[trigger] first_index(names.push(name), other) == first_index(
                names,
                other,
            ),
{
    let grown = names.push(name);
    let before = occurrences(names, name);
    lemma_first_true(before);
    assert forall|i: int, j: int| 0 <= i < j < grown.len() implies grown[i] != grown[j] by {
        if j == names.len() {
            assert(!before[i]);
        }
    }
    let after = occurrences(grown, name);
    assert forall|j: int| 0 <= j < names.len() implies !after[j] by {
        assert(!before[j]);
    }
    assert(is_first(after, names.len() as int));
    lemma_first_found(after, names.len() as int);
    assert forall|other: Seq<char>| other != name implies #[trigger] first_index(grown, other)
        == first_index(names, other) by {
        lemma_push_other(names, name, other);
    }
}

} // verus!
