use vstd::prelude::*;

use crate::errors::Errors;

verus! {

/// An enumerated port's name matches `name` when it could be read and is
/// exactly `name`; a port whose name could not be read matches nothing.
pub open spec fn is_named(entry: Option<String>, name: Seq<char>) -> bool {
    entry matches Some(s) && s@ == name
}

/// `i` is the first position whose name matches `name`.
pub open spec fn is_first_named(names: Seq<Option<String>>, name: Seq<char>, i: int) -> bool {
    &&& 0 <= i < names.len()
    &&& is_named(names[i], name)
    &&& forall|j: int| 0 <= j < i ==> !is_named(#[trigger] names[j], name)
}

/// Position of the first port named `name`, if any port is.
pub open spec fn first_named(names: Seq<Option<String>>, name: Seq<char>) -> Option<int> {
    if exists|i: int| is_first_named(names, name, i) {
        Some(choose|i: int| is_first_named(names, name, i))
    } else {
        None
    }
}

/// The port of `ports` that stands where the first match of `name` stands.
pub open spec fn picked<P>(ports: Seq<P>, names: Seq<Option<String>>, name: Seq<char>) -> Option<P> {
    match first_named(names, name) {
        Some(i) => Some(ports[i]),
        None => None,
    }
}

/// The first position is unique.
pub proof fn lemma_first_named_unique(names: Seq<Option<String>>, name: Seq<char>, i: int)
    requires
        is_first_named(names, name, i),
    ensures
        first_named(names, name) == Some(i),
{
    let k = choose|k: int| is_first_named(names, name, k);
    assert(is_first_named(names, name, k));
    if k < i {
        assert(!is_named(names[k], name));
    } else if i < k {
        assert(!is_named(names[i], name));
    }
}

/// Searches `names` front to back for the first entry that is exactly `name`.
pub fn find_named(names: &Vec<Option<String>>, name: &str) -> (r: Option<usize>)
    ensures
        match r {
            Some(i) => first_named(names@, name@) == Some(i as int),
            None => first_named(names@, name@) is None,
        },
{
    let wanted: String = name.to_owned();
    let mut i: usize = 0;
    while i < names.len()
        invariant
            i <= names.len(),
            wanted@ == name@,
            forall|j: int| 0 <= j < i ==> !is_named(#[trigger] names@[j], name@),
        decreases names.len() - i,
    {
        let hit = match &names[i] {
            Some(s) => *s == wanted,
            None => false,
        };
        if hit {
            proof {
                lemma_first_named_unique(names@, name@, i as int);
            }
            return Some(i);
        }
        i = i + 1;
    }
    assert(!exists|k: int| is_first_named(names@, name@, k)) by {
        if exists|k: int| is_first_named(names@, name@, k) {
            let k = choose|k: int| is_first_named(names@, name@, k);
            assert(!is_named(names@[k], name@));
        }
    }
    None
}

/// Takes out of `ports` the one whose name, read at the same position of
/// `names`, is the first to be exactly `name`; none if no name matches.
pub fn take_named<P>(ports: Vec<P>, names: &Vec<Option<String>>, name: &str) -> (r: Option<P>)
    requires
        ports.len() == names.len(),
    ensures
        r == picked(ports@, names@, name@),
{
    match find_named(names, name) {
        Some(i) => {
            let mut ports = ports;
            Some(ports.swap_remove(i))
        },
        None => None,
    }
}


/// A name that no enumerated port carries finds nothing; a name that
/// exactly one port carries finds that port.
pub proof fn lemma_lookup_exact<P>(ports: Seq<P>, names: Seq<Option<String>>, name: Seq<char>)
    requires
        ports.len() == names.len(),
    ensures
        (forall|i: int| 0 <= i < names.len() ==> !is_named(#[trigger] names[i], name)) ==> picked(
            ports,
            names,
            name,
        ) is None,
        forall|i: int|
            0 <= i < names.len() && is_named(#[trigger] names[i], name) && (forall|j: int|
                0 <= j < names.len() && j != i ==> !is_named(#[trigger] names[j], name)) ==> picked(
                ports,
                names,
                name,
            ) == Some(ports[i]),
{
    assert forall|i: int|
        0 <= i < names.len() && is_named(#[trigger] names[i], name) && (forall|j: int|
            0 <= j < names.len() && j != i ==> !is_named(#[trigger] names[j], name)) implies picked(
        ports,
        names,
        name,
    ) == Some(ports[i]) by {
        lemma_first_named_unique(names, name, i);
    }
    if forall|i: int| 0 <= i < names.len() ==> !is_named(#[trigger] names[i], name) {
        if exists|k: int| is_first_named(names, name, k) {
            let k = choose|k: int| is_first_named(names, name, k);
            assert(!is_named(names[k], name));
        }
    }
}

} // verus!
