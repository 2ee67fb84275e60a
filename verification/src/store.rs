//! The variables of a running script: a mapping from name to string value.
//!
//! The store is a hash table. Its buckets are found by a hash of the name
//! that this module computes itself, so that the table is keyed by an
//! integer; within a bucket the names are compared in full.

use std::collections::HashMap;
use vstd::prelude::*;
use vstd::string::*;
use vstd::utf8::encode_utf8;
use crate::text::str_eq;

verus! {

/// One variable: its name and what it holds.
struct Binding {
    name: String,
    value: String,
}

/// The mapping that a list of bindings stands for. Where a name occurs more
/// than once, the last occurrence counts.
spec fn bound(bs: Seq<Binding>) -> Map<Seq<char>, Seq<char>>
    decreases bs.len(),
{
    if bs.len() == 0 {
        Map::empty()
    } else {
        bound(bs.drop_last()).insert(bs.last().name@, bs.last().value@)
    }
}

/// A name that no binding has is not in the mapping.
proof fn lemma_bound_miss(bs: Seq<Binding>, k: Seq<char>)
    requires
        forall|j: int| 0 <= j < bs.len() ==> (#[trigger] bs[j]).name@ != k,
    ensures
        !bound(bs).dom().contains(k),
    decreases bs.len(),
{
    if bs.len() > 0 {
        lemma_bound_miss(bs.drop_last(), k);
    }
}

/// The last binding of a name decides what the name maps to.
proof fn lemma_bound_hit(bs: Seq<Binding>, i: int, k: Seq<char>)
    requires
        0 <= i < bs.len(),
        bs[i].name@ == k,
        forall|j: int| i < j < bs.len() ==> (#[trigger] bs[j]).name@ != k,
    ensures
        bound(bs).dom().contains(k),
        bound(bs)[k] == bs[i].value@,
    decreases bs.len(),
{
    if i < bs.len() - 1 {
        lemma_bound_hit(bs.drop_last(), i, k);
    }
}

/// Replacing the last binding of a name is inserting into the mapping.
proof fn lemma_bound_update(bs: Seq<Binding>, i: int, b: Binding)
    requires
        0 <= i < bs.len(),
        bs[i].name@ == b.name@,
        forall|j: int| i < j < bs.len() ==> (#[trigger] bs[j]).name@ != b.name@,
    ensures
        bound(bs.update(i, b)) == bound(bs).insert(b.name@, b.value@),
    decreases bs.len(),
{
    let after = bs.update(i, b);
    if i == bs.len() - 1 {
        assert(after.drop_last() =~= bs.drop_last());
    } else {
        lemma_bound_update(bs.drop_last(), i, b);
        assert(after.drop_last() =~= bs.drop_last().update(i, b));
    }
}

/// Where the binding of `name` that counts stands in `bs`, if there is one.
fn position(bs: &Vec<Binding>, name: &str) -> (at: Option<usize>)
    ensures
        match at {
            Some(i) => i < bs@.len() && bs@[i as int].name@ == name@ && forall|j: int|
                i < j < bs@.len() ==> (#[trigger] bs@[j]).name@ != name@,
            None => forall|j: int| 0 <= j < bs@.len() ==> (#[trigger] bs@[j]).name@ != name@,
        },
{
    let mut i: usize = bs.len();
    while i > 0
        invariant
            i <= bs@.len(),
            forall|j: int| i <= j < bs@.len() ==> (#[trigger] bs@[j]).name@ != name@,
        decreases i,
    {
        i = i - 1;
        if str_eq(bs[i].name.as_str(), name) {
            return Some(i);
        }
    }
    None
}

/// One round of the hash: a byte is mixed into what was hashed so far.
spec fn mixed(h: u64, b: u8) -> u64 {
    (h ^ (b as u64)).wrapping_mul(0x0000_0100_0000_01b3)
}

/// The hash of a sequence of bytes (FNV-1a, 64 bits).
spec fn hashed(bytes: Seq<u8>) -> u64
    decreases bytes.len(),
{
    if bytes.len() == 0 {
        0xcbf2_9ce4_8422_2325
    } else {
        mixed(hashed(bytes.drop_last()), bytes.last())
    }
}

/// The bucket that a name belongs to: the hash of its UTF-8 encoding.
spec fn bucket_of(name: Seq<char>) -> u64 {
    hashed(encode_utf8(name))
}

/// Computes the bucket of a name.
fn bucket(name: &str) -> (h: u64)
    ensures
        h == bucket_of(name@),
{
    let bytes = name.as_bytes();
    let mut h: u64 = 0xcbf2_9ce4_8422_2325;
    let mut i: usize = 0;
    while i < bytes.len()
        invariant
            i <= bytes@.len(),
            h == hashed(bytes@.take(i as int)),
        decreases bytes@.len() - i,
    {
        proof {
            assert(bytes@.take(i + 1).drop_last() =~= bytes@.take(i as int));
        }
        h = (h ^ (bytes[i] as u64)).wrapping_mul(0x0000_0100_0000_01b3);
        i = i + 1;
    }
    proof {
        assert(bytes@.take(i as int) =~= bytes@);
    }
    h
}

/// The variable store of one script run. Its view is the mapping from the
/// names that were set to their current values.
pub struct VariableStore {
    buckets: HashMap<u64, Vec<Binding>>,
}

/// The mapping that a table of buckets stands for: a name maps to what its
/// own bucket binds it to.
spec fn stored(buckets: Map<u64, Vec<Binding>>) -> Map<Seq<char>, Seq<char>> {
    Map::new(
        |k: Seq<char>|
            buckets.contains_key(bucket_of(k)) && bound(buckets[bucket_of(k)]@).dom().contains(k),
        |k: Seq<char>| bound(buckets[bucket_of(k)]@)[k],
    )
}

impl View for VariableStore {
    type V = Map<Seq<char>, Seq<char>>;

    closed spec fn view(&self) -> Map<Seq<char>, Seq<char>> {
        stored(self.buckets@)
    }
}

/// What reading `name` from the mapping `vars` gives: its value, or the empty
/// string if it was never set.
pub open spec fn lookup(vars: Map<Seq<char>, Seq<char>>, name: Seq<char>) -> Seq<char> {
    if vars.dom().contains(name) {
        vars[name]
    } else {
        Seq::empty()
    }
}

impl VariableStore {
    /// A store in which no variable is set.
    pub fn new() -> (vars: VariableStore)
        ensures
            vars@ == Map::<Seq<char>, Seq<char>>::empty(),
    {
        let vars = VariableStore { buckets: HashMap::new() };
        vars
    }

    /// The value of `name`, if it was set.
    pub fn get(&self, name: &str) -> (value: Option<&String>)
        ensures
            match value {
                Some(v) => self@.dom().contains(name@) && self@[name@] == v@,
                None => !self@.dom().contains(name@),
            },
    {
        broadcast use vstd::std_specs::hash::group_hash_axioms;

        let h = bucket(name);
        match self.buckets.get(&h) {
            None => None,
            Some(bs) => match position(bs, name) {
                Some(i) => {
                    proof {
                        lemma_bound_hit(bs@, i as int, name@);
                    }
                    Some(&bs[i].value)
                },
                None => {
                    proof {
                        lemma_bound_miss(bs@, name@);
                    }
                    None
                },
            },
        }
    }

    /// Sets `name` to `value`, whether or not it was set before.
    pub fn insert(&mut self, name: String, value: String)
        ensures
            final(self)@ == old(self)@.insert(name@, value@),
    {
        broadcast use vstd::std_specs::hash::group_hash_axioms;

        let h = bucket(name.as_str());
        let mut bs = match self.buckets.remove(&h) {
            Some(bs) => bs,
            None => Vec::new(),
        };
        let ghost before = bs@;
        let at = position(&bs, name.as_str());
        let b = Binding { name, value };
        match at {
            Some(i) => {
                proof {
                    lemma_bound_update(bs@, i as int, b);
                }
                bs.set(i, b);
            },
            None => {
                proof {
                    assert(bs@.push(b).drop_last() =~= bs@);
                }
                bs.push(b);
            },
        }
        assert(bound(bs@) == bound(before).insert(b.name@, b.value@));
        self.buckets.insert(h, bs);
    }
}

/// Sets the variable `name` to `value`.
pub fn setvar(vars: &mut VariableStore, name: &str, value: String)
    ensures
        final(vars)@ == old(vars)@.insert(name@, value@),
{
    vars.insert(String::from_str(name), value);
}

/// Reads the variable `name`: its value, or the empty string if it is not set.
pub fn getvar(vars: &VariableStore, name: &str) -> (value: String)
    ensures
        value@ == lookup(vars@, name@),
{
    match vars.get(name) {
        Some(v) => v.clone(),
        None => String::new(),
    }
}

} // verus!
