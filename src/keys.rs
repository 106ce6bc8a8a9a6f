use vstd::prelude::*;

use crate::crypto::Hash32;

verus! {

/// An identity that can approve calls: an account or a deployed component,
/// named by 32 bytes.
#[derive(Clone, Copy, Debug, PartialEq, Eq, Hash)]
pub struct Principal {
    pub id: Hash32,
}

impl Principal {
    /// Whether `self` and `other` name the same identity.
    pub fn same_as(&self, other: &Principal) -> (r: bool)
        ensures
            r == (*self == *other),
    {
        hash_eq(&self.id, &other.id)
    }
}

/// Whether an optional principal is present and equal to `p`.
pub open spec fn is_principal(slot: Option<Principal>, p: Principal) -> bool {
    slot == Some(p)
}

pub(crate) fn slot_holds(slot: &Option<Principal>, p: &Principal) -> (r: bool)
    ensures
        r == is_principal(*slot, *p),
{
    match slot {
        Some(q) => q.same_as(p),
        None => false,
    }
}

/// Whether two 32-byte values are equal.
pub(crate) fn hash_eq(a: &Hash32, b: &Hash32) -> (r: bool)
    ensures
        r == (*a == *b),
{
    let mut i: usize = 0;
    while i < 32
        invariant
            i <= 32,
            forall|j: int| 0 <= j < i ==> a@[j] == b@[j],
        decreases 32 - i,
    {
        if a[i] != b[i] {
            return false;
        }
        i = i + 1;
    }
    assert(*a =~= *b);
    true
}

/// Whether `key` occurs in `keys`.
pub(crate) fn has_hash(keys: &Vec<Hash32>, key: &Hash32) -> (r: bool)
    ensures
        r == keys@.contains(*key),
{
    let mut i: usize = 0;
    while i < keys.len()
        invariant
            i <= keys.len(),
            forall|j: int| 0 <= j < i ==> keys@[j] != *key,
        decreases keys.len() - i,
    {
        if hash_eq(&keys[i], key) {
            return true;
        }
        i = i + 1;
    }
    false
}

/// `keys` with every occurrence of `key` taken out.
pub(crate) fn without_hash(keys: &Vec<Hash32>, key: &Hash32) -> (r: Vec<Hash32>)
    ensures
        r@.to_set() == keys@.to_set().remove(*key),
{
    let mut out: Vec<Hash32> = Vec::new();
    let mut i: usize = 0;
    while i < keys.len()
        invariant
            i <= keys.len(),
            forall|x: Hash32|
                #[trigger] out@.contains(x) <==> (x != *key && exists|j: int|
                    0 <= j < i && keys@[j] == x),
        decreases keys.len() - i,
    {
        let k = keys[i];
        let ghost before = out@;
        if !hash_eq(&k, key) {
            out.push(k);
        }
        proof {
            assert forall|x: Hash32| #[trigger] out@.contains(x) <==> (x != *key && exists|j: int|
                0 <= j < i + 1 && keys@[j] == x) by {
                if out@.contains(x) {
                    let m = choose|m: int| 0 <= m < out@.len() && out@[m] == x;
                    if m < before.len() {
                        assert(before[m] == x);
                        assert(before.contains(x));
                    }
                }
                if x != *key && exists|j: int| 0 <= j < i + 1 && keys@[j] == x {
                    let j = choose|j: int| 0 <= j < i + 1 && keys@[j] == x;
                    if j < i {
                        assert(before.contains(x));
                        let m = choose|m: int| 0 <= m < before.len() && before[m] == x;
                        assert(out@[m] == x);
                    } else {
                        assert(out@[before.len() as int] == x);
                    }
                }
            }
        }
        i = i + 1;
    }
    proof {
        assert forall|x: Hash32| #[trigger] keys@.contains(x) implies exists|j: int|
            0 <= j < keys.len() && keys@[j] == x by {
            let j = choose|j: int| 0 <= j < keys@.len() && keys@[j] == x;
            assert(keys@[j] == x);
        }
    }
    assert(out@.to_set() =~= keys@.to_set().remove(*key));
    out
}

} // verus!
