//! Addresses of accounts, and search in lists of them.

use vstd::prelude::*;

verus! {

/// A 32-byte account address. Two keys name the same identity exactly when
/// all 32 bytes agree.
#[derive(Clone, Copy, Debug, Eq, Hash)]
pub struct Pubkey {
    pub bytes: [u8; 32],
}

impl PartialEq for Pubkey {
    fn eq(&self, other: &Self) -> (r: bool) {
        let mut i: usize = 0;
        while i < 32
            invariant
                i <= 32,
                forall|j: int| 0 <= j < i ==> self.bytes[j] == other.bytes[j],
            decreases 32 - i,
        {
            if self.bytes[i] != other.bytes[i] {
                return false;
            }
            i += 1;
        }
        assert(self.bytes =~= other.bytes);
        true
    }
}

impl vstd::std_specs::cmp::PartialEqSpecImpl for Pubkey {
    open spec fn obeys_eq_spec() -> bool {
        true
    }

    open spec fn eq_spec(&self, other: &Self) -> bool {
        *self == *other
    }
}

impl Pubkey {
    /// The key made of the given 32 bytes.
    pub fn new(bytes: [u8; 32]) -> (k: Pubkey)
        ensures
            k.bytes == bytes,
    {
        Pubkey { bytes }
    }

    /// The all-zero key, which a freshly created record holds in every
    /// address field that no operation has set yet.
    pub fn zero() -> (k: Pubkey)
        ensures
            k == Self::spec_zero(),
    {
        Pubkey { bytes: [0u8; 32] }
    }

    pub open spec fn spec_zero() -> Pubkey {
        Pubkey { bytes: vstd::array::spec_array_fill_for_copy_type::<u8, 32>(0u8) }
    }
}

/// Whether `key` occurs in `keys`.
pub fn contains_key(keys: &Vec<Pubkey>, key: Pubkey) -> (r: bool)
    ensures
        r == keys@.contains(key),
{
    let mut i: usize = 0;
    while i < keys.len()
        invariant
            i <= keys.len(),
            forall|j: int| 0 <= j < i ==> keys@[j] != key,
        decreases keys.len() - i,
    {
        if keys[i] == key {
            return true;
        }
        i += 1;
    }
    false
}

/// Position of the first occurrence of `key` in `keys`, if it occurs.
pub fn position(keys: &Vec<Pubkey>, key: Pubkey) -> (r: Option<usize>)
    ensures
        match r {
            Some(i) => {
                &&& keys@.index_of_first(key) == Some(i as int)
                &&& i < keys@.len()
                &&& keys@[i as int] == key
                &&& keys@.contains(key)
            },
            None => keys@.index_of_first(key) is None && !keys@.contains(key),
        },
{
    let mut i: usize = 0;
    while i < keys.len()
        invariant
            i <= keys.len(),
            forall|j: int| 0 <= j < i ==> keys@[j] != key,
        decreases keys.len() - i,
    {
        if keys[i] == key {
            proof {
                keys@.index_of_first_ensures(key);
            }
            return Some(i);
        }
        i += 1;
    }
    proof {
        keys@.index_of_first_ensures(key);
    }
    None
}

/// Taking one occurrence out of a list without repetitions leaves a list
/// without repetitions, one shorter, that no longer holds the key.
pub proof fn lemma_remove_keeps_distinct(keys: Seq<Pubkey>, i: int)
    requires
        0 <= i < keys.len(),
        keys.no_duplicates(),
    ensures
        keys.remove(i).no_duplicates(),
        keys.remove(i).len() == keys.len() - 1,
        !keys.remove(i).contains(keys[i]),
{
    keys.remove_ensures(i);
    let rest = keys.remove(i);
    assert forall|a: int, b: int| 0 <= a < rest.len() && 0 <= b < rest.len() && a != b implies rest[a]
        != rest[b] by {
        let a0 = if a < i { a } else { a + 1 };
        let b0 = if b < i { b } else { b + 1 };
        assert(rest[a] == keys[a0]);
        assert(rest[b] == keys[b0]);
    }
    assert forall|a: int| 0 <= a < rest.len() implies rest[a] != keys[i] by {
        let a0 = if a < i { a } else { a + 1 };
        assert(rest[a] == keys[a0]);
    }
}

} // verus!
