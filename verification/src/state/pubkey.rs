//! Identities of participants, pools, assets and holding areas.

use vstd::prelude::*;

verus! {

/// A 32-byte identity. Two identities are the same when all their bytes agree.
#[derive(Clone, Copy, Debug, Eq)]
pub struct Pubkey {
    pub bytes: [u8; 32],
}

impl PartialEq for Pubkey {
    fn eq(&self, other: &Self) -> (r: bool) {
        let mut i: usize = 0;
        while i < 32
            invariant
                i <= 32,
                forall|j: int| 0 <= j < i ==> self.bytes[j] == other.bytes[j],
            decreases 32 - i,
        {
            if self.bytes[i] != other.bytes[i] {
                return false;
            }
            i += 1;
        }
        assert(self.bytes =~= other.bytes);
        true
    }
}

impl vstd::std_specs::cmp::PartialEqSpecImpl for Pubkey {
    open spec fn obeys_eq_spec() -> bool {
        true
    }

    open spec fn eq_spec(&self, other: &Self) -> bool {
        *self == *other
    }
}

impl Pubkey {
    /// The identity made of the given bytes.
    pub fn new_from_array(bytes: [u8; 32]) -> (key: Pubkey)
        ensures
            key.bytes == bytes,
    {
        Pubkey { bytes }
    }

    /// The bytes of this identity.
    pub fn to_bytes(&self) -> (bytes: [u8; 32])
        ensures
            bytes == self.bytes,
    {
        self.bytes
    }
}

/// Whether `key` occurs in `list`.
pub fn contains_key(list: &Vec<Pubkey>, key: &Pubkey) -> (found: bool)
    ensures
        found == list@.contains(*key),
{
    let mut i: usize = 0;
    while i < list.len()
        invariant
            i <= list.len(),
            forall|j: int| 0 <= j < i ==> list@[j] != *key,
        decreases list.len() - i,
    {
        if list[i] == *key {
            return true;
        }
        i += 1;
    }
    false
}

/// `at` is the position of the first occurrence of `key` in `list`.
pub open spec fn is_first_position(list: Seq<Pubkey>, key: Pubkey, at: int) -> bool {
    &&& 0 <= at < list.len()
    &&& list[at] == key
    &&& forall|j: int| 0 <= j < at ==> list[j] != key
}

/// The position of the first occurrence of `key` in `list`, which must
/// contain it.
pub open spec fn first_position(list: Seq<Pubkey>, key: Pubkey) -> int {
    choose|at: int| is_first_position(list, key, at)
}

/// A first occurrence is the only one.
pub proof fn lemma_first_position(list: Seq<Pubkey>, key: Pubkey, at: int)
    requires
        is_first_position(list, key, at),
    ensures
        first_position(list, key) == at,
        list.contains(key),
{
    let other = first_position(list, key);
    assert(is_first_position(list, key, other));
    if other < at {
        assert(list[other] != key);
    }
    if at < other {
        assert(list[at] != key);
    }
}

/// The position of the first occurrence of `key` in `list`, if there is one.
pub fn position_of(list: &Vec<Pubkey>, key: &Pubkey) -> (found: Option<usize>)
    ensures
        found matches Some(at) ==> is_first_position(list@, *key, at as int) && at as int
            == first_position(list@, *key),
        found is Some <==> list@.contains(*key),
{
    let mut i: usize = 0;
    while i < list.len()
        invariant
            i <= list.len(),
            forall|j: int| 0 <= j < i ==> list@[j] != *key,
        decreases list.len() - i,
    {
        if list[i] == *key {
            proof {
                lemma_first_position(list@, *key, i as int);
            }
            return Some(i);
        }
        i += 1;
    }
    None
}

/// Whether no identity occurs twice in `list`.
pub fn has_no_duplicates(list: &Vec<Pubkey>) -> (distinct: bool)
    ensures
        distinct == list@.no_duplicates(),
{
    let mut i: usize = 0;
    while i < list.len()
        invariant
            i <= list.len(),
            forall|a: int, b: int| 0 <= a < i && 0 <= b < i && a != b ==> list@[a] != list@[b],
        decreases list.len() - i,
    {
        let mut j: usize = 0;
        while j < i
            invariant
                i < list.len(),
                j <= i,
                forall|b: int| 0 <= b < j ==> list@[b] != list@[i as int],
            decreases i - j,
        {
            if list[j] == list[i] {
                assert(list@[j as int] == list@[i as int] && j != i);
                return false;
            }
            j += 1;
        }
        i += 1;
    }
    true
}

/// Whether two six-byte pool tags are the same.
pub fn same_uuid(a: &[u8; 6], b: &[u8; 6]) -> (same: bool)
    ensures
        same == (*a == *b),
{
    let mut i: usize = 0;
    while i < 6
        invariant
            i <= 6,
            forall|j: int| 0 <= j < i ==> a[j] == b[j],
        decreases 6 - i,
    {
        if a[i] != b[i] {
            return false;
        }
        i += 1;
    }
    assert(*a =~= *b);
    true
}

} // verus!
