//! Fixed-width byte values shared by the network and validation layers.

use vstd::prelude::*;

verus! {

/// A 20-byte account address.
#[derive(Clone, Copy, Debug)]
pub struct Address(pub [u8; 20]);

/// A 32-byte word, such as a block hash or a randomness value.
#[derive(Clone, Copy, Debug)]
pub struct B256(pub [u8; 32]);

impl Address {
    pub open spec fn view(&self) -> Seq<u8> {
        self.0@
    }

    /// Compares two addresses byte by byte.
    pub fn same_as(&self, other: &Address) -> (r: bool)
        ensures
            r == (self@ == other@),
    {
        bytes_eq(self.0.as_slice(), other.0.as_slice())
    }
}

impl B256 {
    pub open spec fn view(&self) -> Seq<u8> {
        self.0@
    }

    /// The all-zero word.
    pub fn zero() -> (r: B256)
        ensures
            r@ == Seq::new(32, |i: int| 0u8),
    {
        let r = B256([0u8; 32]);
        assert(r@ =~= Seq::new(32, |i: int| 0u8));
        r
    }

    /// Compares two words byte by byte.
    pub fn same_as(&self, other: &B256) -> (r: bool)
        ensures
            r == (self@ == other@),
    {
        bytes_eq(self.0.as_slice(), other.0.as_slice())
    }
}

/// Compares two byte strings.
pub fn bytes_eq(a: &[u8], b: &[u8]) -> (r: bool)
    ensures
        r == (a@ == b@),
{
    if a.len() != b.len() {
        return false;
    }
    let mut i: usize = 0;
    while i < a.len()
        invariant
            a@.len() == b@.len(),
            i <= a@.len(),
            forall|j: int| 0 <= j < i ==> a@[j] == b@[j],
        decreases a@.len() - i,
    {
        if a[i] != b[i] {
            return false;
        }
        i = i + 1;
    }
    assert(a@ =~= b@);
    true
}

/// The bytes of an optional word.
pub open spec fn opt_view(o: Option<B256>) -> Option<Seq<u8>> {
    match o {
        Some(x) => Some(x@),
        None => None,
    }
}

/// Compares two optional words.
pub fn opt_b256_eq(a: &Option<B256>, b: &Option<B256>) -> (r: bool)
    ensures
        r == (opt_view(*a) == opt_view(*b)),
{
    match (a, b) {
        (Some(x), Some(y)) => x.same_as(y),
        (None, None) => true,
        _ => false,
    }
}

} // verus!

verus! {

/// Copies `data[start..end]` into a new vector.
pub fn copy_range(data: &[u8], start: usize, end: usize) -> (r: Vec<u8>)
    requires
        start <= end <= data@.len(),
    ensures
        r@ == data@.subrange(start as int, end as int),
{
    let mut r: Vec<u8> = Vec::new();
    let mut i: usize = start;
    while i < end
        invariant
            start <= i <= end <= data@.len(),
            r@ == data@.subrange(start as int, i as int),
        decreases end - i,
    {
        r.push(data[i]);
        i = i + 1;
        assert(r@ =~= data@.subrange(start as int, i as int));
    }
    r
}

/// Copies the 32 bytes of `data` that start at `start` into a word.
pub fn word_at(data: &[u8], start: usize) -> (r: B256)
    requires
        start + 32 <= data@.len(),
    ensures
        r@ == data@.subrange(start as int, start + 32),
{
    let mut w = [0u8; 32];
    let mut i: usize = 0;
    let n = data.len();
    while i < 32
        invariant
            i <= 32,
            start + 32 <= data@.len(),
            n == data@.len(),
            forall|j: int| 0 <= j < i ==> w@[j] == data@[start + j],
        decreases 32 - i,
    {
        w[i] = data[start + i];
        i = i + 1;
    }
    let r = B256(w);
    assert(r@ =~= data@.subrange(start as int, start + 32));
    r
}

} // verus!
