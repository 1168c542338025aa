//! Small helpers shared across the crate: a slot that holds a value until it
//! is taken, and a verified substring search used when picking a security
//! mechanism and a locale out of the server's offers.

use vstd::prelude::*;
use vstd::string::StringSliceAdditionalSpecFns;

verus! {

/// A slot holding a value that will be taken out exactly once. Reading or
/// taking from an already-emptied slot is ruled out by precondition.
#[derive(Debug, Clone)]
pub struct Should<T>(Option<T>);

impl<T> Should<T> {
    /// True while the value has not been taken yet.
    pub closed spec fn is_filled(&self) -> bool {
        self.0 is Some
    }

    /// The held value.
    pub closed spec fn value(&self) -> T
        recommends
            self.is_filled(),
    {
        self.0->0
    }

    pub fn new(item: T) -> (s: Should<T>)
        ensures
            s.is_filled(),
            s.value() == item,
    {
        Should(Some(item))
    }

    pub fn as_ref(&self) -> (r: &T)
        requires
            self.is_filled(),
        ensures
            *r == self.value(),
    {
        match &self.0 {
            Some(item) => item,
            None => unreached(),
        }
    }

    pub fn as_mut(&mut self) -> (r: &mut T)
        requires
            old(self).is_filled(),
        ensures
            *r == old(self).value(),
            final(self).is_filled(),
            final(self).value() == *final(r),
    {
        match &mut self.0 {
            Some(item) => item,
            None => unreached(),
        }
    }

    pub fn take(&mut self) -> (r: T)
        requires
            old(self).is_filled(),
        ensures
            r == old(self).value(),
            !final(self).is_filled(),
    {
        match self.0.take() {
            Some(item) => item,
            None => unreached(),
        }
    }
}

/// The bytes of `n` occur contiguously in `h` starting at position `i`.
pub open spec fn is_byte_substring_at(h: Seq<u8>, n: Seq<u8>, i: int) -> bool {
    &&& 0 <= i
    &&& i + n.len() <= h.len()
    &&& forall|j: int| 0 <= j < n.len() ==> h[i + j] == n[j]
}

/// The bytes of `n` occur contiguously somewhere in `h`.
pub open spec fn is_byte_substring(h: Seq<u8>, n: Seq<u8>) -> bool {
    exists|i: int| is_byte_substring_at(h, n, i)
}

/// Whether the UTF-8 bytes of `needle` occur contiguously in the UTF-8 bytes
/// of `haystack`.
pub fn contains_str(haystack: &str, needle: &str) -> (b: bool)
    ensures
        b == is_byte_substring(haystack.spec_bytes(), needle.spec_bytes()),
{
    let h = haystack.as_bytes();
    let n = needle.as_bytes();
    if n.len() > h.len() {
        assert(forall|i: int| !is_byte_substring_at(haystack.spec_bytes(), needle.spec_bytes(), i));
        return false;
    }
    let mut i: usize = 0;
    while i <= h.len() - n.len()
        invariant
            n.len() <= h.len(),
            h@ == haystack.spec_bytes(),
            n@ == needle.spec_bytes(),
            forall|k: int| 0 <= k < i ==> !is_byte_substring_at(h@, n@, k),
        decreases h.len() - n.len() - i + 1,
    {
        let mut j: usize = 0;
        let mut matched = true;
        while j < n.len()
            invariant
                matched ==> forall|q: int| 0 <= q < j ==> h@[i + q] == n@[q],
                !matched ==> !is_byte_substring_at(h@, n@, i as int),
                i + n.len() <= h.len(),
                j <= n.len(),
            decreases n.len() - j,
        {
            if h[i + j] != n[j] {
                assert(!is_byte_substring_at(h@, n@, i as int));
                matched = false;
                j = n.len();
            } else {
                j = j + 1;
            }
        }
        if matched {
            assert(is_byte_substring_at(h@, n@, i as int));
            return true;
        }
        i = i + 1;
    }
    assert forall|k: int| !is_byte_substring_at(h@, n@, k) by {
        if 0 <= k && k + n@.len() <= h@.len() {
            assert(k < i);
        }
    }
    false
}

} // verus!
