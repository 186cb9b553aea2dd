//! Signature tables: named sets of fully-qualified callable names supplied as
//! configuration, one table per category of recognized dangerous API
//! (balance-read, value-transfer, randomness-source, clock-source,
//! rounding-function).

use vstd::prelude::*;

verus! {

/// A set of recognized callable names, supplied by the host configuration.
pub struct SignatureTable {
    pub names: Vec<String>,
}

impl SignatureTable {
    /// Whether `name` is one of the recognized names.
    pub open spec fn matches(self, name: Seq<char>) -> bool {
        exists|i: int| 0 <= i < self.names@.len() && #[trigger] self.names@[i]@ == name
    }

    /// An empty table, recognizing nothing.
    pub fn new() -> (t: SignatureTable)
        ensures
            t.names@.len() == 0,
            forall|name: Seq<char>| !t.matches(name),
    {
        SignatureTable { names: Vec::new() }
    }

    /// Adds one recognized name.
    pub fn add(&mut self, name: String)
        ensures
            final(self).names@ == old(self).names@.push(name),
            forall|n: Seq<char>| #[trigger] final(self).matches(n) == (old(self).matches(n) || n == name@),
    {
        self.names.push(name);
        proof {
            assert forall|n: Seq<char>| #[trigger] self.matches(n) implies (old(self).matches(n) || n == name@) by {
                let i = choose|i: int| 0 <= i < self.names@.len() && #[trigger] self.names@[i]@ == n;
                if i < self.names@.len() - 1 {
                    assert(old(self).names@[i]@ == n);
                }
            }
            assert forall|n: Seq<char>| old(self).matches(n) || n == name@ implies #[trigger] self.matches(n) by {
                if old(self).matches(n) {
                    let i = choose|i: int| 0 <= i < old(self).names@.len() && #[trigger] old(self).names@[i]@ == n;
                    assert(self.names@[i]@ == n);
                } else {
                    assert(self.names@[self.names@.len() - 1]@ == n);
                }
            }
        }
    }

    /// Membership test used by the recording hooks.
    pub fn contains(&self, name: &String) -> (r: bool)
        ensures
            r == self.matches(name@),
    {
        let mut i: usize = 0;
        while i < self.names.len()
            invariant
                0 <= i <= self.names@.len(),
                forall|j: int| 0 <= j < i ==> #[trigger] self.names@[j]@ != name@,
            decreases self.names@.len() - i,
        {
            if self.names[i] == *name {
                return true;
            }
            i += 1;
        }
        false
    }
}

} // verus!
