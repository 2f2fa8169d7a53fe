//! The name generator: allocates backend identifiers that are globally
//! unique across the process lifetime, by rendering a serialized counter
//! under a configured prefix.

use vstd::prelude::*;
use vstd::string::{StringExecFns, StringSliceAdditionalSpecFns};
use crate::strutil::{dec_rep, lemma_dec_rep_injective, u64_to_string};

verus! {

/// The name allocated at a given counter value: `<prefix>-<counter>`.
pub open spec fn name_of(prefix: Seq<char>, counter: u64) -> Seq<char> {
    prefix + "-"@ + dec_rep(counter as nat)
}

/// A byte the generation scheme accepts in a prefix: ASCII lower-case
/// letters, digits, and dashes — the characters a cluster accepts in an
/// object name.
pub open spec fn scheme_byte_ok(b: u8) -> bool {
    (97 <= b <= 122) || (48 <= b <= 57) || b == 45
}

/// A well-formed generation scheme: a non-empty prefix of acceptable bytes.
pub open spec fn scheme_ok(bytes: Seq<u8>) -> bool {
    bytes.len() >= 1 && forall|i: int| 0 <= i < bytes.len() ==> scheme_byte_ok(#[trigger] bytes[i])
}

/// The one way a generator construction fails: the configured scheme is
/// malformed.
#[derive(PartialEq, Eq, Structural, Clone, Copy, Debug)]
pub enum SchemeError {
    Malformed,
}

/// Shared, mutable allocation state: all allocations go through one counter,
/// which serializes them and guarantees global uniqueness.
pub struct NameGenerator {
    pub prefix: String,
    pub counter: u64,
}

impl NameGenerator {
    /// Parses a generation scheme. A malformed scheme fails here, at
    /// startup, never at allocation time.
    pub fn from_scheme(scheme: &str) -> (r: Result<NameGenerator, SchemeError>)
        ensures
            r is Ok <==> scheme_ok(scheme.spec_bytes()),
            r matches Ok(g) ==> g.prefix@ == scheme@ && g.counter == 0,
            r matches Err(e) ==> e == SchemeError::Malformed,
    {
        let bytes = scheme.as_bytes();
        if bytes.len() == 0 {
            return Err(SchemeError::Malformed);
        }
        let mut i: usize = 0;
        while i < bytes.len()
            invariant
                0 <= i <= bytes@.len(),
                bytes@ == scheme.spec_bytes(),
                forall|j: int| 0 <= j < i ==> scheme_byte_ok(#[trigger] bytes@[j]),
            decreases bytes@.len() - i,
        {
            let b = bytes[i];
            let ok = (97 <= b && b <= 122) || (48 <= b && b <= 57) || b == 45;
            if !ok {
                return Err(SchemeError::Malformed);
            }
            i = i + 1;
        }
        Ok(NameGenerator { prefix: scheme.to_owned(), counter: 0 })
    }

    /// Allocates the next identifier. The counter is the single unit of
    /// allocation state; every call advances it, so no name is handed out
    /// twice.
    pub fn allocate(&mut self) -> (r: String)
        requires
            old(self).counter < u64::MAX,
        ensures
            r@ == name_of(old(self).prefix@, old(self).counter),
            final(self).prefix == old(self).prefix,
            final(self).counter == old(self).counter + 1,
    {
        let mut name = self.prefix.clone();
        name.append("-");
        let digits = u64_to_string(self.counter);
        name.append(digits.as_str());
        self.counter = self.counter + 1;
        name
    }
}

impl Default for NameGenerator {
    /// The default scheme used when none is configured.
    fn default() -> (r: NameGenerator)
        ensures
            r.prefix@ == "slab"@,
            r.counter == 0,
    {
        NameGenerator { prefix: "slab".to_owned(), counter: 0 }
    }
}

/// Global uniqueness: two allocations at different counter values yield
/// different names, whatever the (shared) prefix.
pub proof fn lemma_names_unique(prefix: Seq<char>, c1: u64, c2: u64)
    requires
        c1 != c2,
    ensures
        name_of(prefix, c1) != name_of(prefix, c2),
{
    let p = prefix + "-"@;
    let s1 = dec_rep(c1 as nat);
    let s2 = dec_rep(c2 as nat);
    if name_of(prefix, c1) == name_of(prefix, c2) {
        assert((p + s1).len() == (p + s2).len());
        assert forall|i: int| 0 <= i < s1.len() implies s1[i] == s2[i] by {
            assert((p + s1)[p.len() + i] == s1[i]);
            assert((p + s2)[p.len() + i] == s2[i]);
        }
        assert(s1 =~= s2);
        lemma_dec_rep_injective(c1 as nat, c2 as nat);
    }
}

} // verus!
