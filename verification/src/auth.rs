use vstd::prelude::*;

verus! {

/// The set of identities whose authorization proofs accompany the current
/// invocation. The host platform checks the cryptographic material; the
/// contract only asks whether a proof for a given identity is present.
pub struct AuthContext {
    authorized: Vec<u64>,
}

impl AuthContext {
    /// Whether a proof for identity `id` is present.
    pub closed spec fn allows(&self, id: u64) -> bool {
        self.authorized@.contains(id)
    }

    /// A context carrying no authorization proofs.
    pub fn empty() -> (r: AuthContext)
        ensures
            forall|id: u64| !r.allows(id),
    {
        AuthContext { authorized: Vec::new() }
    }

    /// Adds identity `id`'s proof to the context.
    pub fn grant(&mut self, id: u64)
        ensures
            final(self).allows(id),
            forall|other: u64|
                other != id ==> final(self).allows(other) == old(self).allows(other),
    {
        self.authorized.push(id);
        proof {
            assert(self.authorized@.last() == id);
            assert(self.authorized@.contains(id));
            assert forall|other: u64| other != id implies
                self.authorized@.contains(other) == old(self).authorized@.contains(other) by {
                if self.authorized@.contains(other) {
                    let k = choose|k: int|
                        0 <= k < self.authorized@.len() && self.authorized@[k] == other;
                    assert(old(self).authorized@[k] == other);
                }
                if old(self).authorized@.contains(other) {
                    let k = choose|k: int|
                        0 <= k < old(self).authorized@.len() && old(self).authorized@[k] == other;
                    assert(self.authorized@[k] == other);
                }
            }
        }
    }

    /// Whether the context holds a proof for `id`.
    pub fn is_authorized(&self, id: u64) -> (r: bool)
        ensures
            r == self.allows(id),
    {
        let mut i: usize = 0;
        while i < self.authorized.len()
            invariant
                i <= self.authorized@.len(),
                forall|j: int| 0 <= j < i ==> self.authorized@[j] != id,
            decreases self.authorized@.len() - i,
        {
            if self.authorized[i] == id {
                return true;
            }
            i = i + 1;
        }
        false
    }
}

} // verus!
