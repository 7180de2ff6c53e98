//! Identifiers of resolved capability profiles.
use vstd::prelude::*;

verus! {

/// A capability profile that the compiler resolved by name; never zero.
#[derive(Debug, Clone, Copy, PartialEq, Eq)]
pub struct ProfileId {
    raw: u32,
}

impl ProfileId {
    #[verifier::type_invariant]
    spec fn non_zero(self) -> bool {
        self.raw != 0
    }

    /// The native identifier.
    pub closed spec fn id(self) -> u32 {
        self.raw
    }

    /// Wraps the identifier that a profile lookup returned; the native
    /// layer reports an unknown name with zero, which gives `None`.
    pub fn new(raw: u32) -> (r: Option<ProfileId>)
        ensures
            r is Some <==> raw != 0,
            r matches Some(p) ==> p.id() == raw,
    {
        if raw == 0 {
            None
        } else {
            Some(ProfileId { raw })
        }
    }

    /// The native identifier, for handing back to the native layer.
    pub fn get(&self) -> (r: u32)
        ensures
            r == self.id(),
            r != 0,
    {
        proof {
            use_type_invariant(self);
        }
        self.raw
    }
}

} // verus!
