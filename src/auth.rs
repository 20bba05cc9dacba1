use vstd::prelude::*;
use crate::address::SharedKey;
use crate::error::ServerError;

verus! {

/// Authentication by a pre-provisioned shared key.
pub struct SharedKeyAuthentication {
    shared_key: SharedKey,
}

impl SharedKeyAuthentication {
    /// The key that clients must present.
    pub closed spec fn key(&self) -> Seq<char> {
        self.shared_key@
    }

    pub fn new(shared_key: SharedKey) -> (r: SharedKeyAuthentication)
        ensures
            r.key() == shared_key@,
    {
        SharedKeyAuthentication { shared_key }
    }

    /// Succeeds exactly when `k` equals the configured key.
    pub fn authenticate(&self, k: &SharedKey) -> (r: Result<(), ServerError>)
        ensures
            k@ == self.key() ==> r == Ok::<(), ServerError>(()),
            k@ != self.key() ==> r == Err::<(), ServerError>(ServerError::Unauthenticated),
    {
        if k.matches(&self.shared_key) {
            return Ok(());
        }
        Err(ServerError::Unauthenticated)
    }
}

} // verus!
