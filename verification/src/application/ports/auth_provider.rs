//! What the identity provider reports about a signed-in user.

use vstd::prelude::*;

verus! {

/// The profile of a user at the identity provider.
#[derive(Clone, Debug)]
pub struct ExternalProfile {
    pub sub: String,
    pub email: String,
}

} // verus!
