use crate::application::types::{Email, Provider, Sub, UserId};
use vstd::prelude::*;

verus! {

/// A registered user, identified at its provider by `(provider, sub)`.
/// `created` is in microseconds since the Unix epoch.
#[derive(Clone, Debug)]
pub struct UserEntity {
    pub id: UserId,
    pub provider: Provider,
    pub sub: Sub,
    pub email: Email,
    pub created: i64,
}

} // verus!
