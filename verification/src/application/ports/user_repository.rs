//! Storage of users, unique by `(provider, sub)`.

use crate::application::entities::user_entity::UserEntity;
use crate::application::errors::AppError;
use crate::application::types::{Email, Provider, Sub, UserId};
use vstd::prelude::*;

verus! {

/// What is stored for one user id.
pub ghost struct UserRecord {
    pub provider: Seq<char>,
    pub sub: Seq<char>,
    pub email: Seq<char>,
    /// When the user was first recorded, in microseconds since the Unix epoch.
    pub created: i64,
}

/// No two users share the same `(provider, sub)` identity.
pub open spec fn identities_unique(users: Map<i32, UserRecord>) -> bool {
    forall|a: i32, b: i32|
        users.contains_key(a) && users.contains_key(b) && #[trigger] users[a].provider
            == #[trigger] users[b].provider && users[a].sub == users[b].sub ==> a == b
}

/// Some stored user already has the identity `(provider, sub)`.
pub open spec fn identity_known(users: Map<i32, UserRecord>, provider: Seq<char>, sub: Seq<char>) -> bool {
    exists|k: i32| users.contains_key(k) && #[trigger] users[k].provider == provider && users[k].sub == sub
}

/// `after` is `before` with the user of identity `(provider, sub)` given the
/// e-mail `email`, and `id` is that user's id: the existing user, with its
/// creation time kept, when the identity is known, else a new user under an
/// id not used before, with the creation time the store gave it.
pub open spec fn upserted(
    before: Map<i32, UserRecord>,
    after: Map<i32, UserRecord>,
    provider: Seq<char>,
    sub: Seq<char>,
    email: Seq<char>,
    id: i32,
) -> bool {
    &&& identity_known(before, provider, sub) ==> {
        &&& before.contains_key(id)
        &&& before[id].provider == provider
        &&& before[id].sub == sub
        &&& after[id].created == before[id].created
    }
    &&& !identity_known(before, provider, sub) ==> !before.contains_key(id)
    &&& after == before.insert(id, UserRecord { provider, sub, email, created: after[id].created })
}

/// A lookup by id answers with the stored user, or with `None` exactly
/// when no user has that id.
pub open spec fn user_lookup(
    users: Map<i32, UserRecord>,
    id: i32,
    r: Result<Option<UserEntity>, AppError>,
) -> bool {
    &&& r matches Ok(Some(e)) ==> {
        &&& users.contains_key(id)
        &&& e.id.0 == id
        &&& e.provider@ == users[id].provider
        &&& e.sub@ == users[id].sub
        &&& e.email@ == users[id].email
        &&& e.created == users[id].created
    }
    &&& r matches Ok(None) ==> !users.contains_key(id)
}

/// Where users are kept; a failed write leaves the stored users as they
/// were, and every failure is a storage (`SQL`) error.
pub trait UserRepository {
    /// The stored users, by id.
    spec fn users(&self) -> Map<i32, UserRecord>;

    /// The repository's own consistency condition, kept by every operation.
    spec fn well_formed(&self) -> bool;

    /// Lookups never fail. Kept by every operation.
    spec fn dependable(&self) -> bool;

    /// An upsert of the identity `(provider, sub)` succeeds now. Once an
    /// upsert of an identity has succeeded, the next one does too.
    spec fn accepts(&self, provider: Seq<char>, sub: Seq<char>) -> bool;

    /// Creates the user of identity `(provider, sub)`, or updates its e-mail
    /// when it exists, and returns its id, which is positive.
    fn upsert_user(&mut self, provider: &Provider, sub: &Sub, email: &Email) -> (r: Result<
        UserId,
        AppError,
    >)
        requires
            old(self).well_formed(),
        ensures
            final(self).well_formed(),
            r matches Ok(id) ==> upserted(
                old(self).users(),
                final(self).users(),
                provider@,
                sub@,
                email@,
                id.0,
            ),
            r is Err ==> final(self).users() == old(self).users(),
            r matches Ok(id) ==> id.0 > 0,
            r matches Err(e) ==> e is SQL,
            old(self).accepts(provider@, sub@) ==> r is Ok,
            r is Ok ==> final(self).accepts(provider@, sub@),
            final(self).dependable() == old(self).dependable(),
    ;

    fn find_user_by_id(&self, user_id: &UserId) -> (r: Result<Option<UserEntity>, AppError>)
        requires
            self.well_formed(),
        ensures
            user_lookup(self.users(), user_id.0, r),
            r matches Err(e) ==> e is SQL,
            self.dependable() ==> r is Ok,
    ;
}

} // verus!
