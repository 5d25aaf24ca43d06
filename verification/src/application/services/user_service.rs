//! Users: sign-in upsert and lookup over a user repository.

use crate::application::entities::user_entity::UserEntity;
use crate::application::errors::AppError;
use crate::application::ports::user_repository::{UserRecord, UserRepository};
use crate::application::types::{Email, Provider, Sub, UserId};
use vstd::prelude::*;

verus! {

/// User operations over a user repository.
pub struct UserService<D: UserRepository> {
    user_repo: D,
}

impl<D: UserRepository> UserService<D> {
    /// The users stored in the underlying repository.
    pub closed spec fn users(&self) -> Map<i32, UserRecord> {
        self.user_repo.users()
    }

    /// The underlying repository is consistent.
    pub closed spec fn well_formed(&self) -> bool {
        self.user_repo.well_formed()
    }

    /// Lookups in the underlying repository never fail.
    pub closed spec fn dependable(&self) -> bool {
        self.user_repo.dependable()
    }

    /// An upsert of the identity `(provider, sub)` succeeds now.
    pub closed spec fn accepts(&self, provider: Seq<char>, sub: Seq<char>) -> bool {
        self.user_repo.accepts(provider, sub)
    }

    pub fn new(user_repo: D) -> (r: Self)
        requires
            user_repo.well_formed(),
        ensures
            r.well_formed(),
            r.users() == user_repo.users(),
            r.dependable() == user_repo.dependable(),
            forall|provider: Seq<char>, sub: Seq<char>|
                r.accepts(provider, sub) == user_repo.accepts(provider, sub),
    {
        UserService { user_repo }
    }

    /// Creates the user of identity `(provider, sub)`, or updates the e-mail
    /// of the existing one, and returns its id, which is positive.
    pub fn create_or_update_user(&mut self, provider: &Provider, sub: &Sub, email: &Email) -> (r:
        Result<UserId, AppError>)
        requires
            old(self).well_formed(),
        ensures
            final(self).well_formed(),
            r matches Ok(id) ==> crate::application::ports::user_repository::upserted(
                old(self).users(),
                final(self).users(),
                provider@,
                sub@,
                email@,
                id.0,
            ),
            r is Err ==> final(self).users() == old(self).users(),
            r matches Ok(id) ==> id.0 > 0,
            r matches Err(e) ==> e is SQL,
            old(self).accepts(provider@, sub@) ==> r is Ok,
            r is Ok ==> final(self).accepts(provider@, sub@),
            final(self).dependable() == old(self).dependable(),
    {
        let user_id = self.user_repo.upsert_user(provider, sub, email)?;
        Ok(user_id)
    }

    /// The user of the given id, if there is one.
    pub fn find_user(&self, user_id: &UserId) -> (r: Result<Option<UserEntity>, AppError>)
        requires
            self.well_formed(),
        ensures
            crate::application::ports::user_repository::user_lookup(self.users(), user_id.0, r),
            r matches Err(e) ==> e is SQL,
            self.dependable() ==> r is Ok,
    {
        let user = self.user_repo.find_user_by_id(user_id)?;
        Ok(user)
    }
}

/// An upsert keeps every identity held by at most one user.
pub proof fn upsert_keeps_identities_unique(
    before: Map<i32, UserRecord>,
    after: Map<i32, UserRecord>,
    provider: Seq<char>,
    sub: Seq<char>,
    email: Seq<char>,
    id: i32,
)
    requires
        crate::application::ports::user_repository::identities_unique(before),
        crate::application::ports::user_repository::upserted(before, after, provider, sub, email, id),
    ensures
        crate::application::ports::user_repository::identities_unique(after),
{
    assert forall|a: i32, b: i32|
        after.contains_key(a) && after.contains_key(b) && #[trigger] after[a].provider
            == #[trigger] after[b].provider && after[a].sub == after[b].sub implies a == b by {
        if a != id && b != id {
            assert(before.contains_key(a) && before.contains_key(b));
        } else if a == id && b != id {
            assert(before.contains_key(b) && before[b].provider == provider && before[b].sub == sub);
            assert(crate::application::ports::user_repository::identity_known(before, provider, sub));
        } else if a != id && b == id {
            assert(before.contains_key(a) && before[a].provider == provider && before[a].sub == sub);
            assert(crate::application::ports::user_repository::identity_known(before, provider, sub));
        }
    }
}

/// Signing in twice with the same identity yields the same user id, and the
/// user then carries the e-mail of the second sign-in.
pub proof fn upsert_same_identity_keeps_id(
    before: Map<i32, UserRecord>,
    mid: Map<i32, UserRecord>,
    after: Map<i32, UserRecord>,
    provider: Seq<char>,
    sub: Seq<char>,
    first_email: Seq<char>,
    second_email: Seq<char>,
    first_id: i32,
    second_id: i32,
)
    requires
        crate::application::ports::user_repository::identities_unique(before),
        crate::application::ports::user_repository::upserted(
            before,
            mid,
            provider,
            sub,
            first_email,
            first_id,
        ),
        crate::application::ports::user_repository::upserted(
            mid,
            after,
            provider,
            sub,
            second_email,
            second_id,
        ),
    ensures
        second_id == first_id,
        after.contains_key(first_id),
        after[first_id].email == second_email,
        after.dom() == mid.dom(),
{
    upsert_keeps_identities_unique(before, mid, provider, sub, first_email, first_id);
    assert(mid.contains_key(first_id) && mid[first_id].provider == provider && mid[first_id].sub
        == sub);
    assert(crate::application::ports::user_repository::identity_known(mid, provider, sub));
    assert(mid[second_id].provider == provider);
    assert(after.dom() =~= mid.dom());
}

/// A first sign-in with an identity creates a user under an id not used
/// before, and leaves every other user as it was.
pub proof fn upsert_new_identity_adds_user(
    before: Map<i32, UserRecord>,
    after: Map<i32, UserRecord>,
    provider: Seq<char>,
    sub: Seq<char>,
    email: Seq<char>,
    id: i32,
)
    requires
        !crate::application::ports::user_repository::identity_known(before, provider, sub),
        crate::application::ports::user_repository::upserted(before, after, provider, sub, email, id),
    ensures
        !before.contains_key(id),
        after.dom() == before.dom().insert(id),
        forall|k: i32| #[trigger] before.contains_key(k) ==> after[k] == before[k],
{
    assert(after.dom() =~= before.dom().insert(id));
}

/// After an upsert, looking the returned id up reports the user with the
/// identity and e-mail just written, unless the lookup fails.
pub proof fn upserted_user_is_found(
    before: Map<i32, UserRecord>,
    after: Map<i32, UserRecord>,
    provider: Seq<char>,
    sub: Seq<char>,
    email: Seq<char>,
    id: i32,
    r: Result<Option<UserEntity>, AppError>,
)
    requires
        crate::application::ports::user_repository::upserted(before, after, provider, sub, email, id),
        crate::application::ports::user_repository::user_lookup(after, id, r),
        r is Ok,
    ensures
        r matches Ok(Some(u)) && u.id.0 == id && u.provider@ == provider && u.sub@ == sub
            && u.email@ == email,
{
}

/// Looking up an id that no user has reports no user.
pub proof fn unknown_user_not_found(
    users: Map<i32, UserRecord>,
    id: i32,
    r: Result<Option<UserEntity>, AppError>,
)
    requires
        !users.contains_key(id),
        crate::application::ports::user_repository::user_lookup(users, id, r),
    ensures
        !(r matches Ok(Some(_))),
{
}

} // verus!
