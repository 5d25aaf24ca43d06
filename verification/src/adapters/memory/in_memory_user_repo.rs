//! Users kept in memory.

use crate::application::entities::user_entity::UserEntity;
use crate::application::errors::AppError;
use crate::application::ports::user_repository::{UserRecord, UserRepository};
use crate::application::types::{Email, Provider, Sub, UserId};
use crate::text::str_eq;
use vstd::prelude::*;

verus! {

pub open spec fn user_record_of(e: UserEntity) -> UserRecord {
    UserRecord { provider: e.provider@, sub: e.sub@, email: e.email@, created: e.created }
}

/// Users kept in a list in memory. Ids are handed out counting up from 1;
/// `created` is left at the Unix epoch.
pub struct InMemoryUserRepo {
    entries: Vec<UserEntity>,
    next_id: i32,
    model: Ghost<Map<i32, UserRecord>>,
}

impl InMemoryUserRepo {
    /// The last id handed out, 0 before the first user.
    pub closed spec fn last_id(&self) -> i32 {
        self.next_id
    }

    /// An empty store.
    pub fn new() -> (r: Self)
        ensures
            r.well_formed(),
            r.users() == Map::<i32, UserRecord>::empty(),
            r.last_id() == 0,
            r.dependable(),
            forall|provider: Seq<char>, sub: Seq<char>| r.accepts(provider, sub),
    {
        InMemoryUserRepo { entries: Vec::new(), next_id: 0, model: Ghost(Map::empty()) }
    }

    fn position_of_identity(&self, provider: &Provider, sub: &Sub) -> (r: Option<usize>)
        requires
            self.well_formed(),
        ensures
            match r {
                Some(i) => {
                    &&& i < self.entries@.len()
                    &&& self.entries@[i as int].provider@ == provider@
                    &&& self.entries@[i as int].sub@ == sub@
                },
                None => !crate::application::ports::user_repository::identity_known(
                    self.model@,
                    provider@,
                    sub@,
                ),
            },
    {
        let mut i: usize = 0;
        while i < self.entries.len()
            invariant
                self.well_formed(),
                i <= self.entries@.len(),
                forall|j: int|
                    0 <= j < i ==> !((#[trigger] self.entries@[j]).provider@ == provider@
                        && self.entries@[j].sub@ == sub@),
            decreases self.entries@.len() - i,
        {
            if str_eq(self.entries[i].provider.0.as_str(), provider.0.as_str()) && str_eq(
                self.entries[i].sub.0.as_str(),
                sub.0.as_str(),
            ) {
                return Some(i);
            }
            i = i + 1;
        }
        proof {
            if crate::application::ports::user_repository::identity_known(
                self.model@,
                provider@,
                sub@,
            ) {
                let k = choose|k: i32|
                    self.model@.contains_key(k) && #[trigger] self.model@[k].provider == provider@
                        && self.model@[k].sub == sub@;
                let j = choose|j: int|
                    0 <= j < self.entries@.len() && (#[trigger] self.entries@[j]).id.0 == k;
                assert(self.entries@[j].provider@ == provider@);
            }
        }
        None
    }

    fn position_of_id(&self, id: i32) -> (r: Option<usize>)
        requires
            self.well_formed(),
        ensures
            match r {
                Some(i) => i < self.entries@.len() && self.entries@[i as int].id.0 == id,
                None => !self.model@.contains_key(id),
            },
    {
        let mut i: usize = 0;
        while i < self.entries.len()
            invariant
                i <= self.entries@.len(),
                forall|j: int| 0 <= j < i ==> (#[trigger] self.entries@[j]).id.0 != id,
            decreases self.entries@.len() - i,
        {
            if self.entries[i].id.0 == id {
                return Some(i);
            }
            i = i + 1;
        }
        None
    }
}

impl UserRepository for InMemoryUserRepo {
    closed spec fn users(&self) -> Map<i32, UserRecord> {
        self.model@
    }

    /// A store in memory never fails a lookup.
    open spec fn dependable(&self) -> bool {
        true
    }

    /// The identity is stored already, or ids are left for a new user.
    closed spec fn accepts(&self, provider: Seq<char>, sub: Seq<char>) -> bool {
        crate::application::ports::user_repository::identity_known(self.model@, provider, sub)
            || self.next_id < i32::MAX
    }

    closed spec fn well_formed(&self) -> bool {
        &&& 0 <= self.next_id
        &&& forall|i: int|
            0 <= i < self.entries@.len() ==> {
                &&& self.model@.contains_key((#[trigger] self.entries@[i]).id.0)
                &&& self.model@[self.entries@[i].id.0] == user_record_of(self.entries@[i])
            }
        &&& forall|k: i32|
            #[trigger] self.model@.contains_key(k) ==> {
                &&& 0 < k <= self.next_id
                &&& exists|i: int|
                    0 <= i < self.entries@.len() && (#[trigger] self.entries@[i]).id.0 == k
            }
        &&& forall|i: int, j: int|
            0 <= i < self.entries@.len() && 0 <= j < self.entries@.len() && i != j ==> (
            #[trigger] self.entries@[i]).id != (#[trigger] self.entries@[j]).id
        &&& crate::application::ports::user_repository::identities_unique(self.model@)
    }

    fn upsert_user(&mut self, provider: &Provider, sub: &Sub, email: &Email) -> (r: Result<
        UserId,
        AppError,
    >)
        ensures
            r matches Ok(id) ==> id.0 > 0,
            r is Err ==> final(self).users() == old(self).users(),
            (r is Err) == (!crate::application::ports::user_repository::identity_known(
                old(self).users(),
                provider@,
                sub@,
            ) && old(self).last_id() == i32::MAX),
            !crate::application::ports::user_repository::identity_known(
                old(self).users(),
                provider@,
                sub@,
            ) ==> (r matches Ok(id) ==> id.0 == old(self).last_id() + 1 && final(self).last_id()
                == id.0),
            r is Ok && crate::application::ports::user_repository::identity_known(
                old(self).users(),
                provider@,
                sub@,
            ) ==> final(self).last_id() == old(self).last_id(),
    {
        match self.position_of_identity(provider, sub) {
            Some(i) => {
                let ghost before = self.entries@;
                let existing = self.entries.remove(i);
                let id = existing.id;
                let updated = UserEntity {
                    id: UserId(id.0),
                    provider: existing.provider,
                    sub: existing.sub,
                    email: Email(email.0.clone()),
                    created: existing.created,
                };
                self.entries.push(updated);
                proof {
                    assert(before[i as int].id.0 == id.0);
                    self.model = Ghost(self.model@.insert(id.0, user_record_of(updated)));
                    assert forall|k: i32| #[trigger] self.model@.contains_key(k) implies {
                        &&& 0 < k <= self.next_id
                        &&& exists|j: int|
                            0 <= j < self.entries@.len() && (#[trigger] self.entries@[j]).id.0
                                == k
                    } by {
                        if k == id.0 {
                            assert(self.entries@[self.entries@.len() - 1].id.0 == k);
                        } else {
                            let j0 = choose|j: int|
                                0 <= j < before.len() && (#[trigger] before[j]).id.0 == k;
                            if j0 < i {
                                assert(self.entries@[j0].id.0 == k);
                            } else {
                                assert(self.entries@[j0 - 1].id.0 == k);
                            }
                        }
                    }
                    assert(crate::application::ports::user_repository::identity_known(
                        old(self).model@,
                        provider@,
                        sub@,
                    ) ==> old(self).model@[id.0].provider == provider@);
                    assert(self.model@.contains_key(id.0) && self.model@[id.0].provider == provider@
                        && self.model@[id.0].sub == sub@);
                }
                Ok(UserId(id.0))
            },
            None => {
                if self.next_id == i32::MAX {
                    return Err(AppError::SQL("user id space exhausted".to_owned()));
                }
                let id = self.next_id + 1;
                let entry = UserEntity {
                    id: UserId(id),
                    provider: Provider(provider.0.clone()),
                    sub: Sub(sub.0.clone()),
                    email: Email(email.0.clone()),
                    created: 0,
                };
                self.entries.push(entry);
                self.next_id = id;
                proof {
                    self.model = Ghost(self.model@.insert(id, user_record_of(entry)));
                    assert forall|k: i32| #[trigger] self.model@.contains_key(k) implies {
                        &&& 0 < k <= self.next_id
                        &&& exists|j: int|
                            0 <= j < self.entries@.len() && (#[trigger] self.entries@[j]).id.0
                                == k
                    } by {
                        if k == id {
                            assert(self.entries@[self.entries@.len() - 1].id.0 == k);
                        } else {
                            let j0 = choose|j: int|
                                0 <= j < old(self).entries@.len() && (#[trigger] old(
                                    self,
                                ).entries@[j]).id.0 == k;
                            assert(self.entries@[j0].id.0 == k);
                        }
                    }
                    assert(self.model@.contains_key(id) && self.model@[id].provider == provider@
                        && self.model@[id].sub == sub@);
                }
                Ok(UserId(id))
            },
        }
    }

    fn find_user_by_id(&self, user_id: &UserId) -> (r: Result<Option<UserEntity>, AppError>)
        ensures
            r is Ok,
    {
        match self.position_of_id(user_id.0) {
            Some(i) => {
                let e = &self.entries[i];
                Ok(
                    Some(
                        UserEntity {
                            id: UserId(e.id.0),
                            provider: Provider(e.provider.0.clone()),
                            sub: Sub(e.sub.0.clone()),
                            email: Email(e.email.0.clone()),
                            created: e.created,
                        },
                    ),
                )
            },
            None => Ok(None),
        }
    }
}

} // verus!
