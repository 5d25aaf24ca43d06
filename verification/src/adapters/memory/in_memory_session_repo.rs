//! Sessions kept in memory.

use crate::application::entities::session_entity::SessionEntity;
use crate::application::errors::AppError;
use crate::application::ports::session_repository::{SessionRecord, SessionRepository};
use crate::application::types::{Email, SessionId, SessionUser, UserId};
use crate::text::str_eq;
use vstd::prelude::*;

verus! {

pub open spec fn record_of(e: SessionEntity) -> SessionRecord {
    SessionRecord { user_id: e.user_id.0, expires_at: e.expires_at }
}

/// Sessions kept in a list in memory. This store keeps no users: it reports
/// the user of every session with the address `test@example.com`, and it
/// does not look at expiry times.
pub struct InMemorySessionRepo {
    entries: Vec<SessionEntity>,
    model: Ghost<Map<Seq<char>, SessionRecord>>,
}

impl InMemorySessionRepo {
    /// An empty store.
    pub fn new() -> (r: Self)
        ensures
            r.well_formed(),
            r.dependable(),
            r.sessions() == Map::<Seq<char>, SessionRecord>::empty(),
    {
        InMemorySessionRepo { entries: Vec::new(), model: Ghost(Map::empty()) }
    }

    fn position(&self, session_id: &SessionId) -> (r: Option<usize>)
        requires
            self.well_formed(),
        ensures
            match r {
                Some(i) => i < self.entries@.len() && self.entries@[i as int].session_id@
                    == session_id@,
                None => !self.model@.contains_key(session_id@),
            },
    {
        let mut i: usize = 0;
        while i < self.entries.len()
            invariant
                i <= self.entries@.len(),
                forall|j: int| 0 <= j < i ==> (#[trigger] self.entries@[j]).session_id@ != session_id@,
            decreases self.entries@.len() - i,
        {
            if str_eq(self.entries[i].session_id.0.as_str(), session_id.0.as_str()) {
                return Some(i);
            }
            i = i + 1;
        }
        None
    }
}

impl SessionRepository for InMemorySessionRepo {
    closed spec fn sessions(&self) -> Map<Seq<char>, SessionRecord> {
        self.model@
    }

    /// A store in memory never fails.
    open spec fn dependable(&self) -> bool {
        true
    }

    /// This store keeps no users and reports the same address for all.
    open spec fn reported_email(&self, user_id: i32) -> Seq<char> {
        "test@example.com"@
    }

    closed spec fn well_formed(&self) -> bool {
        &&& forall|i: int|
            0 <= i < self.entries@.len() ==> {
                &&& self.model@.contains_key((#[trigger] self.entries@[i]).session_id@)
                &&& self.model@[self.entries@[i].session_id@] == record_of(self.entries@[i])
            }
        &&& forall|k: Seq<char>|
            #[trigger] self.model@.contains_key(k) ==> exists|i: int|
                0 <= i < self.entries@.len() && (#[trigger] self.entries@[i]).session_id@ == k
        &&& forall|i: int, j: int|
            0 <= i < self.entries@.len() && 0 <= j < self.entries@.len() && i != j ==> (
            #[trigger] self.entries@[i]).session_id@ != (#[trigger] self.entries@[j]).session_id@
    }

    fn create_session(&mut self, user_id: &UserId, session_id: &SessionId, expires_at: i64) -> (r:
        Result<(), AppError>)
        ensures
            r is Ok,
    {
        let entry = SessionEntity {
            session_id: SessionId(session_id.0.clone()),
            user_id: UserId(user_id.0),
            expires_at,
        };
        let ghost new_model = self.model@.insert(session_id@, record_of(entry));
        match self.position(session_id) {
            Some(i) => {
                let ghost before = self.entries@;
                self.entries.remove(i);
                self.entries.push(entry);
                proof {
                    self.model = Ghost(new_model);
                    assert forall|k: Seq<char>| #[trigger]
                        self.model@.contains_key(k) implies exists|j: int|
                        0 <= j < self.entries@.len() && (#[trigger] self.entries@[j]).session_id@
                            == k by {
                        if k == session_id@ {
                            assert(self.entries@[self.entries@.len() - 1].session_id@ == k);
                        } else {
                            let j0 = choose|j: int|
                                0 <= j < before.len() && (#[trigger] before[j]).session_id@ == k;
                            if j0 < i {
                                assert(self.entries@[j0].session_id@ == k);
                            } else {
                                assert(self.entries@[j0 - 1].session_id@ == k);
                            }
                        }
                    }
                }
            },
            None => {
                self.entries.push(entry);
                proof {
                    self.model = Ghost(new_model);
                    assert forall|k: Seq<char>| #[trigger]
                        self.model@.contains_key(k) implies exists|j: int|
                        0 <= j < self.entries@.len() && (#[trigger] self.entries@[j]).session_id@
                            == k by {
                        if k == session_id@ {
                            assert(self.entries@[self.entries@.len() - 1].session_id@ == k);
                        } else {
                            let j0 = choose|j: int|
                                0 <= j < old(self).entries@.len() && (#[trigger] old(
                                    self,
                                ).entries@[j]).session_id@ == k;
                            assert(self.entries@[j0].session_id@ == k);
                        }
                    }
                }
            },
        }
        Ok(())
    }

    fn delete_session_by_id(&mut self, session_id: &SessionId) -> (r: Result<(), AppError>)
        ensures
            r is Ok,
    {
        match self.position(session_id) {
            Some(i) => {
                let ghost before = self.entries@;
                self.entries.remove(i);
                proof {
                    self.model = Ghost(self.model@.remove(session_id@));
                    assert forall|k: Seq<char>| #[trigger]
                        self.model@.contains_key(k) implies exists|j: int|
                        0 <= j < self.entries@.len() && (#[trigger] self.entries@[j]).session_id@
                            == k by {
                        let j0 = choose|j: int|
                            0 <= j < before.len() && (#[trigger] before[j]).session_id@ == k;
                        if j0 < i {
                            assert(self.entries@[j0].session_id@ == k);
                        } else {
                            assert(self.entries@[j0 - 1].session_id@ == k);
                        }
                    }
                }
            },
            None => {
                proof {
                    assert(self.model@.remove(session_id@) =~= self.model@);
                }
            },
        }
        Ok(())
    }

    fn find_session_user_by_id(&self, session_id: &SessionId) -> (r: Result<
        Option<SessionUser>,
        AppError,
    >)
        ensures
            r is Ok,
            r matches Ok(Some(u)) ==> u.email@ == "test@example.com"@,
            (r matches Ok(Some(_))) == self.sessions().contains_key(session_id@),
    {
        match self.position(session_id) {
            Some(i) => Ok(
                Some(
                    SessionUser {
                        user_id: UserId(self.entries[i].user_id.0),
                        email: Email("test@example.com".to_owned()),
                    },
                ),
            ),
            None => Ok(None),
        }
    }
}

} // verus!
