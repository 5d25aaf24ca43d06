//! Storage of login sessions.

use crate::application::errors::AppError;
use crate::application::types::{SessionId, SessionUser, UserId};
use vstd::prelude::*;

verus! {

/// What is stored for one session id.
pub ghost struct SessionRecord {
    pub user_id: i32,
    /// Microseconds since the Unix epoch.
    pub expires_at: i64,
}

/// A lookup answer is consistent with the stored sessions: a user is only
/// ever reported for a stored session, and it is the session's user.
pub open spec fn session_lookup(
    sessions: Map<Seq<char>, SessionRecord>,
    session_id: Seq<char>,
    r: Result<Option<SessionUser>, AppError>,
) -> bool {
    r matches Ok(Some(u)) ==> {
        &&& sessions.contains_key(session_id)
        &&& sessions[session_id].user_id == u.user_id.0
    }
}

/// Where sessions are kept. A lookup may withhold a stored session (for
/// instance an expired one) but never reports one that is not stored; a
/// failed write leaves the stored sessions as they were, and every failure
/// is a storage (`SQL`) error. A dependable store never fails and answers
/// every lookup by whether the session is stored.
pub trait SessionRepository {
    /// The stored sessions, by session id.
    spec fn sessions(&self) -> Map<Seq<char>, SessionRecord>;

    /// The repository's own consistency condition, kept by every operation.
    spec fn well_formed(&self) -> bool;

    /// Every operation succeeds, and a lookup reports a user exactly for the
    /// stored sessions. Kept by every operation.
    spec fn dependable(&self) -> bool;

    /// The e-mail address a lookup reports with the user `user_id`. Writing
    /// or removing sessions does not change it.
    spec fn reported_email(&self, user_id: i32) -> Seq<char>;

    fn create_session(&mut self, user_id: &UserId, session_id: &SessionId, expires_at: i64) -> (r:
        Result<(), AppError>)
        requires
            old(self).well_formed(),
        ensures
            final(self).well_formed(),
            r is Ok ==> final(self).sessions() == old(self).sessions().insert(
                session_id@,
                SessionRecord { user_id: user_id.0, expires_at },
            ),
            r is Err ==> final(self).sessions() == old(self).sessions(),
            r matches Err(e) ==> e is SQL,
            final(self).dependable() == old(self).dependable(),
            old(self).dependable() ==> r is Ok,
            forall|u: i32| #[trigger] final(self).reported_email(u) == old(self).reported_email(u),
    ;

    fn delete_session_by_id(&mut self, session_id: &SessionId) -> (r: Result<(), AppError>)
        requires
            old(self).well_formed(),
        ensures
            final(self).well_formed(),
            r is Ok ==> final(self).sessions() == old(self).sessions().remove(session_id@),
            r is Err ==> final(self).sessions() == old(self).sessions(),
            r matches Err(e) ==> e is SQL,
            final(self).dependable() == old(self).dependable(),
            old(self).dependable() ==> r is Ok,
            forall|u: i32| #[trigger] final(self).reported_email(u) == old(self).reported_email(u),
    ;

    fn find_session_user_by_id(&self, session_id: &SessionId) -> (r: Result<
        Option<SessionUser>,
        AppError,
    >)
        requires
            self.well_formed(),
        ensures
            session_lookup(self.sessions(), session_id@, r),
            r matches Ok(Some(u)) ==> u.email@ == self.reported_email(u.user_id.0),
            r matches Err(e) ==> e is SQL,
            self.dependable() ==> (r matches Ok(found) && (found is Some <==> self.sessions().contains_key(
                session_id@,
            ))),
    ;
}

} // verus!
