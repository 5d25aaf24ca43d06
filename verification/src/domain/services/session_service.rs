//! Login sessions: creation, lookup and removal over a session repository,
//! and generation of fresh session ids.

use crate::application::errors::AppError;
use crate::application::ports::session_repository::{SessionRecord, SessionRepository};
use crate::application::types::{SessionId, SessionUser, UserId};
use crate::codec::base64_url_nopad_encode;
use rand::Rng;
use vstd::prelude::*;

verus! {

/// Number of random bytes in a session id.
pub const SESSION_ID_BYTES: usize = 32;

/// Session operations over a session repository.
pub struct SessionService<S: SessionRepository> {
    session_repo: S,
}

impl<S: SessionRepository> SessionService<S> {
    /// The sessions stored in the underlying repository.
    pub closed spec fn sessions(&self) -> Map<Seq<char>, SessionRecord> {
        self.session_repo.sessions()
    }

    /// The underlying repository is consistent.
    pub closed spec fn well_formed(&self) -> bool {
        self.session_repo.well_formed()
    }

    /// The underlying repository never fails and answers lookups exactly.
    pub closed spec fn dependable(&self) -> bool {
        self.session_repo.dependable()
    }

    /// The e-mail address a lookup reports with the user `user_id`.
    pub closed spec fn reported_email(&self, user_id: i32) -> Seq<char> {
        self.session_repo.reported_email(user_id)
    }

    pub fn new(session_repo: S) -> (r: Self)
        requires
            session_repo.well_formed(),
        ensures
            r.well_formed(),
            r.sessions() == session_repo.sessions(),
            r.dependable() == session_repo.dependable(),
            forall|u: i32| #[trigger] r.reported_email(u) == session_repo.reported_email(u),
    {
        SessionService { session_repo }
    }

    /// The user of a stored session, if the repository reports one.
    pub fn find_user_by_session(&self, session_id: &SessionId) -> (r: Result<
        Option<SessionUser>,
        AppError,
    >)
        requires
            self.well_formed(),
        ensures
            crate::application::ports::session_repository::session_lookup(
                self.sessions(),
                session_id@,
                r,
            ),
            r matches Ok(Some(u)) ==> u.email@ == self.reported_email(u.user_id.0),
            r matches Err(e) ==> e is SQL,
            self.dependable() ==> (r matches Ok(found) && (found is Some <==> self.sessions().contains_key(
                session_id@,
            ))),
    {
        self.session_repo.find_session_user_by_id(session_id)
    }

    /// Removes a session.
    pub fn delete_session(&mut self, session_id: &SessionId) -> (r: Result<(), AppError>)
        requires
            old(self).well_formed(),
        ensures
            final(self).well_formed(),
            r is Ok ==> final(self).sessions() == old(self).sessions().remove(session_id@),
            r is Err ==> final(self).sessions() == old(self).sessions(),
            r matches Err(e) ==> e is SQL,
            final(self).dependable() == old(self).dependable(),
            old(self).dependable() ==> r is Ok,
            forall|u: i32| #[trigger] final(self).reported_email(u) == old(self).reported_email(u),
    {
        self.session_repo.delete_session_by_id(session_id)
    }

    /// Stores a session of `user_id` that expires at `expires_at`
    /// (microseconds since the Unix epoch).
    pub fn create_session(&mut self, user_id: &UserId, session_id: &SessionId, expires_at: i64) -> (r:
        Result<(), AppError>)
        requires
            old(self).well_formed(),
        ensures
            final(self).well_formed(),
            r is Ok ==> final(self).sessions() == old(self).sessions().insert(
                session_id@,
                SessionRecord { user_id: user_id.0, expires_at },
            ),
            r is Err ==> final(self).sessions() == old(self).sessions(),
            r matches Err(e) ==> e is SQL,
            final(self).dependable() == old(self).dependable(),
            old(self).dependable() ==> r is Ok,
            forall|u: i32| #[trigger] final(self).reported_email(u) == old(self).reported_email(u),
    {
        self.session_repo.create_session(user_id, session_id, expires_at)
    }
}

/// Calls `rand::rng().fill` of the `rand` crate on a 32-byte buffer. The
/// bytes are random, so nothing is claimed of them beyond their number.
#[verifier::external_body]
fn random_session_bytes() -> (r: [u8; 32]) {
    let mut sid_bytes = [0u8; 32];
    rand::rng().fill(&mut sid_bytes);
    sid_bytes
}

/// A fresh session id: 32 random bytes in unpadded URL-safe base64, which
/// makes 43 characters.
pub fn generate_session_id() -> (r: SessionId)
    ensures
        exists|bytes: Seq<u8>|
            bytes.len() == SESSION_ID_BYTES && r@ == crate::codec::base64_url_nopad_encoding(bytes),
        r@.len() == 43,
{
    let sid_bytes = random_session_bytes();
    let sid = base64_url_nopad_encode(sid_bytes.as_slice());
    proof {
        crate::codec::lemma_base64_text_len(sid_bytes@, true, false);
    }
    SessionId(sid)
}

} // verus!

verus! {

/// A session reported right after it was created belongs to the user it was
/// created for.
pub proof fn found_session_belongs_to_creator(
    sessions: Map<Seq<char>, SessionRecord>,
    session_id: Seq<char>,
    user_id: i32,
    expires_at: i64,
    r: Result<Option<SessionUser>, AppError>,
)
    requires
        crate::application::ports::session_repository::session_lookup(
            sessions.insert(session_id, SessionRecord { user_id, expires_at }),
            session_id,
            r,
        ),
    ensures
        r matches Ok(Some(u)) ==> u.user_id.0 == user_id,
{
}

/// A deleted session is never reported again.
pub proof fn deleted_session_not_found(
    sessions: Map<Seq<char>, SessionRecord>,
    session_id: Seq<char>,
    r: Result<Option<SessionUser>, AppError>,
)
    requires
        crate::application::ports::session_repository::session_lookup(
            sessions.remove(session_id),
            session_id,
            r,
        ),
    ensures
        !(r matches Ok(Some(_))),
{
}

/// A session id that was never stored is never reported.
pub proof fn unknown_session_not_found(
    sessions: Map<Seq<char>, SessionRecord>,
    session_id: Seq<char>,
    r: Result<Option<SessionUser>, AppError>,
)
    requires
        !sessions.contains_key(session_id),
        crate::application::ports::session_repository::session_lookup(sessions, session_id, r),
    ensures
        !(r matches Ok(Some(_))),
{
}

/// Creating or deleting one session leaves every other session as it was.
pub proof fn other_sessions_untouched(
    sessions: Map<Seq<char>, SessionRecord>,
    session_id: Seq<char>,
    other: Seq<char>,
    record: SessionRecord,
)
    requires
        other != session_id,
    ensures
        sessions.insert(session_id, record).contains_key(other) == sessions.contains_key(other),
        sessions.remove(session_id).contains_key(other) == sessions.contains_key(other),
        sessions.contains_key(other) ==> sessions.insert(session_id, record)[other] == sessions[other],
        sessions.contains_key(other) ==> sessions.remove(session_id)[other] == sessions[other],
{
}

} // verus!
