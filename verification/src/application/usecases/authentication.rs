//! Signing users in and out: after the identity provider has vouched for a
//! user, the user is recorded and a session is opened for it.

use crate::application::errors::AppError;
use crate::application::ports::auth_provider::ExternalProfile;
use crate::application::ports::session_repository::{SessionRecord, SessionRepository};
use crate::application::ports::user_repository::{UserRecord, UserRepository};
use crate::application::services::user_service::UserService;
use crate::application::types::{Email, Provider, SessionId, Sub};
use crate::domain::services::session_service::{generate_session_id, SessionService};
use vstd::prelude::*;

verus! {

/// Sign-in and sign-out over the session and user services.
pub struct Authentication<S: SessionRepository, D: UserRepository> {
    session: SessionService<S>,
    user: UserService<D>,
}

impl<S: SessionRepository, D: UserRepository> Authentication<S, D> {
    /// The stored sessions.
    pub closed spec fn sessions(&self) -> Map<Seq<char>, SessionRecord> {
        self.session.sessions()
    }

    /// The stored users.
    pub closed spec fn users(&self) -> Map<i32, UserRecord> {
        self.user.users()
    }

    /// Both underlying repositories are consistent.
    pub closed spec fn well_formed(&self) -> bool {
        self.session.well_formed() && self.user.well_formed()
    }

    /// The session store never fails and user lookups never fail.
    pub closed spec fn dependable(&self) -> bool {
        self.session.dependable() && self.user.dependable()
    }

    /// An upsert of the identity `(provider, sub)` succeeds now.
    pub closed spec fn accepts(&self, provider: Seq<char>, sub: Seq<char>) -> bool {
        self.user.accepts(provider, sub)
    }

    pub fn new(session: SessionService<S>, user: UserService<D>) -> (r: Self)
        requires
            session.well_formed(),
            user.well_formed(),
        ensures
            r.well_formed(),
            r.sessions() == session.sessions(),
            r.users() == user.users(),
            r.dependable() == (session.dependable() && user.dependable()),
            forall|provider: Seq<char>, sub: Seq<char>|
                r.accepts(provider, sub) == user.accepts(provider, sub),
    {
        Authentication { session, user }
    }

    /// Ends a session. A failure to delete it is not reported: the session
    /// is then left as it was. A dependable store always deletes it.
    pub fn logout(&mut self, session_id: &SessionId)
        requires
            old(self).well_formed(),
        ensures
            final(self).well_formed(),
            final(self).users() == old(self).users(),
            final(self).sessions() == old(self).sessions().remove(session_id@)
                || final(self).sessions() == old(self).sessions(),
            old(self).dependable() ==> final(self).sessions() == old(self).sessions().remove(
                session_id@,
            ),
            final(self).dependable() == old(self).dependable(),
            forall|provider: Seq<char>, sub: Seq<char>|
                final(self).accepts(provider, sub) == old(self).accepts(provider, sub),
    {
        let _ = self.session.delete_session(session_id);
    }

    /// Completes a sign-in at `provider_name` for the user the provider
    /// reported: records the user (or updates its e-mail) and opens a new
    /// session for it that expires `ttl` microseconds after `now`
    /// (microseconds since the Unix epoch). Returns the new session id, the
    /// URL-safe base64 text of 32 random bytes. Every failure is the storage
    /// error of the repository that failed; with a dependable session store
    /// and an upsert the user store accepts, it succeeds.
    pub fn update_session(
        &mut self,
        provider_name: &str,
        profile: ExternalProfile,
        now: i64,
        ttl: i64,
    ) -> (r: Result<SessionId, AppError>)
        requires
            old(self).well_formed(),
            0 <= ttl,
            now + ttl <= i64::MAX,
        ensures
            final(self).well_formed(),
            r matches Err(e) ==> e is SQL,
            old(self).dependable() && old(self).accepts(provider_name@, profile.sub@) ==> r is Ok,
            final(self).dependable() == old(self).dependable(),
            r matches Ok(sid) ==> {
                &&& sid@.len() == 43
                &&& exists|bytes: Seq<u8>|
                    bytes.len() == 32 && sid@ == crate::codec::base64_url_nopad_encoding(bytes)
                &&& exists|id: i32|
                    {
                        &&& crate::application::ports::user_repository::upserted(
                            old(self).users(),
                            final(self).users(),
                            provider_name@,
                            profile.sub@,
                            profile.email@,
                            id,
                        )
                        &&& final(self).sessions() == old(self).sessions().insert(
                            sid@,
                            SessionRecord { user_id: id, expires_at: (now + ttl) as i64 },
                        )
                    }
            },
            r is Err ==> {
                &&& final(self).sessions() == old(self).sessions()
                &&& final(self).users() == old(self).users() || exists|id: i32|
                    crate::application::ports::user_repository::upserted(
                        old(self).users(),
                        final(self).users(),
                        provider_name@,
                        profile.sub@,
                        profile.email@,
                        id,
                    )
            },
    {
        let provider = Provider(provider_name.to_owned());
        let sub = Sub(profile.sub);
        let email = Email(profile.email);
        let user_id = match self.user.create_or_update_user(&provider, &sub, &email) {
            Ok(id) => id,
            Err(e) => return Err(e),
        };
        let session_id = generate_session_id();
        let expires_at = now + ttl;
        self.session.create_session(&user_id, &session_id, expires_at)?;
        assert(crate::application::ports::user_repository::upserted(
            old(self).users(),
            self.users(),
            provider_name@,
            profile.sub@,
            profile.email@,
            user_id.0,
        ));
        Ok(session_id)
    }
}

} // verus!
