use crate::application::types::{SessionId, UserId};
use vstd::prelude::*;

verus! {

/// A login session. `expires_at` is in microseconds since the Unix epoch.
#[derive(Clone, Debug)]
pub struct SessionEntity {
    pub session_id: SessionId,
    pub user_id: UserId,
    pub expires_at: i64,
}

} // verus!
