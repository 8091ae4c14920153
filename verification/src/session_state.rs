//! Server-side session state for a logged-in operator.
//!
//! The client holds only the opaque identifier; the binding from that
//! identifier to a user id lives here. Rotating the identifier before
//! binding a freshly authenticated user defeats session fixation: a token
//! handed out before authentication never names an authenticated session.

use vstd::prelude::*;

use uuid::Uuid;

verus! {

/// The session backend could not be reached; nothing was written.
#[derive(Debug)]
pub enum SessionError {
    StoreUnavailable,
}

/// One client's server-side session: an opaque identifier, the user id
/// bound to it (none before login), and whether the backing store can
/// currently be written. Rotation models the backend's fresh-identifier
/// allocation: the only promise is that the identifier changes.
pub struct TypedSession {
    pub id: u64,
    pub user_id: Option<Uuid>,
    pub backend_available: bool,
}

/// How `renew` changes a session: a fresh identifier, every other attribute
/// kept.
pub open spec fn renew_transition(pre: TypedSession, post: TypedSession) -> bool {
    &&& post.id != pre.id
    &&& post.user_id == pre.user_id
    &&& post.backend_available == pre.backend_available
}

/// How `insert_user_id` changes a session: when the backend is reachable the
/// user id is bound and the call succeeds; otherwise nothing changes and the
/// call reports the failure. The identifier is never touched.
pub open spec fn insert_transition(
    pre: TypedSession,
    post: TypedSession,
    user_id: Uuid,
    r: Result<(), SessionError>,
) -> bool {
    &&& post.id == pre.id
    &&& post.backend_available == pre.backend_available
    &&& pre.backend_available ==> r is Ok && post.user_id == Some(user_id)
    &&& !pre.backend_available ==> r is Err && post.user_id == pre.user_id
}

impl TypedSession {
    /// A session as a client first gets it: anonymous, with the identifier
    /// the backend allocated for it.
    pub fn anonymous(id: u64, backend_available: bool) -> (s: TypedSession)
        ensures
            s.id == id,
            s.user_id is None,
            s.backend_available == backend_available,
    {
        TypedSession { id, user_id: None, backend_available }
    }

    /// Invalidates the current identifier and allocates a fresh one, keeping
    /// every stored attribute.
    pub fn renew(&mut self)
        ensures
            renew_transition(*old(self), *final(self)),
    {
        self.id = if self.id == u64::MAX {
            0
        } else {
            self.id + 1
        };
    }

    /// Binds a user id into the session storage; fails with an opaque error
    /// if the backend cannot be reached, in which case nothing is stored.
    pub fn insert_user_id(&mut self, user_id: Uuid) -> (r: Result<(), SessionError>)
        ensures
            insert_transition(*old(self), *final(self), user_id, r),
    {
        if self.backend_available {
            self.user_id = Some(user_id);
            Ok(())
        } else {
            Err(SessionError::StoreUnavailable)
        }
    }
}

/// Law: renewing and then binding a user id yields a session whose
/// identifier differs from the pre-renewal one and which is bound to exactly
/// that user id, so a pre-authentication token never names the
/// authenticated session.
pub proof fn lemma_renew_then_insert_rotates(
    pre: TypedSession,
    renewed: TypedSession,
    bound: TypedSession,
    user_id: Uuid,
    r: Result<(), SessionError>,
)
    requires
        renew_transition(pre, renewed),
        insert_transition(renewed, bound, user_id, r),
        r is Ok,
    ensures
        bound.id != pre.id,
        bound.user_id == Some(user_id),
{
}

} // verus!
