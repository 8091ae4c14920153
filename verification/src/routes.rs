//! The login request handler: turns a validation outcome into an HTTP-level
//! outcome. Success establishes a session (rotation first, then the user-id
//! binding) and redirects to the dashboard; every failure queues a one-time
//! message and redirects back to the login page with "see other", so a
//! reload never resubmits the credentials.

use vstd::prelude::*;

use uuid::Uuid;

use crate::authentication::authenticate;
use crate::authentication::password_chars;
use crate::authentication::password_matches;
use crate::authentication::phc_parses;
use crate::authentication::AuthError;
use crate::authentication::Credentials;
use crate::authentication::CredentialStore;
use crate::flash_messages::FlashMessages;
use crate::session_state::TypedSession;

verus! {

/// Why a login request failed. `AuthError` is the caller's fault (bad
/// credentials); `UnexpectedError` is an infrastructure fault. The payload
/// is a diagnostic description, kept for logs: the client only ever sees
/// the fixed message text.
#[derive(Debug)]
pub enum LoginError {
    AuthError(String),
    UnexpectedError(String),
}

/// The fixed, user-visible text for each failure class.
pub open spec fn spec_message(e: LoginError) -> Seq<char> {
    match e {
        LoginError::AuthError(_) => "Authentication failed"@,
        LoginError::UnexpectedError(_) => "Something went wrong"@,
    }
}

impl LoginError {
    /// The user-visible message: a fixed text per failure class, never the
    /// underlying cause.
    pub fn message(&self) -> (m: String)
        ensures
            m@ == spec_message(*self),
    {
        match self {
            LoginError::AuthError(_) => "Authentication failed".to_owned(),
            LoginError::UnexpectedError(_) => "Something went wrong".to_owned(),
        }
    }
}

/// The response the handler asks the framework to emit: always a "see
/// other" redirect to one of two fixed locations.
#[derive(Debug)]
pub struct LoginResponse {
    pub status: u16,
    pub location: String,
}

/// A failed login as the framework boundary sees it: the response to emit,
/// and the error kept alongside for diagnostics only.
#[derive(Debug)]
pub struct LoginFault {
    pub error: LoginError,
    pub response: LoginResponse,
}

/// Queues the error's one-time message and redirects back to the login
/// page, keeping the error itself for diagnostics.
pub fn login_redirect(error: LoginError, flash: &mut FlashMessages) -> (r: LoginFault)
    ensures
        r.error == error,
        r.response.status == 303,
        r.response.location@ == "/login"@,
        final(flash).messages() == old(flash).messages().push(spec_message(error)),
{
    let message = error.message();
    flash.send(message);
    LoginFault { error, response: LoginResponse { status: 303, location: "/login".to_owned() } }
}

/// Turns a validation outcome into the login request's outcome.
///
/// On success the session identifier is renewed before the user id is
/// bound, so the post-login session never answers to a pre-login token; the
/// response is a "see other" redirect to the dashboard. Bad credentials and
/// infrastructure faults both degrade to the login-page redirect with their
/// one-time message, a session-store failure after successful validation
/// included; the session is only touched on the success path.
pub fn login(
    validation: Result<Uuid, AuthError>,
    session: &mut TypedSession,
    flash: &mut FlashMessages,
) -> (r: Result<LoginResponse, LoginFault>)
    ensures
        r is Ok <==> validation is Ok && old(session).backend_available,
        validation matches Ok(user_id) ==> old(session).backend_available ==> ({
            &&& r matches Ok(resp) && resp.status == 303 && resp.location@ == "/admin/dashboard"@
            &&& final(session).user_id == Some(user_id)
            &&& final(session).id != old(session).id
            &&& final(session).backend_available == old(session).backend_available
            &&& final(flash).messages() == old(flash).messages()
        }),
        validation is Ok && !old(session).backend_available ==> ({
            &&& r matches Err(f) && f.error is UnexpectedError && f.response.status == 303
                && f.response.location@ == "/login"@
            &&& final(flash).messages() == old(flash).messages().push("Something went wrong"@)
            &&& final(session).user_id == old(session).user_id
            &&& final(session).id != old(session).id
        }),
        validation matches Err(AuthError::InvalidCredentials(cause)) ==> ({
            &&& r matches Err(f) && f.error == LoginError::AuthError(cause)
                && f.response.status == 303 && f.response.location@ == "/login"@
            &&& final(flash).messages() == old(flash).messages().push("Authentication failed"@)
            &&& *final(session) == *old(session)
        }),
        validation matches Err(AuthError::UnexpectedError(cause)) ==> ({
            &&& r matches Err(f) && f.error == LoginError::UnexpectedError(cause)
                && f.response.status == 303 && f.response.location@ == "/login"@
            &&& final(flash).messages() == old(flash).messages().push("Something went wrong"@)
            &&& *final(session) == *old(session)
        }),
{
    match validation {
        Ok(user_id) => {
            session.renew();
            match session.insert_user_id(user_id) {
                Ok(()) => Ok(
                    LoginResponse { status: 303, location: "/admin/dashboard".to_owned() },
                ),
                Err(_) => Err(
                    login_redirect(
                        LoginError::UnexpectedError("the session store is unavailable".to_owned()),
                        flash,
                    ),
                ),
            }
        },
        Err(e) => {
            let e = match e {
                AuthError::InvalidCredentials(cause) => LoginError::AuthError(cause),
                AuthError::UnexpectedError(cause) => LoginError::UnexpectedError(cause),
            };
            Err(login_redirect(e, flash))
        },
    }
}

/// One whole login request: validate the credentials against the store,
/// then turn the outcome into the HTTP-level result.
///
/// An unknown username or a wrong password redirects back to the login page
/// with the one-time "Authentication failed" message and leaves the session
/// alone; an unreachable store does the same with "Something went wrong",
/// and neither its fault text nor any other cause reaches the flash queue
/// or the response. With a healthy store, a present username whose
/// well-formed stored hash matches the password redirects to the dashboard
/// with a renewed session bound to the stored user id.
pub fn handle_login(
    store: &CredentialStore,
    credentials: &Credentials,
    session: &mut TypedSession,
    flash: &mut FlashMessages,
) -> (r: Result<LoginResponse, LoginFault>)
    requires
        store.wf(),
    ensures
        r is Ok <==> ({
            &&& store.reachable
            &&& store.has_username(credentials.username@)
            &&& phc_parses(store.stored_password_hash(credentials.username@))
            &&& password_matches(
                password_chars(credentials.password),
                store.stored_password_hash(credentials.username@),
            )
            &&& old(session).backend_available
        }),
        !store.reachable ==> ({
            &&& r matches Err(f) && f.error is UnexpectedError && f.response.status == 303
                && f.response.location@ == "/login"@
            &&& final(flash).messages() == old(flash).messages().push("Something went wrong"@)
            &&& *final(session) == *old(session)
        }),
        store.reachable && !store.has_username(credentials.username@) ==> ({
            &&& r matches Err(f) && f.error is AuthError && f.response.status == 303
                && f.response.location@ == "/login"@
            &&& final(flash).messages() == old(flash).messages().push("Authentication failed"@)
            &&& *final(session) == *old(session)
        }),
        store.reachable && store.has_username(credentials.username@) ==> ({
            let hash = store.stored_password_hash(credentials.username@);
            &&& phc_parses(hash) && password_matches(password_chars(credentials.password), hash)
                && old(session).backend_available ==> ({
                &&& r matches Ok(resp) && resp.status == 303 && resp.location@
                    == "/admin/dashboard"@
                &&& final(session).user_id == Some(store.stored_user_id(credentials.username@))
                &&& final(session).id != old(session).id
                &&& final(flash).messages() == old(flash).messages()
            })
            &&& phc_parses(hash) && !password_matches(password_chars(credentials.password), hash)
                ==> ({
                &&& r matches Err(f) && f.error is AuthError && f.response.status == 303
                    && f.response.location@ == "/login"@
                &&& final(flash).messages() == old(flash).messages().push(
                    "Authentication failed"@,
                )
                &&& *final(session) == *old(session)
            })
            &&& !phc_parses(hash) ==> ({
                &&& r matches Err(f) && f.error is UnexpectedError && f.response.status == 303
                    && f.response.location@ == "/login"@
                &&& final(flash).messages() == old(flash).messages().push(
                    "Something went wrong"@,
                )
                &&& *final(session) == *old(session)
            })
            &&& phc_parses(hash) && password_matches(password_chars(credentials.password), hash)
                && !old(session).backend_available ==> ({
                &&& r matches Err(f) && f.error is UnexpectedError && f.response.status == 303
                    && f.response.location@ == "/login"@
                &&& final(flash).messages() == old(flash).messages().push(
                    "Something went wrong"@,
                )
                &&& final(session).user_id == old(session).user_id
                &&& final(session).id != old(session).id
            })
        }),
{
    let outcome = authenticate(store, credentials);
    login(outcome, session, flash)
}

} // verus!
