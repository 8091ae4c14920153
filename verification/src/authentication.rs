//! Credential validation: looking a user up by username and checking the
//! supplied password against the stored, PHC-encoded password hash.
//!
//! The expensive hash comparison itself is done by the `argon2` crate; the
//! logic around it (which hash to compare against, how a miss, a mismatch
//! and a storage fault are classified) is verified here.

use vstd::prelude::*;

use argon2::PasswordVerifier;
use secrecy::ExposeSecret;
use secrecy::Secret;
use uuid::Uuid;

verus! {

#[verifier::external_type_specification]
#[verifier::external_body]
pub struct ExUuid(Uuid);

/// A password in transit: a distinct type wrapping the string in
/// `secrecy::Secret`, so that no logging or debug formatting can reach its
/// characters; only the verifier's comparison looks inside. (`Secret`'s own
/// generic carries a bound Verus cannot restate, so the wrapping lives in
/// this opaque field.)
#[verifier::external_body]
pub struct Password {
    secret: Secret<String>,
}

/// The characters a `Password` wraps: what `Password::new` took ownership
/// of, and what `expose_secret` hands the verifier.
pub uninterp spec fn password_chars(p: Password) -> Seq<char>;

impl Password {
    /// Relies on `secrecy::Secret::new`, which takes ownership of the string
    /// unchanged; `expose_secret` is the only way back to it.
    #[verifier::external_body]
    pub fn new(secret: String) -> (p: Password)
        ensures
            password_chars(p) == secret@,
    {
        Password { secret: Secret::new(secret) }
    }
}

/// Whether `argon2::PasswordHash::new` accepts the string as a PHC-format
/// password hash.
pub uninterp spec fn phc_parses(hash: Seq<char>) -> bool;

/// Whether `argon2::Argon2::verify_password`, with the default parameters,
/// accepts the password against the PHC-encoded hash.
pub uninterp spec fn password_matches(password: Seq<char>, hash: Seq<char>) -> bool;

/// A username together with the password a caller claims belongs to it.
pub struct Credentials {
    pub username: String,
    pub password: Password,
}

/// What the credential store holds for one user: the identity to establish
/// on a successful login and the PHC-encoded hash of the user's password.
pub struct StoredCredentialRecord {
    pub user_id: Uuid,
    pub password_hash: String,
}

/// The result of looking a username up in the credential store. A missing
/// user is `NotFound`, never a fault; `Fault` is reserved for the store
/// itself being broken (connection loss, query error), with a diagnostic
/// description of the cause.
pub enum LookupOutcome {
    Found(StoredCredentialRecord),
    NotFound,
    Fault(String),
}

/// Why a validation attempt did not authenticate. The payload is a
/// diagnostic description, kept for logs and never shown to the client.
#[derive(Debug)]
pub enum AuthError {
    InvalidCredentials(String),
    UnexpectedError(String),
}

/// What comparing a candidate password against one stored hash can yield.
pub(crate) enum PasswordCheck {
    Match,
    Mismatch,
    UnparsableHash,
}

/// Relies on `argon2::PasswordHash::new` and
/// `argon2::Argon2::verify_password` (with `Argon2::default()`): whether the
/// hash parses is a function of the hash string alone, and whether the
/// password is accepted against a parsed hash is a function of the password
/// and the hash string alone.
#[verifier::external_body]
pub(crate) fn check_password_hash(expected_hash: &String, candidate: &Password) -> (r:
    PasswordCheck)
    ensures
        r is UnparsableHash <==> !phc_parses(expected_hash@),
        phc_parses(expected_hash@) ==> ((r is Match) <==> password_matches(
            password_chars(*candidate),
            expected_hash@,
        )),
{
    let parsed = match argon2::PasswordHash::new(expected_hash.as_str()) {
        Ok(h) => h,
        Err(_) => {
            return PasswordCheck::UnparsableHash;
        },
    };
    match argon2::Argon2::default().verify_password(candidate.secret.expose_secret().as_bytes(), &parsed) {
        Ok(()) => PasswordCheck::Match,
        Err(_) => PasswordCheck::Mismatch,
    }
}

/// The hash that an unknown username is "verified" against.
pub open spec fn fallback_hash_chars() -> Seq<char> {
    "$argon2id$v=19$m=15000,t=2,p=1$aZiV9M1gPc22ElAH8Jh1Hw$CWbzkoo7oJBQ8iyh7uJ0LO2aLEfrHwTWllSAxT0zRno"@
}

/// A well-formed PHC string with plausible cost parameters that no real
/// password hashes to. Verifying an unknown user's password against it
/// costs as much as verifying against a stored hash, so the two failure
/// paths cannot be told apart by their latency.
pub fn fallback_password_hash() -> (h: String)
    ensures
        h@ == fallback_hash_chars(),
{
    "$argon2id$v=19$m=15000,t=2,p=1$aZiV9M1gPc22ElAH8Jh1Hw$CWbzkoo7oJBQ8iyh7uJ0LO2aLEfrHwTWllSAxT0zRno".to_owned()
}

/// The hash the verifier is pointed at: the stored one when the username is
/// known, the fixed fallback otherwise, so that a verification happens on
/// both paths and takes the same time.
pub fn expected_password_hash(lookup: &LookupOutcome) -> (h: String)
    ensures
        *lookup matches LookupOutcome::Found(rec) ==> h@ == rec.password_hash@,
        !(*lookup is Found) ==> h@ == fallback_hash_chars(),
{
    match lookup {
        LookupOutcome::Found(rec) => rec.password_hash.clone(),
        _ => fallback_password_hash(),
    }
}

/// Classifies one authentication attempt, given what the store returned for
/// the username. A storage fault is reported as `UnexpectedError` with its
/// cause, never conflated with a mismatch. An unknown username is
/// `InvalidCredentials` whatever the (irrelevant) comparison against the
/// fallback hash yields, and that comparison is still performed so the two
/// failure paths cost the same. A known username authenticates exactly when
/// the stored hash parses and the password matches it; a stored hash that
/// does not parse is an infrastructure fault, not the caller's.
pub fn validate_credentials(credentials: &Credentials, lookup: &LookupOutcome) -> (r: Result<
    Uuid,
    AuthError,
>)
    ensures
        r is Ok <==> ({
            &&& *lookup matches LookupOutcome::Found(rec)
            &&& phc_parses(rec.password_hash@)
            &&& password_matches(password_chars(credentials.password), rec.password_hash@)
        }),
        *lookup matches LookupOutcome::Fault(cause) ==> r == Result::<Uuid, AuthError>::Err(
            AuthError::UnexpectedError(cause),
        ),
        *lookup is NotFound ==> r matches Err(AuthError::InvalidCredentials(_)),
        *lookup matches LookupOutcome::Found(rec) ==> ({
            &&& !phc_parses(rec.password_hash@) ==> (r matches Err(AuthError::UnexpectedError(_)))
            &&& phc_parses(rec.password_hash@) && password_matches(
                password_chars(credentials.password),
                rec.password_hash@,
            ) ==> r == Result::<Uuid, AuthError>::Ok(rec.user_id)
            &&& phc_parses(rec.password_hash@) && !password_matches(
                password_chars(credentials.password),
                rec.password_hash@,
            ) ==> (r matches Err(AuthError::InvalidCredentials(_)))
        }),
{
    if let LookupOutcome::Fault(cause) = lookup {
        return Err(AuthError::UnexpectedError(cause.clone()));
    }
    let expected_hash = expected_password_hash(lookup);
    let checked = check_password_hash(&expected_hash, &credentials.password);
    match lookup {
        LookupOutcome::Found(rec) => match checked {
            PasswordCheck::Match => Ok(rec.user_id),
            PasswordCheck::Mismatch => Err(
                AuthError::InvalidCredentials("invalid password".to_owned()),
            ),
            PasswordCheck::UnparsableHash => Err(
                AuthError::UnexpectedError("stored password hash is not a valid PHC string".to_owned()),
            ),
        },
        _ => Err(AuthError::InvalidCredentials("unknown username".to_owned())),
    }
}

/// One row of the credential store: a username and what is stored for it.
pub struct StoredAccount {
    pub username: String,
    pub credentials: StoredCredentialRecord,
}

/// An in-memory model of the credential store: the rows the production
/// database holds, plus whether the store can currently be reached. The
/// production adapter runs the same lookup as one SQL query; `fetch` gives
/// the contract both must meet.
pub struct CredentialStore {
    pub accounts: Vec<StoredAccount>,
    pub reachable: bool,
}

impl CredentialStore {
    /// Usernames are opaque, case-sensitive keys, and each names at most one
    /// account.
    pub open spec fn wf(self) -> bool {
        forall|i: int, j: int|
            0 <= i < j < self.accounts@.len() ==> self.accounts@[i].username@
                != self.accounts@[j].username@
    }

    /// Whether some account has this username.
    pub open spec fn has_username(self, username: Seq<char>) -> bool {
        exists|i: int|
            0 <= i < self.accounts@.len() && self.accounts@[i].username@ == username
    }

    /// The row holding this username (meaningful under `wf` when
    /// `has_username` holds).
    pub open spec fn account_index(self, username: Seq<char>) -> int {
        choose|i: int|
            0 <= i < self.accounts@.len() && self.accounts@[i].username@ == username
    }

    /// The user id stored for this username.
    pub open spec fn stored_user_id(self, username: Seq<char>) -> Uuid {
        self.accounts@[self.account_index(username)].credentials.user_id
    }

    /// The password hash stored for this username.
    pub open spec fn stored_password_hash(self, username: Seq<char>) -> Seq<char> {
        self.accounts@[self.account_index(username)].credentials.password_hash@
    }

    /// Looks a username up. A missing username is `NotFound`, never a fault;
    /// when the store is unreachable every lookup is a `Fault` and no row is
    /// read.
    pub fn fetch(&self, username: &String) -> (r: LookupOutcome)
        requires
            self.wf(),
        ensures
            !self.reachable ==> r is Fault,
            self.reachable ==> ((r is NotFound) <==> !self.has_username(username@)),
            self.reachable ==> !(r is Fault),
            self.reachable && self.has_username(username@) ==> ({
                &&& r matches LookupOutcome::Found(rec)
                &&& rec.user_id == self.stored_user_id(username@)
                &&& rec.password_hash@ == self.stored_password_hash(username@)
            }),
    {
        if !self.reachable {
            return LookupOutcome::Fault("failed to connect to the credential store".to_owned());
        }
        let n = self.accounts.len();
        let mut i: usize = 0;
        while i < n
            invariant
                n == self.accounts@.len(),
                i <= n,
                self.reachable,
                self.wf(),
                forall|j: int| 0 <= j < i ==> self.accounts@[j].username@ != username@,
            decreases n - i,
        {
            let account = &self.accounts[i];
            if account.username == *username {
                proof {
                    assert(self.has_username(username@));
                    let k = self.account_index(username@);
                    assert(self.accounts@[k].username@ == username@);
                    assert(k == i as int);
                }
                return LookupOutcome::Found(
                    StoredCredentialRecord {
                        user_id: account.credentials.user_id,
                        password_hash: account.credentials.password_hash.clone(),
                    },
                );
            }
            i += 1;
        }
        LookupOutcome::NotFound
    }
}

/// One whole validation attempt against the store: the lookup (step one)
/// followed by `validate_credentials` (the classification). An absent
/// username on a healthy store is always `InvalidCredentials`, never
/// `UnexpectedError`; a present username authenticates exactly when the
/// password matches its stored, well-formed hash; an unreachable store is
/// always `UnexpectedError`.
pub fn authenticate(store: &CredentialStore, credentials: &Credentials) -> (r: Result<
    Uuid,
    AuthError,
>)
    requires
        store.wf(),
    ensures
        r is Ok <==> ({
            &&& store.reachable
            &&& store.has_username(credentials.username@)
            &&& phc_parses(store.stored_password_hash(credentials.username@))
            &&& password_matches(
                password_chars(credentials.password),
                store.stored_password_hash(credentials.username@),
            )
        }),
        !store.reachable ==> (r matches Err(AuthError::UnexpectedError(_))),
        store.reachable && !store.has_username(credentials.username@) ==> (r matches Err(
            AuthError::InvalidCredentials(_),
        )),
        store.reachable && store.has_username(credentials.username@) ==> ({
            let hash = store.stored_password_hash(credentials.username@);
            &&& !phc_parses(hash) ==> (r matches Err(AuthError::UnexpectedError(_)))
            &&& phc_parses(hash) && password_matches(password_chars(credentials.password), hash)
                ==> r == Result::<Uuid, AuthError>::Ok(
                store.stored_user_id(credentials.username@),
            )
            &&& phc_parses(hash) && !password_matches(password_chars(credentials.password), hash)
                ==> (r matches Err(AuthError::InvalidCredentials(_)))
        }),
{
    let lookup = store.fetch(&credentials.username);
    validate_credentials(credentials, &lookup)
}

} // verus!
