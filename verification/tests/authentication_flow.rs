use zero2prod::authentication::{
    authenticate, expected_password_hash, fallback_password_hash, validate_credentials,
    AuthError, CredentialStore, Credentials, LookupOutcome, Password, StoredAccount,
    StoredCredentialRecord,
};

use argon2::password_hash::SaltString;
use argon2::{Algorithm, Argon2, Params, PasswordHasher, Version};
use std::time::Instant;
use uuid::Uuid;

fn phc_hash_of(password: &str) -> String {
    let salt = SaltString::encode_b64(b"authentication!!").unwrap();
    Argon2::new(
        Algorithm::Argon2id,
        Version::V0x13,
        Params::new(15000, 2, 1, None).unwrap(),
    )
    .hash_password(password.as_bytes(), &salt)
    .unwrap()
    .to_string()
}

fn credentials(username: &str, password: &str) -> Credentials {
    Credentials {
        username: username.to_string(),
        password: Password::new(password.to_string()),
    }
}

fn found(user_id: Uuid, password: &str) -> LookupOutcome {
    LookupOutcome::Found(StoredCredentialRecord {
        user_id,
        password_hash: phc_hash_of(password),
    })
}

#[test]
fn a_matching_password_authenticates_as_the_stored_user() {
    let user_id = Uuid::from_u128(42);
    let creds = credentials("operator", "everythinghastostartsomewhere");
    let outcome = validate_credentials(&creds, &found(user_id, "everythinghastostartsomewhere"));
    assert_eq!(outcome.unwrap(), user_id);
}

#[test]
fn a_wrong_password_is_invalid_credentials() {
    let creds = credentials("operator", "not-the-password");
    let outcome = validate_credentials(&creds, &found(Uuid::from_u128(42), "the-password"));
    assert!(matches!(outcome, Err(AuthError::InvalidCredentials(_))));
}

#[test]
fn an_unknown_username_is_invalid_credentials_not_a_fault() {
    let creds = credentials("nobody", "whatever");
    let outcome = validate_credentials(&creds, &LookupOutcome::NotFound);
    assert!(matches!(outcome, Err(AuthError::InvalidCredentials(_))));
}

#[test]
fn a_store_fault_is_unexpected_and_keeps_its_cause() {
    let creds = credentials("operator", "whatever");
    let outcome = validate_credentials(&creds, &LookupOutcome::Fault("no route to host".to_string()));
    match outcome {
        Err(AuthError::UnexpectedError(cause)) => assert_eq!(cause, "no route to host"),
        _ => panic!("a store fault must surface as an unexpected error"),
    }
}

#[test]
fn a_malformed_stored_hash_is_unexpected_not_invalid() {
    let creds = credentials("operator", "whatever");
    let lookup = LookupOutcome::Found(StoredCredentialRecord {
        user_id: Uuid::from_u128(1),
        password_hash: "not-a-phc-string".to_string(),
    });
    let outcome = validate_credentials(&creds, &lookup);
    assert!(matches!(outcome, Err(AuthError::UnexpectedError(_))));
}

#[test]
fn the_verifier_is_pointed_at_the_stored_hash_when_the_user_is_known() {
    let lookup = found(Uuid::from_u128(1), "pw");
    let hash = expected_password_hash(&lookup);
    assert_eq!(hash, phc_hash_of("pw"));
}

#[test]
fn the_verifier_is_pointed_at_the_fallback_hash_when_the_user_is_unknown() {
    let hash = expected_password_hash(&LookupOutcome::NotFound);
    assert_eq!(hash, fallback_password_hash());
    argon2::PasswordHash::new(&hash).expect("the fallback hash must be a well-formed PHC string");
}

#[test]
fn fetch_treats_usernames_as_case_sensitive_opaque_keys() {
    let store = CredentialStore {
        accounts: vec![StoredAccount {
            username: "alice".to_string(),
            credentials: StoredCredentialRecord {
                user_id: Uuid::from_u128(7),
                password_hash: phc_hash_of("pw"),
            },
        }],
        reachable: true,
    };
    assert!(matches!(store.fetch(&"alice".to_string()), LookupOutcome::Found(_)));
    assert!(matches!(store.fetch(&"Alice".to_string()), LookupOutcome::NotFound));
    assert!(matches!(store.fetch(&"bob".to_string()), LookupOutcome::NotFound));
}

#[test]
fn fetch_reports_a_fault_when_the_store_is_unreachable() {
    let store = CredentialStore { accounts: vec![], reachable: false };
    assert!(matches!(store.fetch(&"alice".to_string()), LookupOutcome::Fault(_)));
}

#[test]
fn an_empty_healthy_store_rejects_without_a_fault() {
    let store = CredentialStore { accounts: vec![], reachable: true };
    let creds = credentials("random-username", "random-password");
    let outcome = authenticate(&store, &creds);
    assert!(matches!(outcome, Err(AuthError::InvalidCredentials(_))));
}

#[test]
fn unknown_user_and_wrong_password_take_similar_time() {
    let user_id = Uuid::from_u128(1);
    let store = CredentialStore {
        accounts: vec![StoredAccount {
            username: "operator".to_string(),
            credentials: StoredCredentialRecord {
                user_id,
                password_hash: phc_hash_of("the-real-password"),
            },
        }],
        reachable: true,
    };
    let unknown = credentials("no-such-user", "guess");
    let wrong = credentials("operator", "guess");

    // Warm both paths once, then time a handful of trials of each.
    let _ = authenticate(&store, &unknown);
    let _ = authenticate(&store, &wrong);
    let trials: u32 = 5;
    let start = Instant::now();
    for _ in 0..trials {
        let _ = authenticate(&store, &unknown);
    }
    let unknown_micros = start.elapsed().as_micros().max(1);
    let start = Instant::now();
    for _ in 0..trials {
        let _ = authenticate(&store, &wrong);
    }
    let wrong_micros = start.elapsed().as_micros().max(1);

    // Both paths run the same hash computation, so neither may cost more
    // than a small multiple of the other.
    assert!(unknown_micros < 4 * wrong_micros);
    assert!(wrong_micros < 4 * unknown_micros);
}
