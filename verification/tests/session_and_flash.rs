use zero2prod::flash_messages::FlashMessages;
use zero2prod::routes::LoginError;
use zero2prod::session_state::{SessionError, TypedSession};

use uuid::Uuid;

#[test]
fn renew_rotates_the_identifier_and_keeps_the_attributes() {
    let mut session = TypedSession::anonymous(99, true);
    session.renew();
    assert_ne!(session.id, 99);
    assert_eq!(session.user_id, None);
    assert!(session.backend_available);
}

#[test]
fn renew_then_insert_binds_a_fresh_identifier() {
    let mut session = TypedSession::anonymous(7, true);
    let pre_renew_id = session.id;
    let user_id = Uuid::from_u128(21);
    session.renew();
    session.insert_user_id(user_id).unwrap();
    assert_ne!(session.id, pre_renew_id);
    assert_eq!(session.user_id, Some(user_id));
}

#[test]
fn insert_fails_and_stores_nothing_when_the_backend_is_unavailable() {
    let mut session = TypedSession::anonymous(7, false);
    let outcome = session.insert_user_id(Uuid::from_u128(21));
    assert!(matches!(outcome, Err(SessionError::StoreUnavailable)));
    assert_eq!(session.user_id, None);
    assert_eq!(session.id, 7);
}

#[test]
fn flash_messages_are_read_exactly_once() {
    let mut flash = FlashMessages::new();
    flash.send("first".to_string());
    flash.send("second".to_string());
    let taken = flash.take_all();
    assert_eq!(taken, vec!["first".to_string(), "second".to_string()]);
    assert_eq!(flash.take_all(), Vec::<String>::new());
}

#[test]
fn the_login_page_renders_each_message_once_in_order() {
    let mut flash = FlashMessages::new();
    flash.send("Authentication failed".to_string());
    flash.send("Something went wrong".to_string());
    let html = flash.render_html();
    assert_eq!(
        html,
        "<p><i>Authentication failed</i></p>\n<p><i>Something went wrong</i></p>\n"
    );
    assert_eq!(flash.render_html(), "");
}

#[test]
fn each_failure_class_has_its_fixed_message() {
    let auth = LoginError::AuthError("wrong password".to_string());
    let unexpected = LoginError::UnexpectedError("the pool is gone".to_string());
    assert_eq!(auth.message(), "Authentication failed");
    assert_eq!(unexpected.message(), "Something went wrong");
}
