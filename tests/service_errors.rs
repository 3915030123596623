use zero2prod::service_errors::{
    ConfirmationError, DatabaseError, EmailSendingError, NewsletterStoreError,
    PublishNewsletterError, SubscribeError, UserAuthenticationError,
};

#[test]
fn subscribe_error_status_codes() {
    assert_eq!(SubscribeError::ValidationError("bad".to_string()).status_code(), 400);
    assert_eq!(SubscribeError::UnexpectedError("db down".to_string()).status_code(), 500);
    assert_eq!(SubscribeError::ValidationError("bad".to_string()).message(), "bad");
}

#[test]
fn confirmation_error_status_codes() {
    assert_eq!(ConfirmationError::UnknownToken.status_code(), 401);
    assert_eq!(ConfirmationError::UnexpectedError("x".to_string()).status_code(), 500);
    assert_eq!(
        ConfirmationError::UnknownToken.message(),
        "There is no subscriber associated with the provided token."
    );
}

#[test]
fn publish_newsletter_error_is_a_server_error() {
    let e = PublishNewsletterError::UnexpectedError("s3".to_string());
    assert_eq!(e.status_code(), 500);
    assert_eq!(e.message(), "s3");
}

#[test]
fn error_messages_carry_their_description() {
    assert_eq!(UserAuthenticationError::UserNotFoundError("no user".to_string()).message(), "no user");
    assert_eq!(DatabaseError::TokenNotFoundError("t".to_string()).message(), "t");
    assert_eq!(NewsletterStoreError::IssueExists("dup".to_string()).message(), "dup");
    assert_eq!(EmailSendingError::ParseEmailError("bad email".to_string()).message(), "bad email");
}
