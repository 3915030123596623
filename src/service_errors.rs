//! The errors of the service's repositories, handlers and routes. Where an
//! error wraps an unexpected failure, it carries that failure's description.

use vstd::prelude::*;
use vstd::string::*;

verus! {

/// HTTP 400 Bad Request.
pub const BAD_REQUEST: u16 = 400;

/// HTTP 401 Unauthorized.
pub const UNAUTHORIZED: u16 = 401;

/// HTTP 500 Internal Server Error.
pub const INTERNAL_SERVER_ERROR: u16 = 500;

/// A failure to authenticate a user.
#[derive(Clone, Debug, PartialEq, Eq)]
pub enum UserAuthenticationError {
    UserNotFoundError(String),
    UnexpectedError(String),
}

impl UserAuthenticationError {
    /// The description of the error.
    pub fn message(&self) -> (r: String)
        ensures
            r@ == match self {
                UserAuthenticationError::UserNotFoundError(m) => m@,
                UserAuthenticationError::UnexpectedError(m) => m@,
            },
    {
        match self {
            UserAuthenticationError::UserNotFoundError(m) => m.clone(),
            UserAuthenticationError::UnexpectedError(m) => m.clone(),
        }
    }
}

/// A failure of the subscriber database.
#[derive(Clone, Debug, PartialEq, Eq)]
pub enum DatabaseError {
    UserExists(String),
    TokenNotFoundError(String),
    DatabaseReadError(String),
    UnexpectedError(String),
}

impl DatabaseError {
    /// The description of the error.
    pub fn message(&self) -> (r: String)
        ensures
            r@ == match self {
                DatabaseError::UserExists(m) => m@,
                DatabaseError::TokenNotFoundError(m) => m@,
                DatabaseError::DatabaseReadError(m) => m@,
                DatabaseError::UnexpectedError(m) => m@,
            },
    {
        match self {
            DatabaseError::UserExists(m) => m.clone(),
            DatabaseError::TokenNotFoundError(m) => m.clone(),
            DatabaseError::DatabaseReadError(m) => m.clone(),
            DatabaseError::UnexpectedError(m) => m.clone(),
        }
    }
}

/// A failure of the newsletter issue store.
#[derive(Clone, Debug, PartialEq, Eq)]
pub enum NewsletterStoreError {
    IssueExists(String),
    UnexpectedError(String),
}

impl NewsletterStoreError {
    /// The description of the error.
    pub fn message(&self) -> (r: String)
        ensures
            r@ == match self {
                NewsletterStoreError::IssueExists(m) => m@,
                NewsletterStoreError::UnexpectedError(m) => m@,
            },
    {
        match self {
            NewsletterStoreError::IssueExists(m) => m.clone(),
            NewsletterStoreError::UnexpectedError(m) => m.clone(),
        }
    }
}

/// A failure to send an email.
#[derive(Clone, Debug, PartialEq, Eq)]
pub enum EmailSendingError {
    ParseEmailError(String),
    UnexpectedError(String),
}

impl EmailSendingError {
    /// The description of the error.
    pub fn message(&self) -> (r: String)
        ensures
            r@ == match self {
                EmailSendingError::ParseEmailError(m) => m@,
                EmailSendingError::UnexpectedError(m) => m@,
            },
    {
        match self {
            EmailSendingError::ParseEmailError(m) => m.clone(),
            EmailSendingError::UnexpectedError(m) => m.clone(),
        }
    }
}

/// A failure of the subscribe route.
#[derive(Clone, Debug, PartialEq, Eq)]
pub enum SubscribeError {
    ValidationError(String),
    UnexpectedError(String),
}

impl SubscribeError {
    /// The HTTP status of the response: a validation error is the client's
    /// fault, anything else the server's.
    pub fn status_code(&self) -> (r: u16)
        ensures
            r == match self {
                SubscribeError::ValidationError(_) => BAD_REQUEST,
                SubscribeError::UnexpectedError(_) => INTERNAL_SERVER_ERROR,
            },
    {
        match self {
            SubscribeError::ValidationError(_) => BAD_REQUEST,
            SubscribeError::UnexpectedError(_) => INTERNAL_SERVER_ERROR,
        }
    }

    /// The description of the error.
    pub fn message(&self) -> (r: String)
        ensures
            r@ == match self {
                SubscribeError::ValidationError(m) => m@,
                SubscribeError::UnexpectedError(m) => m@,
            },
    {
        match self {
            SubscribeError::ValidationError(m) => m.clone(),
            SubscribeError::UnexpectedError(m) => m.clone(),
        }
    }
}

/// A failure of the subscription confirmation route.
#[derive(Clone, Debug, PartialEq, Eq)]
pub enum ConfirmationError {
    UnexpectedError(String),
    UnknownToken,
}

impl ConfirmationError {
    /// The HTTP status of the response: an unknown token is unauthorised,
    /// anything else is the server's fault.
    pub fn status_code(&self) -> (r: u16)
        ensures
            r == match self {
                ConfirmationError::UnknownToken => UNAUTHORIZED,
                ConfirmationError::UnexpectedError(_) => INTERNAL_SERVER_ERROR,
            },
    {
        match self {
            ConfirmationError::UnknownToken => UNAUTHORIZED,
            ConfirmationError::UnexpectedError(_) => INTERNAL_SERVER_ERROR,
        }
    }

    /// The description of the error.
    pub fn message(&self) -> (r: String)
        ensures
            r@ == match self {
                ConfirmationError::UnknownToken => "There is no subscriber associated with the provided token."@,
                ConfirmationError::UnexpectedError(m) => m@,
            },
    {
        match self {
            ConfirmationError::UnknownToken => String::from_str(
                "There is no subscriber associated with the provided token.",
            ),
            ConfirmationError::UnexpectedError(m) => m.clone(),
        }
    }
}

/// A failure of the newsletter publishing route.
#[derive(Clone, Debug, PartialEq, Eq)]
pub enum PublishNewsletterError {
    UnexpectedError(String),
}

impl PublishNewsletterError {
    /// The HTTP status of the response: always the server's fault.
    pub fn status_code(&self) -> (r: u16)
        ensures
            r == INTERNAL_SERVER_ERROR,
    {
        match self {
            PublishNewsletterError::UnexpectedError(_) => INTERNAL_SERVER_ERROR,
        }
    }

    /// The description of the error.
    pub fn message(&self) -> (r: String)
        ensures
            r@ == match self {
                PublishNewsletterError::UnexpectedError(m) => m@,
            },
    {
        match self {
            PublishNewsletterError::UnexpectedError(m) => m.clone(),
        }
    }
}

} // verus!
