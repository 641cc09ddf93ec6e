//! The error taxonomy of the authentication flows. Every failure a callback
//! can produce is one of these; the boundary layer turns each into its
//! documented HTTP response (a redirect carrying the message, except
//! internal failures).

use vstd::prelude::*;
use vstd::string::StringExecFns;

verus! {

/// Why an authentication flow was rejected.
#[derive(Debug, Clone, PartialEq, Eq)]
pub enum OAuthError {
    /// No provider by that name exists.
    MissingProvider,
    /// The echoed CSRF state is missing, expired, already consumed, or bound
    /// to a different user.
    InvalidOAuthState,
    /// The provider failed the token exchange or claims verification.
    ProviderError(String),
    /// The provider could not produce a required claim.
    MissingInformation,
    /// A user with this identity already exists and is not logged in.
    UserAlreadyExists,
    /// A database error.
    DatabaseError(String),
    /// A database pool error.
    PoolError(String),
    /// No account exists and sign-ups are not allowed.
    SignUpDisallowed,
}

/// The message each error carries to the client.
pub open spec fn spec_message(e: OAuthError) -> Seq<char> {
    match e {
        OAuthError::MissingProvider => "No provider by that name exists"@,
        OAuthError::InvalidOAuthState => "Invalid OAuth State"@,
        OAuthError::ProviderError(detail) => "OAuth Provider error: "@ + detail@,
        OAuthError::MissingInformation => {
            "The OAuth provider couldn't produce required information"@
        },
        OAuthError::UserAlreadyExists => {
            "A user with this email already exists but is not logged in. To connect this OAuth provider to that user, please log in as that user first."@
        },
        OAuthError::DatabaseError(detail) => "A database error has occurred: "@ + detail@,
        OAuthError::PoolError(detail) => "A database pool error has occurred: "@ + detail@,
        OAuthError::SignUpDisallowed => {
            "No account exists and sign ups are not allowed; or, if you are trying to connect a provider to an existing account, sign into that account first"@
        },
    }
}

impl OAuthError {
    /// The human-readable message carried to the client.
    pub fn message(&self) -> (r: String)
        ensures
            r@ == spec_message(*self),
    {
        match self {
            OAuthError::MissingProvider => "No provider by that name exists".to_string(),
            OAuthError::InvalidOAuthState => "Invalid OAuth State".to_string(),
            OAuthError::ProviderError(detail) => {
                let mut m = "OAuth Provider error: ".to_string();
                m.append(detail.as_str());
                m
            },
            OAuthError::MissingInformation => {
                "The OAuth provider couldn't produce required information".to_string()
            },
            OAuthError::UserAlreadyExists => {
                "A user with this email already exists but is not logged in. To connect this OAuth provider to that user, please log in as that user first.".to_string()
            },
            OAuthError::DatabaseError(detail) => {
                let mut m = "A database error has occurred: ".to_string();
                m.append(detail.as_str());
                m
            },
            OAuthError::PoolError(detail) => {
                let mut m = "A database pool error has occurred: ".to_string();
                m.append(detail.as_str());
                m
            },
            OAuthError::SignUpDisallowed => {
                "No account exists and sign ups are not allowed; or, if you are trying to connect a provider to an existing account, sign into that account first".to_string()
            },
        }
    }
}

} // verus!
