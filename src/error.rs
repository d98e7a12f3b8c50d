use vstd::prelude::*;

verus! {

/// Why a token was refused.
#[derive(Clone, Copy, Debug, PartialEq, Eq, Structural)]
pub enum TokenError {
    /// The token's expiry instant has passed.
    Expired,
    /// The signature does not check against this service's secret.
    BadSignature,
    /// The token was issued by another service.
    IssuerMismatch,
    /// The token could not be read as a signed set of claims.
    Malformed,
}

/// Errors of the service. Every operation returns one of these rather than
/// recovering silently.
#[derive(Clone, Debug, PartialEq, Eq)]
pub enum Error {
    /// The password digest could not be computed or read.
    Hasher,
    /// A session token was refused.
    Token(TokenError),
    /// No identity was present where one is required; the text names the operation.
    Unauthenticated(&'static str),
    /// An identity was present but may not act on the resource.
    Unauthorized(&'static str),
    /// The resource is absent, or (for a login) the credentials do not match.
    NotFound,
    /// A failure reported by the storage collaborator, passed through as text.
    Storage(String),
    /// Any other failure, with a fixed description.
    Str(&'static str),
}

impl TokenError {
    /// The reason, as text.
    pub open spec fn message_view(self) -> Seq<char> {
        match self {
            TokenError::Expired => "Token expired"@,
            TokenError::BadSignature => "Invalid token signature"@,
            TokenError::IssuerMismatch => "Invalid token issuer"@,
            TokenError::Malformed => "Malformed token"@,
        }
    }

    /// The human-readable reason.
    pub fn message(&self) -> (r: &'static str)
        ensures
            r@ == self.message_view(),
    {
        match self {
            TokenError::Expired => "Token expired",
            TokenError::BadSignature => "Invalid token signature",
            TokenError::IssuerMismatch => "Invalid token issuer",
            TokenError::Malformed => "Malformed token",
        }
    }
}

impl Error {
    /// The human-readable reason, as shown to a caller of the service.
    pub fn message(&self) -> (r: String)
        ensures
            *self == Error::Hasher ==> r@ == "Password hashing failed"@,
            self matches Error::Token(k) ==> r@ == k.message_view(),
            *self == Error::NotFound ==> r@ == "Not found"@,
            self matches Error::Unauthenticated(m) ==> r@ == m@,
            self matches Error::Unauthorized(m) ==> r@ == m@,
            self matches Error::Storage(s) ==> r@ == s@,
            self matches Error::Str(m) ==> r@ == m@,
    {
        match self {
            Error::Hasher => String::from_str("Password hashing failed"),
            Error::Token(t) => String::from_str(t.message()),
            Error::Unauthenticated(m) => String::from_str(m),
            Error::Unauthorized(m) => String::from_str(m),
            Error::NotFound => String::from_str("Not found"),
            Error::Storage(s) => s.clone(),
            Error::Str(m) => String::from_str(m),
        }
    }
}

} // verus!
