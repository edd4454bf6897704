use vstd::prelude::*;

verus! {

/// Error raised while a layer is being constructed from a `Config`:
/// the key material does not fit the requested role.
#[derive(Debug)]
pub enum AuthError {
    ConfigError(String),
}

/// Spec-level shape of an `AuthError`.
pub enum AuthErrorV {
    ConfigError(Seq<char>),
}

impl View for AuthError {
    type V = AuthErrorV;

    open spec fn view(&self) -> AuthErrorV {
        match self {
            AuthError::ConfigError(m) => AuthErrorV::ConfigError(m@),
        }
    }
}

impl AuthError {
    /// Human-readable description of the error.
    pub fn message(&self) -> (r: &String)
        ensures
            self@ == AuthErrorV::ConfigError(r@),
    {
        match self {
            AuthError::ConfigError(m) => m,
        }
    }
}

/// Error raised while minting a token on the client side.
#[derive(Clone, Copy, Debug, PartialEq, Eq, Structural)]
pub enum SigningError {
    /// `issued_at + duration` does not fit in 64 bits.
    ExpiryOverflow,
    /// The encoded payload would exceed the machine's size limits.
    TokenTooLong,
}

/// Call-time rejection cause on the server side.  `MissingToken` is kept
/// distinct from the causes that apply to a token that was present.
#[derive(Clone, Copy, Debug, PartialEq, Eq, Structural)]
pub enum VerificationError {
    /// No token was present in the call's metadata field.
    MissingToken,
    /// A token was present but is not shaped `header.payload.signature`
    /// with a well-formed payload.
    MalformedToken,
    /// The token does not carry a valid signature under the key in use.
    SignatureMismatch,
    /// The token's `exp` is not in the future.
    Expired,
    /// A configured expected issuer is not asserted by the token.
    IssuerMismatch,
    /// A configured expected audience is not asserted by the token.
    AudienceMismatch,
    /// A configured expected subject is not asserted by the token.
    SubjectMismatch,
    /// A configured custom claim is absent or differs in the token.
    CustomClaimMismatch,
    /// Key resolution failed (autoresolve only): unknown issuer, lookup
    /// failure, or a stale key that one re-resolution did not cure.
    ResolutionFailed,
}

} // verus!
