use vstd::prelude::*;

use crate::builder::build_for_signing;
use crate::builder::build_for_verification;
use crate::claims::ClaimValue;
use crate::claims::ClaimValueV;
use crate::claims::Claims;
use crate::claims::ClaimsV;
use crate::claims::clone_entries;
use crate::claims::entries_view;
use crate::errors::AuthError;
use crate::errors::AuthErrorV;
use crate::handler::VerifyModeV;
use crate::key::JwtKey;
use crate::key::JwtKeyV;
use crate::layers::AddJwtLayer;
use crate::layers::ValidateJwtLayer;

verus! {

/// Composition root: base claims, token validity window (seconds) and
/// tagged key material.  Immutable once built; authenticators derive
/// layers from it without mutating it.
pub struct Config {
    claims: Claims,
    duration: u64,
    key: JwtKey,
}

/// Spec-level shape of a `Config`.
pub struct ConfigV {
    pub claims: ClaimsV,
    pub duration: u64,
    pub key: JwtKeyV,
}

impl View for Config {
    type V = ConfigV;

    closed spec fn view(&self) -> ConfigV {
        ConfigV { claims: self.claims@, duration: self.duration, key: self.key@ }
    }
}

/// Token validity window used when the configuration leaves the
/// duration unspecified: one hour.
pub fn default_duration() -> (r: u64)
    ensures
        r == 3600,
{
    3600
}

/// The custom claims a config folds into its handlers: the configured
/// mapping, or empty when none was configured.
pub open spec fn config_custom(c: ConfigV) -> Seq<(Seq<char>, ClaimValueV)> {
    match c.claims.custom_claims {
        Some(m) => m,
        None => Seq::empty(),
    }
}

impl Config {
    /// Create a new Config
    pub fn new(claims: Claims, duration: u64, key: JwtKey) -> (r: Self)
        ensures
            r@ == (ConfigV { claims: claims@, duration, key: key@ }),
    {
        Config { claims, duration, key }
    }

    /// Set claims
    pub fn with_claims(self, claims: Claims) -> (r: Self)
        ensures
            r@ == (ConfigV { claims: claims@, ..self@ }),
    {
        Config { claims, ..self }
    }

    /// Set key
    pub fn with_key(self, key: JwtKey) -> (r: Self)
        ensures
            r@ == (ConfigV { key: key@, ..self@ }),
    {
        Config { key, ..self }
    }

    /// Get the claims
    pub fn claims(&self) -> (r: &Claims)
        ensures
            r@ == self@.claims,
    {
        &self.claims
    }

    /// Get the key
    pub fn key(&self) -> (r: &JwtKey)
        ensures
            r@ == self@.key,
    {
        &self.key
    }

    /// Get the token validity window, in seconds
    pub fn duration(&self) -> (r: u64)
        ensures
            r == self@.duration,
    {
        self.duration
    }

    /// The custom claims in transport-neutral form, ready to hand to a
    /// handler; empty when none were configured.
    pub fn custom_claims(&self) -> (r: Vec<(String, ClaimValue)>)
        ensures
            entries_view(r@) == config_custom(self@),
    {
        match self.claims.custom_claims() {
            Some(v) => clone_entries(v),
            None => {
                let r: Vec<(String, ClaimValue)> = Vec::new();
                proof {
                    assert(entries_view(r@) =~= config_custom(self@));
                }
                r
            },
        }
    }

    /// Client authenticator: derive the middleware layer that signs
    /// and attaches a fresh token to each outgoing call.  Succeeds
    /// exactly when the key material is the signing (encoding)
    /// variant.
    pub fn get_client_layer(&self) -> (r: Result<AddJwtLayer, AuthError>)
        ensures
            (self@.key is Encoding) == (r is Ok),
            r is Ok ==> ({
                let l = r->Ok_0;
                &&& l.duration == self@.duration
                &&& l.signer@.algorithm == self@.key->Encoding_0.algorithm
                &&& l.signer@.secret == self@.key->Encoding_0.key
                &&& l.signer@.iss == self@.claims.issuer
                &&& l.signer@.aud == self@.claims.audience
                &&& l.signer@.sub == self@.claims.subject
                &&& l.signer@.custom == config_custom(self@)
            }),
            r is Err ==> (r->Err_0)@ == AuthErrorV::ConfigError(
                "Encoding key is required for client authentication"@,
            ),
    {
        let custom = self.custom_claims();
        let signer = match build_for_signing(&self.key, &self.claims, &custom) {
            Ok(s) => s,
            Err(e) => {
                return Err(e);
            },
        };
        Ok(AddJwtLayer::new(signer, self.duration))
    }

    /// Server authenticator: derive the middleware layer that verifies
    /// the token of each incoming call before it may reach the wrapped
    /// service.  Succeeds exactly when the key material is the
    /// verification (decoding) variant or the autoresolve flag is
    /// true.
    pub fn get_server_layer(&self) -> (r: Result<ValidateJwtLayer, AuthError>)
        ensures
            (self@.key is Decoding || self@.key == JwtKeyV::Autoresolve(true)) == (r is Ok),
            r is Ok ==> ({
                let l = r->Ok_0;
                &&& (self@.key is Decoding ==> l.verifier@.mode == VerifyModeV::Static(
                    self@.key->Decoding_0,
                ))
                &&& (self@.key is Autoresolve ==> l.verifier@.mode is Autoresolve)
                &&& l.verifier@.iss == self@.claims.issuer
                &&& l.verifier@.aud == self@.claims.audience
                &&& l.verifier@.sub == self@.claims.subject
                &&& entries_view(l.expected_custom@) == config_custom(self@)
            }),
            r is Err ==> (r->Err_0)@ == AuthErrorV::ConfigError(
                "Decoding key or autoresolve = true is required for server authentication"@,
            ),
    {
        let verifier = match build_for_verification(&self.key, &self.claims) {
            Ok(v) => v,
            Err(e) => {
                return Err(e);
            },
        };
        let custom = self.custom_claims();
        Ok(ValidateJwtLayer::new(verifier, custom))
    }
}

impl Clone for Config {
    fn clone(&self) -> (res: Self)
        ensures
            res@ == self@,
    {
        Config { claims: self.claims.clone(), duration: self.duration, key: self.key.clone() }
    }
}

} // verus!
