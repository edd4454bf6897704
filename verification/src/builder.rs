use vstd::prelude::*;

use crate::claims::Claims;
use crate::claims::ClaimValue;
use crate::claims::clone_entries;
use crate::claims::clone_opt_string;
use crate::claims::clone_opt_strings;
use crate::claims::entries_view;
use crate::errors::AuthError;
use crate::errors::AuthErrorV;
use crate::handler::SignerJwt;
use crate::handler::VerifierJwt;
use crate::handler::VerifyMode;
use crate::handler::VerifyModeV;
use crate::key::JwtKey;
use crate::key::JwtKeyV;

verus! {

/// Assemble a signing handler: requires the *encoding* (signing) key
/// variant; any other variant is a construction-time error, never a
/// runtime panic.  Claims fields present on the builder are folded
/// into the handler; absent fields are not asserted.
pub fn build_for_signing(key: &JwtKey, claims: &Claims, custom: &Vec<(String, ClaimValue)>) -> (r:
    Result<SignerJwt, AuthError>)
    ensures
        (key@ is Encoding) == (r is Ok),
        r is Ok ==> ({
            let s = (r->Ok_0)@;
            &&& s.algorithm == key@->Encoding_0.algorithm
            &&& s.secret == key@->Encoding_0.key
            &&& s.iss == claims@.issuer
            &&& s.aud == claims@.audience
            &&& s.sub == claims@.subject
            &&& s.custom == entries_view(custom@)
        }),
        r is Err ==> (r->Err_0)@ == AuthErrorV::ConfigError(
            "Encoding key is required for client authentication"@,
        ),
{
    match key {
        JwtKey::Encoding(k) => Ok(
            SignerJwt {
                algorithm: k.algorithm,
                secret: k.key.clone(),
                iss: clone_opt_string(claims.issuer()),
                aud: clone_opt_strings(claims.audience()),
                sub: clone_opt_string(claims.subject()),
                custom: clone_entries(custom),
            },
        ),
        _ => Err(
            AuthError::ConfigError("Encoding key is required for client authentication".to_owned()),
        ),
    }
}

/// Assemble a verification handler: requires the *decoding*
/// (verification) key variant or the autoresolve flag set true; any
/// other combination is a construction-time error.
pub fn build_for_verification(key: &JwtKey, claims: &Claims) -> (r: Result<VerifierJwt, AuthError>)
    ensures
        (key@ is Decoding || key@ == JwtKeyV::Autoresolve(true)) == (r is Ok),
        r is Ok ==> ({
            let v = (r->Ok_0)@;
            &&& (key@ is Decoding ==> v.mode == VerifyModeV::Static(key@->Decoding_0))
            &&& (key@ is Autoresolve ==> v.mode == VerifyModeV::Autoresolve)
            &&& v.iss == claims@.issuer
            &&& v.aud == claims@.audience
            &&& v.sub == claims@.subject
        }),
        r is Err ==> (r->Err_0)@ == AuthErrorV::ConfigError(
            "Decoding key or autoresolve = true is required for server authentication"@,
        ),
{
    let mode = match key {
        JwtKey::Decoding(k) => VerifyMode::Static(k.clone()),
        JwtKey::Autoresolve(true) => VerifyMode::Autoresolve,
        _ => {
            return Err(
                AuthError::ConfigError(
                    "Decoding key or autoresolve = true is required for server authentication".to_owned(),
                ),
            );
        },
    };
    Ok(
        VerifierJwt {
            mode,
            iss: clone_opt_string(claims.issuer()),
            aud: clone_opt_strings(claims.audience()),
            sub: clone_opt_string(claims.subject()),
        },
    )
}

} // verus!
