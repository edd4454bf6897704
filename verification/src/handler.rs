use vstd::prelude::*;

use crate::claims::ClaimValue;
use crate::claims::ClaimValueV;
use crate::claims::claim_value_eq;
use crate::claims::clone_entries;
use crate::claims::clone_opt_string;
use crate::claims::clone_opt_strings;
use crate::claims::entries_view;
use crate::claims::opt_string_view;
use crate::claims::opt_strings_view;
use crate::claims::strings_view;
use crate::codec::str_eq;
use crate::errors::SigningError;
use crate::errors::VerificationError;
use crate::key::Algorithm;
use crate::key::Key;
use crate::key::KeyData;
use crate::key::KeyV;
use crate::token::PayloadV;
use crate::token::TokenClaims;
use crate::token::assemble_token;
use crate::token::encode_payload;
use crate::token::parse_token;
use crate::token::renderable;
use crate::token::token_of;

verus! {

// ------------------------------------------------------------------
// Claim acceptance, at the spec level.
// ------------------------------------------------------------------
/// First binding of key `k` among the custom claim entries.
pub open spec fn lookup_claim(entries: Seq<(Seq<char>, ClaimValueV)>, k: Seq<char>) -> Option<
    ClaimValueV,
>
    decreases entries.len(),
{
    if entries.len() == 0 {
        None
    } else if entries[0].0 == k {
        Some(entries[0].1)
    } else {
        lookup_claim(entries.drop_first(), k)
    }
}

/// A token is fresh while `now` lies strictly before its expiry.
pub open spec fn token_fresh(p: PayloadV, now: u64) -> bool {
    now < p.exp
}

/// Each configured standard claim must be asserted with the configured
/// value; an unconfigured one is not checked.  The audience is matched
/// as a whole: the asserted list must equal the configured one.
pub open spec fn std_claims_ok(
    iss: Option<Seq<char>>,
    aud: Option<Seq<Seq<char>>>,
    sub: Option<Seq<char>>,
    p: PayloadV,
) -> bool {
    &&& (iss is Some ==> p.iss == iss)
    &&& (aud is Some ==> p.aud == aud)
    &&& (sub is Some ==> p.sub == sub)
}

/// Each configured custom claim must be present in the token with an
/// equal value; extra token claims are not checked.
pub open spec fn custom_claims_ok(
    expected: Seq<(Seq<char>, ClaimValueV)>,
    entries: Seq<(Seq<char>, ClaimValueV)>,
) -> bool {
    forall|i: int|
        0 <= i < expected.len() ==> lookup_claim(entries, (#[trigger] expected[i]).0) == Some(
            expected[i].1,
        )
}

// ------------------------------------------------------------------
// Claim acceptance, executable.
// ------------------------------------------------------------------
/// Find `k` among the custom claim entries.
pub fn lookup_claim_ex(entries: &Vec<(String, ClaimValue)>, k: &str) -> (r: Option<ClaimValue>)
    ensures
        match r {
            Some(v) => lookup_claim(entries_view(entries@), k@) == Some(v@),
            None => lookup_claim(entries_view(entries@), k@) is None,
        },
{
    let ghost es = entries_view(entries@);
    proof {
        assert(es.skip(0) =~= es);
    }
    let mut i: usize = 0;
    while i < entries.len()
        invariant
            i <= entries@.len(),
            es == entries_view(entries@),
            es.len() == entries@.len(),
            lookup_claim(es, k@) == lookup_claim(es.skip(i as int), k@),
        decreases entries@.len() - i,
    {
        proof {
            assert(es.skip(i as int)[0] == es[i as int]);
            assert(es[i as int] == (entries@[i as int].0@, entries@[i as int].1@));
        }
        if str_eq(entries[i].0.as_str(), k) {
            return Some(entries[i].1.clone());
        }
        proof {
            assert(es.skip(i as int).drop_first() =~= es.skip(i as int + 1));
        }
        i = i + 1;
    }
    proof {
        assert(es.skip(es.len() as int) =~= Seq::<(Seq<char>, ClaimValueV)>::empty());
    }
    None
}

/// Decide `custom_claims_ok` for concrete values.
pub fn check_custom_claims(
    expected: &Vec<(String, ClaimValue)>,
    entries: &Vec<(String, ClaimValue)>,
) -> (r: bool)
    ensures
        r == custom_claims_ok(entries_view(expected@), entries_view(entries@)),
{
    let ghost exp = entries_view(expected@);
    let ghost es = entries_view(entries@);
    let mut i: usize = 0;
    while i < expected.len()
        invariant
            i <= expected@.len(),
            exp == entries_view(expected@),
            es == entries_view(entries@),
            exp.len() == expected@.len(),
            forall|j: int|
                0 <= j < i as int ==> lookup_claim(es, (#[trigger] exp[j]).0) == Some(exp[j].1),
        decreases expected@.len() - i,
    {
        proof {
            assert(exp[i as int] == (expected@[i as int].0@, expected@[i as int].1@));
        }
        let found = lookup_claim_ex(entries, expected[i].0.as_str());
        match found {
            Some(v) => {
                if !claim_value_eq(&v, &expected[i].1) {
                    return false;
                }
            },
            None => {
                return false;
            },
        }
        i = i + 1;
    }
    true
}

/// `expected` set implies `got` equals it (standard string claim).
pub fn check_opt_string(expected: &Option<String>, got: &Option<String>) -> (r: bool)
    ensures
        r == (opt_string_view(*expected) is Some ==> opt_string_view(*got) == opt_string_view(
            *expected,
        )),
{
    match expected {
        None => true,
        Some(e) => match got {
            Some(g) => str_eq(g.as_str(), e.as_str()),
            None => false,
        },
    }
}

/// `expected` set implies `got` equals it (audience list claim).
pub fn check_opt_strings(expected: &Option<Vec<String>>, got: &Option<Vec<String>>) -> (r: bool)
    ensures
        r == (opt_strings_view(*expected) is Some ==> opt_strings_view(*got) == opt_strings_view(
            *expected,
        )),
{
    match expected {
        None => true,
        Some(e) => match got {
            Some(g) => {
                if g.len() != e.len() {
                    proof {
                        assert(strings_view(g@).len() != strings_view(e@).len());
                    }
                    return false;
                }
                let mut i: usize = 0;
                while i < e.len()
                    invariant
                        i <= e@.len(),
                        g@.len() == e@.len(),
                        opt_strings_view(*expected) == Some(strings_view(e@)),
                        opt_strings_view(*got) == Some(strings_view(g@)),
                        forall|j: int| 0 <= j < i as int ==> g@[j]@ == (#[trigger] e@[j])@,
                    decreases e@.len() - i,
                {
                    if !str_eq(g[i].as_str(), e[i].as_str()) {
                        proof {
                            assert(strings_view(g@)[i as int] != strings_view(e@)[i as int]);
                            assert(strings_view(g@) != strings_view(e@));
                        }
                        return false;
                    }
                    i = i + 1;
                }
                proof {
                    assert(strings_view(g@) =~= strings_view(e@));
                }
                true
            },
            None => false,
        },
    }
}

// ------------------------------------------------------------------
// The signing handler.
// ------------------------------------------------------------------
/// Opaque signer bound to one key and one set of base claims,
/// produced by the token builder for the client side.
pub struct SignerJwt {
    pub algorithm: Algorithm,
    pub secret: KeyData,
    pub iss: Option<String>,
    pub aud: Option<Vec<String>>,
    pub sub: Option<String>,
    pub custom: Vec<(String, ClaimValue)>,
}

/// Spec-level shape of a `SignerJwt`.
pub struct SignerV {
    pub algorithm: Algorithm,
    pub secret: Seq<char>,
    pub iss: Option<Seq<char>>,
    pub aud: Option<Seq<Seq<char>>>,
    pub sub: Option<Seq<char>>,
    pub custom: Seq<(Seq<char>, ClaimValueV)>,
}

impl View for SignerJwt {
    type V = SignerV;

    open spec fn view(&self) -> SignerV {
        SignerV {
            algorithm: self.algorithm,
            secret: self.secret@,
            iss: opt_string_view(self.iss),
            aud: opt_strings_view(self.aud),
            sub: opt_string_view(self.sub),
            custom: entries_view(self.custom@),
        }
    }
}

/// The payload a signer mints at `iat` with expiry `exp`.
pub open spec fn mint_payload(s: SignerV, iat: u64, exp: u64) -> PayloadV {
    PayloadV { iss: s.iss, aud: s.aud, sub: s.sub, exp, iat, custom: s.custom }
}

/// Everything `sign_at` needs to succeed: the expiry fits in 64 bits
/// and the rendered segments fit the base64 encoder's input bound.
pub open spec fn sign_ok(s: SignerV, now: u64, duration: u64) -> bool {
    &&& now + duration <= u64::MAX
    &&& renderable(s.algorithm, mint_payload(s, now, (now + duration) as u64))
}

impl SignerJwt {
    /// Mint and sign a fresh token: `iat = now`, `exp = now + duration`,
    /// the configured claims, signed with the configured secret.
    pub fn sign_at(&self, now: u64, duration: u64) -> (r: Result<String, SigningError>)
        ensures
            r is Ok ==> now + duration <= u64::MAX && (r->Ok_0)@ == token_of(
                self@.algorithm,
                self@.secret,
                mint_payload(self@, now, (now + duration) as u64),
            ),
            sign_ok(self@, now, duration) ==> r is Ok,
            (r is Err && r->Err_0 == SigningError::ExpiryOverflow) == (now + duration > u64::MAX),
    {
        if duration > u64::MAX - now {
            return Err(SigningError::ExpiryOverflow);
        }
        let exp = now + duration;
        let tc = TokenClaims {
            iss: clone_opt_string(&self.iss),
            aud: clone_opt_strings(&self.aud),
            sub: clone_opt_string(&self.sub),
            exp,
            iat: now,
            custom: clone_entries(&self.custom),
        };
        proof {
            assert(tc@ == mint_payload(self@, now, exp));
        }
        let payload = encode_payload(&tc);
        let secret = match &self.secret {
            KeyData::Str(s) => s.as_str(),
        };
        assemble_token(self.algorithm, secret, &payload)
    }
}

// ------------------------------------------------------------------
// The verification handler.
// ------------------------------------------------------------------
/// How the verifier obtains its key: a fixed key, or per-token
/// resolution.
pub enum VerifyMode {
    Static(Key),
    Autoresolve,
}

/// Spec-level shape of a `VerifyMode`.
pub enum VerifyModeV {
    Static(KeyV),
    Autoresolve,
}

impl View for VerifyMode {
    type V = VerifyModeV;

    open spec fn view(&self) -> VerifyModeV {
        match self {
            VerifyMode::Static(k) => VerifyModeV::Static(k@),
            VerifyMode::Autoresolve => VerifyModeV::Autoresolve,
        }
    }
}

/// Opaque verifier bound to one key source and the standard claims it
/// must see asserted, produced by the token builder for the server
/// side.
pub struct VerifierJwt {
    pub mode: VerifyMode,
    pub iss: Option<String>,
    pub aud: Option<Vec<String>>,
    pub sub: Option<String>,
}

/// Spec-level shape of a `VerifierJwt`.
pub struct VerifierV {
    pub mode: VerifyModeV,
    pub iss: Option<Seq<char>>,
    pub aud: Option<Seq<Seq<char>>>,
    pub sub: Option<Seq<char>>,
}

impl View for VerifierJwt {
    type V = VerifierV;

    open spec fn view(&self) -> VerifierV {
        VerifierV {
            mode: self.mode@,
            iss: opt_string_view(self.iss),
            aud: opt_strings_view(self.aud),
            sub: opt_string_view(self.sub),
        }
    }
}

/// What acceptance under a concrete key means: the token is the
/// canonical signed rendering of payload `p` under that key, `p` is
/// fresh, and it asserts the expected standard claims.
pub open spec fn accepted_with(v: VerifierV, alg: Algorithm, secret: Seq<char>, token: Seq<char>, p: PayloadV, now: u64) -> bool {
    &&& token == token_of(alg, secret, p)
    &&& token_fresh(p, now)
    &&& std_claims_ok(v.iss, v.aud, v.sub, p)
}

impl VerifierJwt {
    /// Decide `token` against a provided reading `candidate` of it,
    /// under the concrete key `alg`/`secret`.  The decision is exact:
    /// the call succeeds when the token is the canonical signed
    /// rendering of `candidate` (which checks the signature),
    /// `candidate` is unexpired and asserts every configured standard
    /// claim — and, under the machine-size bound `renderable`, *only*
    /// then does it fail.
    pub fn verify_candidate(
        &self,
        alg: Algorithm,
        secret: &KeyData,
        token: &str,
        candidate: &TokenClaims,
        now: u64,
    ) -> (r: Result<(), VerificationError>)
        ensures
            r is Ok ==> accepted_with(self@, alg, secret@, token@, candidate@, now),
            accepted_with(self@, alg, secret@, token@, candidate@, now) && renderable(
                alg,
                candidate@,
            ) ==> r is Ok,
            r is Err && r->Err_0 == VerificationError::Expired ==> token@ == token_of(
                alg,
                secret@,
                candidate@,
            ) && !token_fresh(candidate@, now),
            r is Err && r->Err_0 == VerificationError::IssuerMismatch ==> token@ == token_of(
                alg,
                secret@,
                candidate@,
            ) && token_fresh(candidate@, now) && !(self@.iss is Some ==> candidate@.iss
                == self@.iss),
            r is Err && r->Err_0 == VerificationError::AudienceMismatch ==> token@ == token_of(
                alg,
                secret@,
                candidate@,
            ) && token_fresh(candidate@, now) && !(self@.aud is Some ==> candidate@.aud
                == self@.aud),
            r is Err && r->Err_0 == VerificationError::SubjectMismatch ==> token@ == token_of(
                alg,
                secret@,
                candidate@,
            ) && token_fresh(candidate@, now) && !(self@.sub is Some ==> candidate@.sub
                == self@.sub),
            r is Err ==> (r->Err_0 == VerificationError::SignatureMismatch || r->Err_0
                == VerificationError::Expired || r->Err_0 == VerificationError::IssuerMismatch
                || r->Err_0 == VerificationError::AudienceMismatch || r->Err_0
                == VerificationError::SubjectMismatch),
    {
        let payload = encode_payload(candidate);
        let secret_str = match secret {
            KeyData::Str(s) => s.as_str(),
        };
        let canonical = match assemble_token(alg, secret_str, &payload) {
            Ok(c) => c,
            Err(_) => {
                return Err(VerificationError::SignatureMismatch);
            },
        };
        if !str_eq(canonical.as_str(), token) {
            return Err(VerificationError::SignatureMismatch);
        }
        if candidate.exp <= now {
            return Err(VerificationError::Expired);
        }
        if !check_opt_string(&self.iss, &candidate.iss) {
            return Err(VerificationError::IssuerMismatch);
        }
        if !check_opt_strings(&self.aud, &candidate.aud) {
            return Err(VerificationError::AudienceMismatch);
        }
        if !check_opt_string(&self.sub, &candidate.sub) {
            return Err(VerificationError::SubjectMismatch);
        }
        Ok(())
    }

    /// Verify `token` against the concrete key `alg`/`secret`: read a
    /// candidate payload out of it, then decide it with
    /// `verify_candidate`.  Success therefore additionally depends on
    /// the candidate reader recovering the token's payload, which is
    /// exercised by the test suite but carries no completeness proof;
    /// `verify_candidate` states the decision exactly.
    pub fn verify_with(&self, alg: Algorithm, secret: &KeyData, token: &str, now: u64) -> (r:
        Result<TokenClaims, VerificationError>)
        ensures
            r is Ok ==> accepted_with(self@, alg, secret@, token@, (r->Ok_0)@, now),
            r is Err && r->Err_0 == VerificationError::Expired ==> (exists|p: PayloadV|
                token@ == token_of(alg, secret@, p) && !token_fresh(p, now)),
            r is Err && r->Err_0 == VerificationError::IssuerMismatch ==> (exists|p: PayloadV|
                token@ == token_of(alg, secret@, p) && token_fresh(p, now) && !(self@.iss is Some
                    ==> p.iss == self@.iss)),
            r is Err && r->Err_0 == VerificationError::AudienceMismatch ==> (exists|p: PayloadV|
                token@ == token_of(alg, secret@, p) && token_fresh(p, now) && !(self@.aud is Some
                    ==> p.aud == self@.aud)),
            r is Err && r->Err_0 == VerificationError::SubjectMismatch ==> (exists|p: PayloadV|
                token@ == token_of(alg, secret@, p) && token_fresh(p, now) && !(self@.sub is Some
                    ==> p.sub == self@.sub)),
            r is Err ==> (r->Err_0 == VerificationError::MalformedToken || r->Err_0
                == VerificationError::SignatureMismatch || r->Err_0 == VerificationError::Expired
                || r->Err_0 == VerificationError::IssuerMismatch || r->Err_0
                == VerificationError::AudienceMismatch || r->Err_0
                == VerificationError::SubjectMismatch),
    {
        let tc = match parse_token(token) {
            Some(tc) => tc,
            None => {
                return Err(VerificationError::MalformedToken);
            },
        };
        match self.verify_candidate(alg, secret, token, &tc, now) {
            Ok(()) => Ok(tc),
            Err(e) => Err(e),
        }
    }
}

} // verus!
