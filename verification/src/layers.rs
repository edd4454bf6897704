use vstd::prelude::*;

use crate::claims::ClaimValue;
use crate::claims::entries_view;
use crate::errors::SigningError;
use crate::errors::VerificationError;
use crate::handler::SignerJwt;
use crate::handler::VerifierJwt;
use crate::handler::VerifyMode;
use crate::handler::accepted_with;
use crate::handler::check_custom_claims;
use crate::handler::custom_claims_ok;
use crate::handler::mint_payload;
use crate::handler::sign_ok;
use crate::key::Key;
use crate::key::KeyV;
use crate::token::PayloadV;
use crate::token::TokenClaims;
use crate::token::parse_token;
use crate::token::renderable;
use crate::token::token_of;
use vstd::pervasive::unreached;

verus! {

// ------------------------------------------------------------------
// Client layer.
// ------------------------------------------------------------------
/// Middleware layer that mints, signs and attaches a fresh token to
/// each outgoing call.  The surrounding composition framework calls
/// `token_for_call` once per call and puts the result into the call's
/// metadata field.
pub struct AddJwtLayer {
    pub signer: SignerJwt,
    pub duration: u64,
}

impl AddJwtLayer {
    /// Bind a signer and an expiry window.
    pub fn new(signer: SignerJwt, duration: u64) -> (r: Self)
        ensures
            r.signer == signer,
            r.duration == duration,
    {
        AddJwtLayer { signer, duration }
    }

    /// Per-call behaviour: mint a new token with `issued_at = now` and
    /// `exp = now + duration`, signed with the configured key.  A
    /// failure propagates to the caller of the outgoing call.
    pub fn token_for_call(&self, now: u64) -> (r: Result<String, SigningError>)
        ensures
            r is Ok ==> now + self.duration <= u64::MAX && (r->Ok_0)@ == token_of(
                self.signer@.algorithm,
                self.signer@.secret,
                mint_payload(self.signer@, now, (now + self.duration) as u64),
            ),
            sign_ok(self.signer@, now, self.duration) ==> r is Ok,
            (r is Err && r->Err_0 == SigningError::ExpiryOverflow) == (now + self.duration
                > u64::MAX),
    {
        self.signer.sign_at(now, self.duration)
    }
}

// ------------------------------------------------------------------
// Server layer.
// ------------------------------------------------------------------
/// Cache of resolved verification keys, keyed by issuer and private to
/// one server layer.  A newer resolution shadows an older one.
pub struct KeyCache {
    entries: Vec<(String, Key)>,
}

/// View of the cache entries.
pub open spec fn keys_view(s: Seq<(String, Key)>) -> Seq<(Seq<char>, KeyV)> {
    s.map_values(|p: (String, Key)| (p.0@, p.1@))
}

/// First binding of issuer `iss` in the cache.
pub open spec fn lookup_key(s: Seq<(Seq<char>, KeyV)>, iss: Seq<char>) -> Option<KeyV>
    decreases s.len(),
{
    if s.len() == 0 {
        None
    } else if s[0].0 == iss {
        Some(s[0].1)
    } else {
        lookup_key(s.drop_first(), iss)
    }
}

impl View for KeyCache {
    type V = Seq<(Seq<char>, KeyV)>;

    closed spec fn view(&self) -> Seq<(Seq<char>, KeyV)> {
        keys_view(self.entries@)
    }
}

impl KeyCache {
    /// An empty cache.
    pub fn new() -> (r: Self)
        ensures
            r@ == Seq::<(Seq<char>, KeyV)>::empty(),
    {
        let r = KeyCache { entries: Vec::new() };
        proof {
            assert(r@ =~= Seq::<(Seq<char>, KeyV)>::empty());
        }
        r
    }

    /// The key cached for `iss`, if any.
    pub fn get(&self, iss: &str) -> (r: Option<Key>)
        ensures
            match r {
                Some(k) => lookup_key(self@, iss@) == Some(k@),
                None => lookup_key(self@, iss@) is None,
            },
    {
        let ghost es = self@;
        proof {
            assert(es.skip(0) =~= es);
        }
        let mut i: usize = 0;
        while i < self.entries.len()
            invariant
                i <= self.entries@.len(),
                es == keys_view(self.entries@),
                es.len() == self.entries@.len(),
                lookup_key(es, iss@) == lookup_key(es.skip(i as int), iss@),
            decreases self.entries@.len() - i,
        {
            proof {
                assert(es.skip(i as int)[0] == es[i as int]);
                assert(es[i as int] == (self.entries@[i as int].0@, self.entries@[i as int].1@));
            }
            if crate::codec::str_eq(self.entries[i].0.as_str(), iss) {
                return Some(self.entries[i].1.clone());
            }
            proof {
                assert(es.skip(i as int).drop_first() =~= es.skip(i as int + 1));
            }
            i = i + 1;
        }
        proof {
            assert(es.skip(es.len() as int) =~= Seq::<(Seq<char>, KeyV)>::empty());
        }
        None
    }

    /// Record a freshly resolved key for `iss`, shadowing any older
    /// entry; other issuers are unaffected.
    pub fn put(&mut self, iss: String, k: Key)
        ensures
            lookup_key(final(self)@, iss@) == Some(k@),
            forall|other: Seq<char>|
                other != iss@ ==> #[trigger] lookup_key(final(self)@, other) == lookup_key(
                    old(self)@,
                    other,
                ),
    {
        let ghost kv = k@;
        self.entries.insert(0, (iss, k));
        proof {
            assert(final(self)@[0] == (iss@, kv));
            assert(final(self)@.drop_first() =~= old(self)@);
            assert(lookup_key(final(self)@, iss@) == Some(kv));
            assert forall|other: Seq<char>| other != iss@ implies #[trigger] lookup_key(
                final(self)@,
                other,
            ) == lookup_key(old(self)@, other) by {
                assert(lookup_key(final(self)@, other) == lookup_key(
                    final(self)@.drop_first(),
                    other,
                ));
            }
        }
    }
}

/// What the external key resolver reported for the incoming token's
/// issuer: fresh verification key material, or a lookup failure.
pub enum ResolutionOutcome {
    Resolved(Key),
    Failed,
}

/// Spec-level shape of a `ResolutionOutcome`.
pub enum ResolutionOutcomeV {
    Resolved(KeyV),
    Failed,
}

impl View for ResolutionOutcome {
    type V = ResolutionOutcomeV;

    open spec fn view(&self) -> ResolutionOutcomeV {
        match self {
            ResolutionOutcome::Resolved(k) => ResolutionOutcomeV::Resolved(k@),
            ResolutionOutcome::Failed => ResolutionOutcomeV::Failed,
        }
    }
}

/// Key material the autoresolve path may legitimately verify with: a
/// key that was already cached, or the freshly resolved one.
pub open spec fn key_available(
    cache: Seq<(Seq<char>, KeyV)>,
    fresh: ResolutionOutcomeV,
    kv: KeyV,
) -> bool {
    (exists|h: Seq<char>| #[trigger] lookup_key(cache, h) == Some(kv)) || fresh
        == ResolutionOutcomeV::Resolved(kv)
}

/// Middleware layer that extracts the token from each incoming call's
/// metadata field, verifies it and checks the configured claims before
/// the call may reach the wrapped service.  An `Err` means the call is
/// rejected with a synthesized response and the service is never
/// invoked.
pub struct ValidateJwtLayer {
    pub verifier: VerifierJwt,
    pub expected_custom: Vec<(String, ClaimValue)>,
}

impl ValidateJwtLayer {
    /// Bind a verifier and the custom claims to enforce.
    pub fn new(verifier: VerifierJwt, expected_custom: Vec<(String, ClaimValue)>) -> (r: Self)
        ensures
            r.verifier == verifier,
            r.expected_custom == expected_custom,
    {
        ValidateJwtLayer { verifier, expected_custom }
    }

    /// Decide one call given the token and a candidate reading of it,
    /// under the static verification key.  The decision is exact: it
    /// succeeds when the token is the canonical signed rendering of
    /// `candidate`, unexpired, with every configured standard and
    /// custom claim asserted — and, under the machine-size bound
    /// `renderable`, *only* then does it fail.
    pub fn check_candidate(&self, token: &str, candidate: &TokenClaims, now: u64) -> (r: Result<
        (),
        VerificationError,
    >)
        requires
            self.verifier@.mode is Static,
        ensures
            ({
                let k = self.verifier@.mode->Static_0;
                &&& (r is Ok ==> accepted_with(
                    self.verifier@,
                    k.algorithm,
                    k.key,
                    token@,
                    candidate@,
                    now,
                ) && custom_claims_ok(entries_view(self.expected_custom@), candidate@.custom))
                &&& (accepted_with(self.verifier@, k.algorithm, k.key, token@, candidate@, now)
                    && custom_claims_ok(entries_view(self.expected_custom@), candidate@.custom)
                    && renderable(k.algorithm, candidate@) ==> r is Ok)
                &&& (r is Err && r->Err_0 == VerificationError::CustomClaimMismatch
                    ==> accepted_with(self.verifier@, k.algorithm, k.key, token@, candidate@, now)
                    && !custom_claims_ok(entries_view(self.expected_custom@), candidate@.custom))
                &&& (r is Err ==> r->Err_0 != VerificationError::MissingToken && r->Err_0
                    != VerificationError::MalformedToken && r->Err_0
                    != VerificationError::ResolutionFailed)
            }),
    {
        let (alg, key_data) = match &self.verifier.mode {
            VerifyMode::Static(k) => (k.algorithm, &k.key),
            VerifyMode::Autoresolve => unreached(),
        };
        match self.verifier.verify_candidate(alg, key_data, token, candidate, now) {
            Ok(()) => {
                if check_custom_claims(&self.expected_custom, &candidate.custom) {
                    Ok(())
                } else {
                    Err(VerificationError::CustomClaimMismatch)
                }
            },
            Err(e) => Err(e),
        }
    }

    /// Per-call gatekeeping under a static verification key.  `token`
    /// is what the metadata field held: an absent token is rejected
    /// distinguishably from an invalid one.  A present token is read
    /// into a candidate payload and decided by `check_candidate`, so
    /// success additionally depends on the candidate reader, which is
    /// exercised by the test suite but carries no completeness proof;
    /// `check_candidate` states the decision exactly.
    pub fn check_call(&self, token: Option<&str>, now: u64) -> (r: Result<
        TokenClaims,
        VerificationError,
    >)
        requires
            self.verifier@.mode is Static,
        ensures
            (token is None) == (r is Err && r->Err_0 == VerificationError::MissingToken),
            r is Ok ==> ({
                let k = self.verifier@.mode->Static_0;
                &&& token is Some
                &&& accepted_with(self.verifier@, k.algorithm, k.key, token->0@, (r->Ok_0)@, now)
                &&& custom_claims_ok(entries_view(self.expected_custom@), (r->Ok_0)@.custom)
            }),
            r is Err && r->Err_0 == VerificationError::CustomClaimMismatch ==> token is Some && (
            exists|p: PayloadV|
                accepted_with(
                    self.verifier@,
                    self.verifier@.mode->Static_0.algorithm,
                    self.verifier@.mode->Static_0.key,
                    token->0@,
                    p,
                    now,
                ) && !custom_claims_ok(entries_view(self.expected_custom@), p.custom)),
    {
        let t = match token {
            None => {
                return Err(VerificationError::MissingToken);
            },
            Some(t) => t,
        };
        let tc = match parse_token(t) {
            Some(tc) => tc,
            None => {
                return Err(VerificationError::MalformedToken);
            },
        };
        match self.check_candidate(t, &tc, now) {
            Ok(()) => Ok(tc),
            Err(e) => Err(e),
        }
    }

    /// Decide one call under autoresolve, given the token and a
    /// candidate reading of it: try the key cached for the candidate's
    /// issuer first; on a signature failure (a stale key) or a cache
    /// miss, try the freshly resolved key material — at most one
    /// re-resolution per call — and cache it on success.  Success is
    /// owed: a call whose token verifies under the cached key, or
    /// under the freshly resolved one, is accepted (under the
    /// machine-size bound `renderable`); a resolution failure rejects
    /// the call.
    #[verifier::rlimit(100)]
    pub fn check_candidate_resolved(
        &self,
        token: &str,
        candidate: &TokenClaims,
        now: u64,
        cache: &mut KeyCache,
        fresh: &ResolutionOutcome,
    ) -> (r: Result<(), VerificationError>)
        requires
            self.verifier@.mode is Autoresolve,
        ensures
            r is Ok ==> custom_claims_ok(entries_view(self.expected_custom@), candidate@.custom)
                && (exists|kv: KeyV|
                #[trigger] accepted_with(self.verifier@, kv.algorithm, kv.key, token@, candidate@, now)
                    && key_available(old(cache)@, fresh@, kv)),
            fresh@ is Resolved && accepted_with(
                self.verifier@,
                fresh@->Resolved_0.algorithm,
                fresh@->Resolved_0.key,
                token@,
                candidate@,
                now,
            ) && custom_claims_ok(entries_view(self.expected_custom@), candidate@.custom)
                && renderable(fresh@->Resolved_0.algorithm, candidate@) ==> r is Ok,
            (match candidate@.iss {
                Some(h) => match lookup_key(old(cache)@, h) {
                    Some(ck) => accepted_with(
                        self.verifier@,
                        ck.algorithm,
                        ck.key,
                        token@,
                        candidate@,
                        now,
                    ) && renderable(ck.algorithm, candidate@),
                    None => false,
                },
                None => false,
            }) && custom_claims_ok(entries_view(self.expected_custom@), candidate@.custom)
                ==> r is Ok,
            r is Err && r->Err_0 == VerificationError::ResolutionFailed ==> fresh@
                == ResolutionOutcomeV::Failed,
            r is Err ==> r->Err_0 != VerificationError::MissingToken && r->Err_0
                != VerificationError::MalformedToken,
            forall|other: Seq<char>|
                #[trigger] lookup_key(final(cache)@, other) == lookup_key(old(cache)@, other) || (
                fresh@ is Resolved && lookup_key(final(cache)@, other) == Some(
                    fresh@->Resolved_0,
                )),
    {
        let cached: Option<Key> = match &candidate.iss {
            Some(h) => cache.get(h.as_str()),
            None => None,
        };
        if let Some(k) = cached {
            match self.verifier.verify_candidate(k.algorithm, &k.key, token, candidate, now) {
                Ok(()) => {
                    if check_custom_claims(&self.expected_custom, &candidate.custom) {
                        proof {
                            assert(accepted_with(
                                self.verifier@,
                                k@.algorithm,
                                k@.key,
                                token@,
                                candidate@,
                                now,
                            ));
                            assert(key_available(old(cache)@, fresh@, k@));
                        }
                        return Ok(());
                    }
                    return Err(VerificationError::CustomClaimMismatch);
                },
                Err(VerificationError::SignatureMismatch) => (),  // suspect a stale key: retry below
                Err(e) => {
                    return Err(e);
                },
            }
        }
        // One re-resolution: use the freshly resolved key, or fail closed.
        let k2 = match fresh {
            ResolutionOutcome::Failed => {
                return Err(VerificationError::ResolutionFailed);
            },
            ResolutionOutcome::Resolved(k2) => k2,
        };
        match self.verifier.verify_candidate(k2.algorithm, &k2.key, token, candidate, now) {
            Ok(()) => (),
            Err(e) => {
                return Err(e);
            },
        }
        if !check_custom_claims(&self.expected_custom, &candidate.custom) {
            return Err(VerificationError::CustomClaimMismatch);
        }
        proof {
            assert(accepted_with(
                self.verifier@,
                k2@.algorithm,
                k2@.key,
                token@,
                candidate@,
                now,
            ));
            assert(key_available(old(cache)@, fresh@, k2@));
        }
        match &candidate.iss {
            Some(h) => {
                cache.put(h.clone(), k2.clone());
            },
            None => (),
        }
        Ok(())
    }

    /// Per-call gatekeeping under autoresolve.  An absent token is
    /// rejected distinguishably; a present one is read into a
    /// candidate payload and decided by `check_candidate_resolved`,
    /// which states the decision — including when success is owed —
    /// exactly; as with `check_call`, the candidate reader itself
    /// carries no completeness proof.
    pub fn check_call_resolved(
        &self,
        token: Option<&str>,
        now: u64,
        cache: &mut KeyCache,
        fresh: &ResolutionOutcome,
    ) -> (r: Result<TokenClaims, VerificationError>)
        requires
            self.verifier@.mode is Autoresolve,
        ensures
            (token is None) == (r is Err && r->Err_0 == VerificationError::MissingToken),
            r is Ok ==> ({
                let p = (r->Ok_0)@;
                &&& token is Some
                &&& custom_claims_ok(entries_view(self.expected_custom@), p.custom)
                &&& exists|kv: KeyV|
                    #[trigger] accepted_with(self.verifier@, kv.algorithm, kv.key, token->0@, p, now)
                        && key_available(old(cache)@, fresh@, kv)
            }),
            r is Err && r->Err_0 == VerificationError::ResolutionFailed ==> fresh@
                == ResolutionOutcomeV::Failed,
            forall|other: Seq<char>|
                #[trigger] lookup_key(final(cache)@, other) == lookup_key(old(cache)@, other) || (
                fresh@ is Resolved && lookup_key(final(cache)@, other) == Some(
                    fresh@->Resolved_0,
                )),
    {
        let t = match token {
            None => {
                return Err(VerificationError::MissingToken);
            },
            Some(t) => t,
        };
        let tc = match parse_token(t) {
            Some(tc) => tc,
            None => {
                return Err(VerificationError::MalformedToken);
            },
        };
        match self.check_candidate_resolved(t, &tc, now, cache, fresh) {
            Ok(()) => Ok(tc),
            Err(e) => Err(e),
        }
    }
}

} // verus!
