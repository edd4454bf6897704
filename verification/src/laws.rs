use vstd::prelude::*;

use crate::claims::ClaimValueV;
use crate::claims::ClaimsV;
use crate::config::ConfigV;
use crate::config::config_custom;
use crate::handler::SignerV;
use crate::handler::VerifyModeV;
use crate::key::JwtKeyV;
use crate::key::KeyV;
use crate::handler::VerifierV;
use crate::handler::accepted_with;
use crate::handler::custom_claims_ok;
use crate::handler::lookup_claim;
use crate::handler::mint_payload;
use crate::key::Algorithm;
use crate::token::PayloadV;
use crate::token::token_of;

verus! {

proof fn lemma_lookup_self(entries: Seq<(Seq<char>, ClaimValueV)>, i: int)
    requires
        0 <= i < entries.len(),
        forall|a: int, b: int| 0 <= a < b < entries.len() ==> entries[a].0 != entries[b].0,
    ensures
        lookup_claim(entries, entries[i].0) == Some(entries[i].1),
    decreases i,
{
    if i == 0 {
    } else {
        assert(entries[0].0 != entries[i].0);
        let rest = entries.drop_first();
        assert forall|a: int, b: int| 0 <= a < b < rest.len() implies rest[a].0 != rest[b].0 by {
            assert(rest[a] == entries[a + 1]);
            assert(rest[b] == entries[b + 1]);
        }
        assert(rest[i - 1] == entries[i]);
        lemma_lookup_self(rest, i - 1);
    }
}

/// Law (round trip): a token minted by a signing handler satisfies the
/// acceptance predicate of any verifying handler sharing the key
/// material, the standard claims, and the (duplicate-free) custom
/// claims, at any time before the token's expiry: the minted payload
/// is the canonical preimage of the token, is fresh, and passes every
/// configured standard and custom claim check.
pub proof fn lemma_round_trip(
    s: SignerV,
    v: VerifierV,
    expected_custom: Seq<(Seq<char>, ClaimValueV)>,
    now: u64,
    duration: u64,
    t: u64,
)
    requires
        v.iss == s.iss,
        v.aud == s.aud,
        v.sub == s.sub,
        expected_custom == s.custom,
        forall|a: int, b: int| 0 <= a < b < s.custom.len() ==> s.custom[a].0 != s.custom[b].0,
        now + duration <= u64::MAX,
        t < now + duration,
    ensures
        ({
            let p = mint_payload(s, now, (now + duration) as u64);
            &&& accepted_with(v, s.algorithm, s.secret, token_of(s.algorithm, s.secret, p), p, t)
            &&& custom_claims_ok(expected_custom, p.custom)
        }),
{
    let p = mint_payload(s, now, (now + duration) as u64);
    assert forall|i: int| 0 <= i < expected_custom.len() implies lookup_claim(
        p.custom,
        (#[trigger] expected_custom[i]).0,
    ) == Some(expected_custom[i].1) by {
        lemma_lookup_self(s.custom, i);
    }
}

/// Law (round trip, at the configuration level): let a client config
/// and a server config share the key material `k` (encoding on the
/// client, decoding on the server) and the same claims.  Then the
/// signer promised by `get_client_layer` and the verifier promised by
/// `get_server_layer` stand in the round-trip relation above: every
/// token the signer mints before its expiry satisfies the verifier's
/// acceptance predicate and the custom-claim check.
pub proof fn lemma_config_round_trip(
    k: KeyV,
    claims: ClaimsV,
    c: ConfigV,
    now: u64,
    duration: u64,
    t: u64,
)
    requires
        c.claims == claims,
        c.key == JwtKeyV::Encoding(k),
        ({
            let cc = config_custom(c);
            forall|a: int, b: int| 0 <= a < b < cc.len() ==> cc[a].0 != cc[b].0
        }),
        now + duration <= u64::MAX,
        t < now + duration,
    ensures
        ({
            let s = SignerV {
                algorithm: k.algorithm,
                secret: k.key,
                iss: claims.issuer,
                aud: claims.audience,
                sub: claims.subject,
                custom: config_custom(c),
            };
            let v = VerifierV {
                mode: VerifyModeV::Static(k),
                iss: claims.issuer,
                aud: claims.audience,
                sub: claims.subject,
            };
            let p = mint_payload(s, now, (now + duration) as u64);
            &&& accepted_with(v, s.algorithm, s.secret, token_of(s.algorithm, s.secret, p), p, t)
            &&& custom_claims_ok(config_custom(c), p.custom)
        }),
{
    let s = SignerV {
        algorithm: k.algorithm,
        secret: k.key,
        iss: claims.issuer,
        aud: claims.audience,
        sub: claims.subject,
        custom: config_custom(c),
    };
    let v = VerifierV {
        mode: VerifyModeV::Static(k),
        iss: claims.issuer,
        aud: claims.audience,
        sub: claims.subject,
    };
    lemma_round_trip(s, v, config_custom(c), now, duration, t);
}

/// Law (expiry): a payload whose `exp` is not in the future is never
/// accepted, whatever key signed it and whatever claims it asserts.
pub proof fn lemma_expired_rejected(
    v: VerifierV,
    alg: Algorithm,
    secret: Seq<char>,
    token: Seq<char>,
    p: PayloadV,
    now: u64,
)
    requires
        p.exp <= now,
    ensures
        !accepted_with(v, alg, secret, token, p, now),
{
}

/// Law (claim mismatch, issuer): changing the configured expected
/// issuer to a different value, while keeping the token unchanged,
/// flips acceptance to rejection.
pub proof fn lemma_changed_issuer_rejects(
    v: VerifierV,
    v2: VerifierV,
    alg: Algorithm,
    secret: Seq<char>,
    token: Seq<char>,
    p: PayloadV,
    now: u64,
)
    requires
        accepted_with(v, alg, secret, token, p, now),
        v.iss is Some,
        v2.iss is Some,
        v2.iss != v.iss,
    ensures
        !accepted_with(v2, alg, secret, token, p, now),
{
}

/// Law (claim mismatch, audience): changing the configured expected
/// audience to a different value, while keeping the token unchanged,
/// flips acceptance to rejection.
pub proof fn lemma_changed_audience_rejects(
    v: VerifierV,
    v2: VerifierV,
    alg: Algorithm,
    secret: Seq<char>,
    token: Seq<char>,
    p: PayloadV,
    now: u64,
)
    requires
        accepted_with(v, alg, secret, token, p, now),
        v.aud is Some,
        v2.aud is Some,
        v2.aud != v.aud,
    ensures
        !accepted_with(v2, alg, secret, token, p, now),
{
}

/// Law (claim mismatch, subject): changing the configured expected
/// subject to a different value, while keeping the token unchanged,
/// flips acceptance to rejection.
pub proof fn lemma_changed_subject_rejects(
    v: VerifierV,
    v2: VerifierV,
    alg: Algorithm,
    secret: Seq<char>,
    token: Seq<char>,
    p: PayloadV,
    now: u64,
)
    requires
        accepted_with(v, alg, secret, token, p, now),
        v.sub is Some,
        v2.sub is Some,
        v2.sub != v.sub,
    ensures
        !accepted_with(v2, alg, secret, token, p, now),
{
}

/// Law (claim mismatch, custom): changing the value of one configured
/// custom claim, while keeping the token's claims unchanged, flips the
/// custom-claim check to rejection.
pub proof fn lemma_changed_custom_rejects(
    expected: Seq<(Seq<char>, ClaimValueV)>,
    entries: Seq<(Seq<char>, ClaimValueV)>,
    i: int,
    val2: ClaimValueV,
)
    requires
        custom_claims_ok(expected, entries),
        0 <= i < expected.len(),
        val2 != expected[i].1,
    ensures
        !custom_claims_ok(expected.update(i, (expected[i].0, val2)), entries),
{
    let e2 = expected.update(i, (expected[i].0, val2));
    assert(lookup_claim(entries, (expected[i]).0) == Some(expected[i].1));
    assert(e2[i] == (expected[i].0, val2));
    if custom_claims_ok(e2, entries) {
        assert(lookup_claim(entries, (e2[i]).0) == Some(e2[i].1));
        assert(false);
    }
}

} // verus!
