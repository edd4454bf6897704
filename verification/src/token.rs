use vstd::prelude::*;
use vstd::utf8::encode_utf8;

use crate::claims::ClaimValue;
use crate::claims::ClaimValueV;
use crate::claims::entries_view;
use crate::claims::opt_string_view;
use crate::claims::opt_strings_view;
use crate::claims::strings_view;
use crate::codec::b64url_decode;
use crate::codec::b64url_encode;
use crate::codec::b64url_of;
use crate::codec::bytes_eq;
use crate::codec::bytes_to_string;
use crate::codec::dec_of;
use crate::codec::dec_of_int;
use crate::codec::hmac_sha256;
use crate::codec::hmac_sha256_of;
use crate::codec::hmac_sha384;
use crate::codec::hmac_sha384_of;
use crate::codec::hmac_sha512;
use crate::codec::hmac_sha512_of;
use crate::codec::push_bytes;
use crate::codec::push_dec_i64;
use crate::codec::push_dec_u64;
use crate::codec::push_quoted_str;
use crate::codec::quoted_str;
use crate::errors::SigningError;
use crate::key::Algorithm;
use vstd::string::StringExecFns;

verus! {

/// The claims asserted by one concrete token: the standard `iss`,
/// `aud`, `sub`, `exp`, `iat` fields plus the custom claims.
#[derive(Debug)]
pub struct TokenClaims {
    pub iss: Option<String>,
    pub aud: Option<Vec<String>>,
    pub sub: Option<String>,
    pub exp: u64,
    pub iat: u64,
    pub custom: Vec<(String, ClaimValue)>,
}

/// Spec-level shape of a token's payload.
pub struct PayloadV {
    pub iss: Option<Seq<char>>,
    pub aud: Option<Seq<Seq<char>>>,
    pub sub: Option<Seq<char>>,
    pub exp: u64,
    pub iat: u64,
    pub custom: Seq<(Seq<char>, ClaimValueV)>,
}

impl View for TokenClaims {
    type V = PayloadV;

    open spec fn view(&self) -> PayloadV {
        PayloadV {
            iss: opt_string_view(self.iss),
            aud: opt_strings_view(self.aud),
            sub: opt_string_view(self.sub),
            exp: self.exp,
            iat: self.iat,
            custom: entries_view(self.custom@),
        }
    }
}

// ------------------------------------------------------------------
// The canonical JSON rendering of a payload.  Both the signer and the
// verifier produce exactly these bytes; the verifier accepts a token
// only if it equals the canonical rendering, so no other JSON shape
// is ever trusted.
// ------------------------------------------------------------------
/// One custom claim value.
pub open spec fn value_bytes(v: ClaimValueV) -> Seq<u8> {
    match v {
        ClaimValueV::Null => encode_utf8("null"@),
        ClaimValueV::Bool(b) => if b {
            encode_utf8("true"@)
        } else {
            encode_utf8("false"@)
        },
        ClaimValueV::Int(i) => dec_of_int(i),
        ClaimValueV::Str(s) => quoted_str(s),
    }
}

/// A comma-separated list of JSON strings (the audience array body).
pub open spec fn str_list_bytes(l: Seq<Seq<char>>) -> Seq<u8>
    decreases l.len(),
{
    if l.len() == 0 {
        Seq::empty()
    } else if l.len() == 1 {
        quoted_str(l[0])
    } else {
        str_list_bytes(l.drop_last()) + encode_utf8(","@) + quoted_str(l.last())
    }
}

/// One custom claim entry, comma-prefixed.
pub open spec fn custom_entry_bytes(e: (Seq<char>, ClaimValueV)) -> Seq<u8> {
    encode_utf8(","@) + quoted_str(e.0) + encode_utf8(":"@) + value_bytes(e.1)
}

/// All custom claim entries, in stored order.
pub open spec fn customs_bytes(cs: Seq<(Seq<char>, ClaimValueV)>) -> Seq<u8>
    decreases cs.len(),
{
    if cs.len() == 0 {
        Seq::empty()
    } else {
        customs_bytes(cs.drop_last()) + custom_entry_bytes(cs.last())
    }
}

pub open spec fn iss_part(o: Option<Seq<char>>) -> Seq<u8> {
    match o {
        None => Seq::empty(),
        Some(s) => encode_utf8(",\"iss\":"@) + quoted_str(s),
    }
}

pub open spec fn aud_part(o: Option<Seq<Seq<char>>>) -> Seq<u8> {
    match o {
        None => Seq::empty(),
        Some(l) => encode_utf8(",\"aud\":["@) + str_list_bytes(l) + encode_utf8("]"@),
    }
}

pub open spec fn sub_part(o: Option<Seq<char>>) -> Seq<u8> {
    match o {
        None => Seq::empty(),
        Some(s) => encode_utf8(",\"sub\":"@) + quoted_str(s),
    }
}

/// The canonical payload JSON of `p`.
pub open spec fn payload_bytes(p: PayloadV) -> Seq<u8> {
    encode_utf8("{\"exp\":"@) + dec_of(p.exp as nat) + encode_utf8(",\"iat\":"@) + dec_of(
        p.iat as nat,
    ) + iss_part(p.iss) + aud_part(p.aud) + sub_part(p.sub) + customs_bytes(p.custom)
        + encode_utf8("}"@)
}

/// The fixed JOSE header for each algorithm.
pub open spec fn header_bytes(alg: Algorithm) -> Seq<u8> {
    match alg {
        Algorithm::HS256 => encode_utf8("{\"alg\":\"HS256\",\"typ\":\"JWT\"}"@),
        Algorithm::HS384 => encode_utf8("{\"alg\":\"HS384\",\"typ\":\"JWT\"}"@),
        Algorithm::HS512 => encode_utf8("{\"alg\":\"HS512\",\"typ\":\"JWT\"}"@),
    }
}

/// The HMAC tag under the configured algorithm.
pub open spec fn mac_of(alg: Algorithm, key: Seq<u8>, msg: Seq<u8>) -> Seq<u8> {
    match alg {
        Algorithm::HS256 => hmac_sha256_of(key, msg),
        Algorithm::HS384 => hmac_sha384_of(key, msg),
        Algorithm::HS512 => hmac_sha512_of(key, msg),
    }
}

/// `base64url(header) "." base64url(payload)`.
pub open spec fn signing_input_of(alg: Algorithm, payload: Seq<u8>) -> Seq<char> {
    b64url_of(header_bytes(alg)) + "."@ + b64url_of(payload)
}

/// The complete signed token over the given payload bytes, under the
/// given algorithm and HMAC secret.
pub open spec fn token_of_bytes(alg: Algorithm, secret: Seq<char>, payload: Seq<u8>) -> Seq<char> {
    signing_input_of(alg, payload) + "."@ + b64url_of(
        mac_of(alg, encode_utf8(secret), encode_utf8(signing_input_of(alg, payload))),
    )
}

/// The complete signed token asserting payload `p`.
pub open spec fn token_of(alg: Algorithm, secret: Seq<char>, p: PayloadV) -> Seq<char> {
    token_of_bytes(alg, secret, payload_bytes(p))
}

/// The machine-size bound under which a payload can actually be
/// rendered and signed: both segments fit the base64 encoder's input
/// bound.
pub open spec fn renderable(alg: Algorithm, p: PayloadV) -> bool {
    &&& payload_bytes(p).len() <= MAX_SEGMENT as nat
    &&& header_bytes(alg).len() <= MAX_SEGMENT as nat
}

// ------------------------------------------------------------------
// Verified emission.
// ------------------------------------------------------------------
fn push_value(out: &mut Vec<u8>, v: &ClaimValue)
    ensures
        final(out)@ == old(out)@ + value_bytes(v@),
{
    match v {
        ClaimValue::Null => push_bytes(out, "null".as_bytes()),
        ClaimValue::Bool(b) => {
            if *b {
                push_bytes(out, "true".as_bytes());
            } else {
                push_bytes(out, "false".as_bytes());
            }
        },
        ClaimValue::Int(i) => push_dec_i64(out, *i),
        ClaimValue::Str(s) => push_quoted_str(out, s.as_str()),
    }
}

fn push_str_list(out: &mut Vec<u8>, v: &Vec<String>)
    ensures
        final(out)@ == old(out)@ + str_list_bytes(strings_view(v@)),
{
    let ghost l = strings_view(v@);
    let mut i: usize = 0;
    while i < v.len()
        invariant
            i <= v@.len(),
            l == strings_view(v@),
            l.len() == v@.len(),
            out@ == old(out)@ + str_list_bytes(l.take(i as int)),
        decreases v@.len() - i,
    {
        if i > 0 {
            push_bytes(out, ",".as_bytes());
        }
        push_quoted_str(out, v[i].as_str());
        proof {
            assert(l[i as int] == v@[i as int]@);
            assert(l.take(i as int + 1).drop_last() =~= l.take(i as int));
            assert(l.take(i as int + 1).last() == l[i as int]);
            if i == 0 {
                assert(str_list_bytes(l.take(1)) == quoted_str(l[0]));
            }
            assert(out@ =~= old(out)@ + str_list_bytes(l.take(i as int + 1)));
        }
        i = i + 1;
    }
    proof {
        assert(l.take(v@.len() as int) =~= l);
    }
}

fn push_customs(out: &mut Vec<u8>, v: &Vec<(String, ClaimValue)>)
    ensures
        final(out)@ == old(out)@ + customs_bytes(entries_view(v@)),
{
    let ghost cs = entries_view(v@);
    let mut i: usize = 0;
    while i < v.len()
        invariant
            i <= v@.len(),
            cs == entries_view(v@),
            cs.len() == v@.len(),
            out@ == old(out)@ + customs_bytes(cs.take(i as int)),
        decreases v@.len() - i,
    {
        push_bytes(out, ",".as_bytes());
        push_quoted_str(out, v[i].0.as_str());
        push_bytes(out, ":".as_bytes());
        push_value(out, &v[i].1);
        proof {
            assert(cs[i as int] == (v@[i as int].0@, v@[i as int].1@));
            assert(cs.take(i as int + 1).drop_last() =~= cs.take(i as int));
            assert(cs.take(i as int + 1).last() == cs[i as int]);
            assert(out@ =~= old(out)@ + customs_bytes(cs.take(i as int + 1)));
        }
        i = i + 1;
    }
    proof {
        assert(cs.take(v@.len() as int) =~= cs);
    }
}

fn push_iss(out: &mut Vec<u8>, o: &Option<String>)
    ensures
        final(out)@ == old(out)@ + iss_part(opt_string_view(*o)),
{
    match o {
        None => (),
        Some(s) => {
            push_bytes(out, ",\"iss\":".as_bytes());
            push_quoted_str(out, s.as_str());
            proof {
                assert(final(out)@ =~= old(out)@ + iss_part(opt_string_view(*o)));
            }
        },
    }
}

fn push_sub(out: &mut Vec<u8>, o: &Option<String>)
    ensures
        final(out)@ == old(out)@ + sub_part(opt_string_view(*o)),
{
    match o {
        None => (),
        Some(s) => {
            push_bytes(out, ",\"sub\":".as_bytes());
            push_quoted_str(out, s.as_str());
            proof {
                assert(final(out)@ =~= old(out)@ + sub_part(opt_string_view(*o)));
            }
        },
    }
}

fn push_aud(out: &mut Vec<u8>, o: &Option<Vec<String>>)
    ensures
        final(out)@ == old(out)@ + aud_part(opt_strings_view(*o)),
{
    match o {
        None => (),
        Some(l) => {
            push_bytes(out, ",\"aud\":[".as_bytes());
            push_str_list(out, l);
            push_bytes(out, "]".as_bytes());
            proof {
                assert(final(out)@ =~= old(out)@ + aud_part(opt_strings_view(*o)));
            }
        },
    }
}

/// Render the canonical payload JSON of `tc`.
pub fn encode_payload(tc: &TokenClaims) -> (r: Vec<u8>)
    ensures
        r@ == payload_bytes(tc@),
{
    let mut out: Vec<u8> = Vec::new();
    push_bytes(&mut out, "{\"exp\":".as_bytes());
    push_dec_u64(&mut out, tc.exp);
    push_bytes(&mut out, ",\"iat\":".as_bytes());
    push_dec_u64(&mut out, tc.iat);
    push_iss(&mut out, &tc.iss);
    push_aud(&mut out, &tc.aud);
    push_sub(&mut out, &tc.sub);
    push_customs(&mut out, &tc.custom);
    push_bytes(&mut out, "}".as_bytes());
    proof {
        assert(out@ =~= payload_bytes(tc@));
    }
    out
}

// ------------------------------------------------------------------
// Token assembly.
// ------------------------------------------------------------------
/// Longest byte string handed to the base64 encoder.
pub const MAX_SEGMENT: usize = usize::MAX / 4;

fn header_str(alg: Algorithm) -> (r: &'static str)
    ensures
        encode_utf8(r@) == header_bytes(alg),
{
    match alg {
        Algorithm::HS256 => "{\"alg\":\"HS256\",\"typ\":\"JWT\"}",
        Algorithm::HS384 => "{\"alg\":\"HS384\",\"typ\":\"JWT\"}",
        Algorithm::HS512 => "{\"alg\":\"HS512\",\"typ\":\"JWT\"}",
    }
}

/// Sign `payload` under `alg`/`secret` and assemble the compact
/// `header.payload.signature` token.
pub fn assemble_token(alg: Algorithm, secret: &str, payload: &Vec<u8>) -> (r: Result<
    String,
    SigningError,
>)
    ensures
        r is Ok ==> r->Ok_0@ == token_of_bytes(alg, secret@, payload@),
        r is Err ==> r->Err_0 == SigningError::TokenTooLong,
        payload@.len() <= MAX_SEGMENT as nat && header_bytes(alg).len() <= MAX_SEGMENT as nat
            ==> r is Ok,
{
    let hs = header_str(alg);
    let hb = hs.as_bytes();
    if hb.len() > MAX_SEGMENT {
        return Err(SigningError::TokenTooLong);
    }
    if payload.len() > MAX_SEGMENT {
        return Err(SigningError::TokenTooLong);
    }
    let h64 = b64url_encode(hb);
    let p64 = b64url_encode(payload.as_slice());
    let si = h64.concat(".").concat(p64.as_str());
    let mac = match alg {
        Algorithm::HS256 => hmac_sha256(secret.as_bytes(), si.as_str().as_bytes()),
        Algorithm::HS384 => hmac_sha384(secret.as_bytes(), si.as_str().as_bytes()),
        Algorithm::HS512 => hmac_sha512(secret.as_bytes(), si.as_str().as_bytes()),
    };
    let s64 = b64url_encode(mac.as_slice());
    let tok = si.concat(".").concat(s64.as_str());
    proof {
        assert(si@ == signing_input_of(alg, payload@));
        assert(tok@ == token_of_bytes(alg, secret@, payload@));
    }
    Ok(tok)
}

// ------------------------------------------------------------------
// Parsing.  The parser only proposes a candidate reading of a token;
// the verifier re-renders the candidate canonically and compares, so
// nothing is trusted about these functions beyond memory safety and
// termination.
// ------------------------------------------------------------------
fn skip_lit(v: &Vec<u8>, i: usize, pat: &[u8]) -> (r: Option<usize>)
    ensures
        r is Some ==> i + pat@.len() == r->0 as int && r->0 <= v@.len(),
{
    let n = v.len();
    if pat.len() > n || i > n - pat.len() {
        return None;
    }
    let mut j: usize = 0;
    while j < pat.len()
        invariant
            j <= pat@.len(),
            i + pat@.len() <= v@.len(),
            v@.len() <= usize::MAX as nat,
        decreases pat@.len() - j,
    {
        if v[i + j] != pat[j] {
            return None;
        }
        j = j + 1;
    }
    Some(i + pat.len())
}

fn parse_u64(v: &Vec<u8>, i: usize) -> (r: Option<(u64, usize)>)
    ensures
        r is Some ==> i < (r->0).1 as int && (r->0).1 <= v@.len(),
{
    if i >= v.len() {
        return None;
    }
    let mut j = i;
    let mut m: u64 = 0;
    let mut seen = false;
    while j < v.len() && v[j] >= 0x30 && v[j] <= 0x39
        invariant
            i <= j <= v@.len(),
            seen ==> i < j,
            !seen ==> j == i,
        decreases v@.len() - j,
    {
        let d = (v[j] - 0x30) as u64;
        if m > 1844674407370955161u64 {
            return None;
        }
        if m == 1844674407370955161u64 && d > 5 {
            return None;
        }
        m = m * 10 + d;
        seen = true;
        j = j + 1;
    }
    if seen {
        Some((m, j))
    } else {
        None
    }
}

fn hex_val(b: u8) -> (r: Option<u8>)
    ensures
        r is Some ==> r->0 < 16,
{
    if b >= 0x30 && b <= 0x39 {
        Some(b - 0x30)
    } else if b >= 0x61 && b <= 0x66 {
        Some(b - 0x57)
    } else {
        None
    }
}

fn parse_string(v: &Vec<u8>, i: usize) -> (r: Option<(String, usize)>)
    ensures
        r is Some ==> i < (r->0).1 as int && (r->0).1 <= v@.len(),
{
    if i >= v.len() || v[i] != 0x22 {
        return None;
    }
    let mut j = i + 1;
    let mut buf: Vec<u8> = Vec::new();
    while j < v.len() && v[j] != 0x22
        invariant
            i < j <= v@.len(),
        decreases v@.len() - j,
    {
        let b = v[j];
        if b == 0x5c {
            if j + 1 >= v.len() {
                return None;
            }
            let e = v[j + 1];
            if e == 0x22 {
                buf.push(0x22);
                j = j + 2;
            } else if e == 0x5c {
                buf.push(0x5c);
                j = j + 2;
            } else if e == 0x75 {
                if v.len() - j < 6 {
                    return None;
                }
                if v[j + 2] != 0x30 || v[j + 3] != 0x30 {
                    return None;
                }
                let hi = match hex_val(v[j + 4]) {
                    Some(h) => h,
                    None => {
                        return None;
                    },
                };
                let lo = match hex_val(v[j + 5]) {
                    Some(h) => h,
                    None => {
                        return None;
                    },
                };
                buf.push(hi * 16 + lo);
                j = j + 6;
            } else {
                return None;
            }
            if j > v.len() {
                return None;
            }
        } else {
            buf.push(b);
            j = j + 1;
        }
    }
    if j >= v.len() {
        return None;
    }
    match bytes_to_string(buf) {
        Some(s) => Some((s, j + 1)),
        None => None,
    }
}

fn parse_value(v: &Vec<u8>, i: usize) -> (r: Option<(ClaimValue, usize)>)
    ensures
        r is Some ==> i < (r->0).1 as int && (r->0).1 <= v@.len(),
{
    if i >= v.len() {
        return None;
    }
    let b = v[i];
    if b == 0x22 {
        match parse_string(v, i) {
            Some((s, j)) => Some((ClaimValue::Str(s), j)),
            None => None,
        }
    } else if b == 0x6e {
        match skip_lit(v, i, "null".as_bytes()) {
            Some(j) => if j > i {
                Some((ClaimValue::Null, j))
            } else {
                None
            },
            None => None,
        }
    } else if b == 0x74 {
        match skip_lit(v, i, "true".as_bytes()) {
            Some(j) => if j > i {
                Some((ClaimValue::Bool(true), j))
            } else {
                None
            },
            None => None,
        }
    } else if b == 0x66 {
        match skip_lit(v, i, "false".as_bytes()) {
            Some(j) => if j > i {
                Some((ClaimValue::Bool(false), j))
            } else {
                None
            },
            None => None,
        }
    } else if b == 0x2d {
        match parse_u64(v, i + 1) {
            Some((m, j)) => {
                if m <= 9223372036854775807u64 {
                    Some((ClaimValue::Int(-(m as i64)), j))
                } else if m == 9223372036854775808u64 {
                    Some((ClaimValue::Int(i64::MIN), j))
                } else {
                    None
                }
            },
            None => None,
        }
    } else {
        match parse_u64(v, i) {
            Some((m, j)) => {
                if m <= 9223372036854775807u64 {
                    Some((ClaimValue::Int(m as i64), j))
                } else {
                    None
                }
            },
            None => None,
        }
    }
}

fn parse_str_list(v: &Vec<u8>, i: usize) -> (r: Option<(Vec<String>, usize)>)
    ensures
        r is Some ==> i < (r->0).1 as int && (r->0).1 <= v@.len(),
{
    if i >= v.len() || v[i] != 0x5b {
        return None;
    }
    let mut j = i + 1;
    let mut out: Vec<String> = Vec::new();
    if j < v.len() && v[j] == 0x5d {
        return Some((out, j + 1));
    }
    loop
        invariant
            i < j <= v@.len(),
        decreases v@.len() - j,
    {
        match parse_string(v, j) {
            Some((s, k)) => {
                out.push(s);
                if k >= v.len() {
                    return None;
                }
                if v[k] == 0x5d {
                    return Some((out, k + 1));
                }
                if v[k] != 0x2c {
                    return None;
                }
                j = k + 1;
            },
            None => {
                return None;
            },
        }
    }
}

/// Propose a reading of payload JSON bytes.
fn parse_payload(v: &Vec<u8>) -> Option<TokenClaims> {
    let mut i = match skip_lit(v, 0, "{\"exp\":".as_bytes()) {
        Some(j) => j,
        None => {
            return None;
        },
    };
    let exp = match parse_u64(v, i) {
        Some((m, j)) => {
            i = j;
            m
        },
        None => {
            return None;
        },
    };
    i = match skip_lit(v, i, ",\"iat\":".as_bytes()) {
        Some(j) => j,
        None => {
            return None;
        },
    };
    let iat = match parse_u64(v, i) {
        Some((m, j)) => {
            i = j;
            m
        },
        None => {
            return None;
        },
    };
    let mut iss: Option<String> = None;
    let mut aud: Option<Vec<String>> = None;
    let mut sub: Option<String> = None;
    let mut custom: Vec<(String, ClaimValue)> = Vec::new();
    loop
        invariant
            i <= v@.len(),
        decreases v@.len() - i,
    {
        if i >= v.len() {
            return None;
        }
        if v[i] == 0x7d {
            if i + 1 == v.len() {
                return Some(TokenClaims { iss, aud, sub, exp, iat, custom });
            }
            return None;
        }
        if v[i] != 0x2c {
            return None;
        }
        let (key, k) = match parse_string(v, i + 1) {
            Some(p) => p,
            None => {
                return None;
            },
        };
        if k >= v.len() || v[k] != 0x3a {
            return None;
        }
        let k = k + 1;
        if bytes_eq(key.as_str().as_bytes(), "iss".as_bytes()) {
            match parse_string(v, k) {
                Some((s, j)) => {
                    iss = Some(s);
                    i = j;
                },
                None => {
                    return None;
                },
            }
        } else if bytes_eq(key.as_str().as_bytes(), "aud".as_bytes()) {
            match parse_str_list(v, k) {
                Some((l, j)) => {
                    aud = Some(l);
                    i = j;
                },
                None => {
                    return None;
                },
            }
        } else if bytes_eq(key.as_str().as_bytes(), "sub".as_bytes()) {
            match parse_string(v, k) {
                Some((s, j)) => {
                    sub = Some(s);
                    i = j;
                },
                None => {
                    return None;
                },
            }
        } else {
            match parse_value(v, k) {
                Some((val, j)) => {
                    custom.push((key, val));
                    i = j;
                },
                None => {
                    return None;
                },
            }
        }
    }
}

fn copy_range(s: &[u8], from: usize, to: usize) -> Vec<u8>
    requires
        from <= to <= s@.len(),
{
    let mut out: Vec<u8> = Vec::new();
    let mut i = from;
    while i < to
        invariant
            from <= i <= to <= s@.len(),
        decreases to - i,
    {
        out.push(s[i]);
        i = i + 1;
    }
    out
}

/// Propose a reading of a compact token: find the two dots, base64url
/// decode the middle segment, and parse it as payload JSON.
pub fn parse_token(token: &str) -> Option<TokenClaims> {
    let b = token.as_bytes();
    let mut d1: usize = 0;
    while d1 < b.len() && b[d1] != 0x2e
        invariant
            d1 <= b@.len(),
        decreases b@.len() - d1,
    {
        d1 = d1 + 1;
    }
    if d1 >= b.len() {
        return None;
    }
    let mut d2 = d1 + 1;
    while d2 < b.len() && b[d2] != 0x2e
        invariant
            d1 < d2 <= b@.len(),
        decreases b@.len() - d2,
    {
        d2 = d2 + 1;
    }
    if d2 >= b.len() {
        return None;
    }
    let part = copy_range(b, d1 + 1, d2);
    let payload = match b64url_decode(part.as_slice()) {
        Some(p) => p,
        None => {
            return None;
        },
    };
    parse_payload(&payload)
}

} // verus!
