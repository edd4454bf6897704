use vstd::prelude::*;

verus! {

/// Signature algorithm of a token.  All are HMAC-based: the same
/// secret signs and verifies.
#[derive(Clone, Copy, Debug, PartialEq, Eq, Structural)]
pub enum Algorithm {
    HS256,
    HS384,
    HS512,
}

/// How the key material is presented.  HMAC secrets are used as their
/// raw bytes regardless of the declared format.
#[derive(Clone, Copy, Debug, PartialEq, Eq, Structural)]
pub enum KeyFormat {
    Pem,
}

/// The key material itself.
#[derive(Debug, PartialEq)]
pub enum KeyData {
    Str(String),
}

impl View for KeyData {
    type V = Seq<char>;

    open spec fn view(&self) -> Seq<char> {
        match self {
            KeyData::Str(s) => s@,
        }
    }
}

impl Clone for KeyData {
    fn clone(&self) -> (res: Self)
        ensures
            res@ == self@,
    {
        match self {
            KeyData::Str(s) => KeyData::Str(s.clone()),
        }
    }
}

/// One concrete key: an algorithm, a format tag, and the material.
#[derive(Debug, PartialEq)]
pub struct Key {
    pub algorithm: Algorithm,
    pub format: KeyFormat,
    pub key: KeyData,
}

/// Spec-level shape of a `Key`.
pub struct KeyV {
    pub algorithm: Algorithm,
    pub format: KeyFormat,
    pub key: Seq<char>,
}

impl View for Key {
    type V = KeyV;

    open spec fn view(&self) -> KeyV {
        KeyV { algorithm: self.algorithm, format: self.format, key: self.key@ }
    }
}

impl Clone for Key {
    fn clone(&self) -> (res: Self)
        ensures
            res@ == self@,
    {
        Key { algorithm: self.algorithm, format: self.format, key: self.key.clone() }
    }
}

/// Tagged key material: exactly one variant is populated per `Config`.
/// An `Encoding` key signs (client role); a `Decoding` key verifies
/// against a fixed key (server role); `Autoresolve(true)` tells the
/// server to discover the verification key per incoming token.
#[derive(Debug, PartialEq)]
pub enum JwtKey {
    Encoding(Key),
    Decoding(Key),
    Autoresolve(bool),
}

/// Spec-level shape of a `JwtKey`.
pub enum JwtKeyV {
    Encoding(KeyV),
    Decoding(KeyV),
    Autoresolve(bool),
}

impl View for JwtKey {
    type V = JwtKeyV;

    open spec fn view(&self) -> JwtKeyV {
        match self {
            JwtKey::Encoding(k) => JwtKeyV::Encoding(k@),
            JwtKey::Decoding(k) => JwtKeyV::Decoding(k@),
            JwtKey::Autoresolve(b) => JwtKeyV::Autoresolve(*b),
        }
    }
}

impl Clone for JwtKey {
    fn clone(&self) -> (res: Self)
        ensures
            res@ == self@,
    {
        match self {
            JwtKey::Encoding(k) => JwtKey::Encoding(k.clone()),
            JwtKey::Decoding(k) => JwtKey::Decoding(k.clone()),
            JwtKey::Autoresolve(b) => JwtKey::Autoresolve(*b),
        }
    }
}

} // verus!
