use vstd::prelude::*;

verus! {

/// A structured value carried in a custom claim.  The subsystem gives
/// these no interpretation: they are stored, serialized and compared
/// for equality only.
#[derive(Debug, PartialEq)]
pub enum ClaimValue {
    Null,
    Bool(bool),
    Int(i64),
    Str(String),
}

/// Spec-level shape of a `ClaimValue`.
pub enum ClaimValueV {
    Null,
    Bool(bool),
    Int(int),
    Str(Seq<char>),
}

impl View for ClaimValue {
    type V = ClaimValueV;

    open spec fn view(&self) -> ClaimValueV {
        match self {
            ClaimValue::Null => ClaimValueV::Null,
            ClaimValue::Bool(b) => ClaimValueV::Bool(*b),
            ClaimValue::Int(i) => ClaimValueV::Int(*i as int),
            ClaimValue::Str(s) => ClaimValueV::Str(s@),
        }
    }
}

impl Clone for ClaimValue {
    fn clone(&self) -> (res: Self)
        ensures
            res@ == self@,
    {
        match self {
            ClaimValue::Null => ClaimValue::Null,
            ClaimValue::Bool(b) => ClaimValue::Bool(*b),
            ClaimValue::Int(i) => ClaimValue::Int(*i),
            ClaimValue::Str(s) => ClaimValue::Str(s.clone()),
        }
    }
}

/// Equality of claim values, decided at the spec level by equality of
/// their views.
pub fn claim_value_eq(a: &ClaimValue, b: &ClaimValue) -> (r: bool)
    ensures
        r == (a@ == b@),
{
    match (a, b) {
        (ClaimValue::Null, ClaimValue::Null) => true,
        (ClaimValue::Bool(x), ClaimValue::Bool(y)) => *x == *y,
        (ClaimValue::Int(x), ClaimValue::Int(y)) => *x == *y,
        (ClaimValue::Str(x), ClaimValue::Str(y)) => *x == *y,
        _ => false,
    }
}

/// View of a list of named custom claims.
pub open spec fn entries_view(s: Seq<(String, ClaimValue)>) -> Seq<(Seq<char>, ClaimValueV)> {
    s.map_values(|p: (String, ClaimValue)| (p.0@, p.1@))
}

pub open spec fn opt_string_view(o: Option<String>) -> Option<Seq<char>> {
    match o {
        None => None,
        Some(s) => Some(s@),
    }
}

/// View of a list of strings.
pub open spec fn strings_view(s: Seq<String>) -> Seq<Seq<char>> {
    s.map_values(|x: String| x@)
}

pub open spec fn opt_strings_view(o: Option<Vec<String>>) -> Option<Seq<Seq<char>>> {
    match o {
        None => None,
        Some(v) => Some(strings_view(v@)),
    }
}

pub open spec fn opt_entries_view(o: Option<Vec<(String, ClaimValue)>>) -> Option<
    Seq<(Seq<char>, ClaimValueV)>,
> {
    match o {
        None => None,
        Some(v) => Some(entries_view(v@)),
    }
}

/// Identity assertion template: every field is independently optional.
/// An empty `Claims` is valid and yields a token asserting nothing
/// beyond a bare expiry.
#[derive(Debug, PartialEq)]
pub struct Claims {
    audience: Option<Vec<String>>,
    issuer: Option<String>,
    subject: Option<String>,
    custom_claims: Option<Vec<(String, ClaimValue)>>,
}

/// Spec-level shape of `Claims`.
pub struct ClaimsV {
    pub audience: Option<Seq<Seq<char>>>,
    pub issuer: Option<Seq<char>>,
    pub subject: Option<Seq<char>>,
    pub custom_claims: Option<Seq<(Seq<char>, ClaimValueV)>>,
}

impl View for Claims {
    type V = ClaimsV;

    closed spec fn view(&self) -> ClaimsV {
        ClaimsV {
            audience: opt_strings_view(self.audience),
            issuer: opt_string_view(self.issuer),
            subject: opt_string_view(self.subject),
            custom_claims: opt_entries_view(self.custom_claims),
        }
    }
}

impl Claims {
    /// Create a new Claims
    pub fn new(
        audience: Option<Vec<String>>,
        issuer: Option<String>,
        subject: Option<String>,
        custom_claims: Option<Vec<(String, ClaimValue)>>,
    ) -> (r: Self)
        ensures
            r@ == (ClaimsV {
                audience: opt_strings_view(audience),
                issuer: opt_string_view(issuer),
                subject: opt_string_view(subject),
                custom_claims: opt_entries_view(custom_claims),
            }),
    {
        Claims { audience, issuer, subject, custom_claims }
    }

    /// Functional update: a copy of `self` whose audience is set.
    pub fn with_audience(self, audience: Vec<String>) -> (r: Self)
        ensures
            r@ == (ClaimsV { audience: Some(strings_view(audience@)), ..self@ }),
    {
        Claims { audience: Some(audience), ..self }
    }

    /// Functional update: a copy of `self` whose issuer is set.
    pub fn with_issuer(self, issuer: String) -> (r: Self)
        ensures
            r@ == (ClaimsV { issuer: Some(issuer@), ..self@ }),
    {
        Claims { issuer: Some(issuer), ..self }
    }

    /// Functional update: a copy of `self` whose subject is set.
    pub fn with_subject(self, subject: String) -> (r: Self)
        ensures
            r@ == (ClaimsV { subject: Some(subject@), ..self@ }),
    {
        Claims { subject: Some(subject), ..self }
    }

    /// Functional update: a copy of `self` whose custom claims are set.
    pub fn with_custom_claims(self, custom_claims: Vec<(String, ClaimValue)>) -> (r: Self)
        ensures
            r@ == (ClaimsV { custom_claims: Some(entries_view(custom_claims@)), ..self@ }),
    {
        Claims { custom_claims: Some(custom_claims), ..self }
    }

    /// Get the audience
    pub fn audience(&self) -> (r: &Option<Vec<String>>)
        ensures
            opt_strings_view(*r) == self@.audience,
    {
        &self.audience
    }

    /// Get the issuer
    pub fn issuer(&self) -> (r: &Option<String>)
        ensures
            opt_string_view(*r) == self@.issuer,
    {
        &self.issuer
    }

    /// Get the subject
    pub fn subject(&self) -> (r: &Option<String>)
        ensures
            opt_string_view(*r) == self@.subject,
    {
        &self.subject
    }

    /// Get the custom claims
    pub fn custom_claims(&self) -> (r: &Option<Vec<(String, ClaimValue)>>)
        ensures
            opt_entries_view(*r) == self@.custom_claims,
    {
        &self.custom_claims
    }
}

impl Default for Claims {
    /// The empty assertion: no field set.
    fn default() -> (r: Self)
        ensures
            r@ == (ClaimsV { audience: None, issuer: None, subject: None, custom_claims: None }),
    {
        Claims { audience: None, issuer: None, subject: None, custom_claims: None }
    }
}

/// Clone a string vector, preserving its view.
pub fn clone_strings(v: &Vec<String>) -> (r: Vec<String>)
    ensures
        strings_view(r@) == strings_view(v@),
{
    let mut out: Vec<String> = Vec::new();
    let mut i: usize = 0;
    while i < v.len()
        invariant
            i <= v.len(),
            out@.len() == i as int,
            forall|j: int| 0 <= j < i as int ==> (#[trigger] out@[j])@ == v@[j]@,
        decreases v.len() - i,
    {
        out.push(v[i].clone());
        i = i + 1;
    }
    proof {
        assert(strings_view(out@) =~= strings_view(v@));
    }
    out
}

/// Clone a custom-claim list, preserving its view.
pub fn clone_entries(v: &Vec<(String, ClaimValue)>) -> (r: Vec<(String, ClaimValue)>)
    ensures
        entries_view(r@) == entries_view(v@),
{
    let mut out: Vec<(String, ClaimValue)> = Vec::new();
    let mut i: usize = 0;
    while i < v.len()
        invariant
            i <= v.len(),
            out@.len() == i as int,
            forall|j: int|
                0 <= j < i as int ==> (#[trigger] out@[j]).0@ == v@[j].0@ && out@[j].1@ == v@[j].1@,
        decreases v.len() - i,
    {
        let (k, val) = (&v[i].0, &v[i].1);
        out.push((k.clone(), val.clone()));
        i = i + 1;
    }
    proof {
        assert(entries_view(out@) =~= entries_view(v@));
    }
    out
}

/// Clone an optional string, preserving its view.
pub fn clone_opt_string(o: &Option<String>) -> (r: Option<String>)
    ensures
        opt_string_view(r) == opt_string_view(*o),
{
    match o {
        None => None,
        Some(s) => Some(s.clone()),
    }
}

/// Clone an optional string vector, preserving its view.
pub fn clone_opt_strings(o: &Option<Vec<String>>) -> (r: Option<Vec<String>>)
    ensures
        opt_strings_view(r) == opt_strings_view(*o),
{
    match o {
        None => None,
        Some(v) => Some(clone_strings(v)),
    }
}

impl Clone for Claims {
    fn clone(&self) -> (res: Self)
        ensures
            res@ == self@,
    {
        let audience = match &self.audience {
            None => None,
            Some(v) => Some(clone_strings(v)),
        };
        let issuer = match &self.issuer {
            None => None,
            Some(s) => Some(s.clone()),
        };
        let subject = match &self.subject {
            None => None,
            Some(s) => Some(s.clone()),
        };
        let custom_claims = match &self.custom_claims {
            None => None,
            Some(v) => Some(clone_entries(v)),
        };
        Claims { audience, issuer, subject, custom_claims }
    }
}

} // verus!
