//! Token claims and their temporal validation.
//!
//! Timestamps are whole seconds since the Unix epoch (UTC), the resolution
//! the wire format uses. A reference instant equal to zero means "no
//! trustworthy reference time supplied": every check then passes unless the
//! caller demanded that the claim be present.

use vstd::prelude::*;
use crate::sdk::Model;

verus! {

/// Why a claim set failed temporal validation.
#[derive(Debug, Clone, Copy, PartialEq, Eq)]
pub enum ValidationError {
    Expired,
    IssuedAt,
    NotValidYet,
}

impl ValidationError {
    /// The user-facing description of this failure.
    pub fn message(&self) -> (r: &'static str)
        ensures
            *self is Expired ==> r@ == "token is expired"@,
            *self is IssuedAt ==> r@ == "token used before issued"@,
            *self is NotValidYet ==> r@ == "token is not valid yet"@,
    {
        match self {
            ValidationError::Expired => "token is expired",
            ValidationError::IssuedAt => "token used before issued",
            ValidationError::NotValidYet => "token is not valid yet",
        }
    }
}

/// The registered temporal and identity claims of a security token.
///
/// Every field is optional: absence means "claim not asserted", and whether
/// that is acceptable is decided per validation call by a `require` flag,
/// not by the structure itself.
#[derive(Debug, Clone)]
pub struct RegisteredClaims {
    pub issuer: Option<String>,
    pub subject: Option<String>,
    pub audience: Vec<String>,
    /// Instant after which the token must be rejected (seconds since epoch).
    pub expires_at: Option<i64>,
    /// Instant before which the token must be rejected (seconds since epoch).
    pub not_before: Option<i64>,
    /// Instant at which the token was issued (seconds since epoch).
    pub issued_at: Option<i64>,
    pub id: Option<String>,
}

impl RegisteredClaims {
    /// Whether the expiry claim passes against the reference instant `cmp`:
    /// expiry is an exclusive upper bound on `cmp`.
    pub open spec fn expires_at_ok(self, cmp: i64, require: bool) -> bool {
        if cmp == 0 {
            !require
        } else {
            match self.expires_at {
                Some(exp) => cmp < exp,
                None => !require,
            }
        }
    }

    /// Whether the issued-at claim passes against `cmp`: the token must not
    /// be used before it was issued (`cmp == issued_at` is valid).
    pub open spec fn issued_at_ok(self, cmp: i64, require: bool) -> bool {
        if cmp == 0 {
            !require
        } else {
            match self.issued_at {
                Some(iat) => cmp >= iat,
                None => !require,
            }
        }
    }

    /// Whether the not-before claim passes against `cmp`
    /// (`cmp == not_before` is valid).
    pub open spec fn not_before_ok(self, cmp: i64, require: bool) -> bool {
        if cmp == 0 {
            !require
        } else {
            match self.not_before {
                Some(nbf) => cmp >= nbf,
                None => !require,
            }
        }
    }

    /// The outcome of full validation at reference instant `now`, with no
    /// claim required: expiry is checked first, then issued-at, then
    /// not-before, failing fast on the first violation.
    pub open spec fn spec_valid(self, now: i64) -> Result<(), ValidationError> {
        if !self.expires_at_ok(now, false) {
            Err(ValidationError::Expired)
        } else if !self.issued_at_ok(now, false) {
            Err(ValidationError::IssuedAt)
        } else if !self.not_before_ok(now, false) {
            Err(ValidationError::NotValidYet)
        } else {
            Ok(())
        }
    }

    pub fn verify_expires_at(&self, cmp: i64, require: bool) -> (r: bool)
        ensures
            r == self.expires_at_ok(cmp, require),
    {
        if cmp == 0 {
            return !require;
        }
        if let Some(exp) = self.expires_at {
            return cmp < exp;
        }
        !require
    }

    pub fn verify_issued_at(&self, cmp: i64, require: bool) -> (r: bool)
        ensures
            r == self.issued_at_ok(cmp, require),
    {
        if cmp == 0 {
            return !require;
        }
        if let Some(iat) = self.issued_at {
            return cmp >= iat;
        }
        !require
    }

    pub fn verify_not_before(&self, cmp: i64, require: bool) -> (r: bool)
        ensures
            r == self.not_before_ok(cmp, require),
    {
        if cmp == 0 {
            return !require;
        }
        if let Some(nbf) = self.not_before {
            return cmp >= nbf;
        }
        !require
    }

    /// Full validation against an explicit reference instant.
    pub fn valid_at(&self, now: i64) -> (r: Result<(), ValidationError>)
        ensures
            r == self.spec_valid(now),
    {
        if !self.verify_expires_at(now, false) {
            return Err(ValidationError::Expired);
        }
        if !self.verify_issued_at(now, false) {
            return Err(ValidationError::IssuedAt);
        }
        if !self.verify_not_before(now, false) {
            return Err(ValidationError::NotValidYet);
        }
        Ok(())
    }

    /// Full validation against the current wall-clock instant, with no
    /// claim required. The clock is outside this function's control, so the
    /// contract states what holds of the outcome for whatever instant the
    /// clock returned.
    pub fn valid(&self) -> (r: Result<(), ValidationError>)
        ensures
            exists|now: i64| r == self.spec_valid(now),
            self.expires_at is None && self.issued_at is None && self.not_before is None
                ==> r is Ok,
            (r matches Err(ValidationError::Expired)) ==> self.expires_at is Some,
            (r matches Err(ValidationError::IssuedAt)) ==> self.issued_at is Some,
            (r matches Err(ValidationError::NotValidYet)) ==> self.not_before is Some,
    {
        let now = now_timestamp();
        self.valid_at(now)
    }
}

/// Relies on `std::time::SystemTime::now` and
/// `SystemTime::duration_since(UNIX_EPOCH)`: `Ok` carries the whole seconds
/// the clock stands after the Unix epoch, `Err` the whole seconds it stands
/// before it. Neither call panics, so the read is total; nothing more can be
/// promised of a clock.
#[verifier::external_body]
fn clock_unix_seconds() -> Result<u64, u64> {
    match std::time::SystemTime::now().duration_since(std::time::UNIX_EPOCH) {
        Ok(d) => Ok(d.as_secs()),
        Err(e) => Err(e.duration().as_secs()),
    }
}

/// The current wall-clock instant as whole seconds since the Unix epoch,
/// negative for a clock that stands before it, clamped to the representable
/// range. Total whatever the clock says.
fn now_timestamp() -> i64 {
    match clock_unix_seconds() {
        Ok(s) => {
            if s <= i64::MAX as u64 {
                s as i64
            } else {
                i64::MAX
            }
        },
        Err(s) => {
            if s <= i64::MAX as u64 {
                -(s as i64)
            } else {
                i64::MIN
            }
        },
    }
}

impl Default for RegisteredClaims {
    fn default() -> (r: Self)
        ensures
            r.issuer is None,
            r.subject is None,
            r.audience@ == Seq::<String>::empty(),
            r.expires_at is None,
            r.not_before is None,
            r.issued_at is None,
            r.id is None,
    {
        RegisteredClaims {
            issuer: None,
            subject: None,
            audience: Vec::new(),
            expires_at: None,
            not_before: None,
            issued_at: None,
            id: None,
        }
    }
}

/// The postal address claims of an OpenID Connect profile.
#[derive(Debug, Clone)]
pub struct OIDCAddress {
    pub formatted: String,
    pub street_address: String,
    pub locality: String,
    pub region: String,
    pub postal_code: String,
    pub country: String,
}

impl Default for OIDCAddress {
    fn default() -> (r: Self)
        ensures
            r.formatted@ == Seq::<char>::empty(),
            r.street_address@ == Seq::<char>::empty(),
            r.locality@ == Seq::<char>::empty(),
            r.region@ == Seq::<char>::empty(),
            r.postal_code@ == Seq::<char>::empty(),
            r.country@ == Seq::<char>::empty(),
    {
        OIDCAddress {
            formatted: String::new(),
            street_address: String::new(),
            locality: String::new(),
            region: String::new(),
            postal_code: String::new(),
            country: String::new(),
        }
    }
}

/// An authenticated session of the remote service.
#[derive(Debug, Clone, PartialEq, Eq)]
pub struct Session {
    owner: String,
    name: String,
    application: String,
    created_time: String,
    session_id: Vec<String>,
}

impl Session {
    /// The application field in spec form; owner and name are exposed
    /// through the `Model` impl's spec functions.
    pub closed spec fn spec_application(self) -> Seq<char> {
        self.application@
    }

    /// The creation-time field in spec form.
    pub closed spec fn spec_created_time(self) -> Seq<char> {
        self.created_time@
    }

    /// The session-id field in spec form.
    pub closed spec fn spec_session_id(self) -> Seq<String> {
        self.session_id@
    }

    pub fn new(
        owner: String,
        name: String,
        application: String,
        created_time: String,
        session_id: Vec<String>,
    ) -> (r: Session)
        ensures
            r.spec_owner() == owner@,
            r.spec_name() == name@,
            r.spec_application() == application@,
            r.spec_created_time() == created_time@,
            r.spec_session_id() == session_id@,
    {
        Session { owner, name, application, created_time, session_id }
    }

    pub fn application(&self) -> (r: &str)
        ensures
            r@ == self.spec_application(),
    {
        &self.application
    }

    pub fn created_time(&self) -> (r: &str)
        ensures
            r@ == self.spec_created_time(),
    {
        &self.created_time
    }

    pub fn session_id(&self) -> (r: &Vec<String>)
        ensures
            r@ == self.spec_session_id(),
    {
        &self.session_id
    }

    /// The session's primary key: owner, name and application, joined
    /// with `/`.
    pub fn get_pk_id(&self) -> (r: String)
        ensures
            r@ == self.spec_owner() + "/"@ + self.spec_name() + "/"@
                + self.spec_application(),
    {
        let mut r = self.owner.clone();
        r.append("/");
        r.append(self.name.as_str());
        r.append("/");
        r.append(self.application.as_str());
        proof {
            assert(r@ =~= self.spec_owner() + "/"@ + self.spec_name() + "/"@
                + self.spec_application());
        }
        r
    }
}

impl Default for Session {
    fn default() -> (r: Self)
        ensures
            r.spec_owner() == Seq::<char>::empty(),
            r.spec_name() == Seq::<char>::empty(),
            r.spec_application() == Seq::<char>::empty(),
            r.spec_created_time() == Seq::<char>::empty(),
            r.spec_session_id() == Seq::<String>::empty(),
    {
        Session {
            owner: String::new(),
            name: String::new(),
            application: String::new(),
            created_time: String::new(),
            session_id: Vec::new(),
        }
    }
}

impl Model for Session {
    open spec fn spec_ident() -> Seq<char> {
        "session"@
    }

    open spec fn spec_plural_ident() -> Seq<char> {
        "sessions"@
    }

    open spec fn spec_support_update_columns() -> bool {
        true
    }

    closed spec fn spec_owner(&self) -> Seq<char> {
        self.owner@
    }

    closed spec fn spec_name(&self) -> Seq<char> {
        self.name@
    }

    fn ident() -> (r: &'static str) {
        "session"
    }

    fn plural_ident() -> (r: &'static str) {
        "sessions"
    }

    fn support_update_columns() -> (r: bool) {
        true
    }

    fn owner(&self) -> (r: &str) {
        &self.owner
    }

    fn name(&self) -> (r: &str) {
        &self.name
    }
}

/// The extra field the remote service's token responses carry beyond the
/// standard ones.
#[derive(Debug, Clone)]
pub struct CasdoorExtraTokenFields {
    /// This field only use in OpenID Connect
    pub id_token: String,
}

/// With a present expiry and a nonzero reference instant, the expiry claim
/// passes exactly when the reference instant is strictly before the expiry:
/// a token is already invalid at the exact expiry instant, whatever the
/// `require` flag says.
pub proof fn lemma_expiry_exclusive_bound(
    claims: RegisteredClaims,
    cmp: i64,
    require: bool,
    exp: i64,
)
    requires
        claims.expires_at == Some(exp),
        cmp != 0,
    ensures
        claims.expires_at_ok(cmp, require) == (cmp < exp),
{
}

/// With a present issued-at claim and a nonzero reference instant, the claim
/// passes exactly when the reference instant is at or after issuance.
pub proof fn lemma_issued_at_inclusive_bound(
    claims: RegisteredClaims,
    cmp: i64,
    require: bool,
    iat: i64,
)
    requires
        claims.issued_at == Some(iat),
        cmp != 0,
    ensures
        claims.issued_at_ok(cmp, require) == (cmp >= iat),
{
}

/// With a present not-before claim and a nonzero reference instant, the claim
/// passes exactly when the reference instant is at or after the threshold.
pub proof fn lemma_not_before_inclusive_bound(
    claims: RegisteredClaims,
    cmp: i64,
    require: bool,
    nbf: i64,
)
    requires
        claims.not_before == Some(nbf),
        cmp != 0,
    ensures
        claims.not_before_ok(cmp, require) == (cmp >= nbf),
{
}

/// At the zero reference instant every check degenerates to `!require`,
/// whatever the claim values are.
pub proof fn lemma_zero_instant_short_circuit(claims: RegisteredClaims, require: bool)
    ensures
        claims.expires_at_ok(0, require) == !require,
        claims.issued_at_ok(0, require) == !require,
        claims.not_before_ok(0, require) == !require,
{
}

/// With a nonzero reference instant, an absent claim makes its check return
/// `!require`: absence is acceptable exactly when the claim was optional.
pub proof fn lemma_absent_claim_defers_to_require(
    claims: RegisteredClaims,
    cmp: i64,
    require: bool,
)
    requires
        cmp != 0,
    ensures
        claims.expires_at is None ==> claims.expires_at_ok(cmp, require) == !require,
        claims.issued_at is None ==> claims.issued_at_ok(cmp, require) == !require,
        claims.not_before is None ==> claims.not_before_ok(cmp, require) == !require,
{
}

} // verus!
