use vstd::prelude::*;
use vstd::string::StringExecFns;

use crate::config::Config;

verus! {

/// The input to credential issuance: the caller's proof of possession and
/// the target it asks to be redirected to.
pub struct AuthRequest {
    pub shared_secret: String,
    pub service_url: String,
}

/// The session credential: the one fixed cookie shape of a deployment. Its
/// remaining attributes are fixed — path `/`, max-age 24 hours, `Secure`,
/// `HttpOnly` — and appear in the rendered `Set-Cookie` header.
pub struct SessionCredential {
    pub cookie_name: String,
    pub cookie_value: String,
    pub domain: String,
}

/// The `Set-Cookie` header a credential renders to, attribute for attribute.
pub open spec fn spec_set_cookie_header(name: Seq<char>, value: Seq<char>, domain: Seq<char>) -> Seq<
    char,
> {
    name + "="@ + value + "; Domain="@ + domain + "; Path=/; Max-Age=86400; Secure; HttpOnly"@
}

impl SessionCredential {
    /// Renders the credential as the value of a `Set-Cookie` header, with
    /// the fixed path, max-age, `Secure` and `HttpOnly` attributes.
    pub fn set_cookie_header(&self) -> (r: String)
        ensures
            r@ == spec_set_cookie_header(self.cookie_name@, self.cookie_value@, self.domain@),
    {
        let mut r = self.cookie_name.clone();
        r.append("=");
        r.append(self.cookie_value.as_str());
        r.append("; Domain=");
        r.append(self.domain.as_str());
        r.append("; Path=/; Max-Age=86400; Secure; HttpOnly");
        r
    }

    /// The credential's lifetime in seconds: 24 hours.
    pub fn max_age_seconds(&self) -> (r: u32)
        ensures
            r == 86400,
    {
        86400
    }
}

/// What credential issuance decides and returns: a redirect carrying the
/// fresh credential, or a refusal carrying nothing.
pub enum AuthOutcome {
    Granted { location: String, credential: SessionCredential },
    Denied,
}

/// Whether a provided secret proves possession: exact equality with the
/// configured one.
pub open spec fn spec_secret_grants(provided: Seq<char>, expected: Seq<char>) -> bool {
    provided == expected
}

/// The `Location` header an outcome carries: the redirect target on a grant,
/// nothing on a refusal.
pub open spec fn spec_outcome_location(r: AuthOutcome) -> Option<Seq<char>> {
    match r {
        AuthOutcome::Granted { location, credential } => Option::Some(location@),
        AuthOutcome::Denied => Option::None,
    }
}

/// The `Set-Cookie` header an outcome carries: the rendered credential on a
/// grant, nothing on a refusal.
pub open spec fn spec_outcome_cookie_header(r: AuthOutcome) -> Option<Seq<char>> {
    match r {
        AuthOutcome::Granted { location, credential } => Option::Some(
            spec_set_cookie_header(
                credential.cookie_name@,
                credential.cookie_value@,
                credential.domain@,
            ),
        ),
        AuthOutcome::Denied => Option::None,
    }
}

/// Everything issuance promises of its outcome, as a relation between the
/// outcome and the request's and configuration's fields.
pub open spec fn spec_issue_ok(
    r: AuthOutcome,
    provided: Seq<char>,
    service_url: Seq<char>,
    expected: Seq<char>,
    token_name: Seq<char>,
    token_value: Seq<char>,
    domain: Seq<char>,
) -> bool {
    if spec_secret_grants(provided, expected) {
        &&& r matches AuthOutcome::Granted { location, credential }
        &&& location@ == service_url
        &&& credential.cookie_name@ == token_name
        &&& credential.cookie_value@ == token_value
        &&& credential.domain@ == domain
    } else {
        r matches AuthOutcome::Denied
    }
}

impl AuthOutcome {
    /// HTTP status of the outcome: 302 (Found) on a grant, 401 on a refusal.
    pub fn status_code(&self) -> (r: u16)
        ensures
            r == match self {
                AuthOutcome::Granted { .. } => 302u16,
                AuthOutcome::Denied => 401u16,
            },
    {
        match self {
            AuthOutcome::Granted { .. } => 302,
            AuthOutcome::Denied => 401,
        }
    }
}

/// The credential issuer: grants exactly when the provided shared secret
/// equals the configured one. A grant redirects to the requested
/// `service_url` verbatim and carries a credential built from the configured
/// token name, token value and domain; a refusal carries no cookie.
pub fn issue_credential(request: &AuthRequest, config: &Config) -> (r: AuthOutcome)
    ensures
        spec_issue_ok(
            r,
            request.shared_secret@,
            request.service_url@,
            config.shared_secret@,
            config.token_name@,
            config.token_value@,
            config.domain@,
        ),
        !spec_secret_grants(request.shared_secret@, config.shared_secret@)
            ==> spec_outcome_cookie_header(r) matches Option::None,
{
    if request.shared_secret.eq(&config.shared_secret) {
        AuthOutcome::Granted {
            location: request.service_url.clone(),
            credential: SessionCredential {
                cookie_name: config.token_name.clone(),
                cookie_value: config.token_value.clone(),
                domain: config.domain.clone(),
            },
        }
    } else {
        AuthOutcome::Denied
    }
}

/// Issuance is idempotent: two outcomes issued from the same request and the
/// same configuration agree — both grant or both deny, and they carry
/// byte-identical `Location` and `Set-Cookie` headers.
pub proof fn lemma_issue_idempotent(
    r1: AuthOutcome,
    r2: AuthOutcome,
    provided: Seq<char>,
    service_url: Seq<char>,
    expected: Seq<char>,
    token_name: Seq<char>,
    token_value: Seq<char>,
    domain: Seq<char>,
)
    requires
        spec_issue_ok(r1, provided, service_url, expected, token_name, token_value, domain),
        spec_issue_ok(r2, provided, service_url, expected, token_name, token_value, domain),
    ensures
        r1 matches AuthOutcome::Granted { .. } <==> r2 matches AuthOutcome::Granted { .. },
        spec_outcome_location(r1) == spec_outcome_location(r2),
        spec_outcome_cookie_header(r1) == spec_outcome_cookie_header(r2),
{
}

} // verus!
