use vstd::prelude::*;
use vstd::string::StringExecFns;

use crate::config::Config;
use crate::render::render_page;
use crate::render::spec_render_page;
use crate::session::session_authorized;
use crate::session::spec_session_authorized;

verus! {

/// What the index route returns: the rendered service page for an
/// authorized session, a refusal for everything else.
pub enum IndexOutcome {
    Page { body: String },
    Unauthorized,
}

impl IndexOutcome {
    /// HTTP status of the outcome: 200 for the page, 401 for a refusal.
    pub fn status_code(&self) -> (r: u16)
        ensures
            r == match self {
                IndexOutcome::Page { .. } => 200u16,
                IndexOutcome::Unauthorized => 401u16,
            },
    {
        match self {
            IndexOutcome::Page { .. } => 200,
            IndexOutcome::Unauthorized => 401,
        }
    }
}

/// The uniform plain-text body of every authorization refusal.
pub fn unauthorized_body() -> (r: String)
    ensures
        r@ == "Unauthorized"@,
{
    String::from_str("Unauthorized")
}

/// The index route: a request whose cookie value validates gets the landing
/// page rendered from the configured service directory; any other request
/// is unauthorized.
pub fn handle_index(cookie: Option<&String>, config: &Config) -> (r: IndexOutcome)
    ensures
        spec_session_authorized(cookie.deep_view(), config.token_value@) ==> (r matches
        IndexOutcome::Page { body } && body@ == spec_render_page(config.services.deep_view())),
        !spec_session_authorized(cookie.deep_view(), config.token_value@) ==> r matches
            IndexOutcome::Unauthorized,
{
    if session_authorized(cookie, &config.token_value) {
        IndexOutcome::Page { body: render_page(&config.services) }
    } else {
        IndexOutcome::Unauthorized
    }
}

} // verus!
