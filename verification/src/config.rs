use vstd::prelude::*;
use vstd::string::StringExecFns;

use crate::directory::ServiceEntry;
use crate::directory::parse_directory;
use crate::directory::spec_directory;

verus! {

/// Default shared secret a caller must present to mint a credential.
pub open spec fn spec_default_shared_secret() -> Seq<char> {
    "shared_secret"@
}

/// Default name of the session cookie.
pub open spec fn spec_default_token_name() -> Seq<char> {
    "test_auth_token"@
}

/// Default value of the session cookie.
pub open spec fn spec_default_token_value() -> Seq<char> {
    "abcdefgh1234"@
}

/// Default cookie domain.
pub open spec fn spec_default_domain() -> Seq<char> {
    "127.0.0.1"@
}

/// Default registry endpoint the instance announces itself to at startup.
pub open spec fn spec_default_registry_endpoint() -> Seq<char> {
    "http://127.0.0.1:8080/register"@
}

/// Default listen host.
pub open spec fn spec_default_http_host() -> Seq<char> {
    "127.0.0.1"@
}

/// Default listen port.
pub open spec fn spec_default_http_port() -> Seq<char> {
    "8081"@
}

/// The compiled-in sample directory used when no `SERVICES` text is set.
pub open spec fn spec_default_directory() -> Seq<(Seq<char>, Seq<char>)> {
    seq![("Service1"@, "http://127.0.0.1:8081"@), ("Service2"@, "http://127.0.0.1:8082"@)]
}

/// A setting's effective text: the given value where one was set, the
/// documented default otherwise.
pub open spec fn spec_setting_or(given: Option<String>, fallback: Seq<char>) -> Seq<char> {
    match given {
        Option::Some(s) => s@,
        Option::None => fallback,
    }
}

fn setting_or(given: Option<String>, fallback: &str) -> (r: String)
    ensures
        r@ == spec_setting_or(given, fallback@),
{
    match given {
        Option::Some(s) => s,
        Option::None => String::from_str(fallback),
    }
}

fn default_directory() -> (r: Vec<ServiceEntry>)
    ensures
        r.deep_view() == spec_default_directory(),
{
    let mut out: Vec<ServiceEntry> = Vec::new();
    out.push(
        ServiceEntry {
            name: String::from_str("Service1"),
            url: String::from_str("http://127.0.0.1:8081"),
        },
    );
    out.push(
        ServiceEntry {
            name: String::from_str("Service2"),
            url: String::from_str("http://127.0.0.1:8082"),
        },
    );
    proof {
        assert(out.deep_view() =~= spec_default_directory());
    }
    out
}

/// The read-only configuration snapshot, resolved once at startup and passed
/// to every component. The service directory it holds is the one snapshot
/// both rendered to authorized users and announced to the registry.
pub struct Config {
    pub shared_secret: String,
    pub token_name: String,
    pub token_value: String,
    pub domain: String,
    pub services: Vec<ServiceEntry>,
    pub registry_endpoint: String,
    pub http_host: String,
    pub http_port: String,
    pub registration_fatal: bool,
}

impl Config {
    /// Builds the configuration snapshot: each setting is the given text or
    /// its documented default; the service directory is parsed from the given
    /// `SERVICES` text, or is the compiled-in sample pair when unset; a
    /// failed startup registration is fatal unless the policy flag says
    /// otherwise.
    pub fn resolve(
        shared_secret: Option<String>,
        token_name: Option<String>,
        token_value: Option<String>,
        domain: Option<String>,
        services: Option<String>,
        registry_endpoint: Option<String>,
        http_host: Option<String>,
        http_port: Option<String>,
        registration_fatal: Option<bool>,
    ) -> (r: Config)
        ensures
            r.shared_secret@ == spec_setting_or(shared_secret, spec_default_shared_secret()),
            r.token_name@ == spec_setting_or(token_name, spec_default_token_name()),
            r.token_value@ == spec_setting_or(token_value, spec_default_token_value()),
            r.domain@ == spec_setting_or(domain, spec_default_domain()),
            r.services.deep_view() == match services {
                Option::Some(s) => spec_directory(s@),
                Option::None => spec_default_directory(),
            },
            r.registry_endpoint@ == spec_setting_or(
                registry_endpoint,
                spec_default_registry_endpoint(),
            ),
            r.http_host@ == spec_setting_or(http_host, spec_default_http_host()),
            r.http_port@ == spec_setting_or(http_port, spec_default_http_port()),
            r.registration_fatal == match registration_fatal {
                Option::Some(b) => b,
                Option::None => true,
            },
    {
        let resolved_services: Vec<ServiceEntry> = match &services {
            Option::Some(s) => parse_directory(s.as_str()),
            Option::None => default_directory(),
        };
        Config {
            shared_secret: setting_or(shared_secret, "shared_secret"),
            token_name: setting_or(token_name, "test_auth_token"),
            token_value: setting_or(token_value, "abcdefgh1234"),
            domain: setting_or(domain, "127.0.0.1"),
            services: resolved_services,
            registry_endpoint: setting_or(registry_endpoint, "http://127.0.0.1:8080/register"),
            http_host: setting_or(http_host, "127.0.0.1"),
            http_port: setting_or(http_port, "8081"),
            registration_fatal: match registration_fatal {
                Option::Some(b) => b,
                Option::None => true,
            },
        }
    }
}

} // verus!
