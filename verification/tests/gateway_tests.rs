use schloss::config::Config;
use schloss::directory::{directory_of_rows, parse_directory};
use schloss::gateway::{handle_index, unauthorized_body, IndexOutcome};
use schloss::issuer::{issue_credential, AuthOutcome, AuthRequest, SessionCredential};
use schloss::registration::build_registration_payload;
use schloss::render::{render_entry, render_list, render_page};
use schloss::session::session_authorized;

fn scenario_config() -> Config {
    Config::resolve(
        Some("s3cr3t".to_string()),
        Some("tok".to_string()),
        Some("v".to_string()),
        Some("example.com".to_string()),
        Some(r#"[["A","a.example.com"],["B","b.example.com"]]"#.to_string()),
        None,
        None,
        None,
        None,
    )
}

#[test]
fn defaults_fill_every_unset_setting() {
    let cfg = Config::resolve(None, None, None, None, None, None, None, None, None);
    assert_eq!(cfg.shared_secret, "shared_secret");
    assert_eq!(cfg.token_name, "test_auth_token");
    assert_eq!(cfg.token_value, "abcdefgh1234");
    assert_eq!(cfg.domain, "127.0.0.1");
    assert_eq!(cfg.registry_endpoint, "http://127.0.0.1:8080/register");
    assert_eq!(cfg.http_host, "127.0.0.1");
    assert_eq!(cfg.http_port, "8081");
    assert!(cfg.registration_fatal);
    assert_eq!(cfg.services.len(), 2);
    assert_eq!(cfg.services[0].name, "Service1");
    assert_eq!(cfg.services[0].url, "http://127.0.0.1:8081");
    assert_eq!(cfg.services[1].name, "Service2");
    assert_eq!(cfg.services[1].url, "http://127.0.0.1:8082");
}

#[test]
fn parse_directory_reads_json_pairs() {
    let dir = parse_directory(r#"[["A","a.example.com"],["B","b.example.com"]]"#);
    assert_eq!(dir.len(), 2);
    assert_eq!(dir[0].name, "A");
    assert_eq!(dir[0].url, "a.example.com");
    assert_eq!(dir[1].name, "B");
    assert_eq!(dir[1].url, "b.example.com");
}

#[test]
fn parse_directory_ignores_fields_past_the_pair() {
    let dir = parse_directory(r#"[["A","a.example.com","extra"]]"#);
    assert_eq!(dir.len(), 1);
    assert_eq!(dir[0].name, "A");
    assert_eq!(dir[0].url, "a.example.com");
}

#[test]
fn parse_directory_of_empty_array_is_empty() {
    assert!(parse_directory("[]").is_empty());
}

#[test]
fn malformed_services_text_degrades_to_empty_directory() {
    assert!(parse_directory("not json at all").is_empty());
    assert!(parse_directory("").is_empty());
    assert!(parse_directory(r#"{"A":"a"}"#).is_empty());
    assert!(parse_directory(r#"[["lonely"]]"#).is_empty());
}

#[test]
fn short_row_marks_whole_directory_malformed() {
    let rows = vec![
        vec!["A".to_string(), "a".to_string()],
        vec!["B".to_string()],
    ];
    assert!(directory_of_rows(&rows).is_empty());
}

#[test]
fn session_validates_only_the_exact_configured_value() {
    let expected = "v".to_string();
    assert!(session_authorized(Some(&"v".to_string()), &expected));
    assert!(!session_authorized(Some(&"V".to_string()), &expected));
    assert!(!session_authorized(Some(&"".to_string()), &expected));
    assert!(!session_authorized(None, &expected));
}

#[test]
fn index_without_cookie_is_unauthorized() {
    let cfg = scenario_config();
    let r = handle_index(None, &cfg);
    assert_eq!(r.status_code(), 401);
    assert!(matches!(r, IndexOutcome::Unauthorized));
    assert_eq!(unauthorized_body(), "Unauthorized");
}

#[test]
fn index_with_wrong_cookie_value_is_unauthorized() {
    let cfg = scenario_config();
    let r = handle_index(Some(&"not-v".to_string()), &cfg);
    assert_eq!(r.status_code(), 401);
    assert!(matches!(r, IndexOutcome::Unauthorized));
}

#[test]
fn index_with_valid_cookie_lists_services_in_order() {
    let cfg = scenario_config();
    let r = handle_index(Some(&"v".to_string()), &cfg);
    assert_eq!(r.status_code(), 200);
    match r {
        IndexOutcome::Page { body } => {
            let a = "<li><a href='http://a.example.com'>A</a></li>";
            let b = "<li><a href='http://b.example.com'>B</a></li>";
            let pos_a = body.find(a).expect("first service item missing");
            let pos_b = body.find(b).expect("second service item missing");
            assert!(pos_a < pos_b);
            assert_eq!(body.matches("<li>").count(), 2);
        }
        IndexOutcome::Unauthorized => panic!("valid cookie refused"),
    }
}

#[test]
fn render_entry_formats_one_list_item() {
    let dir = parse_directory(r#"[["A","a.example.com"]]"#);
    let item = render_entry(&dir[0]);
    assert_eq!(item, "<li><a href='http://a.example.com'>A</a></li>");
}

#[test]
fn render_list_concatenates_items_in_directory_order() {
    let dir = parse_directory(r#"[["A","a.example.com"],["B","b.example.com"]]"#);
    assert_eq!(
        render_list(&dir),
        "<li><a href='http://a.example.com'>A</a></li><li><a href='http://b.example.com'>B</a></li>"
    );
}

#[test]
fn page_for_malformed_services_renders_no_items() {
    let cfg = Config::resolve(
        None,
        None,
        None,
        None,
        Some("not json at all".to_string()),
        None,
        None,
        None,
        None,
    );
    assert!(cfg.services.is_empty());
    let body = render_page(&cfg.services);
    assert!(!body.contains("<li>"));
    assert!(body.contains("<ul>"));
}

#[test]
fn wrong_secret_is_denied_with_no_cookie() {
    let cfg = scenario_config();
    let req = AuthRequest {
        shared_secret: "wrong".to_string(),
        service_url: "http://a.example.com".to_string(),
    };
    let r = issue_credential(&req, &cfg);
    assert_eq!(r.status_code(), 401);
    assert!(matches!(r, AuthOutcome::Denied));
}

#[test]
fn empty_secret_is_denied() {
    let cfg = scenario_config();
    let req = AuthRequest {
        shared_secret: "".to_string(),
        service_url: "http://a.example.com".to_string(),
    };
    assert!(matches!(issue_credential(&req, &cfg), AuthOutcome::Denied));
}

#[test]
fn right_secret_redirects_verbatim_with_full_cookie() {
    let cfg = scenario_config();
    let req = AuthRequest {
        shared_secret: "s3cr3t".to_string(),
        service_url: "http://a.example.com/deep?q=1".to_string(),
    };
    match issue_credential(&req, &cfg) {
        AuthOutcome::Granted { location, credential } => {
            assert_eq!(location, "http://a.example.com/deep?q=1");
            assert_eq!(credential.cookie_name, "tok");
            assert_eq!(credential.cookie_value, "v");
            assert_eq!(credential.domain, "example.com");
            assert_eq!(credential.max_age_seconds(), 86400);
            assert_eq!(
                credential.set_cookie_header(),
                "tok=v; Domain=example.com; Path=/; Max-Age=86400; Secure; HttpOnly"
            );
        }
        AuthOutcome::Denied => panic!("right secret refused"),
    }
}

#[test]
fn issuing_twice_gives_byte_identical_cookie_attributes() {
    let cfg = scenario_config();
    let req = AuthRequest {
        shared_secret: "s3cr3t".to_string(),
        service_url: "http://a.example.com".to_string(),
    };
    let first = issue_credential(&req, &cfg);
    let second = issue_credential(&req, &cfg);
    match (first, second) {
        (
            AuthOutcome::Granted { location: l1, credential: c1 },
            AuthOutcome::Granted { location: l2, credential: c2 },
        ) => {
            assert_eq!(l1, l2);
            assert_eq!(c1.set_cookie_header(), c2.set_cookie_header());
        }
        _ => panic!("grant expected from both issuances"),
    }
}

#[test]
fn credential_header_has_every_fixed_attribute() {
    let credential = SessionCredential {
        cookie_name: "name".to_string(),
        cookie_value: "value".to_string(),
        domain: "d.example.com".to_string(),
    };
    let header = credential.set_cookie_header();
    assert!(header.starts_with("name=value"));
    assert!(header.contains("; Domain=d.example.com"));
    assert!(header.contains("; Path=/"));
    assert!(header.contains("; Max-Age=86400"));
    assert!(header.contains("; Secure"));
    assert!(header.contains("; HttpOnly"));
}

#[test]
fn registration_payload_carries_the_same_directory_snapshot() {
    let cfg = scenario_config();
    let payload = build_registration_payload(&cfg);
    assert_eq!(payload.domain, "example.com");
    assert_eq!(payload.services.len(), cfg.services.len());
    for (ours, theirs) in payload.services.iter().zip(cfg.services.iter()) {
        assert_eq!(ours.name, theirs.name);
        assert_eq!(ours.url, theirs.url);
    }
}

#[test]
fn registration_payload_of_malformed_services_is_empty() {
    let cfg = Config::resolve(
        None,
        None,
        None,
        None,
        Some("][ not json".to_string()),
        None,
        None,
        None,
        None,
    );
    let payload = build_registration_payload(&cfg);
    assert!(payload.services.is_empty());
}

#[test]
fn end_to_end_scenario() {
    let cfg = scenario_config();

    let req = AuthRequest {
        shared_secret: "s3cr3t".to_string(),
        service_url: "http://a.example.com".to_string(),
    };
    let outcome = issue_credential(&req, &cfg);
    assert_eq!(outcome.status_code(), 302);
    let cookie_value = match outcome {
        AuthOutcome::Granted { location, credential } => {
            assert_eq!(location, "http://a.example.com");
            assert_eq!(credential.cookie_name, "tok");
            assert_eq!(credential.cookie_value, "v");
            credential.cookie_value
        }
        AuthOutcome::Denied => panic!("right secret refused"),
    };

    let page = handle_index(Some(&cookie_value), &cfg);
    assert_eq!(page.status_code(), 200);
    match page {
        IndexOutcome::Page { body } => {
            let a = body.find("<li><a href='http://a.example.com'>A</a></li>");
            let b = body.find("<li><a href='http://b.example.com'>B</a></li>");
            assert!(a.expect("A item missing") < b.expect("B item missing"));
        }
        IndexOutcome::Unauthorized => panic!("issued cookie refused"),
    }

    let bare = handle_index(None, &cfg);
    assert_eq!(bare.status_code(), 401);
    assert!(matches!(bare, IndexOutcome::Unauthorized));
}
