use axum::http::{HeaderMap, HeaderValue};
use fiducia_customer::origin::{parse_customer_app_origin, SettingsError};
use fiducia_customer::request_security::{RequestSecurity, RequestSecurityError};

const HOST: &str = "host";
const ORIGIN: &str = "origin";
const SEC_FETCH_SITE: &str = "sec-fetch-site";

fn security() -> RequestSecurity {
    match RequestSecurity::new(
        "https://app.fiducia.cloud",
        b"0123456789abcdef0123456789abcdef".to_vec(),
    ) {
        Ok(security) => security,
        Err(error) => panic!("{}", error.message()),
    }
}

fn browser_headers(origin: &'static str) -> HeaderMap {
    let mut headers = HeaderMap::new();
    headers.insert(HOST, HeaderValue::from_static("app.fiducia.cloud"));
    headers.insert(ORIGIN, HeaderValue::from_static(origin));
    headers.insert(SEC_FETCH_SITE, HeaderValue::from_static("same-origin"));
    headers
}

fn settings_error(result: Result<RequestSecurity, SettingsError>) -> SettingsError {
    match result {
        Ok(_) => panic!("the settings were accepted"),
        Err(error) => error,
    }
}

#[test]
fn exact_customer_origin_is_accepted() {
    assert_eq!(
        security().require_same_origin(&browser_headers("https://app.fiducia.cloud")),
        Ok(())
    );
}

#[test]
fn sibling_origin_is_rejected_even_though_it_is_same_site() {
    assert_eq!(
        security().require_same_origin(&browser_headers("https://admin.fiducia.cloud")),
        Err(RequestSecurityError::MismatchedOrigin)
    );
}

#[test]
fn duplicate_security_authorities_are_rejected() {
    let mut duplicate_origin = browser_headers("https://app.fiducia.cloud");
    duplicate_origin.append(
        ORIGIN,
        HeaderValue::from_static("https://app.fiducia.cloud"),
    );
    assert_eq!(
        security().require_same_origin(&duplicate_origin),
        Err(RequestSecurityError::AmbiguousOrigin)
    );

    let mut duplicate_host = browser_headers("https://app.fiducia.cloud");
    duplicate_host.append(HOST, HeaderValue::from_static("app.fiducia.cloud"));
    assert_eq!(
        security().require_same_origin(&duplicate_host),
        Err(RequestSecurityError::AmbiguousHost)
    );
}

#[test]
fn same_site_fetch_metadata_is_rejected() {
    let mut headers = browser_headers("https://app.fiducia.cloud");
    headers.insert(SEC_FETCH_SITE, HeaderValue::from_static("same-site"));
    assert_eq!(
        security().require_same_origin(&headers),
        Err(RequestSecurityError::CrossSiteFetch)
    );
}

#[test]
fn csrf_token_is_bound_to_the_verified_credential() {
    let token = security().csrf_token("cookie\0verified.jwt");
    assert_eq!(
        security().verify_csrf_token("cookie\0verified.jwt", &token),
        Ok(())
    );
    assert_eq!(
        security().verify_csrf_token("cookie\0other.jwt", &token),
        Err(RequestSecurityError::InvalidCsrfToken)
    );
}

#[test]
fn origin_paths_and_short_secrets_are_rejected() {
    assert!(RequestSecurity::new(
        "https://app.fiducia.cloud/login",
        b"0123456789abcdef0123456789abcdef".to_vec()
    )
    .is_err());
    assert!(RequestSecurity::new("https://app.fiducia.cloud", b"short".to_vec()).is_err());
}

#[test]
fn customer_origin_validation_accepts_one_exact_http_origin() {
    assert_eq!(
        parse_customer_app_origin("https://app.fiducia.cloud").unwrap(),
        "https://app.fiducia.cloud"
    );
    assert_eq!(
        parse_customer_app_origin("http://127.0.0.1:4173/").unwrap(),
        "http://127.0.0.1:4173"
    );
    for invalid in [
        "*",
        "app.fiducia.cloud",
        "https://app.fiducia.cloud/path",
        "https://app.fiducia.cloud?query=1",
        "https://user@app.fiducia.cloud",
        "https://app.fiducia.cloud,https://evil.example",
    ] {
        assert!(
            parse_customer_app_origin(invalid).is_err(),
            "accepted invalid origin {invalid}"
        );
    }
}

#[test]
fn every_request_error_has_its_code() {
    assert_eq!(RequestSecurityError::AmbiguousHost.code(), "ambiguous_host");
    assert_eq!(RequestSecurityError::AmbiguousOrigin.code(), "ambiguous_origin");
    assert_eq!(RequestSecurityError::CrossSiteFetch.code(), "cross_site_fetch");
    assert_eq!(RequestSecurityError::InvalidCsrfToken.code(), "invalid_csrf_token");
    assert_eq!(RequestSecurityError::MissingHost.code(), "missing_host");
    assert_eq!(RequestSecurityError::MissingOrigin.code(), "missing_origin");
    assert_eq!(RequestSecurityError::MismatchedHost.code(), "mismatched_host");
    assert_eq!(RequestSecurityError::MismatchedOrigin.code(), "mismatched_origin");
}

#[test]
fn the_host_is_required_once_and_compared_without_case() {
    let mut headers = HeaderMap::new();
    assert_eq!(security().require_host(&headers), Err(RequestSecurityError::MissingHost));
    headers.insert(HOST, HeaderValue::from_static("APP.Fiducia.Cloud"));
    assert_eq!(security().require_host(&headers), Ok(()));
    headers.insert(HOST, HeaderValue::from_static("app.fiducia.cloud:8443"));
    assert_eq!(security().require_host(&headers), Err(RequestSecurityError::MismatchedHost));
    headers.insert(HOST, HeaderValue::from_bytes(b"app\xff").unwrap());
    assert_eq!(security().require_host(&headers), Err(RequestSecurityError::MissingHost));
}

#[test]
fn the_origin_is_required_and_compared_exactly() {
    let mut headers = browser_headers("https://app.fiducia.cloud");
    headers.remove(ORIGIN);
    assert_eq!(
        security().require_same_origin(&headers),
        Err(RequestSecurityError::MissingOrigin)
    );
    headers.insert(ORIGIN, HeaderValue::from_static("https://APP.fiducia.cloud"));
    assert_eq!(
        security().require_same_origin(&headers),
        Err(RequestSecurityError::MismatchedOrigin)
    );
    headers.insert(ORIGIN, HeaderValue::from_static("null"));
    assert_eq!(
        security().require_same_origin(&headers),
        Err(RequestSecurityError::MismatchedOrigin)
    );
}

#[test]
fn bearer_clients_may_leave_the_origin_out() {
    let mut headers = HeaderMap::new();
    headers.insert(HOST, HeaderValue::from_static("app.fiducia.cloud"));
    assert_eq!(security().require_api_host(&headers), Ok(()));
    headers.insert(SEC_FETCH_SITE, HeaderValue::from_static("none"));
    assert_eq!(security().require_api_host(&headers), Ok(()));
    headers.append(SEC_FETCH_SITE, HeaderValue::from_static("cross-site"));
    assert_eq!(
        security().require_api_host(&headers),
        Err(RequestSecurityError::CrossSiteFetch)
    );
}

#[test]
fn an_api_request_that_names_an_origin_is_held_to_it() {
    assert_eq!(
        security().require_api_host(&browser_headers("https://app.fiducia.cloud")),
        Ok(())
    );
    assert_eq!(
        security().require_api_host(&browser_headers("https://admin.fiducia.cloud")),
        Err(RequestSecurityError::MismatchedOrigin)
    );
    let mut headers = browser_headers("https://app.fiducia.cloud");
    headers.append(SEC_FETCH_SITE, HeaderValue::from_static("cross-site"));
    assert_eq!(
        security().require_api_host(&headers),
        Err(RequestSecurityError::CrossSiteFetch)
    );
    headers.remove(SEC_FETCH_SITE);
    assert_eq!(security().require_api_host(&headers), Ok(()));
    headers.append(SEC_FETCH_SITE, HeaderValue::from_static("none"));
    headers.append(SEC_FETCH_SITE, HeaderValue::from_static("same-origin"));
    assert_eq!(security().require_api_host(&headers), Ok(()));
}

#[test]
fn csrf_tokens_have_their_exact_value() {
    // HMAC-SHA-256 of "fiducia-customer-csrf-v1\0login\0abc" in unpadded URL-safe base64.
    let token = security().csrf_token("login\0abc");
    assert_eq!(token, "J_fxmw5snoJbTW-9YslcLUmL719KSkGsaHFoWRl1T-Q");
    assert_eq!(token.len(), 43);
}

#[test]
fn only_the_exact_token_is_accepted() {
    let token = security().csrf_token("login\0abc");
    for other in [
        "".to_string(),
        format!("{token}="),
        format!(" {token}"),
        token[..42].to_string(),
        token.to_ascii_uppercase(),
        "not base64!".to_string(),
    ] {
        assert_eq!(
            security().verify_csrf_token("login\0abc", &other),
            Err(RequestSecurityError::InvalidCsrfToken),
            "accepted {other}"
        );
    }
}

#[test]
fn debug_builds_have_loopback_defaults() {
    let security = match RequestSecurity::from_env(8080, None, Some("  ".to_string()), true) {
        Ok(security) => security,
        Err(error) => panic!("{}", error.message()),
    };
    let mut headers = HeaderMap::new();
    headers.insert(HOST, HeaderValue::from_static("127.0.0.1:8080"));
    headers.insert(ORIGIN, HeaderValue::from_static("http://127.0.0.1:8080"));
    assert_eq!(security.require_same_origin(&headers), Ok(()));
    let explicit = match RequestSecurity::new(
        "http://127.0.0.1:8080",
        b"fiducia-customer-debug-only-csrf-key-never-production".to_vec(),
    ) {
        Ok(security) => security,
        Err(error) => panic!("{}", error.message()),
    };
    assert_eq!(security.csrf_token("x"), explicit.csrf_token("x"));
}

#[test]
fn release_builds_need_explicit_https_settings() {
    let secret = || Some("0123456789abcdef0123456789abcdef".to_string());
    let origin = |text: &str| Some(text.to_string());
    assert_eq!(
        settings_error(RequestSecurity::from_env(8080, None, secret(), false)),
        SettingsError::OriginUnset
    );
    assert_eq!(
        settings_error(RequestSecurity::from_env(
            8080,
            origin("https://app.fiducia.cloud"),
            None,
            false
        )),
        SettingsError::SecretUnset
    );
    assert_eq!(
        settings_error(RequestSecurity::from_env(
            8080,
            origin("http://app.fiducia.cloud"),
            secret(),
            false
        )),
        SettingsError::OriginNotHttps
    );
    assert!(RequestSecurity::from_env(
        8080,
        origin(" https://app.fiducia.cloud "),
        secret(),
        false
    )
    .is_ok());
    assert!(
        RequestSecurity::from_env(8080, origin("http://app.fiducia.cloud"), secret(), true).is_ok()
    );
}

#[test]
fn every_settings_error_says_what_to_set() {
    assert_eq!(
        settings_error(RequestSecurity::new("app.fiducia.cloud", vec![7; 32])).message(),
        "CUSTOMER_APP_ORIGIN must be an absolute URL"
    );
    assert_eq!(
        settings_error(RequestSecurity::new("ftp://app.fiducia.cloud", vec![7; 32])).message(),
        "CUSTOMER_APP_ORIGIN must contain only http(s) scheme and authority"
    );
    // The secret is looked at first.
    assert_eq!(
        settings_error(RequestSecurity::new("not a url", vec![7; 31])).message(),
        "FIDUCIA_CUSTOMER_CSRF_SECRET must contain at least 32 bytes"
    );
    assert_eq!(SettingsError::OriginUnset.message(), "CUSTOMER_APP_ORIGIN must be set");
    assert_eq!(
        SettingsError::SecretUnset.message(),
        "FIDUCIA_CUSTOMER_CSRF_SECRET must be set"
    );
    assert_eq!(
        SettingsError::OriginNotHttps.message(),
        "CUSTOMER_APP_ORIGIN must use https in release builds"
    );
}

#[test]
fn default_ports_are_left_out_of_the_origin() {
    assert_eq!(
        parse_customer_app_origin("https://App.Fiducia.Cloud:443/").unwrap(),
        "https://app.fiducia.cloud"
    );
    assert_eq!(
        parse_customer_app_origin("https://app.fiducia.cloud#top"),
        Err(SettingsError::OriginNotBare)
    );
    assert_eq!(
        parse_customer_app_origin("https://:pw@app.fiducia.cloud"),
        Err(SettingsError::OriginNotBare)
    );
}

#[test]
fn tokens_can_stand_in_pages_and_headers() {
    for binding in ["", "a", "login\0x", "cookie\0é"] {
        let token = security().csrf_token(binding);
        assert_eq!(token.len(), 43);
        assert!(token.chars().all(|c| c.is_ascii_alphanumeric() || c == '-' || c == '_'));
        assert_eq!(security().verify_csrf_token(binding, &token), Ok(()));
    }
}

#[test]
fn set_settings_decide_in_both_builds() {
    let secret = || Some("0123456789abcdef0123456789abcdef".to_string());
    let origin = || Some("https://app.fiducia.cloud".to_string());
    let token = |debug_build: bool| {
        match RequestSecurity::from_env(1, origin(), secret(), debug_build) {
            Ok(security) => security.csrf_token("x"),
            Err(error) => panic!("{}", error.message()),
        }
    };
    assert_eq!(token(true), token(false));
    assert_eq!(token(true), security().csrf_token("x"));
}

#[test]
fn origin_texts_that_are_read_alike_make_the_same_checks() {
    let requests = [
        browser_headers("https://app.fiducia.cloud"),
        browser_headers("https://app.fiducia.cloud:443"),
        browser_headers("https://admin.fiducia.cloud"),
        HeaderMap::new(),
    ];
    for origin in [
        "https://app.fiducia.cloud/",
        " https://app.fiducia.cloud ",
        "https://APP.FIDUCIA.CLOUD",
        "https://app.fiducia.cloud:443",
        "\u{3000}HTTPS://app.fiducia.cloud:443/\n",
    ] {
        let other = match RequestSecurity::new(
            origin,
            b"0123456789abcdef0123456789abcdef".to_vec(),
        ) {
            Ok(security) => security,
            Err(error) => panic!("{origin}: {}", error.message()),
        };
        for headers in &requests {
            assert_eq!(other.require_host(headers), security().require_host(headers));
            assert_eq!(
                other.require_same_origin(headers),
                security().require_same_origin(headers)
            );
            assert_eq!(other.require_api_host(headers), security().require_api_host(headers));
        }
    }
}

#[test]
fn plain_origins_are_accepted_for_what_they_stand_for() {
    for (setting, origin) in [
        ("http://localhost", "http://localhost"),
        ("http://LocalHost:80/", "http://localhost"),
        ("http://localhost:443", "http://localhost:443"),
        ("https://app-1.Fiducia.Cloud:8443", "https://app-1.fiducia.cloud:8443"),
        ("https://1.2.app.fiducia.cloud:0/", "https://1.2.app.fiducia.cloud:0"),
        ("https://127.0.0.1:65535/", "https://127.0.0.1:65535"),
        ("\thttps://a.b.C \n", "https://a.b.c"),
    ] {
        assert_eq!(parse_customer_app_origin(setting), Ok(origin.to_string()), "{setting}");
    }
    let long = format!("{}.cloud", "A".repeat(247));
    assert_eq!(
        parse_customer_app_origin(&format!("https://{long}/")),
        Ok(format!("https://{}", long.to_lowercase()))
    );
}

#[test]
fn debug_builds_boot_without_settings() {
    for port in [0, 80, 8080, 65535] {
        let security = match RequestSecurity::from_env(port, None, Some(" ".to_string()), true) {
            Ok(security) => security,
            Err(error) => panic!("{port}: {}", error.message()),
        };
        let host = if port == 80 {
            "127.0.0.1".to_string()
        } else {
            format!("127.0.0.1:{port}")
        };
        let mut headers = HeaderMap::new();
        headers.insert(HOST, HeaderValue::from_str(&host).unwrap());
        assert_eq!(security.require_host(&headers), Ok(()));
    }
}

#[test]
fn deeply_nested_settings_are_refused() {
    assert_eq!(
        parse_customer_app_origin(&"blob:".repeat(100_000)),
        Err(SettingsError::OriginNotBare)
    );
    assert_eq!(
        parse_customer_app_origin("blob:https://app.fiducia.cloud"),
        Err(SettingsError::OriginNotBare)
    );
}
