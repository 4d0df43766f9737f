//! Exact-origin request checks and credential-bound customer CSRF tokens.
//!
//! `*.fiducia.cloud` hosts are same-site, so `SameSite=Strict` alone does not isolate the
//! customer portal from sibling origins. Dynamic customer routes validate the configured Host
//! and browser Origin; ambient-cookie mutations additionally require an HMAC token bound to the
//! verified credential.

use crate::headers::{
    first_text, has_header, header_texts, header_values, is_header_name, opt_string_views,
    read_header,
};
use crate::html::{escaped, is_markup_char, law_plain_text_is_unchanged};
use crate::origin::{
    customer_origin_setting, is_bare_origin, is_web_origin, lemma_plain_text_is_trimmed,
    parse_origin_setting, parsed_url, CustomerOrigin, PlainOrigin, SettingsError,
};
use crate::text::{
    ascii_lowered, decimal, decimal_text, eq_ignore_ascii_case, is_blank, law_blanks_are_trimmed,
    opt_string, same_text, starts_with, trim, trimmed,
};
use crate::tokens::{
    base64_decode, base64_encode, base64_url, hmac_sha256, law_base64_is_plain_text,
    law_base64_loses_nothing, mac_tag, mac_verifies,
};
use axum::http::{HeaderMap, HeaderValue};
use vstd::prelude::*;
use vstd::utf8::{encode_utf8, encode_utf8_decode_utf8, is_ascii_chars_encode_utf8};

verus! {

/// The fewest bytes that a CSRF signing secret may have.
pub const MIN_CSRF_SECRET_BYTES: usize = 32;

/// The signing secret of debug builds that configure none.
pub const DEBUG_CSRF_SECRET: &'static str = "fiducia-customer-debug-only-csrf-key-never-production";

/// What every CSRF message starts with.
pub const CSRF_LABEL: &'static str = "fiducia-customer-csrf-v1\0";

/// Why a request was refused.
#[derive(Clone, Copy, Debug, PartialEq, Eq, Structural)]
pub enum RequestSecurityError {
    AmbiguousHost,
    AmbiguousOrigin,
    CrossSiteFetch,
    InvalidCsrfToken,
    MissingHost,
    MissingOrigin,
    MismatchedHost,
    MismatchedOrigin,
}

impl RequestSecurityError {
    /// The machine-readable code of each error.
    pub open spec fn spec_code(self) -> Seq<char> {
        match self {
            RequestSecurityError::AmbiguousHost => "ambiguous_host"@,
            RequestSecurityError::AmbiguousOrigin => "ambiguous_origin"@,
            RequestSecurityError::CrossSiteFetch => "cross_site_fetch"@,
            RequestSecurityError::InvalidCsrfToken => "invalid_csrf_token"@,
            RequestSecurityError::MissingHost => "missing_host"@,
            RequestSecurityError::MissingOrigin => "missing_origin"@,
            RequestSecurityError::MismatchedHost => "mismatched_host"@,
            RequestSecurityError::MismatchedOrigin => "mismatched_origin"@,
        }
    }

    /// The machine-readable code of the error.
    pub fn code(self) -> (r: &'static str)
        ensures
            r@ == self.spec_code(),
    {
        match self {
            RequestSecurityError::AmbiguousHost => "ambiguous_host",
            RequestSecurityError::AmbiguousOrigin => "ambiguous_origin",
            RequestSecurityError::CrossSiteFetch => "cross_site_fetch",
            RequestSecurityError::InvalidCsrfToken => "invalid_csrf_token",
            RequestSecurityError::MissingHost => "missing_host",
            RequestSecurityError::MissingOrigin => "missing_origin",
            RequestSecurityError::MismatchedHost => "mismatched_host",
            RequestSecurityError::MismatchedOrigin => "mismatched_origin",
        }
    }
}

/// The request checks of one customer origin.
#[derive(Clone)]
pub struct RequestSecurity {
    expected_origin: String,
    expected_host: String,
    csrf_secret: Vec<u8>,
}

/// What the request checks are made with.
pub struct SecurityView {
    pub expected_origin: Seq<char>,
    pub expected_host: Seq<char>,
    pub csrf_secret: Seq<u8>,
}

impl View for RequestSecurity {
    type V = SecurityView;

    closed spec fn view(&self) -> SecurityView {
        SecurityView {
            expected_origin: self.expected_origin@,
            expected_host: self.expected_host@,
            csrf_secret: self.csrf_secret@,
        }
    }
}

/// A `Sec-Fetch-Site` value by which a browser says that the request comes from elsewhere.
pub open spec fn is_foreign_site(site: Seq<char>) -> bool {
    site != "same-origin"@ && site != "none"@
}

/// Whether some readable `Sec-Fetch-Site` value is foreign.
pub open spec fn claims_foreign_site(sites: Seq<Option<Seq<char>>>) -> bool {
    exists|i: int|
        0 <= i < sites.len() && (#[trigger] sites[i] matches Some(site) && is_foreign_site(site))
}

impl SecurityView {
    /// The verdict on the values of the `Host` header.
    pub open spec fn host_verdict(self, hosts: Seq<Option<Seq<char>>>) -> Result<
        (),
        RequestSecurityError,
    > {
        match first_text(hosts) {
            None => Err(RequestSecurityError::MissingHost),
            Some(host) => if hosts.len() > 1 {
                Err(RequestSecurityError::AmbiguousHost)
            } else if ascii_lowered(host) != ascii_lowered(self.expected_host) {
                Err(RequestSecurityError::MismatchedHost)
            } else {
                Ok(())
            },
        }
    }

    /// The verdict on the values of the `Origin` header.
    pub open spec fn origin_verdict(self, origins: Seq<Option<Seq<char>>>) -> Result<
        (),
        RequestSecurityError,
    > {
        match first_text(origins) {
            None => Err(RequestSecurityError::MissingOrigin),
            Some(origin) => if origins.len() > 1 {
                Err(RequestSecurityError::AmbiguousOrigin)
            } else if origin != self.expected_origin {
                Err(RequestSecurityError::MismatchedOrigin)
            } else {
                Ok(())
            },
        }
    }

    /// The verdict of the host check on a request.
    pub open spec fn host_check(self, headers: HeaderMap<HeaderValue>) -> Result<
        (),
        RequestSecurityError,
    > {
        self.host_verdict(header_texts(headers, "host"@))
    }

    /// The verdict of the same-origin check on a request: host, then origin, then the first
    /// `Sec-Fetch-Site` value.
    pub open spec fn same_origin_check(self, headers: HeaderMap<HeaderValue>) -> Result<
        (),
        RequestSecurityError,
    > {
        match self.host_check(headers) {
            Err(error) => Err(error),
            Ok(()) => match self.origin_verdict(header_texts(headers, "origin"@)) {
                Err(error) => Err(error),
                Ok(()) => match first_text(header_texts(headers, "sec-fetch-site"@)) {
                    Some(site) if is_foreign_site(site) => Err(
                        RequestSecurityError::CrossSiteFetch,
                    ),
                    _ => Ok(()),
                },
            },
        }
    }

    /// The verdict of the API check on a request: the host, the same-origin check where an
    /// `Origin` header is present, and then every `Sec-Fetch-Site` value.
    pub open spec fn api_host_check(self, headers: HeaderMap<HeaderValue>) -> Result<
        (),
        RequestSecurityError,
    > {
        match self.host_check(headers) {
            Err(error) => Err(error),
            Ok(()) => if has_header(headers, "origin"@) && self.same_origin_check(headers) is Err {
                self.same_origin_check(headers)
            } else if claims_foreign_site(header_texts(headers, "sec-fetch-site"@)) {
                Err(RequestSecurityError::CrossSiteFetch)
            } else {
                Ok(())
            },
        }
    }

    /// The CSRF token of a credential.
    pub open spec fn token_of(self, credential_binding: Seq<char>) -> Seq<char> {
        base64_url(hmac_sha256(self.csrf_secret, csrf_message(credential_binding)))
    }

    /// The verdict on a CSRF token that is presented for a credential.
    pub open spec fn csrf_check(self, credential_binding: Seq<char>, provided: Seq<char>) -> Result<
        (),
        RequestSecurityError,
    > {
        if provided == self.token_of(credential_binding) {
            Ok(())
        } else {
            Err(RequestSecurityError::InvalidCsrfToken)
        }
    }

    /// What settings that were accepted satisfy.
    pub open spec fn wf(self) -> bool {
        &&& self.csrf_secret.len() >= MIN_CSRF_SECRET_BYTES
        &&& is_web_origin(
            CustomerOrigin { origin: self.expected_origin, host: self.expected_host },
        )
    }
}

/// The message that the CSRF token of a credential authenticates.
pub open spec fn csrf_message(credential_binding: Seq<char>) -> Seq<u8> {
    encode_utf8(CSRF_LABEL@ + credential_binding)
}

/// The checks that an origin setting and a secret make.
pub open spec fn security_of(origin: Seq<char>, csrf_secret: Seq<u8>) -> Result<
    SecurityView,
    SettingsError,
> {
    if csrf_secret.len() < MIN_CSRF_SECRET_BYTES {
        Err(SettingsError::SecretTooShort)
    } else {
        match customer_origin_setting(origin) {
            Err(error) => Err(error),
            Ok(accepted) => Ok(
                SecurityView {
                    expected_origin: accepted.origin,
                    expected_host: accepted.host,
                    csrf_secret,
                },
            ),
        }
    }
}

/// The checks that a plain origin and a secret make.
pub open spec fn plain_security(plain: PlainOrigin, csrf_secret: Seq<u8>) -> SecurityView {
    SecurityView {
        expected_origin: plain.accepted().origin,
        expected_host: plain.accepted().host,
        csrf_secret,
    }
}

/// A setting that holds more than white space.
pub open spec fn set_value(setting: Option<Seq<char>>) -> Option<Seq<char>> {
    match setting {
        Some(value) if trimmed(value).len() > 0 => Some(value),
        _ => None,
    }
}

/// The origin setting in force: the one that is set, or the loopback origin of debug builds.
pub open spec fn origin_in_force(
    port: u16,
    setting: Option<Seq<char>>,
    debug_build: bool,
) -> Result<Seq<char>, SettingsError> {
    match set_value(setting) {
        Some(origin) => Ok(origin),
        None => if debug_build {
            Ok("http://127.0.0.1:"@ + decimal(port as nat))
        } else {
            Err(SettingsError::OriginUnset)
        },
    }
}

/// The loopback origin of debug builds.
pub open spec fn loopback_origin(port: u16) -> PlainOrigin {
    PlainOrigin { scheme: "http"@, host: "127.0.0.1"@, port: Some(port), slash: false }
}

/// The signing secret in force: the one that is set, or the fixed one of debug builds.
pub open spec fn secret_in_force(setting: Option<Seq<char>>, debug_build: bool) -> Result<
    Seq<u8>,
    SettingsError,
> {
    match set_value(setting) {
        Some(secret) => Ok(encode_utf8(secret)),
        None => if debug_build {
            Ok(encode_utf8(DEBUG_CSRF_SECRET@))
        } else {
            Err(SettingsError::SecretUnset)
        },
    }
}

/// The checks that the environment settings of a deployment make.
pub open spec fn security_from_settings(
    port: u16,
    origin_setting: Option<Seq<char>>,
    secret_setting: Option<Seq<char>>,
    debug_build: bool,
) -> Result<SecurityView, SettingsError> {
    match origin_in_force(port, origin_setting, debug_build) {
        Err(error) => Err(error),
        Ok(origin) => match secret_in_force(secret_setting, debug_build) {
            Err(error) => Err(error),
            Ok(secret) => match security_of(origin, secret) {
                Err(error) => Err(error),
                Ok(security) => if !debug_build && !"https://"@.is_prefix_of(
                    security.expected_origin,
                ) {
                    Err(SettingsError::OriginNotHttps)
                } else {
                    Ok(security)
                },
            },
        },
    }
}

proof fn lemma_header_names()
    ensures
        is_header_name("host"@),
        is_header_name("origin"@),
        is_header_name("sec-fetch-site"@),
{
    reveal_strlit("host");
    reveal_strlit("origin");
    reveal_strlit("sec-fetch-site");
}

fn only_set(setting: Option<String>) -> (r: Option<String>)
    ensures
        opt_string(r) == set_value(opt_string(setting)),
{
    match setting {
        Some(value) => if trim(value.as_str()).is_empty() {
            None
        } else {
            Some(value)
        },
        None => None,
    }
}

fn is_foreign(site: &str) -> (r: bool)
    ensures
        r == is_foreign_site(site@),
{
    !same_text(site, "same-origin") && !same_text(site, "none")
}

/// The defaults of debug builds are a plain origin and a secret that is long enough.
proof fn lemma_debug_defaults(port: u16)
    ensures
        loopback_origin(port).wf(),
        loopback_origin(port).text() == "http://127.0.0.1:"@ + decimal(port as nat),
        trimmed(loopback_origin(port).text()) == loopback_origin(port).text(),
        encode_utf8(DEBUG_CSRF_SECRET@).len() >= MIN_CSRF_SECRET_BYTES,
{
    reveal_strlit("http");
    reveal_strlit("://");
    reveal_strlit("127.0.0.1");
    reveal_strlit(":");
    reveal_strlit("");
    reveal_strlit("http://127.0.0.1:");
    assert("http"@ + "://"@ + "127.0.0.1"@ + ":"@ =~= "http://127.0.0.1:"@);
    assert(loopback_origin(port).text() =~= "http://127.0.0.1:"@ + decimal(port as nat));
    lemma_plain_text_is_trimmed(loopback_origin(port));
    reveal_strlit("fiducia-customer-debug-only-csrf-key-never-production");
    is_ascii_chars_encode_utf8(DEBUG_CSRF_SECRET@);
}

/// What is written behind `https://` starts with it.
proof fn lemma_https_prefix()
    ensures
        forall|host: Seq<char>| "https://"@.is_prefix_of(#[trigger] ("https"@ + "://"@ + host)),
{
    reveal_strlit("https");
    reveal_strlit("://");
    reveal_strlit("https://");
    assert("https"@ + "://"@ =~= "https://"@);
    assert forall|host: Seq<char>| "https://"@.is_prefix_of(
        #[trigger] ("https"@ + "://"@ + host),
    ) by {
        assert(("https"@ + "://"@ + host).subrange(0, "https://"@.len() as int) =~= "https://"@);
    }
}

impl RequestSecurity {
    /// The checks for the settings of the environment: the values of `CUSTOMER_APP_ORIGIN` and
    /// `FIDUCIA_CUSTOMER_CSRF_SECRET`. Release deployments must configure one exact HTTPS
    /// customer origin and a nontrivial signing secret. Debug builds retain an explicit
    /// loopback-only default so that local development can boot without production secrets.
    pub fn from_env(
        port: u16,
        origin_setting: Option<String>,
        secret_setting: Option<String>,
        debug_build: bool,
    ) -> (r: Result<Self, SettingsError>)
        ensures
            match r {
                Ok(security) => security_from_settings(
                    port,
                    opt_string(origin_setting),
                    opt_string(secret_setting),
                    debug_build,
                ) == Ok::<_, SettingsError>(security@) && security@.wf(),
                Err(error) => security_from_settings(
                    port,
                    opt_string(origin_setting),
                    opt_string(secret_setting),
                    debug_build,
                ) == Err::<SecurityView, _>(error),
            },
            forall|plain: PlainOrigin|
                plain.wf() && (debug_build || plain.scheme == "https"@) && (origin_in_force(
                    port,
                    opt_string(origin_setting),
                    debug_build,
                ) matches Ok(origin) && trimmed(origin) == #[trigger] plain.text()) && (
                secret_in_force(opt_string(secret_setting), debug_build) matches Ok(secret)
                    && secret.len() >= MIN_CSRF_SECRET_BYTES) ==> (r matches Ok(security)
                    && security@ == plain_security(
                    plain,
                    secret_in_force(opt_string(secret_setting), debug_build)->Ok_0,
                )),
            debug_build && set_value(opt_string(origin_setting)) is None && set_value(
                opt_string(secret_setting),
            ) is None ==> r is Ok,
    {
        proof {
            lemma_debug_defaults(port);
            lemma_https_prefix();
        }
        let origin = match only_set(origin_setting) {
            Some(origin) => origin,
            None => {
                if !debug_build {
                    return Err(SettingsError::OriginUnset);
                }
                let mut origin = "http://127.0.0.1:".to_owned();
                let numeral = decimal_text(port as u64);
                origin.append(numeral.as_str());
                origin
            },
        };
        let csrf_secret = match only_set(secret_setting) {
            Some(secret) => secret.as_str().as_bytes_vec(),
            None => {
                if !debug_build {
                    return Err(SettingsError::SecretUnset);
                }
                DEBUG_CSRF_SECRET.as_bytes_vec()
            },
        };
        match Self::new(origin.as_str(), csrf_secret) {
            Err(error) => Err(error),
            Ok(security) => {
                if !debug_build && !starts_with(security.expected_origin.as_str(), "https://") {
                    Err(SettingsError::OriginNotHttps)
                } else {
                    Ok(security)
                }
            },
        }
    }

    /// The checks for one exact origin, with tokens signed by the given secret.
    pub fn new(origin: &str, csrf_secret: Vec<u8>) -> (r: Result<Self, SettingsError>)
        ensures
            match r {
                Ok(security) => security_of(origin@, csrf_secret@) == Ok::<_, SettingsError>(
                    security@,
                ) && security@.wf(),
                Err(error) => security_of(origin@, csrf_secret@) == Err::<SecurityView, _>(error),
            },
            forall|plain: PlainOrigin|
                plain.wf() && trimmed(origin@) == #[trigger] plain.text() && csrf_secret@.len()
                    >= MIN_CSRF_SECRET_BYTES ==> (r matches Ok(security) && security@
                    == plain_security(plain, csrf_secret@)),
    {
        if csrf_secret.len() < MIN_CSRF_SECRET_BYTES {
            return Err(SettingsError::SecretTooShort);
        }
        match parse_origin_setting(origin) {
            Err(error) => Err(error),
            Ok(accepted) => Ok(
                RequestSecurity {
                    expected_origin: accepted.origin,
                    expected_host: accepted.host,
                    csrf_secret,
                },
            ),
        }
    }

    /// Requires exactly one `Host` header, which names the customer host in any ASCII case.
    pub fn require_host(&self, headers: &HeaderMap) -> (r: Result<(), RequestSecurityError>)
        ensures
            r == self@.host_check(*headers),
    {
        proof {
            lemma_header_names();
        }
        let hosts = read_header(headers, "host");
        let ghost texts = header_texts(*headers, "host"@);
        assert(opt_string_views(hosts@).len() == texts.len());
        if hosts.len() == 0 {
            return Err(RequestSecurityError::MissingHost);
        }
        assert(opt_string_views(hosts@)[0] == texts[0]);
        match &hosts[0] {
            None => Err(RequestSecurityError::MissingHost),
            Some(host) => {
                if hosts.len() > 1 {
                    Err(RequestSecurityError::AmbiguousHost)
                } else if !eq_ignore_ascii_case(host.as_str(), self.expected_host.as_str()) {
                    Err(RequestSecurityError::MismatchedHost)
                } else {
                    Ok(())
                }
            },
        }
    }

    /// Requires the exact customer origin. `same-site` is intentionally not accepted because a
    /// sibling subdomain is outside this credential boundary.
    pub fn require_same_origin(&self, headers: &HeaderMap) -> (r: Result<(), RequestSecurityError>)
        ensures
            r == self@.same_origin_check(*headers),
    {
        proof {
            lemma_header_names();
        }
        match self.require_host(headers) {
            Err(error) => return Err(error),
            Ok(()) => {},
        }
        let origins = read_header(headers, "origin");
        let ghost texts = header_texts(*headers, "origin"@);
        assert(opt_string_views(origins@).len() == texts.len());
        if origins.len() == 0 {
            return Err(RequestSecurityError::MissingOrigin);
        }
        assert(opt_string_views(origins@)[0] == texts[0]);
        match &origins[0] {
            None => return Err(RequestSecurityError::MissingOrigin),
            Some(origin) => {
                if origins.len() > 1 {
                    return Err(RequestSecurityError::AmbiguousOrigin);
                }
                if !same_text(origin.as_str(), self.expected_origin.as_str()) {
                    return Err(RequestSecurityError::MismatchedOrigin);
                }
            },
        }
        let sites = read_header(headers, "sec-fetch-site");
        let ghost site_texts = header_texts(*headers, "sec-fetch-site"@);
        assert(opt_string_views(sites@).len() == site_texts.len());
        if sites.len() > 0 {
            assert(opt_string_views(sites@)[0] == site_texts[0]);
            if let Some(site) = &sites[0] {
                if is_foreign(site.as_str()) {
                    return Err(RequestSecurityError::CrossSiteFetch);
                }
            }
        }
        Ok(())
    }

    /// Bearer clients may omit `Origin`, but all requests must target the exact host and browser
    /// fetch metadata must never claim a foreign site.
    pub fn require_api_host(&self, headers: &HeaderMap) -> (r: Result<(), RequestSecurityError>)
        ensures
            r == self@.api_host_check(*headers),
    {
        proof {
            lemma_header_names();
        }
        match self.require_host(headers) {
            Err(error) => return Err(error),
            Ok(()) => {},
        }
        let origins = read_header(headers, "origin");
        assert(opt_string_views(origins@).len() == header_texts(*headers, "origin"@).len());
        if origins.len() > 0 {
            match self.require_same_origin(headers) {
                Err(error) => return Err(error),
                Ok(()) => {},
            }
        }
        let sites = read_header(headers, "sec-fetch-site");
        let ghost texts = header_texts(*headers, "sec-fetch-site"@);
        assert(opt_string_views(sites@).len() == texts.len());
        let mut i: usize = 0;
        while i < sites.len()
            invariant
                i <= sites.len(),
                texts == header_texts(*headers, "sec-fetch-site"@),
                opt_string_views(sites@) == texts,
                sites@.len() == texts.len(),
                forall|j: int|
                    0 <= j < i ==> !(#[trigger] texts[j] matches Some(site) && is_foreign_site(
                        site,
                    )),
                self@.host_check(*headers) == Ok::<(), RequestSecurityError>(()),
                has_header(*headers, "origin"@) ==> self@.same_origin_check(*headers) is Ok,
            decreases sites.len() - i,
        {
            assert(opt_string_views(sites@)[i as int] == texts[i as int]);
            if let Some(site) = &sites[i] {
                if is_foreign(site.as_str()) {
                    return Err(RequestSecurityError::CrossSiteFetch);
                }
            }
            i += 1;
        }
        Ok(())
    }

    fn message_bytes(credential_binding: &str) -> (r: Vec<u8>)
        ensures
            r@ == csrf_message(credential_binding@),
    {
        let mut message = CSRF_LABEL.to_owned();
        message.append(credential_binding);
        message.as_str().as_bytes_vec()
    }

    /// The CSRF token bound to a credential.
    pub fn csrf_token(&self, credential_binding: &str) -> (r: String)
        ensures
            r@ == self@.token_of(credential_binding@),
            r@.len() == 43,
    {
        let message = Self::message_bytes(credential_binding);
        let tag = mac_tag(self.csrf_secret.as_slice(), message.as_slice());
        base64_encode(tag.as_slice())
    }

    /// Accepts the CSRF token of the credential, and no other text.
    pub fn verify_csrf_token(&self, credential_binding: &str, provided: &str) -> (r: Result<
        (),
        RequestSecurityError,
    >)
        ensures
            r == self@.csrf_check(credential_binding@, provided@),
    {
        let ghost tag = hmac_sha256(self@.csrf_secret, csrf_message(credential_binding@));
        match base64_decode(provided) {
            None => {
                assert(base64_url(tag) != provided@);
                Err(RequestSecurityError::InvalidCsrfToken)
            },
            Some(decoded) => {
                let message = Self::message_bytes(credential_binding);
                proof {
                    if base64_url(tag) == base64_url(decoded@) {
                        law_base64_loses_nothing(tag, decoded@);
                    }
                }
                if mac_verifies(
                    self.csrf_secret.as_slice(),
                    message.as_slice(),
                    decoded.as_slice(),
                ) {
                    Ok(())
                } else {
                    Err(RequestSecurityError::InvalidCsrfToken)
                }
            },
        }
    }
}

/// The token of a credential is accepted for that credential.
pub proof fn law_own_token_is_accepted(security: SecurityView, credential_binding: Seq<char>)
    ensures
        security.csrf_check(credential_binding, security.token_of(credential_binding)) is Ok,
{
}

/// Different credentials authenticate different messages.
pub proof fn law_credentials_have_their_own_messages(a: Seq<char>, b: Seq<char>)
    requires
        csrf_message(a) == csrf_message(b),
    ensures
        a == b,
{
    encode_utf8_decode_utf8(CSRF_LABEL@ + a);
    encode_utf8_decode_utf8(CSRF_LABEL@ + b);
    assert((CSRF_LABEL@ + a).skip(CSRF_LABEL@.len() as int) =~= a);
    assert((CSRF_LABEL@ + b).skip(CSRF_LABEL@.len() as int) =~= b);
}

/// The token of one credential is refused for another one, unless HMAC gives their different
/// messages one tag.
pub proof fn law_token_is_bound_to_its_credential(
    security: SecurityView,
    issued_for: Seq<char>,
    presented_for: Seq<char>,
)
    requires
        issued_for != presented_for,
    ensures
        csrf_message(issued_for) != csrf_message(presented_for),
        hmac_sha256(security.csrf_secret, csrf_message(issued_for)) != hmac_sha256(
            security.csrf_secret,
            csrf_message(presented_for),
        ) ==> security.csrf_check(presented_for, security.token_of(issued_for)) == Err::<
            (),
            RequestSecurityError,
        >(RequestSecurityError::InvalidCsrfToken),
{
    if csrf_message(issued_for) == csrf_message(presented_for) {
        law_credentials_have_their_own_messages(issued_for, presented_for);
    }
    if security.token_of(presented_for) == security.token_of(issued_for) {
        law_base64_loses_nothing(
            hmac_sha256(security.csrf_secret, csrf_message(issued_for)),
            hmac_sha256(security.csrf_secret, csrf_message(presented_for)),
        );
    }
}

/// A token stands in a page as it is: escaping leaves it unchanged.
pub proof fn law_token_survives_escaping(security: SecurityView, credential_binding: Seq<char>)
    ensures
        escaped(security.token_of(credential_binding)) == security.token_of(credential_binding),
{
    let tag = hmac_sha256(security.csrf_secret, csrf_message(credential_binding));
    law_base64_is_plain_text(tag);
    assert forall|i: int| 0 <= i < base64_url(tag).len() implies !is_markup_char(
        #[trigger] base64_url(tag)[i],
    ) by {}
    law_plain_text_is_unchanged(base64_url(tag));
}

/// A request is accepted by the host check only if it has exactly one `Host` header, which is
/// the customer host in some ASCII case; and every such request is.
pub proof fn law_exactly_one_host(security: SecurityView, headers: HeaderMap<HeaderValue>)
    ensures
        security.host_check(headers) is Ok <==> {
            let hosts = header_texts(headers, "host"@);
            &&& hosts.len() == 1
            &&& hosts[0] matches Some(host)
            &&& ascii_lowered(host) == ascii_lowered(security.expected_host)
        },
{
}

/// A request is accepted by the same-origin check only if it has exactly one `Host` and exactly
/// one `Origin` header, both of the customer origin; in particular no other origin is accepted,
/// a same-site sibling no more than a foreign site.
pub proof fn law_same_origin_means_the_exact_origin(
    security: SecurityView,
    headers: HeaderMap<HeaderValue>,
)
    requires
        security.same_origin_check(headers) is Ok,
    ensures
        security.host_check(headers) is Ok,
        header_values(headers, "host"@).len() == 1,
        header_texts(headers, "origin"@) == seq![Some(security.expected_origin)],
        first_text(header_texts(headers, "sec-fetch-site"@)) matches Some(site)
            ==> !is_foreign_site(site),
{
    assert(header_texts(headers, "origin"@) =~= seq![Some(security.expected_origin)]);
}

/// The API check accepts a request with an `Origin` header only where the same-origin check
/// does, and refuses it with the same error. The two agree on every such request with at most one
/// `Sec-Fetch-Site` value.
pub proof fn law_api_check_agrees_where_an_origin_is_named(
    security: SecurityView,
    headers: HeaderMap<HeaderValue>,
)
    requires
        has_header(headers, "origin"@),
    ensures
        security.same_origin_check(headers) is Err ==> security.api_host_check(headers)
            == security.same_origin_check(headers),
        header_values(headers, "sec-fetch-site"@).len() <= 1 ==> security.api_host_check(headers)
            == security.same_origin_check(headers),
{
}

/// No request that the API check accepts claims a foreign site by its fetch metadata.
pub proof fn law_no_accepted_request_claims_a_foreign_site(
    security: SecurityView,
    headers: HeaderMap<HeaderValue>,
)
    requires
        security.api_host_check(headers) is Ok,
    ensures
        !claims_foreign_site(header_texts(headers, "sec-fetch-site"@)),
{
}

/// A release build accepts settings only where both are set, the origin is an `https` origin,
/// and the secret has its length: it never falls back on a default.
pub proof fn law_release_settings_are_explicit(
    port: u16,
    origin_setting: Option<Seq<char>>,
    secret_setting: Option<Seq<char>>,
)
    requires
        security_from_settings(port, origin_setting, secret_setting, false) is Ok,
    ensures
        set_value(origin_setting) is Some,
        set_value(secret_setting) is Some,
        security_from_settings(port, origin_setting, secret_setting, false) matches Ok(security)
            && "https://"@.is_prefix_of(security.expected_origin) && security.csrf_secret
            == encode_utf8(secret_setting->0) && security.csrf_secret.len()
            >= MIN_CSRF_SECRET_BYTES,
{
}

/// Origin settings that are read as the same URL or as the same bare origin, or neither as a URL.
pub open spec fn read_alike(a: Seq<char>, b: Seq<char>) -> bool {
    match (parsed_url(trimmed(a)), parsed_url(trimmed(b))) {
        (Some(x), Some(y)) => x == y || {
            &&& is_bare_origin(x)
            &&& is_bare_origin(y)
            &&& x.scheme == y.scheme
            &&& x.host == y.host
            &&& x.port == y.port
        },
        (None, None) => true,
        _ => false,
    }
}

/// Origin settings that are read alike make the same checks: whatever else the parser normalizes
/// away, such as the case of the host, a default port or a trailing slash, the checks rest on the
/// scheme, the host and the port alone. Settings that are equal once trimmed are read alike.
pub proof fn law_settings_read_alike_make_the_same_checks(
    a: Seq<char>,
    b: Seq<char>,
    csrf_secret: Seq<u8>,
    headers: HeaderMap<HeaderValue>,
)
    ensures
        trimmed(a) == trimmed(b) ==> read_alike(a, b),
        read_alike(a, b) ==> security_of(a, csrf_secret) == security_of(b, csrf_secret),
        read_alike(a, b) ==> match (security_of(a, csrf_secret), security_of(b, csrf_secret)) {
            (Ok(s), Ok(r)) => {
                &&& s.host_check(headers) == r.host_check(headers)
                &&& s.same_origin_check(headers) == r.same_origin_check(headers)
                &&& s.api_host_check(headers) == r.api_host_check(headers)
            },
            (Err(s), Err(r)) => s == r,
            _ => false,
        },
{
}

/// White space at the ends of an origin setting makes no difference to the checks.
pub proof fn law_blanks_around_an_origin_make_no_difference(
    before: Seq<char>,
    origin: Seq<char>,
    after: Seq<char>,
    csrf_secret: Seq<u8>,
)
    requires
        is_blank(before),
        is_blank(after),
    ensures
        security_of(before + origin + after, csrf_secret) == security_of(origin, csrf_secret),
{
    law_blanks_are_trimmed(before, origin, after);
}

/// Two ways to write one plain origin make the same checks: the case of the host, the default port
/// of the scheme, a final slash and white space at the ends make no difference.
/// `RequestSecurity::new` makes the checks that this law speaks of.
pub proof fn law_ways_to_write_an_origin_make_the_same_checks(
    a: PlainOrigin,
    b: PlainOrigin,
    before: Seq<char>,
    after: Seq<char>,
    csrf_secret: Seq<u8>,
    headers: HeaderMap<HeaderValue>,
)
    requires
        a.wf(),
        b.wf(),
        a.scheme == b.scheme,
        ascii_lowered(a.host) == ascii_lowered(b.host),
        a.own_port() == b.own_port(),
        is_blank(before),
        is_blank(after),
    ensures
        trimmed(before + a.text() + after) == a.text(),
        plain_security(a, csrf_secret) == plain_security(b, csrf_secret),
        plain_security(a, csrf_secret).host_check(headers) == plain_security(
            b,
            csrf_secret,
        ).host_check(headers),
        plain_security(a, csrf_secret).same_origin_check(headers) == plain_security(
            b,
            csrf_secret,
        ).same_origin_check(headers),
        plain_security(a, csrf_secret).api_host_check(headers) == plain_security(
            b,
            csrf_secret,
        ).api_host_check(headers),
{
    law_blanks_are_trimmed(before, a.text(), after);
    lemma_plain_text_is_trimmed(a);
}

/// What both settings are set to decides in either kind of build, but for the demand of `https`.
pub proof fn law_builds_differ_only_in_defaults_and_https(
    port: u16,
    origin_setting: Option<Seq<char>>,
    secret_setting: Option<Seq<char>>,
)
    requires
        set_value(origin_setting) is Some,
        set_value(secret_setting) is Some,
    ensures
        security_from_settings(port, origin_setting, secret_setting, true) == security_of(
            origin_setting->0,
            encode_utf8(secret_setting->0),
        ),
        security_from_settings(port, origin_setting, secret_setting, false) is Ok
            ==> security_from_settings(port, origin_setting, secret_setting, false)
            == security_from_settings(port, origin_setting, secret_setting, true),
{
}

/// The token of a credential is the URL-safe base64 text of the tag, under the signing secret, of the
/// label and the credential; for a credential its own token is accepted and every other text refused.
pub proof fn law_token_is_the_tag_of_its_credential(
    security: SecurityView,
    credential_binding: Seq<char>,
    provided: Seq<char>,
)
    ensures
        ({
            let token = base64_url(
                hmac_sha256(
                    security.csrf_secret,
                    encode_utf8("fiducia-customer-csrf-v1\0"@ + credential_binding),
                ),
            );
            &&& security.token_of(credential_binding) == token
            &&& provided == token ==> security.csrf_check(credential_binding, provided) is Ok
            &&& provided != token ==> security.csrf_check(credential_binding, provided) == Err::<
                (),
                RequestSecurityError,
            >(RequestSecurityError::InvalidCsrfToken)
        }),
{
}

/// Every verdict of the host check, and when it is given.
pub proof fn law_host_verdicts(security: SecurityView, headers: HeaderMap<HeaderValue>)
    ensures
        ({
            let hosts = header_texts(headers, "host"@);
            let verdict = security.host_check(headers);
            &&& hosts.len() == 0 || hosts[0] is None ==> verdict == Err::<(), RequestSecurityError>(
                RequestSecurityError::MissingHost,
            )
            &&& hosts.len() > 1 && hosts[0] is Some ==> verdict == Err::<(), RequestSecurityError>(
                RequestSecurityError::AmbiguousHost,
            )
            &&& hosts.len() == 1 && hosts[0] is Some && ascii_lowered(hosts[0]->0)
                != ascii_lowered(security.expected_host) ==> verdict == Err::<
                (),
                RequestSecurityError,
            >(RequestSecurityError::MismatchedHost)
            &&& hosts.len() == 1 && hosts[0] is Some && ascii_lowered(hosts[0]->0)
                == ascii_lowered(security.expected_host) ==> verdict is Ok
        }),
{
}

/// Every verdict of the same-origin check on a request to the customer host, and when it is given; a
/// request to another host gets the verdict of the host check.
pub proof fn law_same_origin_verdicts(security: SecurityView, headers: HeaderMap<HeaderValue>)
    ensures
        security.host_check(headers) is Err ==> security.same_origin_check(headers)
            == security.host_check(headers),
        security.host_check(headers) is Ok ==> {
            let origins = header_texts(headers, "origin"@);
            let sites = header_texts(headers, "sec-fetch-site"@);
            let own = origins.len() == 1 && origins[0] == Some(security.expected_origin);
            let foreign = sites.len() > 0 && sites[0] is Some && sites[0] != Some("same-origin"@)
                && sites[0] != Some("none"@);
            let verdict = security.same_origin_check(headers);
            &&& origins.len() == 0 || origins[0] is None ==> verdict == Err::<
                (),
                RequestSecurityError,
            >(RequestSecurityError::MissingOrigin)
            &&& origins.len() > 1 && origins[0] is Some ==> verdict == Err::<
                (),
                RequestSecurityError,
            >(RequestSecurityError::AmbiguousOrigin)
            &&& origins.len() == 1 && origins[0] is Some && !own ==> verdict == Err::<
                (),
                RequestSecurityError,
            >(RequestSecurityError::MismatchedOrigin)
            &&& own && foreign ==> verdict == Err::<(), RequestSecurityError>(
                RequestSecurityError::CrossSiteFetch,
            )
            &&& own && !foreign ==> verdict is Ok
        },
{
}

/// Every verdict of the API check: that of the host check where it refuses, that of the same-origin
/// check where an origin is named and refused, and else a refusal exactly where some fetch metadata
/// that can be read names another site.
pub proof fn law_api_verdicts(security: SecurityView, headers: HeaderMap<HeaderValue>)
    ensures
        security.host_check(headers) is Err ==> security.api_host_check(headers)
            == security.host_check(headers),
        security.host_check(headers) is Ok ==> {
            let sites = header_texts(headers, "sec-fetch-site"@);
            let foreign = exists|i: int|
                0 <= i < sites.len() && (#[trigger] sites[i]) is Some && sites[i] != Some(
                    "same-origin"@,
                ) && sites[i] != Some("none"@);
            let refused = has_header(headers, "origin"@) && security.same_origin_check(
                headers,
            ) is Err;
            let verdict = security.api_host_check(headers);
            &&& refused ==> verdict == security.same_origin_check(headers)
            &&& !refused && foreign ==> verdict == Err::<(), RequestSecurityError>(
                RequestSecurityError::CrossSiteFetch,
            )
            &&& !refused && !foreign ==> verdict is Ok
        },
{
    let sites = header_texts(headers, "sec-fetch-site"@);
    if claims_foreign_site(sites) {
        let i = choose|i: int|
            0 <= i < sites.len() && (#[trigger] sites[i] matches Some(site) && is_foreign_site(
                site,
            ));
        assert(sites[i] is Some && sites[i] != Some("same-origin"@) && sites[i] != Some("none"@));
    }
    if exists|i: int|
        0 <= i < sites.len() && (#[trigger] sites[i]) is Some && sites[i] != Some("same-origin"@)
            && sites[i] != Some("none"@) {
        let i = choose|i: int|
            0 <= i < sites.len() && (#[trigger] sites[i]) is Some && sites[i] != Some(
                "same-origin"@,
            ) && sites[i] != Some("none"@);
        assert(sites[i] matches Some(site) && is_foreign_site(site));
    }
}

/// A secret of fewer than 32 bytes is refused before the origin is looked at; a longer one is kept as
/// it is, beside the origin and the host that the setting stands for.
pub proof fn law_settings_are_kept_as_they_are(origin: Seq<char>, csrf_secret: Seq<u8>)
    ensures
        csrf_secret.len() < 32 ==> security_of(origin, csrf_secret) == Err::<SecurityView, _>(
            SettingsError::SecretTooShort,
        ),
        csrf_secret.len() >= 32 ==> match customer_origin_setting(origin) {
            Ok(accepted) => security_of(origin, csrf_secret) matches Ok(security)
                && security.expected_origin == accepted.origin && security.expected_host
                == accepted.host && security.csrf_secret == csrf_secret,
            Err(error) => security_of(origin, csrf_secret) == Err::<SecurityView, _>(error),
        },
{
}

/// What the settings of the environment come to, in either kind of build: blank ones count as unset;
/// unset ones are refused in a release build, the origin first, and stand for the loopback origin of
/// the port and the fixed key in a debug build; and a release build refuses an origin without TLS.
pub proof fn law_environment_settings(
    port: u16,
    origin_setting: Option<Seq<char>>,
    secret_setting: Option<Seq<char>>,
    debug_build: bool,
)
    ensures
        ({
            let result = security_from_settings(port, origin_setting, secret_setting, debug_build);
            let has_origin = origin_setting matches Some(text) && trimmed(text).len() > 0;
            let has_secret = secret_setting matches Some(text) && trimmed(text).len() > 0;
            let origin = if has_origin {
                origin_setting->0
            } else {
                "http://127.0.0.1:"@ + decimal(port as nat)
            };
            let secret = encode_utf8(
                if has_secret {
                    secret_setting->0
                } else {
                    "fiducia-customer-debug-only-csrf-key-never-production"@
                },
            );
            let checks = security_of(origin, secret);
            &&& !debug_build && !has_origin ==> result == Err::<SecurityView, _>(
                SettingsError::OriginUnset,
            )
            &&& !debug_build && has_origin && !has_secret ==> result == Err::<SecurityView, _>(
                SettingsError::SecretUnset,
            )
            &&& (debug_build || (has_origin && has_secret)) && checks is Err ==> result == checks
            &&& (debug_build || (has_origin && has_secret)) && checks is Ok && !debug_build
                && !"https://"@.is_prefix_of(checks->Ok_0.expected_origin) ==> result == Err::<
                SecurityView,
                _,
            >(SettingsError::OriginNotHttps)
            &&& (debug_build || (has_origin && has_secret)) && checks is Ok && (debug_build
                || "https://"@.is_prefix_of(checks->Ok_0.expected_origin)) ==> result == checks
        }),
{
}

/// Every refusal has the code that its name spells.
pub proof fn law_refusals_have_their_codes()
    ensures
        RequestSecurityError::AmbiguousHost.spec_code() == "ambiguous_host"@,
        RequestSecurityError::AmbiguousOrigin.spec_code() == "ambiguous_origin"@,
        RequestSecurityError::CrossSiteFetch.spec_code() == "cross_site_fetch"@,
        RequestSecurityError::InvalidCsrfToken.spec_code() == "invalid_csrf_token"@,
        RequestSecurityError::MissingHost.spec_code() == "missing_host"@,
        RequestSecurityError::MissingOrigin.spec_code() == "missing_origin"@,
        RequestSecurityError::MismatchedHost.spec_code() == "mismatched_host"@,
        RequestSecurityError::MismatchedOrigin.spec_code() == "mismatched_origin"@,
{
}

} // verus!
