//! The customer origin: one bare `http(s)` scheme and authority.

use crate::text::{
    after_last, ascii_lowered, decimal, decimal_text, lemma_decimal_digits, opt_string, same_text,
    trim, trimmed, without_leading_space, without_trailing_space,
};
use vstd::prelude::*;

verus! {

/// Why the security settings were refused.
#[derive(Clone, Copy, Debug, PartialEq, Eq, Structural)]
pub enum SettingsError {
    OriginUnset,
    OriginNotAbsolute,
    OriginNotBare,
    OriginNotHttps,
    SecretUnset,
    SecretTooShort,
}

impl SettingsError {
    /// The message for each error.
    pub open spec fn spec_message(self) -> Seq<char> {
        match self {
            SettingsError::OriginUnset => "CUSTOMER_APP_ORIGIN must be set"@,
            SettingsError::OriginNotAbsolute => "CUSTOMER_APP_ORIGIN must be an absolute URL"@,
            SettingsError::OriginNotBare =>
                "CUSTOMER_APP_ORIGIN must contain only http(s) scheme and authority"@,
            SettingsError::OriginNotHttps => "CUSTOMER_APP_ORIGIN must use https in release builds"@,
            SettingsError::SecretUnset => "FIDUCIA_CUSTOMER_CSRF_SECRET must be set"@,
            SettingsError::SecretTooShort =>
                "FIDUCIA_CUSTOMER_CSRF_SECRET must contain at least 32 bytes"@,
        }
    }

    /// The message that tells the operator what to set.
    pub fn message(self) -> (r: &'static str)
        ensures
            r@ == self.spec_message(),
    {
        match self {
            SettingsError::OriginUnset => "CUSTOMER_APP_ORIGIN must be set",
            SettingsError::OriginNotAbsolute => "CUSTOMER_APP_ORIGIN must be an absolute URL",
            SettingsError::OriginNotBare =>
                "CUSTOMER_APP_ORIGIN must contain only http(s) scheme and authority",
            SettingsError::OriginNotHttps => "CUSTOMER_APP_ORIGIN must use https in release builds",
            SettingsError::SecretUnset => "FIDUCIA_CUSTOMER_CSRF_SECRET must be set",
            SettingsError::SecretTooShort =>
                "FIDUCIA_CUSTOMER_CSRF_SECRET must contain at least 32 bytes",
        }
    }
}

/// The parts of an absolute URL, as text `T`.
#[derive(Clone, Debug, PartialEq, Eq)]
pub struct UrlParts<T> {
    pub scheme: T,
    pub username: T,
    pub password: Option<T>,
    pub host: Option<T>,
    pub port: Option<u16>,
    pub path: T,
    pub query: Option<T>,
    pub fragment: Option<T>,
}

impl View for UrlParts<String> {
    type V = UrlParts<Seq<char>>;

    open spec fn view(&self) -> UrlParts<Seq<char>> {
        UrlParts {
            scheme: self.scheme@,
            username: self.username@,
            password: opt_string(self.password),
            host: opt_string(self.host),
            port: self.port,
            path: self.path@,
            query: opt_string(self.query),
            fragment: opt_string(self.fragment),
        }
    }
}

/// The parts that an optional URL has.
pub open spec fn opt_parts(url: Option<UrlParts<String>>) -> Option<UrlParts<Seq<char>>> {
    match url {
        Some(url) => Some(url@),
        None => None,
    }
}

/// `host` with the port behind it, where there is one.
pub open spec fn authority(host: Seq<char>, port: Option<u16>) -> Seq<char> {
    match port {
        Some(port) => host + ":"@ + decimal(port as nat),
        None => host,
    }
}

/// The schemes of a web origin.
pub open spec fn is_web_scheme(scheme: Seq<char>) -> bool {
    scheme == "http"@ || scheme == "https"@
}

/// An ASCII letter.
pub open spec fn is_letter(c: char) -> bool {
    ('a' <= c && c <= 'z') || ('A' <= c && c <= 'Z')
}

/// A dot or a hyphen.
pub open spec fn is_separator(c: char) -> bool {
    c == '.' || c == '-'
}

/// The loopback address, or a host name of ASCII letters, digits, dots and hyphens, in which no
/// two separators meet, none stands at an end, and the last label is made of letters.
pub open spec fn is_plain_host(host: Seq<char>) -> bool {
    ||| host == "127.0.0.1"@
    ||| {
        &&& 0 < host.len() <= 253
        &&& forall|i: int|
            0 <= i < host.len() ==> is_letter(#[trigger] host[i]) || is_separator(host[i]) || (
            '0' <= host[i] && host[i] <= '9')
        &&& !is_separator(host[0])
        &&& forall|i: int|
            0 < i < host.len() && is_separator(#[trigger] host[i]) ==> !is_separator(host[i - 1])
        &&& after_last(host, '.').len() > 0
        &&& forall|i: int|
            0 <= i < after_last(host, '.').len() ==> is_letter(#[trigger] after_last(host, '.')[i])
    }
}

/// The port that a web scheme stands for by itself.
pub open spec fn default_port(scheme: Seq<char>) -> u16 {
    if scheme == "https"@ {
        443
    } else {
        80
    }
}

/// The pieces of an origin that is written out plainly: nothing but a web scheme, a plain host,
/// perhaps a port, and perhaps a final slash.
pub struct PlainOrigin {
    pub scheme: Seq<char>,
    pub host: Seq<char>,
    pub port: Option<u16>,
    pub slash: bool,
}

impl PlainOrigin {
    /// Whether the pieces are of that kind.
    pub open spec fn wf(self) -> bool {
        is_web_scheme(self.scheme) && is_plain_host(self.host)
    }

    /// The text that the pieces make.
    pub open spec fn text(self) -> Seq<char> {
        self.scheme + "://"@ + authority(self.host, self.port) + (if self.slash {
            "/"@
        } else {
            ""@
        })
    }

    /// The port, where it is not the one of the scheme.
    pub open spec fn own_port(self) -> Option<u16> {
        if self.port == Some(default_port(self.scheme)) {
            None
        } else {
            self.port
        }
    }

    /// The URL that the text is.
    pub open spec fn parts(self) -> UrlParts<Seq<char>> {
        UrlParts {
            scheme: self.scheme,
            username: Seq::empty(),
            password: None,
            host: Some(ascii_lowered(self.host)),
            port: self.own_port(),
            path: "/"@,
            query: None,
            fragment: None,
        }
    }

    /// The customer origin that the text stands for: the host in lower case, and no default port.
    pub open spec fn accepted(self) -> CustomerOrigin<Seq<char>> {
        let host = authority(ascii_lowered(self.host), self.own_port());
        CustomerOrigin { origin: self.scheme + "://"@ + host, host }
    }
}

/// A plain origin has no white space at its ends.
pub proof fn lemma_plain_text_is_trimmed(plain: PlainOrigin)
    requires
        plain.wf(),
    ensures
        trimmed(plain.text()) == plain.text(),
{
    reveal_strlit("http");
    reveal_strlit("https");
    reveal_strlit("://");
    reveal_strlit("/");
    reveal_strlit("");
    reveal_strlit(":");
    reveal_strlit("127.0.0.1");
    let text = plain.text();
    assert(text[0] == plain.scheme[0]);
    if plain.slash {
        assert(text.last() == '/');
    } else {
        let shown = authority(plain.host, plain.port);
        match plain.port {
            Some(port) => {
                lemma_decimal_digits(port as nat);
                assert(shown.last() == decimal(port as nat).last());
            },
            None => {
                assert(shown.last() == plain.host.last());
                assert(after_last(plain.host, '.').len() > 0 ==> plain.host.last() != '.');
            },
        }
        assert(text.last() == shown.last());
    }
    assert(without_leading_space(text) == text);
    assert(without_trailing_space(text) == text);
}

/// The parts of the URL that a text is, where it is an absolute URL.
pub uninterp spec fn parsed_url(text: Seq<char>) -> Option<UrlParts<Seq<char>>>;

/// `reqwest::Url::parse`, its result read part by part with the accessors of `Url`. Which parts a
/// text has is left to their name, but that an `http` or `https` URL has a host, and that an
/// origin which is written out plainly has no parts beside the scheme, the host in lower case, the
/// port where it is not the default one, and the path `/`.
#[verifier::external_body]
fn parse_url(text: &str) -> (r: Option<UrlParts<String>>)
    ensures
        opt_parts(r) == parsed_url(text@),
        r matches Some(url) ==> is_web_scheme(url.scheme@) ==> url.host is Some,
        forall|plain: PlainOrigin|
            plain.wf() && text@ == #[trigger] plain.text() ==> opt_parts(r) == Some(plain.parts()),
{
    let url = reqwest::Url::parse(text).ok()?;
    Some(UrlParts {
        scheme: url.scheme().to_owned(),
        username: url.username().to_owned(),
        password: url.password().map(str::to_owned),
        host: url.host_str().map(str::to_owned),
        port: url.port(),
        path: url.path().to_owned(),
        query: url.query().map(str::to_owned),
        fragment: url.fragment().map(str::to_owned),
    })
}

/// An origin and the host that requests to it name, as text `T`.
#[derive(Clone, Debug, PartialEq, Eq)]
pub struct CustomerOrigin<T> {
    pub origin: T,
    pub host: T,
}

impl View for CustomerOrigin<String> {
    type V = CustomerOrigin<Seq<char>>;

    open spec fn view(&self) -> CustomerOrigin<Seq<char>> {
        CustomerOrigin { origin: self.origin@, host: self.host@ }
    }
}

/// Whether a URL is nothing but a web scheme and an authority without user information.
pub open spec fn is_bare_origin(url: UrlParts<Seq<char>>) -> bool {
    &&& is_web_scheme(url.scheme)
    &&& url.host is Some
    &&& url.username.len() == 0
    &&& url.password is None
    &&& url.query is None
    &&& url.fragment is None
    &&& url.path == "/"@
}

/// The customer origin that a parsed URL stands for.
pub open spec fn customer_origin_of(url: Option<UrlParts<Seq<char>>>) -> Result<
    CustomerOrigin<Seq<char>>,
    SettingsError,
> {
    match url {
        None => Err(SettingsError::OriginNotAbsolute),
        Some(url) => if is_bare_origin(url) {
            let host = authority(url.host->0, url.port);
            Ok(CustomerOrigin { origin: url.scheme + "://"@ + host, host })
        } else {
            Err(SettingsError::OriginNotBare)
        },
    }
}

/// Accepts a parsed URL that is a bare web origin, and refuses any other.
pub fn customer_origin(url: Option<UrlParts<String>>) -> (r: Result<
    CustomerOrigin<String>,
    SettingsError,
>)
    ensures
        match r {
            Ok(origin) => customer_origin_of(opt_parts(url)) == Ok::<_, SettingsError>(origin@),
            Err(error) => customer_origin_of(opt_parts(url)) == Err::<
                CustomerOrigin<Seq<char>>,
                _,
            >(error),
        },
{
    match url {
        None => Err(SettingsError::OriginNotAbsolute),
        Some(url) => {
            let web = same_text(url.scheme.as_str(), "http") || same_text(
                url.scheme.as_str(),
                "https",
            );
            if !web || !url.username.as_str().is_empty() || url.password.is_some()
                || url.query.is_some() || url.fragment.is_some() || !same_text(
                url.path.as_str(),
                "/",
            ) {
                return Err(SettingsError::OriginNotBare);
            }
            match url.host {
                None => Err(SettingsError::OriginNotBare),
                Some(host) => {
                    let mut expected_host = host;
                    if let Some(port) = url.port {
                        expected_host.append(":");
                        let numeral = decimal_text(port as u64);
                        expected_host.append(numeral.as_str());
                    }
                    let mut expected_origin = url.scheme;
                    expected_origin.append("://");
                    expected_origin.append(expected_host.as_str());
                    Ok(CustomerOrigin { origin: expected_origin, host: expected_host })
                },
            }
        },
    }
}

/// The customer origin that a setting stands for.
pub open spec fn customer_origin_setting(setting: Seq<char>) -> Result<
    CustomerOrigin<Seq<char>>,
    SettingsError,
> {
    customer_origin_of(parsed_url(trimmed(setting)))
}

/// A setting that is accepted is a web scheme and the host that requests have to name.
pub open spec fn is_web_origin(accepted: CustomerOrigin<Seq<char>>) -> bool {
    ||| accepted.origin == "http"@ + "://"@ + accepted.host
    ||| accepted.origin == "https"@ + "://"@ + accepted.host
}

/// Whether a setting that is a plain origin, white space at its ends aside, is accepted for what
/// it stands for.
pub open spec fn accepts_plain_origins(
    setting: Seq<char>,
    r: Result<CustomerOrigin<Seq<char>>, SettingsError>,
) -> bool {
    forall|plain: PlainOrigin|
        plain.wf() && trimmed(setting) == #[trigger] plain.text() ==> r == Ok::<_, SettingsError>(
            plain.accepted(),
        )
}

/// Parses an origin setting, white space at its ends aside.
pub fn parse_origin_setting(setting: &str) -> (r: Result<CustomerOrigin<String>, SettingsError>)
    ensures
        match r {
            Ok(origin) => customer_origin_setting(setting@) == Ok::<_, SettingsError>(origin@)
                && is_web_origin(origin@),
            Err(error) => customer_origin_setting(setting@) == Err::<
                CustomerOrigin<Seq<char>>,
                _,
            >(error),
        },
        accepts_plain_origins(setting@, customer_origin_setting(setting@)),
{
    customer_origin(parse_url(trim(setting)))
}

/// The exact origin that cross-origin responses are allowed to name.
pub fn parse_customer_app_origin(setting: &str) -> (r: Result<String, SettingsError>)
    ensures
        match r {
            Ok(origin) => customer_origin_setting(setting@) matches Ok(accepted) && origin@
                == accepted.origin && is_web_origin(accepted),
            Err(error) => customer_origin_setting(setting@) == Err::<
                CustomerOrigin<Seq<char>>,
                _,
            >(error),
        },
        accepts_plain_origins(setting@, customer_origin_setting(setting@)),
{
    match parse_origin_setting(setting) {
        Ok(accepted) => Ok(accepted.origin),
        Err(error) => Err(error),
    }
}

/// A URL is accepted exactly where it is `http` or `https` with a host, the path `/`, and neither user
/// information nor a query nor a fragment; and it is accepted as its scheme, host and port.
pub proof fn law_only_bare_web_origins_are_accepted(url: UrlParts<Seq<char>>)
    ensures
        customer_origin_of(None) == Err::<CustomerOrigin<Seq<char>>, _>(
            SettingsError::OriginNotAbsolute,
        ),
        ({
            let bare = (url.scheme == "http"@ || url.scheme == "https"@) && url.host is Some
                && url.username == Seq::<char>::empty() && url.password is None && url.query is None
                && url.fragment is None && url.path == "/"@;
            let host = match url.port {
                Some(port) => url.host->0 + ":"@ + decimal(port as nat),
                None => url.host->0,
            };
            &&& !bare ==> customer_origin_of(Some(url)) == Err::<CustomerOrigin<Seq<char>>, _>(
                SettingsError::OriginNotBare,
            )
            &&& bare ==> (customer_origin_of(Some(url)) matches Ok(accepted) && accepted.host
                == host && accepted.origin == url.scheme + "://"@ + host)
        }),
{
    if url.username.len() == 0 {
        assert(url.username =~= Seq::<char>::empty());
    }
}

/// A setting is read as the URL that is left once the white space at its ends is gone.
pub proof fn law_settings_are_read_trimmed(setting: Seq<char>)
    ensures
        customer_origin_setting(setting) == customer_origin_of(parsed_url(trimmed(setting))),
{
}

/// Every error names the setting that is at fault, and what is wrong with it.
pub proof fn law_settings_errors_name_their_setting()
    ensures
        SettingsError::OriginUnset.spec_message() == "CUSTOMER_APP_ORIGIN must be set"@,
        SettingsError::OriginNotAbsolute.spec_message()
            == "CUSTOMER_APP_ORIGIN must be an absolute URL"@,
        SettingsError::OriginNotBare.spec_message()
            == "CUSTOMER_APP_ORIGIN must contain only http(s) scheme and authority"@,
        SettingsError::OriginNotHttps.spec_message()
            == "CUSTOMER_APP_ORIGIN must use https in release builds"@,
        SettingsError::SecretUnset.spec_message()
            == "FIDUCIA_CUSTOMER_CSRF_SECRET must be set"@,
        SettingsError::SecretTooShort.spec_message()
            == "FIDUCIA_CUSTOMER_CSRF_SECRET must contain at least 32 bytes"@,
{
}

} // verus!
