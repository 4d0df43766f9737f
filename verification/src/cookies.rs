//! The cookies of the customer application: their names, lifetimes and attributes.

use crate::headers::{header_safe, is_header_value, lemma_header_safe_concat};
use crate::request_cookies::{cookie_in_lines, law_cookie_is_read_back};
use crate::text::{
    ascii_lower, ascii_lowered, before_first, decimal, decimal_text, eq_ignore_ascii_case,
    is_without, lemma_before_first, lemma_decimal_digits, opt_str, opt_string, trim, trimmed,
};
use vstd::prelude::*;

verus! {

/// How long a login page stays bound to its nonce.
pub const LOGIN_CSRF_MAX_AGE_SECS: u64 = 600;

/// How long a session cookie lives.
pub const SESSION_MAX_AGE_SECS: u64 = 3600;

/// How long the token of a half-finished step-up lives.
pub const MFA_PENDING_MAX_AGE_SECS: u64 = 300;

/// The attributes of every cookie, up to the number of its lifetime.
pub const COOKIE_ATTRIBUTES: &'static str = "; Path=/; HttpOnly; SameSite=Strict; Max-Age=";

/// The attribute by which a browser sends the cookie over TLS only.
pub const SECURE_ATTRIBUTE: &'static str = "; Secure";

/// Whether a setting switches something on: `1` or `true` in any ASCII case, white space at its
/// ends aside.
pub open spec fn is_enabled(value: Option<Seq<char>>) -> bool {
    match value {
        Some(value) => ascii_lowered(trimmed(value)) == "1"@ || ascii_lowered(trimmed(value))
            == "true"@,
        None => false,
    }
}

/// Whether a setting explicitly switches something on.
pub fn explicitly_enabled(value: Option<&str>) -> (r: bool)
    ensures
        r == is_enabled(opt_str(value)),
{
    match value {
        Some(value) => {
            proof {
                reveal_strlit("1");
                reveal_strlit("true");
                assert(ascii_lowered("1"@) =~= "1"@);
                assert(ascii_lowered("true"@) =~= "true"@);
            }
            let setting = trim(value);
            eq_ignore_ascii_case(setting, "1") || eq_ignore_ascii_case(setting, "true")
        },
        None => false,
    }
}

/// The secure attribute, left out only in a build that is not release-hardened and where
/// insecure HTTP was explicitly enabled.
pub open spec fn secure_suffix(
    release_hardened: bool,
    insecure_http_explicitly_enabled: bool,
) -> Seq<char> {
    if release_hardened || !insecure_http_explicitly_enabled {
        SECURE_ATTRIBUTE@
    } else {
        Seq::empty()
    }
}

/// The suffix that cookies get: the secure attribute or nothing.
pub fn cookie_secure_suffix_for(
    release_hardened: bool,
    insecure_http_explicitly_enabled: bool,
) -> (r: &'static str)
    ensures
        r@ == secure_suffix(release_hardened, insecure_http_explicitly_enabled),
{
    if release_hardened || !insecure_http_explicitly_enabled {
        SECURE_ATTRIBUTE
    } else {
        proof {
            reveal_strlit("");
        }
        assert(""@ =~= Seq::<char>::empty());
        ""
    }
}

/// The names of the three cookies and what decides on their secure attribute, as text `T`.
#[derive(Clone, Debug)]
pub struct CookiePolicy<T> {
    pub login_csrf: T,
    pub session: T,
    pub mfa_pending: T,
    /// Release builds always emit secure cookies.
    pub release_hardened: bool,
    /// The value of `FIDUCIA_INSECURE_COOKIES`.
    pub insecure_setting: Option<T>,
}

impl View for CookiePolicy<String> {
    type V = CookiePolicy<Seq<char>>;

    open spec fn view(&self) -> CookiePolicy<Seq<char>> {
        CookiePolicy {
            login_csrf: self.login_csrf@,
            session: self.session@,
            mfa_pending: self.mfa_pending@,
            release_hardened: self.release_hardened,
            insecure_setting: opt_string(self.insecure_setting),
        }
    }
}

/// The text of a cookie.
pub open spec fn cookie_text(
    name: Seq<char>,
    value: Seq<char>,
    max_age: u64,
    suffix: Seq<char>,
) -> Seq<char> {
    name + "="@ + value + COOKIE_ATTRIBUTES@ + decimal(max_age as nat) + suffix
}

impl CookiePolicy<Seq<char>> {
    /// The names can stand in a header.
    pub open spec fn wf(self) -> bool {
        &&& header_safe(self.login_csrf)
        &&& header_safe(self.session)
        &&& header_safe(self.mfa_pending)
    }

    /// The names are cookie names and differ from each other.
    pub open spec fn names_differ(self) -> bool {
        &&& is_cookie_name(self.login_csrf)
        &&& is_cookie_name(self.session)
        &&& is_cookie_name(self.mfa_pending)
        &&& self.session != self.login_csrf
        &&& self.session != self.mfa_pending
        &&& self.login_csrf != self.mfa_pending
    }

    /// The suffix of every cookie.
    pub open spec fn suffix(self) -> Seq<char> {
        secure_suffix(self.release_hardened, is_enabled(self.insecure_setting))
    }

    /// The cookie that binds a login page to its nonce.
    pub open spec fn login_csrf_cookie(self, nonce: Seq<char>) -> Seq<char> {
        cookie_text(self.login_csrf, nonce, LOGIN_CSRF_MAX_AGE_SECS, self.suffix())
    }

    /// The cookie that ends a login page's binding.
    pub open spec fn cleared_login_csrf_cookie(self) -> Seq<char> {
        cookie_text(self.login_csrf, Seq::empty(), 0, self.suffix())
    }

    /// The cookie that carries a session.
    pub open spec fn session_cookie(self, token: Seq<char>) -> Seq<char> {
        cookie_text(self.session, token, SESSION_MAX_AGE_SECS, self.suffix())
    }

    /// The cookie that ends a session.
    pub open spec fn cleared_session_cookie(self) -> Seq<char> {
        cookie_text(self.session, Seq::empty(), 0, self.suffix())
    }

    /// The cookie that carries the token of a half-finished step-up.
    pub open spec fn mfa_pending_cookie(self, token: Seq<char>) -> Seq<char> {
        cookie_text(self.mfa_pending, token, MFA_PENDING_MAX_AGE_SECS, self.suffix())
    }

    /// The cookie that ends a half-finished step-up.
    pub open spec fn cleared_mfa_pending_cookie(self) -> Seq<char> {
        cookie_text(self.mfa_pending, Seq::empty(), 0, self.suffix())
    }
}

fn make_cookie(name: &str, value: &str, max_age: u64, suffix: &str) -> (r: String)
    ensures
        r@ == cookie_text(name@, value@, max_age, suffix@),
{
    let mut cookie = name.to_owned();
    cookie.append("=");
    cookie.append(value);
    cookie.append(COOKIE_ATTRIBUTES);
    let seconds = decimal_text(max_age);
    cookie.append(seconds.as_str());
    cookie.append(suffix);
    cookie
}

fn clear_cookie(name: &str, suffix: &str) -> (r: String)
    ensures
        r@ == cookie_text(name@, Seq::empty(), 0, suffix@),
{
    proof {
        reveal_strlit("");
        assert(""@ =~= Seq::<char>::empty());
    }
    make_cookie(name, "", 0, suffix)
}

impl CookiePolicy<String> {
    /// Whether the names can stand in a header.
    pub fn is_wf(&self) -> (r: bool)
        ensures
            r == self@.wf(),
    {
        is_header_value(self.login_csrf.as_str()) && is_header_value(self.session.as_str())
            && is_header_value(self.mfa_pending.as_str())
    }

    /// The suffix of every cookie. `FIDUCIA_INSECURE_COOKIES` has no effect on a release build.
    pub fn cookie_secure_suffix(&self) -> (r: &'static str)
        ensures
            r@ == self@.suffix(),
    {
        let insecure_requested = match &self.insecure_setting {
            Some(setting) => explicitly_enabled(Some(setting.as_str())),
            None => false,
        };
        cookie_secure_suffix_for(self.release_hardened, insecure_requested)
    }

    /// The cookie that binds a login page to its nonce.
    pub fn make_customer_login_csrf_cookie(&self, nonce: &str) -> (r: String)
        ensures
            r@ == self@.login_csrf_cookie(nonce@),
    {
        make_cookie(
            self.login_csrf.as_str(),
            nonce,
            LOGIN_CSRF_MAX_AGE_SECS,
            self.cookie_secure_suffix(),
        )
    }

    /// The cookie that ends a login page's binding.
    pub fn clear_customer_login_csrf_cookie(&self) -> (r: String)
        ensures
            r@ == self@.cleared_login_csrf_cookie(),
    {
        clear_cookie(self.login_csrf.as_str(), self.cookie_secure_suffix())
    }

    /// The cookie that carries a session.
    pub fn make_customer_session_cookie(&self, token: &str) -> (r: String)
        ensures
            r@ == self@.session_cookie(token@),
    {
        make_cookie(
            self.session.as_str(),
            token,
            SESSION_MAX_AGE_SECS,
            self.cookie_secure_suffix(),
        )
    }

    /// The cookie that ends a session.
    pub fn clear_customer_session_cookie(&self) -> (r: String)
        ensures
            r@ == self@.cleared_session_cookie(),
    {
        clear_cookie(self.session.as_str(), self.cookie_secure_suffix())
    }

    /// The cookie that carries the token of a half-finished step-up.
    pub fn make_customer_mfa_pending_cookie(&self, token: &str) -> (r: String)
        ensures
            r@ == self@.mfa_pending_cookie(token@),
    {
        make_cookie(
            self.mfa_pending.as_str(),
            token,
            MFA_PENDING_MAX_AGE_SECS,
            self.cookie_secure_suffix(),
        )
    }

    /// The cookie that ends a half-finished step-up.
    pub fn clear_customer_mfa_pending_cookie(&self) -> (r: String)
        ensures
            r@ == self@.cleared_mfa_pending_cookie(),
    {
        clear_cookie(self.mfa_pending.as_str(), self.cookie_secure_suffix())
    }
}

/// Release builds emit secure cookies whatever the setting says, and so does every build in
/// which insecure HTTP was not explicitly enabled.
pub proof fn law_release_cookies_are_secure(policy: CookiePolicy<Seq<char>>)
    ensures
        policy.release_hardened ==> policy.suffix() == SECURE_ATTRIBUTE@,
        !is_enabled(policy.insecure_setting) ==> policy.suffix() == SECURE_ATTRIBUTE@,
{
}

/// A cookie that scripts cannot read and that other sites cannot send, valid for the whole
/// application.
pub open spec fn is_hardened(cookie: Seq<char>) -> bool {
    exists|head: Seq<char>, tail: Seq<char>| cookie == #[trigger] (head + COOKIE_ATTRIBUTES@ + tail)
}

proof fn lemma_cookie_is_hardened(name: Seq<char>, value: Seq<char>, age: u64, suffix: Seq<char>)
    ensures
        is_hardened(cookie_text(name, value, age, suffix)),
{
    let head = name + "="@ + value;
    let tail = decimal(age as nat) + suffix;
    assert(cookie_text(name, value, age, suffix) =~= head + COOKIE_ATTRIBUTES@ + tail);
}

/// Every cookie is hidden from scripts and strictly same-site.
pub proof fn law_every_cookie_is_hardened(policy: CookiePolicy<Seq<char>>, value: Seq<char>)
    ensures
        is_hardened(policy.login_csrf_cookie(value)),
        is_hardened(policy.session_cookie(value)),
        is_hardened(policy.mfa_pending_cookie(value)),
        is_hardened(policy.cleared_login_csrf_cookie()),
        is_hardened(policy.cleared_session_cookie()),
        is_hardened(policy.cleared_mfa_pending_cookie()),
{
    let none = Seq::<char>::empty();
    lemma_cookie_is_hardened(policy.login_csrf, value, LOGIN_CSRF_MAX_AGE_SECS, policy.suffix());
    lemma_cookie_is_hardened(policy.session, value, SESSION_MAX_AGE_SECS, policy.suffix());
    lemma_cookie_is_hardened(policy.mfa_pending, value, MFA_PENDING_MAX_AGE_SECS, policy.suffix());
    lemma_cookie_is_hardened(policy.login_csrf, none, 0, policy.suffix());
    lemma_cookie_is_hardened(policy.session, none, 0, policy.suffix());
    lemma_cookie_is_hardened(policy.mfa_pending, none, 0, policy.suffix());
}

/// Whether a cookie is one of a given name.
pub open spec fn has_name(cookie: Seq<char>, name: Seq<char>) -> bool {
    (name + "="@).is_prefix_of(cookie)
}

/// A name that a cookie header cannot confuse with its value.
pub open spec fn is_cookie_name(name: Seq<char>) -> bool {
    forall|i: int| 0 <= i < name.len() ==> #[trigger] name[i] != '='
}

/// A cookie has its own name and no other one.
pub proof fn law_cookie_has_one_name(
    name: Seq<char>,
    other: Seq<char>,
    value: Seq<char>,
    max_age: u64,
    suffix: Seq<char>,
)
    requires
        is_cookie_name(name),
        is_cookie_name(other),
    ensures
        has_name(cookie_text(name, value, max_age, suffix), other) == (name == other),
{
    reveal_strlit("=");
    let cookie = cookie_text(name, value, max_age, suffix);
    let own = name + "="@;
    let wanted = other + "="@;
    assert(own.is_prefix_of(cookie)) by {
        assert(cookie.subrange(0, own.len() as int) =~= own);
    }
    if has_name(cookie, other) {
        assert(cookie.subrange(0, wanted.len() as int) == wanted);
        assert(forall|i: int| 0 <= i < wanted.len() ==> cookie[i] == #[trigger] wanted[i]);
        assert(forall|i: int| 0 <= i < own.len() ==> cookie[i] == #[trigger] own[i]);
        if other.len() < name.len() {
            assert(wanted[other.len() as int] == '=');
            assert(own[other.len() as int] == name[other.len() as int]);
        } else if name.len() < other.len() {
            assert(own[name.len() as int] == '=');
            assert(wanted[name.len() as int] == other[name.len() as int]);
        } else {
            assert forall|i: int| 0 <= i < name.len() implies name[i] == other[i] by {
                assert(own[i] == wanted[i]);
            }
            assert(name =~= other);
        }
    }
}

/// A cookie can stand in a header exactly where its name and its value can.
pub proof fn law_cookie_is_a_header_value(
    name: Seq<char>,
    value: Seq<char>,
    max_age: u64,
    release_hardened: bool,
    insecure: bool,
)
    ensures
        header_safe(cookie_text(name, value, max_age, secure_suffix(release_hardened, insecure)))
            == (header_safe(name) && header_safe(value)),
{
    reveal_strlit("=");
    reveal_strlit("; Path=/; HttpOnly; SameSite=Strict; Max-Age=");
    reveal_strlit("; Secure");
    let suffix = secure_suffix(release_hardened, insecure);
    let age = decimal(max_age as nat);
    lemma_decimal_digits(max_age as nat);
    assert(header_safe("="@));
    assert(header_safe(COOKIE_ATTRIBUTES@));
    assert(header_safe(age));
    assert(header_safe(suffix));
    lemma_header_safe_concat(name, "="@);
    lemma_header_safe_concat(name + "="@, value);
    lemma_header_safe_concat(name + "="@ + value, COOKIE_ATTRIBUTES@);
    lemma_header_safe_concat(name + "="@ + value + COOKIE_ATTRIBUTES@, age);
    lemma_header_safe_concat(name + "="@ + value + COOKIE_ATTRIBUTES@ + age, suffix);
}

/// Whether a setting asks for insecure cookies: `1`, or `true` in whatever case, white space at its
/// ends aside.
pub open spec fn asks_for_insecure(setting: Option<Seq<char>>) -> bool {
    setting matches Some(setting) && (trimmed(setting) == "1"@ || ascii_lowered(trimmed(setting))
        == "true"@)
}

/// The end of every cookie: the secure attribute, but in a debug build that asks for insecure
/// cookies.
pub open spec fn ending(policy: CookiePolicy<Seq<char>>) -> Seq<char> {
    if !policy.release_hardened && asks_for_insecure(policy.insecure_setting) {
        ""@
    } else {
        "; Secure"@
    }
}

proof fn lemma_ending(policy: CookiePolicy<Seq<char>>)
    ensures
        policy.suffix() == ending(policy),
{
    reveal_strlit("1");
    reveal_strlit("");
    assert(""@ =~= Seq::<char>::empty());
    if let Some(setting) = policy.insecure_setting {
        let text = trimmed(setting);
        assert(ascii_lowered("1"@) =~= "1"@);
        if ascii_lowered(text) == "1"@ {
            assert(text.len() == 1);
            assert(ascii_lowered(text)[0] == ascii_lower(text[0]));
            assert(text =~= "1"@);
        }
    }
}

proof fn lemma_lifetimes()
    ensures
        COOKIE_ATTRIBUTES@ + decimal(600)
            == "; Path=/; HttpOnly; SameSite=Strict; Max-Age=600"@,
        COOKIE_ATTRIBUTES@ + decimal(3600)
            == "; Path=/; HttpOnly; SameSite=Strict; Max-Age=3600"@,
        COOKIE_ATTRIBUTES@ + decimal(300)
            == "; Path=/; HttpOnly; SameSite=Strict; Max-Age=300"@,
        COOKIE_ATTRIBUTES@ + decimal(0) == "; Path=/; HttpOnly; SameSite=Strict; Max-Age=0"@,
{
    reveal_with_fuel(decimal, 5);
    reveal_strlit("; Path=/; HttpOnly; SameSite=Strict; Max-Age=");
    reveal_strlit("; Path=/; HttpOnly; SameSite=Strict; Max-Age=600");
    reveal_strlit("; Path=/; HttpOnly; SameSite=Strict; Max-Age=3600");
    reveal_strlit("; Path=/; HttpOnly; SameSite=Strict; Max-Age=300");
    reveal_strlit("; Path=/; HttpOnly; SameSite=Strict; Max-Age=0");
    assert(decimal(600) =~= seq!['6', '0', '0']);
    assert(decimal(3600) =~= seq!['3', '6', '0', '0']);
    assert(decimal(300) =~= seq!['3', '0', '0']);
    assert(decimal(0) =~= seq!['0']);
    assert(COOKIE_ATTRIBUTES@ + decimal(600)
        =~= "; Path=/; HttpOnly; SameSite=Strict; Max-Age=600"@);
    assert(COOKIE_ATTRIBUTES@ + decimal(3600)
        =~= "; Path=/; HttpOnly; SameSite=Strict; Max-Age=3600"@);
    assert(COOKIE_ATTRIBUTES@ + decimal(300)
        =~= "; Path=/; HttpOnly; SameSite=Strict; Max-Age=300"@);
    assert(COOKIE_ATTRIBUTES@ + decimal(0)
        =~= "; Path=/; HttpOnly; SameSite=Strict; Max-Age=0"@);
}

/// Each cookie carries its value whole under its own name, with its own lifetime and the attributes
/// of all; a cleared one carries nothing and is over at once.
pub proof fn law_cookies_carry_their_values(policy: CookiePolicy<Seq<char>>, value: Seq<char>)
    ensures
        policy.login_csrf_cookie(value) == policy.login_csrf + "="@ + value
            + "; Path=/; HttpOnly; SameSite=Strict; Max-Age=600"@ + ending(policy),
        policy.session_cookie(value) == policy.session + "="@ + value
            + "; Path=/; HttpOnly; SameSite=Strict; Max-Age=3600"@ + ending(policy),
        policy.mfa_pending_cookie(value) == policy.mfa_pending + "="@ + value
            + "; Path=/; HttpOnly; SameSite=Strict; Max-Age=300"@ + ending(policy),
        policy.cleared_login_csrf_cookie() == policy.login_csrf + "="@
            + "; Path=/; HttpOnly; SameSite=Strict; Max-Age=0"@ + ending(policy),
        policy.cleared_session_cookie() == policy.session + "="@
            + "; Path=/; HttpOnly; SameSite=Strict; Max-Age=0"@ + ending(policy),
        policy.cleared_mfa_pending_cookie() == policy.mfa_pending + "="@
            + "; Path=/; HttpOnly; SameSite=Strict; Max-Age=0"@ + ending(policy),
{
    lemma_ending(policy);
    lemma_lifetimes();
    let suffix = policy.suffix();
    let none = Seq::<char>::empty();
    lemma_cookie_pieces(policy.login_csrf, value, 600, suffix);
    lemma_cookie_pieces(policy.session, value, 3600, suffix);
    lemma_cookie_pieces(policy.mfa_pending, value, 300, suffix);
    lemma_cookie_pieces(policy.login_csrf, none, 0, suffix);
    lemma_cookie_pieces(policy.session, none, 0, suffix);
    lemma_cookie_pieces(policy.mfa_pending, none, 0, suffix);
    assert(policy.login_csrf + "="@ + none =~= policy.login_csrf + "="@);
    assert(policy.session + "="@ + none =~= policy.session + "="@);
    assert(policy.mfa_pending + "="@ + none =~= policy.mfa_pending + "="@);
}

proof fn lemma_cookie_pieces(name: Seq<char>, value: Seq<char>, age: u64, suffix: Seq<char>)
    ensures
        cookie_text(name, value, age, suffix) == name + "="@ + value + (COOKIE_ATTRIBUTES@
            + decimal(age as nat)) + suffix,
{
    assert(cookie_text(name, value, age, suffix) =~= name + "="@ + value + (COOKIE_ATTRIBUTES@
        + decimal(age as nat)) + suffix);
}

/// What a browser sends back of a cookie, which is the pair before the first attribute, is read as
/// the very value that was set: of the cookie of a page, of a session, and of a step-up alike.
pub proof fn law_set_cookies_are_read_back(policy: CookiePolicy<Seq<char>>, value: Seq<char>)
    requires
        is_without(value, ';'),
    ensures
        is_readable_pair(policy.login_csrf, value) ==> cookie_in_lines(
            seq![Some(before_first(policy.login_csrf_cookie(value), ';'))],
            policy.login_csrf,
        ) == Some(value),
        is_readable_pair(policy.session, value) ==> cookie_in_lines(
            seq![Some(before_first(policy.session_cookie(value), ';'))],
            policy.session,
        ) == Some(value),
        is_readable_pair(policy.mfa_pending, value) ==> cookie_in_lines(
            seq![Some(before_first(policy.mfa_pending_cookie(value), ';'))],
            policy.mfa_pending,
        ) == Some(value),
{
    let suffix = policy.suffix();
    if is_readable_pair(policy.login_csrf, value) {
        lemma_read_back(policy.login_csrf, value, LOGIN_CSRF_MAX_AGE_SECS, suffix);
    }
    if is_readable_pair(policy.session, value) {
        lemma_read_back(policy.session, value, SESSION_MAX_AGE_SECS, suffix);
    }
    if is_readable_pair(policy.mfa_pending, value) {
        lemma_read_back(policy.mfa_pending, value, MFA_PENDING_MAX_AGE_SECS, suffix);
    }
}

/// A name and a value that a cookie header can tell apart.
pub open spec fn is_readable_pair(name: Seq<char>, value: Seq<char>) -> bool {
    &&& is_without(name, '=')
    &&& is_without(name, ';')
    &&& trimmed(name + "="@ + value) == name + "="@ + value
}

proof fn lemma_read_back(name: Seq<char>, value: Seq<char>, age: u64, suffix: Seq<char>)
    requires
        is_readable_pair(name, value),
        is_without(value, ';'),
    ensures
        cookie_in_lines(
            seq![Some(before_first(cookie_text(name, value, age, suffix), ';'))],
            name,
        ) == Some(value),
{
    reveal_strlit("=");
    reveal_strlit("; Path=/; HttpOnly; SameSite=Strict; Max-Age=");
    let pair = name + "="@ + value;
    let cookie = cookie_text(name, value, age, suffix);
    let k = pair.len() as int;
    assert(cookie =~= pair + (COOKIE_ATTRIBUTES@ + decimal(age as nat) + suffix));
    assert forall|i: int| 0 <= i < k implies #[trigger] cookie[i] != ';' by {
        assert(cookie[i] == pair[i]);
        if i < name.len() {
            assert(pair[i] == name[i]);
        } else if i > name.len() {
            assert(pair[i] == value[i - name.len() - 1]);
        }
    }
    assert(cookie[k] == COOKIE_ATTRIBUTES@[0]);
    lemma_before_first(cookie, ';', k);
    assert(cookie.take(k) =~= pair);
    law_cookie_is_read_back(name, value);
}

} // verus!
