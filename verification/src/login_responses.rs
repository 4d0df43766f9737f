//! The responses of the sign-in flow: its pages, bound to a fresh nonce, and the redirects that
//! begin and end a session.

use crate::auth_pages::{
    code_page, customer_login_markup, login_page, mfa_challenge_markup, otp_verify_markup,
    step_up_page, OtpChannel,
};
use crate::cookies::{
    has_name, is_enabled, law_cookie_has_one_name, law_cookie_is_a_header_value, CookiePolicy,
    LOGIN_CSRF_MAX_AGE_SECS, MFA_PENDING_MAX_AGE_SECS, SESSION_MAX_AGE_SECS,
};
use crate::headers::{header_safe, header_texts, is_header_char, is_header_value};
use crate::html::Markup;
use crate::login::{login_check, Answer, Page, LOGIN_BINDING};
use crate::request_cookies::{cookie_in, law_cookie_is_read_back};
use crate::request_security::{RequestSecurity, RequestSecurityError, SecurityView};
use crate::response::{
    append_set_cookie, cookies_of, html_response, law_cookies_are_kept,
    law_throttled_page_stays_usable, see_other, throttled_response, without_header, Body, Response,
    ResponseView, CONTENT_TYPE, LOCATION, SET_COOKIE,
};
use crate::text::{is_without, opt_str, opt_string, trimmed};
use crate::text_laws::{law_numerals_are_read_back, numeral_value};
use crate::tokens::{base64_url, hmac_sha256, is_simple_uuid, random_simple_uuid};
use axum::http::{HeaderMap, HeaderValue};
use vstd::prelude::*;
use vstd::utf8::encode_utf8;

verus! {

pub const LOGIN_PATH: &'static str = "/login";

pub const APP_PATH: &'static str = "/app";

/// A page of the flow with the token of its forms.
pub open spec fn page_html(page: Page<Seq<char>>, csrf_token: Seq<char>) -> Seq<char> {
    match page {
        Page::Login { message } => login_page(message, csrf_token),
        Page::Code { channel, identifier, message } => code_page(
            channel,
            identifier,
            csrf_token,
            message,
        ),
        Page::StepUp { factor_id, challenge_id, message } => step_up_page(
            factor_id,
            challenge_id,
            csrf_token,
            message,
        ),
    }
}

fn borrowed(text: &Option<String>) -> (r: Option<&str>)
    ensures
        opt_str(r) == opt_string(*text),
{
    match text {
        Some(text) => Some(text.as_str()),
        None => None,
    }
}

fn page_markup(page: &Page<String>, csrf_token: &str) -> (r: Markup)
    ensures
        r@ == page_html(page@, csrf_token@),
{
    match page {
        Page::Login { message } => customer_login_markup(borrowed(message), csrf_token),
        Page::Code { channel, identifier, message } => otp_verify_markup(
            *channel,
            identifier.as_str(),
            csrf_token,
            borrowed(message),
        ),
        Page::StepUp { factor_id, challenge_id, message } => mfa_challenge_markup(
            factor_id.as_str(),
            challenge_id.as_str(),
            csrf_token,
            borrowed(message),
        ),
    }
}

/// The token that the forms of a page carry, given its nonce.
pub open spec fn login_token(security: SecurityView, nonce: Seq<char>) -> Seq<char> {
    security.token_of(LOGIN_BINDING@ + nonce)
}

/// A page of the flow, bound to a nonce: the forms carry its token, and the cookie carries the
/// nonce.
pub open spec fn flow_page(
    security: SecurityView,
    cookies: CookiePolicy<Seq<char>>,
    page: Page<Seq<char>>,
    nonce: Seq<char>,
) -> ResponseView {
    ResponseView::page(page_html(page, login_token(security, nonce))).with_cookie(
        cookies.login_csrf_cookie(nonce),
    )
}

/// A page of the flow, bound to a given nonce.
pub fn login_flow_page_with_nonce(
    security: &RequestSecurity,
    cookies: &CookiePolicy<String>,
    page: &Page<String>,
    nonce: &str,
) -> (r: Response)
    requires
        cookies@.wf(),
        header_safe(nonce@),
    ensures
        r@ == flow_page(security@, cookies@, page@, nonce@),
{
    let mut binding = LOGIN_BINDING.to_owned();
    binding.append(nonce);
    let token = security.csrf_token(binding.as_str());
    let mut response = html_response(page_markup(page, token.as_str()));
    proof {
        lemma_cookies_can_be_sent(cookies@, nonce@);
    }
    append_set_cookie(&mut response, cookies.make_customer_login_csrf_cookie(nonce).as_str());
    response
}

/// A nonce: the digits of two random UUIDs.
pub open spec fn is_login_nonce(nonce: Seq<char>) -> bool {
    &&& nonce.len() == 64
    &&& is_simple_uuid(nonce.take(32))
    &&& is_simple_uuid(nonce.skip(32))
}

fn fresh_nonce() -> (r: String)
    ensures
        is_login_nonce(r@),
        header_safe(r@),
{
    let mut nonce = random_simple_uuid();
    let second = random_simple_uuid();
    let ghost first = nonce@;
    nonce.append(second.as_str());
    assert(nonce@.take(32) =~= first);
    assert(nonce@.skip(32) =~= second@);
    assert forall|i: int| 0 <= i < nonce@.len() implies is_header_char(
        #[trigger] nonce@[i],
    ) by {
        if i < 32 {
            assert(nonce@[i] == first[i]);
        } else {
            assert(nonce@[i] == second@[i - 32]);
        }
    }
    nonce
}

/// Renders an unauthenticated page of the flow and binds it to a fresh nonce cookie. Every page
/// with a form before the session (login, code entry, step-up) goes through here, so that they
/// all share one CSRF contract. Which nonce it is, is left to chance.
pub fn login_flow_page(
    security: &RequestSecurity,
    cookies: &CookiePolicy<String>,
    page: &Page<String>,
) -> (r: Response)
    requires
        cookies@.wf(),
    ensures
        exists|nonce: Seq<char>|
            is_login_nonce(nonce) && r@ == #[trigger] flow_page(
                security@,
                cookies@,
                page@,
                nonce,
            ),
{
    let nonce = fresh_nonce();
    login_flow_page_with_nonce(security, cookies, page, nonce.as_str())
}

/// The login page, with a message where there is one.
pub fn customer_login_page(
    security: &RequestSecurity,
    cookies: &CookiePolicy<String>,
    message: Option<&str>,
) -> (r: Response)
    requires
        cookies@.wf(),
    ensures
        exists|nonce: Seq<char>|
            is_login_nonce(nonce) && r@ == #[trigger] flow_page(
                security@,
                cookies@,
                Page::Login { message: opt_str(message) },
                nonce,
            ),
{
    let message = match message {
        Some(message) => Some(message.to_owned()),
        None => None,
    };
    login_flow_page(security, cookies, &Page::Login { message })
}

/// The response that begins a session: the browser goes to the portal with the session cookie,
/// and the transient cookies of the flow end.
pub open spec fn signed_in(
    cookies: CookiePolicy<Seq<char>>,
    access_token: Seq<char>,
) -> ResponseView {
    ResponseView::see_other(APP_PATH@).with_cookie(
        cookies.session_cookie(access_token),
    ).with_cookie(cookies.cleared_login_csrf_cookie()).with_cookie(
        cookies.cleared_mfa_pending_cookie(),
    )
}

/// The response that begins a session.
pub fn signed_in_response(cookies: &CookiePolicy<String>, access_token: &str) -> (r: Response)
    requires
        cookies@.wf(),
        header_safe(access_token@),
    ensures
        r@ == signed_in(cookies@, access_token@),
{
    let mut response = see_other(APP_PATH);
    proof {
        lemma_cookies_can_be_sent(cookies@, access_token@);
    }
    append_set_cookie(&mut response, cookies.make_customer_session_cookie(access_token).as_str());
    append_set_cookie(&mut response, cookies.clear_customer_login_csrf_cookie().as_str());
    append_set_cookie(&mut response, cookies.clear_customer_mfa_pending_cookie().as_str());
    response
}

/// The response that ends a session: every cookie of the session and of the flow ends with it.
pub open spec fn signed_out(cookies: CookiePolicy<Seq<char>>) -> ResponseView {
    ResponseView::see_other(LOGIN_PATH@).with_cookie(
        cookies.cleared_session_cookie(),
    ).with_cookie(cookies.cleared_mfa_pending_cookie()).with_cookie(
        cookies.cleared_login_csrf_cookie(),
    )
}

/// `POST /logout`, given the verdict on the request and its form: ends the session.
///
/// The transient cookies of the flow are cleared too. A user who abandons a half-finished
/// step-up and then signs out would otherwise leave a live token of the primary factor in the
/// browser, and signing out must mean all of it.
pub fn customer_logout(
    cookies: &CookiePolicy<String>,
    form_security: Result<(), RequestSecurityError>,
) -> (r: Result<Response, RequestSecurityError>)
    requires
        cookies@.wf(),
    ensures
        match r {
            Ok(response) => form_security is Ok && response@ == signed_out(cookies@),
            Err(error) => form_security == Err::<(), RequestSecurityError>(error),
        },
{
    match form_security {
        Err(error) => return Err(error),
        Ok(()) => {},
    }
    let mut response = see_other(LOGIN_PATH);
    proof {
        lemma_cookies_can_be_sent(cookies@, Seq::empty());
    }
    append_set_cookie(&mut response, cookies.clear_customer_session_cookie().as_str());
    append_set_cookie(&mut response, cookies.clear_customer_mfa_pending_cookie().as_str());
    append_set_cookie(&mut response, cookies.clear_customer_login_csrf_cookie().as_str());
    Ok(response)
}

/// An answer whose token, where it carries one, can stand in a cookie.
pub open spec fn can_be_sent(answer: Answer<Seq<char>>) -> bool {
    match answer {
        Answer::StepUp { access_token, .. } => header_safe(access_token),
        Answer::SignedIn { access_token } => header_safe(access_token),
        _ => true,
    }
}

/// Whether the token of an answer, where it carries one, can stand in a cookie.
pub fn is_sendable(answer: &Answer<String>) -> (r: bool)
    ensures
        r == can_be_sent(answer@),
{
    match answer {
        Answer::StepUp { access_token, .. } => is_header_value(access_token.as_str()),
        Answer::SignedIn { access_token } => is_header_value(access_token.as_str()),
        _ => true,
    }
}

/// The response of an answer, given the nonce of its page. A refusal, an outage and a token
/// that the identity service refused have no page.
pub open spec fn answered(
    security: SecurityView,
    cookies: CookiePolicy<Seq<char>>,
    answer: Answer<Seq<char>>,
    nonce: Seq<char>,
) -> Option<ResponseView> {
    match answer {
        Answer::Show { page, status } => Some(
            flow_page(security, cookies, page, nonce).with_status(status),
        ),
        Answer::Throttled { page, retry_after_secs } => Some(
            flow_page(security, cookies, page, nonce).throttled(retry_after_secs),
        ),
        Answer::Retry { page, status } => Some(
            flow_page(security, cookies, page, nonce).with_status(status),
        ),
        Answer::StepUp { factor_id, challenge_id, access_token } => Some(
            flow_page(
                security,
                cookies,
                Page::StepUp { factor_id, challenge_id, message: None },
                nonce,
            ).with_cookie(cookies.mfa_pending_cookie(access_token)),
        ),
        Answer::SignedIn { access_token } => Some(signed_in(cookies, access_token)),
        Answer::Refused(_) => None,
        Answer::Unavailable { .. } => None,
        Answer::NotAuthenticated => None,
    }
}

/// What an optional response holds.
pub open spec fn opt_response(response: Option<Response>) -> Option<ResponseView> {
    match response {
        Some(response) => Some(response@),
        None => None,
    }
}

/// The response of an answer whose page is bound to a given nonce.
pub fn respond_with_nonce(
    security: &RequestSecurity,
    cookies: &CookiePolicy<String>,
    answer: Answer<String>,
    nonce: &str,
) -> (r: Option<Response>)
    requires
        cookies@.wf(),
        header_safe(nonce@),
        can_be_sent(answer@),
    ensures
        opt_response(r) == answered(security@, cookies@, answer@, nonce@),
{
    match answer {
        Answer::Show { page, status } => {
            let mut response = login_flow_page_with_nonce(security, cookies, &page, nonce);
            response.status = status;
            Some(response)
        },
        Answer::Throttled { page, retry_after_secs } => Some(
            throttled_response(
                login_flow_page_with_nonce(security, cookies, &page, nonce),
                retry_after_secs,
            ),
        ),
        Answer::Retry { page, status } => {
            let mut response = login_flow_page_with_nonce(security, cookies, &page, nonce);
            response.status = status;
            Some(response)
        },
        Answer::StepUp { factor_id, challenge_id, access_token } => {
            let page = Page::StepUp { factor_id, challenge_id, message: None };
            let mut response = login_flow_page_with_nonce(security, cookies, &page, nonce);
            proof {
                lemma_cookies_can_be_sent(cookies@, access_token@);
            }
            append_set_cookie(
                &mut response,
                cookies.make_customer_mfa_pending_cookie(access_token.as_str()).as_str(),
            );
            Some(response)
        },
        Answer::SignedIn { access_token } => Some(
            signed_in_response(cookies, access_token.as_str()),
        ),
        Answer::Refused(_) => None,
        Answer::Unavailable { .. } => None,
        Answer::NotAuthenticated => None,
    }
}

/// The response of an answer, its page bound to a fresh nonce. Which nonce it is, is left to
/// chance.
pub fn respond(
    security: &RequestSecurity,
    cookies: &CookiePolicy<String>,
    answer: Answer<String>,
) -> (r: Option<Response>)
    requires
        cookies@.wf(),
        can_be_sent(answer@),
    ensures
        exists|nonce: Seq<char>|
            is_login_nonce(nonce) && opt_response(r) == #[trigger] answered(
                security@,
                cookies@,
                answer@,
                nonce,
            ),
{
    let nonce = fresh_nonce();
    respond_with_nonce(security, cookies, answer, nonce.as_str())
}

proof fn lemma_cookies_can_be_sent(cookies: CookiePolicy<Seq<char>>, value: Seq<char>)
    requires
        cookies.wf(),
        header_safe(value),
    ensures
        header_safe(cookies.login_csrf_cookie(value)),
        header_safe(cookies.session_cookie(value)),
        header_safe(cookies.mfa_pending_cookie(value)),
        header_safe(cookies.cleared_login_csrf_cookie()),
        header_safe(cookies.cleared_session_cookie()),
        header_safe(cookies.cleared_mfa_pending_cookie()),
{
    let hardened = cookies.release_hardened;
    let insecure = is_enabled(cookies.insecure_setting);
    let none = Seq::<char>::empty();
    let (login, session, pending) = (cookies.login_csrf, cookies.session, cookies.mfa_pending);
    law_cookie_is_a_header_value(login, value, LOGIN_CSRF_MAX_AGE_SECS, hardened, insecure);
    law_cookie_is_a_header_value(session, value, SESSION_MAX_AGE_SECS, hardened, insecure);
    law_cookie_is_a_header_value(pending, value, MFA_PENDING_MAX_AGE_SECS, hardened, insecure);
    law_cookie_is_a_header_value(login, none, 0, hardened, insecure);
    law_cookie_is_a_header_value(session, none, 0, hardened, insecure);
    law_cookie_is_a_header_value(pending, none, 0, hardened, insecure);
}

/// The forms of a page are accepted with the cookie that the page set: on a request from the
/// customer origin, the token that a page embeds passes with the nonce that its cookie carries.
pub proof fn law_page_and_cookie_fit(
    security: SecurityView,
    headers: HeaderMap<HeaderValue>,
    nonce: Seq<char>,
)
    requires
        security.same_origin_check(headers) is Ok,
    ensures
        login_check(security, headers, Some(nonce), login_token(security, nonce)) is Ok,
{
}

/// A browser that sends the cookie of a page back has the forms of that page accepted.
pub proof fn law_returned_cookie_opens_the_forms(
    security: SecurityView,
    cookies: CookiePolicy<Seq<char>>,
    headers: HeaderMap<HeaderValue>,
    nonce: Seq<char>,
)
    requires
        security.same_origin_check(headers) is Ok,
        is_without(cookies.login_csrf, '='),
        is_without(cookies.login_csrf, ';'),
        is_without(nonce, ';'),
        trimmed(cookies.login_csrf + "="@ + nonce) == cookies.login_csrf + "="@ + nonce,
        header_texts(headers, "cookie"@) == seq![Some(cookies.login_csrf + "="@ + nonce)],
    ensures
        login_check(
            security,
            headers,
            cookie_in(headers, cookies.login_csrf),
            login_token(security, nonce),
        ) is Ok,
{
    law_cookie_is_read_back(cookies.login_csrf, nonce);
    law_page_and_cookie_fit(security, headers, nonce);
}

/// A form is accepted only with the token of the page whose nonce is in the cookie, and only
/// from the customer origin; without the cookie no token is accepted.
pub proof fn law_forms_need_their_own_cookie(
    security: SecurityView,
    headers: HeaderMap<HeaderValue>,
    nonce: Option<Seq<char>>,
    provided_csrf: Seq<char>,
)
    requires
        login_check(security, headers, nonce, provided_csrf) is Ok,
    ensures
        security.same_origin_check(headers) is Ok,
        nonce matches Some(nonce) && provided_csrf == login_token(security, nonce),
{
}

proof fn lemma_page_cookies(html: Seq<char>, cookie: Seq<char>)
    ensures
        ResponseView::page(html).cookies() == Seq::<Seq<char>>::empty(),
        ResponseView::page(html).with_cookie(cookie).cookies() == seq![cookie],
{
    reveal_strlit("content-type");
    reveal_strlit("set-cookie");
    let page = ResponseView::page(html);
    assert(CONTENT_TYPE@.len() != SET_COOKIE@.len());
    assert(page.headers.drop_last() =~= Seq::empty());
    assert(cookies_of(page.headers.drop_last()) =~= Seq::<Seq<char>>::empty());
    assert(page.cookies() =~= Seq::<Seq<char>>::empty());
    law_cookies_are_kept(page, cookie);
    assert(page.with_cookie(cookie).cookies() =~= seq![cookie]);
}

/// The step-up page sets the cookie of its nonce and the pending cookie, and no session cookie:
/// no session is issued before the second factor.
pub proof fn law_step_up_page_sets_no_session(
    security: SecurityView,
    cookies: CookiePolicy<Seq<char>>,
    factor_id: Seq<char>,
    challenge_id: Seq<char>,
    access_token: Seq<char>,
    nonce: Seq<char>,
)
    ensures
        answered(
            security,
            cookies,
            Answer::StepUp { factor_id, challenge_id, access_token },
            nonce,
        ) matches Some(response) && response.status == 200 && response.cookies() == seq![
            cookies.login_csrf_cookie(nonce),
            cookies.mfa_pending_cookie(access_token),
        ],
{
    let page = page_html(
        Page::StepUp { factor_id, challenge_id, message: None },
        login_token(security, nonce),
    );
    let bound = ResponseView::page(page).with_cookie(cookies.login_csrf_cookie(nonce));
    lemma_page_cookies(page, cookies.login_csrf_cookie(nonce));
    law_cookies_are_kept(bound, cookies.mfa_pending_cookie(access_token));
    assert(bound.with_cookie(cookies.mfa_pending_cookie(access_token)).cookies() =~= seq![
        cookies.login_csrf_cookie(nonce),
        cookies.mfa_pending_cookie(access_token),
    ]);
}

/// Whether a response sets a cookie of a given name.
pub open spec fn sets(response: ResponseView, name: Seq<char>) -> bool {
    exists|i: int|
        0 <= i < response.cookies().len() && has_name(#[trigger] response.cookies()[i], name)
}

/// No answer but the one that begins a session sets a session cookie.
pub proof fn law_only_signing_in_sets_a_session(
    security: SecurityView,
    cookies: CookiePolicy<Seq<char>>,
    answer: Answer<Seq<char>>,
    nonce: Seq<char>,
)
    requires
        cookies.names_differ(),
    ensures
        answered(security, cookies, answer, nonce) matches Some(response) ==> (sets(
            response,
            cookies.session,
        ) <==> answer is SignedIn),
{
    let token = login_token(security, nonce);
    let login_cookie = cookies.login_csrf_cookie(nonce);
    law_cookie_has_one_name(
        cookies.login_csrf,
        cookies.session,
        nonce,
        LOGIN_CSRF_MAX_AGE_SECS,
        cookies.suffix(),
    );
    match answer {
        Answer::Show { page, status } => {
            lemma_page_cookies(page_html(page, token), login_cookie);
        },
        Answer::Throttled { page, retry_after_secs } => {
            lemma_page_cookies(page_html(page, token), login_cookie);
            law_throttled_page_stays_usable(
                flow_page(security, cookies, page, nonce),
                retry_after_secs,
            );
        },
        Answer::Retry { page, .. } => {
            lemma_page_cookies(page_html(page, token), login_cookie);
        },
        Answer::StepUp { factor_id, challenge_id, access_token } => {
            law_step_up_page_sets_no_session(
                security,
                cookies,
                factor_id,
                challenge_id,
                access_token,
                nonce,
            );
            law_cookie_has_one_name(
                cookies.mfa_pending,
                cookies.session,
                access_token,
                MFA_PENDING_MAX_AGE_SECS,
                cookies.suffix(),
            );
        },
        Answer::SignedIn { access_token } => {
            law_signing_in_ends_the_flow_cookies(cookies, access_token);
            law_cookie_has_one_name(
                cookies.session,
                cookies.session,
                access_token,
                SESSION_MAX_AGE_SECS,
                cookies.suffix(),
            );
            assert(has_name(signed_in(cookies, access_token).cookies()[0], cookies.session));
        },
        _ => {},
    }
}

proof fn lemma_redirect_cookies(
    location: Seq<char>,
    first: Seq<char>,
    second: Seq<char>,
    third: Seq<char>,
)
    ensures
        ResponseView::see_other(location).with_cookie(first).with_cookie(second).with_cookie(
            third,
        ).cookies() == seq![first, second, third],
{
    reveal_strlit("location");
    reveal_strlit("set-cookie");
    let start = ResponseView::see_other(location);
    assert(LOCATION@.len() != SET_COOKIE@.len());
    assert(start.headers.drop_last() =~= Seq::empty());
    assert(cookies_of(start.headers.drop_last()) =~= Seq::<Seq<char>>::empty());
    assert(start.cookies() =~= Seq::<Seq<char>>::empty());
    law_cookies_are_kept(start, first);
    law_cookies_are_kept(start.with_cookie(first), second);
    law_cookies_are_kept(start.with_cookie(first).with_cookie(second), third);
    assert(start.with_cookie(first).with_cookie(second).with_cookie(third).cookies() =~= seq![
        first,
        second,
        third,
    ]);
}

/// Beginning a session sets its cookie and ends the cookies of the flow.
pub proof fn law_signing_in_ends_the_flow_cookies(
    cookies: CookiePolicy<Seq<char>>,
    access_token: Seq<char>,
)
    ensures
        signed_in(cookies, access_token).cookies() == seq![
            cookies.session_cookie(access_token),
            cookies.cleared_login_csrf_cookie(),
            cookies.cleared_mfa_pending_cookie(),
        ],
{
    lemma_redirect_cookies(
        APP_PATH@,
        cookies.session_cookie(access_token),
        cookies.cleared_login_csrf_cookie(),
        cookies.cleared_mfa_pending_cookie(),
    );
}

/// Signing out ends every cookie: that of the session, and both of the flow.
pub proof fn law_signing_out_ends_every_cookie(cookies: CookiePolicy<Seq<char>>)
    ensures
        signed_out(cookies).cookies() == seq![
            cookies.cleared_session_cookie(),
            cookies.cleared_mfa_pending_cookie(),
            cookies.cleared_login_csrf_cookie(),
        ],
{
    lemma_redirect_cookies(
        LOGIN_PATH@,
        cookies.cleared_session_cookie(),
        cookies.cleared_mfa_pending_cookie(),
        cookies.cleared_login_csrf_cookie(),
    );
}

/// The forms of a page carry the tag of its nonce under the signing secret.
pub proof fn law_pages_carry_the_tag_of_their_nonce(security: SecurityView, nonce: Seq<char>)
    ensures
        login_token(security, nonce) == base64_url(
            hmac_sha256(
                security.csrf_secret,
                encode_utf8("fiducia-customer-csrf-v1\0"@ + ("login\0"@ + nonce)),
            ),
        ),
{
}

/// A page that is shown, or shown again, has the status of the answer; its forms carry the token of
/// the nonce, and its one cookie carries the nonce.
pub proof fn law_shown_pages_are_bound_to_their_nonce(
    security: SecurityView,
    cookies: CookiePolicy<Seq<char>>,
    page: Page<Seq<char>>,
    status: u16,
    retry_after_secs: u64,
    nonce: Seq<char>,
)
    ensures
        ({
            let body = Body::Html(page_html(page, login_token(security, nonce)));
            let headers = seq![
                ("content-type"@, "text/html; charset=utf-8"@),
                ("set-cookie"@, cookies.login_csrf_cookie(nonce)),
            ];
            &&& answered(security, cookies, Answer::Show { page, status }, nonce) == Some(
                ResponseView { status, headers, body },
            )
            &&& answered(security, cookies, Answer::Retry { page, status }, nonce) == Some(
                ResponseView { status, headers, body },
            )
            &&& answered(
                security,
                cookies,
                Answer::Throttled { page, retry_after_secs },
                nonce,
            ) matches Some(response) && response.status == 429 && response.body == body
                && response.headers.len() == 3 && response.headers[0] == headers[0]
                && response.headers[1] == headers[1] && response.headers[2].0 == "retry-after"@
                && numeral_value(response.headers[2].1) == retry_after_secs
        }),
{
    let bound = flow_page(security, cookies, page, nonce);
    let headers = seq![
        ("content-type"@, "text/html; charset=utf-8"@),
        ("set-cookie"@, cookies.login_csrf_cookie(nonce)),
    ];
    assert(bound.headers =~= headers);
    reveal_strlit("content-type");
    reveal_strlit("set-cookie");
    reveal_strlit("retry-after");
    assert("retry-after"@[0] == 'r' && "set-cookie"@[0] == 's' && "content-type"@[0] == 'c');
    reveal_with_fuel(without_header, 3);
    assert(headers.drop_last().drop_last() =~= Seq::empty());
    assert(without_header(headers, "retry-after"@) =~= headers);
    law_numerals_are_read_back(retry_after_secs as nat);
}

/// The step-up page shows the challenge that was opened and no message; its cookies carry the nonce
/// and the token of the first factor.
pub proof fn law_step_up_keeps_the_token_of_the_first_factor(
    security: SecurityView,
    cookies: CookiePolicy<Seq<char>>,
    factor_id: Seq<char>,
    challenge_id: Seq<char>,
    access_token: Seq<char>,
    nonce: Seq<char>,
)
    ensures
        answered(
            security,
            cookies,
            Answer::StepUp { factor_id, challenge_id, access_token },
            nonce,
        ) matches Some(response) && response.status == 200 && response.headers == seq![
            ("content-type"@, "text/html; charset=utf-8"@),
            ("set-cookie"@, cookies.login_csrf_cookie(nonce)),
            ("set-cookie"@, cookies.mfa_pending_cookie(access_token)),
        ] && response.body == Body::Html(
            step_up_page(factor_id, challenge_id, login_token(security, nonce), None),
        ),
{
    let response = answered(
        security,
        cookies,
        Answer::StepUp { factor_id, challenge_id, access_token },
        nonce,
    )->Some_0;
    assert(response.headers =~= seq![
        ("content-type"@, "text/html; charset=utf-8"@),
        ("set-cookie"@, cookies.login_csrf_cookie(nonce)),
        ("set-cookie"@, cookies.mfa_pending_cookie(access_token)),
    ]);
}

/// Signing in leads to the portal with the token as the session; signing out leads to the login page.
/// Either way every cookie that is over is cleared.
pub proof fn law_sessions_begin_at_the_portal_and_end_at_the_login_page(
    security: SecurityView,
    cookies: CookiePolicy<Seq<char>>,
    access_token: Seq<char>,
    nonce: Seq<char>,
)
    ensures
        answered(security, cookies, Answer::SignedIn { access_token }, nonce) == Some(
            signed_in(cookies, access_token),
        ),
        signed_in(cookies, access_token).status == 303,
        signed_in(cookies, access_token).body is Empty,
        signed_in(cookies, access_token).headers == seq![
            ("location"@, "/app"@),
            ("set-cookie"@, cookies.session_cookie(access_token)),
            ("set-cookie"@, cookies.cleared_login_csrf_cookie()),
            ("set-cookie"@, cookies.cleared_mfa_pending_cookie()),
        ],
        signed_out(cookies).status == 303,
        signed_out(cookies).body is Empty,
        signed_out(cookies).headers == seq![
            ("location"@, "/login"@),
            ("set-cookie"@, cookies.cleared_session_cookie()),
            ("set-cookie"@, cookies.cleared_mfa_pending_cookie()),
            ("set-cookie"@, cookies.cleared_login_csrf_cookie()),
        ],
{
    assert(signed_in(cookies, access_token).headers =~= seq![
        ("location"@, "/app"@),
        ("set-cookie"@, cookies.session_cookie(access_token)),
        ("set-cookie"@, cookies.cleared_login_csrf_cookie()),
        ("set-cookie"@, cookies.cleared_mfa_pending_cookie()),
    ]);
    assert(signed_out(cookies).headers =~= seq![
        ("location"@, "/login"@),
        ("set-cookie"@, cookies.cleared_session_cookie()),
        ("set-cookie"@, cookies.cleared_mfa_pending_cookie()),
        ("set-cookie"@, cookies.cleared_login_csrf_cookie()),
    ]);
}

/// A refusal, an outage and a token that the identity service refused have no page.
pub proof fn law_failures_have_no_page(
    security: SecurityView,
    cookies: CookiePolicy<Seq<char>>,
    answer: Answer<Seq<char>>,
    nonce: Seq<char>,
)
    ensures
        answered(security, cookies, answer, nonce) is None <==> answer is Refused
            || answer is Unavailable || answer is NotAuthenticated,
{
}

/// Exactly an answer whose token could not stand in a header cannot be sent.
pub proof fn law_only_unsafe_tokens_cannot_be_sent(answer: Answer<Seq<char>>)
    ensures
        !can_be_sent(answer) <==> {
            ||| answer matches Answer::StepUp { access_token, .. } && !header_safe(access_token)
            ||| answer matches Answer::SignedIn { access_token } && !header_safe(access_token)
        },
{
}

/// A page that the flow shows is the one that it names, with the values that it names.
pub proof fn law_named_pages_are_shown(
    message: Option<Seq<char>>,
    channel: OtpChannel,
    identifier: Seq<char>,
    factor_id: Seq<char>,
    challenge_id: Seq<char>,
    csrf_token: Seq<char>,
)
    ensures
        page_html(Page::Login { message: message }, csrf_token) == login_page(message, csrf_token),
        page_html(
            Page::Code { channel: channel, identifier: identifier, message: message },
            csrf_token,
        ) == code_page(channel, identifier, csrf_token, message),
        page_html(
            Page::StepUp { factor_id: factor_id, challenge_id: challenge_id, message: message },
            csrf_token,
        ) == step_up_page(factor_id, challenge_id, csrf_token, message),
{
}

} // verus!
