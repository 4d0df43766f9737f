use axum::http::{HeaderMap, HeaderValue};
use fiducia_customer::auth_pages::{Factor, OtpChannel};
use fiducia_customer::cookies::CookiePolicy;
use fiducia_customer::login::{
    customer_login_mfa_submit, customer_login_otp_submit, customer_login_submit,
    customer_login_verify_submit, owes_step_up, require_login_security, required_totp_factor,
    throttle_client_key, Action, Answer,
    Bucket, BudgetKey, CustomerLoginForm, Detail, Event, MfaStepUpForm, OtpRequestForm,
    OtpVerifyForm, Outage, Page, State, Step, SupabaseConfig, THROTTLE_MESSAGE,
};
use fiducia_customer::login_responses::{
    customer_login_page, customer_logout, is_sendable, login_flow_page, login_flow_page_with_nonce,
    respond, respond_with_nonce, signed_in_response,
};
use fiducia_customer::login_steps::{
    advance, begin_mfa_step_up, finalize_customer_login, is_awaited,
};
use fiducia_customer::request_cookies::cookie_value;
use fiducia_customer::request_security::{RequestSecurity, RequestSecurityError};
use fiducia_customer::response::{
    append_set_cookie, deny_json, see_other, throttled_response, Body, Response,
};

fn s(text: &str) -> String {
    text.to_string()
}

fn security() -> RequestSecurity {
    match RequestSecurity::new(
        "https://app.fiducia.cloud",
        b"0123456789abcdef0123456789abcdef".to_vec(),
    ) {
        Ok(security) => security,
        Err(error) => panic!("{}", error.message()),
    }
}

fn cookies() -> CookiePolicy<String> {
    CookiePolicy {
        login_csrf: s("login_csrf"),
        session: s("session"),
        mfa_pending: s("mfa_pending"),
        release_hardened: true,
        insecure_setting: None,
    }
}

fn headers() -> HeaderMap {
    let mut headers = HeaderMap::new();
    headers.insert("host", HeaderValue::from_static("app.fiducia.cloud"));
    headers.insert("origin", HeaderValue::from_static("https://app.fiducia.cloud"));
    headers.insert("sec-fetch-site", HeaderValue::from_static("same-origin"));
    headers.insert("x-forwarded-for", HeaderValue::from_static("10.0.0.1, 10.0.0.2"));
    headers
}

/// The headers of a request that sends the flow's cookies back among others.
fn sent(nonce: Option<&str>, pending: Option<&str>) -> HeaderMap {
    let mut line = s("theme=dark");
    if let Some(nonce) = nonce {
        line.push_str(&format!("; login_csrf={nonce}"));
    }
    let mut headers = headers();
    headers.append("cookie", HeaderValue::from_str(&line).unwrap());
    if let Some(pending) = pending {
        let pair = format!("mfa_pending={pending};x");
        headers.append("cookie", HeaderValue::from_str(&pair).unwrap());
    }
    headers
}

fn token() -> String {
    security().csrf_token("login\0n0")
}

fn supabase() -> SupabaseConfig<String> {
    SupabaseConfig {
        url: Some(s("https://x.supabase.co//")),
        publishable_key: Some(s("pk")),
        client_ready: true,
    }
}

fn done(answer: Answer<String>) -> Step<String> {
    Step { state: State::Done, action: Action::Reply(answer) }
}

fn login_page(message: &str) -> Page<String> {
    Page::Login { message: Some(s(message)) }
}

fn password_form(email: &str, password: &str) -> CustomerLoginForm<String> {
    CustomerLoginForm { csrf_token: token(), email: s(email), password: s(password) }
}

fn allowed() -> Event<String> {
    Event::Budget { allowed: true, retry_after_secs: 0 }
}

fn denied() -> Event<String> {
    Event::Budget { allowed: false, retry_after_secs: 42 }
}

fn step(state: State<String>, event: Event<String>) -> Step<String> {
    assert!(is_awaited(&state, &event));
    advance(&supabase(), state, event)
}

fn unavailable(outage: Outage, detail: Detail) -> Step<String> {
    done(Answer::Unavailable { outage, detail })
}

#[test]
fn login_forms_need_origin_cookie_and_token() {
    let security = security();
    assert_eq!(require_login_security(&sent(Some("n0"), None), &security, &cookies(), &token()), Ok(()));
    assert_eq!(
        require_login_security(&sent(None, None), &security, &cookies(), &token()),
        Err(RequestSecurityError::InvalidCsrfToken)
    );
    assert_eq!(
        require_login_security(&sent(Some("n1"), None), &security, &cookies(), &token()),
        Err(RequestSecurityError::InvalidCsrfToken)
    );
    assert_eq!(
        require_login_security(&HeaderMap::new(), &security, &cookies(), &token()),
        Err(RequestSecurityError::MissingHost)
    );
}

#[test]
fn refused_forms_are_answered_with_the_refusal() {
    let refused = done(Answer::Refused(RequestSecurityError::InvalidCsrfToken));
    let security = security();
    assert_eq!(
        customer_login_submit(&security, &sent(None, None), &cookies(), password_form("a", "b")),
        refused
    );
    let form = OtpRequestForm { csrf_token: s("x"), method: s("email"), identifier: s("a") };
    assert_eq!(
        customer_login_otp_submit(&security, &sent(Some("n0"), None), &cookies(), &supabase(), form),
        refused
    );
    let form = OtpVerifyForm {
        csrf_token: s("x"),
        method: s("email"),
        identifier: s("a"),
        token: s("1"),
    };
    assert_eq!(
        customer_login_verify_submit(&security, &sent(Some("n0"), None), &cookies(), &supabase(), form),
        refused
    );
    let form = MfaStepUpForm {
        csrf_token: s("x"),
        factor_id: s("f"),
        challenge_id: s("c"),
        code: s("1"),
    };
    assert_eq!(
        customer_login_mfa_submit(&security, &sent(Some("n0"), Some("t")), &cookies(), &supabase(), form),
        refused
    );
}

#[test]
fn empty_credentials_are_a_bad_request() {
    let expected =
        done(Answer::Show { page: login_page("Email and password are required."), status: 400 });
    for (email, password) in [("", "x"), ("  \n", "x"), ("a@b", "")] {
        assert_eq!(
            customer_login_submit(
                &security(),
                &sent(Some("n0"), None),
                &cookies(),
                password_form(email, password)
            ),
            expected
        );
    }
}

#[test]
fn credentials_are_counted_before_they_are_tried() {
    let opened =
        customer_login_submit(&security(), &sent(Some("n0"), None), &cookies(), password_form(" a@b ", " p "));
    assert_eq!(
        opened.action,
        Action::CheckBudget {
            bucket: Bucket::PasswordPerIdentifier,
            key: BudgetKey::Identifier(s("a@b"))
        }
    );
    assert_eq!(
        step(opened.state.clone(), denied()),
        done(Answer::Throttled { page: login_page(THROTTLE_MESSAGE), retry_after_secs: 42 })
    );
    let granted = step(opened.state.clone(), allowed());
    assert_eq!(granted.state, State::PasswordGrant);
    assert_eq!(
        granted.action,
        Action::PasswordGrant {
            url: s("https://x.supabase.co/auth/v1/token?grant_type=password"),
            apikey: s("pk"),
            email: s("a@b"),
            password: s(" p "),
        }
    );
    let mut unset = supabase();
    unset.publishable_key = None;
    assert_eq!(
        advance(&unset, opened.state, allowed()),
        unavailable(Outage::LoginNotConfigured, Detail::MissingSettings)
    );
}

#[test]
fn the_password_grant_has_three_outcomes() {
    assert_eq!(
        step(State::PasswordGrant, Event::GrantRejected),
        done(Answer::Show {
            page: login_page("Supabase rejected those credentials."),
            status: 401
        })
    );
    assert_eq!(
        step(State::PasswordGrant, Event::GrantFailed),
        unavailable(Outage::LoginFailed, Detail::Upstream)
    );
    let lookup = step(State::PasswordGrant, Event::GrantAccepted { access_token: s("t") });
    assert_eq!(lookup.state, State::Factors { access_token: s("t") });
    assert_eq!(lookup.action, Action::ListFactors { access_token: s("t") });
    let mut unready = supabase();
    unready.client_ready = false;
    assert_eq!(
        advance(&unready, State::PasswordGrant, Event::GrantAccepted { access_token: s("t") }),
        unavailable(Outage::LoginNotConfigured, Detail::MissingSettings)
    );
}

#[test]
fn a_password_login_with_a_verified_authenticator_is_stepped_up() {
    let opened =
        customer_login_submit(&security(), &sent(Some("n0"), None), &cookies(), password_form("a@b", "p"));
    let granted = step(opened.state, allowed());
    let lookup = step(granted.state, Event::GrantAccepted { access_token: s("customer.jwt") });
    let challenge =
        step(lookup.state, Event::FactorRequired { factor_id: Some(s("factor-1")) });
    assert_eq!(
        challenge.action,
        Action::OpenChallenge { access_token: s("customer.jwt"), factor_id: s("factor-1") }
    );
    let answer = step(
        challenge.state.clone(),
        Event::ChallengeOpened { factor_id: s("factor-1"), challenge_id: s("challenge-1") },
    );
    let Action::Reply(answer) = answer.action else {
        panic!("the flow did not answer");
    };
    assert!(is_sendable(&answer));
    let response = respond_with_nonce(&security(), &cookies(), answer, "n0").unwrap();
    assert_eq!(response.status, 200);
    let set: Vec<&str> = response
        .headers
        .iter()
        .filter(|header| header.0 == "set-cookie")
        .map(|header| header.1.as_str())
        .collect();
    assert_eq!(
        set,
        vec![
            "login_csrf=n0; Path=/; HttpOnly; SameSite=Strict; Max-Age=600; Secure",
            "mfa_pending=customer.jwt; Path=/; HttpOnly; SameSite=Strict; Max-Age=300; Secure",
        ]
    );
    assert!(html(&response).contains("action=\"/login/mfa\""));
    assert_eq!(
        step(challenge.state, Event::ChallengeFailed),
        unavailable(Outage::MfaChallengeFailed, Detail::Upstream)
    );
}

#[test]
fn a_lookup_outage_is_never_an_admission() {
    assert_eq!(
        step(State::Factors { access_token: s("t") }, Event::FactorsUnavailable),
        unavailable(Outage::MfaStateUnavailable, Detail::Upstream)
    );
}

#[test]
fn an_account_without_authenticator_is_verified_and_signed_in() {
    let verify = step(
        State::Factors { access_token: s("t") },
        Event::FactorRequired { factor_id: None },
    );
    assert_eq!(verify.state, State::Identity { access_token: s("t") });
    assert_eq!(verify.action, Action::Authenticate { authorization: s("Bearer t") });
    assert_eq!(
        step(verify.state.clone(), Event::Identity { accepted: true }),
        done(Answer::SignedIn { access_token: s("t") })
    );
    assert_eq!(
        step(verify.state, Event::Identity { accepted: false }),
        done(Answer::NotAuthenticated)
    );
}

#[test]
fn a_token_that_no_header_can_hold_is_an_outage() {
    for token in ["a\nb", "a\u{7f}", "\0"] {
        assert_eq!(
            finalize_customer_login(s(token)),
            unavailable(Outage::LoginFailed, Detail::InvalidHeaderValue)
        );
        assert!(!is_sendable(&Answer::SignedIn { access_token: s(token) }));
        assert!(!is_sendable(&Answer::StepUp {
            factor_id: s("f"),
            challenge_id: s("c"),
            access_token: s(token)
        }));
    }
    assert_eq!(
        finalize_customer_login(s("a\tb é")).action,
        Action::Authenticate { authorization: s("Bearer a\tb é") }
    );
    assert!(is_sendable(&Answer::NotAuthenticated));
    assert_eq!(
        begin_mfa_step_up(s("t"), s("f")).state,
        State::Challenge { access_token: s("t") }
    );
}

fn otp_request(method: &str) -> OtpRequestForm<String> {
    OtpRequestForm { csrf_token: token(), method: s(method), identifier: s(" +1415 ") }
}

#[test]
fn a_code_is_sent_within_both_budgets_only() {
    let opened = customer_login_otp_submit(
        &security(),
        &sent(Some("n0"), None),
        &cookies(),
        &supabase(),
        otp_request("phone"),
    );
    assert_eq!(
        opened.action,
        Action::CheckBudget {
            bucket: Bucket::OtpDispatchPerIdentifier,
            key: BudgetKey::Identifier(s("+1415"))
        }
    );
    assert_eq!(
        step(opened.state.clone(), denied()),
        done(Answer::Throttled {
            page: Page::Code {
                channel: OtpChannel::Phone,
                identifier: s("+1415"),
                message: Some(s(THROTTLE_MESSAGE))
            },
            retry_after_secs: 42
        })
    );
    let client = step(opened.state, allowed());
    assert_eq!(
        client.action,
        Action::CheckBudget {
            bucket: Bucket::OtpDispatchPerClient,
            key: BudgetKey::Client(Some(s("10.0.0.2")))
        }
    );
    assert_eq!(
        step(client.state.clone(), denied()),
        done(Answer::Throttled { page: login_page(THROTTLE_MESSAGE), retry_after_secs: 42 })
    );
    let dispatch = step(client.state, allowed());
    assert_eq!(
        dispatch.action,
        Action::SendOtp { channel: OtpChannel::Phone, identifier: s("+1415"), create_user: true }
    );
    assert_eq!(
        step(dispatch.state.clone(), Event::CodeSent),
        done(Answer::Show {
            page: Page::Code {
                channel: OtpChannel::Phone,
                identifier: s("+1415"),
                message: None
            },
            status: 200
        })
    );
    assert_eq!(
        step(dispatch.state, Event::CodeNotSent),
        done(Answer::Retry {
            page: login_page("We couldn't send that code. Check the address and try again."),
            status: 200
        })
    );
}

#[test]
fn a_code_needs_a_channel_and_a_client() {
    assert_eq!(
        customer_login_otp_submit(
            &security(),
            &sent(Some("n0"), None),
            &cookies(),
            &supabase(),
            otp_request("fax")
        ),
        done(Answer::Show {
            page: login_page("Choose email or phone to receive a code."),
            status: 400
        })
    );
    let mut unready = supabase();
    unready.client_ready = false;
    assert_eq!(
        customer_login_otp_submit(
            &security(),
            &sent(Some("n0"), None),
            &cookies(),
            &unready,
            otp_request("email")
        ),
        unavailable(Outage::LoginNotConfigured, Detail::MissingSettings)
    );
}

fn otp_verify(method: &str) -> OtpVerifyForm<String> {
    OtpVerifyForm {
        csrf_token: token(),
        method: s(method),
        identifier: s(" a@b "),
        token: s("123456"),
    }
}

#[test]
fn a_code_is_redeemed_within_budget() {
    let security = security();
    assert_eq!(
        customer_login_verify_submit(
            &security,
            &sent(Some("n0"), None),
            &cookies(),
            &supabase(),
            otp_verify("fax")
        ),
        done(Answer::Show {
            page: login_page("Choose email or phone to receive a code."),
            status: 200
        })
    );
    let opened = customer_login_verify_submit(
        &security,
        &sent(Some("n0"), None),
        &cookies(),
        &supabase(),
        otp_verify("email"),
    );
    assert_eq!(
        opened.action,
        Action::CheckBudget {
            bucket: Bucket::OtpVerifyPerIdentifier,
            key: BudgetKey::Identifier(s("a@b"))
        }
    );
    let code_page = |message: &str| Page::Code {
        channel: OtpChannel::Email,
        identifier: s("a@b"),
        message: Some(s(message)),
    };
    assert_eq!(
        step(opened.state.clone(), denied()),
        done(Answer::Throttled { page: code_page(THROTTLE_MESSAGE), retry_after_secs: 42 })
    );
    let redeem = step(opened.state, allowed());
    assert_eq!(
        redeem.action,
        Action::VerifyOtp {
            channel: OtpChannel::Email,
            identifier: s("a@b"),
            code: s("123456")
        }
    );
    assert_eq!(
        step(redeem.state.clone(), Event::CodeRejected),
        done(Answer::Retry {
            page: code_page("That code didn't match or has expired. Request a new one."),
            status: 200
        })
    );
    assert_eq!(
        step(redeem.state, Event::CodeAccepted { access_token: s("t") }).action,
        Action::ListFactors { access_token: s("t") }
    );
}

fn step_up_form() -> MfaStepUpForm<String> {
    MfaStepUpForm {
        csrf_token: token(),
        factor_id: s("f"),
        challenge_id: s("c"),
        code: s("123456"),
    }
}

#[test]
fn a_step_up_needs_its_pending_token() {
    assert_eq!(
        customer_login_mfa_submit(
            &security(),
            &sent(Some("n0"), None),
            &cookies(),
            &supabase(),
            step_up_form()
        ),
        done(Answer::Show {
            page: login_page("Your verification session expired. Please sign in again."),
            status: 200
        })
    );
    let mut unready = supabase();
    unready.client_ready = false;
    assert_eq!(
        customer_login_mfa_submit(
            &security(),
            &sent(Some("n0"), Some("t1")),
            &cookies(),
            &unready,
            step_up_form()
        ),
        unavailable(Outage::LoginNotConfigured, Detail::MissingSettings)
    );
}

#[test]
fn a_step_up_is_counted_per_client_and_verified() {
    let opened = customer_login_mfa_submit(
        &security(),
        &sent(Some("n0"), Some("t1")),
        &cookies(),
        &supabase(),
        step_up_form(),
    );
    assert_eq!(
        opened.action,
        Action::CheckBudget {
            bucket: Bucket::MfaVerifyPerClient,
            key: BudgetKey::Client(Some(s("10.0.0.2")))
        }
    );
    let page = |message: &str| Page::StepUp {
        factor_id: s("f"),
        challenge_id: s("c"),
        message: Some(s(message)),
    };
    assert_eq!(
        step(opened.state.clone(), denied()),
        done(Answer::Throttled { page: page(THROTTLE_MESSAGE), retry_after_secs: 42 })
    );
    let check = step(opened.state, allowed());
    assert_eq!(
        check.action,
        Action::VerifyFactor {
            access_token: s("t1"),
            factor_id: s("f"),
            challenge_id: s("c"),
            code: s("123456")
        }
    );
    assert_eq!(
        step(check.state.clone(), Event::FactorRejected),
        done(Answer::Retry {
            page: page(
                "That code didn't match. Enter the current code from your authenticator app."
            ),
            status: 200
        })
    );
    assert_eq!(
        step(check.state, Event::FactorVerified { access_token: s("t2") }).action,
        Action::Authenticate { authorization: s("Bearer t2") }
    );
}

#[test]
fn only_awaited_events_are_awaited() {
    assert!(!is_awaited(&State::Done, &allowed()));
    assert!(!is_awaited(&State::PasswordGrant, &allowed()));
    assert!(!is_awaited(
        &State::Identity { access_token: s("t") },
        &Event::FactorVerified { access_token: s("t") }
    ));
}

fn forwarded(lines: &[&'static str]) -> HeaderMap {
    let mut headers = HeaderMap::new();
    for line in lines {
        headers.append("x-forwarded-for", HeaderValue::from_static(line));
    }
    headers
}

#[test]
fn the_last_hop_stands_for_the_client() {
    let alone = throttle_client_key(&forwarded(&["203.0.113.7"]));
    assert_eq!(alone, Some(s("203.0.113.7")));
    for lines in [
        vec!["198.51.100.9", "203.0.113.7"],
        vec!["198.51.100.9, 203.0.113.7"],
        vec!["198.51.100.9,203.0.113.7 "],
        vec!["a, b", "c,,d,\t203.0.113.7"],
    ] {
        assert_eq!(throttle_client_key(&forwarded(&lines)), alone, "{lines:?}");
    }
    assert_eq!(throttle_client_key(&forwarded(&["203.0.113.7,"])), Some(s("")));
    let mut unreadable = forwarded(&["203.0.113.7"]);
    unreadable.append("x-forwarded-for", HeaderValue::from_bytes(b"\xff").unwrap());
    assert_eq!(throttle_client_key(&unreadable), None);
    assert_eq!(throttle_client_key(&HeaderMap::new()), None);
}

#[test]
fn every_outage_has_its_code() {
    assert_eq!(Outage::LoginNotConfigured.code(), "customer_login_not_configured");
    assert_eq!(Outage::LoginFailed.code(), "supabase_login_failed");
    assert_eq!(Outage::MfaStateUnavailable.code(), "mfa_state_unavailable");
    assert_eq!(Outage::MfaChallengeFailed.code(), "mfa_challenge_failed");
    assert_eq!(Outage::MfaUnenrollFailed.code(), "mfa_unenroll_failed");
}

fn html(response: &Response) -> String {
    match &response.body {
        Body::Html(html) => html.clone(),
        _ => panic!("the response has no page"),
    }
}

fn nonce_of(response: &Response) -> String {
    let cookie = &response.headers.iter().find(|header| header.0 == "set-cookie").unwrap().1;
    cookie["login_csrf=".len()..cookie.find(';').unwrap()].to_string()
}

#[test]
fn a_page_is_accepted_with_its_own_cookie() {
    let first = customer_login_page(&security(), &cookies(), Some("Hi"));
    let second = customer_login_page(&security(), &cookies(), None);
    let nonce = nonce_of(&first);
    assert_eq!(nonce.len(), 64);
    assert!(nonce.chars().all(|c| c.is_ascii_digit() || ('a'..='f').contains(&c)));
    assert_eq!(nonce.as_bytes()[12], b'4');
    assert_eq!(nonce.as_bytes()[44], b'4');
    assert!("89ab".contains(&nonce[16..17]) && "89ab".contains(&nonce[48..49]));
    assert_ne!(nonce, nonce_of(&second));
    let page = html(&first);
    let field = &page[page.find("name=\"csrf_token\" value=\"").unwrap() + 25..];
    let token = &field[..field.find('"').unwrap()];
    assert_eq!(require_login_security(&sent(Some(&nonce), None), &security(), &cookies(), token), Ok(()));
    assert_eq!(
        require_login_security(&sent(Some(&nonce_of(&second)), None), &security(), &cookies(), token),
        Err(RequestSecurityError::InvalidCsrfToken)
    );
    assert_eq!(
        first,
        login_flow_page_with_nonce(&security(), &cookies(), &login_page("Hi"), &nonce)
    );
    assert_eq!(first.status, 200);
    assert_eq!(first.headers[0], (s("content-type"), s("text/html; charset=utf-8")));
    let code = Page::Code { channel: OtpChannel::Email, identifier: s("a@b"), message: None };
    assert!(html(&login_flow_page(&security(), &cookies(), &code)).contains("Check your email"));
}

#[test]
fn answers_have_their_status() {
    let shown = Answer::Show { page: login_page("m"), status: 401 };
    let response = respond(&security(), &cookies(), shown).unwrap();
    assert_eq!(response.status, 401);
    let throttled = Answer::Throttled { page: login_page("m"), retry_after_secs: 90 };
    let response = respond_with_nonce(&security(), &cookies(), throttled, "n0").unwrap();
    assert_eq!(response.status, 429);
    assert_eq!(
        response.headers,
        vec![
            (s("content-type"), s("text/html; charset=utf-8")),
            (
                s("set-cookie"),
                s("login_csrf=n0; Path=/; HttpOnly; SameSite=Strict; Max-Age=600; Secure")
            ),
            (s("retry-after"), s("90")),
        ]
    );
    let retry = Answer::Retry { page: login_page("m"), status: 200 };
    assert_eq!(
        respond_with_nonce(&security(), &cookies(), retry, "n0").unwrap(),
        login_flow_page_with_nonce(&security(), &cookies(), &login_page("m"), "n0")
    );
    let retry = Answer::Retry { page: login_page("m"), status: 401 };
    assert_eq!(respond(&security(), &cookies(), retry).unwrap().status, 401);
    assert!(respond(&security(), &cookies(), Answer::NotAuthenticated).is_none());
    assert!(respond(
        &security(),
        &cookies(),
        Answer::Refused(RequestSecurityError::InvalidCsrfToken)
    )
    .is_none());
    assert!(respond(
        &security(),
        &cookies(),
        Answer::Unavailable { outage: Outage::LoginFailed, detail: Detail::Upstream }
    )
    .is_none());
}

#[test]
fn a_session_begins_with_its_cookie() {
    let expected = Response {
        status: 303,
        headers: vec![
            (s("location"), s("/app")),
            (
                s("set-cookie"),
                s("session=customer.jwt; Path=/; HttpOnly; SameSite=Strict; Max-Age=3600; Secure"),
            ),
            (
                s("set-cookie"),
                s("login_csrf=; Path=/; HttpOnly; SameSite=Strict; Max-Age=0; Secure"),
            ),
            (
                s("set-cookie"),
                s("mfa_pending=; Path=/; HttpOnly; SameSite=Strict; Max-Age=0; Secure"),
            ),
        ],
        body: Body::Empty,
    };
    assert_eq!(signed_in_response(&cookies(), "customer.jwt"), expected);
    let answer = Answer::SignedIn { access_token: s("customer.jwt") };
    assert_eq!(respond(&security(), &cookies(), answer), Some(expected));
}

#[test]
fn signing_out_ends_every_cookie() {
    let response = customer_logout(&cookies(), Ok(())).unwrap();
    assert_eq!(
        response,
        Response {
            status: 303,
            headers: vec![
                (s("location"), s("/login")),
                (
                    s("set-cookie"),
                    s("session=; Path=/; HttpOnly; SameSite=Strict; Max-Age=0; Secure")
                ),
                (
                    s("set-cookie"),
                    s("mfa_pending=; Path=/; HttpOnly; SameSite=Strict; Max-Age=0; Secure")
                ),
                (
                    s("set-cookie"),
                    s("login_csrf=; Path=/; HttpOnly; SameSite=Strict; Max-Age=0; Secure")
                ),
            ],
            body: Body::Empty,
        }
    );
    assert_eq!(
        customer_logout(&cookies(), Err(RequestSecurityError::MissingOrigin)),
        Err(RequestSecurityError::MissingOrigin)
    );
}

#[test]
fn a_throttled_response_has_one_retry_header() {
    let mut page = see_other("/x");
    append_set_cookie(&mut page, "a=1");
    let once = throttled_response(page, 5);
    let twice = throttled_response(once, 7);
    assert_eq!(
        twice,
        Response {
            status: 429,
            headers: vec![
                (s("location"), s("/x")),
                (s("set-cookie"), s("a=1")),
                (s("retry-after"), s("7")),
            ],
            body: Body::Empty,
        }
    );
}

#[test]
fn a_denial_names_its_code() {
    assert_eq!(
        deny_json(401, "missing_customer_session"),
        Response {
            status: 401,
            headers: vec![(s("content-type"), s("application/json"))],
            body: Body::Denied(s("missing_customer_session")),
        }
    );
}

#[test]
fn a_cookie_is_read_by_its_exact_name() {
    let mut headers = HeaderMap::new();
    assert_eq!(cookie_value(&headers, "a"), None);
    headers.append("cookie", HeaderValue::from_bytes(b"a=\xff").unwrap());
    headers.append("cookie", HeaderValue::from_static("aa=0; b ; a = 1;\ta=2=3 ;a=4"));
    headers.append("cookie", HeaderValue::from_static("c=5; a=6"));
    assert_eq!(cookie_value(&headers, "a"), Some(s("2=3")));
    assert_eq!(cookie_value(&headers, "c"), Some(s("5")));
    assert_eq!(cookie_value(&headers, "b"), None);
    assert_eq!(cookie_value(&headers, "A"), None);
    assert_eq!(cookie_value(&headers, "a=2"), None);
    headers.append("cookie", HeaderValue::from_static("d="));
    assert_eq!(cookie_value(&headers, "d"), Some(s("")));
}

fn factor(id: &str, factor_type: Option<&str>, status: Option<&str>) -> Factor<String> {
    Factor {
        id: s(id),
        friendly_name: None,
        factor_type: factor_type.map(s),
        status: status.map(s),
    }
}

#[test]
fn the_first_verified_authenticator_is_required() {
    let others = vec![
        factor("f0", Some("totp"), Some("unverified")),
        factor("f1", Some("phone"), Some("verified")),
        factor("f2", None, Some("verified")),
        factor("f3", Some("totp"), None),
    ];
    assert_eq!(required_totp_factor(&others), None);
    assert!(!owes_step_up(false, &others));
    let mut enrolled = others;
    enrolled.push(factor("factor-1", Some("totp"), Some("verified")));
    enrolled.push(factor("factor-2", Some("totp"), Some("verified")));
    assert_eq!(required_totp_factor(&enrolled), Some(s("factor-1")));
    assert!(owes_step_up(false, &enrolled));
    assert!(!owes_step_up(true, &enrolled));
}
