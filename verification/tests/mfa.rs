use fiducia_customer::auth_pages::{
    mfa_enroll_markup, mfa_settings_markup, Factor, TotpEnrollment,
};
use fiducia_customer::login::{Detail, Outage};
use fiducia_customer::mfa::{
    customer_mfa_activate, customer_mfa_disable, customer_mfa_enroll, customer_mfa_page,
    is_mfa_awaited, mfa_advance, mfa_respond, Factors, MfaAction, MfaAnswer, MfaEvent, MfaState,
    MfaStep,
};
use fiducia_customer::request_security::RequestSecurityError;
use fiducia_customer::response::{Body, Response};

fn s(text: &str) -> String {
    text.to_string()
}

fn done(answer: MfaAnswer<String, Factors>) -> MfaStep<String, Factors> {
    MfaStep { state: MfaState::Done, action: MfaAction::Reply(answer) }
}

fn step(state: MfaState<String>, event: MfaEvent<String, Factors>) -> MfaStep<String, Factors> {
    assert!(is_mfa_awaited(&state, &event));
    mfa_advance(state, event)
}

fn unavailable(outage: Outage, detail: Detail) -> MfaStep<String, Factors> {
    done(MfaAnswer::Unavailable { outage, detail })
}

fn no_session() -> MfaStep<String, Factors> {
    done(MfaAnswer::Denied { status: 401, code: s("missing_customer_session") })
}

fn not_configured() -> MfaStep<String, Factors> {
    unavailable(Outage::LoginNotConfigured, Detail::MissingSettings)
}

fn html(response: &Response) -> String {
    match &response.body {
        Body::Html(html) => html.clone(),
        _ => panic!("the response has no page"),
    }
}

#[test]
fn factors_are_listed_with_the_session_of_the_caller() {
    assert_eq!(customer_mfa_page(None, true), no_session());
    assert_eq!(customer_mfa_page(Some(s("t")), false), not_configured());
    let listing = customer_mfa_page(Some(s("t")), true);
    assert_eq!(listing.action, MfaAction::ListFactors { access_token: s("t") });
    assert_eq!(
        step(listing.state.clone(), MfaEvent::FactorsListed { factors: factors() }),
        done(MfaAnswer::Settings { factors: factors() })
    );
    assert_eq!(
        step(listing.state, MfaEvent::FactorsUnavailable),
        unavailable(Outage::MfaStateUnavailable, Detail::Upstream)
    );
}

#[test]
fn an_enrollment_is_opened_under_its_name() {
    assert_eq!(
        customer_mfa_enroll(Err(RequestSecurityError::MismatchedOrigin), Some(s("t")), true),
        done(MfaAnswer::Refused(RequestSecurityError::MismatchedOrigin))
    );
    assert_eq!(customer_mfa_enroll(Ok(()), None, true), no_session());
    assert_eq!(customer_mfa_enroll(Ok(()), Some(s("t")), false), not_configured());
    let enrolling = customer_mfa_enroll(Ok(()), Some(s("t")), true);
    assert_eq!(
        enrolling.action,
        MfaAction::Enroll { access_token: s("t"), name: s("Fiducia authenticator") }
    );
    assert_eq!(
        step(enrolling.state.clone(), MfaEvent::Enrolled { enrollment: enrollment() }),
        done(MfaAnswer::SetUp { enrollment: enrollment() })
    );
    assert_eq!(
        step(enrolling.state, MfaEvent::EnrollmentFailed { reason: s("no room") }),
        done(MfaAnswer::Retry {
            title: s("Couldn't start enrollment"),
            message: s("no room"),
            status: 200
        })
    );
}

#[test]
fn an_activation_verifies_the_first_code() {
    assert_eq!(
        customer_mfa_activate(
            Err(RequestSecurityError::InvalidCsrfToken),
            Some(s("t")),
            true,
            s("f"),
            s("1")
        ),
        done(MfaAnswer::Refused(RequestSecurityError::InvalidCsrfToken))
    );
    assert_eq!(customer_mfa_activate(Ok(()), None, true, s("f"), s("1")), no_session());
    let opened = customer_mfa_activate(Ok(()), Some(s("t")), true, s("f"), s("123456"));
    assert_eq!(
        opened.action,
        MfaAction::OpenChallenge { access_token: s("t"), factor_id: s("f") }
    );
    assert_eq!(
        step(opened.state.clone(), MfaEvent::ChallengeFailed),
        unavailable(Outage::MfaChallengeFailed, Detail::Upstream)
    );
    let check = step(
        opened.state,
        MfaEvent::ChallengeOpened { factor_id: s("f"), challenge_id: s("c") },
    );
    assert_eq!(
        check.action,
        MfaAction::VerifyFactor {
            access_token: s("t"),
            factor_id: s("f"),
            challenge_id: s("c"),
            code: s("123456")
        }
    );
    assert_eq!(
        step(check.state.clone(), MfaEvent::FactorVerified { access_token: s("t2") }),
        done(MfaAnswer::Report {
            title: s("Authenticator enabled"),
            message: s(
                "Your authenticator app is now required at sign-in. Keep your recovery method up to date."
            ),
        })
    );
    assert_eq!(
        step(check.state, MfaEvent::FactorRejected),
        done(MfaAnswer::Retry {
            title: s("That code didn't match"),
            message: s(
                "Enrollment is not active. Return to security and start again with the current code."
            ),
            status: 200
        })
    );
}

#[test]
fn a_removal_needs_the_second_level_of_assurance_first() {
    let step_up = done(MfaAnswer::Denied { status: 401, code: s("mfa_step_up_required") });
    assert_eq!(
        customer_mfa_disable(
            false,
            Err(RequestSecurityError::InvalidCsrfToken),
            None,
            false,
            s("f"),
            s("1")
        ),
        step_up
    );
    assert_eq!(
        customer_mfa_disable(
            true,
            Err(RequestSecurityError::InvalidCsrfToken),
            None,
            false,
            s("f"),
            s("1")
        ),
        done(MfaAnswer::Refused(RequestSecurityError::InvalidCsrfToken))
    );
    assert_eq!(
        customer_mfa_disable(true, Ok(()), None, false, s("f"), s("1")),
        no_session()
    );
    assert_eq!(
        customer_mfa_disable(true, Ok(()), Some(s("t")), false, s("f"), s("1")),
        not_configured()
    );
}

#[test]
fn a_removal_uses_the_freshly_verified_session() {
    let opened =
        customer_mfa_disable(true, Ok(()), Some(s("old")), true, s("factor-1"), s("123456"));
    assert_eq!(
        opened.action,
        MfaAction::OpenChallenge { access_token: s("old"), factor_id: s("factor-1") }
    );
    let check = step(
        opened.state,
        MfaEvent::ChallengeOpened { factor_id: s("factor-1"), challenge_id: s("challenge-1") },
    );
    assert_eq!(
        check.action,
        MfaAction::VerifyFactor {
            access_token: s("old"),
            factor_id: s("factor-1"),
            challenge_id: s("challenge-1"),
            code: s("123456")
        }
    );
    let removal = step(check.state, MfaEvent::FactorVerified { access_token: s("fresh") });
    assert_eq!(
        removal.action,
        MfaAction::Unenroll { access_token: s("fresh"), factor_id: s("factor-1") }
    );
    assert_eq!(
        step(removal.state.clone(), MfaEvent::Removed),
        done(MfaAnswer::Report {
            title: s("Authenticator removed"),
            message: s("That authenticator will no longer be requested at sign-in."),
        })
    );
    assert_eq!(
        step(removal.state, MfaEvent::RemovalFailed),
        unavailable(Outage::MfaUnenrollFailed, Detail::Upstream)
    );
}

#[test]
fn a_removal_stops_without_a_fresh_verification() {
    let opened = customer_mfa_disable(true, Ok(()), Some(s("old")), true, s("f"), s("1"));
    assert_eq!(
        step(opened.state.clone(), MfaEvent::ChallengeFailed),
        done(MfaAnswer::Retry {
            title: s("Couldn't confirm your authenticator"),
            message: s("Enter a current code from the authenticator you want to remove."),
            status: 401
        })
    );
    let check = step(
        opened.state,
        MfaEvent::ChallengeOpened { factor_id: s("f"), challenge_id: s("c") },
    );
    assert_eq!(
        step(check.state, MfaEvent::FactorRejected),
        done(MfaAnswer::Retry {
            title: s("That code didn't match"),
            message: s(
                "The authenticator was not removed. Enter its current 6-digit code and try again."
            ),
            status: 401
        })
    );
}

#[test]
fn the_end_awaits_nothing() {
    assert!(!is_mfa_awaited(&MfaState::Done, &MfaEvent::Removed));
    assert!(!is_mfa_awaited(&MfaState::Removal, &MfaEvent::FactorsUnavailable));
}

fn factors() -> Factors {
    vec![Factor {
        id: s("f1"),
        friendly_name: None,
        factor_type: Some(s("totp")),
        status: Some(s("verified")),
    }]
}

fn enrollment() -> TotpEnrollment<String> {
    TotpEnrollment {
        factor_id: s("f1"),
        qr_code: s("<svg/>"),
        secret: s("S"),
        uri: s("otpauth://x"),
    }
}

#[test]
fn answers_have_their_responses() {
    let denied = MfaAnswer::Denied { status: 401, code: s("x") };
    assert_eq!(
        mfa_respond(&denied, "tok"),
        Some(Response {
            status: 401,
            headers: vec![(s("content-type"), s("application/json"))],
            body: Body::Denied(s("x")),
        })
    );
    let report = MfaAnswer::Report { title: s("T"), message: s("M") };
    let page = mfa_respond(&report, "tok").unwrap();
    assert_eq!(page.status, 200);
    assert!(html(&page).contains("<h1>T</h1><p class=\"muted\">M</p>"));
    let retry = MfaAnswer::Retry { title: s("T"), message: s("M"), status: 401 };
    assert_eq!(mfa_respond(&retry, "tok"), Some(Response { status: 401, ..page }));
    let refused = MfaAnswer::Refused(RequestSecurityError::MissingHost);
    assert!(mfa_respond(&refused, "tok").is_none());
    let outage =
        MfaAnswer::Unavailable { outage: Outage::LoginFailed, detail: Detail::Upstream };
    assert!(mfa_respond(&outage, "tok").is_none());
}

#[test]
fn pages_show_what_was_found_and_carry_the_form_token() {
    let settings = MfaAnswer::Settings { factors: factors() };
    assert_eq!(
        html(&mfa_respond(&settings, "tok").unwrap()),
        mfa_settings_markup(&factors(), "tok", None).into_string()
    );
    let set_up = MfaAnswer::SetUp { enrollment: enrollment() };
    assert_eq!(
        html(&mfa_respond(&set_up, "tok").unwrap()),
        mfa_enroll_markup(&enrollment(), "tok").into_string()
    );
}
