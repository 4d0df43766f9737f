//! What authenticator management is for: what each request has sent to Supabase, what each outcome
//! leads to, and what the user is told.

use crate::auth_pages::{mfa_page, result_page, set_up_page, Factor, TotpEnrollment};
use crate::login::{Detail, Outage};
use crate::mfa::{
    activation, enrollment, listing, mfa_answered, mfa_awaits, mfa_next, removal, FactorsView,
    MfaAction, MfaAnswer, MfaEvent, MfaStep,
};
use crate::request_security::RequestSecurityError;
use crate::response::{Body, ResponseView};
use vstd::prelude::*;

verus! {

/// What is done once an outcome of the last action is handed back, where it is waited for.
pub open spec fn mfa_after(
    step: MfaStep<Seq<char>, FactorsView>,
    event: MfaEvent<Seq<char>, FactorsView>,
) -> Option<MfaAction<Seq<char>, FactorsView>> {
    if mfa_awaits(step.state, event) {
        Some(mfa_next(step.state, event).action)
    } else {
        None
    }
}

/// The flow once an outcome was handed back.
pub open spec fn mfa_then(
    step: MfaStep<Seq<char>, FactorsView>,
    event: MfaEvent<Seq<char>, FactorsView>,
) -> MfaStep<Seq<char>, FactorsView> {
    mfa_next(step.state, event)
}

/// A page that tells what was done.
pub open spec fn told(title: Seq<char>, message: Seq<char>) -> Option<
    MfaAction<Seq<char>, FactorsView>,
> {
    Some(MfaAction::Reply(MfaAnswer::Report { title, message }))
}

/// A page that tells what was not done, with its status.
pub open spec fn told_off(title: Seq<char>, message: Seq<char>, status: u16) -> Option<
    MfaAction<Seq<char>, FactorsView>,
> {
    Some(MfaAction::Reply(MfaAnswer::Retry { title, message, status }))
}

/// An outage of Supabase.
pub open spec fn down(outage: Outage) -> Option<MfaAction<Seq<char>, FactorsView>> {
    Some(MfaAction::Reply(MfaAnswer::Unavailable { outage, detail: Detail::Upstream }))
}

/// Every request of authenticator management needs an access token and a client for Supabase: the
/// first that is missing is told, and nothing is done. A refused form is told before either.
pub proof fn law_requests_need_a_session(
    form_security: Result<(), RequestSecurityError>,
    access_token: Option<Seq<char>>,
    client_ready: bool,
    factor_id: Seq<char>,
    code: Seq<char>,
)
    requires
        form_security is Err || access_token is None || !client_ready,
    ensures
        ({
            let missing: MfaAction<Seq<char>, FactorsView> = MfaAction::Reply(
                if access_token is None {
                    MfaAnswer::Denied { status: 401, code: "missing_customer_session"@ }
                } else {
                    MfaAnswer::Unavailable {
                        outage: Outage::LoginNotConfigured,
                        detail: Detail::MissingSettings,
                    }
                },
            );
            let told: MfaAction<Seq<char>, FactorsView> = match form_security {
                Err(error) => MfaAction::Reply(MfaAnswer::Refused(error)),
                Ok(()) => missing,
            };
            &&& access_token is None || !client_ready ==> listing(
                access_token,
                client_ready,
            ).action == missing
            &&& enrollment(form_security, access_token, client_ready).action == told
            &&& activation(
                form_security,
                access_token,
                client_ready,
                factor_id,
                code,
            ).action == told
            &&& removal(
                true,
                form_security,
                access_token,
                client_ready,
                factor_id,
                code,
            ).action == told
        }),
{
}

/// The authenticators of the caller are listed, and those that Supabase lists are shown, all and in
/// order.
pub proof fn law_listed_authenticators_are_shown(
    access_token: Seq<char>,
    factors: Seq<Factor<Seq<char>>>,
)
    ensures
        ({
            let opening = listing(Some(access_token), true);
            &&& opening.action == (MfaAction::ListFactors::<_, FactorsView> { access_token })
            &&& mfa_after(opening, MfaEvent::FactorsListed { factors }) == Some(
                MfaAction::Reply::<Seq<char>, _>(MfaAnswer::Settings { factors }),
            )
            &&& mfa_after(opening, MfaEvent::FactorsUnavailable) == down(
                Outage::MfaStateUnavailable,
            )
        }),
{
}

/// An authenticator is enrolled for the caller under the name of the application, and set up with
/// what Supabase gave for it; a failure is told with its reason.
pub proof fn law_enrollment_is_set_up(
    access_token: Seq<char>,
    enrolled: TotpEnrollment<Seq<char>>,
    reason: Seq<char>,
)
    ensures
        ({
            let opening = enrollment(Ok(()), Some(access_token), true);
            &&& opening.action == (MfaAction::Enroll::<_, FactorsView> {
                access_token,
                name: "Fiducia authenticator"@,
            })
            &&& mfa_after(opening, MfaEvent::Enrolled { enrollment: enrolled }) == Some(
                MfaAction::Reply::<_, FactorsView>(MfaAnswer::SetUp { enrollment: enrolled }),
            )
            &&& mfa_after(opening, MfaEvent::EnrollmentFailed { reason }) == told_off(
                "Couldn't start enrollment"@,
                reason,
                200,
            )
        }),
{
}

/// An activation challenges the factor of the form and verifies the code of the form against the
/// challenge that was opened, both as the caller; what the user is told is what came of it.
pub proof fn law_activation_verifies_the_first_code(
    access_token: Seq<char>,
    factor_id: Seq<char>,
    code: Seq<char>,
    challenged: Seq<char>,
    challenge_id: Seq<char>,
    fresh_token: Seq<char>,
)
    ensures
        ({
            let opening = activation(Ok(()), Some(access_token), true, factor_id, code);
            let opened = MfaEvent::ChallengeOpened { factor_id: challenged, challenge_id };
            let second = mfa_then(opening, opened);
            &&& opening.action == (MfaAction::OpenChallenge::<_, FactorsView> {
                access_token,
                factor_id,
            })
            &&& mfa_after(opening, opened) == Some(
                MfaAction::VerifyFactor::<_, FactorsView> {
                    access_token,
                    factor_id: challenged,
                    challenge_id,
                    code,
                },
            )
            &&& mfa_after(opening, MfaEvent::ChallengeFailed) == down(Outage::MfaChallengeFailed)
            &&& mfa_after(second, MfaEvent::FactorVerified { access_token: fresh_token }) == told(
                "Authenticator enabled"@,
                "Your authenticator app is now required at sign-in. Keep your recovery method up to date."@,
            )
            &&& mfa_after(second, MfaEvent::FactorRejected) == told_off(
                "That code didn't match"@,
                "Enrollment is not active. Return to security and start again with the current code."@,
                200,
            )
        }),
{
}

/// A removal challenges the factor of the form, verifies the code of the form against the challenge
/// that was opened, and then removes that very factor with the token of the verification; what the
/// user is told is what came of it, and only a removal that was done is told as one.
pub proof fn law_removal_removes_the_factor_of_the_form(
    access_token: Seq<char>,
    factor_id: Seq<char>,
    code: Seq<char>,
    challenged: Seq<char>,
    challenge_id: Seq<char>,
    fresh_token: Seq<char>,
)
    ensures
        ({
            let opening = removal(true, Ok(()), Some(access_token), true, factor_id, code);
            let opened = MfaEvent::ChallengeOpened { factor_id: challenged, challenge_id };
            let verified = MfaEvent::FactorVerified { access_token: fresh_token };
            let second = mfa_then(opening, opened);
            let third = mfa_then(second, verified);
            &&& opening.action == (MfaAction::OpenChallenge::<_, FactorsView> {
                access_token,
                factor_id,
            })
            &&& mfa_after(opening, opened) == Some(
                MfaAction::VerifyFactor::<_, FactorsView> {
                    access_token,
                    factor_id: challenged,
                    challenge_id,
                    code,
                },
            )
            &&& mfa_after(opening, MfaEvent::ChallengeFailed) == told_off(
                "Couldn't confirm your authenticator"@,
                "Enter a current code from the authenticator you want to remove."@,
                401,
            )
            &&& mfa_after(second, verified) == Some(
                MfaAction::Unenroll::<_, FactorsView> { access_token: fresh_token, factor_id },
            )
            &&& mfa_after(second, MfaEvent::FactorRejected) == told_off(
                "That code didn't match"@,
                "The authenticator was not removed. Enter its current 6-digit code and try again."@,
                401,
            )
            &&& mfa_after(third, MfaEvent::Removed) == told(
                "Authenticator removed"@,
                "That authenticator will no longer be requested at sign-in."@,
            )
            &&& mfa_after(third, MfaEvent::RemovalFailed) == down(Outage::MfaUnenrollFailed)
        }),
{
}

/// A session of the first level of assurance is denied a removal with status 401, whatever else the
/// request holds.
pub proof fn law_removal_is_denied_to_the_first_level(
    form_security: Result<(), RequestSecurityError>,
    access_token: Option<Seq<char>>,
    client_ready: bool,
    factor_id: Seq<char>,
    code: Seq<char>,
)
    ensures
        removal(false, form_security, access_token, client_ready, factor_id, code).action
            == MfaAction::Reply::<_, FactorsView>(
            MfaAnswer::Denied { status: 401, code: "mfa_step_up_required"@ },
        ),
{
}

/// A denial is answered with its status and code as JSON; every other answer that has a response is
/// a page, with status 200 but for what the answer itself says; a refusal and an outage have none.
pub proof fn law_answers_keep_their_status(
    answer: MfaAnswer<Seq<char>, FactorsView>,
    csrf_token: Seq<char>,
)
    ensures
        match answer {
            MfaAnswer::Refused(_) | MfaAnswer::Unavailable { .. } => mfa_answered(
                answer,
                csrf_token,
            ) is None,
            MfaAnswer::Denied { status, code } => mfa_answered(answer, csrf_token) matches Some(
                response,
            ) && response.status == status && response.body == Body::Denied(code)
                && response.headers == seq![("content-type"@, "application/json"@)],
            MfaAnswer::Retry { status, .. } => mfa_answered(answer, csrf_token) matches Some(
                response,
            ) && response.status == status && is_page(response),
            _ => mfa_answered(answer, csrf_token) matches Some(response) && response.status == 200
                && is_page(response),
        },
{
}

/// A response that is a page and sets no cookie.
pub open spec fn is_page(response: ResponseView) -> bool {
    &&& response.body is Html
    &&& response.headers == seq![("content-type"@, "text/html; charset=utf-8"@)]
}

/// What an answer says stands on its page: the authenticators on the page that lists them, the
/// enrollment on the page that sets it up, title and message on the page that reports them.
pub proof fn law_answers_show_what_they_say(
    factors: FactorsView,
    enrollment: TotpEnrollment<Seq<char>>,
    title: Seq<char>,
    message: Seq<char>,
    status: u16,
    csrf_token: Seq<char>,
)
    ensures
        mfa_answered(MfaAnswer::Settings { factors: factors }, csrf_token) matches Some(response)
            && response.body == Body::Html(mfa_page(factors, csrf_token, None)),
        mfa_answered(MfaAnswer::SetUp { enrollment: enrollment }, csrf_token) matches Some(response)
            && response.body == Body::Html(set_up_page(enrollment, csrf_token)),
        mfa_answered(MfaAnswer::Report { title: title, message: message }, csrf_token) matches Some(
            response,
        ) && response.body == Body::Html(result_page(title, message)),
        mfa_answered(
            MfaAnswer::Retry { title: title, message: message, status: status },
            csrf_token,
        ) matches Some(response) && response.body == Body::Html(result_page(title, message)),
{
}

} // verus!
