//! The steps of the sign-in flow from what came of one action to the next.

use crate::auth_pages::OtpChannel;
use crate::headers::{header_safe, is_header_value};
use crate::login::{
    budget_check, login_with, login_with_message, not_configured, not_configured_answer, replied,
    reply, Action, Answer, Bucket, BudgetKey, Detail, Event, Outage, Page, State, Step,
    SupabaseConfig, BEARER, CODE_NOT_SENT, CODE_REJECTED, CREDENTIALS_REJECTED, PASSWORD_GRANT_PATH,
    STEP_UP_REJECTED, THROTTLE_MESSAGE,
};
use crate::text::{opt_string, trim_end_matches, without_trailing_char};
use vstd::prelude::*;

verus! {

/// Whether an event is what a state waits for.
pub open spec fn awaits(state: State<Seq<char>>, event: Event<Seq<char>>) -> bool {
    match state {
        State::PasswordBudget { .. } => event is Budget,
        State::PasswordGrant => event is GrantAccepted || event is GrantRejected
            || event is GrantFailed,
        State::OtpIdentifierBudget { .. } => event is Budget,
        State::OtpClientBudget { .. } => event is Budget,
        State::OtpDispatch { .. } => event is CodeSent || event is CodeNotSent,
        State::CodeBudget { .. } => event is Budget,
        State::CodeCheck { .. } => event is CodeAccepted || event is CodeRejected,
        State::StepUpBudget { .. } => event is Budget,
        State::StepUpCheck { .. } => event is FactorVerified || event is FactorRejected,
        State::Factors { .. } => event is FactorRequired || event is FactorsUnavailable,
        State::Challenge { .. } => event is ChallengeOpened || event is ChallengeFailed,
        State::Identity { .. } => event is Identity,
        State::Done => false,
    }
}

/// Whether an event is what a state waits for.
pub fn is_awaited(state: &State<String>, event: &Event<String>) -> (r: bool)
    ensures
        r == awaits(state@, event@),
{
    match (state, event) {
        (State::PasswordBudget { .. }, Event::Budget { .. }) => true,
        (State::PasswordGrant, Event::GrantAccepted { .. }) => true,
        (State::PasswordGrant, Event::GrantRejected) => true,
        (State::PasswordGrant, Event::GrantFailed) => true,
        (State::OtpIdentifierBudget { .. }, Event::Budget { .. }) => true,
        (State::OtpClientBudget { .. }, Event::Budget { .. }) => true,
        (State::OtpDispatch { .. }, Event::CodeSent) => true,
        (State::OtpDispatch { .. }, Event::CodeNotSent) => true,
        (State::CodeBudget { .. }, Event::Budget { .. }) => true,
        (State::CodeCheck { .. }, Event::CodeAccepted { .. }) => true,
        (State::CodeCheck { .. }, Event::CodeRejected) => true,
        (State::StepUpBudget { .. }, Event::Budget { .. }) => true,
        (State::StepUpCheck { .. }, Event::FactorVerified { .. }) => true,
        (State::StepUpCheck { .. }, Event::FactorRejected) => true,
        (State::Factors { .. }, Event::FactorRequired { .. }) => true,
        (State::Factors { .. }, Event::FactorsUnavailable) => true,
        (State::Challenge { .. }, Event::ChallengeOpened { .. }) => true,
        (State::Challenge { .. }, Event::ChallengeFailed) => true,
        (State::Identity { .. }, Event::Identity { .. }) => true,
        _ => false,
    }
}

/// The step that lists the factors of an account: no login is finalized without knowing them.
pub open spec fn factor_lookup(access_token: Seq<char>) -> Step<Seq<char>> {
    Step {
        state: State::Factors { access_token },
        action: Action::ListFactors { access_token },
    }
}

/// The step that opens a challenge for the required authenticator.
pub open spec fn step_up_begin(access_token: Seq<char>, factor_id: Seq<char>) -> Step<Seq<char>> {
    Step {
        state: State::Challenge { access_token },
        action: Action::OpenChallenge { access_token, factor_id },
    }
}

/// The step that has a fully authenticated token verified before the session is issued.
pub open spec fn finalization(access_token: Seq<char>) -> Step<Seq<char>> {
    if header_safe(BEARER@ + access_token) {
        Step {
            state: State::Identity { access_token },
            action: Action::Authenticate { authorization: BEARER@ + access_token },
        }
    } else {
        replied(
            Answer::Unavailable { outage: Outage::LoginFailed, detail: Detail::InvalidHeaderValue },
        )
    }
}

/// The answer that an action of Supabase failed.
pub open spec fn upstream_outage(outage: Outage) -> Step<Seq<char>> {
    replied(Answer::Unavailable { outage, detail: Detail::Upstream })
}

/// The next step of the flow.
pub open spec fn next(
    supabase: SupabaseConfig<Seq<char>>,
    state: State<Seq<char>>,
    event: Event<Seq<char>>,
) -> Step<Seq<char>> {
    match (state, event) {
        (
            State::PasswordBudget { email, password },
            Event::Budget { allowed, retry_after_secs },
        ) => if !allowed {
            replied(Answer::Throttled { page: login_with(THROTTLE_MESSAGE@), retry_after_secs })
        } else {
            match (supabase.url, supabase.publishable_key) {
                (Some(url), Some(apikey)) => Step {
                    state: State::PasswordGrant,
                    action: Action::PasswordGrant {
                        url: without_trailing_char(url, '/') + PASSWORD_GRANT_PATH@,
                        apikey,
                        email,
                        password,
                    },
                },
                _ => replied(not_configured()),
            }
        },
        (State::PasswordGrant, Event::GrantAccepted { access_token }) => if supabase.client_ready {
            factor_lookup(access_token)
        } else {
            replied(not_configured())
        },
        (State::PasswordGrant, Event::GrantRejected) => replied(
            Answer::Show { page: login_with(CREDENTIALS_REJECTED@), status: 401 },
        ),
        (State::PasswordGrant, Event::GrantFailed) => upstream_outage(Outage::LoginFailed),
        (
            State::OtpIdentifierBudget { channel, identifier, forwarded },
            Event::Budget { allowed, retry_after_secs },
        ) => if !allowed {
            replied(
                Answer::Throttled {
                    page: Page::Code { channel, identifier, message: Some(THROTTLE_MESSAGE@) },
                    retry_after_secs,
                },
            )
        } else {
            Step {
                state: State::OtpClientBudget { channel, identifier },
                action: budget_check(Bucket::OtpDispatchPerClient, BudgetKey::Client(forwarded)),
            }
        },
        (
            State::OtpClientBudget { channel, identifier },
            Event::Budget { allowed, retry_after_secs },
        ) => if !allowed {
            replied(Answer::Throttled { page: login_with(THROTTLE_MESSAGE@), retry_after_secs })
        } else {
            Step {
                state: State::OtpDispatch { channel, identifier },
                action: Action::SendOtp { channel, identifier, create_user: true },
            }
        },
        (State::OtpDispatch { channel, identifier }, Event::CodeSent) => replied(
            Answer::Show {
                page: Page::Code { channel, identifier, message: None },
                status: 200,
            },
        ),
        (State::OtpDispatch { .. }, Event::CodeNotSent) => replied(
            Answer::Retry { page: login_with(CODE_NOT_SENT@), status: 200 },
        ),
        (
            State::CodeBudget { channel, identifier, code },
            Event::Budget { allowed, retry_after_secs },
        ) => if !allowed {
            replied(
                Answer::Throttled {
                    page: Page::Code { channel, identifier, message: Some(THROTTLE_MESSAGE@) },
                    retry_after_secs,
                },
            )
        } else {
            Step {
                state: State::CodeCheck { channel, identifier },
                action: Action::VerifyOtp { channel, identifier, code },
            }
        },
        (State::CodeCheck { .. }, Event::CodeAccepted { access_token }) => factor_lookup(
            access_token,
        ),
        (State::CodeCheck { channel, identifier }, Event::CodeRejected) => replied(
            Answer::Retry {
                page: Page::Code { channel, identifier, message: Some(CODE_REJECTED@) },
                status: 200,
            },
        ),
        (
            State::StepUpBudget { pending_token, factor_id, challenge_id, code },
            Event::Budget { allowed, retry_after_secs },
        ) => if !allowed {
            replied(
                Answer::Throttled {
                    page: Page::StepUp {
                        factor_id,
                        challenge_id,
                        message: Some(THROTTLE_MESSAGE@),
                    },
                    retry_after_secs,
                },
            )
        } else {
            Step {
                state: State::StepUpCheck { factor_id, challenge_id },
                action: Action::VerifyFactor {
                    access_token: pending_token,
                    factor_id,
                    challenge_id,
                    code,
                },
            }
        },
        (State::StepUpCheck { .. }, Event::FactorVerified { access_token }) => finalization(
            access_token,
        ),
        (State::StepUpCheck { factor_id, challenge_id }, Event::FactorRejected) => replied(
            Answer::Retry {
                page: Page::StepUp { factor_id, challenge_id, message: Some(STEP_UP_REJECTED@) },
                status: 200,
            },
        ),
        (State::Factors { access_token }, Event::FactorRequired { factor_id }) => match factor_id {
            Some(factor_id) => step_up_begin(access_token, factor_id),
            None => finalization(access_token),
        },
        (State::Factors { .. }, Event::FactorsUnavailable) => upstream_outage(
            Outage::MfaStateUnavailable,
        ),
        (
            State::Challenge { access_token },
            Event::ChallengeOpened { factor_id, challenge_id },
        ) => replied(Answer::StepUp { factor_id, challenge_id, access_token }),
        (State::Challenge { .. }, Event::ChallengeFailed) => upstream_outage(
            Outage::MfaChallengeFailed,
        ),
        (State::Identity { access_token }, Event::Identity { accepted }) => if accepted {
            replied(Answer::SignedIn { access_token })
        } else {
            replied(Answer::NotAuthenticated)
        },
        _ => arbitrary(),
    }
}

fn unavailable(outage: Outage) -> (r: Step<String>)
    ensures
        r@ == upstream_outage(outage),
{
    reply(Answer::Unavailable { outage, detail: Detail::Upstream })
}

fn throttled(page: Page<String>, retry_after_secs: u64) -> (r: Step<String>)
    ensures
        r@ == replied(Answer::Throttled { page: page@, retry_after_secs }),
{
    reply(Answer::Throttled { page, retry_after_secs })
}

fn list_factors(access_token: String) -> (r: Step<String>)
    ensures
        r@ == factor_lookup(access_token@),
{
    let token = access_token.clone();
    Step {
        state: State::Factors { access_token },
        action: Action::ListFactors { access_token: token },
    }
}

/// Opens a challenge for the authenticator that the account requires. The token of the primary
/// factor is kept for the pending cookie.
pub fn begin_mfa_step_up(access_token: String, factor_id: String) -> (r: Step<String>)
    ensures
        r@ == step_up_begin(access_token@, factor_id@),
{
    let token = access_token.clone();
    Step {
        state: State::Challenge { access_token },
        action: Action::OpenChallenge { access_token: token, factor_id },
    }
}

/// Completes a login once the caller is fully authenticated, by a single factor or after the
/// step-up: the resulting token is verified against the identity service before the session
/// cookie is set, so that all entry points converge on one check of the organizations.
pub fn finalize_customer_login(access_token: String) -> (r: Step<String>)
    ensures
        r@ == finalization(access_token@),
{
    let mut authorization = BEARER.to_owned();
    authorization.append(access_token.as_str());
    if is_header_value(authorization.as_str()) {
        Step {
            state: State::Identity { access_token },
            action: Action::Authenticate { authorization },
        }
    } else {
        reply(
            Answer::Unavailable { outage: Outage::LoginFailed, detail: Detail::InvalidHeaderValue },
        )
    }
}

fn after_password_budget(
    supabase: &SupabaseConfig<String>,
    email: String,
    password: String,
    allowed: bool,
    retry_after_secs: u64,
) -> (r: Step<String>)
    ensures
        r@ == next(
            supabase@,
            State::PasswordBudget { email: email@, password: password@ },
            Event::Budget { allowed, retry_after_secs },
        ),
{
    if !allowed {
        return throttled(login_with_message(THROTTLE_MESSAGE), retry_after_secs);
    }
    match (&supabase.url, &supabase.publishable_key) {
        (Some(url), Some(apikey)) => {
            let mut endpoint = trim_end_matches(url.as_str(), '/').to_owned();
            endpoint.append(PASSWORD_GRANT_PATH);
            Step {
                state: State::PasswordGrant,
                action: Action::PasswordGrant {
                    url: endpoint,
                    apikey: apikey.clone(),
                    email,
                    password,
                },
            }
        },
        _ => reply(not_configured_answer()),
    }
}

fn after_identifier_budget(
    channel: OtpChannel,
    identifier: String,
    forwarded: Option<String>,
    allowed: bool,
    retry_after_secs: u64,
) -> (r: Step<String>)
    ensures
        forall|supabase: SupabaseConfig<Seq<char>>|
            r@ == #[trigger] next(
                supabase,
                State::OtpIdentifierBudget {
                    channel,
                    identifier: identifier@,
                    forwarded: opt_string(forwarded),
                },
                Event::Budget { allowed, retry_after_secs },
            ),
{
    if !allowed {
        let message = Some(THROTTLE_MESSAGE.to_owned());
        return throttled(Page::Code { channel, identifier, message }, retry_after_secs);
    }
    Step {
        state: State::OtpClientBudget { channel, identifier },
        action: Action::CheckBudget {
            bucket: Bucket::OtpDispatchPerClient,
            key: BudgetKey::Client(forwarded),
        },
    }
}

fn after_client_budget(
    channel: OtpChannel,
    identifier: String,
    allowed: bool,
    retry_after_secs: u64,
) -> (r: Step<String>)
    ensures
        forall|supabase: SupabaseConfig<Seq<char>>|
            r@ == #[trigger] next(
                supabase,
                State::OtpClientBudget { channel, identifier: identifier@ },
                Event::Budget { allowed, retry_after_secs },
            ),
{
    if !allowed {
        return throttled(login_with_message(THROTTLE_MESSAGE), retry_after_secs);
    }
    let destination = identifier.clone();
    Step {
        state: State::OtpDispatch { channel, identifier },
        action: Action::SendOtp { channel, identifier: destination, create_user: true },
    }
}

fn after_code_budget(
    channel: OtpChannel,
    identifier: String,
    code: String,
    allowed: bool,
    retry_after_secs: u64,
) -> (r: Step<String>)
    ensures
        forall|supabase: SupabaseConfig<Seq<char>>|
            r@ == #[trigger] next(
                supabase,
                State::CodeBudget { channel, identifier: identifier@, code: code@ },
                Event::Budget { allowed, retry_after_secs },
            ),
{
    if !allowed {
        let message = Some(THROTTLE_MESSAGE.to_owned());
        return throttled(Page::Code { channel, identifier, message }, retry_after_secs);
    }
    let holder = identifier.clone();
    Step {
        state: State::CodeCheck { channel, identifier },
        action: Action::VerifyOtp { channel, identifier: holder, code },
    }
}

fn after_step_up_budget(
    pending_token: String,
    factor_id: String,
    challenge_id: String,
    code: String,
    allowed: bool,
    retry_after_secs: u64,
) -> (r: Step<String>)
    ensures
        forall|supabase: SupabaseConfig<Seq<char>>|
            r@ == #[trigger] next(
                supabase,
                State::StepUpBudget {
                    pending_token: pending_token@,
                    factor_id: factor_id@,
                    challenge_id: challenge_id@,
                    code: code@,
                },
                Event::Budget { allowed, retry_after_secs },
            ),
{
    if !allowed {
        let message = Some(THROTTLE_MESSAGE.to_owned());
        return throttled(Page::StepUp { factor_id, challenge_id, message }, retry_after_secs);
    }
    let factor = factor_id.clone();
    let challenge = challenge_id.clone();
    Step {
        state: State::StepUpCheck { factor_id, challenge_id },
        action: Action::VerifyFactor {
            access_token: pending_token,
            factor_id: factor,
            challenge_id: challenge,
            code,
        },
    }
}

/// Takes the flow one step further with what came of the last action.
///
/// The flow fails closed: Supabase gives a token of the first level of assurance even to an
/// account with an authenticator, so every primary factor is followed by the factor lookup, a
/// required authenticator by the step-up, and an outage of the lookup by a refusal.
pub fn advance(
    supabase: &SupabaseConfig<String>,
    state: State<String>,
    event: Event<String>,
) -> (r: Step<String>)
    requires
        awaits(state@, event@),
    ensures
        r@ == next(supabase@, state@, event@),
{
    match (state, event) {
        (
            State::PasswordBudget { email, password },
            Event::Budget { allowed, retry_after_secs },
        ) => after_password_budget(supabase, email, password, allowed, retry_after_secs),
        (State::PasswordGrant, Event::GrantAccepted { access_token }) => if supabase.client_ready {
            list_factors(access_token)
        } else {
            reply(not_configured_answer())
        },
        (State::PasswordGrant, Event::GrantRejected) => reply(
            Answer::Show { page: login_with_message(CREDENTIALS_REJECTED), status: 401 },
        ),
        (State::PasswordGrant, Event::GrantFailed) => unavailable(Outage::LoginFailed),
        (
            State::OtpIdentifierBudget { channel, identifier, forwarded },
            Event::Budget { allowed, retry_after_secs },
        ) => after_identifier_budget(channel, identifier, forwarded, allowed, retry_after_secs),
        (
            State::OtpClientBudget { channel, identifier },
            Event::Budget { allowed, retry_after_secs },
        ) => after_client_budget(channel, identifier, allowed, retry_after_secs),
        (State::OtpDispatch { channel, identifier }, Event::CodeSent) => reply(
            Answer::Show { page: Page::Code { channel, identifier, message: None }, status: 200 },
        ),
        (State::OtpDispatch { .. }, Event::CodeNotSent) => reply(
            Answer::Retry { page: login_with_message(CODE_NOT_SENT), status: 200 },
        ),
        (
            State::CodeBudget { channel, identifier, code },
            Event::Budget { allowed, retry_after_secs },
        ) => after_code_budget(channel, identifier, code, allowed, retry_after_secs),
        (State::CodeCheck { .. }, Event::CodeAccepted { access_token }) => list_factors(
            access_token,
        ),
        (State::CodeCheck { channel, identifier }, Event::CodeRejected) => reply(
            Answer::Retry {
                page: Page::Code {
                    channel,
                    identifier,
                    message: Some(CODE_REJECTED.to_owned()),
                },
                status: 200,
            },
        ),
        (
            State::StepUpBudget { pending_token, factor_id, challenge_id, code },
            Event::Budget { allowed, retry_after_secs },
        ) => after_step_up_budget(
            pending_token,
            factor_id,
            challenge_id,
            code,
            allowed,
            retry_after_secs,
        ),
        (State::StepUpCheck { .. }, Event::FactorVerified { access_token }) =>
            finalize_customer_login(access_token),
        (State::StepUpCheck { factor_id, challenge_id }, Event::FactorRejected) => reply(
            Answer::Retry {
                page: Page::StepUp {
                    factor_id,
                    challenge_id,
                    message: Some(STEP_UP_REJECTED.to_owned()),
                },
                status: 200,
            },
        ),
        (State::Factors { access_token }, Event::FactorRequired { factor_id }) => match factor_id {
            Some(factor_id) => begin_mfa_step_up(access_token, factor_id),
            None => finalize_customer_login(access_token),
        },
        (State::Factors { .. }, Event::FactorsUnavailable) => unavailable(
            Outage::MfaStateUnavailable,
        ),
        (
            State::Challenge { access_token },
            Event::ChallengeOpened { factor_id, challenge_id },
        ) => reply(Answer::StepUp { factor_id, challenge_id, access_token }),
        (State::Challenge { .. }, Event::ChallengeFailed) => unavailable(
            Outage::MfaChallengeFailed,
        ),
        (State::Identity { access_token }, Event::Identity { accepted: true }) => reply(
            Answer::SignedIn { access_token },
        ),
        _ => reply(Answer::NotAuthenticated),
    }
}

} // verus!
