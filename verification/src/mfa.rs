//! Authenticator management: the decisions between the requests to Supabase that list, enroll,
//! activate and remove authenticators.
//!
//! A request of a verified customer opens the flow. Each step names one action to perform; what
//! came of it is handed back as an event, until the action is an answer.

use crate::auth_pages::{
    factor_views, mfa_enroll_markup, mfa_page, mfa_result_markup, mfa_settings_markup, result_page,
    set_up_page, Factor, TotpEnrollment,
};
use crate::login::{Detail, Outage};
use crate::request_security::RequestSecurityError;
use crate::response::{deny_json, html_response, Response, ResponseView};
use crate::text::opt_string;
use vstd::prelude::*;

verus! {

/// The authenticators of an account.
pub type Factors = Vec<Factor<String>>;

/// What the authenticators of an account are.
pub type FactorsView = Seq<Factor<Seq<char>>>;

/// The name under which authenticators are enrolled.
pub const AUTHENTICATOR_NAME: &'static str = "Fiducia authenticator";

pub const MISSING_SESSION: &'static str = "missing_customer_session";

pub const STEP_UP_REQUIRED: &'static str = "mfa_step_up_required";

pub const ENROLLMENT_FAILED: &'static str = "Couldn't start enrollment";

pub const ENABLED_TITLE: &'static str = "Authenticator enabled";

pub const ENABLED_MESSAGE: &'static str =
    "Your authenticator app is now required at sign-in. Keep your recovery method up to date.";

pub const CODE_MISMATCH: &'static str = "That code didn't match";

pub const NOT_ACTIVE: &'static str =
    "Enrollment is not active. Return to security and start again with the current code.";

pub const NOT_CONFIRMED_TITLE: &'static str = "Couldn't confirm your authenticator";

pub const NOT_CONFIRMED_MESSAGE: &'static str =
    "Enter a current code from the authenticator you want to remove.";

pub const NOT_REMOVED: &'static str =
    "The authenticator was not removed. Enter its current 6-digit code and try again.";

pub const REMOVED_TITLE: &'static str = "Authenticator removed";

pub const REMOVED_MESSAGE: &'static str =
    "That authenticator will no longer be requested at sign-in.";

/// How the flow answers, as text `T` with authenticators listed as `L`.
#[derive(Clone, Debug, PartialEq, Eq)]
pub enum MfaAnswer<T, L> {
    /// The request is refused.
    Refused(RequestSecurityError),
    /// The request is denied with a status and a code.
    Denied { status: u16, code: T },
    /// A dependency is not available.
    Unavailable { outage: Outage, detail: Detail },
    /// The page that lists the authenticators that were found.
    Settings { factors: L },
    /// The page that sets up the authenticator that was enrolled.
    SetUp { enrollment: TotpEnrollment<T> },
    /// The page that reports a result.
    Report { title: T, message: T },
    /// The error of the action that failed, with the page and the status that stand where the
    /// error is the user's.
    Retry { title: T, message: T, status: u16 },
}

impl View for MfaAnswer<String, Factors> {
    type V = MfaAnswer<Seq<char>, FactorsView>;

    open spec fn view(&self) -> MfaAnswer<Seq<char>, FactorsView> {
        match self {
            MfaAnswer::Refused(error) => MfaAnswer::Refused(*error),
            MfaAnswer::Denied { status, code } => MfaAnswer::Denied {
                status: *status,
                code: code@,
            },
            MfaAnswer::Unavailable { outage, detail } => MfaAnswer::Unavailable {
                outage: *outage,
                detail: *detail,
            },
            MfaAnswer::Settings { factors } => MfaAnswer::Settings {
                factors: factor_views(factors@),
            },
            MfaAnswer::SetUp { enrollment } => MfaAnswer::SetUp { enrollment: enrollment@ },
            MfaAnswer::Report { title, message } => MfaAnswer::Report {
                title: title@,
                message: message@,
            },
            MfaAnswer::Retry { title, message, status } => MfaAnswer::Retry {
                title: title@,
                message: message@,
                status: *status,
            },
        }
    }
}

/// What is to be done next, as text `T` with authenticators listed as `L`.
#[derive(Clone, Debug, PartialEq, Eq)]
pub enum MfaAction<T, L> {
    /// List the factors of the account.
    ListFactors { access_token: T },
    /// Enroll an authenticator.
    Enroll { access_token: T, name: T },
    /// Open a challenge for a factor.
    OpenChallenge { access_token: T, factor_id: T },
    /// Verify an authenticator code against a challenge.
    VerifyFactor { access_token: T, factor_id: T, challenge_id: T, code: T },
    /// Remove a factor.
    Unenroll { access_token: T, factor_id: T },
    /// Answer.
    Reply(MfaAnswer<T, L>),
}

impl View for MfaAction<String, Factors> {
    type V = MfaAction<Seq<char>, FactorsView>;

    open spec fn view(&self) -> MfaAction<Seq<char>, FactorsView> {
        match self {
            MfaAction::ListFactors { access_token } => MfaAction::ListFactors {
                access_token: access_token@,
            },
            MfaAction::Enroll { access_token, name } => MfaAction::Enroll {
                access_token: access_token@,
                name: name@,
            },
            MfaAction::OpenChallenge { access_token, factor_id } => MfaAction::OpenChallenge {
                access_token: access_token@,
                factor_id: factor_id@,
            },
            MfaAction::VerifyFactor {
                access_token,
                factor_id,
                challenge_id,
                code,
            } => MfaAction::VerifyFactor {
                access_token: access_token@,
                factor_id: factor_id@,
                challenge_id: challenge_id@,
                code: code@,
            },
            MfaAction::Unenroll { access_token, factor_id } => MfaAction::Unenroll {
                access_token: access_token@,
                factor_id: factor_id@,
            },
            MfaAction::Reply(answer) => MfaAction::Reply(answer@),
        }
    }
}

/// What the flow waits for, as text `T`.
#[derive(Clone, Debug, PartialEq, Eq)]
pub enum MfaState<T> {
    Listing,
    Enrolling,
    ActivationChallenge { access_token: T, code: T },
    ActivationCheck,
    RemovalChallenge { access_token: T, factor_id: T, code: T },
    RemovalCheck { factor_id: T },
    Removal,
    Done,
}

impl View for MfaState<String> {
    type V = MfaState<Seq<char>>;

    open spec fn view(&self) -> MfaState<Seq<char>> {
        match self {
            MfaState::Listing => MfaState::Listing,
            MfaState::Enrolling => MfaState::Enrolling,
            MfaState::ActivationChallenge { access_token, code } => MfaState::ActivationChallenge {
                access_token: access_token@,
                code: code@,
            },
            MfaState::ActivationCheck => MfaState::ActivationCheck,
            MfaState::RemovalChallenge {
                access_token,
                factor_id,
                code,
            } => MfaState::RemovalChallenge {
                access_token: access_token@,
                factor_id: factor_id@,
                code: code@,
            },
            MfaState::RemovalCheck { factor_id } => MfaState::RemovalCheck {
                factor_id: factor_id@,
            },
            MfaState::Removal => MfaState::Removal,
            MfaState::Done => MfaState::Done,
        }
    }
}

/// What came of an action, as text `T` with authenticators listed as `L`.
#[derive(Clone, Debug, PartialEq, Eq)]
pub enum MfaEvent<T, L> {
    FactorsListed { factors: L },
    FactorsUnavailable,
    Enrolled { enrollment: TotpEnrollment<T> },
    /// The enrollment failed, for the reason that the error gives.
    EnrollmentFailed { reason: T },
    ChallengeOpened { factor_id: T, challenge_id: T },
    ChallengeFailed,
    FactorVerified { access_token: T },
    FactorRejected,
    Removed,
    RemovalFailed,
}

impl View for MfaEvent<String, Factors> {
    type V = MfaEvent<Seq<char>, FactorsView>;

    open spec fn view(&self) -> MfaEvent<Seq<char>, FactorsView> {
        match self {
            MfaEvent::FactorsListed { factors } => MfaEvent::FactorsListed {
                factors: factor_views(factors@),
            },
            MfaEvent::FactorsUnavailable => MfaEvent::FactorsUnavailable,
            MfaEvent::Enrolled { enrollment } => MfaEvent::Enrolled { enrollment: enrollment@ },
            MfaEvent::EnrollmentFailed { reason } => MfaEvent::EnrollmentFailed {
                reason: reason@,
            },
            MfaEvent::ChallengeOpened { factor_id, challenge_id } => MfaEvent::ChallengeOpened {
                factor_id: factor_id@,
                challenge_id: challenge_id@,
            },
            MfaEvent::ChallengeFailed => MfaEvent::ChallengeFailed,
            MfaEvent::FactorVerified { access_token } => MfaEvent::FactorVerified {
                access_token: access_token@,
            },
            MfaEvent::FactorRejected => MfaEvent::FactorRejected,
            MfaEvent::Removed => MfaEvent::Removed,
            MfaEvent::RemovalFailed => MfaEvent::RemovalFailed,
        }
    }
}

/// What is to be done, and what the flow then waits for, as text `T` with authenticators listed
/// as `L`.
#[derive(Clone, Debug, PartialEq, Eq)]
pub struct MfaStep<T, L> {
    pub state: MfaState<T>,
    pub action: MfaAction<T, L>,
}

impl View for MfaStep<String, Factors> {
    type V = MfaStep<Seq<char>, FactorsView>;

    open spec fn view(&self) -> MfaStep<Seq<char>, FactorsView> {
        MfaStep { state: self.state@, action: self.action@ }
    }
}

/// The last step of the flow.
pub open spec fn mfa_replied(answer: MfaAnswer<Seq<char>, FactorsView>) -> MfaStep<Seq<char>, FactorsView> {
    MfaStep { state: MfaState::Done, action: MfaAction::Reply(answer) }
}

fn reply(answer: MfaAnswer<String, Factors>) -> (r: MfaStep<String, Factors>)
    ensures
        r@ == mfa_replied(answer@),
{
    MfaStep { state: MfaState::Done, action: MfaAction::Reply(answer) }
}

/// The session with which factors can be managed: the access token of the caller, and a client
/// for Supabase.
pub open spec fn session_or_answer(
    access_token: Option<Seq<char>>,
    client_ready: bool,
) -> Result<Seq<char>, MfaAnswer<Seq<char>, FactorsView>> {
    match access_token {
        None => Err(MfaAnswer::Denied { status: 401, code: MISSING_SESSION@ }),
        Some(access_token) => if client_ready {
            Ok(access_token)
        } else {
            Err(
                MfaAnswer::Unavailable {
                    outage: Outage::LoginNotConfigured,
                    detail: Detail::MissingSettings,
                },
            )
        },
    }
}

fn require_session(access_token: Option<String>, client_ready: bool) -> (r: Result<
    String,
    MfaAnswer<String, Factors>,
>)
    ensures
        match r {
            Ok(token) => session_or_answer(opt_string(access_token), client_ready) == Ok::<
                _,
                MfaAnswer<Seq<char>, FactorsView>,
            >(token@),
            Err(answer) => session_or_answer(opt_string(access_token), client_ready) == Err::<
                Seq<char>,
                _,
            >(answer@),
        },
{
    match access_token {
        None => Err(MfaAnswer::Denied { status: 401, code: MISSING_SESSION.to_owned() }),
        Some(access_token) => if client_ready {
            Ok(access_token)
        } else {
            Err(
                MfaAnswer::Unavailable {
                    outage: Outage::LoginNotConfigured,
                    detail: Detail::MissingSettings,
                },
            )
        },
    }
}

/// The opening of the page that lists the authenticators.
pub open spec fn listing(
    access_token: Option<Seq<char>>,
    client_ready: bool,
) -> MfaStep<Seq<char>, FactorsView> {
    match session_or_answer(access_token, client_ready) {
        Err(answer) => mfa_replied(answer),
        Ok(access_token) => MfaStep {
            state: MfaState::Listing,
            action: MfaAction::ListFactors { access_token },
        },
    }
}

/// `GET /app/security/mfa`: lists the enrolled authenticators and offers enrollment.
pub fn customer_mfa_page(access_token: Option<String>, client_ready: bool) -> (r: MfaStep<String, Factors>)
    ensures
        r@ == listing(opt_string(access_token), client_ready),
{
    match require_session(access_token, client_ready) {
        Err(answer) => reply(answer),
        Ok(access_token) => MfaStep {
            state: MfaState::Listing,
            action: MfaAction::ListFactors { access_token },
        },
    }
}

/// The opening of an enrollment.
pub open spec fn enrollment(
    form_security: Result<(), RequestSecurityError>,
    access_token: Option<Seq<char>>,
    client_ready: bool,
) -> MfaStep<Seq<char>, FactorsView> {
    match form_security {
        Err(error) => mfa_replied(MfaAnswer::Refused(error)),
        Ok(()) => match session_or_answer(access_token, client_ready) {
            Err(answer) => mfa_replied(answer),
            Ok(access_token) => MfaStep {
                state: MfaState::Enrolling,
                action: MfaAction::Enroll { access_token, name: AUTHENTICATOR_NAME@ },
            },
        },
    }
}

/// `POST /app/security/mfa/enroll`, given the verdict on the request and its form: begins an
/// enrollment. Nothing is active until a code is confirmed.
pub fn customer_mfa_enroll(
    form_security: Result<(), RequestSecurityError>,
    access_token: Option<String>,
    client_ready: bool,
) -> (r: MfaStep<String, Factors>)
    ensures
        r@ == enrollment(form_security, opt_string(access_token), client_ready),
{
    if let Err(error) = form_security {
        return reply(MfaAnswer::Refused(error));
    }
    match require_session(access_token, client_ready) {
        Err(answer) => reply(answer),
        Ok(access_token) => MfaStep {
            state: MfaState::Enrolling,
            action: MfaAction::Enroll { access_token, name: AUTHENTICATOR_NAME.to_owned() },
        },
    }
}

/// The opening of an activation.
pub open spec fn activation(
    form_security: Result<(), RequestSecurityError>,
    access_token: Option<Seq<char>>,
    client_ready: bool,
    factor_id: Seq<char>,
    code: Seq<char>,
) -> MfaStep<Seq<char>, FactorsView> {
    match form_security {
        Err(error) => mfa_replied(MfaAnswer::Refused(error)),
        Ok(()) => match session_or_answer(access_token, client_ready) {
            Err(answer) => mfa_replied(answer),
            Ok(access_token) => MfaStep {
                state: MfaState::ActivationChallenge { access_token, code },
                action: MfaAction::OpenChallenge { access_token, factor_id },
            },
        },
    }
}

/// `POST /app/security/mfa/activate`, given the verdict on the request and its form: confirms a
/// freshly enrolled factor by verifying its first code.
pub fn customer_mfa_activate(
    form_security: Result<(), RequestSecurityError>,
    access_token: Option<String>,
    client_ready: bool,
    factor_id: String,
    code: String,
) -> (r: MfaStep<String, Factors>)
    ensures
        r@ == activation(
            form_security,
            opt_string(access_token),
            client_ready,
            factor_id@,
            code@,
        ),
{
    if let Err(error) = form_security {
        return reply(MfaAnswer::Refused(error));
    }
    match require_session(access_token, client_ready) {
        Err(answer) => reply(answer),
        Ok(access_token) => {
            let token = access_token.clone();
            MfaStep {
                state: MfaState::ActivationChallenge { access_token, code },
                action: MfaAction::OpenChallenge { access_token: token, factor_id },
            }
        },
    }
}

/// The opening of a removal.
pub open spec fn removal(
    aal2: bool,
    form_security: Result<(), RequestSecurityError>,
    access_token: Option<Seq<char>>,
    client_ready: bool,
    factor_id: Seq<char>,
    code: Seq<char>,
) -> MfaStep<Seq<char>, FactorsView> {
    if !aal2 {
        mfa_replied(MfaAnswer::Denied { status: 401, code: STEP_UP_REQUIRED@ })
    } else {
        match form_security {
            Err(error) => mfa_replied(MfaAnswer::Refused(error)),
            Ok(()) => match session_or_answer(access_token, client_ready) {
                Err(answer) => mfa_replied(answer),
                Ok(access_token) => MfaStep {
                    state: MfaState::RemovalChallenge { access_token, factor_id, code },
                    action: MfaAction::OpenChallenge { access_token, factor_id },
                },
            },
        }
    }
}

/// `POST /app/security/mfa/disable`, given the verdict on the request and its form: removes an
/// authenticator.
///
/// Removal is an account-takeover primitive, so a session of the second level of assurance is
/// required here whatever a downstream policy says, and the factor is challenged anew: a current
/// code is required even of such a session.
pub fn customer_mfa_disable(
    aal2: bool,
    form_security: Result<(), RequestSecurityError>,
    access_token: Option<String>,
    client_ready: bool,
    factor_id: String,
    code: String,
) -> (r: MfaStep<String, Factors>)
    ensures
        r@ == removal(
            aal2,
            form_security,
            opt_string(access_token),
            client_ready,
            factor_id@,
            code@,
        ),
{
    if !aal2 {
        return reply(MfaAnswer::Denied { status: 401, code: STEP_UP_REQUIRED.to_owned() });
    }
    if let Err(error) = form_security {
        return reply(MfaAnswer::Refused(error));
    }
    match require_session(access_token, client_ready) {
        Err(answer) => reply(answer),
        Ok(access_token) => {
            let token = access_token.clone();
            let factor = factor_id.clone();
            MfaStep {
                state: MfaState::RemovalChallenge { access_token, factor_id, code },
                action: MfaAction::OpenChallenge { access_token: token, factor_id: factor },
            }
        },
    }
}

/// Whether an event is what a state waits for.
pub open spec fn mfa_awaits(state: MfaState<Seq<char>>, event: MfaEvent<Seq<char>, FactorsView>) -> bool {
    match state {
        MfaState::Listing => event is FactorsListed || event is FactorsUnavailable,
        MfaState::Enrolling => event is Enrolled || event is EnrollmentFailed,
        MfaState::ActivationChallenge { .. } => event is ChallengeOpened
            || event is ChallengeFailed,
        MfaState::ActivationCheck => event is FactorVerified || event is FactorRejected,
        MfaState::RemovalChallenge { .. } => event is ChallengeOpened || event is ChallengeFailed,
        MfaState::RemovalCheck { .. } => event is FactorVerified || event is FactorRejected,
        MfaState::Removal => event is Removed || event is RemovalFailed,
        MfaState::Done => false,
    }
}

/// Whether an event is what a state waits for.
pub fn is_mfa_awaited(state: &MfaState<String>, event: &MfaEvent<String, Factors>) -> (r: bool)
    ensures
        r == mfa_awaits(state@, event@),
{
    match (state, event) {
        (MfaState::Listing, MfaEvent::FactorsListed { .. }) => true,
        (MfaState::Listing, MfaEvent::FactorsUnavailable) => true,
        (MfaState::Enrolling, MfaEvent::Enrolled { .. }) => true,
        (MfaState::Enrolling, MfaEvent::EnrollmentFailed { .. }) => true,
        (MfaState::ActivationChallenge { .. }, MfaEvent::ChallengeOpened { .. }) => true,
        (MfaState::ActivationChallenge { .. }, MfaEvent::ChallengeFailed) => true,
        (MfaState::ActivationCheck, MfaEvent::FactorVerified { .. }) => true,
        (MfaState::ActivationCheck, MfaEvent::FactorRejected) => true,
        (MfaState::RemovalChallenge { .. }, MfaEvent::ChallengeOpened { .. }) => true,
        (MfaState::RemovalChallenge { .. }, MfaEvent::ChallengeFailed) => true,
        (MfaState::RemovalCheck { .. }, MfaEvent::FactorVerified { .. }) => true,
        (MfaState::RemovalCheck { .. }, MfaEvent::FactorRejected) => true,
        (MfaState::Removal, MfaEvent::Removed) => true,
        (MfaState::Removal, MfaEvent::RemovalFailed) => true,
        _ => false,
    }
}

/// The answer that an action of Supabase failed.
pub open spec fn mfa_outage(outage: Outage) -> MfaStep<Seq<char>, FactorsView> {
    mfa_replied(MfaAnswer::Unavailable { outage, detail: Detail::Upstream })
}

/// The next step of the flow.
pub open spec fn mfa_next(
    state: MfaState<Seq<char>>,
    event: MfaEvent<Seq<char>, FactorsView>,
) -> MfaStep<Seq<char>, FactorsView> {
    match (state, event) {
        (MfaState::Listing, MfaEvent::FactorsListed { factors }) => mfa_replied(
            MfaAnswer::Settings { factors },
        ),
        (MfaState::Listing, MfaEvent::FactorsUnavailable) => mfa_outage(
            Outage::MfaStateUnavailable,
        ),
        (MfaState::Enrolling, MfaEvent::Enrolled { enrollment }) => mfa_replied(
            MfaAnswer::SetUp { enrollment },
        ),
        (MfaState::Enrolling, MfaEvent::EnrollmentFailed { reason }) => mfa_replied(
            MfaAnswer::Retry { title: ENROLLMENT_FAILED@, message: reason, status: 200 },
        ),
        (
            MfaState::ActivationChallenge { access_token, code },
            MfaEvent::ChallengeOpened { factor_id, challenge_id },
        ) => MfaStep {
            state: MfaState::ActivationCheck,
            action: MfaAction::VerifyFactor { access_token, factor_id, challenge_id, code },
        },
        (MfaState::ActivationChallenge { .. }, MfaEvent::ChallengeFailed) => mfa_outage(
            Outage::MfaChallengeFailed,
        ),
        (MfaState::ActivationCheck, MfaEvent::FactorVerified { .. }) => mfa_replied(
            MfaAnswer::Report { title: ENABLED_TITLE@, message: ENABLED_MESSAGE@ },
        ),
        (MfaState::ActivationCheck, MfaEvent::FactorRejected) => mfa_replied(
            MfaAnswer::Retry { title: CODE_MISMATCH@, message: NOT_ACTIVE@, status: 200 },
        ),
        (
            MfaState::RemovalChallenge { access_token, factor_id, code },
            MfaEvent::ChallengeOpened { factor_id: challenged, challenge_id },
        ) => MfaStep {
            state: MfaState::RemovalCheck { factor_id },
            action: MfaAction::VerifyFactor {
                access_token,
                factor_id: challenged,
                challenge_id,
                code,
            },
        },
        (MfaState::RemovalChallenge { .. }, MfaEvent::ChallengeFailed) => mfa_replied(
            MfaAnswer::Retry {
                title: NOT_CONFIRMED_TITLE@,
                message: NOT_CONFIRMED_MESSAGE@,
                status: 401,
            },
        ),
        (MfaState::RemovalCheck { factor_id }, MfaEvent::FactorVerified { access_token }) =>
            MfaStep {
                state: MfaState::Removal,
                action: MfaAction::Unenroll { access_token, factor_id },
            },
        (MfaState::RemovalCheck { .. }, MfaEvent::FactorRejected) => mfa_replied(
            MfaAnswer::Retry { title: CODE_MISMATCH@, message: NOT_REMOVED@, status: 401 },
        ),
        (MfaState::Removal, MfaEvent::Removed) => mfa_replied(
            MfaAnswer::Report { title: REMOVED_TITLE@, message: REMOVED_MESSAGE@ },
        ),
        (MfaState::Removal, MfaEvent::RemovalFailed) => mfa_outage(Outage::MfaUnenrollFailed),
        _ => arbitrary(),
    }
}

fn unavailable(outage: Outage) -> (r: MfaStep<String, Factors>)
    ensures
        r@ == mfa_outage(outage),
{
    reply(MfaAnswer::Unavailable { outage, detail: Detail::Upstream })
}

fn report(title: &str, message: &str) -> (r: MfaStep<String, Factors>)
    ensures
        r@ == mfa_replied(MfaAnswer::Report { title: title@, message: message@ }),
{
    reply(MfaAnswer::Report { title: title.to_owned(), message: message.to_owned() })
}

fn retry(title: &str, message: &str, status: u16) -> (r: MfaStep<String, Factors>)
    ensures
        r@ == mfa_replied(MfaAnswer::Retry { title: title@, message: message@, status }),
{
    reply(MfaAnswer::Retry { title: title.to_owned(), message: message.to_owned(), status })
}

/// Takes the flow one step further with what came of the last action. A factor is removed with
/// the token of the verification that went right before, so that Supabase receives the same
/// assurance that was just established.
pub fn mfa_advance(state: MfaState<String>, event: MfaEvent<String, Factors>) -> (r: MfaStep<String, Factors>)
    requires
        mfa_awaits(state@, event@),
    ensures
        r@ == mfa_next(state@, event@),
{
    match (state, event) {
        (MfaState::Listing, MfaEvent::FactorsListed { factors }) => reply(
            MfaAnswer::Settings { factors },
        ),
        (MfaState::Listing, _) => unavailable(Outage::MfaStateUnavailable),
        (MfaState::Enrolling, MfaEvent::Enrolled { enrollment }) => reply(
            MfaAnswer::SetUp { enrollment },
        ),
        (MfaState::Enrolling, MfaEvent::EnrollmentFailed { reason }) => retry(
            ENROLLMENT_FAILED,
            reason.as_str(),
            200,
        ),
        (
            MfaState::ActivationChallenge { access_token, code },
            MfaEvent::ChallengeOpened { factor_id, challenge_id },
        ) => MfaStep {
            state: MfaState::ActivationCheck,
            action: MfaAction::VerifyFactor { access_token, factor_id, challenge_id, code },
        },
        (MfaState::ActivationChallenge { .. }, _) => unavailable(Outage::MfaChallengeFailed),
        (MfaState::ActivationCheck, MfaEvent::FactorVerified { .. }) => report(
            ENABLED_TITLE,
            ENABLED_MESSAGE,
        ),
        (MfaState::ActivationCheck, _) => retry(CODE_MISMATCH, NOT_ACTIVE, 200),
        (
            MfaState::RemovalChallenge { access_token, factor_id, code },
            MfaEvent::ChallengeOpened { factor_id: challenged, challenge_id },
        ) => MfaStep {
            state: MfaState::RemovalCheck { factor_id },
            action: MfaAction::VerifyFactor {
                access_token,
                factor_id: challenged,
                challenge_id,
                code,
            },
        },
        (MfaState::RemovalChallenge { .. }, _) => retry(
            NOT_CONFIRMED_TITLE,
            NOT_CONFIRMED_MESSAGE,
            401,
        ),
        (MfaState::RemovalCheck { factor_id }, MfaEvent::FactorVerified { access_token }) =>
            MfaStep {
                state: MfaState::Removal,
                action: MfaAction::Unenroll { access_token, factor_id },
            },
        (MfaState::RemovalCheck { .. }, _) => retry(CODE_MISMATCH, NOT_REMOVED, 401),
        (MfaState::Removal, MfaEvent::Removed) => report(REMOVED_TITLE, REMOVED_MESSAGE),
        _ => unavailable(Outage::MfaUnenrollFailed),
    }
}

/// The response of an answer, given the token of the forms of its page. A refusal and an outage
/// have no page.
pub open spec fn mfa_answered(
    answer: MfaAnswer<Seq<char>, FactorsView>,
    csrf_token: Seq<char>,
) -> Option<ResponseView> {
    match answer {
        MfaAnswer::Denied { status, code } => Some(ResponseView::denied(status, code)),
        MfaAnswer::Settings { factors } => Some(
            ResponseView::page(mfa_page(factors, csrf_token, None)),
        ),
        MfaAnswer::SetUp { enrollment } => Some(
            ResponseView::page(set_up_page(enrollment, csrf_token)),
        ),
        MfaAnswer::Report { title, message } => Some(
            ResponseView::page(result_page(title, message)),
        ),
        MfaAnswer::Retry { title, message, status } => Some(
            ResponseView::page(result_page(title, message)).with_status(status),
        ),
        MfaAnswer::Refused(_) => None,
        MfaAnswer::Unavailable { .. } => None,
    }
}

/// The response of an answer, given the token of the forms of its page.
pub fn mfa_respond(answer: &MfaAnswer<String, Factors>, csrf_token: &str) -> (r: Option<Response>)
    ensures
        match r {
            Some(response) => mfa_answered(answer@, csrf_token@) == Some(response@),
            None => mfa_answered(answer@, csrf_token@) is None,
        },
{
    match answer {
        MfaAnswer::Denied { status, code } => Some(deny_json(*status, code.as_str())),
        MfaAnswer::Settings { factors } => Some(
            html_response(mfa_settings_markup(factors.as_slice(), csrf_token, None)),
        ),
        MfaAnswer::SetUp { enrollment } => Some(
            html_response(mfa_enroll_markup(enrollment, csrf_token)),
        ),
        MfaAnswer::Report { title, message } => Some(
            html_response(mfa_result_markup(title.as_str(), message.as_str())),
        ),
        MfaAnswer::Retry { title, message, status } => {
            let mut response = html_response(
                mfa_result_markup(title.as_str(), message.as_str()),
            );
            response.status = *status;
            Some(response)
        },
        MfaAnswer::Refused(_) => None,
        MfaAnswer::Unavailable { .. } => None,
    }
}

/// A step with which a request opens the flow.
pub open spec fn mfa_opens(step: MfaStep<Seq<char>, FactorsView>) -> bool {
    ||| exists|access_token: Option<Seq<char>>, client_ready: bool|
        step == #[trigger] listing(access_token, client_ready)
    ||| exists|
        form_security: Result<(), RequestSecurityError>,
        access_token: Option<Seq<char>>,
        client_ready: bool,
    |
        step == #[trigger] enrollment(form_security, access_token, client_ready)
    ||| exists|
        form_security: Result<(), RequestSecurityError>,
        access_token: Option<Seq<char>>,
        client_ready: bool,
        factor_id: Seq<char>,
        code: Seq<char>,
    |
        step == #[trigger] activation(form_security, access_token, client_ready, factor_id, code)
    ||| exists|
        aal2: bool,
        form_security: Result<(), RequestSecurityError>,
        access_token: Option<Seq<char>>,
        client_ready: bool,
        factor_id: Seq<char>,
        code: Seq<char>,
    |
        step == #[trigger] removal(
            aal2,
            form_security,
            access_token,
            client_ready,
            factor_id,
            code,
        )
}

/// The step that a run has reached after some events.
pub open spec fn mfa_reached(
    opening: MfaStep<Seq<char>, FactorsView>,
    events: Seq<MfaEvent<Seq<char>, FactorsView>>,
) -> MfaStep<Seq<char>, FactorsView>
    decreases events.len(),
{
    if events.len() == 0 {
        opening
    } else {
        mfa_next(mfa_reached(opening, events.drop_last()).state, events.last())
    }
}

/// A run: a request opened the flow, and each event was what the flow waited for.
pub open spec fn is_mfa_run(
    opening: MfaStep<Seq<char>, FactorsView>,
    events: Seq<MfaEvent<Seq<char>, FactorsView>>,
) -> bool
    decreases events.len(),
{
    if events.len() == 0 {
        mfa_opens(opening)
    } else {
        &&& is_mfa_run(opening, events.drop_last())
        &&& mfa_awaits(mfa_reached(opening, events.drop_last()).state, events.last())
    }
}

/// A factor removal that a session of the second level of assurance requested, with a form that
/// the request checks accepted.
pub open spec fn is_granted_removal(opening: MfaStep<Seq<char>, FactorsView>, factor_id: Seq<char>) -> bool {
    exists|access_token: Seq<char>, code: Seq<char>|
        opening == #[trigger] removal(true, Ok(()), Some(access_token), true, factor_id, code)
}

spec fn mfa_traced(
    opening: MfaStep<Seq<char>, FactorsView>,
    events: Seq<MfaEvent<Seq<char>, FactorsView>>,
    step: MfaStep<Seq<char>, FactorsView>,
) -> bool {
    match step.state {
        MfaState::Listing => step.action is ListFactors && events.len() == 0,
        MfaState::Enrolling => step.action is Enroll && events.len() == 0,
        MfaState::ActivationChallenge { .. } => step.action is OpenChallenge && events.len() == 0,
        MfaState::ActivationCheck => step.action is VerifyFactor && events.len() == 1,
        MfaState::RemovalChallenge { access_token, factor_id, code } => {
            &&& events.len() == 0
            &&& step.action == (MfaAction::OpenChallenge::<_, FactorsView> { access_token, factor_id })
            &&& is_granted_removal(opening, factor_id)
        },
        MfaState::RemovalCheck { factor_id } => {
            &&& events.len() == 1
            &&& events[0] is ChallengeOpened
            &&& step.action is VerifyFactor
            &&& is_granted_removal(opening, factor_id)
        },
        MfaState::Removal => {
            &&& events.len() == 2
            &&& events[0] is ChallengeOpened
            &&& step.action matches MfaAction::Unenroll { access_token, factor_id }
            &&& events[1] == (MfaEvent::FactorVerified::<_, FactorsView> { access_token })
            &&& is_granted_removal(opening, factor_id)
        },
        MfaState::Done => step.action is Reply && events.len() <= 3,
    }
}

proof fn lemma_mfa_traced(opening: MfaStep<Seq<char>, FactorsView>, events: Seq<MfaEvent<Seq<char>, FactorsView>>)
    requires
        is_mfa_run(opening, events),
    ensures
        mfa_traced(opening, events, mfa_reached(opening, events)),
    decreases events.len(),
{
    if events.len() > 0 {
        lemma_mfa_traced(opening, events.drop_last());
        assert(forall|i: int|
            0 <= i < events.len() - 1 ==> #[trigger] events.drop_last()[i] == events[i]);
    } else if opening.state is RemovalChallenge {
        let (aal2, form_security, access_token, client_ready, factor_id, code) = choose|
            aal2: bool,
            form_security: Result<(), RequestSecurityError>,
            access_token: Option<Seq<char>>,
            client_ready: bool,
            factor_id: Seq<char>,
            code: Seq<char>,
        |
            opening == #[trigger] removal(
                aal2,
                form_security,
                access_token,
                client_ready,
                factor_id,
                code,
            );
        assert(opening == removal(true, Ok(()), Some(access_token->0), true, factor_id, code));
    }
}

/// A factor is removed only in a run that a session of the second level of assurance opened with
/// an accepted form for that factor, right after the factor was challenged anew and its code was
/// verified, and with the token of that verification.
pub proof fn law_removal_needs_a_fresh_verification(
    opening: MfaStep<Seq<char>, FactorsView>,
    events: Seq<MfaEvent<Seq<char>, FactorsView>>,
    access_token: Seq<char>,
    factor_id: Seq<char>,
)
    requires
        is_mfa_run(opening, events),
        mfa_reached(opening, events).action == (MfaAction::Unenroll::<_, FactorsView> {
            access_token,
            factor_id,
        }),
    ensures
        is_granted_removal(opening, factor_id),
        events.len() == 2,
        events[0] is ChallengeOpened,
        events[1] == (MfaEvent::FactorVerified::<_, FactorsView> { access_token }),
{
    lemma_mfa_traced(opening, events);
}

/// Every run ends after three events at most, and is over exactly when the action is an answer.
pub proof fn law_every_mfa_run_ends(
    opening: MfaStep<Seq<char>, FactorsView>,
    events: Seq<MfaEvent<Seq<char>, FactorsView>>,
)
    requires
        is_mfa_run(opening, events),
    ensures
        events.len() <= 3,
        mfa_reached(opening, events).state is Done <==> mfa_reached(
            opening,
            events,
        ).action is Reply,
{
    lemma_mfa_traced(opening, events);
}

/// A removal is answered with success only where the factor was removed: a run that a removal
/// opened gives a response with status 200 only as its last event says so.
pub proof fn law_failed_removal_is_no_success(
    aal2: bool,
    form_security: Result<(), RequestSecurityError>,
    access_token: Option<Seq<char>>,
    client_ready: bool,
    factor_id: Seq<char>,
    code: Seq<char>,
    events: Seq<MfaEvent<Seq<char>, FactorsView>>,
    answer: MfaAnswer<Seq<char>, FactorsView>,
    csrf_token: Seq<char>,
)
    requires
        ({
            let opening = removal(
                aal2,
                form_security,
                access_token,
                client_ready,
                factor_id,
                code,
            );
            &&& is_mfa_run(opening, events)
            &&& mfa_reached(opening, events).action == MfaAction::Reply(answer)
        }),
    ensures
        mfa_answered(answer, csrf_token) matches Some(response) && response.status == 200 ==> {
            &&& events.len() == 3
            &&& events[2] is Removed
        },
{
    let opening = removal(aal2, form_security, access_token, client_ready, factor_id, code);
    lemma_mfa_traced(opening, events);
    reveal_with_fuel(mfa_reached, 4);
    reveal_with_fuel(is_mfa_run, 4);
}

/// Without the second level of assurance nothing of a removal is done, not even its form is
/// looked at.
pub proof fn law_removal_needs_the_second_level(
    form_security: Result<(), RequestSecurityError>,
    access_token: Option<Seq<char>>,
    client_ready: bool,
    factor_id: Seq<char>,
    code: Seq<char>,
)
    ensures
        removal(false, form_security, access_token, client_ready, factor_id, code) == mfa_replied(
            MfaAnswer::Denied { status: 401, code: STEP_UP_REQUIRED@ },
        ),
{
}

} // verus!
