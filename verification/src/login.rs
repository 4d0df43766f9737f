//! The sign-in flow: the decisions between the requests to Supabase, the throttle, and the
//! identity service.
//!
//! A submitted form opens the flow. Each step names one action to perform; what came of it is
//! handed back as an event, which leads to the next step, until the action is an answer.

use crate::auth_pages::{channel_of, factor_views, parse_otp_channel, Factor, OtpChannel};
use crate::cookies::CookiePolicy;
use crate::headers::{header_texts, opt_string_views, read_header};
use crate::request_cookies::{cookie_in, cookie_value};
use crate::request_security::{RequestSecurity, RequestSecurityError, SecurityView};
use crate::text::{
    after_last, behind_last, is_without, lemma_after_last, lemma_after_last_is_without,
    lemma_trimmed, opt_string, same_text, trim, trimmed,
};
use axum::http::{HeaderMap, HeaderValue};
use vstd::prelude::*;

verus! {

/// The answer to every attempt over budget. It is deliberately generic and identical whether or
/// not the identifier exists.
pub const THROTTLE_MESSAGE: &'static str =
    "Too many attempts. Wait a few minutes before trying again.";

pub const CREDENTIALS_REQUIRED: &'static str = "Email and password are required.";

pub const CREDENTIALS_REJECTED: &'static str = "Supabase rejected those credentials.";

pub const CHANNEL_REQUIRED: &'static str = "Choose email or phone to receive a code.";

pub const CODE_NOT_SENT: &'static str =
    "We couldn't send that code. Check the address and try again.";

pub const CODE_REJECTED: &'static str =
    "That code didn't match or has expired. Request a new one.";

pub const STEP_UP_EXPIRED: &'static str =
    "Your verification session expired. Please sign in again.";

pub const STEP_UP_REJECTED: &'static str =
    "That code didn't match. Enter the current code from your authenticator app.";

pub const SETTINGS_REQUIRED: &'static str =
    "SUPABASE_URL and SUPABASE_PUBLISHABLE_KEY are required";

pub const PASSWORD_GRANT_PATH: &'static str = "/auth/v1/token?grant_type=password";

pub const LOGIN_BINDING: &'static str = "login\0";

pub const BEARER: &'static str = "Bearer ";

/// The password form, as text `T`.
#[derive(Clone, Debug)]
pub struct CustomerLoginForm<T> {
    pub csrf_token: T,
    pub email: T,
    pub password: T,
}

/// The form that asks for a one-time code, as text `T`.
#[derive(Clone, Debug)]
pub struct OtpRequestForm<T> {
    pub csrf_token: T,
    /// `email` or `phone`.
    pub method: T,
    pub identifier: T,
}

/// The form that redeems a one-time code, as text `T`.
#[derive(Clone, Debug)]
pub struct OtpVerifyForm<T> {
    pub csrf_token: T,
    pub method: T,
    pub identifier: T,
    pub token: T,
}

/// The form that steps a session up with an authenticator code, as text `T`.
#[derive(Clone, Debug)]
pub struct MfaStepUpForm<T> {
    pub csrf_token: T,
    pub factor_id: T,
    pub challenge_id: T,
    pub code: T,
}

impl View for CustomerLoginForm<String> {
    type V = CustomerLoginForm<Seq<char>>;

    open spec fn view(&self) -> CustomerLoginForm<Seq<char>> {
        CustomerLoginForm {
            csrf_token: self.csrf_token@,
            email: self.email@,
            password: self.password@,
        }
    }
}

impl View for OtpRequestForm<String> {
    type V = OtpRequestForm<Seq<char>>;

    open spec fn view(&self) -> OtpRequestForm<Seq<char>> {
        OtpRequestForm {
            csrf_token: self.csrf_token@,
            method: self.method@,
            identifier: self.identifier@,
        }
    }
}

impl View for OtpVerifyForm<String> {
    type V = OtpVerifyForm<Seq<char>>;

    open spec fn view(&self) -> OtpVerifyForm<Seq<char>> {
        OtpVerifyForm {
            csrf_token: self.csrf_token@,
            method: self.method@,
            identifier: self.identifier@,
            token: self.token@,
        }
    }
}

impl View for MfaStepUpForm<String> {
    type V = MfaStepUpForm<Seq<char>>;

    open spec fn view(&self) -> MfaStepUpForm<Seq<char>> {
        MfaStepUpForm {
            csrf_token: self.csrf_token@,
            factor_id: self.factor_id@,
            challenge_id: self.challenge_id@,
            code: self.code@,
        }
    }
}

/// What is configured of Supabase, as text `T`.
#[derive(Clone, Debug)]
pub struct SupabaseConfig<T> {
    pub url: Option<T>,
    pub publishable_key: Option<T>,
    /// Whether a client for the one-time-code and factor calls could be made.
    pub client_ready: bool,
}

impl View for SupabaseConfig<String> {
    type V = SupabaseConfig<Seq<char>>;

    open spec fn view(&self) -> SupabaseConfig<Seq<char>> {
        SupabaseConfig {
            url: opt_string(self.url),
            publishable_key: opt_string(self.publishable_key),
            client_ready: self.client_ready,
        }
    }
}

/// What an attempt is counted against.
#[derive(Clone, Copy, Debug, PartialEq, Eq, Structural)]
pub enum Bucket {
    PasswordPerIdentifier,
    OtpDispatchPerIdentifier,
    OtpDispatchPerClient,
    OtpVerifyPerIdentifier,
    MfaVerifyPerClient,
}

/// Whose attempts are counted, as text `T`.
#[derive(Clone, Debug, PartialEq, Eq)]
pub enum BudgetKey<T> {
    Identifier(T),
    /// The client behind the last `X-Forwarded-For` hop, where there is one that can be read.
    Client(Option<T>),
}

impl View for BudgetKey<String> {
    type V = BudgetKey<Seq<char>>;

    open spec fn view(&self) -> BudgetKey<Seq<char>> {
        match self {
            BudgetKey::Identifier(identifier) => BudgetKey::Identifier(identifier@),
            BudgetKey::Client(forwarded) => BudgetKey::Client(opt_string(*forwarded)),
        }
    }
}

/// What a dependency could not do.
#[derive(Clone, Copy, Debug, PartialEq, Eq, Structural)]
pub enum Outage {
    LoginNotConfigured,
    LoginFailed,
    MfaStateUnavailable,
    MfaChallengeFailed,
    MfaUnenrollFailed,
}

impl Outage {
    /// The machine-readable code of each outage.
    pub open spec fn name(self) -> Seq<char> {
        match self {
            Outage::LoginNotConfigured => "customer_login_not_configured"@,
            Outage::LoginFailed => "supabase_login_failed"@,
            Outage::MfaStateUnavailable => "mfa_state_unavailable"@,
            Outage::MfaChallengeFailed => "mfa_challenge_failed"@,
            Outage::MfaUnenrollFailed => "mfa_unenroll_failed"@,
        }
    }

    /// The machine-readable code of the outage.
    pub fn code(self) -> (r: &'static str)
        ensures
            r@ == self.name(),
    {
        match self {
            Outage::LoginNotConfigured => "customer_login_not_configured",
            Outage::LoginFailed => "supabase_login_failed",
            Outage::MfaStateUnavailable => "mfa_state_unavailable",
            Outage::MfaChallengeFailed => "mfa_challenge_failed",
            Outage::MfaUnenrollFailed => "mfa_unenroll_failed",
        }
    }
}

/// Where the detail of an outage comes from.
#[derive(Clone, Copy, Debug, PartialEq, Eq, Structural)]
pub enum Detail {
    /// Settings are missing: `SETTINGS_REQUIRED` says which.
    MissingSettings,
    /// The error of the action that failed.
    Upstream,
    /// The access token cannot stand in a header.
    InvalidHeaderValue,
}

/// A page of the flow, as text `T`.
#[derive(Clone, Debug, PartialEq, Eq)]
pub enum Page<T> {
    Login { message: Option<T> },
    Code { channel: OtpChannel, identifier: T, message: Option<T> },
    StepUp { factor_id: T, challenge_id: T, message: Option<T> },
}

impl View for Page<String> {
    type V = Page<Seq<char>>;

    open spec fn view(&self) -> Page<Seq<char>> {
        match self {
            Page::Login { message } => Page::Login { message: opt_string(*message) },
            Page::Code { channel, identifier, message } => Page::Code {
                channel: *channel,
                identifier: identifier@,
                message: opt_string(*message),
            },
            Page::StepUp { factor_id, challenge_id, message } => Page::StepUp {
                factor_id: factor_id@,
                challenge_id: challenge_id@,
                message: opt_string(*message),
            },
        }
    }
}

/// How the flow answers, as text `T`.
#[derive(Clone, Debug, PartialEq, Eq)]
pub enum Answer<T> {
    /// The request is refused.
    Refused(RequestSecurityError),
    /// A dependency is not available.
    Unavailable { outage: Outage, detail: Detail },
    /// A page with its status.
    Show { page: Page<T>, status: u16 },
    /// A page as the answer to an attempt over budget.
    Throttled { page: Page<T>, retry_after_secs: u64 },
    /// The error of the action that failed, with the page that lets the user try again where
    /// the error is the user's.
    Retry { page: Page<T>, status: u16 },
    /// The step-up page, with the token of the primary factor in the pending cookie.
    StepUp { factor_id: T, challenge_id: T, access_token: T },
    /// The session is issued.
    SignedIn { access_token: T },
    /// The identity service refused the token: its own response stands.
    NotAuthenticated,
}

impl View for Answer<String> {
    type V = Answer<Seq<char>>;

    open spec fn view(&self) -> Answer<Seq<char>> {
        match self {
            Answer::Refused(error) => Answer::Refused(*error),
            Answer::Unavailable { outage, detail } => Answer::Unavailable {
                outage: *outage,
                detail: *detail,
            },
            Answer::Show { page, status } => Answer::Show { page: page@, status: *status },
            Answer::Throttled { page, retry_after_secs } => Answer::Throttled {
                page: page@,
                retry_after_secs: *retry_after_secs,
            },
            Answer::Retry { page, status } => Answer::Retry { page: page@, status: *status },
            Answer::StepUp { factor_id, challenge_id, access_token } => Answer::StepUp {
                factor_id: factor_id@,
                challenge_id: challenge_id@,
                access_token: access_token@,
            },
            Answer::SignedIn { access_token } => Answer::SignedIn { access_token: access_token@ },
            Answer::NotAuthenticated => Answer::NotAuthenticated,
        }
    }
}

/// What is to be done next, as text `T`.
#[derive(Clone, Debug, PartialEq, Eq)]
pub enum Action<T> {
    /// Count an attempt and ask whether it is within budget.
    CheckBudget { bucket: Bucket, key: BudgetKey<T> },
    /// Post the credentials to Supabase's password grant.
    PasswordGrant { url: T, apikey: T, email: T, password: T },
    /// Send a one-time code.
    SendOtp { channel: OtpChannel, identifier: T, create_user: bool },
    /// Redeem a one-time code.
    VerifyOtp { channel: OtpChannel, identifier: T, code: T },
    /// List the factors of the account, and pick the one that is required, if any.
    ListFactors { access_token: T },
    /// Open a challenge for a factor.
    OpenChallenge { access_token: T, factor_id: T },
    /// Verify an authenticator code against a challenge.
    VerifyFactor { access_token: T, factor_id: T, challenge_id: T, code: T },
    /// Have the identity service verify the identity and the organizations of a token.
    Authenticate { authorization: T },
    /// Answer.
    Reply(Answer<T>),
}

impl View for Action<String> {
    type V = Action<Seq<char>>;

    open spec fn view(&self) -> Action<Seq<char>> {
        match self {
            Action::CheckBudget { bucket, key } => Action::CheckBudget {
                bucket: *bucket,
                key: key@,
            },
            Action::PasswordGrant { url, apikey, email, password } => Action::PasswordGrant {
                url: url@,
                apikey: apikey@,
                email: email@,
                password: password@,
            },
            Action::SendOtp { channel, identifier, create_user } => Action::SendOtp {
                channel: *channel,
                identifier: identifier@,
                create_user: *create_user,
            },
            Action::VerifyOtp { channel, identifier, code } => Action::VerifyOtp {
                channel: *channel,
                identifier: identifier@,
                code: code@,
            },
            Action::ListFactors { access_token } => Action::ListFactors {
                access_token: access_token@,
            },
            Action::OpenChallenge { access_token, factor_id } => Action::OpenChallenge {
                access_token: access_token@,
                factor_id: factor_id@,
            },
            Action::VerifyFactor {
                access_token,
                factor_id,
                challenge_id,
                code,
            } => Action::VerifyFactor {
                access_token: access_token@,
                factor_id: factor_id@,
                challenge_id: challenge_id@,
                code: code@,
            },
            Action::Authenticate { authorization } => Action::Authenticate {
                authorization: authorization@,
            },
            Action::Reply(answer) => Action::Reply(answer@),
        }
    }
}

/// What the flow waits for, as text `T`.
#[derive(Clone, Debug, PartialEq, Eq)]
pub enum State<T> {
    PasswordBudget { email: T, password: T },
    PasswordGrant,
    OtpIdentifierBudget { channel: OtpChannel, identifier: T, forwarded: Option<T> },
    OtpClientBudget { channel: OtpChannel, identifier: T },
    OtpDispatch { channel: OtpChannel, identifier: T },
    CodeBudget { channel: OtpChannel, identifier: T, code: T },
    CodeCheck { channel: OtpChannel, identifier: T },
    StepUpBudget { pending_token: T, factor_id: T, challenge_id: T, code: T },
    StepUpCheck { factor_id: T, challenge_id: T },
    Factors { access_token: T },
    Challenge { access_token: T },
    Identity { access_token: T },
    Done,
}

impl View for State<String> {
    type V = State<Seq<char>>;

    open spec fn view(&self) -> State<Seq<char>> {
        match self {
            State::PasswordBudget { email, password } => State::PasswordBudget {
                email: email@,
                password: password@,
            },
            State::PasswordGrant => State::PasswordGrant,
            State::OtpIdentifierBudget {
                channel,
                identifier,
                forwarded,
            } => State::OtpIdentifierBudget {
                channel: *channel,
                identifier: identifier@,
                forwarded: opt_string(*forwarded),
            },
            State::OtpClientBudget { channel, identifier } => State::OtpClientBudget {
                channel: *channel,
                identifier: identifier@,
            },
            State::OtpDispatch { channel, identifier } => State::OtpDispatch {
                channel: *channel,
                identifier: identifier@,
            },
            State::CodeBudget { channel, identifier, code } => State::CodeBudget {
                channel: *channel,
                identifier: identifier@,
                code: code@,
            },
            State::CodeCheck { channel, identifier } => State::CodeCheck {
                channel: *channel,
                identifier: identifier@,
            },
            State::StepUpBudget {
                pending_token,
                factor_id,
                challenge_id,
                code,
            } => State::StepUpBudget {
                pending_token: pending_token@,
                factor_id: factor_id@,
                challenge_id: challenge_id@,
                code: code@,
            },
            State::StepUpCheck { factor_id, challenge_id } => State::StepUpCheck {
                factor_id: factor_id@,
                challenge_id: challenge_id@,
            },
            State::Factors { access_token } => State::Factors { access_token: access_token@ },
            State::Challenge { access_token } => State::Challenge { access_token: access_token@ },
            State::Identity { access_token } => State::Identity { access_token: access_token@ },
            State::Done => State::Done,
        }
    }
}

/// What came of an action, as text `T`.
#[derive(Clone, Debug, PartialEq, Eq)]
pub enum Event<T> {
    /// Whether the attempt is within budget, and else when to try again.
    Budget { allowed: bool, retry_after_secs: u64 },
    GrantAccepted { access_token: T },
    /// Supabase answered the grant with a status other than success.
    GrantRejected,
    /// The grant could not be posted, or its answer not be read.
    GrantFailed,
    CodeSent,
    CodeNotSent,
    CodeAccepted { access_token: T },
    CodeRejected,
    /// The factors were listed: the verified authenticator that is required, if any.
    FactorRequired { factor_id: Option<T> },
    FactorsUnavailable,
    ChallengeOpened { factor_id: T, challenge_id: T },
    ChallengeFailed,
    FactorVerified { access_token: T },
    FactorRejected,
    /// Whether the identity service accepted the token.
    Identity { accepted: bool },
}

impl View for Event<String> {
    type V = Event<Seq<char>>;

    open spec fn view(&self) -> Event<Seq<char>> {
        match self {
            Event::Budget { allowed, retry_after_secs } => Event::Budget {
                allowed: *allowed,
                retry_after_secs: *retry_after_secs,
            },
            Event::GrantAccepted { access_token } => Event::GrantAccepted {
                access_token: access_token@,
            },
            Event::GrantRejected => Event::GrantRejected,
            Event::GrantFailed => Event::GrantFailed,
            Event::CodeSent => Event::CodeSent,
            Event::CodeNotSent => Event::CodeNotSent,
            Event::CodeAccepted { access_token } => Event::CodeAccepted {
                access_token: access_token@,
            },
            Event::CodeRejected => Event::CodeRejected,
            Event::FactorRequired { factor_id } => Event::FactorRequired {
                factor_id: opt_string(*factor_id),
            },
            Event::FactorsUnavailable => Event::FactorsUnavailable,
            Event::ChallengeOpened { factor_id, challenge_id } => Event::ChallengeOpened {
                factor_id: factor_id@,
                challenge_id: challenge_id@,
            },
            Event::ChallengeFailed => Event::ChallengeFailed,
            Event::FactorVerified { access_token } => Event::FactorVerified {
                access_token: access_token@,
            },
            Event::FactorRejected => Event::FactorRejected,
            Event::Identity { accepted } => Event::Identity { accepted: *accepted },
        }
    }
}

/// What is to be done, and what the flow then waits for, as text `T`.
#[derive(Clone, Debug, PartialEq, Eq)]
pub struct Step<T> {
    pub state: State<T>,
    pub action: Action<T>,
}

impl View for Step<String> {
    type V = Step<Seq<char>>;

    open spec fn view(&self) -> Step<Seq<char>> {
        Step { state: self.state@, action: self.action@ }
    }
}

/// The last step of a flow.
pub open spec fn replied(answer: Answer<Seq<char>>) -> Step<Seq<char>> {
    Step { state: State::Done, action: Action::Reply(answer) }
}

pub(crate) fn reply(answer: Answer<String>) -> (r: Step<String>)
    ensures
        r@ == replied(answer@),
{
    Step { state: State::Done, action: Action::Reply(answer) }
}

/// The answer that settings are missing.
pub open spec fn not_configured() -> Answer<Seq<char>> {
    Answer::Unavailable { outage: Outage::LoginNotConfigured, detail: Detail::MissingSettings }
}

pub(crate) fn not_configured_answer() -> (r: Answer<String>)
    ensures
        r@ == not_configured(),
{
    Answer::Unavailable { outage: Outage::LoginNotConfigured, detail: Detail::MissingSettings }
}

/// The login page with a message.
pub open spec fn login_with(message: Seq<char>) -> Page<Seq<char>> {
    Page::Login { message: Some(message) }
}

pub(crate) fn login_with_message(message: &str) -> (r: Page<String>)
    ensures
        r@ == login_with(message@),
{
    Page::Login { message: Some(message.to_owned()) }
}

/// The verdict on a request that submits a form of the sign-in flow, given the nonce in its
/// cookie: the same-origin check, then the token of the page that set the cookie.
pub open spec fn login_check(
    security: SecurityView,
    headers: HeaderMap<HeaderValue>,
    nonce: Option<Seq<char>>,
    provided_csrf: Seq<char>,
) -> Result<(), RequestSecurityError> {
    match security.same_origin_check(headers) {
        Err(error) => Err(error),
        Ok(()) => match nonce {
            None => Err(RequestSecurityError::InvalidCsrfToken),
            Some(nonce) => security.csrf_check(LOGIN_BINDING@ + nonce, provided_csrf),
        },
    }
}

/// Requires that a form of the sign-in flow comes from the customer origin, with the token that
/// is bound to the nonce in the login cookie.
pub fn require_login_security(
    headers: &HeaderMap,
    security: &RequestSecurity,
    cookies: &CookiePolicy<String>,
    provided_csrf: &str,
) -> (r: Result<(), RequestSecurityError>)
    ensures
        r == login_check(
            security@,
            *headers,
            cookie_in(*headers, cookies@.login_csrf),
            provided_csrf@,
        ),
{
    match security.require_same_origin(headers) {
        Err(error) => return Err(error),
        Ok(()) => {},
    }
    match cookie_value(headers, cookies.login_csrf.as_str()) {
        None => Err(RequestSecurityError::InvalidCsrfToken),
        Some(nonce) => {
            let mut binding = LOGIN_BINDING.to_owned();
            binding.append(nonce.as_str());
            security.verify_csrf_token(binding.as_str(), provided_csrf)
        },
    }
}

/// The last hop that the lines of a forwarding header name: what stands behind the last comma of
/// the last line, trimmed. There is none where that line is absent or cannot be read.
pub open spec fn last_hop(lines: Seq<Option<Seq<char>>>) -> Option<Seq<char>> {
    if lines.len() == 0 {
        None
    } else {
        match lines.last() {
            Some(line) => Some(trimmed(after_last(line, ','))),
            None => None,
        }
    }
}

/// The hop by which a client is told from others.
pub open spec fn forwarded_for(headers: HeaderMap<HeaderValue>) -> Option<Seq<char>> {
    last_hop(header_texts(headers, "x-forwarded-for"@))
}

/// The client identity of the per-client buckets. Only the last `X-Forwarded-For` hop is
/// trustworthy behind the gateway: it is the one that the gateway itself added.
pub fn throttle_client_key(headers: &HeaderMap) -> (r: Option<String>)
    ensures
        opt_string(r) == last_hop(header_texts(*headers, "x-forwarded-for"@)),
{
    proof {
        reveal_strlit("x-forwarded-for");
    }
    let lines = read_header(headers, "x-forwarded-for");
    let ghost texts = header_texts(*headers, "x-forwarded-for"@);
    assert(opt_string_views(lines@).len() == texts.len());
    if lines.len() == 0 {
        return None;
    }
    let last: usize = lines.len() - 1;
    assert(opt_string_views(lines@)[last as int] == texts[last as int]);
    match &lines[last] {
        Some(line) => Some(trim(behind_last(line.as_str(), ',')).to_owned()),
        None => None,
    }
}

/// No earlier hop, which a client can forge, changes the client identity: neither one in an
/// earlier line nor one before it in the last line.
pub proof fn law_earlier_hops_do_not_count(
    earlier_lines: Seq<Option<Seq<char>>>,
    earlier_hops: Seq<char>,
    hop: Seq<char>,
)
    requires
        is_without(hop, ','),
    ensures
        last_hop(earlier_lines.push(Some(hop))) == last_hop(seq![Some(hop)]),
        last_hop(earlier_lines.push(Some(earlier_hops + ","@ + hop))) == last_hop(
            seq![Some(hop)],
        ),
{
    reveal_strlit(",");
    assert(earlier_hops + ","@ + hop =~= earlier_hops.push(',') + hop);
    lemma_after_last(earlier_hops, hop, ',');
}

/// The client identity is that of a request whose only line is the last hop itself.
pub proof fn law_last_hop_stands_for_the_client(lines: Seq<Option<Seq<char>>>)
    ensures
        last_hop(lines) matches Some(hop) ==> last_hop(seq![Some(hop)]) == Some(hop),
{
    if lines.len() > 0 {
        if let Some(line) = lines.last() {
            let behind = after_last(line, ',');
            lemma_after_last_is_without(line, ',');
            lemma_trimmed(behind, ',');
            lemma_after_last(Seq::empty(), trimmed(behind), ',');
        }
    }
}

/// Asks whether an attempt is within budget.
pub open spec fn budget_check(bucket: Bucket, key: BudgetKey<Seq<char>>) -> Action<Seq<char>> {
    Action::CheckBudget { bucket, key }
}

/// The opening of the flow by the password form.
pub open spec fn password_submission(
    security: SecurityView,
    headers: HeaderMap<HeaderValue>,
    nonce: Option<Seq<char>>,
    form: CustomerLoginForm<Seq<char>>,
) -> Step<Seq<char>> {
    match login_check(security, headers, nonce, form.csrf_token) {
        Err(error) => replied(Answer::Refused(error)),
        Ok(()) => {
            let email = trimmed(form.email);
            if email.len() == 0 || form.password.len() == 0 {
                replied(Answer::Show { page: login_with(CREDENTIALS_REQUIRED@), status: 400 })
            } else {
                Step {
                    state: State::PasswordBudget { email, password: form.password },
                    action: budget_check(
                        Bucket::PasswordPerIdentifier,
                        BudgetKey::Identifier(email),
                    ),
                }
            }
        },
    }
}

/// `POST /login`: checks the request and the form. Credential stuffing against one account is
/// bounded before an upstream round trip is spent on it.
pub fn customer_login_submit(
    security: &RequestSecurity,
    headers: &HeaderMap,
    cookies: &CookiePolicy<String>,
    form: CustomerLoginForm<String>,
) -> (r: Step<String>)
    ensures
        r@ == password_submission(
            security@,
            *headers,
            cookie_in(*headers, cookies@.login_csrf),
            form@,
        ),
{
    if let Err(error) = require_login_security(
        headers,
        security,
        cookies,
        form.csrf_token.as_str(),
    ) {
        return reply(Answer::Refused(error));
    }
    let email = trim(form.email.as_str()).to_owned();
    if email.as_str().is_empty() || form.password.as_str().is_empty() {
        return reply(
            Answer::Show { page: login_with_message(CREDENTIALS_REQUIRED), status: 400 },
        );
    }
    let key = BudgetKey::Identifier(email.clone());
    Step {
        state: State::PasswordBudget { email, password: form.password },
        action: Action::CheckBudget { bucket: Bucket::PasswordPerIdentifier, key },
    }
}

/// The opening of the flow by the form that asks for a code.
pub open spec fn code_request(
    security: SecurityView,
    headers: HeaderMap<HeaderValue>,
    nonce: Option<Seq<char>>,
    supabase: SupabaseConfig<Seq<char>>,
    form: OtpRequestForm<Seq<char>>,
) -> Step<Seq<char>> {
    match login_check(security, headers, nonce, form.csrf_token) {
        Err(error) => replied(Answer::Refused(error)),
        Ok(()) => match channel_of(form.method) {
            None => replied(
                Answer::Show { page: login_with(CHANNEL_REQUIRED@), status: 400 },
            ),
            Some(channel) => if !supabase.client_ready {
                replied(not_configured())
            } else {
                let identifier = trimmed(form.identifier);
                Step {
                    state: State::OtpIdentifierBudget {
                        channel,
                        identifier,
                        forwarded: forwarded_for(headers),
                    },
                    action: budget_check(
                        Bucket::OtpDispatchPerIdentifier,
                        BudgetKey::Identifier(identifier),
                    ),
                }
            },
        },
    }
}

/// `POST /login/otp`: dispatches a one-time code over email or phone.
///
/// Two budgets, two different abuses. The one per identifier stops a victim being spammed with
/// messages they never asked for; the one per client caps what one caller can bill when it
/// rotates the destination with every request. Both are checked before the dispatch.
pub fn customer_login_otp_submit(
    security: &RequestSecurity,
    headers: &HeaderMap,
    cookies: &CookiePolicy<String>,
    supabase: &SupabaseConfig<String>,
    form: OtpRequestForm<String>,
) -> (r: Step<String>)
    ensures
        r@ == code_request(
            security@,
            *headers,
            cookie_in(*headers, cookies@.login_csrf),
            supabase@,
            form@,
        ),
{
    if let Err(error) = require_login_security(
        headers,
        security,
        cookies,
        form.csrf_token.as_str(),
    ) {
        return reply(Answer::Refused(error));
    }
    let channel = match parse_otp_channel(form.method.as_str()) {
        Some(channel) => channel,
        None => {
            return reply(
                Answer::Show { page: login_with_message(CHANNEL_REQUIRED), status: 400 },
            );
        },
    };
    if !supabase.client_ready {
        return reply(not_configured_answer());
    }
    let identifier = trim(form.identifier.as_str()).to_owned();
    let key = BudgetKey::Identifier(identifier.clone());
    Step {
        state: State::OtpIdentifierBudget {
            channel,
            identifier,
            forwarded: throttle_client_key(headers),
        },
        action: Action::CheckBudget { bucket: Bucket::OtpDispatchPerIdentifier, key },
    }
}

/// The opening of the flow by the form that redeems a code.
pub open spec fn code_submission(
    security: SecurityView,
    headers: HeaderMap<HeaderValue>,
    nonce: Option<Seq<char>>,
    supabase: SupabaseConfig<Seq<char>>,
    form: OtpVerifyForm<Seq<char>>,
) -> Step<Seq<char>> {
    match login_check(security, headers, nonce, form.csrf_token) {
        Err(error) => replied(Answer::Refused(error)),
        Ok(()) => match channel_of(form.method) {
            None => replied(
                Answer::Show { page: login_with(CHANNEL_REQUIRED@), status: 200 },
            ),
            Some(channel) => if !supabase.client_ready {
                replied(not_configured())
            } else {
                let identifier = trimmed(form.identifier);
                Step {
                    state: State::CodeBudget { channel, identifier, code: form.token },
                    action: budget_check(
                        Bucket::OtpVerifyPerIdentifier,
                        BudgetKey::Identifier(identifier),
                    ),
                }
            },
        },
    }
}

/// `POST /login/verify`: redeems a one-time code.
///
/// A short code can be ground down without an attempt cap. The cap is on the identifier being
/// attacked, not on the caller, so that rotating source addresses does not buy fresh attempts
/// against one account.
pub fn customer_login_verify_submit(
    security: &RequestSecurity,
    headers: &HeaderMap,
    cookies: &CookiePolicy<String>,
    supabase: &SupabaseConfig<String>,
    form: OtpVerifyForm<String>,
) -> (r: Step<String>)
    ensures
        r@ == code_submission(
            security@,
            *headers,
            cookie_in(*headers, cookies@.login_csrf),
            supabase@,
            form@,
        ),
{
    if let Err(error) = require_login_security(
        headers,
        security,
        cookies,
        form.csrf_token.as_str(),
    ) {
        return reply(Answer::Refused(error));
    }
    let channel = match parse_otp_channel(form.method.as_str()) {
        Some(channel) => channel,
        None => {
            return reply(
                Answer::Show { page: login_with_message(CHANNEL_REQUIRED), status: 200 },
            );
        },
    };
    if !supabase.client_ready {
        return reply(not_configured_answer());
    }
    let identifier = trim(form.identifier.as_str()).to_owned();
    let key = BudgetKey::Identifier(identifier.clone());
    Step {
        state: State::CodeBudget { channel, identifier, code: form.token },
        action: Action::CheckBudget { bucket: Bucket::OtpVerifyPerIdentifier, key },
    }
}

/// The opening of the flow by the step-up form, given the token in the pending cookie.
pub open spec fn step_up_submission(
    security: SecurityView,
    headers: HeaderMap<HeaderValue>,
    nonce: Option<Seq<char>>,
    pending_token: Option<Seq<char>>,
    supabase: SupabaseConfig<Seq<char>>,
    form: MfaStepUpForm<Seq<char>>,
) -> Step<Seq<char>> {
    match login_check(security, headers, nonce, form.csrf_token) {
        Err(error) => replied(Answer::Refused(error)),
        Ok(()) => match pending_token {
            None => replied(
                Answer::Show { page: login_with(STEP_UP_EXPIRED@), status: 200 },
            ),
            Some(pending_token) => if !supabase.client_ready {
                replied(not_configured())
            } else {
                Step {
                    state: State::StepUpBudget {
                        pending_token,
                        factor_id: form.factor_id,
                        challenge_id: form.challenge_id,
                        code: form.code,
                    },
                    action: budget_check(
                        Bucket::MfaVerifyPerClient,
                        BudgetKey::Client(forwarded_for(headers)),
                    ),
                }
            },
        },
    }
}

/// `POST /login/mfa`: verifies the authenticator code against the open challenge.
///
/// The challenge is deliberately kept alive across wrong codes so that a user can retry the
/// current one. The cap on attempts is what makes the second factor an actual barrier.
pub fn customer_login_mfa_submit(
    security: &RequestSecurity,
    headers: &HeaderMap,
    cookies: &CookiePolicy<String>,
    supabase: &SupabaseConfig<String>,
    form: MfaStepUpForm<String>,
) -> (r: Step<String>)
    ensures
        r@ == step_up_submission(
            security@,
            *headers,
            cookie_in(*headers, cookies@.login_csrf),
            cookie_in(*headers, cookies@.mfa_pending),
            supabase@,
            form@,
        ),
{
    if let Err(error) = require_login_security(
        headers,
        security,
        cookies,
        form.csrf_token.as_str(),
    ) {
        return reply(Answer::Refused(error));
    }
    let pending_token = match cookie_value(headers, cookies.mfa_pending.as_str()) {
        Some(pending_token) => pending_token,
        None => {
            return reply(
                Answer::Show { page: login_with_message(STEP_UP_EXPIRED), status: 200 },
            );
        },
    };
    if !supabase.client_ready {
        return reply(not_configured_answer());
    }
    let key = BudgetKey::Client(throttle_client_key(headers));
    Step {
        state: State::StepUpBudget {
            pending_token,
            factor_id: form.factor_id,
            challenge_id: form.challenge_id,
            code: form.code,
        },
        action: Action::CheckBudget { bucket: Bucket::MfaVerifyPerClient, key },
    }
}

/// An authenticator without which an account is not signed in: a verified one-time-code generator.
pub open spec fn is_required(factor: Factor<Seq<char>>) -> bool {
    factor.factor_type == Some("totp"@) && factor.status == Some("verified"@)
}

/// The first authenticator that an account requires.
pub open spec fn required_factor(factors: Seq<Factor<Seq<char>>>) -> Option<Seq<char>>
    decreases factors.len(),
{
    if factors.len() == 0 {
        None
    } else if is_required(factors[0]) {
        Some(factors[0].id)
    } else {
        required_factor(factors.skip(1))
    }
}

fn is_text(text: &Option<String>, expected: &str) -> (r: bool)
    ensures
        r == (opt_string(*text) == Some(expected@)),
{
    match text {
        Some(text) => same_text(text.as_str(), expected),
        None => false,
    }
}

/// The authenticator that an account requires, if it has one.
pub fn required_totp_factor(factors: &[Factor<String>]) -> (r: Option<String>)
    ensures
        opt_string(r) == required_factor(factor_views(factors@)),
{
    let ghost views = factor_views(factors@);
    let mut i: usize = 0;
    assert(views.skip(0) =~= views);
    while i < factors.len()
        invariant
            i <= factors.len(),
            views == factor_views(factors@),
            required_factor(views) == required_factor(views.skip(i as int)),
        decreases factors.len() - i,
    {
        assert(views.skip(i as int)[0] == factors@[i as int]@);
        assert(views.skip(i as int).skip(1) =~= views.skip(i + 1));
        if is_text(&factors[i].factor_type, "totp") && is_text(&factors[i].status, "verified") {
            return Some(factors[i].id.clone());
        }
        i += 1;
    }
    None
}

/// Whether a session still owes the second factor: it has the first one only, and its account
/// requires an authenticator.
pub fn owes_step_up(aal2: bool, factors: &[Factor<String>]) -> (r: bool)
    ensures
        r == (!aal2 && required_factor(factor_views(factors@)) is Some),
{
    !aal2 && required_totp_factor(factors).is_some()
}

/// An account requires an authenticator exactly where some authenticator is a verified
/// one-time-code generator, and the one it requires is of that kind.
pub proof fn law_verified_authenticator_is_required(factors: Seq<Factor<Seq<char>>>)
    ensures
        required_factor(factors) is Some <==> exists|i: int|
            0 <= i < factors.len() && is_required(#[trigger] factors[i]),
        required_factor(factors) matches Some(id) ==> exists|i: int|
            0 <= i < factors.len() && is_required(#[trigger] factors[i]) && factors[i].id == id,
    decreases factors.len(),
{
    if factors.len() > 0 && !is_required(factors[0]) {
        let rest = factors.skip(1);
        law_verified_authenticator_is_required(rest);
        if required_factor(rest) is Some {
            let i = choose|i: int|
                0 <= i < rest.len() && is_required(#[trigger] rest[i]) && Some(rest[i].id)
                    == required_factor(rest);
            assert(factors[i + 1] == rest[i]);
        }
        if exists|i: int| 0 <= i < factors.len() && is_required(#[trigger] factors[i]) {
            let i = choose|i: int| 0 <= i < factors.len() && is_required(#[trigger] factors[i]);
            assert(rest[i - 1] == factors[i]);
        }
    } else if factors.len() > 0 {
        assert(is_required(factors[0]));
    }
}

/// Every outage has the code that its name spells.
pub proof fn law_outages_have_their_codes()
    ensures
        SETTINGS_REQUIRED@ == "SUPABASE_URL and SUPABASE_PUBLISHABLE_KEY are required"@,
        Outage::LoginNotConfigured.name() == "customer_login_not_configured"@,
        Outage::LoginFailed.name() == "supabase_login_failed"@,
        Outage::MfaStateUnavailable.name() == "mfa_state_unavailable"@,
        Outage::MfaChallengeFailed.name() == "mfa_challenge_failed"@,
        Outage::MfaUnenrollFailed.name() == "mfa_unenroll_failed"@,
{
}

/// The required authenticator is the first of its kind: those before it are not, whatever follows.
pub proof fn law_first_verified_authenticator_is_required(
    before: Seq<Factor<Seq<char>>>,
    factor: Factor<Seq<char>>,
    after: Seq<Factor<Seq<char>>>,
)
    requires
        forall|i: int|
            0 <= i < before.len() ==> (#[trigger] before[i]).factor_type != Some("totp"@)
                || before[i].status != Some("verified"@),
        factor.factor_type == Some("totp"@),
        factor.status == Some("verified"@),
    ensures
        required_factor(before) is None,
        required_factor(before.push(factor) + after) == Some(factor.id),
    decreases before.len(),
{
    let all = before.push(factor) + after;
    if before.len() == 0 {
        assert(all[0] == factor);
    } else {
        assert(all[0] == before[0]);
        assert(all.skip(1) =~= before.skip(1).push(factor) + after);
        assert forall|i: int| 0 <= i < before.skip(1).len() implies (#[trigger] before.skip(
            1,
        )[i]).factor_type != Some("totp"@) || before.skip(1)[i].status != Some("verified"@) by {
            assert(before.skip(1)[i] == before[i + 1]);
        }
        law_first_verified_authenticator_is_required(before.skip(1), factor, after);
    }
}

} // verus!
