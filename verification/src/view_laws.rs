//! Views hide nothing: each part of a value stands in its view, as it is.

use crate::auth_pages::{factor_views, Factor, TotpEnrollment};
use crate::cookies::CookiePolicy;
use crate::headers::opt_string_views;
use crate::login::{
    Action, Answer, BudgetKey, CustomerLoginForm, Event, MfaStepUpForm, OtpRequestForm,
    OtpVerifyForm, Page, State, Step, SupabaseConfig,
};
use crate::mfa::{Factors, FactorsView, MfaAction, MfaAnswer, MfaEvent, MfaState, MfaStep};
use crate::origin::{CustomerOrigin, UrlParts};
use crate::portal::{CustomerCtx, Org, PortalConfig};
use crate::response::{header_views, Body, Response};
use crate::store::{Bind, BindView, Statement};
use crate::streaming::{
    SocketAction, SocketActionView, SocketEvent, SocketEventView, StreamEvent, StreamPayload,
};
use crate::tables::{
    event_views, notification_views, session_views, CustomerAuditEvent, CustomerPreferences,
    Notification, TrustedSession,
};
use crate::text::{opt_str, opt_string, string_views};
use vstd::prelude::*;

verus! {

/// The views of texts that may be missing, and of lists, leave out nothing and add nothing.
pub proof fn law_lists_and_missing_texts_are_seen_whole(
    text: String,
    slice: &str,
    list: Seq<String>,
    texts: Seq<Option<String>>,
    headers: Seq<(String, String)>,
    i: int,
)
    ensures
        opt_string(Some(text)) == Some(text@),
        opt_string(None) == None::<Seq<char>>,
        opt_str(Some(slice)) == Some(slice@),
        opt_str(None) == None::<Seq<char>>,
        string_views(list).len() == list.len(),
        0 <= i < list.len() ==> string_views(list)[i] == list[i]@,
        opt_string_views(texts).len() == texts.len(),
        0 <= i < texts.len() ==> opt_string_views(texts)[i] == opt_string(texts[i]),
        header_views(headers).len() == headers.len(),
        0 <= i < headers.len() ==> header_views(headers)[i] == (headers[i].0@, headers[i].1@),
{
}

/// The views of lists of rows have the view of each row, in their order.
pub proof fn law_rows_are_seen_in_order(
    factors: Seq<Factor<String>>,
    notifications: Seq<Notification<String>>,
    events: Seq<CustomerAuditEvent<String>>,
    sessions: Seq<TrustedSession<String>>,
    i: int,
)
    ensures
        factor_views(factors).len() == factors.len(),
        0 <= i < factors.len() ==> factor_views(factors)[i] == factors[i]@,
        notification_views(notifications).len() == notifications.len(),
        0 <= i < notifications.len() ==> notification_views(notifications)[i] == notifications[i]@,
        event_views(events).len() == events.len(),
        0 <= i < events.len() ==> event_views(events)[i] == events[i]@,
        session_views(sessions).len() == sessions.len(),
        0 <= i < sessions.len() ==> session_views(sessions)[i] == sessions[i]@,
{
}

/// The view of a `Factor` has each of its parts, as it is.
pub proof fn law_factor_is_seen_whole(factor: Factor<String>)
    ensures
        factor@.id == factor.id@,
        factor@.friendly_name == opt_string(factor.friendly_name),
        factor@.factor_type == opt_string(factor.factor_type),
        factor@.status == opt_string(factor.status),
{
}

/// The view of a `TotpEnrollment` has each of its parts, as it is.
pub proof fn law_totp_enrollment_is_seen_whole(enrollment: TotpEnrollment<String>)
    ensures
        enrollment@.factor_id == enrollment.factor_id@,
        enrollment@.qr_code == enrollment.qr_code@,
        enrollment@.secret == enrollment.secret@,
        enrollment@.uri == enrollment.uri@,
{
}

/// The view of a `CookiePolicy` has each of its parts, as it is.
pub proof fn law_cookie_policy_is_seen_whole(policy: CookiePolicy<String>)
    ensures
        policy@.login_csrf == policy.login_csrf@,
        policy@.session == policy.session@,
        policy@.mfa_pending == policy.mfa_pending@,
        policy@.release_hardened == policy.release_hardened,
        policy@.insecure_setting == opt_string(policy.insecure_setting),
{
}

/// The view of a `CustomerLoginForm` has each of its parts, as it is.
pub proof fn law_customer_login_form_is_seen_whole(form: CustomerLoginForm<String>)
    ensures
        form@.csrf_token == form.csrf_token@,
        form@.email == form.email@,
        form@.password == form.password@,
{
}

/// The view of a `OtpRequestForm` has each of its parts, as it is.
pub proof fn law_otp_request_form_is_seen_whole(form: OtpRequestForm<String>)
    ensures
        form@.csrf_token == form.csrf_token@,
        form@.method == form.method@,
        form@.identifier == form.identifier@,
{
}

/// The view of a `OtpVerifyForm` has each of its parts, as it is.
pub proof fn law_otp_verify_form_is_seen_whole(form: OtpVerifyForm<String>)
    ensures
        form@.csrf_token == form.csrf_token@,
        form@.method == form.method@,
        form@.identifier == form.identifier@,
        form@.token == form.token@,
{
}

/// The view of a `MfaStepUpForm` has each of its parts, as it is.
pub proof fn law_mfa_step_up_form_is_seen_whole(form: MfaStepUpForm<String>)
    ensures
        form@.csrf_token == form.csrf_token@,
        form@.factor_id == form.factor_id@,
        form@.challenge_id == form.challenge_id@,
        form@.code == form.code@,
{
}

/// The view of a `SupabaseConfig` has each of its parts, as it is.
pub proof fn law_supabase_config_is_seen_whole(config: SupabaseConfig<String>)
    ensures
        config@.url == opt_string(config.url),
        config@.publishable_key == opt_string(config.publishable_key),
        config@.client_ready == config.client_ready,
{
}

/// The view of a `BudgetKey` has each of its parts, as it is.
pub proof fn law_budget_key_is_seen_whole(key: BudgetKey<String>)
    ensures
        match key {
            BudgetKey::Identifier(identifier) =>
                key@ == (BudgetKey::<Seq<char>>::Identifier(identifier@)),
            BudgetKey::Client(forwarded) =>
                key@ == (BudgetKey::<Seq<char>>::Client(opt_string(forwarded))),
        },
{
}

/// The view of a `Page` has each of its parts, as it is.
pub proof fn law_page_is_seen_whole(page: Page<String>)
    ensures
        match page {
            Page::Login { message } =>
                page@ == (Page::<Seq<char>>::Login { message: opt_string(message) }),
            Page::Code { channel, identifier, message } => page@ == (Page::<Seq<char>>::Code {
                channel: channel,
                identifier: identifier@,
                message: opt_string(message),
            }),
            Page::StepUp { factor_id, challenge_id, message } =>
                page@ == (Page::<Seq<char>>::StepUp {
                    factor_id: factor_id@,
                    challenge_id: challenge_id@,
                    message: opt_string(message),
                }),
        },
{
}

/// The view of a `Answer` has each of its parts, as it is.
pub proof fn law_answer_is_seen_whole(answer: Answer<String>)
    ensures
        match answer {
            Answer::Refused(error) => answer@ == (Answer::<Seq<char>>::Refused(error)),
            Answer::Unavailable { outage, detail } => answer@ == (Answer::<Seq<char>>::Unavailable {
                outage: outage,
                detail: detail,
            }),
            Answer::Show { page, status } =>
                answer@ == (Answer::<Seq<char>>::Show { page: page@, status: status }),
            Answer::Throttled { page, retry_after_secs } =>
                answer@ == (Answer::<Seq<char>>::Throttled {
                    page: page@,
                    retry_after_secs: retry_after_secs,
                }),
            Answer::Retry { page, status } =>
                answer@ == (Answer::<Seq<char>>::Retry { page: page@, status: status }),
            Answer::StepUp { factor_id, challenge_id, access_token } =>
                answer@ == (Answer::<Seq<char>>::StepUp {
                    factor_id: factor_id@,
                    challenge_id: challenge_id@,
                    access_token: access_token@,
                }),
            Answer::SignedIn { access_token } =>
                answer@ == (Answer::<Seq<char>>::SignedIn { access_token: access_token@ }),
            Answer::NotAuthenticated => answer@ == (Answer::<Seq<char>>::NotAuthenticated),
        },
{
}

/// The view of a `Action` has each of its parts, as it is.
pub proof fn law_action_is_seen_whole(action: Action<String>)
    ensures
        match action {
            Action::CheckBudget { bucket, key } => action@ == (Action::<Seq<char>>::CheckBudget {
                bucket: bucket,
                key: key@,
            }),
            Action::PasswordGrant { url, apikey, email, password } =>
                action@ == (Action::<Seq<char>>::PasswordGrant {
                    url: url@,
                    apikey: apikey@,
                    email: email@,
                    password: password@,
                }),
            Action::SendOtp { channel, identifier, create_user } =>
                action@ == (Action::<Seq<char>>::SendOtp {
                    channel: channel,
                    identifier: identifier@,
                    create_user: create_user,
                }),
            Action::VerifyOtp { channel, identifier, code } =>
                action@ == (Action::<Seq<char>>::VerifyOtp {
                    channel: channel,
                    identifier: identifier@,
                    code: code@,
                }),
            Action::ListFactors { access_token } => action@ == (Action::<Seq<char>>::ListFactors {
                access_token: access_token@,
            }),
            Action::OpenChallenge { access_token, factor_id } =>
                action@ == (Action::<Seq<char>>::OpenChallenge {
                    access_token: access_token@,
                    factor_id: factor_id@,
                }),
            Action::VerifyFactor {
                access_token,
                factor_id,
                challenge_id,
                code,
            } => action@ == (Action::<Seq<char>>::VerifyFactor {
                access_token: access_token@,
                factor_id: factor_id@,
                challenge_id: challenge_id@,
                code: code@,
            }),
            Action::Authenticate { authorization } =>
                action@ == (Action::<Seq<char>>::Authenticate {
                    authorization: authorization@,
                }),
            Action::Reply(answer) => action@ == (Action::<Seq<char>>::Reply(answer@)),
        },
{
}

/// The view of a `State` has each of its parts, as it is.
pub proof fn law_state_is_seen_whole(state: State<String>)
    ensures
        match state {
            State::PasswordBudget { email, password } =>
                state@ == (State::<Seq<char>>::PasswordBudget {
                    email: email@,
                    password: password@,
                }),
            State::PasswordGrant => state@ == (State::<Seq<char>>::PasswordGrant),
            State::OtpIdentifierBudget {
                channel,
                identifier,
                forwarded,
            } => state@ == (State::<Seq<char>>::OtpIdentifierBudget {
                channel: channel,
                identifier: identifier@,
                forwarded: opt_string(forwarded),
            }),
            State::OtpClientBudget { channel, identifier } =>
                state@ == (State::<Seq<char>>::OtpClientBudget {
                    channel: channel,
                    identifier: identifier@,
                }),
            State::OtpDispatch { channel, identifier } =>
                state@ == (State::<Seq<char>>::OtpDispatch {
                    channel: channel,
                    identifier: identifier@,
                }),
            State::CodeBudget { channel, identifier, code } =>
                state@ == (State::<Seq<char>>::CodeBudget {
                    channel: channel,
                    identifier: identifier@,
                    code: code@,
                }),
            State::CodeCheck { channel, identifier } => state@ == (State::<Seq<char>>::CodeCheck {
                channel: channel,
                identifier: identifier@,
            }),
            State::StepUpBudget {
                pending_token,
                factor_id,
                challenge_id,
                code,
            } => state@ == (State::<Seq<char>>::StepUpBudget {
                pending_token: pending_token@,
                factor_id: factor_id@,
                challenge_id: challenge_id@,
                code: code@,
            }),
            State::StepUpCheck { factor_id, challenge_id } =>
                state@ == (State::<Seq<char>>::StepUpCheck {
                    factor_id: factor_id@,
                    challenge_id: challenge_id@,
                }),
            State::Factors { access_token } =>
                state@ == (State::<Seq<char>>::Factors { access_token: access_token@ }),
            State::Challenge { access_token } =>
                state@ == (State::<Seq<char>>::Challenge { access_token: access_token@ }),
            State::Identity { access_token } =>
                state@ == (State::<Seq<char>>::Identity { access_token: access_token@ }),
            State::Done => state@ == (State::<Seq<char>>::Done),
        },
{
}

/// The view of a `Event` has each of its parts, as it is.
pub proof fn law_event_is_seen_whole(event: Event<String>)
    ensures
        match event {
            Event::Budget { allowed, retry_after_secs } => event@ == (Event::<Seq<char>>::Budget {
                allowed: allowed,
                retry_after_secs: retry_after_secs,
            }),
            Event::GrantAccepted { access_token } => event@ == (Event::<Seq<char>>::GrantAccepted {
                access_token: access_token@,
            }),
            Event::GrantRejected => event@ == (Event::<Seq<char>>::GrantRejected),
            Event::GrantFailed => event@ == (Event::<Seq<char>>::GrantFailed),
            Event::CodeSent => event@ == (Event::<Seq<char>>::CodeSent),
            Event::CodeNotSent => event@ == (Event::<Seq<char>>::CodeNotSent),
            Event::CodeAccepted { access_token } => event@ == (Event::<Seq<char>>::CodeAccepted {
                access_token: access_token@,
            }),
            Event::CodeRejected => event@ == (Event::<Seq<char>>::CodeRejected),
            Event::FactorRequired { factor_id } => event@ == (Event::<Seq<char>>::FactorRequired {
                factor_id: opt_string(factor_id),
            }),
            Event::FactorsUnavailable => event@ == (Event::<Seq<char>>::FactorsUnavailable),
            Event::ChallengeOpened { factor_id, challenge_id } =>
                event@ == (Event::<Seq<char>>::ChallengeOpened {
                    factor_id: factor_id@,
                    challenge_id: challenge_id@,
                }),
            Event::ChallengeFailed => event@ == (Event::<Seq<char>>::ChallengeFailed),
            Event::FactorVerified { access_token } =>
                event@ == (Event::<Seq<char>>::FactorVerified {
                    access_token: access_token@,
                }),
            Event::FactorRejected => event@ == (Event::<Seq<char>>::FactorRejected),
            Event::Identity { accepted } =>
                event@ == (Event::<Seq<char>>::Identity { accepted: accepted }),
        },
{
}

/// The view of a `Step` has each of its parts, as it is.
pub proof fn law_step_is_seen_whole(step: Step<String>)
    ensures
        step@.state == step.state@,
        step@.action == step.action@,
{
}

/// The view of a `MfaAnswer` has each of its parts, as it is.
pub proof fn law_mfa_answer_is_seen_whole(answer: MfaAnswer<String, Factors>)
    ensures
        match answer {
            MfaAnswer::Refused(error) =>
                answer@ == (MfaAnswer::<Seq<char>, FactorsView>::Refused(error)),
            MfaAnswer::Denied { status, code } =>
                answer@ == (MfaAnswer::<Seq<char>, FactorsView>::Denied {
                    status: status,
                    code: code@,
                }),
            MfaAnswer::Unavailable { outage, detail } =>
                answer@ == (MfaAnswer::<Seq<char>, FactorsView>::Unavailable {
                    outage: outage,
                    detail: detail,
                }),
            MfaAnswer::Settings { factors } =>
                answer@ == (MfaAnswer::<Seq<char>, FactorsView>::Settings {
                    factors: factor_views(factors@),
                }),
            MfaAnswer::SetUp { enrollment } =>
                answer@ == (MfaAnswer::<Seq<char>, FactorsView>::SetUp { enrollment: enrollment@ }),
            MfaAnswer::Report { title, message } =>
                answer@ == (MfaAnswer::<Seq<char>, FactorsView>::Report {
                    title: title@,
                    message: message@,
                }),
            MfaAnswer::Retry { title, message, status } =>
                answer@ == (MfaAnswer::<Seq<char>, FactorsView>::Retry {
                    title: title@,
                    message: message@,
                    status: status,
                }),
        },
{
}

/// The view of a `MfaAction` has each of its parts, as it is.
pub proof fn law_mfa_action_is_seen_whole(action: MfaAction<String, Factors>)
    ensures
        match action {
            MfaAction::ListFactors { access_token } =>
                action@ == (MfaAction::<Seq<char>, FactorsView>::ListFactors {
                    access_token: access_token@,
                }),
            MfaAction::Enroll { access_token, name } =>
                action@ == (MfaAction::<Seq<char>, FactorsView>::Enroll {
                    access_token: access_token@,
                    name: name@,
                }),
            MfaAction::OpenChallenge { access_token, factor_id } =>
                action@ == (MfaAction::<Seq<char>, FactorsView>::OpenChallenge {
                    access_token: access_token@,
                    factor_id: factor_id@,
                }),
            MfaAction::VerifyFactor {
                access_token,
                factor_id,
                challenge_id,
                code,
            } => action@ == (MfaAction::<Seq<char>, FactorsView>::VerifyFactor {
                access_token: access_token@,
                factor_id: factor_id@,
                challenge_id: challenge_id@,
                code: code@,
            }),
            MfaAction::Unenroll { access_token, factor_id } =>
                action@ == (MfaAction::<Seq<char>, FactorsView>::Unenroll {
                    access_token: access_token@,
                    factor_id: factor_id@,
                }),
            MfaAction::Reply(answer) =>
                action@ == (MfaAction::<Seq<char>, FactorsView>::Reply(answer@)),
        },
{
}

/// The view of a `MfaState` has each of its parts, as it is.
pub proof fn law_mfa_state_is_seen_whole(state: MfaState<String>)
    ensures
        match state {
            MfaState::Listing => state@ == (MfaState::<Seq<char>>::Listing),
            MfaState::Enrolling => state@ == (MfaState::<Seq<char>>::Enrolling),
            MfaState::ActivationChallenge { access_token, code } =>
                state@ == (MfaState::<Seq<char>>::ActivationChallenge {
                    access_token: access_token@,
                    code: code@,
                }),
            MfaState::ActivationCheck => state@ == (MfaState::<Seq<char>>::ActivationCheck),
            MfaState::RemovalChallenge {
                access_token,
                factor_id,
                code,
            } => state@ == (MfaState::<Seq<char>>::RemovalChallenge {
                access_token: access_token@,
                factor_id: factor_id@,
                code: code@,
            }),
            MfaState::RemovalCheck { factor_id } => state@ == (MfaState::<Seq<char>>::RemovalCheck {
                factor_id: factor_id@,
            }),
            MfaState::Removal => state@ == (MfaState::<Seq<char>>::Removal),
            MfaState::Done => state@ == (MfaState::<Seq<char>>::Done),
        },
{
}

/// The view of a `MfaEvent` has each of its parts, as it is.
pub proof fn law_mfa_event_is_seen_whole(event: MfaEvent<String, Factors>)
    ensures
        match event {
            MfaEvent::FactorsListed { factors } =>
                event@ == (MfaEvent::<Seq<char>, FactorsView>::FactorsListed {
                    factors: factor_views(factors@),
                }),
            MfaEvent::FactorsUnavailable =>
                event@ == (MfaEvent::<Seq<char>, FactorsView>::FactorsUnavailable),
            MfaEvent::Enrolled { enrollment } =>
                event@ == (MfaEvent::<Seq<char>, FactorsView>::Enrolled { enrollment: enrollment@ }),
            MfaEvent::EnrollmentFailed { reason } =>
                event@ == (MfaEvent::<Seq<char>, FactorsView>::EnrollmentFailed {
                    reason: reason@,
                }),
            MfaEvent::ChallengeOpened { factor_id, challenge_id } =>
                event@ == (MfaEvent::<Seq<char>, FactorsView>::ChallengeOpened {
                    factor_id: factor_id@,
                    challenge_id: challenge_id@,
                }),
            MfaEvent::ChallengeFailed =>
                event@ == (MfaEvent::<Seq<char>, FactorsView>::ChallengeFailed),
            MfaEvent::FactorVerified { access_token } =>
                event@ == (MfaEvent::<Seq<char>, FactorsView>::FactorVerified {
                    access_token: access_token@,
                }),
            MfaEvent::FactorRejected =>
                event@ == (MfaEvent::<Seq<char>, FactorsView>::FactorRejected),
            MfaEvent::Removed => event@ == (MfaEvent::<Seq<char>, FactorsView>::Removed),
            MfaEvent::RemovalFailed =>
                event@ == (MfaEvent::<Seq<char>, FactorsView>::RemovalFailed),
        },
{
}

/// The view of a `MfaStep` has each of its parts, as it is.
pub proof fn law_mfa_step_is_seen_whole(step: MfaStep<String, Factors>)
    ensures
        step@.state == step.state@,
        step@.action == step.action@,
{
}

/// The view of a `UrlParts` has each of its parts, as it is.
pub proof fn law_url_parts_is_seen_whole(parts: UrlParts<String>)
    ensures
        parts@.scheme == parts.scheme@,
        parts@.username == parts.username@,
        parts@.password == opt_string(parts.password),
        parts@.host == opt_string(parts.host),
        parts@.port == parts.port,
        parts@.path == parts.path@,
        parts@.query == opt_string(parts.query),
        parts@.fragment == opt_string(parts.fragment),
{
}

/// The view of a `CustomerOrigin` has each of its parts, as it is.
pub proof fn law_customer_origin_is_seen_whole(origin: CustomerOrigin<String>)
    ensures
        origin@.origin == origin.origin@,
        origin@.host == origin.host@,
{
}

/// The view of a `Org` has each of its parts, as it is.
pub proof fn law_org_is_seen_whole(org: Org<String>)
    ensures
        org@.id == org.id@,
        org@.query == org.query@,
{
}

/// The view of a `PortalConfig` has each of its parts, as it is.
pub proof fn law_portal_config_is_seen_whole(config: PortalConfig<String>)
    ensures
        config@.customer_app_host == config.customer_app_host@,
        config@.supabase_url == opt_string(config.supabase_url),
        config@.supabase_publishable_key == opt_string(config.supabase_publishable_key),
{
}

/// The view of a `CustomerCtx` has each of its parts, as it is.
pub proof fn law_customer_ctx_is_seen_whole(customer: CustomerCtx)
    ensures
        customer@.user_id == customer.user_id@,
        customer@.email == opt_string(customer.email),
        customer@.orgs == string_views(customer.orgs@),
{
}

/// The view of a `Body` has each of its parts, as it is.
pub proof fn law_body_is_seen_whole(body: Body<String>)
    ensures
        match body {
            Body::Empty => body@ == (Body::<Seq<char>>::Empty),
            Body::Html(text) => body@ == (Body::<Seq<char>>::Html(text@)),
            Body::Denied(error) => body@ == (Body::<Seq<char>>::Denied(error@)),
        },
{
}

/// The view of a `Response` has each of its parts, as it is.
pub proof fn law_response_is_seen_whole(response: Response)
    ensures
        response@.status == response.status,
        response@.headers == header_views(response.headers@),
        response@.body == response.body@,
{
}

/// The view of a `Bind` has each of its parts, as it is.
pub proof fn law_bind_is_seen_whole(bind: Bind)
    ensures
        match bind {
            Bind::Text(text) => bind@ == (BindView::Text(text@)),
            Bind::OptionalText(text) => bind@ == (BindView::OptionalText(opt_string(text))),
            Bind::Json(text) => bind@ == (BindView::Json(text@)),
            Bind::OptionalJson(text) => bind@ == (BindView::OptionalJson(opt_string(text))),
            Bind::OptionalFlag(flag) => bind@ == (BindView::OptionalFlag(flag)),
            Bind::Uuid(id) => bind@ == (BindView::Uuid(id)),
            Bind::Uuids(ids) => bind@ == (BindView::Uuids(ids@)),
        },
{
}

/// The view of a `Statement` has each of its parts, as it is.
pub proof fn law_statement_is_seen_whole(statement: Statement)
    ensures
        statement@.sql == statement.sql@,
        statement@.binds.len() == statement.binds@.len(),
        forall|i: int|
            0 <= i < statement.binds@.len() ==> #[trigger] statement@.binds[i] == statement.binds@[i]@,
        statement@.fetch == statement.fetch,
{
}

/// The view of a `StreamPayload` has each of its parts, as it is.
pub proof fn law_stream_payload_is_seen_whole(payload: StreamPayload<String>)
    ensures
        payload@.kind == payload.kind@,
        payload@.sequence == payload.sequence,
        payload@.transport == payload.transport@,
        payload@.event == payload.event@,
        payload@.at_ms == payload.at_ms,
        payload@.summary == payload.summary@,
{
}

/// The view of a `StreamEvent` has each of its parts, as it is.
pub proof fn law_stream_event_is_seen_whole(event: StreamEvent<String>)
    ensures
        event@.event == event.event@,
        event@.id == event.id@,
        event@.data == event.data@,
{
}

/// The view of a `SocketAction` has each of its parts, as it is.
pub proof fn law_socket_action_is_seen_whole(action: SocketAction<String>)
    ensures
        match action {
            SocketAction::Send(payload) => action@ == (SocketActionView::Send(payload@)),
            SocketAction::Pong(payload) => action@ == (SocketActionView::Pong(payload@)),
            SocketAction::Wait => action@ == (SocketActionView::Wait),
            SocketAction::Stop => action@ == (SocketActionView::Stop),
        },
{
}

/// The view of a `SocketEvent` has each of its parts, as it is.
pub proof fn law_socket_event_is_seen_whole(event: SocketEvent<String>)
    ensures
        match event {
            SocketEvent::Tick => event@ == (SocketEventView::Tick),
            SocketEvent::RowChanged => event@ == (SocketEventView::RowChanged),
            SocketEvent::Text(text) => event@ == (SocketEventView::Text(text@)),
            SocketEvent::Ping(payload) => event@ == (SocketEventView::Ping(payload@)),
            SocketEvent::Other => event@ == (SocketEventView::Other),
            SocketEvent::Closed => event@ == (SocketEventView::Closed),
            SocketEvent::ReceiveFailed => event@ == (SocketEventView::ReceiveFailed),
            SocketEvent::SendFailed => event@ == (SocketEventView::SendFailed),
        },
{
}

/// The view of a `Notification` has each of its parts, as it is.
pub proof fn law_notification_is_seen_whole(notification: Notification<String>)
    ensures
        notification@.id == notification.id@,
        notification@.created_at == notification.created_at@,
        notification@.severity == notification.severity@,
        notification@.title == notification.title@,
        notification@.body == notification.body@,
        notification@.link == opt_string(notification.link),
        notification@.read_at == opt_string(notification.read_at),
{
}

/// The view of a `CustomerAuditEvent` has each of its parts, as it is.
pub proof fn law_customer_audit_event_is_seen_whole(event: CustomerAuditEvent<String>)
    ensures
        event@.created_at == event.created_at@,
        event@.actor == opt_string(event.actor),
        event@.action == event.action@,
        event@.target == opt_string(event.target),
        event@.request_id == opt_string(event.request_id),
{
}

/// The view of a `TrustedSession` has each of its parts, as it is.
pub proof fn law_trusted_session_is_seen_whole(session: TrustedSession<String>)
    ensures
        session@.device == session.device@,
        session@.location == opt_string(session.location),
        session@.last_seen == session.last_seen@,
        session@.status == session.status@,
{
}

/// The view of a `CustomerPreferences` has each of its parts, as it is.
pub proof fn law_customer_preferences_is_seen_whole(preferences: CustomerPreferences<String>)
    ensures
        preferences@.region == preferences.region@,
        preferences@.timezone == preferences.timezone@,
        preferences@.density == preferences.density@,
        preferences@.notify_lock_contention == preferences.notify_lock_contention,
        preferences@.notify_key_rotation == preferences.notify_key_rotation,
        preferences@.notify_mfa == preferences.notify_mfa,
{
}

} // verus!
