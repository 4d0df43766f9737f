//! What the sign-in flow is for: what a form has sent where, and what each outcome leads to. The
//! laws speak of forms, actions and outcomes, and not of what the flow keeps in between.

use crate::auth_pages::OtpChannel;
use crate::headers::{header_safe, header_texts, lemma_header_safe_concat};
use crate::login::{
    code_request, code_submission, last_hop, login_check, password_submission, step_up_submission,
    Action, Answer, Bucket, BudgetKey, CustomerLoginForm, Detail, Event, MfaStepUpForm,
    OtpRequestForm, OtpVerifyForm, Outage, Page, State, Step, SupabaseConfig,
};
use crate::login_laws::{is_run, opens, reached};
use crate::login_steps::{awaits, next};
use crate::request_security::{RequestSecurityError, SecurityView};
use crate::text::{is_without, trimmed};
use crate::text_laws::{law_last_piece_is_found, law_trailing_run_is_cut};
use crate::tokens::{base64_url, hmac_sha256};
use axum::http::{HeaderMap, HeaderValue};
use vstd::prelude::*;
use vstd::utf8::encode_utf8;

verus! {

/// What the flow does once an outcome of its last action is handed back, where it waits for it.
pub open spec fn after(
    supabase: SupabaseConfig<Seq<char>>,
    step: Step<Seq<char>>,
    event: Event<Seq<char>>,
) -> Option<Action<Seq<char>>> {
    if awaits(step.state, event) {
        Some(next(supabase, step.state, event).action)
    } else {
        None
    }
}

/// The flow once an outcome was handed back.
pub open spec fn then(
    supabase: SupabaseConfig<Seq<char>>,
    step: Step<Seq<char>>,
    event: Event<Seq<char>>,
) -> Step<Seq<char>> {
    next(supabase, step.state, event)
}

/// The answer of an action.
pub open spec fn answer_of(answer: Answer<Seq<char>>) -> Option<Action<Seq<char>>> {
    Some(Action::Reply(answer))
}

/// The outage that settings are missing.
pub open spec fn unset() -> Answer<Seq<char>> {
    Answer::Unavailable { outage: Outage::LoginNotConfigured, detail: Detail::MissingSettings }
}

/// The message that every attempt over budget is answered with.
pub open spec fn slow_down() -> Option<Seq<char>> {
    Some("Too many attempts. Wait a few minutes before trying again."@)
}

/// A form of the flow passes exactly where its request comes from the customer origin and it
/// carries the tag, under the signing secret, of the nonce in its cookie. A request from elsewhere
/// is refused for that, whatever the form carries; any other refusal is for the token.
pub proof fn law_forms_carry_the_tag_of_their_nonce(
    security: SecurityView,
    headers: HeaderMap<HeaderValue>,
    nonce: Option<Seq<char>>,
    provided_csrf: Seq<char>,
)
    ensures
        login_check(security, headers, nonce, provided_csrf) is Ok <==> {
            &&& security.same_origin_check(headers) is Ok
            &&& nonce matches Some(nonce)
            &&& provided_csrf == base64_url(
                hmac_sha256(
                    security.csrf_secret,
                    encode_utf8("fiducia-customer-csrf-v1\0"@ + ("login\0"@ + nonce)),
                ),
            )
        },
        security.same_origin_check(headers) is Err ==> login_check(
            security,
            headers,
            nonce,
            provided_csrf,
        ) == security.same_origin_check(headers),
        security.same_origin_check(headers) is Ok ==> {
            ||| login_check(security, headers, nonce, provided_csrf) is Ok
            ||| login_check(security, headers, nonce, provided_csrf) == Err::<
                (),
                RequestSecurityError,
            >(RequestSecurityError::InvalidCsrfToken)
        },
{
}

/// Credentials are counted against the address, white space at its ends aside, and within budget
/// are posted to the password grant below the configured URL, however many slashes it ends in,
/// with the configured key and the password as it was typed.
pub proof fn law_credentials_go_to_the_password_grant(
    security: SecurityView,
    headers: HeaderMap<HeaderValue>,
    nonce: Option<Seq<char>>,
    form: CustomerLoginForm<Seq<char>>,
    base: Seq<char>,
    slashes: nat,
    apikey: Seq<char>,
    client_ready: bool,
    retry_after_secs: u64,
)
    requires
        login_check(security, headers, nonce, form.csrf_token) is Ok,
        trimmed(form.email).len() > 0,
        form.password.len() > 0,
        base.len() > 0 ==> base.last() != '/',
    ensures
        ({
            let opening = password_submission(security, headers, nonce, form);
            let supabase = SupabaseConfig {
                url: Some(base + Seq::new(slashes, |i: int| '/')),
                publishable_key: Some(apikey),
                client_ready,
            };
            &&& opening.action == Action::CheckBudget {
                bucket: Bucket::PasswordPerIdentifier,
                key: BudgetKey::Identifier(trimmed(form.email)),
            }
            &&& after(supabase, opening, Event::Budget { allowed: true, retry_after_secs }) == Some(
                Action::PasswordGrant {
                    url: base + "/auth/v1/token?grant_type=password"@,
                    apikey,
                    email: trimmed(form.email),
                    password: form.password,
                },
            )
            &&& after(supabase, opening, Event::Budget { allowed: false, retry_after_secs })
                == answer_of(
                Answer::Throttled { page: Page::Login { message: slow_down() }, retry_after_secs },
            )
        }),
{
    law_trailing_run_is_cut(base, '/', slashes);
}

/// Credentials that are not both there are asked for again, and without a URL or a key nothing is
/// posted.
pub proof fn law_credentials_and_settings_are_required(
    security: SecurityView,
    headers: HeaderMap<HeaderValue>,
    nonce: Option<Seq<char>>,
    form: CustomerLoginForm<Seq<char>>,
    supabase: SupabaseConfig<Seq<char>>,
    retry_after_secs: u64,
)
    requires
        login_check(security, headers, nonce, form.csrf_token) is Ok,
    ensures
        trimmed(form.email).len() == 0 || form.password.len() == 0 ==> password_submission(
            security,
            headers,
            nonce,
            form,
        ).action == Action::Reply(
            Answer::Show {
                page: Page::Login { message: Some("Email and password are required."@) },
                status: 400,
            },
        ),
        trimmed(form.email).len() > 0 && form.password.len() > 0 && (supabase.url is None
            || supabase.publishable_key is None) ==> after(
            supabase,
            password_submission(security, headers, nonce, form),
            Event::Budget { allowed: true, retry_after_secs },
        ) == answer_of(unset()),
{
}

/// A code that is asked for is counted against the identifier and then against the client behind
/// the last hop, and within both budgets is sent over the channel that the form names, to that
/// identifier, white space at its ends aside.
pub proof fn law_code_is_sent_where_the_form_says(
    security: SecurityView,
    headers: HeaderMap<HeaderValue>,
    nonce: Option<Seq<char>>,
    supabase: SupabaseConfig<Seq<char>>,
    form: OtpRequestForm<Seq<char>>,
    channel: OtpChannel,
    first_retry: u64,
    second_retry: u64,
)
    requires
        login_check(security, headers, nonce, form.csrf_token) is Ok,
        supabase.client_ready,
        trimmed(form.method) == (match channel {
            OtpChannel::Email => "email"@,
            OtpChannel::Phone => "phone"@,
        }),
    ensures
        ({
            let opening = code_request(security, headers, nonce, supabase, form);
            let identifier = trimmed(form.identifier);
            let second = then(
                supabase,
                opening,
                Event::Budget { allowed: true, retry_after_secs: first_retry },
            );
            &&& opening.action == Action::CheckBudget {
                bucket: Bucket::OtpDispatchPerIdentifier,
                key: BudgetKey::Identifier(identifier),
            }
            &&& after(
                supabase,
                opening,
                Event::Budget { allowed: true, retry_after_secs: first_retry },
            ) == Some(
                Action::CheckBudget {
                    bucket: Bucket::OtpDispatchPerClient,
                    key: BudgetKey::Client(last_hop(header_texts(headers, "x-forwarded-for"@))),
                },
            )
            &&& after(
                supabase,
                opening,
                Event::Budget { allowed: false, retry_after_secs: first_retry },
            ) == answer_of(
                Answer::Throttled {
                    page: Page::Code { channel, identifier, message: slow_down() },
                    retry_after_secs: first_retry,
                },
            )
            &&& after(
                supabase,
                second,
                Event::Budget { allowed: true, retry_after_secs: second_retry },
            ) == Some(Action::SendOtp { channel, identifier, create_user: true })
            &&& after(
                supabase,
                second,
                Event::Budget { allowed: false, retry_after_secs: second_retry },
            ) == answer_of(
                Answer::Throttled {
                    page: Page::Login { message: slow_down() },
                    retry_after_secs: second_retry,
                },
            )
        }),
{
    lemma_channel_names_differ();
}

/// A code is counted against the identifier and within budget is redeemed over the channel that
/// the form names, for that identifier, white space at its ends aside, and as it was typed.
pub proof fn law_code_is_redeemed_as_the_form_says(
    security: SecurityView,
    headers: HeaderMap<HeaderValue>,
    nonce: Option<Seq<char>>,
    supabase: SupabaseConfig<Seq<char>>,
    form: OtpVerifyForm<Seq<char>>,
    channel: OtpChannel,
    retry_after_secs: u64,
)
    requires
        login_check(security, headers, nonce, form.csrf_token) is Ok,
        supabase.client_ready,
        trimmed(form.method) == (match channel {
            OtpChannel::Email => "email"@,
            OtpChannel::Phone => "phone"@,
        }),
    ensures
        ({
            let opening = code_submission(security, headers, nonce, supabase, form);
            let identifier = trimmed(form.identifier);
            &&& opening.action == Action::CheckBudget {
                bucket: Bucket::OtpVerifyPerIdentifier,
                key: BudgetKey::Identifier(identifier),
            }
            &&& after(supabase, opening, Event::Budget { allowed: true, retry_after_secs }) == Some(
                Action::VerifyOtp { channel, identifier, code: form.token },
            )
            &&& after(supabase, opening, Event::Budget { allowed: false, retry_after_secs })
                == answer_of(
                Answer::Throttled {
                    page: Page::Code { channel, identifier, message: slow_down() },
                    retry_after_secs,
                },
            )
        }),
{
    lemma_channel_names_differ();
}

proof fn lemma_channel_names_differ()
    ensures
        "email"@ != "phone"@,
{
    reveal_strlit("email");
    reveal_strlit("phone");
    assert("email"@[0] != "phone"@[0]);
}

/// A form that names neither channel is asked for one, and without a client for Supabase no code
/// is sent or redeemed.
pub proof fn law_channel_and_client_are_required(
    security: SecurityView,
    headers: HeaderMap<HeaderValue>,
    nonce: Option<Seq<char>>,
    supabase: SupabaseConfig<Seq<char>>,
    request: OtpRequestForm<Seq<char>>,
    submission: OtpVerifyForm<Seq<char>>,
)
    ensures
        login_check(security, headers, nonce, request.csrf_token) is Ok ==> {
            let named = trimmed(request.method) == "email"@ || trimmed(request.method) == "phone"@;
            let action = code_request(security, headers, nonce, supabase, request).action;
            &&& !named ==> action == Action::Reply(
                Answer::Show {
                    page: Page::Login {
                        message: Some("Choose email or phone to receive a code."@),
                    },
                    status: 400,
                },
            )
            &&& named && !supabase.client_ready ==> action == Action::Reply(unset())
        },
        login_check(security, headers, nonce, submission.csrf_token) is Ok ==> {
            let named = trimmed(submission.method) == "email"@ || trimmed(submission.method)
                == "phone"@;
            let action = code_submission(security, headers, nonce, supabase, submission).action;
            &&& !named ==> action == Action::Reply(
                Answer::Show {
                    page: Page::Login {
                        message: Some("Choose email or phone to receive a code."@),
                    },
                    status: 200,
                },
            )
            &&& named && !supabase.client_ready ==> action == Action::Reply(unset())
        },
{
}

/// An authenticator code is counted against the client behind the last hop, and within budget is
/// verified with the token of the pending cookie against the factor and the challenge of the form.
pub proof fn law_authenticator_code_is_verified_as_the_form_says(
    security: SecurityView,
    headers: HeaderMap<HeaderValue>,
    nonce: Option<Seq<char>>,
    pending_token: Option<Seq<char>>,
    supabase: SupabaseConfig<Seq<char>>,
    form: MfaStepUpForm<Seq<char>>,
    retry_after_secs: u64,
)
    requires
        login_check(security, headers, nonce, form.csrf_token) is Ok,
    ensures
        ({
            let opening = step_up_submission(
                security,
                headers,
                nonce,
                pending_token,
                supabase,
                form,
            );
            match pending_token {
                None => opening.action == Action::Reply(
                    Answer::Show {
                        page: Page::Login {
                            message: Some(
                                "Your verification session expired. Please sign in again."@,
                            ),
                        },
                        status: 200,
                    },
                ),
                Some(access_token) => if !supabase.client_ready {
                    opening.action == Action::Reply(unset())
                } else {
                    &&& opening.action == Action::CheckBudget {
                        bucket: Bucket::MfaVerifyPerClient,
                        key: BudgetKey::Client(
                            last_hop(header_texts(headers, "x-forwarded-for"@)),
                        ),
                    }
                    &&& after(
                        supabase,
                        opening,
                        Event::Budget { allowed: true, retry_after_secs },
                    ) == Some(
                        Action::VerifyFactor {
                            access_token,
                            factor_id: form.factor_id,
                            challenge_id: form.challenge_id,
                            code: form.code,
                        },
                    )
                    &&& after(
                        supabase,
                        opening,
                        Event::Budget { allowed: false, retry_after_secs },
                    ) == answer_of(
                        Answer::Throttled {
                            page: Page::StepUp {
                                factor_id: form.factor_id,
                                challenge_id: form.challenge_id,
                                message: slow_down(),
                            },
                            retry_after_secs,
                        },
                    )
                },
            }
        }),
{
}

/// The client is the last hop of the last forwarding line, white space at its ends aside: whatever
/// stands before it and whatever it is.
pub proof fn law_client_is_the_last_hop(
    earlier_lines: Seq<Option<Seq<char>>>,
    earlier_hops: Seq<char>,
    hop: Seq<char>,
)
    requires
        is_without(hop, ','),
    ensures
        last_hop(earlier_lines.push(Some(hop))) == Some(trimmed(hop)),
        last_hop(earlier_lines.push(Some(earlier_hops.push(',') + hop))) == Some(trimmed(hop)),
        last_hop(earlier_lines.push(None)) is None,
        last_hop(Seq::empty()) is None,
{
    law_last_piece_is_found(earlier_hops, hop, ',');
}

/// What the flow keeps while it waits fits the action it waits for.
spec fn agrees(step: Step<Seq<char>>) -> bool {
    match step.action {
        Action::CheckBudget { .. } => step.state is PasswordBudget
            || step.state is OtpIdentifierBudget || step.state is OtpClientBudget
            || step.state is CodeBudget || step.state is StepUpBudget,
        Action::PasswordGrant { .. } => step.state is PasswordGrant,
        Action::SendOtp { channel, identifier, .. } => step.state == (State::OtpDispatch {
            channel,
            identifier,
        }),
        Action::VerifyOtp { channel, identifier, .. } => step.state == (State::CodeCheck {
            channel,
            identifier,
        }),
        Action::ListFactors { access_token } => step.state == (State::Factors { access_token }),
        Action::OpenChallenge { access_token, .. } => step.state == (State::Challenge {
            access_token,
        }),
        Action::VerifyFactor { factor_id, challenge_id, .. } => step.state
            == (State::StepUpCheck { factor_id, challenge_id }),
        Action::Authenticate { authorization } => step.state matches State::Identity {
            access_token,
        } && authorization == "Bearer "@ + access_token,
        Action::Reply(_) => step.state is Done,
    }
}

proof fn lemma_agrees(
    supabase: SupabaseConfig<Seq<char>>,
    opening: Step<Seq<char>>,
    events: Seq<Event<Seq<char>>>,
)
    requires
        is_run(supabase, opening, events),
    ensures
        agrees(reached(supabase, opening, events)),
{
    if events.len() == 0 {
        assert(opens(supabase, opening));
    } else {
        let before = reached(supabase, opening, events.drop_last());
        assert(awaits(before.state, events.last()));
        assert(reached(supabase, opening, events) == next(supabase, before.state, events.last()));
    }
}

/// A grant that Supabase accepts has the factors of its token listed; one that it rejects is told
/// to the user, and one that fails is an outage.
pub proof fn law_outcomes_of_a_grant(
    supabase: SupabaseConfig<Seq<char>>,
    opening: Step<Seq<char>>,
    events: Seq<Event<Seq<char>>>,
    access_token: Seq<char>,
)
    requires
        is_run(supabase, opening, events),
        reached(supabase, opening, events).action is PasswordGrant,
    ensures
        ({
            let step = reached(supabase, opening, events);
            &&& after(supabase, step, Event::GrantAccepted { access_token }) == Some(
                if supabase.client_ready {
                    Action::ListFactors { access_token }
                } else {
                    Action::Reply(unset())
                },
            )
            &&& after(supabase, step, Event::GrantRejected) == answer_of(
                Answer::Show {
                    page: Page::Login { message: Some("Supabase rejected those credentials."@) },
                    status: 401,
                },
            )
            &&& after(supabase, step, Event::GrantFailed) == answer_of(
                Answer::Unavailable { outage: Outage::LoginFailed, detail: Detail::Upstream },
            )
        }),
{
    lemma_agrees(supabase, opening, events);
}

/// Once a code was sent it is asked for, over its channel and for its identifier; where it could
/// not be sent the user can try again.
pub proof fn law_outcomes_of_a_dispatch(
    supabase: SupabaseConfig<Seq<char>>,
    opening: Step<Seq<char>>,
    events: Seq<Event<Seq<char>>>,
    channel: OtpChannel,
    identifier: Seq<char>,
    create_user: bool,
)
    requires
        is_run(supabase, opening, events),
        reached(supabase, opening, events).action == (Action::SendOtp {
            channel,
            identifier,
            create_user,
        }),
    ensures
        ({
            let step = reached(supabase, opening, events);
            &&& after(supabase, step, Event::CodeSent) == answer_of(
                Answer::Show {
                    page: Page::Code { channel, identifier, message: None },
                    status: 200,
                },
            )
            &&& after(supabase, step, Event::CodeNotSent) == answer_of(
                Answer::Retry {
                    page: Page::Login {
                        message: Some(
                            "We couldn't send that code. Check the address and try again."@,
                        ),
                    },
                    status: 200,
                },
            )
        }),
{
    lemma_agrees(supabase, opening, events);
}

/// A code that Supabase accepts has the factors of its token listed; after one that it rejects,
/// another can be entered for the same identifier over the same channel.
pub proof fn law_outcomes_of_a_code(
    supabase: SupabaseConfig<Seq<char>>,
    opening: Step<Seq<char>>,
    events: Seq<Event<Seq<char>>>,
    channel: OtpChannel,
    identifier: Seq<char>,
    code: Seq<char>,
    access_token: Seq<char>,
)
    requires
        is_run(supabase, opening, events),
        reached(supabase, opening, events).action == (Action::VerifyOtp {
            channel,
            identifier,
            code,
        }),
    ensures
        ({
            let step = reached(supabase, opening, events);
            &&& after(supabase, step, Event::CodeAccepted { access_token }) == Some(
                Action::ListFactors { access_token },
            )
            &&& after(supabase, step, Event::CodeRejected) == answer_of(
                Answer::Retry {
                    page: Page::Code {
                        channel,
                        identifier,
                        message: Some(
                            "That code didn't match or has expired. Request a new one."@,
                        ),
                    },
                    status: 200,
                },
            )
        }),
{
    lemma_agrees(supabase, opening, events);
}

/// A fully authenticated token is put to the identity service as a bearer token, where it can
/// stand in a header; else it is an outage.
pub open spec fn admission(access_token: Seq<char>) -> Action<Seq<char>> {
    if header_safe(access_token) {
        Action::Authenticate { authorization: "Bearer "@ + access_token }
    } else {
        Action::Reply(
            Answer::Unavailable {
                outage: Outage::LoginFailed,
                detail: Detail::InvalidHeaderValue,
            },
        )
    }
}

proof fn lemma_bearer(access_token: Seq<char>)
    ensures
        header_safe("Bearer "@ + access_token) == header_safe(access_token),
{
    reveal_strlit("Bearer ");
    assert(header_safe("Bearer "@));
    lemma_header_safe_concat("Bearer "@, access_token);
}

/// Where an account requires an authenticator, a challenge for it is opened with the token of the
/// first factor; where it requires none, the token goes on to the identity service; and where that
/// is not known, nobody is let in.
pub proof fn law_outcomes_of_the_factor_lookup(
    supabase: SupabaseConfig<Seq<char>>,
    opening: Step<Seq<char>>,
    events: Seq<Event<Seq<char>>>,
    access_token: Seq<char>,
    factor_id: Seq<char>,
)
    requires
        is_run(supabase, opening, events),
        reached(supabase, opening, events).action == (Action::ListFactors { access_token }),
    ensures
        ({
            let step = reached(supabase, opening, events);
            &&& after(supabase, step, Event::FactorRequired { factor_id: Some(factor_id) }) == Some(
                Action::OpenChallenge { access_token, factor_id },
            )
            &&& after(supabase, step, Event::FactorRequired { factor_id: None }) == Some(
                admission(access_token),
            )
            &&& after(supabase, step, Event::FactorsUnavailable) == answer_of(
                Answer::Unavailable {
                    outage: Outage::MfaStateUnavailable,
                    detail: Detail::Upstream,
                },
            )
        }),
{
    lemma_agrees(supabase, opening, events);
    lemma_bearer(access_token);
}

/// Once a challenge is open the user is asked for its code, with the token of the first factor
/// kept for the step-up; where it could not be opened it is an outage.
pub proof fn law_outcomes_of_a_challenge(
    supabase: SupabaseConfig<Seq<char>>,
    opening: Step<Seq<char>>,
    events: Seq<Event<Seq<char>>>,
    access_token: Seq<char>,
    required: Seq<char>,
    factor_id: Seq<char>,
    challenge_id: Seq<char>,
)
    requires
        is_run(supabase, opening, events),
        reached(supabase, opening, events).action == (Action::OpenChallenge {
            access_token,
            factor_id: required,
        }),
    ensures
        ({
            let step = reached(supabase, opening, events);
            &&& after(supabase, step, Event::ChallengeOpened { factor_id, challenge_id })
                == answer_of(Answer::StepUp { factor_id, challenge_id, access_token })
            &&& after(supabase, step, Event::ChallengeFailed) == answer_of(
                Answer::Unavailable {
                    outage: Outage::MfaChallengeFailed,
                    detail: Detail::Upstream,
                },
            )
        }),
{
    lemma_agrees(supabase, opening, events);
}

/// An authenticator code that is verified has its own token go on to the identity service; after
/// one that is rejected, another can be entered for the same factor and challenge.
pub proof fn law_outcomes_of_an_authenticator_code(
    supabase: SupabaseConfig<Seq<char>>,
    opening: Step<Seq<char>>,
    events: Seq<Event<Seq<char>>>,
    pending_token: Seq<char>,
    factor_id: Seq<char>,
    challenge_id: Seq<char>,
    code: Seq<char>,
    access_token: Seq<char>,
)
    requires
        is_run(supabase, opening, events),
        reached(supabase, opening, events).action == (Action::VerifyFactor {
            access_token: pending_token,
            factor_id,
            challenge_id,
            code,
        }),
    ensures
        ({
            let step = reached(supabase, opening, events);
            &&& after(supabase, step, Event::FactorVerified { access_token }) == Some(
                admission(access_token),
            )
            &&& after(supabase, step, Event::FactorRejected) == answer_of(
                Answer::Retry {
                    page: Page::StepUp {
                        factor_id,
                        challenge_id,
                        message: Some(
                            "That code didn't match. Enter the current code from your authenticator app."@,
                        ),
                    },
                    status: 200,
                },
            )
        }),
{
    lemma_agrees(supabase, opening, events);
    lemma_bearer(access_token);
}

/// The session is issued to the very token that the identity service accepted, and to none that it
/// refused.
pub proof fn law_outcomes_of_the_identity_check(
    supabase: SupabaseConfig<Seq<char>>,
    opening: Step<Seq<char>>,
    events: Seq<Event<Seq<char>>>,
    access_token: Seq<char>,
)
    requires
        is_run(supabase, opening, events),
        reached(supabase, opening, events).action == (Action::Authenticate {
            authorization: "Bearer "@ + access_token,
        }),
    ensures
        ({
            let step = reached(supabase, opening, events);
            &&& after(supabase, step, Event::Identity { accepted: true }) == answer_of(
                Answer::SignedIn { access_token },
            )
            &&& after(supabase, step, Event::Identity { accepted: false }) == answer_of(
                Answer::NotAuthenticated,
            )
        }),
{
    lemma_agrees(supabase, opening, events);
    let step = reached(supabase, opening, events);
    let kept = step.state->Identity_access_token;
    assert(("Bearer "@ + kept).skip("Bearer "@.len() as int) =~= kept);
    assert(("Bearer "@ + access_token).skip("Bearer "@.len() as int) =~= access_token);
}

} // verus!
