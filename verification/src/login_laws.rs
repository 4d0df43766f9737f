//! What holds of every run of the sign-in flow.

use crate::auth_pages::OtpChannel;
use crate::cookies::CookiePolicy;
use crate::headers::{header_safe, lemma_header_safe_concat};
use crate::login::{
    budget_check, code_request, code_submission, login_check, password_submission, replied,
    step_up_submission, Action, Answer, Bucket, BudgetKey, CustomerLoginForm, Detail, Event,
    MfaStepUpForm, OtpRequestForm, OtpVerifyForm, Outage, Page, State, Step, SupabaseConfig, BEARER,
    THROTTLE_MESSAGE,
};
use crate::login_responses::{answered, law_only_signing_in_sets_a_session, sets};
use crate::login_steps::{awaits, next, step_up_begin};
use crate::request_security::SecurityView;
use axum::http::{HeaderMap, HeaderValue};
use vstd::prelude::*;

verus! {

/// A step with which a submitted form opens the flow.
pub open spec fn opens(supabase: SupabaseConfig<Seq<char>>, step: Step<Seq<char>>) -> bool {
    ||| exists|
        security: SecurityView,
        headers: HeaderMap<HeaderValue>,
        nonce: Option<Seq<char>>,
        form: CustomerLoginForm<Seq<char>>,
    |
        step == #[trigger] password_submission(security, headers, nonce, form)
    ||| exists|
        security: SecurityView,
        headers: HeaderMap<HeaderValue>,
        nonce: Option<Seq<char>>,
        form: OtpRequestForm<Seq<char>>,
    |
        step == #[trigger] code_request(security, headers, nonce, supabase, form)
    ||| exists|
        security: SecurityView,
        headers: HeaderMap<HeaderValue>,
        nonce: Option<Seq<char>>,
        form: OtpVerifyForm<Seq<char>>,
    |
        step == #[trigger] code_submission(security, headers, nonce, supabase, form)
    ||| exists|
        security: SecurityView,
        headers: HeaderMap<HeaderValue>,
        nonce: Option<Seq<char>>,
        pending_token: Option<Seq<char>>,
        form: MfaStepUpForm<Seq<char>>,
    |
        step == #[trigger] step_up_submission(
            security,
            headers,
            nonce,
            pending_token,
            supabase,
            form,
        )
}

/// The step that a run has reached after some events.
pub open spec fn reached(
    supabase: SupabaseConfig<Seq<char>>,
    opening: Step<Seq<char>>,
    events: Seq<Event<Seq<char>>>,
) -> Step<Seq<char>>
    decreases events.len(),
{
    if events.len() == 0 {
        opening
    } else {
        next(supabase, reached(supabase, opening, events.drop_last()).state, events.last())
    }
}

/// A run: a form opened the flow, and each event was what the flow waited for.
pub open spec fn is_run(
    supabase: SupabaseConfig<Seq<char>>,
    opening: Step<Seq<char>>,
    events: Seq<Event<Seq<char>>>,
) -> bool
    decreases events.len(),
{
    if events.len() == 0 {
        opens(supabase, opening)
    } else {
        &&& is_run(supabase, opening, events.drop_last())
        &&& awaits(reached(supabase, opening, events.drop_last()).state, events.last())
    }
}

/// How many events a state is from the end of the flow at most.
pub open spec fn distance(state: State<Seq<char>>) -> nat {
    match state {
        State::PasswordBudget { .. } => 4,
        State::PasswordGrant => 3,
        State::OtpIdentifierBudget { .. } => 3,
        State::OtpClientBudget { .. } => 2,
        State::OtpDispatch { .. } => 1,
        State::CodeBudget { .. } => 4,
        State::CodeCheck { .. } => 3,
        State::StepUpBudget { .. } => 3,
        State::StepUpCheck { .. } => 2,
        State::Factors { .. } => 2,
        State::Challenge { .. } => 1,
        State::Identity { .. } => 1,
        State::Done => 0,
    }
}

/// An attempt within its budget.
pub open spec fn is_allowed(event: Event<Seq<char>>) -> bool {
    event matches Event::Budget { allowed, .. } && allowed
}

/// An action that counts an attempt of the client.
pub open spec fn counts_client(action: Action<Seq<char>>, bucket: Bucket) -> bool {
    action matches Action::CheckBudget { bucket: b, key } && b == bucket && key is Client
}

/// What holds of a step, given the events that led to it.
spec fn traced(
    opening: Step<Seq<char>>,
    events: Seq<Event<Seq<char>>>,
    step: Step<Seq<char>>,
) -> bool {
    &&& step.state is Done <==> step.action is Reply
    &&& match step.state {
        State::PasswordBudget { email, .. } => events.len() == 0 && step.action == budget_check(
            Bucket::PasswordPerIdentifier,
            BudgetKey::Identifier(email),
        ),
        State::OtpIdentifierBudget { identifier, .. } => events.len() == 0 && step.action
            == budget_check(Bucket::OtpDispatchPerIdentifier, BudgetKey::Identifier(identifier)),
        State::CodeBudget { identifier, .. } => events.len() == 0 && step.action == budget_check(
            Bucket::OtpVerifyPerIdentifier,
            BudgetKey::Identifier(identifier),
        ),
        State::StepUpBudget { .. } => events.len() == 0 && counts_client(
            step.action,
            Bucket::MfaVerifyPerClient,
        ),
        State::OtpClientBudget { channel, identifier } => {
            &&& events.len() == 1
            &&& is_allowed(events[0])
            &&& counts_client(step.action, Bucket::OtpDispatchPerClient)
            &&& opening.action == budget_check(
                Bucket::OtpDispatchPerIdentifier,
                BudgetKey::Identifier(identifier),
            )
        },
        State::OtpDispatch { channel, identifier } => {
            &&& events.len() == 2
            &&& is_allowed(events[0])
            &&& is_allowed(events[1])
            &&& opening.action == budget_check(
                Bucket::OtpDispatchPerIdentifier,
                BudgetKey::Identifier(identifier),
            )
            &&& step.action == Action::SendOtp { channel, identifier, create_user: true }
        },
        State::PasswordGrant => {
            &&& events.len() == 1
            &&& is_allowed(events[0])
            &&& step.action matches Action::PasswordGrant { email, .. }
            &&& opening.action == budget_check(
                Bucket::PasswordPerIdentifier,
                BudgetKey::Identifier(email),
            )
        },
        State::CodeCheck { channel, identifier } => {
            &&& events.len() == 1
            &&& is_allowed(events[0])
            &&& step.action matches Action::VerifyOtp { identifier: i, .. }
            &&& i == identifier
            &&& opening.action == budget_check(
                Bucket::OtpVerifyPerIdentifier,
                BudgetKey::Identifier(identifier),
            )
        },
        State::StepUpCheck { .. } => {
            &&& events.len() == 1
            &&& is_allowed(events[0])
            &&& step.action is VerifyFactor
            &&& counts_client(opening.action, Bucket::MfaVerifyPerClient)
        },
        State::Factors { access_token } => step.action == Action::ListFactors { access_token },
        State::Challenge { access_token } => {
            &&& step.action is OpenChallenge
            &&& events.len() > 0
            &&& events.last() matches Event::FactorRequired { factor_id: Some(_) }
        },
        State::Identity { access_token } => {
            &&& step.action == Action::Authenticate { authorization: BEARER@ + access_token }
            &&& header_safe(BEARER@ + access_token)
            &&& events.len() > 0
            &&& (events.last() == Event::FactorRequired::<Seq<char>> { factor_id: None }
                || events.last() == Event::FactorVerified { access_token })
        },
        State::Done => true,
    }
}

proof fn lemma_traced(
    supabase: SupabaseConfig<Seq<char>>,
    opening: Step<Seq<char>>,
    events: Seq<Event<Seq<char>>>,
)
    requires
        is_run(supabase, opening, events),
    ensures
        traced(opening, events, reached(supabase, opening, events)),
    decreases events.len(),
{
    if events.len() > 0 {
        lemma_traced(supabase, opening, events.drop_last());
        let before = reached(supabase, opening, events.drop_last());
        let after = reached(supabase, opening, events);
        assert(after == next(supabase, before.state, events.last()));
        if events.drop_last().len() == 0 {
            assert(before == opening);
        }
        assert(forall|i: int|
            0 <= i < events.len() - 1 ==> #[trigger] events.drop_last()[i] == events[i]);
    }
}

proof fn lemma_run_prefix(
    supabase: SupabaseConfig<Seq<char>>,
    opening: Step<Seq<char>>,
    events: Seq<Event<Seq<char>>>,
    n: int,
)
    requires
        is_run(supabase, opening, events),
        0 <= n <= events.len(),
    ensures
        is_run(supabase, opening, events.take(n)),
        n < events.len() ==> awaits(reached(supabase, opening, events.take(n)).state, events[n])
            && reached(supabase, opening, events.take(n + 1)) == next(
            supabase,
            reached(supabase, opening, events.take(n)).state,
            events[n],
        ),
    decreases events.len(),
{
    if n == events.len() {
        assert(events.take(n) =~= events);
    } else if n == events.len() - 1 {
        assert(events.take(n) =~= events.drop_last());
        assert(events.take(n + 1) =~= events);
    } else {
        lemma_run_prefix(supabase, opening, events.drop_last(), n);
        assert(events.drop_last().take(n) =~= events.take(n));
        assert(events.drop_last().take(n + 1) =~= events.take(n + 1));
    }
}

/// A form that the request checks refuse is answered with that refusal, and nothing is done.
pub proof fn law_refused_forms_do_nothing(
    security: SecurityView,
    headers: HeaderMap<HeaderValue>,
    nonce: Option<Seq<char>>,
    pending_token: Option<Seq<char>>,
    supabase: SupabaseConfig<Seq<char>>,
    password_form: CustomerLoginForm<Seq<char>>,
    request_form: OtpRequestForm<Seq<char>>,
    code_form: OtpVerifyForm<Seq<char>>,
    step_up_form: MfaStepUpForm<Seq<char>>,
)
    ensures
        login_check(security, headers, nonce, password_form.csrf_token) matches Err(error)
            ==> password_submission(security, headers, nonce, password_form) == replied(
            Answer::Refused(error),
        ),
        login_check(security, headers, nonce, request_form.csrf_token) matches Err(error)
            ==> code_request(security, headers, nonce, supabase, request_form) == replied(
            Answer::Refused(error),
        ),
        login_check(security, headers, nonce, code_form.csrf_token) matches Err(error)
            ==> code_submission(security, headers, nonce, supabase, code_form) == replied(
            Answer::Refused(error),
        ),
        login_check(security, headers, nonce, step_up_form.csrf_token) matches Err(error)
            ==> step_up_submission(
            security,
            headers,
            nonce,
            pending_token,
            supabase,
            step_up_form,
        ) == replied(Answer::Refused(error)),
{
}

/// Every run ends: each event brings it closer to its answer, and no run has more than four. It
/// is over exactly when the action is an answer.
pub proof fn law_every_run_ends(
    supabase: SupabaseConfig<Seq<char>>,
    opening: Step<Seq<char>>,
    events: Seq<Event<Seq<char>>>,
)
    requires
        is_run(supabase, opening, events),
    ensures
        events.len() + distance(reached(supabase, opening, events).state) <= 4,
        reached(supabase, opening, events).state is Done <==> reached(
            supabase,
            opening,
            events,
        ).action is Reply,
    decreases events.len(),
{
    lemma_traced(supabase, opening, events);
    if events.len() > 0 {
        law_every_run_ends(supabase, opening, events.drop_last());
    }
}

/// A session is issued only to a token that the identity service accepted, and only right after
/// the account was found to require no authenticator, or its authenticator was verified for
/// that very token.
pub proof fn law_session_needs_the_second_factor(
    supabase: SupabaseConfig<Seq<char>>,
    opening: Step<Seq<char>>,
    events: Seq<Event<Seq<char>>>,
    access_token: Seq<char>,
)
    requires
        is_run(supabase, opening, events),
        reached(supabase, opening, events).action == Action::Reply(
            Answer::SignedIn { access_token },
        ),
    ensures
        events.len() >= 2,
        events.last() == (Event::Identity::<Seq<char>> { accepted: true }),
        ({
            let n = events.len() - 2;
            let state = reached(supabase, opening, events.take(n)).state;
            ||| state == State::Factors { access_token } && events[n]
                == (Event::FactorRequired::<Seq<char>> { factor_id: None })
            ||| state is StepUpCheck && events[n] == (Event::FactorVerified { access_token })
        }),
        header_safe(access_token),
{
    let before = events.drop_last();
    lemma_traced(supabase, opening, before);
    assert(reached(supabase, opening, before).state == State::Identity { access_token });
    let n = before.len() - 1;
    lemma_run_prefix(supabase, opening, events, n);
    lemma_traced(supabase, opening, events.take(n));
    assert(events.take(n + 1) =~= before);
    assert(before.last() == events[n]);
    lemma_header_safe_concat(BEARER@, access_token);
}

/// An account whose factor lookup found a verified authenticator is never signed in by that
/// run: the run can only end in the step-up page or in an outage.
pub proof fn law_required_authenticator_forces_the_step_up(
    supabase: SupabaseConfig<Seq<char>>,
    opening: Step<Seq<char>>,
    events: Seq<Event<Seq<char>>>,
    n: int,
    factor_id: Seq<char>,
)
    requires
        is_run(supabase, opening, events),
        0 <= n < events.len(),
        events[n] == (Event::FactorRequired { factor_id: Some(factor_id) }),
    ensures
        ({
            let state = reached(supabase, opening, events.take(n)).state;
            &&& state matches State::Factors { access_token }
            &&& reached(supabase, opening, events.take(n + 1)) == step_up_begin(
                access_token,
                factor_id,
            )
        }),
        n + 1 == events.len() || {
            &&& n + 2 == events.len()
            &&& match reached(supabase, opening, events).action {
                Action::Reply(Answer::StepUp { access_token, .. }) => reached(
                    supabase,
                    opening,
                    events.take(n),
                ).state == (State::Factors { access_token }),
                Action::Reply(Answer::Unavailable { outage, .. }) => outage
                    == Outage::MfaChallengeFailed,
                _ => false,
            }
        },
{
    lemma_run_prefix(supabase, opening, events, n);
    lemma_run_prefix(supabase, opening, events, n + 1);
    if n + 2 <= events.len() {
        lemma_run_prefix(supabase, opening, events, n + 2);
        if n + 2 == events.len() {
            assert(events.take(n + 2) =~= events);
        }
    }
}

/// An account with a verified authenticator is not handed a session cookie by the run that found
/// it: whatever the run answers, the response sets none.
pub proof fn law_no_session_cookie_past_a_required_authenticator(
    supabase: SupabaseConfig<Seq<char>>,
    opening: Step<Seq<char>>,
    events: Seq<Event<Seq<char>>>,
    n: int,
    factor_id: Seq<char>,
    security: SecurityView,
    cookies: CookiePolicy<Seq<char>>,
    answer: Answer<Seq<char>>,
    nonce: Seq<char>,
)
    requires
        is_run(supabase, opening, events),
        0 <= n < events.len(),
        events[n] == (Event::FactorRequired { factor_id: Some(factor_id) }),
        reached(supabase, opening, events).action == Action::Reply(answer),
        cookies.names_differ(),
    ensures
        answered(security, cookies, answer, nonce) matches Some(response) ==> !sets(
            response,
            cookies.session,
        ),
{
    law_required_authenticator_forces_the_step_up(supabase, opening, events, n, factor_id);
    if n + 1 == events.len() {
        assert(events.take(n + 1) =~= events);
    }
    law_only_signing_in_sets_a_session(security, cookies, answer, nonce);
}

/// A factor lookup that fails is an outage, never a silent admission by one factor.
pub proof fn law_lookup_outage_is_no_admission(
    supabase: SupabaseConfig<Seq<char>>,
    access_token: Seq<char>,
)
    ensures
        next(supabase, State::Factors { access_token }, Event::FactorsUnavailable) == replied(
            Answer::Unavailable { outage: Outage::MfaStateUnavailable, detail: Detail::Upstream },
        ),
{
}

/// A code is sent only where the identifier and then the client were within budget, to that
/// identifier; sending it may create the account.
pub proof fn law_dispatch_is_within_both_budgets(
    supabase: SupabaseConfig<Seq<char>>,
    opening: Step<Seq<char>>,
    events: Seq<Event<Seq<char>>>,
    channel: OtpChannel,
    identifier: Seq<char>,
    create_user: bool,
)
    requires
        is_run(supabase, opening, events),
        reached(supabase, opening, events).action == (Action::SendOtp {
            channel,
            identifier,
            create_user,
        }),
    ensures
        create_user,
        events.len() == 2,
        is_allowed(events[0]),
        is_allowed(events[1]),
        opening.action == budget_check(
            Bucket::OtpDispatchPerIdentifier,
            BudgetKey::Identifier(identifier),
        ),
        counts_client(
            reached(supabase, opening, events.take(1)).action,
            Bucket::OtpDispatchPerClient,
        ),
{
    lemma_traced(supabase, opening, events);
    let before = events.drop_last();
    lemma_traced(supabase, opening, before);
    assert(before =~= events.take(1));
    assert(before.drop_last() =~= events.take(0));
    lemma_run_prefix(supabase, opening, events, 0);
    assert(reached(supabase, opening, events.take(0)) == opening);
}

/// Credentials, codes and authenticator codes are put to Supabase only where the attempt was
/// within the budget of its kind; the budgets of credentials and one-time codes are those of
/// the identifier under attack.
pub proof fn law_attempts_are_within_budget(
    supabase: SupabaseConfig<Seq<char>>,
    opening: Step<Seq<char>>,
    events: Seq<Event<Seq<char>>>,
)
    requires
        is_run(supabase, opening, events),
    ensures
        match reached(supabase, opening, events).action {
            Action::PasswordGrant { email, .. } => {
                &&& events.len() == 1
                &&& is_allowed(events[0])
                &&& opening.action == budget_check(
                    Bucket::PasswordPerIdentifier,
                    BudgetKey::Identifier(email),
                )
            },
            Action::VerifyOtp { identifier, .. } => {
                &&& events.len() == 1
                &&& is_allowed(events[0])
                &&& opening.action == budget_check(
                    Bucket::OtpVerifyPerIdentifier,
                    BudgetKey::Identifier(identifier),
                )
            },
            Action::VerifyFactor { .. } => {
                &&& events.len() == 1
                &&& is_allowed(events[0])
                &&& counts_client(opening.action, Bucket::MfaVerifyPerClient)
            },
            _ => true,
        },
{
    lemma_traced(supabase, opening, events);
    if events.len() > 0 {
        lemma_traced(supabase, opening, events.drop_last());
        assert(events.drop_last().len() == 0 ==> reached(supabase, opening, events.drop_last())
            == opening);
    }
}

/// An attempt over budget is answered before anything was asked of Supabase, and always with
/// the same message, so that the answer tells nothing of the account.
pub proof fn law_throttled_answers_tell_nothing(
    supabase: SupabaseConfig<Seq<char>>,
    opening: Step<Seq<char>>,
    events: Seq<Event<Seq<char>>>,
    page: Page<Seq<char>>,
    retry_after_secs: u64,
)
    requires
        is_run(supabase, opening, events),
        reached(supabase, opening, events).action == Action::Reply(
            Answer::Throttled { page, retry_after_secs },
        ),
    ensures
        forall|i: int| 0 <= i < events.len() ==> #[trigger] events[i] is Budget,
        events.len() > 0,
        events.last() == (Event::Budget::<Seq<char>> { allowed: false, retry_after_secs }),
        match page {
            Page::Login { message } => message == Some(THROTTLE_MESSAGE@),
            Page::Code { message, .. } => message == Some(THROTTLE_MESSAGE@),
            Page::StepUp { message, .. } => message == Some(THROTTLE_MESSAGE@),
        },
{
    lemma_traced(supabase, opening, events);
    if events.len() > 0 {
        let before = events.drop_last();
        lemma_traced(supabase, opening, before);
        assert forall|i: int| 0 <= i < events.len() implies #[trigger] events[i] is Budget by {
            if i < events.len() - 1 {
                assert(before[i] == events[i]);
            }
        }
    }
}

} // verus!
