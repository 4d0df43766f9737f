//! What the pages of the sign-in flow show, whatever the values that they show.

use crate::auth_pages::{
    alert, auth_shell, channel_of, code_fields, code_page, factor_item, factor_items, factor_list,
    hidden, login_page, mfa_page, qr_image, result_page, set_up_page, step_up_page, text_or,
    Factor, OtpChannel, TotpEnrollment, CODE_BLURB, CODE_FORM_END, CODE_FORM_OPEN, CODE_INTRO,
    CODE_SENT_END, CODE_SENT_TO, CODE_TITLE, DOCTYPE, EMAIL_FORM_END, EMAIL_FORM_OPEN,
    ENROLL_FORM_END, ENROLL_FORM_OPEN, FACTOR_FORM_END, FACTOR_FORM_OPEN, FACTOR_LIST_END,
    FACTOR_LIST_OPEN, FACTOR_OPEN, FACTOR_STATUS, LOGIN_INTRO, LOGIN_NOTES, LOGIN_TITLE, MFA_INTRO,
    MFA_NONE, MFA_TITLE, PASSWORD_FORM_END, PASSWORD_FORM_OPEN, PHONE_FORM_END, PHONE_FORM_OPEN,
    QR_IMAGE_END, QR_IMAGE_OPEN, RESEND_FORM_END, RESEND_FORM_OPEN, RESULT_END, RESULT_INTRO,
    RESULT_MESSAGE, RESULT_TITLE, SET_UP_FORM_END, SET_UP_FORM_OPEN, SET_UP_INTRO, SET_UP_SECRET,
    SET_UP_TITLE, SET_UP_URI, SHELL_BODY, SHELL_END, SHELL_HEAD, STEP_UP_FORM_END,
    STEP_UP_FORM_OPEN, STEP_UP_INTRO, STEP_UP_TITLE,
};
use crate::html::escaped;
use crate::tables::inline_message;
use crate::text::trimmed;
use crate::text_laws::occurs;
use vstd::prelude::*;

verus! {

/// Whether two texts are the same but for one place, where each has its own piece.
pub open spec fn alike_in_one(
    p: Seq<char>,
    x0: Seq<char>,
    q: Seq<char>,
    y0: Seq<char>,
) -> bool {
    exists|a: Seq<char>, b: Seq<char>|
        p == #[trigger] (a + x0 + b) && q == a + y0 + b
}

/// Whether two texts are the same but for two places, where each has its own pieces.
pub open spec fn alike_in_two(
    p: Seq<char>,
    x0: Seq<char>,
    x1: Seq<char>,
    q: Seq<char>,
    y0: Seq<char>,
    y1: Seq<char>,
) -> bool {
    exists|a: Seq<char>, b: Seq<char>, c: Seq<char>|
        p == #[trigger] (a + x0 + b + x1 + c) && q == a + y0 + b + y1 + c
}

/// Whether two texts are the same but for three places, where each has its own pieces.
pub open spec fn alike_in_three(
    p: Seq<char>,
    x0: Seq<char>,
    x1: Seq<char>,
    x2: Seq<char>,
    q: Seq<char>,
    y0: Seq<char>,
    y1: Seq<char>,
    y2: Seq<char>,
) -> bool {
    exists|a: Seq<char>, b: Seq<char>, c: Seq<char>, d: Seq<char>|
        p == #[trigger] (a + x0 + b + x1 + c + x2 + d) && q == a + y0 + b + y1 + c + y2 + d
}

/// Whether two texts are the same but for four places, where each has its own pieces.
pub open spec fn alike_in_four(
    p: Seq<char>,
    x0: Seq<char>,
    x1: Seq<char>,
    x2: Seq<char>,
    x3: Seq<char>,
    q: Seq<char>,
    y0: Seq<char>,
    y1: Seq<char>,
    y2: Seq<char>,
    y3: Seq<char>,
) -> bool {
    exists|a: Seq<char>, b: Seq<char>, c: Seq<char>, d: Seq<char>, e: Seq<char>|
        p == #[trigger] (a + x0 + b + x1 + c + x2 + d + x3 + e) && q == a + y0 + b + y1 + c + y2
            + d + y3 + e
}

/// Whether two texts are the same but for five places, where each has its own pieces.
pub open spec fn alike_in_five(
    p: Seq<char>,
    x0: Seq<char>,
    x1: Seq<char>,
    x2: Seq<char>,
    x3: Seq<char>,
    x4: Seq<char>,
    q: Seq<char>,
    y0: Seq<char>,
    y1: Seq<char>,
    y2: Seq<char>,
    y3: Seq<char>,
    y4: Seq<char>,
) -> bool {
    exists|a: Seq<char>, b: Seq<char>, c: Seq<char>, d: Seq<char>, e: Seq<char>, f: Seq<char>|
        p == #[trigger] (a + x0 + b + x1 + c + x2 + d + x3 + e + x4 + f) && q == a + y0 + b + y1
            + c + y2 + d + y3 + e + y4 + f
}

pub broadcast proof fn lemma_regrouped(a: Seq<char>, b: Seq<char>, c: Seq<char>)
    ensures
        #[trigger] (a + (b + c)) == a + b + c,
{
    assert(a + (b + c) =~= a + b + c);
}

/// A page of the sign-in surface has its title and its contents, whatever they are, in their
/// places, and is otherwise the same.
pub proof fn law_shell_has_its_title_and_its_contents(
    title: Seq<char>,
    inner: Seq<char>,
    other: Seq<char>,
)
    ensures
        alike_in_one(
            auth_shell(title, inner),
            SHELL_HEAD@ + escaped(title) + SHELL_BODY@,
            auth_shell(other, inner),
            SHELL_HEAD@ + escaped(other) + SHELL_BODY@,
        ),
        alike_in_one(
            auth_shell(title, inner),
            SHELL_BODY@ + inner + SHELL_END@,
            auth_shell(title, other),
            SHELL_BODY@ + other + SHELL_END@,
        ),
{
    broadcast use lemma_regrouped;
    {
        let a = DOCTYPE@;
        let b = inner + SHELL_END@;
        assert(auth_shell(title, inner) =~= a + (SHELL_HEAD@ + escaped(title) + SHELL_BODY@) + b);
        assert(auth_shell(other, inner) =~= a + (SHELL_HEAD@ + escaped(other) + SHELL_BODY@) + b);
    }
    {
        let a = DOCTYPE@ + SHELL_HEAD@ + escaped(title);
        let b = Seq::<char>::empty();
        assert(auth_shell(title, inner) =~= a + (SHELL_BODY@ + inner + SHELL_END@) + b);
        assert(auth_shell(title, other) =~= a + (SHELL_BODY@ + other + SHELL_END@) + b);
    }
}

/// A hidden field has its name and its escaped value, whatever they are.
pub proof fn law_hidden_fields_have_name_and_value(name: Seq<char>, value: Seq<char>)
    ensures
        hidden(name, value) == "<input type=\"hidden\" name=\""@ + name + "\" value=\""@
            + escaped(value)
            + "\">"@,
{
}

/// A message is shown as an alert and as a status line with its escaped text. Where there is no
/// message, nothing is shown.
pub proof fn law_messages_are_shown_where_there_are_any(message: Seq<char>)
    ensures
        alert(Some(message)) == "<p class=\"auth-message\" role=\"alert\">"@ + escaped(message)
            + "</p>"@,
        alert(None) == Seq::<char>::empty(),
        inline_message(Some(message)) == "<p class=\"inline-message\" role=\"status\">"@ + escaped(
            message,
        ) + "</p>"@,
        inline_message(None) == Seq::<char>::empty(),
{
}

/// A missing text is replaced, one that is there is not.
pub proof fn law_missing_texts_are_replaced(text: Seq<char>, other: Seq<char>)
    ensures
        text_or(Some(text), other) == text,
        text_or(None, other) == other,
{
}

/// The login page shows its message, whatever it is, and has its token in each of its three
/// forms. It is otherwise the same.
pub proof fn law_login_page_has_its_message_and_its_token(
    message: Option<Seq<char>>,
    csrf_token: Seq<char>,
    other_message: Option<Seq<char>>,
    other: Seq<char>,
)
    ensures
        alike_in_one(
            login_page(message, csrf_token),
            LOGIN_INTRO@ + alert(message) + PASSWORD_FORM_OPEN@,
            login_page(other_message, csrf_token),
            LOGIN_INTRO@ + alert(other_message) + PASSWORD_FORM_OPEN@,
        ),
        alike_in_three(
            login_page(message, csrf_token),
            PASSWORD_FORM_OPEN@ + hidden("csrf_token"@, csrf_token) + PASSWORD_FORM_END@,
            EMAIL_FORM_OPEN@ + hidden("csrf_token"@, csrf_token) + hidden("method"@, "email"@),
            PHONE_FORM_OPEN@ + hidden("csrf_token"@, csrf_token) + hidden("method"@, "phone"@),
            login_page(message, other),
            PASSWORD_FORM_OPEN@ + hidden("csrf_token"@, other) + PASSWORD_FORM_END@,
            EMAIL_FORM_OPEN@ + hidden("csrf_token"@, other) + hidden("method"@, "email"@),
            PHONE_FORM_OPEN@ + hidden("csrf_token"@, other) + hidden("method"@, "phone"@),
        ),
{
    broadcast use lemma_regrouped;
    {
        let a = DOCTYPE@ + SHELL_HEAD@ + escaped(LOGIN_TITLE@) + SHELL_BODY@;
        let b = hidden("csrf_token"@, csrf_token) + PASSWORD_FORM_END@ + EMAIL_FORM_OPEN@
            + hidden("csrf_token"@, csrf_token) + hidden("method"@, "email"@) + EMAIL_FORM_END@
            + PHONE_FORM_OPEN@ + hidden("csrf_token"@, csrf_token) + hidden("method"@, "phone"@)
            + PHONE_FORM_END@ + LOGIN_NOTES@ + SHELL_END@;
        assert(login_page(message, csrf_token) =~= a + (LOGIN_INTRO@ + alert(message)
            + PASSWORD_FORM_OPEN@) + b);
        assert(login_page(other_message, csrf_token) =~= a + (LOGIN_INTRO@ + alert(other_message)
            + PASSWORD_FORM_OPEN@) + b);
    }
    {
        let a = DOCTYPE@ + SHELL_HEAD@ + escaped(LOGIN_TITLE@) + SHELL_BODY@ + LOGIN_INTRO@
            + alert(message);
        let b = Seq::<char>::empty();
        let c = EMAIL_FORM_END@;
        let d = PHONE_FORM_END@ + LOGIN_NOTES@ + SHELL_END@;
        assert(login_page(message, csrf_token) =~= a + (PASSWORD_FORM_OPEN@
            + hidden("csrf_token"@, csrf_token) + PASSWORD_FORM_END@) + b + (EMAIL_FORM_OPEN@
            + hidden("csrf_token"@, csrf_token) + hidden("method"@, "email"@)) + c
            + (PHONE_FORM_OPEN@ + hidden("csrf_token"@, csrf_token) + hidden("method"@, "phone"@))
            + d);
        assert(login_page(message, other) =~= a + (PASSWORD_FORM_OPEN@
            + hidden("csrf_token"@, other) + PASSWORD_FORM_END@) + b + (EMAIL_FORM_OPEN@
            + hidden("csrf_token"@, other) + hidden("method"@, "email"@)) + c + (PHONE_FORM_OPEN@
            + hidden("csrf_token"@, other) + hidden("method"@, "phone"@)) + d);
    }
}

/// The fields of a code form carry the token, the name of the channel and the identifier.
pub proof fn law_code_fields_carry_channel_identifier_and_token(
    channel: OtpChannel,
    identifier: Seq<char>,
    csrf_token: Seq<char>,
    other_channel: OtpChannel,
    other: Seq<char>,
)
    ensures
        alike_in_one(
            code_fields(channel, identifier, csrf_token),
            hidden("csrf_token"@, csrf_token),
            code_fields(channel, identifier, other),
            hidden("csrf_token"@, other),
        ),
        alike_in_one(
            code_fields(channel, identifier, csrf_token),
            hidden("method"@, channel.name()),
            code_fields(other_channel, identifier, csrf_token),
            hidden("method"@, other_channel.name()),
        ),
        alike_in_one(
            code_fields(channel, identifier, csrf_token),
            hidden("identifier"@, identifier),
            code_fields(channel, other, csrf_token),
            hidden("identifier"@, other),
        ),
{
    broadcast use lemma_regrouped;
    {
        let a = Seq::<char>::empty();
        let b = hidden("method"@, channel.name()) + hidden("identifier"@, identifier);
        assert(code_fields(channel, identifier, csrf_token) =~= a
            + (hidden("csrf_token"@, csrf_token)) + b);
        assert(code_fields(channel, identifier, other) =~= a + (hidden("csrf_token"@, other)) + b);
    }
    {
        let a = hidden("csrf_token"@, csrf_token);
        let b = hidden("identifier"@, identifier);
        assert(code_fields(channel, identifier, csrf_token) =~= a
            + (hidden("method"@, channel.name())) + b);
        assert(code_fields(other_channel, identifier, csrf_token) =~= a
            + (hidden("method"@, other_channel.name())) + b);
    }
    {
        let a = hidden("csrf_token"@, csrf_token) + hidden("method"@, channel.name());
        let b = Seq::<char>::empty();
        assert(code_fields(channel, identifier, csrf_token) =~= a
            + (hidden("identifier"@, identifier)) + b);
        assert(code_fields(channel, other, csrf_token) =~= a + (hidden("identifier"@, other)) + b);
    }
}

/// The page that asks for a code speaks of its channel, and has it in the form for the code and
/// in the one that sends another. It is otherwise the same.
pub proof fn law_code_page_speaks_of_its_channel(
    channel: OtpChannel,
    identifier: Seq<char>,
    csrf_token: Seq<char>,
    message: Option<Seq<char>>,
    other: OtpChannel,
)
    ensures
        alike_in_four(
            code_page(channel, identifier, csrf_token, message),
            CODE_INTRO@ + escaped(channel.heading()) + CODE_BLURB@,
            escaped(channel.blurb()) + CODE_SENT_TO@,
            CODE_FORM_OPEN@ + code_fields(channel, identifier, csrf_token) + CODE_FORM_END@,
            RESEND_FORM_OPEN@ + code_fields(channel, identifier, csrf_token) + RESEND_FORM_END@,
            code_page(other, identifier, csrf_token, message),
            CODE_INTRO@ + escaped(other.heading()) + CODE_BLURB@,
            escaped(other.blurb()) + CODE_SENT_TO@,
            CODE_FORM_OPEN@ + code_fields(other, identifier, csrf_token) + CODE_FORM_END@,
            RESEND_FORM_OPEN@ + code_fields(other, identifier, csrf_token) + RESEND_FORM_END@,
        ),
{
    broadcast use lemma_regrouped;
    let a = DOCTYPE@ + SHELL_HEAD@ + escaped(CODE_TITLE@) + SHELL_BODY@;
    let b = Seq::<char>::empty();
    let c = escaped(identifier) + CODE_SENT_END@ + alert(message);
    let d = Seq::<char>::empty();
    let e = SHELL_END@;
    assert(code_page(channel, identifier, csrf_token, message) =~= a + (CODE_INTRO@
        + escaped(channel.heading()) + CODE_BLURB@) + b + (escaped(channel.blurb())
        + CODE_SENT_TO@) + c + (CODE_FORM_OPEN@ + code_fields(channel, identifier, csrf_token)
        + CODE_FORM_END@) + d + (RESEND_FORM_OPEN@ + code_fields(channel, identifier, csrf_token)
        + RESEND_FORM_END@) + e);
    assert(code_page(other, identifier, csrf_token, message) =~= a + (CODE_INTRO@
        + escaped(other.heading()) + CODE_BLURB@) + b + (escaped(other.blurb()) + CODE_SENT_TO@)
        + c + (CODE_FORM_OPEN@ + code_fields(other, identifier, csrf_token) + CODE_FORM_END@) + d
        + (RESEND_FORM_OPEN@ + code_fields(other, identifier, csrf_token) + RESEND_FORM_END@) + e);
}

/// The page that asks for a code shows where the code went, and has the identifier in the form
/// for the code and in the one that sends another. It is otherwise the same.
pub proof fn law_code_page_shows_where_the_code_went(
    channel: OtpChannel,
    identifier: Seq<char>,
    csrf_token: Seq<char>,
    message: Option<Seq<char>>,
    other: Seq<char>,
)
    ensures
        alike_in_three(
            code_page(channel, identifier, csrf_token, message),
            CODE_SENT_TO@ + escaped(identifier) + CODE_SENT_END@,
            CODE_FORM_OPEN@ + code_fields(channel, identifier, csrf_token) + CODE_FORM_END@,
            RESEND_FORM_OPEN@ + code_fields(channel, identifier, csrf_token) + RESEND_FORM_END@,
            code_page(channel, other, csrf_token, message),
            CODE_SENT_TO@ + escaped(other) + CODE_SENT_END@,
            CODE_FORM_OPEN@ + code_fields(channel, other, csrf_token) + CODE_FORM_END@,
            RESEND_FORM_OPEN@ + code_fields(channel, other, csrf_token) + RESEND_FORM_END@,
        ),
{
    broadcast use lemma_regrouped;
    let a = DOCTYPE@ + SHELL_HEAD@ + escaped(CODE_TITLE@) + SHELL_BODY@ + CODE_INTRO@
        + escaped(channel.heading()) + CODE_BLURB@ + escaped(channel.blurb());
    let b = alert(message);
    let c = Seq::<char>::empty();
    let d = SHELL_END@;
    assert(code_page(channel, identifier, csrf_token, message) =~= a + (CODE_SENT_TO@
        + escaped(identifier) + CODE_SENT_END@) + b + (CODE_FORM_OPEN@
        + code_fields(channel, identifier, csrf_token) + CODE_FORM_END@) + c + (RESEND_FORM_OPEN@
        + code_fields(channel, identifier, csrf_token) + RESEND_FORM_END@) + d);
    assert(code_page(channel, other, csrf_token, message) =~= a + (CODE_SENT_TO@ + escaped(other)
        + CODE_SENT_END@) + b + (CODE_FORM_OPEN@ + code_fields(channel, other, csrf_token)
        + CODE_FORM_END@) + c + (RESEND_FORM_OPEN@ + code_fields(channel, other, csrf_token)
        + RESEND_FORM_END@) + d);
}

/// The page that asks for a code shows its message, and has the token in the form for the code
/// and in the one that sends another. It is otherwise the same.
pub proof fn law_code_page_has_its_token_and_its_message(
    channel: OtpChannel,
    identifier: Seq<char>,
    csrf_token: Seq<char>,
    message: Option<Seq<char>>,
    other_message: Option<Seq<char>>,
    other: Seq<char>,
)
    ensures
        alike_in_two(
            code_page(channel, identifier, csrf_token, message),
            CODE_FORM_OPEN@ + code_fields(channel, identifier, csrf_token) + CODE_FORM_END@,
            RESEND_FORM_OPEN@ + code_fields(channel, identifier, csrf_token) + RESEND_FORM_END@,
            code_page(channel, identifier, other, message),
            CODE_FORM_OPEN@ + code_fields(channel, identifier, other) + CODE_FORM_END@,
            RESEND_FORM_OPEN@ + code_fields(channel, identifier, other) + RESEND_FORM_END@,
        ),
        alike_in_one(
            code_page(channel, identifier, csrf_token, message),
            CODE_SENT_END@ + alert(message) + CODE_FORM_OPEN@,
            code_page(channel, identifier, csrf_token, other_message),
            CODE_SENT_END@ + alert(other_message) + CODE_FORM_OPEN@,
        ),
{
    broadcast use lemma_regrouped;
    {
        let a = DOCTYPE@ + SHELL_HEAD@ + escaped(CODE_TITLE@) + SHELL_BODY@ + CODE_INTRO@
            + escaped(channel.heading()) + CODE_BLURB@ + escaped(channel.blurb()) + CODE_SENT_TO@
            + escaped(identifier) + CODE_SENT_END@ + alert(message);
        let b = Seq::<char>::empty();
        let c = SHELL_END@;
        assert(code_page(channel, identifier, csrf_token, message) =~= a + (CODE_FORM_OPEN@
            + code_fields(channel, identifier, csrf_token) + CODE_FORM_END@) + b
            + (RESEND_FORM_OPEN@ + code_fields(channel, identifier, csrf_token) + RESEND_FORM_END@)
            + c);
        assert(code_page(channel, identifier, other, message) =~= a + (CODE_FORM_OPEN@
            + code_fields(channel, identifier, other) + CODE_FORM_END@) + b + (RESEND_FORM_OPEN@
            + code_fields(channel, identifier, other) + RESEND_FORM_END@) + c);
    }
    {
        let a = DOCTYPE@ + SHELL_HEAD@ + escaped(CODE_TITLE@) + SHELL_BODY@ + CODE_INTRO@
            + escaped(channel.heading()) + CODE_BLURB@ + escaped(channel.blurb()) + CODE_SENT_TO@
            + escaped(identifier);
        let b = code_fields(channel, identifier, csrf_token) + CODE_FORM_END@ + RESEND_FORM_OPEN@
            + code_fields(channel, identifier, csrf_token) + RESEND_FORM_END@ + SHELL_END@;
        assert(code_page(channel, identifier, csrf_token, message) =~= a + (CODE_SENT_END@
            + alert(message) + CODE_FORM_OPEN@) + b);
        assert(code_page(channel, identifier, csrf_token, other_message) =~= a + (CODE_SENT_END@
            + alert(other_message) + CODE_FORM_OPEN@) + b);
    }
}

/// The two channels have names of their own, and a page names the one that it is about.
pub proof fn law_channels_have_their_words()
    ensures
        OtpChannel::Email.name() == "email"@,
        OtpChannel::Phone.name() == "phone"@,
        OtpChannel::Email.heading() == "Check your email"@,
        OtpChannel::Phone.heading() == "Check your phone"@,
        OtpChannel::Email.blurb() == "We emailed you a 6-digit code. Enter it below."@,
        OtpChannel::Phone.blurb() == "We texted a 6-digit code to your phone. Enter it below."@,
{
}

/// A channel is read back from its name, with white space around it or not, and from nothing
/// else.
pub proof fn law_channels_are_read_by_name(method: Seq<char>, channel: OtpChannel)
    ensures
        channel_of(method) == Some(channel) <==> trimmed(method) == channel.name(),
        channel_of(method) is None <==> trimmed(method) != OtpChannel::Email.name() && trimmed(method)
            != OtpChannel::Phone.name(),
{
    reveal_strlit("email");
    reveal_strlit("phone");
    assert("email"@[0] == 'e' && "phone"@[0] == 'p');
}

/// The page that asks for an authenticator's code shows its message, and has the token, the
/// factor and the challenge in its form. It is otherwise the same.
pub proof fn law_step_up_page_has_factor_challenge_token_and_message(
    factor_id: Seq<char>,
    challenge_id: Seq<char>,
    csrf_token: Seq<char>,
    message: Option<Seq<char>>,
    other: Seq<char>,
    other_message: Option<Seq<char>>,
)
    ensures
        alike_in_one(
            step_up_page(factor_id, challenge_id, csrf_token, message),
            STEP_UP_INTRO@ + alert(message) + STEP_UP_FORM_OPEN@,
            step_up_page(factor_id, challenge_id, csrf_token, other_message),
            STEP_UP_INTRO@ + alert(other_message) + STEP_UP_FORM_OPEN@,
        ),
        alike_in_one(
            step_up_page(factor_id, challenge_id, csrf_token, message),
            STEP_UP_FORM_OPEN@ + hidden("csrf_token"@, csrf_token),
            step_up_page(factor_id, challenge_id, other, message),
            STEP_UP_FORM_OPEN@ + hidden("csrf_token"@, other),
        ),
        alike_in_one(
            step_up_page(factor_id, challenge_id, csrf_token, message),
            hidden("factor_id"@, factor_id),
            step_up_page(other, challenge_id, csrf_token, message),
            hidden("factor_id"@, other),
        ),
        alike_in_one(
            step_up_page(factor_id, challenge_id, csrf_token, message),
            hidden("challenge_id"@, challenge_id) + STEP_UP_FORM_END@,
            step_up_page(factor_id, other, csrf_token, message),
            hidden("challenge_id"@, other) + STEP_UP_FORM_END@,
        ),
{
    broadcast use lemma_regrouped;
    {
        let a = DOCTYPE@ + SHELL_HEAD@ + escaped(STEP_UP_TITLE@) + SHELL_BODY@;
        let b = hidden("csrf_token"@, csrf_token) + hidden("factor_id"@, factor_id)
            + hidden("challenge_id"@, challenge_id) + STEP_UP_FORM_END@ + SHELL_END@;
        assert(step_up_page(factor_id, challenge_id, csrf_token, message) =~= a + (STEP_UP_INTRO@
            + alert(message) + STEP_UP_FORM_OPEN@) + b);
        assert(step_up_page(factor_id, challenge_id, csrf_token, other_message) =~= a
            + (STEP_UP_INTRO@ + alert(other_message) + STEP_UP_FORM_OPEN@) + b);
    }
    {
        let a = DOCTYPE@ + SHELL_HEAD@ + escaped(STEP_UP_TITLE@) + SHELL_BODY@ + STEP_UP_INTRO@
            + alert(message);
        let b = hidden("factor_id"@, factor_id) + hidden("challenge_id"@, challenge_id)
            + STEP_UP_FORM_END@ + SHELL_END@;
        assert(step_up_page(factor_id, challenge_id, csrf_token, message) =~= a
            + (STEP_UP_FORM_OPEN@ + hidden("csrf_token"@, csrf_token)) + b);
        assert(step_up_page(factor_id, challenge_id, other, message) =~= a + (STEP_UP_FORM_OPEN@
            + hidden("csrf_token"@, other)) + b);
    }
    {
        let a = DOCTYPE@ + SHELL_HEAD@ + escaped(STEP_UP_TITLE@) + SHELL_BODY@ + STEP_UP_INTRO@
            + alert(message) + STEP_UP_FORM_OPEN@ + hidden("csrf_token"@, csrf_token);
        let b = hidden("challenge_id"@, challenge_id) + STEP_UP_FORM_END@ + SHELL_END@;
        assert(step_up_page(factor_id, challenge_id, csrf_token, message) =~= a
            + (hidden("factor_id"@, factor_id)) + b);
        assert(step_up_page(other, challenge_id, csrf_token, message) =~= a
            + (hidden("factor_id"@, other)) + b);
    }
    {
        let a = DOCTYPE@ + SHELL_HEAD@ + escaped(STEP_UP_TITLE@) + SHELL_BODY@ + STEP_UP_INTRO@
            + alert(message) + STEP_UP_FORM_OPEN@ + hidden("csrf_token"@, csrf_token)
            + hidden("factor_id"@, factor_id);
        let b = SHELL_END@;
        assert(step_up_page(factor_id, challenge_id, csrf_token, message) =~= a
            + (hidden("challenge_id"@, challenge_id) + STEP_UP_FORM_END@) + b);
        assert(step_up_page(factor_id, other, csrf_token, message) =~= a
            + (hidden("challenge_id"@, other) + STEP_UP_FORM_END@) + b);
    }
}

/// The entry of an authenticator shows its name and its status, and has the token and the factor
/// in its form. It is otherwise the same, whatever the type of the factor.
pub proof fn law_factor_entry_has_name_status_token_and_factor(
    factor: Factor<Seq<char>>,
    csrf_token: Seq<char>,
    other: Option<Seq<char>>,
    other_text: Seq<char>,
)
    ensures
        alike_in_one(
            factor_item(factor, csrf_token),
            FACTOR_OPEN@ + escaped(text_or(factor.friendly_name, "Authenticator"@))
                + FACTOR_STATUS@,
            factor_item(Factor { friendly_name: other, ..factor }, csrf_token),
            FACTOR_OPEN@ + escaped(text_or(other, "Authenticator"@)) + FACTOR_STATUS@,
        ),
        alike_in_one(
            factor_item(factor, csrf_token),
            FACTOR_STATUS@ + escaped(text_or(factor.status, "unknown"@)) + FACTOR_FORM_OPEN@,
            factor_item(Factor { status: other, ..factor }, csrf_token),
            FACTOR_STATUS@ + escaped(text_or(other, "unknown"@)) + FACTOR_FORM_OPEN@,
        ),
        alike_in_one(
            factor_item(factor, csrf_token),
            FACTOR_FORM_OPEN@ + hidden("csrf_token"@, csrf_token),
            factor_item(factor, other_text),
            FACTOR_FORM_OPEN@ + hidden("csrf_token"@, other_text),
        ),
        alike_in_one(
            factor_item(factor, csrf_token),
            hidden("factor_id"@, factor.id) + FACTOR_FORM_END@,
            factor_item(Factor { id: other_text, ..factor }, csrf_token),
            hidden("factor_id"@, other_text) + FACTOR_FORM_END@,
        ),
        factor_item(factor, csrf_token) == factor_item(Factor { factor_type: other, ..factor }, csrf_token),
{
    broadcast use lemma_regrouped;
    {
        let a = Seq::<char>::empty();
        let b = escaped(text_or(factor.status, "unknown"@)) + FACTOR_FORM_OPEN@
            + hidden("csrf_token"@, csrf_token) + hidden("factor_id"@, factor.id)
            + FACTOR_FORM_END@;
        assert(factor_item(factor, csrf_token) =~= a + (FACTOR_OPEN@
            + escaped(text_or(factor.friendly_name, "Authenticator"@)) + FACTOR_STATUS@) + b);
        assert(factor_item(Factor { friendly_name: other, ..factor }, csrf_token) =~= a
            + (FACTOR_OPEN@ + escaped(text_or(other, "Authenticator"@)) + FACTOR_STATUS@) + b);
    }
    {
        let a = FACTOR_OPEN@ + escaped(text_or(factor.friendly_name, "Authenticator"@));
        let b = hidden("csrf_token"@, csrf_token) + hidden("factor_id"@, factor.id)
            + FACTOR_FORM_END@;
        assert(factor_item(factor, csrf_token) =~= a + (FACTOR_STATUS@
            + escaped(text_or(factor.status, "unknown"@)) + FACTOR_FORM_OPEN@) + b);
        assert(factor_item(Factor { status: other, ..factor }, csrf_token) =~= a + (FACTOR_STATUS@
            + escaped(text_or(other, "unknown"@)) + FACTOR_FORM_OPEN@) + b);
    }
    {
        let a = FACTOR_OPEN@ + escaped(text_or(factor.friendly_name, "Authenticator"@))
            + FACTOR_STATUS@ + escaped(text_or(factor.status, "unknown"@));
        let b = hidden("factor_id"@, factor.id) + FACTOR_FORM_END@;
        assert(factor_item(factor, csrf_token) =~= a + (FACTOR_FORM_OPEN@
            + hidden("csrf_token"@, csrf_token)) + b);
        assert(factor_item(factor, other_text) =~= a + (FACTOR_FORM_OPEN@
            + hidden("csrf_token"@, other_text)) + b);
    }
    {
        let a = FACTOR_OPEN@ + escaped(text_or(factor.friendly_name, "Authenticator"@))
            + FACTOR_STATUS@ + escaped(text_or(factor.status, "unknown"@)) + FACTOR_FORM_OPEN@
            + hidden("csrf_token"@, csrf_token);
        let b = Seq::<char>::empty();
        assert(factor_item(factor, csrf_token) =~= a + (hidden("factor_id"@, factor.id)
            + FACTOR_FORM_END@) + b);
        assert(factor_item(Factor { id: other_text, ..factor }, csrf_token) =~= a
            + (hidden("factor_id"@, other_text) + FACTOR_FORM_END@) + b);
    }
}

/// A list of authenticators has the entry of each, in their order. In place of an empty list
/// stands a remark.
pub proof fn law_factors_are_listed_in_order(
    first: Seq<Factor<Seq<char>>>,
    second: Seq<Factor<Seq<char>>>,
    factor: Factor<Seq<char>>,
    csrf_token: Seq<char>,
)
    ensures
        factor_items(first + second, csrf_token) == factor_items(first, csrf_token) + factor_items(
            second,
            csrf_token,
        ),
        factor_items(seq![factor], csrf_token) == factor_item(factor, csrf_token),
        factor_list(first.push(factor), csrf_token) == FACTOR_LIST_OPEN@ + factor_items(
            first,
            csrf_token,
        ) + factor_item(factor, csrf_token) + FACTOR_LIST_END@,
        factor_list(Seq::empty(), csrf_token) == MFA_NONE@,
    decreases second.len(),
{
    reveal_with_fuel(factor_items, 2);
    assert(seq![factor].drop_last() =~= Seq::empty());
    assert(Seq::<char>::empty() + factor_item(factor, csrf_token) =~= factor_item(
        factor,
        csrf_token,
    ));
    assert(first.push(factor).drop_last() =~= first);
    lemma_regrouped(
        FACTOR_LIST_OPEN@,
        factor_items(first, csrf_token),
        factor_item(factor, csrf_token),
    );
    if second.len() == 0 {
        assert(first + second =~= first);
        assert(factor_items(first, csrf_token) + Seq::<char>::empty() =~= factor_items(
            first,
            csrf_token,
        ));
    } else {
        law_factors_are_listed_in_order(first, second.drop_last(), factor, csrf_token);
        assert((first + second).drop_last() =~= first + second.drop_last());
        lemma_regrouped(
            factor_items(first, csrf_token),
            factor_items(second.drop_last(), csrf_token),
            factor_item(second.last(), csrf_token),
        );
    }
}

/// The page on which authenticators are managed shows its message and the list of authenticators,
/// and has the token in the form that adds one. It is otherwise the same.
pub proof fn law_authenticator_page_has_list_token_and_message(
    factors: Seq<Factor<Seq<char>>>,
    csrf_token: Seq<char>,
    message: Option<Seq<char>>,
    other_factors: Seq<Factor<Seq<char>>>,
    other: Seq<char>,
    other_message: Option<Seq<char>>,
)
    ensures
        alike_in_one(
            mfa_page(factors, csrf_token, message),
            MFA_INTRO@ + alert(message),
            mfa_page(factors, csrf_token, other_message),
            MFA_INTRO@ + alert(other_message),
        ),
        alike_in_one(
            mfa_page(factors, csrf_token, message),
            factor_list(factors, csrf_token) + ENROLL_FORM_OPEN@,
            mfa_page(other_factors, csrf_token, message),
            factor_list(other_factors, csrf_token) + ENROLL_FORM_OPEN@,
        ),
        alike_in_two(
            mfa_page(factors, csrf_token, message),
            factor_list(factors, csrf_token),
            ENROLL_FORM_OPEN@ + hidden("csrf_token"@, csrf_token) + ENROLL_FORM_END@,
            mfa_page(factors, other, message),
            factor_list(factors, other),
            ENROLL_FORM_OPEN@ + hidden("csrf_token"@, other) + ENROLL_FORM_END@,
        ),
{
    broadcast use lemma_regrouped;
    {
        let a = DOCTYPE@ + SHELL_HEAD@ + escaped(MFA_TITLE@) + SHELL_BODY@;
        let b = factor_list(factors, csrf_token) + ENROLL_FORM_OPEN@
            + hidden("csrf_token"@, csrf_token) + ENROLL_FORM_END@ + SHELL_END@;
        assert(mfa_page(factors, csrf_token, message) =~= a + (MFA_INTRO@ + alert(message)) + b);
        assert(mfa_page(factors, csrf_token, other_message) =~= a + (MFA_INTRO@
            + alert(other_message)) + b);
    }
    {
        let a = DOCTYPE@ + SHELL_HEAD@ + escaped(MFA_TITLE@) + SHELL_BODY@ + MFA_INTRO@
            + alert(message);
        let b = hidden("csrf_token"@, csrf_token) + ENROLL_FORM_END@ + SHELL_END@;
        assert(mfa_page(factors, csrf_token, message) =~= a + (factor_list(factors, csrf_token)
            + ENROLL_FORM_OPEN@) + b);
        assert(mfa_page(other_factors, csrf_token, message) =~= a
            + (factor_list(other_factors, csrf_token) + ENROLL_FORM_OPEN@) + b);
    }
    {
        let a = DOCTYPE@ + SHELL_HEAD@ + escaped(MFA_TITLE@) + SHELL_BODY@ + MFA_INTRO@
            + alert(message);
        let b = Seq::<char>::empty();
        let c = SHELL_END@;
        assert(mfa_page(factors, csrf_token, message) =~= a + (factor_list(factors, csrf_token))
            + b + (ENROLL_FORM_OPEN@ + hidden("csrf_token"@, csrf_token) + ENROLL_FORM_END@) + c);
        assert(mfa_page(factors, other, message) =~= a + (factor_list(factors, other)) + b
            + (ENROLL_FORM_OPEN@ + hidden("csrf_token"@, other) + ENROLL_FORM_END@) + c);
    }
}

/// The page that sets an authenticator up shows the QR code, the secret and the setup link, and
/// has the token and the factor in its form. It is otherwise the same.
pub proof fn law_set_up_page_has_code_secret_link_token_and_factor(
    enrollment: TotpEnrollment<Seq<char>>,
    csrf_token: Seq<char>,
    other: Seq<char>,
)
    ensures
        alike_in_one(
            set_up_page(enrollment, csrf_token),
            SET_UP_INTRO@ + qr_image(enrollment.qr_code) + SET_UP_SECRET@,
            set_up_page(TotpEnrollment { qr_code: other, ..enrollment }, csrf_token),
            SET_UP_INTRO@ + qr_image(other) + SET_UP_SECRET@,
        ),
        alike_in_one(
            set_up_page(enrollment, csrf_token),
            SET_UP_SECRET@ + escaped(enrollment.secret) + SET_UP_URI@,
            set_up_page(TotpEnrollment { secret: other, ..enrollment }, csrf_token),
            SET_UP_SECRET@ + escaped(other) + SET_UP_URI@,
        ),
        alike_in_one(
            set_up_page(enrollment, csrf_token),
            SET_UP_URI@ + escaped(enrollment.uri) + SET_UP_FORM_OPEN@,
            set_up_page(TotpEnrollment { uri: other, ..enrollment }, csrf_token),
            SET_UP_URI@ + escaped(other) + SET_UP_FORM_OPEN@,
        ),
        alike_in_one(
            set_up_page(enrollment, csrf_token),
            SET_UP_FORM_OPEN@ + hidden("csrf_token"@, csrf_token),
            set_up_page(enrollment, other),
            SET_UP_FORM_OPEN@ + hidden("csrf_token"@, other),
        ),
        alike_in_one(
            set_up_page(enrollment, csrf_token),
            hidden("factor_id"@, enrollment.factor_id) + SET_UP_FORM_END@,
            set_up_page(TotpEnrollment { factor_id: other, ..enrollment }, csrf_token),
            hidden("factor_id"@, other) + SET_UP_FORM_END@,
        ),
{
    broadcast use lemma_regrouped;
    {
        let a = DOCTYPE@ + SHELL_HEAD@ + escaped(SET_UP_TITLE@) + SHELL_BODY@;
        let b = escaped(enrollment.secret) + SET_UP_URI@ + escaped(enrollment.uri)
            + SET_UP_FORM_OPEN@ + hidden("csrf_token"@, csrf_token)
            + hidden("factor_id"@, enrollment.factor_id) + SET_UP_FORM_END@ + SHELL_END@;
        assert(set_up_page(enrollment, csrf_token) =~= a + (SET_UP_INTRO@
            + qr_image(enrollment.qr_code) + SET_UP_SECRET@) + b);
        assert(set_up_page(TotpEnrollment { qr_code: other, ..enrollment }, csrf_token) =~= a
            + (SET_UP_INTRO@ + qr_image(other) + SET_UP_SECRET@) + b);
    }
    {
        let a = DOCTYPE@ + SHELL_HEAD@ + escaped(SET_UP_TITLE@) + SHELL_BODY@ + SET_UP_INTRO@
            + qr_image(enrollment.qr_code);
        let b = escaped(enrollment.uri) + SET_UP_FORM_OPEN@ + hidden("csrf_token"@, csrf_token)
            + hidden("factor_id"@, enrollment.factor_id) + SET_UP_FORM_END@ + SHELL_END@;
        assert(set_up_page(enrollment, csrf_token) =~= a + (SET_UP_SECRET@
            + escaped(enrollment.secret) + SET_UP_URI@) + b);
        assert(set_up_page(TotpEnrollment { secret: other, ..enrollment }, csrf_token) =~= a
            + (SET_UP_SECRET@ + escaped(other) + SET_UP_URI@) + b);
    }
    {
        let a = DOCTYPE@ + SHELL_HEAD@ + escaped(SET_UP_TITLE@) + SHELL_BODY@ + SET_UP_INTRO@
            + qr_image(enrollment.qr_code) + SET_UP_SECRET@ + escaped(enrollment.secret);
        let b = hidden("csrf_token"@, csrf_token) + hidden("factor_id"@, enrollment.factor_id)
            + SET_UP_FORM_END@ + SHELL_END@;
        assert(set_up_page(enrollment, csrf_token) =~= a + (SET_UP_URI@ + escaped(enrollment.uri)
            + SET_UP_FORM_OPEN@) + b);
        assert(set_up_page(TotpEnrollment { uri: other, ..enrollment }, csrf_token) =~= a
            + (SET_UP_URI@ + escaped(other) + SET_UP_FORM_OPEN@) + b);
    }
    {
        let a = DOCTYPE@ + SHELL_HEAD@ + escaped(SET_UP_TITLE@) + SHELL_BODY@ + SET_UP_INTRO@
            + qr_image(enrollment.qr_code) + SET_UP_SECRET@ + escaped(enrollment.secret)
            + SET_UP_URI@ + escaped(enrollment.uri);
        let b = hidden("factor_id"@, enrollment.factor_id) + SET_UP_FORM_END@ + SHELL_END@;
        assert(set_up_page(enrollment, csrf_token) =~= a + (SET_UP_FORM_OPEN@
            + hidden("csrf_token"@, csrf_token)) + b);
        assert(set_up_page(enrollment, other) =~= a + (SET_UP_FORM_OPEN@
            + hidden("csrf_token"@, other)) + b);
    }
    {
        let a = DOCTYPE@ + SHELL_HEAD@ + escaped(SET_UP_TITLE@) + SHELL_BODY@ + SET_UP_INTRO@
            + qr_image(enrollment.qr_code) + SET_UP_SECRET@ + escaped(enrollment.secret)
            + SET_UP_URI@ + escaped(enrollment.uri) + SET_UP_FORM_OPEN@
            + hidden("csrf_token"@, csrf_token);
        let b = SHELL_END@;
        assert(set_up_page(enrollment, csrf_token) =~= a
            + (hidden("factor_id"@, enrollment.factor_id) + SET_UP_FORM_END@) + b);
        assert(set_up_page(TotpEnrollment { factor_id: other, ..enrollment }, csrf_token) =~= a
            + (hidden("factor_id"@, other) + SET_UP_FORM_END@) + b);
    }
}

/// A QR payload that is a URL, with white space around it or not, becomes the escaped source of
/// an image. Any other payload stands as it is, without the white space.
pub proof fn law_qr_urls_become_images(qr_code: Seq<char>, rest: Seq<char>)
    ensures
        trimmed(qr_code) == "data:"@ + rest || trimmed(qr_code) == "http"@
            + rest ==> qr_image(qr_code)
            == "<img src=\""@ + escaped(trimmed(qr_code))
            + "\" alt=\"Authenticator QR code\" width=\"200\" height=\"200\">"@,
        trimmed(qr_code).len() == 0 ==> qr_image(qr_code) == Seq::<char>::empty(),
        trimmed(qr_code).len() > 0 && trimmed(qr_code)[0] != 'd' && trimmed(qr_code)[0] != 'h'
            ==> qr_image(qr_code) == trimmed(qr_code),
        qr_image(qr_code) == trimmed(qr_code) || occurs(qr_image(qr_code), escaped(trimmed(qr_code))),
{
    reveal_strlit("data:");
    reveal_strlit("http");
    let t = trimmed(qr_code);
    if t == "data:"@ + rest || t == "http"@ + rest {
        assert("data:"@.is_prefix_of("data:"@ + rest));
        assert("http"@.is_prefix_of("http"@ + rest));
    }
    if "data:"@.is_prefix_of(t) {
        assert(t[0] == "data:"@[0]);
    }
    if "http"@.is_prefix_of(t) {
        assert(t[0] == "http"@[0]);
    }
    if t.len() == 0 {
        assert(t =~= Seq::<char>::empty());
    }
    if "data:"@.is_prefix_of(t) || "http"@.is_prefix_of(t) {
        assert(qr_image(qr_code) == QR_IMAGE_OPEN@ + escaped(t) + QR_IMAGE_END@);
    }
}

/// The page that reports a result shows its title and its message, whatever they are, in their
/// places, and is otherwise the same.
pub proof fn law_result_page_has_title_and_message(
    title: Seq<char>,
    message: Seq<char>,
    other: Seq<char>,
)
    ensures
        alike_in_one(
            result_page(title, message),
            RESULT_INTRO@ + escaped(title) + RESULT_MESSAGE@,
            result_page(other, message),
            RESULT_INTRO@ + escaped(other) + RESULT_MESSAGE@,
        ),
        alike_in_one(
            result_page(title, message),
            RESULT_MESSAGE@ + escaped(message) + RESULT_END@,
            result_page(title, other),
            RESULT_MESSAGE@ + escaped(other) + RESULT_END@,
        ),
{
    broadcast use lemma_regrouped;
    {
        let a = DOCTYPE@ + SHELL_HEAD@ + escaped(RESULT_TITLE@) + SHELL_BODY@;
        let b = escaped(message) + RESULT_END@ + SHELL_END@;
        assert(result_page(title, message) =~= a + (RESULT_INTRO@ + escaped(title)
            + RESULT_MESSAGE@) + b);
        assert(result_page(other, message) =~= a + (RESULT_INTRO@ + escaped(other)
            + RESULT_MESSAGE@) + b);
    }
    {
        let a = DOCTYPE@ + SHELL_HEAD@ + escaped(RESULT_TITLE@) + SHELL_BODY@ + RESULT_INTRO@
            + escaped(title);
        let b = SHELL_END@;
        assert(result_page(title, message) =~= a + (RESULT_MESSAGE@ + escaped(message)
            + RESULT_END@) + b);
        assert(result_page(title, other) =~= a + (RESULT_MESSAGE@ + escaped(other) + RESULT_END@)
            + b);
    }
}

} // verus!
