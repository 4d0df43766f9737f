//! The pages of the sign-in flow and of authenticator management.

use crate::html::{escaped, Markup};
use crate::text::{opt_str, opt_string, same_text, starts_with, trim, trimmed};
use vstd::prelude::*;

verus! {

pub const DOCTYPE: &'static str = "<!DOCTYPE html>";

pub const SHELL_HEAD: &'static str = "<html lang=\"en\"><head><meta charset=\"utf-8\">\
    <meta name=\"viewport\" content=\"width=device-width, initial-scale=1\"><title>";

pub const SHELL_BODY: &'static str = "</title><link rel=\"stylesheet\" href=\"/assets/customer.css\">\
    <script src=\"/assets/htmx.min.js\" defer></script></head><body><main class=\"auth-shell\">\
    <section class=\"auth-card\">";

pub const SHELL_END: &'static str = "</section></main></body></html>";

pub const HIDDEN_OPEN: &'static str = "<input type=\"hidden\" name=\"";

pub const HIDDEN_VALUE: &'static str = "\" value=\"";

pub const TAG_CLOSE: &'static str = "\">";

pub const ALERT_OPEN: &'static str = "<p class=\"auth-message\" role=\"alert\">";

pub const PARAGRAPH_CLOSE: &'static str = "</p>";

/// A page of the sign-in surface around its contents.
pub open spec fn auth_shell(title: Seq<char>, inner: Seq<char>) -> Seq<char> {
    DOCTYPE@ + SHELL_HEAD@ + escaped(title) + SHELL_BODY@ + inner + SHELL_END@
}

/// A hidden form field.
pub open spec fn hidden(name: Seq<char>, value: Seq<char>) -> Seq<char> {
    HIDDEN_OPEN@ + name + HIDDEN_VALUE@ + escaped(value) + TAG_CLOSE@
}

/// The message that a page shows, where there is one.
pub open spec fn alert(message: Option<Seq<char>>) -> Seq<char> {
    match message {
        Some(message) => ALERT_OPEN@ + escaped(message) + PARAGRAPH_CLOSE@,
        None => Seq::empty(),
    }
}

/// Shared chrome for every page of the sign-in surface (login, code entry, step-up, authenticator
/// management), so that the flows are visually one surface.
pub fn auth_page_shell(title: &str, inner: Markup) -> (r: Markup)
    ensures
        r@ == auth_shell(title@, inner@),
{
    let mut page = Markup::verbatim(DOCTYPE);
    page.push(SHELL_HEAD);
    page.text(title);
    page.push(SHELL_BODY);
    page.markup(&inner);
    page.push(SHELL_END);
    page
}

/// A hidden form field; the name is one of the form's own.
pub(crate) fn hidden_field(name: &str, value: &str) -> (r: Markup)
    ensures
        r@ == hidden(name@, value@),
{
    let mut field = Markup::verbatim(HIDDEN_OPEN);
    field.push(name);
    field.push(HIDDEN_VALUE);
    field.text(value);
    field.push(TAG_CLOSE);
    field
}

fn alert_message(message: Option<&str>) -> (r: Markup)
    ensures
        r@ == alert(opt_str(message)),
{
    match message {
        Some(message) => {
            let mut alert = Markup::verbatim(ALERT_OPEN);
            alert.text(message);
            alert.push(PARAGRAPH_CLOSE);
            alert
        },
        None => Markup::empty(),
    }
}

pub const LOGIN_TITLE: &'static str = "Sign in · Fiducia Customer";

pub const LOGIN_INTRO: &'static str = "<p class=\"eyebrow\">Customer application</p><h1>Sign in to Fiducia</h1>\
    <p class=\"muted\">Supabase authenticates you; fiducia-auth verifies the \
    resulting identity and organization membership.</p>";

pub const PASSWORD_FORM_OPEN: &'static str = "<form method=\"post\" action=\"/login\" hx-post=\"/login\" hx-target=\"body\" \
    hx-swap=\"outerHTML\"><h2>Email &amp; password</h2>";

pub const PASSWORD_FORM_END: &'static str = "<label for=\"email\">Email</label>\
    <input id=\"email\" name=\"email\" type=\"email\" autocomplete=\"email\" required>\
    <label for=\"password\">Password</label>\
    <input id=\"password\" name=\"password\" type=\"password\" \
    autocomplete=\"current-password\" required><button type=\"submit\">Sign in</button></form>";

pub const EMAIL_FORM_OPEN: &'static str = "<form method=\"post\" action=\"/login/otp\" hx-post=\"/login/otp\" hx-target=\"body\" \
    hx-swap=\"outerHTML\"><h2>Email a sign-in code</h2>\
    <p class=\"muted\">We email you a 6-digit code. New here? This also creates your account.\
    </p>";

pub const EMAIL_FORM_END: &'static str = "<label for=\"magic-email\">Email</label>\
    <input id=\"magic-email\" name=\"identifier\" type=\"email\" autocomplete=\"email\" \
    required><button type=\"submit\">Email me a code</button></form>";

pub const PHONE_FORM_OPEN: &'static str = "<form method=\"post\" action=\"/login/otp\" hx-post=\"/login/otp\" hx-target=\"body\" \
    hx-swap=\"outerHTML\"><h2>Phone code</h2>\
    <p class=\"muted\">We text a 6-digit code to your phone. Use international \
    format, e.g. +14155550123.</p>";

pub const PHONE_FORM_END: &'static str = "<label for=\"otp-phone\">Phone</label>\
    <input id=\"otp-phone\" name=\"identifier\" type=\"tel\" autocomplete=\"tel\" \
    inputmode=\"tel\" placeholder=\"+14155550123\" required>\
    <button type=\"submit\">Text me a code</button></form>";

pub const LOGIN_NOTES: &'static str = "<p class=\"muted\">Accounts with an authenticator app will be asked for a 6-digit \
    code after this step.</p>\
    <p class=\"muted\">Operator accounts use the separate admin application and cookie boundary.\
    </p>";

/// The login page: the password form and the two forms that ask for a one-time code.
pub open spec fn login_page(message: Option<Seq<char>>, csrf_token: Seq<char>) -> Seq<char> {
    auth_shell(
        LOGIN_TITLE@,
        LOGIN_INTRO@ + alert(message) + PASSWORD_FORM_OPEN@ + hidden("csrf_token"@, csrf_token)
            + PASSWORD_FORM_END@ + EMAIL_FORM_OPEN@ + hidden("csrf_token"@, csrf_token) + hidden(
            "method"@,
            "email"@,
        ) + EMAIL_FORM_END@ + PHONE_FORM_OPEN@ + hidden("csrf_token"@, csrf_token) + hidden(
            "method"@,
            "phone"@,
        ) + PHONE_FORM_END@ + LOGIN_NOTES@,
    )
}

/// The login page.
pub fn customer_login_markup(message: Option<&str>, csrf_token: &str) -> (r: Markup)
    ensures
        r@ == login_page(opt_str(message), csrf_token@),
{
    let mut page = Markup::verbatim(LOGIN_INTRO);
    page.markup(&alert_message(message));
    page.push(PASSWORD_FORM_OPEN);
    page.markup(&hidden_field("csrf_token", csrf_token));
    page.push(PASSWORD_FORM_END);
    page.push(EMAIL_FORM_OPEN);
    page.markup(&hidden_field("csrf_token", csrf_token));
    page.markup(&hidden_field("method", "email"));
    page.push(EMAIL_FORM_END);
    page.push(PHONE_FORM_OPEN);
    page.markup(&hidden_field("csrf_token", csrf_token));
    page.markup(&hidden_field("method", "phone"));
    page.push(PHONE_FORM_END);
    page.push(LOGIN_NOTES);
    auth_page_shell(LOGIN_TITLE, page)
}

/// Where a one-time code is sent.
#[derive(Clone, Copy, Debug, PartialEq, Eq, Structural)]
pub enum OtpChannel {
    Email,
    Phone,
}

impl OtpChannel {
    /// The name of the channel in forms.
    pub open spec fn name(self) -> Seq<char> {
        match self {
            OtpChannel::Email => "email"@,
            OtpChannel::Phone => "phone"@,
        }
    }

    /// The name of the channel in forms.
    pub fn field(self) -> (r: &'static str)
        ensures
            r@ == self.name(),
    {
        match self {
            OtpChannel::Email => "email",
            OtpChannel::Phone => "phone",
        }
    }

    /// The heading of the code-entry page.
    pub open spec fn heading(self) -> Seq<char> {
        match self {
            OtpChannel::Email => "Check your email"@,
            OtpChannel::Phone => "Check your phone"@,
        }
    }

    /// The explanation on the code-entry page.
    pub open spec fn blurb(self) -> Seq<char> {
        match self {
            OtpChannel::Email => "We emailed you a 6-digit code. Enter it below."@,
            OtpChannel::Phone => "We texted a 6-digit code to your phone. Enter it below."@,
        }
    }
}

/// The channel that a form names, white space at the ends of the name aside.
pub open spec fn channel_of(method: Seq<char>) -> Option<OtpChannel> {
    if trimmed(method) == "email"@ {
        Some(OtpChannel::Email)
    } else if trimmed(method) == "phone"@ {
        Some(OtpChannel::Phone)
    } else {
        None
    }
}

/// Reads the channel that a form names.
pub fn parse_otp_channel(method: &str) -> (r: Option<OtpChannel>)
    ensures
        r == channel_of(method@),
{
    let name = trim(method);
    if same_text(name, "email") {
        Some(OtpChannel::Email)
    } else if same_text(name, "phone") {
        Some(OtpChannel::Phone)
    } else {
        None
    }
}

/// The name that a form carries for a channel is read back as that channel.
pub proof fn law_channel_name_is_read_back(channel: OtpChannel)
    ensures
        channel_of(channel.name()) == Some(channel),
{
    reveal_strlit("email");
    reveal_strlit("phone");
    assert(trimmed("email"@) == "email"@);
    assert(trimmed("phone"@) == "phone"@);
    assert("email"@[0] != "phone"@[0]);
}

pub const CODE_TITLE: &'static str = "Enter your code · Fiducia Customer";

pub const CODE_INTRO: &'static str = "<p class=\"eyebrow\">Customer application</p><h1>";

pub const CODE_BLURB: &'static str = "</h1><p class=\"muted\">";

pub const CODE_SENT_TO: &'static str = "</p><p class=\"muted\">Sending to <strong>";

pub const CODE_SENT_END: &'static str = "</strong>.</p>";

pub const CODE_FORM_OPEN: &'static str = "<form method=\"post\" action=\"/login/verify\" hx-post=\"/login/verify\" \
    hx-target=\"body\" hx-swap=\"outerHTML\">";

pub const CODE_FORM_END: &'static str = "<label for=\"otp-code\">6-digit code</label>\
    <input id=\"otp-code\" name=\"token\" type=\"text\" inputmode=\"numeric\" \
    autocomplete=\"one-time-code\" pattern=\"[0-9]*\" minlength=\"6\" maxlength=\"8\" required>\
    <button type=\"submit\">Verify &amp; continue</button></form>";

pub const RESEND_FORM_OPEN: &'static str = "<form method=\"post\" action=\"/login/otp\" hx-post=\"/login/otp\" hx-target=\"body\" \
    hx-swap=\"outerHTML\">";

pub const RESEND_FORM_END: &'static str = "<button type=\"submit\" class=\"link-button\">Resend code</button></form>\
    <a href=\"/login\">Start over</a>";

/// The fields that carry the channel and the identifier forward.
pub open spec fn code_fields(
    channel: OtpChannel,
    identifier: Seq<char>,
    csrf_token: Seq<char>,
) -> Seq<char> {
    hidden("csrf_token"@, csrf_token) + hidden("method"@, channel.name()) + hidden(
        "identifier"@,
        identifier,
    )
}

fn code_form_fields(channel: OtpChannel, identifier: &str, csrf_token: &str) -> (r: Markup)
    ensures
        r@ == code_fields(channel, identifier@, csrf_token@),
{
    let mut fields = hidden_field("csrf_token", csrf_token);
    fields.markup(&hidden_field("method", channel.field()));
    fields.markup(&hidden_field("identifier", identifier));
    fields
}

/// The page that asks for a code after one was sent.
pub open spec fn code_page(
    channel: OtpChannel,
    identifier: Seq<char>,
    csrf_token: Seq<char>,
    message: Option<Seq<char>>,
) -> Seq<char> {
    auth_shell(
        CODE_TITLE@,
        CODE_INTRO@ + escaped(channel.heading()) + CODE_BLURB@ + escaped(channel.blurb())
            + CODE_SENT_TO@ + escaped(identifier) + CODE_SENT_END@ + alert(message)
            + CODE_FORM_OPEN@ + code_fields(channel, identifier, csrf_token) + CODE_FORM_END@
            + RESEND_FORM_OPEN@ + code_fields(channel, identifier, csrf_token) + RESEND_FORM_END@,
    )
}

/// The code-entry page. It carries the channel and the identifier forward, so that the
/// submission knows how to redeem the code.
pub fn otp_verify_markup(
    channel: OtpChannel,
    identifier: &str,
    csrf_token: &str,
    message: Option<&str>,
) -> (r: Markup)
    ensures
        r@ == code_page(channel, identifier@, csrf_token@, opt_str(message)),
{
    let heading = match channel {
        OtpChannel::Email => "Check your email",
        OtpChannel::Phone => "Check your phone",
    };
    let blurb = match channel {
        OtpChannel::Email => "We emailed you a 6-digit code. Enter it below.",
        OtpChannel::Phone => "We texted a 6-digit code to your phone. Enter it below.",
    };
    let mut page = Markup::verbatim(CODE_INTRO);
    page.text(heading);
    page.push(CODE_BLURB);
    page.text(blurb);
    page.push(CODE_SENT_TO);
    page.text(identifier);
    page.push(CODE_SENT_END);
    page.markup(&alert_message(message));
    page.push(CODE_FORM_OPEN);
    page.markup(&code_form_fields(channel, identifier, csrf_token));
    page.push(CODE_FORM_END);
    page.push(RESEND_FORM_OPEN);
    page.markup(&code_form_fields(channel, identifier, csrf_token));
    page.push(RESEND_FORM_END);
    auth_page_shell(CODE_TITLE, page)
}

pub const STEP_UP_TITLE: &'static str = "Two-factor verification · Fiducia Customer";

pub const STEP_UP_INTRO: &'static str = "<p class=\"eyebrow\">Two-factor authentication</p><h1>Enter your authenticator code</h1>\
    <p class=\"muted\">Open your authenticator app (Authy, Google Authenticator, \
    1Password…) and enter the current 6-digit code for Fiducia.</p>";

pub const STEP_UP_FORM_OPEN: &'static str = "<form method=\"post\" action=\"/login/mfa\" hx-post=\"/login/mfa\" hx-target=\"body\" \
    hx-swap=\"outerHTML\">";

pub const STEP_UP_FORM_END: &'static str = "<label for=\"mfa-code\">Authenticator code</label>\
    <input id=\"mfa-code\" name=\"code\" type=\"text\" inputmode=\"numeric\" \
    autocomplete=\"one-time-code\" pattern=\"[0-9]*\" minlength=\"6\" maxlength=\"8\" required>\
    <button type=\"submit\">Verify</button></form><a href=\"/login\">Cancel and sign in again\
    </a>";

/// The page that asks for the code of an enrolled authenticator.
pub open spec fn step_up_page(
    factor_id: Seq<char>,
    challenge_id: Seq<char>,
    csrf_token: Seq<char>,
    message: Option<Seq<char>>,
) -> Seq<char> {
    auth_shell(
        STEP_UP_TITLE@,
        STEP_UP_INTRO@ + alert(message) + STEP_UP_FORM_OPEN@ + hidden("csrf_token"@, csrf_token)
            + hidden("factor_id"@, factor_id) + hidden("challenge_id"@, challenge_id)
            + STEP_UP_FORM_END@,
    )
}

/// The step-up page. The primary factor already succeeded; the account has a verified
/// authenticator, so its current code is required before a session cookie is issued. The factor
/// and the challenge ride hidden fields; the token of the primary factor rides the short-lived
/// pending cookie.
pub fn mfa_challenge_markup(
    factor_id: &str,
    challenge_id: &str,
    csrf_token: &str,
    message: Option<&str>,
) -> (r: Markup)
    ensures
        r@ == step_up_page(factor_id@, challenge_id@, csrf_token@, opt_str(message)),
{
    let mut page = Markup::verbatim(STEP_UP_INTRO);
    page.markup(&alert_message(message));
    page.push(STEP_UP_FORM_OPEN);
    page.markup(&hidden_field("csrf_token", csrf_token));
    page.markup(&hidden_field("factor_id", factor_id));
    page.markup(&hidden_field("challenge_id", challenge_id));
    page.push(STEP_UP_FORM_END);
    auth_page_shell(STEP_UP_TITLE, page)
}

/// An authenticator of an account, as text `T`.
#[derive(Clone, Debug, PartialEq, Eq)]
pub struct Factor<T> {
    pub id: T,
    pub friendly_name: Option<T>,
    pub factor_type: Option<T>,
    pub status: Option<T>,
}

impl View for Factor<String> {
    type V = Factor<Seq<char>>;

    open spec fn view(&self) -> Factor<Seq<char>> {
        Factor {
            id: self.id@,
            friendly_name: opt_string(self.friendly_name),
            factor_type: opt_string(self.factor_type),
            status: opt_string(self.status),
        }
    }
}

/// What each authenticator of a list holds.
pub open spec fn factor_views(factors: Seq<Factor<String>>) -> Seq<Factor<Seq<char>>> {
    factors.map_values(|factor: Factor<String>| factor@)
}

/// An optional text, or another one in its place.
pub open spec fn text_or(text: Option<Seq<char>>, other: Seq<char>) -> Seq<char> {
    match text {
        Some(text) => text,
        None => other,
    }
}

pub(crate) fn text_or_else<'a>(text: &'a Option<String>, other: &'a str) -> (r: &'a str)
    ensures
        r@ == text_or(opt_string(*text), other@),
{
    match text {
        Some(text) => text.as_str(),
        None => other,
    }
}

pub const MFA_TITLE: &'static str = "Authenticator · Fiducia Customer";

pub const MFA_INTRO: &'static str = "<p class=\"eyebrow\">Security</p><h1>Authenticator app (2FA)</h1>\
    <p class=\"muted\">Add a TOTP authenticator (Authy, Google Authenticator, \
    1Password…) for a second factor at sign-in.</p>";

pub const MFA_NONE: &'static str = "<p class=\"muted\">No authenticator is enrolled yet.</p>";

pub const FACTOR_LIST_OPEN: &'static str = "<ul class=\"factor-list\">";

pub const FACTOR_LIST_END: &'static str = "</ul>";

pub const FACTOR_OPEN: &'static str = "<li><span>";

pub const FACTOR_STATUS: &'static str = "</span> — <span>";

pub const FACTOR_FORM_OPEN: &'static str = "</span><form method=\"post\" action=\"/app/security/mfa/disable\" \
    hx-post=\"/app/security/mfa/disable\" hx-target=\"body\" hx-swap=\"outerHTML\">";

pub const FACTOR_FORM_END: &'static str = "<label>Current code from this authenticator\
    <input name=\"code\" type=\"text\" inputmode=\"numeric\" autocomplete=\"one-time-code\" \
    pattern=\"[0-9]*\" minlength=\"6\" maxlength=\"8\" required></label>\
    <button type=\"submit\" class=\"link-button\">Remove</button></form></li>";

pub const ENROLL_FORM_OPEN: &'static str = "<form method=\"post\" action=\"/app/security/mfa/enroll\" \
    hx-post=\"/app/security/mfa/enroll\" hx-target=\"body\" hx-swap=\"outerHTML\">";

pub const ENROLL_FORM_END: &'static str = "<button type=\"submit\">Add authenticator</button></form>\
    <a href=\"/app/security\">Back to security</a>";

/// The entry of one authenticator.
pub open spec fn factor_item(factor: Factor<Seq<char>>, csrf_token: Seq<char>) -> Seq<char> {
    FACTOR_OPEN@ + escaped(text_or(factor.friendly_name, "Authenticator"@)) + FACTOR_STATUS@
        + escaped(text_or(factor.status, "unknown"@)) + FACTOR_FORM_OPEN@ + hidden(
        "csrf_token"@,
        csrf_token,
    ) + hidden("factor_id"@, factor.id) + FACTOR_FORM_END@
}

/// The entries of a list of authenticators, one after the other.
pub open spec fn factor_items(
    factors: Seq<Factor<Seq<char>>>,
    csrf_token: Seq<char>,
) -> Seq<char>
    decreases factors.len(),
{
    if factors.len() == 0 {
        Seq::empty()
    } else {
        factor_items(factors.drop_last(), csrf_token) + factor_item(factors.last(), csrf_token)
    }
}

/// The list of authenticators, or the remark that there is none.
pub open spec fn factor_list(
    factors: Seq<Factor<Seq<char>>>,
    csrf_token: Seq<char>,
) -> Seq<char> {
    if factors.len() == 0 {
        MFA_NONE@
    } else {
        FACTOR_LIST_OPEN@ + factor_items(factors, csrf_token) + FACTOR_LIST_END@
    }
}

/// The page on which authenticators are managed.
pub open spec fn mfa_page(
    factors: Seq<Factor<Seq<char>>>,
    csrf_token: Seq<char>,
    message: Option<Seq<char>>,
) -> Seq<char> {
    auth_shell(
        MFA_TITLE@,
        MFA_INTRO@ + alert(message) + factor_list(factors, csrf_token) + ENROLL_FORM_OPEN@
            + hidden("csrf_token"@, csrf_token) + ENROLL_FORM_END@,
    )
}

fn factor_markup(factor: &Factor<String>, csrf_token: &str) -> (r: Markup)
    ensures
        r@ == factor_item(factor@, csrf_token@),
{
    let mut item = Markup::verbatim(FACTOR_OPEN);
    item.text(text_or_else(&factor.friendly_name, "Authenticator"));
    item.push(FACTOR_STATUS);
    item.text(text_or_else(&factor.status, "unknown"));
    item.push(FACTOR_FORM_OPEN);
    item.markup(&hidden_field("csrf_token", csrf_token));
    item.markup(&hidden_field("factor_id", factor.id.as_str()));
    item.push(FACTOR_FORM_END);
    item
}

fn factor_list_markup(factors: &[Factor<String>], csrf_token: &str) -> (r: Markup)
    ensures
        r@ == factor_list(factor_views(factors@), csrf_token@),
{
    if factors.len() == 0 {
        return Markup::verbatim(MFA_NONE);
    }
    let ghost views = factor_views(factors@);
    let mut items = Markup::empty();
    let mut i: usize = 0;
    while i < factors.len()
        invariant
            i <= factors.len(),
            views == factor_views(factors@),
            items@ == factor_items(views.take(i as int), csrf_token@),
        decreases factors.len() - i,
    {
        let ghost next = views.take(i + 1);
        assert(next.drop_last() =~= views.take(i as int));
        items.markup(&factor_markup(&factors[i], csrf_token));
        i += 1;
    }
    assert(views.take(i as int) =~= views);
    let mut list = Markup::verbatim(FACTOR_LIST_OPEN);
    list.markup(&items);
    list.push(FACTOR_LIST_END);
    list
}

/// The page on which authenticators are managed: those that are enrolled, each with a form that
/// removes it, and a form that enrolls another one.
pub fn mfa_settings_markup(
    factors: &[Factor<String>],
    csrf_token: &str,
    message: Option<&str>,
) -> (r: Markup)
    ensures
        r@ == mfa_page(factor_views(factors@), csrf_token@, opt_str(message)),
{
    let mut page = Markup::verbatim(MFA_INTRO);
    page.markup(&alert_message(message));
    page.markup(&factor_list_markup(factors, csrf_token));
    page.push(ENROLL_FORM_OPEN);
    page.markup(&hidden_field("csrf_token", csrf_token));
    page.push(ENROLL_FORM_END);
    auth_page_shell(MFA_TITLE, page)
}

/// What an authenticator needs in order to be set up, as text `T`.
#[derive(Clone, Debug, PartialEq, Eq)]
pub struct TotpEnrollment<T> {
    pub factor_id: T,
    pub qr_code: T,
    pub secret: T,
    pub uri: T,
}

impl View for TotpEnrollment<String> {
    type V = TotpEnrollment<Seq<char>>;

    open spec fn view(&self) -> TotpEnrollment<Seq<char>> {
        TotpEnrollment {
            factor_id: self.factor_id@,
            qr_code: self.qr_code@,
            secret: self.secret@,
            uri: self.uri@,
        }
    }
}

pub const QR_IMAGE_OPEN: &'static str = "<img src=\"";

pub const QR_IMAGE_END: &'static str =
    "\" alt=\"Authenticator QR code\" width=\"200\" height=\"200\">";

/// A QR payload: a URL becomes an image, anything else stands as it is.
pub open spec fn qr_image(qr_code: Seq<char>) -> Seq<char> {
    if "data:"@.is_prefix_of(trimmed(qr_code)) || "http"@.is_prefix_of(trimmed(qr_code)) {
        QR_IMAGE_OPEN@ + escaped(trimmed(qr_code)) + QR_IMAGE_END@
    } else {
        trimmed(qr_code)
    }
}

/// Renders Supabase's QR payload. A `data:` or `http` URL becomes an `img`; anything else is
/// treated as inline SVG markup from the trusted first-party identity provider.
pub fn render_qr(qr_code: &str) -> (r: Markup)
    ensures
        r@ == qr_image(qr_code@),
{
    let payload = trim(qr_code);
    if starts_with(payload, "data:") || starts_with(payload, "http") {
        let mut image = Markup::verbatim(QR_IMAGE_OPEN);
        image.text(payload);
        image.push(QR_IMAGE_END);
        image
    } else {
        Markup::verbatim(payload)
    }
}

pub const SET_UP_TITLE: &'static str = "Set up authenticator · Fiducia Customer";

pub const SET_UP_INTRO: &'static str = "<p class=\"eyebrow\">Security</p><h1>Scan this with your authenticator</h1>\
    <p class=\"muted\">Scan the QR code with Authy, Google Authenticator, or any TOTP \
    app, then enter the 6-digit code it shows to finish.</p><div class=\"totp-qr\">";

pub const SET_UP_SECRET: &'static str = "</div><p class=\"muted\">Can't scan? Enter this key manually:</p><pre class=\"totp-secret\">";

pub const SET_UP_URI: &'static str = "</pre><details class=\"totp-uri\"><summary>Prefer a setup link?</summary>\
    <p class=\"muted\">Paste this otpauth URI into your authenticator app:</p>\
    <pre class=\"totp-secret\">";

pub const SET_UP_FORM_OPEN: &'static str = "</pre></details><form method=\"post\" action=\"/app/security/mfa/activate\" \
    hx-post=\"/app/security/mfa/activate\" hx-target=\"body\" hx-swap=\"outerHTML\">";

pub const SET_UP_FORM_END: &'static str = "<label for=\"activate-code\">Code from your app</label>\
    <input id=\"activate-code\" name=\"code\" type=\"text\" inputmode=\"numeric\" \
    autocomplete=\"one-time-code\" pattern=\"[0-9]*\" minlength=\"6\" maxlength=\"8\" required>\
    <button type=\"submit\">Turn on 2FA</button></form><a href=\"/app/security/mfa\">Cancel</a>";

/// The page on which an authenticator is set up.
pub open spec fn set_up_page(
    enrollment: TotpEnrollment<Seq<char>>,
    csrf_token: Seq<char>,
) -> Seq<char> {
    auth_shell(
        SET_UP_TITLE@,
        SET_UP_INTRO@ + qr_image(enrollment.qr_code) + SET_UP_SECRET@ + escaped(
            enrollment.secret,
        ) + SET_UP_URI@ + escaped(enrollment.uri) + SET_UP_FORM_OPEN@ + hidden(
            "csrf_token"@,
            csrf_token,
        ) + hidden("factor_id"@, enrollment.factor_id) + SET_UP_FORM_END@,
    )
}

/// The page on which an authenticator is set up: the QR code, the secret, and the form that
/// activates it.
pub fn mfa_enroll_markup(enrollment: &TotpEnrollment<String>, csrf_token: &str) -> (r: Markup)
    ensures
        r@ == set_up_page(enrollment@, csrf_token@),
{
    let mut page = Markup::verbatim(SET_UP_INTRO);
    page.markup(&render_qr(enrollment.qr_code.as_str()));
    page.push(SET_UP_SECRET);
    page.text(enrollment.secret.as_str());
    page.push(SET_UP_URI);
    page.text(enrollment.uri.as_str());
    page.push(SET_UP_FORM_OPEN);
    page.markup(&hidden_field("csrf_token", csrf_token));
    page.markup(&hidden_field("factor_id", enrollment.factor_id.as_str()));
    page.push(SET_UP_FORM_END);
    auth_page_shell(SET_UP_TITLE, page)
}

pub const RESULT_TITLE: &'static str = "Security · Fiducia Customer";

pub const RESULT_INTRO: &'static str = "<p class=\"eyebrow\">Security</p><h1>";

pub const RESULT_MESSAGE: &'static str = "</h1><p class=\"muted\">";

pub const RESULT_END: &'static str = "</p><a href=\"/app/security/mfa\">Manage authenticator</a> · \
    <a href=\"/app/security\">Back to security</a>";

/// The page that reports what became of a change to an authenticator.
pub open spec fn result_page(title: Seq<char>, message: Seq<char>) -> Seq<char> {
    auth_shell(
        RESULT_TITLE@,
        RESULT_INTRO@ + escaped(title) + RESULT_MESSAGE@ + escaped(message) + RESULT_END@,
    )
}

/// The page that reports what became of a change to an authenticator.
pub fn mfa_result_markup(title: &str, message: &str) -> (r: Markup)
    ensures
        r@ == result_page(title@, message@),
{
    let mut page = Markup::verbatim(RESULT_INTRO);
    page.text(title);
    page.push(RESULT_MESSAGE);
    page.text(message);
    page.push(RESULT_END);
    auth_page_shell(RESULT_TITLE, page)
}

} // verus!
