use fiducia_customer::auth_pages::{
    auth_page_shell, customer_login_markup, mfa_challenge_markup, mfa_enroll_markup,
    mfa_result_markup, mfa_settings_markup, otp_verify_markup, parse_otp_channel, render_qr, Factor,
    OtpChannel, TotpEnrollment,
};
use fiducia_customer::html::Markup;

fn count(text: &str, needle: &str) -> usize {
    text.matches(needle).count()
}

#[test]
fn the_shell_stands_around_its_contents() {
    let page = auth_page_shell("A & B", Markup::verbatim("<p>x</p>")).into_string();
    assert_eq!(
        page,
        "<!DOCTYPE html><html lang=\"en\"><head><meta charset=\"utf-8\">\
         <meta name=\"viewport\" content=\"width=device-width, initial-scale=1\">\
         <title>A &amp; B</title><link rel=\"stylesheet\" href=\"/assets/customer.css\">\
         <script src=\"/assets/htmx.min.js\" defer></script></head><body>\
         <main class=\"auth-shell\"><section class=\"auth-card\"><p>x</p>\
         </section></main></body></html>"
    );
}

#[test]
fn values_are_escaped_and_templates_are_not() {
    let mut markup = Markup::verbatim("<b>");
    markup.text("<script>\"it's\" & more</script>");
    markup.push("</b>");
    markup.number(18446744073709551615);
    assert_eq!(
        markup.into_string(),
        "<b>&lt;script&gt;&quot;it's&quot; &amp; more&lt;/script&gt;</b>18446744073709551615"
    );
}

#[test]
fn the_login_page_has_three_forms_with_the_token() {
    let page = customer_login_markup(None, "tok").into_string();
    assert_eq!(count(&page, "<form "), 3);
    assert_eq!(count(&page, "<input type=\"hidden\" name=\"csrf_token\" value=\"tok\">"), 3);
    assert_eq!(count(&page, "<input type=\"hidden\" name=\"method\" value=\"email\">"), 1);
    assert_eq!(count(&page, "<input type=\"hidden\" name=\"method\" value=\"phone\">"), 1);
    assert!(page.contains("<title>Sign in · Fiducia Customer</title>"));
    assert!(page.contains("<h2>Email &amp; password</h2>"));
    assert!(!page.contains("role=\"alert\""));
}

#[test]
fn the_login_page_promises_codes_and_no_link() {
    let page = customer_login_markup(None, "tok").into_string();
    assert!(page.contains("<button type=\"submit\">Email me a code</button>"));
    assert!(page.contains("<button type=\"submit\">Text me a code</button>"));
    let body = &page[page.find("<body>").unwrap()..];
    assert!(!body.contains(" link"));
}

#[test]
fn a_message_is_shown_as_an_alert() {
    let page = customer_login_markup(Some("No <way>"), "tok").into_string();
    assert!(page.contains("<p class=\"auth-message\" role=\"alert\">No &lt;way&gt;</p><form"));
}

#[test]
fn the_code_page_carries_channel_and_identifier() {
    let page = otp_verify_markup(OtpChannel::Phone, "+1\"4", "tok", None).into_string();
    assert!(page.contains("<h1>Check your phone</h1>"));
    assert!(page.contains("We texted a 6-digit code to your phone. Enter it below."));
    assert!(page.contains("Sending to <strong>+1&quot;4</strong>."));
    assert_eq!(count(&page, "name=\"method\" value=\"phone\">"), 2);
    assert_eq!(count(&page, "name=\"identifier\" value=\"+1&quot;4\">"), 2);
    assert!(page.contains("action=\"/login/verify\""));
    let email = otp_verify_markup(OtpChannel::Email, "a@b", "tok", Some("m")).into_string();
    assert!(email.contains("<h1>Check your email</h1>"));
    assert!(email.contains("We emailed you a 6-digit code. Enter it below."));
    assert!(email.contains("role=\"alert\">m</p>"));
}

#[test]
fn channels_are_read_by_name() {
    assert_eq!(parse_otp_channel(" email\t"), Some(OtpChannel::Email));
    assert_eq!(parse_otp_channel("phone"), Some(OtpChannel::Phone));
    assert_eq!(parse_otp_channel("Email"), None);
    assert_eq!(parse_otp_channel(""), None);
    assert_eq!(parse_otp_channel(OtpChannel::Phone.field()), Some(OtpChannel::Phone));
    assert_eq!(OtpChannel::Email.field(), "email");
}

#[test]
fn the_step_up_page_carries_factor_and_challenge() {
    let page = mfa_challenge_markup("f<1", "c1", "tok", None).into_string();
    assert!(page.contains(
        "<input type=\"hidden\" name=\"csrf_token\" value=\"tok\">\
         <input type=\"hidden\" name=\"factor_id\" value=\"f&lt;1\">\
         <input type=\"hidden\" name=\"challenge_id\" value=\"c1\">"
    ));
    assert!(page.contains("action=\"/login/mfa\""));
}

#[test]
fn authenticators_are_listed_with_a_form_each() {
    let none = mfa_settings_markup(&[], "tok", None).into_string();
    assert!(none.contains("<p class=\"muted\">No authenticator is enrolled yet.</p>"));
    assert!(!none.contains("factor-list"));
    let factors = vec![
        Factor { id: "f1".to_string(), friendly_name: None, factor_type: None, status: None },
        Factor {
            id: "f2".to_string(),
            friendly_name: Some("Phone & tablet".to_string()),
            factor_type: Some("totp".to_string()),
            status: Some("verified".to_string()),
        },
    ];
    let page = mfa_settings_markup(&factors, "tok", Some("Saved")).into_string();
    assert!(page.contains(
        "<ul class=\"factor-list\"><li><span>Authenticator</span> — <span>unknown</span>"
    ));
    assert!(page.contains("<li><span>Phone &amp; tablet</span> — <span>verified</span>"));
    assert_eq!(count(&page, "action=\"/app/security/mfa/disable\""), 2);
    assert!(page.find("value=\"f1\"").unwrap() < page.find("value=\"f2\"").unwrap());
    assert!(page.contains("role=\"alert\">Saved</p>"));
    assert!(!page.contains("No authenticator is enrolled yet."));
}

#[test]
fn qr_payloads_are_images_or_markup() {
    assert_eq!(
        render_qr(" data:image/png;base64,AA&B ").into_string(),
        "<img src=\"data:image/png;base64,AA&amp;B\" alt=\"Authenticator QR code\" \
         width=\"200\" height=\"200\">"
    );
    assert_eq!(
        render_qr("https://qr").into_string(),
        "<img src=\"https://qr\" alt=\"Authenticator QR code\" width=\"200\" height=\"200\">"
    );
    assert_eq!(render_qr("\n<svg></svg>\n").into_string(), "<svg></svg>");
}

#[test]
fn the_set_up_page_shows_secret_and_link() {
    let enrollment = TotpEnrollment {
        factor_id: "f1".to_string(),
        qr_code: "<svg/>".to_string(),
        secret: "S3<".to_string(),
        uri: "otpauth://totp/x?a=1&b=2".to_string(),
    };
    let page = mfa_enroll_markup(&enrollment, "tok").into_string();
    assert!(page.contains("<div class=\"totp-qr\"><svg/></div>"));
    assert!(page.contains("<pre class=\"totp-secret\">S3&lt;</pre>"));
    assert!(page.contains("<pre class=\"totp-secret\">otpauth://totp/x?a=1&amp;b=2</pre>"));
    assert!(page.contains(
        "<input type=\"hidden\" name=\"csrf_token\" value=\"tok\">\
         <input type=\"hidden\" name=\"factor_id\" value=\"f1\">"
    ));
}

#[test]
fn results_are_reported_with_links_back() {
    let page = mfa_result_markup("Done <1>", "It's off.").into_string();
    assert!(page.contains(
        "<p class=\"eyebrow\">Security</p><h1>Done &lt;1&gt;</h1><p class=\"muted\">It's off.</p>\
         <a href=\"/app/security/mfa\">Manage authenticator</a> · \
         <a href=\"/app/security\">Back to security</a>"
    ));
}

fn escaped(text: &str) -> String {
    let mut markup = Markup::empty();
    markup.text(text);
    markup.into_string()
}

#[test]
fn escaping_keeps_plain_text_and_tells_values_apart() {
    assert_eq!(escaped("plain text, it's 100%"), "plain text, it's 100%");
    assert_eq!(escaped("a<") + &escaped("&b"), escaped("a<&b"));
    assert_ne!(escaped("&lt;"), escaped("<"));
    assert_eq!(escaped("&lt;"), "&amp;lt;");
    assert!(!escaped("\"<>\"").contains(['<', '>', '"']));
}

#[test]
fn finished_markup_is_not_escaped_again() {
    let mut inner = Markup::verbatim("<i>");
    inner.text("&");
    let mut outer = Markup::verbatim("<p>");
    outer.markup(&inner);
    assert_eq!(outer.into_string(), "<p><i>&amp;");
}
