use fiducia_customer::auth_pages::{
    customer_login_markup, mfa_challenge_markup, mfa_enroll_markup, mfa_result_markup,
    mfa_settings_markup, otp_verify_markup, Factor, OtpChannel, TotpEnrollment,
};
use fiducia_customer::portal::{
    api_keys_markup_with_key, customer_page, customer_page_with_content, customer_tab_content,
    CustomerCtx, CustomerTab, Org, PortalConfig,
};
use fiducia_customer::tables::{
    customer_activity_table_markup, notifications_table_markup, preferences_form_markup,
    sessions_table_markup, CustomerAuditEvent, CustomerPreferences, Notification, TrustedSession,
};

fn s(text: &str) -> String {
    text.to_string()
}

fn configured() -> PortalConfig<String> {
    PortalConfig {
        customer_app_host: s("app.fiducia.cloud"),
        supabase_url: Some(s("https://x.supabase.co")),
        supabase_publishable_key: Some(s("pk")),
    }
}

fn customer() -> CustomerCtx {
    CustomerCtx {
        user_id: s("user-1"),
        email: Some(s("ann&bob@fiducia.cloud")),
        orgs: vec![s("org-a"), s("org \"b\"")],
    }
}

fn org() -> Org<String> {
    Org { id: s("org \"b\""), query: s("org%20%22b%22") }
}

#[test]
fn the_whole_login_page() {
    assert_eq!(
        customer_login_markup(Some("Try <again>"), "tok\"1").into_string(),
        "<!DOCTYPE html><html lang=\"en\"><head><meta charset=\"utf-8\">\
         <meta name=\"viewport\" content=\"width=device-width, initial-scale=1\">\
         <title>Sign in · Fiducia Customer</title>\
         <link rel=\"stylesheet\" href=\"/assets/customer.css\">\
         <script src=\"/assets/htmx.min.js\" defer></script></head><body>\
         <main class=\"auth-shell\"><section class=\"auth-card\">\
         <p class=\"eyebrow\">Customer application</p><h1>Sign in to Fiducia</h1>\
         <p class=\"muted\">Supabase authenticates you; fiducia-auth verifies the resulting identity and organization membership.\
         </p><p class=\"auth-message\" role=\"alert\">Try &lt;again&gt;</p>\
         <form method=\"post\" action=\"/login\" hx-post=\"/login\" hx-target=\"body\" hx-swap=\"outerHTML\">\
         <h2>Email &amp; password</h2>\
         <input type=\"hidden\" name=\"csrf_token\" value=\"tok&quot;1\">\
         <label for=\"email\">Email</label>\
         <input id=\"email\" name=\"email\" type=\"email\" autocomplete=\"email\" required>\
         <label for=\"password\">Password</label>\
         <input id=\"password\" name=\"password\" type=\"password\" autocomplete=\"current-password\" required>\
         <button type=\"submit\">Sign in</button></form>\
         <form method=\"post\" action=\"/login/otp\" hx-post=\"/login/otp\" hx-target=\"body\" hx-swap=\"outerHTML\">\
         <h2>Email a sign-in code</h2>\
         <p class=\"muted\">We email you a 6-digit code. New here? This also creates your account.\
         </p><input type=\"hidden\" name=\"csrf_token\" value=\"tok&quot;1\">\
         <input type=\"hidden\" name=\"method\" value=\"email\"><label for=\"magic-email\">Email\
         </label>\
         <input id=\"magic-email\" name=\"identifier\" type=\"email\" autocomplete=\"email\" required>\
         <button type=\"submit\">Email me a code</button></form>\
         <form method=\"post\" action=\"/login/otp\" hx-post=\"/login/otp\" hx-target=\"body\" hx-swap=\"outerHTML\">\
         <h2>Phone code</h2>\
         <p class=\"muted\">We text a 6-digit code to your phone. Use international format, e.g. +14155550123.\
         </p><input type=\"hidden\" name=\"csrf_token\" value=\"tok&quot;1\">\
         <input type=\"hidden\" name=\"method\" value=\"phone\"><label for=\"otp-phone\">Phone\
         </label>\
         <input id=\"otp-phone\" name=\"identifier\" type=\"tel\" autocomplete=\"tel\" inputmode=\"tel\" placeholder=\"+14155550123\" required>\
         <button type=\"submit\">Text me a code</button></form>\
         <p class=\"muted\">Accounts with an authenticator app will be asked for a 6-digit code after this step.\
         </p>\
         <p class=\"muted\">Operator accounts use the separate admin application and cookie boundary.\
         </p></section></main></body></html>"
    );
}

#[test]
fn the_whole_code_page() {
    assert_eq!(
        otp_verify_markup(OtpChannel::Email, "a&b@c", "tok", Some("Wait.")).into_string(),
        "<!DOCTYPE html><html lang=\"en\"><head><meta charset=\"utf-8\">\
         <meta name=\"viewport\" content=\"width=device-width, initial-scale=1\">\
         <title>Enter your code · Fiducia Customer</title>\
         <link rel=\"stylesheet\" href=\"/assets/customer.css\">\
         <script src=\"/assets/htmx.min.js\" defer></script></head><body>\
         <main class=\"auth-shell\"><section class=\"auth-card\">\
         <p class=\"eyebrow\">Customer application</p><h1>Check your email</h1>\
         <p class=\"muted\">We emailed you a 6-digit code. Enter it below.</p>\
         <p class=\"muted\">Sending to <strong>a&amp;b@c</strong>.</p>\
         <p class=\"auth-message\" role=\"alert\">Wait.</p>\
         <form method=\"post\" action=\"/login/verify\" hx-post=\"/login/verify\" hx-target=\"body\" hx-swap=\"outerHTML\">\
         <input type=\"hidden\" name=\"csrf_token\" value=\"tok\">\
         <input type=\"hidden\" name=\"method\" value=\"email\">\
         <input type=\"hidden\" name=\"identifier\" value=\"a&amp;b@c\">\
         <label for=\"otp-code\">6-digit code</label>\
         <input id=\"otp-code\" name=\"token\" type=\"text\" inputmode=\"numeric\" autocomplete=\"one-time-code\" pattern=\"[0-9]*\" minlength=\"6\" maxlength=\"8\" required>\
         <button type=\"submit\">Verify &amp; continue</button></form>\
         <form method=\"post\" action=\"/login/otp\" hx-post=\"/login/otp\" hx-target=\"body\" hx-swap=\"outerHTML\">\
         <input type=\"hidden\" name=\"csrf_token\" value=\"tok\">\
         <input type=\"hidden\" name=\"method\" value=\"email\">\
         <input type=\"hidden\" name=\"identifier\" value=\"a&amp;b@c\">\
         <button type=\"submit\" class=\"link-button\">Resend code</button></form>\
         <a href=\"/login\">Start over</a></section></main></body></html>"
    );
}

#[test]
fn the_whole_step_up_page() {
    assert_eq!(
        mfa_challenge_markup("f1", "c<1", "tok", None).into_string(),
        "<!DOCTYPE html><html lang=\"en\"><head><meta charset=\"utf-8\">\
         <meta name=\"viewport\" content=\"width=device-width, initial-scale=1\">\
         <title>Two-factor verification · Fiducia Customer</title>\
         <link rel=\"stylesheet\" href=\"/assets/customer.css\">\
         <script src=\"/assets/htmx.min.js\" defer></script></head><body>\
         <main class=\"auth-shell\"><section class=\"auth-card\">\
         <p class=\"eyebrow\">Two-factor authentication</p><h1>Enter your authenticator code</h1>\
         <p class=\"muted\">Open your authenticator app (Authy, Google Authenticator, 1Password…) and enter the current 6-digit code for Fiducia.\
         </p>\
         <form method=\"post\" action=\"/login/mfa\" hx-post=\"/login/mfa\" hx-target=\"body\" hx-swap=\"outerHTML\">\
         <input type=\"hidden\" name=\"csrf_token\" value=\"tok\">\
         <input type=\"hidden\" name=\"factor_id\" value=\"f1\">\
         <input type=\"hidden\" name=\"challenge_id\" value=\"c&lt;1\">\
         <label for=\"mfa-code\">Authenticator code</label>\
         <input id=\"mfa-code\" name=\"code\" type=\"text\" inputmode=\"numeric\" autocomplete=\"one-time-code\" pattern=\"[0-9]*\" minlength=\"6\" maxlength=\"8\" required>\
         <button type=\"submit\">Verify</button></form>\
         <a href=\"/login\">Cancel and sign in again</a></section></main></body></html>"
    );
}

#[test]
fn the_whole_authenticator_page() {
    assert_eq!(
        mfa_settings_markup(
            &[
                Factor {
                    id: s("f1"),
                    friendly_name: None,
                    factor_type: None,
                    status: Some(s("verified")),
                },
                Factor {
                    id: s("f\"2"),
                    friendly_name: Some(s("Ann's")),
                    factor_type: None,
                    status: None,
                },
            ],
            "tok",
            Some("Saved."),
        ).into_string(),
        "<!DOCTYPE html><html lang=\"en\"><head><meta charset=\"utf-8\">\
         <meta name=\"viewport\" content=\"width=device-width, initial-scale=1\">\
         <title>Authenticator · Fiducia Customer</title>\
         <link rel=\"stylesheet\" href=\"/assets/customer.css\">\
         <script src=\"/assets/htmx.min.js\" defer></script></head><body>\
         <main class=\"auth-shell\"><section class=\"auth-card\"><p class=\"eyebrow\">Security\
         </p><h1>Authenticator app (2FA)</h1>\
         <p class=\"muted\">Add a TOTP authenticator (Authy, Google Authenticator, 1Password…) for a second factor at sign-in.\
         </p><p class=\"auth-message\" role=\"alert\">Saved.</p><ul class=\"factor-list\"><li>\
         <span>Authenticator</span> — <span>verified</span>\
         <form method=\"post\" action=\"/app/security/mfa/disable\" hx-post=\"/app/security/mfa/disable\" hx-target=\"body\" hx-swap=\"outerHTML\">\
         <input type=\"hidden\" name=\"csrf_token\" value=\"tok\">\
         <input type=\"hidden\" name=\"factor_id\" value=\"f1\">\
         <label>Current code from this authenticator\
         <input name=\"code\" type=\"text\" inputmode=\"numeric\" autocomplete=\"one-time-code\" pattern=\"[0-9]*\" minlength=\"6\" maxlength=\"8\" required>\
         </label><button type=\"submit\" class=\"link-button\">Remove</button></form></li><li>\
         <span>Ann's</span> — <span>unknown</span>\
         <form method=\"post\" action=\"/app/security/mfa/disable\" hx-post=\"/app/security/mfa/disable\" hx-target=\"body\" hx-swap=\"outerHTML\">\
         <input type=\"hidden\" name=\"csrf_token\" value=\"tok\">\
         <input type=\"hidden\" name=\"factor_id\" value=\"f&quot;2\">\
         <label>Current code from this authenticator\
         <input name=\"code\" type=\"text\" inputmode=\"numeric\" autocomplete=\"one-time-code\" pattern=\"[0-9]*\" minlength=\"6\" maxlength=\"8\" required>\
         </label><button type=\"submit\" class=\"link-button\">Remove</button></form></li></ul>\
         <form method=\"post\" action=\"/app/security/mfa/enroll\" hx-post=\"/app/security/mfa/enroll\" hx-target=\"body\" hx-swap=\"outerHTML\">\
         <input type=\"hidden\" name=\"csrf_token\" value=\"tok\">\
         <button type=\"submit\">Add authenticator</button></form>\
         <a href=\"/app/security\">Back to security</a></section></main></body></html>"
    );
}

#[test]
fn the_whole_set_up_page() {
    assert_eq!(
        mfa_enroll_markup(
            &TotpEnrollment {
                factor_id: s("f1"),
                qr_code: s("<svg></svg>"),
                secret: s("JBSW"),
                uri: s("otpauth://totp/a?b=1&c=2"),
            },
            "tok",
        ).into_string(),
        "<!DOCTYPE html><html lang=\"en\"><head><meta charset=\"utf-8\">\
         <meta name=\"viewport\" content=\"width=device-width, initial-scale=1\">\
         <title>Set up authenticator · Fiducia Customer</title>\
         <link rel=\"stylesheet\" href=\"/assets/customer.css\">\
         <script src=\"/assets/htmx.min.js\" defer></script></head><body>\
         <main class=\"auth-shell\"><section class=\"auth-card\"><p class=\"eyebrow\">Security\
         </p><h1>Scan this with your authenticator</h1>\
         <p class=\"muted\">Scan the QR code with Authy, Google Authenticator, or any TOTP app, then enter the 6-digit code it shows to finish.\
         </p><div class=\"totp-qr\"><svg></svg></div>\
         <p class=\"muted\">Can't scan? Enter this key manually:</p>\
         <pre class=\"totp-secret\">JBSW</pre><details class=\"totp-uri\">\
         <summary>Prefer a setup link?</summary>\
         <p class=\"muted\">Paste this otpauth URI into your authenticator app:</p>\
         <pre class=\"totp-secret\">otpauth://totp/a?b=1&amp;c=2</pre></details>\
         <form method=\"post\" action=\"/app/security/mfa/activate\" hx-post=\"/app/security/mfa/activate\" hx-target=\"body\" hx-swap=\"outerHTML\">\
         <input type=\"hidden\" name=\"csrf_token\" value=\"tok\">\
         <input type=\"hidden\" name=\"factor_id\" value=\"f1\">\
         <label for=\"activate-code\">Code from your app</label>\
         <input id=\"activate-code\" name=\"code\" type=\"text\" inputmode=\"numeric\" autocomplete=\"one-time-code\" pattern=\"[0-9]*\" minlength=\"6\" maxlength=\"8\" required>\
         <button type=\"submit\">Turn on 2FA</button></form><a href=\"/app/security/mfa\">Cancel\
         </a></section></main></body></html>"
    );
}

#[test]
fn the_whole_result_page() {
    assert_eq!(
        mfa_result_markup("Done", "All <good>.").into_string(),
        "<!DOCTYPE html><html lang=\"en\"><head><meta charset=\"utf-8\">\
         <meta name=\"viewport\" content=\"width=device-width, initial-scale=1\">\
         <title>Security · Fiducia Customer</title>\
         <link rel=\"stylesheet\" href=\"/assets/customer.css\">\
         <script src=\"/assets/htmx.min.js\" defer></script></head><body>\
         <main class=\"auth-shell\"><section class=\"auth-card\"><p class=\"eyebrow\">Security\
         </p><h1>Done</h1><p class=\"muted\">All &lt;good&gt;.</p>\
         <a href=\"/app/security/mfa\">Manage authenticator</a> · \
         <a href=\"/app/security\">Back to security</a></section></main></body></html>"
    );
}

#[test]
fn the_whole_notifications_table() {
    assert_eq!(
        notifications_table_markup(
            &[
                Notification { id: s("n1"), created_at: s("2026-01-02T03:04:05+00:00"), severity: s("info"), title: s("One & two"), body: s(""), link: None, read_at: None },
                Notification { id: s("n2"), created_at: s("2026-01-01T00:00:00+00:00"), severity: s("warn\""), title: s("Three"), body: s("<b>"), link: Some(s("/app?a&b")), read_at: Some(s("t")) },
            ],
            12,
            Some("Marked."),
            "tok",
        ).into_string(),
        "<section class=\"panel\" aria-labelledby=\"notifications-table-heading\">\
         <div class=\"panel__header\"><h2 id=\"notifications-table-heading\">Recent notifications\
         </h2><span>12 unread / 2 shown</span></div>\
         <p class=\"inline-message\" role=\"status\">Marked.</p><div class=\"table-wrap\"><table>\
         <thead><tr><th>When</th><th>Severity</th><th>Notification</th><th>State</th><th>Action\
         </th></tr></thead><tbody><tr><td>2026-01-02T03:04:05+00:00</td><td>\
         <span class=\"status-pill\" data-severity=\"info\">info</span></td><td>\
         <strong>One &amp; two</strong></td><td>unread</td><td>\
         <form method=\"post\" action=\"/app/notifications/read\" hx-post=\"/app/notifications/read\" hx-target=\"#customer-notifications\" hx-swap=\"innerHTML\">\
         <input type=\"hidden\" name=\"csrf_token\" value=\"tok\">\
         <input type=\"hidden\" name=\"id\" value=\"n1\"><button type=\"submit\">Mark read\
         </button></form></td></tr><tr><td>2026-01-01T00:00:00+00:00</td><td>\
         <span class=\"status-pill\" data-severity=\"warn&quot;\">warn&quot;</span></td><td>\
         <strong>Three</strong><div class=\"muted\">&lt;b&gt;</div><div>\
         <a href=\"/app?a&amp;b\">View</a></div></td><td>read</td><td></td></tr></tbody></table>\
         </div></section>"
    );
}

#[test]
fn the_whole_empty_notifications_table() {
    assert_eq!(
        notifications_table_markup(&[], 0, None, "tok").into_string(),
        "<section class=\"panel\" aria-labelledby=\"notifications-table-heading\">\
         <div class=\"panel__header\"><h2 id=\"notifications-table-heading\">Recent notifications\
         </h2><span>0 unread / 0 shown</span></div><div class=\"table-wrap\"><table><thead><tr>\
         <th>When</th><th>Severity</th><th>Notification</th><th>State</th><th>Action</th></tr>\
         </thead><tbody><tr><td colspan=\"5\" class=\"muted\">You have no notifications.</td>\
         </tr></tbody></table></div></section>"
    );
}

#[test]
fn the_whole_activity_table() {
    assert_eq!(
        customer_activity_table_markup(&[
            CustomerAuditEvent {
                created_at: s("t1"),
                actor: None,
                action: s("key.create"),
                target: Some(s("k<1")),
                request_id: None,
            },
            CustomerAuditEvent {
                created_at: s("t2"),
                actor: Some(s("ann")),
                action: s("key.rotate"),
                target: None,
                request_id: Some(s("r1")),
            },
        ]).into_string(),
        "<section class=\"panel\" aria-labelledby=\"activity-table-heading\">\
         <div class=\"panel__header\"><h2 id=\"activity-table-heading\">Recent activity</h2>\
         <span>2 shown</span></div><div class=\"table-wrap\"><table><thead><tr><th>When</th>\
         <th>Actor</th><th>Action</th><th>Target</th><th>Request</th></tr></thead><tbody><tr>\
         <td>t1</td><td>system</td><td><code>key.create</code></td><td>k&lt;1</td><td><code>—\
         </code></td></tr><tr><td>t2</td><td>ann</td><td><code>key.rotate</code></td><td>—</td>\
         <td><code>r1</code></td></tr></tbody></table></div></section>"
    );
}

#[test]
fn the_whole_sessions_table() {
    assert_eq!(
        sessions_table_markup(
            &[
                TrustedSession {
                    device: s("Mac \"Pro\""),
                    location: Some(s("Berlin")),
                    last_seen: s("t1"),
                    status: s("active"),
                },
                TrustedSession {
                    device: s("Phone"),
                    location: None,
                    last_seen: s("t2"),
                    status: s("revoked"),
                },
            ],
            Some("Revoked."),
            "tok",
        ).into_string(),
        "<section class=\"panel\" aria-labelledby=\"sessions-heading\">\
         <div class=\"panel__header\"><h2 id=\"sessions-heading\">Trusted sessions</h2>\
         <span>2 recorded</span></div><p class=\"inline-message\" role=\"status\">Revoked.</p>\
         <div class=\"table-wrap\"><table><thead><tr><th>Device</th><th>Location</th>\
         <th>Last seen</th><th>State</th><th>Action</th></tr></thead><tbody><tr>\
         <td>Mac &quot;Pro&quot;</td><td>Berlin</td><td>t1</td><td>active</td><td>\
         <form method=\"post\" action=\"/app/security/sessions/revoke\" hx-post=\"/app/security/sessions/revoke\" hx-target=\"#security-sessions\" hx-swap=\"innerHTML\">\
         <input type=\"hidden\" name=\"csrf_token\" value=\"tok\">\
         <input type=\"hidden\" name=\"device\" value=\"Mac &quot;Pro&quot;\">\
         <button type=\"submit\">Revoke</button></form></td></tr><tr><td>Phone</td><td>unknown\
         </td><td>t2</td><td>revoked</td><td></td></tr></tbody></table></div></section>"
    );
}

#[test]
fn the_whole_preferences_form() {
    assert_eq!(
        preferences_form_markup(
            &CustomerPreferences {
                region: s("fra1"),
                timezone: s("Europe/<Berlin>"),
                density: s("comfortable"),
                notify_lock_contention: true,
                notify_key_rotation: false,
                notify_mfa: true,
            },
            &[s("iad1"), s("fra1")],
            true,
            "tok",
        ).into_string(),
        "<section class=\"panel\" aria-labelledby=\"preferences-heading\">\
         <div class=\"panel__header\"><h2 id=\"preferences-heading\">Preferences</h2>\
         <span>Postgres-backed</span></div>\
         <p class=\"inline-message\" role=\"status\">Preferences saved.</p>\
         <form class=\"settings-grid\" method=\"post\" action=\"/app/settings\" hx-post=\"/app/settings\" hx-target=\"#customer-preferences\" hx-swap=\"innerHTML\">\
         <input type=\"hidden\" name=\"csrf_token\" value=\"tok\"><label class=\"form-field\">\
         <span>Default region</span><select name=\"region\"><option value=\"iad1\">iad1</option>\
         <option value=\"fra1\" selected>fra1</option></select></label>\
         <label class=\"form-field\"><span>Timezone</span>\
         <input name=\"timezone\" value=\"Europe/&lt;Berlin&gt;\" required></label>\
         <label class=\"form-field\"><span>Dashboard density</span><select name=\"density\">\
         <option value=\"comfortable\" selected>Comfortable</option>\
         <option value=\"compact\">Compact</option></select></label>\
         <fieldset class=\"toggle-group\"><legend>Notifications</legend>\
         <label class=\"checkbox-line\">\
         <input type=\"checkbox\" name=\"notify_lock_contention\" value=\"1\" checked>\
         <span>Lock contention</span></label><label class=\"checkbox-line\">\
         <input type=\"checkbox\" name=\"notify_key_rotation\" value=\"1\"><span>API key rotation\
         </span></label><label class=\"checkbox-line\">\
         <input type=\"checkbox\" name=\"notify_mfa\" value=\"1\" checked><span>MFA changes\
         </span></label></fieldset><button type=\"submit\">Save preferences</button></form>\
         </section>"
    );
}

#[test]
fn the_whole_dashboard_page() {
    assert_eq!(
        customer_page(&configured(), &customer(), CustomerTab::Dashboard, &org(), "tok").into_string(),
        "<!DOCTYPE html><html lang=\"en\"><head><meta charset=\"utf-8\">\
         <meta name=\"viewport\" content=\"width=device-width, initial-scale=1\">\
         <meta name=\"fiducia-customer-csrf\" content=\"tok\"><title>Fiducia Customer Portal\
         </title><link rel=\"stylesheet\" href=\"/assets/customer.css\">\
         <script src=\"/assets/htmx.min.js\" defer></script></head><body>\
         <div class=\"app-shell\"><header class=\"topbar\"><div class=\"brand\">\
         <div class=\"brand__mark\">F</div><div class=\"brand__text\">\
         <div class=\"brand__name\">Fiducia Customer Portal</div>\
         <div class=\"brand__subdomain\">app.fiducia.cloud</div></div></div>\
         <div class=\"topbar__status\">\
         <span class=\"status-pill\" data-status=\"online\">verified</span>\
         <span class=\"status-pill\">ann&amp;bob@fiducia.cloud</span>\
         <form method=\"post\" action=\"/logout\">\
         <input type=\"hidden\" name=\"csrf_token\" value=\"tok\">\
         <button type=\"submit\">Sign out</button></form></div></header>\
         <main class=\"workspace\"><aside class=\"sidebar\"><section class=\"sidebar__section\">\
         <p class=\"sidebar__label\">Workspace</p>\
         <nav class=\"nav\" aria-label=\"Customer portal\">\
         <a href=\"/app?org_id=org%20%22b%22\" aria-current=\"page\"><span>Dashboard</span></a>\
         <a href=\"/app/auth?org_id=org%20%22b%22\"><span>Account</span></a>\
         <a href=\"/app/api-keys?org_id=org%20%22b%22\"><span>API Keys</span></a>\
         <a href=\"/app/security?org_id=org%20%22b%22\"><span>Security</span></a>\
         <a href=\"/app/activity?org_id=org%20%22b%22\"><span>Activity</span></a>\
         <a href=\"/app/notifications?org_id=org%20%22b%22\"><span>Notifications</span></a>\
         <a href=\"/app/settings?org_id=org%20%22b%22\"><span>Settings</span></a></nav></section>\
         <section class=\"sidebar__section\">\
         <form class=\"region-select\" method=\"get\" action=\"/app\">\
         <label class=\"sidebar__label\" for=\"customer-org\">Organization</label>\
         <select id=\"customer-org\" name=\"org_id\"><option value=\"org-a\">org-a</option>\
         <option value=\"org &quot;b&quot;\" selected>org &quot;b&quot;</option></select>\
         <button type=\"submit\">Switch</button></form></section></aside>\
         <section class=\"workspace__main\" aria-labelledby=\"portal-title\">\
         <div class=\"page-heading\"><div><h1 id=\"portal-title\">Dashboard</h1>\
         <p>Account posture, API access, preferences, and customer security in one workspace.</p>\
         </div><div class=\"toolbar\">\
         <button type=\"button\" hx-get=\"/app/fragments/summary?org_id=org%20%22b%22\" hx-target=\"#summary\" hx-swap=\"innerHTML\">Refresh\
         </button><a href=\"/app/api-keys?org_id=org%20%22b%22\">New API key</a>\
         <a href=\"/api/info\">API info</a></div></div>\
         <section id=\"summary\" hx-get=\"/app/fragments/summary?org_id=org%20%22b%22\" hx-trigger=\"load, every 15s\" hx-swap=\"innerHTML\">\
         <div class=\"summary-grid\"><div class=\"metric\"><p class=\"metric__label\">API keys\
         </p><p class=\"metric__value\">live</p>\
         <p class=\"metric__hint\">sanitized metadata from fiducia-auth after sign-in</p></div>\
         <div class=\"metric\"><p class=\"metric__label\">Preferences</p>\
         <p class=\"metric__value\">live</p>\
         <p class=\"metric__hint\">persisted per authenticated user</p></div>\
         <div class=\"metric\"><p class=\"metric__label\">Sessions</p>\
         <p class=\"metric__value\">live</p>\
         <p class=\"metric__hint\">trusted sessions from customer PostgreSQL</p></div>\
         <div class=\"metric\"><p class=\"metric__label\">Application boundary</p>\
         <p class=\"metric__value\">customer</p>\
         <p class=\"metric__hint\">operator infrastructure controls live only in the admin app\
         </p></div></div></section><div class=\"panel-grid panel-grid--dashboard\">\
         <section class=\"panel\" aria-labelledby=\"auth-status-heading\">\
         <div class=\"panel__header\"><h2 id=\"auth-status-heading\">Supabase Auth</h2>\
         <span data-auth-status=\"\">verified</span></div><div class=\"panel-body stack\">\
         <div class=\"identity-row\"><div><p class=\"eyebrow\">Customer session</p>\
         <p class=\"identity-row__primary\" data-auth-email=\"\">ann&amp;bob@fiducia.cloud</p>\
         </div><span class=\"tag tag--ok\">configured</span></div><p class=\"muted\">Project: \
         <span class=\"mono\">https://x.supabase.co</span></p><div class=\"action-row\">\
         <a class=\"button-link\" href=\"/app/auth?org_id=org%20%22b%22\">Account</a></div></div>\
         </section><section class=\"panel\" aria-labelledby=\"api-key-summary-heading\">\
         <div class=\"panel__header\"><h2 id=\"api-key-summary-heading\">API Keys</h2>\
         <span>Postgres-backed</span></div><div class=\"panel-body stack\">\
         <p class=\"muted\">Issue scoped keys for customer workloads and rotate live keys without downtime.\
         </p><dl class=\"detail-list\"><div><dt>Default scope</dt>\
         <dd>requests:write with idempotency keys</dd></div><div><dt>Rotation</dt>\
         <dd>rotation reports the remaining edge/LB cache overlap</dd></div></dl>\
         <a class=\"button-link\" href=\"/app/api-keys?org_id=org%20%22b%22\">Manage keys</a>\
         </div></section><section class=\"panel\" aria-labelledby=\"security-summary-heading\">\
         <div class=\"panel__header\"><h2 id=\"security-summary-heading\">Security</h2>\
         <span>Supabase-managed</span></div><div class=\"panel-body stack\">\
         <p class=\"muted\">Supabase owns MFA and passkey enrollment; trusted session records are loaded from the customer database.\
         </p><dl class=\"detail-list\"><div><dt>Identity</dt><dd>verified by fiducia-auth</dd>\
         </div><div><dt>Enrollment state</dt><dd>not guessed by this service</dd></div></dl>\
         <a class=\"button-link\" href=\"/app/security?org_id=org%20%22b%22\">Review security</a>\
         </div></section>\
         <section class=\"panel\" aria-labelledby=\"preferences-summary-heading\">\
         <div class=\"panel__header\"><h2 id=\"preferences-summary-heading\">Preferences</h2>\
         <span>Postgres-backed</span></div><div class=\"panel-body stack\">\
         <p class=\"muted\">Set default region, alert cadence, timezone, and customer-visible notifications.\
         </p><p>Values are rendered from the authenticated user's persisted row.</p>\
         <a class=\"button-link\" href=\"/app/settings?org_id=org%20%22b%22\">Open settings</a>\
         </div></section></div></section></main></div></body></html>"
    );
}

#[test]
fn the_whole_account_tab() {
    assert_eq!(
        customer_tab_content(
            &configured(),
            &customer(),
            CustomerTab::Auth,
            &org(),
            "tok",
        ).into_string(),
        "<section class=\"panel\" aria-labelledby=\"customer-session-heading\">\
         <div class=\"panel__header\"><h2 id=\"customer-session-heading\">Customer identity</h2>\
         <span class=\"status-pill\" data-status=\"online\">verified</span></div>\
         <div class=\"split-panel\"><div class=\"session-box\"><p class=\"eyebrow\">Supabase user\
         </p><p class=\"identity-row__primary\">ann&amp;bob@fiducia.cloud</p>\
         <p class=\"muted\">Verified by fiducia-auth on this request.</p></div>\
         <div class=\"session-box\"><p class=\"eyebrow\">Organization membership</p><code>org-a\
         </code><code>org &quot;b&quot;</code></div></div>\
         <form method=\"post\" action=\"/logout\" hx-post=\"/logout\">\
         <input type=\"hidden\" name=\"csrf_token\" value=\"tok\">\
         <button type=\"submit\">Sign out</button></form></section>"
    );
}

#[test]
fn the_whole_security_tab() {
    assert_eq!(
        customer_tab_content(
            &configured(),
            &customer(),
            CustomerTab::Security,
            &org(),
            "tok",
        ).into_string(),
        "<section class=\"panel\" aria-labelledby=\"auth-security-heading\">\
         <div class=\"panel__header\"><h2 id=\"auth-security-heading\">Supabase account security\
         </h2><span>provider managed</span></div>\
         <p class=\"muted\">MFA and passkeys are managed by Supabase Auth. This application does not display guessed enrollment state; production-key policy will only claim enforcement after fiducia-auth exposes a verified assurance level.\
         </p></section>\
         <div id=\"security-sessions\" hx-get=\"/app/fragments/security-sessions?org_id=org%20%22b%22\" hx-trigger=\"load\" hx-swap=\"innerHTML\">\
         <p class=\"muted\">Loading trusted sessions…</p></div>"
    );
}

#[test]
fn the_whole_activity_tab() {
    assert_eq!(
        customer_tab_content(
            &configured(),
            &customer(),
            CustomerTab::Activity,
            &org(),
            "tok",
        ).into_string(),
        "<section class=\"panel\" aria-labelledby=\"activity-heading\">\
         <div class=\"panel__header\"><h2 id=\"activity-heading\">Organization activity</h2>\
         <span>audit log</span></div>\
         <p class=\"muted\">Only records for the organization selected from your verified Supabase membership are shown. Network addresses, user agents, and internal audit metadata are never exposed here.\
         </p></section>\
         <div id=\"customer-activity\" hx-get=\"/app/fragments/activity?org_id=org%20%22b%22\" hx-trigger=\"load\" hx-swap=\"innerHTML\">\
         <p class=\"muted\">Loading organization activity…</p></div>"
    );
}

#[test]
fn the_whole_notifications_tab() {
    assert_eq!(
        customer_tab_content(
            &configured(),
            &customer(),
            CustomerTab::Notifications,
            &org(),
            "tok",
        ).into_string(),
        "<section class=\"panel\" aria-labelledby=\"notifications-heading\">\
         <div class=\"panel__header\"><h2 id=\"notifications-heading\">Your notifications</h2>\
         <span>account feed</span></div>\
         <p class=\"muted\">Key-rotation reminders, lock-contention alerts, MFA nudges, and operator notices delivered to your account. Delivery preferences live under Settings.\
         </p></section>\
         <div id=\"customer-notifications\" hx-get=\"/app/fragments/notifications?org_id=org%20%22b%22\" hx-trigger=\"load\" hx-swap=\"innerHTML\">\
         <p class=\"muted\">Loading notifications…</p></div>"
    );
}

#[test]
fn the_whole_settings_tab() {
    assert_eq!(
        customer_tab_content(
            &configured(),
            &customer(),
            CustomerTab::Settings,
            &org(),
            "tok",
        ).into_string(),
        "<div id=\"customer-preferences\" hx-get=\"/app/fragments/preferences?org_id=org%20%22b%22\" hx-trigger=\"load\" hx-swap=\"innerHTML\">\
         <p class=\"muted\">Loading persisted preferences…</p></div>"
    );
}

#[test]
fn the_whole_key_page() {
    let content = api_keys_markup_with_key(&org(), "tok", "key-1");
    let page = customer_page_with_content(
        &configured(),
        &customer(),
        CustomerTab::ApiKeys,
        &org(),
        "tok",
        &content,
    );
    assert_eq!(
        page.into_string(),
        "<!DOCTYPE html><html lang=\"en\"><head><meta charset=\"utf-8\">\
         <meta name=\"viewport\" content=\"width=device-width, initial-scale=1\">\
         <meta name=\"fiducia-customer-csrf\" content=\"tok\"><title>Fiducia Customer Portal\
         </title><link rel=\"stylesheet\" href=\"/assets/customer.css\">\
         <script src=\"/assets/htmx.min.js\" defer></script></head><body>\
         <div class=\"app-shell\"><header class=\"topbar\"><div class=\"brand\">\
         <div class=\"brand__mark\">F</div><div class=\"brand__text\">\
         <div class=\"brand__name\">Fiducia Customer Portal</div>\
         <div class=\"brand__subdomain\">app.fiducia.cloud</div></div></div>\
         <div class=\"topbar__status\">\
         <span class=\"status-pill\" data-status=\"online\">verified</span>\
         <span class=\"status-pill\">ann&amp;bob@fiducia.cloud</span>\
         <form method=\"post\" action=\"/logout\">\
         <input type=\"hidden\" name=\"csrf_token\" value=\"tok\">\
         <button type=\"submit\">Sign out</button></form></div></header>\
         <main class=\"workspace\"><aside class=\"sidebar\"><section class=\"sidebar__section\">\
         <p class=\"sidebar__label\">Workspace</p>\
         <nav class=\"nav\" aria-label=\"Customer portal\"><a href=\"/app?org_id=org%20%22b%22\">\
         <span>Dashboard</span></a><a href=\"/app/auth?org_id=org%20%22b%22\"><span>Account\
         </span></a><a href=\"/app/api-keys?org_id=org%20%22b%22\" aria-current=\"page\">\
         <span>API Keys</span></a><a href=\"/app/security?org_id=org%20%22b%22\"><span>Security\
         </span></a><a href=\"/app/activity?org_id=org%20%22b%22\"><span>Activity</span></a>\
         <a href=\"/app/notifications?org_id=org%20%22b%22\"><span>Notifications</span></a>\
         <a href=\"/app/settings?org_id=org%20%22b%22\"><span>Settings</span></a></nav></section>\
         <section class=\"sidebar__section\">\
         <form class=\"region-select\" method=\"get\" action=\"/app/api-keys\">\
         <label class=\"sidebar__label\" for=\"customer-org\">Organization</label>\
         <select id=\"customer-org\" name=\"org_id\"><option value=\"org-a\">org-a</option>\
         <option value=\"org &quot;b&quot;\" selected>org &quot;b&quot;</option></select>\
         <button type=\"submit\">Switch</button></form></section></aside>\
         <section class=\"workspace__main\" aria-labelledby=\"portal-title\">\
         <div class=\"page-heading\"><div><h1 id=\"portal-title\">API Keys</h1>\
         <p>Create, rotate, scope, and audit customer API keys for production integrations.</p>\
         </div><div class=\"toolbar\">\
         <button type=\"button\" hx-get=\"/app/fragments/summary?org_id=org%20%22b%22\" hx-target=\"#summary\" hx-swap=\"innerHTML\">Refresh\
         </button><a href=\"/app/api-keys?org_id=org%20%22b%22\">New API key</a>\
         <a href=\"/api/info\">API info</a></div></div>\
         <section class=\"panel\" aria-labelledby=\"create-api-key-heading\">\
         <div class=\"panel__header\"><h2 id=\"create-api-key-heading\">Create API key</h2>\
         <span>customer scoped</span></div>\
         <form class=\"form-grid form-grid--inline\" method=\"post\" action=\"/app/api-keys\" hx-post=\"/app/api-keys\" hx-target=\"#api-key-results\" hx-swap=\"innerHTML\">\
         <input type=\"hidden\" name=\"csrf_token\" value=\"tok\">\
         <input type=\"hidden\" name=\"org_id\" value=\"org &quot;b&quot;\">\
         <input type=\"hidden\" name=\"idempotency_key\" value=\"key-1\"><label><span>Name</span>\
         <input type=\"text\" name=\"name\" placeholder=\"Production checkout\" required></label>\
         <label><span>Environment</span><select name=\"environment\"><option value=\"live\">Live\
         </option><option value=\"test\">Test</option></select></label><label><span>Scopes</span>\
         <select name=\"scope\"><option value=\"requests:read\">requests:read</option>\
         <option value=\"requests:write\">requests:write</option>\
         <option value=\"locks:read\">locks:read</option>\
         <option value=\"locks:write\">locks:write</option><option value=\"kv:read\">kv:read\
         </option><option value=\"kv:write\">kv:write</option>\
         <option value=\"services:read\">services:read</option>\
         <option value=\"services:write\">services:write</option>\
         <option value=\"elections:read\">elections:read</option>\
         <option value=\"elections:write\">elections:write</option>\
         <option value=\"cron:read\">cron:read</option><option value=\"cron:write\">cron:write\
         </option><option value=\"rate-limit:read\">rate-limit:read</option>\
         <option value=\"rate-limit:write\">rate-limit:write</option></select></label>\
         <button type=\"submit\">Create key</button></form></section>\
         <div id=\"api-key-results\" hx-get=\"/app/fragments/api-keys?org_id=org%20%22b%22\" hx-trigger=\"load\" hx-swap=\"innerHTML\">\
         <p class=\"muted\">Loading customer API keys…</p></div></section></main></div></body>\
         </html>"
    );
}

#[test]
fn the_whole_dashboard_without_supabase() {
    let mut config = configured();
    config.supabase_url = None;
    config.supabase_publishable_key = None;
    let mut nameless = customer();
    nameless.email = None;
    assert_eq!(
        customer_tab_content(&config, &nameless, CustomerTab::Dashboard, &org(), "tok")
            .into_string(),
        "<section id=\"summary\" hx-get=\"/app/fragments/summary?org_id=org%20%22b%22\" hx-trigger=\"load, every 15s\" hx-swap=\"innerHTML\">\
         <div class=\"summary-grid\"><div class=\"metric\"><p class=\"metric__label\">API keys\
         </p><p class=\"metric__value\">live</p>\
         <p class=\"metric__hint\">sanitized metadata from fiducia-auth after sign-in</p></div>\
         <div class=\"metric\"><p class=\"metric__label\">Preferences</p>\
         <p class=\"metric__value\">live</p>\
         <p class=\"metric__hint\">persisted per authenticated user</p></div>\
         <div class=\"metric\"><p class=\"metric__label\">Sessions</p>\
         <p class=\"metric__value\">live</p>\
         <p class=\"metric__hint\">trusted sessions from customer PostgreSQL</p></div>\
         <div class=\"metric\"><p class=\"metric__label\">Application boundary</p>\
         <p class=\"metric__value\">customer</p>\
         <p class=\"metric__hint\">operator infrastructure controls live only in the admin app\
         </p></div></div></section><div class=\"panel-grid panel-grid--dashboard\">\
         <section class=\"panel\" aria-labelledby=\"auth-status-heading\">\
         <div class=\"panel__header\"><h2 id=\"auth-status-heading\">Supabase Auth</h2>\
         <span data-auth-status=\"\">verified</span></div><div class=\"panel-body stack\">\
         <div class=\"identity-row\"><div><p class=\"eyebrow\">Customer session</p>\
         <p class=\"identity-row__primary\" data-auth-email=\"\">user-1</p></div>\
         <span class=\"tag tag--warn\">missing env</span></div><p class=\"muted\">Project: \
         <span class=\"mono\">not configured</span></p><div class=\"action-row\">\
         <a class=\"button-link\" href=\"/app/auth?org_id=org%20%22b%22\">Account</a></div></div>\
         </section><section class=\"panel\" aria-labelledby=\"api-key-summary-heading\">\
         <div class=\"panel__header\"><h2 id=\"api-key-summary-heading\">API Keys</h2>\
         <span>Postgres-backed</span></div><div class=\"panel-body stack\">\
         <p class=\"muted\">Issue scoped keys for customer workloads and rotate live keys without downtime.\
         </p><dl class=\"detail-list\"><div><dt>Default scope</dt>\
         <dd>requests:write with idempotency keys</dd></div><div><dt>Rotation</dt>\
         <dd>rotation reports the remaining edge/LB cache overlap</dd></div></dl>\
         <a class=\"button-link\" href=\"/app/api-keys?org_id=org%20%22b%22\">Manage keys</a>\
         </div></section><section class=\"panel\" aria-labelledby=\"security-summary-heading\">\
         <div class=\"panel__header\"><h2 id=\"security-summary-heading\">Security</h2>\
         <span>Supabase-managed</span></div><div class=\"panel-body stack\">\
         <p class=\"muted\">Supabase owns MFA and passkey enrollment; trusted session records are loaded from the customer database.\
         </p><dl class=\"detail-list\"><div><dt>Identity</dt><dd>verified by fiducia-auth</dd>\
         </div><div><dt>Enrollment state</dt><dd>not guessed by this service</dd></div></dl>\
         <a class=\"button-link\" href=\"/app/security?org_id=org%20%22b%22\">Review security</a>\
         </div></section>\
         <section class=\"panel\" aria-labelledby=\"preferences-summary-heading\">\
         <div class=\"panel__header\"><h2 id=\"preferences-summary-heading\">Preferences</h2>\
         <span>Postgres-backed</span></div><div class=\"panel-body stack\">\
         <p class=\"muted\">Set default region, alert cadence, timezone, and customer-visible notifications.\
         </p><p>Values are rendered from the authenticated user's persisted row.</p>\
         <a class=\"button-link\" href=\"/app/settings?org_id=org%20%22b%22\">Open settings</a>\
         </div></section></div>"
    );
}
