use fiducia_customer::tables::{
    customer_activity_table_markup, notifications_table_markup, preferences_form_markup,
    sessions_table_markup, summary_markup, CustomerAuditEvent, CustomerPreferences, Notification,
    TrustedSession,
};

fn note(id: &str, read: bool) -> Notification<String> {
    Notification {
        id: id.to_string(),
        created_at: "2026-01-02T03:04:05+00:00".to_string(),
        severity: "info".to_string(),
        title: "Rotate <soon>".to_string(),
        body: String::new(),
        link: None,
        read_at: if read { Some("2026-01-03T00:00:00+00:00".to_string()) } else { None },
    }
}

#[test]
fn an_empty_feed_says_so() {
    let html = notifications_table_markup(&[], 0, None, "tok").into_string();
    assert!(html.contains("<span>0 unread / 0 shown</span></div><div class=\"table-wrap\">"));
    assert!(html.contains(
        "<tbody><tr><td colspan=\"5\" class=\"muted\">You have no notifications.</td></tr></tbody>"
    ));
}

#[test]
fn an_unread_notice_has_its_exact_row() {
    let html = notifications_table_markup(&[note("n1", false)], 7, Some("Done & done"), "tok")
        .into_string();
    assert!(html.contains(
        "<span>7 unread / 1 shown</span></div>\
         <p class=\"inline-message\" role=\"status\">Done &amp; done</p>"
    ));
    assert!(html.contains(
        "<tbody><tr><td>2026-01-02T03:04:05+00:00</td><td>\
         <span class=\"status-pill\" data-severity=\"info\">info</span></td><td>\
         <strong>Rotate &lt;soon&gt;</strong></td><td>unread</td><td>\
         <form method=\"post\" action=\"/app/notifications/read\" \
         hx-post=\"/app/notifications/read\" hx-target=\"#customer-notifications\" \
         hx-swap=\"innerHTML\"><input type=\"hidden\" name=\"csrf_token\" value=\"tok\">\
         <input type=\"hidden\" name=\"id\" value=\"n1\">\
         <button type=\"submit\">Mark read</button></form></td></tr></tbody>"
    ));
}

#[test]
fn a_read_notice_offers_no_form() {
    let mut read = note("n2", true);
    read.body = "Body".to_string();
    read.link = Some("/app?a=1&b=2".to_string());
    let html = notifications_table_markup(&[note("n1", false), read], 1, None, "tok").into_string();
    assert!(html.contains("<span>1 unread / 2 shown</span>"));
    assert!(html.contains(
        "<strong>Rotate &lt;soon&gt;</strong><div class=\"muted\">Body</div>\
         <div><a href=\"/app?a=1&amp;b=2\">View</a></div></td><td>read</td><td></td></tr>"
    ));
    assert_eq!(html.matches("Mark read").count(), 1);
}

#[test]
fn activity_rows_fill_in_what_is_missing() {
    let none = customer_activity_table_markup(&[]).into_string();
    assert!(none.contains("<span>0 shown</span>"));
    assert!(none.contains("No customer-visible activity is recorded for this organization yet."));
    let events = vec![
        CustomerAuditEvent {
            created_at: "t1".to_string(),
            actor: None,
            action: "key.create".to_string(),
            target: None,
            request_id: None,
        },
        CustomerAuditEvent {
            created_at: "t2".to_string(),
            actor: Some("ann".to_string()),
            action: "key.rotate".to_string(),
            target: Some("k1".to_string()),
            request_id: Some("r1".to_string()),
        },
    ];
    let html = customer_activity_table_markup(&events).into_string();
    assert!(html.contains("<span>2 shown</span>"));
    assert!(html.contains(
        "<tbody><tr><td>t1</td><td>system</td><td><code>key.create</code></td><td>—</td>\
         <td><code>—</code></td></tr><tr><td>t2</td><td>ann</td><td><code>key.rotate</code></td>\
         <td>k1</td><td><code>r1</code></td></tr></tbody>"
    ));
}

#[test]
fn revoked_sessions_cannot_be_revoked_again() {
    let none = sessions_table_markup(&[], None, "tok").into_string();
    assert!(none.contains("No trusted sessions have been recorded."));
    let session = |status: &str| TrustedSession {
        device: "Mac".to_string(),
        location: None,
        last_seen: "t1".to_string(),
        status: status.to_string(),
    };
    let sessions = vec![session("active"), session("revoked")];
    let html = sessions_table_markup(&sessions, Some("Revoked."), "tok").into_string();
    assert!(html.contains("<span>2 recorded</span></div><p class=\"inline-message\""));
    assert!(html.contains(
        "<tr><td>Mac</td><td>unknown</td><td>t1</td><td>active</td><td>\
         <form method=\"post\" action=\"/app/security/sessions/revoke\" \
         hx-post=\"/app/security/sessions/revoke\" hx-target=\"#security-sessions\" \
         hx-swap=\"innerHTML\"><input type=\"hidden\" name=\"csrf_token\" value=\"tok\">\
         <input type=\"hidden\" name=\"device\" value=\"Mac\">\
         <button type=\"submit\">Revoke</button></form></td></tr>\
         <tr><td>Mac</td><td>unknown</td><td>t1</td><td>revoked</td><td></td></tr>"
    ));
}

#[test]
fn preferences_are_filled_in() {
    let preferences = CustomerPreferences {
        region: "fra1".to_string(),
        timezone: "Europe/\"B".to_string(),
        density: "compact".to_string(),
        notify_lock_contention: false,
        notify_key_rotation: true,
        notify_mfa: true,
    };
    let regions = vec!["iad1".to_string(), "fra1".to_string()];
    let html = preferences_form_markup(&preferences, &regions, false, "tok").into_string();
    assert!(!html.contains("Preferences saved."));
    assert!(html.contains(
        "<select name=\"region\"><option value=\"iad1\">iad1</option>\
         <option value=\"fra1\" selected>fra1</option></select>"
    ));
    assert!(html.contains("<input name=\"timezone\" value=\"Europe/&quot;B\" required>"));
    assert!(html.contains(
        "<option value=\"comfortable\">Comfortable</option>\
         <option value=\"compact\" selected>Compact</option>"
    ));
    assert!(html.contains("name=\"notify_lock_contention\" value=\"1\"><span>Lock contention"));
    assert!(html.contains("name=\"notify_key_rotation\" value=\"1\" checked><span>API key"));
    assert!(html.contains("name=\"notify_mfa\" value=\"1\" checked><span>MFA changes</span>"));
    let saved = preferences_form_markup(&preferences, &regions, true, "tok").into_string();
    assert!(saved.contains(
        "</div><p class=\"inline-message\" role=\"status\">Preferences saved.</p><form"
    ));
}

#[test]
fn the_summary_has_four_metrics() {
    let html = summary_markup().into_string();
    assert_eq!(html.matches("<div class=\"metric\">").count(), 4);
    assert!(html.starts_with("<div class=\"summary-grid\">"));
    assert!(html.contains("<p class=\"metric__hint\">persisted per authenticated user</p>"));
}
