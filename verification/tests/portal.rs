use fiducia_customer::html::Markup;
use fiducia_customer::portal::{
    activity_markup, api_key_summary_panel, api_keys_markup, api_keys_markup_with_key, auth_markup,
    auth_status_panel, customer_page, customer_page_with_content, customer_tab_content,
    customer_tab_href, dashboard_markup, notifications_markup, preferences_summary_panel,
    security_markup, security_summary_panel, settings_markup, status_class, status_tag, CustomerCtx,
    CustomerTab, Org, PortalConfig,
};

const ORG_A: &str = "00000000-0000-0000-0000-000000000001";
const ORG_B: &str = "00000000-0000-4000-8000-000000000002";

fn org(id: &str) -> Org<String> {
    Org { id: id.to_string(), query: id.to_string() }
}

fn config() -> PortalConfig<String> {
    PortalConfig {
        customer_app_host: "app.fiducia.cloud".to_string(),
        supabase_url: None,
        supabase_publishable_key: None,
    }
}

fn customer() -> CustomerCtx {
    CustomerCtx {
        user_id: "user-1".to_string(),
        email: Some("test@fiducia.cloud".to_string()),
        orgs: vec![ORG_A.to_string(), ORG_B.to_string()],
    }
}

#[test]
fn every_tab_has_its_path_and_label() {
    let tabs = CustomerTab::all();
    let hrefs: Vec<&str> = tabs.iter().map(|tab| tab.href()).collect();
    assert_eq!(
        hrefs,
        vec![
            "/app",
            "/app/auth",
            "/app/api-keys",
            "/app/security",
            "/app/activity",
            "/app/notifications",
            "/app/settings"
        ]
    );
    let labels: Vec<&str> = tabs.iter().map(|tab| tab.label()).collect();
    assert_eq!(
        labels,
        vec![
            "Dashboard",
            "Account",
            "API Keys",
            "Security",
            "Activity",
            "Notifications",
            "Settings"
        ]
    );
    for tab in tabs {
        assert!(tab.description().ends_with('.'));
    }
}

#[test]
fn tab_links_name_the_organization() {
    let spaced = Org { id: "a b".to_string(), query: "a%20b".to_string() };
    assert_eq!(customer_tab_href(CustomerTab::ApiKeys, &spaced), "/app/api-keys?org_id=a%20b");
}

#[test]
fn status_words_have_their_class() {
    for ok in [
        "active", "configured", "enabled", "held", "current", "healthy", "committed", "linearized",
        "verified",
    ] {
        assert_eq!(status_class(ok), "tag tag--ok");
    }
    for warn in
        ["limited", "missing env", "pending", "renewing", "rotating", "ttl", "redirected"]
    {
        assert_eq!(status_class(warn), "tag tag--warn");
    }
    for error in ["blocked", "degraded", "disabled", "expired", "rejected"] {
        assert_eq!(status_class(error), "tag tag--error");
    }
    assert_eq!(status_class("Active"), "tag tag--info");
    assert_eq!(status_class(""), "tag tag--info");
    assert_eq!(
        status_tag("missing env").into_string(),
        "<span class=\"tag tag--warn\">missing env</span>"
    );
}

#[test]
fn the_session_panel_tells_whether_supabase_is_configured() {
    let missing = auth_status_panel(&config(), &customer(), &org(ORG_A)).into_string();
    assert!(missing.contains("<span class=\"tag tag--warn\">missing env</span>"));
    assert!(missing.contains("<span class=\"mono\">not configured</span>"));
    assert!(missing.contains("data-auth-email=\"\">test@fiducia.cloud</p>"));
    let mut configured = config();
    configured.supabase_url = Some("https://x.supabase.co".to_string());
    let half = auth_status_panel(&configured, &customer(), &org(ORG_A)).into_string();
    assert!(half.contains("missing env"));
    configured.supabase_publishable_key = Some("key".to_string());
    let mut nameless = customer();
    nameless.email = None;
    let full = auth_status_panel(&configured, &nameless, &org(ORG_A)).into_string();
    assert!(full.contains("<span class=\"tag tag--ok\">configured</span>"));
    assert!(full.contains("<span class=\"mono\">https://x.supabase.co</span>"));
    assert!(full.contains("data-auth-email=\"\">user-1</p>"));
    assert!(full.contains(&format!("href=\"/app/auth?org_id={ORG_A}\">Account</a>")));
}

#[test]
fn panels_link_to_their_tabs() {
    let org = org(ORG_A);
    assert!(api_key_summary_panel(&org)
        .into_string()
        .ends_with(&format!("href=\"/app/api-keys?org_id={ORG_A}\">Manage keys</a></div></section>")));
    assert!(security_summary_panel(&org)
        .into_string()
        .ends_with(&format!("href=\"/app/security?org_id={ORG_A}\">Review security</a></div></section>")));
    assert!(preferences_summary_panel(&org)
        .into_string()
        .ends_with(&format!("href=\"/app/settings?org_id={ORG_A}\">Open settings</a></div></section>")));
}

#[test]
fn tabs_load_their_fragments_for_the_organization() {
    let org = org(ORG_A);
    for (markup, id, path) in [
        (security_markup(&org), "security-sessions", "security-sessions"),
        (activity_markup(&org), "customer-activity", "activity"),
        (notifications_markup(&org), "customer-notifications", "notifications"),
        (settings_markup(&org), "customer-preferences", "preferences"),
    ] {
        let html = markup.into_string();
        let fragment = format!(
            "<div id=\"{id}\" hx-get=\"/app/fragments/{path}?org_id={ORG_A}\" \
             hx-trigger=\"load\" hx-swap=\"innerHTML\">"
        );
        assert!(html.contains(&fragment), "{html}");
    }
}

#[test]
fn the_account_tab_lists_the_organizations() {
    let html = auth_markup(&customer(), "tok").into_string();
    assert!(html.contains(&format!(
        "<p class=\"eyebrow\">Organization membership</p><code>{ORG_A}</code><code>{ORG_B}</code>\
         </div></div><form method=\"post\" action=\"/logout\" hx-post=\"/logout\">\
         <input type=\"hidden\" name=\"csrf_token\" value=\"tok\">"
    )));
}

#[test]
fn the_key_form_carries_its_fields() {
    let html = api_keys_markup_with_key(&org(ORG_B), "tok", "key-1").into_string();
    assert!(html.contains(&format!(
        "<input type=\"hidden\" name=\"csrf_token\" value=\"tok\">\
         <input type=\"hidden\" name=\"org_id\" value=\"{ORG_B}\">\
         <input type=\"hidden\" name=\"idempotency_key\" value=\"key-1\"><label>"
    )));
    assert!(html.contains("<option value=\"rate-limit:write\">rate-limit:write</option>"));
    assert!(html.contains(&format!("hx-get=\"/app/fragments/api-keys?org_id={ORG_B}\"")));
}

fn idempotency_key(html: &str) -> String {
    let field = &html[html.find("name=\"idempotency_key\" value=\"").unwrap() + 30..];
    field[..field.find('"').unwrap()].to_string()
}

#[test]
fn every_key_form_has_a_fresh_idempotency_key() {
    let first = api_keys_markup(&org(ORG_A), "tok").into_string();
    let second = api_keys_markup(&org(ORG_A), "tok").into_string();
    let key = idempotency_key(&first);
    assert_eq!(key.len(), 36);
    assert_eq!(key.as_bytes()[14], b'4');
    assert!("89ab".contains(&key[19..20]));
    assert!(key.chars().all(|c| c == '-' || c.is_ascii_digit() || ('a'..='f').contains(&c)));
    assert_ne!(key, idempotency_key(&second));
    assert_eq!(
        first,
        api_keys_markup_with_key(&org(ORG_A), "tok", &key).into_string()
    );
}

#[test]
fn the_page_marks_the_active_tab_and_the_selected_organization() {
    let page = customer_page(&config(), &customer(), CustomerTab::Security, &org(ORG_B), "tok")
        .into_string();
    assert!(page.starts_with("<!DOCTYPE html><html lang=\"en\">"));
    assert!(page.contains("<meta name=\"fiducia-customer-csrf\" content=\"tok\">"));
    assert!(page.contains(&format!(
        "<a href=\"/app/security?org_id={ORG_B}\" aria-current=\"page\"><span>Security</span></a>\
         <a href=\"/app/activity?org_id={ORG_B}\"><span>Activity</span></a>"
    )));
    assert_eq!(page.matches("aria-current").count(), 1);
    assert!(page.contains(&format!(
        "<option value=\"{ORG_A}\">{ORG_A}</option><option value=\"{ORG_B}\" selected>{ORG_B}</option>"
    )));
    assert!(page.contains("<h1 id=\"portal-title\">Security</h1>"));
    assert!(page.contains("action=\"/app/security\"><label class=\"sidebar__label\""));
    assert!(page.contains(&format!("hx-get=\"/app/fragments/summary?org_id={ORG_B}\"")));
    assert!(page.contains("provider managed"));
    assert!(page.ends_with("</section></main></div></body></html>"));
}

#[test]
fn the_dashboard_shows_the_customer_boundary() {
    let page = customer_page(&config(), &customer(), CustomerTab::Dashboard, &org(ORG_A), "tok")
        .into_string();
    for needle in [
        "Account posture, API access",
        "Supabase Auth",
        "verified",
        "test@fiducia.cloud",
        "API Keys",
        "Supabase-managed",
        "Preferences",
        "operator infrastructure controls live only in the admin app",
    ] {
        assert!(page.contains(needle), "missing {needle}");
    }
    assert!(!page.contains("Config KV"));
    assert!(!page.contains("Service Discovery"));
}

#[test]
fn a_page_is_its_frame_around_its_content() {
    for tab in CustomerTab::all() {
        let content = customer_tab_content(&config(), &customer(), tab, &org(ORG_A), "tok");
        let framed =
            customer_page_with_content(&config(), &customer(), tab, &org(ORG_A), "tok", &content)
                .into_string();
        assert!(framed.contains(&content.into_string()));
        if tab != CustomerTab::ApiKeys {
            let page = customer_page(&config(), &customer(), tab, &org(ORG_A), "tok");
            assert_eq!(page.into_string(), framed);
        }
    }
    assert_eq!(
        dashboard_markup(&config(), &customer(), &org(ORG_A)).into_string(),
        customer_tab_content(&config(), &customer(), CustomerTab::Dashboard, &org(ORG_A), "tok")
            .into_string()
    );
}

#[test]
fn user_text_cannot_break_out_of_a_page() {
    let mut hostile = customer();
    hostile.email = Some("<script>alert(1)</script>".to_string());
    hostile.orgs = vec!["\"><b>".to_string()];
    let page = customer_page_with_content(
        &config(),
        &hostile,
        CustomerTab::Auth,
        &Org { id: "\"><b>".to_string(), query: "\"><b>".to_string() },
        "tok",
        &Markup::verbatim(""),
    )
    .into_string();
    assert!(!page.contains("<script>alert"));
    assert!(!page.contains("\"><b>"));
    assert!(page.contains("<option value=\"&quot;&gt;&lt;b&gt;\" selected>&quot;&gt;&lt;b&gt;</option>"));
}
