//! The customer portal: its pages, tabs and panels.

use crate::auth_pages::{hidden, hidden_field, text_or, text_or_else, DOCTYPE, TAG_CLOSE};
use crate::html::{escaped, Markup};
use crate::tables::{choices, choices_markup, summary_markup, SUMMARY};
use crate::text::{opt_string, same_text, string_views};
use crate::tokens::{is_hyphenated_uuid, random_hyphenated_uuid};
use vstd::prelude::*;

verus! {

/// The tabs of the portal.
#[derive(Clone, Copy, Debug, PartialEq, Eq, Structural)]
pub enum CustomerTab {
    Dashboard,
    Auth,
    ApiKeys,
    Security,
    Activity,
    Notifications,
    Settings,
}

impl CustomerTab {
    /// The tabs in the order in which the portal lists them.
    pub open spec fn listed() -> Seq<CustomerTab> {
        seq![
            CustomerTab::Dashboard,
            CustomerTab::Auth,
            CustomerTab::ApiKeys,
            CustomerTab::Security,
            CustomerTab::Activity,
            CustomerTab::Notifications,
            CustomerTab::Settings,
        ]
    }

    /// The path of each tab.
    pub open spec fn path(self) -> Seq<char> {
        match self {
            CustomerTab::Dashboard => "/app"@,
            CustomerTab::Auth => "/app/auth"@,
            CustomerTab::ApiKeys => "/app/api-keys"@,
            CustomerTab::Security => "/app/security"@,
            CustomerTab::Activity => "/app/activity"@,
            CustomerTab::Notifications => "/app/notifications"@,
            CustomerTab::Settings => "/app/settings"@,
        }
    }

    /// The name of each tab.
    pub open spec fn name(self) -> Seq<char> {
        match self {
            CustomerTab::Dashboard => "Dashboard"@,
            CustomerTab::Auth => "Account"@,
            CustomerTab::ApiKeys => "API Keys"@,
            CustomerTab::Security => "Security"@,
            CustomerTab::Activity => "Activity"@,
            CustomerTab::Notifications => "Notifications"@,
            CustomerTab::Settings => "Settings"@,
        }
    }

    /// The line that says what each tab is for.
    pub open spec fn purpose(self) -> Seq<char> {
        match self {
            CustomerTab::Dashboard =>
                "Account posture, API access, preferences, and customer security in one workspace."@,
            CustomerTab::Auth =>
                "Your Supabase identity, verified organization membership, and isolated customer session."@,
            CustomerTab::ApiKeys =>
                "Create, rotate, scope, and audit customer API keys for production integrations."@,
            CustomerTab::Security =>
                "Two-factor authentication, trusted sessions, recovery, and account protection."@,
            CustomerTab::Activity =>
                "Organization-scoped account and API activity from the durable customer audit log."@,
            CustomerTab::Notifications =>
                "Key-rotation reminders, lock-contention alerts, and account notices delivered to you."@,
            CustomerTab::Settings =>
                "Preferences, notifications, default region, and team-level customer settings."@,
        }
    }

    /// The tabs in the order in which the portal lists them.
    pub fn all() -> (r: [CustomerTab; 7])
        ensures
            r@ == CustomerTab::listed(),
    {
        let tabs = [
            CustomerTab::Dashboard,
            CustomerTab::Auth,
            CustomerTab::ApiKeys,
            CustomerTab::Security,
            CustomerTab::Activity,
            CustomerTab::Notifications,
            CustomerTab::Settings,
        ];
        assert(tabs@ =~= CustomerTab::listed());
        tabs
    }

    /// The path of the tab.
    pub fn href(self) -> (r: &'static str)
        ensures
            r@ == self.path(),
    {
        match self {
            CustomerTab::Dashboard => "/app",
            CustomerTab::Auth => "/app/auth",
            CustomerTab::ApiKeys => "/app/api-keys",
            CustomerTab::Security => "/app/security",
            CustomerTab::Activity => "/app/activity",
            CustomerTab::Notifications => "/app/notifications",
            CustomerTab::Settings => "/app/settings",
        }
    }

    /// The name of the tab.
    pub fn label(self) -> (r: &'static str)
        ensures
            r@ == self.name(),
    {
        match self {
            CustomerTab::Dashboard => "Dashboard",
            CustomerTab::Auth => "Account",
            CustomerTab::ApiKeys => "API Keys",
            CustomerTab::Security => "Security",
            CustomerTab::Activity => "Activity",
            CustomerTab::Notifications => "Notifications",
            CustomerTab::Settings => "Settings",
        }
    }

    /// The line that says what the tab is for.
    pub fn description(self) -> (r: &'static str)
        ensures
            r@ == self.purpose(),
    {
        match self {
            CustomerTab::Dashboard =>
                "Account posture, API access, preferences, and customer security in one workspace.",
            CustomerTab::Auth =>
                "Your Supabase identity, verified organization membership, and isolated customer session.",
            CustomerTab::ApiKeys =>
                "Create, rotate, scope, and audit customer API keys for production integrations.",
            CustomerTab::Security =>
                "Two-factor authentication, trusted sessions, recovery, and account protection.",
            CustomerTab::Activity =>
                "Organization-scoped account and API activity from the durable customer audit log.",
            CustomerTab::Notifications =>
                "Key-rotation reminders, lock-contention alerts, and account notices delivered to you.",
            CustomerTab::Settings =>
                "Preferences, notifications, default region, and team-level customer settings.",
        }
    }
}

/// An organization as pages name it, as text `T`. `orgs::selected_org` makes the two pieces from
/// one identifier.
#[derive(Clone, Debug, PartialEq, Eq)]
pub struct Org<T> {
    pub id: T,
    /// The identifier, encoded for the query of a URL.
    pub query: T,
}

impl View for Org<String> {
    type V = Org<Seq<char>>;

    open spec fn view(&self) -> Org<Seq<char>> {
        Org { id: self.id@, query: self.query@ }
    }
}

/// What the portal shows of its configuration, as text `T`.
#[derive(Clone, Debug, PartialEq, Eq)]
pub struct PortalConfig<T> {
    pub customer_app_host: T,
    pub supabase_url: Option<T>,
    pub supabase_publishable_key: Option<T>,
}

impl View for PortalConfig<String> {
    type V = PortalConfig<Seq<char>>;

    open spec fn view(&self) -> PortalConfig<Seq<char>> {
        PortalConfig {
            customer_app_host: self.customer_app_host@,
            supabase_url: opt_string(self.supabase_url),
            supabase_publishable_key: opt_string(self.supabase_publishable_key),
        }
    }
}

/// A verified customer.
#[derive(Clone, Debug, PartialEq, Eq)]
pub struct CustomerCtx {
    pub user_id: String,
    pub email: Option<String>,
    pub orgs: Vec<String>,
}

/// What is known of a verified customer.
pub struct CustomerView {
    pub user_id: Seq<char>,
    pub email: Option<Seq<char>>,
    pub orgs: Seq<Seq<char>>,
}

impl View for CustomerCtx {
    type V = CustomerView;

    open spec fn view(&self) -> CustomerView {
        CustomerView {
            user_id: self.user_id@,
            email: opt_string(self.email),
            orgs: string_views(self.orgs@),
        }
    }
}

impl CustomerView {
    /// The name under which pages greet the customer: the address, or else the identifier.
    pub open spec fn shown_name(self) -> Seq<char> {
        text_or(self.email, self.user_id)
    }
}

impl CustomerCtx {
    fn display_name(&self) -> (r: &str)
        ensures
            r@ == self@.shown_name(),
    {
        text_or_else(&self.email, self.user_id.as_str())
    }
}

pub const ORG_QUERY: &'static str = "?org_id=";

/// A path for one organization.
pub open spec fn org_path(path: Seq<char>, org: Org<Seq<char>>) -> Seq<char> {
    path + ORG_QUERY@ + org.query
}

fn org_href(path: &str, org: &Org<String>) -> (r: String)
    ensures
        r@ == org_path(path@, org@),
{
    let mut href = path.to_owned();
    href.append(ORG_QUERY);
    href.append(org.query.as_str());
    href
}

/// The path of a tab for one organization.
pub fn customer_tab_href(tab: CustomerTab, org: &Org<String>) -> (r: String)
    ensures
        r@ == org_path(tab.path(), org@),
{
    org_href(tab.href(), org)
}

/// The class of the tag for a status word.
pub open spec fn tag_class(status: Seq<char>) -> Seq<char> {
    if status == "active"@ || status == "configured"@ || status == "enabled"@ || status == "held"@
        || status == "current"@ || status == "healthy"@ || status == "committed"@ || status
        == "linearized"@ || status == "verified"@ {
        "tag tag--ok"@
    } else if status == "limited"@ || status == "missing env"@ || status == "pending"@ || status
        == "renewing"@ || status == "rotating"@ || status == "ttl"@ || status == "redirected"@ {
        "tag tag--warn"@
    } else if status == "blocked"@ || status == "degraded"@ || status == "disabled"@ || status
        == "expired"@ || status == "rejected"@ {
        "tag tag--error"@
    } else {
        "tag tag--info"@
    }
}

/// The class of the tag for a status word.
pub fn status_class(status: &str) -> (r: &'static str)
    ensures
        r@ == tag_class(status@),
{
    if same_text(status, "active") || same_text(status, "configured") || same_text(
        status,
        "enabled",
    ) || same_text(status, "held") || same_text(status, "current") || same_text(status, "healthy")
        || same_text(status, "committed") || same_text(status, "linearized") || same_text(
        status,
        "verified",
    ) {
        "tag tag--ok"
    } else if same_text(status, "limited") || same_text(status, "missing env") || same_text(
        status,
        "pending",
    ) || same_text(status, "renewing") || same_text(status, "rotating") || same_text(status, "ttl")
        || same_text(status, "redirected") {
        "tag tag--warn"
    } else if same_text(status, "blocked") || same_text(status, "degraded") || same_text(
        status,
        "disabled",
    ) || same_text(status, "expired") || same_text(status, "rejected") {
        "tag tag--error"
    } else {
        "tag tag--info"
    }
}

pub const TAG_OPEN: &'static str = "<span class=\"";

pub const SPAN_END: &'static str = "</span>";

/// A status word as a tag.
pub open spec fn tag(status: Seq<char>) -> Seq<char> {
    TAG_OPEN@ + escaped(tag_class(status)) + TAG_CLOSE@ + escaped(status) + SPAN_END@
}

/// A status word as a tag.
pub fn status_tag(status: &str) -> (r: Markup)
    ensures
        r@ == tag(status@),
{
    let mut markup = Markup::verbatim(TAG_OPEN);
    markup.text(status_class(status));
    markup.push(TAG_CLOSE);
    markup.text(status);
    markup.push(SPAN_END);
    markup
}

pub const AUTH_STATUS_OPEN: &'static str = "<section class=\"panel\" aria-labelledby=\"auth-status-heading\">\
    <div class=\"panel__header\"><h2 id=\"auth-status-heading\">Supabase Auth</h2>\
    <span data-auth-status=\"\">verified</span></div><div class=\"panel-body stack\">\
    <div class=\"identity-row\"><div><p class=\"eyebrow\">Customer session</p>\
    <p class=\"identity-row__primary\" data-auth-email=\"\">";

pub const AUTH_STATUS_STATE: &'static str = "</p></div>";

pub const AUTH_STATUS_PROJECT: &'static str = "</div><p class=\"muted\">Project: <span class=\"mono\">";

pub const AUTH_STATUS_LINK: &'static str = "</span></p><div class=\"action-row\"><a class=\"button-link\" href=\"";

pub const AUTH_STATUS_END: &'static str = "\">Account</a></div></div></section>";

impl PortalConfig<Seq<char>> {
    /// Whether Supabase is configured, in the words of its panel.
    pub open spec fn supabase_state(self) -> Seq<char> {
        if self.supabase_url is Some && self.supabase_publishable_key is Some {
            "configured"@
        } else {
            "missing env"@
        }
    }
}

/// The panel on the customer's session.
pub open spec fn auth_status(
    config: PortalConfig<Seq<char>>,
    customer: CustomerView,
    org: Org<Seq<char>>,
) -> Seq<char> {
    AUTH_STATUS_OPEN@ + escaped(customer.shown_name()) + AUTH_STATUS_STATE@ + tag(
        config.supabase_state(),
    ) + AUTH_STATUS_PROJECT@ + escaped(text_or(config.supabase_url, "not configured"@))
        + AUTH_STATUS_LINK@ + escaped(org_path(CustomerTab::Auth.path(), org)) + AUTH_STATUS_END@
}

/// The panel on the customer's session.
pub fn auth_status_panel(
    config: &PortalConfig<String>,
    customer: &CustomerCtx,
    org: &Org<String>,
) -> (r: Markup)
    ensures
        r@ == auth_status(config@, customer@, org@),
{
    let supabase_state = if config.supabase_url.is_some()
        && config.supabase_publishable_key.is_some() {
        "configured"
    } else {
        "missing env"
    };
    let mut panel = Markup::verbatim(AUTH_STATUS_OPEN);
    panel.text(customer.display_name());
    panel.push(AUTH_STATUS_STATE);
    panel.markup(&status_tag(supabase_state));
    panel.push(AUTH_STATUS_PROJECT);
    panel.text(text_or_else(&config.supabase_url, "not configured"));
    panel.push(AUTH_STATUS_LINK);
    panel.text(customer_tab_href(CustomerTab::Auth, org).as_str());
    panel.push(AUTH_STATUS_END);
    panel
}

pub const KEYS_PANEL_OPEN: &'static str = "<section class=\"panel\" aria-labelledby=\"api-key-summary-heading\">\
    <div class=\"panel__header\"><h2 id=\"api-key-summary-heading\">API Keys</h2>\
    <span>Postgres-backed</span></div><div class=\"panel-body stack\">\
    <p class=\"muted\">Issue scoped keys for customer workloads and rotate live keys \
    without downtime.</p><dl class=\"detail-list\"><div><dt>Default scope</dt>\
    <dd>requests:write with idempotency keys</dd></div><div><dt>Rotation</dt>\
    <dd>rotation reports the remaining edge/LB cache overlap</dd></div></dl>\
    <a class=\"button-link\" href=\"";

pub const KEYS_PANEL_END: &'static str = "\">Manage keys</a></div></section>";

pub const SECURITY_PANEL_OPEN: &'static str = "<section class=\"panel\" aria-labelledby=\"security-summary-heading\">\
    <div class=\"panel__header\"><h2 id=\"security-summary-heading\">Security</h2>\
    <span>Supabase-managed</span></div><div class=\"panel-body stack\">\
    <p class=\"muted\">Supabase owns MFA and passkey enrollment; trusted session \
    records are loaded from the customer database.</p><dl class=\"detail-list\"><div>\
    <dt>Identity</dt><dd>verified by fiducia-auth</dd></div><div><dt>Enrollment state</dt>\
    <dd>not guessed by this service</dd></div></dl><a class=\"button-link\" href=\"";

pub const SECURITY_PANEL_END: &'static str = "\">Review security</a></div></section>";

pub const PREFERENCES_PANEL_OPEN: &'static str = "<section class=\"panel\" aria-labelledby=\"preferences-summary-heading\">\
    <div class=\"panel__header\"><h2 id=\"preferences-summary-heading\">Preferences</h2>\
    <span>Postgres-backed</span></div><div class=\"panel-body stack\">\
    <p class=\"muted\">Set default region, alert cadence, timezone, and \
    customer-visible notifications.</p>\
    <p>Values are rendered from the authenticated user's persisted row.</p>\
    <a class=\"button-link\" href=\"";

pub const PREFERENCES_PANEL_END: &'static str = "\">Open settings</a></div></section>";

/// A fixed piece around one link.
pub open spec fn linked(open: Seq<char>, path: Seq<char>, end: Seq<char>) -> Seq<char> {
    open + escaped(path) + end
}

fn linked_markup(open: &str, path: &str, end: &str) -> (r: Markup)
    ensures
        r@ == linked(open@, path@, end@),
{
    let mut markup = Markup::verbatim(open);
    markup.text(path);
    markup.push(end);
    markup
}

/// The panel that leads to the API keys.
pub fn api_key_summary_panel(org: &Org<String>) -> (r: Markup)
    ensures
        r@ == linked(
            KEYS_PANEL_OPEN@,
            org_path(CustomerTab::ApiKeys.path(), org@),
            KEYS_PANEL_END@,
        ),
{
    linked_markup(
        KEYS_PANEL_OPEN,
        customer_tab_href(CustomerTab::ApiKeys, org).as_str(),
        KEYS_PANEL_END,
    )
}

/// The panel that leads to the security tab.
pub fn security_summary_panel(org: &Org<String>) -> (r: Markup)
    ensures
        r@ == linked(
            SECURITY_PANEL_OPEN@,
            org_path(CustomerTab::Security.path(), org@),
            SECURITY_PANEL_END@,
        ),
{
    linked_markup(
        SECURITY_PANEL_OPEN,
        customer_tab_href(CustomerTab::Security, org).as_str(),
        SECURITY_PANEL_END,
    )
}

/// The panel that leads to the settings.
pub fn preferences_summary_panel(org: &Org<String>) -> (r: Markup)
    ensures
        r@ == linked(
            PREFERENCES_PANEL_OPEN@,
            org_path(CustomerTab::Settings.path(), org@),
            PREFERENCES_PANEL_END@,
        ),
{
    linked_markup(
        PREFERENCES_PANEL_OPEN,
        customer_tab_href(CustomerTab::Settings, org).as_str(),
        PREFERENCES_PANEL_END,
    )
}

pub const SUMMARY_PATH: &'static str = "/app/fragments/summary";

pub const DASHBOARD_OPEN: &'static str = "<section id=\"summary\" hx-get=\"";

pub const DASHBOARD_SUMMARY: &'static str = "\" hx-trigger=\"load, every 15s\" hx-swap=\"innerHTML\">";

pub const DASHBOARD_PANELS: &'static str =
    "</section><div class=\"panel-grid panel-grid--dashboard\">";

pub const DASHBOARD_END: &'static str = "</div>";

/// The dashboard.
pub open spec fn dashboard(
    config: PortalConfig<Seq<char>>,
    customer: CustomerView,
    org: Org<Seq<char>>,
) -> Seq<char> {
    DASHBOARD_OPEN@ + escaped(org_path(SUMMARY_PATH@, org)) + DASHBOARD_SUMMARY@ + SUMMARY@
        + DASHBOARD_PANELS@ + auth_status(config, customer, org) + linked(
        KEYS_PANEL_OPEN@,
        org_path(CustomerTab::ApiKeys.path(), org),
        KEYS_PANEL_END@,
    ) + linked(
        SECURITY_PANEL_OPEN@,
        org_path(CustomerTab::Security.path(), org),
        SECURITY_PANEL_END@,
    ) + linked(
        PREFERENCES_PANEL_OPEN@,
        org_path(CustomerTab::Settings.path(), org),
        PREFERENCES_PANEL_END@,
    ) + DASHBOARD_END@
}

/// The dashboard.
pub fn dashboard_markup(
    config: &PortalConfig<String>,
    customer: &CustomerCtx,
    org: &Org<String>,
) -> (r: Markup)
    ensures
        r@ == dashboard(config@, customer@, org@),
{
    let summary_href = org_href(SUMMARY_PATH, org);
    let mut content = Markup::verbatim(DASHBOARD_OPEN);
    content.text(summary_href.as_str());
    content.push(DASHBOARD_SUMMARY);
    content.markup(&summary_markup());
    content.push(DASHBOARD_PANELS);
    content.markup(&auth_status_panel(config, customer, org));
    content.markup(&api_key_summary_panel(org));
    content.markup(&security_summary_panel(org));
    content.markup(&preferences_summary_panel(org));
    content.push(DASHBOARD_END);
    content
}

pub const ACCOUNT_OPEN: &'static str = "<section class=\"panel\" aria-labelledby=\"customer-session-heading\">\
    <div class=\"panel__header\"><h2 id=\"customer-session-heading\">Customer identity</h2>\
    <span class=\"status-pill\" data-status=\"online\">verified</span></div>\
    <div class=\"split-panel\"><div class=\"session-box\"><p class=\"eyebrow\">Supabase user</p>\
    <p class=\"identity-row__primary\">";

pub const ACCOUNT_ORGS: &'static str = "</p><p class=\"muted\">Verified by fiducia-auth on this request.</p></div>\
    <div class=\"session-box\"><p class=\"eyebrow\">Organization membership</p>";

pub const ORG_OPEN: &'static str = "<code>";

pub const ORG_END: &'static str = "</code>";

pub const ACCOUNT_FORM_OPEN: &'static str = "</div></div><form method=\"post\" action=\"/logout\" hx-post=\"/logout\">";

pub const ACCOUNT_END: &'static str = "<button type=\"submit\">Sign out</button></form></section>";

/// The organizations of a customer, one after the other.
pub open spec fn org_codes(orgs: Seq<Seq<char>>) -> Seq<char>
    decreases orgs.len(),
{
    if orgs.len() == 0 {
        Seq::empty()
    } else {
        org_codes(orgs.drop_last()) + (ORG_OPEN@ + escaped(orgs.last()) + ORG_END@)
    }
}

/// The account tab.
pub open spec fn account(customer: CustomerView, csrf_token: Seq<char>) -> Seq<char> {
    ACCOUNT_OPEN@ + escaped(customer.shown_name()) + ACCOUNT_ORGS@ + org_codes(customer.orgs)
        + ACCOUNT_FORM_OPEN@ + hidden("csrf_token"@, csrf_token) + ACCOUNT_END@
}

fn org_codes_markup(orgs: &[String]) -> (r: Markup)
    ensures
        r@ == org_codes(string_views(orgs@)),
{
    let ghost views = string_views(orgs@);
    let mut codes = Markup::empty();
    let mut i: usize = 0;
    while i < orgs.len()
        invariant
            i <= orgs.len(),
            views == string_views(orgs@),
            codes@ == org_codes(views.take(i as int)),
        decreases orgs.len() - i,
    {
        let ghost next = views.take(i + 1);
        assert(next.drop_last() =~= views.take(i as int));
        let mut code = Markup::verbatim(ORG_OPEN);
        code.text(orgs[i].as_str());
        code.push(ORG_END);
        codes.markup(&code);
        i += 1;
    }
    assert(views.take(i as int) =~= views);
    codes
}

/// The account tab: who the customer is, the organizations, and the way to sign out.
pub fn auth_markup(customer: &CustomerCtx, csrf_token: &str) -> (r: Markup)
    ensures
        r@ == account(customer@, csrf_token@),
{
    let mut content = Markup::verbatim(ACCOUNT_OPEN);
    content.text(customer.display_name());
    content.push(ACCOUNT_ORGS);
    content.markup(&org_codes_markup(customer.orgs.as_slice()));
    content.push(ACCOUNT_FORM_OPEN);
    content.markup(&hidden_field("csrf_token", csrf_token));
    content.push(ACCOUNT_END);
    content
}

pub const KEYS_PATH: &'static str = "/app/fragments/api-keys";

pub const KEYS_OPEN: &'static str = "<section class=\"panel\" aria-labelledby=\"create-api-key-heading\">\
    <div class=\"panel__header\"><h2 id=\"create-api-key-heading\">Create API key</h2>\
    <span>customer scoped</span></div>\
    <form class=\"form-grid form-grid--inline\" method=\"post\" action=\"/app/api-keys\" \
    hx-post=\"/app/api-keys\" hx-target=\"#api-key-results\" hx-swap=\"innerHTML\">";

pub const KEYS_FIELDS: &'static str = "<label><span>Name</span>\
    <input type=\"text\" name=\"name\" placeholder=\"Production checkout\" required></label>\
    <label><span>Environment</span><select name=\"environment\"><option value=\"live\">Live\
    </option><option value=\"test\">Test</option></select></label><label><span>Scopes</span>\
    <select name=\"scope\"><option value=\"requests:read\">requests:read</option>\
    <option value=\"requests:write\">requests:write</option>\
    <option value=\"locks:read\">locks:read</option><option value=\"locks:write\">locks:write\
    </option><option value=\"kv:read\">kv:read</option><option value=\"kv:write\">kv:write\
    </option><option value=\"services:read\">services:read</option>\
    <option value=\"services:write\">services:write</option>\
    <option value=\"elections:read\">elections:read</option>\
    <option value=\"elections:write\">elections:write</option>\
    <option value=\"cron:read\">cron:read</option><option value=\"cron:write\">cron:write\
    </option><option value=\"rate-limit:read\">rate-limit:read</option>\
    <option value=\"rate-limit:write\">rate-limit:write</option></select></label>\
    <button type=\"submit\">Create key</button></form></section>\
    <div id=\"api-key-results\" hx-get=\"";

pub const KEYS_END: &'static str = "\" hx-trigger=\"load\" hx-swap=\"innerHTML\"><p class=\"muted\">Loading customer API keys…\
    </p></div>";

/// The tab for API keys; the form carries an idempotency key.
pub open spec fn api_keys(
    org: Org<Seq<char>>,
    csrf_token: Seq<char>,
    idempotency_key: Seq<char>,
) -> Seq<char> {
    KEYS_OPEN@ + hidden("csrf_token"@, csrf_token) + hidden("org_id"@, org.id) + hidden(
        "idempotency_key"@,
        idempotency_key,
    ) + KEYS_FIELDS@ + escaped(org_path(KEYS_PATH@, org)) + KEYS_END@
}

/// The tab for API keys with a given idempotency key in its form.
pub fn api_keys_markup_with_key(
    org: &Org<String>,
    csrf_token: &str,
    idempotency_key: &str,
) -> (r: Markup)
    ensures
        r@ == api_keys(org@, csrf_token@, idempotency_key@),
{
    let fragment_href = org_href(KEYS_PATH, org);
    let mut content = Markup::verbatim(KEYS_OPEN);
    content.markup(&hidden_field("csrf_token", csrf_token));
    content.markup(&hidden_field("org_id", org.id.as_str()));
    content.markup(&hidden_field("idempotency_key", idempotency_key));
    content.push(KEYS_FIELDS);
    content.text(fragment_href.as_str());
    content.push(KEYS_END);
    content
}

/// The tab for API keys with a fresh random idempotency key in its form. Which key it is, is
/// left to chance.
pub fn api_keys_markup(org: &Org<String>, csrf_token: &str) -> (r: Markup)
    ensures
        exists|key: Seq<char>|
            is_hyphenated_uuid(key) && r@ == #[trigger] api_keys(org@, csrf_token@, key),
{
    let idempotency_key = random_hyphenated_uuid();
    api_keys_markup_with_key(org, csrf_token, idempotency_key.as_str())
}

pub const SESSIONS_PATH: &'static str = "/app/fragments/security-sessions";

pub const SECURITY_OPEN: &'static str = "<section class=\"panel\" aria-labelledby=\"auth-security-heading\">\
    <div class=\"panel__header\"><h2 id=\"auth-security-heading\">Supabase account security</h2>\
    <span>provider managed</span></div>\
    <p class=\"muted\">MFA and passkeys are managed by Supabase Auth. This \
    application does not display guessed enrollment state; production-key policy \
    will only claim enforcement after fiducia-auth exposes a verified assurance level.</p>\
    </section><div id=\"security-sessions\" hx-get=\"";

pub const SECURITY_END: &'static str = "\" hx-trigger=\"load\" hx-swap=\"innerHTML\"><p class=\"muted\">Loading trusted sessions…\
    </p></div>";

/// The security tab.
pub fn security_markup(org: &Org<String>) -> (r: Markup)
    ensures
        r@ == linked(SECURITY_OPEN@, org_path(SESSIONS_PATH@, org@), SECURITY_END@),
{
    linked_markup(SECURITY_OPEN, org_href(SESSIONS_PATH, org).as_str(), SECURITY_END)
}

pub const ACTIVITY_PATH: &'static str = "/app/fragments/activity";

pub const ACTIVITY_TAB_OPEN: &'static str = "<section class=\"panel\" aria-labelledby=\"activity-heading\"><div class=\"panel__header\">\
    <h2 id=\"activity-heading\">Organization activity</h2><span>audit log</span></div>\
    <p class=\"muted\">Only records for the organization selected from your verified \
    Supabase membership are shown. Network addresses, user agents, and internal \
    audit metadata are never exposed here.</p></section><div id=\"customer-activity\" hx-get=\"";

pub const ACTIVITY_TAB_END: &'static str = "\" hx-trigger=\"load\" hx-swap=\"innerHTML\">\
    <p class=\"muted\">Loading organization activity…</p></div>";

/// The activity tab.
pub fn activity_markup(org: &Org<String>) -> (r: Markup)
    ensures
        r@ == linked(ACTIVITY_TAB_OPEN@, org_path(ACTIVITY_PATH@, org@), ACTIVITY_TAB_END@),
{
    linked_markup(ACTIVITY_TAB_OPEN, org_href(ACTIVITY_PATH, org).as_str(), ACTIVITY_TAB_END)
}

pub const NOTIFICATIONS_PATH: &'static str = "/app/fragments/notifications";

pub const NOTIFICATIONS_OPEN: &'static str = "<section class=\"panel\" aria-labelledby=\"notifications-heading\">\
    <div class=\"panel__header\"><h2 id=\"notifications-heading\">Your notifications</h2>\
    <span>account feed</span></div>\
    <p class=\"muted\">Key-rotation reminders, lock-contention alerts, MFA nudges, \
    and operator notices delivered to your account. Delivery preferences live under Settings.\
    </p></section><div id=\"customer-notifications\" hx-get=\"";

pub const NOTIFICATIONS_END: &'static str = "\" hx-trigger=\"load\" hx-swap=\"innerHTML\"><p class=\"muted\">Loading notifications…</p>\
    </div>";

/// The notifications tab.
pub fn notifications_markup(org: &Org<String>) -> (r: Markup)
    ensures
        r@ == linked(
            NOTIFICATIONS_OPEN@,
            org_path(NOTIFICATIONS_PATH@, org@),
            NOTIFICATIONS_END@,
        ),
{
    linked_markup(
        NOTIFICATIONS_OPEN,
        org_href(NOTIFICATIONS_PATH, org).as_str(),
        NOTIFICATIONS_END,
    )
}

pub const PREFERENCES_PATH: &'static str = "/app/fragments/preferences";

pub const SETTINGS_OPEN: &'static str = "<div id=\"customer-preferences\" hx-get=\"";

pub const SETTINGS_END: &'static str = "\" hx-trigger=\"load\" hx-swap=\"innerHTML\">\
    <p class=\"muted\">Loading persisted preferences…</p></div>";

/// The settings tab.
pub fn settings_markup(org: &Org<String>) -> (r: Markup)
    ensures
        r@ == linked(SETTINGS_OPEN@, org_path(PREFERENCES_PATH@, org@), SETTINGS_END@),
{
    linked_markup(SETTINGS_OPEN, org_href(PREFERENCES_PATH, org).as_str(), SETTINGS_END)
}

/// What a tab shows; an idempotency key is used in the tab for API keys only.
pub open spec fn tab_content(
    config: PortalConfig<Seq<char>>,
    customer: CustomerView,
    active: CustomerTab,
    org: Org<Seq<char>>,
    csrf_token: Seq<char>,
    idempotency_key: Seq<char>,
) -> Seq<char> {
    match active {
        CustomerTab::Dashboard => dashboard(config, customer, org),
        CustomerTab::Auth => account(customer, csrf_token),
        CustomerTab::ApiKeys => api_keys(org, csrf_token, idempotency_key),
        CustomerTab::Security => linked(
            SECURITY_OPEN@,
            org_path(SESSIONS_PATH@, org),
            SECURITY_END@,
        ),
        CustomerTab::Activity => linked(
            ACTIVITY_TAB_OPEN@,
            org_path(ACTIVITY_PATH@, org),
            ACTIVITY_TAB_END@,
        ),
        CustomerTab::Notifications => linked(
            NOTIFICATIONS_OPEN@,
            org_path(NOTIFICATIONS_PATH@, org),
            NOTIFICATIONS_END@,
        ),
        CustomerTab::Settings => linked(
            SETTINGS_OPEN@,
            org_path(PREFERENCES_PATH@, org),
            SETTINGS_END@,
        ),
    }
}

/// What a tab shows. The tab for API keys has a fresh random idempotency key in its form.
pub fn customer_tab_content(
    config: &PortalConfig<String>,
    customer: &CustomerCtx,
    active: CustomerTab,
    org: &Org<String>,
    csrf_token: &str,
) -> (r: Markup)
    ensures
        active != CustomerTab::ApiKeys ==> forall|key: Seq<char>|
            r@ == #[trigger] tab_content(config@, customer@, active, org@, csrf_token@, key),
        exists|key: Seq<char>|
            is_hyphenated_uuid(key) && r@ == #[trigger] tab_content(
                config@,
                customer@,
                active,
                org@,
                csrf_token@,
                key,
            ),
{
    let content = match active {
        CustomerTab::Dashboard => dashboard_markup(config, customer, org),
        CustomerTab::Auth => auth_markup(customer, csrf_token),
        CustomerTab::ApiKeys => api_keys_markup(org, csrf_token),
        CustomerTab::Security => security_markup(org),
        CustomerTab::Activity => activity_markup(org),
        CustomerTab::Notifications => notifications_markup(org),
        CustomerTab::Settings => settings_markup(org),
    };
    proof {
        let key = if active == CustomerTab::ApiKeys {
            choose|key: Seq<char>|
                is_hyphenated_uuid(key) && content@ == #[trigger] api_keys(org@, csrf_token@, key)
        } else {
            some_uuid()
        };
        assert(content@ == tab_content(config@, customer@, active, org@, csrf_token@, key));
    }
    content
}

proof fn some_uuid() -> (key: Seq<char>)
    ensures
        is_hyphenated_uuid(key),
{
    Seq::new(
        36,
        |i: int|
            if i == 8 || i == 13 || i == 18 || i == 23 {
                '-'
            } else if i == 19 {
                '8'
            } else {
                '4'
            },
    )
}

pub const PAGE_OPEN: &'static str = "<html lang=\"en\"><head><meta charset=\"utf-8\">\
    <meta name=\"viewport\" content=\"width=device-width, initial-scale=1\">\
    <meta name=\"fiducia-customer-csrf\" content=\"";

pub const PAGE_HEADER: &'static str = "\"><title>Fiducia Customer Portal</title>\
    <link rel=\"stylesheet\" href=\"/assets/customer.css\">\
    <script src=\"/assets/htmx.min.js\" defer></script></head><body><div class=\"app-shell\">\
    <header class=\"topbar\"><div class=\"brand\"><div class=\"brand__mark\">F</div>\
    <div class=\"brand__text\"><div class=\"brand__name\">Fiducia Customer Portal</div>\
    <div class=\"brand__subdomain\">";

pub const PAGE_CUSTOMER: &'static str = "</div></div></div><div class=\"topbar__status\">\
    <span class=\"status-pill\" data-status=\"online\">verified</span>\
    <span class=\"status-pill\">";

pub const PAGE_LOGOUT: &'static str = "</span><form method=\"post\" action=\"/logout\">";

pub const PAGE_NAV: &'static str = "<button type=\"submit\">Sign out</button></form></div></header><main class=\"workspace\">\
    <aside class=\"sidebar\"><section class=\"sidebar__section\">\
    <p class=\"sidebar__label\">Workspace</p><nav class=\"nav\" aria-label=\"Customer portal\">";

pub const NAV_OPEN: &'static str = "<a href=\"";

pub const NAV_CURRENT: &'static str = "\" aria-current=\"page\"><span>";

pub const NAV_OTHER: &'static str = "\"><span>";

pub const NAV_END: &'static str = "</span></a>";

pub const PAGE_ORGS: &'static str = "</nav></section><section class=\"sidebar__section\">\
    <form class=\"region-select\" method=\"get\" action=\"";

pub const PAGE_ORG_CHOICES: &'static str = "\"><label class=\"sidebar__label\" for=\"customer-org\">Organization</label>\
    <select id=\"customer-org\" name=\"org_id\">";

pub const PAGE_HEADING: &'static str = "</select><button type=\"submit\">Switch</button></form></section></aside>\
    <section class=\"workspace__main\" aria-labelledby=\"portal-title\">\
    <div class=\"page-heading\"><div><h1 id=\"portal-title\">";

pub const PAGE_PURPOSE: &'static str = "</h1><p>";

pub const PAGE_TOOLBAR: &'static str = "</p></div><div class=\"toolbar\"><button type=\"button\" hx-get=\"";

pub const PAGE_NEW_KEY: &'static str = "\" hx-target=\"#summary\" hx-swap=\"innerHTML\">Refresh</button><a href=\"";

pub const PAGE_CONTENT: &'static str = "\">New API key</a><a href=\"/api/info\">API info</a></div></div>";

pub const PAGE_END: &'static str = "</section></main></div></body></html>";

/// The link to a tab.
pub open spec fn tab_link(
    tab: CustomerTab,
    active: CustomerTab,
    org: Org<Seq<char>>,
) -> Seq<char> {
    NAV_OPEN@ + escaped(org_path(tab.path(), org)) + (if tab == active {
        NAV_CURRENT@
    } else {
        NAV_OTHER@
    }) + escaped(tab.name()) + NAV_END@
}

/// The links to some tabs, one after the other.
pub open spec fn tab_links(
    tabs: Seq<CustomerTab>,
    active: CustomerTab,
    org: Org<Seq<char>>,
) -> Seq<char>
    decreases tabs.len(),
{
    if tabs.len() == 0 {
        Seq::empty()
    } else {
        tab_links(tabs.drop_last(), active, org) + tab_link(tabs.last(), active, org)
    }
}

/// A portal page around the content of its tab.
pub open spec fn portal_page(
    config: PortalConfig<Seq<char>>,
    customer: CustomerView,
    active: CustomerTab,
    org: Org<Seq<char>>,
    csrf_token: Seq<char>,
    content: Seq<char>,
) -> Seq<char> {
    DOCTYPE@ + PAGE_OPEN@ + escaped(csrf_token) + PAGE_HEADER@ + escaped(config.customer_app_host)
        + PAGE_CUSTOMER@ + escaped(customer.shown_name()) + PAGE_LOGOUT@ + hidden(
        "csrf_token"@,
        csrf_token,
    ) + PAGE_NAV@ + tab_links(CustomerTab::listed(), active, org) + PAGE_ORGS@ + escaped(
        active.path(),
    ) + PAGE_ORG_CHOICES@ + choices(customer.orgs, org.id) + PAGE_HEADING@ + escaped(active.name())
        + PAGE_PURPOSE@ + escaped(active.purpose()) + PAGE_TOOLBAR@ + escaped(
        org_path(SUMMARY_PATH@, org),
    ) + PAGE_NEW_KEY@ + escaped(org_path(CustomerTab::ApiKeys.path(), org)) + PAGE_CONTENT@
        + content + PAGE_END@
}

fn tab_links_markup(active: CustomerTab, org: &Org<String>) -> (r: Markup)
    ensures
        r@ == tab_links(CustomerTab::listed(), active, org@),
{
    let tabs = CustomerTab::all();
    let ghost listed = CustomerTab::listed();
    let mut links = Markup::empty();
    let mut i: usize = 0;
    while i < 7
        invariant
            i <= 7,
            tabs@ == listed,
            listed.len() == 7,
            links@ == tab_links(listed.take(i as int), active, org@),
        decreases 7 - i,
    {
        let ghost next = listed.take(i + 1);
        assert(next.drop_last() =~= listed.take(i as int));
        let tab = tabs[i];
        let href = customer_tab_href(tab, org);
        let mut link = Markup::verbatim(NAV_OPEN);
        link.text(href.as_str());
        link.push(if tab == active {
            NAV_CURRENT
        } else {
            NAV_OTHER
        });
        link.text(tab.label());
        link.push(NAV_END);
        links.markup(&link);
        i += 1;
    }
    assert(listed.take(i as int) =~= listed);
    links
}

/// A portal page around given content.
pub fn customer_page_with_content(
    config: &PortalConfig<String>,
    customer: &CustomerCtx,
    active: CustomerTab,
    org: &Org<String>,
    csrf_token: &str,
    content: &Markup,
) -> (r: Markup)
    ensures
        r@ == portal_page(config@, customer@, active, org@, csrf_token@, content@),
{
    let summary_href = org_href(SUMMARY_PATH, org);
    let api_keys_href = customer_tab_href(CustomerTab::ApiKeys, org);
    let mut page = Markup::verbatim(DOCTYPE);
    page.push(PAGE_OPEN);
    page.text(csrf_token);
    page.push(PAGE_HEADER);
    page.text(config.customer_app_host.as_str());
    page.push(PAGE_CUSTOMER);
    page.text(customer.display_name());
    page.push(PAGE_LOGOUT);
    page.markup(&hidden_field("csrf_token", csrf_token));
    page.push(PAGE_NAV);
    page.markup(&tab_links_markup(active, org));
    page.push(PAGE_ORGS);
    page.text(active.href());
    page.push(PAGE_ORG_CHOICES);
    page.markup(&choices_markup(customer.orgs.as_slice(), org.id.as_str()));
    page.push(PAGE_HEADING);
    page.text(active.label());
    page.push(PAGE_PURPOSE);
    page.text(active.description());
    page.push(PAGE_TOOLBAR);
    page.text(summary_href.as_str());
    page.push(PAGE_NEW_KEY);
    page.text(api_keys_href.as_str());
    page.push(PAGE_CONTENT);
    page.markup(content);
    page.push(PAGE_END);
    page
}

/// The portal page of a tab.
pub fn customer_page(
    config: &PortalConfig<String>,
    customer: &CustomerCtx,
    active: CustomerTab,
    org: &Org<String>,
    csrf_token: &str,
) -> (r: Markup)
    ensures
        active != CustomerTab::ApiKeys ==> forall|key: Seq<char>|
            r@ == portal_page(
                config@,
                customer@,
                active,
                org@,
                csrf_token@,
                #[trigger] tab_content(config@, customer@, active, org@, csrf_token@, key),
            ),
        exists|key: Seq<char>|
            is_hyphenated_uuid(key) && r@ == portal_page(
                config@,
                customer@,
                active,
                org@,
                csrf_token@,
                #[trigger] tab_content(config@, customer@, active, org@, csrf_token@, key),
            ),
{
    let content = customer_tab_content(config, customer, active, org, csrf_token);
    customer_page_with_content(config, customer, active, org, csrf_token, &content)
}

/// The portal lists every tab exactly once.
pub proof fn law_every_tab_is_listed_once(tab: CustomerTab)
    ensures
        CustomerTab::listed().contains(tab),
        CustomerTab::listed().no_duplicates(),
{
    let tabs = CustomerTab::listed();
    let i: int = match tab {
        CustomerTab::Dashboard => 0,
        CustomerTab::Auth => 1,
        CustomerTab::ApiKeys => 2,
        CustomerTab::Security => 3,
        CustomerTab::Activity => 4,
        CustomerTab::Notifications => 5,
        CustomerTab::Settings => 6,
    };
    assert(tabs[i] == tab);
}

/// Different tabs have different paths.
pub proof fn law_tabs_have_their_own_paths(a: CustomerTab, b: CustomerTab)
    requires
        a.path() == b.path(),
    ensures
        a == b,
{
    reveal_strlit("/app");
    reveal_strlit("/app/auth");
    reveal_strlit("/app/api-keys");
    reveal_strlit("/app/security");
    reveal_strlit("/app/activity");
    reveal_strlit("/app/notifications");
    reveal_strlit("/app/settings");
    assert("/app/api-keys"@[5] == 'a' && "/app/api-keys"@[6] == 'p');
    assert("/app/activity"@[5] == 'a' && "/app/activity"@[6] == 'c');
    assert("/app/security"@[5] == 's' && "/app/security"@[6] == 'e' && "/app/security"@[7] == 'c');
    assert("/app/settings"@[5] == 's' && "/app/settings"@[7] == 't');
    assert("/app"@.len() == 4 && "/app/auth"@.len() == 9 && "/app/notifications"@.len() == 18);
    assert("/app/api-keys"@.len() == 13 && "/app/activity"@.len() == 13);
    assert("/app/security"@.len() == 13 && "/app/settings"@.len() == 13);
    if a != b {
        assert(a.path().len() != b.path().len() || a.path()[5] != b.path()[5] || a.path()[6]
            != b.path()[6] || a.path()[7] != b.path()[7]);
    }
}

} // verus!
