//! What the pages of the customer portal show, whatever the values that they show.

use crate::auth_pages::{hidden, text_or, DOCTYPE};
use crate::html::escaped;
use crate::page_laws::{alike_in_five, alike_in_four, alike_in_one, alike_in_two, lemma_regrouped};
use crate::portal::{
    account, api_keys, auth_status, dashboard, linked, org_codes, org_path, portal_page,
    tab_content, tab_link, tab_links, tag, tag_class, CustomerTab, CustomerView, Org, PortalConfig,
    ACCOUNT_END, ACCOUNT_FORM_OPEN, ACCOUNT_OPEN, ACCOUNT_ORGS, ACTIVITY_TAB_END,
    ACTIVITY_TAB_OPEN, AUTH_STATUS_END, AUTH_STATUS_LINK, AUTH_STATUS_OPEN, AUTH_STATUS_PROJECT,
    AUTH_STATUS_STATE, DASHBOARD_END, DASHBOARD_OPEN, DASHBOARD_PANELS, DASHBOARD_SUMMARY,
    KEYS_END, KEYS_FIELDS, KEYS_OPEN, KEYS_PANEL_END, KEYS_PANEL_OPEN, KEYS_PATH,
    NOTIFICATIONS_END, NOTIFICATIONS_OPEN, ORG_END, ORG_OPEN, PAGE_CONTENT, PAGE_CUSTOMER,
    PAGE_END, PAGE_HEADER, PAGE_HEADING, PAGE_LOGOUT, PAGE_NAV, PAGE_NEW_KEY, PAGE_OPEN, PAGE_ORGS,
    PAGE_ORG_CHOICES, PAGE_PURPOSE, PAGE_TOOLBAR, PREFERENCES_PANEL_END, PREFERENCES_PANEL_OPEN,
    SECURITY_END, SECURITY_OPEN, SECURITY_PANEL_END, SECURITY_PANEL_OPEN, SETTINGS_END,
    SETTINGS_OPEN, SUMMARY_PATH,
};
use crate::tables::{choices, SUMMARY};
use vstd::prelude::*;

verus! {

/// The tabs have these names and paths, and stand in this order.
pub proof fn law_tabs_have_their_names_and_paths()
    ensures
        CustomerTab::listed().map_values(|tab: CustomerTab| tab.name()) =~= seq![
            "Dashboard"@,
            "Account"@,
            "API Keys"@,
            "Security"@,
            "Activity"@,
            "Notifications"@,
            "Settings"@,
        ],
        CustomerTab::listed().map_values(|tab: CustomerTab| tab.path()) =~= seq![
            "/app"@,
            "/app/auth"@,
            "/app/api-keys"@,
            "/app/security"@,
            "/app/activity"@,
            "/app/notifications"@,
            "/app/settings"@,
        ],
        CustomerTab::listed() == seq![
            CustomerTab::Dashboard,
            CustomerTab::Auth,
            CustomerTab::ApiKeys,
            CustomerTab::Security,
            CustomerTab::Activity,
            CustomerTab::Notifications,
            CustomerTab::Settings,
        ],
{
}

/// A customer is shown by the address where there is one, and by the identifier otherwise.
pub proof fn law_customers_are_shown_by_address(customer: CustomerView)
    ensures
        customer.email is Some ==> customer.shown_name() == customer.email->0,
        customer.email is None ==> customer.shown_name() == customer.user_id,
{
}

/// A path for an organization is the path with the organization's query value behind it.
pub proof fn law_paths_name_the_organization(path: Seq<char>, id: Seq<char>, query: Seq<char>)
    ensures
        org_path(path, Org { id: id, query: query }) == path + "?org_id="@ + query,
{
}

/// The words for a good state.
pub open spec fn good_states() -> Seq<Seq<char>> {
    seq![
        "active"@,
        "configured"@,
        "enabled"@,
        "held"@,
        "current"@,
        "healthy"@,
        "committed"@,
        "linearized"@,
        "verified"@,
    ]
}

/// The words for a state that wants attention.
pub open spec fn passing_states() -> Seq<Seq<char>> {
    seq![
        "limited"@,
        "missing env"@,
        "pending"@,
        "renewing"@,
        "rotating"@,
        "ttl"@,
        "redirected"@,
    ]
}

/// The words for a bad state.
pub open spec fn bad_states() -> Seq<Seq<char>> {
    seq!["blocked"@, "degraded"@, "disabled"@, "expired"@, "rejected"@]
}

/// Each state has the class of its kind, and any other state is merely shown.
pub proof fn law_states_have_the_class_of_their_kind(status: Seq<char>)
    ensures
        good_states().contains(status) ==> tag_class(status) == "tag tag--ok"@,
        passing_states().contains(status) ==> tag_class(status) == "tag tag--warn"@,
        bad_states().contains(status) ==> tag_class(status) == "tag tag--error"@,
        !good_states().contains(status) && !passing_states().contains(status)
            && !bad_states().contains(status) ==> tag_class(status) == "tag tag--info"@,
{
    lemma_states_differ(status);
    let good = good_states();
    let passing = passing_states();
    let bad = bad_states();
    assert(good.len() == 9 && passing.len() == 7 && bad.len() == 5);
    assert(good[0] == "active"@ && good[1] == "configured"@ && good[2] == "enabled"@ && good[3]
        == "held"@ && good[4] == "current"@ && good[5] == "healthy"@ && good[6] == "committed"@
        && good[7] == "linearized"@ && good[8] == "verified"@);
    assert(passing[0] == "limited"@ && passing[1] == "missing env"@ && passing[2] == "pending"@
        && passing[3] == "renewing"@ && passing[4] == "rotating"@ && passing[5] == "ttl"@
        && passing[6] == "redirected"@);
    assert(bad[0] == "blocked"@ && bad[1] == "degraded"@ && bad[2] == "disabled"@ && bad[3]
        == "expired"@ && bad[4] == "rejected"@);
}

/// A tag has the class of its state and shows the state, whatever it is.
pub proof fn law_tags_show_their_state(status: Seq<char>)
    ensures
        tag(status) == "<span class=\""@ + escaped(tag_class(status)) + "\">"@ + escaped(status)
            + "</span>"@,
{
}

/// The identity provider is configured where both of its settings are there.
pub proof fn law_both_settings_are_needed(config: PortalConfig<Seq<char>>)
    ensures
        config.supabase_state() == "configured"@ <==> config.supabase_url is Some
            && config.supabase_publishable_key is Some,
        config.supabase_state() == "missing env"@ <==> config.supabase_url is None
            || config.supabase_publishable_key is None,
{
    reveal_strlit("configured");
    reveal_strlit("missing env");
    assert("configured"@.len() != "missing env"@.len());
}

proof fn lemma_states_differ(status: Seq<char>)
    ensures
        (status == "limited"@ || status == "missing env"@ || status == "pending"@ ||
            status == "renewing"@ || status == "rotating"@ || status == "ttl"@ ||
            status == "redirected"@) ==> (
            status != "active"@ && status != "configured"@ && status != "enabled"@
            && status != "held"@ && status != "current"@ && status != "healthy"@
            && status != "committed"@ && status != "linearized"@ && status != "verified"@),
        (status == "blocked"@ || status == "degraded"@ || status == "disabled"@ ||
            status == "expired"@ || status == "rejected"@) ==> (
            status != "active"@ && status != "configured"@ && status != "enabled"@
            && status != "held"@ && status != "current"@ && status != "healthy"@
            && status != "committed"@ && status != "linearized"@ && status != "verified"@
            && status != "limited"@ && status != "missing env"@ && status != "pending"@
            && status != "renewing"@ && status != "rotating"@ && status != "ttl"@
            && status != "redirected"@),
{
    reveal_strlit("active");
    reveal_strlit("configured");
    reveal_strlit("enabled");
    reveal_strlit("held");
    reveal_strlit("current");
    reveal_strlit("healthy");
    reveal_strlit("committed");
    reveal_strlit("linearized");
    reveal_strlit("verified");
    reveal_strlit("limited");
    reveal_strlit("missing env");
    reveal_strlit("pending");
    reveal_strlit("renewing");
    reveal_strlit("rotating");
    reveal_strlit("ttl");
    reveal_strlit("redirected");
    reveal_strlit("blocked");
    reveal_strlit("degraded");
    reveal_strlit("disabled");
    reveal_strlit("expired");
    reveal_strlit("rejected");
    assert("active"@.len() == 6 && "active"@[0] == 'a' && "active"@[1] == 'c'
        && "active"@[2] == 't');
    assert("configured"@.len() == 10 && "configured"@[0] == 'c' && "configured"@[1] == 'o'
        && "configured"@[2] == 'n');
    assert("enabled"@.len() == 7 && "enabled"@[0] == 'e' && "enabled"@[1] == 'n'
        && "enabled"@[2] == 'a');
    assert("held"@.len() == 4 && "held"@[0] == 'h' && "held"@[1] == 'e' && "held"@[2] == 'l');
    assert("current"@.len() == 7 && "current"@[0] == 'c' && "current"@[1] == 'u'
        && "current"@[2] == 'r');
    assert("healthy"@.len() == 7 && "healthy"@[0] == 'h' && "healthy"@[1] == 'e'
        && "healthy"@[2] == 'a');
    assert("committed"@.len() == 9 && "committed"@[0] == 'c' && "committed"@[1] == 'o'
        && "committed"@[2] == 'm');
    assert("linearized"@.len() == 10 && "linearized"@[0] == 'l' && "linearized"@[1] == 'i'
        && "linearized"@[2] == 'n');
    assert("verified"@.len() == 8 && "verified"@[0] == 'v' && "verified"@[1] == 'e'
        && "verified"@[2] == 'r');
    assert("limited"@.len() == 7 && "limited"@[0] == 'l' && "limited"@[1] == 'i'
        && "limited"@[2] == 'm');
    assert("missing env"@.len() == 11 && "missing env"@[0] == 'm' && "missing env"@[1] == 'i'
        && "missing env"@[2] == 's');
    assert("pending"@.len() == 7 && "pending"@[0] == 'p' && "pending"@[1] == 'e'
        && "pending"@[2] == 'n');
    assert("renewing"@.len() == 8 && "renewing"@[0] == 'r' && "renewing"@[1] == 'e'
        && "renewing"@[2] == 'n');
    assert("rotating"@.len() == 8 && "rotating"@[0] == 'r' && "rotating"@[1] == 'o'
        && "rotating"@[2] == 't');
    assert("ttl"@.len() == 3 && "ttl"@[0] == 't' && "ttl"@[1] == 't' && "ttl"@[2] == 'l');
    assert("redirected"@.len() == 10 && "redirected"@[0] == 'r' && "redirected"@[1] == 'e'
        && "redirected"@[2] == 'd');
    assert("blocked"@.len() == 7 && "blocked"@[0] == 'b' && "blocked"@[1] == 'l'
        && "blocked"@[2] == 'o');
    assert("degraded"@.len() == 8 && "degraded"@[0] == 'd' && "degraded"@[1] == 'e'
        && "degraded"@[2] == 'g');
    assert("disabled"@.len() == 8 && "disabled"@[0] == 'd' && "disabled"@[1] == 'i'
        && "disabled"@[2] == 's');
    assert("expired"@.len() == 7 && "expired"@[0] == 'e' && "expired"@[1] == 'x'
        && "expired"@[2] == 'p');
    assert("rejected"@.len() == 8 && "rejected"@[0] == 'r' && "rejected"@[1] == 'e'
        && "rejected"@[2] == 'j');
}

/// The panel of the account shows the customer, whether the identity provider is configured and
/// at which project, and has the link to the account. It is otherwise the same.
pub proof fn law_auth_panel_shows_customer_state_and_project(
    config: PortalConfig<Seq<char>>,
    customer: CustomerView,
    org: Org<Seq<char>>,
    other: PortalConfig<Seq<char>>,
    other_customer: CustomerView,
    other_org: Org<Seq<char>>,
)
    ensures
        alike_in_one(
            auth_status(config, customer, org),
            AUTH_STATUS_OPEN@ + escaped(customer.shown_name()) + AUTH_STATUS_STATE@,
            auth_status(config, other_customer, org),
            AUTH_STATUS_OPEN@ + escaped(other_customer.shown_name()) + AUTH_STATUS_STATE@,
        ),
        alike_in_two(
            auth_status(config, customer, org),
            AUTH_STATUS_STATE@ + tag(config.supabase_state()),
            AUTH_STATUS_PROJECT@ + escaped(text_or(config.supabase_url, "not configured"@))
                + AUTH_STATUS_LINK@,
            auth_status(other, customer, org),
            AUTH_STATUS_STATE@ + tag(other.supabase_state()),
            AUTH_STATUS_PROJECT@ + escaped(text_or(other.supabase_url, "not configured"@))
                + AUTH_STATUS_LINK@,
        ),
        alike_in_one(
            auth_status(config, customer, org),
            AUTH_STATUS_LINK@ + escaped(org_path(CustomerTab::Auth.path(), org)) + AUTH_STATUS_END@,
            auth_status(config, customer, other_org),
            AUTH_STATUS_LINK@ + escaped(org_path(CustomerTab::Auth.path(), other_org))
                + AUTH_STATUS_END@,
        ),
{
    broadcast use lemma_regrouped;
    {
        let a = Seq::<char>::empty();
        let b = tag(config.supabase_state()) + AUTH_STATUS_PROJECT@
            + escaped(text_or(config.supabase_url, "not configured"@)) + AUTH_STATUS_LINK@
            + escaped(org_path(CustomerTab::Auth.path(), org)) + AUTH_STATUS_END@;
        assert(auth_status(config, customer, org) =~= a + (AUTH_STATUS_OPEN@
            + escaped(customer.shown_name()) + AUTH_STATUS_STATE@) + b);
        assert(auth_status(config, other_customer, org) =~= a + (AUTH_STATUS_OPEN@
            + escaped(other_customer.shown_name()) + AUTH_STATUS_STATE@) + b);
    }
    {
        let a = AUTH_STATUS_OPEN@ + escaped(customer.shown_name());
        let b = Seq::<char>::empty();
        let c = escaped(org_path(CustomerTab::Auth.path(), org)) + AUTH_STATUS_END@;
        assert(auth_status(config, customer, org) =~= a + (AUTH_STATUS_STATE@
            + tag(config.supabase_state())) + b + (AUTH_STATUS_PROJECT@
            + escaped(text_or(config.supabase_url, "not configured"@)) + AUTH_STATUS_LINK@) + c);
        assert(auth_status(other, customer, org) =~= a + (AUTH_STATUS_STATE@
            + tag(other.supabase_state())) + b + (AUTH_STATUS_PROJECT@
            + escaped(text_or(other.supabase_url, "not configured"@)) + AUTH_STATUS_LINK@) + c);
    }
    {
        let a = AUTH_STATUS_OPEN@ + escaped(customer.shown_name()) + AUTH_STATUS_STATE@
            + tag(config.supabase_state()) + AUTH_STATUS_PROJECT@
            + escaped(text_or(config.supabase_url, "not configured"@));
        let b = Seq::<char>::empty();
        assert(auth_status(config, customer, org) =~= a + (AUTH_STATUS_LINK@
            + escaped(org_path(CustomerTab::Auth.path(), org)) + AUTH_STATUS_END@) + b);
        assert(auth_status(config, customer, other_org) =~= a + (AUTH_STATUS_LINK@
            + escaped(org_path(CustomerTab::Auth.path(), other_org)) + AUTH_STATUS_END@) + b);
    }
}

/// The panel of the account does not depend on the host.
pub proof fn law_auth_panel_shows_no_host(
    config: PortalConfig<Seq<char>>,
    host: Seq<char>,
    customer: CustomerView,
    org: Org<Seq<char>>,
)
    ensures
        auth_status(PortalConfig { customer_app_host: host, ..config }, customer, org) == auth_status(
            config,
            customer,
            org,
        ),
{
}

/// A linked piece of markup has its escaped path between its ends.
pub proof fn law_links_have_their_path(open: Seq<char>, path: Seq<char>, end: Seq<char>)
    ensures
        linked(open, path, end) == open + escaped(path) + end,
{
}

/// The dashboard loads the summary and links the tabs of the organization, and shows
/// configuration and customer in the panel of the account. It is otherwise the same.
pub proof fn law_dashboard_has_its_panels(
    config: PortalConfig<Seq<char>>,
    customer: CustomerView,
    org: Org<Seq<char>>,
    other_config: PortalConfig<Seq<char>>,
    other_customer: CustomerView,
    other_org: Org<Seq<char>>,
)
    ensures
        alike_in_one(
            dashboard(config, customer, org),
            DASHBOARD_PANELS@ + auth_status(config, customer, org),
            dashboard(other_config, customer, org),
            DASHBOARD_PANELS@ + auth_status(other_config, customer, org),
        ),
        alike_in_one(
            dashboard(config, customer, org),
            DASHBOARD_PANELS@ + auth_status(config, customer, org),
            dashboard(config, other_customer, org),
            DASHBOARD_PANELS@ + auth_status(config, other_customer, org),
        ),
        alike_in_five(
            dashboard(config, customer, org),
            DASHBOARD_OPEN@ + escaped(org_path(SUMMARY_PATH@, org)) + DASHBOARD_SUMMARY@,
            DASHBOARD_PANELS@ + auth_status(config, customer, org),
            linked(KEYS_PANEL_OPEN@, org_path(CustomerTab::ApiKeys.path(), org), KEYS_PANEL_END@),
            linked(SECURITY_PANEL_OPEN@, org_path(CustomerTab::Security.path(), org), SECURITY_PANEL_END@),
            linked(PREFERENCES_PANEL_OPEN@, org_path(CustomerTab::Settings.path(), org), PREFERENCES_PANEL_END@)
                + DASHBOARD_END@,
            dashboard(config, customer, other_org),
            DASHBOARD_OPEN@ + escaped(org_path(SUMMARY_PATH@, other_org)) + DASHBOARD_SUMMARY@,
            DASHBOARD_PANELS@ + auth_status(config, customer, other_org),
            linked(KEYS_PANEL_OPEN@, org_path(CustomerTab::ApiKeys.path(), other_org), KEYS_PANEL_END@),
            linked(SECURITY_PANEL_OPEN@, org_path(CustomerTab::Security.path(), other_org), SECURITY_PANEL_END@),
            linked(PREFERENCES_PANEL_OPEN@, org_path(CustomerTab::Settings.path(), other_org), PREFERENCES_PANEL_END@)
                + DASHBOARD_END@,
        ),
{
    broadcast use lemma_regrouped;
    {
        let a = DASHBOARD_OPEN@ + escaped(org_path(SUMMARY_PATH@, org)) + DASHBOARD_SUMMARY@
            + SUMMARY@;
        let b = linked(KEYS_PANEL_OPEN@, org_path(CustomerTab::ApiKeys.path(), org), KEYS_PANEL_END@)
            + linked(SECURITY_PANEL_OPEN@, org_path(CustomerTab::Security.path(), org), SECURITY_PANEL_END@)
            + linked(PREFERENCES_PANEL_OPEN@, org_path(CustomerTab::Settings.path(), org), PREFERENCES_PANEL_END@)
            + DASHBOARD_END@;
        assert(dashboard(config, customer, org) =~= a + (DASHBOARD_PANELS@
            + auth_status(config, customer, org)) + b);
        assert(dashboard(other_config, customer, org) =~= a + (DASHBOARD_PANELS@
            + auth_status(other_config, customer, org)) + b);
    }
    {
        let a = DASHBOARD_OPEN@ + escaped(org_path(SUMMARY_PATH@, org)) + DASHBOARD_SUMMARY@
            + SUMMARY@;
        let b = linked(KEYS_PANEL_OPEN@, org_path(CustomerTab::ApiKeys.path(), org), KEYS_PANEL_END@)
            + linked(SECURITY_PANEL_OPEN@, org_path(CustomerTab::Security.path(), org), SECURITY_PANEL_END@)
            + linked(PREFERENCES_PANEL_OPEN@, org_path(CustomerTab::Settings.path(), org), PREFERENCES_PANEL_END@)
            + DASHBOARD_END@;
        assert(dashboard(config, customer, org) =~= a + (DASHBOARD_PANELS@
            + auth_status(config, customer, org)) + b);
        assert(dashboard(config, other_customer, org) =~= a + (DASHBOARD_PANELS@
            + auth_status(config, other_customer, org)) + b);
    }
    {
        let a = Seq::<char>::empty();
        let b = SUMMARY@;
        let c = Seq::<char>::empty();
        let d = Seq::<char>::empty();
        let e = Seq::<char>::empty();
        let f = Seq::<char>::empty();
        assert(dashboard(config, customer, org) =~= a + (DASHBOARD_OPEN@
            + escaped(org_path(SUMMARY_PATH@, org)) + DASHBOARD_SUMMARY@) + b + (DASHBOARD_PANELS@
            + auth_status(config, customer, org)) + c
            + (linked(KEYS_PANEL_OPEN@, org_path(CustomerTab::ApiKeys.path(), org), KEYS_PANEL_END@))
            + d
            + (linked(SECURITY_PANEL_OPEN@, org_path(CustomerTab::Security.path(), org), SECURITY_PANEL_END@))
            + e
            + (linked(PREFERENCES_PANEL_OPEN@, org_path(CustomerTab::Settings.path(), org), PREFERENCES_PANEL_END@)
            + DASHBOARD_END@) + f);
        assert(dashboard(config, customer, other_org) =~= a + (DASHBOARD_OPEN@
            + escaped(org_path(SUMMARY_PATH@, other_org)) + DASHBOARD_SUMMARY@) + b
            + (DASHBOARD_PANELS@ + auth_status(config, customer, other_org)) + c
            + (linked(KEYS_PANEL_OPEN@, org_path(CustomerTab::ApiKeys.path(), other_org), KEYS_PANEL_END@))
            + d
            + (linked(SECURITY_PANEL_OPEN@, org_path(CustomerTab::Security.path(), other_org), SECURITY_PANEL_END@))
            + e
            + (linked(PREFERENCES_PANEL_OPEN@, org_path(CustomerTab::Settings.path(), other_org), PREFERENCES_PANEL_END@)
            + DASHBOARD_END@) + f);
    }
}

/// The organizations of an account are listed as code, each one, in their order.
pub proof fn law_organizations_are_listed_in_order(
    first: Seq<Seq<char>>,
    second: Seq<Seq<char>>,
    org: Seq<char>,
)
    ensures
        org_codes(first + second) == org_codes(first) + org_codes(second),
        org_codes(seq![org]) == "<code>"@ + escaped(org) + "</code>"@,
        org_codes(Seq::empty()) == Seq::<char>::empty(),
    decreases second.len(),
{
    reveal_with_fuel(org_codes, 2);
    assert(seq![org].drop_last() =~= Seq::empty());
    assert(Seq::<char>::empty() + (ORG_OPEN@ + escaped(org) + ORG_END@) =~= ORG_OPEN@
        + escaped(org) + ORG_END@);
    if second.len() == 0 {
        assert(first + second =~= first);
        assert(org_codes(first) + Seq::<char>::empty() =~= org_codes(first));
    } else {
        law_organizations_are_listed_in_order(first, second.drop_last(), org);
        assert((first + second).drop_last() =~= first + second.drop_last());
        lemma_regrouped(
            org_codes(first),
            org_codes(second.drop_last()),
            ORG_OPEN@ + escaped(second.last()) + ORG_END@,
        );
    }
}

/// The account tab shows the customer and the organizations, and has the token in the form that
/// signs out. It is otherwise the same.
pub proof fn law_account_tab_shows_the_customer(
    customer: CustomerView,
    csrf_token: Seq<char>,
    other_customer: CustomerView,
    other: Seq<char>,
)
    ensures
        alike_in_two(
            account(customer, csrf_token),
            ACCOUNT_OPEN@ + escaped(customer.shown_name()),
            ACCOUNT_ORGS@ + org_codes(customer.orgs) + ACCOUNT_FORM_OPEN@,
            account(other_customer, csrf_token),
            ACCOUNT_OPEN@ + escaped(other_customer.shown_name()),
            ACCOUNT_ORGS@ + org_codes(other_customer.orgs) + ACCOUNT_FORM_OPEN@,
        ),
        alike_in_one(
            account(customer, csrf_token),
            ACCOUNT_FORM_OPEN@ + hidden("csrf_token"@, csrf_token) + ACCOUNT_END@,
            account(customer, other),
            ACCOUNT_FORM_OPEN@ + hidden("csrf_token"@, other) + ACCOUNT_END@,
        ),
{
    broadcast use lemma_regrouped;
    {
        let a = Seq::<char>::empty();
        let b = Seq::<char>::empty();
        let c = hidden("csrf_token"@, csrf_token) + ACCOUNT_END@;
        assert(account(customer, csrf_token) =~= a + (ACCOUNT_OPEN@
            + escaped(customer.shown_name())) + b + (ACCOUNT_ORGS@ + org_codes(customer.orgs)
            + ACCOUNT_FORM_OPEN@) + c);
        assert(account(other_customer, csrf_token) =~= a + (ACCOUNT_OPEN@
            + escaped(other_customer.shown_name())) + b + (ACCOUNT_ORGS@
            + org_codes(other_customer.orgs) + ACCOUNT_FORM_OPEN@) + c);
    }
    {
        let a = ACCOUNT_OPEN@ + escaped(customer.shown_name()) + ACCOUNT_ORGS@
            + org_codes(customer.orgs);
        let b = Seq::<char>::empty();
        assert(account(customer, csrf_token) =~= a + (ACCOUNT_FORM_OPEN@
            + hidden("csrf_token"@, csrf_token) + ACCOUNT_END@) + b);
        assert(account(customer, other) =~= a + (ACCOUNT_FORM_OPEN@ + hidden("csrf_token"@, other)
            + ACCOUNT_END@) + b);
    }
}

/// The tab of the keys has the token, the organization and the idempotency key in its form, and
/// loads the keys of the organization. It is otherwise the same.
pub proof fn law_key_tab_has_token_organization_and_key(
    org: Org<Seq<char>>,
    csrf_token: Seq<char>,
    idempotency_key: Seq<char>,
    other_org: Org<Seq<char>>,
    other: Seq<char>,
)
    ensures
        alike_in_one(
            api_keys(org, csrf_token, idempotency_key),
            KEYS_OPEN@ + hidden("csrf_token"@, csrf_token),
            api_keys(org, other, idempotency_key),
            KEYS_OPEN@ + hidden("csrf_token"@, other),
        ),
        alike_in_one(
            api_keys(org, csrf_token, idempotency_key),
            hidden("idempotency_key"@, idempotency_key) + KEYS_FIELDS@,
            api_keys(org, csrf_token, other),
            hidden("idempotency_key"@, other) + KEYS_FIELDS@,
        ),
        alike_in_two(
            api_keys(org, csrf_token, idempotency_key),
            hidden("org_id"@, org.id),
            KEYS_FIELDS@ + escaped(org_path(KEYS_PATH@, org)) + KEYS_END@,
            api_keys(other_org, csrf_token, idempotency_key),
            hidden("org_id"@, other_org.id),
            KEYS_FIELDS@ + escaped(org_path(KEYS_PATH@, other_org)) + KEYS_END@,
        ),
{
    broadcast use lemma_regrouped;
    {
        let a = Seq::<char>::empty();
        let b = hidden("org_id"@, org.id) + hidden("idempotency_key"@, idempotency_key)
            + KEYS_FIELDS@ + escaped(org_path(KEYS_PATH@, org)) + KEYS_END@;
        assert(api_keys(org, csrf_token, idempotency_key) =~= a + (KEYS_OPEN@
            + hidden("csrf_token"@, csrf_token)) + b);
        assert(api_keys(org, other, idempotency_key) =~= a + (KEYS_OPEN@
            + hidden("csrf_token"@, other)) + b);
    }
    {
        let a = KEYS_OPEN@ + hidden("csrf_token"@, csrf_token) + hidden("org_id"@, org.id);
        let b = escaped(org_path(KEYS_PATH@, org)) + KEYS_END@;
        assert(api_keys(org, csrf_token, idempotency_key) =~= a
            + (hidden("idempotency_key"@, idempotency_key) + KEYS_FIELDS@) + b);
        assert(api_keys(org, csrf_token, other) =~= a + (hidden("idempotency_key"@, other)
            + KEYS_FIELDS@) + b);
    }
    {
        let a = KEYS_OPEN@ + hidden("csrf_token"@, csrf_token);
        let b = hidden("idempotency_key"@, idempotency_key);
        let c = Seq::<char>::empty();
        assert(api_keys(org, csrf_token, idempotency_key) =~= a + (hidden("org_id"@, org.id)) + b
            + (KEYS_FIELDS@ + escaped(org_path(KEYS_PATH@, org)) + KEYS_END@) + c);
        assert(api_keys(other_org, csrf_token, idempotency_key) =~= a
            + (hidden("org_id"@, other_org.id)) + b + (KEYS_FIELDS@
            + escaped(org_path(KEYS_PATH@, other_org)) + KEYS_END@) + c);
    }
}

/// Each tab has its own content: the first three what they show of the customer, the others what
/// loads their fragment for the organization.
pub proof fn law_tabs_have_their_own_content(
    config: PortalConfig<Seq<char>>,
    customer: CustomerView,
    org: Org<Seq<char>>,
    csrf_token: Seq<char>,
    key: Seq<char>,
)
    ensures
        tab_content(config, customer, CustomerTab::Dashboard, org, csrf_token, key) == dashboard(
            config,
            customer,
            org,
        ),
        tab_content(config, customer, CustomerTab::Auth, org, csrf_token, key) == account(
            customer,
            csrf_token,
        ),
        tab_content(config, customer, CustomerTab::ApiKeys, org, csrf_token, key) == api_keys(
            org,
            csrf_token,
            key,
        ),
        tab_content(config, customer, CustomerTab::Security, org, csrf_token, key)
            == SECURITY_OPEN@ + escaped("/app/fragments/security-sessions"@ + "?org_id="@
                + org.query)
            + SECURITY_END@,
        tab_content(config, customer, CustomerTab::Activity, org, csrf_token, key)
            == ACTIVITY_TAB_OPEN@ + escaped("/app/fragments/activity"@ + "?org_id="@ + org.query)
            + ACTIVITY_TAB_END@,
        tab_content(config, customer, CustomerTab::Notifications, org, csrf_token, key)
            == NOTIFICATIONS_OPEN@ + escaped("/app/fragments/notifications"@ + "?org_id="@
                + org.query)
            + NOTIFICATIONS_END@,
        tab_content(config, customer, CustomerTab::Settings, org, csrf_token, key) == SETTINGS_OPEN@
            + escaped("/app/fragments/preferences"@ + "?org_id="@ + org.query) + SETTINGS_END@,
{
}

/// The link to a tab has its path for the organization and its name, and is marked as current
/// where the tab is the active one. The links of a list stand in its order.
pub proof fn law_tab_links_name_tab_and_organization(
    first: Seq<CustomerTab>,
    second: Seq<CustomerTab>,
    tab: CustomerTab,
    active: CustomerTab,
    org: Org<Seq<char>>,
)
    ensures
        tab_links(first + second, active, org) == tab_links(first, active, org) + tab_links(
            second,
            active,
            org,
        ),
        tab_links(seq![active], active, org) == "<a href=\""@ + escaped(
            active.path() + "?org_id="@ + org.query,
        ) + "\" aria-current=\"page\"><span>"@ + escaped(active.name()) + "</span></a>"@,
        tab != active ==> tab_links(seq![tab], active, org) == "<a href=\""@ + escaped(
            tab.path() + "?org_id="@ + org.query,
        ) + "\"><span>"@ + escaped(tab.name()) + "</span></a>"@,
        tab_links(Seq::empty(), active, org) == Seq::<char>::empty(),
    decreases second.len(),
{
    reveal_with_fuel(tab_links, 2);
    assert(seq![tab].drop_last() =~= Seq::empty());
    assert(seq![active].drop_last() =~= Seq::empty());
    assert(Seq::<char>::empty() + tab_link(tab, active, org) =~= tab_link(tab, active, org));
    assert(Seq::<char>::empty() + tab_link(active, active, org) =~= tab_link(active, active, org));
    if second.len() == 0 {
        assert(first + second =~= first);
        assert(tab_links(first, active, org)
            + Seq::<char>::empty() =~= tab_links(first, active, org));
    } else {
        law_tab_links_name_tab_and_organization(first, second.drop_last(), tab, active, org);
        assert((first + second).drop_last() =~= first + second.drop_last());
        lemma_regrouped(
            tab_links(first, active, org),
            tab_links(second.drop_last(), active, org),
            tab_link(second.last(), active, org),
        );
    }
}

/// A portal page has the token in its head and in the form that signs out, and the content of its
/// tab. It is otherwise the same.
pub proof fn law_portal_page_has_token_and_content(
    config: PortalConfig<Seq<char>>,
    customer: CustomerView,
    active: CustomerTab,
    org: Org<Seq<char>>,
    csrf_token: Seq<char>,
    content: Seq<char>,
    other: Seq<char>,
)
    ensures
        alike_in_two(
            portal_page(config, customer, active, org, csrf_token, content),
            PAGE_OPEN@ + escaped(csrf_token) + PAGE_HEADER@,
            PAGE_LOGOUT@ + hidden("csrf_token"@, csrf_token) + PAGE_NAV@,
            portal_page(config, customer, active, org, other, content),
            PAGE_OPEN@ + escaped(other) + PAGE_HEADER@,
            PAGE_LOGOUT@ + hidden("csrf_token"@, other) + PAGE_NAV@,
        ),
        alike_in_one(
            portal_page(config, customer, active, org, csrf_token, content),
            PAGE_CONTENT@ + content + PAGE_END@,
            portal_page(config, customer, active, org, csrf_token, other),
            PAGE_CONTENT@ + other + PAGE_END@,
        ),
{
    broadcast use lemma_regrouped;
    {
        let a = DOCTYPE@;
        let b = escaped(config.customer_app_host) + PAGE_CUSTOMER@ + escaped(customer.shown_name());
        let c = tab_links(CustomerTab::listed(), active, org) + PAGE_ORGS@ + escaped(active.path())
            + PAGE_ORG_CHOICES@ + choices(customer.orgs, org.id) + PAGE_HEADING@
            + escaped(active.name()) + PAGE_PURPOSE@ + escaped(active.purpose()) + PAGE_TOOLBAR@
            + escaped(org_path(SUMMARY_PATH@, org)) + PAGE_NEW_KEY@
            + escaped(org_path(CustomerTab::ApiKeys.path(), org)) + PAGE_CONTENT@ + content
            + PAGE_END@;
        assert(portal_page(config, customer, active, org, csrf_token, content) =~= a + (PAGE_OPEN@
            + escaped(csrf_token) + PAGE_HEADER@) + b + (PAGE_LOGOUT@
            + hidden("csrf_token"@, csrf_token) + PAGE_NAV@) + c);
        assert(portal_page(config, customer, active, org, other, content) =~= a + (PAGE_OPEN@
            + escaped(other) + PAGE_HEADER@) + b + (PAGE_LOGOUT@ + hidden("csrf_token"@, other)
            + PAGE_NAV@) + c);
    }
    {
        let a = DOCTYPE@ + PAGE_OPEN@ + escaped(csrf_token) + PAGE_HEADER@
            + escaped(config.customer_app_host) + PAGE_CUSTOMER@ + escaped(customer.shown_name())
            + PAGE_LOGOUT@ + hidden("csrf_token"@, csrf_token) + PAGE_NAV@
            + tab_links(CustomerTab::listed(), active, org) + PAGE_ORGS@ + escaped(active.path())
            + PAGE_ORG_CHOICES@ + choices(customer.orgs, org.id) + PAGE_HEADING@
            + escaped(active.name()) + PAGE_PURPOSE@ + escaped(active.purpose()) + PAGE_TOOLBAR@
            + escaped(org_path(SUMMARY_PATH@, org)) + PAGE_NEW_KEY@
            + escaped(org_path(CustomerTab::ApiKeys.path(), org));
        let b = Seq::<char>::empty();
        assert(portal_page(config, customer, active, org, csrf_token, content) =~= a
            + (PAGE_CONTENT@ + content + PAGE_END@) + b);
        assert(portal_page(config, customer, active, org, csrf_token, other) =~= a + (PAGE_CONTENT@
            + other + PAGE_END@) + b);
    }
}

/// A portal page shows the host, the customer, and the customer's organizations to choose from.
/// It is otherwise the same.
pub proof fn law_portal_page_shows_host_and_customer(
    config: PortalConfig<Seq<char>>,
    customer: CustomerView,
    active: CustomerTab,
    org: Org<Seq<char>>,
    csrf_token: Seq<char>,
    content: Seq<char>,
    other_config: PortalConfig<Seq<char>>,
    other_customer: CustomerView,
)
    ensures
        alike_in_one(
            portal_page(config, customer, active, org, csrf_token, content),
            PAGE_HEADER@ + escaped(config.customer_app_host) + PAGE_CUSTOMER@,
            portal_page(other_config, customer, active, org, csrf_token, content),
            PAGE_HEADER@ + escaped(other_config.customer_app_host) + PAGE_CUSTOMER@,
        ),
        alike_in_two(
            portal_page(config, customer, active, org, csrf_token, content),
            PAGE_CUSTOMER@ + escaped(customer.shown_name()) + PAGE_LOGOUT@,
            PAGE_ORG_CHOICES@ + choices(customer.orgs, org.id) + PAGE_HEADING@,
            portal_page(config, other_customer, active, org, csrf_token, content),
            PAGE_CUSTOMER@ + escaped(other_customer.shown_name()) + PAGE_LOGOUT@,
            PAGE_ORG_CHOICES@ + choices(other_customer.orgs, org.id) + PAGE_HEADING@,
        ),
{
    broadcast use lemma_regrouped;
    {
        let a = DOCTYPE@ + PAGE_OPEN@ + escaped(csrf_token);
        let b = escaped(customer.shown_name()) + PAGE_LOGOUT@ + hidden("csrf_token"@, csrf_token)
            + PAGE_NAV@ + tab_links(CustomerTab::listed(), active, org) + PAGE_ORGS@
            + escaped(active.path()) + PAGE_ORG_CHOICES@ + choices(customer.orgs, org.id)
            + PAGE_HEADING@ + escaped(active.name()) + PAGE_PURPOSE@ + escaped(active.purpose())
            + PAGE_TOOLBAR@ + escaped(org_path(SUMMARY_PATH@, org)) + PAGE_NEW_KEY@
            + escaped(org_path(CustomerTab::ApiKeys.path(), org)) + PAGE_CONTENT@ + content
            + PAGE_END@;
        assert(portal_page(config, customer, active, org, csrf_token, content) =~= a
            + (PAGE_HEADER@ + escaped(config.customer_app_host) + PAGE_CUSTOMER@) + b);
        assert(portal_page(other_config, customer, active, org, csrf_token, content) =~= a
            + (PAGE_HEADER@ + escaped(other_config.customer_app_host) + PAGE_CUSTOMER@) + b);
    }
    {
        let a = DOCTYPE@ + PAGE_OPEN@ + escaped(csrf_token) + PAGE_HEADER@
            + escaped(config.customer_app_host);
        let b = hidden("csrf_token"@, csrf_token) + PAGE_NAV@
            + tab_links(CustomerTab::listed(), active, org) + PAGE_ORGS@ + escaped(active.path());
        let c = escaped(active.name()) + PAGE_PURPOSE@ + escaped(active.purpose()) + PAGE_TOOLBAR@
            + escaped(org_path(SUMMARY_PATH@, org)) + PAGE_NEW_KEY@
            + escaped(org_path(CustomerTab::ApiKeys.path(), org)) + PAGE_CONTENT@ + content
            + PAGE_END@;
        assert(portal_page(config, customer, active, org, csrf_token, content) =~= a
            + (PAGE_CUSTOMER@ + escaped(customer.shown_name()) + PAGE_LOGOUT@) + b
            + (PAGE_ORG_CHOICES@ + choices(customer.orgs, org.id) + PAGE_HEADING@) + c);
        assert(portal_page(config, other_customer, active, org, csrf_token, content) =~= a
            + (PAGE_CUSTOMER@ + escaped(other_customer.shown_name()) + PAGE_LOGOUT@) + b
            + (PAGE_ORG_CHOICES@ + choices(other_customer.orgs, org.id) + PAGE_HEADING@) + c);
    }
}

/// A portal page marks its tab among the links, switches organizations within it, and shows its
/// name and what it is for. It is otherwise the same.
pub proof fn law_portal_page_shows_its_tab(
    config: PortalConfig<Seq<char>>,
    customer: CustomerView,
    active: CustomerTab,
    org: Org<Seq<char>>,
    csrf_token: Seq<char>,
    content: Seq<char>,
    other: CustomerTab,
)
    ensures
        alike_in_four(
            portal_page(config, customer, active, org, csrf_token, content),
            PAGE_NAV@ + tab_links(CustomerTab::listed(), active, org),
            PAGE_ORGS@ + escaped(active.path()) + PAGE_ORG_CHOICES@,
            PAGE_HEADING@ + escaped(active.name()),
            PAGE_PURPOSE@ + escaped(active.purpose()) + PAGE_TOOLBAR@,
            portal_page(config, customer, other, org, csrf_token, content),
            PAGE_NAV@ + tab_links(CustomerTab::listed(), other, org),
            PAGE_ORGS@ + escaped(other.path()) + PAGE_ORG_CHOICES@,
            PAGE_HEADING@ + escaped(other.name()),
            PAGE_PURPOSE@ + escaped(other.purpose()) + PAGE_TOOLBAR@,
        ),
{
    broadcast use lemma_regrouped;
    let a = DOCTYPE@ + PAGE_OPEN@ + escaped(csrf_token) + PAGE_HEADER@
        + escaped(config.customer_app_host) + PAGE_CUSTOMER@ + escaped(customer.shown_name())
        + PAGE_LOGOUT@ + hidden("csrf_token"@, csrf_token);
    let b = Seq::<char>::empty();
    let c = choices(customer.orgs, org.id);
    let d = Seq::<char>::empty();
    let e = escaped(org_path(SUMMARY_PATH@, org)) + PAGE_NEW_KEY@
        + escaped(org_path(CustomerTab::ApiKeys.path(), org)) + PAGE_CONTENT@ + content
        + PAGE_END@;
    assert(portal_page(config, customer, active, org, csrf_token, content) =~= a + (PAGE_NAV@
        + tab_links(CustomerTab::listed(), active, org)) + b + (PAGE_ORGS@ + escaped(active.path())
        + PAGE_ORG_CHOICES@) + c + (PAGE_HEADING@ + escaped(active.name())) + d + (PAGE_PURPOSE@
        + escaped(active.purpose()) + PAGE_TOOLBAR@) + e);
    assert(portal_page(config, customer, other, org, csrf_token, content) =~= a + (PAGE_NAV@
        + tab_links(CustomerTab::listed(), other, org)) + b + (PAGE_ORGS@ + escaped(other.path())
        + PAGE_ORG_CHOICES@) + c + (PAGE_HEADING@ + escaped(other.name())) + d + (PAGE_PURPOSE@
        + escaped(other.purpose()) + PAGE_TOOLBAR@) + e);
}

/// A portal page links its tabs, the summary and the keys for its organization, and has it
/// selected. It is otherwise the same.
pub proof fn law_portal_page_is_about_its_organization(
    config: PortalConfig<Seq<char>>,
    customer: CustomerView,
    active: CustomerTab,
    org: Org<Seq<char>>,
    csrf_token: Seq<char>,
    content: Seq<char>,
    other: Org<Seq<char>>,
)
    ensures
        alike_in_four(
            portal_page(config, customer, active, org, csrf_token, content),
            PAGE_NAV@ + tab_links(CustomerTab::listed(), active, org) + PAGE_ORGS@,
            PAGE_ORG_CHOICES@ + choices(customer.orgs, org.id) + PAGE_HEADING@,
            PAGE_TOOLBAR@ + escaped(org_path(SUMMARY_PATH@, org)),
            PAGE_NEW_KEY@ + escaped(org_path(CustomerTab::ApiKeys.path(), org)) + PAGE_CONTENT@,
            portal_page(config, customer, active, other, csrf_token, content),
            PAGE_NAV@ + tab_links(CustomerTab::listed(), active, other) + PAGE_ORGS@,
            PAGE_ORG_CHOICES@ + choices(customer.orgs, other.id) + PAGE_HEADING@,
            PAGE_TOOLBAR@ + escaped(org_path(SUMMARY_PATH@, other)),
            PAGE_NEW_KEY@ + escaped(org_path(CustomerTab::ApiKeys.path(), other)) + PAGE_CONTENT@,
        ),
{
    broadcast use lemma_regrouped;
    let a = DOCTYPE@ + PAGE_OPEN@ + escaped(csrf_token) + PAGE_HEADER@
        + escaped(config.customer_app_host) + PAGE_CUSTOMER@ + escaped(customer.shown_name())
        + PAGE_LOGOUT@ + hidden("csrf_token"@, csrf_token);
    let b = escaped(active.path());
    let c = escaped(active.name()) + PAGE_PURPOSE@ + escaped(active.purpose());
    let d = Seq::<char>::empty();
    let e = content + PAGE_END@;
    assert(portal_page(config, customer, active, org, csrf_token, content) =~= a + (PAGE_NAV@
        + tab_links(CustomerTab::listed(), active, org) + PAGE_ORGS@) + b + (PAGE_ORG_CHOICES@
        + choices(customer.orgs, org.id) + PAGE_HEADING@) + c + (PAGE_TOOLBAR@
        + escaped(org_path(SUMMARY_PATH@, org))) + d + (PAGE_NEW_KEY@
        + escaped(org_path(CustomerTab::ApiKeys.path(), org)) + PAGE_CONTENT@) + e);
    assert(portal_page(config, customer, active, other, csrf_token, content) =~= a + (PAGE_NAV@
        + tab_links(CustomerTab::listed(), active, other) + PAGE_ORGS@) + b + (PAGE_ORG_CHOICES@
        + choices(customer.orgs, other.id) + PAGE_HEADING@) + c + (PAGE_TOOLBAR@
        + escaped(org_path(SUMMARY_PATH@, other))) + d + (PAGE_NEW_KEY@
        + escaped(org_path(CustomerTab::ApiKeys.path(), other)) + PAGE_CONTENT@) + e);
}

} // verus!
