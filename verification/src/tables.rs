//! The fragments of the customer portal that show stored rows: tables, the preferences form, and
//! the summary.

use crate::auth_pages::{
    hidden, hidden_field, text_or, text_or_else, PARAGRAPH_CLOSE, TAG_CLOSE,
};
use crate::html::{escaped, Markup};
use crate::text::{decimal, opt_str, opt_string, same_text, string_views};
use vstd::prelude::*;

verus! {

pub const STATUS_OPEN: &'static str = "<p class=\"inline-message\" role=\"status\">";

/// The message that a fragment shows, where there is one.
pub open spec fn inline_message(message: Option<Seq<char>>) -> Seq<char> {
    match message {
        Some(message) => STATUS_OPEN@ + escaped(message) + PARAGRAPH_CLOSE@,
        None => Seq::empty(),
    }
}

fn inline_message_markup(message: Option<&str>) -> (r: Markup)
    ensures
        r@ == inline_message(opt_str(message)),
{
    match message {
        Some(message) => {
            let mut status = Markup::verbatim(STATUS_OPEN);
            status.text(message);
            status.push(PARAGRAPH_CLOSE);
            status
        },
        None => Markup::empty(),
    }
}

/// A word of markup that is there or not.
pub open spec fn flag(on: bool, word: Seq<char>) -> Seq<char> {
    if on {
        word
    } else {
        Seq::empty()
    }
}

fn flag_markup(on: bool, word: &str) -> (r: Markup)
    ensures
        r@ == flag(on, word@),
{
    if on {
        Markup::verbatim(word)
    } else {
        Markup::empty()
    }
}

pub const OPTION_OPEN: &'static str = "<option value=\"";

pub const OPTION_VALUE_END: &'static str = "\"";

pub const SELECTED: &'static str = " selected";

pub const CHECKED: &'static str = " checked";

pub const BRACKET_CLOSE: &'static str = ">";

pub const OPTION_END: &'static str = "</option>";

/// One choice of a list, labelled with its value.
pub open spec fn choice(value: Seq<char>, selected: bool) -> Seq<char> {
    OPTION_OPEN@ + escaped(value) + OPTION_VALUE_END@ + flag(selected, SELECTED@) + BRACKET_CLOSE@
        + escaped(value) + OPTION_END@
}

/// The choices of a list, of which those equal to a given text are selected.
pub open spec fn choices(values: Seq<Seq<char>>, selected: Seq<char>) -> Seq<char>
    decreases values.len(),
{
    if values.len() == 0 {
        Seq::empty()
    } else {
        choices(values.drop_last(), selected) + choice(values.last(), values.last() == selected)
    }
}

/// The choices of a list, of which those equal to a given text are selected.
pub(crate) fn choices_markup(values: &[String], selected: &str) -> (r: Markup)
    ensures
        r@ == choices(string_views(values@), selected@),
{
    let ghost views = string_views(values@);
    let mut options = Markup::empty();
    let mut i: usize = 0;
    while i < values.len()
        invariant
            i <= values.len(),
            views == string_views(values@),
            options@ == choices(views.take(i as int), selected@),
        decreases values.len() - i,
    {
        let ghost next = views.take(i + 1);
        assert(next.drop_last() =~= views.take(i as int));
        let value = values[i].as_str();
        let mut option = Markup::verbatim(OPTION_OPEN);
        option.text(value);
        option.push(OPTION_VALUE_END);
        option.markup(&flag_markup(same_text(value, selected), SELECTED));
        option.push(BRACKET_CLOSE);
        option.text(value);
        option.push(OPTION_END);
        options.markup(&option);
        i += 1;
    }
    assert(views.take(i as int) =~= views);
    options
}

pub const TABLE_END: &'static str = "</tbody></table></div></section>";

/// A notice to a customer, as text `T`.
#[derive(Clone, Debug, PartialEq, Eq)]
pub struct Notification<T> {
    pub id: T,
    /// When it was created, in RFC 3339 form.
    pub created_at: T,
    pub severity: T,
    pub title: T,
    pub body: T,
    pub link: Option<T>,
    /// When it was read, where it was.
    pub read_at: Option<T>,
}

impl View for Notification<String> {
    type V = Notification<Seq<char>>;

    open spec fn view(&self) -> Notification<Seq<char>> {
        Notification {
            id: self.id@,
            created_at: self.created_at@,
            severity: self.severity@,
            title: self.title@,
            body: self.body@,
            link: opt_string(self.link),
            read_at: opt_string(self.read_at),
        }
    }
}

/// What each notice of a list holds.
pub open spec fn notification_views(notifications: Seq<Notification<String>>) -> Seq<
    Notification<Seq<char>>,
> {
    notifications.map_values(|note: Notification<String>| note@)
}

pub const NOTES_OPEN: &'static str = "<section class=\"panel\" aria-labelledby=\"notifications-table-heading\">\
    <div class=\"panel__header\"><h2 id=\"notifications-table-heading\">Recent notifications\
    </h2><span>";

pub const NOTES_UNREAD: &'static str = " unread / ";

pub const NOTES_SHOWN: &'static str = " shown</span></div>";

pub const NOTES_TABLE_OPEN: &'static str = "<div class=\"table-wrap\"><table><thead><tr><th>When</th><th>Severity</th><th>Notification\
    </th><th>State</th><th>Action</th></tr></thead><tbody>";

pub const NOTES_NONE: &'static str = "<tr><td colspan=\"5\" class=\"muted\">You have no notifications.</td></tr>";

pub const ROW_OPEN: &'static str = "<tr><td>";

pub const NOTE_SEVERITY: &'static str = "</td><td><span class=\"status-pill\" data-severity=\"";

pub const NOTE_TITLE: &'static str = "</span></td><td><strong>";

pub const NOTE_TITLE_END: &'static str = "</strong>";

pub const NOTE_BODY_OPEN: &'static str = "<div class=\"muted\">";

pub const NOTE_BODY_END: &'static str = "</div>";

pub const NOTE_LINK_OPEN: &'static str = "<div><a href=\"";

pub const NOTE_LINK_END: &'static str = "\">View</a></div>";

pub const CELL_BREAK: &'static str = "</td><td>";

pub const NOTE_FORM_OPEN: &'static str = "<form method=\"post\" action=\"/app/notifications/read\" \
    hx-post=\"/app/notifications/read\" hx-target=\"#customer-notifications\" \
    hx-swap=\"innerHTML\">";

pub const NOTE_FORM_END: &'static str = "<button type=\"submit\">Mark read</button></form>";

pub const ROW_END: &'static str = "</td></tr>";

/// The text of a notice, where it has one.
pub open spec fn note_body(body: Seq<char>) -> Seq<char> {
    if body.len() == 0 {
        Seq::empty()
    } else {
        NOTE_BODY_OPEN@ + escaped(body) + NOTE_BODY_END@
    }
}

/// The link of a notice, where it has one.
pub open spec fn note_link(link: Option<Seq<char>>) -> Seq<char> {
    match link {
        Some(link) => NOTE_LINK_OPEN@ + escaped(link) + NOTE_LINK_END@,
        None => Seq::empty(),
    }
}

/// The form that marks a notice as read, offered while it is unread.
pub open spec fn note_action(note: Notification<Seq<char>>, csrf_token: Seq<char>) -> Seq<char> {
    if note.read_at is Some {
        Seq::empty()
    } else {
        NOTE_FORM_OPEN@ + hidden("csrf_token"@, csrf_token) + hidden("id"@, note.id)
            + NOTE_FORM_END@
    }
}

/// The row of one notice.
pub open spec fn note_row(note: Notification<Seq<char>>, csrf_token: Seq<char>) -> Seq<char> {
    ROW_OPEN@ + escaped(note.created_at) + NOTE_SEVERITY@ + escaped(note.severity) + TAG_CLOSE@
        + escaped(note.severity) + NOTE_TITLE@ + escaped(note.title) + NOTE_TITLE_END@ + note_body(
        note.body,
    ) + note_link(note.link) + CELL_BREAK@ + (if note.read_at is Some {
        "read"@
    } else {
        "unread"@
    }) + CELL_BREAK@ + note_action(note, csrf_token) + ROW_END@
}

/// The rows of a list of notices, one after the other.
pub open spec fn note_rows(
    notifications: Seq<Notification<Seq<char>>>,
    csrf_token: Seq<char>,
) -> Seq<char>
    decreases notifications.len(),
{
    if notifications.len() == 0 {
        Seq::empty()
    } else {
        note_rows(notifications.drop_last(), csrf_token) + note_row(
            notifications.last(),
            csrf_token,
        )
    }
}

/// The table of notices.
pub open spec fn notifications_table(
    notifications: Seq<Notification<Seq<char>>>,
    unread: u64,
    message: Option<Seq<char>>,
    csrf_token: Seq<char>,
) -> Seq<char> {
    NOTES_OPEN@ + decimal(unread as nat) + NOTES_UNREAD@ + decimal(notifications.len())
        + NOTES_SHOWN@ + inline_message(message) + NOTES_TABLE_OPEN@ + (if notifications.len()
        == 0 {
        NOTES_NONE@
    } else {
        note_rows(notifications, csrf_token)
    }) + TABLE_END@
}

fn note_body_markup(body: &str) -> (r: Markup)
    ensures
        r@ == note_body(body@),
{
    if body.is_empty() {
        Markup::empty()
    } else {
        let mut text = Markup::verbatim(NOTE_BODY_OPEN);
        text.text(body);
        text.push(NOTE_BODY_END);
        text
    }
}

fn note_link_markup(link: &Option<String>) -> (r: Markup)
    ensures
        r@ == note_link(opt_string(*link)),
{
    match link {
        Some(link) => {
            let mut anchor = Markup::verbatim(NOTE_LINK_OPEN);
            anchor.text(link.as_str());
            anchor.push(NOTE_LINK_END);
            anchor
        },
        None => Markup::empty(),
    }
}

fn note_action_markup(note: &Notification<String>, csrf_token: &str) -> (r: Markup)
    ensures
        r@ == note_action(note@, csrf_token@),
{
    if note.read_at.is_some() {
        Markup::empty()
    } else {
        let mut form = Markup::verbatim(NOTE_FORM_OPEN);
        form.markup(&hidden_field("csrf_token", csrf_token));
        form.markup(&hidden_field("id", note.id.as_str()));
        form.push(NOTE_FORM_END);
        form
    }
}

fn note_row_markup(note: &Notification<String>, csrf_token: &str) -> (r: Markup)
    ensures
        r@ == note_row(note@, csrf_token@),
{
    let mut row = Markup::verbatim(ROW_OPEN);
    row.text(note.created_at.as_str());
    row.push(NOTE_SEVERITY);
    row.text(note.severity.as_str());
    row.push(TAG_CLOSE);
    row.text(note.severity.as_str());
    row.push(NOTE_TITLE);
    row.text(note.title.as_str());
    row.push(NOTE_TITLE_END);
    row.markup(&note_body_markup(note.body.as_str()));
    row.markup(&note_link_markup(&note.link));
    row.push(CELL_BREAK);
    row.push(if note.read_at.is_some() {
        "read"
    } else {
        "unread"
    });
    row.push(CELL_BREAK);
    row.markup(&note_action_markup(note, csrf_token));
    row.push(ROW_END);
    row
}

fn note_rows_markup(notifications: &[Notification<String>], csrf_token: &str) -> (r: Markup)
    ensures
        r@ == note_rows(notification_views(notifications@), csrf_token@),
{
    let ghost views = notification_views(notifications@);
    let mut rows = Markup::empty();
    let mut i: usize = 0;
    while i < notifications.len()
        invariant
            i <= notifications.len(),
            views == notification_views(notifications@),
            rows@ == note_rows(views.take(i as int), csrf_token@),
        decreases notifications.len() - i,
    {
        let ghost next = views.take(i + 1);
        assert(next.drop_last() =~= views.take(i as int));
        rows.markup(&note_row_markup(&notifications[i], csrf_token));
        i += 1;
    }
    assert(views.take(i as int) =~= views);
    rows
}

/// The table of notices: how many are unread, how many are shown, and a row for each.
pub fn notifications_table_markup(
    notifications: &[Notification<String>],
    unread: u64,
    message: Option<&str>,
    csrf_token: &str,
) -> (r: Markup)
    ensures
        r@ == notifications_table(
            notification_views(notifications@),
            unread,
            opt_str(message),
            csrf_token@,
        ),
{
    let mut table = Markup::verbatim(NOTES_OPEN);
    table.number(unread);
    table.push(NOTES_UNREAD);
    table.number(notifications.len() as u64);
    table.push(NOTES_SHOWN);
    table.markup(&inline_message_markup(message));
    table.push(NOTES_TABLE_OPEN);
    if notifications.len() == 0 {
        table.push(NOTES_NONE);
    } else {
        table.markup(&note_rows_markup(notifications, csrf_token));
    }
    table.push(TABLE_END);
    table
}

/// A customer-visible entry of the audit log, as text `T`.
#[derive(Clone, Debug, PartialEq, Eq)]
pub struct CustomerAuditEvent<T> {
    pub created_at: T,
    pub actor: Option<T>,
    pub action: T,
    pub target: Option<T>,
    pub request_id: Option<T>,
}

impl View for CustomerAuditEvent<String> {
    type V = CustomerAuditEvent<Seq<char>>;

    open spec fn view(&self) -> CustomerAuditEvent<Seq<char>> {
        CustomerAuditEvent {
            created_at: self.created_at@,
            actor: opt_string(self.actor),
            action: self.action@,
            target: opt_string(self.target),
            request_id: opt_string(self.request_id),
        }
    }
}

/// What each entry of a list holds.
pub open spec fn event_views(events: Seq<CustomerAuditEvent<String>>) -> Seq<
    CustomerAuditEvent<Seq<char>>,
> {
    events.map_values(|event: CustomerAuditEvent<String>| event@)
}

pub const ACTIVITY_OPEN: &'static str = "<section class=\"panel\" aria-labelledby=\"activity-table-heading\">\
    <div class=\"panel__header\"><h2 id=\"activity-table-heading\">Recent activity</h2><span>";

pub const ACTIVITY_TABLE_OPEN: &'static str = " shown</span></div><div class=\"table-wrap\"><table><thead><tr><th>When</th><th>Actor</th>\
    <th>Action</th><th>Target</th><th>Request</th></tr></thead><tbody>";

pub const ACTIVITY_NONE: &'static str = "<tr><td colspan=\"5\" class=\"muted\">No customer-visible activity is recorded for this \
    organization yet.</td></tr>";

pub const CODE_CELL_OPEN: &'static str = "</td><td><code>";

pub const CODE_CELL_END: &'static str = "</code></td><td>";

pub const CODE_ROW_END: &'static str = "</code></td></tr>";

/// The row of one entry of the audit log.
pub open spec fn event_row(event: CustomerAuditEvent<Seq<char>>) -> Seq<char> {
    ROW_OPEN@ + escaped(event.created_at) + CELL_BREAK@ + escaped(
        text_or(event.actor, "system"@),
    ) + CODE_CELL_OPEN@ + escaped(event.action) + CODE_CELL_END@ + escaped(
        text_or(event.target, "—"@),
    ) + CODE_CELL_OPEN@ + escaped(text_or(event.request_id, "—"@)) + CODE_ROW_END@
}

/// The rows of a list of entries, one after the other.
pub open spec fn event_rows(events: Seq<CustomerAuditEvent<Seq<char>>>) -> Seq<char>
    decreases events.len(),
{
    if events.len() == 0 {
        Seq::empty()
    } else {
        event_rows(events.drop_last()) + event_row(events.last())
    }
}

/// The table of the audit log.
pub open spec fn activity_table(events: Seq<CustomerAuditEvent<Seq<char>>>) -> Seq<char> {
    ACTIVITY_OPEN@ + decimal(events.len()) + ACTIVITY_TABLE_OPEN@ + (if events.len() == 0 {
        ACTIVITY_NONE@
    } else {
        event_rows(events)
    }) + TABLE_END@
}

fn event_rows_markup(events: &[CustomerAuditEvent<String>]) -> (r: Markup)
    ensures
        r@ == event_rows(event_views(events@)),
{
    let ghost views = event_views(events@);
    let mut rows = Markup::empty();
    let mut i: usize = 0;
    while i < events.len()
        invariant
            i <= events.len(),
            views == event_views(events@),
            rows@ == event_rows(views.take(i as int)),
        decreases events.len() - i,
    {
        let ghost next = views.take(i + 1);
        assert(next.drop_last() =~= views.take(i as int));
        let event = &events[i];
        let mut row = Markup::verbatim(ROW_OPEN);
        row.text(event.created_at.as_str());
        row.push(CELL_BREAK);
        row.text(text_or_else(&event.actor, "system"));
        row.push(CODE_CELL_OPEN);
        row.text(event.action.as_str());
        row.push(CODE_CELL_END);
        row.text(text_or_else(&event.target, "—"));
        row.push(CODE_CELL_OPEN);
        row.text(text_or_else(&event.request_id, "—"));
        row.push(CODE_ROW_END);
        rows.markup(&row);
        i += 1;
    }
    assert(views.take(i as int) =~= views);
    rows
}

/// The table of the audit log: how many entries are shown, and a row for each.
pub fn customer_activity_table_markup(events: &[CustomerAuditEvent<String>]) -> (r: Markup)
    ensures
        r@ == activity_table(event_views(events@)),
{
    let mut table = Markup::verbatim(ACTIVITY_OPEN);
    table.number(events.len() as u64);
    table.push(ACTIVITY_TABLE_OPEN);
    if events.len() == 0 {
        table.push(ACTIVITY_NONE);
    } else {
        table.markup(&event_rows_markup(events));
    }
    table.push(TABLE_END);
    table
}

/// A session on a trusted device, as text `T`.
#[derive(Clone, Debug, PartialEq, Eq)]
pub struct TrustedSession<T> {
    pub device: T,
    pub location: Option<T>,
    /// When it was last seen, in RFC 3339 form.
    pub last_seen: T,
    pub status: T,
}

impl View for TrustedSession<String> {
    type V = TrustedSession<Seq<char>>;

    open spec fn view(&self) -> TrustedSession<Seq<char>> {
        TrustedSession {
            device: self.device@,
            location: opt_string(self.location),
            last_seen: self.last_seen@,
            status: self.status@,
        }
    }
}

/// What each session of a list holds.
pub open spec fn session_views(sessions: Seq<TrustedSession<String>>) -> Seq<
    TrustedSession<Seq<char>>,
> {
    sessions.map_values(|session: TrustedSession<String>| session@)
}

pub const SESSIONS_OPEN: &'static str = "<section class=\"panel\" aria-labelledby=\"sessions-heading\"><div class=\"panel__header\">\
    <h2 id=\"sessions-heading\">Trusted sessions</h2><span>";

pub const SESSIONS_RECORDED: &'static str = " recorded</span></div>";

pub const SESSIONS_TABLE_OPEN: &'static str = "<div class=\"table-wrap\"><table><thead><tr><th>Device</th><th>Location</th><th>Last seen\
    </th><th>State</th><th>Action</th></tr></thead><tbody>";

pub const SESSIONS_NONE: &'static str = "<tr><td colspan=\"5\" class=\"muted\">No trusted sessions have been recorded.</td></tr>";

pub const SESSION_FORM_OPEN: &'static str = "<form method=\"post\" action=\"/app/security/sessions/revoke\" \
    hx-post=\"/app/security/sessions/revoke\" hx-target=\"#security-sessions\" \
    hx-swap=\"innerHTML\">";

pub const SESSION_FORM_END: &'static str = "<button type=\"submit\">Revoke</button></form>";

/// The form that revokes a session, offered until it is revoked.
pub open spec fn session_action(
    session: TrustedSession<Seq<char>>,
    csrf_token: Seq<char>,
) -> Seq<char> {
    if session.status == "revoked"@ {
        Seq::empty()
    } else {
        SESSION_FORM_OPEN@ + hidden("csrf_token"@, csrf_token) + hidden("device"@, session.device)
            + SESSION_FORM_END@
    }
}

/// The row of one session.
pub open spec fn session_row(
    session: TrustedSession<Seq<char>>,
    csrf_token: Seq<char>,
) -> Seq<char> {
    ROW_OPEN@ + escaped(session.device) + CELL_BREAK@ + escaped(
        text_or(session.location, "unknown"@),
    ) + CELL_BREAK@ + escaped(session.last_seen) + CELL_BREAK@ + escaped(session.status)
        + CELL_BREAK@ + session_action(session, csrf_token) + ROW_END@
}

/// The rows of a list of sessions, one after the other.
pub open spec fn session_rows(
    sessions: Seq<TrustedSession<Seq<char>>>,
    csrf_token: Seq<char>,
) -> Seq<char>
    decreases sessions.len(),
{
    if sessions.len() == 0 {
        Seq::empty()
    } else {
        session_rows(sessions.drop_last(), csrf_token) + session_row(sessions.last(), csrf_token)
    }
}

/// The table of trusted sessions.
pub open spec fn sessions_table(
    sessions: Seq<TrustedSession<Seq<char>>>,
    message: Option<Seq<char>>,
    csrf_token: Seq<char>,
) -> Seq<char> {
    SESSIONS_OPEN@ + decimal(sessions.len()) + SESSIONS_RECORDED@ + inline_message(message)
        + SESSIONS_TABLE_OPEN@ + (if sessions.len() == 0 {
        SESSIONS_NONE@
    } else {
        session_rows(sessions, csrf_token)
    }) + TABLE_END@
}

fn session_action_markup(session: &TrustedSession<String>, csrf_token: &str) -> (r: Markup)
    ensures
        r@ == session_action(session@, csrf_token@),
{
    if same_text(session.status.as_str(), "revoked") {
        Markup::empty()
    } else {
        let mut form = Markup::verbatim(SESSION_FORM_OPEN);
        form.markup(&hidden_field("csrf_token", csrf_token));
        form.markup(&hidden_field("device", session.device.as_str()));
        form.push(SESSION_FORM_END);
        form
    }
}

fn session_rows_markup(sessions: &[TrustedSession<String>], csrf_token: &str) -> (r: Markup)
    ensures
        r@ == session_rows(session_views(sessions@), csrf_token@),
{
    let ghost views = session_views(sessions@);
    let mut rows = Markup::empty();
    let mut i: usize = 0;
    while i < sessions.len()
        invariant
            i <= sessions.len(),
            views == session_views(sessions@),
            rows@ == session_rows(views.take(i as int), csrf_token@),
        decreases sessions.len() - i,
    {
        let ghost next = views.take(i + 1);
        assert(next.drop_last() =~= views.take(i as int));
        let session = &sessions[i];
        let mut row = Markup::verbatim(ROW_OPEN);
        row.text(session.device.as_str());
        row.push(CELL_BREAK);
        row.text(text_or_else(&session.location, "unknown"));
        row.push(CELL_BREAK);
        row.text(session.last_seen.as_str());
        row.push(CELL_BREAK);
        row.text(session.status.as_str());
        row.push(CELL_BREAK);
        row.markup(&session_action_markup(session, csrf_token));
        row.push(ROW_END);
        rows.markup(&row);
        i += 1;
    }
    assert(views.take(i as int) =~= views);
    rows
}

/// The table of trusted sessions: how many are recorded, and a row for each.
pub fn sessions_table_markup(
    sessions: &[TrustedSession<String>],
    message: Option<&str>,
    csrf_token: &str,
) -> (r: Markup)
    ensures
        r@ == sessions_table(session_views(sessions@), opt_str(message), csrf_token@),
{
    let mut table = Markup::verbatim(SESSIONS_OPEN);
    table.number(sessions.len() as u64);
    table.push(SESSIONS_RECORDED);
    table.markup(&inline_message_markup(message));
    table.push(SESSIONS_TABLE_OPEN);
    if sessions.len() == 0 {
        table.push(SESSIONS_NONE);
    } else {
        table.markup(&session_rows_markup(sessions, csrf_token));
    }
    table.push(TABLE_END);
    table
}

/// The preferences of a customer, as text `T`.
#[derive(Clone, Debug, PartialEq, Eq)]
pub struct CustomerPreferences<T> {
    pub region: T,
    pub timezone: T,
    pub density: T,
    pub notify_lock_contention: bool,
    pub notify_key_rotation: bool,
    pub notify_mfa: bool,
}

impl View for CustomerPreferences<String> {
    type V = CustomerPreferences<Seq<char>>;

    open spec fn view(&self) -> CustomerPreferences<Seq<char>> {
        CustomerPreferences {
            region: self.region@,
            timezone: self.timezone@,
            density: self.density@,
            notify_lock_contention: self.notify_lock_contention,
            notify_key_rotation: self.notify_key_rotation,
            notify_mfa: self.notify_mfa,
        }
    }
}

pub const PREFERENCES_OPEN: &'static str = "<section class=\"panel\" aria-labelledby=\"preferences-heading\">\
    <div class=\"panel__header\"><h2 id=\"preferences-heading\">Preferences</h2>\
    <span>Postgres-backed</span></div>";

pub const PREFERENCES_SAVED: &'static str = "<p class=\"inline-message\" role=\"status\">Preferences saved.</p>";

pub const PREFERENCES_FORM_OPEN: &'static str = "<form class=\"settings-grid\" method=\"post\" action=\"/app/settings\" \
    hx-post=\"/app/settings\" hx-target=\"#customer-preferences\" hx-swap=\"innerHTML\">";

pub const REGION_OPEN: &'static str = "<label class=\"form-field\"><span>Default region</span><select name=\"region\">";

pub const TIMEZONE_OPEN: &'static str = "</select></label><label class=\"form-field\"><span>Timezone</span>\
    <input name=\"timezone\" value=\"";

pub const DENSITY_OPEN: &'static str = "\" required></label><label class=\"form-field\"><span>Dashboard density</span>\
    <select name=\"density\"><option value=\"comfortable\"";

pub const DENSITY_COMPACT: &'static str = ">Comfortable</option><option value=\"compact\"";

pub const NOTIFY_LOCK_CONTENTION: &'static str = ">Compact</option></select></label><fieldset class=\"toggle-group\"><legend>Notifications\
    </legend><label class=\"checkbox-line\">\
    <input type=\"checkbox\" name=\"notify_lock_contention\" value=\"1\"";

pub const NOTIFY_KEY_ROTATION: &'static str = "><span>Lock contention</span></label><label class=\"checkbox-line\">\
    <input type=\"checkbox\" name=\"notify_key_rotation\" value=\"1\"";

pub const NOTIFY_MFA: &'static str = "><span>API key rotation</span></label><label class=\"checkbox-line\">\
    <input type=\"checkbox\" name=\"notify_mfa\" value=\"1\"";

pub const PREFERENCES_END: &'static str = "><span>MFA changes</span></label></fieldset><button type=\"submit\">Save preferences\
    </button></form></section>";

/// The form that changes the preferences, with the present ones filled in.
pub open spec fn preferences_form(
    preferences: CustomerPreferences<Seq<char>>,
    regions: Seq<Seq<char>>,
    saved: bool,
    csrf_token: Seq<char>,
) -> Seq<char> {
    PREFERENCES_OPEN@ + flag(saved, PREFERENCES_SAVED@) + PREFERENCES_FORM_OPEN@ + hidden(
        "csrf_token"@,
        csrf_token,
    ) + REGION_OPEN@ + choices(regions, preferences.region) + TIMEZONE_OPEN@ + escaped(
        preferences.timezone,
    ) + DENSITY_OPEN@ + flag(preferences.density == "comfortable"@, SELECTED@) + DENSITY_COMPACT@
        + flag(preferences.density == "compact"@, SELECTED@) + NOTIFY_LOCK_CONTENTION@ + flag(
        preferences.notify_lock_contention,
        CHECKED@,
    ) + NOTIFY_KEY_ROTATION@ + flag(preferences.notify_key_rotation, CHECKED@) + NOTIFY_MFA@
        + flag(preferences.notify_mfa, CHECKED@) + PREFERENCES_END@
}

/// The form that changes the preferences, with the present ones filled in; `regions` are those
/// that customers can choose.
pub fn preferences_form_markup(
    preferences: &CustomerPreferences<String>,
    regions: &[String],
    saved: bool,
    csrf_token: &str,
) -> (r: Markup)
    ensures
        r@ == preferences_form(preferences@, string_views(regions@), saved, csrf_token@),
{
    let density = preferences.density.as_str();
    let mut form = Markup::verbatim(PREFERENCES_OPEN);
    form.markup(&flag_markup(saved, PREFERENCES_SAVED));
    form.push(PREFERENCES_FORM_OPEN);
    form.markup(&hidden_field("csrf_token", csrf_token));
    form.push(REGION_OPEN);
    form.markup(&choices_markup(regions, preferences.region.as_str()));
    form.push(TIMEZONE_OPEN);
    form.text(preferences.timezone.as_str());
    form.push(DENSITY_OPEN);
    form.markup(&flag_markup(same_text(density, "comfortable"), SELECTED));
    form.push(DENSITY_COMPACT);
    form.markup(&flag_markup(same_text(density, "compact"), SELECTED));
    form.push(NOTIFY_LOCK_CONTENTION);
    form.markup(&flag_markup(preferences.notify_lock_contention, CHECKED));
    form.push(NOTIFY_KEY_ROTATION);
    form.markup(&flag_markup(preferences.notify_key_rotation, CHECKED));
    form.push(NOTIFY_MFA);
    form.markup(&flag_markup(preferences.notify_mfa, CHECKED));
    form.push(PREFERENCES_END);
    form
}

pub const SUMMARY: &'static str = "<div class=\"summary-grid\"><div class=\"metric\"><p class=\"metric__label\">API keys</p>\
    <p class=\"metric__value\">live</p>\
    <p class=\"metric__hint\">sanitized metadata from fiducia-auth after sign-in</p></div>\
    <div class=\"metric\"><p class=\"metric__label\">Preferences</p>\
    <p class=\"metric__value\">live</p>\
    <p class=\"metric__hint\">persisted per authenticated user</p></div><div class=\"metric\">\
    <p class=\"metric__label\">Sessions</p><p class=\"metric__value\">live</p>\
    <p class=\"metric__hint\">trusted sessions from customer PostgreSQL</p></div>\
    <div class=\"metric\"><p class=\"metric__label\">Application boundary</p>\
    <p class=\"metric__value\">customer</p>\
    <p class=\"metric__hint\">operator infrastructure controls live only in the admin app</p>\
    </div></div>";

/// The summary at the top of the dashboard.
pub fn summary_markup() -> (r: Markup)
    ensures
        r@ == SUMMARY@,
{
    Markup::verbatim(SUMMARY)
}

} // verus!
