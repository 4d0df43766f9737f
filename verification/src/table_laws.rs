//! What the tables and the preferences form show, whatever the values that they show.

use crate::auth_pages::hidden;
use crate::html::escaped;
use crate::page_laws::{alike_in_one, alike_in_two, lemma_regrouped};
use crate::tables::{
    activity_table, choice, choices, event_row, event_rows, flag, inline_message, note_body,
    note_link, note_row, note_rows, notifications_table, preferences_form, session_row,
    session_rows, sessions_table, CustomerAuditEvent, CustomerPreferences, Notification,
    TrustedSession, ACTIVITY_OPEN, ACTIVITY_TABLE_OPEN, CELL_BREAK, CHECKED, CODE_CELL_END,
    CODE_CELL_OPEN, CODE_ROW_END, DENSITY_COMPACT, DENSITY_OPEN, NOTES_OPEN, NOTES_SHOWN,
    NOTES_TABLE_OPEN, NOTES_UNREAD, NOTE_FORM_END, NOTE_FORM_OPEN, NOTE_SEVERITY, NOTE_TITLE,
    NOTIFY_KEY_ROTATION, NOTIFY_LOCK_CONTENTION, NOTIFY_MFA, PREFERENCES_END,
    PREFERENCES_FORM_OPEN, PREFERENCES_OPEN, PREFERENCES_SAVED, REGION_OPEN, ROW_END, ROW_OPEN,
    SELECTED, SESSIONS_OPEN, SESSIONS_RECORDED, SESSIONS_TABLE_OPEN, SESSION_FORM_END,
    SESSION_FORM_OPEN, TABLE_END, TIMEZONE_OPEN,
};
use crate::text::decimal;
use crate::text_laws::occurs;
use vstd::prelude::*;

verus! {

/// A cell of a table.
pub open spec fn cell(content: Seq<char>) -> Seq<char> {
    "<td>"@ + content + "</td>"@
}

/// A row of a table with five cells.
pub open spec fn row_of_five(
    c0: Seq<char>,
    c1: Seq<char>,
    c2: Seq<char>,
    c3: Seq<char>,
    c4: Seq<char>,
) -> Seq<char> {
    "<tr>"@ + cell(c0) + cell(c1) + cell(c2) + cell(c3) + cell(c4) + "</tr>"@
}

/// A text as code.
pub open spec fn coded(text: Seq<char>) -> Seq<char> {
    "<code>"@ + escaped(text) + "</code>"@
}

/// A severity as a pill of its own kind.
pub open spec fn severity_pill(severity: Seq<char>) -> Seq<char> {
    "<span class=\"status-pill\" data-severity=\""@ + escaped(severity) + "\">"@ + escaped(severity)
        + "</span>"@
}

/// What the row of a notice says: its title, its text where it has one, and its link where it has
/// one.
pub open spec fn notice_text(
    title: Seq<char>,
    body: Seq<char>,
    link: Option<Seq<char>>,
) -> Seq<char> {
    "<strong>"@ + escaped(title) + "</strong>"@ + (if body.len() == 0 {
        Seq::empty()
    } else {
        "<div class=\"muted\">"@ + escaped(body) + "</div>"@
    }) + (match link {
        Some(link) => "<div><a href=\""@ + escaped(link) + "\">View</a></div>"@,
        None => Seq::empty(),
    })
}

broadcast proof fn lemma_nothing_added(a: Seq<char>)
    ensures
        #[trigger] (a + Seq::<char>::empty()) == a,
{
    assert(a + Seq::<char>::empty() =~= a);
}

proof fn lemma_marks()
    ensures
        ROW_OPEN@ == "<tr>"@ + "<td>"@,
        CELL_BREAK@ == "</td>"@ + "<td>"@,
        ROW_END@ == "</td>"@ + "</tr>"@,
        NOTE_SEVERITY@ == "</td>"@ + "<td>"@ + "<span class=\"status-pill\" data-severity=\""@,
        NOTE_TITLE@ == "</span>"@ + "</td>"@ + "<td>"@ + "<strong>"@,
        CODE_CELL_OPEN@ == "</td>"@ + "<td>"@ + "<code>"@,
        CODE_CELL_END@ == "</code>"@ + "</td>"@ + "<td>"@,
        CODE_ROW_END@ == "</code>"@ + "</td>"@ + "</tr>"@,
{
    reveal_strlit("<tr><td>");
    reveal_strlit("</td><td>");
    reveal_strlit("</td></tr>");
    reveal_strlit("</td><td><span class=\"status-pill\" data-severity=\"");
    reveal_strlit("</span></td><td><strong>");
    reveal_strlit("</td><td><code>");
    reveal_strlit("</code></td><td>");
    reveal_strlit("</code></td></tr>");
    reveal_strlit("<tr>");
    reveal_strlit("<td>");
    reveal_strlit("</td>");
    reveal_strlit("</tr>");
    reveal_strlit("<span class=\"status-pill\" data-severity=\"");
    reveal_strlit("</span>");
    reveal_strlit("<strong>");
    reveal_strlit("<code>");
    reveal_strlit("</code>");
    assert(ROW_OPEN@ =~= "<tr>"@ + "<td>"@);
    assert(CELL_BREAK@ =~= "</td>"@ + "<td>"@);
    assert(ROW_END@ =~= "</td>"@ + "</tr>"@);
    assert(NOTE_SEVERITY@ =~= "</td>"@ + "<td>"@
        + "<span class=\"status-pill\" data-severity=\""@);
    assert(NOTE_TITLE@ =~= "</span>"@ + "</td>"@ + "<td>"@ + "<strong>"@);
    assert(CODE_CELL_OPEN@ =~= "</td>"@ + "<td>"@ + "<code>"@);
    assert(CODE_CELL_END@ =~= "</code>"@ + "</td>"@ + "<td>"@);
    assert(CODE_ROW_END@ =~= "</code>"@ + "</td>"@ + "</tr>"@);
}

/// The row of a notice shows when it was created, how severe it is and what it says, in this
/// order and whether or not it was read. A notice that was read is then shown as read, with no
/// form.
pub proof fn law_notices_that_were_read_are_shown(
    note: Notification<Seq<char>>,
    csrf_token: Seq<char>,
)
    requires
        note.read_at is Some,
    ensures
        note_row(note, csrf_token) == row_of_five(
            escaped(note.created_at),
            severity_pill(note.severity),
            notice_text(note.title, note.body, note.link),
            "read"@,
            Seq::empty(),
        ),
{
    broadcast use {lemma_regrouped, lemma_nothing_added};

    lemma_marks();
}

/// The row of a notice shows when it was created, how severe it is and what it says, in this
/// order and whether or not it was read. An unread notice is then shown as unread, with a form
/// that has the token and the identifier of the notice.
pub proof fn law_unread_notices_are_shown_with_a_form(
    note: Notification<Seq<char>>,
    csrf_token: Seq<char>,
)
    requires
        note.read_at is None,
    ensures
        note_row(note, csrf_token) == row_of_five(
            escaped(note.created_at),
            severity_pill(note.severity),
            notice_text(note.title, note.body, note.link),
            "unread"@,
            NOTE_FORM_OPEN@ + hidden("csrf_token"@, csrf_token) + hidden("id"@, note.id)
                + NOTE_FORM_END@,
        ),
{
    broadcast use {lemma_regrouped, lemma_nothing_added};

    lemma_marks();
}

proof fn lemma_row_holds_its_third_cell(
    c0: Seq<char>,
    c1: Seq<char>,
    x: Seq<char>,
    y: Seq<char>,
    z: Seq<char>,
    c3: Seq<char>,
    c4: Seq<char>,
)
    ensures
        occurs(row_of_five(c0, c1, x + y + z, c3, c4), x),
        occurs(row_of_five(c0, c1, x + y + z, c3, c4), y),
        occurs(row_of_five(c0, c1, x + y + z, c3, c4), z),
        ("<tr>"@ + cell(c0) + cell(c1) + cell(x + y + z)).is_prefix_of(
            row_of_five(c0, c1, x + y + z, c3, c4),
        ),
{
    broadcast use lemma_regrouped;

    let row = row_of_five(c0, c1, x + y + z, c3, c4);
    let before = "<tr>"@ + cell(c0) + cell(c1) + "<td>"@;
    let after = "</td>"@ + cell(c3) + cell(c4) + "</tr>"@;
    assert(row == before + x + (y + z + after));
    assert(row == (before + x) + y + (z + after));
    assert(row == (before + x + y) + z + after);
    let opened = "<tr>"@ + cell(c0) + cell(c1) + cell(x + y + z);
    let rest = cell(c3) + cell(c4) + "</tr>"@;
    assert(row == opened + rest);
    assert((opened + rest).take(opened.len() as int) =~= opened);
}

/// Reading a notice takes nothing from what its row says: the title, the text where there is one
/// and the link where there is one stand in it before and after.
pub proof fn law_reading_a_notice_hides_nothing(
    note: Notification<Seq<char>>,
    read_at: Option<Seq<char>>,
    csrf_token: Seq<char>,
)
    ensures
        ({
            let row = note_row(Notification { read_at: read_at, ..note }, csrf_token);
            &&& occurs(row, "<strong>"@ + escaped(note.title) + "</strong>"@)
            &&& note.body.len() > 0 ==> occurs(
                row,
                "<div class=\"muted\">"@ + escaped(note.body) + "</div>"@,
            )
            &&& note.link matches Some(link) ==> occurs(
                row,
                "<div><a href=\""@ + escaped(link) + "\">View</a></div>"@,
            )
            &&& ("<tr>"@ + cell(escaped(note.created_at)) + cell(severity_pill(note.severity))
                + cell(
                notice_text(note.title, note.body, note.link),
            )).is_prefix_of(row)
        }),
{
    let shown = Notification { read_at: read_at, ..note };
    let strong = "<strong>"@ + escaped(note.title) + "</strong>"@;
    let (state, action) = if read_at is Some {
        ("read"@, Seq::<char>::empty())
    } else {
        (
            "unread"@,
            NOTE_FORM_OPEN@ + hidden("csrf_token"@, csrf_token) + hidden("id"@, note.id)
                + NOTE_FORM_END@,
        )
    };
    if read_at is Some {
        law_notices_that_were_read_are_shown(shown, csrf_token);
    } else {
        law_unread_notices_are_shown_with_a_form(shown, csrf_token);
    }
    lemma_row_holds_its_third_cell(
        escaped(note.created_at),
        severity_pill(note.severity),
        strong,
        note_body(note.body),
        note_link(note.link),
        state,
        action,
    );
}

/// A list of notices has the row of each, in their order.
pub proof fn law_notices_are_listed_in_order(
    first: Seq<Notification<Seq<char>>>,
    second: Seq<Notification<Seq<char>>>,
    item: Notification<Seq<char>>,
    csrf_token: Seq<char>,
)
    ensures
        note_rows(first + second, csrf_token) == note_rows(first, csrf_token)
            + note_rows(second, csrf_token),
        note_rows(seq![item], csrf_token) == note_row(item, csrf_token),
        note_rows(Seq::empty(), csrf_token) == Seq::<char>::empty(),
    decreases second.len(),
{
    reveal_with_fuel(note_rows, 2);
    assert(seq![item].drop_last() =~= Seq::empty());
    assert(Seq::<char>::empty() + note_row(item, csrf_token) =~= note_row(item, csrf_token));
    if second.len() == 0 {
        assert(first + second =~= first);
        assert(note_rows(first, csrf_token)
            + Seq::<char>::empty() =~= note_rows(first, csrf_token));
    } else {
        law_notices_are_listed_in_order(first, second.drop_last(), item, csrf_token);
        assert((first + second).drop_last() =~= first + second.drop_last());
        lemma_regrouped(
            note_rows(first, csrf_token),
            note_rows(second.drop_last(), csrf_token),
            note_row(second.last(), csrf_token),
        );
    }
}

/// The row of an entry of the audit log shows when it was made, who acted, what was done, to what
/// and in which request. An actor that is not known is the system; a target or a request that is
/// not known is a dash.
pub proof fn law_entries_show_their_fields(event: CustomerAuditEvent<Seq<char>>)
    ensures
        event_row(event) == row_of_five(
            escaped(event.created_at),
            escaped(
                match event.actor {
                    Some(actor) => actor,
                    None => "system"@,
                },
            ),
            coded(event.action),
            escaped(
                match event.target {
                    Some(target) => target,
                    None => "—"@,
                },
            ),
            coded(
                match event.request_id {
                    Some(request_id) => request_id,
                    None => "—"@,
                },
            ),
        ),
{
    broadcast use lemma_regrouped;

    lemma_marks();
}

/// A list of entries has the row of each, in their order.
pub proof fn law_entries_are_listed_in_order(
    first: Seq<CustomerAuditEvent<Seq<char>>>,
    second: Seq<CustomerAuditEvent<Seq<char>>>,
    item: CustomerAuditEvent<Seq<char>>,
)
    ensures
        event_rows(first + second) == event_rows(first) + event_rows(second),
        event_rows(seq![item]) == event_row(item),
        event_rows(Seq::empty()) == Seq::<char>::empty(),
    decreases second.len(),
{
    reveal_with_fuel(event_rows, 2);
    assert(seq![item].drop_last() =~= Seq::empty());
    assert(Seq::<char>::empty() + event_row(item) =~= event_row(item));
    if second.len() == 0 {
        assert(first + second =~= first);
        assert(event_rows(first) + Seq::<char>::empty() =~= event_rows(first));
    } else {
        law_entries_are_listed_in_order(first, second.drop_last(), item);
        assert((first + second).drop_last() =~= first + second.drop_last());
        lemma_regrouped(
            event_rows(first),
            event_rows(second.drop_last()),
            event_row(second.last()),
        );
    }
}

/// The row of a session shows its device, where it was, when it was last seen and its state. A
/// place that is not known is shown as unknown. Until the session is revoked, the row has a form
/// with the token and the device.
pub proof fn law_sessions_show_their_fields(session: TrustedSession<Seq<char>>, csrf_token: Seq<char>)
    ensures
        session_row(session, csrf_token) == row_of_five(
            escaped(session.device),
            escaped(
                match session.location {
                    Some(location) => location,
                    None => "unknown"@,
                },
            ),
            escaped(session.last_seen),
            escaped(session.status),
            if session.status == "revoked"@ {
                Seq::empty()
            } else {
                SESSION_FORM_OPEN@ + hidden("csrf_token"@, csrf_token) + hidden(
                    "device"@,
                    session.device,
                ) + SESSION_FORM_END@
            },
        ),
{
    broadcast use {lemma_regrouped, lemma_nothing_added};

    lemma_marks();
}

/// A list of sessions has the row of each, in their order.
pub proof fn law_sessions_are_listed_in_order(
    first: Seq<TrustedSession<Seq<char>>>,
    second: Seq<TrustedSession<Seq<char>>>,
    item: TrustedSession<Seq<char>>,
    csrf_token: Seq<char>,
)
    ensures
        session_rows(first + second, csrf_token) == session_rows(first, csrf_token)
            + session_rows(second, csrf_token),
        session_rows(seq![item], csrf_token) == session_row(item, csrf_token),
        session_rows(Seq::empty(), csrf_token) == Seq::<char>::empty(),
    decreases second.len(),
{
    reveal_with_fuel(session_rows, 2);
    assert(seq![item].drop_last() =~= Seq::empty());
    assert(Seq::<char>::empty() + session_row(item, csrf_token) =~= session_row(item, csrf_token));
    if second.len() == 0 {
        assert(first + second =~= first);
        assert(session_rows(first, csrf_token)
            + Seq::<char>::empty() =~= session_rows(first, csrf_token));
    } else {
        law_sessions_are_listed_in_order(first, second.drop_last(), item, csrf_token);
        assert((first + second).drop_last() =~= first + second.drop_last());
        lemma_regrouped(
            session_rows(first, csrf_token),
            session_rows(second.drop_last(), csrf_token),
            session_row(second.last(), csrf_token),
        );
    }
}

/// The rows of the notices, or the remark that there are none.
pub open spec fn notices_or_remark(
    notifications: Seq<Notification<Seq<char>>>,
    csrf_token: Seq<char>,
) -> Seq<char> {
    if notifications =~= Seq::empty() {
        "<tr><td colspan=\"5\" class=\"muted\">You have no notifications.</td></tr>"@
    } else {
        note_rows(notifications, csrf_token)
    }
}

/// The rows of the entries, or the remark that there are none.
pub open spec fn entries_or_remark(events: Seq<CustomerAuditEvent<Seq<char>>>) -> Seq<char> {
    if events =~= Seq::empty() {
        "<tr><td colspan=\"5\" class=\"muted\">No customer-visible activity is recorded for this \
            organization yet.</td></tr>"@
    } else {
        event_rows(events)
    }
}

/// The rows of the sessions, or the remark that there are none.
pub open spec fn sessions_or_remark(
    sessions: Seq<TrustedSession<Seq<char>>>,
    csrf_token: Seq<char>,
) -> Seq<char> {
    if sessions =~= Seq::empty() {
        "<tr><td colspan=\"5\" class=\"muted\">No trusted sessions have been recorded.</td></tr>"@
    } else {
        session_rows(sessions, csrf_token)
    }
}

/// The table of notices shows how many are unread and how many are shown, its message, and the
/// rows. It is otherwise the same.
pub proof fn law_notices_table_has_counts_message_and_rows(
    notifications: Seq<Notification<Seq<char>>>,
    unread: u64,
    message: Option<Seq<char>>,
    csrf_token: Seq<char>,
    others: Seq<Notification<Seq<char>>>,
    other_count: u64,
    other_message: Option<Seq<char>>,
    other: Seq<char>,
)
    ensures
        alike_in_one(
            notifications_table(notifications, unread, message, csrf_token),
            NOTES_OPEN@ + decimal(unread as nat) + NOTES_UNREAD@,
            notifications_table(notifications, other_count, message, csrf_token),
            NOTES_OPEN@ + decimal(other_count as nat) + NOTES_UNREAD@,
        ),
        alike_in_two(
            notifications_table(notifications, unread, message, csrf_token),
            NOTES_UNREAD@ + decimal(notifications.len()) + NOTES_SHOWN@,
            NOTES_TABLE_OPEN@ + notices_or_remark(notifications, csrf_token) + TABLE_END@,
            notifications_table(others, unread, message, csrf_token),
            NOTES_UNREAD@ + decimal(others.len()) + NOTES_SHOWN@,
            NOTES_TABLE_OPEN@ + notices_or_remark(others, csrf_token) + TABLE_END@,
        ),
        alike_in_one(
            notifications_table(notifications, unread, message, csrf_token),
            NOTES_SHOWN@ + inline_message(message) + NOTES_TABLE_OPEN@,
            notifications_table(notifications, unread, other_message, csrf_token),
            NOTES_SHOWN@ + inline_message(other_message) + NOTES_TABLE_OPEN@,
        ),
        alike_in_one(
            notifications_table(notifications, unread, message, csrf_token),
            NOTES_TABLE_OPEN@ + notices_or_remark(notifications, csrf_token) + TABLE_END@,
            notifications_table(notifications, unread, message, other),
            NOTES_TABLE_OPEN@ + notices_or_remark(notifications, other) + TABLE_END@,
        ),
{
    broadcast use lemma_regrouped;
    {
        let a = Seq::<char>::empty();
        let b = decimal(notifications.len()) + NOTES_SHOWN@ + inline_message(message)
            + NOTES_TABLE_OPEN@ + notices_or_remark(notifications, csrf_token) + TABLE_END@;
        assert(notifications_table(notifications, unread, message, csrf_token) =~= a + (NOTES_OPEN@
            + decimal(unread as nat) + NOTES_UNREAD@) + b);
        assert(notifications_table(notifications, other_count, message, csrf_token) =~= a
            + (NOTES_OPEN@ + decimal(other_count as nat) + NOTES_UNREAD@) + b);
    }
    {
        let a = NOTES_OPEN@ + decimal(unread as nat);
        let b = inline_message(message);
        let c = Seq::<char>::empty();
        assert(notifications_table(notifications, unread, message, csrf_token) =~= a
            + (NOTES_UNREAD@ + decimal(notifications.len()) + NOTES_SHOWN@) + b
            + (NOTES_TABLE_OPEN@ + notices_or_remark(notifications, csrf_token) + TABLE_END@) + c);
        assert(notifications_table(others, unread, message, csrf_token) =~= a + (NOTES_UNREAD@
            + decimal(others.len()) + NOTES_SHOWN@) + b + (NOTES_TABLE_OPEN@
            + notices_or_remark(others, csrf_token) + TABLE_END@) + c);
    }
    {
        let a = NOTES_OPEN@ + decimal(unread as nat) + NOTES_UNREAD@ + decimal(notifications.len());
        let b = notices_or_remark(notifications, csrf_token) + TABLE_END@;
        assert(notifications_table(notifications, unread, message, csrf_token) =~= a
            + (NOTES_SHOWN@ + inline_message(message) + NOTES_TABLE_OPEN@) + b);
        assert(notifications_table(notifications, unread, other_message, csrf_token) =~= a
            + (NOTES_SHOWN@ + inline_message(other_message) + NOTES_TABLE_OPEN@) + b);
    }
    {
        let a = NOTES_OPEN@ + decimal(unread as nat) + NOTES_UNREAD@ + decimal(notifications.len())
            + NOTES_SHOWN@ + inline_message(message);
        let b = Seq::<char>::empty();
        assert(notifications_table(notifications, unread, message, csrf_token) =~= a
            + (NOTES_TABLE_OPEN@ + notices_or_remark(notifications, csrf_token) + TABLE_END@) + b);
        assert(notifications_table(notifications, unread, message, other) =~= a
            + (NOTES_TABLE_OPEN@ + notices_or_remark(notifications, other) + TABLE_END@) + b);
    }
}

/// The table of the audit log shows how many entries are shown, and their rows. It is otherwise
/// the same.
pub proof fn law_activity_table_has_count_and_rows(
    events: Seq<CustomerAuditEvent<Seq<char>>>,
    others: Seq<CustomerAuditEvent<Seq<char>>>,
)
    ensures
        alike_in_two(
            activity_table(events),
            ACTIVITY_OPEN@ + decimal(events.len()),
            ACTIVITY_TABLE_OPEN@ + entries_or_remark(events) + TABLE_END@,
            activity_table(others),
            ACTIVITY_OPEN@ + decimal(others.len()),
            ACTIVITY_TABLE_OPEN@ + entries_or_remark(others) + TABLE_END@,
        ),
{
    broadcast use lemma_regrouped;
    let a = Seq::<char>::empty();
    let b = Seq::<char>::empty();
    let c = Seq::<char>::empty();
    assert(activity_table(events) =~= a + (ACTIVITY_OPEN@ + decimal(events.len())) + b
        + (ACTIVITY_TABLE_OPEN@ + entries_or_remark(events) + TABLE_END@) + c);
    assert(activity_table(others) =~= a + (ACTIVITY_OPEN@ + decimal(others.len())) + b
        + (ACTIVITY_TABLE_OPEN@ + entries_or_remark(others) + TABLE_END@) + c);
}

/// The table of sessions shows how many are recorded, its message, and their rows. It is
/// otherwise the same.
pub proof fn law_sessions_table_has_count_message_and_rows(
    sessions: Seq<TrustedSession<Seq<char>>>,
    message: Option<Seq<char>>,
    csrf_token: Seq<char>,
    others: Seq<TrustedSession<Seq<char>>>,
    other_message: Option<Seq<char>>,
    other: Seq<char>,
)
    ensures
        alike_in_two(
            sessions_table(sessions, message, csrf_token),
            SESSIONS_OPEN@ + decimal(sessions.len()) + SESSIONS_RECORDED@,
            SESSIONS_TABLE_OPEN@ + sessions_or_remark(sessions, csrf_token) + TABLE_END@,
            sessions_table(others, message, csrf_token),
            SESSIONS_OPEN@ + decimal(others.len()) + SESSIONS_RECORDED@,
            SESSIONS_TABLE_OPEN@ + sessions_or_remark(others, csrf_token) + TABLE_END@,
        ),
        alike_in_one(
            sessions_table(sessions, message, csrf_token),
            SESSIONS_RECORDED@ + inline_message(message) + SESSIONS_TABLE_OPEN@,
            sessions_table(sessions, other_message, csrf_token),
            SESSIONS_RECORDED@ + inline_message(other_message) + SESSIONS_TABLE_OPEN@,
        ),
        alike_in_one(
            sessions_table(sessions, message, csrf_token),
            SESSIONS_TABLE_OPEN@ + sessions_or_remark(sessions, csrf_token) + TABLE_END@,
            sessions_table(sessions, message, other),
            SESSIONS_TABLE_OPEN@ + sessions_or_remark(sessions, other) + TABLE_END@,
        ),
{
    broadcast use lemma_regrouped;
    {
        let a = Seq::<char>::empty();
        let b = inline_message(message);
        let c = Seq::<char>::empty();
        assert(sessions_table(sessions, message, csrf_token) =~= a + (SESSIONS_OPEN@
            + decimal(sessions.len()) + SESSIONS_RECORDED@) + b + (SESSIONS_TABLE_OPEN@
            + sessions_or_remark(sessions, csrf_token) + TABLE_END@) + c);
        assert(sessions_table(others, message, csrf_token) =~= a + (SESSIONS_OPEN@
            + decimal(others.len()) + SESSIONS_RECORDED@) + b + (SESSIONS_TABLE_OPEN@
            + sessions_or_remark(others, csrf_token) + TABLE_END@) + c);
    }
    {
        let a = SESSIONS_OPEN@ + decimal(sessions.len());
        let b = sessions_or_remark(sessions, csrf_token) + TABLE_END@;
        assert(sessions_table(sessions, message, csrf_token) =~= a + (SESSIONS_RECORDED@
            + inline_message(message) + SESSIONS_TABLE_OPEN@) + b);
        assert(sessions_table(sessions, other_message, csrf_token) =~= a + (SESSIONS_RECORDED@
            + inline_message(other_message) + SESSIONS_TABLE_OPEN@) + b);
    }
    {
        let a = SESSIONS_OPEN@ + decimal(sessions.len()) + SESSIONS_RECORDED@
            + inline_message(message);
        let b = Seq::<char>::empty();
        assert(sessions_table(sessions, message, csrf_token) =~= a + (SESSIONS_TABLE_OPEN@
            + sessions_or_remark(sessions, csrf_token) + TABLE_END@) + b);
        assert(sessions_table(sessions, message, other) =~= a + (SESSIONS_TABLE_OPEN@
            + sessions_or_remark(sessions, other) + TABLE_END@) + b);
    }
}

/// A word of markup stands where it applies, and nowhere else.
pub proof fn law_words_stand_where_they_apply(word: Seq<char>)
    ensures
        flag(true, word) == word,
        flag(false, word) == Seq::<char>::empty(),
{
}

/// A list of choices has each of its values, in their order, as value and as label. Of a list,
/// the choices that equal the given text are selected, and no others.
pub proof fn law_choices_select_the_given_text(
    first: Seq<Seq<char>>,
    second: Seq<Seq<char>>,
    value: Seq<char>,
    selected: Seq<char>,
)
    ensures
        choices(first + second, selected) == choices(first, selected) + choices(second, selected),
        choices(seq![selected], selected) == "<option value=\""@ + escaped(selected) + "\""@
            + " selected"@ + ">"@ + escaped(selected) + "</option>"@,
        value != selected ==> choices(seq![value], selected) == "<option value=\""@ + escaped(value)
            + "\""@ + ">"@ + escaped(value) + "</option>"@,
        choices(Seq::empty(), selected) == Seq::<char>::empty(),
    decreases second.len(),
{
    reveal_with_fuel(choices, 2);
    assert(seq![value].drop_last() =~= Seq::empty());
    assert(seq![selected].drop_last() =~= Seq::empty());
    assert(Seq::<char>::empty() + choice(value, value == selected) =~= choice(
        value,
        value == selected,
    ));
    assert(Seq::<char>::empty() + choice(selected, true) =~= choice(selected, true));
    lemma_nothing_added("<option value=\""@ + escaped(value) + "\""@);
    if second.len() == 0 {
        assert(first + second =~= first);
        lemma_nothing_added(choices(first, selected));
    } else {
        law_choices_select_the_given_text(first, second.drop_last(), value, selected);
        assert((first + second).drop_last() =~= first + second.drop_last());
        lemma_regrouped(
            choices(first, selected),
            choices(second.drop_last(), selected),
            choice(second.last(), second.last() == selected),
        );
    }
}

/// The form for the preferences says that they were saved where they were, has the token, and
/// offers the regions with the present one selected. It is otherwise the same.
pub proof fn law_preferences_form_has_token_and_choices(
    wishes: CustomerPreferences<Seq<char>>,
    regions: Seq<Seq<char>>,
    saved: bool,
    csrf_token: Seq<char>,
    other: Seq<char>,
    others: Seq<Seq<char>>,
    other_saved: bool,
)
    ensures
        alike_in_one(
            preferences_form(wishes, regions, saved, csrf_token),
            PREFERENCES_OPEN@ + flag(saved, PREFERENCES_SAVED@) + PREFERENCES_FORM_OPEN@,
            preferences_form(wishes, regions, other_saved, csrf_token),
            PREFERENCES_OPEN@ + flag(other_saved, PREFERENCES_SAVED@) + PREFERENCES_FORM_OPEN@,
        ),
        alike_in_one(
            preferences_form(wishes, regions, saved, csrf_token),
            PREFERENCES_FORM_OPEN@ + hidden("csrf_token"@, csrf_token) + REGION_OPEN@,
            preferences_form(wishes, regions, saved, other),
            PREFERENCES_FORM_OPEN@ + hidden("csrf_token"@, other) + REGION_OPEN@,
        ),
        alike_in_one(
            preferences_form(wishes, regions, saved, csrf_token),
            REGION_OPEN@ + choices(regions, wishes.region) + TIMEZONE_OPEN@,
            preferences_form(CustomerPreferences { region: other, ..wishes }, regions, saved, csrf_token),
            REGION_OPEN@ + choices(regions, other) + TIMEZONE_OPEN@,
        ),
        alike_in_one(
            preferences_form(wishes, regions, saved, csrf_token),
            REGION_OPEN@ + choices(regions, wishes.region) + TIMEZONE_OPEN@,
            preferences_form(wishes, others, saved, csrf_token),
            REGION_OPEN@ + choices(others, wishes.region) + TIMEZONE_OPEN@,
        ),
{
    broadcast use lemma_regrouped;
    {
        let a = Seq::<char>::empty();
        let b = hidden("csrf_token"@, csrf_token) + REGION_OPEN@ + choices(regions, wishes.region)
            + TIMEZONE_OPEN@ + escaped(wishes.timezone) + DENSITY_OPEN@
            + flag(wishes.density == "comfortable"@, SELECTED@) + DENSITY_COMPACT@
            + flag(wishes.density == "compact"@, SELECTED@) + NOTIFY_LOCK_CONTENTION@
            + flag(wishes.notify_lock_contention, CHECKED@) + NOTIFY_KEY_ROTATION@
            + flag(wishes.notify_key_rotation, CHECKED@) + NOTIFY_MFA@
            + flag(wishes.notify_mfa, CHECKED@) + PREFERENCES_END@;
        assert(preferences_form(wishes, regions, saved, csrf_token) =~= a + (PREFERENCES_OPEN@
            + flag(saved, PREFERENCES_SAVED@) + PREFERENCES_FORM_OPEN@) + b);
        assert(preferences_form(wishes, regions, other_saved, csrf_token) =~= a
            + (PREFERENCES_OPEN@ + flag(other_saved, PREFERENCES_SAVED@) + PREFERENCES_FORM_OPEN@)
            + b);
    }
    {
        let a = PREFERENCES_OPEN@ + flag(saved, PREFERENCES_SAVED@);
        let b = choices(regions, wishes.region) + TIMEZONE_OPEN@ + escaped(wishes.timezone)
            + DENSITY_OPEN@ + flag(wishes.density == "comfortable"@, SELECTED@) + DENSITY_COMPACT@
            + flag(wishes.density == "compact"@, SELECTED@) + NOTIFY_LOCK_CONTENTION@
            + flag(wishes.notify_lock_contention, CHECKED@) + NOTIFY_KEY_ROTATION@
            + flag(wishes.notify_key_rotation, CHECKED@) + NOTIFY_MFA@
            + flag(wishes.notify_mfa, CHECKED@) + PREFERENCES_END@;
        assert(preferences_form(wishes, regions, saved, csrf_token) =~= a + (PREFERENCES_FORM_OPEN@
            + hidden("csrf_token"@, csrf_token) + REGION_OPEN@) + b);
        assert(preferences_form(wishes, regions, saved, other) =~= a + (PREFERENCES_FORM_OPEN@
            + hidden("csrf_token"@, other) + REGION_OPEN@) + b);
    }
    {
        let a = PREFERENCES_OPEN@ + flag(saved, PREFERENCES_SAVED@) + PREFERENCES_FORM_OPEN@
            + hidden("csrf_token"@, csrf_token);
        let b = escaped(wishes.timezone) + DENSITY_OPEN@
            + flag(wishes.density == "comfortable"@, SELECTED@) + DENSITY_COMPACT@
            + flag(wishes.density == "compact"@, SELECTED@) + NOTIFY_LOCK_CONTENTION@
            + flag(wishes.notify_lock_contention, CHECKED@) + NOTIFY_KEY_ROTATION@
            + flag(wishes.notify_key_rotation, CHECKED@) + NOTIFY_MFA@
            + flag(wishes.notify_mfa, CHECKED@) + PREFERENCES_END@;
        assert(preferences_form(wishes, regions, saved, csrf_token) =~= a + (REGION_OPEN@
            + choices(regions, wishes.region) + TIMEZONE_OPEN@) + b);
        assert(preferences_form(CustomerPreferences { region: other, ..wishes }, regions, saved, csrf_token) =~= a
            + (REGION_OPEN@ + choices(regions, other) + TIMEZONE_OPEN@) + b);
    }
    {
        let a = PREFERENCES_OPEN@ + flag(saved, PREFERENCES_SAVED@) + PREFERENCES_FORM_OPEN@
            + hidden("csrf_token"@, csrf_token);
        let b = escaped(wishes.timezone) + DENSITY_OPEN@
            + flag(wishes.density == "comfortable"@, SELECTED@) + DENSITY_COMPACT@
            + flag(wishes.density == "compact"@, SELECTED@) + NOTIFY_LOCK_CONTENTION@
            + flag(wishes.notify_lock_contention, CHECKED@) + NOTIFY_KEY_ROTATION@
            + flag(wishes.notify_key_rotation, CHECKED@) + NOTIFY_MFA@
            + flag(wishes.notify_mfa, CHECKED@) + PREFERENCES_END@;
        assert(preferences_form(wishes, regions, saved, csrf_token) =~= a + (REGION_OPEN@
            + choices(regions, wishes.region) + TIMEZONE_OPEN@) + b);
        assert(preferences_form(wishes, others, saved, csrf_token) =~= a + (REGION_OPEN@
            + choices(others, wishes.region) + TIMEZONE_OPEN@) + b);
    }
}

/// The form for the preferences has the present time zone filled in and the present density
/// selected. It is otherwise the same.
pub proof fn law_preferences_form_shows_time_zone_and_density(
    wishes: CustomerPreferences<Seq<char>>,
    regions: Seq<Seq<char>>,
    saved: bool,
    csrf_token: Seq<char>,
    other: Seq<char>,
)
    ensures
        alike_in_one(
            preferences_form(wishes, regions, saved, csrf_token),
            TIMEZONE_OPEN@ + escaped(wishes.timezone) + DENSITY_OPEN@,
            preferences_form(CustomerPreferences { timezone: other, ..wishes }, regions, saved, csrf_token),
            TIMEZONE_OPEN@ + escaped(other) + DENSITY_OPEN@,
        ),
        alike_in_two(
            preferences_form(wishes, regions, saved, csrf_token),
            DENSITY_OPEN@ + flag(wishes.density == "comfortable"@, SELECTED@),
            DENSITY_COMPACT@ + flag(wishes.density == "compact"@, SELECTED@)
                + NOTIFY_LOCK_CONTENTION@,
            preferences_form(CustomerPreferences { density: other, ..wishes }, regions, saved, csrf_token),
            DENSITY_OPEN@ + flag(other == "comfortable"@, SELECTED@),
            DENSITY_COMPACT@ + flag(other == "compact"@, SELECTED@) + NOTIFY_LOCK_CONTENTION@,
        ),
{
    broadcast use lemma_regrouped;
    {
        let a = PREFERENCES_OPEN@ + flag(saved, PREFERENCES_SAVED@) + PREFERENCES_FORM_OPEN@
            + hidden("csrf_token"@, csrf_token) + REGION_OPEN@ + choices(regions, wishes.region);
        let b = flag(wishes.density == "comfortable"@, SELECTED@) + DENSITY_COMPACT@
            + flag(wishes.density == "compact"@, SELECTED@) + NOTIFY_LOCK_CONTENTION@
            + flag(wishes.notify_lock_contention, CHECKED@) + NOTIFY_KEY_ROTATION@
            + flag(wishes.notify_key_rotation, CHECKED@) + NOTIFY_MFA@
            + flag(wishes.notify_mfa, CHECKED@) + PREFERENCES_END@;
        assert(preferences_form(wishes, regions, saved, csrf_token) =~= a + (TIMEZONE_OPEN@
            + escaped(wishes.timezone) + DENSITY_OPEN@) + b);
        assert(preferences_form(CustomerPreferences { timezone: other, ..wishes }, regions, saved, csrf_token) =~= a
            + (TIMEZONE_OPEN@ + escaped(other) + DENSITY_OPEN@) + b);
    }
    {
        let a = PREFERENCES_OPEN@ + flag(saved, PREFERENCES_SAVED@) + PREFERENCES_FORM_OPEN@
            + hidden("csrf_token"@, csrf_token) + REGION_OPEN@ + choices(regions, wishes.region)
            + TIMEZONE_OPEN@ + escaped(wishes.timezone);
        let b = Seq::<char>::empty();
        let c = flag(wishes.notify_lock_contention, CHECKED@) + NOTIFY_KEY_ROTATION@
            + flag(wishes.notify_key_rotation, CHECKED@) + NOTIFY_MFA@
            + flag(wishes.notify_mfa, CHECKED@) + PREFERENCES_END@;
        assert(preferences_form(wishes, regions, saved, csrf_token) =~= a + (DENSITY_OPEN@
            + flag(wishes.density == "comfortable"@, SELECTED@)) + b + (DENSITY_COMPACT@
            + flag(wishes.density == "compact"@, SELECTED@) + NOTIFY_LOCK_CONTENTION@) + c);
        assert(preferences_form(CustomerPreferences { density: other, ..wishes }, regions, saved, csrf_token) =~= a
            + (DENSITY_OPEN@ + flag(other == "comfortable"@, SELECTED@)) + b + (DENSITY_COMPACT@
            + flag(other == "compact"@, SELECTED@) + NOTIFY_LOCK_CONTENTION@) + c);
    }
}

/// The form for the preferences has the box of each kind of notice checked where that kind is
/// wanted. It is otherwise the same.
pub proof fn law_preferences_form_checks_what_is_wanted(
    wishes: CustomerPreferences<Seq<char>>,
    regions: Seq<Seq<char>>,
    saved: bool,
    csrf_token: Seq<char>,
    other: bool,
)
    ensures
        alike_in_one(
            preferences_form(wishes, regions, saved, csrf_token),
            NOTIFY_LOCK_CONTENTION@ + flag(wishes.notify_lock_contention, CHECKED@)
                + NOTIFY_KEY_ROTATION@,
            preferences_form(CustomerPreferences { notify_lock_contention: other, ..wishes }, regions, saved, csrf_token),
            NOTIFY_LOCK_CONTENTION@ + flag(other, CHECKED@) + NOTIFY_KEY_ROTATION@,
        ),
        alike_in_one(
            preferences_form(wishes, regions, saved, csrf_token),
            NOTIFY_KEY_ROTATION@ + flag(wishes.notify_key_rotation, CHECKED@) + NOTIFY_MFA@,
            preferences_form(CustomerPreferences { notify_key_rotation: other, ..wishes }, regions, saved, csrf_token),
            NOTIFY_KEY_ROTATION@ + flag(other, CHECKED@) + NOTIFY_MFA@,
        ),
        alike_in_one(
            preferences_form(wishes, regions, saved, csrf_token),
            NOTIFY_MFA@ + flag(wishes.notify_mfa, CHECKED@) + PREFERENCES_END@,
            preferences_form(CustomerPreferences { notify_mfa: other, ..wishes }, regions, saved, csrf_token),
            NOTIFY_MFA@ + flag(other, CHECKED@) + PREFERENCES_END@,
        ),
{
    broadcast use lemma_regrouped;
    {
        let a = PREFERENCES_OPEN@ + flag(saved, PREFERENCES_SAVED@) + PREFERENCES_FORM_OPEN@
            + hidden("csrf_token"@, csrf_token) + REGION_OPEN@ + choices(regions, wishes.region)
            + TIMEZONE_OPEN@ + escaped(wishes.timezone) + DENSITY_OPEN@
            + flag(wishes.density == "comfortable"@, SELECTED@) + DENSITY_COMPACT@
            + flag(wishes.density == "compact"@, SELECTED@);
        let b = flag(wishes.notify_key_rotation, CHECKED@) + NOTIFY_MFA@
            + flag(wishes.notify_mfa, CHECKED@) + PREFERENCES_END@;
        assert(preferences_form(wishes, regions, saved, csrf_token) =~= a
            + (NOTIFY_LOCK_CONTENTION@ + flag(wishes.notify_lock_contention, CHECKED@)
            + NOTIFY_KEY_ROTATION@) + b);
        assert(preferences_form(CustomerPreferences { notify_lock_contention: other, ..wishes }, regions, saved, csrf_token) =~= a
            + (NOTIFY_LOCK_CONTENTION@ + flag(other, CHECKED@) + NOTIFY_KEY_ROTATION@) + b);
    }
    {
        let a = PREFERENCES_OPEN@ + flag(saved, PREFERENCES_SAVED@) + PREFERENCES_FORM_OPEN@
            + hidden("csrf_token"@, csrf_token) + REGION_OPEN@ + choices(regions, wishes.region)
            + TIMEZONE_OPEN@ + escaped(wishes.timezone) + DENSITY_OPEN@
            + flag(wishes.density == "comfortable"@, SELECTED@) + DENSITY_COMPACT@
            + flag(wishes.density == "compact"@, SELECTED@) + NOTIFY_LOCK_CONTENTION@
            + flag(wishes.notify_lock_contention, CHECKED@);
        let b = flag(wishes.notify_mfa, CHECKED@) + PREFERENCES_END@;
        assert(preferences_form(wishes, regions, saved, csrf_token) =~= a + (NOTIFY_KEY_ROTATION@
            + flag(wishes.notify_key_rotation, CHECKED@) + NOTIFY_MFA@) + b);
        assert(preferences_form(CustomerPreferences { notify_key_rotation: other, ..wishes }, regions, saved, csrf_token) =~= a
            + (NOTIFY_KEY_ROTATION@ + flag(other, CHECKED@) + NOTIFY_MFA@) + b);
    }
    {
        let a = PREFERENCES_OPEN@ + flag(saved, PREFERENCES_SAVED@) + PREFERENCES_FORM_OPEN@
            + hidden("csrf_token"@, csrf_token) + REGION_OPEN@ + choices(regions, wishes.region)
            + TIMEZONE_OPEN@ + escaped(wishes.timezone) + DENSITY_OPEN@
            + flag(wishes.density == "comfortable"@, SELECTED@) + DENSITY_COMPACT@
            + flag(wishes.density == "compact"@, SELECTED@) + NOTIFY_LOCK_CONTENTION@
            + flag(wishes.notify_lock_contention, CHECKED@) + NOTIFY_KEY_ROTATION@
            + flag(wishes.notify_key_rotation, CHECKED@);
        let b = Seq::<char>::empty();
        assert(preferences_form(wishes, regions, saved, csrf_token) =~= a + (NOTIFY_MFA@
            + flag(wishes.notify_mfa, CHECKED@) + PREFERENCES_END@) + b);
        assert(preferences_form(CustomerPreferences { notify_mfa: other, ..wishes }, regions, saved, csrf_token) =~= a
            + (NOTIFY_MFA@ + flag(other, CHECKED@) + PREFERENCES_END@) + b);
    }
}

} // verus!
