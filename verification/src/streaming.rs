//! Live customer streams: the frames that the WebSocket and the event stream push to the portal,
//! and when they are sent.

use crate::tables::{summary_markup, SUMMARY};
use crate::text::{ascii_lowered, decimal, decimal_text, eq_ignore_ascii_case};
use crate::text_laws::{law_numerals_are_read_back, numeral_value};
use vstd::prelude::*;

verus! {

pub const CONNECTED: &'static str = "connected";

pub const REFRESH: &'static str = "refresh";

pub const PONG: &'static str = "pong";

pub const PING: &'static str = "ping";

pub const WEBSOCKET: &'static str = "websocket";

pub const SSE: &'static str = "sse";

pub const SYNC: &'static str = "sync";

/// The browser event that a frame with a fresh dashboard fragment raises.
pub const REFRESH_EVENT: &'static str = "fiducia:refresh";

/// The browser event that a change frame raises.
pub const SYNC_EVENT: &'static str = "fiducia:sync";

/// The name of the server-sent events with a fresh dashboard fragment.
pub const REFRESH_STREAM_EVENT: &'static str = "fiducia-refresh";

/// The name of the server-sent events on a change.
pub const SYNC_STREAM_EVENT: &'static str = "fiducia-sync";

/// A change-notification frame, as text `T`.
#[derive(Clone, Debug, PartialEq, Eq)]
pub struct StreamPayload<T> {
    pub kind: T,
    pub sequence: u64,
    pub transport: T,
    pub event: T,
    /// Milliseconds since the Unix epoch.
    pub at_ms: u128,
    /// The fragment that replaces the summary.
    pub summary: T,
}

impl View for StreamPayload<String> {
    type V = StreamPayload<Seq<char>>;

    open spec fn view(&self) -> StreamPayload<Seq<char>> {
        StreamPayload {
            kind: self.kind@,
            sequence: self.sequence,
            transport: self.transport@,
            event: self.event@,
            at_ms: self.at_ms,
            summary: self.summary@,
        }
    }
}

/// The frame of a kind and number, sent over a transport at a time.
pub open spec fn frame(
    kind: Seq<char>,
    sequence: u64,
    transport: Seq<char>,
    at_ms: u128,
) -> StreamPayload<Seq<char>> {
    StreamPayload {
        kind,
        sequence,
        transport,
        event: REFRESH_EVENT@,
        at_ms,
        summary: SUMMARY@,
    }
}

/// The frame of a kind and number, sent over a transport at a time.
pub fn stream_payload(
    kind: &str,
    sequence: u64,
    transport: &str,
    at_ms: u128,
) -> (r: StreamPayload<String>)
    ensures
        r@ == frame(kind@, sequence, transport@, at_ms),
{
    StreamPayload {
        kind: kind.to_owned(),
        sequence,
        transport: transport.to_owned(),
        event: REFRESH_EVENT.to_owned(),
        at_ms,
        summary: summary_markup().into_string(),
    }
}

/// The frame that tells of a changed row: the envelope of every frame, with the number of the
/// next refresh and the event of a change.
pub open spec fn change_frame(
    sequence: u64,
    transport: Seq<char>,
    at_ms: u128,
) -> StreamPayload<Seq<char>> {
    StreamPayload { event: SYNC_EVENT@, ..frame(SYNC@, sequence, transport, at_ms) }
}

/// The frame that tells of a changed row.
pub fn change_payload(sequence: u64, transport: &str, at_ms: u128) -> (r: StreamPayload<String>)
    ensures
        r@ == change_frame(sequence, transport@, at_ms),
{
    let mut payload = stream_payload(SYNC, sequence, transport, at_ms);
    payload.event = SYNC_EVENT.to_owned();
    payload
}

/// A server-sent event, as text `T`.
#[derive(Clone, Debug, PartialEq, Eq)]
pub struct StreamEvent<T> {
    pub event: T,
    pub id: T,
    pub data: StreamPayload<T>,
}

impl View for StreamEvent<String> {
    type V = StreamEvent<Seq<char>>;

    open spec fn view(&self) -> StreamEvent<Seq<char>> {
        StreamEvent { event: self.event@, id: self.id@, data: self.data@ }
    }
}

/// The server-sent event of a kind and number.
pub open spec fn sse_event(kind: Seq<char>, sequence: u64, at_ms: u128) -> StreamEvent<Seq<char>> {
    StreamEvent {
        event: REFRESH_STREAM_EVENT@,
        id: decimal(sequence as nat),
        data: frame(kind, sequence, SSE@, at_ms),
    }
}

/// The server-sent event of a kind and number.
pub fn stream_event(kind: &str, sequence: u64, at_ms: u128) -> (r: StreamEvent<String>)
    ensures
        r@ == sse_event(kind@, sequence, at_ms),
{
    StreamEvent {
        event: REFRESH_STREAM_EVENT.to_owned(),
        id: decimal_text(sequence),
        data: stream_payload(kind, sequence, SSE, at_ms),
    }
}

/// The server-sent event that tells of a changed row.
pub open spec fn sse_change(sequence: u64, at_ms: u128) -> StreamEvent<Seq<char>> {
    StreamEvent {
        event: SYNC_STREAM_EVENT@,
        id: decimal(sequence as nat),
        data: change_frame(sequence, SSE@, at_ms),
    }
}

/// The server-sent event that tells of a changed row.
pub fn change_event(sequence: u64, at_ms: u128) -> (r: StreamEvent<String>)
    ensures
        r@ == sse_change(sequence, at_ms),
{
    StreamEvent {
        event: SYNC_STREAM_EVENT.to_owned(),
        id: decimal_text(sequence),
        data: change_payload(sequence, SSE, at_ms),
    }
}

/// The number after another one; the last number stays.
pub open spec fn successor(sequence: u64) -> u64 {
    if sequence == u64::MAX {
        sequence
    } else {
        (sequence + 1) as u64
    }
}

/// A stream: the number of its next refresh.
#[derive(Clone, Copy, Debug, PartialEq, Eq, Structural)]
pub struct StreamState {
    pub sequence: u64,
}

/// The start of an event stream.
pub fn customer_events(at_ms: u128) -> (r: (StreamState, StreamEvent<String>))
    ensures
        r.0 == (StreamState { sequence: 1 }),
        r.1@ == sse_event(CONNECTED@, 0, at_ms),
        r.1@.data.kind == "connected"@,
        r.1@.data.sequence == 0,
        r.1@.data.at_ms == at_ms,
{
    (StreamState { sequence: 1 }, stream_event(CONNECTED, 0, at_ms))
}

/// What makes an event stream send.
#[derive(Clone, Copy, Debug, PartialEq, Eq, Structural)]
pub enum StreamSignal {
    /// The heartbeat.
    Tick,
    /// A row of the customer's organizations changed.
    RowChanged,
}

/// What an event stream sends on a signal.
pub open spec fn signal_event(
    state: StreamState,
    signal: StreamSignal,
    at_ms: u128,
) -> StreamEvent<Seq<char>> {
    match signal {
        StreamSignal::Tick => sse_event(REFRESH@, state.sequence, at_ms),
        StreamSignal::RowChanged => sse_change(state.sequence, at_ms),
    }
}

/// An event stream after a signal: only a heartbeat takes a number.
pub open spec fn signal_state(state: StreamState, signal: StreamSignal) -> StreamState {
    match signal {
        StreamSignal::Tick => StreamState { sequence: successor(state.sequence) },
        StreamSignal::RowChanged => state,
    }
}

/// What an event stream sends on a signal.
pub fn next_event(state: StreamState, signal: StreamSignal, at_ms: u128) -> (r: (
    StreamState,
    StreamEvent<String>,
))
    ensures
        r.0 == signal_state(state, signal),
        r.1@ == signal_event(state, signal, at_ms),
{
    match signal {
        StreamSignal::Tick => {
            let event = stream_event(REFRESH, state.sequence, at_ms);
            (StreamState { sequence: state.sequence.saturating_add(1) }, event)
        },
        StreamSignal::RowChanged => (state, change_event(state.sequence, at_ms)),
    }
}

/// An event stream after some signals.
pub open spec fn stream_reached(signals: Seq<StreamSignal>) -> StreamState
    decreases signals.len(),
{
    if signals.len() == 0 {
        StreamState { sequence: 1 }
    } else {
        signal_state(stream_reached(signals.drop_last()), signals.last())
    }
}

/// How many heartbeats there are among some signals.
pub open spec fn ticks(signals: Seq<StreamSignal>) -> nat
    decreases signals.len(),
{
    if signals.len() == 0 {
        0
    } else {
        ticks(signals.drop_last()) + (if signals.last() is Tick {
            1nat
        } else {
            0
        })
    }
}

/// The refreshes of an event stream are numbered one after the other, from one on and up to the
/// last number, whatever changes come between them.
pub proof fn law_events_are_numbered_in_turn(signals: Seq<StreamSignal>)
    ensures
        stream_reached(signals).sequence == (if ticks(signals) < u64::MAX {
            1 + ticks(signals)
        } else {
            u64::MAX as nat
        }),
    decreases signals.len(),
{
    if signals.len() > 0 {
        law_events_are_numbered_in_turn(signals.drop_last());
    }
}

/// What happens on a WebSocket, as text `T`.
#[derive(Clone, Debug, PartialEq, Eq)]
pub enum SocketEvent<T> {
    /// The heartbeat.
    Tick,
    /// A row of the customer's organizations changed.
    RowChanged,
    /// A text message.
    Text(T),
    /// A protocol ping with its payload.
    Ping(Vec<u8>),
    /// Any other message that does not close the socket.
    Other,
    /// The peer closed the socket, or the socket ended.
    Closed,
    /// Receiving failed.
    ReceiveFailed,
    /// Sending the last frame failed.
    SendFailed,
}

/// What is to be done on a WebSocket, as text `T`.
#[derive(Clone, Debug, PartialEq, Eq)]
pub enum SocketAction<T> {
    Send(StreamPayload<T>),
    /// Answer a protocol ping with its payload.
    Pong(Vec<u8>),
    Wait,
    Stop,
}

/// What an action of a WebSocket is.
pub enum SocketActionView {
    Send(StreamPayload<Seq<char>>),
    Pong(Seq<u8>),
    Wait,
    Stop,
}

impl View for SocketAction<String> {
    type V = SocketActionView;

    open spec fn view(&self) -> SocketActionView {
        match self {
            SocketAction::Send(payload) => SocketActionView::Send(payload@),
            SocketAction::Pong(payload) => SocketActionView::Pong(payload@),
            SocketAction::Wait => SocketActionView::Wait,
            SocketAction::Stop => SocketActionView::Stop,
        }
    }
}

/// What an event of a WebSocket is.
pub enum SocketEventView {
    Tick,
    RowChanged,
    Text(Seq<char>),
    Ping(Seq<u8>),
    Other,
    Closed,
    ReceiveFailed,
    SendFailed,
}

impl View for SocketEvent<String> {
    type V = SocketEventView;

    open spec fn view(&self) -> SocketEventView {
        match self {
            SocketEvent::Tick => SocketEventView::Tick,
            SocketEvent::RowChanged => SocketEventView::RowChanged,
            SocketEvent::Text(text) => SocketEventView::Text(text@),
            SocketEvent::Ping(payload) => SocketEventView::Ping(payload@),
            SocketEvent::Other => SocketEventView::Other,
            SocketEvent::Closed => SocketEventView::Closed,
            SocketEvent::ReceiveFailed => SocketEventView::ReceiveFailed,
            SocketEvent::SendFailed => SocketEventView::SendFailed,
        }
    }
}

/// A text message by which the portal asks whether the stream is alive: `ping` in any ASCII
/// case.
pub open spec fn is_ping(text: Seq<char>) -> bool {
    ascii_lowered(text) == ascii_lowered(PING@)
}

/// What is done on an event of a WebSocket.
pub open spec fn socket_action(
    state: StreamState,
    event: SocketEventView,
    at_ms: u128,
) -> SocketActionView {
    match event {
        SocketEventView::Tick => SocketActionView::Send(
            frame(REFRESH@, state.sequence, WEBSOCKET@, at_ms),
        ),
        SocketEventView::RowChanged => SocketActionView::Send(
            change_frame(state.sequence, WEBSOCKET@, at_ms),
        ),
        SocketEventView::Text(text) => if is_ping(text) {
            SocketActionView::Send(frame(PONG@, state.sequence, WEBSOCKET@, at_ms))
        } else {
            SocketActionView::Wait
        },
        SocketEventView::Ping(payload) => SocketActionView::Pong(payload),
        SocketEventView::Other => SocketActionView::Wait,
        SocketEventView::Closed => SocketActionView::Stop,
        SocketEventView::ReceiveFailed => SocketActionView::Stop,
        SocketEventView::SendFailed => SocketActionView::Stop,
    }
}

/// The stream after an event of a WebSocket: only a heartbeat takes a number.
pub open spec fn socket_state(state: StreamState, event: SocketEventView) -> StreamState {
    match event {
        SocketEventView::Tick => StreamState { sequence: successor(state.sequence) },
        _ => state,
    }
}

/// The start of a WebSocket stream: the first frame is sent before anything is waited for.
pub fn customer_ws_stream(at_ms: u128) -> (r: (StreamState, SocketAction<String>))
    ensures
        r.0 == (StreamState { sequence: 1 }),
        r.1@ == SocketActionView::Send(frame(CONNECTED@, 0, WEBSOCKET@, at_ms)),
        r.1@ matches SocketActionView::Send(payload) && payload.kind == "connected"@
            && payload.sequence == 0 && payload.transport == "websocket"@ && payload.at_ms
            == at_ms,
{
    (
        StreamState { sequence: 1 },
        SocketAction::Send(stream_payload(CONNECTED, 0, WEBSOCKET, at_ms)),
    )
}

/// What is done on an event of a WebSocket.
pub fn next_action(
    state: StreamState,
    event: SocketEvent<String>,
    at_ms: u128,
) -> (r: (StreamState, SocketAction<String>))
    ensures
        r.0 == socket_state(state, event@),
        r.1@ == socket_action(state, event@, at_ms),
{
    match event {
        SocketEvent::Tick => {
            let payload = stream_payload(REFRESH, state.sequence, WEBSOCKET, at_ms);
            (
                StreamState { sequence: state.sequence.saturating_add(1) },
                SocketAction::Send(payload),
            )
        },
        SocketEvent::RowChanged => {
            let payload = change_payload(state.sequence, WEBSOCKET, at_ms);
            (state, SocketAction::Send(payload))
        },
        SocketEvent::Text(text) => {
            if eq_ignore_ascii_case(text.as_str(), PING) {
                let payload = stream_payload(PONG, state.sequence, WEBSOCKET, at_ms);
                (state, SocketAction::Send(payload))
            } else {
                (state, SocketAction::Wait)
            }
        },
        SocketEvent::Ping(payload) => (state, SocketAction::Pong(payload)),
        SocketEvent::Other => (state, SocketAction::Wait),
        SocketEvent::Closed => (state, SocketAction::Stop),
        SocketEvent::ReceiveFailed => (state, SocketAction::Stop),
        SocketEvent::SendFailed => (state, SocketAction::Stop),
    }
}

/// A WebSocket stream after some events.
pub open spec fn socket_reached(events: Seq<SocketEventView>) -> StreamState
    decreases events.len(),
{
    if events.len() == 0 {
        StreamState { sequence: 1 }
    } else {
        socket_state(socket_reached(events.drop_last()), events.last())
    }
}

/// How many heartbeats there are among some events.
pub open spec fn heartbeats(events: Seq<SocketEventView>) -> nat
    decreases events.len(),
{
    if events.len() == 0 {
        0
    } else {
        heartbeats(events.drop_last()) + (if events.last() is Tick {
            1nat
        } else {
            0
        })
    }
}

/// Refreshes are numbered one after the other, from one on and up to the last number: whatever
/// else happened on the socket, the refresh of the next heartbeat has the number after those of
/// all heartbeats before it.
pub proof fn law_refreshes_are_numbered_in_turn(events: Seq<SocketEventView>, at_ms: u128)
    ensures
        socket_action(socket_reached(events), SocketEventView::Tick, at_ms)
            == SocketActionView::Send(
            frame(
                REFRESH@,
                (if heartbeats(events) < u64::MAX {
                    1 + heartbeats(events)
                } else {
                    u64::MAX as nat
                }) as u64,
                WEBSOCKET@,
                at_ms,
            ),
        ),
    decreases events.len(),
{
    if events.len() > 0 {
        law_refreshes_are_numbered_in_turn(events.drop_last(), at_ms);
    }
}

/// While a stream is open, every changed row is told at once on either transport, by a frame
/// whose event is that of a change; refreshes carry theirs, and both carry the dashboard
/// fragment.
pub proof fn law_changes_are_told(state: StreamState, at_ms: u128)
    ensures
        socket_action(state, SocketEventView::RowChanged, at_ms) matches SocketActionView::Send(
            payload,
        ) && payload.event == "fiducia:sync"@ && payload.summary == SUMMARY@,
        signal_event(state, StreamSignal::RowChanged, at_ms).data.event == "fiducia:sync"@,
        socket_action(state, SocketEventView::Tick, at_ms) matches SocketActionView::Send(
            payload,
        ) && payload.event == "fiducia:refresh"@ && payload.summary == SUMMARY@,
        signal_event(state, StreamSignal::Tick, at_ms).data.event == "fiducia:refresh"@,
{
}

/// The answer to a ping carries the number of the next refresh and does not use it up.
pub proof fn law_pong_takes_no_number(state: StreamState, text: Seq<char>, at_ms: u128)
    requires
        is_ping(text),
    ensures
        socket_action(state, SocketEventView::Text(text), at_ms) == SocketActionView::Send(
            frame(PONG@, state.sequence, WEBSOCKET@, at_ms),
        ),
        socket_state(state, SocketEventView::Text(text)) == state,
{
}

/// What a frame says of how and when it was sent is what was handed in, whatever it is: its kind,
/// its number, its transport, and its time. It raises the event of its sort and carries the
/// summary.
pub proof fn law_frames_say_what_was_handed_in(
    kind: Seq<char>,
    sequence: u64,
    transport: Seq<char>,
    at_ms: u128,
)
    ensures
        frame(kind, sequence, transport, at_ms).kind == kind,
        frame(kind, sequence, transport, at_ms).sequence == sequence,
        frame(kind, sequence, transport, at_ms).transport == transport,
        frame(kind, sequence, transport, at_ms).at_ms == at_ms,
        frame(kind, sequence, transport, at_ms).event == "fiducia:refresh"@,
        frame(kind, sequence, transport, at_ms).summary == SUMMARY@,
        change_frame(sequence, transport, at_ms).kind == "sync"@,
        change_frame(sequence, transport, at_ms).sequence == sequence,
        change_frame(sequence, transport, at_ms).transport == transport,
        change_frame(sequence, transport, at_ms).at_ms == at_ms,
        change_frame(sequence, transport, at_ms).event == "fiducia:sync"@,
        change_frame(sequence, transport, at_ms).summary == SUMMARY@,
{
}

/// A server-sent event has the identifier that reads as the number of its frame, goes by the event
/// stream, and has the name of its sort.
pub proof fn law_events_are_identified_by_their_number(
    kind: Seq<char>,
    sequence: u64,
    at_ms: u128,
)
    ensures
        numeral_value(sse_event(kind, sequence, at_ms).id) == sequence,
        sse_event(kind, sequence, at_ms).event == "fiducia-refresh"@,
        sse_event(kind, sequence, at_ms).data.kind == kind,
        sse_event(kind, sequence, at_ms).data.sequence == sequence,
        sse_event(kind, sequence, at_ms).data.transport == "sse"@,
        sse_event(kind, sequence, at_ms).data.at_ms == at_ms,
        sse_event(kind, sequence, at_ms).data.event == "fiducia:refresh"@,
        sse_event(kind, sequence, at_ms).data.summary == SUMMARY@,
        numeral_value(sse_change(sequence, at_ms).id) == sequence,
        sse_change(sequence, at_ms).event == "fiducia-sync"@,
        sse_change(sequence, at_ms).data.kind == "sync"@,
        sse_change(sequence, at_ms).data.sequence == sequence,
        sse_change(sequence, at_ms).data.transport == "sse"@,
        sse_change(sequence, at_ms).data.at_ms == at_ms,
        sse_change(sequence, at_ms).data.event == "fiducia:sync"@,
        sse_change(sequence, at_ms).data.summary == SUMMARY@,
{
    law_numerals_are_read_back(sequence as nat);
}

/// Whatever makes a stream send, on either transport, its frame carries the time of the sending
/// itself and the number that the stream has reached, so that a frame that is sent later never
/// carries an earlier time.
pub proof fn law_frames_carry_the_time_of_their_sending(
    state: StreamState,
    event: SocketEventView,
    signal: StreamSignal,
    at_ms: u128,
    later_state: StreamState,
    later_event: SocketEventView,
    later_signal: StreamSignal,
    later_ms: u128,
)
    requires
        at_ms <= later_ms,
    ensures
        socket_action(state, event, at_ms) matches SocketActionView::Send(payload)
            ==> payload.at_ms == at_ms && payload.sequence == state.sequence && payload.transport
            == "websocket"@ && payload.summary == SUMMARY@,
        signal_event(state, signal, at_ms).data.at_ms == at_ms,
        signal_event(state, signal, at_ms).data.sequence == state.sequence,
        signal_event(state, signal, at_ms).data.transport == "sse"@,
        numeral_value(signal_event(state, signal, at_ms).id) == state.sequence,
        socket_action(state, event, at_ms) matches SocketActionView::Send(payload) ==> (
        socket_action(later_state, later_event, later_ms) matches SocketActionView::Send(later)
            ==> payload.at_ms <= later.at_ms),
        signal_event(state, signal, at_ms).data.at_ms <= signal_event(
            later_state,
            later_signal,
            later_ms,
        ).data.at_ms,
{
    law_numerals_are_read_back(state.sequence as nat);
}

/// What each event of a WebSocket leads to: a heartbeat to a refresh, a changed row to a change, a
/// text that spells `ping` in whatever case to a pong, a protocol ping to its own payload, an end
/// or a failure to the end of the stream, and anything else to nothing. Only a heartbeat moves the
/// number, by one and never past the last.
pub proof fn law_each_socket_event_has_its_answer(
    state: StreamState,
    event: SocketEventView,
    at_ms: u128,
)
    ensures
        match event {
            SocketEventView::Tick => socket_action(state, event, at_ms)
                matches SocketActionView::Send(payload) && payload.kind == "refresh"@
                && payload.event == "fiducia:refresh"@,
            SocketEventView::RowChanged => socket_action(state, event, at_ms)
                matches SocketActionView::Send(payload) && payload.kind == "sync"@
                && payload.event == "fiducia:sync"@,
            SocketEventView::Text(text) => if ascii_lowered(text) == "ping"@ {
                socket_action(state, event, at_ms) matches SocketActionView::Send(payload)
                    && payload.kind == "pong"@ && payload.event == "fiducia:refresh"@
            } else {
                socket_action(state, event, at_ms) is Wait
            },
            SocketEventView::Ping(payload) => socket_action(state, event, at_ms)
                == SocketActionView::Pong(payload),
            SocketEventView::Other => socket_action(state, event, at_ms) is Wait,
            SocketEventView::Closed | SocketEventView::ReceiveFailed
            | SocketEventView::SendFailed => socket_action(state, event, at_ms) is Stop,
        },
        event is Tick && state.sequence < u64::MAX ==> socket_state(state, event).sequence
            == state.sequence + 1,
        event is Tick && state.sequence == u64::MAX ==> socket_state(state, event) == state,
        !(event is Tick) ==> socket_state(state, event) == state,
{
    reveal_strlit("ping");
    assert(ascii_lowered("ping"@) =~= "ping"@);
}

/// A heartbeat of an event stream sends a refresh, a changed row a change; only a heartbeat moves
/// the number, by one and never past the last.
pub proof fn law_each_signal_has_its_event(
    state: StreamState,
    signal: StreamSignal,
    at_ms: u128,
)
    ensures
        match signal {
            StreamSignal::Tick => {
                let event = signal_event(state, signal, at_ms);
                event.event == "fiducia-refresh"@ && event.data.kind == "refresh"@
                    && event.data.event == "fiducia:refresh"@ && event.data.summary == SUMMARY@
            },
            StreamSignal::RowChanged => {
                let event = signal_event(state, signal, at_ms);
                event.event == "fiducia-sync"@ && event.data.kind == "sync"@ && event.data.event
                    == "fiducia:sync"@ && event.data.summary == SUMMARY@
            },
        },
        signal is Tick && state.sequence < u64::MAX ==> signal_state(state, signal).sequence
            == state.sequence + 1,
        signal is Tick && state.sequence == u64::MAX ==> signal_state(state, signal) == state,
        !(signal is Tick) ==> signal_state(state, signal) == state,
{
}

} // verus!
