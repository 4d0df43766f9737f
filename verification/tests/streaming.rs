use fiducia_customer::streaming::{
    change_event, change_payload, customer_events, customer_ws_stream, next_action, next_event, stream_event, stream_payload,
    SocketAction, SocketEvent, StreamPayload, StreamSignal, StreamState,
};
use fiducia_customer::tables::summary_markup;

fn payload(kind: &str, sequence: u64, transport: &str, at_ms: u128) -> StreamPayload<String> {
    StreamPayload {
        kind: kind.to_string(),
        sequence,
        transport: transport.to_string(),
        event: "fiducia:refresh".to_string(),
        at_ms,
        summary: summary_markup().into_string(),
    }
}

#[test]
fn frames_have_their_fields() {
    assert_eq!(
        stream_payload("refresh", 3, "websocket", 99),
        payload("refresh", 3, "websocket", 99)
    );
    let event = stream_event("connected", 0, 5);
    assert_eq!(event.event, "fiducia-refresh");
    assert_eq!(event.id, "0");
    assert_eq!(event.data, payload("connected", 0, "sse", 5));
}

#[test]
fn the_event_stream_counts_its_refreshes() {
    let (state, first) = customer_events(1);
    assert_eq!(first, stream_event("connected", 0, 1));
    let (state, second) = next_event(state, StreamSignal::Tick, 2);
    assert_eq!(second, stream_event("refresh", 1, 2));
    let (state, third) = next_event(state, StreamSignal::Tick, 3);
    assert_eq!(third, stream_event("refresh", 2, 3));
    assert_eq!(third.id, "2");
    assert_eq!(state, StreamState { sequence: 3 });
}

#[test]
fn the_last_number_stays() {
    let last = StreamState { sequence: u64::MAX };
    let (state, event) = next_event(last, StreamSignal::Tick, 1);
    assert_eq!(event.id, "18446744073709551615");
    assert_eq!(state, last);
    let (state, _) = next_action(last, SocketEvent::Tick, 1);
    assert_eq!(state, last);
}

#[test]
fn the_socket_answers_pings_without_using_numbers() {
    let (state, action) = customer_ws_stream(1);
    assert_eq!(action, SocketAction::Send(payload("connected", 0, "websocket", 1)));
    let (state, action) = next_action(state, SocketEvent::Text("PiNg".to_string()), 2);
    assert_eq!(action, SocketAction::Send(payload("pong", 1, "websocket", 2)));
    let (state, action) = next_action(state, SocketEvent::Tick, 3);
    assert_eq!(action, SocketAction::Send(payload("refresh", 1, "websocket", 3)));
    let (state, action) = next_action(state, SocketEvent::Ping(vec![1, 2]), 4);
    assert_eq!(action, SocketAction::Pong(vec![1, 2]));
    let (state, action) = next_action(state, SocketEvent::Text("ping!".to_string()), 5);
    assert_eq!(action, SocketAction::Wait);
    let (state, action) = next_action(state, SocketEvent::Other, 6);
    assert_eq!(action, SocketAction::Wait);
    let (state, action) = next_action(state, SocketEvent::Tick, 7);
    assert_eq!(action, SocketAction::Send(payload("refresh", 2, "websocket", 7)));
    assert_eq!(state, StreamState { sequence: 3 });
}

#[test]
fn the_socket_stops_when_it_is_over() {
    let state = StreamState { sequence: 5 };
    for event in [SocketEvent::Closed, SocketEvent::ReceiveFailed, SocketEvent::SendFailed] {
        assert_eq!(next_action(state, event, 1), (state, SocketAction::Stop));
    }
}

fn change(sequence: u64, transport: &str, at_ms: u128) -> StreamPayload<String> {
    StreamPayload {
        event: "fiducia:sync".to_string(),
        ..payload("sync", sequence, transport, at_ms)
    }
}

#[test]
fn a_changed_row_is_told_on_both_transports() {
    let state = StreamState { sequence: 4 };
    assert_eq!(change_payload(4, "websocket", 9), change(4, "websocket", 9));
    assert_eq!(
        next_action(state, SocketEvent::RowChanged, 9),
        (state, SocketAction::Send(change(4, "websocket", 9)))
    );
    let (after, event) = next_event(state, StreamSignal::RowChanged, 9);
    assert_eq!(after, state);
    assert_eq!(event, change_event(4, 9));
    assert_eq!(event.event, "fiducia-sync");
    assert_eq!(event.id, "4");
    assert_eq!(event.data, change(4, "sse", 9));
    let (_, refresh) = next_event(after, StreamSignal::Tick, 10);
    assert_eq!(refresh, stream_event("refresh", 4, 10));
}
