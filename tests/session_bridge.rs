use std::collections::HashMap;
use std::time::{Duration, Instant};

use archipelago_bridge::bridge::{absorb, open_bridge, ReceiveError, CHANNEL_CAPACITY};
use archipelago_bridge::factory::GodotArchipelagoClientFactory;
use archipelago_bridge::protocol::{ClientStatus, InboundEvent, OutboundCommand};
use archipelago_bridge::session::{games_of, GodotArchipelagoClient};
use serde_json::Value;
use tokio::sync::mpsc::error::TryRecvError;

fn new_session() -> (GodotArchipelagoClient, archipelago_bridge::factory::TaskEnds) {
    let factory = GodotArchipelagoClientFactory::new();
    factory.build_session("ws://test".to_string(), Value::from("room"), None)
}

fn print_text(event: &InboundEvent) -> Option<Value> {
    match event {
        InboundEvent::Print(v) => Some(v.clone()),
        _ => None,
    }
}

#[test]
fn factory_starts_with_default_property() {
    assert_eq!(GodotArchipelagoClientFactory::new().x, 10);
}

#[test]
fn build_session_keeps_handshake_metadata() {
    let factory = GodotArchipelagoClientFactory::new();
    let mut games = HashMap::new();
    games.insert("G".to_string(), Value::from(7));
    let (client, _ends) =
        factory.build_session("ws://test".to_string(), Value::from("room"), Some(games));
    assert_eq!(client.url(), "ws://test");
    assert_eq!(client.room_info(), &Value::from("room"));
    assert_eq!(client.data_package().len(), 1);
    assert_eq!(client.data_package().get("G"), Some(&Value::from(7)));
}

#[test]
fn build_session_without_data_package_has_no_games() {
    let (mut client, _ends) = new_session();
    assert!(client.data_package().is_empty());
}

#[test]
fn games_of_passes_package_through() {
    let mut games = HashMap::new();
    games.insert("A".to_string(), Value::from(1));
    games.insert("B".to_string(), Value::from(2));
    let out = games_of(Some(games));
    assert_eq!(out.len(), 2);
    assert_eq!(out.get("B"), Some(&Value::from(2)));
    assert!(games_of(None).is_empty());
}

#[test]
fn drain_returns_delivered_events_in_order_then_nothing() {
    let (mut client, ends) = new_session();
    for i in 0..3 {
        assert!(ends.reader_queue.blocking_send(InboundEvent::Print(Value::from(i))).is_ok());
    }
    let batch = client.get_received_messages();
    let texts: Vec<Option<Value>> = batch.iter().map(print_text).collect();
    assert_eq!(texts, vec![Some(Value::from(0)), Some(Value::from(1)), Some(Value::from(2))]);
    assert!(client.get_received_messages().is_empty());
}

#[test]
fn enqueue_produces_no_inbound_events() {
    let (mut client, mut ends) = new_session();
    assert!(client.say("hello".to_string()));
    assert!(client.sync());
    assert!(client.location_checks(vec![1, 2]));
    match ends.writer_queue.try_recv() {
        Ok(OutboundCommand::Say { text }) => assert_eq!(text, "hello"),
        other => panic!("unexpected {other:?}"),
    }
    assert!(matches!(ends.writer_queue.try_recv(), Ok(OutboundCommand::Sync)));
    match ends.writer_queue.try_recv() {
        Ok(OutboundCommand::LocationChecks { locations }) => assert_eq!(locations, vec![1, 2]),
        other => panic!("unexpected {other:?}"),
    }
    assert!(client.get_received_messages().is_empty());
}

#[test]
fn connect_is_written_and_its_result_drained() {
    let (mut client, mut ends) = new_session();
    assert!(client.connect_to_multiworld("G".to_string(), "P".to_string(), None, None, vec![]));
    match ends.writer_queue.try_recv() {
        Ok(OutboundCommand::Connect { game, name, password, items_handling, tags, uuid, version }) => {
            assert_eq!(game, "G");
            assert_eq!(name, "P");
            assert_eq!(password, None);
            assert_eq!(items_handling, None);
            assert!(tags.is_empty());
            assert_eq!(uuid, "");
            assert_eq!((version.major, version.minor, version.build), (0, 4, 4));
            assert_eq!(version.class, "Version");
        }
        other => panic!("unexpected {other:?}"),
    }
    assert!(ends.reader_queue.blocking_send(InboundEvent::Connected(Value::from("slot"))).is_ok());
    let batch = client.get_received_messages();
    assert_eq!(batch.len(), 1);
    assert!(matches!(&batch[0], InboundEvent::Connected(v) if v == &Value::from("slot")));
}

#[test]
fn full_outbound_channel_waits_for_one_free_slot() {
    let (mut client, mut ends) = new_session();
    for i in 0..CHANNEL_CAPACITY {
        assert!(client.say(format!("{i}")));
    }
    let runtime = tokio::runtime::Builder::new_current_thread().build().unwrap();
    let writer = runtime.spawn_blocking(move || {
        let start = Instant::now();
        while start.elapsed() < Duration::from_millis(300) {}
        let took = ends.writer_queue.try_recv().is_ok();
        (took, ends)
    });
    let start = Instant::now();
    assert!(client.say("last".to_string()));
    assert!(start.elapsed() >= Duration::from_millis(250));
    let (took, mut ends) = runtime.block_on(writer).unwrap();
    assert!(took);
    let mut remaining = 0;
    let mut last = String::new();
    while let Ok(cmd) = ends.writer_queue.try_recv() {
        remaining += 1;
        if let OutboundCommand::Say { text } = cmd {
            last = text;
        }
    }
    assert_eq!(remaining, CHANNEL_CAPACITY);
    assert_eq!(last, "last");
}

#[test]
fn drain_after_reader_stops_returns_queued_then_empty() {
    let (mut client, ends) = new_session();
    assert!(ends.reader_queue.blocking_send(InboundEvent::Print(Value::from("a"))).is_ok());
    assert!(ends.reader_queue.blocking_send(InboundEvent::Print(Value::from("b"))).is_ok());
    drop(ends.reader_queue);
    let batch = client.get_received_messages();
    let texts: Vec<Option<Value>> = batch.iter().map(print_text).collect();
    assert_eq!(texts, vec![Some(Value::from("a")), Some(Value::from("b"))]);
    assert!(client.get_received_messages().is_empty());
}

#[test]
fn enqueue_fails_once_writer_is_gone() {
    let (mut client, ends) = new_session();
    drop(ends.writer_queue);
    assert!(!client.say("nobody".to_string()));
    assert!(!client.get(vec!["k".to_string()]));
}

#[test]
fn dropping_session_closes_both_task_ends() {
    let (mut client, mut ends) = new_session();
    assert!(client.status_update(ClientStatus::Goal));
    drop(client);
    assert!(matches!(
        ends.writer_queue.try_recv(),
        Ok(OutboundCommand::StatusUpdate { status: ClientStatus::Goal })
    ));
    assert!(matches!(ends.writer_queue.try_recv(), Err(TryRecvError::Disconnected)));
    assert!(ends.reader_queue.blocking_send(InboundEvent::Print(Value::from(1))).is_err());
}

#[test]
fn set_keeps_operations_in_order() {
    let (mut client, mut ends) = new_session();
    let ops = vec![
        ("add".to_string(), Value::from(1)),
        ("mul".to_string(), Value::from(3)),
    ];
    assert!(client.set("key".to_string(), Value::from(0), true, ops));
    match ends.writer_queue.try_recv() {
        Ok(OutboundCommand::SetValue { key, default, want_reply, operations }) => {
            assert_eq!(key, "key");
            assert_eq!(default, Value::from(0));
            assert!(want_reply);
            assert_eq!(operations.len(), 2);
            assert_eq!(operations[0].replace, "add");
            assert_eq!(operations[0].value, Value::from(1));
            assert_eq!(operations[1].replace, "mul");
            assert_eq!(operations[1].value, Value::from(3));
        }
        other => panic!("unexpected {other:?}"),
    }
}

#[test]
fn scouts_and_bounce_carry_their_arguments() {
    let (mut client, mut ends) = new_session();
    assert!(client.location_scouts(vec![5], 2));
    assert!(client.bounce(Some(vec!["G".to_string()]), None, None, Value::from(true)));
    match ends.writer_queue.try_recv() {
        Ok(OutboundCommand::LocationScouts { locations, create_as_hint }) => {
            assert_eq!(locations, vec![5]);
            assert_eq!(create_as_hint, 2);
        }
        other => panic!("unexpected {other:?}"),
    }
    match ends.writer_queue.try_recv() {
        Ok(OutboundCommand::Bounce { games, slots, tags, data }) => {
            assert_eq!(games, Some(vec!["G".to_string()]));
            assert_eq!(slots, None);
            assert_eq!(tags, None);
            assert_eq!(data, Value::from(true));
        }
        other => panic!("unexpected {other:?}"),
    }
}

#[test]
fn absorb_collects_values_and_stops_on_errors() {
    let mut batch: Vec<u8> = vec![1];
    assert!(absorb(&mut batch, Ok(2)));
    assert!(!absorb(&mut batch, Err(ReceiveError::Empty)));
    assert!(!absorb(&mut batch, Err(ReceiveError::Closed)));
    assert_eq!(batch, vec![1, 2]);
}

#[test]
fn open_bridge_channels_carry_values_each_way() {
    let mut ends = open_bridge();
    assert!(ends.outbound_tx.blocking_send(OutboundCommand::Sync).is_ok());
    assert!(matches!(ends.outbound_rx.try_recv(), Ok(OutboundCommand::Sync)));
    assert!(ends.inbound_tx.blocking_send(InboundEvent::Print(Value::from(2))).is_ok());
    assert!(matches!(ends.inbound_rx.try_recv(), Ok(InboundEvent::Print(_))));
    assert!(matches!(ends.inbound_rx.try_recv(), Err(TryRecvError::Empty)));
}

#[test]
fn send_inside_runtime_fails_without_sending() {
    let (mut client, mut ends) = new_session();
    let runtime = tokio::runtime::Builder::new_current_thread().build().unwrap();
    let sent = runtime.block_on(async { client.say("inside".to_string()) });
    assert!(!sent);
    assert!(matches!(ends.writer_queue.try_recv(), Err(TryRecvError::Empty)));
    assert!(client.say("outside".to_string()));
    assert!(matches!(ends.writer_queue.try_recv(), Ok(OutboundCommand::Say { .. })));
}

#[test]
fn inbound_channel_holds_channel_capacity_events() {
    let (mut client, ends) = new_session();
    for i in 0..CHANNEL_CAPACITY {
        assert!(ends.reader_queue.try_send(InboundEvent::Print(Value::from(i))).is_ok());
    }
    assert!(ends.reader_queue.try_send(InboundEvent::Print(Value::from(-1))).is_err());
    let batch = client.get_received_messages();
    assert_eq!(batch.len(), CHANNEL_CAPACITY);
    assert_eq!(print_text(&batch[CHANNEL_CAPACITY - 1]), Some(Value::from(CHANNEL_CAPACITY - 1)));
}
