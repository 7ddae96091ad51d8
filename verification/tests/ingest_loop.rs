use telemetry_ingest::actor::{ActorPhase, StorageActor, StoreOp};
use telemetry_ingest::buffer::{MqttBuffer, PushError};
use telemetry_ingest::command::{create_table, flush_to_duckdb, DbCommand, DbResponse};
use telemetry_ingest::ingest::{
    IngestLoop, LoopAction, LoopEvent, LoopState, Phase, BACKOFF_SECS, FLUSH_INTERVAL_SECS,
    FLUSH_THRESHOLD,
};
use telemetry_ingest::normalize::normalize_one_message;
use telemetry_ingest::row::NormalizedRow;
use telemetry_ingest::shutdown::{
    Coordinator, CoordinatorAction, CoordinatorEvent, Signal, Stage,
};

fn row(n: i64) -> NormalizedRow {
    NormalizedRow::new(n, "s".to_string(), "m".to_string(), 0, 0, Some("{}".to_string()))
}

fn publish(text: &str) -> LoopEvent {
    LoopEvent::Publish(text.to_string())
}

fn batch_rows(action: &LoopAction) -> usize {
    match action {
        LoopAction::Flush(DbCommand::InsertBatch(batch, table)) => {
            assert_eq!(table, "measurements");
            batch.num_rows()
        }
        other => panic!("expected a flush, got {:?}", other),
    }
}

fn new_loop() -> IngestLoop {
    IngestLoop::new("measurements".to_string())
}

#[test]
fn constants() {
    assert_eq!(FLUSH_THRESHOLD, 500);
    assert_eq!(FLUSH_INTERVAL_SECS, 113);
    assert_eq!(BACKOFF_SECS, 1);
}

#[test]
fn a_new_loop_is_idle_and_empty() {
    let ingest = new_loop();
    assert_eq!(ingest.phase(), Phase::Idle);
    assert_eq!(ingest.state(), LoopState::Running);
    assert_eq!(ingest.buffered(), 0);
    assert_eq!(ingest.total_messages(), 0);
    assert_eq!(ingest.unflushed_messages(), 0);
}

#[test]
fn timer_tick_on_an_empty_buffer_issues_nothing() {
    let mut ingest = new_loop();
    assert!(matches!(ingest.handle(LoopEvent::TimerTick), LoopAction::Idle));
    assert_eq!(ingest.phase(), Phase::Idle);
    // messages without readings count but leave the buffer empty
    assert!(matches!(ingest.handle(publish(r#"{"id":1}"#)), LoopAction::Idle));
    assert_eq!(ingest.total_messages(), 1);
    assert_eq!(ingest.unflushed_messages(), 1);
    assert!(matches!(ingest.handle(LoopEvent::TimerTick), LoopAction::Idle));
    assert_eq!(ingest.phase(), Phase::Idle);
}

#[test]
fn flushing_an_empty_buffer_issues_no_command() {
    let buffer = MqttBuffer::new(64);
    assert!(buffer.is_empty());
    assert!(buffer.flush_to_duckdb("measurements").is_none());
    assert!(flush_to_duckdb(Vec::new(), "measurements").is_none());
}

#[test]
fn timer_flush_then_checkpoint() {
    let mut ingest = new_loop();
    ingest.handle(publish(r#"{"id":1,"humidity":40,"temperature_C":3.5}"#));
    assert_eq!(ingest.buffered(), 2);
    let action = ingest.handle(LoopEvent::TimerTick);
    assert_eq!(batch_rows(&action), 2);
    assert_eq!(ingest.phase(), Phase::FlushingOnTimer);
    assert_eq!(ingest.state(), LoopState::Running);
    assert!(matches!(ingest.handle(LoopEvent::FlushDone(true)), LoopAction::Checkpoint));
    assert_eq!(ingest.phase(), Phase::Idle);
    assert_eq!(ingest.buffered(), 0);
    assert_eq!(ingest.unflushed_messages(), 0);
    assert_eq!(ingest.total_messages(), 1);
}

#[test]
fn failed_flush_keeps_rows_and_counter() {
    let mut ingest = new_loop();
    ingest.handle(publish(r#"{"humidity":40}"#));
    ingest.handle(publish(r#"{"humidity":41}"#));
    let action = ingest.handle(LoopEvent::TimerTick);
    assert_eq!(batch_rows(&action), 2);
    // no checkpoint after a failure
    assert!(matches!(ingest.handle(LoopEvent::FlushDone(false)), LoopAction::Idle));
    assert_eq!(ingest.phase(), Phase::Idle);
    assert_eq!(ingest.buffered(), 2);
    assert_eq!(ingest.unflushed_messages(), 2);
    // the next trigger tries again with the same rows and the new ones
    ingest.handle(publish(r#"{"humidity":42}"#));
    let action = ingest.handle(LoopEvent::TimerTick);
    assert_eq!(batch_rows(&action), 3);
    assert!(matches!(ingest.handle(LoopEvent::FlushDone(true)), LoopAction::Checkpoint));
    assert_eq!(ingest.buffered(), 0);
    assert_eq!(ingest.unflushed_messages(), 0);
    assert_eq!(ingest.total_messages(), 3);
}

#[test]
fn volume_trigger_fires_once_at_the_threshold() {
    let mut ingest = new_loop();
    let mut flushes = 0;
    for n in 1..=500u64 {
        let action = ingest.handle(publish(r#"{"id":"d1","model":"X","temperature_C":21.5}"#));
        match action {
            LoopAction::Idle => assert!(n < 500, "message {} should have flushed", n),
            LoopAction::Flush(DbCommand::InsertBatch(batch, _)) => {
                assert_eq!(n, 500);
                assert_eq!(batch.num_rows(), 500);
                flushes += 1;
            }
            other => panic!("unexpected {:?}", other),
        }
        assert_eq!(ingest.unflushed_messages(), n);
    }
    assert_eq!(flushes, 1);
    assert_eq!(ingest.phase(), Phase::FlushingOnVolume);
    // a volume flush is not followed by a checkpoint
    assert!(matches!(ingest.handle(LoopEvent::FlushDone(true)), LoopAction::Idle));
    assert_eq!(ingest.buffered(), 0);
    assert_eq!(ingest.unflushed_messages(), 0);
    assert_eq!(ingest.total_messages(), 500);
    // not after the reset
    for _ in 0..499 {
        assert!(matches!(ingest.handle(publish(r#"{"humidity":1}"#)), LoopAction::Idle));
    }
    assert_eq!(batch_rows(&ingest.handle(publish(r#"{"humidity":1}"#))), 500);
    assert_eq!(ingest.total_messages(), 1000);
}

#[test]
fn volume_trigger_retries_after_a_failure() {
    let mut ingest = new_loop();
    for _ in 0..499 {
        ingest.on_rows(vec![row(1)]);
    }
    assert_eq!(batch_rows(&ingest.on_rows(vec![row(2), row(3)])), 501);
    assert!(matches!(ingest.handle(LoopEvent::FlushDone(false)), LoopAction::Idle));
    assert_eq!(ingest.unflushed_messages(), 500);
    assert_eq!(ingest.buffered(), 501);
    assert_eq!(batch_rows(&ingest.on_rows(Vec::new())), 501);
    assert_eq!(ingest.unflushed_messages(), 501);
}

#[test]
fn events_are_deferred_while_a_flush_is_in_flight() {
    let mut ingest = new_loop();
    ingest.handle(publish(r#"{"humidity":40}"#));
    batch_rows(&ingest.handle(LoopEvent::TimerTick));
    assert!(matches!(ingest.handle(publish(r#"{"humidity":41}"#)), LoopAction::Defer));
    assert!(matches!(ingest.handle(LoopEvent::TimerTick), LoopAction::Defer));
    assert!(matches!(ingest.handle(LoopEvent::ShutdownNotice), LoopAction::Defer));
    assert!(matches!(ingest.handle(LoopEvent::ConnectionError), LoopAction::Defer));
    assert!(matches!(ingest.on_rows(vec![row(1)]), LoopAction::Defer));
    assert_eq!(ingest.buffered(), 1);
    assert_eq!(ingest.total_messages(), 1);
    assert_eq!(ingest.unflushed_messages(), 1);
    assert_eq!(ingest.phase(), Phase::FlushingOnTimer);
}

#[test]
fn other_bus_events() {
    let mut ingest = new_loop();
    assert!(matches!(ingest.handle(LoopEvent::Incoming), LoopAction::Idle));
    assert!(matches!(ingest.handle(LoopEvent::Outgoing), LoopAction::Idle));
    assert!(matches!(ingest.handle(LoopEvent::FlushDone(true)), LoopAction::Idle));
    assert!(matches!(ingest.handle(LoopEvent::ConnectionError), LoopAction::Backoff(1)));
    assert_eq!(ingest.phase(), Phase::Idle);
    assert_eq!(ingest.total_messages(), 0);
}

#[test]
fn malformed_payload_is_counted_and_dropped() {
    let mut ingest = new_loop();
    assert!(matches!(ingest.handle(publish("not json")), LoopAction::Idle));
    assert_eq!(ingest.buffered(), 0);
    assert_eq!(ingest.total_messages(), 1);
    assert_eq!(ingest.unflushed_messages(), 1);
}

#[test]
fn shutdown_with_an_empty_buffer_stops_at_once() {
    let mut ingest = new_loop();
    assert!(matches!(ingest.handle(LoopEvent::ShutdownNotice), LoopAction::Stop));
    assert_eq!(ingest.state(), LoopState::Stopped);
    assert!(matches!(ingest.handle(publish(r#"{"humidity":40}"#)), LoopAction::Stop));
    assert!(matches!(ingest.handle(LoopEvent::TimerTick), LoopAction::Stop));
    assert!(matches!(ingest.on_rows(vec![row(1)]), LoopAction::Stop));
    assert_eq!(ingest.buffered(), 0);
}

#[test]
fn shutdown_flushes_residual_rows_once_even_if_the_flush_fails() {
    let mut ingest = new_loop();
    ingest.on_rows(vec![row(1), row(2)]);
    assert_eq!(batch_rows(&ingest.handle(LoopEvent::ShutdownNotice)), 2);
    assert_eq!(ingest.state(), LoopState::Draining);
    assert!(matches!(ingest.handle(LoopEvent::ShutdownNotice), LoopAction::Defer));
    assert!(matches!(ingest.handle(LoopEvent::FlushDone(false)), LoopAction::Stop));
    assert_eq!(ingest.state(), LoopState::Stopped);
    // the rows were not dropped, and no second flush is issued
    assert_eq!(ingest.buffered(), 2);
    assert!(matches!(ingest.handle(LoopEvent::TimerTick), LoopAction::Stop));
    assert!(matches!(ingest.handle(LoopEvent::ShutdownNotice), LoopAction::Stop));
}

#[test]
fn interrupt_with_three_buffered_rows() {
    let mut log: Vec<String> = Vec::new();
    let mut ingest = new_loop();
    let mut actor = StorageActor::new();
    let mut coordinator = Coordinator::new();
    for text in [r#"{"humidity":1}"#, r#"{"humidity":2}"#, r#"{"humidity":3}"#] {
        ingest.handle(publish(text));
    }
    assert_eq!(ingest.buffered(), 3);

    let mut action = coordinator.on_event(CoordinatorEvent::Signal(Signal::Interrupt));
    loop {
        match action {
            CoordinatorAction::StopIngest => {
                let mut step = ingest.handle(LoopEvent::ShutdownNotice);
                loop {
                    match step {
                        LoopAction::Flush(command) => {
                            let op = actor.accept(command).unwrap();
                            match op {
                                StoreOp::Append(batch, _) => {
                                    log.push(format!("flush of {} rows", batch.num_rows()))
                                }
                                other => panic!("unexpected {:?}", other),
                            }
                            let reply = actor.complete(Ok(())).unwrap();
                            assert_eq!(reply.response, Ok(DbResponse::InsertResult));
                            assert!(reply.reset_unflushed);
                            assert!(!reply.last);
                            step = ingest.handle(LoopEvent::FlushDone(true));
                        }
                        LoopAction::Stop => break,
                        other => panic!("unexpected {:?}", other),
                    }
                }
                action = coordinator.on_event(CoordinatorEvent::IngestStopped(true));
            }
            CoordinatorAction::ShutdownStore => {
                let op = actor.accept(DbCommand::Shutdown).unwrap();
                assert!(matches!(op, StoreOp::Close));
                let reply = actor.complete(Ok(())).unwrap();
                assert_eq!(reply.response, Ok(DbResponse::ShutdownResult));
                assert!(reply.last);
                log.push("storage shutdown".to_string());
                action = coordinator.on_event(CoordinatorEvent::StoreClosed(true));
            }
            CoordinatorAction::JoinActor => {
                assert_eq!(actor.phase(), ActorPhase::Stopped);
                log.push("actor thread ended".to_string());
                action = coordinator.on_event(CoordinatorEvent::ActorExited(true));
            }
            CoordinatorAction::Exit => break,
            other => panic!("unexpected {:?}", other),
        }
    }
    assert_eq!(log, vec!["flush of 3 rows", "storage shutdown", "actor thread ended"]);
    assert_eq!(coordinator.stage(), Stage::Finished);
    assert_eq!(ingest.state(), LoopState::Stopped);
    assert_eq!(ingest.buffered(), 0);
    assert_eq!(ingest.unflushed_messages(), 0);
}

#[test]
fn buffer_keeps_its_capacity_hint() {
    let mut buffer = MqttBuffer::new(64);
    assert_eq!(buffer.capacity_hint(), 64);
    assert!(buffer.is_empty());
    // the hint is no limit
    for n in 0..100 {
        buffer.append(row(n));
    }
    assert_eq!(buffer.len(), 100);
    assert_eq!(buffer.capacity_hint(), 64);
    buffer.drain();
    buffer.push_json(r#"{"humidity":1}"#).unwrap();
    buffer.flush_done(true);
    buffer.extend(vec![row(1)]);
    buffer.clear();
    assert_eq!(buffer.capacity_hint(), 64);
    assert_eq!(MqttBuffer::new(0).capacity_hint(), 0);
}

#[test]
fn buffer_keeps_arrival_order() {
    let mut buffer = MqttBuffer::new(4);
    assert_eq!(buffer.len(), 0);
    buffer.append(row(1));
    buffer.extend(vec![row(2), row(3)]);
    buffer.append(row(4));
    assert_eq!(buffer.len(), 4);
    assert!(!buffer.is_empty());
    let stamps: Vec<i64> = buffer.rows().iter().map(|r| r.timestamp()).collect();
    assert_eq!(stamps, vec![1, 2, 3, 4]);
    match buffer.flush_to_duckdb("t") {
        Some(DbCommand::InsertBatch(batch, table)) => {
            assert_eq!(table, "t");
            assert_eq!(batch.timestamp(), &vec![1, 2, 3, 4]);
        }
        other => panic!("unexpected {:?}", other),
    }
    // asking for the command does not empty the buffer
    assert_eq!(buffer.len(), 4);
    buffer.flush_done(false);
    assert_eq!(buffer.len(), 4);
    let drained = buffer.drain();
    assert_eq!(drained.len(), 4);
    assert_eq!(drained[3].timestamp(), 4);
    assert!(buffer.is_empty());
    buffer.append(row(5));
    buffer.flush_done(true);
    assert!(buffer.is_empty());
    buffer.append(row(6));
    buffer.clear();
    assert_eq!(buffer.len(), 0);
}

#[test]
fn push_json_adds_the_rows_of_a_message() {
    let mut buffer = MqttBuffer::new(64);
    let js1 = r#"{"time":"2025-11-29 22:00:39","model":"ESP32","id":"dev1","battery_ok":1,"temperature_C":21.5,"humidity":45.2}"#;
    let js2 = r#"{"time":"2025-11-29 22:05:39","model":"ESP32","id":"dev1","battery_ok":1,"pressure_kPa":101.3}"#;
    buffer.push_json(js1).unwrap();
    assert_eq!(buffer.len(), 3);
    buffer.push_json(js2).unwrap();
    assert_eq!(buffer.len(), 5);
    buffer.push_json("[1]").unwrap();
    assert_eq!(buffer.len(), 5);
    let expected = normalize_one_message(js2);
    let held = buffer.rows();
    for (a, b) in held[3..].iter().zip(expected.iter()) {
        assert_eq!(a.timestamp(), b.timestamp());
        assert_eq!(a.measurement_type(), b.measurement_type());
        assert_eq!(a.value_bits(), b.value_bits());
        assert_eq!(a.sensor_id(), "dev1");
        assert_eq!(a.model(), "ESP32");
        assert_eq!(a.raw_json(), Some(js2));
    }
    match buffer.push_json("{") {
        Err(PushError::Malformed(message)) => assert!(!message.is_empty()),
        Ok(()) => panic!("a broken text was taken"),
    }
    assert_eq!(buffer.len(), 5);
}

#[test]
fn create_table_statement() {
    match create_table("measurements") {
        DbCommand::Query(sql) => assert_eq!(
            sql,
            "CREATE TABLE IF NOT EXISTS measurements (timestamp TIMESTAMP, model VARCHAR, sensor_id VARCHAR, measurement_type INTEGER, value DOUBLE, raw_json VARCHAR)"
        ),
        other => panic!("unexpected {:?}", other),
    }
}

#[test]
fn flush_command_carries_the_rows() {
    match flush_to_duckdb(vec![row(7), row(8)], "measurements") {
        Some(DbCommand::InsertBatch(batch, table)) => {
            assert_eq!(table, "measurements");
            assert_eq!(batch.num_rows(), 2);
            assert_eq!(batch.timestamp(), &vec![7, 8]);
            assert_eq!(batch.raw_json()[0], "{}");
        }
        other => panic!("unexpected {:?}", other),
    }
}
