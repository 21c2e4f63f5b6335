use rustify::config::{BindAddress, ServerConfig};
use rustify::worker::{
    canned_response, drain_decision, handle_connection, start_worker_process, worker_exit_status,
    worker_init_step, AcceptOutcome, DrainAction, DrainCounters, InitStage, InitStep,
};

#[test]
fn the_standard_configuration_carries_the_compiled_in_values() {
    let c = ServerConfig::standard();
    assert_eq!(c.address, BindAddress::V4 { a: 127, b: 0, c: 0, d: 1, port: 7878 });
    assert_eq!(c.backlog, 15000);
    assert_eq!(c.pool_size, 100);
    assert_eq!(c.event_capacity, 128);
    assert_eq!(c.fallback_workers, 4);
    assert_eq!(c.reap_poll_secs, 1);
    assert_eq!(c.write_timeout_secs, 5);
}

#[test]
fn a_worker_starts_with_its_identity_and_the_standard_configuration() {
    let w = start_worker_process(2, 4321);
    assert_eq!(w.ordinal, 2);
    assert_eq!(w.parent_pid, 4321);
    assert_eq!(w.config, ServerConfig::standard());
    assert_eq!(w.config.pool_size, 100);
    assert_eq!(w.config.event_capacity, 128);
}

#[test]
fn a_worker_exits_zero_only_on_an_orderly_end() {
    assert_eq!(worker_exit_status(true), 0);
    assert_eq!(worker_exit_status(false), 1);
}

#[test]
fn each_accepted_connection_becomes_exactly_one_dispatched_task() {
    assert_eq!(
        drain_decision(&AcceptOutcome::Accepted { conn_id: 77 }),
        DrainAction::Dispatch { conn_id: 77 }
    );
}

#[test]
fn would_block_ends_the_drain_pass_silently() {
    assert_eq!(drain_decision(&AcceptOutcome::WouldBlock), DrainAction::FinishBatch);
}

#[test]
fn another_accept_error_is_reported_and_isolated() {
    assert_eq!(drain_decision(&AcceptOutcome::Failed), DrainAction::ReportErrorAndStop);
}

#[test]
fn drain_counters_track_the_batch_and_the_lifetime_total() {
    let mut c = DrainCounters::new();
    assert!(!c.batch_worth_reporting());
    c.record_dispatch();
    c.record_dispatch();
    assert_eq!(c.total, 2);
    assert_eq!(c.batch, 2);
    assert!(c.batch_worth_reporting());
    c.start_batch();
    assert_eq!(c.total, 2);
    assert_eq!(c.batch, 0);
    assert!(!c.batch_worth_reporting());
}

#[test]
fn every_connection_receives_the_exact_fixed_reply() {
    let expected: &[u8] = b"HTTP/1.1 200 OK\r\nContent-Length: 5\r\n\r\nHello";
    assert_eq!(canned_response().as_slice(), expected);
}

#[test]
fn the_reply_declares_exactly_its_body_length() {
    let bytes = canned_response();
    let split = bytes.windows(4).position(|w| w == b"\r\n\r\n").unwrap();
    let body = &bytes[split + 4..];
    assert_eq!(body, b"Hello");
    let head = std::str::from_utf8(&bytes[..split]).unwrap();
    assert!(head.contains("Content-Length: 5"));
    assert_eq!(body.len(), 5);
}

#[test]
fn connection_handling_uses_the_configured_write_timeout() {
    let c = ServerConfig::standard();
    let p = handle_connection(&c);
    assert_eq!(p.write_timeout_secs, 5);
    assert_eq!(p.response, canned_response());
}

#[test]
fn initialization_proceeds_in_order_and_ends_in_the_loop() {
    assert_eq!(
        worker_init_step(InitStage::BuildingListener, true),
        InitStep::Proceed { next: InitStage::SettingNonblocking }
    );
    assert_eq!(
        worker_init_step(InitStage::SettingNonblocking, true),
        InitStep::Proceed { next: InitStage::CreatingMultiplexer }
    );
    assert_eq!(
        worker_init_step(InitStage::CreatingMultiplexer, true),
        InitStep::Proceed { next: InitStage::RegisteringListener }
    );
    assert_eq!(
        worker_init_step(InitStage::RegisteringListener, true),
        InitStep::Proceed { next: InitStage::BuildingPool }
    );
    assert_eq!(worker_init_step(InitStage::BuildingPool, true), InitStep::EnterLoop);
}

#[test]
fn every_initialization_failure_is_fatal_to_the_worker() {
    let stages = [
        InitStage::BuildingListener,
        InitStage::SettingNonblocking,
        InitStage::CreatingMultiplexer,
        InitStage::RegisteringListener,
        InitStage::BuildingPool,
    ];
    for s in stages {
        assert_eq!(worker_init_step(s, false), InitStep::Abort);
    }
}
