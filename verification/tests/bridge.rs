use ppaass_agent_ui::bridge::HistorySnapshot;
use ppaass_agent_ui::lifecycle::{AgentHandle, LifecycleController, LifecycleState};
use ppaass_agent_ui::model::{
    UiModelAgentServerConfiguration, UiModelBackendEvent, UiModelStatusBarDetailType,
};

fn test_config() -> UiModelAgentServerConfiguration {
    UiModelAgentServerConfiguration {
        user_token: "token".to_string(),
        proxy_address: vec!["127.0.0.1:9090".to_string()],
        listening_port: 1080,
    }
}

fn running(port: u16) -> (HistorySnapshot, LifecycleController) {
    let mut ctl = LifecycleController::new();
    ctl.start(test_config()).unwrap();
    ctl.attach_handle(AgentHandle::new()).unwrap();
    let mut snapshot = HistorySnapshot::new();
    snapshot.apply_event(&mut ctl, &UiModelBackendEvent::StartSuccess(port));
    (snapshot, ctl)
}

fn logging_event(i: usize) -> UiModelBackendEvent {
    UiModelBackendEvent::Logging {
        client_socket_address: format!("c{i}"),
        src_address: None,
        dst_address: None,
        reason: None,
    }
}

#[test]
fn fresh_snapshot_is_ready_and_empty() {
    let snapshot = HistorySnapshot::new();
    assert_eq!(snapshot.status.text, "Ready to start agent server");
    assert_eq!(snapshot.status.level, UiModelStatusBarDetailType::Info);
    assert_eq!(snapshot.network.upload_mb_amount, 0);
    assert_eq!(snapshot.log_ring.len(), 0);
    assert_eq!(snapshot.log_ring.capacity(), 1000);
    assert_eq!(snapshot.upload_series.len(), 0);
    assert_eq!(snapshot.upload_series.capacity(), 30);
    assert_eq!(snapshot.download_series.capacity(), 30);
}

#[test]
fn start_success_sets_status_and_confirms_running() {
    let (snapshot, ctl) = running(1080);
    assert_eq!(ctl.state, LifecycleState::Running { port: 1080 });
    assert_eq!(
        snapshot.status.text,
        "Agent server started, listening on port: 1080."
    );
    assert_eq!(snapshot.status.level, UiModelStatusBarDetailType::Info);
}

#[test]
fn log_ring_holds_exactly_the_last_thousand_lines_in_order() {
    let (mut snapshot, mut ctl) = running(1080);
    let extra = 5usize;
    for i in 0..(1000 + extra) {
        snapshot.apply_event(&mut ctl, &logging_event(i));
    }
    assert_eq!(snapshot.log_ring.len(), 1000);
    for j in 0..1000usize {
        let expected = format!("Tunnel of client [c{}] from [] to [].", j + extra);
        assert_eq!(snapshot.log_ring.get(j), &expected);
    }
    // Logging notices leave the lifecycle state alone.
    assert_eq!(ctl.state, LifecycleState::Running { port: 1080 });
}

#[test]
fn failure_notice_enters_the_log_and_the_status_bar() {
    let (mut snapshot, mut ctl) = running(1080);
    snapshot.apply_event(
        &mut ctl,
        &UiModelBackendEvent::Logging {
            client_socket_address: "c1".to_string(),
            src_address: Some("s1".to_string()),
            dst_address: Some("d1".to_string()),
            reason: Some("relay broken".to_string()),
        },
    );
    assert_eq!(snapshot.log_ring.len(), 1);
    assert_eq!(
        snapshot.log_ring.get(0),
        "Tunnel of client [c1] from [s1] to [d1] failed: relay broken"
    );
    assert_eq!(snapshot.status.text, "relay broken");
    assert_eq!(snapshot.status.level, UiModelStatusBarDetailType::Error);
}

fn network_event(up_total: f64, up_rate: f64, down_total: f64, down_rate: f64)
    -> UiModelBackendEvent {
    UiModelBackendEvent::NetworkState {
        upload_mb_amount: up_total.to_bits(),
        upload_mb_per_second: up_rate.to_bits(),
        download_mb_amount: down_total.to_bits(),
        download_mb_per_second: down_rate.to_bits(),
    }
}

#[test]
fn sliding_series_hold_exactly_the_last_thirty_samples_in_order() {
    let (mut snapshot, mut ctl) = running(1080);
    let n = 35usize;
    for i in 0..n {
        let up = i as f64 * 0.5;
        let down = i as f64 * 1.5;
        snapshot.apply_event(&mut ctl, &network_event(100.0, up, 200.0, down));
    }
    assert_eq!(snapshot.upload_series.len(), 30);
    assert_eq!(snapshot.download_series.len(), 30);
    for j in 0..30usize {
        let i = j + (n - 30);
        assert_eq!(*snapshot.upload_series.get(j), (i as f64 * 0.5).to_bits());
        assert_eq!(*snapshot.download_series.get(j), (i as f64 * 1.5).to_bits());
    }
}

#[test]
fn network_state_round_trips_through_an_empty_store() {
    let mut ctl = LifecycleController::new();
    let mut snapshot = HistorySnapshot::new();
    snapshot.apply_event(&mut ctl, &network_event(12.5, 0.3, 40.0, 1.1));
    assert_eq!(f64::from_bits(snapshot.network.upload_mb_amount), 12.5);
    assert_eq!(f64::from_bits(snapshot.network.upload_mb_per_second), 0.3);
    assert_eq!(f64::from_bits(snapshot.network.download_mb_amount), 40.0);
    assert_eq!(f64::from_bits(snapshot.network.download_mb_per_second), 1.1);
    assert_eq!(snapshot.upload_series.len(), 1);
    assert_eq!(*snapshot.upload_series.get(0), 0.3f64.to_bits());
    assert_eq!(snapshot.download_series.len(), 1);
    assert_eq!(*snapshot.download_series.get(0), 1.1f64.to_bits());
}

#[test]
fn start_fail_before_start_success_leaves_a_restartable_state() {
    let mut ctl = LifecycleController::new();
    ctl.start(test_config()).unwrap();
    ctl.attach_handle(AgentHandle::new()).unwrap();
    let mut snapshot = HistorySnapshot::new();
    snapshot.apply_event(
        &mut ctl,
        &UiModelBackendEvent::StartFail {
            listening_port: 1080,
            reason: "bind failed".to_string(),
        },
    );
    assert_eq!(
        ctl.state,
        LifecycleState::StartFailed { reason: "bind failed".to_string() }
    );
    assert!(ctl.handle.is_none());
    assert_eq!(snapshot.status.text, "bind failed");
    assert_eq!(snapshot.status.level, UiModelStatusBarDetailType::Error);
    assert_eq!(ctl.start(test_config()), Ok(()));
}

#[test]
fn stop_fail_keeps_the_handle_and_a_further_stop_is_accepted() {
    let (mut snapshot, mut ctl) = running(1080);
    assert_eq!(ctl.stop(), Ok(()));
    snapshot.apply_event(
        &mut ctl,
        &UiModelBackendEvent::StopFail { reason: "busy".to_string() },
    );
    assert_eq!(ctl.state, LifecycleState::StopFailed { reason: "busy".to_string() });
    assert!(ctl.handle.is_some());
    assert_eq!(snapshot.status.text, "busy");
    assert_eq!(snapshot.status.level, UiModelStatusBarDetailType::Error);
    assert_eq!(ctl.stop(), Ok(()));
    assert_eq!(ctl.state, LifecycleState::Stopping);
}

#[test]
fn stop_success_stops_and_discards_the_handle() {
    let (mut snapshot, mut ctl) = running(1080);
    ctl.stop().unwrap();
    snapshot.apply_event(&mut ctl, &UiModelBackendEvent::StopSuccess);
    assert_eq!(ctl.state, LifecycleState::Stopped);
    assert!(ctl.handle.is_none());
    assert_eq!(snapshot.status.text, "Agent server stopped.");
    assert_eq!(snapshot.status.level, UiModelStatusBarDetailType::Info);
}

#[test]
fn abrupt_stream_close_while_stopping_synthesizes_stopped() {
    let (mut snapshot, mut ctl) = running(1080);
    ctl.stop().unwrap();
    assert_eq!(ctl.state, LifecycleState::Stopping);
    snapshot.stream_closed(&mut ctl);
    assert_eq!(ctl.state, LifecycleState::Stopped);
    assert!(ctl.handle.is_none());
    assert_eq!(snapshot.status.text, "Agent server terminated abnormally.");
    assert_eq!(snapshot.status.level, UiModelStatusBarDetailType::Error);
}

#[test]
fn stream_close_after_a_terminal_state_changes_nothing() {
    let (mut snapshot, mut ctl) = running(1080);
    ctl.stop().unwrap();
    snapshot.apply_event(&mut ctl, &UiModelBackendEvent::StopSuccess);
    snapshot.stream_closed(&mut ctl);
    assert_eq!(ctl.state, LifecycleState::Stopped);
    assert_eq!(snapshot.status.text, "Agent server stopped.");
}
