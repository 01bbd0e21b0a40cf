use ppaass_agent_ui::error::{StartError, StopError};
use ppaass_agent_ui::lifecycle::{
    AgentCommand, AgentHandle, CommandChannel, LifecycleController, LifecycleState, SendOutcome,
};
use ppaass_agent_ui::model::UiModelAgentServerConfiguration;

fn test_config() -> UiModelAgentServerConfiguration {
    UiModelAgentServerConfiguration {
        user_token: "token".to_string(),
        proxy_address: vec!["127.0.0.1:9090".to_string()],
        listening_port: 1080,
    }
}

fn running_controller(port: u16) -> LifecycleController {
    let mut ctl = LifecycleController::new();
    ctl.start(test_config()).unwrap();
    ctl.attach_handle(AgentHandle::new()).unwrap();
    ctl.confirm_running(port);
    ctl
}

#[test]
fn fresh_controller_is_stopped() {
    let ctl = LifecycleController::new();
    assert_eq!(ctl.state, LifecycleState::Stopped);
    assert!(ctl.handle.is_none());
    assert!(ctl.config.is_none());
}

#[test]
fn start_moves_to_starting_and_keeps_config() {
    let mut ctl = LifecycleController::new();
    assert_eq!(ctl.start(test_config()), Ok(()));
    assert_eq!(ctl.state, LifecycleState::Starting);
    assert!(ctl.handle.is_none());
    assert_eq!(ctl.config, Some(test_config()));
}

#[test]
fn start_while_running_is_already_active_and_keeps_handle() {
    let mut ctl = running_controller(1080);
    assert_eq!(ctl.state, LifecycleState::Running { port: 1080 });
    assert!(ctl.handle.is_some());
    let r = ctl.start(test_config());
    assert_eq!(r, Err(StartError::AlreadyActive));
    assert_eq!(ctl.state, LifecycleState::Running { port: 1080 });
    assert!(ctl.handle.is_some());
    assert_eq!(ctl.handle.as_ref().unwrap().commands.len(), 0);
}

#[test]
fn start_while_starting_or_stopping_is_already_active() {
    let mut ctl = LifecycleController::new();
    ctl.start(test_config()).unwrap();
    assert_eq!(ctl.start(test_config()), Err(StartError::AlreadyActive));
    let mut ctl = running_controller(1080);
    ctl.stop().unwrap();
    assert_eq!(ctl.state, LifecycleState::Stopping);
    assert_eq!(ctl.start(test_config()), Err(StartError::AlreadyActive));
}

#[test]
fn stop_while_stopped_is_not_running_and_sends_nothing() {
    let mut ctl = LifecycleController::new();
    assert_eq!(ctl.stop(), Err(StopError::NotRunning));
    assert_eq!(ctl.state, LifecycleState::Stopped);
    assert!(ctl.handle.is_none());
    assert_eq!(ctl.take_command(), None);
}

#[test]
fn stop_while_running_queues_one_stop_command() {
    let mut ctl = running_controller(1080);
    assert_eq!(ctl.stop(), Ok(()));
    assert_eq!(ctl.state, LifecycleState::Stopping);
    assert_eq!(ctl.handle.as_ref().unwrap().commands.len(), 1);
    assert_eq!(ctl.take_command(), Some(AgentCommand::Stop));
    assert_eq!(ctl.take_command(), None);
}

#[test]
fn duplicate_stop_while_stopping_is_rejected_and_not_resent() {
    let mut ctl = running_controller(1080);
    assert_eq!(ctl.stop(), Ok(()));
    assert_eq!(ctl.stop(), Err(StopError::NotRunning));
    assert_eq!(ctl.handle.as_ref().unwrap().commands.len(), 1);
}

#[test]
fn stop_before_the_start_is_confirmed_is_rejected() {
    let mut ctl = LifecycleController::new();
    ctl.start(test_config()).unwrap();
    ctl.attach_handle(AgentHandle::new()).unwrap();
    assert_eq!(ctl.state, LifecycleState::Starting);
    assert_eq!(ctl.stop(), Err(StopError::NotRunning));
    assert_eq!(ctl.handle.as_ref().unwrap().commands.len(), 0);
}

#[test]
fn stop_with_closed_channel_is_an_immediate_successful_stop() {
    let mut ctl = running_controller(1080);
    ctl.mark_command_channel_closed();
    assert_eq!(ctl.stop(), Ok(()));
    assert_eq!(ctl.state, LifecycleState::Stopped);
    assert!(ctl.handle.is_none());
}

#[test]
fn dispatch_failure_while_stopping_stops_immediately() {
    let mut ctl = running_controller(1080);
    ctl.stop().unwrap();
    assert_eq!(ctl.take_command(), Some(AgentCommand::Stop));
    ctl.dispatch_failed();
    assert_eq!(ctl.state, LifecycleState::Stopped);
    assert!(ctl.handle.is_none());
}

#[test]
fn construction_failure_leaves_a_restartable_state() {
    let mut ctl = LifecycleController::new();
    ctl.start(test_config()).unwrap();
    let e = ctl.construction_failed("port already bound".to_string());
    assert_eq!(e, StartError::Construction("port already bound".to_string()));
    assert_eq!(
        ctl.state,
        LifecycleState::StartFailed { reason: "port already bound".to_string() }
    );
    assert!(ctl.handle.is_none());
    assert_eq!(ctl.start(test_config()), Ok(()));
}

#[test]
fn attach_is_rejected_outside_starting() {
    let mut ctl = LifecycleController::new();
    assert_eq!(ctl.attach_handle(AgentHandle::new()), Err(StartError::AlreadyActive));
    let mut ctl = running_controller(1080);
    assert_eq!(ctl.attach_handle(AgentHandle::new()), Err(StartError::AlreadyActive));
    assert_eq!(ctl.handle.as_ref().unwrap().commands.len(), 0);
}

#[test]
fn command_channel_is_fifo_bounded_and_closable() {
    let mut ch = CommandChannel::new(1);
    assert_eq!(ch.len(), 0);
    assert!(!ch.is_closed());
    assert_eq!(ch.send(AgentCommand::Stop), SendOutcome::Sent);
    assert_eq!(ch.send(AgentCommand::Stop), SendOutcome::Full);
    assert_eq!(ch.len(), 1);
    assert_eq!(ch.recv(), Some(AgentCommand::Stop));
    assert_eq!(ch.recv(), None);
    ch.close();
    assert!(ch.is_closed());
    assert_eq!(ch.send(AgentCommand::Stop), SendOutcome::Closed);
    assert_eq!(ch.len(), 0);
}
