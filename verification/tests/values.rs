use ppaass_agent_ui::config::{
    parse_configuration, parse_port, split_addresses, AgentServerConfigUiBo,
};
use ppaass_agent_ui::error::PpaassAgentUiError;
use ppaass_agent_ui::input::{check_number_input, parse_i128, NumberInputCheck};
use ppaass_agent_ui::model::{UiModelBackendEvent, UiModelStatusBarDetailType};
use ppaass_agent_ui::ring::RingBuffer;
use ppaass_agent_ui::text::u16_to_dec_string;
use ppaass_agent_ui::vo::{AgentServerEventType, AgentServerEventVo};
use ppaass_agent_ui::command::UiBackendCommand;

#[test]
fn status_level_names() {
    assert_eq!(UiModelStatusBarDetailType::Error.name(), "error");
    assert_eq!(UiModelStatusBarDetailType::Warn.name(), "warn");
    assert_eq!(UiModelStatusBarDetailType::Info.name(), "info");
}

#[test]
fn command_names() {
    assert_eq!(UiBackendCommand::StartAgentServer.name(), "start_agent_server");
    assert_eq!(UiBackendCommand::StopAgentServer.name(), "stop_agent_server");
    assert_eq!(
        UiBackendCommand::LoadAgentServerConifugration.name(),
        "load_agent_server_configuration"
    );
}

#[test]
fn error_messages() {
    assert_eq!(
        PpaassAgentUiError::Agent("boom".to_string()).message(),
        "Agent error happen: boom"
    );
    assert_eq!(
        PpaassAgentUiError::Other("odd".to_string()).message(),
        "Other error happen: odd"
    );
}

#[test]
fn decimal_rendering() {
    assert_eq!(u16_to_dec_string(0), "0");
    assert_eq!(u16_to_dec_string(7), "7");
    assert_eq!(u16_to_dec_string(1080), "1080");
    assert_eq!(u16_to_dec_string(65535), "65535");
}

#[test]
fn ring_buffer_evicts_oldest_first() {
    let mut ring: RingBuffer<u64> = RingBuffer::new(3);
    assert_eq!(ring.capacity(), 3);
    for v in 1..=5u64 {
        ring.push(v);
    }
    assert_eq!(ring.len(), 3);
    assert_eq!(*ring.get(0), 3);
    assert_eq!(*ring.get(1), 4);
    assert_eq!(*ring.get(2), 5);
}

#[test]
fn port_parsing_accepts_exactly_the_port_range() {
    assert_eq!(parse_port("0"), Some(0));
    assert_eq!(parse_port("1080"), Some(1080));
    assert_eq!(parse_port("65535"), Some(65535));
    assert_eq!(parse_port("65536"), None);
    assert_eq!(parse_port(""), None);
    assert_eq!(parse_port("10x0"), None);
    assert_eq!(parse_port("-1"), None);
    assert_eq!(parse_port("999999999999999999999"), None);
}

#[test]
fn address_field_splits_on_semicolons() {
    assert_eq!(split_addresses("host-a:80;host-b:81"), vec!["host-a:80", "host-b:81"]);
    assert_eq!(split_addresses("single:9090"), vec!["single:9090"]);
    assert_eq!(split_addresses(""), vec![""]);
    assert_eq!(split_addresses("a;;b"), vec!["a", "", "b"]);
    assert_eq!(split_addresses("a;"), vec!["a", ""]);
}

#[test]
fn configuration_parsing() {
    let cfg = parse_configuration(AgentServerConfigUiBo {
        user_token: "tok".to_string(),
        proxy_address: "p1:80;p2:81".to_string(),
        listening_port: "1080".to_string(),
    })
    .unwrap();
    assert_eq!(cfg.user_token, "tok");
    assert_eq!(cfg.proxy_address, vec!["p1:80", "p2:81"]);
    assert_eq!(cfg.listening_port, 1080);

    let err = parse_configuration(AgentServerConfigUiBo {
        user_token: "tok".to_string(),
        proxy_address: "p1:80".to_string(),
        listening_port: "80_0".to_string(),
    })
    .unwrap_err();
    assert_eq!(err, PpaassAgentUiError::Other("Invalid listening port".to_string()));
}

#[test]
fn signed_number_parsing() {
    assert_eq!(parse_i128("42"), Some(42));
    assert_eq!(parse_i128("+7"), Some(7));
    assert_eq!(parse_i128("-5"), Some(-5));
    assert_eq!(parse_i128("0"), Some(0));
    assert_eq!(parse_i128(""), None);
    assert_eq!(parse_i128("-"), None);
    assert_eq!(parse_i128("+"), None);
    assert_eq!(parse_i128("1.5"), None);
    assert_eq!(
        parse_i128("170141183460469231731687303715884105727"),
        Some(i128::MAX)
    );
    assert_eq!(parse_i128("170141183460469231731687303715884105728"), None);
    assert_eq!(
        parse_i128("-170141183460469231731687303715884105728"),
        Some(i128::MIN)
    );
    assert_eq!(parse_i128("-170141183460469231731687303715884105729"), None);
}

#[test]
fn number_field_checks_follow_the_field_range() {
    assert_eq!(check_number_input(1025, 65535, ""), NumberInputCheck::Empty);
    assert_eq!(check_number_input(1025, 65535, "1080"), NumberInputCheck::InRange(1080));
    assert_eq!(check_number_input(1025, 65535, "1024"), NumberInputCheck::OutOfRange(1024));
    assert_eq!(check_number_input(1025, 65535, "65536"), NumberInputCheck::OutOfRange(65536));
    assert_eq!(check_number_input(1025, 65535, "port"), NumberInputCheck::NotANumber);
}

#[test]
fn normalization_tags_and_texts() {
    let vo = AgentServerEventVo::normalize(&UiModelBackendEvent::StartSuccess(1080)).unwrap();
    assert_eq!(vo.event_type, AgentServerEventType::StartSuccess);
    assert_eq!(vo.content, "Agent server start success, listening on: 1080");

    let vo = AgentServerEventVo::normalize(&UiModelBackendEvent::StartFail {
        listening_port: 1080,
        reason: "bind failed".to_string(),
    })
    .unwrap();
    assert_eq!(vo.event_type, AgentServerEventType::StartFail);
    assert_eq!(vo.content, "Agent server start fail, can not listening on: 1080.");

    let vo = AgentServerEventVo::normalize(&UiModelBackendEvent::StopSuccess).unwrap();
    assert_eq!(vo.event_type, AgentServerEventType::StopSuccess);
    assert_eq!(vo.content, "Agent server stop success.");

    let vo = AgentServerEventVo::normalize(&UiModelBackendEvent::StopFail {
        reason: "busy".to_string(),
    })
    .unwrap();
    assert_eq!(vo.event_type, AgentServerEventType::StopFail);
    assert_eq!(vo.content, "Agent server stop fail.");
}

#[test]
fn normalization_of_tunnel_notices() {
    let vo = AgentServerEventVo::normalize(&UiModelBackendEvent::Logging {
        client_socket_address: "c1".to_string(),
        src_address: Some("s1".to_string()),
        dst_address: None,
        reason: None,
    })
    .unwrap();
    assert_eq!(vo.event_type, AgentServerEventType::LoggingInfo);
    assert_eq!(vo.content, "Tunnel of client [c1] from [s1] to [].");

    let vo = AgentServerEventVo::normalize(&UiModelBackendEvent::Logging {
        client_socket_address: "c1".to_string(),
        src_address: None,
        dst_address: Some("d1".to_string()),
        reason: Some("no route".to_string()),
    })
    .unwrap();
    assert_eq!(vo.event_type, AgentServerEventType::LoggingError);
    assert_eq!(vo.content, "Tunnel of client [c1] from [] to [d1] failed: no route");
}

#[test]
fn throughput_reports_are_rendered_at_the_serialization_boundary() {
    let r = AgentServerEventVo::normalize(&UiModelBackendEvent::NetworkState {
        upload_mb_amount: 0,
        upload_mb_per_second: 0,
        download_mb_amount: 0,
        download_mb_per_second: 0,
    });
    assert!(r.is_none());
    assert_eq!(
        AgentServerEventType::of_event(&UiModelBackendEvent::NetworkState {
            upload_mb_amount: 0,
            upload_mb_per_second: 0,
            download_mb_amount: 0,
            download_mb_per_second: 0,
        }),
        AgentServerEventType::NetworkState
    );
}
