//! Normalization of agent events into the single shape the panel transport
//! publishes, and the configuration snapshot the panel requests.

use vstd::prelude::*;

use crate::bridge::log_line_of;
use crate::model::{EventModel, UiModelAgentServerConfiguration, UiModelBackendEvent};
use crate::text::{
    build_logging_error_line, build_logging_info_line, build_start_fail_content,
    build_start_success_content, build_stop_fail_content, build_stop_success_content,
    start_fail_content_text, start_success_content_text, stop_fail_content_text,
    stop_success_content_text,
};

verus! {

/// Configuration snapshot handed to the panel on request.
#[derive(Debug, Clone, PartialEq, Eq)]
pub struct AgentServerConfigurationVo {
    pub user_token: String,
    pub proxy_addresses: Vec<String>,
    pub port: u16,
}

impl UiModelAgentServerConfiguration {
    /// Repackage the configuration for the panel.
    pub fn into_vo(self) -> (r: AgentServerConfigurationVo)
        ensures
            r.user_token == self.user_token,
            r.proxy_addresses == self.proxy_address,
            r.port == self.listening_port,
    {
        AgentServerConfigurationVo {
            user_token: self.user_token,
            proxy_addresses: self.proxy_address,
            port: self.listening_port,
        }
    }
}

/// Kind tag of a published notification.
///
/// The canonical event union carries no sub-event distinction for tunnel
/// notices, so a notice without a failure reason is `LoggingInfo` and one
/// with a reason is `LoggingError`; `LoggingWarn` stays part of the wire
/// vocabulary for panels that distinguish it.
#[derive(Debug, Clone, Copy, PartialEq, Eq, Structural)]
pub enum AgentServerEventType {
    NetworkState,
    StartSuccess,
    StartFail,
    StopSuccess,
    StopFail,
    LoggingError,
    LoggingInfo,
    LoggingWarn,
}

/// The kind tag an event normalizes to.
pub open spec fn event_type_of(e: EventModel) -> AgentServerEventType {
    match e {
        EventModel::StartSuccess(_) => AgentServerEventType::StartSuccess,
        EventModel::StartFail { .. } => AgentServerEventType::StartFail,
        EventModel::StopSuccess => AgentServerEventType::StopSuccess,
        EventModel::StopFail { .. } => AgentServerEventType::StopFail,
        EventModel::Logging { reason: Option::None, .. } => AgentServerEventType::LoggingInfo,
        EventModel::Logging { reason: Option::Some(_), .. } => AgentServerEventType::LoggingError,
        EventModel::NetworkState { .. } => AgentServerEventType::NetworkState,
    }
}

/// The text a notification carries. A throughput report has none here: its
/// content is the serialized sample record, rendered at the serialization
/// boundary because the samples are opaque to this core.
pub open spec fn event_content_of(e: EventModel) -> Option<Seq<char>> {
    match e {
        EventModel::StartSuccess(port) => Some(start_success_content_text(port)),
        EventModel::StartFail { listening_port, .. } => Some(
            start_fail_content_text(listening_port),
        ),
        EventModel::StopSuccess => Some(stop_success_content_text()),
        EventModel::StopFail { .. } => Some(stop_fail_content_text()),
        EventModel::Logging { .. } => Some(log_line_of(e)),
        EventModel::NetworkState { .. } => None,
    }
}

/// One published notification: a text and its kind tag.
#[derive(Debug, Clone, PartialEq, Eq)]
pub struct AgentServerEventVo {
    pub content: String,
    pub event_type: AgentServerEventType,
}

impl AgentServerEventType {
    /// The kind tag of an event.
    pub fn of_event(event: &UiModelBackendEvent) -> (r: Self)
        ensures
            r == event_type_of(event.model()),
    {
        match event {
            UiModelBackendEvent::StartSuccess(_) => AgentServerEventType::StartSuccess,
            UiModelBackendEvent::StartFail { .. } => AgentServerEventType::StartFail,
            UiModelBackendEvent::StopSuccess => AgentServerEventType::StopSuccess,
            UiModelBackendEvent::StopFail { .. } => AgentServerEventType::StopFail,
            UiModelBackendEvent::Logging { reason: Option::None, .. } => AgentServerEventType::LoggingInfo,
            UiModelBackendEvent::Logging { reason: Option::Some(_), .. } => AgentServerEventType::LoggingError,
            UiModelBackendEvent::NetworkState { .. } => AgentServerEventType::NetworkState,
        }
    }
}

impl AgentServerEventVo {
    /// Normalize an event for publication. A throughput report yields no
    /// notification here (see [`event_content_of`]); every other event
    /// yields exactly its text and kind tag.
    pub fn normalize(event: &UiModelBackendEvent) -> (r: Option<Self>)
        ensures
            match r {
                Some(vo) => {
                    &&& event_content_of(event.model()) == Some(vo.content@)
                    &&& vo.event_type == event_type_of(event.model())
                },
                None => event_content_of(event.model()) is None,
            },
    {
        let event_type = AgentServerEventType::of_event(event);
        let content: Option<String> = match event {
            UiModelBackendEvent::StartSuccess(port) => Some(build_start_success_content(*port)),
            UiModelBackendEvent::StartFail { listening_port, .. } => Some(
                build_start_fail_content(*listening_port),
            ),
            UiModelBackendEvent::StopSuccess => Some(build_stop_success_content()),
            UiModelBackendEvent::StopFail { .. } => Some(build_stop_fail_content()),
            UiModelBackendEvent::Logging {
                client_socket_address,
                src_address,
                dst_address,
                reason,
            } => match reason {
                None => Some(
                    build_logging_info_line(client_socket_address, src_address, dst_address),
                ),
                Some(r) => Some(
                    build_logging_error_line(client_socket_address, src_address, dst_address, r),
                ),
            },
            UiModelBackendEvent::NetworkState { .. } => None,
        };
        match content {
            Some(content) => Some(AgentServerEventVo { content, event_type }),
            None => None,
        }
    }
}

} // verus!
