//! Data model shared between the control core and the panel.
//!
//! These are the plain-value shapes the panel consumes: the agent
//! configuration snapshot, the status bar line, the throughput snapshot and
//! the canonical agent event union. Throughput figures are carried as opaque
//! 64-bit samples: this core only stores and forwards them, rendering is the
//! panel's business.

use vstd::prelude::*;

verus! {

/// Immutable configuration snapshot handed to the lifecycle controller at
/// each start: user token, upstream proxy addresses and listening port.
#[derive(Debug, Clone, PartialEq, Eq)]
pub struct UiModelAgentServerConfiguration {
    pub user_token: String,
    pub proxy_address: Vec<String>,
    pub listening_port: u16,
}

/// The configuration as the contracts see it: character sequences and the port.
pub struct ConfigModel {
    pub user_token: Seq<char>,
    pub proxy_address: Seq<Seq<char>>,
    pub listening_port: u16,
}

impl UiModelAgentServerConfiguration {
    pub open spec fn model(self) -> ConfigModel {
        ConfigModel {
            user_token: self.user_token@,
            proxy_address: self.proxy_address.deep_view(),
            listening_port: self.listening_port,
        }
    }
}

/// Severity of the status bar line.
#[derive(Debug, Clone, Copy, PartialEq, Eq, Structural)]
pub enum UiModelStatusBarDetailType {
    Error,
    Warn,
    Info,
}

impl UiModelStatusBarDetailType {
    /// The lower-case name the panel uses as a style class.
    pub open spec fn name_spec(self) -> Seq<char> {
        match self {
            UiModelStatusBarDetailType::Error => "error"@,
            UiModelStatusBarDetailType::Warn => "warn"@,
            UiModelStatusBarDetailType::Info => "info"@,
        }
    }

    pub fn name(&self) -> (r: &str)
        ensures
            r@ == self.name_spec(),
    {
        match self {
            UiModelStatusBarDetailType::Error => "error",
            UiModelStatusBarDetailType::Warn => "warn",
            UiModelStatusBarDetailType::Info => "info",
        }
    }
}

/// The status bar line: a text and its severity.
#[derive(Debug, Clone, PartialEq, Eq)]
pub struct UiModelStatusBarDetail {
    pub text: String,
    pub level: UiModelStatusBarDetailType,
}

/// The status bar line as the contracts see it.
pub struct StatusModel {
    pub text: Seq<char>,
    pub level: UiModelStatusBarDetailType,
}

impl UiModelStatusBarDetail {
    pub open spec fn model(self) -> StatusModel {
        StatusModel { text: self.text@, level: self.level }
    }
}

/// Current throughput totals and rates, as opaque 64-bit samples.
#[derive(Debug, Clone, Copy, PartialEq, Eq, Structural)]
pub struct UiModelNetworkDetail {
    pub upload_mb_amount: u64,
    pub upload_mb_per_second: u64,
    pub download_mb_amount: u64,
    pub download_mb_per_second: u64,
}

impl UiModelNetworkDetail {
    /// The all-zero snapshot shown before the first report arrives.
    pub fn zero() -> (r: Self)
        ensures
            r == (UiModelNetworkDetail {
                upload_mb_amount: 0u64,
                upload_mb_per_second: 0u64,
                download_mb_amount: 0u64,
                download_mb_per_second: 0u64,
            }),
    {
        UiModelNetworkDetail {
            upload_mb_amount: 0,
            upload_mb_per_second: 0,
            download_mb_amount: 0,
            download_mb_per_second: 0,
        }
    }
}

/// Canonical union of the events the agent task reports, in arrival order.
///
/// A `Logging` event with no `reason` is an informational lifecycle notice;
/// one with a `reason` is a failure notice.
#[derive(Debug, Clone, PartialEq, Eq)]
pub enum UiModelBackendEvent {
    StartSuccess(u16),
    StartFail { listening_port: u16, reason: String },
    StopSuccess,
    StopFail { reason: String },
    Logging {
        client_socket_address: String,
        src_address: Option<String>,
        dst_address: Option<String>,
        reason: Option<String>,
    },
    NetworkState {
        upload_mb_amount: u64,
        upload_mb_per_second: u64,
        download_mb_amount: u64,
        download_mb_per_second: u64,
    },
}

/// The event union as the contracts see it.
pub enum EventModel {
    StartSuccess(u16),
    StartFail { listening_port: u16, reason: Seq<char> },
    StopSuccess,
    StopFail { reason: Seq<char> },
    Logging {
        client_socket_address: Seq<char>,
        src_address: Option<Seq<char>>,
        dst_address: Option<Seq<char>>,
        reason: Option<Seq<char>>,
    },
    NetworkState {
        upload_mb_amount: u64,
        upload_mb_per_second: u64,
        download_mb_amount: u64,
        download_mb_per_second: u64,
    },
}

/// View of an optional text: the text itself, or empty when absent.
pub open spec fn opt_text(o: Option<Seq<char>>) -> Seq<char> {
    match o {
        Some(s) => s,
        None => Seq::<char>::empty(),
    }
}

impl UiModelBackendEvent {
    pub open spec fn model(self) -> EventModel {
        match self {
            UiModelBackendEvent::StartSuccess(port) => EventModel::StartSuccess(port),
            UiModelBackendEvent::StartFail { listening_port, reason } => EventModel::StartFail {
                listening_port,
                reason: reason@,
            },
            UiModelBackendEvent::StopSuccess => EventModel::StopSuccess,
            UiModelBackendEvent::StopFail { reason } => EventModel::StopFail { reason: reason@ },
            UiModelBackendEvent::Logging {
                client_socket_address,
                src_address,
                dst_address,
                reason,
            } => EventModel::Logging {
                client_socket_address: client_socket_address@,
                src_address: src_address.deep_view(),
                dst_address: dst_address.deep_view(),
                reason: reason.deep_view(),
            },
            UiModelBackendEvent::NetworkState {
                upload_mb_amount,
                upload_mb_per_second,
                download_mb_amount,
                download_mb_per_second,
            } => EventModel::NetworkState {
                upload_mb_amount,
                upload_mb_per_second,
                download_mb_amount,
                download_mb_per_second,
            },
        }
    }
}

} // verus!
