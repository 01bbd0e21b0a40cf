//! Event bridge and history store.
//!
//! The bridge consumes the agent's event stream in arrival order, folds each
//! event into the bounded [`HistorySnapshot`] and drives the lifecycle
//! controller's confirmation transitions. When the stream ends without a
//! terminal confirmation it synthesizes a transition to `Stopped` with a
//! status line noting the abnormal termination, so the controller is never
//! left waiting forever.

use vstd::prelude::*;
use vstd::string::*;

use crate::lifecycle::{
    spec_confirm_running, spec_confirm_start_failed, spec_confirm_stop_failed, spec_confirm_stopped,
    spec_stream_closed, CtlModel, LifecycleController,
};
use crate::model::{
    EventModel, StatusModel, UiModelBackendEvent, UiModelNetworkDetail, UiModelStatusBarDetail,
    UiModelStatusBarDetailType,
};
use crate::ring::{lemma_ring_push_all_keeps_newest, newest, ring_push, ring_push_all, RingBuffer};
use crate::text::{
    abnormal_stop_status_text, build_abnormal_stop_status, build_logging_error_line,
    build_logging_info_line, build_start_success_status, build_stop_success_status,
    logging_error_line, logging_info_line, start_success_status_text, stop_success_status_text,
};

verus! {

/// Capacity of the ring of recent log lines.
pub const LOG_RING_CAPACITY: usize = 1000;

/// Capacity of each sliding series of throughput samples.
pub const SERIES_CAPACITY: usize = 30;

/// Bounded, ordered history of what the agent reported: current status line,
/// current throughput snapshot, the newest log lines and the newest
/// throughput samples. Owned by the bridge; the panel only ever receives
/// copies.
pub struct HistorySnapshot {
    pub status: UiModelStatusBarDetail,
    pub network: UiModelNetworkDetail,
    pub log_ring: RingBuffer<String>,
    pub upload_series: RingBuffer<u64>,
    pub download_series: RingBuffer<u64>,
}

/// The history as the contracts see it.
#[verifier::ext_equal]
pub struct HistoryModel {
    pub status: StatusModel,
    pub network: UiModelNetworkDetail,
    pub log: Seq<Seq<char>>,
    pub upload_series: Seq<u64>,
    pub download_series: Seq<u64>,
}

/// The history of a freshly composed panel: ready to start, all-zero
/// throughput, empty rings.
pub open spec fn init_history() -> HistoryModel {
    HistoryModel {
        status: StatusModel {
            text: "Ready to start agent server"@,
            level: UiModelStatusBarDetailType::Info,
        },
        network: UiModelNetworkDetail {
            upload_mb_amount: 0u64,
            upload_mb_per_second: 0u64,
            download_mb_amount: 0u64,
            download_mb_per_second: 0u64,
        },
        log: Seq::<Seq<char>>::empty(),
        upload_series: Seq::<u64>::empty(),
        download_series: Seq::<u64>::empty(),
    }
}

/// The log line an event contributes: an informational notice without a
/// failure reason, an error notice with one.
pub open spec fn log_line_of(e: EventModel) -> Seq<char> {
    match e {
        EventModel::Logging { client_socket_address, src_address, dst_address, reason } => match
            reason {
            None => logging_info_line(client_socket_address, src_address, dst_address),
            Some(r) => logging_error_line(client_socket_address, src_address, dst_address, r),
        },
        _ => Seq::<char>::empty(),
    }
}

/// What folding one event into the history does, per §event kind:
/// terminal events set the status line, logging notices enter the log ring
/// (failure notices also set the status line), throughput reports replace
/// the snapshot and enter the sliding series. Nothing else changes.
pub open spec fn fold_event(h: HistoryModel, e: EventModel) -> HistoryModel {
    match e {
        EventModel::StartSuccess(port) => HistoryModel {
            status: StatusModel {
                text: start_success_status_text(port),
                level: UiModelStatusBarDetailType::Info,
            },
            ..h
        },
        EventModel::StartFail { listening_port, reason } => HistoryModel {
            status: StatusModel { text: reason, level: UiModelStatusBarDetailType::Error },
            ..h
        },
        EventModel::StopSuccess => HistoryModel {
            status: StatusModel {
                text: stop_success_status_text(),
                level: UiModelStatusBarDetailType::Info,
            },
            ..h
        },
        EventModel::StopFail { reason } => HistoryModel {
            status: StatusModel { text: reason, level: UiModelStatusBarDetailType::Error },
            ..h
        },
        EventModel::Logging { client_socket_address, src_address, dst_address, reason } => match
            reason {
            None => HistoryModel {
                log: ring_push(h.log, log_line_of(e), LOG_RING_CAPACITY as nat),
                ..h
            },
            Some(r) => HistoryModel {
                log: ring_push(h.log, log_line_of(e), LOG_RING_CAPACITY as nat),
                status: StatusModel { text: r, level: UiModelStatusBarDetailType::Error },
                ..h
            },
        },
        EventModel::NetworkState {
            upload_mb_amount,
            upload_mb_per_second,
            download_mb_amount,
            download_mb_per_second,
        } => HistoryModel {
            network: UiModelNetworkDetail {
                upload_mb_amount,
                upload_mb_per_second,
                download_mb_amount,
                download_mb_per_second,
            },
            upload_series: ring_push(h.upload_series, upload_mb_per_second, SERIES_CAPACITY as nat),
            download_series: ring_push(
                h.download_series,
                download_mb_per_second,
                SERIES_CAPACITY as nat,
            ),
            ..h
        },
    }
}

/// What folding a whole stream of events does, in arrival order.
pub open spec fn fold_events(h: HistoryModel, es: Seq<EventModel>) -> HistoryModel
    decreases es.len(),
{
    if es.len() == 0 {
        h
    } else {
        fold_events(fold_event(h, es[0]), es.drop_first())
    }
}

/// The confirmation an event carries for the lifecycle controller.
pub open spec fn ctl_after_event(m: CtlModel, e: EventModel) -> CtlModel {
    match e {
        EventModel::StartSuccess(port) => spec_confirm_running(m, port),
        EventModel::StartFail { listening_port, reason } => spec_confirm_start_failed(m, reason),
        EventModel::StopSuccess => spec_confirm_stopped(m),
        EventModel::StopFail { reason } => spec_confirm_stop_failed(m, reason),
        EventModel::Logging { .. } => m,
        EventModel::NetworkState { .. } => m,
    }
}

/// What the end of the event stream does to the history: while an instance
/// was still considered alive, the status line notes the abnormal
/// termination; otherwise nothing changes.
pub open spec fn fold_stream_closed(h: HistoryModel, was_active: bool) -> HistoryModel {
    if was_active {
        HistoryModel {
            status: StatusModel {
                text: abnormal_stop_status_text(),
                level: UiModelStatusBarDetailType::Error,
            },
            ..h
        }
    } else {
        h
    }
}

/// The upload rate a throughput report carries.
pub open spec fn upload_rate_of(e: EventModel) -> u64 {
    match e {
        EventModel::NetworkState { upload_mb_per_second, .. } => upload_mb_per_second,
        _ => 0u64,
    }
}

/// The download rate a throughput report carries.
pub open spec fn download_rate_of(e: EventModel) -> u64 {
    match e {
        EventModel::NetworkState { download_mb_per_second, .. } => download_mb_per_second,
        _ => 0u64,
    }
}

/// Folding logging events moves exactly their lines through the log ring.
pub proof fn lemma_fold_events_log(h: HistoryModel, es: Seq<EventModel>)
    requires
        forall|i: int| 0 <= i < es.len() ==> es[i] is Logging,
    ensures
        fold_events(h, es).log == ring_push_all(
            h.log,
            es.map_values(|e: EventModel| log_line_of(e)),
            LOG_RING_CAPACITY as nat,
        ),
    decreases es.len(),
{
    let lines = es.map_values(|e: EventModel| log_line_of(e));
    if es.len() > 0 {
        let h1 = fold_event(h, es[0]);
        assert(h1.log == ring_push(h.log, log_line_of(es[0]), LOG_RING_CAPACITY as nat));
        lemma_fold_events_log(h1, es.drop_first());
        assert(es.drop_first().map_values(|e: EventModel| log_line_of(e)) =~= lines.drop_first());
    }
}

/// Law of the log ring: feeding the bridge any sequence of logging events
/// leaves exactly the newest `LOG_RING_CAPACITY` of the contributed lines
/// (after whatever was already there), in arrival order; once enough lines
/// arrived the ring holds exactly `LOG_RING_CAPACITY` of them.
pub proof fn lemma_log_ring_keeps_newest(h: HistoryModel, es: Seq<EventModel>)
    requires
        h.log.len() <= LOG_RING_CAPACITY as nat,
        forall|i: int| 0 <= i < es.len() ==> es[i] is Logging,
    ensures
        fold_events(h, es).log == newest(
            h.log + es.map_values(|e: EventModel| log_line_of(e)),
            LOG_RING_CAPACITY as nat,
        ),
        h.log.len() + es.len() >= LOG_RING_CAPACITY as nat ==> fold_events(h, es).log.len()
            == LOG_RING_CAPACITY as nat,
{
    lemma_fold_events_log(h, es);
    lemma_ring_push_all_keeps_newest(
        h.log,
        es.map_values(|e: EventModel| log_line_of(e)),
        LOG_RING_CAPACITY as nat,
    );
}

/// Folding throughput reports moves exactly their rates through the series.
pub proof fn lemma_fold_events_series(h: HistoryModel, es: Seq<EventModel>)
    requires
        forall|i: int| 0 <= i < es.len() ==> es[i] is NetworkState,
    ensures
        fold_events(h, es).upload_series == ring_push_all(
            h.upload_series,
            es.map_values(|e: EventModel| upload_rate_of(e)),
            SERIES_CAPACITY as nat,
        ),
        fold_events(h, es).download_series == ring_push_all(
            h.download_series,
            es.map_values(|e: EventModel| download_rate_of(e)),
            SERIES_CAPACITY as nat,
        ),
    decreases es.len(),
{
    let ups = es.map_values(|e: EventModel| upload_rate_of(e));
    let downs = es.map_values(|e: EventModel| download_rate_of(e));
    if es.len() > 0 {
        let h1 = fold_event(h, es[0]);
        lemma_fold_events_series(h1, es.drop_first());
        assert(es.drop_first().map_values(|e: EventModel| upload_rate_of(e)) =~= ups.drop_first());
        assert(es.drop_first().map_values(|e: EventModel| download_rate_of(e))
            =~= downs.drop_first());
    }
}

/// Law of the sliding series: feeding the bridge any sequence of throughput
/// reports leaves each series equal to the newest `SERIES_CAPACITY` of the
/// reported rates (after whatever was already there), in arrival order;
/// once enough reports arrived each series holds exactly `SERIES_CAPACITY`
/// samples.
pub proof fn lemma_series_keep_newest(h: HistoryModel, es: Seq<EventModel>)
    requires
        h.upload_series.len() <= SERIES_CAPACITY as nat,
        h.download_series.len() <= SERIES_CAPACITY as nat,
        forall|i: int| 0 <= i < es.len() ==> es[i] is NetworkState,
    ensures
        fold_events(h, es).upload_series == newest(
            h.upload_series + es.map_values(|e: EventModel| upload_rate_of(e)),
            SERIES_CAPACITY as nat,
        ),
        fold_events(h, es).download_series == newest(
            h.download_series + es.map_values(|e: EventModel| download_rate_of(e)),
            SERIES_CAPACITY as nat,
        ),
        h.upload_series.len() + es.len() >= SERIES_CAPACITY as nat ==> fold_events(
            h,
            es,
        ).upload_series.len() == SERIES_CAPACITY as nat,
        h.download_series.len() + es.len() >= SERIES_CAPACITY as nat ==> fold_events(
            h,
            es,
        ).download_series.len() == SERIES_CAPACITY as nat,
{
    lemma_fold_events_series(h, es);
    lemma_ring_push_all_keeps_newest(
        h.upload_series,
        es.map_values(|e: EventModel| upload_rate_of(e)),
        SERIES_CAPACITY as nat,
    );
    lemma_ring_push_all_keeps_newest(
        h.download_series,
        es.map_values(|e: EventModel| download_rate_of(e)),
        SERIES_CAPACITY as nat,
    );
}

impl HistorySnapshot {
    pub open spec fn model(self) -> HistoryModel {
        HistoryModel {
            status: self.status.model(),
            network: self.network,
            log: self.log_ring@.map_values(|s: String| s@),
            upload_series: self.upload_series@,
            download_series: self.download_series@,
        }
    }

    pub open spec fn wf(self) -> bool {
        &&& self.log_ring.wf()
        &&& self.log_ring.spec_capacity() == LOG_RING_CAPACITY as nat
        &&& self.upload_series.wf()
        &&& self.upload_series.spec_capacity() == SERIES_CAPACITY as nat
        &&& self.download_series.wf()
        &&& self.download_series.spec_capacity() == SERIES_CAPACITY as nat
    }

    pub fn new() -> (r: Self)
        ensures
            r.wf(),
            r.model() == init_history(),
    {
        let r = HistorySnapshot {
            status: UiModelStatusBarDetail {
                text: String::from_str("Ready to start agent server"),
                level: UiModelStatusBarDetailType::Info,
            },
            network: UiModelNetworkDetail::zero(),
            log_ring: RingBuffer::new(LOG_RING_CAPACITY),
            upload_series: RingBuffer::new(SERIES_CAPACITY),
            download_series: RingBuffer::new(SERIES_CAPACITY),
        };
        proof {
            assert(r.model() =~= init_history());
        }
        r
    }

    /// Fold one received event into the history and apply the confirmation
    /// it carries to the lifecycle controller.
    pub fn apply_event(&mut self, ctl: &mut LifecycleController, event: &UiModelBackendEvent)
        requires
            old(self).wf(),
            old(ctl).wf(),
        ensures
            final(self).wf(),
            final(ctl).wf(),
            final(self).model() == fold_event(old(self).model(), event.model()),
            final(ctl).model() == ctl_after_event(old(ctl).model(), event.model()),
    {
        match event {
            UiModelBackendEvent::StartSuccess(port) => {
                self.status = UiModelStatusBarDetail {
                    text: build_start_success_status(*port),
                    level: UiModelStatusBarDetailType::Info,
                };
                ctl.confirm_running(*port);
            },
            UiModelBackendEvent::StartFail { listening_port: _, reason } => {
                self.status = UiModelStatusBarDetail {
                    text: reason.clone(),
                    level: UiModelStatusBarDetailType::Error,
                };
                ctl.confirm_start_failed(reason.clone());
            },
            UiModelBackendEvent::StopSuccess => {
                self.status = UiModelStatusBarDetail {
                    text: build_stop_success_status(),
                    level: UiModelStatusBarDetailType::Info,
                };
                ctl.confirm_stopped();
            },
            UiModelBackendEvent::StopFail { reason } => {
                self.status = UiModelStatusBarDetail {
                    text: reason.clone(),
                    level: UiModelStatusBarDetailType::Error,
                };
                ctl.confirm_stop_failed(reason.clone());
            },
            UiModelBackendEvent::Logging {
                client_socket_address,
                src_address,
                dst_address,
                reason,
            } => {
                match reason {
                    None => {
                        let line = build_logging_info_line(
                            client_socket_address,
                            src_address,
                            dst_address,
                        );
                        self.log_ring.push(line);
                    },
                    Some(r) => {
                        let line = build_logging_error_line(
                            client_socket_address,
                            src_address,
                            dst_address,
                            r,
                        );
                        self.log_ring.push(line);
                        self.status = UiModelStatusBarDetail {
                            text: r.clone(),
                            level: UiModelStatusBarDetailType::Error,
                        };
                    },
                }
                proof {
                    assert(self.log_ring@.map_values(|s: String| s@) =~= ring_push(
                        old(self).model().log,
                        log_line_of(event.model()),
                        LOG_RING_CAPACITY as nat,
                    ));
                }
            },
            UiModelBackendEvent::NetworkState {
                upload_mb_amount,
                upload_mb_per_second,
                download_mb_amount,
                download_mb_per_second,
            } => {
                self.network = UiModelNetworkDetail {
                    upload_mb_amount: *upload_mb_amount,
                    upload_mb_per_second: *upload_mb_per_second,
                    download_mb_amount: *download_mb_amount,
                    download_mb_per_second: *download_mb_per_second,
                };
                self.upload_series.push(*upload_mb_per_second);
                self.download_series.push(*download_mb_per_second);
            },
        }
        proof {
            assert(self.model() =~= fold_event(old(self).model(), event.model()));
        }
    }

    /// The event stream ended. Drive the controller to a terminal state and,
    /// if an instance was still considered alive, note the abnormal
    /// termination in the status line.
    pub fn stream_closed(&mut self, ctl: &mut LifecycleController)
        requires
            old(self).wf(),
            old(ctl).wf(),
        ensures
            final(self).wf(),
            final(ctl).wf(),
            final(self).model() == fold_stream_closed(
                old(self).model(),
                old(ctl).model().is_active(),
            ),
            final(ctl).model() == spec_stream_closed(old(ctl).model()),
    {
        let was_active = ctl.is_active();
        ctl.stream_closed();
        if was_active {
            self.status = UiModelStatusBarDetail {
                text: build_abnormal_stop_status(),
                level: UiModelStatusBarDetailType::Error,
            };
        }
        proof {
            assert(self.model() =~= fold_stream_closed(
                old(self).model(),
                old(ctl).model().is_active(),
            ));
        }
    }
}

} // verus!
