//! Lifecycle controller: the single authority for starting and stopping the
//! managed agent.
//!
//! The controller owns the lifecycle state, the optional handle of the one
//! live agent instance, and the bounded command channel towards the agent
//! task. User actions (`start`, `stop`) act synchronously on the state;
//! confirmations (`confirm_*`) arrive asynchronously from the event path and
//! are applied by the event bridge. The runtime shell around the core
//! performs the actual construction, spawning and channel I/O and reports
//! their outcomes back through `attach_handle`, `construction_failed`,
//! `dispatch_failed` and `mark_command_channel_closed`.
//!
//! Every transition is specified by a `spec` function over [`CtlModel`], and
//! the laws at the end of the module show that the controller invariant holds
//! after any sequence of operations — in particular that no operation ever
//! installs a second agent instance beside a live one.

use vstd::prelude::*;

use crate::error::{StartError, StopError};
use crate::model::{ConfigModel, UiModelAgentServerConfiguration};

verus! {

/// Control command carried by the command channel to the agent task.
///
/// Starting is implicit in spawning the task, so stopping is the only
/// command.
#[derive(Debug, Clone, Copy, PartialEq, Eq, Structural)]
pub enum AgentCommand {
    Stop,
}

/// Outcome of offering a command to the channel.
#[derive(Debug, Clone, Copy, PartialEq, Eq, Structural)]
pub enum SendOutcome {
    /// The command was queued for the agent task.
    Sent,
    /// The channel already holds as many commands as its capacity allows.
    Full,
    /// The receiving side is gone; nothing was queued.
    Closed,
}

/// Bounded single-producer single-consumer queue of control commands.
///
/// The recommended capacity is one: only one outstanding `Stop` is ever
/// meaningful.
pub struct CommandChannel {
    queue: Vec<AgentCommand>,
    capacity: usize,
    closed: bool,
}

/// The command channel as the contracts see it.
#[verifier::ext_equal]
pub struct ChannelModel {
    pub queue: Seq<AgentCommand>,
    pub capacity: nat,
    pub closed: bool,
}

impl ChannelModel {
    pub open spec fn wf(self) -> bool {
        &&& self.queue.len() <= self.capacity
        &&& self.capacity >= 1
    }
}

/// What offering `cmd` does to the channel: queued in arrival order while
/// there is room, dropped (with the outcome saying so) when full or closed.
pub open spec fn spec_channel_send(m: ChannelModel, cmd: AgentCommand) -> (ChannelModel,
    SendOutcome) {
    if m.closed {
        (m, SendOutcome::Closed)
    } else if m.queue.len() >= m.capacity {
        (m, SendOutcome::Full)
    } else {
        (ChannelModel { queue: m.queue.push(cmd), ..m }, SendOutcome::Sent)
    }
}

/// What receiving does: the oldest queued command leaves first.
pub open spec fn spec_channel_recv(m: ChannelModel) -> (ChannelModel, Option<AgentCommand>) {
    if m.queue.len() == 0 {
        (m, None)
    } else {
        (ChannelModel { queue: m.queue.drop_first(), ..m }, Some(m.queue[0]))
    }
}

impl CommandChannel {
    pub closed spec fn model(self) -> ChannelModel {
        ChannelModel { queue: self.queue@, capacity: self.capacity as nat, closed: self.closed }
    }

    pub open spec fn wf(self) -> bool {
        self.model().wf()
    }

    pub fn new(capacity: usize) -> (r: Self)
        requires
            capacity >= 1,
        ensures
            r.wf(),
            r.model() == (ChannelModel {
                queue: Seq::<AgentCommand>::empty(),
                capacity: capacity as nat,
                closed: false,
            }),
    {
        let r = CommandChannel { queue: Vec::new(), capacity, closed: false };
        proof {
            assert(r.model() =~= ChannelModel {
                queue: Seq::<AgentCommand>::empty(),
                capacity: capacity as nat,
                closed: false,
            });
        }
        r
    }

    pub fn len(&self) -> (n: usize)
        ensures
            n == self.model().queue.len(),
    {
        self.queue.len()
    }

    pub fn is_closed(&self) -> (b: bool)
        ensures
            b == self.model().closed,
    {
        self.closed
    }

    pub fn send(&mut self, cmd: AgentCommand) -> (r: SendOutcome)
        requires
            old(self).wf(),
        ensures
            final(self).wf(),
            (final(self).model(), r) == spec_channel_send(old(self).model(), cmd),
    {
        if self.closed {
            SendOutcome::Closed
        } else if self.queue.len() >= self.capacity {
            SendOutcome::Full
        } else {
            self.queue.push(cmd);
            proof {
                assert((final(self).model(), SendOutcome::Sent) =~= spec_channel_send(
                    old(self).model(),
                    cmd,
                ));
            }
            SendOutcome::Sent
        }
    }

    pub fn recv(&mut self) -> (r: Option<AgentCommand>)
        requires
            old(self).wf(),
        ensures
            final(self).wf(),
            (final(self).model(), r) == spec_channel_recv(old(self).model()),
    {
        if self.queue.len() == 0 {
            None
        } else {
            let cmd = self.queue.remove(0);
            proof {
                assert(self.queue@ =~= old(self).queue@.drop_first());
                assert((final(self).model(), Some(cmd)) =~= spec_channel_recv(old(self).model()));
            }
            Some(cmd)
        }
    }

    /// Record that the receiving side is gone; later sends report `Closed`.
    pub fn close(&mut self)
        requires
            old(self).wf(),
        ensures
            final(self).wf(),
            final(self).model() == (ChannelModel { closed: true, ..old(self).model() }),
    {
        self.closed = true;
    }
}

/// Handle of the one live agent instance: the command channel towards the
/// agent task. The task's join handle stays with the runtime shell that
/// spawned the task.
pub struct AgentHandle {
    pub commands: CommandChannel,
}

impl AgentHandle {
    pub open spec fn wf(self) -> bool {
        self.commands.wf()
    }

    /// A fresh handle with an open command channel of capacity one.
    pub fn new() -> (r: Self)
        ensures
            r.wf(),
            r.commands.model() == (ChannelModel {
                queue: Seq::<AgentCommand>::empty(),
                capacity: 1,
                closed: false,
            }),
    {
        AgentHandle { commands: CommandChannel::new(1) }
    }
}

/// Lifecycle state of the managed agent as the controller sees it.
///
/// After a failed stop the agent instance is still considered alive, so
/// `StopFailed` keeps the handle and counts as active.
#[derive(Debug, Clone, PartialEq, Eq)]
pub enum LifecycleState {
    Stopped,
    Starting,
    Running { port: u16 },
    Stopping,
    StartFailed { reason: String },
    StopFailed { reason: String },
}

/// The lifecycle state as the contracts see it.
#[verifier::ext_equal]
pub enum StateModel {
    Stopped,
    Starting,
    Running { port: u16 },
    Stopping,
    StartFailed { reason: Seq<char> },
    StopFailed { reason: Seq<char> },
}

impl LifecycleState {
    pub open spec fn model(self) -> StateModel {
        match self {
            LifecycleState::Stopped => StateModel::Stopped,
            LifecycleState::Starting => StateModel::Starting,
            LifecycleState::Running { port } => StateModel::Running { port },
            LifecycleState::Stopping => StateModel::Stopping,
            LifecycleState::StartFailed { reason } => StateModel::StartFailed { reason: reason@ },
            LifecycleState::StopFailed { reason } => StateModel::StopFailed { reason: reason@ },
        }
    }
}

/// The controller as the contracts see it.
#[verifier::ext_equal]
pub struct CtlModel {
    pub state: StateModel,
    pub handle: Option<ChannelModel>,
    pub config: Option<ConfigModel>,
}

impl CtlModel {
    /// An agent instance is (possibly) alive: starting, running, stopping,
    /// or lingering after a failed stop.
    pub open spec fn is_active(self) -> bool {
        ||| self.state is Starting
        ||| self.state is Running
        ||| self.state is Stopping
        ||| self.state is StopFailed
    }

    /// Controller invariant: the handle exists exactly while an instance may
    /// be alive (during `Starting` it appears once spawning succeeded), and
    /// its channel is well-formed.
    pub open spec fn wf(self) -> bool {
        &&& (self.state is Running || self.state is Stopping || self.state is StopFailed)
            ==> self.handle is Some
        &&& self.handle is Some ==> self.is_active()
        &&& match self.handle {
            Some(ch) => ch.wf(),
            None => true,
        }
    }
}

/// The controller of a freshly composed panel: stopped, no instance, no
/// configuration handed over yet.
pub open spec fn spec_new_ctl() -> CtlModel {
    CtlModel { state: StateModel::Stopped, handle: None, config: None }
}

/// A start request is carried out only while no instance may be alive.
pub open spec fn start_accepted(m: CtlModel) -> bool {
    !m.is_active()
}

/// What an accepted start does: move to `Starting` with a fresh copy of the
/// configuration; the handle appears later, once spawning succeeded. A
/// rejected start changes nothing.
pub open spec fn spec_start(m: CtlModel, cfg: ConfigModel) -> CtlModel {
    if start_accepted(m) {
        CtlModel { state: StateModel::Starting, handle: None, config: Some(cfg) }
    } else {
        m
    }
}

/// A spawned instance's handle is installed only while `Starting` and only
/// while no handle exists.
pub open spec fn attach_accepted(m: CtlModel) -> bool {
    m.state is Starting && m.handle is None
}

pub open spec fn spec_attach(m: CtlModel, hm: ChannelModel) -> CtlModel {
    if attach_accepted(m) {
        CtlModel { handle: Some(hm), ..m }
    } else {
        m
    }
}

/// Construction of the agent instance failed before anything was spawned.
pub open spec fn spec_construction_failed(m: CtlModel, reason: Seq<char>) -> CtlModel {
    if m.state is Starting {
        CtlModel { state: StateModel::StartFailed { reason }, handle: None, ..m }
    } else {
        m
    }
}

/// A stop request is carried out while an instance is running, or lingering
/// after a failed stop. A stop already in flight is not re-sent.
pub open spec fn stop_accepted(m: CtlModel) -> bool {
    m.state is Running || m.state is StopFailed
}

/// What an accepted stop does: move to `Stopping` and queue one `Stop`
/// command. A closed channel means the task is already gone, which counts as
/// an immediate successful stop. A full channel already holds the one
/// meaningful `Stop`, so nothing is queued twice. A rejected stop changes
/// nothing.
pub open spec fn spec_stop(m: CtlModel) -> CtlModel {
    if stop_accepted(m) {
        match m.handle {
            Some(ch) => {
                if ch.closed {
                    CtlModel { state: StateModel::Stopped, handle: None, ..m }
                } else {
                    let ch2 = spec_channel_send(ch, AgentCommand::Stop).0;
                    CtlModel { state: StateModel::Stopping, handle: Some(ch2), ..m }
                }
            },
            None => m,
        }
    } else {
        m
    }
}

/// The runtime shell takes the next queued command for dispatch.
pub open spec fn spec_take_command(m: CtlModel) -> (CtlModel, Option<AgentCommand>) {
    match m.handle {
        Some(ch) => {
            let (ch2, cmd) = spec_channel_recv(ch);
            (CtlModel { handle: Some(ch2), ..m }, cmd)
        },
        None => (m, None),
    }
}

/// Dispatching the stop command failed because the task is gone: the desired
/// end state already holds, so this is an immediate successful stop.
pub open spec fn spec_dispatch_failed(m: CtlModel) -> CtlModel {
    if m.state is Stopping {
        CtlModel { state: StateModel::Stopped, handle: None, ..m }
    } else {
        m
    }
}

/// The receiving side of the command channel is gone.
pub open spec fn spec_mark_channel_closed(m: CtlModel) -> CtlModel {
    match m.handle {
        Some(ch) => CtlModel { handle: Some(ChannelModel { closed: true, ..ch }), ..m },
        None => m,
    }
}

/// The event path confirmed that the agent listens: `Running` on that port.
/// Without a live handle there is nothing to confirm.
pub open spec fn spec_confirm_running(m: CtlModel, port: u16) -> CtlModel {
    if m.handle is Some {
        CtlModel { state: StateModel::Running { port }, ..m }
    } else {
        m
    }
}

/// The event path reported a failed start: the instance is gone, the handle
/// is discarded, the system is restartable.
pub open spec fn spec_confirm_start_failed(m: CtlModel, reason: Seq<char>) -> CtlModel {
    CtlModel { state: StateModel::StartFailed { reason }, handle: None, ..m }
}

/// The event path reported a successful stop: the instance is gone.
pub open spec fn spec_confirm_stopped(m: CtlModel) -> CtlModel {
    CtlModel { state: StateModel::Stopped, handle: None, ..m }
}

/// The event path reported a failed stop: the instance is still alive, so
/// the handle is retained and a further stop request stays possible.
pub open spec fn spec_confirm_stop_failed(m: CtlModel, reason: Seq<char>) -> CtlModel {
    if m.handle is Some {
        CtlModel { state: StateModel::StopFailed { reason }, ..m }
    } else {
        m
    }
}

/// The event stream ended without a terminal confirmation: the task is gone,
/// so the controller is driven to `Stopped` rather than left waiting.
pub open spec fn spec_stream_closed(m: CtlModel) -> CtlModel {
    if m.is_active() {
        CtlModel { state: StateModel::Stopped, handle: None, ..m }
    } else {
        m
    }
}

/// Single authority over the agent's lifecycle.
pub struct LifecycleController {
    pub state: LifecycleState,
    pub handle: Option<AgentHandle>,
    pub config: Option<UiModelAgentServerConfiguration>,
}

impl LifecycleController {
    pub open spec fn model(self) -> CtlModel {
        CtlModel {
            state: self.state.model(),
            handle: match self.handle {
                Some(h) => Some(h.commands.model()),
                None => None,
            },
            config: match self.config {
                Some(c) => Some(c.model()),
                None => None,
            },
        }
    }

    pub open spec fn wf(self) -> bool {
        self.model().wf()
    }

    pub fn new() -> (r: Self)
        ensures
            r.wf(),
            r.model() == spec_new_ctl(),
    {
        let r = LifecycleController { state: LifecycleState::Stopped, handle: None, config: None };
        proof {
            assert(r.model() =~= spec_new_ctl());
        }
        r
    }

    /// Whether an agent instance may currently be alive.
    pub fn is_active(&self) -> (b: bool)
        ensures
            b == self.model().is_active(),
    {
        match &self.state {
            LifecycleState::Starting => true,
            LifecycleState::Running { .. } => true,
            LifecycleState::Stopping => true,
            LifecycleState::StopFailed { .. } => true,
            _ => false,
        }
    }

    /// Start the agent with a fresh copy of the configuration.
    ///
    /// Rejected with `AlreadyActive` while an instance may be alive — also
    /// after a failed stop, since the instance is then still considered
    /// alive; spawning a second one is never allowed. A rejected start
    /// changes nothing, in particular not an existing handle.
    pub fn start(&mut self, config: UiModelAgentServerConfiguration) -> (r: Result<
        (),
        StartError,
    >)
        requires
            old(self).wf(),
        ensures
            final(self).wf(),
            final(self).model() == spec_start(old(self).model(), config.model()),
            r == if start_accepted(old(self).model()) {
                Ok::<(), StartError>(())
            } else {
                Err::<(), StartError>(StartError::AlreadyActive)
            },
            !start_accepted(old(self).model()) ==> *final(self) == *old(self),
    {
        let accepted = match &self.state {
            LifecycleState::Stopped => true,
            LifecycleState::StartFailed { .. } => true,
            _ => false,
        };
        if !accepted {
            return Err(StartError::AlreadyActive);
        }
        self.state = LifecycleState::Starting;
        self.handle = None;
        self.config = Some(config);
        proof {
            assert(self.model() =~= spec_start(old(self).model(), config.model()));
        }
        Ok(())
    }

    /// Install the handle of the instance that was just spawned.
    ///
    /// Accepted only while `Starting` and only while no handle exists; an
    /// existing handle is never replaced.
    pub fn attach_handle(&mut self, handle: AgentHandle) -> (r: Result<(), StartError>)
        requires
            old(self).wf(),
            handle.wf(),
        ensures
            final(self).wf(),
            final(self).model() == spec_attach(old(self).model(), handle.commands.model()),
            r == if attach_accepted(old(self).model()) {
                Ok::<(), StartError>(())
            } else {
                Err::<(), StartError>(StartError::AlreadyActive)
            },
            !attach_accepted(old(self).model()) ==> *final(self) == *old(self),
    {
        let accepted = match &self.state {
            LifecycleState::Starting => self.handle.is_none(),
            _ => false,
        };
        if !accepted {
            return Err(StartError::AlreadyActive);
        }
        self.handle = Some(handle);
        proof {
            assert(self.model() =~= spec_attach(old(self).model(), handle.commands.model()));
        }
        Ok(())
    }

    /// Record that the agent instance could not be constructed; returns the
    /// error the caller surfaces. The system stays restartable.
    pub fn construction_failed(&mut self, reason: String) -> (e: StartError)
        requires
            old(self).wf(),
        ensures
            final(self).wf(),
            final(self).model() == spec_construction_failed(old(self).model(), reason@),
            e == StartError::Construction(reason),
    {
        let is_starting = match &self.state {
            LifecycleState::Starting => true,
            _ => false,
        };
        if is_starting {
            self.state = LifecycleState::StartFailed { reason: reason.clone() };
            self.handle = None;
            proof {
                assert(self.model() =~= spec_construction_failed(old(self).model(), reason@));
            }
        }
        StartError::Construction(reason)
    }

    /// Request a stop of the running agent.
    ///
    /// Rejected with `NotRunning` when no stoppable instance exists and while
    /// a stop is already in flight (a stop command is never re-sent). A
    /// rejected stop changes nothing — in particular it queues no command.
    /// When the command channel is already closed the task is gone, which
    /// counts as an immediate successful stop.
    pub fn stop(&mut self) -> (r: Result<(), StopError>)
        requires
            old(self).wf(),
        ensures
            final(self).wf(),
            final(self).model() == spec_stop(old(self).model()),
            r == if stop_accepted(old(self).model()) {
                Ok::<(), StopError>(())
            } else {
                Err::<(), StopError>(StopError::NotRunning)
            },
            !stop_accepted(old(self).model()) ==> *final(self) == *old(self),
    {
        let accepted = match &self.state {
            LifecycleState::Running { .. } => true,
            LifecycleState::StopFailed { .. } => true,
            _ => false,
        };
        if !accepted {
            return Err(StopError::NotRunning);
        }
        let outcome = match &mut self.handle {
            Some(h) => h.commands.send(AgentCommand::Stop),
            None => {
                proof {
                    assert(false);
                }
                SendOutcome::Closed
            },
        };
        match outcome {
            SendOutcome::Closed => {
                self.state = LifecycleState::Stopped;
                self.handle = None;
            },
            SendOutcome::Sent | SendOutcome::Full => {
                self.state = LifecycleState::Stopping;
            },
        }
        proof {
            assert(self.model() =~= spec_stop(old(self).model()));
        }
        Ok(())
    }

    /// Hand the next queued command to the runtime shell for dispatch.
    pub fn take_command(&mut self) -> (r: Option<AgentCommand>)
        requires
            old(self).wf(),
        ensures
            final(self).wf(),
            (final(self).model(), r) == spec_take_command(old(self).model()),
    {
        let r = match &mut self.handle {
            Some(h) => h.commands.recv(),
            None => None,
        };
        proof {
            assert((self.model(), r) =~= spec_take_command(old(self).model()));
        }
        r
    }

    /// The runtime shell failed to deliver the stop command: the task is
    /// gone, so the stop already succeeded.
    pub fn dispatch_failed(&mut self)
        requires
            old(self).wf(),
        ensures
            final(self).wf(),
            final(self).model() == spec_dispatch_failed(old(self).model()),
    {
        let is_stopping = match &self.state {
            LifecycleState::Stopping => true,
            _ => false,
        };
        if is_stopping {
            self.state = LifecycleState::Stopped;
            self.handle = None;
        }
        proof {
            assert(self.model() =~= spec_dispatch_failed(old(self).model()));
        }
    }

    /// Record that the receiving side of the command channel is gone.
    pub fn mark_command_channel_closed(&mut self)
        requires
            old(self).wf(),
        ensures
            final(self).wf(),
            final(self).model() == spec_mark_channel_closed(old(self).model()),
    {
        match &mut self.handle {
            Some(h) => h.commands.close(),
            None => {},
        }
        proof {
            assert(self.model() =~= spec_mark_channel_closed(old(self).model()));
        }
    }

    /// Confirmation from the event path: the agent listens on `port`.
    pub fn confirm_running(&mut self, port: u16)
        requires
            old(self).wf(),
        ensures
            final(self).wf(),
            final(self).model() == spec_confirm_running(old(self).model(), port),
    {
        if self.handle.is_some() {
            self.state = LifecycleState::Running { port };
        }
        proof {
            assert(self.model() =~= spec_confirm_running(old(self).model(), port));
        }
    }

    /// Confirmation from the event path: the start failed; the handle is
    /// discarded and the system stays restartable.
    pub fn confirm_start_failed(&mut self, reason: String)
        requires
            old(self).wf(),
        ensures
            final(self).wf(),
            final(self).model() == spec_confirm_start_failed(old(self).model(), reason@),
    {
        self.state = LifecycleState::StartFailed { reason };
        self.handle = None;
        proof {
            assert(self.model() =~= spec_confirm_start_failed(old(self).model(), reason@));
        }
    }

    /// Confirmation from the event path: the agent stopped.
    pub fn confirm_stopped(&mut self)
        requires
            old(self).wf(),
        ensures
            final(self).wf(),
            final(self).model() == spec_confirm_stopped(old(self).model()),
    {
        self.state = LifecycleState::Stopped;
        self.handle = None;
        proof {
            assert(self.model() =~= spec_confirm_stopped(old(self).model()));
        }
    }

    /// Confirmation from the event path: the stop failed; the instance is
    /// still alive, so the handle is retained.
    pub fn confirm_stop_failed(&mut self, reason: String)
        requires
            old(self).wf(),
        ensures
            final(self).wf(),
            final(self).model() == spec_confirm_stop_failed(old(self).model(), reason@),
    {
        if self.handle.is_some() {
            self.state = LifecycleState::StopFailed { reason };
        }
        proof {
            assert(self.model() =~= spec_confirm_stop_failed(old(self).model(), reason@));
        }
    }

    /// The event stream ended without a terminal confirmation: drive the
    /// controller to `Stopped` rather than leaving it waiting forever.
    pub fn stream_closed(&mut self)
        requires
            old(self).wf(),
        ensures
            final(self).wf(),
            final(self).model() == spec_stream_closed(old(self).model()),
    {
        let active = match &self.state {
            LifecycleState::Starting => true,
            LifecycleState::Running { .. } => true,
            LifecycleState::Stopping => true,
            LifecycleState::StopFailed { .. } => true,
            _ => false,
        };
        if active {
            self.state = LifecycleState::Stopped;
            self.handle = None;
        }
        proof {
            assert(self.model() =~= spec_stream_closed(old(self).model()));
        }
    }
}

/// One operation on the controller, for stating laws over whole call
/// sequences. Attaching is modelled as installing a well-formed channel; the
/// executable `attach_handle` enforces well-formedness by precondition.
pub enum LifecycleOp {
    Start(ConfigModel),
    Attach(ChannelModel),
    ConstructionFailed(Seq<char>),
    Stop,
    TakeCommand,
    DispatchFailed,
    MarkChannelClosed,
    ConfirmRunning(u16),
    ConfirmStartFailed(Seq<char>),
    ConfirmStopped,
    ConfirmStopFailed(Seq<char>),
    StreamClosed,
}

pub open spec fn apply_op(m: CtlModel, op: LifecycleOp) -> CtlModel {
    match op {
        LifecycleOp::Start(cfg) => spec_start(m, cfg),
        LifecycleOp::Attach(hm) => if hm.wf() {
            spec_attach(m, hm)
        } else {
            m
        },
        LifecycleOp::ConstructionFailed(reason) => spec_construction_failed(m, reason),
        LifecycleOp::Stop => spec_stop(m),
        LifecycleOp::TakeCommand => spec_take_command(m).0,
        LifecycleOp::DispatchFailed => spec_dispatch_failed(m),
        LifecycleOp::MarkChannelClosed => spec_mark_channel_closed(m),
        LifecycleOp::ConfirmRunning(port) => spec_confirm_running(m, port),
        LifecycleOp::ConfirmStartFailed(reason) => spec_confirm_start_failed(m, reason),
        LifecycleOp::ConfirmStopped => spec_confirm_stopped(m),
        LifecycleOp::ConfirmStopFailed(reason) => spec_confirm_stop_failed(m, reason),
        LifecycleOp::StreamClosed => spec_stream_closed(m),
    }
}

pub open spec fn apply_ops(m: CtlModel, ops: Seq<LifecycleOp>) -> CtlModel
    decreases ops.len(),
{
    if ops.len() == 0 {
        m
    } else {
        apply_ops(apply_op(m, ops[0]), ops.drop_first())
    }
}

/// Every single operation preserves the controller invariant.
pub proof fn lemma_op_preserves_wf(m: CtlModel, op: LifecycleOp)
    requires
        m.wf(),
    ensures
        apply_op(m, op).wf(),
{
}

/// Law: after any sequence of operations on a fresh controller the invariant
/// holds. Together with the invariant this is the single-instance guarantee:
/// the controller holds at most one handle, it exists only while an instance
/// may be alive, and (see `lemma_no_second_instance`) no operation installs
/// one beside a live one.
pub proof fn lemma_wf_after_any_ops(m: CtlModel, ops: Seq<LifecycleOp>)
    requires
        m.wf(),
    ensures
        apply_ops(m, ops).wf(),
    decreases ops.len(),
{
    if ops.len() > 0 {
        lemma_op_preserves_wf(m, ops[0]);
        lemma_wf_after_any_ops(apply_op(m, ops[0]), ops.drop_first());
    }
}

/// Law: while a handle exists, neither a start request nor an attach changes
/// the controller at all — the existing instance is never replaced and no
/// second one appears.
pub proof fn lemma_no_second_instance(m: CtlModel, cfg: ConfigModel, hm: ChannelModel)
    requires
        m.wf(),
        m.handle is Some,
    ensures
        apply_op(m, LifecycleOp::Start(cfg)) == m,
        apply_op(m, LifecycleOp::Attach(hm)) == m,
{
}

} // verus!
