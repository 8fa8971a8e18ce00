//! The poll loop of one device as a state machine.
//!
//! The caller owns the connection and the clock. It performs the action the
//! poller asks for, reports what came of it as a `PollEvent`, and gets the
//! next action. Everything the loop decides stands here: the order of the
//! reads, what a failed read leads to, and how long to wait before
//! connecting again.

use crate::api::{RegisterUpdate, RegisterUpdateView};
use crate::bridge::{
    after_reads, apply_read, in_time_order, lemma_cycle_replaces_or_keeps, not_before_store,
};
use crate::config::{DeviceConfig, DeviceConfigView};
use crate::modbus::client::{
    class_of, reaction_to, ErrorClass, ModbusError, ModbusErrorView, PollReaction,
};
use crate::modbus::reader::{RegisterValue, RegisterValueView};
use crate::modbus::store::{committed, lookup, RegisterStore, StoreView};
use crate::modbus::{doubled, read_request, request_for, Backoff, ReadRequest, BACKOFF_INITIAL_MS};
use crate::timestamp::Timestamp;
use vstd::prelude::*;

verus! {

/// Where the loop stands.
#[derive(Debug, Clone, Copy, PartialEq, Eq, Structural)]
pub enum Phase {
    /// No connection; a connect attempt is due or under way.
    Disconnected,
    /// Connected, between cycles.
    Idle,
    /// In a cycle, waiting for the read of the register at this position.
    Reading(usize),
}

/// What the caller reports.
#[derive(Debug)]
pub enum PollEvent {
    /// The connect attempt succeeded.
    Connected,
    /// The connect attempt failed. `jitter` is a uniformly random number,
    /// from which the next delay is drawn.
    ConnectFailed { jitter: u64 },
    /// The poll interval elapsed.
    Tick,
    /// The read succeeded. `value` is the calibrated engineering value as
    /// binary64 bits, `now` the instant the read completed.
    ReadOk { raw: Vec<u16>, value: u64, now: Timestamp },
    /// The read failed.
    ReadFailed(ModbusError),
}

pub enum PollEventView {
    Connected,
    ConnectFailed { jitter: u64 },
    Tick,
    ReadOk { raw: Seq<u16>, value: u64, now: Timestamp },
    ReadFailed(ModbusErrorView),
}

impl DeepView for PollEvent {
    type V = PollEventView;

    open spec fn deep_view(&self) -> PollEventView {
        match self {
            PollEvent::Connected => PollEventView::Connected,
            PollEvent::ConnectFailed { jitter } => PollEventView::ConnectFailed { jitter: *jitter },
            PollEvent::Tick => PollEventView::Tick,
            PollEvent::ReadOk { raw, value, now } => PollEventView::ReadOk {
                raw: raw@,
                value: *value,
                now: *now,
            },
            PollEvent::ReadFailed(error) => PollEventView::ReadFailed(error.deep_view()),
        }
    }
}

/// What the caller does next.
#[derive(Debug, Clone, Copy, PartialEq, Eq, Structural)]
pub enum PollAction {
    /// Wait this many milliseconds, then try to connect.
    Connect { delay_ms: u64 },
    /// Wait for the next tick.
    AwaitTick,
    /// Read the register at this position with this request.
    Read { index: usize, request: ReadRequest },
}

/// What a step yields besides the next action.
#[derive(Debug)]
pub struct PollOutput {
    /// What to do next.
    pub action: PollAction,
    /// The update to publish on the bus, after a successful read.
    pub update: Option<RegisterUpdate>,
    /// The device's connection status, where the step changed it.
    pub connection: Option<bool>,
    /// Whether the step ended a cycle.
    pub cycle_ended: bool,
}

pub struct PollOutputView {
    pub action: PollAction,
    pub update: Option<RegisterUpdateView>,
    pub connection: Option<bool>,
    pub cycle_ended: bool,
}

impl DeepView for PollOutput {
    type V = PollOutputView;

    open spec fn deep_view(&self) -> PollOutputView {
        PollOutputView {
            action: self.action,
            update: self.update.deep_view(),
            connection: self.connection,
            cycle_ended: self.cycle_ended,
        }
    }
}

/// The state of a loop together with the store it writes to.
pub struct PollState {
    pub phase: Phase,
    pub ceiling: u64,
    pub store: StoreView,
}

/// The outcome of a step.
pub struct PollStep {
    pub state: PollState,
    pub output: PollOutputView,
}

/// The phase is one the device allows: a read in progress is the read of
/// one of its registers.
pub open spec fn phase_fits(device: DeviceConfigView, phase: Phase) -> bool {
    phase matches Phase::Reading(i) ==> i < device.registers.len()
}

/// The action that a phase stands for.
pub open spec fn standing_action(device: DeviceConfigView, phase: Phase) -> PollAction {
    match phase {
        Phase::Disconnected => PollAction::Connect { delay_ms: 0 },
        Phase::Idle => PollAction::AwaitTick,
        Phase::Reading(i) => PollAction::Read {
            index: i,
            request: request_for(device.registers[i as int]),
        },
    }
}

/// The phase that follows the read at position `i`: the next register in
/// configured order, or the end of the cycle after the last one.
pub open spec fn phase_after_read(device: DeviceConfigView, i: usize) -> Phase {
    if i + 1 < device.registers.len() {
        Phase::Reading((i + 1) as usize)
    } else {
        Phase::Idle
    }
}

/// A step that changes nothing and gives the phase's action again.
pub open spec fn unchanged(device: DeviceConfigView, state: PollState) -> PollStep {
    PollStep {
        state,
        output: PollOutputView {
            action: standing_action(device, state.phase),
            update: None,
            connection: None,
            cycle_ended: false,
        },
    }
}

/// One step of the loop.
///
/// * Disconnected: a successful connect resets the backoff and leads to
///   `Idle`; a failed one asks for another attempt after a jittered delay
///   below the current ceiling, which then doubles up to the cap.
/// * Idle: a tick starts a cycle with the first register; with no registers
///   the cycle ends at once.
/// * Reading: a successful read is committed and announced; a failed read
///   commits nothing. After either, the loop goes on with the next register
///   or ends the cycle, except after a transport failure, which abandons the
///   cycle and leads to `Disconnected`.
/// * An event that does not belong to the phase changes nothing.
pub open spec fn poll_step(device: DeviceConfigView, state: PollState, event: PollEventView) -> PollStep {
    match (state.phase, event) {
        (Phase::Disconnected, PollEventView::Connected) => PollStep {
            state: PollState { phase: Phase::Idle, ceiling: BACKOFF_INITIAL_MS, store: state.store },
            output: PollOutputView {
                action: PollAction::AwaitTick,
                update: None,
                connection: Some(true),
                cycle_ended: false,
            },
        },
        (Phase::Disconnected, PollEventView::ConnectFailed { jitter }) => PollStep {
            state: PollState {
                phase: Phase::Disconnected,
                ceiling: doubled(state.ceiling),
                store: state.store,
            },
            output: PollOutputView {
                action: PollAction::Connect {
                    delay_ms: jitter % ((state.ceiling + 1) as u64),
                },
                update: None,
                connection: None,
                cycle_ended: false,
            },
        },
        (Phase::Idle, PollEventView::Tick) => if device.registers.len() > 0 {
            PollStep {
                state: PollState {
                    phase: Phase::Reading(0),
                    ceiling: state.ceiling,
                    store: state.store,
                },
                output: PollOutputView {
                    action: standing_action(device, Phase::Reading(0)),
                    update: None,
                    connection: None,
                    cycle_ended: false,
                },
            }
        } else {
            PollStep {
                state,
                output: PollOutputView {
                    action: PollAction::AwaitTick,
                    update: None,
                    connection: None,
                    cycle_ended: true,
                },
            }
        },
        (Phase::Reading(i), PollEventView::ReadOk { raw, value, now }) => {
            let read = RegisterValue::of_read(device.registers[i as int], raw, value, now);
            let next = phase_after_read(device, i);
            PollStep {
                state: PollState {
                    phase: next,
                    ceiling: state.ceiling,
                    store: committed(state.store, device.id, read),
                },
                output: PollOutputView {
                    action: standing_action(device, next),
                    update: Some(RegisterUpdate::announcing(device.id, read)),
                    connection: None,
                    cycle_ended: next == Phase::Idle,
                },
            }
        },
        (Phase::Reading(i), PollEventView::ReadFailed(error)) => match reaction_to(class_of(error)) {
            PollReaction::NextRegister => {
                let next = phase_after_read(device, i);
                PollStep {
                    state: PollState { phase: next, ceiling: state.ceiling, store: state.store },
                    output: PollOutputView {
                        action: standing_action(device, next),
                        update: None,
                        connection: None,
                        cycle_ended: next == Phase::Idle,
                    },
                }
            },
            PollReaction::Reconnect => PollStep {
                state: PollState {
                    phase: Phase::Disconnected,
                    ceiling: state.ceiling,
                    store: state.store,
                },
                output: PollOutputView {
                    action: PollAction::Connect { delay_ms: 0 },
                    update: None,
                    connection: Some(false),
                    cycle_ended: false,
                },
            },
        },
        _ => unchanged(device, state),
    }
}

/// The poll loop of one device.
#[derive(Debug)]
pub struct Poller {
    device: DeviceConfig,
    phase: Phase,
    backoff: Backoff,
}

impl Poller {
    #[verifier::type_invariant]
    spec fn fits(self) -> bool {
        phase_fits(self.device.deep_view(), self.phase)
    }

    /// The device this loop polls.
    pub closed spec fn device_view(self) -> DeviceConfigView {
        self.device.deep_view()
    }

    /// Where the loop stands.
    pub closed spec fn phase_view(self) -> Phase {
        self.phase
    }

    /// The ceiling of the next reconnect delay, in milliseconds.
    pub closed spec fn ceiling_view(self) -> u64 {
        self.backoff.ceiling()
    }

    /// The loop's state beside a store.
    pub open spec fn state_with(self, store: StoreView) -> PollState {
        PollState { phase: self.phase_view(), ceiling: self.ceiling_view(), store }
    }

    /// A loop for the device: disconnected, with the initial backoff. Its
    /// first action is to connect without delay.
    pub fn new(device: DeviceConfig) -> (made: (Poller, PollAction))
        ensures
            made.0.device_view() == device.deep_view(),
            made.0.phase_view() == Phase::Disconnected,
            made.0.ceiling_view() == BACKOFF_INITIAL_MS,
            made.1 == (PollAction::Connect { delay_ms: 0 }),
    {
        (
            Poller { device, phase: Phase::Disconnected, backoff: Backoff::new() },
            PollAction::Connect { delay_ms: 0 },
        )
    }

    /// The device this loop polls.
    pub fn device(&self) -> (device: &DeviceConfig)
        ensures
            device.deep_view() == self.device_view(),
    {
        &self.device
    }

    /// Where the loop stands. A read in progress is the read of one of the
    /// device's registers.
    pub fn phase(&self) -> (phase: Phase)
        ensures
            phase == self.phase_view(),
            phase_fits(self.device_view(), phase),
    {
        proof {
            use_type_invariant(self);
        }
        self.phase
    }

    fn action_for(&self, phase: Phase) -> (action: PollAction)
        requires
            phase_fits(self.device.deep_view(), phase),
        ensures
            action == standing_action(self.device.deep_view(), phase),
    {
        match phase {
            Phase::Disconnected => PollAction::Connect { delay_ms: 0 },
            Phase::Idle => PollAction::AwaitTick,
            Phase::Reading(i) => PollAction::Read {
                index: i,
                request: read_request(&self.device.registers[i]),
            },
        }
    }

    fn after_read(&self, i: usize) -> (next: Phase)
        requires
            i < self.device.registers.len(),
        ensures
            next == phase_after_read(self.device.deep_view(), i),
            phase_fits(self.device.deep_view(), next),
    {
        if i + 1 < self.device.registers.len() {
            Phase::Reading(i + 1)
        } else {
            Phase::Idle
        }
    }

    /// Takes one event: moves the loop on, commits a successful read to the
    /// store, and says what to do next.
    pub fn step(&mut self, store: &mut RegisterStore, event: PollEvent) -> (output: PollOutput)
        ensures
            final(self).device_view() == old(self).device_view(),
            poll_step(old(self).device_view(), old(self).state_with(old(store)@), event.deep_view())
                == (PollStep {
                state: final(self).state_with(final(store)@),
                output: output.deep_view(),
            }),
    {
        proof {
            use_type_invariant(&*self);
        }
        let phase = self.phase;
        match (phase, event) {
            (Phase::Disconnected, PollEvent::Connected) => {
                self.backoff.reset();
                self.phase = Phase::Idle;
                PollOutput {
                    action: PollAction::AwaitTick,
                    update: None,
                    connection: Some(true),
                    cycle_ended: false,
                }
            },
            (Phase::Disconnected, PollEvent::ConnectFailed { jitter }) => {
                let delay_ms = self.backoff.next_delay(jitter);
                PollOutput {
                    action: PollAction::Connect { delay_ms },
                    update: None,
                    connection: None,
                    cycle_ended: false,
                }
            },
            (Phase::Idle, PollEvent::Tick) => {
                if self.device.registers.len() > 0 {
                    let action = self.action_for(Phase::Reading(0));
                    self.phase = Phase::Reading(0);
                    PollOutput { action, update: None, connection: None, cycle_ended: false }
                } else {
                    PollOutput {
                        action: PollAction::AwaitTick,
                        update: None,
                        connection: None,
                        cycle_ended: true,
                    }
                }
            },
            (Phase::Reading(i), PollEvent::ReadOk { raw, value, now }) => {
                let update = apply_read(
                    store,
                    self.device.id.as_str(),
                    &self.device.registers[i],
                    raw,
                    value,
                    now,
                );
                let next = self.after_read(i);
                let action = self.action_for(next);
                self.phase = next;
                PollOutput {
                    action,
                    update: Some(update),
                    connection: None,
                    cycle_ended: match next {
                        Phase::Idle => true,
                        _ => false,
                    },
                }
            },
            (Phase::Reading(i), PollEvent::ReadFailed(error)) => {
                match error.reaction() {
                    PollReaction::NextRegister => {
                        let next = self.after_read(i);
                        let action = self.action_for(next);
                        self.phase = next;
                        PollOutput {
                            action,
                            update: None,
                            connection: None,
                            cycle_ended: match next {
                                Phase::Idle => true,
                                _ => false,
                            },
                        }
                    },
                    PollReaction::Reconnect => {
                        self.phase = Phase::Disconnected;
                        PollOutput {
                            action: PollAction::Connect { delay_ms: 0 },
                            update: None,
                            connection: Some(false),
                            cycle_ended: false,
                        }
                    },
                }
            },
            _ => {
                let action = self.action_for(phase);
                PollOutput { action, update: None, connection: None, cycle_ended: false }
            },
        }
    }
}

/// A step never leaves the phases the device allows.
pub proof fn lemma_step_keeps_phase_fit(device: DeviceConfigView, state: PollState, event: PollEventView)
    requires
        phase_fits(device, state.phase),
    ensures
        phase_fits(device, poll_step(device, state, event).state.phase),
{
}

/// Within a cycle the registers are read in configured order: a tick asks
/// for the first register, and whatever a read yields short of a transport
/// failure, the next request is for the register that follows it, until the
/// last read ends the cycle.
pub proof fn lemma_reads_in_configured_order(
    device: DeviceConfigView,
    state: PollState,
    event: PollEventView,
)
    requires
        phase_fits(device, state.phase),
        device.registers.len() <= usize::MAX,
    ensures
        state.phase == Phase::Idle && event == PollEventView::Tick && device.registers.len() > 0
            ==> poll_step(device, state, event).output.action == (PollAction::Read {
            index: 0,
            request: request_for(device.registers[0]),
        }),
        (state.phase matches Phase::Reading(i) && (event is ReadOk || (event matches PollEventView::ReadFailed(
            error,
        ) && class_of(error) != ErrorClass::Transport))) ==> {
            let i = state.phase->Reading_0;
            let step = poll_step(device, state, event);
            if i + 1 < device.registers.len() {
                &&& step.output.action == (PollAction::Read {
                    index: (i + 1) as usize,
                    request: request_for(device.registers[i + 1]),
                })
                &&& !step.output.cycle_ended
            } else {
                &&& step.output.action == PollAction::AwaitTick
                &&& step.output.cycle_ended
            }
        },
{
}

/// Only a successful read changes the store, and it changes only the
/// register that was read; only then is an update published, and it
/// announces the value that was committed.
pub proof fn lemma_store_changes_with_reads_only(
    device: DeviceConfigView,
    state: PollState,
    event: PollEventView,
)
    requires
        phase_fits(device, state.phase),
    ensures
        ({
            let step = poll_step(device, state, event);
            if state.phase is Reading && event is ReadOk {
                let read = RegisterValue::of_read(
                    device.registers[state.phase->Reading_0 as int],
                    event->raw,
                    event->value,
                    event->now,
                );
                &&& step.state.store == committed(state.store, device.id, read)
                &&& step.output.update == Some(RegisterUpdate::announcing(device.id, read))
            } else {
                &&& step.state.store == state.store
                &&& step.output.update is None
            }
        }),
{
}

/// A read that fails with a transport failure abandons the cycle: the device
/// is reported disconnected and the next action is to connect. Any other
/// failure leaves the connection as it is.
pub proof fn lemma_transport_failure_disconnects(
    device: DeviceConfigView,
    state: PollState,
    error: ModbusErrorView,
)
    requires
        state.phase is Reading,
        phase_fits(device, state.phase),
    ensures
        ({
            let step = poll_step(device, state, PollEventView::ReadFailed(error));
            if class_of(error) == ErrorClass::Transport {
                &&& step.state.phase == Phase::Disconnected
                &&& step.output.connection == Some(false)
                &&& step.output.action == (PollAction::Connect { delay_ms: 0 })
                &&& !step.output.cycle_ended
            } else {
                &&& step.state.phase != Phase::Disconnected
                &&& step.output.connection is None
            }
        }),
{
}

/// While disconnected, each failed attempt asks for a delay no longer than
/// the ceiling, and the first success puts the ceiling back to its initial
/// value.
pub proof fn lemma_reconnect_backoff(device: DeviceConfigView, state: PollState, jitter: u64)
    requires
        state.phase == Phase::Disconnected,
    ensures
        poll_step(device, state, PollEventView::ConnectFailed { jitter }).output.action
            matches PollAction::Connect { delay_ms } && delay_ms <= state.ceiling,
        poll_step(device, state, PollEventView::ConnectFailed { jitter }).state.ceiling == doubled(
            state.ceiling,
        ),
        poll_step(device, state, PollEventView::Connected).state.ceiling == BACKOFF_INITIAL_MS,
        poll_step(device, state, PollEventView::Connected).state.phase == Phase::Idle,
{
}

/// The state after a run of events, taken in order.
pub open spec fn after_events(device: DeviceConfigView, state: PollState, events: Seq<PollEventView>) -> PollState
    decreases events.len(),
{
    if events.len() == 0 {
        state
    } else {
        poll_step(device, after_events(device, state, events.drop_last()), events.last()).state
    }
}

/// The values that a run of events commits, in order: one for each
/// successful read that arrives while its read is in progress.
pub open spec fn reads_during(device: DeviceConfigView, state: PollState, events: Seq<PollEventView>) -> Seq<
    RegisterValueView,
>
    decreases events.len(),
{
    if events.len() == 0 {
        Seq::empty()
    } else {
        let before = after_events(device, state, events.drop_last());
        let earlier = reads_during(device, state, events.drop_last());
        let event = events.last();
        if before.phase is Reading && event is ReadOk {
            earlier.push(
                RegisterValue::of_read(
                    device.registers[before.phase->Reading_0 as int],
                    event->raw,
                    event->value,
                    event->now,
                ),
            )
        } else {
            earlier
        }
    }
}

/// Whatever the events, the store after them is the store before them with
/// the successful reads committed in order, and nothing else.
pub proof fn lemma_run_commits_its_reads(
    device: DeviceConfigView,
    state: PollState,
    events: Seq<PollEventView>,
)
    requires
        phase_fits(device, state.phase),
    ensures
        phase_fits(device, after_events(device, state, events).phase),
        after_events(device, state, events).store == after_reads(
            state.store,
            device.id,
            reads_during(device, state, events),
        ),
    decreases events.len(),
{
    if events.len() > 0 {
        let earlier = events.drop_last();
        lemma_run_commits_its_reads(device, state, earlier);
        let before = after_events(device, state, earlier);
        let reads = reads_during(device, state, earlier);
        let event = events.last();
        lemma_step_keeps_phase_fit(device, before, event);
        if before.phase is Reading && event is ReadOk {
            let read = RegisterValue::of_read(
                device.registers[before.phase->Reading_0 as int],
                event->raw,
                event->value,
                event->now,
            );
            assert(reads.push(read).drop_last() =~= reads);
            assert(reads.push(read).last() == read);
        }
    }
}

/// Over any run of the loop, each register of the device either keeps its
/// value or takes the value of one of the run's successful reads, stamped no
/// earlier than the value it replaces; registers of other devices are
/// untouched.
///
/// This needs a clock that does not run backwards: the reads are stamped in
/// order and none is stamped before the value already held.
pub proof fn lemma_polling_replaces_or_keeps(
    device: DeviceConfigView,
    state: PollState,
    events: Seq<PollEventView>,
    other_device: Seq<char>,
    name: Seq<char>,
)
    requires
        phase_fits(device, state.phase),
        in_time_order(reads_during(device, state, events)),
        not_before_store(state.store, device.id, reads_during(device, state, events)),
    ensures
        other_device != device.id ==> lookup(
            after_events(device, state, events).store,
            other_device,
            name,
        ) == lookup(state.store, other_device, name),
        lookup(after_events(device, state, events).store, device.id, name) == lookup(
            state.store,
            device.id,
            name,
        ) || (exists|i: int|
            0 <= i < reads_during(device, state, events).len() && (#[trigger] reads_during(
                device,
                state,
                events,
            )[i]).name == name && lookup(
                after_events(device, state, events).store,
                device.id,
                name,
            ) == Some(reads_during(device, state, events)[i]) && (lookup(
                state.store,
                device.id,
                name,
            ) matches Some(held) ==> held.timestamp.not_after(
                reads_during(device, state, events)[i].timestamp,
            ))),
{
    lemma_run_commits_its_reads(device, state, events);
    lemma_cycle_replaces_or_keeps(
        state.store,
        device.id,
        reads_during(device, state, events),
        other_device,
        name,
    );
}

} // verus!
