//! The exchange's routing rules for one input: the checks an input message
//! must pass, the errors a cord topology draws before routing, the ring
//! generator's gating, and the step a focused call takes. The runtime holds
//! the calls, the clock and the random draws and hands them in as values.

use vstd::prelude::*;
use crate::hardware::{
    dialed, directory_id, operator_line, operator_line_of,
    caller_direct_cord, corded, direct, direct_circuit, has_cord, has_direct_circuit_for_caller,
    has_wrong_direct_circuit, physical_ring_line, ring_line_from, tap_circuit, valid_connected_circuit,
    valid_direct_circuit, valid_tap_circuit, wrong_direct_cord, ActiveCall,
};
use crate::protocol::{CallPhase, CordConnection, InputMessage, InputState, PortId, PROTOCOL_VERSION};
use crate::text::{blank, decimal, is_blank, push_decimal};
use crate::protocol::ShiftPhase;

verus! {

/// Why the exchange refuses an input or a routing attempt.
#[derive(Debug, Clone, Copy, PartialEq, Eq, Structural)]
pub enum ExchangeError {
    ProtocolVersion,
    InputSequence,
    StateRevision,
    MultipleTalkButtons,
    DirectorySelectionRequired,
    WrongDestination,
    ConnectedTopology,
    PrematureDirectRouting,
    PrematureRingingRouting,
    RingingTopology,
    RingGeneratorConnected,
    RingingNotReady,
    DirectTopology,
}

impl ExchangeError {
    /// The error's code on the wire.
    pub fn code(self) -> (code: &'static str)
        ensures
            code@ == error_code(self),
    {
        match self {
            ExchangeError::ProtocolVersion => "protocol_version",
            ExchangeError::InputSequence => "input_sequence",
            ExchangeError::StateRevision => "state_revision",
            ExchangeError::MultipleTalkButtons => "multiple_talk_buttons",
            ExchangeError::DirectorySelectionRequired => "directory_selection_required",
            ExchangeError::WrongDestination => "wrong_destination",
            ExchangeError::ConnectedTopology => "invalid_cord_topology",
            ExchangeError::PrematureDirectRouting => "premature_direct_routing",
            ExchangeError::PrematureRingingRouting => "premature_direct_routing",
            ExchangeError::RingingTopology => "invalid_cord_topology",
            ExchangeError::RingGeneratorConnected => "ring_generator_connected",
            ExchangeError::RingingNotReady => "ringing_not_ready",
            ExchangeError::DirectTopology => "invalid_cord_topology",
        }
    }

    /// The error's explanation for the operator.
    pub fn message(self) -> (message: &'static str)
        ensures
            message@ == error_message(self),
    {
        match self {
            ExchangeError::ProtocolVersion => "unsupported protocol version",
            ExchangeError::InputSequence => "input sequence must increase",
            ExchangeError::StateRevision => "state revision mismatch",
            ExchangeError::MultipleTalkButtons => "press exactly one of PTT, Police, or EMS",
            ExchangeError::DirectorySelectionRequired => "select the requested destination before routing",
            ExchangeError::WrongDestination => "the direct circuit must use the requested destination line",
            ExchangeError::ConnectedTopology =>
                "a connected call permits only the direct circuit and optional Tap Bridge cords",
            ExchangeError::PrematureDirectRouting =>
                "ring the requested destination before connecting the caller directly",
            ExchangeError::PrematureRingingRouting => "ring the requested destination before connecting the Caller",
            ExchangeError::RingingTopology =>
                "ringing requires exactly the caller-to-Operator and callee-to-Ring Generator cords",
            ExchangeError::RingGeneratorConnected =>
                "disconnect the Ring Generator before completing the direct circuit",
            ExchangeError::RingingNotReady => "keep the Ring Generator connected until the line LED lights",
            ExchangeError::DirectTopology => "direct routing requires exactly one Caller-to-Callee cord",
        }
    }
}

pub open spec fn error_code(e: ExchangeError) -> Seq<char> {
    match e {
        ExchangeError::ProtocolVersion => "protocol_version"@,
        ExchangeError::InputSequence => "input_sequence"@,
        ExchangeError::StateRevision => "state_revision"@,
        ExchangeError::MultipleTalkButtons => "multiple_talk_buttons"@,
        ExchangeError::DirectorySelectionRequired => "directory_selection_required"@,
        ExchangeError::WrongDestination => "wrong_destination"@,
        ExchangeError::ConnectedTopology => "invalid_cord_topology"@,
        ExchangeError::PrematureDirectRouting => "premature_direct_routing"@,
        ExchangeError::PrematureRingingRouting => "premature_direct_routing"@,
        ExchangeError::RingingTopology => "invalid_cord_topology"@,
        ExchangeError::RingGeneratorConnected => "ring_generator_connected"@,
        ExchangeError::RingingNotReady => "ringing_not_ready"@,
        ExchangeError::DirectTopology => "invalid_cord_topology"@,
    }
}

pub open spec fn error_message(e: ExchangeError) -> Seq<char> {
    match e {
        ExchangeError::ProtocolVersion => "unsupported protocol version"@,
        ExchangeError::InputSequence => "input sequence must increase"@,
        ExchangeError::StateRevision => "state revision mismatch"@,
        ExchangeError::MultipleTalkButtons => "press exactly one of PTT, Police, or EMS"@,
        ExchangeError::DirectorySelectionRequired => "select the requested destination before routing"@,
        ExchangeError::WrongDestination => "the direct circuit must use the requested destination line"@,
        ExchangeError::ConnectedTopology =>
            "a connected call permits only the direct circuit and optional Tap Bridge cords"@,
        ExchangeError::PrematureDirectRouting =>
            "ring the requested destination before connecting the caller directly"@,
        ExchangeError::PrematureRingingRouting => "ring the requested destination before connecting the Caller"@,
        ExchangeError::RingingTopology =>
            "ringing requires exactly the caller-to-Operator and callee-to-Ring Generator cords"@,
        ExchangeError::RingGeneratorConnected =>
            "disconnect the Ring Generator before completing the direct circuit"@,
        ExchangeError::RingingNotReady => "keep the Ring Generator connected until the line LED lights"@,
        ExchangeError::DirectTopology => "direct routing requires exactly one Caller-to-Callee cord"@,
    }
}

/// The first refusal an input message draws, in the order the exchange
/// checks: the protocol version, a sequence number above the last accepted
/// one, the revision the sender saw, and at most one talk button held.
pub open spec fn input_problem(message: InputMessage, last_sequence: Option<u64>, revision: u64) -> Option<ExchangeError> {
    let held = message.input.held_controls;
    let talk = (if held.ptt { 1int } else { 0int }) + (if held.police { 1int } else { 0int })
        + (if held.ems { 1int } else { 0int });
    if message.protocol_version != PROTOCOL_VERSION {
        Some(ExchangeError::ProtocolVersion)
    } else if last_sequence matches Some(last) && message.input_sequence <= last {
        Some(ExchangeError::InputSequence)
    } else if message.expected_state_revision != revision {
        Some(ExchangeError::StateRevision)
    } else if talk > 1 {
        Some(ExchangeError::MultipleTalkButtons)
    } else {
        None
    }
}

/// Checks an input message against the last accepted sequence number and
/// the current state revision.
pub fn check_input(message: &InputMessage, last_sequence: Option<u64>, revision: u64) -> (problem: Option<ExchangeError>)
    ensures
        problem == input_problem(*message, last_sequence, revision),
{
    if message.protocol_version != PROTOCOL_VERSION {
        return Some(ExchangeError::ProtocolVersion);
    }
    match last_sequence {
        Some(last) => {
            if message.input_sequence <= last {
                return Some(ExchangeError::InputSequence);
            }
        },
        None => {},
    }
    if message.expected_state_revision != revision {
        return Some(ExchangeError::StateRevision);
    }
    let held = message.input.held_controls;
    let talk: u8 = (if held.ptt { 1u8 } else { 0u8 }) + (if held.police { 1u8 } else { 0u8 })
        + (if held.ems { 1u8 } else { 0u8 });
    if talk > 1 {
        return Some(ExchangeError::MultipleTalkButtons);
    }
    None
}

/// The first error the cords draw for the focused call before it is routed:
/// a direct circuit to a destination that is not the one selected in the
/// directory, a caller corded to another line, or a connected call with cords
/// that are neither its direct circuit nor its tap bridge.
/// `destination_allowed` says whether the selected directory entry is an
/// allowed destination; `story_direct_allowed` whether a story lets the
/// caller be corded to another line.
pub open spec fn precheck_problem(
    call: ActiveCall,
    cords: Seq<CordConnection>,
    destination_allowed: bool,
    story_direct_allowed: bool,
) -> Option<ExchangeError> {
    if corded(cords, PortId::Subscriber(call.caller), PortId::Subscriber(call.callee)) && !destination_allowed {
        Some(ExchangeError::DirectorySelectionRequired)
    } else if (exists|i: int| 0 <= i < cords.len() && wrong_direct_cord(#[trigger] cords[i], call.caller, call.callee))
        && !story_direct_allowed {
        Some(ExchangeError::WrongDestination)
    } else if call.phase == CallPhase::Connected && cords.len() > 0
        && !(direct_circuit(cords, call.caller, call.callee) || tap_circuit(cords, call.caller, call.callee)) {
        Some(ExchangeError::ConnectedTopology)
    } else {
        None
    }
}

/// Checks the cords against the focused call before it is routed.
pub fn routing_precheck(call: &ActiveCall, input: &InputState, destination_allowed: bool, story_direct_allowed: bool)
    -> (problem: Option<ExchangeError>)
    ensures
        problem == precheck_problem(*call, input.cord_topology@, destination_allowed, story_direct_allowed),
{
    if direct(&input.cord_topology, call.caller, call.callee) && !destination_allowed {
        return Some(ExchangeError::DirectorySelectionRequired);
    }
    if has_wrong_direct_circuit(input, call.caller, call.callee) && !story_direct_allowed {
        return Some(ExchangeError::WrongDestination);
    }
    if call.phase == CallPhase::Connected && input.cord_topology.len() > 0
        && !valid_connected_circuit(input, call.caller, call.callee) {
        return Some(ExchangeError::ConnectedTopology);
    }
    None
}

/// The line the ring switch asks to ring: the line the ring generator is
/// corded to when the switch names that same line, else -1.
pub open spec fn requested_ring(cords: Seq<CordConnection>, ring_switch: i16) -> i16 {
    if ring_switch == ring_line_from(cords, 0) { ring_switch } else { -1i16 }
}

/// The line actually being rung: the requested line, once the ring has taken
/// on it (`ring_active_line`), else -1.
pub open spec fn ringing_line(cords: Seq<CordConnection>, ring_switch: i16, ring_active_line: i16) -> i16 {
    let physical = ring_line_from(cords, 0);
    if ring_active_line == physical && ring_switch == physical { physical } else { -1i16 }
}

/// The line the ring switch asks to ring.
pub fn effective_ring_line(input: &InputState, ring_switch: i16) -> (line: i16)
    ensures
        line == requested_ring(input.cord_topology@, ring_switch),
{
    let physical = physical_ring_line(input);
    if ring_switch == physical { physical } else { -1 }
}

/// The line actually being rung.
pub fn active_ring_line(input: &InputState, ring_switch: i16, ring_active_line: i16) -> (line: i16)
    ensures
        line == ringing_line(input.cord_topology@, ring_switch, ring_active_line),
{
    let physical = physical_ring_line(input);
    if ring_active_line == physical && ring_switch == physical { physical } else { -1 }
}

/// A ringing circuit: the caller on the operator's jack and the ring
/// generator corded to the callee, with the ring switch on the callee.
pub open spec fn ringing_circuit(cords: Seq<CordConnection>, ring_switch: i16, caller: u8, callee: u8) -> bool {
    &&& corded(cords, PortId::Subscriber(caller), PortId::Operator)
    &&& ring_line_from(cords, 0) == callee as i16
    &&& ring_switch == callee as i16
}

/// Whether the cords and the ring switch form a ringing circuit.
pub fn valid_ringing_circuit(input: &InputState, ring_switch: i16, caller: u8, callee: u8) -> (valid: bool)
    ensures
        valid == ringing_circuit(input.cord_topology@, ring_switch, caller, callee),
{
    has_cord(input, PortId::Subscriber(caller), PortId::Operator)
        && physical_ring_line(input) == callee as i16 && ring_switch == callee as i16
}

/// What the runtime knows beside the cords when it routes a call: the ring
/// switch, the line whose ring has taken, the ring delay drawn for this
/// input, the grace period a dropped ring is kept for, whether the call must
/// be rung before a direct circuit, whether a story accepts the selected
/// entry as the destination, and whether the Tap control is held.
#[derive(Debug, Clone, Copy, PartialEq, Eq, Structural)]
pub struct RouteRules {
    pub ring_switch: i16,
    pub ring_active_line: i16,
    pub ring_delay: u64,
    pub ring_grace_seconds: u64,
    pub requires_ring: bool,
    pub special_destination: bool,
    pub tap_held: bool,
}

/// What routing one input did to the focused call: the error it drew, and
/// whether the call is now to be connected or finished.
#[derive(Debug, Clone, Copy, PartialEq, Eq, Structural)]
pub struct RouteStep {
    pub error: Option<ExchangeError>,
    pub connect: bool,
    pub finish: bool,
}

pub open spec fn step_of(error: Option<ExchangeError>, connect: bool, finish: bool) -> RouteStep {
    RouteStep { error, connect, finish }
}

pub open spec fn quiet() -> RouteStep {
    step_of(None, false, false)
}

/// The seconds from `from` to `now`, or none when `now` is earlier.
pub open spec fn since(now: u64, from: u64) -> int {
    if now >= from { now - from } else { 0 }
}

/// One routing step of the focused call, by its phase.
pub open spec fn route_phase(call: ActiveCall, cords: Seq<CordConnection>, selected: u16, now: u64, r: RouteRules)
    -> (ActiveCall, RouteStep)
{
    let ring_requested = requested_ring(cords, r.ring_switch) == call.callee as i16;
    let ring = ringing_line(cords, r.ring_switch, r.ring_active_line) == call.callee as i16;
    let direct_route = corded(cords, PortId::Subscriber(call.caller), PortId::Subscriber(call.callee));
    let tap_route = r.tap_held && tap_circuit(cords, call.caller, call.callee);
    let operator = corded(cords, PortId::Subscriber(call.caller), PortId::Operator);
    let chosen = selected == call.callee as u16;
    let caller_direct = exists|i: int| 0 <= i < cords.len() && caller_direct_cord(#[trigger] cords[i], call.caller);
    match call.phase {
        CallPhase::Waiting => {
            if tap_route && chosen {
                (call, step_of(None, true, false))
            } else if operator {
                (ActiveCall { phase: CallPhase::OperatorSession, ..call }, quiet())
            } else {
                (call, quiet())
            }
        },
        CallPhase::OperatorSession | CallPhase::AwaitingRouting => {
            if tap_route && chosen {
                (call, step_of(None, true, false))
            } else if (direct_route && (r.special_destination || chosen) && call.phase == CallPhase::AwaitingRouting
                && r.requires_ring) || (caller_direct && r.requires_ring) {
                (call, step_of(Some(ExchangeError::PrematureDirectRouting), false, false))
            } else if ring_requested {
                if ringing_circuit(cords, r.ring_switch, call.caller, call.callee) {
                    (ActiveCall {
                        ring_started_at: Some(now),
                        ring_ready_at: Some((now + r.ring_delay) as u64),
                        phase: CallPhase::Ringing,
                        ..call
                    }, quiet())
                } else {
                    (call, step_of(Some(ExchangeError::RingingTopology), false, false))
                }
            } else if !r.requires_ring && direct_route && (r.special_destination || chosen) {
                (call, step_of(None, true, false))
            } else if cords.len() == 0 {
                (ActiveCall { phase: CallPhase::AwaitingRouting, ..call }, quiet())
            } else {
                (call, quiet())
            }
        },
        CallPhase::Ringing => {
            if ring_requested {
                (call, quiet())
            } else if direct_route && chosen {
                if !call.ring_activated {
                    (call, step_of(Some(ExchangeError::RingingNotReady), false, false))
                } else if call.ring_started_at is Some {
                    if direct_circuit(cords, call.caller, call.callee) {
                        (call, step_of(None, true, false))
                    } else {
                        (call, step_of(Some(ExchangeError::DirectTopology), false, false))
                    }
                } else {
                    (call, step_of(Some(ExchangeError::PrematureRingingRouting), false, false))
                }
            } else if !ring && !direct_route {
                if match call.ring_started_at { None => true, Some(s) => now > s + r.ring_grace_seconds } {
                    (ActiveCall { phase: CallPhase::AwaitingRouting, ring_started_at: None, ..call }, quiet())
                } else {
                    (call, quiet())
                }
            } else if direct_route {
                (call, step_of(Some(ExchangeError::WrongDestination), false, false))
            } else {
                (call, quiet())
            }
        },
        CallPhase::Connected => {
            if direct_circuit(cords, call.caller, call.callee) || tap_circuit(cords, call.caller, call.callee) {
                let done = match call.connected_elapsed_seconds {
                    Some(s) => since(now, s) >= call.audio_duration_seconds,
                    None => false,
                };
                (ActiveCall { disconnected_at: None, ..call }, step_of(None, false, done))
            } else {
                let at = match call.disconnected_at { Some(d) => d, None => now };
                (ActiveCall { disconnected_at: Some(at), ..call }, step_of(None, false, since(now, at) >= 5))
            }
        },
        _ => (call, quiet()),
    }
}

/// One routing step of the focused call: its phase's step, after which an
/// operator session with every cord pulled awaits routing.
pub open spec fn route_step(call: ActiveCall, cords: Seq<CordConnection>, selected: u16, now: u64, r: RouteRules)
    -> (ActiveCall, RouteStep)
{
    let (next, step) = route_phase(call, cords, selected, now, r);
    if next.phase == CallPhase::OperatorSession && cords.len() == 0 {
        (ActiveCall { phase: CallPhase::AwaitingRouting, ..next }, step)
    } else {
        (next, step)
    }
}

/// Routes the focused call for one input, given the directory entry selected
/// and the current second of the run.
pub fn route_call(call: &mut ActiveCall, input: &InputState, selected: u16, now: u64, rules: RouteRules) -> (step: RouteStep)
    requires
        now + rules.ring_delay <= u64::MAX,
    ensures
        (*final(call), step) == route_step(*old(call), input.cord_topology@, selected, now, rules),
{
    let ring_requested = effective_ring_line(input, rules.ring_switch) == call.callee as i16;
    let ring = active_ring_line(input, rules.ring_switch, rules.ring_active_line) == call.callee as i16;
    let direct_route = direct(&input.cord_topology, call.caller, call.callee);
    let tap_route = rules.tap_held && valid_tap_circuit(input, call.caller, call.callee);
    let operator = has_cord(input, PortId::Subscriber(call.caller), PortId::Operator);
    let chosen = selected == call.callee as u16;
    let mut step = RouteStep { error: None, connect: false, finish: false };
    match call.phase {
        CallPhase::Waiting => {
            if tap_route && chosen {
                step.connect = true;
            } else if operator {
                call.phase = CallPhase::OperatorSession;
            }
        },
        CallPhase::OperatorSession | CallPhase::AwaitingRouting => {
            let caller_direct = has_direct_circuit_for_caller(input, call.caller);
            if tap_route && chosen {
                step.connect = true;
            } else if (direct_route && (rules.special_destination || chosen) && call.phase == CallPhase::AwaitingRouting
                && rules.requires_ring) || (caller_direct && rules.requires_ring) {
                step.error = Some(ExchangeError::PrematureDirectRouting);
            } else if ring_requested {
                if valid_ringing_circuit(input, rules.ring_switch, call.caller, call.callee) {
                    call.ring_started_at = Some(now);
                    call.ring_ready_at = Some(now + rules.ring_delay);
                    call.phase = CallPhase::Ringing;
                } else {
                    step.error = Some(ExchangeError::RingingTopology);
                }
            } else if !rules.requires_ring && direct_route && (rules.special_destination || chosen) {
                step.connect = true;
            } else if input.cord_topology.len() == 0 {
                call.phase = CallPhase::AwaitingRouting;
            }
        },
        CallPhase::Ringing => {
            if ring_requested {
            } else if direct_route && chosen {
                if !call.ring_activated {
                    step.error = Some(ExchangeError::RingingNotReady);
                } else if call.ring_started_at.is_some() {
                    if valid_direct_circuit(input, call.caller, call.callee) {
                        step.connect = true;
                    } else {
                        step.error = Some(ExchangeError::DirectTopology);
                    }
                } else {
                    step.error = Some(ExchangeError::PrematureRingingRouting);
                }
            } else if !ring && !direct_route {
                let expired = match call.ring_started_at {
                    None => true,
                    Some(s) => now > s && now - s > rules.ring_grace_seconds,
                };
                if expired {
                    call.phase = CallPhase::AwaitingRouting;
                    call.ring_started_at = None;
                }
            } else if direct_route {
                step.error = Some(ExchangeError::WrongDestination);
            }
        },
        CallPhase::Connected => {
            if valid_connected_circuit(input, call.caller, call.callee) {
                call.disconnected_at = None;
                match call.connected_elapsed_seconds {
                    Some(s) => {
                        let elapsed = if now >= s { now - s } else { 0 };
                        if elapsed >= call.audio_duration_seconds {
                            step.finish = true;
                        }
                    },
                    None => {},
                }
            } else {
                let at = match call.disconnected_at { Some(d) => d, None => now };
                call.disconnected_at = Some(at);
                let elapsed = if now >= at { now - at } else { 0 };
                if elapsed >= 5 {
                    step.finish = true;
                }
            }
        },
        _ => {},
    }
    if call.phase == CallPhase::OperatorSession && input.cord_topology.len() == 0 {
        call.phase = CallPhase::AwaitingRouting;
    }
    step
}

/// The step a ringing call's ring takes at `now`: its ready time is set
/// `delay` seconds on the first time it is asked, and once that time has come
/// the ring has taken.
pub open spec fn ring_taken(call: ActiveCall, now: u64, delay: u64) -> (ActiveCall, bool) {
    let ready_at = match call.ring_ready_at { Some(t) => t, None => (now + delay) as u64 };
    let waited = ActiveCall { ring_ready_at: Some(ready_at), ..call };
    if now >= ready_at {
        (ActiveCall { ring_activated: true, ..waited }, true)
    } else {
        (waited, false)
    }
}

/// The position of the first ringing call whose callee is on `line`.
pub open spec fn first_ringing(calls: Seq<ActiveCall>, line: i16) -> Option<int>
    decreases calls.len(),
{
    if calls.len() == 0 {
        None
    } else {
        match first_ringing(calls.drop_last(), line) {
            Some(i) => Some(i),
            None => if calls.last().phase == CallPhase::Ringing && calls.last().callee as i16 == line {
                Some(calls.len() - 1)
            } else {
                None
            },
        }
    }
}

/// The ring generator's gating for one input: with the generator corded to a
/// line and the switch on it, the first call ringing that line takes the ring
/// once its ready time has come, and that line becomes the line being rung.
/// Without a matching ringing call, or with the switch elsewhere, no line is
/// rung; while the call waits, the line being rung stays as it was.
pub open spec fn ring_activation(calls: Seq<ActiveCall>, cords: Seq<CordConnection>, ring_switch: i16,
    ring_active_line: i16, now: u64, delay: u64) -> (Seq<ActiveCall>, i16)
{
    let physical = ring_line_from(cords, 0);
    if physical < 0 || ring_switch != physical {
        (calls, -1i16)
    } else {
        match first_ringing(calls, physical) {
            None => (calls, -1i16),
            Some(i) => {
                let (call, taken) = ring_taken(calls[i], now, delay);
                (calls.update(i, call), if taken { physical } else { ring_active_line })
            },
        }
    }
}

proof fn lemma_first_ringing(calls: Seq<ActiveCall>, line: i16, k: int)
    requires
        0 <= k <= calls.len(),
        forall|j: int| 0 <= j < k ==> !((#[trigger] calls[j]).phase == CallPhase::Ringing && calls[j].callee as i16 == line),
    ensures
        k == calls.len() ==> first_ringing(calls, line) is None,
        k < calls.len() && calls[k].phase == CallPhase::Ringing && calls[k].callee as i16 == line
            ==> first_ringing(calls, line) == Some(k),
    decreases calls.len(),
{
    if calls.len() > 0 {
        if k < calls.len() {
            if k < calls.len() - 1 {
                lemma_first_ringing(calls.drop_last(), line, k);
            } else {
                lemma_first_ringing(calls.drop_last(), line, k);
            }
        } else {
            lemma_first_ringing(calls.drop_last(), line, k - 1);
        }
    }
}

/// Applies the ring generator's gating to the calls and gives the line now
/// being rung.
pub fn update_ring_activation(calls: &mut Vec<ActiveCall>, input: &InputState, ring_switch: i16,
    ring_active_line: i16, now: u64, delay: u64) -> (active: i16)
    requires
        now + delay <= u64::MAX,
    ensures
        (final(calls)@, active) == ring_activation(old(calls)@, input.cord_topology@, ring_switch, ring_active_line, now, delay),
{
    let physical = physical_ring_line(input);
    if physical < 0 || ring_switch != physical {
        return -1;
    }
    let mut k: usize = 0;
    while k < calls.len()
        invariant
            k <= calls@.len(),
            calls@ == old(calls)@,
            now + delay <= u64::MAX,
            physical == ring_line_from(input.cord_topology@, 0),
            physical >= 0,
            ring_switch == physical,
            forall|j: int| 0 <= j < k ==> !((#[trigger] calls@[j]).phase == CallPhase::Ringing && calls@[j].callee as i16 == physical),
        decreases calls@.len() - k,
    {
        if calls[k].phase == CallPhase::Ringing && calls[k].callee as i16 == physical {
            proof { lemma_first_ringing(calls@, physical, k as int); }
            let mut call = calls[k];
            let ready_at = match call.ring_ready_at { Some(t) => t, None => now + delay };
            call.ring_ready_at = Some(ready_at);
            let mut active = ring_active_line;
            if now >= ready_at {
                call.ring_activated = true;
                active = physical;
            }
            calls.set(k, call);
            assert(calls@ =~= old(calls)@.update(k as int, call));
            return active;
        }
        k = k + 1;
    }
    proof { lemma_first_ringing(calls@, physical, k as int); }
    -1
}

/// Why the exchange refuses a text turn.
#[derive(Debug, Clone, Copy, PartialEq, Eq, Structural)]
pub enum TextTurnError {
    ProtocolVersion,
    StateRevision,
    Turn,
    Text,
    NoActiveCall,
}

impl TextTurnError {
    /// The error's code on the wire.
    pub fn code(self) -> (code: &'static str)
        ensures
            code@ == (match self {
                TextTurnError::ProtocolVersion => "protocol_version"@,
                TextTurnError::StateRevision => "state_revision"@,
                TextTurnError::Turn => "turn"@,
                TextTurnError::Text => "text"@,
                TextTurnError::NoActiveCall => "no_active_call"@,
            }),
    {
        match self {
            TextTurnError::ProtocolVersion => "protocol_version",
            TextTurnError::StateRevision => "state_revision",
            TextTurnError::Turn => "turn",
            TextTurnError::Text => "text",
            TextTurnError::NoActiveCall => "no_active_call",
        }
    }

    /// The error's explanation.
    pub fn message(self) -> (message: &'static str)
        ensures
            message@ == (match self {
                TextTurnError::ProtocolVersion => "unsupported text protocol version"@,
                TextTurnError::StateRevision => "text state revision mismatch"@,
                TextTurnError::Turn => "session and turn ids must be non-zero"@,
                TextTurnError::Text => "text input cannot be empty"@,
                TextTurnError::NoActiveCall => "connect a caller before sending text"@,
            }),
    {
        match self {
            TextTurnError::ProtocolVersion => "unsupported text protocol version",
            TextTurnError::StateRevision => "text state revision mismatch",
            TextTurnError::Turn => "session and turn ids must be non-zero",
            TextTurnError::Text => "text input cannot be empty",
            TextTurnError::NoActiveCall => "connect a caller before sending text",
        }
    }
}

/// What a text turn is answered, in the order the exchange checks: the
/// protocol version the text server speaks, the state revision, non-zero
/// session and turn ids, non-blank text, and a call in the voice turn, whose
/// caller and callee lines the turn goes to.
pub open spec fn text_turn_outcome(
    supported_version: u16,
    protocol_version: u16,
    state_revision: u64,
    session_id: u64,
    turn_id: u64,
    text: Seq<char>,
    revision: u64,
    active_call: Option<(u8, u8)>,
) -> Result<(u8, u8), TextTurnError> {
    if protocol_version != supported_version {
        Err(TextTurnError::ProtocolVersion)
    } else if state_revision != revision {
        Err(TextTurnError::StateRevision)
    } else if session_id == 0 || turn_id == 0 {
        Err(TextTurnError::Turn)
    } else if is_blank(text) {
        Err(TextTurnError::Text)
    } else {
        match active_call {
            Some(lines) => Ok(lines),
            None => Err(TextTurnError::NoActiveCall),
        }
    }
}

/// Checks a text turn against the state revision and the call in the voice
/// turn.
pub fn text_turn_check(
    supported_version: u16,
    protocol_version: u16,
    state_revision: u64,
    session_id: u64,
    turn_id: u64,
    text: &str,
    revision: u64,
    active_call: Option<(u8, u8)>,
) -> (outcome: Result<(u8, u8), TextTurnError>)
    ensures
        outcome == text_turn_outcome(supported_version, protocol_version, state_revision, session_id, turn_id,
            text@, revision, active_call),
{
    if protocol_version != supported_version {
        Err(TextTurnError::ProtocolVersion)
    } else if state_revision != revision {
        Err(TextTurnError::StateRevision)
    } else if session_id == 0 || turn_id == 0 {
        Err(TextTurnError::Turn)
    } else if blank(text) {
        Err(TextTurnError::Text)
    } else {
        match active_call {
            Some(lines) => Ok(lines),
            None => Err(TextTurnError::NoActiveCall),
        }
    }
}

/// A direct circuit made while the call still has to be rung is refused as
/// premature and connects nothing, unless it is the tap bridge to the
/// selected destination.
pub proof fn law_no_direct_circuit_before_ringing(call: ActiveCall, cords: Seq<CordConnection>, selected: u16,
    now: u64, r: RouteRules, i: int)
    requires
        call.phase == CallPhase::OperatorSession || call.phase == CallPhase::AwaitingRouting,
        r.requires_ring,
        0 <= i < cords.len(),
        caller_direct_cord(cords[i], call.caller),
        !(r.tap_held && tap_circuit(cords, call.caller, call.callee) && selected == call.callee as u16),
    ensures
        route_step(call, cords, selected, now, r).1 == step_of(Some(ExchangeError::PrematureDirectRouting), false, false),
        route_step(call, cords, selected, now, r).0 == call,
{
}

/// A ringing call is connected directly only once its ring has taken and the
/// cords are exactly its direct circuit.
pub proof fn law_ringing_connects_only_when_rung(call: ActiveCall, cords: Seq<CordConnection>, selected: u16,
    now: u64, r: RouteRules)
    requires
        call.phase == CallPhase::Ringing,
        route_step(call, cords, selected, now, r).1.connect,
    ensures
        call.ring_activated,
        call.ring_started_at is Some,
        direct_circuit(cords, call.caller, call.callee),
        selected == call.callee as u16,
{
}

/// A call starts ringing only through a ringing circuit, with its ready time
/// set `ring_delay` seconds ahead.
pub proof fn law_ringing_needs_the_generator(call: ActiveCall, cords: Seq<CordConnection>, selected: u16,
    now: u64, r: RouteRules)
    requires
        call.phase != CallPhase::Ringing,
        route_step(call, cords, selected, now, r).0.phase == CallPhase::Ringing,
        now + r.ring_delay <= u64::MAX,
    ensures
        ringing_circuit(cords, r.ring_switch, call.caller, call.callee),
        route_step(call, cords, selected, now, r).0.ring_started_at == Some(now),
        route_step(call, cords, selected, now, r).0.ring_ready_at == Some((now + r.ring_delay) as u64),
{
}

/// The run's account of the current shift: calls resolved, completed,
/// missed and failed, money earned and deducted, the balance, and the seconds
/// of conversation on completed calls.
#[derive(Debug, Clone, Copy, PartialEq, Eq, Structural)]
pub struct Ledger {
    pub resolved: u8,
    pub completed: u32,
    pub missed: u32,
    pub failed: u32,
    pub earned: i32,
    pub deductions: i32,
    pub money: i32,
    pub conversation_seconds: u64,
}

/// A signed amount as decimal text, with a minus sign when negative.
pub open spec fn signed_decimal(m: int) -> Seq<char> {
    if m < 0 { "-"@ + decimal((-m) as nat) } else { decimal(m as nat) }
}

fn push_signed(out: &mut String, m: i32)
    ensures
        final(out)@ == old(out)@ + signed_decimal(m as int),
{
    if m < 0 {
        let ghost start = out@;
        out.append("-");
        let magnitude: u64 = (0i64 - (m as i64)) as u64;
        push_decimal(out, magnitude);
        proof {
            reveal_strlit("-");
            assert(final(out)@ =~= start + ("-"@ + decimal((-m) as nat)));
        }
    } else {
        push_decimal(out, m as u64);
    }
}

/// Which way a call left the exchange.
#[derive(Debug, Clone, Copy, PartialEq, Eq, Structural)]
pub enum CallResult {
    Completed,
    Missed,
    Failed,
}

/// The ledger after one call leaves: a completed call earns 5 and adds its
/// conversation seconds (at least one); a missed or failed call deducts 4.
pub open spec fn ledger_after(l: Ledger, result: CallResult, audio_duration_seconds: u64) -> Ledger {
    let resolved = if l.resolved == u8::MAX { l.resolved } else { (l.resolved + 1) as u8 };
    match result {
        CallResult::Completed => Ledger {
            resolved,
            completed: (l.completed + 1) as u32,
            earned: (l.earned + 5) as i32,
            money: (l.money + 5) as i32,
            conversation_seconds: (l.conversation_seconds + if audio_duration_seconds < 1 { 1 } else { audio_duration_seconds }) as u64,
            ..l
        },
        CallResult::Missed => Ledger {
            resolved,
            missed: (l.missed + 1) as u32,
            deductions: (l.deductions + 4) as i32,
            money: (l.money - 4) as i32,
            ..l
        },
        CallResult::Failed => Ledger {
            resolved,
            failed: (l.failed + 1) as u32,
            deductions: (l.deductions + 4) as i32,
            money: (l.money - 4) as i32,
            ..l
        },
    }
}

/// The printer's money line for a call that left, with the new balance.
pub open spec fn money_line(result: CallResult, caller: u8, callee: u8, reason: Seq<char>, balance: i32) -> Seq<char> {
    let lines = decimal(caller as nat) + " -> "@ + decimal(callee as nat);
    match result {
        CallResult::Completed => "MONEY // +$5 completed connection line "@ + lines + " // balance $"@ + signed_decimal(balance as int),
        CallResult::Missed => "MONEY // -$4 missed call line "@ + lines + " // balance $"@ + signed_decimal(balance as int),
        CallResult::Failed => "MONEY // -$4 failed connection line "@ + lines + " ("@ + reason + ") // balance $"@
            + signed_decimal(balance as int),
    }
}

/// Settles one call that left the exchange, and gives the printer's money
/// line for it; `reason` is printed for a failed call.
pub fn settle_call(ledger: &mut Ledger, call: &ActiveCall, result: CallResult, reason: &str) -> (line: String)
    requires
        old(ledger).completed < u32::MAX,
        old(ledger).missed < u32::MAX,
        old(ledger).failed < u32::MAX,
        old(ledger).earned + 5 <= i32::MAX,
        old(ledger).deductions + 4 <= i32::MAX,
        i32::MIN <= old(ledger).money - 4,
        old(ledger).money + 5 <= i32::MAX,
        result == CallResult::Completed ==> old(ledger).conversation_seconds + call.audio_duration_seconds + 1 <= u64::MAX,
    ensures
        *final(ledger) == ledger_after(*old(ledger), result, call.audio_duration_seconds),
        line@ == money_line(result, call.caller, call.callee, reason@, final(ledger).money),
{
    ledger.resolved = if ledger.resolved == u8::MAX { ledger.resolved } else { ledger.resolved + 1 };
    let mut line = String::new();
    match result {
        CallResult::Completed => {
            ledger.completed = ledger.completed + 1;
            let seconds = if call.audio_duration_seconds < 1 { 1 } else { call.audio_duration_seconds };
            ledger.conversation_seconds = ledger.conversation_seconds + seconds;
            ledger.earned = ledger.earned + 5;
            ledger.money = ledger.money + 5;
            line.append("MONEY // +$5 completed connection line ");
        },
        CallResult::Missed => {
            ledger.missed = ledger.missed + 1;
            ledger.deductions = ledger.deductions + 4;
            ledger.money = ledger.money - 4;
            line.append("MONEY // -$4 missed call line ");
        },
        CallResult::Failed => {
            ledger.failed = ledger.failed + 1;
            ledger.deductions = ledger.deductions + 4;
            ledger.money = ledger.money - 4;
            line.append("MONEY // -$4 failed connection line ");
        },
    }
    let ghost head = line@;
    push_decimal(&mut line, call.caller as u64);
    line.append(" -> ");
    push_decimal(&mut line, call.callee as u64);
    let ghost lines = decimal(call.caller as nat) + " -> "@ + decimal(call.callee as nat);
    assert(line@ =~= head + lines);
    if result == CallResult::Failed {
        line.append(" (");
        line.append(reason);
        line.append(")");
        assert(line@ =~= head + lines + " ("@ + reason@ + ")"@);
        assert(head == "MONEY // -$4 failed connection line "@);
    }
    let ghost before_balance = line@;
    line.append(" // balance $");
    push_signed(&mut line, ledger.money);
    proof {
        match result {
            CallResult::Failed => {
                assert(before_balance =~= head + lines + " ("@ + reason@ + ")"@);
                assert(line@ =~= before_balance + " // balance $"@ + signed_decimal(ledger.money as int));
                reveal_strlit(") // balance $");
                reveal_strlit(")");
                reveal_strlit(" // balance $");
                assert(")"@ + " // balance $"@ =~= ") // balance $"@);
                assert(line@ =~= "MONEY // -$4 failed connection line "@ + lines + " ("@ + reason@ + ") // balance $"@
                    + signed_decimal(ledger.money as int));
            },
            _ => {
                assert(line@ =~= head + lines + " // balance $"@ + signed_decimal(ledger.money as int));
            },
        }
    }
    line
}

/// A waiting call whose caller's patience has run out by `now`.
pub open spec fn expired(call: ActiveCall, now: u64) -> bool {
    call.deadline <= now && call.phase == CallPhase::Waiting
}

/// The calls of `calls` that `keep` says stay, in order.
pub open spec fn calls_where(calls: Seq<ActiveCall>, now: u64, keep: bool) -> Seq<ActiveCall>
    decreases calls.len(),
{
    if calls.len() == 0 {
        Seq::empty()
    } else {
        let rest = calls_where(calls.drop_last(), now, keep);
        if expired(calls.last(), now) != keep { rest.push(calls.last()) } else { rest }
    }
}

/// Takes out the waiting calls whose patience has run out by `now`, in the
/// order they were placed; the others stay, in order.
pub fn expire_calls(calls: &mut Vec<ActiveCall>, now: u64) -> (gone: Vec<ActiveCall>)
    ensures
        gone@ == calls_where(old(calls)@, now, false),
        final(calls)@ == calls_where(old(calls)@, now, true),
{
    let all = calls.clone();
    proof { assert(all@ == old(calls)@); }
    let mut kept: Vec<ActiveCall> = Vec::new();
    let mut gone: Vec<ActiveCall> = Vec::new();
    let mut i: usize = 0;
    while i < all.len()
        invariant
            i <= all@.len(),
            kept@ == calls_where(all@.take(i as int), now, true),
            gone@ == calls_where(all@.take(i as int), now, false),
        decreases all@.len() - i,
    {
        let call = all[i];
        proof {
            assert(all@.take(i + 1).drop_last() =~= all@.take(i as int));
            assert(all@.take(i + 1).last() == call);
        }
        if call.deadline <= now && call.phase == CallPhase::Waiting {
            gone.push(call);
        } else {
            kept.push(call);
        }
        i = i + 1;
    }
    assert(all@.take(all@.len() as int) =~= all@);
    *calls = kept;
    gone
}

/// The shift is over: it is active, its duration has passed, and no call is
/// held or connected.
pub open spec fn shift_over(phase: ShiftPhase, now: u64, started: u64, duration: u64, calls: Seq<ActiveCall>) -> bool {
    &&& phase == ShiftPhase::Active
    &&& now >= started + duration
    &&& forall|i: int| 0 <= i < calls.len() ==> !((#[trigger] calls[i]).phase == CallPhase::Held || calls[i].phase == CallPhase::Connected)
}

/// Whether the shift is to be settled now.
pub fn shift_should_settle(phase: ShiftPhase, now: u64, started: u64, duration: u64, calls: &Vec<ActiveCall>) -> (settle: bool)
    ensures
        settle == shift_over(phase, now, started, duration, calls@),
{
    if phase != ShiftPhase::Active || (now as u128) < (started as u128) + (duration as u128) {
        return false;
    }
    let mut i: usize = 0;
    while i < calls.len()
        invariant
            i <= calls@.len(),
            forall|j: int| 0 <= j < i ==> !((#[trigger] calls@[j]).phase == CallPhase::Held || calls@[j].phase == CallPhase::Connected),
        decreases calls@.len() - i,
    {
        if calls[i].phase == CallPhase::Held || calls[i].phase == CallPhase::Connected {
            return false;
        }
        i = i + 1;
    }
    true
}

/// The printer's summary of a settled shift, followed by the retirement line
/// after the third shift.
pub open spec fn shift_summary_text(number: u8, l: Ledger) -> Seq<char> {
    let summary = "SHIFT "@ + decimal(number as nat) + " SUMMARY\nCOMPLETED CALLS // "@ + decimal(l.completed as nat)
        + "\nMISSED CALLS // "@ + decimal(l.missed as nat) + "\nFAILED CALLS // "@ + decimal(l.failed as nat)
        + "\nCONVERSATION SECONDS // "@ + decimal(l.conversation_seconds as nat) + "\nEARNED +$"@
        + signed_decimal(l.earned as int) + "\nDEDUCTIONS -$"@ + signed_decimal(l.deductions as int)
        + "\nCURRENT MONEY // $"@ + signed_decimal(l.money as int);
    summary
}

/// The printer's retirement line after the third shift.
pub open spec fn retirement_text(l: Ledger) -> Seq<char> {
    "RETIREMENT // THREE SHIFTS COMPLETE\nFINAL MONEY // $"@ + signed_decimal(l.money as int)
}

/// The summary printed when a shift is settled.
pub fn shift_summary(number: u8, ledger: &Ledger) -> (text: String)
    ensures
        text@ == shift_summary_text(number, *ledger),
{
    let mut t = String::new();
    t.append("SHIFT ");
    push_decimal(&mut t, number as u64);
    t.append(" SUMMARY\nCOMPLETED CALLS // ");
    push_decimal(&mut t, ledger.completed as u64);
    t.append("\nMISSED CALLS // ");
    push_decimal(&mut t, ledger.missed as u64);
    t.append("\nFAILED CALLS // ");
    push_decimal(&mut t, ledger.failed as u64);
    t.append("\nCONVERSATION SECONDS // ");
    push_decimal(&mut t, ledger.conversation_seconds);
    t.append("\nEARNED +$");
    push_signed(&mut t, ledger.earned);
    t.append("\nDEDUCTIONS -$");
    push_signed(&mut t, ledger.deductions);
    t.append("\nCURRENT MONEY // $");
    push_signed(&mut t, ledger.money);
    assert(t@ =~= shift_summary_text(number, *ledger));
    t
}

/// The retirement line printed after the third shift.
pub fn retirement(ledger: &Ledger) -> (text: String)
    ensures
        text@ == retirement_text(*ledger),
{
    let mut t = String::new();
    t.append("RETIREMENT // THREE SHIFTS COMPLETE\nFINAL MONEY // $");
    push_signed(&mut t, ledger.money);
    assert(t@ =~= retirement_text(*ledger));
    t
}

/// The next state of the run's random generator when a caller's patience is
/// drawn.
pub open spec fn patience_state(rng: u64) -> u64 {
    vstd::wrapping::u64_specs::wrapping_add(vstd::wrapping::u64_specs::wrapping_mul(rng, 6364136223846793005u64), 1u64)
}

/// Draws a caller's patience between `minimum` and `maximum` seconds, and
/// gives the generator's next state with it.
pub fn random_patience(rng: u64, minimum: u64, maximum: u64) -> (drawn: (u64, u64))
    requires
        minimum <= maximum,
        maximum - minimum < u64::MAX,
    ensures
        drawn.0 == patience_state(rng),
        drawn.1 == minimum + drawn.0 % ((maximum - minimum + 1) as u64),
        minimum <= drawn.1 <= maximum,
{
    let next = rng.wrapping_mul(6364136223846793005).wrapping_add(1);
    let span = maximum - minimum + 1;
    (next, minimum + next % span)
}

/// How a call that the operator has just routed is put through: held while
/// its opening audio is prepared, or connected at once with audio of the
/// given length. Which applies depends on the audio the runtime has.
#[derive(Debug, Clone, Copy, PartialEq, Eq, Structural)]
pub enum ConnectPlan {
    Hold,
    Connect { audio_duration_seconds: u64 },
}

/// A routed call put through by `plan` at `now`.
pub open spec fn put_through(call: ActiveCall, plan: ConnectPlan, now: u64) -> ActiveCall {
    match plan {
        ConnectPlan::Hold => ActiveCall { phase: CallPhase::Held, audio_duration_seconds: 0, ..call },
        ConnectPlan::Connect { audio_duration_seconds } => ActiveCall {
            phase: CallPhase::Connected,
            connected_elapsed_seconds: Some(now),
            audio_duration_seconds,
            ..call
        },
    }
}

/// The position of the first call whose caller is on `line`.
pub open spec fn first_with_caller(calls: Seq<ActiveCall>, line: u8) -> Option<int>
    decreases calls.len(),
{
    if calls.len() == 0 {
        None
    } else {
        match first_with_caller(calls.drop_last(), line) {
            Some(i) => Some(i),
            None => if calls.last().caller == line { Some(calls.len() - 1) } else { None },
        }
    }
}

proof fn lemma_first_with_caller(calls: Seq<ActiveCall>, line: u8, k: int)
    requires
        0 <= k <= calls.len(),
        forall|j: int| 0 <= j < k ==> (#[trigger] calls[j]).caller != line,
    ensures
        k == calls.len() ==> first_with_caller(calls, line) is None,
        k < calls.len() && calls[k].caller == line ==> first_with_caller(calls, line) == Some(k),
    decreases calls.len(),
{
    if calls.len() > 0 {
        if k < calls.len() {
            lemma_first_with_caller(calls.drop_last(), line, k);
        } else {
            lemma_first_with_caller(calls.drop_last(), line, k - 1);
        }
    }
}

/// What one input does to the calls when the operator works on the call of
/// the `focused` line: the cords are checked against it first (a direct
/// circuit needs the selected destination, a caller corded elsewhere is the
/// wrong destination, a connected call keeps only its circuit), then the call
/// takes its routing step. A call routed to the wrong destination fails and
/// leaves; a connected call whose conversation is over completes and leaves;
/// a call routed through is put through by `plan`. The result is the calls
/// after the input, the error the input draws, and the call that left with
/// how it left.
pub open spec fn routing_input(
    calls: Seq<ActiveCall>,
    cords: Seq<CordConnection>,
    focused: Option<u8>,
    selected: u16,
    now: u64,
    r: RouteRules,
    destination_allowed: bool,
    story_direct_allowed: bool,
    plan: ConnectPlan,
) -> (Seq<ActiveCall>, Option<ExchangeError>, Option<(ActiveCall, CallResult)>) {
    match focused {
        None => (calls, None, None),
        Some(line) => match first_with_caller(calls, line) {
            None => (calls, None, None),
            Some(i) => {
                let call = calls[i];
                match precheck_problem(call, cords, destination_allowed, story_direct_allowed) {
                    Some(e) => if e == ExchangeError::WrongDestination {
                        (calls.remove(i), Some(e), Some((call, CallResult::Failed)))
                    } else {
                        (calls, Some(e), None)
                    },
                    None => {
                        let (next, step) = route_step(call, cords, selected, now, r);
                        if step.error == Some(ExchangeError::WrongDestination) {
                            (calls.remove(i), step.error, Some((next, CallResult::Failed)))
                        } else if step.finish {
                            (calls.remove(i), step.error, Some((next, CallResult::Completed)))
                        } else if step.connect {
                            (calls.update(i, put_through(next, plan, now)), step.error, None)
                        } else {
                            (calls.update(i, next), step.error, None)
                        }
                    },
                }
            },
        },
    }
}

/// Routes one input for the focused call, settles a call that leaves in the
/// ledger, and gives the error the input draws with the printer's money line
/// for the call that left.
pub fn route_input(
    calls: &mut Vec<ActiveCall>,
    ledger: &mut Ledger,
    input: &InputState,
    focused: Option<u8>,
    selected: u16,
    now: u64,
    rules: RouteRules,
    destination_allowed: bool,
    story_direct_allowed: bool,
    plan: ConnectPlan,
) -> (result: (Option<ExchangeError>, Option<String>))
    requires
        now + rules.ring_delay <= u64::MAX,
        old(ledger).completed < u32::MAX,
        old(ledger).missed < u32::MAX,
        old(ledger).failed < u32::MAX,
        old(ledger).earned + 5 <= i32::MAX,
        old(ledger).deductions + 4 <= i32::MAX,
        i32::MIN <= old(ledger).money - 4,
        old(ledger).money + 5 <= i32::MAX,
        forall|i: int| 0 <= i < old(calls)@.len()
            ==> old(ledger).conversation_seconds + (#[trigger] old(calls)@[i]).audio_duration_seconds + 1 <= u64::MAX,
    ensures
        ({
            let (after, error, left) = routing_input(old(calls)@, input.cord_topology@, focused, selected, now, rules,
                destination_allowed, story_direct_allowed, plan);
            &&& final(calls)@ == after
            &&& result.0 == error
            &&& match left {
                None => *final(ledger) == *old(ledger) && result.1 is None,
                Some((call, how)) => {
                    &&& *final(ledger) == ledger_after(*old(ledger), how, call.audio_duration_seconds)
                    &&& result.1 matches Some(line) && line@ == money_line(how, call.caller, call.callee,
                        if how == CallResult::Failed { "wrong_destination"@ } else { ""@ }, final(ledger).money)
                },
            }
        }),
{
    let line = match focused {
        None => { return (None, None); },
        Some(line) => line,
    };
    let mut k: usize = 0;
    while k < calls.len()
        invariant
            k <= calls@.len(),
            calls@ == old(calls)@,
            forall|j: int| 0 <= j < k ==> (#[trigger] calls@[j]).caller != line,
        ensures
            k < calls@.len() ==> calls@[k as int].caller == line,
        decreases calls@.len() - k,
    {
        if calls[k].caller == line {
            break;
        }
        k = k + 1;
    }
    proof { lemma_first_with_caller(calls@, line, k as int); }
    if k == calls.len() {
        return (None, None);
    }
    let call = calls[k];
    assert(first_with_caller(old(calls)@, line) == Some(k as int));
    assert(old(calls)@[k as int] == call);
    match routing_precheck(&call, input, destination_allowed, story_direct_allowed) {
        Some(e) => {
            assert(precheck_problem(call, input.cord_topology@, destination_allowed, story_direct_allowed) == Some(e));
            if e == ExchangeError::WrongDestination {
                calls.remove(k);
                let text = settle_call(ledger, &call, CallResult::Failed, "wrong_destination");
                return (Some(e), Some(text));
            }
            return (Some(e), None);
        },
        None => {},
    }
    let mut next = call;
    let step = route_call(&mut next, input, selected, now, rules);
    if step.error == Some(ExchangeError::WrongDestination) {
        calls.remove(k);
        let text = settle_call(ledger, &next, CallResult::Failed, "wrong_destination");
        return (step.error, Some(text));
    }
    if step.finish {
        calls.remove(k);
        let text = settle_call(ledger, &next, CallResult::Completed, "");
        return (step.error, Some(text));
    }
    if step.connect {
        match plan {
            ConnectPlan::Hold => {
                next.phase = CallPhase::Held;
                next.audio_duration_seconds = 0;
            },
            ConnectPlan::Connect { audio_duration_seconds } => {
                next.phase = CallPhase::Connected;
                next.connected_elapsed_seconds = Some(now);
                next.audio_duration_seconds = audio_duration_seconds;
            },
        }
    }
    calls.set(k, next);
    (step.error, None)
}

/// A direct circuit made for the focused call before it has been rung is
/// refused as premature: the calls stay as they were, nothing is settled,
/// unless the cords are the tap bridge to the selected destination.
pub proof fn law_premature_direct_routing_is_refused(
    calls: Seq<ActiveCall>,
    cords: Seq<CordConnection>,
    line: u8,
    selected: u16,
    now: u64,
    r: RouteRules,
    destination_allowed: bool,
    story_direct_allowed: bool,
    plan: ConnectPlan,
    i: int,
    j: int,
)
    requires
        first_with_caller(calls, line) == Some(i),
        0 <= i < calls.len(),
        calls[i].phase == CallPhase::OperatorSession || calls[i].phase == CallPhase::AwaitingRouting,
        r.requires_ring,
        precheck_problem(calls[i], cords, destination_allowed, story_direct_allowed) is None,
        0 <= j < cords.len(),
        caller_direct_cord(cords[j], calls[i].caller),
        !(r.tap_held && tap_circuit(cords, calls[i].caller, calls[i].callee) && selected == calls[i].callee as u16),
    ensures
        routing_input(calls, cords, Some(line), selected, now, r, destination_allowed, story_direct_allowed, plan)
            == (calls, Some(ExchangeError::PrematureDirectRouting), None::<(ActiveCall, CallResult)>),
{
    law_no_direct_circuit_before_ringing(calls[i], cords, selected, now, r, j);
    assert(calls.update(i, calls[i]) =~= calls);
}

/// The next state of the run's random generator when a call is drawn.
pub open spec fn call_draw_state(rng: u64) -> u64 {
    vstd::wrapping::u64_specs::wrapping_add(
        vstd::wrapping::u64_specs::wrapping_mul(rng, 6364136223846793005u64), 1442695040888963407u64)
}

/// A drawn pair of lines can be placed as a new call: two different lines,
/// neither kept out of random calls, and neither already in a call.
pub open spec fn call_acceptable(caller: u8, callee: u8, excluded: Seq<u8>, calls: Seq<ActiveCall>) -> bool {
    &&& caller != callee
    &&& !excluded.contains(caller)
    &&& !excluded.contains(callee)
    &&& forall|i: int| 0 <= i < calls.len() ==> (#[trigger] calls[i]).caller != caller && calls[i].callee != caller
        && calls[i].caller != callee && calls[i].callee != callee
}

/// One draw of a random call among the first `line_limit` lines: the
/// generator's next state, and the drawn caller and callee when they can be
/// placed. Lines in `excluded` belong to the stories.
pub fn draw_call(rng: u64, line_limit: u8, excluded: &Vec<u8>, calls: &Vec<ActiveCall>) -> (drawn: (u64, Option<(u8, u8)>))
    requires
        line_limit > 0,
    ensures
        drawn.0 == call_draw_state(rng),
        drawn.1 == (if call_acceptable((drawn.0 % line_limit as u64) as u8, ((drawn.0 >> 3u64) % line_limit as u64) as u8,
            excluded@, calls@) {
            Some(((drawn.0 % line_limit as u64) as u8, ((drawn.0 >> 3u64) % line_limit as u64) as u8))
        } else {
            None
        }),
{
    let next = rng.wrapping_mul(6364136223846793005).wrapping_add(1442695040888963407);
    let caller = (next % line_limit as u64) as u8;
    let callee = ((next >> 3u64) % line_limit as u64) as u8;
    if acceptable(caller, callee, excluded, calls) { (next, Some((caller, callee))) } else { (next, None) }
}

/// Whether a drawn pair of lines can be placed as a new call.
pub fn acceptable(caller: u8, callee: u8, excluded: &Vec<u8>, calls: &Vec<ActiveCall>) -> (ok: bool)
    ensures
        ok == call_acceptable(caller, callee, excluded@, calls@),
{
    if caller == callee {
        return false;
    }
    let mut e: usize = 0;
    while e < excluded.len()
        invariant
            e <= excluded@.len(),
            forall|k: int| 0 <= k < e ==> (#[trigger] excluded@[k]) != caller && excluded@[k] != callee,
        decreases excluded@.len() - e,
    {
        if excluded[e] == caller || excluded[e] == callee {
            assert(excluded@[e as int] == caller ==> excluded@.contains(caller));
            assert(excluded@[e as int] == callee ==> excluded@.contains(callee));
            return false;
        }
        e = e + 1;
    }
    let mut i: usize = 0;
    while i < calls.len()
        invariant
            i <= calls@.len(),
            caller != callee,
            !excluded@.contains(caller),
            !excluded@.contains(callee),
            forall|k: int| 0 <= k < i ==> (#[trigger] calls@[k]).caller != caller && calls@[k].callee != caller
                && calls@[k].caller != callee && calls@[k].callee != callee,
        decreases calls@.len() - i,
    {
        let c = calls[i];
        if c.caller == caller || c.callee == caller || c.caller == callee || c.callee == callee {
            return false;
        }
        i = i + 1;
    }
    true
}

/// A new waiting call between two lines, placed at `now` with the caller's
/// patience running to `deadline`.
pub fn waiting_call(caller: u8, callee: u8, now: u64, deadline: u64) -> (call: ActiveCall)
    ensures
        call == (ActiveCall {
            caller,
            callee,
            phase: CallPhase::Waiting,
            deadline,
            started_elapsed_seconds: now,
            connected_elapsed_seconds: None,
            ring_started_at: None,
            ring_ready_at: None,
            ring_activated: false,
            disconnected_at: None,
            audio_duration_seconds: 0,
        }),
{
    ActiveCall {
        caller,
        callee,
        phase: CallPhase::Waiting,
        deadline,
        started_elapsed_seconds: now,
        connected_elapsed_seconds: None,
        ring_started_at: None,
        ring_ready_at: None,
        ring_activated: false,
        disconnected_at: None,
        audio_duration_seconds: 0,
    }
}

/// The ledger of a new shift: nothing resolved, counted, earned or deducted
/// yet, with the balance carried over.
pub open spec fn fresh_shift(l: Ledger) -> Ledger {
    Ledger {
        resolved: 0,
        completed: 0,
        missed: 0,
        failed: 0,
        earned: 0,
        deductions: 0,
        conversation_seconds: 0,
        money: l.money,
    }
}

/// Opens the next shift after a settled one: the shift number goes up (at
/// most to 255) and the shift's counts start again, the balance kept.
pub fn open_next_shift(number: u8, ledger: &mut Ledger) -> (next: u8)
    ensures
        next == (if number == u8::MAX { number } else { (number + 1) as u8 }),
        *final(ledger) == fresh_shift(*old(ledger)),
{
    ledger.resolved = 0;
    ledger.completed = 0;
    ledger.missed = 0;
    ledger.failed = 0;
    ledger.earned = 0;
    ledger.deductions = 0;
    ledger.conversation_seconds = 0;
    if number == u8::MAX { number } else { number + 1 }
}

/// Draws random pairs of lines until one can be placed, at most `attempts`
/// times: the generator's state after the draws, and the pair placed.
pub open spec fn draw_until(rng: u64, attempts: nat, line_limit: u8, excluded: Seq<u8>, calls: Seq<ActiveCall>)
    -> (u64, Option<(u8, u8)>)
    decreases attempts,
{
    if attempts == 0 {
        (rng, None)
    } else {
        let next = call_draw_state(rng);
        let caller = (next % line_limit as u64) as u8;
        let callee = ((next >> 3u64) % line_limit as u64) as u8;
        if call_acceptable(caller, callee, excluded, calls) {
            (next, Some((caller, callee)))
        } else {
            draw_until(next, (attempts - 1) as nat, line_limit, excluded, calls)
        }
    }
}

/// Draws a placeable pair of lines, trying at most `attempts` times.
pub fn next_call(rng: u64, attempts: u32, line_limit: u8, excluded: &Vec<u8>, calls: &Vec<ActiveCall>)
    -> (drawn: (u64, Option<(u8, u8)>))
    requires
        line_limit > 0,
    ensures
        drawn == draw_until(rng, attempts as nat, line_limit, excluded@, calls@),
{
    let mut state = rng;
    let mut left = attempts;
    while left > 0
        invariant
            line_limit > 0,
            draw_until(rng, attempts as nat, line_limit, excluded@, calls@)
                == draw_until(state, left as nat, line_limit, excluded@, calls@),
        decreases left,
    {
        let (next, drawn) = draw_call(state, line_limit, excluded, calls);
        state = next;
        match drawn {
            Some(pair) => { return (state, Some(pair)); },
            None => {},
        }
        left = left - 1;
    }
    (state, None)
}

/// The configuration calls are placed by: the lines they are drawn among,
/// the tries a draw gets, the bounds of a caller's patience in seconds, and
/// the seconds between arrivals.
#[derive(Debug, Clone, Copy, PartialEq, Eq, Structural)]
pub struct FillConfig {
    pub line_limit: u8,
    pub attempts: u32,
    pub patience_min: u64,
    pub patience_max: u64,
    pub arrival_interval: u64,
}

/// The new waiting call of a placed pair.
pub open spec fn placed_call(caller: u8, callee: u8, now: u64, patience: u64) -> ActiveCall {
    ActiveCall {
        caller,
        callee,
        phase: CallPhase::Waiting,
        deadline: (now + patience) as u64,
        started_elapsed_seconds: now,
        connected_elapsed_seconds: None,
        ring_started_at: None,
        ring_ready_at: None,
        ring_activated: false,
        disconnected_at: None,
        audio_duration_seconds: 0,
    }
}

/// The calls the exchange places in one input while fewer than `target` are
/// in play and the next arrival is due: each new call comes from a draw of at
/// most `attempts` tries (lines in `excluded` belong to the stories), gets a
/// patience drawn between the configured bounds, and puts the next arrival
/// one interval later. The result is the calls, the generator's state and the
/// time the next call may arrive.
#[verifier::opaque]
pub open spec fn fill(
    calls: Seq<ActiveCall>,
    rng: u64,
    next_arrival: u64,
    now: u64,
    target: nat,
    excluded: Seq<u8>,
    c: FillConfig,
) -> (Seq<ActiveCall>, u64, u64)
    decreases target - calls.len(),
{
    if calls.len() >= target || now < next_arrival {
        (calls, rng, next_arrival)
    } else {
        let (state, drawn) = draw_until(rng, c.attempts as nat, c.line_limit, excluded, calls);
        match drawn {
            None => (calls, state, next_arrival),
            Some((caller, callee)) => {
                let patience_rng = patience_state(state);
                let patience = (c.patience_min + patience_rng % ((c.patience_max - c.patience_min + 1) as u64)) as u64;
                let arrival = if now + c.arrival_interval > u64::MAX { u64::MAX } else { (now + c.arrival_interval) as u64 };
                fill(calls.push(placed_call(caller, callee, now, patience)), patience_rng, arrival, now, target, excluded, c)
            },
        }
    }
}

/// Places the calls due in one input and gives the generator's state and
/// the time the next call may arrive.
pub fn refill_calls(
    calls: &mut Vec<ActiveCall>,
    rng: u64,
    next_arrival: u64,
    now: u64,
    target: usize,
    excluded: &Vec<u8>,
    config: FillConfig,
) -> (after: (u64, u64))
    requires
        config.line_limit > 0,
        config.patience_min <= config.patience_max,
        config.patience_max - config.patience_min < u64::MAX,
        now + config.patience_max <= u64::MAX,
    ensures
        (final(calls)@, after.0, after.1) == fill(old(calls)@, rng, next_arrival, now, target as nat, excluded@, config),
{
    let mut state = rng;
    let mut arrival = next_arrival;
    while calls.len() < target && now >= arrival
        invariant
            config.line_limit > 0,
            config.patience_min <= config.patience_max,
            config.patience_max - config.patience_min < u64::MAX,
            now + config.patience_max <= u64::MAX,
            fill(old(calls)@, rng, next_arrival, now, target as nat, excluded@, config)
                == fill(calls@, state, arrival, now, target as nat, excluded@, config),
        decreases target - calls@.len(),
    {
        proof { reveal(fill); }
        let (drawn_state, drawn) = next_call(state, config.attempts, config.line_limit, excluded, calls);
        match drawn {
            None => {
                state = drawn_state;
                return (state, arrival);
            },
            Some((caller, callee)) => {
                let (patience_rng, patience) = random_patience(drawn_state, config.patience_min, config.patience_max);
                calls.push(waiting_call(caller, callee, now, now + patience));
                state = patience_rng;
                arrival = now.saturating_add(config.arrival_interval);
            },
        }
    }
    proof { reveal(fill); }
    (state, arrival)
}

/// The exchange's state between inputs: the calls in play, the shift's
/// ledger, the random generator, the state revision and the last accepted
/// input sequence, the line whose ring has taken, the shift's number, phase,
/// start and next arrival, whether the run has ended, the line in focus, and
/// the printer lines not yet handed out.
pub struct Exchange {
    pub calls: Vec<ActiveCall>,
    pub ledger: Ledger,
    pub rng: u64,
    pub revision: u64,
    pub sequence: Option<u64>,
    pub ring_active_line: i16,
    pub shift_number: u8,
    pub shift_phase: ShiftPhase,
    pub shift_started: u64,
    pub next_arrival: u64,
    pub ended: bool,
    pub focused: Option<u8>,
    pub printer: Vec<String>,
}

/// The exchange's state as values.
pub struct ExchangeModel {
    pub calls: Seq<ActiveCall>,
    pub ledger: Ledger,
    pub rng: u64,
    pub revision: u64,
    pub sequence: Option<u64>,
    pub ring_active_line: i16,
    pub shift_number: u8,
    pub shift_phase: ShiftPhase,
    pub shift_started: u64,
    pub next_arrival: u64,
    pub ended: bool,
    pub focused: Option<u8>,
    pub printer: Seq<Seq<char>>,
}

impl Exchange {
    pub open spec fn model(&self) -> ExchangeModel {
        ExchangeModel {
            calls: self.calls@,
            ledger: self.ledger,
            rng: self.rng,
            revision: self.revision,
            sequence: self.sequence,
            ring_active_line: self.ring_active_line,
            shift_number: self.shift_number,
            shift_phase: self.shift_phase,
            shift_started: self.shift_started,
            next_arrival: self.next_arrival,
            ended: self.ended,
            focused: self.focused,
            printer: self.printer@.map_values(|t: String| t@),
        }
    }
}

/// The rules of a run: how calls are placed, how many are kept in play, the
/// shift's length and the grace a dropped ring is kept for, in seconds.
#[derive(Debug, Clone, Copy, PartialEq, Eq, Structural)]
pub struct ExchangeConfig {
    pub fill: FillConfig,
    pub call_target: usize,
    pub shift_duration: u64,
    pub ring_grace_seconds: u64,
}

/// Opening a shift when calls are placed: a settled shift gives way to the
/// next one with fresh counts; a shift not yet active starts now; then the
/// due calls are placed and the shift is active.
pub open spec fn open_and_fill(m: ExchangeModel, now: u64, excluded: Seq<u8>, c: ExchangeConfig) -> ExchangeModel {
    let settled = m.shift_phase == ShiftPhase::Settled;
    let number = if settled { if m.shift_number == u8::MAX { m.shift_number } else { (m.shift_number + 1) as u8 } } else { m.shift_number };
    let ledger = if settled { fresh_shift(m.ledger) } else { m.ledger };
    let starting = m.shift_phase != ShiftPhase::Active;
    let started = if starting { now } else { m.shift_started };
    let arrival = if starting { now } else { m.next_arrival };
    let (calls, rng, next_arrival) = if number <= 3 {
        fill(m.calls, m.rng, arrival, now, c.call_target as nat, excluded, c.fill)
    } else {
        (m.calls, m.rng, arrival)
    };
    ExchangeModel {
        calls,
        rng,
        next_arrival,
        shift_number: number,
        ledger,
        shift_started: started,
        shift_phase: ShiftPhase::Active,
        ..m
    }
}

/// The ledger and printer after the calls in `gone` were missed, in order.
pub open spec fn missed_all(l: Ledger, printer: Seq<Seq<char>>, gone: Seq<ActiveCall>) -> (Ledger, Seq<Seq<char>>)
    decreases gone.len(),
{
    if gone.len() == 0 {
        (l, printer)
    } else {
        let (l1, p1) = missed_all(l, printer, gone.drop_last());
        let call = gone.last();
        let l2 = ledger_after(l1, CallResult::Missed, call.audio_duration_seconds);
        (l2, p1.push(money_line(CallResult::Missed, call.caller, call.callee, ""@, l2.money)))
    }
}

/// Expiring the waiting calls whose patience has run out: each is missed.
pub open spec fn expire_step(m: ExchangeModel, now: u64) -> ExchangeModel {
    let gone = calls_where(m.calls, now, false);
    let (ledger, printer) = missed_all(m.ledger, m.printer, gone);
    ExchangeModel { calls: calls_where(m.calls, now, true), ledger, printer, ..m }
}

/// Settling the shift when it is over: the calls still in play end with it,
/// the summary is printed (with the retirement line after the third shift,
/// which ends the run), and the shift is settled.
pub open spec fn settle_step(m: ExchangeModel, now: u64, c: ExchangeConfig) -> ExchangeModel {
    if shift_over(m.shift_phase, now, m.shift_started, c.shift_duration, m.calls) {
        let printed = m.printer.push(shift_summary_text(m.shift_number, m.ledger));
        let last = m.shift_number >= 3;
        ExchangeModel {
            calls: Seq::empty(),
            printer: if last { printed.push(retirement_text(m.ledger)) } else { printed },
            ended: m.ended || last,
            shift_phase: ShiftPhase::Settled,
            ..m
        }
    } else {
        m
    }
}

/// The line in focus: the one on the operator's jack, else the one in focus
/// before, else the caller of the first connected call.
pub open spec fn focus_of(cords: Seq<CordConnection>, before: Option<u8>, calls: Seq<ActiveCall>) -> Option<u8> {
    match operator_line_of(cords) {
        Some(line) => Some(line),
        None => match before {
            Some(line) => Some(line),
            None => match first_connected(calls) {
                Some(i) => Some(calls[i].caller),
                None => None,
            },
        },
    }
}

/// The position of the first connected call.
pub open spec fn first_connected(calls: Seq<ActiveCall>) -> Option<int>
    decreases calls.len(),
{
    if calls.len() == 0 {
        None
    } else {
        match first_connected(calls.drop_last()) {
            Some(i) => Some(i),
            None => if calls.last().phase == CallPhase::Connected { Some(calls.len() - 1) } else { None },
        }
    }
}

/// The routing rules of an ordinary call this input: the ring switch and the
/// ring that has taken, the delay drawn from the generator, the shift's ring
/// grace, ringing required, and the Tap control.
pub open spec fn ordinary_rules(ring_switch: i16, ring_active_line: i16, rng: u64, c: ExchangeConfig, tap_held: bool) -> RouteRules {
    RouteRules {
        ring_switch,
        ring_active_line,
        ring_delay: (1 + rng % 3) as u64,
        ring_grace_seconds: c.ring_grace_seconds,
        requires_ring: true,
        special_destination: false,
        tap_held,
    }
}

/// Routing the call in focus; the call that leaves is settled and its money
/// line printed.
pub open spec fn route_step_of(m: ExchangeModel, cords: Seq<CordConnection>, selected: u16, now: u64,
    ring_switch: i16, tap_held: bool, plan: ConnectPlan, c: ExchangeConfig) -> (ExchangeModel, Option<ExchangeError>)
{
    let focused = focus_of(cords, m.focused, m.calls);
    let r = ordinary_rules(ring_switch, m.ring_active_line, m.rng, c, tap_held);
    let destination_allowed = match focused {
        Some(line) => match first_with_caller(m.calls, line) {
            Some(i) => selected == m.calls[i].callee as u16,
            None => true,
        },
        None => true,
    };
    let (calls, error, left) = routing_input(m.calls, cords, focused, selected, now, r, destination_allowed, false, plan);
    let m2 = ExchangeModel { calls, focused, ..m };
    match left {
        None => (m2, error),
        Some((call, how)) => {
            let l = ledger_after(m.ledger, how, call.audio_duration_seconds);
            let reason = if how == CallResult::Failed { "wrong_destination"@ } else { ""@ };
            (ExchangeModel { ledger: l, printer: m.printer.push(money_line(how, call.caller, call.callee, reason, l.money)), ..m2 },
                error)
        },
    }
}

/// One input to the exchange: the message is checked first and a refused one
/// changes nothing; otherwise the sequence number is taken, a shift about to
/// start is opened and filled, expired calls are missed, due calls are
/// placed, the ring generator is gated, a finished shift is settled, the call
/// in focus is routed, due calls are placed again (opening the next shift
/// after a settled one), and the revision goes up. The result is the new state
/// and the error the input draws.
pub open spec fn input_step(m: ExchangeModel, message: InputMessage, now: u64, ring_switch: i16, tap_held: bool,
    excluded: Seq<u8>, plan: ConnectPlan, c: ExchangeConfig) -> (ExchangeModel, Option<ExchangeError>)
{
    match input_problem(message, m.sequence, m.revision) {
        Some(e) => (m, Some(e)),
        None => {
            let cords = message.input.cord_topology@;
            let m1 = ExchangeModel { sequence: Some(message.input_sequence), ..m };
            let m2 = if (m1.shift_phase == ShiftPhase::Ready && m1.calls.len() == 0)
                || (m1.shift_phase == ShiftPhase::Settled && m1.shift_number < 3 && !m1.ended) {
                open_and_fill(m1, now, excluded, c)
            } else {
                m1
            };
            let m3 = open_and_fill(expire_step(m2, now), now, excluded, c);
            let (calls4, ring4) = ring_activation(m3.calls, cords, ring_switch, m3.ring_active_line, now, (1 + m3.rng % 3) as u64);
            let m4 = ExchangeModel { calls: calls4, ring_active_line: ring4, ..m3 };
            let m5 = settle_step(m4, now, c);
            let (m6, error) = route_step_of(m5, cords, dialed(message.input.directory_digits) as u16, now, ring_switch,
                tap_held, plan, c);
            let m7 = open_and_fill(m6, now, excluded, c);
            (ExchangeModel { revision: (if m7.revision == u64::MAX { 0 } else { m7.revision + 1 }) as u64, ..m7 }, error)
        },
    }
}

/// The ledger can take `n` more calls leaving without overflowing.
pub open spec fn ledger_room(l: Ledger, n: int) -> bool {
    &&& 5 * n <= i32::MAX
    &&& l.completed + n < u32::MAX
    &&& l.missed + n < u32::MAX
    &&& l.failed + n < u32::MAX
    &&& l.earned + 5 * n <= i32::MAX
    &&& l.deductions + 4 * n <= i32::MAX
    &&& i32::MIN <= l.money - 4 * n
    &&& l.money + 5 * n <= i32::MAX
}

proof fn lemma_missed_all(l: Ledger, printer: Seq<Seq<char>>, gone: Seq<ActiveCall>, n: int)
    requires
        ledger_room(l, n),
        gone.len() <= n,
    ensures
        ({
            let (l2, p2) = missed_all(l, printer, gone);
            &&& l2.missed == l.missed + gone.len()
            &&& l2.deductions == l.deductions + 4 * gone.len()
            &&& l2.money == l.money - 4 * gone.len()
            &&& l2.completed == l.completed && l2.failed == l.failed && l2.earned == l.earned
            &&& l2.conversation_seconds == l.conversation_seconds
            &&& ledger_room(l2, n - gone.len())
            &&& p2.len() == printer.len() + gone.len()
        }),
    decreases gone.len(),
{
    if gone.len() > 0 {
        lemma_missed_all(l, printer, gone.drop_last(), n);
    }
}

proof fn lemma_calls_where_len(calls: Seq<ActiveCall>, now: u64, keep: bool)
    ensures
        calls_where(calls, now, keep).len() <= calls.len(),
    decreases calls.len(),
{
    if calls.len() > 0 {
        lemma_calls_where_len(calls.drop_last(), now, keep);
    }
}

proof fn lemma_fill_len(calls: Seq<ActiveCall>, rng: u64, next_arrival: u64, now: u64, target: nat, excluded: Seq<u8>, c: FillConfig)
    ensures
        fill(calls, rng, next_arrival, now, target, excluded, c).0.len() <= if calls.len() > target { calls.len() } else { target },
        forall|i: int| 0 <= i < fill(calls, rng, next_arrival, now, target, excluded, c).0.len()
            ==> (#[trigger] fill(calls, rng, next_arrival, now, target, excluded, c).0[i]).audio_duration_seconds == 0
                || (i < calls.len() && fill(calls, rng, next_arrival, now, target, excluded, c).0[i] == calls[i]),
    decreases target - calls.len(),
{
    reveal(fill);
    if !(calls.len() >= target || now < next_arrival) {
        let (state, drawn) = draw_until(rng, c.attempts as nat, c.line_limit, excluded, calls);
        match drawn {
            None => {},
            Some((caller, callee)) => {
                let patience_rng = patience_state(state);
                let patience = (c.patience_min + patience_rng % ((c.patience_max - c.patience_min + 1) as u64)) as u64;
                let arrival = if now + c.arrival_interval > u64::MAX { u64::MAX } else { (now + c.arrival_interval) as u64 };
                let placed = calls.push(placed_call(caller, callee, now, patience));
                lemma_fill_len(placed, patience_rng, arrival, now, target, excluded, c);
                let out = fill(placed, patience_rng, arrival, now, target, excluded, c).0;
                assert forall|i: int| 0 <= i < out.len() implies (#[trigger] out[i]).audio_duration_seconds == 0
                    || (i < calls.len() && out[i] == calls[i]) by {
                    if i < placed.len() && out[i] == placed[i] && i < calls.len() {
                        assert(placed[i] == calls[i]);
                    }
                }
            },
        }
    }
}

impl Exchange {
    fn open_and_fill(&mut self, now: u64, excluded: &Vec<u8>, c: ExchangeConfig)
        requires
            c.fill.line_limit > 0,
            c.fill.patience_min <= c.fill.patience_max,
            c.fill.patience_max - c.fill.patience_min < u64::MAX,
            now + c.fill.patience_max <= u64::MAX,
        ensures
            final(self).model() == open_and_fill(old(self).model(), now, excluded@, c),
    {
        let settled = self.shift_phase == ShiftPhase::Settled;
        if settled {
            self.shift_number = open_next_shift(self.shift_number, &mut self.ledger);
        }
        if self.shift_phase != ShiftPhase::Active {
            self.shift_started = now;
            self.next_arrival = now;
        }
        if self.shift_number <= 3 {
            let (rng, arrival) = refill_calls(&mut self.calls, self.rng, self.next_arrival, now, c.call_target, excluded, c.fill);
            self.rng = rng;
            self.next_arrival = arrival;
        }
        self.shift_phase = ShiftPhase::Active;
        assert(self.model().printer =~= old(self).model().printer);
    }

    fn expire(&mut self, now: u64, room: Ghost<int>)
        requires
            ledger_room(old(self).ledger, room@),
            old(self).calls@.len() <= room@,
        ensures
            final(self).model() == expire_step(old(self).model(), now),
            ledger_room(final(self).ledger, room@ - old(self).calls@.len()),
            final(self).ledger.conversation_seconds == old(self).ledger.conversation_seconds,
    {
        let ghost start = self.model();
        let gone = expire_calls(&mut self.calls, now);
        proof {
            lemma_calls_where_len(start.calls, now, false);
            lemma_missed_all(start.ledger, start.printer, gone@, room@);
        }
        let mut i: usize = 0;
        while i < gone.len()
            invariant
                i <= gone@.len(),
                gone@.len() <= room@,
                ledger_room(start.ledger, room@),
                (self.ledger, self.printer@.map_values(|t: String| t@)) == missed_all(start.ledger, start.printer, gone@.take(i as int)),
                self.calls@ == calls_where(start.calls, now, true),
                self.rng == start.rng, self.revision == start.revision, self.sequence == start.sequence,
                self.ring_active_line == start.ring_active_line, self.shift_number == start.shift_number,
                self.shift_phase == start.shift_phase, self.shift_started == start.shift_started,
                self.next_arrival == start.next_arrival, self.ended == start.ended, self.focused == start.focused,
            decreases gone@.len() - i,
        {
            proof {
                lemma_missed_all(start.ledger, start.printer, gone@.take(i as int), room@);
                assert(gone@.take(i + 1).drop_last() =~= gone@.take(i as int));
            }
            let call = gone[i];
            let line = settle_call(&mut self.ledger, &call, CallResult::Missed, "");
            let ghost before = self.printer@.map_values(|t: String| t@);
            self.printer.push(line);
            assert(self.printer@.map_values(|t: String| t@) =~= before.push(line@));
            i = i + 1;
        }
        assert(gone@.take(gone@.len() as int) =~= gone@);
        proof { lemma_missed_all(start.ledger, start.printer, gone@, room@); }
    }
}

/// Every call in play can complete without the conversation seconds
/// overflowing.
pub open spec fn audio_room(l: Ledger, calls: Seq<ActiveCall>) -> bool {
    &&& l.conversation_seconds + 1 <= u64::MAX
    &&& forall|i: int| 0 <= i < calls.len() ==> l.conversation_seconds + (#[trigger] calls[i]).audio_duration_seconds + 1 <= u64::MAX
}

proof fn lemma_calls_where_from(calls: Seq<ActiveCall>, now: u64, keep: bool)
    ensures
        forall|j: int| 0 <= j < calls_where(calls, now, keep).len()
            ==> exists|i: int| 0 <= i < calls.len() && calls[i] == #[trigger] calls_where(calls, now, keep)[j],
    decreases calls.len(),
{
    if calls.len() > 0 {
        lemma_calls_where_from(calls.drop_last(), now, keep);
        let rest = calls_where(calls.drop_last(), now, keep);
        assert forall|j: int| 0 <= j < calls_where(calls, now, keep).len()
            implies exists|i: int| 0 <= i < calls.len() && calls[i] == #[trigger] calls_where(calls, now, keep)[j] by {
            if j < rest.len() {
                let i = choose|i: int| 0 <= i < calls.drop_last().len() && calls.drop_last()[i] == #[trigger] rest[j];
                assert(calls[i] == calls_where(calls, now, keep)[j]);
            } else {
                assert(calls[calls.len() - 1] == calls_where(calls, now, keep)[j]);
            }
        }
    }
}

proof fn lemma_audio_room_where(l: Ledger, calls: Seq<ActiveCall>, now: u64, keep: bool)
    requires
        audio_room(l, calls),
    ensures
        audio_room(l, calls_where(calls, now, keep)),
{
    lemma_calls_where_from(calls, now, keep);
    let out = calls_where(calls, now, keep);
    assert forall|j: int| 0 <= j < out.len() implies l.conversation_seconds + (#[trigger] out[j]).audio_duration_seconds + 1 <= u64::MAX by {
        let i = choose|i: int| 0 <= i < calls.len() && calls[i] == #[trigger] calls_where(calls, now, keep)[j];
        assert(l.conversation_seconds + calls[i].audio_duration_seconds + 1 <= u64::MAX);
    }
}

proof fn lemma_audio_room_fill(l: Ledger, calls: Seq<ActiveCall>, rng: u64, next_arrival: u64, now: u64, target: nat,
    excluded: Seq<u8>, c: FillConfig)
    requires
        audio_room(l, calls),
    ensures
        audio_room(l, fill(calls, rng, next_arrival, now, target, excluded, c).0),
{
    lemma_fill_len(calls, rng, next_arrival, now, target, excluded, c);
    let out = fill(calls, rng, next_arrival, now, target, excluded, c).0;
    assert forall|i: int| 0 <= i < out.len() implies l.conversation_seconds + (#[trigger] out[i]).audio_duration_seconds + 1 <= u64::MAX by {
        if out[i].audio_duration_seconds != 0 {
            assert(l.conversation_seconds + calls[i].audio_duration_seconds + 1 <= u64::MAX);
        }
    }
}

/// The position of the first call whose caller is on `line`.
pub fn caller_position(calls: &Vec<ActiveCall>, line: u8) -> (found: Option<usize>)
    ensures
        match found { Some(k) => first_with_caller(calls@, line) == Some(k as int), None => first_with_caller(calls@, line) is None },
        found matches Some(k) ==> k < calls@.len(),
{
    let mut k: usize = 0;
    while k < calls.len()
        invariant
            k <= calls@.len(),
            forall|j: int| 0 <= j < k ==> (#[trigger] calls@[j]).caller != line,
        decreases calls@.len() - k,
    {
        if calls[k].caller == line {
            proof { lemma_first_with_caller(calls@, line, k as int); }
            return Some(k);
        }
        k = k + 1;
    }
    proof { lemma_first_with_caller(calls@, line, k as int); }
    None
}

proof fn lemma_first_connected(calls: Seq<ActiveCall>, k: int)
    requires
        0 <= k <= calls.len(),
        forall|j: int| 0 <= j < k ==> (#[trigger] calls[j]).phase != CallPhase::Connected,
    ensures
        k == calls.len() ==> first_connected(calls) is None,
        k < calls.len() && calls[k].phase == CallPhase::Connected ==> first_connected(calls) == Some(k),
    decreases calls.len(),
{
    if calls.len() > 0 {
        if k < calls.len() {
            lemma_first_connected(calls.drop_last(), k);
        } else {
            lemma_first_connected(calls.drop_last(), k - 1);
        }
    }
}

/// The line in focus for an input.
pub fn focus(cords: &Vec<CordConnection>, before: Option<u8>, calls: &Vec<ActiveCall>) -> (line: Option<u8>)
    ensures
        line == focus_of(cords@, before, calls@),
{
    match operator_line(cords.as_slice()) {
        Some(line) => { return Some(line); },
        None => {},
    }
    match before {
        Some(line) => { return Some(line); },
        None => {},
    }
    let mut k: usize = 0;
    while k < calls.len()
        invariant
            k <= calls@.len(),
            operator_line_of(cords@) is None,
            before is None,
            forall|j: int| 0 <= j < k ==> (#[trigger] calls@[j]).phase != CallPhase::Connected,
        decreases calls@.len() - k,
    {
        if calls[k].phase == CallPhase::Connected {
            proof { lemma_first_connected(calls@, k as int); }
            return Some(calls[k].caller);
        }
        k = k + 1;
    }
    proof { lemma_first_connected(calls@, k as int); }
    None
}

#[verifier::rlimit(60)]
#[verifier::spinoff_prover]
proof fn lemma_open_and_fill_props(m: ExchangeModel, now: u64, excluded: Seq<u8>, c: ExchangeConfig, room: int)
    requires
        audio_room(m.ledger, m.calls),
        ledger_room(m.ledger, room),
    ensures
        audio_room(open_and_fill(m, now, excluded, c).ledger, open_and_fill(m, now, excluded, c).calls),
        ledger_room(open_and_fill(m, now, excluded, c).ledger, room),
        open_and_fill(m, now, excluded, c).calls.len() <= if m.calls.len() > c.call_target { m.calls.len() as int } else { c.call_target as int },
{
    let settled = m.shift_phase == ShiftPhase::Settled;
    let number = if settled { if m.shift_number == u8::MAX { m.shift_number } else { (m.shift_number + 1) as u8 } } else { m.shift_number };
    let ledger = if settled { fresh_shift(m.ledger) } else { m.ledger };
    let starting = m.shift_phase != ShiftPhase::Active;
    let arrival = if starting { now } else { m.next_arrival };
    let r = open_and_fill(m, now, excluded, c);
    assert(r.ledger == ledger);
    lemma_audio_fresh(m.ledger, ledger, m.calls);
    if number <= 3 {
        let f = fill(m.calls, m.rng, arrival, now, c.call_target as nat, excluded, c.fill);
        assert(r.calls == f.0);
        lemma_fill_len(m.calls, m.rng, arrival, now, c.call_target as nat, excluded, c.fill);
        lemma_audio_room_fill(ledger, m.calls, m.rng, arrival, now, c.call_target as nat, excluded, c.fill);
    } else {
        assert(r.calls == m.calls);
    }
}

proof fn lemma_audio_fresh(l: Ledger, l2: Ledger, calls: Seq<ActiveCall>)
    requires
        audio_room(l, calls),
        l2.conversation_seconds <= l.conversation_seconds,
    ensures
        audio_room(l2, calls),
{
    assert forall|i: int| 0 <= i < calls.len() implies l2.conversation_seconds + (#[trigger] calls[i]).audio_duration_seconds + 1 <= u64::MAX by {
        assert(l.conversation_seconds + calls[i].audio_duration_seconds + 1 <= u64::MAX);
    }
}

proof fn lemma_ring_audio(l: Ledger, calls: Seq<ActiveCall>, cords: Seq<CordConnection>, ring_switch: i16, active: i16,
    now: u64, delay: u64)
    requires
        audio_room(l, calls),
    ensures
        audio_room(l, ring_activation(calls, cords, ring_switch, active, now, delay).0),
        ring_activation(calls, cords, ring_switch, active, now, delay).0.len() == calls.len(),
{
    let physical = ring_line_from(cords, 0);
    if !(physical < 0 || ring_switch != physical) {
        match first_ringing(calls, physical) {
            None => {},
            Some(k) => {
                lemma_first_ringing_bound(calls, physical);
                let call = ring_taken(calls[k], now, delay).0;
                assert(call.audio_duration_seconds == calls[k].audio_duration_seconds);
                let out = calls.update(k, call);
                assert forall|i: int| 0 <= i < out.len() implies l.conversation_seconds + (#[trigger] out[i]).audio_duration_seconds + 1 <= u64::MAX by {
                    assert(l.conversation_seconds + calls[i].audio_duration_seconds + 1 <= u64::MAX);
                }
            },
        }
    }
}

proof fn lemma_first_ringing_bound(calls: Seq<ActiveCall>, line: i16)
    ensures
        first_ringing(calls, line) matches Some(k) ==> 0 <= k < calls.len(),
    decreases calls.len(),
{
    if calls.len() > 0 {
        lemma_first_ringing_bound(calls.drop_last(), line);
    }
}

impl Exchange {
    fn settle(&mut self, now: u64, c: ExchangeConfig)
        ensures
            final(self).model() == settle_step(old(self).model(), now, c),
            final(self).ledger == old(self).ledger,
    {
        if shift_should_settle(self.shift_phase, now, self.shift_started, c.shift_duration, &self.calls) {
            let ghost before = self.printer@.map_values(|t: String| t@);
            let summary = shift_summary(self.shift_number, &self.ledger);
            self.printer.push(summary);
            assert(self.printer@.map_values(|t: String| t@) =~= before.push(shift_summary_text(self.shift_number, self.ledger)));
            if self.shift_number >= 3 {
                let ghost mid = self.printer@.map_values(|t: String| t@);
                let line = retirement(&self.ledger);
                self.printer.push(line);
                assert(self.printer@.map_values(|t: String| t@) =~= mid.push(retirement_text(self.ledger)));
                self.ended = true;
            }
            self.calls = Vec::new();
            self.shift_phase = ShiftPhase::Settled;
            assert(self.model().calls =~= Seq::<ActiveCall>::empty());
        }
    }

    fn route(&mut self, cords_input: &InputState, selected: u16, now: u64, ring_switch: i16, tap_held: bool,
        plan: ConnectPlan, c: ExchangeConfig)
        -> (error: Option<ExchangeError>)
        requires
            now + 3 <= u64::MAX,
            ledger_room(old(self).ledger, 1),
            audio_room(old(self).ledger, old(self).calls@),
        ensures
            (final(self).model(), error) == route_step_of(old(self).model(), cords_input.cord_topology@, selected, now,
                ring_switch, tap_held, plan, c),
    {
        let focused = focus(&cords_input.cord_topology, self.focused, &self.calls);
        let destination_allowed = match focused {
            Some(line) => match caller_position(&self.calls, line) {
                Some(k) => selected == self.calls[k].callee as u16,
                None => true,
            },
            None => true,
        };
        let rules = RouteRules {
            ring_switch,
            ring_active_line: self.ring_active_line,
            ring_delay: 1 + self.rng % 3,
            ring_grace_seconds: c.ring_grace_seconds,
            requires_ring: true,
            special_destination: false,
            tap_held,
        };
        let ghost before = self.printer@.map_values(|t: String| t@);
        let (error, line) = route_input(&mut self.calls, &mut self.ledger, cords_input, focused, selected, now, rules,
            destination_allowed, false, plan);
        self.focused = focused;
        match line {
            Some(text) => {
                let ghost t = text@;
                self.printer.push(text);
                assert(self.printer@.map_values(|x: String| x@) =~= before.push(t));
            },
            None => {},
        }
        error
    }

    /// Applies one input message at second `now` of the run. Beside the
    /// message the runtime hands in the ring switch's line, whether the Tap
    /// control is held, the lines kept for the stories, how a routed call is
    /// put through, and the run's rules.
    #[verifier::rlimit(60)]
    #[verifier::spinoff_prover]
    pub fn apply_input(&mut self, message: &InputMessage, now: u64, ring_switch: i16, tap_held: bool,
        excluded: &Vec<u8>, plan: ConnectPlan, c: ExchangeConfig) -> (error: Option<ExchangeError>)
        requires
            c.fill.line_limit > 0,
            c.fill.patience_min <= c.fill.patience_max,
            c.fill.patience_max - c.fill.patience_min < u64::MAX,
            now + c.fill.patience_max <= u64::MAX,
            now + 3 <= u64::MAX,
            dialed(message.input.directory_digits) <= u16::MAX,
            ledger_room(old(self).ledger, old(self).calls@.len() + c.call_target + 1),
            audio_room(old(self).ledger, old(self).calls@),
        ensures
            (final(self).model(), error) == input_step(old(self).model(), *message, now, ring_switch, tap_held,
                excluded@, plan, c),
    {
        let ghost m0 = self.model();
        match check_input(message, self.sequence, self.revision) {
            Some(e) => { return Some(e); },
            None => {},
        }
        let ghost cords = message.input.cord_topology@;
        self.sequence = Some(message.input_sequence);
        let ghost m1 = self.model();
        assert(m1 == ExchangeModel { sequence: Some(message.input_sequence), ..m0 });
        let ghost room: int = m0.calls.len() + c.call_target + 1;
        if (self.shift_phase == ShiftPhase::Ready && self.calls.len() == 0)
            || (self.shift_phase == ShiftPhase::Settled && self.shift_number < 3 && !self.ended) {
            proof { lemma_open_and_fill_props(m1, now, excluded@, c, room); }
            self.open_and_fill(now, excluded, c);
        }
        let ghost m2 = self.model();
        assert(audio_room(m2.ledger, m2.calls) && ledger_room(m2.ledger, room) && m2.calls.len() <= room - 1);
        let selected = directory_id(message.input.directory_digits);
        self.expire(now, Ghost(room));
        proof { lemma_audio_room_where(m2.ledger, m2.calls, now, true); }
        let ghost m3a = self.model();
        assert(m3a == expire_step(m2, now));
        assert(ledger_room(m3a.ledger, 1));
        proof { lemma_open_and_fill_props(m3a, now, excluded@, c, 1); }
        self.open_and_fill(now, excluded, c);
        let ghost m3 = self.model();
        let delay = 1 + self.rng % 3;
        let active = update_ring_activation(&mut self.calls, &message.input, ring_switch, self.ring_active_line, now, delay);
        self.ring_active_line = active;
        let ghost m4 = self.model();
        proof { lemma_ring_audio(m3.ledger, m3.calls, cords, ring_switch, m3.ring_active_line, now, delay); }
        assert(m4 == ExchangeModel { calls: ring_activation(m3.calls, cords, ring_switch, m3.ring_active_line, now, delay).0,
            ring_active_line: ring_activation(m3.calls, cords, ring_switch, m3.ring_active_line, now, delay).1, ..m3 });
        self.settle(now, c);
        let ghost m5 = self.model();
        assert(audio_room(m5.ledger, m5.calls));
        let error = self.route(&message.input, selected, now, ring_switch, tap_held, plan, c);
        let ghost m6 = self.model();
        self.open_and_fill(now, excluded, c);
        self.revision = if self.revision == u64::MAX { 0 } else { self.revision + 1 };
        error
    }
}

/// A refused input message changes nothing and is answered with the first
/// check it fails; an accepted one takes its sequence number and moves the
/// revision on by one.
pub proof fn law_refused_inputs_change_nothing(m: ExchangeModel, message: InputMessage, now: u64, ring_switch: i16,
    tap_held: bool, excluded: Seq<u8>, plan: ConnectPlan, c: ExchangeConfig)
    ensures
        input_problem(message, m.sequence, m.revision) matches Some(e)
            ==> input_step(m, message, now, ring_switch, tap_held, excluded, plan, c) == (m, Some(e)),
        input_problem(message, m.sequence, m.revision) is None ==> ({
            let after = input_step(m, message, now, ring_switch, tap_held, excluded, plan, c).0;
            &&& after.sequence == Some(message.input_sequence)
            &&& after.revision == (if m.revision == u64::MAX { 0 } else { m.revision + 1 })
        }),
{
}

/// A connected call stays connected for as long as its circuit is intact,
/// whether the circuit is the direct cord or the tap bridge: it is not marked
/// disconnected, draws no error, is not put through again, and finishes
/// exactly when its conversation's audio has played since it was connected.
pub proof fn law_an_intact_circuit_keeps_the_call_connected(
    call: ActiveCall,
    cords: Seq<CordConnection>,
    selected: u16,
    now: u64,
    r: RouteRules,
)
    requires
        call.phase == CallPhase::Connected,
        direct_circuit(cords, call.caller, call.callee) || tap_circuit(cords, call.caller, call.callee),
    ensures
        route_step(call, cords, selected, now, r).0.phase == CallPhase::Connected,
        route_step(call, cords, selected, now, r).0.disconnected_at is None,
        route_step(call, cords, selected, now, r).0.caller == call.caller,
        route_step(call, cords, selected, now, r).0.callee == call.callee,
        route_step(call, cords, selected, now, r).1.error is None,
        !route_step(call, cords, selected, now, r).1.connect,
        route_step(call, cords, selected, now, r).1.finish <==> (call.connected_elapsed_seconds matches Some(started)
            && (if now >= started { now - started } else { 0 }) >= call.audio_duration_seconds),
{
}

/// With the tap bridge in place, a connected call is not finished before
/// its conversation's audio has played, however often it is routed: two
/// inputs at any two moments earlier than that leave it connected and
/// unfinished.
pub proof fn law_the_tap_bridge_does_not_cut_a_conversation_short(
    call: ActiveCall,
    cords: Seq<CordConnection>,
    selected: u16,
    first: u64,
    second: u64,
    r: RouteRules,
)
    requires
        call.phase == CallPhase::Connected,
        tap_circuit(cords, call.caller, call.callee),
        call.connected_elapsed_seconds matches Some(started) && started <= first <= second
            && second - started < call.audio_duration_seconds,
    ensures
        !route_step(call, cords, selected, first, r).1.finish,
        !route_step(route_step(call, cords, selected, first, r).0, cords, selected, second, r).1.finish,
        route_step(route_step(call, cords, selected, first, r).0, cords, selected, second, r).0.disconnected_at is None,
        route_step(route_step(call, cords, selected, first, r).0, cords, selected, second, r).0.phase == CallPhase::Connected,
{
    law_an_intact_circuit_keeps_the_call_connected(call, cords, selected, first, r);
    let next = route_step(call, cords, selected, first, r).0;
    assert(next.connected_elapsed_seconds == call.connected_elapsed_seconds);
    assert(next.audio_duration_seconds == call.audio_duration_seconds);
    law_an_intact_circuit_keeps_the_call_connected(next, cords, selected, second, r);
}

/// A connected call whose circuit is pulled (neither its direct cord nor its
/// tap bridge in place) is marked disconnected from the first moment the
/// circuit was found pulled, and finishes once five seconds have passed since
/// then.
pub proof fn law_a_pulled_circuit_finishes_after_five_seconds(
    call: ActiveCall,
    cords: Seq<CordConnection>,
    selected: u16,
    now: u64,
    r: RouteRules,
)
    requires
        call.phase == CallPhase::Connected,
        !direct_circuit(cords, call.caller, call.callee),
        !tap_circuit(cords, call.caller, call.callee),
    ensures
        route_step(call, cords, selected, now, r).0.phase == CallPhase::Connected,
        route_step(call, cords, selected, now, r).0.disconnected_at
            == Some(match call.disconnected_at { Some(d) => d, None => now }),
        route_step(call, cords, selected, now, r).1.error is None,
        route_step(call, cords, selected, now, r).1.finish <==> ({
            let at = match call.disconnected_at { Some(d) => d, None => now };
            now >= at && now - at >= 5
        }),
{
}

/// The operator answering a waiting call (its caller corded to the
/// operator's jack) opens an operator session, unless the tap bridge to the
/// selected destination connects it at once.
pub proof fn law_the_operator_answers_a_waiting_call(
    call: ActiveCall,
    cords: Seq<CordConnection>,
    selected: u16,
    now: u64,
    r: RouteRules,
)
    requires
        call.phase == CallPhase::Waiting,
        corded(cords, PortId::Subscriber(call.caller), PortId::Operator),
        !(r.tap_held && tap_circuit(cords, call.caller, call.callee) && selected == call.callee as u16),
    ensures
        route_step(call, cords, selected, now, r).0.phase == CallPhase::OperatorSession,
        route_step(call, cords, selected, now, r).1 == step_of(None, false, false),
{
    let k = choose|i: int| 0 <= i < cords.len() && crate::hardware::joins(#[trigger] cords[i], PortId::Subscriber(call.caller), PortId::Operator);
    assert(cords.len() > 0);
}

/// A call awaiting routing whose callee the ring switch and the ring
/// generator's cord select, with the caller on the operator's jack and no
/// direct cord from the caller, starts ringing now, ready after the drawn
/// delay; without the caller on the operator's jack it draws the ringing
/// topology error and stays as it was.
pub proof fn law_ringing_starts_from_a_ringing_circuit(
    call: ActiveCall,
    cords: Seq<CordConnection>,
    selected: u16,
    now: u64,
    r: RouteRules,
)
    requires
        call.phase == CallPhase::AwaitingRouting || call.phase == CallPhase::OperatorSession,
        ring_line_from(cords, 0) == call.callee as i16,
        r.ring_switch == call.callee as i16,
        forall|i: int| 0 <= i < cords.len() ==> !caller_direct_cord(#[trigger] cords[i], call.caller),
        !(r.tap_held && tap_circuit(cords, call.caller, call.callee) && selected == call.callee as u16),
        now + r.ring_delay <= u64::MAX,
    ensures
        corded(cords, PortId::Subscriber(call.caller), PortId::Operator) ==> {
            &&& route_step(call, cords, selected, now, r).0.phase == CallPhase::Ringing
            &&& route_step(call, cords, selected, now, r).0.ring_started_at == Some(now)
            &&& route_step(call, cords, selected, now, r).0.ring_ready_at == Some((now + r.ring_delay) as u64)
            &&& route_step(call, cords, selected, now, r).1 == step_of(None, false, false)
        },
        !corded(cords, PortId::Subscriber(call.caller), PortId::Operator) ==> {
            &&& route_step(call, cords, selected, now, r).0 == call
            &&& route_step(call, cords, selected, now, r).1 == step_of(Some(ExchangeError::RingingTopology), false, false)
        },
{
    assert(!corded(cords, PortId::Subscriber(call.caller), PortId::Subscriber(call.callee))) by {
        if corded(cords, PortId::Subscriber(call.caller), PortId::Subscriber(call.callee)) {
            let k = choose|i: int| 0 <= i < cords.len()
                && crate::hardware::joins(#[trigger] cords[i], PortId::Subscriber(call.caller), PortId::Subscriber(call.callee));
            assert(caller_direct_cord(cords[k], call.caller));
        }
    }
}

/// A ringing call whose ring was dropped (no ring asked for or taken on its
/// callee and no direct cord to it) goes back to awaiting routing once the
/// grace period after the ring started has passed, or at once when no ring
/// was started; within the grace period it keeps ringing.
pub proof fn law_a_dropped_ring_returns_after_the_grace_period(
    call: ActiveCall,
    cords: Seq<CordConnection>,
    selected: u16,
    now: u64,
    r: RouteRules,
)
    requires
        call.phase == CallPhase::Ringing,
        requested_ring(cords, r.ring_switch) != call.callee as i16,
        ringing_line(cords, r.ring_switch, r.ring_active_line) != call.callee as i16,
        !corded(cords, PortId::Subscriber(call.caller), PortId::Subscriber(call.callee)),
    ensures
        route_step(call, cords, selected, now, r).1 == step_of(None, false, false),
        route_step(call, cords, selected, now, r).0.phase == (match call.ring_started_at {
            Some(started) => if now > started + r.ring_grace_seconds { CallPhase::AwaitingRouting } else { CallPhase::Ringing },
            None => CallPhase::AwaitingRouting,
        }),
{
}

} // verus!
