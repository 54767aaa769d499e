use exchange_backend::exchange::{
    active_ring_line, check_input, draw_call, effective_ring_line, expire_calls, open_next_shift,
    next_call, random_patience, refill_calls, retirement, FillConfig, route_call, route_input, routing_precheck, settle_call, shift_should_settle,
    shift_summary, text_turn_check, update_ring_activation, valid_ringing_circuit, waiting_call, CallResult,
    ConnectPlan, ExchangeError, Ledger, RouteRules, TextTurnError,
};
use exchange_backend::hardware::ActiveCall;
use exchange_backend::protocol::{
    CallPhase, CordConnection, HeldControls, InputMessage, InputState, PortId, ShiftPhase, PROTOCOL_VERSION,
};

fn cord(first: PortId, second: PortId) -> CordConnection {
    CordConnection { first, second }
}

fn input(cords: Vec<CordConnection>) -> InputState {
    InputState { cord_topology: cords, ..InputState::default() }
}

fn call(caller: u8, callee: u8, phase: CallPhase) -> ActiveCall {
    ActiveCall { phase, ..waiting_call(caller, callee, 0, 60) }
}

fn rules(ring_switch: i16) -> RouteRules {
    RouteRules {
        ring_switch,
        ring_active_line: -1,
        ring_delay: 2,
        ring_grace_seconds: 5,
        requires_ring: true,
        special_destination: false,
        tap_held: false,
    }
}

fn ledger(money: i32) -> Ledger {
    Ledger { resolved: 0, completed: 0, missed: 0, failed: 0, earned: 0, deductions: 0, money, conversation_seconds: 0 }
}

fn message(version: u16, sequence: u64, revision: u64, held: HeldControls) -> InputMessage {
    InputMessage {
        protocol_version: version,
        input_sequence: sequence,
        expected_state_revision: revision,
        input: InputState { held_controls: held, ..InputState::default() },
    }
}

#[test]
fn input_messages_are_checked_in_order() {
    let none = HeldControls::default();
    assert_eq!(check_input(&message(PROTOCOL_VERSION, 5, 2, none), Some(4), 2), None);
    assert_eq!(check_input(&message(PROTOCOL_VERSION + 1, 1, 0, none), Some(4), 2), Some(ExchangeError::ProtocolVersion));
    assert_eq!(check_input(&message(PROTOCOL_VERSION, 4, 0, none), Some(4), 2), Some(ExchangeError::InputSequence));
    assert_eq!(check_input(&message(PROTOCOL_VERSION, 5, 1, none), Some(4), 2), Some(ExchangeError::StateRevision));
    let two = HeldControls { ptt: true, police: true, ..HeldControls::default() };
    assert_eq!(check_input(&message(PROTOCOL_VERSION, 1, 2, two), None, 2), Some(ExchangeError::MultipleTalkButtons));
    assert_eq!(ExchangeError::MultipleTalkButtons.code(), "multiple_talk_buttons");
    assert_eq!(ExchangeError::MultipleTalkButtons.message(), "press exactly one of PTT, Police, or EMS");
}

#[test]
fn direct_circuits_are_checked_against_the_directory_before_routing() {
    let c = call(2, 5, CallPhase::AwaitingRouting);
    let direct = input(vec![cord(PortId::Subscriber(2), PortId::Subscriber(5))]);
    assert_eq!(routing_precheck(&c, &direct, false, false), Some(ExchangeError::DirectorySelectionRequired));
    assert_eq!(routing_precheck(&c, &direct, true, false), None);
    let wrong = input(vec![cord(PortId::Subscriber(2), PortId::Subscriber(7))]);
    assert_eq!(routing_precheck(&c, &wrong, true, false), Some(ExchangeError::WrongDestination));
    assert_eq!(routing_precheck(&c, &wrong, true, true), None);
    let connected = call(2, 5, CallPhase::Connected);
    let extra = input(vec![
        cord(PortId::Subscriber(2), PortId::Subscriber(5)),
        cord(PortId::Subscriber(5), PortId::Operator),
    ]);
    assert_eq!(routing_precheck(&connected, &extra, true, false), Some(ExchangeError::ConnectedTopology));
}

#[test]
fn a_direct_circuit_before_ringing_is_premature() {
    let mut c = call(2, 5, CallPhase::AwaitingRouting);
    let direct = input(vec![cord(PortId::Subscriber(2), PortId::Subscriber(5))]);
    let step = route_call(&mut c, &direct, 5, 10, rules(-1));
    assert_eq!(step.error, Some(ExchangeError::PrematureDirectRouting));
    assert!(!step.connect);
    assert_eq!(c, call(2, 5, CallPhase::AwaitingRouting));
    assert_eq!(ExchangeError::PrematureDirectRouting.code(), "premature_direct_routing");
}

#[test]
fn the_ring_generator_starts_ringing_and_the_ring_must_take_before_connecting() {
    let mut c = call(2, 5, CallPhase::Waiting);
    let at_operator = input(vec![cord(PortId::Subscriber(2), PortId::Operator)]);
    route_call(&mut c, &at_operator, 0, 1, rules(-1));
    assert_eq!(c.phase, CallPhase::OperatorSession);
    route_call(&mut c, &input(vec![]), 0, 2, rules(-1));
    assert_eq!(c.phase, CallPhase::AwaitingRouting);

    let ringing = input(vec![
        cord(PortId::Subscriber(2), PortId::Operator),
        cord(PortId::RingGenerator, PortId::Subscriber(5)),
    ]);
    assert_eq!(effective_ring_line(&ringing, 5), 5);
    assert_eq!(effective_ring_line(&ringing, 4), -1);
    assert!(valid_ringing_circuit(&ringing, 5, 2, 5));
    let step = route_call(&mut c, &ringing, 5, 10, rules(5));
    assert_eq!(step.error, None);
    assert_eq!(c.phase, CallPhase::Ringing);
    assert_eq!(c.ring_started_at, Some(10));
    assert_eq!(c.ring_ready_at, Some(12));

    let direct = input(vec![cord(PortId::Subscriber(2), PortId::Subscriber(5))]);
    let early = route_call(&mut c, &direct, 5, 11, rules(-1));
    assert_eq!(early.error, Some(ExchangeError::RingingNotReady));

    let mut calls = vec![c];
    assert_eq!(update_ring_activation(&mut calls, &ringing, 5, -1, 11, 2), -1);
    assert!(!calls[0].ring_activated);
    assert_eq!(update_ring_activation(&mut calls, &ringing, 5, -1, 12, 2), 5);
    assert!(calls[0].ring_activated);
    assert_eq!(active_ring_line(&ringing, 5, 5), 5);
    let mut rung = calls[0];
    let step = route_call(&mut rung, &direct, 5, 13, rules(-1));
    assert_eq!(step.error, None);
    assert!(step.connect);
}

#[test]
fn a_call_routed_to_the_wrong_line_fails_and_costs_four() {
    let mut calls = vec![call(2, 5, CallPhase::AwaitingRouting), call(3, 4, CallPhase::Waiting)];
    let mut account = ledger(0);
    let wrong = input(vec![cord(PortId::Subscriber(2), PortId::Subscriber(7))]);
    let (error, line) =
        route_input(&mut calls, &mut account, &wrong, Some(2), 5, 10, rules(-1), true, false, ConnectPlan::Hold);
    assert_eq!(error, Some(ExchangeError::WrongDestination));
    assert_eq!(line.as_deref(), Some("MONEY // -$4 failed connection line 2 -> 5 (wrong_destination) // balance $-4"));
    assert_eq!(calls, vec![call(3, 4, CallPhase::Waiting)]);
    assert_eq!(account.failed, 1);
    assert_eq!(account.money, -4);
    assert_eq!(account.deductions, 4);
}

#[test]
fn a_finished_conversation_completes_and_earns_five() {
    let mut account = ledger(3);
    let mut c = call(1, 4, CallPhase::Connected);
    c.audio_duration_seconds = 7;
    let line = settle_call(&mut account, &c, CallResult::Completed, "");
    assert_eq!(line, "MONEY // +$5 completed connection line 1 -> 4 // balance $8");
    assert_eq!(account.completed, 1);
    assert_eq!(account.earned, 5);
    assert_eq!(account.conversation_seconds, 7);
    let missed = settle_call(&mut account, &c, CallResult::Missed, "");
    assert_eq!(missed, "MONEY // -$4 missed call line 1 -> 4 // balance $4");
    assert_eq!(account.resolved, 2);
}

#[test]
fn waiting_calls_expire_when_their_patience_runs_out() {
    let mut calls = vec![
        ActiveCall { deadline: 5, ..call(0, 1, CallPhase::Waiting) },
        ActiveCall { deadline: 1, ..call(2, 3, CallPhase::Connected) },
        ActiveCall { deadline: 20, ..call(4, 5, CallPhase::Waiting) },
    ];
    let gone = expire_calls(&mut calls, 10);
    assert_eq!(gone, vec![ActiveCall { deadline: 5, ..call(0, 1, CallPhase::Waiting) }]);
    assert_eq!(calls.len(), 2);
    assert_eq!(calls[0].caller, 2);
    assert_eq!(calls[1].caller, 4);
}

#[test]
fn shifts_settle_and_summarise() {
    let calls = vec![call(0, 1, CallPhase::Waiting)];
    assert!(shift_should_settle(ShiftPhase::Active, 480, 0, 480, &calls));
    assert!(!shift_should_settle(ShiftPhase::Active, 479, 0, 480, &calls));
    assert!(!shift_should_settle(ShiftPhase::Active, 500, 0, 480, &vec![call(0, 1, CallPhase::Connected)]));
    assert!(!shift_should_settle(ShiftPhase::Ready, 500, 0, 480, &calls));
    let account = Ledger { resolved: 3, completed: 2, missed: 1, failed: 0, earned: 10, deductions: 4, money: 6, conversation_seconds: 7 };
    assert_eq!(
        shift_summary(1, &account),
        "SHIFT 1 SUMMARY\nCOMPLETED CALLS // 2\nMISSED CALLS // 1\nFAILED CALLS // 0\nCONVERSATION SECONDS // 7\nEARNED +$10\nDEDUCTIONS -$4\nCURRENT MONEY // $6"
    );
    assert_eq!(retirement(&account), "RETIREMENT // THREE SHIFTS COMPLETE\nFINAL MONEY // $6");
    let mut next = account;
    assert_eq!(open_next_shift(1, &mut next), 2);
    assert_eq!(next, Ledger { money: 6, ..ledger(6) });
}

#[test]
fn random_draws_follow_the_run_generator() {
    assert_eq!(random_patience(0, 20, 40), (1, 21));
    let (state, drawn) = draw_call(0, 6, &vec![], &vec![]);
    assert_eq!(state, 1442695040888963407);
    assert_eq!(drawn, Some((1, 3)));
    assert_eq!(draw_call(0, 6, &vec![3], &vec![]).1, None);
    assert_eq!(draw_call(0, 6, &vec![], &vec![call(1, 0, CallPhase::Waiting)]).1, None);
}

#[test]
fn text_turns_are_checked_in_order() {
    let active = Some((2, 5));
    assert_eq!(text_turn_check(3, 3, 7, 1, 1, "hello", 7, active), Ok((2, 5)));
    assert_eq!(text_turn_check(3, 2, 7, 1, 1, "hello", 7, active), Err(TextTurnError::ProtocolVersion));
    assert_eq!(text_turn_check(3, 3, 6, 1, 1, "hello", 7, active), Err(TextTurnError::StateRevision));
    assert_eq!(text_turn_check(3, 3, 7, 0, 1, "hello", 7, active), Err(TextTurnError::Turn));
    assert_eq!(text_turn_check(3, 3, 7, 1, 1, "  \n", 7, active), Err(TextTurnError::Text));
    assert_eq!(text_turn_check(3, 3, 7, 1, 1, "hello", 7, None), Err(TextTurnError::NoActiveCall));
    assert_eq!(TextTurnError::NoActiveCall.code(), "no_active_call");
}

#[test]
fn calls_are_placed_while_fewer_than_the_target_are_in_play() {
    let config = FillConfig { line_limit: 6, attempts: 100, patience_min: 20, patience_max: 40, arrival_interval: 30 };
    let mut calls = vec![];
    let (rng, arrival) = refill_calls(&mut calls, 0, 0, 5, 2, &vec![], config);
    assert_eq!(calls, vec![waiting_call(1, 3, 5, 41)]);
    assert_eq!((rng, arrival), (433315962919513060, 35));
    let (_, later) = refill_calls(&mut calls, rng, arrival, 20, 2, &vec![], config);
    assert_eq!(later, 35);
    assert_eq!(calls.len(), 1);

    let every_input = FillConfig { arrival_interval: 0, ..config };
    let mut calls = vec![];
    let (rng, arrival) = refill_calls(&mut calls, 0, 0, 0, 2, &vec![], every_input);
    assert_eq!(calls, vec![waiting_call(1, 3, 0, 36), waiting_call(4, 2, 0, 29)]);
    assert_eq!((rng, arrival), (10192939029863227647, 0));
    assert_eq!(next_call(0, 0, 6, &vec![], &vec![]), (0, None));
}

fn fresh_exchange() -> exchange_backend::exchange::Exchange {
    exchange_backend::exchange::Exchange {
        calls: vec![],
        ledger: ledger(0),
        rng: 0,
        revision: 0,
        sequence: None,
        ring_active_line: -1,
        shift_number: 1,
        shift_phase: ShiftPhase::Ready,
        shift_started: 0,
        next_arrival: 0,
        ended: false,
        focused: None,
        printer: vec![],
    }
}

fn run_config() -> exchange_backend::exchange::ExchangeConfig {
    exchange_backend::exchange::ExchangeConfig {
        fill: FillConfig { line_limit: 6, attempts: 100, patience_min: 20, patience_max: 40, arrival_interval: 30 },
        call_target: 2,
        shift_duration: 480,
        ring_grace_seconds: 5,
    }
}

fn routed(sequence: u64, revision: u64, cords: Vec<CordConnection>, digits: [u8; 4]) -> InputMessage {
    InputMessage {
        protocol_version: PROTOCOL_VERSION,
        input_sequence: sequence,
        expected_state_revision: revision,
        input: InputState { cord_topology: cords, directory_digits: digits, ..InputState::default() },
    }
}

#[test]
fn the_exchange_places_calls_refuses_early_direct_circuits_and_charges_missed_calls() {
    let mut exchange = fresh_exchange();
    let c = run_config();
    let plan = ConnectPlan::Hold;
    assert_eq!(exchange.apply_input(&routed(1, 0, vec![], [0; 4]), 0, -1, false, &vec![], plan, c), None);
    assert_eq!(exchange.calls, vec![waiting_call(1, 3, 0, 36)]);
    assert_eq!((exchange.revision, exchange.sequence, exchange.shift_phase), (1, Some(1), ShiftPhase::Active));

    assert_eq!(
        exchange.apply_input(&routed(1, 1, vec![], [0; 4]), 1, -1, false, &vec![], plan, c),
        Some(ExchangeError::InputSequence)
    );
    assert_eq!(exchange.revision, 1);

    let at_operator = vec![cord(PortId::Subscriber(1), PortId::Operator)];
    assert_eq!(exchange.apply_input(&routed(2, 1, at_operator, [0; 4]), 1, -1, false, &vec![], plan, c), None);
    assert_eq!(exchange.calls[0].phase, CallPhase::OperatorSession);
    assert_eq!(exchange.focused, Some(1));

    let direct = vec![cord(PortId::Subscriber(1), PortId::Subscriber(3))];
    assert_eq!(
        exchange.apply_input(&routed(3, 2, direct, [0, 0, 0, 3]), 2, -1, false, &vec![], plan, c),
        Some(ExchangeError::PrematureDirectRouting)
    );
    assert_eq!(exchange.calls[0].phase, CallPhase::OperatorSession);

    let mut waiting = fresh_exchange();
    waiting.apply_input(&routed(1, 0, vec![], [0; 4]), 0, -1, false, &vec![], plan, c);
    assert_eq!(waiting.apply_input(&routed(2, 1, vec![], [0; 4]), 40, -1, false, &vec![], plan, c), None);
    assert_eq!(waiting.printer[0], "MONEY // -$4 missed call line 1 -> 3 // balance $-4");
    assert_eq!((waiting.ledger.missed, waiting.ledger.money), (1, -4));
    assert_eq!(waiting.calls.len(), 1);
}
