use exchange_backend::config::{ConfigError, GameConfig, SubscriberConfig};
use exchange_backend::hardware::{
    direct, directory_for_id, directory_id, directory_line, directory_pages, directory_user,
    exact_cords, has_cord, has_direct_circuit_for_caller, has_wrong_direct_circuit, operator_line,
    simple_place, valid_connected_circuit, valid_direct_circuit, valid_tap_circuit,
    append_printer, lamps, physical_ring_line, rejected, ActiveCall,
};
use exchange_backend::protocol::{
    CallPhase, ClockState, CordConnection, GamePhase, InputState, OutputDebug, PortId,
    PrinterEntry, ProtocolError, ShiftPhase, ShiftStatus, StateOutput, TuningState,
    PROTOCOL_VERSION,
};

fn subscriber(id: u16, line: u8) -> SubscriberConfig {
    SubscriberConfig {
        id,
        line,
        place: format!("Place {line}"),
        name: format!("Name {line}"),
        role: format!("Role {line}"),
        private_info: format!("Note {line}"),
        voice_id: format!("voice-{line}"),
    }
}

fn config() -> GameConfig {
    GameConfig {
        subscribers: (0..12).map(|line| subscriber(1000 + line as u16, line)).collect(),
        active_calls: 3,
        patience_min_seconds: 20,
        patience_max_seconds: 40,
        ring_grace_seconds: 5,
        shift_duration_seconds: 480,
        call_arrival_interval_seconds: 30,
        story_seed: 7,
    }
}

#[test]
fn a_complete_configuration_is_accepted() {
    assert_eq!(config().validate(), Ok(()));
}

#[test]
fn configuration_problems_are_reported() {
    let mut c = config();
    c.active_calls = 0;
    assert_eq!(c.validate(), Err(ConfigError::NoActiveCalls));

    let mut c = config();
    c.patience_min_seconds = 41;
    assert_eq!(c.validate(), Err(ConfigError::PatienceRange));

    let mut c = config();
    c.subscribers.clear();
    assert_eq!(c.validate(), Err(ConfigError::NoSubscribers));

    let mut c = config();
    c.subscribers[5].id = 1002;
    assert_eq!(c.validate(), Err(ConfigError::DuplicateId(1002)));

    let mut c = config();
    c.subscribers[11].line = 12;
    assert_eq!(c.validate(), Err(ConfigError::LineOutOfRange(12)));

    let mut c = config();
    c.subscribers[11].line = 3;
    assert_eq!(c.validate(), Err(ConfigError::DuplicateLine(3)));

    let mut c = config();
    c.subscribers[4].place = "  ".to_string();
    assert_eq!(c.validate(), Err(ConfigError::MissingPlace(4)));

    let mut c = config();
    c.subscribers[6].voice_id = String::new();
    assert_eq!(c.validate(), Err(ConfigError::MissingVoiceId(6)));

    let mut c = config();
    c.subscribers.pop();
    assert_eq!(c.validate(), Err(ConfigError::UnconfiguredLine(11)));
}

#[test]
fn dials_read_as_a_directory_number_and_back() {
    assert_eq!(directory_id([1, 0, 2, 2]), 1022);
    assert_eq!(directory_id([0, 0, 0, 7]), 7);
    assert_eq!(directory_for_id(4101), [4, 1, 0, 1]);
    assert_eq!(directory_for_id(9), [0, 0, 0, 9]);
    assert_eq!(directory_id(directory_for_id(1234)), 1234);
}

#[test]
fn the_directory_shows_the_subscriber_on_the_dialed_number() {
    let c = config();
    assert_eq!(directory_line(&c, 1004), Some(4));
    assert_eq!(directory_line(&c, 2000), None);
    let pages = directory_pages(&c, [1, 0, 0, 4]);
    assert_eq!(pages.len(), 1);
    assert_eq!(pages[0].page_number, 1);
    assert_eq!(pages[0].heading, "Place 4");
    assert_eq!(
        pages[0].lines,
        vec![
            "SUBSCRIBER ID 1004".to_string(),
            "SUBSCRIBER // Name 4".to_string(),
            "ROLE // Role 4".to_string(),
            "NOTE // Note 4".to_string(),
            "DESTINATION // Place 4".to_string(),
        ]
    );
    let none = directory_pages(&c, [0, 0, 4, 2]);
    assert_eq!(none[0].heading, "NO RECORD");
    assert_eq!(
        none[0].lines,
        vec!["SUBSCRIBER ID 0042".to_string(), "SELECT A LINE FROM 0000 THROUGH 0011".to_string()]
    );
}

#[test]
fn lines_without_a_subscriber_are_labelled() {
    let mut c = config();
    c.subscribers.retain(|s| s.line != 7);
    assert_eq!(simple_place(&c, 7), "LINE 07");
    assert_eq!(simple_place(&c, 2), "Place 2");
    assert_eq!(
        directory_user(&c, 7),
        (
            "SUBSCRIBER 07".to_string(),
            "unassigned".to_string(),
            "No subscriber profile assigned".to_string()
        )
    );
    assert_eq!(
        directory_user(&c, 3),
        ("Name 3".to_string(), "Role 3".to_string(), "Note 3".to_string())
    );
}

fn cord(first: PortId, second: PortId) -> CordConnection {
    CordConnection { first, second }
}

fn input(cords: Vec<CordConnection>) -> InputState {
    InputState { cord_topology: cords, ..InputState::default() }
}

#[test]
fn the_operator_cord_names_the_line_it_answers() {
    let cords = [
        cord(PortId::Subscriber(2), PortId::Subscriber(5)),
        cord(PortId::Operator, PortId::Subscriber(9)),
    ];
    assert_eq!(operator_line(&cords), Some(9));
    assert_eq!(operator_line(&cords[..1]), None);
    let state = input(cords.to_vec());
    assert!(has_cord(&state, PortId::Subscriber(5), PortId::Subscriber(2)));
    assert!(!has_cord(&state, PortId::Subscriber(5), PortId::Operator));
}

#[test]
fn direct_circuits_join_exactly_the_two_lines() {
    let joined = input(vec![cord(PortId::Subscriber(1), PortId::Subscriber(4))]);
    assert!(direct(&joined.cord_topology, 4, 1));
    assert!(valid_direct_circuit(&joined, 1, 4));
    assert!(has_direct_circuit_for_caller(&joined, 1));
    assert!(!has_wrong_direct_circuit(&joined, 1, 4));
    assert!(has_wrong_direct_circuit(&joined, 1, 5));

    let crowded = input(vec![
        cord(PortId::Subscriber(1), PortId::Subscriber(4)),
        cord(PortId::Subscriber(4), PortId::Subscriber(6)),
    ]);
    assert!(!valid_direct_circuit(&crowded, 1, 4));

    let tapped = input(vec![
        cord(PortId::Subscriber(1), PortId::Subscriber(4)),
        cord(PortId::Subscriber(1), PortId::Tap(3)),
    ]);
    assert!(valid_direct_circuit(&tapped, 1, 4));
}

#[test]
fn the_tap_bridge_is_a_connection_but_not_a_direct_one() {
    let bridge = input(vec![
        cord(PortId::Tap(2), PortId::Subscriber(4)),
        cord(PortId::Subscriber(1), PortId::Tap(1)),
    ]);
    assert!(valid_tap_circuit(&bridge, 1, 4));
    assert!(!valid_direct_circuit(&bridge, 1, 4));
    assert!(valid_connected_circuit(&bridge, 1, 4));
    assert!(valid_tap_circuit(&bridge, 4, 1));
    let half = input(vec![cord(PortId::Subscriber(1), PortId::Tap(1))]);
    assert!(!valid_connected_circuit(&half, 1, 4));
    assert!(exact_cords(
        &bridge.cord_topology,
        &[(PortId::Subscriber(1), PortId::Tap(1)), (PortId::Subscriber(4), PortId::Tap(2))]
    ));
    assert!(!exact_cords(&bridge.cord_topology, &[(PortId::Subscriber(1), PortId::Tap(1))]));
}

#[test]
fn the_ring_generator_rings_the_first_line_it_is_corded_to() {
    assert_eq!(physical_ring_line(&input(vec![])), -1);
    let cords = vec![
        cord(PortId::Subscriber(2), PortId::Subscriber(5)),
        cord(PortId::Subscriber(7), PortId::RingGenerator),
        cord(PortId::RingGenerator, PortId::Subscriber(9)),
    ];
    assert_eq!(physical_ring_line(&input(cords)), 7);
    let cords = vec![cord(PortId::RingGenerator, PortId::Subscriber(11))];
    assert_eq!(physical_ring_line(&input(cords)), 11);
}

fn call(caller: u8, callee: u8, phase: CallPhase, ring_activated: bool) -> ActiveCall {
    ActiveCall {
        caller,
        callee,
        phase,
        deadline: 60,
        started_elapsed_seconds: 0,
        connected_elapsed_seconds: None,
        ring_started_at: None,
        ring_ready_at: None,
        ring_activated,
        disconnected_at: None,
        audio_duration_seconds: 0,
    }
}

#[test]
fn lamps_show_live_callers_and_answering_callees() {
    assert_eq!(lamps(&[], -1), [false; 12]);
    let calls = [
        call(0, 1, CallPhase::Waiting, false),
        call(2, 3, CallPhase::Connected, false),
        call(4, 5, CallPhase::Ringing, false),
        call(6, 7, CallPhase::Ringing, true),
        call(8, 9, CallPhase::Completed, true),
        call(10, 11, CallPhase::Missed, false),
    ];
    let lit = lamps(&calls, 11);
    let expected = [true, false, true, true, true, false, true, true, false, false, false, true];
    assert_eq!(lit, expected);
    let held = lamps(&[call(3, 4, CallPhase::Held, false)], 12);
    let mut expected = [false; 12];
    expected[3] = true;
    expected[4] = true;
    assert_eq!(held, expected);
}

fn blank_state() -> StateOutput {
    StateOutput {
        line_lamps: [false; 16],
        game_phase: GamePhase::Shift,
        run_generation: 3,
        clock: ClockState { shift: 1, elapsed_seconds: 42 },
        speaker_active: false,
        interference_level: 0,
        tap_bridge_audio_active: false,
        tuning: TuningState::default(),
        directory_pages: vec![],
        printer_output: vec![],
        call: None,
        calls: vec![],
        service_call: None,
        tap_bridge_monitoring: None,
        shift: ShiftStatus {
            number: 1,
            phase: ShiftPhase::Active,
            active_call_count: 0,
            completed_routings: 0,
            required_service_calls: 0,
            completed_service_calls: 0,
            service_errors: 0,
            service_error_counts: vec![],
        },
        debug: OutputDebug { messages: vec![] },
    }
}

#[test]
fn printer_entries_are_numbered_from_one_after_the_last() {
    let mut state = blank_state();
    append_printer(&mut state, "first");
    append_printer(&mut state, "second");
    assert_eq!(
        state.printer_output,
        vec![
            PrinterEntry { entry_id: 1, text: "first".to_string() },
            PrinterEntry { entry_id: 2, text: "second".to_string() },
        ]
    );
    state.printer_output = vec![PrinterEntry { entry_id: 40, text: "old".to_string() }];
    append_printer(&mut state, "next");
    assert_eq!(state.printer_output[1], PrinterEntry { entry_id: 41, text: "next".to_string() });
    assert_eq!(state.run_generation, 3);
    assert_eq!(state.clock, ClockState { shift: 1, elapsed_seconds: 42 });
}

#[test]
fn a_refused_input_is_answered_with_its_error_and_the_current_state() {
    let reply = rejected(9, "stale_revision", "expected revision 4", 5, blank_state());
    assert_eq!(reply.protocol_version, PROTOCOL_VERSION);
    assert_eq!(reply.input_sequence, 9);
    assert!(!reply.accepted);
    assert_eq!(
        reply.error,
        Some(ProtocolError {
            code: "stale_revision".to_string(),
            message: "expected revision 4".to_string(),
        })
    );
    assert_eq!(reply.state_revision, 5);
    assert_eq!(reply.output, blank_state());
}
