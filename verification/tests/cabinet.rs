use exchange_backend::cabinet::{
    CabinetOutput, CabinetSnapshot, Cord, MvpCore, OperatorSession, Phase, VoicePipelineError, OPERATOR_JACK,
    VoiceRequest, VoiceStage, subscriber_profile,
};
use std::collections::HashSet;

fn snapshot(cords: &[(usize, usize)], active_action: i32, crank_complete: bool) -> CabinetSnapshot {
    CabinetSnapshot {
        sequence: 1,
        cords: cords.iter().map(|&(a, b)| Cord(a, b)).collect(),
        active_action,
        crank_complete,
        directory_id: 4101,
        speaker_enabled: true,
        reset: false,
    }
}

fn test_core() -> MvpCore {
    MvpCore::new()
}

/// One reading with a pipeline whose captures always start and whose
/// microphone is silent, shown at the start of the shift.
fn apply(core: &mut MvpCore, input: CabinetSnapshot) -> CabinetOutput {
    core.apply_reading(&input, || Ok(()), 0, 0).1
}

#[test]
fn unknown_directory_id_and_reset_are_backend_owned() {
    let mut core = test_core();
    let mut unknown = snapshot(&[], -1, false);
    unknown.directory_id = 9999;
    assert_eq!(apply(&mut core, unknown).directory, vec!["NO RECORD"]);
    let mut reset = snapshot(&[], -1, false);
    reset.reset = true;
    let output = apply(&mut core, reset);
    assert_eq!(output.reset_status, "RESET COMPLETE");
    assert_eq!(output.phase, Phase::IncomingCaller);
}

#[test]
fn directory_lookup_returns_each_complete_backend_owned_subscriber_profile() {
    let expected_records = [
        (
            4101,
            "NILA DAS",
            "FOUNDRY APARTMENTS",
            "Foundry Apartments resident",
            "pocket-tts:anna",
        ),
        (
            4102,
            "DR. SORIN VALE",
            "KHARAD CLINIC",
            "Clinic intake worker",
            "pocket-tts:alba",
        ),
        (
            4103,
            "ARUN MEREK",
            "RAILWAY DISPATCH",
            "Railway Dispatch clerk",
            "pocket-tts:charles",
        ),
        (
            4104,
            "LEELA VOSS",
            "STEEL WORKS",
            "Steel Works manager",
            "pocket-tts:vera",
        ),
    ];

    let mut core = test_core();
    for (id, identity, listing, role, voice) in expected_records {
        let profile = subscriber_profile(id).expect("known directory ID has a profile");
        assert_eq!(profile.identity, identity);
        assert_eq!(profile.line_listing, listing);
        assert_eq!(profile.occupation_or_role, role);
        assert_eq!(profile.local_voice_configuration, voice);
        assert!(!profile.identifying_note.is_empty());
        assert!(!profile.personality.is_empty());
        assert!(!profile.speaking_style.is_empty());
        assert!(!profile.immediate_goal.is_empty());
        assert!(!profile.initial_perspective.is_empty());
        assert!(!profile.paired_relationship.is_empty());
        assert!(!profile.permitted_actions.is_empty());

        let mut input = snapshot(&[], -1, false);
        input.directory_id = id;
        assert_eq!(
            apply(&mut core, input).directory,
            vec![
                identity.to_string(),
                format!("{id} · {listing}"),
                role.to_string(),
                profile.identifying_note.to_string(),
            ]
        );
    }

    assert!(subscriber_profile(9999).is_none());

    let profiles = [4101, 4102, 4103, 4104]
        .map(|id| subscriber_profile(id).expect("known directory ID has a profile"));
    for field_values in [
        profiles.map(|profile| profile.identity),
        profiles.map(|profile| profile.line_listing),
        profiles.map(|profile| profile.occupation_or_role),
        profiles.map(|profile| profile.identifying_note),
        profiles.map(|profile| profile.personality),
        profiles.map(|profile| profile.speaking_style),
        profiles.map(|profile| profile.immediate_goal),
        profiles.map(|profile| profile.initial_perspective),
        profiles.map(|profile| profile.paired_relationship),
        profiles.map(|profile| profile.local_voice_configuration),
    ] {
        assert_eq!(field_values.into_iter().collect::<HashSet<_>>().len(), 4);
    }
    assert_eq!(
        profiles
            .map(|profile| profile.permitted_actions[0])
            .into_iter()
            .collect::<HashSet<_>>()
            .len(),
        4
    );
}

#[test]
fn operator_prompt_keeps_only_a_small_subscriber_specific_dialogue_window() {
    let history = vec![
        "OPERATOR: Is the intake desk ready?".to_string(),
        "DR. SORIN VALE: Yes, tell me the fever.".to_string(),
    ];

    let prompt = subscriber_profile(4102)
        .unwrap()
        .operator_session_prompt(&history, "The fever began tonight.");

    assert!(prompt.contains("Recent conversation: OPERATOR: Is the intake desk ready?"));
    assert!(prompt.contains("The fever began tonight."));
    assert!(prompt.contains("DR. SORIN VALE"));
}

#[test]
fn speaker_control_is_echoed_as_rust_owned_cabinet_output() {
    let mut core = test_core();
    let mut input = snapshot(&[], -1, false);
    input.speaker_enabled = false;

    assert!(!apply(&mut core, input).speaker_active);
}

#[test]
fn cabinet_output_exposes_the_continuous_microphone_level_for_visualization() {
    let output = apply(&mut test_core(), snapshot(&[], -1, false));
    assert_eq!(output.microphone_level, 0);

    let (_, loud) = test_core().apply_reading(&snapshot(&[], -1, false), || Ok(()), 0, 16384);
    assert_eq!(loud.microphone_level, 127);
}

/// Plays the background half of an operator session the way the runtime
/// does: a session requested by the core comes back finished.
fn complete_operator_session(core: &mut MvpCore, cords: &[(usize, usize)]) -> CabinetOutput {
    let input = snapshot(cords, -1, false);
    let step = core.apply(&input, || Ok(()));
    if let VoiceRequest::FinishSession { profile, caller, .. } = step.request {
        core.session_finished(
            profile,
            caller,
            Ok(OperatorSession {
                transcript: "My parent needs Kharad Clinic tonight.".into(),
                response: "Stay calm. Tell me their fever and I will prepare the intake desk.".into(),
            }),
        );
    }
    core.output(1, "READY", 4101, false, true, 0, 0)
}

fn connect_first_caller(core: &mut MvpCore) {
    apply(core, snapshot(&[(4, 16)], -1, false));
    apply(core, snapshot(&[(4, 16)], 0, false));
    complete_operator_session(core, &[(4, 16)]);
}

#[test]
fn fixed_call_transitions_from_incoming_to_direct_routing_receipt() {
    let mut core = test_core();
    let incoming = apply(&mut core, snapshot(&[], -1, false));
    assert_eq!(incoming.phase, Phase::IncomingCaller);
    assert_eq!(incoming.clock_minutes, 9 * 60);
    assert!(incoming.line_lamps[4]);
    assert!(incoming.line_lamps[1]);
    assert_eq!(
        apply(&mut core, snapshot(&[(4, 16)], -1, false)).phase,
        Phase::ConnectedToOperator
    );
    apply(&mut core, snapshot(&[(4, 16)], 0, false));
    assert_eq!(
        complete_operator_session(&mut core, &[(4, 16)]).phase,
        Phase::ConnectedToOperator
    );
    assert_eq!(
        apply(&mut core, snapshot(&[(1, 17)], -1, true)).phase,
        Phase::CalleeRinging
    );
    let output = apply(&mut core, snapshot(&[(4, 1)], -1, false));
    assert_eq!(output.phase, Phase::CircuitConnected { tapped: false });
    assert!(output.printer.iter().any(|line| line.contains("FOUNDRY APARTMENTS")));
    assert!(output.printer.iter().any(|line| line == "CIRCUIT: DIRECT — SUCCESS"));
}

#[test]
fn direct_circuit_requires_the_callee_to_be_rung_first() {
    let mut core = test_core();
    connect_first_caller(&mut core);

    let output = apply(&mut core, snapshot(&[(4, 1)], -1, false));

    assert_eq!(output.phase, Phase::AwaitingRouting);
    assert_eq!(output.routing_status, "DIRECT CIRCUIT REJECTED: RING CALLEE FIRST");
    assert!(output.printer.iter().any(|line| line == "DIRECT CIRCUIT REJECTED: RING CALLEE FIRST"));
}

#[test]
fn ringing_rejects_extra_or_unrelated_cords() {
    let mut core = test_core();
    connect_first_caller(&mut core);

    let output = apply(&mut core, snapshot(&[(1, 17), (0, 2)], -1, true));

    assert_eq!(output.phase, Phase::AwaitingRouting);
    assert_eq!(output.routing_status, "RINGING REJECTED: INVALID CORD TOPOLOGY");
    assert!(output.printer.iter().any(|line| line == "RINGING REJECTED: INVALID CORD TOPOLOGY"));
}

#[test]
fn direct_circuit_rejects_extra_or_unrelated_cords() {
    let mut core = test_core();
    connect_first_caller(&mut core);
    apply(&mut core, snapshot(&[(1, 17)], -1, true));

    let output = apply(&mut core, snapshot(&[(4, 1), (0, 2)], -1, false));

    assert_eq!(output.phase, Phase::CalleeRinging);
    assert_eq!(output.routing_status, "DIRECT CIRCUIT REJECTED: INVALID CORD TOPOLOGY");
}

#[test]
fn direct_circuit_rejects_the_caller_connected_to_the_wrong_line() {
    let mut core = test_core();
    connect_first_caller(&mut core);
    apply(&mut core, snapshot(&[(1, 17)], -1, true));

    let output = apply(&mut core, snapshot(&[(4, 2)], -1, false));

    assert_eq!(output.phase, Phase::CalleeRinging);
    assert_eq!(output.routing_status, "DIRECT CIRCUIT REJECTED: INVALID CORD TOPOLOGY");
}

#[test]
fn tap_bridge_requires_both_bridge_ports_and_only_monitors_when_held() {
    let mut core = test_core();
    connect_first_caller(&mut core);
    apply(&mut core, snapshot(&[(1, 17)], -1, true));
    let output = apply(&mut core, snapshot(&[(4, 18), (1, 19)], 4, false));
    assert_eq!(output.phase, Phase::CircuitConnected { tapped: true });
    assert!(output.monitor_active);
    assert!(!apply(&mut core, snapshot(&[(4, 18), (1, 19)], -1, false)).monitor_active);
}

#[test]
fn reset_discards_completed_routing_and_is_repeatable() {
    let mut core = test_core();
    connect_first_caller(&mut core);
    apply(&mut core, snapshot(&[(1, 17)], -1, true));
    let completed = apply(&mut core, snapshot(&[(4, 1)], -1, false));
    assert!(completed.printer.iter().any(|line| line.starts_with("ROUTING RECEIPT:")));

    let mut reset = snapshot(&[], -1, false);
    reset.reset = true;
    let first_reset = apply(&mut core, reset.clone());
    let second_reset = apply(&mut core, reset);

    assert_eq!(first_reset.phase, Phase::IncomingCaller);
    assert_eq!(first_reset.routing_status, "CALLER OFF-HOOK: CONNECT TO OPERATOR");
    assert!(first_reset.line_lamps[4]);
    assert_eq!(first_reset.printer, second_reset.printer);
    assert!(!first_reset.printer.iter().any(|line| line.starts_with("ROUTING RECEIPT:")));
}

#[test]
fn clearing_a_completed_circuit_advances_to_the_second_fixed_call() {
    let mut core = test_core();
    connect_first_caller(&mut core);
    apply(&mut core, snapshot(&[(1, 17)], -1, true));
    apply(&mut core, snapshot(&[(4, 1)], -1, false));

    let output = apply(&mut core, snapshot(&[], -1, false));

    assert_eq!(output.phase, Phase::IncomingCaller);
    assert!(output.line_lamps[0]);
    assert!(output.line_lamps[4]);
}

#[test]
fn a_failed_capture_is_printed_and_retryable() {
    let mut core = test_core();
    apply(&mut core, snapshot(&[(4, 16)], -1, false));
    let input = snapshot(&[(4, 16)], 0, false);
    let step = core.apply(&input, || Err(VoicePipelineError::new(VoiceStage::Capture, "NO MICROPHONE")));
    assert!(step.capture.is_some());
    let output = core.output(1, step.reset_status, 4101, step.monitor_active, true, 0, 0);
    assert_eq!(output.phase, Phase::RecoverableSystemFailure);
    assert_eq!(output.routing_status, "SYSTEM FAILURE: HOLD PTT TO RETRY");
    assert!(output.printer.iter().any(|line| line == "OPERATOR SESSION FAILED: CAPTURE FAILED: NO MICROPHONE"));
}

#[test]
fn the_shift_clock_stops_at_five_and_the_level_meter_saturates() {
    let core = test_core();
    assert_eq!(core.output(1, "READY", 0, false, true, 60, 32767).clock_minutes, 9 * 60 + 60);
    assert_eq!(core.output(1, "READY", 0, false, true, 100_000, 0).clock_minutes, 17 * 60);
    assert_eq!(core.output(1, "READY", 0, false, true, 0, 32767).microphone_level, 255);
    assert_eq!(core.output(1, "READY", 0, false, true, 0, 16384).microphone_level, 127);
    assert_eq!(core.output(1, "READY", 0, false, true, 0, u32::MAX).microphone_level, 255);
}

/// Releases PTT on `cords` and hands the core back `result` as the finished
/// background session, then reads the cabinet once more.
fn release_and_finish(
    core: &mut MvpCore,
    cords: &[(usize, usize)],
    result: Result<OperatorSession, VoicePipelineError>,
) -> (CabinetOutput, CabinetOutput) {
    let input = snapshot(cords, -1, false);
    let step = core.apply(&input, || Ok(()));
    let queued = core.output(1, step.reset_status, 4101, step.monitor_active, true, 0, 0);
    match step.request {
        VoiceRequest::FinishSession { profile, caller, speaker_enabled } => {
            assert!(speaker_enabled);
            core.session_finished(profile, caller, result);
        }
        _ => panic!("releasing PTT after a capture asks for the session to finish"),
    }
    (queued, apply(core, snapshot(cords, -1, false)))
}

fn clinic_reply() -> Result<OperatorSession, VoicePipelineError> {
    Ok(OperatorSession {
        transcript: "My parent needs Kharad Clinic tonight.".into(),
        response: "Stay calm. Tell me their fever and I will prepare the intake desk.".into(),
    })
}

#[test]
fn releasing_ptt_runs_a_bounded_profile_grounded_voice_exchange() {
    let mut core = test_core();
    apply(&mut core, snapshot(&[(4, 16)], -1, false));
    let recording = apply(&mut core, snapshot(&[(4, 16)], 0, false));
    assert_eq!(recording.phase, Phase::ConnectedToOperator);
    assert_eq!(recording.routing_status, "PTT RECORDING: RELEASE TO SEND");

    let (_, response) = release_and_finish(&mut core, &[(4, 16)], clinic_reply());
    assert_eq!(response.phase, Phase::ConnectedToOperator);
    assert_eq!(
        response.routing_status,
        "OPERATOR SESSION ACTIVE: HOLD PTT TO CONTINUE OR CLEAR TO ROUTE"
    );
    assert!(response.speaker_active);
    assert!(response.printer.iter().any(|line| line == "OPERATOR: My parent needs Kharad Clinic tonight."));
    assert!(response.printer.iter().any(|line| line.starts_with("NILA DAS: Stay calm.")));
}

#[test]
fn every_active_subscriber_is_lit_and_can_hold_a_multi_turn_operator_session() {
    let mut core = test_core();
    let profiles: Vec<_> = [4101, 4102, 4103, 4104]
        .iter()
        .map(|&id| subscriber_profile(id).expect("an MVP subscriber"))
        .collect();
    let initial = apply(&mut core, snapshot(&[], -1, false));
    for profile in &profiles {
        assert!(initial.line_lamps[profile.line], "{} starts off-hook for the MVP", profile.identity);
    }
    for profile in &profiles {
        let cords = [(profile.line, OPERATOR_JACK)];
        apply(&mut core, snapshot(&cords, -1, false));
        apply(&mut core, snapshot(&cords, 0, false));
        let (_, first_response) = release_and_finish(&mut core, &cords, clinic_reply());
        assert_eq!(first_response.phase, Phase::ConnectedToOperator);

        apply(&mut core, snapshot(&cords, 0, false));
        let (_, second_response) = release_and_finish(&mut core, &cords, clinic_reply());
        assert_eq!(second_response.phase, Phase::ConnectedToOperator);
    }
}

#[test]
fn releasing_ptt_returns_promptly_while_voice_work_continues_in_the_background() {
    let mut core = test_core();
    apply(&mut core, snapshot(&[(4, OPERATOR_JACK)], -1, false));
    apply(&mut core, snapshot(&[(4, OPERATOR_JACK)], 0, false));
    let (queued, completed) = release_and_finish(
        &mut core,
        &[(4, OPERATOR_JACK)],
        Ok(OperatorSession { transcript: "Please connect me.".into(), response: "I am ready.".into() }),
    );
    assert_eq!(queued.phase, Phase::OperatorResponding);
    assert_eq!(queued.routing_status, "VOICE PROCESSING: CABINET REMAINS RESPONSIVE");
    assert_eq!(completed.phase, Phase::ConnectedToOperator);
}

#[test]
fn a_voice_stage_failure_stops_only_the_exchange_and_ptt_retries_it() {
    let mut core = test_core();
    apply(&mut core, snapshot(&[(4, 16)], -1, false));
    apply(&mut core, snapshot(&[(4, 16)], 0, false));
    let (_, failed) = release_and_finish(
        &mut core,
        &[(4, 16)],
        Err(VoicePipelineError::new(VoiceStage::Stt, "MICROPHONE INPUT WAS EMPTY")),
    );
    assert_eq!(failed.phase, Phase::RecoverableSystemFailure);
    assert_eq!(failed.routing_status, "SYSTEM FAILURE: HOLD PTT TO RETRY");
    assert!(failed
        .printer
        .iter()
        .any(|line| line == "OPERATOR SESSION FAILED: STT FAILED: MICROPHONE INPUT WAS EMPTY"));
    assert!(failed.line_lamps[4]);

    apply(&mut core, snapshot(&[(4, 16)], 0, false));
    let (_, retried) = release_and_finish(
        &mut core,
        &[(4, 16)],
        Ok(OperatorSession {
            transcript: "Please connect me now.".into(),
            response: "I am ready at the intake desk.".into(),
        }),
    );
    assert_eq!(retried.phase, Phase::ConnectedToOperator);
    assert_eq!(
        retried.routing_status,
        "OPERATOR SESSION ACTIVE: HOLD PTT TO CONTINUE OR CLEAR TO ROUTE"
    );
}

#[test]
fn reset_cancels_an_active_ptt_capture_before_replacing_the_core() {
    let mut core = test_core();
    apply(&mut core, snapshot(&[(4, 16)], -1, false));
    apply(&mut core, snapshot(&[(4, 16)], 0, false));
    let mut reset = snapshot(&[], -1, false);
    reset.reset = true;
    let step = core.apply(&reset, || panic!("a reset starts no capture"));
    assert!(matches!(step.request, VoiceRequest::CancelCapture));
    assert_eq!(step.reset_status, "RESET COMPLETE");
}
