//! The offline authority of the cabinet demonstration: the hardcoded
//! subscribers, the directory terminal, and the state machine that walks two
//! fixed calls from an off-hook caller to a routed circuit.

use vstd::prelude::*;
use vstd::string::*;
use crate::text::{decimal, push_decimal, same_text};

verus! {

#[derive(Clone, Copy, Debug, PartialEq, Eq, Structural)]
pub enum Phase {
    IncomingCaller,
    ConnectedToOperator,
    OperatorResponding,
    RecoverableSystemFailure,
    AwaitingRouting,
    CalleeRinging,
    CircuitConnected { tapped: bool },
    DemonstrationComplete,
}

/// The label the cabinet shows for a phase.
pub open spec fn phase_label(phase: Phase) -> Seq<char> {
    match phase {
        Phase::IncomingCaller => "INCOMING CALLER"@,
        Phase::ConnectedToOperator => "CONNECTED TO OPERATOR"@,
        Phase::OperatorResponding => "OPERATOR RESPONSE IN PROGRESS"@,
        Phase::RecoverableSystemFailure => "RECOVERABLE SYSTEM FAILURE"@,
        Phase::AwaitingRouting => "AWAITING ROUTING"@,
        Phase::CalleeRinging => "CALLEE RINGING"@,
        Phase::CircuitConnected { tapped } => if tapped { "TAP BRIDGE CIRCUIT CONNECTED"@ } else { "DIRECT CIRCUIT CONNECTED"@ },
        Phase::DemonstrationComplete => "DEMONSTRATION COMPLETE"@,
    }
}

impl Phase {
    pub fn label(self) -> (label: &'static str)
        ensures
            label@ == phase_label(self),
    {
        match self {
            Self::IncomingCaller => "INCOMING CALLER",
            Self::ConnectedToOperator => "CONNECTED TO OPERATOR",
            Self::OperatorResponding => "OPERATOR RESPONSE IN PROGRESS",
            Self::RecoverableSystemFailure => "RECOVERABLE SYSTEM FAILURE",
            Self::AwaitingRouting => "AWAITING ROUTING",
            Self::CalleeRinging => "CALLEE RINGING",
            Self::CircuitConnected { tapped: false } => "DIRECT CIRCUIT CONNECTED",
            Self::CircuitConnected { tapped: true } => "TAP BRIDGE CIRCUIT CONNECTED",
            Self::DemonstrationComplete => "DEMONSTRATION COMPLETE",
        }
    }
}

/// A cord between two jacks.
#[derive(Clone, Copy, Debug, PartialEq, Eq, Structural)]
pub struct Cord(pub usize, pub usize);

/// One reading of the cabinet's controls.
#[derive(Clone, Debug, PartialEq, Eq)]
pub struct CabinetSnapshot {
    pub sequence: u64,
    pub cords: Vec<Cord>,
    pub active_action: i32,
    pub crank_complete: bool,
    pub directory_id: u16,
    pub speaker_enabled: bool,
    pub reset: bool,
}

/// What the cabinet shows after a reading.
#[derive(Clone, Debug, PartialEq, Eq)]
pub struct CabinetOutput {
    pub sequence: u64,
    pub clock_minutes: u16,
    pub phase: Phase,
    pub reset_status: &'static str,
    pub routing_status: &'static str,
    pub line_lamps: [bool; 16],
    pub directory: Vec<String>,
    pub printer: Vec<String>,
    pub monitor_active: bool,
    pub speaker_active: bool,
    pub microphone_level: u8,
}

/// Typed consequential changes available to the hardcoded subscribers.
#[derive(Clone, Copy, Debug, Hash, PartialEq, Eq, Structural)]
pub enum SubscriberAction {
    RequestKharadClinicRouting,
    AssessIncomingHouseholdCall,
    RequestSteelWorksRouting,
    ConfirmSteelWorksFreightStatus,
}

/// A subscriber authored for the demonstration: the directory terminal shows
/// the listing fields; dialogue and speech use the rest.
#[derive(Clone, Copy, Debug, PartialEq, Eq)]
pub struct SubscriberProfile {
    pub id: u16,
    pub line: usize,
    pub identity: &'static str,
    pub line_listing: &'static str,
    pub occupation_or_role: &'static str,
    pub identifying_note: &'static str,
    pub personality: &'static str,
    pub speaking_style: &'static str,
    pub immediate_goal: &'static str,
    pub authoritative_callee: Option<&'static str>,
    pub initial_perspective: &'static str,
    pub paired_relationship: &'static str,
    pub permitted_actions: [SubscriberAction; 1],
    pub local_voice_configuration: &'static str,
}

/// The four subscribers, in the order the calls use them: the first call is
/// from the first to the second, the second from the third to the fourth.
pub open spec fn profile(i: int) -> SubscriberProfile {
    if i == 0 {
        SubscriberProfile {
            id: 4101,
            line: 4,
            identity: "NILA DAS",
            line_listing: "FOUNDRY APARTMENTS",
            occupation_or_role: "Foundry Apartments resident",
            identifying_note: "Keeps a sick household together on a foundry wage.",
            personality: "Worried, informal, impatient under stress, and fiercely protective of her household.",
            speaking_style: "Plainspoken and quick; asks directly when frightened.",
            immediate_goal: "Reach Kharad Clinic to arrange urgent care for her parent.",
            authoritative_callee: Some("Kharad Clinic"),
            initial_perspective: "The clinic may be the only safe place left for her household tonight.",
            paired_relationship: "Seeking practical help from Dr. Sorin Vale at Kharad Clinic.",
            permitted_actions: [SubscriberAction::RequestKharadClinicRouting],
            local_voice_configuration: "pocket-tts:anna",
        }
    } else if i == 1 {
        SubscriberProfile {
            id: 4102,
            line: 1,
            identity: "DR. SORIN VALE",
            line_listing: "KHARAD CLINIC",
            occupation_or_role: "Clinic intake worker",
            identifying_note: "Intake desk worker trusted to make scarce clinic time count.",
            personality: "Calm, concise, and empathetic; focused on facts that let the clinic help.",
            speaking_style: "Even-paced, precise questions followed by a brief reassurance.",
            immediate_goal: "Assess Nila Das's household emergency and secure the next safe step.",
            authoritative_callee: None,
            initial_perspective: "Care is scarce, but a clear account can still secure the right response.",
            paired_relationship: "Clinic contact for Nila Das, whose household needs urgent help.",
            permitted_actions: [SubscriberAction::AssessIncomingHouseholdCall],
            local_voice_configuration: "pocket-tts:alba",
        }
    } else if i == 2 {
        SubscriberProfile {
            id: 4103,
            line: 0,
            identity: "ARUN MEREK",
            line_listing: "RAILWAY DISPATCH",
            occupation_or_role: "Railway Dispatch clerk",
            identifying_note: "Dispatch ledger clerk responsible for an urgent freight interruption.",
            personality: "Brisk, procedural, and time-conscious; hates leaving an operational risk unlogged.",
            speaking_style: "Uses dispatch terms, short clauses, and numbered facts.",
            immediate_goal: "Reach Steel Works to resolve an urgent freight movement problem.",
            authoritative_callee: Some("Steel Works"),
            initial_perspective: "A missed rail window becomes a citywide delay unless Steel Works decides now.",
            paired_relationship: "Needs a decision from Leela Voss at Steel Works before the rail window closes.",
            permitted_actions: [SubscriberAction::RequestSteelWorksRouting],
            local_voice_configuration: "pocket-tts:charles",
        }
    } else {
        SubscriberProfile {
            id: 4104,
            line: 11,
            identity: "LEELA VOSS",
            line_listing: "STEEL WORKS",
            occupation_or_role: "Steel Works manager",
            identifying_note: "Manager whose plant schedule can disrupt the city's freight plans.",
            personality: "Measured, guarded, and status-conscious; reluctant to disclose more than necessary.",
            speaking_style: "Formal and deliberate, answering only the question she considers necessary.",
            immediate_goal: "Protect Steel Works' schedule while resolving Railway Dispatch's urgent problem.",
            authoritative_callee: None,
            initial_perspective: "The plant's commitments matter, but an unmanaged freight problem could expose her authority.",
            paired_relationship: "The Steel Works decision-maker sought by Arun Merek at Railway Dispatch.",
            permitted_actions: [SubscriberAction::ConfirmSteelWorksFreightStatus],
            local_voice_configuration: "pocket-tts:vera",
        }
    }
}

fn profile_at(i: usize) -> (profile_value: SubscriberProfile)
    requires
        i < 4,
    ensures
        profile_value == profile(i as int),
{
    if i == 0 {
        SubscriberProfile {
            id: 4101,
            line: 4,
            identity: "NILA DAS",
            line_listing: "FOUNDRY APARTMENTS",
            occupation_or_role: "Foundry Apartments resident",
            identifying_note: "Keeps a sick household together on a foundry wage.",
            personality: "Worried, informal, impatient under stress, and fiercely protective of her household.",
            speaking_style: "Plainspoken and quick; asks directly when frightened.",
            immediate_goal: "Reach Kharad Clinic to arrange urgent care for her parent.",
            authoritative_callee: Some("Kharad Clinic"),
            initial_perspective: "The clinic may be the only safe place left for her household tonight.",
            paired_relationship: "Seeking practical help from Dr. Sorin Vale at Kharad Clinic.",
            permitted_actions: [SubscriberAction::RequestKharadClinicRouting],
            local_voice_configuration: "pocket-tts:anna",
        }
    } else if i == 1 {
        SubscriberProfile {
            id: 4102,
            line: 1,
            identity: "DR. SORIN VALE",
            line_listing: "KHARAD CLINIC",
            occupation_or_role: "Clinic intake worker",
            identifying_note: "Intake desk worker trusted to make scarce clinic time count.",
            personality: "Calm, concise, and empathetic; focused on facts that let the clinic help.",
            speaking_style: "Even-paced, precise questions followed by a brief reassurance.",
            immediate_goal: "Assess Nila Das's household emergency and secure the next safe step.",
            authoritative_callee: None,
            initial_perspective: "Care is scarce, but a clear account can still secure the right response.",
            paired_relationship: "Clinic contact for Nila Das, whose household needs urgent help.",
            permitted_actions: [SubscriberAction::AssessIncomingHouseholdCall],
            local_voice_configuration: "pocket-tts:alba",
        }
    } else if i == 2 {
        SubscriberProfile {
            id: 4103,
            line: 0,
            identity: "ARUN MEREK",
            line_listing: "RAILWAY DISPATCH",
            occupation_or_role: "Railway Dispatch clerk",
            identifying_note: "Dispatch ledger clerk responsible for an urgent freight interruption.",
            personality: "Brisk, procedural, and time-conscious; hates leaving an operational risk unlogged.",
            speaking_style: "Uses dispatch terms, short clauses, and numbered facts.",
            immediate_goal: "Reach Steel Works to resolve an urgent freight movement problem.",
            authoritative_callee: Some("Steel Works"),
            initial_perspective: "A missed rail window becomes a citywide delay unless Steel Works decides now.",
            paired_relationship: "Needs a decision from Leela Voss at Steel Works before the rail window closes.",
            permitted_actions: [SubscriberAction::RequestSteelWorksRouting],
            local_voice_configuration: "pocket-tts:charles",
        }
    } else {
        SubscriberProfile {
            id: 4104,
            line: 11,
            identity: "LEELA VOSS",
            line_listing: "STEEL WORKS",
            occupation_or_role: "Steel Works manager",
            identifying_note: "Manager whose plant schedule can disrupt the city's freight plans.",
            personality: "Measured, guarded, and status-conscious; reluctant to disclose more than necessary.",
            speaking_style: "Formal and deliberate, answering only the question she considers necessary.",
            immediate_goal: "Protect Steel Works' schedule while resolving Railway Dispatch's urgent problem.",
            authoritative_callee: None,
            initial_perspective: "The plant's commitments matter, but an unmanaged freight problem could expose her authority.",
            paired_relationship: "The Steel Works decision-maker sought by Arun Merek at Railway Dispatch.",
            permitted_actions: [SubscriberAction::ConfirmSteelWorksFreightStatus],
            local_voice_configuration: "pocket-tts:vera",
        }
    }
}

/// The profile with the four-digit directory identifier `id`.
pub open spec fn profile_with_id(id: u16) -> Option<SubscriberProfile> {
    if profile(0).id == id {
        Some(profile(0))
    } else if profile(1).id == id {
        Some(profile(1))
    } else if profile(2).id == id {
        Some(profile(2))
    } else if profile(3).id == id {
        Some(profile(3))
    } else {
        None
    }
}

/// The profile selected by a four-digit directory identifier; unknown
/// identifiers have none.
pub fn subscriber_profile(id: u16) -> (found: Option<SubscriberProfile>)
    ensures
        found == profile_with_id(id),
{
    let mut i: usize = 0;
    while i < 4
        invariant
            i <= 4,
            forall|k: int| 0 <= k < i ==> (#[trigger] profile(k)).id != id,
        decreases 4 - i,
    {
        let candidate = profile_at(i);
        if candidate.id == id {
            return Some(candidate);
        }
        i = i + 1;
    }
    None
}

/// The lines the directory terminal shows for an identifier.
pub open spec fn directory_lines(id: u16) -> Seq<Seq<char>> {
    match profile_with_id(id) {
        Some(p) => seq![p.identity@, decimal(p.id as nat) + " · "@ + p.line_listing@, p.occupation_or_role@, p.identifying_note@],
        None => seq!["NO RECORD"@],
    }
}

fn text(s: &str) -> (t: String)
    ensures
        t@ == s@,
{
    String::from_str(s)
}

/// The directory terminal's page for an identifier.
pub fn directory_page(id: u16) -> (page: Vec<String>)
    ensures
        page@.map_values(|line: String| line@) == directory_lines(id),
{
    let mut page: Vec<String> = Vec::new();
    match subscriber_profile(id) {
        Some(subscriber) => {
            page.push(text(subscriber.identity));
            let mut listing = String::new();
            push_decimal(&mut listing, subscriber.id as u64);
            listing.append(" · ");
            listing.append(subscriber.line_listing);
            page.push(listing);
            page.push(text(subscriber.occupation_or_role));
            page.push(text(subscriber.identifying_note));
        },
        None => {
            page.push(text("NO RECORD"));
        },
    }
    assert(page@.map_values(|line: String| line@) =~= directory_lines(id));
    page
}

/// Lines joined with single spaces, as `[String]::join(" ")` gives them.
pub open spec fn joined(lines: Seq<Seq<char>>) -> Seq<char>
    decreases lines.len(),
{
    if lines.len() == 0 {
        Seq::empty()
    } else if lines.len() == 1 {
        lines[0]
    } else {
        joined(lines.drop_last()) + " "@ + lines.last()
    }
}

/// The dialogue prompt for one operator turn with a subscriber.
pub open spec fn session_prompt(p: SubscriberProfile, recent: Seq<Seq<char>>, transcript: Seq<char>) -> Seq<char> {
    let routing = match p.authoritative_callee {
        Some(callee) => "If requesting routing, explicitly name "@ + callee@ + "."@,
        None => Seq::empty(),
    };
    "You are "@ + p.identity@ + ", "@ + p.occupation_or_role@ + ". Personality: "@ + p.personality@
        + " Speaking style: "@ + p.speaking_style@ + " Immediate goal: "@ + p.immediate_goal@ + " "@ + routing
        + " Relationship: "@ + p.paired_relationship@ + " Recent conversation: "@ + joined(recent)
        + " The Exchange Operator said: "@ + transcript
        + " Reply in character in one or two sentences, maximum 35 words. Do not invent facts or actions."@
}

impl SubscriberProfile {
    /// The prompt for the subscriber's next reply: who they are, what they
    /// want, the recent exchange, and what the operator just said.
    pub fn operator_session_prompt(&self, recent_dialogue: &[String], transcript: &str) -> (prompt: String)
        ensures
            prompt@ == session_prompt(*self, recent_dialogue@.map_values(|line: String| line@), transcript@),
    {
        let mut prompt = text("You are ");
        prompt.append(self.identity);
        prompt.append(", ");
        prompt.append(self.occupation_or_role);
        prompt.append(". Personality: ");
        prompt.append(self.personality);
        prompt.append(" Speaking style: ");
        prompt.append(self.speaking_style);
        prompt.append(" Immediate goal: ");
        prompt.append(self.immediate_goal);
        prompt.append(" ");
        match self.authoritative_callee {
            Some(callee) => {
                prompt.append("If requesting routing, explicitly name ");
                prompt.append(callee);
                prompt.append(".");
            },
            None => {},
        }
        prompt.append(" Relationship: ");
        prompt.append(self.paired_relationship);
        prompt.append(" Recent conversation: ");
        let ghost lines = recent_dialogue@.map_values(|line: String| line@);
        let ghost before = prompt@;
        let mut i: usize = 0;
        while i < recent_dialogue.len()
            invariant
                i <= recent_dialogue@.len(),
                lines == recent_dialogue@.map_values(|line: String| line@),
                prompt@ == before + joined(lines.subrange(0, i as int)),
            decreases recent_dialogue@.len() - i,
        {
            assert(lines.subrange(0, i + 1).drop_last() =~= lines.subrange(0, i as int));
            if i > 0 {
                prompt.append(" ");
            }
            prompt.append(recent_dialogue[i].as_str());
            proof {
                if i == 0 {
                    assert(joined(lines.subrange(0, 1)) == lines[0]);
                }
            }
            i = i + 1;
        }
        assert(lines.subrange(0, lines.len() as int) =~= lines);
        prompt.append(" The Exchange Operator said: ");
        prompt.append(transcript);
        prompt.append(" Reply in character in one or two sentences, maximum 35 words. Do not invent facts or actions.");
        prompt
    }
}

/// A completed operator session, ready for the cabinet's speaker and printer.
#[derive(Clone, Debug, PartialEq, Eq)]
pub struct OperatorSession {
    pub transcript: String,
    pub response: String,
}

/// The local stage that stopped an operator session.
#[derive(Clone, Copy, Debug, PartialEq, Eq, Structural)]
pub enum VoiceStage {
    Capture,
    Stt,
    Dialogue,
    Tts,
}

pub open spec fn stage_label(stage: VoiceStage) -> Seq<char> {
    match stage {
        VoiceStage::Capture => "CAPTURE"@,
        VoiceStage::Stt => "STT"@,
        VoiceStage::Dialogue => "DIALOGUE"@,
        VoiceStage::Tts => "TTS"@,
    }
}

impl VoiceStage {
    pub fn label(self) -> (label: &'static str)
        ensures
            label@ == stage_label(self),
    {
        match self {
            Self::Capture => "CAPTURE",
            Self::Stt => "STT",
            Self::Dialogue => "DIALOGUE",
            Self::Tts => "TTS",
        }
    }
}

/// A failed voice stage, with its message; the cabinet presents it as
/// retryable.
#[derive(Clone, Debug, PartialEq, Eq)]
pub struct VoicePipelineError {
    stage: VoiceStage,
    message: String,
}

/// How the cabinet presents a voice failure.
pub open spec fn presentation_of(stage: VoiceStage, message: Seq<char>) -> Seq<char> {
    stage_label(stage) + " FAILED: "@ + message
}

impl VoicePipelineError {
    pub closed spec fn stage_spec(&self) -> VoiceStage {
        self.stage
    }

    pub closed spec fn message_spec(&self) -> Seq<char> {
        self.message@
    }

    pub fn new(stage: VoiceStage, message: &str) -> (error: Self)
        ensures
            error.stage_spec() == stage,
            error.message_spec() == message@,
    {
        VoicePipelineError { stage, message: text(message) }
    }

    /// The stage that failed.
    pub fn stage(&self) -> (stage: VoiceStage)
        ensures
            stage == self.stage_spec(),
    {
        self.stage
    }

    /// What went wrong.
    pub fn message(&self) -> (message: &str)
        ensures
            message@ == self.message_spec(),
    {
        self.message.as_str()
    }

    pub fn presentation(&self) -> (text: String)
        ensures
            text@ == presentation_of(self.stage_spec(), self.message_spec()),
    {
        let mut shown = text(self.stage.label());
        shown.append(" FAILED: ");
        shown.append(self.message.as_str());
        shown
    }
}

// ---------------------------------------------------------------------------
// The state machine.

pub open spec fn divider() -> Seq<char> {
    "--------------------------------"@
}

/// The mathematical state of the cabinet core.
pub struct CoreState {
    pub call_index: int,
    pub phase: Phase,
    pub receipts: Seq<Seq<char>>,
    pub routing_status: Seq<char>,
    pub session_pending: bool,
    pub ptt_held: bool,
    pub capture_active: bool,
    pub session_profile: Option<SubscriberProfile>,
    pub caller_ready_to_route: bool,
    pub active_tap_action: i32,
}

/// At most two calls complete, the second ends the demonstration, and a
/// session is only pending while the operator's response is in progress.
pub open spec fn core_ok(s: CoreState) -> bool {
    &&& 0 <= s.call_index <= 2
    &&& (s.call_index == 2 <==> s.phase == Phase::DemonstrationComplete)
    &&& (s.session_pending ==> s.phase == Phase::OperatorResponding)
}

pub open spec fn initial_state() -> CoreState {
    CoreState {
        call_index: 0,
        phase: Phase::IncomingCaller,
        receipts: seq!["MINISTRY OF COMMUNICATIONS"@, "KHARAD PROVINCIAL EXCHANGE"@,
            "MVP CORE ONLINE — OFFLINE AUTHORITY READY"@, divider()],
        routing_status: "CALLER OFF-HOOK: CONNECT TO OPERATOR"@,
        session_pending: false,
        ptt_held: false,
        capture_active: false,
        session_profile: None,
        caller_ready_to_route: false,
        active_tap_action: -1i32,
    }
}

/// The caller and callee of the call in progress.
pub open spec fn pair_for(call_index: int) -> (SubscriberProfile, SubscriberProfile) {
    if call_index == 0 { (profile(0), profile(1)) } else { (profile(2), profile(3)) }
}

/// Some cord joins the two jacks.
pub open spec fn has_pair(cords: Seq<Cord>, left: int, right: int) -> bool {
    exists|i: int| 0 <= i < cords.len()
        && (((#[trigger] cords[i]).0 == left && cords[i].1 == right) || (cords[i].0 == right && cords[i].1 == left))
}

pub const OPERATOR_JACK: usize = 16;
pub const RING_JACK: usize = 17;

/// The first subscriber, in table order, corded to the operator.
pub open spec fn operator_profile_of(cords: Seq<Cord>) -> Option<SubscriberProfile> {
    if has_pair(cords, profile(0).line as int, OPERATOR_JACK as int) {
        Some(profile(0))
    } else if has_pair(cords, profile(1).line as int, OPERATOR_JACK as int) {
        Some(profile(1))
    } else if has_pair(cords, profile(2).line as int, OPERATOR_JACK as int) {
        Some(profile(2))
    } else if has_pair(cords, profile(3).line as int, OPERATOR_JACK as int) {
        Some(profile(3))
    } else {
        None
    }
}

/// The monitoring action of the tap bridge that joins caller and callee.
pub open spec fn tap_of(cords: Seq<Cord>, caller: int, callee: int) -> Option<i32> {
    if (has_pair(cords, caller, 18) && has_pair(cords, callee, 19)) || (has_pair(cords, caller, 19) && has_pair(cords, callee, 18)) {
        Some(4)
    } else if (has_pair(cords, caller, 20) && has_pair(cords, callee, 21)) || (has_pair(cords, caller, 21) && has_pair(cords, callee, 20)) {
        Some(5)
    } else {
        None
    }
}

/// A refused routing: the reason is printed once and shown.
pub open spec fn rejected(s: CoreState, reason: Seq<char>) -> CoreState {
    CoreState {
        receipts: if s.routing_status != reason { s.receipts.push(reason) } else { s.receipts },
        routing_status: reason,
        ..s
    }
}

/// A failed voice stage: printed, and retryable.
pub open spec fn failed(s: CoreState, stage: VoiceStage, message: Seq<char>) -> CoreState {
    CoreState {
        receipts: s.receipts.push("OPERATOR SESSION FAILED: "@ + presentation_of(stage, message))
            .push("HOLD PTT TO RETRY OR PRESS R TO RESET"@),
        phase: Phase::RecoverableSystemFailure,
        routing_status: "SYSTEM FAILURE: HOLD PTT TO RETRY"@,
        ..s
    }
}

pub open spec fn still_processing() -> Seq<char> {
    "VOICE PIPELINE IS STILL PROCESSING"@
}

/// A routed call: the receipt is printed and the next call comes up, or the
/// demonstration ends after the second.
pub open spec fn completed(s: CoreState, caller: SubscriberProfile, callee: SubscriberProfile, tap: Option<i32>) -> CoreState {
    let route = if tap is Some { "TAP BRIDGE"@ } else { "DIRECT"@ };
    let receipts = s.receipts.push("ROUTING RECEIPT: "@ + caller.line_listing@ + " → "@ + callee.line_listing@)
        .push("CIRCUIT: "@ + route + " — SUCCESS"@)
        .push(divider());
    let index = s.call_index + 1;
    let tap_action = match tap { Some(a) => a, None => -1i32 };
    if index == 2 {
        CoreState {
            receipts: receipts.push("MVP SUMMARY: BOTH CALLS COMPLETE"@).push("ALL FOUR SUBSCRIBERS EXERCISED"@),
            capture_active: false,
            active_tap_action: tap_action,
            call_index: index,
            routing_status: "DEMONSTRATION COMPLETE"@,
            phase: Phase::DemonstrationComplete,
            ..s
        }
    } else {
        CoreState {
            receipts,
            capture_active: false,
            active_tap_action: tap_action,
            call_index: index,
            routing_status: "ROUTING COMPLETE: CLEAR CIRCUIT"@,
            phase: Phase::CircuitConnected { tapped: tap is Some },
            ..s
        }
    }
}

/// What the runtime is asked to do with the voice pipeline.
#[derive(Clone, Copy, Debug, PartialEq, Eq)]
pub enum VoiceRequest {
    Nothing,
    /// Cancel any capture and start a fresh pipeline: the core was reset.
    CancelCapture,
    /// Finish the operator session in the background and report it back.
    FinishSession { profile: SubscriberProfile, caller: SubscriberProfile, speaker_enabled: bool },
}

/// The outcome of one cabinet reading.
#[derive(Clone, Debug, PartialEq, Eq)]
pub struct CoreStep {
    pub request: VoiceRequest,
    pub reset_status: &'static str,
    pub monitor_active: bool,
    /// What starting a capture gave, where the reading started one.
    pub capture: Option<Result<(), VoicePipelineError>>,
}

pub open spec fn connected_phase(p: Phase) -> bool {
    p == Phase::ConnectedToOperator || p == Phase::RecoverableSystemFailure
}

/// The operator hung up on a caller ready to be routed.
pub open spec fn hung_up(s: CoreState, input: CabinetSnapshot) -> CoreState {
    if s.phase == Phase::ConnectedToOperator && operator_profile_of(input.cords@) is None && s.caller_ready_to_route {
        CoreState { phase: Phase::AwaitingRouting, routing_status: "AWAITING ROUTING: RING CALLEE"@, ..s }
    } else {
        s
    }
}

/// A direct circuit was made before the callee was rung.
pub open spec fn premature_direct(s: CoreState, input: CabinetSnapshot) -> bool {
    let (caller, callee) = pair_for(s.call_index);
    hung_up(s, input).phase == Phase::AwaitingRouting && has_pair(input.cords@, caller.line as int, callee.line as int)
}

/// The state once the push-to-talk control was read.
pub open spec fn with_ptt(s: CoreState, input: CabinetSnapshot) -> CoreState {
    CoreState { ptt_held: input.active_action == 0, ..hung_up(s, input) }
}

pub open spec fn ptt_pressed(s: CoreState, input: CabinetSnapshot) -> bool {
    input.active_action == 0 && !hung_up(s, input).ptt_held
}

pub open spec fn ptt_released(s: CoreState, input: CabinetSnapshot) -> bool {
    input.active_action != 0 && hung_up(s, input).ptt_held
}

/// The reading starts an operator session by pressing push-to-talk.
pub open spec fn starts_session(s: CoreState, input: CabinetSnapshot) -> bool {
    &&& !input.reset
    &&& !premature_direct(s, input)
    &&& connected_phase(hung_up(s, input).phase)
    &&& operator_profile_of(input.cords@) is Some
    &&& ptt_pressed(s, input)
}

/// The reading asks the pipeline to start a capture.
pub open spec fn wants_capture(s: CoreState, input: CabinetSnapshot) -> bool {
    starts_session(s, input) && !s.session_pending
}

/// The state and request after the phase's own rule, given what starting a
/// capture gave.
pub open spec fn phase_rule(s: CoreState, input: CabinetSnapshot, capture: Result<(), VoicePipelineError>) -> (CoreState, VoiceRequest) {
    let (caller, callee) = pair_for(s.call_index);
    let cords = input.cords@;
    let connected_profile = operator_profile_of(cords);
    let connected = connected_profile is Some;
    let ringing_attempt = has_pair(cords, callee.line as int, RING_JACK as int) || input.crank_complete;
    let holding_ring = cords.len() == 1 && has_pair(cords, callee.line as int, RING_JACK as int);
    let valid_ringing = holding_ring && input.crank_complete;
    let direct = has_pair(cords, caller.line as int, callee.line as int);
    let valid_direct = cords.len() == 1 && direct;
    let tap = tap_of(cords, caller.line as int, callee.line as int);
    let tapped = tap is Some;
    let s2 = with_ptt(s, input);
    let p = s2.phase;
    if p == Phase::IncomingCaller && connected {
        (CoreState { phase: Phase::ConnectedToOperator, session_profile: connected_profile,
            routing_status: "OPERATOR CONNECTED: HOLD PTT"@, ..s2 }, VoiceRequest::Nothing)
    } else if connected_phase(p) && connected && ptt_pressed(s, input) {
        let s3 = CoreState { session_profile: connected_profile, ..s2 };
        if s3.session_pending {
            (failed(s3, VoiceStage::Dialogue, still_processing()), VoiceRequest::Nothing)
        } else {
            match capture {
                Ok(()) => (CoreState { capture_active: true, phase: Phase::ConnectedToOperator,
                    routing_status: "PTT RECORDING: RELEASE TO SEND"@, ..s3 }, VoiceRequest::Nothing),
                Err(e) => (failed(s3, e.stage_spec(), e.message_spec()), VoiceRequest::Nothing),
            }
        }
    } else if connected_phase(p) && ptt_released(s, input) && s2.capture_active {
        let speaker = match s2.session_profile { Some(x) => x, None => caller };
        let s3 = CoreState { capture_active: false, ..s2 };
        if s3.session_pending {
            (failed(s3, VoiceStage::Dialogue, still_processing()), VoiceRequest::Nothing)
        } else {
            (CoreState { session_pending: true, phase: Phase::OperatorResponding,
                routing_status: "VOICE PROCESSING: CABINET REMAINS RESPONSIVE"@, ..s3 },
                VoiceRequest::FinishSession { profile: speaker, caller, speaker_enabled: input.speaker_enabled })
        }
    } else if p == Phase::AwaitingRouting && valid_ringing {
        (CoreState { phase: Phase::CalleeRinging, routing_status: "CALLEE RINGING: MAKE DIRECT CIRCUIT"@, ..s2 }, VoiceRequest::Nothing)
    } else if p == Phase::AwaitingRouting && ringing_attempt {
        (rejected(s2, "RINGING REJECTED: INVALID CORD TOPOLOGY"@), VoiceRequest::Nothing)
    } else if p == Phase::CalleeRinging
        && ((direct && !valid_direct) || (cords.len() > 0 && !holding_ring && !valid_direct && !tapped)) {
        (rejected(s2, "DIRECT CIRCUIT REJECTED: INVALID CORD TOPOLOGY"@), VoiceRequest::Nothing)
    } else if p == Phase::CalleeRinging && (valid_direct || tapped) {
        (completed(s2, caller, callee, tap), VoiceRequest::Nothing)
    } else if p is CircuitConnected && !direct && !tapped {
        (CoreState { phase: Phase::IncomingCaller, routing_status: "NEXT CALLER OFF-HOOK: CONNECT TO OPERATOR"@, ..s2 }, VoiceRequest::Nothing)
    } else {
        (s2, VoiceRequest::Nothing)
    }
}

/// One cabinet reading: the next state, the request to the runtime, the
/// reset status shown, and whether the tap bridge monitors.
pub open spec fn transition(s: CoreState, input: CabinetSnapshot, capture: Result<(), VoicePipelineError>)
    -> (CoreState, VoiceRequest, Seq<char>, bool)
{
    if input.reset {
        (initial_state(), VoiceRequest::CancelCapture, "RESET COMPLETE"@, false)
    } else if premature_direct(s, input) {
        (rejected(hung_up(s, input), "DIRECT CIRCUIT REJECTED: RING CALLEE FIRST"@), VoiceRequest::Nothing, "READY"@, false)
    } else {
        let (next, request) = phase_rule(s, input, capture);
        (next, request, "READY"@,
            next.phase == Phase::CircuitConnected { tapped: true } && input.active_action == next.active_tap_action)
    }
}

/// A background operator session came back.
pub open spec fn finished(s: CoreState, speaker: SubscriberProfile, caller: SubscriberProfile,
    result: Result<OperatorSession, VoicePipelineError>) -> CoreState
{
    if !s.session_pending {
        s
    } else {
        let s1 = CoreState { session_pending: false, ..s };
        match result {
            Ok(exchange) => {
                let ready = speaker.line == caller.line;
                CoreState {
                    receipts: s1.receipts.push("OPERATOR: "@ + exchange.transcript@)
                        .push(speaker.identity@ + ": "@ + exchange.response@)
                        .push("VOICE: "@ + speaker.local_voice_configuration@ + " — LOCAL STT / DIALOGUE / TTS COMPLETE"@)
                        .push(divider()),
                    caller_ready_to_route: ready,
                    phase: Phase::ConnectedToOperator,
                    routing_status: if ready {
                        "OPERATOR SESSION ACTIVE: HOLD PTT TO CONTINUE OR CLEAR TO ROUTE"@
                    } else {
                        "OPERATOR SESSION ACTIVE: HOLD PTT TO CONTINUE"@
                    },
                    ..s1
                }
            },
            Err(e) => failed(s1, e.stage_spec(), e.message_spec()),
        }
    }
}

/// The shift clock: nine o'clock plus a minute per elapsed second, stopping at five.
pub open spec fn clock_for(elapsed_seconds: u64) -> int {
    540 + if elapsed_seconds < 480 { elapsed_seconds as int } else { 480 }
}

/// The lamps lit: every demonstrable subscriber's line until the demonstration ends.
pub open spec fn lamps_for(phase: Phase) -> Seq<bool> {
    Seq::new(16, |i: int| phase != Phase::DemonstrationComplete
        && (i == profile(0).line || i == profile(1).line || i == profile(2).line || i == profile(3).line))
}

/// A microphone peak scaled to a byte for the level meter.
pub open spec fn level_for(peak: u32) -> int {
    let scaled = if peak * 255 > u32::MAX { u32::MAX as int } else { peak * 255 };
    let normalized = scaled / 32767;
    if normalized < 255 { normalized } else { 255 }
}

/// The cabinet's offline authority for the demonstration.
pub struct MvpCore {
    call_index: usize,
    phase: Phase,
    receipts: Vec<String>,
    routing_status: &'static str,
    session_pending: bool,
    ptt_held: bool,
    capture_active: bool,
    operator_session_profile: Option<SubscriberProfile>,
    caller_ready_to_route: bool,
    active_tap_action: i32,
}

impl View for MvpCore {
    type V = CoreState;

    closed spec fn view(&self) -> CoreState {
        CoreState {
            call_index: self.call_index as int,
            phase: self.phase,
            receipts: self.receipts@.map_values(|r: String| r@),
            routing_status: self.routing_status@,
            session_pending: self.session_pending,
            ptt_held: self.ptt_held,
            capture_active: self.capture_active,
            session_profile: self.operator_session_profile,
            caller_ready_to_route: self.caller_ready_to_route,
            active_tap_action: self.active_tap_action,
        }
    }
}

/// Whether some cord joins the two jacks.
fn has_cord_pair(cords: &Vec<Cord>, left: usize, right: usize) -> (found: bool)
    ensures
        found == has_pair(cords@, left as int, right as int),
{
    let mut i: usize = 0;
    while i < cords.len()
        invariant
            i <= cords@.len(),
            forall|k: int| 0 <= k < i ==> !(((#[trigger] cords@[k]).0 == left && cords@[k].1 == right)
                || (cords@[k].0 == right && cords@[k].1 == left)),
        decreases cords@.len() - i,
    {
        let cord = cords[i];
        if (cord.0 == left && cord.1 == right) || (cord.0 == right && cord.1 == left) {
            assert(cords@[i as int] == cord);
            return true;
        }
        i = i + 1;
    }
    false
}

/// The first subscriber, in table order, corded to the operator.
fn operator_profile(cords: &Vec<Cord>) -> (found: Option<SubscriberProfile>)
    ensures
        found == operator_profile_of(cords@),
{
    let mut i: usize = 0;
    while i < 4
        invariant
            i <= 4,
            forall|k: int| 0 <= k < i ==> !has_pair(cords@, (#[trigger] profile(k)).line as int, OPERATOR_JACK as int),
        decreases 4 - i,
    {
        let candidate = profile_at(i);
        if has_cord_pair(cords, candidate.line, OPERATOR_JACK) {
            return Some(candidate);
        }
        i = i + 1;
    }
    None
}

/// The monitoring action of the tap bridge joining caller and callee.
fn tapped_bridge(cords: &Vec<Cord>, caller: usize, callee: usize) -> (action: Option<i32>)
    ensures
        action == tap_of(cords@, caller as int, callee as int),
{
    if (has_cord_pair(cords, caller, 18) && has_cord_pair(cords, callee, 19))
        || (has_cord_pair(cords, caller, 19) && has_cord_pair(cords, callee, 18)) {
        Some(4)
    } else if (has_cord_pair(cords, caller, 20) && has_cord_pair(cords, callee, 21))
        || (has_cord_pair(cords, caller, 21) && has_cord_pair(cords, callee, 20)) {
        Some(5)
    } else {
        None
    }
}

fn concat(a: &str, b: &str) -> (t: String)
    ensures
        t@ == a@ + b@,
{
    let mut t = text(a);
    t.append(b);
    t
}

impl MvpCore {
    /// A fresh core: the first caller is off-hook.
    pub fn new() -> (core: Self)
        ensures
            core@ == initial_state(),
            core_ok(core@),
    {
        let mut receipts: Vec<String> = Vec::new();
        receipts.push(text("MINISTRY OF COMMUNICATIONS"));
        receipts.push(text("KHARAD PROVINCIAL EXCHANGE"));
        receipts.push(text("MVP CORE ONLINE — OFFLINE AUTHORITY READY"));
        receipts.push(text("--------------------------------"));
        let core = MvpCore {
            call_index: 0,
            phase: Phase::IncomingCaller,
            receipts,
            routing_status: "CALLER OFF-HOOK: CONNECT TO OPERATOR",
            session_pending: false,
            ptt_held: false,
            capture_active: false,
            operator_session_profile: None,
            caller_ready_to_route: false,
            active_tap_action: -1,
        };
        assert(core@.receipts =~= initial_state().receipts);
        core
    }

    fn print(&mut self, line: String)
        ensures
            final(self)@ == (CoreState { receipts: old(self)@.receipts.push(line@), ..old(self)@ }),
    {
        self.receipts.push(line);
        assert(self@.receipts =~= old(self)@.receipts.push(line@));
    }

    fn reject_routing(&mut self, reason: &'static str)
        ensures
            final(self)@ == rejected(old(self)@, reason@),
    {
        if !same_text(self.routing_status, reason) {
            self.print(text(reason));
        }
        self.routing_status = reason;
    }

    fn record_voice_error(&mut self, error: VoicePipelineError)
        ensures
            final(self)@ == failed(old(self)@, error.stage_spec(), error.message_spec()),
    {
        let presentation = error.presentation();
        self.print(concat("OPERATOR SESSION FAILED: ", presentation.as_str()));
        self.print(text("HOLD PTT TO RETRY OR PRESS R TO RESET"));
        self.phase = Phase::RecoverableSystemFailure;
        self.routing_status = "SYSTEM FAILURE: HOLD PTT TO RETRY";
    }

    fn complete_call(&mut self, caller: SubscriberProfile, callee: SubscriberProfile, tap_action: Option<i32>)
        requires
            old(self)@.call_index < 2,
        ensures
            final(self)@ == completed(old(self)@, caller, callee, tap_action),
    {
        let tapped = tap_action.is_some();
        let route = if tapped { "TAP BRIDGE" } else { "DIRECT" };
        let mut receipt = text("ROUTING RECEIPT: ");
        receipt.append(caller.line_listing);
        receipt.append(" → ");
        receipt.append(callee.line_listing);
        self.print(receipt);
        let mut circuit = text("CIRCUIT: ");
        circuit.append(route);
        circuit.append(" — SUCCESS");
        self.print(circuit);
        self.print(text("--------------------------------"));
        self.capture_active = false;
        self.active_tap_action = match tap_action {
            Some(action) => action,
            None => -1,
        };
        self.call_index = self.call_index + 1;
        self.routing_status = "ROUTING COMPLETE: CLEAR CIRCUIT";
        if self.call_index == 2 {
            self.print(text("MVP SUMMARY: BOTH CALLS COMPLETE"));
            self.print(text("ALL FOUR SUBSCRIBERS EXERCISED"));
            self.routing_status = "DEMONSTRATION COMPLETE";
            self.phase = Phase::DemonstrationComplete;
        } else {
            self.phase = Phase::CircuitConnected { tapped };
        }
    }

    /// The caller and callee of the call in progress.
    fn current_pair(&self) -> (pair: (SubscriberProfile, SubscriberProfile))
        ensures
            pair == pair_for(self@.call_index),
    {
        if self.call_index == 0 {
            (profile_at(0), profile_at(1))
        } else {
            (profile_at(2), profile_at(3))
        }
    }
}

impl MvpCore {
    /// Applies one cabinet reading. Starting a capture is the one voice step
    /// the reading performs itself, through `begin_capture`; finishing a
    /// session and resetting the pipeline are handed back as the step's request.
    pub fn apply<F: FnOnce() -> Result<(), VoicePipelineError>>(&mut self, input: &CabinetSnapshot, begin_capture: F)
        -> (step: CoreStep)
        requires
            core_ok(old(self)@),
            call_requires(begin_capture, ()),
        ensures
            core_ok(final(self)@),
            step.capture is Some <==> wants_capture(old(self)@, *input),
            (final(self)@, step.request, step.reset_status@, step.monitor_active) == transition(
                old(self)@,
                *input,
                match step.capture { Some(r) => r, None => Ok(()) },
            ),
    {
        if input.reset {
            *self = MvpCore::new();
            return CoreStep { request: VoiceRequest::CancelCapture, reset_status: "RESET COMPLETE", monitor_active: false, capture: None };
        }
        let ghost start = self@;
        let (caller, callee) = self.current_pair();
        let connected_profile = operator_profile(&input.cords);
        let connected_to_operator = connected_profile.is_some();
        let ringing_attempt = has_cord_pair(&input.cords, callee.line, RING_JACK) || input.crank_complete;
        let holding_ring_connection = input.cords.len() == 1 && has_cord_pair(&input.cords, callee.line, RING_JACK);
        let valid_ringing_callee = holding_ring_connection && input.crank_complete;
        let direct = has_cord_pair(&input.cords, caller.line, callee.line);
        let valid_direct = input.cords.len() == 1 && direct;
        let tap_action = tapped_bridge(&input.cords, caller.line, callee.line);
        let tapped = tap_action.is_some();

        if self.phase == Phase::ConnectedToOperator && !connected_to_operator && self.caller_ready_to_route {
            self.phase = Phase::AwaitingRouting;
            self.routing_status = "AWAITING ROUTING: RING CALLEE";
        }
        assert(self@ == hung_up(start, *input));
        if self.phase == Phase::AwaitingRouting && direct {
            self.reject_routing("DIRECT CIRCUIT REJECTED: RING CALLEE FIRST");
            return CoreStep { request: VoiceRequest::Nothing, reset_status: "READY", monitor_active: false, capture: None };
        }

        let ptt_held = input.active_action == 0;
        let ptt_pressed = ptt_held && !self.ptt_held;
        let ptt_released = !ptt_held && self.ptt_held;
        self.ptt_held = ptt_held;
        assert(self@ == with_ptt(start, *input));
        let mut request = VoiceRequest::Nothing;
        let mut capture: Option<Result<(), VoicePipelineError>> = None;
        let phase = self.phase;
        let connected_phase = phase == Phase::ConnectedToOperator || phase == Phase::RecoverableSystemFailure;
        if phase == Phase::IncomingCaller && connected_to_operator {
            self.phase = Phase::ConnectedToOperator;
            self.operator_session_profile = connected_profile;
            self.routing_status = "OPERATOR CONNECTED: HOLD PTT";
        } else if connected_phase && connected_to_operator && ptt_pressed {
            self.operator_session_profile = connected_profile;
            if self.session_pending {
                self.record_voice_error(VoicePipelineError::new(VoiceStage::Dialogue, "VOICE PIPELINE IS STILL PROCESSING"));
            } else {
                let started = begin_capture();
                match &started {
                    Ok(()) => {
                        self.capture_active = true;
                        self.phase = Phase::ConnectedToOperator;
                        self.routing_status = "PTT RECORDING: RELEASE TO SEND";
                    },
                    Err(error) => {
                        self.record_voice_error(error.clone_error());
                    },
                }
                capture = Some(started);
            }
        } else if connected_phase && ptt_released && self.capture_active {
            let speaker = match self.operator_session_profile {
                Some(profile) => profile,
                None => caller,
            };
            self.capture_active = false;
            if self.session_pending {
                self.record_voice_error(VoicePipelineError::new(VoiceStage::Dialogue, "VOICE PIPELINE IS STILL PROCESSING"));
            } else {
                self.session_pending = true;
                self.phase = Phase::OperatorResponding;
                self.routing_status = "VOICE PROCESSING: CABINET REMAINS RESPONSIVE";
                request = VoiceRequest::FinishSession { profile: speaker, caller, speaker_enabled: input.speaker_enabled };
            }
        } else if phase == Phase::AwaitingRouting && valid_ringing_callee {
            self.phase = Phase::CalleeRinging;
            self.routing_status = "CALLEE RINGING: MAKE DIRECT CIRCUIT";
        } else if phase == Phase::AwaitingRouting && ringing_attempt {
            self.reject_routing("RINGING REJECTED: INVALID CORD TOPOLOGY");
        } else if phase == Phase::CalleeRinging
            && ((direct && !valid_direct) || (input.cords.len() > 0 && !holding_ring_connection && !valid_direct && !tapped)) {
            self.reject_routing("DIRECT CIRCUIT REJECTED: INVALID CORD TOPOLOGY");
        } else if phase == Phase::CalleeRinging && (valid_direct || tapped) {
            self.complete_call(caller, callee, tap_action);
        } else if (match phase { Phase::CircuitConnected { .. } => true, _ => false }) && !direct && !tapped {
            self.phase = Phase::IncomingCaller;
            self.routing_status = "NEXT CALLER OFF-HOOK: CONNECT TO OPERATOR";
        }
        let monitor_active = self.phase == (Phase::CircuitConnected { tapped: true }) && input.active_action == self.active_tap_action;
        CoreStep { request, reset_status: "READY", monitor_active, capture }
    }
}

impl VoicePipelineError {
    /// A copy of the error.
    pub fn clone_error(&self) -> (copy: Self)
        ensures
            copy.stage_spec() == self.stage_spec(),
            copy.message_spec() == self.message_spec(),
    {
        VoicePipelineError { stage: self.stage, message: self.message.clone() }
    }
}

impl MvpCore {
    /// One cabinet reading end to end: the step of `apply`, then what the
    /// cabinet shows for it, with the reading's sequence number, directory
    /// number and speaker switch, the shift clock at `elapsed_seconds` and
    /// the level of `microphone_peak`.
    pub fn apply_reading<F: FnOnce() -> Result<(), VoicePipelineError>>(
        &mut self,
        input: &CabinetSnapshot,
        begin_capture: F,
        elapsed_seconds: u64,
        microphone_peak: u32,
    ) -> (result: (CoreStep, CabinetOutput))
        requires
            core_ok(old(self)@),
            call_requires(begin_capture, ()),
        ensures
            core_ok(final(self)@),
            result.0.capture is Some <==> wants_capture(old(self)@, *input),
            (final(self)@, result.0.request, result.0.reset_status@, result.0.monitor_active) == transition(
                old(self)@,
                *input,
                match result.0.capture { Some(r) => r, None => Ok(()) },
            ),
            result.1.sequence == input.sequence,
            result.1.clock_minutes == clock_for(elapsed_seconds),
            result.1.phase == final(self)@.phase,
            result.1.reset_status == result.0.reset_status,
            result.1.routing_status@ == final(self)@.routing_status,
            result.1.line_lamps@ == lamps_for(final(self)@.phase),
            result.1.directory@.map_values(|line: String| line@) == directory_lines(input.directory_id),
            result.1.printer@.map_values(|line: String| line@) == final(self)@.receipts,
            result.1.monitor_active == result.0.monitor_active,
            result.1.speaker_active == input.speaker_enabled,
            result.1.microphone_level == level_for(microphone_peak),
    {
        let step = self.apply(input, begin_capture);
        let shown = self.output(
            input.sequence,
            step.reset_status,
            input.directory_id,
            step.monitor_active,
            input.speaker_enabled,
            elapsed_seconds,
            microphone_peak,
        );
        (step, shown)
    }
}

impl MvpCore {
    /// Takes back a background operator session; without one pending, nothing
    /// changes.
    pub fn session_finished(
        &mut self,
        profile: SubscriberProfile,
        caller: SubscriberProfile,
        result: Result<OperatorSession, VoicePipelineError>,
    )
        requires
            core_ok(old(self)@),
        ensures
            core_ok(final(self)@),
            final(self)@ == finished(old(self)@, profile, caller, result),
    {
        if !self.session_pending {
            return;
        }
        self.session_pending = false;
        match result {
            Ok(exchange) => {
                self.print(concat("OPERATOR: ", exchange.transcript.as_str()));
                let mut said = text(profile.identity);
                said.append(": ");
                said.append(exchange.response.as_str());
                self.print(said);
                let mut voice = text("VOICE: ");
                voice.append(profile.local_voice_configuration);
                voice.append(" — LOCAL STT / DIALOGUE / TTS COMPLETE");
                self.print(voice);
                self.print(text("--------------------------------"));
                self.caller_ready_to_route = profile.line == caller.line;
                self.phase = Phase::ConnectedToOperator;
                self.routing_status = if self.caller_ready_to_route {
                    "OPERATOR SESSION ACTIVE: HOLD PTT TO CONTINUE OR CLEAR TO ROUTE"
                } else {
                    "OPERATOR SESSION ACTIVE: HOLD PTT TO CONTINUE"
                };
            },
            Err(error) => self.record_voice_error(error),
        }
    }

    /// The shift clock for the seconds elapsed since the core started.
    fn clock_minutes(elapsed_seconds: u64) -> (minutes: u16)
        ensures
            minutes == clock_for(elapsed_seconds),
    {
        let elapsed: u16 = if elapsed_seconds < 480 { elapsed_seconds as u16 } else { 480 };
        540 + elapsed
    }

    /// A microphone peak scaled to the level meter's byte.
    fn normalize_microphone_level(peak: u32) -> (level: u8)
        ensures
            level == level_for(peak),
    {
        let product: u64 = peak as u64 * 255;
        let scaled: u64 = if product > 0xffff_ffff { 0xffff_ffff } else { product };
        let normalized = scaled / 32767;
        if normalized < 255 { normalized as u8 } else { 255 }
    }

    /// What the cabinet shows: the state, the directory page asked for, the
    /// printer, the shift clock and the microphone level.
    pub fn output(
        &self,
        sequence: u64,
        reset_status: &'static str,
        directory_id: u16,
        monitor_active: bool,
        speaker_active: bool,
        elapsed_seconds: u64,
        microphone_peak: u32,
    ) -> (shown: CabinetOutput)
        ensures
            shown.sequence == sequence,
            shown.clock_minutes == clock_for(elapsed_seconds),
            shown.phase == self@.phase,
            shown.reset_status == reset_status,
            shown.routing_status@ == self@.routing_status,
            shown.line_lamps@ == lamps_for(self@.phase),
            shown.directory@.map_values(|line: String| line@) == directory_lines(directory_id),
            shown.printer@.map_values(|line: String| line@) == self@.receipts,
            shown.monitor_active == monitor_active,
            shown.speaker_active == speaker_active,
            shown.microphone_level == level_for(microphone_peak),
    {
        let mut lamps = [false; 16];
        if self.phase != Phase::DemonstrationComplete {
            let mut k: usize = 0;
            while k < 4
                invariant
                    k <= 4,
                    self.phase != Phase::DemonstrationComplete,
                    lamps@.len() == 16,
                    forall|i: int| 0 <= i < 16 ==> lamps@[i] == (exists|m: int| 0 <= m < k && #[trigger] profile(m).line == i),
                decreases 4 - k,
            {
                let line = profile_at(k).line;
                lamps.set(line, true);
                proof {
                    assert forall|i: int| 0 <= i < 16 implies lamps@[i] == (exists|m: int| 0 <= m < k + 1 && #[trigger] profile(m).line == i) by {
                        if i == line as int {
                            assert(profile(k as int).line == i);
                        }
                    }
                }
                k = k + 1;
            }
            assert forall|i: int| 0 <= i < 16 implies lamps@[i] == lamps_for(self@.phase)[i] by {
                if lamps@[i] {
                    let m = choose|m: int| 0 <= m < 4 && #[trigger] profile(m).line == i;
                    assert(0 <= m < 4);
                }
                if lamps_for(self@.phase)[i] {
                    if i == profile(0).line { assert(profile(0).line == i); }
                    else if i == profile(1).line { assert(profile(1).line == i); }
                    else if i == profile(2).line { assert(profile(2).line == i); }
                    else { assert(profile(3).line == i); }
                }
            }
        }
        assert(lamps@ =~= lamps_for(self@.phase));
        let mut printer: Vec<String> = Vec::new();
        let mut i: usize = 0;
        while i < self.receipts.len()
            invariant
                i <= self.receipts@.len(),
                printer@.len() == i,
                forall|k: int| 0 <= k < i ==> (#[trigger] printer@[k])@ == self.receipts@[k]@,
            decreases self.receipts@.len() - i,
        {
            printer.push(text(self.receipts[i].as_str()));
            i = i + 1;
        }
        assert(printer@.map_values(|line: String| line@) =~= self.receipts@.map_values(|line: String| line@));
        CabinetOutput {
            sequence,
            clock_minutes: Self::clock_minutes(elapsed_seconds),
            phase: self.phase,
            reset_status,
            routing_status: self.routing_status,
            line_lamps: lamps,
            directory: directory_page(directory_id),
            printer,
            monitor_active,
            speaker_active,
            microphone_level: Self::normalize_microphone_level(microphone_peak),
        }
    }
}

// ---------------------------------------------------------------------------
// Laws of the cabinet core.

/// `later` keeps every line of `earlier`, in order, at its start.
pub open spec fn extends(earlier: Seq<Seq<char>>, later: Seq<Seq<char>>) -> bool {
    earlier.len() <= later.len() && later.subrange(0, earlier.len() as int) == earlier
}

proof fn lemma_push_extends(a: Seq<Seq<char>>, line: Seq<char>)
    ensures
        extends(a, a.push(line)),
{
    assert(a.push(line).subrange(0, a.len() as int) =~= a);
}

proof fn lemma_extends_transitive(a: Seq<Seq<char>>, b: Seq<Seq<char>>, c: Seq<Seq<char>>)
    requires
        extends(a, b),
        extends(b, c),
    ensures
        extends(a, c),
{
    assert(c.subrange(0, a.len() as int) =~= b.subrange(0, a.len() as int));
}

proof fn lemma_push2_extends(a: Seq<Seq<char>>, x: Seq<char>, y: Seq<char>)
    ensures
        extends(a, a.push(x).push(y)),
{
    lemma_push_extends(a, x);
    lemma_push_extends(a.push(x), y);
    lemma_extends_transitive(a, a.push(x), a.push(x).push(y));
}

proof fn lemma_completed_extends(s: CoreState, caller: SubscriberProfile, callee: SubscriberProfile, tap: Option<i32>)
    ensures
        extends(s.receipts, completed(s, caller, callee, tap).receipts),
{
    let route = if tap is Some { "TAP BRIDGE"@ } else { "DIRECT"@ };
    let r1 = s.receipts.push("ROUTING RECEIPT: "@ + caller.line_listing@ + " → "@ + callee.line_listing@);
    let r2 = r1.push("CIRCUIT: "@ + route + " — SUCCESS"@);
    let r3 = r2.push(divider());
    lemma_push2_extends(s.receipts, "ROUTING RECEIPT: "@ + caller.line_listing@ + " → "@ + callee.line_listing@, "CIRCUIT: "@ + route + " — SUCCESS"@);
    lemma_push_extends(r2, divider());
    lemma_extends_transitive(s.receipts, r2, r3);
    lemma_push2_extends(r3, "MVP SUMMARY: BOTH CALLS COMPLETE"@, "ALL FOUR SUBSCRIBERS EXERCISED"@);
    lemma_extends_transitive(s.receipts, r3, r3.push("MVP SUMMARY: BOTH CALLS COMPLETE"@).push("ALL FOUR SUBSCRIBERS EXERCISED"@));
}

/// The printer is a log: apart from a reset, a reading only ever adds lines
/// after the ones already printed.
pub proof fn law_printer_only_grows(s: CoreState, input: CabinetSnapshot, capture: Result<(), VoicePipelineError>)
    requires
        !input.reset,
    ensures
        extends(s.receipts, transition(s, input, capture).0.receipts),
{
    let h = hung_up(s, input);
    assert(h.receipts == s.receipts);
    lemma_push_extends(s.receipts, "DIRECT CIRCUIT REJECTED: RING CALLEE FIRST"@);
    lemma_push_extends(s.receipts, "RINGING REJECTED: INVALID CORD TOPOLOGY"@);
    lemma_push_extends(s.receipts, "DIRECT CIRCUIT REJECTED: INVALID CORD TOPOLOGY"@);
    assert(s.receipts.subrange(0, s.receipts.len() as int) =~= s.receipts);
    let still = "OPERATOR SESSION FAILED: "@ + presentation_of(VoiceStage::Dialogue, still_processing());
    lemma_push2_extends(s.receipts, still, "HOLD PTT TO RETRY OR PRESS R TO RESET"@);
    match capture {
        Err(e) => {
            lemma_push2_extends(s.receipts, "OPERATOR SESSION FAILED: "@ + presentation_of(e.stage_spec(), e.message_spec()),
                "HOLD PTT TO RETRY OR PRESS R TO RESET"@);
        },
        Ok(()) => {},
    }
    let (caller, callee) = pair_for(s.call_index);
    lemma_completed_extends(with_ptt(s, input), caller, callee, tap_of(input.cords@, caller.line as int, callee.line as int));
}

/// Taking back a finished session only adds printer lines.
pub proof fn law_finished_session_only_prints(s: CoreState, speaker: SubscriberProfile, caller: SubscriberProfile,
    result: Result<OperatorSession, VoicePipelineError>)
    ensures
        extends(s.receipts, finished(s, speaker, caller, result).receipts),
{
    assert(s.receipts.subrange(0, s.receipts.len() as int) =~= s.receipts);
    match result {
        Ok(exchange) => {
            let a = s.receipts.push("OPERATOR: "@ + exchange.transcript@).push(speaker.identity@ + ": "@ + exchange.response@);
            lemma_push2_extends(s.receipts, "OPERATOR: "@ + exchange.transcript@, speaker.identity@ + ": "@ + exchange.response@);
            lemma_push2_extends(a, "VOICE: "@ + speaker.local_voice_configuration@ + " — LOCAL STT / DIALOGUE / TTS COMPLETE"@, divider());
            lemma_extends_transitive(s.receipts, a, a.push("VOICE: "@ + speaker.local_voice_configuration@ + " — LOCAL STT / DIALOGUE / TTS COMPLETE"@).push(divider()));
        },
        Err(e) => {
            lemma_push2_extends(s.receipts, "OPERATOR SESSION FAILED: "@ + presentation_of(e.stage_spec(), e.message_spec()),
                "HOLD PTT TO RETRY OR PRESS R TO RESET"@);
        },
    }
}

/// A reset always returns the core to its initial state, so resetting twice
/// shows the same as resetting once.
pub proof fn law_reset_restarts(s: CoreState, input: CabinetSnapshot, capture: Result<(), VoicePipelineError>)
    requires
        input.reset,
    ensures
        transition(s, input, capture).0 == initial_state(),
        transition(transition(s, input, capture).0, input, capture) == transition(s, input, capture),
        transition(s, input, capture).1 == VoiceRequest::CancelCapture,
{
}

/// A direct circuit made while the callee has not been rung is refused, and
/// the routing waits.
pub proof fn law_ring_before_direct(s: CoreState, input: CabinetSnapshot, capture: Result<(), VoicePipelineError>)
    requires
        !input.reset,
        premature_direct(s, input),
    ensures
        transition(s, input, capture).0.phase == Phase::AwaitingRouting,
        transition(s, input, capture).0.routing_status == "DIRECT CIRCUIT REJECTED: RING CALLEE FIRST"@,
{
}

/// The tap bridge monitors only a tapped circuit.
pub proof fn law_monitoring_needs_the_tap_bridge(s: CoreState, input: CabinetSnapshot, capture: Result<(), VoicePipelineError>)
    requires
        transition(s, input, capture).3,
    ensures
        transition(s, input, capture).0.phase == (Phase::CircuitConnected { tapped: true }),
{
}

/// Calls complete one at a time, each from a ringing callee.
pub proof fn law_calls_complete_one_at_a_time(s: CoreState, input: CabinetSnapshot, capture: Result<(), VoicePipelineError>)
    requires
        !input.reset,
        core_ok(s),
    ensures
        transition(s, input, capture).0.call_index == s.call_index
            || (transition(s, input, capture).0.call_index == s.call_index + 1 && s.phase == Phase::CalleeRinging),
{
}

/// The caller and the callee are corded to the two jacks `a` and `b` of a
/// tap bridge, one to each, either way round.
pub open spec fn bridged(cords: Seq<Cord>, caller: int, callee: int, a: int, b: int) -> bool {
    (has_pair(cords, caller, a) && has_pair(cords, callee, b)) || (has_pair(cords, caller, b) && has_pair(cords, callee, a))
}

/// While the callee rings, bridging the caller and the callee through either
/// tap bridge (jacks 18 and 19, or jacks 20 and 21) with no direct cord
/// between them completes the call over the bridge: the call count goes up,
/// the receipt names the tap bridge, the first call's circuit is a tapped
/// connection, and the monitoring action is that of the bridge used: 4 for
/// the first, 5 for the second.
pub proof fn law_either_tap_bridge_completes_a_ringing_call(
    s: CoreState,
    input: CabinetSnapshot,
    capture: Result<(), VoicePipelineError>,
    second: bool,
)
    requires
        core_ok(s),
        s.phase == Phase::CalleeRinging,
        !input.reset,
        !has_pair(input.cords@, pair_for(s.call_index).0.line as int, pair_for(s.call_index).1.line as int),
        if second {
            &&& bridged(input.cords@, pair_for(s.call_index).0.line as int, pair_for(s.call_index).1.line as int, 20, 21)
            &&& !bridged(input.cords@, pair_for(s.call_index).0.line as int, pair_for(s.call_index).1.line as int, 18, 19)
        } else {
            bridged(input.cords@, pair_for(s.call_index).0.line as int, pair_for(s.call_index).1.line as int, 18, 19)
        },
    ensures
        transition(s, input, capture).0.call_index == s.call_index + 1,
        transition(s, input, capture).0.active_tap_action == (if second { 5i32 } else { 4i32 }),
        transition(s, input, capture).0.receipts.len() >= s.receipts.len() + 3,
        transition(s, input, capture).0.receipts[s.receipts.len() as int + 1] == "CIRCUIT: TAP BRIDGE — SUCCESS"@,
        s.call_index == 0 ==> transition(s, input, capture).0.phase == (Phase::CircuitConnected { tapped: true }),
        transition(s, input, capture).1 == VoiceRequest::Nothing,
{
    reveal_strlit("TAP BRIDGE");
    reveal_strlit("CIRCUIT: ");
    reveal_strlit(" — SUCCESS");
    reveal_strlit("CIRCUIT: TAP BRIDGE — SUCCESS");
    assert("CIRCUIT: "@ + "TAP BRIDGE"@ + " — SUCCESS"@ =~= "CIRCUIT: TAP BRIDGE — SUCCESS"@);
}

/// While the callee rings, a single cord from the caller to the callee
/// completes the call directly: the call count goes up, the receipt names a
/// direct circuit, no tap bridge monitors, and the first call's circuit is an
/// untapped connection.
pub proof fn law_a_single_direct_cord_completes_a_ringing_call(
    s: CoreState,
    input: CabinetSnapshot,
    capture: Result<(), VoicePipelineError>,
)
    requires
        core_ok(s),
        s.phase == Phase::CalleeRinging,
        !input.reset,
        input.cords@.len() == 1,
        has_pair(input.cords@, pair_for(s.call_index).0.line as int, pair_for(s.call_index).1.line as int),
    ensures
        transition(s, input, capture).0.call_index == s.call_index + 1,
        transition(s, input, capture).0.active_tap_action == -1i32,
        transition(s, input, capture).0.receipts.len() >= s.receipts.len() + 3,
        transition(s, input, capture).0.receipts[s.receipts.len() as int + 1] == "CIRCUIT: DIRECT — SUCCESS"@,
        s.call_index == 0 ==> transition(s, input, capture).0.phase == (Phase::CircuitConnected { tapped: false }),
        !transition(s, input, capture).3,
{
    reveal_strlit("DIRECT");
    reveal_strlit("CIRCUIT: ");
    reveal_strlit(" — SUCCESS");
    reveal_strlit("CIRCUIT: DIRECT — SUCCESS");
    assert("CIRCUIT: "@ + "DIRECT"@ + " — SUCCESS"@ =~= "CIRCUIT: DIRECT — SUCCESS"@);
    let (caller, callee) = pair_for(s.call_index);
    let c = input.cords@[0];
    assert(has_pair(input.cords@, caller.line as int, callee.line as int));
    assert(!has_pair(input.cords@, caller.line as int, 18) && !has_pair(input.cords@, caller.line as int, 19)
        && !has_pair(input.cords@, caller.line as int, 20) && !has_pair(input.cords@, caller.line as int, 21));
}

/// A call awaiting routing starts ringing when the only cord joins the callee
/// to the ring generator's jack and the crank has been turned; with the crank
/// not turned it is not rung.
pub proof fn law_the_crank_rings_the_callee(
    s: CoreState,
    input: CabinetSnapshot,
    capture: Result<(), VoicePipelineError>,
)
    requires
        core_ok(s),
        s.phase == Phase::AwaitingRouting,
        !input.reset,
        input.cords@.len() == 1,
        has_pair(input.cords@, pair_for(s.call_index).1.line as int, RING_JACK as int),
    ensures
        input.crank_complete ==> transition(s, input, capture).0.phase == Phase::CalleeRinging,
        !input.crank_complete ==> transition(s, input, capture).0.phase == Phase::AwaitingRouting,
        transition(s, input, capture).0.call_index == s.call_index,
{
    let (caller, callee) = pair_for(s.call_index);
    assert(!has_pair(input.cords@, caller.line as int, callee.line as int));
    assert(operator_profile_of(input.cords@) is None);
}

} // verus!
