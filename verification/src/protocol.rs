//! The wire protocol shared by the exchange backend and its frontends:
//! message types, switchboard ports, RTP L16 audio packets, tagged voice
//! datagrams and length-prefixed frames.

use vstd::prelude::*;

verus! {

pub const PROTOCOL_VERSION: u16 = 1;
pub const DEBUG_PROTOCOL_VERSION: u16 = 2;
pub const MAX_FRAME_SIZE: usize = 4194304;
pub const VOICE_PROTOCOL_VERSION: u16 = 2;
pub const VOICE_INPUT_SAMPLE_RATE: u32 = 16000;
pub const VOICE_INPUT_AUDIO_PACKET_SAMPLES: usize = 320;
pub const VOICE_AUDIO_SAMPLE_RATE: u32 = 24000;
pub const VOICE_AUDIO_PAYLOAD_TYPE: u8 = 96;
pub const VOICE_AUDIO_PACKET_SAMPLES: usize = 480;
pub const VOICE_STATUS_TAG: u8 = 1;
pub const VOICE_CONTROL_TAG: u8 = 2;
pub const VOICE_INPUT_AUDIO_TAG: u8 = 3;

/// A jack on the switchboard.
#[derive(Debug, Clone, Copy, PartialEq, Eq, Structural)]
pub enum PortId {
    Subscriber(u8),
    Operator,
    RingGenerator,
    Tap(u8),
}

/// One patch cord joining two jacks.
#[derive(Debug, Clone, Copy, PartialEq, Eq, Structural)]
pub struct CordConnection {
    pub first: PortId,
    pub second: PortId,
}

#[derive(Debug, Clone, Copy, PartialEq, Eq, Structural, Default)]
pub struct HeldControls {
    pub ptt: bool,
    pub police: bool,
    pub ems: bool,
    pub fire: bool,
    pub tap_1: bool,
    pub tap_2: bool,
}

#[derive(Debug, Clone, Copy, PartialEq, Eq, Structural, Default)]
pub struct TuningState {
    pub coarse: u16,
    pub fine: u16,
}

#[derive(Debug, Clone, PartialEq, Eq, Default)]
pub struct InputDebug {
    pub firmware_version: Option<String>,
    pub transport_connected: bool,
    pub device_faults: Vec<String>,
}

#[derive(Debug, Clone, PartialEq, Eq, Default)]
pub struct InputState {
    pub cord_topology: Vec<CordConnection>,
    pub held_controls: HeldControls,
    pub directory_digits: [u8; 4],
    pub crank_rotation_timestamps: [u64; 4],
    pub tuning: TuningState,
    pub debug: InputDebug,
}

#[derive(Debug, Clone, PartialEq, Eq)]
pub struct InputMessage {
    pub protocol_version: u16,
    pub input_sequence: u64,
    pub expected_state_revision: u64,
    pub input: InputState,
}

#[derive(Debug, Clone, Copy, PartialEq, Eq, Structural)]
pub enum GamePhase {
    Ready,
    Shift,
    Ended,
}

#[derive(Debug, Clone, Copy, PartialEq, Eq, Structural)]
pub enum ShiftPhase {
    Ready,
    Active,
    Settled,
}

#[derive(Debug, Clone, Copy, PartialEq, Eq, Structural)]
pub struct ClockState {
    pub shift: u8,
    pub elapsed_seconds: u32,
}

#[derive(Debug, Clone, PartialEq, Eq)]
pub struct DirectoryPage {
    pub page_number: u8,
    pub heading: String,
    pub lines: Vec<String>,
}

#[derive(Debug, Clone, Copy, PartialEq, Eq, Structural)]
pub struct CallStatus {
    pub caller_line: u8,
    pub requested_callee_line: u8,
    pub phase: CallPhase,
}

#[derive(Debug, Clone, Copy, PartialEq, Eq, Structural)]
pub enum ServiceKind {
    Police,
    Ems,
    Fire,
}

#[derive(Debug, Clone, Copy, PartialEq, Eq, Structural)]
pub enum ServiceCallPhase {
    Active,
    Completed,
}

#[derive(Debug, Clone, Copy, PartialEq, Eq, Structural)]
pub struct ServiceCallStatus {
    pub service: ServiceKind,
    pub phase: ServiceCallPhase,
}

#[derive(Debug, Clone, Copy, PartialEq, Eq, Structural)]
pub enum ServiceErrorKind {
    MissedRequiredServiceCall,
    MisroutedCall,
}

#[derive(Debug, Clone, Copy, PartialEq, Eq, Structural)]
pub struct ServiceErrorCount {
    pub kind: ServiceErrorKind,
    pub count: u32,
}

#[derive(Debug, Clone, Copy, PartialEq, Eq, Structural)]
pub enum CallPhase {
    Waiting,
    OperatorSession,
    AwaitingRouting,
    Held,
    Ringing,
    Connected,
    Completed,
    Missed,
    Misrouted,
    Failed,
}

#[derive(Debug, Clone, PartialEq, Eq)]
pub struct ShiftStatus {
    pub number: u8,
    pub phase: ShiftPhase,
    pub active_call_count: u8,
    pub completed_routings: u32,
    pub required_service_calls: u32,
    pub completed_service_calls: u32,
    pub service_errors: u32,
    pub service_error_counts: Vec<ServiceErrorCount>,
}

#[derive(Debug, Clone, PartialEq, Eq)]
pub struct PrinterEntry {
    pub entry_id: u64,
    pub text: String,
}

#[derive(Debug, Clone, PartialEq, Eq)]
pub struct BackendDiagnostic {
    pub code: String,
    pub message: String,
}

#[derive(Debug, Clone, PartialEq, Eq)]
pub struct OutputDebug {
    pub messages: Vec<BackendDiagnostic>,
}

#[derive(Debug, Clone, PartialEq, Eq)]
pub struct StateOutput {
    pub line_lamps: [bool; 16],
    pub game_phase: GamePhase,
    pub run_generation: u64,
    pub clock: ClockState,
    pub speaker_active: bool,
    pub interference_level: u8,
    pub tap_bridge_audio_active: bool,
    pub tuning: TuningState,
    pub directory_pages: Vec<DirectoryPage>,
    pub printer_output: Vec<PrinterEntry>,
    pub call: Option<CallStatus>,
    pub calls: Vec<CallStatus>,
    pub service_call: Option<ServiceCallStatus>,
    pub tap_bridge_monitoring: Option<u8>,
    pub shift: ShiftStatus,
    pub debug: OutputDebug,
}

#[derive(Debug, Clone, PartialEq, Eq)]
pub struct ProtocolError {
    pub code: String,
    pub message: String,
}

#[derive(Debug, Clone, PartialEq, Eq)]
pub struct StateMessage {
    pub protocol_version: u16,
    pub input_sequence: u64,
    pub accepted: bool,
    pub error: Option<ProtocolError>,
    pub state_revision: u64,
    pub output: StateOutput,
}

#[derive(Debug, Clone, PartialEq, Eq)]
pub enum DebugCommand {
    Snapshot,
    ResetRun,
    AdvanceTime { seconds: u32 },
    InjectCall { caller_line: u8, callee_line: u8 },
    ForceStoryEvent { event_id: String },
    SelectStoryPath { node_id: String },
    SetGodmode { enabled: bool },
    SetBypassRestrictions { enabled: bool },
    GetVoiceAudio { conversation_id: u64, kind: DebugAudioKind },
}

#[derive(Debug, Clone, Copy, PartialEq, Eq, Structural)]
pub enum DebugAudioKind {
    Capture,
    Tts,
}

#[derive(Debug, Clone, PartialEq, Eq)]
pub struct DebugRequest {
    pub protocol_version: u16,
    pub command: DebugCommand,
}

#[derive(Debug, Clone, PartialEq, Eq)]
pub struct DebugResponse {
    pub protocol_version: u16,
    pub accepted: bool,
    pub error: Option<ProtocolError>,
    pub snapshot: DebugSnapshot,
    pub audio: Option<DebugAudio>,
}

#[derive(Debug, Clone, PartialEq, Eq)]
pub struct DebugSnapshot {
    pub run: DebugRunState,
    pub shift: ShiftStatus,
    pub calls: Vec<CallStatus>,
    pub subscribers: Vec<DebugSubscriberState>,
    pub story: DebugStoryState,
    pub counters: DebugCounters,
    pub voice: DebugVoiceState,
    pub frontend: DebugFrontendState,
    pub recent_errors: Vec<BackendDiagnostic>,
}

#[derive(Debug, Clone, Copy, PartialEq, Eq, Structural)]
pub struct DebugRunState {
    pub number: u32,
    pub state_revision: u64,
    pub elapsed_seconds: u32,
    pub game_phase: GamePhase,
    pub godmode: bool,
    pub bypass_restrictions: bool,
}

#[derive(Debug, Clone, PartialEq, Eq)]
pub struct DebugSubscriberState {
    pub id: String,
    pub name: String,
    pub line: Option<u8>,
    pub status: String,
    pub availability: String,
    pub pressure: u32,
    pub current_goal: Option<String>,
    pub status_flags: Vec<String>,
}

#[derive(Debug, Clone, PartialEq, Eq)]
pub struct DebugStoryState {
    pub current_node_id: String,
    pub frontier: Vec<String>,
    pub current_story_beat: Option<String>,
    pub interference_reduced: bool,
    pub interference_level: u8,
    pub operator_knowledge: Vec<String>,
    pub graph: Vec<DebugStoryNode>,
}

#[derive(Debug, Clone, PartialEq, Eq)]
pub struct DebugStoryNode {
    pub id: String,
    pub kind: String,
    pub outgoing: Vec<String>,
}

#[derive(Debug, Clone, Copy, PartialEq, Eq, Structural)]
pub struct DebugCounters {
    pub completed_routings: u32,
    pub completed_service_calls: u32,
    pub required_service_calls: u32,
    pub service_errors: u32,
    pub active_call_count: u8,
}

#[derive(Debug, Clone, PartialEq, Eq)]
pub struct DebugVoiceState {
    pub status: Option<VoiceStatus>,
    pub speaker_active: bool,
    pub session_id: Option<u64>,
    pub turn_id: Option<u64>,
    pub transcript: Option<String>,
    pub response_text: Option<String>,
    pub conversations: Vec<DebugVoiceConversation>,
}

#[derive(Debug, Clone, PartialEq, Eq)]
pub struct DebugVoiceConversation {
    pub id: u64,
    pub session_id: u64,
    pub turn_id: u64,
    pub state_revision: u64,
    pub status: Option<VoiceStatus>,
    pub started_elapsed_seconds: u32,
    pub finished_elapsed_seconds: Option<u32>,
    pub captured_samples: u32,
    pub tts_samples: u32,
    pub transcript: Option<String>,
    pub response_text: Option<String>,
    pub error: Option<ProtocolError>,
}

#[derive(Debug, Clone, PartialEq, Eq)]
pub struct DebugAudio {
    pub sample_rate: u32,
    pub channels: u8,
    pub samples: Vec<i16>,
}

#[derive(Debug, Clone, PartialEq, Eq)]
pub struct DebugFrontendState {
    pub firmware_version: Option<String>,
    pub transport_connected: bool,
    pub device_faults: Vec<String>,
    pub last_input_json: Option<String>,
    pub last_output_json: Option<String>,
}

/// Progress of one voice turn.
#[derive(Debug, Clone, Copy, PartialEq, Eq, Structural)]
pub enum VoiceStatus {
    Ready,
    Listening,
    Transcribing,
    GeneratingResponse,
    Synthesizing,
    Playing,
    Completed,
    Failed,
    Cancelled,
}

impl VoiceStatus {
    /// Whether the turn has finished, one way or another.
    pub open spec fn spec_is_terminal(self) -> bool {
        self is Completed || self is Failed || self is Cancelled
    }

    /// A turn is over once it completed, failed or was cancelled.
    #[verifier::when_used_as_spec(spec_is_terminal)]
    pub fn is_terminal(self) -> (terminal: bool)
        ensures
            terminal == self.spec_is_terminal(),
    {
        match self {
            VoiceStatus::Completed | VoiceStatus::Failed | VoiceStatus::Cancelled => true,
            _ => false,
        }
    }
}

#[derive(Debug, Clone, PartialEq, Eq)]
pub struct VoiceStatusMessage {
    pub protocol_version: u16,
    pub session_id: u64,
    pub turn_id: u64,
    pub state_revision: u64,
    pub status: VoiceStatus,
    pub transcript: Option<String>,
    pub response_text: Option<String>,
    pub error: Option<ProtocolError>,
}

#[derive(Debug, Clone, Copy, PartialEq, Eq, Structural)]
pub enum VoiceControl {
    StartPtt,
    ReleasePtt,
    Cancel,
}

#[derive(Debug, Clone, PartialEq, Eq)]
pub struct VoiceControlMessage {
    pub protocol_version: u16,
    pub session_id: u64,
    pub turn_id: u64,
    pub state_revision: u64,
    pub voice_id: String,
    pub control: VoiceControl,
}

#[derive(Debug, Clone, PartialEq, Eq)]
pub struct VoiceInputAudioMessage {
    pub protocol_version: u16,
    pub session_id: u64,
    pub turn_id: u64,
    pub state_revision: u64,
    pub chunk_index: u32,
    pub complete: bool,
    pub samples: Vec<i16>,
}

} // verus!
