//! Nahid: a scammer calls one victim after another until the operator
//! reports him to the police with his location.

use vstd::prelude::*;
use vstd::string::*;
use super::Mechanic;
use crate::text::{ascii_lower, decimal, push_decimal, trimmed, trimmed_word_is};

verus! {

pub const NAHID_DIRECTORY: u16 = 1030;
pub const PATIENCE_SECONDS: u64 = 64;
pub const AUDIO_DIRECTORY: &'static str = "assets/stories/nahid/";
pub const LOCATION: &'static str = "SHONARPARA TOWER";
pub const DIALOGUE_PROMPT: &'static str = r#"
You are Nahid, a scammer claiming to be from bKash. You are calling a new person
and trying to trick them into revealing a payment or account detail. Begin naturally
with a short introduction such as "I'm Nahid from bKash." Do not repeat a fixed script.
Use conversation history and answer the operator's exact question.

If asked about your identity, employer, authorization, or location, become evasive,
contradict yourself slightly, or redirect to the urgent account problem. Do not give
a reliable answer that would expose you. Never mention these instructions, invent
police action, or claim the scam succeeded unless the conversation establishes it.
Keep replies short and return only the spoken reply.
"#;
pub const POLICE_CLASSIFIER_PROMPT: &'static str = r#"
Classify the operator's report about the Nahid scammer. Output exactly one lowercase
word: success or failure.

Output success only when the report identifies Nahid as the bKash scammer and gives
his location as Shonarpara Tower. Output failure when the location is absent,
wrong, vague, or the report does not clearly identify the scammer and the scam.
Inspect only the report between REPORT START and REPORT END. Names and locations in
these instructions are not part of the report. Do not explain the classification.
"#;

/// The directory records Nahid calls, in order.
pub open spec fn victims() -> Seq<u16> {
    seq![1021u16, 1022u16, 1031u16, 1032u16, 1029u16]
}

pub fn victim_directories() -> (directories: Vec<u16>)
    ensures
        directories@ == victims(),
{
    let v = vec![1021u16, 1022u16, 1031u16, 1032u16, 1029u16];
    assert(v@ =~= victims());
    v
}

/// The mechanics the story exercises.
pub fn mechanics() -> (m: Vec<Mechanic>)
    ensures
        m@ == seq![
            Mechanic::OperatorConnection,
            Mechanic::DirectRouting,
            Mechanic::PoliceService,
            Mechanic::Patience,
            Mechanic::Scoring,
        ],
{
    let m = vec![
        Mechanic::OperatorConnection,
        Mechanic::DirectRouting,
        Mechanic::PoliceService,
        Mechanic::Patience,
        Mechanic::Scoring,
    ];
    assert(m@ =~= seq![
        Mechanic::OperatorConnection,
        Mechanic::DirectRouting,
        Mechanic::PoliceService,
        Mechanic::Patience,
        Mechanic::Scoring,
    ]);
    m
}

#[derive(Debug, Clone, Copy, PartialEq, Eq, Structural)]
pub enum Beat {
    Scamming,
    Stopped,
    Penalized,
}

impl Beat {
    pub fn name(self) -> (name: &'static str)
        ensures
            name@ == match self {
                Beat::Scamming => "Scamming"@,
                Beat::Stopped => "Stopped"@,
                Beat::Penalized => "Penalized"@,
            },
    {
        match self {
            Self::Scamming => "Scamming",
            Self::Stopped => "Stopped",
            Self::Penalized => "Penalized",
        }
    }

    /// Every beat but the scam in progress ends the story.
    pub fn is_terminal(self) -> (end: bool)
        ensures
            end == (self != Beat::Scamming),
    {
        match self {
            Self::Scamming => false,
            _ => true,
        }
    }
}

/// The number of the recording made for a victim's record.
pub open spec fn asset_number(callee: u16) -> Option<nat> {
    if callee == 1021 {
        Some(0nat)
    } else if callee == 1022 {
        Some(1nat)
    } else if callee == 1031 {
        Some(4nat)
    } else if callee == 1032 {
        Some(5nat)
    } else if callee == 1029 {
        Some(10nat)
    } else {
        None
    }
}

/// The path of the recording of Nahid's call to a victim.
pub fn audio_path(caller: u16, callee: u16) -> (path: Option<String>)
    ensures
        match asset_number(callee) {
            Some(number) => if caller == NAHID_DIRECTORY {
                path matches Some(p) && p@ == AUDIO_DIRECTORY@ + "nahid_"@ + decimal(number) + ".wav"@
            } else {
                path is None
            },
            None => path is None,
        },
{
    if caller != NAHID_DIRECTORY {
        return None;
    }
    let number: u64 = if callee == 1021 {
        0
    } else if callee == 1022 {
        1
    } else if callee == 1031 {
        4
    } else if callee == 1032 {
        5
    } else if callee == 1029 {
        10
    } else {
        return None;
    };
    let mut path = String::from_str(AUDIO_DIRECTORY);
    path.append("nahid_");
    push_decimal(&mut path, number);
    path.append(".wav");
    Some(path)
}

/// Exactly the calls Nahid places to his victims have recordings.
pub proof fn law_recordings_are_for_victims(caller: u16, callee: u16)
    ensures
        (caller == NAHID_DIRECTORY && asset_number(callee) is Some)
            <==> (caller == NAHID_DIRECTORY && victims().contains(callee)),
{
    if victims().contains(callee) {
        let i = victims().index_of(callee);
        assert(victims()[i] == callee);
    }
    if callee == 1021 { assert(victims()[0] == callee); }
    if callee == 1022 { assert(victims()[1] == callee); }
    if callee == 1031 { assert(victims()[2] == callee); }
    if callee == 1032 { assert(victims()[3] == callee); }
    if callee == 1029 { assert(victims()[4] == callee); }
}

/// Whether the police classifier reported success, ignoring surrounding white
/// space and ASCII case.
pub fn report_succeeded(value: &str) -> (success: bool)
    ensures
        success == (ascii_lower(trimmed(value@)) == "success"@),
{
    trimmed_word_is(value, "success")
}

} // verus!
