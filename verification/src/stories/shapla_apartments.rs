//! Shapla Apartments: an emergency call that the operator answers by sending
//! police or medical help; the classified request decides the follow-up.

use vstd::prelude::*;
use crate::text::{ascii_lower, trimmed, trimmed_word_is};

verus! {

pub const CALLER_LINE: u8 = 1;
pub const PATIENCE_SECONDS: u64 = 0;
pub const PLACE: &'static str = "SHAPLA APARTMENTS";
pub const OPENING_DIALOGUE: &'static str = "My mother fell down in the bathroom. I don't know what to do.";
pub const EMS_CLASSIFIER_PROMPT: &'static str = r#"
The player is speaking to EMS.
Output exactly one lowercase word: success or failure.
Output success only when the player clearly asks EMS to send medical help to Shapla Apartments.
Output failure for every other request, vague statement, wrong location, or unrelated sentence.
Examples:
"Send an ambulance to Shapla Apartments" -> success.
"I am dispatching emergency medical services to Shapla Apartments" -> success.
"#;
pub const POLICE_CLASSIFIER_PROMPT: &'static str = r#"
The player is speaking to Police.
Output exactly one lowercase word: success or failure.
Output success only when the player clearly asks Police to send help to Shapla Apartments.
Output failure for every other request, vague statement, wrong location, or unrelated sentence.
Example: "Send officers to Shapla Apartments" -> success.
"#;
pub const DIALOGUE_PROMPT: &'static str = r#"
You are Nusrat Rahman, a senior architect, calling from SHAPLA APARTMENTS.
Generate only the caller's next spoken sentence.
The caller's opening statement is the configured opening dialogue.
If the operator asks for the location, answer exactly "Shapla Apartments".
Otherwise do not volunteer the location.
If the operator asks irrelevant personal questions such as your name, job, or pet,
respond as a frightened, irritated person: give one short natural rebuke and
redirect them to helping your mother. Do not provide an information dump.
Answer the exact question instead of repeating an earlier answer. For example:
Operator: What is your name? Caller: Nusrat. Please help my mother.
Operator: What do you do? Caller: I am a senior architect, but that does not matter right now.
Operator: What is your pet's name? Caller: I cannot think about that right now; please help her.
Do not invent facts, actions, outcomes, or story state.
Keep every response to one or two natural sentences.
Return only the spoken sentence.

Example:
Operator: Where should I send help?
Caller: Shapla Apartments.
"#;
pub const HAPPY_PROMPT: &'static str = r#"
You are Nusrat Rahman, a senior architect, calling from SHAPLA APARTMENTS.
Thank the Exchange Operator in detail for sending help. Say that the family is safe
and that you are sending the operator $100 as a thank-you.
Return only one or two natural spoken sentences, not an information dump.
"#;
pub const NEUTRAL_PROMPT: &'static str = r#"
You are Nusrat Rahman, a senior architect, calling from SHAPLA APARTMENTS.
Respond briefly and neutrally: say that things are under control and thank the operator
for checking. Do not invent projects, work, facts, or consequences.
Return only one or two natural spoken sentences, not an information dump.
"#;
pub const BAD_PROMPT: &'static str = r#"
You are Nusrat Rahman, a senior architect, calling from SHAPLA APARTMENTS.
Say directly to the operator: "You failed to help, and I will pursue you for the loss."
Do not invent legal details or amounts.
Return only the spoken sentence.
"#;

#[derive(Debug, Clone, Copy, PartialEq, Eq, Structural)]
pub enum Beat {
    EmergencyCall,
    HappyFollowup,
    NeutralFollowup,
    BadFollowup,
}

impl Beat {
    /// The caller opens only the emergency call with a fixed sentence.
    pub fn opening_dialogue(self) -> (opening: Option<&'static str>)
        ensures
            match opening {
                Some(text) => self == Beat::EmergencyCall && text@ == OPENING_DIALOGUE@,
                None => self != Beat::EmergencyCall,
            },
    {
        match self {
            Self::EmergencyCall => Some(OPENING_DIALOGUE),
            Self::HappyFollowup | Self::NeutralFollowup | Self::BadFollowup => None,
        }
    }

    pub fn dialogue_prompt(self) -> (prompt: &'static str)
        ensures
            prompt@ == match self {
                Beat::EmergencyCall => DIALOGUE_PROMPT@,
                Beat::HappyFollowup => HAPPY_PROMPT@,
                Beat::NeutralFollowup => NEUTRAL_PROMPT@,
                Beat::BadFollowup => BAD_PROMPT@,
            },
    {
        match self {
            Self::EmergencyCall => DIALOGUE_PROMPT,
            Self::HappyFollowup => HAPPY_PROMPT,
            Self::NeutralFollowup => NEUTRAL_PROMPT,
            Self::BadFollowup => BAD_PROMPT,
        }
    }
}

#[derive(Debug, Clone, Copy, PartialEq, Eq, Structural)]
pub enum Classification {
    Success,
    Failure,
}

impl Classification {
    /// Reads a classifier's word; anything but `success` is a failure.
    pub fn parse(value: &str) -> (classification: Self)
        ensures
            classification == (if ascii_lower(trimmed(value@)) == "success"@ {
                Classification::Success
            } else {
                Classification::Failure
            }),
    {
        if trimmed_word_is(value, "success") {
            Self::Success
        } else {
            Self::Failure
        }
    }

    pub fn as_str(self) -> (word: &'static str)
        ensures
            word@ == match self {
                Classification::Success => "success"@,
                Classification::Failure => "failure"@,
            },
    {
        match self {
            Self::Success => "success",
            Self::Failure => "failure",
        }
    }
}

/// The follow-up an emergency call leads to.
pub open spec fn follow_up(current: Beat, classification: Classification, police_held: bool, ems_held: bool) -> Option<Beat> {
    if current != Beat::EmergencyCall {
        None
    } else if classification == Classification::Success && police_held {
        Some(Beat::NeutralFollowup)
    } else if classification == Classification::Success && ems_held {
        Some(Beat::HappyFollowup)
    } else if classification == Classification::Failure && (police_held || ems_held) {
        Some(Beat::BadFollowup)
    } else {
        None
    }
}

/// Where the emergency call goes once a service was asked: police take
/// precedence over medical help, and a failed request goes badly.
pub fn next_beat(current: Beat, classification: Classification, police_held: bool, ems_held: bool) -> (next: Option<Beat>)
    ensures
        next == follow_up(current, classification, police_held, ems_held),
{
    if current != Beat::EmergencyCall {
        return None;
    }
    if classification == Classification::Success && police_held {
        return Some(Beat::NeutralFollowup);
    }
    if classification == Classification::Success && ems_held {
        return Some(Beat::HappyFollowup);
    }
    if classification == Classification::Failure && (police_held || ems_held) {
        return Some(Beat::BadFollowup);
    }
    None
}

/// The story moves only from the emergency call, and only once some service
/// was asked; with no service asked it waits.
pub proof fn law_follow_up_needs_a_service(current: Beat, classification: Classification, police_held: bool, ems_held: bool)
    ensures
        follow_up(current, classification, police_held, ems_held) is Some
            <==> (current == Beat::EmergencyCall && (police_held || ems_held)),
{
}

} // verus!
