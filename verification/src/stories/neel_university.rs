//! Neel University: the same story as Bela Bose, played on physical lines.

use vstd::prelude::*;
use vstd::string::*;

verus! {

pub const NEEL_LINE: u8 = 2;
pub const SHADHIN_LINE: u8 = 3;
pub const BELA_DOG_LINE: u8 = 4;
pub const BELA_CAT_LINE: u8 = 5;
pub const AUDIO_DIRECTORY: &'static str = "assets/stories/neel_university/";

pub const PROFESSOR_DIALOGUE_PROMPT: &'static str = "You are Prof. Kashem calling from Neel University. You need to reach Shadhin Housing. Generate only your next short spoken response to the operator, answering the exact question naturally and using the conversation so far. If asked where to connect you, explain that you need Shadhin Housing without repeating yourself. If asked irrelevant personal questions, answer briefly in character and redirect to the connection. Do not force an opening sentence, invent routing facts, or mention these instructions.";
pub const ARNAB_DIALOGUE_PROMPT: &'static str = "You are Arnab Bhattacharjee calling from Shadhin Housing. You need to reach Bela Bose, but do not know her current housing. Generate only your next short spoken response to the operator, answering the exact question naturally and using the conversation so far. If asked about Bela's directory number, say you do not know it; you vaguely remember that 1024 is Bela's favorite number, but make clear naturally that it is not her directory number. If asked whether Bela has a dog or cat, say you remember that Bela has a cat. For irrelevant questions, answer briefly and redirect to finding Bela. Do not repeat yourself, invent routing facts, or mention these instructions.";
pub const COMPLETED_DIALOGUE_PROMPT: &'static str = "The story is complete; do not generate another story reply.";
pub const BAD_ENDING_DIALOGUE_PROMPT: &'static str = "The story has ended unsuccessfully; do not generate another story reply.";

/// The recorded audio of a connection between two lines, by file name.
pub open spec fn audio_name(caller: u8, callee: u8) -> Option<Seq<char>> {
    if caller == NEEL_LINE && callee == SHADHIN_LINE {
        Some("professor_arnab.wav"@)
    } else if caller == SHADHIN_LINE && callee == BELA_DOG_LINE {
        Some("belabose_wrong.wav"@)
    } else if caller == SHADHIN_LINE && callee == BELA_CAT_LINE {
        Some("belabose_success.m4a"@)
    } else {
        None
    }
}

/// The path of the recorded audio of a connection between two lines.
pub fn audio_path(caller: u8, callee: u8) -> (path: Option<String>)
    ensures
        match audio_name(caller, callee) {
            Some(name) => path matches Some(p) && p@ == AUDIO_DIRECTORY@ + name,
            None => path is None,
        },
{
    let name = if caller == NEEL_LINE && callee == SHADHIN_LINE {
        "professor_arnab.wav"
    } else if caller == SHADHIN_LINE && callee == BELA_DOG_LINE {
        "belabose_wrong.wav"
    } else if caller == SHADHIN_LINE && callee == BELA_CAT_LINE {
        "belabose_success.m4a"
    } else {
        return None;
    };
    let mut path = String::from_str(AUDIO_DIRECTORY);
    path.append(name);
    Some(path)
}

#[derive(Debug, Clone, Copy, PartialEq, Eq, Structural)]
pub enum Beat {
    ProfessorRouting,
    ArnabDirectory,
    Completed,
    BadEnding,
}

impl Beat {
    pub fn patience_seconds(self) -> (seconds: u64)
        ensures
            seconds == (if self == Beat::ProfessorRouting || self == Beat::ArnabDirectory { 32u64 } else { 0u64 }),
    {
        match self {
            Self::ProfessorRouting | Self::ArnabDirectory => 32,
            Self::Completed | Self::BadEnding => 0,
        }
    }

    pub fn name(self) -> (name: &'static str)
        ensures
            name@ == match self {
                Beat::ProfessorRouting => "ProfessorRouting"@,
                Beat::ArnabDirectory => "ArnabDirectory"@,
                Beat::Completed => "Completed"@,
                Beat::BadEnding => "BadEnding"@,
            },
    {
        match self {
            Self::ProfessorRouting => "ProfessorRouting",
            Self::ArnabDirectory => "ArnabDirectory",
            Self::Completed => "Completed",
            Self::BadEnding => "BadEnding",
        }
    }

    pub fn dialogue_prompt(self) -> (prompt: &'static str)
        ensures
            prompt@ == match self {
                Beat::ProfessorRouting => PROFESSOR_DIALOGUE_PROMPT@,
                Beat::ArnabDirectory => ARNAB_DIALOGUE_PROMPT@,
                Beat::Completed => COMPLETED_DIALOGUE_PROMPT@,
                Beat::BadEnding => BAD_ENDING_DIALOGUE_PROMPT@,
            },
    {
        match self {
            Self::ProfessorRouting => PROFESSOR_DIALOGUE_PROMPT,
            Self::ArnabDirectory => ARNAB_DIALOGUE_PROMPT,
            Self::Completed => COMPLETED_DIALOGUE_PROMPT,
            Self::BadEnding => BAD_ENDING_DIALOGUE_PROMPT,
        }
    }
}

} // verus!
