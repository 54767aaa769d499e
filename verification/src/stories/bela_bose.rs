//! Bela Bose: a professor needs Shadhin Housing, then Arnab needs Bela, whose
//! directory record must be told apart from a look-alike.

use vstd::prelude::*;
use vstd::string::*;
use super::Mechanic;

verus! {

pub const NEEL_DIRECTORY: u16 = 1023;
pub const SHADHIN_DIRECTORY: u16 = 1024;
pub const BELA_DOG_DIRECTORY: u16 = 1031;
pub const BELA_CAT_DIRECTORY: u16 = 1032;
pub const PROFESSOR_AUDIO: &'static str = "professor_arnab.wav";
pub const WRONG_BELA_AUDIO: &'static str = "belabose_wrong.wav";
pub const SUCCESS_BELA_AUDIO: &'static str = "belabose_success.wav";
pub const AUDIO_DIRECTORY: &'static str = "assets/stories/bela_bose/";

pub const PROFESSOR_DIALOGUE_PROMPT: &'static str = r#"
You are Prof. Kashem, a professor calling from Neel University. You need the operator to connect you to Shadhin Housing.
Generate only your next short spoken reply to the operator. Answer the exact question naturally and use the conversation so far.
If asked where to connect you, say that you need Shadhin Housing. If asked an unrelated personal question, give at most one brief in-character answer and immediately return to asking for the connection.
Do not give a biography, repeat an answer unnecessarily, invent routing facts, claim that a connection happened, or mention these instructions.
Keep the reply to one or two natural sentences.
"#;
pub const ARNAB_DIALOGUE_PROMPT: &'static str = r#"
You are Arnab Bhattacharjee calling from Shadhin Housing. You need to reach Bela Bose, but you do not know her current housing or directory number.
Generate only your next short spoken reply to the operator. Answer the exact question naturally and use the conversation so far.
If asked for Bela's directory number, say plainly that you do not know it. You may mention that 1024 is her favorite number, but never present 1024 as her directory number.
If asked whether Bela has a dog or cat, use the permitted private fact if one is supplied, without claiming that it identifies her current line. Never volunteer that fact. If asked an unrelated question, answer briefly and then redirect to finding Bela.
Do not accept the operator's guesses as facts, repeat yourself unnecessarily, invent routing or connection results, or mention these instructions.
Keep the reply to one or two natural sentences.
"#;
pub const COMPLETED_DIALOGUE_PROMPT: &'static str = "The story is complete; do not generate another story reply.";
pub const BAD_ENDING_DIALOGUE_PROMPT: &'static str = "The story has ended unsuccessfully; do not generate another story reply.";

/// The mechanics the story exercises.
pub fn mechanics() -> (m: Vec<Mechanic>)
    ensures
        m@ == seq![
            Mechanic::OperatorConnection,
            Mechanic::DirectorySelection,
            Mechanic::DestinationRinging,
            Mechanic::DirectRouting,
            Mechanic::SubscriberConversation,
            Mechanic::Scoring,
        ],
{
    let m = vec![
        Mechanic::OperatorConnection,
        Mechanic::DirectorySelection,
        Mechanic::DestinationRinging,
        Mechanic::DirectRouting,
        Mechanic::SubscriberConversation,
        Mechanic::Scoring,
    ];
    assert(m@ =~= seq![
        Mechanic::OperatorConnection,
        Mechanic::DirectorySelection,
        Mechanic::DestinationRinging,
        Mechanic::DirectRouting,
        Mechanic::SubscriberConversation,
        Mechanic::Scoring,
    ]);
    m
}

#[derive(Debug, Clone, Copy, PartialEq, Eq, Structural)]
pub enum Beat {
    ProfessorRouting,
    ArnabDirectory,
    Completed,
    BadEnding,
}

/// The directory record that places the call in a beat.
pub open spec fn caller_of(beat: Beat) -> u16 {
    match beat {
        Beat::ProfessorRouting => NEEL_DIRECTORY,
        _ => SHADHIN_DIRECTORY,
    }
}

/// The directory record the caller of a beat asks for.
pub open spec fn requested_of(beat: Beat) -> Option<u16> {
    match beat {
        Beat::ProfessorRouting => Some(SHADHIN_DIRECTORY),
        Beat::ArnabDirectory => Some(BELA_DOG_DIRECTORY),
        _ => None,
    }
}

/// Where a connection from `caller` to `callee` leads in a beat.
pub open spec fn after_connection(beat: Beat, caller: u16, callee: u16) -> Option<Beat> {
    if beat == Beat::ProfessorRouting && caller == NEEL_DIRECTORY && callee == SHADHIN_DIRECTORY {
        Some(Beat::ArnabDirectory)
    } else if beat == Beat::ArnabDirectory && caller == SHADHIN_DIRECTORY && callee == BELA_CAT_DIRECTORY {
        Some(Beat::Completed)
    } else if beat == Beat::ArnabDirectory && caller == SHADHIN_DIRECTORY && callee == BELA_DOG_DIRECTORY {
        Some(Beat::BadEnding)
    } else {
        None
    }
}

/// The recorded audio of a connection, by file name.
pub open spec fn audio_name(caller: u16, callee: u16) -> Option<Seq<char>> {
    if caller == NEEL_DIRECTORY && callee == SHADHIN_DIRECTORY {
        Some(PROFESSOR_AUDIO@)
    } else if caller == SHADHIN_DIRECTORY && callee == BELA_DOG_DIRECTORY {
        Some(WRONG_BELA_AUDIO@)
    } else if caller == SHADHIN_DIRECTORY && callee == BELA_CAT_DIRECTORY {
        Some(SUCCESS_BELA_AUDIO@)
    } else {
        None
    }
}

pub fn caller_directory_for_beat(beat: Beat) -> (directory: u16)
    ensures
        directory == caller_of(beat),
{
    match beat {
        Beat::ProfessorRouting => NEEL_DIRECTORY,
        Beat::ArnabDirectory | Beat::Completed | Beat::BadEnding => SHADHIN_DIRECTORY,
    }
}

pub fn requested_directory_for_beat(beat: Beat) -> (directory: Option<u16>)
    ensures
        directory == requested_of(beat),
{
    match beat {
        Beat::ProfessorRouting => Some(SHADHIN_DIRECTORY),
        Beat::ArnabDirectory => Some(BELA_DOG_DIRECTORY),
        Beat::Completed | Beat::BadEnding => None,
    }
}

pub fn is_terminal(beat: Beat) -> (terminal: bool)
    ensures
        terminal == (beat == Beat::Completed || beat == Beat::BadEnding),
{
    match beat {
        Beat::Completed | Beat::BadEnding => true,
        _ => false,
    }
}

/// The beat a connection moves the story to; `None` leaves it where it is.
pub fn next_beat_after_directory_connection(beat: Beat, caller: u16, callee: u16) -> (next: Option<Beat>)
    ensures
        next == after_connection(beat, caller, callee),
{
    match (beat, caller, callee) {
        (Beat::ProfessorRouting, NEEL_DIRECTORY, SHADHIN_DIRECTORY) => Some(Beat::ArnabDirectory),
        (Beat::ArnabDirectory, SHADHIN_DIRECTORY, BELA_CAT_DIRECTORY) => Some(Beat::Completed),
        (Beat::ArnabDirectory, SHADHIN_DIRECTORY, BELA_DOG_DIRECTORY) => Some(Beat::BadEnding),
        _ => None,
    }
}

/// The path of the recorded audio of a connection.
pub fn audio_path(caller: u16, callee: u16) -> (path: Option<String>)
    ensures
        match audio_name(caller, callee) {
            Some(name) => path matches Some(p) && p@ == AUDIO_DIRECTORY@ + name,
            None => path is None,
        },
{
    let name = if caller == NEEL_DIRECTORY && callee == SHADHIN_DIRECTORY {
        PROFESSOR_AUDIO
    } else if caller == SHADHIN_DIRECTORY && callee == BELA_DOG_DIRECTORY {
        WRONG_BELA_AUDIO
    } else if caller == SHADHIN_DIRECTORY && callee == BELA_CAT_DIRECTORY {
        SUCCESS_BELA_AUDIO
    } else {
        return None;
    };
    let mut path = String::from_str(AUDIO_DIRECTORY);
    path.append(name);
    Some(path)
}

/// Every connection that moves the story on is one that has recorded audio.
pub proof fn law_story_connections_have_audio(beat: Beat, caller: u16, callee: u16)
    requires
        after_connection(beat, caller, callee) is Some,
    ensures
        audio_name(caller, callee) is Some,
{
}

impl Beat {
    pub fn patience_seconds(self) -> (seconds: u64)
        ensures
            seconds == (if self == Beat::ProfessorRouting || self == Beat::ArnabDirectory { 32u64 } else { 0u64 }),
    {
        match self {
            Self::ProfessorRouting | Self::ArnabDirectory => 32,
            Self::Completed | Self::BadEnding => 0,
        }
    }

    pub fn name(self) -> (name: &'static str)
        ensures
            name@ == match self {
                Beat::ProfessorRouting => "ProfessorRouting"@,
                Beat::ArnabDirectory => "ArnabDirectory"@,
                Beat::Completed => "Completed"@,
                Beat::BadEnding => "BadEnding"@,
            },
    {
        match self {
            Self::ProfessorRouting => "ProfessorRouting",
            Self::ArnabDirectory => "ArnabDirectory",
            Self::Completed => "Completed",
            Self::BadEnding => "BadEnding",
        }
    }

    pub fn dialogue_prompt(self) -> (prompt: &'static str)
        ensures
            prompt@ == match self {
                Beat::ProfessorRouting => PROFESSOR_DIALOGUE_PROMPT@,
                Beat::ArnabDirectory => ARNAB_DIALOGUE_PROMPT@,
                Beat::Completed => COMPLETED_DIALOGUE_PROMPT@,
                Beat::BadEnding => BAD_ENDING_DIALOGUE_PROMPT@,
            },
    {
        match self {
            Self::ProfessorRouting => PROFESSOR_DIALOGUE_PROMPT,
            Self::ArnabDirectory => ARNAB_DIALOGUE_PROMPT,
            Self::Completed => COMPLETED_DIALOGUE_PROMPT,
            Self::BadEnding => BAD_ENDING_DIALOGUE_PROMPT,
        }
    }
}

} // verus!
