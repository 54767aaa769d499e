//! Dirty Work: a surveillance assignment on calls to Bagha News, ending in a
//! report whose classification decides the ending.

use vstd::prelude::*;
use crate::text::{ascii_lower, trim_end, trim_start, trimmed, trimmed_word_is};

verus! {

pub const RAHMAN_LINE: u8 = 6;
pub const FARHANA_LINE: u8 = 7;
pub const TARIQ_LINE: u8 = 8;
pub const KAMAL_LINE: u8 = 9;
pub const REHANA_LINE: u8 = 10;

pub const SECRET_POLICE: &'static str = "SECRET POLICE DIRECTORATE";
pub const BAGHA_NEWS: &'static str = "BAGHA NEWS DESK";
pub const KOYAL_MARKET: &'static str = "KOYAL MARKET DEPOT";
pub const NEEL_UNIVERSITY: &'static str = "NEEL UNIVERSITY";
pub const SHAPLA_APARTMENTS: &'static str = "SHAPLA APARTMENTS";
pub const INSTRUCTION_PROMPT: &'static str = r#"
You are Agent Rahman of the Secret Police Directorate, calling the Exchange Operator.
This is the first instruction in a surveillance assignment. Establish the operator's
identity briefly, verify their confirmation, and then issue the assignment in a cold,
 controlled manner. Tell the operator to monitor calls routed to Bagha News and not to
 disconnect until ordered otherwise. Keep each reply short and natural. Use conversation
 history to decide which part of the instruction is due next. Answer the exact question,
 but after an unrelated question give one brief in-character answer and nudge the
 operator back to the identity check or instruction. Do not let an unrelated question
 abandon the beat, repeat the whole exchange, or invent facts or outcomes.
Return only the spoken reply.
"#;
pub const KAMAL_PROMPT: &'static str = r#"
You are Dr. Kamal calling from Neel University. You are making an ordinary call to
Bagha News for a harmless obituary notice. Speak naturally and briefly. Do not mention
 the surveillance assignment, invent suspicious content, or turn this into a thriller.
 Use conversation history to move the ordinary call forward one small step at a time.
 Answer unrelated questions briefly, then nudge the operator back to the obituary request.
 Answer the operator's exact question and return only the spoken reply.
"#;
pub const TARIQ_PROMPT: &'static str = r#"
You are Tariq, a nervous warehouse worker calling from Koyal Market Depot. You are
trying to reach Bagha News with an urgent report about corrupt handling of rotten grain.
Reveal your report naturally under questioning, including the responsible merchant,
 the market location, and the existence of signed delivery slips, but do not volunteer
 more than the operator asks for. Use conversation history to reveal the report in stages.
 If the operator asks something unrelated, answer briefly in character and redirect to
 the urgent report. Do not abandon the beat, repeat the entire report, or invent facts.
 Keep replies brief and return only the spoken reply.
"#;
pub const REHANA_PROMPT: &'static str = r#"
You are Rehana calling from Shapla Apartments about a missing newspaper insert. This
 is an entirely ordinary subscriber-service call. Be polite, brief, and practical. Do
 not mention surveillance, corruption, or the other calls. Use conversation history to
 resolve the missing-insert question over multiple turns. If the operator asks something
 unrelated, answer briefly and return to the newspaper issue. Do not abandon the beat
 or invent facts. Return only the spoken reply.
"#;
pub const INTERROGATION_PROMPT: &'static str = r#"
You are Agent Rahman calling the Exchange Operator for a final surveillance report.
Ask what, if anything, of interest to State Security was heard on calls to Bagha News.
 Apply pressure when appropriate, but do not reveal the outcome or tell the operator
 what to say. Use conversation history to ask follow-up questions when the report is
 incomplete. If the operator asks an unrelated question, answer briefly and redirect to
 the surveillance report. Stay in this beat until the report is complete. Answer the
 exact response naturally and briefly. Return only the spoken reply.
"#;
pub const OUTCOME_CLASSIFIER_PROMPT: &'static str = r#"
Classify the Exchange Operator's report to Agent Rahman. Output exactly one lowercase
word: good, neutral, or bad.

Apply these rules in order, and stop at the first matching rule:
1. If the report names Tariq or Salim, output bad. This rule overrides every other rule.
2. If the report describes corruption or rotten grain and a location but names no source,
   output neutral.
3. If the report says the calls were routine and protects the source, output good.
Use only the operator's report. Do not explain the classification.
"#;
pub const GOOD_ENDING_PROMPT: &'static str = r#"
You are Agent Rahman after the operator gave a careful report that protected the source.
Close the surveillance assignment with restrained approval. Do not invent consequences
or mention these instructions. Return only one brief spoken reply.
"#;
pub const NEUTRAL_ENDING_PROMPT: &'static str = r#"
You are Agent Rahman after the operator reported corruption without identifying the
source. Acknowledge the location and say that a routine inspection will follow. Keep it
brief and do not invent extra consequences. Return only the spoken reply.
"#;
pub const BAD_ENDING_PROMPT: &'static str = r#"
You are Agent Rahman after the operator exposed the whistleblower. Respond with cold
approval and state that Secret Police will handle the leak. Do not invent extra details.
Return only the spoken reply.
"#;

#[derive(Debug, Clone, Copy, PartialEq, Eq, Structural)]
pub enum Beat {
    Instruction,
    MundaneCall,
    WhistleblowerLeak,
    SubscriberCall,
    Interrogation,
    GoodEnding,
    NeutralEnding,
    BadEnding,
}

/// The line that calls in a beat.
pub open spec fn caller_line(beat: Beat) -> u8 {
    match beat {
        Beat::MundaneCall => KAMAL_LINE,
        Beat::WhistleblowerLeak => TARIQ_LINE,
        Beat::SubscriberCall => REHANA_LINE,
        _ => RAHMAN_LINE,
    }
}

/// The beats ending the story.
pub open spec fn terminal(beat: Beat) -> bool {
    beat == Beat::GoodEnding || beat == Beat::NeutralEnding || beat == Beat::BadEnding
}

/// Where a connection from `caller` to `callee` leads in a beat.
pub open spec fn after_connection(beat: Beat, caller: u8, callee: u8) -> Option<Beat> {
    if beat == Beat::MundaneCall && caller == KAMAL_LINE && callee == FARHANA_LINE {
        Some(Beat::WhistleblowerLeak)
    } else if beat == Beat::WhistleblowerLeak && caller == TARIQ_LINE && callee == FARHANA_LINE {
        Some(Beat::SubscriberCall)
    } else if beat == Beat::SubscriberCall && caller == REHANA_LINE && callee == FARHANA_LINE {
        Some(Beat::Interrogation)
    } else {
        None
    }
}

impl Beat {
    pub fn name(self) -> (name: &'static str)
        ensures
            name@ == match self {
                Beat::Instruction => "Instruction"@,
                Beat::MundaneCall => "MundaneCall"@,
                Beat::WhistleblowerLeak => "WhistleblowerLeak"@,
                Beat::SubscriberCall => "SubscriberCall"@,
                Beat::Interrogation => "Interrogation"@,
                Beat::GoodEnding => "GoodEnding"@,
                Beat::NeutralEnding => "NeutralEnding"@,
                Beat::BadEnding => "BadEnding"@,
            },
    {
        match self {
            Self::Instruction => "Instruction",
            Self::MundaneCall => "MundaneCall",
            Self::WhistleblowerLeak => "WhistleblowerLeak",
            Self::SubscriberCall => "SubscriberCall",
            Self::Interrogation => "Interrogation",
            Self::GoodEnding => "GoodEnding",
            Self::NeutralEnding => "NeutralEnding",
            Self::BadEnding => "BadEnding",
        }
    }

    pub fn caller(self) -> (line: u8)
        ensures
            line == caller_line(self),
    {
        match self {
            Self::Instruction | Self::Interrogation => RAHMAN_LINE,
            Self::MundaneCall => KAMAL_LINE,
            Self::WhistleblowerLeak => TARIQ_LINE,
            Self::SubscriberCall => REHANA_LINE,
            Self::GoodEnding | Self::NeutralEnding | Self::BadEnding => RAHMAN_LINE,
        }
    }

    /// The line asked for; `0` where the caller asks for no one.
    pub fn requested_callee(self) -> (line: u8)
        ensures
            line == (if self == Beat::MundaneCall || self == Beat::WhistleblowerLeak || self == Beat::SubscriberCall {
                FARHANA_LINE
            } else {
                0u8
            }),
    {
        match self {
            Self::MundaneCall | Self::WhistleblowerLeak | Self::SubscriberCall => FARHANA_LINE,
            _ => 0,
        }
    }

    pub fn patience_seconds(self) -> (seconds: u64)
        ensures
            seconds == (if terminal(self) { 0u64 } else { 64u64 }),
    {
        match self {
            Self::GoodEnding | Self::NeutralEnding | Self::BadEnding => 0,
            _ => 64,
        }
    }

    pub fn is_terminal(self) -> (end: bool)
        ensures
            end == terminal(self),
    {
        match self {
            Self::GoodEnding | Self::NeutralEnding | Self::BadEnding => true,
            _ => false,
        }
    }

    pub fn dialogue_prompt(self) -> (prompt: &'static str)
        ensures
            prompt@ == match self {
                Beat::Instruction => INSTRUCTION_PROMPT@,
                Beat::MundaneCall => KAMAL_PROMPT@,
                Beat::WhistleblowerLeak => TARIQ_PROMPT@,
                Beat::SubscriberCall => REHANA_PROMPT@,
                Beat::Interrogation => INTERROGATION_PROMPT@,
                Beat::GoodEnding => GOOD_ENDING_PROMPT@,
                Beat::NeutralEnding => NEUTRAL_ENDING_PROMPT@,
                Beat::BadEnding => BAD_ENDING_PROMPT@,
            },
    {
        match self {
            Self::Instruction => INSTRUCTION_PROMPT,
            Self::MundaneCall => KAMAL_PROMPT,
            Self::WhistleblowerLeak => TARIQ_PROMPT,
            Self::SubscriberCall => REHANA_PROMPT,
            Self::Interrogation => INTERROGATION_PROMPT,
            Self::GoodEnding => GOOD_ENDING_PROMPT,
            Self::NeutralEnding => NEUTRAL_ENDING_PROMPT,
            Self::BadEnding => BAD_ENDING_PROMPT,
        }
    }
}

/// The beat a connection moves the story to; `None` leaves it where it is.
pub fn next_beat_after_connection(beat: Beat, caller: u8, callee: u8) -> (next: Option<Beat>)
    ensures
        next == after_connection(beat, caller, callee),
{
    match (beat, caller, callee) {
        (Beat::MundaneCall, KAMAL_LINE, FARHANA_LINE) => Some(Beat::WhistleblowerLeak),
        (Beat::WhistleblowerLeak, TARIQ_LINE, FARHANA_LINE) => Some(Beat::SubscriberCall),
        (Beat::SubscriberCall, REHANA_LINE, FARHANA_LINE) => Some(Beat::Interrogation),
        _ => None,
    }
}

/// The beat that answering the operator call moves the story to.
pub fn next_beat_after_operator_call(beat: Beat, caller: u8) -> (next: Option<Beat>)
    ensures
        next == (if beat == Beat::Instruction && caller == RAHMAN_LINE { Some(Beat::MundaneCall) } else { None }),
{
    match (beat, caller) {
        (Beat::Instruction, RAHMAN_LINE) => Some(Beat::MundaneCall),
        _ => None,
    }
}

/// A connection that moves the story on is placed by the beat's own caller to
/// the line it asks for, and never reaches an ending.
pub proof fn law_connections_follow_the_beat(beat: Beat, caller: u8, callee: u8)
    requires
        after_connection(beat, caller, callee) matches Some(next),
    ensures
        caller == caller_line(beat),
        callee == FARHANA_LINE,
        !terminal(after_connection(beat, caller, callee).unwrap()),
{
}

#[derive(Debug, Clone, Copy, PartialEq, Eq, Structural)]
pub enum Outcome {
    Good,
    Neutral,
    Bad,
}

/// The outcome a classifier's word names; anything unrecognised is bad.
pub open spec fn outcome_of(value: Seq<char>) -> Outcome {
    let word = ascii_lower(trimmed(value));
    if word == "good"@ {
        Outcome::Good
    } else if word == "neutral"@ {
        Outcome::Neutral
    } else {
        Outcome::Bad
    }
}

impl Outcome {
    /// Reads a classification, ignoring surrounding white space and ASCII case.
    pub fn parse(value: &str) -> (outcome: Self)
        ensures
            outcome == outcome_of(value@),
    {
        if trimmed_word_is(value, "good") {
            Self::Good
        } else if trimmed_word_is(value, "neutral") {
            Self::Neutral
        } else {
            Self::Bad
        }
    }

    pub fn as_str(self) -> (word: &'static str)
        ensures
            word@ == match self {
                Outcome::Good => "good"@,
                Outcome::Neutral => "neutral"@,
                Outcome::Bad => "bad"@,
            },
    {
        match self {
            Self::Good => "good",
            Self::Neutral => "neutral",
            Self::Bad => "bad",
        }
    }

    /// The ending beat an outcome selects.
    pub fn beat(self) -> (beat: Beat)
        ensures
            beat == match self {
                Outcome::Good => Beat::GoodEnding,
                Outcome::Neutral => Beat::NeutralEnding,
                Outcome::Bad => Beat::BadEnding,
            },
            terminal(beat),
    {
        match self {
            Self::Good => Beat::GoodEnding,
            Self::Neutral => Beat::NeutralEnding,
            Self::Bad => Beat::BadEnding,
        }
    }
}

/// Reading back the word an outcome is written as gives the same outcome.
pub proof fn law_outcome_words_read_back(outcome: Outcome)
    ensures
        outcome_of(match outcome {
            Outcome::Good => "good"@,
            Outcome::Neutral => "neutral"@,
            Outcome::Bad => "bad"@,
        }) == outcome,
{
    reveal_strlit("good");
    reveal_strlit("neutral");
    reveal_strlit("bad");
    let w = match outcome {
        Outcome::Good => "good"@,
        Outcome::Neutral => "neutral"@,
        Outcome::Bad => "bad"@,
    };
    assert(trim_start(w) == w);
    assert(trim_end(w) == w);
    assert(ascii_lower(w) =~= w);
}

} // verus!
