//! Story-owned configuration and state machines: each story owns its callers,
//! beats, prompts, authored audio and directory facts, while the exchange
//! mechanics stay shared.

use vstd::prelude::*;
use crate::text::decimal;

pub mod bela_bose;
pub mod dirty_work;
pub mod nahid;
pub mod neel_university;
pub mod shapla_apartments;

verus! {

/// A mechanic of the exchange that a story exercises.
#[derive(Debug, Clone, Copy, PartialEq, Eq, Structural)]
pub enum Mechanic {
    OperatorConnection,
    DirectorySelection,
    DestinationRinging,
    DirectRouting,
    SubscriberConversation,
    PoliceService,
    Patience,
    Scoring,
}

/// The recording authored for a connection, by path: the Bela Bose story's
/// recordings first, then Nahid's calls to his victims. (The Dirty Work
/// story has none.)
pub open spec fn authored_audio(caller: u16, callee: u16) -> Option<Seq<char>> {
    match bela_bose::audio_name(caller, callee) {
        Some(name) => Some(bela_bose::AUDIO_DIRECTORY@ + name),
        None => if caller == nahid::NAHID_DIRECTORY {
            match nahid::asset_number(callee) {
                Some(number) => Some(nahid::AUDIO_DIRECTORY@ + "nahid_"@ + decimal(number) + ".wav"@),
                None => None,
            }
        } else {
            None
        },
    }
}

/// The path of the recording authored for a connection, if any.
pub fn authored_audio_path(caller: u16, callee: u16) -> (path: Option<String>)
    ensures
        match authored_audio(caller, callee) {
            Some(text) => path matches Some(p) && p@ == text,
            None => path is None,
        },
{
    match bela_bose::audio_path(caller, callee) {
        Some(path) => Some(path),
        None => nahid::audio_path(caller, callee),
    }
}

} // verus!
