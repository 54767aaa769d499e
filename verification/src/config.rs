//! The exchange configuration: the subscribers on the twelve physical lines
//! and the pacing of calls.

use vstd::prelude::*;
use crate::text::{blank, is_blank};

verus! {

/// The number of physical subscriber lines.
pub const LINES: u8 = 12;

/// One subscriber on a physical line.
#[derive(Debug, Clone, PartialEq, Eq)]
pub struct SubscriberConfig {
    pub id: u16,
    pub line: u8,
    pub place: String,
    pub name: String,
    pub role: String,
    pub private_info: String,
    pub voice_id: String,
}

/// The exchange configuration.
#[derive(Debug, Clone, PartialEq, Eq)]
pub struct GameConfig {
    pub subscribers: Vec<SubscriberConfig>,
    pub active_calls: usize,
    pub patience_min_seconds: u64,
    pub patience_max_seconds: u64,
    pub ring_grace_seconds: u64,
    pub shift_duration_seconds: u64,
    pub call_arrival_interval_seconds: u64,
    pub story_seed: u64,
}

/// Why a configuration is refused.
#[derive(Debug, Clone, Copy, PartialEq, Eq, Structural)]
pub enum ConfigError {
    NoActiveCalls,
    PatienceRange,
    NoSubscribers,
    DuplicateId(u16),
    LineOutOfRange(u8),
    DuplicateLine(u8),
    MissingPlace(u8),
    MissingName(u8),
    MissingRole(u8),
    MissingPrivateInfo(u8),
    MissingVoiceId(u8),
    UnconfiguredLine(u8),
}

/// A subscriber's own fields are usable: a real line and non-blank texts.
pub open spec fn subscriber_ok(s: SubscriberConfig) -> bool {
    &&& s.line < LINES
    &&& !is_blank(s.place@)
    &&& !is_blank(s.name@)
    &&& !is_blank(s.role@)
    &&& !is_blank(s.private_info@)
    &&& !is_blank(s.voice_id@)
}

/// Some subscriber is on the line.
pub open spec fn line_configured(subscribers: Seq<SubscriberConfig>, line: int) -> bool {
    exists|i: int| 0 <= i < subscribers.len() && (#[trigger] subscribers[i]).line == line
}

/// A configuration the exchange can run: calls to place, a sensible patience
/// range, and exactly one subscriber with a unique identifier on every line.
pub open spec fn config_valid(c: GameConfig) -> bool {
    let subs = c.subscribers@;
    &&& c.active_calls > 0
    &&& c.patience_min_seconds <= c.patience_max_seconds
    &&& subs.len() > 0
    &&& forall|i: int| 0 <= i < subs.len() ==> subscriber_ok(#[trigger] subs[i])
    &&& forall|i: int, j: int| 0 <= i < j < subs.len() ==> (#[trigger] subs[i]).id != (#[trigger] subs[j]).id
    &&& forall|i: int, j: int| 0 <= i < j < subs.len() ==> (#[trigger] subs[i]).line != (#[trigger] subs[j]).line
    &&& forall|line: int| 0 <= line < LINES ==> line_configured(subs, line)
}

/// Some subscriber on `line` has a field that `bad` finds blank.
pub open spec fn blank_on_line(subs: Seq<SubscriberConfig>, line: u8, field: spec_fn(SubscriberConfig) -> Seq<char>) -> bool {
    exists|i: int| 0 <= i < subs.len() && (#[trigger] subs[i]).line == line && is_blank(field(subs[i]))
}

/// What a configuration error claims is true of the configuration.
pub open spec fn config_error_holds(c: GameConfig, e: ConfigError) -> bool {
    let subs = c.subscribers@;
    match e {
        ConfigError::NoActiveCalls => c.active_calls == 0,
        ConfigError::PatienceRange => c.patience_min_seconds > c.patience_max_seconds,
        ConfigError::NoSubscribers => subs.len() == 0,
        ConfigError::DuplicateId(id) => exists|i: int, j: int| 0 <= i < j < subs.len()
            && (#[trigger] subs[i]).id == id && (#[trigger] subs[j]).id == id,
        ConfigError::LineOutOfRange(line) => line >= LINES && exists|i: int| 0 <= i < subs.len() && (#[trigger] subs[i]).line == line,
        ConfigError::DuplicateLine(line) => exists|i: int, j: int| 0 <= i < j < subs.len()
            && (#[trigger] subs[i]).line == line && (#[trigger] subs[j]).line == line,
        ConfigError::MissingPlace(line) => blank_on_line(subs, line, |s: SubscriberConfig| s.place@),
        ConfigError::MissingName(line) => blank_on_line(subs, line, |s: SubscriberConfig| s.name@),
        ConfigError::MissingRole(line) => blank_on_line(subs, line, |s: SubscriberConfig| s.role@),
        ConfigError::MissingPrivateInfo(line) => blank_on_line(subs, line, |s: SubscriberConfig| s.private_info@),
        ConfigError::MissingVoiceId(line) => blank_on_line(subs, line, |s: SubscriberConfig| s.voice_id@),
        ConfigError::UnconfiguredLine(line) => line < LINES && !line_configured(subs, line as int),
    }
}

/// The problem the subscriber at `i` shows, given those before it: an
/// identifier or a line taken already, a line off the switchboard, or a
/// blank field, in that order.
pub open spec fn subscriber_problem(subs: Seq<SubscriberConfig>, i: int) -> Option<ConfigError> {
    let s = subs[i];
    if exists|j: int| 0 <= j < i && (#[trigger] subs[j]).id == s.id {
        Some(ConfigError::DuplicateId(s.id))
    } else if s.line >= LINES {
        Some(ConfigError::LineOutOfRange(s.line))
    } else if exists|j: int| 0 <= j < i && (#[trigger] subs[j]).line == s.line {
        Some(ConfigError::DuplicateLine(s.line))
    } else if is_blank(s.place@) {
        Some(ConfigError::MissingPlace(s.line))
    } else if is_blank(s.name@) {
        Some(ConfigError::MissingName(s.line))
    } else if is_blank(s.role@) {
        Some(ConfigError::MissingRole(s.line))
    } else if is_blank(s.private_info@) {
        Some(ConfigError::MissingPrivateInfo(s.line))
    } else if is_blank(s.voice_id@) {
        Some(ConfigError::MissingVoiceId(s.line))
    } else {
        None
    }
}

/// The first problem among the subscribers from `i` on.
pub open spec fn problem_from(subs: Seq<SubscriberConfig>, i: int) -> Option<ConfigError>
    decreases subs.len() - i,
{
    if i < 0 || i >= subs.len() {
        None
    } else {
        match subscriber_problem(subs, i) {
            Some(e) => Some(e),
            None => problem_from(subs, i + 1),
        }
    }
}

/// The first line, from `line` on, that no subscriber is on.
pub open spec fn first_unconfigured(subs: Seq<SubscriberConfig>, line: int) -> Option<u8>
    decreases LINES - line,
{
    if line < 0 || line >= LINES {
        None
    } else if !line_configured(subs, line) {
        Some(line as u8)
    } else {
        first_unconfigured(subs, line + 1)
    }
}

/// The problem a check of the configuration reports first: the call
/// settings, then each subscriber in order, then the lines left empty.
pub open spec fn config_problem(c: GameConfig) -> Option<ConfigError> {
    let subs = c.subscribers@;
    if c.active_calls == 0 {
        Some(ConfigError::NoActiveCalls)
    } else if c.patience_min_seconds > c.patience_max_seconds {
        Some(ConfigError::PatienceRange)
    } else if subs.len() == 0 {
        Some(ConfigError::NoSubscribers)
    } else {
        match problem_from(subs, 0) {
            Some(e) => Some(e),
            None => match first_unconfigured(subs, 0) {
                Some(line) => Some(ConfigError::UnconfiguredLine(line)),
                None => None,
            },
        }
    }
}

impl GameConfig {
    /// Checks the configuration, reporting the first problem in the order
    /// the exchange's operators would fix them.
    pub fn validate(&self) -> (result: Result<(), ConfigError>)
        ensures
            result == match config_problem(*self) {
                Some(e) => Err::<(), ConfigError>(e),
                None => Ok(()),
            },
            result is Ok <==> config_valid(*self),
            result matches Err(e) ==> config_error_holds(*self, e),
    {
        if self.active_calls == 0 {
            return Err(ConfigError::NoActiveCalls);
        }
        if self.patience_min_seconds > self.patience_max_seconds {
            return Err(ConfigError::PatienceRange);
        }
        if self.subscribers.len() == 0 {
            return Err(ConfigError::NoSubscribers);
        }
        let subs = &self.subscribers;
        let mut seen: Vec<bool> = vec![false, false, false, false, false, false, false, false, false, false, false, false];
        let mut i: usize = 0;
        while i < subs.len()
            invariant
                subs@ == self.subscribers@,
                i <= subs@.len(),
                seen@.len() == LINES,
                forall|k: int| 0 <= k < i ==> subscriber_ok(#[trigger] subs@[k]),
                forall|a: int, b: int| 0 <= a < b < i ==> (#[trigger] subs@[a]).id != (#[trigger] subs@[b]).id,
                forall|a: int, b: int| 0 <= a < b < i ==> (#[trigger] subs@[a]).line != (#[trigger] subs@[b]).line,
                forall|line: int| 0 <= line < LINES ==> (#[trigger] seen@[line] <==> line_configured(subs@.subrange(0, i as int), line)),
                problem_from(subs@, 0) == problem_from(subs@, i as int),
                self.active_calls > 0,
                self.patience_min_seconds <= self.patience_max_seconds,
                self.subscribers@.len() > 0,
            decreases subs@.len() - i,
        {
            let subscriber = &subs[i];
            let mut k: usize = 0;
            while k < i
                invariant
                    subs@ == self.subscribers@,
                    i < subs@.len(),
                    k <= i,
                    *subscriber == subs@[i as int],
                    forall|m: int| 0 <= m < k ==> (#[trigger] subs@[m]).id != subscriber.id,
                    problem_from(subs@, 0) == problem_from(subs@, i as int),
                    self.active_calls > 0,
                    self.patience_min_seconds <= self.patience_max_seconds,
                    self.subscribers@.len() > 0,
                decreases i - k,
            {
                if subs[k].id == subscriber.id {
                    assert(subs@[k as int].id == subscriber.id && subs@[i as int].id == subscriber.id);
                    assert(subscriber_problem(subs@, i as int) == Some(ConfigError::DuplicateId(subscriber.id)));
                    return Err(ConfigError::DuplicateId(subscriber.id));
                }
                k = k + 1;
            }
            let line = subscriber.line;
            if line >= LINES {
                return Err(ConfigError::LineOutOfRange(line));
            }
            if seen[line as usize] {
                assert(line_configured(subs@.subrange(0, i as int), line as int));
                let ghost m = choose|m: int| 0 <= m < i && (#[trigger] subs@.subrange(0, i as int)[m]).line == line;
                assert(subs@[m].line == line);
                assert(subscriber_problem(subs@, i as int) == Some(ConfigError::DuplicateLine(line)));
                return Err(ConfigError::DuplicateLine(line));
            }
            assert(!exists|j: int| 0 <= j < i && (#[trigger] subs@[j]).line == line) by {
                if exists|j: int| 0 <= j < i && (#[trigger] subs@[j]).line == line {
                    let j = choose|j: int| 0 <= j < i && (#[trigger] subs@[j]).line == line;
                    assert(subs@.subrange(0, i as int)[j].line == line);
                }
            }
            if blank(subscriber.place.as_str()) {
                return Err(ConfigError::MissingPlace(line));
            }
            if blank(subscriber.name.as_str()) {
                return Err(ConfigError::MissingName(line));
            }
            if blank(subscriber.role.as_str()) {
                return Err(ConfigError::MissingRole(line));
            }
            if blank(subscriber.private_info.as_str()) {
                return Err(ConfigError::MissingPrivateInfo(line));
            }
            if blank(subscriber.voice_id.as_str()) {
                return Err(ConfigError::MissingVoiceId(line));
            }
            let ghost before = seen@;
            seen.set(line as usize, true);
            proof {
                assert forall|a: int, b: int| 0 <= a < b < i + 1 implies (#[trigger] subs@[a]).line != (#[trigger] subs@[b]).line by {
                    if b == i {
                        if subs@[a].line == line {
                            assert(subs@.subrange(0, i as int)[a].line == line);
                        }
                    }
                }
                assert forall|l: int| 0 <= l < LINES implies (#[trigger] seen@[l] <==> line_configured(subs@.subrange(0, i + 1), l)) by {
                    let prefix = subs@.subrange(0, i as int);
                    let next = subs@.subrange(0, i + 1);
                    if line_configured(prefix, l) {
                        let m = choose|m: int| 0 <= m < prefix.len() && (#[trigger] prefix[m]).line == l;
                        assert(next[m] == prefix[m]);
                    }
                    if line_configured(next, l) {
                        let m = choose|m: int| 0 <= m < next.len() && (#[trigger] next[m]).line == l;
                        if m < i {
                            assert(prefix[m] == next[m]);
                        }
                    }
                    if l == line as int {
                        assert(next[i as int].line == l);
                    }
                }
            }
            i = i + 1;
        }
        assert(subs@.subrange(0, subs@.len() as int) =~= subs@);
        let mut line: u8 = 0;
        while line < LINES
            invariant
                line <= LINES,
                seen@.len() == LINES,
                subs@ == self.subscribers@,
                forall|l: int| 0 <= l < LINES ==> (#[trigger] seen@[l] <==> line_configured(subs@, l)),
                forall|l: int| 0 <= l < line ==> line_configured(subs@, l),
                first_unconfigured(subs@, 0) == first_unconfigured(subs@, line as int),
                problem_from(subs@, 0) is None,
                self.active_calls > 0,
                self.patience_min_seconds <= self.patience_max_seconds,
                self.subscribers@.len() > 0,
            decreases LINES - line,
        {
            if !seen[line as usize] {
                return Err(ConfigError::UnconfiguredLine(line));
            }
            line = line + 1;
        }
        Ok(())
    }
}

} // verus!
