//! Authored story graphs: the content an author writes, its validation, and
//! the compiled graph that the runtime walks.

use std::collections::BTreeSet;
use vstd::prelude::*;
use vstd::string::*;
use crate::text::{blank, decimal, is_blank, is_white_space, push_decimal, same_text, text_less, text_precedes, text_less_total, text_less_transitive};
use crate::walk::{adjacency_ok, edge, is_path, on_cycle, reaches, search, step};

verus! {

#[derive(Debug, Clone, PartialEq, Eq)]
pub struct Subscriber {
    pub id: String,
    pub name: String,
}

#[derive(Debug, Clone, PartialEq, Eq)]
pub struct LineListing {
    pub id: String,
    pub line: u8,
    pub subscriber_ids: Vec<String>,
}

#[derive(Debug, Clone, PartialEq, Eq)]
pub struct CallPremise {
    pub id: String,
    pub caller_id: String,
    pub callee_id: String,
    pub caller_line_id: String,
    pub callee_line_id: String,
    pub directory_ids: Vec<u16>,
}

#[derive(Debug, Clone, PartialEq, Eq)]
pub struct CallerPrompt {
    pub name: String,
    pub opening: String,
    pub reveals: String,
}

#[derive(Debug, Clone, PartialEq, Eq)]
pub struct StoryBeat {
    pub id: String,
    pub call_premise_id: String,
}

#[derive(Debug, Clone, PartialEq, Eq)]
pub struct StoryEventOutcome {
    pub id: String,
    pub next_node_id: String,
}

#[derive(Debug, Clone, PartialEq, Eq)]
pub struct StoryEvent {
    pub id: String,
    pub outcomes: Vec<StoryEventOutcome>,
}

#[derive(Debug, Clone, PartialEq, Eq)]
pub struct Ending {
    pub id: String,
    pub conclusion: String,
}

#[derive(Debug, Clone, PartialEq, Eq)]
pub enum StoryNodeKind {
    RunStart { next_node_id: String },
    ShiftCall { beat_id: String, on_success: String, on_missed: String, on_invalid: String },
    StoryEvent { event_id: String, default_outcome_id: String },
    Conditional { condition: StoryCondition, on_met: String, on_unmet: String },
    Ending { ending_id: String },
}

#[derive(Debug, Clone, PartialEq, Eq)]
pub struct StoryNode {
    pub id: String,
    pub kind: StoryNodeKind,
}

#[derive(Debug, Clone, Copy, PartialEq, Eq, Structural)]
pub enum StoryCondition {
    MaxServiceErrors(u32),
}

#[derive(Debug, Clone, Copy, PartialEq, Eq, Structural, Default)]
pub struct StoryEligibilityState {
    pub service_errors: u32,
}

#[derive(Debug, Clone, PartialEq, Eq)]
pub struct AuthoredContent {
    pub subscribers: Vec<Subscriber>,
    pub line_listings: Vec<LineListing>,
    pub call_premises: Vec<CallPremise>,
    pub story_beats: Vec<StoryBeat>,
    pub story_events: Vec<StoryEvent>,
    pub endings: Vec<Ending>,
    pub nodes: Vec<StoryNode>,
    pub start_node_id: String,
}

/// Why authored content does not compile into a story graph.
#[derive(Debug, Clone, PartialEq, Eq)]
pub enum GraphCompileError {
    EmptyId { kind: &'static str },
    DuplicateId { kind: &'static str, id: String },
    MissingReference { kind: &'static str, reference_kind: &'static str, reference: String },
    InvalidLine { listing_id: String, line: u8 },
    EmptyLineListing { listing_id: String },
    DuplicateLine { first_listing_id: String, second_listing_id: String, line: u8 },
    CallerLineMismatch { premise_id: String, subscriber_id: String, line_id: String },
    CalleeLineMismatch { premise_id: String, subscriber_id: String, line_id: String },
    SameCallLine { premise_id: String, line_id: String },
    EmptyDirectorySelections { premise_id: String },
    InvalidDirectorySelection { premise_id: String, directory_id: u16 },
    EmptyEventOutcomes { event_id: String },
    EmptyEnding { ending_id: String },
    MissingStartNode { node_id: String },
    Cycle { node_id: String },
    UnreachableNode { node_id: String },
}

/// Where the runtime goes next from a node.
#[derive(Debug, Clone, PartialEq, Eq)]
pub struct StoryPathSelection {
    pub node_id: String,
    pub used_default: bool,
    pub rejected_proposal: bool,
}

/// The bounded set of things an operator can do on a call.
#[derive(Debug, Clone, Copy, PartialEq, Eq, Structural)]
pub enum OperatorTextAction {
    Ask,
    DirectoryCheck,
    Tap,
    Connect,
    Refuse,
    ReportPolice,
    CallEms,
    Disclose,
    AcceptPayment,
}

/// What an operator reported to a service.
#[derive(Debug, Clone, Default, PartialEq, Eq)]
pub struct OperatorServiceReport {
    pub location: Option<String>,
    pub medical_emergency: Option<bool>,
    pub identity: Option<bool>,
    pub target_addresses: Option<bool>,
    pub report_phrase: Option<bool>,
    pub alias: Option<bool>,
    pub source_line: Option<bool>,
    pub verification_code: Option<bool>,
    pub employer: Option<bool>,
    pub false_clinic: Option<bool>,
    pub product_claim: Option<bool>,
    pub payment_request: Option<bool>,
}

/// One operator turn: what was said, the intent, and any service report.
#[derive(Debug, Clone, PartialEq, Eq)]
pub struct OperatorTurn {
    pub speech: String,
    pub action: OperatorTextAction,
    pub service_report: Option<OperatorServiceReport>,
}

/// Why an operator turn was refused.
#[derive(Debug, Clone, Copy, PartialEq, Eq, Structural)]
pub enum OperatorTextError {
    UnknownAction,
    InvalidIntent,
    InvalidServiceReport,
}

/// Authored records that carry a stable identifier.
pub trait Keyed {
    spec fn key(&self) -> Seq<char>;

    fn key_text(&self) -> (k: &str)
        ensures
            k@ == self.key(),
    ;
}

impl Keyed for Subscriber {
    open spec fn key(&self) -> Seq<char> { self.id@ }
    fn key_text(&self) -> (k: &str) { self.id.as_str() }
}

impl Keyed for LineListing {
    open spec fn key(&self) -> Seq<char> { self.id@ }
    fn key_text(&self) -> (k: &str) { self.id.as_str() }
}

impl Keyed for CallPremise {
    open spec fn key(&self) -> Seq<char> { self.id@ }
    fn key_text(&self) -> (k: &str) { self.id.as_str() }
}

impl Keyed for StoryBeat {
    open spec fn key(&self) -> Seq<char> { self.id@ }
    fn key_text(&self) -> (k: &str) { self.id.as_str() }
}

impl Keyed for StoryEventOutcome {
    open spec fn key(&self) -> Seq<char> { self.id@ }
    fn key_text(&self) -> (k: &str) { self.id.as_str() }
}

impl Keyed for StoryEvent {
    open spec fn key(&self) -> Seq<char> { self.id@ }
    fn key_text(&self) -> (k: &str) { self.id.as_str() }
}

impl Keyed for Ending {
    open spec fn key(&self) -> Seq<char> { self.id@ }
    fn key_text(&self) -> (k: &str) { self.id.as_str() }
}

impl Keyed for StoryNode {
    open spec fn key(&self) -> Seq<char> { self.id@ }
    fn key_text(&self) -> (k: &str) { self.id.as_str() }
}

/// Whether some record carries the key `k`.
pub open spec fn has_key<T: Keyed>(items: Seq<T>, k: Seq<char>) -> bool {
    exists|i: int| 0 <= i < items.len() && (#[trigger] items[i]).key() == k
}

/// No two records share a key.
pub open spec fn unique_keys<T: Keyed>(items: Seq<T>) -> bool {
    forall|i: int, j: int| 0 <= i < j < items.len() ==> (#[trigger] items[i]).key() != (#[trigger] items[j]).key()
}

/// Keys are non-blank and unique.
pub open spec fn ids_ok<T: Keyed>(items: Seq<T>) -> bool {
    &&& forall|i: int| 0 <= i < items.len() ==> !is_blank((#[trigger] items[i]).key())
    &&& unique_keys(items)
}

/// Whether some text in `texts` equals `t`.
pub open spec fn has_text(texts: Seq<String>, t: Seq<char>) -> bool {
    exists|i: int| 0 <= i < texts.len() && (#[trigger] texts[i])@ == t
}

/// The index of the first record with key `k`.
pub fn position_by_key<T: Keyed>(items: &[T], k: &str) -> (index: Option<usize>)
    ensures
        match index {
            Some(i) => i < items@.len() && items@[i as int].key() == k@
                && forall|j: int| 0 <= j < i ==> (#[trigger] items@[j]).key() != k@,
            None => !has_key(items@, k@),
        },
{
    let mut i: usize = 0;
    while i < items.len()
        invariant
            i <= items@.len(),
            forall|j: int| 0 <= j < i ==> (#[trigger] items@[j]).key() != k@,
        decreases items@.len() - i,
    {
        if same_text(items[i].key_text(), k) {
            return Some(i);
        }
        i = i + 1;
    }
    None
}

/// Whether `t` is one of `texts`.
pub fn contains_text(texts: &Vec<String>, t: &str) -> (found: bool)
    ensures
        found == has_text(texts@, t@),
{
    let mut i: usize = 0;
    while i < texts.len()
        invariant
            i <= texts@.len(),
            forall|j: int| 0 <= j < i ==> (#[trigger] texts@[j])@ != t@,
        decreases texts@.len() - i,
    {
        if same_text(texts[i].as_str(), t) {
            return true;
        }
        i = i + 1;
    }
    false
}

// ---------------------------------------------------------------------------
// The rules that authored content must satisfy.

pub open spec fn listing_ok(c: AuthoredContent, l: LineListing) -> bool {
    &&& l.line < 12
    &&& l.subscriber_ids@.len() > 0
    &&& forall|k: int| 0 <= k < l.subscriber_ids@.len() ==> has_key(c.subscribers@, (#[trigger] l.subscriber_ids@[k])@)
}

/// No two listings share a physical line.
pub open spec fn lines_distinct(c: AuthoredContent) -> bool {
    forall|i: int, j: int| 0 <= i < j < c.line_listings@.len()
        ==> (#[trigger] c.line_listings@[i]).line != (#[trigger] c.line_listings@[j]).line
}

/// The listing `listing_id` assigns the subscriber `subscriber_id` to its line.
pub open spec fn listing_holds(c: AuthoredContent, listing_id: Seq<char>, subscriber_id: Seq<char>) -> bool {
    exists|i: int| 0 <= i < c.line_listings@.len() && (#[trigger] c.line_listings@[i]).id@ == listing_id
        && has_text(c.line_listings@[i].subscriber_ids@, subscriber_id)
}

pub open spec fn premise_ok(c: AuthoredContent, p: CallPremise) -> bool {
    &&& p.directory_ids@.len() > 0
    &&& forall|k: int| 0 <= k < p.directory_ids@.len() ==> #[trigger] p.directory_ids@[k] <= 9999
    &&& has_key(c.subscribers@, p.caller_id@)
    &&& has_key(c.subscribers@, p.callee_id@)
    &&& has_key(c.line_listings@, p.caller_line_id@)
    &&& has_key(c.line_listings@, p.callee_line_id@)
    &&& p.caller_line_id@ != p.callee_line_id@
    &&& listing_holds(c, p.caller_line_id@, p.caller_id@)
    &&& listing_holds(c, p.callee_line_id@, p.callee_id@)
}

pub open spec fn event_ok(c: AuthoredContent, e: StoryEvent) -> bool {
    &&& e.outcomes@.len() > 0
    &&& ids_ok(e.outcomes@)
    &&& forall|k: int| 0 <= k < e.outcomes@.len() ==> has_key(c.nodes@, (#[trigger] e.outcomes@[k]).next_node_id@)
}

/// The event `event_id` offers an outcome `outcome_id`.
pub open spec fn event_offers(c: AuthoredContent, event_id: Seq<char>, outcome_id: Seq<char>) -> bool {
    exists|i: int| 0 <= i < c.story_events@.len() && (#[trigger] c.story_events@[i]).id@ == event_id
        && has_key(c.story_events@[i].outcomes@, outcome_id)
}

pub open spec fn node_ok(c: AuthoredContent, n: StoryNode) -> bool {
    match n.kind {
        StoryNodeKind::RunStart { next_node_id } => has_key(c.nodes@, next_node_id@),
        StoryNodeKind::ShiftCall { beat_id, on_success, on_missed, on_invalid } =>
            has_key(c.story_beats@, beat_id@) && has_key(c.nodes@, on_success@)
                && has_key(c.nodes@, on_missed@) && has_key(c.nodes@, on_invalid@),
        StoryNodeKind::StoryEvent { event_id, default_outcome_id } =>
            has_key(c.story_events@, event_id@) && event_offers(c, event_id@, default_outcome_id@),
        StoryNodeKind::Conditional { on_met, on_unmet, .. } =>
            has_key(c.nodes@, on_met@) && has_key(c.nodes@, on_unmet@),
        StoryNodeKind::Ending { ending_id } => has_key(c.endings@, ending_id@),
    }
}

/// Every kind of record has non-blank, unique identifiers.
pub open spec fn keys_ok(c: AuthoredContent) -> bool {
    &&& ids_ok(c.subscribers@)
    &&& ids_ok(c.line_listings@)
    &&& ids_ok(c.call_premises@)
    &&& ids_ok(c.story_beats@)
    &&& ids_ok(c.story_events@)
    &&& ids_ok(c.endings@)
    &&& ids_ok(c.nodes@)
}

/// Authored content that the compiler accepts before it looks at the shape of
/// the graph: stable non-blank unique identifiers, physically possible lines
/// and calls, and no reference to anything that was not authored.
pub open spec fn content_valid(c: AuthoredContent) -> bool {
    &&& keys_ok(c)
    &&& forall|i: int| 0 <= i < c.line_listings@.len() ==> listing_ok(c, #[trigger] c.line_listings@[i])
    &&& lines_distinct(c)
    &&& forall|i: int| 0 <= i < c.call_premises@.len() ==> premise_ok(c, #[trigger] c.call_premises@[i])
    &&& forall|i: int| 0 <= i < c.story_beats@.len() ==> has_key(c.call_premises@, (#[trigger] c.story_beats@[i]).call_premise_id@)
    &&& forall|i: int| 0 <= i < c.story_events@.len() ==> event_ok(c, #[trigger] c.story_events@[i])
    &&& forall|i: int| 0 <= i < c.endings@.len() ==> !is_blank((#[trigger] c.endings@[i]).conclusion@)
    &&& has_key(c.nodes@, c.start_node_id@)
    &&& forall|i: int| 0 <= i < c.nodes@.len() ==> node_ok(c, #[trigger] c.nodes@[i])
}

/// A record with a blank identifier.
pub open spec fn blank_key<T: Keyed>(items: Seq<T>) -> bool {
    exists|i: int| 0 <= i < items.len() && is_blank((#[trigger] items[i]).key())
}

/// Two records sharing the identifier `id`.
pub open spec fn shared_key<T: Keyed>(items: Seq<T>, id: Seq<char>) -> bool {
    exists|i: int, j: int| 0 <= i < j < items.len() && (#[trigger] items[i]).key() == id && (#[trigger] items[j]).key() == id
}

pub open spec fn some_blank_key(c: AuthoredContent) -> bool {
    ||| blank_key(c.subscribers@)
    ||| blank_key(c.line_listings@)
    ||| blank_key(c.call_premises@)
    ||| blank_key(c.story_beats@)
    ||| blank_key(c.story_events@)
    ||| blank_key(c.endings@)
    ||| blank_key(c.nodes@)
    ||| exists|i: int| 0 <= i < c.story_events@.len() && blank_key((#[trigger] c.story_events@[i]).outcomes@)
}

pub open spec fn some_shared_key(c: AuthoredContent, id: Seq<char>) -> bool {
    ||| shared_key(c.subscribers@, id)
    ||| shared_key(c.line_listings@, id)
    ||| shared_key(c.call_premises@, id)
    ||| shared_key(c.story_beats@, id)
    ||| shared_key(c.story_events@, id)
    ||| shared_key(c.endings@, id)
    ||| shared_key(c.nodes@, id)
    ||| exists|i: int| 0 <= i < c.story_events@.len() && shared_key((#[trigger] c.story_events@[i]).outcomes@, id)
}

/// Nothing of the kind named `reference_kind` carries the identifier
/// `reference` (for outcomes: some event offers no such outcome).
pub open spec fn reference_missing(c: AuthoredContent, reference_kind: Seq<char>, reference: Seq<char>) -> bool {
    ||| reference_kind == "Subscriber"@ && !has_key(c.subscribers@, reference)
    ||| reference_kind == "LineListing"@ && !has_key(c.line_listings@, reference)
    ||| reference_kind == "CallPremise"@ && !has_key(c.call_premises@, reference)
    ||| reference_kind == "StoryBeat"@ && !has_key(c.story_beats@, reference)
    ||| reference_kind == "StoryEvent"@ && !has_key(c.story_events@, reference)
    ||| reference_kind == "Ending"@ && !has_key(c.endings@, reference)
    ||| reference_kind == "StoryNode"@ && !has_key(c.nodes@, reference)
    ||| reference_kind == "StoryEventOutcome"@ && exists|i: int| 0 <= i < c.story_events@.len()
            && !has_key((#[trigger] c.story_events@[i]).outcomes@, reference)
}

/// `e` reports that `reference` is missing among the records of kind `reference_kind`.
pub open spec fn is_missing_reference(e: GraphCompileError, kind: &str, reference_kind: &str, reference: Seq<char>) -> bool {
    e matches GraphCompileError::MissingReference { kind: k, reference_kind: rk, reference: r }
        && k == kind && rk == reference_kind && r@ == reference
}

/// What a validation error claims about the content is true of it.
pub open spec fn validation_error_holds(c: AuthoredContent, e: GraphCompileError) -> bool {
    match e {
        GraphCompileError::EmptyId { .. } => some_blank_key(c),
        GraphCompileError::DuplicateId { id, .. } => some_shared_key(c, id@),
        GraphCompileError::MissingReference { reference_kind, reference, .. } =>
            reference_missing(c, reference_kind@, reference@),
        GraphCompileError::InvalidLine { listing_id, line } =>
            line >= 12 && exists|i: int| 0 <= i < c.line_listings@.len()
                && (#[trigger] c.line_listings@[i]).id@ == listing_id@ && c.line_listings@[i].line == line,
        GraphCompileError::EmptyLineListing { listing_id } =>
            exists|i: int| 0 <= i < c.line_listings@.len()
                && (#[trigger] c.line_listings@[i]).id@ == listing_id@ && c.line_listings@[i].subscriber_ids@.len() == 0,
        GraphCompileError::DuplicateLine { first_listing_id, second_listing_id, line } =>
            exists|i: int, j: int| 0 <= i < j < c.line_listings@.len()
                && (#[trigger] c.line_listings@[i]).id@ == first_listing_id@ && (#[trigger] c.line_listings@[j]).id@ == second_listing_id@
                && c.line_listings@[i].line == line && c.line_listings@[j].line == line,
        GraphCompileError::CallerLineMismatch { premise_id, subscriber_id, line_id } =>
            exists|i: int| 0 <= i < c.call_premises@.len() && (#[trigger] c.call_premises@[i]).id@ == premise_id@
                && c.call_premises@[i].caller_id@ == subscriber_id@ && c.call_premises@[i].caller_line_id@ == line_id@
                && !listing_holds(c, line_id@, subscriber_id@),
        GraphCompileError::CalleeLineMismatch { premise_id, subscriber_id, line_id } =>
            exists|i: int| 0 <= i < c.call_premises@.len() && (#[trigger] c.call_premises@[i]).id@ == premise_id@
                && c.call_premises@[i].callee_id@ == subscriber_id@ && c.call_premises@[i].callee_line_id@ == line_id@
                && !listing_holds(c, line_id@, subscriber_id@),
        GraphCompileError::SameCallLine { premise_id, line_id } =>
            exists|i: int| 0 <= i < c.call_premises@.len() && (#[trigger] c.call_premises@[i]).id@ == premise_id@
                && c.call_premises@[i].caller_line_id@ == line_id@ && c.call_premises@[i].callee_line_id@ == line_id@,
        GraphCompileError::EmptyDirectorySelections { premise_id } =>
            exists|i: int| 0 <= i < c.call_premises@.len() && (#[trigger] c.call_premises@[i]).id@ == premise_id@
                && c.call_premises@[i].directory_ids@.len() == 0,
        GraphCompileError::InvalidDirectorySelection { premise_id, directory_id } =>
            directory_id > 9999 && exists|i: int| 0 <= i < c.call_premises@.len()
                && (#[trigger] c.call_premises@[i]).id@ == premise_id@ && c.call_premises@[i].directory_ids@.contains(directory_id),
        GraphCompileError::EmptyEventOutcomes { event_id } =>
            exists|i: int| 0 <= i < c.story_events@.len() && (#[trigger] c.story_events@[i]).id@ == event_id@
                && c.story_events@[i].outcomes@.len() == 0,
        GraphCompileError::EmptyEnding { ending_id } =>
            exists|i: int| 0 <= i < c.endings@.len() && (#[trigger] c.endings@[i]).id@ == ending_id@
                && is_blank(c.endings@[i].conclusion@),
        _ => false,
    }
}

/// A compile error as plain values.
pub enum CompileProblem {
    EmptyId { kind: Seq<char> },
    DuplicateId { kind: Seq<char>, id: Seq<char> },
    MissingReference { kind: Seq<char>, reference_kind: Seq<char>, reference: Seq<char> },
    InvalidLine { listing_id: Seq<char>, line: u8 },
    EmptyLineListing { listing_id: Seq<char> },
    DuplicateLine { first_listing_id: Seq<char>, second_listing_id: Seq<char>, line: u8 },
    CallerLineMismatch { premise_id: Seq<char>, subscriber_id: Seq<char>, line_id: Seq<char> },
    CalleeLineMismatch { premise_id: Seq<char>, subscriber_id: Seq<char>, line_id: Seq<char> },
    SameCallLine { premise_id: Seq<char>, line_id: Seq<char> },
    EmptyDirectorySelections { premise_id: Seq<char> },
    InvalidDirectorySelection { premise_id: Seq<char>, directory_id: u16 },
    EmptyEventOutcomes { event_id: Seq<char> },
    EmptyEnding { ending_id: Seq<char> },
    MissingStartNode { node_id: Seq<char> },
    Cycle { node_id: Seq<char> },
    UnreachableNode { node_id: Seq<char> },
}

impl GraphCompileError {
    /// What the error says, as plain values.
    pub open spec fn problem(&self) -> CompileProblem {
        match *self {
            GraphCompileError::EmptyId { kind } => CompileProblem::EmptyId { kind: kind@ },
            GraphCompileError::DuplicateId { kind, id } => CompileProblem::DuplicateId { kind: kind@, id: id@ },
            GraphCompileError::MissingReference { kind, reference_kind, reference } =>
                CompileProblem::MissingReference { kind: kind@, reference_kind: reference_kind@, reference: reference@ },
            GraphCompileError::InvalidLine { listing_id, line } => CompileProblem::InvalidLine { listing_id: listing_id@, line },
            GraphCompileError::EmptyLineListing { listing_id } => CompileProblem::EmptyLineListing { listing_id: listing_id@ },
            GraphCompileError::DuplicateLine { first_listing_id, second_listing_id, line } =>
                CompileProblem::DuplicateLine { first_listing_id: first_listing_id@, second_listing_id: second_listing_id@, line },
            GraphCompileError::CallerLineMismatch { premise_id, subscriber_id, line_id } =>
                CompileProblem::CallerLineMismatch { premise_id: premise_id@, subscriber_id: subscriber_id@, line_id: line_id@ },
            GraphCompileError::CalleeLineMismatch { premise_id, subscriber_id, line_id } =>
                CompileProblem::CalleeLineMismatch { premise_id: premise_id@, subscriber_id: subscriber_id@, line_id: line_id@ },
            GraphCompileError::SameCallLine { premise_id, line_id } =>
                CompileProblem::SameCallLine { premise_id: premise_id@, line_id: line_id@ },
            GraphCompileError::EmptyDirectorySelections { premise_id } =>
                CompileProblem::EmptyDirectorySelections { premise_id: premise_id@ },
            GraphCompileError::InvalidDirectorySelection { premise_id, directory_id } =>
                CompileProblem::InvalidDirectorySelection { premise_id: premise_id@, directory_id },
            GraphCompileError::EmptyEventOutcomes { event_id } => CompileProblem::EmptyEventOutcomes { event_id: event_id@ },
            GraphCompileError::EmptyEnding { ending_id } => CompileProblem::EmptyEnding { ending_id: ending_id@ },
            GraphCompileError::MissingStartNode { node_id } => CompileProblem::MissingStartNode { node_id: node_id@ },
            GraphCompileError::Cycle { node_id } => CompileProblem::Cycle { node_id: node_id@ },
            GraphCompileError::UnreachableNode { node_id } => CompileProblem::UnreachableNode { node_id: node_id@ },
        }
    }
}

/// The first problem of two, in order.
pub open spec fn or_else(first: Option<CompileProblem>, then: Option<CompileProblem>) -> Option<CompileProblem> {
    match first {
        Some(p) => Some(p),
        None => then,
    }
}

/// The first record, from `i` on, whose identifier is blank or repeats an
/// earlier one.
pub open spec fn id_problem_from<T: Keyed>(kind: Seq<char>, items: Seq<T>, i: int) -> Option<CompileProblem>
    decreases items.len() - i,
{
    if i < 0 || i >= items.len() {
        None
    } else if is_blank(items[i].key()) {
        Some(CompileProblem::EmptyId { kind })
    } else if exists|j: int| 0 <= j < i && (#[trigger] items[j]).key() == items[i].key() {
        Some(CompileProblem::DuplicateId { kind, id: items[i].key() })
    } else {
        id_problem_from(kind, items, i + 1)
    }
}

/// A reference that names none of `items`.
pub open spec fn missing<T: Keyed>(kind: Seq<char>, reference_kind: Seq<char>, items: Seq<T>, reference: Seq<char>) -> Option<CompileProblem> {
    if has_key(items, reference) {
        None
    } else {
        Some(CompileProblem::MissingReference { kind, reference_kind, reference })
    }
}

/// The first reference, from `k` on, that names none of `items`.
pub open spec fn missing_from<T: Keyed>(kind: Seq<char>, reference_kind: Seq<char>, items: Seq<T>, references: Seq<Seq<char>>, k: int)
    -> Option<CompileProblem>
    decreases references.len() - k,
{
    if k < 0 || k >= references.len() {
        None
    } else {
        or_else(missing(kind, reference_kind, items, references[k]), missing_from(kind, reference_kind, items, references, k + 1))
    }
}

/// The first problem of a line listing.
pub open spec fn listing_problem(c: AuthoredContent, l: LineListing) -> Option<CompileProblem> {
    if l.line >= 12 {
        Some(CompileProblem::InvalidLine { listing_id: l.id@, line: l.line })
    } else if l.subscriber_ids@.len() == 0 {
        Some(CompileProblem::EmptyLineListing { listing_id: l.id@ })
    } else {
        missing_from("LineListing"@, "Subscriber"@, c.subscribers@, texts(l.subscriber_ids@), 0)
    }
}

/// The first problem among the line listings from `i` on.
pub open spec fn listings_problem_from(c: AuthoredContent, i: int) -> Option<CompileProblem>
    decreases c.line_listings@.len() - i,
{
    if i < 0 || i >= c.line_listings@.len() {
        None
    } else {
        or_else(listing_problem(c, c.line_listings@[i]), listings_problem_from(c, i + 1))
    }
}

/// The first listing, from `j` on, on the same line as listing `i`.
pub open spec fn same_line_from(c: AuthoredContent, i: int, j: int) -> Option<CompileProblem>
    decreases c.line_listings@.len() - j,
{
    if j < 0 || j >= c.line_listings@.len() {
        None
    } else if c.line_listings@[j].line == c.line_listings@[i].line {
        Some(CompileProblem::DuplicateLine {
            first_listing_id: c.line_listings@[i].id@,
            second_listing_id: c.line_listings@[j].id@,
            line: c.line_listings@[i].line,
        })
    } else {
        same_line_from(c, i, j + 1)
    }
}

/// The first listing, from `i` on, that a later listing shares a line with.
pub open spec fn line_clash_from(c: AuthoredContent, i: int) -> Option<CompileProblem>
    decreases c.line_listings@.len() - i,
{
    if i < 0 || i >= c.line_listings@.len() {
        None
    } else {
        or_else(same_line_from(c, i, i + 1), line_clash_from(c, i + 1))
    }
}

/// The first directory identifier, from `k` on, above 9999.
pub open spec fn large_directory_from(ids: Seq<u16>, k: int) -> Option<u16>
    decreases ids.len() - k,
{
    if k < 0 || k >= ids.len() {
        None
    } else if ids[k] > 9999 {
        Some(ids[k])
    } else {
        large_directory_from(ids, k + 1)
    }
}

/// The first problem of a call premise.
pub open spec fn premise_problem(c: AuthoredContent, p: CallPremise) -> Option<CompileProblem> {
    if p.directory_ids@.len() == 0 {
        Some(CompileProblem::EmptyDirectorySelections { premise_id: p.id@ })
    } else if large_directory_from(p.directory_ids@, 0) is Some {
        Some(CompileProblem::InvalidDirectorySelection {
            premise_id: p.id@,
            directory_id: large_directory_from(p.directory_ids@, 0).unwrap(),
        })
    } else {
        or_else(missing("CallPremise"@, "Subscriber"@, c.subscribers@, p.caller_id@),
        or_else(missing("CallPremise"@, "Subscriber"@, c.subscribers@, p.callee_id@),
        or_else(missing("CallPremise"@, "LineListing"@, c.line_listings@, p.caller_line_id@),
        or_else(missing("CallPremise"@, "LineListing"@, c.line_listings@, p.callee_line_id@),
            if p.caller_line_id@ == p.callee_line_id@ {
                Some(CompileProblem::SameCallLine { premise_id: p.id@, line_id: p.caller_line_id@ })
            } else if !listing_holds(c, p.caller_line_id@, p.caller_id@) {
                Some(CompileProblem::CallerLineMismatch { premise_id: p.id@, subscriber_id: p.caller_id@, line_id: p.caller_line_id@ })
            } else if !listing_holds(c, p.callee_line_id@, p.callee_id@) {
                Some(CompileProblem::CalleeLineMismatch { premise_id: p.id@, subscriber_id: p.callee_id@, line_id: p.callee_line_id@ })
            } else {
                None
            }))))
    }
}

/// The first problem among the call premises from `i` on.
pub open spec fn premises_problem_from(c: AuthoredContent, i: int) -> Option<CompileProblem>
    decreases c.call_premises@.len() - i,
{
    if i < 0 || i >= c.call_premises@.len() {
        None
    } else {
        or_else(premise_problem(c, c.call_premises@[i]), premises_problem_from(c, i + 1))
    }
}

/// The first beat, from `i` on, whose premise was not authored.
pub open spec fn beats_problem_from(c: AuthoredContent, i: int) -> Option<CompileProblem>
    decreases c.story_beats@.len() - i,
{
    if i < 0 || i >= c.story_beats@.len() {
        None
    } else {
        or_else(missing("StoryBeat"@, "CallPremise"@, c.call_premises@, c.story_beats@[i].call_premise_id@),
            beats_problem_from(c, i + 1))
    }
}

/// The successors that an event's outcomes name.
pub open spec fn outcome_targets(outcomes: Seq<StoryEventOutcome>) -> Seq<Seq<char>> {
    outcomes.map_values(|o: StoryEventOutcome| o.next_node_id@)
}

/// The first problem of a story event.
pub open spec fn event_problem(c: AuthoredContent, e: StoryEvent) -> Option<CompileProblem> {
    if e.outcomes@.len() == 0 {
        Some(CompileProblem::EmptyEventOutcomes { event_id: e.id@ })
    } else {
        or_else(id_problem_from("StoryEventOutcome"@, e.outcomes@, 0),
            missing_from("StoryEventOutcome"@, "StoryNode"@, c.nodes@, outcome_targets(e.outcomes@), 0))
    }
}

/// The first problem among the story events from `i` on.
pub open spec fn events_problem_from(c: AuthoredContent, i: int) -> Option<CompileProblem>
    decreases c.story_events@.len() - i,
{
    if i < 0 || i >= c.story_events@.len() {
        None
    } else {
        or_else(event_problem(c, c.story_events@[i]), events_problem_from(c, i + 1))
    }
}

/// The first ending, from `i` on, with a blank conclusion.
pub open spec fn endings_problem_from(c: AuthoredContent, i: int) -> Option<CompileProblem>
    decreases c.endings@.len() - i,
{
    if i < 0 || i >= c.endings@.len() {
        None
    } else if is_blank(c.endings@[i].conclusion@) {
        Some(CompileProblem::EmptyEnding { ending_id: c.endings@[i].id@ })
    } else {
        endings_problem_from(c, i + 1)
    }
}

/// The first problem of a node's references.
pub open spec fn node_problem(c: AuthoredContent, n: StoryNode) -> Option<CompileProblem> {
    match n.kind {
        StoryNodeKind::RunStart { next_node_id } => missing("RunStart"@, "StoryNode"@, c.nodes@, next_node_id@),
        StoryNodeKind::ShiftCall { beat_id, on_success, on_missed, on_invalid } =>
            or_else(missing("ShiftCall"@, "StoryBeat"@, c.story_beats@, beat_id@),
            or_else(missing("ShiftCall"@, "StoryNode"@, c.nodes@, on_success@),
            or_else(missing("ShiftCall"@, "StoryNode"@, c.nodes@, on_missed@),
                missing("ShiftCall"@, "StoryNode"@, c.nodes@, on_invalid@)))),
        StoryNodeKind::StoryEvent { event_id, default_outcome_id } =>
            if !has_key(c.story_events@, event_id@) {
                missing("StoryEventNode"@, "StoryEvent"@, c.story_events@, event_id@)
            } else {
                missing("StoryEventNode"@, "StoryEventOutcome"@,
                    c.story_events@[first_key(c.story_events@, event_id@)].outcomes@, default_outcome_id@)
            },
        StoryNodeKind::Conditional { on_met, on_unmet, .. } =>
            or_else(missing("Conditional"@, "StoryNode"@, c.nodes@, on_met@),
                missing("Conditional"@, "StoryNode"@, c.nodes@, on_unmet@)),
        StoryNodeKind::Ending { ending_id } => missing("EndingNode"@, "Ending"@, c.endings@, ending_id@),
    }
}

/// The first problem among the nodes from `i` on.
pub open spec fn nodes_problem_from(c: AuthoredContent, i: int) -> Option<CompileProblem>
    decreases c.nodes@.len() - i,
{
    if i < 0 || i >= c.nodes@.len() {
        None
    } else {
        or_else(node_problem(c, c.nodes@[i]), nodes_problem_from(c, i + 1))
    }
}

/// The first problem among the identifiers of every kind, in the order the
/// kinds are checked.
pub open spec fn keys_problem(c: AuthoredContent) -> Option<CompileProblem> {
    or_else(id_problem_from("Subscriber"@, c.subscribers@, 0),
    or_else(id_problem_from("LineListing"@, c.line_listings@, 0),
    or_else(id_problem_from("CallPremise"@, c.call_premises@, 0),
    or_else(id_problem_from("StoryBeat"@, c.story_beats@, 0),
    or_else(id_problem_from("StoryEvent"@, c.story_events@, 0),
    or_else(id_problem_from("Ending"@, c.endings@, 0),
        id_problem_from("StoryNode"@, c.nodes@, 0)))))))
}

/// The first problem that validation reports: identifiers, then listings,
/// shared lines, premises, beats, events, endings, the start node and the
/// nodes, each kind in authored order.
pub open spec fn first_problem(c: AuthoredContent) -> Option<CompileProblem> {
    or_else(keys_problem(c),
    or_else(listings_problem_from(c, 0),
    or_else(line_clash_from(c, 0),
    or_else(premises_problem_from(c, 0),
    or_else(beats_problem_from(c, 0),
    or_else(events_problem_from(c, 0),
    or_else(endings_problem_from(c, 0),
    or_else(missing("AuthoredContent"@, "StoryNode"@, c.nodes@, c.start_node_id@),
        nodes_problem_from(c, 0)))))))))
}

/// Identifiers must be non-blank and unique within their kind.
fn validate_ids<T: Keyed>(kind: &'static str, items: &[T]) -> (result: Result<(), GraphCompileError>)
    ensures
        result is Ok <==> ids_ok(items@),
        result matches Err(e) ==> (e matches GraphCompileError::EmptyId { .. } && blank_key(items@))
            || (e matches GraphCompileError::DuplicateId { id, .. } && shared_key(items@, id@)),
        match result {
            Ok(()) => id_problem_from(kind@, items@, 0) is None,
            Err(e) => id_problem_from(kind@, items@, 0) == Some(e.problem()),
        },
{
    let mut i: usize = 0;
    while i < items.len()
        invariant
            i <= items@.len(),
            forall|k: int| 0 <= k < i ==> !is_blank((#[trigger] items@[k]).key()),
            forall|a: int, b: int| 0 <= a < b < i ==> (#[trigger] items@[a]).key() != (#[trigger] items@[b]).key(),
            id_problem_from(kind@, items@, 0) == id_problem_from(kind@, items@, i as int),
        decreases items@.len() - i,
    {
        let id = items[i].key_text();
        if blank(id) {
            assert(is_blank(items@[i as int].key()));
            return Err(GraphCompileError::EmptyId { kind });
        }
        let mut j: usize = 0;
        while j < i
            invariant
                j <= i,
                i < items@.len(),
                id@ == items@[i as int].key(),
                forall|k: int| 0 <= k < j ==> (#[trigger] items@[k]).key() != id@,
                !is_blank(items@[i as int].key()),
                id_problem_from(kind@, items@, 0) == id_problem_from(kind@, items@, i as int),
            decreases i - j,
        {
            if same_text(items[j].key_text(), id) {
                let dup = String::from_str(id);
                assert(items@[j as int].key() == dup@ && items@[i as int].key() == dup@);
                return Err(GraphCompileError::DuplicateId { kind, id: dup });
            }
            j = j + 1;
        }
        assert(!exists|j: int| 0 <= j < i && (#[trigger] items@[j]).key() == items@[i as int].key());
        i = i + 1;
    }
    Ok(())
}

/// The reference must name one of `items`; gives the position of the record it names.
fn require_reference<T: Keyed>(
    kind: &'static str,
    reference_kind: &'static str,
    reference: &str,
    items: &[T],
) -> (result: Result<usize, GraphCompileError>)
    ensures
        match result {
            Ok(i) => i < items@.len() && items@[i as int].key() == reference@
                && forall|j: int| 0 <= j < i ==> (#[trigger] items@[j]).key() != reference@,
            Err(e) => !has_key(items@, reference@) && is_missing_reference(e, kind, reference_kind, reference@),
        },
        match result {
            Ok(_) => missing(kind@, reference_kind@, items@, reference@) is None,
            Err(e) => missing(kind@, reference_kind@, items@, reference@) == Some(e.problem()),
        },
{
    match position_by_key(items, reference) {
        Some(i) => Ok(i),
        None => Err(GraphCompileError::MissingReference { kind, reference_kind, reference: String::from_str(reference) }),
    }
}

/// The reference must name one of `items`.
fn require_id<T: Keyed>(
    kind: &'static str,
    reference_kind: &'static str,
    reference: &str,
    items: &[T],
) -> (result: Result<(), GraphCompileError>)
    ensures
        result is Ok <==> has_key(items@, reference@),
        result matches Err(e) ==> is_missing_reference(e, kind, reference_kind, reference@),
        match result {
            Ok(()) => missing(kind@, reference_kind@, items@, reference@) is None,
            Err(e) => missing(kind@, reference_kind@, items@, reference@) == Some(e.problem()),
        },
{
    match require_reference(kind, reference_kind, reference, items) {
        Ok(_) => Ok(()),
        Err(e) => Err(e),
    }
}

fn check_listing(c: &AuthoredContent, i: usize) -> (result: Result<(), GraphCompileError>)
    requires
        i < c.line_listings@.len(),
    ensures
        result is Ok <==> listing_ok(*c, c.line_listings@[i as int]),
        result matches Err(e) ==> validation_error_holds(*c, e),
        match result {
            Ok(()) => listing_problem(*c, c.line_listings@[i as int]) is None,
            Err(e) => listing_problem(*c, c.line_listings@[i as int]) == Some(e.problem()),
        },
{
    let listing = &c.line_listings[i];
    if listing.line >= 12 {
        let e = GraphCompileError::InvalidLine { listing_id: listing.id.clone(), line: listing.line };
        assert(c.line_listings@[i as int].id@ == listing.id@);
        return Err(e);
    }
    if listing.subscriber_ids.len() == 0 {
        let e = GraphCompileError::EmptyLineListing { listing_id: listing.id.clone() };
        assert(c.line_listings@[i as int].id@ == listing.id@);
        return Err(e);
    }
    let mut k: usize = 0;
    while k < listing.subscriber_ids.len()
        invariant
            i < c.line_listings@.len(),
            *listing == c.line_listings@[i as int],
            k <= listing.subscriber_ids@.len(),
            forall|m: int| 0 <= m < k ==> has_key(c.subscribers@, (#[trigger] listing.subscriber_ids@[m])@),
            listing.line < 12,
            listing.subscriber_ids@.len() > 0,
            missing_from("LineListing"@, "Subscriber"@, c.subscribers@, texts(listing.subscriber_ids@), 0)
                == missing_from("LineListing"@, "Subscriber"@, c.subscribers@, texts(listing.subscriber_ids@), k as int),
        decreases listing.subscriber_ids@.len() - k,
    {
        assert(texts(listing.subscriber_ids@)[k as int] == listing.subscriber_ids@[k as int]@);
        match require_id("LineListing", "Subscriber", listing.subscriber_ids[k].as_str(), c.subscribers.as_slice()) {
            Ok(()) => {},
            Err(e) => { return Err(e); },
        }
        k = k + 1;
    }
    Ok(())
}

fn check_line_unique(c: &AuthoredContent, i: usize) -> (result: Result<(), GraphCompileError>)
    requires
        i < c.line_listings@.len(),
    ensures
        result is Ok <==> forall|j: int| i < j < c.line_listings@.len()
            ==> (#[trigger] c.line_listings@[j]).line != c.line_listings@[i as int].line,
        result matches Err(e) ==> validation_error_holds(*c, e),
        match result {
            Ok(()) => same_line_from(*c, i as int, i + 1) is None,
            Err(e) => same_line_from(*c, i as int, i + 1) == Some(e.problem()),
        },
{
    let first = &c.line_listings[i];
    let n = c.line_listings.len();
    let mut j: usize = i + 1;
    while j < c.line_listings.len()
        invariant
            i < j <= c.line_listings@.len(),
            *first == c.line_listings@[i as int],
            forall|m: int| i < m < j ==> (#[trigger] c.line_listings@[m]).line != first.line,
            same_line_from(*c, i as int, i + 1) == same_line_from(*c, i as int, j as int),
        decreases c.line_listings@.len() - j,
    {
        let second = &c.line_listings[j];
        if second.line == first.line {
            let e = GraphCompileError::DuplicateLine {
                first_listing_id: first.id.clone(),
                second_listing_id: second.id.clone(),
                line: first.line,
            };
            assert(c.line_listings@[i as int].id@ == first.id@ && c.line_listings@[j as int].id@ == second.id@);
            return Err(e);
        }
        j = j + 1;
    }
    Ok(())
}

fn check_premise(c: &AuthoredContent, i: usize) -> (result: Result<(), GraphCompileError>)
    requires
        i < c.call_premises@.len(),
        ids_ok(c.line_listings@),
    ensures
        result is Ok <==> premise_ok(*c, c.call_premises@[i as int]),
        result matches Err(e) ==> validation_error_holds(*c, e),
        match result {
            Ok(()) => premise_problem(*c, c.call_premises@[i as int]) is None,
            Err(e) => premise_problem(*c, c.call_premises@[i as int]) == Some(e.problem()),
        },
{
    let p = &c.call_premises[i];
    assert(c.call_premises@[i as int].id@ == p.id@);
    if p.directory_ids.len() == 0 {
        return Err(GraphCompileError::EmptyDirectorySelections { premise_id: p.id.clone() });
    }
    let mut k: usize = 0;
    while k < p.directory_ids.len()
        invariant
            i < c.call_premises@.len(),
            *p == c.call_premises@[i as int],
            k <= p.directory_ids@.len(),
            forall|m: int| 0 <= m < k ==> #[trigger] p.directory_ids@[m] <= 9999,
            large_directory_from(p.directory_ids@, 0) == large_directory_from(p.directory_ids@, k as int),
        decreases p.directory_ids@.len() - k,
    {
        let directory_id = p.directory_ids[k];
        if directory_id > 9999 {
            assert(p.directory_ids@[k as int] == directory_id);
            assert(c.call_premises@[i as int].directory_ids@.contains(directory_id));
            return Err(GraphCompileError::InvalidDirectorySelection { premise_id: p.id.clone(), directory_id });
        }
        k = k + 1;
    }
    match require_id("CallPremise", "Subscriber", p.caller_id.as_str(), c.subscribers.as_slice()) {
        Ok(()) => {},
        Err(e) => { return Err(e); },
    }
    match require_id("CallPremise", "Subscriber", p.callee_id.as_str(), c.subscribers.as_slice()) {
        Ok(()) => {},
        Err(e) => { return Err(e); },
    }
    let caller_line = match require_reference("CallPremise", "LineListing", p.caller_line_id.as_str(), c.line_listings.as_slice()) {
        Ok(index) => index,
        Err(e) => { return Err(e); },
    };
    let callee_line = match require_reference("CallPremise", "LineListing", p.callee_line_id.as_str(), c.line_listings.as_slice()) {
        Ok(index) => index,
        Err(e) => { return Err(e); },
    };
    if same_text(p.caller_line_id.as_str(), p.callee_line_id.as_str()) {
        return Err(GraphCompileError::SameCallLine { premise_id: p.id.clone(), line_id: p.caller_line_id.clone() });
    }
    if !contains_text(&c.line_listings[caller_line].subscriber_ids, p.caller_id.as_str()) {
        assert forall|li: int| 0 <= li < c.line_listings@.len() && (#[trigger] c.line_listings@[li]).id@ == p.caller_line_id@
            implies li == caller_line by {
            if li != caller_line as int {
                assert(c.line_listings@[li].key() == c.line_listings@[caller_line as int].key());
            }
        }
        return Err(GraphCompileError::CallerLineMismatch {
            premise_id: p.id.clone(),
            subscriber_id: p.caller_id.clone(),
            line_id: p.caller_line_id.clone(),
        });
    }
    if !contains_text(&c.line_listings[callee_line].subscriber_ids, p.callee_id.as_str()) {
        assert forall|li: int| 0 <= li < c.line_listings@.len() && (#[trigger] c.line_listings@[li]).id@ == p.callee_line_id@
            implies li == callee_line by {
            if li != callee_line as int {
                assert(c.line_listings@[li].key() == c.line_listings@[callee_line as int].key());
            }
        }
        return Err(GraphCompileError::CalleeLineMismatch {
            premise_id: p.id.clone(),
            subscriber_id: p.callee_id.clone(),
            line_id: p.callee_line_id.clone(),
        });
    }
    assert(c.line_listings@[caller_line as int].id@ == p.caller_line_id@);
    assert(c.line_listings@[callee_line as int].id@ == p.callee_line_id@);
    Ok(())
}

fn check_event(c: &AuthoredContent, i: usize) -> (result: Result<(), GraphCompileError>)
    requires
        i < c.story_events@.len(),
    ensures
        result is Ok <==> event_ok(*c, c.story_events@[i as int]),
        result matches Err(e) ==> validation_error_holds(*c, e),
        match result {
            Ok(()) => event_problem(*c, c.story_events@[i as int]) is None,
            Err(e) => event_problem(*c, c.story_events@[i as int]) == Some(e.problem()),
        },
{
    let event = &c.story_events[i];
    if event.outcomes.len() == 0 {
        assert(c.story_events@[i as int].id@ == event.id@);
        return Err(GraphCompileError::EmptyEventOutcomes { event_id: event.id.clone() });
    }
    match validate_ids("StoryEventOutcome", event.outcomes.as_slice()) {
        Ok(()) => {},
        Err(e) => {
            assert(event.outcomes@ == c.story_events@[i as int].outcomes@);
            return Err(e);
        },
    }
    let mut k: usize = 0;
    while k < event.outcomes.len()
        invariant
            *event == c.story_events@[i as int],
            k <= event.outcomes@.len(),
            forall|m: int| 0 <= m < k ==> has_key(c.nodes@, (#[trigger] event.outcomes@[m]).next_node_id@),
            event.outcomes@.len() > 0,
            id_problem_from("StoryEventOutcome"@, event.outcomes@, 0) is None,
            missing_from("StoryEventOutcome"@, "StoryNode"@, c.nodes@, outcome_targets(event.outcomes@), 0)
                == missing_from("StoryEventOutcome"@, "StoryNode"@, c.nodes@, outcome_targets(event.outcomes@), k as int),
        decreases event.outcomes@.len() - k,
    {
        assert(outcome_targets(event.outcomes@)[k as int] == event.outcomes@[k as int].next_node_id@);
        match require_id("StoryEventOutcome", "StoryNode", event.outcomes[k].next_node_id.as_str(), c.nodes.as_slice()) {
            Ok(()) => {},
            Err(e) => { return Err(e); },
        }
        k = k + 1;
    }
    Ok(())
}

fn check_node(c: &AuthoredContent, i: usize) -> (result: Result<(), GraphCompileError>)
    requires
        i < c.nodes@.len(),
        ids_ok(c.story_events@),
    ensures
        result is Ok <==> node_ok(*c, c.nodes@[i as int]),
        result matches Err(e) ==> validation_error_holds(*c, e),
        match result {
            Ok(()) => node_problem(*c, c.nodes@[i as int]) is None,
            Err(e) => node_problem(*c, c.nodes@[i as int]) == Some(e.problem()),
        },
{
    let nodes = c.nodes.as_slice();
    match &c.nodes[i].kind {
        StoryNodeKind::RunStart { next_node_id } => require_id("RunStart", "StoryNode", next_node_id.as_str(), nodes),
        StoryNodeKind::ShiftCall { beat_id, on_success, on_missed, on_invalid } => {
            match require_reference("ShiftCall", "StoryBeat", beat_id.as_str(), c.story_beats.as_slice()) {
                Ok(_) => {},
                Err(e) => { return Err(e); },
            }
            match require_id("ShiftCall", "StoryNode", on_success.as_str(), nodes) {
                Ok(()) => {},
                Err(e) => { return Err(e); },
            }
            match require_id("ShiftCall", "StoryNode", on_missed.as_str(), nodes) {
                Ok(()) => {},
                Err(e) => { return Err(e); },
            }
            require_id("ShiftCall", "StoryNode", on_invalid.as_str(), nodes)
        },
        StoryNodeKind::StoryEvent { event_id, default_outcome_id } => {
            let k = match require_reference("StoryEventNode", "StoryEvent", event_id.as_str(), c.story_events.as_slice()) {
                Ok(k) => k,
                Err(e) => { return Err(e); },
            };
            let found = require_reference(
                "StoryEventNode",
                "StoryEventOutcome",
                default_outcome_id.as_str(),
                c.story_events[k].outcomes.as_slice(),
            );
            assert(c.story_events@[k as int].id@ == event_id@);
            proof { lemma_first_key(c.story_events@, event_id@, k as int); }
            assert forall|m: int| 0 <= m < c.story_events@.len() && (#[trigger] c.story_events@[m]).id@ == event_id@
                implies m == k by {
                if m != k as int {
                    assert(c.story_events@[m].key() == c.story_events@[k as int].key());
                }
            }
            match found {
                Ok(_) => Ok(()),
                Err(e) => Err(e),
            }
        },
        StoryNodeKind::Conditional { on_met, on_unmet, .. } => {
            match require_id("Conditional", "StoryNode", on_met.as_str(), nodes) {
                Ok(()) => {},
                Err(e) => { return Err(e); },
            }
            require_id("Conditional", "StoryNode", on_unmet.as_str(), nodes)
        },
        StoryNodeKind::Ending { ending_id } => require_id("EndingNode", "Ending", ending_id.as_str(), c.endings.as_slice()),
    }
}

/// Checks the content's identifiers, lines, calls and references, in the
/// order an author would fix them; the first problem found is reported.
pub fn validate_authored_content(content: &AuthoredContent) -> (result: Result<(), GraphCompileError>)
    ensures
        result is Ok <==> content_valid(*content),
        result matches Err(e) ==> validation_error_holds(*content, e),
        match result {
            Ok(()) => first_problem(*content) is None,
            Err(e) => first_problem(*content) == Some(e.problem()),
        },
{
    let c = content;
    match validate_ids("Subscriber", c.subscribers.as_slice()) { Ok(()) => {}, Err(e) => { return Err(e); } }
    match validate_ids("LineListing", c.line_listings.as_slice()) { Ok(()) => {}, Err(e) => { return Err(e); } }
    match validate_ids("CallPremise", c.call_premises.as_slice()) { Ok(()) => {}, Err(e) => { return Err(e); } }
    match validate_ids("StoryBeat", c.story_beats.as_slice()) { Ok(()) => {}, Err(e) => { return Err(e); } }
    match validate_ids("StoryEvent", c.story_events.as_slice()) { Ok(()) => {}, Err(e) => { return Err(e); } }
    match validate_ids("Ending", c.endings.as_slice()) { Ok(()) => {}, Err(e) => { return Err(e); } }
    match validate_ids("StoryNode", c.nodes.as_slice()) { Ok(()) => {}, Err(e) => { return Err(e); } }

    let mut i: usize = 0;
    while i < c.line_listings.len()
        invariant
            c == content,
            keys_ok(*c),
            i <= c.line_listings@.len(),
            forall|m: int| 0 <= m < i ==> listing_ok(*c, #[trigger] c.line_listings@[m]),
            keys_problem(*c) is None,
            listings_problem_from(*c, 0) == listings_problem_from(*c, i as int),
        decreases c.line_listings@.len() - i,
    {
        match check_listing(c, i) { Ok(()) => {}, Err(e) => { return Err(e); } }
        i = i + 1;
    }
    let mut i: usize = 0;
    while i < c.line_listings.len()
        invariant
            c == content,
            keys_ok(*c),
            i <= c.line_listings@.len(),
            forall|a: int, b: int| 0 <= a < i && a < b < c.line_listings@.len()
                ==> (#[trigger] c.line_listings@[a]).line != (#[trigger] c.line_listings@[b]).line,
            keys_problem(*c) is None,
            listings_problem_from(*c, 0) is None,
            line_clash_from(*c, 0) == line_clash_from(*c, i as int),
        decreases c.line_listings@.len() - i,
    {
        let checked = check_line_unique(c, i);
        match checked { Ok(()) => {}, Err(e) => { return Err(e); } }
        i = i + 1;
    }
    let mut i: usize = 0;
    while i < c.call_premises.len()
        invariant
            c == content,
            keys_ok(*c),
            ids_ok(c.line_listings@),
            i <= c.call_premises@.len(),
            forall|m: int| 0 <= m < i ==> premise_ok(*c, #[trigger] c.call_premises@[m]),
            keys_problem(*c) is None,
            listings_problem_from(*c, 0) is None,
            line_clash_from(*c, 0) is None,
            premises_problem_from(*c, 0) == premises_problem_from(*c, i as int),
        decreases c.call_premises@.len() - i,
    {
        match check_premise(c, i) { Ok(()) => {}, Err(e) => { return Err(e); } }
        i = i + 1;
    }
    let mut i: usize = 0;
    while i < c.story_beats.len()
        invariant
            c == content,
            keys_ok(*c),
            i <= c.story_beats@.len(),
            forall|m: int| 0 <= m < i ==> has_key(c.call_premises@, (#[trigger] c.story_beats@[m]).call_premise_id@),
            keys_problem(*c) is None,
            listings_problem_from(*c, 0) is None,
            line_clash_from(*c, 0) is None,
            premises_problem_from(*c, 0) is None,
            beats_problem_from(*c, 0) == beats_problem_from(*c, i as int),
        decreases c.story_beats@.len() - i,
    {
        let beat = &c.story_beats[i];
        match require_id("StoryBeat", "CallPremise", beat.call_premise_id.as_str(), c.call_premises.as_slice()) {
            Ok(()) => {},
            Err(e) => { return Err(e); },
        }
        i = i + 1;
    }
    let mut i: usize = 0;
    while i < c.story_events.len()
        invariant
            c == content,
            keys_ok(*c),
            i <= c.story_events@.len(),
            forall|m: int| 0 <= m < i ==> event_ok(*c, #[trigger] c.story_events@[m]),
            keys_problem(*c) is None,
            listings_problem_from(*c, 0) is None,
            line_clash_from(*c, 0) is None,
            premises_problem_from(*c, 0) is None,
            beats_problem_from(*c, 0) is None,
            events_problem_from(*c, 0) == events_problem_from(*c, i as int),
        decreases c.story_events@.len() - i,
    {
        match check_event(c, i) { Ok(()) => {}, Err(e) => { return Err(e); } }
        i = i + 1;
    }
    let mut i: usize = 0;
    while i < c.endings.len()
        invariant
            c == content,
            keys_ok(*c),
            i <= c.endings@.len(),
            forall|m: int| 0 <= m < i ==> !is_blank((#[trigger] c.endings@[m]).conclusion@),
            keys_problem(*c) is None,
            listings_problem_from(*c, 0) is None,
            line_clash_from(*c, 0) is None,
            premises_problem_from(*c, 0) is None,
            beats_problem_from(*c, 0) is None,
            events_problem_from(*c, 0) is None,
            endings_problem_from(*c, 0) == endings_problem_from(*c, i as int),
        decreases c.endings@.len() - i,
    {
        let ending = &c.endings[i];
        if blank(ending.conclusion.as_str()) {
            assert(c.endings@[i as int].id@ == ending.id@);
            return Err(GraphCompileError::EmptyEnding { ending_id: ending.id.clone() });
        }
        i = i + 1;
    }
    match require_id("AuthoredContent", "StoryNode", c.start_node_id.as_str(), c.nodes.as_slice()) {
        Ok(()) => {},
        Err(e) => { return Err(e); },
    }
    let mut i: usize = 0;
    while i < c.nodes.len()
        invariant
            c == content,
            keys_ok(*c),
            ids_ok(c.story_events@),
            i <= c.nodes@.len(),
            forall|m: int| 0 <= m < i ==> node_ok(*c, #[trigger] c.nodes@[m]),
            keys_problem(*c) is None,
            listings_problem_from(*c, 0) is None,
            line_clash_from(*c, 0) is None,
            premises_problem_from(*c, 0) is None,
            beats_problem_from(*c, 0) is None,
            events_problem_from(*c, 0) is None,
            endings_problem_from(*c, 0) is None,
            missing("AuthoredContent"@, "StoryNode"@, c.nodes@, c.start_node_id@) is None,
            nodes_problem_from(*c, 0) == nodes_problem_from(*c, i as int),
        decreases c.nodes@.len() - i,
    {
        match check_node(c, i) { Ok(()) => {}, Err(e) => { return Err(e); } }
        i = i + 1;
    }
    Ok(())
}

// ---------------------------------------------------------------------------
// The edges of the story graph.

/// Position `i` holds the first record keyed `k`.
pub open spec fn first_key_at<T: Keyed>(items: Seq<T>, k: Seq<char>, i: int) -> bool {
    &&& 0 <= i < items.len()
    &&& items[i].key() == k
    &&& forall|j: int| 0 <= j < i ==> (#[trigger] items[j]).key() != k
}

/// The position of the first record keyed `k` (meaningful where `has_key`).
pub open spec fn first_key<T: Keyed>(items: Seq<T>, k: Seq<char>) -> int {
    choose|i: int| first_key_at(items, k, i)
}

/// The first record keyed `k` is at `i`, and `first_key` names it.
pub proof fn lemma_first_key<T: Keyed>(items: Seq<T>, k: Seq<char>, i: int)
    requires
        first_key_at(items, k, i),
    ensures
        first_key(items, k) == i,
        has_key(items, k),
{
    let j = first_key(items, k);
    assert(first_key_at(items, k, j));
    if j < i {
        assert(items[j].key() != k);
    } else if i < j {
        assert(items[i].key() != k);
    }
}

/// With unique keys, the record keyed `k` is the first one.
pub proof fn lemma_unique_first<T: Keyed>(items: Seq<T>, i: int)
    requires
        unique_keys(items),
        0 <= i < items.len(),
    ensures
        first_key_at(items, items[i].key(), i),
        first_key(items, items[i].key()) == i,
{
    assert forall|j: int| 0 <= j < i implies (#[trigger] items[j]).key() != items[i].key() by {
        assert(items[j].key() != items[i].key());
    }
    lemma_first_key(items, items[i].key(), i);
}

/// The texts of a list of strings.
pub open spec fn texts(v: Seq<String>) -> Seq<Seq<char>> {
    v.map_values(|s: String| s@)
}

/// The successors of the outcomes other than `default`, in authored order.
pub open spec fn other_targets(outcomes: Seq<StoryEventOutcome>, default: Seq<char>) -> Seq<Seq<char>>
    decreases outcomes.len(),
{
    if outcomes.len() == 0 {
        Seq::empty()
    } else if outcomes.last().id@ == default {
        other_targets(outcomes.drop_last(), default)
    } else {
        other_targets(outcomes.drop_last(), default).push(outcomes.last().next_node_id@)
    }
}

/// The successors of an event: its default outcome's first, then the others.
pub open spec fn event_targets(outcomes: Seq<StoryEventOutcome>, default: Seq<char>) -> Seq<Seq<char>> {
    let head = if has_key(outcomes, default) {
        seq![outcomes[first_key(outcomes, default)].next_node_id@]
    } else {
        Seq::empty()
    };
    head + other_targets(outcomes, default)
}

/// The successors of a node, in the order the runtime prefers them.
pub open spec fn node_targets(events: Seq<StoryEvent>, n: StoryNode) -> Seq<Seq<char>> {
    match n.kind {
        StoryNodeKind::RunStart { next_node_id } => seq![next_node_id@],
        StoryNodeKind::ShiftCall { on_success, on_missed, on_invalid, .. } =>
            seq![on_success@, on_missed@, on_invalid@],
        StoryNodeKind::StoryEvent { event_id, default_outcome_id } =>
            if has_key(events, event_id@) {
                event_targets(events[first_key(events, event_id@)].outcomes@, default_outcome_id@)
            } else {
                Seq::empty()
            },
        StoryNodeKind::Conditional { on_met, on_unmet, .. } => seq![on_met@, on_unmet@],
        StoryNodeKind::Ending { .. } => Seq::empty(),
    }
}

proof fn lemma_other_targets_are_outcomes(outcomes: Seq<StoryEventOutcome>, default: Seq<char>, k: int)
    requires
        0 <= k < other_targets(outcomes, default).len(),
    ensures
        exists|m: int| 0 <= m < outcomes.len() && (#[trigger] outcomes[m]).next_node_id@ == other_targets(outcomes, default)[k],
    decreases outcomes.len(),
{
    let rest = other_targets(outcomes.drop_last(), default);
    if outcomes.len() > 0 {
        if outcomes.last().id@ != default && k == rest.len() {
            assert(outcomes[outcomes.len() - 1].next_node_id@ == other_targets(outcomes, default)[k]);
        } else {
            lemma_other_targets_are_outcomes(outcomes.drop_last(), default, k);
            let m = choose|m: int| 0 <= m < outcomes.drop_last().len() && (#[trigger] outcomes.drop_last()[m]).next_node_id@ == rest[k];
            assert(outcomes[m] == outcomes.drop_last()[m]);
        }
    }
}

/// Every successor named by a node of valid content is a node.
pub proof fn lemma_targets_exist(c: AuthoredContent, i: int, k: int)
    requires
        content_valid(c),
        0 <= i < c.nodes@.len(),
        0 <= k < node_targets(c.story_events@, c.nodes@[i]).len(),
    ensures
        has_key(c.nodes@, node_targets(c.story_events@, c.nodes@[i])[k]),
{
    let n = c.nodes@[i];
    assert(node_ok(c, n));
    match n.kind {
        StoryNodeKind::StoryEvent { event_id, default_outcome_id } => {
            let e = c.story_events@[first_key(c.story_events@, event_id@)];
            let idx = choose|x: int| 0 <= x < c.story_events@.len() && (#[trigger] c.story_events@[x]).key() == event_id@;
            assert(first_key_at(c.story_events@, event_id@, first_key(c.story_events@, event_id@))) by {
                lemma_unique_first(c.story_events@, idx);
            }
            let fe = first_key(c.story_events@, event_id@);
            assert(event_ok(c, c.story_events@[fe]));
            let outs = e.outcomes@;
            let t = event_targets(outs, default_outcome_id@);
            if has_key(outs, default_outcome_id@) && k == 0 {
                let o = choose|x: int| 0 <= x < outs.len() && (#[trigger] outs[x]).key() == default_outcome_id@;
                lemma_unique_first(outs, o);
                assert(has_key(c.nodes@, outs[o].next_node_id@));
            } else {
                let head_len: int = if has_key(outs, default_outcome_id@) { 1 } else { 0 };
                lemma_other_targets_are_outcomes(outs, default_outcome_id@, k - head_len);
                let m = choose|m: int| 0 <= m < outs.len() && (#[trigger] outs[m]).next_node_id@ == other_targets(outs, default_outcome_id@)[k - head_len];
                assert(has_key(c.nodes@, outs[m].next_node_id@));
            }
        },
        _ => {},
    }
}

/// The position of the text `t` among `v`.
fn text_position(v: &[String], t: &str) -> (found: Option<usize>)
    ensures
        match found {
            Some(k) => k < v@.len() && v@[k as int]@ == t@,
            None => !texts(v@).contains(t@),
        },
{
    let mut k: usize = 0;
    while k < v.len()
        invariant
            k <= v@.len(),
            forall|m: int| 0 <= m < k ==> (#[trigger] v@[m])@ != t@,
        decreases v@.len() - k,
    {
        if same_text(v[k].as_str(), t) {
            return Some(k);
        }
        k = k + 1;
    }
    assert(!texts(v@).contains(t@)) by {
        if texts(v@).contains(t@) {
            let m = texts(v@).index_of(t@);
            assert(v@[m]@ == t@);
        }
    }
    None
}

/// A string copy of `s`.
fn copy_text(s: &String) -> (t: String)
    ensures
        t@ == s@,
{
    s.clone()
}

/// The successors of `node`, in the order the runtime prefers them: the
/// authored default first.
fn node_outgoing(node: &StoryNode, events: &[StoryEvent]) -> (targets: Vec<String>)
    ensures
        texts(targets@) == node_targets(events@, *node),
{
    let mut targets: Vec<String> = Vec::new();
    match &node.kind {
        StoryNodeKind::RunStart { next_node_id } => {
            targets.push(copy_text(next_node_id));
        },
        StoryNodeKind::ShiftCall { on_success, on_missed, on_invalid, .. } => {
            targets.push(copy_text(on_success));
            targets.push(copy_text(on_missed));
            targets.push(copy_text(on_invalid));
        },
        StoryNodeKind::StoryEvent { event_id, default_outcome_id } => {
            match position_by_key(events, event_id.as_str()) {
                None => {},
                Some(e) => {
                    proof { lemma_first_key(events@, event_id@, e as int); }
                    let outcomes = &events[e].outcomes;
                    match position_by_key(outcomes.as_slice(), default_outcome_id.as_str()) {
                        None => {},
                        Some(d) => {
                            proof { lemma_first_key(outcomes@, default_outcome_id@, d as int); }
                            targets.push(copy_text(&outcomes[d].next_node_id));
                        },
                    }
                    let ghost head = texts(targets@);
                    let mut k: usize = 0;
                    while k < outcomes.len()
                        invariant
                            k <= outcomes@.len(),
                            texts(targets@) == head + other_targets(outcomes@.subrange(0, k as int), default_outcome_id@),
                        decreases outcomes@.len() - k,
                    {
                        let ghost before = texts(targets@);
                        let outcome = &outcomes[k];
                        assert(outcomes@.subrange(0, k + 1).drop_last() =~= outcomes@.subrange(0, k as int));
                        if !same_text(outcome.id.as_str(), default_outcome_id.as_str()) {
                            targets.push(copy_text(&outcome.next_node_id));
                            assert(texts(targets@) =~= before.push(outcome.next_node_id@));
                        }
                        k = k + 1;
                    }
                    assert(outcomes@.subrange(0, outcomes@.len() as int) =~= outcomes@);
                },
            }
        },
        StoryNodeKind::Conditional { on_met, on_unmet, .. } => {
            targets.push(copy_text(on_met));
            targets.push(copy_text(on_unmet));
        },
        StoryNodeKind::Ending { .. } => {},
    }
    assert(texts(targets@) =~= node_targets(events@, *node));
    targets
}

// ---------------------------------------------------------------------------
// Walks through the story graph.

/// `b` is a successor of `a` (both positions in `c.nodes`).
pub open spec fn story_edge(c: AuthoredContent, a: int, b: int) -> bool {
    &&& 0 <= a < c.nodes@.len()
    &&& 0 <= b < c.nodes@.len()
    &&& node_targets(c.story_events@, c.nodes@[a]).contains(c.nodes@[b].id@)
}

pub open spec fn story_step(c: AuthoredContent, p: Seq<int>, k: int) -> bool {
    story_edge(c, p[k - 1], p[k])
}

/// A non-empty walk along story edges, by node position.
pub open spec fn story_path(c: AuthoredContent, p: Seq<int>) -> bool {
    &&& p.len() > 0
    &&& forall|k: int| 0 <= k < p.len() ==> 0 <= #[trigger] p[k] < c.nodes@.len()
    &&& forall|k: int| 0 < k < p.len() ==> #[trigger] story_step(c, p, k)
}

pub open spec fn story_reaches(c: AuthoredContent, a: int, b: int) -> bool {
    exists|p: Seq<int>| #[trigger] story_path(c, p) && p[0] == a && p.last() == b
}

pub open spec fn story_cycle(c: AuthoredContent, v: int) -> bool {
    exists|p: Seq<int>| #[trigger] story_path(c, p) && p.len() > 1 && p[0] == v && p.last() == v
}

/// The position of the start node.
pub open spec fn start_position(c: AuthoredContent) -> int {
    first_key(c.nodes@, c.start_node_id@)
}

/// Every node can be reached from the start, and none lies on a cycle.
pub open spec fn graph_sound(c: AuthoredContent) -> bool {
    forall|v: int| 0 <= v < c.nodes@.len()
        ==> #[trigger] story_reaches(c, start_position(c), v) && !story_cycle(c, v)
}

/// Where every edge raises the rank, a walk of more than one node ends at a
/// higher rank than it starts.
proof fn lemma_ranked_walk(c: AuthoredContent, rank: spec_fn(int) -> nat, p: Seq<int>)
    requires
        story_path(c, p),
        forall|a: int, b: int| #[trigger] story_edge(c, a, b) ==> rank(a) < rank(b),
    ensures
        p.len() > 1 ==> rank(p[0]) < rank(p.last()),
    decreases p.len(),
{
    if p.len() > 1 {
        let q = p.drop_last();
        assert forall|k: int| 0 < k < q.len() implies #[trigger] story_step(c, q, k) by {
            assert(story_step(c, p, k));
        }
        assert forall|k: int| 0 <= k < q.len() implies 0 <= #[trigger] q[k] < c.nodes@.len() by {
            assert(0 <= p[k] < c.nodes@.len());
        }
        lemma_ranked_walk(c, rank, q);
        assert(story_step(c, p, p.len() - 1));
    }
}

/// Where every edge raises the rank, no node lies on a cycle.
pub proof fn lemma_ranked_edges_acyclic(c: AuthoredContent, rank: spec_fn(int) -> nat)
    requires
        forall|a: int, b: int| #[trigger] story_edge(c, a, b) ==> rank(a) < rank(b),
    ensures
        forall|v: int| !#[trigger] story_cycle(c, v),
{
    assert forall|v: int| !#[trigger] story_cycle(c, v) by {
        if story_cycle(c, v) {
            let p = choose|p: Seq<int>| #[trigger] story_path(c, p) && p.len() > 1 && p[0] == v && p.last() == v;
            lemma_ranked_walk(c, rank, p);
        }
    }
}

/// Where every node but the start has a parent of lower rank with an edge to
/// it, every node is reached from the start.
pub proof fn lemma_parents_reach(c: AuthoredContent, start: int, rank: spec_fn(int) -> nat, parent: spec_fn(int) -> int, v: int)
    requires
        0 <= start < c.nodes@.len(),
        0 <= v < c.nodes@.len(),
        forall|w: int| 0 <= w < c.nodes@.len() && w != start ==> 0 <= #[trigger] parent(w) < c.nodes@.len()
            && rank(parent(w)) < rank(w) && story_edge(c, parent(w), w),
    ensures
        story_reaches(c, start, v),
    decreases rank(v),
{
    if v == start {
        let p = seq![start];
        assert(story_path(c, p));
    } else {
        let u = parent(v);
        lemma_parents_reach(c, start, rank, parent, u);
        let p = choose|p: Seq<int>| #[trigger] story_path(c, p) && p[0] == start && p.last() == u;
        let q = p.push(v);
        assert forall|k: int| 0 < k < q.len() implies #[trigger] story_step(c, q, k) by {
            if k < p.len() {
                assert(story_step(c, p, k));
            }
        }
        assert forall|k: int| 0 <= k < q.len() implies 0 <= #[trigger] q[k] < c.nodes@.len() by {
            if k < p.len() {
                assert(0 <= p[k] < c.nodes@.len());
            }
        }
        assert(story_path(c, q));
    }
}

/// Along an ordering `perm` in which each key sorts before the next, an
/// earlier key sorts before a later one.
proof fn lemma_sorted_chain<T: Keyed>(items: Seq<T>, perm: spec_fn(int) -> int, a: int, b: int)
    requires
        0 <= a < b < items.len(),
        forall|k: int| 0 <= k < items.len() - 1
            ==> text_less(items[#[trigger] perm(k)].key(), items[perm(k + 1)].key()),
    ensures
        text_less(items[perm(a)].key(), items[perm(b)].key()),
    decreases b - a,
{
    if b > a + 1 {
        lemma_sorted_chain(items, perm, a, b - 1);
        assert(text_less(items[perm(b - 1)].key(), items[perm(b)].key()));
        text_less_transitive(items[perm(a)].key(), items[perm(b - 1)].key(), items[perm(b)].key());
    }
}

/// Keys that can be listed in strictly ascending order, each record once,
/// are unique.
pub proof fn lemma_sorted_keys_unique<T: Keyed>(items: Seq<T>, perm: spec_fn(int) -> int, place: spec_fn(int) -> int)
    requires
        forall|i: int| 0 <= i < items.len() ==> 0 <= #[trigger] place(i) < items.len() && perm(place(i)) == i,
        forall|k: int| 0 <= k < items.len() - 1
            ==> text_less(items[#[trigger] perm(k)].key(), items[perm(k + 1)].key()),
    ensures
        unique_keys(items),
{
    assert forall|i: int, j: int| 0 <= i < j < items.len() implies (#[trigger] items[i]).key() != (#[trigger] items[j]).key() by {
        let a = place(i);
        let b = place(j);
        if a < b {
            lemma_sorted_chain(items, perm, a, b);
            text_less_total(items[i].key(), items[j].key());
        } else if b < a {
            lemma_sorted_chain(items, perm, b, a);
            text_less_total(items[j].key(), items[i].key());
        }
    }
}

/// What a compile error claims about the content is true of it.
pub open spec fn compile_error_holds(c: AuthoredContent, e: GraphCompileError) -> bool {
    if !content_valid(c) {
        validation_error_holds(c, e)
    } else {
        match e {
            GraphCompileError::Cycle { node_id } => exists|v: int| 0 <= v < c.nodes@.len()
                && (#[trigger] c.nodes@[v]).id@ == node_id@
                && story_reaches(c, start_position(c), v) && story_cycle(c, v),
            GraphCompileError::UnreachableNode { node_id } => {
                &&& forall|v: int| 0 <= v < c.nodes@.len() && #[trigger] story_reaches(c, start_position(c), v)
                    ==> !story_cycle(c, v)
                &&& exists|v: int| 0 <= v < c.nodes@.len() && (#[trigger] c.nodes@[v]).id@ == node_id@
                    && !story_reaches(c, start_position(c), v)
                &&& forall|w: int| 0 <= w < c.nodes@.len() && !story_reaches(c, start_position(c), w)
                    ==> !text_less((#[trigger] c.nodes@[w]).id@, node_id@)
            },
            _ => false,
        }
    }
}

/// With the same edges, the same walks.
proof fn lemma_same_walks(c: AuthoredContent, adj: Seq<Vec<usize>>)
    requires
        adj.len() == c.nodes@.len(),
        forall|a: int, b: int| edge(adj, a, b) <==> story_edge(c, a, b),
    ensures
        forall|p: Seq<int>| is_path(adj, p) <==> story_path(c, p),
        forall|a: int, b: int| reaches(adj, a, b) <==> story_reaches(c, a, b),
        forall|v: int| on_cycle(adj, v) <==> story_cycle(c, v),
{
    assert forall|p: Seq<int>| is_path(adj, p) <==> story_path(c, p) by {
        if is_path(adj, p) {
            assert forall|k: int| 0 < k < p.len() implies #[trigger] story_step(c, p, k) by {
                assert(step(adj, p, k));
            }
        }
        if story_path(c, p) {
            assert forall|k: int| 0 < k < p.len() implies #[trigger] step(adj, p, k) by {
                assert(story_step(c, p, k));
            }
        }
    }
    assert forall|a: int, b: int| reaches(adj, a, b) <==> story_reaches(c, a, b) by {
        if reaches(adj, a, b) {
            let p = choose|p: Seq<int>| #[trigger] is_path(adj, p) && p[0] == a && p.last() == b;
            assert(story_path(c, p));
        }
        if story_reaches(c, a, b) {
            let p = choose|p: Seq<int>| #[trigger] story_path(c, p) && p[0] == a && p.last() == b;
            assert(is_path(adj, p));
        }
    }
    assert forall|v: int| on_cycle(adj, v) <==> story_cycle(c, v) by {
        if on_cycle(adj, v) {
            let p = choose|p: Seq<int>| #[trigger] is_path(adj, p) && p.len() > 1 && p[0] == v && p.last() == v;
            assert(story_path(c, p));
        }
        if story_cycle(c, v) {
            let p = choose|p: Seq<int>| #[trigger] story_path(c, p) && p.len() > 1 && p[0] == v && p.last() == v;
            assert(is_path(adj, p));
        }
    }
}

/// Searches the graph from `start`: a reachable cycle is reported at a node on
/// it; otherwise the node with the least identifier that cannot be reached.
fn validate_reachability_and_cycles(nodes: &[StoryNode], adj: &Vec<Vec<usize>>, start: usize)
    -> (result: Result<(), GraphCompileError>)
    requires
        adjacency_ok(adj@),
        adj@.len() == nodes@.len(),
        start < nodes@.len(),
    ensures
        match result {
            Ok(()) => forall|v: int| 0 <= v < nodes@.len()
                ==> #[trigger] reaches(adj@, start as int, v) && !on_cycle(adj@, v),
            Err(GraphCompileError::Cycle { node_id }) => exists|v: int| 0 <= v < nodes@.len()
                && (#[trigger] nodes@[v]).id@ == node_id@ && reaches(adj@, start as int, v) && on_cycle(adj@, v),
            Err(GraphCompileError::UnreachableNode { node_id }) => {
                &&& forall|v: int| 0 <= v < nodes@.len() && #[trigger] reaches(adj@, start as int, v) ==> !on_cycle(adj@, v)
                &&& exists|v: int| 0 <= v < nodes@.len() && (#[trigger] nodes@[v]).id@ == node_id@
                    && !reaches(adj@, start as int, v)
                &&& forall|w: int| 0 <= w < nodes@.len() && !reaches(adj@, start as int, w)
                    ==> !text_less((#[trigger] nodes@[w]).id@, node_id@)
            },
            Err(_) => false,
        },
{
    let seen = match search(adj, start) {
        Ok(seen) => seen,
        Err(v) => {
            let e = GraphCompileError::Cycle { node_id: copy_text(&nodes[v].id) };
            assert(nodes@[v as int].id@ == nodes[v as int].id@);
            return Err(e);
        },
    };
    let mut least: Option<usize> = None;
    let mut i: usize = 0;
    while i < nodes.len()
        invariant
            seen@.len() == nodes@.len(),
            i <= nodes@.len(),
            match least {
                Some(m) => m < i && !seen@[m as int]
                    && forall|w: int| 0 <= w < i && !seen@[w] ==> !text_less((#[trigger] nodes@[w]).id@, nodes@[m as int].id@),
                None => forall|w: int| 0 <= w < i ==> #[trigger] seen@[w],
            },
        decreases nodes@.len() - i,
    {
        if !seen[i] {
            match least {
                None => {
                    proof { text_less_total(nodes@[i as int].id@, nodes@[i as int].id@); }
                    least = Some(i);
                },
                Some(m) => {
                    if text_precedes(nodes[i].id.as_str(), nodes[m].id.as_str()) {
                        proof {
                            assert forall|w: int| 0 <= w <= i && !seen@[w] implies !text_less((#[trigger] nodes@[w]).id@, nodes@[i as int].id@) by {
                                text_less_total(nodes@[w].id@, nodes@[i as int].id@);
                                if w < i && text_less(nodes@[w].id@, nodes@[i as int].id@) {
                                    text_less_transitive(nodes@[w].id@, nodes@[i as int].id@, nodes@[m as int].id@);
                                }
                            }
                        }
                        least = Some(i);
                    }
                },
            }
        }
        proof {
            if least is None {
                assert forall|w: int| 0 <= w < i + 1 implies #[trigger] seen@[w] by {}
            }
        }
        i = i + 1;
    }
    match least {
        None => {
            assert forall|v: int| 0 <= v < nodes@.len() implies #[trigger] reaches(adj@, start as int, v) && !on_cycle(adj@, v) by {
                assert(seen@[v]);
            }
            Ok(())
        },
        Some(m) => {
            let e = GraphCompileError::UnreachableNode { node_id: copy_text(&nodes[m].id) };
            assert(nodes@[m as int].id@ == nodes[m as int].id@);
            Err(e)
        },
    }
}

/// A story graph whose content passed validation, whose nodes can all be
/// reached from the start, and which holds no cycle.
pub struct CompiledStoryGraph {
    content: AuthoredContent,
    outgoing: Vec<Vec<String>>,
}

impl CompiledStoryGraph {
    /// The content the graph was compiled from.
    pub closed spec fn content(&self) -> AuthoredContent {
        self.content
    }

    #[verifier::type_invariant]
    spec fn well_formed(&self) -> bool {
        &&& content_valid(self.content)
        &&& graph_sound(self.content)
        &&& self.outgoing@.len() == self.content.nodes@.len()
        &&& forall|i: int| 0 <= i < self.outgoing@.len()
            ==> texts((#[trigger] self.outgoing@[i])@) == node_targets(self.content.story_events@, self.content.nodes@[i])
    }
}

impl AuthoredContent {
    /// Validates the content and checks the shape of its graph: every node is
    /// reached from the start and no walk returns to a node it left.
    pub fn compile(self) -> (result: Result<CompiledStoryGraph, GraphCompileError>)
        ensures
            match result {
                Ok(graph) => graph.content() == self && content_valid(self) && graph_sound(self),
                Err(e) => compile_error_holds(self, e) && match first_problem(self) {
                    Some(p) => e.problem() == p,
                    None => content_valid(self) && (e is Cycle || e is UnreachableNode),
                },
            },
    {
        match validate_authored_content(&self) {
            Ok(()) => {},
            Err(e) => { return Err(e); },
        }
        let c = &self;
        let nodes = self.nodes.as_slice();
        let n = nodes.len();
        let mut outgoing: Vec<Vec<String>> = Vec::new();
        let mut adj: Vec<Vec<usize>> = Vec::new();
        let mut i: usize = 0;
        while i < n
            invariant
                content_valid(*c),
                nodes@ == c.nodes@,
                n == nodes@.len(),
                i <= n,
                outgoing@.len() == i,
                adj@.len() == i,
                forall|a: int| 0 <= a < i ==> texts((#[trigger] outgoing@[a])@) == node_targets(c.story_events@, c.nodes@[a]),
                forall|a: int| 0 <= a < i ==> (#[trigger] adj@[a])@.len() == outgoing@[a]@.len(),
                forall|a: int, k: int| 0 <= a < i && 0 <= k < adj@[a]@.len()
                    ==> #[trigger] adj@[a]@[k] < n && first_key_at(c.nodes@, outgoing@[a]@[k]@, adj@[a]@[k] as int),
            decreases n - i,
        {
            let targets = node_outgoing(&nodes[i], c.story_events.as_slice());
            let mut list: Vec<usize> = Vec::new();
            let mut k: usize = 0;
            while k < targets.len()
                invariant
                    content_valid(*c),
                    nodes@ == c.nodes@,
                    n == nodes@.len(),
                    i < n,
                    texts(targets@) == node_targets(c.story_events@, c.nodes@[i as int]),
                    k <= targets@.len(),
                    list@.len() == k,
                    forall|m: int| 0 <= m < k ==> #[trigger] list@[m] < n && first_key_at(c.nodes@, targets@[m]@, list@[m] as int),
                decreases targets@.len() - k,
            {
                proof {
                    assert(texts(targets@)[k as int] == targets@[k as int]@);
                    lemma_targets_exist(*c, i as int, k as int);
                }
                match position_by_key(nodes, targets[k].as_str()) {
                    Some(j) => { list.push(j); },
                    None => { assert(false); },
                }
                k = k + 1;
            }
            outgoing.push(targets);
            adj.push(list);
            i = i + 1;
        }
        proof {
            assert forall|a: int, b: int| edge(adj@, a, b) <==> story_edge(*c, a, b) by {
                if edge(adj@, a, b) {
                    let k = adj@[a]@.index_of(b as usize);
                    assert(adj@[a]@[k] == b as usize);
                    assert(first_key_at(c.nodes@, outgoing@[a]@[k]@, b));
                    assert(texts(outgoing@[a]@)[k] == outgoing@[a]@[k]@);
                    assert(node_targets(c.story_events@, c.nodes@[a])[k] == c.nodes@[b].id@);
                }
                if story_edge(*c, a, b) {
                    let t = node_targets(c.story_events@, c.nodes@[a]);
                    let k = t.index_of(c.nodes@[b].id@);
                    assert(texts(outgoing@[a]@)[k] == outgoing@[a]@[k]@);
                    let j = adj@[a]@[k] as int;
                    assert(first_key_at(c.nodes@, c.nodes@[b].id@, j));
                    lemma_unique_first(c.nodes@, b);
                    lemma_first_key(c.nodes@, c.nodes@[b].id@, j);
                    assert(adj@[a]@.contains(b as usize));
                }
            }
            assert(adjacency_ok(adj@)) by {
                assert forall|a: int, k: int| 0 <= a < adj@.len() && 0 <= k < adj@[a]@.len() implies #[trigger] adj@[a]@[k] < adj@.len() by {}
            }
            lemma_same_walks(*c, adj@);
        }
        let start = match position_by_key(nodes, c.start_node_id.as_str()) {
            Some(start) => start,
            None => { return Err(GraphCompileError::MissingStartNode { node_id: copy_text(&c.start_node_id) }); },
        };
        proof { lemma_first_key(c.nodes@, c.start_node_id@, start as int); }
        match validate_reachability_and_cycles(nodes, &adj, start) {
            Ok(()) => {},
            Err(e) => { return Err(e); },
        }
        Ok(CompiledStoryGraph { content: self, outgoing })
    }
}

/// The record keyed `k`, as the first such one among `items`.
pub open spec fn keyed<T: Keyed>(items: Seq<T>, k: Seq<char>) -> Option<T> {
    if has_key(items, k) { Some(items[first_key(items, k)]) } else { None }
}

/// The successors of the node keyed `node_id` (none for an unknown node).
pub open spec fn outgoing_of(c: AuthoredContent, node_id: Seq<char>) -> Seq<Seq<char>> {
    match keyed(c.nodes@, node_id) {
        Some(n) => node_targets(c.story_events@, n),
        None => Seq::empty(),
    }
}

/// The node is a story-event node for the event `event_id`.
pub open spec fn is_event_node(n: StoryNode, event_id: Seq<char>) -> bool {
    n.kind matches StoryNodeKind::StoryEvent { event_id: e, .. } && e@ == event_id
}

/// The physical lines of a premise's caller and callee.
pub open spec fn premise_lines(c: AuthoredContent, p: CallPremise) -> Option<(u8, u8)> {
    match (keyed(c.line_listings@, p.caller_line_id@), keyed(c.line_listings@, p.callee_line_id@)) {
        (Some(caller), Some(callee)) => Some((caller.line, callee.line)),
        _ => None,
    }
}

/// The text of an optional string.
pub open spec fn opt_text(o: Option<&str>) -> Option<Seq<char>> {
    match o {
        Some(t) => Some(t@),
        None => None,
    }
}

/// The next node, whether the authored default was taken, and whether a
/// proposal was turned down.
pub open spec fn selection(c: AuthoredContent, node_id: Seq<char>, proposal: Option<Seq<char>>, service_errors: u32)
    -> (Seq<char>, bool, bool)
{
    match keyed(c.nodes@, node_id) {
        Some(StoryNode { kind: StoryNodeKind::Conditional { condition: StoryCondition::MaxServiceErrors(maximum), on_met, on_unmet }, .. }) => {
            let eligible = if service_errors <= maximum { on_met@ } else { on_unmet@ };
            (eligible, proposal != Some(eligible), proposal is Some && proposal != Some(eligible))
        },
        Some(StoryNode { kind: StoryNodeKind::ShiftCall { .. }, .. }) => (node_id, false, proposal is Some),
        _ => {
            let out = outgoing_of(c, node_id);
            if out.len() == 0 {
                (node_id, true, proposal is Some)
            } else if proposal matches Some(p) && out.contains(p) {
                (proposal.unwrap(), false, false)
            } else {
                (out[0], true, proposal is Some)
            }
        },
    }
}

/// The first record keyed `k`.
fn find_keyed<'a, T: Keyed>(items: &'a [T], k: &str) -> (found: Option<&'a T>)
    ensures
        match found {
            Some(x) => keyed(items@, k@) == Some(*x),
            None => keyed(items@, k@) is None,
        },
{
    match position_by_key(items, k) {
        Some(i) => {
            proof { lemma_first_key(items@, k@, i as int); }
            Some(&items[i])
        },
        None => None,
    }
}

impl CompiledStoryGraph {
    pub fn start_node_id(&self) -> (id: &str)
        ensures
            id@ == self.content().start_node_id@,
    {
        self.content.start_node_id.as_str()
    }

    pub fn node(&self, node_id: &str) -> (found: Option<&StoryNode>)
        ensures
            match found {
                Some(n) => keyed(self.content().nodes@, node_id@) == Some(*n),
                None => keyed(self.content().nodes@, node_id@) is None,
            },
    {
        find_keyed(self.content.nodes.as_slice(), node_id)
    }

    pub fn subscribers(&self) -> (subscribers: &[Subscriber])
        ensures
            subscribers@ == self.content().subscribers@,
    {
        self.content.subscribers.as_slice()
    }

    /// The successors of a node, the authored default first.
    pub fn outgoing(&self, node_id: &str) -> (targets: &[String])
        ensures
            texts(targets@) == outgoing_of(self.content(), node_id@),
    {
        proof { use_type_invariant(self); }
        match position_by_key(self.content.nodes.as_slice(), node_id) {
            Some(i) => {
                proof { lemma_first_key(self.content.nodes@, node_id@, i as int); }
                self.outgoing[i].as_slice()
            },
            None => {
                let none: &[String] = &[];
                assert(texts(none@) =~= Seq::<Seq<char>>::empty());
                none
            },
        }
    }

    pub fn call_premise(&self, premise_id: &str) -> (found: Option<&CallPremise>)
        ensures
            match found {
                Some(p) => keyed(self.content().call_premises@, premise_id@) == Some(*p),
                None => keyed(self.content().call_premises@, premise_id@) is None,
            },
    {
        find_keyed(self.content.call_premises.as_slice(), premise_id)
    }

    pub fn story_beat(&self, beat_id: &str) -> (found: Option<&StoryBeat>)
        ensures
            match found {
                Some(b) => keyed(self.content().story_beats@, beat_id@) == Some(*b),
                None => keyed(self.content().story_beats@, beat_id@) is None,
            },
    {
        find_keyed(self.content.story_beats.as_slice(), beat_id)
    }

    pub fn story_event(&self, event_id: &str) -> (found: Option<&StoryEvent>)
        ensures
            match found {
                Some(e) => keyed(self.content().story_events@, event_id@) == Some(*e),
                None => keyed(self.content().story_events@, event_id@) is None,
            },
    {
        find_keyed(self.content.story_events.as_slice(), event_id)
    }

    pub fn line_listing(&self, listing_id: &str) -> (found: Option<&LineListing>)
        ensures
            match found {
                Some(l) => keyed(self.content().line_listings@, listing_id@) == Some(*l),
                None => keyed(self.content().line_listings@, listing_id@) is None,
            },
    {
        find_keyed(self.content.line_listings.as_slice(), listing_id)
    }

    pub fn ending(&self, ending_id: &str) -> (found: Option<&Ending>)
        ensures
            match found {
                Some(e) => keyed(self.content().endings@, ending_id@) == Some(*e),
                None => keyed(self.content().endings@, ending_id@) is None,
            },
    {
        find_keyed(self.content.endings.as_slice(), ending_id)
    }
}

impl CompiledStoryGraph {
    /// The node, least by identifier, that presents the event `event_id`.
    pub fn story_event_node_id(&self, event_id: &str) -> (found: Option<&str>)
        ensures
            match found {
                Some(id) => exists|i: int| 0 <= i < self.content().nodes@.len()
                    && (#[trigger] self.content().nodes@[i]).id@ == id@
                    && is_event_node(self.content().nodes@[i], event_id@)
                    && forall|j: int| 0 <= j < self.content().nodes@.len()
                        && is_event_node(#[trigger] self.content().nodes@[j], event_id@)
                        ==> !text_less(self.content().nodes@[j].id@, id@),
                None => forall|j: int| 0 <= j < self.content().nodes@.len()
                    ==> !is_event_node(#[trigger] self.content().nodes@[j], event_id@),
            },
    {
        let nodes = self.content.nodes.as_slice();
        let mut best: Option<usize> = None;
        let mut i: usize = 0;
        while i < nodes.len()
            invariant
                nodes@ == self.content().nodes@,
                i <= nodes@.len(),
                match best {
                    Some(m) => m < i && is_event_node(nodes@[m as int], event_id@)
                        && forall|j: int| 0 <= j < i && is_event_node(#[trigger] nodes@[j], event_id@)
                            ==> !text_less(nodes@[j].id@, nodes@[m as int].id@),
                    None => forall|j: int| 0 <= j < i ==> !is_event_node(#[trigger] nodes@[j], event_id@),
                },
            decreases nodes@.len() - i,
        {
            let matches_event = match &nodes[i].kind {
                StoryNodeKind::StoryEvent { event_id: node_event_id, .. } => same_text(node_event_id.as_str(), event_id),
                _ => false,
            };
            if matches_event {
                match best {
                    None => {
                        proof { text_less_total(nodes@[i as int].id@, nodes@[i as int].id@); }
                        best = Some(i);
                    },
                    Some(m) => {
                        if text_precedes(nodes[i].id.as_str(), nodes[m].id.as_str()) {
                            proof {
                                assert forall|j: int| 0 <= j <= i && is_event_node(#[trigger] nodes@[j], event_id@)
                                    implies !text_less(nodes@[j].id@, nodes@[i as int].id@) by {
                                    text_less_total(nodes@[j].id@, nodes@[i as int].id@);
                                    if j < i && text_less(nodes@[j].id@, nodes@[i as int].id@) {
                                        text_less_transitive(nodes@[j].id@, nodes@[i as int].id@, nodes@[m as int].id@);
                                    }
                                }
                            }
                            best = Some(i);
                        }
                    },
                }
            }
            i = i + 1;
        }
        match best {
            Some(m) => Some(nodes[m].id.as_str()),
            None => None,
        }
    }

    /// The first listing, in authored order, that carries the subscriber.
    pub fn content_line_for_subscriber(&self, subscriber_id: &str) -> (found: Option<&LineListing>)
        ensures
            match found {
                Some(l) => exists|i: int| 0 <= i < self.content().line_listings@.len()
                    && #[trigger] self.content().line_listings@[i] == *l
                    && has_text(l.subscriber_ids@, subscriber_id@)
                    && forall|j: int| 0 <= j < i ==> !has_text((#[trigger] self.content().line_listings@[j]).subscriber_ids@, subscriber_id@),
                None => forall|j: int| 0 <= j < self.content().line_listings@.len()
                    ==> !has_text((#[trigger] self.content().line_listings@[j]).subscriber_ids@, subscriber_id@),
            },
    {
        let listings = self.content.line_listings.as_slice();
        let mut i: usize = 0;
        while i < listings.len()
            invariant
                listings@ == self.content().line_listings@,
                i <= listings@.len(),
                forall|j: int| 0 <= j < i ==> !has_text((#[trigger] listings@[j]).subscriber_ids@, subscriber_id@),
            decreases listings@.len() - i,
        {
            if contains_text(&listings[i].subscriber_ids, subscriber_id) {
                return Some(&listings[i]);
            }
            i = i + 1;
        }
        None
    }

    /// The first subscriber listed on the physical line `line`.
    pub fn subscriber_id_for_line(&self, line: u8) -> (found: Option<&str>)
        ensures
            match found {
                Some(id) => exists|i: int| 0 <= i < self.content().line_listings@.len()
                    && (#[trigger] self.content().line_listings@[i]).line == line
                    && self.content().line_listings@[i].subscriber_ids@.len() > 0
                    && self.content().line_listings@[i].subscriber_ids@[0]@ == id@,
                None => forall|j: int| 0 <= j < self.content().line_listings@.len()
                    ==> (#[trigger] self.content().line_listings@[j]).line != line,
            },
    {
        proof { use_type_invariant(self); }
        let listings = self.content.line_listings.as_slice();
        let mut i: usize = 0;
        while i < listings.len()
            invariant
                content_valid(self.content),
                listings@ == self.content().line_listings@,
                i <= listings@.len(),
                forall|j: int| 0 <= j < i ==> (#[trigger] listings@[j]).line != line,
            decreases listings@.len() - i,
        {
            if listings[i].line == line {
                if listings[i].subscriber_ids.len() > 0 {
                    return Some(listings[i].subscriber_ids[0].as_str());
                }
                proof { assert(listing_ok(self.content, self.content.line_listings@[i as int])); }
                return None;
            }
            i = i + 1;
        }
        None
    }
}

/// The premise places a call from the physical line `line`.
pub open spec fn calls_from(c: AuthoredContent, p: CallPremise, line: u8) -> bool {
    premise_lines(c, p) matches Some(lines) && lines.0 == line
}

/// The call that competes with `call_id` in the opening of North Neeladesh.
pub open spec fn north_next_call(call_id: Seq<char>) -> Option<Seq<char>> {
    if call_id == "s1_1_rafi"@ {
        Some("m1_anika"@)
    } else if call_id == "m1_anika"@ {
        Some("s1_2_asha"@)
    } else if call_id == "s1_2_asha"@ {
        Some("m2_nayan"@)
    } else {
        None
    }
}

impl CompiledStoryGraph {
    /// The physical lines of a premise's caller and callee.
    fn lines_of(&self, premise: &CallPremise) -> (lines: Option<(u8, u8)>)
        ensures
            lines == premise_lines(self.content(), *premise),
    {
        let caller = match self.line_listing(premise.caller_line_id.as_str()) {
            Some(listing) => listing.line,
            None => { return None; },
        };
        let callee = match self.line_listing(premise.callee_line_id.as_str()) {
            Some(listing) => listing.line,
            None => { return None; },
        };
        Some((caller, callee))
    }

    /// The lines of the call, least by premise identifier, placed from
    /// `caller_line`.
    pub fn authored_call_for_caller_line(&self, caller_line: u8) -> (found: Option<(u8, u8)>)
        ensures
            match found {
                Some(lines) => lines.0 == caller_line && exists|i: int| 0 <= i < self.content().call_premises@.len()
                    && premise_lines(self.content(), #[trigger] self.content().call_premises@[i]) == Some(lines)
                    && forall|j: int| 0 <= j < self.content().call_premises@.len()
                        && calls_from(self.content(), #[trigger] self.content().call_premises@[j], caller_line)
                        ==> !text_less(self.content().call_premises@[j].id@, self.content().call_premises@[i].id@),
                None => forall|j: int| 0 <= j < self.content().call_premises@.len()
                    ==> !calls_from(self.content(), #[trigger] self.content().call_premises@[j], caller_line),
            },
    {
        let premises = self.content.call_premises.as_slice();
        let mut best: Option<(usize, (u8, u8))> = None;
        let mut i: usize = 0;
        while i < premises.len()
            invariant
                premises@ == self.content().call_premises@,
                i <= premises@.len(),
                match best {
                    Some((m, lines)) => m < i && lines.0 == caller_line
                        && premise_lines(self.content(), premises@[m as int]) == Some(lines)
                        && forall|j: int| 0 <= j < i && calls_from(self.content(), #[trigger] premises@[j], caller_line)
                            ==> !text_less(premises@[j].id@, premises@[m as int].id@),
                    None => forall|j: int| 0 <= j < i ==> !calls_from(self.content(), #[trigger] premises@[j], caller_line),
                },
            decreases premises@.len() - i,
        {
            match self.lines_of(&premises[i]) {
                Some(lines) => {
                    if lines.0 == caller_line {
                        match best {
                            None => {
                                proof { text_less_total(premises@[i as int].id@, premises@[i as int].id@); }
                                best = Some((i, lines));
                            },
                            Some((m, _)) => {
                                if text_precedes(premises[i].id.as_str(), premises[m].id.as_str()) {
                                    proof {
                                        assert forall|j: int| 0 <= j <= i && calls_from(self.content(), #[trigger] premises@[j], caller_line)
                                            implies !text_less(premises@[j].id@, premises@[i as int].id@) by {
                                            text_less_total(premises@[j].id@, premises@[i as int].id@);
                                            if j < i && text_less(premises@[j].id@, premises@[i as int].id@) {
                                                text_less_transitive(premises@[j].id@, premises@[i as int].id@, premises@[m as int].id@);
                                            }
                                        }
                                    }
                                    best = Some((i, lines));
                                }
                            },
                        }
                    }
                },
                None => {},
            }
            i = i + 1;
        }
        match best {
            Some((_, lines)) => Some(lines),
            None => None,
        }
    }

    /// The lines of the call that competes with `call_id` in the opening of
    /// North Neeladesh.
    pub fn north_competing_call(&self, call_id: &str) -> (found: Option<(u8, u8)>)
        ensures
            found == match north_next_call(call_id@) {
                Some(next_id) => match keyed(self.content().call_premises@, next_id) {
                    Some(premise) => premise_lines(self.content(), premise),
                    None => None,
                },
                None => None,
            },
    {
        let next_id = if same_text(call_id, "s1_1_rafi") {
            "m1_anika"
        } else if same_text(call_id, "m1_anika") {
            "s1_2_asha"
        } else if same_text(call_id, "s1_2_asha") {
            "m2_nayan"
        } else {
            return None;
        };
        match self.call_premise(next_id) {
            Some(premise) => self.lines_of(premise),
            None => None,
        }
    }

    pub fn select_next(&self, node_id: &str, proposal: Option<&str>) -> (selected: StoryPathSelection)
        ensures
            (selected.node_id@, selected.used_default, selected.rejected_proposal)
                == selection(self.content(), node_id@, opt_text(proposal), 0),
    {
        self.select_next_with_state(node_id, proposal, &StoryEligibilityState { service_errors: 0 })
    }

    /// Chooses the next node: a conditional node follows the branch the state
    /// makes eligible; a call stays put until it ends; any other node accepts a
    /// proposal only when it names one of its successors, and otherwise takes
    /// the authored default.
    pub fn select_next_with_state(
        &self,
        node_id: &str,
        proposal: Option<&str>,
        state: &StoryEligibilityState,
    ) -> (selected: StoryPathSelection)
        ensures
            (selected.node_id@, selected.used_default, selected.rejected_proposal)
                == selection(self.content(), node_id@, opt_text(proposal), state.service_errors),
    {
        let node = self.node(node_id);
        if let Some(found) = node {
            match &found.kind {
                StoryNodeKind::Conditional { condition, on_met, on_unmet } => {
                    let eligible = match condition {
                        StoryCondition::MaxServiceErrors(maximum) => {
                            if state.service_errors <= *maximum { on_met } else { on_unmet }
                        },
                    };
                    let (used_default, rejected_proposal) = match proposal {
                        Some(p) => {
                            let differs = !same_text(p, eligible.as_str());
                            (differs, differs)
                        },
                        None => (true, false),
                    };
                    return StoryPathSelection { node_id: copy_text(eligible), used_default, rejected_proposal };
                },
                StoryNodeKind::ShiftCall { .. } => {
                    return StoryPathSelection {
                        node_id: String::from_str(node_id),
                        used_default: false,
                        rejected_proposal: proposal.is_some(),
                    };
                },
                _ => {},
            }
        }
        let outgoing = self.outgoing(node_id);
        if outgoing.len() == 0 {
            return StoryPathSelection {
                node_id: String::from_str(node_id),
                used_default: true,
                rejected_proposal: proposal.is_some(),
            };
        }
        assert(texts(outgoing@)[0] == outgoing@[0]@);
        if let Some(p) = proposal {
            if let Some(k) = text_position(outgoing, p) {
                assert(texts(outgoing@)[k as int] == p@);
                return StoryPathSelection { node_id: String::from_str(p), used_default: false, rejected_proposal: false };
            }
        }
        StoryPathSelection { node_id: copy_text(&outgoing[0]), used_default: true, rejected_proposal: proposal.is_some() }
    }
}

/// Identifiers strictly ascending.
pub open spec fn ascending(nodes: Seq<&StoryNode>) -> bool {
    forall|a: int, b: int| 0 <= a < b < nodes.len() ==> text_less((#[trigger] nodes[a]).id@, (#[trigger] nodes[b]).id@)
}

/// Inserts `node` among `sorted` where its identifier belongs.
fn insert_ascending<'a>(sorted: &mut Vec<&'a StoryNode>, node: &'a StoryNode)
    requires
        ascending(old(sorted)@),
        forall|a: int| 0 <= a < old(sorted)@.len() ==> (#[trigger] old(sorted)@[a]).id@ != node.id@,
    ensures
        ascending(final(sorted)@),
        final(sorted)@.len() == old(sorted)@.len() + 1,
        forall|x: &StoryNode| final(sorted)@.contains(x) <==> (old(sorted)@.contains(x) || x == node),
{
    let mut pos: usize = 0;
    while pos < sorted.len() && !text_precedes(node.id.as_str(), sorted[pos].id.as_str())
        invariant
            pos <= sorted@.len(),
            forall|a: int| 0 <= a < pos ==> !text_less(node.id@, (#[trigger] sorted@[a]).id@),
        decreases sorted@.len() - pos,
    {
        pos = pos + 1;
    }
    let ghost old_sorted = sorted@;
    proof {
        assert forall|a: int| 0 <= a < pos implies text_less((#[trigger] old_sorted[a]).id@, node.id@) by {
            text_less_total(old_sorted[a].id@, node.id@);
        }
        assert forall|a: int| pos <= a < old_sorted.len() implies text_less(node.id@, (#[trigger] old_sorted[a]).id@) by {
            if a > pos {
                text_less_transitive(node.id@, old_sorted[pos as int].id@, old_sorted[a].id@);
            }
        }
        old_sorted.insert_ensures(pos as int, node);
    }
    sorted.insert(pos, node);
    proof {
        let s2 = sorted@;
        assert forall|a: int, b: int| 0 <= a < b < s2.len() implies text_less((#[trigger] s2[a]).id@, (#[trigger] s2[b]).id@) by {
            if b < pos {
            } else if b == pos {
                assert(text_less(old_sorted[a].id@, node.id@));
            } else if a < pos {
                assert(s2[b] == old_sorted[b - 1]);
                text_less_transitive(old_sorted[a].id@, node.id@, old_sorted[b - 1].id@);
            } else if a == pos {
                assert(s2[b] == old_sorted[b - 1]);
            } else {
                assert(s2[a] == old_sorted[a - 1]);
                assert(s2[b] == old_sorted[b - 1]);
            }
        }
        assert forall|x: &StoryNode| s2.contains(x) <==> (old_sorted.contains(x) || x == node) by {
            if s2.contains(x) {
                let i = s2.index_of(x);
                if i > pos {
                    assert(old_sorted[i - 1] == x);
                } else if i < pos {
                    assert(old_sorted[i] == x);
                }
            }
            if old_sorted.contains(x) {
                let i = old_sorted.index_of(x);
                if i < pos {
                    assert(s2[i] == x);
                } else {
                    assert(s2[i + 1] == x);
                }
            }
            if x == node {
                assert(s2[pos as int] == x);
            }
        }
    }
}

impl CompiledStoryGraph {
    /// Every node once, in ascending order of identifier.
    pub fn nodes(&self) -> (sorted: Vec<&StoryNode>)
        ensures
            sorted@.len() == self.content().nodes@.len(),
            ascending(sorted@),
            forall|i: int| #![trigger sorted@[i]] 0 <= i < sorted@.len()
                ==> exists|j: int| 0 <= j < self.content().nodes@.len() && *sorted@[i] == #[trigger] self.content().nodes@[j],
            forall|j: int| 0 <= j < self.content().nodes@.len() ==> sorted@.contains(#[trigger] &self.content().nodes@[j]),
    {
        proof { use_type_invariant(self); }
        let nodes = self.content.nodes.as_slice();
        let mut sorted: Vec<&StoryNode> = Vec::new();
        let mut j: usize = 0;
        while j < nodes.len()
            invariant
                nodes@ == self.content().nodes@,
                unique_keys(nodes@),
                j <= nodes@.len(),
                sorted@.len() == j,
                ascending(sorted@),
                forall|i: int| #![trigger sorted@[i]] 0 <= i < sorted@.len()
                    ==> exists|m: int| 0 <= m < j && *sorted@[i] == #[trigger] nodes@[m],
                forall|m: int| 0 <= m < j ==> sorted@.contains(#[trigger] &nodes@[m]),
            decreases nodes@.len() - j,
        {
            let node = &nodes[j];
            proof {
                assert forall|a: int| 0 <= a < sorted@.len() implies (#[trigger] sorted@[a]).id@ != node.id@ by {
                    let m = choose|m: int| 0 <= m < j && *sorted@[a] == #[trigger] nodes@[m];
                    assert(nodes@[m].key() != nodes@[j as int].key());
                }
            }
            let ghost before = sorted@;
            insert_ascending(&mut sorted, node);
            proof {
                assert forall|i: int| #![trigger sorted@[i]] 0 <= i < sorted@.len()
                    implies exists|m: int| 0 <= m < j + 1 && *sorted@[i] == #[trigger] nodes@[m] by {
                    assert(sorted@.contains(sorted@[i]));
                    if sorted@[i] == node {
                        assert(*sorted@[i] == nodes@[j as int]);
                    } else {
                        let k = before.index_of(sorted@[i]);
                        assert(before[k] == sorted@[i]);
                        let m = choose|m: int| 0 <= m < j && *before[k] == #[trigger] nodes@[m];
                        assert(*sorted@[i] == nodes@[m]);
                    }
                }
                assert forall|m: int| 0 <= m < j + 1 implies sorted@.contains(#[trigger] &nodes@[m]) by {
                    if m < j {
                        assert(before.contains(&nodes@[m]));
                    } else {
                        assert(&nodes@[m] == node);
                    }
                }
            }
            j = j + 1;
        }
        sorted
    }
}

/// The caller voice guidance authored for each North Neeladesh call.
pub open spec fn authored_prompt(call_id: Seq<char>) -> (Seq<char>, Seq<char>, Seq<char>) {
    if call_id == "s1_1_rafi"@ {
        ("Rafi Alam"@, "My mother fall down! Fall down! My mother fall down!"@,
            "When asked, give home first; only separate questions reveal Shapla Apartments, the building, floor, and flat, then the kitchen head injury and unconsciousness."@)
    } else if call_id == "m1_anika"@ {
        ("Anika Roy"@, "Shapla Apartments, please. The front desk will know my mother's flat. I am already late calling her."@,
            "She is a hospital nurse covering the guarded ICU. Asked about the president, reveal that his eyes are open but he cannot form words or speak."@)
    } else if call_id == "s1_2_asha"@ {
        ("Asha Sen"@, "Hello? Are you the young man who answers this line? Do you know if pigeons dislike mustard oil?"@,
            "She cooked too much lunch, pigeons visit her window, and nobody else has spoken to her today."@)
    } else if call_id == "m2_nayan"@ {
        ("Nayan Boro"@, "National Radio. Government bulletin, presidential authority. Put me through without editorial delay."@,
            "He carries a sealed bulletin claiming presidential approval of Order 17. He did not see the president and changes his account of who dictated it."@)
    } else if call_id == "m3_rakesh"@ {
        ("Inspector Rakesh Nahal"@, "Official identity verification. Connect the Shapla building desk and remain available for procedural instructions."@,
            "He checks R-12 under 17-A and orders reports on Laleh. Mahir Tal is dead but remains listed."@)
    } else if call_id == "s2_asha"@ {
        ("Asha Sen"@, "It is me again. That actor on the radio died last night. Did you hear it?"@,
            "The actor reminded her of her late husband. If treated kindly before, she remembers the operator and asks about his wife."@)
    } else if call_id == "m4_laleh"@ {
        ("Laleh Mir"@, "Ratan Colony. I need the union-room telephone, not the company office. My citizen ID is 41-772-M."@,
            "Directory checks reveal DETAIN AND REPORT. Police circle Shapla; she needs drivers for Riverland families and organizers."@)
    } else if call_id == "s2_1_nahid"@ {
        ("Nahid from bKash"@, "Sir, Nahid calling from bKash security. There was a suspicious transfer from your account."@,
            "He cannot name the transfer. If encouraged, he asks for a verification code and then the account PIN."@)
    } else if call_id == "m5_javed"@ {
        ("Javed Rahman"@, "Freight accounts for Central Station. Wagon 43 cannot leave until its weight is checked again."@,
            "The manifest says machine parts, but questions reveal rifles wrapped in Police blankets and Varo's logistics stamp. He may offer paid silence."@)
    } else if call_id == "m6_varo"@ {
        ("Captain Varo"@, "Secretariat authorization desk. I have Emergency Order 17-B and require verbal authentication before troop dispatch."@,
            "17-B orders the Army to take Radio and Central Station and move R-12 detainees. The Secretariat confirms the seal but denies writing the station clause."@)
    } else if call_id == "m7_tomas"@ {
        ("Tomas Vale"@, "The Embassy press desk. Tell them Tomas Vale has the hotel photographs they requested."@,
            "He photographed a Home Affairs official giving envelopes to a market courier. The courier will call Home Affairs using blue ledger and asks for a later tap."@)
    } else if call_id == "s3_1_nahid"@ {
        ("Nahid from bKash"@, "Doctor Rahim here. Your wife is expecting a child, yes? I can make sure nothing goes wrong."@,
            "He has no callable clinic, will not name ingredients, and demands bKash payment. His voice matches Nahid's first call."@)
    } else if call_id == "m8_bikram"@ {
        ("Bikram Sen"@, "Home Affairs complaints. This is Bikram Sen, spice license 8801. Minority boys are storing weapons behind my shop."@,
            "The license belongs to a dead shopkeeper. He knows exact Shapla flats and wants target confirmation and Police patrol gaps."@)
    } else if call_id == "s3_asha"@ {
        ("Asha Sen"@, "It may rain today. Your wife should carry a shawl."@,
            "Asha sounds weak and is putting her papers in order before hospital. After two kind calls she asks for the operator's full name."@)
    } else if call_id == "m9_paro"@ {
        ("Paro Sen"@, "Central Station freight desk. Tell them Ratan's night crews are invoking a safety stoppage."@,
            "Workers can lock the rail points and Platform Six can admit evacuation vehicles. If Javed reached the Station, she knows about the rifles. A paid exact relay may be offered."@)
    } else if call_id == "s3_akash"@ {
        ("Akash Dey"@, "Bela Bose, please. Connect me to Bela Bose."@,
            "He does not know where Bela is. Asked why, he proudly says he got a real job and can marry her now."@)
    } else if call_id == "m10_audit"@ {
        ("Inspector Rakesh Nahal"@, "Hospital administration. We require maternity beds for protected detainees before the station transfer."@,
            "He traced a marked caller through the connection log and duty roster to the operator's wife's dependent record. Tapping does not reveal this."@)
    } else if call_id == "s4_akash"@ {
        ("Akash Dey"@, "Has Bela called? Did she leave anything for me? Please check again."@,
            "He searched places Bela might visit, has barely slept, and fears she left without hearing about his job."@)
    } else if call_id == "m11a_laleh"@ {
        ("Laleh Mir"@, "Central Station. Laleh Mir, citizen ID 41-772-M. We are moving now."@,
            "Asked why she breathes badly, reveal an attack injury; asked where families are, say they wait in basements and do not know the safe platform."@)
    } else if call_id == "m11b_dev"@ {
        ("Dev Korr"@, "Central Station prisoner intake. We need a sealed platform for an authorized transfer."@,
            "Laleh is among the detainees. He has no individual charges, only R-12, and children travel with arrested parents."@)
    } else if call_id == "m12_arman"@ {
        ("Colonel Arman Vey"@, "National Radio command desk. Colonel Arman Vey under Emergency Order 17-B."@,
            "Asked about deployment, reveal where columns are moving and that he wants Army rule. Evidence can make him admit neither order was likely presidential."@)
    } else if call_id == "m13_meera"@ {
        ("Meera Tal"@, "Grand Neela Hotel, Tomas Vale's room. Embassy diplomatic line."@,
            "Asked about the blue ledger and South's price, reveal buses, fuel, border papers, and the need for accurate Brigade and Army information."@)
    } else if call_id == "m14_mira"@ {
        ("Mira Halek"@, "Ratan union room. Your crews hold my points. I need the person who opened Platform Six."@,
            "Asked who holds the points and what can move, describe the active groups, entrances, and remaining train movement without choosing an authority."@)
    } else {
        ("Unknown caller"@, "Hello?"@, "No further information is authored."@)
    }
}

/// The authored guidance texts for a call.
fn prompt_texts(call_id: &str) -> (texts: (&'static str, &'static str, &'static str))
    ensures
        (texts.0@, texts.1@, texts.2@) == authored_prompt(call_id@),
{
    if same_text(call_id, "s1_1_rafi") {
        ("Rafi Alam", "My mother fall down! Fall down! My mother fall down!",
            "When asked, give home first; only separate questions reveal Shapla Apartments, the building, floor, and flat, then the kitchen head injury and unconsciousness.")
    } else if same_text(call_id, "m1_anika") {
        ("Anika Roy", "Shapla Apartments, please. The front desk will know my mother's flat. I am already late calling her.",
            "She is a hospital nurse covering the guarded ICU. Asked about the president, reveal that his eyes are open but he cannot form words or speak.")
    } else if same_text(call_id, "s1_2_asha") {
        ("Asha Sen", "Hello? Are you the young man who answers this line? Do you know if pigeons dislike mustard oil?",
            "She cooked too much lunch, pigeons visit her window, and nobody else has spoken to her today.")
    } else if same_text(call_id, "m2_nayan") {
        ("Nayan Boro", "National Radio. Government bulletin, presidential authority. Put me through without editorial delay.",
            "He carries a sealed bulletin claiming presidential approval of Order 17. He did not see the president and changes his account of who dictated it.")
    } else if same_text(call_id, "m3_rakesh") {
        ("Inspector Rakesh Nahal", "Official identity verification. Connect the Shapla building desk and remain available for procedural instructions.",
            "He checks R-12 under 17-A and orders reports on Laleh. Mahir Tal is dead but remains listed.")
    } else if same_text(call_id, "s2_asha") {
        ("Asha Sen", "It is me again. That actor on the radio died last night. Did you hear it?",
            "The actor reminded her of her late husband. If treated kindly before, she remembers the operator and asks about his wife.")
    } else if same_text(call_id, "m4_laleh") {
        ("Laleh Mir", "Ratan Colony. I need the union-room telephone, not the company office. My citizen ID is 41-772-M.",
            "Directory checks reveal DETAIN AND REPORT. Police circle Shapla; she needs drivers for Riverland families and organizers.")
    } else if same_text(call_id, "s2_1_nahid") {
        ("Nahid from bKash", "Sir, Nahid calling from bKash security. There was a suspicious transfer from your account.",
            "He cannot name the transfer. If encouraged, he asks for a verification code and then the account PIN.")
    } else if same_text(call_id, "m5_javed") {
        ("Javed Rahman", "Freight accounts for Central Station. Wagon 43 cannot leave until its weight is checked again.",
            "The manifest says machine parts, but questions reveal rifles wrapped in Police blankets and Varo's logistics stamp. He may offer paid silence.")
    } else if same_text(call_id, "m6_varo") {
        ("Captain Varo", "Secretariat authorization desk. I have Emergency Order 17-B and require verbal authentication before troop dispatch.",
            "17-B orders the Army to take Radio and Central Station and move R-12 detainees. The Secretariat confirms the seal but denies writing the station clause.")
    } else if same_text(call_id, "m7_tomas") {
        ("Tomas Vale", "The Embassy press desk. Tell them Tomas Vale has the hotel photographs they requested.",
            "He photographed a Home Affairs official giving envelopes to a market courier. The courier will call Home Affairs using blue ledger and asks for a later tap.")
    } else if same_text(call_id, "s3_1_nahid") {
        ("Nahid from bKash", "Doctor Rahim here. Your wife is expecting a child, yes? I can make sure nothing goes wrong.",
            "He has no callable clinic, will not name ingredients, and demands bKash payment. His voice matches Nahid's first call.")
    } else if same_text(call_id, "m8_bikram") {
        ("Bikram Sen", "Home Affairs complaints. This is Bikram Sen, spice license 8801. Minority boys are storing weapons behind my shop.",
            "The license belongs to a dead shopkeeper. He knows exact Shapla flats and wants target confirmation and Police patrol gaps.")
    } else if same_text(call_id, "s3_asha") {
        ("Asha Sen", "It may rain today. Your wife should carry a shawl.",
            "Asha sounds weak and is putting her papers in order before hospital. After two kind calls she asks for the operator's full name.")
    } else if same_text(call_id, "m9_paro") {
        ("Paro Sen", "Central Station freight desk. Tell them Ratan's night crews are invoking a safety stoppage.",
            "Workers can lock the rail points and Platform Six can admit evacuation vehicles. If Javed reached the Station, she knows about the rifles. A paid exact relay may be offered.")
    } else if same_text(call_id, "s3_akash") {
        ("Akash Dey", "Bela Bose, please. Connect me to Bela Bose.",
            "He does not know where Bela is. Asked why, he proudly says he got a real job and can marry her now.")
    } else if same_text(call_id, "m10_audit") {
        ("Inspector Rakesh Nahal", "Hospital administration. We require maternity beds for protected detainees before the station transfer.",
            "He traced a marked caller through the connection log and duty roster to the operator's wife's dependent record. Tapping does not reveal this.")
    } else if same_text(call_id, "s4_akash") {
        ("Akash Dey", "Has Bela called? Did she leave anything for me? Please check again.",
            "He searched places Bela might visit, has barely slept, and fears she left without hearing about his job.")
    } else if same_text(call_id, "m11a_laleh") {
        ("Laleh Mir", "Central Station. Laleh Mir, citizen ID 41-772-M. We are moving now.",
            "Asked why she breathes badly, reveal an attack injury; asked where families are, say they wait in basements and do not know the safe platform.")
    } else if same_text(call_id, "m11b_dev") {
        ("Dev Korr", "Central Station prisoner intake. We need a sealed platform for an authorized transfer.",
            "Laleh is among the detainees. He has no individual charges, only R-12, and children travel with arrested parents.")
    } else if same_text(call_id, "m12_arman") {
        ("Colonel Arman Vey", "National Radio command desk. Colonel Arman Vey under Emergency Order 17-B.",
            "Asked about deployment, reveal where columns are moving and that he wants Army rule. Evidence can make him admit neither order was likely presidential.")
    } else if same_text(call_id, "m13_meera") {
        ("Meera Tal", "Grand Neela Hotel, Tomas Vale's room. Embassy diplomatic line.",
            "Asked about the blue ledger and South's price, reveal buses, fuel, border papers, and the need for accurate Brigade and Army information.")
    } else if same_text(call_id, "m14_mira") {
        ("Mira Halek", "Ratan union room. Your crews hold my points. I need the person who opened Platform Six.",
            "Asked who holds the points and what can move, describe the active groups, entrances, and remaining train movement without choosing an authority.")
    } else {
        ("Unknown caller", "Hello?", "No further information is authored.")
    }
}

/// Dialogue guidance for the external caller voice; it exposes no graph or
/// node identity.
pub fn north_caller_prompt(call_id: &str) -> (prompt: CallerPrompt)
    ensures
        (prompt.name@, prompt.opening@, prompt.reveals@) == authored_prompt(call_id@),
{
    let (name, opening, reveals) = prompt_texts(call_id);
    CallerPrompt { name: String::from_str(name), opening: String::from_str(opening), reveals: String::from_str(reveals) }
}

impl CompiledStoryGraph {
    /// The guidance for an authored call; none for a call that was not authored.
    pub fn caller_prompt(&self, call_id: &str) -> (prompt: Option<CallerPrompt>)
        ensures
            match prompt {
                Some(p) => has_key(self.content().call_premises@, call_id@)
                    && (p.name@, p.opening@, p.reveals@) == authored_prompt(call_id@),
                None => !has_key(self.content().call_premises@, call_id@),
            },
    {
        match position_by_key(self.content.call_premises.as_slice(), call_id) {
            Some(_) => Some(north_caller_prompt(call_id)),
            None => None,
        }
    }
}

/// The operator intent with the wire name `name`.
pub open spec fn action_named(name: Seq<char>) -> Option<OperatorTextAction> {
    if name == "ask"@ {
        Some(OperatorTextAction::Ask)
    } else if name == "directory_check"@ {
        Some(OperatorTextAction::DirectoryCheck)
    } else if name == "tap"@ {
        Some(OperatorTextAction::Tap)
    } else if name == "connect"@ {
        Some(OperatorTextAction::Connect)
    } else if name == "refuse"@ {
        Some(OperatorTextAction::Refuse)
    } else if name == "report_police"@ {
        Some(OperatorTextAction::ReportPolice)
    } else if name == "call_ems"@ {
        Some(OperatorTextAction::CallEms)
    } else if name == "disclose"@ {
        Some(OperatorTextAction::Disclose)
    } else if name == "accept_payment"@ {
        Some(OperatorTextAction::AcceptPayment)
    } else {
        None
    }
}

/// The operator intent with the wire name `name`; free text names none.
pub fn operator_action_from_name(name: &str) -> (action: Option<OperatorTextAction>)
    ensures
        action == action_named(name@),
{
    if same_text(name, "ask") {
        Some(OperatorTextAction::Ask)
    } else if same_text(name, "directory_check") {
        Some(OperatorTextAction::DirectoryCheck)
    } else if same_text(name, "tap") {
        Some(OperatorTextAction::Tap)
    } else if same_text(name, "connect") {
        Some(OperatorTextAction::Connect)
    } else if same_text(name, "refuse") {
        Some(OperatorTextAction::Refuse)
    } else if same_text(name, "report_police") {
        Some(OperatorTextAction::ReportPolice)
    } else if same_text(name, "call_ems") {
        Some(OperatorTextAction::CallEms)
    } else if same_text(name, "disclose") {
        Some(OperatorTextAction::Disclose)
    } else if same_text(name, "accept_payment") {
        Some(OperatorTextAction::AcceptPayment)
    } else {
        None
    }
}

/// The running state of a North Neeladesh shift.
#[derive(Debug, Clone, PartialEq, Eq)]
pub struct NorthNeeladeshState {
    pub money: i32,
    pub rating: i32,
    pub flags: BTreeSet<String>,
    pub completed_calls: BTreeSet<String>,
    pub kindness_calls: u8,
    pub ending: Option<String>,
}

impl Default for NorthNeeladeshState {
    /// A shift starts with three coins, no rating, no flags and no ending.
    fn default() -> (state: Self)
        ensures
            state.money == 3,
            state.rating == 0,
            state.flags@ == Set::<String>::empty(),
            state.completed_calls@ == Set::<String>::empty(),
            state.kindness_calls == 0,
            state.ending is None,
    {
        NorthNeeladeshState {
            money: 3,
            rating: 0,
            flags: BTreeSet::new(),
            completed_calls: BTreeSet::new(),
            kindness_calls: 0,
            ending: None,
        }
    }
}

/// The next node chosen from a node is that node itself (a call in progress,
/// an ending) or one of its successors: a selection never leaves the graph.
pub proof fn law_selection_follows_an_edge(c: AuthoredContent, node_id: Seq<char>, proposal: Option<Seq<char>>, service_errors: u32)
    ensures
        selection(c, node_id, proposal, service_errors).0 == node_id
            || outgoing_of(c, node_id).contains(selection(c, node_id, proposal, service_errors).0),
{
    let sel = selection(c, node_id, proposal, service_errors);
    match keyed(c.nodes@, node_id) {
        Some(StoryNode { kind: StoryNodeKind::Conditional { on_met, on_unmet, .. }, .. }) => {
            let out = outgoing_of(c, node_id);
            assert(out[0] == on_met@ && out[1] == on_unmet@);
        },
        Some(StoryNode { kind: StoryNodeKind::ShiftCall { .. }, .. }) => {},
        _ => {
            let out = outgoing_of(c, node_id);
            if out.len() > 0 {
                assert(out.contains(out[0]));
            }
        },
    }
}

/// A proposal that is not turned down is what the runtime takes, and it names
/// a successor of the node: a proposal can never invent an edge.
pub proof fn law_accepted_proposal_is_an_edge(c: AuthoredContent, node_id: Seq<char>, proposal: Seq<char>, service_errors: u32)
    requires
        !selection(c, node_id, Some(proposal), service_errors).2,
    ensures
        selection(c, node_id, Some(proposal), service_errors).0 == proposal,
        outgoing_of(c, node_id).contains(proposal),
{
    match keyed(c.nodes@, node_id) {
        Some(StoryNode { kind: StoryNodeKind::Conditional { on_met, on_unmet, .. }, .. }) => {
            let out = outgoing_of(c, node_id);
            assert(out[0] == on_met@ && out[1] == on_unmet@);
        },
        _ => {},
    }
}

/// A conditional branch met with some number of service errors is met with
/// any smaller number.
pub proof fn law_fewer_errors_keep_the_met_branch(c: AuthoredContent, node_id: Seq<char>, fewer: u32, more: u32)
    requires
        fewer <= more,
        keyed(c.nodes@, node_id) matches Some(n) && n.kind matches StoryNodeKind::Conditional { on_met, .. }
            && selection(c, node_id, None, more).0 == on_met@,
    ensures
        selection(c, node_id, None, fewer).0 == selection(c, node_id, None, more).0,
{
    match keyed(c.nodes@, node_id) {
        Some(StoryNode { kind: StoryNodeKind::Conditional { condition: StoryCondition::MaxServiceErrors(maximum), on_met, on_unmet }, .. }) => {
            if on_met@ != on_unmet@ {
                assert(more <= maximum);
            }
        },
        _ => {},
    }
}

// ---------------------------------------------------------------------------
// Authored catalogs.

/// The identifiers of a list of records, in order.
pub open spec fn keys_of<T: Keyed>(items: Seq<T>) -> Seq<Seq<char>> {
    items.map_values(|x: T| x.key())
}

/// The names of a list of subscribers, in order.
pub open spec fn names_of(subscribers: Seq<Subscriber>) -> Seq<Seq<char>> {
    subscribers.map_values(|x: Subscriber| x.name@)
}

/// The subscriber list of a listing with `from` replaced by `to`.
pub open spec fn renamed_ids(ids: Seq<Seq<char>>, from: Seq<char>, to: Seq<char>) -> Seq<Seq<char>> {
    ids.map_values(|t: Seq<char>| if t == from { to } else { t })
}

/// The subscriber `s` is `id`, named `name`.
pub open spec fn subscriber_is(s: Subscriber, id: Seq<char>, name: Seq<char>) -> bool {
    s.id@ == id && s.name@ == name
}

/// The listing `l` is `id` on `line`, listing `members` in order.
pub open spec fn listing_is(l: LineListing, id: Seq<char>, line: u8, members: Seq<Seq<char>>) -> bool {
    l.id@ == id && l.line == line && texts(l.subscriber_ids@) == members
}

/// The premise `p` is `id`: a call from `caller` on `caller_line` to
/// `callee` on `callee_line`, reached through `directory_ids`.
pub open spec fn premise_is(
    p: CallPremise,
    id: Seq<char>,
    caller: Seq<char>,
    callee: Seq<char>,
    caller_line: Seq<char>,
    callee_line: Seq<char>,
    directory_ids: Seq<u16>,
) -> bool {
    &&& p.id@ == id
    &&& p.caller_id@ == caller
    &&& p.callee_id@ == callee
    &&& p.caller_line_id@ == caller_line
    &&& p.callee_line_id@ == callee_line
    &&& p.directory_ids@ == directory_ids
}

/// The beat `b` is `id`, playing the premise `premise`.
pub open spec fn beat_is(b: StoryBeat, id: Seq<char>, premise: Seq<char>) -> bool {
    b.id@ == id && b.call_premise_id@ == premise
}

/// The outcomes of an event as pairs of outcome and next node.
pub open spec fn outcome_pairs(outcomes: Seq<StoryEventOutcome>) -> Seq<(Seq<char>, Seq<char>)> {
    outcomes.map_values(|o: StoryEventOutcome| (o.id@, o.next_node_id@))
}

/// The event `e` is `id` with the outcomes `outcomes`, in order.
pub open spec fn event_is(e: StoryEvent, id: Seq<char>, outcomes: Seq<(Seq<char>, Seq<char>)>) -> bool {
    e.id@ == id && outcome_pairs(e.outcomes@) == outcomes
}

/// The ending `e` is `id`, concluding with `conclusion`.
pub open spec fn ending_is(e: Ending, id: Seq<char>, conclusion: Seq<char>) -> bool {
    e.id@ == id && e.conclusion@ == conclusion
}

/// The node `n` is the run start `id`, leading to `next`.
pub open spec fn run_start_is(n: StoryNode, id: Seq<char>, next: Seq<char>) -> bool {
    &&& n.id@ == id
    &&& n.kind matches StoryNodeKind::RunStart { next_node_id } && next_node_id@ == next
}

/// The node `n` is the scheduled call `id` playing `beat`, with its three
/// results.
pub open spec fn shift_call_is(
    n: StoryNode,
    id: Seq<char>,
    beat: Seq<char>,
    success: Seq<char>,
    missed: Seq<char>,
    invalid: Seq<char>,
) -> bool {
    &&& n.id@ == id
    &&& n.kind matches StoryNodeKind::ShiftCall { beat_id, on_success, on_missed, on_invalid }
    &&& beat_id@ == beat && on_success@ == success && on_missed@ == missed && on_invalid@ == invalid
}

/// The node `n` is `id`, presenting `event` with the default `default`.
pub open spec fn event_node_is(n: StoryNode, id: Seq<char>, event: Seq<char>, default: Seq<char>) -> bool {
    &&& n.id@ == id
    &&& n.kind matches StoryNodeKind::StoryEvent { event_id, default_outcome_id }
    &&& event_id@ == event && default_outcome_id@ == default
}

/// The node `n` is `id`, going to `met` while the service errors are at
/// most `maximum`, else to `unmet`.
pub open spec fn conditional_is(n: StoryNode, id: Seq<char>, maximum: u32, met: Seq<char>, unmet: Seq<char>) -> bool {
    &&& n.id@ == id
    &&& n.kind matches StoryNodeKind::Conditional { condition: StoryCondition::MaxServiceErrors(m), on_met, on_unmet }
    &&& m == maximum && on_met@ == met && on_unmet@ == unmet
}

/// The node `n` is `id`, ending the run with `ending`.
pub open spec fn ending_node_is(n: StoryNode, id: Seq<char>, ending: Seq<char>) -> bool {
    &&& n.id@ == id
    &&& n.kind matches StoryNodeKind::Ending { ending_id } && ending_id@ == ending
}

fn text(s: &str) -> (t: String)
    ensures
        t@ == s@,
{
    String::from_str(s)
}

fn subscriber(id: &str, name: &str) -> (s: Subscriber)
    ensures
        s.id@ == id@,
        s.name@ == name@,
{
    Subscriber { id: text(id), name: text(name) }
}

fn one_text(s: &str) -> (v: Vec<String>)
    ensures
        v@.len() == 1,
        v@[0]@ == s@,
        texts(v@) == seq![s@],
{
    let mut v: Vec<String> = Vec::new();
    v.push(text(s));
    assert(texts(v@) =~= seq![s@]);
    v
}

fn listing(id: &str, line: u8, subscriber_ids: Vec<String>) -> (l: LineListing)
    ensures
        l.id@ == id@,
        l.line == line,
        l.subscriber_ids@ == subscriber_ids@,
{
    LineListing { id: text(id), line, subscriber_ids }
}

fn premise(
    id: &str,
    caller_id: &str,
    callee_id: &str,
    caller_line_id: &str,
    callee_line_id: &str,
    directory_ids: Vec<u16>,
) -> (p: CallPremise)
    ensures
        p.id@ == id@,
        p.caller_id@ == caller_id@,
        p.callee_id@ == callee_id@,
        p.caller_line_id@ == caller_line_id@,
        p.callee_line_id@ == callee_line_id@,
        p.directory_ids@ == directory_ids@,
{
    CallPremise {
        id: text(id),
        caller_id: text(caller_id),
        callee_id: text(callee_id),
        caller_line_id: text(caller_line_id),
        callee_line_id: text(callee_line_id),
        directory_ids,
    }
}

fn story_beat(id: &str, call_premise_id: &str) -> (b: StoryBeat)
    ensures
        b.id@ == id@,
        b.call_premise_id@ == call_premise_id@,
{
    StoryBeat { id: text(id), call_premise_id: text(call_premise_id) }
}

fn outcome(id: &str, next_node_id: &str) -> (o: StoryEventOutcome)
    ensures
        o.id@ == id@,
        o.next_node_id@ == next_node_id@,
{
    StoryEventOutcome { id: text(id), next_node_id: text(next_node_id) }
}

fn single_outcome_event(id: &str, outcome_id: &str, next_node_id: &str) -> (e: StoryEvent)
    ensures
        e.id@ == id@,
        e.outcomes@.len() == 1,
        e.outcomes@[0].id@ == outcome_id@,
        e.outcomes@[0].next_node_id@ == next_node_id@,
        event_is(e, id@, seq![(outcome_id@, next_node_id@)]),
{
    let mut outcomes: Vec<StoryEventOutcome> = Vec::new();
    outcomes.push(outcome(outcome_id, next_node_id));
    assert(outcome_pairs(outcomes@) =~= seq![(outcome_id@, next_node_id@)]);
    StoryEvent { id: text(id), outcomes }
}

/// An event with the single outcome `default`.
fn authored_event(id: &str, next_node_id: &str) -> (e: StoryEvent)
    ensures
        e.id@ == id@,
        e.outcomes@.len() == 1,
        e.outcomes@[0].id@ == "default"@,
        e.outcomes@[0].next_node_id@ == next_node_id@,
        event_is(e, id@, seq![("default"@, next_node_id@)]),
{
    single_outcome_event(id, "default", next_node_id)
}

fn ending(id: &str, conclusion: &str) -> (e: Ending)
    ensures
        e.id@ == id@,
        e.conclusion@ == conclusion@,
{
    Ending { id: text(id), conclusion: text(conclusion) }
}

fn run_start(id: &str, next_node_id: &str) -> (n: StoryNode)
    ensures
        n.id@ == id@,
        n.kind matches StoryNodeKind::RunStart { next_node_id: next } && next@ == next_node_id@,
{
    StoryNode { id: text(id), kind: StoryNodeKind::RunStart { next_node_id: text(next_node_id) } }
}

/// A node presenting `event_id` with the authored default `default_outcome_id`.
fn story_event_node(id: &str, event_id: &str, default_outcome_id: &str) -> (n: StoryNode)
    ensures
        n.id@ == id@,
        n.kind matches StoryNodeKind::StoryEvent { event_id: e, default_outcome_id: d }
            && e@ == event_id@ && d@ == default_outcome_id@,
{
    StoryNode {
        id: text(id),
        kind: StoryNodeKind::StoryEvent { event_id: text(event_id), default_outcome_id: text(default_outcome_id) },
    }
}

/// A node presenting `event_id`, defaulting to its outcome `default`.
fn event_node(id: &str, event_id: &str) -> (n: StoryNode)
    ensures
        n.id@ == id@,
        n.kind matches StoryNodeKind::StoryEvent { event_id: e, default_outcome_id: d }
            && e@ == event_id@ && d@ == "default"@,
{
    story_event_node(id, event_id, "default")
}

/// A node for a scheduled call and its three authored results.
fn shift_call_node(id: &str, beat_id: &str, on_success: &str, on_missed: &str, on_invalid: &str) -> (n: StoryNode)
    ensures
        n.id@ == id@,
        n.kind matches StoryNodeKind::ShiftCall { beat_id: b, on_success: s, on_missed: m, on_invalid: i }
            && b@ == beat_id@ && s@ == on_success@ && m@ == on_missed@ && i@ == on_invalid@,
{
    StoryNode {
        id: text(id),
        kind: StoryNodeKind::ShiftCall {
            beat_id: text(beat_id),
            on_success: text(on_success),
            on_missed: text(on_missed),
            on_invalid: text(on_invalid),
        },
    }
}

fn conditional_node(id: &str, maximum: u32, on_met: &str, on_unmet: &str) -> (n: StoryNode)
    ensures
        n.id@ == id@,
        n.kind matches StoryNodeKind::Conditional { condition: StoryCondition::MaxServiceErrors(m), on_met: a, on_unmet: b }
            && m == maximum && a@ == on_met@ && b@ == on_unmet@,
{
    StoryNode {
        id: text(id),
        kind: StoryNodeKind::Conditional {
            condition: StoryCondition::MaxServiceErrors(maximum),
            on_met: text(on_met),
            on_unmet: text(on_unmet),
        },
    }
}

fn ending_node(id: &str, ending_id: &str) -> (n: StoryNode)
    ensures
        n.id@ == id@,
        n.kind matches StoryNodeKind::Ending { ending_id: e } && e@ == ending_id@,
{
    StoryNode { id: text(id), kind: StoryNodeKind::Ending { ending_id: text(ending_id) } }
}

/// The railway-dispatch demonstration, record by record.
pub open spec fn is_demo_content(c: AuthoredContent) -> bool {
    &&& c.subscribers@.len() == 4
    &&& subscriber_is(c.subscribers@[0], "taren_kesh"@, "Taren Kesh"@)
    &&& subscriber_is(c.subscribers@[1], "vira_dhal"@, "Vira Dhal"@)
    &&& subscriber_is(c.subscribers@[2], "leyla_varan"@, "Leyla Varan"@)
    &&& subscriber_is(c.subscribers@[3], "oren_vey"@, "Oren Vey"@)
    &&& c.line_listings@.len() == 4
    &&& listing_is(c.line_listings@[0], "railway_dispatch_office"@, 0, seq!["taren_kesh"@])
    &&& listing_is(c.line_listings@[1], "factory_records_office"@, 1, seq!["vira_dhal"@])
    &&& listing_is(c.line_listings@[2], "clinic"@, 2, seq!["leyla_varan"@])
    &&& listing_is(c.line_listings@[3], "border_post"@, 3, seq!["oren_vey"@])
    &&& c.call_premises@.len() == 2
    &&& premise_is(c.call_premises@[0], "dispatch_request"@, "taren_kesh"@, "vira_dhal"@, "railway_dispatch_office"@, "factory_records_office"@, seq![1u16, 2u16])
    &&& premise_is(c.call_premises@[1], "competing_service_request"@, "leyla_varan"@, "oren_vey"@, "clinic"@, "border_post"@, seq![2u16])
    &&& c.story_beats@.len() == 1
    &&& beat_is(c.story_beats@[0], "railway_dispatch"@, "dispatch_request"@)
    &&& c.story_events@.len() == 3
    &&& event_is(c.story_events@[0], "routing_success"@, seq![("success"@, "service_gate"@)])
    &&& event_is(c.story_events@[1], "routing_missed"@, seq![("missed"@, "ending_missed"@)])
    &&& event_is(c.story_events@[2], "routing_invalid"@, seq![("invalid"@, "ending_invalid"@)])
    &&& c.endings@.len() == 4
    &&& ending_is(c.endings@[0], "successful_dispatch"@, "The railway receives the dispatch in time."@)
    &&& ending_is(c.endings@[1], "missed_dispatch"@, "The waiting dispatch expires unanswered."@)
    &&& ending_is(c.endings@[2], "invalid_dispatch"@, "The exchange records an invalid routing."@)
    &&& ending_is(c.endings@[3], "service_error_dispatch"@, "The railway receives the dispatch, but the exchange records a service error."@)
    &&& c.nodes@.len() == 10
    &&& run_start_is(c.nodes@[0], "run_start"@, "shift_call"@)
    &&& shift_call_is(c.nodes@[1], "shift_call"@, "railway_dispatch"@, "event_success"@, "event_missed"@, "event_invalid"@)
    &&& event_node_is(c.nodes@[2], "event_success"@, "routing_success"@, "success"@)
    &&& conditional_is(c.nodes@[3], "service_gate"@, 0, "ending_success"@, "ending_service_error"@)
    &&& event_node_is(c.nodes@[4], "event_missed"@, "routing_missed"@, "missed"@)
    &&& event_node_is(c.nodes@[5], "event_invalid"@, "routing_invalid"@, "invalid"@)
    &&& ending_node_is(c.nodes@[6], "ending_success"@, "successful_dispatch"@)
    &&& ending_node_is(c.nodes@[7], "ending_missed"@, "missed_dispatch"@)
    &&& ending_node_is(c.nodes@[8], "ending_invalid"@, "invalid_dispatch"@)
    &&& ending_node_is(c.nodes@[9], "ending_service_error"@, "service_error_dispatch"@)
    &&& c.start_node_id@ == "run_start"@
}

/// The demo content passes validation and its graph is sound.
#[verifier::rlimit(80)]
#[verifier::spinoff_prover]
proof fn lemma_demo_compiles(c: AuthoredContent)
    requires
        is_demo_content(c),
    ensures
        content_valid(c),
        graph_sound(c),
{
    reveal_strlit("Leyla Varan");
    reveal_strlit("Oren Vey");
    reveal_strlit("Taren Kesh");
    reveal_strlit("The exchange records an invalid routing.");
    reveal_strlit("The railway receives the dispatch in time.");
    reveal_strlit("The railway receives the dispatch, but the exchange records a service error.");
    reveal_strlit("The waiting dispatch expires unanswered.");
    reveal_strlit("Vira Dhal");
    reveal_strlit("border_post");
    reveal_strlit("clinic");
    reveal_strlit("competing_service_request");
    reveal_strlit("dispatch_request");
    reveal_strlit("ending_invalid");
    reveal_strlit("ending_missed");
    reveal_strlit("ending_service_error");
    reveal_strlit("ending_success");
    reveal_strlit("event_invalid");
    reveal_strlit("event_missed");
    reveal_strlit("event_success");
    reveal_strlit("factory_records_office");
    reveal_strlit("invalid");
    reveal_strlit("invalid_dispatch");
    reveal_strlit("leyla_varan");
    reveal_strlit("missed");
    reveal_strlit("missed_dispatch");
    reveal_strlit("oren_vey");
    reveal_strlit("railway_dispatch");
    reveal_strlit("railway_dispatch_office");
    reveal_strlit("routing_invalid");
    reveal_strlit("routing_missed");
    reveal_strlit("routing_success");
    reveal_strlit("run_start");
    reveal_strlit("service_error_dispatch");
    reveal_strlit("service_gate");
    reveal_strlit("shift_call");
    reveal_strlit("success");
    reveal_strlit("successful_dispatch");
    reveal_strlit("taren_kesh");
    reveal_strlit("vira_dhal");
    assert(ids_ok(c.subscribers@)) by {
        assert forall|i: int| 0 <= i < 4 implies !is_blank((#[trigger] c.subscribers@[i]).key()) by {
            if i == 0 {
                assert(!is_white_space(c.subscribers@[0].key()[0]));
            } else if i == 1 {
                assert(!is_white_space(c.subscribers@[1].key()[0]));
            } else if i == 2 {
                assert(!is_white_space(c.subscribers@[2].key()[0]));
            } else if i == 3 {
                assert(!is_white_space(c.subscribers@[3].key()[0]));
            }
        }
        assert forall|i: int, j: int| 0 <= i < j < 4 implies (#[trigger] c.subscribers@[i]).key() != (#[trigger] c.subscribers@[j]).key() by {
            if i == 0 && j == 1 {
                assert(c.subscribers@[0].key().len() != c.subscribers@[1].key().len());
            } else if i == 0 && j == 2 {
                assert(c.subscribers@[0].key().len() != c.subscribers@[2].key().len());
            } else if i == 0 && j == 3 {
                assert(c.subscribers@[0].key().len() != c.subscribers@[3].key().len());
            } else if i == 1 && j == 2 {
                assert(c.subscribers@[1].key().len() != c.subscribers@[2].key().len());
            } else if i == 1 && j == 3 {
                assert(c.subscribers@[1].key().len() != c.subscribers@[3].key().len());
            } else if i == 2 && j == 3 {
                assert(c.subscribers@[2].key().len() != c.subscribers@[3].key().len());
            }
        }
    }
    assert(ids_ok(c.line_listings@)) by {
        assert forall|i: int| 0 <= i < 4 implies !is_blank((#[trigger] c.line_listings@[i]).key()) by {
            if i == 0 {
                assert(!is_white_space(c.line_listings@[0].key()[0]));
            } else if i == 1 {
                assert(!is_white_space(c.line_listings@[1].key()[0]));
            } else if i == 2 {
                assert(!is_white_space(c.line_listings@[2].key()[0]));
            } else if i == 3 {
                assert(!is_white_space(c.line_listings@[3].key()[0]));
            }
        }
        assert forall|i: int, j: int| 0 <= i < j < 4 implies (#[trigger] c.line_listings@[i]).key() != (#[trigger] c.line_listings@[j]).key() by {
            if i == 0 && j == 1 {
                assert(c.line_listings@[0].key().len() != c.line_listings@[1].key().len());
            } else if i == 0 && j == 2 {
                assert(c.line_listings@[0].key().len() != c.line_listings@[2].key().len());
            } else if i == 0 && j == 3 {
                assert(c.line_listings@[0].key().len() != c.line_listings@[3].key().len());
            } else if i == 1 && j == 2 {
                assert(c.line_listings@[1].key().len() != c.line_listings@[2].key().len());
            } else if i == 1 && j == 3 {
                assert(c.line_listings@[1].key().len() != c.line_listings@[3].key().len());
            } else if i == 2 && j == 3 {
                assert(c.line_listings@[2].key().len() != c.line_listings@[3].key().len());
            }
        }
    }
    assert(ids_ok(c.call_premises@)) by {
        assert forall|i: int| 0 <= i < 2 implies !is_blank((#[trigger] c.call_premises@[i]).key()) by {
            if i == 0 {
                assert(!is_white_space(c.call_premises@[0].key()[0]));
            } else if i == 1 {
                assert(!is_white_space(c.call_premises@[1].key()[0]));
            }
        }
        assert forall|i: int, j: int| 0 <= i < j < 2 implies (#[trigger] c.call_premises@[i]).key() != (#[trigger] c.call_premises@[j]).key() by {
            if i == 0 && j == 1 {
                assert(c.call_premises@[0].key().len() != c.call_premises@[1].key().len());
            }
        }
    }
    assert(ids_ok(c.story_beats@)) by {
        assert forall|i: int| 0 <= i < 1 implies !is_blank((#[trigger] c.story_beats@[i]).key()) by {
            if i == 0 {
                assert(!is_white_space(c.story_beats@[0].key()[0]));
            }
        }
    }
    assert(ids_ok(c.story_events@)) by {
        assert forall|i: int| 0 <= i < 3 implies !is_blank((#[trigger] c.story_events@[i]).key()) by {
            if i == 0 {
                assert(!is_white_space(c.story_events@[0].key()[0]));
            } else if i == 1 {
                assert(!is_white_space(c.story_events@[1].key()[0]));
            } else if i == 2 {
                assert(!is_white_space(c.story_events@[2].key()[0]));
            }
        }
        assert forall|i: int, j: int| 0 <= i < j < 3 implies (#[trigger] c.story_events@[i]).key() != (#[trigger] c.story_events@[j]).key() by {
            if i == 0 && j == 1 {
                assert(c.story_events@[0].key().len() != c.story_events@[1].key().len());
            } else if i == 0 && j == 2 {
                assert(c.story_events@[0].key()[8] != c.story_events@[2].key()[8]);
            } else if i == 1 && j == 2 {
                assert(c.story_events@[1].key().len() != c.story_events@[2].key().len());
            }
        }
    }
    assert(ids_ok(c.endings@)) by {
        assert forall|i: int| 0 <= i < 4 implies !is_blank((#[trigger] c.endings@[i]).key()) by {
            if i == 0 {
                assert(!is_white_space(c.endings@[0].key()[0]));
            } else if i == 1 {
                assert(!is_white_space(c.endings@[1].key()[0]));
            } else if i == 2 {
                assert(!is_white_space(c.endings@[2].key()[0]));
            } else if i == 3 {
                assert(!is_white_space(c.endings@[3].key()[0]));
            }
        }
        assert forall|i: int, j: int| 0 <= i < j < 4 implies (#[trigger] c.endings@[i]).key() != (#[trigger] c.endings@[j]).key() by {
            if i == 0 && j == 1 {
                assert(c.endings@[0].key().len() != c.endings@[1].key().len());
            } else if i == 0 && j == 2 {
                assert(c.endings@[0].key().len() != c.endings@[2].key().len());
            } else if i == 0 && j == 3 {
                assert(c.endings@[0].key().len() != c.endings@[3].key().len());
            } else if i == 1 && j == 2 {
                assert(c.endings@[1].key().len() != c.endings@[2].key().len());
            } else if i == 1 && j == 3 {
                assert(c.endings@[1].key().len() != c.endings@[3].key().len());
            } else if i == 2 && j == 3 {
                assert(c.endings@[2].key().len() != c.endings@[3].key().len());
            }
        }
    }
    assert(ids_ok(c.nodes@)) by {
        assert forall|i: int| 0 <= i < 10 implies !is_blank((#[trigger] c.nodes@[i]).key()) by {
            if i == 0 {
                assert(!is_white_space(c.nodes@[0].key()[0]));
            } else if i == 1 {
                assert(!is_white_space(c.nodes@[1].key()[0]));
            } else if i == 2 {
                assert(!is_white_space(c.nodes@[2].key()[0]));
            } else if i == 3 {
                assert(!is_white_space(c.nodes@[3].key()[0]));
            } else if i == 4 {
                assert(!is_white_space(c.nodes@[4].key()[0]));
            } else if i == 5 {
                assert(!is_white_space(c.nodes@[5].key()[0]));
            } else if i == 6 {
                assert(!is_white_space(c.nodes@[6].key()[0]));
            } else if i == 7 {
                assert(!is_white_space(c.nodes@[7].key()[0]));
            } else if i == 8 {
                assert(!is_white_space(c.nodes@[8].key()[0]));
            } else if i == 9 {
                assert(!is_white_space(c.nodes@[9].key()[0]));
            }
        }
        assert forall|i: int, j: int| 0 <= i < j < 10 implies (#[trigger] c.nodes@[i]).key() != (#[trigger] c.nodes@[j]).key() by {
            if i == 0 && j == 1 {
                assert(c.nodes@[0].key().len() != c.nodes@[1].key().len());
            } else if i == 0 && j == 2 {
                assert(c.nodes@[0].key().len() != c.nodes@[2].key().len());
            } else if i == 0 && j == 3 {
                assert(c.nodes@[0].key().len() != c.nodes@[3].key().len());
            } else if i == 0 && j == 4 {
                assert(c.nodes@[0].key().len() != c.nodes@[4].key().len());
            } else if i == 0 && j == 5 {
                assert(c.nodes@[0].key().len() != c.nodes@[5].key().len());
            } else if i == 0 && j == 6 {
                assert(c.nodes@[0].key().len() != c.nodes@[6].key().len());
            } else if i == 0 && j == 7 {
                assert(c.nodes@[0].key().len() != c.nodes@[7].key().len());
            } else if i == 0 && j == 8 {
                assert(c.nodes@[0].key().len() != c.nodes@[8].key().len());
            } else if i == 0 && j == 9 {
                assert(c.nodes@[0].key().len() != c.nodes@[9].key().len());
            } else if i == 1 && j == 2 {
                assert(c.nodes@[1].key().len() != c.nodes@[2].key().len());
            } else if i == 1 && j == 3 {
                assert(c.nodes@[1].key().len() != c.nodes@[3].key().len());
            } else if i == 1 && j == 4 {
                assert(c.nodes@[1].key().len() != c.nodes@[4].key().len());
            } else if i == 1 && j == 5 {
                assert(c.nodes@[1].key().len() != c.nodes@[5].key().len());
            } else if i == 1 && j == 6 {
                assert(c.nodes@[1].key().len() != c.nodes@[6].key().len());
            } else if i == 1 && j == 7 {
                assert(c.nodes@[1].key().len() != c.nodes@[7].key().len());
            } else if i == 1 && j == 8 {
                assert(c.nodes@[1].key().len() != c.nodes@[8].key().len());
            } else if i == 1 && j == 9 {
                assert(c.nodes@[1].key().len() != c.nodes@[9].key().len());
            } else if i == 2 && j == 3 {
                assert(c.nodes@[2].key().len() != c.nodes@[3].key().len());
            } else if i == 2 && j == 4 {
                assert(c.nodes@[2].key().len() != c.nodes@[4].key().len());
            } else if i == 2 && j == 5 {
                assert(c.nodes@[2].key()[6] != c.nodes@[5].key()[6]);
            } else if i == 2 && j == 6 {
                assert(c.nodes@[2].key().len() != c.nodes@[6].key().len());
            } else if i == 2 && j == 7 {
                assert(c.nodes@[2].key()[1] != c.nodes@[7].key()[1]);
            } else if i == 2 && j == 8 {
                assert(c.nodes@[2].key().len() != c.nodes@[8].key().len());
            } else if i == 2 && j == 9 {
                assert(c.nodes@[2].key().len() != c.nodes@[9].key().len());
            } else if i == 3 && j == 4 {
                assert(c.nodes@[3].key()[0] != c.nodes@[4].key()[0]);
            } else if i == 3 && j == 5 {
                assert(c.nodes@[3].key().len() != c.nodes@[5].key().len());
            } else if i == 3 && j == 6 {
                assert(c.nodes@[3].key().len() != c.nodes@[6].key().len());
            } else if i == 3 && j == 7 {
                assert(c.nodes@[3].key().len() != c.nodes@[7].key().len());
            } else if i == 3 && j == 8 {
                assert(c.nodes@[3].key().len() != c.nodes@[8].key().len());
            } else if i == 3 && j == 9 {
                assert(c.nodes@[3].key().len() != c.nodes@[9].key().len());
            } else if i == 4 && j == 5 {
                assert(c.nodes@[4].key().len() != c.nodes@[5].key().len());
            } else if i == 4 && j == 6 {
                assert(c.nodes@[4].key().len() != c.nodes@[6].key().len());
            } else if i == 4 && j == 7 {
                assert(c.nodes@[4].key().len() != c.nodes@[7].key().len());
            } else if i == 4 && j == 8 {
                assert(c.nodes@[4].key().len() != c.nodes@[8].key().len());
            } else if i == 4 && j == 9 {
                assert(c.nodes@[4].key().len() != c.nodes@[9].key().len());
            } else if i == 5 && j == 6 {
                assert(c.nodes@[5].key().len() != c.nodes@[6].key().len());
            } else if i == 5 && j == 7 {
                assert(c.nodes@[5].key()[1] != c.nodes@[7].key()[1]);
            } else if i == 5 && j == 8 {
                assert(c.nodes@[5].key().len() != c.nodes@[8].key().len());
            } else if i == 5 && j == 9 {
                assert(c.nodes@[5].key().len() != c.nodes@[9].key().len());
            } else if i == 6 && j == 7 {
                assert(c.nodes@[6].key().len() != c.nodes@[7].key().len());
            } else if i == 6 && j == 8 {
                assert(c.nodes@[6].key()[7] != c.nodes@[8].key()[7]);
            } else if i == 6 && j == 9 {
                assert(c.nodes@[6].key().len() != c.nodes@[9].key().len());
            } else if i == 7 && j == 8 {
                assert(c.nodes@[7].key().len() != c.nodes@[8].key().len());
            } else if i == 7 && j == 9 {
                assert(c.nodes@[7].key().len() != c.nodes@[9].key().len());
            } else if i == 8 && j == 9 {
                assert(c.nodes@[8].key().len() != c.nodes@[9].key().len());
            }
        }
    }
    assert(listing_ok(c, c.line_listings@[0])) by {
        assert(texts(c.line_listings@[0].subscriber_ids@).len() == 1);
        assert forall|k: int| 0 <= k < 1 implies has_key(c.subscribers@, (#[trigger] c.line_listings@[0].subscriber_ids@[k])@) by {
            if k == 0 {
                assert(c.line_listings@[0].subscriber_ids@[0]@ == texts(c.line_listings@[0].subscriber_ids@)[0]);
                assert(c.subscribers@[0].key() == c.line_listings@[0].subscriber_ids@[0]@);
            }
        }
    }
    assert(listing_ok(c, c.line_listings@[1])) by {
        assert(texts(c.line_listings@[1].subscriber_ids@).len() == 1);
        assert forall|k: int| 0 <= k < 1 implies has_key(c.subscribers@, (#[trigger] c.line_listings@[1].subscriber_ids@[k])@) by {
            if k == 0 {
                assert(c.line_listings@[1].subscriber_ids@[0]@ == texts(c.line_listings@[1].subscriber_ids@)[0]);
                assert(c.subscribers@[1].key() == c.line_listings@[1].subscriber_ids@[0]@);
            }
        }
    }
    assert(listing_ok(c, c.line_listings@[2])) by {
        assert(texts(c.line_listings@[2].subscriber_ids@).len() == 1);
        assert forall|k: int| 0 <= k < 1 implies has_key(c.subscribers@, (#[trigger] c.line_listings@[2].subscriber_ids@[k])@) by {
            if k == 0 {
                assert(c.line_listings@[2].subscriber_ids@[0]@ == texts(c.line_listings@[2].subscriber_ids@)[0]);
                assert(c.subscribers@[2].key() == c.line_listings@[2].subscriber_ids@[0]@);
            }
        }
    }
    assert(listing_ok(c, c.line_listings@[3])) by {
        assert(texts(c.line_listings@[3].subscriber_ids@).len() == 1);
        assert forall|k: int| 0 <= k < 1 implies has_key(c.subscribers@, (#[trigger] c.line_listings@[3].subscriber_ids@[k])@) by {
            if k == 0 {
                assert(c.line_listings@[3].subscriber_ids@[0]@ == texts(c.line_listings@[3].subscriber_ids@)[0]);
                assert(c.subscribers@[3].key() == c.line_listings@[3].subscriber_ids@[0]@);
            }
        }
    }
    assert forall|i: int| 0 <= i < 4 implies listing_ok(c, #[trigger] c.line_listings@[i]) by {
        if i == 0 {
        } else if i == 1 {
        } else if i == 2 {
        } else if i == 3 {
        }
    }
    assert forall|i: int, j: int| 0 <= i < j < 4 implies (#[trigger] c.line_listings@[i]).line != (#[trigger] c.line_listings@[j]).line by {
        if i == 0 && j == 1 {
        } else if i == 0 && j == 2 {
        } else if i == 0 && j == 3 {
        } else if i == 1 && j == 2 {
        } else if i == 1 && j == 3 {
        } else if i == 2 && j == 3 {
        }
    }
    assert(premise_ok(c, c.call_premises@[0])) by {
        assert(c.call_premises@[0].directory_ids@.len() == 2);
        assert forall|k: int| 0 <= k < 2 implies #[trigger] c.call_premises@[0].directory_ids@[k] <= 9999 by {
            if k == 0 {
            } else if k == 1 {
            }
        }
        assert(c.subscribers@[0].key() == c.call_premises@[0].caller_id@);
        assert(c.subscribers@[1].key() == c.call_premises@[0].callee_id@);
        assert(c.line_listings@[0].key() == c.call_premises@[0].caller_line_id@);
        assert(c.line_listings@[1].key() == c.call_premises@[0].callee_line_id@);
        assert(c.call_premises@[0].caller_line_id@.len() != c.call_premises@[0].callee_line_id@.len());
        assert(c.line_listings@[0].subscriber_ids@[0]@ == texts(c.line_listings@[0].subscriber_ids@)[0]);
        assert(c.line_listings@[0].id@ == "railway_dispatch_office"@ && has_text(c.line_listings@[0].subscriber_ids@, "taren_kesh"@));
        assert(c.line_listings@[1].subscriber_ids@[0]@ == texts(c.line_listings@[1].subscriber_ids@)[0]);
        assert(c.line_listings@[1].id@ == "factory_records_office"@ && has_text(c.line_listings@[1].subscriber_ids@, "vira_dhal"@));
    }
    assert(premise_ok(c, c.call_premises@[1])) by {
        assert(c.call_premises@[1].directory_ids@.len() == 1);
        assert forall|k: int| 0 <= k < 1 implies #[trigger] c.call_premises@[1].directory_ids@[k] <= 9999 by {
            if k == 0 {
            }
        }
        assert(c.subscribers@[2].key() == c.call_premises@[1].caller_id@);
        assert(c.subscribers@[3].key() == c.call_premises@[1].callee_id@);
        assert(c.line_listings@[2].key() == c.call_premises@[1].caller_line_id@);
        assert(c.line_listings@[3].key() == c.call_premises@[1].callee_line_id@);
        assert(c.call_premises@[1].caller_line_id@.len() != c.call_premises@[1].callee_line_id@.len());
        assert(c.line_listings@[2].subscriber_ids@[0]@ == texts(c.line_listings@[2].subscriber_ids@)[0]);
        assert(c.line_listings@[2].id@ == "clinic"@ && has_text(c.line_listings@[2].subscriber_ids@, "leyla_varan"@));
        assert(c.line_listings@[3].subscriber_ids@[0]@ == texts(c.line_listings@[3].subscriber_ids@)[0]);
        assert(c.line_listings@[3].id@ == "border_post"@ && has_text(c.line_listings@[3].subscriber_ids@, "oren_vey"@));
    }
    assert forall|i: int| 0 <= i < 2 implies premise_ok(c, #[trigger] c.call_premises@[i]) by {
        if i == 0 {
        } else if i == 1 {
        }
    }
    assert forall|i: int| 0 <= i < 1 implies has_key(c.call_premises@, (#[trigger] c.story_beats@[i]).call_premise_id@) by {
        if i == 0 {
            assert(c.call_premises@[0].key() == c.story_beats@[0].call_premise_id@);
        }
    }
    assert(event_ok(c, c.story_events@[0])) by {
        assert(outcome_pairs(c.story_events@[0].outcomes@).len() == 1);
        assert(outcome_pairs(c.story_events@[0].outcomes@)[0] == (c.story_events@[0].outcomes@[0].id@, c.story_events@[0].outcomes@[0].next_node_id@));
        assert(ids_ok(c.story_events@[0].outcomes@)) by {
            assert forall|i: int| 0 <= i < 1 implies !is_blank((#[trigger] c.story_events@[0].outcomes@[i]).key()) by {
                if i == 0 {
                    assert(!is_white_space(c.story_events@[0].outcomes@[0].key()[0]));
                }
            }
        }
        assert forall|k: int| 0 <= k < 1 implies has_key(c.nodes@, (#[trigger] c.story_events@[0].outcomes@[k]).next_node_id@) by {
            if k == 0 {
                assert(c.nodes@[3].key() == c.story_events@[0].outcomes@[0].next_node_id@);
            }
        }
    }
    assert(event_ok(c, c.story_events@[1])) by {
        assert(outcome_pairs(c.story_events@[1].outcomes@).len() == 1);
        assert(outcome_pairs(c.story_events@[1].outcomes@)[0] == (c.story_events@[1].outcomes@[0].id@, c.story_events@[1].outcomes@[0].next_node_id@));
        assert(ids_ok(c.story_events@[1].outcomes@)) by {
            assert forall|i: int| 0 <= i < 1 implies !is_blank((#[trigger] c.story_events@[1].outcomes@[i]).key()) by {
                if i == 0 {
                    assert(!is_white_space(c.story_events@[1].outcomes@[0].key()[0]));
                }
            }
        }
        assert forall|k: int| 0 <= k < 1 implies has_key(c.nodes@, (#[trigger] c.story_events@[1].outcomes@[k]).next_node_id@) by {
            if k == 0 {
                assert(c.nodes@[7].key() == c.story_events@[1].outcomes@[0].next_node_id@);
            }
        }
    }
    assert(event_ok(c, c.story_events@[2])) by {
        assert(outcome_pairs(c.story_events@[2].outcomes@).len() == 1);
        assert(outcome_pairs(c.story_events@[2].outcomes@)[0] == (c.story_events@[2].outcomes@[0].id@, c.story_events@[2].outcomes@[0].next_node_id@));
        assert(ids_ok(c.story_events@[2].outcomes@)) by {
            assert forall|i: int| 0 <= i < 1 implies !is_blank((#[trigger] c.story_events@[2].outcomes@[i]).key()) by {
                if i == 0 {
                    assert(!is_white_space(c.story_events@[2].outcomes@[0].key()[0]));
                }
            }
        }
        assert forall|k: int| 0 <= k < 1 implies has_key(c.nodes@, (#[trigger] c.story_events@[2].outcomes@[k]).next_node_id@) by {
            if k == 0 {
                assert(c.nodes@[8].key() == c.story_events@[2].outcomes@[0].next_node_id@);
            }
        }
    }
    assert forall|i: int| 0 <= i < 3 implies event_ok(c, #[trigger] c.story_events@[i]) by {
        if i == 0 {
        } else if i == 1 {
        } else if i == 2 {
        }
    }
    assert forall|i: int| 0 <= i < 4 implies !is_blank((#[trigger] c.endings@[i]).conclusion@) by {
        if i == 0 {
            assert(!is_white_space(c.endings@[0].conclusion@[0]));
        } else if i == 1 {
            assert(!is_white_space(c.endings@[1].conclusion@[0]));
        } else if i == 2 {
            assert(!is_white_space(c.endings@[2].conclusion@[0]));
        } else if i == 3 {
            assert(!is_white_space(c.endings@[3].conclusion@[0]));
        }
    }
    assert(c.nodes@[0].key() == c.start_node_id@);
    assert(node_ok(c, c.nodes@[0])) by {
        assert(c.nodes@[1].key() == "shift_call"@);
    }
    assert(node_ok(c, c.nodes@[1])) by {
        assert(c.story_beats@[0].key() == "railway_dispatch"@);
        assert(c.nodes@[2].key() == "event_success"@);
        assert(c.nodes@[4].key() == "event_missed"@);
        assert(c.nodes@[5].key() == "event_invalid"@);
    }
    assert(node_ok(c, c.nodes@[2])) by {
        assert(c.story_events@[0].key() == "routing_success"@);
        assert(outcome_pairs(c.story_events@[0].outcomes@)[0] == (c.story_events@[0].outcomes@[0].id@, c.story_events@[0].outcomes@[0].next_node_id@));
        assert(c.story_events@[0].outcomes@[0].key() == "success"@);
    }
    assert(node_ok(c, c.nodes@[3])) by {
        assert(c.nodes@[6].key() == "ending_success"@);
        assert(c.nodes@[9].key() == "ending_service_error"@);
    }
    assert(node_ok(c, c.nodes@[4])) by {
        assert(c.story_events@[1].key() == "routing_missed"@);
        assert(outcome_pairs(c.story_events@[1].outcomes@)[0] == (c.story_events@[1].outcomes@[0].id@, c.story_events@[1].outcomes@[0].next_node_id@));
        assert(c.story_events@[1].outcomes@[0].key() == "missed"@);
    }
    assert(node_ok(c, c.nodes@[5])) by {
        assert(c.story_events@[2].key() == "routing_invalid"@);
        assert(outcome_pairs(c.story_events@[2].outcomes@)[0] == (c.story_events@[2].outcomes@[0].id@, c.story_events@[2].outcomes@[0].next_node_id@));
        assert(c.story_events@[2].outcomes@[0].key() == "invalid"@);
    }
    assert(node_ok(c, c.nodes@[6])) by {
        assert(c.endings@[0].key() == "successful_dispatch"@);
    }
    assert(node_ok(c, c.nodes@[7])) by {
        assert(c.endings@[1].key() == "missed_dispatch"@);
    }
    assert(node_ok(c, c.nodes@[8])) by {
        assert(c.endings@[2].key() == "invalid_dispatch"@);
    }
    assert(node_ok(c, c.nodes@[9])) by {
        assert(c.endings@[3].key() == "service_error_dispatch"@);
    }
    assert forall|i: int| 0 <= i < 10 implies node_ok(c, #[trigger] c.nodes@[i]) by {
        if i == 0 {
        } else if i == 1 {
        } else if i == 2 {
        } else if i == 3 {
        } else if i == 4 {
        } else if i == 5 {
        } else if i == 6 {
        } else if i == 7 {
        } else if i == 8 {
        } else if i == 9 {
        }
    }
    assert(content_valid(c));
    lemma_first_key(c.nodes@, c.start_node_id@, 0);
    assert(node_targets(c.story_events@, c.nodes@[0]) =~= seq!["shift_call"@]);
    assert(node_targets(c.story_events@, c.nodes@[1]) =~= seq!["event_success"@, "event_missed"@, "event_invalid"@]);
    assert(node_targets(c.story_events@, c.nodes@[2]) == seq!["service_gate"@]) by {
        assert(c.story_events@[0].key() == "routing_success"@);
        lemma_first_key(c.story_events@, "routing_success"@, 0);
        assert(outcome_pairs(c.story_events@[0].outcomes@)[0] == (c.story_events@[0].outcomes@[0].id@, c.story_events@[0].outcomes@[0].next_node_id@));
        lemma_first_key(c.story_events@[0].outcomes@, "success"@, 0);
        assert(outcome_pairs(c.story_events@[0].outcomes@).len() == 1);
        assert(c.story_events@[0].outcomes@.subrange(0, 0).len() == 0);
        assert(other_targets(c.story_events@[0].outcomes@.subrange(0, 0), "success"@) == Seq::<Seq<char>>::empty());
        assert(c.story_events@[0].outcomes@.subrange(0, 1).drop_last() =~= c.story_events@[0].outcomes@.subrange(0, 0));
        assert(c.story_events@[0].outcomes@.subrange(0, 1).last() == c.story_events@[0].outcomes@[0]);
        assert(other_targets(c.story_events@[0].outcomes@.subrange(0, 1), "success"@) =~= seq![]);
        assert(c.story_events@[0].outcomes@.subrange(0, 1) =~= c.story_events@[0].outcomes@);
        assert(other_targets(c.story_events@[0].outcomes@, "success"@) =~= seq![]);
        assert(event_targets(c.story_events@[0].outcomes@, "success"@) =~= seq!["service_gate"@]);
    }
    assert(node_targets(c.story_events@, c.nodes@[3]) =~= seq!["ending_success"@, "ending_service_error"@]);
    assert(node_targets(c.story_events@, c.nodes@[4]) == seq!["ending_missed"@]) by {
        assert(c.story_events@[1].key() == "routing_missed"@);
        lemma_first_key(c.story_events@, "routing_missed"@, 1);
        assert(outcome_pairs(c.story_events@[1].outcomes@)[0] == (c.story_events@[1].outcomes@[0].id@, c.story_events@[1].outcomes@[0].next_node_id@));
        lemma_first_key(c.story_events@[1].outcomes@, "missed"@, 0);
        assert(outcome_pairs(c.story_events@[1].outcomes@).len() == 1);
        assert(c.story_events@[1].outcomes@.subrange(0, 0).len() == 0);
        assert(other_targets(c.story_events@[1].outcomes@.subrange(0, 0), "missed"@) == Seq::<Seq<char>>::empty());
        assert(c.story_events@[1].outcomes@.subrange(0, 1).drop_last() =~= c.story_events@[1].outcomes@.subrange(0, 0));
        assert(c.story_events@[1].outcomes@.subrange(0, 1).last() == c.story_events@[1].outcomes@[0]);
        assert(other_targets(c.story_events@[1].outcomes@.subrange(0, 1), "missed"@) =~= seq![]);
        assert(c.story_events@[1].outcomes@.subrange(0, 1) =~= c.story_events@[1].outcomes@);
        assert(other_targets(c.story_events@[1].outcomes@, "missed"@) =~= seq![]);
        assert(event_targets(c.story_events@[1].outcomes@, "missed"@) =~= seq!["ending_missed"@]);
    }
    assert(node_targets(c.story_events@, c.nodes@[5]) == seq!["ending_invalid"@]) by {
        assert(c.story_events@[2].key() == "routing_invalid"@);
        lemma_first_key(c.story_events@, "routing_invalid"@, 2);
        assert(outcome_pairs(c.story_events@[2].outcomes@)[0] == (c.story_events@[2].outcomes@[0].id@, c.story_events@[2].outcomes@[0].next_node_id@));
        lemma_first_key(c.story_events@[2].outcomes@, "invalid"@, 0);
        assert(outcome_pairs(c.story_events@[2].outcomes@).len() == 1);
        assert(c.story_events@[2].outcomes@.subrange(0, 0).len() == 0);
        assert(other_targets(c.story_events@[2].outcomes@.subrange(0, 0), "invalid"@) == Seq::<Seq<char>>::empty());
        assert(c.story_events@[2].outcomes@.subrange(0, 1).drop_last() =~= c.story_events@[2].outcomes@.subrange(0, 0));
        assert(c.story_events@[2].outcomes@.subrange(0, 1).last() == c.story_events@[2].outcomes@[0]);
        assert(other_targets(c.story_events@[2].outcomes@.subrange(0, 1), "invalid"@) =~= seq![]);
        assert(c.story_events@[2].outcomes@.subrange(0, 1) =~= c.story_events@[2].outcomes@);
        assert(other_targets(c.story_events@[2].outcomes@, "invalid"@) =~= seq![]);
        assert(event_targets(c.story_events@[2].outcomes@, "invalid"@) =~= seq!["ending_invalid"@]);
    }
    assert(node_targets(c.story_events@, c.nodes@[6]) =~= seq![]);
    assert(node_targets(c.story_events@, c.nodes@[7]) =~= seq![]);
    assert(node_targets(c.story_events@, c.nodes@[8]) =~= seq![]);
    assert(node_targets(c.story_events@, c.nodes@[9]) =~= seq![]);
    let rank = |i: int| if i == 0 { 0nat } else if i == 1 { 1nat } else if i == 2 { 6nat } else if i == 3 { 7nat } else if i == 4 { 4nat } else if i == 5 { 2nat } else if i == 6 { 9nat } else if i == 7 { 5nat } else if i == 8 { 3nat } else if i == 9 { 8nat } else { 0nat };
    let parent = |i: int| if i == 1 { 0int } else if i == 2 { 1int } else if i == 3 { 2int } else if i == 4 { 1int } else if i == 5 { 1int } else if i == 6 { 3int } else if i == 7 { 4int } else if i == 8 { 5int } else if i == 9 { 3int } else { 0int };
    assert forall|a: int, b: int| #[trigger] story_edge(c, a, b) implies rank(a) < rank(b) by {
        if a == 0 {
            assert(c.nodes@[b].key() == c.nodes@[b].id@);
            assert(c.nodes@[1].key() == "shift_call"@);
        } else if a == 1 {
            assert(c.nodes@[b].key() == c.nodes@[b].id@);
            assert(c.nodes@[2].key() == "event_success"@);
            assert(c.nodes@[4].key() == "event_missed"@);
            assert(c.nodes@[5].key() == "event_invalid"@);
        } else if a == 2 {
            assert(c.nodes@[b].key() == c.nodes@[b].id@);
            assert(c.nodes@[3].key() == "service_gate"@);
        } else if a == 3 {
            assert(c.nodes@[b].key() == c.nodes@[b].id@);
            assert(c.nodes@[6].key() == "ending_success"@);
            assert(c.nodes@[9].key() == "ending_service_error"@);
        } else if a == 4 {
            assert(c.nodes@[b].key() == c.nodes@[b].id@);
            assert(c.nodes@[7].key() == "ending_missed"@);
        } else if a == 5 {
            assert(c.nodes@[b].key() == c.nodes@[b].id@);
            assert(c.nodes@[8].key() == "ending_invalid"@);
        } else if a == 6 {
            assert(c.nodes@[b].key() == c.nodes@[b].id@);
        } else if a == 7 {
            assert(c.nodes@[b].key() == c.nodes@[b].id@);
        } else if a == 8 {
            assert(c.nodes@[b].key() == c.nodes@[b].id@);
        } else if a == 9 {
            assert(c.nodes@[b].key() == c.nodes@[b].id@);
        }
    }
    assert forall|w: int| 0 <= w < 10 && w != 0 implies 0 <= #[trigger] parent(w) < 10 && rank(parent(w)) < rank(w) && story_edge(c, parent(w), w) by {
        if w == 1 {
            assert(node_targets(c.story_events@, c.nodes@[0])[0] == c.nodes@[1].id@);
        } else if w == 2 {
            assert(node_targets(c.story_events@, c.nodes@[1])[0] == c.nodes@[2].id@);
        } else if w == 3 {
            assert(node_targets(c.story_events@, c.nodes@[2])[0] == c.nodes@[3].id@);
        } else if w == 4 {
            assert(node_targets(c.story_events@, c.nodes@[1])[1] == c.nodes@[4].id@);
        } else if w == 5 {
            assert(node_targets(c.story_events@, c.nodes@[1])[2] == c.nodes@[5].id@);
        } else if w == 6 {
            assert(node_targets(c.story_events@, c.nodes@[3])[0] == c.nodes@[6].id@);
        } else if w == 7 {
            assert(node_targets(c.story_events@, c.nodes@[4])[0] == c.nodes@[7].id@);
        } else if w == 8 {
            assert(node_targets(c.story_events@, c.nodes@[5])[0] == c.nodes@[8].id@);
        } else if w == 9 {
            assert(node_targets(c.story_events@, c.nodes@[3])[1] == c.nodes@[9].id@);
        }
    }
    lemma_ranked_edges_acyclic(c, rank);
    assert forall|v: int| 0 <= v < 10 implies #[trigger] story_reaches(c, start_position(c), v) && !story_cycle(c, v) by {
        lemma_parents_reach(c, 0, rank, parent, v);
    }
}

impl AuthoredContent {
    /// The small railway-dispatch demonstration.
    pub fn demo() -> (content: Self)
        ensures
            is_demo_content(content),
            content_valid(content),
            graph_sound(content),
    {
        let content = AuthoredContent {
            subscribers: vec![
                subscriber("taren_kesh", "Taren Kesh"),
                subscriber("vira_dhal", "Vira Dhal"),
                subscriber("leyla_varan", "Leyla Varan"),
                subscriber("oren_vey", "Oren Vey"),
            ],
            line_listings: vec![
                listing("railway_dispatch_office", 0, one_text("taren_kesh")),
                listing("factory_records_office", 1, one_text("vira_dhal")),
                listing("clinic", 2, one_text("leyla_varan")),
                listing("border_post", 3, one_text("oren_vey")),
            ],
            call_premises: vec![
                premise("dispatch_request", "taren_kesh", "vira_dhal", "railway_dispatch_office", "factory_records_office", vec![1u16, 2u16]),
                premise("competing_service_request", "leyla_varan", "oren_vey", "clinic", "border_post", vec![2u16]),
            ],
            story_beats: vec![story_beat("railway_dispatch", "dispatch_request")],
            story_events: vec![
                single_outcome_event("routing_success", "success", "service_gate"),
                single_outcome_event("routing_missed", "missed", "ending_missed"),
                single_outcome_event("routing_invalid", "invalid", "ending_invalid"),
            ],
            endings: vec![
                ending("successful_dispatch", "The railway receives the dispatch in time."),
                ending("missed_dispatch", "The waiting dispatch expires unanswered."),
                ending("invalid_dispatch", "The exchange records an invalid routing."),
                ending("service_error_dispatch", "The railway receives the dispatch, but the exchange records a service error."),
            ],
            nodes: vec![
                run_start("run_start", "shift_call"),
                shift_call_node("shift_call", "railway_dispatch", "event_success", "event_missed", "event_invalid"),
                story_event_node("event_success", "routing_success", "success"),
                conditional_node("service_gate", 0, "ending_success", "ending_service_error"),
                story_event_node("event_missed", "routing_missed", "missed"),
                story_event_node("event_invalid", "routing_invalid", "invalid"),
                ending_node("ending_success", "successful_dispatch"),
                ending_node("ending_missed", "missed_dispatch"),
                ending_node("ending_invalid", "invalid_dispatch"),
                ending_node("ending_service_error", "service_error_dispatch"),
            ],
            start_node_id: text("run_start"),
        };
        assert(content.call_premises@[0].directory_ids@ =~= seq![1u16, 2u16]);
        assert(content.call_premises@[1].directory_ids@ =~= seq![2u16]);
        proof { lemma_demo_compiles(content); }
        assert(keys_of(content.subscribers@) =~= seq!["taren_kesh"@, "vira_dhal"@, "leyla_varan"@, "oren_vey"@]);
        assert(names_of(content.subscribers@) =~= seq!["Taren Kesh"@, "Vira Dhal"@, "Leyla Varan"@, "Oren Vey"@]);
        assert(keys_of(content.line_listings@) =~= seq!["railway_dispatch_office"@, "factory_records_office"@, "clinic"@, "border_post"@]);
        assert(keys_of(content.call_premises@) =~= seq!["dispatch_request"@, "competing_service_request"@]);
        assert(keys_of(content.story_beats@) =~= seq!["railway_dispatch"@]);
        assert(keys_of(content.story_events@) =~= seq!["routing_success"@, "routing_missed"@, "routing_invalid"@]);
        assert(keys_of(content.endings@) =~= seq!["successful_dispatch"@, "missed_dispatch"@, "invalid_dispatch"@, "service_error_dispatch"@]);
        assert(keys_of(content.nodes@) =~= seq!["run_start"@, "shift_call"@, "event_success"@, "service_gate"@,
                "event_missed"@, "event_invalid"@, "ending_success"@, "ending_missed"@, "ending_invalid"@,
                "ending_service_error"@]);
        content
    }
}

/// The subscriber lists of `listings` with `from` renamed to `to`.
fn rename_in_listings(listings: Vec<LineListing>, from: &str, to: &str) -> (renamed: Vec<LineListing>)
    ensures
        renamed@.len() == listings@.len(),
        forall|i: int| 0 <= i < listings@.len() ==> (#[trigger] renamed@[i]).id@ == listings@[i].id@
            && renamed@[i].line == listings@[i].line
            && texts(renamed@[i].subscriber_ids@) == renamed_ids(texts(listings@[i].subscriber_ids@), from@, to@),
{
    let mut renamed: Vec<LineListing> = Vec::new();
    let mut i: usize = 0;
    while i < listings.len()
        invariant
            i <= listings@.len(),
            renamed@.len() == i,
            forall|m: int| 0 <= m < i ==> (#[trigger] renamed@[m]).id@ == listings@[m].id@
                && renamed@[m].line == listings@[m].line
                && texts(renamed@[m].subscriber_ids@) == renamed_ids(texts(listings@[m].subscriber_ids@), from@, to@),
        decreases listings@.len() - i,
    {
        let old_ids = &listings[i].subscriber_ids;
        let mut ids: Vec<String> = Vec::new();
        let mut k: usize = 0;
        while k < old_ids.len()
            invariant
                k <= old_ids@.len(),
                texts(ids@) == renamed_ids(texts(old_ids@.subrange(0, k as int)), from@, to@),
            decreases old_ids@.len() - k,
        {
            let next = if same_text(old_ids[k].as_str(), from) { text(to) } else { copy_text(&old_ids[k]) };
            let ghost before = texts(ids@);
            ids.push(next);
            proof {
                let prefix = texts(old_ids@.subrange(0, k as int));
                assert(texts(old_ids@.subrange(0, k + 1)) =~= prefix.push(old_ids@[k as int]@));
                assert(renamed_ids(prefix.push(old_ids@[k as int]@), from@, to@)
                    =~= renamed_ids(prefix, from@, to@).push(if old_ids@[k as int]@ == from@ { to@ } else { old_ids@[k as int]@ }));
                assert(texts(ids@) =~= before.push(next@));
            }
            k = k + 1;
        }
        assert(old_ids@.subrange(0, old_ids@.len() as int) =~= old_ids@);
        renamed.push(LineListing { id: copy_text(&listings[i].id), line: listings[i].line, subscriber_ids: ids });
        i = i + 1;
    }
    renamed
}

/// The four-shift demonstration, record by record.
pub open spec fn is_four_shift_demo_content(c: AuthoredContent) -> bool {
    &&& c.subscribers@.len() == 5
    &&& subscriber_is(c.subscribers@[0], "taren_kesh"@, "Taren Kesh"@)
    &&& subscriber_is(c.subscribers@[1], "vira_dhal"@, "Vira Dhal"@)
    &&& subscriber_is(c.subscribers@[2], "leya_varan"@, "Dr. Leya Varan"@)
    &&& subscriber_is(c.subscribers@[3], "oren_vey"@, "Captain Oren Vey"@)
    &&& subscriber_is(c.subscribers@[4], "neri_tal"@, "Neri Tal"@)
    &&& c.line_listings@.len() == 5
    &&& listing_is(c.line_listings@[0], "railway_dispatch_office"@, 0, seq!["taren_kesh"@])
    &&& listing_is(c.line_listings@[1], "factory_records_office"@, 1, seq!["vira_dhal"@])
    &&& listing_is(c.line_listings@[2], "clinic"@, 2, seq!["leya_varan"@])
    &&& listing_is(c.line_listings@[3], "border_post"@, 3, seq!["oren_vey"@])
    &&& listing_is(c.line_listings@[4], "signal_box"@, 4, seq!["neri_tal"@])
    &&& c.call_premises@.len() == 6
    &&& premise_is(c.call_premises@[0], "relief_train_request"@, "taren_kesh"@, "vira_dhal"@, "railway_dispatch_office"@, "factory_records_office"@, seq![1u16, 2u16])
    &&& premise_is(c.call_premises@[1], "parent_collapse_request"@, "leya_varan"@, "oren_vey"@, "clinic"@, "border_post"@, seq![4u16])
    &&& premise_is(c.call_premises@[2], "signal_intercept_request"@, "neri_tal"@, "vira_dhal"@, "signal_box"@, "factory_records_office"@, seq![2u16])
    &&& premise_is(c.call_premises@[3], "factory_response_request"@, "vira_dhal"@, "taren_kesh"@, "factory_records_office"@, "railway_dispatch_office"@, seq![1u16])
    &&& premise_is(c.call_premises@[4], "final_taren_request"@, "taren_kesh"@, "vira_dhal"@, "railway_dispatch_office"@, "factory_records_office"@, seq![2u16])
    &&& premise_is(c.call_premises@[5], "final_oren_request"@, "oren_vey"@, "vira_dhal"@, "border_post"@, "factory_records_office"@, seq![4u16])
    &&& c.story_beats@.len() == 5
    &&& beat_is(c.story_beats@[0], "relief_train_7"@, "relief_train_request"@)
    &&& beat_is(c.story_beats@[1], "parent_collapse"@, "parent_collapse_request"@)
    &&& beat_is(c.story_beats@[2], "intercepted_signal"@, "signal_intercept_request"@)
    &&& beat_is(c.story_beats@[3], "final_taren_routing"@, "final_taren_request"@)
    &&& beat_is(c.story_beats@[4], "final_oren_routing"@, "final_oren_request"@)
    &&& c.story_events@.len() == 16
    &&& event_is(c.story_events@[0], "relief_train_success"@, seq![("default"@, "shift_2_call"@)])
    &&& event_is(c.story_events@[1], "relief_train_missed"@, seq![("default"@, "shift_2_call"@)])
    &&& event_is(c.story_events@[2], "relief_train_invalid"@, seq![("default"@, "shift_2_call"@)])
    &&& event_is(c.story_events@[3], "parent_collapse_success"@, seq![("default"@, "shift_3_call"@)])
    &&& event_is(c.story_events@[4], "parent_collapse_missed"@, seq![("default"@, "shift_3_call"@)])
    &&& event_is(c.story_events@[5], "parent_collapse_invalid"@, seq![("default"@, "shift_3_call"@)])
    &&& event_is(c.story_events@[6], "intercepted_signal_success"@, seq![("default"@, "final_choice"@)])
    &&& event_is(c.story_events@[7], "intercepted_signal_missed"@, seq![("default"@, "final_choice"@)])
    &&& event_is(c.story_events@[8], "intercepted_signal_invalid"@, seq![("default"@, "final_choice"@)])
    &&& event_is(c.story_events@[9], "final_choice_event"@, seq![("taren"@, "final_taren_call"@), ("oren"@, "final_oren_call"@), ("standoff"@, "ending_civil_war"@)])
    &&& event_is(c.story_events@[10], "final_taren_success"@, seq![("default"@, "final_taren_gate"@)])
    &&& event_is(c.story_events@[11], "final_taren_missed"@, seq![("default"@, "ending_civil_war"@)])
    &&& event_is(c.story_events@[12], "final_taren_invalid"@, seq![("default"@, "ending_civil_war"@)])
    &&& event_is(c.story_events@[13], "final_oren_success"@, seq![("default"@, "final_oren_gate"@)])
    &&& event_is(c.story_events@[14], "final_oren_missed"@, seq![("default"@, "ending_civil_war"@)])
    &&& event_is(c.story_events@[15], "final_oren_invalid"@, seq![("default"@, "ending_civil_war"@)])
    &&& c.endings@.len() == 3
    &&& ending_is(c.endings@[0], "trade_detente"@, "Trade Détente: Relief Train 7 crosses the Partition and the exchange keeps the corridor open."@)
    &&& ending_is(c.endings@[1], "managed_emergency_rule"@, "Managed Emergency Rule: the emergency holds, but the Ministry keeps the exchange under emergency control."@)
    &&& ending_is(c.endings@[2], "renewed_civil_war"@, "Renewed Civil War: the final exchange fails and the border stations return to open conflict."@)
    &&& c.nodes@.len() == 27
    &&& run_start_is(c.nodes@[0], "run_start"@, "shift_1_call"@)
    &&& shift_call_is(c.nodes@[1], "shift_1_call"@, "relief_train_7"@, "relief_train_success_event"@, "relief_train_missed_event"@, "relief_train_invalid_event"@)
    &&& event_node_is(c.nodes@[2], "relief_train_success_event"@, "relief_train_success"@, "default"@)
    &&& event_node_is(c.nodes@[3], "relief_train_missed_event"@, "relief_train_missed"@, "default"@)
    &&& event_node_is(c.nodes@[4], "relief_train_invalid_event"@, "relief_train_invalid"@, "default"@)
    &&& shift_call_is(c.nodes@[5], "shift_2_call"@, "parent_collapse"@, "parent_collapse_success_event"@, "parent_collapse_missed_event"@, "parent_collapse_invalid_event"@)
    &&& event_node_is(c.nodes@[6], "parent_collapse_success_event"@, "parent_collapse_success"@, "default"@)
    &&& event_node_is(c.nodes@[7], "parent_collapse_missed_event"@, "parent_collapse_missed"@, "default"@)
    &&& event_node_is(c.nodes@[8], "parent_collapse_invalid_event"@, "parent_collapse_invalid"@, "default"@)
    &&& shift_call_is(c.nodes@[9], "shift_3_call"@, "intercepted_signal"@, "intercepted_signal_success_event"@, "intercepted_signal_missed_event"@, "intercepted_signal_invalid_event"@)
    &&& event_node_is(c.nodes@[10], "intercepted_signal_success_event"@, "intercepted_signal_success"@, "default"@)
    &&& event_node_is(c.nodes@[11], "intercepted_signal_missed_event"@, "intercepted_signal_missed"@, "default"@)
    &&& event_node_is(c.nodes@[12], "intercepted_signal_invalid_event"@, "intercepted_signal_invalid"@, "default"@)
    &&& event_node_is(c.nodes@[13], "final_choice"@, "final_choice_event"@, "taren"@)
    &&& shift_call_is(c.nodes@[14], "final_taren_call"@, "final_taren_routing"@, "final_taren_success_event"@, "final_taren_missed_event"@, "final_taren_invalid_event"@)
    &&& event_node_is(c.nodes@[15], "final_taren_success_event"@, "final_taren_success"@, "default"@)
    &&& event_node_is(c.nodes@[16], "final_taren_missed_event"@, "final_taren_missed"@, "default"@)
    &&& event_node_is(c.nodes@[17], "final_taren_invalid_event"@, "final_taren_invalid"@, "default"@)
    &&& conditional_is(c.nodes@[18], "final_taren_gate"@, 0, "ending_trade_detente"@, "ending_managed_emergency_rule"@)
    &&& shift_call_is(c.nodes@[19], "final_oren_call"@, "final_oren_routing"@, "final_oren_success_event"@, "final_oren_missed_event"@, "final_oren_invalid_event"@)
    &&& event_node_is(c.nodes@[20], "final_oren_success_event"@, "final_oren_success"@, "default"@)
    &&& event_node_is(c.nodes@[21], "final_oren_missed_event"@, "final_oren_missed"@, "default"@)
    &&& event_node_is(c.nodes@[22], "final_oren_invalid_event"@, "final_oren_invalid"@, "default"@)
    &&& conditional_is(c.nodes@[23], "final_oren_gate"@, 0, "ending_managed_emergency_rule"@, "ending_civil_war"@)
    &&& ending_node_is(c.nodes@[24], "ending_trade_detente"@, "trade_detente"@)
    &&& ending_node_is(c.nodes@[25], "ending_managed_emergency_rule"@, "managed_emergency_rule"@)
    &&& ending_node_is(c.nodes@[26], "ending_civil_war"@, "renewed_civil_war"@)
    &&& c.start_node_id@ == "run_start"@
}

/// The four shift demo content passes validation and its graph is sound.
#[verifier::rlimit(80)]
#[verifier::spinoff_prover]
proof fn lemma_four_shift_demo_compiles(c: AuthoredContent)
    requires
        is_four_shift_demo_content(c),
    ensures
        content_valid(c),
        graph_sound(c),
{
    reveal_strlit("Captain Oren Vey");
    reveal_strlit("Dr. Leya Varan");
    reveal_strlit("Managed Emergency Rule: the emergency holds, but the Ministry keeps the exchange under emergency control.");
    reveal_strlit("Neri Tal");
    reveal_strlit("Renewed Civil War: the final exchange fails and the border stations return to open conflict.");
    reveal_strlit("Taren Kesh");
    reveal_strlit("Trade Détente: Relief Train 7 crosses the Partition and the exchange keeps the corridor open.");
    reveal_strlit("Vira Dhal");
    reveal_strlit("border_post");
    reveal_strlit("clinic");
    reveal_strlit("default");
    reveal_strlit("ending_civil_war");
    reveal_strlit("ending_managed_emergency_rule");
    reveal_strlit("ending_trade_detente");
    reveal_strlit("factory_records_office");
    reveal_strlit("factory_response_request");
    reveal_strlit("final_choice");
    reveal_strlit("final_choice_event");
    reveal_strlit("final_oren_call");
    reveal_strlit("final_oren_gate");
    reveal_strlit("final_oren_invalid");
    reveal_strlit("final_oren_invalid_event");
    reveal_strlit("final_oren_missed");
    reveal_strlit("final_oren_missed_event");
    reveal_strlit("final_oren_request");
    reveal_strlit("final_oren_routing");
    reveal_strlit("final_oren_success");
    reveal_strlit("final_oren_success_event");
    reveal_strlit("final_taren_call");
    reveal_strlit("final_taren_gate");
    reveal_strlit("final_taren_invalid");
    reveal_strlit("final_taren_invalid_event");
    reveal_strlit("final_taren_missed");
    reveal_strlit("final_taren_missed_event");
    reveal_strlit("final_taren_request");
    reveal_strlit("final_taren_routing");
    reveal_strlit("final_taren_success");
    reveal_strlit("final_taren_success_event");
    reveal_strlit("intercepted_signal");
    reveal_strlit("intercepted_signal_invalid");
    reveal_strlit("intercepted_signal_invalid_event");
    reveal_strlit("intercepted_signal_missed");
    reveal_strlit("intercepted_signal_missed_event");
    reveal_strlit("intercepted_signal_success");
    reveal_strlit("intercepted_signal_success_event");
    reveal_strlit("leya_varan");
    reveal_strlit("managed_emergency_rule");
    reveal_strlit("neri_tal");
    reveal_strlit("oren");
    reveal_strlit("oren_vey");
    reveal_strlit("parent_collapse");
    reveal_strlit("parent_collapse_invalid");
    reveal_strlit("parent_collapse_invalid_event");
    reveal_strlit("parent_collapse_missed");
    reveal_strlit("parent_collapse_missed_event");
    reveal_strlit("parent_collapse_request");
    reveal_strlit("parent_collapse_success");
    reveal_strlit("parent_collapse_success_event");
    reveal_strlit("railway_dispatch_office");
    reveal_strlit("relief_train_7");
    reveal_strlit("relief_train_invalid");
    reveal_strlit("relief_train_invalid_event");
    reveal_strlit("relief_train_missed");
    reveal_strlit("relief_train_missed_event");
    reveal_strlit("relief_train_request");
    reveal_strlit("relief_train_success");
    reveal_strlit("relief_train_success_event");
    reveal_strlit("renewed_civil_war");
    reveal_strlit("run_start");
    reveal_strlit("shift_1_call");
    reveal_strlit("shift_2_call");
    reveal_strlit("shift_3_call");
    reveal_strlit("signal_box");
    reveal_strlit("signal_intercept_request");
    reveal_strlit("standoff");
    reveal_strlit("taren");
    reveal_strlit("taren_kesh");
    reveal_strlit("trade_detente");
    reveal_strlit("vira_dhal");
    assert(ids_ok(c.subscribers@)) by {
        assert forall|i: int| 0 <= i < 5 implies !is_blank((#[trigger] c.subscribers@[i]).key()) by {
            if i == 0 {
                assert(!is_white_space(c.subscribers@[0].key()[0]));
            } else if i == 1 {
                assert(!is_white_space(c.subscribers@[1].key()[0]));
            } else if i == 2 {
                assert(!is_white_space(c.subscribers@[2].key()[0]));
            } else if i == 3 {
                assert(!is_white_space(c.subscribers@[3].key()[0]));
            } else if i == 4 {
                assert(!is_white_space(c.subscribers@[4].key()[0]));
            }
        }
        assert forall|i: int, j: int| 0 <= i < j < 5 implies (#[trigger] c.subscribers@[i]).key() != (#[trigger] c.subscribers@[j]).key() by {
            if i == 0 && j == 1 {
                assert(c.subscribers@[0].key().len() != c.subscribers@[1].key().len());
            } else if i == 0 && j == 2 {
                assert(c.subscribers@[0].key()[0] != c.subscribers@[2].key()[0]);
            } else if i == 0 && j == 3 {
                assert(c.subscribers@[0].key().len() != c.subscribers@[3].key().len());
            } else if i == 0 && j == 4 {
                assert(c.subscribers@[0].key().len() != c.subscribers@[4].key().len());
            } else if i == 1 && j == 2 {
                assert(c.subscribers@[1].key().len() != c.subscribers@[2].key().len());
            } else if i == 1 && j == 3 {
                assert(c.subscribers@[1].key().len() != c.subscribers@[3].key().len());
            } else if i == 1 && j == 4 {
                assert(c.subscribers@[1].key().len() != c.subscribers@[4].key().len());
            } else if i == 2 && j == 3 {
                assert(c.subscribers@[2].key().len() != c.subscribers@[3].key().len());
            } else if i == 2 && j == 4 {
                assert(c.subscribers@[2].key().len() != c.subscribers@[4].key().len());
            } else if i == 3 && j == 4 {
                assert(c.subscribers@[3].key()[0] != c.subscribers@[4].key()[0]);
            }
        }
    }
    assert(ids_ok(c.line_listings@)) by {
        assert forall|i: int| 0 <= i < 5 implies !is_blank((#[trigger] c.line_listings@[i]).key()) by {
            if i == 0 {
                assert(!is_white_space(c.line_listings@[0].key()[0]));
            } else if i == 1 {
                assert(!is_white_space(c.line_listings@[1].key()[0]));
            } else if i == 2 {
                assert(!is_white_space(c.line_listings@[2].key()[0]));
            } else if i == 3 {
                assert(!is_white_space(c.line_listings@[3].key()[0]));
            } else if i == 4 {
                assert(!is_white_space(c.line_listings@[4].key()[0]));
            }
        }
        assert forall|i: int, j: int| 0 <= i < j < 5 implies (#[trigger] c.line_listings@[i]).key() != (#[trigger] c.line_listings@[j]).key() by {
            if i == 0 && j == 1 {
                assert(c.line_listings@[0].key().len() != c.line_listings@[1].key().len());
            } else if i == 0 && j == 2 {
                assert(c.line_listings@[0].key().len() != c.line_listings@[2].key().len());
            } else if i == 0 && j == 3 {
                assert(c.line_listings@[0].key().len() != c.line_listings@[3].key().len());
            } else if i == 0 && j == 4 {
                assert(c.line_listings@[0].key().len() != c.line_listings@[4].key().len());
            } else if i == 1 && j == 2 {
                assert(c.line_listings@[1].key().len() != c.line_listings@[2].key().len());
            } else if i == 1 && j == 3 {
                assert(c.line_listings@[1].key().len() != c.line_listings@[3].key().len());
            } else if i == 1 && j == 4 {
                assert(c.line_listings@[1].key().len() != c.line_listings@[4].key().len());
            } else if i == 2 && j == 3 {
                assert(c.line_listings@[2].key().len() != c.line_listings@[3].key().len());
            } else if i == 2 && j == 4 {
                assert(c.line_listings@[2].key().len() != c.line_listings@[4].key().len());
            } else if i == 3 && j == 4 {
                assert(c.line_listings@[3].key().len() != c.line_listings@[4].key().len());
            }
        }
    }
    assert(ids_ok(c.call_premises@)) by {
        assert forall|i: int| 0 <= i < 6 implies !is_blank((#[trigger] c.call_premises@[i]).key()) by {
            if i == 0 {
                assert(!is_white_space(c.call_premises@[0].key()[0]));
            } else if i == 1 {
                assert(!is_white_space(c.call_premises@[1].key()[0]));
            } else if i == 2 {
                assert(!is_white_space(c.call_premises@[2].key()[0]));
            } else if i == 3 {
                assert(!is_white_space(c.call_premises@[3].key()[0]));
            } else if i == 4 {
                assert(!is_white_space(c.call_premises@[4].key()[0]));
            } else if i == 5 {
                assert(!is_white_space(c.call_premises@[5].key()[0]));
            }
        }
        assert forall|i: int, j: int| 0 <= i < j < 6 implies (#[trigger] c.call_premises@[i]).key() != (#[trigger] c.call_premises@[j]).key() by {
            if i == 0 && j == 1 {
                assert(c.call_premises@[0].key().len() != c.call_premises@[1].key().len());
            } else if i == 0 && j == 2 {
                assert(c.call_premises@[0].key().len() != c.call_premises@[2].key().len());
            } else if i == 0 && j == 3 {
                assert(c.call_premises@[0].key().len() != c.call_premises@[3].key().len());
            } else if i == 0 && j == 4 {
                assert(c.call_premises@[0].key().len() != c.call_premises@[4].key().len());
            } else if i == 0 && j == 5 {
                assert(c.call_premises@[0].key().len() != c.call_premises@[5].key().len());
            } else if i == 1 && j == 2 {
                assert(c.call_premises@[1].key().len() != c.call_premises@[2].key().len());
            } else if i == 1 && j == 3 {
                assert(c.call_premises@[1].key().len() != c.call_premises@[3].key().len());
            } else if i == 1 && j == 4 {
                assert(c.call_premises@[1].key().len() != c.call_premises@[4].key().len());
            } else if i == 1 && j == 5 {
                assert(c.call_premises@[1].key().len() != c.call_premises@[5].key().len());
            } else if i == 2 && j == 3 {
                assert(c.call_premises@[2].key()[0] != c.call_premises@[3].key()[0]);
            } else if i == 2 && j == 4 {
                assert(c.call_premises@[2].key().len() != c.call_premises@[4].key().len());
            } else if i == 2 && j == 5 {
                assert(c.call_premises@[2].key().len() != c.call_premises@[5].key().len());
            } else if i == 3 && j == 4 {
                assert(c.call_premises@[3].key().len() != c.call_premises@[4].key().len());
            } else if i == 3 && j == 5 {
                assert(c.call_premises@[3].key().len() != c.call_premises@[5].key().len());
            } else if i == 4 && j == 5 {
                assert(c.call_premises@[4].key().len() != c.call_premises@[5].key().len());
            }
        }
    }
    assert(ids_ok(c.story_beats@)) by {
        assert forall|i: int| 0 <= i < 5 implies !is_blank((#[trigger] c.story_beats@[i]).key()) by {
            if i == 0 {
                assert(!is_white_space(c.story_beats@[0].key()[0]));
            } else if i == 1 {
                assert(!is_white_space(c.story_beats@[1].key()[0]));
            } else if i == 2 {
                assert(!is_white_space(c.story_beats@[2].key()[0]));
            } else if i == 3 {
                assert(!is_white_space(c.story_beats@[3].key()[0]));
            } else if i == 4 {
                assert(!is_white_space(c.story_beats@[4].key()[0]));
            }
        }
        assert forall|i: int, j: int| 0 <= i < j < 5 implies (#[trigger] c.story_beats@[i]).key() != (#[trigger] c.story_beats@[j]).key() by {
            if i == 0 && j == 1 {
                assert(c.story_beats@[0].key().len() != c.story_beats@[1].key().len());
            } else if i == 0 && j == 2 {
                assert(c.story_beats@[0].key().len() != c.story_beats@[2].key().len());
            } else if i == 0 && j == 3 {
                assert(c.story_beats@[0].key().len() != c.story_beats@[3].key().len());
            } else if i == 0 && j == 4 {
                assert(c.story_beats@[0].key().len() != c.story_beats@[4].key().len());
            } else if i == 1 && j == 2 {
                assert(c.story_beats@[1].key().len() != c.story_beats@[2].key().len());
            } else if i == 1 && j == 3 {
                assert(c.story_beats@[1].key().len() != c.story_beats@[3].key().len());
            } else if i == 1 && j == 4 {
                assert(c.story_beats@[1].key().len() != c.story_beats@[4].key().len());
            } else if i == 2 && j == 3 {
                assert(c.story_beats@[2].key().len() != c.story_beats@[3].key().len());
            } else if i == 2 && j == 4 {
                assert(c.story_beats@[2].key()[0] != c.story_beats@[4].key()[0]);
            } else if i == 3 && j == 4 {
                assert(c.story_beats@[3].key().len() != c.story_beats@[4].key().len());
            }
        }
    }
    assert(ids_ok(c.story_events@)) by {
        assert forall|i: int| 0 <= i < 16 implies !is_blank((#[trigger] c.story_events@[i]).key()) by {
            if i == 0 {
                assert(!is_white_space(c.story_events@[0].key()[0]));
            } else if i == 1 {
                assert(!is_white_space(c.story_events@[1].key()[0]));
            } else if i == 2 {
                assert(!is_white_space(c.story_events@[2].key()[0]));
            } else if i == 3 {
                assert(!is_white_space(c.story_events@[3].key()[0]));
            } else if i == 4 {
                assert(!is_white_space(c.story_events@[4].key()[0]));
            } else if i == 5 {
                assert(!is_white_space(c.story_events@[5].key()[0]));
            } else if i == 6 {
                assert(!is_white_space(c.story_events@[6].key()[0]));
            } else if i == 7 {
                assert(!is_white_space(c.story_events@[7].key()[0]));
            } else if i == 8 {
                assert(!is_white_space(c.story_events@[8].key()[0]));
            } else if i == 9 {
                assert(!is_white_space(c.story_events@[9].key()[0]));
            } else if i == 10 {
                assert(!is_white_space(c.story_events@[10].key()[0]));
            } else if i == 11 {
                assert(!is_white_space(c.story_events@[11].key()[0]));
            } else if i == 12 {
                assert(!is_white_space(c.story_events@[12].key()[0]));
            } else if i == 13 {
                assert(!is_white_space(c.story_events@[13].key()[0]));
            } else if i == 14 {
                assert(!is_white_space(c.story_events@[14].key()[0]));
            } else if i == 15 {
                assert(!is_white_space(c.story_events@[15].key()[0]));
            }
        }
        assert forall|i: int, j: int| 0 <= i < j < 16 implies (#[trigger] c.story_events@[i]).key() != (#[trigger] c.story_events@[j]).key() by {
            if i == 0 && j == 1 {
                assert(c.story_events@[0].key().len() != c.story_events@[1].key().len());
            } else if i == 0 && j == 2 {
                assert(c.story_events@[0].key()[13] != c.story_events@[2].key()[13]);
            } else if i == 0 && j == 3 {
                assert(c.story_events@[0].key().len() != c.story_events@[3].key().len());
            } else if i == 0 && j == 4 {
                assert(c.story_events@[0].key().len() != c.story_events@[4].key().len());
            } else if i == 0 && j == 5 {
                assert(c.story_events@[0].key().len() != c.story_events@[5].key().len());
            } else if i == 0 && j == 6 {
                assert(c.story_events@[0].key().len() != c.story_events@[6].key().len());
            } else if i == 0 && j == 7 {
                assert(c.story_events@[0].key().len() != c.story_events@[7].key().len());
            } else if i == 0 && j == 8 {
                assert(c.story_events@[0].key().len() != c.story_events@[8].key().len());
            } else if i == 0 && j == 9 {
                assert(c.story_events@[0].key().len() != c.story_events@[9].key().len());
            } else if i == 0 && j == 10 {
                assert(c.story_events@[0].key().len() != c.story_events@[10].key().len());
            } else if i == 0 && j == 11 {
                assert(c.story_events@[0].key().len() != c.story_events@[11].key().len());
            } else if i == 0 && j == 12 {
                assert(c.story_events@[0].key().len() != c.story_events@[12].key().len());
            } else if i == 0 && j == 13 {
                assert(c.story_events@[0].key().len() != c.story_events@[13].key().len());
            } else if i == 0 && j == 14 {
                assert(c.story_events@[0].key().len() != c.story_events@[14].key().len());
            } else if i == 0 && j == 15 {
                assert(c.story_events@[0].key().len() != c.story_events@[15].key().len());
            } else if i == 1 && j == 2 {
                assert(c.story_events@[1].key().len() != c.story_events@[2].key().len());
            } else if i == 1 && j == 3 {
                assert(c.story_events@[1].key().len() != c.story_events@[3].key().len());
            } else if i == 1 && j == 4 {
                assert(c.story_events@[1].key().len() != c.story_events@[4].key().len());
            } else if i == 1 && j == 5 {
                assert(c.story_events@[1].key().len() != c.story_events@[5].key().len());
            } else if i == 1 && j == 6 {
                assert(c.story_events@[1].key().len() != c.story_events@[6].key().len());
            } else if i == 1 && j == 7 {
                assert(c.story_events@[1].key().len() != c.story_events@[7].key().len());
            } else if i == 1 && j == 8 {
                assert(c.story_events@[1].key().len() != c.story_events@[8].key().len());
            } else if i == 1 && j == 9 {
                assert(c.story_events@[1].key().len() != c.story_events@[9].key().len());
            } else if i == 1 && j == 10 {
                assert(c.story_events@[1].key()[0] != c.story_events@[10].key()[0]);
            } else if i == 1 && j == 11 {
                assert(c.story_events@[1].key().len() != c.story_events@[11].key().len());
            } else if i == 1 && j == 12 {
                assert(c.story_events@[1].key()[0] != c.story_events@[12].key()[0]);
            } else if i == 1 && j == 13 {
                assert(c.story_events@[1].key().len() != c.story_events@[13].key().len());
            } else if i == 1 && j == 14 {
                assert(c.story_events@[1].key().len() != c.story_events@[14].key().len());
            } else if i == 1 && j == 15 {
                assert(c.story_events@[1].key().len() != c.story_events@[15].key().len());
            } else if i == 2 && j == 3 {
                assert(c.story_events@[2].key().len() != c.story_events@[3].key().len());
            } else if i == 2 && j == 4 {
                assert(c.story_events@[2].key().len() != c.story_events@[4].key().len());
            } else if i == 2 && j == 5 {
                assert(c.story_events@[2].key().len() != c.story_events@[5].key().len());
            } else if i == 2 && j == 6 {
                assert(c.story_events@[2].key().len() != c.story_events@[6].key().len());
            } else if i == 2 && j == 7 {
                assert(c.story_events@[2].key().len() != c.story_events@[7].key().len());
            } else if i == 2 && j == 8 {
                assert(c.story_events@[2].key().len() != c.story_events@[8].key().len());
            } else if i == 2 && j == 9 {
                assert(c.story_events@[2].key().len() != c.story_events@[9].key().len());
            } else if i == 2 && j == 10 {
                assert(c.story_events@[2].key().len() != c.story_events@[10].key().len());
            } else if i == 2 && j == 11 {
                assert(c.story_events@[2].key().len() != c.story_events@[11].key().len());
            } else if i == 2 && j == 12 {
                assert(c.story_events@[2].key().len() != c.story_events@[12].key().len());
            } else if i == 2 && j == 13 {
                assert(c.story_events@[2].key().len() != c.story_events@[13].key().len());
            } else if i == 2 && j == 14 {
                assert(c.story_events@[2].key().len() != c.story_events@[14].key().len());
            } else if i == 2 && j == 15 {
                assert(c.story_events@[2].key().len() != c.story_events@[15].key().len());
            } else if i == 3 && j == 4 {
                assert(c.story_events@[3].key().len() != c.story_events@[4].key().len());
            } else if i == 3 && j == 5 {
                assert(c.story_events@[3].key()[16] != c.story_events@[5].key()[16]);
            } else if i == 3 && j == 6 {
                assert(c.story_events@[3].key().len() != c.story_events@[6].key().len());
            } else if i == 3 && j == 7 {
                assert(c.story_events@[3].key().len() != c.story_events@[7].key().len());
            } else if i == 3 && j == 8 {
                assert(c.story_events@[3].key().len() != c.story_events@[8].key().len());
            } else if i == 3 && j == 9 {
                assert(c.story_events@[3].key().len() != c.story_events@[9].key().len());
            } else if i == 3 && j == 10 {
                assert(c.story_events@[3].key().len() != c.story_events@[10].key().len());
            } else if i == 3 && j == 11 {
                assert(c.story_events@[3].key().len() != c.story_events@[11].key().len());
            } else if i == 3 && j == 12 {
                assert(c.story_events@[3].key().len() != c.story_events@[12].key().len());
            } else if i == 3 && j == 13 {
                assert(c.story_events@[3].key().len() != c.story_events@[13].key().len());
            } else if i == 3 && j == 14 {
                assert(c.story_events@[3].key().len() != c.story_events@[14].key().len());
            } else if i == 3 && j == 15 {
                assert(c.story_events@[3].key().len() != c.story_events@[15].key().len());
            } else if i == 4 && j == 5 {
                assert(c.story_events@[4].key().len() != c.story_events@[5].key().len());
            } else if i == 4 && j == 6 {
                assert(c.story_events@[4].key().len() != c.story_events@[6].key().len());
            } else if i == 4 && j == 7 {
                assert(c.story_events@[4].key().len() != c.story_events@[7].key().len());
            } else if i == 4 && j == 8 {
                assert(c.story_events@[4].key().len() != c.story_events@[8].key().len());
            } else if i == 4 && j == 9 {
                assert(c.story_events@[4].key().len() != c.story_events@[9].key().len());
            } else if i == 4 && j == 10 {
                assert(c.story_events@[4].key().len() != c.story_events@[10].key().len());
            } else if i == 4 && j == 11 {
                assert(c.story_events@[4].key().len() != c.story_events@[11].key().len());
            } else if i == 4 && j == 12 {
                assert(c.story_events@[4].key().len() != c.story_events@[12].key().len());
            } else if i == 4 && j == 13 {
                assert(c.story_events@[4].key().len() != c.story_events@[13].key().len());
            } else if i == 4 && j == 14 {
                assert(c.story_events@[4].key().len() != c.story_events@[14].key().len());
            } else if i == 4 && j == 15 {
                assert(c.story_events@[4].key().len() != c.story_events@[15].key().len());
            } else if i == 5 && j == 6 {
                assert(c.story_events@[5].key().len() != c.story_events@[6].key().len());
            } else if i == 5 && j == 7 {
                assert(c.story_events@[5].key().len() != c.story_events@[7].key().len());
            } else if i == 5 && j == 8 {
                assert(c.story_events@[5].key().len() != c.story_events@[8].key().len());
            } else if i == 5 && j == 9 {
                assert(c.story_events@[5].key().len() != c.story_events@[9].key().len());
            } else if i == 5 && j == 10 {
                assert(c.story_events@[5].key().len() != c.story_events@[10].key().len());
            } else if i == 5 && j == 11 {
                assert(c.story_events@[5].key().len() != c.story_events@[11].key().len());
            } else if i == 5 && j == 12 {
                assert(c.story_events@[5].key().len() != c.story_events@[12].key().len());
            } else if i == 5 && j == 13 {
                assert(c.story_events@[5].key().len() != c.story_events@[13].key().len());
            } else if i == 5 && j == 14 {
                assert(c.story_events@[5].key().len() != c.story_events@[14].key().len());
            } else if i == 5 && j == 15 {
                assert(c.story_events@[5].key().len() != c.story_events@[15].key().len());
            } else if i == 6 && j == 7 {
                assert(c.story_events@[6].key().len() != c.story_events@[7].key().len());
            } else if i == 6 && j == 8 {
                assert(c.story_events@[6].key()[19] != c.story_events@[8].key()[19]);
            } else if i == 6 && j == 9 {
                assert(c.story_events@[6].key().len() != c.story_events@[9].key().len());
            } else if i == 6 && j == 10 {
                assert(c.story_events@[6].key().len() != c.story_events@[10].key().len());
            } else if i == 6 && j == 11 {
                assert(c.story_events@[6].key().len() != c.story_events@[11].key().len());
            } else if i == 6 && j == 12 {
                assert(c.story_events@[6].key().len() != c.story_events@[12].key().len());
            } else if i == 6 && j == 13 {
                assert(c.story_events@[6].key().len() != c.story_events@[13].key().len());
            } else if i == 6 && j == 14 {
                assert(c.story_events@[6].key().len() != c.story_events@[14].key().len());
            } else if i == 6 && j == 15 {
                assert(c.story_events@[6].key().len() != c.story_events@[15].key().len());
            } else if i == 7 && j == 8 {
                assert(c.story_events@[7].key().len() != c.story_events@[8].key().len());
            } else if i == 7 && j == 9 {
                assert(c.story_events@[7].key().len() != c.story_events@[9].key().len());
            } else if i == 7 && j == 10 {
                assert(c.story_events@[7].key().len() != c.story_events@[10].key().len());
            } else if i == 7 && j == 11 {
                assert(c.story_events@[7].key().len() != c.story_events@[11].key().len());
            } else if i == 7 && j == 12 {
                assert(c.story_events@[7].key().len() != c.story_events@[12].key().len());
            } else if i == 7 && j == 13 {
                assert(c.story_events@[7].key().len() != c.story_events@[13].key().len());
            } else if i == 7 && j == 14 {
                assert(c.story_events@[7].key().len() != c.story_events@[14].key().len());
            } else if i == 7 && j == 15 {
                assert(c.story_events@[7].key().len() != c.story_events@[15].key().len());
            } else if i == 8 && j == 9 {
                assert(c.story_events@[8].key().len() != c.story_events@[9].key().len());
            } else if i == 8 && j == 10 {
                assert(c.story_events@[8].key().len() != c.story_events@[10].key().len());
            } else if i == 8 && j == 11 {
                assert(c.story_events@[8].key().len() != c.story_events@[11].key().len());
            } else if i == 8 && j == 12 {
                assert(c.story_events@[8].key().len() != c.story_events@[12].key().len());
            } else if i == 8 && j == 13 {
                assert(c.story_events@[8].key().len() != c.story_events@[13].key().len());
            } else if i == 8 && j == 14 {
                assert(c.story_events@[8].key().len() != c.story_events@[14].key().len());
            } else if i == 8 && j == 15 {
                assert(c.story_events@[8].key().len() != c.story_events@[15].key().len());
            } else if i == 9 && j == 10 {
                assert(c.story_events@[9].key().len() != c.story_events@[10].key().len());
            } else if i == 9 && j == 11 {
                assert(c.story_events@[9].key()[6] != c.story_events@[11].key()[6]);
            } else if i == 9 && j == 12 {
                assert(c.story_events@[9].key().len() != c.story_events@[12].key().len());
            } else if i == 9 && j == 13 {
                assert(c.story_events@[9].key()[6] != c.story_events@[13].key()[6]);
            } else if i == 9 && j == 14 {
                assert(c.story_events@[9].key().len() != c.story_events@[14].key().len());
            } else if i == 9 && j == 15 {
                assert(c.story_events@[9].key()[6] != c.story_events@[15].key()[6]);
            } else if i == 10 && j == 11 {
                assert(c.story_events@[10].key().len() != c.story_events@[11].key().len());
            } else if i == 10 && j == 12 {
                assert(c.story_events@[10].key()[12] != c.story_events@[12].key()[12]);
            } else if i == 10 && j == 13 {
                assert(c.story_events@[10].key().len() != c.story_events@[13].key().len());
            } else if i == 10 && j == 14 {
                assert(c.story_events@[10].key().len() != c.story_events@[14].key().len());
            } else if i == 10 && j == 15 {
                assert(c.story_events@[10].key().len() != c.story_events@[15].key().len());
            } else if i == 11 && j == 12 {
                assert(c.story_events@[11].key().len() != c.story_events@[12].key().len());
            } else if i == 11 && j == 13 {
                assert(c.story_events@[11].key()[6] != c.story_events@[13].key()[6]);
            } else if i == 11 && j == 14 {
                assert(c.story_events@[11].key().len() != c.story_events@[14].key().len());
            } else if i == 11 && j == 15 {
                assert(c.story_events@[11].key()[6] != c.story_events@[15].key()[6]);
            } else if i == 12 && j == 13 {
                assert(c.story_events@[12].key().len() != c.story_events@[13].key().len());
            } else if i == 12 && j == 14 {
                assert(c.story_events@[12].key().len() != c.story_events@[14].key().len());
            } else if i == 12 && j == 15 {
                assert(c.story_events@[12].key().len() != c.story_events@[15].key().len());
            } else if i == 13 && j == 14 {
                assert(c.story_events@[13].key().len() != c.story_events@[14].key().len());
            } else if i == 13 && j == 15 {
                assert(c.story_events@[13].key()[11] != c.story_events@[15].key()[11]);
            } else if i == 14 && j == 15 {
                assert(c.story_events@[14].key().len() != c.story_events@[15].key().len());
            }
        }
    }
    assert(ids_ok(c.endings@)) by {
        assert forall|i: int| 0 <= i < 3 implies !is_blank((#[trigger] c.endings@[i]).key()) by {
            if i == 0 {
                assert(!is_white_space(c.endings@[0].key()[0]));
            } else if i == 1 {
                assert(!is_white_space(c.endings@[1].key()[0]));
            } else if i == 2 {
                assert(!is_white_space(c.endings@[2].key()[0]));
            }
        }
        assert forall|i: int, j: int| 0 <= i < j < 3 implies (#[trigger] c.endings@[i]).key() != (#[trigger] c.endings@[j]).key() by {
            if i == 0 && j == 1 {
                assert(c.endings@[0].key().len() != c.endings@[1].key().len());
            } else if i == 0 && j == 2 {
                assert(c.endings@[0].key().len() != c.endings@[2].key().len());
            } else if i == 1 && j == 2 {
                assert(c.endings@[1].key().len() != c.endings@[2].key().len());
            }
        }
    }
    assert(ids_ok(c.nodes@)) by {
        assert forall|i: int| 0 <= i < 27 implies !is_blank((#[trigger] c.nodes@[i]).key()) by {
            if i == 0 {
                assert(!is_white_space(c.nodes@[0].key()[0]));
            } else if i == 1 {
                assert(!is_white_space(c.nodes@[1].key()[0]));
            } else if i == 2 {
                assert(!is_white_space(c.nodes@[2].key()[0]));
            } else if i == 3 {
                assert(!is_white_space(c.nodes@[3].key()[0]));
            } else if i == 4 {
                assert(!is_white_space(c.nodes@[4].key()[0]));
            } else if i == 5 {
                assert(!is_white_space(c.nodes@[5].key()[0]));
            } else if i == 6 {
                assert(!is_white_space(c.nodes@[6].key()[0]));
            } else if i == 7 {
                assert(!is_white_space(c.nodes@[7].key()[0]));
            } else if i == 8 {
                assert(!is_white_space(c.nodes@[8].key()[0]));
            } else if i == 9 {
                assert(!is_white_space(c.nodes@[9].key()[0]));
            } else if i == 10 {
                assert(!is_white_space(c.nodes@[10].key()[0]));
            } else if i == 11 {
                assert(!is_white_space(c.nodes@[11].key()[0]));
            } else if i == 12 {
                assert(!is_white_space(c.nodes@[12].key()[0]));
            } else if i == 13 {
                assert(!is_white_space(c.nodes@[13].key()[0]));
            } else if i == 14 {
                assert(!is_white_space(c.nodes@[14].key()[0]));
            } else if i == 15 {
                assert(!is_white_space(c.nodes@[15].key()[0]));
            } else if i == 16 {
                assert(!is_white_space(c.nodes@[16].key()[0]));
            } else if i == 17 {
                assert(!is_white_space(c.nodes@[17].key()[0]));
            } else if i == 18 {
                assert(!is_white_space(c.nodes@[18].key()[0]));
            } else if i == 19 {
                assert(!is_white_space(c.nodes@[19].key()[0]));
            } else if i == 20 {
                assert(!is_white_space(c.nodes@[20].key()[0]));
            } else if i == 21 {
                assert(!is_white_space(c.nodes@[21].key()[0]));
            } else if i == 22 {
                assert(!is_white_space(c.nodes@[22].key()[0]));
            } else if i == 23 {
                assert(!is_white_space(c.nodes@[23].key()[0]));
            } else if i == 24 {
                assert(!is_white_space(c.nodes@[24].key()[0]));
            } else if i == 25 {
                assert(!is_white_space(c.nodes@[25].key()[0]));
            } else if i == 26 {
                assert(!is_white_space(c.nodes@[26].key()[0]));
            }
        }
        assert forall|i: int, j: int| 0 <= i < j < 27 implies (#[trigger] c.nodes@[i]).key() != (#[trigger] c.nodes@[j]).key() by {
            if i == 0 && j == 1 {
                assert(c.nodes@[0].key().len() != c.nodes@[1].key().len());
            } else if i == 0 && j == 2 {
                assert(c.nodes@[0].key().len() != c.nodes@[2].key().len());
            } else if i == 0 && j == 3 {
                assert(c.nodes@[0].key().len() != c.nodes@[3].key().len());
            } else if i == 0 && j == 4 {
                assert(c.nodes@[0].key().len() != c.nodes@[4].key().len());
            } else if i == 0 && j == 5 {
                assert(c.nodes@[0].key().len() != c.nodes@[5].key().len());
            } else if i == 0 && j == 6 {
                assert(c.nodes@[0].key().len() != c.nodes@[6].key().len());
            } else if i == 0 && j == 7 {
                assert(c.nodes@[0].key().len() != c.nodes@[7].key().len());
            } else if i == 0 && j == 8 {
                assert(c.nodes@[0].key().len() != c.nodes@[8].key().len());
            } else if i == 0 && j == 9 {
                assert(c.nodes@[0].key().len() != c.nodes@[9].key().len());
            } else if i == 0 && j == 10 {
                assert(c.nodes@[0].key().len() != c.nodes@[10].key().len());
            } else if i == 0 && j == 11 {
                assert(c.nodes@[0].key().len() != c.nodes@[11].key().len());
            } else if i == 0 && j == 12 {
                assert(c.nodes@[0].key().len() != c.nodes@[12].key().len());
            } else if i == 0 && j == 13 {
                assert(c.nodes@[0].key().len() != c.nodes@[13].key().len());
            } else if i == 0 && j == 14 {
                assert(c.nodes@[0].key().len() != c.nodes@[14].key().len());
            } else if i == 0 && j == 15 {
                assert(c.nodes@[0].key().len() != c.nodes@[15].key().len());
            } else if i == 0 && j == 16 {
                assert(c.nodes@[0].key().len() != c.nodes@[16].key().len());
            } else if i == 0 && j == 17 {
                assert(c.nodes@[0].key().len() != c.nodes@[17].key().len());
            } else if i == 0 && j == 18 {
                assert(c.nodes@[0].key().len() != c.nodes@[18].key().len());
            } else if i == 0 && j == 19 {
                assert(c.nodes@[0].key().len() != c.nodes@[19].key().len());
            } else if i == 0 && j == 20 {
                assert(c.nodes@[0].key().len() != c.nodes@[20].key().len());
            } else if i == 0 && j == 21 {
                assert(c.nodes@[0].key().len() != c.nodes@[21].key().len());
            } else if i == 0 && j == 22 {
                assert(c.nodes@[0].key().len() != c.nodes@[22].key().len());
            } else if i == 0 && j == 23 {
                assert(c.nodes@[0].key().len() != c.nodes@[23].key().len());
            } else if i == 0 && j == 24 {
                assert(c.nodes@[0].key().len() != c.nodes@[24].key().len());
            } else if i == 0 && j == 25 {
                assert(c.nodes@[0].key().len() != c.nodes@[25].key().len());
            } else if i == 0 && j == 26 {
                assert(c.nodes@[0].key().len() != c.nodes@[26].key().len());
            } else if i == 1 && j == 2 {
                assert(c.nodes@[1].key().len() != c.nodes@[2].key().len());
            } else if i == 1 && j == 3 {
                assert(c.nodes@[1].key().len() != c.nodes@[3].key().len());
            } else if i == 1 && j == 4 {
                assert(c.nodes@[1].key().len() != c.nodes@[4].key().len());
            } else if i == 1 && j == 5 {
                assert(c.nodes@[1].key()[6] != c.nodes@[5].key()[6]);
            } else if i == 1 && j == 6 {
                assert(c.nodes@[1].key().len() != c.nodes@[6].key().len());
            } else if i == 1 && j == 7 {
                assert(c.nodes@[1].key().len() != c.nodes@[7].key().len());
            } else if i == 1 && j == 8 {
                assert(c.nodes@[1].key().len() != c.nodes@[8].key().len());
            } else if i == 1 && j == 9 {
                assert(c.nodes@[1].key()[6] != c.nodes@[9].key()[6]);
            } else if i == 1 && j == 10 {
                assert(c.nodes@[1].key().len() != c.nodes@[10].key().len());
            } else if i == 1 && j == 11 {
                assert(c.nodes@[1].key().len() != c.nodes@[11].key().len());
            } else if i == 1 && j == 12 {
                assert(c.nodes@[1].key().len() != c.nodes@[12].key().len());
            } else if i == 1 && j == 13 {
                assert(c.nodes@[1].key()[0] != c.nodes@[13].key()[0]);
            } else if i == 1 && j == 14 {
                assert(c.nodes@[1].key().len() != c.nodes@[14].key().len());
            } else if i == 1 && j == 15 {
                assert(c.nodes@[1].key().len() != c.nodes@[15].key().len());
            } else if i == 1 && j == 16 {
                assert(c.nodes@[1].key().len() != c.nodes@[16].key().len());
            } else if i == 1 && j == 17 {
                assert(c.nodes@[1].key().len() != c.nodes@[17].key().len());
            } else if i == 1 && j == 18 {
                assert(c.nodes@[1].key().len() != c.nodes@[18].key().len());
            } else if i == 1 && j == 19 {
                assert(c.nodes@[1].key().len() != c.nodes@[19].key().len());
            } else if i == 1 && j == 20 {
                assert(c.nodes@[1].key().len() != c.nodes@[20].key().len());
            } else if i == 1 && j == 21 {
                assert(c.nodes@[1].key().len() != c.nodes@[21].key().len());
            } else if i == 1 && j == 22 {
                assert(c.nodes@[1].key().len() != c.nodes@[22].key().len());
            } else if i == 1 && j == 23 {
                assert(c.nodes@[1].key().len() != c.nodes@[23].key().len());
            } else if i == 1 && j == 24 {
                assert(c.nodes@[1].key().len() != c.nodes@[24].key().len());
            } else if i == 1 && j == 25 {
                assert(c.nodes@[1].key().len() != c.nodes@[25].key().len());
            } else if i == 1 && j == 26 {
                assert(c.nodes@[1].key().len() != c.nodes@[26].key().len());
            } else if i == 2 && j == 3 {
                assert(c.nodes@[2].key().len() != c.nodes@[3].key().len());
            } else if i == 2 && j == 4 {
                assert(c.nodes@[2].key()[13] != c.nodes@[4].key()[13]);
            } else if i == 2 && j == 5 {
                assert(c.nodes@[2].key().len() != c.nodes@[5].key().len());
            } else if i == 2 && j == 6 {
                assert(c.nodes@[2].key().len() != c.nodes@[6].key().len());
            } else if i == 2 && j == 7 {
                assert(c.nodes@[2].key().len() != c.nodes@[7].key().len());
            } else if i == 2 && j == 8 {
                assert(c.nodes@[2].key().len() != c.nodes@[8].key().len());
            } else if i == 2 && j == 9 {
                assert(c.nodes@[2].key().len() != c.nodes@[9].key().len());
            } else if i == 2 && j == 10 {
                assert(c.nodes@[2].key().len() != c.nodes@[10].key().len());
            } else if i == 2 && j == 11 {
                assert(c.nodes@[2].key().len() != c.nodes@[11].key().len());
            } else if i == 2 && j == 12 {
                assert(c.nodes@[2].key().len() != c.nodes@[12].key().len());
            } else if i == 2 && j == 13 {
                assert(c.nodes@[2].key().len() != c.nodes@[13].key().len());
            } else if i == 2 && j == 14 {
                assert(c.nodes@[2].key().len() != c.nodes@[14].key().len());
            } else if i == 2 && j == 15 {
                assert(c.nodes@[2].key().len() != c.nodes@[15].key().len());
            } else if i == 2 && j == 16 {
                assert(c.nodes@[2].key().len() != c.nodes@[16].key().len());
            } else if i == 2 && j == 17 {
                assert(c.nodes@[2].key().len() != c.nodes@[17].key().len());
            } else if i == 2 && j == 18 {
                assert(c.nodes@[2].key().len() != c.nodes@[18].key().len());
            } else if i == 2 && j == 19 {
                assert(c.nodes@[2].key().len() != c.nodes@[19].key().len());
            } else if i == 2 && j == 20 {
                assert(c.nodes@[2].key().len() != c.nodes@[20].key().len());
            } else if i == 2 && j == 21 {
                assert(c.nodes@[2].key().len() != c.nodes@[21].key().len());
            } else if i == 2 && j == 22 {
                assert(c.nodes@[2].key().len() != c.nodes@[22].key().len());
            } else if i == 2 && j == 23 {
                assert(c.nodes@[2].key().len() != c.nodes@[23].key().len());
            } else if i == 2 && j == 24 {
                assert(c.nodes@[2].key().len() != c.nodes@[24].key().len());
            } else if i == 2 && j == 25 {
                assert(c.nodes@[2].key().len() != c.nodes@[25].key().len());
            } else if i == 2 && j == 26 {
                assert(c.nodes@[2].key().len() != c.nodes@[26].key().len());
            } else if i == 3 && j == 4 {
                assert(c.nodes@[3].key().len() != c.nodes@[4].key().len());
            } else if i == 3 && j == 5 {
                assert(c.nodes@[3].key().len() != c.nodes@[5].key().len());
            } else if i == 3 && j == 6 {
                assert(c.nodes@[3].key().len() != c.nodes@[6].key().len());
            } else if i == 3 && j == 7 {
                assert(c.nodes@[3].key().len() != c.nodes@[7].key().len());
            } else if i == 3 && j == 8 {
                assert(c.nodes@[3].key().len() != c.nodes@[8].key().len());
            } else if i == 3 && j == 9 {
                assert(c.nodes@[3].key().len() != c.nodes@[9].key().len());
            } else if i == 3 && j == 10 {
                assert(c.nodes@[3].key().len() != c.nodes@[10].key().len());
            } else if i == 3 && j == 11 {
                assert(c.nodes@[3].key().len() != c.nodes@[11].key().len());
            } else if i == 3 && j == 12 {
                assert(c.nodes@[3].key().len() != c.nodes@[12].key().len());
            } else if i == 3 && j == 13 {
                assert(c.nodes@[3].key().len() != c.nodes@[13].key().len());
            } else if i == 3 && j == 14 {
                assert(c.nodes@[3].key().len() != c.nodes@[14].key().len());
            } else if i == 3 && j == 15 {
                assert(c.nodes@[3].key()[0] != c.nodes@[15].key()[0]);
            } else if i == 3 && j == 16 {
                assert(c.nodes@[3].key().len() != c.nodes@[16].key().len());
            } else if i == 3 && j == 17 {
                assert(c.nodes@[3].key()[0] != c.nodes@[17].key()[0]);
            } else if i == 3 && j == 18 {
                assert(c.nodes@[3].key().len() != c.nodes@[18].key().len());
            } else if i == 3 && j == 19 {
                assert(c.nodes@[3].key().len() != c.nodes@[19].key().len());
            } else if i == 3 && j == 20 {
                assert(c.nodes@[3].key().len() != c.nodes@[20].key().len());
            } else if i == 3 && j == 21 {
                assert(c.nodes@[3].key().len() != c.nodes@[21].key().len());
            } else if i == 3 && j == 22 {
                assert(c.nodes@[3].key().len() != c.nodes@[22].key().len());
            } else if i == 3 && j == 23 {
                assert(c.nodes@[3].key().len() != c.nodes@[23].key().len());
            } else if i == 3 && j == 24 {
                assert(c.nodes@[3].key().len() != c.nodes@[24].key().len());
            } else if i == 3 && j == 25 {
                assert(c.nodes@[3].key().len() != c.nodes@[25].key().len());
            } else if i == 3 && j == 26 {
                assert(c.nodes@[3].key().len() != c.nodes@[26].key().len());
            } else if i == 4 && j == 5 {
                assert(c.nodes@[4].key().len() != c.nodes@[5].key().len());
            } else if i == 4 && j == 6 {
                assert(c.nodes@[4].key().len() != c.nodes@[6].key().len());
            } else if i == 4 && j == 7 {
                assert(c.nodes@[4].key().len() != c.nodes@[7].key().len());
            } else if i == 4 && j == 8 {
                assert(c.nodes@[4].key().len() != c.nodes@[8].key().len());
            } else if i == 4 && j == 9 {
                assert(c.nodes@[4].key().len() != c.nodes@[9].key().len());
            } else if i == 4 && j == 10 {
                assert(c.nodes@[4].key().len() != c.nodes@[10].key().len());
            } else if i == 4 && j == 11 {
                assert(c.nodes@[4].key().len() != c.nodes@[11].key().len());
            } else if i == 4 && j == 12 {
                assert(c.nodes@[4].key().len() != c.nodes@[12].key().len());
            } else if i == 4 && j == 13 {
                assert(c.nodes@[4].key().len() != c.nodes@[13].key().len());
            } else if i == 4 && j == 14 {
                assert(c.nodes@[4].key().len() != c.nodes@[14].key().len());
            } else if i == 4 && j == 15 {
                assert(c.nodes@[4].key().len() != c.nodes@[15].key().len());
            } else if i == 4 && j == 16 {
                assert(c.nodes@[4].key().len() != c.nodes@[16].key().len());
            } else if i == 4 && j == 17 {
                assert(c.nodes@[4].key().len() != c.nodes@[17].key().len());
            } else if i == 4 && j == 18 {
                assert(c.nodes@[4].key().len() != c.nodes@[18].key().len());
            } else if i == 4 && j == 19 {
                assert(c.nodes@[4].key().len() != c.nodes@[19].key().len());
            } else if i == 4 && j == 20 {
                assert(c.nodes@[4].key().len() != c.nodes@[20].key().len());
            } else if i == 4 && j == 21 {
                assert(c.nodes@[4].key().len() != c.nodes@[21].key().len());
            } else if i == 4 && j == 22 {
                assert(c.nodes@[4].key().len() != c.nodes@[22].key().len());
            } else if i == 4 && j == 23 {
                assert(c.nodes@[4].key().len() != c.nodes@[23].key().len());
            } else if i == 4 && j == 24 {
                assert(c.nodes@[4].key().len() != c.nodes@[24].key().len());
            } else if i == 4 && j == 25 {
                assert(c.nodes@[4].key().len() != c.nodes@[25].key().len());
            } else if i == 4 && j == 26 {
                assert(c.nodes@[4].key().len() != c.nodes@[26].key().len());
            } else if i == 5 && j == 6 {
                assert(c.nodes@[5].key().len() != c.nodes@[6].key().len());
            } else if i == 5 && j == 7 {
                assert(c.nodes@[5].key().len() != c.nodes@[7].key().len());
            } else if i == 5 && j == 8 {
                assert(c.nodes@[5].key().len() != c.nodes@[8].key().len());
            } else if i == 5 && j == 9 {
                assert(c.nodes@[5].key()[6] != c.nodes@[9].key()[6]);
            } else if i == 5 && j == 10 {
                assert(c.nodes@[5].key().len() != c.nodes@[10].key().len());
            } else if i == 5 && j == 11 {
                assert(c.nodes@[5].key().len() != c.nodes@[11].key().len());
            } else if i == 5 && j == 12 {
                assert(c.nodes@[5].key().len() != c.nodes@[12].key().len());
            } else if i == 5 && j == 13 {
                assert(c.nodes@[5].key()[0] != c.nodes@[13].key()[0]);
            } else if i == 5 && j == 14 {
                assert(c.nodes@[5].key().len() != c.nodes@[14].key().len());
            } else if i == 5 && j == 15 {
                assert(c.nodes@[5].key().len() != c.nodes@[15].key().len());
            } else if i == 5 && j == 16 {
                assert(c.nodes@[5].key().len() != c.nodes@[16].key().len());
            } else if i == 5 && j == 17 {
                assert(c.nodes@[5].key().len() != c.nodes@[17].key().len());
            } else if i == 5 && j == 18 {
                assert(c.nodes@[5].key().len() != c.nodes@[18].key().len());
            } else if i == 5 && j == 19 {
                assert(c.nodes@[5].key().len() != c.nodes@[19].key().len());
            } else if i == 5 && j == 20 {
                assert(c.nodes@[5].key().len() != c.nodes@[20].key().len());
            } else if i == 5 && j == 21 {
                assert(c.nodes@[5].key().len() != c.nodes@[21].key().len());
            } else if i == 5 && j == 22 {
                assert(c.nodes@[5].key().len() != c.nodes@[22].key().len());
            } else if i == 5 && j == 23 {
                assert(c.nodes@[5].key().len() != c.nodes@[23].key().len());
            } else if i == 5 && j == 24 {
                assert(c.nodes@[5].key().len() != c.nodes@[24].key().len());
            } else if i == 5 && j == 25 {
                assert(c.nodes@[5].key().len() != c.nodes@[25].key().len());
            } else if i == 5 && j == 26 {
                assert(c.nodes@[5].key().len() != c.nodes@[26].key().len());
            } else if i == 6 && j == 7 {
                assert(c.nodes@[6].key().len() != c.nodes@[7].key().len());
            } else if i == 6 && j == 8 {
                assert(c.nodes@[6].key()[16] != c.nodes@[8].key()[16]);
            } else if i == 6 && j == 9 {
                assert(c.nodes@[6].key().len() != c.nodes@[9].key().len());
            } else if i == 6 && j == 10 {
                assert(c.nodes@[6].key().len() != c.nodes@[10].key().len());
            } else if i == 6 && j == 11 {
                assert(c.nodes@[6].key().len() != c.nodes@[11].key().len());
            } else if i == 6 && j == 12 {
                assert(c.nodes@[6].key().len() != c.nodes@[12].key().len());
            } else if i == 6 && j == 13 {
                assert(c.nodes@[6].key().len() != c.nodes@[13].key().len());
            } else if i == 6 && j == 14 {
                assert(c.nodes@[6].key().len() != c.nodes@[14].key().len());
            } else if i == 6 && j == 15 {
                assert(c.nodes@[6].key().len() != c.nodes@[15].key().len());
            } else if i == 6 && j == 16 {
                assert(c.nodes@[6].key().len() != c.nodes@[16].key().len());
            } else if i == 6 && j == 17 {
                assert(c.nodes@[6].key().len() != c.nodes@[17].key().len());
            } else if i == 6 && j == 18 {
                assert(c.nodes@[6].key().len() != c.nodes@[18].key().len());
            } else if i == 6 && j == 19 {
                assert(c.nodes@[6].key().len() != c.nodes@[19].key().len());
            } else if i == 6 && j == 20 {
                assert(c.nodes@[6].key().len() != c.nodes@[20].key().len());
            } else if i == 6 && j == 21 {
                assert(c.nodes@[6].key().len() != c.nodes@[21].key().len());
            } else if i == 6 && j == 22 {
                assert(c.nodes@[6].key().len() != c.nodes@[22].key().len());
            } else if i == 6 && j == 23 {
                assert(c.nodes@[6].key().len() != c.nodes@[23].key().len());
            } else if i == 6 && j == 24 {
                assert(c.nodes@[6].key().len() != c.nodes@[24].key().len());
            } else if i == 6 && j == 25 {
                assert(c.nodes@[6].key()[0] != c.nodes@[25].key()[0]);
            } else if i == 6 && j == 26 {
                assert(c.nodes@[6].key().len() != c.nodes@[26].key().len());
            } else if i == 7 && j == 8 {
                assert(c.nodes@[7].key().len() != c.nodes@[8].key().len());
            } else if i == 7 && j == 9 {
                assert(c.nodes@[7].key().len() != c.nodes@[9].key().len());
            } else if i == 7 && j == 10 {
                assert(c.nodes@[7].key().len() != c.nodes@[10].key().len());
            } else if i == 7 && j == 11 {
                assert(c.nodes@[7].key().len() != c.nodes@[11].key().len());
            } else if i == 7 && j == 12 {
                assert(c.nodes@[7].key().len() != c.nodes@[12].key().len());
            } else if i == 7 && j == 13 {
                assert(c.nodes@[7].key().len() != c.nodes@[13].key().len());
            } else if i == 7 && j == 14 {
                assert(c.nodes@[7].key().len() != c.nodes@[14].key().len());
            } else if i == 7 && j == 15 {
                assert(c.nodes@[7].key().len() != c.nodes@[15].key().len());
            } else if i == 7 && j == 16 {
                assert(c.nodes@[7].key().len() != c.nodes@[16].key().len());
            } else if i == 7 && j == 17 {
                assert(c.nodes@[7].key().len() != c.nodes@[17].key().len());
            } else if i == 7 && j == 18 {
                assert(c.nodes@[7].key().len() != c.nodes@[18].key().len());
            } else if i == 7 && j == 19 {
                assert(c.nodes@[7].key().len() != c.nodes@[19].key().len());
            } else if i == 7 && j == 20 {
                assert(c.nodes@[7].key().len() != c.nodes@[20].key().len());
            } else if i == 7 && j == 21 {
                assert(c.nodes@[7].key().len() != c.nodes@[21].key().len());
            } else if i == 7 && j == 22 {
                assert(c.nodes@[7].key().len() != c.nodes@[22].key().len());
            } else if i == 7 && j == 23 {
                assert(c.nodes@[7].key().len() != c.nodes@[23].key().len());
            } else if i == 7 && j == 24 {
                assert(c.nodes@[7].key().len() != c.nodes@[24].key().len());
            } else if i == 7 && j == 25 {
                assert(c.nodes@[7].key().len() != c.nodes@[25].key().len());
            } else if i == 7 && j == 26 {
                assert(c.nodes@[7].key().len() != c.nodes@[26].key().len());
            } else if i == 8 && j == 9 {
                assert(c.nodes@[8].key().len() != c.nodes@[9].key().len());
            } else if i == 8 && j == 10 {
                assert(c.nodes@[8].key().len() != c.nodes@[10].key().len());
            } else if i == 8 && j == 11 {
                assert(c.nodes@[8].key().len() != c.nodes@[11].key().len());
            } else if i == 8 && j == 12 {
                assert(c.nodes@[8].key().len() != c.nodes@[12].key().len());
            } else if i == 8 && j == 13 {
                assert(c.nodes@[8].key().len() != c.nodes@[13].key().len());
            } else if i == 8 && j == 14 {
                assert(c.nodes@[8].key().len() != c.nodes@[14].key().len());
            } else if i == 8 && j == 15 {
                assert(c.nodes@[8].key().len() != c.nodes@[15].key().len());
            } else if i == 8 && j == 16 {
                assert(c.nodes@[8].key().len() != c.nodes@[16].key().len());
            } else if i == 8 && j == 17 {
                assert(c.nodes@[8].key().len() != c.nodes@[17].key().len());
            } else if i == 8 && j == 18 {
                assert(c.nodes@[8].key().len() != c.nodes@[18].key().len());
            } else if i == 8 && j == 19 {
                assert(c.nodes@[8].key().len() != c.nodes@[19].key().len());
            } else if i == 8 && j == 20 {
                assert(c.nodes@[8].key().len() != c.nodes@[20].key().len());
            } else if i == 8 && j == 21 {
                assert(c.nodes@[8].key().len() != c.nodes@[21].key().len());
            } else if i == 8 && j == 22 {
                assert(c.nodes@[8].key().len() != c.nodes@[22].key().len());
            } else if i == 8 && j == 23 {
                assert(c.nodes@[8].key().len() != c.nodes@[23].key().len());
            } else if i == 8 && j == 24 {
                assert(c.nodes@[8].key().len() != c.nodes@[24].key().len());
            } else if i == 8 && j == 25 {
                assert(c.nodes@[8].key()[0] != c.nodes@[25].key()[0]);
            } else if i == 8 && j == 26 {
                assert(c.nodes@[8].key().len() != c.nodes@[26].key().len());
            } else if i == 9 && j == 10 {
                assert(c.nodes@[9].key().len() != c.nodes@[10].key().len());
            } else if i == 9 && j == 11 {
                assert(c.nodes@[9].key().len() != c.nodes@[11].key().len());
            } else if i == 9 && j == 12 {
                assert(c.nodes@[9].key().len() != c.nodes@[12].key().len());
            } else if i == 9 && j == 13 {
                assert(c.nodes@[9].key()[0] != c.nodes@[13].key()[0]);
            } else if i == 9 && j == 14 {
                assert(c.nodes@[9].key().len() != c.nodes@[14].key().len());
            } else if i == 9 && j == 15 {
                assert(c.nodes@[9].key().len() != c.nodes@[15].key().len());
            } else if i == 9 && j == 16 {
                assert(c.nodes@[9].key().len() != c.nodes@[16].key().len());
            } else if i == 9 && j == 17 {
                assert(c.nodes@[9].key().len() != c.nodes@[17].key().len());
            } else if i == 9 && j == 18 {
                assert(c.nodes@[9].key().len() != c.nodes@[18].key().len());
            } else if i == 9 && j == 19 {
                assert(c.nodes@[9].key().len() != c.nodes@[19].key().len());
            } else if i == 9 && j == 20 {
                assert(c.nodes@[9].key().len() != c.nodes@[20].key().len());
            } else if i == 9 && j == 21 {
                assert(c.nodes@[9].key().len() != c.nodes@[21].key().len());
            } else if i == 9 && j == 22 {
                assert(c.nodes@[9].key().len() != c.nodes@[22].key().len());
            } else if i == 9 && j == 23 {
                assert(c.nodes@[9].key().len() != c.nodes@[23].key().len());
            } else if i == 9 && j == 24 {
                assert(c.nodes@[9].key().len() != c.nodes@[24].key().len());
            } else if i == 9 && j == 25 {
                assert(c.nodes@[9].key().len() != c.nodes@[25].key().len());
            } else if i == 9 && j == 26 {
                assert(c.nodes@[9].key().len() != c.nodes@[26].key().len());
            } else if i == 10 && j == 11 {
                assert(c.nodes@[10].key().len() != c.nodes@[11].key().len());
            } else if i == 10 && j == 12 {
                assert(c.nodes@[10].key()[19] != c.nodes@[12].key()[19]);
            } else if i == 10 && j == 13 {
                assert(c.nodes@[10].key().len() != c.nodes@[13].key().len());
            } else if i == 10 && j == 14 {
                assert(c.nodes@[10].key().len() != c.nodes@[14].key().len());
            } else if i == 10 && j == 15 {
                assert(c.nodes@[10].key().len() != c.nodes@[15].key().len());
            } else if i == 10 && j == 16 {
                assert(c.nodes@[10].key().len() != c.nodes@[16].key().len());
            } else if i == 10 && j == 17 {
                assert(c.nodes@[10].key().len() != c.nodes@[17].key().len());
            } else if i == 10 && j == 18 {
                assert(c.nodes@[10].key().len() != c.nodes@[18].key().len());
            } else if i == 10 && j == 19 {
                assert(c.nodes@[10].key().len() != c.nodes@[19].key().len());
            } else if i == 10 && j == 20 {
                assert(c.nodes@[10].key().len() != c.nodes@[20].key().len());
            } else if i == 10 && j == 21 {
                assert(c.nodes@[10].key().len() != c.nodes@[21].key().len());
            } else if i == 10 && j == 22 {
                assert(c.nodes@[10].key().len() != c.nodes@[22].key().len());
            } else if i == 10 && j == 23 {
                assert(c.nodes@[10].key().len() != c.nodes@[23].key().len());
            } else if i == 10 && j == 24 {
                assert(c.nodes@[10].key().len() != c.nodes@[24].key().len());
            } else if i == 10 && j == 25 {
                assert(c.nodes@[10].key().len() != c.nodes@[25].key().len());
            } else if i == 10 && j == 26 {
                assert(c.nodes@[10].key().len() != c.nodes@[26].key().len());
            } else if i == 11 && j == 12 {
                assert(c.nodes@[11].key().len() != c.nodes@[12].key().len());
            } else if i == 11 && j == 13 {
                assert(c.nodes@[11].key().len() != c.nodes@[13].key().len());
            } else if i == 11 && j == 14 {
                assert(c.nodes@[11].key().len() != c.nodes@[14].key().len());
            } else if i == 11 && j == 15 {
                assert(c.nodes@[11].key().len() != c.nodes@[15].key().len());
            } else if i == 11 && j == 16 {
                assert(c.nodes@[11].key().len() != c.nodes@[16].key().len());
            } else if i == 11 && j == 17 {
                assert(c.nodes@[11].key().len() != c.nodes@[17].key().len());
            } else if i == 11 && j == 18 {
                assert(c.nodes@[11].key().len() != c.nodes@[18].key().len());
            } else if i == 11 && j == 19 {
                assert(c.nodes@[11].key().len() != c.nodes@[19].key().len());
            } else if i == 11 && j == 20 {
                assert(c.nodes@[11].key().len() != c.nodes@[20].key().len());
            } else if i == 11 && j == 21 {
                assert(c.nodes@[11].key().len() != c.nodes@[21].key().len());
            } else if i == 11 && j == 22 {
                assert(c.nodes@[11].key().len() != c.nodes@[22].key().len());
            } else if i == 11 && j == 23 {
                assert(c.nodes@[11].key().len() != c.nodes@[23].key().len());
            } else if i == 11 && j == 24 {
                assert(c.nodes@[11].key().len() != c.nodes@[24].key().len());
            } else if i == 11 && j == 25 {
                assert(c.nodes@[11].key().len() != c.nodes@[25].key().len());
            } else if i == 11 && j == 26 {
                assert(c.nodes@[11].key().len() != c.nodes@[26].key().len());
            } else if i == 12 && j == 13 {
                assert(c.nodes@[12].key().len() != c.nodes@[13].key().len());
            } else if i == 12 && j == 14 {
                assert(c.nodes@[12].key().len() != c.nodes@[14].key().len());
            } else if i == 12 && j == 15 {
                assert(c.nodes@[12].key().len() != c.nodes@[15].key().len());
            } else if i == 12 && j == 16 {
                assert(c.nodes@[12].key().len() != c.nodes@[16].key().len());
            } else if i == 12 && j == 17 {
                assert(c.nodes@[12].key().len() != c.nodes@[17].key().len());
            } else if i == 12 && j == 18 {
                assert(c.nodes@[12].key().len() != c.nodes@[18].key().len());
            } else if i == 12 && j == 19 {
                assert(c.nodes@[12].key().len() != c.nodes@[19].key().len());
            } else if i == 12 && j == 20 {
                assert(c.nodes@[12].key().len() != c.nodes@[20].key().len());
            } else if i == 12 && j == 21 {
                assert(c.nodes@[12].key().len() != c.nodes@[21].key().len());
            } else if i == 12 && j == 22 {
                assert(c.nodes@[12].key().len() != c.nodes@[22].key().len());
            } else if i == 12 && j == 23 {
                assert(c.nodes@[12].key().len() != c.nodes@[23].key().len());
            } else if i == 12 && j == 24 {
                assert(c.nodes@[12].key().len() != c.nodes@[24].key().len());
            } else if i == 12 && j == 25 {
                assert(c.nodes@[12].key().len() != c.nodes@[25].key().len());
            } else if i == 12 && j == 26 {
                assert(c.nodes@[12].key().len() != c.nodes@[26].key().len());
            } else if i == 13 && j == 14 {
                assert(c.nodes@[13].key().len() != c.nodes@[14].key().len());
            } else if i == 13 && j == 15 {
                assert(c.nodes@[13].key().len() != c.nodes@[15].key().len());
            } else if i == 13 && j == 16 {
                assert(c.nodes@[13].key().len() != c.nodes@[16].key().len());
            } else if i == 13 && j == 17 {
                assert(c.nodes@[13].key().len() != c.nodes@[17].key().len());
            } else if i == 13 && j == 18 {
                assert(c.nodes@[13].key().len() != c.nodes@[18].key().len());
            } else if i == 13 && j == 19 {
                assert(c.nodes@[13].key().len() != c.nodes@[19].key().len());
            } else if i == 13 && j == 20 {
                assert(c.nodes@[13].key().len() != c.nodes@[20].key().len());
            } else if i == 13 && j == 21 {
                assert(c.nodes@[13].key().len() != c.nodes@[21].key().len());
            } else if i == 13 && j == 22 {
                assert(c.nodes@[13].key().len() != c.nodes@[22].key().len());
            } else if i == 13 && j == 23 {
                assert(c.nodes@[13].key().len() != c.nodes@[23].key().len());
            } else if i == 13 && j == 24 {
                assert(c.nodes@[13].key().len() != c.nodes@[24].key().len());
            } else if i == 13 && j == 25 {
                assert(c.nodes@[13].key().len() != c.nodes@[25].key().len());
            } else if i == 13 && j == 26 {
                assert(c.nodes@[13].key().len() != c.nodes@[26].key().len());
            } else if i == 14 && j == 15 {
                assert(c.nodes@[14].key().len() != c.nodes@[15].key().len());
            } else if i == 14 && j == 16 {
                assert(c.nodes@[14].key().len() != c.nodes@[16].key().len());
            } else if i == 14 && j == 17 {
                assert(c.nodes@[14].key().len() != c.nodes@[17].key().len());
            } else if i == 14 && j == 18 {
                assert(c.nodes@[14].key()[12] != c.nodes@[18].key()[12]);
            } else if i == 14 && j == 19 {
                assert(c.nodes@[14].key().len() != c.nodes@[19].key().len());
            } else if i == 14 && j == 20 {
                assert(c.nodes@[14].key().len() != c.nodes@[20].key().len());
            } else if i == 14 && j == 21 {
                assert(c.nodes@[14].key().len() != c.nodes@[21].key().len());
            } else if i == 14 && j == 22 {
                assert(c.nodes@[14].key().len() != c.nodes@[22].key().len());
            } else if i == 14 && j == 23 {
                assert(c.nodes@[14].key().len() != c.nodes@[23].key().len());
            } else if i == 14 && j == 24 {
                assert(c.nodes@[14].key().len() != c.nodes@[24].key().len());
            } else if i == 14 && j == 25 {
                assert(c.nodes@[14].key().len() != c.nodes@[25].key().len());
            } else if i == 14 && j == 26 {
                assert(c.nodes@[14].key()[0] != c.nodes@[26].key()[0]);
            } else if i == 15 && j == 16 {
                assert(c.nodes@[15].key().len() != c.nodes@[16].key().len());
            } else if i == 15 && j == 17 {
                assert(c.nodes@[15].key()[12] != c.nodes@[17].key()[12]);
            } else if i == 15 && j == 18 {
                assert(c.nodes@[15].key().len() != c.nodes@[18].key().len());
            } else if i == 15 && j == 19 {
                assert(c.nodes@[15].key().len() != c.nodes@[19].key().len());
            } else if i == 15 && j == 20 {
                assert(c.nodes@[15].key().len() != c.nodes@[20].key().len());
            } else if i == 15 && j == 21 {
                assert(c.nodes@[15].key().len() != c.nodes@[21].key().len());
            } else if i == 15 && j == 22 {
                assert(c.nodes@[15].key().len() != c.nodes@[22].key().len());
            } else if i == 15 && j == 23 {
                assert(c.nodes@[15].key().len() != c.nodes@[23].key().len());
            } else if i == 15 && j == 24 {
                assert(c.nodes@[15].key().len() != c.nodes@[24].key().len());
            } else if i == 15 && j == 25 {
                assert(c.nodes@[15].key().len() != c.nodes@[25].key().len());
            } else if i == 15 && j == 26 {
                assert(c.nodes@[15].key().len() != c.nodes@[26].key().len());
            } else if i == 16 && j == 17 {
                assert(c.nodes@[16].key().len() != c.nodes@[17].key().len());
            } else if i == 16 && j == 18 {
                assert(c.nodes@[16].key().len() != c.nodes@[18].key().len());
            } else if i == 16 && j == 19 {
                assert(c.nodes@[16].key().len() != c.nodes@[19].key().len());
            } else if i == 16 && j == 20 {
                assert(c.nodes@[16].key()[6] != c.nodes@[20].key()[6]);
            } else if i == 16 && j == 21 {
                assert(c.nodes@[16].key().len() != c.nodes@[21].key().len());
            } else if i == 16 && j == 22 {
                assert(c.nodes@[16].key()[6] != c.nodes@[22].key()[6]);
            } else if i == 16 && j == 23 {
                assert(c.nodes@[16].key().len() != c.nodes@[23].key().len());
            } else if i == 16 && j == 24 {
                assert(c.nodes@[16].key().len() != c.nodes@[24].key().len());
            } else if i == 16 && j == 25 {
                assert(c.nodes@[16].key().len() != c.nodes@[25].key().len());
            } else if i == 16 && j == 26 {
                assert(c.nodes@[16].key().len() != c.nodes@[26].key().len());
            } else if i == 17 && j == 18 {
                assert(c.nodes@[17].key().len() != c.nodes@[18].key().len());
            } else if i == 17 && j == 19 {
                assert(c.nodes@[17].key().len() != c.nodes@[19].key().len());
            } else if i == 17 && j == 20 {
                assert(c.nodes@[17].key().len() != c.nodes@[20].key().len());
            } else if i == 17 && j == 21 {
                assert(c.nodes@[17].key().len() != c.nodes@[21].key().len());
            } else if i == 17 && j == 22 {
                assert(c.nodes@[17].key().len() != c.nodes@[22].key().len());
            } else if i == 17 && j == 23 {
                assert(c.nodes@[17].key().len() != c.nodes@[23].key().len());
            } else if i == 17 && j == 24 {
                assert(c.nodes@[17].key().len() != c.nodes@[24].key().len());
            } else if i == 17 && j == 25 {
                assert(c.nodes@[17].key().len() != c.nodes@[25].key().len());
            } else if i == 17 && j == 26 {
                assert(c.nodes@[17].key().len() != c.nodes@[26].key().len());
            } else if i == 18 && j == 19 {
                assert(c.nodes@[18].key().len() != c.nodes@[19].key().len());
            } else if i == 18 && j == 20 {
                assert(c.nodes@[18].key().len() != c.nodes@[20].key().len());
            } else if i == 18 && j == 21 {
                assert(c.nodes@[18].key().len() != c.nodes@[21].key().len());
            } else if i == 18 && j == 22 {
                assert(c.nodes@[18].key().len() != c.nodes@[22].key().len());
            } else if i == 18 && j == 23 {
                assert(c.nodes@[18].key().len() != c.nodes@[23].key().len());
            } else if i == 18 && j == 24 {
                assert(c.nodes@[18].key().len() != c.nodes@[24].key().len());
            } else if i == 18 && j == 25 {
                assert(c.nodes@[18].key().len() != c.nodes@[25].key().len());
            } else if i == 18 && j == 26 {
                assert(c.nodes@[18].key()[0] != c.nodes@[26].key()[0]);
            } else if i == 19 && j == 20 {
                assert(c.nodes@[19].key().len() != c.nodes@[20].key().len());
            } else if i == 19 && j == 21 {
                assert(c.nodes@[19].key().len() != c.nodes@[21].key().len());
            } else if i == 19 && j == 22 {
                assert(c.nodes@[19].key().len() != c.nodes@[22].key().len());
            } else if i == 19 && j == 23 {
                assert(c.nodes@[19].key()[11] != c.nodes@[23].key()[11]);
            } else if i == 19 && j == 24 {
                assert(c.nodes@[19].key().len() != c.nodes@[24].key().len());
            } else if i == 19 && j == 25 {
                assert(c.nodes@[19].key().len() != c.nodes@[25].key().len());
            } else if i == 19 && j == 26 {
                assert(c.nodes@[19].key().len() != c.nodes@[26].key().len());
            } else if i == 20 && j == 21 {
                assert(c.nodes@[20].key().len() != c.nodes@[21].key().len());
            } else if i == 20 && j == 22 {
                assert(c.nodes@[20].key()[11] != c.nodes@[22].key()[11]);
            } else if i == 20 && j == 23 {
                assert(c.nodes@[20].key().len() != c.nodes@[23].key().len());
            } else if i == 20 && j == 24 {
                assert(c.nodes@[20].key().len() != c.nodes@[24].key().len());
            } else if i == 20 && j == 25 {
                assert(c.nodes@[20].key().len() != c.nodes@[25].key().len());
            } else if i == 20 && j == 26 {
                assert(c.nodes@[20].key().len() != c.nodes@[26].key().len());
            } else if i == 21 && j == 22 {
                assert(c.nodes@[21].key().len() != c.nodes@[22].key().len());
            } else if i == 21 && j == 23 {
                assert(c.nodes@[21].key().len() != c.nodes@[23].key().len());
            } else if i == 21 && j == 24 {
                assert(c.nodes@[21].key().len() != c.nodes@[24].key().len());
            } else if i == 21 && j == 25 {
                assert(c.nodes@[21].key().len() != c.nodes@[25].key().len());
            } else if i == 21 && j == 26 {
                assert(c.nodes@[21].key().len() != c.nodes@[26].key().len());
            } else if i == 22 && j == 23 {
                assert(c.nodes@[22].key().len() != c.nodes@[23].key().len());
            } else if i == 22 && j == 24 {
                assert(c.nodes@[22].key().len() != c.nodes@[24].key().len());
            } else if i == 22 && j == 25 {
                assert(c.nodes@[22].key().len() != c.nodes@[25].key().len());
            } else if i == 22 && j == 26 {
                assert(c.nodes@[22].key().len() != c.nodes@[26].key().len());
            } else if i == 23 && j == 24 {
                assert(c.nodes@[23].key().len() != c.nodes@[24].key().len());
            } else if i == 23 && j == 25 {
                assert(c.nodes@[23].key().len() != c.nodes@[25].key().len());
            } else if i == 23 && j == 26 {
                assert(c.nodes@[23].key().len() != c.nodes@[26].key().len());
            } else if i == 24 && j == 25 {
                assert(c.nodes@[24].key().len() != c.nodes@[25].key().len());
            } else if i == 24 && j == 26 {
                assert(c.nodes@[24].key().len() != c.nodes@[26].key().len());
            } else if i == 25 && j == 26 {
                assert(c.nodes@[25].key().len() != c.nodes@[26].key().len());
            }
        }
    }
    assert(listing_ok(c, c.line_listings@[0])) by {
        assert(texts(c.line_listings@[0].subscriber_ids@).len() == 1);
        assert forall|k: int| 0 <= k < 1 implies has_key(c.subscribers@, (#[trigger] c.line_listings@[0].subscriber_ids@[k])@) by {
            if k == 0 {
                assert(c.line_listings@[0].subscriber_ids@[0]@ == texts(c.line_listings@[0].subscriber_ids@)[0]);
                assert(c.subscribers@[0].key() == c.line_listings@[0].subscriber_ids@[0]@);
            }
        }
    }
    assert(listing_ok(c, c.line_listings@[1])) by {
        assert(texts(c.line_listings@[1].subscriber_ids@).len() == 1);
        assert forall|k: int| 0 <= k < 1 implies has_key(c.subscribers@, (#[trigger] c.line_listings@[1].subscriber_ids@[k])@) by {
            if k == 0 {
                assert(c.line_listings@[1].subscriber_ids@[0]@ == texts(c.line_listings@[1].subscriber_ids@)[0]);
                assert(c.subscribers@[1].key() == c.line_listings@[1].subscriber_ids@[0]@);
            }
        }
    }
    assert(listing_ok(c, c.line_listings@[2])) by {
        assert(texts(c.line_listings@[2].subscriber_ids@).len() == 1);
        assert forall|k: int| 0 <= k < 1 implies has_key(c.subscribers@, (#[trigger] c.line_listings@[2].subscriber_ids@[k])@) by {
            if k == 0 {
                assert(c.line_listings@[2].subscriber_ids@[0]@ == texts(c.line_listings@[2].subscriber_ids@)[0]);
                assert(c.subscribers@[2].key() == c.line_listings@[2].subscriber_ids@[0]@);
            }
        }
    }
    assert(listing_ok(c, c.line_listings@[3])) by {
        assert(texts(c.line_listings@[3].subscriber_ids@).len() == 1);
        assert forall|k: int| 0 <= k < 1 implies has_key(c.subscribers@, (#[trigger] c.line_listings@[3].subscriber_ids@[k])@) by {
            if k == 0 {
                assert(c.line_listings@[3].subscriber_ids@[0]@ == texts(c.line_listings@[3].subscriber_ids@)[0]);
                assert(c.subscribers@[3].key() == c.line_listings@[3].subscriber_ids@[0]@);
            }
        }
    }
    assert(listing_ok(c, c.line_listings@[4])) by {
        assert(texts(c.line_listings@[4].subscriber_ids@).len() == 1);
        assert forall|k: int| 0 <= k < 1 implies has_key(c.subscribers@, (#[trigger] c.line_listings@[4].subscriber_ids@[k])@) by {
            if k == 0 {
                assert(c.line_listings@[4].subscriber_ids@[0]@ == texts(c.line_listings@[4].subscriber_ids@)[0]);
                assert(c.subscribers@[4].key() == c.line_listings@[4].subscriber_ids@[0]@);
            }
        }
    }
    assert forall|i: int| 0 <= i < 5 implies listing_ok(c, #[trigger] c.line_listings@[i]) by {
        if i == 0 {
        } else if i == 1 {
        } else if i == 2 {
        } else if i == 3 {
        } else if i == 4 {
        }
    }
    assert forall|i: int, j: int| 0 <= i < j < 5 implies (#[trigger] c.line_listings@[i]).line != (#[trigger] c.line_listings@[j]).line by {
        if i == 0 && j == 1 {
        } else if i == 0 && j == 2 {
        } else if i == 0 && j == 3 {
        } else if i == 0 && j == 4 {
        } else if i == 1 && j == 2 {
        } else if i == 1 && j == 3 {
        } else if i == 1 && j == 4 {
        } else if i == 2 && j == 3 {
        } else if i == 2 && j == 4 {
        } else if i == 3 && j == 4 {
        }
    }
    assert(premise_ok(c, c.call_premises@[0])) by {
        assert(c.call_premises@[0].directory_ids@.len() == 2);
        assert forall|k: int| 0 <= k < 2 implies #[trigger] c.call_premises@[0].directory_ids@[k] <= 9999 by {
            if k == 0 {
            } else if k == 1 {
            }
        }
        assert(c.subscribers@[0].key() == c.call_premises@[0].caller_id@);
        assert(c.subscribers@[1].key() == c.call_premises@[0].callee_id@);
        assert(c.line_listings@[0].key() == c.call_premises@[0].caller_line_id@);
        assert(c.line_listings@[1].key() == c.call_premises@[0].callee_line_id@);
        assert(c.call_premises@[0].caller_line_id@.len() != c.call_premises@[0].callee_line_id@.len());
        assert(c.line_listings@[0].subscriber_ids@[0]@ == texts(c.line_listings@[0].subscriber_ids@)[0]);
        assert(c.line_listings@[0].id@ == "railway_dispatch_office"@ && has_text(c.line_listings@[0].subscriber_ids@, "taren_kesh"@));
        assert(c.line_listings@[1].subscriber_ids@[0]@ == texts(c.line_listings@[1].subscriber_ids@)[0]);
        assert(c.line_listings@[1].id@ == "factory_records_office"@ && has_text(c.line_listings@[1].subscriber_ids@, "vira_dhal"@));
    }
    assert(premise_ok(c, c.call_premises@[1])) by {
        assert(c.call_premises@[1].directory_ids@.len() == 1);
        assert forall|k: int| 0 <= k < 1 implies #[trigger] c.call_premises@[1].directory_ids@[k] <= 9999 by {
            if k == 0 {
            }
        }
        assert(c.subscribers@[2].key() == c.call_premises@[1].caller_id@);
        assert(c.subscribers@[3].key() == c.call_premises@[1].callee_id@);
        assert(c.line_listings@[2].key() == c.call_premises@[1].caller_line_id@);
        assert(c.line_listings@[3].key() == c.call_premises@[1].callee_line_id@);
        assert(c.call_premises@[1].caller_line_id@.len() != c.call_premises@[1].callee_line_id@.len());
        assert(c.line_listings@[2].subscriber_ids@[0]@ == texts(c.line_listings@[2].subscriber_ids@)[0]);
        assert(c.line_listings@[2].id@ == "clinic"@ && has_text(c.line_listings@[2].subscriber_ids@, "leya_varan"@));
        assert(c.line_listings@[3].subscriber_ids@[0]@ == texts(c.line_listings@[3].subscriber_ids@)[0]);
        assert(c.line_listings@[3].id@ == "border_post"@ && has_text(c.line_listings@[3].subscriber_ids@, "oren_vey"@));
    }
    assert(premise_ok(c, c.call_premises@[2])) by {
        assert(c.call_premises@[2].directory_ids@.len() == 1);
        assert forall|k: int| 0 <= k < 1 implies #[trigger] c.call_premises@[2].directory_ids@[k] <= 9999 by {
            if k == 0 {
            }
        }
        assert(c.subscribers@[4].key() == c.call_premises@[2].caller_id@);
        assert(c.subscribers@[1].key() == c.call_premises@[2].callee_id@);
        assert(c.line_listings@[4].key() == c.call_premises@[2].caller_line_id@);
        assert(c.line_listings@[1].key() == c.call_premises@[2].callee_line_id@);
        assert(c.call_premises@[2].caller_line_id@.len() != c.call_premises@[2].callee_line_id@.len());
        assert(c.line_listings@[4].subscriber_ids@[0]@ == texts(c.line_listings@[4].subscriber_ids@)[0]);
        assert(c.line_listings@[4].id@ == "signal_box"@ && has_text(c.line_listings@[4].subscriber_ids@, "neri_tal"@));
        assert(c.line_listings@[1].subscriber_ids@[0]@ == texts(c.line_listings@[1].subscriber_ids@)[0]);
        assert(c.line_listings@[1].id@ == "factory_records_office"@ && has_text(c.line_listings@[1].subscriber_ids@, "vira_dhal"@));
    }
    assert(premise_ok(c, c.call_premises@[3])) by {
        assert(c.call_premises@[3].directory_ids@.len() == 1);
        assert forall|k: int| 0 <= k < 1 implies #[trigger] c.call_premises@[3].directory_ids@[k] <= 9999 by {
            if k == 0 {
            }
        }
        assert(c.subscribers@[1].key() == c.call_premises@[3].caller_id@);
        assert(c.subscribers@[0].key() == c.call_premises@[3].callee_id@);
        assert(c.line_listings@[1].key() == c.call_premises@[3].caller_line_id@);
        assert(c.line_listings@[0].key() == c.call_premises@[3].callee_line_id@);
        assert(c.call_premises@[3].caller_line_id@.len() != c.call_premises@[3].callee_line_id@.len());
        assert(c.line_listings@[1].subscriber_ids@[0]@ == texts(c.line_listings@[1].subscriber_ids@)[0]);
        assert(c.line_listings@[1].id@ == "factory_records_office"@ && has_text(c.line_listings@[1].subscriber_ids@, "vira_dhal"@));
        assert(c.line_listings@[0].subscriber_ids@[0]@ == texts(c.line_listings@[0].subscriber_ids@)[0]);
        assert(c.line_listings@[0].id@ == "railway_dispatch_office"@ && has_text(c.line_listings@[0].subscriber_ids@, "taren_kesh"@));
    }
    assert(premise_ok(c, c.call_premises@[4])) by {
        assert(c.call_premises@[4].directory_ids@.len() == 1);
        assert forall|k: int| 0 <= k < 1 implies #[trigger] c.call_premises@[4].directory_ids@[k] <= 9999 by {
            if k == 0 {
            }
        }
        assert(c.subscribers@[0].key() == c.call_premises@[4].caller_id@);
        assert(c.subscribers@[1].key() == c.call_premises@[4].callee_id@);
        assert(c.line_listings@[0].key() == c.call_premises@[4].caller_line_id@);
        assert(c.line_listings@[1].key() == c.call_premises@[4].callee_line_id@);
        assert(c.call_premises@[4].caller_line_id@.len() != c.call_premises@[4].callee_line_id@.len());
        assert(c.line_listings@[0].subscriber_ids@[0]@ == texts(c.line_listings@[0].subscriber_ids@)[0]);
        assert(c.line_listings@[0].id@ == "railway_dispatch_office"@ && has_text(c.line_listings@[0].subscriber_ids@, "taren_kesh"@));
        assert(c.line_listings@[1].subscriber_ids@[0]@ == texts(c.line_listings@[1].subscriber_ids@)[0]);
        assert(c.line_listings@[1].id@ == "factory_records_office"@ && has_text(c.line_listings@[1].subscriber_ids@, "vira_dhal"@));
    }
    assert(premise_ok(c, c.call_premises@[5])) by {
        assert(c.call_premises@[5].directory_ids@.len() == 1);
        assert forall|k: int| 0 <= k < 1 implies #[trigger] c.call_premises@[5].directory_ids@[k] <= 9999 by {
            if k == 0 {
            }
        }
        assert(c.subscribers@[3].key() == c.call_premises@[5].caller_id@);
        assert(c.subscribers@[1].key() == c.call_premises@[5].callee_id@);
        assert(c.line_listings@[3].key() == c.call_premises@[5].caller_line_id@);
        assert(c.line_listings@[1].key() == c.call_premises@[5].callee_line_id@);
        assert(c.call_premises@[5].caller_line_id@.len() != c.call_premises@[5].callee_line_id@.len());
        assert(c.line_listings@[3].subscriber_ids@[0]@ == texts(c.line_listings@[3].subscriber_ids@)[0]);
        assert(c.line_listings@[3].id@ == "border_post"@ && has_text(c.line_listings@[3].subscriber_ids@, "oren_vey"@));
        assert(c.line_listings@[1].subscriber_ids@[0]@ == texts(c.line_listings@[1].subscriber_ids@)[0]);
        assert(c.line_listings@[1].id@ == "factory_records_office"@ && has_text(c.line_listings@[1].subscriber_ids@, "vira_dhal"@));
    }
    assert forall|i: int| 0 <= i < 6 implies premise_ok(c, #[trigger] c.call_premises@[i]) by {
        if i == 0 {
        } else if i == 1 {
        } else if i == 2 {
        } else if i == 3 {
        } else if i == 4 {
        } else if i == 5 {
        }
    }
    assert forall|i: int| 0 <= i < 5 implies has_key(c.call_premises@, (#[trigger] c.story_beats@[i]).call_premise_id@) by {
        if i == 0 {
            assert(c.call_premises@[0].key() == c.story_beats@[0].call_premise_id@);
        } else if i == 1 {
            assert(c.call_premises@[1].key() == c.story_beats@[1].call_premise_id@);
        } else if i == 2 {
            assert(c.call_premises@[2].key() == c.story_beats@[2].call_premise_id@);
        } else if i == 3 {
            assert(c.call_premises@[4].key() == c.story_beats@[3].call_premise_id@);
        } else if i == 4 {
            assert(c.call_premises@[5].key() == c.story_beats@[4].call_premise_id@);
        }
    }
    assert(event_ok(c, c.story_events@[0])) by {
        assert(outcome_pairs(c.story_events@[0].outcomes@).len() == 1);
        assert(outcome_pairs(c.story_events@[0].outcomes@)[0] == (c.story_events@[0].outcomes@[0].id@, c.story_events@[0].outcomes@[0].next_node_id@));
        assert(ids_ok(c.story_events@[0].outcomes@)) by {
            assert forall|i: int| 0 <= i < 1 implies !is_blank((#[trigger] c.story_events@[0].outcomes@[i]).key()) by {
                if i == 0 {
                    assert(!is_white_space(c.story_events@[0].outcomes@[0].key()[0]));
                }
            }
        }
        assert forall|k: int| 0 <= k < 1 implies has_key(c.nodes@, (#[trigger] c.story_events@[0].outcomes@[k]).next_node_id@) by {
            if k == 0 {
                assert(c.nodes@[5].key() == c.story_events@[0].outcomes@[0].next_node_id@);
            }
        }
    }
    assert(event_ok(c, c.story_events@[1])) by {
        assert(outcome_pairs(c.story_events@[1].outcomes@).len() == 1);
        assert(outcome_pairs(c.story_events@[1].outcomes@)[0] == (c.story_events@[1].outcomes@[0].id@, c.story_events@[1].outcomes@[0].next_node_id@));
        assert(ids_ok(c.story_events@[1].outcomes@)) by {
            assert forall|i: int| 0 <= i < 1 implies !is_blank((#[trigger] c.story_events@[1].outcomes@[i]).key()) by {
                if i == 0 {
                    assert(!is_white_space(c.story_events@[1].outcomes@[0].key()[0]));
                }
            }
        }
        assert forall|k: int| 0 <= k < 1 implies has_key(c.nodes@, (#[trigger] c.story_events@[1].outcomes@[k]).next_node_id@) by {
            if k == 0 {
                assert(c.nodes@[5].key() == c.story_events@[1].outcomes@[0].next_node_id@);
            }
        }
    }
    assert(event_ok(c, c.story_events@[2])) by {
        assert(outcome_pairs(c.story_events@[2].outcomes@).len() == 1);
        assert(outcome_pairs(c.story_events@[2].outcomes@)[0] == (c.story_events@[2].outcomes@[0].id@, c.story_events@[2].outcomes@[0].next_node_id@));
        assert(ids_ok(c.story_events@[2].outcomes@)) by {
            assert forall|i: int| 0 <= i < 1 implies !is_blank((#[trigger] c.story_events@[2].outcomes@[i]).key()) by {
                if i == 0 {
                    assert(!is_white_space(c.story_events@[2].outcomes@[0].key()[0]));
                }
            }
        }
        assert forall|k: int| 0 <= k < 1 implies has_key(c.nodes@, (#[trigger] c.story_events@[2].outcomes@[k]).next_node_id@) by {
            if k == 0 {
                assert(c.nodes@[5].key() == c.story_events@[2].outcomes@[0].next_node_id@);
            }
        }
    }
    assert(event_ok(c, c.story_events@[3])) by {
        assert(outcome_pairs(c.story_events@[3].outcomes@).len() == 1);
        assert(outcome_pairs(c.story_events@[3].outcomes@)[0] == (c.story_events@[3].outcomes@[0].id@, c.story_events@[3].outcomes@[0].next_node_id@));
        assert(ids_ok(c.story_events@[3].outcomes@)) by {
            assert forall|i: int| 0 <= i < 1 implies !is_blank((#[trigger] c.story_events@[3].outcomes@[i]).key()) by {
                if i == 0 {
                    assert(!is_white_space(c.story_events@[3].outcomes@[0].key()[0]));
                }
            }
        }
        assert forall|k: int| 0 <= k < 1 implies has_key(c.nodes@, (#[trigger] c.story_events@[3].outcomes@[k]).next_node_id@) by {
            if k == 0 {
                assert(c.nodes@[9].key() == c.story_events@[3].outcomes@[0].next_node_id@);
            }
        }
    }
    assert(event_ok(c, c.story_events@[4])) by {
        assert(outcome_pairs(c.story_events@[4].outcomes@).len() == 1);
        assert(outcome_pairs(c.story_events@[4].outcomes@)[0] == (c.story_events@[4].outcomes@[0].id@, c.story_events@[4].outcomes@[0].next_node_id@));
        assert(ids_ok(c.story_events@[4].outcomes@)) by {
            assert forall|i: int| 0 <= i < 1 implies !is_blank((#[trigger] c.story_events@[4].outcomes@[i]).key()) by {
                if i == 0 {
                    assert(!is_white_space(c.story_events@[4].outcomes@[0].key()[0]));
                }
            }
        }
        assert forall|k: int| 0 <= k < 1 implies has_key(c.nodes@, (#[trigger] c.story_events@[4].outcomes@[k]).next_node_id@) by {
            if k == 0 {
                assert(c.nodes@[9].key() == c.story_events@[4].outcomes@[0].next_node_id@);
            }
        }
    }
    assert(event_ok(c, c.story_events@[5])) by {
        assert(outcome_pairs(c.story_events@[5].outcomes@).len() == 1);
        assert(outcome_pairs(c.story_events@[5].outcomes@)[0] == (c.story_events@[5].outcomes@[0].id@, c.story_events@[5].outcomes@[0].next_node_id@));
        assert(ids_ok(c.story_events@[5].outcomes@)) by {
            assert forall|i: int| 0 <= i < 1 implies !is_blank((#[trigger] c.story_events@[5].outcomes@[i]).key()) by {
                if i == 0 {
                    assert(!is_white_space(c.story_events@[5].outcomes@[0].key()[0]));
                }
            }
        }
        assert forall|k: int| 0 <= k < 1 implies has_key(c.nodes@, (#[trigger] c.story_events@[5].outcomes@[k]).next_node_id@) by {
            if k == 0 {
                assert(c.nodes@[9].key() == c.story_events@[5].outcomes@[0].next_node_id@);
            }
        }
    }
    assert(event_ok(c, c.story_events@[6])) by {
        assert(outcome_pairs(c.story_events@[6].outcomes@).len() == 1);
        assert(outcome_pairs(c.story_events@[6].outcomes@)[0] == (c.story_events@[6].outcomes@[0].id@, c.story_events@[6].outcomes@[0].next_node_id@));
        assert(ids_ok(c.story_events@[6].outcomes@)) by {
            assert forall|i: int| 0 <= i < 1 implies !is_blank((#[trigger] c.story_events@[6].outcomes@[i]).key()) by {
                if i == 0 {
                    assert(!is_white_space(c.story_events@[6].outcomes@[0].key()[0]));
                }
            }
        }
        assert forall|k: int| 0 <= k < 1 implies has_key(c.nodes@, (#[trigger] c.story_events@[6].outcomes@[k]).next_node_id@) by {
            if k == 0 {
                assert(c.nodes@[13].key() == c.story_events@[6].outcomes@[0].next_node_id@);
            }
        }
    }
    assert(event_ok(c, c.story_events@[7])) by {
        assert(outcome_pairs(c.story_events@[7].outcomes@).len() == 1);
        assert(outcome_pairs(c.story_events@[7].outcomes@)[0] == (c.story_events@[7].outcomes@[0].id@, c.story_events@[7].outcomes@[0].next_node_id@));
        assert(ids_ok(c.story_events@[7].outcomes@)) by {
            assert forall|i: int| 0 <= i < 1 implies !is_blank((#[trigger] c.story_events@[7].outcomes@[i]).key()) by {
                if i == 0 {
                    assert(!is_white_space(c.story_events@[7].outcomes@[0].key()[0]));
                }
            }
        }
        assert forall|k: int| 0 <= k < 1 implies has_key(c.nodes@, (#[trigger] c.story_events@[7].outcomes@[k]).next_node_id@) by {
            if k == 0 {
                assert(c.nodes@[13].key() == c.story_events@[7].outcomes@[0].next_node_id@);
            }
        }
    }
    assert(event_ok(c, c.story_events@[8])) by {
        assert(outcome_pairs(c.story_events@[8].outcomes@).len() == 1);
        assert(outcome_pairs(c.story_events@[8].outcomes@)[0] == (c.story_events@[8].outcomes@[0].id@, c.story_events@[8].outcomes@[0].next_node_id@));
        assert(ids_ok(c.story_events@[8].outcomes@)) by {
            assert forall|i: int| 0 <= i < 1 implies !is_blank((#[trigger] c.story_events@[8].outcomes@[i]).key()) by {
                if i == 0 {
                    assert(!is_white_space(c.story_events@[8].outcomes@[0].key()[0]));
                }
            }
        }
        assert forall|k: int| 0 <= k < 1 implies has_key(c.nodes@, (#[trigger] c.story_events@[8].outcomes@[k]).next_node_id@) by {
            if k == 0 {
                assert(c.nodes@[13].key() == c.story_events@[8].outcomes@[0].next_node_id@);
            }
        }
    }
    assert(event_ok(c, c.story_events@[9])) by {
        assert(outcome_pairs(c.story_events@[9].outcomes@).len() == 3);
        assert(outcome_pairs(c.story_events@[9].outcomes@)[0] == (c.story_events@[9].outcomes@[0].id@, c.story_events@[9].outcomes@[0].next_node_id@));
        assert(outcome_pairs(c.story_events@[9].outcomes@)[1] == (c.story_events@[9].outcomes@[1].id@, c.story_events@[9].outcomes@[1].next_node_id@));
        assert(outcome_pairs(c.story_events@[9].outcomes@)[2] == (c.story_events@[9].outcomes@[2].id@, c.story_events@[9].outcomes@[2].next_node_id@));
        assert(ids_ok(c.story_events@[9].outcomes@)) by {
            assert forall|i: int| 0 <= i < 3 implies !is_blank((#[trigger] c.story_events@[9].outcomes@[i]).key()) by {
                if i == 0 {
                    assert(!is_white_space(c.story_events@[9].outcomes@[0].key()[0]));
                } else if i == 1 {
                    assert(!is_white_space(c.story_events@[9].outcomes@[1].key()[0]));
                } else if i == 2 {
                    assert(!is_white_space(c.story_events@[9].outcomes@[2].key()[0]));
                }
            }
            assert forall|i: int, j: int| 0 <= i < j < 3 implies (#[trigger] c.story_events@[9].outcomes@[i]).key() != (#[trigger] c.story_events@[9].outcomes@[j]).key() by {
                if i == 0 && j == 1 {
                    assert(c.story_events@[9].outcomes@[0].key().len() != c.story_events@[9].outcomes@[1].key().len());
                } else if i == 0 && j == 2 {
                    assert(c.story_events@[9].outcomes@[0].key().len() != c.story_events@[9].outcomes@[2].key().len());
                } else if i == 1 && j == 2 {
                    assert(c.story_events@[9].outcomes@[1].key().len() != c.story_events@[9].outcomes@[2].key().len());
                }
            }
        }
        assert forall|k: int| 0 <= k < 3 implies has_key(c.nodes@, (#[trigger] c.story_events@[9].outcomes@[k]).next_node_id@) by {
            if k == 0 {
                assert(c.nodes@[14].key() == c.story_events@[9].outcomes@[0].next_node_id@);
            } else if k == 1 {
                assert(c.nodes@[19].key() == c.story_events@[9].outcomes@[1].next_node_id@);
            } else if k == 2 {
                assert(c.nodes@[26].key() == c.story_events@[9].outcomes@[2].next_node_id@);
            }
        }
    }
    assert(event_ok(c, c.story_events@[10])) by {
        assert(outcome_pairs(c.story_events@[10].outcomes@).len() == 1);
        assert(outcome_pairs(c.story_events@[10].outcomes@)[0] == (c.story_events@[10].outcomes@[0].id@, c.story_events@[10].outcomes@[0].next_node_id@));
        assert(ids_ok(c.story_events@[10].outcomes@)) by {
            assert forall|i: int| 0 <= i < 1 implies !is_blank((#[trigger] c.story_events@[10].outcomes@[i]).key()) by {
                if i == 0 {
                    assert(!is_white_space(c.story_events@[10].outcomes@[0].key()[0]));
                }
            }
        }
        assert forall|k: int| 0 <= k < 1 implies has_key(c.nodes@, (#[trigger] c.story_events@[10].outcomes@[k]).next_node_id@) by {
            if k == 0 {
                assert(c.nodes@[18].key() == c.story_events@[10].outcomes@[0].next_node_id@);
            }
        }
    }
    assert(event_ok(c, c.story_events@[11])) by {
        assert(outcome_pairs(c.story_events@[11].outcomes@).len() == 1);
        assert(outcome_pairs(c.story_events@[11].outcomes@)[0] == (c.story_events@[11].outcomes@[0].id@, c.story_events@[11].outcomes@[0].next_node_id@));
        assert(ids_ok(c.story_events@[11].outcomes@)) by {
            assert forall|i: int| 0 <= i < 1 implies !is_blank((#[trigger] c.story_events@[11].outcomes@[i]).key()) by {
                if i == 0 {
                    assert(!is_white_space(c.story_events@[11].outcomes@[0].key()[0]));
                }
            }
        }
        assert forall|k: int| 0 <= k < 1 implies has_key(c.nodes@, (#[trigger] c.story_events@[11].outcomes@[k]).next_node_id@) by {
            if k == 0 {
                assert(c.nodes@[26].key() == c.story_events@[11].outcomes@[0].next_node_id@);
            }
        }
    }
    assert(event_ok(c, c.story_events@[12])) by {
        assert(outcome_pairs(c.story_events@[12].outcomes@).len() == 1);
        assert(outcome_pairs(c.story_events@[12].outcomes@)[0] == (c.story_events@[12].outcomes@[0].id@, c.story_events@[12].outcomes@[0].next_node_id@));
        assert(ids_ok(c.story_events@[12].outcomes@)) by {
            assert forall|i: int| 0 <= i < 1 implies !is_blank((#[trigger] c.story_events@[12].outcomes@[i]).key()) by {
                if i == 0 {
                    assert(!is_white_space(c.story_events@[12].outcomes@[0].key()[0]));
                }
            }
        }
        assert forall|k: int| 0 <= k < 1 implies has_key(c.nodes@, (#[trigger] c.story_events@[12].outcomes@[k]).next_node_id@) by {
            if k == 0 {
                assert(c.nodes@[26].key() == c.story_events@[12].outcomes@[0].next_node_id@);
            }
        }
    }
    assert(event_ok(c, c.story_events@[13])) by {
        assert(outcome_pairs(c.story_events@[13].outcomes@).len() == 1);
        assert(outcome_pairs(c.story_events@[13].outcomes@)[0] == (c.story_events@[13].outcomes@[0].id@, c.story_events@[13].outcomes@[0].next_node_id@));
        assert(ids_ok(c.story_events@[13].outcomes@)) by {
            assert forall|i: int| 0 <= i < 1 implies !is_blank((#[trigger] c.story_events@[13].outcomes@[i]).key()) by {
                if i == 0 {
                    assert(!is_white_space(c.story_events@[13].outcomes@[0].key()[0]));
                }
            }
        }
        assert forall|k: int| 0 <= k < 1 implies has_key(c.nodes@, (#[trigger] c.story_events@[13].outcomes@[k]).next_node_id@) by {
            if k == 0 {
                assert(c.nodes@[23].key() == c.story_events@[13].outcomes@[0].next_node_id@);
            }
        }
    }
    assert(event_ok(c, c.story_events@[14])) by {
        assert(outcome_pairs(c.story_events@[14].outcomes@).len() == 1);
        assert(outcome_pairs(c.story_events@[14].outcomes@)[0] == (c.story_events@[14].outcomes@[0].id@, c.story_events@[14].outcomes@[0].next_node_id@));
        assert(ids_ok(c.story_events@[14].outcomes@)) by {
            assert forall|i: int| 0 <= i < 1 implies !is_blank((#[trigger] c.story_events@[14].outcomes@[i]).key()) by {
                if i == 0 {
                    assert(!is_white_space(c.story_events@[14].outcomes@[0].key()[0]));
                }
            }
        }
        assert forall|k: int| 0 <= k < 1 implies has_key(c.nodes@, (#[trigger] c.story_events@[14].outcomes@[k]).next_node_id@) by {
            if k == 0 {
                assert(c.nodes@[26].key() == c.story_events@[14].outcomes@[0].next_node_id@);
            }
        }
    }
    assert(event_ok(c, c.story_events@[15])) by {
        assert(outcome_pairs(c.story_events@[15].outcomes@).len() == 1);
        assert(outcome_pairs(c.story_events@[15].outcomes@)[0] == (c.story_events@[15].outcomes@[0].id@, c.story_events@[15].outcomes@[0].next_node_id@));
        assert(ids_ok(c.story_events@[15].outcomes@)) by {
            assert forall|i: int| 0 <= i < 1 implies !is_blank((#[trigger] c.story_events@[15].outcomes@[i]).key()) by {
                if i == 0 {
                    assert(!is_white_space(c.story_events@[15].outcomes@[0].key()[0]));
                }
            }
        }
        assert forall|k: int| 0 <= k < 1 implies has_key(c.nodes@, (#[trigger] c.story_events@[15].outcomes@[k]).next_node_id@) by {
            if k == 0 {
                assert(c.nodes@[26].key() == c.story_events@[15].outcomes@[0].next_node_id@);
            }
        }
    }
    assert forall|i: int| 0 <= i < 16 implies event_ok(c, #[trigger] c.story_events@[i]) by {
        if i == 0 {
        } else if i == 1 {
        } else if i == 2 {
        } else if i == 3 {
        } else if i == 4 {
        } else if i == 5 {
        } else if i == 6 {
        } else if i == 7 {
        } else if i == 8 {
        } else if i == 9 {
        } else if i == 10 {
        } else if i == 11 {
        } else if i == 12 {
        } else if i == 13 {
        } else if i == 14 {
        } else if i == 15 {
        }
    }
    assert forall|i: int| 0 <= i < 3 implies !is_blank((#[trigger] c.endings@[i]).conclusion@) by {
        if i == 0 {
            assert(!is_white_space(c.endings@[0].conclusion@[0]));
        } else if i == 1 {
            assert(!is_white_space(c.endings@[1].conclusion@[0]));
        } else if i == 2 {
            assert(!is_white_space(c.endings@[2].conclusion@[0]));
        }
    }
    assert(c.nodes@[0].key() == c.start_node_id@);
    assert(node_ok(c, c.nodes@[0])) by {
        assert(c.nodes@[1].key() == "shift_1_call"@);
    }
    assert(node_ok(c, c.nodes@[1])) by {
        assert(c.story_beats@[0].key() == "relief_train_7"@);
        assert(c.nodes@[2].key() == "relief_train_success_event"@);
        assert(c.nodes@[3].key() == "relief_train_missed_event"@);
        assert(c.nodes@[4].key() == "relief_train_invalid_event"@);
    }
    assert(node_ok(c, c.nodes@[2])) by {
        assert(c.story_events@[0].key() == "relief_train_success"@);
        assert(outcome_pairs(c.story_events@[0].outcomes@)[0] == (c.story_events@[0].outcomes@[0].id@, c.story_events@[0].outcomes@[0].next_node_id@));
        assert(c.story_events@[0].outcomes@[0].key() == "default"@);
    }
    assert(node_ok(c, c.nodes@[3])) by {
        assert(c.story_events@[1].key() == "relief_train_missed"@);
        assert(outcome_pairs(c.story_events@[1].outcomes@)[0] == (c.story_events@[1].outcomes@[0].id@, c.story_events@[1].outcomes@[0].next_node_id@));
        assert(c.story_events@[1].outcomes@[0].key() == "default"@);
    }
    assert(node_ok(c, c.nodes@[4])) by {
        assert(c.story_events@[2].key() == "relief_train_invalid"@);
        assert(outcome_pairs(c.story_events@[2].outcomes@)[0] == (c.story_events@[2].outcomes@[0].id@, c.story_events@[2].outcomes@[0].next_node_id@));
        assert(c.story_events@[2].outcomes@[0].key() == "default"@);
    }
    assert(node_ok(c, c.nodes@[5])) by {
        assert(c.story_beats@[1].key() == "parent_collapse"@);
        assert(c.nodes@[6].key() == "parent_collapse_success_event"@);
        assert(c.nodes@[7].key() == "parent_collapse_missed_event"@);
        assert(c.nodes@[8].key() == "parent_collapse_invalid_event"@);
    }
    assert(node_ok(c, c.nodes@[6])) by {
        assert(c.story_events@[3].key() == "parent_collapse_success"@);
        assert(outcome_pairs(c.story_events@[3].outcomes@)[0] == (c.story_events@[3].outcomes@[0].id@, c.story_events@[3].outcomes@[0].next_node_id@));
        assert(c.story_events@[3].outcomes@[0].key() == "default"@);
    }
    assert(node_ok(c, c.nodes@[7])) by {
        assert(c.story_events@[4].key() == "parent_collapse_missed"@);
        assert(outcome_pairs(c.story_events@[4].outcomes@)[0] == (c.story_events@[4].outcomes@[0].id@, c.story_events@[4].outcomes@[0].next_node_id@));
        assert(c.story_events@[4].outcomes@[0].key() == "default"@);
    }
    assert(node_ok(c, c.nodes@[8])) by {
        assert(c.story_events@[5].key() == "parent_collapse_invalid"@);
        assert(outcome_pairs(c.story_events@[5].outcomes@)[0] == (c.story_events@[5].outcomes@[0].id@, c.story_events@[5].outcomes@[0].next_node_id@));
        assert(c.story_events@[5].outcomes@[0].key() == "default"@);
    }
    assert(node_ok(c, c.nodes@[9])) by {
        assert(c.story_beats@[2].key() == "intercepted_signal"@);
        assert(c.nodes@[10].key() == "intercepted_signal_success_event"@);
        assert(c.nodes@[11].key() == "intercepted_signal_missed_event"@);
        assert(c.nodes@[12].key() == "intercepted_signal_invalid_event"@);
    }
    assert(node_ok(c, c.nodes@[10])) by {
        assert(c.story_events@[6].key() == "intercepted_signal_success"@);
        assert(outcome_pairs(c.story_events@[6].outcomes@)[0] == (c.story_events@[6].outcomes@[0].id@, c.story_events@[6].outcomes@[0].next_node_id@));
        assert(c.story_events@[6].outcomes@[0].key() == "default"@);
    }
    assert(node_ok(c, c.nodes@[11])) by {
        assert(c.story_events@[7].key() == "intercepted_signal_missed"@);
        assert(outcome_pairs(c.story_events@[7].outcomes@)[0] == (c.story_events@[7].outcomes@[0].id@, c.story_events@[7].outcomes@[0].next_node_id@));
        assert(c.story_events@[7].outcomes@[0].key() == "default"@);
    }
    assert(node_ok(c, c.nodes@[12])) by {
        assert(c.story_events@[8].key() == "intercepted_signal_invalid"@);
        assert(outcome_pairs(c.story_events@[8].outcomes@)[0] == (c.story_events@[8].outcomes@[0].id@, c.story_events@[8].outcomes@[0].next_node_id@));
        assert(c.story_events@[8].outcomes@[0].key() == "default"@);
    }
    assert(node_ok(c, c.nodes@[13])) by {
        assert(c.story_events@[9].key() == "final_choice_event"@);
        assert(outcome_pairs(c.story_events@[9].outcomes@)[0] == (c.story_events@[9].outcomes@[0].id@, c.story_events@[9].outcomes@[0].next_node_id@));
        assert(c.story_events@[9].outcomes@[0].key() == "taren"@);
    }
    assert(node_ok(c, c.nodes@[14])) by {
        assert(c.story_beats@[3].key() == "final_taren_routing"@);
        assert(c.nodes@[15].key() == "final_taren_success_event"@);
        assert(c.nodes@[16].key() == "final_taren_missed_event"@);
        assert(c.nodes@[17].key() == "final_taren_invalid_event"@);
    }
    assert(node_ok(c, c.nodes@[15])) by {
        assert(c.story_events@[10].key() == "final_taren_success"@);
        assert(outcome_pairs(c.story_events@[10].outcomes@)[0] == (c.story_events@[10].outcomes@[0].id@, c.story_events@[10].outcomes@[0].next_node_id@));
        assert(c.story_events@[10].outcomes@[0].key() == "default"@);
    }
    assert(node_ok(c, c.nodes@[16])) by {
        assert(c.story_events@[11].key() == "final_taren_missed"@);
        assert(outcome_pairs(c.story_events@[11].outcomes@)[0] == (c.story_events@[11].outcomes@[0].id@, c.story_events@[11].outcomes@[0].next_node_id@));
        assert(c.story_events@[11].outcomes@[0].key() == "default"@);
    }
    assert(node_ok(c, c.nodes@[17])) by {
        assert(c.story_events@[12].key() == "final_taren_invalid"@);
        assert(outcome_pairs(c.story_events@[12].outcomes@)[0] == (c.story_events@[12].outcomes@[0].id@, c.story_events@[12].outcomes@[0].next_node_id@));
        assert(c.story_events@[12].outcomes@[0].key() == "default"@);
    }
    assert(node_ok(c, c.nodes@[18])) by {
        assert(c.nodes@[24].key() == "ending_trade_detente"@);
        assert(c.nodes@[25].key() == "ending_managed_emergency_rule"@);
    }
    assert(node_ok(c, c.nodes@[19])) by {
        assert(c.story_beats@[4].key() == "final_oren_routing"@);
        assert(c.nodes@[20].key() == "final_oren_success_event"@);
        assert(c.nodes@[21].key() == "final_oren_missed_event"@);
        assert(c.nodes@[22].key() == "final_oren_invalid_event"@);
    }
    assert(node_ok(c, c.nodes@[20])) by {
        assert(c.story_events@[13].key() == "final_oren_success"@);
        assert(outcome_pairs(c.story_events@[13].outcomes@)[0] == (c.story_events@[13].outcomes@[0].id@, c.story_events@[13].outcomes@[0].next_node_id@));
        assert(c.story_events@[13].outcomes@[0].key() == "default"@);
    }
    assert(node_ok(c, c.nodes@[21])) by {
        assert(c.story_events@[14].key() == "final_oren_missed"@);
        assert(outcome_pairs(c.story_events@[14].outcomes@)[0] == (c.story_events@[14].outcomes@[0].id@, c.story_events@[14].outcomes@[0].next_node_id@));
        assert(c.story_events@[14].outcomes@[0].key() == "default"@);
    }
    assert(node_ok(c, c.nodes@[22])) by {
        assert(c.story_events@[15].key() == "final_oren_invalid"@);
        assert(outcome_pairs(c.story_events@[15].outcomes@)[0] == (c.story_events@[15].outcomes@[0].id@, c.story_events@[15].outcomes@[0].next_node_id@));
        assert(c.story_events@[15].outcomes@[0].key() == "default"@);
    }
    assert(node_ok(c, c.nodes@[23])) by {
        assert(c.nodes@[25].key() == "ending_managed_emergency_rule"@);
        assert(c.nodes@[26].key() == "ending_civil_war"@);
    }
    assert(node_ok(c, c.nodes@[24])) by {
        assert(c.endings@[0].key() == "trade_detente"@);
    }
    assert(node_ok(c, c.nodes@[25])) by {
        assert(c.endings@[1].key() == "managed_emergency_rule"@);
    }
    assert(node_ok(c, c.nodes@[26])) by {
        assert(c.endings@[2].key() == "renewed_civil_war"@);
    }
    assert forall|i: int| 0 <= i < 27 implies node_ok(c, #[trigger] c.nodes@[i]) by {
        if i == 0 {
        } else if i == 1 {
        } else if i == 2 {
        } else if i == 3 {
        } else if i == 4 {
        } else if i == 5 {
        } else if i == 6 {
        } else if i == 7 {
        } else if i == 8 {
        } else if i == 9 {
        } else if i == 10 {
        } else if i == 11 {
        } else if i == 12 {
        } else if i == 13 {
        } else if i == 14 {
        } else if i == 15 {
        } else if i == 16 {
        } else if i == 17 {
        } else if i == 18 {
        } else if i == 19 {
        } else if i == 20 {
        } else if i == 21 {
        } else if i == 22 {
        } else if i == 23 {
        } else if i == 24 {
        } else if i == 25 {
        } else if i == 26 {
        }
    }
    assert(content_valid(c));
    lemma_first_key(c.nodes@, c.start_node_id@, 0);
    assert(node_targets(c.story_events@, c.nodes@[0]) =~= seq!["shift_1_call"@]);
    assert(node_targets(c.story_events@, c.nodes@[1]) =~= seq!["relief_train_success_event"@, "relief_train_missed_event"@, "relief_train_invalid_event"@]);
    assert(node_targets(c.story_events@, c.nodes@[2]) == seq!["shift_2_call"@]) by {
        assert(c.story_events@[0].key() == "relief_train_success"@);
        lemma_first_key(c.story_events@, "relief_train_success"@, 0);
        assert(outcome_pairs(c.story_events@[0].outcomes@).len() == 1);
        assert(outcome_pairs(c.story_events@[0].outcomes@)[0] == (c.story_events@[0].outcomes@[0].id@, c.story_events@[0].outcomes@[0].next_node_id@));
        lemma_first_key(c.story_events@[0].outcomes@, "default"@, 0);
        assert(outcome_pairs(c.story_events@[0].outcomes@).len() == 1);
        assert(c.story_events@[0].outcomes@.subrange(0, 0).len() == 0);
        assert(other_targets(c.story_events@[0].outcomes@.subrange(0, 0), "default"@) == Seq::<Seq<char>>::empty());
        assert(c.story_events@[0].outcomes@.subrange(0, 1).drop_last() =~= c.story_events@[0].outcomes@.subrange(0, 0));
        assert(c.story_events@[0].outcomes@.subrange(0, 1).last() == c.story_events@[0].outcomes@[0]);
        assert(other_targets(c.story_events@[0].outcomes@.subrange(0, 1), "default"@) =~= seq![]);
        assert(c.story_events@[0].outcomes@.subrange(0, 1) =~= c.story_events@[0].outcomes@);
        assert(other_targets(c.story_events@[0].outcomes@, "default"@) =~= seq![]);
        assert(event_targets(c.story_events@[0].outcomes@, "default"@) =~= seq!["shift_2_call"@]);
    }
    assert(node_targets(c.story_events@, c.nodes@[3]) == seq!["shift_2_call"@]) by {
        assert(c.story_events@[1].key() == "relief_train_missed"@);
        lemma_first_key(c.story_events@, "relief_train_missed"@, 1);
        assert(outcome_pairs(c.story_events@[1].outcomes@).len() == 1);
        assert(outcome_pairs(c.story_events@[1].outcomes@)[0] == (c.story_events@[1].outcomes@[0].id@, c.story_events@[1].outcomes@[0].next_node_id@));
        lemma_first_key(c.story_events@[1].outcomes@, "default"@, 0);
        assert(outcome_pairs(c.story_events@[1].outcomes@).len() == 1);
        assert(c.story_events@[1].outcomes@.subrange(0, 0).len() == 0);
        assert(other_targets(c.story_events@[1].outcomes@.subrange(0, 0), "default"@) == Seq::<Seq<char>>::empty());
        assert(c.story_events@[1].outcomes@.subrange(0, 1).drop_last() =~= c.story_events@[1].outcomes@.subrange(0, 0));
        assert(c.story_events@[1].outcomes@.subrange(0, 1).last() == c.story_events@[1].outcomes@[0]);
        assert(other_targets(c.story_events@[1].outcomes@.subrange(0, 1), "default"@) =~= seq![]);
        assert(c.story_events@[1].outcomes@.subrange(0, 1) =~= c.story_events@[1].outcomes@);
        assert(other_targets(c.story_events@[1].outcomes@, "default"@) =~= seq![]);
        assert(event_targets(c.story_events@[1].outcomes@, "default"@) =~= seq!["shift_2_call"@]);
    }
    assert(node_targets(c.story_events@, c.nodes@[4]) == seq!["shift_2_call"@]) by {
        assert(c.story_events@[2].key() == "relief_train_invalid"@);
        lemma_first_key(c.story_events@, "relief_train_invalid"@, 2);
        assert(outcome_pairs(c.story_events@[2].outcomes@).len() == 1);
        assert(outcome_pairs(c.story_events@[2].outcomes@)[0] == (c.story_events@[2].outcomes@[0].id@, c.story_events@[2].outcomes@[0].next_node_id@));
        lemma_first_key(c.story_events@[2].outcomes@, "default"@, 0);
        assert(outcome_pairs(c.story_events@[2].outcomes@).len() == 1);
        assert(c.story_events@[2].outcomes@.subrange(0, 0).len() == 0);
        assert(other_targets(c.story_events@[2].outcomes@.subrange(0, 0), "default"@) == Seq::<Seq<char>>::empty());
        assert(c.story_events@[2].outcomes@.subrange(0, 1).drop_last() =~= c.story_events@[2].outcomes@.subrange(0, 0));
        assert(c.story_events@[2].outcomes@.subrange(0, 1).last() == c.story_events@[2].outcomes@[0]);
        assert(other_targets(c.story_events@[2].outcomes@.subrange(0, 1), "default"@) =~= seq![]);
        assert(c.story_events@[2].outcomes@.subrange(0, 1) =~= c.story_events@[2].outcomes@);
        assert(other_targets(c.story_events@[2].outcomes@, "default"@) =~= seq![]);
        assert(event_targets(c.story_events@[2].outcomes@, "default"@) =~= seq!["shift_2_call"@]);
    }
    assert(node_targets(c.story_events@, c.nodes@[5]) =~= seq!["parent_collapse_success_event"@, "parent_collapse_missed_event"@, "parent_collapse_invalid_event"@]);
    assert(node_targets(c.story_events@, c.nodes@[6]) == seq!["shift_3_call"@]) by {
        assert(c.story_events@[3].key() == "parent_collapse_success"@);
        lemma_first_key(c.story_events@, "parent_collapse_success"@, 3);
        assert(outcome_pairs(c.story_events@[3].outcomes@).len() == 1);
        assert(outcome_pairs(c.story_events@[3].outcomes@)[0] == (c.story_events@[3].outcomes@[0].id@, c.story_events@[3].outcomes@[0].next_node_id@));
        lemma_first_key(c.story_events@[3].outcomes@, "default"@, 0);
        assert(outcome_pairs(c.story_events@[3].outcomes@).len() == 1);
        assert(c.story_events@[3].outcomes@.subrange(0, 0).len() == 0);
        assert(other_targets(c.story_events@[3].outcomes@.subrange(0, 0), "default"@) == Seq::<Seq<char>>::empty());
        assert(c.story_events@[3].outcomes@.subrange(0, 1).drop_last() =~= c.story_events@[3].outcomes@.subrange(0, 0));
        assert(c.story_events@[3].outcomes@.subrange(0, 1).last() == c.story_events@[3].outcomes@[0]);
        assert(other_targets(c.story_events@[3].outcomes@.subrange(0, 1), "default"@) =~= seq![]);
        assert(c.story_events@[3].outcomes@.subrange(0, 1) =~= c.story_events@[3].outcomes@);
        assert(other_targets(c.story_events@[3].outcomes@, "default"@) =~= seq![]);
        assert(event_targets(c.story_events@[3].outcomes@, "default"@) =~= seq!["shift_3_call"@]);
    }
    assert(node_targets(c.story_events@, c.nodes@[7]) == seq!["shift_3_call"@]) by {
        assert(c.story_events@[4].key() == "parent_collapse_missed"@);
        lemma_first_key(c.story_events@, "parent_collapse_missed"@, 4);
        assert(outcome_pairs(c.story_events@[4].outcomes@).len() == 1);
        assert(outcome_pairs(c.story_events@[4].outcomes@)[0] == (c.story_events@[4].outcomes@[0].id@, c.story_events@[4].outcomes@[0].next_node_id@));
        lemma_first_key(c.story_events@[4].outcomes@, "default"@, 0);
        assert(outcome_pairs(c.story_events@[4].outcomes@).len() == 1);
        assert(c.story_events@[4].outcomes@.subrange(0, 0).len() == 0);
        assert(other_targets(c.story_events@[4].outcomes@.subrange(0, 0), "default"@) == Seq::<Seq<char>>::empty());
        assert(c.story_events@[4].outcomes@.subrange(0, 1).drop_last() =~= c.story_events@[4].outcomes@.subrange(0, 0));
        assert(c.story_events@[4].outcomes@.subrange(0, 1).last() == c.story_events@[4].outcomes@[0]);
        assert(other_targets(c.story_events@[4].outcomes@.subrange(0, 1), "default"@) =~= seq![]);
        assert(c.story_events@[4].outcomes@.subrange(0, 1) =~= c.story_events@[4].outcomes@);
        assert(other_targets(c.story_events@[4].outcomes@, "default"@) =~= seq![]);
        assert(event_targets(c.story_events@[4].outcomes@, "default"@) =~= seq!["shift_3_call"@]);
    }
    assert(node_targets(c.story_events@, c.nodes@[8]) == seq!["shift_3_call"@]) by {
        assert(c.story_events@[5].key() == "parent_collapse_invalid"@);
        lemma_first_key(c.story_events@, "parent_collapse_invalid"@, 5);
        assert(outcome_pairs(c.story_events@[5].outcomes@).len() == 1);
        assert(outcome_pairs(c.story_events@[5].outcomes@)[0] == (c.story_events@[5].outcomes@[0].id@, c.story_events@[5].outcomes@[0].next_node_id@));
        lemma_first_key(c.story_events@[5].outcomes@, "default"@, 0);
        assert(outcome_pairs(c.story_events@[5].outcomes@).len() == 1);
        assert(c.story_events@[5].outcomes@.subrange(0, 0).len() == 0);
        assert(other_targets(c.story_events@[5].outcomes@.subrange(0, 0), "default"@) == Seq::<Seq<char>>::empty());
        assert(c.story_events@[5].outcomes@.subrange(0, 1).drop_last() =~= c.story_events@[5].outcomes@.subrange(0, 0));
        assert(c.story_events@[5].outcomes@.subrange(0, 1).last() == c.story_events@[5].outcomes@[0]);
        assert(other_targets(c.story_events@[5].outcomes@.subrange(0, 1), "default"@) =~= seq![]);
        assert(c.story_events@[5].outcomes@.subrange(0, 1) =~= c.story_events@[5].outcomes@);
        assert(other_targets(c.story_events@[5].outcomes@, "default"@) =~= seq![]);
        assert(event_targets(c.story_events@[5].outcomes@, "default"@) =~= seq!["shift_3_call"@]);
    }
    assert(node_targets(c.story_events@, c.nodes@[9]) =~= seq!["intercepted_signal_success_event"@, "intercepted_signal_missed_event"@, "intercepted_signal_invalid_event"@]);
    assert(node_targets(c.story_events@, c.nodes@[10]) == seq!["final_choice"@]) by {
        assert(c.story_events@[6].key() == "intercepted_signal_success"@);
        lemma_first_key(c.story_events@, "intercepted_signal_success"@, 6);
        assert(outcome_pairs(c.story_events@[6].outcomes@).len() == 1);
        assert(outcome_pairs(c.story_events@[6].outcomes@)[0] == (c.story_events@[6].outcomes@[0].id@, c.story_events@[6].outcomes@[0].next_node_id@));
        lemma_first_key(c.story_events@[6].outcomes@, "default"@, 0);
        assert(outcome_pairs(c.story_events@[6].outcomes@).len() == 1);
        assert(c.story_events@[6].outcomes@.subrange(0, 0).len() == 0);
        assert(other_targets(c.story_events@[6].outcomes@.subrange(0, 0), "default"@) == Seq::<Seq<char>>::empty());
        assert(c.story_events@[6].outcomes@.subrange(0, 1).drop_last() =~= c.story_events@[6].outcomes@.subrange(0, 0));
        assert(c.story_events@[6].outcomes@.subrange(0, 1).last() == c.story_events@[6].outcomes@[0]);
        assert(other_targets(c.story_events@[6].outcomes@.subrange(0, 1), "default"@) =~= seq![]);
        assert(c.story_events@[6].outcomes@.subrange(0, 1) =~= c.story_events@[6].outcomes@);
        assert(other_targets(c.story_events@[6].outcomes@, "default"@) =~= seq![]);
        assert(event_targets(c.story_events@[6].outcomes@, "default"@) =~= seq!["final_choice"@]);
    }
    assert(node_targets(c.story_events@, c.nodes@[11]) == seq!["final_choice"@]) by {
        assert(c.story_events@[7].key() == "intercepted_signal_missed"@);
        lemma_first_key(c.story_events@, "intercepted_signal_missed"@, 7);
        assert(outcome_pairs(c.story_events@[7].outcomes@).len() == 1);
        assert(outcome_pairs(c.story_events@[7].outcomes@)[0] == (c.story_events@[7].outcomes@[0].id@, c.story_events@[7].outcomes@[0].next_node_id@));
        lemma_first_key(c.story_events@[7].outcomes@, "default"@, 0);
        assert(outcome_pairs(c.story_events@[7].outcomes@).len() == 1);
        assert(c.story_events@[7].outcomes@.subrange(0, 0).len() == 0);
        assert(other_targets(c.story_events@[7].outcomes@.subrange(0, 0), "default"@) == Seq::<Seq<char>>::empty());
        assert(c.story_events@[7].outcomes@.subrange(0, 1).drop_last() =~= c.story_events@[7].outcomes@.subrange(0, 0));
        assert(c.story_events@[7].outcomes@.subrange(0, 1).last() == c.story_events@[7].outcomes@[0]);
        assert(other_targets(c.story_events@[7].outcomes@.subrange(0, 1), "default"@) =~= seq![]);
        assert(c.story_events@[7].outcomes@.subrange(0, 1) =~= c.story_events@[7].outcomes@);
        assert(other_targets(c.story_events@[7].outcomes@, "default"@) =~= seq![]);
        assert(event_targets(c.story_events@[7].outcomes@, "default"@) =~= seq!["final_choice"@]);
    }
    assert(node_targets(c.story_events@, c.nodes@[12]) == seq!["final_choice"@]) by {
        assert(c.story_events@[8].key() == "intercepted_signal_invalid"@);
        lemma_first_key(c.story_events@, "intercepted_signal_invalid"@, 8);
        assert(outcome_pairs(c.story_events@[8].outcomes@).len() == 1);
        assert(outcome_pairs(c.story_events@[8].outcomes@)[0] == (c.story_events@[8].outcomes@[0].id@, c.story_events@[8].outcomes@[0].next_node_id@));
        lemma_first_key(c.story_events@[8].outcomes@, "default"@, 0);
        assert(outcome_pairs(c.story_events@[8].outcomes@).len() == 1);
        assert(c.story_events@[8].outcomes@.subrange(0, 0).len() == 0);
        assert(other_targets(c.story_events@[8].outcomes@.subrange(0, 0), "default"@) == Seq::<Seq<char>>::empty());
        assert(c.story_events@[8].outcomes@.subrange(0, 1).drop_last() =~= c.story_events@[8].outcomes@.subrange(0, 0));
        assert(c.story_events@[8].outcomes@.subrange(0, 1).last() == c.story_events@[8].outcomes@[0]);
        assert(other_targets(c.story_events@[8].outcomes@.subrange(0, 1), "default"@) =~= seq![]);
        assert(c.story_events@[8].outcomes@.subrange(0, 1) =~= c.story_events@[8].outcomes@);
        assert(other_targets(c.story_events@[8].outcomes@, "default"@) =~= seq![]);
        assert(event_targets(c.story_events@[8].outcomes@, "default"@) =~= seq!["final_choice"@]);
    }
    assert(node_targets(c.story_events@, c.nodes@[13]) == seq!["final_taren_call"@, "final_oren_call"@, "ending_civil_war"@]) by {
        assert(c.story_events@[9].key() == "final_choice_event"@);
        lemma_first_key(c.story_events@, "final_choice_event"@, 9);
        assert(outcome_pairs(c.story_events@[9].outcomes@).len() == 3);
        assert(outcome_pairs(c.story_events@[9].outcomes@)[0] == (c.story_events@[9].outcomes@[0].id@, c.story_events@[9].outcomes@[0].next_node_id@));
        assert(outcome_pairs(c.story_events@[9].outcomes@)[1] == (c.story_events@[9].outcomes@[1].id@, c.story_events@[9].outcomes@[1].next_node_id@));
        assert(outcome_pairs(c.story_events@[9].outcomes@)[2] == (c.story_events@[9].outcomes@[2].id@, c.story_events@[9].outcomes@[2].next_node_id@));
        lemma_first_key(c.story_events@[9].outcomes@, "taren"@, 0);
        assert(outcome_pairs(c.story_events@[9].outcomes@).len() == 3);
        assert(c.story_events@[9].outcomes@.subrange(0, 0).len() == 0);
        assert(other_targets(c.story_events@[9].outcomes@.subrange(0, 0), "taren"@) == Seq::<Seq<char>>::empty());
        assert(c.story_events@[9].outcomes@.subrange(0, 1).drop_last() =~= c.story_events@[9].outcomes@.subrange(0, 0));
        assert(c.story_events@[9].outcomes@.subrange(0, 1).last() == c.story_events@[9].outcomes@[0]);
        assert(other_targets(c.story_events@[9].outcomes@.subrange(0, 1), "taren"@) =~= seq![]);
        assert(c.story_events@[9].outcomes@.subrange(0, 2).drop_last() =~= c.story_events@[9].outcomes@.subrange(0, 1));
        assert(c.story_events@[9].outcomes@.subrange(0, 2).last() == c.story_events@[9].outcomes@[1]);
        assert(other_targets(c.story_events@[9].outcomes@.subrange(0, 2), "taren"@) =~= seq!["final_oren_call"@]);
        assert(c.story_events@[9].outcomes@.subrange(0, 3).drop_last() =~= c.story_events@[9].outcomes@.subrange(0, 2));
        assert(c.story_events@[9].outcomes@.subrange(0, 3).last() == c.story_events@[9].outcomes@[2]);
        assert(other_targets(c.story_events@[9].outcomes@.subrange(0, 3), "taren"@) =~= seq!["final_oren_call"@, "ending_civil_war"@]);
        assert(c.story_events@[9].outcomes@.subrange(0, 3) =~= c.story_events@[9].outcomes@);
        assert(other_targets(c.story_events@[9].outcomes@, "taren"@) =~= seq!["final_oren_call"@, "ending_civil_war"@]);
        assert(event_targets(c.story_events@[9].outcomes@, "taren"@) =~= seq!["final_taren_call"@, "final_oren_call"@, "ending_civil_war"@]);
    }
    assert(node_targets(c.story_events@, c.nodes@[14]) =~= seq!["final_taren_success_event"@, "final_taren_missed_event"@, "final_taren_invalid_event"@]);
    assert(node_targets(c.story_events@, c.nodes@[15]) == seq!["final_taren_gate"@]) by {
        assert(c.story_events@[10].key() == "final_taren_success"@);
        lemma_first_key(c.story_events@, "final_taren_success"@, 10);
        assert(outcome_pairs(c.story_events@[10].outcomes@).len() == 1);
        assert(outcome_pairs(c.story_events@[10].outcomes@)[0] == (c.story_events@[10].outcomes@[0].id@, c.story_events@[10].outcomes@[0].next_node_id@));
        lemma_first_key(c.story_events@[10].outcomes@, "default"@, 0);
        assert(outcome_pairs(c.story_events@[10].outcomes@).len() == 1);
        assert(c.story_events@[10].outcomes@.subrange(0, 0).len() == 0);
        assert(other_targets(c.story_events@[10].outcomes@.subrange(0, 0), "default"@) == Seq::<Seq<char>>::empty());
        assert(c.story_events@[10].outcomes@.subrange(0, 1).drop_last() =~= c.story_events@[10].outcomes@.subrange(0, 0));
        assert(c.story_events@[10].outcomes@.subrange(0, 1).last() == c.story_events@[10].outcomes@[0]);
        assert(other_targets(c.story_events@[10].outcomes@.subrange(0, 1), "default"@) =~= seq![]);
        assert(c.story_events@[10].outcomes@.subrange(0, 1) =~= c.story_events@[10].outcomes@);
        assert(other_targets(c.story_events@[10].outcomes@, "default"@) =~= seq![]);
        assert(event_targets(c.story_events@[10].outcomes@, "default"@) =~= seq!["final_taren_gate"@]);
    }
    assert(node_targets(c.story_events@, c.nodes@[16]) == seq!["ending_civil_war"@]) by {
        assert(c.story_events@[11].key() == "final_taren_missed"@);
        lemma_first_key(c.story_events@, "final_taren_missed"@, 11);
        assert(outcome_pairs(c.story_events@[11].outcomes@).len() == 1);
        assert(outcome_pairs(c.story_events@[11].outcomes@)[0] == (c.story_events@[11].outcomes@[0].id@, c.story_events@[11].outcomes@[0].next_node_id@));
        lemma_first_key(c.story_events@[11].outcomes@, "default"@, 0);
        assert(outcome_pairs(c.story_events@[11].outcomes@).len() == 1);
        assert(c.story_events@[11].outcomes@.subrange(0, 0).len() == 0);
        assert(other_targets(c.story_events@[11].outcomes@.subrange(0, 0), "default"@) == Seq::<Seq<char>>::empty());
        assert(c.story_events@[11].outcomes@.subrange(0, 1).drop_last() =~= c.story_events@[11].outcomes@.subrange(0, 0));
        assert(c.story_events@[11].outcomes@.subrange(0, 1).last() == c.story_events@[11].outcomes@[0]);
        assert(other_targets(c.story_events@[11].outcomes@.subrange(0, 1), "default"@) =~= seq![]);
        assert(c.story_events@[11].outcomes@.subrange(0, 1) =~= c.story_events@[11].outcomes@);
        assert(other_targets(c.story_events@[11].outcomes@, "default"@) =~= seq![]);
        assert(event_targets(c.story_events@[11].outcomes@, "default"@) =~= seq!["ending_civil_war"@]);
    }
    assert(node_targets(c.story_events@, c.nodes@[17]) == seq!["ending_civil_war"@]) by {
        assert(c.story_events@[12].key() == "final_taren_invalid"@);
        lemma_first_key(c.story_events@, "final_taren_invalid"@, 12);
        assert(outcome_pairs(c.story_events@[12].outcomes@).len() == 1);
        assert(outcome_pairs(c.story_events@[12].outcomes@)[0] == (c.story_events@[12].outcomes@[0].id@, c.story_events@[12].outcomes@[0].next_node_id@));
        lemma_first_key(c.story_events@[12].outcomes@, "default"@, 0);
        assert(outcome_pairs(c.story_events@[12].outcomes@).len() == 1);
        assert(c.story_events@[12].outcomes@.subrange(0, 0).len() == 0);
        assert(other_targets(c.story_events@[12].outcomes@.subrange(0, 0), "default"@) == Seq::<Seq<char>>::empty());
        assert(c.story_events@[12].outcomes@.subrange(0, 1).drop_last() =~= c.story_events@[12].outcomes@.subrange(0, 0));
        assert(c.story_events@[12].outcomes@.subrange(0, 1).last() == c.story_events@[12].outcomes@[0]);
        assert(other_targets(c.story_events@[12].outcomes@.subrange(0, 1), "default"@) =~= seq![]);
        assert(c.story_events@[12].outcomes@.subrange(0, 1) =~= c.story_events@[12].outcomes@);
        assert(other_targets(c.story_events@[12].outcomes@, "default"@) =~= seq![]);
        assert(event_targets(c.story_events@[12].outcomes@, "default"@) =~= seq!["ending_civil_war"@]);
    }
    assert(node_targets(c.story_events@, c.nodes@[18]) =~= seq!["ending_trade_detente"@, "ending_managed_emergency_rule"@]);
    assert(node_targets(c.story_events@, c.nodes@[19]) =~= seq!["final_oren_success_event"@, "final_oren_missed_event"@, "final_oren_invalid_event"@]);
    assert(node_targets(c.story_events@, c.nodes@[20]) == seq!["final_oren_gate"@]) by {
        assert(c.story_events@[13].key() == "final_oren_success"@);
        lemma_first_key(c.story_events@, "final_oren_success"@, 13);
        assert(outcome_pairs(c.story_events@[13].outcomes@).len() == 1);
        assert(outcome_pairs(c.story_events@[13].outcomes@)[0] == (c.story_events@[13].outcomes@[0].id@, c.story_events@[13].outcomes@[0].next_node_id@));
        lemma_first_key(c.story_events@[13].outcomes@, "default"@, 0);
        assert(outcome_pairs(c.story_events@[13].outcomes@).len() == 1);
        assert(c.story_events@[13].outcomes@.subrange(0, 0).len() == 0);
        assert(other_targets(c.story_events@[13].outcomes@.subrange(0, 0), "default"@) == Seq::<Seq<char>>::empty());
        assert(c.story_events@[13].outcomes@.subrange(0, 1).drop_last() =~= c.story_events@[13].outcomes@.subrange(0, 0));
        assert(c.story_events@[13].outcomes@.subrange(0, 1).last() == c.story_events@[13].outcomes@[0]);
        assert(other_targets(c.story_events@[13].outcomes@.subrange(0, 1), "default"@) =~= seq![]);
        assert(c.story_events@[13].outcomes@.subrange(0, 1) =~= c.story_events@[13].outcomes@);
        assert(other_targets(c.story_events@[13].outcomes@, "default"@) =~= seq![]);
        assert(event_targets(c.story_events@[13].outcomes@, "default"@) =~= seq!["final_oren_gate"@]);
    }
    assert(node_targets(c.story_events@, c.nodes@[21]) == seq!["ending_civil_war"@]) by {
        assert(c.story_events@[14].key() == "final_oren_missed"@);
        lemma_first_key(c.story_events@, "final_oren_missed"@, 14);
        assert(outcome_pairs(c.story_events@[14].outcomes@).len() == 1);
        assert(outcome_pairs(c.story_events@[14].outcomes@)[0] == (c.story_events@[14].outcomes@[0].id@, c.story_events@[14].outcomes@[0].next_node_id@));
        lemma_first_key(c.story_events@[14].outcomes@, "default"@, 0);
        assert(outcome_pairs(c.story_events@[14].outcomes@).len() == 1);
        assert(c.story_events@[14].outcomes@.subrange(0, 0).len() == 0);
        assert(other_targets(c.story_events@[14].outcomes@.subrange(0, 0), "default"@) == Seq::<Seq<char>>::empty());
        assert(c.story_events@[14].outcomes@.subrange(0, 1).drop_last() =~= c.story_events@[14].outcomes@.subrange(0, 0));
        assert(c.story_events@[14].outcomes@.subrange(0, 1).last() == c.story_events@[14].outcomes@[0]);
        assert(other_targets(c.story_events@[14].outcomes@.subrange(0, 1), "default"@) =~= seq![]);
        assert(c.story_events@[14].outcomes@.subrange(0, 1) =~= c.story_events@[14].outcomes@);
        assert(other_targets(c.story_events@[14].outcomes@, "default"@) =~= seq![]);
        assert(event_targets(c.story_events@[14].outcomes@, "default"@) =~= seq!["ending_civil_war"@]);
    }
    assert(node_targets(c.story_events@, c.nodes@[22]) == seq!["ending_civil_war"@]) by {
        assert(c.story_events@[15].key() == "final_oren_invalid"@);
        lemma_first_key(c.story_events@, "final_oren_invalid"@, 15);
        assert(outcome_pairs(c.story_events@[15].outcomes@).len() == 1);
        assert(outcome_pairs(c.story_events@[15].outcomes@)[0] == (c.story_events@[15].outcomes@[0].id@, c.story_events@[15].outcomes@[0].next_node_id@));
        lemma_first_key(c.story_events@[15].outcomes@, "default"@, 0);
        assert(outcome_pairs(c.story_events@[15].outcomes@).len() == 1);
        assert(c.story_events@[15].outcomes@.subrange(0, 0).len() == 0);
        assert(other_targets(c.story_events@[15].outcomes@.subrange(0, 0), "default"@) == Seq::<Seq<char>>::empty());
        assert(c.story_events@[15].outcomes@.subrange(0, 1).drop_last() =~= c.story_events@[15].outcomes@.subrange(0, 0));
        assert(c.story_events@[15].outcomes@.subrange(0, 1).last() == c.story_events@[15].outcomes@[0]);
        assert(other_targets(c.story_events@[15].outcomes@.subrange(0, 1), "default"@) =~= seq![]);
        assert(c.story_events@[15].outcomes@.subrange(0, 1) =~= c.story_events@[15].outcomes@);
        assert(other_targets(c.story_events@[15].outcomes@, "default"@) =~= seq![]);
        assert(event_targets(c.story_events@[15].outcomes@, "default"@) =~= seq!["ending_civil_war"@]);
    }
    assert(node_targets(c.story_events@, c.nodes@[23]) =~= seq!["ending_managed_emergency_rule"@, "ending_civil_war"@]);
    assert(node_targets(c.story_events@, c.nodes@[24]) =~= seq![]);
    assert(node_targets(c.story_events@, c.nodes@[25]) =~= seq![]);
    assert(node_targets(c.story_events@, c.nodes@[26]) =~= seq![]);
    let rank = |i: int| if i == 0 { 0nat } else if i == 1 { 1nat } else if i == 2 { 4nat } else if i == 3 { 3nat } else if i == 4 { 2nat } else if i == 5 { 5nat } else if i == 6 { 8nat } else if i == 7 { 7nat } else if i == 8 { 6nat } else if i == 9 { 9nat } else if i == 10 { 12nat } else if i == 11 { 11nat } else if i == 12 { 10nat } else if i == 13 { 13nat } else if i == 14 { 19nat } else if i == 15 { 23nat } else if i == 16 { 21nat } else if i == 17 { 20nat } else if i == 18 { 24nat } else if i == 19 { 14nat } else if i == 20 { 17nat } else if i == 21 { 16nat } else if i == 22 { 15nat } else if i == 23 { 18nat } else if i == 24 { 26nat } else if i == 25 { 25nat } else if i == 26 { 22nat } else { 0nat };
    let parent = |i: int| if i == 1 { 0int } else if i == 2 { 1int } else if i == 3 { 1int } else if i == 4 { 1int } else if i == 5 { 4int } else if i == 6 { 5int } else if i == 7 { 5int } else if i == 8 { 5int } else if i == 9 { 8int } else if i == 10 { 9int } else if i == 11 { 9int } else if i == 12 { 9int } else if i == 13 { 12int } else if i == 14 { 13int } else if i == 15 { 14int } else if i == 16 { 14int } else if i == 17 { 14int } else if i == 18 { 15int } else if i == 19 { 13int } else if i == 20 { 19int } else if i == 21 { 19int } else if i == 22 { 19int } else if i == 23 { 20int } else if i == 24 { 18int } else if i == 25 { 23int } else if i == 26 { 13int } else { 0int };
    assert forall|a: int, b: int| #[trigger] story_edge(c, a, b) implies rank(a) < rank(b) by {
        if a == 0 {
            assert(c.nodes@[b].key() == c.nodes@[b].id@);
            assert(c.nodes@[1].key() == "shift_1_call"@);
        } else if a == 1 {
            assert(c.nodes@[b].key() == c.nodes@[b].id@);
            assert(c.nodes@[2].key() == "relief_train_success_event"@);
            assert(c.nodes@[3].key() == "relief_train_missed_event"@);
            assert(c.nodes@[4].key() == "relief_train_invalid_event"@);
        } else if a == 2 {
            assert(c.nodes@[b].key() == c.nodes@[b].id@);
            assert(c.nodes@[5].key() == "shift_2_call"@);
        } else if a == 3 {
            assert(c.nodes@[b].key() == c.nodes@[b].id@);
            assert(c.nodes@[5].key() == "shift_2_call"@);
        } else if a == 4 {
            assert(c.nodes@[b].key() == c.nodes@[b].id@);
            assert(c.nodes@[5].key() == "shift_2_call"@);
        } else if a == 5 {
            assert(c.nodes@[b].key() == c.nodes@[b].id@);
            assert(c.nodes@[6].key() == "parent_collapse_success_event"@);
            assert(c.nodes@[7].key() == "parent_collapse_missed_event"@);
            assert(c.nodes@[8].key() == "parent_collapse_invalid_event"@);
        } else if a == 6 {
            assert(c.nodes@[b].key() == c.nodes@[b].id@);
            assert(c.nodes@[9].key() == "shift_3_call"@);
        } else if a == 7 {
            assert(c.nodes@[b].key() == c.nodes@[b].id@);
            assert(c.nodes@[9].key() == "shift_3_call"@);
        } else if a == 8 {
            assert(c.nodes@[b].key() == c.nodes@[b].id@);
            assert(c.nodes@[9].key() == "shift_3_call"@);
        } else if a == 9 {
            assert(c.nodes@[b].key() == c.nodes@[b].id@);
            assert(c.nodes@[10].key() == "intercepted_signal_success_event"@);
            assert(c.nodes@[11].key() == "intercepted_signal_missed_event"@);
            assert(c.nodes@[12].key() == "intercepted_signal_invalid_event"@);
        } else if a == 10 {
            assert(c.nodes@[b].key() == c.nodes@[b].id@);
            assert(c.nodes@[13].key() == "final_choice"@);
        } else if a == 11 {
            assert(c.nodes@[b].key() == c.nodes@[b].id@);
            assert(c.nodes@[13].key() == "final_choice"@);
        } else if a == 12 {
            assert(c.nodes@[b].key() == c.nodes@[b].id@);
            assert(c.nodes@[13].key() == "final_choice"@);
        } else if a == 13 {
            assert(c.nodes@[b].key() == c.nodes@[b].id@);
            assert(c.nodes@[14].key() == "final_taren_call"@);
            assert(c.nodes@[19].key() == "final_oren_call"@);
            assert(c.nodes@[26].key() == "ending_civil_war"@);
        } else if a == 14 {
            assert(c.nodes@[b].key() == c.nodes@[b].id@);
            assert(c.nodes@[15].key() == "final_taren_success_event"@);
            assert(c.nodes@[16].key() == "final_taren_missed_event"@);
            assert(c.nodes@[17].key() == "final_taren_invalid_event"@);
        } else if a == 15 {
            assert(c.nodes@[b].key() == c.nodes@[b].id@);
            assert(c.nodes@[18].key() == "final_taren_gate"@);
        } else if a == 16 {
            assert(c.nodes@[b].key() == c.nodes@[b].id@);
            assert(c.nodes@[26].key() == "ending_civil_war"@);
        } else if a == 17 {
            assert(c.nodes@[b].key() == c.nodes@[b].id@);
            assert(c.nodes@[26].key() == "ending_civil_war"@);
        } else if a == 18 {
            assert(c.nodes@[b].key() == c.nodes@[b].id@);
            assert(c.nodes@[24].key() == "ending_trade_detente"@);
            assert(c.nodes@[25].key() == "ending_managed_emergency_rule"@);
        } else if a == 19 {
            assert(c.nodes@[b].key() == c.nodes@[b].id@);
            assert(c.nodes@[20].key() == "final_oren_success_event"@);
            assert(c.nodes@[21].key() == "final_oren_missed_event"@);
            assert(c.nodes@[22].key() == "final_oren_invalid_event"@);
        } else if a == 20 {
            assert(c.nodes@[b].key() == c.nodes@[b].id@);
            assert(c.nodes@[23].key() == "final_oren_gate"@);
        } else if a == 21 {
            assert(c.nodes@[b].key() == c.nodes@[b].id@);
            assert(c.nodes@[26].key() == "ending_civil_war"@);
        } else if a == 22 {
            assert(c.nodes@[b].key() == c.nodes@[b].id@);
            assert(c.nodes@[26].key() == "ending_civil_war"@);
        } else if a == 23 {
            assert(c.nodes@[b].key() == c.nodes@[b].id@);
            assert(c.nodes@[25].key() == "ending_managed_emergency_rule"@);
            assert(c.nodes@[26].key() == "ending_civil_war"@);
        } else if a == 24 {
            assert(c.nodes@[b].key() == c.nodes@[b].id@);
        } else if a == 25 {
            assert(c.nodes@[b].key() == c.nodes@[b].id@);
        } else if a == 26 {
            assert(c.nodes@[b].key() == c.nodes@[b].id@);
        }
    }
    assert forall|w: int| 0 <= w < 27 && w != 0 implies 0 <= #[trigger] parent(w) < 27 && rank(parent(w)) < rank(w) && story_edge(c, parent(w), w) by {
        if w == 1 {
            assert(node_targets(c.story_events@, c.nodes@[0])[0] == c.nodes@[1].id@);
        } else if w == 2 {
            assert(node_targets(c.story_events@, c.nodes@[1])[0] == c.nodes@[2].id@);
        } else if w == 3 {
            assert(node_targets(c.story_events@, c.nodes@[1])[1] == c.nodes@[3].id@);
        } else if w == 4 {
            assert(node_targets(c.story_events@, c.nodes@[1])[2] == c.nodes@[4].id@);
        } else if w == 5 {
            assert(node_targets(c.story_events@, c.nodes@[4])[0] == c.nodes@[5].id@);
        } else if w == 6 {
            assert(node_targets(c.story_events@, c.nodes@[5])[0] == c.nodes@[6].id@);
        } else if w == 7 {
            assert(node_targets(c.story_events@, c.nodes@[5])[1] == c.nodes@[7].id@);
        } else if w == 8 {
            assert(node_targets(c.story_events@, c.nodes@[5])[2] == c.nodes@[8].id@);
        } else if w == 9 {
            assert(node_targets(c.story_events@, c.nodes@[8])[0] == c.nodes@[9].id@);
        } else if w == 10 {
            assert(node_targets(c.story_events@, c.nodes@[9])[0] == c.nodes@[10].id@);
        } else if w == 11 {
            assert(node_targets(c.story_events@, c.nodes@[9])[1] == c.nodes@[11].id@);
        } else if w == 12 {
            assert(node_targets(c.story_events@, c.nodes@[9])[2] == c.nodes@[12].id@);
        } else if w == 13 {
            assert(node_targets(c.story_events@, c.nodes@[12])[0] == c.nodes@[13].id@);
        } else if w == 14 {
            assert(node_targets(c.story_events@, c.nodes@[13])[0] == c.nodes@[14].id@);
        } else if w == 15 {
            assert(node_targets(c.story_events@, c.nodes@[14])[0] == c.nodes@[15].id@);
        } else if w == 16 {
            assert(node_targets(c.story_events@, c.nodes@[14])[1] == c.nodes@[16].id@);
        } else if w == 17 {
            assert(node_targets(c.story_events@, c.nodes@[14])[2] == c.nodes@[17].id@);
        } else if w == 18 {
            assert(node_targets(c.story_events@, c.nodes@[15])[0] == c.nodes@[18].id@);
        } else if w == 19 {
            assert(node_targets(c.story_events@, c.nodes@[13])[1] == c.nodes@[19].id@);
        } else if w == 20 {
            assert(node_targets(c.story_events@, c.nodes@[19])[0] == c.nodes@[20].id@);
        } else if w == 21 {
            assert(node_targets(c.story_events@, c.nodes@[19])[1] == c.nodes@[21].id@);
        } else if w == 22 {
            assert(node_targets(c.story_events@, c.nodes@[19])[2] == c.nodes@[22].id@);
        } else if w == 23 {
            assert(node_targets(c.story_events@, c.nodes@[20])[0] == c.nodes@[23].id@);
        } else if w == 24 {
            assert(node_targets(c.story_events@, c.nodes@[18])[0] == c.nodes@[24].id@);
        } else if w == 25 {
            assert(node_targets(c.story_events@, c.nodes@[23])[0] == c.nodes@[25].id@);
        } else if w == 26 {
            assert(node_targets(c.story_events@, c.nodes@[13])[2] == c.nodes@[26].id@);
        }
    }
    lemma_ranked_edges_acyclic(c, rank);
    assert forall|v: int| 0 <= v < 27 implies #[trigger] story_reaches(c, start_position(c), v) && !story_cycle(c, v) by {
        lemma_parents_reach(c, 0, rank, parent, v);
    }
}

impl AuthoredContent {
    /// The four-shift campaign built on the demonstration cast.
    #[verifier::rlimit(80)]
    pub fn four_shift_demo() -> (content: Self)
        ensures
            is_four_shift_demo_content(content),
            content_valid(content),
            graph_sound(content),
    {
        let mut content = Self::demo();
        proof {
            reveal_strlit("taren_kesh");
            reveal_strlit("vira_dhal");
            reveal_strlit("leyla_varan");
            reveal_strlit("oren_vey");
            let ks = keys_of(content.subscribers@);
            assert(ks.len() == 4);
            assert(ks[0] == content.subscribers@[0].key());
            assert(ks[1] == content.subscribers@[1].key());
            assert(ks[2] == content.subscribers@[2].key());
            assert(ks[3] == content.subscribers@[3].key());
            assert("taren_kesh"@[0] != "leyla_varan"@[0]);
            assert("vira_dhal"@[0] != "leyla_varan"@[0]);
            assert("taren_kesh"@[0] != "oren_vey"@[0]);
            assert("vira_dhal"@[0] != "oren_vey"@[0]);
            assert("leyla_varan"@[0] != "oren_vey"@[0]);
            reveal_strlit("leya_varan");
            assert("leya_varan"@[0] != "oren_vey"@[0]);
        }
        match position_by_key(content.subscribers.as_slice(), "leyla_varan") {
            Some(i) => {
                assert(i == 2);
                content.subscribers.set(i, subscriber("leya_varan", "Dr. Leya Varan"));
            },
            None => { assert(content.subscribers@[2].key() == "leyla_varan"@); },
        }
        match position_by_key(content.subscribers.as_slice(), "oren_vey") {
            Some(i) => {
                assert(i == 3);
                content.subscribers.set(i, subscriber("oren_vey", "Captain Oren Vey"));
            },
            None => { assert(content.subscribers@[3].key() == "oren_vey"@); },
        }
        let ghost demo_listings = content.line_listings@;
        content.line_listings = rename_in_listings(content.line_listings, "leyla_varan", "leya_varan");
        content.subscribers.push(subscriber("neri_tal", "Neri Tal"));
        content.line_listings.push(listing("signal_box", 4, one_text("neri_tal")));
        content.call_premises = vec![
            premise("relief_train_request", "taren_kesh", "vira_dhal", "railway_dispatch_office", "factory_records_office", vec![1u16, 2u16]),
            premise("parent_collapse_request", "leya_varan", "oren_vey", "clinic", "border_post", vec![4u16]),
            premise("signal_intercept_request", "neri_tal", "vira_dhal", "signal_box", "factory_records_office", vec![2u16]),
            premise("factory_response_request", "vira_dhal", "taren_kesh", "factory_records_office", "railway_dispatch_office", vec![1u16]),
            premise("final_taren_request", "taren_kesh", "vira_dhal", "railway_dispatch_office", "factory_records_office", vec![2u16]),
            premise("final_oren_request", "oren_vey", "vira_dhal", "border_post", "factory_records_office", vec![4u16]),
        ];
        content.story_beats = vec![
            story_beat("relief_train_7", "relief_train_request"),
            story_beat("parent_collapse", "parent_collapse_request"),
            story_beat("intercepted_signal", "signal_intercept_request"),
            story_beat("final_taren_routing", "final_taren_request"),
            story_beat("final_oren_routing", "final_oren_request"),
        ];
        let final_choice = StoryEvent {
            id: text("final_choice_event"),
            outcomes: vec![
                outcome("taren", "final_taren_call"),
                outcome("oren", "final_oren_call"),
                outcome("standoff", "ending_civil_war"),
            ],
        };
        content.story_events = vec![
            authored_event("relief_train_success", "shift_2_call"),
            authored_event("relief_train_missed", "shift_2_call"),
            authored_event("relief_train_invalid", "shift_2_call"),
            authored_event("parent_collapse_success", "shift_3_call"),
            authored_event("parent_collapse_missed", "shift_3_call"),
            authored_event("parent_collapse_invalid", "shift_3_call"),
            authored_event("intercepted_signal_success", "final_choice"),
            authored_event("intercepted_signal_missed", "final_choice"),
            authored_event("intercepted_signal_invalid", "final_choice"),
            final_choice,
            authored_event("final_taren_success", "final_taren_gate"),
            authored_event("final_taren_missed", "ending_civil_war"),
            authored_event("final_taren_invalid", "ending_civil_war"),
            authored_event("final_oren_success", "final_oren_gate"),
            authored_event("final_oren_missed", "ending_civil_war"),
            authored_event("final_oren_invalid", "ending_civil_war"),
        ];
        content.endings = vec![
            ending("trade_detente", "Trade Détente: Relief Train 7 crosses the Partition and the exchange keeps the corridor open."),
            ending("managed_emergency_rule", "Managed Emergency Rule: the emergency holds, but the Ministry keeps the exchange under emergency control."),
            ending("renewed_civil_war", "Renewed Civil War: the final exchange fails and the border stations return to open conflict."),
        ];
        content.nodes = vec![
            run_start("run_start", "shift_1_call"),
            shift_call_node("shift_1_call", "relief_train_7", "relief_train_success_event", "relief_train_missed_event", "relief_train_invalid_event"),
            event_node("relief_train_success_event", "relief_train_success"),
            event_node("relief_train_missed_event", "relief_train_missed"),
            event_node("relief_train_invalid_event", "relief_train_invalid"),
            shift_call_node("shift_2_call", "parent_collapse", "parent_collapse_success_event", "parent_collapse_missed_event", "parent_collapse_invalid_event"),
            event_node("parent_collapse_success_event", "parent_collapse_success"),
            event_node("parent_collapse_missed_event", "parent_collapse_missed"),
            event_node("parent_collapse_invalid_event", "parent_collapse_invalid"),
            shift_call_node("shift_3_call", "intercepted_signal", "intercepted_signal_success_event", "intercepted_signal_missed_event", "intercepted_signal_invalid_event"),
            event_node("intercepted_signal_success_event", "intercepted_signal_success"),
            event_node("intercepted_signal_missed_event", "intercepted_signal_missed"),
            event_node("intercepted_signal_invalid_event", "intercepted_signal_invalid"),
            story_event_node("final_choice", "final_choice_event", "taren"),
            shift_call_node("final_taren_call", "final_taren_routing", "final_taren_success_event", "final_taren_missed_event", "final_taren_invalid_event"),
            event_node("final_taren_success_event", "final_taren_success"),
            event_node("final_taren_missed_event", "final_taren_missed"),
            event_node("final_taren_invalid_event", "final_taren_invalid"),
            conditional_node("final_taren_gate", 0, "ending_trade_detente", "ending_managed_emergency_rule"),
            shift_call_node("final_oren_call", "final_oren_routing", "final_oren_success_event", "final_oren_missed_event", "final_oren_invalid_event"),
            event_node("final_oren_success_event", "final_oren_success"),
            event_node("final_oren_missed_event", "final_oren_missed"),
            event_node("final_oren_invalid_event", "final_oren_invalid"),
            conditional_node("final_oren_gate", 0, "ending_managed_emergency_rule", "ending_civil_war"),
            ending_node("ending_trade_detente", "trade_detente"),
            ending_node("ending_managed_emergency_rule", "managed_emergency_rule"),
            ending_node("ending_civil_war", "renewed_civil_war"),
        ];
        content.start_node_id = text("run_start");
        assert(content.call_premises@[0].directory_ids@ =~= seq![1u16, 2u16]);
        assert(content.call_premises@[1].directory_ids@ =~= seq![4u16]);
        assert(content.call_premises@[2].directory_ids@ =~= seq![2u16]);
        assert(content.call_premises@[3].directory_ids@ =~= seq![1u16]);
        assert(content.call_premises@[4].directory_ids@ =~= seq![2u16]);
        assert(content.call_premises@[5].directory_ids@ =~= seq![4u16]);
        proof {
            assert(outcome_pairs(content.story_events@[9].outcomes@) =~= seq![("taren"@, "final_taren_call"@), ("oren"@, "final_oren_call"@), ("standoff"@, "ending_civil_war"@)]);
            assert(subscriber_is(content.subscribers@[0], "taren_kesh"@, "Taren Kesh"@));
            assert(subscriber_is(content.subscribers@[1], "vira_dhal"@, "Vira Dhal"@));
            reveal_strlit("railway_dispatch_office");
            assert(texts(demo_listings[0].subscriber_ids@) == seq!["taren_kesh"@]);
            assert(renamed_ids(seq!["taren_kesh"@], "leyla_varan"@, "leya_varan"@) =~= seq!["taren_kesh"@]);
            assert(content.line_listings@[0].id@ == demo_listings[0].id@);
            assert(texts(demo_listings[1].subscriber_ids@) == seq!["vira_dhal"@]);
            assert(renamed_ids(seq!["vira_dhal"@], "leyla_varan"@, "leya_varan"@) =~= seq!["vira_dhal"@]);
            assert(content.line_listings@[1].id@ == demo_listings[1].id@);
            assert(texts(demo_listings[2].subscriber_ids@) == seq!["leyla_varan"@]);
            assert(renamed_ids(seq!["leyla_varan"@], "leyla_varan"@, "leya_varan"@) =~= seq!["leya_varan"@]);
            assert(content.line_listings@[2].id@ == demo_listings[2].id@);
            assert(texts(demo_listings[3].subscriber_ids@) == seq!["oren_vey"@]);
            assert(renamed_ids(seq!["oren_vey"@], "leyla_varan"@, "leya_varan"@) =~= seq!["oren_vey"@]);
            assert(content.line_listings@[3].id@ == demo_listings[3].id@);
            assert(is_four_shift_demo_content(content));
            lemma_four_shift_demo_compiles(content);
        }
        assert(keys_of(content.subscribers@) =~= seq!["taren_kesh"@, "vira_dhal"@, "leya_varan"@, "oren_vey"@, "neri_tal"@]);
        assert(names_of(content.subscribers@) =~= seq!["Taren Kesh"@, "Vira Dhal"@, "Dr. Leya Varan"@, "Captain Oren Vey"@, "Neri Tal"@]);
        assert(keys_of(demo_listings).len() == 4);
        assert forall|m: int| 0 <= m < 4 implies keys_of(content.line_listings@)[m] == #[trigger] keys_of(demo_listings)[m] by {
            assert(content.line_listings@[m].id@ == demo_listings[m].id@);
        }
        assert(keys_of(content.line_listings@) =~= seq!["railway_dispatch_office"@, "factory_records_office"@, "clinic"@, "border_post"@, "signal_box"@]);
        assert(keys_of(content.call_premises@) =~= seq!["relief_train_request"@, "parent_collapse_request"@, "signal_intercept_request"@,
                "factory_response_request"@, "final_taren_request"@, "final_oren_request"@]);
        assert(keys_of(content.story_beats@) =~= seq!["relief_train_7"@, "parent_collapse"@, "intercepted_signal"@,
                "final_taren_routing"@, "final_oren_routing"@]);
        assert(keys_of(content.story_events@) =~= seq!["relief_train_success"@, "relief_train_missed"@, "relief_train_invalid"@,
                "parent_collapse_success"@, "parent_collapse_missed"@, "parent_collapse_invalid"@,
                "intercepted_signal_success"@, "intercepted_signal_missed"@, "intercepted_signal_invalid"@,
                "final_choice_event"@, "final_taren_success"@, "final_taren_missed"@, "final_taren_invalid"@,
                "final_oren_success"@, "final_oren_missed"@, "final_oren_invalid"@]);
        assert(keys_of(content.endings@) =~= seq!["trade_detente"@, "managed_emergency_rule"@, "renewed_civil_war"@]);
        assert(keys_of(content.nodes@) =~= seq!["run_start"@, "shift_1_call"@, "relief_train_success_event"@,
                "relief_train_missed_event"@, "relief_train_invalid_event"@, "shift_2_call"@,
                "parent_collapse_success_event"@, "parent_collapse_missed_event"@, "parent_collapse_invalid_event"@,
                "shift_3_call"@, "intercepted_signal_success_event"@, "intercepted_signal_missed_event"@,
                "intercepted_signal_invalid_event"@, "final_choice"@, "final_taren_call"@,
                "final_taren_success_event"@, "final_taren_missed_event"@, "final_taren_invalid_event"@,
                "final_taren_gate"@, "final_oren_call"@, "final_oren_success_event"@, "final_oren_missed_event"@,
                "final_oren_invalid_event"@, "final_oren_gate"@, "ending_trade_detente"@,
                "ending_managed_emergency_rule"@, "ending_civil_war"@]);
        content
    }
}

/// The identifier of the `n`-th live cabinet line listing.
pub open spec fn cabinet_line_id(n: nat) -> Seq<char> {
    "line_"@ + decimal(n)
}

/// The cabinet hardware demonstration, record by record.
pub open spec fn is_hardware_demo_content(c: AuthoredContent) -> bool {
    &&& c.subscribers@.len() == 5
    &&& subscriber_is(c.subscribers@[0], "taren_kesh"@, "Taren Kesh"@)
    &&& subscriber_is(c.subscribers@[1], "vira_dhal"@, "Vira Dhal"@)
    &&& subscriber_is(c.subscribers@[2], "leya_varan"@, "Dr. Leya Varan"@)
    &&& subscriber_is(c.subscribers@[3], "oren_vey"@, "Captain Oren Vey"@)
    &&& subscriber_is(c.subscribers@[4], "neri_tal"@, "Neri Tal"@)
    &&& c.line_listings@.len() == 5
    &&& listing_is(c.line_listings@[0], "railway_dispatch_office"@, 0, seq!["taren_kesh"@])
    &&& listing_is(c.line_listings@[1], "factory_records_office"@, 1, seq!["vira_dhal"@])
    &&& listing_is(c.line_listings@[2], "clinic"@, 2, seq!["leya_varan"@])
    &&& listing_is(c.line_listings@[3], "border_post"@, 3, seq!["oren_vey"@])
    &&& listing_is(c.line_listings@[4], "signal_box"@, 4, seq!["neri_tal"@])
    &&& c.call_premises@.len() == 3
    &&& premise_is(c.call_premises@[0], "hardware_training_request"@, "taren_kesh"@, "vira_dhal"@, "railway_dispatch_office"@, "factory_records_office"@, seq![2u16])
    &&& premise_is(c.call_premises@[1], "hardware_interference_request"@, "neri_tal"@, "vira_dhal"@, "signal_box"@, "factory_records_office"@, seq![2u16])
    &&& premise_is(c.call_premises@[2], "hardware_tap_request"@, "leya_varan"@, "oren_vey"@, "clinic"@, "border_post"@, seq![4u16])
    &&& c.story_beats@.len() == 3
    &&& beat_is(c.story_beats@[0], "hardware_training"@, "hardware_training_request"@)
    &&& beat_is(c.story_beats@[1], "hardware_interference"@, "hardware_interference_request"@)
    &&& beat_is(c.story_beats@[2], "hardware_tap"@, "hardware_tap_request"@)
    &&& c.story_events@.len() == 9
    &&& event_is(c.story_events@[0], "hardware_training_success"@, seq![("default"@, "hardware_demo_interference_call"@)])
    &&& event_is(c.story_events@[1], "hardware_training_missed"@, seq![("default"@, "hardware_demo_missed_ending"@)])
    &&& event_is(c.story_events@[2], "hardware_training_invalid"@, seq![("default"@, "hardware_demo_invalid_ending"@)])
    &&& event_is(c.story_events@[3], "hardware_interference_success"@, seq![("default"@, "hardware_demo_tap_call"@)])
    &&& event_is(c.story_events@[4], "hardware_interference_missed"@, seq![("default"@, "hardware_demo_missed_ending"@)])
    &&& event_is(c.story_events@[5], "hardware_interference_invalid"@, seq![("default"@, "hardware_demo_invalid_ending"@)])
    &&& event_is(c.story_events@[6], "hardware_tap_success"@, seq![("default"@, "hardware_demo_success_ending"@)])
    &&& event_is(c.story_events@[7], "hardware_tap_missed"@, seq![("default"@, "hardware_demo_missed_ending"@)])
    &&& event_is(c.story_events@[8], "hardware_tap_invalid"@, seq![("default"@, "hardware_demo_invalid_ending"@)])
    &&& c.endings@.len() == 3
    &&& ending_is(c.endings@[0], "hardware_demo_complete"@, "The Cabinet routing demonstration completed successfully."@)
    &&& ending_is(c.endings@[1], "hardware_demo_missed"@, "The Caller waited, but the Cabinet demonstration missed the Call."@)
    &&& ending_is(c.endings@[2], "hardware_demo_invalid"@, "The Cabinet demonstration recorded an invalid Routing."@)
    &&& c.nodes@.len() == 16
    &&& run_start_is(c.nodes@[0], "run_start"@, "hardware_demo_call"@)
    &&& shift_call_is(c.nodes@[1], "hardware_demo_call"@, "hardware_training"@, "hardware_training_success_event"@, "hardware_training_missed_event"@, "hardware_training_invalid_event"@)
    &&& event_node_is(c.nodes@[2], "hardware_training_success_event"@, "hardware_training_success"@, "default"@)
    &&& event_node_is(c.nodes@[3], "hardware_training_missed_event"@, "hardware_training_missed"@, "default"@)
    &&& event_node_is(c.nodes@[4], "hardware_training_invalid_event"@, "hardware_training_invalid"@, "default"@)
    &&& shift_call_is(c.nodes@[5], "hardware_demo_interference_call"@, "hardware_interference"@, "hardware_interference_success_event"@, "hardware_interference_missed_event"@, "hardware_interference_invalid_event"@)
    &&& event_node_is(c.nodes@[6], "hardware_interference_success_event"@, "hardware_interference_success"@, "default"@)
    &&& event_node_is(c.nodes@[7], "hardware_interference_missed_event"@, "hardware_interference_missed"@, "default"@)
    &&& event_node_is(c.nodes@[8], "hardware_interference_invalid_event"@, "hardware_interference_invalid"@, "default"@)
    &&& shift_call_is(c.nodes@[9], "hardware_demo_tap_call"@, "hardware_tap"@, "hardware_tap_success_event"@, "hardware_tap_missed_event"@, "hardware_tap_invalid_event"@)
    &&& event_node_is(c.nodes@[10], "hardware_tap_success_event"@, "hardware_tap_success"@, "default"@)
    &&& event_node_is(c.nodes@[11], "hardware_tap_missed_event"@, "hardware_tap_missed"@, "default"@)
    &&& event_node_is(c.nodes@[12], "hardware_tap_invalid_event"@, "hardware_tap_invalid"@, "default"@)
    &&& ending_node_is(c.nodes@[13], "hardware_demo_success_ending"@, "hardware_demo_complete"@)
    &&& ending_node_is(c.nodes@[14], "hardware_demo_missed_ending"@, "hardware_demo_missed"@)
    &&& ending_node_is(c.nodes@[15], "hardware_demo_invalid_ending"@, "hardware_demo_invalid"@)
    &&& c.start_node_id@ == "run_start"@
}

/// The hardware demo content passes validation and its graph is sound.
#[verifier::rlimit(80)]
#[verifier::spinoff_prover]
proof fn lemma_hardware_demo_compiles(c: AuthoredContent)
    requires
        is_hardware_demo_content(c),
    ensures
        content_valid(c),
        graph_sound(c),
{
    reveal_strlit("Captain Oren Vey");
    reveal_strlit("Dr. Leya Varan");
    reveal_strlit("Neri Tal");
    reveal_strlit("Taren Kesh");
    reveal_strlit("The Cabinet demonstration recorded an invalid Routing.");
    reveal_strlit("The Cabinet routing demonstration completed successfully.");
    reveal_strlit("The Caller waited, but the Cabinet demonstration missed the Call.");
    reveal_strlit("Vira Dhal");
    reveal_strlit("border_post");
    reveal_strlit("clinic");
    reveal_strlit("default");
    reveal_strlit("factory_records_office");
    reveal_strlit("hardware_demo_call");
    reveal_strlit("hardware_demo_complete");
    reveal_strlit("hardware_demo_interference_call");
    reveal_strlit("hardware_demo_invalid");
    reveal_strlit("hardware_demo_invalid_ending");
    reveal_strlit("hardware_demo_missed");
    reveal_strlit("hardware_demo_missed_ending");
    reveal_strlit("hardware_demo_success_ending");
    reveal_strlit("hardware_demo_tap_call");
    reveal_strlit("hardware_interference");
    reveal_strlit("hardware_interference_invalid");
    reveal_strlit("hardware_interference_invalid_event");
    reveal_strlit("hardware_interference_missed");
    reveal_strlit("hardware_interference_missed_event");
    reveal_strlit("hardware_interference_request");
    reveal_strlit("hardware_interference_success");
    reveal_strlit("hardware_interference_success_event");
    reveal_strlit("hardware_tap");
    reveal_strlit("hardware_tap_invalid");
    reveal_strlit("hardware_tap_invalid_event");
    reveal_strlit("hardware_tap_missed");
    reveal_strlit("hardware_tap_missed_event");
    reveal_strlit("hardware_tap_request");
    reveal_strlit("hardware_tap_success");
    reveal_strlit("hardware_tap_success_event");
    reveal_strlit("hardware_training");
    reveal_strlit("hardware_training_invalid");
    reveal_strlit("hardware_training_invalid_event");
    reveal_strlit("hardware_training_missed");
    reveal_strlit("hardware_training_missed_event");
    reveal_strlit("hardware_training_request");
    reveal_strlit("hardware_training_success");
    reveal_strlit("hardware_training_success_event");
    reveal_strlit("leya_varan");
    reveal_strlit("neri_tal");
    reveal_strlit("oren_vey");
    reveal_strlit("railway_dispatch_office");
    reveal_strlit("run_start");
    reveal_strlit("signal_box");
    reveal_strlit("taren_kesh");
    reveal_strlit("vira_dhal");
    assert(ids_ok(c.subscribers@)) by {
        assert forall|i: int| 0 <= i < 5 implies !is_blank((#[trigger] c.subscribers@[i]).key()) by {
            if i == 0 {
                assert(!is_white_space(c.subscribers@[0].key()[0]));
            } else if i == 1 {
                assert(!is_white_space(c.subscribers@[1].key()[0]));
            } else if i == 2 {
                assert(!is_white_space(c.subscribers@[2].key()[0]));
            } else if i == 3 {
                assert(!is_white_space(c.subscribers@[3].key()[0]));
            } else if i == 4 {
                assert(!is_white_space(c.subscribers@[4].key()[0]));
            }
        }
        assert forall|i: int, j: int| 0 <= i < j < 5 implies (#[trigger] c.subscribers@[i]).key() != (#[trigger] c.subscribers@[j]).key() by {
            if i == 0 && j == 1 {
                assert(c.subscribers@[0].key().len() != c.subscribers@[1].key().len());
            } else if i == 0 && j == 2 {
                assert(c.subscribers@[0].key()[0] != c.subscribers@[2].key()[0]);
            } else if i == 0 && j == 3 {
                assert(c.subscribers@[0].key().len() != c.subscribers@[3].key().len());
            } else if i == 0 && j == 4 {
                assert(c.subscribers@[0].key().len() != c.subscribers@[4].key().len());
            } else if i == 1 && j == 2 {
                assert(c.subscribers@[1].key().len() != c.subscribers@[2].key().len());
            } else if i == 1 && j == 3 {
                assert(c.subscribers@[1].key().len() != c.subscribers@[3].key().len());
            } else if i == 1 && j == 4 {
                assert(c.subscribers@[1].key().len() != c.subscribers@[4].key().len());
            } else if i == 2 && j == 3 {
                assert(c.subscribers@[2].key().len() != c.subscribers@[3].key().len());
            } else if i == 2 && j == 4 {
                assert(c.subscribers@[2].key().len() != c.subscribers@[4].key().len());
            } else if i == 3 && j == 4 {
                assert(c.subscribers@[3].key()[0] != c.subscribers@[4].key()[0]);
            }
        }
    }
    assert(ids_ok(c.line_listings@)) by {
        assert forall|i: int| 0 <= i < 5 implies !is_blank((#[trigger] c.line_listings@[i]).key()) by {
            if i == 0 {
                assert(!is_white_space(c.line_listings@[0].key()[0]));
            } else if i == 1 {
                assert(!is_white_space(c.line_listings@[1].key()[0]));
            } else if i == 2 {
                assert(!is_white_space(c.line_listings@[2].key()[0]));
            } else if i == 3 {
                assert(!is_white_space(c.line_listings@[3].key()[0]));
            } else if i == 4 {
                assert(!is_white_space(c.line_listings@[4].key()[0]));
            }
        }
        assert forall|i: int, j: int| 0 <= i < j < 5 implies (#[trigger] c.line_listings@[i]).key() != (#[trigger] c.line_listings@[j]).key() by {
            if i == 0 && j == 1 {
                assert(c.line_listings@[0].key().len() != c.line_listings@[1].key().len());
            } else if i == 0 && j == 2 {
                assert(c.line_listings@[0].key().len() != c.line_listings@[2].key().len());
            } else if i == 0 && j == 3 {
                assert(c.line_listings@[0].key().len() != c.line_listings@[3].key().len());
            } else if i == 0 && j == 4 {
                assert(c.line_listings@[0].key().len() != c.line_listings@[4].key().len());
            } else if i == 1 && j == 2 {
                assert(c.line_listings@[1].key().len() != c.line_listings@[2].key().len());
            } else if i == 1 && j == 3 {
                assert(c.line_listings@[1].key().len() != c.line_listings@[3].key().len());
            } else if i == 1 && j == 4 {
                assert(c.line_listings@[1].key().len() != c.line_listings@[4].key().len());
            } else if i == 2 && j == 3 {
                assert(c.line_listings@[2].key().len() != c.line_listings@[3].key().len());
            } else if i == 2 && j == 4 {
                assert(c.line_listings@[2].key().len() != c.line_listings@[4].key().len());
            } else if i == 3 && j == 4 {
                assert(c.line_listings@[3].key().len() != c.line_listings@[4].key().len());
            }
        }
    }
    assert(ids_ok(c.call_premises@)) by {
        assert forall|i: int| 0 <= i < 3 implies !is_blank((#[trigger] c.call_premises@[i]).key()) by {
            if i == 0 {
                assert(!is_white_space(c.call_premises@[0].key()[0]));
            } else if i == 1 {
                assert(!is_white_space(c.call_premises@[1].key()[0]));
            } else if i == 2 {
                assert(!is_white_space(c.call_premises@[2].key()[0]));
            }
        }
        assert forall|i: int, j: int| 0 <= i < j < 3 implies (#[trigger] c.call_premises@[i]).key() != (#[trigger] c.call_premises@[j]).key() by {
            if i == 0 && j == 1 {
                assert(c.call_premises@[0].key().len() != c.call_premises@[1].key().len());
            } else if i == 0 && j == 2 {
                assert(c.call_premises@[0].key().len() != c.call_premises@[2].key().len());
            } else if i == 1 && j == 2 {
                assert(c.call_premises@[1].key().len() != c.call_premises@[2].key().len());
            }
        }
    }
    assert(ids_ok(c.story_beats@)) by {
        assert forall|i: int| 0 <= i < 3 implies !is_blank((#[trigger] c.story_beats@[i]).key()) by {
            if i == 0 {
                assert(!is_white_space(c.story_beats@[0].key()[0]));
            } else if i == 1 {
                assert(!is_white_space(c.story_beats@[1].key()[0]));
            } else if i == 2 {
                assert(!is_white_space(c.story_beats@[2].key()[0]));
            }
        }
        assert forall|i: int, j: int| 0 <= i < j < 3 implies (#[trigger] c.story_beats@[i]).key() != (#[trigger] c.story_beats@[j]).key() by {
            if i == 0 && j == 1 {
                assert(c.story_beats@[0].key().len() != c.story_beats@[1].key().len());
            } else if i == 0 && j == 2 {
                assert(c.story_beats@[0].key().len() != c.story_beats@[2].key().len());
            } else if i == 1 && j == 2 {
                assert(c.story_beats@[1].key().len() != c.story_beats@[2].key().len());
            }
        }
    }
    assert(ids_ok(c.story_events@)) by {
        assert forall|i: int| 0 <= i < 9 implies !is_blank((#[trigger] c.story_events@[i]).key()) by {
            if i == 0 {
                assert(!is_white_space(c.story_events@[0].key()[0]));
            } else if i == 1 {
                assert(!is_white_space(c.story_events@[1].key()[0]));
            } else if i == 2 {
                assert(!is_white_space(c.story_events@[2].key()[0]));
            } else if i == 3 {
                assert(!is_white_space(c.story_events@[3].key()[0]));
            } else if i == 4 {
                assert(!is_white_space(c.story_events@[4].key()[0]));
            } else if i == 5 {
                assert(!is_white_space(c.story_events@[5].key()[0]));
            } else if i == 6 {
                assert(!is_white_space(c.story_events@[6].key()[0]));
            } else if i == 7 {
                assert(!is_white_space(c.story_events@[7].key()[0]));
            } else if i == 8 {
                assert(!is_white_space(c.story_events@[8].key()[0]));
            }
        }
        assert forall|i: int, j: int| 0 <= i < j < 9 implies (#[trigger] c.story_events@[i]).key() != (#[trigger] c.story_events@[j]).key() by {
            if i == 0 && j == 1 {
                assert(c.story_events@[0].key().len() != c.story_events@[1].key().len());
            } else if i == 0 && j == 2 {
                assert(c.story_events@[0].key()[18] != c.story_events@[2].key()[18]);
            } else if i == 0 && j == 3 {
                assert(c.story_events@[0].key().len() != c.story_events@[3].key().len());
            } else if i == 0 && j == 4 {
                assert(c.story_events@[0].key().len() != c.story_events@[4].key().len());
            } else if i == 0 && j == 5 {
                assert(c.story_events@[0].key().len() != c.story_events@[5].key().len());
            } else if i == 0 && j == 6 {
                assert(c.story_events@[0].key().len() != c.story_events@[6].key().len());
            } else if i == 0 && j == 7 {
                assert(c.story_events@[0].key().len() != c.story_events@[7].key().len());
            } else if i == 0 && j == 8 {
                assert(c.story_events@[0].key().len() != c.story_events@[8].key().len());
            } else if i == 1 && j == 2 {
                assert(c.story_events@[1].key().len() != c.story_events@[2].key().len());
            } else if i == 1 && j == 3 {
                assert(c.story_events@[1].key().len() != c.story_events@[3].key().len());
            } else if i == 1 && j == 4 {
                assert(c.story_events@[1].key().len() != c.story_events@[4].key().len());
            } else if i == 1 && j == 5 {
                assert(c.story_events@[1].key().len() != c.story_events@[5].key().len());
            } else if i == 1 && j == 6 {
                assert(c.story_events@[1].key().len() != c.story_events@[6].key().len());
            } else if i == 1 && j == 7 {
                assert(c.story_events@[1].key().len() != c.story_events@[7].key().len());
            } else if i == 1 && j == 8 {
                assert(c.story_events@[1].key().len() != c.story_events@[8].key().len());
            } else if i == 2 && j == 3 {
                assert(c.story_events@[2].key().len() != c.story_events@[3].key().len());
            } else if i == 2 && j == 4 {
                assert(c.story_events@[2].key().len() != c.story_events@[4].key().len());
            } else if i == 2 && j == 5 {
                assert(c.story_events@[2].key().len() != c.story_events@[5].key().len());
            } else if i == 2 && j == 6 {
                assert(c.story_events@[2].key().len() != c.story_events@[6].key().len());
            } else if i == 2 && j == 7 {
                assert(c.story_events@[2].key().len() != c.story_events@[7].key().len());
            } else if i == 2 && j == 8 {
                assert(c.story_events@[2].key().len() != c.story_events@[8].key().len());
            } else if i == 3 && j == 4 {
                assert(c.story_events@[3].key().len() != c.story_events@[4].key().len());
            } else if i == 3 && j == 5 {
                assert(c.story_events@[3].key()[22] != c.story_events@[5].key()[22]);
            } else if i == 3 && j == 6 {
                assert(c.story_events@[3].key().len() != c.story_events@[6].key().len());
            } else if i == 3 && j == 7 {
                assert(c.story_events@[3].key().len() != c.story_events@[7].key().len());
            } else if i == 3 && j == 8 {
                assert(c.story_events@[3].key().len() != c.story_events@[8].key().len());
            } else if i == 4 && j == 5 {
                assert(c.story_events@[4].key().len() != c.story_events@[5].key().len());
            } else if i == 4 && j == 6 {
                assert(c.story_events@[4].key().len() != c.story_events@[6].key().len());
            } else if i == 4 && j == 7 {
                assert(c.story_events@[4].key().len() != c.story_events@[7].key().len());
            } else if i == 4 && j == 8 {
                assert(c.story_events@[4].key().len() != c.story_events@[8].key().len());
            } else if i == 5 && j == 6 {
                assert(c.story_events@[5].key().len() != c.story_events@[6].key().len());
            } else if i == 5 && j == 7 {
                assert(c.story_events@[5].key().len() != c.story_events@[7].key().len());
            } else if i == 5 && j == 8 {
                assert(c.story_events@[5].key().len() != c.story_events@[8].key().len());
            } else if i == 6 && j == 7 {
                assert(c.story_events@[6].key().len() != c.story_events@[7].key().len());
            } else if i == 6 && j == 8 {
                assert(c.story_events@[6].key()[13] != c.story_events@[8].key()[13]);
            } else if i == 7 && j == 8 {
                assert(c.story_events@[7].key().len() != c.story_events@[8].key().len());
            }
        }
    }
    assert(ids_ok(c.endings@)) by {
        assert forall|i: int| 0 <= i < 3 implies !is_blank((#[trigger] c.endings@[i]).key()) by {
            if i == 0 {
                assert(!is_white_space(c.endings@[0].key()[0]));
            } else if i == 1 {
                assert(!is_white_space(c.endings@[1].key()[0]));
            } else if i == 2 {
                assert(!is_white_space(c.endings@[2].key()[0]));
            }
        }
        assert forall|i: int, j: int| 0 <= i < j < 3 implies (#[trigger] c.endings@[i]).key() != (#[trigger] c.endings@[j]).key() by {
            if i == 0 && j == 1 {
                assert(c.endings@[0].key().len() != c.endings@[1].key().len());
            } else if i == 0 && j == 2 {
                assert(c.endings@[0].key().len() != c.endings@[2].key().len());
            } else if i == 1 && j == 2 {
                assert(c.endings@[1].key().len() != c.endings@[2].key().len());
            }
        }
    }
    assert(ids_ok(c.nodes@)) by {
        assert forall|i: int| 0 <= i < 16 implies !is_blank((#[trigger] c.nodes@[i]).key()) by {
            if i == 0 {
                assert(!is_white_space(c.nodes@[0].key()[0]));
            } else if i == 1 {
                assert(!is_white_space(c.nodes@[1].key()[0]));
            } else if i == 2 {
                assert(!is_white_space(c.nodes@[2].key()[0]));
            } else if i == 3 {
                assert(!is_white_space(c.nodes@[3].key()[0]));
            } else if i == 4 {
                assert(!is_white_space(c.nodes@[4].key()[0]));
            } else if i == 5 {
                assert(!is_white_space(c.nodes@[5].key()[0]));
            } else if i == 6 {
                assert(!is_white_space(c.nodes@[6].key()[0]));
            } else if i == 7 {
                assert(!is_white_space(c.nodes@[7].key()[0]));
            } else if i == 8 {
                assert(!is_white_space(c.nodes@[8].key()[0]));
            } else if i == 9 {
                assert(!is_white_space(c.nodes@[9].key()[0]));
            } else if i == 10 {
                assert(!is_white_space(c.nodes@[10].key()[0]));
            } else if i == 11 {
                assert(!is_white_space(c.nodes@[11].key()[0]));
            } else if i == 12 {
                assert(!is_white_space(c.nodes@[12].key()[0]));
            } else if i == 13 {
                assert(!is_white_space(c.nodes@[13].key()[0]));
            } else if i == 14 {
                assert(!is_white_space(c.nodes@[14].key()[0]));
            } else if i == 15 {
                assert(!is_white_space(c.nodes@[15].key()[0]));
            }
        }
        assert forall|i: int, j: int| 0 <= i < j < 16 implies (#[trigger] c.nodes@[i]).key() != (#[trigger] c.nodes@[j]).key() by {
            if i == 0 && j == 1 {
                assert(c.nodes@[0].key().len() != c.nodes@[1].key().len());
            } else if i == 0 && j == 2 {
                assert(c.nodes@[0].key().len() != c.nodes@[2].key().len());
            } else if i == 0 && j == 3 {
                assert(c.nodes@[0].key().len() != c.nodes@[3].key().len());
            } else if i == 0 && j == 4 {
                assert(c.nodes@[0].key().len() != c.nodes@[4].key().len());
            } else if i == 0 && j == 5 {
                assert(c.nodes@[0].key().len() != c.nodes@[5].key().len());
            } else if i == 0 && j == 6 {
                assert(c.nodes@[0].key().len() != c.nodes@[6].key().len());
            } else if i == 0 && j == 7 {
                assert(c.nodes@[0].key().len() != c.nodes@[7].key().len());
            } else if i == 0 && j == 8 {
                assert(c.nodes@[0].key().len() != c.nodes@[8].key().len());
            } else if i == 0 && j == 9 {
                assert(c.nodes@[0].key().len() != c.nodes@[9].key().len());
            } else if i == 0 && j == 10 {
                assert(c.nodes@[0].key().len() != c.nodes@[10].key().len());
            } else if i == 0 && j == 11 {
                assert(c.nodes@[0].key().len() != c.nodes@[11].key().len());
            } else if i == 0 && j == 12 {
                assert(c.nodes@[0].key().len() != c.nodes@[12].key().len());
            } else if i == 0 && j == 13 {
                assert(c.nodes@[0].key().len() != c.nodes@[13].key().len());
            } else if i == 0 && j == 14 {
                assert(c.nodes@[0].key().len() != c.nodes@[14].key().len());
            } else if i == 0 && j == 15 {
                assert(c.nodes@[0].key().len() != c.nodes@[15].key().len());
            } else if i == 1 && j == 2 {
                assert(c.nodes@[1].key().len() != c.nodes@[2].key().len());
            } else if i == 1 && j == 3 {
                assert(c.nodes@[1].key().len() != c.nodes@[3].key().len());
            } else if i == 1 && j == 4 {
                assert(c.nodes@[1].key().len() != c.nodes@[4].key().len());
            } else if i == 1 && j == 5 {
                assert(c.nodes@[1].key().len() != c.nodes@[5].key().len());
            } else if i == 1 && j == 6 {
                assert(c.nodes@[1].key().len() != c.nodes@[6].key().len());
            } else if i == 1 && j == 7 {
                assert(c.nodes@[1].key().len() != c.nodes@[7].key().len());
            } else if i == 1 && j == 8 {
                assert(c.nodes@[1].key().len() != c.nodes@[8].key().len());
            } else if i == 1 && j == 9 {
                assert(c.nodes@[1].key().len() != c.nodes@[9].key().len());
            } else if i == 1 && j == 10 {
                assert(c.nodes@[1].key().len() != c.nodes@[10].key().len());
            } else if i == 1 && j == 11 {
                assert(c.nodes@[1].key().len() != c.nodes@[11].key().len());
            } else if i == 1 && j == 12 {
                assert(c.nodes@[1].key().len() != c.nodes@[12].key().len());
            } else if i == 1 && j == 13 {
                assert(c.nodes@[1].key().len() != c.nodes@[13].key().len());
            } else if i == 1 && j == 14 {
                assert(c.nodes@[1].key().len() != c.nodes@[14].key().len());
            } else if i == 1 && j == 15 {
                assert(c.nodes@[1].key().len() != c.nodes@[15].key().len());
            } else if i == 2 && j == 3 {
                assert(c.nodes@[2].key().len() != c.nodes@[3].key().len());
            } else if i == 2 && j == 4 {
                assert(c.nodes@[2].key()[18] != c.nodes@[4].key()[18]);
            } else if i == 2 && j == 5 {
                assert(c.nodes@[2].key()[9] != c.nodes@[5].key()[9]);
            } else if i == 2 && j == 6 {
                assert(c.nodes@[2].key().len() != c.nodes@[6].key().len());
            } else if i == 2 && j == 7 {
                assert(c.nodes@[2].key().len() != c.nodes@[7].key().len());
            } else if i == 2 && j == 8 {
                assert(c.nodes@[2].key().len() != c.nodes@[8].key().len());
            } else if i == 2 && j == 9 {
                assert(c.nodes@[2].key().len() != c.nodes@[9].key().len());
            } else if i == 2 && j == 10 {
                assert(c.nodes@[2].key().len() != c.nodes@[10].key().len());
            } else if i == 2 && j == 11 {
                assert(c.nodes@[2].key().len() != c.nodes@[11].key().len());
            } else if i == 2 && j == 12 {
                assert(c.nodes@[2].key().len() != c.nodes@[12].key().len());
            } else if i == 2 && j == 13 {
                assert(c.nodes@[2].key().len() != c.nodes@[13].key().len());
            } else if i == 2 && j == 14 {
                assert(c.nodes@[2].key().len() != c.nodes@[14].key().len());
            } else if i == 2 && j == 15 {
                assert(c.nodes@[2].key().len() != c.nodes@[15].key().len());
            } else if i == 3 && j == 4 {
                assert(c.nodes@[3].key().len() != c.nodes@[4].key().len());
            } else if i == 3 && j == 5 {
                assert(c.nodes@[3].key().len() != c.nodes@[5].key().len());
            } else if i == 3 && j == 6 {
                assert(c.nodes@[3].key().len() != c.nodes@[6].key().len());
            } else if i == 3 && j == 7 {
                assert(c.nodes@[3].key().len() != c.nodes@[7].key().len());
            } else if i == 3 && j == 8 {
                assert(c.nodes@[3].key().len() != c.nodes@[8].key().len());
            } else if i == 3 && j == 9 {
                assert(c.nodes@[3].key().len() != c.nodes@[9].key().len());
            } else if i == 3 && j == 10 {
                assert(c.nodes@[3].key().len() != c.nodes@[10].key().len());
            } else if i == 3 && j == 11 {
                assert(c.nodes@[3].key().len() != c.nodes@[11].key().len());
            } else if i == 3 && j == 12 {
                assert(c.nodes@[3].key().len() != c.nodes@[12].key().len());
            } else if i == 3 && j == 13 {
                assert(c.nodes@[3].key().len() != c.nodes@[13].key().len());
            } else if i == 3 && j == 14 {
                assert(c.nodes@[3].key().len() != c.nodes@[14].key().len());
            } else if i == 3 && j == 15 {
                assert(c.nodes@[3].key().len() != c.nodes@[15].key().len());
            } else if i == 4 && j == 5 {
                assert(c.nodes@[4].key()[9] != c.nodes@[5].key()[9]);
            } else if i == 4 && j == 6 {
                assert(c.nodes@[4].key().len() != c.nodes@[6].key().len());
            } else if i == 4 && j == 7 {
                assert(c.nodes@[4].key().len() != c.nodes@[7].key().len());
            } else if i == 4 && j == 8 {
                assert(c.nodes@[4].key().len() != c.nodes@[8].key().len());
            } else if i == 4 && j == 9 {
                assert(c.nodes@[4].key().len() != c.nodes@[9].key().len());
            } else if i == 4 && j == 10 {
                assert(c.nodes@[4].key().len() != c.nodes@[10].key().len());
            } else if i == 4 && j == 11 {
                assert(c.nodes@[4].key().len() != c.nodes@[11].key().len());
            } else if i == 4 && j == 12 {
                assert(c.nodes@[4].key().len() != c.nodes@[12].key().len());
            } else if i == 4 && j == 13 {
                assert(c.nodes@[4].key().len() != c.nodes@[13].key().len());
            } else if i == 4 && j == 14 {
                assert(c.nodes@[4].key().len() != c.nodes@[14].key().len());
            } else if i == 4 && j == 15 {
                assert(c.nodes@[4].key().len() != c.nodes@[15].key().len());
            } else if i == 5 && j == 6 {
                assert(c.nodes@[5].key().len() != c.nodes@[6].key().len());
            } else if i == 5 && j == 7 {
                assert(c.nodes@[5].key().len() != c.nodes@[7].key().len());
            } else if i == 5 && j == 8 {
                assert(c.nodes@[5].key().len() != c.nodes@[8].key().len());
            } else if i == 5 && j == 9 {
                assert(c.nodes@[5].key().len() != c.nodes@[9].key().len());
            } else if i == 5 && j == 10 {
                assert(c.nodes@[5].key().len() != c.nodes@[10].key().len());
            } else if i == 5 && j == 11 {
                assert(c.nodes@[5].key().len() != c.nodes@[11].key().len());
            } else if i == 5 && j == 12 {
                assert(c.nodes@[5].key().len() != c.nodes@[12].key().len());
            } else if i == 5 && j == 13 {
                assert(c.nodes@[5].key().len() != c.nodes@[13].key().len());
            } else if i == 5 && j == 14 {
                assert(c.nodes@[5].key().len() != c.nodes@[14].key().len());
            } else if i == 5 && j == 15 {
                assert(c.nodes@[5].key().len() != c.nodes@[15].key().len());
            } else if i == 6 && j == 7 {
                assert(c.nodes@[6].key().len() != c.nodes@[7].key().len());
            } else if i == 6 && j == 8 {
                assert(c.nodes@[6].key()[22] != c.nodes@[8].key()[22]);
            } else if i == 6 && j == 9 {
                assert(c.nodes@[6].key().len() != c.nodes@[9].key().len());
            } else if i == 6 && j == 10 {
                assert(c.nodes@[6].key().len() != c.nodes@[10].key().len());
            } else if i == 6 && j == 11 {
                assert(c.nodes@[6].key().len() != c.nodes@[11].key().len());
            } else if i == 6 && j == 12 {
                assert(c.nodes@[6].key().len() != c.nodes@[12].key().len());
            } else if i == 6 && j == 13 {
                assert(c.nodes@[6].key().len() != c.nodes@[13].key().len());
            } else if i == 6 && j == 14 {
                assert(c.nodes@[6].key().len() != c.nodes@[14].key().len());
            } else if i == 6 && j == 15 {
                assert(c.nodes@[6].key().len() != c.nodes@[15].key().len());
            } else if i == 7 && j == 8 {
                assert(c.nodes@[7].key().len() != c.nodes@[8].key().len());
            } else if i == 7 && j == 9 {
                assert(c.nodes@[7].key().len() != c.nodes@[9].key().len());
            } else if i == 7 && j == 10 {
                assert(c.nodes@[7].key().len() != c.nodes@[10].key().len());
            } else if i == 7 && j == 11 {
                assert(c.nodes@[7].key().len() != c.nodes@[11].key().len());
            } else if i == 7 && j == 12 {
                assert(c.nodes@[7].key().len() != c.nodes@[12].key().len());
            } else if i == 7 && j == 13 {
                assert(c.nodes@[7].key().len() != c.nodes@[13].key().len());
            } else if i == 7 && j == 14 {
                assert(c.nodes@[7].key().len() != c.nodes@[14].key().len());
            } else if i == 7 && j == 15 {
                assert(c.nodes@[7].key().len() != c.nodes@[15].key().len());
            } else if i == 8 && j == 9 {
                assert(c.nodes@[8].key().len() != c.nodes@[9].key().len());
            } else if i == 8 && j == 10 {
                assert(c.nodes@[8].key().len() != c.nodes@[10].key().len());
            } else if i == 8 && j == 11 {
                assert(c.nodes@[8].key().len() != c.nodes@[11].key().len());
            } else if i == 8 && j == 12 {
                assert(c.nodes@[8].key().len() != c.nodes@[12].key().len());
            } else if i == 8 && j == 13 {
                assert(c.nodes@[8].key().len() != c.nodes@[13].key().len());
            } else if i == 8 && j == 14 {
                assert(c.nodes@[8].key().len() != c.nodes@[14].key().len());
            } else if i == 8 && j == 15 {
                assert(c.nodes@[8].key().len() != c.nodes@[15].key().len());
            } else if i == 9 && j == 10 {
                assert(c.nodes@[9].key().len() != c.nodes@[10].key().len());
            } else if i == 9 && j == 11 {
                assert(c.nodes@[9].key().len() != c.nodes@[11].key().len());
            } else if i == 9 && j == 12 {
                assert(c.nodes@[9].key().len() != c.nodes@[12].key().len());
            } else if i == 9 && j == 13 {
                assert(c.nodes@[9].key().len() != c.nodes@[13].key().len());
            } else if i == 9 && j == 14 {
                assert(c.nodes@[9].key().len() != c.nodes@[14].key().len());
            } else if i == 9 && j == 15 {
                assert(c.nodes@[9].key().len() != c.nodes@[15].key().len());
            } else if i == 10 && j == 11 {
                assert(c.nodes@[10].key().len() != c.nodes@[11].key().len());
            } else if i == 10 && j == 12 {
                assert(c.nodes@[10].key()[13] != c.nodes@[12].key()[13]);
            } else if i == 10 && j == 13 {
                assert(c.nodes@[10].key().len() != c.nodes@[13].key().len());
            } else if i == 10 && j == 14 {
                assert(c.nodes@[10].key().len() != c.nodes@[14].key().len());
            } else if i == 10 && j == 15 {
                assert(c.nodes@[10].key().len() != c.nodes@[15].key().len());
            } else if i == 11 && j == 12 {
                assert(c.nodes@[11].key().len() != c.nodes@[12].key().len());
            } else if i == 11 && j == 13 {
                assert(c.nodes@[11].key().len() != c.nodes@[13].key().len());
            } else if i == 11 && j == 14 {
                assert(c.nodes@[11].key().len() != c.nodes@[14].key().len());
            } else if i == 11 && j == 15 {
                assert(c.nodes@[11].key().len() != c.nodes@[15].key().len());
            } else if i == 12 && j == 13 {
                assert(c.nodes@[12].key().len() != c.nodes@[13].key().len());
            } else if i == 12 && j == 14 {
                assert(c.nodes@[12].key().len() != c.nodes@[14].key().len());
            } else if i == 12 && j == 15 {
                assert(c.nodes@[12].key().len() != c.nodes@[15].key().len());
            } else if i == 13 && j == 14 {
                assert(c.nodes@[13].key().len() != c.nodes@[14].key().len());
            } else if i == 13 && j == 15 {
                assert(c.nodes@[13].key()[14] != c.nodes@[15].key()[14]);
            } else if i == 14 && j == 15 {
                assert(c.nodes@[14].key().len() != c.nodes@[15].key().len());
            }
        }
    }
    assert(listing_ok(c, c.line_listings@[0])) by {
        assert(texts(c.line_listings@[0].subscriber_ids@).len() == 1);
        assert forall|k: int| 0 <= k < 1 implies has_key(c.subscribers@, (#[trigger] c.line_listings@[0].subscriber_ids@[k])@) by {
            if k == 0 {
                assert(c.line_listings@[0].subscriber_ids@[0]@ == texts(c.line_listings@[0].subscriber_ids@)[0]);
                assert(c.subscribers@[0].key() == c.line_listings@[0].subscriber_ids@[0]@);
            }
        }
    }
    assert(listing_ok(c, c.line_listings@[1])) by {
        assert(texts(c.line_listings@[1].subscriber_ids@).len() == 1);
        assert forall|k: int| 0 <= k < 1 implies has_key(c.subscribers@, (#[trigger] c.line_listings@[1].subscriber_ids@[k])@) by {
            if k == 0 {
                assert(c.line_listings@[1].subscriber_ids@[0]@ == texts(c.line_listings@[1].subscriber_ids@)[0]);
                assert(c.subscribers@[1].key() == c.line_listings@[1].subscriber_ids@[0]@);
            }
        }
    }
    assert(listing_ok(c, c.line_listings@[2])) by {
        assert(texts(c.line_listings@[2].subscriber_ids@).len() == 1);
        assert forall|k: int| 0 <= k < 1 implies has_key(c.subscribers@, (#[trigger] c.line_listings@[2].subscriber_ids@[k])@) by {
            if k == 0 {
                assert(c.line_listings@[2].subscriber_ids@[0]@ == texts(c.line_listings@[2].subscriber_ids@)[0]);
                assert(c.subscribers@[2].key() == c.line_listings@[2].subscriber_ids@[0]@);
            }
        }
    }
    assert(listing_ok(c, c.line_listings@[3])) by {
        assert(texts(c.line_listings@[3].subscriber_ids@).len() == 1);
        assert forall|k: int| 0 <= k < 1 implies has_key(c.subscribers@, (#[trigger] c.line_listings@[3].subscriber_ids@[k])@) by {
            if k == 0 {
                assert(c.line_listings@[3].subscriber_ids@[0]@ == texts(c.line_listings@[3].subscriber_ids@)[0]);
                assert(c.subscribers@[3].key() == c.line_listings@[3].subscriber_ids@[0]@);
            }
        }
    }
    assert(listing_ok(c, c.line_listings@[4])) by {
        assert(texts(c.line_listings@[4].subscriber_ids@).len() == 1);
        assert forall|k: int| 0 <= k < 1 implies has_key(c.subscribers@, (#[trigger] c.line_listings@[4].subscriber_ids@[k])@) by {
            if k == 0 {
                assert(c.line_listings@[4].subscriber_ids@[0]@ == texts(c.line_listings@[4].subscriber_ids@)[0]);
                assert(c.subscribers@[4].key() == c.line_listings@[4].subscriber_ids@[0]@);
            }
        }
    }
    assert forall|i: int| 0 <= i < 5 implies listing_ok(c, #[trigger] c.line_listings@[i]) by {
        if i == 0 {
        } else if i == 1 {
        } else if i == 2 {
        } else if i == 3 {
        } else if i == 4 {
        }
    }
    assert forall|i: int, j: int| 0 <= i < j < 5 implies (#[trigger] c.line_listings@[i]).line != (#[trigger] c.line_listings@[j]).line by {
        if i == 0 && j == 1 {
        } else if i == 0 && j == 2 {
        } else if i == 0 && j == 3 {
        } else if i == 0 && j == 4 {
        } else if i == 1 && j == 2 {
        } else if i == 1 && j == 3 {
        } else if i == 1 && j == 4 {
        } else if i == 2 && j == 3 {
        } else if i == 2 && j == 4 {
        } else if i == 3 && j == 4 {
        }
    }
    assert(premise_ok(c, c.call_premises@[0])) by {
        assert(c.call_premises@[0].directory_ids@.len() == 1);
        assert forall|k: int| 0 <= k < 1 implies #[trigger] c.call_premises@[0].directory_ids@[k] <= 9999 by {
            if k == 0 {
            }
        }
        assert(c.subscribers@[0].key() == c.call_premises@[0].caller_id@);
        assert(c.subscribers@[1].key() == c.call_premises@[0].callee_id@);
        assert(c.line_listings@[0].key() == c.call_premises@[0].caller_line_id@);
        assert(c.line_listings@[1].key() == c.call_premises@[0].callee_line_id@);
        assert(c.call_premises@[0].caller_line_id@.len() != c.call_premises@[0].callee_line_id@.len());
        assert(c.line_listings@[0].subscriber_ids@[0]@ == texts(c.line_listings@[0].subscriber_ids@)[0]);
        assert(c.line_listings@[0].id@ == "railway_dispatch_office"@ && has_text(c.line_listings@[0].subscriber_ids@, "taren_kesh"@));
        assert(c.line_listings@[1].subscriber_ids@[0]@ == texts(c.line_listings@[1].subscriber_ids@)[0]);
        assert(c.line_listings@[1].id@ == "factory_records_office"@ && has_text(c.line_listings@[1].subscriber_ids@, "vira_dhal"@));
    }
    assert(premise_ok(c, c.call_premises@[1])) by {
        assert(c.call_premises@[1].directory_ids@.len() == 1);
        assert forall|k: int| 0 <= k < 1 implies #[trigger] c.call_premises@[1].directory_ids@[k] <= 9999 by {
            if k == 0 {
            }
        }
        assert(c.subscribers@[4].key() == c.call_premises@[1].caller_id@);
        assert(c.subscribers@[1].key() == c.call_premises@[1].callee_id@);
        assert(c.line_listings@[4].key() == c.call_premises@[1].caller_line_id@);
        assert(c.line_listings@[1].key() == c.call_premises@[1].callee_line_id@);
        assert(c.call_premises@[1].caller_line_id@.len() != c.call_premises@[1].callee_line_id@.len());
        assert(c.line_listings@[4].subscriber_ids@[0]@ == texts(c.line_listings@[4].subscriber_ids@)[0]);
        assert(c.line_listings@[4].id@ == "signal_box"@ && has_text(c.line_listings@[4].subscriber_ids@, "neri_tal"@));
        assert(c.line_listings@[1].subscriber_ids@[0]@ == texts(c.line_listings@[1].subscriber_ids@)[0]);
        assert(c.line_listings@[1].id@ == "factory_records_office"@ && has_text(c.line_listings@[1].subscriber_ids@, "vira_dhal"@));
    }
    assert(premise_ok(c, c.call_premises@[2])) by {
        assert(c.call_premises@[2].directory_ids@.len() == 1);
        assert forall|k: int| 0 <= k < 1 implies #[trigger] c.call_premises@[2].directory_ids@[k] <= 9999 by {
            if k == 0 {
            }
        }
        assert(c.subscribers@[2].key() == c.call_premises@[2].caller_id@);
        assert(c.subscribers@[3].key() == c.call_premises@[2].callee_id@);
        assert(c.line_listings@[2].key() == c.call_premises@[2].caller_line_id@);
        assert(c.line_listings@[3].key() == c.call_premises@[2].callee_line_id@);
        assert(c.call_premises@[2].caller_line_id@.len() != c.call_premises@[2].callee_line_id@.len());
        assert(c.line_listings@[2].subscriber_ids@[0]@ == texts(c.line_listings@[2].subscriber_ids@)[0]);
        assert(c.line_listings@[2].id@ == "clinic"@ && has_text(c.line_listings@[2].subscriber_ids@, "leya_varan"@));
        assert(c.line_listings@[3].subscriber_ids@[0]@ == texts(c.line_listings@[3].subscriber_ids@)[0]);
        assert(c.line_listings@[3].id@ == "border_post"@ && has_text(c.line_listings@[3].subscriber_ids@, "oren_vey"@));
    }
    assert forall|i: int| 0 <= i < 3 implies premise_ok(c, #[trigger] c.call_premises@[i]) by {
        if i == 0 {
        } else if i == 1 {
        } else if i == 2 {
        }
    }
    assert forall|i: int| 0 <= i < 3 implies has_key(c.call_premises@, (#[trigger] c.story_beats@[i]).call_premise_id@) by {
        if i == 0 {
            assert(c.call_premises@[0].key() == c.story_beats@[0].call_premise_id@);
        } else if i == 1 {
            assert(c.call_premises@[1].key() == c.story_beats@[1].call_premise_id@);
        } else if i == 2 {
            assert(c.call_premises@[2].key() == c.story_beats@[2].call_premise_id@);
        }
    }
    assert(event_ok(c, c.story_events@[0])) by {
        assert(outcome_pairs(c.story_events@[0].outcomes@).len() == 1);
        assert(outcome_pairs(c.story_events@[0].outcomes@)[0] == (c.story_events@[0].outcomes@[0].id@, c.story_events@[0].outcomes@[0].next_node_id@));
        assert(ids_ok(c.story_events@[0].outcomes@)) by {
            assert forall|i: int| 0 <= i < 1 implies !is_blank((#[trigger] c.story_events@[0].outcomes@[i]).key()) by {
                if i == 0 {
                    assert(!is_white_space(c.story_events@[0].outcomes@[0].key()[0]));
                }
            }
        }
        assert forall|k: int| 0 <= k < 1 implies has_key(c.nodes@, (#[trigger] c.story_events@[0].outcomes@[k]).next_node_id@) by {
            if k == 0 {
                assert(c.nodes@[5].key() == c.story_events@[0].outcomes@[0].next_node_id@);
            }
        }
    }
    assert(event_ok(c, c.story_events@[1])) by {
        assert(outcome_pairs(c.story_events@[1].outcomes@).len() == 1);
        assert(outcome_pairs(c.story_events@[1].outcomes@)[0] == (c.story_events@[1].outcomes@[0].id@, c.story_events@[1].outcomes@[0].next_node_id@));
        assert(ids_ok(c.story_events@[1].outcomes@)) by {
            assert forall|i: int| 0 <= i < 1 implies !is_blank((#[trigger] c.story_events@[1].outcomes@[i]).key()) by {
                if i == 0 {
                    assert(!is_white_space(c.story_events@[1].outcomes@[0].key()[0]));
                }
            }
        }
        assert forall|k: int| 0 <= k < 1 implies has_key(c.nodes@, (#[trigger] c.story_events@[1].outcomes@[k]).next_node_id@) by {
            if k == 0 {
                assert(c.nodes@[14].key() == c.story_events@[1].outcomes@[0].next_node_id@);
            }
        }
    }
    assert(event_ok(c, c.story_events@[2])) by {
        assert(outcome_pairs(c.story_events@[2].outcomes@).len() == 1);
        assert(outcome_pairs(c.story_events@[2].outcomes@)[0] == (c.story_events@[2].outcomes@[0].id@, c.story_events@[2].outcomes@[0].next_node_id@));
        assert(ids_ok(c.story_events@[2].outcomes@)) by {
            assert forall|i: int| 0 <= i < 1 implies !is_blank((#[trigger] c.story_events@[2].outcomes@[i]).key()) by {
                if i == 0 {
                    assert(!is_white_space(c.story_events@[2].outcomes@[0].key()[0]));
                }
            }
        }
        assert forall|k: int| 0 <= k < 1 implies has_key(c.nodes@, (#[trigger] c.story_events@[2].outcomes@[k]).next_node_id@) by {
            if k == 0 {
                assert(c.nodes@[15].key() == c.story_events@[2].outcomes@[0].next_node_id@);
            }
        }
    }
    assert(event_ok(c, c.story_events@[3])) by {
        assert(outcome_pairs(c.story_events@[3].outcomes@).len() == 1);
        assert(outcome_pairs(c.story_events@[3].outcomes@)[0] == (c.story_events@[3].outcomes@[0].id@, c.story_events@[3].outcomes@[0].next_node_id@));
        assert(ids_ok(c.story_events@[3].outcomes@)) by {
            assert forall|i: int| 0 <= i < 1 implies !is_blank((#[trigger] c.story_events@[3].outcomes@[i]).key()) by {
                if i == 0 {
                    assert(!is_white_space(c.story_events@[3].outcomes@[0].key()[0]));
                }
            }
        }
        assert forall|k: int| 0 <= k < 1 implies has_key(c.nodes@, (#[trigger] c.story_events@[3].outcomes@[k]).next_node_id@) by {
            if k == 0 {
                assert(c.nodes@[9].key() == c.story_events@[3].outcomes@[0].next_node_id@);
            }
        }
    }
    assert(event_ok(c, c.story_events@[4])) by {
        assert(outcome_pairs(c.story_events@[4].outcomes@).len() == 1);
        assert(outcome_pairs(c.story_events@[4].outcomes@)[0] == (c.story_events@[4].outcomes@[0].id@, c.story_events@[4].outcomes@[0].next_node_id@));
        assert(ids_ok(c.story_events@[4].outcomes@)) by {
            assert forall|i: int| 0 <= i < 1 implies !is_blank((#[trigger] c.story_events@[4].outcomes@[i]).key()) by {
                if i == 0 {
                    assert(!is_white_space(c.story_events@[4].outcomes@[0].key()[0]));
                }
            }
        }
        assert forall|k: int| 0 <= k < 1 implies has_key(c.nodes@, (#[trigger] c.story_events@[4].outcomes@[k]).next_node_id@) by {
            if k == 0 {
                assert(c.nodes@[14].key() == c.story_events@[4].outcomes@[0].next_node_id@);
            }
        }
    }
    assert(event_ok(c, c.story_events@[5])) by {
        assert(outcome_pairs(c.story_events@[5].outcomes@).len() == 1);
        assert(outcome_pairs(c.story_events@[5].outcomes@)[0] == (c.story_events@[5].outcomes@[0].id@, c.story_events@[5].outcomes@[0].next_node_id@));
        assert(ids_ok(c.story_events@[5].outcomes@)) by {
            assert forall|i: int| 0 <= i < 1 implies !is_blank((#[trigger] c.story_events@[5].outcomes@[i]).key()) by {
                if i == 0 {
                    assert(!is_white_space(c.story_events@[5].outcomes@[0].key()[0]));
                }
            }
        }
        assert forall|k: int| 0 <= k < 1 implies has_key(c.nodes@, (#[trigger] c.story_events@[5].outcomes@[k]).next_node_id@) by {
            if k == 0 {
                assert(c.nodes@[15].key() == c.story_events@[5].outcomes@[0].next_node_id@);
            }
        }
    }
    assert(event_ok(c, c.story_events@[6])) by {
        assert(outcome_pairs(c.story_events@[6].outcomes@).len() == 1);
        assert(outcome_pairs(c.story_events@[6].outcomes@)[0] == (c.story_events@[6].outcomes@[0].id@, c.story_events@[6].outcomes@[0].next_node_id@));
        assert(ids_ok(c.story_events@[6].outcomes@)) by {
            assert forall|i: int| 0 <= i < 1 implies !is_blank((#[trigger] c.story_events@[6].outcomes@[i]).key()) by {
                if i == 0 {
                    assert(!is_white_space(c.story_events@[6].outcomes@[0].key()[0]));
                }
            }
        }
        assert forall|k: int| 0 <= k < 1 implies has_key(c.nodes@, (#[trigger] c.story_events@[6].outcomes@[k]).next_node_id@) by {
            if k == 0 {
                assert(c.nodes@[13].key() == c.story_events@[6].outcomes@[0].next_node_id@);
            }
        }
    }
    assert(event_ok(c, c.story_events@[7])) by {
        assert(outcome_pairs(c.story_events@[7].outcomes@).len() == 1);
        assert(outcome_pairs(c.story_events@[7].outcomes@)[0] == (c.story_events@[7].outcomes@[0].id@, c.story_events@[7].outcomes@[0].next_node_id@));
        assert(ids_ok(c.story_events@[7].outcomes@)) by {
            assert forall|i: int| 0 <= i < 1 implies !is_blank((#[trigger] c.story_events@[7].outcomes@[i]).key()) by {
                if i == 0 {
                    assert(!is_white_space(c.story_events@[7].outcomes@[0].key()[0]));
                }
            }
        }
        assert forall|k: int| 0 <= k < 1 implies has_key(c.nodes@, (#[trigger] c.story_events@[7].outcomes@[k]).next_node_id@) by {
            if k == 0 {
                assert(c.nodes@[14].key() == c.story_events@[7].outcomes@[0].next_node_id@);
            }
        }
    }
    assert(event_ok(c, c.story_events@[8])) by {
        assert(outcome_pairs(c.story_events@[8].outcomes@).len() == 1);
        assert(outcome_pairs(c.story_events@[8].outcomes@)[0] == (c.story_events@[8].outcomes@[0].id@, c.story_events@[8].outcomes@[0].next_node_id@));
        assert(ids_ok(c.story_events@[8].outcomes@)) by {
            assert forall|i: int| 0 <= i < 1 implies !is_blank((#[trigger] c.story_events@[8].outcomes@[i]).key()) by {
                if i == 0 {
                    assert(!is_white_space(c.story_events@[8].outcomes@[0].key()[0]));
                }
            }
        }
        assert forall|k: int| 0 <= k < 1 implies has_key(c.nodes@, (#[trigger] c.story_events@[8].outcomes@[k]).next_node_id@) by {
            if k == 0 {
                assert(c.nodes@[15].key() == c.story_events@[8].outcomes@[0].next_node_id@);
            }
        }
    }
    assert forall|i: int| 0 <= i < 9 implies event_ok(c, #[trigger] c.story_events@[i]) by {
        if i == 0 {
        } else if i == 1 {
        } else if i == 2 {
        } else if i == 3 {
        } else if i == 4 {
        } else if i == 5 {
        } else if i == 6 {
        } else if i == 7 {
        } else if i == 8 {
        }
    }
    assert forall|i: int| 0 <= i < 3 implies !is_blank((#[trigger] c.endings@[i]).conclusion@) by {
        if i == 0 {
            assert(!is_white_space(c.endings@[0].conclusion@[0]));
        } else if i == 1 {
            assert(!is_white_space(c.endings@[1].conclusion@[0]));
        } else if i == 2 {
            assert(!is_white_space(c.endings@[2].conclusion@[0]));
        }
    }
    assert(c.nodes@[0].key() == c.start_node_id@);
    assert(node_ok(c, c.nodes@[0])) by {
        assert(c.nodes@[1].key() == "hardware_demo_call"@);
    }
    assert(node_ok(c, c.nodes@[1])) by {
        assert(c.story_beats@[0].key() == "hardware_training"@);
        assert(c.nodes@[2].key() == "hardware_training_success_event"@);
        assert(c.nodes@[3].key() == "hardware_training_missed_event"@);
        assert(c.nodes@[4].key() == "hardware_training_invalid_event"@);
    }
    assert(node_ok(c, c.nodes@[2])) by {
        assert(c.story_events@[0].key() == "hardware_training_success"@);
        assert(outcome_pairs(c.story_events@[0].outcomes@)[0] == (c.story_events@[0].outcomes@[0].id@, c.story_events@[0].outcomes@[0].next_node_id@));
        assert(c.story_events@[0].outcomes@[0].key() == "default"@);
    }
    assert(node_ok(c, c.nodes@[3])) by {
        assert(c.story_events@[1].key() == "hardware_training_missed"@);
        assert(outcome_pairs(c.story_events@[1].outcomes@)[0] == (c.story_events@[1].outcomes@[0].id@, c.story_events@[1].outcomes@[0].next_node_id@));
        assert(c.story_events@[1].outcomes@[0].key() == "default"@);
    }
    assert(node_ok(c, c.nodes@[4])) by {
        assert(c.story_events@[2].key() == "hardware_training_invalid"@);
        assert(outcome_pairs(c.story_events@[2].outcomes@)[0] == (c.story_events@[2].outcomes@[0].id@, c.story_events@[2].outcomes@[0].next_node_id@));
        assert(c.story_events@[2].outcomes@[0].key() == "default"@);
    }
    assert(node_ok(c, c.nodes@[5])) by {
        assert(c.story_beats@[1].key() == "hardware_interference"@);
        assert(c.nodes@[6].key() == "hardware_interference_success_event"@);
        assert(c.nodes@[7].key() == "hardware_interference_missed_event"@);
        assert(c.nodes@[8].key() == "hardware_interference_invalid_event"@);
    }
    assert(node_ok(c, c.nodes@[6])) by {
        assert(c.story_events@[3].key() == "hardware_interference_success"@);
        assert(outcome_pairs(c.story_events@[3].outcomes@)[0] == (c.story_events@[3].outcomes@[0].id@, c.story_events@[3].outcomes@[0].next_node_id@));
        assert(c.story_events@[3].outcomes@[0].key() == "default"@);
    }
    assert(node_ok(c, c.nodes@[7])) by {
        assert(c.story_events@[4].key() == "hardware_interference_missed"@);
        assert(outcome_pairs(c.story_events@[4].outcomes@)[0] == (c.story_events@[4].outcomes@[0].id@, c.story_events@[4].outcomes@[0].next_node_id@));
        assert(c.story_events@[4].outcomes@[0].key() == "default"@);
    }
    assert(node_ok(c, c.nodes@[8])) by {
        assert(c.story_events@[5].key() == "hardware_interference_invalid"@);
        assert(outcome_pairs(c.story_events@[5].outcomes@)[0] == (c.story_events@[5].outcomes@[0].id@, c.story_events@[5].outcomes@[0].next_node_id@));
        assert(c.story_events@[5].outcomes@[0].key() == "default"@);
    }
    assert(node_ok(c, c.nodes@[9])) by {
        assert(c.story_beats@[2].key() == "hardware_tap"@);
        assert(c.nodes@[10].key() == "hardware_tap_success_event"@);
        assert(c.nodes@[11].key() == "hardware_tap_missed_event"@);
        assert(c.nodes@[12].key() == "hardware_tap_invalid_event"@);
    }
    assert(node_ok(c, c.nodes@[10])) by {
        assert(c.story_events@[6].key() == "hardware_tap_success"@);
        assert(outcome_pairs(c.story_events@[6].outcomes@)[0] == (c.story_events@[6].outcomes@[0].id@, c.story_events@[6].outcomes@[0].next_node_id@));
        assert(c.story_events@[6].outcomes@[0].key() == "default"@);
    }
    assert(node_ok(c, c.nodes@[11])) by {
        assert(c.story_events@[7].key() == "hardware_tap_missed"@);
        assert(outcome_pairs(c.story_events@[7].outcomes@)[0] == (c.story_events@[7].outcomes@[0].id@, c.story_events@[7].outcomes@[0].next_node_id@));
        assert(c.story_events@[7].outcomes@[0].key() == "default"@);
    }
    assert(node_ok(c, c.nodes@[12])) by {
        assert(c.story_events@[8].key() == "hardware_tap_invalid"@);
        assert(outcome_pairs(c.story_events@[8].outcomes@)[0] == (c.story_events@[8].outcomes@[0].id@, c.story_events@[8].outcomes@[0].next_node_id@));
        assert(c.story_events@[8].outcomes@[0].key() == "default"@);
    }
    assert(node_ok(c, c.nodes@[13])) by {
        assert(c.endings@[0].key() == "hardware_demo_complete"@);
    }
    assert(node_ok(c, c.nodes@[14])) by {
        assert(c.endings@[1].key() == "hardware_demo_missed"@);
    }
    assert(node_ok(c, c.nodes@[15])) by {
        assert(c.endings@[2].key() == "hardware_demo_invalid"@);
    }
    assert forall|i: int| 0 <= i < 16 implies node_ok(c, #[trigger] c.nodes@[i]) by {
        if i == 0 {
        } else if i == 1 {
        } else if i == 2 {
        } else if i == 3 {
        } else if i == 4 {
        } else if i == 5 {
        } else if i == 6 {
        } else if i == 7 {
        } else if i == 8 {
        } else if i == 9 {
        } else if i == 10 {
        } else if i == 11 {
        } else if i == 12 {
        } else if i == 13 {
        } else if i == 14 {
        } else if i == 15 {
        }
    }
    assert(content_valid(c));
    lemma_first_key(c.nodes@, c.start_node_id@, 0);
    assert(node_targets(c.story_events@, c.nodes@[0]) =~= seq!["hardware_demo_call"@]);
    assert(node_targets(c.story_events@, c.nodes@[1]) =~= seq!["hardware_training_success_event"@, "hardware_training_missed_event"@, "hardware_training_invalid_event"@]);
    assert(node_targets(c.story_events@, c.nodes@[2]) == seq!["hardware_demo_interference_call"@]) by {
        assert(c.story_events@[0].key() == "hardware_training_success"@);
        lemma_first_key(c.story_events@, "hardware_training_success"@, 0);
        assert(outcome_pairs(c.story_events@[0].outcomes@).len() == 1);
        assert(outcome_pairs(c.story_events@[0].outcomes@)[0] == (c.story_events@[0].outcomes@[0].id@, c.story_events@[0].outcomes@[0].next_node_id@));
        lemma_first_key(c.story_events@[0].outcomes@, "default"@, 0);
        assert(outcome_pairs(c.story_events@[0].outcomes@).len() == 1);
        assert(c.story_events@[0].outcomes@.subrange(0, 0).len() == 0);
        assert(other_targets(c.story_events@[0].outcomes@.subrange(0, 0), "default"@) == Seq::<Seq<char>>::empty());
        assert(c.story_events@[0].outcomes@.subrange(0, 1).drop_last() =~= c.story_events@[0].outcomes@.subrange(0, 0));
        assert(c.story_events@[0].outcomes@.subrange(0, 1).last() == c.story_events@[0].outcomes@[0]);
        assert(other_targets(c.story_events@[0].outcomes@.subrange(0, 1), "default"@) =~= seq![]);
        assert(c.story_events@[0].outcomes@.subrange(0, 1) =~= c.story_events@[0].outcomes@);
        assert(other_targets(c.story_events@[0].outcomes@, "default"@) =~= seq![]);
        assert(event_targets(c.story_events@[0].outcomes@, "default"@) =~= seq!["hardware_demo_interference_call"@]);
    }
    assert(node_targets(c.story_events@, c.nodes@[3]) == seq!["hardware_demo_missed_ending"@]) by {
        assert(c.story_events@[1].key() == "hardware_training_missed"@);
        lemma_first_key(c.story_events@, "hardware_training_missed"@, 1);
        assert(outcome_pairs(c.story_events@[1].outcomes@).len() == 1);
        assert(outcome_pairs(c.story_events@[1].outcomes@)[0] == (c.story_events@[1].outcomes@[0].id@, c.story_events@[1].outcomes@[0].next_node_id@));
        lemma_first_key(c.story_events@[1].outcomes@, "default"@, 0);
        assert(outcome_pairs(c.story_events@[1].outcomes@).len() == 1);
        assert(c.story_events@[1].outcomes@.subrange(0, 0).len() == 0);
        assert(other_targets(c.story_events@[1].outcomes@.subrange(0, 0), "default"@) == Seq::<Seq<char>>::empty());
        assert(c.story_events@[1].outcomes@.subrange(0, 1).drop_last() =~= c.story_events@[1].outcomes@.subrange(0, 0));
        assert(c.story_events@[1].outcomes@.subrange(0, 1).last() == c.story_events@[1].outcomes@[0]);
        assert(other_targets(c.story_events@[1].outcomes@.subrange(0, 1), "default"@) =~= seq![]);
        assert(c.story_events@[1].outcomes@.subrange(0, 1) =~= c.story_events@[1].outcomes@);
        assert(other_targets(c.story_events@[1].outcomes@, "default"@) =~= seq![]);
        assert(event_targets(c.story_events@[1].outcomes@, "default"@) =~= seq!["hardware_demo_missed_ending"@]);
    }
    assert(node_targets(c.story_events@, c.nodes@[4]) == seq!["hardware_demo_invalid_ending"@]) by {
        assert(c.story_events@[2].key() == "hardware_training_invalid"@);
        lemma_first_key(c.story_events@, "hardware_training_invalid"@, 2);
        assert(outcome_pairs(c.story_events@[2].outcomes@).len() == 1);
        assert(outcome_pairs(c.story_events@[2].outcomes@)[0] == (c.story_events@[2].outcomes@[0].id@, c.story_events@[2].outcomes@[0].next_node_id@));
        lemma_first_key(c.story_events@[2].outcomes@, "default"@, 0);
        assert(outcome_pairs(c.story_events@[2].outcomes@).len() == 1);
        assert(c.story_events@[2].outcomes@.subrange(0, 0).len() == 0);
        assert(other_targets(c.story_events@[2].outcomes@.subrange(0, 0), "default"@) == Seq::<Seq<char>>::empty());
        assert(c.story_events@[2].outcomes@.subrange(0, 1).drop_last() =~= c.story_events@[2].outcomes@.subrange(0, 0));
        assert(c.story_events@[2].outcomes@.subrange(0, 1).last() == c.story_events@[2].outcomes@[0]);
        assert(other_targets(c.story_events@[2].outcomes@.subrange(0, 1), "default"@) =~= seq![]);
        assert(c.story_events@[2].outcomes@.subrange(0, 1) =~= c.story_events@[2].outcomes@);
        assert(other_targets(c.story_events@[2].outcomes@, "default"@) =~= seq![]);
        assert(event_targets(c.story_events@[2].outcomes@, "default"@) =~= seq!["hardware_demo_invalid_ending"@]);
    }
    assert(node_targets(c.story_events@, c.nodes@[5]) =~= seq!["hardware_interference_success_event"@, "hardware_interference_missed_event"@, "hardware_interference_invalid_event"@]);
    assert(node_targets(c.story_events@, c.nodes@[6]) == seq!["hardware_demo_tap_call"@]) by {
        assert(c.story_events@[3].key() == "hardware_interference_success"@);
        lemma_first_key(c.story_events@, "hardware_interference_success"@, 3);
        assert(outcome_pairs(c.story_events@[3].outcomes@).len() == 1);
        assert(outcome_pairs(c.story_events@[3].outcomes@)[0] == (c.story_events@[3].outcomes@[0].id@, c.story_events@[3].outcomes@[0].next_node_id@));
        lemma_first_key(c.story_events@[3].outcomes@, "default"@, 0);
        assert(outcome_pairs(c.story_events@[3].outcomes@).len() == 1);
        assert(c.story_events@[3].outcomes@.subrange(0, 0).len() == 0);
        assert(other_targets(c.story_events@[3].outcomes@.subrange(0, 0), "default"@) == Seq::<Seq<char>>::empty());
        assert(c.story_events@[3].outcomes@.subrange(0, 1).drop_last() =~= c.story_events@[3].outcomes@.subrange(0, 0));
        assert(c.story_events@[3].outcomes@.subrange(0, 1).last() == c.story_events@[3].outcomes@[0]);
        assert(other_targets(c.story_events@[3].outcomes@.subrange(0, 1), "default"@) =~= seq![]);
        assert(c.story_events@[3].outcomes@.subrange(0, 1) =~= c.story_events@[3].outcomes@);
        assert(other_targets(c.story_events@[3].outcomes@, "default"@) =~= seq![]);
        assert(event_targets(c.story_events@[3].outcomes@, "default"@) =~= seq!["hardware_demo_tap_call"@]);
    }
    assert(node_targets(c.story_events@, c.nodes@[7]) == seq!["hardware_demo_missed_ending"@]) by {
        assert(c.story_events@[4].key() == "hardware_interference_missed"@);
        lemma_first_key(c.story_events@, "hardware_interference_missed"@, 4);
        assert(outcome_pairs(c.story_events@[4].outcomes@).len() == 1);
        assert(outcome_pairs(c.story_events@[4].outcomes@)[0] == (c.story_events@[4].outcomes@[0].id@, c.story_events@[4].outcomes@[0].next_node_id@));
        lemma_first_key(c.story_events@[4].outcomes@, "default"@, 0);
        assert(outcome_pairs(c.story_events@[4].outcomes@).len() == 1);
        assert(c.story_events@[4].outcomes@.subrange(0, 0).len() == 0);
        assert(other_targets(c.story_events@[4].outcomes@.subrange(0, 0), "default"@) == Seq::<Seq<char>>::empty());
        assert(c.story_events@[4].outcomes@.subrange(0, 1).drop_last() =~= c.story_events@[4].outcomes@.subrange(0, 0));
        assert(c.story_events@[4].outcomes@.subrange(0, 1).last() == c.story_events@[4].outcomes@[0]);
        assert(other_targets(c.story_events@[4].outcomes@.subrange(0, 1), "default"@) =~= seq![]);
        assert(c.story_events@[4].outcomes@.subrange(0, 1) =~= c.story_events@[4].outcomes@);
        assert(other_targets(c.story_events@[4].outcomes@, "default"@) =~= seq![]);
        assert(event_targets(c.story_events@[4].outcomes@, "default"@) =~= seq!["hardware_demo_missed_ending"@]);
    }
    assert(node_targets(c.story_events@, c.nodes@[8]) == seq!["hardware_demo_invalid_ending"@]) by {
        assert(c.story_events@[5].key() == "hardware_interference_invalid"@);
        lemma_first_key(c.story_events@, "hardware_interference_invalid"@, 5);
        assert(outcome_pairs(c.story_events@[5].outcomes@).len() == 1);
        assert(outcome_pairs(c.story_events@[5].outcomes@)[0] == (c.story_events@[5].outcomes@[0].id@, c.story_events@[5].outcomes@[0].next_node_id@));
        lemma_first_key(c.story_events@[5].outcomes@, "default"@, 0);
        assert(outcome_pairs(c.story_events@[5].outcomes@).len() == 1);
        assert(c.story_events@[5].outcomes@.subrange(0, 0).len() == 0);
        assert(other_targets(c.story_events@[5].outcomes@.subrange(0, 0), "default"@) == Seq::<Seq<char>>::empty());
        assert(c.story_events@[5].outcomes@.subrange(0, 1).drop_last() =~= c.story_events@[5].outcomes@.subrange(0, 0));
        assert(c.story_events@[5].outcomes@.subrange(0, 1).last() == c.story_events@[5].outcomes@[0]);
        assert(other_targets(c.story_events@[5].outcomes@.subrange(0, 1), "default"@) =~= seq![]);
        assert(c.story_events@[5].outcomes@.subrange(0, 1) =~= c.story_events@[5].outcomes@);
        assert(other_targets(c.story_events@[5].outcomes@, "default"@) =~= seq![]);
        assert(event_targets(c.story_events@[5].outcomes@, "default"@) =~= seq!["hardware_demo_invalid_ending"@]);
    }
    assert(node_targets(c.story_events@, c.nodes@[9]) =~= seq!["hardware_tap_success_event"@, "hardware_tap_missed_event"@, "hardware_tap_invalid_event"@]);
    assert(node_targets(c.story_events@, c.nodes@[10]) == seq!["hardware_demo_success_ending"@]) by {
        assert(c.story_events@[6].key() == "hardware_tap_success"@);
        lemma_first_key(c.story_events@, "hardware_tap_success"@, 6);
        assert(outcome_pairs(c.story_events@[6].outcomes@).len() == 1);
        assert(outcome_pairs(c.story_events@[6].outcomes@)[0] == (c.story_events@[6].outcomes@[0].id@, c.story_events@[6].outcomes@[0].next_node_id@));
        lemma_first_key(c.story_events@[6].outcomes@, "default"@, 0);
        assert(outcome_pairs(c.story_events@[6].outcomes@).len() == 1);
        assert(c.story_events@[6].outcomes@.subrange(0, 0).len() == 0);
        assert(other_targets(c.story_events@[6].outcomes@.subrange(0, 0), "default"@) == Seq::<Seq<char>>::empty());
        assert(c.story_events@[6].outcomes@.subrange(0, 1).drop_last() =~= c.story_events@[6].outcomes@.subrange(0, 0));
        assert(c.story_events@[6].outcomes@.subrange(0, 1).last() == c.story_events@[6].outcomes@[0]);
        assert(other_targets(c.story_events@[6].outcomes@.subrange(0, 1), "default"@) =~= seq![]);
        assert(c.story_events@[6].outcomes@.subrange(0, 1) =~= c.story_events@[6].outcomes@);
        assert(other_targets(c.story_events@[6].outcomes@, "default"@) =~= seq![]);
        assert(event_targets(c.story_events@[6].outcomes@, "default"@) =~= seq!["hardware_demo_success_ending"@]);
    }
    assert(node_targets(c.story_events@, c.nodes@[11]) == seq!["hardware_demo_missed_ending"@]) by {
        assert(c.story_events@[7].key() == "hardware_tap_missed"@);
        lemma_first_key(c.story_events@, "hardware_tap_missed"@, 7);
        assert(outcome_pairs(c.story_events@[7].outcomes@).len() == 1);
        assert(outcome_pairs(c.story_events@[7].outcomes@)[0] == (c.story_events@[7].outcomes@[0].id@, c.story_events@[7].outcomes@[0].next_node_id@));
        lemma_first_key(c.story_events@[7].outcomes@, "default"@, 0);
        assert(outcome_pairs(c.story_events@[7].outcomes@).len() == 1);
        assert(c.story_events@[7].outcomes@.subrange(0, 0).len() == 0);
        assert(other_targets(c.story_events@[7].outcomes@.subrange(0, 0), "default"@) == Seq::<Seq<char>>::empty());
        assert(c.story_events@[7].outcomes@.subrange(0, 1).drop_last() =~= c.story_events@[7].outcomes@.subrange(0, 0));
        assert(c.story_events@[7].outcomes@.subrange(0, 1).last() == c.story_events@[7].outcomes@[0]);
        assert(other_targets(c.story_events@[7].outcomes@.subrange(0, 1), "default"@) =~= seq![]);
        assert(c.story_events@[7].outcomes@.subrange(0, 1) =~= c.story_events@[7].outcomes@);
        assert(other_targets(c.story_events@[7].outcomes@, "default"@) =~= seq![]);
        assert(event_targets(c.story_events@[7].outcomes@, "default"@) =~= seq!["hardware_demo_missed_ending"@]);
    }
    assert(node_targets(c.story_events@, c.nodes@[12]) == seq!["hardware_demo_invalid_ending"@]) by {
        assert(c.story_events@[8].key() == "hardware_tap_invalid"@);
        lemma_first_key(c.story_events@, "hardware_tap_invalid"@, 8);
        assert(outcome_pairs(c.story_events@[8].outcomes@).len() == 1);
        assert(outcome_pairs(c.story_events@[8].outcomes@)[0] == (c.story_events@[8].outcomes@[0].id@, c.story_events@[8].outcomes@[0].next_node_id@));
        lemma_first_key(c.story_events@[8].outcomes@, "default"@, 0);
        assert(outcome_pairs(c.story_events@[8].outcomes@).len() == 1);
        assert(c.story_events@[8].outcomes@.subrange(0, 0).len() == 0);
        assert(other_targets(c.story_events@[8].outcomes@.subrange(0, 0), "default"@) == Seq::<Seq<char>>::empty());
        assert(c.story_events@[8].outcomes@.subrange(0, 1).drop_last() =~= c.story_events@[8].outcomes@.subrange(0, 0));
        assert(c.story_events@[8].outcomes@.subrange(0, 1).last() == c.story_events@[8].outcomes@[0]);
        assert(other_targets(c.story_events@[8].outcomes@.subrange(0, 1), "default"@) =~= seq![]);
        assert(c.story_events@[8].outcomes@.subrange(0, 1) =~= c.story_events@[8].outcomes@);
        assert(other_targets(c.story_events@[8].outcomes@, "default"@) =~= seq![]);
        assert(event_targets(c.story_events@[8].outcomes@, "default"@) =~= seq!["hardware_demo_invalid_ending"@]);
    }
    assert(node_targets(c.story_events@, c.nodes@[13]) =~= seq![]);
    assert(node_targets(c.story_events@, c.nodes@[14]) =~= seq![]);
    assert(node_targets(c.story_events@, c.nodes@[15]) =~= seq![]);
    let rank = |i: int| if i == 0 { 0nat } else if i == 1 { 1nat } else if i == 2 { 4nat } else if i == 3 { 3nat } else if i == 4 { 2nat } else if i == 5 { 5nat } else if i == 6 { 8nat } else if i == 7 { 7nat } else if i == 8 { 6nat } else if i == 9 { 9nat } else if i == 10 { 14nat } else if i == 11 { 12nat } else if i == 12 { 10nat } else if i == 13 { 15nat } else if i == 14 { 13nat } else if i == 15 { 11nat } else { 0nat };
    let parent = |i: int| if i == 1 { 0int } else if i == 2 { 1int } else if i == 3 { 1int } else if i == 4 { 1int } else if i == 5 { 2int } else if i == 6 { 5int } else if i == 7 { 5int } else if i == 8 { 5int } else if i == 9 { 6int } else if i == 10 { 9int } else if i == 11 { 9int } else if i == 12 { 9int } else if i == 13 { 10int } else if i == 14 { 3int } else if i == 15 { 4int } else { 0int };
    assert forall|a: int, b: int| #[trigger] story_edge(c, a, b) implies rank(a) < rank(b) by {
        if a == 0 {
            assert(c.nodes@[b].key() == c.nodes@[b].id@);
            assert(c.nodes@[1].key() == "hardware_demo_call"@);
        } else if a == 1 {
            assert(c.nodes@[b].key() == c.nodes@[b].id@);
            assert(c.nodes@[2].key() == "hardware_training_success_event"@);
            assert(c.nodes@[3].key() == "hardware_training_missed_event"@);
            assert(c.nodes@[4].key() == "hardware_training_invalid_event"@);
        } else if a == 2 {
            assert(c.nodes@[b].key() == c.nodes@[b].id@);
            assert(c.nodes@[5].key() == "hardware_demo_interference_call"@);
        } else if a == 3 {
            assert(c.nodes@[b].key() == c.nodes@[b].id@);
            assert(c.nodes@[14].key() == "hardware_demo_missed_ending"@);
        } else if a == 4 {
            assert(c.nodes@[b].key() == c.nodes@[b].id@);
            assert(c.nodes@[15].key() == "hardware_demo_invalid_ending"@);
        } else if a == 5 {
            assert(c.nodes@[b].key() == c.nodes@[b].id@);
            assert(c.nodes@[6].key() == "hardware_interference_success_event"@);
            assert(c.nodes@[7].key() == "hardware_interference_missed_event"@);
            assert(c.nodes@[8].key() == "hardware_interference_invalid_event"@);
        } else if a == 6 {
            assert(c.nodes@[b].key() == c.nodes@[b].id@);
            assert(c.nodes@[9].key() == "hardware_demo_tap_call"@);
        } else if a == 7 {
            assert(c.nodes@[b].key() == c.nodes@[b].id@);
            assert(c.nodes@[14].key() == "hardware_demo_missed_ending"@);
        } else if a == 8 {
            assert(c.nodes@[b].key() == c.nodes@[b].id@);
            assert(c.nodes@[15].key() == "hardware_demo_invalid_ending"@);
        } else if a == 9 {
            assert(c.nodes@[b].key() == c.nodes@[b].id@);
            assert(c.nodes@[10].key() == "hardware_tap_success_event"@);
            assert(c.nodes@[11].key() == "hardware_tap_missed_event"@);
            assert(c.nodes@[12].key() == "hardware_tap_invalid_event"@);
        } else if a == 10 {
            assert(c.nodes@[b].key() == c.nodes@[b].id@);
            assert(c.nodes@[13].key() == "hardware_demo_success_ending"@);
        } else if a == 11 {
            assert(c.nodes@[b].key() == c.nodes@[b].id@);
            assert(c.nodes@[14].key() == "hardware_demo_missed_ending"@);
        } else if a == 12 {
            assert(c.nodes@[b].key() == c.nodes@[b].id@);
            assert(c.nodes@[15].key() == "hardware_demo_invalid_ending"@);
        } else if a == 13 {
            assert(c.nodes@[b].key() == c.nodes@[b].id@);
        } else if a == 14 {
            assert(c.nodes@[b].key() == c.nodes@[b].id@);
        } else if a == 15 {
            assert(c.nodes@[b].key() == c.nodes@[b].id@);
        }
    }
    assert forall|w: int| 0 <= w < 16 && w != 0 implies 0 <= #[trigger] parent(w) < 16 && rank(parent(w)) < rank(w) && story_edge(c, parent(w), w) by {
        if w == 1 {
            assert(node_targets(c.story_events@, c.nodes@[0])[0] == c.nodes@[1].id@);
        } else if w == 2 {
            assert(node_targets(c.story_events@, c.nodes@[1])[0] == c.nodes@[2].id@);
        } else if w == 3 {
            assert(node_targets(c.story_events@, c.nodes@[1])[1] == c.nodes@[3].id@);
        } else if w == 4 {
            assert(node_targets(c.story_events@, c.nodes@[1])[2] == c.nodes@[4].id@);
        } else if w == 5 {
            assert(node_targets(c.story_events@, c.nodes@[2])[0] == c.nodes@[5].id@);
        } else if w == 6 {
            assert(node_targets(c.story_events@, c.nodes@[5])[0] == c.nodes@[6].id@);
        } else if w == 7 {
            assert(node_targets(c.story_events@, c.nodes@[5])[1] == c.nodes@[7].id@);
        } else if w == 8 {
            assert(node_targets(c.story_events@, c.nodes@[5])[2] == c.nodes@[8].id@);
        } else if w == 9 {
            assert(node_targets(c.story_events@, c.nodes@[6])[0] == c.nodes@[9].id@);
        } else if w == 10 {
            assert(node_targets(c.story_events@, c.nodes@[9])[0] == c.nodes@[10].id@);
        } else if w == 11 {
            assert(node_targets(c.story_events@, c.nodes@[9])[1] == c.nodes@[11].id@);
        } else if w == 12 {
            assert(node_targets(c.story_events@, c.nodes@[9])[2] == c.nodes@[12].id@);
        } else if w == 13 {
            assert(node_targets(c.story_events@, c.nodes@[10])[0] == c.nodes@[13].id@);
        } else if w == 14 {
            assert(node_targets(c.story_events@, c.nodes@[3])[0] == c.nodes@[14].id@);
        } else if w == 15 {
            assert(node_targets(c.story_events@, c.nodes@[4])[0] == c.nodes@[15].id@);
        }
    }
    lemma_ranked_edges_acyclic(c, rank);
    assert forall|v: int| 0 <= v < 16 implies #[trigger] story_reaches(c, start_position(c), v) && !story_cycle(c, v) by {
        lemma_parents_reach(c, 0, rank, parent, v);
    }
}

/// The live cabinet story, record by record.
pub open spec fn is_simple_hardware_demo_content(c: AuthoredContent) -> bool {
    &&& c.subscribers@.len() == 8
    &&& subscriber_is(c.subscribers@[0], "taren_kesh"@, "Taren Kesh"@)
    &&& subscriber_is(c.subscribers@[1], "vira_dhal"@, "Vira Dhal"@)
    &&& subscriber_is(c.subscribers@[2], "leya_varan"@, "Dr. Leya Varan"@)
    &&& subscriber_is(c.subscribers@[3], "oren_vey"@, "Captain Oren Vey"@)
    &&& subscriber_is(c.subscribers@[4], "neri_tal"@, "Neri Tal"@)
    &&& subscriber_is(c.subscribers@[5], "mira_sen"@, "Mira Sen"@)
    &&& subscriber_is(c.subscribers@[6], "kavi_oran"@, "Kavi Oran"@)
    &&& subscriber_is(c.subscribers@[7], "sela_var"@, "Sela Var"@)
    &&& c.line_listings@.len() == 8
    &&& listing_is(c.line_listings@[0], "line_0"@, 0, seq!["taren_kesh"@])
    &&& listing_is(c.line_listings@[1], "line_1"@, 1, seq!["vira_dhal"@])
    &&& listing_is(c.line_listings@[2], "line_2"@, 2, seq!["leya_varan"@])
    &&& listing_is(c.line_listings@[3], "line_3"@, 3, seq!["oren_vey"@])
    &&& listing_is(c.line_listings@[4], "line_4"@, 4, seq!["neri_tal"@])
    &&& listing_is(c.line_listings@[5], "line_5"@, 5, seq!["mira_sen"@])
    &&& listing_is(c.line_listings@[6], "line_6"@, 6, seq!["kavi_oran"@])
    &&& listing_is(c.line_listings@[7], "line_7"@, 7, seq!["sela_var"@])
    &&& c.call_premises@.len() == 1
    &&& premise_is(c.call_premises@[0], "random_cabinet_call"@, "taren_kesh"@, "vira_dhal"@, "line_0"@, "line_1"@, seq![0u16, 1u16, 2u16, 3u16, 4u16, 5u16, 6u16, 7u16])
    &&& c.story_beats@.len() == 1
    &&& beat_is(c.story_beats@[0], "random_cabinet_beat"@, "random_cabinet_call"@)
    &&& c.story_events@.len() == 1
    &&& event_is(c.story_events@[0], "random_cabinet_success"@, seq![("default"@, "live_call_end"@)])
    &&& c.endings@.len() == 1
    &&& ending_is(c.endings@[0], "live_call_ending"@, "Live cabinet call completed."@)
    &&& c.nodes@.len() == 4
    &&& run_start_is(c.nodes@[0], "run_start"@, "live_call"@)
    &&& shift_call_is(c.nodes@[1], "live_call"@, "random_cabinet_beat"@, "random_cabinet_event"@, "random_cabinet_event"@, "random_cabinet_event"@)
    &&& event_node_is(c.nodes@[2], "random_cabinet_event"@, "random_cabinet_success"@, "default"@)
    &&& ending_node_is(c.nodes@[3], "live_call_end"@, "live_call_ending"@)
    &&& c.start_node_id@ == "run_start"@
}

/// The simple hardware demo content passes validation and its graph is sound.
#[verifier::rlimit(80)]
#[verifier::spinoff_prover]
proof fn lemma_simple_hardware_demo_compiles(c: AuthoredContent)
    requires
        is_simple_hardware_demo_content(c),
    ensures
        content_valid(c),
        graph_sound(c),
{
    reveal_strlit("Captain Oren Vey");
    reveal_strlit("Dr. Leya Varan");
    reveal_strlit("Kavi Oran");
    reveal_strlit("Live cabinet call completed.");
    reveal_strlit("Mira Sen");
    reveal_strlit("Neri Tal");
    reveal_strlit("Sela Var");
    reveal_strlit("Taren Kesh");
    reveal_strlit("Vira Dhal");
    reveal_strlit("default");
    reveal_strlit("kavi_oran");
    reveal_strlit("leya_varan");
    reveal_strlit("line_0");
    reveal_strlit("line_1");
    reveal_strlit("line_2");
    reveal_strlit("line_3");
    reveal_strlit("line_4");
    reveal_strlit("line_5");
    reveal_strlit("line_6");
    reveal_strlit("line_7");
    reveal_strlit("live_call");
    reveal_strlit("live_call_end");
    reveal_strlit("live_call_ending");
    reveal_strlit("mira_sen");
    reveal_strlit("neri_tal");
    reveal_strlit("oren_vey");
    reveal_strlit("random_cabinet_beat");
    reveal_strlit("random_cabinet_call");
    reveal_strlit("random_cabinet_event");
    reveal_strlit("random_cabinet_success");
    reveal_strlit("run_start");
    reveal_strlit("sela_var");
    reveal_strlit("taren_kesh");
    reveal_strlit("vira_dhal");
    assert(ids_ok(c.subscribers@)) by {
        assert forall|i: int| 0 <= i < 8 implies !is_blank((#[trigger] c.subscribers@[i]).key()) by {
            if i == 0 {
                assert(!is_white_space(c.subscribers@[0].key()[0]));
            } else if i == 1 {
                assert(!is_white_space(c.subscribers@[1].key()[0]));
            } else if i == 2 {
                assert(!is_white_space(c.subscribers@[2].key()[0]));
            } else if i == 3 {
                assert(!is_white_space(c.subscribers@[3].key()[0]));
            } else if i == 4 {
                assert(!is_white_space(c.subscribers@[4].key()[0]));
            } else if i == 5 {
                assert(!is_white_space(c.subscribers@[5].key()[0]));
            } else if i == 6 {
                assert(!is_white_space(c.subscribers@[6].key()[0]));
            } else if i == 7 {
                assert(!is_white_space(c.subscribers@[7].key()[0]));
            }
        }
        assert forall|i: int, j: int| 0 <= i < j < 8 implies (#[trigger] c.subscribers@[i]).key() != (#[trigger] c.subscribers@[j]).key() by {
            if i == 0 && j == 1 {
                assert(c.subscribers@[0].key().len() != c.subscribers@[1].key().len());
            } else if i == 0 && j == 2 {
                assert(c.subscribers@[0].key()[0] != c.subscribers@[2].key()[0]);
            } else if i == 0 && j == 3 {
                assert(c.subscribers@[0].key().len() != c.subscribers@[3].key().len());
            } else if i == 0 && j == 4 {
                assert(c.subscribers@[0].key().len() != c.subscribers@[4].key().len());
            } else if i == 0 && j == 5 {
                assert(c.subscribers@[0].key().len() != c.subscribers@[5].key().len());
            } else if i == 0 && j == 6 {
                assert(c.subscribers@[0].key().len() != c.subscribers@[6].key().len());
            } else if i == 0 && j == 7 {
                assert(c.subscribers@[0].key().len() != c.subscribers@[7].key().len());
            } else if i == 1 && j == 2 {
                assert(c.subscribers@[1].key().len() != c.subscribers@[2].key().len());
            } else if i == 1 && j == 3 {
                assert(c.subscribers@[1].key().len() != c.subscribers@[3].key().len());
            } else if i == 1 && j == 4 {
                assert(c.subscribers@[1].key().len() != c.subscribers@[4].key().len());
            } else if i == 1 && j == 5 {
                assert(c.subscribers@[1].key().len() != c.subscribers@[5].key().len());
            } else if i == 1 && j == 6 {
                assert(c.subscribers@[1].key()[0] != c.subscribers@[6].key()[0]);
            } else if i == 1 && j == 7 {
                assert(c.subscribers@[1].key().len() != c.subscribers@[7].key().len());
            } else if i == 2 && j == 3 {
                assert(c.subscribers@[2].key().len() != c.subscribers@[3].key().len());
            } else if i == 2 && j == 4 {
                assert(c.subscribers@[2].key().len() != c.subscribers@[4].key().len());
            } else if i == 2 && j == 5 {
                assert(c.subscribers@[2].key().len() != c.subscribers@[5].key().len());
            } else if i == 2 && j == 6 {
                assert(c.subscribers@[2].key().len() != c.subscribers@[6].key().len());
            } else if i == 2 && j == 7 {
                assert(c.subscribers@[2].key().len() != c.subscribers@[7].key().len());
            } else if i == 3 && j == 4 {
                assert(c.subscribers@[3].key()[0] != c.subscribers@[4].key()[0]);
            } else if i == 3 && j == 5 {
                assert(c.subscribers@[3].key()[0] != c.subscribers@[5].key()[0]);
            } else if i == 3 && j == 6 {
                assert(c.subscribers@[3].key().len() != c.subscribers@[6].key().len());
            } else if i == 3 && j == 7 {
                assert(c.subscribers@[3].key()[0] != c.subscribers@[7].key()[0]);
            } else if i == 4 && j == 5 {
                assert(c.subscribers@[4].key()[0] != c.subscribers@[5].key()[0]);
            } else if i == 4 && j == 6 {
                assert(c.subscribers@[4].key().len() != c.subscribers@[6].key().len());
            } else if i == 4 && j == 7 {
                assert(c.subscribers@[4].key()[0] != c.subscribers@[7].key()[0]);
            } else if i == 5 && j == 6 {
                assert(c.subscribers@[5].key().len() != c.subscribers@[6].key().len());
            } else if i == 5 && j == 7 {
                assert(c.subscribers@[5].key()[0] != c.subscribers@[7].key()[0]);
            } else if i == 6 && j == 7 {
                assert(c.subscribers@[6].key().len() != c.subscribers@[7].key().len());
            }
        }
    }
    assert(ids_ok(c.line_listings@)) by {
        assert forall|i: int| 0 <= i < 8 implies !is_blank((#[trigger] c.line_listings@[i]).key()) by {
            if i == 0 {
                assert(!is_white_space(c.line_listings@[0].key()[0]));
            } else if i == 1 {
                assert(!is_white_space(c.line_listings@[1].key()[0]));
            } else if i == 2 {
                assert(!is_white_space(c.line_listings@[2].key()[0]));
            } else if i == 3 {
                assert(!is_white_space(c.line_listings@[3].key()[0]));
            } else if i == 4 {
                assert(!is_white_space(c.line_listings@[4].key()[0]));
            } else if i == 5 {
                assert(!is_white_space(c.line_listings@[5].key()[0]));
            } else if i == 6 {
                assert(!is_white_space(c.line_listings@[6].key()[0]));
            } else if i == 7 {
                assert(!is_white_space(c.line_listings@[7].key()[0]));
            }
        }
        assert forall|i: int, j: int| 0 <= i < j < 8 implies (#[trigger] c.line_listings@[i]).key() != (#[trigger] c.line_listings@[j]).key() by {
            if i == 0 && j == 1 {
                assert(c.line_listings@[0].key()[5] != c.line_listings@[1].key()[5]);
            } else if i == 0 && j == 2 {
                assert(c.line_listings@[0].key()[5] != c.line_listings@[2].key()[5]);
            } else if i == 0 && j == 3 {
                assert(c.line_listings@[0].key()[5] != c.line_listings@[3].key()[5]);
            } else if i == 0 && j == 4 {
                assert(c.line_listings@[0].key()[5] != c.line_listings@[4].key()[5]);
            } else if i == 0 && j == 5 {
                assert(c.line_listings@[0].key()[5] != c.line_listings@[5].key()[5]);
            } else if i == 0 && j == 6 {
                assert(c.line_listings@[0].key()[5] != c.line_listings@[6].key()[5]);
            } else if i == 0 && j == 7 {
                assert(c.line_listings@[0].key()[5] != c.line_listings@[7].key()[5]);
            } else if i == 1 && j == 2 {
                assert(c.line_listings@[1].key()[5] != c.line_listings@[2].key()[5]);
            } else if i == 1 && j == 3 {
                assert(c.line_listings@[1].key()[5] != c.line_listings@[3].key()[5]);
            } else if i == 1 && j == 4 {
                assert(c.line_listings@[1].key()[5] != c.line_listings@[4].key()[5]);
            } else if i == 1 && j == 5 {
                assert(c.line_listings@[1].key()[5] != c.line_listings@[5].key()[5]);
            } else if i == 1 && j == 6 {
                assert(c.line_listings@[1].key()[5] != c.line_listings@[6].key()[5]);
            } else if i == 1 && j == 7 {
                assert(c.line_listings@[1].key()[5] != c.line_listings@[7].key()[5]);
            } else if i == 2 && j == 3 {
                assert(c.line_listings@[2].key()[5] != c.line_listings@[3].key()[5]);
            } else if i == 2 && j == 4 {
                assert(c.line_listings@[2].key()[5] != c.line_listings@[4].key()[5]);
            } else if i == 2 && j == 5 {
                assert(c.line_listings@[2].key()[5] != c.line_listings@[5].key()[5]);
            } else if i == 2 && j == 6 {
                assert(c.line_listings@[2].key()[5] != c.line_listings@[6].key()[5]);
            } else if i == 2 && j == 7 {
                assert(c.line_listings@[2].key()[5] != c.line_listings@[7].key()[5]);
            } else if i == 3 && j == 4 {
                assert(c.line_listings@[3].key()[5] != c.line_listings@[4].key()[5]);
            } else if i == 3 && j == 5 {
                assert(c.line_listings@[3].key()[5] != c.line_listings@[5].key()[5]);
            } else if i == 3 && j == 6 {
                assert(c.line_listings@[3].key()[5] != c.line_listings@[6].key()[5]);
            } else if i == 3 && j == 7 {
                assert(c.line_listings@[3].key()[5] != c.line_listings@[7].key()[5]);
            } else if i == 4 && j == 5 {
                assert(c.line_listings@[4].key()[5] != c.line_listings@[5].key()[5]);
            } else if i == 4 && j == 6 {
                assert(c.line_listings@[4].key()[5] != c.line_listings@[6].key()[5]);
            } else if i == 4 && j == 7 {
                assert(c.line_listings@[4].key()[5] != c.line_listings@[7].key()[5]);
            } else if i == 5 && j == 6 {
                assert(c.line_listings@[5].key()[5] != c.line_listings@[6].key()[5]);
            } else if i == 5 && j == 7 {
                assert(c.line_listings@[5].key()[5] != c.line_listings@[7].key()[5]);
            } else if i == 6 && j == 7 {
                assert(c.line_listings@[6].key()[5] != c.line_listings@[7].key()[5]);
            }
        }
    }
    assert(ids_ok(c.call_premises@)) by {
        assert forall|i: int| 0 <= i < 1 implies !is_blank((#[trigger] c.call_premises@[i]).key()) by {
            if i == 0 {
                assert(!is_white_space(c.call_premises@[0].key()[0]));
            }
        }
    }
    assert(ids_ok(c.story_beats@)) by {
        assert forall|i: int| 0 <= i < 1 implies !is_blank((#[trigger] c.story_beats@[i]).key()) by {
            if i == 0 {
                assert(!is_white_space(c.story_beats@[0].key()[0]));
            }
        }
    }
    assert(ids_ok(c.story_events@)) by {
        assert forall|i: int| 0 <= i < 1 implies !is_blank((#[trigger] c.story_events@[i]).key()) by {
            if i == 0 {
                assert(!is_white_space(c.story_events@[0].key()[0]));
            }
        }
    }
    assert(ids_ok(c.endings@)) by {
        assert forall|i: int| 0 <= i < 1 implies !is_blank((#[trigger] c.endings@[i]).key()) by {
            if i == 0 {
                assert(!is_white_space(c.endings@[0].key()[0]));
            }
        }
    }
    assert(ids_ok(c.nodes@)) by {
        assert forall|i: int| 0 <= i < 4 implies !is_blank((#[trigger] c.nodes@[i]).key()) by {
            if i == 0 {
                assert(!is_white_space(c.nodes@[0].key()[0]));
            } else if i == 1 {
                assert(!is_white_space(c.nodes@[1].key()[0]));
            } else if i == 2 {
                assert(!is_white_space(c.nodes@[2].key()[0]));
            } else if i == 3 {
                assert(!is_white_space(c.nodes@[3].key()[0]));
            }
        }
        assert forall|i: int, j: int| 0 <= i < j < 4 implies (#[trigger] c.nodes@[i]).key() != (#[trigger] c.nodes@[j]).key() by {
            if i == 0 && j == 1 {
                assert(c.nodes@[0].key()[0] != c.nodes@[1].key()[0]);
            } else if i == 0 && j == 2 {
                assert(c.nodes@[0].key().len() != c.nodes@[2].key().len());
            } else if i == 0 && j == 3 {
                assert(c.nodes@[0].key().len() != c.nodes@[3].key().len());
            } else if i == 1 && j == 2 {
                assert(c.nodes@[1].key().len() != c.nodes@[2].key().len());
            } else if i == 1 && j == 3 {
                assert(c.nodes@[1].key().len() != c.nodes@[3].key().len());
            } else if i == 2 && j == 3 {
                assert(c.nodes@[2].key().len() != c.nodes@[3].key().len());
            }
        }
    }
    assert(listing_ok(c, c.line_listings@[0])) by {
        assert(texts(c.line_listings@[0].subscriber_ids@).len() == 1);
        assert forall|k: int| 0 <= k < 1 implies has_key(c.subscribers@, (#[trigger] c.line_listings@[0].subscriber_ids@[k])@) by {
            if k == 0 {
                assert(c.line_listings@[0].subscriber_ids@[0]@ == texts(c.line_listings@[0].subscriber_ids@)[0]);
                assert(c.subscribers@[0].key() == c.line_listings@[0].subscriber_ids@[0]@);
            }
        }
    }
    assert(listing_ok(c, c.line_listings@[1])) by {
        assert(texts(c.line_listings@[1].subscriber_ids@).len() == 1);
        assert forall|k: int| 0 <= k < 1 implies has_key(c.subscribers@, (#[trigger] c.line_listings@[1].subscriber_ids@[k])@) by {
            if k == 0 {
                assert(c.line_listings@[1].subscriber_ids@[0]@ == texts(c.line_listings@[1].subscriber_ids@)[0]);
                assert(c.subscribers@[1].key() == c.line_listings@[1].subscriber_ids@[0]@);
            }
        }
    }
    assert(listing_ok(c, c.line_listings@[2])) by {
        assert(texts(c.line_listings@[2].subscriber_ids@).len() == 1);
        assert forall|k: int| 0 <= k < 1 implies has_key(c.subscribers@, (#[trigger] c.line_listings@[2].subscriber_ids@[k])@) by {
            if k == 0 {
                assert(c.line_listings@[2].subscriber_ids@[0]@ == texts(c.line_listings@[2].subscriber_ids@)[0]);
                assert(c.subscribers@[2].key() == c.line_listings@[2].subscriber_ids@[0]@);
            }
        }
    }
    assert(listing_ok(c, c.line_listings@[3])) by {
        assert(texts(c.line_listings@[3].subscriber_ids@).len() == 1);
        assert forall|k: int| 0 <= k < 1 implies has_key(c.subscribers@, (#[trigger] c.line_listings@[3].subscriber_ids@[k])@) by {
            if k == 0 {
                assert(c.line_listings@[3].subscriber_ids@[0]@ == texts(c.line_listings@[3].subscriber_ids@)[0]);
                assert(c.subscribers@[3].key() == c.line_listings@[3].subscriber_ids@[0]@);
            }
        }
    }
    assert(listing_ok(c, c.line_listings@[4])) by {
        assert(texts(c.line_listings@[4].subscriber_ids@).len() == 1);
        assert forall|k: int| 0 <= k < 1 implies has_key(c.subscribers@, (#[trigger] c.line_listings@[4].subscriber_ids@[k])@) by {
            if k == 0 {
                assert(c.line_listings@[4].subscriber_ids@[0]@ == texts(c.line_listings@[4].subscriber_ids@)[0]);
                assert(c.subscribers@[4].key() == c.line_listings@[4].subscriber_ids@[0]@);
            }
        }
    }
    assert(listing_ok(c, c.line_listings@[5])) by {
        assert(texts(c.line_listings@[5].subscriber_ids@).len() == 1);
        assert forall|k: int| 0 <= k < 1 implies has_key(c.subscribers@, (#[trigger] c.line_listings@[5].subscriber_ids@[k])@) by {
            if k == 0 {
                assert(c.line_listings@[5].subscriber_ids@[0]@ == texts(c.line_listings@[5].subscriber_ids@)[0]);
                assert(c.subscribers@[5].key() == c.line_listings@[5].subscriber_ids@[0]@);
            }
        }
    }
    assert(listing_ok(c, c.line_listings@[6])) by {
        assert(texts(c.line_listings@[6].subscriber_ids@).len() == 1);
        assert forall|k: int| 0 <= k < 1 implies has_key(c.subscribers@, (#[trigger] c.line_listings@[6].subscriber_ids@[k])@) by {
            if k == 0 {
                assert(c.line_listings@[6].subscriber_ids@[0]@ == texts(c.line_listings@[6].subscriber_ids@)[0]);
                assert(c.subscribers@[6].key() == c.line_listings@[6].subscriber_ids@[0]@);
            }
        }
    }
    assert(listing_ok(c, c.line_listings@[7])) by {
        assert(texts(c.line_listings@[7].subscriber_ids@).len() == 1);
        assert forall|k: int| 0 <= k < 1 implies has_key(c.subscribers@, (#[trigger] c.line_listings@[7].subscriber_ids@[k])@) by {
            if k == 0 {
                assert(c.line_listings@[7].subscriber_ids@[0]@ == texts(c.line_listings@[7].subscriber_ids@)[0]);
                assert(c.subscribers@[7].key() == c.line_listings@[7].subscriber_ids@[0]@);
            }
        }
    }
    assert forall|i: int| 0 <= i < 8 implies listing_ok(c, #[trigger] c.line_listings@[i]) by {
        if i == 0 {
        } else if i == 1 {
        } else if i == 2 {
        } else if i == 3 {
        } else if i == 4 {
        } else if i == 5 {
        } else if i == 6 {
        } else if i == 7 {
        }
    }
    assert forall|i: int, j: int| 0 <= i < j < 8 implies (#[trigger] c.line_listings@[i]).line != (#[trigger] c.line_listings@[j]).line by {
        if i == 0 && j == 1 {
        } else if i == 0 && j == 2 {
        } else if i == 0 && j == 3 {
        } else if i == 0 && j == 4 {
        } else if i == 0 && j == 5 {
        } else if i == 0 && j == 6 {
        } else if i == 0 && j == 7 {
        } else if i == 1 && j == 2 {
        } else if i == 1 && j == 3 {
        } else if i == 1 && j == 4 {
        } else if i == 1 && j == 5 {
        } else if i == 1 && j == 6 {
        } else if i == 1 && j == 7 {
        } else if i == 2 && j == 3 {
        } else if i == 2 && j == 4 {
        } else if i == 2 && j == 5 {
        } else if i == 2 && j == 6 {
        } else if i == 2 && j == 7 {
        } else if i == 3 && j == 4 {
        } else if i == 3 && j == 5 {
        } else if i == 3 && j == 6 {
        } else if i == 3 && j == 7 {
        } else if i == 4 && j == 5 {
        } else if i == 4 && j == 6 {
        } else if i == 4 && j == 7 {
        } else if i == 5 && j == 6 {
        } else if i == 5 && j == 7 {
        } else if i == 6 && j == 7 {
        }
    }
    assert(premise_ok(c, c.call_premises@[0])) by {
        assert(c.call_premises@[0].directory_ids@.len() == 8);
        assert forall|k: int| 0 <= k < 8 implies #[trigger] c.call_premises@[0].directory_ids@[k] <= 9999 by {
            if k == 0 {
            } else if k == 1 {
            } else if k == 2 {
            } else if k == 3 {
            } else if k == 4 {
            } else if k == 5 {
            } else if k == 6 {
            } else if k == 7 {
            }
        }
        assert(c.subscribers@[0].key() == c.call_premises@[0].caller_id@);
        assert(c.subscribers@[1].key() == c.call_premises@[0].callee_id@);
        assert(c.line_listings@[0].key() == c.call_premises@[0].caller_line_id@);
        assert(c.line_listings@[1].key() == c.call_premises@[0].callee_line_id@);
        assert(c.call_premises@[0].caller_line_id@[5] != c.call_premises@[0].callee_line_id@[5]);
        assert(c.line_listings@[0].subscriber_ids@[0]@ == texts(c.line_listings@[0].subscriber_ids@)[0]);
        assert(c.line_listings@[0].id@ == "line_0"@ && has_text(c.line_listings@[0].subscriber_ids@, "taren_kesh"@));
        assert(c.line_listings@[1].subscriber_ids@[0]@ == texts(c.line_listings@[1].subscriber_ids@)[0]);
        assert(c.line_listings@[1].id@ == "line_1"@ && has_text(c.line_listings@[1].subscriber_ids@, "vira_dhal"@));
    }
    assert forall|i: int| 0 <= i < 1 implies premise_ok(c, #[trigger] c.call_premises@[i]) by {
        if i == 0 {
        }
    }
    assert forall|i: int| 0 <= i < 1 implies has_key(c.call_premises@, (#[trigger] c.story_beats@[i]).call_premise_id@) by {
        if i == 0 {
            assert(c.call_premises@[0].key() == c.story_beats@[0].call_premise_id@);
        }
    }
    assert(event_ok(c, c.story_events@[0])) by {
        assert(outcome_pairs(c.story_events@[0].outcomes@).len() == 1);
        assert(outcome_pairs(c.story_events@[0].outcomes@)[0] == (c.story_events@[0].outcomes@[0].id@, c.story_events@[0].outcomes@[0].next_node_id@));
        assert(ids_ok(c.story_events@[0].outcomes@)) by {
            assert forall|i: int| 0 <= i < 1 implies !is_blank((#[trigger] c.story_events@[0].outcomes@[i]).key()) by {
                if i == 0 {
                    assert(!is_white_space(c.story_events@[0].outcomes@[0].key()[0]));
                }
            }
        }
        assert forall|k: int| 0 <= k < 1 implies has_key(c.nodes@, (#[trigger] c.story_events@[0].outcomes@[k]).next_node_id@) by {
            if k == 0 {
                assert(c.nodes@[3].key() == c.story_events@[0].outcomes@[0].next_node_id@);
            }
        }
    }
    assert forall|i: int| 0 <= i < 1 implies event_ok(c, #[trigger] c.story_events@[i]) by {
        if i == 0 {
        }
    }
    assert forall|i: int| 0 <= i < 1 implies !is_blank((#[trigger] c.endings@[i]).conclusion@) by {
        if i == 0 {
            assert(!is_white_space(c.endings@[0].conclusion@[0]));
        }
    }
    assert(c.nodes@[0].key() == c.start_node_id@);
    assert(node_ok(c, c.nodes@[0])) by {
        assert(c.nodes@[1].key() == "live_call"@);
    }
    assert(node_ok(c, c.nodes@[1])) by {
        assert(c.story_beats@[0].key() == "random_cabinet_beat"@);
        assert(c.nodes@[2].key() == "random_cabinet_event"@);
        assert(c.nodes@[2].key() == "random_cabinet_event"@);
        assert(c.nodes@[2].key() == "random_cabinet_event"@);
    }
    assert(node_ok(c, c.nodes@[2])) by {
        assert(c.story_events@[0].key() == "random_cabinet_success"@);
        assert(outcome_pairs(c.story_events@[0].outcomes@)[0] == (c.story_events@[0].outcomes@[0].id@, c.story_events@[0].outcomes@[0].next_node_id@));
        assert(c.story_events@[0].outcomes@[0].key() == "default"@);
    }
    assert(node_ok(c, c.nodes@[3])) by {
        assert(c.endings@[0].key() == "live_call_ending"@);
    }
    assert forall|i: int| 0 <= i < 4 implies node_ok(c, #[trigger] c.nodes@[i]) by {
        if i == 0 {
        } else if i == 1 {
        } else if i == 2 {
        } else if i == 3 {
        }
    }
    assert(content_valid(c));
    lemma_first_key(c.nodes@, c.start_node_id@, 0);
    assert(node_targets(c.story_events@, c.nodes@[0]) =~= seq!["live_call"@]);
    assert(node_targets(c.story_events@, c.nodes@[1]) =~= seq!["random_cabinet_event"@, "random_cabinet_event"@, "random_cabinet_event"@]);
    assert(node_targets(c.story_events@, c.nodes@[2]) == seq!["live_call_end"@]) by {
        assert(c.story_events@[0].key() == "random_cabinet_success"@);
        lemma_first_key(c.story_events@, "random_cabinet_success"@, 0);
        assert(outcome_pairs(c.story_events@[0].outcomes@).len() == 1);
        assert(outcome_pairs(c.story_events@[0].outcomes@)[0] == (c.story_events@[0].outcomes@[0].id@, c.story_events@[0].outcomes@[0].next_node_id@));
        lemma_first_key(c.story_events@[0].outcomes@, "default"@, 0);
        assert(outcome_pairs(c.story_events@[0].outcomes@).len() == 1);
        assert(c.story_events@[0].outcomes@.subrange(0, 0).len() == 0);
        assert(other_targets(c.story_events@[0].outcomes@.subrange(0, 0), "default"@) == Seq::<Seq<char>>::empty());
        assert(c.story_events@[0].outcomes@.subrange(0, 1).drop_last() =~= c.story_events@[0].outcomes@.subrange(0, 0));
        assert(c.story_events@[0].outcomes@.subrange(0, 1).last() == c.story_events@[0].outcomes@[0]);
        assert(other_targets(c.story_events@[0].outcomes@.subrange(0, 1), "default"@) =~= seq![]);
        assert(c.story_events@[0].outcomes@.subrange(0, 1) =~= c.story_events@[0].outcomes@);
        assert(other_targets(c.story_events@[0].outcomes@, "default"@) =~= seq![]);
        assert(event_targets(c.story_events@[0].outcomes@, "default"@) =~= seq!["live_call_end"@]);
    }
    assert(node_targets(c.story_events@, c.nodes@[3]) =~= seq![]);
    let rank = |i: int| if i == 0 { 0nat } else if i == 1 { 1nat } else if i == 2 { 2nat } else if i == 3 { 3nat } else { 0nat };
    let parent = |i: int| if i == 1 { 0int } else if i == 2 { 1int } else if i == 3 { 2int } else { 0int };
    assert forall|a: int, b: int| #[trigger] story_edge(c, a, b) implies rank(a) < rank(b) by {
        if a == 0 {
            assert(c.nodes@[b].key() == c.nodes@[b].id@);
            assert(c.nodes@[1].key() == "live_call"@);
        } else if a == 1 {
            assert(c.nodes@[b].key() == c.nodes@[b].id@);
            assert(c.nodes@[2].key() == "random_cabinet_event"@);
            assert(c.nodes@[2].key() == "random_cabinet_event"@);
            assert(c.nodes@[2].key() == "random_cabinet_event"@);
        } else if a == 2 {
            assert(c.nodes@[b].key() == c.nodes@[b].id@);
            assert(c.nodes@[3].key() == "live_call_end"@);
        } else if a == 3 {
            assert(c.nodes@[b].key() == c.nodes@[b].id@);
        }
    }
    assert forall|w: int| 0 <= w < 4 && w != 0 implies 0 <= #[trigger] parent(w) < 4 && rank(parent(w)) < rank(w) && story_edge(c, parent(w), w) by {
        if w == 1 {
            assert(node_targets(c.story_events@, c.nodes@[0])[0] == c.nodes@[1].id@);
        } else if w == 2 {
            assert(node_targets(c.story_events@, c.nodes@[1])[0] == c.nodes@[2].id@);
        } else if w == 3 {
            assert(node_targets(c.story_events@, c.nodes@[2])[0] == c.nodes@[3].id@);
        }
    }
    lemma_ranked_edges_acyclic(c, rank);
    assert forall|v: int| 0 <= v < 4 implies #[trigger] story_reaches(c, start_position(c), v) && !story_cycle(c, v) by {
        lemma_parents_reach(c, 0, rank, parent, v);
    }
}

impl AuthoredContent {
    /// The live cabinet story: one random call on any of eight lines, ending
    /// when the call completes.
    #[verifier::rlimit(80)]
    pub fn simple_hardware_demo() -> (content: Self)
        ensures
            is_simple_hardware_demo_content(content),
            keys_of(content.line_listings@) == Seq::new(8, |i: int| cabinet_line_id(i as nat)),
            content_valid(content),
            graph_sound(content),
    {
        let people: Vec<(&str, &str)> = vec![
            ("taren_kesh", "Taren Kesh"),
            ("vira_dhal", "Vira Dhal"),
            ("leya_varan", "Dr. Leya Varan"),
            ("oren_vey", "Captain Oren Vey"),
            ("neri_tal", "Neri Tal"),
            ("mira_sen", "Mira Sen"),
            ("kavi_oran", "Kavi Oran"),
            ("sela_var", "Sela Var"),
        ];
        let mut subscribers: Vec<Subscriber> = Vec::new();
        let mut line_listings: Vec<LineListing> = Vec::new();
        let mut line: usize = 0;
        while line < people.len()
            invariant
                people@.len() == 8,
                line <= 8,
                subscribers@.len() == line,
                line_listings@.len() == line,
                forall|i: int| 0 <= i < line ==> (#[trigger] subscribers@[i]).id@ == people@[i].0@
                    && subscribers@[i].name@ == people@[i].1@,
                forall|i: int| 0 <= i < line ==> (#[trigger] line_listings@[i]).id@ == cabinet_line_id(i as nat)
                    && line_listings@[i].line == i && texts(line_listings@[i].subscriber_ids@) == seq![people@[i].0@],
            decreases 8 - line,
        {
            let (id, name) = people[line];
            subscribers.push(subscriber(id, name));
            let mut listing_id = text("line_");
            push_decimal(&mut listing_id, line as u64);
            line_listings.push(LineListing { id: listing_id, line: line as u8, subscriber_ids: one_text(id) });
            line = line + 1;
        }
        let mut directory_ids: Vec<u16> = Vec::new();
        let mut d: u16 = 0;
        while d < 8
            invariant
                d <= 8,
                directory_ids@ == Seq::new(d as nat, |i: int| i as u16),
            decreases 8 - d,
        {
            directory_ids.push(d);
            assert(directory_ids@ =~= Seq::new((d + 1) as nat, |i: int| i as u16));
            d = d + 1;
        }
        let content = AuthoredContent {
            subscribers,
            line_listings,
            call_premises: vec![premise("random_cabinet_call", "taren_kesh", "vira_dhal", "line_0", "line_1", directory_ids)],
            story_beats: vec![story_beat("random_cabinet_beat", "random_cabinet_call")],
            story_events: vec![authored_event("random_cabinet_success", "live_call_end")],
            endings: vec![ending("live_call_ending", "Live cabinet call completed.")],
            nodes: vec![
                run_start("run_start", "live_call"),
                shift_call_node("live_call", "random_cabinet_beat", "random_cabinet_event", "random_cabinet_event", "random_cabinet_event"),
                event_node("random_cabinet_event", "random_cabinet_success"),
                ending_node("live_call_end", "live_call_ending"),
            ],
            start_node_id: text("run_start"),
        };
        proof {
            reveal_strlit("line_");
            reveal_strlit("line_0");
            assert(cabinet_line_id(0) =~= "line_0"@);
            assert(content.line_listings@[0].id@ == cabinet_line_id(0 as nat));
            assert(people@[0] == ("taren_kesh", "Taren Kesh"));
            reveal_strlit("line_1");
            assert(cabinet_line_id(1) =~= "line_1"@);
            assert(content.line_listings@[1].id@ == cabinet_line_id(1 as nat));
            assert(people@[1] == ("vira_dhal", "Vira Dhal"));
            reveal_strlit("line_2");
            assert(cabinet_line_id(2) =~= "line_2"@);
            assert(content.line_listings@[2].id@ == cabinet_line_id(2 as nat));
            assert(people@[2] == ("leya_varan", "Dr. Leya Varan"));
            reveal_strlit("line_3");
            assert(cabinet_line_id(3) =~= "line_3"@);
            assert(content.line_listings@[3].id@ == cabinet_line_id(3 as nat));
            assert(people@[3] == ("oren_vey", "Captain Oren Vey"));
            reveal_strlit("line_4");
            assert(cabinet_line_id(4) =~= "line_4"@);
            assert(content.line_listings@[4].id@ == cabinet_line_id(4 as nat));
            assert(people@[4] == ("neri_tal", "Neri Tal"));
            reveal_strlit("line_5");
            assert(cabinet_line_id(5) =~= "line_5"@);
            assert(content.line_listings@[5].id@ == cabinet_line_id(5 as nat));
            assert(people@[5] == ("mira_sen", "Mira Sen"));
            reveal_strlit("line_6");
            assert(cabinet_line_id(6) =~= "line_6"@);
            assert(content.line_listings@[6].id@ == cabinet_line_id(6 as nat));
            assert(people@[6] == ("kavi_oran", "Kavi Oran"));
            reveal_strlit("line_7");
            assert(cabinet_line_id(7) =~= "line_7"@);
            assert(content.line_listings@[7].id@ == cabinet_line_id(7 as nat));
            assert(people@[7] == ("sela_var", "Sela Var"));
            assert(content.call_premises@[0].directory_ids@ =~= seq![0u16, 1u16, 2u16, 3u16, 4u16, 5u16, 6u16, 7u16]);
            assert(is_simple_hardware_demo_content(content));
            lemma_simple_hardware_demo_compiles(content);
        }
        assert(keys_of(content.subscribers@) =~= seq!["taren_kesh"@, "vira_dhal"@, "leya_varan"@, "oren_vey"@,
                "neri_tal"@, "mira_sen"@, "kavi_oran"@, "sela_var"@]);
        assert(keys_of(content.line_listings@) =~= Seq::new(8, |i: int| cabinet_line_id(i as nat)));
        assert(content.call_premises@[0].directory_ids@ =~= seq![0u16, 1u16, 2u16, 3u16, 4u16, 5u16, 6u16, 7u16]);
        assert(keys_of(content.call_premises@) =~= seq!["random_cabinet_call"@]);
        assert(keys_of(content.story_beats@) =~= seq!["random_cabinet_beat"@]);
        assert(keys_of(content.story_events@) =~= seq!["random_cabinet_success"@]);
        assert(keys_of(content.endings@) =~= seq!["live_call_ending"@]);
        assert(keys_of(content.nodes@) =~= seq!["run_start"@, "live_call"@, "random_cabinet_event"@, "live_call_end"@]);
        content
    }

    /// The cabinet routing demonstration on the four-shift cast.
    #[verifier::rlimit(80)]
    pub fn hardware_demo() -> (content: Self)
        ensures
            is_hardware_demo_content(content),
            content_valid(content),
            graph_sound(content),
    {
        let mut content = Self::four_shift_demo();
        content.call_premises = vec![
            premise("hardware_training_request", "taren_kesh", "vira_dhal", "railway_dispatch_office", "factory_records_office", vec![2u16]),
            premise("hardware_interference_request", "neri_tal", "vira_dhal", "signal_box", "factory_records_office", vec![2u16]),
            premise("hardware_tap_request", "leya_varan", "oren_vey", "clinic", "border_post", vec![4u16]),
        ];
        content.story_beats = vec![
            story_beat("hardware_training", "hardware_training_request"),
            story_beat("hardware_interference", "hardware_interference_request"),
            story_beat("hardware_tap", "hardware_tap_request"),
        ];
        content.story_events = vec![
            authored_event("hardware_training_success", "hardware_demo_interference_call"),
            authored_event("hardware_training_missed", "hardware_demo_missed_ending"),
            authored_event("hardware_training_invalid", "hardware_demo_invalid_ending"),
            authored_event("hardware_interference_success", "hardware_demo_tap_call"),
            authored_event("hardware_interference_missed", "hardware_demo_missed_ending"),
            authored_event("hardware_interference_invalid", "hardware_demo_invalid_ending"),
            authored_event("hardware_tap_success", "hardware_demo_success_ending"),
            authored_event("hardware_tap_missed", "hardware_demo_missed_ending"),
            authored_event("hardware_tap_invalid", "hardware_demo_invalid_ending"),
        ];
        content.endings = vec![
            ending("hardware_demo_complete", "The Cabinet routing demonstration completed successfully."),
            ending("hardware_demo_missed", "The Caller waited, but the Cabinet demonstration missed the Call."),
            ending("hardware_demo_invalid", "The Cabinet demonstration recorded an invalid Routing."),
        ];
        content.nodes = vec![
            run_start("run_start", "hardware_demo_call"),
            shift_call_node("hardware_demo_call", "hardware_training", "hardware_training_success_event",
                "hardware_training_missed_event", "hardware_training_invalid_event"),
            event_node("hardware_training_success_event", "hardware_training_success"),
            event_node("hardware_training_missed_event", "hardware_training_missed"),
            event_node("hardware_training_invalid_event", "hardware_training_invalid"),
            shift_call_node("hardware_demo_interference_call", "hardware_interference", "hardware_interference_success_event",
                "hardware_interference_missed_event", "hardware_interference_invalid_event"),
            event_node("hardware_interference_success_event", "hardware_interference_success"),
            event_node("hardware_interference_missed_event", "hardware_interference_missed"),
            event_node("hardware_interference_invalid_event", "hardware_interference_invalid"),
            shift_call_node("hardware_demo_tap_call", "hardware_tap", "hardware_tap_success_event",
                "hardware_tap_missed_event", "hardware_tap_invalid_event"),
            event_node("hardware_tap_success_event", "hardware_tap_success"),
            event_node("hardware_tap_missed_event", "hardware_tap_missed"),
            event_node("hardware_tap_invalid_event", "hardware_tap_invalid"),
            ending_node("hardware_demo_success_ending", "hardware_demo_complete"),
            ending_node("hardware_demo_missed_ending", "hardware_demo_missed"),
            ending_node("hardware_demo_invalid_ending", "hardware_demo_invalid"),
        ];
        content.start_node_id = text("run_start");
        assert(content.call_premises@[0].directory_ids@ =~= seq![2u16]);
        assert(content.call_premises@[1].directory_ids@ =~= seq![2u16]);
        assert(content.call_premises@[2].directory_ids@ =~= seq![4u16]);
        proof {
            assert(is_hardware_demo_content(content));
            lemma_hardware_demo_compiles(content);
        }
        assert(keys_of(content.call_premises@) =~= seq!["hardware_training_request"@, "hardware_interference_request"@, "hardware_tap_request"@]);
        assert(keys_of(content.story_beats@) =~= seq!["hardware_training"@, "hardware_interference"@, "hardware_tap"@]);
        assert(keys_of(content.story_events@) =~= seq!["hardware_training_success"@, "hardware_training_missed"@,
                "hardware_training_invalid"@, "hardware_interference_success"@, "hardware_interference_missed"@,
                "hardware_interference_invalid"@, "hardware_tap_success"@, "hardware_tap_missed"@, "hardware_tap_invalid"@]);
        assert(keys_of(content.endings@) =~= seq!["hardware_demo_complete"@, "hardware_demo_missed"@, "hardware_demo_invalid"@]);
        assert(keys_of(content.nodes@) =~= seq!["run_start"@, "hardware_demo_call"@, "hardware_training_success_event"@,
                "hardware_training_missed_event"@, "hardware_training_invalid_event"@, "hardware_demo_interference_call"@,
                "hardware_interference_success_event"@, "hardware_interference_missed_event"@,
                "hardware_interference_invalid_event"@, "hardware_demo_tap_call"@, "hardware_tap_success_event"@,
                "hardware_tap_missed_event"@, "hardware_tap_invalid_event"@, "hardware_demo_success_ending"@,
                "hardware_demo_missed_ending"@, "hardware_demo_invalid_ending"@]);
        content
    }
}


fn texts_from(values: Vec<&str>) -> (v: Vec<String>)
    ensures
        v@.len() == values@.len(),
        forall|i: int| 0 <= i < values@.len() ==> (#[trigger] v@[i])@ == values@[i]@,
{
    let mut v: Vec<String> = Vec::new();
    let mut i: usize = 0;
    while i < values.len()
        invariant
            i <= values@.len(),
            v@.len() == i,
            forall|k: int| 0 <= k < i ==> (#[trigger] v@[k])@ == values@[k]@,
        decreases values@.len() - i,
    {
        v.push(text(values[i]));
        i = i + 1;
    }
    v
}

/// The North Neeladesh story, record by record.
pub open spec fn is_north_neeladesh_content(c: AuthoredContent) -> bool {
    &&& c.subscribers@.len() == 17
    &&& subscriber_is(c.subscribers@[0], "anika_roy"@, "Anika Roy"@)
    &&& subscriber_is(c.subscribers@[1], "nayan_boro"@, "Nayan Boro"@)
    &&& subscriber_is(c.subscribers@[2], "rakesh_nahal"@, "Inspector Rakesh Nahal"@)
    &&& subscriber_is(c.subscribers@[3], "laleh_mir"@, "Laleh Mir"@)
    &&& subscriber_is(c.subscribers@[4], "javed_rahman"@, "Javed Rahman"@)
    &&& subscriber_is(c.subscribers@[5], "captain_varo"@, "Captain Varo"@)
    &&& subscriber_is(c.subscribers@[6], "tomas_vale"@, "Tomas Vale"@)
    &&& subscriber_is(c.subscribers@[7], "bikram_sen"@, "Bikram Sen"@)
    &&& subscriber_is(c.subscribers@[8], "paro_sen"@, "Paro Sen"@)
    &&& subscriber_is(c.subscribers@[9], "dev_korr"@, "Dev Korr"@)
    &&& subscriber_is(c.subscribers@[10], "arman_vey"@, "Colonel Arman Vey"@)
    &&& subscriber_is(c.subscribers@[11], "meera_tal"@, "Meera Tal"@)
    &&& subscriber_is(c.subscribers@[12], "mira_halek"@, "Mira Halek"@)
    &&& subscriber_is(c.subscribers@[13], "rafi_alam"@, "Rafi Alam"@)
    &&& subscriber_is(c.subscribers@[14], "akash_dey"@, "Akash Dey"@)
    &&& subscriber_is(c.subscribers@[15], "nahid_bkash"@, "Nahid from bKash"@)
    &&& subscriber_is(c.subscribers@[16], "asha_sen"@, "Asha Sen"@)
    &&& c.line_listings@.len() == 12
    &&& listing_is(c.line_listings@[0], "hospital"@, 0, seq!["anika_roy"@])
    &&& listing_is(c.line_listings@[1], "secretariat"@, 1, seq!["nayan_boro"@])
    &&& listing_is(c.line_listings@[2], "home_affairs"@, 2, seq!["rakesh_nahal"@, "dev_korr"@])
    &&& listing_is(c.line_listings@[3], "cantonment"@, 3, seq!["captain_varo"@, "arman_vey"@])
    &&& listing_is(c.line_listings@[4], "radio"@, 4, seq!["nayan_boro"@])
    &&& listing_is(c.line_listings@[5], "embassy"@, 5, seq!["meera_tal"@])
    &&& listing_is(c.line_listings@[6], "hotel"@, 6, seq!["tomas_vale"@, "nahid_bkash"@])
    &&& listing_is(c.line_listings@[7], "mining_office"@, 7, seq!["javed_rahman"@])
    &&& listing_is(c.line_listings@[8], "ratan_colony"@, 8, seq!["paro_sen"@, "akash_dey"@])
    &&& listing_is(c.line_listings@[9], "shapla"@, 9, seq!["laleh_mir"@, "asha_sen"@, "rafi_alam"@])
    &&& listing_is(c.line_listings@[10], "market"@, 10, seq!["bikram_sen"@])
    &&& listing_is(c.line_listings@[11], "central_station"@, 11, seq!["mira_halek"@])
    &&& c.call_premises@.len() == 23
    &&& premise_is(c.call_premises@[0], "s1_1_rafi"@, "rafi_alam"@, "anika_roy"@, "shapla"@, "hospital"@, seq![1u16])
    &&& premise_is(c.call_premises@[1], "m1_anika"@, "anika_roy"@, "asha_sen"@, "hospital"@, "shapla"@, seq![8u16])
    &&& premise_is(c.call_premises@[2], "s1_2_asha"@, "asha_sen"@, "anika_roy"@, "shapla"@, "hospital"@, seq![1u16])
    &&& premise_is(c.call_premises@[3], "m2_nayan"@, "nayan_boro"@, "nayan_boro"@, "secretariat"@, "radio"@, seq![5u16])
    &&& premise_is(c.call_premises@[4], "m3_rakesh"@, "rakesh_nahal"@, "laleh_mir"@, "home_affairs"@, "shapla"@, seq![8u16])
    &&& premise_is(c.call_premises@[5], "s2_asha"@, "asha_sen"@, "anika_roy"@, "shapla"@, "hospital"@, seq![1u16])
    &&& premise_is(c.call_premises@[6], "m4_laleh"@, "laleh_mir"@, "paro_sen"@, "shapla"@, "ratan_colony"@, seq![9u16])
    &&& premise_is(c.call_premises@[7], "s2_1_nahid"@, "nahid_bkash"@, "anika_roy"@, "hotel"@, "hospital"@, seq![1u16])
    &&& premise_is(c.call_premises@[8], "m5_javed"@, "javed_rahman"@, "mira_halek"@, "mining_office"@, "central_station"@, seq![9u16])
    &&& premise_is(c.call_premises@[9], "m6_varo"@, "captain_varo"@, "nayan_boro"@, "cantonment"@, "secretariat"@, seq![2u16])
    &&& premise_is(c.call_premises@[10], "m7_tomas"@, "tomas_vale"@, "meera_tal"@, "hotel"@, "embassy"@, seq![6u16])
    &&& premise_is(c.call_premises@[11], "s3_1_nahid"@, "nahid_bkash"@, "anika_roy"@, "hotel"@, "hospital"@, seq![1u16])
    &&& premise_is(c.call_premises@[12], "m8_bikram"@, "bikram_sen"@, "rakesh_nahal"@, "market"@, "home_affairs"@, seq![3u16])
    &&& premise_is(c.call_premises@[13], "s3_asha"@, "asha_sen"@, "anika_roy"@, "shapla"@, "hospital"@, seq![1u16])
    &&& premise_is(c.call_premises@[14], "m9_paro"@, "paro_sen"@, "mira_halek"@, "ratan_colony"@, "central_station"@, seq![9u16])
    &&& premise_is(c.call_premises@[15], "s3_akash"@, "akash_dey"@, "laleh_mir"@, "ratan_colony"@, "shapla"@, seq![9u16])
    &&& premise_is(c.call_premises@[16], "m10_audit"@, "rakesh_nahal"@, "anika_roy"@, "home_affairs"@, "hospital"@, seq![1u16])
    &&& premise_is(c.call_premises@[17], "s4_akash"@, "akash_dey"@, "laleh_mir"@, "ratan_colony"@, "shapla"@, seq![9u16])
    &&& premise_is(c.call_premises@[18], "m11a_laleh"@, "laleh_mir"@, "mira_halek"@, "shapla"@, "central_station"@, seq![9u16])
    &&& premise_is(c.call_premises@[19], "m11b_dev"@, "dev_korr"@, "mira_halek"@, "home_affairs"@, "central_station"@, seq![9u16])
    &&& premise_is(c.call_premises@[20], "m12_arman"@, "arman_vey"@, "nayan_boro"@, "cantonment"@, "radio"@, seq![5u16])
    &&& premise_is(c.call_premises@[21], "m13_meera"@, "meera_tal"@, "tomas_vale"@, "embassy"@, "hotel"@, seq![7u16])
    &&& premise_is(c.call_premises@[22], "m14_mira"@, "mira_halek"@, "paro_sen"@, "central_station"@, "ratan_colony"@, seq![9u16])
    &&& c.story_beats@.len() == 23
    &&& beat_is(c.story_beats@[0], "s1_1_rafi"@, "s1_1_rafi"@)
    &&& beat_is(c.story_beats@[1], "m1_anika"@, "m1_anika"@)
    &&& beat_is(c.story_beats@[2], "s1_2_asha"@, "s1_2_asha"@)
    &&& beat_is(c.story_beats@[3], "m2_nayan"@, "m2_nayan"@)
    &&& beat_is(c.story_beats@[4], "m3_rakesh"@, "m3_rakesh"@)
    &&& beat_is(c.story_beats@[5], "s2_asha"@, "s2_asha"@)
    &&& beat_is(c.story_beats@[6], "m4_laleh"@, "m4_laleh"@)
    &&& beat_is(c.story_beats@[7], "s2_1_nahid"@, "s2_1_nahid"@)
    &&& beat_is(c.story_beats@[8], "m5_javed"@, "m5_javed"@)
    &&& beat_is(c.story_beats@[9], "m6_varo"@, "m6_varo"@)
    &&& beat_is(c.story_beats@[10], "m7_tomas"@, "m7_tomas"@)
    &&& beat_is(c.story_beats@[11], "s3_1_nahid"@, "s3_1_nahid"@)
    &&& beat_is(c.story_beats@[12], "m8_bikram"@, "m8_bikram"@)
    &&& beat_is(c.story_beats@[13], "s3_asha"@, "s3_asha"@)
    &&& beat_is(c.story_beats@[14], "m9_paro"@, "m9_paro"@)
    &&& beat_is(c.story_beats@[15], "s3_akash"@, "s3_akash"@)
    &&& beat_is(c.story_beats@[16], "m10_audit"@, "m10_audit"@)
    &&& beat_is(c.story_beats@[17], "s4_akash"@, "s4_akash"@)
    &&& beat_is(c.story_beats@[18], "m11a_laleh"@, "m11a_laleh"@)
    &&& beat_is(c.story_beats@[19], "m11b_dev"@, "m11b_dev"@)
    &&& beat_is(c.story_beats@[20], "m12_arman"@, "m12_arman"@)
    &&& beat_is(c.story_beats@[21], "m13_meera"@, "m13_meera"@)
    &&& beat_is(c.story_beats@[22], "m14_mira"@, "m14_mira"@)
    &&& c.story_events@.len() == 78
    &&& event_is(c.story_events@[0], "s1_1_rafi_success_event"@, seq![("default"@, "slot_02"@)])
    &&& event_is(c.story_events@[1], "s1_1_rafi_missed_event"@, seq![("default"@, "slot_02"@)])
    &&& event_is(c.story_events@[2], "s1_1_rafi_invalid_event"@, seq![("default"@, "slot_02"@)])
    &&& event_is(c.story_events@[3], "m1_anika_success_event"@, seq![("default"@, "slot_03"@)])
    &&& event_is(c.story_events@[4], "m1_anika_missed_event"@, seq![("default"@, "slot_03"@)])
    &&& event_is(c.story_events@[5], "m1_anika_invalid_event"@, seq![("default"@, "slot_03"@)])
    &&& event_is(c.story_events@[6], "s1_2_asha_success_event"@, seq![("default"@, "slot_04"@)])
    &&& event_is(c.story_events@[7], "s1_2_asha_missed_event"@, seq![("default"@, "slot_04"@)])
    &&& event_is(c.story_events@[8], "s1_2_asha_invalid_event"@, seq![("default"@, "slot_04"@)])
    &&& event_is(c.story_events@[9], "m2_nayan_success_event"@, seq![("default"@, "slot_05"@)])
    &&& event_is(c.story_events@[10], "m2_nayan_missed_event"@, seq![("default"@, "slot_05"@)])
    &&& event_is(c.story_events@[11], "m2_nayan_invalid_event"@, seq![("default"@, "slot_05"@)])
    &&& event_is(c.story_events@[12], "m3_rakesh_success_event"@, seq![("default"@, "slot_06"@)])
    &&& event_is(c.story_events@[13], "m3_rakesh_missed_event"@, seq![("default"@, "slot_06"@)])
    &&& event_is(c.story_events@[14], "m3_rakesh_invalid_event"@, seq![("default"@, "slot_06"@)])
    &&& event_is(c.story_events@[15], "s2_asha_success_event"@, seq![("default"@, "slot_07"@)])
    &&& event_is(c.story_events@[16], "s2_asha_missed_event"@, seq![("default"@, "slot_07"@)])
    &&& event_is(c.story_events@[17], "s2_asha_invalid_event"@, seq![("default"@, "slot_07"@)])
    &&& event_is(c.story_events@[18], "m4_laleh_success_event"@, seq![("default"@, "slot_08"@)])
    &&& event_is(c.story_events@[19], "m4_laleh_missed_event"@, seq![("default"@, "slot_08"@)])
    &&& event_is(c.story_events@[20], "m4_laleh_invalid_event"@, seq![("default"@, "slot_08"@)])
    &&& event_is(c.story_events@[21], "s2_1_nahid_success_event"@, seq![("default"@, "slot_09"@)])
    &&& event_is(c.story_events@[22], "s2_1_nahid_missed_event"@, seq![("default"@, "slot_09"@)])
    &&& event_is(c.story_events@[23], "s2_1_nahid_invalid_event"@, seq![("default"@, "slot_09"@)])
    &&& event_is(c.story_events@[24], "m5_javed_success_event"@, seq![("default"@, "slot_10"@)])
    &&& event_is(c.story_events@[25], "m5_javed_missed_event"@, seq![("default"@, "slot_10"@)])
    &&& event_is(c.story_events@[26], "m5_javed_invalid_event"@, seq![("default"@, "slot_10"@)])
    &&& event_is(c.story_events@[27], "m6_varo_success_event"@, seq![("default"@, "slot_11"@)])
    &&& event_is(c.story_events@[28], "m6_varo_missed_event"@, seq![("default"@, "slot_11"@)])
    &&& event_is(c.story_events@[29], "m6_varo_invalid_event"@, seq![("default"@, "slot_11"@)])
    &&& event_is(c.story_events@[30], "m7_tomas_success_event"@, seq![("default"@, "slot_12"@)])
    &&& event_is(c.story_events@[31], "m7_tomas_missed_event"@, seq![("default"@, "slot_12"@)])
    &&& event_is(c.story_events@[32], "m7_tomas_invalid_event"@, seq![("default"@, "slot_12"@)])
    &&& event_is(c.story_events@[33], "s3_1_nahid_success_event"@, seq![("default"@, "slot_13"@)])
    &&& event_is(c.story_events@[34], "s3_1_nahid_missed_event"@, seq![("default"@, "slot_13"@)])
    &&& event_is(c.story_events@[35], "s3_1_nahid_invalid_event"@, seq![("default"@, "slot_13"@)])
    &&& event_is(c.story_events@[36], "m8_bikram_success_event"@, seq![("default"@, "slot_14"@)])
    &&& event_is(c.story_events@[37], "m8_bikram_missed_event"@, seq![("default"@, "slot_14"@)])
    &&& event_is(c.story_events@[38], "m8_bikram_invalid_event"@, seq![("default"@, "slot_14"@)])
    &&& event_is(c.story_events@[39], "s3_asha_success_event"@, seq![("default"@, "slot_15"@)])
    &&& event_is(c.story_events@[40], "s3_asha_missed_event"@, seq![("default"@, "slot_15"@)])
    &&& event_is(c.story_events@[41], "s3_asha_invalid_event"@, seq![("default"@, "slot_15"@)])
    &&& event_is(c.story_events@[42], "m9_paro_success_event"@, seq![("default"@, "slot_16"@)])
    &&& event_is(c.story_events@[43], "m9_paro_missed_event"@, seq![("default"@, "slot_16"@)])
    &&& event_is(c.story_events@[44], "m9_paro_invalid_event"@, seq![("default"@, "slot_16"@)])
    &&& event_is(c.story_events@[45], "s3_akash_success_event"@, seq![("default"@, "slot_17"@)])
    &&& event_is(c.story_events@[46], "s3_akash_missed_event"@, seq![("default"@, "slot_17"@)])
    &&& event_is(c.story_events@[47], "s3_akash_invalid_event"@, seq![("default"@, "slot_17"@)])
    &&& event_is(c.story_events@[48], "m10_audit_success_event"@, seq![("default"@, "slot_18"@)])
    &&& event_is(c.story_events@[49], "m10_audit_missed_event"@, seq![("default"@, "slot_18"@)])
    &&& event_is(c.story_events@[50], "m10_audit_invalid_event"@, seq![("default"@, "slot_18"@)])
    &&& event_is(c.story_events@[51], "s4_akash_success_event"@, seq![("default"@, "m11_select"@)])
    &&& event_is(c.story_events@[52], "s4_akash_missed_event"@, seq![("default"@, "m11_select"@)])
    &&& event_is(c.story_events@[53], "s4_akash_invalid_event"@, seq![("default"@, "m11_select"@)])
    &&& event_is(c.story_events@[54], "m11a_success_event"@, seq![("default"@, "m12"@)])
    &&& event_is(c.story_events@[55], "m11a_missed_event"@, seq![("default"@, "m12"@)])
    &&& event_is(c.story_events@[56], "m11a_invalid_event"@, seq![("default"@, "m12"@)])
    &&& event_is(c.story_events@[57], "m11b_success_event"@, seq![("default"@, "m12"@)])
    &&& event_is(c.story_events@[58], "m11b_missed_event"@, seq![("default"@, "m12"@)])
    &&& event_is(c.story_events@[59], "m11b_invalid_event"@, seq![("default"@, "m12"@)])
    &&& event_is(c.story_events@[60], "m12_success_event"@, seq![("default"@, "m13"@)])
    &&& event_is(c.story_events@[61], "m12_missed_event"@, seq![("default"@, "m13"@)])
    &&& event_is(c.story_events@[62], "m12_invalid_event"@, seq![("default"@, "m13"@)])
    &&& event_is(c.story_events@[63], "m13_success_event"@, seq![("default"@, "m14_select"@)])
    &&& event_is(c.story_events@[64], "m13_missed_event"@, seq![("default"@, "m14_select"@)])
    &&& event_is(c.story_events@[65], "m13_invalid_event"@, seq![("default"@, "m14_select"@)])
    &&& event_is(c.story_events@[66], "m14r_success_event"@, seq![("default"@, "ending_platform_six"@), ("southbound_household"@, "ending_southbound"@), ("bankruptcy"@, "ending_bankruptcy"@), ("a_better_country"@, "ending_a_better_country"@), ("let_go"@, "ending_let_go"@), ("insubordination"@, "ending_insubordination"@)])
    &&& event_is(c.story_events@[67], "m14r_missed_event"@, seq![("default"@, "ending_fragmented"@)])
    &&& event_is(c.story_events@[68], "m14r_invalid_event"@, seq![("default"@, "ending_fragmented"@)])
    &&& event_is(c.story_events@[69], "m14a_success_event"@, seq![("default"@, "ending_temporary_command"@)])
    &&& event_is(c.story_events@[70], "m14a_missed_event"@, seq![("default"@, "ending_fragmented"@)])
    &&& event_is(c.story_events@[71], "m14a_invalid_event"@, seq![("default"@, "ending_fragmented"@)])
    &&& event_is(c.story_events@[72], "m14p_success_event"@, seq![("default"@, "ending_emergency_state"@)])
    &&& event_is(c.story_events@[73], "m14p_missed_event"@, seq![("default"@, "ending_fragmented"@)])
    &&& event_is(c.story_events@[74], "m14p_invalid_event"@, seq![("default"@, "ending_fragmented"@)])
    &&& event_is(c.story_events@[75], "m14c_success_event"@, seq![("default"@, "ending_fragmented"@)])
    &&& event_is(c.story_events@[76], "m14c_missed_event"@, seq![("default"@, "ending_fragmented"@)])
    &&& event_is(c.story_events@[77], "m14c_invalid_event"@, seq![("default"@, "ending_fragmented"@)])
    &&& c.endings@.len() == 9
    &&& ending_is(c.endings@[0], "ending_emergency_state"@, "Emergency State"@)
    &&& ending_is(c.endings@[1], "ending_temporary_command"@, "Temporary Command"@)
    &&& ending_is(c.endings@[2], "ending_platform_six"@, "Platform Six"@)
    &&& ending_is(c.endings@[3], "ending_fragmented"@, "Fragmented Control"@)
    &&& ending_is(c.endings@[4], "ending_southbound"@, "Southbound Household"@)
    &&& ending_is(c.endings@[5], "ending_bankruptcy"@, "Bankruptcy"@)
    &&& ending_is(c.endings@[6], "ending_a_better_country"@, "A Better Country"@)
    &&& ending_is(c.endings@[7], "ending_let_go"@, "Let Go"@)
    &&& ending_is(c.endings@[8], "ending_insubordination"@, "Insubordination"@)
    &&& c.nodes@.len() == 118
    &&& run_start_is(c.nodes@[0], "run_start"@, "slot_01"@)
    &&& shift_call_is(c.nodes@[1], "slot_01"@, "s1_1_rafi"@, "s1_1_rafi_success_node"@, "s1_1_rafi_missed_node"@, "s1_1_rafi_invalid_node"@)
    &&& event_node_is(c.nodes@[2], "s1_1_rafi_success_node"@, "s1_1_rafi_success_event"@, "default"@)
    &&& event_node_is(c.nodes@[3], "s1_1_rafi_missed_node"@, "s1_1_rafi_missed_event"@, "default"@)
    &&& event_node_is(c.nodes@[4], "s1_1_rafi_invalid_node"@, "s1_1_rafi_invalid_event"@, "default"@)
    &&& shift_call_is(c.nodes@[5], "slot_02"@, "m1_anika"@, "m1_anika_success_node"@, "m1_anika_missed_node"@, "m1_anika_invalid_node"@)
    &&& event_node_is(c.nodes@[6], "m1_anika_success_node"@, "m1_anika_success_event"@, "default"@)
    &&& event_node_is(c.nodes@[7], "m1_anika_missed_node"@, "m1_anika_missed_event"@, "default"@)
    &&& event_node_is(c.nodes@[8], "m1_anika_invalid_node"@, "m1_anika_invalid_event"@, "default"@)
    &&& shift_call_is(c.nodes@[9], "slot_03"@, "s1_2_asha"@, "s1_2_asha_success_node"@, "s1_2_asha_missed_node"@, "s1_2_asha_invalid_node"@)
    &&& event_node_is(c.nodes@[10], "s1_2_asha_success_node"@, "s1_2_asha_success_event"@, "default"@)
    &&& event_node_is(c.nodes@[11], "s1_2_asha_missed_node"@, "s1_2_asha_missed_event"@, "default"@)
    &&& event_node_is(c.nodes@[12], "s1_2_asha_invalid_node"@, "s1_2_asha_invalid_event"@, "default"@)
    &&& shift_call_is(c.nodes@[13], "slot_04"@, "m2_nayan"@, "m2_nayan_success_node"@, "m2_nayan_missed_node"@, "m2_nayan_invalid_node"@)
    &&& event_node_is(c.nodes@[14], "m2_nayan_success_node"@, "m2_nayan_success_event"@, "default"@)
    &&& event_node_is(c.nodes@[15], "m2_nayan_missed_node"@, "m2_nayan_missed_event"@, "default"@)
    &&& event_node_is(c.nodes@[16], "m2_nayan_invalid_node"@, "m2_nayan_invalid_event"@, "default"@)
    &&& shift_call_is(c.nodes@[17], "slot_05"@, "m3_rakesh"@, "m3_rakesh_success_node"@, "m3_rakesh_missed_node"@, "m3_rakesh_invalid_node"@)
    &&& event_node_is(c.nodes@[18], "m3_rakesh_success_node"@, "m3_rakesh_success_event"@, "default"@)
    &&& event_node_is(c.nodes@[19], "m3_rakesh_missed_node"@, "m3_rakesh_missed_event"@, "default"@)
    &&& event_node_is(c.nodes@[20], "m3_rakesh_invalid_node"@, "m3_rakesh_invalid_event"@, "default"@)
    &&& shift_call_is(c.nodes@[21], "slot_06"@, "s2_asha"@, "s2_asha_success_node"@, "s2_asha_missed_node"@, "s2_asha_invalid_node"@)
    &&& event_node_is(c.nodes@[22], "s2_asha_success_node"@, "s2_asha_success_event"@, "default"@)
    &&& event_node_is(c.nodes@[23], "s2_asha_missed_node"@, "s2_asha_missed_event"@, "default"@)
    &&& event_node_is(c.nodes@[24], "s2_asha_invalid_node"@, "s2_asha_invalid_event"@, "default"@)
    &&& shift_call_is(c.nodes@[25], "slot_07"@, "m4_laleh"@, "m4_laleh_success_node"@, "m4_laleh_missed_node"@, "m4_laleh_invalid_node"@)
    &&& event_node_is(c.nodes@[26], "m4_laleh_success_node"@, "m4_laleh_success_event"@, "default"@)
    &&& event_node_is(c.nodes@[27], "m4_laleh_missed_node"@, "m4_laleh_missed_event"@, "default"@)
    &&& event_node_is(c.nodes@[28], "m4_laleh_invalid_node"@, "m4_laleh_invalid_event"@, "default"@)
    &&& shift_call_is(c.nodes@[29], "slot_08"@, "s2_1_nahid"@, "s2_1_nahid_success_node"@, "s2_1_nahid_missed_node"@, "s2_1_nahid_invalid_node"@)
    &&& event_node_is(c.nodes@[30], "s2_1_nahid_success_node"@, "s2_1_nahid_success_event"@, "default"@)
    &&& event_node_is(c.nodes@[31], "s2_1_nahid_missed_node"@, "s2_1_nahid_missed_event"@, "default"@)
    &&& event_node_is(c.nodes@[32], "s2_1_nahid_invalid_node"@, "s2_1_nahid_invalid_event"@, "default"@)
    &&& shift_call_is(c.nodes@[33], "slot_09"@, "m5_javed"@, "m5_javed_success_node"@, "m5_javed_missed_node"@, "m5_javed_invalid_node"@)
    &&& event_node_is(c.nodes@[34], "m5_javed_success_node"@, "m5_javed_success_event"@, "default"@)
    &&& event_node_is(c.nodes@[35], "m5_javed_missed_node"@, "m5_javed_missed_event"@, "default"@)
    &&& event_node_is(c.nodes@[36], "m5_javed_invalid_node"@, "m5_javed_invalid_event"@, "default"@)
    &&& shift_call_is(c.nodes@[37], "slot_10"@, "m6_varo"@, "m6_varo_success_node"@, "m6_varo_missed_node"@, "m6_varo_invalid_node"@)
    &&& event_node_is(c.nodes@[38], "m6_varo_success_node"@, "m6_varo_success_event"@, "default"@)
    &&& event_node_is(c.nodes@[39], "m6_varo_missed_node"@, "m6_varo_missed_event"@, "default"@)
    &&& event_node_is(c.nodes@[40], "m6_varo_invalid_node"@, "m6_varo_invalid_event"@, "default"@)
    &&& shift_call_is(c.nodes@[41], "slot_11"@, "m7_tomas"@, "m7_tomas_success_node"@, "m7_tomas_missed_node"@, "m7_tomas_invalid_node"@)
    &&& event_node_is(c.nodes@[42], "m7_tomas_success_node"@, "m7_tomas_success_event"@, "default"@)
    &&& event_node_is(c.nodes@[43], "m7_tomas_missed_node"@, "m7_tomas_missed_event"@, "default"@)
    &&& event_node_is(c.nodes@[44], "m7_tomas_invalid_node"@, "m7_tomas_invalid_event"@, "default"@)
    &&& shift_call_is(c.nodes@[45], "slot_12"@, "s3_1_nahid"@, "s3_1_nahid_success_node"@, "s3_1_nahid_missed_node"@, "s3_1_nahid_invalid_node"@)
    &&& event_node_is(c.nodes@[46], "s3_1_nahid_success_node"@, "s3_1_nahid_success_event"@, "default"@)
    &&& event_node_is(c.nodes@[47], "s3_1_nahid_missed_node"@, "s3_1_nahid_missed_event"@, "default"@)
    &&& event_node_is(c.nodes@[48], "s3_1_nahid_invalid_node"@, "s3_1_nahid_invalid_event"@, "default"@)
    &&& shift_call_is(c.nodes@[49], "slot_13"@, "m8_bikram"@, "m8_bikram_success_node"@, "m8_bikram_missed_node"@, "m8_bikram_invalid_node"@)
    &&& event_node_is(c.nodes@[50], "m8_bikram_success_node"@, "m8_bikram_success_event"@, "default"@)
    &&& event_node_is(c.nodes@[51], "m8_bikram_missed_node"@, "m8_bikram_missed_event"@, "default"@)
    &&& event_node_is(c.nodes@[52], "m8_bikram_invalid_node"@, "m8_bikram_invalid_event"@, "default"@)
    &&& shift_call_is(c.nodes@[53], "slot_14"@, "s3_asha"@, "s3_asha_success_node"@, "s3_asha_missed_node"@, "s3_asha_invalid_node"@)
    &&& event_node_is(c.nodes@[54], "s3_asha_success_node"@, "s3_asha_success_event"@, "default"@)
    &&& event_node_is(c.nodes@[55], "s3_asha_missed_node"@, "s3_asha_missed_event"@, "default"@)
    &&& event_node_is(c.nodes@[56], "s3_asha_invalid_node"@, "s3_asha_invalid_event"@, "default"@)
    &&& shift_call_is(c.nodes@[57], "slot_15"@, "m9_paro"@, "m9_paro_success_node"@, "m9_paro_missed_node"@, "m9_paro_invalid_node"@)
    &&& event_node_is(c.nodes@[58], "m9_paro_success_node"@, "m9_paro_success_event"@, "default"@)
    &&& event_node_is(c.nodes@[59], "m9_paro_missed_node"@, "m9_paro_missed_event"@, "default"@)
    &&& event_node_is(c.nodes@[60], "m9_paro_invalid_node"@, "m9_paro_invalid_event"@, "default"@)
    &&& shift_call_is(c.nodes@[61], "slot_16"@, "s3_akash"@, "s3_akash_success_node"@, "s3_akash_missed_node"@, "s3_akash_invalid_node"@)
    &&& event_node_is(c.nodes@[62], "s3_akash_success_node"@, "s3_akash_success_event"@, "default"@)
    &&& event_node_is(c.nodes@[63], "s3_akash_missed_node"@, "s3_akash_missed_event"@, "default"@)
    &&& event_node_is(c.nodes@[64], "s3_akash_invalid_node"@, "s3_akash_invalid_event"@, "default"@)
    &&& shift_call_is(c.nodes@[65], "slot_17"@, "m10_audit"@, "m10_audit_success_node"@, "m10_audit_missed_node"@, "m10_audit_invalid_node"@)
    &&& event_node_is(c.nodes@[66], "m10_audit_success_node"@, "m10_audit_success_event"@, "default"@)
    &&& event_node_is(c.nodes@[67], "m10_audit_missed_node"@, "m10_audit_missed_event"@, "default"@)
    &&& event_node_is(c.nodes@[68], "m10_audit_invalid_node"@, "m10_audit_invalid_event"@, "default"@)
    &&& shift_call_is(c.nodes@[69], "slot_18"@, "s4_akash"@, "s4_akash_success_node"@, "s4_akash_missed_node"@, "s4_akash_invalid_node"@)
    &&& event_node_is(c.nodes@[70], "s4_akash_success_node"@, "s4_akash_success_event"@, "default"@)
    &&& event_node_is(c.nodes@[71], "s4_akash_missed_node"@, "s4_akash_missed_event"@, "default"@)
    &&& event_node_is(c.nodes@[72], "s4_akash_invalid_node"@, "s4_akash_invalid_event"@, "default"@)
    &&& shift_call_is(c.nodes@[73], "m11a"@, "m11a_laleh"@, "m11a_success_node"@, "m11a_missed_node"@, "m11a_invalid_node"@)
    &&& event_node_is(c.nodes@[74], "m11a_success_node"@, "m11a_success_event"@, "default"@)
    &&& event_node_is(c.nodes@[75], "m11a_missed_node"@, "m11a_missed_event"@, "default"@)
    &&& event_node_is(c.nodes@[76], "m11a_invalid_node"@, "m11a_invalid_event"@, "default"@)
    &&& shift_call_is(c.nodes@[77], "m11b"@, "m11b_dev"@, "m11b_success_node"@, "m11b_missed_node"@, "m11b_invalid_node"@)
    &&& event_node_is(c.nodes@[78], "m11b_success_node"@, "m11b_success_event"@, "default"@)
    &&& event_node_is(c.nodes@[79], "m11b_missed_node"@, "m11b_missed_event"@, "default"@)
    &&& event_node_is(c.nodes@[80], "m11b_invalid_node"@, "m11b_invalid_event"@, "default"@)
    &&& shift_call_is(c.nodes@[81], "m12"@, "m12_arman"@, "m12_success_node"@, "m12_missed_node"@, "m12_invalid_node"@)
    &&& event_node_is(c.nodes@[82], "m12_success_node"@, "m12_success_event"@, "default"@)
    &&& event_node_is(c.nodes@[83], "m12_missed_node"@, "m12_missed_event"@, "default"@)
    &&& event_node_is(c.nodes@[84], "m12_invalid_node"@, "m12_invalid_event"@, "default"@)
    &&& shift_call_is(c.nodes@[85], "m13"@, "m13_meera"@, "m13_success_node"@, "m13_missed_node"@, "m13_invalid_node"@)
    &&& event_node_is(c.nodes@[86], "m13_success_node"@, "m13_success_event"@, "default"@)
    &&& event_node_is(c.nodes@[87], "m13_missed_node"@, "m13_missed_event"@, "default"@)
    &&& event_node_is(c.nodes@[88], "m13_invalid_node"@, "m13_invalid_event"@, "default"@)
    &&& shift_call_is(c.nodes@[89], "m14r"@, "m14_mira"@, "m14r_success_node"@, "m14r_missed_node"@, "m14r_invalid_node"@)
    &&& event_node_is(c.nodes@[90], "m14r_success_node"@, "m14r_success_event"@, "default"@)
    &&& event_node_is(c.nodes@[91], "m14r_missed_node"@, "m14r_missed_event"@, "default"@)
    &&& event_node_is(c.nodes@[92], "m14r_invalid_node"@, "m14r_invalid_event"@, "default"@)
    &&& shift_call_is(c.nodes@[93], "m14a"@, "m14_mira"@, "m14a_success_node"@, "m14a_missed_node"@, "m14a_invalid_node"@)
    &&& event_node_is(c.nodes@[94], "m14a_success_node"@, "m14a_success_event"@, "default"@)
    &&& event_node_is(c.nodes@[95], "m14a_missed_node"@, "m14a_missed_event"@, "default"@)
    &&& event_node_is(c.nodes@[96], "m14a_invalid_node"@, "m14a_invalid_event"@, "default"@)
    &&& shift_call_is(c.nodes@[97], "m14p"@, "m14_mira"@, "m14p_success_node"@, "m14p_missed_node"@, "m14p_invalid_node"@)
    &&& event_node_is(c.nodes@[98], "m14p_success_node"@, "m14p_success_event"@, "default"@)
    &&& event_node_is(c.nodes@[99], "m14p_missed_node"@, "m14p_missed_event"@, "default"@)
    &&& event_node_is(c.nodes@[100], "m14p_invalid_node"@, "m14p_invalid_event"@, "default"@)
    &&& shift_call_is(c.nodes@[101], "m14c"@, "m14_mira"@, "m14c_success_node"@, "m14c_missed_node"@, "m14c_invalid_node"@)
    &&& event_node_is(c.nodes@[102], "m14c_success_node"@, "m14c_success_event"@, "default"@)
    &&& event_node_is(c.nodes@[103], "m14c_missed_node"@, "m14c_missed_event"@, "default"@)
    &&& event_node_is(c.nodes@[104], "m14c_invalid_node"@, "m14c_invalid_event"@, "default"@)
    &&& conditional_is(c.nodes@[105], "m11_select"@, 0, "m11a"@, "m11b"@)
    &&& conditional_is(c.nodes@[106], "m14_select"@, 0, "m14r"@, "m14_select_2"@)
    &&& conditional_is(c.nodes@[107], "m14_select_2"@, 1, "m14a"@, "m14_select_3"@)
    &&& conditional_is(c.nodes@[108], "m14_select_3"@, 2, "m14p"@, "m14c"@)
    &&& ending_node_is(c.nodes@[109], "ending_emergency_state"@, "ending_emergency_state"@)
    &&& ending_node_is(c.nodes@[110], "ending_temporary_command"@, "ending_temporary_command"@)
    &&& ending_node_is(c.nodes@[111], "ending_platform_six"@, "ending_platform_six"@)
    &&& ending_node_is(c.nodes@[112], "ending_fragmented"@, "ending_fragmented"@)
    &&& ending_node_is(c.nodes@[113], "ending_southbound"@, "ending_southbound"@)
    &&& ending_node_is(c.nodes@[114], "ending_bankruptcy"@, "ending_bankruptcy"@)
    &&& ending_node_is(c.nodes@[115], "ending_a_better_country"@, "ending_a_better_country"@)
    &&& ending_node_is(c.nodes@[116], "ending_let_go"@, "ending_let_go"@)
    &&& ending_node_is(c.nodes@[117], "ending_insubordination"@, "ending_insubordination"@)
    &&& c.start_node_id@ == "run_start"@
}

/// The successors of nodes 0 to 19 of the north neeladesh content.
#[verifier::rlimit(100)]
#[verifier::spinoff_prover]
proof fn lemma_north_neeladesh_targets_0(c: AuthoredContent)
    requires
        is_north_neeladesh_content(c),
        unique_keys(c.story_events@),
    ensures
        node_targets(c.story_events@, c.nodes@[0]) == seq!["slot_01"@],
        node_targets(c.story_events@, c.nodes@[1]) == seq!["s1_1_rafi_success_node"@, "s1_1_rafi_missed_node"@, "s1_1_rafi_invalid_node"@],
        node_targets(c.story_events@, c.nodes@[2]) == seq!["slot_02"@],
        node_targets(c.story_events@, c.nodes@[3]) == seq!["slot_02"@],
        node_targets(c.story_events@, c.nodes@[4]) == seq!["slot_02"@],
        node_targets(c.story_events@, c.nodes@[5]) == seq!["m1_anika_success_node"@, "m1_anika_missed_node"@, "m1_anika_invalid_node"@],
        node_targets(c.story_events@, c.nodes@[6]) == seq!["slot_03"@],
        node_targets(c.story_events@, c.nodes@[7]) == seq!["slot_03"@],
        node_targets(c.story_events@, c.nodes@[8]) == seq!["slot_03"@],
        node_targets(c.story_events@, c.nodes@[9]) == seq!["s1_2_asha_success_node"@, "s1_2_asha_missed_node"@, "s1_2_asha_invalid_node"@],
        node_targets(c.story_events@, c.nodes@[10]) == seq!["slot_04"@],
        node_targets(c.story_events@, c.nodes@[11]) == seq!["slot_04"@],
        node_targets(c.story_events@, c.nodes@[12]) == seq!["slot_04"@],
        node_targets(c.story_events@, c.nodes@[13]) == seq!["m2_nayan_success_node"@, "m2_nayan_missed_node"@, "m2_nayan_invalid_node"@],
        node_targets(c.story_events@, c.nodes@[14]) == seq!["slot_05"@],
        node_targets(c.story_events@, c.nodes@[15]) == seq!["slot_05"@],
        node_targets(c.story_events@, c.nodes@[16]) == seq!["slot_05"@],
        node_targets(c.story_events@, c.nodes@[17]) == seq!["m3_rakesh_success_node"@, "m3_rakesh_missed_node"@, "m3_rakesh_invalid_node"@],
        node_targets(c.story_events@, c.nodes@[18]) == seq!["slot_06"@],
        node_targets(c.story_events@, c.nodes@[19]) == seq!["slot_06"@],
{
    assert(node_targets(c.story_events@, c.nodes@[0]) =~= seq!["slot_01"@]);
    assert(node_targets(c.story_events@, c.nodes@[1]) =~= seq!["s1_1_rafi_success_node"@, "s1_1_rafi_missed_node"@, "s1_1_rafi_invalid_node"@]);
    assert(node_targets(c.story_events@, c.nodes@[2]) == seq!["slot_02"@]) by {
        assert(c.story_events@[0].key() == "s1_1_rafi_success_event"@);
        lemma_first_key(c.story_events@, "s1_1_rafi_success_event"@, 0);
        assert(outcome_pairs(c.story_events@[0].outcomes@).len() == 1);
        assert(outcome_pairs(c.story_events@[0].outcomes@)[0] == (c.story_events@[0].outcomes@[0].id@, c.story_events@[0].outcomes@[0].next_node_id@));
        assert(c.story_events@[0].outcomes@[0].key() == c.story_events@[0].outcomes@[0].id@);
        lemma_first_key(c.story_events@[0].outcomes@, "default"@, 0);
        assert(outcome_pairs(c.story_events@[0].outcomes@).len() == 1);
        assert(c.story_events@[0].outcomes@.subrange(0, 0).len() == 0);
        assert(other_targets(c.story_events@[0].outcomes@.subrange(0, 0), "default"@) == Seq::<Seq<char>>::empty());
        assert(c.story_events@[0].outcomes@.subrange(0, 1).drop_last() =~= c.story_events@[0].outcomes@.subrange(0, 0));
        assert(c.story_events@[0].outcomes@.subrange(0, 1).last() == c.story_events@[0].outcomes@[0]);
        assert(other_targets(c.story_events@[0].outcomes@.subrange(0, 1), "default"@) =~= seq![]);
        assert(c.story_events@[0].outcomes@.subrange(0, 1) =~= c.story_events@[0].outcomes@);
        assert(other_targets(c.story_events@[0].outcomes@, "default"@) =~= seq![]);
        assert(event_targets(c.story_events@[0].outcomes@, "default"@) =~= seq!["slot_02"@]);
    }
    assert(node_targets(c.story_events@, c.nodes@[3]) == seq!["slot_02"@]) by {
        assert(c.story_events@[1].key() == "s1_1_rafi_missed_event"@);
        lemma_first_key(c.story_events@, "s1_1_rafi_missed_event"@, 1);
        assert(outcome_pairs(c.story_events@[1].outcomes@).len() == 1);
        assert(outcome_pairs(c.story_events@[1].outcomes@)[0] == (c.story_events@[1].outcomes@[0].id@, c.story_events@[1].outcomes@[0].next_node_id@));
        assert(c.story_events@[1].outcomes@[0].key() == c.story_events@[1].outcomes@[0].id@);
        lemma_first_key(c.story_events@[1].outcomes@, "default"@, 0);
        assert(outcome_pairs(c.story_events@[1].outcomes@).len() == 1);
        assert(c.story_events@[1].outcomes@.subrange(0, 0).len() == 0);
        assert(other_targets(c.story_events@[1].outcomes@.subrange(0, 0), "default"@) == Seq::<Seq<char>>::empty());
        assert(c.story_events@[1].outcomes@.subrange(0, 1).drop_last() =~= c.story_events@[1].outcomes@.subrange(0, 0));
        assert(c.story_events@[1].outcomes@.subrange(0, 1).last() == c.story_events@[1].outcomes@[0]);
        assert(other_targets(c.story_events@[1].outcomes@.subrange(0, 1), "default"@) =~= seq![]);
        assert(c.story_events@[1].outcomes@.subrange(0, 1) =~= c.story_events@[1].outcomes@);
        assert(other_targets(c.story_events@[1].outcomes@, "default"@) =~= seq![]);
        assert(event_targets(c.story_events@[1].outcomes@, "default"@) =~= seq!["slot_02"@]);
    }
    assert(node_targets(c.story_events@, c.nodes@[4]) == seq!["slot_02"@]) by {
        assert(c.story_events@[2].key() == "s1_1_rafi_invalid_event"@);
        lemma_first_key(c.story_events@, "s1_1_rafi_invalid_event"@, 2);
        assert(outcome_pairs(c.story_events@[2].outcomes@).len() == 1);
        assert(outcome_pairs(c.story_events@[2].outcomes@)[0] == (c.story_events@[2].outcomes@[0].id@, c.story_events@[2].outcomes@[0].next_node_id@));
        assert(c.story_events@[2].outcomes@[0].key() == c.story_events@[2].outcomes@[0].id@);
        lemma_first_key(c.story_events@[2].outcomes@, "default"@, 0);
        assert(outcome_pairs(c.story_events@[2].outcomes@).len() == 1);
        assert(c.story_events@[2].outcomes@.subrange(0, 0).len() == 0);
        assert(other_targets(c.story_events@[2].outcomes@.subrange(0, 0), "default"@) == Seq::<Seq<char>>::empty());
        assert(c.story_events@[2].outcomes@.subrange(0, 1).drop_last() =~= c.story_events@[2].outcomes@.subrange(0, 0));
        assert(c.story_events@[2].outcomes@.subrange(0, 1).last() == c.story_events@[2].outcomes@[0]);
        assert(other_targets(c.story_events@[2].outcomes@.subrange(0, 1), "default"@) =~= seq![]);
        assert(c.story_events@[2].outcomes@.subrange(0, 1) =~= c.story_events@[2].outcomes@);
        assert(other_targets(c.story_events@[2].outcomes@, "default"@) =~= seq![]);
        assert(event_targets(c.story_events@[2].outcomes@, "default"@) =~= seq!["slot_02"@]);
    }
    assert(node_targets(c.story_events@, c.nodes@[5]) =~= seq!["m1_anika_success_node"@, "m1_anika_missed_node"@, "m1_anika_invalid_node"@]);
    assert(node_targets(c.story_events@, c.nodes@[6]) == seq!["slot_03"@]) by {
        assert(c.story_events@[3].key() == "m1_anika_success_event"@);
        lemma_first_key(c.story_events@, "m1_anika_success_event"@, 3);
        assert(outcome_pairs(c.story_events@[3].outcomes@).len() == 1);
        assert(outcome_pairs(c.story_events@[3].outcomes@)[0] == (c.story_events@[3].outcomes@[0].id@, c.story_events@[3].outcomes@[0].next_node_id@));
        assert(c.story_events@[3].outcomes@[0].key() == c.story_events@[3].outcomes@[0].id@);
        lemma_first_key(c.story_events@[3].outcomes@, "default"@, 0);
        assert(outcome_pairs(c.story_events@[3].outcomes@).len() == 1);
        assert(c.story_events@[3].outcomes@.subrange(0, 0).len() == 0);
        assert(other_targets(c.story_events@[3].outcomes@.subrange(0, 0), "default"@) == Seq::<Seq<char>>::empty());
        assert(c.story_events@[3].outcomes@.subrange(0, 1).drop_last() =~= c.story_events@[3].outcomes@.subrange(0, 0));
        assert(c.story_events@[3].outcomes@.subrange(0, 1).last() == c.story_events@[3].outcomes@[0]);
        assert(other_targets(c.story_events@[3].outcomes@.subrange(0, 1), "default"@) =~= seq![]);
        assert(c.story_events@[3].outcomes@.subrange(0, 1) =~= c.story_events@[3].outcomes@);
        assert(other_targets(c.story_events@[3].outcomes@, "default"@) =~= seq![]);
        assert(event_targets(c.story_events@[3].outcomes@, "default"@) =~= seq!["slot_03"@]);
    }
    assert(node_targets(c.story_events@, c.nodes@[7]) == seq!["slot_03"@]) by {
        assert(c.story_events@[4].key() == "m1_anika_missed_event"@);
        lemma_first_key(c.story_events@, "m1_anika_missed_event"@, 4);
        assert(outcome_pairs(c.story_events@[4].outcomes@).len() == 1);
        assert(outcome_pairs(c.story_events@[4].outcomes@)[0] == (c.story_events@[4].outcomes@[0].id@, c.story_events@[4].outcomes@[0].next_node_id@));
        assert(c.story_events@[4].outcomes@[0].key() == c.story_events@[4].outcomes@[0].id@);
        lemma_first_key(c.story_events@[4].outcomes@, "default"@, 0);
        assert(outcome_pairs(c.story_events@[4].outcomes@).len() == 1);
        assert(c.story_events@[4].outcomes@.subrange(0, 0).len() == 0);
        assert(other_targets(c.story_events@[4].outcomes@.subrange(0, 0), "default"@) == Seq::<Seq<char>>::empty());
        assert(c.story_events@[4].outcomes@.subrange(0, 1).drop_last() =~= c.story_events@[4].outcomes@.subrange(0, 0));
        assert(c.story_events@[4].outcomes@.subrange(0, 1).last() == c.story_events@[4].outcomes@[0]);
        assert(other_targets(c.story_events@[4].outcomes@.subrange(0, 1), "default"@) =~= seq![]);
        assert(c.story_events@[4].outcomes@.subrange(0, 1) =~= c.story_events@[4].outcomes@);
        assert(other_targets(c.story_events@[4].outcomes@, "default"@) =~= seq![]);
        assert(event_targets(c.story_events@[4].outcomes@, "default"@) =~= seq!["slot_03"@]);
    }
    assert(node_targets(c.story_events@, c.nodes@[8]) == seq!["slot_03"@]) by {
        assert(c.story_events@[5].key() == "m1_anika_invalid_event"@);
        lemma_first_key(c.story_events@, "m1_anika_invalid_event"@, 5);
        assert(outcome_pairs(c.story_events@[5].outcomes@).len() == 1);
        assert(outcome_pairs(c.story_events@[5].outcomes@)[0] == (c.story_events@[5].outcomes@[0].id@, c.story_events@[5].outcomes@[0].next_node_id@));
        assert(c.story_events@[5].outcomes@[0].key() == c.story_events@[5].outcomes@[0].id@);
        lemma_first_key(c.story_events@[5].outcomes@, "default"@, 0);
        assert(outcome_pairs(c.story_events@[5].outcomes@).len() == 1);
        assert(c.story_events@[5].outcomes@.subrange(0, 0).len() == 0);
        assert(other_targets(c.story_events@[5].outcomes@.subrange(0, 0), "default"@) == Seq::<Seq<char>>::empty());
        assert(c.story_events@[5].outcomes@.subrange(0, 1).drop_last() =~= c.story_events@[5].outcomes@.subrange(0, 0));
        assert(c.story_events@[5].outcomes@.subrange(0, 1).last() == c.story_events@[5].outcomes@[0]);
        assert(other_targets(c.story_events@[5].outcomes@.subrange(0, 1), "default"@) =~= seq![]);
        assert(c.story_events@[5].outcomes@.subrange(0, 1) =~= c.story_events@[5].outcomes@);
        assert(other_targets(c.story_events@[5].outcomes@, "default"@) =~= seq![]);
        assert(event_targets(c.story_events@[5].outcomes@, "default"@) =~= seq!["slot_03"@]);
    }
    assert(node_targets(c.story_events@, c.nodes@[9]) =~= seq!["s1_2_asha_success_node"@, "s1_2_asha_missed_node"@, "s1_2_asha_invalid_node"@]);
    assert(node_targets(c.story_events@, c.nodes@[10]) == seq!["slot_04"@]) by {
        assert(c.story_events@[6].key() == "s1_2_asha_success_event"@);
        lemma_first_key(c.story_events@, "s1_2_asha_success_event"@, 6);
        assert(outcome_pairs(c.story_events@[6].outcomes@).len() == 1);
        assert(outcome_pairs(c.story_events@[6].outcomes@)[0] == (c.story_events@[6].outcomes@[0].id@, c.story_events@[6].outcomes@[0].next_node_id@));
        assert(c.story_events@[6].outcomes@[0].key() == c.story_events@[6].outcomes@[0].id@);
        lemma_first_key(c.story_events@[6].outcomes@, "default"@, 0);
        assert(outcome_pairs(c.story_events@[6].outcomes@).len() == 1);
        assert(c.story_events@[6].outcomes@.subrange(0, 0).len() == 0);
        assert(other_targets(c.story_events@[6].outcomes@.subrange(0, 0), "default"@) == Seq::<Seq<char>>::empty());
        assert(c.story_events@[6].outcomes@.subrange(0, 1).drop_last() =~= c.story_events@[6].outcomes@.subrange(0, 0));
        assert(c.story_events@[6].outcomes@.subrange(0, 1).last() == c.story_events@[6].outcomes@[0]);
        assert(other_targets(c.story_events@[6].outcomes@.subrange(0, 1), "default"@) =~= seq![]);
        assert(c.story_events@[6].outcomes@.subrange(0, 1) =~= c.story_events@[6].outcomes@);
        assert(other_targets(c.story_events@[6].outcomes@, "default"@) =~= seq![]);
        assert(event_targets(c.story_events@[6].outcomes@, "default"@) =~= seq!["slot_04"@]);
    }
    assert(node_targets(c.story_events@, c.nodes@[11]) == seq!["slot_04"@]) by {
        assert(c.story_events@[7].key() == "s1_2_asha_missed_event"@);
        lemma_first_key(c.story_events@, "s1_2_asha_missed_event"@, 7);
        assert(outcome_pairs(c.story_events@[7].outcomes@).len() == 1);
        assert(outcome_pairs(c.story_events@[7].outcomes@)[0] == (c.story_events@[7].outcomes@[0].id@, c.story_events@[7].outcomes@[0].next_node_id@));
        assert(c.story_events@[7].outcomes@[0].key() == c.story_events@[7].outcomes@[0].id@);
        lemma_first_key(c.story_events@[7].outcomes@, "default"@, 0);
        assert(outcome_pairs(c.story_events@[7].outcomes@).len() == 1);
        assert(c.story_events@[7].outcomes@.subrange(0, 0).len() == 0);
        assert(other_targets(c.story_events@[7].outcomes@.subrange(0, 0), "default"@) == Seq::<Seq<char>>::empty());
        assert(c.story_events@[7].outcomes@.subrange(0, 1).drop_last() =~= c.story_events@[7].outcomes@.subrange(0, 0));
        assert(c.story_events@[7].outcomes@.subrange(0, 1).last() == c.story_events@[7].outcomes@[0]);
        assert(other_targets(c.story_events@[7].outcomes@.subrange(0, 1), "default"@) =~= seq![]);
        assert(c.story_events@[7].outcomes@.subrange(0, 1) =~= c.story_events@[7].outcomes@);
        assert(other_targets(c.story_events@[7].outcomes@, "default"@) =~= seq![]);
        assert(event_targets(c.story_events@[7].outcomes@, "default"@) =~= seq!["slot_04"@]);
    }
    assert(node_targets(c.story_events@, c.nodes@[12]) == seq!["slot_04"@]) by {
        assert(c.story_events@[8].key() == "s1_2_asha_invalid_event"@);
        lemma_first_key(c.story_events@, "s1_2_asha_invalid_event"@, 8);
        assert(outcome_pairs(c.story_events@[8].outcomes@).len() == 1);
        assert(outcome_pairs(c.story_events@[8].outcomes@)[0] == (c.story_events@[8].outcomes@[0].id@, c.story_events@[8].outcomes@[0].next_node_id@));
        assert(c.story_events@[8].outcomes@[0].key() == c.story_events@[8].outcomes@[0].id@);
        lemma_first_key(c.story_events@[8].outcomes@, "default"@, 0);
        assert(outcome_pairs(c.story_events@[8].outcomes@).len() == 1);
        assert(c.story_events@[8].outcomes@.subrange(0, 0).len() == 0);
        assert(other_targets(c.story_events@[8].outcomes@.subrange(0, 0), "default"@) == Seq::<Seq<char>>::empty());
        assert(c.story_events@[8].outcomes@.subrange(0, 1).drop_last() =~= c.story_events@[8].outcomes@.subrange(0, 0));
        assert(c.story_events@[8].outcomes@.subrange(0, 1).last() == c.story_events@[8].outcomes@[0]);
        assert(other_targets(c.story_events@[8].outcomes@.subrange(0, 1), "default"@) =~= seq![]);
        assert(c.story_events@[8].outcomes@.subrange(0, 1) =~= c.story_events@[8].outcomes@);
        assert(other_targets(c.story_events@[8].outcomes@, "default"@) =~= seq![]);
        assert(event_targets(c.story_events@[8].outcomes@, "default"@) =~= seq!["slot_04"@]);
    }
    assert(node_targets(c.story_events@, c.nodes@[13]) =~= seq!["m2_nayan_success_node"@, "m2_nayan_missed_node"@, "m2_nayan_invalid_node"@]);
    assert(node_targets(c.story_events@, c.nodes@[14]) == seq!["slot_05"@]) by {
        assert(c.story_events@[9].key() == "m2_nayan_success_event"@);
        lemma_first_key(c.story_events@, "m2_nayan_success_event"@, 9);
        assert(outcome_pairs(c.story_events@[9].outcomes@).len() == 1);
        assert(outcome_pairs(c.story_events@[9].outcomes@)[0] == (c.story_events@[9].outcomes@[0].id@, c.story_events@[9].outcomes@[0].next_node_id@));
        assert(c.story_events@[9].outcomes@[0].key() == c.story_events@[9].outcomes@[0].id@);
        lemma_first_key(c.story_events@[9].outcomes@, "default"@, 0);
        assert(outcome_pairs(c.story_events@[9].outcomes@).len() == 1);
        assert(c.story_events@[9].outcomes@.subrange(0, 0).len() == 0);
        assert(other_targets(c.story_events@[9].outcomes@.subrange(0, 0), "default"@) == Seq::<Seq<char>>::empty());
        assert(c.story_events@[9].outcomes@.subrange(0, 1).drop_last() =~= c.story_events@[9].outcomes@.subrange(0, 0));
        assert(c.story_events@[9].outcomes@.subrange(0, 1).last() == c.story_events@[9].outcomes@[0]);
        assert(other_targets(c.story_events@[9].outcomes@.subrange(0, 1), "default"@) =~= seq![]);
        assert(c.story_events@[9].outcomes@.subrange(0, 1) =~= c.story_events@[9].outcomes@);
        assert(other_targets(c.story_events@[9].outcomes@, "default"@) =~= seq![]);
        assert(event_targets(c.story_events@[9].outcomes@, "default"@) =~= seq!["slot_05"@]);
    }
    assert(node_targets(c.story_events@, c.nodes@[15]) == seq!["slot_05"@]) by {
        assert(c.story_events@[10].key() == "m2_nayan_missed_event"@);
        lemma_first_key(c.story_events@, "m2_nayan_missed_event"@, 10);
        assert(outcome_pairs(c.story_events@[10].outcomes@).len() == 1);
        assert(outcome_pairs(c.story_events@[10].outcomes@)[0] == (c.story_events@[10].outcomes@[0].id@, c.story_events@[10].outcomes@[0].next_node_id@));
        assert(c.story_events@[10].outcomes@[0].key() == c.story_events@[10].outcomes@[0].id@);
        lemma_first_key(c.story_events@[10].outcomes@, "default"@, 0);
        assert(outcome_pairs(c.story_events@[10].outcomes@).len() == 1);
        assert(c.story_events@[10].outcomes@.subrange(0, 0).len() == 0);
        assert(other_targets(c.story_events@[10].outcomes@.subrange(0, 0), "default"@) == Seq::<Seq<char>>::empty());
        assert(c.story_events@[10].outcomes@.subrange(0, 1).drop_last() =~= c.story_events@[10].outcomes@.subrange(0, 0));
        assert(c.story_events@[10].outcomes@.subrange(0, 1).last() == c.story_events@[10].outcomes@[0]);
        assert(other_targets(c.story_events@[10].outcomes@.subrange(0, 1), "default"@) =~= seq![]);
        assert(c.story_events@[10].outcomes@.subrange(0, 1) =~= c.story_events@[10].outcomes@);
        assert(other_targets(c.story_events@[10].outcomes@, "default"@) =~= seq![]);
        assert(event_targets(c.story_events@[10].outcomes@, "default"@) =~= seq!["slot_05"@]);
    }
    assert(node_targets(c.story_events@, c.nodes@[16]) == seq!["slot_05"@]) by {
        assert(c.story_events@[11].key() == "m2_nayan_invalid_event"@);
        lemma_first_key(c.story_events@, "m2_nayan_invalid_event"@, 11);
        assert(outcome_pairs(c.story_events@[11].outcomes@).len() == 1);
        assert(outcome_pairs(c.story_events@[11].outcomes@)[0] == (c.story_events@[11].outcomes@[0].id@, c.story_events@[11].outcomes@[0].next_node_id@));
        assert(c.story_events@[11].outcomes@[0].key() == c.story_events@[11].outcomes@[0].id@);
        lemma_first_key(c.story_events@[11].outcomes@, "default"@, 0);
        assert(outcome_pairs(c.story_events@[11].outcomes@).len() == 1);
        assert(c.story_events@[11].outcomes@.subrange(0, 0).len() == 0);
        assert(other_targets(c.story_events@[11].outcomes@.subrange(0, 0), "default"@) == Seq::<Seq<char>>::empty());
        assert(c.story_events@[11].outcomes@.subrange(0, 1).drop_last() =~= c.story_events@[11].outcomes@.subrange(0, 0));
        assert(c.story_events@[11].outcomes@.subrange(0, 1).last() == c.story_events@[11].outcomes@[0]);
        assert(other_targets(c.story_events@[11].outcomes@.subrange(0, 1), "default"@) =~= seq![]);
        assert(c.story_events@[11].outcomes@.subrange(0, 1) =~= c.story_events@[11].outcomes@);
        assert(other_targets(c.story_events@[11].outcomes@, "default"@) =~= seq![]);
        assert(event_targets(c.story_events@[11].outcomes@, "default"@) =~= seq!["slot_05"@]);
    }
    assert(node_targets(c.story_events@, c.nodes@[17]) =~= seq!["m3_rakesh_success_node"@, "m3_rakesh_missed_node"@, "m3_rakesh_invalid_node"@]);
    assert(node_targets(c.story_events@, c.nodes@[18]) == seq!["slot_06"@]) by {
        assert(c.story_events@[12].key() == "m3_rakesh_success_event"@);
        lemma_first_key(c.story_events@, "m3_rakesh_success_event"@, 12);
        assert(outcome_pairs(c.story_events@[12].outcomes@).len() == 1);
        assert(outcome_pairs(c.story_events@[12].outcomes@)[0] == (c.story_events@[12].outcomes@[0].id@, c.story_events@[12].outcomes@[0].next_node_id@));
        assert(c.story_events@[12].outcomes@[0].key() == c.story_events@[12].outcomes@[0].id@);
        lemma_first_key(c.story_events@[12].outcomes@, "default"@, 0);
        assert(outcome_pairs(c.story_events@[12].outcomes@).len() == 1);
        assert(c.story_events@[12].outcomes@.subrange(0, 0).len() == 0);
        assert(other_targets(c.story_events@[12].outcomes@.subrange(0, 0), "default"@) == Seq::<Seq<char>>::empty());
        assert(c.story_events@[12].outcomes@.subrange(0, 1).drop_last() =~= c.story_events@[12].outcomes@.subrange(0, 0));
        assert(c.story_events@[12].outcomes@.subrange(0, 1).last() == c.story_events@[12].outcomes@[0]);
        assert(other_targets(c.story_events@[12].outcomes@.subrange(0, 1), "default"@) =~= seq![]);
        assert(c.story_events@[12].outcomes@.subrange(0, 1) =~= c.story_events@[12].outcomes@);
        assert(other_targets(c.story_events@[12].outcomes@, "default"@) =~= seq![]);
        assert(event_targets(c.story_events@[12].outcomes@, "default"@) =~= seq!["slot_06"@]);
    }
    assert(node_targets(c.story_events@, c.nodes@[19]) == seq!["slot_06"@]) by {
        assert(c.story_events@[13].key() == "m3_rakesh_missed_event"@);
        lemma_first_key(c.story_events@, "m3_rakesh_missed_event"@, 13);
        assert(outcome_pairs(c.story_events@[13].outcomes@).len() == 1);
        assert(outcome_pairs(c.story_events@[13].outcomes@)[0] == (c.story_events@[13].outcomes@[0].id@, c.story_events@[13].outcomes@[0].next_node_id@));
        assert(c.story_events@[13].outcomes@[0].key() == c.story_events@[13].outcomes@[0].id@);
        lemma_first_key(c.story_events@[13].outcomes@, "default"@, 0);
        assert(outcome_pairs(c.story_events@[13].outcomes@).len() == 1);
        assert(c.story_events@[13].outcomes@.subrange(0, 0).len() == 0);
        assert(other_targets(c.story_events@[13].outcomes@.subrange(0, 0), "default"@) == Seq::<Seq<char>>::empty());
        assert(c.story_events@[13].outcomes@.subrange(0, 1).drop_last() =~= c.story_events@[13].outcomes@.subrange(0, 0));
        assert(c.story_events@[13].outcomes@.subrange(0, 1).last() == c.story_events@[13].outcomes@[0]);
        assert(other_targets(c.story_events@[13].outcomes@.subrange(0, 1), "default"@) =~= seq![]);
        assert(c.story_events@[13].outcomes@.subrange(0, 1) =~= c.story_events@[13].outcomes@);
        assert(other_targets(c.story_events@[13].outcomes@, "default"@) =~= seq![]);
        assert(event_targets(c.story_events@[13].outcomes@, "default"@) =~= seq!["slot_06"@]);
    }
}

/// The successors of nodes 20 to 39 of the north neeladesh content.
#[verifier::rlimit(100)]
#[verifier::spinoff_prover]
proof fn lemma_north_neeladesh_targets_1(c: AuthoredContent)
    requires
        is_north_neeladesh_content(c),
        unique_keys(c.story_events@),
    ensures
        node_targets(c.story_events@, c.nodes@[20]) == seq!["slot_06"@],
        node_targets(c.story_events@, c.nodes@[21]) == seq!["s2_asha_success_node"@, "s2_asha_missed_node"@, "s2_asha_invalid_node"@],
        node_targets(c.story_events@, c.nodes@[22]) == seq!["slot_07"@],
        node_targets(c.story_events@, c.nodes@[23]) == seq!["slot_07"@],
        node_targets(c.story_events@, c.nodes@[24]) == seq!["slot_07"@],
        node_targets(c.story_events@, c.nodes@[25]) == seq!["m4_laleh_success_node"@, "m4_laleh_missed_node"@, "m4_laleh_invalid_node"@],
        node_targets(c.story_events@, c.nodes@[26]) == seq!["slot_08"@],
        node_targets(c.story_events@, c.nodes@[27]) == seq!["slot_08"@],
        node_targets(c.story_events@, c.nodes@[28]) == seq!["slot_08"@],
        node_targets(c.story_events@, c.nodes@[29]) == seq!["s2_1_nahid_success_node"@, "s2_1_nahid_missed_node"@, "s2_1_nahid_invalid_node"@],
        node_targets(c.story_events@, c.nodes@[30]) == seq!["slot_09"@],
        node_targets(c.story_events@, c.nodes@[31]) == seq!["slot_09"@],
        node_targets(c.story_events@, c.nodes@[32]) == seq!["slot_09"@],
        node_targets(c.story_events@, c.nodes@[33]) == seq!["m5_javed_success_node"@, "m5_javed_missed_node"@, "m5_javed_invalid_node"@],
        node_targets(c.story_events@, c.nodes@[34]) == seq!["slot_10"@],
        node_targets(c.story_events@, c.nodes@[35]) == seq!["slot_10"@],
        node_targets(c.story_events@, c.nodes@[36]) == seq!["slot_10"@],
        node_targets(c.story_events@, c.nodes@[37]) == seq!["m6_varo_success_node"@, "m6_varo_missed_node"@, "m6_varo_invalid_node"@],
        node_targets(c.story_events@, c.nodes@[38]) == seq!["slot_11"@],
        node_targets(c.story_events@, c.nodes@[39]) == seq!["slot_11"@],
{
    assert(node_targets(c.story_events@, c.nodes@[20]) == seq!["slot_06"@]) by {
        assert(c.story_events@[14].key() == "m3_rakesh_invalid_event"@);
        lemma_first_key(c.story_events@, "m3_rakesh_invalid_event"@, 14);
        assert(outcome_pairs(c.story_events@[14].outcomes@).len() == 1);
        assert(outcome_pairs(c.story_events@[14].outcomes@)[0] == (c.story_events@[14].outcomes@[0].id@, c.story_events@[14].outcomes@[0].next_node_id@));
        assert(c.story_events@[14].outcomes@[0].key() == c.story_events@[14].outcomes@[0].id@);
        lemma_first_key(c.story_events@[14].outcomes@, "default"@, 0);
        assert(outcome_pairs(c.story_events@[14].outcomes@).len() == 1);
        assert(c.story_events@[14].outcomes@.subrange(0, 0).len() == 0);
        assert(other_targets(c.story_events@[14].outcomes@.subrange(0, 0), "default"@) == Seq::<Seq<char>>::empty());
        assert(c.story_events@[14].outcomes@.subrange(0, 1).drop_last() =~= c.story_events@[14].outcomes@.subrange(0, 0));
        assert(c.story_events@[14].outcomes@.subrange(0, 1).last() == c.story_events@[14].outcomes@[0]);
        assert(other_targets(c.story_events@[14].outcomes@.subrange(0, 1), "default"@) =~= seq![]);
        assert(c.story_events@[14].outcomes@.subrange(0, 1) =~= c.story_events@[14].outcomes@);
        assert(other_targets(c.story_events@[14].outcomes@, "default"@) =~= seq![]);
        assert(event_targets(c.story_events@[14].outcomes@, "default"@) =~= seq!["slot_06"@]);
    }
    assert(node_targets(c.story_events@, c.nodes@[21]) =~= seq!["s2_asha_success_node"@, "s2_asha_missed_node"@, "s2_asha_invalid_node"@]);
    assert(node_targets(c.story_events@, c.nodes@[22]) == seq!["slot_07"@]) by {
        assert(c.story_events@[15].key() == "s2_asha_success_event"@);
        lemma_first_key(c.story_events@, "s2_asha_success_event"@, 15);
        assert(outcome_pairs(c.story_events@[15].outcomes@).len() == 1);
        assert(outcome_pairs(c.story_events@[15].outcomes@)[0] == (c.story_events@[15].outcomes@[0].id@, c.story_events@[15].outcomes@[0].next_node_id@));
        assert(c.story_events@[15].outcomes@[0].key() == c.story_events@[15].outcomes@[0].id@);
        lemma_first_key(c.story_events@[15].outcomes@, "default"@, 0);
        assert(outcome_pairs(c.story_events@[15].outcomes@).len() == 1);
        assert(c.story_events@[15].outcomes@.subrange(0, 0).len() == 0);
        assert(other_targets(c.story_events@[15].outcomes@.subrange(0, 0), "default"@) == Seq::<Seq<char>>::empty());
        assert(c.story_events@[15].outcomes@.subrange(0, 1).drop_last() =~= c.story_events@[15].outcomes@.subrange(0, 0));
        assert(c.story_events@[15].outcomes@.subrange(0, 1).last() == c.story_events@[15].outcomes@[0]);
        assert(other_targets(c.story_events@[15].outcomes@.subrange(0, 1), "default"@) =~= seq![]);
        assert(c.story_events@[15].outcomes@.subrange(0, 1) =~= c.story_events@[15].outcomes@);
        assert(other_targets(c.story_events@[15].outcomes@, "default"@) =~= seq![]);
        assert(event_targets(c.story_events@[15].outcomes@, "default"@) =~= seq!["slot_07"@]);
    }
    assert(node_targets(c.story_events@, c.nodes@[23]) == seq!["slot_07"@]) by {
        assert(c.story_events@[16].key() == "s2_asha_missed_event"@);
        lemma_first_key(c.story_events@, "s2_asha_missed_event"@, 16);
        assert(outcome_pairs(c.story_events@[16].outcomes@).len() == 1);
        assert(outcome_pairs(c.story_events@[16].outcomes@)[0] == (c.story_events@[16].outcomes@[0].id@, c.story_events@[16].outcomes@[0].next_node_id@));
        assert(c.story_events@[16].outcomes@[0].key() == c.story_events@[16].outcomes@[0].id@);
        lemma_first_key(c.story_events@[16].outcomes@, "default"@, 0);
        assert(outcome_pairs(c.story_events@[16].outcomes@).len() == 1);
        assert(c.story_events@[16].outcomes@.subrange(0, 0).len() == 0);
        assert(other_targets(c.story_events@[16].outcomes@.subrange(0, 0), "default"@) == Seq::<Seq<char>>::empty());
        assert(c.story_events@[16].outcomes@.subrange(0, 1).drop_last() =~= c.story_events@[16].outcomes@.subrange(0, 0));
        assert(c.story_events@[16].outcomes@.subrange(0, 1).last() == c.story_events@[16].outcomes@[0]);
        assert(other_targets(c.story_events@[16].outcomes@.subrange(0, 1), "default"@) =~= seq![]);
        assert(c.story_events@[16].outcomes@.subrange(0, 1) =~= c.story_events@[16].outcomes@);
        assert(other_targets(c.story_events@[16].outcomes@, "default"@) =~= seq![]);
        assert(event_targets(c.story_events@[16].outcomes@, "default"@) =~= seq!["slot_07"@]);
    }
    assert(node_targets(c.story_events@, c.nodes@[24]) == seq!["slot_07"@]) by {
        assert(c.story_events@[17].key() == "s2_asha_invalid_event"@);
        lemma_first_key(c.story_events@, "s2_asha_invalid_event"@, 17);
        assert(outcome_pairs(c.story_events@[17].outcomes@).len() == 1);
        assert(outcome_pairs(c.story_events@[17].outcomes@)[0] == (c.story_events@[17].outcomes@[0].id@, c.story_events@[17].outcomes@[0].next_node_id@));
        assert(c.story_events@[17].outcomes@[0].key() == c.story_events@[17].outcomes@[0].id@);
        lemma_first_key(c.story_events@[17].outcomes@, "default"@, 0);
        assert(outcome_pairs(c.story_events@[17].outcomes@).len() == 1);
        assert(c.story_events@[17].outcomes@.subrange(0, 0).len() == 0);
        assert(other_targets(c.story_events@[17].outcomes@.subrange(0, 0), "default"@) == Seq::<Seq<char>>::empty());
        assert(c.story_events@[17].outcomes@.subrange(0, 1).drop_last() =~= c.story_events@[17].outcomes@.subrange(0, 0));
        assert(c.story_events@[17].outcomes@.subrange(0, 1).last() == c.story_events@[17].outcomes@[0]);
        assert(other_targets(c.story_events@[17].outcomes@.subrange(0, 1), "default"@) =~= seq![]);
        assert(c.story_events@[17].outcomes@.subrange(0, 1) =~= c.story_events@[17].outcomes@);
        assert(other_targets(c.story_events@[17].outcomes@, "default"@) =~= seq![]);
        assert(event_targets(c.story_events@[17].outcomes@, "default"@) =~= seq!["slot_07"@]);
    }
    assert(node_targets(c.story_events@, c.nodes@[25]) =~= seq!["m4_laleh_success_node"@, "m4_laleh_missed_node"@, "m4_laleh_invalid_node"@]);
    assert(node_targets(c.story_events@, c.nodes@[26]) == seq!["slot_08"@]) by {
        assert(c.story_events@[18].key() == "m4_laleh_success_event"@);
        lemma_first_key(c.story_events@, "m4_laleh_success_event"@, 18);
        assert(outcome_pairs(c.story_events@[18].outcomes@).len() == 1);
        assert(outcome_pairs(c.story_events@[18].outcomes@)[0] == (c.story_events@[18].outcomes@[0].id@, c.story_events@[18].outcomes@[0].next_node_id@));
        assert(c.story_events@[18].outcomes@[0].key() == c.story_events@[18].outcomes@[0].id@);
        lemma_first_key(c.story_events@[18].outcomes@, "default"@, 0);
        assert(outcome_pairs(c.story_events@[18].outcomes@).len() == 1);
        assert(c.story_events@[18].outcomes@.subrange(0, 0).len() == 0);
        assert(other_targets(c.story_events@[18].outcomes@.subrange(0, 0), "default"@) == Seq::<Seq<char>>::empty());
        assert(c.story_events@[18].outcomes@.subrange(0, 1).drop_last() =~= c.story_events@[18].outcomes@.subrange(0, 0));
        assert(c.story_events@[18].outcomes@.subrange(0, 1).last() == c.story_events@[18].outcomes@[0]);
        assert(other_targets(c.story_events@[18].outcomes@.subrange(0, 1), "default"@) =~= seq![]);
        assert(c.story_events@[18].outcomes@.subrange(0, 1) =~= c.story_events@[18].outcomes@);
        assert(other_targets(c.story_events@[18].outcomes@, "default"@) =~= seq![]);
        assert(event_targets(c.story_events@[18].outcomes@, "default"@) =~= seq!["slot_08"@]);
    }
    assert(node_targets(c.story_events@, c.nodes@[27]) == seq!["slot_08"@]) by {
        assert(c.story_events@[19].key() == "m4_laleh_missed_event"@);
        lemma_first_key(c.story_events@, "m4_laleh_missed_event"@, 19);
        assert(outcome_pairs(c.story_events@[19].outcomes@).len() == 1);
        assert(outcome_pairs(c.story_events@[19].outcomes@)[0] == (c.story_events@[19].outcomes@[0].id@, c.story_events@[19].outcomes@[0].next_node_id@));
        assert(c.story_events@[19].outcomes@[0].key() == c.story_events@[19].outcomes@[0].id@);
        lemma_first_key(c.story_events@[19].outcomes@, "default"@, 0);
        assert(outcome_pairs(c.story_events@[19].outcomes@).len() == 1);
        assert(c.story_events@[19].outcomes@.subrange(0, 0).len() == 0);
        assert(other_targets(c.story_events@[19].outcomes@.subrange(0, 0), "default"@) == Seq::<Seq<char>>::empty());
        assert(c.story_events@[19].outcomes@.subrange(0, 1).drop_last() =~= c.story_events@[19].outcomes@.subrange(0, 0));
        assert(c.story_events@[19].outcomes@.subrange(0, 1).last() == c.story_events@[19].outcomes@[0]);
        assert(other_targets(c.story_events@[19].outcomes@.subrange(0, 1), "default"@) =~= seq![]);
        assert(c.story_events@[19].outcomes@.subrange(0, 1) =~= c.story_events@[19].outcomes@);
        assert(other_targets(c.story_events@[19].outcomes@, "default"@) =~= seq![]);
        assert(event_targets(c.story_events@[19].outcomes@, "default"@) =~= seq!["slot_08"@]);
    }
    assert(node_targets(c.story_events@, c.nodes@[28]) == seq!["slot_08"@]) by {
        assert(c.story_events@[20].key() == "m4_laleh_invalid_event"@);
        lemma_first_key(c.story_events@, "m4_laleh_invalid_event"@, 20);
        assert(outcome_pairs(c.story_events@[20].outcomes@).len() == 1);
        assert(outcome_pairs(c.story_events@[20].outcomes@)[0] == (c.story_events@[20].outcomes@[0].id@, c.story_events@[20].outcomes@[0].next_node_id@));
        assert(c.story_events@[20].outcomes@[0].key() == c.story_events@[20].outcomes@[0].id@);
        lemma_first_key(c.story_events@[20].outcomes@, "default"@, 0);
        assert(outcome_pairs(c.story_events@[20].outcomes@).len() == 1);
        assert(c.story_events@[20].outcomes@.subrange(0, 0).len() == 0);
        assert(other_targets(c.story_events@[20].outcomes@.subrange(0, 0), "default"@) == Seq::<Seq<char>>::empty());
        assert(c.story_events@[20].outcomes@.subrange(0, 1).drop_last() =~= c.story_events@[20].outcomes@.subrange(0, 0));
        assert(c.story_events@[20].outcomes@.subrange(0, 1).last() == c.story_events@[20].outcomes@[0]);
        assert(other_targets(c.story_events@[20].outcomes@.subrange(0, 1), "default"@) =~= seq![]);
        assert(c.story_events@[20].outcomes@.subrange(0, 1) =~= c.story_events@[20].outcomes@);
        assert(other_targets(c.story_events@[20].outcomes@, "default"@) =~= seq![]);
        assert(event_targets(c.story_events@[20].outcomes@, "default"@) =~= seq!["slot_08"@]);
    }
    assert(node_targets(c.story_events@, c.nodes@[29]) =~= seq!["s2_1_nahid_success_node"@, "s2_1_nahid_missed_node"@, "s2_1_nahid_invalid_node"@]);
    assert(node_targets(c.story_events@, c.nodes@[30]) == seq!["slot_09"@]) by {
        assert(c.story_events@[21].key() == "s2_1_nahid_success_event"@);
        lemma_first_key(c.story_events@, "s2_1_nahid_success_event"@, 21);
        assert(outcome_pairs(c.story_events@[21].outcomes@).len() == 1);
        assert(outcome_pairs(c.story_events@[21].outcomes@)[0] == (c.story_events@[21].outcomes@[0].id@, c.story_events@[21].outcomes@[0].next_node_id@));
        assert(c.story_events@[21].outcomes@[0].key() == c.story_events@[21].outcomes@[0].id@);
        lemma_first_key(c.story_events@[21].outcomes@, "default"@, 0);
        assert(outcome_pairs(c.story_events@[21].outcomes@).len() == 1);
        assert(c.story_events@[21].outcomes@.subrange(0, 0).len() == 0);
        assert(other_targets(c.story_events@[21].outcomes@.subrange(0, 0), "default"@) == Seq::<Seq<char>>::empty());
        assert(c.story_events@[21].outcomes@.subrange(0, 1).drop_last() =~= c.story_events@[21].outcomes@.subrange(0, 0));
        assert(c.story_events@[21].outcomes@.subrange(0, 1).last() == c.story_events@[21].outcomes@[0]);
        assert(other_targets(c.story_events@[21].outcomes@.subrange(0, 1), "default"@) =~= seq![]);
        assert(c.story_events@[21].outcomes@.subrange(0, 1) =~= c.story_events@[21].outcomes@);
        assert(other_targets(c.story_events@[21].outcomes@, "default"@) =~= seq![]);
        assert(event_targets(c.story_events@[21].outcomes@, "default"@) =~= seq!["slot_09"@]);
    }
    assert(node_targets(c.story_events@, c.nodes@[31]) == seq!["slot_09"@]) by {
        assert(c.story_events@[22].key() == "s2_1_nahid_missed_event"@);
        lemma_first_key(c.story_events@, "s2_1_nahid_missed_event"@, 22);
        assert(outcome_pairs(c.story_events@[22].outcomes@).len() == 1);
        assert(outcome_pairs(c.story_events@[22].outcomes@)[0] == (c.story_events@[22].outcomes@[0].id@, c.story_events@[22].outcomes@[0].next_node_id@));
        assert(c.story_events@[22].outcomes@[0].key() == c.story_events@[22].outcomes@[0].id@);
        lemma_first_key(c.story_events@[22].outcomes@, "default"@, 0);
        assert(outcome_pairs(c.story_events@[22].outcomes@).len() == 1);
        assert(c.story_events@[22].outcomes@.subrange(0, 0).len() == 0);
        assert(other_targets(c.story_events@[22].outcomes@.subrange(0, 0), "default"@) == Seq::<Seq<char>>::empty());
        assert(c.story_events@[22].outcomes@.subrange(0, 1).drop_last() =~= c.story_events@[22].outcomes@.subrange(0, 0));
        assert(c.story_events@[22].outcomes@.subrange(0, 1).last() == c.story_events@[22].outcomes@[0]);
        assert(other_targets(c.story_events@[22].outcomes@.subrange(0, 1), "default"@) =~= seq![]);
        assert(c.story_events@[22].outcomes@.subrange(0, 1) =~= c.story_events@[22].outcomes@);
        assert(other_targets(c.story_events@[22].outcomes@, "default"@) =~= seq![]);
        assert(event_targets(c.story_events@[22].outcomes@, "default"@) =~= seq!["slot_09"@]);
    }
    assert(node_targets(c.story_events@, c.nodes@[32]) == seq!["slot_09"@]) by {
        assert(c.story_events@[23].key() == "s2_1_nahid_invalid_event"@);
        lemma_first_key(c.story_events@, "s2_1_nahid_invalid_event"@, 23);
        assert(outcome_pairs(c.story_events@[23].outcomes@).len() == 1);
        assert(outcome_pairs(c.story_events@[23].outcomes@)[0] == (c.story_events@[23].outcomes@[0].id@, c.story_events@[23].outcomes@[0].next_node_id@));
        assert(c.story_events@[23].outcomes@[0].key() == c.story_events@[23].outcomes@[0].id@);
        lemma_first_key(c.story_events@[23].outcomes@, "default"@, 0);
        assert(outcome_pairs(c.story_events@[23].outcomes@).len() == 1);
        assert(c.story_events@[23].outcomes@.subrange(0, 0).len() == 0);
        assert(other_targets(c.story_events@[23].outcomes@.subrange(0, 0), "default"@) == Seq::<Seq<char>>::empty());
        assert(c.story_events@[23].outcomes@.subrange(0, 1).drop_last() =~= c.story_events@[23].outcomes@.subrange(0, 0));
        assert(c.story_events@[23].outcomes@.subrange(0, 1).last() == c.story_events@[23].outcomes@[0]);
        assert(other_targets(c.story_events@[23].outcomes@.subrange(0, 1), "default"@) =~= seq![]);
        assert(c.story_events@[23].outcomes@.subrange(0, 1) =~= c.story_events@[23].outcomes@);
        assert(other_targets(c.story_events@[23].outcomes@, "default"@) =~= seq![]);
        assert(event_targets(c.story_events@[23].outcomes@, "default"@) =~= seq!["slot_09"@]);
    }
    assert(node_targets(c.story_events@, c.nodes@[33]) =~= seq!["m5_javed_success_node"@, "m5_javed_missed_node"@, "m5_javed_invalid_node"@]);
    assert(node_targets(c.story_events@, c.nodes@[34]) == seq!["slot_10"@]) by {
        assert(c.story_events@[24].key() == "m5_javed_success_event"@);
        lemma_first_key(c.story_events@, "m5_javed_success_event"@, 24);
        assert(outcome_pairs(c.story_events@[24].outcomes@).len() == 1);
        assert(outcome_pairs(c.story_events@[24].outcomes@)[0] == (c.story_events@[24].outcomes@[0].id@, c.story_events@[24].outcomes@[0].next_node_id@));
        assert(c.story_events@[24].outcomes@[0].key() == c.story_events@[24].outcomes@[0].id@);
        lemma_first_key(c.story_events@[24].outcomes@, "default"@, 0);
        assert(outcome_pairs(c.story_events@[24].outcomes@).len() == 1);
        assert(c.story_events@[24].outcomes@.subrange(0, 0).len() == 0);
        assert(other_targets(c.story_events@[24].outcomes@.subrange(0, 0), "default"@) == Seq::<Seq<char>>::empty());
        assert(c.story_events@[24].outcomes@.subrange(0, 1).drop_last() =~= c.story_events@[24].outcomes@.subrange(0, 0));
        assert(c.story_events@[24].outcomes@.subrange(0, 1).last() == c.story_events@[24].outcomes@[0]);
        assert(other_targets(c.story_events@[24].outcomes@.subrange(0, 1), "default"@) =~= seq![]);
        assert(c.story_events@[24].outcomes@.subrange(0, 1) =~= c.story_events@[24].outcomes@);
        assert(other_targets(c.story_events@[24].outcomes@, "default"@) =~= seq![]);
        assert(event_targets(c.story_events@[24].outcomes@, "default"@) =~= seq!["slot_10"@]);
    }
    assert(node_targets(c.story_events@, c.nodes@[35]) == seq!["slot_10"@]) by {
        assert(c.story_events@[25].key() == "m5_javed_missed_event"@);
        lemma_first_key(c.story_events@, "m5_javed_missed_event"@, 25);
        assert(outcome_pairs(c.story_events@[25].outcomes@).len() == 1);
        assert(outcome_pairs(c.story_events@[25].outcomes@)[0] == (c.story_events@[25].outcomes@[0].id@, c.story_events@[25].outcomes@[0].next_node_id@));
        assert(c.story_events@[25].outcomes@[0].key() == c.story_events@[25].outcomes@[0].id@);
        lemma_first_key(c.story_events@[25].outcomes@, "default"@, 0);
        assert(outcome_pairs(c.story_events@[25].outcomes@).len() == 1);
        assert(c.story_events@[25].outcomes@.subrange(0, 0).len() == 0);
        assert(other_targets(c.story_events@[25].outcomes@.subrange(0, 0), "default"@) == Seq::<Seq<char>>::empty());
        assert(c.story_events@[25].outcomes@.subrange(0, 1).drop_last() =~= c.story_events@[25].outcomes@.subrange(0, 0));
        assert(c.story_events@[25].outcomes@.subrange(0, 1).last() == c.story_events@[25].outcomes@[0]);
        assert(other_targets(c.story_events@[25].outcomes@.subrange(0, 1), "default"@) =~= seq![]);
        assert(c.story_events@[25].outcomes@.subrange(0, 1) =~= c.story_events@[25].outcomes@);
        assert(other_targets(c.story_events@[25].outcomes@, "default"@) =~= seq![]);
        assert(event_targets(c.story_events@[25].outcomes@, "default"@) =~= seq!["slot_10"@]);
    }
    assert(node_targets(c.story_events@, c.nodes@[36]) == seq!["slot_10"@]) by {
        assert(c.story_events@[26].key() == "m5_javed_invalid_event"@);
        lemma_first_key(c.story_events@, "m5_javed_invalid_event"@, 26);
        assert(outcome_pairs(c.story_events@[26].outcomes@).len() == 1);
        assert(outcome_pairs(c.story_events@[26].outcomes@)[0] == (c.story_events@[26].outcomes@[0].id@, c.story_events@[26].outcomes@[0].next_node_id@));
        assert(c.story_events@[26].outcomes@[0].key() == c.story_events@[26].outcomes@[0].id@);
        lemma_first_key(c.story_events@[26].outcomes@, "default"@, 0);
        assert(outcome_pairs(c.story_events@[26].outcomes@).len() == 1);
        assert(c.story_events@[26].outcomes@.subrange(0, 0).len() == 0);
        assert(other_targets(c.story_events@[26].outcomes@.subrange(0, 0), "default"@) == Seq::<Seq<char>>::empty());
        assert(c.story_events@[26].outcomes@.subrange(0, 1).drop_last() =~= c.story_events@[26].outcomes@.subrange(0, 0));
        assert(c.story_events@[26].outcomes@.subrange(0, 1).last() == c.story_events@[26].outcomes@[0]);
        assert(other_targets(c.story_events@[26].outcomes@.subrange(0, 1), "default"@) =~= seq![]);
        assert(c.story_events@[26].outcomes@.subrange(0, 1) =~= c.story_events@[26].outcomes@);
        assert(other_targets(c.story_events@[26].outcomes@, "default"@) =~= seq![]);
        assert(event_targets(c.story_events@[26].outcomes@, "default"@) =~= seq!["slot_10"@]);
    }
    assert(node_targets(c.story_events@, c.nodes@[37]) =~= seq!["m6_varo_success_node"@, "m6_varo_missed_node"@, "m6_varo_invalid_node"@]);
    assert(node_targets(c.story_events@, c.nodes@[38]) == seq!["slot_11"@]) by {
        assert(c.story_events@[27].key() == "m6_varo_success_event"@);
        lemma_first_key(c.story_events@, "m6_varo_success_event"@, 27);
        assert(outcome_pairs(c.story_events@[27].outcomes@).len() == 1);
        assert(outcome_pairs(c.story_events@[27].outcomes@)[0] == (c.story_events@[27].outcomes@[0].id@, c.story_events@[27].outcomes@[0].next_node_id@));
        assert(c.story_events@[27].outcomes@[0].key() == c.story_events@[27].outcomes@[0].id@);
        lemma_first_key(c.story_events@[27].outcomes@, "default"@, 0);
        assert(outcome_pairs(c.story_events@[27].outcomes@).len() == 1);
        assert(c.story_events@[27].outcomes@.subrange(0, 0).len() == 0);
        assert(other_targets(c.story_events@[27].outcomes@.subrange(0, 0), "default"@) == Seq::<Seq<char>>::empty());
        assert(c.story_events@[27].outcomes@.subrange(0, 1).drop_last() =~= c.story_events@[27].outcomes@.subrange(0, 0));
        assert(c.story_events@[27].outcomes@.subrange(0, 1).last() == c.story_events@[27].outcomes@[0]);
        assert(other_targets(c.story_events@[27].outcomes@.subrange(0, 1), "default"@) =~= seq![]);
        assert(c.story_events@[27].outcomes@.subrange(0, 1) =~= c.story_events@[27].outcomes@);
        assert(other_targets(c.story_events@[27].outcomes@, "default"@) =~= seq![]);
        assert(event_targets(c.story_events@[27].outcomes@, "default"@) =~= seq!["slot_11"@]);
    }
    assert(node_targets(c.story_events@, c.nodes@[39]) == seq!["slot_11"@]) by {
        assert(c.story_events@[28].key() == "m6_varo_missed_event"@);
        lemma_first_key(c.story_events@, "m6_varo_missed_event"@, 28);
        assert(outcome_pairs(c.story_events@[28].outcomes@).len() == 1);
        assert(outcome_pairs(c.story_events@[28].outcomes@)[0] == (c.story_events@[28].outcomes@[0].id@, c.story_events@[28].outcomes@[0].next_node_id@));
        assert(c.story_events@[28].outcomes@[0].key() == c.story_events@[28].outcomes@[0].id@);
        lemma_first_key(c.story_events@[28].outcomes@, "default"@, 0);
        assert(outcome_pairs(c.story_events@[28].outcomes@).len() == 1);
        assert(c.story_events@[28].outcomes@.subrange(0, 0).len() == 0);
        assert(other_targets(c.story_events@[28].outcomes@.subrange(0, 0), "default"@) == Seq::<Seq<char>>::empty());
        assert(c.story_events@[28].outcomes@.subrange(0, 1).drop_last() =~= c.story_events@[28].outcomes@.subrange(0, 0));
        assert(c.story_events@[28].outcomes@.subrange(0, 1).last() == c.story_events@[28].outcomes@[0]);
        assert(other_targets(c.story_events@[28].outcomes@.subrange(0, 1), "default"@) =~= seq![]);
        assert(c.story_events@[28].outcomes@.subrange(0, 1) =~= c.story_events@[28].outcomes@);
        assert(other_targets(c.story_events@[28].outcomes@, "default"@) =~= seq![]);
        assert(event_targets(c.story_events@[28].outcomes@, "default"@) =~= seq!["slot_11"@]);
    }
}

/// The successors of nodes 40 to 59 of the north neeladesh content.
#[verifier::rlimit(100)]
#[verifier::spinoff_prover]
proof fn lemma_north_neeladesh_targets_2(c: AuthoredContent)
    requires
        is_north_neeladesh_content(c),
        unique_keys(c.story_events@),
    ensures
        node_targets(c.story_events@, c.nodes@[40]) == seq!["slot_11"@],
        node_targets(c.story_events@, c.nodes@[41]) == seq!["m7_tomas_success_node"@, "m7_tomas_missed_node"@, "m7_tomas_invalid_node"@],
        node_targets(c.story_events@, c.nodes@[42]) == seq!["slot_12"@],
        node_targets(c.story_events@, c.nodes@[43]) == seq!["slot_12"@],
        node_targets(c.story_events@, c.nodes@[44]) == seq!["slot_12"@],
        node_targets(c.story_events@, c.nodes@[45]) == seq!["s3_1_nahid_success_node"@, "s3_1_nahid_missed_node"@, "s3_1_nahid_invalid_node"@],
        node_targets(c.story_events@, c.nodes@[46]) == seq!["slot_13"@],
        node_targets(c.story_events@, c.nodes@[47]) == seq!["slot_13"@],
        node_targets(c.story_events@, c.nodes@[48]) == seq!["slot_13"@],
        node_targets(c.story_events@, c.nodes@[49]) == seq!["m8_bikram_success_node"@, "m8_bikram_missed_node"@, "m8_bikram_invalid_node"@],
        node_targets(c.story_events@, c.nodes@[50]) == seq!["slot_14"@],
        node_targets(c.story_events@, c.nodes@[51]) == seq!["slot_14"@],
        node_targets(c.story_events@, c.nodes@[52]) == seq!["slot_14"@],
        node_targets(c.story_events@, c.nodes@[53]) == seq!["s3_asha_success_node"@, "s3_asha_missed_node"@, "s3_asha_invalid_node"@],
        node_targets(c.story_events@, c.nodes@[54]) == seq!["slot_15"@],
        node_targets(c.story_events@, c.nodes@[55]) == seq!["slot_15"@],
        node_targets(c.story_events@, c.nodes@[56]) == seq!["slot_15"@],
        node_targets(c.story_events@, c.nodes@[57]) == seq!["m9_paro_success_node"@, "m9_paro_missed_node"@, "m9_paro_invalid_node"@],
        node_targets(c.story_events@, c.nodes@[58]) == seq!["slot_16"@],
        node_targets(c.story_events@, c.nodes@[59]) == seq!["slot_16"@],
{
    assert(node_targets(c.story_events@, c.nodes@[40]) == seq!["slot_11"@]) by {
        assert(c.story_events@[29].key() == "m6_varo_invalid_event"@);
        lemma_first_key(c.story_events@, "m6_varo_invalid_event"@, 29);
        assert(outcome_pairs(c.story_events@[29].outcomes@).len() == 1);
        assert(outcome_pairs(c.story_events@[29].outcomes@)[0] == (c.story_events@[29].outcomes@[0].id@, c.story_events@[29].outcomes@[0].next_node_id@));
        assert(c.story_events@[29].outcomes@[0].key() == c.story_events@[29].outcomes@[0].id@);
        lemma_first_key(c.story_events@[29].outcomes@, "default"@, 0);
        assert(outcome_pairs(c.story_events@[29].outcomes@).len() == 1);
        assert(c.story_events@[29].outcomes@.subrange(0, 0).len() == 0);
        assert(other_targets(c.story_events@[29].outcomes@.subrange(0, 0), "default"@) == Seq::<Seq<char>>::empty());
        assert(c.story_events@[29].outcomes@.subrange(0, 1).drop_last() =~= c.story_events@[29].outcomes@.subrange(0, 0));
        assert(c.story_events@[29].outcomes@.subrange(0, 1).last() == c.story_events@[29].outcomes@[0]);
        assert(other_targets(c.story_events@[29].outcomes@.subrange(0, 1), "default"@) =~= seq![]);
        assert(c.story_events@[29].outcomes@.subrange(0, 1) =~= c.story_events@[29].outcomes@);
        assert(other_targets(c.story_events@[29].outcomes@, "default"@) =~= seq![]);
        assert(event_targets(c.story_events@[29].outcomes@, "default"@) =~= seq!["slot_11"@]);
    }
    assert(node_targets(c.story_events@, c.nodes@[41]) =~= seq!["m7_tomas_success_node"@, "m7_tomas_missed_node"@, "m7_tomas_invalid_node"@]);
    assert(node_targets(c.story_events@, c.nodes@[42]) == seq!["slot_12"@]) by {
        assert(c.story_events@[30].key() == "m7_tomas_success_event"@);
        lemma_first_key(c.story_events@, "m7_tomas_success_event"@, 30);
        assert(outcome_pairs(c.story_events@[30].outcomes@).len() == 1);
        assert(outcome_pairs(c.story_events@[30].outcomes@)[0] == (c.story_events@[30].outcomes@[0].id@, c.story_events@[30].outcomes@[0].next_node_id@));
        assert(c.story_events@[30].outcomes@[0].key() == c.story_events@[30].outcomes@[0].id@);
        lemma_first_key(c.story_events@[30].outcomes@, "default"@, 0);
        assert(outcome_pairs(c.story_events@[30].outcomes@).len() == 1);
        assert(c.story_events@[30].outcomes@.subrange(0, 0).len() == 0);
        assert(other_targets(c.story_events@[30].outcomes@.subrange(0, 0), "default"@) == Seq::<Seq<char>>::empty());
        assert(c.story_events@[30].outcomes@.subrange(0, 1).drop_last() =~= c.story_events@[30].outcomes@.subrange(0, 0));
        assert(c.story_events@[30].outcomes@.subrange(0, 1).last() == c.story_events@[30].outcomes@[0]);
        assert(other_targets(c.story_events@[30].outcomes@.subrange(0, 1), "default"@) =~= seq![]);
        assert(c.story_events@[30].outcomes@.subrange(0, 1) =~= c.story_events@[30].outcomes@);
        assert(other_targets(c.story_events@[30].outcomes@, "default"@) =~= seq![]);
        assert(event_targets(c.story_events@[30].outcomes@, "default"@) =~= seq!["slot_12"@]);
    }
    assert(node_targets(c.story_events@, c.nodes@[43]) == seq!["slot_12"@]) by {
        assert(c.story_events@[31].key() == "m7_tomas_missed_event"@);
        lemma_first_key(c.story_events@, "m7_tomas_missed_event"@, 31);
        assert(outcome_pairs(c.story_events@[31].outcomes@).len() == 1);
        assert(outcome_pairs(c.story_events@[31].outcomes@)[0] == (c.story_events@[31].outcomes@[0].id@, c.story_events@[31].outcomes@[0].next_node_id@));
        assert(c.story_events@[31].outcomes@[0].key() == c.story_events@[31].outcomes@[0].id@);
        lemma_first_key(c.story_events@[31].outcomes@, "default"@, 0);
        assert(outcome_pairs(c.story_events@[31].outcomes@).len() == 1);
        assert(c.story_events@[31].outcomes@.subrange(0, 0).len() == 0);
        assert(other_targets(c.story_events@[31].outcomes@.subrange(0, 0), "default"@) == Seq::<Seq<char>>::empty());
        assert(c.story_events@[31].outcomes@.subrange(0, 1).drop_last() =~= c.story_events@[31].outcomes@.subrange(0, 0));
        assert(c.story_events@[31].outcomes@.subrange(0, 1).last() == c.story_events@[31].outcomes@[0]);
        assert(other_targets(c.story_events@[31].outcomes@.subrange(0, 1), "default"@) =~= seq![]);
        assert(c.story_events@[31].outcomes@.subrange(0, 1) =~= c.story_events@[31].outcomes@);
        assert(other_targets(c.story_events@[31].outcomes@, "default"@) =~= seq![]);
        assert(event_targets(c.story_events@[31].outcomes@, "default"@) =~= seq!["slot_12"@]);
    }
    assert(node_targets(c.story_events@, c.nodes@[44]) == seq!["slot_12"@]) by {
        assert(c.story_events@[32].key() == "m7_tomas_invalid_event"@);
        lemma_first_key(c.story_events@, "m7_tomas_invalid_event"@, 32);
        assert(outcome_pairs(c.story_events@[32].outcomes@).len() == 1);
        assert(outcome_pairs(c.story_events@[32].outcomes@)[0] == (c.story_events@[32].outcomes@[0].id@, c.story_events@[32].outcomes@[0].next_node_id@));
        assert(c.story_events@[32].outcomes@[0].key() == c.story_events@[32].outcomes@[0].id@);
        lemma_first_key(c.story_events@[32].outcomes@, "default"@, 0);
        assert(outcome_pairs(c.story_events@[32].outcomes@).len() == 1);
        assert(c.story_events@[32].outcomes@.subrange(0, 0).len() == 0);
        assert(other_targets(c.story_events@[32].outcomes@.subrange(0, 0), "default"@) == Seq::<Seq<char>>::empty());
        assert(c.story_events@[32].outcomes@.subrange(0, 1).drop_last() =~= c.story_events@[32].outcomes@.subrange(0, 0));
        assert(c.story_events@[32].outcomes@.subrange(0, 1).last() == c.story_events@[32].outcomes@[0]);
        assert(other_targets(c.story_events@[32].outcomes@.subrange(0, 1), "default"@) =~= seq![]);
        assert(c.story_events@[32].outcomes@.subrange(0, 1) =~= c.story_events@[32].outcomes@);
        assert(other_targets(c.story_events@[32].outcomes@, "default"@) =~= seq![]);
        assert(event_targets(c.story_events@[32].outcomes@, "default"@) =~= seq!["slot_12"@]);
    }
    assert(node_targets(c.story_events@, c.nodes@[45]) =~= seq!["s3_1_nahid_success_node"@, "s3_1_nahid_missed_node"@, "s3_1_nahid_invalid_node"@]);
    assert(node_targets(c.story_events@, c.nodes@[46]) == seq!["slot_13"@]) by {
        assert(c.story_events@[33].key() == "s3_1_nahid_success_event"@);
        lemma_first_key(c.story_events@, "s3_1_nahid_success_event"@, 33);
        assert(outcome_pairs(c.story_events@[33].outcomes@).len() == 1);
        assert(outcome_pairs(c.story_events@[33].outcomes@)[0] == (c.story_events@[33].outcomes@[0].id@, c.story_events@[33].outcomes@[0].next_node_id@));
        assert(c.story_events@[33].outcomes@[0].key() == c.story_events@[33].outcomes@[0].id@);
        lemma_first_key(c.story_events@[33].outcomes@, "default"@, 0);
        assert(outcome_pairs(c.story_events@[33].outcomes@).len() == 1);
        assert(c.story_events@[33].outcomes@.subrange(0, 0).len() == 0);
        assert(other_targets(c.story_events@[33].outcomes@.subrange(0, 0), "default"@) == Seq::<Seq<char>>::empty());
        assert(c.story_events@[33].outcomes@.subrange(0, 1).drop_last() =~= c.story_events@[33].outcomes@.subrange(0, 0));
        assert(c.story_events@[33].outcomes@.subrange(0, 1).last() == c.story_events@[33].outcomes@[0]);
        assert(other_targets(c.story_events@[33].outcomes@.subrange(0, 1), "default"@) =~= seq![]);
        assert(c.story_events@[33].outcomes@.subrange(0, 1) =~= c.story_events@[33].outcomes@);
        assert(other_targets(c.story_events@[33].outcomes@, "default"@) =~= seq![]);
        assert(event_targets(c.story_events@[33].outcomes@, "default"@) =~= seq!["slot_13"@]);
    }
    assert(node_targets(c.story_events@, c.nodes@[47]) == seq!["slot_13"@]) by {
        assert(c.story_events@[34].key() == "s3_1_nahid_missed_event"@);
        lemma_first_key(c.story_events@, "s3_1_nahid_missed_event"@, 34);
        assert(outcome_pairs(c.story_events@[34].outcomes@).len() == 1);
        assert(outcome_pairs(c.story_events@[34].outcomes@)[0] == (c.story_events@[34].outcomes@[0].id@, c.story_events@[34].outcomes@[0].next_node_id@));
        assert(c.story_events@[34].outcomes@[0].key() == c.story_events@[34].outcomes@[0].id@);
        lemma_first_key(c.story_events@[34].outcomes@, "default"@, 0);
        assert(outcome_pairs(c.story_events@[34].outcomes@).len() == 1);
        assert(c.story_events@[34].outcomes@.subrange(0, 0).len() == 0);
        assert(other_targets(c.story_events@[34].outcomes@.subrange(0, 0), "default"@) == Seq::<Seq<char>>::empty());
        assert(c.story_events@[34].outcomes@.subrange(0, 1).drop_last() =~= c.story_events@[34].outcomes@.subrange(0, 0));
        assert(c.story_events@[34].outcomes@.subrange(0, 1).last() == c.story_events@[34].outcomes@[0]);
        assert(other_targets(c.story_events@[34].outcomes@.subrange(0, 1), "default"@) =~= seq![]);
        assert(c.story_events@[34].outcomes@.subrange(0, 1) =~= c.story_events@[34].outcomes@);
        assert(other_targets(c.story_events@[34].outcomes@, "default"@) =~= seq![]);
        assert(event_targets(c.story_events@[34].outcomes@, "default"@) =~= seq!["slot_13"@]);
    }
    assert(node_targets(c.story_events@, c.nodes@[48]) == seq!["slot_13"@]) by {
        assert(c.story_events@[35].key() == "s3_1_nahid_invalid_event"@);
        lemma_first_key(c.story_events@, "s3_1_nahid_invalid_event"@, 35);
        assert(outcome_pairs(c.story_events@[35].outcomes@).len() == 1);
        assert(outcome_pairs(c.story_events@[35].outcomes@)[0] == (c.story_events@[35].outcomes@[0].id@, c.story_events@[35].outcomes@[0].next_node_id@));
        assert(c.story_events@[35].outcomes@[0].key() == c.story_events@[35].outcomes@[0].id@);
        lemma_first_key(c.story_events@[35].outcomes@, "default"@, 0);
        assert(outcome_pairs(c.story_events@[35].outcomes@).len() == 1);
        assert(c.story_events@[35].outcomes@.subrange(0, 0).len() == 0);
        assert(other_targets(c.story_events@[35].outcomes@.subrange(0, 0), "default"@) == Seq::<Seq<char>>::empty());
        assert(c.story_events@[35].outcomes@.subrange(0, 1).drop_last() =~= c.story_events@[35].outcomes@.subrange(0, 0));
        assert(c.story_events@[35].outcomes@.subrange(0, 1).last() == c.story_events@[35].outcomes@[0]);
        assert(other_targets(c.story_events@[35].outcomes@.subrange(0, 1), "default"@) =~= seq![]);
        assert(c.story_events@[35].outcomes@.subrange(0, 1) =~= c.story_events@[35].outcomes@);
        assert(other_targets(c.story_events@[35].outcomes@, "default"@) =~= seq![]);
        assert(event_targets(c.story_events@[35].outcomes@, "default"@) =~= seq!["slot_13"@]);
    }
    assert(node_targets(c.story_events@, c.nodes@[49]) =~= seq!["m8_bikram_success_node"@, "m8_bikram_missed_node"@, "m8_bikram_invalid_node"@]);
    assert(node_targets(c.story_events@, c.nodes@[50]) == seq!["slot_14"@]) by {
        assert(c.story_events@[36].key() == "m8_bikram_success_event"@);
        lemma_first_key(c.story_events@, "m8_bikram_success_event"@, 36);
        assert(outcome_pairs(c.story_events@[36].outcomes@).len() == 1);
        assert(outcome_pairs(c.story_events@[36].outcomes@)[0] == (c.story_events@[36].outcomes@[0].id@, c.story_events@[36].outcomes@[0].next_node_id@));
        assert(c.story_events@[36].outcomes@[0].key() == c.story_events@[36].outcomes@[0].id@);
        lemma_first_key(c.story_events@[36].outcomes@, "default"@, 0);
        assert(outcome_pairs(c.story_events@[36].outcomes@).len() == 1);
        assert(c.story_events@[36].outcomes@.subrange(0, 0).len() == 0);
        assert(other_targets(c.story_events@[36].outcomes@.subrange(0, 0), "default"@) == Seq::<Seq<char>>::empty());
        assert(c.story_events@[36].outcomes@.subrange(0, 1).drop_last() =~= c.story_events@[36].outcomes@.subrange(0, 0));
        assert(c.story_events@[36].outcomes@.subrange(0, 1).last() == c.story_events@[36].outcomes@[0]);
        assert(other_targets(c.story_events@[36].outcomes@.subrange(0, 1), "default"@) =~= seq![]);
        assert(c.story_events@[36].outcomes@.subrange(0, 1) =~= c.story_events@[36].outcomes@);
        assert(other_targets(c.story_events@[36].outcomes@, "default"@) =~= seq![]);
        assert(event_targets(c.story_events@[36].outcomes@, "default"@) =~= seq!["slot_14"@]);
    }
    assert(node_targets(c.story_events@, c.nodes@[51]) == seq!["slot_14"@]) by {
        assert(c.story_events@[37].key() == "m8_bikram_missed_event"@);
        lemma_first_key(c.story_events@, "m8_bikram_missed_event"@, 37);
        assert(outcome_pairs(c.story_events@[37].outcomes@).len() == 1);
        assert(outcome_pairs(c.story_events@[37].outcomes@)[0] == (c.story_events@[37].outcomes@[0].id@, c.story_events@[37].outcomes@[0].next_node_id@));
        assert(c.story_events@[37].outcomes@[0].key() == c.story_events@[37].outcomes@[0].id@);
        lemma_first_key(c.story_events@[37].outcomes@, "default"@, 0);
        assert(outcome_pairs(c.story_events@[37].outcomes@).len() == 1);
        assert(c.story_events@[37].outcomes@.subrange(0, 0).len() == 0);
        assert(other_targets(c.story_events@[37].outcomes@.subrange(0, 0), "default"@) == Seq::<Seq<char>>::empty());
        assert(c.story_events@[37].outcomes@.subrange(0, 1).drop_last() =~= c.story_events@[37].outcomes@.subrange(0, 0));
        assert(c.story_events@[37].outcomes@.subrange(0, 1).last() == c.story_events@[37].outcomes@[0]);
        assert(other_targets(c.story_events@[37].outcomes@.subrange(0, 1), "default"@) =~= seq![]);
        assert(c.story_events@[37].outcomes@.subrange(0, 1) =~= c.story_events@[37].outcomes@);
        assert(other_targets(c.story_events@[37].outcomes@, "default"@) =~= seq![]);
        assert(event_targets(c.story_events@[37].outcomes@, "default"@) =~= seq!["slot_14"@]);
    }
    assert(node_targets(c.story_events@, c.nodes@[52]) == seq!["slot_14"@]) by {
        assert(c.story_events@[38].key() == "m8_bikram_invalid_event"@);
        lemma_first_key(c.story_events@, "m8_bikram_invalid_event"@, 38);
        assert(outcome_pairs(c.story_events@[38].outcomes@).len() == 1);
        assert(outcome_pairs(c.story_events@[38].outcomes@)[0] == (c.story_events@[38].outcomes@[0].id@, c.story_events@[38].outcomes@[0].next_node_id@));
        assert(c.story_events@[38].outcomes@[0].key() == c.story_events@[38].outcomes@[0].id@);
        lemma_first_key(c.story_events@[38].outcomes@, "default"@, 0);
        assert(outcome_pairs(c.story_events@[38].outcomes@).len() == 1);
        assert(c.story_events@[38].outcomes@.subrange(0, 0).len() == 0);
        assert(other_targets(c.story_events@[38].outcomes@.subrange(0, 0), "default"@) == Seq::<Seq<char>>::empty());
        assert(c.story_events@[38].outcomes@.subrange(0, 1).drop_last() =~= c.story_events@[38].outcomes@.subrange(0, 0));
        assert(c.story_events@[38].outcomes@.subrange(0, 1).last() == c.story_events@[38].outcomes@[0]);
        assert(other_targets(c.story_events@[38].outcomes@.subrange(0, 1), "default"@) =~= seq![]);
        assert(c.story_events@[38].outcomes@.subrange(0, 1) =~= c.story_events@[38].outcomes@);
        assert(other_targets(c.story_events@[38].outcomes@, "default"@) =~= seq![]);
        assert(event_targets(c.story_events@[38].outcomes@, "default"@) =~= seq!["slot_14"@]);
    }
    assert(node_targets(c.story_events@, c.nodes@[53]) =~= seq!["s3_asha_success_node"@, "s3_asha_missed_node"@, "s3_asha_invalid_node"@]);
    assert(node_targets(c.story_events@, c.nodes@[54]) == seq!["slot_15"@]) by {
        assert(c.story_events@[39].key() == "s3_asha_success_event"@);
        lemma_first_key(c.story_events@, "s3_asha_success_event"@, 39);
        assert(outcome_pairs(c.story_events@[39].outcomes@).len() == 1);
        assert(outcome_pairs(c.story_events@[39].outcomes@)[0] == (c.story_events@[39].outcomes@[0].id@, c.story_events@[39].outcomes@[0].next_node_id@));
        assert(c.story_events@[39].outcomes@[0].key() == c.story_events@[39].outcomes@[0].id@);
        lemma_first_key(c.story_events@[39].outcomes@, "default"@, 0);
        assert(outcome_pairs(c.story_events@[39].outcomes@).len() == 1);
        assert(c.story_events@[39].outcomes@.subrange(0, 0).len() == 0);
        assert(other_targets(c.story_events@[39].outcomes@.subrange(0, 0), "default"@) == Seq::<Seq<char>>::empty());
        assert(c.story_events@[39].outcomes@.subrange(0, 1).drop_last() =~= c.story_events@[39].outcomes@.subrange(0, 0));
        assert(c.story_events@[39].outcomes@.subrange(0, 1).last() == c.story_events@[39].outcomes@[0]);
        assert(other_targets(c.story_events@[39].outcomes@.subrange(0, 1), "default"@) =~= seq![]);
        assert(c.story_events@[39].outcomes@.subrange(0, 1) =~= c.story_events@[39].outcomes@);
        assert(other_targets(c.story_events@[39].outcomes@, "default"@) =~= seq![]);
        assert(event_targets(c.story_events@[39].outcomes@, "default"@) =~= seq!["slot_15"@]);
    }
    assert(node_targets(c.story_events@, c.nodes@[55]) == seq!["slot_15"@]) by {
        assert(c.story_events@[40].key() == "s3_asha_missed_event"@);
        lemma_first_key(c.story_events@, "s3_asha_missed_event"@, 40);
        assert(outcome_pairs(c.story_events@[40].outcomes@).len() == 1);
        assert(outcome_pairs(c.story_events@[40].outcomes@)[0] == (c.story_events@[40].outcomes@[0].id@, c.story_events@[40].outcomes@[0].next_node_id@));
        assert(c.story_events@[40].outcomes@[0].key() == c.story_events@[40].outcomes@[0].id@);
        lemma_first_key(c.story_events@[40].outcomes@, "default"@, 0);
        assert(outcome_pairs(c.story_events@[40].outcomes@).len() == 1);
        assert(c.story_events@[40].outcomes@.subrange(0, 0).len() == 0);
        assert(other_targets(c.story_events@[40].outcomes@.subrange(0, 0), "default"@) == Seq::<Seq<char>>::empty());
        assert(c.story_events@[40].outcomes@.subrange(0, 1).drop_last() =~= c.story_events@[40].outcomes@.subrange(0, 0));
        assert(c.story_events@[40].outcomes@.subrange(0, 1).last() == c.story_events@[40].outcomes@[0]);
        assert(other_targets(c.story_events@[40].outcomes@.subrange(0, 1), "default"@) =~= seq![]);
        assert(c.story_events@[40].outcomes@.subrange(0, 1) =~= c.story_events@[40].outcomes@);
        assert(other_targets(c.story_events@[40].outcomes@, "default"@) =~= seq![]);
        assert(event_targets(c.story_events@[40].outcomes@, "default"@) =~= seq!["slot_15"@]);
    }
    assert(node_targets(c.story_events@, c.nodes@[56]) == seq!["slot_15"@]) by {
        assert(c.story_events@[41].key() == "s3_asha_invalid_event"@);
        lemma_first_key(c.story_events@, "s3_asha_invalid_event"@, 41);
        assert(outcome_pairs(c.story_events@[41].outcomes@).len() == 1);
        assert(outcome_pairs(c.story_events@[41].outcomes@)[0] == (c.story_events@[41].outcomes@[0].id@, c.story_events@[41].outcomes@[0].next_node_id@));
        assert(c.story_events@[41].outcomes@[0].key() == c.story_events@[41].outcomes@[0].id@);
        lemma_first_key(c.story_events@[41].outcomes@, "default"@, 0);
        assert(outcome_pairs(c.story_events@[41].outcomes@).len() == 1);
        assert(c.story_events@[41].outcomes@.subrange(0, 0).len() == 0);
        assert(other_targets(c.story_events@[41].outcomes@.subrange(0, 0), "default"@) == Seq::<Seq<char>>::empty());
        assert(c.story_events@[41].outcomes@.subrange(0, 1).drop_last() =~= c.story_events@[41].outcomes@.subrange(0, 0));
        assert(c.story_events@[41].outcomes@.subrange(0, 1).last() == c.story_events@[41].outcomes@[0]);
        assert(other_targets(c.story_events@[41].outcomes@.subrange(0, 1), "default"@) =~= seq![]);
        assert(c.story_events@[41].outcomes@.subrange(0, 1) =~= c.story_events@[41].outcomes@);
        assert(other_targets(c.story_events@[41].outcomes@, "default"@) =~= seq![]);
        assert(event_targets(c.story_events@[41].outcomes@, "default"@) =~= seq!["slot_15"@]);
    }
    assert(node_targets(c.story_events@, c.nodes@[57]) =~= seq!["m9_paro_success_node"@, "m9_paro_missed_node"@, "m9_paro_invalid_node"@]);
    assert(node_targets(c.story_events@, c.nodes@[58]) == seq!["slot_16"@]) by {
        assert(c.story_events@[42].key() == "m9_paro_success_event"@);
        lemma_first_key(c.story_events@, "m9_paro_success_event"@, 42);
        assert(outcome_pairs(c.story_events@[42].outcomes@).len() == 1);
        assert(outcome_pairs(c.story_events@[42].outcomes@)[0] == (c.story_events@[42].outcomes@[0].id@, c.story_events@[42].outcomes@[0].next_node_id@));
        assert(c.story_events@[42].outcomes@[0].key() == c.story_events@[42].outcomes@[0].id@);
        lemma_first_key(c.story_events@[42].outcomes@, "default"@, 0);
        assert(outcome_pairs(c.story_events@[42].outcomes@).len() == 1);
        assert(c.story_events@[42].outcomes@.subrange(0, 0).len() == 0);
        assert(other_targets(c.story_events@[42].outcomes@.subrange(0, 0), "default"@) == Seq::<Seq<char>>::empty());
        assert(c.story_events@[42].outcomes@.subrange(0, 1).drop_last() =~= c.story_events@[42].outcomes@.subrange(0, 0));
        assert(c.story_events@[42].outcomes@.subrange(0, 1).last() == c.story_events@[42].outcomes@[0]);
        assert(other_targets(c.story_events@[42].outcomes@.subrange(0, 1), "default"@) =~= seq![]);
        assert(c.story_events@[42].outcomes@.subrange(0, 1) =~= c.story_events@[42].outcomes@);
        assert(other_targets(c.story_events@[42].outcomes@, "default"@) =~= seq![]);
        assert(event_targets(c.story_events@[42].outcomes@, "default"@) =~= seq!["slot_16"@]);
    }
    assert(node_targets(c.story_events@, c.nodes@[59]) == seq!["slot_16"@]) by {
        assert(c.story_events@[43].key() == "m9_paro_missed_event"@);
        lemma_first_key(c.story_events@, "m9_paro_missed_event"@, 43);
        assert(outcome_pairs(c.story_events@[43].outcomes@).len() == 1);
        assert(outcome_pairs(c.story_events@[43].outcomes@)[0] == (c.story_events@[43].outcomes@[0].id@, c.story_events@[43].outcomes@[0].next_node_id@));
        assert(c.story_events@[43].outcomes@[0].key() == c.story_events@[43].outcomes@[0].id@);
        lemma_first_key(c.story_events@[43].outcomes@, "default"@, 0);
        assert(outcome_pairs(c.story_events@[43].outcomes@).len() == 1);
        assert(c.story_events@[43].outcomes@.subrange(0, 0).len() == 0);
        assert(other_targets(c.story_events@[43].outcomes@.subrange(0, 0), "default"@) == Seq::<Seq<char>>::empty());
        assert(c.story_events@[43].outcomes@.subrange(0, 1).drop_last() =~= c.story_events@[43].outcomes@.subrange(0, 0));
        assert(c.story_events@[43].outcomes@.subrange(0, 1).last() == c.story_events@[43].outcomes@[0]);
        assert(other_targets(c.story_events@[43].outcomes@.subrange(0, 1), "default"@) =~= seq![]);
        assert(c.story_events@[43].outcomes@.subrange(0, 1) =~= c.story_events@[43].outcomes@);
        assert(other_targets(c.story_events@[43].outcomes@, "default"@) =~= seq![]);
        assert(event_targets(c.story_events@[43].outcomes@, "default"@) =~= seq!["slot_16"@]);
    }
}

/// The successors of nodes 60 to 79 of the north neeladesh content.
#[verifier::rlimit(100)]
#[verifier::spinoff_prover]
proof fn lemma_north_neeladesh_targets_3(c: AuthoredContent)
    requires
        is_north_neeladesh_content(c),
        unique_keys(c.story_events@),
    ensures
        node_targets(c.story_events@, c.nodes@[60]) == seq!["slot_16"@],
        node_targets(c.story_events@, c.nodes@[61]) == seq!["s3_akash_success_node"@, "s3_akash_missed_node"@, "s3_akash_invalid_node"@],
        node_targets(c.story_events@, c.nodes@[62]) == seq!["slot_17"@],
        node_targets(c.story_events@, c.nodes@[63]) == seq!["slot_17"@],
        node_targets(c.story_events@, c.nodes@[64]) == seq!["slot_17"@],
        node_targets(c.story_events@, c.nodes@[65]) == seq!["m10_audit_success_node"@, "m10_audit_missed_node"@, "m10_audit_invalid_node"@],
        node_targets(c.story_events@, c.nodes@[66]) == seq!["slot_18"@],
        node_targets(c.story_events@, c.nodes@[67]) == seq!["slot_18"@],
        node_targets(c.story_events@, c.nodes@[68]) == seq!["slot_18"@],
        node_targets(c.story_events@, c.nodes@[69]) == seq!["s4_akash_success_node"@, "s4_akash_missed_node"@, "s4_akash_invalid_node"@],
        node_targets(c.story_events@, c.nodes@[70]) == seq!["m11_select"@],
        node_targets(c.story_events@, c.nodes@[71]) == seq!["m11_select"@],
        node_targets(c.story_events@, c.nodes@[72]) == seq!["m11_select"@],
        node_targets(c.story_events@, c.nodes@[73]) == seq!["m11a_success_node"@, "m11a_missed_node"@, "m11a_invalid_node"@],
        node_targets(c.story_events@, c.nodes@[74]) == seq!["m12"@],
        node_targets(c.story_events@, c.nodes@[75]) == seq!["m12"@],
        node_targets(c.story_events@, c.nodes@[76]) == seq!["m12"@],
        node_targets(c.story_events@, c.nodes@[77]) == seq!["m11b_success_node"@, "m11b_missed_node"@, "m11b_invalid_node"@],
        node_targets(c.story_events@, c.nodes@[78]) == seq!["m12"@],
        node_targets(c.story_events@, c.nodes@[79]) == seq!["m12"@],
{
    assert(node_targets(c.story_events@, c.nodes@[60]) == seq!["slot_16"@]) by {
        assert(c.story_events@[44].key() == "m9_paro_invalid_event"@);
        lemma_first_key(c.story_events@, "m9_paro_invalid_event"@, 44);
        assert(outcome_pairs(c.story_events@[44].outcomes@).len() == 1);
        assert(outcome_pairs(c.story_events@[44].outcomes@)[0] == (c.story_events@[44].outcomes@[0].id@, c.story_events@[44].outcomes@[0].next_node_id@));
        assert(c.story_events@[44].outcomes@[0].key() == c.story_events@[44].outcomes@[0].id@);
        lemma_first_key(c.story_events@[44].outcomes@, "default"@, 0);
        assert(outcome_pairs(c.story_events@[44].outcomes@).len() == 1);
        assert(c.story_events@[44].outcomes@.subrange(0, 0).len() == 0);
        assert(other_targets(c.story_events@[44].outcomes@.subrange(0, 0), "default"@) == Seq::<Seq<char>>::empty());
        assert(c.story_events@[44].outcomes@.subrange(0, 1).drop_last() =~= c.story_events@[44].outcomes@.subrange(0, 0));
        assert(c.story_events@[44].outcomes@.subrange(0, 1).last() == c.story_events@[44].outcomes@[0]);
        assert(other_targets(c.story_events@[44].outcomes@.subrange(0, 1), "default"@) =~= seq![]);
        assert(c.story_events@[44].outcomes@.subrange(0, 1) =~= c.story_events@[44].outcomes@);
        assert(other_targets(c.story_events@[44].outcomes@, "default"@) =~= seq![]);
        assert(event_targets(c.story_events@[44].outcomes@, "default"@) =~= seq!["slot_16"@]);
    }
    assert(node_targets(c.story_events@, c.nodes@[61]) =~= seq!["s3_akash_success_node"@, "s3_akash_missed_node"@, "s3_akash_invalid_node"@]);
    assert(node_targets(c.story_events@, c.nodes@[62]) == seq!["slot_17"@]) by {
        assert(c.story_events@[45].key() == "s3_akash_success_event"@);
        lemma_first_key(c.story_events@, "s3_akash_success_event"@, 45);
        assert(outcome_pairs(c.story_events@[45].outcomes@).len() == 1);
        assert(outcome_pairs(c.story_events@[45].outcomes@)[0] == (c.story_events@[45].outcomes@[0].id@, c.story_events@[45].outcomes@[0].next_node_id@));
        assert(c.story_events@[45].outcomes@[0].key() == c.story_events@[45].outcomes@[0].id@);
        lemma_first_key(c.story_events@[45].outcomes@, "default"@, 0);
        assert(outcome_pairs(c.story_events@[45].outcomes@).len() == 1);
        assert(c.story_events@[45].outcomes@.subrange(0, 0).len() == 0);
        assert(other_targets(c.story_events@[45].outcomes@.subrange(0, 0), "default"@) == Seq::<Seq<char>>::empty());
        assert(c.story_events@[45].outcomes@.subrange(0, 1).drop_last() =~= c.story_events@[45].outcomes@.subrange(0, 0));
        assert(c.story_events@[45].outcomes@.subrange(0, 1).last() == c.story_events@[45].outcomes@[0]);
        assert(other_targets(c.story_events@[45].outcomes@.subrange(0, 1), "default"@) =~= seq![]);
        assert(c.story_events@[45].outcomes@.subrange(0, 1) =~= c.story_events@[45].outcomes@);
        assert(other_targets(c.story_events@[45].outcomes@, "default"@) =~= seq![]);
        assert(event_targets(c.story_events@[45].outcomes@, "default"@) =~= seq!["slot_17"@]);
    }
    assert(node_targets(c.story_events@, c.nodes@[63]) == seq!["slot_17"@]) by {
        assert(c.story_events@[46].key() == "s3_akash_missed_event"@);
        lemma_first_key(c.story_events@, "s3_akash_missed_event"@, 46);
        assert(outcome_pairs(c.story_events@[46].outcomes@).len() == 1);
        assert(outcome_pairs(c.story_events@[46].outcomes@)[0] == (c.story_events@[46].outcomes@[0].id@, c.story_events@[46].outcomes@[0].next_node_id@));
        assert(c.story_events@[46].outcomes@[0].key() == c.story_events@[46].outcomes@[0].id@);
        lemma_first_key(c.story_events@[46].outcomes@, "default"@, 0);
        assert(outcome_pairs(c.story_events@[46].outcomes@).len() == 1);
        assert(c.story_events@[46].outcomes@.subrange(0, 0).len() == 0);
        assert(other_targets(c.story_events@[46].outcomes@.subrange(0, 0), "default"@) == Seq::<Seq<char>>::empty());
        assert(c.story_events@[46].outcomes@.subrange(0, 1).drop_last() =~= c.story_events@[46].outcomes@.subrange(0, 0));
        assert(c.story_events@[46].outcomes@.subrange(0, 1).last() == c.story_events@[46].outcomes@[0]);
        assert(other_targets(c.story_events@[46].outcomes@.subrange(0, 1), "default"@) =~= seq![]);
        assert(c.story_events@[46].outcomes@.subrange(0, 1) =~= c.story_events@[46].outcomes@);
        assert(other_targets(c.story_events@[46].outcomes@, "default"@) =~= seq![]);
        assert(event_targets(c.story_events@[46].outcomes@, "default"@) =~= seq!["slot_17"@]);
    }
    assert(node_targets(c.story_events@, c.nodes@[64]) == seq!["slot_17"@]) by {
        assert(c.story_events@[47].key() == "s3_akash_invalid_event"@);
        lemma_first_key(c.story_events@, "s3_akash_invalid_event"@, 47);
        assert(outcome_pairs(c.story_events@[47].outcomes@).len() == 1);
        assert(outcome_pairs(c.story_events@[47].outcomes@)[0] == (c.story_events@[47].outcomes@[0].id@, c.story_events@[47].outcomes@[0].next_node_id@));
        assert(c.story_events@[47].outcomes@[0].key() == c.story_events@[47].outcomes@[0].id@);
        lemma_first_key(c.story_events@[47].outcomes@, "default"@, 0);
        assert(outcome_pairs(c.story_events@[47].outcomes@).len() == 1);
        assert(c.story_events@[47].outcomes@.subrange(0, 0).len() == 0);
        assert(other_targets(c.story_events@[47].outcomes@.subrange(0, 0), "default"@) == Seq::<Seq<char>>::empty());
        assert(c.story_events@[47].outcomes@.subrange(0, 1).drop_last() =~= c.story_events@[47].outcomes@.subrange(0, 0));
        assert(c.story_events@[47].outcomes@.subrange(0, 1).last() == c.story_events@[47].outcomes@[0]);
        assert(other_targets(c.story_events@[47].outcomes@.subrange(0, 1), "default"@) =~= seq![]);
        assert(c.story_events@[47].outcomes@.subrange(0, 1) =~= c.story_events@[47].outcomes@);
        assert(other_targets(c.story_events@[47].outcomes@, "default"@) =~= seq![]);
        assert(event_targets(c.story_events@[47].outcomes@, "default"@) =~= seq!["slot_17"@]);
    }
    assert(node_targets(c.story_events@, c.nodes@[65]) =~= seq!["m10_audit_success_node"@, "m10_audit_missed_node"@, "m10_audit_invalid_node"@]);
    assert(node_targets(c.story_events@, c.nodes@[66]) == seq!["slot_18"@]) by {
        assert(c.story_events@[48].key() == "m10_audit_success_event"@);
        lemma_first_key(c.story_events@, "m10_audit_success_event"@, 48);
        assert(outcome_pairs(c.story_events@[48].outcomes@).len() == 1);
        assert(outcome_pairs(c.story_events@[48].outcomes@)[0] == (c.story_events@[48].outcomes@[0].id@, c.story_events@[48].outcomes@[0].next_node_id@));
        assert(c.story_events@[48].outcomes@[0].key() == c.story_events@[48].outcomes@[0].id@);
        lemma_first_key(c.story_events@[48].outcomes@, "default"@, 0);
        assert(outcome_pairs(c.story_events@[48].outcomes@).len() == 1);
        assert(c.story_events@[48].outcomes@.subrange(0, 0).len() == 0);
        assert(other_targets(c.story_events@[48].outcomes@.subrange(0, 0), "default"@) == Seq::<Seq<char>>::empty());
        assert(c.story_events@[48].outcomes@.subrange(0, 1).drop_last() =~= c.story_events@[48].outcomes@.subrange(0, 0));
        assert(c.story_events@[48].outcomes@.subrange(0, 1).last() == c.story_events@[48].outcomes@[0]);
        assert(other_targets(c.story_events@[48].outcomes@.subrange(0, 1), "default"@) =~= seq![]);
        assert(c.story_events@[48].outcomes@.subrange(0, 1) =~= c.story_events@[48].outcomes@);
        assert(other_targets(c.story_events@[48].outcomes@, "default"@) =~= seq![]);
        assert(event_targets(c.story_events@[48].outcomes@, "default"@) =~= seq!["slot_18"@]);
    }
    assert(node_targets(c.story_events@, c.nodes@[67]) == seq!["slot_18"@]) by {
        assert(c.story_events@[49].key() == "m10_audit_missed_event"@);
        lemma_first_key(c.story_events@, "m10_audit_missed_event"@, 49);
        assert(outcome_pairs(c.story_events@[49].outcomes@).len() == 1);
        assert(outcome_pairs(c.story_events@[49].outcomes@)[0] == (c.story_events@[49].outcomes@[0].id@, c.story_events@[49].outcomes@[0].next_node_id@));
        assert(c.story_events@[49].outcomes@[0].key() == c.story_events@[49].outcomes@[0].id@);
        lemma_first_key(c.story_events@[49].outcomes@, "default"@, 0);
        assert(outcome_pairs(c.story_events@[49].outcomes@).len() == 1);
        assert(c.story_events@[49].outcomes@.subrange(0, 0).len() == 0);
        assert(other_targets(c.story_events@[49].outcomes@.subrange(0, 0), "default"@) == Seq::<Seq<char>>::empty());
        assert(c.story_events@[49].outcomes@.subrange(0, 1).drop_last() =~= c.story_events@[49].outcomes@.subrange(0, 0));
        assert(c.story_events@[49].outcomes@.subrange(0, 1).last() == c.story_events@[49].outcomes@[0]);
        assert(other_targets(c.story_events@[49].outcomes@.subrange(0, 1), "default"@) =~= seq![]);
        assert(c.story_events@[49].outcomes@.subrange(0, 1) =~= c.story_events@[49].outcomes@);
        assert(other_targets(c.story_events@[49].outcomes@, "default"@) =~= seq![]);
        assert(event_targets(c.story_events@[49].outcomes@, "default"@) =~= seq!["slot_18"@]);
    }
    assert(node_targets(c.story_events@, c.nodes@[68]) == seq!["slot_18"@]) by {
        assert(c.story_events@[50].key() == "m10_audit_invalid_event"@);
        lemma_first_key(c.story_events@, "m10_audit_invalid_event"@, 50);
        assert(outcome_pairs(c.story_events@[50].outcomes@).len() == 1);
        assert(outcome_pairs(c.story_events@[50].outcomes@)[0] == (c.story_events@[50].outcomes@[0].id@, c.story_events@[50].outcomes@[0].next_node_id@));
        assert(c.story_events@[50].outcomes@[0].key() == c.story_events@[50].outcomes@[0].id@);
        lemma_first_key(c.story_events@[50].outcomes@, "default"@, 0);
        assert(outcome_pairs(c.story_events@[50].outcomes@).len() == 1);
        assert(c.story_events@[50].outcomes@.subrange(0, 0).len() == 0);
        assert(other_targets(c.story_events@[50].outcomes@.subrange(0, 0), "default"@) == Seq::<Seq<char>>::empty());
        assert(c.story_events@[50].outcomes@.subrange(0, 1).drop_last() =~= c.story_events@[50].outcomes@.subrange(0, 0));
        assert(c.story_events@[50].outcomes@.subrange(0, 1).last() == c.story_events@[50].outcomes@[0]);
        assert(other_targets(c.story_events@[50].outcomes@.subrange(0, 1), "default"@) =~= seq![]);
        assert(c.story_events@[50].outcomes@.subrange(0, 1) =~= c.story_events@[50].outcomes@);
        assert(other_targets(c.story_events@[50].outcomes@, "default"@) =~= seq![]);
        assert(event_targets(c.story_events@[50].outcomes@, "default"@) =~= seq!["slot_18"@]);
    }
    assert(node_targets(c.story_events@, c.nodes@[69]) =~= seq!["s4_akash_success_node"@, "s4_akash_missed_node"@, "s4_akash_invalid_node"@]);
    assert(node_targets(c.story_events@, c.nodes@[70]) == seq!["m11_select"@]) by {
        assert(c.story_events@[51].key() == "s4_akash_success_event"@);
        lemma_first_key(c.story_events@, "s4_akash_success_event"@, 51);
        assert(outcome_pairs(c.story_events@[51].outcomes@).len() == 1);
        assert(outcome_pairs(c.story_events@[51].outcomes@)[0] == (c.story_events@[51].outcomes@[0].id@, c.story_events@[51].outcomes@[0].next_node_id@));
        assert(c.story_events@[51].outcomes@[0].key() == c.story_events@[51].outcomes@[0].id@);
        lemma_first_key(c.story_events@[51].outcomes@, "default"@, 0);
        assert(outcome_pairs(c.story_events@[51].outcomes@).len() == 1);
        assert(c.story_events@[51].outcomes@.subrange(0, 0).len() == 0);
        assert(other_targets(c.story_events@[51].outcomes@.subrange(0, 0), "default"@) == Seq::<Seq<char>>::empty());
        assert(c.story_events@[51].outcomes@.subrange(0, 1).drop_last() =~= c.story_events@[51].outcomes@.subrange(0, 0));
        assert(c.story_events@[51].outcomes@.subrange(0, 1).last() == c.story_events@[51].outcomes@[0]);
        assert(other_targets(c.story_events@[51].outcomes@.subrange(0, 1), "default"@) =~= seq![]);
        assert(c.story_events@[51].outcomes@.subrange(0, 1) =~= c.story_events@[51].outcomes@);
        assert(other_targets(c.story_events@[51].outcomes@, "default"@) =~= seq![]);
        assert(event_targets(c.story_events@[51].outcomes@, "default"@) =~= seq!["m11_select"@]);
    }
    assert(node_targets(c.story_events@, c.nodes@[71]) == seq!["m11_select"@]) by {
        assert(c.story_events@[52].key() == "s4_akash_missed_event"@);
        lemma_first_key(c.story_events@, "s4_akash_missed_event"@, 52);
        assert(outcome_pairs(c.story_events@[52].outcomes@).len() == 1);
        assert(outcome_pairs(c.story_events@[52].outcomes@)[0] == (c.story_events@[52].outcomes@[0].id@, c.story_events@[52].outcomes@[0].next_node_id@));
        assert(c.story_events@[52].outcomes@[0].key() == c.story_events@[52].outcomes@[0].id@);
        lemma_first_key(c.story_events@[52].outcomes@, "default"@, 0);
        assert(outcome_pairs(c.story_events@[52].outcomes@).len() == 1);
        assert(c.story_events@[52].outcomes@.subrange(0, 0).len() == 0);
        assert(other_targets(c.story_events@[52].outcomes@.subrange(0, 0), "default"@) == Seq::<Seq<char>>::empty());
        assert(c.story_events@[52].outcomes@.subrange(0, 1).drop_last() =~= c.story_events@[52].outcomes@.subrange(0, 0));
        assert(c.story_events@[52].outcomes@.subrange(0, 1).last() == c.story_events@[52].outcomes@[0]);
        assert(other_targets(c.story_events@[52].outcomes@.subrange(0, 1), "default"@) =~= seq![]);
        assert(c.story_events@[52].outcomes@.subrange(0, 1) =~= c.story_events@[52].outcomes@);
        assert(other_targets(c.story_events@[52].outcomes@, "default"@) =~= seq![]);
        assert(event_targets(c.story_events@[52].outcomes@, "default"@) =~= seq!["m11_select"@]);
    }
    assert(node_targets(c.story_events@, c.nodes@[72]) == seq!["m11_select"@]) by {
        assert(c.story_events@[53].key() == "s4_akash_invalid_event"@);
        lemma_first_key(c.story_events@, "s4_akash_invalid_event"@, 53);
        assert(outcome_pairs(c.story_events@[53].outcomes@).len() == 1);
        assert(outcome_pairs(c.story_events@[53].outcomes@)[0] == (c.story_events@[53].outcomes@[0].id@, c.story_events@[53].outcomes@[0].next_node_id@));
        assert(c.story_events@[53].outcomes@[0].key() == c.story_events@[53].outcomes@[0].id@);
        lemma_first_key(c.story_events@[53].outcomes@, "default"@, 0);
        assert(outcome_pairs(c.story_events@[53].outcomes@).len() == 1);
        assert(c.story_events@[53].outcomes@.subrange(0, 0).len() == 0);
        assert(other_targets(c.story_events@[53].outcomes@.subrange(0, 0), "default"@) == Seq::<Seq<char>>::empty());
        assert(c.story_events@[53].outcomes@.subrange(0, 1).drop_last() =~= c.story_events@[53].outcomes@.subrange(0, 0));
        assert(c.story_events@[53].outcomes@.subrange(0, 1).last() == c.story_events@[53].outcomes@[0]);
        assert(other_targets(c.story_events@[53].outcomes@.subrange(0, 1), "default"@) =~= seq![]);
        assert(c.story_events@[53].outcomes@.subrange(0, 1) =~= c.story_events@[53].outcomes@);
        assert(other_targets(c.story_events@[53].outcomes@, "default"@) =~= seq![]);
        assert(event_targets(c.story_events@[53].outcomes@, "default"@) =~= seq!["m11_select"@]);
    }
    assert(node_targets(c.story_events@, c.nodes@[73]) =~= seq!["m11a_success_node"@, "m11a_missed_node"@, "m11a_invalid_node"@]);
    assert(node_targets(c.story_events@, c.nodes@[74]) == seq!["m12"@]) by {
        assert(c.story_events@[54].key() == "m11a_success_event"@);
        lemma_first_key(c.story_events@, "m11a_success_event"@, 54);
        assert(outcome_pairs(c.story_events@[54].outcomes@).len() == 1);
        assert(outcome_pairs(c.story_events@[54].outcomes@)[0] == (c.story_events@[54].outcomes@[0].id@, c.story_events@[54].outcomes@[0].next_node_id@));
        assert(c.story_events@[54].outcomes@[0].key() == c.story_events@[54].outcomes@[0].id@);
        lemma_first_key(c.story_events@[54].outcomes@, "default"@, 0);
        assert(outcome_pairs(c.story_events@[54].outcomes@).len() == 1);
        assert(c.story_events@[54].outcomes@.subrange(0, 0).len() == 0);
        assert(other_targets(c.story_events@[54].outcomes@.subrange(0, 0), "default"@) == Seq::<Seq<char>>::empty());
        assert(c.story_events@[54].outcomes@.subrange(0, 1).drop_last() =~= c.story_events@[54].outcomes@.subrange(0, 0));
        assert(c.story_events@[54].outcomes@.subrange(0, 1).last() == c.story_events@[54].outcomes@[0]);
        assert(other_targets(c.story_events@[54].outcomes@.subrange(0, 1), "default"@) =~= seq![]);
        assert(c.story_events@[54].outcomes@.subrange(0, 1) =~= c.story_events@[54].outcomes@);
        assert(other_targets(c.story_events@[54].outcomes@, "default"@) =~= seq![]);
        assert(event_targets(c.story_events@[54].outcomes@, "default"@) =~= seq!["m12"@]);
    }
    assert(node_targets(c.story_events@, c.nodes@[75]) == seq!["m12"@]) by {
        assert(c.story_events@[55].key() == "m11a_missed_event"@);
        lemma_first_key(c.story_events@, "m11a_missed_event"@, 55);
        assert(outcome_pairs(c.story_events@[55].outcomes@).len() == 1);
        assert(outcome_pairs(c.story_events@[55].outcomes@)[0] == (c.story_events@[55].outcomes@[0].id@, c.story_events@[55].outcomes@[0].next_node_id@));
        assert(c.story_events@[55].outcomes@[0].key() == c.story_events@[55].outcomes@[0].id@);
        lemma_first_key(c.story_events@[55].outcomes@, "default"@, 0);
        assert(outcome_pairs(c.story_events@[55].outcomes@).len() == 1);
        assert(c.story_events@[55].outcomes@.subrange(0, 0).len() == 0);
        assert(other_targets(c.story_events@[55].outcomes@.subrange(0, 0), "default"@) == Seq::<Seq<char>>::empty());
        assert(c.story_events@[55].outcomes@.subrange(0, 1).drop_last() =~= c.story_events@[55].outcomes@.subrange(0, 0));
        assert(c.story_events@[55].outcomes@.subrange(0, 1).last() == c.story_events@[55].outcomes@[0]);
        assert(other_targets(c.story_events@[55].outcomes@.subrange(0, 1), "default"@) =~= seq![]);
        assert(c.story_events@[55].outcomes@.subrange(0, 1) =~= c.story_events@[55].outcomes@);
        assert(other_targets(c.story_events@[55].outcomes@, "default"@) =~= seq![]);
        assert(event_targets(c.story_events@[55].outcomes@, "default"@) =~= seq!["m12"@]);
    }
    assert(node_targets(c.story_events@, c.nodes@[76]) == seq!["m12"@]) by {
        assert(c.story_events@[56].key() == "m11a_invalid_event"@);
        lemma_first_key(c.story_events@, "m11a_invalid_event"@, 56);
        assert(outcome_pairs(c.story_events@[56].outcomes@).len() == 1);
        assert(outcome_pairs(c.story_events@[56].outcomes@)[0] == (c.story_events@[56].outcomes@[0].id@, c.story_events@[56].outcomes@[0].next_node_id@));
        assert(c.story_events@[56].outcomes@[0].key() == c.story_events@[56].outcomes@[0].id@);
        lemma_first_key(c.story_events@[56].outcomes@, "default"@, 0);
        assert(outcome_pairs(c.story_events@[56].outcomes@).len() == 1);
        assert(c.story_events@[56].outcomes@.subrange(0, 0).len() == 0);
        assert(other_targets(c.story_events@[56].outcomes@.subrange(0, 0), "default"@) == Seq::<Seq<char>>::empty());
        assert(c.story_events@[56].outcomes@.subrange(0, 1).drop_last() =~= c.story_events@[56].outcomes@.subrange(0, 0));
        assert(c.story_events@[56].outcomes@.subrange(0, 1).last() == c.story_events@[56].outcomes@[0]);
        assert(other_targets(c.story_events@[56].outcomes@.subrange(0, 1), "default"@) =~= seq![]);
        assert(c.story_events@[56].outcomes@.subrange(0, 1) =~= c.story_events@[56].outcomes@);
        assert(other_targets(c.story_events@[56].outcomes@, "default"@) =~= seq![]);
        assert(event_targets(c.story_events@[56].outcomes@, "default"@) =~= seq!["m12"@]);
    }
    assert(node_targets(c.story_events@, c.nodes@[77]) =~= seq!["m11b_success_node"@, "m11b_missed_node"@, "m11b_invalid_node"@]);
    assert(node_targets(c.story_events@, c.nodes@[78]) == seq!["m12"@]) by {
        assert(c.story_events@[57].key() == "m11b_success_event"@);
        lemma_first_key(c.story_events@, "m11b_success_event"@, 57);
        assert(outcome_pairs(c.story_events@[57].outcomes@).len() == 1);
        assert(outcome_pairs(c.story_events@[57].outcomes@)[0] == (c.story_events@[57].outcomes@[0].id@, c.story_events@[57].outcomes@[0].next_node_id@));
        assert(c.story_events@[57].outcomes@[0].key() == c.story_events@[57].outcomes@[0].id@);
        lemma_first_key(c.story_events@[57].outcomes@, "default"@, 0);
        assert(outcome_pairs(c.story_events@[57].outcomes@).len() == 1);
        assert(c.story_events@[57].outcomes@.subrange(0, 0).len() == 0);
        assert(other_targets(c.story_events@[57].outcomes@.subrange(0, 0), "default"@) == Seq::<Seq<char>>::empty());
        assert(c.story_events@[57].outcomes@.subrange(0, 1).drop_last() =~= c.story_events@[57].outcomes@.subrange(0, 0));
        assert(c.story_events@[57].outcomes@.subrange(0, 1).last() == c.story_events@[57].outcomes@[0]);
        assert(other_targets(c.story_events@[57].outcomes@.subrange(0, 1), "default"@) =~= seq![]);
        assert(c.story_events@[57].outcomes@.subrange(0, 1) =~= c.story_events@[57].outcomes@);
        assert(other_targets(c.story_events@[57].outcomes@, "default"@) =~= seq![]);
        assert(event_targets(c.story_events@[57].outcomes@, "default"@) =~= seq!["m12"@]);
    }
    assert(node_targets(c.story_events@, c.nodes@[79]) == seq!["m12"@]) by {
        assert(c.story_events@[58].key() == "m11b_missed_event"@);
        lemma_first_key(c.story_events@, "m11b_missed_event"@, 58);
        assert(outcome_pairs(c.story_events@[58].outcomes@).len() == 1);
        assert(outcome_pairs(c.story_events@[58].outcomes@)[0] == (c.story_events@[58].outcomes@[0].id@, c.story_events@[58].outcomes@[0].next_node_id@));
        assert(c.story_events@[58].outcomes@[0].key() == c.story_events@[58].outcomes@[0].id@);
        lemma_first_key(c.story_events@[58].outcomes@, "default"@, 0);
        assert(outcome_pairs(c.story_events@[58].outcomes@).len() == 1);
        assert(c.story_events@[58].outcomes@.subrange(0, 0).len() == 0);
        assert(other_targets(c.story_events@[58].outcomes@.subrange(0, 0), "default"@) == Seq::<Seq<char>>::empty());
        assert(c.story_events@[58].outcomes@.subrange(0, 1).drop_last() =~= c.story_events@[58].outcomes@.subrange(0, 0));
        assert(c.story_events@[58].outcomes@.subrange(0, 1).last() == c.story_events@[58].outcomes@[0]);
        assert(other_targets(c.story_events@[58].outcomes@.subrange(0, 1), "default"@) =~= seq![]);
        assert(c.story_events@[58].outcomes@.subrange(0, 1) =~= c.story_events@[58].outcomes@);
        assert(other_targets(c.story_events@[58].outcomes@, "default"@) =~= seq![]);
        assert(event_targets(c.story_events@[58].outcomes@, "default"@) =~= seq!["m12"@]);
    }
}

/// The successors of nodes 80 to 99 of the north neeladesh content.
#[verifier::rlimit(100)]
#[verifier::spinoff_prover]
proof fn lemma_north_neeladesh_targets_4(c: AuthoredContent)
    requires
        is_north_neeladesh_content(c),
        unique_keys(c.story_events@),
    ensures
        node_targets(c.story_events@, c.nodes@[80]) == seq!["m12"@],
        node_targets(c.story_events@, c.nodes@[81]) == seq!["m12_success_node"@, "m12_missed_node"@, "m12_invalid_node"@],
        node_targets(c.story_events@, c.nodes@[82]) == seq!["m13"@],
        node_targets(c.story_events@, c.nodes@[83]) == seq!["m13"@],
        node_targets(c.story_events@, c.nodes@[84]) == seq!["m13"@],
        node_targets(c.story_events@, c.nodes@[85]) == seq!["m13_success_node"@, "m13_missed_node"@, "m13_invalid_node"@],
        node_targets(c.story_events@, c.nodes@[86]) == seq!["m14_select"@],
        node_targets(c.story_events@, c.nodes@[87]) == seq!["m14_select"@],
        node_targets(c.story_events@, c.nodes@[88]) == seq!["m14_select"@],
        node_targets(c.story_events@, c.nodes@[89]) == seq!["m14r_success_node"@, "m14r_missed_node"@, "m14r_invalid_node"@],
        node_targets(c.story_events@, c.nodes@[90]) == seq!["ending_platform_six"@, "ending_southbound"@, "ending_bankruptcy"@, "ending_a_better_country"@, "ending_let_go"@, "ending_insubordination"@],
        node_targets(c.story_events@, c.nodes@[91]) == seq!["ending_fragmented"@],
        node_targets(c.story_events@, c.nodes@[92]) == seq!["ending_fragmented"@],
        node_targets(c.story_events@, c.nodes@[93]) == seq!["m14a_success_node"@, "m14a_missed_node"@, "m14a_invalid_node"@],
        node_targets(c.story_events@, c.nodes@[94]) == seq!["ending_temporary_command"@],
        node_targets(c.story_events@, c.nodes@[95]) == seq!["ending_fragmented"@],
        node_targets(c.story_events@, c.nodes@[96]) == seq!["ending_fragmented"@],
        node_targets(c.story_events@, c.nodes@[97]) == seq!["m14p_success_node"@, "m14p_missed_node"@, "m14p_invalid_node"@],
        node_targets(c.story_events@, c.nodes@[98]) == seq!["ending_emergency_state"@],
        node_targets(c.story_events@, c.nodes@[99]) == seq!["ending_fragmented"@],
{
    assert(node_targets(c.story_events@, c.nodes@[80]) == seq!["m12"@]) by {
        assert(c.story_events@[59].key() == "m11b_invalid_event"@);
        lemma_first_key(c.story_events@, "m11b_invalid_event"@, 59);
        assert(outcome_pairs(c.story_events@[59].outcomes@).len() == 1);
        assert(outcome_pairs(c.story_events@[59].outcomes@)[0] == (c.story_events@[59].outcomes@[0].id@, c.story_events@[59].outcomes@[0].next_node_id@));
        assert(c.story_events@[59].outcomes@[0].key() == c.story_events@[59].outcomes@[0].id@);
        lemma_first_key(c.story_events@[59].outcomes@, "default"@, 0);
        assert(outcome_pairs(c.story_events@[59].outcomes@).len() == 1);
        assert(c.story_events@[59].outcomes@.subrange(0, 0).len() == 0);
        assert(other_targets(c.story_events@[59].outcomes@.subrange(0, 0), "default"@) == Seq::<Seq<char>>::empty());
        assert(c.story_events@[59].outcomes@.subrange(0, 1).drop_last() =~= c.story_events@[59].outcomes@.subrange(0, 0));
        assert(c.story_events@[59].outcomes@.subrange(0, 1).last() == c.story_events@[59].outcomes@[0]);
        assert(other_targets(c.story_events@[59].outcomes@.subrange(0, 1), "default"@) =~= seq![]);
        assert(c.story_events@[59].outcomes@.subrange(0, 1) =~= c.story_events@[59].outcomes@);
        assert(other_targets(c.story_events@[59].outcomes@, "default"@) =~= seq![]);
        assert(event_targets(c.story_events@[59].outcomes@, "default"@) =~= seq!["m12"@]);
    }
    assert(node_targets(c.story_events@, c.nodes@[81]) =~= seq!["m12_success_node"@, "m12_missed_node"@, "m12_invalid_node"@]);
    assert(node_targets(c.story_events@, c.nodes@[82]) == seq!["m13"@]) by {
        assert(c.story_events@[60].key() == "m12_success_event"@);
        lemma_first_key(c.story_events@, "m12_success_event"@, 60);
        assert(outcome_pairs(c.story_events@[60].outcomes@).len() == 1);
        assert(outcome_pairs(c.story_events@[60].outcomes@)[0] == (c.story_events@[60].outcomes@[0].id@, c.story_events@[60].outcomes@[0].next_node_id@));
        assert(c.story_events@[60].outcomes@[0].key() == c.story_events@[60].outcomes@[0].id@);
        lemma_first_key(c.story_events@[60].outcomes@, "default"@, 0);
        assert(outcome_pairs(c.story_events@[60].outcomes@).len() == 1);
        assert(c.story_events@[60].outcomes@.subrange(0, 0).len() == 0);
        assert(other_targets(c.story_events@[60].outcomes@.subrange(0, 0), "default"@) == Seq::<Seq<char>>::empty());
        assert(c.story_events@[60].outcomes@.subrange(0, 1).drop_last() =~= c.story_events@[60].outcomes@.subrange(0, 0));
        assert(c.story_events@[60].outcomes@.subrange(0, 1).last() == c.story_events@[60].outcomes@[0]);
        assert(other_targets(c.story_events@[60].outcomes@.subrange(0, 1), "default"@) =~= seq![]);
        assert(c.story_events@[60].outcomes@.subrange(0, 1) =~= c.story_events@[60].outcomes@);
        assert(other_targets(c.story_events@[60].outcomes@, "default"@) =~= seq![]);
        assert(event_targets(c.story_events@[60].outcomes@, "default"@) =~= seq!["m13"@]);
    }
    assert(node_targets(c.story_events@, c.nodes@[83]) == seq!["m13"@]) by {
        assert(c.story_events@[61].key() == "m12_missed_event"@);
        lemma_first_key(c.story_events@, "m12_missed_event"@, 61);
        assert(outcome_pairs(c.story_events@[61].outcomes@).len() == 1);
        assert(outcome_pairs(c.story_events@[61].outcomes@)[0] == (c.story_events@[61].outcomes@[0].id@, c.story_events@[61].outcomes@[0].next_node_id@));
        assert(c.story_events@[61].outcomes@[0].key() == c.story_events@[61].outcomes@[0].id@);
        lemma_first_key(c.story_events@[61].outcomes@, "default"@, 0);
        assert(outcome_pairs(c.story_events@[61].outcomes@).len() == 1);
        assert(c.story_events@[61].outcomes@.subrange(0, 0).len() == 0);
        assert(other_targets(c.story_events@[61].outcomes@.subrange(0, 0), "default"@) == Seq::<Seq<char>>::empty());
        assert(c.story_events@[61].outcomes@.subrange(0, 1).drop_last() =~= c.story_events@[61].outcomes@.subrange(0, 0));
        assert(c.story_events@[61].outcomes@.subrange(0, 1).last() == c.story_events@[61].outcomes@[0]);
        assert(other_targets(c.story_events@[61].outcomes@.subrange(0, 1), "default"@) =~= seq![]);
        assert(c.story_events@[61].outcomes@.subrange(0, 1) =~= c.story_events@[61].outcomes@);
        assert(other_targets(c.story_events@[61].outcomes@, "default"@) =~= seq![]);
        assert(event_targets(c.story_events@[61].outcomes@, "default"@) =~= seq!["m13"@]);
    }
    assert(node_targets(c.story_events@, c.nodes@[84]) == seq!["m13"@]) by {
        assert(c.story_events@[62].key() == "m12_invalid_event"@);
        lemma_first_key(c.story_events@, "m12_invalid_event"@, 62);
        assert(outcome_pairs(c.story_events@[62].outcomes@).len() == 1);
        assert(outcome_pairs(c.story_events@[62].outcomes@)[0] == (c.story_events@[62].outcomes@[0].id@, c.story_events@[62].outcomes@[0].next_node_id@));
        assert(c.story_events@[62].outcomes@[0].key() == c.story_events@[62].outcomes@[0].id@);
        lemma_first_key(c.story_events@[62].outcomes@, "default"@, 0);
        assert(outcome_pairs(c.story_events@[62].outcomes@).len() == 1);
        assert(c.story_events@[62].outcomes@.subrange(0, 0).len() == 0);
        assert(other_targets(c.story_events@[62].outcomes@.subrange(0, 0), "default"@) == Seq::<Seq<char>>::empty());
        assert(c.story_events@[62].outcomes@.subrange(0, 1).drop_last() =~= c.story_events@[62].outcomes@.subrange(0, 0));
        assert(c.story_events@[62].outcomes@.subrange(0, 1).last() == c.story_events@[62].outcomes@[0]);
        assert(other_targets(c.story_events@[62].outcomes@.subrange(0, 1), "default"@) =~= seq![]);
        assert(c.story_events@[62].outcomes@.subrange(0, 1) =~= c.story_events@[62].outcomes@);
        assert(other_targets(c.story_events@[62].outcomes@, "default"@) =~= seq![]);
        assert(event_targets(c.story_events@[62].outcomes@, "default"@) =~= seq!["m13"@]);
    }
    assert(node_targets(c.story_events@, c.nodes@[85]) =~= seq!["m13_success_node"@, "m13_missed_node"@, "m13_invalid_node"@]);
    assert(node_targets(c.story_events@, c.nodes@[86]) == seq!["m14_select"@]) by {
        assert(c.story_events@[63].key() == "m13_success_event"@);
        lemma_first_key(c.story_events@, "m13_success_event"@, 63);
        assert(outcome_pairs(c.story_events@[63].outcomes@).len() == 1);
        assert(outcome_pairs(c.story_events@[63].outcomes@)[0] == (c.story_events@[63].outcomes@[0].id@, c.story_events@[63].outcomes@[0].next_node_id@));
        assert(c.story_events@[63].outcomes@[0].key() == c.story_events@[63].outcomes@[0].id@);
        lemma_first_key(c.story_events@[63].outcomes@, "default"@, 0);
        assert(outcome_pairs(c.story_events@[63].outcomes@).len() == 1);
        assert(c.story_events@[63].outcomes@.subrange(0, 0).len() == 0);
        assert(other_targets(c.story_events@[63].outcomes@.subrange(0, 0), "default"@) == Seq::<Seq<char>>::empty());
        assert(c.story_events@[63].outcomes@.subrange(0, 1).drop_last() =~= c.story_events@[63].outcomes@.subrange(0, 0));
        assert(c.story_events@[63].outcomes@.subrange(0, 1).last() == c.story_events@[63].outcomes@[0]);
        assert(other_targets(c.story_events@[63].outcomes@.subrange(0, 1), "default"@) =~= seq![]);
        assert(c.story_events@[63].outcomes@.subrange(0, 1) =~= c.story_events@[63].outcomes@);
        assert(other_targets(c.story_events@[63].outcomes@, "default"@) =~= seq![]);
        assert(event_targets(c.story_events@[63].outcomes@, "default"@) =~= seq!["m14_select"@]);
    }
    assert(node_targets(c.story_events@, c.nodes@[87]) == seq!["m14_select"@]) by {
        assert(c.story_events@[64].key() == "m13_missed_event"@);
        lemma_first_key(c.story_events@, "m13_missed_event"@, 64);
        assert(outcome_pairs(c.story_events@[64].outcomes@).len() == 1);
        assert(outcome_pairs(c.story_events@[64].outcomes@)[0] == (c.story_events@[64].outcomes@[0].id@, c.story_events@[64].outcomes@[0].next_node_id@));
        assert(c.story_events@[64].outcomes@[0].key() == c.story_events@[64].outcomes@[0].id@);
        lemma_first_key(c.story_events@[64].outcomes@, "default"@, 0);
        assert(outcome_pairs(c.story_events@[64].outcomes@).len() == 1);
        assert(c.story_events@[64].outcomes@.subrange(0, 0).len() == 0);
        assert(other_targets(c.story_events@[64].outcomes@.subrange(0, 0), "default"@) == Seq::<Seq<char>>::empty());
        assert(c.story_events@[64].outcomes@.subrange(0, 1).drop_last() =~= c.story_events@[64].outcomes@.subrange(0, 0));
        assert(c.story_events@[64].outcomes@.subrange(0, 1).last() == c.story_events@[64].outcomes@[0]);
        assert(other_targets(c.story_events@[64].outcomes@.subrange(0, 1), "default"@) =~= seq![]);
        assert(c.story_events@[64].outcomes@.subrange(0, 1) =~= c.story_events@[64].outcomes@);
        assert(other_targets(c.story_events@[64].outcomes@, "default"@) =~= seq![]);
        assert(event_targets(c.story_events@[64].outcomes@, "default"@) =~= seq!["m14_select"@]);
    }
    assert(node_targets(c.story_events@, c.nodes@[88]) == seq!["m14_select"@]) by {
        assert(c.story_events@[65].key() == "m13_invalid_event"@);
        lemma_first_key(c.story_events@, "m13_invalid_event"@, 65);
        assert(outcome_pairs(c.story_events@[65].outcomes@).len() == 1);
        assert(outcome_pairs(c.story_events@[65].outcomes@)[0] == (c.story_events@[65].outcomes@[0].id@, c.story_events@[65].outcomes@[0].next_node_id@));
        assert(c.story_events@[65].outcomes@[0].key() == c.story_events@[65].outcomes@[0].id@);
        lemma_first_key(c.story_events@[65].outcomes@, "default"@, 0);
        assert(outcome_pairs(c.story_events@[65].outcomes@).len() == 1);
        assert(c.story_events@[65].outcomes@.subrange(0, 0).len() == 0);
        assert(other_targets(c.story_events@[65].outcomes@.subrange(0, 0), "default"@) == Seq::<Seq<char>>::empty());
        assert(c.story_events@[65].outcomes@.subrange(0, 1).drop_last() =~= c.story_events@[65].outcomes@.subrange(0, 0));
        assert(c.story_events@[65].outcomes@.subrange(0, 1).last() == c.story_events@[65].outcomes@[0]);
        assert(other_targets(c.story_events@[65].outcomes@.subrange(0, 1), "default"@) =~= seq![]);
        assert(c.story_events@[65].outcomes@.subrange(0, 1) =~= c.story_events@[65].outcomes@);
        assert(other_targets(c.story_events@[65].outcomes@, "default"@) =~= seq![]);
        assert(event_targets(c.story_events@[65].outcomes@, "default"@) =~= seq!["m14_select"@]);
    }
    assert(node_targets(c.story_events@, c.nodes@[89]) =~= seq!["m14r_success_node"@, "m14r_missed_node"@, "m14r_invalid_node"@]);
    assert(node_targets(c.story_events@, c.nodes@[90]) == seq!["ending_platform_six"@, "ending_southbound"@, "ending_bankruptcy"@, "ending_a_better_country"@, "ending_let_go"@, "ending_insubordination"@]) by {
        assert(c.story_events@[66].key() == "m14r_success_event"@);
        lemma_first_key(c.story_events@, "m14r_success_event"@, 66);
        assert(outcome_pairs(c.story_events@[66].outcomes@).len() == 6);
        assert(outcome_pairs(c.story_events@[66].outcomes@)[0] == (c.story_events@[66].outcomes@[0].id@, c.story_events@[66].outcomes@[0].next_node_id@));
        assert(c.story_events@[66].outcomes@[0].key() == c.story_events@[66].outcomes@[0].id@);
        assert(outcome_pairs(c.story_events@[66].outcomes@)[1] == (c.story_events@[66].outcomes@[1].id@, c.story_events@[66].outcomes@[1].next_node_id@));
        assert(c.story_events@[66].outcomes@[1].key() == c.story_events@[66].outcomes@[1].id@);
        assert(outcome_pairs(c.story_events@[66].outcomes@)[2] == (c.story_events@[66].outcomes@[2].id@, c.story_events@[66].outcomes@[2].next_node_id@));
        assert(c.story_events@[66].outcomes@[2].key() == c.story_events@[66].outcomes@[2].id@);
        assert(outcome_pairs(c.story_events@[66].outcomes@)[3] == (c.story_events@[66].outcomes@[3].id@, c.story_events@[66].outcomes@[3].next_node_id@));
        assert(c.story_events@[66].outcomes@[3].key() == c.story_events@[66].outcomes@[3].id@);
        assert(outcome_pairs(c.story_events@[66].outcomes@)[4] == (c.story_events@[66].outcomes@[4].id@, c.story_events@[66].outcomes@[4].next_node_id@));
        assert(c.story_events@[66].outcomes@[4].key() == c.story_events@[66].outcomes@[4].id@);
        assert(outcome_pairs(c.story_events@[66].outcomes@)[5] == (c.story_events@[66].outcomes@[5].id@, c.story_events@[66].outcomes@[5].next_node_id@));
        assert(c.story_events@[66].outcomes@[5].key() == c.story_events@[66].outcomes@[5].id@);
        reveal_strlit("default");
        reveal_strlit("southbound_household");
        reveal_strlit("bankruptcy");
        reveal_strlit("a_better_country");
        reveal_strlit("let_go");
        reveal_strlit("insubordination");
        lemma_first_key(c.story_events@[66].outcomes@, "default"@, 0);
        assert(outcome_pairs(c.story_events@[66].outcomes@).len() == 6);
        assert(c.story_events@[66].outcomes@.subrange(0, 0).len() == 0);
        assert(other_targets(c.story_events@[66].outcomes@.subrange(0, 0), "default"@) == Seq::<Seq<char>>::empty());
        assert(c.story_events@[66].outcomes@.subrange(0, 1).drop_last() =~= c.story_events@[66].outcomes@.subrange(0, 0));
        assert(c.story_events@[66].outcomes@.subrange(0, 1).last() == c.story_events@[66].outcomes@[0]);
        assert(other_targets(c.story_events@[66].outcomes@.subrange(0, 1), "default"@) =~= seq![]);
        assert(c.story_events@[66].outcomes@.subrange(0, 2).drop_last() =~= c.story_events@[66].outcomes@.subrange(0, 1));
        assert(c.story_events@[66].outcomes@.subrange(0, 2).last() == c.story_events@[66].outcomes@[1]);
        assert(other_targets(c.story_events@[66].outcomes@.subrange(0, 2), "default"@) =~= seq!["ending_southbound"@]);
        assert(c.story_events@[66].outcomes@.subrange(0, 3).drop_last() =~= c.story_events@[66].outcomes@.subrange(0, 2));
        assert(c.story_events@[66].outcomes@.subrange(0, 3).last() == c.story_events@[66].outcomes@[2]);
        assert(other_targets(c.story_events@[66].outcomes@.subrange(0, 3), "default"@) =~= seq!["ending_southbound"@, "ending_bankruptcy"@]);
        assert(c.story_events@[66].outcomes@.subrange(0, 4).drop_last() =~= c.story_events@[66].outcomes@.subrange(0, 3));
        assert(c.story_events@[66].outcomes@.subrange(0, 4).last() == c.story_events@[66].outcomes@[3]);
        assert(other_targets(c.story_events@[66].outcomes@.subrange(0, 4), "default"@) =~= seq!["ending_southbound"@, "ending_bankruptcy"@, "ending_a_better_country"@]);
        assert(c.story_events@[66].outcomes@.subrange(0, 5).drop_last() =~= c.story_events@[66].outcomes@.subrange(0, 4));
        assert(c.story_events@[66].outcomes@.subrange(0, 5).last() == c.story_events@[66].outcomes@[4]);
        assert(other_targets(c.story_events@[66].outcomes@.subrange(0, 5), "default"@) =~= seq!["ending_southbound"@, "ending_bankruptcy"@, "ending_a_better_country"@, "ending_let_go"@]);
        assert(c.story_events@[66].outcomes@.subrange(0, 6).drop_last() =~= c.story_events@[66].outcomes@.subrange(0, 5));
        assert(c.story_events@[66].outcomes@.subrange(0, 6).last() == c.story_events@[66].outcomes@[5]);
        assert(other_targets(c.story_events@[66].outcomes@.subrange(0, 6), "default"@) =~= seq!["ending_southbound"@, "ending_bankruptcy"@, "ending_a_better_country"@, "ending_let_go"@, "ending_insubordination"@]);
        assert(c.story_events@[66].outcomes@.subrange(0, 6) =~= c.story_events@[66].outcomes@);
        assert(other_targets(c.story_events@[66].outcomes@, "default"@) =~= seq!["ending_southbound"@, "ending_bankruptcy"@, "ending_a_better_country"@, "ending_let_go"@, "ending_insubordination"@]);
        assert(event_targets(c.story_events@[66].outcomes@, "default"@) =~= seq!["ending_platform_six"@, "ending_southbound"@, "ending_bankruptcy"@, "ending_a_better_country"@, "ending_let_go"@, "ending_insubordination"@]);
    }
    assert(node_targets(c.story_events@, c.nodes@[91]) == seq!["ending_fragmented"@]) by {
        assert(c.story_events@[67].key() == "m14r_missed_event"@);
        lemma_first_key(c.story_events@, "m14r_missed_event"@, 67);
        assert(outcome_pairs(c.story_events@[67].outcomes@).len() == 1);
        assert(outcome_pairs(c.story_events@[67].outcomes@)[0] == (c.story_events@[67].outcomes@[0].id@, c.story_events@[67].outcomes@[0].next_node_id@));
        assert(c.story_events@[67].outcomes@[0].key() == c.story_events@[67].outcomes@[0].id@);
        lemma_first_key(c.story_events@[67].outcomes@, "default"@, 0);
        assert(outcome_pairs(c.story_events@[67].outcomes@).len() == 1);
        assert(c.story_events@[67].outcomes@.subrange(0, 0).len() == 0);
        assert(other_targets(c.story_events@[67].outcomes@.subrange(0, 0), "default"@) == Seq::<Seq<char>>::empty());
        assert(c.story_events@[67].outcomes@.subrange(0, 1).drop_last() =~= c.story_events@[67].outcomes@.subrange(0, 0));
        assert(c.story_events@[67].outcomes@.subrange(0, 1).last() == c.story_events@[67].outcomes@[0]);
        assert(other_targets(c.story_events@[67].outcomes@.subrange(0, 1), "default"@) =~= seq![]);
        assert(c.story_events@[67].outcomes@.subrange(0, 1) =~= c.story_events@[67].outcomes@);
        assert(other_targets(c.story_events@[67].outcomes@, "default"@) =~= seq![]);
        assert(event_targets(c.story_events@[67].outcomes@, "default"@) =~= seq!["ending_fragmented"@]);
    }
    assert(node_targets(c.story_events@, c.nodes@[92]) == seq!["ending_fragmented"@]) by {
        assert(c.story_events@[68].key() == "m14r_invalid_event"@);
        lemma_first_key(c.story_events@, "m14r_invalid_event"@, 68);
        assert(outcome_pairs(c.story_events@[68].outcomes@).len() == 1);
        assert(outcome_pairs(c.story_events@[68].outcomes@)[0] == (c.story_events@[68].outcomes@[0].id@, c.story_events@[68].outcomes@[0].next_node_id@));
        assert(c.story_events@[68].outcomes@[0].key() == c.story_events@[68].outcomes@[0].id@);
        lemma_first_key(c.story_events@[68].outcomes@, "default"@, 0);
        assert(outcome_pairs(c.story_events@[68].outcomes@).len() == 1);
        assert(c.story_events@[68].outcomes@.subrange(0, 0).len() == 0);
        assert(other_targets(c.story_events@[68].outcomes@.subrange(0, 0), "default"@) == Seq::<Seq<char>>::empty());
        assert(c.story_events@[68].outcomes@.subrange(0, 1).drop_last() =~= c.story_events@[68].outcomes@.subrange(0, 0));
        assert(c.story_events@[68].outcomes@.subrange(0, 1).last() == c.story_events@[68].outcomes@[0]);
        assert(other_targets(c.story_events@[68].outcomes@.subrange(0, 1), "default"@) =~= seq![]);
        assert(c.story_events@[68].outcomes@.subrange(0, 1) =~= c.story_events@[68].outcomes@);
        assert(other_targets(c.story_events@[68].outcomes@, "default"@) =~= seq![]);
        assert(event_targets(c.story_events@[68].outcomes@, "default"@) =~= seq!["ending_fragmented"@]);
    }
    assert(node_targets(c.story_events@, c.nodes@[93]) =~= seq!["m14a_success_node"@, "m14a_missed_node"@, "m14a_invalid_node"@]);
    assert(node_targets(c.story_events@, c.nodes@[94]) == seq!["ending_temporary_command"@]) by {
        assert(c.story_events@[69].key() == "m14a_success_event"@);
        lemma_first_key(c.story_events@, "m14a_success_event"@, 69);
        assert(outcome_pairs(c.story_events@[69].outcomes@).len() == 1);
        assert(outcome_pairs(c.story_events@[69].outcomes@)[0] == (c.story_events@[69].outcomes@[0].id@, c.story_events@[69].outcomes@[0].next_node_id@));
        assert(c.story_events@[69].outcomes@[0].key() == c.story_events@[69].outcomes@[0].id@);
        lemma_first_key(c.story_events@[69].outcomes@, "default"@, 0);
        assert(outcome_pairs(c.story_events@[69].outcomes@).len() == 1);
        assert(c.story_events@[69].outcomes@.subrange(0, 0).len() == 0);
        assert(other_targets(c.story_events@[69].outcomes@.subrange(0, 0), "default"@) == Seq::<Seq<char>>::empty());
        assert(c.story_events@[69].outcomes@.subrange(0, 1).drop_last() =~= c.story_events@[69].outcomes@.subrange(0, 0));
        assert(c.story_events@[69].outcomes@.subrange(0, 1).last() == c.story_events@[69].outcomes@[0]);
        assert(other_targets(c.story_events@[69].outcomes@.subrange(0, 1), "default"@) =~= seq![]);
        assert(c.story_events@[69].outcomes@.subrange(0, 1) =~= c.story_events@[69].outcomes@);
        assert(other_targets(c.story_events@[69].outcomes@, "default"@) =~= seq![]);
        assert(event_targets(c.story_events@[69].outcomes@, "default"@) =~= seq!["ending_temporary_command"@]);
    }
    assert(node_targets(c.story_events@, c.nodes@[95]) == seq!["ending_fragmented"@]) by {
        assert(c.story_events@[70].key() == "m14a_missed_event"@);
        lemma_first_key(c.story_events@, "m14a_missed_event"@, 70);
        assert(outcome_pairs(c.story_events@[70].outcomes@).len() == 1);
        assert(outcome_pairs(c.story_events@[70].outcomes@)[0] == (c.story_events@[70].outcomes@[0].id@, c.story_events@[70].outcomes@[0].next_node_id@));
        assert(c.story_events@[70].outcomes@[0].key() == c.story_events@[70].outcomes@[0].id@);
        lemma_first_key(c.story_events@[70].outcomes@, "default"@, 0);
        assert(outcome_pairs(c.story_events@[70].outcomes@).len() == 1);
        assert(c.story_events@[70].outcomes@.subrange(0, 0).len() == 0);
        assert(other_targets(c.story_events@[70].outcomes@.subrange(0, 0), "default"@) == Seq::<Seq<char>>::empty());
        assert(c.story_events@[70].outcomes@.subrange(0, 1).drop_last() =~= c.story_events@[70].outcomes@.subrange(0, 0));
        assert(c.story_events@[70].outcomes@.subrange(0, 1).last() == c.story_events@[70].outcomes@[0]);
        assert(other_targets(c.story_events@[70].outcomes@.subrange(0, 1), "default"@) =~= seq![]);
        assert(c.story_events@[70].outcomes@.subrange(0, 1) =~= c.story_events@[70].outcomes@);
        assert(other_targets(c.story_events@[70].outcomes@, "default"@) =~= seq![]);
        assert(event_targets(c.story_events@[70].outcomes@, "default"@) =~= seq!["ending_fragmented"@]);
    }
    assert(node_targets(c.story_events@, c.nodes@[96]) == seq!["ending_fragmented"@]) by {
        assert(c.story_events@[71].key() == "m14a_invalid_event"@);
        lemma_first_key(c.story_events@, "m14a_invalid_event"@, 71);
        assert(outcome_pairs(c.story_events@[71].outcomes@).len() == 1);
        assert(outcome_pairs(c.story_events@[71].outcomes@)[0] == (c.story_events@[71].outcomes@[0].id@, c.story_events@[71].outcomes@[0].next_node_id@));
        assert(c.story_events@[71].outcomes@[0].key() == c.story_events@[71].outcomes@[0].id@);
        lemma_first_key(c.story_events@[71].outcomes@, "default"@, 0);
        assert(outcome_pairs(c.story_events@[71].outcomes@).len() == 1);
        assert(c.story_events@[71].outcomes@.subrange(0, 0).len() == 0);
        assert(other_targets(c.story_events@[71].outcomes@.subrange(0, 0), "default"@) == Seq::<Seq<char>>::empty());
        assert(c.story_events@[71].outcomes@.subrange(0, 1).drop_last() =~= c.story_events@[71].outcomes@.subrange(0, 0));
        assert(c.story_events@[71].outcomes@.subrange(0, 1).last() == c.story_events@[71].outcomes@[0]);
        assert(other_targets(c.story_events@[71].outcomes@.subrange(0, 1), "default"@) =~= seq![]);
        assert(c.story_events@[71].outcomes@.subrange(0, 1) =~= c.story_events@[71].outcomes@);
        assert(other_targets(c.story_events@[71].outcomes@, "default"@) =~= seq![]);
        assert(event_targets(c.story_events@[71].outcomes@, "default"@) =~= seq!["ending_fragmented"@]);
    }
    assert(node_targets(c.story_events@, c.nodes@[97]) =~= seq!["m14p_success_node"@, "m14p_missed_node"@, "m14p_invalid_node"@]);
    assert(node_targets(c.story_events@, c.nodes@[98]) == seq!["ending_emergency_state"@]) by {
        assert(c.story_events@[72].key() == "m14p_success_event"@);
        lemma_first_key(c.story_events@, "m14p_success_event"@, 72);
        assert(outcome_pairs(c.story_events@[72].outcomes@).len() == 1);
        assert(outcome_pairs(c.story_events@[72].outcomes@)[0] == (c.story_events@[72].outcomes@[0].id@, c.story_events@[72].outcomes@[0].next_node_id@));
        assert(c.story_events@[72].outcomes@[0].key() == c.story_events@[72].outcomes@[0].id@);
        lemma_first_key(c.story_events@[72].outcomes@, "default"@, 0);
        assert(outcome_pairs(c.story_events@[72].outcomes@).len() == 1);
        assert(c.story_events@[72].outcomes@.subrange(0, 0).len() == 0);
        assert(other_targets(c.story_events@[72].outcomes@.subrange(0, 0), "default"@) == Seq::<Seq<char>>::empty());
        assert(c.story_events@[72].outcomes@.subrange(0, 1).drop_last() =~= c.story_events@[72].outcomes@.subrange(0, 0));
        assert(c.story_events@[72].outcomes@.subrange(0, 1).last() == c.story_events@[72].outcomes@[0]);
        assert(other_targets(c.story_events@[72].outcomes@.subrange(0, 1), "default"@) =~= seq![]);
        assert(c.story_events@[72].outcomes@.subrange(0, 1) =~= c.story_events@[72].outcomes@);
        assert(other_targets(c.story_events@[72].outcomes@, "default"@) =~= seq![]);
        assert(event_targets(c.story_events@[72].outcomes@, "default"@) =~= seq!["ending_emergency_state"@]);
    }
    assert(node_targets(c.story_events@, c.nodes@[99]) == seq!["ending_fragmented"@]) by {
        assert(c.story_events@[73].key() == "m14p_missed_event"@);
        lemma_first_key(c.story_events@, "m14p_missed_event"@, 73);
        assert(outcome_pairs(c.story_events@[73].outcomes@).len() == 1);
        assert(outcome_pairs(c.story_events@[73].outcomes@)[0] == (c.story_events@[73].outcomes@[0].id@, c.story_events@[73].outcomes@[0].next_node_id@));
        assert(c.story_events@[73].outcomes@[0].key() == c.story_events@[73].outcomes@[0].id@);
        lemma_first_key(c.story_events@[73].outcomes@, "default"@, 0);
        assert(outcome_pairs(c.story_events@[73].outcomes@).len() == 1);
        assert(c.story_events@[73].outcomes@.subrange(0, 0).len() == 0);
        assert(other_targets(c.story_events@[73].outcomes@.subrange(0, 0), "default"@) == Seq::<Seq<char>>::empty());
        assert(c.story_events@[73].outcomes@.subrange(0, 1).drop_last() =~= c.story_events@[73].outcomes@.subrange(0, 0));
        assert(c.story_events@[73].outcomes@.subrange(0, 1).last() == c.story_events@[73].outcomes@[0]);
        assert(other_targets(c.story_events@[73].outcomes@.subrange(0, 1), "default"@) =~= seq![]);
        assert(c.story_events@[73].outcomes@.subrange(0, 1) =~= c.story_events@[73].outcomes@);
        assert(other_targets(c.story_events@[73].outcomes@, "default"@) =~= seq![]);
        assert(event_targets(c.story_events@[73].outcomes@, "default"@) =~= seq!["ending_fragmented"@]);
    }
}

/// The successors of nodes 100 to 117 of the north neeladesh content.
#[verifier::rlimit(100)]
#[verifier::spinoff_prover]
proof fn lemma_north_neeladesh_targets_5(c: AuthoredContent)
    requires
        is_north_neeladesh_content(c),
        unique_keys(c.story_events@),
    ensures
        node_targets(c.story_events@, c.nodes@[100]) == seq!["ending_fragmented"@],
        node_targets(c.story_events@, c.nodes@[101]) == seq!["m14c_success_node"@, "m14c_missed_node"@, "m14c_invalid_node"@],
        node_targets(c.story_events@, c.nodes@[102]) == seq!["ending_fragmented"@],
        node_targets(c.story_events@, c.nodes@[103]) == seq!["ending_fragmented"@],
        node_targets(c.story_events@, c.nodes@[104]) == seq!["ending_fragmented"@],
        node_targets(c.story_events@, c.nodes@[105]) == seq!["m11a"@, "m11b"@],
        node_targets(c.story_events@, c.nodes@[106]) == seq!["m14r"@, "m14_select_2"@],
        node_targets(c.story_events@, c.nodes@[107]) == seq!["m14a"@, "m14_select_3"@],
        node_targets(c.story_events@, c.nodes@[108]) == seq!["m14p"@, "m14c"@],
        node_targets(c.story_events@, c.nodes@[109]) == Seq::<Seq<char>>::empty(),
        node_targets(c.story_events@, c.nodes@[110]) == Seq::<Seq<char>>::empty(),
        node_targets(c.story_events@, c.nodes@[111]) == Seq::<Seq<char>>::empty(),
        node_targets(c.story_events@, c.nodes@[112]) == Seq::<Seq<char>>::empty(),
        node_targets(c.story_events@, c.nodes@[113]) == Seq::<Seq<char>>::empty(),
        node_targets(c.story_events@, c.nodes@[114]) == Seq::<Seq<char>>::empty(),
        node_targets(c.story_events@, c.nodes@[115]) == Seq::<Seq<char>>::empty(),
        node_targets(c.story_events@, c.nodes@[116]) == Seq::<Seq<char>>::empty(),
        node_targets(c.story_events@, c.nodes@[117]) == Seq::<Seq<char>>::empty(),
{
    assert(node_targets(c.story_events@, c.nodes@[100]) == seq!["ending_fragmented"@]) by {
        assert(c.story_events@[74].key() == "m14p_invalid_event"@);
        lemma_first_key(c.story_events@, "m14p_invalid_event"@, 74);
        assert(outcome_pairs(c.story_events@[74].outcomes@).len() == 1);
        assert(outcome_pairs(c.story_events@[74].outcomes@)[0] == (c.story_events@[74].outcomes@[0].id@, c.story_events@[74].outcomes@[0].next_node_id@));
        assert(c.story_events@[74].outcomes@[0].key() == c.story_events@[74].outcomes@[0].id@);
        lemma_first_key(c.story_events@[74].outcomes@, "default"@, 0);
        assert(outcome_pairs(c.story_events@[74].outcomes@).len() == 1);
        assert(c.story_events@[74].outcomes@.subrange(0, 0).len() == 0);
        assert(other_targets(c.story_events@[74].outcomes@.subrange(0, 0), "default"@) == Seq::<Seq<char>>::empty());
        assert(c.story_events@[74].outcomes@.subrange(0, 1).drop_last() =~= c.story_events@[74].outcomes@.subrange(0, 0));
        assert(c.story_events@[74].outcomes@.subrange(0, 1).last() == c.story_events@[74].outcomes@[0]);
        assert(other_targets(c.story_events@[74].outcomes@.subrange(0, 1), "default"@) =~= seq![]);
        assert(c.story_events@[74].outcomes@.subrange(0, 1) =~= c.story_events@[74].outcomes@);
        assert(other_targets(c.story_events@[74].outcomes@, "default"@) =~= seq![]);
        assert(event_targets(c.story_events@[74].outcomes@, "default"@) =~= seq!["ending_fragmented"@]);
    }
    assert(node_targets(c.story_events@, c.nodes@[101]) =~= seq!["m14c_success_node"@, "m14c_missed_node"@, "m14c_invalid_node"@]);
    assert(node_targets(c.story_events@, c.nodes@[102]) == seq!["ending_fragmented"@]) by {
        assert(c.story_events@[75].key() == "m14c_success_event"@);
        lemma_first_key(c.story_events@, "m14c_success_event"@, 75);
        assert(outcome_pairs(c.story_events@[75].outcomes@).len() == 1);
        assert(outcome_pairs(c.story_events@[75].outcomes@)[0] == (c.story_events@[75].outcomes@[0].id@, c.story_events@[75].outcomes@[0].next_node_id@));
        assert(c.story_events@[75].outcomes@[0].key() == c.story_events@[75].outcomes@[0].id@);
        lemma_first_key(c.story_events@[75].outcomes@, "default"@, 0);
        assert(outcome_pairs(c.story_events@[75].outcomes@).len() == 1);
        assert(c.story_events@[75].outcomes@.subrange(0, 0).len() == 0);
        assert(other_targets(c.story_events@[75].outcomes@.subrange(0, 0), "default"@) == Seq::<Seq<char>>::empty());
        assert(c.story_events@[75].outcomes@.subrange(0, 1).drop_last() =~= c.story_events@[75].outcomes@.subrange(0, 0));
        assert(c.story_events@[75].outcomes@.subrange(0, 1).last() == c.story_events@[75].outcomes@[0]);
        assert(other_targets(c.story_events@[75].outcomes@.subrange(0, 1), "default"@) =~= seq![]);
        assert(c.story_events@[75].outcomes@.subrange(0, 1) =~= c.story_events@[75].outcomes@);
        assert(other_targets(c.story_events@[75].outcomes@, "default"@) =~= seq![]);
        assert(event_targets(c.story_events@[75].outcomes@, "default"@) =~= seq!["ending_fragmented"@]);
    }
    assert(node_targets(c.story_events@, c.nodes@[103]) == seq!["ending_fragmented"@]) by {
        assert(c.story_events@[76].key() == "m14c_missed_event"@);
        lemma_first_key(c.story_events@, "m14c_missed_event"@, 76);
        assert(outcome_pairs(c.story_events@[76].outcomes@).len() == 1);
        assert(outcome_pairs(c.story_events@[76].outcomes@)[0] == (c.story_events@[76].outcomes@[0].id@, c.story_events@[76].outcomes@[0].next_node_id@));
        assert(c.story_events@[76].outcomes@[0].key() == c.story_events@[76].outcomes@[0].id@);
        lemma_first_key(c.story_events@[76].outcomes@, "default"@, 0);
        assert(outcome_pairs(c.story_events@[76].outcomes@).len() == 1);
        assert(c.story_events@[76].outcomes@.subrange(0, 0).len() == 0);
        assert(other_targets(c.story_events@[76].outcomes@.subrange(0, 0), "default"@) == Seq::<Seq<char>>::empty());
        assert(c.story_events@[76].outcomes@.subrange(0, 1).drop_last() =~= c.story_events@[76].outcomes@.subrange(0, 0));
        assert(c.story_events@[76].outcomes@.subrange(0, 1).last() == c.story_events@[76].outcomes@[0]);
        assert(other_targets(c.story_events@[76].outcomes@.subrange(0, 1), "default"@) =~= seq![]);
        assert(c.story_events@[76].outcomes@.subrange(0, 1) =~= c.story_events@[76].outcomes@);
        assert(other_targets(c.story_events@[76].outcomes@, "default"@) =~= seq![]);
        assert(event_targets(c.story_events@[76].outcomes@, "default"@) =~= seq!["ending_fragmented"@]);
    }
    assert(node_targets(c.story_events@, c.nodes@[104]) == seq!["ending_fragmented"@]) by {
        assert(c.story_events@[77].key() == "m14c_invalid_event"@);
        lemma_first_key(c.story_events@, "m14c_invalid_event"@, 77);
        assert(outcome_pairs(c.story_events@[77].outcomes@).len() == 1);
        assert(outcome_pairs(c.story_events@[77].outcomes@)[0] == (c.story_events@[77].outcomes@[0].id@, c.story_events@[77].outcomes@[0].next_node_id@));
        assert(c.story_events@[77].outcomes@[0].key() == c.story_events@[77].outcomes@[0].id@);
        lemma_first_key(c.story_events@[77].outcomes@, "default"@, 0);
        assert(outcome_pairs(c.story_events@[77].outcomes@).len() == 1);
        assert(c.story_events@[77].outcomes@.subrange(0, 0).len() == 0);
        assert(other_targets(c.story_events@[77].outcomes@.subrange(0, 0), "default"@) == Seq::<Seq<char>>::empty());
        assert(c.story_events@[77].outcomes@.subrange(0, 1).drop_last() =~= c.story_events@[77].outcomes@.subrange(0, 0));
        assert(c.story_events@[77].outcomes@.subrange(0, 1).last() == c.story_events@[77].outcomes@[0]);
        assert(other_targets(c.story_events@[77].outcomes@.subrange(0, 1), "default"@) =~= seq![]);
        assert(c.story_events@[77].outcomes@.subrange(0, 1) =~= c.story_events@[77].outcomes@);
        assert(other_targets(c.story_events@[77].outcomes@, "default"@) =~= seq![]);
        assert(event_targets(c.story_events@[77].outcomes@, "default"@) =~= seq!["ending_fragmented"@]);
    }
    assert(node_targets(c.story_events@, c.nodes@[105]) =~= seq!["m11a"@, "m11b"@]);
    assert(node_targets(c.story_events@, c.nodes@[106]) =~= seq!["m14r"@, "m14_select_2"@]);
    assert(node_targets(c.story_events@, c.nodes@[107]) =~= seq!["m14a"@, "m14_select_3"@]);
    assert(node_targets(c.story_events@, c.nodes@[108]) =~= seq!["m14p"@, "m14c"@]);
    assert(node_targets(c.story_events@, c.nodes@[109]) =~= seq![]);
    assert(node_targets(c.story_events@, c.nodes@[110]) =~= seq![]);
    assert(node_targets(c.story_events@, c.nodes@[111]) =~= seq![]);
    assert(node_targets(c.story_events@, c.nodes@[112]) =~= seq![]);
    assert(node_targets(c.story_events@, c.nodes@[113]) =~= seq![]);
    assert(node_targets(c.story_events@, c.nodes@[114]) =~= seq![]);
    assert(node_targets(c.story_events@, c.nodes@[115]) =~= seq![]);
    assert(node_targets(c.story_events@, c.nodes@[116]) =~= seq![]);
    assert(node_targets(c.story_events@, c.nodes@[117]) =~= seq![]);
}

/// Every kind of record of the north neeladesh content has non-blank, unique keys.
#[verifier::rlimit(100)]
#[verifier::spinoff_prover]
proof fn lemma_north_neeladesh_keys(c: AuthoredContent)
    requires
        is_north_neeladesh_content(c),
    ensures
        keys_ok(c),
{
    reveal_strlit("A Better Country");
    reveal_strlit("Akash Dey");
    reveal_strlit("Anika Roy");
    reveal_strlit("Asha Sen");
    reveal_strlit("Bankruptcy");
    reveal_strlit("Bikram Sen");
    reveal_strlit("Captain Varo");
    reveal_strlit("Colonel Arman Vey");
    reveal_strlit("Dev Korr");
    reveal_strlit("Emergency State");
    reveal_strlit("Fragmented Control");
    reveal_strlit("Inspector Rakesh Nahal");
    reveal_strlit("Insubordination");
    reveal_strlit("Javed Rahman");
    reveal_strlit("Laleh Mir");
    reveal_strlit("Let Go");
    reveal_strlit("Meera Tal");
    reveal_strlit("Mira Halek");
    reveal_strlit("Nahid from bKash");
    reveal_strlit("Nayan Boro");
    reveal_strlit("Paro Sen");
    reveal_strlit("Platform Six");
    reveal_strlit("Rafi Alam");
    reveal_strlit("Southbound Household");
    reveal_strlit("Temporary Command");
    reveal_strlit("Tomas Vale");
    reveal_strlit("a_better_country");
    reveal_strlit("akash_dey");
    reveal_strlit("anika_roy");
    reveal_strlit("arman_vey");
    reveal_strlit("asha_sen");
    reveal_strlit("bankruptcy");
    reveal_strlit("bikram_sen");
    reveal_strlit("cantonment");
    reveal_strlit("captain_varo");
    reveal_strlit("central_station");
    reveal_strlit("default");
    reveal_strlit("dev_korr");
    reveal_strlit("embassy");
    reveal_strlit("ending_a_better_country");
    reveal_strlit("ending_bankruptcy");
    reveal_strlit("ending_emergency_state");
    reveal_strlit("ending_fragmented");
    reveal_strlit("ending_insubordination");
    reveal_strlit("ending_let_go");
    reveal_strlit("ending_platform_six");
    reveal_strlit("ending_southbound");
    reveal_strlit("ending_temporary_command");
    reveal_strlit("home_affairs");
    reveal_strlit("hospital");
    reveal_strlit("hotel");
    reveal_strlit("insubordination");
    reveal_strlit("javed_rahman");
    reveal_strlit("laleh_mir");
    reveal_strlit("let_go");
    reveal_strlit("m10_audit");
    reveal_strlit("m10_audit_invalid_event");
    reveal_strlit("m10_audit_invalid_node");
    reveal_strlit("m10_audit_missed_event");
    reveal_strlit("m10_audit_missed_node");
    reveal_strlit("m10_audit_success_event");
    reveal_strlit("m10_audit_success_node");
    reveal_strlit("m11_select");
    reveal_strlit("m11a");
    reveal_strlit("m11a_invalid_event");
    reveal_strlit("m11a_invalid_node");
    reveal_strlit("m11a_laleh");
    reveal_strlit("m11a_missed_event");
    reveal_strlit("m11a_missed_node");
    reveal_strlit("m11a_success_event");
    reveal_strlit("m11a_success_node");
    reveal_strlit("m11b");
    reveal_strlit("m11b_dev");
    reveal_strlit("m11b_invalid_event");
    reveal_strlit("m11b_invalid_node");
    reveal_strlit("m11b_missed_event");
    reveal_strlit("m11b_missed_node");
    reveal_strlit("m11b_success_event");
    reveal_strlit("m11b_success_node");
    reveal_strlit("m12");
    reveal_strlit("m12_arman");
    reveal_strlit("m12_invalid_event");
    reveal_strlit("m12_invalid_node");
    reveal_strlit("m12_missed_event");
    reveal_strlit("m12_missed_node");
    reveal_strlit("m12_success_event");
    reveal_strlit("m12_success_node");
    reveal_strlit("m13");
    reveal_strlit("m13_invalid_event");
    reveal_strlit("m13_invalid_node");
    reveal_strlit("m13_meera");
    reveal_strlit("m13_missed_event");
    reveal_strlit("m13_missed_node");
    reveal_strlit("m13_success_event");
    reveal_strlit("m13_success_node");
    reveal_strlit("m14_mira");
    reveal_strlit("m14_select");
    reveal_strlit("m14_select_2");
    reveal_strlit("m14_select_3");
    reveal_strlit("m14a");
    reveal_strlit("m14a_invalid_event");
    reveal_strlit("m14a_invalid_node");
    reveal_strlit("m14a_missed_event");
    reveal_strlit("m14a_missed_node");
    reveal_strlit("m14a_success_event");
    reveal_strlit("m14a_success_node");
    reveal_strlit("m14c");
    reveal_strlit("m14c_invalid_event");
    reveal_strlit("m14c_invalid_node");
    reveal_strlit("m14c_missed_event");
    reveal_strlit("m14c_missed_node");
    reveal_strlit("m14c_success_event");
    reveal_strlit("m14c_success_node");
    reveal_strlit("m14p");
    reveal_strlit("m14p_invalid_event");
    reveal_strlit("m14p_invalid_node");
    reveal_strlit("m14p_missed_event");
    reveal_strlit("m14p_missed_node");
    reveal_strlit("m14p_success_event");
    reveal_strlit("m14p_success_node");
    reveal_strlit("m14r");
    reveal_strlit("m14r_invalid_event");
    reveal_strlit("m14r_invalid_node");
    reveal_strlit("m14r_missed_event");
    reveal_strlit("m14r_missed_node");
    reveal_strlit("m14r_success_event");
    reveal_strlit("m14r_success_node");
    reveal_strlit("m1_anika");
    reveal_strlit("m1_anika_invalid_event");
    reveal_strlit("m1_anika_invalid_node");
    reveal_strlit("m1_anika_missed_event");
    reveal_strlit("m1_anika_missed_node");
    reveal_strlit("m1_anika_success_event");
    reveal_strlit("m1_anika_success_node");
    reveal_strlit("m2_nayan");
    reveal_strlit("m2_nayan_invalid_event");
    reveal_strlit("m2_nayan_invalid_node");
    reveal_strlit("m2_nayan_missed_event");
    reveal_strlit("m2_nayan_missed_node");
    reveal_strlit("m2_nayan_success_event");
    reveal_strlit("m2_nayan_success_node");
    reveal_strlit("m3_rakesh");
    reveal_strlit("m3_rakesh_invalid_event");
    reveal_strlit("m3_rakesh_invalid_node");
    reveal_strlit("m3_rakesh_missed_event");
    reveal_strlit("m3_rakesh_missed_node");
    reveal_strlit("m3_rakesh_success_event");
    reveal_strlit("m3_rakesh_success_node");
    reveal_strlit("m4_laleh");
    reveal_strlit("m4_laleh_invalid_event");
    reveal_strlit("m4_laleh_invalid_node");
    reveal_strlit("m4_laleh_missed_event");
    reveal_strlit("m4_laleh_missed_node");
    reveal_strlit("m4_laleh_success_event");
    reveal_strlit("m4_laleh_success_node");
    reveal_strlit("m5_javed");
    reveal_strlit("m5_javed_invalid_event");
    reveal_strlit("m5_javed_invalid_node");
    reveal_strlit("m5_javed_missed_event");
    reveal_strlit("m5_javed_missed_node");
    reveal_strlit("m5_javed_success_event");
    reveal_strlit("m5_javed_success_node");
    reveal_strlit("m6_varo");
    reveal_strlit("m6_varo_invalid_event");
    reveal_strlit("m6_varo_invalid_node");
    reveal_strlit("m6_varo_missed_event");
    reveal_strlit("m6_varo_missed_node");
    reveal_strlit("m6_varo_success_event");
    reveal_strlit("m6_varo_success_node");
    reveal_strlit("m7_tomas");
    reveal_strlit("m7_tomas_invalid_event");
    reveal_strlit("m7_tomas_invalid_node");
    reveal_strlit("m7_tomas_missed_event");
    reveal_strlit("m7_tomas_missed_node");
    reveal_strlit("m7_tomas_success_event");
    reveal_strlit("m7_tomas_success_node");
    reveal_strlit("m8_bikram");
    reveal_strlit("m8_bikram_invalid_event");
    reveal_strlit("m8_bikram_invalid_node");
    reveal_strlit("m8_bikram_missed_event");
    reveal_strlit("m8_bikram_missed_node");
    reveal_strlit("m8_bikram_success_event");
    reveal_strlit("m8_bikram_success_node");
    reveal_strlit("m9_paro");
    reveal_strlit("m9_paro_invalid_event");
    reveal_strlit("m9_paro_invalid_node");
    reveal_strlit("m9_paro_missed_event");
    reveal_strlit("m9_paro_missed_node");
    reveal_strlit("m9_paro_success_event");
    reveal_strlit("m9_paro_success_node");
    reveal_strlit("market");
    reveal_strlit("meera_tal");
    reveal_strlit("mining_office");
    reveal_strlit("mira_halek");
    reveal_strlit("nahid_bkash");
    reveal_strlit("nayan_boro");
    reveal_strlit("paro_sen");
    reveal_strlit("radio");
    reveal_strlit("rafi_alam");
    reveal_strlit("rakesh_nahal");
    reveal_strlit("ratan_colony");
    reveal_strlit("run_start");
    reveal_strlit("s1_1_rafi");
    reveal_strlit("s1_1_rafi_invalid_event");
    reveal_strlit("s1_1_rafi_invalid_node");
    reveal_strlit("s1_1_rafi_missed_event");
    reveal_strlit("s1_1_rafi_missed_node");
    reveal_strlit("s1_1_rafi_success_event");
    reveal_strlit("s1_1_rafi_success_node");
    reveal_strlit("s1_2_asha");
    reveal_strlit("s1_2_asha_invalid_event");
    reveal_strlit("s1_2_asha_invalid_node");
    reveal_strlit("s1_2_asha_missed_event");
    reveal_strlit("s1_2_asha_missed_node");
    reveal_strlit("s1_2_asha_success_event");
    reveal_strlit("s1_2_asha_success_node");
    reveal_strlit("s2_1_nahid");
    reveal_strlit("s2_1_nahid_invalid_event");
    reveal_strlit("s2_1_nahid_invalid_node");
    reveal_strlit("s2_1_nahid_missed_event");
    reveal_strlit("s2_1_nahid_missed_node");
    reveal_strlit("s2_1_nahid_success_event");
    reveal_strlit("s2_1_nahid_success_node");
    reveal_strlit("s2_asha");
    reveal_strlit("s2_asha_invalid_event");
    reveal_strlit("s2_asha_invalid_node");
    reveal_strlit("s2_asha_missed_event");
    reveal_strlit("s2_asha_missed_node");
    reveal_strlit("s2_asha_success_event");
    reveal_strlit("s2_asha_success_node");
    reveal_strlit("s3_1_nahid");
    reveal_strlit("s3_1_nahid_invalid_event");
    reveal_strlit("s3_1_nahid_invalid_node");
    reveal_strlit("s3_1_nahid_missed_event");
    reveal_strlit("s3_1_nahid_missed_node");
    reveal_strlit("s3_1_nahid_success_event");
    reveal_strlit("s3_1_nahid_success_node");
    reveal_strlit("s3_akash");
    reveal_strlit("s3_akash_invalid_event");
    reveal_strlit("s3_akash_invalid_node");
    reveal_strlit("s3_akash_missed_event");
    reveal_strlit("s3_akash_missed_node");
    reveal_strlit("s3_akash_success_event");
    reveal_strlit("s3_akash_success_node");
    reveal_strlit("s3_asha");
    reveal_strlit("s3_asha_invalid_event");
    reveal_strlit("s3_asha_invalid_node");
    reveal_strlit("s3_asha_missed_event");
    reveal_strlit("s3_asha_missed_node");
    reveal_strlit("s3_asha_success_event");
    reveal_strlit("s3_asha_success_node");
    reveal_strlit("s4_akash");
    reveal_strlit("s4_akash_invalid_event");
    reveal_strlit("s4_akash_invalid_node");
    reveal_strlit("s4_akash_missed_event");
    reveal_strlit("s4_akash_missed_node");
    reveal_strlit("s4_akash_success_event");
    reveal_strlit("s4_akash_success_node");
    reveal_strlit("secretariat");
    reveal_strlit("shapla");
    reveal_strlit("slot_01");
    reveal_strlit("slot_02");
    reveal_strlit("slot_03");
    reveal_strlit("slot_04");
    reveal_strlit("slot_05");
    reveal_strlit("slot_06");
    reveal_strlit("slot_07");
    reveal_strlit("slot_08");
    reveal_strlit("slot_09");
    reveal_strlit("slot_10");
    reveal_strlit("slot_11");
    reveal_strlit("slot_12");
    reveal_strlit("slot_13");
    reveal_strlit("slot_14");
    reveal_strlit("slot_15");
    reveal_strlit("slot_16");
    reveal_strlit("slot_17");
    reveal_strlit("slot_18");
    reveal_strlit("southbound_household");
    reveal_strlit("tomas_vale");
    assert(ids_ok(c.subscribers@)) by {
        assert forall|i: int| 0 <= i < 17 implies !is_blank((#[trigger] c.subscribers@[i]).key()) by {
            if i == 0 {
                assert(!is_white_space(c.subscribers@[0].key()[0]));
            } else if i == 1 {
                assert(!is_white_space(c.subscribers@[1].key()[0]));
            } else if i == 2 {
                assert(!is_white_space(c.subscribers@[2].key()[0]));
            } else if i == 3 {
                assert(!is_white_space(c.subscribers@[3].key()[0]));
            } else if i == 4 {
                assert(!is_white_space(c.subscribers@[4].key()[0]));
            } else if i == 5 {
                assert(!is_white_space(c.subscribers@[5].key()[0]));
            } else if i == 6 {
                assert(!is_white_space(c.subscribers@[6].key()[0]));
            } else if i == 7 {
                assert(!is_white_space(c.subscribers@[7].key()[0]));
            } else if i == 8 {
                assert(!is_white_space(c.subscribers@[8].key()[0]));
            } else if i == 9 {
                assert(!is_white_space(c.subscribers@[9].key()[0]));
            } else if i == 10 {
                assert(!is_white_space(c.subscribers@[10].key()[0]));
            } else if i == 11 {
                assert(!is_white_space(c.subscribers@[11].key()[0]));
            } else if i == 12 {
                assert(!is_white_space(c.subscribers@[12].key()[0]));
            } else if i == 13 {
                assert(!is_white_space(c.subscribers@[13].key()[0]));
            } else if i == 14 {
                assert(!is_white_space(c.subscribers@[14].key()[0]));
            } else if i == 15 {
                assert(!is_white_space(c.subscribers@[15].key()[0]));
            } else if i == 16 {
                assert(!is_white_space(c.subscribers@[16].key()[0]));
            }
        }
        assert forall|i: int, j: int| 0 <= i < j < 17 implies (#[trigger] c.subscribers@[i]).key() != (#[trigger] c.subscribers@[j]).key() by {
            if i == 0 && j == 1 {
                assert(c.subscribers@[0].key().len() != c.subscribers@[1].key().len());
            } else if i == 0 && j == 2 {
                assert(c.subscribers@[0].key().len() != c.subscribers@[2].key().len());
            } else if i == 0 && j == 3 {
                assert(c.subscribers@[0].key()[0] != c.subscribers@[3].key()[0]);
            } else if i == 0 && j == 4 {
                assert(c.subscribers@[0].key().len() != c.subscribers@[4].key().len());
            } else if i == 0 && j == 5 {
                assert(c.subscribers@[0].key().len() != c.subscribers@[5].key().len());
            } else if i == 0 && j == 6 {
                assert(c.subscribers@[0].key().len() != c.subscribers@[6].key().len());
            } else if i == 0 && j == 7 {
                assert(c.subscribers@[0].key().len() != c.subscribers@[7].key().len());
            } else if i == 0 && j == 8 {
                assert(c.subscribers@[0].key().len() != c.subscribers@[8].key().len());
            } else if i == 0 && j == 9 {
                assert(c.subscribers@[0].key().len() != c.subscribers@[9].key().len());
            } else if i == 0 && j == 10 {
                assert(c.subscribers@[0].key()[1] != c.subscribers@[10].key()[1]);
            } else if i == 0 && j == 11 {
                assert(c.subscribers@[0].key()[0] != c.subscribers@[11].key()[0]);
            } else if i == 0 && j == 12 {
                assert(c.subscribers@[0].key().len() != c.subscribers@[12].key().len());
            } else if i == 0 && j == 13 {
                assert(c.subscribers@[0].key()[0] != c.subscribers@[13].key()[0]);
            } else if i == 0 && j == 14 {
                assert(c.subscribers@[0].key()[1] != c.subscribers@[14].key()[1]);
            } else if i == 0 && j == 15 {
                assert(c.subscribers@[0].key().len() != c.subscribers@[15].key().len());
            } else if i == 0 && j == 16 {
                assert(c.subscribers@[0].key().len() != c.subscribers@[16].key().len());
            } else if i == 1 && j == 2 {
                assert(c.subscribers@[1].key().len() != c.subscribers@[2].key().len());
            } else if i == 1 && j == 3 {
                assert(c.subscribers@[1].key().len() != c.subscribers@[3].key().len());
            } else if i == 1 && j == 4 {
                assert(c.subscribers@[1].key().len() != c.subscribers@[4].key().len());
            } else if i == 1 && j == 5 {
                assert(c.subscribers@[1].key().len() != c.subscribers@[5].key().len());
            } else if i == 1 && j == 6 {
                assert(c.subscribers@[1].key()[0] != c.subscribers@[6].key()[0]);
            } else if i == 1 && j == 7 {
                assert(c.subscribers@[1].key()[0] != c.subscribers@[7].key()[0]);
            } else if i == 1 && j == 8 {
                assert(c.subscribers@[1].key().len() != c.subscribers@[8].key().len());
            } else if i == 1 && j == 9 {
                assert(c.subscribers@[1].key().len() != c.subscribers@[9].key().len());
            } else if i == 1 && j == 10 {
                assert(c.subscribers@[1].key().len() != c.subscribers@[10].key().len());
            } else if i == 1 && j == 11 {
                assert(c.subscribers@[1].key().len() != c.subscribers@[11].key().len());
            } else if i == 1 && j == 12 {
                assert(c.subscribers@[1].key()[0] != c.subscribers@[12].key()[0]);
            } else if i == 1 && j == 13 {
                assert(c.subscribers@[1].key().len() != c.subscribers@[13].key().len());
            } else if i == 1 && j == 14 {
                assert(c.subscribers@[1].key().len() != c.subscribers@[14].key().len());
            } else if i == 1 && j == 15 {
                assert(c.subscribers@[1].key().len() != c.subscribers@[15].key().len());
            } else if i == 1 && j == 16 {
                assert(c.subscribers@[1].key().len() != c.subscribers@[16].key().len());
            } else if i == 2 && j == 3 {
                assert(c.subscribers@[2].key().len() != c.subscribers@[3].key().len());
            } else if i == 2 && j == 4 {
                assert(c.subscribers@[2].key()[0] != c.subscribers@[4].key()[0]);
            } else if i == 2 && j == 5 {
                assert(c.subscribers@[2].key()[0] != c.subscribers@[5].key()[0]);
            } else if i == 2 && j == 6 {
                assert(c.subscribers@[2].key().len() != c.subscribers@[6].key().len());
            } else if i == 2 && j == 7 {
                assert(c.subscribers@[2].key().len() != c.subscribers@[7].key().len());
            } else if i == 2 && j == 8 {
                assert(c.subscribers@[2].key().len() != c.subscribers@[8].key().len());
            } else if i == 2 && j == 9 {
                assert(c.subscribers@[2].key().len() != c.subscribers@[9].key().len());
            } else if i == 2 && j == 10 {
                assert(c.subscribers@[2].key().len() != c.subscribers@[10].key().len());
            } else if i == 2 && j == 11 {
                assert(c.subscribers@[2].key().len() != c.subscribers@[11].key().len());
            } else if i == 2 && j == 12 {
                assert(c.subscribers@[2].key().len() != c.subscribers@[12].key().len());
            } else if i == 2 && j == 13 {
                assert(c.subscribers@[2].key().len() != c.subscribers@[13].key().len());
            } else if i == 2 && j == 14 {
                assert(c.subscribers@[2].key().len() != c.subscribers@[14].key().len());
            } else if i == 2 && j == 15 {
                assert(c.subscribers@[2].key().len() != c.subscribers@[15].key().len());
            } else if i == 2 && j == 16 {
                assert(c.subscribers@[2].key().len() != c.subscribers@[16].key().len());
            } else if i == 3 && j == 4 {
                assert(c.subscribers@[3].key().len() != c.subscribers@[4].key().len());
            } else if i == 3 && j == 5 {
                assert(c.subscribers@[3].key().len() != c.subscribers@[5].key().len());
            } else if i == 3 && j == 6 {
                assert(c.subscribers@[3].key().len() != c.subscribers@[6].key().len());
            } else if i == 3 && j == 7 {
                assert(c.subscribers@[3].key().len() != c.subscribers@[7].key().len());
            } else if i == 3 && j == 8 {
                assert(c.subscribers@[3].key().len() != c.subscribers@[8].key().len());
            } else if i == 3 && j == 9 {
                assert(c.subscribers@[3].key().len() != c.subscribers@[9].key().len());
            } else if i == 3 && j == 10 {
                assert(c.subscribers@[3].key()[0] != c.subscribers@[10].key()[0]);
            } else if i == 3 && j == 11 {
                assert(c.subscribers@[3].key()[0] != c.subscribers@[11].key()[0]);
            } else if i == 3 && j == 12 {
                assert(c.subscribers@[3].key().len() != c.subscribers@[12].key().len());
            } else if i == 3 && j == 13 {
                assert(c.subscribers@[3].key()[0] != c.subscribers@[13].key()[0]);
            } else if i == 3 && j == 14 {
                assert(c.subscribers@[3].key()[0] != c.subscribers@[14].key()[0]);
            } else if i == 3 && j == 15 {
                assert(c.subscribers@[3].key().len() != c.subscribers@[15].key().len());
            } else if i == 3 && j == 16 {
                assert(c.subscribers@[3].key().len() != c.subscribers@[16].key().len());
            } else if i == 4 && j == 5 {
                assert(c.subscribers@[4].key()[0] != c.subscribers@[5].key()[0]);
            } else if i == 4 && j == 6 {
                assert(c.subscribers@[4].key().len() != c.subscribers@[6].key().len());
            } else if i == 4 && j == 7 {
                assert(c.subscribers@[4].key().len() != c.subscribers@[7].key().len());
            } else if i == 4 && j == 8 {
                assert(c.subscribers@[4].key().len() != c.subscribers@[8].key().len());
            } else if i == 4 && j == 9 {
                assert(c.subscribers@[4].key().len() != c.subscribers@[9].key().len());
            } else if i == 4 && j == 10 {
                assert(c.subscribers@[4].key().len() != c.subscribers@[10].key().len());
            } else if i == 4 && j == 11 {
                assert(c.subscribers@[4].key().len() != c.subscribers@[11].key().len());
            } else if i == 4 && j == 12 {
                assert(c.subscribers@[4].key().len() != c.subscribers@[12].key().len());
            } else if i == 4 && j == 13 {
                assert(c.subscribers@[4].key().len() != c.subscribers@[13].key().len());
            } else if i == 4 && j == 14 {
                assert(c.subscribers@[4].key().len() != c.subscribers@[14].key().len());
            } else if i == 4 && j == 15 {
                assert(c.subscribers@[4].key().len() != c.subscribers@[15].key().len());
            } else if i == 4 && j == 16 {
                assert(c.subscribers@[4].key().len() != c.subscribers@[16].key().len());
            } else if i == 5 && j == 6 {
                assert(c.subscribers@[5].key().len() != c.subscribers@[6].key().len());
            } else if i == 5 && j == 7 {
                assert(c.subscribers@[5].key().len() != c.subscribers@[7].key().len());
            } else if i == 5 && j == 8 {
                assert(c.subscribers@[5].key().len() != c.subscribers@[8].key().len());
            } else if i == 5 && j == 9 {
                assert(c.subscribers@[5].key().len() != c.subscribers@[9].key().len());
            } else if i == 5 && j == 10 {
                assert(c.subscribers@[5].key().len() != c.subscribers@[10].key().len());
            } else if i == 5 && j == 11 {
                assert(c.subscribers@[5].key().len() != c.subscribers@[11].key().len());
            } else if i == 5 && j == 12 {
                assert(c.subscribers@[5].key().len() != c.subscribers@[12].key().len());
            } else if i == 5 && j == 13 {
                assert(c.subscribers@[5].key().len() != c.subscribers@[13].key().len());
            } else if i == 5 && j == 14 {
                assert(c.subscribers@[5].key().len() != c.subscribers@[14].key().len());
            } else if i == 5 && j == 15 {
                assert(c.subscribers@[5].key().len() != c.subscribers@[15].key().len());
            } else if i == 5 && j == 16 {
                assert(c.subscribers@[5].key().len() != c.subscribers@[16].key().len());
            } else if i == 6 && j == 7 {
                assert(c.subscribers@[6].key()[0] != c.subscribers@[7].key()[0]);
            } else if i == 6 && j == 8 {
                assert(c.subscribers@[6].key().len() != c.subscribers@[8].key().len());
            } else if i == 6 && j == 9 {
                assert(c.subscribers@[6].key().len() != c.subscribers@[9].key().len());
            } else if i == 6 && j == 10 {
                assert(c.subscribers@[6].key().len() != c.subscribers@[10].key().len());
            } else if i == 6 && j == 11 {
                assert(c.subscribers@[6].key().len() != c.subscribers@[11].key().len());
            } else if i == 6 && j == 12 {
                assert(c.subscribers@[6].key()[0] != c.subscribers@[12].key()[0]);
            } else if i == 6 && j == 13 {
                assert(c.subscribers@[6].key().len() != c.subscribers@[13].key().len());
            } else if i == 6 && j == 14 {
                assert(c.subscribers@[6].key().len() != c.subscribers@[14].key().len());
            } else if i == 6 && j == 15 {
                assert(c.subscribers@[6].key().len() != c.subscribers@[15].key().len());
            } else if i == 6 && j == 16 {
                assert(c.subscribers@[6].key().len() != c.subscribers@[16].key().len());
            } else if i == 7 && j == 8 {
                assert(c.subscribers@[7].key().len() != c.subscribers@[8].key().len());
            } else if i == 7 && j == 9 {
                assert(c.subscribers@[7].key().len() != c.subscribers@[9].key().len());
            } else if i == 7 && j == 10 {
                assert(c.subscribers@[7].key().len() != c.subscribers@[10].key().len());
            } else if i == 7 && j == 11 {
                assert(c.subscribers@[7].key().len() != c.subscribers@[11].key().len());
            } else if i == 7 && j == 12 {
                assert(c.subscribers@[7].key()[0] != c.subscribers@[12].key()[0]);
            } else if i == 7 && j == 13 {
                assert(c.subscribers@[7].key().len() != c.subscribers@[13].key().len());
            } else if i == 7 && j == 14 {
                assert(c.subscribers@[7].key().len() != c.subscribers@[14].key().len());
            } else if i == 7 && j == 15 {
                assert(c.subscribers@[7].key().len() != c.subscribers@[15].key().len());
            } else if i == 7 && j == 16 {
                assert(c.subscribers@[7].key().len() != c.subscribers@[16].key().len());
            } else if i == 8 && j == 9 {
                assert(c.subscribers@[8].key()[0] != c.subscribers@[9].key()[0]);
            } else if i == 8 && j == 10 {
                assert(c.subscribers@[8].key().len() != c.subscribers@[10].key().len());
            } else if i == 8 && j == 11 {
                assert(c.subscribers@[8].key().len() != c.subscribers@[11].key().len());
            } else if i == 8 && j == 12 {
                assert(c.subscribers@[8].key().len() != c.subscribers@[12].key().len());
            } else if i == 8 && j == 13 {
                assert(c.subscribers@[8].key().len() != c.subscribers@[13].key().len());
            } else if i == 8 && j == 14 {
                assert(c.subscribers@[8].key().len() != c.subscribers@[14].key().len());
            } else if i == 8 && j == 15 {
                assert(c.subscribers@[8].key().len() != c.subscribers@[15].key().len());
            } else if i == 8 && j == 16 {
                assert(c.subscribers@[8].key()[0] != c.subscribers@[16].key()[0]);
            } else if i == 9 && j == 10 {
                assert(c.subscribers@[9].key().len() != c.subscribers@[10].key().len());
            } else if i == 9 && j == 11 {
                assert(c.subscribers@[9].key().len() != c.subscribers@[11].key().len());
            } else if i == 9 && j == 12 {
                assert(c.subscribers@[9].key().len() != c.subscribers@[12].key().len());
            } else if i == 9 && j == 13 {
                assert(c.subscribers@[9].key().len() != c.subscribers@[13].key().len());
            } else if i == 9 && j == 14 {
                assert(c.subscribers@[9].key().len() != c.subscribers@[14].key().len());
            } else if i == 9 && j == 15 {
                assert(c.subscribers@[9].key().len() != c.subscribers@[15].key().len());
            } else if i == 9 && j == 16 {
                assert(c.subscribers@[9].key()[0] != c.subscribers@[16].key()[0]);
            } else if i == 10 && j == 11 {
                assert(c.subscribers@[10].key()[0] != c.subscribers@[11].key()[0]);
            } else if i == 10 && j == 12 {
                assert(c.subscribers@[10].key().len() != c.subscribers@[12].key().len());
            } else if i == 10 && j == 13 {
                assert(c.subscribers@[10].key()[0] != c.subscribers@[13].key()[0]);
            } else if i == 10 && j == 14 {
                assert(c.subscribers@[10].key()[1] != c.subscribers@[14].key()[1]);
            } else if i == 10 && j == 15 {
                assert(c.subscribers@[10].key().len() != c.subscribers@[15].key().len());
            } else if i == 10 && j == 16 {
                assert(c.subscribers@[10].key().len() != c.subscribers@[16].key().len());
            } else if i == 11 && j == 12 {
                assert(c.subscribers@[11].key().len() != c.subscribers@[12].key().len());
            } else if i == 11 && j == 13 {
                assert(c.subscribers@[11].key()[0] != c.subscribers@[13].key()[0]);
            } else if i == 11 && j == 14 {
                assert(c.subscribers@[11].key()[0] != c.subscribers@[14].key()[0]);
            } else if i == 11 && j == 15 {
                assert(c.subscribers@[11].key().len() != c.subscribers@[15].key().len());
            } else if i == 11 && j == 16 {
                assert(c.subscribers@[11].key().len() != c.subscribers@[16].key().len());
            } else if i == 12 && j == 13 {
                assert(c.subscribers@[12].key().len() != c.subscribers@[13].key().len());
            } else if i == 12 && j == 14 {
                assert(c.subscribers@[12].key().len() != c.subscribers@[14].key().len());
            } else if i == 12 && j == 15 {
                assert(c.subscribers@[12].key().len() != c.subscribers@[15].key().len());
            } else if i == 12 && j == 16 {
                assert(c.subscribers@[12].key().len() != c.subscribers@[16].key().len());
            } else if i == 13 && j == 14 {
                assert(c.subscribers@[13].key()[0] != c.subscribers@[14].key()[0]);
            } else if i == 13 && j == 15 {
                assert(c.subscribers@[13].key().len() != c.subscribers@[15].key().len());
            } else if i == 13 && j == 16 {
                assert(c.subscribers@[13].key().len() != c.subscribers@[16].key().len());
            } else if i == 14 && j == 15 {
                assert(c.subscribers@[14].key().len() != c.subscribers@[15].key().len());
            } else if i == 14 && j == 16 {
                assert(c.subscribers@[14].key().len() != c.subscribers@[16].key().len());
            } else if i == 15 && j == 16 {
                assert(c.subscribers@[15].key().len() != c.subscribers@[16].key().len());
            }
        }
    }
    assert(ids_ok(c.line_listings@)) by {
        assert forall|i: int| 0 <= i < 12 implies !is_blank((#[trigger] c.line_listings@[i]).key()) by {
            if i == 0 {
                assert(!is_white_space(c.line_listings@[0].key()[0]));
            } else if i == 1 {
                assert(!is_white_space(c.line_listings@[1].key()[0]));
            } else if i == 2 {
                assert(!is_white_space(c.line_listings@[2].key()[0]));
            } else if i == 3 {
                assert(!is_white_space(c.line_listings@[3].key()[0]));
            } else if i == 4 {
                assert(!is_white_space(c.line_listings@[4].key()[0]));
            } else if i == 5 {
                assert(!is_white_space(c.line_listings@[5].key()[0]));
            } else if i == 6 {
                assert(!is_white_space(c.line_listings@[6].key()[0]));
            } else if i == 7 {
                assert(!is_white_space(c.line_listings@[7].key()[0]));
            } else if i == 8 {
                assert(!is_white_space(c.line_listings@[8].key()[0]));
            } else if i == 9 {
                assert(!is_white_space(c.line_listings@[9].key()[0]));
            } else if i == 10 {
                assert(!is_white_space(c.line_listings@[10].key()[0]));
            } else if i == 11 {
                assert(!is_white_space(c.line_listings@[11].key()[0]));
            }
        }
        assert forall|i: int, j: int| 0 <= i < j < 12 implies (#[trigger] c.line_listings@[i]).key() != (#[trigger] c.line_listings@[j]).key() by {
            if i == 0 && j == 1 {
                assert(c.line_listings@[0].key().len() != c.line_listings@[1].key().len());
            } else if i == 0 && j == 2 {
                assert(c.line_listings@[0].key().len() != c.line_listings@[2].key().len());
            } else if i == 0 && j == 3 {
                assert(c.line_listings@[0].key().len() != c.line_listings@[3].key().len());
            } else if i == 0 && j == 4 {
                assert(c.line_listings@[0].key().len() != c.line_listings@[4].key().len());
            } else if i == 0 && j == 5 {
                assert(c.line_listings@[0].key().len() != c.line_listings@[5].key().len());
            } else if i == 0 && j == 6 {
                assert(c.line_listings@[0].key().len() != c.line_listings@[6].key().len());
            } else if i == 0 && j == 7 {
                assert(c.line_listings@[0].key().len() != c.line_listings@[7].key().len());
            } else if i == 0 && j == 8 {
                assert(c.line_listings@[0].key().len() != c.line_listings@[8].key().len());
            } else if i == 0 && j == 9 {
                assert(c.line_listings@[0].key().len() != c.line_listings@[9].key().len());
            } else if i == 0 && j == 10 {
                assert(c.line_listings@[0].key().len() != c.line_listings@[10].key().len());
            } else if i == 0 && j == 11 {
                assert(c.line_listings@[0].key().len() != c.line_listings@[11].key().len());
            } else if i == 1 && j == 2 {
                assert(c.line_listings@[1].key().len() != c.line_listings@[2].key().len());
            } else if i == 1 && j == 3 {
                assert(c.line_listings@[1].key().len() != c.line_listings@[3].key().len());
            } else if i == 1 && j == 4 {
                assert(c.line_listings@[1].key().len() != c.line_listings@[4].key().len());
            } else if i == 1 && j == 5 {
                assert(c.line_listings@[1].key().len() != c.line_listings@[5].key().len());
            } else if i == 1 && j == 6 {
                assert(c.line_listings@[1].key().len() != c.line_listings@[6].key().len());
            } else if i == 1 && j == 7 {
                assert(c.line_listings@[1].key().len() != c.line_listings@[7].key().len());
            } else if i == 1 && j == 8 {
                assert(c.line_listings@[1].key().len() != c.line_listings@[8].key().len());
            } else if i == 1 && j == 9 {
                assert(c.line_listings@[1].key().len() != c.line_listings@[9].key().len());
            } else if i == 1 && j == 10 {
                assert(c.line_listings@[1].key().len() != c.line_listings@[10].key().len());
            } else if i == 1 && j == 11 {
                assert(c.line_listings@[1].key().len() != c.line_listings@[11].key().len());
            } else if i == 2 && j == 3 {
                assert(c.line_listings@[2].key().len() != c.line_listings@[3].key().len());
            } else if i == 2 && j == 4 {
                assert(c.line_listings@[2].key().len() != c.line_listings@[4].key().len());
            } else if i == 2 && j == 5 {
                assert(c.line_listings@[2].key().len() != c.line_listings@[5].key().len());
            } else if i == 2 && j == 6 {
                assert(c.line_listings@[2].key().len() != c.line_listings@[6].key().len());
            } else if i == 2 && j == 7 {
                assert(c.line_listings@[2].key().len() != c.line_listings@[7].key().len());
            } else if i == 2 && j == 8 {
                assert(c.line_listings@[2].key()[0] != c.line_listings@[8].key()[0]);
            } else if i == 2 && j == 9 {
                assert(c.line_listings@[2].key().len() != c.line_listings@[9].key().len());
            } else if i == 2 && j == 10 {
                assert(c.line_listings@[2].key().len() != c.line_listings@[10].key().len());
            } else if i == 2 && j == 11 {
                assert(c.line_listings@[2].key().len() != c.line_listings@[11].key().len());
            } else if i == 3 && j == 4 {
                assert(c.line_listings@[3].key().len() != c.line_listings@[4].key().len());
            } else if i == 3 && j == 5 {
                assert(c.line_listings@[3].key().len() != c.line_listings@[5].key().len());
            } else if i == 3 && j == 6 {
                assert(c.line_listings@[3].key().len() != c.line_listings@[6].key().len());
            } else if i == 3 && j == 7 {
                assert(c.line_listings@[3].key().len() != c.line_listings@[7].key().len());
            } else if i == 3 && j == 8 {
                assert(c.line_listings@[3].key().len() != c.line_listings@[8].key().len());
            } else if i == 3 && j == 9 {
                assert(c.line_listings@[3].key().len() != c.line_listings@[9].key().len());
            } else if i == 3 && j == 10 {
                assert(c.line_listings@[3].key().len() != c.line_listings@[10].key().len());
            } else if i == 3 && j == 11 {
                assert(c.line_listings@[3].key().len() != c.line_listings@[11].key().len());
            } else if i == 4 && j == 5 {
                assert(c.line_listings@[4].key().len() != c.line_listings@[5].key().len());
            } else if i == 4 && j == 6 {
                assert(c.line_listings@[4].key()[0] != c.line_listings@[6].key()[0]);
            } else if i == 4 && j == 7 {
                assert(c.line_listings@[4].key().len() != c.line_listings@[7].key().len());
            } else if i == 4 && j == 8 {
                assert(c.line_listings@[4].key().len() != c.line_listings@[8].key().len());
            } else if i == 4 && j == 9 {
                assert(c.line_listings@[4].key().len() != c.line_listings@[9].key().len());
            } else if i == 4 && j == 10 {
                assert(c.line_listings@[4].key().len() != c.line_listings@[10].key().len());
            } else if i == 4 && j == 11 {
                assert(c.line_listings@[4].key().len() != c.line_listings@[11].key().len());
            } else if i == 5 && j == 6 {
                assert(c.line_listings@[5].key().len() != c.line_listings@[6].key().len());
            } else if i == 5 && j == 7 {
                assert(c.line_listings@[5].key().len() != c.line_listings@[7].key().len());
            } else if i == 5 && j == 8 {
                assert(c.line_listings@[5].key().len() != c.line_listings@[8].key().len());
            } else if i == 5 && j == 9 {
                assert(c.line_listings@[5].key().len() != c.line_listings@[9].key().len());
            } else if i == 5 && j == 10 {
                assert(c.line_listings@[5].key().len() != c.line_listings@[10].key().len());
            } else if i == 5 && j == 11 {
                assert(c.line_listings@[5].key().len() != c.line_listings@[11].key().len());
            } else if i == 6 && j == 7 {
                assert(c.line_listings@[6].key().len() != c.line_listings@[7].key().len());
            } else if i == 6 && j == 8 {
                assert(c.line_listings@[6].key().len() != c.line_listings@[8].key().len());
            } else if i == 6 && j == 9 {
                assert(c.line_listings@[6].key().len() != c.line_listings@[9].key().len());
            } else if i == 6 && j == 10 {
                assert(c.line_listings@[6].key().len() != c.line_listings@[10].key().len());
            } else if i == 6 && j == 11 {
                assert(c.line_listings@[6].key().len() != c.line_listings@[11].key().len());
            } else if i == 7 && j == 8 {
                assert(c.line_listings@[7].key().len() != c.line_listings@[8].key().len());
            } else if i == 7 && j == 9 {
                assert(c.line_listings@[7].key().len() != c.line_listings@[9].key().len());
            } else if i == 7 && j == 10 {
                assert(c.line_listings@[7].key().len() != c.line_listings@[10].key().len());
            } else if i == 7 && j == 11 {
                assert(c.line_listings@[7].key().len() != c.line_listings@[11].key().len());
            } else if i == 8 && j == 9 {
                assert(c.line_listings@[8].key().len() != c.line_listings@[9].key().len());
            } else if i == 8 && j == 10 {
                assert(c.line_listings@[8].key().len() != c.line_listings@[10].key().len());
            } else if i == 8 && j == 11 {
                assert(c.line_listings@[8].key().len() != c.line_listings@[11].key().len());
            } else if i == 9 && j == 10 {
                assert(c.line_listings@[9].key()[0] != c.line_listings@[10].key()[0]);
            } else if i == 9 && j == 11 {
                assert(c.line_listings@[9].key().len() != c.line_listings@[11].key().len());
            } else if i == 10 && j == 11 {
                assert(c.line_listings@[10].key().len() != c.line_listings@[11].key().len());
            }
        }
    }
    assert(ids_ok(c.call_premises@)) by {
        assert forall|i: int| 0 <= i < 23 implies !is_blank((#[trigger] c.call_premises@[i]).key()) by {
            if i == 0 {
                assert(!is_white_space(c.call_premises@[0].key()[0]));
            } else if i == 1 {
                assert(!is_white_space(c.call_premises@[1].key()[0]));
            } else if i == 2 {
                assert(!is_white_space(c.call_premises@[2].key()[0]));
            } else if i == 3 {
                assert(!is_white_space(c.call_premises@[3].key()[0]));
            } else if i == 4 {
                assert(!is_white_space(c.call_premises@[4].key()[0]));
            } else if i == 5 {
                assert(!is_white_space(c.call_premises@[5].key()[0]));
            } else if i == 6 {
                assert(!is_white_space(c.call_premises@[6].key()[0]));
            } else if i == 7 {
                assert(!is_white_space(c.call_premises@[7].key()[0]));
            } else if i == 8 {
                assert(!is_white_space(c.call_premises@[8].key()[0]));
            } else if i == 9 {
                assert(!is_white_space(c.call_premises@[9].key()[0]));
            } else if i == 10 {
                assert(!is_white_space(c.call_premises@[10].key()[0]));
            } else if i == 11 {
                assert(!is_white_space(c.call_premises@[11].key()[0]));
            } else if i == 12 {
                assert(!is_white_space(c.call_premises@[12].key()[0]));
            } else if i == 13 {
                assert(!is_white_space(c.call_premises@[13].key()[0]));
            } else if i == 14 {
                assert(!is_white_space(c.call_premises@[14].key()[0]));
            } else if i == 15 {
                assert(!is_white_space(c.call_premises@[15].key()[0]));
            } else if i == 16 {
                assert(!is_white_space(c.call_premises@[16].key()[0]));
            } else if i == 17 {
                assert(!is_white_space(c.call_premises@[17].key()[0]));
            } else if i == 18 {
                assert(!is_white_space(c.call_premises@[18].key()[0]));
            } else if i == 19 {
                assert(!is_white_space(c.call_premises@[19].key()[0]));
            } else if i == 20 {
                assert(!is_white_space(c.call_premises@[20].key()[0]));
            } else if i == 21 {
                assert(!is_white_space(c.call_premises@[21].key()[0]));
            } else if i == 22 {
                assert(!is_white_space(c.call_premises@[22].key()[0]));
            }
        }
        assert forall|i: int, j: int| 0 <= i < j < 23 implies (#[trigger] c.call_premises@[i]).key() != (#[trigger] c.call_premises@[j]).key() by {
            if i == 0 && j == 1 {
                assert(c.call_premises@[0].key().len() != c.call_premises@[1].key().len());
            } else if i == 0 && j == 2 {
                assert(c.call_premises@[0].key()[3] != c.call_premises@[2].key()[3]);
            } else if i == 0 && j == 3 {
                assert(c.call_premises@[0].key().len() != c.call_premises@[3].key().len());
            } else if i == 0 && j == 4 {
                assert(c.call_premises@[0].key()[0] != c.call_premises@[4].key()[0]);
            } else if i == 0 && j == 5 {
                assert(c.call_premises@[0].key().len() != c.call_premises@[5].key().len());
            } else if i == 0 && j == 6 {
                assert(c.call_premises@[0].key().len() != c.call_premises@[6].key().len());
            } else if i == 0 && j == 7 {
                assert(c.call_premises@[0].key().len() != c.call_premises@[7].key().len());
            } else if i == 0 && j == 8 {
                assert(c.call_premises@[0].key().len() != c.call_premises@[8].key().len());
            } else if i == 0 && j == 9 {
                assert(c.call_premises@[0].key().len() != c.call_premises@[9].key().len());
            } else if i == 0 && j == 10 {
                assert(c.call_premises@[0].key().len() != c.call_premises@[10].key().len());
            } else if i == 0 && j == 11 {
                assert(c.call_premises@[0].key().len() != c.call_premises@[11].key().len());
            } else if i == 0 && j == 12 {
                assert(c.call_premises@[0].key()[0] != c.call_premises@[12].key()[0]);
            } else if i == 0 && j == 13 {
                assert(c.call_premises@[0].key().len() != c.call_premises@[13].key().len());
            } else if i == 0 && j == 14 {
                assert(c.call_premises@[0].key().len() != c.call_premises@[14].key().len());
            } else if i == 0 && j == 15 {
                assert(c.call_premises@[0].key().len() != c.call_premises@[15].key().len());
            } else if i == 0 && j == 16 {
                assert(c.call_premises@[0].key()[0] != c.call_premises@[16].key()[0]);
            } else if i == 0 && j == 17 {
                assert(c.call_premises@[0].key().len() != c.call_premises@[17].key().len());
            } else if i == 0 && j == 18 {
                assert(c.call_premises@[0].key().len() != c.call_premises@[18].key().len());
            } else if i == 0 && j == 19 {
                assert(c.call_premises@[0].key().len() != c.call_premises@[19].key().len());
            } else if i == 0 && j == 20 {
                assert(c.call_premises@[0].key()[0] != c.call_premises@[20].key()[0]);
            } else if i == 0 && j == 21 {
                assert(c.call_premises@[0].key()[0] != c.call_premises@[21].key()[0]);
            } else if i == 0 && j == 22 {
                assert(c.call_premises@[0].key().len() != c.call_premises@[22].key().len());
            } else if i == 1 && j == 2 {
                assert(c.call_premises@[1].key().len() != c.call_premises@[2].key().len());
            } else if i == 1 && j == 3 {
                assert(c.call_premises@[1].key()[1] != c.call_premises@[3].key()[1]);
            } else if i == 1 && j == 4 {
                assert(c.call_premises@[1].key().len() != c.call_premises@[4].key().len());
            } else if i == 1 && j == 5 {
                assert(c.call_premises@[1].key().len() != c.call_premises@[5].key().len());
            } else if i == 1 && j == 6 {
                assert(c.call_premises@[1].key()[1] != c.call_premises@[6].key()[1]);
            } else if i == 1 && j == 7 {
                assert(c.call_premises@[1].key().len() != c.call_premises@[7].key().len());
            } else if i == 1 && j == 8 {
                assert(c.call_premises@[1].key()[1] != c.call_premises@[8].key()[1]);
            } else if i == 1 && j == 9 {
                assert(c.call_premises@[1].key().len() != c.call_premises@[9].key().len());
            } else if i == 1 && j == 10 {
                assert(c.call_premises@[1].key()[1] != c.call_premises@[10].key()[1]);
            } else if i == 1 && j == 11 {
                assert(c.call_premises@[1].key().len() != c.call_premises@[11].key().len());
            } else if i == 1 && j == 12 {
                assert(c.call_premises@[1].key().len() != c.call_premises@[12].key().len());
            } else if i == 1 && j == 13 {
                assert(c.call_premises@[1].key().len() != c.call_premises@[13].key().len());
            } else if i == 1 && j == 14 {
                assert(c.call_premises@[1].key().len() != c.call_premises@[14].key().len());
            } else if i == 1 && j == 15 {
                assert(c.call_premises@[1].key()[0] != c.call_premises@[15].key()[0]);
            } else if i == 1 && j == 16 {
                assert(c.call_premises@[1].key().len() != c.call_premises@[16].key().len());
            } else if i == 1 && j == 17 {
                assert(c.call_premises@[1].key()[0] != c.call_premises@[17].key()[0]);
            } else if i == 1 && j == 18 {
                assert(c.call_premises@[1].key().len() != c.call_premises@[18].key().len());
            } else if i == 1 && j == 19 {
                assert(c.call_premises@[1].key()[2] != c.call_premises@[19].key()[2]);
            } else if i == 1 && j == 20 {
                assert(c.call_premises@[1].key().len() != c.call_premises@[20].key().len());
            } else if i == 1 && j == 21 {
                assert(c.call_premises@[1].key().len() != c.call_premises@[21].key().len());
            } else if i == 1 && j == 22 {
                assert(c.call_premises@[1].key()[2] != c.call_premises@[22].key()[2]);
            } else if i == 2 && j == 3 {
                assert(c.call_premises@[2].key().len() != c.call_premises@[3].key().len());
            } else if i == 2 && j == 4 {
                assert(c.call_premises@[2].key()[0] != c.call_premises@[4].key()[0]);
            } else if i == 2 && j == 5 {
                assert(c.call_premises@[2].key().len() != c.call_premises@[5].key().len());
            } else if i == 2 && j == 6 {
                assert(c.call_premises@[2].key().len() != c.call_premises@[6].key().len());
            } else if i == 2 && j == 7 {
                assert(c.call_premises@[2].key().len() != c.call_premises@[7].key().len());
            } else if i == 2 && j == 8 {
                assert(c.call_premises@[2].key().len() != c.call_premises@[8].key().len());
            } else if i == 2 && j == 9 {
                assert(c.call_premises@[2].key().len() != c.call_premises@[9].key().len());
            } else if i == 2 && j == 10 {
                assert(c.call_premises@[2].key().len() != c.call_premises@[10].key().len());
            } else if i == 2 && j == 11 {
                assert(c.call_premises@[2].key().len() != c.call_premises@[11].key().len());
            } else if i == 2 && j == 12 {
                assert(c.call_premises@[2].key()[0] != c.call_premises@[12].key()[0]);
            } else if i == 2 && j == 13 {
                assert(c.call_premises@[2].key().len() != c.call_premises@[13].key().len());
            } else if i == 2 && j == 14 {
                assert(c.call_premises@[2].key().len() != c.call_premises@[14].key().len());
            } else if i == 2 && j == 15 {
                assert(c.call_premises@[2].key().len() != c.call_premises@[15].key().len());
            } else if i == 2 && j == 16 {
                assert(c.call_premises@[2].key()[0] != c.call_premises@[16].key()[0]);
            } else if i == 2 && j == 17 {
                assert(c.call_premises@[2].key().len() != c.call_premises@[17].key().len());
            } else if i == 2 && j == 18 {
                assert(c.call_premises@[2].key().len() != c.call_premises@[18].key().len());
            } else if i == 2 && j == 19 {
                assert(c.call_premises@[2].key().len() != c.call_premises@[19].key().len());
            } else if i == 2 && j == 20 {
                assert(c.call_premises@[2].key()[0] != c.call_premises@[20].key()[0]);
            } else if i == 2 && j == 21 {
                assert(c.call_premises@[2].key()[0] != c.call_premises@[21].key()[0]);
            } else if i == 2 && j == 22 {
                assert(c.call_premises@[2].key().len() != c.call_premises@[22].key().len());
            } else if i == 3 && j == 4 {
                assert(c.call_premises@[3].key().len() != c.call_premises@[4].key().len());
            } else if i == 3 && j == 5 {
                assert(c.call_premises@[3].key().len() != c.call_premises@[5].key().len());
            } else if i == 3 && j == 6 {
                assert(c.call_premises@[3].key()[1] != c.call_premises@[6].key()[1]);
            } else if i == 3 && j == 7 {
                assert(c.call_premises@[3].key().len() != c.call_premises@[7].key().len());
            } else if i == 3 && j == 8 {
                assert(c.call_premises@[3].key()[1] != c.call_premises@[8].key()[1]);
            } else if i == 3 && j == 9 {
                assert(c.call_premises@[3].key().len() != c.call_premises@[9].key().len());
            } else if i == 3 && j == 10 {
                assert(c.call_premises@[3].key()[1] != c.call_premises@[10].key()[1]);
            } else if i == 3 && j == 11 {
                assert(c.call_premises@[3].key().len() != c.call_premises@[11].key().len());
            } else if i == 3 && j == 12 {
                assert(c.call_premises@[3].key().len() != c.call_premises@[12].key().len());
            } else if i == 3 && j == 13 {
                assert(c.call_premises@[3].key().len() != c.call_premises@[13].key().len());
            } else if i == 3 && j == 14 {
                assert(c.call_premises@[3].key().len() != c.call_premises@[14].key().len());
            } else if i == 3 && j == 15 {
                assert(c.call_premises@[3].key()[0] != c.call_premises@[15].key()[0]);
            } else if i == 3 && j == 16 {
                assert(c.call_premises@[3].key().len() != c.call_premises@[16].key().len());
            } else if i == 3 && j == 17 {
                assert(c.call_premises@[3].key()[0] != c.call_premises@[17].key()[0]);
            } else if i == 3 && j == 18 {
                assert(c.call_premises@[3].key().len() != c.call_premises@[18].key().len());
            } else if i == 3 && j == 19 {
                assert(c.call_premises@[3].key()[1] != c.call_premises@[19].key()[1]);
            } else if i == 3 && j == 20 {
                assert(c.call_premises@[3].key().len() != c.call_premises@[20].key().len());
            } else if i == 3 && j == 21 {
                assert(c.call_premises@[3].key().len() != c.call_premises@[21].key().len());
            } else if i == 3 && j == 22 {
                assert(c.call_premises@[3].key()[1] != c.call_premises@[22].key()[1]);
            } else if i == 4 && j == 5 {
                assert(c.call_premises@[4].key().len() != c.call_premises@[5].key().len());
            } else if i == 4 && j == 6 {
                assert(c.call_premises@[4].key().len() != c.call_premises@[6].key().len());
            } else if i == 4 && j == 7 {
                assert(c.call_premises@[4].key().len() != c.call_premises@[7].key().len());
            } else if i == 4 && j == 8 {
                assert(c.call_premises@[4].key().len() != c.call_premises@[8].key().len());
            } else if i == 4 && j == 9 {
                assert(c.call_premises@[4].key().len() != c.call_premises@[9].key().len());
            } else if i == 4 && j == 10 {
                assert(c.call_premises@[4].key().len() != c.call_premises@[10].key().len());
            } else if i == 4 && j == 11 {
                assert(c.call_premises@[4].key().len() != c.call_premises@[11].key().len());
            } else if i == 4 && j == 12 {
                assert(c.call_premises@[4].key()[1] != c.call_premises@[12].key()[1]);
            } else if i == 4 && j == 13 {
                assert(c.call_premises@[4].key().len() != c.call_premises@[13].key().len());
            } else if i == 4 && j == 14 {
                assert(c.call_premises@[4].key().len() != c.call_premises@[14].key().len());
            } else if i == 4 && j == 15 {
                assert(c.call_premises@[4].key().len() != c.call_premises@[15].key().len());
            } else if i == 4 && j == 16 {
                assert(c.call_premises@[4].key()[1] != c.call_premises@[16].key()[1]);
            } else if i == 4 && j == 17 {
                assert(c.call_premises@[4].key().len() != c.call_premises@[17].key().len());
            } else if i == 4 && j == 18 {
                assert(c.call_premises@[4].key().len() != c.call_premises@[18].key().len());
            } else if i == 4 && j == 19 {
                assert(c.call_premises@[4].key().len() != c.call_premises@[19].key().len());
            } else if i == 4 && j == 20 {
                assert(c.call_premises@[4].key()[1] != c.call_premises@[20].key()[1]);
            } else if i == 4 && j == 21 {
                assert(c.call_premises@[4].key()[1] != c.call_premises@[21].key()[1]);
            } else if i == 4 && j == 22 {
                assert(c.call_premises@[4].key().len() != c.call_premises@[22].key().len());
            } else if i == 5 && j == 6 {
                assert(c.call_premises@[5].key().len() != c.call_premises@[6].key().len());
            } else if i == 5 && j == 7 {
                assert(c.call_premises@[5].key().len() != c.call_premises@[7].key().len());
            } else if i == 5 && j == 8 {
                assert(c.call_premises@[5].key().len() != c.call_premises@[8].key().len());
            } else if i == 5 && j == 9 {
                assert(c.call_premises@[5].key()[0] != c.call_premises@[9].key()[0]);
            } else if i == 5 && j == 10 {
                assert(c.call_premises@[5].key().len() != c.call_premises@[10].key().len());
            } else if i == 5 && j == 11 {
                assert(c.call_premises@[5].key().len() != c.call_premises@[11].key().len());
            } else if i == 5 && j == 12 {
                assert(c.call_premises@[5].key().len() != c.call_premises@[12].key().len());
            } else if i == 5 && j == 13 {
                assert(c.call_premises@[5].key()[1] != c.call_premises@[13].key()[1]);
            } else if i == 5 && j == 14 {
                assert(c.call_premises@[5].key()[0] != c.call_premises@[14].key()[0]);
            } else if i == 5 && j == 15 {
                assert(c.call_premises@[5].key().len() != c.call_premises@[15].key().len());
            } else if i == 5 && j == 16 {
                assert(c.call_premises@[5].key().len() != c.call_premises@[16].key().len());
            } else if i == 5 && j == 17 {
                assert(c.call_premises@[5].key().len() != c.call_premises@[17].key().len());
            } else if i == 5 && j == 18 {
                assert(c.call_premises@[5].key().len() != c.call_premises@[18].key().len());
            } else if i == 5 && j == 19 {
                assert(c.call_premises@[5].key().len() != c.call_premises@[19].key().len());
            } else if i == 5 && j == 20 {
                assert(c.call_premises@[5].key().len() != c.call_premises@[20].key().len());
            } else if i == 5 && j == 21 {
                assert(c.call_premises@[5].key().len() != c.call_premises@[21].key().len());
            } else if i == 5 && j == 22 {
                assert(c.call_premises@[5].key().len() != c.call_premises@[22].key().len());
            } else if i == 6 && j == 7 {
                assert(c.call_premises@[6].key().len() != c.call_premises@[7].key().len());
            } else if i == 6 && j == 8 {
                assert(c.call_premises@[6].key()[1] != c.call_premises@[8].key()[1]);
            } else if i == 6 && j == 9 {
                assert(c.call_premises@[6].key().len() != c.call_premises@[9].key().len());
            } else if i == 6 && j == 10 {
                assert(c.call_premises@[6].key()[1] != c.call_premises@[10].key()[1]);
            } else if i == 6 && j == 11 {
                assert(c.call_premises@[6].key().len() != c.call_premises@[11].key().len());
            } else if i == 6 && j == 12 {
                assert(c.call_premises@[6].key().len() != c.call_premises@[12].key().len());
            } else if i == 6 && j == 13 {
                assert(c.call_premises@[6].key().len() != c.call_premises@[13].key().len());
            } else if i == 6 && j == 14 {
                assert(c.call_premises@[6].key().len() != c.call_premises@[14].key().len());
            } else if i == 6 && j == 15 {
                assert(c.call_premises@[6].key()[0] != c.call_premises@[15].key()[0]);
            } else if i == 6 && j == 16 {
                assert(c.call_premises@[6].key().len() != c.call_premises@[16].key().len());
            } else if i == 6 && j == 17 {
                assert(c.call_premises@[6].key()[0] != c.call_premises@[17].key()[0]);
            } else if i == 6 && j == 18 {
                assert(c.call_premises@[6].key().len() != c.call_premises@[18].key().len());
            } else if i == 6 && j == 19 {
                assert(c.call_premises@[6].key()[1] != c.call_premises@[19].key()[1]);
            } else if i == 6 && j == 20 {
                assert(c.call_premises@[6].key().len() != c.call_premises@[20].key().len());
            } else if i == 6 && j == 21 {
                assert(c.call_premises@[6].key().len() != c.call_premises@[21].key().len());
            } else if i == 6 && j == 22 {
                assert(c.call_premises@[6].key()[1] != c.call_premises@[22].key()[1]);
            } else if i == 7 && j == 8 {
                assert(c.call_premises@[7].key().len() != c.call_premises@[8].key().len());
            } else if i == 7 && j == 9 {
                assert(c.call_premises@[7].key().len() != c.call_premises@[9].key().len());
            } else if i == 7 && j == 10 {
                assert(c.call_premises@[7].key().len() != c.call_premises@[10].key().len());
            } else if i == 7 && j == 11 {
                assert(c.call_premises@[7].key()[1] != c.call_premises@[11].key()[1]);
            } else if i == 7 && j == 12 {
                assert(c.call_premises@[7].key().len() != c.call_premises@[12].key().len());
            } else if i == 7 && j == 13 {
                assert(c.call_premises@[7].key().len() != c.call_premises@[13].key().len());
            } else if i == 7 && j == 14 {
                assert(c.call_premises@[7].key().len() != c.call_premises@[14].key().len());
            } else if i == 7 && j == 15 {
                assert(c.call_premises@[7].key().len() != c.call_premises@[15].key().len());
            } else if i == 7 && j == 16 {
                assert(c.call_premises@[7].key().len() != c.call_premises@[16].key().len());
            } else if i == 7 && j == 17 {
                assert(c.call_premises@[7].key().len() != c.call_premises@[17].key().len());
            } else if i == 7 && j == 18 {
                assert(c.call_premises@[7].key()[0] != c.call_premises@[18].key()[0]);
            } else if i == 7 && j == 19 {
                assert(c.call_premises@[7].key().len() != c.call_premises@[19].key().len());
            } else if i == 7 && j == 20 {
                assert(c.call_premises@[7].key().len() != c.call_premises@[20].key().len());
            } else if i == 7 && j == 21 {
                assert(c.call_premises@[7].key().len() != c.call_premises@[21].key().len());
            } else if i == 7 && j == 22 {
                assert(c.call_premises@[7].key().len() != c.call_premises@[22].key().len());
            } else if i == 8 && j == 9 {
                assert(c.call_premises@[8].key().len() != c.call_premises@[9].key().len());
            } else if i == 8 && j == 10 {
                assert(c.call_premises@[8].key()[1] != c.call_premises@[10].key()[1]);
            } else if i == 8 && j == 11 {
                assert(c.call_premises@[8].key().len() != c.call_premises@[11].key().len());
            } else if i == 8 && j == 12 {
                assert(c.call_premises@[8].key().len() != c.call_premises@[12].key().len());
            } else if i == 8 && j == 13 {
                assert(c.call_premises@[8].key().len() != c.call_premises@[13].key().len());
            } else if i == 8 && j == 14 {
                assert(c.call_premises@[8].key().len() != c.call_premises@[14].key().len());
            } else if i == 8 && j == 15 {
                assert(c.call_premises@[8].key()[0] != c.call_premises@[15].key()[0]);
            } else if i == 8 && j == 16 {
                assert(c.call_premises@[8].key().len() != c.call_premises@[16].key().len());
            } else if i == 8 && j == 17 {
                assert(c.call_premises@[8].key()[0] != c.call_premises@[17].key()[0]);
            } else if i == 8 && j == 18 {
                assert(c.call_premises@[8].key().len() != c.call_premises@[18].key().len());
            } else if i == 8 && j == 19 {
                assert(c.call_premises@[8].key()[1] != c.call_premises@[19].key()[1]);
            } else if i == 8 && j == 20 {
                assert(c.call_premises@[8].key().len() != c.call_premises@[20].key().len());
            } else if i == 8 && j == 21 {
                assert(c.call_premises@[8].key().len() != c.call_premises@[21].key().len());
            } else if i == 8 && j == 22 {
                assert(c.call_premises@[8].key()[1] != c.call_premises@[22].key()[1]);
            } else if i == 9 && j == 10 {
                assert(c.call_premises@[9].key().len() != c.call_premises@[10].key().len());
            } else if i == 9 && j == 11 {
                assert(c.call_premises@[9].key().len() != c.call_premises@[11].key().len());
            } else if i == 9 && j == 12 {
                assert(c.call_premises@[9].key().len() != c.call_premises@[12].key().len());
            } else if i == 9 && j == 13 {
                assert(c.call_premises@[9].key()[0] != c.call_premises@[13].key()[0]);
            } else if i == 9 && j == 14 {
                assert(c.call_premises@[9].key()[1] != c.call_premises@[14].key()[1]);
            } else if i == 9 && j == 15 {
                assert(c.call_premises@[9].key().len() != c.call_premises@[15].key().len());
            } else if i == 9 && j == 16 {
                assert(c.call_premises@[9].key().len() != c.call_premises@[16].key().len());
            } else if i == 9 && j == 17 {
                assert(c.call_premises@[9].key().len() != c.call_premises@[17].key().len());
            } else if i == 9 && j == 18 {
                assert(c.call_premises@[9].key().len() != c.call_premises@[18].key().len());
            } else if i == 9 && j == 19 {
                assert(c.call_premises@[9].key().len() != c.call_premises@[19].key().len());
            } else if i == 9 && j == 20 {
                assert(c.call_premises@[9].key().len() != c.call_premises@[20].key().len());
            } else if i == 9 && j == 21 {
                assert(c.call_premises@[9].key().len() != c.call_premises@[21].key().len());
            } else if i == 9 && j == 22 {
                assert(c.call_premises@[9].key().len() != c.call_premises@[22].key().len());
            } else if i == 10 && j == 11 {
                assert(c.call_premises@[10].key().len() != c.call_premises@[11].key().len());
            } else if i == 10 && j == 12 {
                assert(c.call_premises@[10].key().len() != c.call_premises@[12].key().len());
            } else if i == 10 && j == 13 {
                assert(c.call_premises@[10].key().len() != c.call_premises@[13].key().len());
            } else if i == 10 && j == 14 {
                assert(c.call_premises@[10].key().len() != c.call_premises@[14].key().len());
            } else if i == 10 && j == 15 {
                assert(c.call_premises@[10].key()[0] != c.call_premises@[15].key()[0]);
            } else if i == 10 && j == 16 {
                assert(c.call_premises@[10].key().len() != c.call_premises@[16].key().len());
            } else if i == 10 && j == 17 {
                assert(c.call_premises@[10].key()[0] != c.call_premises@[17].key()[0]);
            } else if i == 10 && j == 18 {
                assert(c.call_premises@[10].key().len() != c.call_premises@[18].key().len());
            } else if i == 10 && j == 19 {
                assert(c.call_premises@[10].key()[1] != c.call_premises@[19].key()[1]);
            } else if i == 10 && j == 20 {
                assert(c.call_premises@[10].key().len() != c.call_premises@[20].key().len());
            } else if i == 10 && j == 21 {
                assert(c.call_premises@[10].key().len() != c.call_premises@[21].key().len());
            } else if i == 10 && j == 22 {
                assert(c.call_premises@[10].key()[1] != c.call_premises@[22].key()[1]);
            } else if i == 11 && j == 12 {
                assert(c.call_premises@[11].key().len() != c.call_premises@[12].key().len());
            } else if i == 11 && j == 13 {
                assert(c.call_premises@[11].key().len() != c.call_premises@[13].key().len());
            } else if i == 11 && j == 14 {
                assert(c.call_premises@[11].key().len() != c.call_premises@[14].key().len());
            } else if i == 11 && j == 15 {
                assert(c.call_premises@[11].key().len() != c.call_premises@[15].key().len());
            } else if i == 11 && j == 16 {
                assert(c.call_premises@[11].key().len() != c.call_premises@[16].key().len());
            } else if i == 11 && j == 17 {
                assert(c.call_premises@[11].key().len() != c.call_premises@[17].key().len());
            } else if i == 11 && j == 18 {
                assert(c.call_premises@[11].key()[0] != c.call_premises@[18].key()[0]);
            } else if i == 11 && j == 19 {
                assert(c.call_premises@[11].key().len() != c.call_premises@[19].key().len());
            } else if i == 11 && j == 20 {
                assert(c.call_premises@[11].key().len() != c.call_premises@[20].key().len());
            } else if i == 11 && j == 21 {
                assert(c.call_premises@[11].key().len() != c.call_premises@[21].key().len());
            } else if i == 11 && j == 22 {
                assert(c.call_premises@[11].key().len() != c.call_premises@[22].key().len());
            } else if i == 12 && j == 13 {
                assert(c.call_premises@[12].key().len() != c.call_premises@[13].key().len());
            } else if i == 12 && j == 14 {
                assert(c.call_premises@[12].key().len() != c.call_premises@[14].key().len());
            } else if i == 12 && j == 15 {
                assert(c.call_premises@[12].key().len() != c.call_premises@[15].key().len());
            } else if i == 12 && j == 16 {
                assert(c.call_premises@[12].key()[1] != c.call_premises@[16].key()[1]);
            } else if i == 12 && j == 17 {
                assert(c.call_premises@[12].key().len() != c.call_premises@[17].key().len());
            } else if i == 12 && j == 18 {
                assert(c.call_premises@[12].key().len() != c.call_premises@[18].key().len());
            } else if i == 12 && j == 19 {
                assert(c.call_premises@[12].key().len() != c.call_premises@[19].key().len());
            } else if i == 12 && j == 20 {
                assert(c.call_premises@[12].key()[1] != c.call_premises@[20].key()[1]);
            } else if i == 12 && j == 21 {
                assert(c.call_premises@[12].key()[1] != c.call_premises@[21].key()[1]);
            } else if i == 12 && j == 22 {
                assert(c.call_premises@[12].key().len() != c.call_premises@[22].key().len());
            } else if i == 13 && j == 14 {
                assert(c.call_premises@[13].key()[0] != c.call_premises@[14].key()[0]);
            } else if i == 13 && j == 15 {
                assert(c.call_premises@[13].key().len() != c.call_premises@[15].key().len());
            } else if i == 13 && j == 16 {
                assert(c.call_premises@[13].key().len() != c.call_premises@[16].key().len());
            } else if i == 13 && j == 17 {
                assert(c.call_premises@[13].key().len() != c.call_premises@[17].key().len());
            } else if i == 13 && j == 18 {
                assert(c.call_premises@[13].key().len() != c.call_premises@[18].key().len());
            } else if i == 13 && j == 19 {
                assert(c.call_premises@[13].key().len() != c.call_premises@[19].key().len());
            } else if i == 13 && j == 20 {
                assert(c.call_premises@[13].key().len() != c.call_premises@[20].key().len());
            } else if i == 13 && j == 21 {
                assert(c.call_premises@[13].key().len() != c.call_premises@[21].key().len());
            } else if i == 13 && j == 22 {
                assert(c.call_premises@[13].key().len() != c.call_premises@[22].key().len());
            } else if i == 14 && j == 15 {
                assert(c.call_premises@[14].key().len() != c.call_premises@[15].key().len());
            } else if i == 14 && j == 16 {
                assert(c.call_premises@[14].key().len() != c.call_premises@[16].key().len());
            } else if i == 14 && j == 17 {
                assert(c.call_premises@[14].key().len() != c.call_premises@[17].key().len());
            } else if i == 14 && j == 18 {
                assert(c.call_premises@[14].key().len() != c.call_premises@[18].key().len());
            } else if i == 14 && j == 19 {
                assert(c.call_premises@[14].key().len() != c.call_premises@[19].key().len());
            } else if i == 14 && j == 20 {
                assert(c.call_premises@[14].key().len() != c.call_premises@[20].key().len());
            } else if i == 14 && j == 21 {
                assert(c.call_premises@[14].key().len() != c.call_premises@[21].key().len());
            } else if i == 14 && j == 22 {
                assert(c.call_premises@[14].key().len() != c.call_premises@[22].key().len());
            } else if i == 15 && j == 16 {
                assert(c.call_premises@[15].key().len() != c.call_premises@[16].key().len());
            } else if i == 15 && j == 17 {
                assert(c.call_premises@[15].key()[1] != c.call_premises@[17].key()[1]);
            } else if i == 15 && j == 18 {
                assert(c.call_premises@[15].key().len() != c.call_premises@[18].key().len());
            } else if i == 15 && j == 19 {
                assert(c.call_premises@[15].key()[0] != c.call_premises@[19].key()[0]);
            } else if i == 15 && j == 20 {
                assert(c.call_premises@[15].key().len() != c.call_premises@[20].key().len());
            } else if i == 15 && j == 21 {
                assert(c.call_premises@[15].key().len() != c.call_premises@[21].key().len());
            } else if i == 15 && j == 22 {
                assert(c.call_premises@[15].key()[0] != c.call_premises@[22].key()[0]);
            } else if i == 16 && j == 17 {
                assert(c.call_premises@[16].key().len() != c.call_premises@[17].key().len());
            } else if i == 16 && j == 18 {
                assert(c.call_premises@[16].key().len() != c.call_premises@[18].key().len());
            } else if i == 16 && j == 19 {
                assert(c.call_premises@[16].key().len() != c.call_premises@[19].key().len());
            } else if i == 16 && j == 20 {
                assert(c.call_premises@[16].key()[2] != c.call_premises@[20].key()[2]);
            } else if i == 16 && j == 21 {
                assert(c.call_premises@[16].key()[2] != c.call_premises@[21].key()[2]);
            } else if i == 16 && j == 22 {
                assert(c.call_premises@[16].key().len() != c.call_premises@[22].key().len());
            } else if i == 17 && j == 18 {
                assert(c.call_premises@[17].key().len() != c.call_premises@[18].key().len());
            } else if i == 17 && j == 19 {
                assert(c.call_premises@[17].key()[0] != c.call_premises@[19].key()[0]);
            } else if i == 17 && j == 20 {
                assert(c.call_premises@[17].key().len() != c.call_premises@[20].key().len());
            } else if i == 17 && j == 21 {
                assert(c.call_premises@[17].key().len() != c.call_premises@[21].key().len());
            } else if i == 17 && j == 22 {
                assert(c.call_premises@[17].key()[0] != c.call_premises@[22].key()[0]);
            } else if i == 18 && j == 19 {
                assert(c.call_premises@[18].key().len() != c.call_premises@[19].key().len());
            } else if i == 18 && j == 20 {
                assert(c.call_premises@[18].key().len() != c.call_premises@[20].key().len());
            } else if i == 18 && j == 21 {
                assert(c.call_premises@[18].key().len() != c.call_premises@[21].key().len());
            } else if i == 18 && j == 22 {
                assert(c.call_premises@[18].key().len() != c.call_premises@[22].key().len());
            } else if i == 19 && j == 20 {
                assert(c.call_premises@[19].key().len() != c.call_premises@[20].key().len());
            } else if i == 19 && j == 21 {
                assert(c.call_premises@[19].key().len() != c.call_premises@[21].key().len());
            } else if i == 19 && j == 22 {
                assert(c.call_premises@[19].key()[2] != c.call_premises@[22].key()[2]);
            } else if i == 20 && j == 21 {
                assert(c.call_premises@[20].key()[2] != c.call_premises@[21].key()[2]);
            } else if i == 20 && j == 22 {
                assert(c.call_premises@[20].key().len() != c.call_premises@[22].key().len());
            } else if i == 21 && j == 22 {
                assert(c.call_premises@[21].key().len() != c.call_premises@[22].key().len());
            }
        }
    }
    assert(ids_ok(c.story_beats@)) by {
        assert forall|i: int| 0 <= i < 23 implies !is_blank((#[trigger] c.story_beats@[i]).key()) by {
            if i == 0 {
                assert(!is_white_space(c.story_beats@[0].key()[0]));
            } else if i == 1 {
                assert(!is_white_space(c.story_beats@[1].key()[0]));
            } else if i == 2 {
                assert(!is_white_space(c.story_beats@[2].key()[0]));
            } else if i == 3 {
                assert(!is_white_space(c.story_beats@[3].key()[0]));
            } else if i == 4 {
                assert(!is_white_space(c.story_beats@[4].key()[0]));
            } else if i == 5 {
                assert(!is_white_space(c.story_beats@[5].key()[0]));
            } else if i == 6 {
                assert(!is_white_space(c.story_beats@[6].key()[0]));
            } else if i == 7 {
                assert(!is_white_space(c.story_beats@[7].key()[0]));
            } else if i == 8 {
                assert(!is_white_space(c.story_beats@[8].key()[0]));
            } else if i == 9 {
                assert(!is_white_space(c.story_beats@[9].key()[0]));
            } else if i == 10 {
                assert(!is_white_space(c.story_beats@[10].key()[0]));
            } else if i == 11 {
                assert(!is_white_space(c.story_beats@[11].key()[0]));
            } else if i == 12 {
                assert(!is_white_space(c.story_beats@[12].key()[0]));
            } else if i == 13 {
                assert(!is_white_space(c.story_beats@[13].key()[0]));
            } else if i == 14 {
                assert(!is_white_space(c.story_beats@[14].key()[0]));
            } else if i == 15 {
                assert(!is_white_space(c.story_beats@[15].key()[0]));
            } else if i == 16 {
                assert(!is_white_space(c.story_beats@[16].key()[0]));
            } else if i == 17 {
                assert(!is_white_space(c.story_beats@[17].key()[0]));
            } else if i == 18 {
                assert(!is_white_space(c.story_beats@[18].key()[0]));
            } else if i == 19 {
                assert(!is_white_space(c.story_beats@[19].key()[0]));
            } else if i == 20 {
                assert(!is_white_space(c.story_beats@[20].key()[0]));
            } else if i == 21 {
                assert(!is_white_space(c.story_beats@[21].key()[0]));
            } else if i == 22 {
                assert(!is_white_space(c.story_beats@[22].key()[0]));
            }
        }
        assert forall|i: int, j: int| 0 <= i < j < 23 implies (#[trigger] c.story_beats@[i]).key() != (#[trigger] c.story_beats@[j]).key() by {
            if i == 0 && j == 1 {
                assert(c.story_beats@[0].key().len() != c.story_beats@[1].key().len());
            } else if i == 0 && j == 2 {
                assert(c.story_beats@[0].key()[3] != c.story_beats@[2].key()[3]);
            } else if i == 0 && j == 3 {
                assert(c.story_beats@[0].key().len() != c.story_beats@[3].key().len());
            } else if i == 0 && j == 4 {
                assert(c.story_beats@[0].key()[0] != c.story_beats@[4].key()[0]);
            } else if i == 0 && j == 5 {
                assert(c.story_beats@[0].key().len() != c.story_beats@[5].key().len());
            } else if i == 0 && j == 6 {
                assert(c.story_beats@[0].key().len() != c.story_beats@[6].key().len());
            } else if i == 0 && j == 7 {
                assert(c.story_beats@[0].key().len() != c.story_beats@[7].key().len());
            } else if i == 0 && j == 8 {
                assert(c.story_beats@[0].key().len() != c.story_beats@[8].key().len());
            } else if i == 0 && j == 9 {
                assert(c.story_beats@[0].key().len() != c.story_beats@[9].key().len());
            } else if i == 0 && j == 10 {
                assert(c.story_beats@[0].key().len() != c.story_beats@[10].key().len());
            } else if i == 0 && j == 11 {
                assert(c.story_beats@[0].key().len() != c.story_beats@[11].key().len());
            } else if i == 0 && j == 12 {
                assert(c.story_beats@[0].key()[0] != c.story_beats@[12].key()[0]);
            } else if i == 0 && j == 13 {
                assert(c.story_beats@[0].key().len() != c.story_beats@[13].key().len());
            } else if i == 0 && j == 14 {
                assert(c.story_beats@[0].key().len() != c.story_beats@[14].key().len());
            } else if i == 0 && j == 15 {
                assert(c.story_beats@[0].key().len() != c.story_beats@[15].key().len());
            } else if i == 0 && j == 16 {
                assert(c.story_beats@[0].key()[0] != c.story_beats@[16].key()[0]);
            } else if i == 0 && j == 17 {
                assert(c.story_beats@[0].key().len() != c.story_beats@[17].key().len());
            } else if i == 0 && j == 18 {
                assert(c.story_beats@[0].key().len() != c.story_beats@[18].key().len());
            } else if i == 0 && j == 19 {
                assert(c.story_beats@[0].key().len() != c.story_beats@[19].key().len());
            } else if i == 0 && j == 20 {
                assert(c.story_beats@[0].key()[0] != c.story_beats@[20].key()[0]);
            } else if i == 0 && j == 21 {
                assert(c.story_beats@[0].key()[0] != c.story_beats@[21].key()[0]);
            } else if i == 0 && j == 22 {
                assert(c.story_beats@[0].key().len() != c.story_beats@[22].key().len());
            } else if i == 1 && j == 2 {
                assert(c.story_beats@[1].key().len() != c.story_beats@[2].key().len());
            } else if i == 1 && j == 3 {
                assert(c.story_beats@[1].key()[1] != c.story_beats@[3].key()[1]);
            } else if i == 1 && j == 4 {
                assert(c.story_beats@[1].key().len() != c.story_beats@[4].key().len());
            } else if i == 1 && j == 5 {
                assert(c.story_beats@[1].key().len() != c.story_beats@[5].key().len());
            } else if i == 1 && j == 6 {
                assert(c.story_beats@[1].key()[1] != c.story_beats@[6].key()[1]);
            } else if i == 1 && j == 7 {
                assert(c.story_beats@[1].key().len() != c.story_beats@[7].key().len());
            } else if i == 1 && j == 8 {
                assert(c.story_beats@[1].key()[1] != c.story_beats@[8].key()[1]);
            } else if i == 1 && j == 9 {
                assert(c.story_beats@[1].key().len() != c.story_beats@[9].key().len());
            } else if i == 1 && j == 10 {
                assert(c.story_beats@[1].key()[1] != c.story_beats@[10].key()[1]);
            } else if i == 1 && j == 11 {
                assert(c.story_beats@[1].key().len() != c.story_beats@[11].key().len());
            } else if i == 1 && j == 12 {
                assert(c.story_beats@[1].key().len() != c.story_beats@[12].key().len());
            } else if i == 1 && j == 13 {
                assert(c.story_beats@[1].key().len() != c.story_beats@[13].key().len());
            } else if i == 1 && j == 14 {
                assert(c.story_beats@[1].key().len() != c.story_beats@[14].key().len());
            } else if i == 1 && j == 15 {
                assert(c.story_beats@[1].key()[0] != c.story_beats@[15].key()[0]);
            } else if i == 1 && j == 16 {
                assert(c.story_beats@[1].key().len() != c.story_beats@[16].key().len());
            } else if i == 1 && j == 17 {
                assert(c.story_beats@[1].key()[0] != c.story_beats@[17].key()[0]);
            } else if i == 1 && j == 18 {
                assert(c.story_beats@[1].key().len() != c.story_beats@[18].key().len());
            } else if i == 1 && j == 19 {
                assert(c.story_beats@[1].key()[2] != c.story_beats@[19].key()[2]);
            } else if i == 1 && j == 20 {
                assert(c.story_beats@[1].key().len() != c.story_beats@[20].key().len());
            } else if i == 1 && j == 21 {
                assert(c.story_beats@[1].key().len() != c.story_beats@[21].key().len());
            } else if i == 1 && j == 22 {
                assert(c.story_beats@[1].key()[2] != c.story_beats@[22].key()[2]);
            } else if i == 2 && j == 3 {
                assert(c.story_beats@[2].key().len() != c.story_beats@[3].key().len());
            } else if i == 2 && j == 4 {
                assert(c.story_beats@[2].key()[0] != c.story_beats@[4].key()[0]);
            } else if i == 2 && j == 5 {
                assert(c.story_beats@[2].key().len() != c.story_beats@[5].key().len());
            } else if i == 2 && j == 6 {
                assert(c.story_beats@[2].key().len() != c.story_beats@[6].key().len());
            } else if i == 2 && j == 7 {
                assert(c.story_beats@[2].key().len() != c.story_beats@[7].key().len());
            } else if i == 2 && j == 8 {
                assert(c.story_beats@[2].key().len() != c.story_beats@[8].key().len());
            } else if i == 2 && j == 9 {
                assert(c.story_beats@[2].key().len() != c.story_beats@[9].key().len());
            } else if i == 2 && j == 10 {
                assert(c.story_beats@[2].key().len() != c.story_beats@[10].key().len());
            } else if i == 2 && j == 11 {
                assert(c.story_beats@[2].key().len() != c.story_beats@[11].key().len());
            } else if i == 2 && j == 12 {
                assert(c.story_beats@[2].key()[0] != c.story_beats@[12].key()[0]);
            } else if i == 2 && j == 13 {
                assert(c.story_beats@[2].key().len() != c.story_beats@[13].key().len());
            } else if i == 2 && j == 14 {
                assert(c.story_beats@[2].key().len() != c.story_beats@[14].key().len());
            } else if i == 2 && j == 15 {
                assert(c.story_beats@[2].key().len() != c.story_beats@[15].key().len());
            } else if i == 2 && j == 16 {
                assert(c.story_beats@[2].key()[0] != c.story_beats@[16].key()[0]);
            } else if i == 2 && j == 17 {
                assert(c.story_beats@[2].key().len() != c.story_beats@[17].key().len());
            } else if i == 2 && j == 18 {
                assert(c.story_beats@[2].key().len() != c.story_beats@[18].key().len());
            } else if i == 2 && j == 19 {
                assert(c.story_beats@[2].key().len() != c.story_beats@[19].key().len());
            } else if i == 2 && j == 20 {
                assert(c.story_beats@[2].key()[0] != c.story_beats@[20].key()[0]);
            } else if i == 2 && j == 21 {
                assert(c.story_beats@[2].key()[0] != c.story_beats@[21].key()[0]);
            } else if i == 2 && j == 22 {
                assert(c.story_beats@[2].key().len() != c.story_beats@[22].key().len());
            } else if i == 3 && j == 4 {
                assert(c.story_beats@[3].key().len() != c.story_beats@[4].key().len());
            } else if i == 3 && j == 5 {
                assert(c.story_beats@[3].key().len() != c.story_beats@[5].key().len());
            } else if i == 3 && j == 6 {
                assert(c.story_beats@[3].key()[1] != c.story_beats@[6].key()[1]);
            } else if i == 3 && j == 7 {
                assert(c.story_beats@[3].key().len() != c.story_beats@[7].key().len());
            } else if i == 3 && j == 8 {
                assert(c.story_beats@[3].key()[1] != c.story_beats@[8].key()[1]);
            } else if i == 3 && j == 9 {
                assert(c.story_beats@[3].key().len() != c.story_beats@[9].key().len());
            } else if i == 3 && j == 10 {
                assert(c.story_beats@[3].key()[1] != c.story_beats@[10].key()[1]);
            } else if i == 3 && j == 11 {
                assert(c.story_beats@[3].key().len() != c.story_beats@[11].key().len());
            } else if i == 3 && j == 12 {
                assert(c.story_beats@[3].key().len() != c.story_beats@[12].key().len());
            } else if i == 3 && j == 13 {
                assert(c.story_beats@[3].key().len() != c.story_beats@[13].key().len());
            } else if i == 3 && j == 14 {
                assert(c.story_beats@[3].key().len() != c.story_beats@[14].key().len());
            } else if i == 3 && j == 15 {
                assert(c.story_beats@[3].key()[0] != c.story_beats@[15].key()[0]);
            } else if i == 3 && j == 16 {
                assert(c.story_beats@[3].key().len() != c.story_beats@[16].key().len());
            } else if i == 3 && j == 17 {
                assert(c.story_beats@[3].key()[0] != c.story_beats@[17].key()[0]);
            } else if i == 3 && j == 18 {
                assert(c.story_beats@[3].key().len() != c.story_beats@[18].key().len());
            } else if i == 3 && j == 19 {
                assert(c.story_beats@[3].key()[1] != c.story_beats@[19].key()[1]);
            } else if i == 3 && j == 20 {
                assert(c.story_beats@[3].key().len() != c.story_beats@[20].key().len());
            } else if i == 3 && j == 21 {
                assert(c.story_beats@[3].key().len() != c.story_beats@[21].key().len());
            } else if i == 3 && j == 22 {
                assert(c.story_beats@[3].key()[1] != c.story_beats@[22].key()[1]);
            } else if i == 4 && j == 5 {
                assert(c.story_beats@[4].key().len() != c.story_beats@[5].key().len());
            } else if i == 4 && j == 6 {
                assert(c.story_beats@[4].key().len() != c.story_beats@[6].key().len());
            } else if i == 4 && j == 7 {
                assert(c.story_beats@[4].key().len() != c.story_beats@[7].key().len());
            } else if i == 4 && j == 8 {
                assert(c.story_beats@[4].key().len() != c.story_beats@[8].key().len());
            } else if i == 4 && j == 9 {
                assert(c.story_beats@[4].key().len() != c.story_beats@[9].key().len());
            } else if i == 4 && j == 10 {
                assert(c.story_beats@[4].key().len() != c.story_beats@[10].key().len());
            } else if i == 4 && j == 11 {
                assert(c.story_beats@[4].key().len() != c.story_beats@[11].key().len());
            } else if i == 4 && j == 12 {
                assert(c.story_beats@[4].key()[1] != c.story_beats@[12].key()[1]);
            } else if i == 4 && j == 13 {
                assert(c.story_beats@[4].key().len() != c.story_beats@[13].key().len());
            } else if i == 4 && j == 14 {
                assert(c.story_beats@[4].key().len() != c.story_beats@[14].key().len());
            } else if i == 4 && j == 15 {
                assert(c.story_beats@[4].key().len() != c.story_beats@[15].key().len());
            } else if i == 4 && j == 16 {
                assert(c.story_beats@[4].key()[1] != c.story_beats@[16].key()[1]);
            } else if i == 4 && j == 17 {
                assert(c.story_beats@[4].key().len() != c.story_beats@[17].key().len());
            } else if i == 4 && j == 18 {
                assert(c.story_beats@[4].key().len() != c.story_beats@[18].key().len());
            } else if i == 4 && j == 19 {
                assert(c.story_beats@[4].key().len() != c.story_beats@[19].key().len());
            } else if i == 4 && j == 20 {
                assert(c.story_beats@[4].key()[1] != c.story_beats@[20].key()[1]);
            } else if i == 4 && j == 21 {
                assert(c.story_beats@[4].key()[1] != c.story_beats@[21].key()[1]);
            } else if i == 4 && j == 22 {
                assert(c.story_beats@[4].key().len() != c.story_beats@[22].key().len());
            } else if i == 5 && j == 6 {
                assert(c.story_beats@[5].key().len() != c.story_beats@[6].key().len());
            } else if i == 5 && j == 7 {
                assert(c.story_beats@[5].key().len() != c.story_beats@[7].key().len());
            } else if i == 5 && j == 8 {
                assert(c.story_beats@[5].key().len() != c.story_beats@[8].key().len());
            } else if i == 5 && j == 9 {
                assert(c.story_beats@[5].key()[0] != c.story_beats@[9].key()[0]);
            } else if i == 5 && j == 10 {
                assert(c.story_beats@[5].key().len() != c.story_beats@[10].key().len());
            } else if i == 5 && j == 11 {
                assert(c.story_beats@[5].key().len() != c.story_beats@[11].key().len());
            } else if i == 5 && j == 12 {
                assert(c.story_beats@[5].key().len() != c.story_beats@[12].key().len());
            } else if i == 5 && j == 13 {
                assert(c.story_beats@[5].key()[1] != c.story_beats@[13].key()[1]);
            } else if i == 5 && j == 14 {
                assert(c.story_beats@[5].key()[0] != c.story_beats@[14].key()[0]);
            } else if i == 5 && j == 15 {
                assert(c.story_beats@[5].key().len() != c.story_beats@[15].key().len());
            } else if i == 5 && j == 16 {
                assert(c.story_beats@[5].key().len() != c.story_beats@[16].key().len());
            } else if i == 5 && j == 17 {
                assert(c.story_beats@[5].key().len() != c.story_beats@[17].key().len());
            } else if i == 5 && j == 18 {
                assert(c.story_beats@[5].key().len() != c.story_beats@[18].key().len());
            } else if i == 5 && j == 19 {
                assert(c.story_beats@[5].key().len() != c.story_beats@[19].key().len());
            } else if i == 5 && j == 20 {
                assert(c.story_beats@[5].key().len() != c.story_beats@[20].key().len());
            } else if i == 5 && j == 21 {
                assert(c.story_beats@[5].key().len() != c.story_beats@[21].key().len());
            } else if i == 5 && j == 22 {
                assert(c.story_beats@[5].key().len() != c.story_beats@[22].key().len());
            } else if i == 6 && j == 7 {
                assert(c.story_beats@[6].key().len() != c.story_beats@[7].key().len());
            } else if i == 6 && j == 8 {
                assert(c.story_beats@[6].key()[1] != c.story_beats@[8].key()[1]);
            } else if i == 6 && j == 9 {
                assert(c.story_beats@[6].key().len() != c.story_beats@[9].key().len());
            } else if i == 6 && j == 10 {
                assert(c.story_beats@[6].key()[1] != c.story_beats@[10].key()[1]);
            } else if i == 6 && j == 11 {
                assert(c.story_beats@[6].key().len() != c.story_beats@[11].key().len());
            } else if i == 6 && j == 12 {
                assert(c.story_beats@[6].key().len() != c.story_beats@[12].key().len());
            } else if i == 6 && j == 13 {
                assert(c.story_beats@[6].key().len() != c.story_beats@[13].key().len());
            } else if i == 6 && j == 14 {
                assert(c.story_beats@[6].key().len() != c.story_beats@[14].key().len());
            } else if i == 6 && j == 15 {
                assert(c.story_beats@[6].key()[0] != c.story_beats@[15].key()[0]);
            } else if i == 6 && j == 16 {
                assert(c.story_beats@[6].key().len() != c.story_beats@[16].key().len());
            } else if i == 6 && j == 17 {
                assert(c.story_beats@[6].key()[0] != c.story_beats@[17].key()[0]);
            } else if i == 6 && j == 18 {
                assert(c.story_beats@[6].key().len() != c.story_beats@[18].key().len());
            } else if i == 6 && j == 19 {
                assert(c.story_beats@[6].key()[1] != c.story_beats@[19].key()[1]);
            } else if i == 6 && j == 20 {
                assert(c.story_beats@[6].key().len() != c.story_beats@[20].key().len());
            } else if i == 6 && j == 21 {
                assert(c.story_beats@[6].key().len() != c.story_beats@[21].key().len());
            } else if i == 6 && j == 22 {
                assert(c.story_beats@[6].key()[1] != c.story_beats@[22].key()[1]);
            } else if i == 7 && j == 8 {
                assert(c.story_beats@[7].key().len() != c.story_beats@[8].key().len());
            } else if i == 7 && j == 9 {
                assert(c.story_beats@[7].key().len() != c.story_beats@[9].key().len());
            } else if i == 7 && j == 10 {
                assert(c.story_beats@[7].key().len() != c.story_beats@[10].key().len());
            } else if i == 7 && j == 11 {
                assert(c.story_beats@[7].key()[1] != c.story_beats@[11].key()[1]);
            } else if i == 7 && j == 12 {
                assert(c.story_beats@[7].key().len() != c.story_beats@[12].key().len());
            } else if i == 7 && j == 13 {
                assert(c.story_beats@[7].key().len() != c.story_beats@[13].key().len());
            } else if i == 7 && j == 14 {
                assert(c.story_beats@[7].key().len() != c.story_beats@[14].key().len());
            } else if i == 7 && j == 15 {
                assert(c.story_beats@[7].key().len() != c.story_beats@[15].key().len());
            } else if i == 7 && j == 16 {
                assert(c.story_beats@[7].key().len() != c.story_beats@[16].key().len());
            } else if i == 7 && j == 17 {
                assert(c.story_beats@[7].key().len() != c.story_beats@[17].key().len());
            } else if i == 7 && j == 18 {
                assert(c.story_beats@[7].key()[0] != c.story_beats@[18].key()[0]);
            } else if i == 7 && j == 19 {
                assert(c.story_beats@[7].key().len() != c.story_beats@[19].key().len());
            } else if i == 7 && j == 20 {
                assert(c.story_beats@[7].key().len() != c.story_beats@[20].key().len());
            } else if i == 7 && j == 21 {
                assert(c.story_beats@[7].key().len() != c.story_beats@[21].key().len());
            } else if i == 7 && j == 22 {
                assert(c.story_beats@[7].key().len() != c.story_beats@[22].key().len());
            } else if i == 8 && j == 9 {
                assert(c.story_beats@[8].key().len() != c.story_beats@[9].key().len());
            } else if i == 8 && j == 10 {
                assert(c.story_beats@[8].key()[1] != c.story_beats@[10].key()[1]);
            } else if i == 8 && j == 11 {
                assert(c.story_beats@[8].key().len() != c.story_beats@[11].key().len());
            } else if i == 8 && j == 12 {
                assert(c.story_beats@[8].key().len() != c.story_beats@[12].key().len());
            } else if i == 8 && j == 13 {
                assert(c.story_beats@[8].key().len() != c.story_beats@[13].key().len());
            } else if i == 8 && j == 14 {
                assert(c.story_beats@[8].key().len() != c.story_beats@[14].key().len());
            } else if i == 8 && j == 15 {
                assert(c.story_beats@[8].key()[0] != c.story_beats@[15].key()[0]);
            } else if i == 8 && j == 16 {
                assert(c.story_beats@[8].key().len() != c.story_beats@[16].key().len());
            } else if i == 8 && j == 17 {
                assert(c.story_beats@[8].key()[0] != c.story_beats@[17].key()[0]);
            } else if i == 8 && j == 18 {
                assert(c.story_beats@[8].key().len() != c.story_beats@[18].key().len());
            } else if i == 8 && j == 19 {
                assert(c.story_beats@[8].key()[1] != c.story_beats@[19].key()[1]);
            } else if i == 8 && j == 20 {
                assert(c.story_beats@[8].key().len() != c.story_beats@[20].key().len());
            } else if i == 8 && j == 21 {
                assert(c.story_beats@[8].key().len() != c.story_beats@[21].key().len());
            } else if i == 8 && j == 22 {
                assert(c.story_beats@[8].key()[1] != c.story_beats@[22].key()[1]);
            } else if i == 9 && j == 10 {
                assert(c.story_beats@[9].key().len() != c.story_beats@[10].key().len());
            } else if i == 9 && j == 11 {
                assert(c.story_beats@[9].key().len() != c.story_beats@[11].key().len());
            } else if i == 9 && j == 12 {
                assert(c.story_beats@[9].key().len() != c.story_beats@[12].key().len());
            } else if i == 9 && j == 13 {
                assert(c.story_beats@[9].key()[0] != c.story_beats@[13].key()[0]);
            } else if i == 9 && j == 14 {
                assert(c.story_beats@[9].key()[1] != c.story_beats@[14].key()[1]);
            } else if i == 9 && j == 15 {
                assert(c.story_beats@[9].key().len() != c.story_beats@[15].key().len());
            } else if i == 9 && j == 16 {
                assert(c.story_beats@[9].key().len() != c.story_beats@[16].key().len());
            } else if i == 9 && j == 17 {
                assert(c.story_beats@[9].key().len() != c.story_beats@[17].key().len());
            } else if i == 9 && j == 18 {
                assert(c.story_beats@[9].key().len() != c.story_beats@[18].key().len());
            } else if i == 9 && j == 19 {
                assert(c.story_beats@[9].key().len() != c.story_beats@[19].key().len());
            } else if i == 9 && j == 20 {
                assert(c.story_beats@[9].key().len() != c.story_beats@[20].key().len());
            } else if i == 9 && j == 21 {
                assert(c.story_beats@[9].key().len() != c.story_beats@[21].key().len());
            } else if i == 9 && j == 22 {
                assert(c.story_beats@[9].key().len() != c.story_beats@[22].key().len());
            } else if i == 10 && j == 11 {
                assert(c.story_beats@[10].key().len() != c.story_beats@[11].key().len());
            } else if i == 10 && j == 12 {
                assert(c.story_beats@[10].key().len() != c.story_beats@[12].key().len());
            } else if i == 10 && j == 13 {
                assert(c.story_beats@[10].key().len() != c.story_beats@[13].key().len());
            } else if i == 10 && j == 14 {
                assert(c.story_beats@[10].key().len() != c.story_beats@[14].key().len());
            } else if i == 10 && j == 15 {
                assert(c.story_beats@[10].key()[0] != c.story_beats@[15].key()[0]);
            } else if i == 10 && j == 16 {
                assert(c.story_beats@[10].key().len() != c.story_beats@[16].key().len());
            } else if i == 10 && j == 17 {
                assert(c.story_beats@[10].key()[0] != c.story_beats@[17].key()[0]);
            } else if i == 10 && j == 18 {
                assert(c.story_beats@[10].key().len() != c.story_beats@[18].key().len());
            } else if i == 10 && j == 19 {
                assert(c.story_beats@[10].key()[1] != c.story_beats@[19].key()[1]);
            } else if i == 10 && j == 20 {
                assert(c.story_beats@[10].key().len() != c.story_beats@[20].key().len());
            } else if i == 10 && j == 21 {
                assert(c.story_beats@[10].key().len() != c.story_beats@[21].key().len());
            } else if i == 10 && j == 22 {
                assert(c.story_beats@[10].key()[1] != c.story_beats@[22].key()[1]);
            } else if i == 11 && j == 12 {
                assert(c.story_beats@[11].key().len() != c.story_beats@[12].key().len());
            } else if i == 11 && j == 13 {
                assert(c.story_beats@[11].key().len() != c.story_beats@[13].key().len());
            } else if i == 11 && j == 14 {
                assert(c.story_beats@[11].key().len() != c.story_beats@[14].key().len());
            } else if i == 11 && j == 15 {
                assert(c.story_beats@[11].key().len() != c.story_beats@[15].key().len());
            } else if i == 11 && j == 16 {
                assert(c.story_beats@[11].key().len() != c.story_beats@[16].key().len());
            } else if i == 11 && j == 17 {
                assert(c.story_beats@[11].key().len() != c.story_beats@[17].key().len());
            } else if i == 11 && j == 18 {
                assert(c.story_beats@[11].key()[0] != c.story_beats@[18].key()[0]);
            } else if i == 11 && j == 19 {
                assert(c.story_beats@[11].key().len() != c.story_beats@[19].key().len());
            } else if i == 11 && j == 20 {
                assert(c.story_beats@[11].key().len() != c.story_beats@[20].key().len());
            } else if i == 11 && j == 21 {
                assert(c.story_beats@[11].key().len() != c.story_beats@[21].key().len());
            } else if i == 11 && j == 22 {
                assert(c.story_beats@[11].key().len() != c.story_beats@[22].key().len());
            } else if i == 12 && j == 13 {
                assert(c.story_beats@[12].key().len() != c.story_beats@[13].key().len());
            } else if i == 12 && j == 14 {
                assert(c.story_beats@[12].key().len() != c.story_beats@[14].key().len());
            } else if i == 12 && j == 15 {
                assert(c.story_beats@[12].key().len() != c.story_beats@[15].key().len());
            } else if i == 12 && j == 16 {
                assert(c.story_beats@[12].key()[1] != c.story_beats@[16].key()[1]);
            } else if i == 12 && j == 17 {
                assert(c.story_beats@[12].key().len() != c.story_beats@[17].key().len());
            } else if i == 12 && j == 18 {
                assert(c.story_beats@[12].key().len() != c.story_beats@[18].key().len());
            } else if i == 12 && j == 19 {
                assert(c.story_beats@[12].key().len() != c.story_beats@[19].key().len());
            } else if i == 12 && j == 20 {
                assert(c.story_beats@[12].key()[1] != c.story_beats@[20].key()[1]);
            } else if i == 12 && j == 21 {
                assert(c.story_beats@[12].key()[1] != c.story_beats@[21].key()[1]);
            } else if i == 12 && j == 22 {
                assert(c.story_beats@[12].key().len() != c.story_beats@[22].key().len());
            } else if i == 13 && j == 14 {
                assert(c.story_beats@[13].key()[0] != c.story_beats@[14].key()[0]);
            } else if i == 13 && j == 15 {
                assert(c.story_beats@[13].key().len() != c.story_beats@[15].key().len());
            } else if i == 13 && j == 16 {
                assert(c.story_beats@[13].key().len() != c.story_beats@[16].key().len());
            } else if i == 13 && j == 17 {
                assert(c.story_beats@[13].key().len() != c.story_beats@[17].key().len());
            } else if i == 13 && j == 18 {
                assert(c.story_beats@[13].key().len() != c.story_beats@[18].key().len());
            } else if i == 13 && j == 19 {
                assert(c.story_beats@[13].key().len() != c.story_beats@[19].key().len());
            } else if i == 13 && j == 20 {
                assert(c.story_beats@[13].key().len() != c.story_beats@[20].key().len());
            } else if i == 13 && j == 21 {
                assert(c.story_beats@[13].key().len() != c.story_beats@[21].key().len());
            } else if i == 13 && j == 22 {
                assert(c.story_beats@[13].key().len() != c.story_beats@[22].key().len());
            } else if i == 14 && j == 15 {
                assert(c.story_beats@[14].key().len() != c.story_beats@[15].key().len());
            } else if i == 14 && j == 16 {
                assert(c.story_beats@[14].key().len() != c.story_beats@[16].key().len());
            } else if i == 14 && j == 17 {
                assert(c.story_beats@[14].key().len() != c.story_beats@[17].key().len());
            } else if i == 14 && j == 18 {
                assert(c.story_beats@[14].key().len() != c.story_beats@[18].key().len());
            } else if i == 14 && j == 19 {
                assert(c.story_beats@[14].key().len() != c.story_beats@[19].key().len());
            } else if i == 14 && j == 20 {
                assert(c.story_beats@[14].key().len() != c.story_beats@[20].key().len());
            } else if i == 14 && j == 21 {
                assert(c.story_beats@[14].key().len() != c.story_beats@[21].key().len());
            } else if i == 14 && j == 22 {
                assert(c.story_beats@[14].key().len() != c.story_beats@[22].key().len());
            } else if i == 15 && j == 16 {
                assert(c.story_beats@[15].key().len() != c.story_beats@[16].key().len());
            } else if i == 15 && j == 17 {
                assert(c.story_beats@[15].key()[1] != c.story_beats@[17].key()[1]);
            } else if i == 15 && j == 18 {
                assert(c.story_beats@[15].key().len() != c.story_beats@[18].key().len());
            } else if i == 15 && j == 19 {
                assert(c.story_beats@[15].key()[0] != c.story_beats@[19].key()[0]);
            } else if i == 15 && j == 20 {
                assert(c.story_beats@[15].key().len() != c.story_beats@[20].key().len());
            } else if i == 15 && j == 21 {
                assert(c.story_beats@[15].key().len() != c.story_beats@[21].key().len());
            } else if i == 15 && j == 22 {
                assert(c.story_beats@[15].key()[0] != c.story_beats@[22].key()[0]);
            } else if i == 16 && j == 17 {
                assert(c.story_beats@[16].key().len() != c.story_beats@[17].key().len());
            } else if i == 16 && j == 18 {
                assert(c.story_beats@[16].key().len() != c.story_beats@[18].key().len());
            } else if i == 16 && j == 19 {
                assert(c.story_beats@[16].key().len() != c.story_beats@[19].key().len());
            } else if i == 16 && j == 20 {
                assert(c.story_beats@[16].key()[2] != c.story_beats@[20].key()[2]);
            } else if i == 16 && j == 21 {
                assert(c.story_beats@[16].key()[2] != c.story_beats@[21].key()[2]);
            } else if i == 16 && j == 22 {
                assert(c.story_beats@[16].key().len() != c.story_beats@[22].key().len());
            } else if i == 17 && j == 18 {
                assert(c.story_beats@[17].key().len() != c.story_beats@[18].key().len());
            } else if i == 17 && j == 19 {
                assert(c.story_beats@[17].key()[0] != c.story_beats@[19].key()[0]);
            } else if i == 17 && j == 20 {
                assert(c.story_beats@[17].key().len() != c.story_beats@[20].key().len());
            } else if i == 17 && j == 21 {
                assert(c.story_beats@[17].key().len() != c.story_beats@[21].key().len());
            } else if i == 17 && j == 22 {
                assert(c.story_beats@[17].key()[0] != c.story_beats@[22].key()[0]);
            } else if i == 18 && j == 19 {
                assert(c.story_beats@[18].key().len() != c.story_beats@[19].key().len());
            } else if i == 18 && j == 20 {
                assert(c.story_beats@[18].key().len() != c.story_beats@[20].key().len());
            } else if i == 18 && j == 21 {
                assert(c.story_beats@[18].key().len() != c.story_beats@[21].key().len());
            } else if i == 18 && j == 22 {
                assert(c.story_beats@[18].key().len() != c.story_beats@[22].key().len());
            } else if i == 19 && j == 20 {
                assert(c.story_beats@[19].key().len() != c.story_beats@[20].key().len());
            } else if i == 19 && j == 21 {
                assert(c.story_beats@[19].key().len() != c.story_beats@[21].key().len());
            } else if i == 19 && j == 22 {
                assert(c.story_beats@[19].key()[2] != c.story_beats@[22].key()[2]);
            } else if i == 20 && j == 21 {
                assert(c.story_beats@[20].key()[2] != c.story_beats@[21].key()[2]);
            } else if i == 20 && j == 22 {
                assert(c.story_beats@[20].key().len() != c.story_beats@[22].key().len());
            } else if i == 21 && j == 22 {
                assert(c.story_beats@[21].key().len() != c.story_beats@[22].key().len());
            }
        }
    }
    assert(ids_ok(c.story_events@)) by {
        assert forall|i: int| 0 <= i < 78 implies !is_blank((#[trigger] c.story_events@[i]).key()) by {
            if i == 0 {
                assert(!is_white_space(c.story_events@[0].key()[0]));
            } else if i == 1 {
                assert(!is_white_space(c.story_events@[1].key()[0]));
            } else if i == 2 {
                assert(!is_white_space(c.story_events@[2].key()[0]));
            } else if i == 3 {
                assert(!is_white_space(c.story_events@[3].key()[0]));
            } else if i == 4 {
                assert(!is_white_space(c.story_events@[4].key()[0]));
            } else if i == 5 {
                assert(!is_white_space(c.story_events@[5].key()[0]));
            } else if i == 6 {
                assert(!is_white_space(c.story_events@[6].key()[0]));
            } else if i == 7 {
                assert(!is_white_space(c.story_events@[7].key()[0]));
            } else if i == 8 {
                assert(!is_white_space(c.story_events@[8].key()[0]));
            } else if i == 9 {
                assert(!is_white_space(c.story_events@[9].key()[0]));
            } else if i == 10 {
                assert(!is_white_space(c.story_events@[10].key()[0]));
            } else if i == 11 {
                assert(!is_white_space(c.story_events@[11].key()[0]));
            } else if i == 12 {
                assert(!is_white_space(c.story_events@[12].key()[0]));
            } else if i == 13 {
                assert(!is_white_space(c.story_events@[13].key()[0]));
            } else if i == 14 {
                assert(!is_white_space(c.story_events@[14].key()[0]));
            } else if i == 15 {
                assert(!is_white_space(c.story_events@[15].key()[0]));
            } else if i == 16 {
                assert(!is_white_space(c.story_events@[16].key()[0]));
            } else if i == 17 {
                assert(!is_white_space(c.story_events@[17].key()[0]));
            } else if i == 18 {
                assert(!is_white_space(c.story_events@[18].key()[0]));
            } else if i == 19 {
                assert(!is_white_space(c.story_events@[19].key()[0]));
            } else if i == 20 {
                assert(!is_white_space(c.story_events@[20].key()[0]));
            } else if i == 21 {
                assert(!is_white_space(c.story_events@[21].key()[0]));
            } else if i == 22 {
                assert(!is_white_space(c.story_events@[22].key()[0]));
            } else if i == 23 {
                assert(!is_white_space(c.story_events@[23].key()[0]));
            } else if i == 24 {
                assert(!is_white_space(c.story_events@[24].key()[0]));
            } else if i == 25 {
                assert(!is_white_space(c.story_events@[25].key()[0]));
            } else if i == 26 {
                assert(!is_white_space(c.story_events@[26].key()[0]));
            } else if i == 27 {
                assert(!is_white_space(c.story_events@[27].key()[0]));
            } else if i == 28 {
                assert(!is_white_space(c.story_events@[28].key()[0]));
            } else if i == 29 {
                assert(!is_white_space(c.story_events@[29].key()[0]));
            } else if i == 30 {
                assert(!is_white_space(c.story_events@[30].key()[0]));
            } else if i == 31 {
                assert(!is_white_space(c.story_events@[31].key()[0]));
            } else if i == 32 {
                assert(!is_white_space(c.story_events@[32].key()[0]));
            } else if i == 33 {
                assert(!is_white_space(c.story_events@[33].key()[0]));
            } else if i == 34 {
                assert(!is_white_space(c.story_events@[34].key()[0]));
            } else if i == 35 {
                assert(!is_white_space(c.story_events@[35].key()[0]));
            } else if i == 36 {
                assert(!is_white_space(c.story_events@[36].key()[0]));
            } else if i == 37 {
                assert(!is_white_space(c.story_events@[37].key()[0]));
            } else if i == 38 {
                assert(!is_white_space(c.story_events@[38].key()[0]));
            } else if i == 39 {
                assert(!is_white_space(c.story_events@[39].key()[0]));
            } else if i == 40 {
                assert(!is_white_space(c.story_events@[40].key()[0]));
            } else if i == 41 {
                assert(!is_white_space(c.story_events@[41].key()[0]));
            } else if i == 42 {
                assert(!is_white_space(c.story_events@[42].key()[0]));
            } else if i == 43 {
                assert(!is_white_space(c.story_events@[43].key()[0]));
            } else if i == 44 {
                assert(!is_white_space(c.story_events@[44].key()[0]));
            } else if i == 45 {
                assert(!is_white_space(c.story_events@[45].key()[0]));
            } else if i == 46 {
                assert(!is_white_space(c.story_events@[46].key()[0]));
            } else if i == 47 {
                assert(!is_white_space(c.story_events@[47].key()[0]));
            } else if i == 48 {
                assert(!is_white_space(c.story_events@[48].key()[0]));
            } else if i == 49 {
                assert(!is_white_space(c.story_events@[49].key()[0]));
            } else if i == 50 {
                assert(!is_white_space(c.story_events@[50].key()[0]));
            } else if i == 51 {
                assert(!is_white_space(c.story_events@[51].key()[0]));
            } else if i == 52 {
                assert(!is_white_space(c.story_events@[52].key()[0]));
            } else if i == 53 {
                assert(!is_white_space(c.story_events@[53].key()[0]));
            } else if i == 54 {
                assert(!is_white_space(c.story_events@[54].key()[0]));
            } else if i == 55 {
                assert(!is_white_space(c.story_events@[55].key()[0]));
            } else if i == 56 {
                assert(!is_white_space(c.story_events@[56].key()[0]));
            } else if i == 57 {
                assert(!is_white_space(c.story_events@[57].key()[0]));
            } else if i == 58 {
                assert(!is_white_space(c.story_events@[58].key()[0]));
            } else if i == 59 {
                assert(!is_white_space(c.story_events@[59].key()[0]));
            } else if i == 60 {
                assert(!is_white_space(c.story_events@[60].key()[0]));
            } else if i == 61 {
                assert(!is_white_space(c.story_events@[61].key()[0]));
            } else if i == 62 {
                assert(!is_white_space(c.story_events@[62].key()[0]));
            } else if i == 63 {
                assert(!is_white_space(c.story_events@[63].key()[0]));
            } else if i == 64 {
                assert(!is_white_space(c.story_events@[64].key()[0]));
            } else if i == 65 {
                assert(!is_white_space(c.story_events@[65].key()[0]));
            } else if i == 66 {
                assert(!is_white_space(c.story_events@[66].key()[0]));
            } else if i == 67 {
                assert(!is_white_space(c.story_events@[67].key()[0]));
            } else if i == 68 {
                assert(!is_white_space(c.story_events@[68].key()[0]));
            } else if i == 69 {
                assert(!is_white_space(c.story_events@[69].key()[0]));
            } else if i == 70 {
                assert(!is_white_space(c.story_events@[70].key()[0]));
            } else if i == 71 {
                assert(!is_white_space(c.story_events@[71].key()[0]));
            } else if i == 72 {
                assert(!is_white_space(c.story_events@[72].key()[0]));
            } else if i == 73 {
                assert(!is_white_space(c.story_events@[73].key()[0]));
            } else if i == 74 {
                assert(!is_white_space(c.story_events@[74].key()[0]));
            } else if i == 75 {
                assert(!is_white_space(c.story_events@[75].key()[0]));
            } else if i == 76 {
                assert(!is_white_space(c.story_events@[76].key()[0]));
            } else if i == 77 {
                assert(!is_white_space(c.story_events@[77].key()[0]));
            }
        }
        let perm = |k: int| if k == 0 { 50 } else if k == 1 { 49 } else if k == 2 { 48 } else if k == 3 { 56 } else if k == 4 { 55 } else if k == 5 { 54 } else if k == 6 { 59 } else if k == 7 { 58 } else if k == 8 { 57 } else if k == 9 { 62 } else if k == 10 { 61 } else if k == 11 { 60 } else if k == 12 { 65 } else if k == 13 { 64 } else if k == 14 { 63 } else if k == 15 { 71 } else if k == 16 { 70 } else if k == 17 { 69 } else if k == 18 { 77 } else if k == 19 { 76 } else if k == 20 { 75 } else if k == 21 { 74 } else if k == 22 { 73 } else if k == 23 { 72 } else if k == 24 { 68 } else if k == 25 { 67 } else if k == 26 { 66 } else if k == 27 { 5 } else if k == 28 { 4 } else if k == 29 { 3 } else if k == 30 { 11 } else if k == 31 { 10 } else if k == 32 { 9 } else if k == 33 { 14 } else if k == 34 { 13 } else if k == 35 { 12 } else if k == 36 { 20 } else if k == 37 { 19 } else if k == 38 { 18 } else if k == 39 { 26 } else if k == 40 { 25 } else if k == 41 { 24 } else if k == 42 { 29 } else if k == 43 { 28 } else if k == 44 { 27 } else if k == 45 { 32 } else if k == 46 { 31 } else if k == 47 { 30 } else if k == 48 { 38 } else if k == 49 { 37 } else if k == 50 { 36 } else if k == 51 { 44 } else if k == 52 { 43 } else if k == 53 { 42 } else if k == 54 { 2 } else if k == 55 { 1 } else if k == 56 { 0 } else if k == 57 { 8 } else if k == 58 { 7 } else if k == 59 { 6 } else if k == 60 { 23 } else if k == 61 { 22 } else if k == 62 { 21 } else if k == 63 { 17 } else if k == 64 { 16 } else if k == 65 { 15 } else if k == 66 { 35 } else if k == 67 { 34 } else if k == 68 { 33 } else if k == 69 { 47 } else if k == 70 { 46 } else if k == 71 { 45 } else if k == 72 { 41 } else if k == 73 { 40 } else if k == 74 { 39 } else if k == 75 { 53 } else if k == 76 { 52 } else { 51 };
        let place = |k: int| if k == 0 { 56 } else if k == 1 { 55 } else if k == 2 { 54 } else if k == 3 { 29 } else if k == 4 { 28 } else if k == 5 { 27 } else if k == 6 { 59 } else if k == 7 { 58 } else if k == 8 { 57 } else if k == 9 { 32 } else if k == 10 { 31 } else if k == 11 { 30 } else if k == 12 { 35 } else if k == 13 { 34 } else if k == 14 { 33 } else if k == 15 { 65 } else if k == 16 { 64 } else if k == 17 { 63 } else if k == 18 { 38 } else if k == 19 { 37 } else if k == 20 { 36 } else if k == 21 { 62 } else if k == 22 { 61 } else if k == 23 { 60 } else if k == 24 { 41 } else if k == 25 { 40 } else if k == 26 { 39 } else if k == 27 { 44 } else if k == 28 { 43 } else if k == 29 { 42 } else if k == 30 { 47 } else if k == 31 { 46 } else if k == 32 { 45 } else if k == 33 { 68 } else if k == 34 { 67 } else if k == 35 { 66 } else if k == 36 { 50 } else if k == 37 { 49 } else if k == 38 { 48 } else if k == 39 { 74 } else if k == 40 { 73 } else if k == 41 { 72 } else if k == 42 { 53 } else if k == 43 { 52 } else if k == 44 { 51 } else if k == 45 { 71 } else if k == 46 { 70 } else if k == 47 { 69 } else if k == 48 { 2 } else if k == 49 { 1 } else if k == 50 { 0 } else if k == 51 { 77 } else if k == 52 { 76 } else if k == 53 { 75 } else if k == 54 { 5 } else if k == 55 { 4 } else if k == 56 { 3 } else if k == 57 { 8 } else if k == 58 { 7 } else if k == 59 { 6 } else if k == 60 { 11 } else if k == 61 { 10 } else if k == 62 { 9 } else if k == 63 { 14 } else if k == 64 { 13 } else if k == 65 { 12 } else if k == 66 { 26 } else if k == 67 { 25 } else if k == 68 { 24 } else if k == 69 { 17 } else if k == 70 { 16 } else if k == 71 { 15 } else if k == 72 { 23 } else if k == 73 { 22 } else if k == 74 { 21 } else if k == 75 { 20 } else if k == 76 { 19 } else { 18 };
        assert forall|i: int| 0 <= i < 78 implies 0 <= #[trigger] place(i) < 78 && perm(place(i)) == i by {
            if i == 0 {
            } else if i == 1 {
            } else if i == 2 {
            } else if i == 3 {
            } else if i == 4 {
            } else if i == 5 {
            } else if i == 6 {
            } else if i == 7 {
            } else if i == 8 {
            } else if i == 9 {
            } else if i == 10 {
            } else if i == 11 {
            } else if i == 12 {
            } else if i == 13 {
            } else if i == 14 {
            } else if i == 15 {
            } else if i == 16 {
            } else if i == 17 {
            } else if i == 18 {
            } else if i == 19 {
            } else if i == 20 {
            } else if i == 21 {
            } else if i == 22 {
            } else if i == 23 {
            } else if i == 24 {
            } else if i == 25 {
            } else if i == 26 {
            } else if i == 27 {
            } else if i == 28 {
            } else if i == 29 {
            } else if i == 30 {
            } else if i == 31 {
            } else if i == 32 {
            } else if i == 33 {
            } else if i == 34 {
            } else if i == 35 {
            } else if i == 36 {
            } else if i == 37 {
            } else if i == 38 {
            } else if i == 39 {
            } else if i == 40 {
            } else if i == 41 {
            } else if i == 42 {
            } else if i == 43 {
            } else if i == 44 {
            } else if i == 45 {
            } else if i == 46 {
            } else if i == 47 {
            } else if i == 48 {
            } else if i == 49 {
            } else if i == 50 {
            } else if i == 51 {
            } else if i == 52 {
            } else if i == 53 {
            } else if i == 54 {
            } else if i == 55 {
            } else if i == 56 {
            } else if i == 57 {
            } else if i == 58 {
            } else if i == 59 {
            } else if i == 60 {
            } else if i == 61 {
            } else if i == 62 {
            } else if i == 63 {
            } else if i == 64 {
            } else if i == 65 {
            } else if i == 66 {
            } else if i == 67 {
            } else if i == 68 {
            } else if i == 69 {
            } else if i == 70 {
            } else if i == 71 {
            } else if i == 72 {
            } else if i == 73 {
            } else if i == 74 {
            } else if i == 75 {
            } else if i == 76 {
            } else if i == 77 {
            }
        }
        assert forall|k: int| 0 <= k < 77 implies text_less(c.story_events@[#[trigger] perm(k)].key(), c.story_events@[perm(k + 1)].key()) by {
            if k == 0 {
                reveal_with_fuel(text_less, 12);
            } else if k == 1 {
                reveal_with_fuel(text_less, 12);
            } else if k == 2 {
                reveal_with_fuel(text_less, 4);
            } else if k == 3 {
                reveal_with_fuel(text_less, 7);
            } else if k == 4 {
                reveal_with_fuel(text_less, 7);
            } else if k == 5 {
                reveal_with_fuel(text_less, 5);
            } else if k == 6 {
                reveal_with_fuel(text_less, 7);
            } else if k == 7 {
                reveal_with_fuel(text_less, 7);
            } else if k == 8 {
                reveal_with_fuel(text_less, 4);
            } else if k == 9 {
                reveal_with_fuel(text_less, 6);
            } else if k == 10 {
                reveal_with_fuel(text_less, 6);
            } else if k == 11 {
                reveal_with_fuel(text_less, 4);
            } else if k == 12 {
                reveal_with_fuel(text_less, 6);
            } else if k == 13 {
                reveal_with_fuel(text_less, 6);
            } else if k == 14 {
                reveal_with_fuel(text_less, 4);
            } else if k == 15 {
                reveal_with_fuel(text_less, 7);
            } else if k == 16 {
                reveal_with_fuel(text_less, 7);
            } else if k == 17 {
                reveal_with_fuel(text_less, 5);
            } else if k == 18 {
                reveal_with_fuel(text_less, 7);
            } else if k == 19 {
                reveal_with_fuel(text_less, 7);
            } else if k == 20 {
                reveal_with_fuel(text_less, 5);
            } else if k == 21 {
                reveal_with_fuel(text_less, 7);
            } else if k == 22 {
                reveal_with_fuel(text_less, 7);
            } else if k == 23 {
                reveal_with_fuel(text_less, 5);
            } else if k == 24 {
                reveal_with_fuel(text_less, 7);
            } else if k == 25 {
                reveal_with_fuel(text_less, 7);
            } else if k == 26 {
                reveal_with_fuel(text_less, 4);
            } else if k == 27 {
                reveal_with_fuel(text_less, 11);
            } else if k == 28 {
                reveal_with_fuel(text_less, 11);
            } else if k == 29 {
                reveal_with_fuel(text_less, 3);
            } else if k == 30 {
                reveal_with_fuel(text_less, 11);
            } else if k == 31 {
                reveal_with_fuel(text_less, 11);
            } else if k == 32 {
                reveal_with_fuel(text_less, 3);
            } else if k == 33 {
                reveal_with_fuel(text_less, 12);
            } else if k == 34 {
                reveal_with_fuel(text_less, 12);
            } else if k == 35 {
                reveal_with_fuel(text_less, 3);
            } else if k == 36 {
                reveal_with_fuel(text_less, 11);
            } else if k == 37 {
                reveal_with_fuel(text_less, 11);
            } else if k == 38 {
                reveal_with_fuel(text_less, 3);
            } else if k == 39 {
                reveal_with_fuel(text_less, 11);
            } else if k == 40 {
                reveal_with_fuel(text_less, 11);
            } else if k == 41 {
                reveal_with_fuel(text_less, 3);
            } else if k == 42 {
                reveal_with_fuel(text_less, 10);
            } else if k == 43 {
                reveal_with_fuel(text_less, 10);
            } else if k == 44 {
                reveal_with_fuel(text_less, 3);
            } else if k == 45 {
                reveal_with_fuel(text_less, 11);
            } else if k == 46 {
                reveal_with_fuel(text_less, 11);
            } else if k == 47 {
                reveal_with_fuel(text_less, 3);
            } else if k == 48 {
                reveal_with_fuel(text_less, 12);
            } else if k == 49 {
                reveal_with_fuel(text_less, 12);
            } else if k == 50 {
                reveal_with_fuel(text_less, 3);
            } else if k == 51 {
                reveal_with_fuel(text_less, 10);
            } else if k == 52 {
                reveal_with_fuel(text_less, 10);
            } else if k == 53 {
                reveal_with_fuel(text_less, 2);
            } else if k == 54 {
                reveal_with_fuel(text_less, 12);
            } else if k == 55 {
                reveal_with_fuel(text_less, 12);
            } else if k == 56 {
                reveal_with_fuel(text_less, 5);
            } else if k == 57 {
                reveal_with_fuel(text_less, 12);
            } else if k == 58 {
                reveal_with_fuel(text_less, 12);
            } else if k == 59 {
                reveal_with_fuel(text_less, 3);
            } else if k == 60 {
                reveal_with_fuel(text_less, 13);
            } else if k == 61 {
                reveal_with_fuel(text_less, 13);
            } else if k == 62 {
                reveal_with_fuel(text_less, 5);
            } else if k == 63 {
                reveal_with_fuel(text_less, 10);
            } else if k == 64 {
                reveal_with_fuel(text_less, 10);
            } else if k == 65 {
                reveal_with_fuel(text_less, 3);
            } else if k == 66 {
                reveal_with_fuel(text_less, 13);
            } else if k == 67 {
                reveal_with_fuel(text_less, 13);
            } else if k == 68 {
                reveal_with_fuel(text_less, 5);
            } else if k == 69 {
                reveal_with_fuel(text_less, 11);
            } else if k == 70 {
                reveal_with_fuel(text_less, 11);
            } else if k == 71 {
                reveal_with_fuel(text_less, 6);
            } else if k == 72 {
                reveal_with_fuel(text_less, 10);
            } else if k == 73 {
                reveal_with_fuel(text_less, 10);
            } else if k == 74 {
                reveal_with_fuel(text_less, 3);
            } else if k == 75 {
                reveal_with_fuel(text_less, 11);
            } else if k == 76 {
                reveal_with_fuel(text_less, 11);
            }
        }
        lemma_sorted_keys_unique(c.story_events@, perm, place);
    }
    assert(ids_ok(c.endings@)) by {
        assert forall|i: int| 0 <= i < 9 implies !is_blank((#[trigger] c.endings@[i]).key()) by {
            if i == 0 {
                assert(!is_white_space(c.endings@[0].key()[0]));
            } else if i == 1 {
                assert(!is_white_space(c.endings@[1].key()[0]));
            } else if i == 2 {
                assert(!is_white_space(c.endings@[2].key()[0]));
            } else if i == 3 {
                assert(!is_white_space(c.endings@[3].key()[0]));
            } else if i == 4 {
                assert(!is_white_space(c.endings@[4].key()[0]));
            } else if i == 5 {
                assert(!is_white_space(c.endings@[5].key()[0]));
            } else if i == 6 {
                assert(!is_white_space(c.endings@[6].key()[0]));
            } else if i == 7 {
                assert(!is_white_space(c.endings@[7].key()[0]));
            } else if i == 8 {
                assert(!is_white_space(c.endings@[8].key()[0]));
            }
        }
        assert forall|i: int, j: int| 0 <= i < j < 9 implies (#[trigger] c.endings@[i]).key() != (#[trigger] c.endings@[j]).key() by {
            if i == 0 && j == 1 {
                assert(c.endings@[0].key().len() != c.endings@[1].key().len());
            } else if i == 0 && j == 2 {
                assert(c.endings@[0].key().len() != c.endings@[2].key().len());
            } else if i == 0 && j == 3 {
                assert(c.endings@[0].key().len() != c.endings@[3].key().len());
            } else if i == 0 && j == 4 {
                assert(c.endings@[0].key().len() != c.endings@[4].key().len());
            } else if i == 0 && j == 5 {
                assert(c.endings@[0].key().len() != c.endings@[5].key().len());
            } else if i == 0 && j == 6 {
                assert(c.endings@[0].key().len() != c.endings@[6].key().len());
            } else if i == 0 && j == 7 {
                assert(c.endings@[0].key().len() != c.endings@[7].key().len());
            } else if i == 0 && j == 8 {
                assert(c.endings@[0].key()[7] != c.endings@[8].key()[7]);
            } else if i == 1 && j == 2 {
                assert(c.endings@[1].key().len() != c.endings@[2].key().len());
            } else if i == 1 && j == 3 {
                assert(c.endings@[1].key().len() != c.endings@[3].key().len());
            } else if i == 1 && j == 4 {
                assert(c.endings@[1].key().len() != c.endings@[4].key().len());
            } else if i == 1 && j == 5 {
                assert(c.endings@[1].key().len() != c.endings@[5].key().len());
            } else if i == 1 && j == 6 {
                assert(c.endings@[1].key().len() != c.endings@[6].key().len());
            } else if i == 1 && j == 7 {
                assert(c.endings@[1].key().len() != c.endings@[7].key().len());
            } else if i == 1 && j == 8 {
                assert(c.endings@[1].key().len() != c.endings@[8].key().len());
            } else if i == 2 && j == 3 {
                assert(c.endings@[2].key().len() != c.endings@[3].key().len());
            } else if i == 2 && j == 4 {
                assert(c.endings@[2].key().len() != c.endings@[4].key().len());
            } else if i == 2 && j == 5 {
                assert(c.endings@[2].key().len() != c.endings@[5].key().len());
            } else if i == 2 && j == 6 {
                assert(c.endings@[2].key().len() != c.endings@[6].key().len());
            } else if i == 2 && j == 7 {
                assert(c.endings@[2].key().len() != c.endings@[7].key().len());
            } else if i == 2 && j == 8 {
                assert(c.endings@[2].key().len() != c.endings@[8].key().len());
            } else if i == 3 && j == 4 {
                assert(c.endings@[3].key()[7] != c.endings@[4].key()[7]);
            } else if i == 3 && j == 5 {
                assert(c.endings@[3].key()[7] != c.endings@[5].key()[7]);
            } else if i == 3 && j == 6 {
                assert(c.endings@[3].key().len() != c.endings@[6].key().len());
            } else if i == 3 && j == 7 {
                assert(c.endings@[3].key().len() != c.endings@[7].key().len());
            } else if i == 3 && j == 8 {
                assert(c.endings@[3].key().len() != c.endings@[8].key().len());
            } else if i == 4 && j == 5 {
                assert(c.endings@[4].key()[7] != c.endings@[5].key()[7]);
            } else if i == 4 && j == 6 {
                assert(c.endings@[4].key().len() != c.endings@[6].key().len());
            } else if i == 4 && j == 7 {
                assert(c.endings@[4].key().len() != c.endings@[7].key().len());
            } else if i == 4 && j == 8 {
                assert(c.endings@[4].key().len() != c.endings@[8].key().len());
            } else if i == 5 && j == 6 {
                assert(c.endings@[5].key().len() != c.endings@[6].key().len());
            } else if i == 5 && j == 7 {
                assert(c.endings@[5].key().len() != c.endings@[7].key().len());
            } else if i == 5 && j == 8 {
                assert(c.endings@[5].key().len() != c.endings@[8].key().len());
            } else if i == 6 && j == 7 {
                assert(c.endings@[6].key().len() != c.endings@[7].key().len());
            } else if i == 6 && j == 8 {
                assert(c.endings@[6].key().len() != c.endings@[8].key().len());
            } else if i == 7 && j == 8 {
                assert(c.endings@[7].key().len() != c.endings@[8].key().len());
            }
        }
    }
    assert(ids_ok(c.nodes@)) by {
        assert forall|i: int| 0 <= i < 118 implies !is_blank((#[trigger] c.nodes@[i]).key()) by {
            if i == 0 {
                assert(!is_white_space(c.nodes@[0].key()[0]));
            } else if i == 1 {
                assert(!is_white_space(c.nodes@[1].key()[0]));
            } else if i == 2 {
                assert(!is_white_space(c.nodes@[2].key()[0]));
            } else if i == 3 {
                assert(!is_white_space(c.nodes@[3].key()[0]));
            } else if i == 4 {
                assert(!is_white_space(c.nodes@[4].key()[0]));
            } else if i == 5 {
                assert(!is_white_space(c.nodes@[5].key()[0]));
            } else if i == 6 {
                assert(!is_white_space(c.nodes@[6].key()[0]));
            } else if i == 7 {
                assert(!is_white_space(c.nodes@[7].key()[0]));
            } else if i == 8 {
                assert(!is_white_space(c.nodes@[8].key()[0]));
            } else if i == 9 {
                assert(!is_white_space(c.nodes@[9].key()[0]));
            } else if i == 10 {
                assert(!is_white_space(c.nodes@[10].key()[0]));
            } else if i == 11 {
                assert(!is_white_space(c.nodes@[11].key()[0]));
            } else if i == 12 {
                assert(!is_white_space(c.nodes@[12].key()[0]));
            } else if i == 13 {
                assert(!is_white_space(c.nodes@[13].key()[0]));
            } else if i == 14 {
                assert(!is_white_space(c.nodes@[14].key()[0]));
            } else if i == 15 {
                assert(!is_white_space(c.nodes@[15].key()[0]));
            } else if i == 16 {
                assert(!is_white_space(c.nodes@[16].key()[0]));
            } else if i == 17 {
                assert(!is_white_space(c.nodes@[17].key()[0]));
            } else if i == 18 {
                assert(!is_white_space(c.nodes@[18].key()[0]));
            } else if i == 19 {
                assert(!is_white_space(c.nodes@[19].key()[0]));
            } else if i == 20 {
                assert(!is_white_space(c.nodes@[20].key()[0]));
            } else if i == 21 {
                assert(!is_white_space(c.nodes@[21].key()[0]));
            } else if i == 22 {
                assert(!is_white_space(c.nodes@[22].key()[0]));
            } else if i == 23 {
                assert(!is_white_space(c.nodes@[23].key()[0]));
            } else if i == 24 {
                assert(!is_white_space(c.nodes@[24].key()[0]));
            } else if i == 25 {
                assert(!is_white_space(c.nodes@[25].key()[0]));
            } else if i == 26 {
                assert(!is_white_space(c.nodes@[26].key()[0]));
            } else if i == 27 {
                assert(!is_white_space(c.nodes@[27].key()[0]));
            } else if i == 28 {
                assert(!is_white_space(c.nodes@[28].key()[0]));
            } else if i == 29 {
                assert(!is_white_space(c.nodes@[29].key()[0]));
            } else if i == 30 {
                assert(!is_white_space(c.nodes@[30].key()[0]));
            } else if i == 31 {
                assert(!is_white_space(c.nodes@[31].key()[0]));
            } else if i == 32 {
                assert(!is_white_space(c.nodes@[32].key()[0]));
            } else if i == 33 {
                assert(!is_white_space(c.nodes@[33].key()[0]));
            } else if i == 34 {
                assert(!is_white_space(c.nodes@[34].key()[0]));
            } else if i == 35 {
                assert(!is_white_space(c.nodes@[35].key()[0]));
            } else if i == 36 {
                assert(!is_white_space(c.nodes@[36].key()[0]));
            } else if i == 37 {
                assert(!is_white_space(c.nodes@[37].key()[0]));
            } else if i == 38 {
                assert(!is_white_space(c.nodes@[38].key()[0]));
            } else if i == 39 {
                assert(!is_white_space(c.nodes@[39].key()[0]));
            } else if i == 40 {
                assert(!is_white_space(c.nodes@[40].key()[0]));
            } else if i == 41 {
                assert(!is_white_space(c.nodes@[41].key()[0]));
            } else if i == 42 {
                assert(!is_white_space(c.nodes@[42].key()[0]));
            } else if i == 43 {
                assert(!is_white_space(c.nodes@[43].key()[0]));
            } else if i == 44 {
                assert(!is_white_space(c.nodes@[44].key()[0]));
            } else if i == 45 {
                assert(!is_white_space(c.nodes@[45].key()[0]));
            } else if i == 46 {
                assert(!is_white_space(c.nodes@[46].key()[0]));
            } else if i == 47 {
                assert(!is_white_space(c.nodes@[47].key()[0]));
            } else if i == 48 {
                assert(!is_white_space(c.nodes@[48].key()[0]));
            } else if i == 49 {
                assert(!is_white_space(c.nodes@[49].key()[0]));
            } else if i == 50 {
                assert(!is_white_space(c.nodes@[50].key()[0]));
            } else if i == 51 {
                assert(!is_white_space(c.nodes@[51].key()[0]));
            } else if i == 52 {
                assert(!is_white_space(c.nodes@[52].key()[0]));
            } else if i == 53 {
                assert(!is_white_space(c.nodes@[53].key()[0]));
            } else if i == 54 {
                assert(!is_white_space(c.nodes@[54].key()[0]));
            } else if i == 55 {
                assert(!is_white_space(c.nodes@[55].key()[0]));
            } else if i == 56 {
                assert(!is_white_space(c.nodes@[56].key()[0]));
            } else if i == 57 {
                assert(!is_white_space(c.nodes@[57].key()[0]));
            } else if i == 58 {
                assert(!is_white_space(c.nodes@[58].key()[0]));
            } else if i == 59 {
                assert(!is_white_space(c.nodes@[59].key()[0]));
            } else if i == 60 {
                assert(!is_white_space(c.nodes@[60].key()[0]));
            } else if i == 61 {
                assert(!is_white_space(c.nodes@[61].key()[0]));
            } else if i == 62 {
                assert(!is_white_space(c.nodes@[62].key()[0]));
            } else if i == 63 {
                assert(!is_white_space(c.nodes@[63].key()[0]));
            } else if i == 64 {
                assert(!is_white_space(c.nodes@[64].key()[0]));
            } else if i == 65 {
                assert(!is_white_space(c.nodes@[65].key()[0]));
            } else if i == 66 {
                assert(!is_white_space(c.nodes@[66].key()[0]));
            } else if i == 67 {
                assert(!is_white_space(c.nodes@[67].key()[0]));
            } else if i == 68 {
                assert(!is_white_space(c.nodes@[68].key()[0]));
            } else if i == 69 {
                assert(!is_white_space(c.nodes@[69].key()[0]));
            } else if i == 70 {
                assert(!is_white_space(c.nodes@[70].key()[0]));
            } else if i == 71 {
                assert(!is_white_space(c.nodes@[71].key()[0]));
            } else if i == 72 {
                assert(!is_white_space(c.nodes@[72].key()[0]));
            } else if i == 73 {
                assert(!is_white_space(c.nodes@[73].key()[0]));
            } else if i == 74 {
                assert(!is_white_space(c.nodes@[74].key()[0]));
            } else if i == 75 {
                assert(!is_white_space(c.nodes@[75].key()[0]));
            } else if i == 76 {
                assert(!is_white_space(c.nodes@[76].key()[0]));
            } else if i == 77 {
                assert(!is_white_space(c.nodes@[77].key()[0]));
            } else if i == 78 {
                assert(!is_white_space(c.nodes@[78].key()[0]));
            } else if i == 79 {
                assert(!is_white_space(c.nodes@[79].key()[0]));
            } else if i == 80 {
                assert(!is_white_space(c.nodes@[80].key()[0]));
            } else if i == 81 {
                assert(!is_white_space(c.nodes@[81].key()[0]));
            } else if i == 82 {
                assert(!is_white_space(c.nodes@[82].key()[0]));
            } else if i == 83 {
                assert(!is_white_space(c.nodes@[83].key()[0]));
            } else if i == 84 {
                assert(!is_white_space(c.nodes@[84].key()[0]));
            } else if i == 85 {
                assert(!is_white_space(c.nodes@[85].key()[0]));
            } else if i == 86 {
                assert(!is_white_space(c.nodes@[86].key()[0]));
            } else if i == 87 {
                assert(!is_white_space(c.nodes@[87].key()[0]));
            } else if i == 88 {
                assert(!is_white_space(c.nodes@[88].key()[0]));
            } else if i == 89 {
                assert(!is_white_space(c.nodes@[89].key()[0]));
            } else if i == 90 {
                assert(!is_white_space(c.nodes@[90].key()[0]));
            } else if i == 91 {
                assert(!is_white_space(c.nodes@[91].key()[0]));
            } else if i == 92 {
                assert(!is_white_space(c.nodes@[92].key()[0]));
            } else if i == 93 {
                assert(!is_white_space(c.nodes@[93].key()[0]));
            } else if i == 94 {
                assert(!is_white_space(c.nodes@[94].key()[0]));
            } else if i == 95 {
                assert(!is_white_space(c.nodes@[95].key()[0]));
            } else if i == 96 {
                assert(!is_white_space(c.nodes@[96].key()[0]));
            } else if i == 97 {
                assert(!is_white_space(c.nodes@[97].key()[0]));
            } else if i == 98 {
                assert(!is_white_space(c.nodes@[98].key()[0]));
            } else if i == 99 {
                assert(!is_white_space(c.nodes@[99].key()[0]));
            } else if i == 100 {
                assert(!is_white_space(c.nodes@[100].key()[0]));
            } else if i == 101 {
                assert(!is_white_space(c.nodes@[101].key()[0]));
            } else if i == 102 {
                assert(!is_white_space(c.nodes@[102].key()[0]));
            } else if i == 103 {
                assert(!is_white_space(c.nodes@[103].key()[0]));
            } else if i == 104 {
                assert(!is_white_space(c.nodes@[104].key()[0]));
            } else if i == 105 {
                assert(!is_white_space(c.nodes@[105].key()[0]));
            } else if i == 106 {
                assert(!is_white_space(c.nodes@[106].key()[0]));
            } else if i == 107 {
                assert(!is_white_space(c.nodes@[107].key()[0]));
            } else if i == 108 {
                assert(!is_white_space(c.nodes@[108].key()[0]));
            } else if i == 109 {
                assert(!is_white_space(c.nodes@[109].key()[0]));
            } else if i == 110 {
                assert(!is_white_space(c.nodes@[110].key()[0]));
            } else if i == 111 {
                assert(!is_white_space(c.nodes@[111].key()[0]));
            } else if i == 112 {
                assert(!is_white_space(c.nodes@[112].key()[0]));
            } else if i == 113 {
                assert(!is_white_space(c.nodes@[113].key()[0]));
            } else if i == 114 {
                assert(!is_white_space(c.nodes@[114].key()[0]));
            } else if i == 115 {
                assert(!is_white_space(c.nodes@[115].key()[0]));
            } else if i == 116 {
                assert(!is_white_space(c.nodes@[116].key()[0]));
            } else if i == 117 {
                assert(!is_white_space(c.nodes@[117].key()[0]));
            }
        }
        let perm = |k: int| if k == 0 { 115 } else if k == 1 { 114 } else if k == 2 { 109 } else if k == 3 { 112 } else if k == 4 { 117 } else if k == 5 { 116 } else if k == 6 { 111 } else if k == 7 { 113 } else if k == 8 { 110 } else if k == 9 { 68 } else if k == 10 { 67 } else if k == 11 { 66 } else if k == 12 { 105 } else if k == 13 { 73 } else if k == 14 { 76 } else if k == 15 { 75 } else if k == 16 { 74 } else if k == 17 { 77 } else if k == 18 { 80 } else if k == 19 { 79 } else if k == 20 { 78 } else if k == 21 { 81 } else if k == 22 { 84 } else if k == 23 { 83 } else if k == 24 { 82 } else if k == 25 { 85 } else if k == 26 { 88 } else if k == 27 { 87 } else if k == 28 { 86 } else if k == 29 { 106 } else if k == 30 { 107 } else if k == 31 { 108 } else if k == 32 { 93 } else if k == 33 { 96 } else if k == 34 { 95 } else if k == 35 { 94 } else if k == 36 { 101 } else if k == 37 { 104 } else if k == 38 { 103 } else if k == 39 { 102 } else if k == 40 { 97 } else if k == 41 { 100 } else if k == 42 { 99 } else if k == 43 { 98 } else if k == 44 { 89 } else if k == 45 { 92 } else if k == 46 { 91 } else if k == 47 { 90 } else if k == 48 { 8 } else if k == 49 { 7 } else if k == 50 { 6 } else if k == 51 { 16 } else if k == 52 { 15 } else if k == 53 { 14 } else if k == 54 { 20 } else if k == 55 { 19 } else if k == 56 { 18 } else if k == 57 { 28 } else if k == 58 { 27 } else if k == 59 { 26 } else if k == 60 { 36 } else if k == 61 { 35 } else if k == 62 { 34 } else if k == 63 { 40 } else if k == 64 { 39 } else if k == 65 { 38 } else if k == 66 { 44 } else if k == 67 { 43 } else if k == 68 { 42 } else if k == 69 { 52 } else if k == 70 { 51 } else if k == 71 { 50 } else if k == 72 { 60 } else if k == 73 { 59 } else if k == 74 { 58 } else if k == 75 { 0 } else if k == 76 { 4 } else if k == 77 { 3 } else if k == 78 { 2 } else if k == 79 { 12 } else if k == 80 { 11 } else if k == 81 { 10 } else if k == 82 { 32 } else if k == 83 { 31 } else if k == 84 { 30 } else if k == 85 { 24 } else if k == 86 { 23 } else if k == 87 { 22 } else if k == 88 { 48 } else if k == 89 { 47 } else if k == 90 { 46 } else if k == 91 { 64 } else if k == 92 { 63 } else if k == 93 { 62 } else if k == 94 { 56 } else if k == 95 { 55 } else if k == 96 { 54 } else if k == 97 { 72 } else if k == 98 { 71 } else if k == 99 { 70 } else if k == 100 { 1 } else if k == 101 { 5 } else if k == 102 { 9 } else if k == 103 { 13 } else if k == 104 { 17 } else if k == 105 { 21 } else if k == 106 { 25 } else if k == 107 { 29 } else if k == 108 { 33 } else if k == 109 { 37 } else if k == 110 { 41 } else if k == 111 { 45 } else if k == 112 { 49 } else if k == 113 { 53 } else if k == 114 { 57 } else if k == 115 { 61 } else if k == 116 { 65 } else { 69 };
        let place = |k: int| if k == 0 { 75 } else if k == 1 { 100 } else if k == 2 { 78 } else if k == 3 { 77 } else if k == 4 { 76 } else if k == 5 { 101 } else if k == 6 { 50 } else if k == 7 { 49 } else if k == 8 { 48 } else if k == 9 { 102 } else if k == 10 { 81 } else if k == 11 { 80 } else if k == 12 { 79 } else if k == 13 { 103 } else if k == 14 { 53 } else if k == 15 { 52 } else if k == 16 { 51 } else if k == 17 { 104 } else if k == 18 { 56 } else if k == 19 { 55 } else if k == 20 { 54 } else if k == 21 { 105 } else if k == 22 { 87 } else if k == 23 { 86 } else if k == 24 { 85 } else if k == 25 { 106 } else if k == 26 { 59 } else if k == 27 { 58 } else if k == 28 { 57 } else if k == 29 { 107 } else if k == 30 { 84 } else if k == 31 { 83 } else if k == 32 { 82 } else if k == 33 { 108 } else if k == 34 { 62 } else if k == 35 { 61 } else if k == 36 { 60 } else if k == 37 { 109 } else if k == 38 { 65 } else if k == 39 { 64 } else if k == 40 { 63 } else if k == 41 { 110 } else if k == 42 { 68 } else if k == 43 { 67 } else if k == 44 { 66 } else if k == 45 { 111 } else if k == 46 { 90 } else if k == 47 { 89 } else if k == 48 { 88 } else if k == 49 { 112 } else if k == 50 { 71 } else if k == 51 { 70 } else if k == 52 { 69 } else if k == 53 { 113 } else if k == 54 { 96 } else if k == 55 { 95 } else if k == 56 { 94 } else if k == 57 { 114 } else if k == 58 { 74 } else if k == 59 { 73 } else if k == 60 { 72 } else if k == 61 { 115 } else if k == 62 { 93 } else if k == 63 { 92 } else if k == 64 { 91 } else if k == 65 { 116 } else if k == 66 { 11 } else if k == 67 { 10 } else if k == 68 { 9 } else if k == 69 { 117 } else if k == 70 { 99 } else if k == 71 { 98 } else if k == 72 { 97 } else if k == 73 { 13 } else if k == 74 { 16 } else if k == 75 { 15 } else if k == 76 { 14 } else if k == 77 { 17 } else if k == 78 { 20 } else if k == 79 { 19 } else if k == 80 { 18 } else if k == 81 { 21 } else if k == 82 { 24 } else if k == 83 { 23 } else if k == 84 { 22 } else if k == 85 { 25 } else if k == 86 { 28 } else if k == 87 { 27 } else if k == 88 { 26 } else if k == 89 { 44 } else if k == 90 { 47 } else if k == 91 { 46 } else if k == 92 { 45 } else if k == 93 { 32 } else if k == 94 { 35 } else if k == 95 { 34 } else if k == 96 { 33 } else if k == 97 { 40 } else if k == 98 { 43 } else if k == 99 { 42 } else if k == 100 { 41 } else if k == 101 { 36 } else if k == 102 { 39 } else if k == 103 { 38 } else if k == 104 { 37 } else if k == 105 { 12 } else if k == 106 { 29 } else if k == 107 { 30 } else if k == 108 { 31 } else if k == 109 { 2 } else if k == 110 { 8 } else if k == 111 { 6 } else if k == 112 { 3 } else if k == 113 { 7 } else if k == 114 { 1 } else if k == 115 { 0 } else if k == 116 { 5 } else { 4 };
        assert forall|i: int| 0 <= i < 118 implies 0 <= #[trigger] place(i) < 118 && perm(place(i)) == i by {
            if i == 0 {
            } else if i == 1 {
            } else if i == 2 {
            } else if i == 3 {
            } else if i == 4 {
            } else if i == 5 {
            } else if i == 6 {
            } else if i == 7 {
            } else if i == 8 {
            } else if i == 9 {
            } else if i == 10 {
            } else if i == 11 {
            } else if i == 12 {
            } else if i == 13 {
            } else if i == 14 {
            } else if i == 15 {
            } else if i == 16 {
            } else if i == 17 {
            } else if i == 18 {
            } else if i == 19 {
            } else if i == 20 {
            } else if i == 21 {
            } else if i == 22 {
            } else if i == 23 {
            } else if i == 24 {
            } else if i == 25 {
            } else if i == 26 {
            } else if i == 27 {
            } else if i == 28 {
            } else if i == 29 {
            } else if i == 30 {
            } else if i == 31 {
            } else if i == 32 {
            } else if i == 33 {
            } else if i == 34 {
            } else if i == 35 {
            } else if i == 36 {
            } else if i == 37 {
            } else if i == 38 {
            } else if i == 39 {
            } else if i == 40 {
            } else if i == 41 {
            } else if i == 42 {
            } else if i == 43 {
            } else if i == 44 {
            } else if i == 45 {
            } else if i == 46 {
            } else if i == 47 {
            } else if i == 48 {
            } else if i == 49 {
            } else if i == 50 {
            } else if i == 51 {
            } else if i == 52 {
            } else if i == 53 {
            } else if i == 54 {
            } else if i == 55 {
            } else if i == 56 {
            } else if i == 57 {
            } else if i == 58 {
            } else if i == 59 {
            } else if i == 60 {
            } else if i == 61 {
            } else if i == 62 {
            } else if i == 63 {
            } else if i == 64 {
            } else if i == 65 {
            } else if i == 66 {
            } else if i == 67 {
            } else if i == 68 {
            } else if i == 69 {
            } else if i == 70 {
            } else if i == 71 {
            } else if i == 72 {
            } else if i == 73 {
            } else if i == 74 {
            } else if i == 75 {
            } else if i == 76 {
            } else if i == 77 {
            } else if i == 78 {
            } else if i == 79 {
            } else if i == 80 {
            } else if i == 81 {
            } else if i == 82 {
            } else if i == 83 {
            } else if i == 84 {
            } else if i == 85 {
            } else if i == 86 {
            } else if i == 87 {
            } else if i == 88 {
            } else if i == 89 {
            } else if i == 90 {
            } else if i == 91 {
            } else if i == 92 {
            } else if i == 93 {
            } else if i == 94 {
            } else if i == 95 {
            } else if i == 96 {
            } else if i == 97 {
            } else if i == 98 {
            } else if i == 99 {
            } else if i == 100 {
            } else if i == 101 {
            } else if i == 102 {
            } else if i == 103 {
            } else if i == 104 {
            } else if i == 105 {
            } else if i == 106 {
            } else if i == 107 {
            } else if i == 108 {
            } else if i == 109 {
            } else if i == 110 {
            } else if i == 111 {
            } else if i == 112 {
            } else if i == 113 {
            } else if i == 114 {
            } else if i == 115 {
            } else if i == 116 {
            } else if i == 117 {
            }
        }
        assert forall|k: int| 0 <= k < 117 implies text_less(c.nodes@[#[trigger] perm(k)].key(), c.nodes@[perm(k + 1)].key()) by {
            if k == 0 {
                reveal_with_fuel(text_less, 9);
            } else if k == 1 {
                reveal_with_fuel(text_less, 9);
            } else if k == 2 {
                reveal_with_fuel(text_less, 9);
            } else if k == 3 {
                reveal_with_fuel(text_less, 9);
            } else if k == 4 {
                reveal_with_fuel(text_less, 9);
            } else if k == 5 {
                reveal_with_fuel(text_less, 9);
            } else if k == 6 {
                reveal_with_fuel(text_less, 9);
            } else if k == 7 {
                reveal_with_fuel(text_less, 9);
            } else if k == 8 {
                reveal_with_fuel(text_less, 2);
            } else if k == 9 {
                reveal_with_fuel(text_less, 12);
            } else if k == 10 {
                reveal_with_fuel(text_less, 12);
            } else if k == 11 {
                reveal_with_fuel(text_less, 4);
            } else if k == 12 {
                reveal_with_fuel(text_less, 5);
            } else if k == 13 {
                reveal_with_fuel(text_less, 6);
            } else if k == 14 {
                reveal_with_fuel(text_less, 7);
            } else if k == 15 {
                reveal_with_fuel(text_less, 7);
            } else if k == 16 {
                reveal_with_fuel(text_less, 5);
            } else if k == 17 {
                reveal_with_fuel(text_less, 6);
            } else if k == 18 {
                reveal_with_fuel(text_less, 7);
            } else if k == 19 {
                reveal_with_fuel(text_less, 7);
            } else if k == 20 {
                reveal_with_fuel(text_less, 4);
            } else if k == 21 {
                reveal_with_fuel(text_less, 5);
            } else if k == 22 {
                reveal_with_fuel(text_less, 6);
            } else if k == 23 {
                reveal_with_fuel(text_less, 6);
            } else if k == 24 {
                reveal_with_fuel(text_less, 4);
            } else if k == 25 {
                reveal_with_fuel(text_less, 5);
            } else if k == 26 {
                reveal_with_fuel(text_less, 6);
            } else if k == 27 {
                reveal_with_fuel(text_less, 6);
            } else if k == 28 {
                reveal_with_fuel(text_less, 4);
            } else if k == 29 {
                reveal_with_fuel(text_less, 12);
            } else if k == 30 {
                reveal_with_fuel(text_less, 13);
            } else if k == 31 {
                reveal_with_fuel(text_less, 5);
            } else if k == 32 {
                reveal_with_fuel(text_less, 6);
            } else if k == 33 {
                reveal_with_fuel(text_less, 7);
            } else if k == 34 {
                reveal_with_fuel(text_less, 7);
            } else if k == 35 {
                reveal_with_fuel(text_less, 5);
            } else if k == 36 {
                reveal_with_fuel(text_less, 6);
            } else if k == 37 {
                reveal_with_fuel(text_less, 7);
            } else if k == 38 {
                reveal_with_fuel(text_less, 7);
            } else if k == 39 {
                reveal_with_fuel(text_less, 5);
            } else if k == 40 {
                reveal_with_fuel(text_less, 6);
            } else if k == 41 {
                reveal_with_fuel(text_less, 7);
            } else if k == 42 {
                reveal_with_fuel(text_less, 7);
            } else if k == 43 {
                reveal_with_fuel(text_less, 5);
            } else if k == 44 {
                reveal_with_fuel(text_less, 6);
            } else if k == 45 {
                reveal_with_fuel(text_less, 7);
            } else if k == 46 {
                reveal_with_fuel(text_less, 7);
            } else if k == 47 {
                reveal_with_fuel(text_less, 4);
            } else if k == 48 {
                reveal_with_fuel(text_less, 11);
            } else if k == 49 {
                reveal_with_fuel(text_less, 11);
            } else if k == 50 {
                reveal_with_fuel(text_less, 3);
            } else if k == 51 {
                reveal_with_fuel(text_less, 11);
            } else if k == 52 {
                reveal_with_fuel(text_less, 11);
            } else if k == 53 {
                reveal_with_fuel(text_less, 3);
            } else if k == 54 {
                reveal_with_fuel(text_less, 12);
            } else if k == 55 {
                reveal_with_fuel(text_less, 12);
            } else if k == 56 {
                reveal_with_fuel(text_less, 3);
            } else if k == 57 {
                reveal_with_fuel(text_less, 11);
            } else if k == 58 {
                reveal_with_fuel(text_less, 11);
            } else if k == 59 {
                reveal_with_fuel(text_less, 3);
            } else if k == 60 {
                reveal_with_fuel(text_less, 11);
            } else if k == 61 {
                reveal_with_fuel(text_less, 11);
            } else if k == 62 {
                reveal_with_fuel(text_less, 3);
            } else if k == 63 {
                reveal_with_fuel(text_less, 10);
            } else if k == 64 {
                reveal_with_fuel(text_less, 10);
            } else if k == 65 {
                reveal_with_fuel(text_less, 3);
            } else if k == 66 {
                reveal_with_fuel(text_less, 11);
            } else if k == 67 {
                reveal_with_fuel(text_less, 11);
            } else if k == 68 {
                reveal_with_fuel(text_less, 3);
            } else if k == 69 {
                reveal_with_fuel(text_less, 12);
            } else if k == 70 {
                reveal_with_fuel(text_less, 12);
            } else if k == 71 {
                reveal_with_fuel(text_less, 3);
            } else if k == 72 {
                reveal_with_fuel(text_less, 10);
            } else if k == 73 {
                reveal_with_fuel(text_less, 10);
            } else if k == 74 {
                reveal_with_fuel(text_less, 2);
            } else if k == 75 {
                reveal_with_fuel(text_less, 2);
            } else if k == 76 {
                reveal_with_fuel(text_less, 12);
            } else if k == 77 {
                reveal_with_fuel(text_less, 12);
            } else if k == 78 {
                reveal_with_fuel(text_less, 5);
            } else if k == 79 {
                reveal_with_fuel(text_less, 12);
            } else if k == 80 {
                reveal_with_fuel(text_less, 12);
            } else if k == 81 {
                reveal_with_fuel(text_less, 3);
            } else if k == 82 {
                reveal_with_fuel(text_less, 13);
            } else if k == 83 {
                reveal_with_fuel(text_less, 13);
            } else if k == 84 {
                reveal_with_fuel(text_less, 5);
            } else if k == 85 {
                reveal_with_fuel(text_less, 10);
            } else if k == 86 {
                reveal_with_fuel(text_less, 10);
            } else if k == 87 {
                reveal_with_fuel(text_less, 3);
            } else if k == 88 {
                reveal_with_fuel(text_less, 13);
            } else if k == 89 {
                reveal_with_fuel(text_less, 13);
            } else if k == 90 {
                reveal_with_fuel(text_less, 5);
            } else if k == 91 {
                reveal_with_fuel(text_less, 11);
            } else if k == 92 {
                reveal_with_fuel(text_less, 11);
            } else if k == 93 {
                reveal_with_fuel(text_less, 6);
            } else if k == 94 {
                reveal_with_fuel(text_less, 10);
            } else if k == 95 {
                reveal_with_fuel(text_less, 10);
            } else if k == 96 {
                reveal_with_fuel(text_less, 3);
            } else if k == 97 {
                reveal_with_fuel(text_less, 11);
            } else if k == 98 {
                reveal_with_fuel(text_less, 11);
            } else if k == 99 {
                reveal_with_fuel(text_less, 3);
            } else if k == 100 {
                reveal_with_fuel(text_less, 8);
            } else if k == 101 {
                reveal_with_fuel(text_less, 8);
            } else if k == 102 {
                reveal_with_fuel(text_less, 8);
            } else if k == 103 {
                reveal_with_fuel(text_less, 8);
            } else if k == 104 {
                reveal_with_fuel(text_less, 8);
            } else if k == 105 {
                reveal_with_fuel(text_less, 8);
            } else if k == 106 {
                reveal_with_fuel(text_less, 8);
            } else if k == 107 {
                reveal_with_fuel(text_less, 8);
            } else if k == 108 {
                reveal_with_fuel(text_less, 7);
            } else if k == 109 {
                reveal_with_fuel(text_less, 8);
            } else if k == 110 {
                reveal_with_fuel(text_less, 8);
            } else if k == 111 {
                reveal_with_fuel(text_less, 8);
            } else if k == 112 {
                reveal_with_fuel(text_less, 8);
            } else if k == 113 {
                reveal_with_fuel(text_less, 8);
            } else if k == 114 {
                reveal_with_fuel(text_less, 8);
            } else if k == 115 {
                reveal_with_fuel(text_less, 8);
            } else if k == 116 {
                reveal_with_fuel(text_less, 8);
            }
        }
        lemma_sorted_keys_unique(c.nodes@, perm, place);
    }
}

/// The north neeladesh content passes validation.
#[verifier::rlimit(100)]
#[verifier::spinoff_prover]
proof fn lemma_north_neeladesh_valid(c: AuthoredContent)
    requires
        is_north_neeladesh_content(c),
        keys_ok(c),
    ensures
        content_valid(c),
{
    reveal_strlit("A Better Country");
    reveal_strlit("Akash Dey");
    reveal_strlit("Anika Roy");
    reveal_strlit("Asha Sen");
    reveal_strlit("Bankruptcy");
    reveal_strlit("Bikram Sen");
    reveal_strlit("Captain Varo");
    reveal_strlit("Colonel Arman Vey");
    reveal_strlit("Dev Korr");
    reveal_strlit("Emergency State");
    reveal_strlit("Fragmented Control");
    reveal_strlit("Inspector Rakesh Nahal");
    reveal_strlit("Insubordination");
    reveal_strlit("Javed Rahman");
    reveal_strlit("Laleh Mir");
    reveal_strlit("Let Go");
    reveal_strlit("Meera Tal");
    reveal_strlit("Mira Halek");
    reveal_strlit("Nahid from bKash");
    reveal_strlit("Nayan Boro");
    reveal_strlit("Paro Sen");
    reveal_strlit("Platform Six");
    reveal_strlit("Rafi Alam");
    reveal_strlit("Southbound Household");
    reveal_strlit("Temporary Command");
    reveal_strlit("Tomas Vale");
    reveal_strlit("a_better_country");
    reveal_strlit("akash_dey");
    reveal_strlit("anika_roy");
    reveal_strlit("arman_vey");
    reveal_strlit("asha_sen");
    reveal_strlit("bankruptcy");
    reveal_strlit("bikram_sen");
    reveal_strlit("cantonment");
    reveal_strlit("captain_varo");
    reveal_strlit("central_station");
    reveal_strlit("default");
    reveal_strlit("dev_korr");
    reveal_strlit("embassy");
    reveal_strlit("ending_a_better_country");
    reveal_strlit("ending_bankruptcy");
    reveal_strlit("ending_emergency_state");
    reveal_strlit("ending_fragmented");
    reveal_strlit("ending_insubordination");
    reveal_strlit("ending_let_go");
    reveal_strlit("ending_platform_six");
    reveal_strlit("ending_southbound");
    reveal_strlit("ending_temporary_command");
    reveal_strlit("home_affairs");
    reveal_strlit("hospital");
    reveal_strlit("hotel");
    reveal_strlit("insubordination");
    reveal_strlit("javed_rahman");
    reveal_strlit("laleh_mir");
    reveal_strlit("let_go");
    reveal_strlit("m10_audit");
    reveal_strlit("m10_audit_invalid_event");
    reveal_strlit("m10_audit_invalid_node");
    reveal_strlit("m10_audit_missed_event");
    reveal_strlit("m10_audit_missed_node");
    reveal_strlit("m10_audit_success_event");
    reveal_strlit("m10_audit_success_node");
    reveal_strlit("m11_select");
    reveal_strlit("m11a");
    reveal_strlit("m11a_invalid_event");
    reveal_strlit("m11a_invalid_node");
    reveal_strlit("m11a_laleh");
    reveal_strlit("m11a_missed_event");
    reveal_strlit("m11a_missed_node");
    reveal_strlit("m11a_success_event");
    reveal_strlit("m11a_success_node");
    reveal_strlit("m11b");
    reveal_strlit("m11b_dev");
    reveal_strlit("m11b_invalid_event");
    reveal_strlit("m11b_invalid_node");
    reveal_strlit("m11b_missed_event");
    reveal_strlit("m11b_missed_node");
    reveal_strlit("m11b_success_event");
    reveal_strlit("m11b_success_node");
    reveal_strlit("m12");
    reveal_strlit("m12_arman");
    reveal_strlit("m12_invalid_event");
    reveal_strlit("m12_invalid_node");
    reveal_strlit("m12_missed_event");
    reveal_strlit("m12_missed_node");
    reveal_strlit("m12_success_event");
    reveal_strlit("m12_success_node");
    reveal_strlit("m13");
    reveal_strlit("m13_invalid_event");
    reveal_strlit("m13_invalid_node");
    reveal_strlit("m13_meera");
    reveal_strlit("m13_missed_event");
    reveal_strlit("m13_missed_node");
    reveal_strlit("m13_success_event");
    reveal_strlit("m13_success_node");
    reveal_strlit("m14_mira");
    reveal_strlit("m14_select");
    reveal_strlit("m14_select_2");
    reveal_strlit("m14_select_3");
    reveal_strlit("m14a");
    reveal_strlit("m14a_invalid_event");
    reveal_strlit("m14a_invalid_node");
    reveal_strlit("m14a_missed_event");
    reveal_strlit("m14a_missed_node");
    reveal_strlit("m14a_success_event");
    reveal_strlit("m14a_success_node");
    reveal_strlit("m14c");
    reveal_strlit("m14c_invalid_event");
    reveal_strlit("m14c_invalid_node");
    reveal_strlit("m14c_missed_event");
    reveal_strlit("m14c_missed_node");
    reveal_strlit("m14c_success_event");
    reveal_strlit("m14c_success_node");
    reveal_strlit("m14p");
    reveal_strlit("m14p_invalid_event");
    reveal_strlit("m14p_invalid_node");
    reveal_strlit("m14p_missed_event");
    reveal_strlit("m14p_missed_node");
    reveal_strlit("m14p_success_event");
    reveal_strlit("m14p_success_node");
    reveal_strlit("m14r");
    reveal_strlit("m14r_invalid_event");
    reveal_strlit("m14r_invalid_node");
    reveal_strlit("m14r_missed_event");
    reveal_strlit("m14r_missed_node");
    reveal_strlit("m14r_success_event");
    reveal_strlit("m14r_success_node");
    reveal_strlit("m1_anika");
    reveal_strlit("m1_anika_invalid_event");
    reveal_strlit("m1_anika_invalid_node");
    reveal_strlit("m1_anika_missed_event");
    reveal_strlit("m1_anika_missed_node");
    reveal_strlit("m1_anika_success_event");
    reveal_strlit("m1_anika_success_node");
    reveal_strlit("m2_nayan");
    reveal_strlit("m2_nayan_invalid_event");
    reveal_strlit("m2_nayan_invalid_node");
    reveal_strlit("m2_nayan_missed_event");
    reveal_strlit("m2_nayan_missed_node");
    reveal_strlit("m2_nayan_success_event");
    reveal_strlit("m2_nayan_success_node");
    reveal_strlit("m3_rakesh");
    reveal_strlit("m3_rakesh_invalid_event");
    reveal_strlit("m3_rakesh_invalid_node");
    reveal_strlit("m3_rakesh_missed_event");
    reveal_strlit("m3_rakesh_missed_node");
    reveal_strlit("m3_rakesh_success_event");
    reveal_strlit("m3_rakesh_success_node");
    reveal_strlit("m4_laleh");
    reveal_strlit("m4_laleh_invalid_event");
    reveal_strlit("m4_laleh_invalid_node");
    reveal_strlit("m4_laleh_missed_event");
    reveal_strlit("m4_laleh_missed_node");
    reveal_strlit("m4_laleh_success_event");
    reveal_strlit("m4_laleh_success_node");
    reveal_strlit("m5_javed");
    reveal_strlit("m5_javed_invalid_event");
    reveal_strlit("m5_javed_invalid_node");
    reveal_strlit("m5_javed_missed_event");
    reveal_strlit("m5_javed_missed_node");
    reveal_strlit("m5_javed_success_event");
    reveal_strlit("m5_javed_success_node");
    reveal_strlit("m6_varo");
    reveal_strlit("m6_varo_invalid_event");
    reveal_strlit("m6_varo_invalid_node");
    reveal_strlit("m6_varo_missed_event");
    reveal_strlit("m6_varo_missed_node");
    reveal_strlit("m6_varo_success_event");
    reveal_strlit("m6_varo_success_node");
    reveal_strlit("m7_tomas");
    reveal_strlit("m7_tomas_invalid_event");
    reveal_strlit("m7_tomas_invalid_node");
    reveal_strlit("m7_tomas_missed_event");
    reveal_strlit("m7_tomas_missed_node");
    reveal_strlit("m7_tomas_success_event");
    reveal_strlit("m7_tomas_success_node");
    reveal_strlit("m8_bikram");
    reveal_strlit("m8_bikram_invalid_event");
    reveal_strlit("m8_bikram_invalid_node");
    reveal_strlit("m8_bikram_missed_event");
    reveal_strlit("m8_bikram_missed_node");
    reveal_strlit("m8_bikram_success_event");
    reveal_strlit("m8_bikram_success_node");
    reveal_strlit("m9_paro");
    reveal_strlit("m9_paro_invalid_event");
    reveal_strlit("m9_paro_invalid_node");
    reveal_strlit("m9_paro_missed_event");
    reveal_strlit("m9_paro_missed_node");
    reveal_strlit("m9_paro_success_event");
    reveal_strlit("m9_paro_success_node");
    reveal_strlit("market");
    reveal_strlit("meera_tal");
    reveal_strlit("mining_office");
    reveal_strlit("mira_halek");
    reveal_strlit("nahid_bkash");
    reveal_strlit("nayan_boro");
    reveal_strlit("paro_sen");
    reveal_strlit("radio");
    reveal_strlit("rafi_alam");
    reveal_strlit("rakesh_nahal");
    reveal_strlit("ratan_colony");
    reveal_strlit("run_start");
    reveal_strlit("s1_1_rafi");
    reveal_strlit("s1_1_rafi_invalid_event");
    reveal_strlit("s1_1_rafi_invalid_node");
    reveal_strlit("s1_1_rafi_missed_event");
    reveal_strlit("s1_1_rafi_missed_node");
    reveal_strlit("s1_1_rafi_success_event");
    reveal_strlit("s1_1_rafi_success_node");
    reveal_strlit("s1_2_asha");
    reveal_strlit("s1_2_asha_invalid_event");
    reveal_strlit("s1_2_asha_invalid_node");
    reveal_strlit("s1_2_asha_missed_event");
    reveal_strlit("s1_2_asha_missed_node");
    reveal_strlit("s1_2_asha_success_event");
    reveal_strlit("s1_2_asha_success_node");
    reveal_strlit("s2_1_nahid");
    reveal_strlit("s2_1_nahid_invalid_event");
    reveal_strlit("s2_1_nahid_invalid_node");
    reveal_strlit("s2_1_nahid_missed_event");
    reveal_strlit("s2_1_nahid_missed_node");
    reveal_strlit("s2_1_nahid_success_event");
    reveal_strlit("s2_1_nahid_success_node");
    reveal_strlit("s2_asha");
    reveal_strlit("s2_asha_invalid_event");
    reveal_strlit("s2_asha_invalid_node");
    reveal_strlit("s2_asha_missed_event");
    reveal_strlit("s2_asha_missed_node");
    reveal_strlit("s2_asha_success_event");
    reveal_strlit("s2_asha_success_node");
    reveal_strlit("s3_1_nahid");
    reveal_strlit("s3_1_nahid_invalid_event");
    reveal_strlit("s3_1_nahid_invalid_node");
    reveal_strlit("s3_1_nahid_missed_event");
    reveal_strlit("s3_1_nahid_missed_node");
    reveal_strlit("s3_1_nahid_success_event");
    reveal_strlit("s3_1_nahid_success_node");
    reveal_strlit("s3_akash");
    reveal_strlit("s3_akash_invalid_event");
    reveal_strlit("s3_akash_invalid_node");
    reveal_strlit("s3_akash_missed_event");
    reveal_strlit("s3_akash_missed_node");
    reveal_strlit("s3_akash_success_event");
    reveal_strlit("s3_akash_success_node");
    reveal_strlit("s3_asha");
    reveal_strlit("s3_asha_invalid_event");
    reveal_strlit("s3_asha_invalid_node");
    reveal_strlit("s3_asha_missed_event");
    reveal_strlit("s3_asha_missed_node");
    reveal_strlit("s3_asha_success_event");
    reveal_strlit("s3_asha_success_node");
    reveal_strlit("s4_akash");
    reveal_strlit("s4_akash_invalid_event");
    reveal_strlit("s4_akash_invalid_node");
    reveal_strlit("s4_akash_missed_event");
    reveal_strlit("s4_akash_missed_node");
    reveal_strlit("s4_akash_success_event");
    reveal_strlit("s4_akash_success_node");
    reveal_strlit("secretariat");
    reveal_strlit("shapla");
    reveal_strlit("slot_01");
    reveal_strlit("slot_02");
    reveal_strlit("slot_03");
    reveal_strlit("slot_04");
    reveal_strlit("slot_05");
    reveal_strlit("slot_06");
    reveal_strlit("slot_07");
    reveal_strlit("slot_08");
    reveal_strlit("slot_09");
    reveal_strlit("slot_10");
    reveal_strlit("slot_11");
    reveal_strlit("slot_12");
    reveal_strlit("slot_13");
    reveal_strlit("slot_14");
    reveal_strlit("slot_15");
    reveal_strlit("slot_16");
    reveal_strlit("slot_17");
    reveal_strlit("slot_18");
    reveal_strlit("southbound_household");
    reveal_strlit("tomas_vale");
    assert(listing_ok(c, c.line_listings@[0])) by {
        assert(texts(c.line_listings@[0].subscriber_ids@).len() == 1);
        assert forall|k: int| 0 <= k < 1 implies has_key(c.subscribers@, (#[trigger] c.line_listings@[0].subscriber_ids@[k])@) by {
            if k == 0 {
                assert(c.line_listings@[0].subscriber_ids@[0]@ == texts(c.line_listings@[0].subscriber_ids@)[0]);
                assert(c.subscribers@[0].key() == c.line_listings@[0].subscriber_ids@[0]@);
            }
        }
    }
    assert(listing_ok(c, c.line_listings@[1])) by {
        assert(texts(c.line_listings@[1].subscriber_ids@).len() == 1);
        assert forall|k: int| 0 <= k < 1 implies has_key(c.subscribers@, (#[trigger] c.line_listings@[1].subscriber_ids@[k])@) by {
            if k == 0 {
                assert(c.line_listings@[1].subscriber_ids@[0]@ == texts(c.line_listings@[1].subscriber_ids@)[0]);
                assert(c.subscribers@[1].key() == c.line_listings@[1].subscriber_ids@[0]@);
            }
        }
    }
    assert(listing_ok(c, c.line_listings@[2])) by {
        assert(texts(c.line_listings@[2].subscriber_ids@).len() == 2);
        assert forall|k: int| 0 <= k < 2 implies has_key(c.subscribers@, (#[trigger] c.line_listings@[2].subscriber_ids@[k])@) by {
            if k == 0 {
                assert(c.line_listings@[2].subscriber_ids@[0]@ == texts(c.line_listings@[2].subscriber_ids@)[0]);
                assert(c.subscribers@[2].key() == c.line_listings@[2].subscriber_ids@[0]@);
            } else if k == 1 {
                assert(c.line_listings@[2].subscriber_ids@[1]@ == texts(c.line_listings@[2].subscriber_ids@)[1]);
                assert(c.subscribers@[9].key() == c.line_listings@[2].subscriber_ids@[1]@);
            }
        }
    }
    assert(listing_ok(c, c.line_listings@[3])) by {
        assert(texts(c.line_listings@[3].subscriber_ids@).len() == 2);
        assert forall|k: int| 0 <= k < 2 implies has_key(c.subscribers@, (#[trigger] c.line_listings@[3].subscriber_ids@[k])@) by {
            if k == 0 {
                assert(c.line_listings@[3].subscriber_ids@[0]@ == texts(c.line_listings@[3].subscriber_ids@)[0]);
                assert(c.subscribers@[5].key() == c.line_listings@[3].subscriber_ids@[0]@);
            } else if k == 1 {
                assert(c.line_listings@[3].subscriber_ids@[1]@ == texts(c.line_listings@[3].subscriber_ids@)[1]);
                assert(c.subscribers@[10].key() == c.line_listings@[3].subscriber_ids@[1]@);
            }
        }
    }
    assert(listing_ok(c, c.line_listings@[4])) by {
        assert(texts(c.line_listings@[4].subscriber_ids@).len() == 1);
        assert forall|k: int| 0 <= k < 1 implies has_key(c.subscribers@, (#[trigger] c.line_listings@[4].subscriber_ids@[k])@) by {
            if k == 0 {
                assert(c.line_listings@[4].subscriber_ids@[0]@ == texts(c.line_listings@[4].subscriber_ids@)[0]);
                assert(c.subscribers@[1].key() == c.line_listings@[4].subscriber_ids@[0]@);
            }
        }
    }
    assert(listing_ok(c, c.line_listings@[5])) by {
        assert(texts(c.line_listings@[5].subscriber_ids@).len() == 1);
        assert forall|k: int| 0 <= k < 1 implies has_key(c.subscribers@, (#[trigger] c.line_listings@[5].subscriber_ids@[k])@) by {
            if k == 0 {
                assert(c.line_listings@[5].subscriber_ids@[0]@ == texts(c.line_listings@[5].subscriber_ids@)[0]);
                assert(c.subscribers@[11].key() == c.line_listings@[5].subscriber_ids@[0]@);
            }
        }
    }
    assert(listing_ok(c, c.line_listings@[6])) by {
        assert(texts(c.line_listings@[6].subscriber_ids@).len() == 2);
        assert forall|k: int| 0 <= k < 2 implies has_key(c.subscribers@, (#[trigger] c.line_listings@[6].subscriber_ids@[k])@) by {
            if k == 0 {
                assert(c.line_listings@[6].subscriber_ids@[0]@ == texts(c.line_listings@[6].subscriber_ids@)[0]);
                assert(c.subscribers@[6].key() == c.line_listings@[6].subscriber_ids@[0]@);
            } else if k == 1 {
                assert(c.line_listings@[6].subscriber_ids@[1]@ == texts(c.line_listings@[6].subscriber_ids@)[1]);
                assert(c.subscribers@[15].key() == c.line_listings@[6].subscriber_ids@[1]@);
            }
        }
    }
    assert(listing_ok(c, c.line_listings@[7])) by {
        assert(texts(c.line_listings@[7].subscriber_ids@).len() == 1);
        assert forall|k: int| 0 <= k < 1 implies has_key(c.subscribers@, (#[trigger] c.line_listings@[7].subscriber_ids@[k])@) by {
            if k == 0 {
                assert(c.line_listings@[7].subscriber_ids@[0]@ == texts(c.line_listings@[7].subscriber_ids@)[0]);
                assert(c.subscribers@[4].key() == c.line_listings@[7].subscriber_ids@[0]@);
            }
        }
    }
    assert(listing_ok(c, c.line_listings@[8])) by {
        assert(texts(c.line_listings@[8].subscriber_ids@).len() == 2);
        assert forall|k: int| 0 <= k < 2 implies has_key(c.subscribers@, (#[trigger] c.line_listings@[8].subscriber_ids@[k])@) by {
            if k == 0 {
                assert(c.line_listings@[8].subscriber_ids@[0]@ == texts(c.line_listings@[8].subscriber_ids@)[0]);
                assert(c.subscribers@[8].key() == c.line_listings@[8].subscriber_ids@[0]@);
            } else if k == 1 {
                assert(c.line_listings@[8].subscriber_ids@[1]@ == texts(c.line_listings@[8].subscriber_ids@)[1]);
                assert(c.subscribers@[14].key() == c.line_listings@[8].subscriber_ids@[1]@);
            }
        }
    }
    assert(listing_ok(c, c.line_listings@[9])) by {
        assert(texts(c.line_listings@[9].subscriber_ids@).len() == 3);
        assert forall|k: int| 0 <= k < 3 implies has_key(c.subscribers@, (#[trigger] c.line_listings@[9].subscriber_ids@[k])@) by {
            if k == 0 {
                assert(c.line_listings@[9].subscriber_ids@[0]@ == texts(c.line_listings@[9].subscriber_ids@)[0]);
                assert(c.subscribers@[3].key() == c.line_listings@[9].subscriber_ids@[0]@);
            } else if k == 1 {
                assert(c.line_listings@[9].subscriber_ids@[1]@ == texts(c.line_listings@[9].subscriber_ids@)[1]);
                assert(c.subscribers@[16].key() == c.line_listings@[9].subscriber_ids@[1]@);
            } else if k == 2 {
                assert(c.line_listings@[9].subscriber_ids@[2]@ == texts(c.line_listings@[9].subscriber_ids@)[2]);
                assert(c.subscribers@[13].key() == c.line_listings@[9].subscriber_ids@[2]@);
            }
        }
    }
    assert(listing_ok(c, c.line_listings@[10])) by {
        assert(texts(c.line_listings@[10].subscriber_ids@).len() == 1);
        assert forall|k: int| 0 <= k < 1 implies has_key(c.subscribers@, (#[trigger] c.line_listings@[10].subscriber_ids@[k])@) by {
            if k == 0 {
                assert(c.line_listings@[10].subscriber_ids@[0]@ == texts(c.line_listings@[10].subscriber_ids@)[0]);
                assert(c.subscribers@[7].key() == c.line_listings@[10].subscriber_ids@[0]@);
            }
        }
    }
    assert(listing_ok(c, c.line_listings@[11])) by {
        assert(texts(c.line_listings@[11].subscriber_ids@).len() == 1);
        assert forall|k: int| 0 <= k < 1 implies has_key(c.subscribers@, (#[trigger] c.line_listings@[11].subscriber_ids@[k])@) by {
            if k == 0 {
                assert(c.line_listings@[11].subscriber_ids@[0]@ == texts(c.line_listings@[11].subscriber_ids@)[0]);
                assert(c.subscribers@[12].key() == c.line_listings@[11].subscriber_ids@[0]@);
            }
        }
    }
    assert forall|i: int| 0 <= i < 12 implies listing_ok(c, #[trigger] c.line_listings@[i]) by {
        if i == 0 {
        } else if i == 1 {
        } else if i == 2 {
        } else if i == 3 {
        } else if i == 4 {
        } else if i == 5 {
        } else if i == 6 {
        } else if i == 7 {
        } else if i == 8 {
        } else if i == 9 {
        } else if i == 10 {
        } else if i == 11 {
        }
    }
    assert forall|i: int, j: int| 0 <= i < j < 12 implies (#[trigger] c.line_listings@[i]).line != (#[trigger] c.line_listings@[j]).line by {
        if i == 0 && j == 1 {
        } else if i == 0 && j == 2 {
        } else if i == 0 && j == 3 {
        } else if i == 0 && j == 4 {
        } else if i == 0 && j == 5 {
        } else if i == 0 && j == 6 {
        } else if i == 0 && j == 7 {
        } else if i == 0 && j == 8 {
        } else if i == 0 && j == 9 {
        } else if i == 0 && j == 10 {
        } else if i == 0 && j == 11 {
        } else if i == 1 && j == 2 {
        } else if i == 1 && j == 3 {
        } else if i == 1 && j == 4 {
        } else if i == 1 && j == 5 {
        } else if i == 1 && j == 6 {
        } else if i == 1 && j == 7 {
        } else if i == 1 && j == 8 {
        } else if i == 1 && j == 9 {
        } else if i == 1 && j == 10 {
        } else if i == 1 && j == 11 {
        } else if i == 2 && j == 3 {
        } else if i == 2 && j == 4 {
        } else if i == 2 && j == 5 {
        } else if i == 2 && j == 6 {
        } else if i == 2 && j == 7 {
        } else if i == 2 && j == 8 {
        } else if i == 2 && j == 9 {
        } else if i == 2 && j == 10 {
        } else if i == 2 && j == 11 {
        } else if i == 3 && j == 4 {
        } else if i == 3 && j == 5 {
        } else if i == 3 && j == 6 {
        } else if i == 3 && j == 7 {
        } else if i == 3 && j == 8 {
        } else if i == 3 && j == 9 {
        } else if i == 3 && j == 10 {
        } else if i == 3 && j == 11 {
        } else if i == 4 && j == 5 {
        } else if i == 4 && j == 6 {
        } else if i == 4 && j == 7 {
        } else if i == 4 && j == 8 {
        } else if i == 4 && j == 9 {
        } else if i == 4 && j == 10 {
        } else if i == 4 && j == 11 {
        } else if i == 5 && j == 6 {
        } else if i == 5 && j == 7 {
        } else if i == 5 && j == 8 {
        } else if i == 5 && j == 9 {
        } else if i == 5 && j == 10 {
        } else if i == 5 && j == 11 {
        } else if i == 6 && j == 7 {
        } else if i == 6 && j == 8 {
        } else if i == 6 && j == 9 {
        } else if i == 6 && j == 10 {
        } else if i == 6 && j == 11 {
        } else if i == 7 && j == 8 {
        } else if i == 7 && j == 9 {
        } else if i == 7 && j == 10 {
        } else if i == 7 && j == 11 {
        } else if i == 8 && j == 9 {
        } else if i == 8 && j == 10 {
        } else if i == 8 && j == 11 {
        } else if i == 9 && j == 10 {
        } else if i == 9 && j == 11 {
        } else if i == 10 && j == 11 {
        }
    }
    assert(premise_ok(c, c.call_premises@[0])) by {
        assert(c.call_premises@[0].directory_ids@.len() == 1);
        assert forall|k: int| 0 <= k < 1 implies #[trigger] c.call_premises@[0].directory_ids@[k] <= 9999 by {
            if k == 0 {
            }
        }
        assert(c.subscribers@[13].key() == c.call_premises@[0].caller_id@);
        assert(c.subscribers@[0].key() == c.call_premises@[0].callee_id@);
        assert(c.line_listings@[9].key() == c.call_premises@[0].caller_line_id@);
        assert(c.line_listings@[0].key() == c.call_premises@[0].callee_line_id@);
        assert(c.call_premises@[0].caller_line_id@.len() != c.call_premises@[0].callee_line_id@.len());
        assert(texts(c.line_listings@[9].subscriber_ids@).len() == 3);
        assert(c.line_listings@[9].subscriber_ids@[2]@ == texts(c.line_listings@[9].subscriber_ids@)[2]);
        assert(c.line_listings@[9].id@ == "shapla"@ && has_text(c.line_listings@[9].subscriber_ids@, "rafi_alam"@));
        assert(texts(c.line_listings@[0].subscriber_ids@).len() == 1);
        assert(c.line_listings@[0].subscriber_ids@[0]@ == texts(c.line_listings@[0].subscriber_ids@)[0]);
        assert(c.line_listings@[0].id@ == "hospital"@ && has_text(c.line_listings@[0].subscriber_ids@, "anika_roy"@));
    }
    assert(premise_ok(c, c.call_premises@[1])) by {
        assert(c.call_premises@[1].directory_ids@.len() == 1);
        assert forall|k: int| 0 <= k < 1 implies #[trigger] c.call_premises@[1].directory_ids@[k] <= 9999 by {
            if k == 0 {
            }
        }
        assert(c.subscribers@[0].key() == c.call_premises@[1].caller_id@);
        assert(c.subscribers@[16].key() == c.call_premises@[1].callee_id@);
        assert(c.line_listings@[0].key() == c.call_premises@[1].caller_line_id@);
        assert(c.line_listings@[9].key() == c.call_premises@[1].callee_line_id@);
        assert(c.call_premises@[1].caller_line_id@.len() != c.call_premises@[1].callee_line_id@.len());
        assert(texts(c.line_listings@[0].subscriber_ids@).len() == 1);
        assert(c.line_listings@[0].subscriber_ids@[0]@ == texts(c.line_listings@[0].subscriber_ids@)[0]);
        assert(c.line_listings@[0].id@ == "hospital"@ && has_text(c.line_listings@[0].subscriber_ids@, "anika_roy"@));
        assert(texts(c.line_listings@[9].subscriber_ids@).len() == 3);
        assert(c.line_listings@[9].subscriber_ids@[1]@ == texts(c.line_listings@[9].subscriber_ids@)[1]);
        assert(c.line_listings@[9].id@ == "shapla"@ && has_text(c.line_listings@[9].subscriber_ids@, "asha_sen"@));
    }
    assert(premise_ok(c, c.call_premises@[2])) by {
        assert(c.call_premises@[2].directory_ids@.len() == 1);
        assert forall|k: int| 0 <= k < 1 implies #[trigger] c.call_premises@[2].directory_ids@[k] <= 9999 by {
            if k == 0 {
            }
        }
        assert(c.subscribers@[16].key() == c.call_premises@[2].caller_id@);
        assert(c.subscribers@[0].key() == c.call_premises@[2].callee_id@);
        assert(c.line_listings@[9].key() == c.call_premises@[2].caller_line_id@);
        assert(c.line_listings@[0].key() == c.call_premises@[2].callee_line_id@);
        assert(c.call_premises@[2].caller_line_id@.len() != c.call_premises@[2].callee_line_id@.len());
        assert(texts(c.line_listings@[9].subscriber_ids@).len() == 3);
        assert(c.line_listings@[9].subscriber_ids@[1]@ == texts(c.line_listings@[9].subscriber_ids@)[1]);
        assert(c.line_listings@[9].id@ == "shapla"@ && has_text(c.line_listings@[9].subscriber_ids@, "asha_sen"@));
        assert(texts(c.line_listings@[0].subscriber_ids@).len() == 1);
        assert(c.line_listings@[0].subscriber_ids@[0]@ == texts(c.line_listings@[0].subscriber_ids@)[0]);
        assert(c.line_listings@[0].id@ == "hospital"@ && has_text(c.line_listings@[0].subscriber_ids@, "anika_roy"@));
    }
    assert(premise_ok(c, c.call_premises@[3])) by {
        assert(c.call_premises@[3].directory_ids@.len() == 1);
        assert forall|k: int| 0 <= k < 1 implies #[trigger] c.call_premises@[3].directory_ids@[k] <= 9999 by {
            if k == 0 {
            }
        }
        assert(c.subscribers@[1].key() == c.call_premises@[3].caller_id@);
        assert(c.subscribers@[1].key() == c.call_premises@[3].callee_id@);
        assert(c.line_listings@[1].key() == c.call_premises@[3].caller_line_id@);
        assert(c.line_listings@[4].key() == c.call_premises@[3].callee_line_id@);
        assert(c.call_premises@[3].caller_line_id@.len() != c.call_premises@[3].callee_line_id@.len());
        assert(texts(c.line_listings@[1].subscriber_ids@).len() == 1);
        assert(c.line_listings@[1].subscriber_ids@[0]@ == texts(c.line_listings@[1].subscriber_ids@)[0]);
        assert(c.line_listings@[1].id@ == "secretariat"@ && has_text(c.line_listings@[1].subscriber_ids@, "nayan_boro"@));
        assert(texts(c.line_listings@[4].subscriber_ids@).len() == 1);
        assert(c.line_listings@[4].subscriber_ids@[0]@ == texts(c.line_listings@[4].subscriber_ids@)[0]);
        assert(c.line_listings@[4].id@ == "radio"@ && has_text(c.line_listings@[4].subscriber_ids@, "nayan_boro"@));
    }
    assert(premise_ok(c, c.call_premises@[4])) by {
        assert(c.call_premises@[4].directory_ids@.len() == 1);
        assert forall|k: int| 0 <= k < 1 implies #[trigger] c.call_premises@[4].directory_ids@[k] <= 9999 by {
            if k == 0 {
            }
        }
        assert(c.subscribers@[2].key() == c.call_premises@[4].caller_id@);
        assert(c.subscribers@[3].key() == c.call_premises@[4].callee_id@);
        assert(c.line_listings@[2].key() == c.call_premises@[4].caller_line_id@);
        assert(c.line_listings@[9].key() == c.call_premises@[4].callee_line_id@);
        assert(c.call_premises@[4].caller_line_id@.len() != c.call_premises@[4].callee_line_id@.len());
        assert(texts(c.line_listings@[2].subscriber_ids@).len() == 2);
        assert(c.line_listings@[2].subscriber_ids@[0]@ == texts(c.line_listings@[2].subscriber_ids@)[0]);
        assert(c.line_listings@[2].id@ == "home_affairs"@ && has_text(c.line_listings@[2].subscriber_ids@, "rakesh_nahal"@));
        assert(texts(c.line_listings@[9].subscriber_ids@).len() == 3);
        assert(c.line_listings@[9].subscriber_ids@[0]@ == texts(c.line_listings@[9].subscriber_ids@)[0]);
        assert(c.line_listings@[9].id@ == "shapla"@ && has_text(c.line_listings@[9].subscriber_ids@, "laleh_mir"@));
    }
    assert(premise_ok(c, c.call_premises@[5])) by {
        assert(c.call_premises@[5].directory_ids@.len() == 1);
        assert forall|k: int| 0 <= k < 1 implies #[trigger] c.call_premises@[5].directory_ids@[k] <= 9999 by {
            if k == 0 {
            }
        }
        assert(c.subscribers@[16].key() == c.call_premises@[5].caller_id@);
        assert(c.subscribers@[0].key() == c.call_premises@[5].callee_id@);
        assert(c.line_listings@[9].key() == c.call_premises@[5].caller_line_id@);
        assert(c.line_listings@[0].key() == c.call_premises@[5].callee_line_id@);
        assert(c.call_premises@[5].caller_line_id@.len() != c.call_premises@[5].callee_line_id@.len());
        assert(texts(c.line_listings@[9].subscriber_ids@).len() == 3);
        assert(c.line_listings@[9].subscriber_ids@[1]@ == texts(c.line_listings@[9].subscriber_ids@)[1]);
        assert(c.line_listings@[9].id@ == "shapla"@ && has_text(c.line_listings@[9].subscriber_ids@, "asha_sen"@));
        assert(texts(c.line_listings@[0].subscriber_ids@).len() == 1);
        assert(c.line_listings@[0].subscriber_ids@[0]@ == texts(c.line_listings@[0].subscriber_ids@)[0]);
        assert(c.line_listings@[0].id@ == "hospital"@ && has_text(c.line_listings@[0].subscriber_ids@, "anika_roy"@));
    }
    assert(premise_ok(c, c.call_premises@[6])) by {
        assert(c.call_premises@[6].directory_ids@.len() == 1);
        assert forall|k: int| 0 <= k < 1 implies #[trigger] c.call_premises@[6].directory_ids@[k] <= 9999 by {
            if k == 0 {
            }
        }
        assert(c.subscribers@[3].key() == c.call_premises@[6].caller_id@);
        assert(c.subscribers@[8].key() == c.call_premises@[6].callee_id@);
        assert(c.line_listings@[9].key() == c.call_premises@[6].caller_line_id@);
        assert(c.line_listings@[8].key() == c.call_premises@[6].callee_line_id@);
        assert(c.call_premises@[6].caller_line_id@.len() != c.call_premises@[6].callee_line_id@.len());
        assert(texts(c.line_listings@[9].subscriber_ids@).len() == 3);
        assert(c.line_listings@[9].subscriber_ids@[0]@ == texts(c.line_listings@[9].subscriber_ids@)[0]);
        assert(c.line_listings@[9].id@ == "shapla"@ && has_text(c.line_listings@[9].subscriber_ids@, "laleh_mir"@));
        assert(texts(c.line_listings@[8].subscriber_ids@).len() == 2);
        assert(c.line_listings@[8].subscriber_ids@[0]@ == texts(c.line_listings@[8].subscriber_ids@)[0]);
        assert(c.line_listings@[8].id@ == "ratan_colony"@ && has_text(c.line_listings@[8].subscriber_ids@, "paro_sen"@));
    }
    assert(premise_ok(c, c.call_premises@[7])) by {
        assert(c.call_premises@[7].directory_ids@.len() == 1);
        assert forall|k: int| 0 <= k < 1 implies #[trigger] c.call_premises@[7].directory_ids@[k] <= 9999 by {
            if k == 0 {
            }
        }
        assert(c.subscribers@[15].key() == c.call_premises@[7].caller_id@);
        assert(c.subscribers@[0].key() == c.call_premises@[7].callee_id@);
        assert(c.line_listings@[6].key() == c.call_premises@[7].caller_line_id@);
        assert(c.line_listings@[0].key() == c.call_premises@[7].callee_line_id@);
        assert(c.call_premises@[7].caller_line_id@.len() != c.call_premises@[7].callee_line_id@.len());
        assert(texts(c.line_listings@[6].subscriber_ids@).len() == 2);
        assert(c.line_listings@[6].subscriber_ids@[1]@ == texts(c.line_listings@[6].subscriber_ids@)[1]);
        assert(c.line_listings@[6].id@ == "hotel"@ && has_text(c.line_listings@[6].subscriber_ids@, "nahid_bkash"@));
        assert(texts(c.line_listings@[0].subscriber_ids@).len() == 1);
        assert(c.line_listings@[0].subscriber_ids@[0]@ == texts(c.line_listings@[0].subscriber_ids@)[0]);
        assert(c.line_listings@[0].id@ == "hospital"@ && has_text(c.line_listings@[0].subscriber_ids@, "anika_roy"@));
    }
    assert(premise_ok(c, c.call_premises@[8])) by {
        assert(c.call_premises@[8].directory_ids@.len() == 1);
        assert forall|k: int| 0 <= k < 1 implies #[trigger] c.call_premises@[8].directory_ids@[k] <= 9999 by {
            if k == 0 {
            }
        }
        assert(c.subscribers@[4].key() == c.call_premises@[8].caller_id@);
        assert(c.subscribers@[12].key() == c.call_premises@[8].callee_id@);
        assert(c.line_listings@[7].key() == c.call_premises@[8].caller_line_id@);
        assert(c.line_listings@[11].key() == c.call_premises@[8].callee_line_id@);
        assert(c.call_premises@[8].caller_line_id@.len() != c.call_premises@[8].callee_line_id@.len());
        assert(texts(c.line_listings@[7].subscriber_ids@).len() == 1);
        assert(c.line_listings@[7].subscriber_ids@[0]@ == texts(c.line_listings@[7].subscriber_ids@)[0]);
        assert(c.line_listings@[7].id@ == "mining_office"@ && has_text(c.line_listings@[7].subscriber_ids@, "javed_rahman"@));
        assert(texts(c.line_listings@[11].subscriber_ids@).len() == 1);
        assert(c.line_listings@[11].subscriber_ids@[0]@ == texts(c.line_listings@[11].subscriber_ids@)[0]);
        assert(c.line_listings@[11].id@ == "central_station"@ && has_text(c.line_listings@[11].subscriber_ids@, "mira_halek"@));
    }
    assert(premise_ok(c, c.call_premises@[9])) by {
        assert(c.call_premises@[9].directory_ids@.len() == 1);
        assert forall|k: int| 0 <= k < 1 implies #[trigger] c.call_premises@[9].directory_ids@[k] <= 9999 by {
            if k == 0 {
            }
        }
        assert(c.subscribers@[5].key() == c.call_premises@[9].caller_id@);
        assert(c.subscribers@[1].key() == c.call_premises@[9].callee_id@);
        assert(c.line_listings@[3].key() == c.call_premises@[9].caller_line_id@);
        assert(c.line_listings@[1].key() == c.call_premises@[9].callee_line_id@);
        assert(c.call_premises@[9].caller_line_id@.len() != c.call_premises@[9].callee_line_id@.len());
        assert(texts(c.line_listings@[3].subscriber_ids@).len() == 2);
        assert(c.line_listings@[3].subscriber_ids@[0]@ == texts(c.line_listings@[3].subscriber_ids@)[0]);
        assert(c.line_listings@[3].id@ == "cantonment"@ && has_text(c.line_listings@[3].subscriber_ids@, "captain_varo"@));
        assert(texts(c.line_listings@[1].subscriber_ids@).len() == 1);
        assert(c.line_listings@[1].subscriber_ids@[0]@ == texts(c.line_listings@[1].subscriber_ids@)[0]);
        assert(c.line_listings@[1].id@ == "secretariat"@ && has_text(c.line_listings@[1].subscriber_ids@, "nayan_boro"@));
    }
    assert(premise_ok(c, c.call_premises@[10])) by {
        assert(c.call_premises@[10].directory_ids@.len() == 1);
        assert forall|k: int| 0 <= k < 1 implies #[trigger] c.call_premises@[10].directory_ids@[k] <= 9999 by {
            if k == 0 {
            }
        }
        assert(c.subscribers@[6].key() == c.call_premises@[10].caller_id@);
        assert(c.subscribers@[11].key() == c.call_premises@[10].callee_id@);
        assert(c.line_listings@[6].key() == c.call_premises@[10].caller_line_id@);
        assert(c.line_listings@[5].key() == c.call_premises@[10].callee_line_id@);
        assert(c.call_premises@[10].caller_line_id@.len() != c.call_premises@[10].callee_line_id@.len());
        assert(texts(c.line_listings@[6].subscriber_ids@).len() == 2);
        assert(c.line_listings@[6].subscriber_ids@[0]@ == texts(c.line_listings@[6].subscriber_ids@)[0]);
        assert(c.line_listings@[6].id@ == "hotel"@ && has_text(c.line_listings@[6].subscriber_ids@, "tomas_vale"@));
        assert(texts(c.line_listings@[5].subscriber_ids@).len() == 1);
        assert(c.line_listings@[5].subscriber_ids@[0]@ == texts(c.line_listings@[5].subscriber_ids@)[0]);
        assert(c.line_listings@[5].id@ == "embassy"@ && has_text(c.line_listings@[5].subscriber_ids@, "meera_tal"@));
    }
    assert(premise_ok(c, c.call_premises@[11])) by {
        assert(c.call_premises@[11].directory_ids@.len() == 1);
        assert forall|k: int| 0 <= k < 1 implies #[trigger] c.call_premises@[11].directory_ids@[k] <= 9999 by {
            if k == 0 {
            }
        }
        assert(c.subscribers@[15].key() == c.call_premises@[11].caller_id@);
        assert(c.subscribers@[0].key() == c.call_premises@[11].callee_id@);
        assert(c.line_listings@[6].key() == c.call_premises@[11].caller_line_id@);
        assert(c.line_listings@[0].key() == c.call_premises@[11].callee_line_id@);
        assert(c.call_premises@[11].caller_line_id@.len() != c.call_premises@[11].callee_line_id@.len());
        assert(texts(c.line_listings@[6].subscriber_ids@).len() == 2);
        assert(c.line_listings@[6].subscriber_ids@[1]@ == texts(c.line_listings@[6].subscriber_ids@)[1]);
        assert(c.line_listings@[6].id@ == "hotel"@ && has_text(c.line_listings@[6].subscriber_ids@, "nahid_bkash"@));
        assert(texts(c.line_listings@[0].subscriber_ids@).len() == 1);
        assert(c.line_listings@[0].subscriber_ids@[0]@ == texts(c.line_listings@[0].subscriber_ids@)[0]);
        assert(c.line_listings@[0].id@ == "hospital"@ && has_text(c.line_listings@[0].subscriber_ids@, "anika_roy"@));
    }
    assert(premise_ok(c, c.call_premises@[12])) by {
        assert(c.call_premises@[12].directory_ids@.len() == 1);
        assert forall|k: int| 0 <= k < 1 implies #[trigger] c.call_premises@[12].directory_ids@[k] <= 9999 by {
            if k == 0 {
            }
        }
        assert(c.subscribers@[7].key() == c.call_premises@[12].caller_id@);
        assert(c.subscribers@[2].key() == c.call_premises@[12].callee_id@);
        assert(c.line_listings@[10].key() == c.call_premises@[12].caller_line_id@);
        assert(c.line_listings@[2].key() == c.call_premises@[12].callee_line_id@);
        assert(c.call_premises@[12].caller_line_id@.len() != c.call_premises@[12].callee_line_id@.len());
        assert(texts(c.line_listings@[10].subscriber_ids@).len() == 1);
        assert(c.line_listings@[10].subscriber_ids@[0]@ == texts(c.line_listings@[10].subscriber_ids@)[0]);
        assert(c.line_listings@[10].id@ == "market"@ && has_text(c.line_listings@[10].subscriber_ids@, "bikram_sen"@));
        assert(texts(c.line_listings@[2].subscriber_ids@).len() == 2);
        assert(c.line_listings@[2].subscriber_ids@[0]@ == texts(c.line_listings@[2].subscriber_ids@)[0]);
        assert(c.line_listings@[2].id@ == "home_affairs"@ && has_text(c.line_listings@[2].subscriber_ids@, "rakesh_nahal"@));
    }
    assert(premise_ok(c, c.call_premises@[13])) by {
        assert(c.call_premises@[13].directory_ids@.len() == 1);
        assert forall|k: int| 0 <= k < 1 implies #[trigger] c.call_premises@[13].directory_ids@[k] <= 9999 by {
            if k == 0 {
            }
        }
        assert(c.subscribers@[16].key() == c.call_premises@[13].caller_id@);
        assert(c.subscribers@[0].key() == c.call_premises@[13].callee_id@);
        assert(c.line_listings@[9].key() == c.call_premises@[13].caller_line_id@);
        assert(c.line_listings@[0].key() == c.call_premises@[13].callee_line_id@);
        assert(c.call_premises@[13].caller_line_id@.len() != c.call_premises@[13].callee_line_id@.len());
        assert(texts(c.line_listings@[9].subscriber_ids@).len() == 3);
        assert(c.line_listings@[9].subscriber_ids@[1]@ == texts(c.line_listings@[9].subscriber_ids@)[1]);
        assert(c.line_listings@[9].id@ == "shapla"@ && has_text(c.line_listings@[9].subscriber_ids@, "asha_sen"@));
        assert(texts(c.line_listings@[0].subscriber_ids@).len() == 1);
        assert(c.line_listings@[0].subscriber_ids@[0]@ == texts(c.line_listings@[0].subscriber_ids@)[0]);
        assert(c.line_listings@[0].id@ == "hospital"@ && has_text(c.line_listings@[0].subscriber_ids@, "anika_roy"@));
    }
    assert(premise_ok(c, c.call_premises@[14])) by {
        assert(c.call_premises@[14].directory_ids@.len() == 1);
        assert forall|k: int| 0 <= k < 1 implies #[trigger] c.call_premises@[14].directory_ids@[k] <= 9999 by {
            if k == 0 {
            }
        }
        assert(c.subscribers@[8].key() == c.call_premises@[14].caller_id@);
        assert(c.subscribers@[12].key() == c.call_premises@[14].callee_id@);
        assert(c.line_listings@[8].key() == c.call_premises@[14].caller_line_id@);
        assert(c.line_listings@[11].key() == c.call_premises@[14].callee_line_id@);
        assert(c.call_premises@[14].caller_line_id@.len() != c.call_premises@[14].callee_line_id@.len());
        assert(texts(c.line_listings@[8].subscriber_ids@).len() == 2);
        assert(c.line_listings@[8].subscriber_ids@[0]@ == texts(c.line_listings@[8].subscriber_ids@)[0]);
        assert(c.line_listings@[8].id@ == "ratan_colony"@ && has_text(c.line_listings@[8].subscriber_ids@, "paro_sen"@));
        assert(texts(c.line_listings@[11].subscriber_ids@).len() == 1);
        assert(c.line_listings@[11].subscriber_ids@[0]@ == texts(c.line_listings@[11].subscriber_ids@)[0]);
        assert(c.line_listings@[11].id@ == "central_station"@ && has_text(c.line_listings@[11].subscriber_ids@, "mira_halek"@));
    }
    assert(premise_ok(c, c.call_premises@[15])) by {
        assert(c.call_premises@[15].directory_ids@.len() == 1);
        assert forall|k: int| 0 <= k < 1 implies #[trigger] c.call_premises@[15].directory_ids@[k] <= 9999 by {
            if k == 0 {
            }
        }
        assert(c.subscribers@[14].key() == c.call_premises@[15].caller_id@);
        assert(c.subscribers@[3].key() == c.call_premises@[15].callee_id@);
        assert(c.line_listings@[8].key() == c.call_premises@[15].caller_line_id@);
        assert(c.line_listings@[9].key() == c.call_premises@[15].callee_line_id@);
        assert(c.call_premises@[15].caller_line_id@.len() != c.call_premises@[15].callee_line_id@.len());
        assert(texts(c.line_listings@[8].subscriber_ids@).len() == 2);
        assert(c.line_listings@[8].subscriber_ids@[1]@ == texts(c.line_listings@[8].subscriber_ids@)[1]);
        assert(c.line_listings@[8].id@ == "ratan_colony"@ && has_text(c.line_listings@[8].subscriber_ids@, "akash_dey"@));
        assert(texts(c.line_listings@[9].subscriber_ids@).len() == 3);
        assert(c.line_listings@[9].subscriber_ids@[0]@ == texts(c.line_listings@[9].subscriber_ids@)[0]);
        assert(c.line_listings@[9].id@ == "shapla"@ && has_text(c.line_listings@[9].subscriber_ids@, "laleh_mir"@));
    }
    assert(premise_ok(c, c.call_premises@[16])) by {
        assert(c.call_premises@[16].directory_ids@.len() == 1);
        assert forall|k: int| 0 <= k < 1 implies #[trigger] c.call_premises@[16].directory_ids@[k] <= 9999 by {
            if k == 0 {
            }
        }
        assert(c.subscribers@[2].key() == c.call_premises@[16].caller_id@);
        assert(c.subscribers@[0].key() == c.call_premises@[16].callee_id@);
        assert(c.line_listings@[2].key() == c.call_premises@[16].caller_line_id@);
        assert(c.line_listings@[0].key() == c.call_premises@[16].callee_line_id@);
        assert(c.call_premises@[16].caller_line_id@.len() != c.call_premises@[16].callee_line_id@.len());
        assert(texts(c.line_listings@[2].subscriber_ids@).len() == 2);
        assert(c.line_listings@[2].subscriber_ids@[0]@ == texts(c.line_listings@[2].subscriber_ids@)[0]);
        assert(c.line_listings@[2].id@ == "home_affairs"@ && has_text(c.line_listings@[2].subscriber_ids@, "rakesh_nahal"@));
        assert(texts(c.line_listings@[0].subscriber_ids@).len() == 1);
        assert(c.line_listings@[0].subscriber_ids@[0]@ == texts(c.line_listings@[0].subscriber_ids@)[0]);
        assert(c.line_listings@[0].id@ == "hospital"@ && has_text(c.line_listings@[0].subscriber_ids@, "anika_roy"@));
    }
    assert(premise_ok(c, c.call_premises@[17])) by {
        assert(c.call_premises@[17].directory_ids@.len() == 1);
        assert forall|k: int| 0 <= k < 1 implies #[trigger] c.call_premises@[17].directory_ids@[k] <= 9999 by {
            if k == 0 {
            }
        }
        assert(c.subscribers@[14].key() == c.call_premises@[17].caller_id@);
        assert(c.subscribers@[3].key() == c.call_premises@[17].callee_id@);
        assert(c.line_listings@[8].key() == c.call_premises@[17].caller_line_id@);
        assert(c.line_listings@[9].key() == c.call_premises@[17].callee_line_id@);
        assert(c.call_premises@[17].caller_line_id@.len() != c.call_premises@[17].callee_line_id@.len());
        assert(texts(c.line_listings@[8].subscriber_ids@).len() == 2);
        assert(c.line_listings@[8].subscriber_ids@[1]@ == texts(c.line_listings@[8].subscriber_ids@)[1]);
        assert(c.line_listings@[8].id@ == "ratan_colony"@ && has_text(c.line_listings@[8].subscriber_ids@, "akash_dey"@));
        assert(texts(c.line_listings@[9].subscriber_ids@).len() == 3);
        assert(c.line_listings@[9].subscriber_ids@[0]@ == texts(c.line_listings@[9].subscriber_ids@)[0]);
        assert(c.line_listings@[9].id@ == "shapla"@ && has_text(c.line_listings@[9].subscriber_ids@, "laleh_mir"@));
    }
    assert(premise_ok(c, c.call_premises@[18])) by {
        assert(c.call_premises@[18].directory_ids@.len() == 1);
        assert forall|k: int| 0 <= k < 1 implies #[trigger] c.call_premises@[18].directory_ids@[k] <= 9999 by {
            if k == 0 {
            }
        }
        assert(c.subscribers@[3].key() == c.call_premises@[18].caller_id@);
        assert(c.subscribers@[12].key() == c.call_premises@[18].callee_id@);
        assert(c.line_listings@[9].key() == c.call_premises@[18].caller_line_id@);
        assert(c.line_listings@[11].key() == c.call_premises@[18].callee_line_id@);
        assert(c.call_premises@[18].caller_line_id@.len() != c.call_premises@[18].callee_line_id@.len());
        assert(texts(c.line_listings@[9].subscriber_ids@).len() == 3);
        assert(c.line_listings@[9].subscriber_ids@[0]@ == texts(c.line_listings@[9].subscriber_ids@)[0]);
        assert(c.line_listings@[9].id@ == "shapla"@ && has_text(c.line_listings@[9].subscriber_ids@, "laleh_mir"@));
        assert(texts(c.line_listings@[11].subscriber_ids@).len() == 1);
        assert(c.line_listings@[11].subscriber_ids@[0]@ == texts(c.line_listings@[11].subscriber_ids@)[0]);
        assert(c.line_listings@[11].id@ == "central_station"@ && has_text(c.line_listings@[11].subscriber_ids@, "mira_halek"@));
    }
    assert(premise_ok(c, c.call_premises@[19])) by {
        assert(c.call_premises@[19].directory_ids@.len() == 1);
        assert forall|k: int| 0 <= k < 1 implies #[trigger] c.call_premises@[19].directory_ids@[k] <= 9999 by {
            if k == 0 {
            }
        }
        assert(c.subscribers@[9].key() == c.call_premises@[19].caller_id@);
        assert(c.subscribers@[12].key() == c.call_premises@[19].callee_id@);
        assert(c.line_listings@[2].key() == c.call_premises@[19].caller_line_id@);
        assert(c.line_listings@[11].key() == c.call_premises@[19].callee_line_id@);
        assert(c.call_premises@[19].caller_line_id@.len() != c.call_premises@[19].callee_line_id@.len());
        assert(texts(c.line_listings@[2].subscriber_ids@).len() == 2);
        assert(c.line_listings@[2].subscriber_ids@[1]@ == texts(c.line_listings@[2].subscriber_ids@)[1]);
        assert(c.line_listings@[2].id@ == "home_affairs"@ && has_text(c.line_listings@[2].subscriber_ids@, "dev_korr"@));
        assert(texts(c.line_listings@[11].subscriber_ids@).len() == 1);
        assert(c.line_listings@[11].subscriber_ids@[0]@ == texts(c.line_listings@[11].subscriber_ids@)[0]);
        assert(c.line_listings@[11].id@ == "central_station"@ && has_text(c.line_listings@[11].subscriber_ids@, "mira_halek"@));
    }
    assert(premise_ok(c, c.call_premises@[20])) by {
        assert(c.call_premises@[20].directory_ids@.len() == 1);
        assert forall|k: int| 0 <= k < 1 implies #[trigger] c.call_premises@[20].directory_ids@[k] <= 9999 by {
            if k == 0 {
            }
        }
        assert(c.subscribers@[10].key() == c.call_premises@[20].caller_id@);
        assert(c.subscribers@[1].key() == c.call_premises@[20].callee_id@);
        assert(c.line_listings@[3].key() == c.call_premises@[20].caller_line_id@);
        assert(c.line_listings@[4].key() == c.call_premises@[20].callee_line_id@);
        assert(c.call_premises@[20].caller_line_id@.len() != c.call_premises@[20].callee_line_id@.len());
        assert(texts(c.line_listings@[3].subscriber_ids@).len() == 2);
        assert(c.line_listings@[3].subscriber_ids@[1]@ == texts(c.line_listings@[3].subscriber_ids@)[1]);
        assert(c.line_listings@[3].id@ == "cantonment"@ && has_text(c.line_listings@[3].subscriber_ids@, "arman_vey"@));
        assert(texts(c.line_listings@[4].subscriber_ids@).len() == 1);
        assert(c.line_listings@[4].subscriber_ids@[0]@ == texts(c.line_listings@[4].subscriber_ids@)[0]);
        assert(c.line_listings@[4].id@ == "radio"@ && has_text(c.line_listings@[4].subscriber_ids@, "nayan_boro"@));
    }
    assert(premise_ok(c, c.call_premises@[21])) by {
        assert(c.call_premises@[21].directory_ids@.len() == 1);
        assert forall|k: int| 0 <= k < 1 implies #[trigger] c.call_premises@[21].directory_ids@[k] <= 9999 by {
            if k == 0 {
            }
        }
        assert(c.subscribers@[11].key() == c.call_premises@[21].caller_id@);
        assert(c.subscribers@[6].key() == c.call_premises@[21].callee_id@);
        assert(c.line_listings@[5].key() == c.call_premises@[21].caller_line_id@);
        assert(c.line_listings@[6].key() == c.call_premises@[21].callee_line_id@);
        assert(c.call_premises@[21].caller_line_id@.len() != c.call_premises@[21].callee_line_id@.len());
        assert(texts(c.line_listings@[5].subscriber_ids@).len() == 1);
        assert(c.line_listings@[5].subscriber_ids@[0]@ == texts(c.line_listings@[5].subscriber_ids@)[0]);
        assert(c.line_listings@[5].id@ == "embassy"@ && has_text(c.line_listings@[5].subscriber_ids@, "meera_tal"@));
        assert(texts(c.line_listings@[6].subscriber_ids@).len() == 2);
        assert(c.line_listings@[6].subscriber_ids@[0]@ == texts(c.line_listings@[6].subscriber_ids@)[0]);
        assert(c.line_listings@[6].id@ == "hotel"@ && has_text(c.line_listings@[6].subscriber_ids@, "tomas_vale"@));
    }
    assert(premise_ok(c, c.call_premises@[22])) by {
        assert(c.call_premises@[22].directory_ids@.len() == 1);
        assert forall|k: int| 0 <= k < 1 implies #[trigger] c.call_premises@[22].directory_ids@[k] <= 9999 by {
            if k == 0 {
            }
        }
        assert(c.subscribers@[12].key() == c.call_premises@[22].caller_id@);
        assert(c.subscribers@[8].key() == c.call_premises@[22].callee_id@);
        assert(c.line_listings@[11].key() == c.call_premises@[22].caller_line_id@);
        assert(c.line_listings@[8].key() == c.call_premises@[22].callee_line_id@);
        assert(c.call_premises@[22].caller_line_id@.len() != c.call_premises@[22].callee_line_id@.len());
        assert(texts(c.line_listings@[11].subscriber_ids@).len() == 1);
        assert(c.line_listings@[11].subscriber_ids@[0]@ == texts(c.line_listings@[11].subscriber_ids@)[0]);
        assert(c.line_listings@[11].id@ == "central_station"@ && has_text(c.line_listings@[11].subscriber_ids@, "mira_halek"@));
        assert(texts(c.line_listings@[8].subscriber_ids@).len() == 2);
        assert(c.line_listings@[8].subscriber_ids@[0]@ == texts(c.line_listings@[8].subscriber_ids@)[0]);
        assert(c.line_listings@[8].id@ == "ratan_colony"@ && has_text(c.line_listings@[8].subscriber_ids@, "paro_sen"@));
    }
    assert forall|i: int| 0 <= i < 23 implies premise_ok(c, #[trigger] c.call_premises@[i]) by {
        if i == 0 {
        } else if i == 1 {
        } else if i == 2 {
        } else if i == 3 {
        } else if i == 4 {
        } else if i == 5 {
        } else if i == 6 {
        } else if i == 7 {
        } else if i == 8 {
        } else if i == 9 {
        } else if i == 10 {
        } else if i == 11 {
        } else if i == 12 {
        } else if i == 13 {
        } else if i == 14 {
        } else if i == 15 {
        } else if i == 16 {
        } else if i == 17 {
        } else if i == 18 {
        } else if i == 19 {
        } else if i == 20 {
        } else if i == 21 {
        } else if i == 22 {
        }
    }
    assert forall|i: int| 0 <= i < 23 implies has_key(c.call_premises@, (#[trigger] c.story_beats@[i]).call_premise_id@) by {
        if i == 0 {
            assert(c.call_premises@[0].key() == c.story_beats@[0].call_premise_id@);
        } else if i == 1 {
            assert(c.call_premises@[1].key() == c.story_beats@[1].call_premise_id@);
        } else if i == 2 {
            assert(c.call_premises@[2].key() == c.story_beats@[2].call_premise_id@);
        } else if i == 3 {
            assert(c.call_premises@[3].key() == c.story_beats@[3].call_premise_id@);
        } else if i == 4 {
            assert(c.call_premises@[4].key() == c.story_beats@[4].call_premise_id@);
        } else if i == 5 {
            assert(c.call_premises@[5].key() == c.story_beats@[5].call_premise_id@);
        } else if i == 6 {
            assert(c.call_premises@[6].key() == c.story_beats@[6].call_premise_id@);
        } else if i == 7 {
            assert(c.call_premises@[7].key() == c.story_beats@[7].call_premise_id@);
        } else if i == 8 {
            assert(c.call_premises@[8].key() == c.story_beats@[8].call_premise_id@);
        } else if i == 9 {
            assert(c.call_premises@[9].key() == c.story_beats@[9].call_premise_id@);
        } else if i == 10 {
            assert(c.call_premises@[10].key() == c.story_beats@[10].call_premise_id@);
        } else if i == 11 {
            assert(c.call_premises@[11].key() == c.story_beats@[11].call_premise_id@);
        } else if i == 12 {
            assert(c.call_premises@[12].key() == c.story_beats@[12].call_premise_id@);
        } else if i == 13 {
            assert(c.call_premises@[13].key() == c.story_beats@[13].call_premise_id@);
        } else if i == 14 {
            assert(c.call_premises@[14].key() == c.story_beats@[14].call_premise_id@);
        } else if i == 15 {
            assert(c.call_premises@[15].key() == c.story_beats@[15].call_premise_id@);
        } else if i == 16 {
            assert(c.call_premises@[16].key() == c.story_beats@[16].call_premise_id@);
        } else if i == 17 {
            assert(c.call_premises@[17].key() == c.story_beats@[17].call_premise_id@);
        } else if i == 18 {
            assert(c.call_premises@[18].key() == c.story_beats@[18].call_premise_id@);
        } else if i == 19 {
            assert(c.call_premises@[19].key() == c.story_beats@[19].call_premise_id@);
        } else if i == 20 {
            assert(c.call_premises@[20].key() == c.story_beats@[20].call_premise_id@);
        } else if i == 21 {
            assert(c.call_premises@[21].key() == c.story_beats@[21].call_premise_id@);
        } else if i == 22 {
            assert(c.call_premises@[22].key() == c.story_beats@[22].call_premise_id@);
        }
    }
    assert(event_ok(c, c.story_events@[0])) by {
        assert(outcome_pairs(c.story_events@[0].outcomes@).len() == 1);
        assert(outcome_pairs(c.story_events@[0].outcomes@)[0] == (c.story_events@[0].outcomes@[0].id@, c.story_events@[0].outcomes@[0].next_node_id@));
        assert(ids_ok(c.story_events@[0].outcomes@)) by {
            assert forall|i: int| 0 <= i < 1 implies !is_blank((#[trigger] c.story_events@[0].outcomes@[i]).key()) by {
                if i == 0 {
                    assert(!is_white_space(c.story_events@[0].outcomes@[0].key()[0]));
                }
            }
        }
        assert forall|k: int| 0 <= k < 1 implies has_key(c.nodes@, (#[trigger] c.story_events@[0].outcomes@[k]).next_node_id@) by {
            if k == 0 {
                assert(c.nodes@[5].key() == c.story_events@[0].outcomes@[0].next_node_id@);
            }
        }
    }
    assert(event_ok(c, c.story_events@[1])) by {
        assert(outcome_pairs(c.story_events@[1].outcomes@).len() == 1);
        assert(outcome_pairs(c.story_events@[1].outcomes@)[0] == (c.story_events@[1].outcomes@[0].id@, c.story_events@[1].outcomes@[0].next_node_id@));
        assert(ids_ok(c.story_events@[1].outcomes@)) by {
            assert forall|i: int| 0 <= i < 1 implies !is_blank((#[trigger] c.story_events@[1].outcomes@[i]).key()) by {
                if i == 0 {
                    assert(!is_white_space(c.story_events@[1].outcomes@[0].key()[0]));
                }
            }
        }
        assert forall|k: int| 0 <= k < 1 implies has_key(c.nodes@, (#[trigger] c.story_events@[1].outcomes@[k]).next_node_id@) by {
            if k == 0 {
                assert(c.nodes@[5].key() == c.story_events@[1].outcomes@[0].next_node_id@);
            }
        }
    }
    assert(event_ok(c, c.story_events@[2])) by {
        assert(outcome_pairs(c.story_events@[2].outcomes@).len() == 1);
        assert(outcome_pairs(c.story_events@[2].outcomes@)[0] == (c.story_events@[2].outcomes@[0].id@, c.story_events@[2].outcomes@[0].next_node_id@));
        assert(ids_ok(c.story_events@[2].outcomes@)) by {
            assert forall|i: int| 0 <= i < 1 implies !is_blank((#[trigger] c.story_events@[2].outcomes@[i]).key()) by {
                if i == 0 {
                    assert(!is_white_space(c.story_events@[2].outcomes@[0].key()[0]));
                }
            }
        }
        assert forall|k: int| 0 <= k < 1 implies has_key(c.nodes@, (#[trigger] c.story_events@[2].outcomes@[k]).next_node_id@) by {
            if k == 0 {
                assert(c.nodes@[5].key() == c.story_events@[2].outcomes@[0].next_node_id@);
            }
        }
    }
    assert(event_ok(c, c.story_events@[3])) by {
        assert(outcome_pairs(c.story_events@[3].outcomes@).len() == 1);
        assert(outcome_pairs(c.story_events@[3].outcomes@)[0] == (c.story_events@[3].outcomes@[0].id@, c.story_events@[3].outcomes@[0].next_node_id@));
        assert(ids_ok(c.story_events@[3].outcomes@)) by {
            assert forall|i: int| 0 <= i < 1 implies !is_blank((#[trigger] c.story_events@[3].outcomes@[i]).key()) by {
                if i == 0 {
                    assert(!is_white_space(c.story_events@[3].outcomes@[0].key()[0]));
                }
            }
        }
        assert forall|k: int| 0 <= k < 1 implies has_key(c.nodes@, (#[trigger] c.story_events@[3].outcomes@[k]).next_node_id@) by {
            if k == 0 {
                assert(c.nodes@[9].key() == c.story_events@[3].outcomes@[0].next_node_id@);
            }
        }
    }
    assert(event_ok(c, c.story_events@[4])) by {
        assert(outcome_pairs(c.story_events@[4].outcomes@).len() == 1);
        assert(outcome_pairs(c.story_events@[4].outcomes@)[0] == (c.story_events@[4].outcomes@[0].id@, c.story_events@[4].outcomes@[0].next_node_id@));
        assert(ids_ok(c.story_events@[4].outcomes@)) by {
            assert forall|i: int| 0 <= i < 1 implies !is_blank((#[trigger] c.story_events@[4].outcomes@[i]).key()) by {
                if i == 0 {
                    assert(!is_white_space(c.story_events@[4].outcomes@[0].key()[0]));
                }
            }
        }
        assert forall|k: int| 0 <= k < 1 implies has_key(c.nodes@, (#[trigger] c.story_events@[4].outcomes@[k]).next_node_id@) by {
            if k == 0 {
                assert(c.nodes@[9].key() == c.story_events@[4].outcomes@[0].next_node_id@);
            }
        }
    }
    assert(event_ok(c, c.story_events@[5])) by {
        assert(outcome_pairs(c.story_events@[5].outcomes@).len() == 1);
        assert(outcome_pairs(c.story_events@[5].outcomes@)[0] == (c.story_events@[5].outcomes@[0].id@, c.story_events@[5].outcomes@[0].next_node_id@));
        assert(ids_ok(c.story_events@[5].outcomes@)) by {
            assert forall|i: int| 0 <= i < 1 implies !is_blank((#[trigger] c.story_events@[5].outcomes@[i]).key()) by {
                if i == 0 {
                    assert(!is_white_space(c.story_events@[5].outcomes@[0].key()[0]));
                }
            }
        }
        assert forall|k: int| 0 <= k < 1 implies has_key(c.nodes@, (#[trigger] c.story_events@[5].outcomes@[k]).next_node_id@) by {
            if k == 0 {
                assert(c.nodes@[9].key() == c.story_events@[5].outcomes@[0].next_node_id@);
            }
        }
    }
    assert(event_ok(c, c.story_events@[6])) by {
        assert(outcome_pairs(c.story_events@[6].outcomes@).len() == 1);
        assert(outcome_pairs(c.story_events@[6].outcomes@)[0] == (c.story_events@[6].outcomes@[0].id@, c.story_events@[6].outcomes@[0].next_node_id@));
        assert(ids_ok(c.story_events@[6].outcomes@)) by {
            assert forall|i: int| 0 <= i < 1 implies !is_blank((#[trigger] c.story_events@[6].outcomes@[i]).key()) by {
                if i == 0 {
                    assert(!is_white_space(c.story_events@[6].outcomes@[0].key()[0]));
                }
            }
        }
        assert forall|k: int| 0 <= k < 1 implies has_key(c.nodes@, (#[trigger] c.story_events@[6].outcomes@[k]).next_node_id@) by {
            if k == 0 {
                assert(c.nodes@[13].key() == c.story_events@[6].outcomes@[0].next_node_id@);
            }
        }
    }
    assert(event_ok(c, c.story_events@[7])) by {
        assert(outcome_pairs(c.story_events@[7].outcomes@).len() == 1);
        assert(outcome_pairs(c.story_events@[7].outcomes@)[0] == (c.story_events@[7].outcomes@[0].id@, c.story_events@[7].outcomes@[0].next_node_id@));
        assert(ids_ok(c.story_events@[7].outcomes@)) by {
            assert forall|i: int| 0 <= i < 1 implies !is_blank((#[trigger] c.story_events@[7].outcomes@[i]).key()) by {
                if i == 0 {
                    assert(!is_white_space(c.story_events@[7].outcomes@[0].key()[0]));
                }
            }
        }
        assert forall|k: int| 0 <= k < 1 implies has_key(c.nodes@, (#[trigger] c.story_events@[7].outcomes@[k]).next_node_id@) by {
            if k == 0 {
                assert(c.nodes@[13].key() == c.story_events@[7].outcomes@[0].next_node_id@);
            }
        }
    }
    assert(event_ok(c, c.story_events@[8])) by {
        assert(outcome_pairs(c.story_events@[8].outcomes@).len() == 1);
        assert(outcome_pairs(c.story_events@[8].outcomes@)[0] == (c.story_events@[8].outcomes@[0].id@, c.story_events@[8].outcomes@[0].next_node_id@));
        assert(ids_ok(c.story_events@[8].outcomes@)) by {
            assert forall|i: int| 0 <= i < 1 implies !is_blank((#[trigger] c.story_events@[8].outcomes@[i]).key()) by {
                if i == 0 {
                    assert(!is_white_space(c.story_events@[8].outcomes@[0].key()[0]));
                }
            }
        }
        assert forall|k: int| 0 <= k < 1 implies has_key(c.nodes@, (#[trigger] c.story_events@[8].outcomes@[k]).next_node_id@) by {
            if k == 0 {
                assert(c.nodes@[13].key() == c.story_events@[8].outcomes@[0].next_node_id@);
            }
        }
    }
    assert(event_ok(c, c.story_events@[9])) by {
        assert(outcome_pairs(c.story_events@[9].outcomes@).len() == 1);
        assert(outcome_pairs(c.story_events@[9].outcomes@)[0] == (c.story_events@[9].outcomes@[0].id@, c.story_events@[9].outcomes@[0].next_node_id@));
        assert(ids_ok(c.story_events@[9].outcomes@)) by {
            assert forall|i: int| 0 <= i < 1 implies !is_blank((#[trigger] c.story_events@[9].outcomes@[i]).key()) by {
                if i == 0 {
                    assert(!is_white_space(c.story_events@[9].outcomes@[0].key()[0]));
                }
            }
        }
        assert forall|k: int| 0 <= k < 1 implies has_key(c.nodes@, (#[trigger] c.story_events@[9].outcomes@[k]).next_node_id@) by {
            if k == 0 {
                assert(c.nodes@[17].key() == c.story_events@[9].outcomes@[0].next_node_id@);
            }
        }
    }
    assert(event_ok(c, c.story_events@[10])) by {
        assert(outcome_pairs(c.story_events@[10].outcomes@).len() == 1);
        assert(outcome_pairs(c.story_events@[10].outcomes@)[0] == (c.story_events@[10].outcomes@[0].id@, c.story_events@[10].outcomes@[0].next_node_id@));
        assert(ids_ok(c.story_events@[10].outcomes@)) by {
            assert forall|i: int| 0 <= i < 1 implies !is_blank((#[trigger] c.story_events@[10].outcomes@[i]).key()) by {
                if i == 0 {
                    assert(!is_white_space(c.story_events@[10].outcomes@[0].key()[0]));
                }
            }
        }
        assert forall|k: int| 0 <= k < 1 implies has_key(c.nodes@, (#[trigger] c.story_events@[10].outcomes@[k]).next_node_id@) by {
            if k == 0 {
                assert(c.nodes@[17].key() == c.story_events@[10].outcomes@[0].next_node_id@);
            }
        }
    }
    assert(event_ok(c, c.story_events@[11])) by {
        assert(outcome_pairs(c.story_events@[11].outcomes@).len() == 1);
        assert(outcome_pairs(c.story_events@[11].outcomes@)[0] == (c.story_events@[11].outcomes@[0].id@, c.story_events@[11].outcomes@[0].next_node_id@));
        assert(ids_ok(c.story_events@[11].outcomes@)) by {
            assert forall|i: int| 0 <= i < 1 implies !is_blank((#[trigger] c.story_events@[11].outcomes@[i]).key()) by {
                if i == 0 {
                    assert(!is_white_space(c.story_events@[11].outcomes@[0].key()[0]));
                }
            }
        }
        assert forall|k: int| 0 <= k < 1 implies has_key(c.nodes@, (#[trigger] c.story_events@[11].outcomes@[k]).next_node_id@) by {
            if k == 0 {
                assert(c.nodes@[17].key() == c.story_events@[11].outcomes@[0].next_node_id@);
            }
        }
    }
    assert(event_ok(c, c.story_events@[12])) by {
        assert(outcome_pairs(c.story_events@[12].outcomes@).len() == 1);
        assert(outcome_pairs(c.story_events@[12].outcomes@)[0] == (c.story_events@[12].outcomes@[0].id@, c.story_events@[12].outcomes@[0].next_node_id@));
        assert(ids_ok(c.story_events@[12].outcomes@)) by {
            assert forall|i: int| 0 <= i < 1 implies !is_blank((#[trigger] c.story_events@[12].outcomes@[i]).key()) by {
                if i == 0 {
                    assert(!is_white_space(c.story_events@[12].outcomes@[0].key()[0]));
                }
            }
        }
        assert forall|k: int| 0 <= k < 1 implies has_key(c.nodes@, (#[trigger] c.story_events@[12].outcomes@[k]).next_node_id@) by {
            if k == 0 {
                assert(c.nodes@[21].key() == c.story_events@[12].outcomes@[0].next_node_id@);
            }
        }
    }
    assert(event_ok(c, c.story_events@[13])) by {
        assert(outcome_pairs(c.story_events@[13].outcomes@).len() == 1);
        assert(outcome_pairs(c.story_events@[13].outcomes@)[0] == (c.story_events@[13].outcomes@[0].id@, c.story_events@[13].outcomes@[0].next_node_id@));
        assert(ids_ok(c.story_events@[13].outcomes@)) by {
            assert forall|i: int| 0 <= i < 1 implies !is_blank((#[trigger] c.story_events@[13].outcomes@[i]).key()) by {
                if i == 0 {
                    assert(!is_white_space(c.story_events@[13].outcomes@[0].key()[0]));
                }
            }
        }
        assert forall|k: int| 0 <= k < 1 implies has_key(c.nodes@, (#[trigger] c.story_events@[13].outcomes@[k]).next_node_id@) by {
            if k == 0 {
                assert(c.nodes@[21].key() == c.story_events@[13].outcomes@[0].next_node_id@);
            }
        }
    }
    assert(event_ok(c, c.story_events@[14])) by {
        assert(outcome_pairs(c.story_events@[14].outcomes@).len() == 1);
        assert(outcome_pairs(c.story_events@[14].outcomes@)[0] == (c.story_events@[14].outcomes@[0].id@, c.story_events@[14].outcomes@[0].next_node_id@));
        assert(ids_ok(c.story_events@[14].outcomes@)) by {
            assert forall|i: int| 0 <= i < 1 implies !is_blank((#[trigger] c.story_events@[14].outcomes@[i]).key()) by {
                if i == 0 {
                    assert(!is_white_space(c.story_events@[14].outcomes@[0].key()[0]));
                }
            }
        }
        assert forall|k: int| 0 <= k < 1 implies has_key(c.nodes@, (#[trigger] c.story_events@[14].outcomes@[k]).next_node_id@) by {
            if k == 0 {
                assert(c.nodes@[21].key() == c.story_events@[14].outcomes@[0].next_node_id@);
            }
        }
    }
    assert(event_ok(c, c.story_events@[15])) by {
        assert(outcome_pairs(c.story_events@[15].outcomes@).len() == 1);
        assert(outcome_pairs(c.story_events@[15].outcomes@)[0] == (c.story_events@[15].outcomes@[0].id@, c.story_events@[15].outcomes@[0].next_node_id@));
        assert(ids_ok(c.story_events@[15].outcomes@)) by {
            assert forall|i: int| 0 <= i < 1 implies !is_blank((#[trigger] c.story_events@[15].outcomes@[i]).key()) by {
                if i == 0 {
                    assert(!is_white_space(c.story_events@[15].outcomes@[0].key()[0]));
                }
            }
        }
        assert forall|k: int| 0 <= k < 1 implies has_key(c.nodes@, (#[trigger] c.story_events@[15].outcomes@[k]).next_node_id@) by {
            if k == 0 {
                assert(c.nodes@[25].key() == c.story_events@[15].outcomes@[0].next_node_id@);
            }
        }
    }
    assert(event_ok(c, c.story_events@[16])) by {
        assert(outcome_pairs(c.story_events@[16].outcomes@).len() == 1);
        assert(outcome_pairs(c.story_events@[16].outcomes@)[0] == (c.story_events@[16].outcomes@[0].id@, c.story_events@[16].outcomes@[0].next_node_id@));
        assert(ids_ok(c.story_events@[16].outcomes@)) by {
            assert forall|i: int| 0 <= i < 1 implies !is_blank((#[trigger] c.story_events@[16].outcomes@[i]).key()) by {
                if i == 0 {
                    assert(!is_white_space(c.story_events@[16].outcomes@[0].key()[0]));
                }
            }
        }
        assert forall|k: int| 0 <= k < 1 implies has_key(c.nodes@, (#[trigger] c.story_events@[16].outcomes@[k]).next_node_id@) by {
            if k == 0 {
                assert(c.nodes@[25].key() == c.story_events@[16].outcomes@[0].next_node_id@);
            }
        }
    }
    assert(event_ok(c, c.story_events@[17])) by {
        assert(outcome_pairs(c.story_events@[17].outcomes@).len() == 1);
        assert(outcome_pairs(c.story_events@[17].outcomes@)[0] == (c.story_events@[17].outcomes@[0].id@, c.story_events@[17].outcomes@[0].next_node_id@));
        assert(ids_ok(c.story_events@[17].outcomes@)) by {
            assert forall|i: int| 0 <= i < 1 implies !is_blank((#[trigger] c.story_events@[17].outcomes@[i]).key()) by {
                if i == 0 {
                    assert(!is_white_space(c.story_events@[17].outcomes@[0].key()[0]));
                }
            }
        }
        assert forall|k: int| 0 <= k < 1 implies has_key(c.nodes@, (#[trigger] c.story_events@[17].outcomes@[k]).next_node_id@) by {
            if k == 0 {
                assert(c.nodes@[25].key() == c.story_events@[17].outcomes@[0].next_node_id@);
            }
        }
    }
    assert(event_ok(c, c.story_events@[18])) by {
        assert(outcome_pairs(c.story_events@[18].outcomes@).len() == 1);
        assert(outcome_pairs(c.story_events@[18].outcomes@)[0] == (c.story_events@[18].outcomes@[0].id@, c.story_events@[18].outcomes@[0].next_node_id@));
        assert(ids_ok(c.story_events@[18].outcomes@)) by {
            assert forall|i: int| 0 <= i < 1 implies !is_blank((#[trigger] c.story_events@[18].outcomes@[i]).key()) by {
                if i == 0 {
                    assert(!is_white_space(c.story_events@[18].outcomes@[0].key()[0]));
                }
            }
        }
        assert forall|k: int| 0 <= k < 1 implies has_key(c.nodes@, (#[trigger] c.story_events@[18].outcomes@[k]).next_node_id@) by {
            if k == 0 {
                assert(c.nodes@[29].key() == c.story_events@[18].outcomes@[0].next_node_id@);
            }
        }
    }
    assert(event_ok(c, c.story_events@[19])) by {
        assert(outcome_pairs(c.story_events@[19].outcomes@).len() == 1);
        assert(outcome_pairs(c.story_events@[19].outcomes@)[0] == (c.story_events@[19].outcomes@[0].id@, c.story_events@[19].outcomes@[0].next_node_id@));
        assert(ids_ok(c.story_events@[19].outcomes@)) by {
            assert forall|i: int| 0 <= i < 1 implies !is_blank((#[trigger] c.story_events@[19].outcomes@[i]).key()) by {
                if i == 0 {
                    assert(!is_white_space(c.story_events@[19].outcomes@[0].key()[0]));
                }
            }
        }
        assert forall|k: int| 0 <= k < 1 implies has_key(c.nodes@, (#[trigger] c.story_events@[19].outcomes@[k]).next_node_id@) by {
            if k == 0 {
                assert(c.nodes@[29].key() == c.story_events@[19].outcomes@[0].next_node_id@);
            }
        }
    }
    assert(event_ok(c, c.story_events@[20])) by {
        assert(outcome_pairs(c.story_events@[20].outcomes@).len() == 1);
        assert(outcome_pairs(c.story_events@[20].outcomes@)[0] == (c.story_events@[20].outcomes@[0].id@, c.story_events@[20].outcomes@[0].next_node_id@));
        assert(ids_ok(c.story_events@[20].outcomes@)) by {
            assert forall|i: int| 0 <= i < 1 implies !is_blank((#[trigger] c.story_events@[20].outcomes@[i]).key()) by {
                if i == 0 {
                    assert(!is_white_space(c.story_events@[20].outcomes@[0].key()[0]));
                }
            }
        }
        assert forall|k: int| 0 <= k < 1 implies has_key(c.nodes@, (#[trigger] c.story_events@[20].outcomes@[k]).next_node_id@) by {
            if k == 0 {
                assert(c.nodes@[29].key() == c.story_events@[20].outcomes@[0].next_node_id@);
            }
        }
    }
    assert(event_ok(c, c.story_events@[21])) by {
        assert(outcome_pairs(c.story_events@[21].outcomes@).len() == 1);
        assert(outcome_pairs(c.story_events@[21].outcomes@)[0] == (c.story_events@[21].outcomes@[0].id@, c.story_events@[21].outcomes@[0].next_node_id@));
        assert(ids_ok(c.story_events@[21].outcomes@)) by {
            assert forall|i: int| 0 <= i < 1 implies !is_blank((#[trigger] c.story_events@[21].outcomes@[i]).key()) by {
                if i == 0 {
                    assert(!is_white_space(c.story_events@[21].outcomes@[0].key()[0]));
                }
            }
        }
        assert forall|k: int| 0 <= k < 1 implies has_key(c.nodes@, (#[trigger] c.story_events@[21].outcomes@[k]).next_node_id@) by {
            if k == 0 {
                assert(c.nodes@[33].key() == c.story_events@[21].outcomes@[0].next_node_id@);
            }
        }
    }
    assert(event_ok(c, c.story_events@[22])) by {
        assert(outcome_pairs(c.story_events@[22].outcomes@).len() == 1);
        assert(outcome_pairs(c.story_events@[22].outcomes@)[0] == (c.story_events@[22].outcomes@[0].id@, c.story_events@[22].outcomes@[0].next_node_id@));
        assert(ids_ok(c.story_events@[22].outcomes@)) by {
            assert forall|i: int| 0 <= i < 1 implies !is_blank((#[trigger] c.story_events@[22].outcomes@[i]).key()) by {
                if i == 0 {
                    assert(!is_white_space(c.story_events@[22].outcomes@[0].key()[0]));
                }
            }
        }
        assert forall|k: int| 0 <= k < 1 implies has_key(c.nodes@, (#[trigger] c.story_events@[22].outcomes@[k]).next_node_id@) by {
            if k == 0 {
                assert(c.nodes@[33].key() == c.story_events@[22].outcomes@[0].next_node_id@);
            }
        }
    }
    assert(event_ok(c, c.story_events@[23])) by {
        assert(outcome_pairs(c.story_events@[23].outcomes@).len() == 1);
        assert(outcome_pairs(c.story_events@[23].outcomes@)[0] == (c.story_events@[23].outcomes@[0].id@, c.story_events@[23].outcomes@[0].next_node_id@));
        assert(ids_ok(c.story_events@[23].outcomes@)) by {
            assert forall|i: int| 0 <= i < 1 implies !is_blank((#[trigger] c.story_events@[23].outcomes@[i]).key()) by {
                if i == 0 {
                    assert(!is_white_space(c.story_events@[23].outcomes@[0].key()[0]));
                }
            }
        }
        assert forall|k: int| 0 <= k < 1 implies has_key(c.nodes@, (#[trigger] c.story_events@[23].outcomes@[k]).next_node_id@) by {
            if k == 0 {
                assert(c.nodes@[33].key() == c.story_events@[23].outcomes@[0].next_node_id@);
            }
        }
    }
    assert(event_ok(c, c.story_events@[24])) by {
        assert(outcome_pairs(c.story_events@[24].outcomes@).len() == 1);
        assert(outcome_pairs(c.story_events@[24].outcomes@)[0] == (c.story_events@[24].outcomes@[0].id@, c.story_events@[24].outcomes@[0].next_node_id@));
        assert(ids_ok(c.story_events@[24].outcomes@)) by {
            assert forall|i: int| 0 <= i < 1 implies !is_blank((#[trigger] c.story_events@[24].outcomes@[i]).key()) by {
                if i == 0 {
                    assert(!is_white_space(c.story_events@[24].outcomes@[0].key()[0]));
                }
            }
        }
        assert forall|k: int| 0 <= k < 1 implies has_key(c.nodes@, (#[trigger] c.story_events@[24].outcomes@[k]).next_node_id@) by {
            if k == 0 {
                assert(c.nodes@[37].key() == c.story_events@[24].outcomes@[0].next_node_id@);
            }
        }
    }
    assert(event_ok(c, c.story_events@[25])) by {
        assert(outcome_pairs(c.story_events@[25].outcomes@).len() == 1);
        assert(outcome_pairs(c.story_events@[25].outcomes@)[0] == (c.story_events@[25].outcomes@[0].id@, c.story_events@[25].outcomes@[0].next_node_id@));
        assert(ids_ok(c.story_events@[25].outcomes@)) by {
            assert forall|i: int| 0 <= i < 1 implies !is_blank((#[trigger] c.story_events@[25].outcomes@[i]).key()) by {
                if i == 0 {
                    assert(!is_white_space(c.story_events@[25].outcomes@[0].key()[0]));
                }
            }
        }
        assert forall|k: int| 0 <= k < 1 implies has_key(c.nodes@, (#[trigger] c.story_events@[25].outcomes@[k]).next_node_id@) by {
            if k == 0 {
                assert(c.nodes@[37].key() == c.story_events@[25].outcomes@[0].next_node_id@);
            }
        }
    }
    assert(event_ok(c, c.story_events@[26])) by {
        assert(outcome_pairs(c.story_events@[26].outcomes@).len() == 1);
        assert(outcome_pairs(c.story_events@[26].outcomes@)[0] == (c.story_events@[26].outcomes@[0].id@, c.story_events@[26].outcomes@[0].next_node_id@));
        assert(ids_ok(c.story_events@[26].outcomes@)) by {
            assert forall|i: int| 0 <= i < 1 implies !is_blank((#[trigger] c.story_events@[26].outcomes@[i]).key()) by {
                if i == 0 {
                    assert(!is_white_space(c.story_events@[26].outcomes@[0].key()[0]));
                }
            }
        }
        assert forall|k: int| 0 <= k < 1 implies has_key(c.nodes@, (#[trigger] c.story_events@[26].outcomes@[k]).next_node_id@) by {
            if k == 0 {
                assert(c.nodes@[37].key() == c.story_events@[26].outcomes@[0].next_node_id@);
            }
        }
    }
    assert(event_ok(c, c.story_events@[27])) by {
        assert(outcome_pairs(c.story_events@[27].outcomes@).len() == 1);
        assert(outcome_pairs(c.story_events@[27].outcomes@)[0] == (c.story_events@[27].outcomes@[0].id@, c.story_events@[27].outcomes@[0].next_node_id@));
        assert(ids_ok(c.story_events@[27].outcomes@)) by {
            assert forall|i: int| 0 <= i < 1 implies !is_blank((#[trigger] c.story_events@[27].outcomes@[i]).key()) by {
                if i == 0 {
                    assert(!is_white_space(c.story_events@[27].outcomes@[0].key()[0]));
                }
            }
        }
        assert forall|k: int| 0 <= k < 1 implies has_key(c.nodes@, (#[trigger] c.story_events@[27].outcomes@[k]).next_node_id@) by {
            if k == 0 {
                assert(c.nodes@[41].key() == c.story_events@[27].outcomes@[0].next_node_id@);
            }
        }
    }
    assert(event_ok(c, c.story_events@[28])) by {
        assert(outcome_pairs(c.story_events@[28].outcomes@).len() == 1);
        assert(outcome_pairs(c.story_events@[28].outcomes@)[0] == (c.story_events@[28].outcomes@[0].id@, c.story_events@[28].outcomes@[0].next_node_id@));
        assert(ids_ok(c.story_events@[28].outcomes@)) by {
            assert forall|i: int| 0 <= i < 1 implies !is_blank((#[trigger] c.story_events@[28].outcomes@[i]).key()) by {
                if i == 0 {
                    assert(!is_white_space(c.story_events@[28].outcomes@[0].key()[0]));
                }
            }
        }
        assert forall|k: int| 0 <= k < 1 implies has_key(c.nodes@, (#[trigger] c.story_events@[28].outcomes@[k]).next_node_id@) by {
            if k == 0 {
                assert(c.nodes@[41].key() == c.story_events@[28].outcomes@[0].next_node_id@);
            }
        }
    }
    assert(event_ok(c, c.story_events@[29])) by {
        assert(outcome_pairs(c.story_events@[29].outcomes@).len() == 1);
        assert(outcome_pairs(c.story_events@[29].outcomes@)[0] == (c.story_events@[29].outcomes@[0].id@, c.story_events@[29].outcomes@[0].next_node_id@));
        assert(ids_ok(c.story_events@[29].outcomes@)) by {
            assert forall|i: int| 0 <= i < 1 implies !is_blank((#[trigger] c.story_events@[29].outcomes@[i]).key()) by {
                if i == 0 {
                    assert(!is_white_space(c.story_events@[29].outcomes@[0].key()[0]));
                }
            }
        }
        assert forall|k: int| 0 <= k < 1 implies has_key(c.nodes@, (#[trigger] c.story_events@[29].outcomes@[k]).next_node_id@) by {
            if k == 0 {
                assert(c.nodes@[41].key() == c.story_events@[29].outcomes@[0].next_node_id@);
            }
        }
    }
    assert(event_ok(c, c.story_events@[30])) by {
        assert(outcome_pairs(c.story_events@[30].outcomes@).len() == 1);
        assert(outcome_pairs(c.story_events@[30].outcomes@)[0] == (c.story_events@[30].outcomes@[0].id@, c.story_events@[30].outcomes@[0].next_node_id@));
        assert(ids_ok(c.story_events@[30].outcomes@)) by {
            assert forall|i: int| 0 <= i < 1 implies !is_blank((#[trigger] c.story_events@[30].outcomes@[i]).key()) by {
                if i == 0 {
                    assert(!is_white_space(c.story_events@[30].outcomes@[0].key()[0]));
                }
            }
        }
        assert forall|k: int| 0 <= k < 1 implies has_key(c.nodes@, (#[trigger] c.story_events@[30].outcomes@[k]).next_node_id@) by {
            if k == 0 {
                assert(c.nodes@[45].key() == c.story_events@[30].outcomes@[0].next_node_id@);
            }
        }
    }
    assert(event_ok(c, c.story_events@[31])) by {
        assert(outcome_pairs(c.story_events@[31].outcomes@).len() == 1);
        assert(outcome_pairs(c.story_events@[31].outcomes@)[0] == (c.story_events@[31].outcomes@[0].id@, c.story_events@[31].outcomes@[0].next_node_id@));
        assert(ids_ok(c.story_events@[31].outcomes@)) by {
            assert forall|i: int| 0 <= i < 1 implies !is_blank((#[trigger] c.story_events@[31].outcomes@[i]).key()) by {
                if i == 0 {
                    assert(!is_white_space(c.story_events@[31].outcomes@[0].key()[0]));
                }
            }
        }
        assert forall|k: int| 0 <= k < 1 implies has_key(c.nodes@, (#[trigger] c.story_events@[31].outcomes@[k]).next_node_id@) by {
            if k == 0 {
                assert(c.nodes@[45].key() == c.story_events@[31].outcomes@[0].next_node_id@);
            }
        }
    }
    assert(event_ok(c, c.story_events@[32])) by {
        assert(outcome_pairs(c.story_events@[32].outcomes@).len() == 1);
        assert(outcome_pairs(c.story_events@[32].outcomes@)[0] == (c.story_events@[32].outcomes@[0].id@, c.story_events@[32].outcomes@[0].next_node_id@));
        assert(ids_ok(c.story_events@[32].outcomes@)) by {
            assert forall|i: int| 0 <= i < 1 implies !is_blank((#[trigger] c.story_events@[32].outcomes@[i]).key()) by {
                if i == 0 {
                    assert(!is_white_space(c.story_events@[32].outcomes@[0].key()[0]));
                }
            }
        }
        assert forall|k: int| 0 <= k < 1 implies has_key(c.nodes@, (#[trigger] c.story_events@[32].outcomes@[k]).next_node_id@) by {
            if k == 0 {
                assert(c.nodes@[45].key() == c.story_events@[32].outcomes@[0].next_node_id@);
            }
        }
    }
    assert(event_ok(c, c.story_events@[33])) by {
        assert(outcome_pairs(c.story_events@[33].outcomes@).len() == 1);
        assert(outcome_pairs(c.story_events@[33].outcomes@)[0] == (c.story_events@[33].outcomes@[0].id@, c.story_events@[33].outcomes@[0].next_node_id@));
        assert(ids_ok(c.story_events@[33].outcomes@)) by {
            assert forall|i: int| 0 <= i < 1 implies !is_blank((#[trigger] c.story_events@[33].outcomes@[i]).key()) by {
                if i == 0 {
                    assert(!is_white_space(c.story_events@[33].outcomes@[0].key()[0]));
                }
            }
        }
        assert forall|k: int| 0 <= k < 1 implies has_key(c.nodes@, (#[trigger] c.story_events@[33].outcomes@[k]).next_node_id@) by {
            if k == 0 {
                assert(c.nodes@[49].key() == c.story_events@[33].outcomes@[0].next_node_id@);
            }
        }
    }
    assert(event_ok(c, c.story_events@[34])) by {
        assert(outcome_pairs(c.story_events@[34].outcomes@).len() == 1);
        assert(outcome_pairs(c.story_events@[34].outcomes@)[0] == (c.story_events@[34].outcomes@[0].id@, c.story_events@[34].outcomes@[0].next_node_id@));
        assert(ids_ok(c.story_events@[34].outcomes@)) by {
            assert forall|i: int| 0 <= i < 1 implies !is_blank((#[trigger] c.story_events@[34].outcomes@[i]).key()) by {
                if i == 0 {
                    assert(!is_white_space(c.story_events@[34].outcomes@[0].key()[0]));
                }
            }
        }
        assert forall|k: int| 0 <= k < 1 implies has_key(c.nodes@, (#[trigger] c.story_events@[34].outcomes@[k]).next_node_id@) by {
            if k == 0 {
                assert(c.nodes@[49].key() == c.story_events@[34].outcomes@[0].next_node_id@);
            }
        }
    }
    assert(event_ok(c, c.story_events@[35])) by {
        assert(outcome_pairs(c.story_events@[35].outcomes@).len() == 1);
        assert(outcome_pairs(c.story_events@[35].outcomes@)[0] == (c.story_events@[35].outcomes@[0].id@, c.story_events@[35].outcomes@[0].next_node_id@));
        assert(ids_ok(c.story_events@[35].outcomes@)) by {
            assert forall|i: int| 0 <= i < 1 implies !is_blank((#[trigger] c.story_events@[35].outcomes@[i]).key()) by {
                if i == 0 {
                    assert(!is_white_space(c.story_events@[35].outcomes@[0].key()[0]));
                }
            }
        }
        assert forall|k: int| 0 <= k < 1 implies has_key(c.nodes@, (#[trigger] c.story_events@[35].outcomes@[k]).next_node_id@) by {
            if k == 0 {
                assert(c.nodes@[49].key() == c.story_events@[35].outcomes@[0].next_node_id@);
            }
        }
    }
    assert(event_ok(c, c.story_events@[36])) by {
        assert(outcome_pairs(c.story_events@[36].outcomes@).len() == 1);
        assert(outcome_pairs(c.story_events@[36].outcomes@)[0] == (c.story_events@[36].outcomes@[0].id@, c.story_events@[36].outcomes@[0].next_node_id@));
        assert(ids_ok(c.story_events@[36].outcomes@)) by {
            assert forall|i: int| 0 <= i < 1 implies !is_blank((#[trigger] c.story_events@[36].outcomes@[i]).key()) by {
                if i == 0 {
                    assert(!is_white_space(c.story_events@[36].outcomes@[0].key()[0]));
                }
            }
        }
        assert forall|k: int| 0 <= k < 1 implies has_key(c.nodes@, (#[trigger] c.story_events@[36].outcomes@[k]).next_node_id@) by {
            if k == 0 {
                assert(c.nodes@[53].key() == c.story_events@[36].outcomes@[0].next_node_id@);
            }
        }
    }
    assert(event_ok(c, c.story_events@[37])) by {
        assert(outcome_pairs(c.story_events@[37].outcomes@).len() == 1);
        assert(outcome_pairs(c.story_events@[37].outcomes@)[0] == (c.story_events@[37].outcomes@[0].id@, c.story_events@[37].outcomes@[0].next_node_id@));
        assert(ids_ok(c.story_events@[37].outcomes@)) by {
            assert forall|i: int| 0 <= i < 1 implies !is_blank((#[trigger] c.story_events@[37].outcomes@[i]).key()) by {
                if i == 0 {
                    assert(!is_white_space(c.story_events@[37].outcomes@[0].key()[0]));
                }
            }
        }
        assert forall|k: int| 0 <= k < 1 implies has_key(c.nodes@, (#[trigger] c.story_events@[37].outcomes@[k]).next_node_id@) by {
            if k == 0 {
                assert(c.nodes@[53].key() == c.story_events@[37].outcomes@[0].next_node_id@);
            }
        }
    }
    assert(event_ok(c, c.story_events@[38])) by {
        assert(outcome_pairs(c.story_events@[38].outcomes@).len() == 1);
        assert(outcome_pairs(c.story_events@[38].outcomes@)[0] == (c.story_events@[38].outcomes@[0].id@, c.story_events@[38].outcomes@[0].next_node_id@));
        assert(ids_ok(c.story_events@[38].outcomes@)) by {
            assert forall|i: int| 0 <= i < 1 implies !is_blank((#[trigger] c.story_events@[38].outcomes@[i]).key()) by {
                if i == 0 {
                    assert(!is_white_space(c.story_events@[38].outcomes@[0].key()[0]));
                }
            }
        }
        assert forall|k: int| 0 <= k < 1 implies has_key(c.nodes@, (#[trigger] c.story_events@[38].outcomes@[k]).next_node_id@) by {
            if k == 0 {
                assert(c.nodes@[53].key() == c.story_events@[38].outcomes@[0].next_node_id@);
            }
        }
    }
    assert(event_ok(c, c.story_events@[39])) by {
        assert(outcome_pairs(c.story_events@[39].outcomes@).len() == 1);
        assert(outcome_pairs(c.story_events@[39].outcomes@)[0] == (c.story_events@[39].outcomes@[0].id@, c.story_events@[39].outcomes@[0].next_node_id@));
        assert(ids_ok(c.story_events@[39].outcomes@)) by {
            assert forall|i: int| 0 <= i < 1 implies !is_blank((#[trigger] c.story_events@[39].outcomes@[i]).key()) by {
                if i == 0 {
                    assert(!is_white_space(c.story_events@[39].outcomes@[0].key()[0]));
                }
            }
        }
        assert forall|k: int| 0 <= k < 1 implies has_key(c.nodes@, (#[trigger] c.story_events@[39].outcomes@[k]).next_node_id@) by {
            if k == 0 {
                assert(c.nodes@[57].key() == c.story_events@[39].outcomes@[0].next_node_id@);
            }
        }
    }
    assert(event_ok(c, c.story_events@[40])) by {
        assert(outcome_pairs(c.story_events@[40].outcomes@).len() == 1);
        assert(outcome_pairs(c.story_events@[40].outcomes@)[0] == (c.story_events@[40].outcomes@[0].id@, c.story_events@[40].outcomes@[0].next_node_id@));
        assert(ids_ok(c.story_events@[40].outcomes@)) by {
            assert forall|i: int| 0 <= i < 1 implies !is_blank((#[trigger] c.story_events@[40].outcomes@[i]).key()) by {
                if i == 0 {
                    assert(!is_white_space(c.story_events@[40].outcomes@[0].key()[0]));
                }
            }
        }
        assert forall|k: int| 0 <= k < 1 implies has_key(c.nodes@, (#[trigger] c.story_events@[40].outcomes@[k]).next_node_id@) by {
            if k == 0 {
                assert(c.nodes@[57].key() == c.story_events@[40].outcomes@[0].next_node_id@);
            }
        }
    }
    assert(event_ok(c, c.story_events@[41])) by {
        assert(outcome_pairs(c.story_events@[41].outcomes@).len() == 1);
        assert(outcome_pairs(c.story_events@[41].outcomes@)[0] == (c.story_events@[41].outcomes@[0].id@, c.story_events@[41].outcomes@[0].next_node_id@));
        assert(ids_ok(c.story_events@[41].outcomes@)) by {
            assert forall|i: int| 0 <= i < 1 implies !is_blank((#[trigger] c.story_events@[41].outcomes@[i]).key()) by {
                if i == 0 {
                    assert(!is_white_space(c.story_events@[41].outcomes@[0].key()[0]));
                }
            }
        }
        assert forall|k: int| 0 <= k < 1 implies has_key(c.nodes@, (#[trigger] c.story_events@[41].outcomes@[k]).next_node_id@) by {
            if k == 0 {
                assert(c.nodes@[57].key() == c.story_events@[41].outcomes@[0].next_node_id@);
            }
        }
    }
    assert(event_ok(c, c.story_events@[42])) by {
        assert(outcome_pairs(c.story_events@[42].outcomes@).len() == 1);
        assert(outcome_pairs(c.story_events@[42].outcomes@)[0] == (c.story_events@[42].outcomes@[0].id@, c.story_events@[42].outcomes@[0].next_node_id@));
        assert(ids_ok(c.story_events@[42].outcomes@)) by {
            assert forall|i: int| 0 <= i < 1 implies !is_blank((#[trigger] c.story_events@[42].outcomes@[i]).key()) by {
                if i == 0 {
                    assert(!is_white_space(c.story_events@[42].outcomes@[0].key()[0]));
                }
            }
        }
        assert forall|k: int| 0 <= k < 1 implies has_key(c.nodes@, (#[trigger] c.story_events@[42].outcomes@[k]).next_node_id@) by {
            if k == 0 {
                assert(c.nodes@[61].key() == c.story_events@[42].outcomes@[0].next_node_id@);
            }
        }
    }
    assert(event_ok(c, c.story_events@[43])) by {
        assert(outcome_pairs(c.story_events@[43].outcomes@).len() == 1);
        assert(outcome_pairs(c.story_events@[43].outcomes@)[0] == (c.story_events@[43].outcomes@[0].id@, c.story_events@[43].outcomes@[0].next_node_id@));
        assert(ids_ok(c.story_events@[43].outcomes@)) by {
            assert forall|i: int| 0 <= i < 1 implies !is_blank((#[trigger] c.story_events@[43].outcomes@[i]).key()) by {
                if i == 0 {
                    assert(!is_white_space(c.story_events@[43].outcomes@[0].key()[0]));
                }
            }
        }
        assert forall|k: int| 0 <= k < 1 implies has_key(c.nodes@, (#[trigger] c.story_events@[43].outcomes@[k]).next_node_id@) by {
            if k == 0 {
                assert(c.nodes@[61].key() == c.story_events@[43].outcomes@[0].next_node_id@);
            }
        }
    }
    assert(event_ok(c, c.story_events@[44])) by {
        assert(outcome_pairs(c.story_events@[44].outcomes@).len() == 1);
        assert(outcome_pairs(c.story_events@[44].outcomes@)[0] == (c.story_events@[44].outcomes@[0].id@, c.story_events@[44].outcomes@[0].next_node_id@));
        assert(ids_ok(c.story_events@[44].outcomes@)) by {
            assert forall|i: int| 0 <= i < 1 implies !is_blank((#[trigger] c.story_events@[44].outcomes@[i]).key()) by {
                if i == 0 {
                    assert(!is_white_space(c.story_events@[44].outcomes@[0].key()[0]));
                }
            }
        }
        assert forall|k: int| 0 <= k < 1 implies has_key(c.nodes@, (#[trigger] c.story_events@[44].outcomes@[k]).next_node_id@) by {
            if k == 0 {
                assert(c.nodes@[61].key() == c.story_events@[44].outcomes@[0].next_node_id@);
            }
        }
    }
    assert(event_ok(c, c.story_events@[45])) by {
        assert(outcome_pairs(c.story_events@[45].outcomes@).len() == 1);
        assert(outcome_pairs(c.story_events@[45].outcomes@)[0] == (c.story_events@[45].outcomes@[0].id@, c.story_events@[45].outcomes@[0].next_node_id@));
        assert(ids_ok(c.story_events@[45].outcomes@)) by {
            assert forall|i: int| 0 <= i < 1 implies !is_blank((#[trigger] c.story_events@[45].outcomes@[i]).key()) by {
                if i == 0 {
                    assert(!is_white_space(c.story_events@[45].outcomes@[0].key()[0]));
                }
            }
        }
        assert forall|k: int| 0 <= k < 1 implies has_key(c.nodes@, (#[trigger] c.story_events@[45].outcomes@[k]).next_node_id@) by {
            if k == 0 {
                assert(c.nodes@[65].key() == c.story_events@[45].outcomes@[0].next_node_id@);
            }
        }
    }
    assert(event_ok(c, c.story_events@[46])) by {
        assert(outcome_pairs(c.story_events@[46].outcomes@).len() == 1);
        assert(outcome_pairs(c.story_events@[46].outcomes@)[0] == (c.story_events@[46].outcomes@[0].id@, c.story_events@[46].outcomes@[0].next_node_id@));
        assert(ids_ok(c.story_events@[46].outcomes@)) by {
            assert forall|i: int| 0 <= i < 1 implies !is_blank((#[trigger] c.story_events@[46].outcomes@[i]).key()) by {
                if i == 0 {
                    assert(!is_white_space(c.story_events@[46].outcomes@[0].key()[0]));
                }
            }
        }
        assert forall|k: int| 0 <= k < 1 implies has_key(c.nodes@, (#[trigger] c.story_events@[46].outcomes@[k]).next_node_id@) by {
            if k == 0 {
                assert(c.nodes@[65].key() == c.story_events@[46].outcomes@[0].next_node_id@);
            }
        }
    }
    assert(event_ok(c, c.story_events@[47])) by {
        assert(outcome_pairs(c.story_events@[47].outcomes@).len() == 1);
        assert(outcome_pairs(c.story_events@[47].outcomes@)[0] == (c.story_events@[47].outcomes@[0].id@, c.story_events@[47].outcomes@[0].next_node_id@));
        assert(ids_ok(c.story_events@[47].outcomes@)) by {
            assert forall|i: int| 0 <= i < 1 implies !is_blank((#[trigger] c.story_events@[47].outcomes@[i]).key()) by {
                if i == 0 {
                    assert(!is_white_space(c.story_events@[47].outcomes@[0].key()[0]));
                }
            }
        }
        assert forall|k: int| 0 <= k < 1 implies has_key(c.nodes@, (#[trigger] c.story_events@[47].outcomes@[k]).next_node_id@) by {
            if k == 0 {
                assert(c.nodes@[65].key() == c.story_events@[47].outcomes@[0].next_node_id@);
            }
        }
    }
    assert(event_ok(c, c.story_events@[48])) by {
        assert(outcome_pairs(c.story_events@[48].outcomes@).len() == 1);
        assert(outcome_pairs(c.story_events@[48].outcomes@)[0] == (c.story_events@[48].outcomes@[0].id@, c.story_events@[48].outcomes@[0].next_node_id@));
        assert(ids_ok(c.story_events@[48].outcomes@)) by {
            assert forall|i: int| 0 <= i < 1 implies !is_blank((#[trigger] c.story_events@[48].outcomes@[i]).key()) by {
                if i == 0 {
                    assert(!is_white_space(c.story_events@[48].outcomes@[0].key()[0]));
                }
            }
        }
        assert forall|k: int| 0 <= k < 1 implies has_key(c.nodes@, (#[trigger] c.story_events@[48].outcomes@[k]).next_node_id@) by {
            if k == 0 {
                assert(c.nodes@[69].key() == c.story_events@[48].outcomes@[0].next_node_id@);
            }
        }
    }
    assert(event_ok(c, c.story_events@[49])) by {
        assert(outcome_pairs(c.story_events@[49].outcomes@).len() == 1);
        assert(outcome_pairs(c.story_events@[49].outcomes@)[0] == (c.story_events@[49].outcomes@[0].id@, c.story_events@[49].outcomes@[0].next_node_id@));
        assert(ids_ok(c.story_events@[49].outcomes@)) by {
            assert forall|i: int| 0 <= i < 1 implies !is_blank((#[trigger] c.story_events@[49].outcomes@[i]).key()) by {
                if i == 0 {
                    assert(!is_white_space(c.story_events@[49].outcomes@[0].key()[0]));
                }
            }
        }
        assert forall|k: int| 0 <= k < 1 implies has_key(c.nodes@, (#[trigger] c.story_events@[49].outcomes@[k]).next_node_id@) by {
            if k == 0 {
                assert(c.nodes@[69].key() == c.story_events@[49].outcomes@[0].next_node_id@);
            }
        }
    }
    assert(event_ok(c, c.story_events@[50])) by {
        assert(outcome_pairs(c.story_events@[50].outcomes@).len() == 1);
        assert(outcome_pairs(c.story_events@[50].outcomes@)[0] == (c.story_events@[50].outcomes@[0].id@, c.story_events@[50].outcomes@[0].next_node_id@));
        assert(ids_ok(c.story_events@[50].outcomes@)) by {
            assert forall|i: int| 0 <= i < 1 implies !is_blank((#[trigger] c.story_events@[50].outcomes@[i]).key()) by {
                if i == 0 {
                    assert(!is_white_space(c.story_events@[50].outcomes@[0].key()[0]));
                }
            }
        }
        assert forall|k: int| 0 <= k < 1 implies has_key(c.nodes@, (#[trigger] c.story_events@[50].outcomes@[k]).next_node_id@) by {
            if k == 0 {
                assert(c.nodes@[69].key() == c.story_events@[50].outcomes@[0].next_node_id@);
            }
        }
    }
    assert(event_ok(c, c.story_events@[51])) by {
        assert(outcome_pairs(c.story_events@[51].outcomes@).len() == 1);
        assert(outcome_pairs(c.story_events@[51].outcomes@)[0] == (c.story_events@[51].outcomes@[0].id@, c.story_events@[51].outcomes@[0].next_node_id@));
        assert(ids_ok(c.story_events@[51].outcomes@)) by {
            assert forall|i: int| 0 <= i < 1 implies !is_blank((#[trigger] c.story_events@[51].outcomes@[i]).key()) by {
                if i == 0 {
                    assert(!is_white_space(c.story_events@[51].outcomes@[0].key()[0]));
                }
            }
        }
        assert forall|k: int| 0 <= k < 1 implies has_key(c.nodes@, (#[trigger] c.story_events@[51].outcomes@[k]).next_node_id@) by {
            if k == 0 {
                assert(c.nodes@[105].key() == c.story_events@[51].outcomes@[0].next_node_id@);
            }
        }
    }
    assert(event_ok(c, c.story_events@[52])) by {
        assert(outcome_pairs(c.story_events@[52].outcomes@).len() == 1);
        assert(outcome_pairs(c.story_events@[52].outcomes@)[0] == (c.story_events@[52].outcomes@[0].id@, c.story_events@[52].outcomes@[0].next_node_id@));
        assert(ids_ok(c.story_events@[52].outcomes@)) by {
            assert forall|i: int| 0 <= i < 1 implies !is_blank((#[trigger] c.story_events@[52].outcomes@[i]).key()) by {
                if i == 0 {
                    assert(!is_white_space(c.story_events@[52].outcomes@[0].key()[0]));
                }
            }
        }
        assert forall|k: int| 0 <= k < 1 implies has_key(c.nodes@, (#[trigger] c.story_events@[52].outcomes@[k]).next_node_id@) by {
            if k == 0 {
                assert(c.nodes@[105].key() == c.story_events@[52].outcomes@[0].next_node_id@);
            }
        }
    }
    assert(event_ok(c, c.story_events@[53])) by {
        assert(outcome_pairs(c.story_events@[53].outcomes@).len() == 1);
        assert(outcome_pairs(c.story_events@[53].outcomes@)[0] == (c.story_events@[53].outcomes@[0].id@, c.story_events@[53].outcomes@[0].next_node_id@));
        assert(ids_ok(c.story_events@[53].outcomes@)) by {
            assert forall|i: int| 0 <= i < 1 implies !is_blank((#[trigger] c.story_events@[53].outcomes@[i]).key()) by {
                if i == 0 {
                    assert(!is_white_space(c.story_events@[53].outcomes@[0].key()[0]));
                }
            }
        }
        assert forall|k: int| 0 <= k < 1 implies has_key(c.nodes@, (#[trigger] c.story_events@[53].outcomes@[k]).next_node_id@) by {
            if k == 0 {
                assert(c.nodes@[105].key() == c.story_events@[53].outcomes@[0].next_node_id@);
            }
        }
    }
    assert(event_ok(c, c.story_events@[54])) by {
        assert(outcome_pairs(c.story_events@[54].outcomes@).len() == 1);
        assert(outcome_pairs(c.story_events@[54].outcomes@)[0] == (c.story_events@[54].outcomes@[0].id@, c.story_events@[54].outcomes@[0].next_node_id@));
        assert(ids_ok(c.story_events@[54].outcomes@)) by {
            assert forall|i: int| 0 <= i < 1 implies !is_blank((#[trigger] c.story_events@[54].outcomes@[i]).key()) by {
                if i == 0 {
                    assert(!is_white_space(c.story_events@[54].outcomes@[0].key()[0]));
                }
            }
        }
        assert forall|k: int| 0 <= k < 1 implies has_key(c.nodes@, (#[trigger] c.story_events@[54].outcomes@[k]).next_node_id@) by {
            if k == 0 {
                assert(c.nodes@[81].key() == c.story_events@[54].outcomes@[0].next_node_id@);
            }
        }
    }
    assert(event_ok(c, c.story_events@[55])) by {
        assert(outcome_pairs(c.story_events@[55].outcomes@).len() == 1);
        assert(outcome_pairs(c.story_events@[55].outcomes@)[0] == (c.story_events@[55].outcomes@[0].id@, c.story_events@[55].outcomes@[0].next_node_id@));
        assert(ids_ok(c.story_events@[55].outcomes@)) by {
            assert forall|i: int| 0 <= i < 1 implies !is_blank((#[trigger] c.story_events@[55].outcomes@[i]).key()) by {
                if i == 0 {
                    assert(!is_white_space(c.story_events@[55].outcomes@[0].key()[0]));
                }
            }
        }
        assert forall|k: int| 0 <= k < 1 implies has_key(c.nodes@, (#[trigger] c.story_events@[55].outcomes@[k]).next_node_id@) by {
            if k == 0 {
                assert(c.nodes@[81].key() == c.story_events@[55].outcomes@[0].next_node_id@);
            }
        }
    }
    assert(event_ok(c, c.story_events@[56])) by {
        assert(outcome_pairs(c.story_events@[56].outcomes@).len() == 1);
        assert(outcome_pairs(c.story_events@[56].outcomes@)[0] == (c.story_events@[56].outcomes@[0].id@, c.story_events@[56].outcomes@[0].next_node_id@));
        assert(ids_ok(c.story_events@[56].outcomes@)) by {
            assert forall|i: int| 0 <= i < 1 implies !is_blank((#[trigger] c.story_events@[56].outcomes@[i]).key()) by {
                if i == 0 {
                    assert(!is_white_space(c.story_events@[56].outcomes@[0].key()[0]));
                }
            }
        }
        assert forall|k: int| 0 <= k < 1 implies has_key(c.nodes@, (#[trigger] c.story_events@[56].outcomes@[k]).next_node_id@) by {
            if k == 0 {
                assert(c.nodes@[81].key() == c.story_events@[56].outcomes@[0].next_node_id@);
            }
        }
    }
    assert(event_ok(c, c.story_events@[57])) by {
        assert(outcome_pairs(c.story_events@[57].outcomes@).len() == 1);
        assert(outcome_pairs(c.story_events@[57].outcomes@)[0] == (c.story_events@[57].outcomes@[0].id@, c.story_events@[57].outcomes@[0].next_node_id@));
        assert(ids_ok(c.story_events@[57].outcomes@)) by {
            assert forall|i: int| 0 <= i < 1 implies !is_blank((#[trigger] c.story_events@[57].outcomes@[i]).key()) by {
                if i == 0 {
                    assert(!is_white_space(c.story_events@[57].outcomes@[0].key()[0]));
                }
            }
        }
        assert forall|k: int| 0 <= k < 1 implies has_key(c.nodes@, (#[trigger] c.story_events@[57].outcomes@[k]).next_node_id@) by {
            if k == 0 {
                assert(c.nodes@[81].key() == c.story_events@[57].outcomes@[0].next_node_id@);
            }
        }
    }
    assert(event_ok(c, c.story_events@[58])) by {
        assert(outcome_pairs(c.story_events@[58].outcomes@).len() == 1);
        assert(outcome_pairs(c.story_events@[58].outcomes@)[0] == (c.story_events@[58].outcomes@[0].id@, c.story_events@[58].outcomes@[0].next_node_id@));
        assert(ids_ok(c.story_events@[58].outcomes@)) by {
            assert forall|i: int| 0 <= i < 1 implies !is_blank((#[trigger] c.story_events@[58].outcomes@[i]).key()) by {
                if i == 0 {
                    assert(!is_white_space(c.story_events@[58].outcomes@[0].key()[0]));
                }
            }
        }
        assert forall|k: int| 0 <= k < 1 implies has_key(c.nodes@, (#[trigger] c.story_events@[58].outcomes@[k]).next_node_id@) by {
            if k == 0 {
                assert(c.nodes@[81].key() == c.story_events@[58].outcomes@[0].next_node_id@);
            }
        }
    }
    assert(event_ok(c, c.story_events@[59])) by {
        assert(outcome_pairs(c.story_events@[59].outcomes@).len() == 1);
        assert(outcome_pairs(c.story_events@[59].outcomes@)[0] == (c.story_events@[59].outcomes@[0].id@, c.story_events@[59].outcomes@[0].next_node_id@));
        assert(ids_ok(c.story_events@[59].outcomes@)) by {
            assert forall|i: int| 0 <= i < 1 implies !is_blank((#[trigger] c.story_events@[59].outcomes@[i]).key()) by {
                if i == 0 {
                    assert(!is_white_space(c.story_events@[59].outcomes@[0].key()[0]));
                }
            }
        }
        assert forall|k: int| 0 <= k < 1 implies has_key(c.nodes@, (#[trigger] c.story_events@[59].outcomes@[k]).next_node_id@) by {
            if k == 0 {
                assert(c.nodes@[81].key() == c.story_events@[59].outcomes@[0].next_node_id@);
            }
        }
    }
    assert(event_ok(c, c.story_events@[60])) by {
        assert(outcome_pairs(c.story_events@[60].outcomes@).len() == 1);
        assert(outcome_pairs(c.story_events@[60].outcomes@)[0] == (c.story_events@[60].outcomes@[0].id@, c.story_events@[60].outcomes@[0].next_node_id@));
        assert(ids_ok(c.story_events@[60].outcomes@)) by {
            assert forall|i: int| 0 <= i < 1 implies !is_blank((#[trigger] c.story_events@[60].outcomes@[i]).key()) by {
                if i == 0 {
                    assert(!is_white_space(c.story_events@[60].outcomes@[0].key()[0]));
                }
            }
        }
        assert forall|k: int| 0 <= k < 1 implies has_key(c.nodes@, (#[trigger] c.story_events@[60].outcomes@[k]).next_node_id@) by {
            if k == 0 {
                assert(c.nodes@[85].key() == c.story_events@[60].outcomes@[0].next_node_id@);
            }
        }
    }
    assert(event_ok(c, c.story_events@[61])) by {
        assert(outcome_pairs(c.story_events@[61].outcomes@).len() == 1);
        assert(outcome_pairs(c.story_events@[61].outcomes@)[0] == (c.story_events@[61].outcomes@[0].id@, c.story_events@[61].outcomes@[0].next_node_id@));
        assert(ids_ok(c.story_events@[61].outcomes@)) by {
            assert forall|i: int| 0 <= i < 1 implies !is_blank((#[trigger] c.story_events@[61].outcomes@[i]).key()) by {
                if i == 0 {
                    assert(!is_white_space(c.story_events@[61].outcomes@[0].key()[0]));
                }
            }
        }
        assert forall|k: int| 0 <= k < 1 implies has_key(c.nodes@, (#[trigger] c.story_events@[61].outcomes@[k]).next_node_id@) by {
            if k == 0 {
                assert(c.nodes@[85].key() == c.story_events@[61].outcomes@[0].next_node_id@);
            }
        }
    }
    assert(event_ok(c, c.story_events@[62])) by {
        assert(outcome_pairs(c.story_events@[62].outcomes@).len() == 1);
        assert(outcome_pairs(c.story_events@[62].outcomes@)[0] == (c.story_events@[62].outcomes@[0].id@, c.story_events@[62].outcomes@[0].next_node_id@));
        assert(ids_ok(c.story_events@[62].outcomes@)) by {
            assert forall|i: int| 0 <= i < 1 implies !is_blank((#[trigger] c.story_events@[62].outcomes@[i]).key()) by {
                if i == 0 {
                    assert(!is_white_space(c.story_events@[62].outcomes@[0].key()[0]));
                }
            }
        }
        assert forall|k: int| 0 <= k < 1 implies has_key(c.nodes@, (#[trigger] c.story_events@[62].outcomes@[k]).next_node_id@) by {
            if k == 0 {
                assert(c.nodes@[85].key() == c.story_events@[62].outcomes@[0].next_node_id@);
            }
        }
    }
    assert(event_ok(c, c.story_events@[63])) by {
        assert(outcome_pairs(c.story_events@[63].outcomes@).len() == 1);
        assert(outcome_pairs(c.story_events@[63].outcomes@)[0] == (c.story_events@[63].outcomes@[0].id@, c.story_events@[63].outcomes@[0].next_node_id@));
        assert(ids_ok(c.story_events@[63].outcomes@)) by {
            assert forall|i: int| 0 <= i < 1 implies !is_blank((#[trigger] c.story_events@[63].outcomes@[i]).key()) by {
                if i == 0 {
                    assert(!is_white_space(c.story_events@[63].outcomes@[0].key()[0]));
                }
            }
        }
        assert forall|k: int| 0 <= k < 1 implies has_key(c.nodes@, (#[trigger] c.story_events@[63].outcomes@[k]).next_node_id@) by {
            if k == 0 {
                assert(c.nodes@[106].key() == c.story_events@[63].outcomes@[0].next_node_id@);
            }
        }
    }
    assert(event_ok(c, c.story_events@[64])) by {
        assert(outcome_pairs(c.story_events@[64].outcomes@).len() == 1);
        assert(outcome_pairs(c.story_events@[64].outcomes@)[0] == (c.story_events@[64].outcomes@[0].id@, c.story_events@[64].outcomes@[0].next_node_id@));
        assert(ids_ok(c.story_events@[64].outcomes@)) by {
            assert forall|i: int| 0 <= i < 1 implies !is_blank((#[trigger] c.story_events@[64].outcomes@[i]).key()) by {
                if i == 0 {
                    assert(!is_white_space(c.story_events@[64].outcomes@[0].key()[0]));
                }
            }
        }
        assert forall|k: int| 0 <= k < 1 implies has_key(c.nodes@, (#[trigger] c.story_events@[64].outcomes@[k]).next_node_id@) by {
            if k == 0 {
                assert(c.nodes@[106].key() == c.story_events@[64].outcomes@[0].next_node_id@);
            }
        }
    }
    assert(event_ok(c, c.story_events@[65])) by {
        assert(outcome_pairs(c.story_events@[65].outcomes@).len() == 1);
        assert(outcome_pairs(c.story_events@[65].outcomes@)[0] == (c.story_events@[65].outcomes@[0].id@, c.story_events@[65].outcomes@[0].next_node_id@));
        assert(ids_ok(c.story_events@[65].outcomes@)) by {
            assert forall|i: int| 0 <= i < 1 implies !is_blank((#[trigger] c.story_events@[65].outcomes@[i]).key()) by {
                if i == 0 {
                    assert(!is_white_space(c.story_events@[65].outcomes@[0].key()[0]));
                }
            }
        }
        assert forall|k: int| 0 <= k < 1 implies has_key(c.nodes@, (#[trigger] c.story_events@[65].outcomes@[k]).next_node_id@) by {
            if k == 0 {
                assert(c.nodes@[106].key() == c.story_events@[65].outcomes@[0].next_node_id@);
            }
        }
    }
    assert(event_ok(c, c.story_events@[66])) by {
        assert(outcome_pairs(c.story_events@[66].outcomes@).len() == 6);
        assert(outcome_pairs(c.story_events@[66].outcomes@)[0] == (c.story_events@[66].outcomes@[0].id@, c.story_events@[66].outcomes@[0].next_node_id@));
        assert(outcome_pairs(c.story_events@[66].outcomes@)[1] == (c.story_events@[66].outcomes@[1].id@, c.story_events@[66].outcomes@[1].next_node_id@));
        assert(outcome_pairs(c.story_events@[66].outcomes@)[2] == (c.story_events@[66].outcomes@[2].id@, c.story_events@[66].outcomes@[2].next_node_id@));
        assert(outcome_pairs(c.story_events@[66].outcomes@)[3] == (c.story_events@[66].outcomes@[3].id@, c.story_events@[66].outcomes@[3].next_node_id@));
        assert(outcome_pairs(c.story_events@[66].outcomes@)[4] == (c.story_events@[66].outcomes@[4].id@, c.story_events@[66].outcomes@[4].next_node_id@));
        assert(outcome_pairs(c.story_events@[66].outcomes@)[5] == (c.story_events@[66].outcomes@[5].id@, c.story_events@[66].outcomes@[5].next_node_id@));
        assert(ids_ok(c.story_events@[66].outcomes@)) by {
            assert forall|i: int| 0 <= i < 6 implies !is_blank((#[trigger] c.story_events@[66].outcomes@[i]).key()) by {
                if i == 0 {
                    assert(!is_white_space(c.story_events@[66].outcomes@[0].key()[0]));
                } else if i == 1 {
                    assert(!is_white_space(c.story_events@[66].outcomes@[1].key()[0]));
                } else if i == 2 {
                    assert(!is_white_space(c.story_events@[66].outcomes@[2].key()[0]));
                } else if i == 3 {
                    assert(!is_white_space(c.story_events@[66].outcomes@[3].key()[0]));
                } else if i == 4 {
                    assert(!is_white_space(c.story_events@[66].outcomes@[4].key()[0]));
                } else if i == 5 {
                    assert(!is_white_space(c.story_events@[66].outcomes@[5].key()[0]));
                }
            }
            assert forall|i: int, j: int| 0 <= i < j < 6 implies (#[trigger] c.story_events@[66].outcomes@[i]).key() != (#[trigger] c.story_events@[66].outcomes@[j]).key() by {
                if i == 0 && j == 1 {
                    assert(c.story_events@[66].outcomes@[0].key().len() != c.story_events@[66].outcomes@[1].key().len());
                } else if i == 0 && j == 2 {
                    assert(c.story_events@[66].outcomes@[0].key().len() != c.story_events@[66].outcomes@[2].key().len());
                } else if i == 0 && j == 3 {
                    assert(c.story_events@[66].outcomes@[0].key().len() != c.story_events@[66].outcomes@[3].key().len());
                } else if i == 0 && j == 4 {
                    assert(c.story_events@[66].outcomes@[0].key().len() != c.story_events@[66].outcomes@[4].key().len());
                } else if i == 0 && j == 5 {
                    assert(c.story_events@[66].outcomes@[0].key().len() != c.story_events@[66].outcomes@[5].key().len());
                } else if i == 1 && j == 2 {
                    assert(c.story_events@[66].outcomes@[1].key().len() != c.story_events@[66].outcomes@[2].key().len());
                } else if i == 1 && j == 3 {
                    assert(c.story_events@[66].outcomes@[1].key().len() != c.story_events@[66].outcomes@[3].key().len());
                } else if i == 1 && j == 4 {
                    assert(c.story_events@[66].outcomes@[1].key().len() != c.story_events@[66].outcomes@[4].key().len());
                } else if i == 1 && j == 5 {
                    assert(c.story_events@[66].outcomes@[1].key().len() != c.story_events@[66].outcomes@[5].key().len());
                } else if i == 2 && j == 3 {
                    assert(c.story_events@[66].outcomes@[2].key().len() != c.story_events@[66].outcomes@[3].key().len());
                } else if i == 2 && j == 4 {
                    assert(c.story_events@[66].outcomes@[2].key().len() != c.story_events@[66].outcomes@[4].key().len());
                } else if i == 2 && j == 5 {
                    assert(c.story_events@[66].outcomes@[2].key().len() != c.story_events@[66].outcomes@[5].key().len());
                } else if i == 3 && j == 4 {
                    assert(c.story_events@[66].outcomes@[3].key().len() != c.story_events@[66].outcomes@[4].key().len());
                } else if i == 3 && j == 5 {
                    assert(c.story_events@[66].outcomes@[3].key().len() != c.story_events@[66].outcomes@[5].key().len());
                } else if i == 4 && j == 5 {
                    assert(c.story_events@[66].outcomes@[4].key().len() != c.story_events@[66].outcomes@[5].key().len());
                }
            }
        }
        assert forall|k: int| 0 <= k < 6 implies has_key(c.nodes@, (#[trigger] c.story_events@[66].outcomes@[k]).next_node_id@) by {
            if k == 0 {
                assert(c.nodes@[111].key() == c.story_events@[66].outcomes@[0].next_node_id@);
            } else if k == 1 {
                assert(c.nodes@[113].key() == c.story_events@[66].outcomes@[1].next_node_id@);
            } else if k == 2 {
                assert(c.nodes@[114].key() == c.story_events@[66].outcomes@[2].next_node_id@);
            } else if k == 3 {
                assert(c.nodes@[115].key() == c.story_events@[66].outcomes@[3].next_node_id@);
            } else if k == 4 {
                assert(c.nodes@[116].key() == c.story_events@[66].outcomes@[4].next_node_id@);
            } else if k == 5 {
                assert(c.nodes@[117].key() == c.story_events@[66].outcomes@[5].next_node_id@);
            }
        }
    }
    assert(event_ok(c, c.story_events@[67])) by {
        assert(outcome_pairs(c.story_events@[67].outcomes@).len() == 1);
        assert(outcome_pairs(c.story_events@[67].outcomes@)[0] == (c.story_events@[67].outcomes@[0].id@, c.story_events@[67].outcomes@[0].next_node_id@));
        assert(ids_ok(c.story_events@[67].outcomes@)) by {
            assert forall|i: int| 0 <= i < 1 implies !is_blank((#[trigger] c.story_events@[67].outcomes@[i]).key()) by {
                if i == 0 {
                    assert(!is_white_space(c.story_events@[67].outcomes@[0].key()[0]));
                }
            }
        }
        assert forall|k: int| 0 <= k < 1 implies has_key(c.nodes@, (#[trigger] c.story_events@[67].outcomes@[k]).next_node_id@) by {
            if k == 0 {
                assert(c.nodes@[112].key() == c.story_events@[67].outcomes@[0].next_node_id@);
            }
        }
    }
    assert(event_ok(c, c.story_events@[68])) by {
        assert(outcome_pairs(c.story_events@[68].outcomes@).len() == 1);
        assert(outcome_pairs(c.story_events@[68].outcomes@)[0] == (c.story_events@[68].outcomes@[0].id@, c.story_events@[68].outcomes@[0].next_node_id@));
        assert(ids_ok(c.story_events@[68].outcomes@)) by {
            assert forall|i: int| 0 <= i < 1 implies !is_blank((#[trigger] c.story_events@[68].outcomes@[i]).key()) by {
                if i == 0 {
                    assert(!is_white_space(c.story_events@[68].outcomes@[0].key()[0]));
                }
            }
        }
        assert forall|k: int| 0 <= k < 1 implies has_key(c.nodes@, (#[trigger] c.story_events@[68].outcomes@[k]).next_node_id@) by {
            if k == 0 {
                assert(c.nodes@[112].key() == c.story_events@[68].outcomes@[0].next_node_id@);
            }
        }
    }
    assert(event_ok(c, c.story_events@[69])) by {
        assert(outcome_pairs(c.story_events@[69].outcomes@).len() == 1);
        assert(outcome_pairs(c.story_events@[69].outcomes@)[0] == (c.story_events@[69].outcomes@[0].id@, c.story_events@[69].outcomes@[0].next_node_id@));
        assert(ids_ok(c.story_events@[69].outcomes@)) by {
            assert forall|i: int| 0 <= i < 1 implies !is_blank((#[trigger] c.story_events@[69].outcomes@[i]).key()) by {
                if i == 0 {
                    assert(!is_white_space(c.story_events@[69].outcomes@[0].key()[0]));
                }
            }
        }
        assert forall|k: int| 0 <= k < 1 implies has_key(c.nodes@, (#[trigger] c.story_events@[69].outcomes@[k]).next_node_id@) by {
            if k == 0 {
                assert(c.nodes@[110].key() == c.story_events@[69].outcomes@[0].next_node_id@);
            }
        }
    }
    assert(event_ok(c, c.story_events@[70])) by {
        assert(outcome_pairs(c.story_events@[70].outcomes@).len() == 1);
        assert(outcome_pairs(c.story_events@[70].outcomes@)[0] == (c.story_events@[70].outcomes@[0].id@, c.story_events@[70].outcomes@[0].next_node_id@));
        assert(ids_ok(c.story_events@[70].outcomes@)) by {
            assert forall|i: int| 0 <= i < 1 implies !is_blank((#[trigger] c.story_events@[70].outcomes@[i]).key()) by {
                if i == 0 {
                    assert(!is_white_space(c.story_events@[70].outcomes@[0].key()[0]));
                }
            }
        }
        assert forall|k: int| 0 <= k < 1 implies has_key(c.nodes@, (#[trigger] c.story_events@[70].outcomes@[k]).next_node_id@) by {
            if k == 0 {
                assert(c.nodes@[112].key() == c.story_events@[70].outcomes@[0].next_node_id@);
            }
        }
    }
    assert(event_ok(c, c.story_events@[71])) by {
        assert(outcome_pairs(c.story_events@[71].outcomes@).len() == 1);
        assert(outcome_pairs(c.story_events@[71].outcomes@)[0] == (c.story_events@[71].outcomes@[0].id@, c.story_events@[71].outcomes@[0].next_node_id@));
        assert(ids_ok(c.story_events@[71].outcomes@)) by {
            assert forall|i: int| 0 <= i < 1 implies !is_blank((#[trigger] c.story_events@[71].outcomes@[i]).key()) by {
                if i == 0 {
                    assert(!is_white_space(c.story_events@[71].outcomes@[0].key()[0]));
                }
            }
        }
        assert forall|k: int| 0 <= k < 1 implies has_key(c.nodes@, (#[trigger] c.story_events@[71].outcomes@[k]).next_node_id@) by {
            if k == 0 {
                assert(c.nodes@[112].key() == c.story_events@[71].outcomes@[0].next_node_id@);
            }
        }
    }
    assert(event_ok(c, c.story_events@[72])) by {
        assert(outcome_pairs(c.story_events@[72].outcomes@).len() == 1);
        assert(outcome_pairs(c.story_events@[72].outcomes@)[0] == (c.story_events@[72].outcomes@[0].id@, c.story_events@[72].outcomes@[0].next_node_id@));
        assert(ids_ok(c.story_events@[72].outcomes@)) by {
            assert forall|i: int| 0 <= i < 1 implies !is_blank((#[trigger] c.story_events@[72].outcomes@[i]).key()) by {
                if i == 0 {
                    assert(!is_white_space(c.story_events@[72].outcomes@[0].key()[0]));
                }
            }
        }
        assert forall|k: int| 0 <= k < 1 implies has_key(c.nodes@, (#[trigger] c.story_events@[72].outcomes@[k]).next_node_id@) by {
            if k == 0 {
                assert(c.nodes@[109].key() == c.story_events@[72].outcomes@[0].next_node_id@);
            }
        }
    }
    assert(event_ok(c, c.story_events@[73])) by {
        assert(outcome_pairs(c.story_events@[73].outcomes@).len() == 1);
        assert(outcome_pairs(c.story_events@[73].outcomes@)[0] == (c.story_events@[73].outcomes@[0].id@, c.story_events@[73].outcomes@[0].next_node_id@));
        assert(ids_ok(c.story_events@[73].outcomes@)) by {
            assert forall|i: int| 0 <= i < 1 implies !is_blank((#[trigger] c.story_events@[73].outcomes@[i]).key()) by {
                if i == 0 {
                    assert(!is_white_space(c.story_events@[73].outcomes@[0].key()[0]));
                }
            }
        }
        assert forall|k: int| 0 <= k < 1 implies has_key(c.nodes@, (#[trigger] c.story_events@[73].outcomes@[k]).next_node_id@) by {
            if k == 0 {
                assert(c.nodes@[112].key() == c.story_events@[73].outcomes@[0].next_node_id@);
            }
        }
    }
    assert(event_ok(c, c.story_events@[74])) by {
        assert(outcome_pairs(c.story_events@[74].outcomes@).len() == 1);
        assert(outcome_pairs(c.story_events@[74].outcomes@)[0] == (c.story_events@[74].outcomes@[0].id@, c.story_events@[74].outcomes@[0].next_node_id@));
        assert(ids_ok(c.story_events@[74].outcomes@)) by {
            assert forall|i: int| 0 <= i < 1 implies !is_blank((#[trigger] c.story_events@[74].outcomes@[i]).key()) by {
                if i == 0 {
                    assert(!is_white_space(c.story_events@[74].outcomes@[0].key()[0]));
                }
            }
        }
        assert forall|k: int| 0 <= k < 1 implies has_key(c.nodes@, (#[trigger] c.story_events@[74].outcomes@[k]).next_node_id@) by {
            if k == 0 {
                assert(c.nodes@[112].key() == c.story_events@[74].outcomes@[0].next_node_id@);
            }
        }
    }
    assert(event_ok(c, c.story_events@[75])) by {
        assert(outcome_pairs(c.story_events@[75].outcomes@).len() == 1);
        assert(outcome_pairs(c.story_events@[75].outcomes@)[0] == (c.story_events@[75].outcomes@[0].id@, c.story_events@[75].outcomes@[0].next_node_id@));
        assert(ids_ok(c.story_events@[75].outcomes@)) by {
            assert forall|i: int| 0 <= i < 1 implies !is_blank((#[trigger] c.story_events@[75].outcomes@[i]).key()) by {
                if i == 0 {
                    assert(!is_white_space(c.story_events@[75].outcomes@[0].key()[0]));
                }
            }
        }
        assert forall|k: int| 0 <= k < 1 implies has_key(c.nodes@, (#[trigger] c.story_events@[75].outcomes@[k]).next_node_id@) by {
            if k == 0 {
                assert(c.nodes@[112].key() == c.story_events@[75].outcomes@[0].next_node_id@);
            }
        }
    }
    assert(event_ok(c, c.story_events@[76])) by {
        assert(outcome_pairs(c.story_events@[76].outcomes@).len() == 1);
        assert(outcome_pairs(c.story_events@[76].outcomes@)[0] == (c.story_events@[76].outcomes@[0].id@, c.story_events@[76].outcomes@[0].next_node_id@));
        assert(ids_ok(c.story_events@[76].outcomes@)) by {
            assert forall|i: int| 0 <= i < 1 implies !is_blank((#[trigger] c.story_events@[76].outcomes@[i]).key()) by {
                if i == 0 {
                    assert(!is_white_space(c.story_events@[76].outcomes@[0].key()[0]));
                }
            }
        }
        assert forall|k: int| 0 <= k < 1 implies has_key(c.nodes@, (#[trigger] c.story_events@[76].outcomes@[k]).next_node_id@) by {
            if k == 0 {
                assert(c.nodes@[112].key() == c.story_events@[76].outcomes@[0].next_node_id@);
            }
        }
    }
    assert(event_ok(c, c.story_events@[77])) by {
        assert(outcome_pairs(c.story_events@[77].outcomes@).len() == 1);
        assert(outcome_pairs(c.story_events@[77].outcomes@)[0] == (c.story_events@[77].outcomes@[0].id@, c.story_events@[77].outcomes@[0].next_node_id@));
        assert(ids_ok(c.story_events@[77].outcomes@)) by {
            assert forall|i: int| 0 <= i < 1 implies !is_blank((#[trigger] c.story_events@[77].outcomes@[i]).key()) by {
                if i == 0 {
                    assert(!is_white_space(c.story_events@[77].outcomes@[0].key()[0]));
                }
            }
        }
        assert forall|k: int| 0 <= k < 1 implies has_key(c.nodes@, (#[trigger] c.story_events@[77].outcomes@[k]).next_node_id@) by {
            if k == 0 {
                assert(c.nodes@[112].key() == c.story_events@[77].outcomes@[0].next_node_id@);
            }
        }
    }
    assert forall|i: int| 0 <= i < 78 implies event_ok(c, #[trigger] c.story_events@[i]) by {
        if i == 0 {
        } else if i == 1 {
        } else if i == 2 {
        } else if i == 3 {
        } else if i == 4 {
        } else if i == 5 {
        } else if i == 6 {
        } else if i == 7 {
        } else if i == 8 {
        } else if i == 9 {
        } else if i == 10 {
        } else if i == 11 {
        } else if i == 12 {
        } else if i == 13 {
        } else if i == 14 {
        } else if i == 15 {
        } else if i == 16 {
        } else if i == 17 {
        } else if i == 18 {
        } else if i == 19 {
        } else if i == 20 {
        } else if i == 21 {
        } else if i == 22 {
        } else if i == 23 {
        } else if i == 24 {
        } else if i == 25 {
        } else if i == 26 {
        } else if i == 27 {
        } else if i == 28 {
        } else if i == 29 {
        } else if i == 30 {
        } else if i == 31 {
        } else if i == 32 {
        } else if i == 33 {
        } else if i == 34 {
        } else if i == 35 {
        } else if i == 36 {
        } else if i == 37 {
        } else if i == 38 {
        } else if i == 39 {
        } else if i == 40 {
        } else if i == 41 {
        } else if i == 42 {
        } else if i == 43 {
        } else if i == 44 {
        } else if i == 45 {
        } else if i == 46 {
        } else if i == 47 {
        } else if i == 48 {
        } else if i == 49 {
        } else if i == 50 {
        } else if i == 51 {
        } else if i == 52 {
        } else if i == 53 {
        } else if i == 54 {
        } else if i == 55 {
        } else if i == 56 {
        } else if i == 57 {
        } else if i == 58 {
        } else if i == 59 {
        } else if i == 60 {
        } else if i == 61 {
        } else if i == 62 {
        } else if i == 63 {
        } else if i == 64 {
        } else if i == 65 {
        } else if i == 66 {
        } else if i == 67 {
        } else if i == 68 {
        } else if i == 69 {
        } else if i == 70 {
        } else if i == 71 {
        } else if i == 72 {
        } else if i == 73 {
        } else if i == 74 {
        } else if i == 75 {
        } else if i == 76 {
        } else if i == 77 {
        }
    }
    assert forall|i: int| 0 <= i < 9 implies !is_blank((#[trigger] c.endings@[i]).conclusion@) by {
        if i == 0 {
            assert(!is_white_space(c.endings@[0].conclusion@[0]));
        } else if i == 1 {
            assert(!is_white_space(c.endings@[1].conclusion@[0]));
        } else if i == 2 {
            assert(!is_white_space(c.endings@[2].conclusion@[0]));
        } else if i == 3 {
            assert(!is_white_space(c.endings@[3].conclusion@[0]));
        } else if i == 4 {
            assert(!is_white_space(c.endings@[4].conclusion@[0]));
        } else if i == 5 {
            assert(!is_white_space(c.endings@[5].conclusion@[0]));
        } else if i == 6 {
            assert(!is_white_space(c.endings@[6].conclusion@[0]));
        } else if i == 7 {
            assert(!is_white_space(c.endings@[7].conclusion@[0]));
        } else if i == 8 {
            assert(!is_white_space(c.endings@[8].conclusion@[0]));
        }
    }
    assert(c.nodes@[0].key() == c.start_node_id@);
    assert(node_ok(c, c.nodes@[0])) by {
        assert(c.nodes@[1].key() == "slot_01"@);
    }
    assert(node_ok(c, c.nodes@[1])) by {
        assert(c.story_beats@[0].key() == "s1_1_rafi"@);
        assert(c.nodes@[2].key() == "s1_1_rafi_success_node"@);
        assert(c.nodes@[3].key() == "s1_1_rafi_missed_node"@);
        assert(c.nodes@[4].key() == "s1_1_rafi_invalid_node"@);
    }
    assert(node_ok(c, c.nodes@[2])) by {
        assert(c.story_events@[0].key() == "s1_1_rafi_success_event"@);
        assert(outcome_pairs(c.story_events@[0].outcomes@)[0] == (c.story_events@[0].outcomes@[0].id@, c.story_events@[0].outcomes@[0].next_node_id@));
        assert(c.story_events@[0].outcomes@[0].key() == "default"@);
    }
    assert(node_ok(c, c.nodes@[3])) by {
        assert(c.story_events@[1].key() == "s1_1_rafi_missed_event"@);
        assert(outcome_pairs(c.story_events@[1].outcomes@)[0] == (c.story_events@[1].outcomes@[0].id@, c.story_events@[1].outcomes@[0].next_node_id@));
        assert(c.story_events@[1].outcomes@[0].key() == "default"@);
    }
    assert(node_ok(c, c.nodes@[4])) by {
        assert(c.story_events@[2].key() == "s1_1_rafi_invalid_event"@);
        assert(outcome_pairs(c.story_events@[2].outcomes@)[0] == (c.story_events@[2].outcomes@[0].id@, c.story_events@[2].outcomes@[0].next_node_id@));
        assert(c.story_events@[2].outcomes@[0].key() == "default"@);
    }
    assert(node_ok(c, c.nodes@[5])) by {
        assert(c.story_beats@[1].key() == "m1_anika"@);
        assert(c.nodes@[6].key() == "m1_anika_success_node"@);
        assert(c.nodes@[7].key() == "m1_anika_missed_node"@);
        assert(c.nodes@[8].key() == "m1_anika_invalid_node"@);
    }
    assert(node_ok(c, c.nodes@[6])) by {
        assert(c.story_events@[3].key() == "m1_anika_success_event"@);
        assert(outcome_pairs(c.story_events@[3].outcomes@)[0] == (c.story_events@[3].outcomes@[0].id@, c.story_events@[3].outcomes@[0].next_node_id@));
        assert(c.story_events@[3].outcomes@[0].key() == "default"@);
    }
    assert(node_ok(c, c.nodes@[7])) by {
        assert(c.story_events@[4].key() == "m1_anika_missed_event"@);
        assert(outcome_pairs(c.story_events@[4].outcomes@)[0] == (c.story_events@[4].outcomes@[0].id@, c.story_events@[4].outcomes@[0].next_node_id@));
        assert(c.story_events@[4].outcomes@[0].key() == "default"@);
    }
    assert(node_ok(c, c.nodes@[8])) by {
        assert(c.story_events@[5].key() == "m1_anika_invalid_event"@);
        assert(outcome_pairs(c.story_events@[5].outcomes@)[0] == (c.story_events@[5].outcomes@[0].id@, c.story_events@[5].outcomes@[0].next_node_id@));
        assert(c.story_events@[5].outcomes@[0].key() == "default"@);
    }
    assert(node_ok(c, c.nodes@[9])) by {
        assert(c.story_beats@[2].key() == "s1_2_asha"@);
        assert(c.nodes@[10].key() == "s1_2_asha_success_node"@);
        assert(c.nodes@[11].key() == "s1_2_asha_missed_node"@);
        assert(c.nodes@[12].key() == "s1_2_asha_invalid_node"@);
    }
    assert(node_ok(c, c.nodes@[10])) by {
        assert(c.story_events@[6].key() == "s1_2_asha_success_event"@);
        assert(outcome_pairs(c.story_events@[6].outcomes@)[0] == (c.story_events@[6].outcomes@[0].id@, c.story_events@[6].outcomes@[0].next_node_id@));
        assert(c.story_events@[6].outcomes@[0].key() == "default"@);
    }
    assert(node_ok(c, c.nodes@[11])) by {
        assert(c.story_events@[7].key() == "s1_2_asha_missed_event"@);
        assert(outcome_pairs(c.story_events@[7].outcomes@)[0] == (c.story_events@[7].outcomes@[0].id@, c.story_events@[7].outcomes@[0].next_node_id@));
        assert(c.story_events@[7].outcomes@[0].key() == "default"@);
    }
    assert(node_ok(c, c.nodes@[12])) by {
        assert(c.story_events@[8].key() == "s1_2_asha_invalid_event"@);
        assert(outcome_pairs(c.story_events@[8].outcomes@)[0] == (c.story_events@[8].outcomes@[0].id@, c.story_events@[8].outcomes@[0].next_node_id@));
        assert(c.story_events@[8].outcomes@[0].key() == "default"@);
    }
    assert(node_ok(c, c.nodes@[13])) by {
        assert(c.story_beats@[3].key() == "m2_nayan"@);
        assert(c.nodes@[14].key() == "m2_nayan_success_node"@);
        assert(c.nodes@[15].key() == "m2_nayan_missed_node"@);
        assert(c.nodes@[16].key() == "m2_nayan_invalid_node"@);
    }
    assert(node_ok(c, c.nodes@[14])) by {
        assert(c.story_events@[9].key() == "m2_nayan_success_event"@);
        assert(outcome_pairs(c.story_events@[9].outcomes@)[0] == (c.story_events@[9].outcomes@[0].id@, c.story_events@[9].outcomes@[0].next_node_id@));
        assert(c.story_events@[9].outcomes@[0].key() == "default"@);
    }
    assert(node_ok(c, c.nodes@[15])) by {
        assert(c.story_events@[10].key() == "m2_nayan_missed_event"@);
        assert(outcome_pairs(c.story_events@[10].outcomes@)[0] == (c.story_events@[10].outcomes@[0].id@, c.story_events@[10].outcomes@[0].next_node_id@));
        assert(c.story_events@[10].outcomes@[0].key() == "default"@);
    }
    assert(node_ok(c, c.nodes@[16])) by {
        assert(c.story_events@[11].key() == "m2_nayan_invalid_event"@);
        assert(outcome_pairs(c.story_events@[11].outcomes@)[0] == (c.story_events@[11].outcomes@[0].id@, c.story_events@[11].outcomes@[0].next_node_id@));
        assert(c.story_events@[11].outcomes@[0].key() == "default"@);
    }
    assert(node_ok(c, c.nodes@[17])) by {
        assert(c.story_beats@[4].key() == "m3_rakesh"@);
        assert(c.nodes@[18].key() == "m3_rakesh_success_node"@);
        assert(c.nodes@[19].key() == "m3_rakesh_missed_node"@);
        assert(c.nodes@[20].key() == "m3_rakesh_invalid_node"@);
    }
    assert(node_ok(c, c.nodes@[18])) by {
        assert(c.story_events@[12].key() == "m3_rakesh_success_event"@);
        assert(outcome_pairs(c.story_events@[12].outcomes@)[0] == (c.story_events@[12].outcomes@[0].id@, c.story_events@[12].outcomes@[0].next_node_id@));
        assert(c.story_events@[12].outcomes@[0].key() == "default"@);
    }
    assert(node_ok(c, c.nodes@[19])) by {
        assert(c.story_events@[13].key() == "m3_rakesh_missed_event"@);
        assert(outcome_pairs(c.story_events@[13].outcomes@)[0] == (c.story_events@[13].outcomes@[0].id@, c.story_events@[13].outcomes@[0].next_node_id@));
        assert(c.story_events@[13].outcomes@[0].key() == "default"@);
    }
    assert(node_ok(c, c.nodes@[20])) by {
        assert(c.story_events@[14].key() == "m3_rakesh_invalid_event"@);
        assert(outcome_pairs(c.story_events@[14].outcomes@)[0] == (c.story_events@[14].outcomes@[0].id@, c.story_events@[14].outcomes@[0].next_node_id@));
        assert(c.story_events@[14].outcomes@[0].key() == "default"@);
    }
    assert(node_ok(c, c.nodes@[21])) by {
        assert(c.story_beats@[5].key() == "s2_asha"@);
        assert(c.nodes@[22].key() == "s2_asha_success_node"@);
        assert(c.nodes@[23].key() == "s2_asha_missed_node"@);
        assert(c.nodes@[24].key() == "s2_asha_invalid_node"@);
    }
    assert(node_ok(c, c.nodes@[22])) by {
        assert(c.story_events@[15].key() == "s2_asha_success_event"@);
        assert(outcome_pairs(c.story_events@[15].outcomes@)[0] == (c.story_events@[15].outcomes@[0].id@, c.story_events@[15].outcomes@[0].next_node_id@));
        assert(c.story_events@[15].outcomes@[0].key() == "default"@);
    }
    assert(node_ok(c, c.nodes@[23])) by {
        assert(c.story_events@[16].key() == "s2_asha_missed_event"@);
        assert(outcome_pairs(c.story_events@[16].outcomes@)[0] == (c.story_events@[16].outcomes@[0].id@, c.story_events@[16].outcomes@[0].next_node_id@));
        assert(c.story_events@[16].outcomes@[0].key() == "default"@);
    }
    assert(node_ok(c, c.nodes@[24])) by {
        assert(c.story_events@[17].key() == "s2_asha_invalid_event"@);
        assert(outcome_pairs(c.story_events@[17].outcomes@)[0] == (c.story_events@[17].outcomes@[0].id@, c.story_events@[17].outcomes@[0].next_node_id@));
        assert(c.story_events@[17].outcomes@[0].key() == "default"@);
    }
    assert(node_ok(c, c.nodes@[25])) by {
        assert(c.story_beats@[6].key() == "m4_laleh"@);
        assert(c.nodes@[26].key() == "m4_laleh_success_node"@);
        assert(c.nodes@[27].key() == "m4_laleh_missed_node"@);
        assert(c.nodes@[28].key() == "m4_laleh_invalid_node"@);
    }
    assert(node_ok(c, c.nodes@[26])) by {
        assert(c.story_events@[18].key() == "m4_laleh_success_event"@);
        assert(outcome_pairs(c.story_events@[18].outcomes@)[0] == (c.story_events@[18].outcomes@[0].id@, c.story_events@[18].outcomes@[0].next_node_id@));
        assert(c.story_events@[18].outcomes@[0].key() == "default"@);
    }
    assert(node_ok(c, c.nodes@[27])) by {
        assert(c.story_events@[19].key() == "m4_laleh_missed_event"@);
        assert(outcome_pairs(c.story_events@[19].outcomes@)[0] == (c.story_events@[19].outcomes@[0].id@, c.story_events@[19].outcomes@[0].next_node_id@));
        assert(c.story_events@[19].outcomes@[0].key() == "default"@);
    }
    assert(node_ok(c, c.nodes@[28])) by {
        assert(c.story_events@[20].key() == "m4_laleh_invalid_event"@);
        assert(outcome_pairs(c.story_events@[20].outcomes@)[0] == (c.story_events@[20].outcomes@[0].id@, c.story_events@[20].outcomes@[0].next_node_id@));
        assert(c.story_events@[20].outcomes@[0].key() == "default"@);
    }
    assert(node_ok(c, c.nodes@[29])) by {
        assert(c.story_beats@[7].key() == "s2_1_nahid"@);
        assert(c.nodes@[30].key() == "s2_1_nahid_success_node"@);
        assert(c.nodes@[31].key() == "s2_1_nahid_missed_node"@);
        assert(c.nodes@[32].key() == "s2_1_nahid_invalid_node"@);
    }
    assert(node_ok(c, c.nodes@[30])) by {
        assert(c.story_events@[21].key() == "s2_1_nahid_success_event"@);
        assert(outcome_pairs(c.story_events@[21].outcomes@)[0] == (c.story_events@[21].outcomes@[0].id@, c.story_events@[21].outcomes@[0].next_node_id@));
        assert(c.story_events@[21].outcomes@[0].key() == "default"@);
    }
    assert(node_ok(c, c.nodes@[31])) by {
        assert(c.story_events@[22].key() == "s2_1_nahid_missed_event"@);
        assert(outcome_pairs(c.story_events@[22].outcomes@)[0] == (c.story_events@[22].outcomes@[0].id@, c.story_events@[22].outcomes@[0].next_node_id@));
        assert(c.story_events@[22].outcomes@[0].key() == "default"@);
    }
    assert(node_ok(c, c.nodes@[32])) by {
        assert(c.story_events@[23].key() == "s2_1_nahid_invalid_event"@);
        assert(outcome_pairs(c.story_events@[23].outcomes@)[0] == (c.story_events@[23].outcomes@[0].id@, c.story_events@[23].outcomes@[0].next_node_id@));
        assert(c.story_events@[23].outcomes@[0].key() == "default"@);
    }
    assert(node_ok(c, c.nodes@[33])) by {
        assert(c.story_beats@[8].key() == "m5_javed"@);
        assert(c.nodes@[34].key() == "m5_javed_success_node"@);
        assert(c.nodes@[35].key() == "m5_javed_missed_node"@);
        assert(c.nodes@[36].key() == "m5_javed_invalid_node"@);
    }
    assert(node_ok(c, c.nodes@[34])) by {
        assert(c.story_events@[24].key() == "m5_javed_success_event"@);
        assert(outcome_pairs(c.story_events@[24].outcomes@)[0] == (c.story_events@[24].outcomes@[0].id@, c.story_events@[24].outcomes@[0].next_node_id@));
        assert(c.story_events@[24].outcomes@[0].key() == "default"@);
    }
    assert(node_ok(c, c.nodes@[35])) by {
        assert(c.story_events@[25].key() == "m5_javed_missed_event"@);
        assert(outcome_pairs(c.story_events@[25].outcomes@)[0] == (c.story_events@[25].outcomes@[0].id@, c.story_events@[25].outcomes@[0].next_node_id@));
        assert(c.story_events@[25].outcomes@[0].key() == "default"@);
    }
    assert(node_ok(c, c.nodes@[36])) by {
        assert(c.story_events@[26].key() == "m5_javed_invalid_event"@);
        assert(outcome_pairs(c.story_events@[26].outcomes@)[0] == (c.story_events@[26].outcomes@[0].id@, c.story_events@[26].outcomes@[0].next_node_id@));
        assert(c.story_events@[26].outcomes@[0].key() == "default"@);
    }
    assert(node_ok(c, c.nodes@[37])) by {
        assert(c.story_beats@[9].key() == "m6_varo"@);
        assert(c.nodes@[38].key() == "m6_varo_success_node"@);
        assert(c.nodes@[39].key() == "m6_varo_missed_node"@);
        assert(c.nodes@[40].key() == "m6_varo_invalid_node"@);
    }
    assert(node_ok(c, c.nodes@[38])) by {
        assert(c.story_events@[27].key() == "m6_varo_success_event"@);
        assert(outcome_pairs(c.story_events@[27].outcomes@)[0] == (c.story_events@[27].outcomes@[0].id@, c.story_events@[27].outcomes@[0].next_node_id@));
        assert(c.story_events@[27].outcomes@[0].key() == "default"@);
    }
    assert(node_ok(c, c.nodes@[39])) by {
        assert(c.story_events@[28].key() == "m6_varo_missed_event"@);
        assert(outcome_pairs(c.story_events@[28].outcomes@)[0] == (c.story_events@[28].outcomes@[0].id@, c.story_events@[28].outcomes@[0].next_node_id@));
        assert(c.story_events@[28].outcomes@[0].key() == "default"@);
    }
    assert(node_ok(c, c.nodes@[40])) by {
        assert(c.story_events@[29].key() == "m6_varo_invalid_event"@);
        assert(outcome_pairs(c.story_events@[29].outcomes@)[0] == (c.story_events@[29].outcomes@[0].id@, c.story_events@[29].outcomes@[0].next_node_id@));
        assert(c.story_events@[29].outcomes@[0].key() == "default"@);
    }
    assert(node_ok(c, c.nodes@[41])) by {
        assert(c.story_beats@[10].key() == "m7_tomas"@);
        assert(c.nodes@[42].key() == "m7_tomas_success_node"@);
        assert(c.nodes@[43].key() == "m7_tomas_missed_node"@);
        assert(c.nodes@[44].key() == "m7_tomas_invalid_node"@);
    }
    assert(node_ok(c, c.nodes@[42])) by {
        assert(c.story_events@[30].key() == "m7_tomas_success_event"@);
        assert(outcome_pairs(c.story_events@[30].outcomes@)[0] == (c.story_events@[30].outcomes@[0].id@, c.story_events@[30].outcomes@[0].next_node_id@));
        assert(c.story_events@[30].outcomes@[0].key() == "default"@);
    }
    assert(node_ok(c, c.nodes@[43])) by {
        assert(c.story_events@[31].key() == "m7_tomas_missed_event"@);
        assert(outcome_pairs(c.story_events@[31].outcomes@)[0] == (c.story_events@[31].outcomes@[0].id@, c.story_events@[31].outcomes@[0].next_node_id@));
        assert(c.story_events@[31].outcomes@[0].key() == "default"@);
    }
    assert(node_ok(c, c.nodes@[44])) by {
        assert(c.story_events@[32].key() == "m7_tomas_invalid_event"@);
        assert(outcome_pairs(c.story_events@[32].outcomes@)[0] == (c.story_events@[32].outcomes@[0].id@, c.story_events@[32].outcomes@[0].next_node_id@));
        assert(c.story_events@[32].outcomes@[0].key() == "default"@);
    }
    assert(node_ok(c, c.nodes@[45])) by {
        assert(c.story_beats@[11].key() == "s3_1_nahid"@);
        assert(c.nodes@[46].key() == "s3_1_nahid_success_node"@);
        assert(c.nodes@[47].key() == "s3_1_nahid_missed_node"@);
        assert(c.nodes@[48].key() == "s3_1_nahid_invalid_node"@);
    }
    assert(node_ok(c, c.nodes@[46])) by {
        assert(c.story_events@[33].key() == "s3_1_nahid_success_event"@);
        assert(outcome_pairs(c.story_events@[33].outcomes@)[0] == (c.story_events@[33].outcomes@[0].id@, c.story_events@[33].outcomes@[0].next_node_id@));
        assert(c.story_events@[33].outcomes@[0].key() == "default"@);
    }
    assert(node_ok(c, c.nodes@[47])) by {
        assert(c.story_events@[34].key() == "s3_1_nahid_missed_event"@);
        assert(outcome_pairs(c.story_events@[34].outcomes@)[0] == (c.story_events@[34].outcomes@[0].id@, c.story_events@[34].outcomes@[0].next_node_id@));
        assert(c.story_events@[34].outcomes@[0].key() == "default"@);
    }
    assert(node_ok(c, c.nodes@[48])) by {
        assert(c.story_events@[35].key() == "s3_1_nahid_invalid_event"@);
        assert(outcome_pairs(c.story_events@[35].outcomes@)[0] == (c.story_events@[35].outcomes@[0].id@, c.story_events@[35].outcomes@[0].next_node_id@));
        assert(c.story_events@[35].outcomes@[0].key() == "default"@);
    }
    assert(node_ok(c, c.nodes@[49])) by {
        assert(c.story_beats@[12].key() == "m8_bikram"@);
        assert(c.nodes@[50].key() == "m8_bikram_success_node"@);
        assert(c.nodes@[51].key() == "m8_bikram_missed_node"@);
        assert(c.nodes@[52].key() == "m8_bikram_invalid_node"@);
    }
    assert(node_ok(c, c.nodes@[50])) by {
        assert(c.story_events@[36].key() == "m8_bikram_success_event"@);
        assert(outcome_pairs(c.story_events@[36].outcomes@)[0] == (c.story_events@[36].outcomes@[0].id@, c.story_events@[36].outcomes@[0].next_node_id@));
        assert(c.story_events@[36].outcomes@[0].key() == "default"@);
    }
    assert(node_ok(c, c.nodes@[51])) by {
        assert(c.story_events@[37].key() == "m8_bikram_missed_event"@);
        assert(outcome_pairs(c.story_events@[37].outcomes@)[0] == (c.story_events@[37].outcomes@[0].id@, c.story_events@[37].outcomes@[0].next_node_id@));
        assert(c.story_events@[37].outcomes@[0].key() == "default"@);
    }
    assert(node_ok(c, c.nodes@[52])) by {
        assert(c.story_events@[38].key() == "m8_bikram_invalid_event"@);
        assert(outcome_pairs(c.story_events@[38].outcomes@)[0] == (c.story_events@[38].outcomes@[0].id@, c.story_events@[38].outcomes@[0].next_node_id@));
        assert(c.story_events@[38].outcomes@[0].key() == "default"@);
    }
    assert(node_ok(c, c.nodes@[53])) by {
        assert(c.story_beats@[13].key() == "s3_asha"@);
        assert(c.nodes@[54].key() == "s3_asha_success_node"@);
        assert(c.nodes@[55].key() == "s3_asha_missed_node"@);
        assert(c.nodes@[56].key() == "s3_asha_invalid_node"@);
    }
    assert(node_ok(c, c.nodes@[54])) by {
        assert(c.story_events@[39].key() == "s3_asha_success_event"@);
        assert(outcome_pairs(c.story_events@[39].outcomes@)[0] == (c.story_events@[39].outcomes@[0].id@, c.story_events@[39].outcomes@[0].next_node_id@));
        assert(c.story_events@[39].outcomes@[0].key() == "default"@);
    }
    assert(node_ok(c, c.nodes@[55])) by {
        assert(c.story_events@[40].key() == "s3_asha_missed_event"@);
        assert(outcome_pairs(c.story_events@[40].outcomes@)[0] == (c.story_events@[40].outcomes@[0].id@, c.story_events@[40].outcomes@[0].next_node_id@));
        assert(c.story_events@[40].outcomes@[0].key() == "default"@);
    }
    assert(node_ok(c, c.nodes@[56])) by {
        assert(c.story_events@[41].key() == "s3_asha_invalid_event"@);
        assert(outcome_pairs(c.story_events@[41].outcomes@)[0] == (c.story_events@[41].outcomes@[0].id@, c.story_events@[41].outcomes@[0].next_node_id@));
        assert(c.story_events@[41].outcomes@[0].key() == "default"@);
    }
    assert(node_ok(c, c.nodes@[57])) by {
        assert(c.story_beats@[14].key() == "m9_paro"@);
        assert(c.nodes@[58].key() == "m9_paro_success_node"@);
        assert(c.nodes@[59].key() == "m9_paro_missed_node"@);
        assert(c.nodes@[60].key() == "m9_paro_invalid_node"@);
    }
    assert(node_ok(c, c.nodes@[58])) by {
        assert(c.story_events@[42].key() == "m9_paro_success_event"@);
        assert(outcome_pairs(c.story_events@[42].outcomes@)[0] == (c.story_events@[42].outcomes@[0].id@, c.story_events@[42].outcomes@[0].next_node_id@));
        assert(c.story_events@[42].outcomes@[0].key() == "default"@);
    }
    assert(node_ok(c, c.nodes@[59])) by {
        assert(c.story_events@[43].key() == "m9_paro_missed_event"@);
        assert(outcome_pairs(c.story_events@[43].outcomes@)[0] == (c.story_events@[43].outcomes@[0].id@, c.story_events@[43].outcomes@[0].next_node_id@));
        assert(c.story_events@[43].outcomes@[0].key() == "default"@);
    }
    assert(node_ok(c, c.nodes@[60])) by {
        assert(c.story_events@[44].key() == "m9_paro_invalid_event"@);
        assert(outcome_pairs(c.story_events@[44].outcomes@)[0] == (c.story_events@[44].outcomes@[0].id@, c.story_events@[44].outcomes@[0].next_node_id@));
        assert(c.story_events@[44].outcomes@[0].key() == "default"@);
    }
    assert(node_ok(c, c.nodes@[61])) by {
        assert(c.story_beats@[15].key() == "s3_akash"@);
        assert(c.nodes@[62].key() == "s3_akash_success_node"@);
        assert(c.nodes@[63].key() == "s3_akash_missed_node"@);
        assert(c.nodes@[64].key() == "s3_akash_invalid_node"@);
    }
    assert(node_ok(c, c.nodes@[62])) by {
        assert(c.story_events@[45].key() == "s3_akash_success_event"@);
        assert(outcome_pairs(c.story_events@[45].outcomes@)[0] == (c.story_events@[45].outcomes@[0].id@, c.story_events@[45].outcomes@[0].next_node_id@));
        assert(c.story_events@[45].outcomes@[0].key() == "default"@);
    }
    assert(node_ok(c, c.nodes@[63])) by {
        assert(c.story_events@[46].key() == "s3_akash_missed_event"@);
        assert(outcome_pairs(c.story_events@[46].outcomes@)[0] == (c.story_events@[46].outcomes@[0].id@, c.story_events@[46].outcomes@[0].next_node_id@));
        assert(c.story_events@[46].outcomes@[0].key() == "default"@);
    }
    assert(node_ok(c, c.nodes@[64])) by {
        assert(c.story_events@[47].key() == "s3_akash_invalid_event"@);
        assert(outcome_pairs(c.story_events@[47].outcomes@)[0] == (c.story_events@[47].outcomes@[0].id@, c.story_events@[47].outcomes@[0].next_node_id@));
        assert(c.story_events@[47].outcomes@[0].key() == "default"@);
    }
    assert(node_ok(c, c.nodes@[65])) by {
        assert(c.story_beats@[16].key() == "m10_audit"@);
        assert(c.nodes@[66].key() == "m10_audit_success_node"@);
        assert(c.nodes@[67].key() == "m10_audit_missed_node"@);
        assert(c.nodes@[68].key() == "m10_audit_invalid_node"@);
    }
    assert(node_ok(c, c.nodes@[66])) by {
        assert(c.story_events@[48].key() == "m10_audit_success_event"@);
        assert(outcome_pairs(c.story_events@[48].outcomes@)[0] == (c.story_events@[48].outcomes@[0].id@, c.story_events@[48].outcomes@[0].next_node_id@));
        assert(c.story_events@[48].outcomes@[0].key() == "default"@);
    }
    assert(node_ok(c, c.nodes@[67])) by {
        assert(c.story_events@[49].key() == "m10_audit_missed_event"@);
        assert(outcome_pairs(c.story_events@[49].outcomes@)[0] == (c.story_events@[49].outcomes@[0].id@, c.story_events@[49].outcomes@[0].next_node_id@));
        assert(c.story_events@[49].outcomes@[0].key() == "default"@);
    }
    assert(node_ok(c, c.nodes@[68])) by {
        assert(c.story_events@[50].key() == "m10_audit_invalid_event"@);
        assert(outcome_pairs(c.story_events@[50].outcomes@)[0] == (c.story_events@[50].outcomes@[0].id@, c.story_events@[50].outcomes@[0].next_node_id@));
        assert(c.story_events@[50].outcomes@[0].key() == "default"@);
    }
    assert(node_ok(c, c.nodes@[69])) by {
        assert(c.story_beats@[17].key() == "s4_akash"@);
        assert(c.nodes@[70].key() == "s4_akash_success_node"@);
        assert(c.nodes@[71].key() == "s4_akash_missed_node"@);
        assert(c.nodes@[72].key() == "s4_akash_invalid_node"@);
    }
    assert(node_ok(c, c.nodes@[70])) by {
        assert(c.story_events@[51].key() == "s4_akash_success_event"@);
        assert(outcome_pairs(c.story_events@[51].outcomes@)[0] == (c.story_events@[51].outcomes@[0].id@, c.story_events@[51].outcomes@[0].next_node_id@));
        assert(c.story_events@[51].outcomes@[0].key() == "default"@);
    }
    assert(node_ok(c, c.nodes@[71])) by {
        assert(c.story_events@[52].key() == "s4_akash_missed_event"@);
        assert(outcome_pairs(c.story_events@[52].outcomes@)[0] == (c.story_events@[52].outcomes@[0].id@, c.story_events@[52].outcomes@[0].next_node_id@));
        assert(c.story_events@[52].outcomes@[0].key() == "default"@);
    }
    assert(node_ok(c, c.nodes@[72])) by {
        assert(c.story_events@[53].key() == "s4_akash_invalid_event"@);
        assert(outcome_pairs(c.story_events@[53].outcomes@)[0] == (c.story_events@[53].outcomes@[0].id@, c.story_events@[53].outcomes@[0].next_node_id@));
        assert(c.story_events@[53].outcomes@[0].key() == "default"@);
    }
    assert(node_ok(c, c.nodes@[73])) by {
        assert(c.story_beats@[18].key() == "m11a_laleh"@);
        assert(c.nodes@[74].key() == "m11a_success_node"@);
        assert(c.nodes@[75].key() == "m11a_missed_node"@);
        assert(c.nodes@[76].key() == "m11a_invalid_node"@);
    }
    assert(node_ok(c, c.nodes@[74])) by {
        assert(c.story_events@[54].key() == "m11a_success_event"@);
        assert(outcome_pairs(c.story_events@[54].outcomes@)[0] == (c.story_events@[54].outcomes@[0].id@, c.story_events@[54].outcomes@[0].next_node_id@));
        assert(c.story_events@[54].outcomes@[0].key() == "default"@);
    }
    assert(node_ok(c, c.nodes@[75])) by {
        assert(c.story_events@[55].key() == "m11a_missed_event"@);
        assert(outcome_pairs(c.story_events@[55].outcomes@)[0] == (c.story_events@[55].outcomes@[0].id@, c.story_events@[55].outcomes@[0].next_node_id@));
        assert(c.story_events@[55].outcomes@[0].key() == "default"@);
    }
    assert(node_ok(c, c.nodes@[76])) by {
        assert(c.story_events@[56].key() == "m11a_invalid_event"@);
        assert(outcome_pairs(c.story_events@[56].outcomes@)[0] == (c.story_events@[56].outcomes@[0].id@, c.story_events@[56].outcomes@[0].next_node_id@));
        assert(c.story_events@[56].outcomes@[0].key() == "default"@);
    }
    assert(node_ok(c, c.nodes@[77])) by {
        assert(c.story_beats@[19].key() == "m11b_dev"@);
        assert(c.nodes@[78].key() == "m11b_success_node"@);
        assert(c.nodes@[79].key() == "m11b_missed_node"@);
        assert(c.nodes@[80].key() == "m11b_invalid_node"@);
    }
    assert(node_ok(c, c.nodes@[78])) by {
        assert(c.story_events@[57].key() == "m11b_success_event"@);
        assert(outcome_pairs(c.story_events@[57].outcomes@)[0] == (c.story_events@[57].outcomes@[0].id@, c.story_events@[57].outcomes@[0].next_node_id@));
        assert(c.story_events@[57].outcomes@[0].key() == "default"@);
    }
    assert(node_ok(c, c.nodes@[79])) by {
        assert(c.story_events@[58].key() == "m11b_missed_event"@);
        assert(outcome_pairs(c.story_events@[58].outcomes@)[0] == (c.story_events@[58].outcomes@[0].id@, c.story_events@[58].outcomes@[0].next_node_id@));
        assert(c.story_events@[58].outcomes@[0].key() == "default"@);
    }
    assert(node_ok(c, c.nodes@[80])) by {
        assert(c.story_events@[59].key() == "m11b_invalid_event"@);
        assert(outcome_pairs(c.story_events@[59].outcomes@)[0] == (c.story_events@[59].outcomes@[0].id@, c.story_events@[59].outcomes@[0].next_node_id@));
        assert(c.story_events@[59].outcomes@[0].key() == "default"@);
    }
    assert(node_ok(c, c.nodes@[81])) by {
        assert(c.story_beats@[20].key() == "m12_arman"@);
        assert(c.nodes@[82].key() == "m12_success_node"@);
        assert(c.nodes@[83].key() == "m12_missed_node"@);
        assert(c.nodes@[84].key() == "m12_invalid_node"@);
    }
    assert(node_ok(c, c.nodes@[82])) by {
        assert(c.story_events@[60].key() == "m12_success_event"@);
        assert(outcome_pairs(c.story_events@[60].outcomes@)[0] == (c.story_events@[60].outcomes@[0].id@, c.story_events@[60].outcomes@[0].next_node_id@));
        assert(c.story_events@[60].outcomes@[0].key() == "default"@);
    }
    assert(node_ok(c, c.nodes@[83])) by {
        assert(c.story_events@[61].key() == "m12_missed_event"@);
        assert(outcome_pairs(c.story_events@[61].outcomes@)[0] == (c.story_events@[61].outcomes@[0].id@, c.story_events@[61].outcomes@[0].next_node_id@));
        assert(c.story_events@[61].outcomes@[0].key() == "default"@);
    }
    assert(node_ok(c, c.nodes@[84])) by {
        assert(c.story_events@[62].key() == "m12_invalid_event"@);
        assert(outcome_pairs(c.story_events@[62].outcomes@)[0] == (c.story_events@[62].outcomes@[0].id@, c.story_events@[62].outcomes@[0].next_node_id@));
        assert(c.story_events@[62].outcomes@[0].key() == "default"@);
    }
    assert(node_ok(c, c.nodes@[85])) by {
        assert(c.story_beats@[21].key() == "m13_meera"@);
        assert(c.nodes@[86].key() == "m13_success_node"@);
        assert(c.nodes@[87].key() == "m13_missed_node"@);
        assert(c.nodes@[88].key() == "m13_invalid_node"@);
    }
    assert(node_ok(c, c.nodes@[86])) by {
        assert(c.story_events@[63].key() == "m13_success_event"@);
        assert(outcome_pairs(c.story_events@[63].outcomes@)[0] == (c.story_events@[63].outcomes@[0].id@, c.story_events@[63].outcomes@[0].next_node_id@));
        assert(c.story_events@[63].outcomes@[0].key() == "default"@);
    }
    assert(node_ok(c, c.nodes@[87])) by {
        assert(c.story_events@[64].key() == "m13_missed_event"@);
        assert(outcome_pairs(c.story_events@[64].outcomes@)[0] == (c.story_events@[64].outcomes@[0].id@, c.story_events@[64].outcomes@[0].next_node_id@));
        assert(c.story_events@[64].outcomes@[0].key() == "default"@);
    }
    assert(node_ok(c, c.nodes@[88])) by {
        assert(c.story_events@[65].key() == "m13_invalid_event"@);
        assert(outcome_pairs(c.story_events@[65].outcomes@)[0] == (c.story_events@[65].outcomes@[0].id@, c.story_events@[65].outcomes@[0].next_node_id@));
        assert(c.story_events@[65].outcomes@[0].key() == "default"@);
    }
    assert(node_ok(c, c.nodes@[89])) by {
        assert(c.story_beats@[22].key() == "m14_mira"@);
        assert(c.nodes@[90].key() == "m14r_success_node"@);
        assert(c.nodes@[91].key() == "m14r_missed_node"@);
        assert(c.nodes@[92].key() == "m14r_invalid_node"@);
    }
    assert(node_ok(c, c.nodes@[90])) by {
        assert(c.story_events@[66].key() == "m14r_success_event"@);
        assert(outcome_pairs(c.story_events@[66].outcomes@)[0] == (c.story_events@[66].outcomes@[0].id@, c.story_events@[66].outcomes@[0].next_node_id@));
        assert(c.story_events@[66].outcomes@[0].key() == "default"@);
    }
    assert(node_ok(c, c.nodes@[91])) by {
        assert(c.story_events@[67].key() == "m14r_missed_event"@);
        assert(outcome_pairs(c.story_events@[67].outcomes@)[0] == (c.story_events@[67].outcomes@[0].id@, c.story_events@[67].outcomes@[0].next_node_id@));
        assert(c.story_events@[67].outcomes@[0].key() == "default"@);
    }
    assert(node_ok(c, c.nodes@[92])) by {
        assert(c.story_events@[68].key() == "m14r_invalid_event"@);
        assert(outcome_pairs(c.story_events@[68].outcomes@)[0] == (c.story_events@[68].outcomes@[0].id@, c.story_events@[68].outcomes@[0].next_node_id@));
        assert(c.story_events@[68].outcomes@[0].key() == "default"@);
    }
    assert(node_ok(c, c.nodes@[93])) by {
        assert(c.story_beats@[22].key() == "m14_mira"@);
        assert(c.nodes@[94].key() == "m14a_success_node"@);
        assert(c.nodes@[95].key() == "m14a_missed_node"@);
        assert(c.nodes@[96].key() == "m14a_invalid_node"@);
    }
    assert(node_ok(c, c.nodes@[94])) by {
        assert(c.story_events@[69].key() == "m14a_success_event"@);
        assert(outcome_pairs(c.story_events@[69].outcomes@)[0] == (c.story_events@[69].outcomes@[0].id@, c.story_events@[69].outcomes@[0].next_node_id@));
        assert(c.story_events@[69].outcomes@[0].key() == "default"@);
    }
    assert(node_ok(c, c.nodes@[95])) by {
        assert(c.story_events@[70].key() == "m14a_missed_event"@);
        assert(outcome_pairs(c.story_events@[70].outcomes@)[0] == (c.story_events@[70].outcomes@[0].id@, c.story_events@[70].outcomes@[0].next_node_id@));
        assert(c.story_events@[70].outcomes@[0].key() == "default"@);
    }
    assert(node_ok(c, c.nodes@[96])) by {
        assert(c.story_events@[71].key() == "m14a_invalid_event"@);
        assert(outcome_pairs(c.story_events@[71].outcomes@)[0] == (c.story_events@[71].outcomes@[0].id@, c.story_events@[71].outcomes@[0].next_node_id@));
        assert(c.story_events@[71].outcomes@[0].key() == "default"@);
    }
    assert(node_ok(c, c.nodes@[97])) by {
        assert(c.story_beats@[22].key() == "m14_mira"@);
        assert(c.nodes@[98].key() == "m14p_success_node"@);
        assert(c.nodes@[99].key() == "m14p_missed_node"@);
        assert(c.nodes@[100].key() == "m14p_invalid_node"@);
    }
    assert(node_ok(c, c.nodes@[98])) by {
        assert(c.story_events@[72].key() == "m14p_success_event"@);
        assert(outcome_pairs(c.story_events@[72].outcomes@)[0] == (c.story_events@[72].outcomes@[0].id@, c.story_events@[72].outcomes@[0].next_node_id@));
        assert(c.story_events@[72].outcomes@[0].key() == "default"@);
    }
    assert(node_ok(c, c.nodes@[99])) by {
        assert(c.story_events@[73].key() == "m14p_missed_event"@);
        assert(outcome_pairs(c.story_events@[73].outcomes@)[0] == (c.story_events@[73].outcomes@[0].id@, c.story_events@[73].outcomes@[0].next_node_id@));
        assert(c.story_events@[73].outcomes@[0].key() == "default"@);
    }
    assert(node_ok(c, c.nodes@[100])) by {
        assert(c.story_events@[74].key() == "m14p_invalid_event"@);
        assert(outcome_pairs(c.story_events@[74].outcomes@)[0] == (c.story_events@[74].outcomes@[0].id@, c.story_events@[74].outcomes@[0].next_node_id@));
        assert(c.story_events@[74].outcomes@[0].key() == "default"@);
    }
    assert(node_ok(c, c.nodes@[101])) by {
        assert(c.story_beats@[22].key() == "m14_mira"@);
        assert(c.nodes@[102].key() == "m14c_success_node"@);
        assert(c.nodes@[103].key() == "m14c_missed_node"@);
        assert(c.nodes@[104].key() == "m14c_invalid_node"@);
    }
    assert(node_ok(c, c.nodes@[102])) by {
        assert(c.story_events@[75].key() == "m14c_success_event"@);
        assert(outcome_pairs(c.story_events@[75].outcomes@)[0] == (c.story_events@[75].outcomes@[0].id@, c.story_events@[75].outcomes@[0].next_node_id@));
        assert(c.story_events@[75].outcomes@[0].key() == "default"@);
    }
    assert(node_ok(c, c.nodes@[103])) by {
        assert(c.story_events@[76].key() == "m14c_missed_event"@);
        assert(outcome_pairs(c.story_events@[76].outcomes@)[0] == (c.story_events@[76].outcomes@[0].id@, c.story_events@[76].outcomes@[0].next_node_id@));
        assert(c.story_events@[76].outcomes@[0].key() == "default"@);
    }
    assert(node_ok(c, c.nodes@[104])) by {
        assert(c.story_events@[77].key() == "m14c_invalid_event"@);
        assert(outcome_pairs(c.story_events@[77].outcomes@)[0] == (c.story_events@[77].outcomes@[0].id@, c.story_events@[77].outcomes@[0].next_node_id@));
        assert(c.story_events@[77].outcomes@[0].key() == "default"@);
    }
    assert(node_ok(c, c.nodes@[105])) by {
        assert(c.nodes@[73].key() == "m11a"@);
        assert(c.nodes@[77].key() == "m11b"@);
    }
    assert(node_ok(c, c.nodes@[106])) by {
        assert(c.nodes@[89].key() == "m14r"@);
        assert(c.nodes@[107].key() == "m14_select_2"@);
    }
    assert(node_ok(c, c.nodes@[107])) by {
        assert(c.nodes@[93].key() == "m14a"@);
        assert(c.nodes@[108].key() == "m14_select_3"@);
    }
    assert(node_ok(c, c.nodes@[108])) by {
        assert(c.nodes@[97].key() == "m14p"@);
        assert(c.nodes@[101].key() == "m14c"@);
    }
    assert(node_ok(c, c.nodes@[109])) by {
        assert(c.endings@[0].key() == "ending_emergency_state"@);
    }
    assert(node_ok(c, c.nodes@[110])) by {
        assert(c.endings@[1].key() == "ending_temporary_command"@);
    }
    assert(node_ok(c, c.nodes@[111])) by {
        assert(c.endings@[2].key() == "ending_platform_six"@);
    }
    assert(node_ok(c, c.nodes@[112])) by {
        assert(c.endings@[3].key() == "ending_fragmented"@);
    }
    assert(node_ok(c, c.nodes@[113])) by {
        assert(c.endings@[4].key() == "ending_southbound"@);
    }
    assert(node_ok(c, c.nodes@[114])) by {
        assert(c.endings@[5].key() == "ending_bankruptcy"@);
    }
    assert(node_ok(c, c.nodes@[115])) by {
        assert(c.endings@[6].key() == "ending_a_better_country"@);
    }
    assert(node_ok(c, c.nodes@[116])) by {
        assert(c.endings@[7].key() == "ending_let_go"@);
    }
    assert(node_ok(c, c.nodes@[117])) by {
        assert(c.endings@[8].key() == "ending_insubordination"@);
    }
    assert forall|i: int| 0 <= i < 118 implies node_ok(c, #[trigger] c.nodes@[i]) by {
        if i == 0 {
        } else if i == 1 {
        } else if i == 2 {
        } else if i == 3 {
        } else if i == 4 {
        } else if i == 5 {
        } else if i == 6 {
        } else if i == 7 {
        } else if i == 8 {
        } else if i == 9 {
        } else if i == 10 {
        } else if i == 11 {
        } else if i == 12 {
        } else if i == 13 {
        } else if i == 14 {
        } else if i == 15 {
        } else if i == 16 {
        } else if i == 17 {
        } else if i == 18 {
        } else if i == 19 {
        } else if i == 20 {
        } else if i == 21 {
        } else if i == 22 {
        } else if i == 23 {
        } else if i == 24 {
        } else if i == 25 {
        } else if i == 26 {
        } else if i == 27 {
        } else if i == 28 {
        } else if i == 29 {
        } else if i == 30 {
        } else if i == 31 {
        } else if i == 32 {
        } else if i == 33 {
        } else if i == 34 {
        } else if i == 35 {
        } else if i == 36 {
        } else if i == 37 {
        } else if i == 38 {
        } else if i == 39 {
        } else if i == 40 {
        } else if i == 41 {
        } else if i == 42 {
        } else if i == 43 {
        } else if i == 44 {
        } else if i == 45 {
        } else if i == 46 {
        } else if i == 47 {
        } else if i == 48 {
        } else if i == 49 {
        } else if i == 50 {
        } else if i == 51 {
        } else if i == 52 {
        } else if i == 53 {
        } else if i == 54 {
        } else if i == 55 {
        } else if i == 56 {
        } else if i == 57 {
        } else if i == 58 {
        } else if i == 59 {
        } else if i == 60 {
        } else if i == 61 {
        } else if i == 62 {
        } else if i == 63 {
        } else if i == 64 {
        } else if i == 65 {
        } else if i == 66 {
        } else if i == 67 {
        } else if i == 68 {
        } else if i == 69 {
        } else if i == 70 {
        } else if i == 71 {
        } else if i == 72 {
        } else if i == 73 {
        } else if i == 74 {
        } else if i == 75 {
        } else if i == 76 {
        } else if i == 77 {
        } else if i == 78 {
        } else if i == 79 {
        } else if i == 80 {
        } else if i == 81 {
        } else if i == 82 {
        } else if i == 83 {
        } else if i == 84 {
        } else if i == 85 {
        } else if i == 86 {
        } else if i == 87 {
        } else if i == 88 {
        } else if i == 89 {
        } else if i == 90 {
        } else if i == 91 {
        } else if i == 92 {
        } else if i == 93 {
        } else if i == 94 {
        } else if i == 95 {
        } else if i == 96 {
        } else if i == 97 {
        } else if i == 98 {
        } else if i == 99 {
        } else if i == 100 {
        } else if i == 101 {
        } else if i == 102 {
        } else if i == 103 {
        } else if i == 104 {
        } else if i == 105 {
        } else if i == 106 {
        } else if i == 107 {
        } else if i == 108 {
        } else if i == 109 {
        } else if i == 110 {
        } else if i == 111 {
        } else if i == 112 {
        } else if i == 113 {
        } else if i == 114 {
        } else if i == 115 {
        } else if i == 116 {
        } else if i == 117 {
        }
    }
    assert(content_valid(c));
}

/// The graph of the north neeladesh content is sound.
#[verifier::rlimit(100)]
#[verifier::spinoff_prover]
proof fn lemma_north_neeladesh_sound(c: AuthoredContent)
    requires
        is_north_neeladesh_content(c),
        unique_keys(c.nodes@),
        unique_keys(c.story_events@),
    ensures
        graph_sound(c),
{
    lemma_first_key(c.nodes@, c.start_node_id@, 0);
    lemma_north_neeladesh_targets_0(c);
    lemma_north_neeladesh_targets_1(c);
    lemma_north_neeladesh_targets_2(c);
    lemma_north_neeladesh_targets_3(c);
    lemma_north_neeladesh_targets_4(c);
    lemma_north_neeladesh_targets_5(c);
    let rank = |i: int| if i == 0 { 0nat } else if i == 1 { 1nat } else if i == 2 { 4nat } else if i == 3 { 3nat } else if i == 4 { 2nat } else if i == 5 { 5nat } else if i == 6 { 8nat } else if i == 7 { 7nat } else if i == 8 { 6nat } else if i == 9 { 9nat } else if i == 10 { 12nat } else if i == 11 { 11nat } else if i == 12 { 10nat } else if i == 13 { 13nat } else if i == 14 { 16nat } else if i == 15 { 15nat } else if i == 16 { 14nat } else if i == 17 { 17nat } else if i == 18 { 20nat } else if i == 19 { 19nat } else if i == 20 { 18nat } else if i == 21 { 21nat } else if i == 22 { 24nat } else if i == 23 { 23nat } else if i == 24 { 22nat } else if i == 25 { 25nat } else if i == 26 { 28nat } else if i == 27 { 27nat } else if i == 28 { 26nat } else if i == 29 { 29nat } else if i == 30 { 32nat } else if i == 31 { 31nat } else if i == 32 { 30nat } else if i == 33 { 33nat } else if i == 34 { 36nat } else if i == 35 { 35nat } else if i == 36 { 34nat } else if i == 37 { 37nat } else if i == 38 { 40nat } else if i == 39 { 39nat } else if i == 40 { 38nat } else if i == 41 { 41nat } else if i == 42 { 44nat } else if i == 43 { 43nat } else if i == 44 { 42nat } else if i == 45 { 45nat } else if i == 46 { 48nat } else if i == 47 { 47nat } else if i == 48 { 46nat } else if i == 49 { 49nat } else if i == 50 { 52nat } else if i == 51 { 51nat } else if i == 52 { 50nat } else if i == 53 { 53nat } else if i == 54 { 56nat } else if i == 55 { 55nat } else if i == 56 { 54nat } else if i == 57 { 57nat } else if i == 58 { 60nat } else if i == 59 { 59nat } else if i == 60 { 58nat } else if i == 61 { 61nat } else if i == 62 { 64nat } else if i == 63 { 63nat } else if i == 64 { 62nat } else if i == 65 { 65nat } else if i == 66 { 68nat } else if i == 67 { 67nat } else if i == 68 { 66nat } else if i == 69 { 69nat } else if i == 70 { 72nat } else if i == 71 { 71nat } else if i == 72 { 70nat } else if i == 73 { 78nat } else if i == 74 { 81nat } else if i == 75 { 80nat } else if i == 76 { 79nat } else if i == 77 { 74nat } else if i == 78 { 77nat } else if i == 79 { 76nat } else if i == 80 { 75nat } else if i == 81 { 82nat } else if i == 82 { 85nat } else if i == 83 { 84nat } else if i == 84 { 83nat } else if i == 85 { 86nat } else if i == 86 { 89nat } else if i == 87 { 88nat } else if i == 88 { 87nat } else if i == 89 { 107nat } else if i == 90 { 111nat } else if i == 91 { 109nat } else if i == 92 { 108nat } else if i == 93 { 102nat } else if i == 94 { 105nat } else if i == 95 { 104nat } else if i == 96 { 103nat } else if i == 97 { 97nat } else if i == 98 { 100nat } else if i == 99 { 99nat } else if i == 100 { 98nat } else if i == 101 { 93nat } else if i == 102 { 96nat } else if i == 103 { 95nat } else if i == 104 { 94nat } else if i == 105 { 73nat } else if i == 106 { 90nat } else if i == 107 { 91nat } else if i == 108 { 92nat } else if i == 109 { 101nat } else if i == 110 { 106nat } else if i == 111 { 117nat } else if i == 112 { 110nat } else if i == 113 { 116nat } else if i == 114 { 115nat } else if i == 115 { 114nat } else if i == 116 { 113nat } else if i == 117 { 112nat } else { 0nat };
    let parent = |i: int| if i == 1 { 0int } else if i == 2 { 1int } else if i == 3 { 1int } else if i == 4 { 1int } else if i == 5 { 4int } else if i == 6 { 5int } else if i == 7 { 5int } else if i == 8 { 5int } else if i == 9 { 8int } else if i == 10 { 9int } else if i == 11 { 9int } else if i == 12 { 9int } else if i == 13 { 12int } else if i == 14 { 13int } else if i == 15 { 13int } else if i == 16 { 13int } else if i == 17 { 16int } else if i == 18 { 17int } else if i == 19 { 17int } else if i == 20 { 17int } else if i == 21 { 20int } else if i == 22 { 21int } else if i == 23 { 21int } else if i == 24 { 21int } else if i == 25 { 24int } else if i == 26 { 25int } else if i == 27 { 25int } else if i == 28 { 25int } else if i == 29 { 28int } else if i == 30 { 29int } else if i == 31 { 29int } else if i == 32 { 29int } else if i == 33 { 32int } else if i == 34 { 33int } else if i == 35 { 33int } else if i == 36 { 33int } else if i == 37 { 36int } else if i == 38 { 37int } else if i == 39 { 37int } else if i == 40 { 37int } else if i == 41 { 40int } else if i == 42 { 41int } else if i == 43 { 41int } else if i == 44 { 41int } else if i == 45 { 44int } else if i == 46 { 45int } else if i == 47 { 45int } else if i == 48 { 45int } else if i == 49 { 48int } else if i == 50 { 49int } else if i == 51 { 49int } else if i == 52 { 49int } else if i == 53 { 52int } else if i == 54 { 53int } else if i == 55 { 53int } else if i == 56 { 53int } else if i == 57 { 56int } else if i == 58 { 57int } else if i == 59 { 57int } else if i == 60 { 57int } else if i == 61 { 60int } else if i == 62 { 61int } else if i == 63 { 61int } else if i == 64 { 61int } else if i == 65 { 64int } else if i == 66 { 65int } else if i == 67 { 65int } else if i == 68 { 65int } else if i == 69 { 68int } else if i == 70 { 69int } else if i == 71 { 69int } else if i == 72 { 69int } else if i == 73 { 105int } else if i == 74 { 73int } else if i == 75 { 73int } else if i == 76 { 73int } else if i == 77 { 105int } else if i == 78 { 77int } else if i == 79 { 77int } else if i == 80 { 77int } else if i == 81 { 80int } else if i == 82 { 81int } else if i == 83 { 81int } else if i == 84 { 81int } else if i == 85 { 84int } else if i == 86 { 85int } else if i == 87 { 85int } else if i == 88 { 85int } else if i == 89 { 106int } else if i == 90 { 89int } else if i == 91 { 89int } else if i == 92 { 89int } else if i == 93 { 107int } else if i == 94 { 93int } else if i == 95 { 93int } else if i == 96 { 93int } else if i == 97 { 108int } else if i == 98 { 97int } else if i == 99 { 97int } else if i == 100 { 97int } else if i == 101 { 108int } else if i == 102 { 101int } else if i == 103 { 101int } else if i == 104 { 101int } else if i == 105 { 72int } else if i == 106 { 88int } else if i == 107 { 106int } else if i == 108 { 107int } else if i == 109 { 98int } else if i == 110 { 94int } else if i == 111 { 90int } else if i == 112 { 104int } else if i == 113 { 90int } else if i == 114 { 90int } else if i == 115 { 90int } else if i == 116 { 90int } else if i == 117 { 90int } else { 0int };
    assert forall|a: int, b: int| #[trigger] story_edge(c, a, b) implies rank(a) < rank(b) by {
        if a == 0 {
            assert(c.nodes@[b].key() == c.nodes@[b].id@);
            assert(c.nodes@[1].key() == "slot_01"@);
        } else if a == 1 {
            assert(c.nodes@[b].key() == c.nodes@[b].id@);
            assert(c.nodes@[2].key() == "s1_1_rafi_success_node"@);
            assert(c.nodes@[3].key() == "s1_1_rafi_missed_node"@);
            assert(c.nodes@[4].key() == "s1_1_rafi_invalid_node"@);
        } else if a == 2 {
            assert(c.nodes@[b].key() == c.nodes@[b].id@);
            assert(c.nodes@[5].key() == "slot_02"@);
        } else if a == 3 {
            assert(c.nodes@[b].key() == c.nodes@[b].id@);
            assert(c.nodes@[5].key() == "slot_02"@);
        } else if a == 4 {
            assert(c.nodes@[b].key() == c.nodes@[b].id@);
            assert(c.nodes@[5].key() == "slot_02"@);
        } else if a == 5 {
            assert(c.nodes@[b].key() == c.nodes@[b].id@);
            assert(c.nodes@[6].key() == "m1_anika_success_node"@);
            assert(c.nodes@[7].key() == "m1_anika_missed_node"@);
            assert(c.nodes@[8].key() == "m1_anika_invalid_node"@);
        } else if a == 6 {
            assert(c.nodes@[b].key() == c.nodes@[b].id@);
            assert(c.nodes@[9].key() == "slot_03"@);
        } else if a == 7 {
            assert(c.nodes@[b].key() == c.nodes@[b].id@);
            assert(c.nodes@[9].key() == "slot_03"@);
        } else if a == 8 {
            assert(c.nodes@[b].key() == c.nodes@[b].id@);
            assert(c.nodes@[9].key() == "slot_03"@);
        } else if a == 9 {
            assert(c.nodes@[b].key() == c.nodes@[b].id@);
            assert(c.nodes@[10].key() == "s1_2_asha_success_node"@);
            assert(c.nodes@[11].key() == "s1_2_asha_missed_node"@);
            assert(c.nodes@[12].key() == "s1_2_asha_invalid_node"@);
        } else if a == 10 {
            assert(c.nodes@[b].key() == c.nodes@[b].id@);
            assert(c.nodes@[13].key() == "slot_04"@);
        } else if a == 11 {
            assert(c.nodes@[b].key() == c.nodes@[b].id@);
            assert(c.nodes@[13].key() == "slot_04"@);
        } else if a == 12 {
            assert(c.nodes@[b].key() == c.nodes@[b].id@);
            assert(c.nodes@[13].key() == "slot_04"@);
        } else if a == 13 {
            assert(c.nodes@[b].key() == c.nodes@[b].id@);
            assert(c.nodes@[14].key() == "m2_nayan_success_node"@);
            assert(c.nodes@[15].key() == "m2_nayan_missed_node"@);
            assert(c.nodes@[16].key() == "m2_nayan_invalid_node"@);
        } else if a == 14 {
            assert(c.nodes@[b].key() == c.nodes@[b].id@);
            assert(c.nodes@[17].key() == "slot_05"@);
        } else if a == 15 {
            assert(c.nodes@[b].key() == c.nodes@[b].id@);
            assert(c.nodes@[17].key() == "slot_05"@);
        } else if a == 16 {
            assert(c.nodes@[b].key() == c.nodes@[b].id@);
            assert(c.nodes@[17].key() == "slot_05"@);
        } else if a == 17 {
            assert(c.nodes@[b].key() == c.nodes@[b].id@);
            assert(c.nodes@[18].key() == "m3_rakesh_success_node"@);
            assert(c.nodes@[19].key() == "m3_rakesh_missed_node"@);
            assert(c.nodes@[20].key() == "m3_rakesh_invalid_node"@);
        } else if a == 18 {
            assert(c.nodes@[b].key() == c.nodes@[b].id@);
            assert(c.nodes@[21].key() == "slot_06"@);
        } else if a == 19 {
            assert(c.nodes@[b].key() == c.nodes@[b].id@);
            assert(c.nodes@[21].key() == "slot_06"@);
        } else if a == 20 {
            assert(c.nodes@[b].key() == c.nodes@[b].id@);
            assert(c.nodes@[21].key() == "slot_06"@);
        } else if a == 21 {
            assert(c.nodes@[b].key() == c.nodes@[b].id@);
            assert(c.nodes@[22].key() == "s2_asha_success_node"@);
            assert(c.nodes@[23].key() == "s2_asha_missed_node"@);
            assert(c.nodes@[24].key() == "s2_asha_invalid_node"@);
        } else if a == 22 {
            assert(c.nodes@[b].key() == c.nodes@[b].id@);
            assert(c.nodes@[25].key() == "slot_07"@);
        } else if a == 23 {
            assert(c.nodes@[b].key() == c.nodes@[b].id@);
            assert(c.nodes@[25].key() == "slot_07"@);
        } else if a == 24 {
            assert(c.nodes@[b].key() == c.nodes@[b].id@);
            assert(c.nodes@[25].key() == "slot_07"@);
        } else if a == 25 {
            assert(c.nodes@[b].key() == c.nodes@[b].id@);
            assert(c.nodes@[26].key() == "m4_laleh_success_node"@);
            assert(c.nodes@[27].key() == "m4_laleh_missed_node"@);
            assert(c.nodes@[28].key() == "m4_laleh_invalid_node"@);
        } else if a == 26 {
            assert(c.nodes@[b].key() == c.nodes@[b].id@);
            assert(c.nodes@[29].key() == "slot_08"@);
        } else if a == 27 {
            assert(c.nodes@[b].key() == c.nodes@[b].id@);
            assert(c.nodes@[29].key() == "slot_08"@);
        } else if a == 28 {
            assert(c.nodes@[b].key() == c.nodes@[b].id@);
            assert(c.nodes@[29].key() == "slot_08"@);
        } else if a == 29 {
            assert(c.nodes@[b].key() == c.nodes@[b].id@);
            assert(c.nodes@[30].key() == "s2_1_nahid_success_node"@);
            assert(c.nodes@[31].key() == "s2_1_nahid_missed_node"@);
            assert(c.nodes@[32].key() == "s2_1_nahid_invalid_node"@);
        } else if a == 30 {
            assert(c.nodes@[b].key() == c.nodes@[b].id@);
            assert(c.nodes@[33].key() == "slot_09"@);
        } else if a == 31 {
            assert(c.nodes@[b].key() == c.nodes@[b].id@);
            assert(c.nodes@[33].key() == "slot_09"@);
        } else if a == 32 {
            assert(c.nodes@[b].key() == c.nodes@[b].id@);
            assert(c.nodes@[33].key() == "slot_09"@);
        } else if a == 33 {
            assert(c.nodes@[b].key() == c.nodes@[b].id@);
            assert(c.nodes@[34].key() == "m5_javed_success_node"@);
            assert(c.nodes@[35].key() == "m5_javed_missed_node"@);
            assert(c.nodes@[36].key() == "m5_javed_invalid_node"@);
        } else if a == 34 {
            assert(c.nodes@[b].key() == c.nodes@[b].id@);
            assert(c.nodes@[37].key() == "slot_10"@);
        } else if a == 35 {
            assert(c.nodes@[b].key() == c.nodes@[b].id@);
            assert(c.nodes@[37].key() == "slot_10"@);
        } else if a == 36 {
            assert(c.nodes@[b].key() == c.nodes@[b].id@);
            assert(c.nodes@[37].key() == "slot_10"@);
        } else if a == 37 {
            assert(c.nodes@[b].key() == c.nodes@[b].id@);
            assert(c.nodes@[38].key() == "m6_varo_success_node"@);
            assert(c.nodes@[39].key() == "m6_varo_missed_node"@);
            assert(c.nodes@[40].key() == "m6_varo_invalid_node"@);
        } else if a == 38 {
            assert(c.nodes@[b].key() == c.nodes@[b].id@);
            assert(c.nodes@[41].key() == "slot_11"@);
        } else if a == 39 {
            assert(c.nodes@[b].key() == c.nodes@[b].id@);
            assert(c.nodes@[41].key() == "slot_11"@);
        } else if a == 40 {
            assert(c.nodes@[b].key() == c.nodes@[b].id@);
            assert(c.nodes@[41].key() == "slot_11"@);
        } else if a == 41 {
            assert(c.nodes@[b].key() == c.nodes@[b].id@);
            assert(c.nodes@[42].key() == "m7_tomas_success_node"@);
            assert(c.nodes@[43].key() == "m7_tomas_missed_node"@);
            assert(c.nodes@[44].key() == "m7_tomas_invalid_node"@);
        } else if a == 42 {
            assert(c.nodes@[b].key() == c.nodes@[b].id@);
            assert(c.nodes@[45].key() == "slot_12"@);
        } else if a == 43 {
            assert(c.nodes@[b].key() == c.nodes@[b].id@);
            assert(c.nodes@[45].key() == "slot_12"@);
        } else if a == 44 {
            assert(c.nodes@[b].key() == c.nodes@[b].id@);
            assert(c.nodes@[45].key() == "slot_12"@);
        } else if a == 45 {
            assert(c.nodes@[b].key() == c.nodes@[b].id@);
            assert(c.nodes@[46].key() == "s3_1_nahid_success_node"@);
            assert(c.nodes@[47].key() == "s3_1_nahid_missed_node"@);
            assert(c.nodes@[48].key() == "s3_1_nahid_invalid_node"@);
        } else if a == 46 {
            assert(c.nodes@[b].key() == c.nodes@[b].id@);
            assert(c.nodes@[49].key() == "slot_13"@);
        } else if a == 47 {
            assert(c.nodes@[b].key() == c.nodes@[b].id@);
            assert(c.nodes@[49].key() == "slot_13"@);
        } else if a == 48 {
            assert(c.nodes@[b].key() == c.nodes@[b].id@);
            assert(c.nodes@[49].key() == "slot_13"@);
        } else if a == 49 {
            assert(c.nodes@[b].key() == c.nodes@[b].id@);
            assert(c.nodes@[50].key() == "m8_bikram_success_node"@);
            assert(c.nodes@[51].key() == "m8_bikram_missed_node"@);
            assert(c.nodes@[52].key() == "m8_bikram_invalid_node"@);
        } else if a == 50 {
            assert(c.nodes@[b].key() == c.nodes@[b].id@);
            assert(c.nodes@[53].key() == "slot_14"@);
        } else if a == 51 {
            assert(c.nodes@[b].key() == c.nodes@[b].id@);
            assert(c.nodes@[53].key() == "slot_14"@);
        } else if a == 52 {
            assert(c.nodes@[b].key() == c.nodes@[b].id@);
            assert(c.nodes@[53].key() == "slot_14"@);
        } else if a == 53 {
            assert(c.nodes@[b].key() == c.nodes@[b].id@);
            assert(c.nodes@[54].key() == "s3_asha_success_node"@);
            assert(c.nodes@[55].key() == "s3_asha_missed_node"@);
            assert(c.nodes@[56].key() == "s3_asha_invalid_node"@);
        } else if a == 54 {
            assert(c.nodes@[b].key() == c.nodes@[b].id@);
            assert(c.nodes@[57].key() == "slot_15"@);
        } else if a == 55 {
            assert(c.nodes@[b].key() == c.nodes@[b].id@);
            assert(c.nodes@[57].key() == "slot_15"@);
        } else if a == 56 {
            assert(c.nodes@[b].key() == c.nodes@[b].id@);
            assert(c.nodes@[57].key() == "slot_15"@);
        } else if a == 57 {
            assert(c.nodes@[b].key() == c.nodes@[b].id@);
            assert(c.nodes@[58].key() == "m9_paro_success_node"@);
            assert(c.nodes@[59].key() == "m9_paro_missed_node"@);
            assert(c.nodes@[60].key() == "m9_paro_invalid_node"@);
        } else if a == 58 {
            assert(c.nodes@[b].key() == c.nodes@[b].id@);
            assert(c.nodes@[61].key() == "slot_16"@);
        } else if a == 59 {
            assert(c.nodes@[b].key() == c.nodes@[b].id@);
            assert(c.nodes@[61].key() == "slot_16"@);
        } else if a == 60 {
            assert(c.nodes@[b].key() == c.nodes@[b].id@);
            assert(c.nodes@[61].key() == "slot_16"@);
        } else if a == 61 {
            assert(c.nodes@[b].key() == c.nodes@[b].id@);
            assert(c.nodes@[62].key() == "s3_akash_success_node"@);
            assert(c.nodes@[63].key() == "s3_akash_missed_node"@);
            assert(c.nodes@[64].key() == "s3_akash_invalid_node"@);
        } else if a == 62 {
            assert(c.nodes@[b].key() == c.nodes@[b].id@);
            assert(c.nodes@[65].key() == "slot_17"@);
        } else if a == 63 {
            assert(c.nodes@[b].key() == c.nodes@[b].id@);
            assert(c.nodes@[65].key() == "slot_17"@);
        } else if a == 64 {
            assert(c.nodes@[b].key() == c.nodes@[b].id@);
            assert(c.nodes@[65].key() == "slot_17"@);
        } else if a == 65 {
            assert(c.nodes@[b].key() == c.nodes@[b].id@);
            assert(c.nodes@[66].key() == "m10_audit_success_node"@);
            assert(c.nodes@[67].key() == "m10_audit_missed_node"@);
            assert(c.nodes@[68].key() == "m10_audit_invalid_node"@);
        } else if a == 66 {
            assert(c.nodes@[b].key() == c.nodes@[b].id@);
            assert(c.nodes@[69].key() == "slot_18"@);
        } else if a == 67 {
            assert(c.nodes@[b].key() == c.nodes@[b].id@);
            assert(c.nodes@[69].key() == "slot_18"@);
        } else if a == 68 {
            assert(c.nodes@[b].key() == c.nodes@[b].id@);
            assert(c.nodes@[69].key() == "slot_18"@);
        } else if a == 69 {
            assert(c.nodes@[b].key() == c.nodes@[b].id@);
            assert(c.nodes@[70].key() == "s4_akash_success_node"@);
            assert(c.nodes@[71].key() == "s4_akash_missed_node"@);
            assert(c.nodes@[72].key() == "s4_akash_invalid_node"@);
        } else if a == 70 {
            assert(c.nodes@[b].key() == c.nodes@[b].id@);
            assert(c.nodes@[105].key() == "m11_select"@);
        } else if a == 71 {
            assert(c.nodes@[b].key() == c.nodes@[b].id@);
            assert(c.nodes@[105].key() == "m11_select"@);
        } else if a == 72 {
            assert(c.nodes@[b].key() == c.nodes@[b].id@);
            assert(c.nodes@[105].key() == "m11_select"@);
        } else if a == 73 {
            assert(c.nodes@[b].key() == c.nodes@[b].id@);
            assert(c.nodes@[74].key() == "m11a_success_node"@);
            assert(c.nodes@[75].key() == "m11a_missed_node"@);
            assert(c.nodes@[76].key() == "m11a_invalid_node"@);
        } else if a == 74 {
            assert(c.nodes@[b].key() == c.nodes@[b].id@);
            assert(c.nodes@[81].key() == "m12"@);
        } else if a == 75 {
            assert(c.nodes@[b].key() == c.nodes@[b].id@);
            assert(c.nodes@[81].key() == "m12"@);
        } else if a == 76 {
            assert(c.nodes@[b].key() == c.nodes@[b].id@);
            assert(c.nodes@[81].key() == "m12"@);
        } else if a == 77 {
            assert(c.nodes@[b].key() == c.nodes@[b].id@);
            assert(c.nodes@[78].key() == "m11b_success_node"@);
            assert(c.nodes@[79].key() == "m11b_missed_node"@);
            assert(c.nodes@[80].key() == "m11b_invalid_node"@);
        } else if a == 78 {
            assert(c.nodes@[b].key() == c.nodes@[b].id@);
            assert(c.nodes@[81].key() == "m12"@);
        } else if a == 79 {
            assert(c.nodes@[b].key() == c.nodes@[b].id@);
            assert(c.nodes@[81].key() == "m12"@);
        } else if a == 80 {
            assert(c.nodes@[b].key() == c.nodes@[b].id@);
            assert(c.nodes@[81].key() == "m12"@);
        } else if a == 81 {
            assert(c.nodes@[b].key() == c.nodes@[b].id@);
            assert(c.nodes@[82].key() == "m12_success_node"@);
            assert(c.nodes@[83].key() == "m12_missed_node"@);
            assert(c.nodes@[84].key() == "m12_invalid_node"@);
        } else if a == 82 {
            assert(c.nodes@[b].key() == c.nodes@[b].id@);
            assert(c.nodes@[85].key() == "m13"@);
        } else if a == 83 {
            assert(c.nodes@[b].key() == c.nodes@[b].id@);
            assert(c.nodes@[85].key() == "m13"@);
        } else if a == 84 {
            assert(c.nodes@[b].key() == c.nodes@[b].id@);
            assert(c.nodes@[85].key() == "m13"@);
        } else if a == 85 {
            assert(c.nodes@[b].key() == c.nodes@[b].id@);
            assert(c.nodes@[86].key() == "m13_success_node"@);
            assert(c.nodes@[87].key() == "m13_missed_node"@);
            assert(c.nodes@[88].key() == "m13_invalid_node"@);
        } else if a == 86 {
            assert(c.nodes@[b].key() == c.nodes@[b].id@);
            assert(c.nodes@[106].key() == "m14_select"@);
        } else if a == 87 {
            assert(c.nodes@[b].key() == c.nodes@[b].id@);
            assert(c.nodes@[106].key() == "m14_select"@);
        } else if a == 88 {
            assert(c.nodes@[b].key() == c.nodes@[b].id@);
            assert(c.nodes@[106].key() == "m14_select"@);
        } else if a == 89 {
            assert(c.nodes@[b].key() == c.nodes@[b].id@);
            assert(c.nodes@[90].key() == "m14r_success_node"@);
            assert(c.nodes@[91].key() == "m14r_missed_node"@);
            assert(c.nodes@[92].key() == "m14r_invalid_node"@);
        } else if a == 90 {
            assert(c.nodes@[b].key() == c.nodes@[b].id@);
            assert(c.nodes@[111].key() == "ending_platform_six"@);
            assert(c.nodes@[113].key() == "ending_southbound"@);
            assert(c.nodes@[114].key() == "ending_bankruptcy"@);
            assert(c.nodes@[115].key() == "ending_a_better_country"@);
            assert(c.nodes@[116].key() == "ending_let_go"@);
            assert(c.nodes@[117].key() == "ending_insubordination"@);
        } else if a == 91 {
            assert(c.nodes@[b].key() == c.nodes@[b].id@);
            assert(c.nodes@[112].key() == "ending_fragmented"@);
        } else if a == 92 {
            assert(c.nodes@[b].key() == c.nodes@[b].id@);
            assert(c.nodes@[112].key() == "ending_fragmented"@);
        } else if a == 93 {
            assert(c.nodes@[b].key() == c.nodes@[b].id@);
            assert(c.nodes@[94].key() == "m14a_success_node"@);
            assert(c.nodes@[95].key() == "m14a_missed_node"@);
            assert(c.nodes@[96].key() == "m14a_invalid_node"@);
        } else if a == 94 {
            assert(c.nodes@[b].key() == c.nodes@[b].id@);
            assert(c.nodes@[110].key() == "ending_temporary_command"@);
        } else if a == 95 {
            assert(c.nodes@[b].key() == c.nodes@[b].id@);
            assert(c.nodes@[112].key() == "ending_fragmented"@);
        } else if a == 96 {
            assert(c.nodes@[b].key() == c.nodes@[b].id@);
            assert(c.nodes@[112].key() == "ending_fragmented"@);
        } else if a == 97 {
            assert(c.nodes@[b].key() == c.nodes@[b].id@);
            assert(c.nodes@[98].key() == "m14p_success_node"@);
            assert(c.nodes@[99].key() == "m14p_missed_node"@);
            assert(c.nodes@[100].key() == "m14p_invalid_node"@);
        } else if a == 98 {
            assert(c.nodes@[b].key() == c.nodes@[b].id@);
            assert(c.nodes@[109].key() == "ending_emergency_state"@);
        } else if a == 99 {
            assert(c.nodes@[b].key() == c.nodes@[b].id@);
            assert(c.nodes@[112].key() == "ending_fragmented"@);
        } else if a == 100 {
            assert(c.nodes@[b].key() == c.nodes@[b].id@);
            assert(c.nodes@[112].key() == "ending_fragmented"@);
        } else if a == 101 {
            assert(c.nodes@[b].key() == c.nodes@[b].id@);
            assert(c.nodes@[102].key() == "m14c_success_node"@);
            assert(c.nodes@[103].key() == "m14c_missed_node"@);
            assert(c.nodes@[104].key() == "m14c_invalid_node"@);
        } else if a == 102 {
            assert(c.nodes@[b].key() == c.nodes@[b].id@);
            assert(c.nodes@[112].key() == "ending_fragmented"@);
        } else if a == 103 {
            assert(c.nodes@[b].key() == c.nodes@[b].id@);
            assert(c.nodes@[112].key() == "ending_fragmented"@);
        } else if a == 104 {
            assert(c.nodes@[b].key() == c.nodes@[b].id@);
            assert(c.nodes@[112].key() == "ending_fragmented"@);
        } else if a == 105 {
            assert(c.nodes@[b].key() == c.nodes@[b].id@);
            assert(c.nodes@[73].key() == "m11a"@);
            assert(c.nodes@[77].key() == "m11b"@);
        } else if a == 106 {
            assert(c.nodes@[b].key() == c.nodes@[b].id@);
            assert(c.nodes@[89].key() == "m14r"@);
            assert(c.nodes@[107].key() == "m14_select_2"@);
        } else if a == 107 {
            assert(c.nodes@[b].key() == c.nodes@[b].id@);
            assert(c.nodes@[93].key() == "m14a"@);
            assert(c.nodes@[108].key() == "m14_select_3"@);
        } else if a == 108 {
            assert(c.nodes@[b].key() == c.nodes@[b].id@);
            assert(c.nodes@[97].key() == "m14p"@);
            assert(c.nodes@[101].key() == "m14c"@);
        } else if a == 109 {
            assert(c.nodes@[b].key() == c.nodes@[b].id@);
        } else if a == 110 {
            assert(c.nodes@[b].key() == c.nodes@[b].id@);
        } else if a == 111 {
            assert(c.nodes@[b].key() == c.nodes@[b].id@);
        } else if a == 112 {
            assert(c.nodes@[b].key() == c.nodes@[b].id@);
        } else if a == 113 {
            assert(c.nodes@[b].key() == c.nodes@[b].id@);
        } else if a == 114 {
            assert(c.nodes@[b].key() == c.nodes@[b].id@);
        } else if a == 115 {
            assert(c.nodes@[b].key() == c.nodes@[b].id@);
        } else if a == 116 {
            assert(c.nodes@[b].key() == c.nodes@[b].id@);
        } else if a == 117 {
            assert(c.nodes@[b].key() == c.nodes@[b].id@);
        }
    }
    assert forall|w: int| 0 <= w < 118 && w != 0 implies 0 <= #[trigger] parent(w) < 118 && rank(parent(w)) < rank(w) && story_edge(c, parent(w), w) by {
        if w == 1 {
            assert(node_targets(c.story_events@, c.nodes@[0])[0] == c.nodes@[1].id@);
        } else if w == 2 {
            assert(node_targets(c.story_events@, c.nodes@[1])[0] == c.nodes@[2].id@);
        } else if w == 3 {
            assert(node_targets(c.story_events@, c.nodes@[1])[1] == c.nodes@[3].id@);
        } else if w == 4 {
            assert(node_targets(c.story_events@, c.nodes@[1])[2] == c.nodes@[4].id@);
        } else if w == 5 {
            assert(node_targets(c.story_events@, c.nodes@[4])[0] == c.nodes@[5].id@);
        } else if w == 6 {
            assert(node_targets(c.story_events@, c.nodes@[5])[0] == c.nodes@[6].id@);
        } else if w == 7 {
            assert(node_targets(c.story_events@, c.nodes@[5])[1] == c.nodes@[7].id@);
        } else if w == 8 {
            assert(node_targets(c.story_events@, c.nodes@[5])[2] == c.nodes@[8].id@);
        } else if w == 9 {
            assert(node_targets(c.story_events@, c.nodes@[8])[0] == c.nodes@[9].id@);
        } else if w == 10 {
            assert(node_targets(c.story_events@, c.nodes@[9])[0] == c.nodes@[10].id@);
        } else if w == 11 {
            assert(node_targets(c.story_events@, c.nodes@[9])[1] == c.nodes@[11].id@);
        } else if w == 12 {
            assert(node_targets(c.story_events@, c.nodes@[9])[2] == c.nodes@[12].id@);
        } else if w == 13 {
            assert(node_targets(c.story_events@, c.nodes@[12])[0] == c.nodes@[13].id@);
        } else if w == 14 {
            assert(node_targets(c.story_events@, c.nodes@[13])[0] == c.nodes@[14].id@);
        } else if w == 15 {
            assert(node_targets(c.story_events@, c.nodes@[13])[1] == c.nodes@[15].id@);
        } else if w == 16 {
            assert(node_targets(c.story_events@, c.nodes@[13])[2] == c.nodes@[16].id@);
        } else if w == 17 {
            assert(node_targets(c.story_events@, c.nodes@[16])[0] == c.nodes@[17].id@);
        } else if w == 18 {
            assert(node_targets(c.story_events@, c.nodes@[17])[0] == c.nodes@[18].id@);
        } else if w == 19 {
            assert(node_targets(c.story_events@, c.nodes@[17])[1] == c.nodes@[19].id@);
        } else if w == 20 {
            assert(node_targets(c.story_events@, c.nodes@[17])[2] == c.nodes@[20].id@);
        } else if w == 21 {
            assert(node_targets(c.story_events@, c.nodes@[20])[0] == c.nodes@[21].id@);
        } else if w == 22 {
            assert(node_targets(c.story_events@, c.nodes@[21])[0] == c.nodes@[22].id@);
        } else if w == 23 {
            assert(node_targets(c.story_events@, c.nodes@[21])[1] == c.nodes@[23].id@);
        } else if w == 24 {
            assert(node_targets(c.story_events@, c.nodes@[21])[2] == c.nodes@[24].id@);
        } else if w == 25 {
            assert(node_targets(c.story_events@, c.nodes@[24])[0] == c.nodes@[25].id@);
        } else if w == 26 {
            assert(node_targets(c.story_events@, c.nodes@[25])[0] == c.nodes@[26].id@);
        } else if w == 27 {
            assert(node_targets(c.story_events@, c.nodes@[25])[1] == c.nodes@[27].id@);
        } else if w == 28 {
            assert(node_targets(c.story_events@, c.nodes@[25])[2] == c.nodes@[28].id@);
        } else if w == 29 {
            assert(node_targets(c.story_events@, c.nodes@[28])[0] == c.nodes@[29].id@);
        } else if w == 30 {
            assert(node_targets(c.story_events@, c.nodes@[29])[0] == c.nodes@[30].id@);
        } else if w == 31 {
            assert(node_targets(c.story_events@, c.nodes@[29])[1] == c.nodes@[31].id@);
        } else if w == 32 {
            assert(node_targets(c.story_events@, c.nodes@[29])[2] == c.nodes@[32].id@);
        } else if w == 33 {
            assert(node_targets(c.story_events@, c.nodes@[32])[0] == c.nodes@[33].id@);
        } else if w == 34 {
            assert(node_targets(c.story_events@, c.nodes@[33])[0] == c.nodes@[34].id@);
        } else if w == 35 {
            assert(node_targets(c.story_events@, c.nodes@[33])[1] == c.nodes@[35].id@);
        } else if w == 36 {
            assert(node_targets(c.story_events@, c.nodes@[33])[2] == c.nodes@[36].id@);
        } else if w == 37 {
            assert(node_targets(c.story_events@, c.nodes@[36])[0] == c.nodes@[37].id@);
        } else if w == 38 {
            assert(node_targets(c.story_events@, c.nodes@[37])[0] == c.nodes@[38].id@);
        } else if w == 39 {
            assert(node_targets(c.story_events@, c.nodes@[37])[1] == c.nodes@[39].id@);
        } else if w == 40 {
            assert(node_targets(c.story_events@, c.nodes@[37])[2] == c.nodes@[40].id@);
        } else if w == 41 {
            assert(node_targets(c.story_events@, c.nodes@[40])[0] == c.nodes@[41].id@);
        } else if w == 42 {
            assert(node_targets(c.story_events@, c.nodes@[41])[0] == c.nodes@[42].id@);
        } else if w == 43 {
            assert(node_targets(c.story_events@, c.nodes@[41])[1] == c.nodes@[43].id@);
        } else if w == 44 {
            assert(node_targets(c.story_events@, c.nodes@[41])[2] == c.nodes@[44].id@);
        } else if w == 45 {
            assert(node_targets(c.story_events@, c.nodes@[44])[0] == c.nodes@[45].id@);
        } else if w == 46 {
            assert(node_targets(c.story_events@, c.nodes@[45])[0] == c.nodes@[46].id@);
        } else if w == 47 {
            assert(node_targets(c.story_events@, c.nodes@[45])[1] == c.nodes@[47].id@);
        } else if w == 48 {
            assert(node_targets(c.story_events@, c.nodes@[45])[2] == c.nodes@[48].id@);
        } else if w == 49 {
            assert(node_targets(c.story_events@, c.nodes@[48])[0] == c.nodes@[49].id@);
        } else if w == 50 {
            assert(node_targets(c.story_events@, c.nodes@[49])[0] == c.nodes@[50].id@);
        } else if w == 51 {
            assert(node_targets(c.story_events@, c.nodes@[49])[1] == c.nodes@[51].id@);
        } else if w == 52 {
            assert(node_targets(c.story_events@, c.nodes@[49])[2] == c.nodes@[52].id@);
        } else if w == 53 {
            assert(node_targets(c.story_events@, c.nodes@[52])[0] == c.nodes@[53].id@);
        } else if w == 54 {
            assert(node_targets(c.story_events@, c.nodes@[53])[0] == c.nodes@[54].id@);
        } else if w == 55 {
            assert(node_targets(c.story_events@, c.nodes@[53])[1] == c.nodes@[55].id@);
        } else if w == 56 {
            assert(node_targets(c.story_events@, c.nodes@[53])[2] == c.nodes@[56].id@);
        } else if w == 57 {
            assert(node_targets(c.story_events@, c.nodes@[56])[0] == c.nodes@[57].id@);
        } else if w == 58 {
            assert(node_targets(c.story_events@, c.nodes@[57])[0] == c.nodes@[58].id@);
        } else if w == 59 {
            assert(node_targets(c.story_events@, c.nodes@[57])[1] == c.nodes@[59].id@);
        } else if w == 60 {
            assert(node_targets(c.story_events@, c.nodes@[57])[2] == c.nodes@[60].id@);
        } else if w == 61 {
            assert(node_targets(c.story_events@, c.nodes@[60])[0] == c.nodes@[61].id@);
        } else if w == 62 {
            assert(node_targets(c.story_events@, c.nodes@[61])[0] == c.nodes@[62].id@);
        } else if w == 63 {
            assert(node_targets(c.story_events@, c.nodes@[61])[1] == c.nodes@[63].id@);
        } else if w == 64 {
            assert(node_targets(c.story_events@, c.nodes@[61])[2] == c.nodes@[64].id@);
        } else if w == 65 {
            assert(node_targets(c.story_events@, c.nodes@[64])[0] == c.nodes@[65].id@);
        } else if w == 66 {
            assert(node_targets(c.story_events@, c.nodes@[65])[0] == c.nodes@[66].id@);
        } else if w == 67 {
            assert(node_targets(c.story_events@, c.nodes@[65])[1] == c.nodes@[67].id@);
        } else if w == 68 {
            assert(node_targets(c.story_events@, c.nodes@[65])[2] == c.nodes@[68].id@);
        } else if w == 69 {
            assert(node_targets(c.story_events@, c.nodes@[68])[0] == c.nodes@[69].id@);
        } else if w == 70 {
            assert(node_targets(c.story_events@, c.nodes@[69])[0] == c.nodes@[70].id@);
        } else if w == 71 {
            assert(node_targets(c.story_events@, c.nodes@[69])[1] == c.nodes@[71].id@);
        } else if w == 72 {
            assert(node_targets(c.story_events@, c.nodes@[69])[2] == c.nodes@[72].id@);
        } else if w == 73 {
            assert(node_targets(c.story_events@, c.nodes@[105])[0] == c.nodes@[73].id@);
        } else if w == 74 {
            assert(node_targets(c.story_events@, c.nodes@[73])[0] == c.nodes@[74].id@);
        } else if w == 75 {
            assert(node_targets(c.story_events@, c.nodes@[73])[1] == c.nodes@[75].id@);
        } else if w == 76 {
            assert(node_targets(c.story_events@, c.nodes@[73])[2] == c.nodes@[76].id@);
        } else if w == 77 {
            assert(node_targets(c.story_events@, c.nodes@[105])[1] == c.nodes@[77].id@);
        } else if w == 78 {
            assert(node_targets(c.story_events@, c.nodes@[77])[0] == c.nodes@[78].id@);
        } else if w == 79 {
            assert(node_targets(c.story_events@, c.nodes@[77])[1] == c.nodes@[79].id@);
        } else if w == 80 {
            assert(node_targets(c.story_events@, c.nodes@[77])[2] == c.nodes@[80].id@);
        } else if w == 81 {
            assert(node_targets(c.story_events@, c.nodes@[80])[0] == c.nodes@[81].id@);
        } else if w == 82 {
            assert(node_targets(c.story_events@, c.nodes@[81])[0] == c.nodes@[82].id@);
        } else if w == 83 {
            assert(node_targets(c.story_events@, c.nodes@[81])[1] == c.nodes@[83].id@);
        } else if w == 84 {
            assert(node_targets(c.story_events@, c.nodes@[81])[2] == c.nodes@[84].id@);
        } else if w == 85 {
            assert(node_targets(c.story_events@, c.nodes@[84])[0] == c.nodes@[85].id@);
        } else if w == 86 {
            assert(node_targets(c.story_events@, c.nodes@[85])[0] == c.nodes@[86].id@);
        } else if w == 87 {
            assert(node_targets(c.story_events@, c.nodes@[85])[1] == c.nodes@[87].id@);
        } else if w == 88 {
            assert(node_targets(c.story_events@, c.nodes@[85])[2] == c.nodes@[88].id@);
        } else if w == 89 {
            assert(node_targets(c.story_events@, c.nodes@[106])[0] == c.nodes@[89].id@);
        } else if w == 90 {
            assert(node_targets(c.story_events@, c.nodes@[89])[0] == c.nodes@[90].id@);
        } else if w == 91 {
            assert(node_targets(c.story_events@, c.nodes@[89])[1] == c.nodes@[91].id@);
        } else if w == 92 {
            assert(node_targets(c.story_events@, c.nodes@[89])[2] == c.nodes@[92].id@);
        } else if w == 93 {
            assert(node_targets(c.story_events@, c.nodes@[107])[0] == c.nodes@[93].id@);
        } else if w == 94 {
            assert(node_targets(c.story_events@, c.nodes@[93])[0] == c.nodes@[94].id@);
        } else if w == 95 {
            assert(node_targets(c.story_events@, c.nodes@[93])[1] == c.nodes@[95].id@);
        } else if w == 96 {
            assert(node_targets(c.story_events@, c.nodes@[93])[2] == c.nodes@[96].id@);
        } else if w == 97 {
            assert(node_targets(c.story_events@, c.nodes@[108])[0] == c.nodes@[97].id@);
        } else if w == 98 {
            assert(node_targets(c.story_events@, c.nodes@[97])[0] == c.nodes@[98].id@);
        } else if w == 99 {
            assert(node_targets(c.story_events@, c.nodes@[97])[1] == c.nodes@[99].id@);
        } else if w == 100 {
            assert(node_targets(c.story_events@, c.nodes@[97])[2] == c.nodes@[100].id@);
        } else if w == 101 {
            assert(node_targets(c.story_events@, c.nodes@[108])[1] == c.nodes@[101].id@);
        } else if w == 102 {
            assert(node_targets(c.story_events@, c.nodes@[101])[0] == c.nodes@[102].id@);
        } else if w == 103 {
            assert(node_targets(c.story_events@, c.nodes@[101])[1] == c.nodes@[103].id@);
        } else if w == 104 {
            assert(node_targets(c.story_events@, c.nodes@[101])[2] == c.nodes@[104].id@);
        } else if w == 105 {
            assert(node_targets(c.story_events@, c.nodes@[72])[0] == c.nodes@[105].id@);
        } else if w == 106 {
            assert(node_targets(c.story_events@, c.nodes@[88])[0] == c.nodes@[106].id@);
        } else if w == 107 {
            assert(node_targets(c.story_events@, c.nodes@[106])[1] == c.nodes@[107].id@);
        } else if w == 108 {
            assert(node_targets(c.story_events@, c.nodes@[107])[1] == c.nodes@[108].id@);
        } else if w == 109 {
            assert(node_targets(c.story_events@, c.nodes@[98])[0] == c.nodes@[109].id@);
        } else if w == 110 {
            assert(node_targets(c.story_events@, c.nodes@[94])[0] == c.nodes@[110].id@);
        } else if w == 111 {
            assert(node_targets(c.story_events@, c.nodes@[90])[0] == c.nodes@[111].id@);
        } else if w == 112 {
            assert(node_targets(c.story_events@, c.nodes@[104])[0] == c.nodes@[112].id@);
        } else if w == 113 {
            assert(node_targets(c.story_events@, c.nodes@[90])[1] == c.nodes@[113].id@);
        } else if w == 114 {
            assert(node_targets(c.story_events@, c.nodes@[90])[2] == c.nodes@[114].id@);
        } else if w == 115 {
            assert(node_targets(c.story_events@, c.nodes@[90])[3] == c.nodes@[115].id@);
        } else if w == 116 {
            assert(node_targets(c.story_events@, c.nodes@[90])[4] == c.nodes@[116].id@);
        } else if w == 117 {
            assert(node_targets(c.story_events@, c.nodes@[90])[5] == c.nodes@[117].id@);
        }
    }
    lemma_ranked_edges_acyclic(c, rank);
    assert forall|v: int| 0 <= v < 118 implies #[trigger] story_reaches(c, start_position(c), v) && !story_cycle(c, v) by {
        lemma_parents_reach(c, 0, rank, parent, v);
    }
}

/// The north neeladesh content passes validation and its graph is sound.
proof fn lemma_north_neeladesh_compiles(c: AuthoredContent)
    requires
        is_north_neeladesh_content(c),
    ensures
        content_valid(c),
        graph_sound(c),
{
    lemma_north_neeladesh_keys(c);
    lemma_north_neeladesh_valid(c);
    lemma_north_neeladesh_sound(c);
}

impl AuthoredContent {
    /// The authoritative North Neeladesh story. It owns the stable identities,
    /// physical lines, scheduled beats, branch nodes and endings; dialogue
    /// wording is left to the voice layer.
    #[verifier::rlimit(100)]
    pub fn north_neeladesh() -> (content: Self)
        ensures
            is_north_neeladesh_content(content),
            content_valid(content),
            graph_sound(content),
    {
        let subscribers = vec![
            subscriber("anika_roy", "Anika Roy"),
            subscriber("nayan_boro", "Nayan Boro"),
            subscriber("rakesh_nahal", "Inspector Rakesh Nahal"),
            subscriber("laleh_mir", "Laleh Mir"),
            subscriber("javed_rahman", "Javed Rahman"),
            subscriber("captain_varo", "Captain Varo"),
            subscriber("tomas_vale", "Tomas Vale"),
            subscriber("bikram_sen", "Bikram Sen"),
            subscriber("paro_sen", "Paro Sen"),
            subscriber("dev_korr", "Dev Korr"),
            subscriber("arman_vey", "Colonel Arman Vey"),
            subscriber("meera_tal", "Meera Tal"),
            subscriber("mira_halek", "Mira Halek"),
            subscriber("rafi_alam", "Rafi Alam"),
            subscriber("akash_dey", "Akash Dey"),
            subscriber("nahid_bkash", "Nahid from bKash"),
            subscriber("asha_sen", "Asha Sen"),
        ];
        let line_listings = vec![
            listing("hospital", 0, texts_from(vec!["anika_roy"])),
            listing("secretariat", 1, texts_from(vec!["nayan_boro"])),
            listing("home_affairs", 2, texts_from(vec!["rakesh_nahal", "dev_korr"])),
            listing("cantonment", 3, texts_from(vec!["captain_varo", "arman_vey"])),
            listing("radio", 4, texts_from(vec!["nayan_boro"])),
            listing("embassy", 5, texts_from(vec!["meera_tal"])),
            listing("hotel", 6, texts_from(vec!["tomas_vale", "nahid_bkash"])),
            listing("mining_office", 7, texts_from(vec!["javed_rahman"])),
            listing("ratan_colony", 8, texts_from(vec!["paro_sen", "akash_dey"])),
            listing("shapla", 9, texts_from(vec!["laleh_mir", "asha_sen", "rafi_alam"])),
            listing("market", 10, texts_from(vec!["bikram_sen"])),
            listing("central_station", 11, texts_from(vec!["mira_halek"])),
        ];
        let call_premises = vec![
            premise("s1_1_rafi", "rafi_alam", "anika_roy", "shapla", "hospital", vec![1u16]),
            premise("m1_anika", "anika_roy", "asha_sen", "hospital", "shapla", vec![8u16]),
            premise("s1_2_asha", "asha_sen", "anika_roy", "shapla", "hospital", vec![1u16]),
            premise("m2_nayan", "nayan_boro", "nayan_boro", "secretariat", "radio", vec![5u16]),
            premise("m3_rakesh", "rakesh_nahal", "laleh_mir", "home_affairs", "shapla", vec![8u16]),
            premise("s2_asha", "asha_sen", "anika_roy", "shapla", "hospital", vec![1u16]),
            premise("m4_laleh", "laleh_mir", "paro_sen", "shapla", "ratan_colony", vec![9u16]),
            premise("s2_1_nahid", "nahid_bkash", "anika_roy", "hotel", "hospital", vec![1u16]),
            premise("m5_javed", "javed_rahman", "mira_halek", "mining_office", "central_station", vec![9u16]),
            premise("m6_varo", "captain_varo", "nayan_boro", "cantonment", "secretariat", vec![2u16]),
            premise("m7_tomas", "tomas_vale", "meera_tal", "hotel", "embassy", vec![6u16]),
            premise("s3_1_nahid", "nahid_bkash", "anika_roy", "hotel", "hospital", vec![1u16]),
            premise("m8_bikram", "bikram_sen", "rakesh_nahal", "market", "home_affairs", vec![3u16]),
            premise("s3_asha", "asha_sen", "anika_roy", "shapla", "hospital", vec![1u16]),
            premise("m9_paro", "paro_sen", "mira_halek", "ratan_colony", "central_station", vec![9u16]),
            premise("s3_akash", "akash_dey", "laleh_mir", "ratan_colony", "shapla", vec![9u16]),
            premise("m10_audit", "rakesh_nahal", "anika_roy", "home_affairs", "hospital", vec![1u16]),
            premise("s4_akash", "akash_dey", "laleh_mir", "ratan_colony", "shapla", vec![9u16]),
            premise("m11a_laleh", "laleh_mir", "mira_halek", "shapla", "central_station", vec![9u16]),
            premise("m11b_dev", "dev_korr", "mira_halek", "home_affairs", "central_station", vec![9u16]),
            premise("m12_arman", "arman_vey", "nayan_boro", "cantonment", "radio", vec![5u16]),
            premise("m13_meera", "meera_tal", "tomas_vale", "embassy", "hotel", vec![7u16]),
            premise("m14_mira", "mira_halek", "paro_sen", "central_station", "ratan_colony", vec![9u16]),
        ];
        let story_beats = vec![
            story_beat("s1_1_rafi", "s1_1_rafi"),
            story_beat("m1_anika", "m1_anika"),
            story_beat("s1_2_asha", "s1_2_asha"),
            story_beat("m2_nayan", "m2_nayan"),
            story_beat("m3_rakesh", "m3_rakesh"),
            story_beat("s2_asha", "s2_asha"),
            story_beat("m4_laleh", "m4_laleh"),
            story_beat("s2_1_nahid", "s2_1_nahid"),
            story_beat("m5_javed", "m5_javed"),
            story_beat("m6_varo", "m6_varo"),
            story_beat("m7_tomas", "m7_tomas"),
            story_beat("s3_1_nahid", "s3_1_nahid"),
            story_beat("m8_bikram", "m8_bikram"),
            story_beat("s3_asha", "s3_asha"),
            story_beat("m9_paro", "m9_paro"),
            story_beat("s3_akash", "s3_akash"),
            story_beat("m10_audit", "m10_audit"),
            story_beat("s4_akash", "s4_akash"),
            story_beat("m11a_laleh", "m11a_laleh"),
            story_beat("m11b_dev", "m11b_dev"),
            story_beat("m12_arman", "m12_arman"),
            story_beat("m13_meera", "m13_meera"),
            story_beat("m14_mira", "m14_mira"),
        ];
        let story_events = vec![
            authored_event("s1_1_rafi_success_event", "slot_02"),
            authored_event("s1_1_rafi_missed_event", "slot_02"),
            authored_event("s1_1_rafi_invalid_event", "slot_02"),
            authored_event("m1_anika_success_event", "slot_03"),
            authored_event("m1_anika_missed_event", "slot_03"),
            authored_event("m1_anika_invalid_event", "slot_03"),
            authored_event("s1_2_asha_success_event", "slot_04"),
            authored_event("s1_2_asha_missed_event", "slot_04"),
            authored_event("s1_2_asha_invalid_event", "slot_04"),
            authored_event("m2_nayan_success_event", "slot_05"),
            authored_event("m2_nayan_missed_event", "slot_05"),
            authored_event("m2_nayan_invalid_event", "slot_05"),
            authored_event("m3_rakesh_success_event", "slot_06"),
            authored_event("m3_rakesh_missed_event", "slot_06"),
            authored_event("m3_rakesh_invalid_event", "slot_06"),
            authored_event("s2_asha_success_event", "slot_07"),
            authored_event("s2_asha_missed_event", "slot_07"),
            authored_event("s2_asha_invalid_event", "slot_07"),
            authored_event("m4_laleh_success_event", "slot_08"),
            authored_event("m4_laleh_missed_event", "slot_08"),
            authored_event("m4_laleh_invalid_event", "slot_08"),
            authored_event("s2_1_nahid_success_event", "slot_09"),
            authored_event("s2_1_nahid_missed_event", "slot_09"),
            authored_event("s2_1_nahid_invalid_event", "slot_09"),
            authored_event("m5_javed_success_event", "slot_10"),
            authored_event("m5_javed_missed_event", "slot_10"),
            authored_event("m5_javed_invalid_event", "slot_10"),
            authored_event("m6_varo_success_event", "slot_11"),
            authored_event("m6_varo_missed_event", "slot_11"),
            authored_event("m6_varo_invalid_event", "slot_11"),
            authored_event("m7_tomas_success_event", "slot_12"),
            authored_event("m7_tomas_missed_event", "slot_12"),
            authored_event("m7_tomas_invalid_event", "slot_12"),
            authored_event("s3_1_nahid_success_event", "slot_13"),
            authored_event("s3_1_nahid_missed_event", "slot_13"),
            authored_event("s3_1_nahid_invalid_event", "slot_13"),
            authored_event("m8_bikram_success_event", "slot_14"),
            authored_event("m8_bikram_missed_event", "slot_14"),
            authored_event("m8_bikram_invalid_event", "slot_14"),
            authored_event("s3_asha_success_event", "slot_15"),
            authored_event("s3_asha_missed_event", "slot_15"),
            authored_event("s3_asha_invalid_event", "slot_15"),
            authored_event("m9_paro_success_event", "slot_16"),
            authored_event("m9_paro_missed_event", "slot_16"),
            authored_event("m9_paro_invalid_event", "slot_16"),
            authored_event("s3_akash_success_event", "slot_17"),
            authored_event("s3_akash_missed_event", "slot_17"),
            authored_event("s3_akash_invalid_event", "slot_17"),
            authored_event("m10_audit_success_event", "slot_18"),
            authored_event("m10_audit_missed_event", "slot_18"),
            authored_event("m10_audit_invalid_event", "slot_18"),
            authored_event("s4_akash_success_event", "m11_select"),
            authored_event("s4_akash_missed_event", "m11_select"),
            authored_event("s4_akash_invalid_event", "m11_select"),
            authored_event("m11a_success_event", "m12"),
            authored_event("m11a_missed_event", "m12"),
            authored_event("m11a_invalid_event", "m12"),
            authored_event("m11b_success_event", "m12"),
            authored_event("m11b_missed_event", "m12"),
            authored_event("m11b_invalid_event", "m12"),
            authored_event("m12_success_event", "m13"),
            authored_event("m12_missed_event", "m13"),
            authored_event("m12_invalid_event", "m13"),
            authored_event("m13_success_event", "m14_select"),
            authored_event("m13_missed_event", "m14_select"),
            authored_event("m13_invalid_event", "m14_select"),
            StoryEvent {
                id: text("m14r_success_event"),
                outcomes: vec![
                    outcome("default", "ending_platform_six"),
                    outcome("southbound_household", "ending_southbound"),
                    outcome("bankruptcy", "ending_bankruptcy"),
                    outcome("a_better_country", "ending_a_better_country"),
                    outcome("let_go", "ending_let_go"),
                    outcome("insubordination", "ending_insubordination"),
                ],
            },
            authored_event("m14r_missed_event", "ending_fragmented"),
            authored_event("m14r_invalid_event", "ending_fragmented"),
            authored_event("m14a_success_event", "ending_temporary_command"),
            authored_event("m14a_missed_event", "ending_fragmented"),
            authored_event("m14a_invalid_event", "ending_fragmented"),
            authored_event("m14p_success_event", "ending_emergency_state"),
            authored_event("m14p_missed_event", "ending_fragmented"),
            authored_event("m14p_invalid_event", "ending_fragmented"),
            authored_event("m14c_success_event", "ending_fragmented"),
            authored_event("m14c_missed_event", "ending_fragmented"),
            authored_event("m14c_invalid_event", "ending_fragmented"),
        ];
        let endings = vec![
            ending("ending_emergency_state", "Emergency State"),
            ending("ending_temporary_command", "Temporary Command"),
            ending("ending_platform_six", "Platform Six"),
            ending("ending_fragmented", "Fragmented Control"),
            ending("ending_southbound", "Southbound Household"),
            ending("ending_bankruptcy", "Bankruptcy"),
            ending("ending_a_better_country", "A Better Country"),
            ending("ending_let_go", "Let Go"),
            ending("ending_insubordination", "Insubordination"),
        ];
        let nodes = vec![
            run_start("run_start", "slot_01"),
            shift_call_node("slot_01", "s1_1_rafi", "s1_1_rafi_success_node", "s1_1_rafi_missed_node", "s1_1_rafi_invalid_node"),
            event_node("s1_1_rafi_success_node", "s1_1_rafi_success_event"),
            event_node("s1_1_rafi_missed_node", "s1_1_rafi_missed_event"),
            event_node("s1_1_rafi_invalid_node", "s1_1_rafi_invalid_event"),
            shift_call_node("slot_02", "m1_anika", "m1_anika_success_node", "m1_anika_missed_node", "m1_anika_invalid_node"),
            event_node("m1_anika_success_node", "m1_anika_success_event"),
            event_node("m1_anika_missed_node", "m1_anika_missed_event"),
            event_node("m1_anika_invalid_node", "m1_anika_invalid_event"),
            shift_call_node("slot_03", "s1_2_asha", "s1_2_asha_success_node", "s1_2_asha_missed_node", "s1_2_asha_invalid_node"),
            event_node("s1_2_asha_success_node", "s1_2_asha_success_event"),
            event_node("s1_2_asha_missed_node", "s1_2_asha_missed_event"),
            event_node("s1_2_asha_invalid_node", "s1_2_asha_invalid_event"),
            shift_call_node("slot_04", "m2_nayan", "m2_nayan_success_node", "m2_nayan_missed_node", "m2_nayan_invalid_node"),
            event_node("m2_nayan_success_node", "m2_nayan_success_event"),
            event_node("m2_nayan_missed_node", "m2_nayan_missed_event"),
            event_node("m2_nayan_invalid_node", "m2_nayan_invalid_event"),
            shift_call_node("slot_05", "m3_rakesh", "m3_rakesh_success_node", "m3_rakesh_missed_node", "m3_rakesh_invalid_node"),
            event_node("m3_rakesh_success_node", "m3_rakesh_success_event"),
            event_node("m3_rakesh_missed_node", "m3_rakesh_missed_event"),
            event_node("m3_rakesh_invalid_node", "m3_rakesh_invalid_event"),
            shift_call_node("slot_06", "s2_asha", "s2_asha_success_node", "s2_asha_missed_node", "s2_asha_invalid_node"),
            event_node("s2_asha_success_node", "s2_asha_success_event"),
            event_node("s2_asha_missed_node", "s2_asha_missed_event"),
            event_node("s2_asha_invalid_node", "s2_asha_invalid_event"),
            shift_call_node("slot_07", "m4_laleh", "m4_laleh_success_node", "m4_laleh_missed_node", "m4_laleh_invalid_node"),
            event_node("m4_laleh_success_node", "m4_laleh_success_event"),
            event_node("m4_laleh_missed_node", "m4_laleh_missed_event"),
            event_node("m4_laleh_invalid_node", "m4_laleh_invalid_event"),
            shift_call_node("slot_08", "s2_1_nahid", "s2_1_nahid_success_node", "s2_1_nahid_missed_node", "s2_1_nahid_invalid_node"),
            event_node("s2_1_nahid_success_node", "s2_1_nahid_success_event"),
            event_node("s2_1_nahid_missed_node", "s2_1_nahid_missed_event"),
            event_node("s2_1_nahid_invalid_node", "s2_1_nahid_invalid_event"),
            shift_call_node("slot_09", "m5_javed", "m5_javed_success_node", "m5_javed_missed_node", "m5_javed_invalid_node"),
            event_node("m5_javed_success_node", "m5_javed_success_event"),
            event_node("m5_javed_missed_node", "m5_javed_missed_event"),
            event_node("m5_javed_invalid_node", "m5_javed_invalid_event"),
            shift_call_node("slot_10", "m6_varo", "m6_varo_success_node", "m6_varo_missed_node", "m6_varo_invalid_node"),
            event_node("m6_varo_success_node", "m6_varo_success_event"),
            event_node("m6_varo_missed_node", "m6_varo_missed_event"),
            event_node("m6_varo_invalid_node", "m6_varo_invalid_event"),
            shift_call_node("slot_11", "m7_tomas", "m7_tomas_success_node", "m7_tomas_missed_node", "m7_tomas_invalid_node"),
            event_node("m7_tomas_success_node", "m7_tomas_success_event"),
            event_node("m7_tomas_missed_node", "m7_tomas_missed_event"),
            event_node("m7_tomas_invalid_node", "m7_tomas_invalid_event"),
            shift_call_node("slot_12", "s3_1_nahid", "s3_1_nahid_success_node", "s3_1_nahid_missed_node", "s3_1_nahid_invalid_node"),
            event_node("s3_1_nahid_success_node", "s3_1_nahid_success_event"),
            event_node("s3_1_nahid_missed_node", "s3_1_nahid_missed_event"),
            event_node("s3_1_nahid_invalid_node", "s3_1_nahid_invalid_event"),
            shift_call_node("slot_13", "m8_bikram", "m8_bikram_success_node", "m8_bikram_missed_node", "m8_bikram_invalid_node"),
            event_node("m8_bikram_success_node", "m8_bikram_success_event"),
            event_node("m8_bikram_missed_node", "m8_bikram_missed_event"),
            event_node("m8_bikram_invalid_node", "m8_bikram_invalid_event"),
            shift_call_node("slot_14", "s3_asha", "s3_asha_success_node", "s3_asha_missed_node", "s3_asha_invalid_node"),
            event_node("s3_asha_success_node", "s3_asha_success_event"),
            event_node("s3_asha_missed_node", "s3_asha_missed_event"),
            event_node("s3_asha_invalid_node", "s3_asha_invalid_event"),
            shift_call_node("slot_15", "m9_paro", "m9_paro_success_node", "m9_paro_missed_node", "m9_paro_invalid_node"),
            event_node("m9_paro_success_node", "m9_paro_success_event"),
            event_node("m9_paro_missed_node", "m9_paro_missed_event"),
            event_node("m9_paro_invalid_node", "m9_paro_invalid_event"),
            shift_call_node("slot_16", "s3_akash", "s3_akash_success_node", "s3_akash_missed_node", "s3_akash_invalid_node"),
            event_node("s3_akash_success_node", "s3_akash_success_event"),
            event_node("s3_akash_missed_node", "s3_akash_missed_event"),
            event_node("s3_akash_invalid_node", "s3_akash_invalid_event"),
            shift_call_node("slot_17", "m10_audit", "m10_audit_success_node", "m10_audit_missed_node", "m10_audit_invalid_node"),
            event_node("m10_audit_success_node", "m10_audit_success_event"),
            event_node("m10_audit_missed_node", "m10_audit_missed_event"),
            event_node("m10_audit_invalid_node", "m10_audit_invalid_event"),
            shift_call_node("slot_18", "s4_akash", "s4_akash_success_node", "s4_akash_missed_node", "s4_akash_invalid_node"),
            event_node("s4_akash_success_node", "s4_akash_success_event"),
            event_node("s4_akash_missed_node", "s4_akash_missed_event"),
            event_node("s4_akash_invalid_node", "s4_akash_invalid_event"),
            shift_call_node("m11a", "m11a_laleh", "m11a_success_node", "m11a_missed_node", "m11a_invalid_node"),
            event_node("m11a_success_node", "m11a_success_event"),
            event_node("m11a_missed_node", "m11a_missed_event"),
            event_node("m11a_invalid_node", "m11a_invalid_event"),
            shift_call_node("m11b", "m11b_dev", "m11b_success_node", "m11b_missed_node", "m11b_invalid_node"),
            event_node("m11b_success_node", "m11b_success_event"),
            event_node("m11b_missed_node", "m11b_missed_event"),
            event_node("m11b_invalid_node", "m11b_invalid_event"),
            shift_call_node("m12", "m12_arman", "m12_success_node", "m12_missed_node", "m12_invalid_node"),
            event_node("m12_success_node", "m12_success_event"),
            event_node("m12_missed_node", "m12_missed_event"),
            event_node("m12_invalid_node", "m12_invalid_event"),
            shift_call_node("m13", "m13_meera", "m13_success_node", "m13_missed_node", "m13_invalid_node"),
            event_node("m13_success_node", "m13_success_event"),
            event_node("m13_missed_node", "m13_missed_event"),
            event_node("m13_invalid_node", "m13_invalid_event"),
            shift_call_node("m14r", "m14_mira", "m14r_success_node", "m14r_missed_node", "m14r_invalid_node"),
            event_node("m14r_success_node", "m14r_success_event"),
            event_node("m14r_missed_node", "m14r_missed_event"),
            event_node("m14r_invalid_node", "m14r_invalid_event"),
            shift_call_node("m14a", "m14_mira", "m14a_success_node", "m14a_missed_node", "m14a_invalid_node"),
            event_node("m14a_success_node", "m14a_success_event"),
            event_node("m14a_missed_node", "m14a_missed_event"),
            event_node("m14a_invalid_node", "m14a_invalid_event"),
            shift_call_node("m14p", "m14_mira", "m14p_success_node", "m14p_missed_node", "m14p_invalid_node"),
            event_node("m14p_success_node", "m14p_success_event"),
            event_node("m14p_missed_node", "m14p_missed_event"),
            event_node("m14p_invalid_node", "m14p_invalid_event"),
            shift_call_node("m14c", "m14_mira", "m14c_success_node", "m14c_missed_node", "m14c_invalid_node"),
            event_node("m14c_success_node", "m14c_success_event"),
            event_node("m14c_missed_node", "m14c_missed_event"),
            event_node("m14c_invalid_node", "m14c_invalid_event"),
            conditional_node("m11_select", 0, "m11a", "m11b"),
            conditional_node("m14_select", 0, "m14r", "m14_select_2"),
            conditional_node("m14_select_2", 1, "m14a", "m14_select_3"),
            conditional_node("m14_select_3", 2, "m14p", "m14c"),
            ending_node("ending_emergency_state", "ending_emergency_state"),
            ending_node("ending_temporary_command", "ending_temporary_command"),
            ending_node("ending_platform_six", "ending_platform_six"),
            ending_node("ending_fragmented", "ending_fragmented"),
            ending_node("ending_southbound", "ending_southbound"),
            ending_node("ending_bankruptcy", "ending_bankruptcy"),
            ending_node("ending_a_better_country", "ending_a_better_country"),
            ending_node("ending_let_go", "ending_let_go"),
            ending_node("ending_insubordination", "ending_insubordination"),
        ];
        let content = AuthoredContent {
            subscribers,
            line_listings,
            call_premises,
            story_beats,
            story_events,
            endings,
            nodes,
            start_node_id: text("run_start"),
        };
        assert(content.call_premises@[0].directory_ids@ =~= seq![1u16]);
        assert(content.call_premises@[1].directory_ids@ =~= seq![8u16]);
        assert(content.call_premises@[2].directory_ids@ =~= seq![1u16]);
        assert(content.call_premises@[3].directory_ids@ =~= seq![5u16]);
        assert(content.call_premises@[4].directory_ids@ =~= seq![8u16]);
        assert(content.call_premises@[5].directory_ids@ =~= seq![1u16]);
        assert(content.call_premises@[6].directory_ids@ =~= seq![9u16]);
        assert(content.call_premises@[7].directory_ids@ =~= seq![1u16]);
        assert(content.call_premises@[8].directory_ids@ =~= seq![9u16]);
        assert(content.call_premises@[9].directory_ids@ =~= seq![2u16]);
        assert(content.call_premises@[10].directory_ids@ =~= seq![6u16]);
        assert(content.call_premises@[11].directory_ids@ =~= seq![1u16]);
        assert(content.call_premises@[12].directory_ids@ =~= seq![3u16]);
        assert(content.call_premises@[13].directory_ids@ =~= seq![1u16]);
        assert(content.call_premises@[14].directory_ids@ =~= seq![9u16]);
        assert(content.call_premises@[15].directory_ids@ =~= seq![9u16]);
        assert(content.call_premises@[16].directory_ids@ =~= seq![1u16]);
        assert(content.call_premises@[17].directory_ids@ =~= seq![9u16]);
        assert(content.call_premises@[18].directory_ids@ =~= seq![9u16]);
        assert(content.call_premises@[19].directory_ids@ =~= seq![9u16]);
        assert(content.call_premises@[20].directory_ids@ =~= seq![5u16]);
        assert(content.call_premises@[21].directory_ids@ =~= seq![7u16]);
        assert(content.call_premises@[22].directory_ids@ =~= seq![9u16]);
        assert(texts(content.line_listings@[0].subscriber_ids@) =~= seq!["anika_roy"@]);
        assert(texts(content.line_listings@[1].subscriber_ids@) =~= seq!["nayan_boro"@]);
        assert(texts(content.line_listings@[2].subscriber_ids@) =~= seq!["rakesh_nahal"@, "dev_korr"@]);
        assert(texts(content.line_listings@[3].subscriber_ids@) =~= seq!["captain_varo"@, "arman_vey"@]);
        assert(texts(content.line_listings@[4].subscriber_ids@) =~= seq!["nayan_boro"@]);
        assert(texts(content.line_listings@[5].subscriber_ids@) =~= seq!["meera_tal"@]);
        assert(texts(content.line_listings@[6].subscriber_ids@) =~= seq!["tomas_vale"@, "nahid_bkash"@]);
        assert(texts(content.line_listings@[7].subscriber_ids@) =~= seq!["javed_rahman"@]);
        assert(texts(content.line_listings@[8].subscriber_ids@) =~= seq!["paro_sen"@, "akash_dey"@]);
        assert(texts(content.line_listings@[9].subscriber_ids@) =~= seq!["laleh_mir"@, "asha_sen"@, "rafi_alam"@]);
        assert(texts(content.line_listings@[10].subscriber_ids@) =~= seq!["bikram_sen"@]);
        assert(texts(content.line_listings@[11].subscriber_ids@) =~= seq!["mira_halek"@]);
        assert(outcome_pairs(content.story_events@[66].outcomes@) =~= seq![("default"@, "ending_platform_six"@), ("southbound_household"@, "ending_southbound"@), ("bankruptcy"@, "ending_bankruptcy"@), ("a_better_country"@, "ending_a_better_country"@), ("let_go"@, "ending_let_go"@), ("insubordination"@, "ending_insubordination"@)]);
        assert(is_north_neeladesh_content(content));
        proof { lemma_north_neeladesh_compiles(content); }
        content
    }
}

} // verus!
