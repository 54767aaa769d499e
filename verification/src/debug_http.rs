//! The development debug surface's HTTP side: which handler a request
//! reaches, the head of the request, the voice-audio paths it serves, the
//! commands its page posts, and the bytes of the responses it writes.

use vstd::prelude::*;
use vstd::string::*;
use crate::protocol::{DebugAudioKind, DebugCommand};
use crate::scan::{lemma_first_occurrence, lemma_no_occurrence, after_pattern, before_pattern, find_text, first_occurrence, occurs_at, prefix_to, read_u64, read_usize, starts_with, suffix_from, u64_reading, usize_reading};
use crate::ports::{decimal_facts, is_digit};
use crate::text::{chars_of, decimal, is_white_space, push_decimal, same_chars, same_text, trim_chars, trimmed, white_space};
use vstd::utf8::encode_utf8;

verus! {

/// The handler a request reaches.
#[derive(Debug, Clone, Copy, PartialEq, Eq, Structural)]
pub enum HttpRoute {
    Index,
    Snapshot,
    VoiceAudio,
    Command,
    NotFound,
}

/// The path prefix under which recorded voice audio is served.
pub open spec fn voice_path_prefix() -> Seq<char> {
    "/api/voice/"@
}

/// The handler for a method and path.
pub open spec fn route_of(method: Seq<char>, path: Seq<char>) -> HttpRoute {
    if method == "GET"@ && path == "/"@ {
        HttpRoute::Index
    } else if method == "GET"@ && path == "/api/snapshot"@ {
        HttpRoute::Snapshot
    } else if method == "GET"@ && voice_path_prefix().is_prefix_of(path) {
        HttpRoute::VoiceAudio
    } else if method == "POST"@ && path == "/api/command"@ {
        HttpRoute::Command
    } else {
        HttpRoute::NotFound
    }
}

/// Chooses the handler for a request.
pub fn route_request(method: &str, path: &str) -> (route: HttpRoute)
    ensures
        route == route_of(method@, path@),
{
    let get = same_text(method, "GET");
    if get && same_text(path, "/") {
        HttpRoute::Index
    } else if get && same_text(path, "/api/snapshot") {
        HttpRoute::Snapshot
    } else if get && starts_with(&chars_of(path), &chars_of("/api/voice/")) {
        HttpRoute::VoiceAudio
    } else if same_text(method, "POST") && same_text(path, "/api/command") {
        HttpRoute::Command
    } else {
        HttpRoute::NotFound
    }
}

/// The kind of recording a file name in a voice-audio path asks for.
pub open spec fn audio_kind_named(name: Seq<char>) -> Option<DebugAudioKind> {
    if name == "capture.wav"@ {
        Some(DebugAudioKind::Capture)
    } else if name == "tts.wav"@ {
        Some(DebugAudioKind::Tts)
    } else {
        None
    }
}

/// The conversation and recording a voice-audio path asks for: exactly
/// `/api/voice/{id}/capture.wav` or `/api/voice/{id}/tts.wav`, with an
/// identifier that reads as a `u64`.
pub open spec fn voice_audio_request(path: Seq<char>) -> Option<(u64, DebugAudioKind)> {
    if voice_path_prefix().is_prefix_of(path) {
        let rest = path.skip(voice_path_prefix().len() as int);
        match first_occurrence(rest, seq!['/']) {
            Some(i) => {
                let tail = rest.skip(i + 1);
                if tail.contains('/') {
                    None
                } else {
                    match (u64_reading(rest.take(i)), audio_kind_named(tail)) {
                        (Some(id), Some(kind)) => Some((id, kind)),
                        _ => None,
                    }
                }
            },
            None => None,
        }
    } else {
        None
    }
}

fn contains_char(v: &Vec<char>, c: char) -> (found: bool)
    ensures
        found == v@.contains(c),
{
    let mut k: usize = 0;
    while k < v.len()
        invariant
            k <= v@.len(),
            forall|j: int| 0 <= j < k ==> v@[j] != c,
        decreases v@.len() - k,
    {
        if v[k] == c {
            assert(v@[k as int] == c);
            return true;
        }
        k = k + 1;
    }
    false
}

/// Reads a voice-audio path strictly.
pub fn parse_voice_audio_path(path: &str) -> (request: Option<(u64, DebugAudioKind)>)
    ensures
        request == voice_audio_request(path@),
{
    let p = chars_of(path);
    let prefix = chars_of("/api/voice/");
    if !starts_with(&p, &prefix) {
        return None;
    }
    assert(p@.len() == p.len());
    let rest = suffix_from(&p, prefix.len());
    let slash = vec!['/'];
    assert(slash@ =~= seq!['/']);
    let i = match find_text(&rest, &slash, 0) {
        Some(i) => i,
        None => {
            return None;
        },
    };
    assert(rest@.len() == rest.len());
    let tail = suffix_from(&rest, i + 1);
    if contains_char(&tail, '/') {
        return None;
    }
    let id = match read_u64(&prefix_to(&rest, i)) {
        Some(id) => id,
        None => {
            return None;
        },
    };
    let kind = if same_chars(&tail, &chars_of("capture.wav")) {
        DebugAudioKind::Capture
    } else if same_chars(&tail, &chars_of("tts.wav")) {
        DebugAudioKind::Tts
    } else {
        return None;
    };
    Some((id, kind))
}

/// The file name under which a kind of recording is served.
pub open spec fn audio_file_name(kind: DebugAudioKind) -> Seq<char> {
    match kind {
        DebugAudioKind::Capture => "capture.wav"@,
        DebugAudioKind::Tts => "tts.wav"@,
    }
}

/// The path that serves a conversation's recording of one kind.
pub open spec fn voice_audio_path_of(conversation_id: u64, kind: DebugAudioKind) -> Seq<char> {
    voice_path_prefix() + decimal(conversation_id as nat) + "/"@ + audio_file_name(kind)
}

/// The path that serves a conversation's recording reads back as that
/// conversation and that kind of recording.
pub proof fn law_voice_audio_paths_read_back(conversation_id: u64, kind: DebugAudioKind)
    ensures
        voice_audio_request(voice_audio_path_of(conversation_id, kind)) == Some((conversation_id, kind)),
{
    reveal_strlit("/api/voice/");
    reveal_strlit("/");
    reveal_strlit("capture.wav");
    reveal_strlit("tts.wav");
    let prefix = voice_path_prefix();
    let digits = decimal(conversation_id as nat);
    let name = audio_file_name(kind);
    let path = voice_audio_path_of(conversation_id, kind);
    decimal_facts(conversation_id as nat);
    assert(prefix.len() == 11);
    assert(path.subrange(0, 11) =~= prefix);
    let rest = path.skip(11);
    assert(rest =~= digits + seq!['/'] + name);
    let at = digits.len() as int;
    assert(rest.subrange(at, at + 1) =~= seq!['/']);
    assert forall|j: int| 0 <= j < at implies !occurs_at(rest, seq!['/'], j) by {
        assert(rest[j] == digits[j]);
        assert(is_digit(digits[j]));
        assert(rest.subrange(j, j + 1)[0] == rest[j]);
    }
    lemma_first_occurrence(rest, seq!['/'], at);
    let tail = rest.skip(at + 1);
    assert(tail =~= name);
    assert(!name.contains('/')) by {
        assert forall|i: int| 0 <= i < name.len() implies name[i] != '/' by {}
    }
    assert(rest.take(at) =~= digits);
    assert(digits[0] != '+') by {
        assert(is_digit(digits[0]));
    }
    if kind == DebugAudioKind::Tts {
        assert(name != "capture.wav"@);
    }
}

/// The word a recording's file name starts with.
pub open spec fn audio_kind_prefix(kind: DebugAudioKind) -> Seq<char> {
    match kind {
        DebugAudioKind::Capture => "capture"@,
        DebugAudioKind::Tts => "tts"@,
    }
}

/// How the file names of a conversation's recordings of one kind begin.
pub open spec fn voice_audio_pattern(conversation_id: u64, kind: DebugAudioKind) -> Seq<char> {
    audio_kind_prefix(kind) + "-"@ + decimal(conversation_id as nat) + "-session-"@
}

/// Whether a file holds a conversation's recording of one kind: its name
/// begins with the conversation's pattern and ends with `.wav`.
pub open spec fn is_voice_audio_file(name: Seq<char>, conversation_id: u64, kind: DebugAudioKind) -> bool {
    voice_audio_pattern(conversation_id, kind).is_prefix_of(name) && ".wav"@.is_suffix_of(name)
}

fn ends_with(s: &Vec<char>, suffix: &Vec<char>) -> (yes: bool)
    ensures
        yes == suffix@.is_suffix_of(s@),
{
    if suffix.len() > s.len() {
        return false;
    }
    let offset = s.len() - suffix.len();
    let mut i: usize = 0;
    while i < suffix.len()
        invariant
            offset + suffix@.len() == s@.len(),
            s@.len() <= usize::MAX,
            i <= suffix@.len(),
            forall|k: int| 0 <= k < i ==> suffix@[k] == s@[offset + k],
        decreases suffix@.len() - i,
    {
        if suffix[i] != s[offset + i] {
            assert(s@.subrange(offset as int, s@.len() as int)[i as int] == s@[offset + i]);
            return false;
        }
        i = i + 1;
    }
    assert(suffix@ =~= s@.subrange(offset as int, s@.len() as int));
    true
}

/// Whether a file holds a conversation's recording of one kind.
pub fn voice_audio_file_matches(name: &str, conversation_id: u64, kind: DebugAudioKind) -> (matches: bool)
    ensures
        matches == is_voice_audio_file(name@, conversation_id, kind),
{
    let mut pattern = String::from_str(match kind {
        DebugAudioKind::Capture => "capture",
        DebugAudioKind::Tts => "tts",
    });
    pattern.append("-");
    push_decimal(&mut pattern, conversation_id);
    pattern.append("-session-");
    let n = chars_of(name);
    starts_with(&n, &chars_of(pattern.as_str())) && ends_with(&n, &chars_of(".wav"))
}

/// A command as the debug page posts it: an action and the fields that some
/// actions need.
pub struct UiCommand {
    pub action: String,
    pub seconds: Option<u32>,
    pub caller_line: Option<u8>,
    pub callee_line: Option<u8>,
    pub enabled: Option<bool>,
}

/// The backend command a posted command stands for, or the message that
/// refuses it.
pub open spec fn ui_command_meaning(
    action: Seq<char>,
    seconds: Option<u32>,
    caller_line: Option<u8>,
    callee_line: Option<u8>,
    enabled: Option<bool>,
) -> Result<DebugCommand, Seq<char>> {
    if action == "snapshot"@ {
        Ok(DebugCommand::Snapshot)
    } else if action == "reset"@ {
        Ok(DebugCommand::ResetRun)
    } else if action == "advance_time"@ {
        match seconds {
            Some(s) => Ok(DebugCommand::AdvanceTime { seconds: s }),
            None => Err("seconds is required"@),
        }
    } else if action == "inject_call"@ {
        match (caller_line, callee_line) {
            (Some(caller), Some(callee)) => Ok(DebugCommand::InjectCall { caller_line: caller, callee_line: callee }),
            (None, _) => Err("caller_line is required"@),
            (Some(_), None) => Err("callee_line is required"@),
        }
    } else if action == "godmode"@ {
        match enabled {
            Some(e) => Ok(DebugCommand::SetGodmode { enabled: e }),
            None => Err("enabled is required"@),
        }
    } else if action == "bypass_restrictions"@ {
        match enabled {
            Some(e) => Ok(DebugCommand::SetBypassRestrictions { enabled: e }),
            None => Err("enabled is required"@),
        }
    } else {
        Err("unknown action "@ + action)
    }
}

fn owned(s: &str) -> (t: String)
    ensures
        t@ == s@,
{
    String::from_str(s)
}

impl UiCommand {
    /// The backend command this posted command stands for.
    pub fn into_debug_command(self) -> (command: Result<DebugCommand, String>)
        ensures
            match command {
                Ok(c) => ui_command_meaning(self.action@, self.seconds, self.caller_line, self.callee_line, self.enabled) == Ok::<DebugCommand, Seq<char>>(c),
                Err(message) => ui_command_meaning(self.action@, self.seconds, self.caller_line, self.callee_line, self.enabled) == Err::<DebugCommand, Seq<char>>(message@),
            },
    {
        let action = self.action.as_str();
        if same_text(action, "snapshot") {
            Ok(DebugCommand::Snapshot)
        } else if same_text(action, "reset") {
            Ok(DebugCommand::ResetRun)
        } else if same_text(action, "advance_time") {
            match self.seconds {
                Some(seconds) => Ok(DebugCommand::AdvanceTime { seconds }),
                None => Err(owned("seconds is required")),
            }
        } else if same_text(action, "inject_call") {
            match (self.caller_line, self.callee_line) {
                (Some(caller_line), Some(callee_line)) => Ok(DebugCommand::InjectCall { caller_line, callee_line }),
                (None, _) => Err(owned("caller_line is required")),
                (Some(_), None) => Err(owned("callee_line is required")),
            }
        } else if same_text(action, "godmode") {
            match self.enabled {
                Some(enabled) => Ok(DebugCommand::SetGodmode { enabled }),
                None => Err(owned("enabled is required")),
            }
        } else if same_text(action, "bypass_restrictions") {
            match self.enabled {
                Some(enabled) => Ok(DebugCommand::SetBypassRestrictions { enabled }),
                None => Err(owned("enabled is required")),
            }
        } else {
            let mut message = owned("unknown action ");
            message.append(action);
            Err(message)
        }
    }
}

/// The head of a successful response.
pub open spec fn ok_head(content_type: Seq<char>, length: nat) -> Seq<char> {
    "HTTP/1.1 200 OK\r\nContent-Type: "@ + content_type + "\r\nContent-Length: "@ + decimal(length)
        + "\r\nConnection: close\r\nAccess-Control-Allow-Origin: *\r\n\r\n"@
}

/// The head of a successful audio response, which the browser plays inline
/// and does not cache.
pub open spec fn audio_head(content_type: Seq<char>, length: nat) -> Seq<char> {
    "HTTP/1.1 200 OK\r\nContent-Type: "@ + content_type + "\r\nContent-Length: "@ + decimal(length)
        + "\r\nContent-Disposition: inline\r\nCache-Control: no-store\r\nConnection: close\r\n\r\n"@
}

/// Appends the UTF-8 bytes of a text.
pub(crate) fn push_text(out: &mut Vec<u8>, text: &str)
    ensures
        final(out)@ == old(out)@ + encode_utf8(text@),
{
    push_bytes(out, text.as_bytes());
}

/// Appends bytes.
pub(crate) fn push_bytes(out: &mut Vec<u8>, bytes: &[u8])
    ensures
        final(out)@ == old(out)@ + bytes@,
{
    let ghost start = out@;
    let mut i: usize = 0;
    while i < bytes.len()
        invariant
            i <= bytes@.len(),
            out@ == start + bytes@.subrange(0, i as int),
        decreases bytes@.len() - i,
    {
        out.push(bytes[i]);
        assert(out@ =~= start + bytes@.subrange(0, i + 1));
        i = i + 1;
    }
    assert(bytes@.subrange(0, bytes@.len() as int) =~= bytes@);
}

/// A successful response carrying `body`.
pub fn http_response(content_type: &str, body: &[u8]) -> (response: Vec<u8>)
    ensures
        response@ == encode_utf8(ok_head(content_type@, body@.len())) + body@,
{
    let mut head = String::from_str("HTTP/1.1 200 OK\r\nContent-Type: ");
    head.append(content_type);
    head.append("\r\nContent-Length: ");
    push_decimal(&mut head, body.len() as u64);
    head.append("\r\nConnection: close\r\nAccess-Control-Allow-Origin: *\r\n\r\n");
    let mut response: Vec<u8> = Vec::new();
    push_text(&mut response, head.as_str());
    push_bytes(&mut response, body);
    assert(response@ =~= encode_utf8(ok_head(content_type@, body@.len())) + body@);
    response
}

/// A successful audio response carrying `body`.
pub fn http_audio_response(content_type: &str, body: &[u8]) -> (response: Vec<u8>)
    ensures
        response@ == encode_utf8(audio_head(content_type@, body@.len())) + body@,
{
    let mut head = String::from_str("HTTP/1.1 200 OK\r\nContent-Type: ");
    head.append(content_type);
    head.append("\r\nContent-Length: ");
    push_decimal(&mut head, body.len() as u64);
    head.append("\r\nContent-Disposition: inline\r\nCache-Control: no-store\r\nConnection: close\r\n\r\n");
    let mut response: Vec<u8> = Vec::new();
    push_text(&mut response, head.as_str());
    push_bytes(&mut response, body);
    assert(response@ =~= encode_utf8(audio_head(content_type@, body@.len())) + body@);
    response
}

/// A lowercase hexadecimal digit.
pub open spec fn hex_lower(d: u32) -> char {
    if d < 10 { ((d + 0x30) as u32) as char } else { ((d - 10 + 0x61) as u32) as char }
}

/// How one character is written inside a JSON string literal: `"` and `\`
/// after a backslash, the short escapes for backspace, tab, line feed, form
/// feed and carriage return, the other characters below U+0020 as `\u00`
/// and two lowercase hexadecimal digits, and every other character as it is.
pub open spec fn json_escape_char(c: char) -> Seq<char> {
    let u = c as u32;
    if c == '"' {
        seq!['\\', '"']
    } else if c == '\\' {
        seq!['\\', '\\']
    } else if u == 0x08 {
        seq!['\\', 'b']
    } else if u == 0x09 {
        seq!['\\', 't']
    } else if u == 0x0a {
        seq!['\\', 'n']
    } else if u == 0x0c {
        seq!['\\', 'f']
    } else if u == 0x0d {
        seq!['\\', 'r']
    } else if u < 0x20 {
        seq!['\\', 'u', '0', '0', hex_lower(u / 16), hex_lower(u % 16)]
    } else {
        seq![c]
    }
}

/// The characters of `text`, each written as `json_escape_char` writes it.
pub open spec fn json_escaped(text: Seq<char>) -> Seq<char>
    decreases text.len(),
{
    if text.len() == 0 {
        Seq::empty()
    } else {
        json_escaped(text.drop_last()) + json_escape_char(text.last())
    }
}

/// The JSON string literal that writes `text`: its escaped characters
/// between double quotes.
pub open spec fn json_string(text: Seq<char>) -> Seq<char> {
    seq!['"'] + json_escaped(text) + seq!['"']
}

/// Calls `serde_json::to_string` on a string slice. The contract claims that
/// the result is the JSON string literal of the text as `json_string` spells
/// it out (serde_json's `format_escaped_str` and its escape table). Serialising a `str` into memory does not fail (the serializer's
/// only error for a string is one of the writer, and a `Vec<u8>` writer
/// never fails), so the error arm is never taken.
#[verifier::external_body]
fn json_quoted(text: &str) -> (quoted: String)
    ensures
        quoted@ == json_string(text@),
{
    match serde_json::to_string(text) {
        Ok(quoted) => quoted,
        Err(_) => String::new(),
    }
}

/// The reason phrase the debug surface gives a status code.
pub open spec fn status_reason(status: u16) -> Seq<char> {
    if status == 400 {
        "Bad Request"@
    } else if status == 404 {
        "Not Found"@
    } else if status == 502 {
        "Bad Gateway"@
    } else {
        "Internal Server Error"@
    }
}

/// The JSON object that carries an error message, given the message as a
/// JSON string literal.
pub open spec fn error_body_with(quoted: Seq<char>) -> Seq<char> {
    "{\"error\":"@ + quoted + "}"@
}

/// The whole text of an error response whose body carries the JSON string
/// literal `quoted`.
pub open spec fn error_response_with(status: u16, quoted: Seq<char>) -> Seq<char> {
    "HTTP/1.1 "@ + decimal(status as nat) + " "@ + status_reason(status)
        + "\r\nContent-Type: application/json\r\nContent-Length: "@
        + decimal(encode_utf8(error_body_with(quoted)).len())
        + "\r\nConnection: close\r\n\r\n"@ + error_body_with(quoted)
}

/// The whole text of an error response carrying `message`.
pub open spec fn error_response(status: u16, message: Seq<char>) -> Seq<char> {
    error_response_with(status, json_string(message))
}

fn reason(status: u16) -> (phrase: &'static str)
    ensures
        phrase@ == status_reason(status),
{
    if status == 400 {
        "Bad Request"
    } else if status == 404 {
        "Not Found"
    } else if status == 502 {
        "Bad Gateway"
    } else {
        "Internal Server Error"
    }
}

/// An error response whose JSON body is `{"error":` and the JSON string
/// literal `quoted`.
pub fn error_response_bytes(status: u16, quoted: &str) -> (response: Vec<u8>)
    ensures
        response@ == encode_utf8(error_response_with(status, quoted@)),
{
    let mut body = String::from_str("{\"error\":");
    body.append(quoted);
    body.append("}");
    let length = body.as_str().as_bytes().len();
    let mut text = String::from_str("HTTP/1.1 ");
    push_decimal(&mut text, status as u64);
    text.append(" ");
    text.append(reason(status));
    text.append("\r\nContent-Type: application/json\r\nContent-Length: ");
    push_decimal(&mut text, length as u64);
    text.append("\r\nConnection: close\r\n\r\n");
    text.append(body.as_str());
    assert(text@ =~= error_response_with(status, quoted@));
    let mut response: Vec<u8> = Vec::new();
    push_text(&mut response, text.as_str());
    assert(response@ =~= encode_utf8(error_response_with(status, quoted@)));
    response
}

/// An error response whose JSON body carries `message`.
pub fn http_error(status: u16, message: &str) -> (response: Vec<u8>)
    ensures
        response@ == encode_utf8(error_response(status, message@)),
{
    let quoted = json_quoted(message);
    error_response_bytes(status, quoted.as_str())
}

/// The line ending of an HTTP head.
pub open spec fn crlf() -> Seq<char> {
    seq!['\r', '\n']
}

/// The first line of a text: what precedes its first line ending.
pub open spec fn first_line(text: Seq<char>) -> Seq<char> {
    match before_pattern(text, crlf()) {
        Some(line) => line,
        None => text,
    }
}

/// The position after the white space that starts at `i`.
pub open spec fn skip_space(s: Seq<char>, i: int) -> int
    decreases s.len() - i,
{
    if 0 <= i < s.len() && is_white_space(s[i]) {
        skip_space(s, i + 1)
    } else {
        i
    }
}

/// The position after the word that starts at `i`.
pub open spec fn skip_word(s: Seq<char>, i: int) -> int
    decreases s.len() - i,
{
    if 0 <= i < s.len() && !is_white_space(s[i]) {
        skip_word(s, i + 1)
    } else {
        i
    }
}

/// The first word at or after `from`, with white space between words, or
/// nothing where only white space is left.
pub open spec fn word_at(s: Seq<char>, from: int) -> Seq<char> {
    s.subrange(skip_space(s, from), skip_word(s, skip_space(s, from)))
}

/// The method a request head names: the first word of its first line.
pub open spec fn request_method(head: Seq<char>) -> Seq<char> {
    word_at(first_line(head), 0)
}

/// The path a request head names: the second word of its first line.
pub open spec fn request_path(head: Seq<char>) -> Seq<char> {
    let line = first_line(head);
    word_at(line, skip_word(line, skip_space(line, 0)))
}

/// The header name that declares the length of a request's body.
pub open spec fn content_length_key() -> Seq<char> {
    "Content-Length:"@
}

/// The trimmed value of the first line, from `rest` on, that starts with
/// `Content-Length:`.
pub open spec fn content_length_field(rest: Seq<char>) -> Option<Seq<char>>
    decreases rest.len(),
{
    let line = first_line(rest);
    if content_length_key().is_prefix_of(line) {
        Some(trimmed(line.skip(content_length_key().len() as int)))
    } else {
        match first_occurrence(rest, crlf()) {
            Some(i) => if 0 <= i && i + 2 <= rest.len() {
                content_length_field(rest.skip(i + 2))
            } else {
                None
            },
            None => None,
        }
    }
}

/// The body length a request head declares: the value of its first
/// `Content-Length:` header as a `usize`, or zero without such a header;
/// none where the value does not read.
pub open spec fn declared_content_length(head: Seq<char>) -> Option<usize> {
    let field = match after_pattern(head, crlf()) {
        Some(rest) => content_length_field(rest),
        None => None,
    };
    match field {
        Some(text) => usize_reading(text),
        None => Some(0usize),
    }
}

/// What the head of a request says.
pub struct RequestHead {
    pub method: String,
    pub path: String,
    pub content_length: usize,
}

/// Why a request head is refused.
#[derive(Debug, Clone, Copy, PartialEq, Eq, Structural)]
pub enum RequestHeadError {
    InvalidContentLength,
}

impl RequestHeadError {
    /// The message that reports the refusal.
    pub fn message(self) -> (text: &'static str)
        ensures
            text@ == "invalid Content-Length"@,
    {
        "invalid Content-Length"
    }
}

/// The first line of `v`.
fn first_line_of(v: &Vec<char>, ending: &Vec<char>) -> (line: Vec<char>)
    requires
        ending@ == crlf(),
    ensures
        line@ == first_line(v@),
        line@ == v@.take(line@.len() as int),
        line@.len() <= v@.len(),
{
    match find_text(v, ending, 0) {
        Some(i) => prefix_to(v, i),
        None => {
            assert(v@.take(v@.len() as int) =~= v@);
            prefix_to(v, v.len())
        },
    }
}

/// The end of the white space that starts at `from`.
pub(crate) fn skip_spaces(s: &Vec<char>, from: usize) -> (end: usize)
    requires
        from <= s@.len(),
    ensures
        end as int == skip_space(s@, from as int),
        from <= end <= s@.len(),
{
    let mut i = from;
    while i < s.len() && white_space(s[i])
        invariant
            from <= i <= s@.len(),
            skip_space(s@, i as int) == skip_space(s@, from as int),
        decreases s@.len() - i,
    {
        i = i + 1;
    }
    i
}

/// The end of the word that starts at `from`.
pub(crate) fn skip_word_chars(s: &Vec<char>, from: usize) -> (end: usize)
    requires
        from <= s@.len(),
    ensures
        end as int == skip_word(s@, from as int),
        from <= end <= s@.len(),
{
    let mut i = from;
    while i < s.len() && !white_space(s[i])
        invariant
            from <= i <= s@.len(),
            skip_word(s@, i as int) == skip_word(s@, from as int),
        decreases s@.len() - i,
    {
        i = i + 1;
    }
    i
}

/// The trimmed value of the first `Content-Length:` line from `rest` on.
fn find_content_length(text: Vec<char>, ending: &Vec<char>, key: &Vec<char>) -> (field: Option<Vec<char>>)
    requires
        ending@ == crlf(),
        key@ == content_length_key(),
    ensures
        match field {
            Some(t) => content_length_field(text@) == Some(t@),
            None => content_length_field(text@) is None,
        },
{
    let ghost target = content_length_field(text@);
    let mut rest = text;
    loop
        invariant
            ending@ == crlf(),
            key@ == content_length_key(),
            target == content_length_field(text@),
            content_length_field(rest@) == target,
        decreases rest@.len(),
    {
        let line = first_line_of(&rest, ending);
        if starts_with(&line, key) {
            return Some(trim_chars(&suffix_from(&line, key.len())));
        }
        match find_text(&rest, ending, 0) {
            Some(i) => {
                assert(rest@.len() == rest.len());
                rest = suffix_from(&rest, i + 2);
            },
            None => {
                return None;
            },
        }
    }
}

/// The method and the path a request head names.
fn request_words(head: &str, v: &Vec<char>, ending: &Vec<char>) -> (words: (String, String))
    requires
        v@ == head@,
        ending@ == crlf(),
    ensures
        words.0@ == request_method(head@),
        words.1@ == request_path(head@),
{
    let line = first_line_of(v, ending);
    words_of_line(head, &line)
}

/// The first two words of `line`, a prefix of `head`.
fn words_of_line(head: &str, line: &Vec<char>) -> (words: (String, String))
    requires
        line@ == head@.take(line@.len() as int),
        line@.len() <= head@.len(),
    ensures
        words.0@ == word_at(line@, 0),
        words.1@ == word_at(line@, skip_word(line@, skip_space(line@, 0))),
{
    let method_start = skip_spaces(line, 0);
    let method_end = skip_word_chars(line, method_start);
    let path_start = skip_spaces(line, method_end);
    let path_end = skip_word_chars(line, path_start);
    assert(line@.subrange(method_start as int, method_end as int) =~= head@.subrange(method_start as int, method_end as int));
    assert(line@.subrange(path_start as int, path_end as int) =~= head@.subrange(path_start as int, path_end as int));
    let method = String::from_str(head.substring_char(method_start, method_end));
    let path = String::from_str(head.substring_char(path_start, path_end));
    (method, path)
}

/// The body length a head declares.
fn content_length_of(v: &Vec<char>, ending: &Vec<char>) -> (length: Option<usize>)
    requires
        ending@ == crlf(),
    ensures
        length == declared_content_length(v@),
{
    let key = chars_of("Content-Length:");
    let field = match find_text(v, ending, 0) {
        Some(i) => {
            assert(v@.len() == v.len());
            find_content_length(suffix_from(v, i + 2), ending, &key)
        },
        None => None,
    };
    match field {
        Some(text) => read_usize(&text),
        None => Some(0),
    }
}

/// Reads the head of a request: its method, its path and the length of its
/// body.
pub fn parse_request_head(head: &str) -> (parsed: Result<RequestHead, RequestHeadError>)
    ensures
        match parsed {
            Ok(h) => h.method@ == request_method(head@) && h.path@ == request_path(head@)
                && declared_content_length(head@) == Some(h.content_length),
            Err(e) => declared_content_length(head@) is None && e == RequestHeadError::InvalidContentLength,
        },
{
    let v = chars_of(head);
    let ending = vec!['\r', '\n'];
    assert(ending@ =~= crlf());
    let (method, path) = request_words(head, &v, &ending);
    match content_length_of(&v, &ending) {
        Some(content_length) => Ok(RequestHead { method, path, content_length }),
        None => Err(RequestHeadError::InvalidContentLength),
    }
}

/// The blank line that ends an HTTP head.
pub open spec fn head_terminator() -> Seq<u8> {
    seq![13u8, 10u8, 13u8, 10u8]
}

/// Where the head of a request ends: just after its first blank line.
pub open spec fn head_end(bytes: Seq<u8>) -> Option<int> {
    match first_occurrence(bytes, head_terminator()) {
        Some(i) => Some(i + 4),
        None => None,
    }
}

/// Whether the blank line that ends a head starts at `i`.
fn terminator_at(bytes: &[u8], i: usize) -> (found: bool)
    requires
        i + 4 <= bytes@.len(),
    ensures
        found == occurs_at(bytes@, head_terminator(), i as int),
{
    let found = bytes[i] == 13 && bytes[i + 1] == 10 && bytes[i + 2] == 13 && bytes[i + 3] == 10;
    let ghost w = bytes@.subrange(i as int, i + 4);
    assert(w[0] == bytes@[i as int] && w[1] == bytes@[i + 1] && w[2] == bytes@[i + 2] && w[3] == bytes@[i + 3]);
    if found {
        assert(w =~= head_terminator());
    }
    found
}

/// Finds where the head of a request ends.
pub fn find_head_end(bytes: &[u8]) -> (end: Option<usize>)
    ensures
        match end {
            Some(e) => head_end(bytes@) == Some(e as int) && 4 <= e <= bytes@.len(),
            None => head_end(bytes@) is None,
        },
{
    let ghost t = head_terminator();
    if bytes.len() < 4 {
        assert forall|j: int| !occurs_at(bytes@, t, j) by {}
        proof { lemma_no_occurrence(bytes@, t); }
        return None;
    }
    let last = bytes.len() - 4;
    let mut i: usize = 0;
    loop
        invariant
            i <= last,
            last + 4 == bytes@.len(),
            bytes@.len() <= usize::MAX,
            t == head_terminator(),
            forall|j: int| 0 <= j < i ==> !occurs_at(bytes@, t, j),
        decreases last - i,
    {
        if terminator_at(bytes, i) {
            proof { lemma_first_occurrence(bytes@, t, i as int); }
            return Some(i + 4);
        }
        if i == last {
            assert forall|j: int| !occurs_at(bytes@, t, j) by {
                if 0 <= j && j < i {
                } else if j == i {
                }
            }
            proof { lemma_no_occurrence(bytes@, t); }
            return None;
        }
        i = i + 1;
    }
}

} // verus!
