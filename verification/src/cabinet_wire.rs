//! The cabinet's newline-delimited line protocol: reading a snapshot from the
//! cabinet's one-line JSON-like record, and escaping text written back.

use vstd::prelude::*;
use vstd::string::*;
use crate::cabinet::{phase_label, CabinetOutput, CabinetSnapshot, Cord};
use crate::text::{decimal, push_decimal};
use crate::ports::{all_digits, digits_value, is_digit};
use crate::scan::{read_usize, usize_reading, after_pattern, before_pattern, find_text, first_occurrence, occurs_at, prefix_to, read_digits, split_after, suffix_from};
use crate::text::chars_of;

verus! {

/// The record's key as it is written before a value: `"key":`.
pub open spec fn key_pattern(key: Seq<char>) -> Seq<char> {
    seq!['"'] + key + seq!['"', ':']
}

fn key_chars(key: &str) -> (p: Vec<char>)
    ensures
        p@ == key_pattern(key@),
{
    let mut p: Vec<char> = Vec::new();
    p.push('"');
    let k = chars_of(key);
    let mut i: usize = 0;
    while i < k.len()
        invariant
            i <= k@.len(),
            p@ == seq!['"'] + k@.subrange(0, i as int),
        decreases k@.len() - i,
    {
        p.push(k[i]);
        assert(p@ =~= seq!['"'] + k@.subrange(0, i + 1));
        i = i + 1;
    }
    p.push('"');
    p.push(':');
    assert(p@ =~= key_pattern(key@));
    p
}

/// A character that may continue a number: a digit or a minus sign.
pub open spec fn number_char(c: char) -> bool {
    is_digit(c) || c == '-'
}

/// The position of the first character that does not continue a number.
pub open spec fn number_end(s: Seq<char>) -> Option<int> {
    if exists|k: int| 0 <= k < s.len() && !number_char(#[trigger] s[k]) {
        Some(choose|k: int| 0 <= k < s.len() && !number_char(#[trigger] s[k])
            && forall|j: int| 0 <= j < k ==> number_char(#[trigger] s[j]))
    } else {
        None
    }
}

/// What `i32`'s decimal parser reads: an optional sign and at least one
/// digit, within range.
pub open spec fn i32_reading(t: Seq<char>) -> Option<i32> {
    if t.len() == 0 {
        None
    } else {
        let signed = t[0] == '-' || t[0] == '+';
        let body = if signed { t.drop_first() } else { t };
        if body.len() == 0 || !all_digits(body) {
            None
        } else if t[0] == '-' {
            if digits_value(body) <= 2147483648 { Some((0 - digits_value(body)) as i32) } else { None }
        } else {
            if digits_value(body) <= 2147483647 { Some(digits_value(body) as i32) } else { None }
        }
    }
}

/// The number recorded under `key`: the digits and minus signs that follow
/// `"key":`, read as an `i32`; none where the key is absent, the number runs to
/// the end of the line, or it does not read.
pub open spec fn number_in(line: Seq<char>, key: Seq<char>) -> Option<i32> {
    match after_pattern(line, key_pattern(key)) {
        Some(suffix) => match number_end(suffix) {
            Some(end) => i32_reading(suffix.take(end)),
            None => None,
        },
        None => None,
    }
}

/// The position of the first character that does not continue a number.
fn find_number_end(s: &Vec<char>) -> (end: Option<usize>)
    ensures
        match end {
            Some(k) => number_end(s@) == Some(k as int) && k < s@.len(),
            None => number_end(s@) is None,
        },
{
    let mut k: usize = 0;
    while k < s.len()
        invariant
            k <= s@.len(),
            forall|j: int| 0 <= j < k ==> number_char(#[trigger] s@[j]),
        decreases s@.len() - k,
    {
        let c = s[k];
        if !(('0' <= c && c <= '9') || c == '-') {
            proof {
                assert(!number_char(s@[k as int]));
                let m = choose|m: int| 0 <= m < s@.len() && !number_char(#[trigger] s@[m])
                    && forall|j: int| 0 <= j < m ==> number_char(#[trigger] s@[j]);
                if m < k {
                } else if m > k {
                    assert(number_char(s@[k as int]));
                }
            }
            return Some(k);
        }
        k = k + 1;
    }
    None
}

/// Reads an `i32` as its decimal parser does.
fn read_i32(t: &Vec<char>) -> (value: Option<i32>)
    ensures
        value == i32_reading(t@),
{
    if t.len() == 0 {
        return None;
    }
    let negative = t[0] == '-';
    let signed = negative || t[0] == '+';
    let start: usize = if signed { 1 } else { 0 };
    assert(t@.skip(start as int) == (if signed { t@.drop_first() } else { t@ }));
    if start == t.len() {
        return None;
    }
    let limit: u64 = if negative { 2147483648 } else { 2147483647 };
    match read_digits(t, start, limit) {
        Some(v) => {
            if negative {
                Some((0 - v as i64) as i32)
            } else {
                Some(v as i32)
            }
        },
        None => None,
    }
}

/// The number recorded under `key`, as the cabinet writes it.
pub fn number(line: &str, key: &str) -> (value: Option<i32>)
    ensures
        value == number_in(line@, key@),
{
    let l = chars_of(line);
    let p = key_chars(key);
    let suffix = match split_after(&l, &p) {
        Some(suffix) => suffix,
        None => { return None; },
    };
    let end = match find_number_end(&suffix) {
        Some(end) => end,
        None => { return None; },
    };
    read_i32(&prefix_to(&suffix, end))
}

/// The flag recorded under `key`: whether the value written after `"key":`
/// starts with `true`.
pub open spec fn boolean_in(line: Seq<char>, key: Seq<char>) -> bool {
    match after_pattern(line, key_pattern(key)) {
        Some(suffix) => seq!['t', 'r', 'u', 'e'].is_prefix_of(suffix),
        None => false,
    }
}

pub fn boolean(line: &str, key: &str) -> (flag: bool)
    ensures
        flag == boolean_in(line@, key@),
{
    let l = chars_of(line);
    let p = key_chars(key);
    match split_after(&l, &p) {
        Some(suffix) => {
            let word = vec!['t', 'r', 'u', 'e'];
            assert(word@ =~= seq!['t', 'r', 'u', 'e']);
            if suffix.len() < 4 {
                return false;
            }
            let ghost expected = boolean_in(line@, key@);
            assert(expected == seq!['t', 'r', 'u', 'e'].is_prefix_of(suffix@));
            let mut i: usize = 0;
            while i < 4
                invariant
                    i <= 4,
                    expected == boolean_in(line@, key@),
                    expected == seq!['t', 'r', 'u', 'e'].is_prefix_of(suffix@),
                    word@ == seq!['t', 'r', 'u', 'e'],
                    suffix@.len() >= 4,
                    forall|k: int| 0 <= k < i ==> suffix@[k] == word@[k],
                decreases 4 - i,
            {
                if suffix[i] != word[i] {
                    return false;
                }
                i = i + 1;
            }
            true
        },
        None => false,
    }
}

/// The separator between written cords.
pub open spec fn cord_separator() -> Seq<char> {
    seq![']', ',', '[']
}

/// The pieces of `s` between separators, as `str::split` gives them.
#[verifier::opaque]
pub open spec fn pieces(s: Seq<char>) -> Seq<Seq<char>>
    decreases s.len(),
{
    match first_occurrence(s, cord_separator()) {
        Some(i) => {
            if 0 <= i && i + 3 <= s.len() {
                seq![s.take(i)] + pieces(s.skip(i + 3))
            } else {
                seq![s]
            }
        },
        None => seq![s],
    }
}

pub open spec fn is_bracket(c: char) -> bool {
    c == '[' || c == ']'
}

pub open spec fn trim_brackets_start(s: Seq<char>) -> Seq<char>
    decreases s.len(),
{
    if s.len() > 0 && is_bracket(s[0]) { trim_brackets_start(s.drop_first()) } else { s }
}

pub open spec fn trim_brackets_end(s: Seq<char>) -> Seq<char>
    decreases s.len(),
{
    if s.len() > 0 && is_bracket(s.last()) { trim_brackets_end(s.drop_last()) } else { s }
}

/// The cord one written pair denotes: two jack numbers split at the first
/// comma, with any brackets around the pair removed.
#[verifier::opaque]
pub open spec fn cord_from(piece: Seq<char>) -> Option<Cord> {
    let pair = trim_brackets_end(trim_brackets_start(piece));
    match first_occurrence(pair, seq![',']) {
        Some(i) => match (usize_reading(pair.take(i)), usize_reading(pair.skip(i + 1))) {
            (Some(a), Some(b)) => Some(Cord(a, b)),
            _ => None,
        },
        None => None,
    }
}

/// The cords read from a list of written pairs, skipping those that do not read.
#[verifier::opaque]
pub open spec fn cord_list(ps: Seq<Seq<char>>) -> Seq<Cord>
    decreases ps.len(),
{
    if ps.len() == 0 {
        Seq::empty()
    } else {
        match cord_from(ps[0]) {
            Some(c) => seq![c] + cord_list(ps.drop_first()),
            None => cord_list(ps.drop_first()),
        }
    }
}

/// The cords the cabinet wrote: the pairs between `"cords":[` and the first
/// `]]` after it; none where either is missing.
pub open spec fn cords_in(line: Seq<char>) -> Seq<Cord> {
    match after_pattern(line, "\"cords\":["@) {
        Some(suffix) => match before_pattern(suffix, seq![']', ']']) {
            Some(body) => cord_list(pieces(body)),
            None => Seq::empty(),
        },
        None => Seq::empty(),
    }
}

/// The pair with brackets removed from both ends.
fn trim_brackets(s: &Vec<char>) -> (t: Vec<char>)
    ensures
        t@ == trim_brackets_end(trim_brackets_start(s@)),
{
    let n = s.len();
    let mut i: usize = 0;
    assert(s@.subrange(0, n as int) =~= s@);
    while i < n && (s[i] == '[' || s[i] == ']')
        invariant
            n == s@.len(),
            i <= n,
            trim_brackets_start(s@) == trim_brackets_start(s@.subrange(i as int, n as int)),
        decreases n - i,
    {
        assert(s@.subrange(i as int, n as int).drop_first() =~= s@.subrange(i + 1, n as int));
        i = i + 1;
    }
    let ghost front = s@.subrange(i as int, n as int);
    assert(trim_brackets_start(front) == front);
    let mut j: usize = n;
    assert(front.subrange(0, (j - i) as int) =~= front);
    while j > i && (s[j - 1] == '[' || s[j - 1] == ']')
        invariant
            i <= j <= n,
            n == s@.len(),
            front == s@.subrange(i as int, n as int),
            trim_brackets_end(front) == trim_brackets_end(s@.subrange(i as int, j as int)),
        decreases j - i,
    {
        assert(s@.subrange(i as int, j as int).drop_last() =~= s@.subrange(i as int, j - 1));
        j = j - 1;
    }
    let mut t: Vec<char> = Vec::new();
    let mut k: usize = i;
    while k < j
        invariant
            i <= k <= j,
            j <= n,
            n == s@.len(),
            t@ == s@.subrange(i as int, k as int),
        decreases j - k,
    {
        t.push(s[k]);
        assert(t@ =~= s@.subrange(i as int, k + 1));
        k = k + 1;
    }
    t
}

/// The cord one written pair denotes.
fn cord_from_piece(piece: &Vec<char>) -> (cord: Option<Cord>)
    ensures
        cord == cord_from(piece@),
{
    reveal(cord_from);
    let pair = trim_brackets(piece);
    let comma = vec![','];
    assert(comma@ =~= seq![',']);
    match find_text(&pair, &comma, 0) {
        Some(i) => {
            let left = read_usize(&prefix_to(&pair, i));
            assert(pair@.len() == pair.len());
            let right = read_usize(&suffix_from(&pair, i + 1));
            match (left, right) {
                (Some(a), Some(b)) => Some(Cord(a, b)),
                _ => None,
            }
        },
        None => None,
    }
}

/// The cords one written pair contributes: the cord it denotes, if any.
pub open spec fn cord_of(piece: Seq<char>) -> Seq<Cord> {
    match cord_from(piece) {
        Some(c) => seq![c],
        None => Seq::empty(),
    }
}

proof fn lemma_cord_list_cons(p: Seq<char>, rest: Seq<Seq<char>>)
    ensures
        cord_list(seq![p] + rest) == cord_of(p) + cord_list(rest),
{
    reveal(cord_list);
    let ps = seq![p] + rest;
    assert(ps[0] == p);
    assert(ps.drop_first() =~= rest);
    assert(Seq::<Cord>::empty() + cord_list(rest) =~= cord_list(rest));
}

proof fn lemma_pieces_step(s: Seq<char>, i: int)
    requires
        first_occurrence(s, cord_separator()) == Some(i),
        0 <= i,
        i + 3 <= s.len(),
    ensures
        pieces(s) == seq![s.take(i)] + pieces(s.skip(i + 3)),
{
    reveal(pieces);
}

proof fn lemma_pieces_split(s: Seq<char>, i: int)
    requires
        first_occurrence(s, cord_separator()) == Some(i),
        0 <= i,
        i + 3 <= s.len(),
    ensures
        cord_list(pieces(s)) == cord_of(s.take(i)) + cord_list(pieces(s.skip(i + 3))),
{
    let head = s.take(i);
    let rest = pieces(s.skip(i + 3));
    lemma_pieces_step(s, i);
    lemma_cord_list_cons(head, rest);
}

proof fn lemma_pieces_last(s: Seq<char>)
    requires
        first_occurrence(s, cord_separator()) is None,
    ensures
        cord_list(pieces(s)) == cord_of(s),
{
    assert(pieces(s) == seq![s]) by {
        reveal(pieces);
    }
    lemma_cord_list_cons(s, Seq::empty());
    assert(seq![s] + Seq::<Seq<char>>::empty() =~= seq![s]);
    assert(cord_list(Seq::<Seq<char>>::empty()) == Seq::<Cord>::empty()) by {
        reveal(cord_list);
    }
    assert(cord_of(s) + Seq::<Cord>::empty() =~= cord_of(s));
}

/// The cords the cabinet wrote in a line.
pub fn cords(line: &str) -> (read: Vec<Cord>)
    ensures
        read@ == cords_in(line@),
{
    let l = chars_of(line);
    let opening = chars_of("\"cords\":[");
    let suffix = match split_after(&l, &opening) {
        Some(suffix) => suffix,
        None => { return Vec::new(); },
    };
    let closing = vec![']', ']'];
    assert(closing@ =~= seq![']', ']']);
    let body = match find_text(&suffix, &closing, 0) {
        Some(end) => prefix_to(&suffix, end),
        None => {
            return Vec::new();
        },
    };
    let ghost total = cord_list(pieces(body@));
    assert(total == cords_in(line@));
    let separator = vec![']', ',', '['];
    assert(separator@ =~= cord_separator());
    let mut read: Vec<Cord> = Vec::new();
    let mut rest = body;
    let mut done = false;
    assert(read@ + cord_list(pieces(rest@)) =~= total);
    while !done
        invariant
            separator@ == cord_separator(),
            done ==> read@ == total,
            !done ==> read@ + cord_list(pieces(rest@)) == total,
        decreases rest@.len() + (if done { 0int } else { 1int }),
    {
        let ghost before = rest@;
        match find_text(&rest, &separator, 0) {
            Some(i) => {
                assert(rest@.len() == rest.len());
                let piece = prefix_to(&rest, i);
                let next = suffix_from(&rest, i + 3);
                proof { lemma_pieces_split(before, i as int); }
                let ghost old_read = read@;
                match cord_from_piece(&piece) {
                    Some(c) => { read.push(c); },
                    None => {},
                }
                proof {
                    assert(read@ =~= old_read + cord_of(piece@));
                    assert(old_read + (cord_of(piece@) + cord_list(pieces(next@))) =~= read@ + cord_list(pieces(next@)));
                }
                rest = next;
            },
            None => {
                proof { lemma_pieces_last(before); }
                let ghost old_read = read@;
                match cord_from_piece(&rest) {
                    Some(c) => { read.push(c); },
                    None => {},
                }
                assert(read@ =~= old_read + cord_of(before));
                done = true;
            },
        }
    }
    read
}

/// A text with backslashes and double quotes escaped by a backslash.
pub open spec fn escaped(s: Seq<char>) -> Seq<char>
    decreases s.len(),
{
    if s.len() == 0 {
        Seq::empty()
    } else {
        let c = s.last();
        escaped(s.drop_last()) + if c == '\\' {
            seq!['\\', '\\']
        } else if c == '"' {
            seq!['\\', '"']
        } else {
            seq![c]
        }
    }
}

/// Escapes backslashes and double quotes for the cabinet's record.
pub fn escape(value: &str) -> (out: String)
    ensures
        out@ == escaped(value@),
{
    let n = value.unicode_len();
    let mut out = String::new();
    let mut i: usize = 0;
    while i < n
        invariant
            n == value@.len(),
            i <= n,
            out@ == escaped(value@.subrange(0, i as int)),
        decreases n - i,
    {
        let c = value.get_char(i);
        assert(value@.subrange(0, i + 1).drop_last() =~= value@.subrange(0, i as int));
        if c == '\\' {
            out.append("\\\\");
            proof { reveal_strlit("\\\\"); }
        } else if c == '"' {
            out.append("\\\"");
            proof { reveal_strlit("\\\""); }
        } else {
            out.append(value.substring_char(i, i + 1));
            assert(value@.subrange(i as int, i + 1) =~= seq![c]);
        }
        i = i + 1;
    }
    assert(value@.subrange(0, n as int) =~= value@);
    out
}

/// The snapshot a cabinet line records; none without a sequence number.
pub open spec fn snapshot_in(line: Seq<char>) -> Option<(u64, Seq<Cord>, i32, bool, u16, bool, bool)> {
    match number_in(line, "sequence"@) {
        Some(sequence) => Some((
            sequence as u64,
            cords_in(line),
            match number_in(line, "active_action"@) { Some(a) => a, None => -1i32 },
            boolean_in(line, "crank_complete"@),
            (match number_in(line, "directory_id"@) { Some(d) => d, None => 0i32 }) as u16,
            boolean_in(line, "speaker_enabled"@),
            boolean_in(line, "reset"@),
        )),
        None => None,
    }
}

/// Reads one cabinet line.
pub fn parse_snapshot(line: &str) -> (snapshot: Option<CabinetSnapshot>)
    ensures
        match snapshot {
            Some(s) => snapshot_in(line@) == Some((s.sequence, s.cords@, s.active_action, s.crank_complete,
                s.directory_id, s.speaker_enabled, s.reset)),
            None => snapshot_in(line@) is None,
        },
{
    let sequence = match number(line, "sequence") {
        Some(n) => n as u64,
        None => { return None; },
    };
    let active_action = match number(line, "active_action") {
        Some(a) => a,
        None => -1,
    };
    let directory = match number(line, "directory_id") {
        Some(d) => d,
        None => 0,
    };
    Some(CabinetSnapshot {
        sequence,
        cords: cords(line),
        active_action,
        crank_complete: boolean(line, "crank_complete"),
        directory_id: directory as u16,
        speaker_enabled: boolean(line, "speaker_enabled"),
        reset: boolean(line, "reset"),
    })
}

/// Lines joined with `|`, as `[String]::join("|")` gives them.
pub open spec fn joined_bars(lines: Seq<Seq<char>>) -> Seq<char>
    decreases lines.len(),
{
    if lines.len() == 0 {
        Seq::empty()
    } else if lines.len() == 1 {
        lines[0]
    } else {
        joined_bars(lines.drop_last()) + "|"@ + lines.last()
    }
}

/// A flag as the record writes it.
pub open spec fn flag_text(flag: bool) -> Seq<char> {
    if flag { "true"@ } else { "false"@ }
}

/// The line lamps as the record writes them: flags separated by commas.
pub open spec fn lamps_text(lamps: Seq<bool>) -> Seq<char>
    decreases lamps.len(),
{
    if lamps.len() == 0 {
        Seq::empty()
    } else if lamps.len() == 1 {
        flag_text(lamps[0])
    } else {
        lamps_text(lamps.drop_last()) + ","@ + flag_text(lamps.last())
    }
}

/// The one-line record the cabinet is sent after a reading.
pub open spec fn output_record_text(o: CabinetOutput) -> Seq<char> {
    "{\"sequence\":"@ + decimal(o.sequence as nat) + ",\"clock_minutes\":"@ + decimal(o.clock_minutes as nat)
        + ",\"phase\":\""@ + phase_label(o.phase) + "\",\"reset_status\":\""@ + o.reset_status@
        + "\",\"routing_status\":\""@ + o.routing_status@ + "\",\"line_lamps\":["@ + lamps_text(o.line_lamps@)
        + "],\"directory\":\""@ + escaped(joined_bars(o.directory@.map_values(|line: String| line@)))
        + "\",\"printer\":\""@ + escaped(joined_bars(o.printer@.map_values(|line: String| line@)))
        + "\",\"monitor_active\":"@ + flag_text(o.monitor_active) + ",\"speaker_active\":"@
        + flag_text(o.speaker_active) + "}"@
}

fn flag_word(flag: bool) -> (word: &'static str)
    ensures
        word@ == flag_text(flag),
{
    if flag { "true" } else { "false" }
}

fn join_bars(lines: &Vec<String>) -> (text: String)
    ensures
        text@ == joined_bars(lines@.map_values(|line: String| line@)),
{
    let ghost all = lines@.map_values(|line: String| line@);
    let mut text = String::new();
    let mut i: usize = 0;
    while i < lines.len()
        invariant
            i <= lines@.len(),
            all == lines@.map_values(|line: String| line@),
            text@ == joined_bars(all.subrange(0, i as int)),
        decreases lines@.len() - i,
    {
        assert(all.subrange(0, i + 1).drop_last() =~= all.subrange(0, i as int));
        if i > 0 {
            text.append("|");
        }
        text.append(lines[i].as_str());
        proof {
            if i == 0 {
                assert(joined_bars(all.subrange(0, 1)) == all[0]);
            }
        }
        i = i + 1;
    }
    assert(all.subrange(0, all.len() as int) =~= all);
    text
}

fn lamp_list(lamps: &[bool; 16]) -> (text: String)
    ensures
        text@ == lamps_text(lamps@),
{
    let mut text = String::new();
    let mut i: usize = 0;
    while i < 16
        invariant
            i <= 16,
            lamps@.len() == 16,
            text@ == lamps_text(lamps@.subrange(0, i as int)),
        decreases 16 - i,
    {
        assert(lamps@.subrange(0, i + 1).drop_last() =~= lamps@.subrange(0, i as int));
        if i > 0 {
            text.append(",");
        }
        text.append(flag_word(lamps[i]));
        proof {
            if i == 0 {
                assert(lamps_text(lamps@.subrange(0, 1)) == flag_text(lamps@[0]));
            }
        }
        i = i + 1;
    }
    assert(lamps@.subrange(0, 16) =~= lamps@);
    text
}

/// The record the cabinet is sent after a reading.
pub fn output_record(output: &CabinetOutput) -> (record: String)
    ensures
        record@ == output_record_text(*output),
{
    let mut record = String::from_str("{\"sequence\":");
    push_decimal(&mut record, output.sequence);
    record.append(",\"clock_minutes\":");
    push_decimal(&mut record, output.clock_minutes as u64);
    record.append(",\"phase\":\"");
    record.append(output.phase.label());
    record.append("\",\"reset_status\":\"");
    record.append(output.reset_status);
    record.append("\",\"routing_status\":\"");
    record.append(output.routing_status);
    record.append("\",\"line_lamps\":[");
    record.append(lamp_list(&output.line_lamps).as_str());
    record.append("],\"directory\":\"");
    record.append(escape(join_bars(&output.directory).as_str()).as_str());
    record.append("\",\"printer\":\"");
    record.append(escape(join_bars(&output.printer).as_str()).as_str());
    record.append("\",\"monitor_active\":");
    record.append(flag_word(output.monitor_active));
    record.append(",\"speaker_active\":");
    record.append(flag_word(output.speaker_active));
    record.append("}");
    record
}

} // verus!
