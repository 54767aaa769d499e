//! Physical rules of the switchboard: directory numbers, the directory
//! terminal's pages, and which cord topologies form circuits. Stories build on
//! these without changing them.

use vstd::prelude::*;
use vstd::string::*;
use crate::config::GameConfig;
use crate::config::LINES;
use crate::protocol::{
    CallPhase, CordConnection, DirectoryPage, InputState, PortId, PrinterEntry, ProtocolError,
    StateMessage, StateOutput, PROTOCOL_VERSION,
};
use crate::text::{decimal, push_decimal, zero_padded};

verus! {

/// The number the four directory dials show.
pub open spec fn dialed(digits: [u8; 4]) -> int {
    digits[0] * 1000 + digits[1] * 100 + digits[2] * 10 + digits[3]
}

/// The directory number the four dials show, most significant first.
pub fn directory_id(digits: [u8; 4]) -> (id: u16)
    requires
        dialed(digits) <= u16::MAX,
    ensures
        id == dialed(digits),
{
    let mut number: u16 = 0;
    let mut i: usize = 0;
    while i < 4
        invariant
            i <= 4,
            dialed(digits) <= u16::MAX,
            number == (if i == 0 { 0 } else if i == 1 { digits[0] as int } else if i == 2 { digits[0] * 10 + digits[1] }
                else if i == 3 { digits[0] * 100 + digits[1] * 10 + digits[2] } else { dialed(digits) }),
        decreases 4 - i,
    {
        number = number * 10 + digits[i] as u16;
        i = i + 1;
    }
    number
}

/// The four dial settings that show a directory number.
pub fn directory_for_id(directory_id: u16) -> (digits: [u8; 4])
    ensures
        digits[0] == directory_id / 1000,
        digits[1] == (directory_id / 100) % 10,
        digits[2] == (directory_id / 10) % 10,
        digits[3] == directory_id % 10,
{
    [
        (directory_id / 1000) as u8,
        ((directory_id / 100) % 10) as u8,
        ((directory_id / 10) % 10) as u8,
        (directory_id % 10) as u8,
    ]
}

/// Setting the dials for a number below ten thousand shows that number.
pub proof fn law_dials_show_the_number(id: u16)
    requires
        id < 10000,
    ensures
        dialed([(id / 1000) as u8, ((id / 100) % 10) as u8, ((id / 10) % 10) as u8, (id % 10) as u8]) == id,
{
    let x = id as int;
    let (a, b, c, d) = (x / 1000, (x / 100) % 10, (x / 10) % 10, x % 10);
    assert(0 <= a < 10 && 0 <= b < 10 && 0 <= c < 10 && 0 <= d < 10);
    assert(a * 1000 + b * 100 + c * 10 + d == x) by (nonlinear_arith)
        requires
            0 <= x < 10000,
            a == x / 1000,
            b == (x / 100) % 10,
            c == (x / 10) % 10,
            d == x % 10,
    ;
    let digits = [a as u8, b as u8, c as u8, d as u8];
    assert(digits[0] == a && digits[1] == b && digits[2] == c && digits[3] == d);
}

/// Reading single digits off the dials and setting them again gives the same dials.
pub proof fn law_digits_survive_a_round_trip(digits: [u8; 4])
    requires
        digits[0] < 10 && digits[1] < 10 && digits[2] < 10 && digits[3] < 10,
    ensures
        dialed(digits) / 1000 == digits[0],
        (dialed(digits) / 100) % 10 == digits[1],
        (dialed(digits) / 10) % 10 == digits[2],
        dialed(digits) % 10 == digits[3],
{
    let (a, b, c, d) = (digits[0] as int, digits[1] as int, digits[2] as int, digits[3] as int);
    let x = dialed(digits);
    assert(x == a * 1000 + b * 100 + c * 10 + d);
    assert(x / 1000 == a && (x / 100) % 10 == b && (x / 10) % 10 == c && x % 10 == d) by (nonlinear_arith)
        requires
            0 <= a < 10 && 0 <= b < 10 && 0 <= c < 10 && 0 <= d < 10,
            x == a * 1000 + b * 100 + c * 10 + d,
    ;
}

/// The first configured subscriber on the line.
pub open spec fn subscriber_on_line(c: GameConfig, line: u8) -> Option<int> {
    if exists|i: int| 0 <= i < c.subscribers@.len() && (#[trigger] c.subscribers@[i]).line == line {
        Some(choose|i: int| 0 <= i < c.subscribers@.len() && (#[trigger] c.subscribers@[i]).line == line
            && forall|j: int| 0 <= j < i ==> (#[trigger] c.subscribers@[j]).line != line)
    } else {
        None
    }
}

/// The position of the first subscriber on the line.
fn position_on_line(config: &GameConfig, line: u8) -> (found: Option<usize>)
    ensures
        match found {
            Some(i) => i < config.subscribers@.len() && config.subscribers@[i as int].line == line
                && forall|j: int| 0 <= j < i ==> (#[trigger] config.subscribers@[j]).line != line,
            None => forall|j: int| 0 <= j < config.subscribers@.len() ==> (#[trigger] config.subscribers@[j]).line != line,
        },
        found matches Some(i) ==> subscriber_on_line(*config, line) == Some(i as int),
        found is None ==> subscriber_on_line(*config, line) is None,
{
    let mut i: usize = 0;
    while i < config.subscribers.len()
        invariant
            i <= config.subscribers@.len(),
            forall|j: int| 0 <= j < i ==> (#[trigger] config.subscribers@[j]).line != line,
        decreases config.subscribers@.len() - i,
    {
        if config.subscribers[i].line == line {
            proof {
                let k = choose|k: int| 0 <= k < config.subscribers@.len() && (#[trigger] config.subscribers@[k]).line == line
                    && forall|j: int| 0 <= j < k ==> (#[trigger] config.subscribers@[j]).line != line;
                if k < i {
                } else if k > i {
                    assert(config.subscribers@[i as int].line == line);
                }
            }
            return Some(i);
        }
        i = i + 1;
    }
    None
}

/// The label of a line with no subscriber: `LINE` and its two-digit number.
pub open spec fn line_label(line: u8) -> Seq<char> {
    "LINE "@ + zero_padded(line as nat, 2)
}

fn two_digits(prefix: &str, n: u8) -> (t: String)
    ensures
        t@ == prefix@ + zero_padded(n as nat, 2),
{
    let mut t = String::from_str(prefix);
    if n < 10 {
        t.append("0");
    }
    push_decimal(&mut t, n as u64);
    proof {
        crate::text::lemma_decimal_length(n as nat);
        if n < 10 {
            reveal_strlit("0");
            assert(Seq::new((2 - decimal(n as nat).len()) as nat, |i: int| '0') =~= "0"@);
            assert(t@ =~= prefix@ + ("0"@ + decimal(n as nat)));
        }
    }
    t
}

/// The place shown for a line: its subscriber's, or the line's label.
pub fn simple_place(config: &GameConfig, line: u8) -> (place: String)
    ensures
        place@ == match subscriber_on_line(*config, line) {
            Some(i) => config.subscribers@[i].place@,
            None => line_label(line),
        },
{
    match position_on_line(config, line) {
        Some(i) => config.subscribers[i].place.clone(),
        None => two_digits("LINE ", line),
    }
}

/// The name, role and private note shown for a line's subscriber.
pub fn directory_user(config: &GameConfig, line: u8) -> (user: (String, String, String))
    ensures
        match subscriber_on_line(*config, line) {
            Some(i) => user.0@ == config.subscribers@[i].name@ && user.1@ == config.subscribers@[i].role@
                && user.2@ == config.subscribers@[i].private_info@,
            None => user.0@ == "SUBSCRIBER "@ + zero_padded(line as nat, 2) && user.1@ == "unassigned"@
                && user.2@ == "No subscriber profile assigned"@,
        },
{
    match position_on_line(config, line) {
        Some(i) => {
            let s = &config.subscribers[i];
            (s.name.clone(), s.role.clone(), s.private_info.clone())
        },
        None => (two_digits("SUBSCRIBER ", line), String::from_str("unassigned"), String::from_str("No subscriber profile assigned")),
    }
}

/// The position of the first subscriber with the directory number.
pub open spec fn subscriber_with_id(c: GameConfig, id: u16) -> Option<int> {
    if exists|i: int| 0 <= i < c.subscribers@.len() && (#[trigger] c.subscribers@[i]).id == id {
        Some(choose|i: int| 0 <= i < c.subscribers@.len() && (#[trigger] c.subscribers@[i]).id == id
            && forall|j: int| 0 <= j < i ==> (#[trigger] c.subscribers@[j]).id != id)
    } else {
        None
    }
}

/// The line of the first subscriber with the directory number.
pub open spec fn line_for_id(c: GameConfig, id: u16) -> Option<u8> {
    match subscriber_with_id(c, id) {
        Some(i) => Some(c.subscribers@[i].line),
        None => None,
    }
}

/// The line of the first subscriber with the directory number.
pub fn directory_line(config: &GameConfig, id: u16) -> (line: Option<u8>)
    ensures
        line == line_for_id(*config, id),
{
    let mut i: usize = 0;
    while i < config.subscribers.len()
        invariant
            i <= config.subscribers@.len(),
            forall|j: int| 0 <= j < i ==> (#[trigger] config.subscribers@[j]).id != id,
        decreases config.subscribers@.len() - i,
    {
        if config.subscribers[i].id == id {
            proof {
                let k = choose|k: int| 0 <= k < config.subscribers@.len() && (#[trigger] config.subscribers@[k]).id == id
                    && forall|j: int| 0 <= j < k ==> (#[trigger] config.subscribers@[j]).id != id;
                if k > i {
                    assert(config.subscribers@[i as int].id == id);
                }
            }
            return Some(config.subscribers[i].line);
        }
        i = i + 1;
    }
    None
}

/// The place shown for a line: its subscriber's, or the line's label.
pub open spec fn place_of_line(c: GameConfig, line: u8) -> Seq<char> {
    match subscriber_on_line(c, line) {
        Some(i) => c.subscribers@[i].place@,
        None => line_label(line),
    }
}

/// The name, role and note shown for a line.
pub open spec fn user_of_line(c: GameConfig, line: u8) -> (Seq<char>, Seq<char>, Seq<char>) {
    match subscriber_on_line(c, line) {
        Some(i) => (c.subscribers@[i].name@, c.subscribers@[i].role@, c.subscribers@[i].private_info@),
        None => ("SUBSCRIBER "@ + zero_padded(line as nat, 2), "unassigned"@, "No subscriber profile assigned"@),
    }
}

/// The heading and lines of the directory page for a number.
pub open spec fn page_for(c: GameConfig, id: u16) -> (Seq<char>, Seq<Seq<char>>) {
    let number = "SUBSCRIBER ID "@ + zero_padded(id as nat, 4);
    match line_for_id(c, id) {
        Some(line) => {
            let user = user_of_line(c, line);
            (place_of_line(c, line), seq![number, "SUBSCRIBER // "@ + user.0, "ROLE // "@ + user.1,
                "NOTE // "@ + user.2, "DESTINATION // "@ + place_of_line(c, line)])
        },
        None => ("NO RECORD"@, seq![number, "SELECT A LINE FROM 0000 THROUGH 0011"@]),
    }
}

/// A number padded with zeros to four digits.
fn four_digits(prefix: &str, n: u16) -> (t: String)
    ensures
        t@ == prefix@ + zero_padded(n as nat, 4),
{
    let mut t = String::from_str(prefix);
    let width: u16 = if n < 10 { 1 } else if n < 100 { 2 } else if n < 1000 { 3 } else { 4 };
    let mut pad: u16 = width;
    while pad < 4
        invariant
            width <= pad <= 4,
            t@ == prefix@ + Seq::new((pad - width) as nat, |i: int| '0'),
        decreases 4 - pad,
    {
        t.append("0");
        proof {
            reveal_strlit("0");
            assert(t@ =~= prefix@ + Seq::new((pad + 1 - width) as nat, |i: int| '0'));
        }
        pad = pad + 1;
    }
    push_decimal(&mut t, n as u64);
    proof {
        lemma_decimal_width(n as nat);
        if width < 4 {
            assert(decimal(n as nat).len() == width);
            assert(t@ =~= prefix@ + (Seq::new((4 - width) as nat, |i: int| '0') + decimal(n as nat)));
        } else {
            assert(Seq::new(0, |i: int| '0') + decimal(n as nat) =~= decimal(n as nat));
        }
    }
    t
}

proof fn lemma_decimal_width(n: nat)
    ensures
        n < 10 ==> decimal(n).len() == 1,
        10 <= n < 100 ==> decimal(n).len() == 2,
        100 <= n < 1000 ==> decimal(n).len() == 3,
        1000 <= n ==> decimal(n).len() >= 4,
        decimal(n).len() >= 1,
    decreases n,
{
    if n >= 10 {
        lemma_decimal_width(n / 10);
        assert(decimal(n) == decimal(n / 10).push(crate::text::digit_char(n % 10)));
    }
}

/// The directory terminal's page for the dialed number.
pub fn directory_pages(config: &GameConfig, digits: [u8; 4]) -> (pages: Vec<DirectoryPage>)
    requires
        dialed(digits) <= u16::MAX,
    ensures
        pages@.len() == 1,
        pages@[0].page_number == 1,
        pages@[0].heading@ == page_for(*config, dialed(digits) as u16).0,
        pages@[0].lines@.map_values(|line: String| line@) == page_for(*config, dialed(digits) as u16).1,
{
    let id = directory_id(digits);
    let mut pages: Vec<DirectoryPage> = Vec::new();
    match directory_line(config, id) {
        Some(line) => {
            let (name, role, note) = directory_user(config, line);
            let mut lines: Vec<String> = Vec::new();
            lines.push(four_digits("SUBSCRIBER ID ", id));
            let mut subscriber = String::from_str("SUBSCRIBER // ");
            subscriber.append(name.as_str());
            lines.push(subscriber);
            let mut role_line = String::from_str("ROLE // ");
            role_line.append(role.as_str());
            lines.push(role_line);
            let mut note_line = String::from_str("NOTE // ");
            note_line.append(note.as_str());
            lines.push(note_line);
            let mut destination = String::from_str("DESTINATION // ");
            let place = simple_place(config, line);
            destination.append(place.as_str());
            lines.push(destination);
            let page = DirectoryPage { page_number: 1, heading: simple_place(config, line), lines };
            assert(page.lines@.map_values(|line: String| line@) =~= page_for(*config, id).1);
            pages.push(page);
        },
        None => {
            let mut lines: Vec<String> = Vec::new();
            lines.push(four_digits("SUBSCRIBER ID ", id));
            lines.push(String::from_str("SELECT A LINE FROM 0000 THROUGH 0011"));
            let page = DirectoryPage { page_number: 1, heading: String::from_str("NO RECORD"), lines };
            assert(page.lines@.map_values(|line: String| line@) =~= page_for(*config, id).1);
            pages.push(page);
        },
    }
    pages
}

// ---------------------------------------------------------------------------
// Cord topologies.

/// The cord joins the two ports, in either orientation.
pub open spec fn joins(c: CordConnection, a: PortId, b: PortId) -> bool {
    (c.first == a && c.second == b) || (c.first == b && c.second == a)
}

/// Some cord joins the two ports.
pub open spec fn corded(cords: Seq<CordConnection>, a: PortId, b: PortId) -> bool {
    exists|i: int| 0 <= i < cords.len() && joins(#[trigger] cords[i], a, b)
}

/// The line a cord connects to the operator, if it does.
pub open spec fn cord_operator_line(c: CordConnection) -> Option<u8> {
    match (c.first, c.second) {
        (PortId::Subscriber(line), PortId::Operator) => Some(line),
        (PortId::Operator, PortId::Subscriber(line)) => Some(line),
        _ => None,
    }
}

/// The line of the first cord, in order, that reaches the operator.
pub open spec fn operator_line_of(cords: Seq<CordConnection>) -> Option<u8>
    decreases cords.len(),
{
    if cords.len() == 0 {
        None
    } else {
        match cord_operator_line(cords[0]) {
            Some(line) => Some(line),
            None => operator_line_of(cords.drop_first()),
        }
    }
}

/// The line the operator is corded to, by the first such cord.
pub fn operator_line(cords: &[CordConnection]) -> (line: Option<u8>)
    ensures
        line == operator_line_of(cords@),
{
    let mut i: usize = 0;
    assert(cords@.skip(0) =~= cords@);
    while i < cords.len()
        invariant
            i <= cords@.len(),
            operator_line_of(cords@) == operator_line_of(cords@.skip(i as int)),
        decreases cords@.len() - i,
    {
        let cord = cords[i];
        assert(cords@.skip(i as int)[0] == cord);
        match (cord.first, cord.second) {
            (PortId::Subscriber(line), PortId::Operator) => { return Some(line); },
            (PortId::Operator, PortId::Subscriber(line)) => { return Some(line); },
            _ => {},
        }
        assert(cords@.skip(i as int).drop_first() =~= cords@.skip(i + 1));
        i = i + 1;
    }
    None
}

/// Whether some cord joins the two ports.
pub fn has_cord(input: &InputState, first: PortId, second: PortId) -> (found: bool)
    ensures
        found == corded(input.cord_topology@, first, second),
{
    cords_join(&input.cord_topology, first, second)
}

fn cords_join(cords: &Vec<CordConnection>, first: PortId, second: PortId) -> (found: bool)
    ensures
        found == corded(cords@, first, second),
{
    let mut i: usize = 0;
    while i < cords.len()
        invariant
            i <= cords@.len(),
            forall|k: int| 0 <= k < i ==> !joins(#[trigger] cords@[k], first, second),
        decreases cords@.len() - i,
    {
        let cord = cords[i];
        if (cord.first == first && cord.second == second) || (cord.first == second && cord.second == first) {
            assert(joins(cords@[i as int], first, second));
            return true;
        }
        i = i + 1;
    }
    false
}

/// Whether a cord joins the two subscriber lines directly.
pub fn direct(cords: &Vec<CordConnection>, caller: u8, callee: u8) -> (found: bool)
    ensures
        found == corded(cords@, PortId::Subscriber(caller), PortId::Subscriber(callee)),
{
    cords_join(cords, PortId::Subscriber(caller), PortId::Subscriber(callee))
}

/// The cord joins the caller's line to some subscriber line.
pub open spec fn caller_direct_cord(c: CordConnection, caller: u8) -> bool {
    match (c.first, c.second) {
        (PortId::Subscriber(first), PortId::Subscriber(second)) => first == caller || second == caller,
        _ => false,
    }
}

/// Whether some cord joins the caller's line straight to a subscriber line.
pub fn has_direct_circuit_for_caller(input: &InputState, caller: u8) -> (found: bool)
    ensures
        found == exists|i: int| 0 <= i < input.cord_topology@.len() && caller_direct_cord(#[trigger] input.cord_topology@[i], caller),
{
    let cords = &input.cord_topology;
    let mut i: usize = 0;
    while i < cords.len()
        invariant
            cords@ == input.cord_topology@,
            i <= cords@.len(),
            forall|k: int| 0 <= k < i ==> !caller_direct_cord(#[trigger] cords@[k], caller),
        decreases cords@.len() - i,
    {
        let cord = cords[i];
        let found = match (cord.first, cord.second) {
            (PortId::Subscriber(first), PortId::Subscriber(second)) => first == caller || second == caller,
            _ => false,
        };
        if found {
            assert(caller_direct_cord(cords@[i as int], caller));
            return true;
        }
        i = i + 1;
    }
    false
}

/// Exactly as many cords as pairs, and every pair corded.
pub open spec fn exactly_corded(cords: Seq<CordConnection>, expected: Seq<(PortId, PortId)>) -> bool {
    cords.len() == expected.len() && forall|k: int| 0 <= k < expected.len() ==> corded(cords, (#[trigger] expected[k]).0, expected[k].1)
}

/// Whether the cords are exactly the expected pairs.
pub fn exact_cords(input: &[CordConnection], expected: &[(PortId, PortId)]) -> (exact: bool)
    ensures
        exact == exactly_corded(input@, expected@),
{
    if input.len() != expected.len() {
        return false;
    }
    let mut k: usize = 0;
    while k < expected.len()
        invariant
            k <= expected@.len(),
            forall|m: int| 0 <= m < k ==> corded(input@, (#[trigger] expected@[m]).0, expected@[m].1),
        decreases expected@.len() - k,
    {
        let (first, second) = expected[k];
        let mut i: usize = 0;
        let mut found = false;
        while i < input.len()
            invariant
                i <= input@.len(),
                found ==> corded(input@, first, second),
                !found ==> forall|j: int| 0 <= j < i ==> !joins(#[trigger] input@[j], first, second),
            decreases input@.len() - i,
        {
            let cord = input[i];
            if (cord.first == first && cord.second == second) || (cord.first == second && cord.second == first) {
                assert(joins(input@[i as int], first, second));
                found = true;
            }
            i = i + 1;
        }
        if !found {
            assert(!corded(input@, expected@[k as int].0, expected@[k as int].1));
            return false;
        }
        k = k + 1;
    }
    true
}

/// The cord joins the caller's line to a subscriber line other than the callee's.
pub open spec fn wrong_direct_cord(c: CordConnection, caller: u8, callee: u8) -> bool {
    match (c.first, c.second) {
        (PortId::Subscriber(first), PortId::Subscriber(second)) =>
            (first == caller && second != callee) || (second == caller && first != callee),
        _ => false,
    }
}

/// Whether the caller is corded straight to the wrong line.
pub fn has_wrong_direct_circuit(input: &InputState, caller: u8, callee: u8) -> (found: bool)
    ensures
        found == exists|i: int| 0 <= i < input.cord_topology@.len() && wrong_direct_cord(#[trigger] input.cord_topology@[i], caller, callee),
{
    let cords = &input.cord_topology;
    let mut i: usize = 0;
    while i < cords.len()
        invariant
            cords@ == input.cord_topology@,
            i <= cords@.len(),
            forall|k: int| 0 <= k < i ==> !wrong_direct_cord(#[trigger] cords@[k], caller, callee),
        decreases cords@.len() - i,
    {
        let cord = cords[i];
        let wrong = match (cord.first, cord.second) {
            (PortId::Subscriber(first), PortId::Subscriber(second)) =>
                (first == caller && second != callee) || (second == caller && first != callee),
            _ => false,
        };
        if wrong {
            assert(wrong_direct_cord(cords@[i as int], caller, callee));
            return true;
        }
        i = i + 1;
    }
    false
}

/// The port is the caller's or the callee's line.
pub open spec fn endpoint(port: PortId, caller: u8, callee: u8) -> bool {
    port matches PortId::Subscriber(line) && (line == caller || line == callee)
}

/// A cord is compatible with a direct circuit: it touches neither endpoint,
/// joins the two endpoints, or joins an endpoint to a tap.
pub open spec fn compatible_with_direct(c: CordConnection, caller: u8, callee: u8) -> bool {
    if !endpoint(c.first, caller, callee) && !endpoint(c.second, caller, callee) {
        true
    } else {
        match (c.first, c.second) {
            (PortId::Subscriber(a), PortId::Subscriber(b)) => (a == caller && b == callee) || (a == callee && b == caller),
            (PortId::Subscriber(a), PortId::Tap(_)) => a == caller || a == callee,
            (PortId::Tap(_), PortId::Subscriber(a)) => a == caller || a == callee,
            _ => false,
        }
    }
}

pub open spec fn direct_circuit(cords: Seq<CordConnection>, caller: u8, callee: u8) -> bool {
    corded(cords, PortId::Subscriber(caller), PortId::Subscriber(callee))
        && forall|i: int| 0 <= i < cords.len() ==> compatible_with_direct(#[trigger] cords[i], caller, callee)
}

/// Whether caller and callee are joined directly, with no other cord on
/// their lines but taps.
pub fn valid_direct_circuit(input: &InputState, caller: u8, callee: u8) -> (valid: bool)
    ensures
        valid == direct_circuit(input.cord_topology@, caller, callee),
{
    let cords = &input.cord_topology;
    if !direct(cords, caller, callee) {
        return false;
    }
    let mut i: usize = 0;
    while i < cords.len()
        invariant
            cords@ == input.cord_topology@,
            i <= cords@.len(),
            forall|k: int| 0 <= k < i ==> compatible_with_direct(#[trigger] cords@[k], caller, callee),
        decreases cords@.len() - i,
    {
        let cord = cords[i];
        let first_touches = match cord.first { PortId::Subscriber(line) => line == caller || line == callee, _ => false };
        let second_touches = match cord.second { PortId::Subscriber(line) => line == caller || line == callee, _ => false };
        let compatible = if !first_touches && !second_touches {
            true
        } else {
            match (cord.first, cord.second) {
                (PortId::Subscriber(a), PortId::Subscriber(b)) => (a == caller && b == callee) || (a == callee && b == caller),
                (PortId::Subscriber(a), PortId::Tap(_)) => a == caller || a == callee,
                (PortId::Tap(_), PortId::Subscriber(a)) => a == caller || a == callee,
                _ => false,
            }
        };
        if !compatible {
            assert(!compatible_with_direct(cords@[i as int], caller, callee));
            return false;
        }
        i = i + 1;
    }
    true
}

/// The two pairs of a tap bridge, caller on tap `a`, callee on tap `b`.
pub open spec fn tap_pairs(caller: u8, callee: u8, a: u8, b: u8) -> Seq<(PortId, PortId)> {
    seq![(PortId::Subscriber(caller), PortId::Tap(a)), (PortId::Subscriber(callee), PortId::Tap(b))]
}

pub open spec fn tap_circuit(cords: Seq<CordConnection>, caller: u8, callee: u8) -> bool {
    exactly_corded(cords, tap_pairs(caller, callee, 1, 2)) || exactly_corded(cords, tap_pairs(caller, callee, 2, 1))
}

/// Whether the only cords are a tap bridge between caller and callee.
pub fn valid_tap_circuit(input: &InputState, caller: u8, callee: u8) -> (valid: bool)
    ensures
        valid == tap_circuit(input.cord_topology@, caller, callee),
{
    let straight = [(PortId::Subscriber(caller), PortId::Tap(1)), (PortId::Subscriber(callee), PortId::Tap(2))];
    let crossed = [(PortId::Subscriber(caller), PortId::Tap(2)), (PortId::Subscriber(callee), PortId::Tap(1))];
    assert(straight@ =~= tap_pairs(caller, callee, 1, 2));
    assert(crossed@ =~= tap_pairs(caller, callee, 2, 1));
    exact_cords(input.cord_topology.as_slice(), straight.as_slice())
        || exact_cords(input.cord_topology.as_slice(), crossed.as_slice())
}

/// Whether caller and callee are connected, directly or through the tap bridge.
pub fn valid_connected_circuit(input: &InputState, caller: u8, callee: u8) -> (valid: bool)
    ensures
        valid == (direct_circuit(input.cord_topology@, caller, callee) || tap_circuit(input.cord_topology@, caller, callee)),
{
    valid_direct_circuit(input, caller, callee) || valid_tap_circuit(input, caller, callee)
}

/// A tap-bridge circuit is never also a direct circuit: it has no cord
/// joining the two lines.
pub proof fn law_tap_bridge_is_not_direct(cords: Seq<CordConnection>, caller: u8, callee: u8)
    requires
        tap_circuit(cords, caller, callee),
    ensures
        !corded(cords, PortId::Subscriber(caller), PortId::Subscriber(callee)),
{
    if corded(cords, PortId::Subscriber(caller), PortId::Subscriber(callee)) {
        let i = choose|i: int| 0 <= i < cords.len() && joins(#[trigger] cords[i], PortId::Subscriber(caller), PortId::Subscriber(callee));
        let pairs = if exactly_corded(cords, tap_pairs(caller, callee, 1, 2)) { tap_pairs(caller, callee, 1, 2) } else { tap_pairs(caller, callee, 2, 1) };
        assert(corded(cords, pairs[0].0, pairs[0].1));
        assert(corded(cords, pairs[1].0, pairs[1].1));
        let a = choose|a: int| 0 <= a < cords.len() && joins(#[trigger] cords[a], pairs[0].0, pairs[0].1);
        let b = choose|b: int| 0 <= b < cords.len() && joins(#[trigger] cords[b], pairs[1].0, pairs[1].1);
        assert(a != i && b != i && a != b);
        assert(cords.len() == 2);
    }
}

/// The line a cord joins to the ring generator, if it does.
pub open spec fn ring_cord_line(c: CordConnection) -> Option<u8> {
    match (c.first, c.second) {
        (PortId::RingGenerator, PortId::Subscriber(line)) => Some(line),
        (PortId::Subscriber(line), PortId::RingGenerator) => Some(line),
        _ => None,
    }
}

/// The line the first ring-generator cord reaches, from cord `k` on; -1
/// without one.
pub open spec fn ring_line_from(cords: Seq<CordConnection>, k: int) -> i16
    decreases cords.len() - k,
{
    if k < 0 || k >= cords.len() {
        -1i16
    } else {
        match ring_cord_line(cords[k]) {
            Some(line) => line as i16,
            None => ring_line_from(cords, k + 1),
        }
    }
}

/// The line the ring generator is corded to: that of the first cord between
/// it and a subscriber jack, or -1 without one.
pub fn physical_ring_line(input: &InputState) -> (line: i16)
    ensures
        line == ring_line_from(input.cord_topology@, 0),
{
    let cords = &input.cord_topology;
    let mut k: usize = 0;
    while k < cords.len()
        invariant
            cords@ == input.cord_topology@,
            k <= cords@.len(),
            ring_line_from(cords@, 0) == ring_line_from(cords@, k as int),
        decreases cords@.len() - k,
    {
        let cord = cords[k];
        match (cord.first, cord.second) {
            (PortId::RingGenerator, PortId::Subscriber(line)) => { return line as i16; },
            (PortId::Subscriber(line), PortId::RingGenerator) => { return line as i16; },
            _ => {},
        }
        k = k + 1;
    }
    -1
}

/// A call the exchange is handling: its lines, its phase and its timing,
/// in seconds of the run.
#[derive(Debug, Clone, Copy, PartialEq, Eq, Structural)]
pub struct ActiveCall {
    pub caller: u8,
    pub callee: u8,
    pub phase: CallPhase,
    pub deadline: u64,
    pub started_elapsed_seconds: u64,
    pub connected_elapsed_seconds: Option<u64>,
    pub ring_started_at: Option<u64>,
    pub ring_ready_at: Option<u64>,
    pub ring_activated: bool,
    pub disconnected_at: Option<u64>,
    pub audio_duration_seconds: u64,
}

/// A call still in play: not missed, failed or completed.
pub open spec fn call_live(call: ActiveCall) -> bool {
    !(call.phase == CallPhase::Missed || call.phase == CallPhase::Failed || call.phase == CallPhase::Completed)
}

/// The callee's lamp is lit: the call is held or connected, or the callee is
/// ringing and the ring has taken.
pub open spec fn callee_lit(call: ActiveCall) -> bool {
    call.phase == CallPhase::Held || call.phase == CallPhase::Connected
        || (call.phase == CallPhase::Ringing && call.ring_activated)
}

/// Whether the lamp of `line` is lit: it is being rung, or a live call has
/// its caller there, or its callee with the lamp lit.
pub open spec fn lamp_lit(calls: Seq<ActiveCall>, ring_line: i16, line: int) -> bool {
    ||| ring_line == line
    ||| exists|i: int| 0 <= i < calls.len() && call_live(#[trigger] calls[i])
            && (calls[i].caller == line || (callee_lit(calls[i]) && calls[i].callee == line))
}

/// The line lamps of the exchange's twelve lines.
pub fn lamps(calls: &[ActiveCall], ring_line: i16) -> (lit: [bool; 12])
    requires
        forall|i: int| 0 <= i < calls@.len() ==> (#[trigger] calls@[i]).caller < LINES && calls@[i].callee < LINES,
    ensures
        forall|line: int| 0 <= line < 12 ==> lit@[line] == lamp_lit(calls@, ring_line, line),
{
    let mut result = [false; 12];
    if 0 <= ring_line && ring_line < 12 {
        result[ring_line as usize] = true;
    }
    let mut i: usize = 0;
    while i < calls.len()
        invariant
            i <= calls@.len(),
            result@.len() == 12,
            forall|k: int| 0 <= k < calls@.len() ==> (#[trigger] calls@[k]).caller < LINES && calls@[k].callee < LINES,
            forall|line: int| 0 <= line < 12 ==> result@[line] == (ring_line == line
                || exists|k: int| 0 <= k < i && call_live(#[trigger] calls@[k])
                    && (calls@[k].caller == line || (callee_lit(calls@[k]) && calls@[k].callee == line))),
        decreases calls@.len() - i,
    {
        let call = &calls[i];
        let ghost before = result@;
        let live = !(call.phase == CallPhase::Missed || call.phase == CallPhase::Failed || call.phase == CallPhase::Completed);
        let lit_callee = call.phase == CallPhase::Held || call.phase == CallPhase::Connected
            || (call.phase == CallPhase::Ringing && call.ring_activated);
        if live {
            result[call.caller as usize] = true;
            if lit_callee {
                result[call.callee as usize] = true;
            }
        }
        assert forall|line: int| 0 <= line < 12 implies result@[line] == (ring_line == line
            || exists|k: int| 0 <= k < i + 1 && call_live(#[trigger] calls@[k])
                && (calls@[k].caller == line || (callee_lit(calls@[k]) && calls@[k].callee == line))) by {
            let now = live && (calls@[i as int].caller == line || (lit_callee && calls@[i as int].callee == line));
            if now {
                assert(call_live(calls@[i as int]));
            }
            if exists|k: int| 0 <= k < i + 1 && call_live(#[trigger] calls@[k])
                && (calls@[k].caller == line || (callee_lit(calls@[k]) && calls@[k].callee == line)) {
                let k = choose|k: int| 0 <= k < i + 1 && call_live(#[trigger] calls@[k])
                    && (calls@[k].caller == line || (callee_lit(calls@[k]) && calls@[k].callee == line));
                if k < i {
                    assert(before[line]);
                }
            }
        }
        i = i + 1;
    }
    result
}

/// The printer with one more entry, numbered after the last one (the first
/// entry is number one).
pub open spec fn printed(entries: Seq<PrinterEntry>, text: Seq<char>) -> (u64, Seq<char>) {
    (if entries.len() == 0 { 1 } else { (entries.last().entry_id + 1) as u64 }, text)
}

/// Appends a line to the printer.
pub fn append_printer(state: &mut StateOutput, text: &str)
    requires
        old(state).printer_output@.len() > 0 ==> old(state).printer_output@.last().entry_id < u64::MAX,
    ensures
        final(state).printer_output@.len() == old(state).printer_output@.len() + 1,
        final(state).printer_output@.take(old(state).printer_output@.len() as int) == old(state).printer_output@,
        (final(state).printer_output@.last().entry_id, final(state).printer_output@.last().text@)
            == printed(old(state).printer_output@, text@),
        final(state).line_lamps == old(state).line_lamps,
        final(state).game_phase == old(state).game_phase,
        final(state).run_generation == old(state).run_generation,
        final(state).clock == old(state).clock,
        final(state).speaker_active == old(state).speaker_active,
        final(state).interference_level == old(state).interference_level,
        final(state).tap_bridge_audio_active == old(state).tap_bridge_audio_active,
        final(state).tuning == old(state).tuning,
        final(state).directory_pages == old(state).directory_pages,
        final(state).call == old(state).call,
        final(state).calls == old(state).calls,
        final(state).service_call == old(state).service_call,
        final(state).tap_bridge_monitoring == old(state).tap_bridge_monitoring,
        final(state).shift == old(state).shift,
        final(state).debug == old(state).debug,
{
    let n = state.printer_output.len();
    let id: u64 = if n == 0 { 1 } else { state.printer_output[n - 1].entry_id + 1 };
    state.printer_output.push(PrinterEntry { entry_id: id, text: String::from_str(text) });
    assert(state.printer_output@.take(n as int) =~= old(state).printer_output@);
}

/// The answer to a refused input: not accepted, with the error's code and
/// message, at the given revision, carrying the state as it stands.
pub fn rejected(sequence: u64, code: &str, message: &str, revision: u64, output: StateOutput) -> (reply: StateMessage)
    ensures
        reply.protocol_version == PROTOCOL_VERSION,
        reply.input_sequence == sequence,
        !reply.accepted,
        reply.error matches Some(e) && e.code@ == code@ && e.message@ == message@,
        reply.state_revision == revision,
        reply.output == output,
{
    StateMessage {
        protocol_version: PROTOCOL_VERSION,
        input_sequence: sequence,
        accepted: false,
        error: Some(ProtocolError { code: String::from_str(code), message: String::from_str(message) }),
        state_revision: revision,
        output,
    }
}

} // verus!
