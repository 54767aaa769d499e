//! The single-string wire names of switchboard ports
//! (`subscriber_0` .. `subscriber_15`, `operator`, `ring_generator`,
//! `tap_1` .. `tap_4`).

use vstd::prelude::*;
use vstd::string::*;
use vstd::slice::slice_subrange;
use crate::protocol::PortId;
use crate::scan::starts_with;
use crate::text::{chars_of, decimal, digit_char, push_decimal, same_chars};

verus! {

/// Why a port has no wire name.
#[derive(Debug, Clone, Copy, PartialEq, Eq, Structural)]
pub enum PortNameError {
    InvalidSubscriber,
    InvalidTap,
}

/// Why a string names no port.
#[derive(Debug, Clone, Copy, PartialEq, Eq, Structural)]
pub enum PortParseError {
    SubscriberOutOfRange,
    TapOutOfRange,
    Invalid,
}

pub open spec fn is_digit(c: char) -> bool {
    '0' <= c && c <= '9'
}

pub open spec fn all_digits(s: Seq<char>) -> bool {
    forall|i: int| 0 <= i < s.len() ==> is_digit(#[trigger] s[i])
}

/// The value of a string of decimal digits.
pub open spec fn digits_value(s: Seq<char>) -> nat
    decreases s.len(),
{
    if s.len() == 0 {
        0
    } else {
        digits_value(s.drop_last()) * 10 + ((s.last() as nat) - ('0' as nat)) as nat
    }
}

/// The digits that follow an optional leading `+`.
pub open spec fn decimal_body(s: Seq<char>) -> Seq<char> {
    if s.len() > 0 && s[0] == '+' { s.drop_first() } else { s }
}

/// What `u8`'s decimal parser reads from `s`: an optional `+` and at least one
/// digit, with a value that fits in a byte.
pub open spec fn u8_from_decimal(s: Seq<char>) -> Option<u8> {
    let body = decimal_body(s);
    if body.len() == 0 || !all_digits(body) || digits_value(body) > 255 {
        None
    } else {
        Some(digits_value(body) as u8)
    }
}

/// The index after a port prefix: it must not be empty and may not start with
/// `0` unless it is `0` itself.
pub open spec fn port_index(rest: Seq<char>) -> Option<u8> {
    if rest.len() == 0 || (rest.len() > 1 && rest[0] == '0') {
        None
    } else {
        u8_from_decimal(rest)
    }
}

pub open spec fn subscriber_prefix() -> Seq<char> {
    "subscriber_"@
}

pub open spec fn tap_prefix() -> Seq<char> {
    "tap_"@
}

/// The wire name of a port, for the ports that have one.
pub open spec fn port_wire_text(port: PortId) -> Result<Seq<char>, PortNameError> {
    match port {
        PortId::Subscriber(i) => if i < 16 {
            Ok(subscriber_prefix() + decimal(i as nat))
        } else {
            Err(PortNameError::InvalidSubscriber)
        },
        PortId::Operator => Ok("operator"@),
        PortId::RingGenerator => Ok("ring_generator"@),
        PortId::Tap(i) => if 1 <= i && i <= 4 {
            Ok(tap_prefix() + decimal(i as nat))
        } else {
            Err(PortNameError::InvalidTap)
        },
    }
}

/// The port a wire name denotes.
pub open spec fn port_reading(s: Seq<char>) -> Result<PortId, PortParseError> {
    if s == "operator"@ {
        Ok(PortId::Operator)
    } else if s == "ring_generator"@ {
        Ok(PortId::RingGenerator)
    } else if subscriber_prefix().is_prefix_of(s) {
        match port_index(s.skip(subscriber_prefix().len() as int)) {
            Some(i) => if i < 16 { Ok(PortId::Subscriber(i)) } else { Err(PortParseError::SubscriberOutOfRange) },
            None => Err(PortParseError::SubscriberOutOfRange),
        }
    } else if tap_prefix().is_prefix_of(s) {
        match port_index(s.skip(tap_prefix().len() as int)) {
            Some(i) => if 1 <= i && i <= 4 { Ok(PortId::Tap(i)) } else { Err(PortParseError::TapOutOfRange) },
            None => Err(PortParseError::TapOutOfRange),
        }
    } else {
        Err(PortParseError::Invalid)
    }
}

/// Reads the index that follows a port prefix: decimal, optionally signed
/// with `+`, without a leading zero, at most 255.
pub fn parse_index(rest: &[char]) -> (index: Option<u8>)
    ensures
        index == port_index(rest@),
{
    let n = rest.len();
    if n == 0 || (n > 1 && rest[0] == '0') {
        return None;
    }
    let start: usize = if rest[0] == '+' { 1 } else { 0 };
    let ghost body = decimal_body(rest@);
    assert(body =~= rest@.subrange(start as int, n as int));
    if start == n {
        return None;
    }
    let mut value: u32 = 0;
    let mut i: usize = start;
    while i < n
        invariant
            start <= i <= n,
            n == rest@.len(),
            body == rest@.subrange(start as int, n as int),
            body == decimal_body(rest@),
            all_digits(rest@.subrange(start as int, i as int)),
            value as nat == digits_value(rest@.subrange(start as int, i as int)),
            value <= 255,
        decreases n - i,
    {
        let c = rest[i];
        if !('0' <= c && c <= '9') {
            assert(!all_digits(body)) by {
                assert(body[i - start] == c);
                assert(!is_digit(body[(i - start) as int]));
            }
            assert(u8_from_decimal(rest@) is None);
            return None;
        }
        let d = (c as u32) - ('0' as u32);
        let ghost prefix = rest@.subrange(start as int, i + 1);
        assert(prefix.drop_last() =~= rest@.subrange(start as int, i as int));
        assert(prefix.last() == c);
        if value * 10 + d > 255 {
            proof {
                if all_digits(body) {
                    digits_value_grows(body, (i + 1 - start) as int);
                    assert(body.subrange(0, (i + 1 - start) as int) =~= prefix);
                }
            }
            assert(u8_from_decimal(rest@) is None);
            return None;
        }
        value = value * 10 + d;
        i = i + 1;
    }
    assert(rest@.subrange(start as int, n as int) == body);
    Some(value as u8)
}

/// A longer run of leading digits never has a smaller value.
pub proof fn digits_value_grows(s: Seq<char>, k: int)
    requires
        0 <= k <= s.len(),
        all_digits(s),
    ensures
        digits_value(s.subrange(0, k)) <= digits_value(s),
    decreases s.len() - k,
{
    if k < s.len() {
        digits_value_grows(s, k + 1);
        let t = s.subrange(0, k + 1);
        assert(t.drop_last() =~= s.subrange(0, k));
        assert(is_digit(t.last()));
    } else {
        assert(s.subrange(0, k) =~= s);
    }
}

/// The wire name of a port; subscriber jacks run 0..=15 and tap jacks 1..=4.
pub fn port_wire_name(port: PortId) -> (name: Result<String, PortNameError>)
    ensures
        match name {
            Ok(s) => port_wire_text(port) == Ok::<Seq<char>, PortNameError>(s@),
            Err(e) => port_wire_text(port) == Err::<Seq<char>, PortNameError>(e),
        },
{
    match port {
        PortId::Subscriber(index) => {
            if index < 16 {
                let mut s = String::from_str("subscriber_");
                push_decimal(&mut s, index as u64);
                Ok(s)
            } else {
                Err(PortNameError::InvalidSubscriber)
            }
        },
        PortId::Operator => Ok(String::from_str("operator")),
        PortId::RingGenerator => Ok(String::from_str("ring_generator")),
        PortId::Tap(index) => {
            if 1 <= index && index <= 4 {
                let mut s = String::from_str("tap_");
                push_decimal(&mut s, index as u64);
                Ok(s)
            } else {
                Err(PortNameError::InvalidTap)
            }
        },
    }
}

/// The port that a wire name denotes.
pub fn port_from_wire(value: &str) -> (port: Result<PortId, PortParseError>)
    ensures
        port == port_reading(value@),
{
    let s = chars_of(value);
    if same_chars(&s, &chars_of("operator")) {
        return Ok(PortId::Operator);
    }
    if same_chars(&s, &chars_of("ring_generator")) {
        return Ok(PortId::RingGenerator);
    }
    let subscriber = chars_of("subscriber_");
    if starts_with(&s, &subscriber) {
        let rest = slice_subrange(s.as_slice(), subscriber.len(), s.len());
        assert(rest@ =~= s@.skip(subscriber@.len() as int));
        return match parse_index(rest) {
            Some(i) => if i < 16 { Ok(PortId::Subscriber(i)) } else { Err(PortParseError::SubscriberOutOfRange) },
            None => Err(PortParseError::SubscriberOutOfRange),
        };
    }
    let tap = chars_of("tap_");
    if starts_with(&s, &tap) {
        let rest = slice_subrange(s.as_slice(), tap.len(), s.len());
        assert(rest@ =~= s@.skip(tap@.len() as int));
        return match parse_index(rest) {
            Some(i) => if 1 <= i && i <= 4 { Ok(PortId::Tap(i)) } else { Err(PortParseError::TapOutOfRange) },
            None => Err(PortParseError::TapOutOfRange),
        };
    }
    Err(PortParseError::Invalid)
}

pub(crate) proof fn decimal_facts(n: nat)
    ensures
        decimal(n).len() >= 1,
        all_digits(decimal(n)),
        digits_value(decimal(n)) == n,
        n >= 1 ==> decimal(n)[0] != '0',
        n < 10 ==> decimal(n).len() == 1,
    decreases n,
{
    let k = n % 10;
    assert((digit_char(k) as nat) - ('0' as nat) == k);
    assert(is_digit(digit_char(k)));
    if n < 10 {
        assert(decimal(n).drop_last() =~= Seq::<char>::empty());
        assert(decimal(n).last() == digit_char(k));
        assert(digits_value(decimal(n)) == digits_value(decimal(n).drop_last()) * 10 + ((decimal(n).last() as nat) - ('0' as nat)) as nat);
    }
    if n >= 10 {
        decimal_facts(n / 10);
        let d = decimal(n);
        assert(d.last() == digit_char(k));
        assert((n / 10) * 10 + k == n);
        assert(digits_value(d) == digits_value(d.drop_last()) * 10 + ((d.last() as nat) - ('0' as nat)) as nat);
        assert(d.drop_last() =~= decimal(n / 10));
        assert(d[0] == decimal(n / 10)[0]);
    }
}

/// Every port that has a wire name is read back from it: the names are an
/// exact, reversible encoding of the jacks.
pub proof fn port_name_round_trip(port: PortId)
    requires
        port_wire_text(port) is Ok,
    ensures
        port_reading(port_wire_text(port)->Ok_0) == Ok::<PortId, PortParseError>(port),
{
    reveal_strlit("operator");
    reveal_strlit("ring_generator");
    reveal_strlit("subscriber_");
    reveal_strlit("tap_");
    let s = port_wire_text(port)->Ok_0;
    match port {
        PortId::Subscriber(i) => {
            decimal_facts(i as nat);
            let d = decimal(i as nat);
            assert(s[0] == 's');
            assert(s.len() != "operator"@.len() || s[0] != "operator"@[0]);
            assert(s[1] == 'u');
            assert(s != "ring_generator"@) by { assert("ring_generator"@[0] == 'r'); }
            assert(s != "operator"@) by { assert("operator"@[0] == 'o'); }
            assert(subscriber_prefix().is_prefix_of(s));
            assert(s.skip(11) =~= d);
            if d.len() > 0 && d[0] == '+' {
                assert(is_digit(d[0]));
            }
        },
        PortId::Tap(i) => {
            decimal_facts(i as nat);
            let d = decimal(i as nat);
            assert(s[0] == 't');
            assert(s != "ring_generator"@) by { assert("ring_generator"@[0] == 'r'); }
            assert(s != "operator"@) by { assert("operator"@[0] == 'o'); }
            assert(!subscriber_prefix().is_prefix_of(s)) by { assert(subscriber_prefix()[0] == 's'); }
            assert(tap_prefix().is_prefix_of(s));
            assert(s.skip(4) =~= d);
            if d.len() > 0 && d[0] == '+' {
                assert(is_digit(d[0]));
            }
        },
        PortId::Operator => {},
        PortId::RingGenerator => {
            assert("ring_generator"@ != "operator"@) by { assert("ring_generator"@[0] == 'r'); }
        },
    }
}

} // verus!
