//! Inbound command path: an MQTT payload is read as a signed decimal angle,
//! clamped to the servo's range and queued for the actuator without ever
//! blocking the network task.

use vstd::prelude::*;
use vstd::utf8::{decode_utf8, valid_utf8};
use crate::channel::{command_items, command_try_send, send_outcome, CommandQueue, COMMAND_QUEUE_CAPACITY};

verus! {

/// Unicode `White_Space` characters, the set that `str::trim` removes.
pub open spec fn is_white_space(c: char) -> bool {
    let v = c as u32;
    (0x09 <= v <= 0x0d) || v == 0x20 || v == 0x85 || v == 0xa0 || v == 0x1680 || (0x2000 <= v
        <= 0x200a) || v == 0x2028 || v == 0x2029 || v == 0x202f || v == 0x205f || v == 0x3000
}

/// `s` without its leading white space.
pub open spec fn trim_start(s: Seq<char>) -> Seq<char>
    decreases s.len(),
{
    if s.len() > 0 && is_white_space(s[0]) {
        trim_start(s.drop_first())
    } else {
        s
    }
}

/// `s` without its trailing white space.
pub open spec fn trim_end(s: Seq<char>) -> Seq<char>
    decreases s.len(),
{
    if s.len() > 0 && is_white_space(s.last()) {
        trim_end(s.drop_last())
    } else {
        s
    }
}

/// `s` without leading or trailing white space.
pub open spec fn trimmed(s: Seq<char>) -> Seq<char> {
    trim_end(trim_start(s))
}

/// An ASCII decimal digit.
pub open spec fn is_digit(c: char) -> bool {
    '0' as u32 <= c as u32 <= '9' as u32
}

/// Every character of `s` is a decimal digit.
pub open spec fn all_digits(s: Seq<char>) -> bool {
    forall|i: int| 0 <= i < s.len() ==> is_digit(#[trigger] s[i])
}

/// The number written by the decimal digits `s`, most significant first.
pub open spec fn digits_value(s: Seq<char>) -> int
    decreases s.len(),
{
    if s.len() == 0 {
        0
    } else {
        10 * digits_value(s.drop_last()) + (s.last() as u32 - '0' as u32)
    }
}

/// The integer written by `s`: an optional `+` or `-` followed by one or
/// more decimal digits, and nothing else.
pub open spec fn decimal_value(s: Seq<char>) -> Option<int> {
    if s.len() > 0 && (s[0] == '+' || s[0] == '-') {
        let d = s.drop_first();
        if d.len() > 0 && all_digits(d) {
            Some(
                if s[0] == '-' {
                    -digits_value(d)
                } else {
                    digits_value(d)
                },
            )
        } else {
            None
        }
    } else if s.len() > 0 && all_digits(s) {
        Some(digits_value(s))
    } else {
        None
    }
}

/// The `i16` that `s` writes, as `str::parse::<i16>` reads it: `None` when
/// `s` is not a decimal integer or its value does not fit.
pub open spec fn i16_of_text(s: Seq<char>) -> Option<i16> {
    match decimal_value(s) {
        Some(v) => if i16::MIN <= v <= i16::MAX {
            Some(v as i16)
        } else {
            None
        },
        None => None,
    }
}

/// `v` brought into the closed interval [0, 180].
pub open spec fn clamp_angle(v: int) -> int {
    if v < 0 {
        0
    } else if v > 180 {
        180
    } else {
        v
    }
}

/// The angle commanded by the text `s`: its trimmed content read as an
/// `i16`, then clamped to [0, 180].
pub open spec fn angle_of_text(s: Seq<char>) -> Option<i16> {
    match i16_of_text(trimmed(s)) {
        Some(v) => Some(clamp_angle(v as int) as i16),
        None => None,
    }
}

/// The angle commanded by a raw payload: nothing unless it is valid UTF-8,
/// and then the angle that its text commands.
pub open spec fn angle_of_payload(b: Seq<u8>) -> Option<i16> {
    if valid_utf8(b) {
        angle_of_text(decode_utf8(b))
    } else {
        None
    }
}

/// Relies on `core::str::from_utf8`: it accepts exactly the valid UTF-8
/// byte strings and then borrows them as the text they encode.
#[verifier::external_body]
fn utf8_text(b: &[u8]) -> (r: Option<&str>)
    ensures
        r is Some <==> valid_utf8(b@),
        r matches Some(s) ==> s@ == decode_utf8(b@),
{
    match core::str::from_utf8(b) {
        Ok(s) => Some(s),
        Err(_) => None,
    }
}

/// Relies on `str::trim`: the slice without leading and trailing characters
/// of the Unicode `White_Space` property.
#[verifier::external_body]
fn trim_text(s: &str) -> (r: &str)
    ensures
        r@ == trimmed(s@),
{
    s.trim()
}

/// Above this the running value of a digit string is only known to be
/// too large for an `i16`.
const DIGITS_CAP: u32 = 100000;

proof fn lemma_digits_value_nonneg(s: Seq<char>)
    requires
        all_digits(s),
    ensures
        digits_value(s) >= 0,
    decreases s.len(),
{
    if s.len() > 0 {
        lemma_digits_value_nonneg(s.drop_last());
    }
}

/// Reads `s` as `str::parse::<i16>` does.
pub fn parse_i16(s: &str) -> (r: Option<i16>)
    ensures
        r == i16_of_text(s@),
{
    let n = s.unicode_len();
    if n == 0 {
        return None;
    }
    let first = s.get_char(0);
    let signed = first == '+' || first == '-';
    let start: usize = if signed {
        1
    } else {
        0
    };
    if start == n {
        return None;
    }
    let mut i: usize = start;
    let mut acc: u32 = 0;
    while i < n
        invariant
            start <= i <= n,
            n == s@.len(),
            start == (if signed { 1int } else { 0int }),
            s@[0] == first,
            signed == (first == '+' || first == '-'),
            all_digits(s@.subrange(start as int, i as int)),
            acc as int == (if digits_value(s@.subrange(start as int, i as int)) < DIGITS_CAP {
                digits_value(s@.subrange(start as int, i as int))
            } else {
                DIGITS_CAP as int
            }),
        decreases n - i,
    {
        let c = s.get_char(i);
        let code = c as u32;
        if code < ('0' as u32) || code > ('9' as u32) {
            proof {
                let d = if signed { s@.drop_first() } else { s@ };
                assert(d[i - start] == c);
                assert(!all_digits(d));
            }
            return None;
        }
        let next: u32 = acc * 10 + (code - ('0' as u32));
        acc = if next > DIGITS_CAP {
            DIGITS_CAP
        } else {
            next
        };
        proof {
            let prev = s@.subrange(start as int, i as int);
            let cur = s@.subrange(start as int, i + 1);
            assert(cur.drop_last() == prev);
            assert(cur.last() == c);
            lemma_digits_value_nonneg(prev);
            assert(all_digits(cur)) by {
                assert forall|j: int| 0 <= j < cur.len() implies is_digit(#[trigger] cur[j]) by {
                    if j < prev.len() {
                        assert(cur[j] == prev[j]);
                    }
                }
            }
        }
        i = i + 1;
    }
    proof {
        let d = if signed { s@.drop_first() } else { s@ };
        assert(s@.subrange(start as int, n as int) == d);
    }
    if first == '-' {
        if acc <= 32768 {
            Some((0 - (acc as i32)) as i16)
        } else {
            None
        }
    } else {
        if acc <= 32767 {
            Some(acc as i16)
        } else {
            None
        }
    }
}

/// `v` brought into the servo's range [0, 180].
pub fn clamp_to_servo_range(v: i16) -> (r: i16)
    ensures
        r as int == clamp_angle(v as int),
{
    if v < 0 {
        0
    } else if v > 180 {
        180
    } else {
        v
    }
}

/// The angle commanded by `text`: its content without surrounding white
/// space, read as a signed decimal integer and clamped to [0, 180]; `None`
/// when it is not an integer that fits an `i16`.
pub fn angle_from_text(text: &str) -> (r: Option<i16>)
    ensures
        r == angle_of_text(text@),
        r matches Some(a) ==> 0 <= a <= 180,
{
    let t = trim_text(text);
    match parse_i16(t) {
        Some(v) => Some(clamp_to_servo_range(v)),
        None => None,
    }
}

/// The angle commanded by an MQTT payload; `None` when the payload is not
/// UTF-8 text holding a decimal integer that fits an `i16`.
pub fn parse_angle_command(payload: &[u8]) -> (r: Option<i16>)
    ensures
        r == angle_of_payload(payload@),
        r matches Some(a) ==> 0 <= a <= 180,
{
    match utf8_text(payload) {
        Some(text) => angle_from_text(text),
        None => None,
    }
}

/// What became of an inbound command payload.
#[derive(Debug, Clone, Copy, PartialEq, Eq, Structural)]
pub enum CommandOutcome {
    /// The payload commanded this angle and it was queued for the actuator.
    Queued(i16),
    /// The payload commanded this angle but the queue was full, so it was
    /// dropped.
    Dropped(i16),
    /// The payload is not an angle; nothing was queued.
    Rejected,
}

/// Reads an MQTT payload as an angle command and queues it without
/// blocking: a full queue drops the new command, and a payload that is not
/// an integer leaves the queue untouched.
pub fn handle_angle_payload(payload: &[u8], queue: &mut CommandQueue) -> (r: CommandOutcome)
    ensures
        match angle_of_payload(payload@) {
            None => r == CommandOutcome::Rejected && command_items(*final(queue))
                == command_items(*old(queue)),
            Some(a) => (command_items(*final(queue)), r == CommandOutcome::Queued(a))
                == send_outcome(command_items(*old(queue)), COMMAND_QUEUE_CAPACITY as nat, a) && (r == CommandOutcome::Queued(a)
                || r == CommandOutcome::Dropped(a)),
        },
{
    match parse_angle_command(payload) {
        None => CommandOutcome::Rejected,
        Some(angle) => match command_try_send(queue, angle) {
            Ok(()) => CommandOutcome::Queued(angle),
            Err(_) => CommandOutcome::Dropped(angle),
        },
    }
}

} // verus!
