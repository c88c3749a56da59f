//! The records written to the engine's dedicated log files.

use vstd::prelude::*;
use crate::clock::{system_now, since_epoch, duration_secs, subsec_millis};
use crate::text::{decimal, decimal_pad3, decimal_u128, decimal_pad3_exec, push_all, str_chars, chars_to_string};

verus! {

/// `[secs.mmm]`: seconds since the Unix epoch and milliseconds, three digits.
pub open spec fn timestamp_text(secs: u64, millis: u32) -> Seq<char> {
    seq!['['] + decimal(secs as nat) + seq!['.'] + decimal_pad3(millis as nat) + seq![']']
}

/// The line that closes each SIP message record: forty dashes.
pub open spec fn dash_line() -> Seq<char> {
    Seq::new(40, |i: int| '-')
}

/// A SIP message record: `timestamp direction target`, the message, and a line of
/// dashes, each on its own line.
pub open spec fn sip_log_entry(
    timestamp: Seq<char>,
    direction: Seq<char>,
    target: Seq<char>,
    content: Seq<char>,
) -> Seq<char> {
    timestamp + seq![' '] + direction + seq![' '] + target + seq!['\n'] + content + seq!['\n']
        + dash_line() + seq!['\n']
}

/// An authentication audit record: `timestamp [AUTH] event`.
pub open spec fn auth_log_entry(timestamp: Seq<char>, event: Seq<char>) -> Seq<char> {
    timestamp + seq![' ', '[', 'A', 'U', 'T', 'H', ']', ' '] + event + seq!['\n']
}

/// A system event record: `timestamp [SYSTEM] event`.
pub open spec fn system_log_entry(timestamp: Seq<char>, event: Seq<char>) -> Seq<char> {
    timestamp + seq![' ', '[', 'S', 'Y', 'S', 'T', 'E', 'M', ']', ' '] + event + seq!['\n']
}

/// Seconds and milliseconds since the Unix epoch on the system clock, zero when it
/// is set before the epoch. Of the time only this is known: the milliseconds are a
/// fraction of a second.
fn clock_now() -> (t: (u64, u32))
    ensures
        t.1 < 1000,
{
    match since_epoch(&system_now()) {
        Some(d) => (duration_secs(&d), subsec_millis(&d)),
        None => (0, 0),
    }
}

/// The timestamp text for a moment.
pub fn format_timestamp(secs: u64, millis: u32) -> (r: String)
    requires
        millis < 1000,
    ensures
        r@ == timestamp_text(secs, millis),
{
    let mut v = vec!['['];
    push_all(&mut v, &decimal_u128(secs as u128));
    v.push('.');
    push_all(&mut v, &decimal_pad3_exec(millis as u128));
    v.push(']');
    assert(v@ =~= timestamp_text(secs, millis));
    chars_to_string(&v)
}

/// The timestamp of now.
pub fn get_timestamp() -> (r: String)
    ensures
        exists|secs: u64, millis: u32| millis < 1000 && r@ == timestamp_text(secs, millis),
{
    let (secs, millis) = clock_now();
    format_timestamp(secs, millis)
}

/// A SIP message record with the given timestamp.
pub fn format_sip_log_entry(timestamp: &str, direction: &str, target: &str, content: &str) -> (r: String)
    ensures
        r@ == sip_log_entry(timestamp@, direction@, target@, content@),
{
    let mut v = str_chars(timestamp);
    v.push(' ');
    push_all(&mut v, &str_chars(direction));
    v.push(' ');
    push_all(&mut v, &str_chars(target));
    v.push('\n');
    push_all(&mut v, &str_chars(content));
    v.push('\n');
    let mut i: usize = 0;
    let ghost before = v@;
    while i < 40
        invariant
            i <= 40,
            v@ == before + Seq::new(i as nat, |k: int| '-'),
        decreases 40 - i,
    {
        v.push('-');
        assert(v@ =~= before + Seq::new((i + 1) as nat, |k: int| '-'));
        i = i + 1;
    }
    v.push('\n');
    assert(v@ =~= sip_log_entry(timestamp@, direction@, target@, content@));
    chars_to_string(&v)
}

/// An authentication audit record with the given timestamp.
pub fn format_auth_log_entry(timestamp: &str, event: &str) -> (r: String)
    ensures
        r@ == auth_log_entry(timestamp@, event@),
{
    let mut v = str_chars(timestamp);
    push_all(&mut v, &[' ', '[', 'A', 'U', 'T', 'H', ']', ' ']);
    push_all(&mut v, &str_chars(event));
    v.push('\n');
    assert(v@ =~= auth_log_entry(timestamp@, event@));
    chars_to_string(&v)
}

/// A system event record with the given timestamp.
pub fn format_system_log_entry(timestamp: &str, event: &str) -> (r: String)
    ensures
        r@ == system_log_entry(timestamp@, event@),
{
    let mut v = str_chars(timestamp);
    push_all(&mut v, &[' ', '[', 'S', 'Y', 'S', 'T', 'E', 'M', ']', ' ']);
    push_all(&mut v, &str_chars(event));
    v.push('\n');
    assert(v@ =~= system_log_entry(timestamp@, event@));
    chars_to_string(&v)
}

/// The record to append to the SIP message log for a message seen now.
pub fn log_sip_message(direction: &str, target: &str, content: &str) -> (r: String)
    ensures
        exists|secs: u64, millis: u32|
            millis < 1000 && r@ == sip_log_entry(
                timestamp_text(secs, millis),
                direction@,
                target@,
                content@,
            ),
{
    let ts = get_timestamp();
    format_sip_log_entry(ts.as_str(), direction, target, content)
}

/// The record to append to the authentication audit log for an event now.
pub fn log_auth_audit(event: &str) -> (r: String)
    ensures
        exists|secs: u64, millis: u32|
            millis < 1000 && r@ == auth_log_entry(timestamp_text(secs, millis), event@),
{
    let ts = get_timestamp();
    format_auth_log_entry(ts.as_str(), event)
}

/// The record to append to the system log for an event now.
pub fn log_system_event(event: &str) -> (r: String)
    ensures
        exists|secs: u64, millis: u32|
            millis < 1000 && r@ == system_log_entry(timestamp_text(secs, millis), event@),
{
    let ts = get_timestamp();
    format_system_log_entry(ts.as_str(), event)
}

} // verus!
