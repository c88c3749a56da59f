//! What the engine keeps in its store: extensions and registrations.

use vstd::prelude::*;
use crate::text::{decimal, decimal_u128, chars_to_string};

verus! {

/// An extension (a phone account) as the engine reads it from its store.
pub struct Extension {
    pub id: i64,
    pub extension_number: String,
    pub password: String,
    pub display_name: String,
    pub email: Option<String>,
    pub record_calls: i64,
    pub is_active: i64,
    pub min_expires: i64,
    pub max_expires: i64,
    pub auth_required: i64,
}

impl Extension {
    /// Calls of this extension are recorded when `record_calls` is 1.
    pub fn is_recording_enabled(&self) -> (r: bool)
        ensures
            r == (self.record_calls == 1),
    {
        self.record_calls == 1
    }

    /// Registrations of this extension must authenticate when `auth_required` is 1.
    pub fn is_auth_required(&self) -> (r: bool)
        ensures
            r == (self.auth_required == 1),
    {
        self.auth_required == 1
    }
}

/// Where an extension is registered: the address and port it registered from.
pub struct Registration {
    pub source_ip: String,
    pub source_port: i64,
}

/// `secs` as an unsigned 64-bit number (two's complement for negative ones).
pub open spec fn as_u64_bits(secs: i64) -> int {
    if secs >= 0 {
        secs as int
    } else {
        secs + 0x1_0000_0000_0000_0000
    }
}

/// The Unix time `secs` seconds after `now_secs`, in decimal: the moment a
/// registration granted for `secs` seconds expires.
pub fn chrono_offset_secs(now_secs: u64, secs: i64) -> (r: String)
    requires
        now_secs + as_u64_bits(secs) <= u64::MAX,
    ensures
        r@ == decimal((now_secs + as_u64_bits(secs)) as nat),
{
    let bits: u64 = secs as u64;
    assert(bits == as_u64_bits(secs)) by (bit_vector)
        requires bits == secs as u64;
    let at = now_secs + bits;
    chars_to_string(&decimal_u128(at as u128))
}

} // verus!
