//! The media control service: port allocation and the answers it gives.

use vstd::prelude::*;
use crate::text::{push_all, str_chars, chars_to_string};

verus! {

/// Hands out RTP port pairs from `start` to `end`, two ports at a time, starting
/// over at `start` when the next pair would not fit.
pub struct PortAllocator {
    pub start: u16,
    pub end: u16,
    pub next: u16,
}

/// The port after `p`: two further on, or `start` when that pair would pass `end`.
pub open spec fn next_port(p: u16, start: u16, end: u16) -> u16 {
    if p as int + 3 <= end as int {
        (p + 2) as u16
    } else {
        start
    }
}

impl PortAllocator {
    /// The next port starts a pair that fits in the range, an even number of ports
    /// above its start.
    pub open spec fn wf(&self) -> bool {
        &&& self.start <= self.next
        &&& self.next as int + 1 <= self.end as int
        &&& (self.next - self.start) % 2 == 0
    }

    /// An allocator whose first port is `start`; well formed when a pair fits in
    /// the range.
    pub fn new(start: u16, end: u16) -> (a: PortAllocator)
        ensures
            a.start == start,
            a.end == end,
            a.next == start,
            start as int + 1 <= end as int ==> a.wf(),
    {
        PortAllocator { start, end, next: start }
    }

    /// The next even-spaced port, for one media session.
    pub fn allocate(&mut self) -> (port: u16)
        ensures
            port == old(self).next,
            final(self).next == next_port(old(self).next, old(self).start, old(self).end),
            final(self).start == old(self).start,
            final(self).end == old(self).end,
            old(self).wf() ==> final(self).wf() && old(self).start <= port && port as int + 1
                <= old(self).end as int && (port - old(self).start) % 2 == 0,
    {
        let port = self.next;
        if (port as u32) + 3 <= (self.end as u32) {
            self.next = port + 2;
        } else {
            self.next = self.start;
        }
        port
    }
}

/// A request for a media session for a call.
pub struct AllocateSessionRequest {
    pub call_id: String,
}

/// The session allocated: its id, where it listens, and success.
pub struct AllocateSessionResponse {
    pub session_id: String,
    pub local_ip: String,
    pub local_port: u32,
    pub success: bool,
}

pub struct ReleaseSessionRequest {
    pub session_id: String,
}

pub struct ReleaseSessionResponse {
    pub success: bool,
}

pub struct StartRecordingRequest {
    pub session_id: String,
    pub format: String,
    pub file_path: String,
}

pub struct StartRecordingResponse {
    pub success: bool,
    pub message: String,
}

/// The id of the media session of a call: `sess-` and the call id.
pub open spec fn session_id_text(call_id: Seq<char>) -> Seq<char> {
    seq!['s', 'e', 's', 's', '-'] + call_id
}

pub fn session_id_for(call_id: &str) -> (r: String)
    ensures
        r@ == session_id_text(call_id@),
{
    let mut v = vec!['s', 'e', 's', 's', '-'];
    push_all(&mut v, &str_chars(call_id));
    assert(v@ =~= session_id_text(call_id@));
    chars_to_string(&v)
}

/// The answer once a session is bound on `port`.
pub fn allocation_response(session_id: String, bind_ip: &String, port: u16) -> (r: AllocateSessionResponse)
    ensures
        r.session_id == session_id,
        r.local_ip@ == bind_ip@,
        r.local_port == port as u32,
        r.success,
{
    AllocateSessionResponse { session_id, local_ip: bind_ip.clone(), local_port: port as u32, success: true }
}

/// The answer to a release: success when the session existed.
pub fn release_response(removed: bool) -> (r: ReleaseSessionResponse)
    ensures
        r.success == removed,
{
    ReleaseSessionResponse { success: removed }
}

pub open spec fn recording_message(path: Seq<char>) -> Seq<char> {
    "Recording started at "@ + path
}

/// The answer to a recording request: success, and where it is written.
pub fn start_recording(req: &StartRecordingRequest) -> (r: StartRecordingResponse)
    ensures
        r.success,
        r.message@ == recording_message(req.file_path@),
{
    let mut v = str_chars("Recording started at ");
    push_all(&mut v, &str_chars(req.file_path.as_str()));
    StartRecordingResponse { success: true, message: chars_to_string(&v) }
}

} // verus!
