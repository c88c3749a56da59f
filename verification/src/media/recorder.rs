//! Call recording.

use vstd::prelude::*;

verus! {

/// The format a recording is written in.
#[derive(Debug, Clone, Copy, PartialEq, Eq, Structural)]
pub enum AudioFormat {
    Wav,
    Opus,
    Mp3,
    Gsm,
}

/// A recorder for one media session.
pub struct AudioRecorder {
    pub session_id: String,
    pub format: AudioFormat,
    pub output_path: String,
}

impl AudioRecorder {
    pub fn new(session_id: String, format: AudioFormat, output_path: String) -> (r: AudioRecorder)
        ensures
            r.session_id == session_id,
            r.format == format,
            r.output_path == output_path,
    {
        AudioRecorder { session_id, format, output_path }
    }
}

} // verus!
