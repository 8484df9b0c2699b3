//! Recording sessions: the single active capture, job identifiers, the
//! microphone capture command and the checks made when a capture ends.
use vstd::prelude::*;
use vstd::string::StringExecFns;
use crate::text::{
    blank, contains, decimal, decimal_text, has_char, has_infix, is_blank,
    is_white_space, lemma_blank_iff_white, lemma_decimal_digits, spec_to_lowercase, spec_trim,
    to_lowercase, trim,
};

verus! {

/// A capture shorter than this many milliseconds is padded before it is
/// stopped.
pub const MIN_CAPTURE_MILLIS: u64 = 650;

/// Name of the capture file inside a job directory.
pub const RAW_CAPTURE_FILE: &'static str = "raw.wav";

/// MIME type of the native capture.
pub const CAPTURE_MIME_TYPE: &'static str = "audio/wav";

/// Largest WAV file, in bytes, that holds no audio (a bare header).
pub const EMPTY_WAV_MAX_BYTES: u64 = 44;

/// Refusal when a recording is started while one is active.
pub const ALREADY_RECORDING: &'static str = "A recording session is already active.";

/// Refusal when a recording is stopped while none is active.
pub const NOT_RECORDING: &'static str = "No recording session is active.";

/// Error when a capture ended without audio.
pub const NO_AUDIO_CAPTURED: &'static str =
    "No microphone audio was captured. Record for a bit longer and try again.";

/// Error when the capture process failed without saying why.
pub const CAPTURE_FINALIZE_FAILED: &'static str = "Unable to finalize the microphone recording.";

/// Prefix of the error when the capture process failed and said why.
pub const CAPTURE_FINALIZE_FAILED_PREFIX: &'static str =
    "Unable to finalize the microphone recording: ";

/// Error when an uploaded recording holds no bytes.
pub const NO_AUDIO_PAYLOAD: &'static str = "No audio payload was provided.";

/// Refusal to delete a job whose identifier could name another place.
pub const INVALID_JOB_ID: &'static str = "Refusing to delete an invalid job identifier.";

/// A recording in progress: its job and a handle on the capture (the process
/// and the time it started), which the library only carries.
#[derive(Debug)]
pub struct RecordingSession<H> {
    pub job_id: String,
    pub job_dir: String,
    pub raw_path: String,
    pub handle: H,
}

/// The place for the one recording that may be active.
pub struct RecordingSlot<H> {
    session: Option<RecordingSession<H>>,
}

/// The slot after a session is offered to it: an idle slot takes it, an
/// occupied one keeps its session.
pub open spec fn spec_install<H>(current: Option<RecordingSession<H>>, s: RecordingSession<H>) -> Option<
    RecordingSession<H>,
> {
    if current is None {
        Some(s)
    } else {
        current
    }
}

/// What stopping gives: the active session, or the refusal when there is
/// none.
pub open spec fn spec_stop<H>(current: Option<RecordingSession<H>>) -> Result<
    RecordingSession<H>,
    Seq<char>,
> {
    match current {
        Some(s) => Ok(s),
        None => Err(NOT_RECORDING@),
    }
}

impl<H> RecordingSlot<H> {
    /// The active session, if any.
    pub closed spec fn current(&self) -> Option<RecordingSession<H>> {
        self.session
    }

    /// An idle slot.
    pub fn new() -> (r: RecordingSlot<H>)
        ensures
            r.current() is None,
    {
        RecordingSlot { session: None }
    }

    /// Whether a recording is active.
    pub fn is_active(&self) -> (r: bool)
        ensures
            r == self.current() is Some,
    {
        self.session.is_some()
    }

    /// Refuses while a recording is active.
    pub fn ensure_idle(&self) -> (r: Result<(), String>)
        ensures
            r is Ok <==> self.current() is None,
            r matches Err(m) ==> m@ == ALREADY_RECORDING@,
    {
        if self.session.is_some() {
            Err(String::from_str(ALREADY_RECORDING))
        } else {
            Ok(())
        }
    }

    /// Makes `s` the active session if the slot is idle; an occupied slot
    /// hands `s` back untouched.
    pub fn install(&mut self, s: RecordingSession<H>) -> (r: Result<(), RecordingSession<H>>)
        ensures
            final(self).current() == spec_install(old(self).current(), s),
            r is Ok <==> old(self).current() is None,
            r matches Err(back) ==> back == s,
    {
        if self.session.is_some() {
            Err(s)
        } else {
            self.session = Some(s);
            Ok(())
        }
    }

    /// Ends the active recording and hands its session over, or refuses when
    /// none is active. The slot is idle afterwards.
    pub fn stop(&mut self) -> (r: Result<RecordingSession<H>, String>)
        ensures
            final(self).current() is None,
            match (r, spec_stop(old(self).current())) {
                (Ok(s), Ok(t)) => s == t,
                (Err(m), Err(t)) => m@ == t,
                _ => false,
            },
    {
        match self.session.take() {
            Some(s) => Ok(s),
            None => Err(String::from_str(NOT_RECORDING)),
        }
    }

    /// Takes the active session, if any, leaving the slot idle (cancelling
    /// and shutting down).
    pub fn take(&mut self) -> (r: Option<RecordingSession<H>>)
        ensures
            final(self).current() is None,
            r == old(self).current(),
    {
        self.session.take()
    }
}

/// A session offered to an idle slot is the one that stopping hands back,
/// and the slot is idle again.
pub proof fn lemma_stop_returns_installed<H>(s: RecordingSession<H>)
    ensures
        spec_install(None, s) == Some(s),
        spec_stop(spec_install(None, s)) == Ok::<RecordingSession<H>, Seq<char>>(s),
{
}

/// At most one recording is active: offering a session to an occupied slot
/// leaves the active one in place.
pub proof fn lemma_single_session<H>(current: Option<RecordingSession<H>>, s: RecordingSession<H>)
    requires
        current is Some,
    ensures
        spec_install(current, s) == current,
{
}

/// Stopping an idle slot is refused.
pub proof fn lemma_stop_idle_refused<H>()
    ensures
        spec_stop::<H>(None) == Err::<RecordingSession<H>, Seq<char>>(NOT_RECORDING@),
{
}

/// The identifier of a job started at `now_millis` (milliseconds since the
/// Unix epoch) by process `pid`.
pub open spec fn spec_job_id(now_millis: nat, pid: nat) -> Seq<char> {
    "job-"@ + decimal(now_millis) + "-"@ + decimal(pid)
}

/// Names a new job after the current time and the process.
pub fn make_job_id(now_millis: u128, pid: u32) -> (r: String)
    ensures
        r@ == spec_job_id(now_millis as nat, pid as nat),
{
    let mut s = String::from_str("job-");
    let t = decimal_text(now_millis);
    s.append(t.as_str());
    s.append("-");
    let p = decimal_text(pid as u128);
    s.append(p.as_str());
    s
}

/// A job identifier that cannot leave the temporary root: not blank, and
/// without path separators.
pub open spec fn spec_valid_job_id(id: Seq<char>) -> bool {
    !is_blank(id) && !id.contains('/') && !id.contains('\\')
}

/// Refuses a job identifier that is blank or holds a path separator.
pub fn validate_job_id(job_id: &str) -> (r: Result<(), String>)
    ensures
        r is Ok <==> spec_valid_job_id(job_id@),
        r matches Err(m) ==> m@ == INVALID_JOB_ID@,
{
    if blank(job_id) || has_char(job_id, '/') || has_char(job_id, '\\') {
        Err(String::from_str(INVALID_JOB_ID))
    } else {
        Ok(())
    }
}

/// Every identifier that `make_job_id` gives passes the check that guards
/// deletion.
pub proof fn lemma_job_ids_are_valid(now_millis: nat, pid: nat)
    ensures
        spec_valid_job_id(spec_job_id(now_millis, pid)),
{
    reveal_strlit("job-");
    reveal_strlit("-");
    let a = decimal(now_millis);
    let b = decimal(pid);
    lemma_decimal_digits(now_millis);
    lemma_decimal_digits(pid);
    let id = spec_job_id(now_millis, pid);
    assert(id[0] == 'j');
    lemma_blank_iff_white(id);
    assert(!is_white_space(id[0]));
    assert forall|i: int| 0 <= i < id.len() implies id[i] != '/' && id[i] != '\\' by {
        if i < 4 {
            assert(id[i] == "job-"@[i]);
        } else if i < 4 + a.len() {
            assert(id[i] == a[i - 4]);
        } else if i == 4 + a.len() {
        } else {
            assert(id[i] == b[i - 5 - a.len()]);
        }
    }
}

/// How long to wait before stopping a capture that has run for
/// `elapsed_nanos` nanoseconds.
pub open spec fn spec_capture_padding(elapsed_nanos: u64) -> int {
    if elapsed_nanos < MIN_CAPTURE_MILLIS * 1_000_000 {
        MIN_CAPTURE_MILLIS * 1_000_000 - elapsed_nanos
    } else {
        0
    }
}

/// Nanoseconds to wait before stopping a capture that has run for
/// `elapsed_nanos`, so that every capture lasts the minimum.
pub fn capture_padding_nanos(elapsed_nanos: u64) -> (r: u64)
    ensures
        r == spec_capture_padding(elapsed_nanos),
{
    let min_nanos: u64 = MIN_CAPTURE_MILLIS * 1_000_000;
    if elapsed_nanos < min_nanos {
        min_nanos - elapsed_nanos
    } else {
        0
    }
}

/// Every capture, padded, lasts at least the minimum, and a capture that
/// already lasted it is not padded.
pub proof fn lemma_padding_reaches_minimum(elapsed_nanos: u64)
    ensures
        elapsed_nanos + spec_capture_padding(elapsed_nanos) >= MIN_CAPTURE_MILLIS * 1_000_000,
        elapsed_nanos >= MIN_CAPTURE_MILLIS * 1_000_000 ==> spec_capture_padding(elapsed_nanos)
            == 0,
{
}

/// Whether the capture process's error output says that nothing was
/// recorded.
pub open spec fn spec_is_empty_capture_error(stderr: Seq<char>) -> bool {
    let lowered = spec_to_lowercase(stderr);
    has_infix(lowered, "nothing was written into output file"@) || has_infix(
        lowered,
        "received no packets"@,
    ) || has_infix(lowered, "output file is empty"@)
}

/// Whether the capture process's error output says that nothing was
/// recorded.
pub fn is_empty_capture_error(stderr: &str) -> (r: bool)
    ensures
        r == spec_is_empty_capture_error(stderr@),
{
    let normalized = to_lowercase(stderr);
    contains(normalized.as_str(), "nothing was written into output file") || contains(
        normalized.as_str(),
        "received no packets",
    ) || contains(normalized.as_str(), "output file is empty")
}

/// Whether a capture file of the given length (`None` when it cannot be
/// inspected) holds no audio.
pub fn looks_like_empty_wav(file_len: Option<u64>) -> (r: bool)
    ensures
        r == match file_len {
            Some(n) => n <= EMPTY_WAV_MAX_BYTES,
            None => true,
        },
{
    match file_len {
        Some(n) => n <= EMPTY_WAV_MAX_BYTES,
        None => true,
    }
}

/// The error reported when the capture process failed, given its error
/// output.
pub open spec fn spec_capture_failure(stderr_raw: Seq<char>) -> Seq<char> {
    let stderr = spec_trim(stderr_raw);
    if spec_is_empty_capture_error(stderr) {
        NO_AUDIO_CAPTURED@
    } else if stderr.len() == 0 {
        CAPTURE_FINALIZE_FAILED@
    } else {
        CAPTURE_FINALIZE_FAILED_PREFIX@ + stderr
    }
}

/// Judges a finished capture: a failed capture process gives the error of
/// `spec_capture_failure`; a capture file that holds no audio gives
/// `NO_AUDIO_CAPTURED`; otherwise the capture may be transcribed.
pub fn check_capture(exit_ok: bool, stderr_raw: &str, wav_len: Option<u64>) -> (r: Result<
    (),
    String,
>)
    ensures
        !exit_ok ==> (r matches Err(m) && m@ == spec_capture_failure(stderr_raw@)),
        exit_ok ==> (r is Ok <==> !match wav_len {
            Some(n) => n <= EMPTY_WAV_MAX_BYTES,
            None => true,
        }),
        exit_ok ==> (r matches Err(m) ==> m@ == NO_AUDIO_CAPTURED@),
{
    if !exit_ok {
        let stderr = trim(stderr_raw);
        if is_empty_capture_error(stderr.as_str()) {
            return Err(String::from_str(NO_AUDIO_CAPTURED));
        } else if stderr.as_str().is_empty() {
            return Err(String::from_str(CAPTURE_FINALIZE_FAILED));
        } else {
            let mut m = String::from_str(CAPTURE_FINALIZE_FAILED_PREFIX);
            m.append(stderr.as_str());
            return Err(m);
        }
    }
    if looks_like_empty_wav(wav_len) {
        return Err(String::from_str(NO_AUDIO_CAPTURED));
    }
    Ok(())
}

/// Refuses an uploaded recording that holds no bytes.
pub fn check_audio_payload(len: usize) -> (r: Result<(), String>)
    ensures
        r is Ok <==> len > 0,
        r matches Err(m) ==> m@ == NO_AUDIO_PAYLOAD@,
{
    if len == 0 {
        Err(String::from_str(NO_AUDIO_PAYLOAD))
    } else {
        Ok(())
    }
}

/// The file extension for an uploaded recording of a MIME type.
pub open spec fn spec_extension_for_mime(mime: Seq<char>) -> Seq<char> {
    if has_infix(mime, "ogg"@) {
        "ogg"@
    } else if has_infix(mime, "wav"@) {
        "wav"@
    } else if has_infix(mime, "mp4"@) || has_infix(mime, "m4a"@) {
        "m4a"@
    } else {
        "webm"@
    }
}

/// The file extension for an uploaded recording of a MIME type.
pub fn extension_for_mime(mime_type: &str) -> (r: &'static str)
    ensures
        r@ == spec_extension_for_mime(mime_type@),
{
    if contains(mime_type, "ogg") {
        "ogg"
    } else if contains(mime_type, "wav") {
        "wav"
    } else if contains(mime_type, "mp4") || contains(mime_type, "m4a") {
        "m4a"
    } else {
        "webm"
    }
}

/// An upload is stored as `ogg` only when its MIME type mentions `ogg`, as
/// `wav` only when it mentions `wav` and not `ogg`, as `m4a` only when it
/// mentions `mp4` or `m4a` and neither of the others; a type that mentions
/// none of them is stored as `webm`.
pub proof fn lemma_extension_choice(mime: Seq<char>)
    ensures
        ({
            let e = spec_extension_for_mime(mime);
            let ogg = has_infix(mime, seq!['o', 'g', 'g']);
            let wav = has_infix(mime, seq!['w', 'a', 'v']);
            let mp4 = has_infix(mime, seq!['m', 'p', '4']) || has_infix(mime, seq!['m', '4', 'a']);
            &&& e == seq!['o', 'g', 'g'] <==> ogg
            &&& e == seq!['w', 'a', 'v'] <==> !ogg && wav
            &&& e == seq!['m', '4', 'a'] <==> !ogg && !wav && mp4
            &&& e == seq!['w', 'e', 'b', 'm'] <==> !ogg && !wav && !mp4
        }),
{
    reveal_strlit("ogg");
    reveal_strlit("wav");
    reveal_strlit("mp4");
    reveal_strlit("m4a");
    reveal_strlit("webm");
    assert("ogg"@ =~= seq!['o', 'g', 'g']);
    assert("wav"@ =~= seq!['w', 'a', 'v']);
    assert("mp4"@ =~= seq!['m', 'p', '4']);
    assert("m4a"@ =~= seq!['m', '4', 'a']);
    assert("webm"@ =~= seq!['w', 'e', 'b', 'm']);
}

/// The name of the file that an uploaded recording is written to.
pub fn raw_file_name(mime_type: &str) -> (r: String)
    ensures
        r@ == "raw."@ + spec_extension_for_mime(mime_type@),
{
    let mut s = String::from_str("raw.");
    s.append(extension_for_mime(mime_type));
    s
}

/// The views of a list of strings.
pub open spec fn views(v: Seq<String>) -> Seq<Seq<char>> {
    v.map_values(|s: String| s@)
}

/// Arguments of the capture process: the default PulseAudio source, mono,
/// 16 kHz, 16-bit PCM, written to `raw_path`.
pub open spec fn spec_ffmpeg_capture_args(raw_path: Seq<char>) -> Seq<Seq<char>> {
    seq![
        "-hide_banner"@,
        "-loglevel"@,
        "error"@,
        "-y"@,
        "-f"@,
        "pulse"@,
        "-i"@,
        "default"@,
        "-ac"@,
        "1"@,
        "-ar"@,
        "16000"@,
        "-c:a"@,
        "pcm_s16le"@,
        raw_path,
    ]
}

/// Arguments of the capture process that records the microphone into
/// `raw_path`.
pub fn ffmpeg_capture_args(raw_path: &str) -> (r: Vec<String>)
    ensures
        views(r@) == spec_ffmpeg_capture_args(raw_path@),
{
    let mut v: Vec<String> = Vec::new();
    v.push(String::from_str("-hide_banner"));
    v.push(String::from_str("-loglevel"));
    v.push(String::from_str("error"));
    v.push(String::from_str("-y"));
    v.push(String::from_str("-f"));
    v.push(String::from_str("pulse"));
    v.push(String::from_str("-i"));
    v.push(String::from_str("default"));
    v.push(String::from_str("-ac"));
    v.push(String::from_str("1"));
    v.push(String::from_str("-ar"));
    v.push(String::from_str("16000"));
    v.push(String::from_str("-c:a"));
    v.push(String::from_str("pcm_s16le"));
    v.push(raw_path.to_owned());
    assert(views(v@) =~= spec_ffmpeg_capture_args(raw_path@));
    v
}

} // verus!
