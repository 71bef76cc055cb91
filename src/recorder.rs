//! Screen recording: the recording session's state, the encoder's arguments,
//! and the payloads that report and upload a recording. Spawning and
//! signalling the encoder, file access and pacing are the caller's.

use vstd::prelude::*;
use crate::clock::now_millis;
use base64::Engine;
use crate::json::{JsonValue, keys_of, values_of, opt_views};
use crate::events::{key, num, unsigned};
use crate::events::{CommandPayload, CommandReply, reply_of, reply_reports, result_views};
use crate::text::{same_text, chars_of, string_of, push_str, push_decimal, decimal, sub_chars, index_of, find_char};

verus! {

/// Characters of base64 text per uploaded chunk.
pub const CHUNK_SIZE: usize = 1048576;

/// A week, in milliseconds: recordings older than this are deleted.
pub const MAX_AGE_MS: u64 = 604800000;

/// A recording in progress.
#[derive(Debug)]
pub struct RecordingSession {
    pub id: String,
    pub start_time: u64,
    pub output_path: String,
    pub is_recording: bool,
}

/// The recorder's state.
#[derive(Debug)]
pub struct ScreenRecorder {
    pub session: Option<RecordingSession>,
    pub ffmpeg_process: Option<u32>,
    pub recordings_dir: String,
}

/// What starting a recording asks the caller to do: run the encoder with `args`.
#[derive(Debug)]
pub struct RecordingPlan {
    pub id: String,
    pub output_path: String,
    pub args: Vec<String>,
}

/// What stopping a recording leaves: the encoder to signal, and what to report.
#[derive(Debug)]
pub struct StoppedRecording {
    pub id: String,
    pub output_path: String,
    pub duration_secs: u64,
    pub pid: Option<u32>,
}

/// What base64 (standard alphabet, padded) makes of some bytes.
pub uninterp spec fn base64_of(data: Seq<u8>) -> Seq<char>;

/// Relies on base64's `STANDARD` engine `encode`: padded standard base64, four
/// characters for every three bytes or part of them.
#[verifier::external_body]
fn encode_base64(data: &Vec<u8>) -> (r: String)
    ensures
        r@ == base64_of(data@),
        r@.len() == 4 * ((data@.len() + 2) / 3),
{
    base64::engine::general_purpose::STANDARD.encode(data)
}

/// A lowercase hexadecimal digit.
pub open spec fn hex_digit(c: char) -> bool {
    ('0' as u32 <= c as u32 && c as u32 <= '9' as u32) || ('a' as u32 <= c as u32 && c as u32 <= 'f' as u32)
}

/// Eight lowercase hexadecimal digits.
pub open spec fn hex8(h: Seq<char>) -> bool {
    h.len() == 8 && forall|i: int| 0 <= i < 8 ==> hex_digit(#[trigger] h[i])
}

/// Relies on `uuid::Uuid::new_v4` and its hyphenated `Display`: a random
/// identifier written as 36 characters, 8-4-4-4-12 lowercase hex digits.
#[verifier::external_body]
fn new_uuid() -> (r: String)
    ensures
        r@.len() == 36,
        hex8(r@.subrange(0, 8)),
        r@[8] == '-',
{
    uuid::Uuid::new_v4().to_string()
}

/// Relies on `std::path::Path::join`: `name` placed inside directory `dir`.
#[verifier::external_body]
fn join_path(dir: &str, name: &str) -> String {
    std::path::Path::new(dir).join(name).to_string_lossy().to_string()
}

/// The text before the first `-`, or all of it.
pub open spec fn first_segment(s: Seq<char>) -> Seq<char> {
    match index_of(s, '-') {
        Some(i) => if 0 <= i <= s.len() { s.subrange(0, i) } else { s },
        None => s,
    }
}

fn first_segment_of(s: &String) -> (r: Vec<char>)
    ensures
        r@ == first_segment(s@),
{
    let v = chars_of(s.as_str());
    match find_char(&v, 0, '-') {
        Some(i) => {
            assert(v@.subrange(0, v@.len() as int) =~= v@);
            sub_chars(&v, 0, i)
        },
        None => {
            assert(v@.subrange(0, v@.len() as int) =~= v@);
            v
        },
    }
}

/// The id of a recording started at `millis`: `rec_<millis>_<hex>`, where `hex`
/// is the first group of a uuid.
pub open spec fn recording_id(millis: u64, hex: Seq<char>) -> Seq<char> {
    "rec_"@ + decimal(millis as nat) + "_"@ + hex
}

/// Whole seconds from `start` to `now`, zero if `now` is earlier.
pub open spec fn elapsed(start: u64, now: u64) -> u64 {
    if now >= start { ((now - start) / 1000) as u64 } else { 0 }
}

pub fn elapsed_secs(start: u64, now: u64) -> (r: u64)
    ensures
        r == elapsed(start, now),
{
    if now >= start { (now - start) / 1000 } else { 0 }
}

/// The encoder arguments: overwrite, the platform's capture input, then H.264
/// output at 15 frames per second to `output`.
pub open spec fn ffmpeg_args_of(input: Seq<Seq<char>>, output: Seq<char>) -> Seq<Seq<char>> {
    seq!["-y"@] + input + seq!["-c:v"@, "libx264"@, "-preset"@, "ultrafast"@, "-crf"@, "28"@, "-pix_fmt"@,
        "yuv420p"@, "-r"@, "15"@, output]
}

pub fn ffmpeg_args(input: &Vec<String>, output: &String) -> (r: Vec<String>)
    ensures
        r@.map_values(|s: String| s@) == ffmpeg_args_of(input@.map_values(|s: String| s@), output@),
{
    let mut out: Vec<String> = Vec::new();
    out.push(string_of(&chars_of("-y")));
    let mut i: usize = 0;
    while i < input.len()
        invariant
            0 <= i <= input@.len(),
            out@.map_values(|s: String| s@) == seq!["-y"@] + input@.subrange(0, i as int).map_values(|s: String| s@),
        decreases input.len() - i,
    {
        let ghost before = out@;
        out.push(input[i].clone());
        assert(out@.map_values(|s: String| s@) =~= before.map_values(|s: String| s@).push(input@[i as int]@));
        assert(input@.subrange(0, i + 1).map_values(|s: String| s@)
            =~= input@.subrange(0, i as int).map_values(|s: String| s@).push(input@[i as int]@));
        i = i + 1;
    }
    assert(input@.subrange(0, input@.len() as int) =~= input@);
    let tail = vec!["-c:v", "libx264", "-preset", "ultrafast", "-crf", "28", "-pix_fmt", "yuv420p", "-r", "15"];
    let ghost mid = out@.map_values(|s: String| s@);
    let mut j: usize = 0;
    while j < tail.len()
        invariant
            0 <= j <= tail@.len(),
            out@.map_values(|s: String| s@) == mid + tail@.subrange(0, j as int).map_values(|s: &str| s@),
        decreases tail.len() - j,
    {
        let ghost before = out@;
        out.push(string_of(&chars_of(tail[j])));
        assert(out@.map_values(|s: String| s@) =~= before.map_values(|s: String| s@).push(tail@[j as int]@));
        assert(tail@.subrange(0, j + 1).map_values(|s: &str| s@)
            =~= tail@.subrange(0, j as int).map_values(|s: &str| s@).push(tail@[j as int]@));
        j = j + 1;
    }
    let ghost before = out@;
    out.push(output.clone());
    assert(out@.map_values(|s: String| s@) =~= before.map_values(|s: String| s@).push(output@));
    assert(tail@.subrange(0, tail@.len() as int).map_values(|s: &str| s@)
        =~= seq!["-c:v"@, "libx264"@, "-preset"@, "ultrafast"@, "-crf"@, "28"@, "-pix_fmt"@, "yuv420p"@, "-r"@, "15"@]);
    assert(out@.map_values(|s: String| s@) =~= ffmpeg_args_of(input@.map_values(|s: String| s@), output@));
    out
}

/// The platform the encoder captures on.
#[derive(Clone, Copy, Debug, PartialEq, Eq, Structural)]
pub enum Platform {
    MacOs,
    Windows,
    Linux,
    Other,
}

/// The encoder's capture input for a platform; on Linux, the X display named by
/// `display`, `:0` when none is named.
pub open spec fn capture_input_of(p: Platform, display: Option<Seq<char>>) -> Seq<Seq<char>> {
    match p {
        Platform::MacOs => seq!["-f"@, "avfoundation"@, "-capture_cursor"@, "1"@, "-i"@, "1:none"@],
        Platform::Windows => seq!["-f"@, "gdigrab"@, "-framerate"@, "15"@, "-i"@, "desktop"@],
        Platform::Linux => seq!["-f"@, "x11grab"@, "-framerate"@, "15"@, "-i"@, match display {
            Some(d) => d,
            None => ":0"@,
        }],
        Platform::Other => Seq::empty(),
    }
}

fn owned(args: Vec<&str>) -> (r: Vec<String>)
    ensures
        r@.map_values(|s: String| s@) == args@.map_values(|s: &str| s@),
{
    let mut out: Vec<String> = Vec::new();
    let mut i: usize = 0;
    while i < args.len()
        invariant
            0 <= i <= args@.len(),
            out@.map_values(|s: String| s@) == args@.subrange(0, i as int).map_values(|s: &str| s@),
        decreases args.len() - i,
    {
        let ghost before = out@;
        out.push(string_of(&chars_of(args[i])));
        assert(out@.map_values(|s: String| s@) =~= before.map_values(|s: String| s@).push(args@[i as int]@));
        assert(args@.subrange(0, i + 1).map_values(|s: &str| s@)
            =~= args@.subrange(0, i as int).map_values(|s: &str| s@).push(args@[i as int]@));
        i = i + 1;
    }
    assert(args@.subrange(0, args@.len() as int) =~= args@);
    out
}

pub fn capture_input(p: Platform, display: Option<String>) -> (r: Vec<String>)
    ensures
        r@.map_values(|s: String| s@) == capture_input_of(p, opt_views(display)),
{
    match p {
        Platform::MacOs => {
            let r = owned(vec!["-f", "avfoundation", "-capture_cursor", "1", "-i", "1:none"]);
            assert(r@.map_values(|s: String| s@) =~= capture_input_of(p, opt_views(display)));
            r
        },
        Platform::Windows => {
            let r = owned(vec!["-f", "gdigrab", "-framerate", "15", "-i", "desktop"]);
            assert(r@.map_values(|s: String| s@) =~= capture_input_of(p, opt_views(display)));
            r
        },
        Platform::Linux => {
            let mut r = owned(vec!["-f", "x11grab", "-framerate", "15", "-i"]);
            let ghost before = r@;
            let d = match display {
                Some(d) => d,
                None => string_of(&chars_of(":0")),
            };
            r.push(d);
            assert(r@.map_values(|s: String| s@) =~= before.map_values(|s: String| s@).push(d@));
            assert(r@.map_values(|s: String| s@) =~= capture_input_of(p, opt_views(display)));
            r
        },
        Platform::Other => {
            let r: Vec<String> = Vec::new();
            assert(r@.map_values(|s: String| s@) =~= capture_input_of(p, opt_views(display)));
            r
        },
    }
}

/// Whether a recording last modified at `modified_ms` is more than a week old at `now_ms`.
pub fn is_expired(modified_ms: u64, now_ms: u64) -> (r: bool)
    ensures
        r == ((modified_ms as int) < (now_ms as int) - (MAX_AGE_MS as int)),
{
    let cutoff = now_ms.saturating_sub(MAX_AGE_MS);
    modified_ms < cutoff
}

/// The number of chunks that text of `len` characters is uploaded in.
pub open spec fn chunk_count(len: nat) -> nat {
    ((len + CHUNK_SIZE - 1) / (CHUNK_SIZE as int)) as nat
}

/// One chunk of an upload.
pub open spec fn chunk_json(j: JsonValue, id: Seq<char>, chunk: Seq<char>, index: nat, total: nat) -> bool {
    &&& keys_of(j) == seq!["recordingId"@, "chunk"@, "chunkIndex"@, "totalChunks"@]
    &&& values_of(j).len() == 4
    &&& values_of(j)[0] is Str && values_of(j)[0]->Str_0@ == id
    &&& values_of(j)[1] is Str && values_of(j)[1]->Str_0@ == chunk
    &&& values_of(j)[2] == num(index as u64)
    &&& values_of(j)[3] == num(total as u64)
}

/// The chunk payloads that upload the recording `data`: its base64 text cut into
/// pieces of `CHUNK_SIZE` characters (the last one shorter), in order.
pub fn recording_chunks(recording_id: &String, data: &Vec<u8>) -> (r: Vec<JsonValue>)
    requires
        4 * ((data@.len() + 2) / 3) + CHUNK_SIZE <= usize::MAX,
    ensures
        r@.len() == chunk_count(base64_of(data@).len()),
        forall|i: int| 0 <= i < r@.len() ==> chunk_json(#[trigger] r@[i], recording_id@,
            base64_of(data@).subrange(i * CHUNK_SIZE, if (i + 1) * CHUNK_SIZE <= base64_of(data@).len() {
                (i + 1) * CHUNK_SIZE
            } else {
                base64_of(data@).len() as int
            }), i as nat, chunk_count(base64_of(data@).len())),
{
    let text = encode_base64(data);
    let v = chars_of(text.as_str());
    let len = v.len();
    let total = (len + CHUNK_SIZE - 1) / CHUNK_SIZE;
    let mut out: Vec<JsonValue> = Vec::new();
    let mut i: usize = 0;
    while i < total
        invariant
            v@ == base64_of(data@),
            len == v@.len(),
            len + CHUNK_SIZE <= usize::MAX,
            total == chunk_count(len as nat),
            0 <= i <= total,
            out@.len() == i,
            forall|k: int| 0 <= k < i ==> chunk_json(#[trigger] out@[k], recording_id@,
                v@.subrange(k * CHUNK_SIZE, if (k + 1) * CHUNK_SIZE <= len { (k + 1) * CHUNK_SIZE } else { len as int }),
                k as nat, total as nat),
        decreases total - i,
    {
        assert(i * CHUNK_SIZE < len) by (nonlinear_arith)
            requires
                i < total,
                total == (len + CHUNK_SIZE - 1) / (CHUNK_SIZE as int),
        ;
        let start = i * CHUNK_SIZE;
        let end = if len - start >= CHUNK_SIZE { start + CHUNK_SIZE } else { len };
        let piece = string_of(&sub_chars(&v, start, end));
        let j = JsonValue::Object(vec![
            (key("recordingId"), JsonValue::Str(recording_id.clone())),
            (key("chunk"), JsonValue::Str(piece)),
            (key("chunkIndex"), unsigned(i as u64)),
            (key("totalChunks"), unsigned(total as u64)),
        ]);
        assert(keys_of(j) =~= seq!["recordingId"@, "chunk"@, "chunkIndex"@, "totalChunks"@]);
        out.push(j);
        i = i + 1;
    }
    out
}

impl ScreenRecorder {
    /// A recorder that keeps its recordings in `recordings_dir`.
    pub fn new(recordings_dir: String) -> (r: ScreenRecorder)
        ensures
            r.session is None,
            r.ffmpeg_process is None,
            r.recordings_dir == recordings_dir,
    {
        ScreenRecorder { session: None, ffmpeg_process: None, recordings_dir }
    }

    /// Whether a recording is in progress.
    pub fn is_recording(&self) -> (r: bool)
        ensures
            r == (self.session is Some && self.session->0.is_recording),
    {
        match &self.session {
            Some(s) => s.is_recording,
            None => false,
        }
    }

    /// First part of starting a recording: refuses while one is in progress or
    /// when the encoder is missing; otherwise names the recording and gives the
    /// encoder's arguments, `input` being the platform's capture arguments.
    pub fn start_recording(&self, ffmpeg_available: bool, input: &Vec<String>) -> (r: Result<RecordingPlan, String>)
        ensures
            (self.session is Some && self.session->0.is_recording) ==> r is Err
                && r->Err_0@ == "Recording already in progress"@,
            !(self.session is Some && self.session->0.is_recording) && !ffmpeg_available ==> r is Err
                && r->Err_0@ == "FFmpeg not found. Please install FFmpeg to enable screen recording."@,
            !(self.session is Some && self.session->0.is_recording) && ffmpeg_available ==> r is Ok
                && (exists|ms: u64, h: Seq<char>| hex8(h) && r->Ok_0.id@ == #[trigger] recording_id(ms, h))
                && r->Ok_0.args@.map_values(|s: String| s@) == ffmpeg_args_of(input@.map_values(|s: String| s@), r->Ok_0.output_path@),
    {
        if self.is_recording() {
            return Err(string_of(&chars_of("Recording already in progress")));
        }
        if !ffmpeg_available {
            return Err(string_of(&chars_of("FFmpeg not found. Please install FFmpeg to enable screen recording.")));
        }
        let ms = now_millis();
        let u = new_uuid();
        let mut id = chars_of("rec_");
        push_decimal(&mut id, ms);
        push_str(&mut id, "_");
        let seg = first_segment_of(&u);
        proof {
            assert forall|j: int| 0 <= j < 8 implies u@[j] != '-' by {
                assert(u@.subrange(0, 8)[j] == u@[j]);
                assert(hex_digit(u@.subrange(0, 8)[j]));
            }
            crate::text::lemma_index_of(u@, '-', 8);
        }
        let mut seg = seg;
        id.append(&mut seg);
        assert(id@ =~= recording_id(ms, u@.subrange(0, 8)));
        let id = string_of(&id);
        let mut file = chars_of(id.as_str());
        push_str(&mut file, ".mp4");
        let output_path = join_path(self.recordings_dir.as_str(), string_of(&file).as_str());
        let args = ffmpeg_args(input, &output_path);
        Ok(RecordingPlan { id, output_path, args })
    }

    /// Second part of starting a recording, given whether the encoder could be
    /// started (its pid) or not (the error's text): records the session and
    /// gives the recording's id, or fails with `Failed to start FFmpeg: <e>`
    /// and leaves the recorder as it was.
    pub fn encoder_started(&mut self, plan: RecordingPlan, start_time: u64, spawned: Result<u32, String>) -> (r: Result<String, String>)
        ensures
            match spawned {
                Ok(pid) => r is Ok && r->Ok_0 == plan.id && final(self).session is Some
                    && final(self).session->0.id == plan.id && final(self).session->0.start_time == start_time
                    && final(self).session->0.is_recording && final(self).ffmpeg_process == Some(pid),
                Err(e) => r is Err && r->Err_0@ == "Failed to start FFmpeg: "@ + e@
                    && final(self).session == old(self).session && final(self).ffmpeg_process == old(self).ffmpeg_process,
            },
            final(self).recordings_dir == old(self).recordings_dir,
    {
        match spawned {
            Ok(pid) => {
                let id = plan.id.clone();
                self.recording_started(plan, start_time, pid);
                Ok(id)
            },
            Err(e) => {
                let mut v = chars_of("Failed to start FFmpeg: ");
                push_str(&mut v, e.as_str());
                Err(string_of(&v))
            },
        }
    }

    /// The reply to a recorder command: the command's result text (the id, the
    /// stop report or the status), or its error.
    pub fn command_reply(outcome: Result<String, String>) -> (r: CommandReply)
        ensures
            reply_reports(r, result_views(outcome)),
    {
        reply_of(outcome)
    }

    /// Second part of starting a recording, once the encoder runs as `pid`.
    pub fn recording_started(&mut self, plan: RecordingPlan, start_time: u64, pid: u32)
        ensures
            final(self).session is Some,
            final(self).session->0.id == plan.id,
            final(self).session->0.output_path == plan.output_path,
            final(self).session->0.start_time == start_time,
            final(self).session->0.is_recording,
            final(self).ffmpeg_process == Some(pid),
            final(self).recordings_dir == old(self).recordings_dir,
    {
        self.session = Some(RecordingSession { id: plan.id, start_time, output_path: plan.output_path, is_recording: true });
        self.ffmpeg_process = Some(pid);
    }

    /// Ends the recording in progress at `now_ms`: the session is cleared and the
    /// encoder's pid handed back to be signalled; without one, fails.
    pub fn stop_recording(&mut self, now_ms: u64) -> (r: Result<StoppedRecording, String>)
        ensures
            !(old(self).session is Some && old(self).session->0.is_recording) ==> r is Err
                && r->Err_0@ == "No recording in progress"@ && final(self).session == old(self).session
                && final(self).ffmpeg_process == old(self).ffmpeg_process,
            (old(self).session is Some && old(self).session->0.is_recording) ==> r is Ok
                && r->Ok_0.id == old(self).session->0.id
                && r->Ok_0.output_path == old(self).session->0.output_path
                && r->Ok_0.duration_secs == elapsed(old(self).session->0.start_time, now_ms)
                && r->Ok_0.pid == old(self).ffmpeg_process
                && final(self).session is None && final(self).ffmpeg_process is None,
            final(self).recordings_dir == old(self).recordings_dir,
    {
        if !self.is_recording() {
            return Err(string_of(&chars_of("No recording in progress")));
        }
        let pid = self.ffmpeg_process.take();
        match self.session.take() {
            Some(s) => Ok(StoppedRecording {
                id: s.id,
                output_path: s.output_path,
                duration_secs: elapsed_secs(s.start_time, now_ms),
                pid,
            }),
            None => Err(string_of(&chars_of("No recording in progress"))),
        }
    }

    /// The recording status at `now_ms`: whether one is in progress, its id, and
    /// its whole seconds so far (null and 0 when idle).
    pub fn get_status(&self, now_ms: u64) -> (r: JsonValue)
        ensures
            keys_of(r) == seq!["isRecording"@, "recordingId"@, "duration"@],
            (self.session is Some && self.session->0.is_recording) ==> values_of(r) == seq![
                JsonValue::Bool(true), JsonValue::Str(self.session->0.id), num(elapsed(self.session->0.start_time, now_ms)),
            ],
            !(self.session is Some && self.session->0.is_recording) ==> values_of(r) == seq![
                JsonValue::Bool(false), JsonValue::Null, num(0),
            ],
    {
        match &self.session {
            Some(s) => if s.is_recording {
                let r = JsonValue::Object(vec![
                    (key("isRecording"), JsonValue::Bool(true)),
                    (key("recordingId"), JsonValue::Str(s.id.clone())),
                    (key("duration"), unsigned(elapsed_secs(s.start_time, now_ms))),
                ]);
                assert(keys_of(r) =~= seq!["isRecording"@, "recordingId"@, "duration"@]);
                assert(values_of(r) =~= seq![
                    JsonValue::Bool(true), JsonValue::Str(s.id), num(elapsed(s.start_time, now_ms)),
                ]);
                return r;
            },
            None => {},
        }
        let r = JsonValue::Object(vec![
            (key("isRecording"), JsonValue::Bool(false)),
            (key("recordingId"), JsonValue::Null),
            (key("duration"), unsigned(0)),
        ]);
        assert(keys_of(r) =~= seq!["isRecording"@, "recordingId"@, "duration"@]);
        assert(values_of(r) =~= seq![JsonValue::Bool(false), JsonValue::Null, num(0)]);
        r
    }

    /// The `recording_status` payload sent when a recording starts.
    pub fn started_json(id: &String) -> (r: JsonValue)
        ensures
            keys_of(r) == seq!["recordingId"@, "status"@],
            values_of(r)[0] == JsonValue::Str(*id),
            values_of(r)[1] is Str && values_of(r)[1]->Str_0@ == "RECORDING"@,
            values_of(r).len() == 2,
    {
        let r = JsonValue::Object(vec![
            (key("recordingId"), JsonValue::Str(id.clone())),
            (key("status"), JsonValue::Str(key("RECORDING"))),
        ]);
        assert(keys_of(r) =~= seq!["recordingId"@, "status"@]);
        r
    }

    /// The report of a stopped recording; `id_key` is `recordingId` for the
    /// `recording_complete` event and `id` for the command's reply.
    pub fn stopped_json(stopped: &StoppedRecording, id_key: &str, file_size: u64) -> (r: JsonValue)
        ensures
            keys_of(r) == seq![id_key@, "filePath"@, "duration"@, "fileSize"@],
            values_of(r) == seq![JsonValue::Str(stopped.id), JsonValue::Str(stopped.output_path),
                num(stopped.duration_secs), num(file_size)],
    {
        let r = JsonValue::Object(vec![
            (key(id_key), JsonValue::Str(stopped.id.clone())),
            (key("filePath"), JsonValue::Str(stopped.output_path.clone())),
            (key("duration"), unsigned(stopped.duration_secs)),
            (key("fileSize"), unsigned(file_size)),
        ]);
        assert(keys_of(r) =~= seq![id_key@, "filePath"@, "duration"@, "fileSize"@]);
        assert(values_of(r) =~= seq![JsonValue::Str(stopped.id), JsonValue::Str(stopped.output_path),
            num(stopped.duration_secs), num(file_size)]);
        r
    }
}

/// A command for the recorder.
#[derive(Debug)]
pub enum RecorderCommand {
    Start,
    Stop,
    Status,
}

impl RecorderCommand {
    pub fn parse(cmd: &CommandPayload) -> (r: Option<RecorderCommand>)
        ensures
            match r {
                Some(RecorderCommand::Start) => cmd.command@ == "START_RECORDING"@,
                Some(RecorderCommand::Stop) => cmd.command@ == "STOP_RECORDING"@,
                Some(RecorderCommand::Status) => cmd.command@ == "GET_RECORDING_STATUS"@,
                None => cmd.command@ != "START_RECORDING"@ && cmd.command@ != "STOP_RECORDING"@
                    && cmd.command@ != "GET_RECORDING_STATUS"@,
            },
    {
        let c = cmd.command.as_str();
        if same_text(c, "START_RECORDING") {
            Some(RecorderCommand::Start)
        } else if same_text(c, "STOP_RECORDING") {
            Some(RecorderCommand::Stop)
        } else if same_text(c, "GET_RECORDING_STATUS") {
            Some(RecorderCommand::Status)
        } else {
            None
        }
    }
}

/// A file in the recordings directory and when it was last modified.
#[derive(Debug)]
pub struct RecordingFile {
    pub path: String,
    pub modified_ms: u64,
}

/// The paths of the files older than a week at `now`, in order.
pub open spec fn expired_paths(fs: Seq<RecordingFile>, now: u64) -> Seq<Seq<char>>
    decreases fs.len(),
{
    if fs.len() == 0 {
        Seq::empty()
    } else {
        let prev = expired_paths(fs.drop_last(), now);
        if (fs.last().modified_ms as int) < (now as int) - (MAX_AGE_MS as int) {
            prev.push(fs.last().path@)
        } else {
            prev
        }
    }
}

impl ScreenRecorder {
    /// Subscribes the recorder, under `subscriber`, to every command.
    pub fn register_handlers(&self, socket: &mut crate::client::SocketClient, subscriber: u64)
        requires
            old(socket).wf(),
        ensures
            final(socket).wf(),
            crate::client::registered_multi(*old(socket), *final(socket), crate::registry::EventKind::Command, subscriber),
    {
        socket.on_command(subscriber);
    }

    /// The recordings to delete at `now_ms`: those last modified more than a week before.
    pub fn cleanup_old_recordings(&self, files: &Vec<RecordingFile>, now_ms: u64) -> (r: Vec<String>)
        ensures
            r@.map_values(|s: String| s@) == expired_paths(files@, now_ms),
    {
        let mut out: Vec<String> = Vec::new();
        let mut i: usize = 0;
        assert(files@.subrange(0, 0) =~= Seq::<RecordingFile>::empty());
        while i < files.len()
            invariant
                0 <= i <= files@.len(),
                out@.map_values(|s: String| s@) == expired_paths(files@.subrange(0, i as int), now_ms),
            decreases files.len() - i,
        {
            let ghost before = out@;
            assert(files@.subrange(0, i + 1).drop_last() =~= files@.subrange(0, i as int));
            assert(files@.subrange(0, i + 1).last() == files@[i as int]);
            if is_expired(files[i].modified_ms, now_ms) {
                out.push(files[i].path.clone());
                assert(out@.map_values(|s: String| s@) =~= before.map_values(|s: String| s@).push(files@[i as int].path@));
            }
            i = i + 1;
        }
        assert(files@.subrange(0, files.len() as int) =~= files@);
        out
    }
}

} // verus!
