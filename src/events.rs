//! Payloads carried by events in both directions, their JSON member names,
//! and the names of the events themselves.

use vstd::prelude::*;
use crate::json::{
    JsonValue, JsonNumber, keys_of, values_of, items_of, field, req_str, opt_str, req_int, opt_int,
    int_or, bool_or_false, opt_any, opt_views,
};
use crate::text::{chars_of, string_of, same_text};

pub mod outgoing;
pub mod incoming;

verus! {

/// A member name as an owned string.
pub fn key(s: &str) -> (r: String)
    ensures
        r@ == s@,
{
    string_of(&chars_of(s))
}

pub open spec fn num(n: u64) -> JsonValue {
    JsonValue::Number(JsonNumber::Unsigned(n))
}

pub fn unsigned(n: u64) -> (r: JsonValue)
    ensures
        r == num(n),
{
    JsonValue::Number(JsonNumber::Unsigned(n))
}

pub fn text(s: &String) -> (r: JsonValue)
    ensures
        r == JsonValue::Str(*s),
{
    JsonValue::Str(s.clone())
}

/// Identity of the machine, sent once per connection as the `auth` event.
#[derive(Debug)]
pub struct AuthPayload {
    pub machine_id: String,
    pub hostname: String,
    pub os_type: String,
    pub os_version: String,
    pub mac_address: String,
    pub ip_address: String,
    pub agent_version: String,
}

/// The JSON object of an `AuthPayload`.
pub open spec fn auth_json(r: JsonValue, x: AuthPayload) -> bool {
    &&& keys_of(r) == seq!["machineId"@, "hostname"@, "osType"@, "osVersion"@, "macAddress"@, "ipAddress"@, "agentVersion"@]
    &&& values_of(r) == seq![ JsonValue::Str(x.machine_id), JsonValue::Str(x.hostname), JsonValue::Str(x.os_type), JsonValue::Str(x.os_version), JsonValue::Str(x.mac_address), JsonValue::Str(x.ip_address), JsonValue::Str(x.agent_version)]
}

impl AuthPayload {
    pub fn to_json(&self) -> (r: JsonValue)
        ensures
            auth_json(r, *self),
    {
        let r = JsonValue::Object(vec![
            (key("machineId"), text(&self.machine_id)),
            (key("hostname"), text(&self.hostname)),
            (key("osType"), text(&self.os_type)),
            (key("osVersion"), text(&self.os_version)),
            (key("macAddress"), text(&self.mac_address)),
            (key("ipAddress"), text(&self.ip_address)),
            (key("agentVersion"), text(&self.agent_version)),
        ]);
        assert(keys_of(r) =~= seq!["machineId"@, "hostname"@, "osType"@, "osVersion"@, "macAddress"@, "ipAddress"@, "agentVersion"@]);
        assert(values_of(r) =~= seq![
            JsonValue::Str(self.machine_id), JsonValue::Str(self.hostname), JsonValue::Str(self.os_type),
            JsonValue::Str(self.os_version), JsonValue::Str(self.mac_address), JsonValue::Str(self.ip_address),
            JsonValue::Str(self.agent_version),
        ]);
        r
    }
}

/// A captured screenshot.
#[derive(Debug)]
pub struct ScreenshotPayload {
    pub image: String,
    pub timestamp: u64,
    pub active_window: String,
}

/// The JSON object of a `ScreenshotPayload`.
pub open spec fn screenshot_json(r: JsonValue, x: ScreenshotPayload) -> bool {
    &&& keys_of(r) == seq!["image"@, "timestamp"@, "activeWindow"@]
    &&& values_of(r) == seq![JsonValue::Str(x.image), num(x.timestamp), JsonValue::Str(x.active_window)]
}

impl ScreenshotPayload {
    pub fn to_json(&self) -> (r: JsonValue)
        ensures
            screenshot_json(r, *self),
    {
        let r = JsonValue::Object(vec![
            (key("image"), text(&self.image)),
            (key("timestamp"), unsigned(self.timestamp)),
            (key("activeWindow"), text(&self.active_window)),
        ]);
        assert(keys_of(r) =~= seq!["image"@, "timestamp"@, "activeWindow"@]);
        assert(values_of(r) =~= seq![JsonValue::Str(self.image), num(self.timestamp), JsonValue::Str(self.active_window)]);
        r
    }
}

/// One frame of a screen stream.
#[derive(Debug)]
pub struct ScreenFramePayload {
    pub frame: String,
    pub timestamp: u64,
    pub monitor_index: u32,
}

/// The JSON object of a `ScreenFramePayload`.
pub open spec fn screen_frame_json(r: JsonValue, x: ScreenFramePayload) -> bool {
    &&& keys_of(r) == seq!["frame"@, "timestamp"@, "monitorIndex"@]
    &&& values_of(r) == seq![JsonValue::Str(x.frame), num(x.timestamp), num(x.monitor_index as u64)]
}

impl ScreenFramePayload {
    pub fn to_json(&self) -> (r: JsonValue)
        ensures
            screen_frame_json(r, *self),
    {
        let r = JsonValue::Object(vec![
            (key("frame"), text(&self.frame)),
            (key("timestamp"), unsigned(self.timestamp)),
            (key("monitorIndex"), unsigned(self.monitor_index as u64)),
        ]);
        assert(keys_of(r) =~= seq!["frame"@, "timestamp"@, "monitorIndex"@]);
        assert(values_of(r) =~= seq![JsonValue::Str(self.frame), num(self.timestamp), num(self.monitor_index as u64)]);
        r
    }
}


pub open spec fn opt_key(o: bool, k: Seq<char>) -> Seq<Seq<char>> {
    if o { seq![k] } else { Seq::empty() }
}

pub open spec fn opt_text_value(o: Option<String>) -> Seq<JsonValue> {
    match o {
        Some(s) => seq![JsonValue::Str(s)],
        None => Seq::empty(),
    }
}

/// Time spent in one application window.
#[derive(Debug)]
pub struct ActivityLogEntry {
    pub application_name: String,
    pub window_title: String,
    pub start_time: u64,
    pub end_time: u64,
    pub duration: u64,
    pub category: Option<String>,
}

/// The JSON object of an activity entry; `category` is left out when absent.
pub open spec fn activity_entry_json(j: JsonValue, e: ActivityLogEntry) -> bool {
    &&& j is Object
    &&& keys_of(j) == seq!["applicationName"@, "windowTitle"@, "startTime"@, "endTime"@, "duration"@]
        + opt_key(e.category is Some, "category"@)
    &&& values_of(j) == seq![
        JsonValue::Str(e.application_name), JsonValue::Str(e.window_title), num(e.start_time),
        num(e.end_time), num(e.duration),
    ] + opt_text_value(e.category)
}

impl ActivityLogEntry {
    pub fn to_json(&self) -> (r: JsonValue)
        ensures
            activity_entry_json(r, *self),
    {
        let mut ms = vec![
            (key("applicationName"), text(&self.application_name)),
            (key("windowTitle"), text(&self.window_title)),
            (key("startTime"), unsigned(self.start_time)),
            (key("endTime"), unsigned(self.end_time)),
            (key("duration"), unsigned(self.duration)),
        ];
        match &self.category {
            Some(c) => ms.push((key("category"), text(c))),
            None => {},
        }
        let r = JsonValue::Object(ms);
        assert(keys_of(r) =~= seq!["applicationName"@, "windowTitle"@, "startTime"@, "endTime"@, "duration"@]
            + opt_key(self.category is Some, "category"@));
        assert(values_of(r) =~= seq![
            JsonValue::Str(self.application_name), JsonValue::Str(self.window_title), num(self.start_time),
            num(self.end_time), num(self.duration),
        ] + opt_text_value(self.category));
        r
    }
}

/// A batch of activity entries.
#[derive(Debug)]
pub struct ActivityLogPayload {
    pub logs: Vec<ActivityLogEntry>,
}

/// The JSON object of a `ActivityLogPayload`.
pub open spec fn activity_log_json(r: JsonValue, x: ActivityLogPayload) -> bool {
    &&& keys_of(r) == seq!["logs"@]
    &&& values_of(r).len() == 1
    &&& values_of(r)[0] is Array
    &&& items_of(values_of(r)[0]).len() == x.logs@.len()
    &&& forall|i: int| 0 <= i < x.logs@.len() ==> activity_entry_json(#[trigger] items_of(values_of(r)[0])[i], x.logs@[i])
}

impl ActivityLogPayload {
    pub fn to_json(&self) -> (r: JsonValue)
        ensures
            activity_log_json(r, *self),
    {
        let mut items: Vec<JsonValue> = Vec::new();
        let mut i: usize = 0;
        while i < self.logs.len()
            invariant
                0 <= i <= self.logs@.len(),
                items@.len() == i,
                forall|k: int| 0 <= k < i ==> activity_entry_json(#[trigger] items@[k], self.logs@[k]),
            decreases self.logs.len() - i,
        {
            items.push(self.logs[i].to_json());
            i = i + 1;
        }
        let r = JsonValue::Object(vec![(key("logs"), JsonValue::Array(items))]);
        assert(keys_of(r) =~= seq!["logs"@]);
        r
    }
}

/// Keys typed into one window.
#[derive(Debug)]
pub struct KeystrokeEntry {
    pub keys: String,
    pub application_name: String,
    pub window_title: String,
    pub timestamp: u64,
}

pub open spec fn keystroke_entry_json(j: JsonValue, e: KeystrokeEntry) -> bool {
    &&& j is Object
    &&& keys_of(j) == seq!["keys"@, "applicationName"@, "windowTitle"@, "timestamp"@]
    &&& values_of(j) == seq![
        JsonValue::Str(e.keys), JsonValue::Str(e.application_name), JsonValue::Str(e.window_title),
        num(e.timestamp),
    ]
}

impl KeystrokeEntry {
    pub fn to_json(&self) -> (r: JsonValue)
        ensures
            keystroke_entry_json(r, *self),
    {
        let r = JsonValue::Object(vec![
            (key("keys"), text(&self.keys)),
            (key("applicationName"), text(&self.application_name)),
            (key("windowTitle"), text(&self.window_title)),
            (key("timestamp"), unsigned(self.timestamp)),
        ]);
        assert(keys_of(r) =~= seq!["keys"@, "applicationName"@, "windowTitle"@, "timestamp"@]);
        assert(values_of(r) =~= seq![
            JsonValue::Str(self.keys), JsonValue::Str(self.application_name), JsonValue::Str(self.window_title),
            num(self.timestamp),
        ]);
        r
    }
}

/// A batch of keystroke entries.
#[derive(Debug)]
pub struct KeystrokesPayload {
    pub strokes: Vec<KeystrokeEntry>,
}

/// The JSON object of a `KeystrokesPayload`.
pub open spec fn keystrokes_json(r: JsonValue, x: KeystrokesPayload) -> bool {
    &&& keys_of(r) == seq!["strokes"@]
    &&& values_of(r).len() == 1
    &&& values_of(r)[0] is Array
    &&& items_of(values_of(r)[0]).len() == x.strokes@.len()
    &&& forall|i: int| 0 <= i < x.strokes@.len() ==> keystroke_entry_json(#[trigger] items_of(values_of(r)[0])[i], x.strokes@[i])
}

impl KeystrokesPayload {
    pub fn to_json(&self) -> (r: JsonValue)
        ensures
            keystrokes_json(r, *self),
    {
        let mut items: Vec<JsonValue> = Vec::new();
        let mut i: usize = 0;
        while i < self.strokes.len()
            invariant
                0 <= i <= self.strokes@.len(),
                items@.len() == i,
                forall|k: int| 0 <= k < i ==> keystroke_entry_json(#[trigger] items@[k], self.strokes@[k]),
            decreases self.strokes.len() - i,
        {
            items.push(self.strokes[i].to_json());
            i = i + 1;
        }
        let r = JsonValue::Object(vec![(key("strokes"), JsonValue::Array(items))]);
        assert(keys_of(r) =~= seq!["strokes"@]);
        r
    }
}

/// Clipboard content.
#[derive(Debug)]
pub struct ClipboardPayload {
    pub content: String,
    pub content_type: String,
    pub timestamp: u64,
}

/// The JSON object of a `ClipboardPayload`.
pub open spec fn clipboard_json(r: JsonValue, x: ClipboardPayload) -> bool {
    &&& keys_of(r) == seq!["content"@, "contentType"@, "timestamp"@]
    &&& values_of(r) == seq![JsonValue::Str(x.content), JsonValue::Str(x.content_type), num(x.timestamp)]
}

impl ClipboardPayload {
    pub fn to_json(&self) -> (r: JsonValue)
        ensures
            clipboard_json(r, *self),
    {
        let r = JsonValue::Object(vec![
            (key("content"), text(&self.content)),
            (key("contentType"), text(&self.content_type)),
            (key("timestamp"), unsigned(self.timestamp)),
        ]);
        assert(keys_of(r) =~= seq!["content"@, "contentType"@, "timestamp"@]);
        assert(values_of(r) =~= seq![JsonValue::Str(self.content), JsonValue::Str(self.content_type), num(self.timestamp)]);
        r
    }
}

/// The outcome of a server command; `response` and `error` are left out when absent.
#[derive(Debug)]
pub struct CommandResponsePayload {
    pub command_id: String,
    pub success: bool,
    pub response: Option<String>,
    pub error: Option<String>,
}

/// The JSON object of a `CommandResponsePayload`.
pub open spec fn command_response_json(r: JsonValue, x: CommandResponsePayload) -> bool {
    &&& keys_of(r) == seq!["commandId"@, "success"@] + opt_key(x.response is Some, "response"@) + opt_key(x.error is Some, "error"@)
    &&& values_of(r) == seq![JsonValue::Str(x.command_id), JsonValue::Bool(x.success)] + opt_text_value(x.response) + opt_text_value(x.error)
}

impl CommandResponsePayload {
    pub fn to_json(&self) -> (r: JsonValue)
        ensures
            command_response_json(r, *self),
    {
        let mut ms = vec![(key("commandId"), text(&self.command_id)), (key("success"), JsonValue::Bool(self.success))];
        match &self.response {
            Some(x) => ms.push((key("response"), text(x))),
            None => {},
        }
        match &self.error {
            Some(x) => ms.push((key("error"), text(x))),
            None => {},
        }
        let r = JsonValue::Object(ms);
        assert(keys_of(r) =~= seq!["commandId"@, "success"@] + opt_key(self.response is Some, "response"@)
            + opt_key(self.error is Some, "error"@));
        assert(values_of(r) =~= seq![JsonValue::Str(self.command_id), JsonValue::Bool(self.success)]
            + opt_text_value(self.response) + opt_text_value(self.error));
        r
    }
}

/// Output of a terminal session.
#[derive(Debug)]
pub struct TerminalOutputPayload {
    pub session_id: String,
    pub output: String,
}

/// The JSON object of a `TerminalOutputPayload`.
pub open spec fn terminal_output_json(r: JsonValue, x: TerminalOutputPayload) -> bool {
    &&& keys_of(r) == seq!["sessionId"@, "output"@]
    &&& values_of(r) == seq![JsonValue::Str(x.session_id), JsonValue::Str(x.output)]
}

impl TerminalOutputPayload {
    pub fn to_json(&self) -> (r: JsonValue)
        ensures
            terminal_output_json(r, *self),
    {
        let r = JsonValue::Object(vec![(key("sessionId"), text(&self.session_id)), (key("output"), text(&self.output))]);
        assert(keys_of(r) =~= seq!["sessionId"@, "output"@]);
        assert(values_of(r) =~= seq![JsonValue::Str(self.session_id), JsonValue::Str(self.output)]);
        r
    }
}

/// Progress of a file transfer.
#[derive(Debug)]
pub struct FileTransferProgressPayload {
    pub transfer_id: String,
    pub progress: u32,
    pub bytes_transferred: u64,
}

/// The JSON object of a `FileTransferProgressPayload`.
pub open spec fn progress_json(r: JsonValue, x: FileTransferProgressPayload) -> bool {
    &&& keys_of(r) == seq!["transferId"@, "progress"@, "bytesTransferred"@]
    &&& values_of(r) == seq![JsonValue::Str(x.transfer_id), num(x.progress as u64), num(x.bytes_transferred)]
}

impl FileTransferProgressPayload {
    pub fn to_json(&self) -> (r: JsonValue)
        ensures
            progress_json(r, *self),
    {
        let r = JsonValue::Object(vec![
            (key("transferId"), text(&self.transfer_id)),
            (key("progress"), unsigned(self.progress as u64)),
            (key("bytesTransferred"), unsigned(self.bytes_transferred)),
        ]);
        assert(keys_of(r) =~= seq!["transferId"@, "progress"@, "bytesTransferred"@]);
        assert(values_of(r) =~= seq![JsonValue::Str(self.transfer_id), num(self.progress as u64), num(self.bytes_transferred)]);
        r
    }
}

/// A downloaded file's content.
#[derive(Debug)]
pub struct FileContentPayload {
    pub transfer_id: String,
    pub file_name: String,
    pub file_data: String,
    pub file_size: u64,
}

/// The JSON object of a `FileContentPayload`.
pub open spec fn file_content_json(r: JsonValue, x: FileContentPayload) -> bool {
    &&& keys_of(r) == seq!["transferId"@, "fileName"@, "fileData"@, "fileSize"@]
    &&& values_of(r) == seq![ JsonValue::Str(x.transfer_id), JsonValue::Str(x.file_name), JsonValue::Str(x.file_data), num(x.file_size)]
}

impl FileContentPayload {
    pub fn to_json(&self) -> (r: JsonValue)
        ensures
            file_content_json(r, *self),
    {
        let r = JsonValue::Object(vec![
            (key("transferId"), text(&self.transfer_id)),
            (key("fileName"), text(&self.file_name)),
            (key("fileData"), text(&self.file_data)),
            (key("fileSize"), unsigned(self.file_size)),
        ]);
        assert(keys_of(r) =~= seq!["transferId"@, "fileName"@, "fileData"@, "fileSize"@]);
        assert(values_of(r) =~= seq![
            JsonValue::Str(self.transfer_id), JsonValue::Str(self.file_name), JsonValue::Str(self.file_data),
            num(self.file_size),
        ]);
        r
    }
}

/// One entry of a directory listing.
#[derive(Debug)]
pub struct DirectoryEntry {
    pub name: String,
    pub path: String,
    pub is_directory: bool,
    pub size: u64,
    pub modified: u64,
}

pub open spec fn directory_entry_json(j: JsonValue, e: DirectoryEntry) -> bool {
    &&& j is Object
    &&& keys_of(j) == seq!["name"@, "path"@, "isDirectory"@, "size"@, "modified"@]
    &&& values_of(j) == seq![
        JsonValue::Str(e.name), JsonValue::Str(e.path), JsonValue::Bool(e.is_directory), num(e.size),
        num(e.modified),
    ]
}

impl DirectoryEntry {
    pub fn to_json(&self) -> (r: JsonValue)
        ensures
            directory_entry_json(r, *self),
    {
        let r = JsonValue::Object(vec![
            (key("name"), text(&self.name)),
            (key("path"), text(&self.path)),
            (key("isDirectory"), JsonValue::Bool(self.is_directory)),
            (key("size"), unsigned(self.size)),
            (key("modified"), unsigned(self.modified)),
        ]);
        assert(keys_of(r) =~= seq!["name"@, "path"@, "isDirectory"@, "size"@, "modified"@]);
        assert(values_of(r) =~= seq![
            JsonValue::Str(self.name), JsonValue::Str(self.path), JsonValue::Bool(self.is_directory), num(self.size),
            num(self.modified),
        ]);
        r
    }
}

/// The entries of a directory.
#[derive(Debug)]
pub struct DirectoryListingPayload {
    pub path: String,
    pub entries: Vec<DirectoryEntry>,
}

/// The JSON object of a `DirectoryListingPayload`.
pub open spec fn directory_listing_json(r: JsonValue, x: DirectoryListingPayload) -> bool {
    &&& keys_of(r) == seq!["path"@, "entries"@]
    &&& values_of(r).len() == 2
    &&& values_of(r)[0] == JsonValue::Str(x.path)
    &&& values_of(r)[1] is Array
    &&& items_of(values_of(r)[1]).len() == x.entries@.len()
    &&& forall|i: int| 0 <= i < x.entries@.len() ==> directory_entry_json(#[trigger] items_of(values_of(r)[1])[i], x.entries@[i])
}

impl DirectoryListingPayload {
    pub fn to_json(&self) -> (r: JsonValue)
        ensures
            directory_listing_json(r, *self),
    {
        let mut items: Vec<JsonValue> = Vec::new();
        let mut i: usize = 0;
        while i < self.entries.len()
            invariant
                0 <= i <= self.entries@.len(),
                items@.len() == i,
                forall|k: int| 0 <= k < i ==> directory_entry_json(#[trigger] items@[k], self.entries@[k]),
            decreases self.entries.len() - i,
        {
            items.push(self.entries[i].to_json());
            i = i + 1;
        }
        let r = JsonValue::Object(vec![(key("path"), text(&self.path)), (key("entries"), JsonValue::Array(items))]);
        assert(keys_of(r) =~= seq!["path"@, "entries"@]);
        r
    }
}


/// Interval overrides pushed by the server on authentication.
#[derive(Debug)]
pub struct ServerConfigPayload {
    pub screenshot_interval: Option<u64>,
    pub activity_log_interval: Option<u64>,
    pub keystroke_buffer_size: Option<usize>,
}

pub open spec fn opt_u64_view(o: Option<u64>) -> Option<int> {
    match o {
        Some(n) => Some(n as int),
        None => None,
    }
}

pub open spec fn opt_usize_view(o: Option<usize>) -> Option<int> {
    match o {
        Some(n) => Some(n as int),
        None => None,
    }
}

pub open spec fn server_config_fields(v: JsonValue) -> Option<(Option<int>, Option<int>, Option<int>)> {
    if v is Object {
        match (
            opt_int(v, "screenshotInterval"@, 0, u64::MAX as int),
            opt_int(v, "activityLogInterval"@, 0, u64::MAX as int),
            opt_int(v, "keystrokeBufferSize"@, 0, usize::MAX as int),
        ) {
            (Some(a), Some(b), Some(c)) => Some((a, b, c)),
            _ => None,
        }
    } else {
        None
    }
}

pub open spec fn server_config_view(c: ServerConfigPayload) -> (Option<int>, Option<int>, Option<int>) {
    (opt_u64_view(c.screenshot_interval), opt_u64_view(c.activity_log_interval), opt_usize_view(c.keystroke_buffer_size))
}

fn opt_u64_member(v: &JsonValue, k: &str) -> (r: Option<Option<u64>>)
    ensures
        match r {
            Some(o) => opt_int(*v, k@, 0, u64::MAX as int) == Some(opt_u64_view(o)),
            None => opt_int(*v, k@, 0, u64::MAX as int) is None,
        },
{
    v.opt_u64(k)
}

fn opt_usize_member(v: &JsonValue, k: &str) -> (r: Option<Option<usize>>)
    ensures
        match r {
            Some(o) => opt_int(*v, k@, 0, usize::MAX as int) == Some(opt_usize_view(o)),
            None => opt_int(*v, k@, 0, usize::MAX as int) is None,
        },
{
    match v.opt_u64(k) {
        Some(Some(n)) => if n as u128 <= usize::MAX as u128 { Some(Some(n as usize)) } else { None },
        Some(None) => Some(None),
        None => None,
    }
}

impl ServerConfigPayload {
    pub fn from_json(v: &JsonValue) -> (r: Option<ServerConfigPayload>)
        ensures
            match r {
                Some(c) => server_config_fields(*v) == Some(server_config_view(c)),
                None => server_config_fields(*v) is None,
            },
    {
        if !v.is_object() {
            return None;
        }
        match (opt_u64_member(v, "screenshotInterval"), opt_u64_member(v, "activityLogInterval"),
            opt_usize_member(v, "keystrokeBufferSize")) {
            (Some(a), Some(b), Some(c)) => Some(ServerConfigPayload {
                screenshot_interval: a,
                activity_log_interval: b,
                keystroke_buffer_size: c,
            }),
            _ => None,
        }
    }
}

impl Default for ServerConfigPayload {
    fn default() -> (r: ServerConfigPayload)
        ensures
            r.screenshot_interval is None,
            r.activity_log_interval is None,
            r.keystroke_buffer_size is None,
    {
        ServerConfigPayload { screenshot_interval: None, activity_log_interval: None, keystroke_buffer_size: None }
    }
}

/// The server's acceptance of the agent, with an optional configuration.
#[derive(Debug)]
pub struct AuthSuccessPayload {
    pub computer_id: String,
    pub config: Option<ServerConfigPayload>,
}

/// `computerId`, and `config` when present and not null.
pub open spec fn auth_success_fields(v: JsonValue) -> Option<(Seq<char>, Option<(Option<int>, Option<int>, Option<int>)>)> {
    if v is Object {
        match req_str(v, "computerId"@) {
            Some(id) => match field(v, "config"@) {
                None => Some((id, None)),
                Some(JsonValue::Null) => Some((id, None)),
                Some(c) => match server_config_fields(c) {
                    Some(f) => Some((id, Some(f))),
                    None => None,
                },
            },
            None => None,
        }
    } else {
        None
    }
}

pub open spec fn auth_success_view(p: AuthSuccessPayload) -> (Seq<char>, Option<(Option<int>, Option<int>, Option<int>)>) {
    (p.computer_id@, match p.config {
        Some(c) => Some(server_config_view(c)),
        None => None,
    })
}

impl AuthSuccessPayload {
    pub fn from_json(v: &JsonValue) -> (r: Option<AuthSuccessPayload>)
        ensures
            match r {
                Some(p) => auth_success_fields(*v) == Some(auth_success_view(p)),
                None => auth_success_fields(*v) is None,
            },
    {
        if !v.is_object() {
            return None;
        }
        let id = match v.req_str("computerId") {
            Some(id) => id,
            None => return None,
        };
        match v.get("config") {
            None => Some(AuthSuccessPayload { computer_id: id, config: None }),
            Some(c) => if c.is_null() {
                Some(AuthSuccessPayload { computer_id: id, config: None })
            } else {
                match ServerConfigPayload::from_json(c) {
                    Some(cfg) => Some(AuthSuccessPayload { computer_id: id, config: Some(cfg) }),
                    None => None,
                }
            },
        }
    }
}

/// The server's refusal of the agent.
#[derive(Debug)]
pub struct AuthErrorPayload {
    pub message: String,
}

pub open spec fn auth_error_fields(v: JsonValue) -> Option<Seq<char>> {
    if v is Object { req_str(v, "message"@) } else { None }
}

impl AuthErrorPayload {
    pub fn from_json(v: &JsonValue) -> (r: Option<AuthErrorPayload>)
        ensures
            match r {
                Some(p) => auth_error_fields(*v) == Some(p.message@),
                None => auth_error_fields(*v) is None,
            },
    {
        if !v.is_object() {
            return None;
        }
        match v.req_str("message") {
            Some(m) => Some(AuthErrorPayload { message: m }),
            None => None,
        }
    }
}

/// A command for the services; each service picks the commands it knows by `command`.
#[derive(Debug)]
pub struct CommandPayload {
    pub id: String,
    pub command: String,
    pub payload: Option<JsonValue>,
}

pub open spec fn command_fields(v: JsonValue) -> Option<(Seq<char>, Seq<char>, Option<JsonValue>)> {
    if v is Object {
        match (req_str(v, "id"@), req_str(v, "command"@)) {
            (Some(a), Some(b)) => Some((a, b, opt_any(v, "payload"@))),
            _ => None,
        }
    } else {
        None
    }
}

impl CommandPayload {
    pub fn from_json(v: JsonValue) -> (r: Option<CommandPayload>)
        ensures
            match r {
                Some(p) => command_fields(v) == Some((p.id@, p.command@, p.payload)),
                None => command_fields(v) is None,
            },
    {
        if !v.is_object() {
            return None;
        }
        let id = match v.req_str("id") {
            Some(x) => x,
            None => return None,
        };
        let command = match v.req_str("command") {
            Some(x) => x,
            None => return None,
        };
        let mut w = v;
        let payload = w.take_opt("payload");
        Some(CommandPayload { id, command, payload })
    }
}

/// A request to start streaming the screen.
#[derive(Debug)]
pub struct StartScreenStreamPayload {
    pub quality: u32,
    pub fps: u32,
}

pub open spec fn start_stream_fields(v: JsonValue) -> Option<(int, int)> {
    if v is Object {
        match (req_int(v, "quality"@, 0, u32::MAX as int), req_int(v, "fps"@, 0, u32::MAX as int)) {
            (Some(q), Some(f)) => Some((q, f)),
            _ => None,
        }
    } else {
        None
    }
}

impl StartScreenStreamPayload {
    pub fn from_json(v: &JsonValue) -> (r: Option<StartScreenStreamPayload>)
        ensures
            match r {
                Some(p) => start_stream_fields(*v) == Some((p.quality as int, p.fps as int)),
                None => start_stream_fields(*v) is None,
            },
    {
        if !v.is_object() {
            return None;
        }
        match (v.req_u32("quality"), v.req_u32("fps")) {
            (Some(quality), Some(fps)) => Some(StartScreenStreamPayload { quality, fps }),
            _ => None,
        }
    }
}

/// A mouse or keyboard event for remote control.
#[derive(Debug)]
pub struct RemoteInputPayload {
    pub input_type: String,
    pub event: JsonValue,
}

/// `type`, and `event`, which must be present (null allowed).
pub open spec fn remote_input_fields(v: JsonValue) -> Option<(Seq<char>, JsonValue)> {
    if v is Object {
        match (req_str(v, "type"@), field(v, "event"@)) {
            (Some(t), Some(e)) => Some((t, e)),
            _ => None,
        }
    } else {
        None
    }
}

impl RemoteInputPayload {
    pub fn from_json(v: JsonValue) -> (r: Option<RemoteInputPayload>)
        ensures
            match r {
                Some(p) => remote_input_fields(v) == Some((p.input_type@, p.event)),
                None => remote_input_fields(v) is None,
            },
    {
        if !v.is_object() {
            return None;
        }
        let t = match v.req_str("type") {
            Some(x) => x,
            None => return None,
        };
        let mut w = v;
        match w.take("event") {
            Some(e) => Some(RemoteInputPayload { input_type: t, event: e }),
            None => None,
        }
    }
}

/// Stream quality when a remote-control request names none.
pub fn default_quality() -> (r: u32)
    ensures
        r == 60,
{
    60
}

/// Frames per second when a remote-control request names none.
pub fn default_fps() -> (r: u32)
    ensures
        r == 10,
{
    10
}

/// A request to start a remote-control session.
#[derive(Debug)]
pub struct StartRemoteControlPayload {
    pub session_id: String,
    pub mode: String,
    pub quality: u32,
    pub fps: u32,
}

pub open spec fn remote_control_fields(v: JsonValue) -> Option<(Seq<char>, Seq<char>, int, int)> {
    if v is Object {
        match (req_str(v, "sessionId"@), req_str(v, "mode"@), int_or(v, "quality"@, 0, u32::MAX as int, 60),
            int_or(v, "fps"@, 0, u32::MAX as int, 10)) {
            (Some(s), Some(m), Some(q), Some(f)) => Some((s, m, q, f)),
            _ => None,
        }
    } else {
        None
    }
}

impl StartRemoteControlPayload {
    pub fn from_json(v: &JsonValue) -> (r: Option<StartRemoteControlPayload>)
        ensures
            match r {
                Some(p) => remote_control_fields(*v) == Some((p.session_id@, p.mode@, p.quality as int, p.fps as int)),
                None => remote_control_fields(*v) is None,
            },
    {
        if !v.is_object() {
            return None;
        }
        match (v.req_str("sessionId"), v.req_str("mode"), v.u32_or("quality", default_quality()),
            v.u32_or("fps", default_fps())) {
            (Some(session_id), Some(mode), Some(quality), Some(fps)) => Some(
                StartRemoteControlPayload { session_id, mode, quality, fps },
            ),
            _ => None,
        }
    }
}

/// A request to open a terminal session.
#[derive(Debug)]
pub struct StartTerminalPayload {
    pub session_id: String,
    pub shell: Option<String>,
}

pub open spec fn start_terminal_fields(v: JsonValue) -> Option<(Seq<char>, Option<Seq<char>>)> {
    if v is Object {
        match (req_str(v, "sessionId"@), opt_str(v, "shell"@)) {
            (Some(s), Some(sh)) => Some((s, sh)),
            _ => None,
        }
    } else {
        None
    }
}

impl StartTerminalPayload {
    pub fn from_json(v: &JsonValue) -> (r: Option<StartTerminalPayload>)
        ensures
            match r {
                Some(p) => start_terminal_fields(*v) == Some((p.session_id@, opt_views(p.shell))),
                None => start_terminal_fields(*v) is None,
            },
    {
        if !v.is_object() {
            return None;
        }
        match (v.req_str("sessionId"), v.opt_str("shell")) {
            (Some(session_id), Some(shell)) => Some(StartTerminalPayload { session_id, shell }),
            _ => None,
        }
    }
}

/// Input for a terminal session.
#[derive(Debug)]
pub struct TerminalInputPayload {
    pub session_id: String,
    pub input: String,
}

pub open spec fn terminal_input_fields(v: JsonValue) -> Option<(Seq<char>, Seq<char>)> {
    if v is Object {
        match (req_str(v, "sessionId"@), req_str(v, "input"@)) {
            (Some(s), Some(i)) => Some((s, i)),
            _ => None,
        }
    } else {
        None
    }
}

impl TerminalInputPayload {
    pub fn from_json(v: &JsonValue) -> (r: Option<TerminalInputPayload>)
        ensures
            match r {
                Some(p) => terminal_input_fields(*v) == Some((p.session_id@, p.input@)),
                None => terminal_input_fields(*v) is None,
            },
    {
        if !v.is_object() {
            return None;
        }
        match (v.req_str("sessionId"), v.req_str("input")) {
            (Some(session_id), Some(input)) => Some(TerminalInputPayload { session_id, input }),
            _ => None,
        }
    }
}

/// A request to move a file in either direction.
#[derive(Debug)]
pub struct FileTransferPayload {
    pub transfer_id: String,
    pub direction: String,
    pub remote_path: String,
    pub file_data: Option<String>,
}

pub open spec fn file_transfer_fields(v: JsonValue) -> Option<(Seq<char>, Seq<char>, Seq<char>, Option<Seq<char>>)> {
    if v is Object {
        match (req_str(v, "transferId"@), req_str(v, "direction"@), req_str(v, "remotePath"@), opt_str(v, "fileData"@)) {
            (Some(t), Some(d), Some(p), Some(f)) => Some((t, d, p, f)),
            _ => None,
        }
    } else {
        None
    }
}

impl FileTransferPayload {
    pub fn from_json(v: &JsonValue) -> (r: Option<FileTransferPayload>)
        ensures
            match r {
                Some(p) => file_transfer_fields(*v) == Some((p.transfer_id@, p.direction@, p.remote_path@, opt_views(p.file_data))),
                None => file_transfer_fields(*v) is None,
            },
    {
        if !v.is_object() {
            return None;
        }
        match (v.req_str("transferId"), v.req_str("direction"), v.req_str("remotePath"), v.opt_str("fileData")) {
            (Some(transfer_id), Some(direction), Some(remote_path), Some(file_data)) => Some(
                FileTransferPayload { transfer_id, direction, remote_path, file_data },
            ),
            _ => None,
        }
    }
}

/// A request to list a directory.
#[derive(Debug)]
pub struct ListDirectoryPayload {
    pub path: String,
}

pub open spec fn list_directory_fields(v: JsonValue) -> Option<Seq<char>> {
    if v is Object { req_str(v, "path"@) } else { None }
}

impl ListDirectoryPayload {
    pub fn from_json(v: &JsonValue) -> (r: Option<ListDirectoryPayload>)
        ensures
            match r {
                Some(p) => list_directory_fields(*v) == Some(p.path@),
                None => list_directory_fields(*v) is None,
            },
    {
        if !v.is_object() {
            return None;
        }
        match v.req_str("path") {
            Some(path) => Some(ListDirectoryPayload { path }),
            None => None,
        }
    }
}


/// Kinds of mouse events.
#[derive(Clone, Copy, Debug, PartialEq, Eq, Structural)]
pub enum MouseEventType {
    Move,
    Click,
    Scroll,
    Drag,
}

pub open spec fn mouse_event_type_of(s: Seq<char>) -> Option<MouseEventType> {
    if s == "move"@ {
        Some(MouseEventType::Move)
    } else if s == "click"@ {
        Some(MouseEventType::Click)
    } else if s == "scroll"@ {
        Some(MouseEventType::Scroll)
    } else if s == "drag"@ {
        Some(MouseEventType::Drag)
    } else {
        None
    }
}

impl MouseEventType {
    /// Reads the lowercase name of a kind.
    pub fn from_json(v: &JsonValue) -> (r: Option<MouseEventType>)
        ensures
            r == (match crate::json::str_value(*v) {
                Some(s) => mouse_event_type_of(s),
                None => None,
            }),
    {
        let s = match v.as_text() {
            Some(s) => s,
            None => return None,
        };
        if same_text(s.as_str(), "move") {
            Some(MouseEventType::Move)
        } else if same_text(s.as_str(), "click") {
            Some(MouseEventType::Click)
        } else if same_text(s.as_str(), "scroll") {
            Some(MouseEventType::Scroll)
        } else if same_text(s.as_str(), "drag") {
            Some(MouseEventType::Drag)
        } else {
            None
        }
    }
}

/// A mouse event of a remote-control session.
#[derive(Debug)]
pub struct MouseEvent {
    pub event_type: String,
    pub x: i32,
    pub y: i32,
    pub button: Option<String>,
    pub click_type: Option<String>,
    pub scroll_x: Option<i32>,
    pub scroll_y: Option<i32>,
}

pub open spec fn opt_i32_view(o: Option<i32>) -> Option<int> {
    match o {
        Some(n) => Some(n as int),
        None => None,
    }
}

pub open spec fn mouse_event_fields(v: JsonValue) -> Option<(Seq<char>, int, int, Option<Seq<char>>, Option<Seq<char>>, Option<int>, Option<int>)> {
    if v is Object {
        match (req_str(v, "type"@), req_int(v, "x"@, i32::MIN as int, i32::MAX as int),
            req_int(v, "y"@, i32::MIN as int, i32::MAX as int), opt_str(v, "button"@), opt_str(v, "clickType"@),
            opt_int(v, "scrollX"@, i32::MIN as int, i32::MAX as int), opt_int(v, "scrollY"@, i32::MIN as int, i32::MAX as int)) {
            (Some(t), Some(x), Some(y), Some(b), Some(c), Some(sx), Some(sy)) => Some((t, x, y, b, c, sx, sy)),
            _ => None,
        }
    } else {
        None
    }
}

impl MouseEvent {
    pub fn from_json(v: &JsonValue) -> (r: Option<MouseEvent>)
        ensures
            match r {
                Some(e) => mouse_event_fields(*v) == Some((e.event_type@, e.x as int, e.y as int, opt_views(e.button),
                    opt_views(e.click_type), opt_i32_view(e.scroll_x), opt_i32_view(e.scroll_y))),
                None => mouse_event_fields(*v) is None,
            },
    {
        if !v.is_object() {
            return None;
        }
        match (v.req_str("type"), v.req_i32("x"), v.req_i32("y"), v.opt_str("button"), v.opt_str("clickType"),
            v.opt_i32("scrollX"), v.opt_i32("scrollY")) {
            (Some(event_type), Some(x), Some(y), Some(button), Some(click_type), Some(scroll_x), Some(scroll_y)) => {
                Some(MouseEvent { event_type, x, y, button, click_type, scroll_x, scroll_y })
            },
            _ => None,
        }
    }
}

/// Kinds of keyboard events.
#[derive(Clone, Copy, Debug, PartialEq, Eq, Structural)]
pub enum KeyboardEventType {
    Keydown,
    Keyup,
    Type,
}

pub open spec fn keyboard_event_type_of(s: Seq<char>) -> Option<KeyboardEventType> {
    if s == "keydown"@ {
        Some(KeyboardEventType::Keydown)
    } else if s == "keyup"@ {
        Some(KeyboardEventType::Keyup)
    } else if s == "type"@ {
        Some(KeyboardEventType::Type)
    } else {
        None
    }
}

impl KeyboardEventType {
    /// Reads the lowercase name of a kind.
    pub fn from_json(v: &JsonValue) -> (r: Option<KeyboardEventType>)
        ensures
            r == (match crate::json::str_value(*v) {
                Some(s) => keyboard_event_type_of(s),
                None => None,
            }),
    {
        let s = match v.as_text() {
            Some(s) => s,
            None => return None,
        };
        if same_text(s.as_str(), "keydown") {
            Some(KeyboardEventType::Keydown)
        } else if same_text(s.as_str(), "keyup") {
            Some(KeyboardEventType::Keyup)
        } else if same_text(s.as_str(), "type") {
            Some(KeyboardEventType::Type)
        } else {
            None
        }
    }
}

/// Modifier keys held during a keyboard event; each is off unless given.
#[derive(Clone, Copy, Debug, PartialEq, Eq, Structural)]
pub struct KeyModifiers {
    pub ctrl: bool,
    pub alt: bool,
    pub shift: bool,
    pub meta: bool,
}

pub open spec fn modifiers_fields(v: JsonValue) -> Option<(bool, bool, bool, bool)> {
    if v is Object {
        match (bool_or_false(v, "ctrl"@), bool_or_false(v, "alt"@), bool_or_false(v, "shift"@), bool_or_false(v, "meta"@)) {
            (Some(c), Some(a), Some(s), Some(m)) => Some((c, a, s, m)),
            _ => None,
        }
    } else {
        None
    }
}

impl Default for KeyModifiers {
    fn default() -> (r: KeyModifiers)
        ensures
            r == (KeyModifiers { ctrl: false, alt: false, shift: false, meta: false }),
    {
        KeyModifiers { ctrl: false, alt: false, shift: false, meta: false }
    }
}

impl KeyModifiers {
    pub fn from_json(v: &JsonValue) -> (r: Option<KeyModifiers>)
        ensures
            match r {
                Some(m) => modifiers_fields(*v) == Some((m.ctrl, m.alt, m.shift, m.meta)),
                None => modifiers_fields(*v) is None,
            },
    {
        if !v.is_object() {
            return None;
        }
        match (v.bool_or_false("ctrl"), v.bool_or_false("alt"), v.bool_or_false("shift"), v.bool_or_false("meta")) {
            (Some(ctrl), Some(alt), Some(shift), Some(meta)) => Some(KeyModifiers { ctrl, alt, shift, meta }),
            _ => None,
        }
    }
}

/// A keyboard event of a remote-control session.
#[derive(Debug)]
pub struct KeyboardEvent {
    pub event_type: String,
    pub key: Option<String>,
    pub key_code: Option<u32>,
    pub text: Option<String>,
    pub modifiers: KeyModifiers,
}

pub open spec fn opt_u32_view(o: Option<u32>) -> Option<int> {
    match o {
        Some(n) => Some(n as int),
        None => None,
    }
}

/// The modifiers member, all off when absent.
pub open spec fn modifiers_member(v: JsonValue) -> Option<(bool, bool, bool, bool)> {
    match field(v, "modifiers"@) {
        None => Some((false, false, false, false)),
        Some(m) => modifiers_fields(m),
    }
}

pub open spec fn keyboard_event_fields(v: JsonValue) -> Option<(Seq<char>, Option<Seq<char>>, Option<int>, Option<Seq<char>>, (bool, bool, bool, bool))> {
    if v is Object {
        match (req_str(v, "type"@), opt_str(v, "key"@), opt_int(v, "keyCode"@, 0, u32::MAX as int), opt_str(v, "text"@),
            modifiers_member(v)) {
            (Some(t), Some(k), Some(c), Some(x), Some(m)) => Some((t, k, c, x, m)),
            _ => None,
        }
    } else {
        None
    }
}

impl KeyboardEvent {
    pub fn from_json(v: &JsonValue) -> (r: Option<KeyboardEvent>)
        ensures
            match r {
                Some(e) => keyboard_event_fields(*v) == Some((e.event_type@, opt_views(e.key), opt_u32_view(e.key_code),
                    opt_views(e.text), (e.modifiers.ctrl, e.modifiers.alt, e.modifiers.shift, e.modifiers.meta))),
                None => keyboard_event_fields(*v) is None,
            },
    {
        if !v.is_object() {
            return None;
        }
        let modifiers = match v.get("modifiers") {
            None => KeyModifiers::default(),
            Some(m) => match KeyModifiers::from_json(m) {
                Some(m) => m,
                None => return None,
            },
        };
        let key_code = match v.opt_u32("keyCode") {
            Some(Some(n)) => Some(n),
            Some(None) => None,
            None => return None,
        };
        match (v.req_str("type"), v.opt_str("key"), v.opt_str("text")) {
            (Some(event_type), Some(key), Some(text)) => Some(KeyboardEvent { event_type, key, key_code, text, modifiers }),
            _ => None,
        }
    }
}

/// The reply to a command: success, then a response or an error text.
#[derive(Debug)]
pub struct CommandReply {
    pub success: bool,
    pub response: Option<String>,
    pub error: Option<String>,
}

/// The reply that reports an outcome: its value as the response, or its error.
pub open spec fn reply_reports(r: CommandReply, outcome: Result<Seq<char>, Seq<char>>) -> bool {
    match outcome {
        Ok(x) => r.success && opt_views(r.response) == Some(x) && r.error is None,
        Err(e) => !r.success && r.response is None && opt_views(r.error) == Some(e),
    }
}

pub open spec fn result_views(o: Result<String, String>) -> Result<Seq<char>, Seq<char>> {
    match o {
        Ok(x) => Ok(x@),
        Err(e) => Err(e@),
    }
}

pub fn reply_of(outcome: Result<String, String>) -> (r: CommandReply)
    ensures
        reply_reports(r, result_views(outcome)),
{
    match outcome {
        Ok(x) => CommandReply { success: true, response: Some(x), error: None },
        Err(e) => CommandReply { success: false, response: None, error: Some(e) },
    }
}

} // verus!
