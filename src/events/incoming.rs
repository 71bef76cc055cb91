//! Names of the events the server sends.

use vstd::prelude::*;

verus! {

pub const AUTH_SUCCESS: &'static str = "auth_success";
pub const AUTH_ERROR: &'static str = "auth_error";
pub const COMMAND: &'static str = "command";
pub const START_SCREEN_STREAM: &'static str = "start_screen_stream";
pub const STOP_SCREEN_STREAM: &'static str = "stop_screen_stream";
pub const CAPTURE_SCREENSHOT: &'static str = "capture_screenshot";
pub const REMOTE_INPUT: &'static str = "remote_input";
pub const START_REMOTE_CONTROL: &'static str = "start_remote_control";
pub const START_TERMINAL: &'static str = "start_terminal";
pub const TERMINAL_INPUT: &'static str = "terminal_input";
pub const FILE_TRANSFER: &'static str = "file_transfer";
pub const LIST_DIRECTORY: &'static str = "list_directory";

} // verus!
