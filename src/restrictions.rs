//! OS restrictions: which settings are on, and which registry values or
//! commands each platform needs to bring the machine to them. Running the
//! commands is the caller's.

use vstd::prelude::*;
use crate::json::{JsonValue, keys_of, values_of, bool_or_false};
use crate::events::{key, CommandPayload, CommandReply, reply_of, reply_reports};
use crate::json::{print_json, json_print, opt_views};
use crate::text::{chars_of, string_of, same_text};

verus! {

/// Which restrictions are on; each is off unless given.
#[derive(Clone, Copy, Debug, PartialEq, Eq, Structural)]
pub struct RestrictionSettings {
    pub disable_task_manager: bool,
    pub disable_command_prompt: bool,
    pub disable_control_panel: bool,
    pub disable_usb: bool,
    pub disable_printing: bool,
    pub disable_registry_editor: bool,
}

pub open spec fn settings_fields(v: JsonValue) -> Option<RestrictionSettings> {
    if v is Object {
        match (bool_or_false(v, "disableTaskManager"@), bool_or_false(v, "disableCommandPrompt"@),
            bool_or_false(v, "disableControlPanel"@), bool_or_false(v, "disableUsb"@),
            bool_or_false(v, "disablePrinting"@), bool_or_false(v, "disableRegistryEditor"@)) {
            (Some(a), Some(b), Some(c), Some(d), Some(e), Some(f)) => Some(RestrictionSettings {
                disable_task_manager: a,
                disable_command_prompt: b,
                disable_control_panel: c,
                disable_usb: d,
                disable_printing: e,
                disable_registry_editor: f,
            }),
            _ => None,
        }
    } else {
        None
    }
}

impl Default for RestrictionSettings {
    fn default() -> (r: RestrictionSettings)
        ensures
            r == all_off(),
    {
        RestrictionSettings {
            disable_task_manager: false,
            disable_command_prompt: false,
            disable_control_panel: false,
            disable_usb: false,
            disable_printing: false,
            disable_registry_editor: false,
        }
    }
}

/// The JSON object of settings.
pub open spec fn settings_json(r: JsonValue, s: RestrictionSettings) -> bool {
    &&& keys_of(r) == seq!["disableTaskManager"@, "disableCommandPrompt"@, "disableControlPanel"@, "disableUsb"@,
        "disablePrinting"@, "disableRegistryEditor"@]
    &&& values_of(r) == seq![JsonValue::Bool(s.disable_task_manager), JsonValue::Bool(s.disable_command_prompt),
        JsonValue::Bool(s.disable_control_panel), JsonValue::Bool(s.disable_usb),
        JsonValue::Bool(s.disable_printing), JsonValue::Bool(s.disable_registry_editor)]
}

pub open spec fn all_off() -> RestrictionSettings {
    RestrictionSettings {
        disable_task_manager: false,
        disable_command_prompt: false,
        disable_control_panel: false,
        disable_usb: false,
        disable_printing: false,
        disable_registry_editor: false,
    }
}

impl RestrictionSettings {
    pub fn from_json(v: &JsonValue) -> (r: Option<RestrictionSettings>)
        ensures
            r == settings_fields(*v),
    {
        if !v.is_object() {
            return None;
        }
        match (v.bool_or_false("disableTaskManager"), v.bool_or_false("disableCommandPrompt"),
            v.bool_or_false("disableControlPanel"), v.bool_or_false("disableUsb"), v.bool_or_false("disablePrinting"),
            v.bool_or_false("disableRegistryEditor")) {
            (Some(a), Some(b), Some(c), Some(d), Some(e), Some(f)) => Some(RestrictionSettings {
                disable_task_manager: a,
                disable_command_prompt: b,
                disable_control_panel: c,
                disable_usb: d,
                disable_printing: e,
                disable_registry_editor: f,
            }),
            _ => None,
        }
    }

    pub fn to_json(&self) -> (r: JsonValue)
        ensures
            settings_json(r, *self),
    {
        let r = JsonValue::Object(vec![
            (key("disableTaskManager"), JsonValue::Bool(self.disable_task_manager)),
            (key("disableCommandPrompt"), JsonValue::Bool(self.disable_command_prompt)),
            (key("disableControlPanel"), JsonValue::Bool(self.disable_control_panel)),
            (key("disableUsb"), JsonValue::Bool(self.disable_usb)),
            (key("disablePrinting"), JsonValue::Bool(self.disable_printing)),
            (key("disableRegistryEditor"), JsonValue::Bool(self.disable_registry_editor)),
        ]);
        assert(keys_of(r) =~= seq!["disableTaskManager"@, "disableCommandPrompt"@, "disableControlPanel"@, "disableUsb"@,
            "disablePrinting"@, "disableRegistryEditor"@]);
        assert(values_of(r) =~= seq![JsonValue::Bool(self.disable_task_manager), JsonValue::Bool(self.disable_command_prompt),
            JsonValue::Bool(self.disable_control_panel), JsonValue::Bool(self.disable_usb),
            JsonValue::Bool(self.disable_printing), JsonValue::Bool(self.disable_registry_editor)]);
        r
    }
}

/// A `REG_DWORD` value to set.
#[derive(Debug)]
pub struct RegistryEdit {
    pub key: String,
    pub value: String,
    pub data: String,
}

/// A command to run: a program and its arguments.
#[derive(Debug)]
pub struct Command {
    pub program: String,
    pub args: Vec<String>,
}

pub open spec fn edit_is(e: RegistryEdit, k: Seq<char>, v: Seq<char>, d: Seq<char>) -> bool {
    e.key@ == k && e.value@ == v && e.data@ == d
}

pub open spec fn flag(b: bool) -> Seq<char> {
    if b { "1"@ } else { "0"@ }
}

pub open spec fn args_are(c: Command, p: Seq<char>, a: Seq<Seq<char>>) -> bool {
    c.program@ == p && c.args@.map_values(|s: String| s@) == a
}

fn text(s: &str) -> (r: String)
    ensures
        r@ == s@,
{
    string_of(&chars_of(s))
}

fn edit(k: &str, v: &str, d: &str) -> (r: RegistryEdit)
    ensures
        edit_is(r, k@, v@, d@),
{
    RegistryEdit { key: text(k), value: text(v), data: text(d) }
}

fn flag_text(b: bool) -> (r: &'static str)
    ensures
        r@ == flag(b),
{
    if b { "1" } else { "0" }
}

fn command(program: &str, args: Vec<&str>) -> (r: Command)
    ensures
        r.program@ == program@,
        r.args@.map_values(|s: String| s@) == args@.map_values(|s: &str| s@),
{
    let mut out: Vec<String> = Vec::new();
    let mut i: usize = 0;
    while i < args.len()
        invariant
            0 <= i <= args@.len(),
            out@.map_values(|s: String| s@) == args@.subrange(0, i as int).map_values(|s: &str| s@),
        decreases args.len() - i,
    {
        let ghost before = out@;
        let t = text(args[i]);
        out.push(t);
        assert(out@.map_values(|s: String| s@) =~= before.map_values(|s: String| s@).push(args@[i as int]@));
        assert(args@.subrange(0, i + 1).map_values(|s: &str| s@) =~= args@.subrange(0, i as int).map_values(|s: &str| s@).push(args@[i as int]@));
        i = i + 1;
    }
    assert(args@.subrange(0, args@.len() as int) =~= args@);
    Command { program: text(program), args: out }
}

/// The registry values that bring Windows to `s`, in the order they are set.
pub fn windows_registry_edits(s: &RestrictionSettings) -> (r: Vec<RegistryEdit>)
    ensures
        r@.len() == 5,
        edit_is(r@[0], "HKCU\\Software\\Microsoft\\Windows\\CurrentVersion\\Policies\\System"@, "DisableTaskMgr"@, flag(s.disable_task_manager)),
        edit_is(r@[1], "HKCU\\Software\\Policies\\Microsoft\\Windows\\System"@, "DisableCMD"@, flag(s.disable_command_prompt)),
        edit_is(r@[2], "HKCU\\Software\\Microsoft\\Windows\\CurrentVersion\\Policies\\Explorer"@, "NoControlPanel"@, flag(s.disable_control_panel)),
        edit_is(r@[3], "HKCU\\Software\\Microsoft\\Windows\\CurrentVersion\\Policies\\System"@, "DisableRegistryTools"@, flag(s.disable_registry_editor)),
        edit_is(r@[4], "HKLM\\SYSTEM\\CurrentControlSet\\Services\\USBSTOR"@, "Start"@, if s.disable_usb { "4"@ } else { "3"@ }),
{
    vec![
        edit("HKCU\\Software\\Microsoft\\Windows\\CurrentVersion\\Policies\\System", "DisableTaskMgr", flag_text(s.disable_task_manager)),
        edit("HKCU\\Software\\Policies\\Microsoft\\Windows\\System", "DisableCMD", flag_text(s.disable_command_prompt)),
        edit("HKCU\\Software\\Microsoft\\Windows\\CurrentVersion\\Policies\\Explorer", "NoControlPanel", flag_text(s.disable_control_panel)),
        edit("HKCU\\Software\\Microsoft\\Windows\\CurrentVersion\\Policies\\System", "DisableRegistryTools", flag_text(s.disable_registry_editor)),
        edit("HKLM\\SYSTEM\\CurrentControlSet\\Services\\USBSTOR", "Start", if s.disable_usb { "4" } else { "3" }),
    ]
}

/// The `reg` invocation that sets one value.
pub fn registry_command(e: &RegistryEdit) -> (r: Command)
    ensures
        args_are(r, "reg"@, seq!["add"@, e.key@, "/v"@, e.value@, "/t"@, "REG_DWORD"@, "/d"@, e.data@, "/f"@]),
{
    let r = command("reg", vec!["add", e.key.as_str(), "/v", e.value.as_str(), "/t", "REG_DWORD", "/d", e.data.as_str(), "/f"]);
    assert(r.args@.map_values(|s: String| s@) =~= seq!["add"@, e.key@, "/v"@, e.value@, "/t"@, "REG_DWORD"@, "/d"@, e.data@, "/f"@]);
    r
}

/// The outcome of one `reg` invocation: a command that could not be started
/// fails the whole application of settings; one that ran and reported failure
/// is only worth a warning.
pub fn reg_command_outcome(launch_error: Option<String>) -> (r: Result<(), String>)
    ensures
        match launch_error {
            None => r is Ok,
            Some(e) => r is Err && r->Err_0@ == "Failed to execute reg command: "@ + e@,
        },
{
    match launch_error {
        None => Ok(()),
        Some(e) => {
            let mut v = chars_of("Failed to execute reg command: ");
            crate::text::push_str(&mut v, e.as_str());
            Err(string_of(&v))
        },
    }
}

/// The print spooler command of Windows: stopped when printing is disabled.
pub fn windows_printing_command(s: &RestrictionSettings) -> (r: Command)
    ensures
        args_are(r, "net"@, seq![if s.disable_printing { "stop"@ } else { "start"@ }, "spooler"@]),
{
    let r = command("net", vec![if s.disable_printing { "stop" } else { "start" }, "spooler"]);
    assert(r.args@.map_values(|s: String| s@) =~= seq![if s.disable_printing { "stop"@ } else { "start"@ }, "spooler"@]);
    r
}

/// The commands that bring macOS to `s`: USB mass storage, then printing.
pub fn macos_commands(s: &RestrictionSettings) -> (r: Vec<Command>)
    ensures
        r@.len() == 2,
        args_are(r@[0], "sudo"@, seq![if s.disable_usb { "kextunload"@ } else { "kextload"@ },
            "/System/Library/Extensions/IOUSBMassStorageClass.kext"@]),
        args_are(r@[1], "sudo"@, seq!["launchctl"@, if s.disable_printing { "unload"@ } else { "load"@ },
            "/System/Library/LaunchDaemons/org.cups.cupsd.plist"@]),
{
    let a = command("sudo", vec![if s.disable_usb { "kextunload" } else { "kextload" },
        "/System/Library/Extensions/IOUSBMassStorageClass.kext"]);
    assert(a.args@.map_values(|x: String| x@) =~= seq![if s.disable_usb { "kextunload"@ } else { "kextload"@ },
        "/System/Library/Extensions/IOUSBMassStorageClass.kext"@]);
    let b = command("sudo", vec!["launchctl", if s.disable_printing { "unload" } else { "load" },
        "/System/Library/LaunchDaemons/org.cups.cupsd.plist"]);
    assert(b.args@.map_values(|x: String| x@) =~= seq!["launchctl"@, if s.disable_printing { "unload"@ } else { "load"@ },
        "/System/Library/LaunchDaemons/org.cups.cupsd.plist"@]);
    vec![a, b]
}

/// The commands that bring Linux to `s`: two for USB storage, then two for printing.
pub fn linux_commands(s: &RestrictionSettings) -> (r: Vec<Command>)
    ensures
        r@.len() == 4,
        s.disable_usb ==> args_are(r@[0], "sudo"@, seq!["modprobe"@, "-r"@, "usb_storage"@])
            && args_are(r@[1], "sh"@, seq!["-c"@, "echo 'blacklist usb_storage' | sudo tee /etc/modprobe.d/disable-usb-storage.conf"@]),
        !s.disable_usb ==> args_are(r@[0], "sudo"@, seq!["modprobe"@, "usb_storage"@])
            && args_are(r@[1], "sudo"@, seq!["rm"@, "-f"@, "/etc/modprobe.d/disable-usb-storage.conf"@]),
        s.disable_printing ==> args_are(r@[2], "sudo"@, seq!["systemctl"@, "stop"@, "cups"@])
            && args_are(r@[3], "sudo"@, seq!["systemctl"@, "disable"@, "cups"@]),
        !s.disable_printing ==> args_are(r@[2], "sudo"@, seq!["systemctl"@, "enable"@, "cups"@])
            && args_are(r@[3], "sudo"@, seq!["systemctl"@, "start"@, "cups"@]),
{
    let (a, b) = if s.disable_usb {
        let a = command("sudo", vec!["modprobe", "-r", "usb_storage"]);
        assert(a.args@.map_values(|x: String| x@) =~= seq!["modprobe"@, "-r"@, "usb_storage"@]);
        let b = command("sh", vec!["-c", "echo 'blacklist usb_storage' | sudo tee /etc/modprobe.d/disable-usb-storage.conf"]);
        assert(b.args@.map_values(|x: String| x@) =~= seq!["-c"@, "echo 'blacklist usb_storage' | sudo tee /etc/modprobe.d/disable-usb-storage.conf"@]);
        (a, b)
    } else {
        let a = command("sudo", vec!["modprobe", "usb_storage"]);
        assert(a.args@.map_values(|x: String| x@) =~= seq!["modprobe"@, "usb_storage"@]);
        let b = command("sudo", vec!["rm", "-f", "/etc/modprobe.d/disable-usb-storage.conf"]);
        assert(b.args@.map_values(|x: String| x@) =~= seq!["rm"@, "-f"@, "/etc/modprobe.d/disable-usb-storage.conf"@]);
        (a, b)
    };
    let (c, d) = if s.disable_printing {
        let c = command("sudo", vec!["systemctl", "stop", "cups"]);
        assert(c.args@.map_values(|x: String| x@) =~= seq!["systemctl"@, "stop"@, "cups"@]);
        let d = command("sudo", vec!["systemctl", "disable", "cups"]);
        assert(d.args@.map_values(|x: String| x@) =~= seq!["systemctl"@, "disable"@, "cups"@]);
        (c, d)
    } else {
        let c = command("sudo", vec!["systemctl", "enable", "cups"]);
        assert(c.args@.map_values(|x: String| x@) =~= seq!["systemctl"@, "enable"@, "cups"@]);
        let d = command("sudo", vec!["systemctl", "start", "cups"]);
        assert(d.args@.map_values(|x: String| x@) =~= seq!["systemctl"@, "start"@, "cups"@]);
        (c, d)
    };
    vec![a, b, c, d]
}

/// The restrictions service's state: the settings last applied.
#[derive(Debug)]
pub struct SystemRestrictions {
    pub current_settings: RestrictionSettings,
}

/// A command for the restrictions service.
#[derive(Debug)]
pub enum RestrictionCommand {
    Apply(RestrictionSettings),
    Get,
    Remove,
}

impl RestrictionCommand {
    /// Reads a command meant for the restrictions service; `SET_RESTRICTIONS`
    /// without a payload of settings is ignored.
    pub fn parse(cmd: &CommandPayload) -> (r: Option<RestrictionCommand>)
        ensures
            match r {
                Some(RestrictionCommand::Apply(s)) => cmd.command@ == "SET_RESTRICTIONS"@ && cmd.payload is Some
                    && settings_fields(cmd.payload->0) == Some(s),
                Some(RestrictionCommand::Get) => cmd.command@ == "GET_RESTRICTIONS"@,
                Some(RestrictionCommand::Remove) => cmd.command@ == "REMOVE_RESTRICTIONS"@,
                None => !(cmd.command@ == "SET_RESTRICTIONS"@ && cmd.payload is Some && settings_fields(cmd.payload->0) is Some)
                    && cmd.command@ != "GET_RESTRICTIONS"@ && cmd.command@ != "REMOVE_RESTRICTIONS"@,
            },
    {
        proof {
            reveal_strlit("SET_RESTRICTIONS");
            reveal_strlit("GET_RESTRICTIONS");
            reveal_strlit("REMOVE_RESTRICTIONS");
            assert("SET_RESTRICTIONS"@[0] != "GET_RESTRICTIONS"@[0]);
            assert("SET_RESTRICTIONS"@.len() != "REMOVE_RESTRICTIONS"@.len());
            assert("GET_RESTRICTIONS"@.len() != "REMOVE_RESTRICTIONS"@.len());
        }
        let c = cmd.command.as_str();
        if same_text(c, "SET_RESTRICTIONS") {
            match &cmd.payload {
                Some(p) => match RestrictionSettings::from_json(p) {
                    Some(s) => Some(RestrictionCommand::Apply(s)),
                    None => None,
                },
                None => None,
            }
        } else if same_text(c, "GET_RESTRICTIONS") {
            Some(RestrictionCommand::Get)
        } else if same_text(c, "REMOVE_RESTRICTIONS") {
            Some(RestrictionCommand::Remove)
        } else {
            None
        }
    }
}

impl SystemRestrictions {
    pub fn new() -> (r: SystemRestrictions)
        ensures
            r.current_settings == all_off(),
    {
        SystemRestrictions { current_settings: RestrictionSettings::default() }
    }

    /// Records `settings` once the platform's commands for them have run:
    /// `outcome` is what running them gave; a failure keeps the old settings.
    pub fn apply_restrictions(&mut self, settings: &RestrictionSettings, outcome: Result<(), String>) -> (r: Result<(), String>)
        ensures
            r == outcome,
            outcome is Ok ==> final(self).current_settings == *settings,
            outcome is Err ==> final(self).current_settings == old(self).current_settings,
    {
        if outcome.is_ok() {
            self.current_settings = *settings;
        }
        outcome
    }

    /// The settings that lift every restriction.
    pub fn remove_all_restrictions() -> (r: RestrictionSettings)
        ensures
            r == all_off(),
    {
        RestrictionSettings::default()
    }

    pub fn get_settings(&self) -> (r: RestrictionSettings)
        ensures
            r == self.current_settings,
    {
        self.current_settings
    }

    /// The settings a parsed command asks the caller to bring the machine to,
    /// with the platform's commands; `None` when it only reads.
    pub fn work_for(cmd: &RestrictionCommand) -> (r: Option<RestrictionSettings>)
        ensures
            match *cmd {
                RestrictionCommand::Apply(s) => r == Some(s),
                RestrictionCommand::Remove => r == Some(all_off()),
                RestrictionCommand::Get => r is None,
            },
    {
        match cmd {
            RestrictionCommand::Apply(s) => Some(*s),
            RestrictionCommand::Remove => Some(Self::remove_all_restrictions()),
            RestrictionCommand::Get => None,
        }
    }

    /// Finishes a parsed command, `outcome` being what running the platform's
    /// commands for `work_for(cmd)` gave (ignored for `Get`): records the settings
    /// on success and answers. Every command the service parses is answered.
    pub fn finish_command(&mut self, cmd: &RestrictionCommand, outcome: Result<(), String>) -> (r: CommandReply)
        ensures
            match *cmd {
                RestrictionCommand::Apply(s) => {
                    &&& outcome is Ok ==> final(self).current_settings == s
                        && reply_reports(r, Ok("Restrictions applied"@))
                    &&& outcome is Err ==> final(self).current_settings == old(self).current_settings
                        && reply_reports(r, Err(outcome->Err_0@))
                },
                RestrictionCommand::Remove => {
                    &&& outcome is Ok ==> final(self).current_settings == all_off()
                        && reply_reports(r, Ok("All restrictions removed"@))
                    &&& outcome is Err ==> final(self).current_settings == old(self).current_settings
                        && reply_reports(r, Err(outcome->Err_0@))
                },
                RestrictionCommand::Get => {
                    &&& final(self).current_settings == old(self).current_settings
                    &&& r.success && r.error is None
                    &&& exists|v: JsonValue| settings_json(v, old(self).current_settings)
                        && opt_views(r.response) == Some(json_print(v))
                },
            },
    {
        match cmd {
            RestrictionCommand::Get => {
                let v = self.current_settings.to_json();
                CommandReply { success: true, response: Some(print_json(&v)), error: None }
            },
            RestrictionCommand::Apply(s) => {
                let done = string_of(&chars_of("Restrictions applied"));
                match self.apply_restrictions(s, outcome) {
                    Ok(()) => reply_of(Ok(done)),
                    Err(e) => reply_of(Err(e)),
                }
            },
            RestrictionCommand::Remove => {
                let done = string_of(&chars_of("All restrictions removed"));
                let off = Self::remove_all_restrictions();
                match self.apply_restrictions(&off, outcome) {
                    Ok(()) => reply_of(Ok(done)),
                    Err(e) => reply_of(Err(e)),
                }
            },
        }
    }

    /// Subscribes the service, under `subscriber`, to every command.
    pub fn register_handlers(&self, socket: &mut crate::client::SocketClient, subscriber: u64)
        requires
            old(socket).wf(),
        ensures
            final(socket).wf(),
            crate::client::registered_multi(*old(socket), *final(socket), crate::registry::EventKind::Command, subscriber),
    {
        socket.on_command(subscriber);
    }
}

} // verus!
