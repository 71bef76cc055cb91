use netwatch_agent::blocking::{
    BlockingWork, processes_to_terminate, website_reply, application_reply, BlockingCommand, BlockingRule, BlockingService,
    HostsPlan, ProcessEntry,
};
use netwatch_agent::events::{CommandPayload, StartRemoteControlPayload, default_fps, default_quality, KeyboardEvent, MouseEvent, MouseEventType};
use netwatch_agent::json::JsonValue;
use netwatch_agent::recorder::{
    capture_input, Platform, elapsed_secs, ffmpeg_args, is_expired, recording_chunks, RecorderCommand, RecordingFile, ScreenRecorder,
};
use netwatch_agent::restrictions::{
    linux_commands, reg_command_outcome, registry_command, windows_registry_edits, RestrictionCommand, RestrictionSettings, SystemRestrictions,
};
use netwatch_agent::supervisor::{AppState, ServiceId, Supervisor, SupervisorAction};
use netwatch_agent::client::SocketClient;

fn rule(t: &str, pattern: &str, mode: &str, active: bool) -> BlockingRule {
    BlockingRule {
        id: "r".to_string(),
        rule_type: t.to_string(),
        pattern: pattern.to_string(),
        mode: mode.to_string(),
        active,
    }
}

fn command(json: &str) -> CommandPayload {
    CommandPayload::from_json(JsonValue::parse(json).unwrap()).unwrap()
}

#[test]
fn stop_without_start_tears_nothing_down() {
    let mut s = BlockingService::new();
    let a = s.stop();
    assert!(!a.cancel_loop);
    assert!(a.restore_hosts.is_none());
    let mut s = BlockingService::new();
    assert!(s.start());
    assert!(!s.start());
    let a = s.stop();
    assert!(a.cancel_loop);
    assert!(!s.stop().cancel_loop);
}

#[test]
fn hosts_backup_is_taken_once_and_restored_verbatim() {
    let pristine = "127.0.0.1 localhost\n".to_string();
    let mut s = BlockingService::new();
    let first = match s.block_website("example.com", Some(pristine.clone())) {
        HostsPlan::Write(c) => c,
        other => panic!("unexpected {:?}", other),
    };
    assert_eq!(first, "127.0.0.1 localhost\n# NetWatch Block\n127.0.0.1 example.com\n127.0.0.1 www.example.com\n");
    s.confirm_website_block("example.com");
    let second = match s.block_website("other.com", Some(first.clone())) {
        HostsPlan::Write(c) => c,
        other => panic!("unexpected {:?}", other),
    };
    s.confirm_website_block("other.com");
    assert_eq!(s.hosts_backup, Some(pristine.clone()));
    let after = BlockingService::unblock_website("example.com", Some(second)).unwrap();
    s.confirm_website_unblock("example.com");
    assert_eq!(s.hosts_backup, Some(pristine.clone()));
    assert!(matches!(s.block_website("third.com", Some(after)), HostsPlan::Write(_)));
    assert_eq!(s.restore_hosts_file(), Some(pristine.clone()));
    assert_eq!(s.stop().restore_hosts, Some(pristine));
}

#[test]
fn blocking_an_already_blocked_site_writes_nothing() {
    let mut s = BlockingService::new();
    assert!(matches!(s.block_website("a.com", Some("127.0.0.1 a.com\n".to_string())), HostsPlan::AlreadyBlocked));
    assert!(matches!(s.block_website("a.com", None), HostsPlan::Unreadable));
}

#[test]
fn unblock_removes_loopback_lines_naming_the_domain() {
    let hosts = "127.0.0.1 localhost\r\n# NetWatch Block\n127.0.0.1 Example.com\n127.0.0.1 www.example.com\n10.0.0.1 example.com\n";
    let out = BlockingService::unblock_website("EXAMPLE.com", Some(hosts.to_string())).unwrap();
    assert_eq!(out, "127.0.0.1 localhost\n# NetWatch Block\n10.0.0.1 example.com");
    assert!(BlockingService::unblock_website("a.com", None).is_none());
}

#[test]
fn website_rules_follow_blocks_and_unblocks() {
    let mut s = BlockingService::new();
    s.confirm_website_block("a.com");
    s.confirm_website_block("b.com");
    assert_eq!(s.website_rules.len(), 2);
    assert_eq!(s.website_rules[0].rule_type, "website");
    assert_eq!(s.website_rules[0].mode, "block");
    assert!(s.website_rules[0].id.starts_with("web-"));
    s.confirm_website_unblock("A.COM");
    assert_eq!(s.website_rules.len(), 1);
    assert_eq!(s.website_rules[0].pattern, "b.com");
}

#[test]
fn application_rule_kills_matching_process() {
    let mut s = BlockingService::new();
    s.block_application("BadApp");
    assert_eq!(s.application_rules[0].pattern, "badapp");
    assert!(s.application_rules[0].id.starts_with("app-"));
    let patterns = s.blocked_patterns();
    assert_eq!(patterns, vec!["badapp".to_string()]);
    let procs = vec![
        ProcessEntry { pid: 10, name: "badapp.exe".to_string() },
        ProcessEntry { pid: 11, name: "editor".to_string() },
        ProcessEntry { pid: 12, name: "BADAPP".to_string() },
    ];
    assert_eq!(processes_to_terminate(&patterns, &procs), vec![10, 12]);
    let after = vec![ProcessEntry { pid: 11, name: "editor".to_string() }];
    assert_eq!(processes_to_terminate(&patterns, &after), Vec::<u32>::new());
    s.unblock_application("BADAPP");
    assert!(s.blocked_patterns().is_empty());
}

#[test]
fn substring_match_also_hits_longer_names() {
    let patterns = vec!["app".to_string()];
    let procs = vec![ProcessEntry { pid: 3, name: "myapp2.exe".to_string() }];
    assert_eq!(processes_to_terminate(&patterns, &procs), vec![3]);
    assert_eq!(processes_to_terminate(&Vec::new(), &procs), Vec::<u32>::new());
}

#[test]
fn inactive_and_allow_rules_do_not_block() {
    let mut s = BlockingService::new();
    s.set_rules(vec![
        rule("application", "a", "block", false),
        rule("application", "B", "block", true),
        rule("application", "c", "allow", true),
        rule("website", "w.com", "block", true),
        rule("other", "x", "block", true),
    ]);
    assert_eq!(s.blocked_patterns(), vec!["b".to_string()]);
    assert_eq!(s.website_rules.len(), 1);
    assert_eq!(s.application_rules.len(), 3);
    let all = s.get_rules();
    assert_eq!(all.len(), 4);
    assert_eq!(all[0].pattern, "w.com");
    assert_eq!(all[3].pattern, "c");
}

#[test]
fn applying_a_rule_set_blocks_its_active_websites() {
    let rules = vec![
        rule("website", "a.com", "block", true),
        rule("website", "b.com", "block", false),
        rule("website", "c.com", "allow", true),
        rule("application", "d", "block", true),
        rule("website", "e.com", "block", true),
    ];
    assert_eq!(BlockingService::websites_to_block(&rules), vec!["a.com".to_string(), "e.com".to_string()]);
}

#[test]
fn blocking_commands_parse() {
    assert!(matches!(
        BlockingCommand::parse(&command("{\"id\":\"1\",\"command\":\"BLOCK_WEBSITE\",\"payload\":{\"domain\":\"a.com\"}}")),
        Some(BlockingCommand::BlockWebsite(d)) if d == "a.com"
    ));
    assert!(matches!(
        BlockingCommand::parse(&command("{\"id\":\"1\",\"command\":\"UNBLOCK_APPLICATION\",\"payload\":{\"processName\":\"x\"}}")),
        Some(BlockingCommand::UnblockApplication(n)) if n == "x"
    ));
    assert!(BlockingCommand::parse(&command("{\"id\":\"1\",\"command\":\"BLOCK_WEBSITE\"}")).is_none());
    assert!(BlockingCommand::parse(&command("{\"id\":\"1\",\"command\":\"OTHER\"}")).is_none());
    let set = command("{\"id\":\"1\",\"command\":\"SET_BLOCKING_RULES\",\"payload\":{\"rules\":[{\"id\":\"r1\",\"type\":\"website\",\"pattern\":\"a.com\",\"mode\":\"block\",\"active\":true}]}}");
    match BlockingCommand::parse(&set) {
        Some(BlockingCommand::SetRules(rs)) => {
            assert_eq!(rs.len(), 1);
            assert_eq!(rs[0].id, "r1");
            assert!(rs[0].active);
        }
        other => panic!("unexpected {:?}", other),
    }
    let bad = command("{\"id\":\"1\",\"command\":\"SET_BLOCKING_RULES\",\"payload\":{\"rules\":[{\"id\":\"r1\"}]}}");
    assert!(BlockingCommand::parse(&bad).is_none());
}

#[test]
fn blocking_replies_read_as_before() {
    let r = website_reply("a.com", true, true);
    assert_eq!(r.response, Some("Website a.com blocked".to_string()));
    let r = website_reply("a.com", false, false);
    assert_eq!(r.error, Some("Failed to unblock website".to_string()));
    let r = application_reply("x", true);
    assert_eq!(r.response, Some("Application x blocked".to_string()));
    let mut s = BlockingService::new();
    s.set_rules(vec![rule("website", "a.com", "block", true)]);
    assert_eq!(
        s.rules_reply().response,
        Some("[{\"id\":\"r\",\"type\":\"website\",\"pattern\":\"a.com\",\"mode\":\"block\",\"active\":true}]".to_string())
    );
}

#[test]
fn restriction_settings_default_to_off() {
    let s = RestrictionSettings::from_json(&JsonValue::parse("{\"disableUsb\":true}").unwrap()).unwrap();
    assert!(s.disable_usb);
    assert!(!s.disable_printing);
    assert!(RestrictionSettings::from_json(&JsonValue::parse("{\"disableUsb\":1}").unwrap()).is_none());
    assert_eq!(
        s.to_json().to_text(),
        "{\"disableTaskManager\":false,\"disableCommandPrompt\":false,\"disableControlPanel\":false,\"disableUsb\":true,\"disablePrinting\":false,\"disableRegistryEditor\":false}"
    );
}

#[test]
fn restrictions_map_to_registry_values() {
    let s = RestrictionSettings { disable_task_manager: true, disable_usb: true, ..Default::default() };
    let edits = windows_registry_edits(&s);
    assert_eq!(edits.len(), 5);
    assert_eq!(edits[0].value, "DisableTaskMgr");
    assert_eq!(edits[0].data, "1");
    assert_eq!(edits[1].data, "0");
    assert_eq!(edits[4].key, "HKLM\\SYSTEM\\CurrentControlSet\\Services\\USBSTOR");
    assert_eq!(edits[4].data, "4");
    let c = registry_command(&edits[0]);
    assert_eq!(c.program, "reg");
    assert_eq!(c.args[0], "add");
    assert_eq!(c.args[8], "/f");
    let l = linux_commands(&s);
    assert_eq!(l[0].args, vec!["modprobe".to_string(), "-r".to_string(), "usb_storage".to_string()]);
    assert_eq!(l[2].args, vec!["systemctl".to_string(), "enable".to_string(), "cups".to_string()]);
}

#[test]
fn restrictions_are_kept_only_when_applied() {
    let mut r = SystemRestrictions::new();
    let s = RestrictionSettings { disable_printing: true, ..Default::default() };
    assert!(r.apply_restrictions(&s, Err("failed".to_string())).is_err());
    assert!(!r.get_settings().disable_printing);
    assert!(r.apply_restrictions(&s, Ok(())).is_ok());
    assert!(r.get_settings().disable_printing);
    assert_eq!(SystemRestrictions::remove_all_restrictions(), RestrictionSettings::default());
    assert!(matches!(
        RestrictionCommand::parse(&command("{\"id\":\"1\",\"command\":\"SET_RESTRICTIONS\",\"payload\":{\"disableUsb\":true}}")),
        Some(RestrictionCommand::Apply(x)) if x.disable_usb
    ));
    assert!(matches!(RestrictionCommand::parse(&command("{\"id\":\"1\",\"command\":\"GET_RESTRICTIONS\"}")), Some(RestrictionCommand::Get)));
    assert!(RestrictionCommand::parse(&command("{\"id\":\"1\",\"command\":\"SET_RESTRICTIONS\"}")).is_none());
}

#[test]
fn recordings_are_named_and_refused_while_running() {
    let mut rec = ScreenRecorder::new("/tmp/recordings".to_string());
    assert!(rec.start_recording(false, &Vec::new()).is_err());
    let input = vec!["-f".to_string(), "x11grab".to_string()];
    let plan = rec.start_recording(true, &input).unwrap();
    assert!(plan.id.starts_with("rec_"));
    let suffix = plan.id.rsplit('_').next().unwrap();
    assert_eq!(suffix.len(), 8);
    assert!(plan.output_path.ends_with(&format!("{}.mp4", plan.id)));
    assert_eq!(plan.args[0], "-y");
    assert_eq!(plan.args[1], "-f");
    assert_eq!(plan.args.last().unwrap(), &plan.output_path);
    rec.recording_started(plan, 1_000, 42);
    assert!(rec.is_recording());
    assert_eq!(rec.start_recording(true, &input).unwrap_err(), "Recording already in progress");
    assert_eq!(rec.get_status(4_500).to_text(), format!("{{\"isRecording\":true,\"recordingId\":\"{}\",\"duration\":3}}", rec.session.as_ref().unwrap().id));
    let stopped = rec.stop_recording(61_000).unwrap();
    assert_eq!(stopped.duration_secs, 60);
    assert_eq!(stopped.pid, Some(42));
    assert!(!rec.is_recording());
    assert_eq!(rec.stop_recording(0).unwrap_err(), "No recording in progress");
    assert_eq!(rec.get_status(0).to_text(), "{\"isRecording\":false,\"recordingId\":null,\"duration\":0}");
}

#[test]
fn encoder_arguments_wrap_the_input() {
    let args = ffmpeg_args(&vec!["-i".to_string(), ":0".to_string()], &"out.mp4".to_string());
    assert_eq!(
        args,
        ["-y", "-i", ":0", "-c:v", "libx264", "-preset", "ultrafast", "-crf", "28", "-pix_fmt", "yuv420p", "-r", "15", "out.mp4"]
            .iter()
            .map(|s| s.to_string())
            .collect::<Vec<String>>()
    );
}

#[test]
fn recording_upload_is_base64_in_chunks() {
    let chunks = recording_chunks(&"rec_1".to_string(), &b"hello".to_vec());
    assert_eq!(chunks.len(), 1);
    assert_eq!(chunks[0].to_text(), "{\"recordingId\":\"rec_1\",\"chunk\":\"aGVsbG8=\",\"chunkIndex\":0,\"totalChunks\":1}");
    let big = vec![0u8; 1_000_000];
    let chunks = recording_chunks(&"r".to_string(), &big);
    assert_eq!(chunks.len(), 2);
    assert!(recording_chunks(&"r".to_string(), &Vec::new()).is_empty());
}

#[test]
fn durations_and_expiry() {
    assert_eq!(elapsed_secs(1_000, 3_999), 2);
    assert_eq!(elapsed_secs(5_000, 1_000), 0);
    let week = 7 * 24 * 60 * 60 * 1000;
    assert!(is_expired(0, week + 1));
    assert!(!is_expired(1, week + 1));
    assert!(!is_expired(0, 10));
}

#[test]
fn supervisor_reconnects_every_second() {
    let mut s = Supervisor::new();
    assert_eq!(s.on_tick(false, false), SupervisorAction::Reconnect);
    for _ in 0..5 {
        s.on_reconnect_result(false);
        assert_eq!(s.tick_interval(), 1000);
        assert_eq!(s.on_tick(false, false), SupervisorAction::Reconnect);
    }
    assert_eq!(s.consecutive_failures, 5);
    s.on_reconnect_result(true);
    assert_eq!(s.consecutive_failures, 0);
    assert_eq!(s.on_tick(false, true), SupervisorAction::Wait);
    assert_eq!(s.on_tick(true, false), SupervisorAction::Shutdown);
}

#[test]
fn services_start_and_stop_in_order() {
    let mut app = AppState::new(SocketClient::new());
    assert!(!app.is_monitoring);
    let mut started = Vec::new();
    while let Some(id) = app.next_start(started.len()) {
        assert!(!app.is_monitoring);
        started.push(id);
    }
    assert!(app.is_monitoring);
    assert_eq!(started.len(), 6);
    assert_eq!(started.first(), Some(&ServiceId::ScreenCapture));
    assert_eq!(started.last(), Some(&ServiceId::Blocking));
    let stopped = app.shutdown_plan();
    assert_eq!(stopped.len(), 7);
    assert_eq!(stopped[5], ServiceId::Terminal);
}

#[test]
fn remote_control_defaults_quality_and_fps() {
    let p = StartRemoteControlPayload::from_json(&JsonValue::parse("{\"sessionId\":\"s\",\"mode\":\"view\"}").unwrap()).unwrap();
    assert_eq!(p.quality, default_quality());
    assert_eq!(p.fps, default_fps());
    assert_eq!((p.quality, p.fps), (60, 10));
    let p = StartRemoteControlPayload::from_json(&JsonValue::parse("{\"sessionId\":\"s\",\"mode\":\"view\",\"fps\":30}").unwrap()).unwrap();
    assert_eq!(p.fps, 30);
    assert!(StartRemoteControlPayload::from_json(&JsonValue::parse("{\"mode\":\"view\"}").unwrap()).is_none());
}

#[test]
fn input_events_decode() {
    let m = MouseEvent::from_json(&JsonValue::parse("{\"type\":\"click\",\"x\":-5,\"y\":7,\"button\":\"left\"}").unwrap()).unwrap();
    assert_eq!((m.x, m.y), (-5, 7));
    assert_eq!(m.button, Some("left".to_string()));
    assert_eq!(m.scroll_x, None);
    assert_eq!(MouseEventType::from_json(&JsonValue::parse("\"drag\"").unwrap()), Some(MouseEventType::Drag));
    let k = KeyboardEvent::from_json(&JsonValue::parse("{\"type\":\"keydown\",\"key\":\"a\",\"modifiers\":{\"ctrl\":true}}").unwrap()).unwrap();
    assert!(k.modifiers.ctrl);
    assert!(!k.modifiers.shift);
    assert_eq!(k.key_code, None);
}

#[test]
fn recorder_commands_and_cleanup() {
    assert!(matches!(RecorderCommand::parse(&command("{\"id\":\"1\",\"command\":\"STOP_RECORDING\"}")), Some(RecorderCommand::Stop)));
    assert!(RecorderCommand::parse(&command("{\"id\":\"1\",\"command\":\"BLOCK_WEBSITE\"}")).is_none());
    let rec = ScreenRecorder::new("/r".to_string());
    let week = 7 * 24 * 60 * 60 * 1000;
    let files = vec![
        RecordingFile { path: "/r/old.mp4".to_string(), modified_ms: 1 },
        RecordingFile { path: "/r/new.mp4".to_string(), modified_ms: week + 5 },
    ];
    assert_eq!(rec.cleanup_old_recordings(&files, week + 10), vec!["/r/old.mp4".to_string()]);
}

#[test]
fn only_a_reg_command_that_cannot_start_fails() {
    assert!(reg_command_outcome(None).is_ok());
    assert_eq!(
        reg_command_outcome(Some("not found".to_string())).unwrap_err(),
        "Failed to execute reg command: not found"
    );
}

#[test]
fn blocking_commands_lead_to_work_and_replies() {
    let mut s = BlockingService::new();
    let cmd = BlockingCommand::parse(&command("{\"id\":\"1\",\"command\":\"BLOCK_WEBSITE\",\"payload\":{\"domain\":\"a.com\"}}")).unwrap();
    assert!(matches!(s.begin_command(&cmd), BlockingWork::BlockSite(d) if d == "a.com"));
    let ok = s.finish_command(&cmd, true);
    assert_eq!(ok.response, Some("Website a.com blocked".to_string()));
    let failed = s.finish_command(&cmd, false);
    assert!(!failed.success);
    assert_eq!(failed.error, Some("Failed to block website".to_string()));

    let set = BlockingCommand::parse(&command("{\"id\":\"2\",\"command\":\"SET_BLOCKING_RULES\",\"payload\":{\"rules\":[{\"id\":\"r1\",\"type\":\"website\",\"pattern\":\"b.com\",\"mode\":\"block\",\"active\":true},{\"id\":\"r2\",\"type\":\"application\",\"pattern\":\"x\",\"mode\":\"block\",\"active\":true}]}}")).unwrap();
    match s.begin_command(&set) {
        BlockingWork::BlockSites(ds) => assert_eq!(ds, vec!["b.com".to_string()]),
        other => panic!("unexpected {:?}", other),
    }
    assert_eq!(s.website_rules.len(), 1);
    assert_eq!(s.application_rules.len(), 1);
    assert_eq!(s.finish_command(&set, true).response, Some("Blocking rules applied".to_string()));

    let app = BlockingCommand::parse(&command("{\"id\":\"3\",\"command\":\"BLOCK_APPLICATION\",\"payload\":{\"processName\":\"Game\"}}")).unwrap();
    assert!(matches!(s.begin_command(&app), BlockingWork::Nothing));
    assert_eq!(s.application_rules.len(), 2);
    assert_eq!(s.finish_command(&app, true).response, Some("Application Game blocked".to_string()));
}

#[test]
fn set_rules_returns_the_websites_to_block() {
    let mut s = BlockingService::new();
    let ds = s.set_rules(vec![
        rule("website", "a.com", "block", true),
        rule("website", "b.com", "allow", true),
        rule("website", "c.com", "block", false),
        rule("application", "d", "block", true),
    ]);
    assert_eq!(ds, vec!["a.com".to_string()]);
}

#[test]
fn restriction_commands_lead_to_work_and_replies() {
    let mut r = SystemRestrictions::new();
    let set = RestrictionCommand::parse(&command("{\"id\":\"1\",\"command\":\"SET_RESTRICTIONS\",\"payload\":{\"disablePrinting\":true}}")).unwrap();
    let work = SystemRestrictions::work_for(&set).unwrap();
    assert!(work.disable_printing);
    let reply = r.finish_command(&set, Err("boom".to_string()));
    assert!(!reply.success);
    assert_eq!(reply.error, Some("boom".to_string()));
    assert!(!r.get_settings().disable_printing);
    let reply = r.finish_command(&set, Ok(()));
    assert_eq!(reply.response, Some("Restrictions applied".to_string()));
    assert!(r.get_settings().disable_printing);
    let get = RestrictionCommand::parse(&command("{\"id\":\"2\",\"command\":\"GET_RESTRICTIONS\"}")).unwrap();
    assert!(SystemRestrictions::work_for(&get).is_none());
    assert!(r.finish_command(&get, Ok(())).response.unwrap().contains("\"disablePrinting\":true"));
    let remove = RestrictionCommand::parse(&command("{\"id\":\"3\",\"command\":\"REMOVE_RESTRICTIONS\"}")).unwrap();
    assert_eq!(SystemRestrictions::work_for(&remove), Some(RestrictionSettings::default()));
    assert_eq!(r.finish_command(&remove, Ok(())).response, Some("All restrictions removed".to_string()));
    assert!(!r.get_settings().disable_printing);
}

#[test]
fn encoder_start_outcome_sets_state_and_reply() {
    let mut rec = ScreenRecorder::new("/r".to_string());
    let plan = rec.start_recording(true, &Vec::new()).unwrap();
    let id = plan.id.clone();
    assert_eq!(rec.encoder_started(plan, 5, Err("no such file".to_string())).unwrap_err(), "Failed to start FFmpeg: no such file");
    assert!(!rec.is_recording());
    let plan = rec.start_recording(true, &Vec::new()).unwrap();
    let id2 = plan.id.clone();
    assert_eq!(rec.encoder_started(plan, 5, Ok(77)).unwrap(), id2);
    assert!(rec.is_recording());
    assert_eq!(rec.ffmpeg_process, Some(77));
    assert!(id.starts_with("rec_"));
    let reply = ScreenRecorder::command_reply(Ok(id2.clone()));
    assert!(reply.success);
    assert_eq!(reply.response, Some(id2));
    let reply = ScreenRecorder::command_reply(Err("x".to_string()));
    assert_eq!(reply.error, Some("x".to_string()));
}

#[test]
fn capture_input_per_platform() {
    assert_eq!(capture_input(Platform::Linux, None), ["-f", "x11grab", "-framerate", "15", "-i", ":0"].iter().map(|s| s.to_string()).collect::<Vec<_>>());
    assert_eq!(capture_input(Platform::Linux, Some(":1".to_string()))[5], ":1");
    assert_eq!(capture_input(Platform::Windows, None)[5], "desktop");
    assert_eq!(capture_input(Platform::MacOs, None)[1], "avfoundation");
    assert!(capture_input(Platform::Other, None).is_empty());
}
