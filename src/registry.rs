//! The event registry: which subscribers receive which inbound event, and the
//! decoding of each event's data into the payload its subscribers expect.
//!
//! Subscribers are named by numbers that the caller hands out; a single-slot
//! registration replaces the subscribers of its kind, a multi-slot one appends.

use vstd::prelude::*;
use crate::json::JsonValue;
use crate::events::{
    CommandPayload, StartScreenStreamPayload, RemoteInputPayload, StartRemoteControlPayload,
    StartTerminalPayload, TerminalInputPayload, FileTransferPayload, ListDirectoryPayload, command_fields,
    start_stream_fields, remote_input_fields, remote_control_fields, start_terminal_fields,
    terminal_input_fields, file_transfer_fields, list_directory_fields,
};
use crate::json::opt_views;
use crate::text::same_text;

verus! {

/// Kinds of inbound events that subscribers can register for.
#[derive(Clone, Copy, Debug, PartialEq, Eq, Structural)]
pub enum EventKind {
    AuthSuccess,
    AuthError,
    Command,
    StartScreenStream,
    StopScreenStream,
    CaptureScreenshot,
    RemoteInput,
    StartRemoteControl,
    StartTerminal,
    TerminalInput,
    FileTransfer,
    ListDirectory,
}

pub const KIND_COUNT: usize = 12;

pub open spec fn kind_index(k: EventKind) -> int {
    match k {
        EventKind::AuthSuccess => 0,
        EventKind::AuthError => 1,
        EventKind::Command => 2,
        EventKind::StartScreenStream => 3,
        EventKind::StopScreenStream => 4,
        EventKind::CaptureScreenshot => 5,
        EventKind::RemoteInput => 6,
        EventKind::StartRemoteControl => 7,
        EventKind::StartTerminal => 8,
        EventKind::TerminalInput => 9,
        EventKind::FileTransfer => 10,
        EventKind::ListDirectory => 11,
    }
}

pub fn index_of_kind(k: EventKind) -> (r: usize)
    ensures
        r as int == kind_index(k),
        r < KIND_COUNT,
{
    match k {
        EventKind::AuthSuccess => 0,
        EventKind::AuthError => 1,
        EventKind::Command => 2,
        EventKind::StartScreenStream => 3,
        EventKind::StopScreenStream => 4,
        EventKind::CaptureScreenshot => 5,
        EventKind::RemoteInput => 6,
        EventKind::StartRemoteControl => 7,
        EventKind::StartTerminal => 8,
        EventKind::TerminalInput => 9,
        EventKind::FileTransfer => 10,
        EventKind::ListDirectory => 11,
    }
}

/// The kind of event an inbound name stands for.
pub open spec fn kind_of_name(n: Seq<char>) -> Option<EventKind> {
    if n == "auth_success"@ {
        Some(EventKind::AuthSuccess)
    } else if n == "auth_error"@ {
        Some(EventKind::AuthError)
    } else if n == "command"@ {
        Some(EventKind::Command)
    } else if n == "start_screen_stream"@ {
        Some(EventKind::StartScreenStream)
    } else if n == "stop_screen_stream"@ {
        Some(EventKind::StopScreenStream)
    } else if n == "capture_screenshot"@ {
        Some(EventKind::CaptureScreenshot)
    } else if n == "remote_input"@ {
        Some(EventKind::RemoteInput)
    } else if n == "start_remote_control"@ {
        Some(EventKind::StartRemoteControl)
    } else if n == "start_terminal"@ {
        Some(EventKind::StartTerminal)
    } else if n == "terminal_input"@ {
        Some(EventKind::TerminalInput)
    } else if n == "file_transfer"@ {
        Some(EventKind::FileTransfer)
    } else if n == "list_directory"@ {
        Some(EventKind::ListDirectory)
    } else {
        None
    }
}

pub fn kind_of(name: &str) -> (r: Option<EventKind>)
    ensures
        r == kind_of_name(name@),
{
    if same_text(name, "auth_success") {
        Some(EventKind::AuthSuccess)
    } else if same_text(name, "auth_error") {
        Some(EventKind::AuthError)
    } else if same_text(name, "command") {
        Some(EventKind::Command)
    } else if same_text(name, "start_screen_stream") {
        Some(EventKind::StartScreenStream)
    } else if same_text(name, "stop_screen_stream") {
        Some(EventKind::StopScreenStream)
    } else if same_text(name, "capture_screenshot") {
        Some(EventKind::CaptureScreenshot)
    } else if same_text(name, "remote_input") {
        Some(EventKind::RemoteInput)
    } else if same_text(name, "start_remote_control") {
        Some(EventKind::StartRemoteControl)
    } else if same_text(name, "start_terminal") {
        Some(EventKind::StartTerminal)
    } else if same_text(name, "terminal_input") {
        Some(EventKind::TerminalInput)
    } else if same_text(name, "file_transfer") {
        Some(EventKind::FileTransfer)
    } else if same_text(name, "list_directory") {
        Some(EventKind::ListDirectory)
    } else {
        None
    }
}

/// An inbound event with its data decoded.
#[derive(Debug)]
pub enum InboundEvent {
    Command(CommandPayload),
    StartScreenStream { quality: u32, fps: u32 },
    StopScreenStream,
    CaptureScreenshot,
    RemoteInput(RemoteInputPayload),
    StartRemoteControl(StartRemoteControlPayload),
    StartTerminal(StartTerminalPayload),
    TerminalInput(TerminalInputPayload),
    FileTransfer(FileTransferPayload),
    ListDirectory(ListDirectoryPayload),
}

pub open spec fn event_kind(e: InboundEvent) -> EventKind {
    match e {
        InboundEvent::Command(_) => EventKind::Command,
        InboundEvent::StartScreenStream { .. } => EventKind::StartScreenStream,
        InboundEvent::StopScreenStream => EventKind::StopScreenStream,
        InboundEvent::CaptureScreenshot => EventKind::CaptureScreenshot,
        InboundEvent::RemoteInput(_) => EventKind::RemoteInput,
        InboundEvent::StartRemoteControl(_) => EventKind::StartRemoteControl,
        InboundEvent::StartTerminal(_) => EventKind::StartTerminal,
        InboundEvent::TerminalInput(_) => EventKind::TerminalInput,
        InboundEvent::FileTransfer(_) => EventKind::FileTransfer,
        InboundEvent::ListDirectory(_) => EventKind::ListDirectory,
    }
}

/// Whether data of an event of kind `k` decodes. Authentication outcomes are
/// read while connecting and are not dispatched from polls.
pub open spec fn decodes(k: EventKind, data: JsonValue) -> bool {
    match k {
        EventKind::AuthSuccess => false,
        EventKind::AuthError => false,
        EventKind::Command => command_fields(data) is Some,
        EventKind::StartScreenStream => start_stream_fields(data) is Some,
        EventKind::StopScreenStream => true,
        EventKind::CaptureScreenshot => true,
        EventKind::RemoteInput => remote_input_fields(data) is Some,
        EventKind::StartRemoteControl => remote_control_fields(data) is Some,
        EventKind::StartTerminal => start_terminal_fields(data) is Some,
        EventKind::TerminalInput => terminal_input_fields(data) is Some,
        EventKind::FileTransfer => file_transfer_fields(data) is Some,
        EventKind::ListDirectory => list_directory_fields(data) is Some,
    }
}

/// Whether `e` holds exactly what `data` says.
pub open spec fn decoded_from(e: InboundEvent, data: JsonValue) -> bool {
    match e {
        InboundEvent::Command(p) => command_fields(data) == Some((p.id@, p.command@, p.payload)),
        InboundEvent::StartScreenStream { quality, fps } => start_stream_fields(data) == Some((quality as int, fps as int)),
        InboundEvent::StopScreenStream => true,
        InboundEvent::CaptureScreenshot => true,
        InboundEvent::RemoteInput(p) => remote_input_fields(data) == Some((p.input_type@, p.event)),
        InboundEvent::StartRemoteControl(p) => remote_control_fields(data) == Some(
            (p.session_id@, p.mode@, p.quality as int, p.fps as int),
        ),
        InboundEvent::StartTerminal(p) => start_terminal_fields(data) == Some((p.session_id@, opt_views(p.shell))),
        InboundEvent::TerminalInput(p) => terminal_input_fields(data) == Some((p.session_id@, p.input@)),
        InboundEvent::FileTransfer(p) => file_transfer_fields(data) == Some(
            (p.transfer_id@, p.direction@, p.remote_path@, opt_views(p.file_data)),
        ),
        InboundEvent::ListDirectory(p) => list_directory_fields(data) == Some(p.path@),
    }
}

/// Decodes the data of an inbound event by its name; unknown names and data of
/// the wrong shape give `None`.
pub fn decode_inbound(name: &str, data: JsonValue) -> (r: Option<InboundEvent>)
    ensures
        match r {
            Some(e) => kind_of_name(name@) == Some(event_kind(e)) && decoded_from(e, data),
            None => !(kind_of_name(name@) is Some && decodes(kind_of_name(name@)->0, data)),
        },
{
    let k = match kind_of(name) {
        Some(k) => k,
        None => return None,
    };
    match k {
        EventKind::AuthSuccess => None,
        EventKind::AuthError => None,
        EventKind::Command => match CommandPayload::from_json(data) {
            Some(p) => Some(InboundEvent::Command(p)),
            None => None,
        },
        EventKind::StartScreenStream => match StartScreenStreamPayload::from_json(&data) {
            Some(p) => Some(InboundEvent::StartScreenStream { quality: p.quality, fps: p.fps }),
            None => None,
        },
        EventKind::StopScreenStream => Some(InboundEvent::StopScreenStream),
        EventKind::CaptureScreenshot => Some(InboundEvent::CaptureScreenshot),
        EventKind::RemoteInput => match RemoteInputPayload::from_json(data) {
            Some(p) => Some(InboundEvent::RemoteInput(p)),
            None => None,
        },
        EventKind::StartRemoteControl => match StartRemoteControlPayload::from_json(&data) {
            Some(p) => Some(InboundEvent::StartRemoteControl(p)),
            None => None,
        },
        EventKind::StartTerminal => match StartTerminalPayload::from_json(&data) {
            Some(p) => Some(InboundEvent::StartTerminal(p)),
            None => None,
        },
        EventKind::TerminalInput => match TerminalInputPayload::from_json(&data) {
            Some(p) => Some(InboundEvent::TerminalInput(p)),
            None => None,
        },
        EventKind::FileTransfer => match FileTransferPayload::from_json(&data) {
            Some(p) => Some(InboundEvent::FileTransfer(p)),
            None => None,
        },
        EventKind::ListDirectory => match ListDirectoryPayload::from_json(&data) {
            Some(p) => Some(InboundEvent::ListDirectory(p)),
            None => None,
        },
    }
}

/// Subscribers by event kind.
#[derive(Debug)]
pub struct Registry {
    pub slots: Vec<Vec<u64>>,
}

/// An event with the subscribers it goes to, in registration order.
#[derive(Debug)]
pub struct Delivery {
    pub event: InboundEvent,
    pub subscribers: Vec<u64>,
}

impl Registry {
    pub open spec fn wf(&self) -> bool {
        self.slots@.len() == KIND_COUNT
    }

    /// The subscribers of kind `k`, in the order they receive events.
    pub open spec fn subs(&self, k: EventKind) -> Seq<u64> {
        self.slots@[kind_index(k)]@
    }

    /// A registry with no subscribers.
    pub fn new() -> (r: Registry)
        ensures
            r.wf(),
            forall|k: EventKind| (#[trigger] r.subs(k)).len() == 0,
    {
        let mut slots: Vec<Vec<u64>> = Vec::new();
        let mut i: usize = 0;
        while i < KIND_COUNT
            invariant
                0 <= i <= KIND_COUNT,
                slots@.len() == i,
                forall|j: int| 0 <= j < i ==> (#[trigger] slots@[j])@.len() == 0,
            decreases KIND_COUNT - i,
        {
            slots.push(Vec::new());
            i = i + 1;
        }
        Registry { slots }
    }

    /// Makes `id` the only subscriber of `k`.
    pub fn register_single(&mut self, k: EventKind, id: u64)
        requires
            old(self).wf(),
        ensures
            final(self).wf(),
            final(self).subs(k) == seq![id],
            forall|o: EventKind| o != k ==> final(self).subs(o) == old(self).subs(o),
    {
        let i = index_of_kind(k);
        let mut v: Vec<u64> = Vec::new();
        v.push(id);
        self.slots.set(i, v);
        assert(final(self).subs(k) =~= seq![id]);
        assert forall|o: EventKind| o != k implies final(self).subs(o) == old(self).subs(o) by {
            assert(kind_index(o) != kind_index(k));
        }
    }

    /// Adds `id` after the current subscribers of `k`.
    pub fn register_multi(&mut self, k: EventKind, id: u64)
        requires
            old(self).wf(),
        ensures
            final(self).wf(),
            final(self).subs(k) == old(self).subs(k).push(id),
            forall|o: EventKind| o != k ==> final(self).subs(o) == old(self).subs(o),
    {
        let i = index_of_kind(k);
        let mut v = self.subscribers(k);
        v.push(id);
        self.slots.set(i, v);
        assert forall|o: EventKind| o != k implies final(self).subs(o) == old(self).subs(o) by {
            assert(kind_index(o) != kind_index(k));
        }
    }

    /// The subscribers of `k`, in order.
    pub fn subscribers(&self, k: EventKind) -> (r: Vec<u64>)
        requires
            self.wf(),
        ensures
            r@ == self.subs(k),
    {
        let i = index_of_kind(k);
        let src = &self.slots[i];
        let mut r: Vec<u64> = Vec::new();
        let mut j: usize = 0;
        while j < src.len()
            invariant
                0 <= j <= src@.len(),
                r@ == src@.subrange(0, j as int),
            decreases src.len() - j,
        {
            r.push(src[j]);
            assert(r@ =~= src@.subrange(0, j + 1));
            j = j + 1;
        }
        assert(r@ =~= src@);
        r
    }

    /// Decodes an inbound event and pairs it with every current subscriber of its
    /// kind; `None` when the name is unknown or the data does not decode.
    pub fn dispatch(&self, name: &str, data: JsonValue) -> (r: Option<Delivery>)
        requires
            self.wf(),
        ensures
            match r {
                Some(d) => kind_of_name(name@) == Some(event_kind(d.event)) && decoded_from(d.event, data)
                    && d.subscribers@ == self.subs(event_kind(d.event)),
                None => !(kind_of_name(name@) is Some && decodes(kind_of_name(name@)->0, data)),
            },
    {
        match decode_inbound(name, data) {
            Some(e) => {
                let k = match &e {
                    InboundEvent::Command(_) => EventKind::Command,
                    InboundEvent::StartScreenStream { .. } => EventKind::StartScreenStream,
                    InboundEvent::StopScreenStream => EventKind::StopScreenStream,
                    InboundEvent::CaptureScreenshot => EventKind::CaptureScreenshot,
                    InboundEvent::RemoteInput(_) => EventKind::RemoteInput,
                    InboundEvent::StartRemoteControl(_) => EventKind::StartRemoteControl,
                    InboundEvent::StartTerminal(_) => EventKind::StartTerminal,
                    InboundEvent::TerminalInput(_) => EventKind::TerminalInput,
                    InboundEvent::FileTransfer(_) => EventKind::FileTransfer,
                    InboundEvent::ListDirectory(_) => EventKind::ListDirectory,
                };
                let subscribers = self.subscribers(k);
                Some(Delivery { event: e, subscribers })
            },
            None => None,
        }
    }
}

/// Fan-out: two subscribers appended in turn to the command slot of a registry
/// that had none both receive every command, once each, in the order they
/// were registered.
pub proof fn law_multi_fanout(r0: Registry, r1: Registry, r2: Registry, a: u64, b: u64)
    requires
        r0.wf(),
        r0.subs(EventKind::Command).len() == 0,
        r1.subs(EventKind::Command) == r0.subs(EventKind::Command).push(a),
        r2.subs(EventKind::Command) == r1.subs(EventKind::Command).push(b),
    ensures
        r2.subs(EventKind::Command) == seq![a, b],
{
    assert(r2.subs(EventKind::Command) =~= seq![a, b]);
}

} // verus!
