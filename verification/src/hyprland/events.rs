//! The compositor's event stream: classifying event lines and the life cycle
//! of the listener that reads them.

use vstd::prelude::*;
use crate::hyprland::{socket_path, socket_path_text};
use crate::text::{
    append_chars, chars_of, find, is_text, lemma_find_from, occurs_at, opt_text, split_once,
    split_once_chars, string_of,
};

verus! {

/// The kinds of event that the listener forwards.
#[derive(Clone, Copy, Debug, PartialEq, Eq, Structural)]
pub enum EventKind {
    Workspace,
    ActiveWindow,
    OpenWindow,
    CloseWindow,
    WindowTitle,
    CreateWorkspace,
    DestroyWorkspace,
}

/// One event of the compositor. The payload is the compositor's raw
/// argument text; splitting it into fields is left to the consumer.
#[derive(Debug, Clone)]
pub enum HyprEvent {
    Workspace(String),
    ActiveWindow(String),
    OpenWindow(String),
    CloseWindow(String),
    WindowTitle(String),
    CreateWorkspace(String),
    DestroyWorkspace(String),
}

impl HyprEvent {
    /// The kind of this event.
    pub open spec fn spec_kind(&self) -> EventKind {
        match self {
            HyprEvent::Workspace(_) => EventKind::Workspace,
            HyprEvent::ActiveWindow(_) => EventKind::ActiveWindow,
            HyprEvent::OpenWindow(_) => EventKind::OpenWindow,
            HyprEvent::CloseWindow(_) => EventKind::CloseWindow,
            HyprEvent::WindowTitle(_) => EventKind::WindowTitle,
            HyprEvent::CreateWorkspace(_) => EventKind::CreateWorkspace,
            HyprEvent::DestroyWorkspace(_) => EventKind::DestroyWorkspace,
        }
    }

    /// The payload of this event.
    pub open spec fn spec_payload(&self) -> Seq<char> {
        match self {
            HyprEvent::Workspace(d) => d@,
            HyprEvent::ActiveWindow(d) => d@,
            HyprEvent::OpenWindow(d) => d@,
            HyprEvent::CloseWindow(d) => d@,
            HyprEvent::WindowTitle(d) => d@,
            HyprEvent::CreateWorkspace(d) => d@,
            HyprEvent::DestroyWorkspace(d) => d@,
        }
    }

    /// The event of kind `kind` with payload `data`.
    pub fn of_kind(kind: EventKind, data: String) -> (event: HyprEvent)
        ensures
            event.spec_kind() == kind,
            event.spec_payload() == data@,
    {
        match kind {
            EventKind::Workspace => HyprEvent::Workspace(data),
            EventKind::ActiveWindow => HyprEvent::ActiveWindow(data),
            EventKind::OpenWindow => HyprEvent::OpenWindow(data),
            EventKind::CloseWindow => HyprEvent::CloseWindow(data),
            EventKind::WindowTitle => HyprEvent::WindowTitle(data),
            EventKind::CreateWorkspace => HyprEvent::CreateWorkspace(data),
            EventKind::DestroyWorkspace => HyprEvent::DestroyWorkspace(data),
        }
    }

    /// The kind of this event.
    #[verifier::when_used_as_spec(spec_kind)]
    pub fn kind(&self) -> (kind: EventKind)
        ensures
            kind == self.spec_kind(),
    {
        match self {
            HyprEvent::Workspace(_) => EventKind::Workspace,
            HyprEvent::ActiveWindow(_) => EventKind::ActiveWindow,
            HyprEvent::OpenWindow(_) => EventKind::OpenWindow,
            HyprEvent::CloseWindow(_) => EventKind::CloseWindow,
            HyprEvent::WindowTitle(_) => EventKind::WindowTitle,
            HyprEvent::CreateWorkspace(_) => EventKind::CreateWorkspace,
            HyprEvent::DestroyWorkspace(_) => EventKind::DestroyWorkspace,
        }
    }

    /// The payload of this event.
    pub fn payload(&self) -> (data: &String)
        ensures
            data@ == self.spec_payload(),
    {
        match self {
            HyprEvent::Workspace(d) => d,
            HyprEvent::ActiveWindow(d) => d,
            HyprEvent::OpenWindow(d) => d,
            HyprEvent::CloseWindow(d) => d,
            HyprEvent::WindowTitle(d) => d,
            HyprEvent::CreateWorkspace(d) => d,
            HyprEvent::DestroyWorkspace(d) => d,
        }
    }
}

/// The life cycle of a listener. `start` takes an idle listener through
/// `Connected` to `Streaming`; `stop` takes it to `Stopped`.
#[derive(Clone, Copy, Debug, PartialEq, Eq, Structural)]
pub enum ListenerState {
    Idle,
    Connected,
    Streaming,
    Stopped,
}

/// Why a listener could not be made or started.
#[derive(Debug, Clone)]
pub enum ListenerError {
    /// `HYPRLAND_INSTANCE_SIGNATURE` is not set.
    NotConfigured,
    /// The event socket could not be connected; the text says why.
    Io(String),
}

impl ListenerError {
    /// The text of this error.
    pub open spec fn spec_message(&self) -> Seq<char> {
        match self {
            ListenerError::NotConfigured => "HYPRLAND_INSTANCE_SIGNATURE not set"@,
            ListenerError::Io(why) => "Failed to connect to event socket: "@ + why@,
        }
    }

    /// The text of this error.
    pub fn message(&self) -> (text: String)
        ensures
            text@ == self.spec_message(),
    {
        match self {
            ListenerError::NotConfigured => string_of(
                &chars_of("HYPRLAND_INSTANCE_SIGNATURE not set"),
            ),
            ListenerError::Io(why) => {
                let mut out = chars_of("Failed to connect to event socket: ");
                append_chars(&mut out, &chars_of(why.as_str()));
                string_of(&out)
            },
        }
    }
}

/// What a listener is: the socket it reads and where it is in its life cycle.
pub struct ListenerView {
    pub socket_path: Seq<char>,
    pub state: ListenerState,
}

/// The listener on the compositor's event socket.
pub struct EventListener {
    socket_path: String,
    state: ListenerState,
}

impl View for EventListener {
    type V = ListenerView;

    closed spec fn view(&self) -> ListenerView {
        ListenerView { socket_path: self.socket_path@, state: self.state }
    }
}

/// The state after `stop`: a connected or streaming listener is stopped, any
/// other stays as it is.
pub open spec fn stopped(state: ListenerState) -> ListenerState {
    match state {
        ListenerState::Connected | ListenerState::Streaming => ListenerState::Stopped,
        ListenerState::Idle => ListenerState::Idle,
        ListenerState::Stopped => ListenerState::Stopped,
    }
}

impl EventListener {
    /// An idle listener on the event socket of the compositor instance
    /// `signature`. Without a signature there is no socket to name.
    pub fn new(signature: Option<&str>, runtime_dir: Option<&str>) -> (made: Result<
        Self,
        ListenerError,
    >)
        ensures
            match made {
                Ok(listener) => signature matches Some(sig) && listener@ == (ListenerView {
                    socket_path: socket_path_text(opt_text(runtime_dir), sig@, ".socket2.sock"@),
                    state: ListenerState::Idle,
                }),
                Err(e) => signature is None && e is NotConfigured,
            },
    {
        match signature {
            Some(sig) => Ok(
                EventListener {
                    socket_path: socket_path(runtime_dir, sig, ".socket2.sock"),
                    state: ListenerState::Idle,
                },
            ),
            None => Err(ListenerError::NotConfigured),
        }
    }

    /// The path of the socket that this listener reads.
    pub fn socket_path(&self) -> (path: &String)
        ensures
            path@ == self@.socket_path,
    {
        &self.socket_path
    }

    /// Where this listener is in its life cycle.
    pub fn state(&self) -> (state: ListenerState)
        ensures
            state == self@.state,
    {
        self.state
    }

    /// Whether the reader is to go on: true from `start` until `stop`.
    pub fn is_running(&self) -> (running: bool)
        ensures
            running == (self@.state == ListenerState::Streaming),
    {
        self.state == ListenerState::Streaming
    }

    /// Records the attempt to connect the event socket. After a successful
    /// connect the listener is streaming; after a failed one it is unchanged
    /// and the failure is returned.
    pub fn start(&mut self, connected: Result<(), String>) -> (started: Result<(), ListenerError>)
        ensures
            final(self)@.socket_path == old(self)@.socket_path,
            match connected {
                Ok(_) => started is Ok && final(self)@.state == ListenerState::Streaming,
                Err(why) => started == Err::<(), ListenerError>(ListenerError::Io(why))
                    && final(self)@.state == old(self)@.state,
            },
    {
        match connected {
            Ok(_) => {
                self.state = ListenerState::Connected;
                self.state = ListenerState::Streaming;
                Ok(())
            },
            Err(why) => Err(ListenerError::Io(why)),
        }
    }

    /// Asks the reader to end. A listener that is already stopped, or was
    /// never started, is left as it is.
    pub fn stop(&mut self)
        ensures
            final(self)@.socket_path == old(self)@.socket_path,
            final(self)@.state == stopped(old(self)@.state),
    {
        match self.state {
            ListenerState::Connected | ListenerState::Streaming => {
                self.state = ListenerState::Stopped;
            },
            _ => {},
        }
    }
}

/// Stopping twice is stopping once, and a stopped listener stays stopped.
pub proof fn law_stop_is_idempotent(state: ListenerState)
    ensures
        stopped(stopped(state)) == stopped(state),
        stopped(ListenerState::Stopped) == ListenerState::Stopped,
{
}

/// What the reader of the event socket has just seen.
pub enum ReaderEvent {
    /// A line was read, without its line ending.
    Line(String),
    /// The socket failed or reached its end.
    ReadFailed,
    /// The event forwarded last was taken by the channel.
    Delivered,
    /// The channel's receiving end is gone.
    ChannelClosed,
}

/// What the reader of the event socket does next.
pub enum ReaderAction {
    /// Read the next line.
    ReadNext,
    /// Push this event onto the channel.
    Forward(HyprEvent),
    /// Leave the loop: the reader ends.
    Exit,
}

/// The reader's rule. The running flag is looked at before a line is
/// processed; a line that stands for no event is skipped; a failed read or a
/// closed channel ends the reader.
pub open spec fn reader_rule(running: bool, event: ReaderEvent, action: ReaderAction) -> bool {
    match event {
        ReaderEvent::Line(line) => if !running {
            action is Exit
        } else {
            match parse_line(line@) {
                Some((kind, data)) => action matches ReaderAction::Forward(e) && e.spec_kind()
                    == kind && e.spec_payload() == data,
                None => action is ReadNext,
            }
        },
        ReaderEvent::ReadFailed => action is Exit,
        ReaderEvent::Delivered => action is ReadNext,
        ReaderEvent::ChannelClosed => action is Exit,
    }
}

/// Decides what the reader does after `event`, given the running flag as it
/// is now.
pub fn reader_step(running: bool, event: ReaderEvent) -> (action: ReaderAction)
    ensures
        reader_rule(running, event, action),
{
    match event {
        ReaderEvent::Line(line) => {
            if !running {
                ReaderAction::Exit
            } else {
                match parse_event_line(line.as_str()) {
                    Some(e) => ReaderAction::Forward(e),
                    None => ReaderAction::ReadNext,
                }
            }
        },
        ReaderEvent::ReadFailed => ReaderAction::Exit,
        ReaderEvent::Delivered => ReaderAction::ReadNext,
        ReaderEvent::ChannelClosed => ReaderAction::Exit,
    }
}

/// What separates the event type from its data on an event line.
pub open spec fn delimiter() -> Seq<char> {
    ">>"@
}

/// The table of event types. A type and its `v2` form name the same kind;
/// any other type names none.
pub open spec fn classify(event_type: Seq<char>) -> Option<EventKind> {
    if event_type == "workspace"@ || event_type == "workspacev2"@ {
        Some(EventKind::Workspace)
    } else if event_type == "activewindow"@ || event_type == "activewindowv2"@ {
        Some(EventKind::ActiveWindow)
    } else if event_type == "openwindow"@ {
        Some(EventKind::OpenWindow)
    } else if event_type == "closewindow"@ {
        Some(EventKind::CloseWindow)
    } else if event_type == "windowtitle"@ || event_type == "windowtitlev2"@ {
        Some(EventKind::WindowTitle)
    } else if event_type == "createworkspace"@ || event_type == "createworkspacev2"@ {
        Some(EventKind::CreateWorkspace)
    } else if event_type == "destroyworkspace"@ || event_type == "destroyworkspacev2"@ {
        Some(EventKind::DestroyWorkspace)
    } else {
        None
    }
}

/// The event that one line of the event socket stands for: the line is cut
/// at the first `>>`, what stands before it is looked up in the table, what
/// stands after it is the payload. A line without `>>` or with a type that
/// the table lacks stands for no event.
pub open spec fn parse_line(line: Seq<char>) -> Option<(EventKind, Seq<char>)> {
    match split_once(line, delimiter()) {
        Some((event_type, data)) => match classify(event_type) {
            Some(kind) => Some((kind, data)),
            None => None,
        },
        None => None,
    }
}

/// Looks an event type up in the table.
pub fn classify_type(event_type: &Vec<char>) -> (kind: Option<EventKind>)
    ensures
        kind == classify(event_type@),
{
    if is_text(event_type, "workspace") || is_text(event_type, "workspacev2") {
        Some(EventKind::Workspace)
    } else if is_text(event_type, "activewindow") || is_text(event_type, "activewindowv2") {
        Some(EventKind::ActiveWindow)
    } else if is_text(event_type, "openwindow") {
        Some(EventKind::OpenWindow)
    } else if is_text(event_type, "closewindow") {
        Some(EventKind::CloseWindow)
    } else if is_text(event_type, "windowtitle") || is_text(event_type, "windowtitlev2") {
        Some(EventKind::WindowTitle)
    } else if is_text(event_type, "createworkspace") || is_text(
        event_type,
        "createworkspacev2",
    ) {
        Some(EventKind::CreateWorkspace)
    } else if is_text(event_type, "destroyworkspace") || is_text(
        event_type,
        "destroyworkspacev2",
    ) {
        Some(EventKind::DestroyWorkspace)
    } else {
        None
    }
}

/// Classifies one line of the event socket.
pub fn parse_event_line(line: &str) -> (event: Option<HyprEvent>)
    ensures
        match event {
            Some(e) => parse_line(line@) == Some((e.spec_kind(), e.spec_payload())),
            None => parse_line(line@) is None,
        },
{
    let chars = chars_of(line);
    let delim = chars_of(">>");
    match split_once_chars(&chars, &delim) {
        Some((event_type, data)) => match classify_type(&event_type) {
            Some(kind) => Some(HyprEvent::of_kind(kind, string_of(&data))),
            None => None,
        },
        None => None,
    }
}

/// No event type of the table holds the character `>`.
proof fn lemma_known_types_hold_no_delimiter(event_type: Seq<char>)
    requires
        classify(event_type) is Some,
    ensures
        forall|i: int| 0 <= i < event_type.len() ==> event_type[i] != '>',
{
    reveal_strlit("workspace");
    reveal_strlit("workspacev2");
    reveal_strlit("activewindow");
    reveal_strlit("activewindowv2");
    reveal_strlit("openwindow");
    reveal_strlit("closewindow");
    reveal_strlit("windowtitle");
    reveal_strlit("windowtitlev2");
    reveal_strlit("createworkspace");
    reveal_strlit("createworkspacev2");
    reveal_strlit("destroyworkspace");
    reveal_strlit("destroyworkspacev2");
}

/// A line made of a type of the table, `>>` and a payload stands for exactly
/// the event of that type's kind, and its payload is the given one, character
/// for character.
pub proof fn law_known_line_gives_its_event(event_type: Seq<char>, payload: Seq<char>)
    requires
        classify(event_type) is Some,
    ensures
        parse_line(event_type + delimiter() + payload) == Some(
            (classify(event_type)->Some_0, payload),
        ),
{
    reveal_strlit(">>");
    let line = event_type + delimiter() + payload;
    let n = event_type.len() as int;
    lemma_known_types_hold_no_delimiter(event_type);
    lemma_find_from(line, delimiter(), 0);
    assert(line.subrange(n, n + 2) == delimiter());
    assert(occurs_at(line, delimiter(), n));
    assert forall|j: int| 0 <= j < n implies !occurs_at(line, delimiter(), j) by {
        if occurs_at(line, delimiter(), j) {
            assert(line.subrange(j, j + 2)[0] == '>');
            assert(line[j] == event_type[j]);
        }
    }
    assert(find(line, delimiter()) == Some(n));
    assert(line.take(n) == event_type);
    assert(line.skip(n + 2) == payload);
}

/// A line without `>>`, and a line whose text before the first `>>` is no
/// type of the table, stands for no event.
pub proof fn law_other_lines_give_no_event(line: Seq<char>)
    requires
        match split_once(line, delimiter()) {
            Some((event_type, _)) => classify(event_type) is None,
            None => true,
        },
    ensures
        parse_line(line) is None,
{
}

} // verus!
