//! The command client: the requests it issues on the compositor's command
//! socket and what it makes of the replies.
//!
//! The client performs no I/O. Each operation gives a `Request`; the caller
//! carries out one connect-send-read-close cycle with the request's command
//! and hands the outcome to `Request::finish`.

use vstd::prelude::*;
use crate::hyprland::{socket_path, socket_path_text};
use crate::json::{
    Json, JsonView, i32_of, json_text, json_views, lemma_json_views, member, parse_json,
    text_of,
};
use crate::text::{
    append_chars, chars_of, concat_text, opt_text, owned, push_signed_decimal, signed_decimal,
    string_of,
};

verus! {

/// One workspace of the compositor.
#[derive(Debug, Clone)]
pub struct Workspace {
    pub id: i32,
    pub name: String,
    pub windows: i32,
    pub monitor: String,
}

/// What a workspace holds.
pub struct WorkspaceView {
    pub id: i32,
    pub name: Seq<char>,
    pub windows: i32,
    pub monitor: Seq<char>,
}

impl View for Workspace {
    type V = WorkspaceView;

    open spec fn view(&self) -> WorkspaceView {
        WorkspaceView {
            id: self.id,
            name: self.name@,
            windows: self.windows,
            monitor: self.monitor@,
        }
    }
}

/// The workspace that a window is on.
#[derive(Debug, Clone)]
pub struct WorkspaceRef {
    pub id: i32,
    pub name: String,
}

/// What a workspace reference holds.
pub struct WorkspaceRefView {
    pub id: i32,
    pub name: Seq<char>,
}

impl View for WorkspaceRef {
    type V = WorkspaceRefView;

    open spec fn view(&self) -> WorkspaceRefView {
        WorkspaceRefView { id: self.id, name: self.name@ }
    }
}

impl Default for WorkspaceRef {
    fn default() -> (made: WorkspaceRef)
        ensures
            made@ == default_workspace_ref(),
    {
        WorkspaceRef { id: 0, name: String::new() }
    }
}

/// One window of the compositor.
#[derive(Debug, Clone)]
pub struct Window {
    pub address: String,
    pub title: String,
    pub class: String,
    pub workspace: WorkspaceRef,
}

/// What a window holds.
pub struct WindowView {
    pub address: Seq<char>,
    pub title: Seq<char>,
    pub class: Seq<char>,
    pub workspace: WorkspaceRefView,
}

impl View for Window {
    type V = WindowView;

    open spec fn view(&self) -> WindowView {
        WindowView {
            address: self.address@,
            title: self.title@,
            class: self.class@,
            workspace: self.workspace@,
        }
    }
}

/// What a list of workspaces holds, in order.
pub open spec fn workspace_views(list: Seq<Workspace>) -> Seq<WorkspaceView> {
    list.map_values(|w: Workspace| w@)
}

/// What a list of windows holds, in order.
pub open spec fn window_views(list: Seq<Window>) -> Seq<WindowView> {
    list.map_values(|w: Window| w@)
}

// ---------------------------------------------------------------------------
// The shape of replies
// ---------------------------------------------------------------------------

/// A record is written as an object, or as an array of its fields in their
/// order, which may stop early but not run over.
pub open spec fn is_record(value: JsonView, width: int) -> bool {
    match value {
        JsonView::Object(_) => true,
        JsonView::Array(items) => items.len() <= width,
        _ => false,
    }
}

/// The field `name`, which is the field number `index`, of a record.
pub open spec fn record_member(value: JsonView, index: int, name: Seq<char>) -> Option<JsonView> {
    match value {
        JsonView::Object(_) => member(value, name),
        JsonView::Array(items) => if 0 <= index < items.len() {
            Some(items[index])
        } else {
            None
        },
        _ => None,
    }
}

/// A text field that must be there.
pub open spec fn required_text(value: JsonView, index: int, name: Seq<char>) -> Option<Seq<char>> {
    match record_member(value, index, name) {
        Some(field) => text_of(field),
        None => None,
    }
}

/// A text field that is empty when it is not there.
pub open spec fn defaulted_text(value: JsonView, index: int, name: Seq<char>) -> Option<
    Seq<char>,
> {
    match record_member(value, index, name) {
        Some(field) => text_of(field),
        None => Some(Seq::<char>::empty()),
    }
}

/// A 32-bit integer field that must be there.
pub open spec fn required_i32(value: JsonView, index: int, name: Seq<char>) -> Option<i32> {
    match record_member(value, index, name) {
        Some(field) => i32_of(field),
        None => None,
    }
}

/// The workspace that a JSON value describes: `id`, `name` and `windows`
/// must be there, `monitor` may be missing and is then empty. Members of
/// other names are ignored.
pub open spec fn workspace_of(value: JsonView) -> Option<WorkspaceView> {
    if !is_record(value, 4) {
        None
    } else {
        match (
            required_i32(value, 0, "id"@),
            required_text(value, 1, "name"@),
            required_i32(value, 2, "windows"@),
            defaulted_text(value, 3, "monitor"@),
        ) {
            (Some(id), Some(name), Some(windows), Some(monitor)) => Some(
                WorkspaceView { id, name, windows, monitor },
            ),
            _ => None,
        }
    }
}

/// The workspace reference of a window whose reply names none.
pub open spec fn default_workspace_ref() -> WorkspaceRefView {
    WorkspaceRefView { id: 0, name: Seq::<char>::empty() }
}

/// The workspace reference that a JSON value describes: `id` and `name` must
/// be there.
pub open spec fn workspace_ref_of(value: JsonView) -> Option<WorkspaceRefView> {
    if !is_record(value, 2) {
        None
    } else {
        match (required_i32(value, 0, "id"@), required_text(value, 1, "name"@)) {
            (Some(id), Some(name)) => Some(WorkspaceRefView { id, name }),
            _ => None,
        }
    }
}

/// The window that a JSON value describes: `address` and `class` must be
/// there; `title` may be missing and is then empty; `workspace` may be
/// missing and is then the default reference.
pub open spec fn window_of(value: JsonView) -> Option<WindowView> {
    if !is_record(value, 4) {
        None
    } else {
        match (
            required_text(value, 0, "address"@),
            defaulted_text(value, 1, "title"@),
            required_text(value, 2, "class"@),
            match record_member(value, 3, "workspace"@) {
                Some(field) => workspace_ref_of(field),
                None => Some(default_workspace_ref()),
            },
        ) {
            (Some(address), Some(title), Some(class), Some(workspace)) => Some(
                WindowView { address, title, class, workspace },
            ),
            _ => None,
        }
    }
}

/// The workspaces that a JSON value lists: it must be an array whose every
/// item describes a workspace.
pub open spec fn workspaces_of(value: JsonView) -> Option<Seq<WorkspaceView>> {
    match value {
        JsonView::Array(items) => if forall|i: int|
            0 <= i < items.len() ==> workspace_of(#[trigger] items[i]) is Some {
            Some(Seq::new(items.len(), |i: int| workspace_of(items[i])->Some_0))
        } else {
            None
        },
        _ => None,
    }
}

/// The windows that a JSON value lists: it must be an array whose every item
/// describes a window.
pub open spec fn windows_of(value: JsonView) -> Option<Seq<WindowView>> {
    match value {
        JsonView::Array(items) => if forall|i: int|
            0 <= i < items.len() ==> window_of(#[trigger] items[i]) is Some {
            Some(Seq::new(items.len(), |i: int| window_of(items[i])->Some_0))
        } else {
            None
        },
        _ => None,
    }
}

/// Whether a JSON value is written as a record of at most `width` fields.
fn check_record(value: &Json, width: usize) -> (ok: bool)
    ensures
        ok == is_record(value@, width as int),
{
    match value {
        Json::Object(_) => true,
        Json::Array(items) => {
            proof {
                lemma_json_views(items@);
            }
            assert(value@ == JsonView::Array(json_views(items@)));
            items.len() <= width
        },
        _ => false,
    }
}

/// The field `name`, which is the field number `index`, of a record.
fn get_member<'a>(value: &'a Json, index: usize, name: &str) -> (found: Option<&'a Json>)
    ensures
        match found {
            Some(field) => record_member(value@, index as int, name@) == Some(field@),
            None => record_member(value@, index as int, name@) is None,
        },
{
    match value {
        Json::Object(_) => value.get(name),
        Json::Array(items) => {
            proof {
                lemma_json_views(items@);
            }
            assert(value@ == JsonView::Array(json_views(items@)));
            if index < items.len() {
                Some(&items[index])
            } else {
                None
            }
        },
        _ => None,
    }
}

fn get_required_text(value: &Json, index: usize, name: &str) -> (text: Option<String>)
    ensures
        match text {
            Some(t) => required_text(value@, index as int, name@) == Some(t@),
            None => required_text(value@, index as int, name@) is None,
        },
{
    match get_member(value, index, name) {
        Some(field) => match field.as_str() {
            Some(t) => Some(t.clone()),
            None => None,
        },
        None => None,
    }
}

fn get_defaulted_text(value: &Json, index: usize, name: &str) -> (text: Option<String>)
    ensures
        match text {
            Some(t) => defaulted_text(value@, index as int, name@) == Some(t@),
            None => defaulted_text(value@, index as int, name@) is None,
        },
{
    match get_member(value, index, name) {
        Some(field) => match field.as_str() {
            Some(t) => Some(t.clone()),
            None => None,
        },
        None => Some(String::new()),
    }
}

fn get_required_i32(value: &Json, index: usize, name: &str) -> (n: Option<i32>)
    ensures
        n == required_i32(value@, index as int, name@),
{
    match get_member(value, index, name) {
        Some(field) => field.as_i32(),
        None => None,
    }
}

impl Workspace {
    /// Reads a workspace from the JSON value that describes it.
    pub fn from_json(value: &Json) -> (made: Option<Workspace>)
        ensures
            match made {
                Some(w) => workspace_of(value@) == Some(w@),
                None => workspace_of(value@) is None,
            },
    {
        if !check_record(value, 4) {
            return None;
        }
        let id = get_required_i32(value, 0, "id");
        let name = get_required_text(value, 1, "name");
        let windows = get_required_i32(value, 2, "windows");
        let monitor = get_defaulted_text(value, 3, "monitor");
        match (id, name, windows, monitor) {
            (Some(id), Some(name), Some(windows), Some(monitor)) => Some(
                Workspace { id, name, windows, monitor },
            ),
            _ => None,
        }
    }

    /// Reads a list of workspaces from the JSON value that lists them.
    pub fn list_from_json(value: &Json) -> (made: Option<Vec<Workspace>>)
        ensures
            match made {
                Some(list) => workspaces_of(value@) == Some(workspace_views(list@)),
                None => workspaces_of(value@) is None,
            },
    {
        match value.as_array() {
            Some(items) => {
                let mut out: Vec<Workspace> = Vec::new();
                let mut i: usize = 0;
                while i < items.len()
                    invariant
                        i <= items.len(),
                        value@ == JsonView::Array(json_views(items@)),
                        out.len() == i,
                        forall|j: int|
                            0 <= j < i ==> workspace_of(#[trigger] json_views(items@)[j]) == Some(
                                out[j]@,
                            ),
                    decreases items.len() - i,
                {
                    proof {
                        lemma_json_views(items@);
                    }
                    match Workspace::from_json(&items[i]) {
                        Some(w) => out.push(w),
                        None => {
                            assert(workspace_of(json_views(items@)[i as int]) is None);
                            return None;
                        },
                    }
                    i += 1;
                }
                proof {
                    lemma_json_views(items@);
                    assert(workspaces_of(value@)->Some_0 =~= workspace_views(out@));
                }
                Some(out)
            },
            None => None,
        }
    }
}

impl WorkspaceRef {
    /// Reads a workspace reference from the JSON value that describes it.
    pub fn from_json(value: &Json) -> (made: Option<WorkspaceRef>)
        ensures
            match made {
                Some(w) => workspace_ref_of(value@) == Some(w@),
                None => workspace_ref_of(value@) is None,
            },
    {
        if !check_record(value, 2) {
            return None;
        }
        let id = get_required_i32(value, 0, "id");
        let name = get_required_text(value, 1, "name");
        match (id, name) {
            (Some(id), Some(name)) => Some(WorkspaceRef { id, name }),
            _ => None,
        }
    }
}

impl Window {
    /// Reads a window from the JSON value that describes it.
    pub fn from_json(value: &Json) -> (made: Option<Window>)
        ensures
            match made {
                Some(w) => window_of(value@) == Some(w@),
                None => window_of(value@) is None,
            },
    {
        if !check_record(value, 4) {
            return None;
        }
        let address = get_required_text(value, 0, "address");
        let title = get_defaulted_text(value, 1, "title");
        let class = get_required_text(value, 2, "class");
        let workspace = match get_member(value, 3, "workspace") {
            Some(field) => WorkspaceRef::from_json(field),
            None => Some(WorkspaceRef::default()),
        };
        match (address, title, class, workspace) {
            (Some(address), Some(title), Some(class), Some(workspace)) => Some(
                Window { address, title, class, workspace },
            ),
            _ => None,
        }
    }

    /// Reads a list of windows from the JSON value that lists them.
    pub fn list_from_json(value: &Json) -> (made: Option<Vec<Window>>)
        ensures
            match made {
                Some(list) => windows_of(value@) == Some(window_views(list@)),
                None => windows_of(value@) is None,
            },
    {
        match value.as_array() {
            Some(items) => {
                let mut out: Vec<Window> = Vec::new();
                let mut i: usize = 0;
                while i < items.len()
                    invariant
                        i <= items.len(),
                        value@ == JsonView::Array(json_views(items@)),
                        out.len() == i,
                        forall|j: int|
                            0 <= j < i ==> window_of(#[trigger] json_views(items@)[j]) == Some(
                                out[j]@,
                            ),
                    decreases items.len() - i,
                {
                    proof {
                        lemma_json_views(items@);
                    }
                    match Window::from_json(&items[i]) {
                        Some(w) => out.push(w),
                        None => {
                            assert(window_of(json_views(items@)[i as int]) is None);
                            return None;
                        },
                    }
                    i += 1;
                }
                proof {
                    lemma_json_views(items@);
                    assert(windows_of(value@)->Some_0 =~= window_views(out@));
                }
                Some(out)
            },
            None => None,
        }
    }
}


// ---------------------------------------------------------------------------
// Errors
// ---------------------------------------------------------------------------

/// Why the client could not be made, or an operation failed.
#[derive(Debug, Clone)]
pub enum ClientError {
    /// `HYPRLAND_INSTANCE_SIGNATURE` is not set.
    NotConfigured,
    /// There is no socket at the path that the environment names.
    SocketNotFound(String),
    /// The transport failed; the text is the transport's own.
    Io(String),
    /// The reply is not JSON, or not of the expected shape.
    Parse(String),
}

/// What a client error holds.
pub enum ClientErrorView {
    NotConfigured,
    SocketNotFound(Seq<char>),
    Io(Seq<char>),
    Parse(Seq<char>),
}

impl View for ClientError {
    type V = ClientErrorView;

    open spec fn view(&self) -> ClientErrorView {
        match self {
            ClientError::NotConfigured => ClientErrorView::NotConfigured,
            ClientError::SocketNotFound(path) => ClientErrorView::SocketNotFound(path@),
            ClientError::Io(why) => ClientErrorView::Io(why@),
            ClientError::Parse(why) => ClientErrorView::Parse(why@),
        }
    }
}

/// The text of a client error.
pub open spec fn error_text(error: ClientErrorView) -> Seq<char> {
    match error {
        ClientErrorView::NotConfigured => "HYPRLAND_INSTANCE_SIGNATURE not set"@,
        ClientErrorView::SocketNotFound(path) => "Hyprland socket not found: "@ + path,
        ClientErrorView::Io(why) => why,
        ClientErrorView::Parse(why) => "Failed to parse JSON: "@ + why,
    }
}

/// What a parse error says of valid JSON that describes something else.
pub open spec fn shape_mismatch() -> Seq<char> {
    "reply does not have the expected shape"@
}

impl ClientError {
    /// The text of this error.
    pub fn message(&self) -> (text: String)
        ensures
            text@ == error_text(self@),
    {
        match self {
            ClientError::NotConfigured => owned("HYPRLAND_INSTANCE_SIGNATURE not set"),
            ClientError::SocketNotFound(path) => concat_text(
                "Hyprland socket not found: ",
                path.as_str(),
            ),
            ClientError::Io(why) => why.clone(),
            ClientError::Parse(why) => concat_text("Failed to parse JSON: ", why.as_str()),
        }
    }
}

// ---------------------------------------------------------------------------
// Requests and responses
// ---------------------------------------------------------------------------

/// What the reply to a request is read as.
#[derive(Debug, Clone)]
pub enum Expect {
    /// A JSON list of workspaces.
    Workspaces,
    /// One JSON workspace.
    Workspace,
    /// A JSON list of windows.
    Windows,
    /// One JSON window.
    Window,
    /// Nothing: a reply that could be read is enough.
    Ack,
    /// Nothing; after it, the window at this address is to be focused.
    ThenFocus(String),
}

/// What an expectation holds.
pub enum ExpectView {
    Workspaces,
    Workspace,
    Windows,
    Window,
    Ack,
    ThenFocus(Seq<char>),
}

impl View for Expect {
    type V = ExpectView;

    open spec fn view(&self) -> ExpectView {
        match self {
            Expect::Workspaces => ExpectView::Workspaces,
            Expect::Workspace => ExpectView::Workspace,
            Expect::Windows => ExpectView::Windows,
            Expect::Window => ExpectView::Window,
            Expect::Ack => ExpectView::Ack,
            Expect::ThenFocus(address) => ExpectView::ThenFocus(address@),
        }
    }
}

/// One connect-send-read-close cycle that is still to be carried out.
#[derive(Debug, Clone)]
pub struct Request {
    socket_path: String,
    command: String,
    expect: Expect,
}

/// What a request holds: the socket to connect, the command to write, and
/// what the reply is read as.
pub struct RequestView {
    pub socket_path: Seq<char>,
    pub command: Seq<char>,
    pub expect: ExpectView,
}

impl View for Request {
    type V = RequestView;

    closed spec fn view(&self) -> RequestView {
        RequestView {
            socket_path: self.socket_path@,
            command: self.command@,
            expect: self.expect@,
        }
    }
}

/// What an operation gave.
#[derive(Debug, Clone)]
pub enum Response {
    Workspaces(Vec<Workspace>),
    Workspace(Workspace),
    Windows(Vec<Window>),
    Window(Window),
    /// The compositor took the command.
    Done,
    /// The operation goes on with this request.
    Next(Request),
}

/// What a response holds.
pub enum ResponseView {
    Workspaces(Seq<WorkspaceView>),
    Workspace(WorkspaceView),
    Windows(Seq<WindowView>),
    Window(WindowView),
    Done,
    Next(RequestView),
}

impl View for Response {
    type V = ResponseView;

    open spec fn view(&self) -> ResponseView {
        match self {
            Response::Workspaces(list) => ResponseView::Workspaces(workspace_views(list@)),
            Response::Workspace(w) => ResponseView::Workspace(w@),
            Response::Windows(list) => ResponseView::Windows(window_views(list@)),
            Response::Window(w) => ResponseView::Window(w@),
            Response::Done => ResponseView::Done,
            Response::Next(request) => ResponseView::Next(request@),
        }
    }
}

/// The command that asks for the JSON form of the reply to `query`.
pub open spec fn json_command_text(query: Seq<char>) -> Seq<char> {
    "j/"@ + query
}

/// The command that asks the compositor to carry out `action`.
pub open spec fn dispatch_text(action: Seq<char>) -> Seq<char> {
    "dispatch "@ + action
}

/// The command that switches to the workspace `id`.
pub open spec fn switch_workspace_text(id: i32) -> Seq<char> {
    dispatch_text("workspace "@ + signed_decimal(id as int))
}

/// The command that focuses the window at `address`.
pub open spec fn focus_window_text(address: Seq<char>) -> Seq<char> {
    dispatch_text("focuswindow address:"@ + address)
}

/// The command that closes the window at `address`.
pub open spec fn close_window_text(address: Seq<char>) -> Seq<char> {
    dispatch_text("closewindow address:"@ + address)
}

/// The command that hides the window at `address` on the workspace of
/// minimized windows.
pub open spec fn minimize_window_text(address: Seq<char>) -> Seq<char> {
    dispatch_text("movetoworkspacesilent special:minimized,address:"@ + address)
}

/// The command that moves the window at `address` to the current workspace.
pub open spec fn move_to_current_text(address: Seq<char>) -> Seq<char> {
    dispatch_text("movetoworkspace e+0,address:"@ + address)
}

/// The request that focuses the window at `address`.
pub open spec fn focus_request(socket_path: Seq<char>, address: Seq<char>) -> RequestView {
    RequestView { socket_path, command: focus_window_text(address), expect: ExpectView::Ack }
}

/// The request that begins the restoring of the window at `address`: the
/// move to the current workspace, to be followed by the focus.
pub open spec fn restore_request(socket_path: Seq<char>, address: Seq<char>) -> RequestView {
    RequestView {
        socket_path,
        command: move_to_current_text(address),
        expect: ExpectView::ThenFocus(address),
    }
}

/// What the transport reported, by its texts.
pub open spec fn reply_view(reply: Result<String, String>) -> Result<Seq<char>, Seq<char>> {
    match reply {
        Ok(text) => Ok(text@),
        Err(why) => Err(why@),
    }
}

/// What a JSON reply is read as: a parse error with the reader's message
/// where the text is no JSON, one with `shape_mismatch` where the document
/// describes something else.
pub open spec fn json_reply(expect: ExpectView, text: Seq<char>) -> Result<
    ResponseView,
    ClientErrorView,
> {
    match json_text(text) {
        Err(why) => Err(ClientErrorView::Parse(why)),
        Ok(doc) => {
            let read = match expect {
                ExpectView::Workspaces => match workspaces_of(doc) {
                    Some(list) => Some(ResponseView::Workspaces(list)),
                    None => None,
                },
                ExpectView::Workspace => match workspace_of(doc) {
                    Some(w) => Some(ResponseView::Workspace(w)),
                    None => None,
                },
                ExpectView::Windows => match windows_of(doc) {
                    Some(list) => Some(ResponseView::Windows(list)),
                    None => None,
                },
                ExpectView::Window => match window_of(doc) {
                    Some(w) => Some(ResponseView::Window(w)),
                    None => None,
                },
                _ => None,
            };
            match read {
                Some(response) => Ok(response),
                None => Err(ClientErrorView::Parse(shape_mismatch())),
            }
        },
    }
}

/// What a request gives once the transport has reported. A transport
/// failure is the operation's failure. The reply to a dispatch is not looked
/// at. After the move of a restore comes the focus; after a failed move
/// comes nothing.
pub open spec fn finished(request: RequestView, reply: Result<Seq<char>, Seq<char>>) -> Result<
    ResponseView,
    ClientErrorView,
> {
    match reply {
        Err(why) => Err(ClientErrorView::Io(why)),
        Ok(text) => match request.expect {
            ExpectView::Ack => Ok(ResponseView::Done),
            ExpectView::ThenFocus(address) => Ok(
                ResponseView::Next(focus_request(request.socket_path, address)),
            ),
            _ => json_reply(request.expect, text),
        },
    }
}

/// What a result of `finish` holds.
pub open spec fn outcome_view(outcome: Result<Response, ClientError>) -> Result<
    ResponseView,
    ClientErrorView,
> {
    match outcome {
        Ok(response) => Ok(response@),
        Err(error) => Err(error@),
    }
}

fn shape_error() -> (error: ClientError)
    ensures
        error@ == ClientErrorView::Parse(shape_mismatch()),
{
    ClientError::Parse(owned("reply does not have the expected shape"))
}

/// Reads the JSON document `doc` as what `expect` names.
pub fn read_reply(expect: &Expect, doc: &Json) -> (read: Option<Response>)
    ensures
        match read {
            Some(response) => match expect@ {
                ExpectView::Workspaces => workspaces_of(doc@) matches Some(list)
                    && response@ == ResponseView::Workspaces(list),
                ExpectView::Workspace => workspace_of(doc@) matches Some(w) && response@
                    == ResponseView::Workspace(w),
                ExpectView::Windows => windows_of(doc@) matches Some(list) && response@
                    == ResponseView::Windows(list),
                ExpectView::Window => window_of(doc@) matches Some(w) && response@
                    == ResponseView::Window(w),
                _ => false,
            },
            None => match expect@ {
                ExpectView::Workspaces => workspaces_of(doc@) is None,
                ExpectView::Workspace => workspace_of(doc@) is None,
                ExpectView::Windows => windows_of(doc@) is None,
                ExpectView::Window => window_of(doc@) is None,
                _ => true,
            },
        },
{
    match expect {
        Expect::Workspaces => match Workspace::list_from_json(doc) {
            Some(list) => Some(Response::Workspaces(list)),
            None => None,
        },
        Expect::Workspace => match Workspace::from_json(doc) {
            Some(w) => Some(Response::Workspace(w)),
            None => None,
        },
        Expect::Windows => match Window::list_from_json(doc) {
            Some(list) => Some(Response::Windows(list)),
            None => None,
        },
        Expect::Window => match Window::from_json(doc) {
            Some(w) => Some(Response::Window(w)),
            None => None,
        },
        _ => None,
    }
}

impl Request {
    /// The path of the socket to connect.
    pub fn socket_path(&self) -> (path: &String)
        ensures
            path@ == self@.socket_path,
    {
        &self.socket_path
    }

    /// The command to write to the socket.
    pub fn command(&self) -> (command: &String)
        ensures
            command@ == self@.command,
    {
        &self.command
    }

    /// What the reply is read as.
    pub fn expect(&self) -> (expect: &Expect)
        ensures
            expect@ == self@.expect,
    {
        &self.expect
    }

    /// Takes what the transport reported for this request: the text read
    /// until the socket's end, or the description of the failure.
    pub fn finish(self, reply: Result<String, String>) -> (outcome: Result<Response, ClientError>)
        ensures
            outcome_view(outcome) == finished(self@, reply_view(reply)),
    {
        match reply {
            Err(why) => Err(ClientError::Io(why)),
            Ok(text) => match self.expect {
                Expect::Ack => Ok(Response::Done),
                Expect::ThenFocus(address) => {
                    let command = concat_text(
                        "dispatch ",
                        concat_text("focuswindow address:", address.as_str()).as_str(),
                    );
                    Ok(
                        Response::Next(
                            Request { socket_path: self.socket_path, command, expect: Expect::Ack },
                        ),
                    )
                },
                expect => match parse_json(text.as_str()) {
                    Err(why) => Err(ClientError::Parse(why)),
                    Ok(doc) => match read_reply(&expect, &doc) {
                        Some(response) => Ok(response),
                        None => Err(shape_error()),
                    },
                },
            },
        }
    }
}

// ---------------------------------------------------------------------------
// The client
// ---------------------------------------------------------------------------

/// The client of the compositor's command socket.
pub struct HyprlandClient {
    socket_path: String,
}

impl View for HyprlandClient {
    type V = Seq<char>;

    /// The path of the command socket.
    closed spec fn view(&self) -> Seq<char> {
        self.socket_path@
    }
}

impl HyprlandClient {
    /// The client for the compositor instance `signature`, whose command
    /// socket lies below `runtime_dir`. `socket_exists` says whether there is
    /// a file at `HyprlandClient::command_socket(runtime_dir, signature)`.
    pub fn new(signature: Option<&str>, runtime_dir: Option<&str>, socket_exists: bool) -> (made:
        Result<HyprlandClient, ClientError>)
        ensures
            match signature {
                None => made matches Err(e) && e@ == ClientErrorView::NotConfigured,
                Some(sig) => {
                    let path = socket_path_text(opt_text(runtime_dir), sig@, ".socket.sock"@);
                    if socket_exists {
                        made matches Ok(client) && client@ == path
                    } else {
                        made matches Err(e) && e@ == ClientErrorView::SocketNotFound(path)
                    }
                },
            },
    {
        match signature {
            None => Err(ClientError::NotConfigured),
            Some(sig) => {
                let path = HyprlandClient::command_socket(runtime_dir, sig);
                if socket_exists {
                    Ok(HyprlandClient { socket_path: path })
                } else {
                    Err(ClientError::SocketNotFound(path))
                }
            },
        }
    }

    /// The path of the command socket of the compositor instance
    /// `signature`.
    pub fn command_socket(runtime_dir: Option<&str>, signature: &str) -> (path: String)
        ensures
            path@ == socket_path_text(opt_text(runtime_dir), signature@, ".socket.sock"@),
    {
        socket_path(runtime_dir, signature, ".socket.sock")
    }

    /// The path of this client's socket.
    pub fn socket_path(&self) -> (path: &String)
        ensures
            path@ == self@,
    {
        &self.socket_path
    }

    /// The command that asks for the JSON form of the reply to `query`.
    pub fn json_command(query: &str) -> (command: String)
        ensures
            command@ == json_command_text(query@),
    {
        concat_text("j/", query)
    }

    fn request(&self, command: String, expect: Expect) -> (request: Request)
        ensures
            request@ == (RequestView { socket_path: self@, command: command@, expect: expect@ }),
    {
        Request { socket_path: self.socket_path.clone(), command, expect }
    }

    fn dispatch_request(&self, action: &Vec<char>, expect: Expect) -> (request: Request)
        ensures
            request@ == (RequestView {
                socket_path: self@,
                command: dispatch_text(action@),
                expect: expect@,
            }),
    {
        let mut command = chars_of("dispatch ");
        append_chars(&mut command, action);
        self.request(string_of(&command), expect)
    }

    fn address_request(&self, action: &str, address: &str, expect: Expect) -> (request: Request)
        ensures
            request@ == (RequestView {
                socket_path: self@,
                command: dispatch_text(action@ + address@),
                expect: expect@,
            }),
    {
        let mut text = chars_of(action);
        append_chars(&mut text, &chars_of(address));
        self.dispatch_request(&text, expect)
    }

    /// Asks for the list of workspaces.
    pub fn workspaces(&self) -> (request: Request)
        ensures
            request@ == (RequestView {
                socket_path: self@,
                command: json_command_text("workspaces"@),
                expect: ExpectView::Workspaces,
            }),
    {
        self.request(HyprlandClient::json_command("workspaces"), Expect::Workspaces)
    }

    /// Asks for the workspace that is shown.
    pub fn active_workspace(&self) -> (request: Request)
        ensures
            request@ == (RequestView {
                socket_path: self@,
                command: json_command_text("activeworkspace"@),
                expect: ExpectView::Workspace,
            }),
    {
        self.request(HyprlandClient::json_command("activeworkspace"), Expect::Workspace)
    }

    /// Asks for the window that has the focus.
    pub fn active_window(&self) -> (request: Request)
        ensures
            request@ == (RequestView {
                socket_path: self@,
                command: json_command_text("activewindow"@),
                expect: ExpectView::Window,
            }),
    {
        self.request(HyprlandClient::json_command("activewindow"), Expect::Window)
    }

    /// Asks for the list of windows.
    pub fn clients(&self) -> (request: Request)
        ensures
            request@ == (RequestView {
                socket_path: self@,
                command: json_command_text("clients"@),
                expect: ExpectView::Windows,
            }),
    {
        self.request(HyprlandClient::json_command("clients"), Expect::Windows)
    }

    /// Switches to the workspace `id`.
    pub fn switch_workspace(&self, id: i32) -> (request: Request)
        ensures
            request@ == (RequestView {
                socket_path: self@,
                command: switch_workspace_text(id),
                expect: ExpectView::Ack,
            }),
    {
        let mut action = chars_of("workspace ");
        push_signed_decimal(&mut action, id as i64);
        self.dispatch_request(&action, Expect::Ack)
    }

    /// Focuses the window at `address`.
    pub fn focus_window(&self, address: &str) -> (request: Request)
        ensures
            request@ == focus_request(self@, address@),
    {
        self.address_request("focuswindow address:", address, Expect::Ack)
    }

    /// Closes the window at `address`.
    pub fn close_window(&self, address: &str) -> (request: Request)
        ensures
            request@ == (RequestView {
                socket_path: self@,
                command: close_window_text(address@),
                expect: ExpectView::Ack,
            }),
    {
        self.address_request("closewindow address:", address, Expect::Ack)
    }

    /// Hides the window at `address` on the workspace of minimized windows.
    pub fn minimize_window(&self, address: &str) -> (request: Request)
        ensures
            request@ == (RequestView {
                socket_path: self@,
                command: minimize_window_text(address@),
                expect: ExpectView::Ack,
            }),
    {
        self.address_request(
            "movetoworkspacesilent special:minimized,address:",
            address,
            Expect::Ack,
        )
    }

    /// Brings the window at `address` back: it is moved to the current
    /// workspace and, once that has succeeded, focused. The request is the
    /// move; finishing it gives the focus request, or the move's failure.
    pub fn restore_window(&self, address: &str) -> (request: Request)
        ensures
            request@ == restore_request(self@, address@),
    {
        self.address_request(
            "movetoworkspace e+0,address:",
            address,
            Expect::ThenFocus(owned(address)),
        )
    }

    /// Asks the compositor to carry out `action`.
    pub fn dispatch(&self, action: &str) -> (request: Request)
        ensures
            request@ == (RequestView {
                socket_path: self@,
                command: dispatch_text(action@),
                expect: ExpectView::Ack,
            }),
    {
        self.dispatch_request(&chars_of(action), Expect::Ack)
    }
}

/// Restoring a window whose move fails gives that failure and no request to
/// focus; restoring one whose move succeeds goes on with the focus of the
/// same window on the same socket, whose outcome is the operation's: a
/// failed focus is surfaced and the window stays moved.
pub proof fn law_restore_stops_at_failed_move(
    socket_path: Seq<char>,
    address: Seq<char>,
    move_failure: Seq<char>,
    move_reply: Seq<char>,
    focus_outcome: Result<Seq<char>, Seq<char>>,
)
    ensures
        finished(restore_request(socket_path, address), Err(move_failure)) == Err::<
            ResponseView,
            ClientErrorView,
        >(ClientErrorView::Io(move_failure)),
        finished(restore_request(socket_path, address), Ok(move_reply)) == Ok::<
            ResponseView,
            ClientErrorView,
        >(ResponseView::Next(focus_request(socket_path, address))),
        finished(focus_request(socket_path, address), focus_outcome) == match focus_outcome {
            Ok(_) => Ok::<ResponseView, ClientErrorView>(ResponseView::Done),
            Err(why) => Err::<ResponseView, ClientErrorView>(ClientErrorView::Io(why)),
        },
{
}

} // verus!
