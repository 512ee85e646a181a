//! The live view: the list state that the fetch task writes and the render
//! loop reads, and the screen's own reaction to keys.

use vstd::prelude::*;
use vstd::string::*;
use crate::state::{AppState, KeyInput};
use crate::text::{decimal, push_decimal, debug_quoted, debug_str};

verus! {

/// One server of the list: its id and name.
pub struct ServerState {
    pub id: String,
    pub name: String,
}

impl View for ServerState {
    type V = (Seq<char>, Seq<char>);

    open spec fn view(&self) -> (Seq<char>, Seq<char>) {
        (self.id@, self.name@)
    }
}

pub open spec fn server_views(v: Seq<ServerState>) -> Seq<(Seq<char>, Seq<char>)> {
    v.map_values(|s: ServerState| s@)
}

/// Where the fetch of the list stands.
pub enum LoadingState {
    Idle,
    Loading,
    Loaded,
    Error(String),
}

/// Why a fetch of the list failed.
pub enum FetchError {
    /// The request could not be sent or its answer not received.
    Transport(String),
    /// The service answered with a status other than 200.
    UnexpectedStatus(u16),
    /// The body of the answer is not a server list.
    Decode(String),
}

pub open spec fn fetch_error_message(e: FetchError) -> Seq<char> {
    match e {
        FetchError::Transport(m) => "Request failed: "@ + m@,
        FetchError::UnexpectedStatus(code) => "Unexpected status: "@ + decimal(code as nat),
        FetchError::Decode(m) => "Invalid response: "@ + m@,
    }
}

impl FetchError {
    /// The text stored in the list state for this error; never empty.
    pub fn message(&self) -> (r: String)
        ensures
            r@ == fetch_error_message(*self),
            r@.len() > 0,
    {
        proof {
            reveal_strlit("Request failed: ");
            reveal_strlit("Unexpected status: ");
            reveal_strlit("Invalid response: ");
        }
        match self {
            FetchError::Transport(m) => String::from_str("Request failed: ").concat(m.as_str()),
            FetchError::UnexpectedStatus(code) => {
                let mut s = String::from_str("Unexpected status: ");
                push_decimal(&mut s, *code);
                s
            },
            FetchError::Decode(m) => String::from_str("Invalid response: ").concat(m.as_str()),
        }
    }
}

/// The address of the detailed server list under a compute URL.
pub fn servers_detail_url(base: &str) -> (r: String)
    ensures
        r@ == base@ + "/servers/detail"@,
{
    proof { reveal_strlit("/servers/detail"); }
    String::from_str(base).concat("/servers/detail")
}

/// Whether the body of a list answer is looked at: only when the status
/// is 200.
pub fn list_body_needed(status: u16) -> (r: bool)
    ensures
        r == (status == 200),
{
    status == 200
}

/// Decides the outcome of a list request from the answer's status and its
/// decoded servers (or why they could not be decoded): the status must be
/// 200, then the body must have decoded.
pub fn fetch_outcome(status: u16, servers: Result<Vec<ServerState>, String>) -> (r: Result<Vec<ServerState>, FetchError>)
    ensures
        status != 200 ==> r == Err::<Vec<ServerState>, FetchError>(FetchError::UnexpectedStatus(status)),
        status == 200 ==> match servers {
            Ok(v) => r == Ok::<Vec<ServerState>, FetchError>(v),
            Err(m) => r == Err::<Vec<ServerState>, FetchError>(FetchError::Decode(m)),
        },
{
    if status != 200 {
        return Err(FetchError::UnexpectedStatus(status));
    }
    match servers {
        Ok(v) => Ok(v),
        Err(m) => Err(FetchError::Decode(m)),
    }
}

/// The list state shared by the fetch task and the render loop.
pub struct ServerListState {
    pub servers: Vec<ServerState>,
    pub loading_state: LoadingState,
    /// The highlighted row, if any.
    pub selected: Option<usize>,
}

/// The selection after records were appended: the first row when the list
/// was empty and is not any more, the old selection otherwise.
pub open spec fn selection_after(old_len: nat, new_len: nat, selected: Option<usize>) -> Option<usize> {
    if old_len == 0 && new_len > 0 { Some(0usize) } else { selected }
}

/// The text of the status shown in the list's border.
pub open spec fn status_label(s: LoadingState) -> Seq<char> {
    match s {
        LoadingState::Idle => "Idle"@,
        LoadingState::Loading => "Loading"@,
        LoadingState::Loaded => "Loaded"@,
        LoadingState::Error(m) => "Error("@ + debug_quoted(m@) + ")"@,
    }
}

/// What the live view shows of the list.
pub struct ListView {
    pub status: String,
    pub rows: Vec<ServerState>,
    pub selected: Option<usize>,
}

pub type ListViewModel = (Seq<char>, Seq<(Seq<char>, Seq<char>)>, Option<usize>);

impl View for ListView {
    type V = ListViewModel;

    open spec fn view(&self) -> ListViewModel {
        (self.status@, server_views(self.rows@), self.selected)
    }
}

/// What the live view shows of a list state: its status text, its rows and
/// its selection, and nothing else.
pub open spec fn shown(s: ServerListState) -> ListViewModel {
    (status_label(s.loading_state), server_views(s.servers@), s.selected)
}

/// The view is a function of the list state: two states that hold the
/// same status, rows and selection are drawn alike, so drawing a state
/// twice with no change in between gives the same picture.
pub proof fn lemma_view_depends_on_state_only(a: ServerListState, b: ServerListState)
    requires
        a.loading_state == b.loading_state,
        server_views(a.servers@) == server_views(b.servers@),
        a.selected == b.selected,
    ensures
        shown(a) == shown(b),
{
}

impl ServerListState {
    pub fn new() -> (r: ServerListState)
        ensures
            r.servers@.len() == 0,
            r.loading_state is Idle,
            r.selected is None,
    {
        ServerListState { servers: Vec::new(), loading_state: LoadingState::Idle, selected: None }
    }

    pub fn set_loading_state(&mut self, state: LoadingState)
        ensures
            final(self).loading_state == state,
            final(self).servers == old(self).servers,
            final(self).selected == old(self).selected,
    {
        self.loading_state = state;
    }

    /// Records fetched servers: they are appended to the list, the status
    /// becomes Loaded, and the first row is selected when the list was
    /// empty before.
    pub fn on_load(&mut self, servers: &Vec<ServerState>)
        ensures
            server_views(final(self).servers@) == server_views(old(self).servers@) + server_views(servers@),
            final(self).loading_state is Loaded,
            final(self).selected == selection_after(
                old(self).servers@.len(),
                final(self).servers@.len(),
                old(self).selected,
            ),
    {
        self.loading_state = LoadingState::Loaded;
        let was_empty = self.servers.len() == 0;
        let ghost start = self.servers@;
        let mut i: usize = 0;
        while i < servers.len()
            invariant
                i <= servers@.len(),
                start == old(self).servers@,
                self.loading_state is Loaded,
                self.selected == old(self).selected,
                was_empty == (start.len() == 0),
                server_views(self.servers@) == server_views(start) + server_views(servers@.subrange(0, i as int)),
            decreases servers@.len() - i,
        {
            let ghost prev = self.servers@;
            let s = ServerState { id: servers[i].id.clone(), name: servers[i].name.clone() };
            self.servers.push(s);
            assert(server_views(self.servers@) =~= server_views(prev).push(servers@[i as int]@));
            assert(server_views(servers@.subrange(0, i + 1)) =~= server_views(servers@.subrange(0, i as int)).push(servers@[i as int]@));
            i = i + 1;
        }
        assert(servers@.subrange(0, i as int) =~= servers@);
        if was_empty && self.servers.len() > 0 {
            self.selected = Some(0);
        }
    }

    /// Records a failed fetch: the status becomes an error with the given
    /// text, and the list stays as it was.
    pub fn on_err(&mut self, message: String)
        ensures
            final(self).loading_state == LoadingState::Error(message),
            final(self).servers == old(self).servers,
            final(self).selected == old(self).selected,
    {
        self.set_loading_state(LoadingState::Error(message));
    }

    /// Records the outcome of one fetch.
    pub fn apply_fetch(&mut self, outcome: Result<Vec<ServerState>, FetchError>)
        ensures
            match outcome {
                Ok(v) => {
                    &&& server_views(final(self).servers@) == server_views(old(self).servers@) + server_views(v@)
                    &&& final(self).servers@.len() == old(self).servers@.len() + v@.len()
                    &&& final(self).loading_state is Loaded
                    &&& final(self).selected == selection_after(
                        old(self).servers@.len(),
                        final(self).servers@.len(),
                        old(self).selected,
                    )
                },
                Err(e) => {
                    &&& final(self).loading_state is Error
                    &&& final(self).loading_state->Error_0@ == fetch_error_message(e)
                    &&& final(self).loading_state->Error_0@.len() > 0
                    &&& final(self).servers == old(self).servers
                    &&& final(self).selected == old(self).selected
                },
            },
    {
        match outcome {
            Ok(v) => {
                self.on_load(&v);
                proof {
                    assert(server_views(self.servers@).len() == self.servers@.len());
                }
            },
            Err(e) => {
                let m = e.message();
                self.on_err(m);
            },
        }
    }

    /// The text of the status shown in the list's border.
    pub fn status_text(&self) -> (r: String)
        ensures
            r@ == status_label(self.loading_state),
    {
        proof {
            reveal_strlit("Idle");
            reveal_strlit("Loading");
            reveal_strlit("Loaded");
            reveal_strlit("Error(");
            reveal_strlit(")");
        }
        match &self.loading_state {
            LoadingState::Idle => String::from_str("Idle"),
            LoadingState::Loading => String::from_str("Loading"),
            LoadingState::Loaded => String::from_str("Loaded"),
            LoadingState::Error(m) => {
                let mut s = String::from_str("Error(");
                s.append(debug_str(m.as_str()).as_str());
                s.append(")");
                s
            },
        }
    }

    /// What the live view draws: the status, the rows and the selection.
    /// It reads the state and changes nothing.
    pub fn snapshot(&self) -> (r: ListView)
        ensures
            r@ == shown(*self),
    {
        let mut rows: Vec<ServerState> = Vec::new();
        let mut i: usize = 0;
        while i < self.servers.len()
            invariant
                i <= self.servers@.len(),
                server_views(rows@) == server_views(self.servers@.subrange(0, i as int)),
            decreases self.servers@.len() - i,
        {
            let ghost prev = rows@;
            rows.push(ServerState { id: self.servers[i].id.clone(), name: self.servers[i].name.clone() });
            assert(server_views(rows@) =~= server_views(prev).push(self.servers@[i as int]@));
            assert(server_views(self.servers@.subrange(0, i + 1)) =~= server_views(self.servers@.subrange(0, i as int)).push(self.servers@[i as int]@));
            i = i + 1;
        }
        assert(self.servers@.subrange(0, i as int) =~= self.servers@);
        ListView { status: self.status_text(), rows, selected: self.selected }
    }
}

/// The live-view screen: the address that servers are fetched from, and
/// whether Escape was pressed.
pub struct Server {
    pub url: String,
    pub should_quit: bool,
}

impl Server {
    pub fn new(url: String) -> (r: Server)
        ensures
            r.url == url,
            !r.should_quit,
    {
        Server { url, should_quit: false }
    }

    /// Escape ends the live view; other keys change nothing.
    pub fn handle_event(&mut self, key: Option<KeyInput>)
        ensures
            final(self).url == old(self).url,
            final(self).should_quit == (old(self).should_quit || key == Some(KeyInput::Esc)),
    {
        match key {
            Some(KeyInput::Esc) => self.should_quit = true,
            _ => {},
        }
    }

    /// The state that follows the live view once it has ended.
    pub fn next_state(&self) -> (r: AppState)
        ensures
            r is Quit,
    {
        AppState::Quit
    }
}

} // verus!
