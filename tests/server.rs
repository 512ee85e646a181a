use stack_view::app::App;
use stack_view::config::{load, Credentials};
use stack_view::server::{fetch_outcome, FetchError, LoadingState, Server, ServerListState, ServerState};
use stack_view::state::{AppState, KeyInput};
use stack_view::token::{token_response, AuthError};

fn server(id: &str, name: &str) -> ServerState {
    ServerState { id: id.to_string(), name: name.to_string() }
}

#[test]
fn fetch_of_two_servers_appends_and_selects() {
    let mut state = ServerListState::new();
    state.set_loading_state(LoadingState::Loading);
    state.apply_fetch(fetch_outcome(200, Ok(vec![server("1", "a"), server("2", "b")])));
    assert_eq!(state.servers.len(), 2);
    assert_eq!(state.selected, Some(0));
    assert!(matches!(state.loading_state, LoadingState::Loaded));
    state.selected = Some(1);
    state.apply_fetch(fetch_outcome(200, Ok(vec![server("3", "c"), server("4", "d")])));
    assert_eq!(state.servers.len(), 4);
    assert_eq!(state.servers[3].name, "d");
    assert_eq!(state.selected, Some(1));
}

#[test]
fn fetch_of_nothing_selects_nothing() {
    let mut state = ServerListState::new();
    state.apply_fetch(fetch_outcome(200, Ok(vec![])));
    assert_eq!(state.servers.len(), 0);
    assert_eq!(state.selected, None);
}

#[test]
fn failed_fetch_keeps_records() {
    let mut state = ServerListState::new();
    state.apply_fetch(fetch_outcome(200, Ok(vec![server("1", "a")])));
    state.apply_fetch(fetch_outcome(500, Ok(vec![server("2", "b")])));
    assert_eq!(state.servers.len(), 1);
    assert_eq!(state.servers[0].id, "1");
    match &state.loading_state {
        LoadingState::Error(m) => assert_eq!(m, "Unexpected status: 500"),
        _ => panic!("expected an error status"),
    }
    assert_eq!(state.status_text(), "Error(\"Unexpected status: 500\")");
    state.apply_fetch(fetch_outcome(200, Err("bad json".to_string())));
    assert_eq!(state.status_text(), "Error(\"Invalid response: bad json\")");
    assert_eq!(FetchError::Transport(String::new()).message(), "Request failed: ");
}

#[test]
fn snapshot_twice_is_the_same() {
    let mut state = ServerListState::new();
    assert_eq!(state.status_text(), "Idle");
    state.apply_fetch(Ok(vec![server("1", "a"), server("2", "b")]));
    let a = state.snapshot();
    let b = state.snapshot();
    assert_eq!(a.status, "Loaded");
    assert_eq!(a.status, b.status);
    assert_eq!(a.selected, b.selected);
    let ra: Vec<(String, String)> = a.rows.into_iter().map(|s| (s.id, s.name)).collect();
    let rb: Vec<(String, String)> = b.rows.into_iter().map(|s| (s.id, s.name)).collect();
    assert_eq!(ra, rb);
    assert_eq!(ra, vec![("1".to_string(), "a".to_string()), ("2".to_string(), "b".to_string())]);
}

#[test]
fn live_view_ends_on_escape() {
    let mut s = Server::new("http://localhost:5000".to_string());
    s.handle_event(Some(KeyInput::Char('j')));
    assert!(!s.should_quit);
    s.handle_event(Some(KeyInput::Esc));
    assert!(s.should_quit);
    assert!(matches!(s.next_state(), AppState::Quit));
}

#[test]
fn app_starts_on_form_or_token() {
    let app = App::new(load(None));
    assert!(matches!(app.state, AppState::Loading));
    assert!(app.is_running());
    let full = Credentials {
        username: "u".to_string(),
        password: "p".to_string(),
        tenantid: "t".to_string(),
        identity_url: "i".to_string(),
    };
    let app = App::new(load(Some(full)));
    match &app.state {
        AppState::IssueToken { userid, identity_url, .. } => {
            assert_eq!(userid, "u");
            assert_eq!(identity_url, "i");
        }
        _ => panic!("expected IssueToken"),
    }
    assert_eq!(app.resource_url(), "http://localhost:5000");
}

#[test]
fn app_token_outcomes() {
    let mut app = App::new(load(None));
    app.on_token(token_response(400, None, Ok(vec![])));
    assert!(matches!(app.state, AppState::Loading));
    assert_eq!(app.config.message, "Error issuing token: Unexpected status: 400");
    app.on_token(Err(AuthError::MissingToken));
    assert_eq!(app.config.message, "Error issuing token: Missing X-Subject-Token header");
    app.on_token(token_response(201, Some("tok".to_string()), Ok(vec![])));
    assert!(matches!(app.state, AppState::Server));
    assert_eq!(app.token, "tok");
    app.on_live_view_end(AppState::Quit);
    assert!(!app.is_running());
}

#[test]
fn app_form_keys() {
    let mut app = App::new(load(None));
    app.on_form_key(Some(KeyInput::Enter));
    assert!(matches!(app.state, AppState::Loading));
    assert_eq!(app.config.message, "Please fill in all fields.");
    app.on_save_failed("disk full");
    assert_eq!(app.config.message, "Error saving config: disk full");
    app.on_form_key(Some(KeyInput::Esc));
    assert!(matches!(app.state, AppState::Quit));
}
