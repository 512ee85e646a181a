//! The application state machine: credential form, token issue, live view.

use vstd::prelude::*;
use vstd::string::*;
use crate::config::{Config, complete, edited_field, fill_in_message, next_focus, save_error_message};
use crate::state::{AppState, KeyInput};
use crate::token::{AuthError, Endpoint, TokenResponse, auth_error_message, endpoint_views};

verus! {

/// The application: the session token and catalog once issued, the
/// credential form, and the current state.
pub struct App {
    pub token: String,
    pub endpoints: Vec<Endpoint>,
    pub config: Config,
    pub state: AppState,
}

/// The text shown on the form when no token could be issued.
pub open spec fn token_error_message(e: AuthError) -> Seq<char> {
    "Error issuing token: "@ + auth_error_message(e)
}

impl App {
    pub open spec fn wf(&self) -> bool {
        self.config.wf()
    }

    /// Starts on the form loaded from the credential file; where that form
    /// is already complete, the token is issued at once.
    pub fn new(config: Config) -> (r: App)
        requires
            config.wf(),
        ensures
            r.wf(),
            r.config == config,
            r.token@.len() == 0,
            r.endpoints@.len() == 0,
            complete(config.fields.values()) ==> r.state == (AppState::IssueToken {
                userid: config.username,
                password: config.password,
                tenantid: config.tenantid,
                identity_url: config.identity_url,
            }),
            !complete(config.fields.values()) ==> r.state is Loading,
    {
        let mut state = AppState::Loading;
        if config.is_valid() {
            state = AppState::IssueToken {
                userid: config.username.clone(),
                password: config.password.clone(),
                tenantid: config.tenantid.clone(),
                identity_url: config.identity_url.clone(),
            };
        }
        App { token: String::new(), endpoints: Vec::new(), config, state }
    }

    pub fn is_running(&self) -> (r: bool)
        ensures
            r == !(self.state is Quit),
    {
        match self.state {
            AppState::Quit => false,
            _ => true,
        }
    }

    /// Hands a key press to the form and moves to the state it names.
    pub fn on_form_key(&mut self, key: Option<KeyInput>)
        requires
            old(self).wf(),
        ensures
            final(self).wf(),
            final(self).token == old(self).token,
            final(self).endpoints == old(self).endpoints,
            key == Some(KeyInput::Esc) ==> final(self).state is Quit && final(self).config == old(self).config,
            key == Some(KeyInput::Tab) ==> final(self).config.focus == next_focus(old(self).config.focus)
                && final(self).config.fields == old(self).config.fields
                && final(self).config.message == old(self).config.message,
            key is Some && !(key->Some_0 is Esc || key->Some_0 is Enter || key->Some_0 is Tab) ==>
                final(self).config.focus == old(self).config.focus
                && final(self).config.message == old(self).config.message
                && final(self).config.fields.values() == edited_field(
                    old(self).config.fields.values(),
                    old(self).config.focus,
                    key->Some_0,
                ),
            key is None ==> final(self).config == old(self).config,
            key != Some(KeyInput::Esc) && key != Some(KeyInput::Enter) ==> final(self).state is Loading
                && final(self).config.credentials() == old(self).config.credentials(),
            key == Some(KeyInput::Enter) && !complete(old(self).config.fields.values()) ==> final(self).state is Loading
                && final(self).config.message@ == fill_in_message(),
            key == Some(KeyInput::Enter) && complete(old(self).config.fields.values()) ==> final(self).state == (AppState::IssueToken {
                userid: old(self).config.fields.username.value,
                password: old(self).config.fields.password.value,
                tenantid: old(self).config.fields.tenantid.value,
                identity_url: old(self).config.fields.identity_url.value,
            }) && final(self).config.credentials() == old(self).config.fields.values(),
    {
        let next = self.config.handle_events(key);
        self.state = next;
    }

    /// The credentials could not be saved: the form shows why and stays.
    pub fn on_save_failed(&mut self, reason: &str)
        requires
            old(self).wf(),
        ensures
            final(self).wf(),
            final(self).state is Loading,
            final(self).config.message@ == save_error_message(reason@),
            final(self).config.fields == old(self).config.fields,
            final(self).config.focus == old(self).config.focus,
            final(self).config.credentials() == old(self).config.credentials(),
            final(self).token == old(self).token,
            final(self).endpoints == old(self).endpoints,
    {
        let next = self.config.save_failed(reason);
        self.state = next;
    }

    /// Takes the outcome of a token request: on success the token and the
    /// catalog are kept and the live view follows; on failure the form
    /// returns with the error shown on it.
    pub fn on_token(&mut self, outcome: Result<TokenResponse, AuthError>)
        requires
            old(self).wf(),
        ensures
            final(self).wf(),
            final(self).config.fields == old(self).config.fields,
            final(self).config.credentials() == old(self).config.credentials(),
            match outcome {
                Ok(t) => {
                    &&& final(self).state is Server
                    &&& final(self).token == t.token
                    &&& endpoint_views(final(self).endpoints@) == endpoint_views(t.endpoints@)
                    &&& final(self).config.message == old(self).config.message
                },
                Err(e) => {
                    &&& final(self).state is Loading
                    &&& final(self).config.message@ == token_error_message(e)
                    &&& final(self).token == old(self).token
                    &&& final(self).endpoints == old(self).endpoints
                },
            },
    {
        match outcome {
            Ok(t) => {
                self.token = t.token;
                self.endpoints = t.endpoints;
                self.state = AppState::Server;
            },
            Err(e) => {
                proof { reveal_strlit("Error issuing token: "); }
                self.config.message = String::from_str("Error issuing token: ").concat(e.message().as_str());
                self.state = AppState::Loading;
            },
        }
    }

    /// The live view has ended with the state it names.
    pub fn on_live_view_end(&mut self, next: AppState)
        ensures
            final(self).state == next,
            final(self).config == old(self).config,
            final(self).token == old(self).token,
            final(self).endpoints == old(self).endpoints,
    {
        self.state = next;
    }

    /// The address that the live view fetches servers from. It is fixed on
    /// purpose: the Compute endpoints of the catalog are kept in
    /// `endpoints` but are not used to find the server list.
    pub fn resource_url(&self) -> (r: String)
        ensures
            r@ == "http://localhost:5000"@,
    {
        String::from_str("http://localhost:5000")
    }
}

} // verus!
