//! The credential form and the credentials it keeps.

use vstd::prelude::*;
use vstd::string::*;
use crate::state::{AppState, KeyInput};
use crate::text::{json_quoted, quote_json, push_char, pop_char};

verus! {

/// The four credential strings: user name, password, tenant id and
/// identity URL.
pub struct Credentials {
    pub username: String,
    pub password: String,
    pub tenantid: String,
    pub identity_url: String,
}

pub type CredentialsView = (Seq<char>, Seq<char>, Seq<char>, Seq<char>);

impl View for Credentials {
    type V = CredentialsView;

    open spec fn view(&self) -> CredentialsView {
        (self.username@, self.password@, self.tenantid@, self.identity_url@)
    }
}

/// Credentials are complete when none of the four strings is empty.
pub open spec fn complete(c: CredentialsView) -> bool {
    c.0.len() > 0 && c.1.len() > 0 && c.2.len() > 0 && c.3.len() > 0
}

/// The credentials that loading a saved set yields: the set itself when it
/// is complete, none (the empty form) otherwise.
pub open spec fn loaded(saved: Option<CredentialsView>) -> Option<CredentialsView> {
    match saved {
        Some(c) => if complete(c) { Some(c) } else { None },
        None => None,
    }
}

/// The saved form of credentials: one compact JSON object.
pub open spec fn credentials_json(c: CredentialsView) -> Seq<char> {
    "{\"username\":"@ + json_quoted(c.0)
        + ",\"password\":"@ + json_quoted(c.1)
        + ",\"tenantid\":"@ + json_quoted(c.2)
        + ",\"identity_url\":"@ + json_quoted(c.3)
        + "}"@
}

/// A string of `n` mask characters.
pub open spec fn stars(n: nat) -> Seq<char> {
    Seq::new(n, |i: int| '*')
}

/// The value of a text field after a key press: a character is appended,
/// Backspace removes the last character, other keys change nothing.
pub open spec fn edited(v: Seq<char>, key: KeyInput) -> Seq<char> {
    match key {
        KeyInput::Char(c) => v.push(c),
        KeyInput::Backspace => if v.len() > 0 { v.drop_last() } else { v },
        _ => v,
    }
}

#[derive(Clone, Copy, Debug, Default, PartialEq, Eq, Structural)]
pub enum Focus {
    #[default]
    Username,
    Password,
    TenantId,
    IdentityUrl,
}

/// The field after `f`, wrapping after the last one.
pub open spec fn next_focus(f: Focus) -> Focus {
    match f {
        Focus::Username => Focus::Password,
        Focus::Password => Focus::TenantId,
        Focus::TenantId => Focus::IdentityUrl,
        Focus::IdentityUrl => Focus::Username,
    }
}

impl Focus {
    pub fn next(&self) -> (r: Focus)
        ensures
            r == next_focus(*self),
    {
        match self {
            Focus::Username => Focus::Password,
            Focus::Password => Focus::TenantId,
            Focus::TenantId => Focus::IdentityUrl,
            Focus::IdentityUrl => Focus::Username,
        }
    }
}

/// A labelled text field.
pub struct StringField {
    pub label: String,
    pub value: String,
}

impl StringField {
    pub fn new(label: String) -> (r: StringField)
        ensures
            r.label == label,
            r.value@.len() == 0,
    {
        StringField { label, value: String::new() }
    }

    pub fn on_key_press(&mut self, key: KeyInput)
        ensures
            final(self).label == old(self).label,
            final(self).value@ == edited(old(self).value@, key),
    {
        match key {
            KeyInput::Char(c) => push_char(&mut self.value, c),
            KeyInput::Backspace => {
                let _ = pop_char(&mut self.value);
            },
            _ => {},
        }
    }
}

/// A labelled text field that shows one mask character per character of
/// its value.
pub struct PasswordField {
    pub label: String,
    pub display_value: String,
    pub value: String,
}

impl PasswordField {
    /// The shown text masks the value character for character.
    pub open spec fn wf(&self) -> bool {
        self.display_value@ == stars(self.value@.len())
    }

    pub fn new(label: String) -> (r: PasswordField)
        ensures
            r.wf(),
            r.label == label,
            r.value@.len() == 0,
    {
        let r = PasswordField { label, display_value: String::new(), value: String::new() };
        assert(r.display_value@ =~= stars(0));
        r
    }

    pub fn on_key_press(&mut self, key: KeyInput)
        requires
            old(self).wf(),
        ensures
            final(self).wf(),
            final(self).label == old(self).label,
            final(self).value@ == edited(old(self).value@, key),
    {
        match key {
            KeyInput::Char(c) => {
                push_char(&mut self.value, c);
                push_char(&mut self.display_value, '*');
                assert(self.display_value@ =~= stars(self.value@.len()));
            },
            KeyInput::Backspace => {
                let _ = pop_char(&mut self.value);
                let _ = pop_char(&mut self.display_value);
                assert(self.display_value@ =~= stars(self.value@.len()));
            },
            _ => {},
        }
    }
}

/// A mask of `n` characters.
fn mask(n: usize) -> (r: String)
    ensures
        r@ == stars(n as nat),
{
    let mut s = String::new();
    let mut i: usize = 0;
    while i < n
        invariant
            i <= n,
            s@ == stars(i as nat),
        decreases n - i,
    {
        push_char(&mut s, '*');
        i = i + 1;
        assert(s@ =~= stars(i as nat));
    }
    s
}

/// The four fields of the form.
pub struct Fields {
    pub username: StringField,
    pub password: PasswordField,
    pub tenantid: StringField,
    pub identity_url: StringField,
}

/// The labels that the form shows.
pub open spec fn labelled(f: Fields) -> bool {
    &&& f.username.label@ == "Username"@
    &&& f.password.label@ == "Password"@
    &&& f.tenantid.label@ == "Tenant ID"@
    &&& f.identity_url.label@ == "Identity URL"@
}

impl Fields {
    /// The credentials that the form currently holds.
    pub open spec fn values(&self) -> CredentialsView {
        (self.username.value@, self.password.value@, self.tenantid.value@, self.identity_url.value@)
    }

    pub open spec fn wf(&self) -> bool {
        self.password.wf()
    }

    /// A form filled with the given credentials.
    pub fn from(config: &Config) -> (r: Fields)
        ensures
            r.wf(),
            labelled(r),
            r.values() == config.credentials(),
    {
        proof {
            reveal_strlit("Username");
            reveal_strlit("Password");
            reveal_strlit("Tenant ID");
            reveal_strlit("Identity URL");
        }
        Fields {
            username: StringField {
                label: String::from_str("Username"),
                value: config.username.clone(),
            },
            password: PasswordField {
                label: String::from_str("Password"),
                display_value: mask(config.password.as_str().unicode_len()),
                value: config.password.clone(),
            },
            tenantid: StringField {
                label: String::from_str("Tenant ID"),
                value: config.tenantid.clone(),
            },
            identity_url: StringField {
                label: String::from_str("Identity URL"),
                value: config.identity_url.clone(),
            },
        }
    }
}

impl Default for Fields {
    fn default() -> (r: Fields)
        ensures
            r.wf(),
            labelled(r),
            r.values() == (Seq::<char>::empty(), Seq::<char>::empty(), Seq::<char>::empty(), Seq::<char>::empty()),
    {
        proof {
            reveal_strlit("Username");
            reveal_strlit("Password");
            reveal_strlit("Tenant ID");
            reveal_strlit("Identity URL");
        }
        let r = Fields {
            username: StringField::new(String::from_str("Username")),
            password: PasswordField::new(String::from_str("Password")),
            tenantid: StringField::new(String::from_str("Tenant ID")),
            identity_url: StringField::new(String::from_str("Identity URL")),
        };
        assert(r.values() =~= (Seq::<char>::empty(), Seq::<char>::empty(), Seq::<char>::empty(), Seq::<char>::empty()));
        r
    }
}

/// The credential form: which field has the cursor, the message shown above
/// the fields, the fields themselves, and the credentials last submitted.
pub struct Config {
    pub focus: Focus,
    pub message: String,
    pub fields: Fields,
    pub username: String,
    pub password: String,
    pub tenantid: String,
    pub identity_url: String,
}

/// An untouched form: cursor on the first field, no message, every field
/// and every credential empty.
pub open spec fn is_blank(c: Config) -> bool {
    &&& c.wf()
    &&& labelled(c.fields)
    &&& c.focus == Focus::Username
    &&& c.message@.len() == 0
    &&& c.fields.values() == (Seq::<char>::empty(), Seq::<char>::empty(), Seq::<char>::empty(), Seq::<char>::empty())
    &&& c.credentials() == (Seq::<char>::empty(), Seq::<char>::empty(), Seq::<char>::empty(), Seq::<char>::empty())
}

impl Default for Config {
    fn default() -> (r: Config)
        ensures
            is_blank(r),
    {
        let r = Config {
            focus: Focus::Username,
            message: String::new(),
            fields: Fields::default(),
            username: String::new(),
            password: String::new(),
            tenantid: String::new(),
            identity_url: String::new(),
        };
        assert(r.credentials() =~= (Seq::<char>::empty(), Seq::<char>::empty(), Seq::<char>::empty(), Seq::<char>::empty()));
        r
    }
}

/// The message shown when the form is submitted incomplete.
pub open spec fn fill_in_message() -> Seq<char> {
    "Please fill in all fields."@
}

/// The message shown when the credentials could not be saved.
pub open spec fn save_error_message(reason: Seq<char>) -> Seq<char> {
    "Error saving config: "@ + reason
}

impl Config {
    pub open spec fn wf(&self) -> bool {
        self.fields.wf()
    }

    /// The credentials last submitted (or loaded).
    pub open spec fn credentials(&self) -> CredentialsView {
        (self.username@, self.password@, self.tenantid@, self.identity_url@)
    }

    pub fn is_valid(&self) -> (r: bool)
        ensures
            r == complete(self.fields.values()),
    {
        validate(self)
    }

    /// Takes the field values as the submitted credentials.
    fn commit(&mut self)
        ensures
            final(self).credentials() == old(self).fields.values(),
            final(self).focus == old(self).focus,
            final(self).message == old(self).message,
            final(self).fields == old(self).fields,
    {
        self.username = self.fields.username.value.clone();
        self.password = self.fields.password.value.clone();
        self.tenantid = self.fields.tenantid.value.clone();
        self.identity_url = self.fields.identity_url.value.clone();
    }

    /// Reacts to one key press of the form and says which state comes next.
    /// Escape quits; Tab moves the cursor to the next field; Enter submits a
    /// complete form (taking its values as the credentials) or shows a
    /// message; other keys edit the field under the cursor.
    pub fn handle_events(&mut self, event: Option<KeyInput>) -> (r: AppState)
        requires
            old(self).wf(),
        ensures
            final(self).wf(),
            match event {
                None => r is Loading && *final(self) == *old(self),
                Some(KeyInput::Esc) => r is Quit && *final(self) == *old(self),
                Some(KeyInput::Tab) => r is Loading
                    && final(self).focus == next_focus(old(self).focus)
                    && final(self).message == old(self).message
                    && final(self).fields == old(self).fields
                    && final(self).credentials() == old(self).credentials(),
                Some(KeyInput::Enter) => if complete(old(self).fields.values()) {
                    &&& r == (AppState::IssueToken {
                        userid: old(self).fields.username.value,
                        password: old(self).fields.password.value,
                        tenantid: old(self).fields.tenantid.value,
                        identity_url: old(self).fields.identity_url.value,
                    })
                    &&& final(self).credentials() == old(self).fields.values()
                    &&& final(self).focus == old(self).focus
                    &&& final(self).message == old(self).message
                    &&& final(self).fields == old(self).fields
                } else {
                    &&& r is Loading
                    &&& final(self).message@ == fill_in_message()
                    &&& final(self).message@.len() > 0
                    &&& final(self).focus == old(self).focus
                    &&& final(self).fields == old(self).fields
                    &&& final(self).credentials() == old(self).credentials()
                },
                Some(key) => r is Loading
                    && final(self).focus == old(self).focus
                    && final(self).message == old(self).message
                    && final(self).credentials() == old(self).credentials()
                    && final(self).fields.values() == edited_field(old(self).fields.values(), old(self).focus, key)
                    && labelled(final(self).fields) == labelled(old(self).fields),
            },
    {
        match event {
            None => AppState::Loading,
            Some(KeyInput::Esc) => AppState::Quit,
            Some(KeyInput::Tab) => {
                self.focus = self.focus.next();
                AppState::Loading
            },
            Some(KeyInput::Enter) => {
                if self.is_valid() {
                    self.commit();
                    return AppState::IssueToken {
                        userid: self.fields.username.value.clone(),
                        password: self.fields.password.value.clone(),
                        tenantid: self.fields.tenantid.value.clone(),
                        identity_url: self.fields.identity_url.value.clone(),
                    };
                }
                proof { reveal_strlit("Please fill in all fields."); }
                self.message = String::from_str("Please fill in all fields.");
                AppState::Loading
            },
            Some(key) => {
                match self.focus {
                    Focus::Username => self.fields.username.on_key_press(key),
                    Focus::Password => self.fields.password.on_key_press(key),
                    Focus::TenantId => self.fields.tenantid.on_key_press(key),
                    Focus::IdentityUrl => self.fields.identity_url.on_key_press(key),
                }
                AppState::Loading
            },
        }
    }

    /// Shows why saving the credentials failed and stays on the form.
    pub fn save_failed(&mut self, reason: &str) -> (r: AppState)
        ensures
            r is Loading,
            final(self).message@ == save_error_message(reason@),
            final(self).focus == old(self).focus,
            final(self).fields == old(self).fields,
            final(self).credentials() == old(self).credentials(),
    {
        proof { reveal_strlit("Error saving config: "); }
        self.message = String::from_str("Error saving config: ").concat(reason);
        AppState::Loading
    }

    /// The text of the credential file for the current credentials.
    pub fn to_json(&self) -> (r: String)
        ensures
            r@ == credentials_json(self.credentials()),
    {
        proof {
            reveal_strlit("{\"username\":");
            reveal_strlit(",\"password\":");
            reveal_strlit(",\"tenantid\":");
            reveal_strlit(",\"identity_url\":");
            reveal_strlit("}");
        }
        let mut s = String::from_str("{\"username\":");
        s.append(quote_json(self.username.as_str()).as_str());
        s.append(",\"password\":");
        s.append(quote_json(self.password.as_str()).as_str());
        s.append(",\"tenantid\":");
        s.append(quote_json(self.tenantid.as_str()).as_str());
        s.append(",\"identity_url\":");
        s.append(quote_json(self.identity_url.as_str()).as_str());
        s.append("}");
        s
    }
}

/// The field values after a key press edits the field under the cursor.
pub open spec fn edited_field(v: CredentialsView, focus: Focus, key: KeyInput) -> CredentialsView {
    match focus {
        Focus::Username => (edited(v.0, key), v.1, v.2, v.3),
        Focus::Password => (v.0, edited(v.1, key), v.2, v.3),
        Focus::TenantId => (v.0, v.1, edited(v.2, key), v.3),
        Focus::IdentityUrl => (v.0, v.1, v.2, edited(v.3, key)),
    }
}

/// The form to start with, given the credentials read from the credential
/// file (none where the file is absent or unreadable): filled with them
/// when they are complete, blank otherwise.
pub fn load(saved: Option<Credentials>) -> (r: Config)
    ensures
        r.wf(),
        labelled(r.fields),
        r.focus == Focus::Username,
        r.message@.len() == 0,
        match loaded(match saved { Some(c) => Some(c@), None => None }) {
            Some(c) => r.credentials() == c && r.fields.values() == c,
            None => is_blank(r),
        },
{
    let saved = match saved {
        Some(c) => c,
        None => return Config::default(),
    };
    let mut config = Config {
        focus: Focus::Username,
        message: String::new(),
        fields: Fields::default(),
        username: saved.username,
        password: saved.password,
        tenantid: saved.tenantid,
        identity_url: saved.identity_url,
    };
    config.fields = Fields::from(&config);
    if validate(&config) {
        config
    } else {
        Config::default()
    }
}

fn validate(config: &Config) -> (r: bool)
    ensures
        r == complete(config.fields.values()),
{
    config.fields.username.value.as_str().unicode_len() > 0
        && config.fields.password.value.as_str().unicode_len() > 0
        && config.fields.tenantid.value.as_str().unicode_len() > 0
        && config.fields.identity_url.value.as_str().unicode_len() > 0
}

} // verus!
