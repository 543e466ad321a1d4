//! What the interactive prompts show and what they make of an answer.
//!
//! The prompts themselves are the caller's; the lists they offer, the checks
//! on what was typed and the profile built from a filled-in form are decided
//! here.

use vstd::prelude::*;
use vstd::string::*;
use vstd::utf8::encode_utf8;
use crate::cmd::{has_named, position};
use crate::endec::{encode_string, encoded};
use crate::model::{check_port, profiles, valid_port, Config, Server, ServerView, DEFAULT_PORT};
use crate::text::{decimal, decimal_text, pad, spaces, str_eq, texts};

verus! {

/// The width of the name column of a selection list: the largest number of
/// bytes that a name takes in UTF-8.
pub open spec fn name_width(store: Seq<ServerView>) -> nat
    decreases store.len(),
{
    if store.len() == 0 {
        0
    } else {
        let before = name_width(store.drop_last());
        let last = encode_utf8(store.last().name).len();
        if last > before {
            last
        } else {
            before
        }
    }
}

/// `text`, followed by as many spaces as it has characters less than `width`.
pub open spec fn padded(text: Seq<char>, width: nat) -> Seq<char> {
    if width > text.len() {
        text + spaces((width - text.len()) as nat)
    } else {
        text
    }
}

/// The mark in front of a profile in a selection list.
pub open spec fn selection_mark(server: ServerView) -> Seq<char> {
    if server.current == Some(true) {
        "✲ "@
    } else {
        "  "@
    }
}

/// The line of a profile in a selection list.
pub open spec fn label_text(server: ServerView, width: nat) -> Seq<char> {
    selection_mark(server) + padded(server.name, width) + "\t("@ + server.user + "@"@
        + server.host + ":"@ + decimal(server.port as nat) + ")"@
}

/// The lines of a selection list: one for each profile, then the way out.
pub open spec fn selection_texts(store: Seq<ServerView>) -> Seq<Seq<char>> {
    store.map_values(|s: ServerView| label_text(s, name_width(store))).push("✗ Exit"@)
}

/// Measures the name column of a selection list.
pub fn widest_name(servers: &Vec<Server>) -> (w: usize)
    ensures
        w == name_width(profiles(servers@)),
{
    let mut w: usize = 0;
    let mut i: usize = 0;
    while i < servers.len()
        invariant
            i <= servers@.len(),
            w == name_width(profiles(servers@).take(i as int)),
        decreases servers@.len() - i,
    {
        let ghost now = profiles(servers@).take(i + 1);
        assert(now.drop_last() =~= profiles(servers@).take(i as int));
        let len: usize = servers[i].name.as_str().as_bytes().len();
        if len > w {
            w = len;
        }
        i += 1;
    }
    assert(profiles(servers@).take(servers@.len() as int) =~= profiles(servers@));
    w
}

/// Writes the line of a profile in a selection list.
pub fn selection_label(server: &Server, width: usize) -> (r: String)
    ensures
        r@ == label_text(server@, width as nat),
{
    let mut r = match server.current {
        Some(true) => "✲ ".to_owned(),
        _ => "  ".to_owned(),
    };
    r.append(server.name.as_str());
    let count: usize = server.name.as_str().unicode_len();
    if width > count {
        pad(&mut r, width - count);
    }
    r.append("\t(");
    r.append(server.user.as_str());
    r.append("@");
    r.append(server.host.as_str());
    r.append(":");
    let port = decimal_text(server.port as u64);
    r.append(port.as_str());
    r.append(")");
    r
}

/// Writes the lines of a selection list.
pub fn selection_items(servers: &Vec<Server>) -> (items: Vec<String>)
    ensures
        texts(items@) == selection_texts(profiles(servers@)),
{
    let width = widest_name(servers);
    let ghost store = profiles(servers@);
    let ghost lines = store.map_values(|s: ServerView| label_text(s, name_width(store)));
    let mut items: Vec<String> = Vec::new();
    let mut i: usize = 0;
    while i < servers.len()
        invariant
            i <= servers@.len(),
            store == profiles(servers@),
            width == name_width(store),
            lines == store.map_values(|s: ServerView| label_text(s, name_width(store))),
            items@.len() == i,
            forall|j: int| 0 <= j < i ==> (#[trigger] items@[j])@ == lines[j],
        decreases servers@.len() - i,
    {
        let label = selection_label(&servers[i], width);
        items.push(label);
        i += 1;
    }
    items.push("✗ Exit".to_owned());
    items
}

/// Whether the profile at `i` is the first that is marked as the current one.
pub open spec fn first_current(store: Seq<ServerView>, i: int) -> bool {
    &&& 0 <= i < store.len()
    &&& store[i].current == Some(true)
    &&& forall|j: int| 0 <= j < i ==> (#[trigger] store[j]).current != Some(true)
}

/// Whether a profile is marked as the current one.
pub open spec fn has_current(store: Seq<ServerView>) -> bool {
    exists|i: int| 0 <= i < store.len() && (#[trigger] store[i]).current == Some(true)
}

/// The line of a selection list that is offered first: that of the first
/// profile marked as the current one, or the first line where none is marked.
pub fn default_selection(servers: &Vec<Server>) -> (r: usize)
    ensures
        has_current(profiles(servers@)) ==> first_current(profiles(servers@), r as int),
        !has_current(profiles(servers@)) ==> r == 0,
{
    let mut i: usize = 0;
    while i < servers.len()
        invariant
            i <= servers@.len(),
            forall|j: int| 0 <= j < i ==> (#[trigger] profiles(servers@)[j]).current != Some(true),
        decreases servers@.len() - i,
    {
        match servers[i].current {
            Some(true) => {
                return i;
            },
            _ => {},
        }
        i += 1;
    }
    0
}

/// The profile that a selection stands for: none where nothing was selected,
/// or the way out was, which is the line behind the last profile.
pub fn servers_select_prompt(servers: &Vec<Server>, selection: Option<usize>) -> (r: Option<Server>)
    ensures
        match r {
            Some(s) => selection matches Some(i) && i < servers@.len() && s@ == servers@[i as int]@,
            None => selection matches Some(i) ==> i >= servers@.len(),
        },
{
    match selection {
        Some(i) => {
            if i < servers.len() {
                Some(servers[i].clone())
            } else {
                None
            }
        },
        None => None,
    }
}

/// What a typed name is, seen from the store and the name that the profile
/// has so far.
#[derive(Debug, Clone, Copy, PartialEq, Eq, Structural)]
pub enum NameCheck {
    /// The name the profile has already.
    Unchanged,
    /// The name of another profile.
    Taken,
    /// A name that no profile has.
    Free,
}

/// What `input` is as a new name of the profile named `current`.
pub open spec fn name_check(store: Seq<ServerView>, current: Seq<char>, input: Seq<char>) -> NameCheck {
    if input == current {
        NameCheck::Unchanged
    } else if has_named(store, input) {
        NameCheck::Taken
    } else {
        NameCheck::Free
    }
}

/// Checks a typed name against the store.
pub fn check_name(config: &Config, current: &str, input: &str) -> (r: NameCheck)
    ensures
        r == name_check(config@, current@, input@),
{
    if str_eq(input, current) {
        NameCheck::Unchanged
    } else {
        match position(&config.servers, input) {
            Some(_) => NameCheck::Taken,
            None => NameCheck::Free,
        }
    }
}

/// The line that tells that a number is no port.
pub fn invalid_port_message() -> (r: String)
    ensures
        r@ == "😾 Port must be a number from 1 to 65535."@,
{
    "😾 Port must be a number from 1 to 65535.".to_owned()
}

/// The line that tells that a name is taken.
pub fn name_exists_message(name: &str) -> (r: String)
    ensures
        r@ == "😾 Name "@ + name@ + " already exists."@,
{
    let mut r = "😾 Name ".to_owned();
    r.append(name);
    r.append(" already exists.");
    r
}

/// What was typed into the form of a profile.
#[derive(Debug)]
pub struct FormAnswers {
    pub name: String,
    pub host: String,
    pub port: u16,
    pub user: String,
    /// The password as typed, not encoded.
    pub password: String,
    pub identity_file: String,
}

/// The mathematical value of [`FormAnswers`].
pub struct FormAnswersView {
    pub name: Seq<char>,
    pub host: Seq<char>,
    pub port: u16,
    pub user: Seq<char>,
    pub password: Seq<char>,
    pub identity_file: Seq<char>,
}

impl View for FormAnswers {
    type V = FormAnswersView;

    open spec fn view(&self) -> FormAnswersView {
        FormAnswersView {
            name: self.name@,
            host: self.host@,
            port: self.port,
            user: self.user@,
            password: self.password@,
            identity_file: self.identity_file@,
        }
    }
}

/// Why a filled-in form makes no profile.
#[derive(Debug, Clone, Copy, PartialEq, Eq, Structural)]
pub enum FormError {
    EmptyName,
    NameExists,
    EmptyHost,
    /// The port is not a number from 1 to 65535.
    InvalidPort,
    EmptyUser,
}

/// The first fault of a filled-in form, in the order of its fields.
pub open spec fn form_fault(
    initial: ServerView,
    store: Seq<ServerView>,
    answers: FormAnswersView,
) -> Option<FormError> {
    if answers.name.len() == 0 {
        Some(FormError::EmptyName)
    } else if name_check(store, initial.name, answers.name) == NameCheck::Taken {
        Some(FormError::NameExists)
    } else if answers.host.len() == 0 {
        Some(FormError::EmptyHost)
    } else if !valid_port(answers.port) {
        Some(FormError::InvalidPort)
    } else if answers.user.len() == 0 {
        Some(FormError::EmptyUser)
    } else {
        None
    }
}

/// The profile that a filled-in form describes. The password is stored
/// encoded, an empty password or identity file not at all, and the profile
/// is not marked as the current one.
pub open spec fn form_profile(answers: FormAnswersView) -> ServerView {
    ServerView {
        name: answers.name,
        host: answers.host,
        port: answers.port,
        user: answers.user,
        password: encoded(answers.password),
        identity_file: if answers.identity_file.len() == 0 {
            None
        } else {
            Some(answers.identity_file)
        },
        current: None,
    }
}

/// The value of the outcome of a form.
pub open spec fn form_result(r: Result<Server, FormError>) -> Result<ServerView, FormError> {
    match r {
        Ok(s) => Ok(s@),
        Err(e) => Err(e),
    }
}

/// Makes a profile of a filled-in form that started from `server`. The name
/// must not be empty nor that of another profile, host and user must not be
/// empty, and the port must be a number from 1 to 65535.
pub fn server_form_prompt(server: &Server, config: &Config, answers: FormAnswers) -> (r: Result<
    Server,
    FormError,
>)
    ensures
        form_result(r) == match form_fault(server@, config@, answers@) {
            Some(e) => Err(e),
            None => Ok(form_profile(answers@)),
        },
        r matches Ok(made) ==> valid_port(made@.port),
{
    if answers.name.as_str().is_empty() {
        return Err(FormError::EmptyName);
    }
    match check_name(config, server.name.as_str(), answers.name.as_str()) {
        NameCheck::Taken => {
            return Err(FormError::NameExists);
        },
        _ => {},
    }
    if answers.host.as_str().is_empty() {
        return Err(FormError::EmptyHost);
    }
    if !check_port(answers.port) {
        return Err(FormError::InvalidPort);
    }
    if answers.user.as_str().is_empty() {
        return Err(FormError::EmptyUser);
    }
    let identity_file = if answers.identity_file.as_str().is_empty() {
        None
    } else {
        Some(answers.identity_file)
    };
    Ok(
        Server {
            name: answers.name,
            host: answers.host,
            port: answers.port,
            user: answers.user,
            password: encode_string(answers.password),
            identity_file,
            current: None,
        },
    )
}

/// The profile that the form for a new profile starts from.
pub open spec fn blank_profile() -> ServerView {
    ServerView {
        name: Seq::empty(),
        host: Seq::empty(),
        port: DEFAULT_PORT,
        user: "root"@,
        password: None,
        identity_file: Some("~/.ssh/id_rsa"@),
        current: None,
    }
}

/// The profile that the form for a new profile starts from.
pub fn blank_server() -> (s: Server)
    ensures
        s@ == blank_profile(),
{
    Server {
        name: String::new(),
        host: String::new(),
        port: DEFAULT_PORT,
        user: "root".to_owned(),
        password: None,
        identity_file: Some("~/.ssh/id_rsa".to_owned()),
        current: None,
    }
}

/// Makes a new profile of a filled-in form.
pub fn add_server_form_prompt(config: &Config, answers: FormAnswers) -> (r: Result<Server, FormError>)
    ensures
        form_result(r) == match form_fault(blank_profile(), config@, answers@) {
            Some(e) => Err(e),
            None => Ok(form_profile(answers@)),
        },
        r matches Ok(made) ==> valid_port(made@.port),
{
    let blank = blank_server();
    server_form_prompt(&blank, config, answers)
}

/// Makes the new state of `server` of a filled-in form.
pub fn edit_server_form_prompt(config: &Config, server: &Server, answers: FormAnswers) -> (r: Result<
    Server,
    FormError,
>)
    ensures
        form_result(r) == match form_fault(server@, config@, answers@) {
            Some(e) => Err(e),
            None => Ok(form_profile(answers@)),
        },
        r matches Ok(made) ==> valid_port(made@.port),
{
    server_form_prompt(server, config, answers)
}

/// Whether the second line of a list of "No" and "Yes" was selected.
pub fn yesno_select_prompt(selection: usize) -> (yes: bool)
    ensures
        yes == (selection == 1),
{
    selection == 1
}

} // verus!
