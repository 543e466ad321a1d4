//! Stored connection profiles.

use vstd::prelude::*;

verus! {

/// The port of a profile that names none.
pub const DEFAULT_PORT: u16 = 22;

/// Whether a number is the port of a profile: one from 1 to 65535.
pub open spec fn valid_port(port: u16) -> bool {
    port >= 1
}

/// Whether a number is the port of a profile: one from 1 to 65535.
pub fn check_port(port: u16) -> (r: bool)
    ensures
        r == valid_port(port),
{
    port >= 1
}

/// The user of a profile that names none.
pub open spec fn default_user() -> Seq<char> {
    "root"@
}

/// The identity file of a profile that names none.
pub open spec fn default_identity_file() -> Seq<char> {
    "~/.ssh/id_rsa"@
}

/// A named set of connection parameters for one remote host.
#[derive(Debug)]
pub struct Server {
    pub name: String,
    pub host: String,
    /// A number from 1 to 65535; see [`valid_port`].
    pub port: u16,
    pub user: String,
    /// The password, as standard base64 text of its bytes.
    pub password: Option<String>,
    pub identity_file: Option<String>,
    /// Set on the profile that was connected to last.
    pub current: Option<bool>,
}

/// The mathematical value of a [`Server`].
pub struct ServerView {
    pub name: Seq<char>,
    pub host: Seq<char>,
    pub port: u16,
    pub user: Seq<char>,
    pub password: Option<Seq<char>>,
    pub identity_file: Option<Seq<char>>,
    pub current: Option<bool>,
}

/// The text of an optional string.
pub open spec fn text_of(value: Option<String>) -> Option<Seq<char>> {
    match value {
        Some(s) => Some(s@),
        None => None,
    }
}

impl View for Server {
    type V = ServerView;

    open spec fn view(&self) -> ServerView {
        ServerView {
            name: self.name@,
            host: self.host@,
            port: self.port,
            user: self.user@,
            password: text_of(self.password),
            identity_file: text_of(self.identity_file),
            current: self.current,
        }
    }
}

/// The profile that `Server::new` makes for a host.
pub open spec fn fresh_profile(host: Seq<char>) -> ServerView {
    ServerView {
        name: host,
        host: host,
        port: DEFAULT_PORT,
        user: default_user(),
        password: None,
        identity_file: Some(default_identity_file()),
        current: None,
    }
}

/// Copies an optional string.
pub fn clone_text(value: &Option<String>) -> (r: Option<String>)
    ensures
        text_of(r) == text_of(*value),
{
    match value {
        Some(s) => Some(s.clone()),
        None => None,
    }
}

impl Clone for Server {
    fn clone(&self) -> (r: Self)
        ensures
            r@ == self@,
    {
        Server {
            name: self.name.clone(),
            host: self.host.clone(),
            port: self.port,
            user: self.user.clone(),
            password: clone_text(&self.password),
            identity_file: clone_text(&self.identity_file),
            current: self.current,
        }
    }
}

impl Server {
    /// A profile for `host`, named after it, with the default port, user and
    /// identity file and no password.
    pub fn new(host: String) -> (s: Server)
        ensures
            s@ == fresh_profile(host@),
            valid_port(s@.port),
    {
        Server {
            host: host.clone(),
            name: host,
            port: DEFAULT_PORT,
            user: "root".to_owned(),
            password: None,
            identity_file: Some("~/.ssh/id_rsa".to_owned()),
            current: None,
        }
    }
}

/// One host of an OpenSSH client configuration, as a reader of such files
/// hands it over.
#[derive(Debug)]
pub struct HostEntry {
    pub name: String,
    pub host: String,
    pub port: Option<u16>,
    pub user: String,
    pub identity_file: Option<String>,
}

/// The port of a host entry: the one it names, or the default where it
/// names none or one that is no port of a profile.
pub open spec fn port_or_default(port: Option<u16>) -> u16 {
    match port {
        Some(p) => if valid_port(p) {
            p
        } else {
            DEFAULT_PORT
        },
        None => DEFAULT_PORT,
    }
}

impl From<HostEntry> for Server {
    /// The profile of a host entry: its fields, the default port where it
    /// names none or zero, no password, and no mark.
    fn from(host: HostEntry) -> (s: Server)
        ensures
            s@ == (ServerView {
                name: host.name@,
                host: host.host@,
                port: port_or_default(host.port),
                user: host.user@,
                password: None,
                identity_file: text_of(host.identity_file),
                current: None,
            }),
            valid_port(s@.port),
    {
        Server {
            name: host.name,
            host: host.host,
            port: match host.port {
                Some(p) => if check_port(p) {
                    p
                } else {
                    DEFAULT_PORT
                },
                None => DEFAULT_PORT,
            },
            user: host.user,
            password: None,
            identity_file: host.identity_file,
            current: None,
        }
    }
}

impl vstd::std_specs::convert::FromSpecImpl<HostEntry> for Server {
    open spec fn obeys_from_spec() -> bool {
        true
    }

    open spec fn from_spec(host: HostEntry) -> Server {
        Server {
            name: host.name,
            host: host.host,
            port: port_or_default(host.port),
            user: host.user,
            password: None,
            identity_file: host.identity_file,
            current: None,
        }
    }
}

/// What a table of profiles shows for a password.
pub open spec fn password_mask(value: Option<Seq<char>>) -> Seq<char> {
    if value is Some {
        "******"@
    } else {
        ""@
    }
}

/// What a table of profiles shows for the "current" flag.
pub open spec fn current_mark(value: Option<bool>) -> Seq<char> {
    if value == Some(true) {
        "✲"@
    } else {
        " "@
    }
}

/// Masks a password for display: six asterisks where there is one, nothing
/// where there is none.
pub fn display_password(value: &Option<String>) -> (r: String)
    ensures
        r@ == password_mask(text_of(*value)),
{
    match value {
        Some(_) => "******".to_owned(),
        None => "".to_owned(),
    }
}

/// Marks the current profile for display.
pub fn display_option_bool(value: &Option<bool>) -> (r: String)
    ensures
        r@ == current_mark(*value),
{
    match value {
        Some(true) => "✲".to_owned(),
        _ => " ".to_owned(),
    }
}

/// The profile store: every profile, in the order in which they are listed.
#[derive(Debug)]
pub struct Config {
    pub servers: Vec<Server>,
}

/// The profiles of a sequence of servers.
pub open spec fn profiles(servers: Seq<Server>) -> Seq<ServerView> {
    servers.map_values(|s: Server| s@)
}

impl View for Config {
    type V = Seq<ServerView>;

    open spec fn view(&self) -> Seq<ServerView> {
        profiles(self.servers@)
    }
}

} // verus!
