//! Fatal conditions of a session and the exit status they map to.

use vstd::prelude::*;

verus! {

/// Why a session could not be established or had to stop.
#[derive(Debug, Clone, Copy, PartialEq, Eq, Structural)]
pub enum SessionError {
    /// The host name could not be turned into an address.
    Resolution,
    /// The transport could not be established.
    Connect,
    /// The stored secret is not a well-formed encoding of a password.
    CredentialDecode,
    /// The identity file is missing or cannot be parsed.
    KeyLoad,
    /// The server rejected the one authentication attempt.
    Authentication,
    /// The shell channel could not be opened.
    ChannelOpen,
    /// The remote side refused to allocate a pseudo-terminal.
    PtyRequest,
    /// The remote side refused to start a shell.
    ShellRequest,
    /// The local terminal could not be queried or switched.
    TerminalQuery,
    /// Reading local input, writing local output or sending on the channel failed.
    Io,
}

/// The text shown to the user for each error.
pub open spec fn error_text(e: SessionError) -> Seq<char> {
    match e {
        SessionError::Resolution => "Address resolution failed."@,
        SessionError::Connect => "Connection failed."@,
        SessionError::CredentialDecode => "Stored password cannot be decoded."@,
        SessionError::KeyLoad => "Identity file cannot be loaded."@,
        SessionError::Authentication => "Authentication failed."@,
        SessionError::ChannelOpen => "Channel cannot be opened."@,
        SessionError::PtyRequest => "Pseudo-terminal request failed."@,
        SessionError::ShellRequest => "Shell request failed."@,
        SessionError::TerminalQuery => "Terminal query failed."@,
        SessionError::Io => "Input or output failed."@,
    }
}

impl SessionError {
    /// The message reported to the user before the process exits.
    pub fn message(&self) -> (r: String)
        ensures
            r@ == error_text(*self),
    {
        match self {
            SessionError::Resolution => "Address resolution failed.".to_owned(),
            SessionError::Connect => "Connection failed.".to_owned(),
            SessionError::CredentialDecode => "Stored password cannot be decoded.".to_owned(),
            SessionError::KeyLoad => "Identity file cannot be loaded.".to_owned(),
            SessionError::Authentication => "Authentication failed.".to_owned(),
            SessionError::ChannelOpen => "Channel cannot be opened.".to_owned(),
            SessionError::PtyRequest => "Pseudo-terminal request failed.".to_owned(),
            SessionError::ShellRequest => "Shell request failed.".to_owned(),
            SessionError::TerminalQuery => "Terminal query failed.".to_owned(),
            SessionError::Io => "Input or output failed.".to_owned(),
        }
    }
}

/// The exit status of the process for a session outcome: zero exactly for a
/// session that closed without a fatal error.
pub open spec fn exit_status(outcome: Result<(), SessionError>) -> u8 {
    if outcome is Ok {
        0
    } else {
        1
    }
}

/// Computes the process exit status of a session outcome.
pub fn exit_code(outcome: &Result<(), SessionError>) -> (code: u8)
    ensures
        code == exit_status(*outcome),
        (code == 0) <==> outcome is Ok,
{
    match outcome {
        Ok(_) => 0,
        Err(_) => 1,
    }
}

} // verus!
