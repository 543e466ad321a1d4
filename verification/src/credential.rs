//! Which credential a session uses, and what is handed to the transport.

use vstd::prelude::*;
use vstd::string::*;
use crate::endec::{base64_bytes, base64_decode, bytes_of, decoded_text, text_of_decoded};
use crate::error::SessionError;
use crate::model::{default_identity_file, Server, ServerView};

verus! {

/// The credential of a profile that a session authenticates with.
#[derive(Debug, PartialEq, Eq)]
pub enum Credential {
    /// A password, in its stored form.
    Password(String),
    /// The path of a private key file, as the profile names it.
    IdentityFile(String),
}

/// The mathematical value of a [`Credential`].
pub enum CredentialView {
    Password(Seq<char>),
    IdentityFile(Seq<char>),
}

impl View for Credential {
    type V = CredentialView;

    open spec fn view(&self) -> CredentialView {
        match self {
            Credential::Password(p) => CredentialView::Password(p@),
            Credential::IdentityFile(f) => CredentialView::IdentityFile(f@),
        }
    }
}

/// The identity file of a profile: the one it names, or the default.
pub open spec fn identity_path(server: ServerView) -> Seq<char> {
    match server.identity_file {
        Some(f) => f,
        None => default_identity_file(),
    }
}

/// Whether a profile holds a password to authenticate with. An empty
/// password counts as none.
pub open spec fn has_password(server: ServerView) -> bool {
    server.password matches Some(p) && p.len() > 0
}

/// The credential policy: a password that is present and not empty is used,
/// and the key is never tried beside it; otherwise the identity file is used.
pub open spec fn credential_of(server: ServerView) -> CredentialView {
    if has_password(server) {
        CredentialView::Password(server.password->0)
    } else {
        CredentialView::IdentityFile(identity_path(server))
    }
}

/// Chooses the credential of a profile.
pub fn select_credential(server: &Server) -> (c: Credential)
    ensures
        c@ == credential_of(server@),
{
    match &server.password {
        Some(p) => {
            if !p.as_str().is_empty() {
                return Credential::Password(p.clone());
            }
        },
        None => {},
    }
    match &server.identity_file {
        Some(f) => Credential::IdentityFile(f.clone()),
        None => Credential::IdentityFile("~/.ssh/id_rsa".to_owned()),
    }
}

/// The password that decoded bytes stand for: the characters they encode as
/// UTF-8, where base64 gave bytes and they are well-formed.
pub open spec fn secret_text(bytes: Option<Seq<u8>>) -> Option<Seq<char>> {
    match decoded_text(bytes) {
        Ok(text) => Some(text),
        Err(_) => None,
    }
}

/// The password that a stored form stands for, if it stands for one.
pub open spec fn secret_of(stored: Seq<char>) -> Option<Seq<char>> {
    secret_text(base64_bytes(stored))
}

/// The text of a decoding outcome.
pub open spec fn secret_result(r: Result<String, SessionError>) -> Option<Seq<char>> {
    match r {
        Ok(s) => Some(s@),
        Err(_) => None,
    }
}

/// Turns what base64 made of a stored password into the secret handed to
/// the transport. Bytes that are missing or are not UTF-8 are a
/// `CredentialDecode` error.
pub fn secret_from(bytes: Option<Vec<u8>>) -> (r: Result<String, SessionError>)
    ensures
        secret_result(r) == secret_text(bytes_of(bytes)),
        r matches Err(e) ==> e == SessionError::CredentialDecode,
{
    match text_of_decoded(bytes) {
        Ok(secret) => Ok(secret),
        Err(_) => Err(SessionError::CredentialDecode),
    }
}

/// Decodes a stored password into the secret handed to the transport.
pub fn decode_secret(stored: &str) -> (r: Result<String, SessionError>)
    ensures
        secret_result(r) == secret_of(stored@),
        r matches Err(e) ==> e == SessionError::CredentialDecode,
{
    secret_from(base64_decode(stored))
}

/// Whether `path` starts with the home-directory marker: a `~` that a
/// separator or nothing follows.
pub open spec fn home_marked(path: Seq<char>) -> bool {
    &&& path.len() > 0
    &&& path[0] == '~'
    &&& (path.len() == 1 || path[1] == '/' || path[1] == '\\')
}

/// What expanding a leading home-directory marker can make of `path`: the
/// path itself, or, for a path that starts with the marker, some directory
/// followed by what stands behind the `~`. A path without the marker comes
/// back as it is.
pub open spec fn home_expansion(path: Seq<char>, expanded: Seq<char>) -> bool {
    ||| expanded == path
    ||| {
        &&& home_marked(path)
        &&& expanded.len() >= path.len() - 1
        &&& expanded.skip(expanded.len() - (path.len() - 1)) == path.skip(1)
    }
}

/// Calls `shellexpand::tilde`. Which directory replaces the marker depends on
/// the environment, a backslash counts as a separator on some systems only,
/// and a path may come back unchanged; the contract states what holds either
/// way.
#[verifier::external_body]
pub(crate) fn expand_tilde(path: &str) -> (r: String)
    ensures
        home_expansion(path@, r@),
{
    shellexpand::tilde(path).into_owned()
}

/// The path of the private key file of a profile, with a leading
/// home-directory marker expanded.
pub fn key_path(server: &Server) -> (r: String)
    ensures
        home_expansion(identity_path(server@), r@),
{
    match &server.identity_file {
        Some(f) => expand_tilde(f.as_str()),
        None => expand_tilde("~/.ssh/id_rsa"),
    }
}

} // verus!
