//! What shell completion offers for a profile name.

use vstd::prelude::*;
use vstd::string::*;
use crate::model::{current_mark, profiles, Config, Server, ServerView};
use crate::text::{contains, contains_text, decimal, decimal_text};

verus! {

/// The number of profiles of a store, zero for a store that could not be
/// loaded.
pub fn servers_len(config: Option<&Config>) -> (n: usize)
    ensures
        n == match config {
            Some(c) => c@.len(),
            None => 0,
        },
{
    match config {
        Some(c) => c.servers.len(),
        None => 0,
    }
}

/// A name offered by shell completion, and what is said about it.
#[derive(Debug, PartialEq, Eq)]
pub struct Candidate {
    pub name: String,
    pub help: String,
}

/// The mathematical value of a [`Candidate`].
pub struct CandidateView {
    pub name: Seq<char>,
    pub help: Seq<char>,
}

impl View for Candidate {
    type V = CandidateView;

    open spec fn view(&self) -> CandidateView {
        CandidateView { name: self.name@, help: self.help@ }
    }
}

/// What completion says about a profile.
pub open spec fn help_text(server: ServerView) -> Seq<char> {
    "["@ + current_mark(server.current) + "] "@ + server.user + "@"@ + server.host + ":"@
        + decimal(server.port as nat)
}

/// Whether completion offers a profile for what was typed: it does where
/// the name or the host holds the typed text.
pub open spec fn offered(server: ServerView, typed: Seq<char>) -> bool {
    contains_text(server.name, typed) || contains_text(server.host, typed)
}

/// What completion offers for a profile.
pub open spec fn candidate_of(server: ServerView) -> CandidateView {
    CandidateView { name: server.name, help: help_text(server) }
}

/// What completion offers for what was typed, in the order of the store.
pub open spec fn candidates(store: Seq<ServerView>, typed: Seq<char>) -> Seq<CandidateView>
    decreases store.len(),
{
    if store.len() == 0 {
        Seq::empty()
    } else if offered(store.last(), typed) {
        candidates(store.drop_last(), typed).push(candidate_of(store.last()))
    } else {
        candidates(store.drop_last(), typed)
    }
}

/// The values of a sequence of candidates.
pub open spec fn candidate_views(v: Seq<Candidate>) -> Seq<CandidateView> {
    v.map_values(|c: Candidate| c@)
}

/// Writes what completion says about a profile.
pub fn server_help(server: &Server) -> (r: String)
    ensures
        r@ == help_text(server@),
{
    let mut r = "[".to_owned();
    match server.current {
        Some(true) => r.append("✲"),
        _ => r.append(" "),
    }
    r.append("] ");
    r.append(server.user.as_str());
    r.append("@");
    r.append(server.host.as_str());
    r.append(":");
    let port = decimal_text(server.port as u64);
    r.append(port.as_str());
    r
}

/// What completion offers for what was typed; nothing for a store that could
/// not be loaded.
pub fn server_completer(config: Option<&Config>, current: &str) -> (r: Vec<Candidate>)
    ensures
        candidate_views(r@) == match config {
            Some(c) => candidates(c@, current@),
            None => Seq::empty(),
        },
{
    let mut out: Vec<Candidate> = Vec::new();
    let config = match config {
        Some(c) => c,
        None => {
            return out;
        },
    };
    let ghost store = config@;
    let mut i: usize = 0;
    while i < config.servers.len()
        invariant
            i <= config.servers@.len(),
            store == config@,
            candidate_views(out@) == candidates(store.take(i as int), current@),
        decreases config.servers@.len() - i,
    {
        let ghost now = store.take(i + 1);
        assert(now.drop_last() =~= store.take(i as int));
        let server = &config.servers[i];
        if contains(server.name.as_str(), current) || contains(server.host.as_str(), current) {
            let candidate = Candidate { name: server.name.clone(), help: server_help(server) };
            out.push(candidate);
        }
        i += 1;
    }
    assert(store.take(store.len() as int) =~= store);
    out
}

} // verus!
