//! Reading profiles from the text of an OpenSSH client configuration.
//!
//! Each `Host` line starts a profile, named after what follows the keyword;
//! the `HostName`, `Port`, `User` and `IdentityFile` lines behind it set its
//! fields. Empty lines, comments and other keywords are passed over.

use vstd::prelude::*;
use crate::model::{check_port, fresh_profile, profiles, valid_port, Server, ServerView};
use crate::text::{
    chars_of, find_char, index_of, is_keyword, lines, matches_keyword, parse_port, parse_u16,
    slice_of, trim, trim_range,
};

verus! {

/// The keywords that the reader knows.
#[derive(Debug, Clone, Copy, PartialEq, Eq, Structural)]
pub enum Keyword {
    Host,
    HostName,
    Port,
    User,
    IdentityFile,
    /// Any other first word of a line.
    Other,
}

/// The keyword that a word stands for, whatever the case of its letters.
pub open spec fn keyword_of(word: Seq<char>) -> Keyword {
    if is_keyword(word, "host"@) {
        Keyword::Host
    } else if is_keyword(word, "hostname"@) {
        Keyword::HostName
    } else if is_keyword(word, "port"@) {
        Keyword::Port
    } else if is_keyword(word, "user"@) {
        Keyword::User
    } else if is_keyword(word, "identityfile"@) {
        Keyword::IdentityFile
    } else {
        Keyword::Other
    }
}

/// A profile after a line that sets one of its fields. A port that is not a
/// number from 1 to 65535 leaves the port as it is.
pub open spec fn apply_setting(server: ServerView, keyword: Keyword, value: Seq<char>) -> ServerView {
    match keyword {
        Keyword::HostName => if value.len() > 0 {
            ServerView { host: value, ..server }
        } else {
            server
        },
        Keyword::Port => match parse_u16(value) {
            Some(port) => if valid_port(port) {
                ServerView { port, ..server }
            } else {
                server
            },
            None => server,
        },
        Keyword::User => if value.len() > 0 {
            ServerView { user: value, ..server }
        } else {
            server
        },
        Keyword::IdentityFile => if value.len() > 0 {
            ServerView { identity_file: Some(value), ..server }
        } else {
            server
        },
        _ => server,
    }
}

/// How far the reader has come: the profiles that are complete, and the one
/// whose lines are being read.
pub struct Progress {
    pub done: Seq<ServerView>,
    pub current: Option<ServerView>,
}

/// The profiles read so far, the one being read included.
pub open spec fn collected(progress: Progress) -> Seq<ServerView> {
    match progress.current {
        Some(server) => progress.done.push(server),
        None => progress.done,
    }
}

/// The first word of a line that has been trimmed: what stands before its
/// first space.
pub open spec fn first_word(text: Seq<char>) -> Seq<char> {
    text.take(index_of(text, ' ') as int)
}

/// What stands behind the first space of a line that has been trimmed,
/// trimmed again; `None` for a line without a space.
pub open spec fn rest_of(text: Seq<char>) -> Option<Seq<char>> {
    let cut = index_of(text, ' ');
    if cut < text.len() {
        Some(trim(text.skip(cut as int + 1)))
    } else {
        None
    }
}

/// The progress after one more line.
pub open spec fn apply_line(progress: Progress, line: Seq<char>) -> Progress {
    let text = trim(line);
    if text.len() == 0 || text[0] == '#' {
        progress
    } else if keyword_of(first_word(text)) == Keyword::Host {
        Progress {
            done: collected(progress),
            current: match rest_of(text) {
                Some(name) => Some(fresh_profile(name)),
                None => None,
            },
        }
    } else {
        match (progress.current, rest_of(text)) {
            (Some(server), Some(value)) => Progress {
                current: Some(apply_setting(server, keyword_of(first_word(text)), value)),
                ..progress
            },
            _ => progress,
        }
    }
}

/// The progress after more lines.
pub open spec fn apply_lines(progress: Progress, more: Seq<Seq<char>>) -> Progress
    decreases more.len(),
{
    if more.len() == 0 {
        progress
    } else {
        apply_lines(apply_line(progress, more[0]), more.drop_first())
    }
}

/// The profiles that a configuration text describes, in the order of their
/// `Host` lines.
pub open spec fn parsed(content: Seq<char>) -> Seq<ServerView> {
    collected(apply_lines(Progress { done: Seq::empty(), current: None }, lines(content)))
}

/// The value of an optional profile.
pub open spec fn profile_of(server: Option<Server>) -> Option<ServerView> {
    match server {
        Some(s) => Some(s@),
        None => None,
    }
}

/// The words that the reader compares first words with.
struct Keywords {
    host: Vec<char>,
    host_name: Vec<char>,
    port: Vec<char>,
    user: Vec<char>,
    identity_file: Vec<char>,
}

impl Keywords {
    spec fn well_formed(&self) -> bool {
        &&& self.host@ == "host"@
        &&& self.host_name@ == "hostname"@
        &&& self.port@ == "port"@
        &&& self.user@ == "user"@
        &&& self.identity_file@ == "identityfile"@
    }

    fn new() -> (k: Keywords)
        ensures
            k.well_formed(),
    {
        Keywords {
            host: chars_of("host"),
            host_name: chars_of("hostname"),
            port: chars_of("port"),
            user: chars_of("user"),
            identity_file: chars_of("identityfile"),
        }
    }

    fn classify(&self, s: &[char], from: usize, to: usize) -> (k: Keyword)
        requires
            self.well_formed(),
            from <= to <= s@.len(),
        ensures
            k == keyword_of(s@.subrange(from as int, to as int)),
    {
        if matches_keyword(s, from, to, self.host.as_slice()) {
            Keyword::Host
        } else if matches_keyword(s, from, to, self.host_name.as_slice()) {
            Keyword::HostName
        } else if matches_keyword(s, from, to, self.port.as_slice()) {
            Keyword::Port
        } else if matches_keyword(s, from, to, self.user.as_slice()) {
            Keyword::User
        } else if matches_keyword(s, from, to, self.identity_file.as_slice()) {
            Keyword::IdentityFile
        } else {
            Keyword::Other
        }
    }
}

fn set_field(server: Server, keyword: Keyword, content: &str, s: &[char], from: usize, to: usize) -> (r:
    Server)
    requires
        s@ == content@,
        from <= to <= s@.len(),
    ensures
        r@ == apply_setting(server@, keyword, s@.subrange(from as int, to as int)),
{
    let mut server = server;
    match keyword {
        Keyword::HostName => {
            if from < to {
                server.host = slice_of(content, from, to);
            }
        },
        Keyword::Port => {
            match parse_port(s, from, to) {
                Some(port) => {
                    if check_port(port) {
                        server.port = port;
                    }
                },
                None => {},
            }
        },
        Keyword::User => {
            if from < to {
                server.user = slice_of(content, from, to);
            }
        },
        Keyword::IdentityFile => {
            if from < to {
                server.identity_file = Some(slice_of(content, from, to));
            }
        },
        _ => {},
    }
    server
}

fn read_line(
    keywords: &Keywords,
    content: &str,
    s: &[char],
    from: usize,
    to: usize,
    done: &mut Vec<Server>,
    current: Option<Server>,
) -> (r: Option<Server>)
    requires
        keywords.well_formed(),
        s@ == content@,
        from <= to <= s@.len(),
    ensures
        (Progress { done: profiles(final(done)@), current: profile_of(r) }) == apply_line(
            Progress { done: profiles(old(done)@), current: profile_of(current) },
            s@.subrange(from as int, to as int),
        ),
{
    let (a, b) = trim_range(s, from, to);
    let ghost text = s@.subrange(a as int, b as int);
    if a == b || s[a] == '#' {
        return current;
    }
    let cut: usize = find_char(s, a, b, ' ');
    assert(first_word(text) =~= s@.subrange(a as int, cut as int));
    let keyword = keywords.classify(s, a, cut);
    let value: Option<(usize, usize)> = if cut < b {
        assert(text.skip(cut - a + 1) =~= s@.subrange(cut + 1, b as int));
        Some(trim_range(s, cut + 1, b))
    } else {
        None
    };
    match keyword {
        Keyword::Host => {
            match current {
                Some(server) => {
                    done.push(server);
                    assert(profiles(done@) =~= profiles(old(done)@).push(server@));
                },
                None => {},
            }
            match value {
                Some((from, to)) => Some(Server::new(slice_of(content, from, to))),
                None => None,
            }
        },
        _ => match current {
            Some(server) => match value {
                Some((from, to)) => Some(set_field(server, keyword, content, s, from, to)),
                None => Some(server),
            },
            None => None,
        },
    }
}

/// Whether every profile read so far has a port from 1 to 65535.
pub open spec fn ports_in_range(progress: Progress) -> bool {
    &&& forall|i: int| 0 <= i < progress.done.len() ==> valid_port((#[trigger] progress.done[i]).port)
    &&& progress.current matches Some(server) ==> valid_port(server.port)
}

/// No line takes a port out of the range.
proof fn lemma_line_keeps_ports(progress: Progress, line: Seq<char>)
    requires
        ports_in_range(progress),
    ensures
        ports_in_range(apply_line(progress, line)),
{
    let after = apply_line(progress, line);
    assert forall|i: int| 0 <= i < after.done.len() implies valid_port(
        (#[trigger] after.done[i]).port,
    ) by {
        if i < progress.done.len() {
            assert(valid_port(progress.done[i].port));
        }
    }
}

proof fn lemma_lines_keep_ports(progress: Progress, more: Seq<Seq<char>>)
    requires
        ports_in_range(progress),
    ensures
        ports_in_range(apply_lines(progress, more)),
    decreases more.len(),
{
    if more.len() > 0 {
        lemma_line_keeps_ports(progress, more[0]);
        lemma_lines_keep_ports(apply_line(progress, more[0]), more.drop_first());
    }
}

/// Whatever the text, every profile read from it has a port from 1 to
/// 65535: a `Port` line that names another number is passed over.
pub proof fn law_parsed_ports_in_range(content: Seq<char>)
    ensures
        forall|i: int|
            0 <= i < parsed(content).len() ==> valid_port((#[trigger] parsed(content)[i]).port),
{
    let start = Progress { done: Seq::empty(), current: None };
    lemma_lines_keep_ports(start, lines(content));
    let end = apply_lines(start, lines(content));
    assert forall|i: int| 0 <= i < parsed(content).len() implies valid_port(
        (#[trigger] parsed(content)[i]).port,
    ) by {
        if i < end.done.len() {
            assert(valid_port(end.done[i].port));
        }
    }
}

/// Reads the profiles that the text of a configuration describes. Every one
/// of them has a port from 1 to 65535.
pub fn parse_ssh_config(content: &str) -> (servers: Vec<Server>)
    ensures
        profiles(servers@) == parsed(content@),
        forall|i: int| 0 <= i < servers@.len() ==> valid_port((#[trigger] servers@[i]).port),
{
    let keywords = Keywords::new();
    let chars = chars_of(content);
    let s = chars.as_slice();
    let n: usize = s.len();
    let mut done: Vec<Server> = Vec::new();
    let mut current: Option<Server> = None;
    let mut pos: usize = 0;
    let ghost start = Progress { done: Seq::<ServerView>::empty(), current: None };
    assert(profiles(done@) =~= Seq::<ServerView>::empty());
    assert(content@.skip(0) =~= content@);
    loop
        invariant_except_break
            pos <= n,
            apply_lines(
                Progress { done: profiles(done@), current: profile_of(current) },
                lines(s@.skip(pos as int)),
            ) == apply_lines(start, lines(s@)),
        invariant
            keywords.well_formed(),
            s@ == content@,
            n == s@.len(),
            start == (Progress { done: Seq::<ServerView>::empty(), current: None }),
        ensures
            (Progress { done: profiles(done@), current: profile_of(current) }) == apply_lines(
                start,
                lines(s@),
            ),
        decreases n - pos,
    {
        let ghost rest = s@.skip(pos as int);
        let ghost before = Progress { done: profiles(done@), current: profile_of(current) };
        let end: usize = find_char(s, pos, n, '\n');
        assert(rest.take(end - pos) =~= s@.subrange(pos as int, end as int));
        current = read_line(&keywords, content, s, pos, end, &mut done, current);
        if end >= n {
            proof {
                assert(seq![rest].drop_first() =~= Seq::<Seq<char>>::empty());
                assert(apply_lines(before, seq![rest]) == apply_lines(
                    apply_line(before, rest),
                    Seq::<Seq<char>>::empty(),
                ));
            }
            break;
        }
        proof {
            let line = rest.take(end - pos);
            let more = lines(rest.skip(end - pos + 1));
            assert(rest.skip(end - pos + 1) =~= s@.skip(end + 1));
            assert((seq![line] + more).drop_first() =~= more);
        }
        pos = end + 1;
    }
    match current {
        Some(server) => {
            done.push(server);
        },
        None => {},
    }
    proof {
        law_parsed_ports_in_range(content@);
        assert(profiles(done@) == parsed(content@));
        assert forall|i: int| 0 <= i < done@.len() implies valid_port((#[trigger] done@[i]).port) by {
            assert(valid_port(parsed(content@)[i].port));
            assert(profiles(done@)[i] == done@[i]@);
        }
    }
    done
}

} // verus!
