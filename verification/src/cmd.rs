//! Editing the profile store.
//!
//! Every function here works on a store that the caller has loaded and saves
//! again; what is shown to the user comes back as text.

use vstd::prelude::*;
use vstd::string::*;
use crate::model::{profiles, valid_port, Config, Server, ServerView};
use crate::text::{decimal, decimal_text, join, joined, str_eq, texts};

verus! {

/// Whether the store holds a profile named `name`.
pub open spec fn has_named(store: Seq<ServerView>, name: Seq<char>) -> bool {
    exists|i: int| 0 <= i < store.len() && (#[trigger] store[i]).name == name
}

/// Whether the profile at `i` is the first of the store that is named `name`.
pub open spec fn first_named(store: Seq<ServerView>, name: Seq<char>, i: int) -> bool {
    &&& 0 <= i < store.len()
    &&& store[i].name == name
    &&& forall|j: int| 0 <= j < i ==> (#[trigger] store[j]).name != name
}

/// How a line is shown to the user.
#[derive(Debug, Clone, Copy, PartialEq, Eq, Structural)]
pub enum Tone {
    /// Something was done.
    Good,
    /// Nothing was done, or not all of it.
    Warning,
}

/// A line for the user.
#[derive(Debug, PartialEq, Eq)]
pub struct Message {
    pub tone: Tone,
    pub text: String,
}

/// The mathematical value of a [`Message`].
pub struct MessageView {
    pub tone: Tone,
    pub text: Seq<char>,
}

impl View for Message {
    type V = MessageView;

    open spec fn view(&self) -> MessageView {
        MessageView { tone: self.tone, text: self.text@ }
    }
}

/// A line that tells that something was done.
pub open spec fn good(text: Seq<char>) -> MessageView {
    MessageView { tone: Tone::Good, text }
}

/// A line that tells that nothing was done, or not all of it.
pub open spec fn warning(text: Seq<char>) -> MessageView {
    MessageView { tone: Tone::Warning, text }
}

/// Three texts in a row.
fn wrap(before: &str, text: &str, after: &str) -> (r: String)
    ensures
        r@ == before@ + text@ + after@,
{
    let mut r = before.to_owned();
    r.append(text);
    r.append(after);
    r
}

/// The line that tells the version of the program.
pub fn version(number: &str) -> (r: Message)
    ensures
        r@ == good("😸 Version: v"@ + number@),
{
    let mut text = "😸 Version: v".to_owned();
    text.append(number);
    Message { tone: Tone::Good, text }
}

/// The index of the first profile named `name`.
pub fn position(servers: &Vec<Server>, name: &str) -> (r: Option<usize>)
    ensures
        match r {
            Some(i) => first_named(profiles(servers@), name@, i as int),
            None => !has_named(profiles(servers@), name@),
        },
{
    let mut i: usize = 0;
    while i < servers.len()
        invariant
            i <= servers@.len(),
            forall|j: int| 0 <= j < i ==> (#[trigger] profiles(servers@)[j]).name != name@,
        decreases servers@.len() - i,
    {
        if str_eq(servers[i].name.as_str(), name) {
            return Some(i);
        }
        i += 1;
    }
    None
}

/// The first profile named `name`, if the store holds one.
pub fn get_server_from(config: &Config, name: &str) -> (r: Option<Server>)
    ensures
        match r {
            Some(s) => exists|i: int| first_named(config@, name@, i) && s@ == config@[i],
            None => !has_named(config@, name@),
        },
{
    match position(&config.servers, name) {
        Some(i) => {
            let found = config.servers[i].clone();
            assert(first_named(config@, name@, i as int) && found@ == config@[i as int]);
            Some(found)
        },
        None => None,
    }
}

/// The store after profiles were imported into it, one after the other: a
/// profile whose name the store holds already, from before or from earlier in
/// the same import, is passed over; every other one is added at the end.
pub open spec fn merged(store: Seq<ServerView>, incoming: Seq<ServerView>) -> Seq<ServerView>
    decreases incoming.len(),
{
    if incoming.len() == 0 {
        store
    } else {
        let before = merged(store, incoming.drop_last());
        if has_named(before, incoming.last().name) {
            before
        } else {
            before.push(incoming.last())
        }
    }
}

/// The names of the profiles that an import passes over, in order.
pub open spec fn passed_over(store: Seq<ServerView>, incoming: Seq<ServerView>) -> Seq<Seq<char>>
    decreases incoming.len(),
{
    if incoming.len() == 0 {
        Seq::empty()
    } else {
        let before = passed_over(store, incoming.drop_last());
        if has_named(merged(store, incoming.drop_last()), incoming.last().name) {
            before.push(incoming.last().name)
        } else {
            before
        }
    }
}

/// What an import did.
#[derive(Debug)]
pub struct ImportReport {
    /// How many profiles were added.
    pub imported: usize,
    /// The names that were passed over because the store held them already.
    pub skipped: Vec<String>,
}

/// Imports profiles into the store.
pub fn import_servers(config: &mut Config, servers: Vec<Server>) -> (report: ImportReport)
    ensures
        final(config)@ == merged(old(config)@, profiles(servers@)),
        texts(report.skipped@) == passed_over(old(config)@, profiles(servers@)),
        report.imported == final(config)@.len() - old(config)@.len(),
{
    let ghost store = config@;
    let ghost incoming = profiles(servers@);
    let mut skipped: Vec<String> = Vec::new();
    let mut imported: usize = 0;
    let mut i: usize = 0;
    while i < servers.len()
        invariant
            i <= servers@.len(),
            incoming == profiles(servers@),
            config@ == merged(store, incoming.take(i as int)),
            texts(skipped@) == passed_over(store, incoming.take(i as int)),
            imported == config@.len() - store.len(),
            imported <= i,
        decreases servers@.len() - i,
    {
        let ghost seen = incoming.take(i as int);
        let ghost now = incoming.take(i + 1);
        assert(now.drop_last() =~= seen);
        let server = servers[i].clone();
        match position(&config.servers, server.name.as_str()) {
            Some(_) => {
                skipped.push(server.name.clone());
            },
            None => {
                config.servers.push(server);
                imported += 1;
            },
        }
        i += 1;
    }
    assert(incoming.take(servers@.len() as int) =~= incoming);
    ImportReport { imported, skipped }
}

/// What is said after an import that found `found` profiles and added
/// `imported` of them.
pub open spec fn import_text(found: nat, imported: nat) -> MessageView {
    if found == 0 {
        warning("😿 No new servers found."@)
    } else if imported > 0 {
        good("😺 "@ + decimal(imported) + " servers imported from .ssh/config done."@)
    } else {
        warning("😿 No servers imported."@)
    }
}

/// The line that tells what an import did.
pub fn import_message(found: usize, imported: usize) -> (r: Message)
    ensures
        r@ == import_text(found as nat, imported as nat),
{
    if found == 0 {
        Message { tone: Tone::Warning, text: "😿 No new servers found.".to_owned() }
    } else if imported > 0 {
        let number = decimal_text(imported as u64);
        Message {
            tone: Tone::Good,
            text: wrap("😺 ", number.as_str(), " servers imported from .ssh/config done."),
        }
    } else {
        Message { tone: Tone::Warning, text: "😿 No servers imported.".to_owned() }
    }
}

/// The line that tells that an imported profile was passed over.
pub fn skipped_message(name: &str) -> (r: Message)
    ensures
        r@ == warning("😿 Server <"@ + name@ + "> already exists, skipping."@),
{
    Message { tone: Tone::Warning, text: wrap("😿 Server <", name, "> already exists, skipping.") }
}

/// Those of `names` that the store holds a profile for, in order.
pub open spec fn known(store: Seq<ServerView>, names: Seq<Seq<char>>) -> Seq<Seq<char>>
    decreases names.len(),
{
    if names.len() == 0 {
        Seq::empty()
    } else if has_named(store, names.last()) {
        known(store, names.drop_last()).push(names.last())
    } else {
        known(store, names.drop_last())
    }
}

/// Those of `names` that the store holds no profile for, in order.
pub open spec fn unknown(store: Seq<ServerView>, names: Seq<Seq<char>>) -> Seq<Seq<char>>
    decreases names.len(),
{
    if names.len() == 0 {
        Seq::empty()
    } else if has_named(store, names.last()) {
        unknown(store, names.drop_last())
    } else {
        unknown(store, names.drop_last()).push(names.last())
    }
}

/// The names without those that repeat the name just before them.
pub open spec fn without_repeats(names: Seq<Seq<char>>) -> Seq<Seq<char>>
    decreases names.len(),
{
    if names.len() <= 1 {
        names
    } else if names.last() == names[names.len() - 2] {
        without_repeats(names.drop_last())
    } else {
        without_repeats(names.drop_last()).push(names.last())
    }
}

/// Drops every name that repeats the name just before it.
pub fn dedup_names(names: &Vec<String>) -> (r: Vec<String>)
    ensures
        texts(r@) == without_repeats(texts(names@)),
{
    let mut kept: Vec<String> = Vec::new();
    let mut i: usize = 0;
    while i < names.len()
        invariant
            i <= names@.len(),
            texts(kept@) == without_repeats(texts(names@).take(i as int)),
        decreases names@.len() - i,
    {
        let ghost seen = texts(names@).take(i as int);
        let ghost now = texts(names@).take(i + 1);
        assert(now.drop_last() =~= seen);
        if i == 0 {
            kept.push(names[i].clone());
        } else {
            if !str_eq(names[i].as_str(), names[i - 1].as_str()) {
                kept.push(names[i].clone());
            }
        }
        i += 1;
    }
    assert(texts(names@).take(names@.len() as int) =~= texts(names@));
    kept
}

/// Parts the names that were asked to be removed into those that the store
/// holds and those that it does not.
pub fn known_servers(config: &Config, names: &Vec<String>) -> (r: (Vec<String>, Vec<String>))
    ensures
        texts(r.0@) == known(config@, texts(names@)),
        texts(r.1@) == unknown(config@, texts(names@)),
{
    let mut found: Vec<String> = Vec::new();
    let mut missing: Vec<String> = Vec::new();
    let mut i: usize = 0;
    while i < names.len()
        invariant
            i <= names@.len(),
            texts(found@) == known(config@, texts(names@).take(i as int)),
            texts(missing@) == unknown(config@, texts(names@).take(i as int)),
        decreases names@.len() - i,
    {
        let ghost now = texts(names@).take(i + 1);
        assert(now.drop_last() =~= texts(names@).take(i as int));
        match position(&config.servers, names[i].as_str()) {
            Some(_) => {
                found.push(names[i].clone());
            },
            None => {
                missing.push(names[i].clone());
            },
        }
        i += 1;
    }
    assert(texts(names@).take(names@.len() as int) =~= texts(names@));
    (found, missing)
}

/// The line that tells that the store holds no profile of a name.
pub fn not_found_message(name: &str) -> (r: Message)
    ensures
        r@ == warning("😿 No server <"@ + name@ + "> found."@),
{
    Message { tone: Tone::Warning, text: wrap("😿 No server <", name, "> found.") }
}

/// The question asked before profiles are removed.
pub open spec fn removal_question(count: nat) -> Seq<char> {
    if count > 1 {
        "Are you sure you want to remove these servers?"@
    } else {
        "Are you sure you want to remove this server?"@
    }
}

/// The question asked before `count` profiles are removed.
pub fn removal_prompt(count: usize) -> (r: String)
    ensures
        r@ == removal_question(count as nat),
{
    if count > 1 {
        "Are you sure you want to remove these servers?".to_owned()
    } else {
        "Are you sure you want to remove this server?".to_owned()
    }
}

/// The store without the profiles whose name is among `names`; the others
/// keep their order.
pub open spec fn without(store: Seq<ServerView>, names: Seq<Seq<char>>) -> Seq<ServerView>
    decreases store.len(),
{
    if store.len() == 0 {
        Seq::empty()
    } else if names.contains(store.last().name) {
        without(store.drop_last(), names)
    } else {
        without(store.drop_last(), names).push(store.last())
    }
}

/// Whether `name` is among `names`.
pub fn listed(names: &Vec<String>, name: &str) -> (r: bool)
    ensures
        r == texts(names@).contains(name@),
{
    let mut i: usize = 0;
    while i < names.len()
        invariant
            i <= names@.len(),
            forall|j: int| 0 <= j < i ==> texts(names@)[j] != name@,
        decreases names@.len() - i,
    {
        if str_eq(names[i].as_str(), name) {
            assert(texts(names@)[i as int] == name@);
            return true;
        }
        i += 1;
    }
    false
}

/// Removes every profile whose name is among `names`.
pub fn remove_server(config: &mut Config, names: &Vec<String>)
    ensures
        final(config)@ == without(old(config)@, texts(names@)),
{
    let ghost store = config@;
    let mut kept: Vec<Server> = Vec::new();
    let mut i: usize = 0;
    while i < config.servers.len()
        invariant
            i <= config.servers@.len(),
            config@ == store,
            profiles(kept@) == without(store.take(i as int), texts(names@)),
        decreases config.servers@.len() - i,
    {
        let ghost now = store.take(i + 1);
        assert(now.drop_last() =~= store.take(i as int));
        if !listed(names, config.servers[i].name.as_str()) {
            kept.push(config.servers[i].clone());
        }
        i += 1;
    }
    assert(store.take(store.len() as int) =~= store);
    config.servers = kept;
}

/// The line that tells which profiles were removed.
pub fn removed_message(names: &Vec<String>) -> (r: Message)
    ensures
        r@ == good("😺 Server "@ + joined(texts(names@), ", "@) + " removed."@),
{
    let list = join(names, ", ");
    Message { tone: Tone::Good, text: wrap("😺 Server ", list.as_str(), " removed.") }
}

/// Adds a profile at the end of the store.
pub fn add_server(config: &mut Config, server: Server)
    ensures
        final(config)@ == old(config)@.push(server@),
{
    config.servers.push(server);
}

/// The line that tells that a profile was added.
pub fn added_message(name: &str) -> (r: Message)
    ensures
        r@ == good("😺 Server "@ + name@ + " added."@),
{
    Message { tone: Tone::Good, text: wrap("😺 Server ", name, " added.") }
}

/// The store after the first profile named `name` was replaced; the store
/// itself where it holds none.
pub open spec fn replaced(store: Seq<ServerView>, name: Seq<char>, server: ServerView) -> Seq<
    ServerView,
> {
    if has_named(store, name) {
        store.update(choose|i: int| first_named(store, name, i), server)
    } else {
        store
    }
}

/// Replaces the first profile named `name` by `server` and tells whether the
/// store held one.
pub fn edit_server(config: &mut Config, name: &str, server: Server) -> (changed: bool)
    ensures
        changed == has_named(old(config)@, name@),
        final(config)@ == replaced(old(config)@, name@, server@),
{
    match position(&config.servers, name) {
        Some(i) => {
            let ghost store = config@;
            proof {
                let k = choose|k: int| first_named(store, name@, k);
            }
            config.servers.set(i, server);
            true
        },
        None => false,
    }
}

/// The line that tells that a profile was replaced.
pub fn updated_message(name: &str) -> (r: Message)
    ensures
        r@ == good("😺 Server "@ + name@ + " updated."@),
{
    Message { tone: Tone::Good, text: wrap("😺 Server ", name, " updated.") }
}

/// A profile after the profiles named `from` were renamed to `to`.
pub open spec fn renamed_one(server: ServerView, from: Seq<char>, to: Seq<char>) -> ServerView {
    if server.name == from {
        ServerView { name: to, ..server }
    } else {
        server
    }
}

/// The store after the profiles named `from` were renamed to `to`.
pub open spec fn renamed(store: Seq<ServerView>, from: Seq<char>, to: Seq<char>) -> Seq<ServerView> {
    store.map_values(|s: ServerView| renamed_one(s, from, to))
}

/// Renames every profile named `from` to `to`, and tells whether the two
/// names differ. With equal names the store is left alone.
pub fn rename_server(config: &mut Config, from: &str, to: &str) -> (changed: bool)
    ensures
        changed == (from@ != to@),
        final(config)@ == renamed(old(config)@, from@, to@),
{
    let ghost store = config@;
    if str_eq(from, to) {
        return false;
    }
    let mut i: usize = 0;
    while i < config.servers.len()
        invariant
            i <= config.servers@.len(),
            config@.len() == store.len(),
            forall|j: int| 0 <= j < i ==> #[trigger] config@[j] == renamed_one(store[j], from@, to@),
            forall|j: int| i <= j < store.len() ==> #[trigger] config@[j] == store[j],
        decreases config.servers@.len() - i,
    {
        let ghost held = config@;
        assert(held[i as int] == config.servers@[i as int]@);
        if str_eq(config.servers[i].name.as_str(), from) {
            let mut server = config.servers[i].clone();
            server.name = to.to_owned();
            config.servers.set(i, server);
            assert(config@ =~= held.update(i as int, server@));
        }
        i += 1;
    }
    true
}

/// The line that tells that a profile was renamed.
pub fn renamed_message(from: &str, to: &str) -> (r: Message)
    ensures
        r@ == good("😺 Server "@ + from@ + " renamed to "@ + to@ + "."@),
{
    let mut text = wrap("😺 Server ", from, " renamed to ");
    text.append(to);
    text.append(".");
    Message { tone: Tone::Good, text }
}

/// The line that tells that the store is empty.
pub fn no_servers_message() -> (r: Message)
    ensures
        r@ == warning("😿 No servers found."@),
{
    Message { tone: Tone::Warning, text: "😿 No servers found.".to_owned() }
}

/// The line that tells that a profile keeps its name.
pub fn unchanged_name_message() -> (r: Message)
    ensures
        r@ == warning("😺 Name not changed."@),
{
    Message { tone: Tone::Warning, text: "😺 Name not changed.".to_owned() }
}

/// A profile after the profiles named `name` were marked as the current one.
pub open spec fn marked_one(server: ServerView, name: Seq<char>) -> ServerView {
    ServerView {
        current: if server.name == name {
            Some(true)
        } else {
            None
        },
        ..server
    }
}

/// The store after `chosen` was connected to: where `chosen` is not marked
/// as the current profile, the profiles of its name are marked and every
/// other mark is taken away; where it is, nothing changes.
pub open spec fn marked(store: Seq<ServerView>, chosen: ServerView) -> Seq<ServerView> {
    if chosen.current == Some(true) {
        store
    } else {
        store.map_values(|s: ServerView| marked_one(s, chosen.name))
    }
}

/// Marks the profile that is connected to as the current one, and tells
/// whether the store has to be saved.
pub fn mark_current(config: &mut Config, chosen: &Server) -> (changed: bool)
    ensures
        changed == (chosen@.current != Some(true)),
        final(config)@ == marked(old(config)@, chosen@),
{
    let ghost store = config@;
    match chosen.current {
        Some(true) => {
            return false;
        },
        _ => {},
    }
    let mut i: usize = 0;
    while i < config.servers.len()
        invariant
            i <= config.servers@.len(),
            config@.len() == store.len(),
            forall|j: int| 0 <= j < i ==> #[trigger] config@[j] == marked_one(store[j], chosen@.name),
            forall|j: int| i <= j < store.len() ==> #[trigger] config@[j] == store[j],
        decreases config.servers@.len() - i,
    {
        let ghost held = config@;
        assert(held[i as int] == config.servers@[i as int]@);
        let mut server = config.servers[i].clone();
        if str_eq(server.name.as_str(), chosen.name.as_str()) {
            server.current = Some(true);
        } else {
            server.current = None;
        }
        config.servers.set(i, server);
        assert(config@ =~= held.update(i as int, server@));
        i += 1;
    }
    true
}

/// Whether no two profiles of the store have the same name.
pub open spec fn unique_names(store: Seq<ServerView>) -> bool {
    forall|i: int, j: int|
        0 <= i < j < store.len() ==> (#[trigger] store[i]).name != (#[trigger] store[j]).name
}

/// An import never gives a name to two profiles: a store whose names are
/// unique has unique names after it, whatever is imported. Nothing that the
/// store held is changed or moved.
pub proof fn law_import_keeps_names_unique(store: Seq<ServerView>, incoming: Seq<ServerView>)
    requires
        unique_names(store),
    ensures
        unique_names(merged(store, incoming)),
        merged(store, incoming).len() >= store.len(),
        merged(store, incoming).take(store.len() as int) == store,
    decreases incoming.len(),
{
    if incoming.len() > 0 {
        let before = merged(store, incoming.drop_last());
        law_import_keeps_names_unique(store, incoming.drop_last());
        if !has_named(before, incoming.last().name) {
            let after = before.push(incoming.last());
            assert forall|i: int, j: int| 0 <= i < j < after.len() implies (#[trigger] after[i]).name
                != (#[trigger] after[j]).name by {
                if j == before.len() {
                    assert(before[i].name != incoming.last().name);
                } else {
                    assert(before[i].name != before[j].name);
                }
            }
            assert(after.take(store.len() as int) =~= before.take(store.len() as int));
        }
    } else {
        assert(store.take(store.len() as int) =~= store);
    }
}

/// Every profile that is left after a removal was in the store before, and
/// the profiles that are left keep their order.
proof fn lemma_without_is_part(store: Seq<ServerView>, names: Seq<Seq<char>>)
    ensures
        without(store, names).len() <= store.len(),
        forall|k: int|
            0 <= k < without(store, names).len() ==> exists|i: int|
                k <= i < store.len() && store[i] == #[trigger] without(store, names)[k],
    decreases store.len(),
{
    if store.len() > 0 {
        let rest = store.drop_last();
        lemma_without_is_part(rest, names);
        let left = without(store, names);
        assert forall|k: int| 0 <= k < left.len() implies exists|i: int|
            k <= i < store.len() && store[i] == #[trigger] left[k] by {
            if k < without(rest, names).len() {
                let i = choose|i: int| k <= i < rest.len() && rest[i] == without(rest, names)[k];
                assert(store[i] == left[k]);
            } else {
                assert(store[store.len() - 1] == left[k]);
            }
        }
    }
}

/// A removal leaves no profile of a removed name, leaves every other profile,
/// and keeps names unique.
pub proof fn law_removal_is_exact(store: Seq<ServerView>, names: Seq<Seq<char>>)
    ensures
        forall|k: int|
            0 <= k < without(store, names).len() ==> !names.contains(
                (#[trigger] without(store, names)[k]).name,
            ),
        forall|i: int|
            0 <= i < store.len() && !names.contains((#[trigger] store[i]).name) ==> without(
                store,
                names,
            ).contains(store[i]),
        unique_names(store) ==> unique_names(without(store, names)),
    decreases store.len(),
{
    if store.len() > 0 {
        let rest = store.drop_last();
        let last = store.last();
        let left = without(store, names);
        let left_rest = without(rest, names);
        law_removal_is_exact(rest, names);
        lemma_without_is_part(rest, names);
        assert forall|i: int|
            0 <= i < store.len() && !names.contains((#[trigger] store[i]).name) implies left.contains(
            store[i],
        ) by {
            if i < rest.len() {
                assert(rest[i] == store[i]);
                assert(left_rest.contains(rest[i]));
                let k = choose|k: int| 0 <= k < left_rest.len() && left_rest[k] == rest[i];
                assert(left[k] == store[i]);
            } else {
                assert(left[left.len() - 1] == store[i]);
            }
        }
        if unique_names(store) {
            assert(unique_names(rest)) by {
                assert forall|i: int, j: int| 0 <= i < j < rest.len() implies (
                #[trigger] rest[i]).name != (#[trigger] rest[j]).name by {
                    assert(store[i].name != store[j].name);
                }
            }
            if !names.contains(last.name) {
                assert forall|i: int, j: int| 0 <= i < j < left.len() implies (
                #[trigger] left[i]).name != (#[trigger] left[j]).name by {
                    if j == left_rest.len() {
                        let m = choose|m: int| i <= m < rest.len() && rest[m] == left_rest[i];
                        assert(store[m].name != store[store.len() - 1].name);
                    } else {
                        assert(left_rest[i].name != left_rest[j].name);
                    }
                }
            }
        }
    }
}

/// Renaming to a name that no profile has keeps names unique.
pub proof fn law_rename_keeps_names_unique(store: Seq<ServerView>, from: Seq<char>, to: Seq<char>)
    requires
        unique_names(store),
        !has_named(store, to),
    ensures
        unique_names(renamed(store, from, to)),
{
    let after = renamed(store, from, to);
    assert forall|i: int, j: int| 0 <= i < j < after.len() implies (#[trigger] after[i]).name != (
    #[trigger] after[j]).name by {
        assert(store[i].name != store[j].name);
        assert(store[i].name != to);
        assert(store[j].name != to);
    }
}

/// Adding a profile whose name no profile has keeps names unique.
pub proof fn law_add_keeps_names_unique(store: Seq<ServerView>, server: ServerView)
    requires
        unique_names(store),
        !has_named(store, server.name),
    ensures
        unique_names(store.push(server)),
{
    let after = store.push(server);
    assert forall|i: int, j: int| 0 <= i < j < after.len() implies (#[trigger] after[i]).name != (
    #[trigger] after[j]).name by {
        if j == store.len() {
            assert(store[i].name != server.name);
        } else {
            assert(store[i].name != store[j].name);
        }
    }
}

/// Replacing a profile by one that keeps its name, or has a name that no
/// profile has, keeps names unique.
pub proof fn law_edit_keeps_names_unique(store: Seq<ServerView>, name: Seq<char>, server: ServerView)
    requires
        unique_names(store),
        server.name == name || !has_named(store, server.name),
    ensures
        unique_names(replaced(store, name, server)),
{
    if has_named(store, name) {
        let w = choose|w: int| 0 <= w < store.len() && (#[trigger] store[w]).name == name;
        assert forall|j: int| 0 <= j < w implies (#[trigger] store[j]).name != name by {
            assert(store[j].name != store[w].name);
        }
        assert(first_named(store, name, w));
        let k = choose|k: int| first_named(store, name, k);
        let after = store.update(k, server);
        assert forall|i: int, j: int| 0 <= i < j < after.len() implies (#[trigger] after[i]).name != (
        #[trigger] after[j]).name by {
            assert(store[i].name != store[j].name);
            if i == k {
                assert(store[j].name != server.name);
            } else if j == k {
                assert(store[i].name != server.name);
            }
        }
    }
}

/// After a profile was connected to, it is the one profile that is marked
/// as the current one, where the names of the store are unique: at most one
/// profile is marked, and a profile is marked exactly if it has the name of
/// the one connected to.
pub proof fn law_one_current_profile(store: Seq<ServerView>, chosen: ServerView)
    requires
        unique_names(store),
        chosen.current != Some(true),
    ensures
        forall|i: int|
            0 <= i < store.len() ==> ((#[trigger] marked(store, chosen)[i]).current == Some(true)
                <==> store[i].name == chosen.name),
        forall|i: int, j: int|
            0 <= i < store.len() && 0 <= j < store.len() && (#[trigger] marked(
                store,
                chosen,
            )[i]).current == Some(true) && (#[trigger] marked(store, chosen)[j]).current == Some(
                true,
            ) ==> i == j,
{
    let after = marked(store, chosen);
    assert forall|i: int, j: int|
        0 <= i < store.len() && 0 <= j < store.len() && (#[trigger] after[i]).current == Some(true)
            && (#[trigger] after[j]).current == Some(true) implies i == j by {
        if i < j {
            assert(store[i].name != store[j].name);
        } else if j < i {
            assert(store[j].name != store[i].name);
        }
    }
}

/// Whether every profile of the store has a port from 1 to 65535.
pub open spec fn ports_in_range(store: Seq<ServerView>) -> bool {
    forall|i: int| 0 <= i < store.len() ==> valid_port((#[trigger] store[i]).port)
}

proof fn lemma_import_keeps_ports(store: Seq<ServerView>, incoming: Seq<ServerView>)
    requires
        ports_in_range(store),
        ports_in_range(incoming),
    ensures
        ports_in_range(merged(store, incoming)),
    decreases incoming.len(),
{
    if incoming.len() > 0 {
        let rest = incoming.drop_last();
        assert forall|i: int| 0 <= i < rest.len() implies valid_port((#[trigger] rest[i]).port) by {
            assert(valid_port(incoming[i].port));
        }
        lemma_import_keeps_ports(store, rest);
        assert(valid_port(incoming[incoming.len() - 1].port));
    }
}

proof fn lemma_removal_keeps_ports(store: Seq<ServerView>, names: Seq<Seq<char>>)
    requires
        ports_in_range(store),
    ensures
        ports_in_range(without(store, names)),
    decreases store.len(),
{
    if store.len() > 0 {
        let rest = store.drop_last();
        assert forall|i: int| 0 <= i < rest.len() implies valid_port((#[trigger] rest[i]).port) by {
            assert(valid_port(store[i].port));
        }
        lemma_removal_keeps_ports(rest, names);
        assert(valid_port(store[store.len() - 1].port));
    }
}

/// A store that holds a profile of a name holds a first one.
proof fn lemma_first_named_exists(store: Seq<ServerView>, name: Seq<char>, w: int)
    requires
        0 <= w < store.len(),
        store[w].name == name,
    ensures
        exists|i: int| first_named(store, name, i),
    decreases w,
{
    if exists|j: int| 0 <= j < w && (#[trigger] store[j]).name == name {
        let j = choose|j: int| 0 <= j < w && (#[trigger] store[j]).name == name;
        lemma_first_named_exists(store, name, j);
    } else {
        assert(first_named(store, name, w));
    }
}

/// No edit of the store takes a port out of the range from 1 to 65535: a
/// store whose ports are in range has them in range after an import of
/// profiles whose ports are, after a removal, after a profile whose port is
/// in range was added or put in the place of another, after a renaming and
/// after a profile was marked as the current one.
pub proof fn law_edits_keep_ports_in_range(
    store: Seq<ServerView>,
    incoming: Seq<ServerView>,
    names: Seq<Seq<char>>,
    server: ServerView,
    from: Seq<char>,
    to: Seq<char>,
    chosen: ServerView,
)
    requires
        ports_in_range(store),
        ports_in_range(incoming),
        valid_port(server.port),
    ensures
        ports_in_range(merged(store, incoming)),
        ports_in_range(without(store, names)),
        ports_in_range(store.push(server)),
        ports_in_range(replaced(store, from, server)),
        ports_in_range(renamed(store, from, to)),
        ports_in_range(marked(store, chosen)),
{
    lemma_import_keeps_ports(store, incoming);
    lemma_removal_keeps_ports(store, names);
    assert forall|i: int| 0 <= i < store.len() implies valid_port(
        (#[trigger] renamed(store, from, to)[i]).port,
    ) && valid_port((#[trigger] marked(store, chosen)[i]).port) by {
        assert(valid_port(store[i].port));
    }
    let pushed = store.push(server);
    assert forall|i: int| 0 <= i < pushed.len() implies valid_port((#[trigger] pushed[i]).port) by {
        if i < store.len() {
            assert(valid_port(store[i].port));
        }
    }
    let put = replaced(store, from, server);
    if has_named(store, from) {
        let w = choose|w: int| 0 <= w < store.len() && (#[trigger] store[w]).name == from;
        lemma_first_named_exists(store, from, w);
        let k = choose|k: int| first_named(store, from, k);
        assert(put == store.update(k, server));
    }
    assert forall|i: int| 0 <= i < put.len() implies valid_port((#[trigger] put[i]).port) by {
        assert(valid_port(store[i].port));
    }
}

} // verus!
