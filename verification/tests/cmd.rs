use ssher::cmd::{
    add_server, dedup_names, no_servers_message, unchanged_name_message, Message, Tone, added_message, edit_server, get_server_from, import_message, import_servers,
    known_servers, listed, mark_current, not_found_message, position, removal_prompt,
    remove_server, removed_message, rename_server, renamed_message, skipped_message,
    updated_message, version,
};
use ssher::model::{Config, Server};

fn named(name: &str, host: &str) -> Server {
    let mut s = Server::new(host.to_string());
    s.name = name.to_string();
    s
}

fn store(names: &[&str]) -> Config {
    Config { servers: names.iter().map(|n| named(n, &format!("{}.example", n))).collect() }
}

fn names_of(config: &Config) -> Vec<String> {
    config.servers.iter().map(|s| s.name.clone()).collect()
}

fn strings(v: &[&str]) -> Vec<String> {
    v.iter().map(|s| s.to_string()).collect()
}

fn good(text: &str) -> Message {
    Message { tone: Tone::Good, text: text.to_string() }
}

fn warning(text: &str) -> Message {
    Message { tone: Tone::Warning, text: text.to_string() }
}

#[test]
fn the_version_line_names_the_version() {
    assert_eq!(version("1.2.3"), good("\u{1f638} Version: v1.2.3"));
}

#[test]
fn a_profile_is_found_by_its_name() {
    let mut config = store(&["a", "b", "c"]);
    config.servers.push(named("b", "second.example"));
    assert_eq!(position(&config.servers, "b"), Some(1));
    assert_eq!(position(&config.servers, "c"), Some(2));
    assert_eq!(position(&config.servers, "d"), None);
    assert_eq!(position(&config.servers, ""), None);
    assert_eq!(get_server_from(&config, "b").map(|s| s.host), Some("b.example".to_string()));
    assert!(get_server_from(&config, "B").is_none());
    assert!(get_server_from(&Config { servers: vec![] }, "a").is_none());
}

#[test]
fn an_import_passes_over_names_that_exist() {
    let mut config = store(&["a", "b"]);
    let report = import_servers(
        &mut config,
        vec![named("c", "1"), named("a", "2"), named("c", "3"), named("d", "4")],
    );
    assert_eq!(names_of(&config), strings(&["a", "b", "c", "d"]));
    assert_eq!(config.servers[0].host, "a.example");
    assert_eq!(config.servers[2].host, "1");
    assert_eq!(report.imported, 2);
    assert_eq!(report.skipped, strings(&["a", "c"]));

    let report = import_servers(&mut config, vec![]);
    assert_eq!((report.imported, report.skipped.len()), (0, 0));
    assert_eq!(config.servers.len(), 4);
}

#[test]
fn the_import_line_depends_on_what_was_done() {
    assert_eq!(import_message(0, 0), warning("\u{1f63f} No new servers found."));
    assert_eq!(import_message(3, 0), warning("\u{1f63f} No servers imported."));
    assert_eq!(import_message(3, 2), good("\u{1f63a} 2 servers imported from .ssh/config done."));
    assert_eq!(
        import_message(120, 105),
        good("\u{1f63a} 105 servers imported from .ssh/config done.")
    );
    assert_eq!(skipped_message("a"), warning("\u{1f63f} Server <a> already exists, skipping."));
}

#[test]
fn names_to_remove_are_parted_by_whether_they_exist() {
    let config = store(&["a", "b", "c"]);
    let (found, missing) = known_servers(&config, &strings(&["c", "x", "a", "y", "c"]));
    assert_eq!(found, strings(&["c", "a", "c"]));
    assert_eq!(missing, strings(&["x", "y"]));
    assert_eq!(not_found_message("x"), warning("\u{1f63f} No server <x> found."));
}

#[test]
fn the_question_before_a_removal_counts() {
    assert_eq!(removal_prompt(1), "Are you sure you want to remove this server?");
    assert_eq!(removal_prompt(0), "Are you sure you want to remove this server?");
    assert_eq!(removal_prompt(2), "Are you sure you want to remove these servers?");
}

#[test]
fn removing_takes_every_profile_of_the_names() {
    let mut config = store(&["a", "b", "c", "b", "d"]);
    remove_server(&mut config, &strings(&["b", "d", "zz"]));
    assert_eq!(names_of(&config), strings(&["a", "c"]));
    remove_server(&mut config, &vec![]);
    assert_eq!(names_of(&config), strings(&["a", "c"]));
    assert!(listed(&strings(&["a", "b"]), "b"));
    assert!(!listed(&strings(&["a", "b"]), "c"));
    assert!(!listed(&vec![], ""));
    assert_eq!(removed_message(&strings(&["a"])), good("\u{1f63a} Server a removed."));
    assert_eq!(
        removed_message(&strings(&["a", "b", "c"])),
        good("\u{1f63a} Server a, b, c removed.")
    );
}

#[test]
fn adding_appends() {
    let mut config = store(&["a"]);
    add_server(&mut config, named("b", "h"));
    add_server(&mut config, named("a", "again"));
    assert_eq!(names_of(&config), strings(&["a", "b", "a"]));
    assert_eq!(added_message("b"), good("\u{1f63a} Server b added."));
}

#[test]
fn editing_replaces_the_first_of_the_name() {
    let mut config = store(&["a", "b", "b"]);
    assert!(edit_server(&mut config, "b", named("n", "new.example")));
    assert_eq!(names_of(&config), strings(&["a", "n", "b"]));
    assert_eq!(config.servers[1].host, "new.example");
    assert!(!edit_server(&mut config, "zz", named("q", "q")));
    assert_eq!(names_of(&config), strings(&["a", "n", "b"]));
    assert_eq!(updated_message("b"), good("\u{1f63a} Server b updated."));
}

#[test]
fn renaming_changes_the_name_alone() {
    let mut config = store(&["a", "b", "a"]);
    assert!(rename_server(&mut config, "a", "z"));
    assert_eq!(names_of(&config), strings(&["z", "b", "z"]));
    assert_eq!(config.servers[0].host, "a.example");
    assert!(!rename_server(&mut config, "b", "b"));
    assert!(rename_server(&mut config, "none", "other"));
    assert_eq!(names_of(&config), strings(&["z", "b", "z"]));
    assert_eq!(renamed_message("a", "z"), good("\u{1f63a} Server a renamed to z."));
    assert_eq!(no_servers_message(), warning("\u{1f63f} No servers found."));
    assert_eq!(unchanged_name_message(), warning("\u{1f63a} Name not changed."));
}

#[test]
fn connecting_marks_the_profile_and_no_other() {
    let mut config = store(&["a", "b", "c"]);
    config.servers[0].current = Some(true);
    config.servers[2].current = Some(false);
    let chosen = config.servers[1].clone();
    assert!(mark_current(&mut config, &chosen));
    let marks: Vec<Option<bool>> = config.servers.iter().map(|s| s.current).collect();
    assert_eq!(marks, vec![None, Some(true), None]);

    let chosen = config.servers[1].clone();
    assert!(!mark_current(&mut config, &chosen));
    let marks: Vec<Option<bool>> = config.servers.iter().map(|s| s.current).collect();
    assert_eq!(marks, vec![None, Some(true), None]);

    let mut chosen = config.servers[2].clone();
    chosen.current = Some(false);
    assert!(mark_current(&mut config, &chosen));
    let marks: Vec<Option<bool>> = config.servers.iter().map(|s| s.current).collect();
    assert_eq!(marks, vec![None, None, Some(true)]);
}

#[test]
fn names_that_repeat_the_one_before_are_dropped() {
    assert_eq!(dedup_names(&vec![]), Vec::<String>::new());
    assert_eq!(dedup_names(&strings(&["a"])), strings(&["a"]));
    assert_eq!(dedup_names(&strings(&["a", "a", "b", "a", "a", "a", "c"])), strings(&["a", "b", "a", "c"]));
    let mut same = strings(&["x", "y", "y", "x", "x"]);
    let ours = dedup_names(&same);
    same.dedup();
    assert_eq!(ours, same);
}
