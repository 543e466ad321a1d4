use ssher::common::{server_completer, server_help, servers_len, Candidate};
use ssher::model::{Config, Server};
use ssher::text::{chars_of, contains, decimal_text, join, str_eq};

fn server(name: &str, user: &str, host: &str, port: u16, current: Option<bool>) -> Server {
    let mut s = Server::new(host.to_string());
    s.name = name.to_string();
    s.user = user.to_string();
    s.port = port;
    s.current = current;
    s
}

fn store() -> Config {
    Config {
        servers: vec![
            server("web", "root", "10.0.0.1", 22, Some(true)),
            server("db", "admin", "db.example.org", 2222, None),
            server("cache", "me", "10.0.0.9", 22, Some(false)),
        ],
    }
}

#[test]
fn a_store_that_could_not_be_loaded_counts_as_empty() {
    assert_eq!(servers_len(None), 0);
    assert_eq!(servers_len(Some(&store())), 3);
    assert_eq!(server_completer(None, ""), vec![]);
}

#[test]
fn completion_offers_what_holds_the_typed_text() {
    let config = store();
    let names = |typed: &str| -> Vec<String> {
        server_completer(Some(&config), typed).into_iter().map(|c| c.name).collect()
    };
    assert_eq!(names(""), vec!["web", "db", "cache"]);
    assert_eq!(names("10.0"), vec!["web", "cache"]);
    assert_eq!(names("b"), vec!["web", "db"]);
    assert_eq!(names("example"), vec!["db"]);
    assert_eq!(names("nothing"), Vec::<String>::new());
    assert_eq!(names("WEB"), Vec::<String>::new());
}

#[test]
fn the_help_of_a_candidate_tells_where_it_leads() {
    let config = store();
    assert_eq!(
        server_completer(Some(&config), "e"),
        vec![
            Candidate { name: "web".to_string(), help: "[\u{2732}] root@10.0.0.1:22".to_string() },
            Candidate {
                name: "db".to_string(),
                help: "[ ] admin@db.example.org:2222".to_string()
            },
            Candidate { name: "cache".to_string(), help: "[ ] me@10.0.0.9:22".to_string() },
        ]
    );
    assert_eq!(server_help(&config.servers[2]), "[ ] me@10.0.0.9:22");
}

#[test]
fn numbers_are_written_in_decimal() {
    assert_eq!(decimal_text(0), "0");
    assert_eq!(decimal_text(7), "7");
    assert_eq!(decimal_text(10), "10");
    assert_eq!(decimal_text(65535), "65535");
    assert_eq!(decimal_text(1234567890), "1234567890");
    assert_eq!(decimal_text(u64::MAX), "18446744073709551615");
}

#[test]
fn text_is_searched_and_compared_by_characters() {
    assert!(contains("hello", ""));
    assert!(contains("", ""));
    assert!(!contains("", "a"));
    assert!(contains("hello", "hello"));
    assert!(contains("hello", "llo"));
    assert!(contains("hello", "h"));
    assert!(!contains("hello", "hellos"));
    assert!(!contains("hello", "lol"));
    assert!(contains("aab", "ab"));
    assert!(contains("caf\u{e9}s", "\u{e9}s"));
    assert!(str_eq("", ""));
    assert!(str_eq("a\u{e9}", "a\u{e9}"));
    assert!(!str_eq("a", "b"));
    assert!(!str_eq("a", "ab"));
    assert_eq!(chars_of("a\u{e9}\u{1f63a}"), vec!['a', '\u{e9}', '\u{1f63a}']);
}

#[test]
fn texts_are_joined_with_the_separator_between() {
    assert_eq!(join(&vec![], ", "), "");
    assert_eq!(join(&vec!["a".to_string()], ", "), "a");
    assert_eq!(join(&vec!["a".to_string(), "".to_string(), "c".to_string()], ", "), "a, , c");
}
