use ssher::model::{Config, Server};
use ssher::prompt::{
    add_server_form_prompt, blank_server, check_name, default_selection,
    edit_server_form_prompt, invalid_port_message, name_exists_message, selection_items, selection_label,
    server_form_prompt, servers_select_prompt, widest_name, yesno_select_prompt, FormAnswers,
    FormError, NameCheck,
};

fn server(name: &str, user: &str, host: &str, port: u16, current: Option<bool>) -> Server {
    let mut s = Server::new(host.to_string());
    s.name = name.to_string();
    s.user = user.to_string();
    s.port = port;
    s.current = current;
    s
}

fn answers(name: &str, host: &str, user: &str, password: &str, identity_file: &str) -> FormAnswers {
    FormAnswers {
        name: name.to_string(),
        host: host.to_string(),
        port: 2222,
        user: user.to_string(),
        password: password.to_string(),
        identity_file: identity_file.to_string(),
    }
}

#[test]
fn labels_are_padded_to_the_widest_name() {
    let servers = vec![
        server("a", "root", "10.0.0.1", 22, None),
        server("longer", "me", "example.org", 2222, Some(true)),
        server("mid", "u", "h", 65535, Some(false)),
    ];
    assert_eq!(widest_name(&servers), 6);
    assert_eq!(
        selection_items(&servers),
        vec![
            "  a     \t(root@10.0.0.1:22)".to_string(),
            "\u{2732} longer\t(me@example.org:2222)".to_string(),
            "  mid   \t(u@h:65535)".to_string(),
            "\u{2717} Exit".to_string(),
        ]
    );
    assert_eq!(selection_items(&vec![]), vec!["\u{2717} Exit".to_string()]);
}

#[test]
fn the_width_counts_bytes_and_the_padding_characters() {
    // two characters, four bytes
    let servers = vec![server("\u{e9}\u{e9}", "u", "h", 1, None), server("abc", "u", "h", 7, None)];
    assert_eq!(widest_name(&servers), 4);
    assert_eq!(selection_label(&servers[0], 4), "  \u{e9}\u{e9}  \t(u@h:1)");
    assert_eq!(selection_label(&servers[1], 4), "  abc \t(u@h:7)");
    assert_eq!(selection_label(&servers[1], 0), "  abc\t(u@h:7)");
}

#[test]
fn the_current_profile_is_offered_first() {
    let mut servers = vec![
        server("a", "u", "h", 1, None),
        server("b", "u", "h", 1, Some(false)),
        server("c", "u", "h", 1, Some(true)),
        server("d", "u", "h", 1, Some(true)),
    ];
    assert_eq!(default_selection(&servers), 2);
    servers[2].current = None;
    assert_eq!(default_selection(&servers), 3);
    servers[3].current = None;
    assert_eq!(default_selection(&servers), 0);
    assert_eq!(default_selection(&vec![]), 0);
}

#[test]
fn a_selection_stands_for_its_profile() {
    let servers = vec![server("a", "u", "h", 1, None), server("b", "u", "h", 1, None)];
    assert_eq!(servers_select_prompt(&servers, Some(1)).map(|s| s.name), Some("b".to_string()));
    assert_eq!(servers_select_prompt(&servers, Some(0)).map(|s| s.name), Some("a".to_string()));
    assert!(servers_select_prompt(&servers, Some(2)).is_none());
    assert!(servers_select_prompt(&servers, Some(7)).is_none());
    assert!(servers_select_prompt(&servers, None).is_none());
}

#[test]
fn a_typed_name_is_checked_against_the_store() {
    let config = Config { servers: vec![server("a", "u", "h", 1, None), server("b", "u", "h", 1, None)] };
    assert_eq!(check_name(&config, "a", "a"), NameCheck::Unchanged);
    assert_eq!(check_name(&config, "a", "b"), NameCheck::Taken);
    assert_eq!(check_name(&config, "a", "c"), NameCheck::Free);
    assert_eq!(check_name(&config, "", "a"), NameCheck::Taken);
    assert_eq!(check_name(&config, "zz", "zz"), NameCheck::Unchanged);
    assert_eq!(name_exists_message("b"), "\u{1f63e} Name b already exists.");
}

#[test]
fn a_form_makes_a_profile() {
    let config = Config { servers: vec![server("a", "u", "h", 1, None)] };
    let made = add_server_form_prompt(&config, answers("n", "example.org", "me", "hunter2", "~/.ssh/k"))
        .unwrap();
    assert_eq!(made.name, "n");
    assert_eq!(made.host, "example.org");
    assert_eq!(made.port, 2222);
    assert_eq!(made.user, "me");
    assert_eq!(made.password, Some("aHVudGVyMg==".to_string()));
    assert_eq!(made.identity_file, Some("~/.ssh/k".to_string()));
    assert_eq!(made.current, None);

    let made = add_server_form_prompt(&config, answers("n", "h", "me", "", "")).unwrap();
    assert_eq!(made.password, None);
    assert_eq!(made.identity_file, None);
}

#[test]
fn each_fault_of_a_form_has_its_error() {
    let config = Config { servers: vec![server("a", "u", "h", 1, None), server("b", "u", "h", 1, None)] };
    let err = |a: FormAnswers| add_server_form_prompt(&config, a).unwrap_err();
    assert_eq!(err(answers("", "", "", "", "")), FormError::EmptyName);
    assert_eq!(err(answers("a", "", "", "", "")), FormError::NameExists);
    assert_eq!(err(answers("n", "", "", "", "")), FormError::EmptyHost);
    assert_eq!(err(answers("n", "h", "", "", "")), FormError::EmptyUser);
    let mut no_port = answers("n", "h", "", "", "");
    no_port.port = 0;
    assert_eq!(err(no_port), FormError::InvalidPort);
    let mut no_port = answers("n", "", "u", "", "");
    no_port.port = 0;
    assert_eq!(err(no_port), FormError::EmptyHost);
    let mut lowest = answers("n", "h", "u", "", "");
    lowest.port = 1;
    assert_eq!(add_server_form_prompt(&config, lowest).unwrap().port, 1);
    let mut highest = answers("n", "h", "u", "", "");
    highest.port = 65535;
    assert_eq!(add_server_form_prompt(&config, highest).unwrap().port, 65535);
    assert_eq!(invalid_port_message(), "\u{1f63e} Port must be a number from 1 to 65535.");

    // an edited profile may keep its name, but not take another's
    let kept = edit_server_form_prompt(&config, &config.servers[0], answers("a", "h2", "u", "", ""));
    assert_eq!(kept.unwrap().host, "h2");
    let taken = edit_server_form_prompt(&config, &config.servers[0], answers("b", "h2", "u", "", ""));
    assert_eq!(taken.unwrap_err(), FormError::NameExists);
    let edited = config.servers[0].clone();
    assert!(server_form_prompt(&edited, &config, answers("c", "h", "u", "", "")).is_ok());
}

#[test]
fn the_form_for_a_new_profile_starts_from_the_defaults() {
    let s = blank_server();
    assert_eq!(s.name, "");
    assert_eq!(s.host, "");
    assert_eq!(s.port, 22);
    assert_eq!(s.user, "root");
    assert_eq!(s.password, None);
    assert_eq!(s.identity_file, Some("~/.ssh/id_rsa".to_string()));
    assert_eq!(s.current, None);
}

#[test]
fn yes_is_the_second_line() {
    assert!(!yesno_select_prompt(0));
    assert!(yesno_select_prompt(1));
    assert!(!yesno_select_prompt(2));
}
