use ssher::model::{
    check_port, display_option_bool, display_password, Config, HostEntry, Server, DEFAULT_PORT,
};

#[test]
fn a_new_profile_is_named_after_its_host() {
    let s = Server::new("example.org".to_string());
    assert_eq!(s.name, "example.org");
    assert_eq!(s.host, "example.org");
    assert_eq!(s.port, 22);
    assert_eq!(s.port, DEFAULT_PORT);
    assert_eq!(s.user, "root");
    assert_eq!(s.password, None);
    assert_eq!(s.identity_file, Some("~/.ssh/id_rsa".to_string()));
    assert_eq!(s.current, None);
}

#[test]
fn a_copy_of_a_profile_has_every_field() {
    let mut s = Server::new("h".to_string());
    s.name = "n".to_string();
    s.port = 2200;
    s.user = "u".to_string();
    s.password = Some("cA==".to_string());
    s.identity_file = None;
    s.current = Some(true);
    let c = s.clone();
    assert_eq!(
        (c.name, c.host, c.port, c.user, c.password, c.identity_file, c.current),
        (
            "n".to_string(),
            "h".to_string(),
            2200,
            "u".to_string(),
            Some("cA==".to_string()),
            None,
            Some(true)
        )
    );
}

#[test]
fn passwords_are_masked() {
    assert_eq!(display_password(&None), "");
    assert_eq!(display_password(&Some("secret".to_string())), "******");
    assert_eq!(display_password(&Some(String::new())), "******");
}

#[test]
fn only_the_current_profile_is_marked() {
    assert_eq!(display_option_bool(&Some(true)), "\u{2732}");
    assert_eq!(display_option_bool(&Some(false)), " ");
    assert_eq!(display_option_bool(&None), " ");
}

#[test]
fn a_store_lists_its_profiles_in_order() {
    let config = Config { servers: vec![Server::new("a".to_string()), Server::new("b".to_string())] };
    assert_eq!(config.servers.len(), 2);
    assert_eq!(config.servers[1].name, "b");
}

#[test]
fn a_host_entry_becomes_a_profile() {
    let entry = HostEntry {
        name: "n".to_string(),
        host: "h".to_string(),
        port: None,
        user: "u".to_string(),
        identity_file: None,
    };
    let s = Server::from(entry);
    assert_eq!(
        (s.name, s.host, s.port, s.user, s.password, s.identity_file, s.current),
        ("n".to_string(), "h".to_string(), 22, "u".to_string(), None, None, None)
    );
    let entry = HostEntry {
        name: "n".to_string(),
        host: "h".to_string(),
        port: Some(2200),
        user: "u".to_string(),
        identity_file: Some("/k".to_string()),
    };
    let s: Server = entry.into();
    assert_eq!((s.port, s.identity_file), (2200, Some("/k".to_string())));
}

#[test]
fn a_port_is_a_number_above_zero() {
    assert!(!check_port(0));
    assert!(check_port(1));
    assert!(check_port(22));
    assert!(check_port(65535));
}

#[test]
fn a_host_entry_with_port_zero_gets_the_default_port() {
    let entry = HostEntry {
        name: "n".to_string(),
        host: "h".to_string(),
        port: Some(0),
        user: "u".to_string(),
        identity_file: None,
    };
    assert_eq!(Server::from(entry).port, 22);
    let entry = HostEntry {
        name: "n".to_string(),
        host: "h".to_string(),
        port: Some(1),
        user: "u".to_string(),
        identity_file: None,
    };
    assert_eq!(Server::from(entry).port, 1);
}
