use ssher::ssh_config::parse_ssh_config;

#[test]
fn test_parse_ssh_config() {
    let mut text = String::new();
    text.push_str("# SSH Config Example\n");
    text.push_str("Host github.com\n");
    text.push_str("    HostName github.com\n");
    text.push_str("    User git\n");
    text.push_str("    IdentityFile ~/.ssh/github_rsa\n");
    text.push_str("    Port 22\n");
    text.push_str("\n");
    text.push_str("Host example.com\n");
    text.push_str("    HostName example.org\n");
    text.push_str("    User admin\n");
    text.push_str("    Port 2222\n");

    let configs = parse_ssh_config(&text);

    assert_eq!(configs.len(), 2);

    assert_eq!(configs[0].host, "github.com");
    assert_eq!(configs[0].name, "github.com");
    assert_eq!(configs[0].user, "git");
    assert_eq!(configs[0].identity_file, "~/.ssh/github_rsa".to_string().into());
    assert_eq!(configs[0].port, 22);

    assert_eq!(configs[1].host, "example.org");
    assert_eq!(configs[1].name, "example.com");
    assert_eq!(configs[1].user, "admin");
    assert_eq!(configs[1].port, 2222);
    assert_eq!(configs[1].identity_file, "~/.ssh/id_rsa".to_string().into());
}

#[test]
fn test_default_values() {
    let configs = parse_ssh_config("Host myserver\n");

    assert_eq!(configs.len(), 1);

    assert_eq!(configs[0].host, "myserver");
    assert_eq!(configs[0].name, "myserver");
    assert_eq!(configs[0].user, "root");
    assert_eq!(configs[0].port, 22);
    assert_eq!(configs[0].identity_file, "~/.ssh/id_rsa".to_string().into());
}

#[test]
fn test_multiple_hosts() {
    let configs = parse_ssh_config("Host server1 server2 server3\n    User shared\n    Port 2222\n");

    assert_eq!(configs.len(), 1);

    assert_eq!(configs[0].host, "server1 server2 server3");
    assert_eq!(configs[0].user, "shared");
    assert_eq!(configs[0].port, 2222);
}

#[test]
fn empty_text_has_no_profiles() {
    assert_eq!(parse_ssh_config("").len(), 0);
    assert_eq!(parse_ssh_config("\n\n# nothing\n").len(), 0);
}

#[test]
fn settings_before_the_first_host_are_passed_over() {
    let configs = parse_ssh_config("User early\nPort 1\nHost a\n");
    assert_eq!(configs.len(), 1);
    assert_eq!(configs[0].user, "root");
    assert_eq!(configs[0].port, 22);
}

#[test]
fn keywords_match_in_any_case() {
    let configs = parse_ssh_config("HOST a\nhostNAME b\nPORT 2200\nuSeR me\nIDENTITYFILE /k\n");
    assert_eq!(configs.len(), 1);
    assert_eq!(configs[0].name, "a");
    assert_eq!(configs[0].host, "b");
    assert_eq!(configs[0].port, 2200);
    assert_eq!(configs[0].user, "me");
    assert_eq!(configs[0].identity_file, Some("/k".to_string()));
}

#[test]
fn a_port_that_is_no_port_is_passed_over() {
    for bad in [
        "0", "+0", "000", "65536", "abc", "-1", "12x", "+", "1 2", "99999999999999999999",
    ] {
        let configs = parse_ssh_config(&format!("Host a\nPort {}\n", bad));
        assert_eq!(configs[0].port, 22, "{}", bad);
    }
    for (good, port) in [("65535", 65535u16), ("1", 1), ("+22", 22), ("00022", 22)] {
        let configs = parse_ssh_config(&format!("Host a\nPort {}\n", good));
        assert_eq!(configs[0].port, port, "{}", good);
    }
}

#[test]
fn a_bare_host_line_ends_the_profile_and_starts_none() {
    let configs = parse_ssh_config("Host a\nHost\nUser lost\nHost b");
    assert_eq!(configs.len(), 2);
    assert_eq!(configs[0].name, "a");
    assert_eq!(configs[0].user, "root");
    assert_eq!(configs[1].name, "b");
}

#[test]
fn values_are_trimmed_and_carriage_returns_dropped() {
    let configs = parse_ssh_config("  Host   spaced out  \r\n\tUser \t me \r\n");
    assert_eq!(configs.len(), 1);
    assert_eq!(configs[0].name, "spaced out");
    assert_eq!(configs[0].user, "me");
    let configs = parse_ssh_config("Host a\r\n  User  me \r\n");
    assert_eq!(configs[0].name, "a");
    assert_eq!(configs[0].user, "me");
}

#[test]
fn a_tab_does_not_end_the_keyword() {
    let configs = parse_ssh_config("Host\ta\n");
    assert_eq!(configs.len(), 0);
}

#[test]
fn text_outside_ascii_is_kept() {
    let configs = parse_ssh_config("Host caf\u{e9}\nUser \u{4f60}\u{597d}\n");
    assert_eq!(configs[0].name, "caf\u{e9}");
    assert_eq!(configs[0].user, "\u{4f60}\u{597d}");
}

#[test]
fn every_port_read_is_a_port_of_a_profile() {
    let text = "Host a\nPort 0\nHost b\nPort 70000\nHost c\nPort 1\nHost d\nPort 2222\nPort 0\n";
    let configs = parse_ssh_config(text);
    let ports: Vec<u16> = configs.iter().map(|s| s.port).collect();
    assert_eq!(ports, vec![22, 22, 1, 2222]);
    assert!(configs.iter().all(|s| s.port >= 1));
}
