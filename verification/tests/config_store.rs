use tailscale_core::config::AppConfig;

#[test]
fn set_and_get_usernames() {
    let mut c = AppConfig::new();
    assert_eq!(c.ssh_username("hostA"), None);
    c.set_ssh_username("hostA".to_string(), "alice".to_string());
    c.set_ssh_username("hostB".to_string(), "bob".to_string());
    assert_eq!(c.ssh_username("hostA"), Some("alice".to_string()));
    assert_eq!(c.ssh_username("hostB"), Some("bob".to_string()));
    assert_eq!(c.ssh_username("hostC"), None);
}

#[test]
fn set_replaces_the_previous_entry() {
    let mut c = AppConfig::new();
    c.set_ssh_username("hostA".to_string(), "alice".to_string());
    c.set_ssh_username("hostA".to_string(), "carol".to_string());
    assert_eq!(c.ssh_username("hostA"), Some("carol".to_string()));
    assert_eq!(c.ssh_usernames.len(), 1);
}

#[test]
fn remove_deletes_only_that_host() {
    let mut c = AppConfig::new();
    c.set_ssh_username("hostA".to_string(), "alice".to_string());
    c.set_ssh_username("hostB".to_string(), "bob".to_string());
    c.remove_ssh_username("hostA");
    assert_eq!(c.ssh_username("hostA"), None);
    assert_eq!(c.ssh_username("hostB"), Some("bob".to_string()));
    c.remove_ssh_username("missing");
    assert_eq!(c.ssh_usernames.len(), 1);
}
