use ssh_proxy_gtk::history::{ConnectionHistory, ConnectionInfo, MAX_HISTORY_ADDRESSES};

fn info(server: &str) -> ConnectionInfo {
    ConnectionInfo {
        server_address: server.to_string(),
        ssh_port: 22,
        username: "user".to_string(),
        password: "pw".to_string(),
        local_port: 1088,
        use_key_auth: false,
        key_path: "~/.ssh/id_ed25519".to_string(),
    }
}

fn names(n: usize) -> Vec<String> {
    (0..n).map(|i| format!("host{}", i)).collect()
}

#[test]
fn default_history_is_empty() {
    let h = ConnectionHistory::default();
    assert!(h.addresses.is_empty());
    assert!(h.last_connection.is_none());
}

#[test]
fn new_address_goes_first() {
    let mut h = ConnectionHistory { addresses: names(2), last_connection: None };
    h.record_connection(info("new"));
    assert_eq!(h.addresses, vec!["new", "host0", "host1"]);
    assert_eq!(h.last_connection.as_ref().unwrap().server_address, "new");
}

#[test]
fn known_address_keeps_list() {
    let mut h = ConnectionHistory { addresses: names(3), last_connection: None };
    h.record_connection(info("host2"));
    assert_eq!(h.addresses, names(3));
    assert_eq!(h.last_connection.as_ref().unwrap().server_address, "host2");
}

#[test]
fn full_list_drops_oldest() {
    let mut h = ConnectionHistory { addresses: names(MAX_HISTORY_ADDRESSES), last_connection: None };
    h.record_connection(info("new"));
    assert_eq!(h.addresses.len(), 10);
    assert_eq!(h.addresses[0], "new");
    assert_eq!(&h.addresses[1..], &names(9)[..]);
}

#[test]
fn oversized_list_loses_only_one() {
    let mut h = ConnectionHistory { addresses: names(12), last_connection: None };
    h.record_connection(info("new"));
    assert_eq!(h.addresses.len(), 12);
    assert_eq!(h.addresses[0], "new");
}

#[test]
fn recording_twice_is_recording_once() {
    let mut once = ConnectionHistory { addresses: names(4), last_connection: None };
    once.record_connection(info("x"));
    let mut twice = ConnectionHistory { addresses: names(4), last_connection: None };
    twice.record_connection(info("x"));
    twice.record_connection(info("x"));
    assert_eq!(once.addresses, twice.addresses);
}

#[test]
fn no_duplicates_after_many_connections() {
    let mut h = ConnectionHistory::default();
    for s in ["a", "b", "a", "c", "b", "d", "e", "f", "g", "h", "i", "j", "k", "a"] {
        h.record_connection(info(s));
        assert!(h.addresses.len() <= 10);
        assert!(h.addresses.contains(&s.to_string()));
        let mut sorted = h.addresses.clone();
        sorted.sort();
        sorted.dedup();
        assert_eq!(sorted.len(), h.addresses.len());
    }
}
