use ssh_proxy_gtk::form::{ConnectionForm, FormError};
use ssh_proxy_gtk::history::ConnectionHistory;
use ssh_proxy_gtk::i18n::Language;
use ssh_proxy_gtk::session::{ConnectOutcome, Session};
use ssh_proxy_gtk::status::{connected_message, failed_message, ButtonStates};

fn form(server: &str) -> ConnectionForm {
    ConnectionForm {
        server_address: server.to_string(),
        ssh_port: "22".to_string(),
        username: "u".to_string(),
        password: "p".to_string(),
        local_port: "1088".to_string(),
        use_key_auth: false,
        key_path: "~/.ssh/id_ed25519".to_string(),
    }
}

fn exclusive(b: ButtonStates) -> bool {
    !(b.connect_enabled && b.disconnect_enabled)
}

#[test]
fn new_session_starts_in_chinese_with_connect_only() {
    let s = Session::new(ConnectionHistory::default());
    assert_eq!(s.lang, Language::Chinese);
    assert_eq!(s.buttons, ButtonStates { connect_enabled: true, disconnect_enabled: false });
}

#[test]
fn earlier_servers_stay_listed_during_a_run() {
    let mut s = Session::new(ConnectionHistory::default());
    assert!(matches!(s.connect_clicked(&form("A"), None), ConnectOutcome::Accepted { .. }));
    s.disconnect_clicked();
    assert!(matches!(s.connect_clicked(&form("B"), None), ConnectOutcome::Accepted { .. }));
    assert_eq!(s.history.addresses, vec!["B", "A"]);
    assert_eq!(s.history.last_connection.as_ref().unwrap().server_address, "B");
}

#[test]
fn accepted_connect() {
    let h = ConnectionHistory { addresses: vec!["old".to_string()], last_connection: None };
    let mut s = Session::new(h);
    match s.connect_clicked(&form("new"), None) {
        ConnectOutcome::Accepted { info, command, status } => {
            assert_eq!(info.server_address, "new");
            assert_eq!(command.program, "sshpass");
            assert_eq!(status, "正在连接到服务器...");
        }
        ConnectOutcome::Rejected { .. } => panic!("form is valid"),
    }
    assert_eq!(s.history.addresses, vec!["new", "old"]);
    assert_eq!(s.buttons, ButtonStates { connect_enabled: false, disconnect_enabled: false });
}

#[test]
fn rejected_connect_changes_nothing() {
    let mut s = Session::new(ConnectionHistory::default());
    s.language_clicked();
    match s.connect_clicked(&form(""), None) {
        ConnectOutcome::Rejected { error, message } => {
            assert_eq!(error, FormError::ServerAddressEmpty);
            assert_eq!(message, "Error: Server address cannot be empty");
        }
        ConnectOutcome::Accepted { .. } => panic!("form is invalid"),
    }
    assert!(s.history.addresses.is_empty());
    assert!(s.history.last_connection.is_none());
    assert_eq!(s.buttons, ButtonStates { connect_enabled: true, disconnect_enabled: false });
}

#[test]
fn status_and_disconnect_steps() {
    let mut s = Session::new(ConnectionHistory::default());
    let info = match s.connect_clicked(&form("h"), None) {
        ConnectOutcome::Accepted { info, .. } => info,
        ConnectOutcome::Rejected { .. } => panic!("form is valid"),
    };
    let b = s.status_shown(&connected_message(Language::Chinese, &info));
    assert_eq!(b, ButtonStates { connect_enabled: false, disconnect_enabled: true });
    assert_eq!(s.disconnect_clicked(), "连接已断开");
    assert_eq!(s.buttons, ButtonStates { connect_enabled: true, disconnect_enabled: false });
    let b = s.status_shown(&failed_message(Language::Chinese, "x"));
    assert_eq!(b, ButtonStates { connect_enabled: true, disconnect_enabled: false });
}

#[test]
fn language_switch_keeps_buttons_and_history() {
    let mut s = Session::new(ConnectionHistory::default());
    assert_eq!(s.language_clicked(), "简体中文");
    assert_eq!(s.lang, Language::English);
    assert_eq!(s.language_clicked(), "English");
    assert_eq!(s.lang, Language::Chinese);
    assert_eq!(s.buttons, ButtonStates { connect_enabled: true, disconnect_enabled: false });
}

#[test]
fn buttons_never_both_enabled_over_event_sequence() {
    let mut s = Session::new(ConnectionHistory::default());
    let mut seed: u32 = 12345;
    for step in 0..400 {
        seed = seed.wrapping_mul(1103515245).wrapping_add(12345);
        match (seed >> 16) % 6 {
            0 => {
                let _ = s.connect_clicked(&form(&format!("host{}", step % 13)), Some("/home/u"));
            }
            1 => {
                let _ = s.connect_clicked(&form(""), None);
            }
            2 => {
                let m = connected_message(s.lang, &ssh_info());
                s.status_shown(&m);
            }
            3 => {
                let m = failed_message(s.lang, "e");
                s.status_shown(&m);
            }
            4 => {
                s.disconnect_clicked();
            }
            _ => {
                s.language_clicked();
            }
        }
        assert!(exclusive(s.buttons));
        assert!(s.history.addresses.len() <= 10);
    }
}

fn ssh_info() -> ssh_proxy_gtk::history::ConnectionInfo {
    ssh_proxy_gtk::history::ConnectionInfo {
        server_address: "h".to_string(),
        ssh_port: 22,
        username: "u".to_string(),
        password: "p".to_string(),
        local_port: 1088,
        use_key_auth: false,
        key_path: String::new(),
    }
}
