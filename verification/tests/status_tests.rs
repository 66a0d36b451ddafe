use ssh_proxy_gtk::history::ConnectionInfo;
use ssh_proxy_gtk::i18n::{Language, Translations};
use ssh_proxy_gtk::status::{
    buttons_for_status, connected_message, failed_message, is_connected_status,
    on_disconnect_clicked, spawn_status_message, ButtonStates,
};

fn info(server: &str, use_key_auth: bool) -> ConnectionInfo {
    ConnectionInfo {
        server_address: server.to_string(),
        ssh_port: 22,
        username: "alice".to_string(),
        password: "secret".to_string(),
        local_port: 1088,
        use_key_auth,
        key_path: "~/.ssh/id_ed25519".to_string(),
    }
}

fn reference_message(lang: Language, i: &ConnectionInfo) -> String {
    let t = Translations::get(lang);
    let auth = if i.use_key_auth { t.key_auth } else { t.password_auth };
    t.connected
        .replace("{}", &i.server_address)
        .replace("{}", &i.ssh_port.to_string())
        .replace("{}", auth)
        .replace("{}", &i.local_port.to_string())
}

#[test]
fn connected_message_fills_every_placeholder_with_server() {
    let i = info("h", false);
    assert_eq!(
        connected_message(Language::English, &i),
        "Server connected successfully\nServer: h:h\nAuth Method: h\nLocal Port: h SOCKS5 proxy enabled"
    );
}

#[test]
fn connected_message_matches_replace_chain() {
    for lang in [Language::Chinese, Language::English] {
        for server in ["example.org", "{}", "a{}b", ""] {
            for key in [true, false] {
                let i = info(server, key);
                assert_eq!(connected_message(lang, &i), reference_message(lang, &i));
            }
        }
    }
}

#[test]
fn failed_message_holds_error() {
    assert_eq!(failed_message(Language::English, "not found"), "Connection failed: not found");
    assert_eq!(failed_message(Language::Chinese, "找不到"), "连接失败：找不到");
}

#[test]
fn spawn_status_picks_message() {
    let i = info("h", true);
    assert_eq!(spawn_status_message(Language::English, &i, None), connected_message(Language::English, &i));
    assert_eq!(spawn_status_message(Language::English, &i, Some("boom")), "Connection failed: boom");
}

#[test]
fn connected_messages_are_recognized() {
    for lang in [Language::Chinese, Language::English] {
        let m = connected_message(lang, &info("server", true));
        assert!(is_connected_status(&m, lang));
        assert_eq!(buttons_for_status(&m, lang), ButtonStates { connect_enabled: false, disconnect_enabled: true });
    }
}

#[test]
fn failure_messages_are_not_recognized() {
    for lang in [Language::Chinese, Language::English] {
        let m = failed_message(lang, "Server connected successfully");
        assert!(!is_connected_status(&m, lang));
        assert_eq!(buttons_for_status(&m, lang), ButtonStates { connect_enabled: true, disconnect_enabled: false });
    }
}

#[test]
fn message_of_other_language_is_not_recognized() {
    let m = connected_message(Language::Chinese, &info("server", true));
    assert!(!is_connected_status(&m, Language::English));
}

#[test]
fn disconnect_enables_connect() {
    let (b, text) = on_disconnect_clicked(Language::English);
    assert_eq!(b, ButtonStates { connect_enabled: true, disconnect_enabled: false });
    assert_eq!(text, "Connection disconnected");
}
