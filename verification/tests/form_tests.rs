use ssh_proxy_gtk::form::{
    auth_fields_enabled, form_error_message, initial_form, validate_form, ConnectionForm, FormError,
};
use ssh_proxy_gtk::history::{ConnectionHistory, ConnectionInfo};
use ssh_proxy_gtk::i18n::Language;

fn form() -> ConnectionForm {
    ConnectionForm {
        server_address: "example.org".to_string(),
        ssh_port: "22".to_string(),
        username: "alice".to_string(),
        password: "secret".to_string(),
        local_port: "1088".to_string(),
        use_key_auth: false,
        key_path: "~/.ssh/id_ed25519".to_string(),
    }
}

fn error_of(f: &ConnectionForm) -> Option<FormError> {
    validate_form(f).err()
}

#[test]
fn valid_form_gives_settings() {
    let info = validate_form(&form()).ok().unwrap();
    assert_eq!(info.server_address, "example.org");
    assert_eq!(info.ssh_port, 22);
    assert_eq!(info.username, "alice");
    assert_eq!(info.password, "secret");
    assert_eq!(info.local_port, 1088);
    assert!(!info.use_key_auth);
    assert_eq!(info.key_path, "~/.ssh/id_ed25519");
}

#[test]
fn each_error_has_its_input() {
    let mut f = form();
    f.ssh_port = "ssh".to_string();
    assert_eq!(error_of(&f), Some(FormError::SshPortNotNumber));
    let mut f = form();
    f.local_port = "70000".to_string();
    assert_eq!(error_of(&f), Some(FormError::LocalPortNotNumber));
    let mut f = form();
    f.server_address = String::new();
    assert_eq!(error_of(&f), Some(FormError::ServerAddressEmpty));
    let mut f = form();
    f.username = String::new();
    assert_eq!(error_of(&f), Some(FormError::UsernameEmpty));
    let mut f = form();
    f.use_key_auth = true;
    f.key_path = String::new();
    assert_eq!(error_of(&f), Some(FormError::KeyPathEmpty));
    let mut f = form();
    f.password = String::new();
    assert_eq!(error_of(&f), Some(FormError::PasswordEmpty));
}

#[test]
fn errors_come_in_order() {
    let f = ConnectionForm {
        server_address: String::new(),
        ssh_port: "x".to_string(),
        username: String::new(),
        password: String::new(),
        local_port: "y".to_string(),
        use_key_auth: false,
        key_path: String::new(),
    };
    assert_eq!(error_of(&f), Some(FormError::SshPortNotNumber));
    let mut g = f;
    g.ssh_port = "22".to_string();
    assert_eq!(error_of(&g), Some(FormError::LocalPortNotNumber));
    g.local_port = "1".to_string();
    assert_eq!(error_of(&g), Some(FormError::ServerAddressEmpty));
    g.server_address = "h".to_string();
    assert_eq!(error_of(&g), Some(FormError::UsernameEmpty));
    g.username = "u".to_string();
    assert_eq!(error_of(&g), Some(FormError::PasswordEmpty));
    g.use_key_auth = true;
    assert_eq!(error_of(&g), Some(FormError::KeyPathEmpty));
}

#[test]
fn key_auth_needs_no_password() {
    let mut f = form();
    f.use_key_auth = true;
    f.password = String::new();
    assert!(validate_form(&f).is_ok());
}

#[test]
fn error_messages_in_both_languages() {
    assert_eq!(
        form_error_message(FormError::SshPortNotNumber, Language::English),
        "Error: SSH port must be a number"
    );
    assert_eq!(form_error_message(FormError::UsernameEmpty, Language::Chinese), "错误：用户名不能为空");
}

#[test]
fn initial_form_without_history() {
    let f = initial_form(&ConnectionHistory::default());
    assert_eq!(f.server_address, "");
    assert_eq!(f.ssh_port, "22");
    assert_eq!(f.username, "");
    assert_eq!(f.password, "");
    assert_eq!(f.local_port, "1088");
    assert!(!f.use_key_auth);
    assert_eq!(f.key_path, "~/.ssh/id_ed25519");
}

fn saved() -> ConnectionInfo {
    ConnectionInfo {
        server_address: "10.0.0.1".to_string(),
        ssh_port: 2222,
        username: "bob".to_string(),
        password: String::new(),
        local_port: 9050,
        use_key_auth: true,
        key_path: "/keys/id_rsa".to_string(),
    }
}

#[test]
fn initial_form_from_last_connection() {
    let h = ConnectionHistory { addresses: vec![], last_connection: Some(saved()) };
    let f = initial_form(&h);
    assert_eq!(f.server_address, "10.0.0.1");
    assert_eq!(f.ssh_port, "2222");
    assert_eq!(f.local_port, "9050");
    assert!(f.use_key_auth);
    assert_eq!(f.key_path, "/keys/id_rsa");
}

#[test]
fn empty_saved_key_path_keeps_default() {
    let mut last = saved();
    last.key_path = String::new();
    let h = ConnectionHistory { addresses: vec![], last_connection: Some(last) };
    assert_eq!(initial_form(&h).key_path, "~/.ssh/id_ed25519");
}

#[test]
fn saved_connection_round_trips() {
    let h = ConnectionHistory { addresses: vec![], last_connection: Some(saved()) };
    let info = validate_form(&initial_form(&h)).ok().unwrap();
    let last = saved();
    assert_eq!(info.server_address, last.server_address);
    assert_eq!(info.ssh_port, last.ssh_port);
    assert_eq!(info.username, last.username);
    assert_eq!(info.password, last.password);
    assert_eq!(info.local_port, last.local_port);
    assert_eq!(info.use_key_auth, last.use_key_auth);
    assert_eq!(info.key_path, last.key_path);
}

#[test]
fn auth_fields_follow_checkbox() {
    assert_eq!(auth_fields_enabled(true), (false, true));
    assert_eq!(auth_fields_enabled(false), (true, false));
}
