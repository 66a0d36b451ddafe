use ssh_proxy_gtk::command::{expand_key_path, ssh_command};
use ssh_proxy_gtk::history::ConnectionInfo;

fn info(use_key_auth: bool) -> ConnectionInfo {
    ConnectionInfo {
        server_address: "example.org".to_string(),
        ssh_port: 2222,
        username: "alice".to_string(),
        password: "secret".to_string(),
        local_port: 1088,
        use_key_auth,
        key_path: "~/.ssh/id_ed25519".to_string(),
    }
}

#[test]
fn key_path_expansion() {
    assert_eq!(expand_key_path("~/.ssh/id", "/home/u"), "/home/u/.ssh/id");
    assert_eq!(expand_key_path("/abs/key", "/home/u"), "/abs/key");
    assert_eq!(expand_key_path("a~b", "/home/u"), "a~b");
    assert_eq!(expand_key_path("~", "/h"), "/h");
    assert_eq!(expand_key_path("", "/h"), "");
    assert_eq!(expand_key_path("~~", "/h"), "~~".replacen("~", "/h", 1));
}

#[test]
fn key_auth_command() {
    let c = ssh_command(&info(true), Some("/home/alice"));
    assert_eq!(c.program, "ssh");
    assert_eq!(
        c.args,
        vec!["-i", "/home/alice/.ssh/id_ed25519", "-D", "1088", "-p", "2222", "-N", "alice@example.org"]
    );
}

#[test]
fn key_auth_without_home_uses_current_directory() {
    let c = ssh_command(&info(true), None);
    assert_eq!(c.args[1], "./.ssh/id_ed25519");
}

#[test]
fn password_command() {
    let c = ssh_command(&info(false), Some("/home/alice"));
    assert_eq!(c.program, "sshpass");
    assert_eq!(
        c.args,
        vec!["-p", "secret", "ssh", "-D", "1088", "-p", "2222", "-N", "alice@example.org"]
    );
}
