use ssh_proxy_gtk::i18n::{on_language_clicked, toggle_language, Language, Translations};

#[test]
fn english_texts() {
    let t = Translations::get(Language::English);
    assert_eq!(t.title, "SSH Port Forwarding");
    assert_eq!(t.connect, "Connect");
    assert_eq!(t.error_password_empty, "Error: Password cannot be empty");
    assert_eq!(t.connection_failed, "Connection failed: {}");
    assert_eq!(t.switch_to_chinese, "简体中文");
}

#[test]
fn chinese_texts() {
    let t = Translations::get(Language::Chinese);
    assert_eq!(t.title, "SSH 端口转发");
    assert_eq!(t.disconnect, "断开");
    assert_eq!(t.connection_failed, "连接失败：{}");
    assert_eq!(t.switch_to_english, "English");
}

#[test]
fn toggling_twice_restores_language() {
    for lang in [Language::Chinese, Language::English] {
        assert_eq!(toggle_language(toggle_language(lang)), lang);
        assert_ne!(toggle_language(lang), lang);
    }
}

#[test]
fn language_button_names_other_language() {
    assert_eq!(on_language_clicked(Language::Chinese), (Language::English, "简体中文"));
    assert_eq!(on_language_clicked(Language::English), (Language::Chinese, "English"));
}

#[test]
fn placeholder_counts() {
    for lang in [Language::Chinese, Language::English] {
        let t = Translations::get(lang);
        assert_eq!(t.connected.matches("{}").count(), 4);
        assert_eq!(t.connection_failed.matches("{}").count(), 1);
        for text in [t.title, t.header, t.connecting, t.disconnected, t.security_tips_content, t.key_auth] {
            assert_eq!(text.matches("{}").count(), 0);
        }
    }
}
