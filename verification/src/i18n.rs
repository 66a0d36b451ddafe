//! Interface languages and the texts shown in each.
use vstd::prelude::*;
use crate::text::{lacks_char, lemma_count_match, lemma_count_none, lemma_count_skip_free, spec_count};

verus! {

/// The two interface languages.
#[derive(Debug, Clone, Copy, PartialEq, Eq, Structural)]
pub enum Language {
    Chinese,
    English,
}

/// The language that the language button switches to.
pub open spec fn spec_toggled(lang: Language) -> Language {
    match lang {
        Language::Chinese => Language::English,
        Language::English => Language::Chinese,
    }
}

/// Switches between Chinese and English.
pub fn toggle_language(lang: Language) -> (res: Language)
    ensures
        res == spec_toggled(lang),
{
    match lang {
        Language::Chinese => Language::English,
        Language::English => Language::Chinese,
    }
}

/// Toggling changes the language, and toggling twice gives it back.
pub proof fn lemma_toggle_twice(lang: Language)
    ensures
        spec_toggled(spec_toggled(lang)) == lang,
        spec_toggled(lang) != lang,
{
}

/// The label of the language button, which names the other language.
pub open spec fn language_button_key(lang: Language) -> TextKey {
    if lang == Language::Chinese {
        TextKey::SwitchToEnglish
    } else {
        TextKey::SwitchToChinese
    }
}

/// A click on the language button: the new language and the button's new label.
pub fn on_language_clicked(lang: Language) -> (res: (Language, &'static str))
    ensures
        res.0 == spec_toggled(lang),
        res.1@ == spec_text(res.0, language_button_key(res.0)),
{
    let next = toggle_language(lang);
    let t = Translations::get(next);
    let label = if next == Language::Chinese {
        t.switch_to_english
    } else {
        t.switch_to_chinese
    };
    (next, label)
}

/// Names the texts of the interface, one per field of [`Translations`].
#[derive(Debug, Clone, Copy, PartialEq, Eq, Structural)]
pub enum TextKey {
    Title,
    Header,
    ServerAddress,
    SshPort,
    Username,
    UseKeyAuth,
    KeyPath,
    Password,
    LocalPort,
    Connect,
    Disconnect,
    ConnectionStatus,
    SecurityTips,
    SecurityTipsContent,
    ErrorSshPortMustBeNumber,
    ErrorLocalPortMustBeNumber,
    ErrorServerAddressEmpty,
    ErrorUsernameEmpty,
    ErrorKeyPathEmpty,
    ErrorPasswordEmpty,
    Connecting,
    Connected,
    ConnectionFailed,
    Disconnected,
    KeyAuth,
    PasswordAuth,
    SwitchToEnglish,
    SwitchToChinese,
}

/// The text shown for `key` in `lang`.
pub open spec fn spec_text(lang: Language, key: TextKey) -> Seq<char> {
    match lang {
        Language::Chinese => match key {
            TextKey::Title => "SSH 端口转发"@,
            TextKey::Header => "SSH 端口转发"@,
            TextKey::ServerAddress => "服务器地址"@,
            TextKey::SshPort => "SSH端口"@,
            TextKey::Username => "用户名"@,
            TextKey::UseKeyAuth => "使用密钥认证"@,
            TextKey::KeyPath => "密钥路径"@,
            TextKey::Password => "密码"@,
            TextKey::LocalPort => "本地端口"@,
            TextKey::Connect => "连接"@,
            TextKey::Disconnect => "断开"@,
            TextKey::ConnectionStatus => "连接状态"@,
            TextKey::SecurityTips => "安全提示"@,
            TextKey::SecurityTipsContent => "• 推荐使用SSH密钥认证，避免密码泄露\n• 首次连接时请验证服务器指纹\n• 配置文件已设置为仅本人可读(600)"@,
            TextKey::ErrorSshPortMustBeNumber => "错误：SSH端口必须是数字"@,
            TextKey::ErrorLocalPortMustBeNumber => "错误：本地端口必须是数字"@,
            TextKey::ErrorServerAddressEmpty => "错误：服务器地址不能为空"@,
            TextKey::ErrorUsernameEmpty => "错误：用户名不能为空"@,
            TextKey::ErrorKeyPathEmpty => "错误：密钥路径不能为空"@,
            TextKey::ErrorPasswordEmpty => "错误：密码不能为空"@,
            TextKey::Connecting => "正在连接到服务器..."@,
            TextKey::Connected => "服务器连接成功\n服务器：{}:{}\n认证方式：{}\n本地端口：{} 已开启 SOCKS5 代理"@,
            TextKey::ConnectionFailed => "连接失败：{}"@,
            TextKey::Disconnected => "连接已断开"@,
            TextKey::KeyAuth => "密钥认证"@,
            TextKey::PasswordAuth => "密码认证"@,
            TextKey::SwitchToEnglish => "English"@,
            TextKey::SwitchToChinese => "简体中文"@,
        },
        Language::English => match key {
            TextKey::Title => "SSH Port Forwarding"@,
            TextKey::Header => "SSH Port Forwarding"@,
            TextKey::ServerAddress => "Server Address"@,
            TextKey::SshPort => "SSH Port"@,
            TextKey::Username => "Username"@,
            TextKey::UseKeyAuth => "Use Key Auth"@,
            TextKey::KeyPath => "Key Path"@,
            TextKey::Password => "Password"@,
            TextKey::LocalPort => "Local Port"@,
            TextKey::Connect => "Connect"@,
            TextKey::Disconnect => "Disconnect"@,
            TextKey::ConnectionStatus => "Connection Status"@,
            TextKey::SecurityTips => "Security Tips"@,
            TextKey::SecurityTipsContent => "• Recommended to use SSH key authentication to avoid password leakage\n• Verify server fingerprint on first connection\n• Config file is set to readable only by owner (600)"@,
            TextKey::ErrorSshPortMustBeNumber => "Error: SSH port must be a number"@,
            TextKey::ErrorLocalPortMustBeNumber => "Error: Local port must be a number"@,
            TextKey::ErrorServerAddressEmpty => "Error: Server address cannot be empty"@,
            TextKey::ErrorUsernameEmpty => "Error: Username cannot be empty"@,
            TextKey::ErrorKeyPathEmpty => "Error: Key path cannot be empty"@,
            TextKey::ErrorPasswordEmpty => "Error: Password cannot be empty"@,
            TextKey::Connecting => "Connecting to server..."@,
            TextKey::Connected => "Server connected successfully\nServer: {}:{}\nAuth Method: {}\nLocal Port: {} SOCKS5 proxy enabled"@,
            TextKey::ConnectionFailed => "Connection failed: {}"@,
            TextKey::Disconnected => "Connection disconnected"@,
            TextKey::KeyAuth => "Key Auth"@,
            TextKey::PasswordAuth => "Password Auth"@,
            TextKey::SwitchToEnglish => "English"@,
            TextKey::SwitchToChinese => "简体中文"@,
        },
    }
}

/// All texts of the interface in one language.
pub struct Translations {
    pub title: &'static str,
    pub header: &'static str,
    pub server_address: &'static str,
    pub ssh_port: &'static str,
    pub username: &'static str,
    pub use_key_auth: &'static str,
    pub key_path: &'static str,
    pub password: &'static str,
    pub local_port: &'static str,
    pub connect: &'static str,
    pub disconnect: &'static str,
    pub connection_status: &'static str,
    pub security_tips: &'static str,
    pub security_tips_content: &'static str,
    pub error_ssh_port_must_be_number: &'static str,
    pub error_local_port_must_be_number: &'static str,
    pub error_server_address_empty: &'static str,
    pub error_username_empty: &'static str,
    pub error_key_path_empty: &'static str,
    pub error_password_empty: &'static str,
    pub connecting: &'static str,
    pub connected: &'static str,
    pub connection_failed: &'static str,
    pub disconnected: &'static str,
    pub key_auth: &'static str,
    pub password_auth: &'static str,
    pub switch_to_english: &'static str,
    pub switch_to_chinese: &'static str,
}

impl Translations {
    /// The texts of `lang`.
    pub fn get(lang: Language) -> (t: Self)
        ensures
            t.title@ == spec_text(lang, TextKey::Title),
            t.header@ == spec_text(lang, TextKey::Header),
            t.server_address@ == spec_text(lang, TextKey::ServerAddress),
            t.ssh_port@ == spec_text(lang, TextKey::SshPort),
            t.username@ == spec_text(lang, TextKey::Username),
            t.use_key_auth@ == spec_text(lang, TextKey::UseKeyAuth),
            t.key_path@ == spec_text(lang, TextKey::KeyPath),
            t.password@ == spec_text(lang, TextKey::Password),
            t.local_port@ == spec_text(lang, TextKey::LocalPort),
            t.connect@ == spec_text(lang, TextKey::Connect),
            t.disconnect@ == spec_text(lang, TextKey::Disconnect),
            t.connection_status@ == spec_text(lang, TextKey::ConnectionStatus),
            t.security_tips@ == spec_text(lang, TextKey::SecurityTips),
            t.security_tips_content@ == spec_text(lang, TextKey::SecurityTipsContent),
            t.error_ssh_port_must_be_number@ == spec_text(lang, TextKey::ErrorSshPortMustBeNumber),
            t.error_local_port_must_be_number@ == spec_text(lang, TextKey::ErrorLocalPortMustBeNumber),
            t.error_server_address_empty@ == spec_text(lang, TextKey::ErrorServerAddressEmpty),
            t.error_username_empty@ == spec_text(lang, TextKey::ErrorUsernameEmpty),
            t.error_key_path_empty@ == spec_text(lang, TextKey::ErrorKeyPathEmpty),
            t.error_password_empty@ == spec_text(lang, TextKey::ErrorPasswordEmpty),
            t.connecting@ == spec_text(lang, TextKey::Connecting),
            t.connected@ == spec_text(lang, TextKey::Connected),
            t.connection_failed@ == spec_text(lang, TextKey::ConnectionFailed),
            t.disconnected@ == spec_text(lang, TextKey::Disconnected),
            t.key_auth@ == spec_text(lang, TextKey::KeyAuth),
            t.password_auth@ == spec_text(lang, TextKey::PasswordAuth),
            t.switch_to_english@ == spec_text(lang, TextKey::SwitchToEnglish),
            t.switch_to_chinese@ == spec_text(lang, TextKey::SwitchToChinese),
    {
        match lang {
            Language::Chinese => Self {
                title: "SSH 端口转发",
                header: "SSH 端口转发",
                server_address: "服务器地址",
                ssh_port: "SSH端口",
                username: "用户名",
                use_key_auth: "使用密钥认证",
                key_path: "密钥路径",
                password: "密码",
                local_port: "本地端口",
                connect: "连接",
                disconnect: "断开",
                connection_status: "连接状态",
                security_tips: "安全提示",
                security_tips_content: "• 推荐使用SSH密钥认证，避免密码泄露\n• 首次连接时请验证服务器指纹\n• 配置文件已设置为仅本人可读(600)",
                error_ssh_port_must_be_number: "错误：SSH端口必须是数字",
                error_local_port_must_be_number: "错误：本地端口必须是数字",
                error_server_address_empty: "错误：服务器地址不能为空",
                error_username_empty: "错误：用户名不能为空",
                error_key_path_empty: "错误：密钥路径不能为空",
                error_password_empty: "错误：密码不能为空",
                connecting: "正在连接到服务器...",
                connected: "服务器连接成功\n服务器：{}:{}\n认证方式：{}\n本地端口：{} 已开启 SOCKS5 代理",
                connection_failed: "连接失败：{}",
                disconnected: "连接已断开",
                key_auth: "密钥认证",
                password_auth: "密码认证",
                switch_to_english: "English",
                switch_to_chinese: "简体中文",
            },
            Language::English => Self {
                title: "SSH Port Forwarding",
                header: "SSH Port Forwarding",
                server_address: "Server Address",
                ssh_port: "SSH Port",
                username: "Username",
                use_key_auth: "Use Key Auth",
                key_path: "Key Path",
                password: "Password",
                local_port: "Local Port",
                connect: "Connect",
                disconnect: "Disconnect",
                connection_status: "Connection Status",
                security_tips: "Security Tips",
                security_tips_content: "• Recommended to use SSH key authentication to avoid password leakage\n• Verify server fingerprint on first connection\n• Config file is set to readable only by owner (600)",
                error_ssh_port_must_be_number: "Error: SSH port must be a number",
                error_local_port_must_be_number: "Error: Local port must be a number",
                error_server_address_empty: "Error: Server address cannot be empty",
                error_username_empty: "Error: Username cannot be empty",
                error_key_path_empty: "Error: Key path cannot be empty",
                error_password_empty: "Error: Password cannot be empty",
                connecting: "Connecting to server...",
                connected: "Server connected successfully\nServer: {}:{}\nAuth Method: {}\nLocal Port: {} SOCKS5 proxy enabled",
                connection_failed: "Connection failed: {}",
                disconnected: "Connection disconnected",
                key_auth: "Key Auth",
                password_auth: "Password Auth",
                switch_to_english: "English",
                switch_to_chinese: "简体中文",
            },
        }
    }
}

proof fn lemma_brace_free_chinese(key: TextKey)
    requires
        key != TextKey::Connected,
        key != TextKey::ConnectionFailed,
    ensures
        lacks_char(spec_text(Language::Chinese, key), '{'),
{
    match key {
        TextKey::Title => {
            reveal_strlit("SSH 端口转发");
            assert(lacks_char("SSH 端口转发"@, '{'));
        },
        TextKey::Header => {
            reveal_strlit("SSH 端口转发");
            assert(lacks_char("SSH 端口转发"@, '{'));
        },
        TextKey::ServerAddress => {
            reveal_strlit("服务器地址");
            assert(lacks_char("服务器地址"@, '{'));
        },
        TextKey::SshPort => {
            reveal_strlit("SSH端口");
            assert(lacks_char("SSH端口"@, '{'));
        },
        TextKey::Username => {
            reveal_strlit("用户名");
            assert(lacks_char("用户名"@, '{'));
        },
        TextKey::UseKeyAuth => {
            reveal_strlit("使用密钥认证");
            assert(lacks_char("使用密钥认证"@, '{'));
        },
        TextKey::KeyPath => {
            reveal_strlit("密钥路径");
            assert(lacks_char("密钥路径"@, '{'));
        },
        TextKey::Password => {
            reveal_strlit("密码");
            assert(lacks_char("密码"@, '{'));
        },
        TextKey::LocalPort => {
            reveal_strlit("本地端口");
            assert(lacks_char("本地端口"@, '{'));
        },
        TextKey::Connect => {
            reveal_strlit("连接");
            assert(lacks_char("连接"@, '{'));
        },
        TextKey::Disconnect => {
            reveal_strlit("断开");
            assert(lacks_char("断开"@, '{'));
        },
        TextKey::ConnectionStatus => {
            reveal_strlit("连接状态");
            assert(lacks_char("连接状态"@, '{'));
        },
        TextKey::SecurityTips => {
            reveal_strlit("安全提示");
            assert(lacks_char("安全提示"@, '{'));
        },
        TextKey::SecurityTipsContent => {
            reveal_strlit("• 推荐使用SSH密钥认证，避免密码泄露\n• 首次连接时请验证服务器指纹\n• 配置文件已设置为仅本人可读(600)");
            assert(lacks_char("• 推荐使用SSH密钥认证，避免密码泄露\n• 首次连接时请验证服务器指纹\n• 配置文件已设置为仅本人可读(600)"@, '{'));
        },
        TextKey::ErrorSshPortMustBeNumber => {
            reveal_strlit("错误：SSH端口必须是数字");
            assert(lacks_char("错误：SSH端口必须是数字"@, '{'));
        },
        TextKey::ErrorLocalPortMustBeNumber => {
            reveal_strlit("错误：本地端口必须是数字");
            assert(lacks_char("错误：本地端口必须是数字"@, '{'));
        },
        TextKey::ErrorServerAddressEmpty => {
            reveal_strlit("错误：服务器地址不能为空");
            assert(lacks_char("错误：服务器地址不能为空"@, '{'));
        },
        TextKey::ErrorUsernameEmpty => {
            reveal_strlit("错误：用户名不能为空");
            assert(lacks_char("错误：用户名不能为空"@, '{'));
        },
        TextKey::ErrorKeyPathEmpty => {
            reveal_strlit("错误：密钥路径不能为空");
            assert(lacks_char("错误：密钥路径不能为空"@, '{'));
        },
        TextKey::ErrorPasswordEmpty => {
            reveal_strlit("错误：密码不能为空");
            assert(lacks_char("错误：密码不能为空"@, '{'));
        },
        TextKey::Connecting => {
            reveal_strlit("正在连接到服务器...");
            assert(lacks_char("正在连接到服务器..."@, '{'));
        },
        TextKey::Connected => {},
        TextKey::ConnectionFailed => {},
        TextKey::Disconnected => {
            reveal_strlit("连接已断开");
            assert(lacks_char("连接已断开"@, '{'));
        },
        TextKey::KeyAuth => {
            reveal_strlit("密钥认证");
            assert(lacks_char("密钥认证"@, '{'));
        },
        TextKey::PasswordAuth => {
            reveal_strlit("密码认证");
            assert(lacks_char("密码认证"@, '{'));
        },
        TextKey::SwitchToEnglish => {
            reveal_strlit("English");
            assert(lacks_char("English"@, '{'));
        },
        TextKey::SwitchToChinese => {
            reveal_strlit("简体中文");
            assert(lacks_char("简体中文"@, '{'));
        },
    }
}

proof fn lemma_brace_free_english(key: TextKey)
    requires
        key != TextKey::Connected,
        key != TextKey::ConnectionFailed,
    ensures
        lacks_char(spec_text(Language::English, key), '{'),
{
    match key {
        TextKey::Title => {
            reveal_strlit("SSH Port Forwarding");
            assert(lacks_char("SSH Port Forwarding"@, '{'));
        },
        TextKey::Header => {
            reveal_strlit("SSH Port Forwarding");
            assert(lacks_char("SSH Port Forwarding"@, '{'));
        },
        TextKey::ServerAddress => {
            reveal_strlit("Server Address");
            assert(lacks_char("Server Address"@, '{'));
        },
        TextKey::SshPort => {
            reveal_strlit("SSH Port");
            assert(lacks_char("SSH Port"@, '{'));
        },
        TextKey::Username => {
            reveal_strlit("Username");
            assert(lacks_char("Username"@, '{'));
        },
        TextKey::UseKeyAuth => {
            reveal_strlit("Use Key Auth");
            assert(lacks_char("Use Key Auth"@, '{'));
        },
        TextKey::KeyPath => {
            reveal_strlit("Key Path");
            assert(lacks_char("Key Path"@, '{'));
        },
        TextKey::Password => {
            reveal_strlit("Password");
            assert(lacks_char("Password"@, '{'));
        },
        TextKey::LocalPort => {
            reveal_strlit("Local Port");
            assert(lacks_char("Local Port"@, '{'));
        },
        TextKey::Connect => {
            reveal_strlit("Connect");
            assert(lacks_char("Connect"@, '{'));
        },
        TextKey::Disconnect => {
            reveal_strlit("Disconnect");
            assert(lacks_char("Disconnect"@, '{'));
        },
        TextKey::ConnectionStatus => {
            reveal_strlit("Connection Status");
            assert(lacks_char("Connection Status"@, '{'));
        },
        TextKey::SecurityTips => {
            reveal_strlit("Security Tips");
            assert(lacks_char("Security Tips"@, '{'));
        },
        TextKey::SecurityTipsContent => {
            reveal_strlit("• Recommended to use SSH key authentication to avoid password leakage\n• Verify server fingerprint on first connection\n• Config file is set to readable only by owner (600)");
            assert(lacks_char("• Recommended to use SSH key authentication to avoid password leakage\n• Verify server fingerprint on first connection\n• Config file is set to readable only by owner (600)"@, '{'));
        },
        TextKey::ErrorSshPortMustBeNumber => {
            reveal_strlit("Error: SSH port must be a number");
            assert(lacks_char("Error: SSH port must be a number"@, '{'));
        },
        TextKey::ErrorLocalPortMustBeNumber => {
            reveal_strlit("Error: Local port must be a number");
            assert(lacks_char("Error: Local port must be a number"@, '{'));
        },
        TextKey::ErrorServerAddressEmpty => {
            reveal_strlit("Error: Server address cannot be empty");
            assert(lacks_char("Error: Server address cannot be empty"@, '{'));
        },
        TextKey::ErrorUsernameEmpty => {
            reveal_strlit("Error: Username cannot be empty");
            assert(lacks_char("Error: Username cannot be empty"@, '{'));
        },
        TextKey::ErrorKeyPathEmpty => {
            reveal_strlit("Error: Key path cannot be empty");
            assert(lacks_char("Error: Key path cannot be empty"@, '{'));
        },
        TextKey::ErrorPasswordEmpty => {
            reveal_strlit("Error: Password cannot be empty");
            assert(lacks_char("Error: Password cannot be empty"@, '{'));
        },
        TextKey::Connecting => {
            reveal_strlit("Connecting to server...");
            assert(lacks_char("Connecting to server..."@, '{'));
        },
        TextKey::Connected => {},
        TextKey::ConnectionFailed => {},
        TextKey::Disconnected => {
            reveal_strlit("Connection disconnected");
            assert(lacks_char("Connection disconnected"@, '{'));
        },
        TextKey::KeyAuth => {
            reveal_strlit("Key Auth");
            assert(lacks_char("Key Auth"@, '{'));
        },
        TextKey::PasswordAuth => {
            reveal_strlit("Password Auth");
            assert(lacks_char("Password Auth"@, '{'));
        },
        TextKey::SwitchToEnglish => {
            reveal_strlit("English");
            assert(lacks_char("English"@, '{'));
        },
        TextKey::SwitchToChinese => {
            reveal_strlit("简体中文");
            assert(lacks_char("简体中文"@, '{'));
        },
    }
}

proof fn lemma_count_connected_chinese()
    ensures
        spec_count(spec_text(Language::Chinese, TextKey::Connected), "{}"@) == 4,
{
    reveal_strlit("{}");
    reveal_strlit("服务器连接成功\n服务器：{}:{}\n认证方式：{}\n本地端口：{} 已开启 SOCKS5 代理");
    reveal_strlit("服务器连接成功\n服务器：");
    reveal_strlit(":");
    reveal_strlit("\n认证方式：");
    reveal_strlit("\n本地端口：");
    reveal_strlit(" 已开启 SOCKS5 代理");
    let from = "{}"@;
    assert("服务器连接成功\n服务器：{}:{}\n认证方式：{}\n本地端口：{} 已开启 SOCKS5 代理"@ =~= "服务器连接成功\n服务器："@ + (from + (":"@ + (from + ("\n认证方式："@ + (from + ("\n本地端口："@ + (from + (" 已开启 SOCKS5 代理"@)))))))));
    lemma_count_none(" 已开启 SOCKS5 代理"@, from);
    lemma_count_match(" 已开启 SOCKS5 代理"@, from);
    lemma_count_skip_free("\n本地端口："@, from + (" 已开启 SOCKS5 代理"@), from);
    lemma_count_match("\n本地端口："@ + (from + (" 已开启 SOCKS5 代理"@)), from);
    lemma_count_skip_free("\n认证方式："@, from + ("\n本地端口："@ + (from + (" 已开启 SOCKS5 代理"@))), from);
    lemma_count_match("\n认证方式："@ + (from + ("\n本地端口："@ + (from + (" 已开启 SOCKS5 代理"@)))), from);
    lemma_count_skip_free(":"@, from + ("\n认证方式："@ + (from + ("\n本地端口："@ + (from + (" 已开启 SOCKS5 代理"@))))), from);
    lemma_count_match(":"@ + (from + ("\n认证方式："@ + (from + ("\n本地端口："@ + (from + (" 已开启 SOCKS5 代理"@)))))), from);
    lemma_count_skip_free("服务器连接成功\n服务器："@, from + (":"@ + (from + ("\n认证方式："@ + (from + ("\n本地端口："@ + (from + (" 已开启 SOCKS5 代理"@))))))), from);
}

proof fn lemma_count_connection_failed_chinese()
    ensures
        spec_count(spec_text(Language::Chinese, TextKey::ConnectionFailed), "{}"@) == 1,
{
    reveal_strlit("{}");
    reveal_strlit("连接失败：{}");
    reveal_strlit("连接失败：");
    reveal_strlit("");
    let from = "{}"@;
    assert("连接失败：{}"@ =~= "连接失败："@ + (from + (""@)));
    lemma_count_none(""@, from);
    lemma_count_match(""@, from);
    lemma_count_skip_free("连接失败："@, from + (""@), from);
}

proof fn lemma_count_connected_english()
    ensures
        spec_count(spec_text(Language::English, TextKey::Connected), "{}"@) == 4,
{
    reveal_strlit("{}");
    reveal_strlit("Server connected successfully\nServer: {}:{}\nAuth Method: {}\nLocal Port: {} SOCKS5 proxy enabled");
    reveal_strlit("Server connected successfully\nServer: ");
    reveal_strlit(":");
    reveal_strlit("\nAuth Method: ");
    reveal_strlit("\nLocal Port: ");
    reveal_strlit(" SOCKS5 proxy enabled");
    let from = "{}"@;
    assert("Server connected successfully\nServer: {}:{}\nAuth Method: {}\nLocal Port: {} SOCKS5 proxy enabled"@ =~= "Server connected successfully\nServer: "@ + (from + (":"@ + (from + ("\nAuth Method: "@ + (from + ("\nLocal Port: "@ + (from + (" SOCKS5 proxy enabled"@)))))))));
    lemma_count_none(" SOCKS5 proxy enabled"@, from);
    lemma_count_match(" SOCKS5 proxy enabled"@, from);
    lemma_count_skip_free("\nLocal Port: "@, from + (" SOCKS5 proxy enabled"@), from);
    lemma_count_match("\nLocal Port: "@ + (from + (" SOCKS5 proxy enabled"@)), from);
    lemma_count_skip_free("\nAuth Method: "@, from + ("\nLocal Port: "@ + (from + (" SOCKS5 proxy enabled"@))), from);
    lemma_count_match("\nAuth Method: "@ + (from + ("\nLocal Port: "@ + (from + (" SOCKS5 proxy enabled"@)))), from);
    lemma_count_skip_free(":"@, from + ("\nAuth Method: "@ + (from + ("\nLocal Port: "@ + (from + (" SOCKS5 proxy enabled"@))))), from);
    lemma_count_match(":"@ + (from + ("\nAuth Method: "@ + (from + ("\nLocal Port: "@ + (from + (" SOCKS5 proxy enabled"@)))))), from);
    lemma_count_skip_free("Server connected successfully\nServer: "@, from + (":"@ + (from + ("\nAuth Method: "@ + (from + ("\nLocal Port: "@ + (from + (" SOCKS5 proxy enabled"@))))))), from);
}

proof fn lemma_count_connection_failed_english()
    ensures
        spec_count(spec_text(Language::English, TextKey::ConnectionFailed), "{}"@) == 1,
{
    reveal_strlit("{}");
    reveal_strlit("Connection failed: {}");
    reveal_strlit("Connection failed: ");
    reveal_strlit("");
    let from = "{}"@;
    assert("Connection failed: {}"@ =~= "Connection failed: "@ + (from + (""@)));
    lemma_count_none(""@, from);
    lemma_count_match(""@, from);
    lemma_count_skip_free("Connection failed: "@, from + (""@), from);
}

/// The connected text has four placeholders (server, SSH port, method,
/// local port), the failure text one (the error), and no other text any.
pub proof fn lemma_placeholder_counts(lang: Language, key: TextKey)
    ensures
        spec_count(spec_text(lang, key), "{}"@) == match key {
            TextKey::Connected => 4nat,
            TextKey::ConnectionFailed => 1nat,
            _ => 0nat,
        },
{
    reveal_strlit("{}");
    if key == TextKey::Connected {
        match lang {
            Language::Chinese => lemma_count_connected_chinese(),
            Language::English => lemma_count_connected_english(),
        }
    } else if key == TextKey::ConnectionFailed {
        match lang {
            Language::Chinese => lemma_count_connection_failed_chinese(),
            Language::English => lemma_count_connection_failed_english(),
        }
    } else {
        match lang {
            Language::Chinese => lemma_brace_free_chinese(key),
            Language::English => lemma_brace_free_english(key),
        }
        assert("{}"@[0] == '{');
        lemma_count_none(spec_text(lang, key), "{}"@);
    }
}

proof fn lemma_texts_distinct_chinese(k1: TextKey, k2: TextKey)
    requires
        k1 != k2,
        !(k1 == TextKey::Title && k2 == TextKey::Header),
        !(k1 == TextKey::Header && k2 == TextKey::Title),
    ensures
        spec_text(Language::Chinese, k1) != spec_text(Language::Chinese, k2),
{
    reveal_strlit("SSH 端口转发");
    reveal_strlit("服务器地址");
    reveal_strlit("SSH端口");
    reveal_strlit("用户名");
    reveal_strlit("使用密钥认证");
    reveal_strlit("密钥路径");
    reveal_strlit("密码");
    reveal_strlit("本地端口");
    reveal_strlit("连接");
    reveal_strlit("断开");
    reveal_strlit("连接状态");
    reveal_strlit("安全提示");
    reveal_strlit("• 推荐使用SSH密钥认证，避免密码泄露\n• 首次连接时请验证服务器指纹\n• 配置文件已设置为仅本人可读(600)");
    reveal_strlit("错误：SSH端口必须是数字");
    reveal_strlit("错误：本地端口必须是数字");
    reveal_strlit("错误：服务器地址不能为空");
    reveal_strlit("错误：用户名不能为空");
    reveal_strlit("错误：密钥路径不能为空");
    reveal_strlit("错误：密码不能为空");
    reveal_strlit("正在连接到服务器...");
    reveal_strlit("服务器连接成功\n服务器：{}:{}\n认证方式：{}\n本地端口：{} 已开启 SOCKS5 代理");
    reveal_strlit("连接失败：{}");
    reveal_strlit("连接已断开");
    reveal_strlit("密钥认证");
    reveal_strlit("密码认证");
    reveal_strlit("English");
    reveal_strlit("简体中文");
    assert("SSH 端口转发"@.len() == 8);
    assert("服务器地址"@.len() == 5);
    assert("SSH端口"@.len() == 5);
    assert("用户名"@.len() == 3);
    assert("使用密钥认证"@.len() == 6);
    assert("密钥路径"@.len() == 4);
    assert("密码"@.len() == 2);
    assert("本地端口"@.len() == 4);
    assert("连接"@.len() == 2);
    assert("断开"@.len() == 2);
    assert("连接状态"@.len() == 4);
    assert("安全提示"@.len() == 4);
    assert("• 推荐使用SSH密钥认证，避免密码泄露\n• 首次连接时请验证服务器指纹\n• 配置文件已设置为仅本人可读(600)"@.len() == 57);
    assert("错误：SSH端口必须是数字"@.len() == 13);
    assert("错误：本地端口必须是数字"@.len() == 12);
    assert("错误：服务器地址不能为空"@.len() == 12);
    assert("错误：用户名不能为空"@.len() == 10);
    assert("错误：密钥路径不能为空"@.len() == 11);
    assert("错误：密码不能为空"@.len() == 9);
    assert("正在连接到服务器..."@.len() == 11);
    assert("服务器连接成功\n服务器：{}:{}\n认证方式：{}\n本地端口：{} 已开启 SOCKS5 代理"@.len() == 47);
    assert("连接失败：{}"@.len() == 7);
    assert("连接已断开"@.len() == 5);
    assert("密钥认证"@.len() == 4);
    assert("密码认证"@.len() == 4);
    assert("English"@.len() == 7);
    assert("简体中文"@.len() == 4);
    assert("服务器地址"@[0] == '服');
    assert("SSH端口"@[0] == 'S');
    assert("密钥路径"@[0] == '密');
    assert("密钥路径"@[1] == '钥');
    assert("密钥路径"@[2] == '路');
    assert("密码"@[0] == '密');
    assert("本地端口"@[0] == '本');
    assert("连接"@[0] == '连');
    assert("断开"@[0] == '断');
    assert("连接状态"@[0] == '连');
    assert("安全提示"@[0] == '安');
    assert("错误：本地端口必须是数字"@[3] == '本');
    assert("错误：服务器地址不能为空"@[3] == '服');
    assert("错误：密钥路径不能为空"@[0] == '错');
    assert("正在连接到服务器..."@[0] == '正');
    assert("连接失败：{}"@[0] == '连');
    assert("连接已断开"@[0] == '连');
    assert("密钥认证"@[0] == '密');
    assert("密钥认证"@[1] == '钥');
    assert("密钥认证"@[2] == '认');
    assert("密码认证"@[0] == '密');
    assert("密码认证"@[1] == '码');
    assert("English"@[0] == 'E');
    assert("简体中文"@[0] == '简');
    match k1 {
        TextKey::Title => {},
        TextKey::Header => {},
        TextKey::ServerAddress => {},
        TextKey::SshPort => {},
        TextKey::Username => {},
        TextKey::UseKeyAuth => {},
        TextKey::KeyPath => {},
        TextKey::Password => {},
        TextKey::LocalPort => {},
        TextKey::Connect => {},
        TextKey::Disconnect => {},
        TextKey::ConnectionStatus => {},
        TextKey::SecurityTips => {},
        TextKey::SecurityTipsContent => {},
        TextKey::ErrorSshPortMustBeNumber => {},
        TextKey::ErrorLocalPortMustBeNumber => {},
        TextKey::ErrorServerAddressEmpty => {},
        TextKey::ErrorUsernameEmpty => {},
        TextKey::ErrorKeyPathEmpty => {},
        TextKey::ErrorPasswordEmpty => {},
        TextKey::Connecting => {},
        TextKey::Connected => {},
        TextKey::ConnectionFailed => {},
        TextKey::Disconnected => {},
        TextKey::KeyAuth => {},
        TextKey::PasswordAuth => {},
        TextKey::SwitchToEnglish => {},
        TextKey::SwitchToChinese => {},
    }
}

proof fn lemma_texts_distinct_english(k1: TextKey, k2: TextKey)
    requires
        k1 != k2,
        !(k1 == TextKey::Title && k2 == TextKey::Header),
        !(k1 == TextKey::Header && k2 == TextKey::Title),
    ensures
        spec_text(Language::English, k1) != spec_text(Language::English, k2),
{
    reveal_strlit("SSH Port Forwarding");
    reveal_strlit("Server Address");
    reveal_strlit("SSH Port");
    reveal_strlit("Username");
    reveal_strlit("Use Key Auth");
    reveal_strlit("Key Path");
    reveal_strlit("Password");
    reveal_strlit("Local Port");
    reveal_strlit("Connect");
    reveal_strlit("Disconnect");
    reveal_strlit("Connection Status");
    reveal_strlit("Security Tips");
    reveal_strlit("• Recommended to use SSH key authentication to avoid password leakage\n• Verify server fingerprint on first connection\n• Config file is set to readable only by owner (600)");
    reveal_strlit("Error: SSH port must be a number");
    reveal_strlit("Error: Local port must be a number");
    reveal_strlit("Error: Server address cannot be empty");
    reveal_strlit("Error: Username cannot be empty");
    reveal_strlit("Error: Key path cannot be empty");
    reveal_strlit("Error: Password cannot be empty");
    reveal_strlit("Connecting to server...");
    reveal_strlit("Server connected successfully\nServer: {}:{}\nAuth Method: {}\nLocal Port: {} SOCKS5 proxy enabled");
    reveal_strlit("Connection failed: {}");
    reveal_strlit("Connection disconnected");
    reveal_strlit("Key Auth");
    reveal_strlit("Password Auth");
    reveal_strlit("English");
    reveal_strlit("简体中文");
    assert("SSH Port Forwarding"@.len() == 19);
    assert("Server Address"@.len() == 14);
    assert("SSH Port"@.len() == 8);
    assert("Username"@.len() == 8);
    assert("Use Key Auth"@.len() == 12);
    assert("Key Path"@.len() == 8);
    assert("Password"@.len() == 8);
    assert("Local Port"@.len() == 10);
    assert("Connect"@.len() == 7);
    assert("Disconnect"@.len() == 10);
    assert("Connection Status"@.len() == 17);
    assert("Security Tips"@.len() == 13);
    assert("• Recommended to use SSH key authentication to avoid password leakage\n• Verify server fingerprint on first connection\n• Config file is set to readable only by owner (600)"@.len() == 170);
    assert("Error: SSH port must be a number"@.len() == 32);
    assert("Error: Local port must be a number"@.len() == 34);
    assert("Error: Server address cannot be empty"@.len() == 37);
    assert("Error: Username cannot be empty"@.len() == 31);
    assert("Error: Key path cannot be empty"@.len() == 31);
    assert("Error: Password cannot be empty"@.len() == 31);
    assert("Connecting to server..."@.len() == 23);
    assert("Server connected successfully\nServer: {}:{}\nAuth Method: {}\nLocal Port: {} SOCKS5 proxy enabled"@.len() == 95);
    assert("Connection failed: {}"@.len() == 21);
    assert("Connection disconnected"@.len() == 23);
    assert("Key Auth"@.len() == 8);
    assert("Password Auth"@.len() == 13);
    assert("English"@.len() == 7);
    assert("简体中文"@.len() == 4);
    assert("SSH Port"@[0] == 'S');
    assert("Username"@[0] == 'U');
    assert("Key Path"@[0] == 'K');
    assert("Key Path"@[4] == 'P');
    assert("Password"@[0] == 'P');
    assert("Local Port"@[0] == 'L');
    assert("Connect"@[0] == 'C');
    assert("Disconnect"@[0] == 'D');
    assert("Security Tips"@[0] == 'S');
    assert("Error: Username cannot be empty"@[7] == 'U');
    assert("Error: Key path cannot be empty"@[7] == 'K');
    assert("Error: Password cannot be empty"@[7] == 'P');
    assert("Connecting to server..."@[8] == 'n');
    assert("Connection disconnected"@[8] == 'o');
    assert("Key Auth"@[0] == 'K');
    assert("Key Auth"@[4] == 'A');
    assert("Password Auth"@[0] == 'P');
    assert("English"@[0] == 'E');
    match k1 {
        TextKey::Title => {},
        TextKey::Header => {},
        TextKey::ServerAddress => {},
        TextKey::SshPort => {},
        TextKey::Username => {},
        TextKey::UseKeyAuth => {},
        TextKey::KeyPath => {},
        TextKey::Password => {},
        TextKey::LocalPort => {},
        TextKey::Connect => {},
        TextKey::Disconnect => {},
        TextKey::ConnectionStatus => {},
        TextKey::SecurityTips => {},
        TextKey::SecurityTipsContent => {},
        TextKey::ErrorSshPortMustBeNumber => {},
        TextKey::ErrorLocalPortMustBeNumber => {},
        TextKey::ErrorServerAddressEmpty => {},
        TextKey::ErrorUsernameEmpty => {},
        TextKey::ErrorKeyPathEmpty => {},
        TextKey::ErrorPasswordEmpty => {},
        TextKey::Connecting => {},
        TextKey::Connected => {},
        TextKey::ConnectionFailed => {},
        TextKey::Disconnected => {},
        TextKey::KeyAuth => {},
        TextKey::PasswordAuth => {},
        TextKey::SwitchToEnglish => {},
        TextKey::SwitchToChinese => {},
    }
}

/// Within one language, different texts read differently, except that the
/// window title and the header show the same words.
pub proof fn lemma_texts_distinct(lang: Language, k1: TextKey, k2: TextKey)
    requires
        k1 != k2,
        !(k1 == TextKey::Title && k2 == TextKey::Header),
        !(k1 == TextKey::Header && k2 == TextKey::Title),
    ensures
        spec_text(lang, k1) != spec_text(lang, k2),
{
    match lang {
        Language::Chinese => lemma_texts_distinct_chinese(k1, k2),
        Language::English => lemma_texts_distinct_english(k1, k2),
    }
}

/// The window title and the header show the same words, and the two
/// language-button labels are the same in both languages.
pub proof fn lemma_shared_texts(lang: Language)
    ensures
        spec_text(lang, TextKey::Title) == spec_text(lang, TextKey::Header),
        spec_text(lang, TextKey::SwitchToEnglish) == spec_text(
            spec_toggled(lang),
            TextKey::SwitchToEnglish,
        ),
        spec_text(lang, TextKey::SwitchToChinese) == spec_text(
            spec_toggled(lang),
            TextKey::SwitchToChinese,
        ),
{
}

/// Apart from the language-button labels, every text reads differently in
/// the two languages.
pub proof fn lemma_languages_differ(key: TextKey)
    requires
        key != TextKey::SwitchToEnglish,
        key != TextKey::SwitchToChinese,
    ensures
        spec_text(Language::Chinese, key) != spec_text(Language::English, key),
{
    reveal_strlit("SSH 端口转发");
    reveal_strlit("SSH Port Forwarding");
    assert("SSH 端口转发"@.len() != "SSH Port Forwarding"@.len());
    reveal_strlit("SSH 端口转发");
    reveal_strlit("SSH Port Forwarding");
    assert("SSH 端口转发"@.len() != "SSH Port Forwarding"@.len());
    reveal_strlit("服务器地址");
    reveal_strlit("Server Address");
    assert("服务器地址"@.len() != "Server Address"@.len());
    reveal_strlit("SSH端口");
    reveal_strlit("SSH Port");
    assert("SSH端口"@.len() != "SSH Port"@.len());
    reveal_strlit("用户名");
    reveal_strlit("Username");
    assert("用户名"@.len() != "Username"@.len());
    reveal_strlit("使用密钥认证");
    reveal_strlit("Use Key Auth");
    assert("使用密钥认证"@.len() != "Use Key Auth"@.len());
    reveal_strlit("密钥路径");
    reveal_strlit("Key Path");
    assert("密钥路径"@.len() != "Key Path"@.len());
    reveal_strlit("密码");
    reveal_strlit("Password");
    assert("密码"@.len() != "Password"@.len());
    reveal_strlit("本地端口");
    reveal_strlit("Local Port");
    assert("本地端口"@.len() != "Local Port"@.len());
    reveal_strlit("连接");
    reveal_strlit("Connect");
    assert("连接"@.len() != "Connect"@.len());
    reveal_strlit("断开");
    reveal_strlit("Disconnect");
    assert("断开"@.len() != "Disconnect"@.len());
    reveal_strlit("连接状态");
    reveal_strlit("Connection Status");
    assert("连接状态"@.len() != "Connection Status"@.len());
    reveal_strlit("安全提示");
    reveal_strlit("Security Tips");
    assert("安全提示"@.len() != "Security Tips"@.len());
    reveal_strlit("• 推荐使用SSH密钥认证，避免密码泄露\n• 首次连接时请验证服务器指纹\n• 配置文件已设置为仅本人可读(600)");
    reveal_strlit("• Recommended to use SSH key authentication to avoid password leakage\n• Verify server fingerprint on first connection\n• Config file is set to readable only by owner (600)");
    assert("• 推荐使用SSH密钥认证，避免密码泄露\n• 首次连接时请验证服务器指纹\n• 配置文件已设置为仅本人可读(600)"@.len() != "• Recommended to use SSH key authentication to avoid password leakage\n• Verify server fingerprint on first connection\n• Config file is set to readable only by owner (600)"@.len());
    reveal_strlit("错误：SSH端口必须是数字");
    reveal_strlit("Error: SSH port must be a number");
    assert("错误：SSH端口必须是数字"@.len() != "Error: SSH port must be a number"@.len());
    reveal_strlit("错误：本地端口必须是数字");
    reveal_strlit("Error: Local port must be a number");
    assert("错误：本地端口必须是数字"@.len() != "Error: Local port must be a number"@.len());
    reveal_strlit("错误：服务器地址不能为空");
    reveal_strlit("Error: Server address cannot be empty");
    assert("错误：服务器地址不能为空"@.len() != "Error: Server address cannot be empty"@.len());
    reveal_strlit("错误：用户名不能为空");
    reveal_strlit("Error: Username cannot be empty");
    assert("错误：用户名不能为空"@.len() != "Error: Username cannot be empty"@.len());
    reveal_strlit("错误：密钥路径不能为空");
    reveal_strlit("Error: Key path cannot be empty");
    assert("错误：密钥路径不能为空"@.len() != "Error: Key path cannot be empty"@.len());
    reveal_strlit("错误：密码不能为空");
    reveal_strlit("Error: Password cannot be empty");
    assert("错误：密码不能为空"@.len() != "Error: Password cannot be empty"@.len());
    reveal_strlit("正在连接到服务器...");
    reveal_strlit("Connecting to server...");
    assert("正在连接到服务器..."@.len() != "Connecting to server..."@.len());
    reveal_strlit("服务器连接成功\n服务器：{}:{}\n认证方式：{}\n本地端口：{} 已开启 SOCKS5 代理");
    reveal_strlit("Server connected successfully\nServer: {}:{}\nAuth Method: {}\nLocal Port: {} SOCKS5 proxy enabled");
    assert("服务器连接成功\n服务器：{}:{}\n认证方式：{}\n本地端口：{} 已开启 SOCKS5 代理"@.len() != "Server connected successfully\nServer: {}:{}\nAuth Method: {}\nLocal Port: {} SOCKS5 proxy enabled"@.len());
    reveal_strlit("连接失败：{}");
    reveal_strlit("Connection failed: {}");
    assert("连接失败：{}"@.len() != "Connection failed: {}"@.len());
    reveal_strlit("连接已断开");
    reveal_strlit("Connection disconnected");
    assert("连接已断开"@.len() != "Connection disconnected"@.len());
    reveal_strlit("密钥认证");
    reveal_strlit("Key Auth");
    assert("密钥认证"@.len() != "Key Auth"@.len());
    reveal_strlit("密码认证");
    reveal_strlit("Password Auth");
    assert("密码认证"@.len() != "Password Auth"@.len());
    match key {
        TextKey::Title => {},
        TextKey::Header => {},
        TextKey::ServerAddress => {},
        TextKey::SshPort => {},
        TextKey::Username => {},
        TextKey::UseKeyAuth => {},
        TextKey::KeyPath => {},
        TextKey::Password => {},
        TextKey::LocalPort => {},
        TextKey::Connect => {},
        TextKey::Disconnect => {},
        TextKey::ConnectionStatus => {},
        TextKey::SecurityTips => {},
        TextKey::SecurityTipsContent => {},
        TextKey::ErrorSshPortMustBeNumber => {},
        TextKey::ErrorLocalPortMustBeNumber => {},
        TextKey::ErrorServerAddressEmpty => {},
        TextKey::ErrorUsernameEmpty => {},
        TextKey::ErrorKeyPathEmpty => {},
        TextKey::ErrorPasswordEmpty => {},
        TextKey::Connecting => {},
        TextKey::Connected => {},
        TextKey::ConnectionFailed => {},
        TextKey::Disconnected => {},
        TextKey::KeyAuth => {},
        TextKey::PasswordAuth => {},
        TextKey::SwitchToEnglish => {},
        TextKey::SwitchToChinese => {},
    }
}

} // verus!
