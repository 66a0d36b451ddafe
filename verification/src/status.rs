//! Status messages of the connection and the state of the two buttons.
use vstd::prelude::*;
use crate::history::ConnectionInfo;
use crate::i18n::{spec_text, Language, TextKey, Translations};
use crate::text::{
    first_line, is_prefix, lacks_char, lemma_count_none, lemma_first_line_prefix,
    lemma_lacks_concat, lemma_replace_keeps_prefix, lemma_replace_match,
    lemma_replace_no_occurrence, lemma_replace_skip_free, replace_all, spec_decimal,
    spec_first_line, spec_replace, starts_with, u16_to_decimal,
};

verus! {

/// The placeholder that message templates fill in.
pub open spec fn placeholder() -> Seq<char> {
    "{}"@
}

/// The name of the authentication method of a connection.
pub open spec fn auth_method_key(use_key_auth: bool) -> TextKey {
    if use_key_auth {
        TextKey::KeyAuth
    } else {
        TextKey::PasswordAuth
    }
}

/// The message after the tunnel has started. Each step replaces every
/// placeholder still left, so the first step fills all of them with the
/// server address, and the later steps change nothing unless that address
/// itself holds a placeholder.
pub open spec fn spec_connected_message(lang: Language, info: ConnectionInfo) -> Seq<char> {
    let a = spec_replace(spec_text(lang, TextKey::Connected), placeholder(), info.server_address@);
    let b = spec_replace(a, placeholder(), spec_decimal(info.ssh_port as nat));
    let c = spec_replace(b, placeholder(), spec_text(lang, auth_method_key(info.use_key_auth)));
    spec_replace(c, placeholder(), spec_decimal(info.local_port as nat))
}

/// The message after the tunnel failed to start, with the error's text.
pub open spec fn spec_failed_message(lang: Language, error: Seq<char>) -> Seq<char> {
    spec_replace(spec_text(lang, TextKey::ConnectionFailed), placeholder(), error)
}

/// A status message counts as "connected" when it begins with the first line
/// of the connected message template of the current language.
pub open spec fn spec_is_connected_status(msg: Seq<char>, lang: Language) -> bool {
    is_prefix(spec_first_line(spec_text(lang, TextKey::Connected)), msg)
}

/// Which of the two buttons can be clicked.
#[derive(Debug, Clone, Copy, PartialEq, Eq, Structural)]
pub struct ButtonStates {
    pub connect_enabled: bool,
    pub disconnect_enabled: bool,
}

/// The message after the tunnel has started.
pub fn connected_message(lang: Language, info: &ConnectionInfo) -> (msg: String)
    ensures
        msg@ == spec_connected_message(lang, *info),
{
    let t = Translations::get(lang);
    proof {
        reveal_strlit("{}");
    }
    let auth_method = if info.use_key_auth {
        t.key_auth
    } else {
        t.password_auth
    };
    let ssh_port = u16_to_decimal(info.ssh_port);
    let local_port = u16_to_decimal(info.local_port);
    let a = replace_all(t.connected, "{}", info.server_address.as_str());
    let b = replace_all(a.as_str(), "{}", ssh_port.as_str());
    let c = replace_all(b.as_str(), "{}", auth_method);
    replace_all(c.as_str(), "{}", local_port.as_str())
}

/// The message after the tunnel failed to start.
pub fn failed_message(lang: Language, error: &str) -> (msg: String)
    ensures
        msg@ == spec_failed_message(lang, error@),
{
    let t = Translations::get(lang);
    proof {
        reveal_strlit("{}");
    }
    replace_all(t.connection_failed, "{}", error)
}

/// The status message once the attempt to start the tunnel is over:
/// `spawn_error` is the error's text when it failed.
pub fn spawn_status_message(lang: Language, info: &ConnectionInfo, spawn_error: Option<&str>) -> (msg: String)
    ensures
        msg@ == match spawn_error {
            None => spec_connected_message(lang, *info),
            Some(e) => spec_failed_message(lang, e@),
        },
{
    match spawn_error {
        None => connected_message(lang, info),
        Some(e) => failed_message(lang, e),
    }
}

/// Whether a status message reports a started tunnel.
pub fn is_connected_status(msg: &str, lang: Language) -> (res: bool)
    ensures
        res == spec_is_connected_status(msg@, lang),
{
    let t = Translations::get(lang);
    let head = first_line(t.connected);
    starts_with(msg, head)
}

/// The buttons after a status message is shown: a started tunnel can only be
/// disconnected, anything else can only be connected.
pub fn buttons_for_status(msg: &str, lang: Language) -> (b: ButtonStates)
    ensures
        b.connect_enabled == !spec_is_connected_status(msg@, lang),
        b.disconnect_enabled == spec_is_connected_status(msg@, lang),
{
    let connected = is_connected_status(msg, lang);
    ButtonStates { connect_enabled: !connected, disconnect_enabled: connected }
}

/// A click on the disconnect button: only connecting is possible afterwards,
/// and the status says the connection is closed.
pub fn on_disconnect_clicked(lang: Language) -> (res: (ButtonStates, &'static str))
    ensures
        res.0.connect_enabled,
        !res.0.disconnect_enabled,
        res.1@ == spec_text(lang, TextKey::Disconnected),
{
    let t = Translations::get(lang);
    (ButtonStates { connect_enabled: true, disconnect_enabled: false }, t.disconnected)
}

proof fn lemma_connected_first_line(lang: Language)
    ensures
        spec_first_line(spec_text(lang, TextKey::Connected)).len() > 0,
        lacks_char(spec_first_line(spec_text(lang, TextKey::Connected)), '{'),
        spec_first_line(spec_text(lang, TextKey::Connected))[0] != 'C',
        spec_first_line(spec_text(lang, TextKey::Connected))[0] != '连',
{
    let s = spec_text(lang, TextKey::Connected);
    lemma_first_line_prefix(s);
    let k: int = match lang {
        Language::Chinese => 7,
        Language::English => 29,
    };
    reveal_strlit("服务器连接成功\n服务器：{}:{}\n认证方式：{}\n本地端口：{} 已开启 SOCKS5 代理");
    reveal_strlit("Server connected successfully\nServer: {}:{}\nAuth Method: {}\nLocal Port: {} SOCKS5 proxy enabled");
    assert(s[k] == '\n');
    assert(forall|j: int| 0 <= j < k ==> s[j] != '\n' && s[j] != '{');
    lemma_first_line_upto(s, k);
}

proof fn lemma_first_line_upto(s: Seq<char>, k: int)
    requires
        0 <= k < s.len(),
        s[k] == '\n',
        forall|j: int| 0 <= j < k ==> s[j] != '\n',
    ensures
        spec_first_line(s) == s.take(k),
    decreases k,
{
    if k == 0 {
        assert(s.take(0) =~= Seq::<char>::empty());
    } else {
        let t = s.drop_first();
        assert forall|j: int| 0 <= j < k - 1 implies t[j] != '\n' by {
            assert(t[j] == s[j + 1]);
        }
        lemma_first_line_upto(t, k - 1);
        assert(s.take(k) =~= seq![s[0]] + t.take(k - 1));
    }
}

/// The message after a started tunnel is recognised as "connected" when the
/// language has not changed in between.
pub proof fn lemma_connected_message_recognized(lang: Language, info: ConnectionInfo)
    ensures
        spec_is_connected_status(spec_connected_message(lang, info), lang),
{
    let t = spec_text(lang, TextKey::Connected);
    let p = spec_first_line(t);
    lemma_first_line_prefix(t);
    lemma_connected_first_line(lang);
    reveal_strlit("{}");
    let from = placeholder();
    assert(from[0] == '{');
    let a = spec_replace(t, from, info.server_address@);
    lemma_replace_keeps_prefix(p, t, from, info.server_address@);
    let b = spec_replace(a, from, spec_decimal(info.ssh_port as nat));
    lemma_replace_keeps_prefix(p, a, from, spec_decimal(info.ssh_port as nat));
    let auth = spec_text(lang, auth_method_key(info.use_key_auth));
    let c = spec_replace(b, from, auth);
    lemma_replace_keeps_prefix(p, b, from, auth);
    lemma_replace_keeps_prefix(p, c, from, spec_decimal(info.local_port as nat));
}

/// The message after a failed start is never recognised as "connected".
pub proof fn lemma_failed_message_not_recognized(lang: Language, error: Seq<char>)
    ensures
        !spec_is_connected_status(spec_failed_message(lang, error), lang),
{
    let t = spec_text(lang, TextKey::ConnectionFailed);
    reveal_strlit("连接失败：{}");
    reveal_strlit("Connection failed: {}");
    reveal_strlit("{}");
    let p = t.take(1);
    assert(lacks_char(p, '{'));
    lemma_replace_keeps_prefix(p, t, placeholder(), error);
    let m = spec_failed_message(lang, error);
    assert(m[0] == p[0]);
    lemma_connected_first_line(lang);
    let head = spec_first_line(spec_text(lang, TextKey::Connected));
    if is_prefix(head, m) {
        assert(m.take(head.len() as int)[0] == m[0]);
    }
}

proof fn lemma_connected_text_chinese(server: Seq<char>)
    requires
        lacks_char(server, '{'),
    ensures
        spec_replace(spec_text(Language::Chinese, TextKey::Connected), placeholder(), server) == "服务器连接成功\n服务器："@ + (server + (":"@ + (server + ("\n认证方式："@ + (server + ("\n本地端口："@ + (server + (" 已开启 SOCKS5 代理"@)))))))),
        lacks_char("服务器连接成功\n服务器："@ + (server + (":"@ + (server + ("\n认证方式："@ + (server + ("\n本地端口："@ + (server + (" 已开启 SOCKS5 代理"@)))))))), '{'),
{
    reveal_strlit("{}");
    reveal_strlit("服务器连接成功\n服务器：{}:{}\n认证方式：{}\n本地端口：{} 已开启 SOCKS5 代理");
    reveal_strlit("服务器连接成功\n服务器：");
    assert(lacks_char("服务器连接成功\n服务器："@, '{'));
    reveal_strlit(":");
    assert(lacks_char(":"@, '{'));
    reveal_strlit("\n认证方式：");
    assert(lacks_char("\n认证方式："@, '{'));
    reveal_strlit("\n本地端口：");
    assert(lacks_char("\n本地端口："@, '{'));
    reveal_strlit(" 已开启 SOCKS5 代理");
    assert(lacks_char(" 已开启 SOCKS5 代理"@, '{'));
    let f = placeholder();
    assert(f[0] == '{');
    assert("服务器连接成功\n服务器：{}:{}\n认证方式：{}\n本地端口：{} 已开启 SOCKS5 代理"@ =~= "服务器连接成功\n服务器："@ + (f + (":"@ + (f + ("\n认证方式："@ + (f + ("\n本地端口："@ + (f + (" 已开启 SOCKS5 代理"@)))))))));
    lemma_replace_skip_free("服务器连接成功\n服务器："@, f + (":"@ + (f + ("\n认证方式："@ + (f + ("\n本地端口："@ + (f + (" 已开启 SOCKS5 代理"@))))))), f, server);
    lemma_replace_match(":"@ + (f + ("\n认证方式："@ + (f + ("\n本地端口："@ + (f + (" 已开启 SOCKS5 代理"@)))))), f, server);
    lemma_replace_skip_free(":"@, f + ("\n认证方式："@ + (f + ("\n本地端口："@ + (f + (" 已开启 SOCKS5 代理"@))))), f, server);
    lemma_replace_match("\n认证方式："@ + (f + ("\n本地端口："@ + (f + (" 已开启 SOCKS5 代理"@)))), f, server);
    lemma_replace_skip_free("\n认证方式："@, f + ("\n本地端口："@ + (f + (" 已开启 SOCKS5 代理"@))), f, server);
    lemma_replace_match("\n本地端口："@ + (f + (" 已开启 SOCKS5 代理"@)), f, server);
    lemma_replace_skip_free("\n本地端口："@, f + (" 已开启 SOCKS5 代理"@), f, server);
    lemma_replace_match(" 已开启 SOCKS5 代理"@, f, server);
    lemma_count_none(" 已开启 SOCKS5 代理"@, f);
    lemma_replace_no_occurrence(" 已开启 SOCKS5 代理"@, f, server);
    lemma_lacks_concat(server, " 已开启 SOCKS5 代理"@, '{');
    lemma_lacks_concat("\n本地端口："@, server + (" 已开启 SOCKS5 代理"@), '{');
    lemma_lacks_concat(server, "\n本地端口："@ + (server + (" 已开启 SOCKS5 代理"@)), '{');
    lemma_lacks_concat("\n认证方式："@, server + ("\n本地端口："@ + (server + (" 已开启 SOCKS5 代理"@))), '{');
    lemma_lacks_concat(server, "\n认证方式："@ + (server + ("\n本地端口："@ + (server + (" 已开启 SOCKS5 代理"@)))), '{');
    lemma_lacks_concat(":"@, server + ("\n认证方式："@ + (server + ("\n本地端口："@ + (server + (" 已开启 SOCKS5 代理"@))))), '{');
    lemma_lacks_concat(server, ":"@ + (server + ("\n认证方式："@ + (server + ("\n本地端口："@ + (server + (" 已开启 SOCKS5 代理"@)))))), '{');
    lemma_lacks_concat("服务器连接成功\n服务器："@, server + (":"@ + (server + ("\n认证方式："@ + (server + ("\n本地端口："@ + (server + (" 已开启 SOCKS5 代理"@))))))), '{');
}

proof fn lemma_failed_text_chinese(error: Seq<char>)
    ensures
        spec_failed_message(Language::Chinese, error) == "连接失败："@ + error,
{
    reveal_strlit("{}");
    reveal_strlit("连接失败：{}");
    reveal_strlit("连接失败：");
    reveal_strlit("");
    assert(lacks_char("连接失败："@, '{'));
    let f = placeholder();
    assert(f[0] == '{');
    assert("连接失败：{}"@ =~= "连接失败："@ + (f + ""@));
    lemma_replace_skip_free("连接失败："@, f + ""@, f, error);
    lemma_replace_match(""@, f, error);
    assert(spec_replace(""@, f, error) == ""@);
    assert(error + ""@ =~= error);
}

proof fn lemma_connected_text_english(server: Seq<char>)
    requires
        lacks_char(server, '{'),
    ensures
        spec_replace(spec_text(Language::English, TextKey::Connected), placeholder(), server) == "Server connected successfully\nServer: "@ + (server + (":"@ + (server + ("\nAuth Method: "@ + (server + ("\nLocal Port: "@ + (server + (" SOCKS5 proxy enabled"@)))))))),
        lacks_char("Server connected successfully\nServer: "@ + (server + (":"@ + (server + ("\nAuth Method: "@ + (server + ("\nLocal Port: "@ + (server + (" SOCKS5 proxy enabled"@)))))))), '{'),
{
    reveal_strlit("{}");
    reveal_strlit("Server connected successfully\nServer: {}:{}\nAuth Method: {}\nLocal Port: {} SOCKS5 proxy enabled");
    reveal_strlit("Server connected successfully\nServer: ");
    assert(lacks_char("Server connected successfully\nServer: "@, '{'));
    reveal_strlit(":");
    assert(lacks_char(":"@, '{'));
    reveal_strlit("\nAuth Method: ");
    assert(lacks_char("\nAuth Method: "@, '{'));
    reveal_strlit("\nLocal Port: ");
    assert(lacks_char("\nLocal Port: "@, '{'));
    reveal_strlit(" SOCKS5 proxy enabled");
    assert(lacks_char(" SOCKS5 proxy enabled"@, '{'));
    let f = placeholder();
    assert(f[0] == '{');
    assert("Server connected successfully\nServer: {}:{}\nAuth Method: {}\nLocal Port: {} SOCKS5 proxy enabled"@ =~= "Server connected successfully\nServer: "@ + (f + (":"@ + (f + ("\nAuth Method: "@ + (f + ("\nLocal Port: "@ + (f + (" SOCKS5 proxy enabled"@)))))))));
    lemma_replace_skip_free("Server connected successfully\nServer: "@, f + (":"@ + (f + ("\nAuth Method: "@ + (f + ("\nLocal Port: "@ + (f + (" SOCKS5 proxy enabled"@))))))), f, server);
    lemma_replace_match(":"@ + (f + ("\nAuth Method: "@ + (f + ("\nLocal Port: "@ + (f + (" SOCKS5 proxy enabled"@)))))), f, server);
    lemma_replace_skip_free(":"@, f + ("\nAuth Method: "@ + (f + ("\nLocal Port: "@ + (f + (" SOCKS5 proxy enabled"@))))), f, server);
    lemma_replace_match("\nAuth Method: "@ + (f + ("\nLocal Port: "@ + (f + (" SOCKS5 proxy enabled"@)))), f, server);
    lemma_replace_skip_free("\nAuth Method: "@, f + ("\nLocal Port: "@ + (f + (" SOCKS5 proxy enabled"@))), f, server);
    lemma_replace_match("\nLocal Port: "@ + (f + (" SOCKS5 proxy enabled"@)), f, server);
    lemma_replace_skip_free("\nLocal Port: "@, f + (" SOCKS5 proxy enabled"@), f, server);
    lemma_replace_match(" SOCKS5 proxy enabled"@, f, server);
    lemma_count_none(" SOCKS5 proxy enabled"@, f);
    lemma_replace_no_occurrence(" SOCKS5 proxy enabled"@, f, server);
    lemma_lacks_concat(server, " SOCKS5 proxy enabled"@, '{');
    lemma_lacks_concat("\nLocal Port: "@, server + (" SOCKS5 proxy enabled"@), '{');
    lemma_lacks_concat(server, "\nLocal Port: "@ + (server + (" SOCKS5 proxy enabled"@)), '{');
    lemma_lacks_concat("\nAuth Method: "@, server + ("\nLocal Port: "@ + (server + (" SOCKS5 proxy enabled"@))), '{');
    lemma_lacks_concat(server, "\nAuth Method: "@ + (server + ("\nLocal Port: "@ + (server + (" SOCKS5 proxy enabled"@)))), '{');
    lemma_lacks_concat(":"@, server + ("\nAuth Method: "@ + (server + ("\nLocal Port: "@ + (server + (" SOCKS5 proxy enabled"@))))), '{');
    lemma_lacks_concat(server, ":"@ + (server + ("\nAuth Method: "@ + (server + ("\nLocal Port: "@ + (server + (" SOCKS5 proxy enabled"@)))))), '{');
    lemma_lacks_concat("Server connected successfully\nServer: "@, server + (":"@ + (server + ("\nAuth Method: "@ + (server + ("\nLocal Port: "@ + (server + (" SOCKS5 proxy enabled"@))))))), '{');
}

proof fn lemma_failed_text_english(error: Seq<char>)
    ensures
        spec_failed_message(Language::English, error) == "Connection failed: "@ + error,
{
    reveal_strlit("{}");
    reveal_strlit("Connection failed: {}");
    reveal_strlit("Connection failed: ");
    reveal_strlit("");
    assert(lacks_char("Connection failed: "@, '{'));
    let f = placeholder();
    assert(f[0] == '{');
    assert("Connection failed: {}"@ =~= "Connection failed: "@ + (f + ""@));
    lemma_replace_skip_free("Connection failed: "@, f + ""@, f, error);
    lemma_replace_match(""@, f, error);
    assert(spec_replace(""@, f, error) == ""@);
    assert(error + ""@ =~= error);
}

/// When the server address holds no `{`, the connected message is the
/// template with the server address in each of its four places; the SSH
/// port, method and local port never appear.
pub proof fn lemma_connected_message_text(lang: Language, info: ConnectionInfo)
    requires
        lacks_char(info.server_address@, '{'),
    ensures
        spec_connected_message(lang, info) == match lang {
            Language::Chinese => "服务器连接成功\n服务器："@ + (info.server_address@ + (":"@ + (info.server_address@ + ("\n认证方式："@ + (info.server_address@ + ("\n本地端口："@ + (info.server_address@ + (" 已开启 SOCKS5 代理"@)))))))),
            Language::English => "Server connected successfully\nServer: "@ + (info.server_address@ + (":"@ + (info.server_address@ + ("\nAuth Method: "@ + (info.server_address@ + ("\nLocal Port: "@ + (info.server_address@ + (" SOCKS5 proxy enabled"@)))))))),
        },
{
    let s = info.server_address@;
    let a = spec_replace(spec_text(lang, TextKey::Connected), placeholder(), s);
    match lang {
        Language::Chinese => lemma_connected_text_chinese(s),
        Language::English => lemma_connected_text_english(s),
    }
    reveal_strlit("{}");
    assert(placeholder()[0] == '{');
    lemma_count_none(a, placeholder());
    lemma_replace_no_occurrence(a, placeholder(), spec_decimal(info.ssh_port as nat));
    lemma_replace_no_occurrence(a, placeholder(), spec_text(lang, auth_method_key(info.use_key_auth)));
    lemma_replace_no_occurrence(a, placeholder(), spec_decimal(info.local_port as nat));
}

/// The failure message is the fixed opening of the failure text followed by
/// the error's text, whatever that text is.
pub proof fn lemma_failed_message_text(lang: Language, error: Seq<char>)
    ensures
        spec_failed_message(lang, error) == match lang {
            Language::Chinese => "连接失败："@ + error,
            Language::English => "Connection failed: "@ + error,
        },
{
    match lang {
        Language::Chinese => lemma_failed_text_chinese(error),
        Language::English => lemma_failed_text_english(error),
    }
}

} // verus!
