//! The ssh command line that opens the SOCKS5 tunnel.
use vstd::prelude::*;
use crate::history::ConnectionInfo;
use crate::text::{lemma_parse_decimal, spec_decimal, spec_parse_u16, u16_to_decimal};

verus! {

/// A program to run and its arguments.
pub struct SshCommand {
    pub program: String,
    pub args: Vec<String>,
}

/// The home directory text used to expand `~`: the known home, else `.`.
pub open spec fn spec_home_text(home: Option<Seq<char>>) -> Seq<char> {
    match home {
        Some(h) => h,
        None => "."@,
    }
}

/// A key path with a leading `~` replaced by the home directory.
pub open spec fn spec_expand_key_path(key_path: Seq<char>, home: Seq<char>) -> Seq<char> {
    if key_path.len() > 0 && key_path[0] == '~' {
        home + key_path.drop_first()
    } else {
        key_path
    }
}

/// `user@host` for the connection.
pub open spec fn spec_destination(info: ConnectionInfo) -> Seq<char> {
    info.username@ + "@"@ + info.server_address@
}

/// The program that the connection runs: `ssh` under key authentication,
/// `sshpass` (which feeds the password to ssh) otherwise.
pub open spec fn spec_program(info: ConnectionInfo) -> Seq<char> {
    if info.use_key_auth {
        "ssh"@
    } else {
        "sshpass"@
    }
}

/// The arguments: `-i <key> -D <local> -p <port> -N user@host` under key
/// authentication, `-p <password> ssh -D <local> -p <port> -N user@host` otherwise.
pub open spec fn spec_args(info: ConnectionInfo, home: Option<Seq<char>>) -> Seq<Seq<char>> {
    let tail = seq![
        "-D"@,
        spec_decimal(info.local_port as nat),
        "-p"@,
        spec_decimal(info.ssh_port as nat),
        "-N"@,
        spec_destination(info),
    ];
    if info.use_key_auth {
        seq!["-i"@, spec_expand_key_path(info.key_path@, spec_home_text(home))] + tail
    } else {
        seq!["-p"@, info.password@, "ssh"@] + tail
    }
}

/// Expands a leading `~` of a key path, as `replacen("~", home, 1)` does on a
/// path that starts with `~`.
pub fn expand_key_path(key_path: &str, home: &str) -> (res: String)
    ensures
        res@ == spec_expand_key_path(key_path@, home@),
{
    let n = key_path.unicode_len();
    if n > 0 && key_path.get_char(0) == '~' {
        let rest = key_path.substring_char(1, n);
        assert(rest@ =~= key_path@.drop_first());
        let mut res = home.to_owned();
        res.append(rest);
        res
    } else {
        key_path.to_owned()
    }
}

/// The command that opens the tunnel for `info`; `home` is the user's home
/// directory when it is known and readable as text.
pub fn ssh_command(info: &ConnectionInfo, home: Option<&str>) -> (cmd: SshCommand)
    ensures
        cmd.program@ == spec_program(*info),
        cmd.args.deep_view() == spec_args(
            *info,
            match home {
                Some(h) => Some(h@),
                None => None,
            },
        ),
{
    let mut args: Vec<String> = Vec::new();
    let program;
    if info.use_key_auth {
        let home_text = match home {
            Some(h) => h,
            None => ".",
        };
        program = "ssh".to_owned();
        args.push("-i".to_owned());
        args.push(expand_key_path(info.key_path.as_str(), home_text));
    } else {
        program = "sshpass".to_owned();
        args.push("-p".to_owned());
        args.push(info.password.clone());
        args.push("ssh".to_owned());
    }
    args.push("-D".to_owned());
    args.push(u16_to_decimal(info.local_port));
    args.push("-p".to_owned());
    args.push(u16_to_decimal(info.ssh_port));
    args.push("-N".to_owned());
    let mut destination = info.username.clone();
    destination.append("@");
    destination.append(info.server_address.as_str());
    args.push(destination);
    let ghost h = match home {
        Some(h) => Some(h@),
        None => None,
    };
    assert(args.deep_view() =~= spec_args(*info, h));
    SshCommand { program, args }
}

/// Under key authentication `ssh` gets `-i` and the key file: a path that
/// does not begin with `~` is passed exactly as given, one that does has that
/// `~` replaced by the home directory (`.` when it is unknown). The
/// password is not passed.
pub proof fn lemma_key_auth_arguments(info: ConnectionInfo, home: Option<Seq<char>>)
    requires
        info.use_key_auth,
    ensures
        spec_program(info) == "ssh"@,
        spec_args(info, home).len() == 8,
        spec_args(info, home)[0] == "-i"@,
        !(info.key_path@.len() > 0 && info.key_path@[0] == '~') ==> spec_args(info, home)[1]
            == info.key_path@,
        info.key_path@.len() > 0 && info.key_path@[0] == '~' ==> spec_args(info, home)[1] == (
        match home {
            Some(h) => h,
            None => "."@,
        }) + info.key_path@.skip(1),
{
    assert(info.key_path@.skip(1) =~= info.key_path@.drop_first());
}

/// Without key authentication `sshpass -p <password> ssh` runs ssh, so the
/// password is the second argument and the key path is not used.
pub proof fn lemma_password_arguments(info: ConnectionInfo, home: Option<Seq<char>>)
    requires
        !info.use_key_auth,
    ensures
        spec_program(info) == "sshpass"@,
        spec_args(info, home).len() == 9,
        spec_args(info, home)[0] == "-p"@,
        spec_args(info, home)[1] == info.password@,
        spec_args(info, home)[2] == "ssh"@,
        forall|h: Option<Seq<char>>| spec_args(info, h) == spec_args(info, home),
{
}

/// Whatever the authentication, the command ends with `-D <local port>
/// -p <ssh port> -N user@host`, the ports written so that reading them back
/// gives the configured numbers.
pub proof fn lemma_tunnel_arguments(info: ConnectionInfo, home: Option<Seq<char>>)
    ensures
        ({
            let a = spec_args(info, home);
            let n = a.len();
            &&& n >= 6
            &&& a[n - 6] == "-D"@
            &&& spec_parse_u16(a[n - 5]) == Some(info.local_port)
            &&& a[n - 4] == "-p"@
            &&& spec_parse_u16(a[n - 3]) == Some(info.ssh_port)
            &&& a[n - 2] == "-N"@
            &&& a[n - 1] == info.username@ + "@"@ + info.server_address@
        }),
{
    lemma_parse_decimal(info.local_port);
    lemma_parse_decimal(info.ssh_port);
}

} // verus!
