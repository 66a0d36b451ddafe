//! The connection form: what it shows at start and how its fields are checked.
use vstd::prelude::*;
use crate::history::{ConnectionHistory, ConnectionInfo};
use crate::i18n::{spec_text, Language, TextKey, Translations};
use crate::text::{
    all_digits, digits_value, lemma_parse_decimal, parse_u16, spec_decimal, spec_parse_u16,
    u16_to_decimal, unsigned_digits,
};

verus! {

/// The fields of the connection form as the user typed them.
pub struct ConnectionForm {
    pub server_address: String,
    pub ssh_port: String,
    pub username: String,
    pub password: String,
    pub local_port: String,
    pub use_key_auth: bool,
    pub key_path: String,
}

/// Why the form cannot start a connection.
#[derive(Debug, Clone, Copy, PartialEq, Eq, Structural)]
pub enum FormError {
    SshPortNotNumber,
    LocalPortNotNumber,
    ServerAddressEmpty,
    UsernameEmpty,
    KeyPathEmpty,
    PasswordEmpty,
}

/// The first problem of the form, checked in this order: the SSH port, the
/// local port, the server address, the user name, then the key path under
/// key authentication or the password under password authentication.
pub open spec fn spec_form_error(f: ConnectionForm) -> Option<FormError> {
    if spec_parse_u16(f.ssh_port@) is None {
        Some(FormError::SshPortNotNumber)
    } else if spec_parse_u16(f.local_port@) is None {
        Some(FormError::LocalPortNotNumber)
    } else if f.server_address@.len() == 0 {
        Some(FormError::ServerAddressEmpty)
    } else if f.username@.len() == 0 {
        Some(FormError::UsernameEmpty)
    } else if f.use_key_auth && f.key_path@.len() == 0 {
        Some(FormError::KeyPathEmpty)
    } else if !f.use_key_auth && f.password@.len() == 0 {
        Some(FormError::PasswordEmpty)
    } else {
        None
    }
}

/// `info` holds what the form says, with both ports read as numbers.
pub open spec fn info_from_form(info: ConnectionInfo, f: ConnectionForm) -> bool {
    &&& info.server_address@ == f.server_address@
    &&& spec_parse_u16(f.ssh_port@) == Some(info.ssh_port)
    &&& info.username@ == f.username@
    &&& info.password@ == f.password@
    &&& spec_parse_u16(f.local_port@) == Some(info.local_port)
    &&& info.use_key_auth == f.use_key_auth
    &&& info.key_path@ == f.key_path@
}

/// The key path the form shows when nothing else is known.
pub open spec fn spec_default_key_path() -> Seq<char> {
    "~/.ssh/id_ed25519"@
}

/// The form as the window first shows it for `h`: the last connection's
/// settings (keeping the default key path when the saved one is empty), or
/// SSH port 22, local port 1088 and empty fields when there is none.
pub open spec fn is_initial_form(h: ConnectionHistory, f: ConnectionForm) -> bool {
    match h.last_connection {
        Some(last) => {
            &&& f.server_address@ == last.server_address@
            &&& f.ssh_port@ == spec_decimal(last.ssh_port as nat)
            &&& f.username@ == last.username@
            &&& f.password@ == last.password@
            &&& f.local_port@ == spec_decimal(last.local_port as nat)
            &&& f.use_key_auth == last.use_key_auth
            &&& f.key_path@ == if last.key_path@.len() == 0 {
                spec_default_key_path()
            } else {
                last.key_path@
            }
        },
        None => {
            &&& f.server_address@.len() == 0
            &&& f.ssh_port@ == "22"@
            &&& f.username@.len() == 0
            &&& f.password@.len() == 0
            &&& f.local_port@ == "1088"@
            &&& !f.use_key_auth
            &&& f.key_path@ == spec_default_key_path()
        },
    }
}

/// The text that names a form problem.
pub open spec fn error_text_key(e: FormError) -> TextKey {
    match e {
        FormError::SshPortNotNumber => TextKey::ErrorSshPortMustBeNumber,
        FormError::LocalPortNotNumber => TextKey::ErrorLocalPortMustBeNumber,
        FormError::ServerAddressEmpty => TextKey::ErrorServerAddressEmpty,
        FormError::UsernameEmpty => TextKey::ErrorUsernameEmpty,
        FormError::KeyPathEmpty => TextKey::ErrorKeyPathEmpty,
        FormError::PasswordEmpty => TextKey::ErrorPasswordEmpty,
    }
}

/// Checks the form; on success gives the connection settings it describes.
pub fn validate_form(form: &ConnectionForm) -> (res: Result<ConnectionInfo, FormError>)
    ensures
        match res {
            Ok(info) => spec_form_error(*form) is None && info_from_form(info, *form),
            Err(e) => spec_form_error(*form) == Some(e),
        },
{
    let ssh_port = match parse_u16(form.ssh_port.as_str()) {
        Some(p) => p,
        None => {
            return Err(FormError::SshPortNotNumber);
        },
    };
    let local_port = match parse_u16(form.local_port.as_str()) {
        Some(p) => p,
        None => {
            return Err(FormError::LocalPortNotNumber);
        },
    };
    if form.server_address.as_str().is_empty() {
        return Err(FormError::ServerAddressEmpty);
    }
    if form.username.as_str().is_empty() {
        return Err(FormError::UsernameEmpty);
    }
    if form.use_key_auth && form.key_path.as_str().is_empty() {
        return Err(FormError::KeyPathEmpty);
    }
    if !form.use_key_auth && form.password.as_str().is_empty() {
        return Err(FormError::PasswordEmpty);
    }
    Ok(
        ConnectionInfo {
            server_address: form.server_address.clone(),
            ssh_port,
            username: form.username.clone(),
            password: form.password.clone(),
            local_port,
            use_key_auth: form.use_key_auth,
            key_path: form.key_path.clone(),
        },
    )
}

/// Which authentication fields can be edited: the password without key
/// authentication, the key path with it.
pub fn auth_fields_enabled(use_key_auth: bool) -> (res: (bool, bool))
    ensures
        res.0 == !use_key_auth,
        res.1 == use_key_auth,
{
    (!use_key_auth, use_key_auth)
}

/// The message shown for a form problem in `lang`.
pub fn form_error_message(e: FormError, lang: Language) -> (msg: &'static str)
    ensures
        msg@ == spec_text(lang, error_text_key(e)),
{
    let t = Translations::get(lang);
    match e {
        FormError::SshPortNotNumber => t.error_ssh_port_must_be_number,
        FormError::LocalPortNotNumber => t.error_local_port_must_be_number,
        FormError::ServerAddressEmpty => t.error_server_address_empty,
        FormError::UsernameEmpty => t.error_username_empty,
        FormError::KeyPathEmpty => t.error_key_path_empty,
        FormError::PasswordEmpty => t.error_password_empty,
    }
}

/// The form the window shows first, filled from the saved history.
pub fn initial_form(history: &ConnectionHistory) -> (f: ConnectionForm)
    ensures
        is_initial_form(*history, f),
{
    match &history.last_connection {
        Some(last) => {
            let key_path = if last.key_path.as_str().is_empty() {
                "~/.ssh/id_ed25519".to_owned()
            } else {
                last.key_path.clone()
            };
            ConnectionForm {
                server_address: last.server_address.clone(),
                ssh_port: u16_to_decimal(last.ssh_port),
                username: last.username.clone(),
                password: last.password.clone(),
                local_port: u16_to_decimal(last.local_port),
                use_key_auth: last.use_key_auth,
                key_path,
            }
        },
        None => ConnectionForm {
            server_address: String::new(),
            ssh_port: "22".to_owned(),
            username: String::new(),
            password: String::new(),
            local_port: "1088".to_owned(),
            use_key_auth: false,
            key_path: "~/.ssh/id_ed25519".to_owned(),
        },
    }
}

/// The saved last connection comes back unchanged when the first form is
/// submitted, provided that connection had passed the form's checks and
/// its key path was not empty.
pub proof fn lemma_initial_form_round_trip(h: ConnectionHistory, f: ConnectionForm)
    requires
        is_initial_form(h, f),
        h.last_connection is Some,
        h.last_connection->0.server_address@.len() > 0,
        h.last_connection->0.username@.len() > 0,
        h.last_connection->0.key_path@.len() > 0,
        h.last_connection->0.use_key_auth || h.last_connection->0.password@.len() > 0,
    ensures
        spec_form_error(f) is None,
        info_from_form(h.last_connection->0, f),
{
    let last = h.last_connection->0;
    lemma_parse_decimal(last.ssh_port);
    lemma_parse_decimal(last.local_port);
}

/// An accepted form has a server address, a user name, two numeric ports,
/// and the credential its method needs: a key path under key
/// authentication, a password otherwise.
pub proof fn lemma_accepted_form_complete(f: ConnectionForm)
    requires
        spec_form_error(f) is None,
    ensures
        f.server_address@.len() > 0,
        f.username@.len() > 0,
        spec_parse_u16(f.ssh_port@) is Some,
        spec_parse_u16(f.local_port@) is Some,
        f.use_key_auth ==> f.key_path@.len() > 0,
        !f.use_key_auth ==> f.password@.len() > 0,
{
}

/// Each problem is reported exactly when it is the first one in the order
/// SSH port, local port, server address, user name, credential; the
/// authentication method matters only for the credential.
pub proof fn lemma_form_error_order(f: ConnectionForm)
    ensures
        (spec_parse_u16(f.ssh_port@) is None) <==> spec_form_error(f) == Some(
            FormError::SshPortNotNumber,
        ),
        (spec_parse_u16(f.ssh_port@) is Some && spec_parse_u16(f.local_port@) is None)
            <==> spec_form_error(f) == Some(FormError::LocalPortNotNumber),
        (spec_parse_u16(f.ssh_port@) is Some && spec_parse_u16(f.local_port@) is Some
            && f.server_address@.len() == 0) <==> spec_form_error(f) == Some(
            FormError::ServerAddressEmpty,
        ),
        (spec_parse_u16(f.ssh_port@) is Some && spec_parse_u16(f.local_port@) is Some
            && f.server_address@.len() > 0 && f.username@.len() == 0) <==> spec_form_error(f)
            == Some(FormError::UsernameEmpty),
        spec_form_error(f) == Some(FormError::KeyPathEmpty) ==> f.use_key_auth
            && f.key_path@.len() == 0,
        spec_form_error(f) == Some(FormError::PasswordEmpty) ==> !f.use_key_auth
            && f.password@.len() == 0,
{
}

/// Without a saved connection the first form reads as SSH port 22 and local
/// port 1088, and submitting it untouched asks for a server address.
pub proof fn lemma_initial_form_without_history(h: ConnectionHistory, f: ConnectionForm)
    requires
        is_initial_form(h, f),
        h.last_connection is None,
    ensures
        spec_parse_u16(f.ssh_port@) == Some(22u16),
        spec_parse_u16(f.local_port@) == Some(1088u16),
        spec_form_error(f) == Some(FormError::ServerAddressEmpty),
{
    reveal_strlit("22");
    reveal_strlit("1088");
    let a = "22"@;
    let b = "1088"@;
    assert(a.len() == 2 && a[0] == '2' && a[1] == '2');
    assert(b.len() == 4 && b[0] == '1' && b[1] == '0' && b[2] == '8' && b[3] == '8');
    assert(unsigned_digits(a) == a);
    assert(unsigned_digits(b) == b);
    assert(all_digits(a));
    assert(all_digits(b));
    assert(a.drop_last() =~= seq!['2']);
    assert(seq!['2'].drop_last() =~= Seq::<char>::empty());
    assert(digits_value(Seq::<char>::empty()) == 0);
    assert(digits_value(seq!['2']) == 2);
    assert(digits_value(a) == 22);
    assert(b.drop_last() =~= seq!['1', '0', '8']);
    assert(seq!['1', '0', '8'].drop_last() =~= seq!['1', '0']);
    assert(seq!['1', '0'].drop_last() =~= seq!['1']);
    assert(seq!['1'].drop_last() =~= Seq::<char>::empty());
    assert(digits_value(seq!['1']) == 1);
    assert(digits_value(seq!['1', '0']) == 10);
    assert(digits_value(seq!['1', '0', '8']) == 108);
    assert(digits_value(b) == 1088);
}

} // verus!
