//! The state of one run of the window: the language, the server history as
//! it grows during the run, and which of the two buttons can be clicked.
use vstd::prelude::*;
use crate::command::{spec_args, spec_program, ssh_command, SshCommand};
use crate::form::{
    error_text_key, form_error_message, info_from_form, spec_form_error, validate_form,
    ConnectionForm, FormError,
};
use crate::history::{spec_record_address, ConnectionHistory, ConnectionInfo};
use crate::i18n::{
    language_button_key, on_language_clicked, spec_text, spec_toggled, Language, TextKey,
    Translations,
};
use crate::status::{buttons_for_status, on_disconnect_clicked, spec_is_connected_status, ButtonStates};

verus! {

/// Something that changes which buttons can be clicked.
#[derive(Debug, Clone, Copy, PartialEq, Eq, Structural)]
pub enum ButtonEvent {
    /// A click on Connect whose form passed the checks.
    ConnectAccepted,
    /// A click on Connect whose form had a problem.
    ConnectRejected,
    /// A status message arrived; `connected` says whether it reports a started tunnel.
    StatusShown { connected: bool },
    /// A click on Disconnect.
    Disconnected,
    /// A click on the language button.
    LanguageSwitched,
}

/// The buttons at start: only Connect can be clicked.
pub open spec fn initial_buttons() -> ButtonStates {
    ButtonStates { connect_enabled: true, disconnect_enabled: false }
}

/// The buttons after one event.
pub open spec fn next_buttons(b: ButtonStates, e: ButtonEvent) -> ButtonStates {
    match e {
        ButtonEvent::ConnectAccepted => ButtonStates {
            connect_enabled: false,
            disconnect_enabled: b.disconnect_enabled,
        },
        ButtonEvent::ConnectRejected => b,
        ButtonEvent::StatusShown { connected } => ButtonStates {
            connect_enabled: !connected,
            disconnect_enabled: connected,
        },
        ButtonEvent::Disconnected => ButtonStates { connect_enabled: true, disconnect_enabled: false },
        ButtonEvent::LanguageSwitched => b,
    }
}

/// The buttons after a sequence of events, the first event first.
pub open spec fn buttons_after(b: ButtonStates, events: Seq<ButtonEvent>) -> ButtonStates
    decreases events.len(),
{
    if events.len() == 0 {
        b
    } else {
        next_buttons(buttons_after(b, events.drop_last()), events.last())
    }
}

/// Connect and Disconnect are not both clickable.
pub open spec fn exclusive(b: ButtonStates) -> bool {
    !(b.connect_enabled && b.disconnect_enabled)
}

/// Whatever happens, Connect and Disconnect are never both clickable.
pub proof fn lemma_buttons_never_both_enabled(events: Seq<ButtonEvent>)
    ensures
        exclusive(buttons_after(initial_buttons(), events)),
    decreases events.len(),
{
    if events.len() > 0 {
        lemma_buttons_never_both_enabled(events.drop_last());
    }
}

/// What a click on the connect button leads to.
pub enum ConnectOutcome {
    /// The form has a problem: nothing starts and the message is shown.
    Rejected { error: FormError, message: &'static str },
    /// The connection starts: the settings, the command to run and the status to show.
    Accepted { info: ConnectionInfo, command: SshCommand, status: &'static str },
}

/// One run of the window.
pub struct Session {
    pub lang: Language,
    pub history: ConnectionHistory,
    pub buttons: ButtonStates,
}

impl Session {
    /// The session at start: Chinese, the saved history, only Connect clickable.
    pub fn new(history: ConnectionHistory) -> (s: Session)
        ensures
            s.lang == Language::Chinese,
            s.history == history,
            s.buttons == initial_buttons(),
    {
        Session {
            lang: Language::Chinese,
            history,
            buttons: ButtonStates { connect_enabled: true, disconnect_enabled: false },
        }
    }

    /// A click on the connect button: checks the form; when it is fine, the
    /// connection is added to the session's history (which the caller saves)
    /// and the command to run is built.
    pub fn connect_clicked(&mut self, form: &ConnectionForm, home: Option<&str>) -> (out:
        ConnectOutcome)
        ensures
            final(self).lang == old(self).lang,
            match out {
                ConnectOutcome::Rejected { error, message } => {
                    &&& spec_form_error(*form) == Some(error)
                    &&& message@ == spec_text(old(self).lang, error_text_key(error))
                    &&& final(self).history == old(self).history
                    &&& final(self).buttons == next_buttons(
                        old(self).buttons,
                        ButtonEvent::ConnectRejected,
                    )
                },
                ConnectOutcome::Accepted { info, command, status } => {
                    &&& spec_form_error(*form) is None
                    &&& info_from_form(info, *form)
                    &&& final(self).history.address_texts() == spec_record_address(
                        old(self).history.address_texts(),
                        form.server_address@,
                    )
                    &&& final(self).history.last_connection == Some(info)
                    &&& command.program@ == spec_program(info)
                    &&& command.args.deep_view() == spec_args(
                        info,
                        match home {
                            Some(h) => Some(h@),
                            None => None,
                        },
                    )
                    &&& status@ == spec_text(old(self).lang, TextKey::Connecting)
                    &&& final(self).buttons == next_buttons(
                        old(self).buttons,
                        ButtonEvent::ConnectAccepted,
                    )
                },
            },
    {
        match validate_form(form) {
            Err(error) => ConnectOutcome::Rejected {
                error,
                message: form_error_message(error, self.lang),
            },
            Ok(info) => {
                let command = ssh_command(&info, home);
                let saved = ConnectionInfo {
                    server_address: info.server_address.clone(),
                    ssh_port: info.ssh_port,
                    username: info.username.clone(),
                    password: info.password.clone(),
                    local_port: info.local_port,
                    use_key_auth: info.use_key_auth,
                    key_path: info.key_path.clone(),
                };
                self.history.record_connection(saved);
                self.buttons = ButtonStates {
                    connect_enabled: false,
                    disconnect_enabled: self.buttons.disconnect_enabled,
                };
                let t = Translations::get(self.lang);
                ConnectOutcome::Accepted { info, command, status: t.connecting }
            },
        }
    }

    /// A status message is shown: the buttons follow whether it reports a
    /// started tunnel in the current language.
    pub fn status_shown(&mut self, msg: &str) -> (b: ButtonStates)
        ensures
            final(self).lang == old(self).lang,
            final(self).history == old(self).history,
            final(self).buttons == next_buttons(
                old(self).buttons,
                ButtonEvent::StatusShown { connected: spec_is_connected_status(msg@, old(self).lang) },
            ),
            b == final(self).buttons,
    {
        let b = buttons_for_status(msg, self.lang);
        self.buttons = b;
        b
    }

    /// A click on the disconnect button; gives the status text to show.
    pub fn disconnect_clicked(&mut self) -> (text: &'static str)
        ensures
            final(self).lang == old(self).lang,
            final(self).history == old(self).history,
            final(self).buttons == next_buttons(old(self).buttons, ButtonEvent::Disconnected),
            text@ == spec_text(old(self).lang, TextKey::Disconnected),
    {
        let (b, text) = on_disconnect_clicked(self.lang);
        self.buttons = b;
        text
    }

    /// A click on the language button; gives the button's new label.
    pub fn language_clicked(&mut self) -> (label: &'static str)
        ensures
            final(self).lang == spec_toggled(old(self).lang),
            final(self).history == old(self).history,
            final(self).buttons == next_buttons(old(self).buttons, ButtonEvent::LanguageSwitched),
            label@ == spec_text(final(self).lang, language_button_key(final(self).lang)),
    {
        let (next, label) = on_language_clicked(self.lang);
        self.lang = next;
        label
    }
}

/// A status message decides both buttons alone, whatever they were before:
/// a started tunnel leaves only Disconnect clickable, anything else only
/// Connect. A click on Disconnect leaves only Connect clickable.
pub proof fn lemma_status_decides_buttons(b: ButtonStates, connected: bool)
    ensures
        next_buttons(b, ButtonEvent::StatusShown { connected }).disconnect_enabled == connected,
        next_buttons(b, ButtonEvent::StatusShown { connected }).connect_enabled == !connected,
        next_buttons(b, ButtonEvent::Disconnected).connect_enabled,
        !next_buttons(b, ButtonEvent::Disconnected).disconnect_enabled,
        !next_buttons(b, ButtonEvent::ConnectAccepted).connect_enabled,
        next_buttons(b, ButtonEvent::ConnectAccepted).disconnect_enabled == b.disconnect_enabled,
        next_buttons(b, ButtonEvent::ConnectRejected) == b,
        next_buttons(b, ButtonEvent::LanguageSwitched) == b,
{
}

} // verus!
