//! The logic of an SSH dynamic port forwarding tool: the connection form and
//! its checks, the history of servers, the ssh command line, the status
//! messages and the texts of its two interface languages.

pub mod i18n;
pub mod text;
pub mod history;
pub mod form;
pub mod command;
pub mod status;
pub mod session;
