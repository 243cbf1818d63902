//! Uploads one local file to an FTP server.
//!
//! The library decides; the caller acts. A [`Transfer`] says which
//! step of the upload comes next (check the source, connect, log in, select
//! or create the remote folder, store, quit), and the caller performs it and
//! reports how it went. Every decision of the sequence is verified here.
mod text;
mod config;
mod session;
mod laws;

pub use text::{base_name, is_blank, is_white, last_component};
pub use config::{anonymous, check_arguments, login_pair, opt_view, ArgumentError, FtpSender, SenderModel};
pub use session::{
    advance, asks, failure_kind, is_terminal, next, next_phase, start, Action, ErrorKind, Event,
    Phase, Transfer, TransferModel,
};
pub use laws::{
    lemma_anonymous_fallback, lemma_credentials_kept, lemma_invalid_source_fails_early,
    lemma_missing_folder_created, lemma_no_phase_revisited, lemma_present_folder_not_created,
    lemma_refused_login, lemma_unreachable_host, lemma_upload_completes, rank,
};
