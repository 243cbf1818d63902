use vstd::prelude::*;
use vstd::string::*;
use crate::config::{login_pair, FtpSender};
use crate::text::{base_name, last_component};

verus! {

/// Why an upload failed.
#[derive(Clone, Copy, Debug, PartialEq, Eq, Structural)]
pub enum ErrorKind {
    /// The source path does not name an existing regular file.
    InvalidSource,
    /// The server could not be reached.
    ConnectionError,
    /// An exchange with the server outlasted the timeout.
    TimeoutError,
    /// The server refused the login.
    AuthError,
    /// The target folder could neither be entered nor created.
    RemoteDirectoryError,
    /// The local file could not be opened or read.
    LocalIoError,
    /// The server refused or broke off the store.
    TransferError,
}

impl ErrorKind {
    /// The stage at which an error of this kind stops an upload.
    pub fn stage(&self) -> (r: &'static str)
        ensures
            r@.len() > 0,
    {
        proof {
            reveal_strlit("checking the source file");
            reveal_strlit("connecting");
            reveal_strlit("waiting for the server");
            reveal_strlit("logging in");
            reveal_strlit("selecting the target folder");
            reveal_strlit("reading the source file");
            reveal_strlit("storing the file");
        }
        match self {
            ErrorKind::InvalidSource => "checking the source file",
            ErrorKind::ConnectionError => "connecting",
            ErrorKind::TimeoutError => "waiting for the server",
            ErrorKind::AuthError => "logging in",
            ErrorKind::RemoteDirectoryError => "selecting the target folder",
            ErrorKind::LocalIoError => "reading the source file",
            ErrorKind::TransferError => "storing the file",
        }
    }
}

/// Where an upload stands.
#[derive(Clone, Copy, Debug, PartialEq, Eq, Structural)]
pub enum Phase {
    Validating,
    Connecting,
    Authenticating,
    EnteringFolder,
    CreatingFolder,
    ReenteringFolder,
    Transferring,
    Closing,
    /// The file was stored; `quit_failed` tells whether the closing of the
    /// session went wrong, which is only worth a warning.
    Done { quit_failed: bool },
    Failed { kind: ErrorKind },
}

/// How the last requested step went.
#[derive(Clone, Debug, PartialEq, Eq)]
pub enum Event {
    /// The source path, made canonical, names a regular file.
    SourceFile { canonical_path: String },
    /// The source path does not exist or is no regular file.
    SourceInvalid,
    /// The step succeeded.
    Completed,
    /// The step outlasted the timeout.
    TimedOut,
    /// The peer refused or broke off the step.
    Rejected,
    /// The local file could not be opened or read.
    LocalReadFailed,
}

/// The step that the caller is to perform next.
#[derive(Clone, Debug, PartialEq, Eq)]
pub enum Action {
    /// Make `path` canonical and tell whether it names a regular file.
    CheckSource { path: String },
    /// Open the control connection, with `timeout_millis` as the read and
    /// write timeout of its socket.
    Connect { host: String, port: u16, timeout_millis: u64 },
    Login { user: String, password: String },
    ChangeDir { folder: String },
    MakeDir { folder: String },
    /// Send the bytes of the local file `source` under the name `file_name`.
    Store { source: String, file_name: String },
    Quit,
    /// Nothing is left to do: the file was stored.
    Succeed { quit_failed: bool },
    /// Nothing is left to do: the upload failed.
    Fail { kind: ErrorKind },
}

/// The state of an upload.
pub struct TransferModel {
    pub host: Seq<char>,
    pub port: u16,
    pub timeout_millis: u64,
    pub user: Seq<char>,
    pub password: Seq<char>,
    /// The source path as given.
    pub source: Seq<char>,
    pub folder: Seq<char>,
    /// The canonical source path, once checked.
    pub located: Seq<char>,
    /// The name under which the file is stored.
    pub file_name: Seq<char>,
    pub phase: Phase,
}

pub open spec fn is_terminal(p: Phase) -> bool {
    p is Done || p is Failed
}

/// The phase that follows `p` when its step succeeds.
pub open spec fn advance(p: Phase) -> Phase {
    match p {
        Phase::Connecting => Phase::Authenticating,
        Phase::Authenticating => Phase::EnteringFolder,
        Phase::EnteringFolder => Phase::Transferring,
        Phase::CreatingFolder => Phase::ReenteringFolder,
        Phase::ReenteringFolder => Phase::Transferring,
        Phase::Transferring => Phase::Closing,
        Phase::Closing => Phase::Done { quit_failed: false },
        _ => p,
    }
}

/// The error that ends an upload whose step in phase `p` went as `e` says.
pub open spec fn failure_kind(p: Phase, e: Event) -> ErrorKind {
    if p is Validating {
        ErrorKind::InvalidSource
    } else if p is Connecting {
        ErrorKind::ConnectionError
    } else if e is TimedOut {
        ErrorKind::TimeoutError
    } else if p is Authenticating {
        ErrorKind::AuthError
    } else if p is Transferring {
        if e is LocalReadFailed {
            ErrorKind::LocalIoError
        } else {
            ErrorKind::TransferError
        }
    } else {
        ErrorKind::RemoteDirectoryError
    }
}

/// The phase that follows `p` when its step went as `e` says, for a phase
/// other than validation.
pub open spec fn next_phase(p: Phase, e: Event) -> Phase {
    if is_terminal(p) {
        p
    } else if e is Completed {
        advance(p)
    } else if p is Closing {
        Phase::Done { quit_failed: true }
    } else if p is EnteringFolder && !(e is TimedOut) {
        Phase::CreatingFolder
    } else {
        Phase::Failed { kind: failure_kind(p, e) }
    }
}

/// The state that follows `m` when its step went as `e` says.
pub open spec fn next(m: TransferModel, e: Event) -> TransferModel {
    if m.phase is Validating {
        match e {
            Event::SourceFile { canonical_path } => if base_name(canonical_path@).len() > 0 {
                TransferModel {
                    located: canonical_path@,
                    file_name: base_name(canonical_path@),
                    phase: Phase::Connecting,
                    ..m
                }
            } else {
                TransferModel { phase: Phase::Failed { kind: ErrorKind::InvalidSource }, ..m }
            },
            _ => TransferModel { phase: Phase::Failed { kind: ErrorKind::InvalidSource }, ..m },
        }
    } else {
        TransferModel { phase: next_phase(m.phase, e), ..m }
    }
}

/// Whether `a` is the step that an upload in state `m` asks for.
pub open spec fn asks(m: TransferModel, a: Action) -> bool {
    match m.phase {
        Phase::Validating => a matches Action::CheckSource { path } && path@ == m.source,
        Phase::Connecting => a matches Action::Connect { host, port, timeout_millis } && host@
            == m.host && port == m.port && timeout_millis == m.timeout_millis,
        Phase::Authenticating => a matches Action::Login { user, password } && user@ == m.user
            && password@ == m.password,
        Phase::EnteringFolder => a matches Action::ChangeDir { folder } && folder@ == m.folder,
        Phase::CreatingFolder => a matches Action::MakeDir { folder } && folder@ == m.folder,
        Phase::ReenteringFolder => a matches Action::ChangeDir { folder } && folder@ == m.folder,
        Phase::Transferring => a matches Action::Store { source, file_name } && source@
            == m.located && file_name@ == m.file_name,
        Phase::Closing => a is Quit,
        Phase::Done { quit_failed } => a == Action::Succeed { quit_failed },
        Phase::Failed { kind } => a == Action::Fail { kind },
    }
}

/// The state in which an upload of `source` into `folder` starts.
pub open spec fn start(s: crate::config::SenderModel, source: Seq<char>, folder: Seq<char>) -> TransferModel {
    TransferModel {
        host: s.host,
        port: s.port,
        timeout_millis: s.timeout_millis,
        user: login_pair(s.username, s.password).0,
        password: login_pair(s.username, s.password).1,
        source,
        folder,
        located: Seq::empty(),
        file_name: Seq::empty(),
        phase: Phase::Validating,
    }
}

/// One upload, from the check of the source file to the end of the session.
pub struct Transfer {
    host: String,
    port: u16,
    timeout_millis: u64,
    user: String,
    password: String,
    source: String,
    folder: String,
    located: String,
    file_name: String,
    phase: Phase,
}

impl View for Transfer {
    type V = TransferModel;

    closed spec fn view(&self) -> TransferModel {
        TransferModel {
            host: self.host@,
            port: self.port,
            timeout_millis: self.timeout_millis,
            user: self.user@,
            password: self.password@,
            source: self.source@,
            folder: self.folder@,
            located: self.located@,
            file_name: self.file_name@,
            phase: self.phase,
        }
    }
}

impl FtpSender {
    /// Starts the upload of the local file `source_file_path` into the
    /// folder `target_folder` of the server. The returned transfer first
    /// asks for the check of the source file, before any connection.
    pub fn send_file(&self, source_file_path: &str, target_folder: &str) -> (r: Transfer)
        ensures
            r@ == start(self@, source_file_path@, target_folder@),
    {
        let (user, password) = self.credentials();
        Transfer {
            host: self.host().clone(),
            port: self.port(),
            timeout_millis: self.timeout_millis(),
            user,
            password,
            source: source_file_path.to_string(),
            folder: target_folder.to_string(),
            located: String::new(),
            file_name: String::new(),
            phase: Phase::Validating,
        }
    }
}

impl Transfer {
    pub fn phase(&self) -> (r: Phase)
        ensures
            r == self@.phase,
    {
        self.phase
    }

    /// The step to perform now.
    pub fn request(&self) -> (a: Action)
        ensures
            asks(self@, a),
    {
        match self.phase {
            Phase::Validating => Action::CheckSource { path: self.source.clone() },
            Phase::Connecting => Action::Connect {
                host: self.host.clone(),
                port: self.port,
                timeout_millis: self.timeout_millis,
            },
            Phase::Authenticating => Action::Login {
                user: self.user.clone(),
                password: self.password.clone(),
            },
            Phase::EnteringFolder => Action::ChangeDir { folder: self.folder.clone() },
            Phase::CreatingFolder => Action::MakeDir { folder: self.folder.clone() },
            Phase::ReenteringFolder => Action::ChangeDir { folder: self.folder.clone() },
            Phase::Transferring => Action::Store {
                source: self.located.clone(),
                file_name: self.file_name.clone(),
            },
            Phase::Closing => Action::Quit,
            Phase::Done { quit_failed } => Action::Succeed { quit_failed },
            Phase::Failed { kind } => Action::Fail { kind },
        }
    }

    /// Takes in how the last requested step went, and returns the next step.
    pub fn step(&mut self, e: Event) -> (a: Action)
        ensures
            final(self)@ == next(old(self)@, e),
            asks(final(self)@, a),
    {
        let ghost e0 = e;
        match self.phase {
            Phase::Validating => {
                match e {
                    Event::SourceFile { canonical_path } => {
                        let name = last_component(canonical_path.as_str());
                        if name.unicode_len() > 0 {
                            self.located = canonical_path;
                            self.file_name = name;
                            self.phase = Phase::Connecting;
                        } else {
                            self.phase = Phase::Failed { kind: ErrorKind::InvalidSource };
                        }
                    },
                    _ => {
                        self.phase = Phase::Failed { kind: ErrorKind::InvalidSource };
                    },
                }
            },
            Phase::Done { .. } | Phase::Failed { .. } => {},
            p => {
                self.phase = match e {
                    Event::Completed => match p {
                        Phase::Connecting => Phase::Authenticating,
                        Phase::Authenticating => Phase::EnteringFolder,
                        Phase::CreatingFolder => Phase::ReenteringFolder,
                        Phase::Transferring => Phase::Closing,
                        Phase::Closing => Phase::Done { quit_failed: false },
                        _ => Phase::Transferring,
                    },
                    Event::TimedOut => match p {
                        Phase::Connecting => Phase::Failed { kind: ErrorKind::ConnectionError },
                        Phase::Closing => Phase::Done { quit_failed: true },
                        _ => Phase::Failed { kind: ErrorKind::TimeoutError },
                    },
                    Event::LocalReadFailed if p == Phase::Transferring => {
                        Phase::Failed { kind: ErrorKind::LocalIoError }
                    },
                    _ => match p {
                        Phase::Connecting => Phase::Failed { kind: ErrorKind::ConnectionError },
                        Phase::Authenticating => Phase::Failed { kind: ErrorKind::AuthError },
                        Phase::EnteringFolder => Phase::CreatingFolder,
                        Phase::Transferring => Phase::Failed { kind: ErrorKind::TransferError },
                        Phase::Closing => Phase::Done { quit_failed: true },
                        _ => Phase::Failed { kind: ErrorKind::RemoteDirectoryError },
                    },
                };
            },
        }
        self.request()
    }
}

} // verus!
