use vstd::prelude::*;
use crate::config::{anonymous, SenderModel};
use crate::session::{
    asks, is_terminal, next, start, Action, ErrorKind, Event, Phase, TransferModel,
};
use crate::text::base_name;

verus! {

/// The order in which an upload passes through its phases.
pub open spec fn rank(p: Phase) -> nat {
    match p {
        Phase::Validating => 0,
        Phase::Connecting => 1,
        Phase::Authenticating => 2,
        Phase::EnteringFolder => 3,
        Phase::CreatingFolder => 4,
        Phase::ReenteringFolder => 5,
        Phase::Transferring => 6,
        Phase::Closing => 7,
        Phase::Done { .. } => 8,
        Phase::Failed { .. } => 8,
    }
}

/// No phase is entered twice: every report moves an unfinished upload
/// strictly forward, and a finished one stays as it is.
pub proof fn lemma_no_phase_revisited(m: TransferModel, e: Event)
    ensures
        is_terminal(m.phase) ==> next(m, e) == m,
        !is_terminal(m.phase) ==> rank(next(m, e).phase) > rank(m.phase),
{
}

/// An upload starts by asking for the check of the source path, and a source
/// that is missing or no regular file ends it with `InvalidSource`: no
/// connection is ever asked for.
pub proof fn lemma_invalid_source_fails_early(
    s: SenderModel,
    source: Seq<char>,
    folder: Seq<char>,
    e: Event,
)
    requires
        !(e is SourceFile),
    ensures
        forall|a: Action| asks(start(s, source, folder), a) ==> a is CheckSource,
        next(start(s, source, folder), e).phase == (Phase::Failed {
            kind: ErrorKind::InvalidSource,
        }),
        forall|e2: Event|
            next(next(start(s, source, folder), e), e2) == next(start(s, source, folder), e),
        forall|a: Action|
            asks(next(start(s, source, folder), e), a) ==> a == (Action::Fail {
                kind: ErrorKind::InvalidSource,
            }),
{
}

/// A connection that fails, whatever the cause (refusal, an unknown name,
/// the timeout), ends the upload with `ConnectionError`.
pub proof fn lemma_unreachable_host(m: TransferModel, e: Event)
    requires
        m.phase is Connecting,
        !(e is Completed),
    ensures
        next(m, e).phase == (Phase::Failed { kind: ErrorKind::ConnectionError }),
{
}

/// A refused login ends the upload with `AuthError`, and nothing is stored
/// afterwards, whatever is reported.
pub proof fn lemma_refused_login(m: TransferModel, e: Event)
    requires
        m.phase is Authenticating,
    ensures
        next(m, Event::Rejected).phase == (Phase::Failed { kind: ErrorKind::AuthError }),
        next(next(m, Event::Rejected), e) == next(m, Event::Rejected),
        forall|a: Action| asks(next(next(m, Event::Rejected), e), a) ==> !(a is Store),
{
}

/// A target folder that cannot be entered is created, entered, and the file
/// is then stored there.
pub proof fn lemma_missing_folder_created(m: TransferModel)
    requires
        m.phase is EnteringFolder,
    ensures
        forall|a: Action|
            asks(next(m, Event::Rejected), a) ==> (a matches Action::MakeDir { folder } && folder@
                == m.folder),
        forall|a: Action|
            asks(next(next(m, Event::Rejected), Event::Completed), a) ==> (
            a matches Action::ChangeDir { folder } && folder@ == m.folder),
        next(next(next(m, Event::Rejected), Event::Completed), Event::Completed).phase
            is Transferring,
{
}

/// A target folder that can be entered is not created: the next step is the
/// store.
pub proof fn lemma_present_folder_not_created(m: TransferModel)
    requires
        m.phase is EnteringFolder,
    ensures
        next(m, Event::Completed).phase is Transferring,
        forall|a: Action| asks(next(m, Event::Completed), a) ==> a is Store,
{
}

/// Where every step succeeds, an upload connects to the configured server,
/// enters the target folder, stores the canonical source file under its base
/// name, quits, and ends in success.
pub proof fn lemma_upload_completes(
    s: SenderModel,
    source: Seq<char>,
    folder: Seq<char>,
    canonical_path: String,
)
    requires
        base_name(canonical_path@).len() > 0,
    ensures
        ({
            let m1 = next(start(s, source, folder), Event::SourceFile { canonical_path });
            let m2 = next(m1, Event::Completed);
            let m3 = next(m2, Event::Completed);
            let m4 = next(m3, Event::Completed);
            let m5 = next(m4, Event::Completed);
            let m6 = next(m5, Event::Completed);
            &&& forall|a: Action|
                asks(m1, a) ==> (a matches Action::Connect { host, port, timeout_millis } && host@
                    == s.host && port == s.port && timeout_millis == s.timeout_millis)
            &&& m2.phase is Authenticating
            &&& forall|a: Action|
                asks(m3, a) ==> (a matches Action::ChangeDir { folder: f } && f@ == folder)
            &&& forall|a: Action|
                asks(m4, a) ==> (a matches Action::Store { source: src, file_name } && src@
                    == canonical_path@ && file_name@ == base_name(canonical_path@))
            &&& m5.phase is Closing
            &&& m6.phase == (Phase::Done { quit_failed: false })
        }),
{
}

/// Without both a user name and a password, the login that is asked for is
/// `anonymous` / `anonymous`.
pub proof fn lemma_anonymous_fallback(m: TransferModel, s: SenderModel, source: Seq<char>, folder: Seq<char>, a: Action)
    requires
        s.username is None || s.password is None,
        m.phase is Authenticating,
        m.user == start(s, source, folder).user,
        m.password == start(s, source, folder).password,
        asks(m, a),
    ensures
        a matches Action::Login { user, password } && user@ == anonymous() && password@
            == anonymous(),
{
}

/// The credentials of an upload never change as it proceeds.
pub proof fn lemma_credentials_kept(m: TransferModel, e: Event)
    ensures
        next(m, e).user == m.user,
        next(m, e).password == m.password,
        next(m, e).host == m.host,
        next(m, e).folder == m.folder,
{
}

} // verus!
