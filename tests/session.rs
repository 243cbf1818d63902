use ftp_file_sender::{Action, ErrorKind, Event, FtpSender, Phase, Transfer};

fn sender(user: Option<&str>, pass: Option<&str>) -> FtpSender {
    FtpSender::new("192.168.1.3", 21, 30_000, user, pass)
}

fn to_folder_step(t: &mut Transfer) {
    assert_eq!(
        t.step(Event::SourceFile { canonical_path: "/home/me/report.txt".to_string() }),
        Action::Connect { host: "192.168.1.3".to_string(), port: 21, timeout_millis: 30_000 }
    );
    assert!(matches!(t.step(Event::Completed), Action::Login { .. }));
    assert_eq!(t.step(Event::Completed), Action::ChangeDir { folder: "upload".to_string() });
}

#[test]
fn upload_with_present_folder_succeeds() {
    let s = sender(Some("alice"), Some("secret"));
    let mut t = s.send_file("./report.txt", "upload");
    assert_eq!(t.request(), Action::CheckSource { path: "./report.txt".to_string() });
    assert_eq!(
        t.step(Event::SourceFile { canonical_path: "/home/me/report.txt".to_string() }),
        Action::Connect { host: "192.168.1.3".to_string(), port: 21, timeout_millis: 30_000 }
    );
    assert_eq!(
        t.step(Event::Completed),
        Action::Login { user: "alice".to_string(), password: "secret".to_string() }
    );
    assert_eq!(t.step(Event::Completed), Action::ChangeDir { folder: "upload".to_string() });
    assert_eq!(
        t.step(Event::Completed),
        Action::Store {
            source: "/home/me/report.txt".to_string(),
            file_name: "report.txt".to_string()
        }
    );
    assert_eq!(t.step(Event::Completed), Action::Quit);
    assert_eq!(t.step(Event::Completed), Action::Succeed { quit_failed: false });
    assert_eq!(t.phase(), Phase::Done { quit_failed: false });
}

#[test]
fn missing_source_fails_before_connecting() {
    let mut t = sender(None, None).send_file("./nowhere.txt", "./");
    assert_eq!(t.step(Event::SourceInvalid), Action::Fail { kind: ErrorKind::InvalidSource });
    assert_eq!(t.step(Event::Completed), Action::Fail { kind: ErrorKind::InvalidSource });
    assert_eq!(t.phase(), Phase::Failed { kind: ErrorKind::InvalidSource });
}

#[test]
fn directory_source_is_invalid() {
    let mut t = sender(None, None).send_file("/", "./");
    assert_eq!(
        t.step(Event::SourceFile { canonical_path: "/".to_string() }),
        Action::Fail { kind: ErrorKind::InvalidSource }
    );
}

#[test]
fn unreachable_host_is_connection_error() {
    for e in [Event::Rejected, Event::TimedOut, Event::LocalReadFailed] {
        let mut t = sender(None, None).send_file("a.txt", "./");
        t.step(Event::SourceFile { canonical_path: "/srv/a.txt".to_string() });
        assert_eq!(t.step(e), Action::Fail { kind: ErrorKind::ConnectionError });
    }
}

#[test]
fn refused_login_is_auth_error_and_stores_nothing() {
    let mut t = sender(Some("alice"), Some("wrong")).send_file("a.txt", "./");
    t.step(Event::SourceFile { canonical_path: "/srv/a.txt".to_string() });
    t.step(Event::Completed);
    assert_eq!(t.step(Event::Rejected), Action::Fail { kind: ErrorKind::AuthError });
    assert_eq!(t.step(Event::Completed), Action::Fail { kind: ErrorKind::AuthError });
}

#[test]
fn login_timeout_is_timeout_error() {
    let mut t = sender(None, None).send_file("a.txt", "./");
    t.step(Event::SourceFile { canonical_path: "/srv/a.txt".to_string() });
    t.step(Event::Completed);
    assert_eq!(t.step(Event::TimedOut), Action::Fail { kind: ErrorKind::TimeoutError });
}

#[test]
fn missing_folder_is_created() {
    let mut t = sender(None, None).send_file("report.txt", "upload");
    to_folder_step(&mut t);
    assert_eq!(t.step(Event::Rejected), Action::MakeDir { folder: "upload".to_string() });
    assert_eq!(t.step(Event::Completed), Action::ChangeDir { folder: "upload".to_string() });
    assert!(matches!(t.step(Event::Completed), Action::Store { .. }));
}

#[test]
fn folder_that_cannot_be_created_is_remote_directory_error() {
    let mut t = sender(None, None).send_file("report.txt", "upload");
    to_folder_step(&mut t);
    t.step(Event::Rejected);
    assert_eq!(t.step(Event::Rejected), Action::Fail { kind: ErrorKind::RemoteDirectoryError });
}

#[test]
fn folder_that_cannot_be_reentered_is_remote_directory_error() {
    let mut t = sender(None, None).send_file("report.txt", "upload");
    to_folder_step(&mut t);
    t.step(Event::Rejected);
    t.step(Event::Completed);
    assert_eq!(t.step(Event::Rejected), Action::Fail { kind: ErrorKind::RemoteDirectoryError });
}

#[test]
fn unreadable_local_file_is_local_io_error() {
    let mut t = sender(None, None).send_file("report.txt", "upload");
    to_folder_step(&mut t);
    t.step(Event::Completed);
    assert_eq!(t.step(Event::LocalReadFailed), Action::Fail { kind: ErrorKind::LocalIoError });
}

#[test]
fn refused_store_is_transfer_error() {
    let mut t = sender(None, None).send_file("report.txt", "upload");
    to_folder_step(&mut t);
    t.step(Event::Completed);
    assert_eq!(t.step(Event::Rejected), Action::Fail { kind: ErrorKind::TransferError });
}

#[test]
fn store_timeout_is_timeout_error() {
    let mut t = sender(None, None).send_file("report.txt", "upload");
    to_folder_step(&mut t);
    t.step(Event::Completed);
    assert_eq!(t.step(Event::TimedOut), Action::Fail { kind: ErrorKind::TimeoutError });
}

#[test]
fn failed_quit_still_succeeds_with_warning() {
    let mut t = sender(None, None).send_file("report.txt", "upload");
    to_folder_step(&mut t);
    t.step(Event::Completed);
    t.step(Event::Completed);
    assert_eq!(t.step(Event::Rejected), Action::Succeed { quit_failed: true });
    assert_eq!(t.step(Event::Rejected), Action::Succeed { quit_failed: true });
}

#[test]
fn anonymous_login_without_credentials() {
    for (u, p) in [(None, None), (Some("alice"), None), (None, Some("secret"))] {
        let mut t = sender(u, p).send_file("a.txt", "./");
        t.step(Event::SourceFile { canonical_path: "/srv/a.txt".to_string() });
        assert_eq!(
            t.step(Event::Completed),
            Action::Login { user: "anonymous".to_string(), password: "anonymous".to_string() }
        );
    }
}

#[test]
fn store_sends_the_canonical_source_under_its_name() {
    let mut t = sender(None, None).send_file("../fixtures/./example_file.txt", "./");
    t.step(Event::SourceFile { canonical_path: "/srv/fixtures/example_file.txt".to_string() });
    t.step(Event::Completed);
    t.step(Event::Completed);
    assert_eq!(
        t.step(Event::Completed),
        Action::Store {
            source: "/srv/fixtures/example_file.txt".to_string(),
            file_name: "example_file.txt".to_string()
        }
    );
}

#[test]
fn error_stages_are_named() {
    assert_eq!(ErrorKind::AuthError.stage(), "logging in");
    assert_eq!(ErrorKind::InvalidSource.stage(), "checking the source file");
}
