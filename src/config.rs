use vstd::prelude::*;
use vstd::string::*;
use crate::text::{is_blank, is_white};

verus! {

/// The user name and the password of an anonymous login.
pub open spec fn anonymous() -> Seq<char> {
    seq!['a', 'n', 'o', 'n', 'y', 'm', 'o', 'u', 's']
}

/// The login that a session issues: the given credentials where both are
/// present, else the anonymous login.
pub open spec fn login_pair(user: Option<Seq<char>>, password: Option<Seq<char>>) -> (Seq<char>, Seq<char>) {
    match (user, password) {
        (Some(u), Some(p)) => (u, p),
        _ => (anonymous(), anonymous()),
    }
}

pub open spec fn opt_view(o: Option<String>) -> Option<Seq<char>> {
    match o {
        Some(s) => Some(s@),
        None => None,
    }
}

/// What a sender was configured with.
pub struct SenderModel {
    pub host: Seq<char>,
    pub port: u16,
    pub timeout_millis: u64,
    pub username: Option<Seq<char>>,
    pub password: Option<Seq<char>>,
}

/// The connection settings of one upload: server, port, the read and write
/// timeout of the connection, and optional credentials.
pub struct FtpSender {
    host: String,
    port: u16,
    timeout_millis: u64,
    username: Option<String>,
    password: Option<String>,
}

impl View for FtpSender {
    type V = SenderModel;

    closed spec fn view(&self) -> SenderModel {
        SenderModel {
            host: self.host@,
            port: self.port,
            timeout_millis: self.timeout_millis,
            username: opt_view(self.username),
            password: opt_view(self.password),
        }
    }
}

fn owned(s: Option<&str>) -> (r: Option<String>)
    ensures
        r matches Some(t) <==> s matches Some(_),
        r matches Some(t) ==> t@ == s.unwrap()@,
{
    match s {
        Some(t) => Some(t.to_string()),
        None => None,
    }
}

impl FtpSender {
    /// A sender for `host:port` whose connection gives up on a read or a
    /// write after `timeout_millis` milliseconds.
    pub fn new(
        host: &str,
        port: u16,
        timeout_millis: u64,
        username: Option<&str>,
        password: Option<&str>,
    ) -> (r: Self)
        ensures
            r@.host == host@,
            r@.port == port,
            r@.timeout_millis == timeout_millis,
            r@.username == (match username {
                Some(u) => Some(u@),
                None => None::<Seq<char>>,
            }),
            r@.password == (match password {
                Some(p) => Some(p@),
                None => None::<Seq<char>>,
            }),
    {
        FtpSender {
            host: host.to_string(),
            port,
            timeout_millis,
            username: owned(username),
            password: owned(password),
        }
    }

    pub fn host(&self) -> (r: &String)
        ensures
            r@ == self@.host,
    {
        &self.host
    }

    pub fn port(&self) -> (r: u16)
        ensures
            r == self@.port,
    {
        self.port
    }

    pub fn timeout_millis(&self) -> (r: u64)
        ensures
            r == self@.timeout_millis,
    {
        self.timeout_millis
    }

    /// The user name and password to log in with: both given ones, or
    /// `anonymous` for each where either is missing.
    pub fn credentials(&self) -> (r: (String, String))
        ensures
            (r.0@, r.1@) == login_pair(self@.username, self@.password),
    {
        match (&self.username, &self.password) {
            (Some(u), Some(p)) => (u.clone(), p.clone()),
            _ => {
                proof {
                    reveal_strlit("anonymous");
                }
                let user = String::from_str("anonymous");
                let pass = String::from_str("anonymous");
                proof {
                    assert(user@ =~= anonymous());
                }
                (user, pass)
            },
        }
    }
}

/// A required argument that was left blank.
#[derive(Clone, Copy, Debug, PartialEq, Eq, Structural)]
pub enum ArgumentError {
    MissingHost,
    MissingPath,
}

impl ArgumentError {
    pub fn message(&self) -> (r: &'static str)
        ensures
            r@.len() > 0,
    {
        proof {
            reveal_strlit("Host address is required");
            reveal_strlit("File path is required");
        }
        match self {
            ArgumentError::MissingHost => "Host address is required",
            ArgumentError::MissingPath => "File path is required",
        }
    }
}

/// Checks the two required arguments: the host first, then the path of the
/// file to send. One that holds white space only counts as missing.
pub fn check_arguments(host: &str, path: &str) -> (r: Result<(), ArgumentError>)
    ensures
        r == (if forall|i: int| 0 <= i < host@.len() ==> is_white(#[trigger] host@[i]) {
            Err(ArgumentError::MissingHost)
        } else if forall|i: int| 0 <= i < path@.len() ==> is_white(#[trigger] path@[i]) {
            Err(ArgumentError::MissingPath)
        } else {
            Ok(())
        }),
{
    if is_blank(host) {
        Err(ArgumentError::MissingHost)
    } else if is_blank(path) {
        Err(ArgumentError::MissingPath)
    } else {
        Ok(())
    }
}

} // verus!
