//! Single-instance enforcement: where the lock file and the IPC socket
//! live, the errors, and the message a second instance sends to bring the
//! first one to the front.
//!
//! Locking the file and the socket traffic are left to the caller.
use vstd::prelude::*;

use crate::locations;
use crate::paths::{join_path, path_join};
use crate::text::{push_chars, to_chars};

verus! {

/// Errors of the single-instance lock.
#[derive(Debug, Clone, PartialEq, Eq)]
pub enum SingleInstanceError {
    /// Another instance is already running.
    LockFailed,
    /// A file system error (its message).
    IoError(String),
}

/// The text of an error.
pub open spec fn single_instance_message(e: SingleInstanceError) -> Seq<char> {
    match e {
        SingleInstanceError::LockFailed => "Another instance of Insight Reader is already running"@,
        SingleInstanceError::IoError(m) => "IO error: "@ + m@,
    }
}

impl SingleInstanceError {
    /// The message shown for this error.
    pub fn message(&self) -> (s: String)
        ensures
            s@ == single_instance_message(*self),
    {
        match self {
            SingleInstanceError::LockFailed => "Another instance of Insight Reader is already running".to_owned(),
            SingleInstanceError::IoError(m) => {
                let mut s = "IO error: ".to_owned();
                push_chars(&mut s, to_chars(m.as_str()).as_slice());
                s
            },
        }
    }
}

/// A file of the application's directory under the configuration
/// directory.
pub open spec fn app_config_file(config_dir: Seq<char>, name: Seq<char>) -> Seq<char> {
    path_join(path_join(config_dir, "insight-reader"@), name)
}

pub open spec fn no_config_dir_text() -> Seq<char> {
    "Config directory not found"@
}

fn app_config_file_in(config_dir: &str, name: &str) -> (r: String)
    ensures
        r@ == app_config_file(config_dir@, name@),
{
    let a = join_path(config_dir, "insight-reader");
    join_path(a.as_str(), name)
}

/// The lock file, "insight-reader/.lock" under the configuration directory;
/// an error when there is no configuration directory.
pub fn lock_file_path_in(config_dir: &Option<String>) -> (r: Result<String, SingleInstanceError>)
    ensures
        config_dir is Some <==> r is Ok,
        r is Ok ==> r->Ok_0@ == app_config_file(config_dir.unwrap()@, ".lock"@),
        r is Err ==> (r matches Err(SingleInstanceError::IoError(m)) && m@ == no_config_dir_text()),
{
    match config_dir {
        Some(d) => Ok(app_config_file_in(d.as_str(), ".lock")),
        None => Err(SingleInstanceError::IoError("Config directory not found".to_owned())),
    }
}

/// The lock file under the user's configuration directory (see
/// [`lock_file_path_in`]).
pub fn lock_file_path() -> (r: Result<String, SingleInstanceError>)
    ensures
        r is Ok ==> exists|d: String| r->Ok_0@ == app_config_file(d@, ".lock"@),
        r is Err ==> (r matches Err(SingleInstanceError::IoError(m)) && m@ == no_config_dir_text()),
{
    let dir = locations::config_dir();
    let r = lock_file_path_in(&dir);
    proof {
        if r is Ok {
            let d = dir.unwrap();
            assert(r->Ok_0@ == app_config_file(d@, ".lock"@));
        }
    }
    r
}

/// The IPC socket, "insight-reader/ipc.sock" under the configuration
/// directory; an error when there is no configuration directory.
pub fn ipc_socket_path_in(config_dir: &Option<String>) -> (r: Result<String, String>)
    ensures
        config_dir is Some <==> r is Ok,
        r is Ok ==> r->Ok_0@ == app_config_file(config_dir.unwrap()@, "ipc.sock"@),
        r is Err ==> r->Err_0@ == no_config_dir_text(),
{
    match config_dir {
        Some(d) => Ok(app_config_file_in(d.as_str(), "ipc.sock")),
        None => Err("Config directory not found".to_owned()),
    }
}

/// The IPC socket under the user's configuration directory (see
/// [`ipc_socket_path_in`]).
pub fn ipc_socket_path() -> (r: Result<String, String>)
    ensures
        r is Ok ==> exists|d: String| r->Ok_0@ == app_config_file(d@, "ipc.sock"@),
        r is Err ==> r->Err_0@ == no_config_dir_text(),
{
    let dir = locations::config_dir();
    let r = ipc_socket_path_in(&dir);
    proof {
        if r is Ok {
            let d = dir.unwrap();
            assert(r->Ok_0@ == app_config_file(d@, "ipc.sock"@));
        }
    }
    r
}

/// The message that asks the running instance to come to the front:
/// "BRING_TO_FRONT" in ASCII.
pub open spec fn bring_to_front_bytes() -> Seq<u8> {
    seq![66u8, 82, 73, 78, 71, 95, 84, 79, 95, 70, 82, 79, 78, 84]
}

/// The bytes of the bring-to-front message.
pub fn bring_to_front_message() -> (r: Vec<u8>)
    ensures
        r@ == bring_to_front_bytes(),
{
    let r: Vec<u8> = vec![66u8, 82, 73, 78, 71, 95, 84, 79, 95, 70, 82, 79, 78, 84];
    assert(r@ =~= bring_to_front_bytes());
    r
}

/// Whether bytes read from a connection start with the bring-to-front
/// message.
pub open spec fn is_bring_to_front(received: Seq<u8>) -> bool {
    received.len() >= bring_to_front_bytes().len()
        && received.take(bring_to_front_bytes().len() as int) == bring_to_front_bytes()
}

/// Whether a new instance asked to bring this one to the front: `received`
/// is what was read from a pending connection (nothing when there was no
/// connection or the read failed).
pub fn try_recv_bring_to_front(received: &Option<Vec<u8>>) -> (r: bool)
    ensures
        r == match *received {
            Some(b) => is_bring_to_front(b@),
            None => false,
        },
{
    match received {
        None => false,
        Some(b) => {
            let m = bring_to_front_message();
            if b.len() < m.len() {
                return false;
            }
            let mut i: usize = 0;
            while i < m.len()
                invariant
                    *received == Some(*b),
                    m@ == bring_to_front_bytes(),
                    m@.len() <= b@.len(),
                    i <= m@.len(),
                    forall|k: int| 0 <= k < i ==> b@[k] == m@[k],
                decreases m.len() - i,
            {
                if b[i] != m[i] {
                    assert(b@.take(m@.len() as int)[i as int] != m@[i as int]);
                    return false;
                }
                i += 1;
            }
            assert(b@.take(m@.len() as int) =~= m@);
            true
        },
    }
}

} // verus!
