//! Probes of the live process and filesystem state. Each probe is a thin
//! trusted wrapper around one OS call; everything a probe result means is
//! decided by verified code elsewhere.

use vstd::prelude::*;

verus! {

/// What an accessibility probe asks for.
#[derive(Debug, Clone, Copy, PartialEq, Eq, Structural)]
pub enum AccessMode {
    Exists,
    Read,
    Write,
}

/// How an accessibility probe came out.
#[derive(Debug, Clone, Copy, PartialEq, Eq, Structural)]
pub enum AccessOutcome {
    /// Access in the requested mode is allowed.
    Granted,
    /// Access is denied for permission reasons.
    Denied,
    /// The path does not exist.
    NotFound,
    /// The filesystem is read-only.
    ReadOnlyFs,
    /// The probe failed for any other reason.
    Failed,
}

/// Relies on nix::unistd::access: asks whether the calling process may
/// access `path` in the given mode, and classifies the errno it reports.
#[verifier::external_body]
pub fn probe_access(path: &str, mode: AccessMode) -> AccessOutcome {
    let flags = match mode {
        AccessMode::Exists => nix::unistd::AccessFlags::F_OK,
        AccessMode::Read => nix::unistd::AccessFlags::R_OK,
        AccessMode::Write => nix::unistd::AccessFlags::W_OK,
    };
    match nix::unistd::access(path, flags) {
        Ok(()) => AccessOutcome::Granted,
        Err(nix::errno::Errno::EACCES) => AccessOutcome::Denied,
        Err(nix::errno::Errno::ENOENT) => AccessOutcome::NotFound,
        Err(nix::errno::Errno::EROFS) => AccessOutcome::ReadOnlyFs,
        Err(_) => AccessOutcome::Failed,
    }
}

/// Relies on nix::sys::stat::stat: the owning uid of `path`, or None when
/// the path cannot be inspected.
#[verifier::external_body]
fn stat_owner_uid(path: &str) -> Option<u32> {
    match nix::sys::stat::stat(path) {
        Ok(st) => Some(st.st_uid),
        Err(_) => None,
    }
}

/// Relies on nix::unistd::Uid::effective: the effective uid of this
/// process; geteuid cannot fail.
#[verifier::external_body]
fn effective_uid() -> u32 {
    nix::unistd::Uid::effective().as_raw()
}

/// Whether `path` exists and is owned by the effective user.
pub fn owner_matches(path: &str) -> bool {
    match stat_owner_uid(path) {
        Some(uid) => uid == effective_uid(),
        None => false,
    }
}

/// Relies on nix::sys::prctl::get_no_new_privs: the no-new-privileges
/// latch of this process, or None when the query fails.
#[verifier::external_body]
pub fn no_new_privs_flag() -> Option<bool> {
    match nix::sys::prctl::get_no_new_privs() {
        Ok(b) => Some(b),
        Err(_) => None,
    }
}

/// Relies on nix::fcntl::open with O_RDONLY: a readable file descriptor
/// for `path`, or None when it cannot be opened.
#[verifier::external_body]
fn open_readonly(path: &str) -> Option<i32> {
    match nix::fcntl::open(path, nix::fcntl::OFlag::O_RDONLY, nix::sys::stat::Mode::empty()) {
        Ok(fd) => Some(fd),
        Err(_) => None,
    }
}

/// Relies on nix::unistd::read: the next bytes from `fd`, empty exactly
/// at end of file, or None when reading fails.
#[verifier::external_body]
fn read_chunk(fd: i32) -> (r: Option<Vec<u8>>)
    ensures
        r matches Some(c) ==> c@.len() <= 4096,
{
    let mut buf = vec![0u8; 4096];
    match nix::unistd::read(fd, &mut buf) {
        Ok(n) => {
            buf.truncate(n);
            Some(buf)
        },
        Err(_) => None,
    }
}

/// Relies on nix::unistd::close: releases `fd`. A failure to close is
/// ignored; nothing is read from the descriptor afterwards.
#[verifier::external_body]
fn close_fd(fd: i32) {
    let _ = nix::unistd::close(fd);
}

/// Reads a whole file of moderate size, or None when it cannot be opened
/// or read. Reading gives up on files beyond a few megabytes; the one
/// file the audit reads is a small in-memory pseudo-file.
pub fn read_small_file(path: &str) -> (r: Option<Vec<u8>>) {
    let fd = match open_readonly(path) {
        Some(fd) => fd,
        None => {
            return None;
        },
    };
    let mut data: Vec<u8> = Vec::new();
    let mut rounds: u16 = 1024;
    while rounds > 0
        decreases rounds,
    {
        rounds = rounds - 1;
        let chunk = read_chunk(fd);
        match chunk {
            None => {
                close_fd(fd);
                return None;
            },
            Some(mut c) => {
                if c.len() == 0 {
                    close_fd(fd);
                    return Some(data);
                }
                data.append(&mut c);
            },
        }
    }
    close_fd(fd);
    None
}

/// Relies on String::from_utf8_lossy: bytes that are all ASCII decode to
/// exactly those characters.
#[verifier::external_body]
pub fn decode_ascii(bytes: &Vec<u8>) -> (r: String)
    ensures
        (forall|i: int| 0 <= i < bytes@.len() ==> bytes@[i] < 128) ==> r@.len() == bytes@.len()
            && (forall|i: int| 0 <= i < bytes@.len() ==> r@[i] == bytes@[i] as char),
{
    String::from_utf8_lossy(bytes).into_owned()
}

} // verus!
