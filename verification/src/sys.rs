//! Trusted probes of the live filesystem. Each function makes exactly one
//! outside call; what comes back depends on the state of the machine, so the
//! verified callers state what holds of every outcome.

use vstd::prelude::*;

verus! {

/// Relies on `std::path::Path::is_symlink`: whether the path currently names
/// a symbolic link. The answer depends on the live filesystem.
#[verifier::external_body]
pub(crate) fn path_is_symlink(p: &String) -> bool {
    std::path::Path::new(p.as_str()).is_symlink()
}

/// Relies on `std::path::Path::read_link`: the target a symbolic link names,
/// or `None` when the path is not a readable symbolic link.
#[verifier::external_body]
pub(crate) fn read_link_string(p: &String) -> Option<String> {
    match std::path::Path::new(p.as_str()).read_link() {
        Ok(t) => Some(t.to_string_lossy().into_owned()),
        Err(_) => None,
    }
}

/// Relies on `std::path::Path::canonicalize`: the absolute path with all
/// symbolic links resolved, or the errno of the failure.
#[verifier::external_body]
pub(crate) fn canonicalize_path(p: &String) -> Result<String, i32> {
    match std::path::Path::new(p.as_str()).canonicalize() {
        Ok(t) => Ok(t.to_string_lossy().into_owned()),
        Err(e) => Err(e.raw_os_error().unwrap_or(0)),
    }
}

/// Relies on `std::path::Path::is_file`: whether the path names a regular
/// file once links are followed.
#[verifier::external_body]
pub(crate) fn path_is_file(p: &String) -> bool {
    std::path::Path::new(p.as_str()).is_file()
}

/// Relies on `nix::unistd::mkdir`: create one directory with the given mode
/// bits, or return the errno of the failure.
#[verifier::external_body]
pub(crate) fn sys_mkdir(p: &String, mode: u32) -> Result<(), i32> {
    match nix::unistd::mkdir(
        std::path::Path::new(p.as_str()),
        nix::sys::stat::Mode::from_bits_truncate(mode),
    ) {
        Ok(()) => Ok(()),
        Err(e) => Err(e as i32),
    }
}

/// Relies on `nix::fcntl::open` with `O_CREAT | O_WRONLY | O_CLOEXEC`: create
/// the path as a writable regular file if it is missing, open the existing
/// file for writing otherwise, or return the errno of the failure. The
/// returned descriptor is dropped, which closes it.
#[verifier::external_body]
pub(crate) fn sys_create_file(p: &String, mode: u32) -> Result<(), i32> {
    match nix::fcntl::open(
        std::path::Path::new(p.as_str()),
        nix::fcntl::OFlag::O_CREAT | nix::fcntl::OFlag::O_WRONLY | nix::fcntl::OFlag::O_CLOEXEC,
        nix::sys::stat::Mode::from_bits_truncate(mode),
    ) {
        Ok(fd) => Ok(drop(fd)),
        Err(e) => Err(e as i32),
    }
}

} // verus!
