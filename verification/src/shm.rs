//! Shared-memory allocator for CPU-path buffers: a fresh, writable,
//! anonymous descriptor, visible only within the current process tree and
//! with no persistent directory entry.
//!
//! The anonymous-memory-file primitive is tried first; a creation
//! interrupted by a signal is retried, and where the primitive is
//! unsupported a named shared-memory object is created exclusively under a
//! time-derived name, which is unlinked at once so no filesystem entry
//! persists. Immutability seals are applied best-effort after creation.

use vstd::prelude::*;

use crate::numerals::decimal_digits;
use crate::numerals::push_decimal;
use crate::types::Error;

verus! {

#[verifier::external_type_specification]
#[verifier::external_body]
pub struct ExOwnedFd(rustix::fd::OwnedFd);

/// Relies on String::push: appends one character.
pub assume_specification[ String::push ](s: &mut String, ch: char)
    ensures
        final(s)@ == old(s)@.push(ch),
;

/// Relies on String::push_str: appends the given string slice.
pub assume_specification[ String::push_str ](s: &mut String, other: &str)
    ensures
        final(s)@ == old(s)@ + other@,
;

/// Outcome of one anonymous-memory-file creation attempt, keeping apart
/// exactly the error classes the retry policy distinguishes.
enum MemfdResult {
    Created(rustix::fd::OwnedFd),
    Interrupted(i32),
    Unsupported,
    Failed(i32),
}

/// Outcome of one exclusive named shared-memory creation attempt.
enum ShmOpenResult {
    Opened(rustix::fd::OwnedFd),
    Exists(i32),
    Interrupted(i32),
    Failed(i32),
}

/// Relies on rustix::fs::memfd_create with CLOEXEC | ALLOW_SEALING: on
/// success, a fresh anonymous descriptor with no directory entry. The arms
/// only tell the errnos of the retry policy apart.
#[verifier::external_body]
fn try_memfd_create(name: &str) -> (r: MemfdResult) {
    match rustix::fs::memfd_create(
        name,
        rustix::fs::MemfdFlags::CLOEXEC | rustix::fs::MemfdFlags::ALLOW_SEALING,
    ) {
        Ok(fd) => MemfdResult::Created(fd),
        Err(e) if e == rustix::io::Errno::INTR => MemfdResult::Interrupted(e.raw_os_error()),
        Err(e) if e == rustix::io::Errno::NOSYS => MemfdResult::Unsupported,
        Err(e) => MemfdResult::Failed(e.raw_os_error()),
    }
}

/// Relies on rustix::fs::fcntl_add_seals with SHRINK | SEAL: the
/// descriptor can no longer be shrunk nor further sealed. Only an
/// optimization, so failure is reported and non-fatal.
#[verifier::external_body]
fn try_add_seals(fd: &rustix::fd::OwnedFd) -> (ok: bool) {
    rustix::fs::fcntl_add_seals(
        fd,
        rustix::fs::SealFlags::SHRINK | rustix::fs::SealFlags::SEAL,
    ).is_ok()
}

/// Relies on rustix::shm::open with CREATE | EXCL | RDWR and user
/// read/write mode: exclusive creation of a named shared-memory object.
/// The arms only tell the errnos of the retry policy apart.
#[verifier::external_body]
fn try_shm_open_excl(name: &str) -> (r: ShmOpenResult) {
    match rustix::shm::open(
        name,
        rustix::shm::OFlags::CREATE | rustix::shm::OFlags::EXCL | rustix::shm::OFlags::RDWR,
        rustix::fs::Mode::RUSR | rustix::fs::Mode::WUSR,
    ) {
        Ok(fd) => ShmOpenResult::Opened(fd),
        Err(e) if e == rustix::io::Errno::EXIST => ShmOpenResult::Exists(e.raw_os_error()),
        Err(e) if e == rustix::io::Errno::INTR => ShmOpenResult::Interrupted(e.raw_os_error()),
        Err(e) => ShmOpenResult::Failed(e.raw_os_error()),
    }
}

/// Relies on rustix::shm::unlink: removes the name from the shared-memory
/// namespace; the already open descriptor stays usable.
#[verifier::external_body]
fn try_shm_unlink(name: &str) -> (r: Result<(), i32>) {
    match rustix::shm::unlink(name) {
        Ok(u) => Ok(u),
        Err(e) => Err(e.raw_os_error()),
    }
}

/// Relies on std::time::SystemTime::now and duration_since(UNIX_EPOCH):
/// `None` when the clock reads before the epoch; a sub-second nanosecond
/// count is below one billion.
#[verifier::external_body]
fn now_subsec_nanos() -> (r: Option<u32>)
    ensures
        r matches Some(n) ==> n < 1000000000,
{
    std::time::SystemTime::now().duration_since(std::time::UNIX_EPOCH).ok().map(
        |d| d.subsec_nanos(),
    )
}

/// The name the fallback namespace path uses for a given clock reading:
/// the fixed prefix, then the nanosecond count in decimal, or "unknown"
/// where the clock cannot say.
pub open spec fn mem_file_handle(nanos: Option<u32>) -> Seq<char> {
    match nanos {
        Some(n) => "/libwayshot-"@ + decimal_digits(n as nat),
        None => "/libwayshot-"@ + "unknown"@,
    }
}

/// Derive a shared-memory object name from the current time's sub-second
/// nanosecond component.
pub fn get_mem_file_handle() -> (r: String)
    ensures
        exists|nanos: Option<u32>| r@ == #[trigger] mem_file_handle(nanos),
{
    let mut s: String = "/libwayshot-".to_owned();
    match now_subsec_nanos() {
        Some(n) => {
            push_decimal(&mut s, n);
            proof {
                assert(s@ == mem_file_handle(Some(n)));
            }
            s
        },
        None => {
            s.push_str("unknown");
            proof {
                assert(s@ == mem_file_handle(None::<u32>));
            }
            s
        },
    }
}

/// How often a creation interrupted by a signal, or a colliding fallback
/// name, is retried before the allocator reports the last OS error.
/// The retries are rare and cheap, so a small bound is plenty.
pub const SHM_RETRY_LIMIT: u32 = 64;

/// Return a descriptor to a fresh anonymous shared-memory file.
///
/// The anonymous-memory-file primitive is preferred; creation interrupted
/// by a signal is retried, and where the primitive is unsupported the named
/// fallback creates an object exclusively, regenerates its name on a
/// collision, and unlinks the name immediately on success so nothing stays
/// visible in the namespace. Any other failure is an allocation error
/// carrying the OS error code; there are no retries beyond the named cases,
/// and those are bounded by `SHM_RETRY_LIMIT`.
pub fn create_shm_fd() -> (r: Result<rustix::fd::OwnedFd, Error>)
    ensures
        r matches Err(e) ==> e is Allocation,
{
    let mut tries: u32 = 0;
    let mut last_errno: i32 = 0;
    let mut unsupported = false;
    while tries < SHM_RETRY_LIMIT
        decreases SHM_RETRY_LIMIT - tries,
    {
        match try_memfd_create("libwayshot") {
            MemfdResult::Created(fd) => {
                let _sealed = try_add_seals(&fd);
                return Ok(fd);
            },
            MemfdResult::Interrupted(errno) => {
                last_errno = errno;
                tries = tries + 1;
            },
            MemfdResult::Unsupported => {
                unsupported = true;
                tries = SHM_RETRY_LIMIT;
            },
            MemfdResult::Failed(errno) => {
                return Err(Error::Allocation(errno));
            },
        }
    }
    if !unsupported {
        return Err(Error::Allocation(last_errno));
    }
    let mut handle: String = get_mem_file_handle();
    tries = 0;
    while tries < SHM_RETRY_LIMIT
        decreases SHM_RETRY_LIMIT - tries,
    {
        match try_shm_open_excl(handle.as_str()) {
            ShmOpenResult::Opened(fd) => {
                match try_shm_unlink(handle.as_str()) {
                    Ok(u) => {
                        return Ok(fd);
                    },
                    Err(errno) => {
                        return Err(Error::Allocation(errno));
                    },
                }
            },
            ShmOpenResult::Exists(errno) => {
                last_errno = errno;
                handle = get_mem_file_handle();
                tries = tries + 1;
            },
            ShmOpenResult::Interrupted(errno) => {
                last_errno = errno;
                tries = tries + 1;
            },
            ShmOpenResult::Failed(errno) => {
                return Err(Error::Allocation(errno));
            },
        }
    }
    Err(Error::Allocation(last_errno))
}

} // verus!
