//! The operating-system call surface: the calls that the handle and the
//! socket ask for, the constants that go into them, and the rule that turns a
//! call's return value into a result.
use libc::{c_int, c_ulong, socklen_t, ssize_t};
use vstd::prelude::*;

verus! {

/// Descriptor flag: close the descriptor when the process executes a new program.
pub const FD_CLOEXEC: c_int = 1;

/// `fcntl` command: read the descriptor flags.
pub const F_GETFD: c_int = 1;

/// `fcntl` command: duplicate the descriptor, the copy having close-on-exec set.
pub const F_DUPFD_CLOEXEC: c_int = 1030;

/// `ioctl` request: set close-on-exec.
pub const FIOCLEX: c_ulong = 0x5451;

/// `ioctl` request: set or clear nonblocking mode from an integer.
pub const FIONBIO: c_ulong = 0x5421;

/// Socket-type flag: create the descriptor with close-on-exec set.
pub const SOCK_CLOEXEC: c_int = 0x80000;

/// Option level of the socket layer itself.
pub const SOL_SOCKET: c_int = 1;

/// Socket option: allow a local address to be bound again while an earlier
/// use of it lingers.
pub const SO_REUSEADDR: c_int = 2;

/// Reads `libc::FD_CLOEXEC`. Trusted: on Linux for x86-64 the binding defines it
/// as `1`, the value of [`FD_CLOEXEC`].
#[verifier::external_body]
pub(crate) fn fd_cloexec() -> (r: c_int)
    ensures
        r == FD_CLOEXEC,
{
    libc::FD_CLOEXEC
}

/// Reads `libc::F_GETFD`. Trusted: on Linux for x86-64 the binding defines it
/// as `1`, the value of [`F_GETFD`].
#[verifier::external_body]
pub(crate) fn f_getfd() -> (r: c_int)
    ensures
        r == F_GETFD,
{
    libc::F_GETFD
}

/// Reads `libc::F_DUPFD_CLOEXEC`. Trusted: on Linux for x86-64 the binding defines it
/// as `1030`, the value of [`F_DUPFD_CLOEXEC`].
#[verifier::external_body]
pub(crate) fn f_dupfd_cloexec() -> (r: c_int)
    ensures
        r == F_DUPFD_CLOEXEC,
{
    libc::F_DUPFD_CLOEXEC
}

/// Reads `libc::FIOCLEX`. Trusted: on Linux for x86-64 the binding defines it
/// as `0x5451`, the value of [`FIOCLEX`].
#[verifier::external_body]
pub(crate) fn fioclex() -> (r: c_ulong)
    ensures
        r == FIOCLEX,
{
    libc::FIOCLEX
}

/// Reads `libc::FIONBIO`. Trusted: on Linux for x86-64 the binding defines it
/// as `0x5421`, the value of [`FIONBIO`].
#[verifier::external_body]
pub(crate) fn fionbio() -> (r: c_ulong)
    ensures
        r == FIONBIO,
{
    libc::FIONBIO
}

/// Reads `libc::SOCK_CLOEXEC`. Trusted: on Linux for x86-64 the binding defines it
/// as `0o2000000`, the value of [`SOCK_CLOEXEC`].
#[verifier::external_body]
pub(crate) fn sock_cloexec() -> (r: c_int)
    ensures
        r == SOCK_CLOEXEC,
{
    libc::SOCK_CLOEXEC
}

/// Reads `libc::SOL_SOCKET`. Trusted: on Linux for x86-64 the binding defines it
/// as `1`, the value of [`SOL_SOCKET`].
#[verifier::external_body]
pub(crate) fn sol_socket() -> (r: c_int)
    ensures
        r == SOL_SOCKET,
{
    libc::SOL_SOCKET
}

/// Reads `libc::SO_REUSEADDR`. Trusted: on Linux for x86-64 the binding defines it
/// as `2`, the value of [`SO_REUSEADDR`].
#[verifier::external_body]
pub(crate) fn so_reuseaddr() -> (r: c_int)
    ensures
        r == SO_REUSEADDR,
{
    libc::SO_REUSEADDR
}

/// An operating-system call with every scalar argument it takes.
///
/// The memory that a call reads or fills (a buffer, an address, an option's
/// payload) stays with whoever performs the call; the call carries its length.
#[derive(Clone, Copy, Debug, PartialEq, Eq)]
pub enum SysCall {
    /// `read(fd, buffer, count)`.
    Read { fd: c_int, count: usize },
    /// `write(fd, buffer, count)`.
    Write { fd: c_int, count: usize },
    /// `fcntl(fd, cmd)`.
    Fcntl { fd: c_int, cmd: c_int },
    /// `fcntl(fd, cmd, arg)`.
    FcntlInt { fd: c_int, cmd: c_int, arg: c_int },
    /// `ioctl(fd, request)`.
    Ioctl { fd: c_int, request: c_ulong },
    /// `ioctl(fd, request, &value)`: the third argument is the address of an
    /// integer that holds `value`.
    IoctlInt { fd: c_int, request: c_ulong, value: c_int },
    /// `close(fd)`.
    Close { fd: c_int },
    /// `socket(family, ty, protocol)`.
    Socket { family: c_int, ty: c_int, protocol: c_int },
    /// `setsockopt(fd, level, name, payload, len)`.
    SetSockOpt { fd: c_int, level: c_int, name: c_int, len: socklen_t },
    /// `getsockopt(fd, level, name, slot, &len)`: on entry the integer behind
    /// the last argument holds `len`.
    GetSockOpt { fd: c_int, level: c_int, name: c_int, len: socklen_t },
    /// `bind(fd, address, len)`.
    Bind { fd: c_int, len: socklen_t },
    /// `listen(fd, backlog)`.
    Listen { fd: c_int, backlog: c_int },
    /// `accept4(fd, address, &len, flags)`.
    Accept4 { fd: c_int, flags: c_int },
    /// `connect(fd, address, len)`.
    Connect { fd: c_int, len: socklen_t },
}

/// Whether a call that makes a new descriptor asks, in that same call, for
/// close-on-exec on it. A call that makes no descriptor does not.
pub open spec fn makes_cloexec(call: SysCall) -> bool {
    match call {
        SysCall::Socket { ty, .. } => ty & SOCK_CLOEXEC == SOCK_CLOEXEC,
        SysCall::Accept4 { flags, .. } => flags & SOCK_CLOEXEC == SOCK_CLOEXEC,
        SysCall::FcntlInt { cmd, .. } => cmd == F_DUPFD_CLOEXEC,
        _ => false,
    }
}

/// The one kind of failure: the operating system refused a call. `code` is
/// the cause that it reported.
#[derive(Clone, Copy, Debug, PartialEq, Eq, Structural)]
pub struct OsError {
    pub code: c_int,
}

/// What a call's return value means: `-1` is failure with the reported
/// cause, anything else is the value itself.
pub open spec fn cvt_spec(ret: c_int, errno: c_int) -> Result<c_int, OsError> {
    if ret == -1 {
        Err(OsError { code: errno })
    } else {
        Ok(ret)
    }
}

/// [`cvt_spec`] for the calls that return a byte count.
pub open spec fn cvt_size_spec(ret: ssize_t, errno: c_int) -> Result<ssize_t, OsError> {
    if ret == -1 {
        Err(OsError { code: errno })
    } else {
        Ok(ret)
    }
}

/// [`cvt_spec`] for the calls whose success carries no value.
pub open spec fn cvt_unit_spec(ret: c_int, errno: c_int) -> Result<(), OsError> {
    if ret == -1 {
        Err(OsError { code: errno })
    } else {
        Ok(())
    }
}

/// Turns the return value of a call into a result. `errno` is the cause that
/// the operating system reported for this call; it is looked at only when
/// `ret` is `-1`.
pub fn cvt(ret: c_int, errno: c_int) -> (res: Result<c_int, OsError>)
    ensures
        res == cvt_spec(ret, errno),
{
    if ret == -1 {
        Err(OsError { code: errno })
    } else {
        Ok(ret)
    }
}

/// [`cvt`] for the calls that return a byte count.
pub fn cvt_size(ret: ssize_t, errno: c_int) -> (res: Result<ssize_t, OsError>)
    ensures
        res == cvt_size_spec(ret, errno),
{
    if ret == -1 {
        Err(OsError { code: errno })
    } else {
        Ok(ret)
    }
}

/// [`cvt`] for the calls whose success carries no value.
pub fn cvt_unit(ret: c_int, errno: c_int) -> (res: Result<(), OsError>)
    ensures
        res == cvt_unit_spec(ret, errno),
{
    match cvt(ret, errno) {
        Ok(_) => Ok(()),
        Err(e) => Err(e),
    }
}

/// A failed call is reported with exactly the cause that was handed in, and
/// a call fails exactly when it returned `-1`.
pub proof fn lemma_cvt_keeps_cause(ret: c_int, errno: c_int)
    ensures
        cvt_spec(ret, errno) is Err <==> ret == -1,
        cvt_spec(ret, errno) is Err ==> cvt_spec(ret, errno)->Err_0.code == errno,
        cvt_spec(ret, errno) is Ok ==> cvt_spec(ret, errno)->Ok_0 == ret,
        cvt_unit_spec(ret, errno) is Err <==> cvt_spec(ret, errno) is Err,
{
}

} // verus!
