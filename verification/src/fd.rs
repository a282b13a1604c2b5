//! The descriptor handle: the one owner of a raw descriptor.
use crate::sys::{
    cvt, cvt_size, cvt_unit, cvt_unit_spec, f_dupfd_cloexec, f_getfd, fd_cloexec, fioclex,
    fionbio, makes_cloexec, OsError, SysCall, FD_CLOEXEC, FIOCLEX, FIONBIO, F_DUPFD_CLOEXEC, F_GETFD,
};
use libc::{c_int, ssize_t};
use vstd::prelude::*;

verus! {

/// The largest byte count that one `read` or `write` may ask for: the top of
/// the range of the signed count that the call returns.
pub fn max_len() -> (r: usize)
    ensures
        r == isize::MAX,
{
    <ssize_t>::MAX as usize
}

/// A buffer length cut down to [`max_len`].
pub open spec fn clamp_len(len: usize) -> usize {
    if len <= isize::MAX {
        len
    } else {
        isize::MAX as usize
    }
}

/// Whether descriptor flags, as `fcntl` returned them, hold close-on-exec.
pub open spec fn has_cloexec(flags: c_int) -> bool {
    flags & FD_CLOEXEC != 0
}

/// The integer that `ioctl` is handed to switch nonblocking mode on or off.
pub open spec fn nonblocking_value(nonblocking: bool) -> c_int {
    if nonblocking {
        1
    } else {
        0
    }
}

/// The result of a `read` or `write` that returned `ret`.
pub open spec fn transfer_spec(ret: ssize_t, errno: c_int) -> Result<usize, OsError> {
    if ret == -1 {
        Err(OsError { code: errno })
    } else {
        Ok(ret as usize)
    }
}

/// The result of reading the descriptor flags.
pub open spec fn cloexec_spec(ret: c_int, errno: c_int) -> Result<bool, OsError> {
    if ret == -1 {
        Err(OsError { code: errno })
    } else {
        Ok(has_cloexec(ret))
    }
}

/// Owns one raw descriptor. The value is neither `Clone` nor `Copy`: the
/// descriptor has one owner, and it leaves that owner either through
/// [`FileDesc::release`], which asks for it to be closed, or through
/// [`FileDesc::into_raw`], which hands it to the caller unclosed.
#[derive(Debug)]
pub struct FileDesc(c_int);

impl View for FileDesc {
    type V = c_int;

    /// The descriptor that the handle owns.
    closed spec fn view(&self) -> c_int {
        self.0
    }
}

impl FileDesc {
    /// Takes ownership of `fd`. The caller vouches that `fd` is open and has
    /// no other owner.
    pub fn from_raw(fd: c_int) -> (r: FileDesc)
        ensures
            r@ == fd,
    {
        FileDesc(fd)
    }

    /// The descriptor, which stays owned by the handle.
    pub fn raw(&self) -> (r: c_int)
        ensures
            r == self@,
    {
        self.0
    }

    /// Gives up ownership: the descriptor goes to the caller, and no call to
    /// close it is asked for.
    pub fn into_raw(self) -> (r: c_int)
        ensures
            r == self@,
    {
        self.0
    }

    /// Ends the handle: the call that closes its descriptor. What that call
    /// returns is ignored.
    pub fn release(self) -> (call: SysCall)
        ensures
            call == (SysCall::Close { fd: self@ }),
    {
        SysCall::Close { fd: self.0 }
    }

    /// The call that reads into a buffer of `len` bytes: one `read`, asking
    /// for no more than [`max_len`] bytes.
    pub fn read(&self, len: usize) -> (call: SysCall)
        ensures
            call == (SysCall::Read { fd: self@, count: clamp_len(len) }),
    {
        let limit: usize = max_len();
        let count: usize = if len <= limit { len } else { limit };
        SysCall::Read { fd: self.0, count }
    }

    /// The result of [`FileDesc::read`]: the number of bytes read, `0` at the
    /// end of the stream, or the failure.
    pub fn read_done(ret: ssize_t, errno: c_int) -> (res: Result<usize, OsError>)
        ensures
            res == transfer_spec(ret, errno),
    {
        match cvt_size(ret, errno) {
            Ok(n) => Ok(n as usize),
            Err(e) => Err(e),
        }
    }

    /// The call that writes a buffer of `len` bytes: one `write`, asking for
    /// no more than [`max_len`] bytes.
    pub fn write(&self, len: usize) -> (call: SysCall)
        ensures
            call == (SysCall::Write { fd: self@, count: clamp_len(len) }),
    {
        let limit: usize = max_len();
        let count: usize = if len <= limit { len } else { limit };
        SysCall::Write { fd: self.0, count }
    }

    /// The result of [`FileDesc::write`]: the number of bytes written, which
    /// may be fewer than were offered, or the failure.
    pub fn write_done(ret: ssize_t, errno: c_int) -> (res: Result<usize, OsError>)
        ensures
            res == transfer_spec(ret, errno),
    {
        match cvt_size(ret, errno) {
            Ok(n) => Ok(n as usize),
            Err(e) => Err(e),
        }
    }

    /// The call that reads the descriptor flags.
    pub fn get_cloexec(&self) -> (call: SysCall)
        ensures
            call == (SysCall::Fcntl { fd: self@, cmd: F_GETFD }),
    {
        SysCall::Fcntl { fd: self.0, cmd: f_getfd() }
    }

    /// The result of [`FileDesc::get_cloexec`]: whether the flags that came
    /// back hold close-on-exec.
    pub fn get_cloexec_done(ret: c_int, errno: c_int) -> (res: Result<bool, OsError>)
        ensures
            res == cloexec_spec(ret, errno),
    {
        match cvt(ret, errno) {
            Ok(flags) => Ok((flags & fd_cloexec()) != 0),
            Err(e) => Err(e),
        }
    }

    /// The call that sets close-on-exec.
    pub fn set_cloexec(&self) -> (call: SysCall)
        ensures
            call == (SysCall::Ioctl { fd: self@, request: FIOCLEX }),
    {
        SysCall::Ioctl { fd: self.0, request: fioclex() }
    }

    /// The result of [`FileDesc::set_cloexec`].
    pub fn set_cloexec_done(ret: c_int, errno: c_int) -> (res: Result<(), OsError>)
        ensures
            res == cvt_unit_spec(ret, errno),
    {
        cvt_unit(ret, errno)
    }

    /// The call that switches nonblocking mode on or off.
    pub fn set_nonblocking(&self, nonblocking: bool) -> (call: SysCall)
        ensures
            call == (SysCall::IoctlInt {
                fd: self@,
                request: FIONBIO,
                value: nonblocking_value(nonblocking),
            }),
    {
        let value: c_int = nonblocking as c_int;
        SysCall::IoctlInt { fd: self.0, request: fionbio(), value }
    }

    /// The result of [`FileDesc::set_nonblocking`].
    pub fn set_nonblocking_done(ret: c_int, errno: c_int) -> (res: Result<(), OsError>)
        ensures
            res == cvt_unit_spec(ret, errno),
    {
        cvt_unit(ret, errno)
    }

    /// The call that duplicates the descriptor: the copy is made with
    /// close-on-exec already set, and may take any free number from `0` up.
    pub fn duplicate(&self) -> (call: SysCall)
        ensures
            call == (SysCall::FcntlInt { fd: self@, cmd: F_DUPFD_CLOEXEC, arg: 0 }),
            makes_cloexec(call),
    {
        SysCall::FcntlInt { fd: self.0, cmd: f_dupfd_cloexec(), arg: 0 }
    }

    /// The result of [`FileDesc::duplicate`]: a second handle, which owns the
    /// descriptor that the call returned.
    pub fn duplicate_done(ret: c_int, errno: c_int) -> (res: Result<FileDesc, OsError>)
        ensures
            ret == -1 ==> res is Err && res->Err_0 == (OsError { code: errno }),
            ret != -1 ==> res is Ok && res->Ok_0@ == ret,
    {
        match cvt(ret, errno) {
            Ok(fd) => Ok(FileDesc(fd)),
            Err(e) => Err(e),
        }
    }
}

/// A length that fits in one call is asked for as it is; a longer one is cut
/// to the limit; and cutting twice changes nothing.
pub proof fn lemma_clamp_len(len: usize)
    ensures
        len <= isize::MAX ==> clamp_len(len) == len,
        len > isize::MAX ==> clamp_len(len) == isize::MAX,
        clamp_len(len) <= len,
        clamp_len(clamp_len(len)) == clamp_len(len),
{
}

/// A count that the call returned comes out as the same number: for every
/// `ret` from `0` up, whatever the length asked for, the result is `Ok` of
/// exactly `ret`.
pub proof fn lemma_transfer_keeps_count(ret: ssize_t, errno: c_int)
    requires
        ret >= 0,
    ensures
        transfer_spec(ret, errno) is Ok,
        transfer_spec(ret, errno)->Ok_0 as int == ret as int,
{
}

/// Close-on-exec is read from the lowest flag bit alone: flags with that bit
/// are reported as set, flags without it as clear, whatever else they hold.
pub proof fn lemma_cloexec_bit(flags: c_int)
    ensures
        has_cloexec(flags | FD_CLOEXEC),
        !has_cloexec(flags & !FD_CLOEXEC),
        has_cloexec(flags) <==> flags % 2 != 0,
{
    assert((flags | 1i32) & 1i32 != 0) by (bit_vector);
    assert((flags & !1i32) & 1i32 == 0) by (bit_vector);
    assert((flags & 1i32 != 0) <==> (flags % 2 != 0)) by (bit_vector);
}

} // verus!
