//! The socket: a network endpoint that owns one descriptor handle.
use crate::fd::{
    clamp_len, cloexec_spec, nonblocking_value, transfer_spec, FileDesc,
};
use crate::sys::{
    cvt, cvt_unit, cvt_unit_spec, makes_cloexec, so_reuseaddr, sock_cloexec, sol_socket, OsError, SysCall,
    FIOCLEX, FIONBIO, F_GETFD, SOCK_CLOEXEC, SOL_SOCKET, SO_REUSEADDR,
};
use libc::{c_int, socklen_t, ssize_t};
use vstd::prelude::*;

verus! {

/// A socket type with the flag that sets close-on-exec at creation.
pub open spec fn with_cloexec(ty: c_int) -> c_int {
    ty | SOCK_CLOEXEC
}

/// The payload length that goes into an option call for a value of type `T`.
pub open spec fn opt_len<T>() -> socklen_t {
    vstd::layout::size_of::<T>() as usize as socklen_t
}

/// Whether a payload length that the operating system reported is the size
/// of `T`.
pub open spec fn len_matches<T>(len: socklen_t) -> bool {
    len as usize as nat == vstd::layout::size_of::<T>()
}

/// The result of reading an option into `slot`, for a reported length that
/// matches.
pub open spec fn getsockopt_spec<T>(ret: c_int, errno: c_int, slot: T) -> Result<T, OsError> {
    if ret == -1 {
        Err(OsError { code: errno })
    } else {
        Ok(slot)
    }
}

/// A network endpoint: unconnected, listening or connected. Which of these it
/// is, the socket does not record; an operation that does not fit the state
/// fails in the operating system, and that failure is what the `_done` half
/// returns.
pub struct Socket(FileDesc);

impl View for Socket {
    type V = c_int;

    /// The descriptor of the handle that the socket owns.
    closed spec fn view(&self) -> c_int {
        self.0@
    }
}

impl Socket {
    /// The call that creates a socket. Close-on-exec is asked for in the
    /// same call, so that the descriptor never exists without it.
    pub fn new(family: c_int, ty: c_int, protocol: c_int) -> (call: SysCall)
        ensures
            call == (SysCall::Socket { family, ty: with_cloexec(ty), protocol }),
            makes_cloexec(call),
    {
        assert((ty | 0x80000i32) & 0x80000i32 == 0x80000i32) by (bit_vector);
        SysCall::Socket { family, ty: ty | sock_cloexec(), protocol }
    }

    /// The result of [`Socket::new`]: a socket that owns the descriptor that
    /// the call returned.
    pub fn new_done(ret: c_int, errno: c_int) -> (res: Result<Socket, OsError>)
        ensures
            ret == -1 ==> res is Err && res->Err_0 == (OsError { code: errno }),
            ret != -1 ==> res is Ok && res->Ok_0@ == ret,
    {
        match cvt(ret, errno) {
            Ok(fd) => Ok(Socket(FileDesc::from_raw(fd))),
            Err(e) => Err(e),
        }
    }

    /// Takes ownership of `fd` as a socket. The caller vouches that `fd` is
    /// an open socket and has no other owner.
    pub fn from_raw(fd: c_int) -> (r: Socket)
        ensures
            r@ == fd,
    {
        Socket(FileDesc::from_raw(fd))
    }

    /// The descriptor, which stays owned by the socket.
    pub fn as_raw(&self) -> (r: c_int)
        ensures
            r == self@,
    {
        self.0.raw()
    }

    /// Ends the socket: the call that closes the descriptor of its handle.
    pub fn release(self) -> (call: SysCall)
        ensures
            call == (SysCall::Close { fd: self@ }),
    {
        self.0.release()
    }

    /// Binding, first call: address reuse is switched on, always, before the
    /// address is bound. Returns the call and the payload that it passes, the
    /// integer `1`.
    pub fn bind(&self) -> (r: (SysCall, c_int))
        ensures
            r.0 == (SysCall::SetSockOpt {
                fd: self@,
                level: SOL_SOCKET,
                name: SO_REUSEADDR,
                len: 4,
            }),
            r.1 == 1,
    {
        self.setsockopt(sol_socket(), so_reuseaddr(), 1)
    }

    /// Binding, second call: if switching on address reuse failed, binding
    /// fails with that cause and nothing is bound; else the call that binds an
    /// address of `len` bytes.
    pub fn bind_reuse_done(&self, ret: c_int, errno: c_int, len: socklen_t) -> (res: Result<
        SysCall,
        OsError,
    >)
        ensures
            ret == -1 ==> res == Err::<SysCall, OsError>(OsError { code: errno }),
            ret != -1 ==> res == Ok::<SysCall, OsError>(SysCall::Bind { fd: self@, len }),
    {
        match Socket::setsockopt_done(ret, errno) {
            Ok(_) => Ok(SysCall::Bind { fd: self.0.raw(), len }),
            Err(e) => Err(e),
        }
    }

    /// The result of the call that [`Socket::bind_reuse_done`] returned.
    pub fn bind_done(ret: c_int, errno: c_int) -> (res: Result<(), OsError>)
        ensures
            res == cvt_unit_spec(ret, errno),
    {
        cvt_unit(ret, errno)
    }

    /// The call that makes the socket passive, with room for `backlog`
    /// connections that wait to be accepted.
    pub fn listen(&self, backlog: c_int) -> (call: SysCall)
        ensures
            call == (SysCall::Listen { fd: self@, backlog }),
    {
        SysCall::Listen { fd: self.0.raw(), backlog }
    }

    /// The result of [`Socket::listen`].
    pub fn listen_done(ret: c_int, errno: c_int) -> (res: Result<(), OsError>)
        ensures
            res == cvt_unit_spec(ret, errno),
    {
        cvt_unit(ret, errno)
    }

    /// The call that accepts a connection. The new descriptor gets
    /// close-on-exec in the same call; the peer's address goes to the buffer
    /// of whoever performs the call.
    pub fn accept(&self) -> (call: SysCall)
        ensures
            call == (SysCall::Accept4 { fd: self@, flags: SOCK_CLOEXEC }),
            makes_cloexec(call),
    {
        assert(0x80000i32 & 0x80000i32 == 0x80000i32) by (bit_vector);
        SysCall::Accept4 { fd: self.0.raw(), flags: sock_cloexec() }
    }

    /// The result of [`Socket::accept`]: a socket that owns the descriptor
    /// that the call returned.
    pub fn accept_done(ret: c_int, errno: c_int) -> (res: Result<Socket, OsError>)
        ensures
            ret == -1 ==> res is Err && res->Err_0 == (OsError { code: errno }),
            ret != -1 ==> res is Ok && res->Ok_0@ == ret,
    {
        match cvt(ret, errno) {
            Ok(fd) => Ok(Socket(FileDesc::from_raw(fd))),
            Err(e) => Err(e),
        }
    }

    /// The call that connects to an address of `len` bytes.
    pub fn connect(&self, len: socklen_t) -> (call: SysCall)
        ensures
            call == (SysCall::Connect { fd: self@, len }),
    {
        SysCall::Connect { fd: self.0.raw(), len }
    }

    /// The result of [`Socket::connect`].
    pub fn connect_done(ret: c_int, errno: c_int) -> (res: Result<(), OsError>)
        ensures
            res == cvt_unit_spec(ret, errno),
    {
        cvt_unit(ret, errno)
    }

    /// As [`FileDesc::read`], on the socket's handle.
    pub fn read(&self, len: usize) -> (call: SysCall)
        ensures
            call == (SysCall::Read { fd: self@, count: clamp_len(len) }),
    {
        self.0.read(len)
    }

    /// As [`FileDesc::read_done`].
    pub fn read_done(ret: ssize_t, errno: c_int) -> (res: Result<usize, OsError>)
        ensures
            res == transfer_spec(ret, errno),
    {
        FileDesc::read_done(ret, errno)
    }

    /// As [`FileDesc::write`], on the socket's handle.
    pub fn write(&self, len: usize) -> (call: SysCall)
        ensures
            call == (SysCall::Write { fd: self@, count: clamp_len(len) }),
    {
        self.0.write(len)
    }

    /// As [`FileDesc::write_done`].
    pub fn write_done(ret: ssize_t, errno: c_int) -> (res: Result<usize, OsError>)
        ensures
            res == transfer_spec(ret, errno),
    {
        FileDesc::write_done(ret, errno)
    }

    /// As [`FileDesc::set_nonblocking`], on the socket's handle.
    pub fn set_nonblocking(&self, nonblocking: bool) -> (call: SysCall)
        ensures
            call == (SysCall::IoctlInt {
                fd: self@,
                request: FIONBIO,
                value: nonblocking_value(nonblocking),
            }),
    {
        self.0.set_nonblocking(nonblocking)
    }

    /// As [`FileDesc::set_nonblocking_done`].
    pub fn set_nonblocking_done(ret: c_int, errno: c_int) -> (res: Result<(), OsError>)
        ensures
            res == cvt_unit_spec(ret, errno),
    {
        FileDesc::set_nonblocking_done(ret, errno)
    }

    /// As [`FileDesc::get_cloexec`], on the socket's handle.
    pub fn get_cloexec(&self) -> (call: SysCall)
        ensures
            call == (SysCall::Fcntl { fd: self@, cmd: F_GETFD }),
    {
        self.0.get_cloexec()
    }

    /// As [`FileDesc::get_cloexec_done`].
    pub fn get_cloexec_done(ret: c_int, errno: c_int) -> (res: Result<bool, OsError>)
        ensures
            res == cloexec_spec(ret, errno),
    {
        FileDesc::get_cloexec_done(ret, errno)
    }

    /// As [`FileDesc::set_cloexec`], on the socket's handle.
    pub fn set_cloexec(&self) -> (call: SysCall)
        ensures
            call == (SysCall::Ioctl { fd: self@, request: FIOCLEX }),
    {
        self.0.set_cloexec()
    }

    /// As [`FileDesc::set_cloexec_done`].
    pub fn set_cloexec_done(ret: c_int, errno: c_int) -> (res: Result<(), OsError>)
        ensures
            res == cvt_unit_spec(ret, errno),
    {
        FileDesc::set_cloexec_done(ret, errno)
    }

    /// The call that writes `payload` as the value of option `val` at level
    /// `opt`. The payload comes back untouched, for the call to point at; the
    /// call carries its size.
    pub fn setsockopt<T>(&self, opt: c_int, val: c_int, payload: T) -> (r: (SysCall, T))
        ensures
            r.0 == (SysCall::SetSockOpt {
                fd: self@,
                level: opt,
                name: val,
                len: opt_len::<T>(),
            }),
            r.1 == payload,
    {
        let len: socklen_t = core::mem::size_of::<T>() as socklen_t;
        (SysCall::SetSockOpt { fd: self.0.raw(), level: opt, name: val, len }, payload)
    }

    /// The result of [`Socket::setsockopt`].
    pub fn setsockopt_done(ret: c_int, errno: c_int) -> (res: Result<(), OsError>)
        ensures
            res == cvt_unit_spec(ret, errno),
    {
        cvt_unit(ret, errno)
    }

    /// The call that reads option `val` at level `opt` into a slot of type
    /// `T`. The call carries the slot's size.
    pub fn getsockopt<T: Copy>(&self, opt: c_int, val: c_int) -> (call: SysCall)
        ensures
            call == (SysCall::GetSockOpt {
                fd: self@,
                level: opt,
                name: val,
                len: opt_len::<T>(),
            }),
    {
        let len: socklen_t = core::mem::size_of::<T>() as socklen_t;
        SysCall::GetSockOpt { fd: self.0.raw(), level: opt, name: val, len }
    }

    /// The result of [`Socket::getsockopt`]: the slot as the call filled it.
    /// `len` is the payload length that the call reported. A call that
    /// succeeded with a length other than the size of `T` was made with the
    /// wrong type for the option; that case is left out here, and
    /// [`Socket::getsockopt_checked`] tells it apart.
    pub fn getsockopt_done<T: Copy>(ret: c_int, errno: c_int, len: socklen_t, slot: T) -> (res:
        Result<T, OsError>)
        requires
            ret != -1 ==> len_matches::<T>(len),
        ensures
            res == getsockopt_spec(ret, errno, slot),
    {
        match cvt(ret, errno) {
            Ok(_) => Ok(slot),
            Err(e) => Err(e),
        }
    }

    /// [`Socket::getsockopt_done`] behind the test that it leaves to its
    /// caller: `None` when the call succeeded with a payload length other
    /// than the size of `T`, else the result.
    pub fn getsockopt_checked<T: Copy>(ret: c_int, errno: c_int, len: socklen_t, slot: T) -> (res:
        Option<Result<T, OsError>>)
        ensures
            ret != -1 && !len_matches::<T>(len) ==> res is None,
            ret == -1 || len_matches::<T>(len) ==> res == Some(getsockopt_spec(ret, errno, slot)),
    {
        if ret != -1 && len as usize != core::mem::size_of::<T>() {
            None
        } else {
            Some(Socket::getsockopt_done(ret, errno, len, slot))
        }
    }
}

/// Whatever socket type is asked for, the type that goes into the creating
/// call holds the close-on-exec flag, keeps every bit that was asked for,
/// and differs from it in nothing else.
pub proof fn lemma_created_with_cloexec(ty: c_int)
    ensures
        with_cloexec(ty) & SOCK_CLOEXEC == SOCK_CLOEXEC,
        with_cloexec(ty) & ty == ty,
        with_cloexec(ty) & !SOCK_CLOEXEC == ty & !SOCK_CLOEXEC,
        with_cloexec(with_cloexec(ty)) == with_cloexec(ty),
{
    assert((ty | 0x80000i32) & 0x80000i32 == 0x80000i32) by (bit_vector);
    assert((ty | 0x80000i32) & ty == ty) by (bit_vector);
    assert((ty | 0x80000i32) & !0x80000i32 == ty & !0x80000i32) by (bit_vector);
    assert((ty | 0x80000i32) | 0x80000i32 == ty | 0x80000i32) by (bit_vector);
}

/// Writing and reading an option with one type use one payload length; a
/// reported length matches the type only if it is that length; and where the
/// size of the type fits the length field, that length does match.
pub proof fn lemma_option_lengths_agree<T>(len: socklen_t)
    ensures
        len_matches::<T>(len) ==> len == opt_len::<T>(),
        vstd::layout::size_of::<T>() <= u32::MAX ==> len_matches::<T>(opt_len::<T>()),
{
}

/// A value read back with the length it was written with comes out as the
/// slot holds it: where the call succeeds and reports the length that went
/// into it, the result is `Ok` of the slot, for every slot.
pub proof fn lemma_option_round_trip<T>(ret: c_int, errno: c_int, slot: T)
    requires
        ret != -1,
        vstd::layout::size_of::<T>() <= u32::MAX,
    ensures
        len_matches::<T>(opt_len::<T>()),
        getsockopt_spec(ret, errno, slot) == Ok::<T, OsError>(slot),
{
}

} // verus!
