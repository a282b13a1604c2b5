use sockcore::fd::{max_len, FileDesc};
use sockcore::sys::{OsError, SysCall};

#[test]
fn max_len_is_the_top_of_the_signed_range() {
    assert_eq!(max_len(), isize::MAX as usize);
    assert_eq!(max_len(), usize::MAX / 2);
}

#[test]
fn raw_shows_the_descriptor() {
    let h = FileDesc::from_raw(5);
    assert_eq!(h.raw(), 5);
    assert_eq!(h.raw(), 5);
}

#[test]
fn into_raw_hands_the_descriptor_over() {
    let h = FileDesc::from_raw(9);
    assert_eq!(h.into_raw(), 9);
}

#[test]
fn release_closes_the_own_descriptor() {
    assert_eq!(FileDesc::from_raw(9).release(), SysCall::Close { fd: 9 });
    assert_eq!(FileDesc::from_raw(0).release(), SysCall::Close { fd: 0 });
}

#[test]
fn read_asks_for_the_buffer_length() {
    let h = FileDesc::from_raw(4);
    assert_eq!(h.read(64), SysCall::Read { fd: 4, count: 64 });
    assert_eq!(h.read(0), SysCall::Read { fd: 4, count: 0 });
    assert_eq!(h.read(1), SysCall::Read { fd: 4, count: 1 });
}

#[test]
fn read_is_cut_at_the_limit() {
    let h = FileDesc::from_raw(4);
    let top = isize::MAX as usize;
    assert_eq!(h.read(top - 1), SysCall::Read { fd: 4, count: top - 1 });
    assert_eq!(h.read(top), SysCall::Read { fd: 4, count: top });
    assert_eq!(h.read(top + 1), SysCall::Read { fd: 4, count: top });
    assert_eq!(h.read(usize::MAX), SysCall::Read { fd: 4, count: top });
}

#[test]
fn write_is_cut_at_the_limit() {
    let h = FileDesc::from_raw(6);
    let top = isize::MAX as usize;
    assert_eq!(h.write(14), SysCall::Write { fd: 6, count: 14 });
    assert_eq!(h.write(0), SysCall::Write { fd: 6, count: 0 });
    assert_eq!(h.write(top), SysCall::Write { fd: 6, count: top });
    assert_eq!(h.write(top + 1), SysCall::Write { fd: 6, count: top });
    assert_eq!(h.write(usize::MAX), SysCall::Write { fd: 6, count: top });
}

#[test]
fn read_done_gives_the_count() {
    assert_eq!(FileDesc::read_done(14, 0), Ok(14));
    assert_eq!(FileDesc::read_done(isize::MAX, 0), Ok(isize::MAX as usize));
}

#[test]
fn read_done_zero_is_end_of_stream() {
    assert_eq!(FileDesc::read_done(0, 0), Ok(0));
}

#[test]
fn read_done_reports_the_failure() {
    assert_eq!(FileDesc::read_done(-1, libc::EBADF), Err(OsError { code: libc::EBADF }));
    assert_eq!(FileDesc::read_done(-1, libc::EINTR), Err(OsError { code: 4 }));
}

#[test]
fn write_done_gives_a_partial_count() {
    assert_eq!(FileDesc::write_done(11, 0), Ok(11));
    assert_eq!(FileDesc::write_done(3, 0), Ok(3));
    assert_eq!(FileDesc::write_done(0, 0), Ok(0));
    assert_eq!(FileDesc::write_done(-1, libc::EPIPE), Err(OsError { code: 32 }));
}

#[test]
fn transfer_done_keeps_other_negative_values_as_the_cast_gives_them() {
    assert_eq!(FileDesc::read_done(-2, 0), Ok(usize::MAX - 1));
    assert_eq!(FileDesc::write_done(isize::MIN, 0), Ok(isize::MAX as usize + 1));
}

#[test]
fn get_cloexec_reads_the_descriptor_flags() {
    let h = FileDesc::from_raw(3);
    assert_eq!(h.get_cloexec(), SysCall::Fcntl { fd: 3, cmd: libc::F_GETFD });
}

#[test]
fn get_cloexec_done_looks_at_one_bit() {
    assert_eq!(FileDesc::get_cloexec_done(0, 0), Ok(false));
    assert_eq!(FileDesc::get_cloexec_done(1, 0), Ok(true));
    assert_eq!(FileDesc::get_cloexec_done(2, 0), Ok(false));
    assert_eq!(FileDesc::get_cloexec_done(3, 0), Ok(true));
    assert_eq!(FileDesc::get_cloexec_done(i32::MAX, 0), Ok(true));
    assert_eq!(FileDesc::get_cloexec_done(-2, 0), Ok(false));
}

#[test]
fn get_cloexec_done_reports_the_failure() {
    assert_eq!(FileDesc::get_cloexec_done(-1, libc::EBADF), Err(OsError { code: 9 }));
}

#[test]
fn set_cloexec_uses_the_ioctl_request() {
    let h = FileDesc::from_raw(3);
    assert_eq!(h.set_cloexec(), SysCall::Ioctl { fd: 3, request: libc::FIOCLEX });
    assert_eq!(FileDesc::set_cloexec_done(0, 0), Ok(()));
    assert_eq!(FileDesc::set_cloexec_done(-1, 25), Err(OsError { code: 25 }));
}

#[test]
fn set_nonblocking_passes_one_or_zero() {
    let h = FileDesc::from_raw(8);
    assert_eq!(
        h.set_nonblocking(true),
        SysCall::IoctlInt { fd: 8, request: libc::FIONBIO, value: 1 }
    );
    assert_eq!(
        h.set_nonblocking(false),
        SysCall::IoctlInt { fd: 8, request: libc::FIONBIO, value: 0 }
    );
    assert_eq!(FileDesc::set_nonblocking_done(0, 0), Ok(()));
    assert_eq!(FileDesc::set_nonblocking_done(-1, 9), Err(OsError { code: 9 }));
}

#[test]
fn duplicate_asks_for_a_copy_with_cloexec() {
    let h = FileDesc::from_raw(8);
    assert_eq!(
        h.duplicate(),
        SysCall::FcntlInt { fd: 8, cmd: libc::F_DUPFD_CLOEXEC, arg: 0 }
    );
    assert_eq!(h.raw(), 8);
}

#[test]
fn duplicate_done_owns_the_new_descriptor() {
    let h = FileDesc::from_raw(8);
    let copy = FileDesc::duplicate_done(11, 0).unwrap();
    assert_eq!(copy.raw(), 11);
    assert_eq!(h.raw(), 8);
    assert_eq!(copy.release(), SysCall::Close { fd: 11 });
    assert_eq!(h.release(), SysCall::Close { fd: 8 });
}

#[test]
fn duplicate_done_reports_the_failure() {
    let e = FileDesc::duplicate_done(-1, libc::EMFILE).err().unwrap();
    assert_eq!(e, OsError { code: 24 });
}

#[test]
fn handle_prints_its_descriptor() {
    assert_eq!(format!("{:?}", FileDesc::from_raw(12)), "FileDesc(12)");
}
