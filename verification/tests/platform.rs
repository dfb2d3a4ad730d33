//! The platform constants the library mirrors, held against libc.

use async_fuse::errno;
use async_fuse::file::AccessMode;
use async_fuse::file::FileMode;
use async_fuse::file::FileType;
use async_fuse::file::StMode;
use async_fuse::file::DT_BLK;
use async_fuse::file::DT_CHR;
use async_fuse::file::DT_DIR;
use async_fuse::file::DT_FIFO;
use async_fuse::file::DT_LNK;
use async_fuse::file::DT_REG;
use async_fuse::file::DT_SOCK;
use async_fuse::file::DT_UNKNOWN;
use async_fuse::file::O_ACCMODE;
use async_fuse::file::O_RDONLY;
use async_fuse::file::O_RDWR;
use async_fuse::file::O_WRONLY;
use async_fuse::file::PATH_MAX;

#[test]
fn path_max() {
    assert!(usize::try_from(libc::PATH_MAX).is_ok());
    assert!(libc::PATH_MAX >= 1024 && libc::PATH_MAX <= 8192);
}

#[test]
fn c_str_path_max() {
    assert!(usize::try_from(libc::PATH_MAX).is_ok());
    assert!(libc::PATH_MAX >= 1024 && libc::PATH_MAX <= 8192);
}

#[test]
fn errno_values_match_libc() {
    assert_eq!(errno::ENOENT, libc::ENOENT);
    assert_eq!(errno::EIO, libc::EIO);
    assert_eq!(errno::EAGAIN, libc::EAGAIN);
    assert_eq!(errno::EACCES, libc::EACCES);
    assert_eq!(errno::ENODEV, libc::ENODEV);
    assert_eq!(errno::ENOTDIR, libc::ENOTDIR);
    assert_eq!(errno::EISDIR, libc::EISDIR);
    assert_eq!(errno::EINVAL, libc::EINVAL);
    assert_eq!(errno::ENOSYS, libc::ENOSYS);
}

#[test]
fn d_type_values_match_libc() {
    assert_eq!(DT_UNKNOWN, libc::DT_UNKNOWN);
    assert_eq!(DT_FIFO, libc::DT_FIFO);
    assert_eq!(DT_CHR, libc::DT_CHR);
    assert_eq!(DT_DIR, libc::DT_DIR);
    assert_eq!(DT_BLK, libc::DT_BLK);
    assert_eq!(DT_REG, libc::DT_REG);
    assert_eq!(DT_LNK, libc::DT_LNK);
    assert_eq!(DT_SOCK, libc::DT_SOCK);
}

#[test]
fn access_mode_values_match_libc() {
    assert_eq!(O_RDONLY as i32, libc::O_RDONLY);
    assert_eq!(O_WRONLY as i32, libc::O_WRONLY);
    assert_eq!(O_RDWR as i32, libc::O_RDWR);
    assert_eq!(O_ACCMODE as i32, libc::O_ACCMODE);
    assert_eq!(PATH_MAX, libc::PATH_MAX as usize);
}

#[test]
fn file_type_round_trips_d_type() {
    let kinds = [
        FileType::Unknown,
        FileType::NamedPipe,
        FileType::CharacterDevice,
        FileType::Directory,
        FileType::BlockDevice,
        FileType::Regular,
        FileType::SymbolicLink,
        FileType::Socket,
    ];
    for kind in kinds {
        assert_eq!(FileType::from_raw(kind.as_raw()), kind);
        assert_eq!(kind.as_u32(), kind.as_raw() as u32);
    }
}

#[test]
fn st_mode_packs_type_and_permissions() {
    let mode = StMode::new(FileType::Regular, FileMode(0o644));
    assert_eq!(mode.as_raw(), (libc::DT_REG as u32) << 12 | 0o644);
    assert_eq!(mode.file_type(), FileType::Regular);
    assert_eq!(mode.file_mode().bits(), 0o644);
    assert_eq!(mode.as_raw(), libc::S_IFREG | 0o644);
}

#[test]
fn access_mode_from_open_flags() {
    assert_eq!(AccessMode::from_raw(libc::O_RDONLY as u32), AccessMode::ReadOnly);
    assert_eq!(AccessMode::from_raw(libc::O_WRONLY as u32), AccessMode::WriteOnly);
    assert_eq!(AccessMode::from_raw(libc::O_RDWR as u32), AccessMode::ReadWrite);
    assert_eq!(
        AccessMode::from_raw((libc::O_RDONLY | libc::O_NONBLOCK) as u32),
        AccessMode::ReadOnly
    );
}
