use chrono::{NaiveDate, NaiveDateTime};
use utils::statx::{statx_flags, Statx, StatxRecord, StatxTimestamp, AT_SYMLINK_NOFOLLOW};

fn stamp(tv_sec: i64, tv_nsec: u32) -> StatxTimestamp {
    StatxTimestamp { tv_sec, tv_nsec }
}

fn record() -> StatxRecord {
    StatxRecord {
        stx_mask: 0xfff,
        stx_blksize: 4096,
        stx_attributes: 0x20,
        stx_nlink: 2,
        stx_uid: 1000,
        stx_gid: 100,
        stx_mode: 0o40755,
        __spare0: [0],
        stx_ino: 131,
        stx_size: 4096,
        stx_blocks: 8,
        stx_attributes_mask: 0x3074,
        stx_atime: stamp(0, 0),
        stx_btime: stamp(1431648000, 5),
        stx_ctime: stamp(-1, 999_999_999),
        stx_mtime: stamp(1_000_000_000, 123_000_000),
        stx_rdev_major: 0,
        stx_rdev_minor: 0,
        stx_dev_major: 8,
        stx_dev_minor: 1,
        __spare2: [0; 14],
    }
}

fn at(y: i32, mo: u32, d: u32, h: u32, mi: u32, s: u32, n: u32) -> NaiveDateTime {
    NaiveDate::from_ymd_opt(y, mo, d).unwrap().and_hms_nano_opt(h, mi, s, n).unwrap()
}

#[test]
fn flags_follow_the_documented_meaning() {
    assert_eq!(statx_flags(true), 0);
    assert_eq!(statx_flags(false), AT_SYMLINK_NOFOLLOW);
    assert_eq!(AT_SYMLINK_NOFOLLOW as i32, libc::AT_SYMLINK_NOFOLLOW);
}

#[test]
fn record_decodes_field_by_field() {
    let s = Statx::from_record(record());
    assert_eq!(s.stx_mask, 0xfff);
    assert_eq!(s.stx_blksize, 4096);
    assert_eq!(s.stx_attributes, 0x20);
    assert_eq!(s.stx_nlink, 2);
    assert_eq!(s.stx_uid, 1000);
    assert_eq!(s.stx_gid, 100);
    assert_eq!(s.stx_mode, 0o40755);
    assert_eq!(s.stx_ino, 131);
    assert_eq!(s.stx_size, 4096);
    assert_eq!(s.stx_blocks, 8);
    assert_eq!(s.stx_attributes_mask, 0x3074);
    assert_eq!(s.stx_dev_major, 8);
    assert_eq!(s.stx_dev_minor, 1);
    assert_eq!(s.stx_atime, at(1970, 1, 1, 0, 0, 0, 0));
    assert_eq!(s.stx_btime, at(2015, 5, 15, 0, 0, 0, 5));
    assert_eq!(s.stx_ctime, at(1969, 12, 31, 23, 59, 59, 999_999_999));
    assert_eq!(s.stx_mtime, at(2001, 9, 9, 1, 46, 40, 123_000_000));
}

#[test]
fn try_from_record_refuses_bad_nanoseconds() {
    let mut r = record();
    assert!(Statx::try_from_record(r).is_some());
    r.stx_mtime = stamp(0, 2_000_000_000);
    assert!(Statx::try_from_record(r).is_none());
    r.stx_mtime = stamp(0, 1_000_000_000);
    assert!(Statx::try_from_record(r).is_none());
    r.stx_mtime = stamp(59, 1_500_000_000);
    let s = Statx::try_from_record(r).unwrap();
    assert_eq!(s.stx_mtime, at(1970, 1, 1, 0, 0, 59, 1_500_000_000));
}

#[test]
fn try_from_record_refuses_far_dates() {
    let mut r = record();
    r.stx_atime = stamp(i64::MAX, 0);
    assert!(Statx::try_from_record(r).is_none());
    r.stx_atime = stamp(i64::MIN, 0);
    assert!(Statx::try_from_record(r).is_none());
}

#[test]
fn try_from_record_accepts_years_one_to_9999() {
    let mut r = record();
    r.stx_atime = stamp(-62_135_596_800, 999_999_999);
    r.stx_btime = stamp(253_402_300_799, 0);
    let s = Statx::try_from_record(r).unwrap();
    assert_eq!(s.stx_atime, at(1, 1, 1, 0, 0, 0, 999_999_999));
    assert_eq!(s.stx_btime, at(9999, 12, 31, 23, 59, 59, 0));
}
