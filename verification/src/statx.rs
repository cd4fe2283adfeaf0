//! Decoding of the record that the `statx` system call fills in.

use chrono::NaiveDateTime;
use vstd::prelude::*;

verus! {

/// Declares `chrono::NaiveDateTime` (a date and time without a time zone),
/// which the library carries through without looking inside.
#[verifier::external_type_specification]
#[verifier::external_body]
pub struct ExNaiveDateTime(NaiveDateTime);

/// The `flags` bit of `statx` that asks not to follow a final symbolic link.
pub const AT_SYMLINK_NOFOLLOW: u32 = 0x100;

/// The `flags` argument of `statx`: a symbolic link at the end of the path
/// is followed when `follow_symlink`, otherwise it is examined itself.
pub fn statx_flags(follow_symlink: bool) -> (r: u32)
    ensures
        r == (if follow_symlink {
            0
        } else {
            AT_SYMLINK_NOFOLLOW
        }),
{
    let mut flags = AT_SYMLINK_NOFOLLOW;
    if follow_symlink {
        flags = flags & !AT_SYMLINK_NOFOLLOW;
        assert(flags == 0) by (bit_vector)
            requires
                flags == 0x100u32 & !0x100u32,
        ;
    }
    flags
}

/// The date and time, in UTC, of a UNIX timestamp of `secs` seconds and
/// `nsecs` nanoseconds, or `None` where chrono has none for it.
pub uninterp spec fn chrono_from_timestamp(secs: i64, nsecs: u32) -> Option<NaiveDateTime>;

/// Whether chrono has a date and time for the timestamp.
pub open spec fn timestamp_in_range(secs: i64, nsecs: u32) -> bool {
    chrono_from_timestamp(secs, nsecs) is Some
}

/// The date and time of a UNIX timestamp.
///
/// Trusted: `chrono::NaiveDateTime::from_timestamp_opt` is a function of its
/// arguments; its source gives `None` for 2 seconds or more of nanoseconds,
/// and for 1 second or more unless the second is the 59th of its minute (a
/// leap second); it gives a value for any second of the years 1 to 9999 with
/// fewer than 1_000_000_000 nanoseconds, its range reaching about 262,000
/// years on either side of the common era.
#[verifier::external_body]
fn naive_from_timestamp(secs: i64, nsecs: u32) -> (r: Option<NaiveDateTime>)
    ensures
        r == chrono_from_timestamp(secs, nsecs),
        nsecs >= 2_000_000_000 ==> r is None,
        nsecs >= 1_000_000_000 && secs % 60 != 59 ==> r is None,
        -62_135_596_800 <= secs <= 253_402_300_799 && nsecs < 1_000_000_000 ==> r is Some,
{
    #[allow(deprecated)]
    NaiveDateTime::from_timestamp_opt(secs, nsecs)
}

/// A timestamp as `statx` reports it.
#[derive(Clone, Copy, Debug)]
pub struct StatxTimestamp {
    pub tv_sec: i64,
    pub tv_nsec: u32,
}

/// The record that `statx` fills in.
#[derive(Clone, Copy, Debug)]
pub struct StatxRecord {
    pub stx_mask: u32,
    pub stx_blksize: u32,
    pub stx_attributes: u64,
    pub stx_nlink: u32,
    pub stx_uid: u32,
    pub stx_gid: u32,
    pub stx_mode: u16,
    pub __spare0: [u16; 1],
    pub stx_ino: u64,
    pub stx_size: u64,
    pub stx_blocks: u64,
    pub stx_attributes_mask: u64,
    pub stx_atime: StatxTimestamp,
    pub stx_btime: StatxTimestamp,
    pub stx_ctime: StatxTimestamp,
    pub stx_mtime: StatxTimestamp,
    pub stx_rdev_major: u32,
    pub stx_rdev_minor: u32,
    pub stx_dev_major: u32,
    pub stx_dev_minor: u32,
    pub __spare2: [u64; 14],
}

/// Whether chrono has a date and time for a timestamp of `statx`.
pub open spec fn timestamp_ok(t: StatxTimestamp) -> bool {
    timestamp_in_range(t.tv_sec, t.tv_nsec)
}

/// The date and time of a timestamp of `statx`.
pub open spec fn timestamp_datetime(t: StatxTimestamp) -> NaiveDateTime {
    chrono_from_timestamp(t.tv_sec, t.tv_nsec)->0
}

/// Whether chrono surely has no date and time for a timestamp: 2 seconds or
/// more of nanoseconds, or 1 second or more outside the 59th second of a
/// minute.
pub open spec fn timestamp_surely_invalid(t: StatxTimestamp) -> bool {
    ||| t.tv_nsec >= 2_000_000_000
    ||| t.tv_nsec >= 1_000_000_000 && t.tv_sec % 60 != 59
}

/// Whether chrono surely has a date and time for a timestamp: a second of
/// the years 1 to 9999 with fewer than 1_000_000_000 nanoseconds.
pub open spec fn timestamp_surely_valid(t: StatxTimestamp) -> bool {
    &&& -62_135_596_800 <= t.tv_sec <= 253_402_300_799
    &&& t.tv_nsec < 1_000_000_000
}

/// Whether all four timestamps of a record have a date and time.
pub open spec fn record_times_ok(c: StatxRecord) -> bool {
    &&& timestamp_ok(c.stx_atime)
    &&& timestamp_ok(c.stx_btime)
    &&& timestamp_ok(c.stx_ctime)
    &&& timestamp_ok(c.stx_mtime)
}

/// The status of a file, with its timestamps as dates and times.
#[derive(Debug)]
pub struct Statx {
    pub stx_mask: u32,
    pub stx_blksize: u32,
    pub stx_attributes: u64,
    pub stx_nlink: u32,
    pub stx_uid: u32,
    pub stx_gid: u32,
    pub stx_mode: u16,
    pub __spare0: [u16; 1],
    pub stx_ino: u64,
    pub stx_size: u64,
    pub stx_blocks: u64,
    pub stx_attributes_mask: u64,
    pub stx_atime: NaiveDateTime,
    pub stx_btime: NaiveDateTime,
    pub stx_ctime: NaiveDateTime,
    pub stx_mtime: NaiveDateTime,
    pub stx_rdev_major: u32,
    pub stx_rdev_minor: u32,
    pub stx_dev_major: u32,
    pub stx_dev_minor: u32,
    pub __spare2: [u64; 14],
}

/// Whether `s` is the decoding of `c`: every number carried over, every
/// timestamp turned into its date and time.
pub open spec fn decodes(c: StatxRecord, s: Statx) -> bool {
    &&& s.stx_mask == c.stx_mask
    &&& s.stx_blksize == c.stx_blksize
    &&& s.stx_attributes == c.stx_attributes
    &&& s.stx_nlink == c.stx_nlink
    &&& s.stx_uid == c.stx_uid
    &&& s.stx_gid == c.stx_gid
    &&& s.stx_mode == c.stx_mode
    &&& s.__spare0 == c.__spare0
    &&& s.stx_ino == c.stx_ino
    &&& s.stx_size == c.stx_size
    &&& s.stx_blocks == c.stx_blocks
    &&& s.stx_attributes_mask == c.stx_attributes_mask
    &&& s.stx_atime == timestamp_datetime(c.stx_atime)
    &&& s.stx_btime == timestamp_datetime(c.stx_btime)
    &&& s.stx_ctime == timestamp_datetime(c.stx_ctime)
    &&& s.stx_mtime == timestamp_datetime(c.stx_mtime)
    &&& s.stx_rdev_major == c.stx_rdev_major
    &&& s.stx_rdev_minor == c.stx_rdev_minor
    &&& s.stx_dev_major == c.stx_dev_major
    &&& s.stx_dev_minor == c.stx_dev_minor
    &&& s.__spare2 == c.__spare2
}

/// Decoding carries every number of the record to the field of the same
/// name, keeps the file's own device number (`rdev`) apart from that of its
/// file system (`dev`), and turns each of the four timestamps, each into its
/// own date and time.
pub proof fn law_decode_keeps_every_field(c: StatxRecord, s: Statx)
    requires
        decodes(c, s),
    ensures
        s.stx_mask == c.stx_mask,
        s.stx_blksize == c.stx_blksize,
        s.stx_attributes == c.stx_attributes,
        s.stx_nlink == c.stx_nlink,
        s.stx_uid == c.stx_uid,
        s.stx_gid == c.stx_gid,
        s.stx_mode == c.stx_mode,
        s.__spare0 == c.__spare0,
        s.stx_ino == c.stx_ino,
        s.stx_size == c.stx_size,
        s.stx_blocks == c.stx_blocks,
        s.stx_attributes_mask == c.stx_attributes_mask,
        s.stx_rdev_major == c.stx_rdev_major,
        s.stx_rdev_minor == c.stx_rdev_minor,
        s.stx_dev_major == c.stx_dev_major,
        s.stx_dev_minor == c.stx_dev_minor,
        s.__spare2 == c.__spare2,
        Some(s.stx_atime) == chrono_from_timestamp(c.stx_atime.tv_sec, c.stx_atime.tv_nsec)
            || !timestamp_ok(c.stx_atime),
        Some(s.stx_btime) == chrono_from_timestamp(c.stx_btime.tv_sec, c.stx_btime.tv_nsec)
            || !timestamp_ok(c.stx_btime),
        Some(s.stx_ctime) == chrono_from_timestamp(c.stx_ctime.tv_sec, c.stx_ctime.tv_nsec)
            || !timestamp_ok(c.stx_ctime),
        Some(s.stx_mtime) == chrono_from_timestamp(c.stx_mtime.tv_sec, c.stx_mtime.tv_nsec)
            || !timestamp_ok(c.stx_mtime),
{
}

impl Statx {
    /// Decodes a record whose four timestamps all have a date and time.
    pub fn from_record(c: StatxRecord) -> (s: Statx)
        requires
            record_times_ok(c),
        ensures
            decodes(c, s),
    {
        let atime = naive_from_timestamp(c.stx_atime.tv_sec, c.stx_atime.tv_nsec);
        let btime = naive_from_timestamp(c.stx_btime.tv_sec, c.stx_btime.tv_nsec);
        let ctime = naive_from_timestamp(c.stx_ctime.tv_sec, c.stx_ctime.tv_nsec);
        let mtime = naive_from_timestamp(c.stx_mtime.tv_sec, c.stx_mtime.tv_nsec);
        Statx {
            stx_mask: c.stx_mask,
            stx_blksize: c.stx_blksize,
            stx_attributes: c.stx_attributes,
            stx_nlink: c.stx_nlink,
            stx_uid: c.stx_uid,
            stx_gid: c.stx_gid,
            stx_mode: c.stx_mode,
            __spare0: c.__spare0,
            stx_ino: c.stx_ino,
            stx_size: c.stx_size,
            stx_blocks: c.stx_blocks,
            stx_attributes_mask: c.stx_attributes_mask,
            stx_atime: atime.unwrap(),
            stx_btime: btime.unwrap(),
            stx_ctime: ctime.unwrap(),
            stx_mtime: mtime.unwrap(),
            stx_rdev_major: c.stx_rdev_major,
            stx_rdev_minor: c.stx_rdev_minor,
            stx_dev_major: c.stx_dev_major,
            stx_dev_minor: c.stx_dev_minor,
            __spare2: c.__spare2,
        }
    }

    /// Decodes a record, or gives `None` when one of its timestamps has no
    /// date and time.
    pub fn try_from_record(c: StatxRecord) -> (s: Option<Statx>)
        ensures
            s is Some <==> record_times_ok(c),
            s matches Some(s) ==> decodes(c, s),
            timestamp_surely_invalid(c.stx_atime) || timestamp_surely_invalid(c.stx_btime)
                || timestamp_surely_invalid(c.stx_ctime) || timestamp_surely_invalid(c.stx_mtime)
                ==> s is None,
            timestamp_surely_valid(c.stx_atime) && timestamp_surely_valid(c.stx_btime)
                && timestamp_surely_valid(c.stx_ctime) && timestamp_surely_valid(c.stx_mtime)
                ==> s is Some,
    {
        let atime = naive_from_timestamp(c.stx_atime.tv_sec, c.stx_atime.tv_nsec);
        let btime = naive_from_timestamp(c.stx_btime.tv_sec, c.stx_btime.tv_nsec);
        let ctime = naive_from_timestamp(c.stx_ctime.tv_sec, c.stx_ctime.tv_nsec);
        let mtime = naive_from_timestamp(c.stx_mtime.tv_sec, c.stx_mtime.tv_nsec);
        if atime.is_some() && btime.is_some() && ctime.is_some() && mtime.is_some() {
            Some(Statx::from_record(c))
        } else {
            None
        }
    }
}

} // verus!
