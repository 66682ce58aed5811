//! The records that travel to the kernel, one type per family of commands.
//!
//! Every record ends with a status, `err`. A record that is about to be sent
//! carries the sentinel `ERR_CMD_NOT_SUPPORTED` there, so that a kernel which
//! does not touch the record is told apart from one that answered.

use vstd::prelude::*;
use crate::command::RecordKind;
use crate::cstr::zeroed;
use crate::magic::{
    SUSFS_ENABLED_FEATURES_SIZE, SUSFS_FAKE_CMDLINE_OR_BOOTCONFIG_SIZE, SUSFS_MAX_LEN_PATHNAME,
    SUSFS_MAX_VARIANT_BUFSIZE, SUSFS_MAX_VERSION_BUFSIZE, UTS_BUFSIZE,
};
use crate::stat::FileStat;

verus! {

/// The low 32 bits of `x`: what is left of a number in a field of that width.
pub open spec fn low_u32(x: u64) -> u32 {
    (x % 0x1_0000_0000) as u32
}

/// The signed number with the bits of `x`.
pub open spec fn signed_of(x: u64) -> i64 {
    if x < 0x8000_0000_0000_0000 {
        x as i64
    } else {
        (x - 0x1_0000_0000_0000_0000) as i64
    }
}

/// Cuts `x` to a field of 32 bits.
pub fn to_u32_field(x: u64) -> (r: u32)
    ensures
        r == low_u32(x),
{
    let r = (x & 0xffff_ffff) as u32;
    assert(x & 0xffff_ffff == x % 0x1_0000_0000) by (bit_vector);
    r
}

/// Stores `x` in a signed field of the same width.
pub fn to_i64_field(x: u64) -> (r: i64)
    ensures
        r == signed_of(x),
{
    if x < 0x8000_0000_0000_0000 {
        x as i64
    } else {
        let below: u64 = x - 0x8000_0000_0000_0000;
        below as i64 + i64::MIN
    }
}

/// A path to hide, with the inode and the owner that it has.
#[derive(Debug, PartialEq, Eq)]
pub struct SusfsSusPath {
    pub target_ino: u64,
    pub target_pathname: [u8; SUSFS_MAX_LEN_PATHNAME],
    pub i_uid: u32,
    pub err: i32,
}

impl Default for SusfsSusPath {
    fn default() -> (r: Self)
        ensures
            r.target_ino == 0,
            r.target_pathname@ == zeroed(SUSFS_MAX_LEN_PATHNAME as int),
            r.i_uid == 0,
            r.err == 0,
    {
        let r = Self {
            target_ino: 0,
            target_pathname: [0;SUSFS_MAX_LEN_PATHNAME],
            i_uid: 0,
            err: 0,
        };
        assert(r.target_pathname@ =~= zeroed(SUSFS_MAX_LEN_PATHNAME as int));
        r
    }
}

/// The root directory of an external storage, and the command that names
/// which one.
#[derive(Debug, PartialEq, Eq)]
pub struct ExternalDir {
    pub target_pathname: [u8; SUSFS_MAX_LEN_PATHNAME],
    pub is_inited: bool,
    pub cmd: i32,
    pub err: i32,
}

impl Default for ExternalDir {
    fn default() -> (r: Self)
        ensures
            r.target_pathname@ == zeroed(SUSFS_MAX_LEN_PATHNAME as int),
            !r.is_inited,
            r.cmd == 0,
            r.err == 0,
    {
        let r = Self {
            target_pathname: [0;SUSFS_MAX_LEN_PATHNAME],
            is_inited: false,
            cmd: 0,
            err: 0,
        };
        assert(r.target_pathname@ =~= zeroed(SUSFS_MAX_LEN_PATHNAME as int));
        r
    }
}

/// Whether mounts are hidden from processes without root.
#[derive(Debug, PartialEq, Eq)]
pub struct SusfsHideSusMnts {
    pub enabled: bool,
    pub err: i32,
}

impl Default for SusfsHideSusMnts {
    fn default() -> (r: Self)
        ensures
            !r.enabled,
            r.err == 0,
    {
        Self { enabled: false, err: 0 }
    }
}

/// The stat values to report for a path, in place of its own.
#[derive(Debug, PartialEq, Eq)]
pub struct SusfsSusKstat {
    pub is_statically: bool,
    pub target_ino: u64,
    pub target_pathname: [u8; SUSFS_MAX_LEN_PATHNAME],
    pub spoofed_ino: u64,
    pub spoofed_dev: u64,
    pub spoofed_nlink: u32,
    pub spoofed_size: i64,
    pub spoofed_atime_tv_sec: i64,
    pub spoofed_mtime_tv_sec: i64,
    pub spoofed_ctime_tv_sec: i64,
    pub spoofed_atime_tv_nsec: i64,
    pub spoofed_mtime_tv_nsec: i64,
    pub spoofed_ctime_tv_nsec: i64,
    pub spoofed_blksize: u64,
    pub spoofed_blocks: u64,
    pub err: i32,
}

impl SusfsSusKstat {
    /// The twelve spoofed values are those of `md`, each cut or reread to the
    /// width and sign of its field.
    pub open spec fn mirrors(&self, md: FileStat) -> bool {
        &&& self.spoofed_ino == md.ino
        &&& self.spoofed_dev == md.dev
        &&& self.spoofed_nlink == low_u32(md.nlink)
        &&& self.spoofed_size == signed_of(md.size)
        &&& self.spoofed_atime_tv_sec == md.atime
        &&& self.spoofed_mtime_tv_sec == md.mtime
        &&& self.spoofed_ctime_tv_sec == md.ctime
        &&& self.spoofed_atime_tv_nsec == md.atime_nsec
        &&& self.spoofed_mtime_tv_nsec == md.mtime_nsec
        &&& self.spoofed_ctime_tv_nsec == md.ctime_nsec
        &&& self.spoofed_blksize == md.blksize
        &&& self.spoofed_blocks == md.blocks
    }

    /// None of the twelve spoofed values is set.
    pub open spec fn spoofs_nothing(&self) -> bool {
        &&& self.spoofed_ino == 0
        &&& self.spoofed_dev == 0
        &&& self.spoofed_nlink == 0
        &&& self.spoofed_size == 0
        &&& self.spoofed_atime_tv_sec == 0
        &&& self.spoofed_mtime_tv_sec == 0
        &&& self.spoofed_ctime_tv_sec == 0
        &&& self.spoofed_atime_tv_nsec == 0
        &&& self.spoofed_mtime_tv_nsec == 0
        &&& self.spoofed_ctime_tv_nsec == 0
        &&& self.spoofed_blksize == 0
        &&& self.spoofed_blocks == 0
    }
}

impl Default for SusfsSusKstat {
    fn default() -> (r: Self)
        ensures
            !r.is_statically,
            r.target_ino == 0,
            r.target_pathname@ == zeroed(SUSFS_MAX_LEN_PATHNAME as int),
            r.spoofs_nothing(),
            r.err == 0,
    {
        let r = Self {
            is_statically: false,
            target_ino: 0,
            target_pathname: [0;SUSFS_MAX_LEN_PATHNAME],
            spoofed_ino: 0,
            spoofed_dev: 0,
            spoofed_nlink: 0,
            spoofed_size: 0,
            spoofed_atime_tv_sec: 0,
            spoofed_mtime_tv_sec: 0,
            spoofed_ctime_tv_sec: 0,
            spoofed_atime_tv_nsec: 0,
            spoofed_mtime_tv_nsec: 0,
            spoofed_ctime_tv_nsec: 0,
            spoofed_blksize: 0,
            spoofed_blocks: 0,
            err: 0,
        };
        assert(r.target_pathname@ =~= zeroed(SUSFS_MAX_LEN_PATHNAME as int));
        r
    }
}

/// The kernel release and version to report.
#[derive(Debug, PartialEq, Eq)]
pub struct SusfsUname {
    pub release: [u8; UTS_BUFSIZE],
    pub version: [u8; UTS_BUFSIZE],
    pub err: i32,
}

impl Default for SusfsUname {
    fn default() -> (r: Self)
        ensures
            r.release@ == zeroed(UTS_BUFSIZE as int),
            r.version@ == zeroed(UTS_BUFSIZE as int),
            r.err == 0,
    {
        let r = Self { release: [0;UTS_BUFSIZE], version: [0;UTS_BUFSIZE], err: 0 };
        assert(r.release@ =~= zeroed(UTS_BUFSIZE as int));
        assert(r.version@ =~= zeroed(UTS_BUFSIZE as int));
        r
    }
}

/// Whether the kernel side writes its log.
#[derive(Debug, PartialEq, Eq)]
pub struct SusfsLog {
    pub enabled: bool,
    pub err: i32,
}

impl Default for SusfsLog {
    fn default() -> (r: Self)
        ensures
            !r.enabled,
            r.err == 0,
    {
        Self { enabled: false, err: 0 }
    }
}

/// The text to report as the kernel command line or boot configuration.
#[derive(Debug, PartialEq, Eq)]
pub struct SusfsSpoofCmdline {
    pub fake_cmdline_or_bootconfig: [u8; SUSFS_FAKE_CMDLINE_OR_BOOTCONFIG_SIZE],
    pub err: i32,
}

/// A path, and the path that is opened in its place.
#[derive(Debug, PartialEq, Eq)]
pub struct SusfsOpenRedirect {
    pub target_ino: u64,
    pub target_pathname: [u8; SUSFS_MAX_LEN_PATHNAME],
    pub redirected_pathname: [u8; SUSFS_MAX_LEN_PATHNAME],
    pub err: i32,
}

impl Default for SusfsOpenRedirect {
    fn default() -> (r: Self)
        ensures
            r.target_ino == 0,
            r.target_pathname@ == zeroed(SUSFS_MAX_LEN_PATHNAME as int),
            r.redirected_pathname@ == zeroed(SUSFS_MAX_LEN_PATHNAME as int),
            r.err == 0,
    {
        let r = Self {
            target_ino: 0,
            target_pathname: [0;SUSFS_MAX_LEN_PATHNAME],
            redirected_pathname: [0;SUSFS_MAX_LEN_PATHNAME],
            err: 0,
        };
        assert(r.target_pathname@ =~= zeroed(SUSFS_MAX_LEN_PATHNAME as int));
        assert(r.redirected_pathname@ =~= zeroed(SUSFS_MAX_LEN_PATHNAME as int));
        r
    }
}

/// A path to leave out of the memory maps of a process.
#[derive(Debug, PartialEq, Eq)]
pub struct SusfsSusMap {
    pub target_pathname: [u8; SUSFS_MAX_LEN_PATHNAME],
    pub err: i32,
}

impl Default for SusfsSusMap {
    fn default() -> (r: Self)
        ensures
            r.target_pathname@ == zeroed(SUSFS_MAX_LEN_PATHNAME as int),
            r.err == 0,
    {
        let r = Self { target_pathname: [0;SUSFS_MAX_LEN_PATHNAME], err: 0 };
        assert(r.target_pathname@ =~= zeroed(SUSFS_MAX_LEN_PATHNAME as int));
        r
    }
}

/// Whether the `su` context is disguised in the audit log.
#[derive(Debug, PartialEq, Eq)]
pub struct SusfsAvcLogSpoofing {
    pub enabled: bool,
    pub err: i32,
}

impl Default for SusfsAvcLogSpoofing {
    fn default() -> (r: Self)
        ensures
            !r.enabled,
            r.err == 0,
    {
        Self { enabled: false, err: 0 }
    }
}

/// Room for the list of features that the kernel was built with.
#[derive(Debug, PartialEq, Eq)]
pub struct SusfsEnabledFeatures {
    pub enabled_features: [u8; SUSFS_ENABLED_FEATURES_SIZE],
    pub err: i32,
}

/// Room for the variant of the kernel side.
#[derive(Debug, PartialEq, Eq)]
pub struct SusfsVariant {
    pub susfs_variant: [u8; SUSFS_MAX_VARIANT_BUFSIZE],
    pub err: i32,
}

/// Room for the version of the kernel side.
#[derive(Debug, PartialEq, Eq)]
pub struct SusfsVersion {
    pub susfs_version: [u8; SUSFS_MAX_VERSION_BUFSIZE],
    pub err: i32,
}

/// Sets the twelve spoofed values of `info` to those of `md`.
pub fn copy_metadata_to_sus_kstat(info: &mut SusfsSusKstat, md: &FileStat)
    ensures
        final(info).mirrors(*md),
        final(info).is_statically == old(info).is_statically,
        final(info).target_ino == old(info).target_ino,
        final(info).target_pathname == old(info).target_pathname,
        final(info).err == old(info).err,
{
    info.spoofed_ino = md.ino;
    info.spoofed_dev = md.dev;
    info.spoofed_nlink = to_u32_field(md.nlink);
    info.spoofed_size = to_i64_field(md.size);
    info.spoofed_atime_tv_sec = md.atime;
    info.spoofed_mtime_tv_sec = md.mtime;
    info.spoofed_ctime_tv_sec = md.ctime;
    info.spoofed_atime_tv_nsec = md.atime_nsec;
    info.spoofed_mtime_tv_nsec = md.mtime_nsec;
    info.spoofed_ctime_tv_nsec = md.ctime_nsec;
    info.spoofed_blksize = md.blksize;
    info.spoofed_blocks = md.blocks;
}

/// A record of any kind.
#[derive(Debug, PartialEq, Eq)]
pub enum Record {
    SusPath(SusfsSusPath),
    ExternalDir(ExternalDir),
    HideSusMnts(SusfsHideSusMnts),
    SusKstat(SusfsSusKstat),
    Uname(SusfsUname),
    Log(SusfsLog),
    SpoofCmdline(Box<SusfsSpoofCmdline>),
    OpenRedirect(SusfsOpenRedirect),
    SusMap(SusfsSusMap),
    AvcLogSpoofing(SusfsAvcLogSpoofing),
    EnabledFeatures(Box<SusfsEnabledFeatures>),
    Variant(SusfsVariant),
    Version(SusfsVersion),
}

impl Record {
    /// The layout of this record.
    pub open spec fn kind_spec(&self) -> RecordKind {
        match self {
            Record::SusPath(_) => RecordKind::SusPath,
            Record::ExternalDir(_) => RecordKind::ExternalDir,
            Record::HideSusMnts(_) => RecordKind::HideSusMnts,
            Record::SusKstat(_) => RecordKind::SusKstat,
            Record::Uname(_) => RecordKind::Uname,
            Record::Log(_) => RecordKind::Log,
            Record::SpoofCmdline(_) => RecordKind::SpoofCmdline,
            Record::OpenRedirect(_) => RecordKind::OpenRedirect,
            Record::SusMap(_) => RecordKind::SusMap,
            Record::AvcLogSpoofing(_) => RecordKind::AvcLogSpoofing,
            Record::EnabledFeatures(_) => RecordKind::EnabledFeatures,
            Record::Variant(_) => RecordKind::Variant,
            Record::Version(_) => RecordKind::Version,
        }
    }

    /// The layout of this record.
    #[verifier::when_used_as_spec(kind_spec)]
    pub fn kind(&self) -> (r: RecordKind)
        ensures
            r == self.kind_spec(),
    {
        match self {
            Record::SusPath(_) => RecordKind::SusPath,
            Record::ExternalDir(_) => RecordKind::ExternalDir,
            Record::HideSusMnts(_) => RecordKind::HideSusMnts,
            Record::SusKstat(_) => RecordKind::SusKstat,
            Record::Uname(_) => RecordKind::Uname,
            Record::Log(_) => RecordKind::Log,
            Record::SpoofCmdline(_) => RecordKind::SpoofCmdline,
            Record::OpenRedirect(_) => RecordKind::OpenRedirect,
            Record::SusMap(_) => RecordKind::SusMap,
            Record::AvcLogSpoofing(_) => RecordKind::AvcLogSpoofing,
            Record::EnabledFeatures(_) => RecordKind::EnabledFeatures,
            Record::Variant(_) => RecordKind::Variant,
            Record::Version(_) => RecordKind::Version,
        }
    }

    /// The status that this record carries.
    pub open spec fn err_spec(&self) -> i32 {
        match self {
            Record::SusPath(r) => r.err,
            Record::ExternalDir(r) => r.err,
            Record::HideSusMnts(r) => r.err,
            Record::SusKstat(r) => r.err,
            Record::Uname(r) => r.err,
            Record::Log(r) => r.err,
            Record::SpoofCmdline(r) => r.err,
            Record::OpenRedirect(r) => r.err,
            Record::SusMap(r) => r.err,
            Record::AvcLogSpoofing(r) => r.err,
            Record::EnabledFeatures(r) => r.err,
            Record::Variant(r) => r.err,
            Record::Version(r) => r.err,
        }
    }

    /// The status that this record carries.
    #[verifier::when_used_as_spec(err_spec)]
    pub fn err(&self) -> (e: i32)
        ensures
            e == self.err_spec(),
    {
        match self {
            Record::SusPath(r) => r.err,
            Record::ExternalDir(r) => r.err,
            Record::HideSusMnts(r) => r.err,
            Record::SusKstat(r) => r.err,
            Record::Uname(r) => r.err,
            Record::Log(r) => r.err,
            Record::SpoofCmdline(r) => r.err,
            Record::OpenRedirect(r) => r.err,
            Record::SusMap(r) => r.err,
            Record::AvcLogSpoofing(r) => r.err,
            Record::EnabledFeatures(r) => r.err,
            Record::Variant(r) => r.err,
            Record::Version(r) => r.err,
        }
    }
}

} // verus!
