//! From an operation and what was looked up for it to the record that is
//! sent.

use vstd::prelude::*;
use vstd::string::StringSliceAdditionalSpecFns;
use vstd::utf8::encode_utf8;
use crate::cli::{ShowType, SuSFSSubCommands};
use crate::command::Command;
use crate::cstr::{c_array_of, str_to_c_array, zeroed};
use crate::magic::{
    ERR_CMD_NOT_SUPPORTED, SUSFS_ENABLED_FEATURES_SIZE, SUSFS_FAKE_CMDLINE_OR_BOOTCONFIG_SIZE,
    SUSFS_MAX_LEN_PATHNAME, SUSFS_MAX_VARIANT_BUFSIZE, SUSFS_MAX_VERSION_BUFSIZE, UTS_BUFSIZE,
};
use crate::number::{
    decimal_text, default_marker, i64_or_default, lemma_default_is_literal_i64,
    lemma_default_is_literal_u64, parse_or_default_i64, parse_or_default_u64, u64_or_default,
};
use crate::record::{
    copy_metadata_to_sus_kstat, to_i64_field, signed_of, ExternalDir, SusfsAvcLogSpoofing,
    SusfsEnabledFeatures, SusfsHideSusMnts, SusfsLog, SusfsOpenRedirect, SusfsSpoofCmdline,
    SusfsSusKstat, SusfsSusMap, SusfsSusPath, SusfsUname, SusfsVariant, SusfsVersion, Record,
};
use crate::stat::FileStat;

verus! {

/// One of the twelve stat values that can be set by hand.
#[derive(Clone, Copy, Debug, PartialEq, Eq, Structural)]
pub enum KstatField {
    Ino,
    Dev,
    Nlink,
    Size,
    Atime,
    AtimeNsec,
    Mtime,
    MtimeNsec,
    Ctime,
    CtimeNsec,
    Blocks,
    Blksize,
}

/// Why an operation is refused before anything is sent.
#[derive(Clone, Copy, Debug, PartialEq, Eq, Structural)]
pub enum InputError {
    /// A switch was given a value other than 0 and 1.
    InvalidFlag,
    /// The text for this stat value is neither `default` nor a number of the
    /// value's type.
    InvalidNumber(KstatField),
    /// The replacement text does not fit into its buffer with room to spare.
    PayloadTooLarge,
    /// What had to be looked up for the operation is not there.
    PathUnavailable,
}

/// The value of a switch: off for 0, on for 1, nothing else.
pub open spec fn flag_spec(enabled: u8) -> Result<bool, InputError> {
    if enabled > 1 {
        Err(InputError::InvalidFlag)
    } else {
        Ok(enabled == 1)
    }
}

/// The value of a switch: off for 0, on for 1, nothing else.
pub fn flag(enabled: u8) -> (r: Result<bool, InputError>)
    ensures
        r == flag_spec(enabled),
{
    if enabled > 1 {
        Err(InputError::InvalidFlag)
    } else {
        Ok(enabled == 1)
    }
}

impl SusfsSusPath {
    /// This record asks to hide the path spelled by `path`, whose metadata
    /// is `md`.
    pub open spec fn hides(&self, path: Seq<u8>, md: FileStat) -> bool {
        &&& self.target_ino == md.ino
        &&& self.target_pathname@ == c_array_of(SUSFS_MAX_LEN_PATHNAME as int, path)
        &&& self.i_uid == md.uid
        &&& self.err == ERR_CMD_NOT_SUPPORTED
    }
}

/// The record that asks to hide `path`.
pub fn sus_path(path: &str, md: &FileStat) -> (r: SusfsSusPath)
    ensures
        r.hides(path.spec_bytes(), *md),
{
    let mut info = SusfsSusPath::default();
    str_to_c_array(path, &mut info.target_pathname);
    info.target_ino = md.ino;
    info.i_uid = md.uid;
    info.err = ERR_CMD_NOT_SUPPORTED;
    info
}

impl ExternalDir {
    /// This record names `path` as the root that `command` sets.
    pub open spec fn roots(&self, path: Seq<u8>, command: Command) -> bool {
        &&& self.target_pathname@ == c_array_of(SUSFS_MAX_LEN_PATHNAME as int, path)
        &&& !self.is_inited
        &&& self.cmd == command.id()
        &&& self.err == ERR_CMD_NOT_SUPPORTED
    }
}

/// The record that names `path` as a root of external storage. The command
/// goes into the record as well as beside it.
pub fn external_dir(path: &str, command: Command) -> (r: ExternalDir)
    ensures
        r.roots(path.spec_bytes(), command),
{
    let mut info = ExternalDir::default();
    str_to_c_array(path, &mut info.target_pathname);
    info.cmd = command.id() as i32;
    info.err = ERR_CMD_NOT_SUPPORTED;
    info
}

impl SusfsSusKstat {
    /// This record is about the path spelled by `path`, whose inode is
    /// `ino`, and is yet to be answered.
    pub open spec fn targets(&self, path: Seq<u8>, ino: u64) -> bool {
        &&& self.target_ino == ino
        &&& self.target_pathname@ == c_array_of(SUSFS_MAX_LEN_PATHNAME as int, path)
        &&& self.err == ERR_CMD_NOT_SUPPORTED
    }

    /// This record keeps the stat values that the path has now.
    pub open spec fn keeps(&self, path: Seq<u8>, md: FileStat) -> bool {
        &&& !self.is_statically
        &&& self.targets(path, md.ino)
        &&& self.mirrors(md)
    }

    /// This record tells the new inode, size and block count of a path, and
    /// nothing else.
    pub open spec fn updates(&self, path: Seq<u8>, md: FileStat) -> bool {
        &&& !self.is_statically
        &&& self.targets(path, md.ino)
        &&& self.spoofed_ino == 0
        &&& self.spoofed_dev == 0
        &&& self.spoofed_nlink == 0
        &&& self.spoofed_size == signed_of(md.size)
        &&& self.spoofed_atime_tv_sec == 0
        &&& self.spoofed_mtime_tv_sec == 0
        &&& self.spoofed_ctime_tv_sec == 0
        &&& self.spoofed_atime_tv_nsec == 0
        &&& self.spoofed_mtime_tv_nsec == 0
        &&& self.spoofed_ctime_tv_nsec == 0
        &&& self.spoofed_blksize == 0
        &&& self.spoofed_blocks == md.blocks
    }

    /// This record tells the new inode of a path, and nothing else.
    pub open spec fn retargets(&self, path: Seq<u8>, md: FileStat) -> bool {
        &&& !self.is_statically
        &&& self.targets(path, md.ino)
        &&& self.spoofs_nothing()
    }

    /// This record sets the stat values of a path by hand, to those of
    /// `shown`.
    pub open spec fn fixes(&self, path: Seq<u8>, md: FileStat, shown: FileStat) -> bool {
        &&& self.is_statically
        &&& self.targets(path, md.ino)
        &&& self.mirrors(shown)
    }
}

/// The record that stores the stat values of `path` as they are now.
pub fn sus_kstat(path: &str, md: &FileStat) -> (r: SusfsSusKstat)
    ensures
        r.keeps(path.spec_bytes(), *md),
{
    let mut info = SusfsSusKstat::default();
    str_to_c_array(path, &mut info.target_pathname);
    info.is_statically = false;
    info.target_ino = md.ino;
    copy_metadata_to_sus_kstat(&mut info, md);
    info.err = ERR_CMD_NOT_SUPPORTED;
    info
}

/// The record that tells the inode, size and block count that `path` has
/// now.
pub fn update_sus_kstat(path: &str, md: &FileStat) -> (r: SusfsSusKstat)
    ensures
        r.updates(path.spec_bytes(), *md),
{
    let mut info = SusfsSusKstat::default();
    str_to_c_array(path, &mut info.target_pathname);
    info.is_statically = false;
    info.target_ino = md.ino;
    info.spoofed_size = to_i64_field(md.size);
    info.spoofed_blocks = md.blocks;
    info.err = ERR_CMD_NOT_SUPPORTED;
    info
}

/// The record that tells the inode that `path` has now.
pub fn update_sus_kstat_full_clone(path: &str, md: &FileStat) -> (r: SusfsSusKstat)
    ensures
        r.retargets(path.spec_bytes(), *md),
{
    let mut info = SusfsSusKstat::default();
    str_to_c_array(path, &mut info.target_pathname);
    info.is_statically = false;
    info.target_ino = md.ino;
    info.err = ERR_CMD_NOT_SUPPORTED;
    info
}

impl SusfsUname {
    /// This record asks to report `release` and `version`.
    pub open spec fn names(&self, release: Seq<u8>, version: Seq<u8>) -> bool {
        &&& self.release@ == c_array_of(UTS_BUFSIZE as int, release)
        &&& self.version@ == c_array_of(UTS_BUFSIZE as int, version)
        &&& self.err == ERR_CMD_NOT_SUPPORTED
    }
}

/// The record that asks to report `release` and `version`.
pub fn uname(release: &str, version: &str) -> (r: SusfsUname)
    ensures
        r.names(release.spec_bytes(), version.spec_bytes()),
{
    let mut info = SusfsUname::default();
    str_to_c_array(release, &mut info.release);
    str_to_c_array(version, &mut info.version);
    info.err = ERR_CMD_NOT_SUPPORTED;
    info
}

impl SusfsSpoofCmdline {
    /// This record carries `content`, whole, with zero bytes behind it.
    pub open spec fn carries(&self, content: Seq<u8>) -> bool {
        &&& self.fake_cmdline_or_bootconfig@ == content + zeroed(
            SUSFS_FAKE_CMDLINE_OR_BOOTCONFIG_SIZE - content.len(),
        )
        &&& self.err == ERR_CMD_NOT_SUPPORTED
    }
}

/// The record that carries `content` as the text to report. Content that
/// would leave no room for a zero byte behind it is refused, never cut.
pub fn spoof_cmdline(content: &[u8]) -> (r: Result<Box<SusfsSpoofCmdline>, InputError>)
    ensures
        match r {
            Ok(info) => content@.len() < SUSFS_FAKE_CMDLINE_OR_BOOTCONFIG_SIZE && info.carries(
                content@,
            ),
            Err(e) => content@.len() >= SUSFS_FAKE_CMDLINE_OR_BOOTCONFIG_SIZE && e
                == InputError::PayloadTooLarge,
        },
{
    if content.len() >= SUSFS_FAKE_CMDLINE_OR_BOOTCONFIG_SIZE {
        return Err(InputError::PayloadTooLarge);
    }
    let mut info = SusfsSpoofCmdline {
        fake_cmdline_or_bootconfig: [0;SUSFS_FAKE_CMDLINE_OR_BOOTCONFIG_SIZE],
        err: ERR_CMD_NOT_SUPPORTED,
    };
    let mut i: usize = 0;
    while i < content.len()
        invariant
            i <= content@.len() < SUSFS_FAKE_CMDLINE_OR_BOOTCONFIG_SIZE,
            info.err == ERR_CMD_NOT_SUPPORTED,
            forall|j: int| 0 <= j < i ==> info.fake_cmdline_or_bootconfig@[j] == content@[j],
            forall|j: int|
                i <= j < SUSFS_FAKE_CMDLINE_OR_BOOTCONFIG_SIZE
                    ==> info.fake_cmdline_or_bootconfig@[j] == 0,
        decreases content@.len() - i,
    {
        info.fake_cmdline_or_bootconfig[i] = content[i];
        i = i + 1;
    }
    assert(info.fake_cmdline_or_bootconfig@ =~= content@ + zeroed(
        SUSFS_FAKE_CMDLINE_OR_BOOTCONFIG_SIZE - content@.len(),
    ));
    Ok(Box::new(info))
}

impl SusfsOpenRedirect {
    /// This record asks to open `redirected` wherever `target`, whose
    /// metadata is `md`, is opened.
    pub open spec fn redirects(&self, target: Seq<u8>, redirected: Seq<u8>, md: FileStat) -> bool {
        &&& self.target_ino == md.ino
        &&& self.target_pathname@ == c_array_of(SUSFS_MAX_LEN_PATHNAME as int, target)
        &&& self.redirected_pathname@ == c_array_of(SUSFS_MAX_LEN_PATHNAME as int, redirected)
        &&& self.err == ERR_CMD_NOT_SUPPORTED
    }
}

/// The record that asks to open `redirected` in place of `target`. Both are
/// absolute paths; `md` is the metadata of `target`.
pub fn open_redirect(target: &str, redirected: &str, md: &FileStat) -> (r: SusfsOpenRedirect)
    ensures
        r.redirects(target.spec_bytes(), redirected.spec_bytes(), *md),
{
    let mut info = SusfsOpenRedirect::default();
    str_to_c_array(target, &mut info.target_pathname);
    str_to_c_array(redirected, &mut info.redirected_pathname);
    info.target_ino = md.ino;
    info.err = ERR_CMD_NOT_SUPPORTED;
    info
}

impl SusfsSusMap {
    /// This record asks to leave the path spelled by `path` out of memory
    /// maps.
    pub open spec fn unmaps(&self, path: Seq<u8>) -> bool {
        &&& self.target_pathname@ == c_array_of(SUSFS_MAX_LEN_PATHNAME as int, path)
        &&& self.err == ERR_CMD_NOT_SUPPORTED
    }
}

/// The record that asks to leave `path` out of memory maps.
pub fn sus_map(path: &str) -> (r: SusfsSusMap)
    ensures
        r.unmaps(path.spec_bytes()),
{
    let mut info = SusfsSusMap::default();
    str_to_c_array(path, &mut info.target_pathname);
    info.err = ERR_CMD_NOT_SUPPORTED;
    info
}

/// The stat values to show for a path whose own are `md`, where the twelve
/// texts say which to replace: each is either the word `default`, which
/// keeps the value of `md`, or a number. The texts are read in the order of
/// the parameters, and the first that is neither stops the reading.
pub open spec fn shown_values(
    md: FileStat,
    ino: Seq<char>,
    dev: Seq<char>,
    nlink: Seq<char>,
    size: Seq<char>,
    atime: Seq<char>,
    atime_nsec: Seq<char>,
    mtime: Seq<char>,
    mtime_nsec: Seq<char>,
    ctime: Seq<char>,
    ctime_nsec: Seq<char>,
    blocks: Seq<char>,
    blksize: Seq<char>,
) -> Result<FileStat, KstatField> {
    if u64_or_default(ino, md.ino) is None {
        Err(KstatField::Ino)
    } else if u64_or_default(dev, md.dev) is None {
        Err(KstatField::Dev)
    } else if u64_or_default(nlink, md.nlink) is None {
        Err(KstatField::Nlink)
    } else if u64_or_default(size, md.size) is None {
        Err(KstatField::Size)
    } else if i64_or_default(atime, md.atime) is None {
        Err(KstatField::Atime)
    } else if i64_or_default(atime_nsec, md.atime_nsec) is None {
        Err(KstatField::AtimeNsec)
    } else if i64_or_default(mtime, md.mtime) is None {
        Err(KstatField::Mtime)
    } else if i64_or_default(mtime_nsec, md.mtime_nsec) is None {
        Err(KstatField::MtimeNsec)
    } else if i64_or_default(ctime, md.ctime) is None {
        Err(KstatField::Ctime)
    } else if i64_or_default(ctime_nsec, md.ctime_nsec) is None {
        Err(KstatField::CtimeNsec)
    } else if u64_or_default(blocks, md.blocks) is None {
        Err(KstatField::Blocks)
    } else if u64_or_default(blksize, md.blksize) is None {
        Err(KstatField::Blksize)
    } else {
        Ok(
            FileStat {
                ino: u64_or_default(ino, md.ino).unwrap(),
                dev: u64_or_default(dev, md.dev).unwrap(),
                nlink: u64_or_default(nlink, md.nlink).unwrap(),
                uid: md.uid,
                size: u64_or_default(size, md.size).unwrap(),
                atime: i64_or_default(atime, md.atime).unwrap(),
                atime_nsec: i64_or_default(atime_nsec, md.atime_nsec).unwrap(),
                mtime: i64_or_default(mtime, md.mtime).unwrap(),
                mtime_nsec: i64_or_default(mtime_nsec, md.mtime_nsec).unwrap(),
                ctime: i64_or_default(ctime, md.ctime).unwrap(),
                ctime_nsec: i64_or_default(ctime_nsec, md.ctime_nsec).unwrap(),
                blksize: u64_or_default(blksize, md.blksize).unwrap(),
                blocks: u64_or_default(blocks, md.blocks).unwrap(),
            },
        )
    }
}

/// Reads the twelve texts against `md`.
pub fn read_shown_values(
    md: &FileStat,
    ino: &str,
    dev: &str,
    nlink: &str,
    size: &str,
    atime: &str,
    atime_nsec: &str,
    mtime: &str,
    mtime_nsec: &str,
    ctime: &str,
    ctime_nsec: &str,
    blocks: &str,
    blksize: &str,
) -> (r: Result<FileStat, KstatField>)
    ensures
        r == shown_values(
            *md,
            ino@,
            dev@,
            nlink@,
            size@,
            atime@,
            atime_nsec@,
            mtime@,
            mtime_nsec@,
            ctime@,
            ctime_nsec@,
            blocks@,
            blksize@,
        ),
{
    let s_ino = match parse_or_default_u64(ino, md.ino) {
        Some(v) => v,
        None => { return Err(KstatField::Ino); },
    };
    let s_dev = match parse_or_default_u64(dev, md.dev) {
        Some(v) => v,
        None => { return Err(KstatField::Dev); },
    };
    let s_nlink = match parse_or_default_u64(nlink, md.nlink) {
        Some(v) => v,
        None => { return Err(KstatField::Nlink); },
    };
    let s_size = match parse_or_default_u64(size, md.size) {
        Some(v) => v,
        None => { return Err(KstatField::Size); },
    };
    let s_atime = match parse_or_default_i64(atime, md.atime) {
        Some(v) => v,
        None => { return Err(KstatField::Atime); },
    };
    let s_atime_nsec = match parse_or_default_i64(atime_nsec, md.atime_nsec) {
        Some(v) => v,
        None => { return Err(KstatField::AtimeNsec); },
    };
    let s_mtime = match parse_or_default_i64(mtime, md.mtime) {
        Some(v) => v,
        None => { return Err(KstatField::Mtime); },
    };
    let s_mtime_nsec = match parse_or_default_i64(mtime_nsec, md.mtime_nsec) {
        Some(v) => v,
        None => { return Err(KstatField::MtimeNsec); },
    };
    let s_ctime = match parse_or_default_i64(ctime, md.ctime) {
        Some(v) => v,
        None => { return Err(KstatField::Ctime); },
    };
    let s_ctime_nsec = match parse_or_default_i64(ctime_nsec, md.ctime_nsec) {
        Some(v) => v,
        None => { return Err(KstatField::CtimeNsec); },
    };
    let s_blocks = match parse_or_default_u64(blocks, md.blocks) {
        Some(v) => v,
        None => { return Err(KstatField::Blocks); },
    };
    let s_blksize = match parse_or_default_u64(blksize, md.blksize) {
        Some(v) => v,
        None => { return Err(KstatField::Blksize); },
    };
    Ok(
        FileStat {
            ino: s_ino,
            dev: s_dev,
            nlink: s_nlink,
            uid: md.uid,
            size: s_size,
            atime: s_atime,
            atime_nsec: s_atime_nsec,
            mtime: s_mtime,
            mtime_nsec: s_mtime_nsec,
            ctime: s_ctime,
            ctime_nsec: s_ctime_nsec,
            blksize: s_blksize,
            blocks: s_blocks,
        },
    )
}

/// The record that sets the stat values of `path` by hand to those of
/// `shown`; `md` is the metadata that the path has.
pub fn sus_kstat_statically(path: &str, md: &FileStat, shown: &FileStat) -> (r: SusfsSusKstat)
    ensures
        r.fixes(path.spec_bytes(), *md, *shown),
{
    let mut info = SusfsSusKstat::default();
    info.target_ino = md.ino;
    info.is_statically = true;
    str_to_c_array(path, &mut info.target_pathname);
    copy_metadata_to_sus_kstat(&mut info, shown);
    info.err = ERR_CMD_NOT_SUPPORTED;
    info
}

/// With `default` in all twelve places the values shown are the path's own.
pub proof fn lemma_all_default_shows_own_values(md: FileStat)
    ensures
        shown_values(
            md,
            default_marker(),
            default_marker(),
            default_marker(),
            default_marker(),
            default_marker(),
            default_marker(),
            default_marker(),
            default_marker(),
            default_marker(),
            default_marker(),
            default_marker(),
            default_marker(),
        ) == Ok::<FileStat, KstatField>(md),
{
}

/// To write `default` for a value is to write the value out: whatever the
/// other metadata `other` of the path may be, the twelve own values of `md`
/// written as numbers are read back as `md`, as twelve times `default` is
/// read against `md` itself.
pub proof fn lemma_literal_values_are_read_back(md: FileStat, other: FileStat)
    requires
        other.uid == md.uid,
    ensures
        shown_values(
            other,
            decimal_text(md.ino as int),
            decimal_text(md.dev as int),
            decimal_text(md.nlink as int),
            decimal_text(md.size as int),
            decimal_text(md.atime as int),
            decimal_text(md.atime_nsec as int),
            decimal_text(md.mtime as int),
            decimal_text(md.mtime_nsec as int),
            decimal_text(md.ctime as int),
            decimal_text(md.ctime_nsec as int),
            decimal_text(md.blocks as int),
            decimal_text(md.blksize as int),
        ) == Ok::<FileStat, KstatField>(md),
{
    lemma_default_is_literal_u64(md.ino, other.ino);
    lemma_default_is_literal_u64(md.dev, other.dev);
    lemma_default_is_literal_u64(md.nlink, other.nlink);
    lemma_default_is_literal_u64(md.size, other.size);
    lemma_default_is_literal_i64(md.atime, other.atime);
    lemma_default_is_literal_i64(md.atime_nsec, other.atime_nsec);
    lemma_default_is_literal_i64(md.mtime, other.mtime);
    lemma_default_is_literal_i64(md.mtime_nsec, other.mtime_nsec);
    lemma_default_is_literal_i64(md.ctime, other.ctime);
    lemma_default_is_literal_i64(md.ctime_nsec, other.ctime_nsec);
    lemma_default_is_literal_u64(md.blocks, other.blocks);
    lemma_default_is_literal_u64(md.blksize, other.blksize);
}

/// What was looked up on the host for an operation.
#[derive(Debug, PartialEq, Eq)]
pub enum Found {
    /// Nothing was looked up, or what was looked for is not there.
    Nothing,
    /// The metadata of the path.
    Stat(FileStat),
    /// Both paths in absolute form, and the metadata of the target.
    Redirect { target: String, redirected: String, stat: FileStat },
    /// The bytes of the file.
    Payload(Vec<u8>),
}

/// A command and the record that goes with it, ready to be sent.
#[derive(Debug, PartialEq, Eq)]
pub struct Request {
    pub command: Command,
    pub record: Record,
}

/// The record with which the version of the kernel side is asked for.
pub fn version_query() -> (r: SusfsVersion)
    ensures
        r.susfs_version@ == zeroed(SUSFS_MAX_VERSION_BUFSIZE as int),
        r.err == ERR_CMD_NOT_SUPPORTED,
{
    let r = SusfsVersion { susfs_version: [0;SUSFS_MAX_VERSION_BUFSIZE], err: ERR_CMD_NOT_SUPPORTED };
    assert(r.susfs_version@ =~= zeroed(SUSFS_MAX_VERSION_BUFSIZE as int));
    r
}

/// The record with which the variant of the kernel side is asked for.
pub fn variant_query() -> (r: SusfsVariant)
    ensures
        r.susfs_variant@ == zeroed(SUSFS_MAX_VARIANT_BUFSIZE as int),
        r.err == ERR_CMD_NOT_SUPPORTED,
{
    let r = SusfsVariant { susfs_variant: [0;SUSFS_MAX_VARIANT_BUFSIZE], err: ERR_CMD_NOT_SUPPORTED };
    assert(r.susfs_variant@ =~= zeroed(SUSFS_MAX_VARIANT_BUFSIZE as int));
    r
}

/// The record with which the features of the kernel side are asked for.
pub fn enabled_features_query() -> (r: Box<SusfsEnabledFeatures>)
    ensures
        r.enabled_features@ == zeroed(SUSFS_ENABLED_FEATURES_SIZE as int),
        r.err == ERR_CMD_NOT_SUPPORTED,
{
    let r = SusfsEnabledFeatures {
        enabled_features: [0;SUSFS_ENABLED_FEATURES_SIZE],
        err: ERR_CMD_NOT_SUPPORTED,
    };
    assert(r.enabled_features@ =~= zeroed(SUSFS_ENABLED_FEATURES_SIZE as int));
    Box::new(r)
}

/// Why `cmd` cannot be sent with what was found for it; `None` where it can.
/// A switch is looked at before anything else, what was found before the
/// numbers and the size of the content.
pub open spec fn rejection(cmd: SuSFSSubCommands, found: Found) -> Option<InputError> {
    match cmd {
        SuSFSSubCommands::HideSusMntsForNonSuProcs { enabled }
        | SuSFSSubCommands::EnableLog { enabled }
        | SuSFSSubCommands::EnableAvcLogSpoofing { enabled } => if enabled > 1 {
            Some(InputError::InvalidFlag)
        } else {
            None
        },
        SuSFSSubCommands::AddSusPath { .. }
        | SuSFSSubCommands::AddSusPathLoop { .. }
        | SuSFSSubCommands::AddSusKstat { .. }
        | SuSFSSubCommands::UpdateSusKstat { .. }
        | SuSFSSubCommands::UpdateSusKstatFullClone { .. } => if found is Stat {
            None
        } else {
            Some(InputError::PathUnavailable)
        },
        SuSFSSubCommands::AddOpenRedirect { .. } => if found is Redirect {
            None
        } else {
            Some(InputError::PathUnavailable)
        },
        SuSFSSubCommands::SetCmdlineOrBootconfig { .. } => match found {
            Found::Payload(content) => if content@.len() >= SUSFS_FAKE_CMDLINE_OR_BOOTCONFIG_SIZE {
                Some(InputError::PayloadTooLarge)
            } else {
                None
            },
            _ => Some(InputError::PathUnavailable),
        },
        SuSFSSubCommands::AddSusKstatStatically {
            ino,
            dev,
            nlink,
            size,
            atime,
            atime_nsec,
            mtime,
            mtime_nsec,
            ctime,
            ctime_nsec,
            blocks,
            blksize,
            ..
        } => match found {
            Found::Stat(md) => match shown_values(
                md,
                ino@,
                dev@,
                nlink@,
                size@,
                atime@,
                atime_nsec@,
                mtime@,
                mtime_nsec@,
                ctime@,
                ctime_nsec@,
                blocks@,
                blksize@,
            ) {
                Ok(_) => None,
                Err(field) => Some(InputError::InvalidNumber(field)),
            },
            _ => Some(InputError::PathUnavailable),
        },
        _ => None,
    }
}

/// `req` is what is sent for `cmd`, given what was found for it.
pub open spec fn is_request_for(req: Request, cmd: SuSFSSubCommands, found: Found) -> bool {
    &&& req.command == cmd.command()
    &&& match cmd {
        SuSFSSubCommands::AddSusPath { path } | SuSFSSubCommands::AddSusPathLoop { path } => {
            &&& req.record matches Record::SusPath(r)
            &&& found matches Found::Stat(md)
            &&& r.hides(encode_utf8(path@), md)
        },
        SuSFSSubCommands::SetAndroidDataRootPath { path }
        | SuSFSSubCommands::SetSdcardRootPath { path } => {
            &&& req.record matches Record::ExternalDir(r)
            &&& r.roots(encode_utf8(path@), cmd.command())
        },
        SuSFSSubCommands::HideSusMntsForNonSuProcs { enabled } => {
            &&& req.record matches Record::HideSusMnts(r)
            &&& r.enabled == (enabled == 1)
            &&& r.err == ERR_CMD_NOT_SUPPORTED
        },
        SuSFSSubCommands::AddSusKstat { path } => {
            &&& req.record matches Record::SusKstat(r)
            &&& found matches Found::Stat(md)
            &&& r.keeps(encode_utf8(path@), md)
        },
        SuSFSSubCommands::UpdateSusKstat { path } => {
            &&& req.record matches Record::SusKstat(r)
            &&& found matches Found::Stat(md)
            &&& r.updates(encode_utf8(path@), md)
        },
        SuSFSSubCommands::UpdateSusKstatFullClone { path } => {
            &&& req.record matches Record::SusKstat(r)
            &&& found matches Found::Stat(md)
            &&& r.retargets(encode_utf8(path@), md)
        },
        SuSFSSubCommands::SetUname { release, version } => {
            &&& req.record matches Record::Uname(r)
            &&& r.names(encode_utf8(release@), encode_utf8(version@))
        },
        SuSFSSubCommands::EnableLog { enabled } => {
            &&& req.record matches Record::Log(r)
            &&& r.enabled == (enabled == 1)
            &&& r.err == ERR_CMD_NOT_SUPPORTED
        },
        SuSFSSubCommands::SetCmdlineOrBootconfig { .. } => {
            &&& req.record matches Record::SpoofCmdline(r)
            &&& found matches Found::Payload(content)
            &&& r.carries(content@)
        },
        SuSFSSubCommands::AddOpenRedirect { .. } => {
            &&& req.record matches Record::OpenRedirect(r)
            &&& found matches Found::Redirect { target, redirected, stat }
            &&& r.redirects(encode_utf8(target@), encode_utf8(redirected@), stat)
        },
        SuSFSSubCommands::AddSusMap { path } => {
            &&& req.record matches Record::SusMap(r)
            &&& r.unmaps(encode_utf8(path@))
        },
        SuSFSSubCommands::EnableAvcLogSpoofing { enabled } => {
            &&& req.record matches Record::AvcLogSpoofing(r)
            &&& r.enabled == (enabled == 1)
            &&& r.err == ERR_CMD_NOT_SUPPORTED
        },
        SuSFSSubCommands::Show { info_type } => match info_type {
            ShowType::Version => {
                &&& req.record matches Record::Version(r)
                &&& r.susfs_version@ == zeroed(SUSFS_MAX_VERSION_BUFSIZE as int)
                &&& r.err == ERR_CMD_NOT_SUPPORTED
            },
            ShowType::EnabledFeatures => {
                &&& req.record matches Record::EnabledFeatures(r)
                &&& r.enabled_features@ == zeroed(SUSFS_ENABLED_FEATURES_SIZE as int)
                &&& r.err == ERR_CMD_NOT_SUPPORTED
            },
            ShowType::Variant => {
                &&& req.record matches Record::Variant(r)
                &&& r.susfs_variant@ == zeroed(SUSFS_MAX_VARIANT_BUFSIZE as int)
                &&& r.err == ERR_CMD_NOT_SUPPORTED
            },
        },
        SuSFSSubCommands::AddSusKstatStatically {
            path,
            ino,
            dev,
            nlink,
            size,
            atime,
            atime_nsec,
            mtime,
            mtime_nsec,
            ctime,
            ctime_nsec,
            blocks,
            blksize,
        } => {
            &&& req.record matches Record::SusKstat(r)
            &&& found matches Found::Stat(md)
            &&& shown_values(
                md,
                ino@,
                dev@,
                nlink@,
                size@,
                atime@,
                atime_nsec@,
                mtime@,
                mtime_nsec@,
                ctime@,
                ctime_nsec@,
                blocks@,
                blksize@,
            ) matches Ok(shown)
            &&& r.fixes(encode_utf8(path@), md, shown)
        },
    }
}

/// Builds what is sent for `cmd`, given what was found for it on the host:
/// the command and its record, filled in and marked as not yet answered.
/// Nothing is built for an operation that has to be refused.
pub fn encode(cmd: &SuSFSSubCommands, found: &Found) -> (r: Result<Request, InputError>)
    ensures
        match r {
            Ok(req) => rejection(*cmd, *found) is None && is_request_for(req, *cmd, *found),
            Err(e) => rejection(*cmd, *found) == Some(e),
        },
        r matches Ok(req) ==> req.record.kind() == req.command.record_kind() && req.record.err()
            == ERR_CMD_NOT_SUPPORTED,
{
    let command = cmd.command();
    match cmd {
        SuSFSSubCommands::AddSusPath { path } | SuSFSSubCommands::AddSusPathLoop { path } => {
            match found {
                Found::Stat(md) => Ok(
                    Request { command, record: Record::SusPath(sus_path(path.as_str(), md)) },
                ),
                _ => Err(InputError::PathUnavailable),
            }
        },
        SuSFSSubCommands::SetAndroidDataRootPath { path }
        | SuSFSSubCommands::SetSdcardRootPath { path } => Ok(
            Request { command, record: Record::ExternalDir(external_dir(path.as_str(), command)) },
        ),
        SuSFSSubCommands::HideSusMntsForNonSuProcs { enabled } => match flag(*enabled) {
            Ok(on) => {
                let mut info = SusfsHideSusMnts::default();
                info.enabled = on;
                info.err = ERR_CMD_NOT_SUPPORTED;
                Ok(Request { command, record: Record::HideSusMnts(info) })
            },
            Err(e) => Err(e),
        },
        SuSFSSubCommands::AddSusKstat { path } => match found {
            Found::Stat(md) => Ok(
                Request { command, record: Record::SusKstat(sus_kstat(path.as_str(), md)) },
            ),
            _ => Err(InputError::PathUnavailable),
        },
        SuSFSSubCommands::UpdateSusKstat { path } => match found {
            Found::Stat(md) => Ok(
                Request { command, record: Record::SusKstat(update_sus_kstat(path.as_str(), md)) },
            ),
            _ => Err(InputError::PathUnavailable),
        },
        SuSFSSubCommands::UpdateSusKstatFullClone { path } => match found {
            Found::Stat(md) => Ok(
                Request {
                    command,
                    record: Record::SusKstat(update_sus_kstat_full_clone(path.as_str(), md)),
                },
            ),
            _ => Err(InputError::PathUnavailable),
        },
        SuSFSSubCommands::SetUname { release, version } => Ok(
            Request { command, record: Record::Uname(uname(release.as_str(), version.as_str())) },
        ),
        SuSFSSubCommands::EnableLog { enabled } => match flag(*enabled) {
            Ok(on) => {
                let mut info = SusfsLog::default();
                info.enabled = on;
                info.err = ERR_CMD_NOT_SUPPORTED;
                Ok(Request { command, record: Record::Log(info) })
            },
            Err(e) => Err(e),
        },
        SuSFSSubCommands::SetCmdlineOrBootconfig { .. } => match found {
            Found::Payload(content) => match spoof_cmdline(content.as_slice()) {
                Ok(info) => Ok(Request { command, record: Record::SpoofCmdline(info) }),
                Err(e) => Err(e),
            },
            _ => Err(InputError::PathUnavailable),
        },
        SuSFSSubCommands::AddOpenRedirect { .. } => match found {
            Found::Redirect { target, redirected, stat } => Ok(
                Request {
                    command,
                    record: Record::OpenRedirect(
                        open_redirect(target.as_str(), redirected.as_str(), stat),
                    ),
                },
            ),
            _ => Err(InputError::PathUnavailable),
        },
        SuSFSSubCommands::AddSusMap { path } => Ok(
            Request { command, record: Record::SusMap(sus_map(path.as_str())) },
        ),
        SuSFSSubCommands::EnableAvcLogSpoofing { enabled } => match flag(*enabled) {
            Ok(on) => {
                let mut info = SusfsAvcLogSpoofing::default();
                info.enabled = on;
                info.err = ERR_CMD_NOT_SUPPORTED;
                Ok(Request { command, record: Record::AvcLogSpoofing(info) })
            },
            Err(e) => Err(e),
        },
        SuSFSSubCommands::Show { info_type } => match info_type {
            ShowType::Version => Ok(Request { command, record: Record::Version(version_query()) }),
            ShowType::EnabledFeatures => Ok(
                Request { command, record: Record::EnabledFeatures(enabled_features_query()) },
            ),
            ShowType::Variant => Ok(Request { command, record: Record::Variant(variant_query()) }),
        },
        SuSFSSubCommands::AddSusKstatStatically {
            path,
            ino,
            dev,
            nlink,
            size,
            atime,
            atime_nsec,
            mtime,
            mtime_nsec,
            ctime,
            ctime_nsec,
            blocks,
            blksize,
        } => match found {
            Found::Stat(md) => match read_shown_values(
                md,
                ino.as_str(),
                dev.as_str(),
                nlink.as_str(),
                size.as_str(),
                atime.as_str(),
                atime_nsec.as_str(),
                mtime.as_str(),
                mtime_nsec.as_str(),
                ctime.as_str(),
                ctime_nsec.as_str(),
                blocks.as_str(),
                blksize.as_str(),
            ) {
                Ok(shown) => Ok(
                    Request {
                        command,
                        record: Record::SusKstat(sus_kstat_statically(path.as_str(), md, &shown)),
                    },
                ),
                Err(field) => Err(InputError::InvalidNumber(field)),
            },
            _ => Err(InputError::PathUnavailable),
        },
    }
}

/// A stat value that is written as something other than `default` or a
/// number of its type has the operation refused: with the metadata of the
/// path at hand, the one way for the twelve texts to be refused is as an
/// invalid number, and they are refused as soon as one of them has no
/// value.
pub proof fn lemma_bad_number_is_refused(cmd: SuSFSSubCommands, md: FileStat)
    requires
        cmd is AddSusKstatStatically,
    ensures
        rejection(cmd, Found::Stat(md)) is Some <==> {
            ||| u64_or_default(cmd->ino@, md.ino) is None
            ||| u64_or_default(cmd->dev@, md.dev) is None
            ||| u64_or_default(cmd->nlink@, md.nlink) is None
            ||| u64_or_default(cmd->size@, md.size) is None
            ||| i64_or_default(cmd->atime@, md.atime) is None
            ||| i64_or_default(cmd->atime_nsec@, md.atime_nsec) is None
            ||| i64_or_default(cmd->mtime@, md.mtime) is None
            ||| i64_or_default(cmd->mtime_nsec@, md.mtime_nsec) is None
            ||| i64_or_default(cmd->ctime@, md.ctime) is None
            ||| i64_or_default(cmd->ctime_nsec@, md.ctime_nsec) is None
            ||| u64_or_default(cmd->blocks@, md.blocks) is None
            ||| u64_or_default(cmd->blksize@, md.blksize) is None
        },
        rejection(cmd, Found::Stat(md)) matches Some(e) ==> e is InvalidNumber,
{
}

/// Content that leaves no room for a zero byte behind it is refused, and
/// nothing is there to send.
pub proof fn lemma_large_payload_is_refused(path: String, content: Vec<u8>)
    requires
        content@.len() >= SUSFS_FAKE_CMDLINE_OR_BOOTCONFIG_SIZE,
    ensures
        rejection(SuSFSSubCommands::SetCmdlineOrBootconfig { path }, Found::Payload(content))
            == Some(InputError::PayloadTooLarge),
{
}

} // verus!
