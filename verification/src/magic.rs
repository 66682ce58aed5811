//! Protocol constants: the two magic values of the channel, the command
//! identifiers, the buffer capacities and the status sentinel.

use vstd::prelude::*;

verus! {

/// First fixed argument of every call: selects the channel.
pub const KSU_INSTALL_MAGIC1: u64 = 0xDEAD_BEEF;

/// Second fixed argument of every call: the protocol magic.
pub const SUSFS_MAGIC: u64 = 0xFAFA_FAFA;

pub const CMD_SUSFS_ADD_SUS_PATH: u64 = 0x55550;

pub const CMD_SUSFS_SET_ANDROID_DATA_ROOT_PATH: u64 = 0x55551;

pub const CMD_SUSFS_SET_SDCARD_ROOT_PATH: u64 = 0x55552;

pub const CMD_SUSFS_ADD_SUS_PATH_LOOP: u64 = 0x55553;

pub const CMD_SUSFS_HIDE_SUS_MNTS_FOR_NON_SU_PROCS: u64 = 0x55561;

pub const CMD_SUSFS_ADD_SUS_KSTAT: u64 = 0x55570;

pub const CMD_SUSFS_UPDATE_SUS_KSTAT: u64 = 0x55571;

pub const CMD_SUSFS_ADD_SUS_KSTAT_STATICALLY: u64 = 0x55572;

pub const CMD_SUSFS_SET_UNAME: u64 = 0x55590;

pub const CMD_SUSFS_ENABLE_LOG: u64 = 0x555a0;

pub const CMD_SUSFS_SET_CMDLINE_OR_BOOTCONFIG: u64 = 0x555b0;

pub const CMD_SUSFS_ADD_OPEN_REDIRECT: u64 = 0x555c0;

pub const CMD_SUSFS_SHOW_VERSION: u64 = 0x555e1;

pub const CMD_SUSFS_SHOW_ENABLED_FEATURES: u64 = 0x555e2;

pub const CMD_SUSFS_SHOW_VARIANT: u64 = 0x555e3;

pub const CMD_SUSFS_ENABLE_AVC_LOG_SPOOFING: u64 = 0x60010;

pub const CMD_SUSFS_ADD_SUS_MAP: u64 = 0x60020;

/// Capacity of a pathname buffer, terminator included.
pub const SUSFS_MAX_LEN_PATHNAME: usize = 256;

/// Capacity of the buffer that carries a replacement command line or boot
/// configuration.
pub const SUSFS_FAKE_CMDLINE_OR_BOOTCONFIG_SIZE: usize = 8192;

/// Capacity of the buffer in which the enabled features are reported.
pub const SUSFS_ENABLED_FEATURES_SIZE: usize = 8192;

/// Capacity of the buffer in which the version is reported.
pub const SUSFS_MAX_VERSION_BUFSIZE: usize = 16;

/// Capacity of the buffer in which the variant is reported.
pub const SUSFS_MAX_VARIANT_BUFSIZE: usize = 16;

/// Longest kernel release or version string, terminator excluded.
pub const NEW_UTS_LEN: usize = 64;

/// Capacity of a release or version buffer, terminator included.
pub const UTS_BUFSIZE: usize = 65;

/// Status that every record carries until the kernel answers, and that the
/// kernel leaves in place for a command it was built without.
pub const ERR_CMD_NOT_SUPPORTED: i32 = 126;

} // verus!
