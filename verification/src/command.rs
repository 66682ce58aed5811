//! The commands that the kernel side knows, each with its identifier and the
//! kind of record that it carries.

use vstd::prelude::*;
use crate::magic::{
    CMD_SUSFS_ADD_OPEN_REDIRECT, CMD_SUSFS_ADD_SUS_KSTAT, CMD_SUSFS_ADD_SUS_KSTAT_STATICALLY,
    CMD_SUSFS_ADD_SUS_MAP, CMD_SUSFS_ADD_SUS_PATH, CMD_SUSFS_ADD_SUS_PATH_LOOP,
    CMD_SUSFS_ENABLE_AVC_LOG_SPOOFING, CMD_SUSFS_ENABLE_LOG,
    CMD_SUSFS_HIDE_SUS_MNTS_FOR_NON_SU_PROCS, CMD_SUSFS_SET_ANDROID_DATA_ROOT_PATH,
    CMD_SUSFS_SET_CMDLINE_OR_BOOTCONFIG, CMD_SUSFS_SET_SDCARD_ROOT_PATH, CMD_SUSFS_SET_UNAME,
    CMD_SUSFS_SHOW_ENABLED_FEATURES, CMD_SUSFS_SHOW_VARIANT, CMD_SUSFS_SHOW_VERSION,
    CMD_SUSFS_UPDATE_SUS_KSTAT,
};

verus! {

/// One handler of the kernel side.
#[derive(Clone, Copy, Debug, PartialEq, Eq, Structural)]
pub enum Command {
    AddSusPath,
    SetAndroidDataRootPath,
    SetSdcardRootPath,
    AddSusPathLoop,
    HideSusMntsForNonSuProcs,
    AddSusKstat,
    UpdateSusKstat,
    AddSusKstatStatically,
    SetUname,
    EnableLog,
    SetCmdlineOrBootconfig,
    AddOpenRedirect,
    ShowVersion,
    ShowEnabledFeatures,
    ShowVariant,
    EnableAvcLogSpoofing,
    AddSusMap,
}

/// The layout of a record.
#[derive(Clone, Copy, Debug, PartialEq, Eq, Structural)]
pub enum RecordKind {
    SusPath,
    ExternalDir,
    HideSusMnts,
    SusKstat,
    Uname,
    Log,
    SpoofCmdline,
    OpenRedirect,
    SusMap,
    AvcLogSpoofing,
    EnabledFeatures,
    Variant,
    Version,
}

impl Command {
    /// The number by which the kernel side knows this command.
    pub open spec fn id_spec(self) -> u64 {
        match self {
            Command::AddSusPath => CMD_SUSFS_ADD_SUS_PATH,
            Command::SetAndroidDataRootPath => CMD_SUSFS_SET_ANDROID_DATA_ROOT_PATH,
            Command::SetSdcardRootPath => CMD_SUSFS_SET_SDCARD_ROOT_PATH,
            Command::AddSusPathLoop => CMD_SUSFS_ADD_SUS_PATH_LOOP,
            Command::HideSusMntsForNonSuProcs => CMD_SUSFS_HIDE_SUS_MNTS_FOR_NON_SU_PROCS,
            Command::AddSusKstat => CMD_SUSFS_ADD_SUS_KSTAT,
            Command::UpdateSusKstat => CMD_SUSFS_UPDATE_SUS_KSTAT,
            Command::AddSusKstatStatically => CMD_SUSFS_ADD_SUS_KSTAT_STATICALLY,
            Command::SetUname => CMD_SUSFS_SET_UNAME,
            Command::EnableLog => CMD_SUSFS_ENABLE_LOG,
            Command::SetCmdlineOrBootconfig => CMD_SUSFS_SET_CMDLINE_OR_BOOTCONFIG,
            Command::AddOpenRedirect => CMD_SUSFS_ADD_OPEN_REDIRECT,
            Command::ShowVersion => CMD_SUSFS_SHOW_VERSION,
            Command::ShowEnabledFeatures => CMD_SUSFS_SHOW_ENABLED_FEATURES,
            Command::ShowVariant => CMD_SUSFS_SHOW_VARIANT,
            Command::EnableAvcLogSpoofing => CMD_SUSFS_ENABLE_AVC_LOG_SPOOFING,
            Command::AddSusMap => CMD_SUSFS_ADD_SUS_MAP,
        }
    }

    /// The number by which the kernel side knows this command.
    #[verifier::when_used_as_spec(id_spec)]
    pub fn id(self) -> (r: u64)
        ensures
            r == self.id_spec(),
    {
        match self {
            Command::AddSusPath => CMD_SUSFS_ADD_SUS_PATH,
            Command::SetAndroidDataRootPath => CMD_SUSFS_SET_ANDROID_DATA_ROOT_PATH,
            Command::SetSdcardRootPath => CMD_SUSFS_SET_SDCARD_ROOT_PATH,
            Command::AddSusPathLoop => CMD_SUSFS_ADD_SUS_PATH_LOOP,
            Command::HideSusMntsForNonSuProcs => CMD_SUSFS_HIDE_SUS_MNTS_FOR_NON_SU_PROCS,
            Command::AddSusKstat => CMD_SUSFS_ADD_SUS_KSTAT,
            Command::UpdateSusKstat => CMD_SUSFS_UPDATE_SUS_KSTAT,
            Command::AddSusKstatStatically => CMD_SUSFS_ADD_SUS_KSTAT_STATICALLY,
            Command::SetUname => CMD_SUSFS_SET_UNAME,
            Command::EnableLog => CMD_SUSFS_ENABLE_LOG,
            Command::SetCmdlineOrBootconfig => CMD_SUSFS_SET_CMDLINE_OR_BOOTCONFIG,
            Command::AddOpenRedirect => CMD_SUSFS_ADD_OPEN_REDIRECT,
            Command::ShowVersion => CMD_SUSFS_SHOW_VERSION,
            Command::ShowEnabledFeatures => CMD_SUSFS_SHOW_ENABLED_FEATURES,
            Command::ShowVariant => CMD_SUSFS_SHOW_VARIANT,
            Command::EnableAvcLogSpoofing => CMD_SUSFS_ENABLE_AVC_LOG_SPOOFING,
            Command::AddSusMap => CMD_SUSFS_ADD_SUS_MAP,
        }
    }

    /// The command that `id` names, if it names one.
    pub fn from_id(id: u64) -> (r: Option<Command>)
        ensures
            match r {
                Some(c) => c.id() == id,
                None => forall|c: Command| c.id() != id,
            },
    {
        if id == CMD_SUSFS_ADD_SUS_PATH {
            Some(Command::AddSusPath)
        } else if id == CMD_SUSFS_SET_ANDROID_DATA_ROOT_PATH {
            Some(Command::SetAndroidDataRootPath)
        } else if id == CMD_SUSFS_SET_SDCARD_ROOT_PATH {
            Some(Command::SetSdcardRootPath)
        } else if id == CMD_SUSFS_ADD_SUS_PATH_LOOP {
            Some(Command::AddSusPathLoop)
        } else if id == CMD_SUSFS_HIDE_SUS_MNTS_FOR_NON_SU_PROCS {
            Some(Command::HideSusMntsForNonSuProcs)
        } else if id == CMD_SUSFS_ADD_SUS_KSTAT {
            Some(Command::AddSusKstat)
        } else if id == CMD_SUSFS_UPDATE_SUS_KSTAT {
            Some(Command::UpdateSusKstat)
        } else if id == CMD_SUSFS_ADD_SUS_KSTAT_STATICALLY {
            Some(Command::AddSusKstatStatically)
        } else if id == CMD_SUSFS_SET_UNAME {
            Some(Command::SetUname)
        } else if id == CMD_SUSFS_ENABLE_LOG {
            Some(Command::EnableLog)
        } else if id == CMD_SUSFS_SET_CMDLINE_OR_BOOTCONFIG {
            Some(Command::SetCmdlineOrBootconfig)
        } else if id == CMD_SUSFS_ADD_OPEN_REDIRECT {
            Some(Command::AddOpenRedirect)
        } else if id == CMD_SUSFS_SHOW_VERSION {
            Some(Command::ShowVersion)
        } else if id == CMD_SUSFS_SHOW_ENABLED_FEATURES {
            Some(Command::ShowEnabledFeatures)
        } else if id == CMD_SUSFS_SHOW_VARIANT {
            Some(Command::ShowVariant)
        } else if id == CMD_SUSFS_ENABLE_AVC_LOG_SPOOFING {
            Some(Command::EnableAvcLogSpoofing)
        } else if id == CMD_SUSFS_ADD_SUS_MAP {
            Some(Command::AddSusMap)
        } else {
            None
        }
    }

    /// The kind of record that goes with this command.
    pub open spec fn record_kind_spec(self) -> RecordKind {
        match self {
            Command::AddSusPath | Command::AddSusPathLoop => RecordKind::SusPath,
            Command::SetAndroidDataRootPath | Command::SetSdcardRootPath => RecordKind::ExternalDir,
            Command::HideSusMntsForNonSuProcs => RecordKind::HideSusMnts,
            Command::AddSusKstat | Command::UpdateSusKstat | Command::AddSusKstatStatically =>
                RecordKind::SusKstat,
            Command::SetUname => RecordKind::Uname,
            Command::EnableLog => RecordKind::Log,
            Command::SetCmdlineOrBootconfig => RecordKind::SpoofCmdline,
            Command::AddOpenRedirect => RecordKind::OpenRedirect,
            Command::ShowVersion => RecordKind::Version,
            Command::ShowEnabledFeatures => RecordKind::EnabledFeatures,
            Command::ShowVariant => RecordKind::Variant,
            Command::EnableAvcLogSpoofing => RecordKind::AvcLogSpoofing,
            Command::AddSusMap => RecordKind::SusMap,
        }
    }

    /// The kind of record that goes with this command.
    #[verifier::when_used_as_spec(record_kind_spec)]
    pub fn record_kind(self) -> (r: RecordKind)
        ensures
            r == self.record_kind_spec(),
    {
        match self {
            Command::AddSusPath | Command::AddSusPathLoop => RecordKind::SusPath,
            Command::SetAndroidDataRootPath | Command::SetSdcardRootPath => RecordKind::ExternalDir,
            Command::HideSusMntsForNonSuProcs => RecordKind::HideSusMnts,
            Command::AddSusKstat | Command::UpdateSusKstat | Command::AddSusKstatStatically =>
                RecordKind::SusKstat,
            Command::SetUname => RecordKind::Uname,
            Command::EnableLog => RecordKind::Log,
            Command::SetCmdlineOrBootconfig => RecordKind::SpoofCmdline,
            Command::AddOpenRedirect => RecordKind::OpenRedirect,
            Command::ShowVersion => RecordKind::Version,
            Command::ShowEnabledFeatures => RecordKind::EnabledFeatures,
            Command::ShowVariant => RecordKind::Variant,
            Command::EnableAvcLogSpoofing => RecordKind::AvcLogSpoofing,
            Command::AddSusMap => RecordKind::SusMap,
        }
    }

    /// Whether the kernel answers this command with text.
    pub open spec fn is_query(self) -> bool {
        self == Command::ShowVersion || self == Command::ShowEnabledFeatures || self
            == Command::ShowVariant
    }
}

/// No two commands share an identifier.
pub proof fn lemma_command_ids_differ(a: Command, b: Command)
    requires
        a.id() == b.id(),
    ensures
        a == b,
{
}

} // verus!
