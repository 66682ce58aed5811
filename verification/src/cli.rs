//! The operations as a user names them, and for each the command that
//! carries it and what must be looked up on the host before it can be sent.

use vstd::prelude::*;
use crate::command::Command;

verus! {

/// The operations.
#[derive(Debug, PartialEq, Eq)]
pub enum SuSFSSubCommands {
    /// Hide a path, and all that lies below it, from several system calls.
    AddSusPath { path: String },
    /// Hide a path as `AddSusPath` does, but anew for every process that
    /// zygote spawns. Not for paths on the sdcard.
    AddSusPathLoop { path: String },
    /// Name the root of `/sdcard/Android/data`, so that app paths below it
    /// do not leak.
    SetAndroidDataRootPath { path: String },
    /// Name the root of `/sdcard`, so that paths below it can be hidden.
    SetSdcardRootPath { path: String },
    /// Hide mounts from processes without root: 0 for no, 1 for yes.
    HideSusMntsForNonSuProcs { enabled: u8 },
    /// Store the stat values that a path has now, before something is
    /// mounted over it.
    AddSusKstat { path: String },
    /// Tell the inode, size and block count that a stored path has now.
    UpdateSusKstat { path: String },
    /// Tell the inode that a stored path has now; the stored stat values
    /// stay.
    UpdateSusKstatFullClone { path: String },
    /// Set the kernel release and version that `uname` reports.
    SetUname { release: String, version: String },
    /// Switch the log of the kernel side: 0 for off, 1 for on.
    EnableLog { enabled: u8 },
    /// Set what `/proc/cmdline` or `/proc/bootconfig` shows, from a file.
    SetCmdlineOrBootconfig { path: String },
    /// Have another path opened wherever the target path is opened.
    AddOpenRedirect { target_path: String, redirected_path: String },
    /// Leave a path out of `/proc/self/maps` and the like.
    AddSusMap { path: String },
    /// Switch the disguise of the `su` context in the audit log: 0 for
    /// off, 1 for on.
    EnableAvcLogSpoofing { enabled: u8 },
    /// Ask the kernel side for its version, features or variant.
    Show { info_type: ShowType },
    /// Set the stat values of a path by hand. Each value is a number, or
    /// the word `default` for the value that the path has.
    AddSusKstatStatically {
        path: String,
        ino: String,
        dev: String,
        nlink: String,
        size: String,
        atime: String,
        atime_nsec: String,
        mtime: String,
        mtime_nsec: String,
        ctime: String,
        ctime_nsec: String,
        blocks: String,
        blksize: String,
    },
}

/// What can be asked of the kernel side about itself.
#[derive(Clone, Copy, Debug, PartialEq, Eq, Structural)]
pub enum ShowType {
    Version,
    EnabledFeatures,
    Variant,
}

/// What has to be looked up on the host before an operation can be encoded.
#[derive(Debug, PartialEq, Eq)]
pub enum Lookup {
    /// Nothing: the arguments are enough.
    Nothing,
    /// The metadata of `path`, taken as it is written.
    Stat { path: String },
    /// The absolute form of both paths, and the metadata of the absolute
    /// target.
    Redirect { target: String, redirected: String },
    /// The bytes of the file at the absolute form of `path`.
    Payload { path: String },
}

impl ShowType {
    /// The command that asks for this.
    pub open spec fn command_spec(self) -> Command {
        match self {
            ShowType::Version => Command::ShowVersion,
            ShowType::EnabledFeatures => Command::ShowEnabledFeatures,
            ShowType::Variant => Command::ShowVariant,
        }
    }

    /// The command that asks for this.
    #[verifier::when_used_as_spec(command_spec)]
    pub fn command(self) -> (r: Command)
        ensures
            r == self.command_spec(),
    {
        match self {
            ShowType::Version => Command::ShowVersion,
            ShowType::EnabledFeatures => Command::ShowEnabledFeatures,
            ShowType::Variant => Command::ShowVariant,
        }
    }

    /// Whether the answer is shown as a line of its own. The list of
    /// features brings its own line ends.
    pub open spec fn ends_line_spec(self) -> bool {
        self != ShowType::EnabledFeatures
    }

    /// Whether the answer is shown as a line of its own. The list of
    /// features brings its own line ends.
    #[verifier::when_used_as_spec(ends_line_spec)]
    pub fn ends_line(self) -> (r: bool)
        ensures
            r == self.ends_line_spec(),
    {
        match self {
            ShowType::Version => true,
            ShowType::EnabledFeatures => false,
            ShowType::Variant => true,
        }
    }
}

impl SuSFSSubCommands {
    /// The command that carries this operation.
    pub open spec fn command_spec(&self) -> Command {
        match self {
            SuSFSSubCommands::AddSusPath { .. } => Command::AddSusPath,
            SuSFSSubCommands::AddSusPathLoop { .. } => Command::AddSusPathLoop,
            SuSFSSubCommands::SetAndroidDataRootPath { .. } => Command::SetAndroidDataRootPath,
            SuSFSSubCommands::SetSdcardRootPath { .. } => Command::SetSdcardRootPath,
            SuSFSSubCommands::HideSusMntsForNonSuProcs { .. } => Command::HideSusMntsForNonSuProcs,
            SuSFSSubCommands::AddSusKstat { .. } => Command::AddSusKstat,
            SuSFSSubCommands::UpdateSusKstat { .. } => Command::UpdateSusKstat,
            SuSFSSubCommands::UpdateSusKstatFullClone { .. } => Command::UpdateSusKstat,
            SuSFSSubCommands::SetUname { .. } => Command::SetUname,
            SuSFSSubCommands::EnableLog { .. } => Command::EnableLog,
            SuSFSSubCommands::SetCmdlineOrBootconfig { .. } => Command::SetCmdlineOrBootconfig,
            SuSFSSubCommands::AddOpenRedirect { .. } => Command::AddOpenRedirect,
            SuSFSSubCommands::AddSusMap { .. } => Command::AddSusMap,
            SuSFSSubCommands::EnableAvcLogSpoofing { .. } => Command::EnableAvcLogSpoofing,
            SuSFSSubCommands::Show { info_type } => info_type.command_spec(),
            SuSFSSubCommands::AddSusKstatStatically { .. } => Command::AddSusKstatStatically,
        }
    }

    /// The command that carries this operation.
    #[verifier::when_used_as_spec(command_spec)]
    pub fn command(&self) -> (r: Command)
        ensures
            r == self.command_spec(),
    {
        match self {
            SuSFSSubCommands::AddSusPath { .. } => Command::AddSusPath,
            SuSFSSubCommands::AddSusPathLoop { .. } => Command::AddSusPathLoop,
            SuSFSSubCommands::SetAndroidDataRootPath { .. } => Command::SetAndroidDataRootPath,
            SuSFSSubCommands::SetSdcardRootPath { .. } => Command::SetSdcardRootPath,
            SuSFSSubCommands::HideSusMntsForNonSuProcs { .. } => Command::HideSusMntsForNonSuProcs,
            SuSFSSubCommands::AddSusKstat { .. } => Command::AddSusKstat,
            SuSFSSubCommands::UpdateSusKstat { .. } => Command::UpdateSusKstat,
            SuSFSSubCommands::UpdateSusKstatFullClone { .. } => Command::UpdateSusKstat,
            SuSFSSubCommands::SetUname { .. } => Command::SetUname,
            SuSFSSubCommands::EnableLog { .. } => Command::EnableLog,
            SuSFSSubCommands::SetCmdlineOrBootconfig { .. } => Command::SetCmdlineOrBootconfig,
            SuSFSSubCommands::AddOpenRedirect { .. } => Command::AddOpenRedirect,
            SuSFSSubCommands::AddSusMap { .. } => Command::AddSusMap,
            SuSFSSubCommands::EnableAvcLogSpoofing { .. } => Command::EnableAvcLogSpoofing,
            SuSFSSubCommands::Show { info_type } => info_type.command(),
            SuSFSSubCommands::AddSusKstatStatically { .. } => Command::AddSusKstatStatically,
        }
    }

    /// What has to be looked up on the host for this operation.
    pub open spec fn lookup_spec(&self) -> Lookup {
        match self {
            SuSFSSubCommands::AddSusPath { path } => Lookup::Stat { path: *path },
            SuSFSSubCommands::AddSusPathLoop { path } => Lookup::Stat { path: *path },
            SuSFSSubCommands::AddSusKstat { path } => Lookup::Stat { path: *path },
            SuSFSSubCommands::UpdateSusKstat { path } => Lookup::Stat { path: *path },
            SuSFSSubCommands::UpdateSusKstatFullClone { path } => Lookup::Stat { path: *path },
            SuSFSSubCommands::AddSusKstatStatically { path, .. } => Lookup::Stat { path: *path },
            SuSFSSubCommands::AddOpenRedirect { target_path, redirected_path } => Lookup::Redirect {
                target: *target_path,
                redirected: *redirected_path,
            },
            SuSFSSubCommands::SetCmdlineOrBootconfig { path } => Lookup::Payload { path: *path },
            _ => Lookup::Nothing,
        }
    }

    /// What has to be looked up on the host for this operation.
    pub fn lookup(&self) -> (r: Lookup)
        ensures
            r == self.lookup_spec(),
    {
        match self {
            SuSFSSubCommands::AddSusPath { path } => Lookup::Stat { path: path.clone() },
            SuSFSSubCommands::AddSusPathLoop { path } => Lookup::Stat { path: path.clone() },
            SuSFSSubCommands::AddSusKstat { path } => Lookup::Stat { path: path.clone() },
            SuSFSSubCommands::UpdateSusKstat { path } => Lookup::Stat { path: path.clone() },
            SuSFSSubCommands::UpdateSusKstatFullClone { path } => Lookup::Stat {
                path: path.clone(),
            },
            SuSFSSubCommands::AddSusKstatStatically { path, .. } => Lookup::Stat {
                path: path.clone(),
            },
            SuSFSSubCommands::AddOpenRedirect { target_path, redirected_path } => Lookup::Redirect {
                target: target_path.clone(),
                redirected: redirected_path.clone(),
            },
            SuSFSSubCommands::SetCmdlineOrBootconfig { path } => Lookup::Payload {
                path: path.clone(),
            },
            _ => Lookup::Nothing,
        }
    }
}

/// Two operations are carried by one command only where they are of one
/// kind, or where both update the stat values of a path.
pub proof fn lemma_operations_share_no_command(a: SuSFSSubCommands, b: SuSFSSubCommands)
    requires
        a.command() == b.command(),
        !(a is UpdateSusKstat && b is UpdateSusKstatFullClone),
        !(a is UpdateSusKstatFullClone && b is UpdateSusKstat),
    ensures
        a is AddSusPath <==> b is AddSusPath,
        a is AddSusPathLoop <==> b is AddSusPathLoop,
        a is SetAndroidDataRootPath <==> b is SetAndroidDataRootPath,
        a is SetSdcardRootPath <==> b is SetSdcardRootPath,
        a is HideSusMntsForNonSuProcs <==> b is HideSusMntsForNonSuProcs,
        a is AddSusKstat <==> b is AddSusKstat,
        a is UpdateSusKstat <==> b is UpdateSusKstat,
        a is UpdateSusKstatFullClone <==> b is UpdateSusKstatFullClone,
        a is SetUname <==> b is SetUname,
        a is EnableLog <==> b is EnableLog,
        a is SetCmdlineOrBootconfig <==> b is SetCmdlineOrBootconfig,
        a is AddOpenRedirect <==> b is AddOpenRedirect,
        a is AddSusMap <==> b is AddSusMap,
        a is EnableAvcLogSpoofing <==> b is EnableAvcLogSpoofing,
        a is Show <==> b is Show,
        a is AddSusKstatStatically <==> b is AddSusKstatStatically,
        a matches SuSFSSubCommands::Show { info_type: x } ==> b matches SuSFSSubCommands::Show {
            info_type: y,
        } && x == y,
{
}

} // verus!
