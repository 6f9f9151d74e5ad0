//! The error mapper: one tagged error value for the whole library.
//!
//! An error is a closed kind together with a message. Numeric codes received
//! in an error envelope map one-to-one to kinds; an unrecognized code maps to
//! [`LsmErrorKind::LibBug`] with the raw code embedded in the message, so no
//! information is lost. Failures that never cross the wire (socket errors,
//! malformed framing, UTF-8 or JSON) use the disjoint transport kinds.

use vstd::prelude::*;

use crate::text::{i64_to_dec_string, signed_dec_chars};

verus! {

/// The closed set of error kinds.
#[derive(Debug, Clone, Copy, PartialEq, Eq, Structural)]
pub enum LsmErrorKind {
    LibBug,
    PluginBug,
    TimeOut,
    DaemonNotRunning,
    PermissionDenied,
    NameConflict,
    ExistsInitiator,
    InvalidArgument,
    NoStateChange,
    NetworkConRefused,
    NetworkHostDown,
    NetworkError,
    NoMemory,
    NoSupport,
    IsMasked,
    HasChildDependency,
    NotFoundAccessGroup,
    NotFoundFs,
    NotFoundJob,
    NotFoundPool,
    NotFoundFsSnapshot,
    NotFoundVolume,
    NotFoundNfsExport,
    NotFoundSystem,
    NotFoundDisk,
    NotLicensed,
    NoSupportOnlineChange,
    NoSupportOfflineChange,
    PluginAuthFailed,
    PluginIpcFail,
    PluginSocketPermission,
    PluginNotExist,
    NoEnoughSpace,
    TransportCommunication,
    TransportSerialization,
    TransportInvalidArg,
    LastInitInAccessGroup,
    UnSupportedSearchKey,
    EmptyAccessGroup,
    PoolNotReady,
    DiskNotFree,
}

/// A tagged error: a kind and a human-readable message.
#[derive(Debug)]
pub struct LsmError {
    pub kind: LsmErrorKind,
    pub msg: String,
}

pub const ERROR_NUMBER_LIB_BUG: i64 = 1;

pub const ERROR_NUMBER_PLUGIN_BUG: i64 = 2;

pub const ERROR_NUMBER_TIMEOUT: i64 = 11;

pub const ERROR_NUMBER_NAME_CONFLICT: i64 = 50;

pub const ERROR_NUMBER_EXISTS_INITIATOR: i64 = 52;

pub const ERROR_NUMBER_INVALID_ARGUMENT: i64 = 101;

pub const ERROR_NUMBER_NO_STATE_CHANGE: i64 = 125;

pub const ERROR_NUMBER_NETWORK_CONNREFUSED: i64 = 140;

pub const ERROR_NUMBER_NETWORK_HOSTDOWN: i64 = 141;

pub const ERROR_NUMBER_NETWORK_ERROR: i64 = 142;

pub const ERROR_NUMBER_NO_MEMORY: i64 = 152;

pub const ERROR_NUMBER_NO_SUPPORT: i64 = 153;

pub const ERROR_NUMBER_IS_MASKED: i64 = 160;

pub const ERROR_NUMBER_HAS_CHILD_DEPENDENCY: i64 = 161;

pub const ERROR_NUMBER_NOT_FOUND_ACCESS_GROUP: i64 = 200;

pub const ERROR_NUMBER_NOT_FOUND_FS: i64 = 201;

pub const ERROR_NUMBER_NOT_FOUND_JOB: i64 = 202;

pub const ERROR_NUMBER_NOT_FOUND_POOL: i64 = 203;

pub const ERROR_NUMBER_NOT_FOUND_FS_SS: i64 = 204;

pub const ERROR_NUMBER_NOT_FOUND_VOLUME: i64 = 205;

pub const ERROR_NUMBER_NOT_FOUND_NFS_EXPORT: i64 = 206;

pub const ERROR_NUMBER_NOT_FOUND_SYSTEM: i64 = 208;

pub const ERROR_NUMBER_NOT_FOUND_DISK: i64 = 209;

pub const ERROR_NUMBER_NOT_LICENSED: i64 = 226;

pub const ERROR_NUMBER_NO_SUPPORT_ONLINE_CHANGE: i64 = 250;

pub const ERROR_NUMBER_NO_SUPPORT_OFFLINE_CHANGE: i64 = 251;

pub const ERROR_NUMBER_PLUGIN_AUTH_FAILED: i64 = 300;

pub const ERROR_NUMBER_PLUGIN_IPC_FAIL: i64 = 301;

pub const ERROR_NUMBER_PLUGIN_SOCKET_PERMISSION: i64 = 307;

pub const ERROR_NUMBER_PLUGIN_NOT_EXIST: i64 = 311;

pub const ERROR_NUMBER_NOT_ENOUGH_SPACE: i64 = 350;

pub const ERROR_NUMBER_TRANSPORT_COMMUNICATION: i64 = 400;

pub const ERROR_NUMBER_TRANSPORT_SERIALIZATION: i64 = 401;

pub const ERROR_NUMBER_TRANSPORT_INVALID_ARG: i64 = 402;

pub const ERROR_NUMBER_LAST_INIT_IN_ACCESS_GROUP: i64 = 502;

pub const ERROR_NUMBER_UNSUPPORTED_SEARCH_KEY: i64 = 510;

pub const ERROR_NUMBER_EMPTY_ACCESS_GROUP: i64 = 511;

pub const ERROR_NUMBER_POOL_NOT_READY: i64 = 512;

pub const ERROR_NUMBER_DISK_NOT_FREE: i64 = 513;

/// The fixed table from wire error code to kind; `None` outside the table.
pub open spec fn kind_of_code(code: int) -> Option<LsmErrorKind> {
    if code == ERROR_NUMBER_LIB_BUG {
        Some(LsmErrorKind::LibBug)
    } else if code == ERROR_NUMBER_PLUGIN_BUG {
        Some(LsmErrorKind::PluginBug)
    } else if code == ERROR_NUMBER_TIMEOUT {
        Some(LsmErrorKind::TimeOut)
    } else if code == ERROR_NUMBER_NAME_CONFLICT {
        Some(LsmErrorKind::NameConflict)
    } else if code == ERROR_NUMBER_EXISTS_INITIATOR {
        Some(LsmErrorKind::ExistsInitiator)
    } else if code == ERROR_NUMBER_INVALID_ARGUMENT {
        Some(LsmErrorKind::InvalidArgument)
    } else if code == ERROR_NUMBER_NO_STATE_CHANGE {
        Some(LsmErrorKind::NoStateChange)
    } else if code == ERROR_NUMBER_NETWORK_CONNREFUSED {
        Some(LsmErrorKind::NetworkConRefused)
    } else if code == ERROR_NUMBER_NETWORK_HOSTDOWN {
        Some(LsmErrorKind::NetworkHostDown)
    } else if code == ERROR_NUMBER_NETWORK_ERROR {
        Some(LsmErrorKind::NetworkError)
    } else if code == ERROR_NUMBER_NO_MEMORY {
        Some(LsmErrorKind::NoMemory)
    } else if code == ERROR_NUMBER_NO_SUPPORT {
        Some(LsmErrorKind::NoSupport)
    } else if code == ERROR_NUMBER_IS_MASKED {
        Some(LsmErrorKind::IsMasked)
    } else if code == ERROR_NUMBER_HAS_CHILD_DEPENDENCY {
        Some(LsmErrorKind::HasChildDependency)
    } else if code == ERROR_NUMBER_NOT_FOUND_ACCESS_GROUP {
        Some(LsmErrorKind::NotFoundAccessGroup)
    } else if code == ERROR_NUMBER_NOT_FOUND_FS {
        Some(LsmErrorKind::NotFoundFs)
    } else if code == ERROR_NUMBER_NOT_FOUND_JOB {
        Some(LsmErrorKind::NotFoundJob)
    } else if code == ERROR_NUMBER_NOT_FOUND_POOL {
        Some(LsmErrorKind::NotFoundPool)
    } else if code == ERROR_NUMBER_NOT_FOUND_FS_SS {
        Some(LsmErrorKind::NotFoundFsSnapshot)
    } else if code == ERROR_NUMBER_NOT_FOUND_VOLUME {
        Some(LsmErrorKind::NotFoundVolume)
    } else if code == ERROR_NUMBER_NOT_FOUND_NFS_EXPORT {
        Some(LsmErrorKind::NotFoundNfsExport)
    } else if code == ERROR_NUMBER_NOT_FOUND_SYSTEM {
        Some(LsmErrorKind::NotFoundSystem)
    } else if code == ERROR_NUMBER_NOT_FOUND_DISK {
        Some(LsmErrorKind::NotFoundDisk)
    } else if code == ERROR_NUMBER_NOT_LICENSED {
        Some(LsmErrorKind::NotLicensed)
    } else if code == ERROR_NUMBER_NO_SUPPORT_ONLINE_CHANGE {
        Some(LsmErrorKind::NoSupportOnlineChange)
    } else if code == ERROR_NUMBER_NO_SUPPORT_OFFLINE_CHANGE {
        Some(LsmErrorKind::NoSupportOfflineChange)
    } else if code == ERROR_NUMBER_PLUGIN_AUTH_FAILED {
        Some(LsmErrorKind::PluginAuthFailed)
    } else if code == ERROR_NUMBER_PLUGIN_IPC_FAIL {
        Some(LsmErrorKind::PluginIpcFail)
    } else if code == ERROR_NUMBER_PLUGIN_SOCKET_PERMISSION {
        Some(LsmErrorKind::PluginSocketPermission)
    } else if code == ERROR_NUMBER_PLUGIN_NOT_EXIST {
        Some(LsmErrorKind::PluginNotExist)
    } else if code == ERROR_NUMBER_NOT_ENOUGH_SPACE {
        Some(LsmErrorKind::NoEnoughSpace)
    } else if code == ERROR_NUMBER_TRANSPORT_COMMUNICATION {
        Some(LsmErrorKind::TransportCommunication)
    } else if code == ERROR_NUMBER_TRANSPORT_SERIALIZATION {
        Some(LsmErrorKind::TransportSerialization)
    } else if code == ERROR_NUMBER_TRANSPORT_INVALID_ARG {
        Some(LsmErrorKind::TransportInvalidArg)
    } else if code == ERROR_NUMBER_LAST_INIT_IN_ACCESS_GROUP {
        Some(LsmErrorKind::LastInitInAccessGroup)
    } else if code == ERROR_NUMBER_UNSUPPORTED_SEARCH_KEY {
        Some(LsmErrorKind::UnSupportedSearchKey)
    } else if code == ERROR_NUMBER_EMPTY_ACCESS_GROUP {
        Some(LsmErrorKind::EmptyAccessGroup)
    } else if code == ERROR_NUMBER_POOL_NOT_READY {
        Some(LsmErrorKind::PoolNotReady)
    } else if code == ERROR_NUMBER_DISK_NOT_FREE {
        Some(LsmErrorKind::DiskNotFree)
    } else {
        None
    }
}

/// The message an unrecognized code maps to: the raw code and the original
/// message, so no information is lost.
pub open spec fn unknown_code_msg(code: int, message: Seq<char>) -> Seq<char> {
    "unknown error code "@ + signed_dec_chars(code) + ": "@ + message
}

impl LsmError {
    /// Maps a numeric error code and a message, received in an error
    /// envelope, to one tagged error value. A code in the fixed table gets
    /// its kind and keeps the message verbatim; any other code maps to
    /// `LibBug` with the code embedded in the message.
    pub fn map(code: i64, message: String) -> (r: LsmError)
        ensures
            match kind_of_code(code as int) {
                Some(k) => r.kind == k && r.msg@ == message@,
                None => r.kind == LsmErrorKind::LibBug && r.msg@ == unknown_code_msg(
                    code as int,
                    message@,
                ),
            },
    {
        let kind_opt: Option<LsmErrorKind> = match code {
            ERROR_NUMBER_LIB_BUG => Some(LsmErrorKind::LibBug),
            ERROR_NUMBER_PLUGIN_BUG => Some(LsmErrorKind::PluginBug),
            ERROR_NUMBER_TIMEOUT => Some(LsmErrorKind::TimeOut),
            ERROR_NUMBER_NAME_CONFLICT => Some(LsmErrorKind::NameConflict),
            ERROR_NUMBER_EXISTS_INITIATOR => Some(LsmErrorKind::ExistsInitiator),
            ERROR_NUMBER_INVALID_ARGUMENT => Some(LsmErrorKind::InvalidArgument),
            ERROR_NUMBER_NO_STATE_CHANGE => Some(LsmErrorKind::NoStateChange),
            ERROR_NUMBER_NETWORK_CONNREFUSED => Some(LsmErrorKind::NetworkConRefused),
            ERROR_NUMBER_NETWORK_HOSTDOWN => Some(LsmErrorKind::NetworkHostDown),
            ERROR_NUMBER_NETWORK_ERROR => Some(LsmErrorKind::NetworkError),
            ERROR_NUMBER_NO_MEMORY => Some(LsmErrorKind::NoMemory),
            ERROR_NUMBER_NO_SUPPORT => Some(LsmErrorKind::NoSupport),
            ERROR_NUMBER_IS_MASKED => Some(LsmErrorKind::IsMasked),
            ERROR_NUMBER_HAS_CHILD_DEPENDENCY => Some(LsmErrorKind::HasChildDependency),
            ERROR_NUMBER_NOT_FOUND_ACCESS_GROUP => Some(LsmErrorKind::NotFoundAccessGroup),
            ERROR_NUMBER_NOT_FOUND_FS => Some(LsmErrorKind::NotFoundFs),
            ERROR_NUMBER_NOT_FOUND_JOB => Some(LsmErrorKind::NotFoundJob),
            ERROR_NUMBER_NOT_FOUND_POOL => Some(LsmErrorKind::NotFoundPool),
            ERROR_NUMBER_NOT_FOUND_FS_SS => Some(LsmErrorKind::NotFoundFsSnapshot),
            ERROR_NUMBER_NOT_FOUND_VOLUME => Some(LsmErrorKind::NotFoundVolume),
            ERROR_NUMBER_NOT_FOUND_NFS_EXPORT => Some(LsmErrorKind::NotFoundNfsExport),
            ERROR_NUMBER_NOT_FOUND_SYSTEM => Some(LsmErrorKind::NotFoundSystem),
            ERROR_NUMBER_NOT_FOUND_DISK => Some(LsmErrorKind::NotFoundDisk),
            ERROR_NUMBER_NOT_LICENSED => Some(LsmErrorKind::NotLicensed),
            ERROR_NUMBER_NO_SUPPORT_ONLINE_CHANGE => Some(LsmErrorKind::NoSupportOnlineChange),
            ERROR_NUMBER_NO_SUPPORT_OFFLINE_CHANGE => Some(LsmErrorKind::NoSupportOfflineChange),
            ERROR_NUMBER_PLUGIN_AUTH_FAILED => Some(LsmErrorKind::PluginAuthFailed),
            ERROR_NUMBER_PLUGIN_IPC_FAIL => Some(LsmErrorKind::PluginIpcFail),
            ERROR_NUMBER_PLUGIN_SOCKET_PERMISSION => Some(LsmErrorKind::PluginSocketPermission),
            ERROR_NUMBER_PLUGIN_NOT_EXIST => Some(LsmErrorKind::PluginNotExist),
            ERROR_NUMBER_NOT_ENOUGH_SPACE => Some(LsmErrorKind::NoEnoughSpace),
            ERROR_NUMBER_TRANSPORT_COMMUNICATION => Some(LsmErrorKind::TransportCommunication),
            ERROR_NUMBER_TRANSPORT_SERIALIZATION => Some(LsmErrorKind::TransportSerialization),
            ERROR_NUMBER_TRANSPORT_INVALID_ARG => Some(LsmErrorKind::TransportInvalidArg),
            ERROR_NUMBER_LAST_INIT_IN_ACCESS_GROUP => Some(LsmErrorKind::LastInitInAccessGroup),
            ERROR_NUMBER_UNSUPPORTED_SEARCH_KEY => Some(LsmErrorKind::UnSupportedSearchKey),
            ERROR_NUMBER_EMPTY_ACCESS_GROUP => Some(LsmErrorKind::EmptyAccessGroup),
            ERROR_NUMBER_POOL_NOT_READY => Some(LsmErrorKind::PoolNotReady),
            ERROR_NUMBER_DISK_NOT_FREE => Some(LsmErrorKind::DiskNotFree),
            _ => None,
        };
        match kind_opt {
            Some(kind) => LsmError { kind, msg: message },
            None => {
                let mut m = "unknown error code ".to_owned();
                m.append(i64_to_dec_string(code).as_str());
                m.append(": ");
                m.append(message.as_str());
                proof {
                    assert(m@ =~= unknown_code_msg(code as int, message@));
                }
                LsmError { kind: LsmErrorKind::LibBug, msg: m }
            },
        }
    }

    /// A fresh error of the given kind with a fixed message.
    pub fn with_msg(kind: LsmErrorKind, msg: &str) -> (r: LsmError)
        ensures
            r.kind == kind,
            r.msg@ == msg@,
    {
        LsmError { kind, msg: msg.to_owned() }
    }
}

/// The result type used throughout the library.
pub type LsmResult<T> = Result<T, LsmError>;

/// A one-line description of each kind.
pub open spec fn kind_description(kind: LsmErrorKind) -> Seq<char> {
    match kind {
        LsmErrorKind::LibBug => "Library bug"@,
        LsmErrorKind::PluginBug => "Plugin bug"@,
        LsmErrorKind::TimeOut => "Timeout"@,
        LsmErrorKind::DaemonNotRunning => "LibStoragemgmt daemon is not running"@,
        LsmErrorKind::PermissionDenied => "Permission denied"@,
        LsmErrorKind::NameConflict => "Name conflict"@,
        LsmErrorKind::ExistsInitiator => "Initiator exists and in use"@,
        LsmErrorKind::InvalidArgument => "Invalid argument"@,
        LsmErrorKind::NoStateChange => "No state change"@,
        LsmErrorKind::NetworkConRefused => "Network connection refused"@,
        LsmErrorKind::NetworkHostDown => "Network host down"@,
        LsmErrorKind::NetworkError => "Network error"@,
        LsmErrorKind::NoMemory => "Plugin ran out of memory"@,
        LsmErrorKind::NoSupport => "Not supported"@,
        LsmErrorKind::IsMasked => "Volume masked to access group"@,
        LsmErrorKind::HasChildDependency => "Volume or file system has child dependency"@,
        LsmErrorKind::NotFoundAccessGroup => "Access group not found"@,
        LsmErrorKind::NotFoundFs => "File system not found"@,
        LsmErrorKind::NotFoundJob => "Job not found"@,
        LsmErrorKind::NotFoundPool => "Pool not found"@,
        LsmErrorKind::NotFoundFsSnapshot => "File system snapshot not found"@,
        LsmErrorKind::NotFoundVolume => "Volume not found"@,
        LsmErrorKind::NotFoundNfsExport => "NFS export not found"@,
        LsmErrorKind::NotFoundSystem => "System not found"@,
        LsmErrorKind::NotFoundDisk => "Disk not found"@,
        LsmErrorKind::NotLicensed => "Specified feature is not licensed in storage system"@,
        LsmErrorKind::NoSupportOnlineChange => "Specified action require item in offline mode"@,
        LsmErrorKind::NoSupportOfflineChange => "Specified action require item in online mode"@,
        LsmErrorKind::PluginAuthFailed => "Authentication failed in plugin"@,
        LsmErrorKind::PluginIpcFail => "IPC communication to plugin failed"@,
        LsmErrorKind::PluginSocketPermission => (
        "Permission deny on IPC communication to plugin"@),
        LsmErrorKind::PluginNotExist => "Specified plugin does not exist"@,
        LsmErrorKind::NoEnoughSpace => "No enough space"@,
        LsmErrorKind::TransportCommunication => "Error when communicating with plug-in"@,
        LsmErrorKind::TransportSerialization => "Incorrect transport serialization"@,
        LsmErrorKind::TransportInvalidArg => "Invalid transport argument"@,
        LsmErrorKind::LastInitInAccessGroup => (
        "Refused to remove the last initiator from access group"@),
        LsmErrorKind::UnSupportedSearchKey => "Specified search key is not supported"@,
        LsmErrorKind::EmptyAccessGroup => "Refused to mask volume to empty access group"@,
        LsmErrorKind::PoolNotReady => "Pool is not ready for specified action"@,
        LsmErrorKind::DiskNotFree => "Disk is not free for specified action"@,
    }
}

impl LsmError {
    /// A one-line description of the error's kind.
    pub fn description(&self) -> (r: &'static str)
        ensures
            r@ == kind_description(self.kind),
    {
        match self.kind {
            LsmErrorKind::LibBug => "Library bug",
            LsmErrorKind::PluginBug => "Plugin bug",
            LsmErrorKind::TimeOut => "Timeout",
            LsmErrorKind::DaemonNotRunning => "LibStoragemgmt daemon is not running",
            LsmErrorKind::PermissionDenied => "Permission denied",
            LsmErrorKind::NameConflict => "Name conflict",
            LsmErrorKind::ExistsInitiator => "Initiator exists and in use",
            LsmErrorKind::InvalidArgument => "Invalid argument",
            LsmErrorKind::NoStateChange => "No state change",
            LsmErrorKind::NetworkConRefused => "Network connection refused",
            LsmErrorKind::NetworkHostDown => "Network host down",
            LsmErrorKind::NetworkError => "Network error",
            LsmErrorKind::NoMemory => "Plugin ran out of memory",
            LsmErrorKind::NoSupport => "Not supported",
            LsmErrorKind::IsMasked => "Volume masked to access group",
            LsmErrorKind::HasChildDependency => "Volume or file system has child dependency",
            LsmErrorKind::NotFoundAccessGroup => "Access group not found",
            LsmErrorKind::NotFoundFs => "File system not found",
            LsmErrorKind::NotFoundJob => "Job not found",
            LsmErrorKind::NotFoundPool => "Pool not found",
            LsmErrorKind::NotFoundFsSnapshot => "File system snapshot not found",
            LsmErrorKind::NotFoundVolume => "Volume not found",
            LsmErrorKind::NotFoundNfsExport => "NFS export not found",
            LsmErrorKind::NotFoundSystem => "System not found",
            LsmErrorKind::NotFoundDisk => "Disk not found",
            LsmErrorKind::NotLicensed => "Specified feature is not licensed in storage system",
            LsmErrorKind::NoSupportOnlineChange => "Specified action require item in offline mode",
            LsmErrorKind::NoSupportOfflineChange => "Specified action require item in online mode",
            LsmErrorKind::PluginAuthFailed => "Authentication failed in plugin",
            LsmErrorKind::PluginIpcFail => "IPC communication to plugin failed",
            LsmErrorKind::PluginSocketPermission => (
            "Permission deny on IPC communication to plugin"),
            LsmErrorKind::PluginNotExist => "Specified plugin does not exist",
            LsmErrorKind::NoEnoughSpace => "No enough space",
            LsmErrorKind::TransportCommunication => "Error when communicating with plug-in",
            LsmErrorKind::TransportSerialization => "Incorrect transport serialization",
            LsmErrorKind::TransportInvalidArg => "Invalid transport argument",
            LsmErrorKind::LastInitInAccessGroup => (
            "Refused to remove the last initiator from access group"),
            LsmErrorKind::UnSupportedSearchKey => "Specified search key is not supported",
            LsmErrorKind::EmptyAccessGroup => "Refused to mask volume to empty access group",
            LsmErrorKind::PoolNotReady => "Pool is not ready for specified action",
            LsmErrorKind::DiskNotFree => "Disk is not free for specified action",
        }
    }
}

} // verus!
