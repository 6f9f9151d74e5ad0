//! Error mapper tests: every code in the table maps to its kind with the
//! message kept verbatim, and unknown codes keep the raw code.

use lsm::{LsmError, LsmErrorKind};

fn check(code: i64, kind: LsmErrorKind) {
    let e = LsmError::map(code, "the daemon said so".to_owned());
    assert_eq!(e.kind, kind);
    assert_eq!(e.msg, "the daemon said so");
}

#[test]
fn every_code_in_the_table() {
    check(1, LsmErrorKind::LibBug);
    check(2, LsmErrorKind::PluginBug);
    check(11, LsmErrorKind::TimeOut);
    check(50, LsmErrorKind::NameConflict);
    check(52, LsmErrorKind::ExistsInitiator);
    check(101, LsmErrorKind::InvalidArgument);
    check(125, LsmErrorKind::NoStateChange);
    check(140, LsmErrorKind::NetworkConRefused);
    check(141, LsmErrorKind::NetworkHostDown);
    check(142, LsmErrorKind::NetworkError);
    check(152, LsmErrorKind::NoMemory);
    check(153, LsmErrorKind::NoSupport);
    check(160, LsmErrorKind::IsMasked);
    check(161, LsmErrorKind::HasChildDependency);
    check(200, LsmErrorKind::NotFoundAccessGroup);
    check(201, LsmErrorKind::NotFoundFs);
    check(202, LsmErrorKind::NotFoundJob);
    check(203, LsmErrorKind::NotFoundPool);
    check(204, LsmErrorKind::NotFoundFsSnapshot);
    check(205, LsmErrorKind::NotFoundVolume);
    check(206, LsmErrorKind::NotFoundNfsExport);
    check(208, LsmErrorKind::NotFoundSystem);
    check(209, LsmErrorKind::NotFoundDisk);
    check(226, LsmErrorKind::NotLicensed);
    check(250, LsmErrorKind::NoSupportOnlineChange);
    check(251, LsmErrorKind::NoSupportOfflineChange);
    check(300, LsmErrorKind::PluginAuthFailed);
    check(301, LsmErrorKind::PluginIpcFail);
    check(307, LsmErrorKind::PluginSocketPermission);
    check(311, LsmErrorKind::PluginNotExist);
    check(350, LsmErrorKind::NoEnoughSpace);
    check(400, LsmErrorKind::TransportCommunication);
    check(401, LsmErrorKind::TransportSerialization);
    check(402, LsmErrorKind::TransportInvalidArg);
    check(502, LsmErrorKind::LastInitInAccessGroup);
    check(510, LsmErrorKind::UnSupportedSearchKey);
    check(511, LsmErrorKind::EmptyAccessGroup);
    check(512, LsmErrorKind::PoolNotReady);
    check(513, LsmErrorKind::DiskNotFree);
}

#[test]
fn unknown_code_keeps_the_raw_code() {
    let e = LsmError::map(999, "boom".to_owned());
    assert_eq!(e.kind, LsmErrorKind::LibBug);
    assert_eq!(e.msg, "unknown error code 999: boom");
    let e2 = LsmError::map(-7, "odd".to_owned());
    assert_eq!(e2.kind, LsmErrorKind::LibBug);
    assert_eq!(e2.msg, "unknown error code -7: odd");
}

#[test]
fn gaps_in_the_table_are_unknown() {
    // Codes reserved for local failures never cross the wire and are not in
    // the mapping table.
    let e = LsmError::map(12, "daemon down".to_owned());
    assert_eq!(e.kind, LsmErrorKind::LibBug);
}

#[test]
fn kind_descriptions() {
    let e = LsmError::map(50, "x".to_owned());
    assert_eq!(e.description(), "Name conflict");
    let t = LsmError::map(11, "x".to_owned());
    assert_eq!(t.description(), "Timeout");
    let d = LsmError::map(12345, "x".to_owned());
    assert_eq!(d.description(), "Library bug");
}
