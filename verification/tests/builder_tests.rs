//! Request-builder tests: local precondition checks and the exact argument
//! maps the builders frame.

use lsm::client::{
    access_group_create_request, fs_export_request, fs_snapshot_restore_request,
    iscsi_chap_auth_set_request, register_request, vol_phy_disk_cache_set_request,
    vol_read_cache_set_request, vol_write_cache_set_request, volume_replicate_request,
};
use lsm::codec::{decode_body, interpret_response, split_frame};
use lsm::json::{obj_get, Json};
use lsm::{
    CachePolicy, FileSystem, FileSystemSnapShot, InitiatorType, LsmErrorKind, NfsAccess, System,
    SystemMode, Volume, VolumeReplicateType,
};

fn params_of(frame: Vec<u8>) -> Vec<(String, Json)> {
    let body = split_frame(&frame).unwrap();
    let v = decode_body(&body).unwrap();
    let fields = match v {
        Json::Obj(fields) => fields,
        _ => panic!("request body is not an object"),
    };
    match obj_get(&fields, "params") {
        Some(j) => match j.deep_clone() {
            Json::Obj(p) => p,
            _ => panic!("params is not an object"),
        },
        None => panic!("params missing"),
    }
}

fn test_fs() -> FileSystem {
    FileSystem {
        id: "fs-1".to_owned(),
        name: "fs one".to_owned(),
        total_space: 1 << 30,
        free_space: 1 << 29,
        plugin_data: None,
        system_id: "sys-1".to_owned(),
        pool_id: "pool-1".to_owned(),
    }
}

fn test_snap() -> FileSystemSnapShot {
    FileSystemSnapShot {
        id: "snap-1".to_owned(),
        name: "snap one".to_owned(),
        ts: 1234,
        plugin_data: None,
    }
}

fn test_vol() -> Volume {
    Volume {
        id: "v1".to_owned(),
        name: "vol".to_owned(),
        enabled: true,
        block_size: 512,
        num_of_blocks: 8,
        plugin_data: None,
        vpd83: "w".to_owned(),
        system_id: "s".to_owned(),
        pool_id: "p".to_owned(),
    }
}

#[test]
fn register_carries_password_and_timeout() {
    let p = params_of(register_request("sim://", Some("hush"), Some(5000)).unwrap());
    assert_eq!(obj_get(&p, "password"), Some(&Json::Str("hush".to_owned())));
    assert_eq!(obj_get(&p, "timeout"), Some(&Json::Uint(5000)));
    assert_eq!(obj_get(&p, "uri"), Some(&Json::Str("sim://".to_owned())));
}

#[test]
fn chap_auth_defaults_to_empty_strings() {
    let p = params_of(
        iscsi_chap_auth_set_request("iqn.x", None, None, Some("out"), None).unwrap(),
    );
    assert_eq!(obj_get(&p, "in_user"), Some(&Json::Str(String::new())));
    assert_eq!(obj_get(&p, "in_password"), Some(&Json::Str(String::new())));
    assert_eq!(obj_get(&p, "out_user"), Some(&Json::Str("out".to_owned())));
    assert_eq!(obj_get(&p, "out_password"), Some(&Json::Str(String::new())));
}

#[test]
fn replicate_without_pool_sends_null() {
    let p = params_of(
        volume_replicate_request(None, VolumeReplicateType::Clone, &test_vol(), "dst").unwrap(),
    );
    assert_eq!(obj_get(&p, "pool"), Some(&Json::Null));
    assert_eq!(obj_get(&p, "rep_type"), Some(&Json::Uint(2)));
    assert_eq!(obj_get(&p, "name"), Some(&Json::Str("dst".to_owned())));
}

#[test]
fn snapshot_restore_requires_files_unless_all() {
    let e = fs_snapshot_restore_request(&test_fs(), &test_snap(), false, None, None).unwrap_err();
    assert_eq!(e.kind, LsmErrorKind::InvalidArgument);
    let files = vec!["/a".to_owned(), "/b".to_owned()];
    let renamed = vec!["/c".to_owned()];
    let e2 = fs_snapshot_restore_request(&test_fs(), &test_snap(), false, Some(&files), Some(&renamed))
        .unwrap_err();
    assert_eq!(e2.kind, LsmErrorKind::InvalidArgument);
    assert!(fs_snapshot_restore_request(&test_fs(), &test_snap(), true, None, None).is_ok());
    let both = vec!["/c".to_owned(), "/d".to_owned()];
    assert!(
        fs_snapshot_restore_request(&test_fs(), &test_snap(), false, Some(&files), Some(&both))
            .is_ok()
    );
}

#[test]
fn snapshot_restore_all_sends_empty_lists() {
    let p = params_of(
        fs_snapshot_restore_request(&test_fs(), &test_snap(), true, None, None).unwrap(),
    );
    assert_eq!(obj_get(&p, "files"), Some(&Json::Arr(Vec::new())));
    assert_eq!(obj_get(&p, "restore_files"), Some(&Json::Arr(Vec::new())));
    assert_eq!(obj_get(&p, "all_files"), Some(&Json::Bool(true)));
}

#[test]
fn export_host_list_rules() {
    let empty = NfsAccess {
        root_list: Vec::new(),
        rw_list: Vec::new(),
        ro_list: Vec::new(),
        anon_uid: None,
        anon_gid: None,
    };
    let e = fs_export_request(&test_fs(), None, &empty, None, None).unwrap_err();
    assert_eq!(e.kind, LsmErrorKind::InvalidArgument);

    let stray_root = NfsAccess {
        root_list: vec!["stranger".to_owned()],
        rw_list: vec!["a".to_owned()],
        ro_list: vec!["b".to_owned()],
        anon_uid: None,
        anon_gid: None,
    };
    let e2 = fs_export_request(&test_fs(), None, &stray_root, None, None).unwrap_err();
    assert_eq!(e2.kind, LsmErrorKind::InvalidArgument);

    let both_lists = NfsAccess {
        root_list: Vec::new(),
        rw_list: vec!["a".to_owned()],
        ro_list: vec!["a".to_owned()],
        anon_uid: None,
        anon_gid: None,
    };
    let e3 = fs_export_request(&test_fs(), None, &both_lists, None, None).unwrap_err();
    assert_eq!(e3.kind, LsmErrorKind::InvalidArgument);

    let good = NfsAccess {
        root_list: vec!["localhost".to_owned()],
        rw_list: vec!["abc.com".to_owned(), "localhost".to_owned()],
        ro_list: vec!["b.com".to_owned()],
        anon_uid: None,
        anon_gid: None,
    };
    let p = params_of(fs_export_request(&test_fs(), None, &good, None, None).unwrap());
    assert_eq!(obj_get(&p, "fs_id"), Some(&Json::Str("fs-1".to_owned())));
    assert_eq!(obj_get(&p, "anon_uid"), Some(&Json::Int(-1)));
    assert_eq!(
        obj_get(&p, "rw_list"),
        Some(&Json::Arr(vec![
            Json::Str("abc.com".to_owned()),
            Json::Str("localhost".to_owned()),
        ]))
    );
}

#[test]
fn bad_initiator_id_never_builds_a_request() {
    let sys = System {
        id: "s".to_owned(),
        name: "s".to_owned(),
        status: 2,
        status_info: String::new(),
        plugin_data: None,
        fw_version: String::new(),
        read_cache_pct: -1,
        mode: SystemMode::NoSupport,
    };
    let e = access_group_create_request("ag", "not-an-iqn", InitiatorType::IscsiIqn, &sys)
        .unwrap_err();
    assert_eq!(e.kind, LsmErrorKind::InvalidArgument);
    assert!(
        access_group_create_request("ag", "iqn.2017-11.com.example:x", InitiatorType::IscsiIqn, &sys)
            .is_ok()
    );
}

#[test]
fn cache_policies_must_be_concrete() {
    let v = test_vol();
    let e = vol_phy_disk_cache_set_request(&v, CachePolicy::Auto).unwrap_err();
    assert_eq!(e.kind, LsmErrorKind::InvalidArgument);
    let e2 = vol_write_cache_set_request(&v, CachePolicy::UseDiskSetting).unwrap_err();
    assert_eq!(e2.kind, LsmErrorKind::InvalidArgument);
    let e3 = vol_read_cache_set_request(&v, CachePolicy::Auto).unwrap_err();
    assert_eq!(e3.kind, LsmErrorKind::InvalidArgument);
    let p = params_of(vol_write_cache_set_request(&v, CachePolicy::Disabled).unwrap());
    assert_eq!(obj_get(&p, "wcp"), Some(&Json::Uint(4)));
}

#[test]
fn wire_error_with_unknown_code_keeps_detail() {
    let v = decode_body("{\"error\": {\"code\": 777, \"message\": \"odd\", \"data\": \"extra\"}}".as_bytes())
        .unwrap();
    let e = interpret_response(&v).unwrap_err();
    assert_eq!(e.kind, LsmErrorKind::LibBug);
    assert_eq!(e.msg, "unknown error code 777: odd");
}
