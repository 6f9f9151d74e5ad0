//! Session-layer tests: async resolution, local preconditions, and the
//! end-to-end request/response scenarios.

use lsm::client::{
    async_outcome, expect_volume, get_plugin_ipc_path, plugin_info_from_json, plugin_name_of_uri,
    pool_member_info_parse, pool_members_filter, register_request, sync_or_job,
    sys_read_cache_pct_set_request, vol_cache_info_from_json, vol_raid_create_request,
    vol_raid_info_from_json, volume_create_request, volumes_from_json, AsyncOutcome,
};
use lsm::codec::{decode_body, interpret_response, split_frame};
use lsm::jobs::{job_record_from_json, poll_decision};
use lsm::json::{obj_get, Json};
use lsm::{
    CachePolicy, Disk, LsmErrorKind, PollStep, Pool, PoolMember, RaidType, System, SystemMode,
    Volume, VolumeCreateArgThinP,
};

fn test_system() -> System {
    System {
        id: "sys-1".to_owned(),
        name: "test system".to_owned(),
        status: 2,
        status_info: String::new(),
        plugin_data: None,
        fw_version: "1.0".to_owned(),
        read_cache_pct: 50,
        mode: SystemMode::Hba,
    }
}

fn test_pool() -> Pool {
    Pool {
        id: "pool-1".to_owned(),
        name: "pool one".to_owned(),
        element_type: 4,
        unsupported_actions: 0,
        total_space: 1 << 30,
        free_space: 1 << 29,
        status: 2,
        status_info: None,
        plugin_data: None,
        system_id: "sys-1".to_owned(),
    }
}

fn volume_json_text() -> &'static str {
    "{\"id\": \"v1\", \"name\": \"vol one\", \"admin_state\": 1, \"block_size\": 512, \
     \"num_of_blocks\": 2048, \"vpd83\": \"wwn\", \"system_id\": \"sys-1\", \"pool_id\": \"pool-1\"}"
}

fn decoded(text: &str) -> Json {
    decode_body(text.as_bytes()).unwrap()
}

#[test]
fn plugin_name_is_the_uri_scheme() {
    assert_eq!(plugin_name_of_uri("sim://").unwrap(), "sim");
    assert_eq!(plugin_name_of_uri("simc://host/x?y=1").unwrap(), "simc");
    let e = plugin_name_of_uri("not a uri").unwrap_err();
    assert_eq!(e.kind, LsmErrorKind::InvalidArgument);
}

#[test]
fn plugin_socket_path() {
    assert_eq!(get_plugin_ipc_path("/var/run/lsm/ipc", "sim"), "/var/run/lsm/ipc/sim");
}

#[test]
fn async_envelope_with_direct_result() {
    // `[null, value]` resolves to the value itself; no polling is owed.
    let env = decoded("[null, {\"id\": \"v1\"}]");
    match async_outcome(env).unwrap() {
        AsyncOutcome::Data(d) => match d {
            Json::Obj(fields) => {
                assert_eq!(obj_get(&fields, "id"), Some(&Json::Str("v1".to_owned())));
            },
            _ => panic!("expected an object"),
        },
        AsyncOutcome::Job(_) => panic!("no job was started"),
    }
}

#[test]
fn async_envelope_with_job_handle() {
    let env = decoded("[\"job-42\", null]");
    match async_outcome(env).unwrap() {
        AsyncOutcome::Job(id) => assert_eq!(id, "job-42"),
        AsyncOutcome::Data(_) => panic!("expected a job handle"),
    }
}

#[test]
fn async_envelope_of_wrong_shape() {
    let e = async_outcome(decoded("[null, 1, 2]")).unwrap_err();
    assert_eq!(e.kind, LsmErrorKind::PluginBug);
    let e2 = async_outcome(decoded("{\"id\": 1}")).unwrap_err();
    assert_eq!(e2.kind, LsmErrorKind::PluginBug);
    let e3 = async_outcome(decoded("[7, null]")).unwrap_err();
    assert_eq!(e3.kind, LsmErrorKind::PluginBug);
}

#[test]
fn sync_or_job_resolution() {
    assert_eq!(sync_or_job(Json::Null).unwrap(), None);
    assert_eq!(sync_or_job(Json::Str("job-9".to_owned())).unwrap(), Some("job-9".to_owned()));
    let e = sync_or_job(Json::Uint(1)).unwrap_err();
    assert_eq!(e.kind, LsmErrorKind::PluginBug);
}

#[test]
fn typed_wait_rejects_missing_payload() {
    // The typed wait must not turn an empty completion into a value.
    let e = expect_volume(None).unwrap_err();
    assert_eq!(e.kind, LsmErrorKind::PluginBug);
    assert_eq!(e.msg, "expecting a volume, but got none");
}

#[test]
fn read_cache_pct_over_100_never_builds_a_request() {
    let e = sys_read_cache_pct_set_request(&test_system(), 150).unwrap_err();
    assert_eq!(e.kind, LsmErrorKind::InvalidArgument);
    assert!(sys_read_cache_pct_set_request(&test_system(), 99).is_ok());
}

#[test]
fn create_volume_synchronous_scenario() {
    // Register, then a create that returns `[null, volume]`: the volume is
    // decoded directly and no poll is issued.
    let reg = register_request("sim://", None, None).unwrap();
    let reg_body = decode_body(&split_frame(&reg).unwrap()).unwrap();
    match reg_body {
        Json::Obj(fields) => {
            let params = match obj_get(&fields, "params") {
                Some(Json::Obj(p)) => p.clone(),
                _ => panic!("params missing"),
            };
            assert_eq!(obj_get(&params, "uri"), Some(&Json::Str("sim://".to_owned())));
            assert_eq!(obj_get(&params, "timeout"), Some(&Json::Uint(30_000)));
            assert_eq!(obj_get(&params, "password"), Some(&Json::Null));
        },
        _ => panic!("register request is not an object"),
    }

    let req = volume_create_request(&test_pool(), "vol one", 1 << 20, &VolumeCreateArgThinP::Default);
    assert!(req.is_ok());
    let response = format!("{{\"result\": [null, {}]}}", volume_json_text());
    let result = interpret_response(&decoded(&response)).unwrap();
    let mut polls = 0;
    let vol: Volume = match async_outcome(result).unwrap() {
        AsyncOutcome::Data(d) => expect_volume(Some(d)).unwrap(),
        AsyncOutcome::Job(_) => {
            polls += 1;
            panic!("synchronous result must not be polled");
        },
    };
    assert_eq!(polls, 0);
    assert_eq!(vol.id, "v1");
    assert_eq!(vol.name, "vol one");
    assert!(vol.enabled);
    assert_eq!(vol.size_bytes(), 512 * 2048);
}

#[test]
fn create_volume_asynchronous_scenario() {
    // The same create instead returns `["job-7", null]`: two in-progress
    // polls, then completion with the volume, and exactly one job_free.
    let response = "{\"result\": [\"job-7\", null]}";
    let result = interpret_response(&decoded(response)).unwrap();
    let job_id = match async_outcome(result).unwrap() {
        AsyncOutcome::Job(id) => id,
        AsyncOutcome::Data(_) => panic!("expected a job handle"),
    };
    assert_eq!(job_id, "job-7");

    let poll_bodies = vec![
        "{\"status\": 1, \"percent\": 10, \"data\": null}".to_owned(),
        "{\"status\": 1, \"percent\": 80, \"data\": null}".to_owned(),
        format!("{{\"status\": 2, \"percent\": 100, \"data\": {}}}", volume_json_text()),
    ];
    let mut status_calls = 0;
    let mut frees: Vec<String> = Vec::new();
    let mut vol: Option<Volume> = None;
    for raw in &poll_bodies {
        status_calls += 1;
        let rec = job_record_from_json(&decoded(raw)).unwrap();
        match poll_decision(rec) {
            PollStep::Wait => continue,
            PollStep::Finish(data) => {
                frees.push(job_id.clone());
                vol = Some(expect_volume(data).unwrap());
                break;
            },
            PollStep::Fail(e) => panic!("unexpected failure: {:?}", e),
        }
    }
    assert_eq!(status_calls, 3);
    assert_eq!(frees, vec!["job-7".to_owned()]);
    let vol = vol.unwrap();
    assert_eq!(vol.id, "v1");
    assert_eq!(vol.size_bytes(), 512 * 2048);
}

#[test]
fn plugin_info_fields() {
    let v = decoded("[\"Compiled plug-in example\", \"0.1.0\"]");
    let pi = plugin_info_from_json(&v, "sim".to_owned()).unwrap();
    assert_eq!(pi.description, "Compiled plug-in example");
    assert_eq!(pi.version, "0.1.0");
    assert_eq!(pi.name, "sim");
    let short = decoded("[\"only one\"]");
    let e = plugin_info_from_json(&short, "sim".to_owned()).unwrap_err();
    assert_eq!(e.kind, LsmErrorKind::PluginBug);
}

#[test]
fn volume_listing_decodes_each_entry() {
    let text = format!("[{}, {}]", volume_json_text(), volume_json_text());
    let vols = volumes_from_json(&decoded(&text)).unwrap();
    assert_eq!(vols.len(), 2);
    assert_eq!(vols[1].pool_id, "pool-1");
    let e = volumes_from_json(&decoded("[1]")).unwrap_err();
    assert_eq!(e.kind, LsmErrorKind::TransportSerialization);
}

#[test]
fn raid_info_from_five_integers() {
    let info = vol_raid_info_from_json(&decoded("[1, 128, 4, 512, 1024]")).unwrap();
    assert_eq!(info.raid_type, RaidType::Raid1);
    assert_eq!(info.strip_size, 128);
    assert_eq!(info.disk_count, 4);
    assert_eq!(info.min_io_size, 512);
    assert_eq!(info.opt_io_size, 1024);
    let e = vol_raid_info_from_json(&decoded("[1, 2, 3, 4]")).unwrap_err();
    assert_eq!(e.kind, LsmErrorKind::PluginBug);
}

#[test]
fn cache_info_from_five_codes() {
    let info = vol_cache_info_from_json(&decoded("[2, 2, 2, 2, 4]")).unwrap();
    assert_eq!(info.write_cache_setting, CachePolicy::Enabled);
    assert_eq!(info.write_cache_status, CachePolicy::Enabled);
    assert_eq!(info.read_cache_setting, CachePolicy::Enabled);
    assert_eq!(info.read_cache_status, CachePolicy::Enabled);
    assert_eq!(info.physical_disk_cache_status, CachePolicy::UseDiskSetting);
    let info2 = vol_cache_info_from_json(&decoded("[3, 3, 3, 3, 9]")).unwrap();
    assert_eq!(info2.write_cache_setting, CachePolicy::Auto);
    assert_eq!(info2.write_cache_status, CachePolicy::Disabled);
    assert_eq!(info2.physical_disk_cache_status, CachePolicy::Unknown);
}

#[test]
fn pool_member_info_filters_by_id() {
    let (raid_type, member_type, ids) =
        pool_member_info_parse(&decoded("[5, 2, [\"d1\", \"d3\"]]")).unwrap();
    assert_eq!(raid_type, RaidType::Raid5);
    assert_eq!(member_type, 2);
    assert_eq!(ids, vec!["d1".to_owned(), "d3".to_owned()]);

    let disk_text = "{\"id\": \"%ID%\", \"name\": \"d\", \"disk_type\": 4, \"block_size\": 512, \
         \"num_of_blocks\": 100, \"status\": 2, \"system_id\": \"s\", \"link_type\": 8}";
    let mut disks: Vec<Disk> = Vec::new();
    for id in ["d1", "d2", "d3"] {
        let t = disk_text.replace("%ID%", id);
        disks.push(Disk::from_json(&decoded(&t)).unwrap());
    }
    let members = pool_members_filter(member_type, &ids, disks, Vec::new());
    assert_eq!(members.len(), 2);
    match &members[0] {
        PoolMember::Disk(d) => assert_eq!(d.id, "d1"),
        _ => panic!("expected a disk member"),
    }
    match &members[1] {
        PoolMember::Disk(d) => assert_eq!(d.id, "d3"),
        _ => panic!("expected a disk member"),
    }
}

#[test]
fn raid_create_disk_count_rules() {
    let disk_text = "{\"id\": \"d1\", \"name\": \"d\", \"disk_type\": 4, \"block_size\": 512, \
         \"num_of_blocks\": 100, \"status\": 2, \"system_id\": \"s\", \"link_type\": 8}";
    let one_disk = vec![Disk::from_json(&decoded(disk_text)).unwrap()];
    let e = vol_raid_create_request("v", RaidType::Raid1, &one_disk, None).unwrap_err();
    assert_eq!(e.kind, LsmErrorKind::InvalidArgument);
    let none: Vec<Disk> = Vec::new();
    let e2 = vol_raid_create_request("v", RaidType::Raid0, &none, None).unwrap_err();
    assert_eq!(e2.kind, LsmErrorKind::InvalidArgument);
    let mut two = one_disk.clone();
    two.push(two[0].clone());
    assert!(vol_raid_create_request("v", RaidType::Raid1, &two, Some(64)).is_ok());
}
