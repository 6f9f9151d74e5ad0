//! Entity and enumeration tests: integer conversions and wire round trips.

use lsm::codec::decode_body;
use lsm::data::{
    int_to_battery_type, int_to_disk_link_type, int_to_disk_type, int_to_init_type,
    int_to_port_type, int_to_sys_mod, sys_mod_to_int,
};
use lsm::json::Json;
use lsm::{
    BatteryType, BlockRange, Capabilities, Capability, Disk, DiskLinkType, DiskType,
    InitiatorType, PortType, RaidType, System, SystemMode, Volume,
};

#[test]
fn raid_type_lookup() {
    assert_eq!(RaidType::from(0), RaidType::Raid0);
    assert_eq!(RaidType::from(1), RaidType::Raid1);
    assert_eq!(RaidType::from(5), RaidType::Raid5);
    assert_eq!(RaidType::from(10), RaidType::Raid10);
    assert_eq!(RaidType::from(20), RaidType::Jbod);
    assert_eq!(RaidType::from(22), RaidType::Other);
    // Values outside the closed set fall back explicitly.
    assert_eq!(RaidType::from(2), RaidType::Unknown);
    assert_eq!(RaidType::from(-5), RaidType::Unknown);
    assert_eq!(RaidType::from(99), RaidType::Unknown);
}

#[test]
fn system_mode_lookup() {
    assert_eq!(int_to_sys_mod(-1), SystemMode::NoSupport);
    assert_eq!(int_to_sys_mod(0), SystemMode::HardwareRaid);
    assert_eq!(int_to_sys_mod(1), SystemMode::Hba);
    assert_eq!(int_to_sys_mod(5), SystemMode::Unknown);
    assert_eq!(sys_mod_to_int(SystemMode::Unknown), -2);
    assert_eq!(sys_mod_to_int(SystemMode::Hba), 1);
}

#[test]
fn disk_link_type_lookup() {
    assert_eq!(int_to_disk_link_type(-2), DiskLinkType::NoSupport);
    assert_eq!(int_to_disk_link_type(0), DiskLinkType::Fc);
    assert_eq!(int_to_disk_link_type(11), DiskLinkType::PciE);
    // The value 1 is assigned to no link type: the lookup falls back
    // instead of reinterpreting it.
    assert_eq!(int_to_disk_link_type(1), DiskLinkType::Unknown);
    assert_eq!(int_to_disk_link_type(99), DiskLinkType::Unknown);
}

#[test]
fn other_enum_lookups() {
    assert_eq!(int_to_disk_type(4), DiskType::Sata);
    assert_eq!(int_to_disk_type(2), DiskType::Unknown);
    assert_eq!(int_to_init_type(5), InitiatorType::IscsiIqn);
    assert_eq!(int_to_init_type(3), InitiatorType::Unknown);
    assert_eq!(int_to_port_type(4), PortType::Iscsi);
    assert_eq!(int_to_port_type(9), PortType::Other);
    assert_eq!(int_to_battery_type(3), BatteryType::Chemical);
    assert_eq!(int_to_battery_type(9), BatteryType::Unknown);
}

#[test]
fn volume_wire_round_trip() {
    let text = "{\"id\": \"v1\", \"name\": \"n\", \"admin_state\": 0, \"block_size\": 4096, \
         \"num_of_blocks\": 10, \"plugin_data\": \"keep me\", \"vpd83\": \"w\", \
         \"system_id\": \"s\", \"pool_id\": \"p\"}";
    let v = Volume::from_json(&decode_body(text.as_bytes()).unwrap()).unwrap();
    assert!(!v.enabled);
    assert_eq!(v.block_size, 4096);
    let back = Volume::from_json(&v.to_json()).unwrap();
    assert_eq!(back.id, v.id);
    assert_eq!(back.name, v.name);
    assert_eq!(back.enabled, v.enabled);
    assert_eq!(back.block_size, v.block_size);
    assert_eq!(back.num_of_blocks, v.num_of_blocks);
    assert_eq!(back.plugin_data, v.plugin_data);
    assert_eq!(back.vpd83, v.vpd83);
    assert_eq!(back.system_id, v.system_id);
    assert_eq!(back.pool_id, v.pool_id);
}

#[test]
fn system_wire_round_trip() {
    let text = "{\"id\": \"s1\", \"name\": \"sys\", \"status\": 2, \"status_info\": \"\", \
         \"fw_version\": \"1.2\", \"read_cache_pct\": -2, \"mode\": 0}";
    let s = System::from_json(&decode_body(text.as_bytes()).unwrap()).unwrap();
    assert_eq!(s.read_cache_pct, System::READ_CACHE_PCT_NO_SUPPORT);
    assert_eq!(s.mode, SystemMode::HardwareRaid);
    let back = System::from_json(&s.to_json()).unwrap();
    assert_eq!(back.id, s.id);
    assert_eq!(back.mode, s.mode);
    assert_eq!(back.read_cache_pct, s.read_cache_pct);
}

#[test]
fn disk_required_link_type() {
    let text = "{\"id\": \"d\", \"name\": \"d\", \"disk_type\": 52, \"block_size\": 512, \
         \"num_of_blocks\": 1, \"status\": 2, \"system_id\": \"s\", \"link_type\": 6, \
         \"rpm\": 7200, \"location\": \"bay 3\", \"vpd83\": null}";
    let d = Disk::from_json(&decode_body(text.as_bytes()).unwrap()).unwrap();
    assert_eq!(d.disk_type, DiskType::Hdd);
    assert_eq!(d.link_type, Some(DiskLinkType::Sas));
    assert_eq!(d.rpm, Some(7200));
    assert_eq!(d.location, Some("bay 3".to_owned()));
    assert_eq!(d.vpd83, None);
}

#[test]
fn volume_size_is_block_size_times_count() {
    let text = "{\"id\": \"v\", \"name\": \"n\", \"admin_state\": 1, \"block_size\": 512, \
         \"num_of_blocks\": 3, \"vpd83\": \"w\", \"system_id\": \"s\", \"pool_id\": \"p\"}";
    let v = Volume::from_json(&decode_body(text.as_bytes()).unwrap()).unwrap();
    assert_eq!(v.size_bytes(), 1536);
}

#[test]
fn block_range_fields() {
    let r = BlockRange::new(10, 50, 10);
    assert_eq!(r.src_blk_addr, 10);
    assert_eq!(r.dst_blk_addr, 50);
    assert_eq!(r.blk_count, 10);
}

#[test]
fn capability_string_positions() {
    // Capability 20 is read from characters 40 and 41 of the string.
    let mut cap = "00".repeat(20);
    cap.push_str("01");
    cap.push_str(&"00".repeat(210));
    let j = Json::Obj(vec![("cap".to_owned(), Json::Str(cap))]);
    let caps = Capabilities::from_json(&j).unwrap();
    assert!(caps.is_supported(Capability::Volumes));
    assert!(!caps.is_supported(Capability::VolumeCreate));
    assert!(!caps.is_supported(Capability::DiskVpd83Get));
}
