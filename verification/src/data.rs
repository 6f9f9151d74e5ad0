//! The domain entities carried over the wire, their closed enumerations,
//! and the explicit integer conversions the protocol uses for them.
//!
//! Every wire-encoded code maps to a closed tagged type through an
//! exhaustive lookup with a defined fallback; nothing is reinterpreted.

use vstd::prelude::*;

use crate::error::{LsmError, LsmErrorKind, LsmResult};
use crate::json::{
    field_i64, field_opt_i64, field_opt_str, field_str, field_str_list, field_u64, jint, jopt_int,
    jopt_int_valid, jopt_str, jopt_str_valid, jstr, jstr_list, obj_new, obj_push, str_list_json,
    str_list_model, Json, JsonModel,
};

verus! {

pub fn gen_system_class_string() -> (r: String)
    ensures
        r@ == "System"@,
{
    "System".to_owned()
}

pub fn gen_pool_class_string() -> (r: String)
    ensures
        r@ == "Pool"@,
{
    "Pool".to_owned()
}

pub fn gen_vol_class_string() -> (r: String)
    ensures
        r@ == "Volume"@,
{
    "Volume".to_owned()
}

pub fn gen_ag_class_string() -> (r: String)
    ensures
        r@ == "AccessGroup"@,
{
    "AccessGroup".to_owned()
}

pub fn gen_fs_class_string() -> (r: String)
    ensures
        r@ == "FileSystem"@,
{
    "FileSystem".to_owned()
}

pub fn gen_fs_snap_class_string() -> (r: String)
    ensures
        r@ == "FsSnapshot"@,
{
    "FsSnapshot".to_owned()
}

pub fn gen_exp_class_string() -> (r: String)
    ensures
        r@ == "NfsExport"@,
{
    "NfsExport".to_owned()
}

pub fn gen_disk_class_string() -> (r: String)
    ensures
        r@ == "Disk"@,
{
    "Disk".to_owned()
}

/// System mode, currently only meaningful for hardware RAID cards.
#[derive(Debug, Clone, Copy, PartialEq, Eq, Structural)]
pub enum SystemMode {
    /// Plugin failed to query system mode.
    Unknown,
    /// Plugin does not support querying system mode.
    NoSupport,
    /// A hardware RAID card exposing logical volumes.
    HardwareRaid,
    /// Physical disks are exposed to the OS directly.
    Hba,
}

/// The mode a wire integer denotes.
pub open spec fn sys_mode_of_int(i: int) -> SystemMode {
    if i == -1 {
        SystemMode::NoSupport
    } else if i == 0 {
        SystemMode::HardwareRaid
    } else if i == 1 {
        SystemMode::Hba
    } else {
        SystemMode::Unknown
    }
}

/// The wire integer of a mode.
pub open spec fn sys_mode_int(m: SystemMode) -> int {
    match m {
        SystemMode::Unknown => -2,
        SystemMode::NoSupport => -1,
        SystemMode::HardwareRaid => 0,
        SystemMode::Hba => 1,
    }
}

pub fn int_to_sys_mod(i: i8) -> (m: SystemMode)
    ensures
        m == sys_mode_of_int(i as int),
{
    if i == -1 {
        SystemMode::NoSupport
    } else if i == 0 {
        SystemMode::HardwareRaid
    } else if i == 1 {
        SystemMode::Hba
    } else {
        SystemMode::Unknown
    }
}

pub fn sys_mod_to_int(m: SystemMode) -> (i: i8)
    ensures
        i as int == sys_mode_int(m),
{
    match m {
        SystemMode::Unknown => -2,
        SystemMode::NoSupport => -1,
        SystemMode::HardwareRaid => 0,
        SystemMode::Hba => 1,
    }
}

/// Represent a storage system: a RAID card, a SAN, or a software solution.
#[derive(Debug, Clone)]
pub struct System {
    /// Identifier.
    pub id: String,
    /// Human friendly name.
    pub name: String,
    /// System status bitmap; see the `STATUS_` constants.
    pub status: u32,
    /// Additional message for status.
    pub status_info: String,
    /// Reserved for the plugin's own use; carried through unchanged.
    pub plugin_data: Option<String>,
    /// Firmware version.
    pub fw_version: String,
    /// Read cache percentage of the system; negative values are the
    /// `READ_CACHE_PCT_` constants.
    pub read_cache_pct: i8,
    /// System mode, currently only supported on hardware RAID cards.
    pub mode: SystemMode,
}

impl System {
    /// Plugin does not support querying read cache percentage.
    pub const READ_CACHE_PCT_NO_SUPPORT: i8 = -2;

    /// Plugin failed to query read cache percentage.
    pub const READ_CACHE_PCT_UNKNOWN: i8 = -1;

    /// Plugin failed to query system status.
    pub const STATUS_UNKNOWN: u32 = 1;

    /// System is up and healthy.
    pub const STATUS_OK: u32 = 1 << 1;

    /// System is in error state.
    pub const STATUS_ERROR: u32 = 1 << 2;

    /// System is degraded.
    pub const STATUS_DEGRADED: u32 = 1 << 3;

    /// System has potential failure.
    pub const STATUS_PREDICTIVE_FAILURE: u32 = 1 << 4;

    /// Vendor specific status.
    pub const STATUS_OTHER: u32 = 1 << 5;
}

/// Represent a storage volume, also known as a LUN or virtual disk.
#[derive(Debug, Clone)]
pub struct Volume {
    /// Identifier.
    pub id: String,
    /// Human friendly name.
    pub name: String,
    /// Whether the volume is online (I/O access enabled).
    pub enabled: bool,
    /// Block size.
    pub block_size: u64,
    /// Number of blocks.
    pub num_of_blocks: u64,
    /// Reserved for the plugin's own use; carried through unchanged.
    pub plugin_data: Option<String>,
    /// SCSI VPD 0x83 NAA type identifier.
    pub vpd83: String,
    /// Identifier of owner system.
    pub system_id: String,
    /// Identifier of owner pool.
    pub pool_id: String,
}

impl Volume {
    /// The usable size of the volume in bytes.
    pub fn size_bytes(&self) -> (r: u64)
        requires
            self.block_size * self.num_of_blocks <= u64::MAX,
        ensures
            r == self.block_size * self.num_of_blocks,
    {
        self.block_size * self.num_of_blocks
    }
}

/// Represent a volume replication type.
#[derive(Debug, Clone, Copy, PartialEq, Eq, Structural)]
pub enum VolumeReplicateType {
    /// Plugin failed to detect volume replication type.
    Unknown,
    /// Point in time read writeable space efficient copy of data.
    Clone,
    /// Full bitwise copy of the data.
    Copy,
    /// I/O blocked until it reaches both source and target.
    MirrorSync,
    /// I/O blocked until it reaches the source; changes copied on an
    /// interval.
    MirrorAsync,
}

/// The wire integer of a replication type.
pub open spec fn rep_type_int(t: VolumeReplicateType) -> int {
    match t {
        VolumeReplicateType::Unknown => -1,
        VolumeReplicateType::Clone => 2,
        VolumeReplicateType::Copy => 3,
        VolumeReplicateType::MirrorSync => 4,
        VolumeReplicateType::MirrorAsync => 5,
    }
}

pub fn rep_type_to_int(t: VolumeReplicateType) -> (i: i32)
    ensures
        i as int == rep_type_int(t),
{
    match t {
        VolumeReplicateType::Unknown => -1,
        VolumeReplicateType::Clone => 2,
        VolumeReplicateType::Copy => 3,
        VolumeReplicateType::MirrorSync => 4,
        VolumeReplicateType::MirrorAsync => 5,
    }
}

/// Represent a RAID type.
#[derive(Debug, Clone, Copy, PartialEq, Eq, Structural)]
pub enum RaidType {
    /// Plugin failed to detect RAID type.
    Unknown,
    Raid0,
    /// Two disk mirror.
    Raid1,
    /// Byte-level striping with dedicated parity.
    Raid3,
    /// Block-level striping with dedicated parity.
    Raid4,
    /// Block-level striping with distributed parity.
    Raid5,
    /// Block-level striping with two distributed parities.
    Raid6,
    /// Stripe of mirrors.
    Raid10,
    /// Parity of mirrors.
    Raid15,
    /// Dual parity of mirrors.
    Raid16,
    /// Stripe of parities.
    Raid50,
    /// Stripe of dual parities.
    Raid60,
    /// Mirror of parities.
    Raid51,
    /// Mirror of dual parities.
    Raid61,
    /// Just bunch of disks, no parity, no striping.
    Jbod,
    /// This volume contains multiple RAID settings.
    Mixed,
    /// Vendor specific RAID type.
    Other,
}

/// The RAID type a wire integer denotes.
pub open spec fn raid_type_of_int(i: int) -> RaidType {
    if i == 0 {
        RaidType::Raid0
    } else if i == 1 {
        RaidType::Raid1
    } else if i == 2 {
        RaidType::Unknown
    } else if i == 3 {
        RaidType::Raid3
    } else if i == 4 {
        RaidType::Raid4
    } else if i == 5 {
        RaidType::Raid5
    } else if i == 6 {
        RaidType::Raid6
    } else if i == 10 {
        RaidType::Raid10
    } else if i == 15 {
        RaidType::Raid15
    } else if i == 16 {
        RaidType::Raid16
    } else if i == 50 {
        RaidType::Raid50
    } else if i == 60 {
        RaidType::Raid60
    } else if i == 51 {
        RaidType::Raid51
    } else if i == 61 {
        RaidType::Raid61
    } else if i == 20 {
        RaidType::Jbod
    } else if i == 21 {
        RaidType::Mixed
    } else if i == 22 {
        RaidType::Other
    } else {
        RaidType::Unknown
    }
}

/// The wire integer of a RAID type.
pub open spec fn raid_type_int(t: RaidType) -> int {
    match t {
        RaidType::Unknown => -1,
        RaidType::Raid0 => 0,
        RaidType::Raid1 => 1,
        RaidType::Raid3 => 3,
        RaidType::Raid4 => 4,
        RaidType::Raid5 => 5,
        RaidType::Raid6 => 6,
        RaidType::Raid10 => 10,
        RaidType::Raid15 => 15,
        RaidType::Raid16 => 16,
        RaidType::Raid50 => 50,
        RaidType::Raid60 => 60,
        RaidType::Raid51 => 51,
        RaidType::Raid61 => 61,
        RaidType::Jbod => 20,
        RaidType::Mixed => 21,
        RaidType::Other => 22,
    }
}

impl core::convert::From<i32> for RaidType {
    fn from(i: i32) -> (r: RaidType) {
        if i == 0 {
            RaidType::Raid0
        } else if i == 1 {
            RaidType::Raid1
        } else if i == 3 {
            RaidType::Raid3
        } else if i == 4 {
            RaidType::Raid4
        } else if i == 5 {
            RaidType::Raid5
        } else if i == 6 {
            RaidType::Raid6
        } else if i == 10 {
            RaidType::Raid10
        } else if i == 15 {
            RaidType::Raid15
        } else if i == 16 {
            RaidType::Raid16
        } else if i == 50 {
            RaidType::Raid50
        } else if i == 60 {
            RaidType::Raid60
        } else if i == 51 {
            RaidType::Raid51
        } else if i == 61 {
            RaidType::Raid61
        } else if i == 20 {
            RaidType::Jbod
        } else if i == 21 {
            RaidType::Mixed
        } else if i == 22 {
            RaidType::Other
        } else {
            RaidType::Unknown
        }
    }
}

impl vstd::std_specs::convert::FromSpecImpl<i32> for RaidType {
    open spec fn obeys_from_spec() -> bool {
        true
    }

    open spec fn from_spec(i: i32) -> RaidType {
        raid_type_of_int(i as int)
    }
}

pub fn raid_type_to_int(t: RaidType) -> (i: i32)
    ensures
        i as int == raid_type_int(t),
{
    match t {
        RaidType::Unknown => -1,
        RaidType::Raid0 => 0,
        RaidType::Raid1 => 1,
        RaidType::Raid3 => 3,
        RaidType::Raid4 => 4,
        RaidType::Raid5 => 5,
        RaidType::Raid6 => 6,
        RaidType::Raid10 => 10,
        RaidType::Raid15 => 15,
        RaidType::Raid16 => 16,
        RaidType::Raid50 => 50,
        RaidType::Raid60 => 60,
        RaidType::Raid51 => 51,
        RaidType::Raid61 => 61,
        RaidType::Jbod => 20,
        RaidType::Mixed => 21,
        RaidType::Other => 22,
    }
}

pub fn int_to_bool(i: i32) -> (b: bool)
    ensures
        b == (i == 1),
{
    i == 1
}

pub fn bool_to_int(b: bool) -> (i: i8)
    ensures
        i == (if b {
            1int
        } else {
            0int
        }),
{
    if b {
        1
    } else {
        0
    }
}

/// Represent a pool member.
#[derive(Debug, Clone)]
pub enum PoolMember {
    /// Pool is created from disks.
    Disk(Disk),
    /// Pool is allocated from another pool.
    Pool(Pool),
}

/// Represent pool membership information.
#[derive(Debug, Clone)]
pub struct PoolMemberInfo {
    /// RAID type.
    pub raid_type: RaidType,
    /// Pool members.
    pub members: Vec<PoolMember>,
}

/// Represent volume RAID information.
#[derive(Debug, Clone)]
pub struct VolumeRaidInfo {
    /// RAID type.
    pub raid_type: RaidType,
    /// The size of a strip on each disk or other storage extent.
    pub strip_size: u32,
    /// The count of disks the RAID group of this volume uses.
    pub disk_count: u32,
    /// The minimum I/O size, preferred for random I/O.
    pub min_io_size: u32,
    /// The optimal I/O size, preferred for sequential I/O.
    pub opt_io_size: u32,
}

#[derive(Debug, Clone)]
pub struct Pool {
    /// Identifier.
    pub id: String,
    /// Human friendly name.
    pub name: String,
    /// The element types this pool can create; see the `ELEMENT_TYPE_`
    /// constants.
    pub element_type: u64,
    /// The actions this pool does not support; see the `UNSUPPORTED_`
    /// constants.
    pub unsupported_actions: u64,
    /// Total space in bytes.
    pub total_space: u64,
    /// Free space in bytes.
    pub free_space: u64,
    /// Pool status bitmap; see the `STATUS_` constants.
    pub status: u64,
    /// Additional message for status.
    pub status_info: Option<String>,
    /// Reserved for the plugin's own use; carried through unchanged.
    pub plugin_data: Option<String>,
    /// Identifier of owner system.
    pub system_id: String,
}

impl Pool {
    /// This pool could allocate space for a sub-pool.
    pub const ELEMENT_TYPE_POOL: u64 = 1 << 1;

    /// This pool could create a volume.
    pub const ELEMENT_TYPE_VOLUME: u64 = 1 << 2;

    /// This pool could create a file system.
    pub const ELEMENT_TYPE_FS: u64 = 1 << 3;

    /// This pool could hold delta data for snapshots.
    pub const ELEMENT_TYPE_DELTA: u64 = 1 << 4;

    /// This pool could create a fully allocated volume.
    pub const ELEMENT_TYPE_VOLUME_FULL: u64 = 1 << 5;

    /// This pool could create a thin provisioned volume.
    pub const ELEMENT_TYPE_VOLUME_THIN: u64 = 1 << 6;

    /// This pool is reserved for system internal use.
    pub const ELEMENT_TYPE_SYS_RESERVED: u64 = 1 << 10;

    /// This pool cannot grow the size of its volumes.
    pub const UNSUPPORTED_VOLUME_GROW: u64 = 1;

    /// This pool cannot shrink the size of its volumes.
    pub const UNSUPPORTED_VOLUME_SHRINK: u64 = 1 << 1;

    /// Plugin failed to query pool status.
    pub const STATUS_UNKNOWN: u64 = 1;

    /// The pool's data is accessible with no data loss.
    pub const STATUS_OK: u64 = 1 << 1;

    /// Vendor specific status.
    pub const STATUS_OTHER: u64 = 1 << 2;

    /// Pool lost data redundancy.
    pub const STATUS_DEGRADED: u64 = 1 << 4;

    /// Pool data is not accessible due to members offline.
    pub const STATUS_ERROR: u64 = 1 << 5;

    /// Pool is stopped by the administrator.
    pub const STATUS_STOPPED: u64 = 1 << 9;

    /// Pool is reviving from stopped status.
    pub const STATUS_STARTING: u64 = 1 << 10;

    /// Pool is reconstructing hash or mirror data.
    pub const STATUS_RECONSTRUCTING: u64 = 1 << 12;

    /// Array is running an integrity check on this pool.
    pub const STATUS_VERIFYING: u64 = 1 << 13;

    /// Pool is performing an initializing task.
    pub const STATUS_INITIALIZING: u64 = 1 << 14;

    /// Pool is growing its size.
    pub const STATUS_GROWING: u64 = 1 << 15;
}

/// Represent disk type.
#[derive(Debug, Clone, Copy, PartialEq, Eq, Structural)]
pub enum DiskType {
    /// Plugin failed to query disk type.
    Unknown,
    /// Vendor specific disk type.
    Other,
    /// IDE disk.
    Ata,
    /// SATA disk.
    Sata,
    /// SAS disk.
    Sas,
    /// FC disk.
    Fc,
    /// SCSI over PCI-Express.
    Sop,
    /// SCSI disk.
    Scsi,
    /// Remote LUN from a SAN array.
    Lun,
    /// Near-Line SAS: a SATA disk with a SAS port.
    NlSas,
    /// Normal HDD, the fallback when the exact HDD type is unknown.
    Hdd,
    /// Solid State Drive.
    Ssd,
    /// Hybrid of HDD and SSD.
    Hybrid,
}

/// The disk type a wire integer denotes.
pub open spec fn disk_type_of_int(i: int) -> DiskType {
    if i == 1 {
        DiskType::Other
    } else if i == 3 {
        DiskType::Ata
    } else if i == 4 {
        DiskType::Sata
    } else if i == 5 {
        DiskType::Sas
    } else if i == 6 {
        DiskType::Fc
    } else if i == 7 {
        DiskType::Sop
    } else if i == 8 {
        DiskType::Scsi
    } else if i == 9 {
        DiskType::Lun
    } else if i == 51 {
        DiskType::NlSas
    } else if i == 52 {
        DiskType::Hdd
    } else if i == 53 {
        DiskType::Ssd
    } else if i == 54 {
        DiskType::Hybrid
    } else {
        DiskType::Unknown
    }
}

/// The wire integer of a disk type.
pub open spec fn disk_type_int(t: DiskType) -> int {
    match t {
        DiskType::Unknown => 0,
        DiskType::Other => 1,
        DiskType::Ata => 3,
        DiskType::Sata => 4,
        DiskType::Sas => 5,
        DiskType::Fc => 6,
        DiskType::Sop => 7,
        DiskType::Scsi => 8,
        DiskType::Lun => 9,
        DiskType::NlSas => 51,
        DiskType::Hdd => 52,
        DiskType::Ssd => 53,
        DiskType::Hybrid => 54,
    }
}

pub fn int_to_disk_type(i: i32) -> (t: DiskType)
    ensures
        t == disk_type_of_int(i as int),
{
    if i == 1 {
        DiskType::Other
    } else if i == 3 {
        DiskType::Ata
    } else if i == 4 {
        DiskType::Sata
    } else if i == 5 {
        DiskType::Sas
    } else if i == 6 {
        DiskType::Fc
    } else if i == 7 {
        DiskType::Sop
    } else if i == 8 {
        DiskType::Scsi
    } else if i == 9 {
        DiskType::Lun
    } else if i == 51 {
        DiskType::NlSas
    } else if i == 52 {
        DiskType::Hdd
    } else if i == 53 {
        DiskType::Ssd
    } else if i == 54 {
        DiskType::Hybrid
    } else {
        DiskType::Unknown
    }
}

pub fn disk_type_to_int(t: DiskType) -> (i: i32)
    ensures
        i as int == disk_type_int(t),
{
    match t {
        DiskType::Unknown => 0,
        DiskType::Other => 1,
        DiskType::Ata => 3,
        DiskType::Sata => 4,
        DiskType::Sas => 5,
        DiskType::Fc => 6,
        DiskType::Sop => 7,
        DiskType::Scsi => 8,
        DiskType::Lun => 9,
        DiskType::NlSas => 51,
        DiskType::Hdd => 52,
        DiskType::Ssd => 53,
        DiskType::Hybrid => 54,
    }
}

/// Represent disk data link type.
#[derive(Debug, Clone, Copy, PartialEq, Eq, Structural)]
pub enum DiskLinkType {
    /// Plugin does not support querying disk link type.
    NoSupport,
    /// Plugin failed to query disk link type.
    Unknown,
    /// Fibre Channel.
    Fc,
    /// Serial Storage Architecture.
    Ssa,
    /// Serial Bus Protocol, used by IEEE 1394.
    Sbp,
    /// SCSI RDMA Protocol.
    Srp,
    /// Internet Small Computer System Interface.
    Iscsi,
    /// Serial Attached SCSI.
    Sas,
    /// Automation/Drive Interface Transport, often used by tape.
    Adt,
    /// PATA/IDE or SATA.
    Ata,
    /// USB.
    Usb,
    /// SCSI over PCI-E.
    Sop,
    /// PCI-E, e.g. NVMe.
    PciE,
}

/// The link type a wire integer denotes. The value `1` is assigned to no
/// link type and falls back to `Unknown`.
pub open spec fn disk_link_type_of_int(i: int) -> DiskLinkType {
    if i == -2 {
        DiskLinkType::NoSupport
    } else if i == 0 {
        DiskLinkType::Fc
    } else if i == 2 {
        DiskLinkType::Ssa
    } else if i == 3 {
        DiskLinkType::Sbp
    } else if i == 4 {
        DiskLinkType::Srp
    } else if i == 5 {
        DiskLinkType::Iscsi
    } else if i == 6 {
        DiskLinkType::Sas
    } else if i == 7 {
        DiskLinkType::Adt
    } else if i == 8 {
        DiskLinkType::Ata
    } else if i == 9 {
        DiskLinkType::Usb
    } else if i == 10 {
        DiskLinkType::Sop
    } else if i == 11 {
        DiskLinkType::PciE
    } else {
        DiskLinkType::Unknown
    }
}

/// The wire integer of a link type.
pub open spec fn disk_link_type_int(t: DiskLinkType) -> int {
    match t {
        DiskLinkType::NoSupport => -2,
        DiskLinkType::Unknown => -1,
        DiskLinkType::Fc => 0,
        DiskLinkType::Ssa => 2,
        DiskLinkType::Sbp => 3,
        DiskLinkType::Srp => 4,
        DiskLinkType::Iscsi => 5,
        DiskLinkType::Sas => 6,
        DiskLinkType::Adt => 7,
        DiskLinkType::Ata => 8,
        DiskLinkType::Usb => 9,
        DiskLinkType::Sop => 10,
        DiskLinkType::PciE => 11,
    }
}

pub fn int_to_disk_link_type(i: i32) -> (t: DiskLinkType)
    ensures
        t == disk_link_type_of_int(i as int),
{
    if i == -2 {
        DiskLinkType::NoSupport
    } else if i == 0 {
        DiskLinkType::Fc
    } else if i == 2 {
        DiskLinkType::Ssa
    } else if i == 3 {
        DiskLinkType::Sbp
    } else if i == 4 {
        DiskLinkType::Srp
    } else if i == 5 {
        DiskLinkType::Iscsi
    } else if i == 6 {
        DiskLinkType::Sas
    } else if i == 7 {
        DiskLinkType::Adt
    } else if i == 8 {
        DiskLinkType::Ata
    } else if i == 9 {
        DiskLinkType::Usb
    } else if i == 10 {
        DiskLinkType::Sop
    } else if i == 11 {
        DiskLinkType::PciE
    } else {
        DiskLinkType::Unknown
    }
}

pub fn disk_link_type_to_int(t: Option<DiskLinkType>) -> (i: i32)
    ensures
        i as int == match t {
            Some(lt) => disk_link_type_int(lt),
            None => -1,
        },
{
    match t {
        Some(lt) => match lt {
            DiskLinkType::NoSupport => -2,
            DiskLinkType::Unknown => -1,
            DiskLinkType::Fc => 0,
            DiskLinkType::Ssa => 2,
            DiskLinkType::Sbp => 3,
            DiskLinkType::Srp => 4,
            DiskLinkType::Iscsi => 5,
            DiskLinkType::Sas => 6,
            DiskLinkType::Adt => 7,
            DiskLinkType::Ata => 8,
            DiskLinkType::Usb => 9,
            DiskLinkType::Sop => 10,
            DiskLinkType::PciE => 11,
        },
        None => -1,
    }
}

#[derive(Debug, Clone)]
pub struct Disk {
    /// Identifier.
    pub id: String,
    /// Human friendly name.
    pub name: String,
    /// Disk type.
    pub disk_type: DiskType,
    /// Block size in bytes.
    pub block_size: u64,
    /// Count of blocks.
    pub num_of_blocks: u64,
    /// Disk status bitmap; see the `STATUS_` constants.
    pub status: u64,
    /// Reserved for the plugin's own use; carried through unchanged.
    pub plugin_data: Option<String>,
    /// Identifier of owner system.
    pub system_id: String,
    /// Disk location in storage topology.
    pub location: Option<String>,
    /// Disk rotation speed in revolutions per minute; `-1` unknown, `0`
    /// non-rotating, `1` rotational with unknown speed.
    pub rpm: Option<i32>,
    /// Disk data link type.
    pub link_type: Option<DiskLinkType>,
    /// SCSI VPD 0x83 NAA type identifier.
    pub vpd83: Option<String>,
}

impl Disk {
    /// Plugin failed to query the status of the disk.
    pub const STATUS_UNKNOWN: u64 = 1;

    /// Disk is up and healthy.
    pub const STATUS_OK: u64 = 1 << 1;

    /// Vendor specific status.
    pub const STATUS_OTHER: u64 = 1 << 2;

    /// Disk is still functional but will fail soon.
    pub const STATUS_PREDICTIVE_FAILURE: u64 = 1 << 3;

    /// Error made the disk not functional.
    pub const STATUS_ERROR: u64 = 1 << 4;

    /// Disk was removed by the administrator.
    pub const STATUS_REMOVED: u64 = 1 << 5;

    /// Disk is starting up.
    pub const STATUS_STARTING: u64 = 1 << 6;

    /// Disk is shutting down.
    pub const STATUS_STOPPING: u64 = 1 << 7;

    /// Disk is stopped by the administrator.
    pub const STATUS_STOPPED: u64 = 1 << 8;

    /// Disk is not functional yet, initializing.
    pub const STATUS_INITIALIZING: u64 = 1 << 9;

    /// Disk is in maintenance.
    pub const STATUS_MAINTENANCE_MODE: u64 = 1 << 10;

    /// Disk is configured as a spare disk.
    pub const STATUS_SPARE_DISK: u64 = 1 << 11;

    /// Disk is reconstructing its data.
    pub const STATUS_RECONSTRUCT: u64 = 1 << 12;

    /// Disk holds no data and may be used for a pool or as a spare.
    pub const STATUS_FREE: u64 = 1 << 13;
}

#[derive(Debug, Clone)]
pub struct FileSystem {
    /// Identifier.
    pub id: String,
    /// Human friendly name.
    pub name: String,
    /// Total space in bytes.
    pub total_space: u64,
    /// Free space in bytes.
    pub free_space: u64,
    /// Reserved for the plugin's own use; carried through unchanged.
    pub plugin_data: Option<String>,
    /// Identifier of owner system.
    pub system_id: String,
    /// Identifier of owner pool.
    pub pool_id: String,
}

#[derive(Debug, Clone)]
pub struct FileSystemSnapShot {
    /// Identifier.
    pub id: String,
    /// Human friendly name.
    pub name: String,
    /// POSIX time (epoch time) of creation.
    pub ts: u64,
    /// Reserved for the plugin's own use; carried through unchanged.
    pub plugin_data: Option<String>,
}

#[derive(Debug, Clone)]
pub struct NfsExport {
    /// Identifier.
    pub id: String,
    /// Identifier of the file system.
    pub fs_id: String,
    /// NFS export path.
    pub export_path: String,
    /// NFS authentication type.
    pub auth: String,
    /// Host list with root access.
    pub root: Vec<String>,
    /// Host list with read and write access.
    pub rw: Vec<String>,
    /// Host list with read only access.
    pub ro: Vec<String>,
    /// User ID for anonymous access.
    pub anonuid: i64,
    /// Group ID for anonymous access.
    pub anongid: i64,
    /// NFS extra options.
    pub options: String,
    /// Reserved for the plugin's own use; carried through unchanged.
    pub plugin_data: Option<String>,
}

impl NfsExport {
    /// Default user and group ID for anonymous access.
    pub const ANON_UID_GID_NA: i64 = -1;
}

/// An access group, also known as a host group: a group of initiators
/// sharing the same access to volumes.
#[derive(Debug, Clone)]
pub struct AccessGroup {
    /// Identifier.
    pub id: String,
    /// Human friendly name.
    pub name: String,
    /// Initiator list.
    pub init_ids: Vec<String>,
    /// Initiator type.
    pub init_type: InitiatorType,
    /// Reserved for the plugin's own use; carried through unchanged.
    pub plugin_data: Option<String>,
    pub system_id: String,
}

#[derive(Debug, Clone, Copy, PartialEq, Eq, Structural)]
pub enum InitiatorType {
    /// Plugin failed to query initiator type.
    Unknown,
    /// Vendor specific initiator type.
    Other,
    /// FC or FCoE WWPN.
    Wwpn,
    /// iSCSI IQN.
    IscsiIqn,
    /// The access group contains more than one type of initiator.
    Mixed,
}

/// The initiator type a wire integer denotes.
pub open spec fn init_type_of_int(i: int) -> InitiatorType {
    if i == 1 {
        InitiatorType::Other
    } else if i == 2 {
        InitiatorType::Wwpn
    } else if i == 5 {
        InitiatorType::IscsiIqn
    } else if i == 7 {
        InitiatorType::Mixed
    } else {
        InitiatorType::Unknown
    }
}

/// The wire integer of an initiator type.
pub open spec fn init_type_int(t: InitiatorType) -> int {
    match t {
        InitiatorType::Unknown => 0,
        InitiatorType::Other => 1,
        InitiatorType::Wwpn => 2,
        InitiatorType::IscsiIqn => 5,
        InitiatorType::Mixed => 7,
    }
}

pub fn int_to_init_type(i: i32) -> (t: InitiatorType)
    ensures
        t == init_type_of_int(i as int),
{
    if i == 1 {
        InitiatorType::Other
    } else if i == 2 {
        InitiatorType::Wwpn
    } else if i == 5 {
        InitiatorType::IscsiIqn
    } else if i == 7 {
        InitiatorType::Mixed
    } else {
        InitiatorType::Unknown
    }
}

pub fn init_type_to_int(t: InitiatorType) -> (i: i32)
    ensures
        i as int == init_type_int(t),
{
    match t {
        InitiatorType::Unknown => 0,
        InitiatorType::Other => 1,
        InitiatorType::Wwpn => 2,
        InitiatorType::IscsiIqn => 5,
        InitiatorType::Mixed => 7,
    }
}

/// A target port: the front-end port of a storage system that clients
/// connect to.
#[derive(Debug, Clone)]
pub struct TargetPort {
    /// Identifier.
    pub id: String,
    /// Type of port.
    pub port_type: PortType,
    /// The address used by the upper layer: WWPN or IQN.
    pub service_address: String,
    /// The address used by the network layer: WWPN, or IP and port.
    pub network_address: String,
    /// The address used by the physical layer: WWPN or MAC.
    pub physical_address: String,
    /// The name of the physical port, e.g. `eth0`.
    pub physical_name: String,
    /// Reserved for the plugin's own use; carried through unchanged.
    pub plugin_data: Option<String>,
    /// Identifier of owner system.
    pub system_id: String,
}

#[derive(Debug, Clone, Copy, PartialEq, Eq, Structural)]
pub enum PortType {
    /// Vendor specific port type.
    Other,
    /// FC port.
    Fc,
    /// FCoE port.
    FCoE,
    /// iSCSI port.
    Iscsi,
}

/// The port type a wire integer denotes.
pub open spec fn port_type_of_int(i: int) -> PortType {
    if i == 2 {
        PortType::Fc
    } else if i == 3 {
        PortType::FCoE
    } else if i == 4 {
        PortType::Iscsi
    } else {
        PortType::Other
    }
}

pub fn int_to_port_type(i: i32) -> (t: PortType)
    ensures
        t == port_type_of_int(i as int),
{
    if i == 2 {
        PortType::Fc
    } else if i == 3 {
        PortType::FCoE
    } else if i == 4 {
        PortType::Iscsi
    } else {
        PortType::Other
    }
}

/// Represent a battery.
#[derive(Debug, Clone)]
pub struct Battery {
    /// Identifier.
    pub id: String,
    /// Human friendly name.
    pub name: String,
    /// Battery type.
    pub battery_type: BatteryType,
    /// Battery status bitmap; see the `STATUS_` constants.
    pub status: u64,
    /// Reserved for the plugin's own use; carried through unchanged.
    pub plugin_data: Option<String>,
    /// Identifier of owner system.
    pub system_id: String,
}

impl Battery {
    /// Plugin failed to query battery status.
    pub const STATUS_UNKNOWN: u64 = 1;

    /// Vendor specific status.
    pub const STATUS_OTHER: u64 = 1 << 1;

    /// Battery is healthy and charged.
    pub const STATUS_OK: u64 = 1 << 2;

    /// Battery is disconnected from its power source and discharging.
    pub const STATUS_DISCHARGING: u64 = 1 << 3;

    /// Battery is not fully charged and charging.
    pub const STATUS_CHARGING: u64 = 1 << 4;

    /// System is discharging and recharging the battery to learn its
    /// capability.
    pub const STATUS_LEARNING: u64 = 1 << 5;

    /// Battery is degraded and should be checked or replaced.
    pub const STATUS_DEGRADED: u64 = 1 << 6;

    /// Battery is dead and should be replaced.
    pub const STATUS_ERROR: u64 = 1 << 7;
}

#[derive(Debug, Clone, Copy, PartialEq, Eq, Structural)]
pub enum BatteryType {
    /// Plugin failed to detect battery type.
    Unknown,
    /// Vendor specific battery type.
    Other,
    /// Chemical battery, e.g. Li-ion.
    Chemical,
    /// Super capacitor.
    Capacitor,
}

/// The battery type a wire integer denotes.
pub open spec fn battery_type_of_int(i: int) -> BatteryType {
    if i == 2 {
        BatteryType::Other
    } else if i == 3 {
        BatteryType::Chemical
    } else if i == 4 {
        BatteryType::Capacitor
    } else {
        BatteryType::Unknown
    }
}

pub fn int_to_battery_type(i: i32) -> (t: BatteryType)
    ensures
        t == battery_type_of_int(i as int),
{
    if i == 2 {
        BatteryType::Other
    } else if i == 3 {
        BatteryType::Chemical
    } else if i == 4 {
        BatteryType::Capacitor
    } else {
        BatteryType::Unknown
    }
}

/// A block range for `volume_replicate_range`.
#[derive(Debug, Clone)]
pub struct BlockRange {
    pub src_blk_addr: u64,
    pub dst_blk_addr: u64,
    pub blk_count: u64,
}

impl BlockRange {
    /// Create a block range.
    pub fn new(src_blk_addr: u64, dst_blk_addr: u64, blk_count: u64) -> (r: BlockRange)
        ensures
            r.src_blk_addr == src_blk_addr,
            r.dst_blk_addr == dst_blk_addr,
            r.blk_count == blk_count,
    {
        BlockRange { src_blk_addr, dst_blk_addr, blk_count }
    }
}

/// Represent a volume cache policy.
#[derive(Debug, Clone, Copy, PartialEq, Eq, Structural)]
pub enum CachePolicy {
    /// Cache is enabled.
    Enabled,
    /// The storage system decides based on battery or capacitor health;
    /// write cache only.
    Auto,
    /// Cache is disabled.
    Disabled,
    /// Plugin failed to query the cache setting.
    Unknown,
    /// Physical disk cache is determined by the disk vendor; physical disk
    /// cache only.
    UseDiskSetting,
}

/// Represent volume cache information.
#[derive(Debug, Clone)]
pub struct VolumeCacheInfo {
    /// Write cache setting.
    pub write_cache_setting: CachePolicy,
    /// Write cache status.
    pub write_cache_status: CachePolicy,
    /// Read cache setting.
    pub read_cache_setting: CachePolicy,
    /// Read cache status.
    pub read_cache_status: CachePolicy,
    /// Physical disk cache status.
    pub physical_disk_cache_status: CachePolicy,
}

/// Represent NFS access control information.
#[derive(Debug, Clone)]
pub struct NfsAccess {
    /// List of hosts with root access.
    pub root_list: Vec<String>,
    /// List of hosts with read and write access.
    pub rw_list: Vec<String>,
    /// List of hosts with read only access.
    pub ro_list: Vec<String>,
    /// UID to map to anonymous.
    pub anon_uid: Option<i64>,
    /// GID to map to anonymous.
    pub anon_gid: Option<i64>,
}

/// For the `thinp` argument of `volume_create`.
#[derive(Debug, Clone, Copy, PartialEq, Eq, Structural)]
pub enum VolumeCreateArgThinP {
    /// Create a fully allocated volume.
    Full,
    /// Create a thin provisioning volume.
    Thin,
    /// Let the storage array decide the provisioning type.
    Default,
}

/// The model of an optional string: `null` when absent.
pub open spec fn opt_str_model(o: Option<String>) -> JsonModel {
    match o {
        None => JsonModel::Null,
        Some(s) => JsonModel::Str(s@),
    }
}

/// Builds the JSON value of an optional string.
pub fn opt_str_json(o: &Option<String>) -> (r: Json)
    ensures
        r.deep_view() == opt_str_model(*o),
{
    match o {
        None => Json::Null,
        Some(s) => Json::Str(s.clone()),
    }
}

/// The error returned when a wire entity does not have its documented shape.
fn shape_error() -> (r: LsmError)
    ensures
        r.kind == LsmErrorKind::TransportSerialization,
{
    LsmError::with_msg(LsmErrorKind::TransportSerialization, "entity of unexpected shape")
}

impl System {
    /// The wire form of a system.
    pub open spec fn to_model(self) -> JsonModel {
        JsonModel::Obj(
            Map::empty().insert("class"@, JsonModel::Str("System"@)).insert(
                "id"@,
                JsonModel::Str(self.id@),
            ).insert("name"@, JsonModel::Str(self.name@)).insert(
                "status"@,
                JsonModel::Int(self.status as int),
            ).insert("status_info"@, JsonModel::Str(self.status_info@)).insert(
                "plugin_data"@,
                opt_str_model(self.plugin_data),
            ).insert("fw_version"@, JsonModel::Str(self.fw_version@)).insert(
                "read_cache_pct"@,
                JsonModel::Int(self.read_cache_pct as int),
            ).insert("mode"@, JsonModel::Int(sys_mode_int(self.mode))),
        )
    }

    /// Serializes a system for a request argument.
    pub fn to_json(&self) -> (r: Json)
        ensures
            r.deep_view() == self.to_model(),
    {
        let mut f = obj_new();
        obj_push(&mut f, "class", Json::Str(gen_system_class_string()));
        obj_push(&mut f, "id", Json::Str(self.id.clone()));
        obj_push(&mut f, "name", Json::Str(self.name.clone()));
        obj_push(&mut f, "status", Json::Uint(self.status as u64));
        obj_push(&mut f, "status_info", Json::Str(self.status_info.clone()));
        obj_push(&mut f, "plugin_data", opt_str_json(&self.plugin_data));
        obj_push(&mut f, "fw_version", Json::Str(self.fw_version.clone()));
        obj_push(&mut f, "read_cache_pct", Json::Int(self.read_cache_pct as i64));
        obj_push(&mut f, "mode", Json::Int(sys_mod_to_int(self.mode) as i64));
        Json::Obj(f)
    }

    /// Whether a decoded value has the wire shape of a system.
    pub open spec fn json_valid(m: JsonModel) -> bool {
        &&& jstr(m, "id"@) is Some
        &&& jstr(m, "name"@) is Some
        &&& (jint(m, "status"@) matches Some(x) && 0 <= x <= u32::MAX)
        &&& jstr(m, "status_info"@) is Some
        &&& jopt_str_valid(m, "plugin_data"@)
        &&& jstr(m, "fw_version"@) is Some
        &&& (jint(m, "read_cache_pct"@) matches Some(x) && i8::MIN <= x <= i8::MAX)
        &&& (jint(m, "mode"@) matches Some(x) && i8::MIN <= x <= i8::MAX)
    }

    /// How a decoded system relates to the wire value it came from.
    pub open spec fn matches_model(self, m: JsonModel) -> bool {
        &&& jstr(m, "id"@) == Some(self.id@)
        &&& jstr(m, "name"@) == Some(self.name@)
        &&& jint(m, "status"@) == Some(self.status as int)
        &&& jstr(m, "status_info"@) == Some(self.status_info@)
        &&& (match self.plugin_data {
            Some(s) => jopt_str(m, "plugin_data"@) == Some(s@),
            None => jopt_str(m, "plugin_data"@) is None,
        })
        &&& jstr(m, "fw_version"@) == Some(self.fw_version@)
        &&& jint(m, "read_cache_pct"@) == Some(self.read_cache_pct as int)
        &&& (jint(m, "mode"@) matches Some(x) && self.mode == sys_mode_of_int(x))
    }

    /// Decodes a system from a wire value.
    pub fn from_json(j: &Json) -> (r: LsmResult<System>)
        ensures
            match r {
                Ok(v) => Self::json_valid(j.deep_view()) && v.matches_model(j.deep_view()),
                Err(e) => !Self::json_valid(j.deep_view()) && e.kind
                    == LsmErrorKind::TransportSerialization,
            },
    {
        let fields = match j {
            Json::Obj(fields) => fields,
            _ => {
                return Err(shape_error());
            },
        };
        let id = match field_str(fields, "id") {
            Some(s) => s,
            None => {
                return Err(shape_error());
            },
        };
        let name = match field_str(fields, "name") {
            Some(s) => s,
            None => {
                return Err(shape_error());
            },
        };
        let status = match field_u64(fields, "status") {
            Some(x) if x <= u32::MAX as u64 => x as u32,
            _ => {
                return Err(shape_error());
            },
        };
        let status_info = match field_str(fields, "status_info") {
            Some(s) => s,
            None => {
                return Err(shape_error());
            },
        };
        let plugin_data = match field_opt_str(fields, "plugin_data") {
            Ok(o) => o,
            Err(()) => {
                return Err(shape_error());
            },
        };
        let fw_version = match field_str(fields, "fw_version") {
            Some(s) => s,
            None => {
                return Err(shape_error());
            },
        };
        let read_cache_pct = match field_i64(fields, "read_cache_pct") {
            Some(x) if i8::MIN as i64 <= x && x <= i8::MAX as i64 => x as i8,
            _ => {
                return Err(shape_error());
            },
        };
        let mode = match field_i64(fields, "mode") {
            Some(x) if i8::MIN as i64 <= x && x <= i8::MAX as i64 => int_to_sys_mod(x as i8),
            _ => {
                return Err(shape_error());
            },
        };
        Ok(System { id, name, status, status_info, plugin_data, fw_version, read_cache_pct, mode })
    }
}

impl Volume {
    /// The wire form of a volume.
    pub open spec fn to_model(self) -> JsonModel {
        JsonModel::Obj(
            Map::empty().insert("class"@, JsonModel::Str("Volume"@)).insert(
                "id"@,
                JsonModel::Str(self.id@),
            ).insert("name"@, JsonModel::Str(self.name@)).insert(
                "admin_state"@,
                JsonModel::Int(
                    if self.enabled {
                        1int
                    } else {
                        0int
                    },
                ),
            ).insert("block_size"@, JsonModel::Int(self.block_size as int)).insert(
                "num_of_blocks"@,
                JsonModel::Int(self.num_of_blocks as int),
            ).insert("plugin_data"@, opt_str_model(self.plugin_data)).insert(
                "vpd83"@,
                JsonModel::Str(self.vpd83@),
            ).insert("system_id"@, JsonModel::Str(self.system_id@)).insert(
                "pool_id"@,
                JsonModel::Str(self.pool_id@),
            ),
        )
    }

    /// Serializes a volume for a request argument.
    pub fn to_json(&self) -> (r: Json)
        ensures
            r.deep_view() == self.to_model(),
    {
        let mut f = obj_new();
        obj_push(&mut f, "class", Json::Str(gen_vol_class_string()));
        obj_push(&mut f, "id", Json::Str(self.id.clone()));
        obj_push(&mut f, "name", Json::Str(self.name.clone()));
        obj_push(&mut f, "admin_state", Json::Int(bool_to_int(self.enabled) as i64));
        obj_push(&mut f, "block_size", Json::Uint(self.block_size));
        obj_push(&mut f, "num_of_blocks", Json::Uint(self.num_of_blocks));
        obj_push(&mut f, "plugin_data", opt_str_json(&self.plugin_data));
        obj_push(&mut f, "vpd83", Json::Str(self.vpd83.clone()));
        obj_push(&mut f, "system_id", Json::Str(self.system_id.clone()));
        obj_push(&mut f, "pool_id", Json::Str(self.pool_id.clone()));
        Json::Obj(f)
    }

    /// Whether a decoded value has the wire shape of a volume.
    pub open spec fn json_valid(m: JsonModel) -> bool {
        &&& jstr(m, "id"@) is Some
        &&& jstr(m, "name"@) is Some
        &&& (jint(m, "admin_state"@) matches Some(x) && i32::MIN <= x <= i32::MAX)
        &&& (jint(m, "block_size"@) matches Some(x) && 0 <= x <= u64::MAX)
        &&& (jint(m, "num_of_blocks"@) matches Some(x) && 0 <= x <= u64::MAX)
        &&& jopt_str_valid(m, "plugin_data"@)
        &&& jstr(m, "vpd83"@) is Some
        &&& jstr(m, "system_id"@) is Some
        &&& jstr(m, "pool_id"@) is Some
    }

    /// How a decoded volume relates to the wire value it came from.
    pub open spec fn matches_model(self, m: JsonModel) -> bool {
        &&& jstr(m, "id"@) == Some(self.id@)
        &&& jstr(m, "name"@) == Some(self.name@)
        &&& self.enabled == (jint(m, "admin_state"@) == Some(1int))
        &&& jint(m, "block_size"@) == Some(self.block_size as int)
        &&& jint(m, "num_of_blocks"@) == Some(self.num_of_blocks as int)
        &&& (match self.plugin_data {
            Some(s) => jopt_str(m, "plugin_data"@) == Some(s@),
            None => jopt_str(m, "plugin_data"@) is None,
        })
        &&& jstr(m, "vpd83"@) == Some(self.vpd83@)
        &&& jstr(m, "system_id"@) == Some(self.system_id@)
        &&& jstr(m, "pool_id"@) == Some(self.pool_id@)
    }

    /// Decodes a volume from a wire value.
    pub fn from_json(j: &Json) -> (r: LsmResult<Volume>)
        ensures
            match r {
                Ok(v) => Self::json_valid(j.deep_view()) && v.matches_model(j.deep_view()),
                Err(e) => !Self::json_valid(j.deep_view()) && e.kind
                    == LsmErrorKind::TransportSerialization,
            },
    {
        let fields = match j {
            Json::Obj(fields) => fields,
            _ => {
                return Err(shape_error());
            },
        };
        let id = match field_str(fields, "id") {
            Some(s) => s,
            None => {
                return Err(shape_error());
            },
        };
        let name = match field_str(fields, "name") {
            Some(s) => s,
            None => {
                return Err(shape_error());
            },
        };
        let admin_state = match field_i64(fields, "admin_state") {
            Some(x) if i32::MIN as i64 <= x && x <= i32::MAX as i64 => x,
            _ => {
                return Err(shape_error());
            },
        };
        let block_size = match field_u64(fields, "block_size") {
            Some(x) => x,
            None => {
                return Err(shape_error());
            },
        };
        let num_of_blocks = match field_u64(fields, "num_of_blocks") {
            Some(x) => x,
            None => {
                return Err(shape_error());
            },
        };
        let plugin_data = match field_opt_str(fields, "plugin_data") {
            Ok(o) => o,
            Err(()) => {
                return Err(shape_error());
            },
        };
        let vpd83 = match field_str(fields, "vpd83") {
            Some(s) => s,
            None => {
                return Err(shape_error());
            },
        };
        let system_id = match field_str(fields, "system_id") {
            Some(s) => s,
            None => {
                return Err(shape_error());
            },
        };
        let pool_id = match field_str(fields, "pool_id") {
            Some(s) => s,
            None => {
                return Err(shape_error());
            },
        };
        Ok(
            Volume {
                id,
                name,
                enabled: admin_state == 1,
                block_size,
                num_of_blocks,
                plugin_data,
                vpd83,
                system_id,
                pool_id,
            },
        )
    }
}

impl Pool {
    /// The wire form of a pool.
    pub open spec fn to_model(self) -> JsonModel {
        JsonModel::Obj(
            Map::empty().insert("class"@, JsonModel::Str("Pool"@)).insert(
                "id"@,
                JsonModel::Str(self.id@),
            ).insert("name"@, JsonModel::Str(self.name@)).insert(
                "element_type"@,
                JsonModel::Int(self.element_type as int),
            ).insert("unsupported_actions"@, JsonModel::Int(self.unsupported_actions as int)).insert(
                "total_space"@,
                JsonModel::Int(self.total_space as int),
            ).insert("free_space"@, JsonModel::Int(self.free_space as int)).insert(
                "status"@,
                JsonModel::Int(self.status as int),
            ).insert("status_info"@, opt_str_model(self.status_info)).insert(
                "plugin_data"@,
                opt_str_model(self.plugin_data),
            ).insert("system_id"@, JsonModel::Str(self.system_id@)),
        )
    }

    /// Serializes a pool for a request argument.
    pub fn to_json(&self) -> (r: Json)
        ensures
            r.deep_view() == self.to_model(),
    {
        let mut f = obj_new();
        obj_push(&mut f, "class", Json::Str(gen_pool_class_string()));
        obj_push(&mut f, "id", Json::Str(self.id.clone()));
        obj_push(&mut f, "name", Json::Str(self.name.clone()));
        obj_push(&mut f, "element_type", Json::Uint(self.element_type));
        obj_push(&mut f, "unsupported_actions", Json::Uint(self.unsupported_actions));
        obj_push(&mut f, "total_space", Json::Uint(self.total_space));
        obj_push(&mut f, "free_space", Json::Uint(self.free_space));
        obj_push(&mut f, "status", Json::Uint(self.status));
        obj_push(&mut f, "status_info", opt_str_json(&self.status_info));
        obj_push(&mut f, "plugin_data", opt_str_json(&self.plugin_data));
        obj_push(&mut f, "system_id", Json::Str(self.system_id.clone()));
        Json::Obj(f)
    }

    /// Whether a decoded value has the wire shape of a pool.
    pub open spec fn json_valid(m: JsonModel) -> bool {
        &&& jstr(m, "id"@) is Some
        &&& jstr(m, "name"@) is Some
        &&& (jint(m, "element_type"@) matches Some(x) && 0 <= x <= u64::MAX)
        &&& (jint(m, "unsupported_actions"@) matches Some(x) && 0 <= x <= u64::MAX)
        &&& (jint(m, "total_space"@) matches Some(x) && 0 <= x <= u64::MAX)
        &&& (jint(m, "free_space"@) matches Some(x) && 0 <= x <= u64::MAX)
        &&& (jint(m, "status"@) matches Some(x) && 0 <= x <= u64::MAX)
        &&& jopt_str_valid(m, "status_info"@)
        &&& jopt_str_valid(m, "plugin_data"@)
        &&& jstr(m, "system_id"@) is Some
    }

    /// How a decoded pool relates to the wire value it came from.
    pub open spec fn matches_model(self, m: JsonModel) -> bool {
        &&& jstr(m, "id"@) == Some(self.id@)
        &&& jstr(m, "name"@) == Some(self.name@)
        &&& jint(m, "element_type"@) == Some(self.element_type as int)
        &&& jint(m, "unsupported_actions"@) == Some(self.unsupported_actions as int)
        &&& jint(m, "total_space"@) == Some(self.total_space as int)
        &&& jint(m, "free_space"@) == Some(self.free_space as int)
        &&& jint(m, "status"@) == Some(self.status as int)
        &&& (match self.status_info {
            Some(s) => jopt_str(m, "status_info"@) == Some(s@),
            None => jopt_str(m, "status_info"@) is None,
        })
        &&& (match self.plugin_data {
            Some(s) => jopt_str(m, "plugin_data"@) == Some(s@),
            None => jopt_str(m, "plugin_data"@) is None,
        })
        &&& jstr(m, "system_id"@) == Some(self.system_id@)
    }

    /// Decodes a pool from a wire value.
    pub fn from_json(j: &Json) -> (r: LsmResult<Pool>)
        ensures
            match r {
                Ok(v) => Self::json_valid(j.deep_view()) && v.matches_model(j.deep_view()),
                Err(e) => !Self::json_valid(j.deep_view()) && e.kind
                    == LsmErrorKind::TransportSerialization,
            },
    {
        let fields = match j {
            Json::Obj(fields) => fields,
            _ => {
                return Err(shape_error());
            },
        };
        let id = match field_str(fields, "id") {
            Some(s) => s,
            None => {
                return Err(shape_error());
            },
        };
        let name = match field_str(fields, "name") {
            Some(s) => s,
            None => {
                return Err(shape_error());
            },
        };
        let element_type = match field_u64(fields, "element_type") {
            Some(x) => x,
            None => {
                return Err(shape_error());
            },
        };
        let unsupported_actions = match field_u64(fields, "unsupported_actions") {
            Some(x) => x,
            None => {
                return Err(shape_error());
            },
        };
        let total_space = match field_u64(fields, "total_space") {
            Some(x) => x,
            None => {
                return Err(shape_error());
            },
        };
        let free_space = match field_u64(fields, "free_space") {
            Some(x) => x,
            None => {
                return Err(shape_error());
            },
        };
        let status = match field_u64(fields, "status") {
            Some(x) => x,
            None => {
                return Err(shape_error());
            },
        };
        let status_info = match field_opt_str(fields, "status_info") {
            Ok(o) => o,
            Err(()) => {
                return Err(shape_error());
            },
        };
        let plugin_data = match field_opt_str(fields, "plugin_data") {
            Ok(o) => o,
            Err(()) => {
                return Err(shape_error());
            },
        };
        let system_id = match field_str(fields, "system_id") {
            Some(s) => s,
            None => {
                return Err(shape_error());
            },
        };
        Ok(
            Pool {
                id,
                name,
                element_type,
                unsupported_actions,
                total_space,
                free_space,
                status,
                status_info,
                plugin_data,
                system_id,
            },
        )
    }
}

impl FileSystem {
    /// The wire form of a file system.
    pub open spec fn to_model(self) -> JsonModel {
        JsonModel::Obj(
            Map::empty().insert("class"@, JsonModel::Str("FileSystem"@)).insert(
                "id"@,
                JsonModel::Str(self.id@),
            ).insert("name"@, JsonModel::Str(self.name@)).insert(
                "total_space"@,
                JsonModel::Int(self.total_space as int),
            ).insert("free_space"@, JsonModel::Int(self.free_space as int)).insert(
                "plugin_data"@,
                opt_str_model(self.plugin_data),
            ).insert("system_id"@, JsonModel::Str(self.system_id@)).insert(
                "pool_id"@,
                JsonModel::Str(self.pool_id@),
            ),
        )
    }

    /// Serializes a file system for a request argument.
    pub fn to_json(&self) -> (r: Json)
        ensures
            r.deep_view() == self.to_model(),
    {
        let mut f = obj_new();
        obj_push(&mut f, "class", Json::Str(gen_fs_class_string()));
        obj_push(&mut f, "id", Json::Str(self.id.clone()));
        obj_push(&mut f, "name", Json::Str(self.name.clone()));
        obj_push(&mut f, "total_space", Json::Uint(self.total_space));
        obj_push(&mut f, "free_space", Json::Uint(self.free_space));
        obj_push(&mut f, "plugin_data", opt_str_json(&self.plugin_data));
        obj_push(&mut f, "system_id", Json::Str(self.system_id.clone()));
        obj_push(&mut f, "pool_id", Json::Str(self.pool_id.clone()));
        Json::Obj(f)
    }

    /// Whether a decoded value has the wire shape of a file system.
    pub open spec fn json_valid(m: JsonModel) -> bool {
        &&& jstr(m, "id"@) is Some
        &&& jstr(m, "name"@) is Some
        &&& (jint(m, "total_space"@) matches Some(x) && 0 <= x <= u64::MAX)
        &&& (jint(m, "free_space"@) matches Some(x) && 0 <= x <= u64::MAX)
        &&& jopt_str_valid(m, "plugin_data"@)
        &&& jstr(m, "system_id"@) is Some
        &&& jstr(m, "pool_id"@) is Some
    }

    /// How a decoded file system relates to the wire value it came from.
    pub open spec fn matches_model(self, m: JsonModel) -> bool {
        &&& jstr(m, "id"@) == Some(self.id@)
        &&& jstr(m, "name"@) == Some(self.name@)
        &&& jint(m, "total_space"@) == Some(self.total_space as int)
        &&& jint(m, "free_space"@) == Some(self.free_space as int)
        &&& (match self.plugin_data {
            Some(s) => jopt_str(m, "plugin_data"@) == Some(s@),
            None => jopt_str(m, "plugin_data"@) is None,
        })
        &&& jstr(m, "system_id"@) == Some(self.system_id@)
        &&& jstr(m, "pool_id"@) == Some(self.pool_id@)
    }

    /// Decodes a file system from a wire value.
    pub fn from_json(j: &Json) -> (r: LsmResult<FileSystem>)
        ensures
            match r {
                Ok(v) => Self::json_valid(j.deep_view()) && v.matches_model(j.deep_view()),
                Err(e) => !Self::json_valid(j.deep_view()) && e.kind
                    == LsmErrorKind::TransportSerialization,
            },
    {
        let fields = match j {
            Json::Obj(fields) => fields,
            _ => {
                return Err(shape_error());
            },
        };
        let id = match field_str(fields, "id") {
            Some(s) => s,
            None => {
                return Err(shape_error());
            },
        };
        let name = match field_str(fields, "name") {
            Some(s) => s,
            None => {
                return Err(shape_error());
            },
        };
        let total_space = match field_u64(fields, "total_space") {
            Some(x) => x,
            None => {
                return Err(shape_error());
            },
        };
        let free_space = match field_u64(fields, "free_space") {
            Some(x) => x,
            None => {
                return Err(shape_error());
            },
        };
        let plugin_data = match field_opt_str(fields, "plugin_data") {
            Ok(o) => o,
            Err(()) => {
                return Err(shape_error());
            },
        };
        let system_id = match field_str(fields, "system_id") {
            Some(s) => s,
            None => {
                return Err(shape_error());
            },
        };
        let pool_id = match field_str(fields, "pool_id") {
            Some(s) => s,
            None => {
                return Err(shape_error());
            },
        };
        Ok(FileSystem { id, name, total_space, free_space, plugin_data, system_id, pool_id })
    }
}

impl FileSystemSnapShot {
    /// The wire form of a file system snapshot.
    pub open spec fn to_model(self) -> JsonModel {
        JsonModel::Obj(
            Map::empty().insert("class"@, JsonModel::Str("FsSnapshot"@)).insert(
                "id"@,
                JsonModel::Str(self.id@),
            ).insert("name"@, JsonModel::Str(self.name@)).insert(
                "ts"@,
                JsonModel::Int(self.ts as int),
            ).insert("plugin_data"@, opt_str_model(self.plugin_data)),
        )
    }

    /// Serializes a snapshot for a request argument.
    pub fn to_json(&self) -> (r: Json)
        ensures
            r.deep_view() == self.to_model(),
    {
        let mut f = obj_new();
        obj_push(&mut f, "class", Json::Str(gen_fs_snap_class_string()));
        obj_push(&mut f, "id", Json::Str(self.id.clone()));
        obj_push(&mut f, "name", Json::Str(self.name.clone()));
        obj_push(&mut f, "ts", Json::Uint(self.ts));
        obj_push(&mut f, "plugin_data", opt_str_json(&self.plugin_data));
        Json::Obj(f)
    }

    /// Whether a decoded value has the wire shape of a snapshot.
    pub open spec fn json_valid(m: JsonModel) -> bool {
        &&& jstr(m, "id"@) is Some
        &&& jstr(m, "name"@) is Some
        &&& (jint(m, "ts"@) matches Some(x) && 0 <= x <= u64::MAX)
        &&& jopt_str_valid(m, "plugin_data"@)
    }

    /// How a decoded snapshot relates to the wire value it came from.
    pub open spec fn matches_model(self, m: JsonModel) -> bool {
        &&& jstr(m, "id"@) == Some(self.id@)
        &&& jstr(m, "name"@) == Some(self.name@)
        &&& jint(m, "ts"@) == Some(self.ts as int)
        &&& (match self.plugin_data {
            Some(s) => jopt_str(m, "plugin_data"@) == Some(s@),
            None => jopt_str(m, "plugin_data"@) is None,
        })
    }

    /// Decodes a snapshot from a wire value.
    pub fn from_json(j: &Json) -> (r: LsmResult<FileSystemSnapShot>)
        ensures
            match r {
                Ok(v) => Self::json_valid(j.deep_view()) && v.matches_model(j.deep_view()),
                Err(e) => !Self::json_valid(j.deep_view()) && e.kind
                    == LsmErrorKind::TransportSerialization,
            },
    {
        let fields = match j {
            Json::Obj(fields) => fields,
            _ => {
                return Err(shape_error());
            },
        };
        let id = match field_str(fields, "id") {
            Some(s) => s,
            None => {
                return Err(shape_error());
            },
        };
        let name = match field_str(fields, "name") {
            Some(s) => s,
            None => {
                return Err(shape_error());
            },
        };
        let ts = match field_u64(fields, "ts") {
            Some(x) => x,
            None => {
                return Err(shape_error());
            },
        };
        let plugin_data = match field_opt_str(fields, "plugin_data") {
            Ok(o) => o,
            Err(()) => {
                return Err(shape_error());
            },
        };
        Ok(FileSystemSnapShot { id, name, ts, plugin_data })
    }
}

/// The model of an optional 32-bit integer: `null` when absent.
pub open spec fn opt_i32_model(o: Option<i32>) -> JsonModel {
    match o {
        None => JsonModel::Null,
        Some(x) => JsonModel::Int(x as int),
    }
}

impl Disk {
    /// The wire form of a disk.
    pub open spec fn to_model(self) -> JsonModel {
        JsonModel::Obj(
            Map::empty().insert("class"@, JsonModel::Str("Disk"@)).insert(
                "id"@,
                JsonModel::Str(self.id@),
            ).insert("name"@, JsonModel::Str(self.name@)).insert(
                "disk_type"@,
                JsonModel::Int(disk_type_int(self.disk_type)),
            ).insert("block_size"@, JsonModel::Int(self.block_size as int)).insert(
                "num_of_blocks"@,
                JsonModel::Int(self.num_of_blocks as int),
            ).insert("status"@, JsonModel::Int(self.status as int)).insert(
                "plugin_data"@,
                opt_str_model(self.plugin_data),
            ).insert("system_id"@, JsonModel::Str(self.system_id@)).insert(
                "location"@,
                opt_str_model(self.location),
            ).insert("rpm"@, opt_i32_model(self.rpm)).insert(
                "link_type"@,
                JsonModel::Int(
                    match self.link_type {
                        Some(lt) => disk_link_type_int(lt),
                        None => -1,
                    },
                ),
            ).insert("vpd83"@, opt_str_model(self.vpd83)),
        )
    }

    /// Serializes a disk for a request argument.
    pub fn to_json(&self) -> (r: Json)
        ensures
            r.deep_view() == self.to_model(),
    {
        let mut f = obj_new();
        obj_push(&mut f, "class", Json::Str(gen_disk_class_string()));
        obj_push(&mut f, "id", Json::Str(self.id.clone()));
        obj_push(&mut f, "name", Json::Str(self.name.clone()));
        obj_push(&mut f, "disk_type", Json::Int(disk_type_to_int(self.disk_type) as i64));
        obj_push(&mut f, "block_size", Json::Uint(self.block_size));
        obj_push(&mut f, "num_of_blocks", Json::Uint(self.num_of_blocks));
        obj_push(&mut f, "status", Json::Uint(self.status));
        obj_push(&mut f, "plugin_data", opt_str_json(&self.plugin_data));
        obj_push(&mut f, "system_id", Json::Str(self.system_id.clone()));
        obj_push(&mut f, "location", opt_str_json(&self.location));
        let rpm_json = match self.rpm {
            None => Json::Null,
            Some(x) => Json::Int(x as i64),
        };
        obj_push(&mut f, "rpm", rpm_json);
        obj_push(&mut f, "link_type", Json::Int(disk_link_type_to_int(self.link_type) as i64));
        obj_push(&mut f, "vpd83", opt_str_json(&self.vpd83));
        Json::Obj(f)
    }

    /// Whether a decoded value has the wire shape of a disk.
    pub open spec fn json_valid(m: JsonModel) -> bool {
        &&& jstr(m, "id"@) is Some
        &&& jstr(m, "name"@) is Some
        &&& (jint(m, "disk_type"@) matches Some(x) && i32::MIN <= x <= i32::MAX)
        &&& (jint(m, "block_size"@) matches Some(x) && 0 <= x <= u64::MAX)
        &&& (jint(m, "num_of_blocks"@) matches Some(x) && 0 <= x <= u64::MAX)
        &&& (jint(m, "status"@) matches Some(x) && 0 <= x <= u64::MAX)
        &&& jopt_str_valid(m, "plugin_data"@)
        &&& jstr(m, "system_id"@) is Some
        &&& jopt_str_valid(m, "location"@)
        &&& jopt_int_valid(m, "rpm"@)
        &&& (jopt_int(m, "rpm"@) matches Some(x) ==> i32::MIN <= x <= i32::MAX)
        &&& (jint(m, "link_type"@) matches Some(x) && i32::MIN <= x <= i32::MAX)
        &&& jopt_str_valid(m, "vpd83"@)
    }

    /// How a decoded disk relates to the wire value it came from.
    pub open spec fn matches_model(self, m: JsonModel) -> bool {
        &&& jstr(m, "id"@) == Some(self.id@)
        &&& jstr(m, "name"@) == Some(self.name@)
        &&& (jint(m, "disk_type"@) matches Some(x) && self.disk_type == disk_type_of_int(x))
        &&& jint(m, "block_size"@) == Some(self.block_size as int)
        &&& jint(m, "num_of_blocks"@) == Some(self.num_of_blocks as int)
        &&& jint(m, "status"@) == Some(self.status as int)
        &&& (match self.plugin_data {
            Some(s) => jopt_str(m, "plugin_data"@) == Some(s@),
            None => jopt_str(m, "plugin_data"@) is None,
        })
        &&& jstr(m, "system_id"@) == Some(self.system_id@)
        &&& (match self.location {
            Some(s) => jopt_str(m, "location"@) == Some(s@),
            None => jopt_str(m, "location"@) is None,
        })
        &&& (match self.rpm {
            Some(x) => jopt_int(m, "rpm"@) == Some(x as int),
            None => jopt_int(m, "rpm"@) is None,
        })
        &&& (jint(m, "link_type"@) matches Some(x) && self.link_type == Some(
            disk_link_type_of_int(x),
        ))
        &&& (match self.vpd83 {
            Some(s) => jopt_str(m, "vpd83"@) == Some(s@),
            None => jopt_str(m, "vpd83"@) is None,
        })
    }

    /// Decodes a disk from a wire value.
    pub fn from_json(j: &Json) -> (r: LsmResult<Disk>)
        ensures
            match r {
                Ok(v) => Self::json_valid(j.deep_view()) && v.matches_model(j.deep_view()),
                Err(e) => !Self::json_valid(j.deep_view()) && e.kind
                    == LsmErrorKind::TransportSerialization,
            },
    {
        let fields = match j {
            Json::Obj(fields) => fields,
            _ => {
                return Err(shape_error());
            },
        };
        let id = match field_str(fields, "id") {
            Some(s) => s,
            None => {
                return Err(shape_error());
            },
        };
        let name = match field_str(fields, "name") {
            Some(s) => s,
            None => {
                return Err(shape_error());
            },
        };
        let disk_type = match field_i64(fields, "disk_type") {
            Some(x) if i32::MIN as i64 <= x && x <= i32::MAX as i64 => int_to_disk_type(x as i32),
            _ => {
                return Err(shape_error());
            },
        };
        let block_size = match field_u64(fields, "block_size") {
            Some(x) => x,
            None => {
                return Err(shape_error());
            },
        };
        let num_of_blocks = match field_u64(fields, "num_of_blocks") {
            Some(x) => x,
            None => {
                return Err(shape_error());
            },
        };
        let status = match field_u64(fields, "status") {
            Some(x) => x,
            None => {
                return Err(shape_error());
            },
        };
        let plugin_data = match field_opt_str(fields, "plugin_data") {
            Ok(o) => o,
            Err(()) => {
                return Err(shape_error());
            },
        };
        let system_id = match field_str(fields, "system_id") {
            Some(s) => s,
            None => {
                return Err(shape_error());
            },
        };
        let location = match field_opt_str(fields, "location") {
            Ok(o) => o,
            Err(()) => {
                return Err(shape_error());
            },
        };
        let rpm = match field_opt_i64(fields, "rpm") {
            Ok(None) => None,
            Ok(Some(x)) if i32::MIN as i64 <= x && x <= i32::MAX as i64 => Some(x as i32),
            _ => {
                return Err(shape_error());
            },
        };
        let link_type = match field_i64(fields, "link_type") {
            Some(x) if i32::MIN as i64 <= x && x <= i32::MAX as i64 => Some(
                int_to_disk_link_type(x as i32),
            ),
            _ => {
                return Err(shape_error());
            },
        };
        let vpd83 = match field_opt_str(fields, "vpd83") {
            Ok(o) => o,
            Err(()) => {
                return Err(shape_error());
            },
        };
        Ok(
            Disk {
                id,
                name,
                disk_type,
                block_size,
                num_of_blocks,
                status,
                plugin_data,
                system_id,
                location,
                rpm,
                link_type,
                vpd83,
            },
        )
    }
}

impl NfsExport {
    /// The wire form of an NFS export.
    pub open spec fn to_model(self) -> JsonModel {
        JsonModel::Obj(
            Map::empty().insert("class"@, JsonModel::Str("NfsExport"@)).insert(
                "id"@,
                JsonModel::Str(self.id@),
            ).insert("fs_id"@, JsonModel::Str(self.fs_id@)).insert(
                "export_path"@,
                JsonModel::Str(self.export_path@),
            ).insert("auth"@, JsonModel::Str(self.auth@)).insert(
                "root"@,
                str_list_model(self.root@),
            ).insert("rw"@, str_list_model(self.rw@)).insert("ro"@, str_list_model(self.ro@)).insert(
                "anonuid"@,
                JsonModel::Int(self.anonuid as int),
            ).insert("anongid"@, JsonModel::Int(self.anongid as int)).insert(
                "options"@,
                JsonModel::Str(self.options@),
            ).insert("plugin_data"@, opt_str_model(self.plugin_data)),
        )
    }

    /// Serializes an NFS export for a request argument.
    pub fn to_json(&self) -> (r: Json)
        ensures
            r.deep_view() == self.to_model(),
    {
        let mut f = obj_new();
        obj_push(&mut f, "class", Json::Str(gen_exp_class_string()));
        obj_push(&mut f, "id", Json::Str(self.id.clone()));
        obj_push(&mut f, "fs_id", Json::Str(self.fs_id.clone()));
        obj_push(&mut f, "export_path", Json::Str(self.export_path.clone()));
        obj_push(&mut f, "auth", Json::Str(self.auth.clone()));
        obj_push(&mut f, "root", str_list_json(&self.root));
        obj_push(&mut f, "rw", str_list_json(&self.rw));
        obj_push(&mut f, "ro", str_list_json(&self.ro));
        obj_push(&mut f, "anonuid", Json::Int(self.anonuid));
        obj_push(&mut f, "anongid", Json::Int(self.anongid));
        obj_push(&mut f, "options", Json::Str(self.options.clone()));
        obj_push(&mut f, "plugin_data", opt_str_json(&self.plugin_data));
        Json::Obj(f)
    }

    /// Whether a decoded value has the wire shape of an NFS export.
    pub open spec fn json_valid(m: JsonModel) -> bool {
        &&& jstr(m, "id"@) is Some
        &&& jstr(m, "fs_id"@) is Some
        &&& jstr(m, "export_path"@) is Some
        &&& jstr(m, "auth"@) is Some
        &&& jstr_list(m, "root"@) is Some
        &&& jstr_list(m, "rw"@) is Some
        &&& jstr_list(m, "ro"@) is Some
        &&& (jint(m, "anonuid"@) matches Some(x) && i64::MIN <= x <= i64::MAX)
        &&& (jint(m, "anongid"@) matches Some(x) && i64::MIN <= x <= i64::MAX)
        &&& jstr(m, "options"@) is Some
        &&& jopt_str_valid(m, "plugin_data"@)
    }

    /// How a decoded NFS export relates to the wire value it came from.
    pub open spec fn matches_model(self, m: JsonModel) -> bool {
        &&& jstr(m, "id"@) == Some(self.id@)
        &&& jstr(m, "fs_id"@) == Some(self.fs_id@)
        &&& jstr(m, "export_path"@) == Some(self.export_path@)
        &&& jstr(m, "auth"@) == Some(self.auth@)
        &&& (jstr_list(m, "root"@) matches Some(ss) && ss.len() == self.root@.len() && (forall|
            i: int,
        | 0 <= i < ss.len() ==> (#[trigger] self.root@[i])@ == ss[i]))
        &&& (jstr_list(m, "rw"@) matches Some(ss) && ss.len() == self.rw@.len() && (forall|i: int|
            0 <= i < ss.len() ==> (#[trigger] self.rw@[i])@ == ss[i]))
        &&& (jstr_list(m, "ro"@) matches Some(ss) && ss.len() == self.ro@.len() && (forall|i: int|
            0 <= i < ss.len() ==> (#[trigger] self.ro@[i])@ == ss[i]))
        &&& jint(m, "anonuid"@) == Some(self.anonuid as int)
        &&& jint(m, "anongid"@) == Some(self.anongid as int)
        &&& jstr(m, "options"@) == Some(self.options@)
        &&& (match self.plugin_data {
            Some(s) => jopt_str(m, "plugin_data"@) == Some(s@),
            None => jopt_str(m, "plugin_data"@) is None,
        })
    }

    /// Decodes an NFS export from a wire value.
    pub fn from_json(j: &Json) -> (r: LsmResult<NfsExport>)
        ensures
            match r {
                Ok(v) => Self::json_valid(j.deep_view()) && v.matches_model(j.deep_view()),
                Err(e) => !Self::json_valid(j.deep_view()) && e.kind
                    == LsmErrorKind::TransportSerialization,
            },
    {
        let fields = match j {
            Json::Obj(fields) => fields,
            _ => {
                return Err(shape_error());
            },
        };
        let id = match field_str(fields, "id") {
            Some(s) => s,
            None => {
                return Err(shape_error());
            },
        };
        let fs_id = match field_str(fields, "fs_id") {
            Some(s) => s,
            None => {
                return Err(shape_error());
            },
        };
        let export_path = match field_str(fields, "export_path") {
            Some(s) => s,
            None => {
                return Err(shape_error());
            },
        };
        let auth = match field_str(fields, "auth") {
            Some(s) => s,
            None => {
                return Err(shape_error());
            },
        };
        let root = match field_str_list(fields, "root") {
            Some(v) => v,
            None => {
                return Err(shape_error());
            },
        };
        let rw = match field_str_list(fields, "rw") {
            Some(v) => v,
            None => {
                return Err(shape_error());
            },
        };
        let ro = match field_str_list(fields, "ro") {
            Some(v) => v,
            None => {
                return Err(shape_error());
            },
        };
        let anonuid = match field_i64(fields, "anonuid") {
            Some(x) => x,
            None => {
                return Err(shape_error());
            },
        };
        let anongid = match field_i64(fields, "anongid") {
            Some(x) => x,
            None => {
                return Err(shape_error());
            },
        };
        let options = match field_str(fields, "options") {
            Some(s) => s,
            None => {
                return Err(shape_error());
            },
        };
        let plugin_data = match field_opt_str(fields, "plugin_data") {
            Ok(o) => o,
            Err(()) => {
                return Err(shape_error());
            },
        };
        Ok(
            NfsExport {
                id,
                fs_id,
                export_path,
                auth,
                root,
                rw,
                ro,
                anonuid,
                anongid,
                options,
                plugin_data,
            },
        )
    }
}

impl AccessGroup {
    /// The wire form of an access group.
    pub open spec fn to_model(self) -> JsonModel {
        JsonModel::Obj(
            Map::empty().insert("class"@, JsonModel::Str("AccessGroup"@)).insert(
                "id"@,
                JsonModel::Str(self.id@),
            ).insert("name"@, JsonModel::Str(self.name@)).insert(
                "init_ids"@,
                str_list_model(self.init_ids@),
            ).insert("init_type"@, JsonModel::Int(init_type_int(self.init_type))).insert(
                "plugin_data"@,
                opt_str_model(self.plugin_data),
            ).insert("system_id"@, JsonModel::Str(self.system_id@)),
        )
    }

    /// Serializes an access group for a request argument.
    pub fn to_json(&self) -> (r: Json)
        ensures
            r.deep_view() == self.to_model(),
    {
        let mut f = obj_new();
        obj_push(&mut f, "class", Json::Str(gen_ag_class_string()));
        obj_push(&mut f, "id", Json::Str(self.id.clone()));
        obj_push(&mut f, "name", Json::Str(self.name.clone()));
        obj_push(&mut f, "init_ids", str_list_json(&self.init_ids));
        obj_push(&mut f, "init_type", Json::Int(init_type_to_int(self.init_type) as i64));
        obj_push(&mut f, "plugin_data", opt_str_json(&self.plugin_data));
        obj_push(&mut f, "system_id", Json::Str(self.system_id.clone()));
        Json::Obj(f)
    }

    /// Whether a decoded value has the wire shape of an access group.
    pub open spec fn json_valid(m: JsonModel) -> bool {
        &&& jstr(m, "id"@) is Some
        &&& jstr(m, "name"@) is Some
        &&& jstr_list(m, "init_ids"@) is Some
        &&& (jint(m, "init_type"@) matches Some(x) && i32::MIN <= x <= i32::MAX)
        &&& jopt_str_valid(m, "plugin_data"@)
        &&& jstr(m, "system_id"@) is Some
    }

    /// How a decoded access group relates to the wire value it came from.
    pub open spec fn matches_model(self, m: JsonModel) -> bool {
        &&& jstr(m, "id"@) == Some(self.id@)
        &&& jstr(m, "name"@) == Some(self.name@)
        &&& (jstr_list(m, "init_ids"@) matches Some(ss) && ss.len() == self.init_ids@.len() && (
        forall|i: int| 0 <= i < ss.len() ==> (#[trigger] self.init_ids@[i])@ == ss[i]))
        &&& (jint(m, "init_type"@) matches Some(x) && self.init_type == init_type_of_int(x))
        &&& (match self.plugin_data {
            Some(s) => jopt_str(m, "plugin_data"@) == Some(s@),
            None => jopt_str(m, "plugin_data"@) is None,
        })
        &&& jstr(m, "system_id"@) == Some(self.system_id@)
    }

    /// Decodes an access group from a wire value.
    pub fn from_json(j: &Json) -> (r: LsmResult<AccessGroup>)
        ensures
            match r {
                Ok(v) => Self::json_valid(j.deep_view()) && v.matches_model(j.deep_view()),
                Err(e) => !Self::json_valid(j.deep_view()) && e.kind
                    == LsmErrorKind::TransportSerialization,
            },
    {
        let fields = match j {
            Json::Obj(fields) => fields,
            _ => {
                return Err(shape_error());
            },
        };
        let id = match field_str(fields, "id") {
            Some(s) => s,
            None => {
                return Err(shape_error());
            },
        };
        let name = match field_str(fields, "name") {
            Some(s) => s,
            None => {
                return Err(shape_error());
            },
        };
        let init_ids = match field_str_list(fields, "init_ids") {
            Some(v) => v,
            None => {
                return Err(shape_error());
            },
        };
        let init_type = match field_i64(fields, "init_type") {
            Some(x) if i32::MIN as i64 <= x && x <= i32::MAX as i64 => int_to_init_type(x as i32),
            _ => {
                return Err(shape_error());
            },
        };
        let plugin_data = match field_opt_str(fields, "plugin_data") {
            Ok(o) => o,
            Err(()) => {
                return Err(shape_error());
            },
        };
        let system_id = match field_str(fields, "system_id") {
            Some(s) => s,
            None => {
                return Err(shape_error());
            },
        };
        Ok(AccessGroup { id, name, init_ids, init_type, plugin_data, system_id })
    }
}

impl TargetPort {
    /// Whether a decoded value has the wire shape of a target port.
    pub open spec fn json_valid(m: JsonModel) -> bool {
        &&& jstr(m, "id"@) is Some
        &&& (jint(m, "port_type"@) matches Some(x) && i32::MIN <= x <= i32::MAX)
        &&& jstr(m, "service_address"@) is Some
        &&& jstr(m, "network_address"@) is Some
        &&& jstr(m, "physical_address"@) is Some
        &&& jstr(m, "physical_name"@) is Some
        &&& jopt_str_valid(m, "plugin_data"@)
        &&& jstr(m, "system_id"@) is Some
    }

    /// How a decoded target port relates to the wire value it came from.
    pub open spec fn matches_model(self, m: JsonModel) -> bool {
        &&& jstr(m, "id"@) == Some(self.id@)
        &&& (jint(m, "port_type"@) matches Some(x) && self.port_type == port_type_of_int(x))
        &&& jstr(m, "service_address"@) == Some(self.service_address@)
        &&& jstr(m, "network_address"@) == Some(self.network_address@)
        &&& jstr(m, "physical_address"@) == Some(self.physical_address@)
        &&& jstr(m, "physical_name"@) == Some(self.physical_name@)
        &&& (match self.plugin_data {
            Some(s) => jopt_str(m, "plugin_data"@) == Some(s@),
            None => jopt_str(m, "plugin_data"@) is None,
        })
        &&& jstr(m, "system_id"@) == Some(self.system_id@)
    }

    /// Decodes a target port from a wire value.
    pub fn from_json(j: &Json) -> (r: LsmResult<TargetPort>)
        ensures
            match r {
                Ok(v) => Self::json_valid(j.deep_view()) && v.matches_model(j.deep_view()),
                Err(e) => !Self::json_valid(j.deep_view()) && e.kind
                    == LsmErrorKind::TransportSerialization,
            },
    {
        let fields = match j {
            Json::Obj(fields) => fields,
            _ => {
                return Err(shape_error());
            },
        };
        let id = match field_str(fields, "id") {
            Some(s) => s,
            None => {
                return Err(shape_error());
            },
        };
        let port_type = match field_i64(fields, "port_type") {
            Some(x) if i32::MIN as i64 <= x && x <= i32::MAX as i64 => int_to_port_type(x as i32),
            _ => {
                return Err(shape_error());
            },
        };
        let service_address = match field_str(fields, "service_address") {
            Some(s) => s,
            None => {
                return Err(shape_error());
            },
        };
        let network_address = match field_str(fields, "network_address") {
            Some(s) => s,
            None => {
                return Err(shape_error());
            },
        };
        let physical_address = match field_str(fields, "physical_address") {
            Some(s) => s,
            None => {
                return Err(shape_error());
            },
        };
        let physical_name = match field_str(fields, "physical_name") {
            Some(s) => s,
            None => {
                return Err(shape_error());
            },
        };
        let plugin_data = match field_opt_str(fields, "plugin_data") {
            Ok(o) => o,
            Err(()) => {
                return Err(shape_error());
            },
        };
        let system_id = match field_str(fields, "system_id") {
            Some(s) => s,
            None => {
                return Err(shape_error());
            },
        };
        Ok(
            TargetPort {
                id,
                port_type,
                service_address,
                network_address,
                physical_address,
                physical_name,
                plugin_data,
                system_id,
            },
        )
    }
}

impl Battery {
    /// Whether a decoded value has the wire shape of a battery.
    pub open spec fn json_valid(m: JsonModel) -> bool {
        &&& jstr(m, "id"@) is Some
        &&& jstr(m, "name"@) is Some
        &&& (jint(m, "type"@) matches Some(x) && i32::MIN <= x <= i32::MAX)
        &&& (jint(m, "status"@) matches Some(x) && 0 <= x <= u64::MAX)
        &&& jopt_str_valid(m, "plugin_data"@)
        &&& jstr(m, "system_id"@) is Some
    }

    /// How a decoded battery relates to the wire value it came from.
    pub open spec fn matches_model(self, m: JsonModel) -> bool {
        &&& jstr(m, "id"@) == Some(self.id@)
        &&& jstr(m, "name"@) == Some(self.name@)
        &&& (jint(m, "type"@) matches Some(x) && self.battery_type == battery_type_of_int(x))
        &&& jint(m, "status"@) == Some(self.status as int)
        &&& (match self.plugin_data {
            Some(s) => jopt_str(m, "plugin_data"@) == Some(s@),
            None => jopt_str(m, "plugin_data"@) is None,
        })
        &&& jstr(m, "system_id"@) == Some(self.system_id@)
    }

    /// Decodes a battery from a wire value.
    pub fn from_json(j: &Json) -> (r: LsmResult<Battery>)
        ensures
            match r {
                Ok(v) => Self::json_valid(j.deep_view()) && v.matches_model(j.deep_view()),
                Err(e) => !Self::json_valid(j.deep_view()) && e.kind
                    == LsmErrorKind::TransportSerialization,
            },
    {
        let fields = match j {
            Json::Obj(fields) => fields,
            _ => {
                return Err(shape_error());
            },
        };
        let id = match field_str(fields, "id") {
            Some(s) => s,
            None => {
                return Err(shape_error());
            },
        };
        let name = match field_str(fields, "name") {
            Some(s) => s,
            None => {
                return Err(shape_error());
            },
        };
        let battery_type = match field_i64(fields, "type") {
            Some(x) if i32::MIN as i64 <= x && x <= i32::MAX as i64 => int_to_battery_type(
                x as i32,
            ),
            _ => {
                return Err(shape_error());
            },
        };
        let status = match field_u64(fields, "status") {
            Some(x) => x,
            None => {
                return Err(shape_error());
            },
        };
        let plugin_data = match field_opt_str(fields, "plugin_data") {
            Ok(o) => o,
            Err(()) => {
                return Err(shape_error());
            },
        };
        let system_id = match field_str(fields, "system_id") {
            Some(s) => s,
            None => {
                return Err(shape_error());
            },
        };
        Ok(Battery { id, name, battery_type, status, plugin_data, system_id })
    }
}

impl BlockRange {
    /// The wire form of a block range.
    pub open spec fn to_model(self) -> JsonModel {
        JsonModel::Obj(
            Map::empty().insert("class"@, JsonModel::Str("BlockRange"@)).insert(
                "src_block"@,
                JsonModel::Int(self.src_blk_addr as int),
            ).insert("dest_block"@, JsonModel::Int(self.dst_blk_addr as int)).insert(
                "block_count"@,
                JsonModel::Int(self.blk_count as int),
            ),
        )
    }

    /// Serializes a block range for a request argument.
    pub fn to_json(&self) -> (r: Json)
        ensures
            r.deep_view() == self.to_model(),
    {
        let mut f = obj_new();
        obj_push(&mut f, "class", Json::Str("BlockRange".to_owned()));
        obj_push(&mut f, "src_block", Json::Uint(self.src_blk_addr));
        obj_push(&mut f, "dest_block", Json::Uint(self.dst_blk_addr));
        obj_push(&mut f, "block_count", Json::Uint(self.blk_count));
        Json::Obj(f)
    }
}

/// A capability a storage system may support: each one names the call, or
/// the call variant, that the system can serve.
#[derive(Debug, Clone, Copy, PartialEq, Eq, Structural)]
pub enum Capability {
    /// Support for `volumes`.
    Volumes,
    /// Support for `volume_create`.
    VolumeCreate,
    /// Support for `volume_resize`.
    VolumeResize,
    /// Support for `volume_replicate`.
    VolumeReplicate,
    /// Support for `volume_replicate` with `Clone`.
    VolumeReplicateClone,
    /// Support for `volume_replicate` with `Copy`.
    VolumeReplicateCopy,
    /// Support for `volume_replicate` with `MirrorAsync`.
    VolumeReplicateMirrorAsync,
    /// Support for `volume_replicate` with `MirrorSync`.
    VolumeReplicateMirrorSync,
    /// Support for `volume_rep_range_blk_size`.
    VolumeRepRangeBlockSize,
    /// Support for `volume_replicate_range`.
    VolumeRepRange,
    /// Support for `volume_replicate_range` with `Clone`.
    VolumeRepRangeClone,
    /// Support for `volume_replicate_range` with `Copy`.
    VolumeRepRangeCopy,
    /// Support for `volume_delete`.
    VolumeDelete,
    /// Support for `volume_enable`.
    VolumeEnable,
    /// Support for `volume_disable`.
    VolumeDisable,
    /// Support for `volume_mask`.
    VolumeMask,
    /// Support for `volume_unmask`.
    VolumeUnmask,
    /// Support for `access_groups`.
    AccessGroups,
    /// Support for `access_group_create` with `Wwpn`.
    AccessGroupCreateWwpn,
    /// Support for `access_group_delete`.
    AccessGroupDelete,
    /// Support for `access_group_init_add` with `Wwpn`.
    AccessGroupInitAddWwpn,
    /// Support for `access_group_init_del`.
    AccessGroupInitDel,
    /// Support for `vols_masked_to_ag`.
    VolsMaskedToAg,
    /// Support for `ags_granted_to_vol`.
    AgsGrantedToVol,
    /// Support for `vol_has_child_dep`.
    VolHasChildDep,
    /// Support for `vol_child_dep_rm`.
    VolChildDepRm,
    /// Support for `access_group_create` with `IscsiIqn`.
    AccessGroupCreateIscsiIqn,
    /// Support for `access_group_init_add` with `IscsiIqn`.
    AccessGroupInitAddIscsiIqn,
    /// Support for `iscsi_chap_auth_set`.
    IscsiChapAuthSet,
    /// Support for `vol_raid_info`.
    VolRaidInfo,
    /// Support for `volume_create` with thin provisioning.
    VolumeThin,
    /// Support for `batteries`.
    Batteries,
    /// Support for `vol_cache_info`.
    VolCacheInfo,
    /// Support for `vol_phy_disk_cache_set`.
    VolPhyDiskCacheSet,
    /// Support for `vol_phy_disk_cache_set` changes a system-level setting.
    VolPhysicalDiskCacheSetSystemLevel,
    /// Support for `vol_write_cache_set` with `Enabled`.
    VolWriteCacheSetEnable,
    /// Support for `vol_write_cache_set` with `Auto`.
    VolWriteCacheSetAuto,
    /// Support for `vol_write_cache_set` with `Disabled`.
    VolWriteCacheSetDisabled,
    /// Support for `vol_write_cache_set` may impact the read cache policy.
    VolWriteCacheSetImpactRead,
    /// Support for `vol_write_cache_set` with `Enabled` may impact other volumes.
    VolWriteCacheSetWbImpactOther,
    /// Support for `vol_read_cache_set`.
    VolReadCacheSet,
    /// Support for `vol_read_cache_set` may impact the write cache policy.
    VolReadCacheSetImpactWrite,
    /// Support for `fs`.
    Fs,
    /// Support for `fs_delete`.
    FsDelete,
    /// Support for `fs_resize`.
    FsResize,
    /// Support for `fs_create`.
    FsCreate,
    /// Support for `fs_clone`.
    FsClone,
    /// Support for `fs_file_clone`.
    FsFileClone,
    /// Support for `fs_snapshots`.
    FsSnapshots,
    /// Support for `fs_snapshot_create`.
    FsSnapshotCreate,
    /// Support for `fs_snapshot_delete`.
    FsSnapshotDelete,
    /// Support for `fs_snapshot_restore`.
    FsSnapshotRestore,
    /// Support for `fs_snapshot_restore` with the `files` argument.
    FsSnapshotRestoreSpecificFiles,
    /// Support for `fs_has_child_dep`.
    FsHasChildDep,
    /// Support for `fs_child_dep_rm`.
    FsChildDepRm,
    /// Support for `fs_child_dep_rm` with the `files` argument.
    FsChildDepRmSpecificFiles,
    /// Support for `nfs_exp_auth_type_list`.
    NfsExportAuthTypeList,
    /// Support for `nfs_exports`.
    NfsExports,
    /// Support for `fs_export`.
    FsExport,
    /// Support for `fs_unexport`.
    FsUnexport,
    /// Support for `fs_export` with the `export_path` argument.
    FsExportCustomPath,
    /// Support for `sys_read_cache_pct_set`.
    SysReadCachePctSet,
    /// Support for `systems` with a valid `read_cache_pct` property.
    SysReadCachePctGet,
    /// Support for `systems` with a valid `fw_version` property.
    SysFwVersionGet,
    /// Support for `systems` with a valid `mode` property.
    SysModeGet,
    /// Support for `disks` with a valid `location` property.
    DiskLocation,
    /// Support for `disks` with a valid `rpm` property.
    DiskRpm,
    /// Support for `disks` with a valid `link_type` property.
    DiskLinkType,
    /// Support for `vol_ident_led_on` and `vol_ident_led_off`.
    VolumeLed,
    /// Support for `target_ports`.
    TargetPorts,
    /// Support for `disks`.
    Disks,
    /// Support for `pool_member_info`.
    PoolMemberInfo,
    /// Support for `vol_raid_create_cap_get` and `vol_raid_create`.
    VolumeRaidCreate,
    /// Support for `disks` with a valid `vpd83` property.
    DiskVpd83Get,
}

/// The position of a capability in the capability string.
pub open spec fn capability_number_spec(c: Capability) -> int {
    match c {
        Capability::Volumes => 20,
        Capability::VolumeCreate => 21,
        Capability::VolumeResize => 22,
        Capability::VolumeReplicate => 23,
        Capability::VolumeReplicateClone => 24,
        Capability::VolumeReplicateCopy => 25,
        Capability::VolumeReplicateMirrorAsync => 26,
        Capability::VolumeReplicateMirrorSync => 27,
        Capability::VolumeRepRangeBlockSize => 28,
        Capability::VolumeRepRange => 29,
        Capability::VolumeRepRangeClone => 30,
        Capability::VolumeRepRangeCopy => 31,
        Capability::VolumeDelete => 33,
        Capability::VolumeEnable => 34,
        Capability::VolumeDisable => 35,
        Capability::VolumeMask => 36,
        Capability::VolumeUnmask => 37,
        Capability::AccessGroups => 38,
        Capability::AccessGroupCreateWwpn => 39,
        Capability::AccessGroupDelete => 40,
        Capability::AccessGroupInitAddWwpn => 41,
        Capability::AccessGroupInitDel => 42,
        Capability::VolsMaskedToAg => 43,
        Capability::AgsGrantedToVol => 44,
        Capability::VolHasChildDep => 45,
        Capability::VolChildDepRm => 46,
        Capability::AccessGroupCreateIscsiIqn => 47,
        Capability::AccessGroupInitAddIscsiIqn => 48,
        Capability::IscsiChapAuthSet => 53,
        Capability::VolRaidInfo => 54,
        Capability::VolumeThin => 55,
        Capability::Batteries => 56,
        Capability::VolCacheInfo => 57,
        Capability::VolPhyDiskCacheSet => 58,
        Capability::VolPhysicalDiskCacheSetSystemLevel => 59,
        Capability::VolWriteCacheSetEnable => 60,
        Capability::VolWriteCacheSetAuto => 61,
        Capability::VolWriteCacheSetDisabled => 62,
        Capability::VolWriteCacheSetImpactRead => 63,
        Capability::VolWriteCacheSetWbImpactOther => 64,
        Capability::VolReadCacheSet => 65,
        Capability::VolReadCacheSetImpactWrite => 66,
        Capability::Fs => 100,
        Capability::FsDelete => 101,
        Capability::FsResize => 102,
        Capability::FsCreate => 103,
        Capability::FsClone => 104,
        Capability::FsFileClone => 105,
        Capability::FsSnapshots => 106,
        Capability::FsSnapshotCreate => 107,
        Capability::FsSnapshotDelete => 109,
        Capability::FsSnapshotRestore => 110,
        Capability::FsSnapshotRestoreSpecificFiles => 111,
        Capability::FsHasChildDep => 112,
        Capability::FsChildDepRm => 113,
        Capability::FsChildDepRmSpecificFiles => 114,
        Capability::NfsExportAuthTypeList => 120,
        Capability::NfsExports => 121,
        Capability::FsExport => 122,
        Capability::FsUnexport => 123,
        Capability::FsExportCustomPath => 124,
        Capability::SysReadCachePctSet => 158,
        Capability::SysReadCachePctGet => 159,
        Capability::SysFwVersionGet => 160,
        Capability::SysModeGet => 161,
        Capability::DiskLocation => 163,
        Capability::DiskRpm => 164,
        Capability::DiskLinkType => 165,
        Capability::VolumeLed => 171,
        Capability::TargetPorts => 216,
        Capability::Disks => 220,
        Capability::PoolMemberInfo => 221,
        Capability::VolumeRaidCreate => 222,
        Capability::DiskVpd83Get => 223,
    }
}

/// The position of a capability in the capability string.
pub fn capability_number(c: Capability) -> (n: u32)
    ensures
        n as int == capability_number_spec(c),
        n <= 223,
{
    match c {
        Capability::Volumes => 20,
        Capability::VolumeCreate => 21,
        Capability::VolumeResize => 22,
        Capability::VolumeReplicate => 23,
        Capability::VolumeReplicateClone => 24,
        Capability::VolumeReplicateCopy => 25,
        Capability::VolumeReplicateMirrorAsync => 26,
        Capability::VolumeReplicateMirrorSync => 27,
        Capability::VolumeRepRangeBlockSize => 28,
        Capability::VolumeRepRange => 29,
        Capability::VolumeRepRangeClone => 30,
        Capability::VolumeRepRangeCopy => 31,
        Capability::VolumeDelete => 33,
        Capability::VolumeEnable => 34,
        Capability::VolumeDisable => 35,
        Capability::VolumeMask => 36,
        Capability::VolumeUnmask => 37,
        Capability::AccessGroups => 38,
        Capability::AccessGroupCreateWwpn => 39,
        Capability::AccessGroupDelete => 40,
        Capability::AccessGroupInitAddWwpn => 41,
        Capability::AccessGroupInitDel => 42,
        Capability::VolsMaskedToAg => 43,
        Capability::AgsGrantedToVol => 44,
        Capability::VolHasChildDep => 45,
        Capability::VolChildDepRm => 46,
        Capability::AccessGroupCreateIscsiIqn => 47,
        Capability::AccessGroupInitAddIscsiIqn => 48,
        Capability::IscsiChapAuthSet => 53,
        Capability::VolRaidInfo => 54,
        Capability::VolumeThin => 55,
        Capability::Batteries => 56,
        Capability::VolCacheInfo => 57,
        Capability::VolPhyDiskCacheSet => 58,
        Capability::VolPhysicalDiskCacheSetSystemLevel => 59,
        Capability::VolWriteCacheSetEnable => 60,
        Capability::VolWriteCacheSetAuto => 61,
        Capability::VolWriteCacheSetDisabled => 62,
        Capability::VolWriteCacheSetImpactRead => 63,
        Capability::VolWriteCacheSetWbImpactOther => 64,
        Capability::VolReadCacheSet => 65,
        Capability::VolReadCacheSetImpactWrite => 66,
        Capability::Fs => 100,
        Capability::FsDelete => 101,
        Capability::FsResize => 102,
        Capability::FsCreate => 103,
        Capability::FsClone => 104,
        Capability::FsFileClone => 105,
        Capability::FsSnapshots => 106,
        Capability::FsSnapshotCreate => 107,
        Capability::FsSnapshotDelete => 109,
        Capability::FsSnapshotRestore => 110,
        Capability::FsSnapshotRestoreSpecificFiles => 111,
        Capability::FsHasChildDep => 112,
        Capability::FsChildDepRm => 113,
        Capability::FsChildDepRmSpecificFiles => 114,
        Capability::NfsExportAuthTypeList => 120,
        Capability::NfsExports => 121,
        Capability::FsExport => 122,
        Capability::FsUnexport => 123,
        Capability::FsExportCustomPath => 124,
        Capability::SysReadCachePctSet => 158,
        Capability::SysReadCachePctGet => 159,
        Capability::SysFwVersionGet => 160,
        Capability::SysModeGet => 161,
        Capability::DiskLocation => 163,
        Capability::DiskRpm => 164,
        Capability::DiskLinkType => 165,
        Capability::VolumeLed => 171,
        Capability::TargetPorts => 216,
        Capability::Disks => 220,
        Capability::PoolMemberInfo => 221,
        Capability::VolumeRaidCreate => 222,
        Capability::DiskVpd83Get => 223,
    }
}

/// The capabilities supported by a specific system, as the daemon reports
/// them: two hex digits per capability number.
#[derive(Debug, Clone)]
pub struct Capabilities {
    cap: String,
}

impl Capabilities {
    /// The reported capability string.
    pub closed spec fn cap_spec(&self) -> Seq<char> {
        self.cap@
    }

    /// Whether a capability is supported: the two digits at its position
    /// read `01`.
    pub fn is_supported(&self, cap: Capability) -> (r: bool)
        requires
            2 * capability_number_spec(cap) + 1 < self.cap_spec().len(),
        ensures
            r == (self.cap_spec()[2 * capability_number_spec(cap)] == '0' && self.cap_spec()[2
                * capability_number_spec(cap) + 1] == '1'),
    {
        let n = capability_number(cap) as usize;
        let c0 = self.cap.as_str().get_char(2 * n);
        let c1 = self.cap.as_str().get_char(2 * n + 1);
        c0 == '0' && c1 == '1'
    }

    /// Whether a decoded value has the wire shape of a capability set.
    pub open spec fn json_valid(m: JsonModel) -> bool {
        jstr(m, "cap"@) is Some
    }

    /// How a decoded capability set relates to the wire value.
    pub open spec fn matches_model(self, m: JsonModel) -> bool {
        jstr(m, "cap"@) == Some(self.cap_spec())
    }

    /// Decodes a capability set from a wire value.
    pub fn from_json(j: &Json) -> (r: LsmResult<Capabilities>)
        ensures
            match r {
                Ok(v) => Self::json_valid(j.deep_view()) && v.matches_model(j.deep_view()),
                Err(e) => !Self::json_valid(j.deep_view()) && e.kind
                    == LsmErrorKind::TransportSerialization,
            },
    {
        let fields = match j {
            Json::Obj(fields) => fields,
            _ => {
                return Err(shape_error());
            },
        };
        let cap = match field_str(fields, "cap") {
            Some(s) => s,
            None => {
                return Err(shape_error());
            },
        };
        Ok(Capabilities { cap })
    }
}

} // verus!
