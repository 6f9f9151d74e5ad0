//! Client-side binding for a storage-management daemon: a length-prefixed
//! JSON wire codec, request/response envelopes, an error mapper, and the
//! client-side polling state machine that resolves asynchronous jobs.

pub mod client;
pub mod codec;
pub mod data;
pub mod error;
pub mod jobs;
pub mod json;
pub mod misc;
pub mod text;

pub use client::{AsyncOutcome, PluginInfo, DEFAULT_TIMEOUT};
pub use data::{
    AccessGroup, Battery, BatteryType, BlockRange, CachePolicy, Capabilities, Capability, Disk,
    DiskLinkType, DiskType, FileSystem, FileSystemSnapShot, InitiatorType, NfsAccess, NfsExport,
    Pool, PoolMember, PoolMemberInfo, PortType, RaidType, System, SystemMode, TargetPort, Volume,
    VolumeCacheInfo, VolumeCreateArgThinP, VolumeRaidInfo, VolumeReplicateType,
};
pub use error::{LsmError, LsmErrorKind, LsmResult};
pub use jobs::{JobRecord, JobStatus, PollStep};
pub use json::Json;
pub use misc::{size_bytes_2_size_human, size_human_2_size_bytes};
