//! The session layer: request builders, response interpreters, and the
//! asynchronous-result resolution every mutating operation shares.
//!
//! Each operation builds its argument map, frames one request, and reads the
//! decoded result back; an operation the daemon runs asynchronously returns
//! an async result envelope, which is resolved into a job handle for the
//! poller or the final value. The socket itself lives outside the library:
//! callers send the frames these builders produce and hand the decoded
//! responses back.

use vstd::prelude::*;

use crate::codec::{encode_request, request_outcome};
use crate::data::{
    init_type_int, init_type_to_int, raid_type_int, raid_type_of_int, raid_type_to_int,
    rep_type_int, rep_type_to_int, AccessGroup, Battery, BlockRange, CachePolicy, Disk,
    FileSystem, FileSystemSnapShot, InitiatorType, NfsAccess, NfsExport, Pool, PoolMember,
    RaidType, System, TargetPort, Volume, VolumeCacheInfo, VolumeCreateArgThinP, VolumeRaidInfo,
    VolumeReplicateType,
};
use crate::error::{LsmError, LsmErrorKind, LsmResult};
use crate::json::{
    arr_model, json_model, model_int, obj_new, obj_push, str_list_json, str_list_model, Json,
    JsonModel,
};
use crate::misc::{has_iscsi_prefix, is_wwpn_bytes, verify_init_id_str};

verus! {

use vstd::string::StringSliceAdditionalSpecFns;

/// The timeout, in milliseconds, used when registration does not name one.
pub const DEFAULT_TIMEOUT: u32 = 30_000;

pub const VOLUME_THINP_YES: u64 = 1;

pub const VOLUME_THINP_NO: u64 = 2;

pub const VOLUME_THINP_DEFAULT: u64 = 3;

pub const POOL_MEMBER_TYPE_DISK: u64 = 2;

pub const POOL_MEMBER_TYPE_POOL: u64 = 3;

pub const WRITE_CACHE_POLICY_WRITE_BACK: u8 = 2;

pub const WRITE_CACHE_POLICY_AUTO: u8 = 3;

pub const WRITE_CACHE_POLICY_WRITE_THROUGH: u8 = 4;

pub const WRITE_CACHE_STATUS_WRITE_BACK: u8 = 2;

pub const WRITE_CACHE_STATUS_WRITE_THROUGH: u8 = 3;

pub const READ_CACHE_POLICY_ENABLED: u8 = 2;

pub const READ_CACHE_POLICY_DISABLED: u8 = 3;

pub const READ_CACHE_STATUS_ENABLED: u8 = 2;

pub const READ_CACHE_STATUS_DISABLED: u8 = 3;

pub const PHYSICAL_DISK_CACHE_ENABLED: u8 = 2;

pub const PHYSICAL_DISK_CACHE_DISABLED: u8 = 3;

pub const PHYSICAL_DISK_CACHE_USE_DISK_SETTING: u8 = 4;

/// A plugin's self-description.
#[derive(Debug, Clone)]
pub struct PluginInfo {
    /// Plugin version string.
    pub version: String,
    /// Plugin description.
    pub description: String,
    /// Plugin name.
    pub name: String,
}

/// Whether the URI parses as a URL, as `url::Url::parse` decides it.
pub uninterp spec fn uri_parse_ok(uri: Seq<char>) -> bool;

/// The scheme `url::Url::parse` reads out of a URI, lower-cased.
pub uninterp spec fn uri_scheme_of(uri: Seq<char>) -> Seq<char>;

/// Relies on `url::Url::parse` and `Url::scheme`: whether a URI parses, and
/// what its scheme is, depend on the URI string alone.
#[verifier::external_body]
fn uri_scheme(uri: &str) -> (r: Option<String>)
    ensures
        (r is Some) == uri_parse_ok(uri@),
        r matches Some(s) ==> s@ == uri_scheme_of(uri@),
{
    match url::Url::parse(uri) {
        Ok(u) => Some(u.scheme().to_owned()),
        Err(_) => None,
    }
}

/// The plugin a connection URI names: the URI's scheme. A URI that does not
/// parse is an invalid argument.
pub fn plugin_name_of_uri(uri: &str) -> (r: LsmResult<String>)
    ensures
        (r is Ok) == uri_parse_ok(uri@),
        r matches Ok(s) ==> s@ == uri_scheme_of(uri@),
        r matches Err(e) ==> e.kind == LsmErrorKind::InvalidArgument,
{
    match uri_scheme(uri) {
        Some(s) => Ok(s),
        None => Err(LsmError::with_msg(LsmErrorKind::InvalidArgument, "failed to parse URI")),
    }
}

/// The socket path of a plugin: the plugin's name under the socket
/// directory.
pub fn get_plugin_ipc_path(base_dir: &str, plugin_name: &str) -> (r: String)
    ensures
        r@ == base_dir@ + "/"@ + plugin_name@,
{
    let mut p = base_dir.to_owned();
    p.append("/");
    p.append(plugin_name);
    proof {
        assert(p@ =~= base_dir@ + "/"@ + plugin_name@);
    }
    p
}

/// Builds the `plugin_register` request: the URI, the optional password,
/// and the timeout in milliseconds (or its default).
pub fn register_request(uri: &str, password: Option<&str>, timeout: Option<u32>) -> (r: LsmResult<
    Vec<u8>,
>)
    ensures
        request_outcome(
            r,
            "plugin_register"@,
            Map::empty().insert(
                "password"@,
                match password {
                    None => JsonModel::Null,
                    Some(p) => JsonModel::Str(p@),
                },
            ).insert("uri"@, JsonModel::Str(uri@)).insert(
                "timeout"@,
                JsonModel::Int(
                    match timeout {
                        None => DEFAULT_TIMEOUT as int,
                        Some(t) => t as int,
                    },
                ),
            ),
        ),
{
    let mut params = obj_new();
    let pw = match password {
        None => Json::Null,
        Some(p) => Json::Str(p.to_owned()),
    };
    obj_push(&mut params, "password", pw);
    obj_push(&mut params, "uri", Json::Str(uri.to_owned()));
    let t = match timeout {
        None => DEFAULT_TIMEOUT,
        Some(t) => t,
    };
    obj_push(&mut params, "timeout", Json::Uint(t as u64));
    encode_request("plugin_register", params)
}

/// Builds the `plugin_unregister` request sent on teardown; its outcome is
/// ignored by the caller.
pub fn unregister_request() -> (r: LsmResult<Vec<u8>>)
    ensures
        request_outcome(
            r,
            "plugin_unregister"@,
            Map::<Seq<char>, JsonModel>::empty(),
        ),
{
    encode_request("plugin_unregister", obj_new())
}

/// What an async result envelope resolved to: the final value directly, or
/// a job handle to poll.
#[derive(Debug)]
pub enum AsyncOutcome {
    /// The result was immediately available.
    Data(Json),
    /// The daemon started a job; poll this handle.
    Job(String),
}

/// Resolves an async result envelope: a two-element array whose first
/// element is either null (the second is the final value) or a job handle.
/// Any other shape broke the protocol.
pub fn async_outcome(j: Json) -> (r: LsmResult<AsyncOutcome>)
    ensures
        ({
            let m = j.deep_view();
            match r {
                Ok(AsyncOutcome::Data(d)) => m is Arr && m->Arr_0.len() == 2 && m->Arr_0[0] is Null
                    && d.deep_view() == m->Arr_0[1],
                Ok(AsyncOutcome::Job(id)) => m is Arr && m->Arr_0.len() == 2 && m->Arr_0[0]
                    == JsonModel::Str(id@),
                Err(e) => (!(m is Arr) || m->Arr_0.len() != 2 || (!(m->Arr_0[0] is Null) && !(
                m->Arr_0[0] is Str))) && e.kind == LsmErrorKind::PluginBug,
            }
        }),
{
    let mut items = match j {
        Json::Arr(items) => items,
        _ => {
            return Err(unexpected_reply());
        },
    };
    if items.len() != 2 {
        return Err(unexpected_reply());
    }
    proof {
        assert(arr_model(items@)[0] == json_model(items@[0]));
        assert(arr_model(items@)[1] == json_model(items@[1]));
    }
    let second = items.pop().unwrap();
    let first = items.pop().unwrap();
    match first {
        Json::Null => Ok(AsyncOutcome::Data(second)),
        Json::Str(id) => Ok(AsyncOutcome::Job(id)),
        _ => Err(unexpected_reply()),
    }
}

/// Resolves the result of an operation with no value: null means done, a
/// string is a job handle, anything else broke the protocol.
pub fn sync_or_job(j: Json) -> (r: LsmResult<Option<String>>)
    ensures
        ({
            let m = j.deep_view();
            match r {
                Ok(None) => m is Null,
                Ok(Some(id)) => m == JsonModel::Str(id@),
                Err(e) => !(m is Null) && !(m is Str) && e.kind == LsmErrorKind::PluginBug,
            }
        }),
{
    match j {
        Json::Null => Ok(None),
        Json::Str(id) => Ok(Some(id)),
        _ => Err(unexpected_reply()),
    }
}

/// The error for a reply whose shape the protocol does not allow.
fn unexpected_reply() -> (r: LsmError)
    ensures
        r.kind == LsmErrorKind::PluginBug,
{
    LsmError::with_msg(LsmErrorKind::PluginBug, "plugin returned unexpected data")
}

/// The payload of a completed job that must be a volume: no payload is a
/// plugin bug, a payload of the wrong shape a serialization failure.
pub fn expect_volume(data: Option<Json>) -> (r: LsmResult<Volume>)
    ensures
        match data {
            None => r matches Err(e) && e.kind == LsmErrorKind::PluginBug && e.msg@
                == "expecting a volume, but got none"@,
            Some(d) => match r {
                Ok(v) => Volume::json_valid(d.deep_view()) && v.matches_model(d.deep_view()),
                Err(e) => !Volume::json_valid(d.deep_view()) && e.kind
                    == LsmErrorKind::TransportSerialization,
            },
        },
{
    match data {
        None => Err(
            LsmError::with_msg(LsmErrorKind::PluginBug, "expecting a volume, but got none"),
        ),
        Some(d) => Volume::from_json(&d),
    }
}

/// The payload of a completed job that must be a file system.
pub fn expect_fs(data: Option<Json>) -> (r: LsmResult<FileSystem>)
    ensures
        match data {
            None => r matches Err(e) && e.kind == LsmErrorKind::PluginBug && e.msg@
                == "expecting a file system, but got none"@,
            Some(d) => match r {
                Ok(v) => FileSystem::json_valid(d.deep_view()) && v.matches_model(d.deep_view()),
                Err(e) => !FileSystem::json_valid(d.deep_view()) && e.kind
                    == LsmErrorKind::TransportSerialization,
            },
        },
{
    match data {
        None => Err(
            LsmError::with_msg(LsmErrorKind::PluginBug, "expecting a file system, but got none"),
        ),
        Some(d) => FileSystem::from_json(&d),
    }
}

/// The payload of a completed job that must be a file system snapshot.
pub fn expect_fs_snap(data: Option<Json>) -> (r: LsmResult<FileSystemSnapShot>)
    ensures
        match data {
            None => r matches Err(e) && e.kind == LsmErrorKind::PluginBug && e.msg@
                == "expecting a file system snapshot, but got none"@,
            Some(d) => match r {
                Ok(v) => FileSystemSnapShot::json_valid(d.deep_view()) && v.matches_model(
                    d.deep_view(),
                ),
                Err(e) => !FileSystemSnapShot::json_valid(d.deep_view()) && e.kind
                    == LsmErrorKind::TransportSerialization,
            },
        },
{
    match data {
        None => Err(
            LsmError::with_msg(
                LsmErrorKind::PluginBug,
                "expecting a file system snapshot, but got none",
            ),
        ),
        Some(d) => FileSystemSnapShot::from_json(&d),
    }
}

/// The synchronous and the polled path agree: two volumes decoded from
/// the same payload carry the same data, so a create that returns its
/// volume directly and one that hands the same payload back through a job
/// resolve to the same result.
pub proof fn lemma_volume_decode_agrees(v1: Volume, v2: Volume, m: JsonModel)
    requires
        v1.matches_model(m),
        v2.matches_model(m),
    ensures
        v1.id@ == v2.id@,
        v1.name@ == v2.name@,
        v1.enabled == v2.enabled,
        v1.block_size == v2.block_size,
        v1.num_of_blocks == v2.num_of_blocks,
        match (v1.plugin_data, v2.plugin_data) {
            (None, None) => true,
            (Some(a), Some(b)) => a@ == b@,
            _ => false,
        },
        v1.vpd83@ == v2.vpd83@,
        v1.system_id@ == v2.system_id@,
        v1.pool_id@ == v2.pool_id@,
{
}

/// Builds the `systems` listing request.
pub fn systems_request() -> (r: LsmResult<Vec<u8>>)
    ensures
        request_outcome(
            r,
            "systems"@,
            Map::<Seq<char>, JsonModel>::empty(),
        ),
{
    encode_request("systems", obj_new())
}

/// Builds the `volumes` listing request.
pub fn volumes_request() -> (r: LsmResult<Vec<u8>>)
    ensures
        request_outcome(
            r,
            "volumes"@,
            Map::<Seq<char>, JsonModel>::empty(),
        ),
{
    encode_request("volumes", obj_new())
}

/// Builds the `pools` listing request.
pub fn pools_request() -> (r: LsmResult<Vec<u8>>)
    ensures
        request_outcome(
            r,
            "pools"@,
            Map::<Seq<char>, JsonModel>::empty(),
        ),
{
    encode_request("pools", obj_new())
}

/// Builds the `disks` listing request.
pub fn disks_request() -> (r: LsmResult<Vec<u8>>)
    ensures
        request_outcome(
            r,
            "disks"@,
            Map::<Seq<char>, JsonModel>::empty(),
        ),
{
    encode_request("disks", obj_new())
}

/// Builds the `fs` listing request.
pub fn fs_request() -> (r: LsmResult<Vec<u8>>)
    ensures
        request_outcome(
            r,
            "fs"@,
            Map::<Seq<char>, JsonModel>::empty(),
        ),
{
    encode_request("fs", obj_new())
}

/// Builds the NFS `exports` listing request.
pub fn nfs_exports_request() -> (r: LsmResult<Vec<u8>>)
    ensures
        request_outcome(
            r,
            "exports"@,
            Map::<Seq<char>, JsonModel>::empty(),
        ),
{
    encode_request("exports", obj_new())
}

/// Builds the `access_groups` listing request.
pub fn access_groups_request() -> (r: LsmResult<Vec<u8>>)
    ensures
        request_outcome(
            r,
            "access_groups"@,
            Map::<Seq<char>, JsonModel>::empty(),
        ),
{
    encode_request("access_groups", obj_new())
}

/// Builds the `target_ports` listing request.
pub fn target_ports_request() -> (r: LsmResult<Vec<u8>>)
    ensures
        request_outcome(
            r,
            "target_ports"@,
            Map::<Seq<char>, JsonModel>::empty(),
        ),
{
    encode_request("target_ports", obj_new())
}

/// Builds the `batteries` listing request.
pub fn batteries_request() -> (r: LsmResult<Vec<u8>>)
    ensures
        request_outcome(
            r,
            "batteries"@,
            Map::<Seq<char>, JsonModel>::empty(),
        ),
{
    encode_request("batteries", obj_new())
}

/// Builds the `time_out_get` request.
pub fn time_out_get_request() -> (r: LsmResult<Vec<u8>>)
    ensures
        request_outcome(
            r,
            "time_out_get"@,
            Map::<Seq<char>, JsonModel>::empty(),
        ),
{
    encode_request("time_out_get", obj_new())
}

/// Builds the `export_auth` request for the supported NFS authentication types.
pub fn nfs_exp_auth_type_list_request() -> (r: LsmResult<Vec<u8>>)
    ensures
        request_outcome(
            r,
            "export_auth"@,
            Map::<Seq<char>, JsonModel>::empty(),
        ),
{
    encode_request("export_auth", obj_new())
}

/// Builds the `plugin_info` request.
pub fn plugin_info_request() -> (r: LsmResult<Vec<u8>>)
    ensures
        request_outcome(
            r,
            "plugin_info"@,
            Map::<Seq<char>, JsonModel>::empty(),
        ),
{
    encode_request("plugin_info", obj_new())
}

/// Builds the `volume_delete` request; its result may be an async handle.
pub fn volume_delete_request(vol: &Volume) -> (r: LsmResult<Vec<u8>>)
    ensures
        request_outcome(
            r,
            "volume_delete"@,
            Map::empty().insert("volume"@, vol.to_model()),
        ),
{
    let mut params = obj_new();
    obj_push(&mut params, "volume", vol.to_json());
    encode_request("volume_delete", params)
}

/// Builds the `time_out_set` request, with the timeout in milliseconds.
pub fn time_out_set_request(ms: u32) -> (r: LsmResult<Vec<u8>>)
    ensures
        request_outcome(
            r,
            "time_out_set"@,
            Map::empty().insert("ms"@, JsonModel::Int(ms as int)),
        ),
{
    let mut params = obj_new();
    obj_push(&mut params, "ms", Json::Uint(ms as u64));
    encode_request("time_out_set", params)
}

/// Builds the `capabilities` request for a system.
pub fn capabilities_request(sys: &System) -> (r: LsmResult<Vec<u8>>)
    ensures
        request_outcome(
            r,
            "capabilities"@,
            Map::empty().insert("system"@, sys.to_model()),
        ),
{
    let mut params = obj_new();
    obj_push(&mut params, "system", sys.to_json());
    encode_request("capabilities", params)
}

/// Builds the `volume_resize` request; its result is an async result envelope.
pub fn volume_resize_request(vol: &Volume, new_size_bytes: u64) -> (r: LsmResult<Vec<u8>>)
    ensures
        request_outcome(
            r,
            "volume_resize"@,
            Map::empty().insert("volume"@, vol.to_model()).insert("new_size_bytes"@, JsonModel::Int(new_size_bytes as int)),
        ),
{
    let mut params = obj_new();
    obj_push(&mut params, "volume", vol.to_json());
    obj_push(&mut params, "new_size_bytes", Json::Uint(new_size_bytes));
    encode_request("volume_resize", params)
}

/// Builds the request for the block size of ranged replication.
pub fn volume_rep_range_blk_size_request(sys: &System) -> (r: LsmResult<Vec<u8>>)
    ensures
        request_outcome(
            r,
            "volume_replicate_range_block_size"@,
            Map::empty().insert("system"@, sys.to_model()),
        ),
{
    let mut params = obj_new();
    obj_push(&mut params, "system", sys.to_json());
    encode_request("volume_replicate_range_block_size", params)
}

/// Builds the `volume_enable` request.
pub fn volume_enable_request(vol: &Volume) -> (r: LsmResult<Vec<u8>>)
    ensures
        request_outcome(
            r,
            "volume_enable"@,
            Map::empty().insert("volume"@, vol.to_model()),
        ),
{
    let mut params = obj_new();
    obj_push(&mut params, "volume", vol.to_json());
    encode_request("volume_enable", params)
}

/// Builds the `volume_disable` request.
pub fn volume_disable_request(vol: &Volume) -> (r: LsmResult<Vec<u8>>)
    ensures
        request_outcome(
            r,
            "volume_disable"@,
            Map::empty().insert("volume"@, vol.to_model()),
        ),
{
    let mut params = obj_new();
    obj_push(&mut params, "volume", vol.to_json());
    encode_request("volume_disable", params)
}

/// Builds the `volume_mask` request granting a group access to a volume.
pub fn volume_mask_request(vol: &Volume, ag: &AccessGroup) -> (r: LsmResult<Vec<u8>>)
    ensures
        request_outcome(
            r,
            "volume_mask"@,
            Map::empty().insert("volume"@, vol.to_model()).insert("access_group"@, ag.to_model()),
        ),
{
    let mut params = obj_new();
    obj_push(&mut params, "volume", vol.to_json());
    obj_push(&mut params, "access_group", ag.to_json());
    encode_request("volume_mask", params)
}

/// Builds the `volume_unmask` request revoking a group's access.
pub fn volume_unmask_request(vol: &Volume, ag: &AccessGroup) -> (r: LsmResult<Vec<u8>>)
    ensures
        request_outcome(
            r,
            "volume_unmask"@,
            Map::empty().insert("volume"@, vol.to_model()).insert("access_group"@, ag.to_model()),
        ),
{
    let mut params = obj_new();
    obj_push(&mut params, "volume", vol.to_json());
    obj_push(&mut params, "access_group", ag.to_json());
    encode_request("volume_unmask", params)
}

/// Builds the `access_group_delete` request.
pub fn access_group_delete_request(ag: &AccessGroup) -> (r: LsmResult<Vec<u8>>)
    ensures
        request_outcome(
            r,
            "access_group_delete"@,
            Map::empty().insert("access_group"@, ag.to_model()),
        ),
{
    let mut params = obj_new();
    obj_push(&mut params, "access_group", ag.to_json());
    encode_request("access_group_delete", params)
}

/// Builds the request for the volumes a group has access to.
pub fn vols_masked_to_ag_request(ag: &AccessGroup) -> (r: LsmResult<Vec<u8>>)
    ensures
        request_outcome(
            r,
            "volumes_accessible_by_access_group"@,
            Map::empty().insert("access_group"@, ag.to_model()),
        ),
{
    let mut params = obj_new();
    obj_push(&mut params, "access_group", ag.to_json());
    encode_request("volumes_accessible_by_access_group", params)
}

/// Builds the request for the groups with access to a volume.
pub fn ags_granted_to_vol_request(vol: &Volume) -> (r: LsmResult<Vec<u8>>)
    ensures
        request_outcome(
            r,
            "access_groups_granted_to_volume"@,
            Map::empty().insert("volume"@, vol.to_model()),
        ),
{
    let mut params = obj_new();
    obj_push(&mut params, "volume", vol.to_json());
    encode_request("access_groups_granted_to_volume", params)
}

/// Builds the request asking whether a volume has child dependencies.
pub fn vol_has_child_dep_request(vol: &Volume) -> (r: LsmResult<Vec<u8>>)
    ensures
        request_outcome(
            r,
            "volume_child_dependency"@,
            Map::empty().insert("volume"@, vol.to_model()),
        ),
{
    let mut params = obj_new();
    obj_push(&mut params, "volume", vol.to_json());
    encode_request("volume_child_dependency", params)
}

/// Builds the request removing a volume's child dependencies; its result may be an async handle.
pub fn vol_child_dep_rm_request(vol: &Volume) -> (r: LsmResult<Vec<u8>>)
    ensures
        request_outcome(
            r,
            "volume_child_dependency_rm"@,
            Map::empty().insert("volume"@, vol.to_model()),
        ),
{
    let mut params = obj_new();
    obj_push(&mut params, "volume", vol.to_json());
    encode_request("volume_child_dependency_rm", params)
}

/// Builds the `fs_create` request; its result is an async result envelope.
pub fn fs_create_request(pool: &Pool, name: &str, size_bytes: u64) -> (r: LsmResult<Vec<u8>>)
    ensures
        request_outcome(
            r,
            "fs_create"@,
            Map::empty().insert("size_bytes"@, JsonModel::Int(size_bytes as int)).insert("name"@, JsonModel::Str(name@)).insert("pool"@, pool.to_model()),
        ),
{
    let mut params = obj_new();
    obj_push(&mut params, "size_bytes", Json::Uint(size_bytes));
    obj_push(&mut params, "name", Json::Str(name.to_owned()));
    obj_push(&mut params, "pool", pool.to_json());
    encode_request("fs_create", params)
}

/// Builds the `fs_resize` request; its result is an async result envelope.
pub fn fs_resize_request(fs: &FileSystem, new_size_bytes: u64) -> (r: LsmResult<Vec<u8>>)
    ensures
        request_outcome(
            r,
            "fs_resize"@,
            Map::empty().insert("fs"@, fs.to_model()).insert("new_size_bytes"@, JsonModel::Int(new_size_bytes as int)),
        ),
{
    let mut params = obj_new();
    obj_push(&mut params, "fs", fs.to_json());
    obj_push(&mut params, "new_size_bytes", Json::Uint(new_size_bytes));
    encode_request("fs_resize", params)
}

/// Builds the `fs_delete` request; its result may be an async handle.
pub fn fs_delete_request(fs: &FileSystem) -> (r: LsmResult<Vec<u8>>)
    ensures
        request_outcome(
            r,
            "fs_delete"@,
            Map::empty().insert("fs"@, fs.to_model()),
        ),
{
    let mut params = obj_new();
    obj_push(&mut params, "fs", fs.to_json());
    encode_request("fs_delete", params)
}

/// Builds the listing request for a file system's snapshots.
pub fn fs_snapshots_request(fs: &FileSystem) -> (r: LsmResult<Vec<u8>>)
    ensures
        request_outcome(
            r,
            "fs_snapshots"@,
            Map::empty().insert("fs"@, fs.to_model()),
        ),
{
    let mut params = obj_new();
    obj_push(&mut params, "fs", fs.to_json());
    encode_request("fs_snapshots", params)
}

/// Builds the `fs_snapshot_create` request; its result is an async result envelope.
pub fn fs_snapshot_create_request(fs: &FileSystem, name: &str) -> (r: LsmResult<Vec<u8>>)
    ensures
        request_outcome(
            r,
            "fs_snapshot_create"@,
            Map::empty().insert("fs"@, fs.to_model()).insert("snapshot_name"@, JsonModel::Str(name@)),
        ),
{
    let mut params = obj_new();
    obj_push(&mut params, "fs", fs.to_json());
    obj_push(&mut params, "snapshot_name", Json::Str(name.to_owned()));
    encode_request("fs_snapshot_create", params)
}

/// Builds the `fs_snapshot_delete` request; its result may be an async handle.
pub fn fs_snapshot_delete_request(fs: &FileSystem, snapshot: &FileSystemSnapShot) -> (r: LsmResult<Vec<u8>>)
    ensures
        request_outcome(
            r,
            "fs_snapshot_delete"@,
            Map::empty().insert("fs"@, fs.to_model()).insert("snapshot"@, snapshot.to_model()),
        ),
{
    let mut params = obj_new();
    obj_push(&mut params, "fs", fs.to_json());
    obj_push(&mut params, "snapshot", snapshot.to_json());
    encode_request("fs_snapshot_delete", params)
}

/// Builds the `export_remove` request deleting an NFS export.
pub fn fs_unexport_request(exp: &NfsExport) -> (r: LsmResult<Vec<u8>>)
    ensures
        request_outcome(
            r,
            "export_remove"@,
            Map::empty().insert("export"@, exp.to_model()),
        ),
{
    let mut params = obj_new();
    obj_push(&mut params, "export", exp.to_json());
    encode_request("export_remove", params)
}

/// Builds the `volume_raid_info` request.
pub fn vol_raid_info_request(vol: &Volume) -> (r: LsmResult<Vec<u8>>)
    ensures
        request_outcome(
            r,
            "volume_raid_info"@,
            Map::empty().insert("volume"@, vol.to_model()),
        ),
{
    let mut params = obj_new();
    obj_push(&mut params, "volume", vol.to_json());
    encode_request("volume_raid_info", params)
}

/// Builds the `pool_member_info` request.
pub fn pool_member_info_request(pool: &Pool) -> (r: LsmResult<Vec<u8>>)
    ensures
        request_outcome(
            r,
            "pool_member_info"@,
            Map::empty().insert("pool"@, pool.to_model()),
        ),
{
    let mut params = obj_new();
    obj_push(&mut params, "pool", pool.to_json());
    encode_request("pool_member_info", params)
}

/// Builds the request for the supported RAID types and strip sizes.
pub fn vol_raid_create_cap_get_request(sys: &System) -> (r: LsmResult<Vec<u8>>)
    ensures
        request_outcome(
            r,
            "volume_raid_create_cap_get"@,
            Map::empty().insert("system"@, sys.to_model()),
        ),
{
    let mut params = obj_new();
    obj_push(&mut params, "system", sys.to_json());
    encode_request("volume_raid_create_cap_get", params)
}

/// Builds the request turning a volume's identification LED on.
pub fn vol_ident_led_on_request(vol: &Volume) -> (r: LsmResult<Vec<u8>>)
    ensures
        request_outcome(
            r,
            "vol_ident_led_on"@,
            Map::empty().insert("volume"@, vol.to_model()),
        ),
{
    let mut params = obj_new();
    obj_push(&mut params, "volume", vol.to_json());
    encode_request("vol_ident_led_on", params)
}

/// Builds the request turning a volume's identification LED off.
pub fn vol_ident_led_off_request(vol: &Volume) -> (r: LsmResult<Vec<u8>>)
    ensures
        request_outcome(
            r,
            "vol_ident_led_off"@,
            Map::empty().insert("volume"@, vol.to_model()),
        ),
{
    let mut params = obj_new();
    obj_push(&mut params, "volume", vol.to_json());
    encode_request("vol_ident_led_off", params)
}

/// Builds the `volume_cache_info` request.
pub fn vol_cache_info_request(vol: &Volume) -> (r: LsmResult<Vec<u8>>)
    ensures
        request_outcome(
            r,
            "volume_cache_info"@,
            Map::empty().insert("volume"@, vol.to_model()),
        ),
{
    let mut params = obj_new();
    obj_push(&mut params, "volume", vol.to_json());
    encode_request("volume_cache_info", params)
}

/// Builds the `volume_replicate` request; its result is an async result envelope. Without a pool the target is allocated from the source volume's pool.
pub fn volume_replicate_request(pool: Option<&Pool>, rep_type: VolumeReplicateType, src_vol: &Volume, name: &str) -> (r: LsmResult<Vec<u8>>)
    ensures
        request_outcome(
            r,
            "volume_replicate"@,
            Map::empty().insert("pool"@, match pool {
                None => JsonModel::Null,
                Some(p) => p.to_model(),
            }).insert("volume_src"@, src_vol.to_model()).insert("rep_type"@, JsonModel::Int(rep_type_int(rep_type))).insert("name"@, JsonModel::Str(name@)),
        ),
{
    let mut params = obj_new();
    obj_push(&mut params, "pool", match pool {
        None => Json::Null,
        Some(p) => p.to_json(),
    });
    obj_push(&mut params, "volume_src", src_vol.to_json());
    obj_push(&mut params, "rep_type", Json::Int(rep_type_to_int(rep_type) as i64));
    obj_push(&mut params, "name", Json::Str(name.to_owned()));
    encode_request("volume_replicate", params)
}

/// Builds the `fs_clone` request, optionally based on a snapshot; its result is an async result envelope.
pub fn fs_clone_request(src_fs: &FileSystem, dst_fs_name: &str, snapshot: Option<&FileSystemSnapShot>) -> (r: LsmResult<Vec<u8>>)
    ensures
        request_outcome(
            r,
            "fs_clone"@,
            Map::empty().insert("src_fs"@, src_fs.to_model()).insert("dest_fs_name"@, JsonModel::Str(dst_fs_name@)).insert("snapshot"@, match snapshot {
                None => JsonModel::Null,
                Some(s) => s.to_model(),
            }),
        ),
{
    let mut params = obj_new();
    obj_push(&mut params, "src_fs", src_fs.to_json());
    obj_push(&mut params, "dest_fs_name", Json::Str(dst_fs_name.to_owned()));
    obj_push(&mut params, "snapshot", match snapshot {
        None => Json::Null,
        Some(s) => s.to_json(),
    });
    encode_request("fs_clone", params)
}

/// Builds the `fs_file_clone` request, optionally based on a snapshot; its result may be an async handle.
pub fn fs_file_clone_request(fs: &FileSystem, src_file_name: &str, dst_file_name: &str, snapshot: Option<&FileSystemSnapShot>) -> (r: LsmResult<Vec<u8>>)
    ensures
        request_outcome(
            r,
            "fs_file_clone"@,
            Map::empty().insert("fs"@, fs.to_model()).insert("src_file_name"@, JsonModel::Str(src_file_name@)).insert("dest_file_name"@, JsonModel::Str(dst_file_name@)).insert("snapshot"@, match snapshot {
                None => JsonModel::Null,
                Some(s) => s.to_model(),
            }),
        ),
{
    let mut params = obj_new();
    obj_push(&mut params, "fs", fs.to_json());
    obj_push(&mut params, "src_file_name", Json::Str(src_file_name.to_owned()));
    obj_push(&mut params, "dest_file_name", Json::Str(dst_file_name.to_owned()));
    obj_push(&mut params, "snapshot", match snapshot {
        None => Json::Null,
        Some(s) => s.to_json(),
    });
    encode_request("fs_file_clone", params)
}


/// The characters of an optional string argument, the empty string when
/// absent.
pub open spec fn opt_str_or_empty(o: Option<&str>) -> Seq<char> {
    match o {
        None => Seq::empty(),
        Some(s) => s@,
    }
}

/// An optional string argument sent as a string, empty when absent.
fn str_or_empty(o: Option<&str>) -> (r: Json)
    ensures
        r.deep_view() == JsonModel::Str(opt_str_or_empty(o)),
{
    match o {
        None => Json::Str(String::new()),
        Some(s) => Json::Str(s.to_owned()),
    }
}

/// An optional string argument sent as a string or null.
fn opt_str_arg(o: Option<&str>) -> (r: Json)
    ensures
        r.deep_view() == match o {
            None => JsonModel::Null,
            Some(s) => JsonModel::Str(s@),
        },
{
    match o {
        None => Json::Null,
        Some(s) => Json::Str(s.to_owned()),
    }
}

/// The model of an optional host list: the empty array when absent.
pub open spec fn opt_str_list_model(o: Option<&Vec<String>>) -> JsonModel {
    match o {
        None => JsonModel::Arr(Seq::empty()),
        Some(v) => str_list_model(v@),
    }
}

/// An optional string list argument, empty when absent.
fn opt_str_list_json(o: Option<&Vec<String>>) -> (r: Json)
    ensures
        r.deep_view() == opt_str_list_model(o),
{
    match o {
        None => {
            let empty: Vec<Json> = Vec::new();
            proof {
                assert(arr_model(empty@) =~= Seq::<JsonModel>::empty());
            }
            Json::Arr(empty)
        },
        Some(v) => str_list_json(v),
    }
}

/// Whether one of the strings holds exactly these characters.
pub open spec fn seq_contains_str(xs: Seq<String>, s: Seq<char>) -> bool {
    exists|i: int| 0 <= i < xs.len() && (#[trigger] xs[i])@ == s
}

/// Whether the list holds the string.
pub fn str_vec_contains(xs: &Vec<String>, s: &str) -> (r: bool)
    ensures
        r == seq_contains_str(xs@, s@),
{
    let n = xs.len();
    let mut i: usize = 0;
    while i < n
        invariant
            n == xs@.len(),
            i <= n,
            forall|j: int| 0 <= j < i ==> (#[trigger] xs@[j])@ != s@,
        decreases n - i,
    {
        if crate::text::str_eq(xs[i].as_str(), s) {
            return true;
        }
        i += 1;
    }
    false
}

/// The model of a list of block ranges.
pub open spec fn block_ranges_model(rs: Seq<BlockRange>) -> JsonModel {
    JsonModel::Arr(Seq::new(rs.len(), |i: int| rs[i].to_model()))
}

/// The JSON array of a list of block ranges.
fn block_ranges_json(rs: &Vec<BlockRange>) -> (r: Json)
    ensures
        r.deep_view() == block_ranges_model(rs@),
{
    let mut out: Vec<Json> = Vec::new();
    let n = rs.len();
    let mut i: usize = 0;
    while i < n
        invariant
            n == rs@.len(),
            i <= n,
            out@.len() == i,
            forall|j: int| 0 <= j < i ==> #[trigger] arr_model(out@)[j] == rs@[j].to_model(),
        decreases n - i,
    {
        let ghost before = out@;
        out.push(rs[i].to_json());
        proof {
            crate::json::lemma_arr_model_push(before, out@.last());
            assert(out@ =~= before.push(out@.last()));
        }
        i += 1;
    }
    proof {
        assert(arr_model(out@) =~= Seq::new(rs@.len(), |i: int| rs@[i].to_model()));
    }
    Json::Arr(out)
}

/// The model of a list of disks.
pub open spec fn disks_model(ds: Seq<Disk>) -> JsonModel {
    JsonModel::Arr(Seq::new(ds.len(), |i: int| ds[i].to_model()))
}

/// The JSON array of a list of disks.
fn disks_json(ds: &Vec<Disk>) -> (r: Json)
    ensures
        r.deep_view() == disks_model(ds@),
{
    let mut out: Vec<Json> = Vec::new();
    let n = ds.len();
    let mut i: usize = 0;
    while i < n
        invariant
            n == ds@.len(),
            i <= n,
            out@.len() == i,
            forall|j: int| 0 <= j < i ==> #[trigger] arr_model(out@)[j] == ds@[j].to_model(),
        decreases n - i,
    {
        let ghost before = out@;
        out.push(ds[i].to_json());
        proof {
            crate::json::lemma_arr_model_push(before, out@.last());
            assert(out@ =~= before.push(out@.last()));
        }
        i += 1;
    }
    proof {
        assert(arr_model(out@) =~= Seq::new(ds@.len(), |i: int| ds@[i].to_model()));
    }
    Json::Arr(out)
}

/// The provisioning code sent for a `volume_create` thin-provisioning
/// choice.
pub open spec fn thinp_int(t: VolumeCreateArgThinP) -> int {
    match t {
        VolumeCreateArgThinP::Full => VOLUME_THINP_YES as int,
        VolumeCreateArgThinP::Thin => VOLUME_THINP_NO as int,
        VolumeCreateArgThinP::Default => VOLUME_THINP_DEFAULT as int,
    }
}

/// Builds the `volume_create` request; its result is an async result
/// envelope.
pub fn volume_create_request(
    pool: &Pool,
    name: &str,
    size_bytes: u64,
    thinp: &VolumeCreateArgThinP,
) -> (r: LsmResult<Vec<u8>>)
    ensures
        request_outcome(
            r,
            "volume_create"@,
            Map::empty().insert("provisioning"@, JsonModel::Int(thinp_int(*thinp))).insert(
                "size_bytes"@,
                JsonModel::Int(size_bytes as int),
            ).insert("volume_name"@, JsonModel::Str(name@)).insert("pool"@, pool.to_model()),
        ),
{
    let thinp_val: u64 = match thinp {
        VolumeCreateArgThinP::Full => VOLUME_THINP_YES,
        VolumeCreateArgThinP::Thin => VOLUME_THINP_NO,
        VolumeCreateArgThinP::Default => VOLUME_THINP_DEFAULT,
    };
    let mut params = obj_new();
    obj_push(&mut params, "provisioning", Json::Uint(thinp_val));
    obj_push(&mut params, "size_bytes", Json::Uint(size_bytes));
    obj_push(&mut params, "volume_name", Json::Str(name.to_owned()));
    obj_push(&mut params, "pool", pool.to_json());
    encode_request("volume_create", params)
}

/// Builds the `system_read_cache_pct_update` request. A percentage over
/// 100 can never succeed, so it is rejected locally and no request is
/// built.
pub fn sys_read_cache_pct_set_request(sys: &System, read_pct: u32) -> (r: LsmResult<Vec<u8>>)
    ensures
        read_pct > 100 ==> (r matches Err(e) && e.kind == LsmErrorKind::InvalidArgument),
        read_pct <= 100 ==> request_outcome(
            r,
            "system_read_cache_pct_update"@,
            Map::empty().insert("system"@, sys.to_model()).insert(
                "read_pct"@,
                JsonModel::Int(read_pct as int),
            ),
        ),
{
    if read_pct > 100 {
        return Err(
            LsmError::with_msg(
                LsmErrorKind::InvalidArgument,
                "invalid read_pct, should be in range 0 - 100",
            ),
        );
    }
    let mut params = obj_new();
    obj_push(&mut params, "system", sys.to_json());
    obj_push(&mut params, "read_pct", Json::Uint(read_pct as u64));
    encode_request("system_read_cache_pct_update", params)
}

/// Builds the `iscsi_chap_auth` request; absent usernames and passwords
/// are sent as empty strings.
pub fn iscsi_chap_auth_set_request(
    init_id: &str,
    in_user: Option<&str>,
    in_pass: Option<&str>,
    out_user: Option<&str>,
    out_pass: Option<&str>,
) -> (r: LsmResult<Vec<u8>>)
    ensures
        request_outcome(
            r,
            "iscsi_chap_auth"@,
            Map::empty().insert("init_id"@, JsonModel::Str(init_id@)).insert(
                "in_user"@,
                JsonModel::Str(opt_str_or_empty(in_user)),
            ).insert("in_password"@, JsonModel::Str(opt_str_or_empty(in_pass))).insert(
                "out_user"@,
                JsonModel::Str(opt_str_or_empty(out_user)),
            ).insert("out_password"@, JsonModel::Str(opt_str_or_empty(out_pass))),
        ),
{
    let mut params = obj_new();
    obj_push(&mut params, "init_id", Json::Str(init_id.to_owned()));
    obj_push(&mut params, "in_user", str_or_empty(in_user));
    obj_push(&mut params, "in_password", str_or_empty(in_pass));
    obj_push(&mut params, "out_user", str_or_empty(out_user));
    obj_push(&mut params, "out_password", str_or_empty(out_pass));
    encode_request("iscsi_chap_auth", params)
}

/// Builds the `volume_replicate_range` request; its result may be an async
/// handle.
pub fn volume_replicate_range_request(
    rep_type: VolumeReplicateType,
    src_vol: &Volume,
    dst_vol: &Volume,
    ranges: &Vec<BlockRange>,
) -> (r: LsmResult<Vec<u8>>)
    ensures
        request_outcome(
            r,
            "volume_replicate_range"@,
            Map::empty().insert("rep_type"@, JsonModel::Int(rep_type_int(rep_type))).insert(
                "ranges"@,
                block_ranges_model(ranges@),
            ).insert("volume_src"@, src_vol.to_model()).insert("volume_dest"@, dst_vol.to_model()),
        ),
{
    let mut params = obj_new();
    obj_push(&mut params, "rep_type", Json::Int(rep_type_to_int(rep_type) as i64));
    obj_push(&mut params, "ranges", block_ranges_json(ranges));
    obj_push(&mut params, "volume_src", src_vol.to_json());
    obj_push(&mut params, "volume_dest", dst_vol.to_json());
    encode_request("volume_replicate_range", params)
}

/// Whether an initiator ID fits its declared type; only WWPNs and iSCSI
/// IQNs can be checked.
pub open spec fn init_id_ok(id: Seq<u8>, t: InitiatorType) -> bool {
    match t {
        InitiatorType::Wwpn => is_wwpn_bytes(id),
        InitiatorType::IscsiIqn => has_iscsi_prefix(id),
        _ => false,
    }
}

/// Builds the `access_group_create` request. The initiator ID is checked
/// against its declared type first; a malformed one is rejected locally and
/// no request is built.
pub fn access_group_create_request(
    name: &str,
    init_id: &str,
    init_type: InitiatorType,
    sys: &System,
) -> (r: LsmResult<Vec<u8>>)
    ensures
        !init_id_ok(init_id.spec_bytes(), init_type) ==> (r matches Err(e) && e.kind
            == LsmErrorKind::InvalidArgument),
        init_id_ok(init_id.spec_bytes(), init_type) ==> request_outcome(
            r,
            "access_group_create"@,
            Map::empty().insert("name"@, JsonModel::Str(name@)).insert(
                "init_id"@,
                JsonModel::Str(init_id@),
            ).insert("init_type"@, JsonModel::Int(init_type_int(init_type))).insert(
                "system"@,
                sys.to_model(),
            ),
        ),
{
    match verify_init_id_str(init_id, init_type) {
        Ok(()) => {},
        Err(e) => {
            return Err(e);
        },
    }
    let mut params = obj_new();
    obj_push(&mut params, "name", Json::Str(name.to_owned()));
    obj_push(&mut params, "init_id", Json::Str(init_id.to_owned()));
    obj_push(&mut params, "init_type", Json::Int(init_type_to_int(init_type) as i64));
    obj_push(&mut params, "system", sys.to_json());
    encode_request("access_group_create", params)
}

/// Builds the `access_group_initiator_add` request, after checking the
/// initiator ID locally.
pub fn access_group_init_add_request(
    ag: &AccessGroup,
    init_id: &str,
    init_type: InitiatorType,
) -> (r: LsmResult<Vec<u8>>)
    ensures
        !init_id_ok(init_id.spec_bytes(), init_type) ==> (r matches Err(e) && e.kind
            == LsmErrorKind::InvalidArgument),
        init_id_ok(init_id.spec_bytes(), init_type) ==> request_outcome(
            r,
            "access_group_initiator_add"@,
            Map::empty().insert("access_group"@, ag.to_model()).insert(
                "init_id"@,
                JsonModel::Str(init_id@),
            ).insert("init_type"@, JsonModel::Int(init_type_int(init_type))),
        ),
{
    match verify_init_id_str(init_id, init_type) {
        Ok(()) => {},
        Err(e) => {
            return Err(e);
        },
    }
    let mut params = obj_new();
    obj_push(&mut params, "access_group", ag.to_json());
    obj_push(&mut params, "init_id", Json::Str(init_id.to_owned()));
    obj_push(&mut params, "init_type", Json::Int(init_type_to_int(init_type) as i64));
    encode_request("access_group_initiator_add", params)
}

/// Builds the `access_group_initiator_delete` request, after checking the
/// initiator ID locally.
pub fn access_group_init_del_request(
    ag: &AccessGroup,
    init_id: &str,
    init_type: InitiatorType,
) -> (r: LsmResult<Vec<u8>>)
    ensures
        !init_id_ok(init_id.spec_bytes(), init_type) ==> (r matches Err(e) && e.kind
            == LsmErrorKind::InvalidArgument),
        init_id_ok(init_id.spec_bytes(), init_type) ==> request_outcome(
            r,
            "access_group_initiator_delete"@,
            Map::empty().insert("access_group"@, ag.to_model()).insert(
                "init_id"@,
                JsonModel::Str(init_id@),
            ).insert("init_type"@, JsonModel::Int(init_type_int(init_type))),
        ),
{
    match verify_init_id_str(init_id, init_type) {
        Ok(()) => {},
        Err(e) => {
            return Err(e);
        },
    }
    let mut params = obj_new();
    obj_push(&mut params, "access_group", ag.to_json());
    obj_push(&mut params, "init_id", Json::Str(init_id.to_owned()));
    obj_push(&mut params, "init_type", Json::Int(init_type_to_int(init_type) as i64));
    encode_request("access_group_initiator_delete", params)
}

/// Builds the `fs_child_dependency` query; a missing file list asks about
/// the whole file system.
pub fn fs_has_child_dep_request(fs: &FileSystem, files: Option<&Vec<String>>) -> (r: LsmResult<
    Vec<u8>,
>)
    ensures
        request_outcome(
            r,
            "fs_child_dependency"@,
            Map::empty().insert("fs"@, fs.to_model()).insert("files"@, opt_str_list_model(files)),
        ),
{
    let mut params = obj_new();
    obj_push(&mut params, "fs", fs.to_json());
    obj_push(&mut params, "files", opt_str_list_json(files));
    encode_request("fs_child_dependency", params)
}

/// Builds the `fs_child_dependency_rm` request; its result may be an async
/// handle.
pub fn fs_child_dep_rm_request(fs: &FileSystem, files: Option<&Vec<String>>) -> (r: LsmResult<
    Vec<u8>,
>)
    ensures
        request_outcome(
            r,
            "fs_child_dependency_rm"@,
            Map::empty().insert("fs"@, fs.to_model()).insert("files"@, opt_str_list_model(files)),
        ),
{
    let mut params = obj_new();
    obj_push(&mut params, "fs", fs.to_json());
    obj_push(&mut params, "files", opt_str_list_json(files));
    encode_request("fs_child_dependency_rm", params)
}

/// Builds the `fs_snapshot_restore` request; its result may be an async
/// handle. Restoring specific files needs a non-empty file list, and the
/// renamed-targets list, when given, must pair up with it; both are checked
/// locally.
pub fn fs_snapshot_restore_request(
    fs: &FileSystem,
    snapshot: &FileSystemSnapShot,
    all_file: bool,
    files: Option<&Vec<String>>,
    restore_files: Option<&Vec<String>>,
) -> (r: LsmResult<Vec<u8>>)
    ensures
        ({
            let fl = match files {
                None => Seq::<String>::empty(),
                Some(v) => v@,
            };
            let rl = match restore_files {
                None => Seq::<String>::empty(),
                Some(v) => v@,
            };
            &&& (!all_file && fl.len() == 0 ==> (r matches Err(e) && e.kind
                == LsmErrorKind::InvalidArgument))
            &&& (!all_file && fl.len() > 0 && rl.len() > 0 && fl.len() != rl.len() ==> (r matches
                Err(e) && e.kind == LsmErrorKind::InvalidArgument))
            &&& (!(!all_file && fl.len() == 0) && !(!all_file && fl.len() > 0 && rl.len() > 0
                && fl.len() != rl.len()) ==> request_outcome(
                r,
                "fs_snapshot_restore"@,
                Map::empty().insert(
                    "files"@,
                    if all_file {
                        JsonModel::Arr(Seq::empty())
                    } else {
                        str_list_model(fl)
                    },
                ).insert(
                    "restore_files"@,
                    if all_file {
                        JsonModel::Arr(Seq::empty())
                    } else {
                        str_list_model(rl)
                    },
                ).insert("fs"@, fs.to_model()).insert("snapshot"@, snapshot.to_model()).insert(
                    "all_files"@,
                    JsonModel::Bool(all_file),
                ),
            ))
        }),
{
    let mut params = obj_new();
    if all_file {
        obj_push(&mut params, "files", opt_str_list_json(None));
        obj_push(&mut params, "restore_files", opt_str_list_json(None));
    } else {
        let empty_files: Vec<String> = Vec::new();
        let fl: &Vec<String> = match files {
            Some(v) => v,
            None => &empty_files,
        };
        if fl.len() == 0 {
            return Err(
                LsmError::with_msg(
                    LsmErrorKind::InvalidArgument,
                    "invalid argument: `all_file` is false while `files` is empty",
                ),
            );
        }
        let empty_restore: Vec<String> = Vec::new();
        let rl: &Vec<String> = match restore_files {
            Some(v) => v,
            None => &empty_restore,
        };
        if rl.len() != 0 && fl.len() != rl.len() {
            return Err(
                LsmError::with_msg(
                    LsmErrorKind::InvalidArgument,
                    "invalid argument: `files` and `restore_files` have different length",
                ),
            );
        }
        obj_push(&mut params, "files", str_list_json(fl));
        obj_push(&mut params, "restore_files", str_list_json(rl));
        proof {
            if restore_files is None {
                assert(str_list_model(empty_restore@) =~= str_list_model(Seq::<String>::empty()));
            }
        }
    }
    obj_push(&mut params, "fs", fs.to_json());
    obj_push(&mut params, "snapshot", snapshot.to_json());
    obj_push(&mut params, "all_files", Json::Bool(all_file));
    encode_request("fs_snapshot_restore", params)
}

/// Builds the `export_fs` request creating or modifying an NFS export.
/// The host lists are checked locally: some host must have read or write
/// access, every root host must also appear there, and no host may be both
/// read-write and read-only.
pub fn fs_export_request(
    fs: &FileSystem,
    export_path: Option<&str>,
    access: &NfsAccess,
    auth_type: Option<&str>,
    options: Option<&str>,
) -> (r: LsmResult<Vec<u8>>)
    ensures
        ({
            let bad_empty = access.rw_list@.len() == 0 && access.ro_list@.len() == 0;
            let bad_root = exists|i: int|
                0 <= i < access.root_list@.len() && !seq_contains_str(
                    access.rw_list@,
                    (#[trigger] access.root_list@[i])@,
                ) && !seq_contains_str(access.ro_list@, access.root_list@[i]@);
            let bad_both = exists|i: int|
                0 <= i < access.rw_list@.len() && seq_contains_str(
                    access.ro_list@,
                    (#[trigger] access.rw_list@[i])@,
                );
            &&& (bad_empty || bad_root || bad_both ==> (r matches Err(e) && e.kind
                == LsmErrorKind::InvalidArgument))
            &&& (!bad_empty && !bad_root && !bad_both ==> request_outcome(
                r,
                "export_fs"@,
                Map::empty().insert("fs_id"@, JsonModel::Str(fs.id@)).insert(
                    "export_path"@,
                    match export_path {
                        None => JsonModel::Null,
                        Some(p) => JsonModel::Str(p@),
                    },
                ).insert("root_list"@, str_list_model(access.root_list@)).insert(
                    "rw_list"@,
                    str_list_model(access.rw_list@),
                ).insert("ro_list"@, str_list_model(access.ro_list@)).insert(
                    "anon_uid"@,
                    JsonModel::Int(
                        match access.anon_uid {
                            None => NfsExport::ANON_UID_GID_NA as int,
                            Some(x) => x as int,
                        },
                    ),
                ).insert(
                    "anon_gid"@,
                    JsonModel::Int(
                        match access.anon_gid {
                            None => NfsExport::ANON_UID_GID_NA as int,
                            Some(x) => x as int,
                        },
                    ),
                ).insert(
                    "auth_type"@,
                    match auth_type {
                        None => JsonModel::Null,
                        Some(p) => JsonModel::Str(p@),
                    },
                ).insert(
                    "options"@,
                    match options {
                        None => JsonModel::Null,
                        Some(p) => JsonModel::Str(p@),
                    },
                ),
            ))
        }),
{
    if access.rw_list.len() == 0 && access.ro_list.len() == 0 {
        return Err(
            LsmError::with_msg(
                LsmErrorKind::InvalidArgument,
                "at least one host should exist in `rw_list` or `ro_list`",
            ),
        );
    }
    let mut i: usize = 0;
    let root_n = access.root_list.len();
    while i < root_n
        invariant
            root_n == access.root_list@.len(),
            i <= root_n,
            forall|j: int|
                0 <= j < i ==> seq_contains_str(
                    access.rw_list@,
                    (#[trigger] access.root_list@[j])@,
                ) || seq_contains_str(access.ro_list@, access.root_list@[j]@),
        decreases root_n - i,
    {
        let host = access.root_list[i].as_str();
        if !str_vec_contains(&access.rw_list, host) && !str_vec_contains(&access.ro_list, host) {
            return Err(
                LsmError::with_msg(
                    LsmErrorKind::InvalidArgument,
                    "host in `root_list` should be also in `rw_list` or `ro_list`",
                ),
            );
        }
        i += 1;
    }
    let mut k: usize = 0;
    let rw_n = access.rw_list.len();
    while k < rw_n
        invariant
            rw_n == access.rw_list@.len(),
            k <= rw_n,
            forall|j: int|
                0 <= j < k ==> !seq_contains_str(
                    access.ro_list@,
                    (#[trigger] access.rw_list@[j])@,
                ),
        decreases rw_n - k,
    {
        let host = access.rw_list[k].as_str();
        if str_vec_contains(&access.ro_list, host) {
            return Err(
                LsmError::with_msg(
                    LsmErrorKind::InvalidArgument,
                    "host should not be in both `rw_list` and `ro_list`",
                ),
            );
        }
        k += 1;
    }
    let mut params = obj_new();
    obj_push(&mut params, "fs_id", Json::Str(fs.id.clone()));
    obj_push(&mut params, "export_path", opt_str_arg(export_path));
    obj_push(&mut params, "root_list", str_list_json(&access.root_list));
    obj_push(&mut params, "rw_list", str_list_json(&access.rw_list));
    obj_push(&mut params, "ro_list", str_list_json(&access.ro_list));
    let anon_uid: i64 = match access.anon_uid {
        None => NfsExport::ANON_UID_GID_NA,
        Some(x) => x,
    };
    let anon_gid: i64 = match access.anon_gid {
        None => NfsExport::ANON_UID_GID_NA,
        Some(x) => x,
    };
    obj_push(&mut params, "anon_uid", Json::Int(anon_uid));
    obj_push(&mut params, "anon_gid", Json::Int(anon_gid));
    obj_push(&mut params, "auth_type", opt_str_arg(auth_type));
    obj_push(&mut params, "options", opt_str_arg(options));
    encode_request("export_fs", params)
}

/// Builds the `volume_raid_create` request. The disk count is checked
/// against the RAID type locally: RAID 1 takes exactly two disks, RAID 5 at
/// least three, RAID 6 at least four, and RAID 10, 50 and 60 an even count
/// of at least four, six and eight.
pub fn vol_raid_create_request(
    name: &str,
    raid_type: RaidType,
    disks: &Vec<Disk>,
    strip_size: Option<u32>,
) -> (r: LsmResult<Vec<u8>>)
    ensures
        ({
            let n = disks@.len();
            let bad = n == 0 || (raid_type == RaidType::Raid1 && n != 2) || (raid_type
                == RaidType::Raid5 && n < 3) || (raid_type == RaidType::Raid6 && n < 4) || (
            raid_type == RaidType::Raid10 && (n % 2 != 0 || n < 4)) || (raid_type
                == RaidType::Raid50 && (n % 2 != 0 || n < 6)) || (raid_type == RaidType::Raid60 && (
            n % 2 != 0 || n < 8));
            &&& (bad ==> (r matches Err(e) && e.kind == LsmErrorKind::InvalidArgument))
            &&& (!bad ==> request_outcome(
                r,
                "volume_raid_create"@,
                Map::empty().insert("name"@, JsonModel::Str(name@)).insert(
                    "raid_type"@,
                    JsonModel::Int(raid_type_int(raid_type)),
                ).insert("disks"@, disks_model(disks@)).insert(
                    "strip_size"@,
                    JsonModel::Int(
                        match strip_size {
                            None => 0,
                            Some(s) => s as int,
                        },
                    ),
                ),
            ))
        }),
{
    if disks.len() == 0 {
        return Err(LsmError::with_msg(LsmErrorKind::InvalidArgument, "no disk included"));
    }
    if raid_type == RaidType::Raid1 && disks.len() != 2 {
        return Err(LsmError::with_msg(LsmErrorKind::InvalidArgument, "RAID 1 only allows 2 disks"));
    }
    if raid_type == RaidType::Raid5 && disks.len() < 3 {
        return Err(
            LsmError::with_msg(LsmErrorKind::InvalidArgument, "RAID 5 requires 3 or more disks"),
        );
    }
    if raid_type == RaidType::Raid6 && disks.len() < 4 {
        return Err(
            LsmError::with_msg(LsmErrorKind::InvalidArgument, "RAID 6 requires 4 or more disks"),
        );
    }
    if raid_type == RaidType::Raid10 && (disks.len() % 2 != 0 || disks.len() < 4) {
        return Err(
            LsmError::with_msg(
                LsmErrorKind::InvalidArgument,
                "RAID 10 requires an even disk count of 4 or more",
            ),
        );
    }
    if raid_type == RaidType::Raid50 && (disks.len() % 2 != 0 || disks.len() < 6) {
        return Err(
            LsmError::with_msg(
                LsmErrorKind::InvalidArgument,
                "RAID 50 requires an even disk count of 6 or more",
            ),
        );
    }
    if raid_type == RaidType::Raid60 && (disks.len() % 2 != 0 || disks.len() < 8) {
        return Err(
            LsmError::with_msg(
                LsmErrorKind::InvalidArgument,
                "RAID 60 requires an even disk count of 8 or more",
            ),
        );
    }
    let mut params = obj_new();
    obj_push(&mut params, "name", Json::Str(name.to_owned()));
    obj_push(&mut params, "raid_type", Json::Int(raid_type_to_int(raid_type) as i64));
    obj_push(&mut params, "disks", disks_json(disks));
    let ss: u32 = match strip_size {
        None => 0,
        Some(s) => s,
    };
    obj_push(&mut params, "strip_size", Json::Uint(ss as u64));
    encode_request("volume_raid_create", params)
}

/// Builds the `volume_physical_disk_cache_update` request; only a concrete
/// policy can be sent.
pub fn vol_phy_disk_cache_set_request(vol: &Volume, pdc: CachePolicy) -> (r: LsmResult<Vec<u8>>)
    ensures
        !(pdc == CachePolicy::Enabled || pdc == CachePolicy::Disabled || pdc
            == CachePolicy::UseDiskSetting) ==> (r matches Err(e) && e.kind
            == LsmErrorKind::InvalidArgument),
        pdc == CachePolicy::Enabled || pdc == CachePolicy::Disabled || pdc
            == CachePolicy::UseDiskSetting ==> request_outcome(
            r,
            "volume_physical_disk_cache_update"@,
            Map::empty().insert("volume"@, vol.to_model()).insert(
                "pdc"@,
                JsonModel::Int(
                    match pdc {
                        CachePolicy::Enabled => PHYSICAL_DISK_CACHE_ENABLED as int,
                        CachePolicy::Disabled => PHYSICAL_DISK_CACHE_DISABLED as int,
                        _ => PHYSICAL_DISK_CACHE_USE_DISK_SETTING as int,
                    },
                ),
            ),
        ),
{
    let code: u8 = match pdc {
        CachePolicy::Enabled => PHYSICAL_DISK_CACHE_ENABLED,
        CachePolicy::Disabled => PHYSICAL_DISK_CACHE_DISABLED,
        CachePolicy::UseDiskSetting => PHYSICAL_DISK_CACHE_USE_DISK_SETTING,
        _ => {
            return Err(
                LsmError::with_msg(LsmErrorKind::InvalidArgument, "invalid pdc argument"),
            );
        },
    };
    let mut params = obj_new();
    obj_push(&mut params, "volume", vol.to_json());
    obj_push(&mut params, "pdc", Json::Uint(code as u64));
    encode_request("volume_physical_disk_cache_update", params)
}

/// Builds the `volume_write_cache_policy_update` request; only a concrete
/// policy can be sent.
pub fn vol_write_cache_set_request(vol: &Volume, wcp: CachePolicy) -> (r: LsmResult<Vec<u8>>)
    ensures
        !(wcp == CachePolicy::Enabled || wcp == CachePolicy::Disabled || wcp == CachePolicy::Auto)
            ==> (r matches Err(e) && e.kind == LsmErrorKind::InvalidArgument),
        wcp == CachePolicy::Enabled || wcp == CachePolicy::Disabled || wcp == CachePolicy::Auto
            ==> request_outcome(
            r,
            "volume_write_cache_policy_update"@,
            Map::empty().insert("volume"@, vol.to_model()).insert(
                "wcp"@,
                JsonModel::Int(
                    match wcp {
                        CachePolicy::Enabled => WRITE_CACHE_POLICY_WRITE_BACK as int,
                        CachePolicy::Disabled => WRITE_CACHE_POLICY_WRITE_THROUGH as int,
                        _ => WRITE_CACHE_POLICY_AUTO as int,
                    },
                ),
            ),
        ),
{
    let code: u8 = match wcp {
        CachePolicy::Enabled => WRITE_CACHE_POLICY_WRITE_BACK,
        CachePolicy::Disabled => WRITE_CACHE_POLICY_WRITE_THROUGH,
        CachePolicy::Auto => WRITE_CACHE_POLICY_AUTO,
        _ => {
            return Err(
                LsmError::with_msg(LsmErrorKind::InvalidArgument, "invalid wcp argument"),
            );
        },
    };
    let mut params = obj_new();
    obj_push(&mut params, "volume", vol.to_json());
    obj_push(&mut params, "wcp", Json::Uint(code as u64));
    encode_request("volume_write_cache_policy_update", params)
}

/// Builds the `volume_read_cache_policy_update` request; only enabling or
/// disabling can be sent.
pub fn vol_read_cache_set_request(vol: &Volume, rcp: CachePolicy) -> (r: LsmResult<Vec<u8>>)
    ensures
        !(rcp == CachePolicy::Enabled || rcp == CachePolicy::Disabled) ==> (r matches Err(e)
            && e.kind == LsmErrorKind::InvalidArgument),
        rcp == CachePolicy::Enabled || rcp == CachePolicy::Disabled ==> request_outcome(
            r,
            "volume_read_cache_policy_update"@,
            Map::empty().insert("volume"@, vol.to_model()).insert(
                "rcp"@,
                JsonModel::Int(
                    match rcp {
                        CachePolicy::Enabled => READ_CACHE_POLICY_ENABLED as int,
                        _ => READ_CACHE_POLICY_DISABLED as int,
                    },
                ),
            ),
        ),
{
    let code: u8 = match rcp {
        CachePolicy::Enabled => READ_CACHE_POLICY_ENABLED,
        CachePolicy::Disabled => READ_CACHE_POLICY_DISABLED,
        _ => {
            return Err(
                LsmError::with_msg(LsmErrorKind::InvalidArgument, "invalid rcp argument"),
            );
        },
    };
    let mut params = obj_new();
    obj_push(&mut params, "volume", vol.to_json());
    obj_push(&mut params, "rcp", Json::Uint(code as u64));
    encode_request("volume_read_cache_policy_update", params)
}

/// Whether a model is an array of strings.
pub open spec fn arr_strs_valid(m: JsonModel) -> bool {
    m is Arr && forall|i: int| 0 <= i < m->Arr_0.len() ==> (#[trigger] m->Arr_0[i]) is Str
}

/// The string at an index of an array model.
pub open spec fn arr_str_at(m: JsonModel, i: int) -> Seq<char> {
    m->Arr_0[i]->Str_0
}

/// Whether a model is an array of integers within the given bounds.
pub open spec fn arr_ints_valid(m: JsonModel, lo: int, hi: int) -> bool {
    m is Arr && forall|i: int|
        0 <= i < m->Arr_0.len() ==> (model_int(#[trigger] m->Arr_0[i]) matches Some(x) && lo <= x
            <= hi)
}

/// The integer at an index of an array model.
pub open spec fn arr_int_at(m: JsonModel, i: int) -> int {
    match model_int(m->Arr_0[i]) {
        Some(x) => x,
        None => 0,
    }
}

/// Reads an array of strings out of a decoded value.
pub fn strings_from_json(j: &Json) -> (r: Option<Vec<String>>)
    ensures
        ({
            let m = j.deep_view();
            match r {
                Some(v) => arr_strs_valid(m) && v@.len() == m->Arr_0.len() && forall|i: int|
                    0 <= i < v@.len() ==> (#[trigger] v@[i])@ == arr_str_at(m, i),
                None => !arr_strs_valid(m),
            }
        }),
{
    let items = match j {
        Json::Arr(items) => items,
        _ => {
            return None;
        },
    };
    let ghost am = arr_model(items@);
    let mut out: Vec<String> = Vec::new();
    let n = items.len();
    let mut i: usize = 0;
    while i < n
        invariant
            n == items@.len(),
            i <= n,
            am == arr_model(items@),
            j.deep_view() == JsonModel::Arr(am),
            out@.len() == i,
            forall|k: int| 0 <= k < i ==> (#[trigger] am[k]) is Str,
            forall|k: int| 0 <= k < i ==> (#[trigger] out@[k])@ == am[k]->Str_0,
        decreases n - i,
    {
        proof {
            assert(am[i as int] == json_model(items@[i as int]));
        }
        match &items[i] {
            Json::Str(s) => {
                out.push(s.clone());
            },
            _ => {
                proof {
                    assert(!(am[i as int] is Str));
                }
                return None;
            },
        }
        i += 1;
    }
    Some(out)
}

/// Reads an array of integers, each within the given bounds, out of a
/// decoded value.
pub fn int_list_from_json(j: &Json, lo: i64, hi: i64) -> (r: Option<Vec<i64>>)
    ensures
        ({
            let m = j.deep_view();
            match r {
                Some(v) => arr_ints_valid(m, lo as int, hi as int) && v@.len() == m->Arr_0.len()
                    && forall|i: int| 0 <= i < v@.len() ==> #[trigger] v@[i] as int == arr_int_at(
                    m,
                    i,
                ),
                None => !arr_ints_valid(m, lo as int, hi as int),
            }
        }),
{
    let items = match j {
        Json::Arr(items) => items,
        _ => {
            return None;
        },
    };
    let ghost am = arr_model(items@);
    let mut out: Vec<i64> = Vec::new();
    let n = items.len();
    let mut i: usize = 0;
    while i < n
        invariant
            n == items@.len(),
            i <= n,
            am == arr_model(items@),
            j.deep_view() == JsonModel::Arr(am),
            out@.len() == i,
            forall|k: int|
                0 <= k < i ==> (model_int(#[trigger] am[k]) matches Some(x) && lo <= x <= hi),
            forall|k: int|
                0 <= k < i ==> #[trigger] out@[k] as int == (match model_int(am[k]) {
                    Some(x) => x,
                    None => 0,
                }),
        decreases n - i,
    {
        proof {
            assert(am[i as int] == json_model(items@[i as int]));
        }
        let x = match items[i].as_i64() {
            Some(x) if lo <= x && x <= hi => x,
            _ => {
                proof {
                    assert(!(model_int(am[i as int]) matches Some(x) && lo <= x <= hi));
                }
                return None;
            },
        };
        out.push(x);
        i += 1;
    }
    Some(out)
}

/// Reads an unsigned 32-bit result, such as the connection timeout.
pub fn u32_from_json(j: &Json) -> (r: LsmResult<u32>)
    ensures
        ({
            let m = j.deep_view();
            match r {
                Ok(x) => model_int(m) == Some(x as int),
                Err(e) => (match model_int(m) {
                    Some(i) => !(0 <= i <= u32::MAX),
                    None => true,
                }) && e.kind == LsmErrorKind::TransportSerialization,
            }
        }),
{
    match j.as_u64() {
        Some(x) if x <= u32::MAX as u64 => Ok(x as u32),
        _ => Err(
            LsmError::with_msg(LsmErrorKind::TransportSerialization, "expected a 32-bit integer"),
        ),
    }
}

/// Reads a signed 32-bit result, such as the block size for ranged
/// replication.
pub fn i32_from_json(j: &Json) -> (r: LsmResult<i32>)
    ensures
        ({
            let m = j.deep_view();
            match r {
                Ok(x) => model_int(m) == Some(x as int),
                Err(e) => (match model_int(m) {
                    Some(i) => !(i32::MIN <= i <= i32::MAX),
                    None => true,
                }) && e.kind == LsmErrorKind::TransportSerialization,
            }
        }),
{
    match j.as_i64() {
        Some(x) if i32::MIN as i64 <= x && x <= i32::MAX as i64 => Ok(x as i32),
        _ => Err(
            LsmError::with_msg(LsmErrorKind::TransportSerialization, "expected a 32-bit integer"),
        ),
    }
}

/// Reads a boolean result, such as a child-dependency query's answer.
pub fn bool_from_json(j: &Json) -> (r: LsmResult<bool>)
    ensures
        ({
            let m = j.deep_view();
            match r {
                Ok(b) => m == JsonModel::Bool(b),
                Err(e) => !(m is Bool) && e.kind == LsmErrorKind::TransportSerialization,
            }
        }),
{
    match j.as_bool() {
        Some(b) => Ok(b),
        None => Err(
            LsmError::with_msg(LsmErrorKind::TransportSerialization, "expected a boolean"),
        ),
    }
}

/// Reads a result that must be null, as the policy setters return.
pub fn null_from_json(j: &Json) -> (r: LsmResult<()>)
    ensures
        ({
            let m = j.deep_view();
            match r {
                Ok(()) => m is Null,
                Err(e) => !(m is Null) && e.kind == LsmErrorKind::TransportSerialization,
            }
        }),
{
    if j.is_null() {
        Ok(())
    } else {
        Err(LsmError::with_msg(LsmErrorKind::TransportSerialization, "expected a null result"))
    }
}

/// Reads the supported NFS authentication types: an array of strings.
pub fn auth_types_from_json(j: &Json) -> (r: LsmResult<Vec<String>>)
    ensures
        ({
            let m = j.deep_view();
            match r {
                Ok(v) => arr_strs_valid(m) && v@.len() == m->Arr_0.len() && forall|i: int|
                    0 <= i < v@.len() ==> (#[trigger] v@[i])@ == arr_str_at(m, i),
                Err(e) => !arr_strs_valid(m) && e.kind == LsmErrorKind::TransportSerialization,
            }
        }),
{
    match strings_from_json(j) {
        Some(v) => Ok(v),
        None => Err(
            LsmError::with_msg(
                LsmErrorKind::TransportSerialization,
                "expected an array of strings",
            ),
        ),
    }
}

/// Reads a `plugin_info` result: a description and a version. A result
/// that is not an array of strings is a serialization failure; one with
/// fewer than two entries broke the protocol.
pub fn plugin_info_from_json(j: &Json, plugin_name: String) -> (r: LsmResult<PluginInfo>)
    ensures
        ({
            let m = j.deep_view();
            match r {
                Ok(pi) => arr_strs_valid(m) && m->Arr_0.len() >= 2 && pi.description@ == arr_str_at(
                    m,
                    0,
                ) && pi.version@ == arr_str_at(m, 1) && pi.name@ == plugin_name@,
                Err(e) => {
                    if !arr_strs_valid(m) {
                        e.kind == LsmErrorKind::TransportSerialization
                    } else {
                        m->Arr_0.len() < 2 && e.kind == LsmErrorKind::PluginBug
                    }
                },
            }
        }),
{
    let data = match strings_from_json(j) {
        Some(v) => v,
        None => {
            return Err(
                LsmError::with_msg(
                    LsmErrorKind::TransportSerialization,
                    "expected an array of strings",
                ),
            );
        },
    };
    if data.len() < 2 {
        return Err(unexpected_reply());
    }
    Ok(PluginInfo { version: data[1].clone(), description: data[0].clone(), name: plugin_name })
}

/// Decodes a `systems` listing result.
pub fn systems_from_json(j: &Json) -> (r: LsmResult<Vec<System>>)
    ensures
        ({
            let m = j.deep_view();
            match r {
                Ok(v) => m is Arr && v@.len() == m->Arr_0.len() && forall|i: int|
                    0 <= i < v@.len() ==> System::json_valid(#[trigger] m->Arr_0[i])
                        && v@[i].matches_model(m->Arr_0[i]),
                Err(e) => (!(m is Arr) || exists|i: int|
                    0 <= i < m->Arr_0.len() && !System::json_valid(#[trigger] m->Arr_0[i]))
                    && e.kind == LsmErrorKind::TransportSerialization,
            }
        }),
{
    let items = match j {
        Json::Arr(items) => items,
        _ => {
            return Err(
                LsmError::with_msg(
                    LsmErrorKind::TransportSerialization,
                    "expected an array of entities",
                ),
            );
        },
    };
    let ghost am = arr_model(items@);
    let mut out: Vec<System> = Vec::new();
    let n = items.len();
    let mut i: usize = 0;
    while i < n
        invariant
            n == items@.len(),
            i <= n,
            am == arr_model(items@),
            j.deep_view() == JsonModel::Arr(am),
            out@.len() == i,
            forall|k: int| 0 <= k < i ==> System::json_valid(#[trigger] am[k]),
            forall|k: int| 0 <= k < i ==> (#[trigger] out@[k]).matches_model(am[k]),
        decreases n - i,
    {
        proof {
            assert(am[i as int] == json_model(items@[i as int]));
        }
        match System::from_json(&items[i]) {
            Ok(v) => {
                out.push(v);
            },
            Err(e) => {
                proof {
                    assert(j.deep_view()->Arr_0 == am);
                    assert(!System::json_valid(j.deep_view()->Arr_0[i as int]));
                }
                return Err(e);
            },
        }
        i += 1;
    }
    Ok(out)
}

/// Decodes a `volumes` listing result.
pub fn volumes_from_json(j: &Json) -> (r: LsmResult<Vec<Volume>>)
    ensures
        ({
            let m = j.deep_view();
            match r {
                Ok(v) => m is Arr && v@.len() == m->Arr_0.len() && forall|i: int|
                    0 <= i < v@.len() ==> Volume::json_valid(#[trigger] m->Arr_0[i])
                        && v@[i].matches_model(m->Arr_0[i]),
                Err(e) => (!(m is Arr) || exists|i: int|
                    0 <= i < m->Arr_0.len() && !Volume::json_valid(#[trigger] m->Arr_0[i]))
                    && e.kind == LsmErrorKind::TransportSerialization,
            }
        }),
{
    let items = match j {
        Json::Arr(items) => items,
        _ => {
            return Err(
                LsmError::with_msg(
                    LsmErrorKind::TransportSerialization,
                    "expected an array of entities",
                ),
            );
        },
    };
    let ghost am = arr_model(items@);
    let mut out: Vec<Volume> = Vec::new();
    let n = items.len();
    let mut i: usize = 0;
    while i < n
        invariant
            n == items@.len(),
            i <= n,
            am == arr_model(items@),
            j.deep_view() == JsonModel::Arr(am),
            out@.len() == i,
            forall|k: int| 0 <= k < i ==> Volume::json_valid(#[trigger] am[k]),
            forall|k: int| 0 <= k < i ==> (#[trigger] out@[k]).matches_model(am[k]),
        decreases n - i,
    {
        proof {
            assert(am[i as int] == json_model(items@[i as int]));
        }
        match Volume::from_json(&items[i]) {
            Ok(v) => {
                out.push(v);
            },
            Err(e) => {
                proof {
                    assert(j.deep_view()->Arr_0 == am);
                    assert(!Volume::json_valid(j.deep_view()->Arr_0[i as int]));
                }
                return Err(e);
            },
        }
        i += 1;
    }
    Ok(out)
}

/// Decodes a `pools` listing result.
pub fn pools_from_json(j: &Json) -> (r: LsmResult<Vec<Pool>>)
    ensures
        ({
            let m = j.deep_view();
            match r {
                Ok(v) => m is Arr && v@.len() == m->Arr_0.len() && forall|i: int|
                    0 <= i < v@.len() ==> Pool::json_valid(#[trigger] m->Arr_0[i])
                        && v@[i].matches_model(m->Arr_0[i]),
                Err(e) => (!(m is Arr) || exists|i: int|
                    0 <= i < m->Arr_0.len() && !Pool::json_valid(#[trigger] m->Arr_0[i]))
                    && e.kind == LsmErrorKind::TransportSerialization,
            }
        }),
{
    let items = match j {
        Json::Arr(items) => items,
        _ => {
            return Err(
                LsmError::with_msg(
                    LsmErrorKind::TransportSerialization,
                    "expected an array of entities",
                ),
            );
        },
    };
    let ghost am = arr_model(items@);
    let mut out: Vec<Pool> = Vec::new();
    let n = items.len();
    let mut i: usize = 0;
    while i < n
        invariant
            n == items@.len(),
            i <= n,
            am == arr_model(items@),
            j.deep_view() == JsonModel::Arr(am),
            out@.len() == i,
            forall|k: int| 0 <= k < i ==> Pool::json_valid(#[trigger] am[k]),
            forall|k: int| 0 <= k < i ==> (#[trigger] out@[k]).matches_model(am[k]),
        decreases n - i,
    {
        proof {
            assert(am[i as int] == json_model(items@[i as int]));
        }
        match Pool::from_json(&items[i]) {
            Ok(v) => {
                out.push(v);
            },
            Err(e) => {
                proof {
                    assert(j.deep_view()->Arr_0 == am);
                    assert(!Pool::json_valid(j.deep_view()->Arr_0[i as int]));
                }
                return Err(e);
            },
        }
        i += 1;
    }
    Ok(out)
}

/// Decodes a `disks` listing result.
pub fn disks_from_json(j: &Json) -> (r: LsmResult<Vec<Disk>>)
    ensures
        ({
            let m = j.deep_view();
            match r {
                Ok(v) => m is Arr && v@.len() == m->Arr_0.len() && forall|i: int|
                    0 <= i < v@.len() ==> Disk::json_valid(#[trigger] m->Arr_0[i])
                        && v@[i].matches_model(m->Arr_0[i]),
                Err(e) => (!(m is Arr) || exists|i: int|
                    0 <= i < m->Arr_0.len() && !Disk::json_valid(#[trigger] m->Arr_0[i]))
                    && e.kind == LsmErrorKind::TransportSerialization,
            }
        }),
{
    let items = match j {
        Json::Arr(items) => items,
        _ => {
            return Err(
                LsmError::with_msg(
                    LsmErrorKind::TransportSerialization,
                    "expected an array of entities",
                ),
            );
        },
    };
    let ghost am = arr_model(items@);
    let mut out: Vec<Disk> = Vec::new();
    let n = items.len();
    let mut i: usize = 0;
    while i < n
        invariant
            n == items@.len(),
            i <= n,
            am == arr_model(items@),
            j.deep_view() == JsonModel::Arr(am),
            out@.len() == i,
            forall|k: int| 0 <= k < i ==> Disk::json_valid(#[trigger] am[k]),
            forall|k: int| 0 <= k < i ==> (#[trigger] out@[k]).matches_model(am[k]),
        decreases n - i,
    {
        proof {
            assert(am[i as int] == json_model(items@[i as int]));
        }
        match Disk::from_json(&items[i]) {
            Ok(v) => {
                out.push(v);
            },
            Err(e) => {
                proof {
                    assert(j.deep_view()->Arr_0 == am);
                    assert(!Disk::json_valid(j.deep_view()->Arr_0[i as int]));
                }
                return Err(e);
            },
        }
        i += 1;
    }
    Ok(out)
}

/// Decodes a `fs` listing result.
pub fn filesystems_from_json(j: &Json) -> (r: LsmResult<Vec<FileSystem>>)
    ensures
        ({
            let m = j.deep_view();
            match r {
                Ok(v) => m is Arr && v@.len() == m->Arr_0.len() && forall|i: int|
                    0 <= i < v@.len() ==> FileSystem::json_valid(#[trigger] m->Arr_0[i])
                        && v@[i].matches_model(m->Arr_0[i]),
                Err(e) => (!(m is Arr) || exists|i: int|
                    0 <= i < m->Arr_0.len() && !FileSystem::json_valid(#[trigger] m->Arr_0[i]))
                    && e.kind == LsmErrorKind::TransportSerialization,
            }
        }),
{
    let items = match j {
        Json::Arr(items) => items,
        _ => {
            return Err(
                LsmError::with_msg(
                    LsmErrorKind::TransportSerialization,
                    "expected an array of entities",
                ),
            );
        },
    };
    let ghost am = arr_model(items@);
    let mut out: Vec<FileSystem> = Vec::new();
    let n = items.len();
    let mut i: usize = 0;
    while i < n
        invariant
            n == items@.len(),
            i <= n,
            am == arr_model(items@),
            j.deep_view() == JsonModel::Arr(am),
            out@.len() == i,
            forall|k: int| 0 <= k < i ==> FileSystem::json_valid(#[trigger] am[k]),
            forall|k: int| 0 <= k < i ==> (#[trigger] out@[k]).matches_model(am[k]),
        decreases n - i,
    {
        proof {
            assert(am[i as int] == json_model(items@[i as int]));
        }
        match FileSystem::from_json(&items[i]) {
            Ok(v) => {
                out.push(v);
            },
            Err(e) => {
                proof {
                    assert(j.deep_view()->Arr_0 == am);
                    assert(!FileSystem::json_valid(j.deep_view()->Arr_0[i as int]));
                }
                return Err(e);
            },
        }
        i += 1;
    }
    Ok(out)
}

/// Decodes a `fs_snapshots` listing result.
pub fn fs_snapshots_from_json(j: &Json) -> (r: LsmResult<Vec<FileSystemSnapShot>>)
    ensures
        ({
            let m = j.deep_view();
            match r {
                Ok(v) => m is Arr && v@.len() == m->Arr_0.len() && forall|i: int|
                    0 <= i < v@.len() ==> FileSystemSnapShot::json_valid(#[trigger] m->Arr_0[i])
                        && v@[i].matches_model(m->Arr_0[i]),
                Err(e) => (!(m is Arr) || exists|i: int|
                    0 <= i < m->Arr_0.len() && !FileSystemSnapShot::json_valid(#[trigger] m->Arr_0[i]))
                    && e.kind == LsmErrorKind::TransportSerialization,
            }
        }),
{
    let items = match j {
        Json::Arr(items) => items,
        _ => {
            return Err(
                LsmError::with_msg(
                    LsmErrorKind::TransportSerialization,
                    "expected an array of entities",
                ),
            );
        },
    };
    let ghost am = arr_model(items@);
    let mut out: Vec<FileSystemSnapShot> = Vec::new();
    let n = items.len();
    let mut i: usize = 0;
    while i < n
        invariant
            n == items@.len(),
            i <= n,
            am == arr_model(items@),
            j.deep_view() == JsonModel::Arr(am),
            out@.len() == i,
            forall|k: int| 0 <= k < i ==> FileSystemSnapShot::json_valid(#[trigger] am[k]),
            forall|k: int| 0 <= k < i ==> (#[trigger] out@[k]).matches_model(am[k]),
        decreases n - i,
    {
        proof {
            assert(am[i as int] == json_model(items@[i as int]));
        }
        match FileSystemSnapShot::from_json(&items[i]) {
            Ok(v) => {
                out.push(v);
            },
            Err(e) => {
                proof {
                    assert(j.deep_view()->Arr_0 == am);
                    assert(!FileSystemSnapShot::json_valid(j.deep_view()->Arr_0[i as int]));
                }
                return Err(e);
            },
        }
        i += 1;
    }
    Ok(out)
}

/// Decodes a `exports` listing result.
pub fn nfs_exports_from_json(j: &Json) -> (r: LsmResult<Vec<NfsExport>>)
    ensures
        ({
            let m = j.deep_view();
            match r {
                Ok(v) => m is Arr && v@.len() == m->Arr_0.len() && forall|i: int|
                    0 <= i < v@.len() ==> NfsExport::json_valid(#[trigger] m->Arr_0[i])
                        && v@[i].matches_model(m->Arr_0[i]),
                Err(e) => (!(m is Arr) || exists|i: int|
                    0 <= i < m->Arr_0.len() && !NfsExport::json_valid(#[trigger] m->Arr_0[i]))
                    && e.kind == LsmErrorKind::TransportSerialization,
            }
        }),
{
    let items = match j {
        Json::Arr(items) => items,
        _ => {
            return Err(
                LsmError::with_msg(
                    LsmErrorKind::TransportSerialization,
                    "expected an array of entities",
                ),
            );
        },
    };
    let ghost am = arr_model(items@);
    let mut out: Vec<NfsExport> = Vec::new();
    let n = items.len();
    let mut i: usize = 0;
    while i < n
        invariant
            n == items@.len(),
            i <= n,
            am == arr_model(items@),
            j.deep_view() == JsonModel::Arr(am),
            out@.len() == i,
            forall|k: int| 0 <= k < i ==> NfsExport::json_valid(#[trigger] am[k]),
            forall|k: int| 0 <= k < i ==> (#[trigger] out@[k]).matches_model(am[k]),
        decreases n - i,
    {
        proof {
            assert(am[i as int] == json_model(items@[i as int]));
        }
        match NfsExport::from_json(&items[i]) {
            Ok(v) => {
                out.push(v);
            },
            Err(e) => {
                proof {
                    assert(j.deep_view()->Arr_0 == am);
                    assert(!NfsExport::json_valid(j.deep_view()->Arr_0[i as int]));
                }
                return Err(e);
            },
        }
        i += 1;
    }
    Ok(out)
}

/// Decodes a `access_groups` listing result.
pub fn access_groups_from_json(j: &Json) -> (r: LsmResult<Vec<AccessGroup>>)
    ensures
        ({
            let m = j.deep_view();
            match r {
                Ok(v) => m is Arr && v@.len() == m->Arr_0.len() && forall|i: int|
                    0 <= i < v@.len() ==> AccessGroup::json_valid(#[trigger] m->Arr_0[i])
                        && v@[i].matches_model(m->Arr_0[i]),
                Err(e) => (!(m is Arr) || exists|i: int|
                    0 <= i < m->Arr_0.len() && !AccessGroup::json_valid(#[trigger] m->Arr_0[i]))
                    && e.kind == LsmErrorKind::TransportSerialization,
            }
        }),
{
    let items = match j {
        Json::Arr(items) => items,
        _ => {
            return Err(
                LsmError::with_msg(
                    LsmErrorKind::TransportSerialization,
                    "expected an array of entities",
                ),
            );
        },
    };
    let ghost am = arr_model(items@);
    let mut out: Vec<AccessGroup> = Vec::new();
    let n = items.len();
    let mut i: usize = 0;
    while i < n
        invariant
            n == items@.len(),
            i <= n,
            am == arr_model(items@),
            j.deep_view() == JsonModel::Arr(am),
            out@.len() == i,
            forall|k: int| 0 <= k < i ==> AccessGroup::json_valid(#[trigger] am[k]),
            forall|k: int| 0 <= k < i ==> (#[trigger] out@[k]).matches_model(am[k]),
        decreases n - i,
    {
        proof {
            assert(am[i as int] == json_model(items@[i as int]));
        }
        match AccessGroup::from_json(&items[i]) {
            Ok(v) => {
                out.push(v);
            },
            Err(e) => {
                proof {
                    assert(j.deep_view()->Arr_0 == am);
                    assert(!AccessGroup::json_valid(j.deep_view()->Arr_0[i as int]));
                }
                return Err(e);
            },
        }
        i += 1;
    }
    Ok(out)
}

/// Decodes a `target_ports` listing result.
pub fn target_ports_from_json(j: &Json) -> (r: LsmResult<Vec<TargetPort>>)
    ensures
        ({
            let m = j.deep_view();
            match r {
                Ok(v) => m is Arr && v@.len() == m->Arr_0.len() && forall|i: int|
                    0 <= i < v@.len() ==> TargetPort::json_valid(#[trigger] m->Arr_0[i])
                        && v@[i].matches_model(m->Arr_0[i]),
                Err(e) => (!(m is Arr) || exists|i: int|
                    0 <= i < m->Arr_0.len() && !TargetPort::json_valid(#[trigger] m->Arr_0[i]))
                    && e.kind == LsmErrorKind::TransportSerialization,
            }
        }),
{
    let items = match j {
        Json::Arr(items) => items,
        _ => {
            return Err(
                LsmError::with_msg(
                    LsmErrorKind::TransportSerialization,
                    "expected an array of entities",
                ),
            );
        },
    };
    let ghost am = arr_model(items@);
    let mut out: Vec<TargetPort> = Vec::new();
    let n = items.len();
    let mut i: usize = 0;
    while i < n
        invariant
            n == items@.len(),
            i <= n,
            am == arr_model(items@),
            j.deep_view() == JsonModel::Arr(am),
            out@.len() == i,
            forall|k: int| 0 <= k < i ==> TargetPort::json_valid(#[trigger] am[k]),
            forall|k: int| 0 <= k < i ==> (#[trigger] out@[k]).matches_model(am[k]),
        decreases n - i,
    {
        proof {
            assert(am[i as int] == json_model(items@[i as int]));
        }
        match TargetPort::from_json(&items[i]) {
            Ok(v) => {
                out.push(v);
            },
            Err(e) => {
                proof {
                    assert(j.deep_view()->Arr_0 == am);
                    assert(!TargetPort::json_valid(j.deep_view()->Arr_0[i as int]));
                }
                return Err(e);
            },
        }
        i += 1;
    }
    Ok(out)
}

/// Decodes a `batteries` listing result.
pub fn batteries_from_json(j: &Json) -> (r: LsmResult<Vec<Battery>>)
    ensures
        ({
            let m = j.deep_view();
            match r {
                Ok(v) => m is Arr && v@.len() == m->Arr_0.len() && forall|i: int|
                    0 <= i < v@.len() ==> Battery::json_valid(#[trigger] m->Arr_0[i])
                        && v@[i].matches_model(m->Arr_0[i]),
                Err(e) => (!(m is Arr) || exists|i: int|
                    0 <= i < m->Arr_0.len() && !Battery::json_valid(#[trigger] m->Arr_0[i]))
                    && e.kind == LsmErrorKind::TransportSerialization,
            }
        }),
{
    let items = match j {
        Json::Arr(items) => items,
        _ => {
            return Err(
                LsmError::with_msg(
                    LsmErrorKind::TransportSerialization,
                    "expected an array of entities",
                ),
            );
        },
    };
    let ghost am = arr_model(items@);
    let mut out: Vec<Battery> = Vec::new();
    let n = items.len();
    let mut i: usize = 0;
    while i < n
        invariant
            n == items@.len(),
            i <= n,
            am == arr_model(items@),
            j.deep_view() == JsonModel::Arr(am),
            out@.len() == i,
            forall|k: int| 0 <= k < i ==> Battery::json_valid(#[trigger] am[k]),
            forall|k: int| 0 <= k < i ==> (#[trigger] out@[k]).matches_model(am[k]),
        decreases n - i,
    {
        proof {
            assert(am[i as int] == json_model(items@[i as int]));
        }
        match Battery::from_json(&items[i]) {
            Ok(v) => {
                out.push(v);
            },
            Err(e) => {
                proof {
                    assert(j.deep_view()->Arr_0 == am);
                    assert(!Battery::json_valid(j.deep_view()->Arr_0[i as int]));
                }
                return Err(e);
            },
        }
        i += 1;
    }
    Ok(out)
}

/// The unsigned 32-bit value of a wire integer reinterpreted from its
/// signed form, as the RAID geometry fields are carried.
pub open spec fn u32_wrap(x: int) -> int {
    if x >= 0 {
        x
    } else {
        x + 0x1_0000_0000
    }
}

/// Reinterprets a signed 32-bit wire value as unsigned.
fn wrap_u32(x: i64) -> (r: u32)
    requires
        i32::MIN <= x <= i32::MAX,
    ensures
        r as int == u32_wrap(x as int),
{
    if x >= 0 {
        x as u32
    } else {
        (x + 4294967296i64) as u32
    }
}

/// Decodes a `volume_raid_info` result: five 32-bit values for RAID type,
/// strip size, disk count, and minimum and optimal I/O size. A result of
/// another shape is a serialization failure; one with the wrong count broke
/// the protocol.
pub fn vol_raid_info_from_json(j: &Json) -> (r: LsmResult<VolumeRaidInfo>)
    ensures
        ({
            let m = j.deep_view();
            match r {
                Ok(info) => {
                    &&& arr_ints_valid(m, i32::MIN as int, i32::MAX as int)
                    &&& m->Arr_0.len() == 5
                    &&& info.raid_type == raid_type_of_int(arr_int_at(m, 0))
                    &&& info.strip_size as int == u32_wrap(arr_int_at(m, 1))
                    &&& info.disk_count as int == u32_wrap(arr_int_at(m, 2))
                    &&& info.min_io_size as int == u32_wrap(arr_int_at(m, 3))
                    &&& info.opt_io_size as int == u32_wrap(arr_int_at(m, 4))
                },
                Err(e) => {
                    if !arr_ints_valid(m, i32::MIN as int, i32::MAX as int) {
                        e.kind == LsmErrorKind::TransportSerialization
                    } else {
                        m->Arr_0.len() != 5 && e.kind == LsmErrorKind::PluginBug
                    }
                },
            }
        }),
{
    let ints = match int_list_from_json(j, i32::MIN as i64, i32::MAX as i64) {
        Some(v) => v,
        None => {
            return Err(
                LsmError::with_msg(
                    LsmErrorKind::TransportSerialization,
                    "expected an array of 32-bit integers",
                ),
            );
        },
    };
    if ints.len() != 5 {
        return Err(unexpected_reply());
    }
    Ok(
        VolumeRaidInfo {
            raid_type: RaidType::from(ints[0] as i32),
            strip_size: wrap_u32(ints[1]),
            disk_count: wrap_u32(ints[2]),
            min_io_size: wrap_u32(ints[3]),
            opt_io_size: wrap_u32(ints[4]),
        },
    )
}

/// Decodes a `volume_raid_create_cap_get` result: the supported RAID types
/// and strip sizes.
pub fn vol_raid_create_cap_from_json(j: &Json) -> (r: LsmResult<(Vec<RaidType>, Vec<u32>)>)
    ensures
        ({
            let m = j.deep_view();
            match r {
                Ok((rts, sizes)) => {
                    &&& m is Arr
                    &&& m->Arr_0.len() == 2
                    &&& arr_ints_valid(m->Arr_0[0], i32::MIN as int, i32::MAX as int)
                    &&& arr_ints_valid(m->Arr_0[1], 0, u32::MAX as int)
                    &&& rts@.len() == m->Arr_0[0]->Arr_0.len()
                    &&& (forall|i: int|
                        0 <= i < rts@.len() ==> #[trigger] rts@[i] == raid_type_of_int(
                            arr_int_at(m->Arr_0[0], i),
                        ))
                    &&& sizes@.len() == m->Arr_0[1]->Arr_0.len()
                    &&& (forall|i: int|
                        0 <= i < sizes@.len() ==> #[trigger] sizes@[i] as int == arr_int_at(
                            m->Arr_0[1],
                            i,
                        ))
                },
                Err(e) => {
                    if !(m is Arr) || m->Arr_0.len() != 2 {
                        e.kind == LsmErrorKind::PluginBug
                    } else {
                        (!arr_ints_valid(m->Arr_0[0], i32::MIN as int, i32::MAX as int)
                            || !arr_ints_valid(m->Arr_0[1], 0, u32::MAX as int)) && e.kind
                            == LsmErrorKind::TransportSerialization
                    }
                },
            }
        }),
{
    let items = match j {
        Json::Arr(items) => items,
        _ => {
            return Err(unexpected_reply());
        },
    };
    if items.len() != 2 {
        return Err(unexpected_reply());
    }
    proof {
        assert(arr_model(items@)[0] == json_model(items@[0]));
        assert(arr_model(items@)[1] == json_model(items@[1]));
    }
    let raw_types = match int_list_from_json(&items[0], i32::MIN as i64, i32::MAX as i64) {
        Some(v) => v,
        None => {
            return Err(
                LsmError::with_msg(
                    LsmErrorKind::TransportSerialization,
                    "expected an array of 32-bit integers",
                ),
            );
        },
    };
    let raw_sizes = match int_list_from_json(&items[1], 0, u32::MAX as i64) {
        Some(v) => v,
        None => {
            return Err(
                LsmError::with_msg(
                    LsmErrorKind::TransportSerialization,
                    "expected an array of 32-bit integers",
                ),
            );
        },
    };
    let mut rts: Vec<RaidType> = Vec::new();
    let n = raw_types.len();
    let mut i: usize = 0;
    while i < n
        invariant
            n == raw_types@.len(),
            i <= n,
            forall|t: int|
                0 <= t < n ==> i32::MIN <= #[trigger] raw_types@[t] <= i32::MAX,
            rts@.len() == i,
            forall|k: int|
                0 <= k < i ==> #[trigger] rts@[k] == raid_type_of_int(raw_types@[k] as int),
        decreases n - i,
    {
        rts.push(RaidType::from(raw_types[i] as i32));
        i += 1;
    }
    let mut sizes: Vec<u32> = Vec::new();
    let sn = raw_sizes.len();
    let mut k: usize = 0;
    while k < sn
        invariant
            sn == raw_sizes@.len(),
            k <= sn,
            forall|t: int| 0 <= t < sn ==> 0 <= #[trigger] raw_sizes@[t] <= u32::MAX,
            sizes@.len() == k,
            forall|t: int| 0 <= t < k ==> #[trigger] sizes@[t] as int == raw_sizes@[t] as int,
        decreases sn - k,
    {
        sizes.push(raw_sizes[k] as u32);
        k += 1;
    }
    Ok((rts, sizes))
}

/// The write cache setting a wire code denotes.
pub open spec fn write_cache_setting_of(x: int) -> CachePolicy {
    if x == WRITE_CACHE_POLICY_WRITE_BACK as int {
        CachePolicy::Enabled
    } else if x == WRITE_CACHE_POLICY_WRITE_THROUGH as int {
        CachePolicy::Disabled
    } else if x == WRITE_CACHE_POLICY_AUTO as int {
        CachePolicy::Auto
    } else {
        CachePolicy::Unknown
    }
}

/// The write cache status a wire code denotes.
pub open spec fn write_cache_status_of(x: int) -> CachePolicy {
    if x == WRITE_CACHE_STATUS_WRITE_BACK as int {
        CachePolicy::Enabled
    } else if x == WRITE_CACHE_STATUS_WRITE_THROUGH as int {
        CachePolicy::Disabled
    } else {
        CachePolicy::Unknown
    }
}

/// The read cache setting or status a wire code denotes.
pub open spec fn read_cache_of(x: int) -> CachePolicy {
    if x == READ_CACHE_POLICY_ENABLED as int {
        CachePolicy::Enabled
    } else if x == READ_CACHE_POLICY_DISABLED as int {
        CachePolicy::Disabled
    } else {
        CachePolicy::Unknown
    }
}

/// The physical disk cache status a wire code denotes.
pub open spec fn phys_cache_of(x: int) -> CachePolicy {
    if x == PHYSICAL_DISK_CACHE_ENABLED as int {
        CachePolicy::Enabled
    } else if x == PHYSICAL_DISK_CACHE_DISABLED as int {
        CachePolicy::Disabled
    } else if x == PHYSICAL_DISK_CACHE_USE_DISK_SETTING as int {
        CachePolicy::UseDiskSetting
    } else {
        CachePolicy::Unknown
    }
}

/// Decodes a `volume_cache_info` result: five cache codes for the write
/// cache setting and status, the read cache setting and status, and the
/// physical disk cache. A result of another shape is a serialization
/// failure; one with the wrong count broke the protocol.
pub fn vol_cache_info_from_json(j: &Json) -> (r: LsmResult<VolumeCacheInfo>)
    ensures
        ({
            let m = j.deep_view();
            match r {
                Ok(info) => {
                    &&& arr_ints_valid(m, 0, u8::MAX as int)
                    &&& m->Arr_0.len() == 5
                    &&& info.write_cache_setting == write_cache_setting_of(arr_int_at(m, 0))
                    &&& info.write_cache_status == write_cache_status_of(arr_int_at(m, 1))
                    &&& info.read_cache_setting == read_cache_of(arr_int_at(m, 2))
                    &&& info.read_cache_status == read_cache_of(arr_int_at(m, 3))
                    &&& info.physical_disk_cache_status == phys_cache_of(arr_int_at(m, 4))
                },
                Err(e) => {
                    if !arr_ints_valid(m, 0, u8::MAX as int) {
                        e.kind == LsmErrorKind::TransportSerialization
                    } else {
                        m->Arr_0.len() != 5 && e.kind == LsmErrorKind::PluginBug
                    }
                },
            }
        }),
{
    let ints = match int_list_from_json(j, 0, u8::MAX as i64) {
        Some(v) => v,
        None => {
            return Err(
                LsmError::with_msg(
                    LsmErrorKind::TransportSerialization,
                    "expected an array of 8-bit integers",
                ),
            );
        },
    };
    if ints.len() != 5 {
        return Err(unexpected_reply());
    }
    let write_cache_setting = if ints[0] == WRITE_CACHE_POLICY_WRITE_BACK as i64 {
        CachePolicy::Enabled
    } else if ints[0] == WRITE_CACHE_POLICY_WRITE_THROUGH as i64 {
        CachePolicy::Disabled
    } else if ints[0] == WRITE_CACHE_POLICY_AUTO as i64 {
        CachePolicy::Auto
    } else {
        CachePolicy::Unknown
    };
    let write_cache_status = if ints[1] == WRITE_CACHE_STATUS_WRITE_BACK as i64 {
        CachePolicy::Enabled
    } else if ints[1] == WRITE_CACHE_STATUS_WRITE_THROUGH as i64 {
        CachePolicy::Disabled
    } else {
        CachePolicy::Unknown
    };
    let read_cache_setting = if ints[2] == READ_CACHE_POLICY_ENABLED as i64 {
        CachePolicy::Enabled
    } else if ints[2] == READ_CACHE_POLICY_DISABLED as i64 {
        CachePolicy::Disabled
    } else {
        CachePolicy::Unknown
    };
    let read_cache_status = if ints[3] == READ_CACHE_STATUS_ENABLED as i64 {
        CachePolicy::Enabled
    } else if ints[3] == READ_CACHE_STATUS_DISABLED as i64 {
        CachePolicy::Disabled
    } else {
        CachePolicy::Unknown
    };
    let physical_disk_cache_status = if ints[4] == PHYSICAL_DISK_CACHE_ENABLED as i64 {
        CachePolicy::Enabled
    } else if ints[4] == PHYSICAL_DISK_CACHE_DISABLED as i64 {
        CachePolicy::Disabled
    } else if ints[4] == PHYSICAL_DISK_CACHE_USE_DISK_SETTING as i64 {
        CachePolicy::UseDiskSetting
    } else {
        CachePolicy::Unknown
    };
    Ok(
        VolumeCacheInfo {
            write_cache_setting,
            write_cache_status,
            read_cache_setting,
            read_cache_status,
            physical_disk_cache_status,
        },
    )
}

/// Decodes the raw parts of a `pool_member_info` result: the RAID type,
/// the member type code, and the member IDs.
pub fn pool_member_info_parse(j: &Json) -> (r: LsmResult<(RaidType, u64, Vec<String>)>)
    ensures
        ({
            let m = j.deep_view();
            match r {
                Ok((rt, mt, ids)) => {
                    &&& m is Arr
                    &&& m->Arr_0.len() == 3
                    &&& (model_int(m->Arr_0[0]) matches Some(x) && i32::MIN <= x <= i32::MAX && rt
                        == raid_type_of_int(x))
                    &&& (model_int(m->Arr_0[1]) matches Some(y) && 0 <= y <= u32::MAX && mt as int
                        == y)
                    &&& arr_strs_valid(m->Arr_0[2])
                    &&& ids@.len() == m->Arr_0[2]->Arr_0.len()
                    &&& (forall|i: int|
                        0 <= i < ids@.len() ==> (#[trigger] ids@[i])@ == arr_str_at(
                            m->Arr_0[2],
                            i,
                        ))
                },
                Err(e) => {
                    if !(m is Arr) || m->Arr_0.len() != 3 {
                        e.kind == LsmErrorKind::PluginBug
                    } else {
                        (!(model_int(m->Arr_0[0]) matches Some(x) && i32::MIN <= x <= i32::MAX)
                            || !(model_int(m->Arr_0[1]) matches Some(y) && 0 <= y <= u32::MAX)
                            || !arr_strs_valid(m->Arr_0[2])) && e.kind
                            == LsmErrorKind::TransportSerialization
                    }
                },
            }
        }),
{
    let items = match j {
        Json::Arr(items) => items,
        _ => {
            return Err(unexpected_reply());
        },
    };
    if items.len() != 3 {
        return Err(unexpected_reply());
    }
    proof {
        assert(j.deep_view()->Arr_0 == arr_model(items@));
        assert(arr_model(items@)[0] == json_model(items@[0]));
        assert(arr_model(items@)[1] == json_model(items@[1]));
        assert(arr_model(items@)[2] == json_model(items@[2]));
    }
    let raid_raw = match items[0].as_i64() {
        Some(x) if i32::MIN as i64 <= x && x <= i32::MAX as i64 => x,
        _ => {
            return Err(
                LsmError::with_msg(
                    LsmErrorKind::TransportSerialization,
                    "expected a 32-bit RAID type",
                ),
            );
        },
    };
    let member_type = match items[1].as_u64() {
        Some(y) if y <= u32::MAX as u64 => y,
        _ => {
            return Err(
                LsmError::with_msg(
                    LsmErrorKind::TransportSerialization,
                    "expected a 32-bit member type",
                ),
            );
        },
    };
    let ids = match strings_from_json(&items[2]) {
        Some(v) => v,
        None => {
            return Err(
                LsmError::with_msg(
                    LsmErrorKind::TransportSerialization,
                    "expected an array of member IDs",
                ),
            );
        },
    };
    Ok((RaidType::from(raid_raw as i32), member_type, ids))
}

/// The disks whose IDs are in the member list, in order, as pool members.
pub open spec fn disk_members(ids: Seq<String>, ds: Seq<Disk>) -> Seq<PoolMember>
    decreases ds.len(),
{
    if ds.len() == 0 {
        Seq::empty()
    } else {
        let rest = disk_members(ids, ds.drop_last());
        if seq_contains_str(ids, ds.last().id@) {
            rest.push(PoolMember::Disk(ds.last()))
        } else {
            rest
        }
    }
}

/// The pools whose IDs are in the member list, in order, as pool members.
pub open spec fn pool_members_of(ids: Seq<String>, ps: Seq<Pool>) -> Seq<PoolMember>
    decreases ps.len(),
{
    if ps.len() == 0 {
        Seq::empty()
    } else {
        let rest = pool_members_of(ids, ps.drop_last());
        if seq_contains_str(ids, ps.last().id@) {
            rest.push(PoolMember::Pool(ps.last()))
        } else {
            rest
        }
    }
}

/// Picks the pool's members out of the listed disks or pools: the entities
/// whose IDs the daemon named, in listing order. An unknown member type
/// yields no members.
pub fn pool_members_filter(
    member_type: u64,
    member_ids: &Vec<String>,
    disks: Vec<Disk>,
    pools: Vec<Pool>,
) -> (r: Vec<PoolMember>)
    ensures
        r@ == (if member_type == POOL_MEMBER_TYPE_DISK {
            disk_members(member_ids@, disks@)
        } else if member_type == POOL_MEMBER_TYPE_POOL {
            pool_members_of(member_ids@, pools@)
        } else {
            Seq::<PoolMember>::empty()
        }),
{
    let mut out: Vec<PoolMember> = Vec::new();
    if member_type == POOL_MEMBER_TYPE_DISK {
        let ghost orig = disks@;
        let mut disks = disks;
        let mut i: usize = 0;
        let n = disks.len();
        while i < n
            invariant
                n == orig.len(),
                i <= n,
                disks@ == orig.skip(i as int),
                out@ == disk_members(member_ids@, orig.take(i as int)),
            decreases n - i,
        {
            let d = disks.remove(0);
            proof {
                assert(d == orig[i as int]);
                assert(disks@ =~= orig.skip(i as int + 1));
                assert(orig.take(i as int + 1).drop_last() =~= orig.take(i as int));
                assert(orig.take(i as int + 1).last() == orig[i as int]);
            }
            if str_vec_contains(member_ids, d.id.as_str()) {
                out.push(PoolMember::Disk(d));
            }
            i += 1;
        }
        proof {
            assert(orig.take(n as int) =~= orig);
        }
    } else if member_type == POOL_MEMBER_TYPE_POOL {
        let ghost orig = pools@;
        let mut pools = pools;
        let mut i: usize = 0;
        let n = pools.len();
        while i < n
            invariant
                n == orig.len(),
                i <= n,
                pools@ == orig.skip(i as int),
                out@ == pool_members_of(member_ids@, orig.take(i as int)),
            decreases n - i,
        {
            let p = pools.remove(0);
            proof {
                assert(p == orig[i as int]);
                assert(pools@ =~= orig.skip(i as int + 1));
                assert(orig.take(i as int + 1).drop_last() =~= orig.take(i as int));
                assert(orig.take(i as int + 1).last() == orig[i as int]);
            }
            if str_vec_contains(member_ids, p.id.as_str()) {
                out.push(PoolMember::Pool(p));
            }
            i += 1;
        }
        proof {
            assert(orig.take(n as int) =~= orig);
        }
    }
    out
}

} // verus!
