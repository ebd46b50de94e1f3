//! What a deployment's metadata says about how the service was built and run.
use crate::json::{json_of, members_of, object_member, value_member, Json};
use serde_json::Value;
use vstd::prelude::*;

verus! {

/// The settings that deployment metadata can hold.
pub struct Manifest {
    /// The image that was deployed.
    pub image: Option<String>,
    pub builder: Option<String>,
    pub build_command: Option<String>,
    pub nixpacks_version: Option<String>,
    pub dockerfile_path: Option<String>,
    pub nixpacks_config_path: Option<String>,
    pub start_command: Option<String>,
    pub pre_deploy_command: Option<String>,
    pub num_replicas: Option<i32>,
    pub healthcheck_path: Option<String>,
    pub healthcheck_timeout: Option<i32>,
    pub restart_policy_type: Option<String>,
    pub restart_policy_max_retries: Option<i32>,
    pub cron_schedule: Option<String>,
    pub region: Option<String>,
    pub runtime: Option<String>,
    pub sleep_application: Option<bool>,
}

/// The contents of a [`Manifest`].
pub struct ManifestView {
    pub image: Option<Seq<char>>,
    pub builder: Option<Seq<char>>,
    pub build_command: Option<Seq<char>>,
    pub nixpacks_version: Option<Seq<char>>,
    pub dockerfile_path: Option<Seq<char>>,
    pub nixpacks_config_path: Option<Seq<char>>,
    pub start_command: Option<Seq<char>>,
    pub pre_deploy_command: Option<Seq<char>>,
    pub num_replicas: Option<i32>,
    pub healthcheck_path: Option<Seq<char>>,
    pub healthcheck_timeout: Option<i32>,
    pub restart_policy_type: Option<Seq<char>>,
    pub restart_policy_max_retries: Option<i32>,
    pub cron_schedule: Option<Seq<char>>,
    pub region: Option<Seq<char>>,
    pub runtime: Option<Seq<char>>,
    pub sleep_application: Option<bool>,
}

impl DeepView for Manifest {
    type V = ManifestView;

    open spec fn deep_view(&self) -> ManifestView {
        ManifestView {
            image: self.image.deep_view(),
            builder: self.builder.deep_view(),
            build_command: self.build_command.deep_view(),
            nixpacks_version: self.nixpacks_version.deep_view(),
            dockerfile_path: self.dockerfile_path.deep_view(),
            nixpacks_config_path: self.nixpacks_config_path.deep_view(),
            start_command: self.start_command.deep_view(),
            pre_deploy_command: self.pre_deploy_command.deep_view(),
            num_replicas: self.num_replicas,
            healthcheck_path: self.healthcheck_path.deep_view(),
            healthcheck_timeout: self.healthcheck_timeout,
            restart_policy_type: self.restart_policy_type.deep_view(),
            restart_policy_max_retries: self.restart_policy_max_retries,
            cron_schedule: self.cron_schedule.deep_view(),
            region: self.region.deep_view(),
            runtime: self.runtime.deep_view(),
            sleep_application: self.sleep_application,
        }
    }
}

/// The member called `name` of what may be an object.
pub open spec fn at(j: Option<Json>, name: Seq<char>) -> Option<Json> {
    match j {
        Some(value) => value.member(name),
        None => None,
    }
}

/// The text, if this is a string.
pub open spec fn text(j: Option<Json>) -> Option<Seq<char>> {
    match j {
        Some(Json::Text(t)) => Some(t),
        _ => None,
    }
}

/// The 32-bit number that is congruent to `n`.
pub open spec fn narrowed(n: int) -> i32 {
    ((n + 0x8000_0000) % 0x1_0000_0000 - 0x8000_0000) as i32
}

/// The number in 32 bits, if this is an integer of at most 64 bits.
pub open spec fn number(j: Option<Json>) -> Option<i32> {
    match j {
        Some(Json::Integer(n)) => if i64::MIN <= n <= i64::MAX {
            Some(narrowed(n))
        } else {
            None
        },
        _ => None,
    }
}

/// The truth value, if this is a boolean.
pub open spec fn flag(j: Option<Json>) -> Option<bool> {
    match j {
        Some(Json::Bool(b)) => Some(b),
        _ => None,
    }
}

/// The settings in deployment metadata: the image at its top, the rest under
/// `serviceManifest`, in `build` and `deploy`. A setting that is missing, or is
/// not of the kind it should be, is left out.
pub open spec fn manifest_of(meta: Option<Json>) -> ManifestView {
    let build = at(at(meta, "serviceManifest"@), "build"@);
    let deploy = at(at(meta, "serviceManifest"@), "deploy"@);
    ManifestView {
        image: text(at(meta, "image"@)),
        builder: text(at(build, "builder"@)),
        build_command: text(at(build, "buildCommand"@)),
        nixpacks_version: text(at(build, "nixpacksVersion"@)),
        dockerfile_path: text(at(build, "dockerfilePath"@)),
        nixpacks_config_path: text(at(build, "nixpacksConfigPath"@)),
        start_command: text(at(deploy, "startCommand"@)),
        pre_deploy_command: text(at(deploy, "preDeployCommand"@)),
        num_replicas: number(at(deploy, "numReplicas"@)),
        healthcheck_path: text(at(deploy, "healthcheckPath"@)),
        healthcheck_timeout: number(at(deploy, "healthcheckTimeout"@)),
        restart_policy_type: text(at(deploy, "restartPolicyType"@)),
        restart_policy_max_retries: number(at(deploy, "restartPolicyMaxRetries"@)),
        cron_schedule: text(at(deploy, "cronSchedule"@)),
        region: text(at(deploy, "region"@)),
        runtime: text(at(deploy, "runtime"@)),
        sleep_application: flag(at(deploy, "sleepApplication"@)),
    }
}

/// What `serde_json` was handed, if anything.
pub open spec fn json_in(v: Option<&Value>) -> Option<Json> {
    match v {
        Some(value) => Some(json_of(*value)),
        None => None,
    }
}

/// The object that `serde_json` was handed, if any.
pub open spec fn object_in(m: Option<&serde_json::Map<String, Value>>) -> Option<Json> {
    match m {
        Some(members) => Some(Json::Object(members_of(*members))),
        None => None,
    }
}

/// `n` cut down to its low 32 bits.
pub fn narrow(n: i64) -> (r: i32)
    ensures
        r == narrowed(n as int),
{
    assert((#[verifier::truncate]
    (n as i32)) == (n + 0x8000_0000) % 0x1_0000_0000 - 0x8000_0000) by (bit_vector);
    #[verifier::truncate]
    (n as i32)
}

/// The member called `name`.
fn member_at<'a>(v: Option<&'a Value>, name: &str) -> (r: Option<&'a Value>)
    ensures
        json_in(r) == at(json_in(v), name@),
{
    match v {
        Some(value) => value_member(value, name),
        None => None,
    }
}

/// The member called `name` of an object.
fn entry<'a>(object: Option<&'a serde_json::Map<String, Value>>, name: &str) -> (r: Option<
    &'a Value,
>)
    ensures
        json_in(r) == at(object_in(object), name@),
{
    match object {
        Some(members) => object_member(members, name),
        None => None,
    }
}

/// The member called `name`, if it is an object.
fn section<'a>(v: Option<&'a Value>, name: &str) -> (r: Option<
    &'a serde_json::Map<String, Value>,
>)
    ensures
        forall|key: Seq<char>|
            #[trigger] at(object_in(r), key) == at(at(json_in(v), name@), key),
{
    match member_at(v, name) {
        Some(value) => value.as_object(),
        None => None,
    }
}

/// The text of a string.
fn read_text(v: Option<&Value>) -> (r: Option<String>)
    ensures
        r.deep_view() == text(json_in(v)),
{
    match v {
        Some(value) => match value.as_str() {
            Some(t) => Some(t.to_string()),
            None => None,
        },
        None => None,
    }
}

/// The number that an integer holds, in 32 bits.
fn read_number(v: Option<&Value>) -> (r: Option<i32>)
    ensures
        r == number(json_in(v)),
{
    match v {
        Some(value) => match value.as_i64() {
            Some(n) => Some(narrow(n)),
            None => None,
        },
        None => None,
    }
}

/// The truth value of a boolean.
fn read_flag(v: Option<&Value>) -> (r: Option<bool>)
    ensures
        r == flag(json_in(v)),
{
    match v {
        Some(value) => value.as_bool(),
        None => None,
    }
}

/// The settings in deployment metadata.
pub fn read_manifest(meta: Option<&Value>) -> (r: Manifest)
    ensures
        r.deep_view() == manifest_of(json_in(meta)),
{
    let service_manifest = member_at(meta, "serviceManifest");
    let build = section(service_manifest, "build");
    let deploy = section(service_manifest, "deploy");
    Manifest {
        image: read_text(member_at(meta, "image")),
        builder: read_text(entry(build, "builder")),
        build_command: read_text(entry(build, "buildCommand")),
        nixpacks_version: read_text(entry(build, "nixpacksVersion")),
        dockerfile_path: read_text(entry(build, "dockerfilePath")),
        nixpacks_config_path: read_text(entry(build, "nixpacksConfigPath")),
        start_command: read_text(entry(deploy, "startCommand")),
        pre_deploy_command: read_text(entry(deploy, "preDeployCommand")),
        num_replicas: read_number(entry(deploy, "numReplicas")),
        healthcheck_path: read_text(entry(deploy, "healthcheckPath")),
        healthcheck_timeout: read_number(entry(deploy, "healthcheckTimeout")),
        restart_policy_type: read_text(entry(deploy, "restartPolicyType")),
        restart_policy_max_retries: read_number(entry(deploy, "restartPolicyMaxRetries")),
        cron_schedule: read_text(entry(deploy, "cronSchedule")),
        region: read_text(entry(deploy, "region")),
        runtime: read_text(entry(deploy, "runtime")),
        sleep_application: read_flag(entry(deploy, "sleepApplication")),
    }
}

} // verus!
