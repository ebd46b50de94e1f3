//! What an export says, told from what the backend said.
use crate::config::{
    first_meta, id_of, mounted_by, of_service, railway_toml, service_config, volume_config,
    volume_configs, with_id, ServiceConfigView, VolumeConfigView,
};
use crate::details::{DeploymentView, ProjectDetailsView, VolumeInstanceView};
use crate::error::ExportErrorView;
use crate::json::{json_of, Json};
use crate::manifest::{at, json_in, manifest_of, narrowed, number, ManifestView};
use crate::normalised::NormalisedServiceView;
use crate::request::{deployments_query, project_query};
use crate::search::{
    in_order, lemma_filter_in_order, lemma_first_where_at, lemma_first_where_none,
};
use serde_json::Value;
use vstd::prelude::*;

verus! {

/// Whether the metadata has this value under this key in this section of the
/// service's manifest.
pub open spec fn setting(
    meta: Option<Json>,
    section: Seq<char>,
    key: Seq<char>,
    value: Json,
) -> bool {
    meta matches Some(Json::Object(top)) && top.contains_key("serviceManifest"@) && (
    top["serviceManifest"@] matches Json::Object(manifest) && manifest.contains_key(section) && (
    manifest[section] matches Json::Object(members) && members.contains_key(key) && members[key]
        == value))
}

/// Whether the metadata has an integer of at most 64 bits under this key in the
/// deploy section.
pub open spec fn has_number(meta: Option<Json>, key: Seq<char>) -> bool {
    exists|n: int|
        i64::MIN <= n <= i64::MAX && #[trigger] setting(meta, "deploy"@, key, Json::Integer(n))
}

/// Whether `v` is `n` in 32 bits: `n` itself where it fits, and a number that
/// differs from it by a multiple of two to the thirty-second where it does not.
pub open spec fn stands_for(v: i32, n: int) -> bool {
    &&& i32::MIN <= n <= i32::MAX ==> v == n
    &&& (v - n) % 0x1_0000_0000 == 0
}

/// A 64-bit number is cut down to the 32-bit number that stands for it.
pub proof fn numbers_are_cut_to_32_bits(n: int)
    ensures
        stands_for(narrowed(n), n),
{
}

/// Each text setting is exported just when the metadata has a text in its place,
/// and is then that text.
pub proof fn text_settings_are_read_from_their_places(meta: Option<Json>, t: Seq<char>)
    ensures
        manifest_of(meta).image == Some(t) <==> (meta matches Some(Json::Object(top))
            && top.contains_key("image"@) && top["image"@] == Json::Text(t)),
        manifest_of(meta).builder == Some(t) <==> setting(
            meta,
            "build"@,
            "builder"@,
            Json::Text(t),
        ),
        manifest_of(meta).build_command == Some(t) <==> setting(
            meta,
            "build"@,
            "buildCommand"@,
            Json::Text(t),
        ),
        manifest_of(meta).nixpacks_version == Some(t) <==> setting(
            meta,
            "build"@,
            "nixpacksVersion"@,
            Json::Text(t),
        ),
        manifest_of(meta).dockerfile_path == Some(t) <==> setting(
            meta,
            "build"@,
            "dockerfilePath"@,
            Json::Text(t),
        ),
        manifest_of(meta).nixpacks_config_path == Some(t) <==> setting(
            meta,
            "build"@,
            "nixpacksConfigPath"@,
            Json::Text(t),
        ),
        manifest_of(meta).start_command == Some(t) <==> setting(
            meta,
            "deploy"@,
            "startCommand"@,
            Json::Text(t),
        ),
        manifest_of(meta).pre_deploy_command == Some(t) <==> setting(
            meta,
            "deploy"@,
            "preDeployCommand"@,
            Json::Text(t),
        ),
        manifest_of(meta).healthcheck_path == Some(t) <==> setting(
            meta,
            "deploy"@,
            "healthcheckPath"@,
            Json::Text(t),
        ),
        manifest_of(meta).restart_policy_type == Some(t) <==> setting(
            meta,
            "deploy"@,
            "restartPolicyType"@,
            Json::Text(t),
        ),
        manifest_of(meta).cron_schedule == Some(t) <==> setting(
            meta,
            "deploy"@,
            "cronSchedule"@,
            Json::Text(t),
        ),
        manifest_of(meta).region == Some(t) <==> setting(
            meta,
            "deploy"@,
            "region"@,
            Json::Text(t),
        ),
        manifest_of(meta).runtime == Some(t) <==> setting(
            meta,
            "deploy"@,
            "runtime"@,
            Json::Text(t),
        ),
{
}

/// Whether the application may sleep is exported just when the metadata has a
/// truth value in its place, and is then that value.
pub proof fn flags_are_read_from_their_places(meta: Option<Json>, b: bool)
    ensures
        manifest_of(meta).sleep_application == Some(b) <==> setting(
            meta,
            "deploy"@,
            "sleepApplication"@,
            Json::Bool(b),
        ),
{
}

/// An integer in its place in the metadata is exported as the 32-bit number that
/// stands for it, so with its value where that fits.
pub proof fn numbers_are_read_from_their_places(meta: Option<Json>, n: int)
    requires
        i64::MIN <= n <= i64::MAX,
    ensures
        setting(meta, "deploy"@, "numReplicas"@, Json::Integer(n)) ==> (manifest_of(
            meta,
        ).num_replicas matches Some(v) && stands_for(v, n)),
        setting(meta, "deploy"@, "healthcheckTimeout"@, Json::Integer(n)) ==> (manifest_of(
            meta,
        ).healthcheck_timeout matches Some(v) && stands_for(v, n)),
        setting(meta, "deploy"@, "restartPolicyMaxRetries"@, Json::Integer(n)) ==> (manifest_of(
            meta,
        ).restart_policy_max_retries matches Some(v) && stands_for(v, n)),
{
    numbers_are_cut_to_32_bits(n);
}

/// An integer in its place in the metadata that fits in 32 bits is exported with
/// its value.
pub proof fn numbers_that_fit_are_exported_as_they_are(meta: Option<Json>, n: int)
    requires
        i32::MIN <= n <= i32::MAX,
    ensures
        setting(meta, "deploy"@, "numReplicas"@, Json::Integer(n)) ==> manifest_of(
            meta,
        ).num_replicas == Some(n as i32),
        setting(meta, "deploy"@, "healthcheckTimeout"@, Json::Integer(n)) ==> manifest_of(
            meta,
        ).healthcheck_timeout == Some(n as i32),
        setting(meta, "deploy"@, "restartPolicyMaxRetries"@, Json::Integer(n)) ==> manifest_of(
            meta,
        ).restart_policy_max_retries == Some(n as i32),
{
    numbers_are_read_from_their_places(meta, n);
}

/// A number is exported only where the metadata has an integer of at most 64
/// bits in its place.
pub proof fn numbers_are_not_made_up(meta: Option<Json>)
    ensures
        manifest_of(meta).num_replicas is Some <==> has_number(meta, "numReplicas"@),
        manifest_of(meta).healthcheck_timeout is Some <==> has_number(
            meta,
            "healthcheckTimeout"@,
        ),
        manifest_of(meta).restart_policy_max_retries is Some <==> has_number(
            meta,
            "restartPolicyMaxRetries"@,
        ),
{
    lemma_number(meta, "numReplicas"@);
    lemma_number(meta, "healthcheckTimeout"@);
    lemma_number(meta, "restartPolicyMaxRetries"@);
}

proof fn lemma_number(meta: Option<Json>, key: Seq<char>)
    ensures
        number(at(at(at(meta, "serviceManifest"@), "deploy"@), key)) is Some <==> has_number(
            meta,
            key,
        ),
{
    let deploy = at(at(meta, "serviceManifest"@), "deploy"@);
    match at(deploy, key) {
        Some(Json::Integer(n)) => {
            assert(setting(meta, "deploy"@, key, Json::Integer(n)));
        },
        _ => {},
    }
}

/// The metadata that is read is that of the first deployment fetched; without a
/// deployment there is none.
pub proof fn metadata_is_of_the_first_deployment(deployments: Seq<DeploymentView>, v: &Value)
    ensures
        deployments.len() > 0 ==> first_meta(deployments) == deployments[0].meta,
        deployments.len() == 0 ==> first_meta(deployments) is None,
        json_in(Some(v)) == Some(json_of(*v)),
        json_in(None) is None,
{
}

/// The service that is looked for is the chosen one.
pub proof fn chosen_service_is_looked_for(service: NormalisedServiceView)
    ensures
        id_of(Some(service)) == Some(service.id),
        id_of(None) is None,
{
}

/// A volume is exported under its own name, at its own mount path, and with the
/// 32-bit number that stands for its size.
pub proof fn volumes_are_exported_as_they_are(v: VolumeInstanceView)
    ensures
        volume_config(v).name == Some(v.volume_name),
        volume_config(v).mount_path == Some(v.mount_path),
        volume_config(v).size_mb matches Some(size) && stands_for(size, v.size_mb as int),
{
    numbers_are_cut_to_32_bits(v.size_mb as int);
}

/// Without an environment of that id there is nothing to export.
pub proof fn missing_environment_is_refused(
    project: ProjectDetailsView,
    environment_id: Seq<char>,
    chosen: Option<Seq<char>>,
    manifest: ManifestView,
)
    requires
        forall|i: int|
            0 <= i < project.environments.len() ==> (#[trigger] project.environments[i]).id
                != environment_id,
    ensures
        service_config(project, environment_id, chosen, manifest) == Result::<
            ServiceConfigView,
            ExportErrorView,
        >::Err(ExportErrorView::EnvironmentNotFound(environment_id)),
{
    lemma_first_where_none(project.environments, with_id(environment_id));
}

/// Whether position `e` is that of the first environment with this id.
pub open spec fn is_environment(
    project: ProjectDetailsView,
    environment_id: Seq<char>,
    e: int,
) -> bool {
    &&& 0 <= e < project.environments.len()
    &&& project.environments[e].id == environment_id
    &&& forall|i: int| 0 <= i < e ==> (#[trigger] project.environments[i]).id != environment_id
}

/// Without a chosen service, an environment in which none or several run is
/// refused.
pub proof fn unsettled_service_is_refused(
    project: ProjectDetailsView,
    environment_id: Seq<char>,
    manifest: ManifestView,
    e: int,
)
    requires
        is_environment(project, environment_id, e),
        project.environments[e].service_instances.len() != 1,
    ensures
        service_config(project, environment_id, None, manifest) == Result::<
            ServiceConfigView,
            ExportErrorView,
        >::Err(ExportErrorView::ServiceNotFound("multiple services found"@)),
{
    lemma_first_where_at(project.environments, with_id(environment_id), e);
}

/// A chosen service that does not run in the environment is refused by its id.
pub proof fn missing_service_is_refused(
    project: ProjectDetailsView,
    environment_id: Seq<char>,
    service_id: Seq<char>,
    manifest: ManifestView,
    e: int,
)
    requires
        is_environment(project, environment_id, e),
        forall|i: int|
            0 <= i < project.environments[e].service_instances.len() ==> (
            #[trigger] project.environments[e].service_instances[i]).service_id != service_id,
    ensures
        service_config(project, environment_id, Some(service_id), manifest) == Result::<
            ServiceConfigView,
            ExportErrorView,
        >::Err(ExportErrorView::ServiceNotFound(service_id)),
{
    lemma_first_where_at(project.environments, with_id(environment_id), e);
    lemma_first_where_none(project.environments[e].service_instances, of_service(service_id));
}

/// Whether a volume is exported with a service: it has a name, and is attached
/// to the service.
pub open spec fn exported_with(v: VolumeInstanceView, service_id: Seq<char>) -> bool {
    v.volume_name.len() > 0 && (v.service_id matches Some(id) && id == service_id)
}

/// Whether `config` is the export of `v`.
pub open spec fn exports(config: VolumeConfigView, v: VolumeInstanceView) -> bool {
    &&& config.name == Some(v.volume_name)
    &&& config.mount_path == Some(v.mount_path)
    &&& config.size_mb matches Some(size) && stands_for(size, v.size_mb as int)
}

/// What is exported of a service that runs in the environment, whether it was
/// chosen or is the only one there: what its first instance has of its own comes
/// first, the rest is what the manifest says, and its named volumes follow in
/// the environment's order. The result lists where the volumes stand in the
/// environment.
pub proof fn running_service_is_exported(
    project: ProjectDetailsView,
    environment_id: Seq<char>,
    chosen: Option<Seq<char>>,
    manifest: ManifestView,
    e: int,
    s: int,
) -> (at: Seq<int>)
    requires
        is_environment(project, environment_id, e),
        0 <= s < project.environments[e].service_instances.len(),
        forall|i: int|
            0 <= i < s ==> (
            #[trigger] project.environments[e].service_instances[i]).service_id
                != project.environments[e].service_instances[s].service_id,
        chosen is Some ==> chosen->0 == project.environments[e].service_instances[s].service_id,
        chosen is None ==> project.environments[e].service_instances.len() == 1,
    ensures
        in_order(
            at,
            project.environments[e].volume_instances.len(),
            |k: int|
                exported_with(
                    project.environments[e].volume_instances[k],
                    project.environments[e].service_instances[s].service_id,
                ),
        ),
        service_config(project, environment_id, chosen, manifest) matches Ok(config) && {
            let instance = project.environments[e].service_instances[s];
            &&& config.0.builder == manifest.builder
            &&& config.0.build_command == manifest.build_command
            &&& config.0.nixpacks_version == manifest.nixpacks_version
            &&& config.0.dockerfile_path == manifest.dockerfile_path
            &&& config.0.nixpacks_config_path == manifest.nixpacks_config_path
            &&& (instance.source is Some && instance.source->0.image is Some) ==> config.0.image
                == instance.source->0.image
            &&& (instance.source is None || instance.source->0.image is None) ==> config.0.image
                == manifest.image
            &&& instance.source is Some ==> config.0.repo == instance.source->0.repo
            &&& instance.source is None ==> config.0.repo is None
            &&& instance.start_command is Some ==> config.1.start_command == instance.start_command
            &&& instance.start_command is None ==> config.1.start_command == manifest.start_command
            &&& config.1.pre_deploy_command == manifest.pre_deploy_command
            &&& config.1.num_replicas == manifest.num_replicas
            &&& config.1.healthcheck_path == manifest.healthcheck_path
            &&& config.1.healthcheck_timeout == manifest.healthcheck_timeout
            &&& config.1.restart_policy_type == manifest.restart_policy_type
            &&& config.1.restart_policy_max_retries == manifest.restart_policy_max_retries
            &&& instance.cron_schedule is Some ==> config.1.cron_schedule == instance.cron_schedule
            &&& instance.cron_schedule is None ==> config.1.cron_schedule == manifest.cron_schedule
            &&& config.1.region == manifest.region
            &&& config.1.runtime == manifest.runtime
            &&& config.1.sleep_application == manifest.sleep_application
            &&& config.2.len() == at.len()
            &&& forall|i: int|
                0 <= i < at.len() ==> exports(
                    #[trigger] config.2[i],
                    project.environments[e].volume_instances[at[i]],
                )
        },
{
    let environment = project.environments[e];
    let instance = environment.service_instances[s];
    lemma_first_where_at(project.environments, with_id(environment_id), e);
    lemma_first_where_at(environment.service_instances, of_service(instance.service_id), s);
    let at = lemma_filter_in_order(
        environment.volume_instances,
        mounted_by(instance.service_id),
        |k: int|
            exported_with(
                project.environments[e].volume_instances[k],
                project.environments[e].service_instances[s].service_id,
            ),
    );
    let volumes = volume_configs(environment, instance.service_id);
    assert forall|i: int| 0 <= i < at.len() implies exports(
        #[trigger] volumes[i],
        project.environments[e].volume_instances[at[i]],
    ) by {
        volumes_are_exported_as_they_are(environment.volume_instances[at[i]]);
    }
    at
}

/// The build section is written, whole, just when a builder, a build command, an
/// image or a repository is there.
pub proof fn build_section_is_written_whole(config: ServiceConfigView)
    ensures
        railway_toml(config).build == Some(config.0) <==> (config.0.builder is Some
            || config.0.build_command is Some || config.0.image is Some || config.0.repo is Some),
        railway_toml(config).build is None <==> (config.0.builder is None
            && config.0.build_command is None && config.0.image is None && config.0.repo is None),
{
}

/// The deploy section is written, whole, just when a start command, a number of
/// replicas or a healthcheck path is there.
pub proof fn deploy_section_is_written_whole(config: ServiceConfigView)
    ensures
        railway_toml(config).deploy == Some(config.1) <==> (config.1.start_command is Some
            || config.1.num_replicas is Some || config.1.healthcheck_path is Some),
        railway_toml(config).deploy is None <==> (config.1.start_command is None
            && config.1.num_replicas is None && config.1.healthcheck_path is None),
{
}

/// All volumes are written where there are any, and no environment has settings
/// of its own.
pub proof fn volumes_are_written_whole(config: ServiceConfigView)
    ensures
        railway_toml(config).volumes == Some(config.2) <==> config.2.len() > 0,
        railway_toml(config).volumes is None <==> config.2.len() == 0,
        railway_toml(config).environments is None,
{
}

/// The project's details are asked for by its id.
pub proof fn project_is_asked_for_by_its_id(id: Seq<char>)
    ensures
        project_query(id).id == id,
{
}

/// The deployments that are asked for are the first so many of the environment
/// of the project, of any service and status.
pub proof fn deployments_are_asked_for_by_environment(
    project_id: Seq<char>,
    environment_id: Seq<char>,
    first: i64,
)
    ensures
        deployments_query(project_id, environment_id, first).input.project_id == Some(project_id),
        deployments_query(project_id, environment_id, first).input.environment_id == Some(
            environment_id,
        ),
        deployments_query(project_id, environment_id, first).input.service_id is None,
        deployments_query(project_id, environment_id, first).input.include_deleted is None,
        deployments_query(project_id, environment_id, first).input.status is None,
        deployments_query(project_id, environment_id, first).first == Some(first),
{
}

} // verus!
