//! The exported configuration: what goes into it and how it is laid out.
use crate::details::{
    Deployment, DeploymentView, EnvironmentDetails, EnvironmentDetailsView, ProjectDetails,
    ProjectDetailsView, ServiceInstance, ServiceInstanceView, VolumeInstance, VolumeInstanceView,
};
use crate::error::{outcome, ExportError, ExportErrorView};
use crate::json::Json;
use crate::manifest::{manifest_of, narrow, narrowed, read_manifest, Manifest, ManifestView};
use crate::normalised::{NormalisedService, NormalisedServiceView};
use crate::search::{find, first_where};
use std::collections::BTreeMap;
use vstd::prelude::*;

verus! {

/// How a service is built.
#[derive(Debug, Default, PartialEq, Eq)]
pub struct BuildConfig {
    pub builder: Option<String>,
    pub build_command: Option<String>,
    pub nixpacks_version: Option<String>,
    pub dockerfile_path: Option<String>,
    pub nixpacks_config_path: Option<String>,
    pub image: Option<String>,
    pub repo: Option<String>,
}

/// The contents of a [`BuildConfig`].
pub struct BuildConfigView {
    pub builder: Option<Seq<char>>,
    pub build_command: Option<Seq<char>>,
    pub nixpacks_version: Option<Seq<char>>,
    pub dockerfile_path: Option<Seq<char>>,
    pub nixpacks_config_path: Option<Seq<char>>,
    pub image: Option<Seq<char>>,
    pub repo: Option<Seq<char>>,
}

/// How a service is run.
#[derive(Debug, Default, PartialEq, Eq)]
pub struct DeployConfig {
    pub start_command: Option<String>,
    pub pre_deploy_command: Option<String>,
    pub num_replicas: Option<i32>,
    pub healthcheck_path: Option<String>,
    pub healthcheck_timeout: Option<i32>,
    pub restart_policy_type: Option<String>,
    pub restart_policy_max_retries: Option<i32>,
    pub cron_schedule: Option<String>,
    pub region: Option<String>,
    pub runtime: Option<String>,
    pub sleep_application: Option<bool>,
}

/// The contents of a [`DeployConfig`].
pub struct DeployConfigView {
    pub start_command: Option<Seq<char>>,
    pub pre_deploy_command: Option<Seq<char>>,
    pub num_replicas: Option<i32>,
    pub healthcheck_path: Option<Seq<char>>,
    pub healthcheck_timeout: Option<i32>,
    pub restart_policy_type: Option<Seq<char>>,
    pub restart_policy_max_retries: Option<i32>,
    pub cron_schedule: Option<Seq<char>>,
    pub region: Option<Seq<char>>,
    pub runtime: Option<Seq<char>>,
    pub sleep_application: Option<bool>,
}

/// A volume that a service mounts.
#[derive(Debug, Default, PartialEq, Eq)]
pub struct VolumeConfig {
    pub name: Option<String>,
    pub size_mb: Option<i32>,
    pub mount_path: Option<String>,
}

/// The contents of a [`VolumeConfig`].
pub struct VolumeConfigView {
    pub name: Option<Seq<char>>,
    pub size_mb: Option<i32>,
    pub mount_path: Option<Seq<char>>,
}

/// Settings that hold in one environment only.
#[derive(Debug, Default, PartialEq, Eq)]
pub struct EnvironmentConfig {
    pub build: Option<BuildConfig>,
    pub deploy: Option<DeployConfig>,
    pub volumes: Option<Vec<VolumeConfig>>,
}

/// The contents of an [`EnvironmentConfig`].
pub struct EnvironmentConfigView {
    pub build: Option<BuildConfigView>,
    pub deploy: Option<DeployConfigView>,
    pub volumes: Option<Seq<VolumeConfigView>>,
}

/// The exported file. A part that is missing is not written.
#[derive(Debug, Default, PartialEq, Eq)]
pub struct RailwayToml {
    pub build: Option<BuildConfig>,
    pub deploy: Option<DeployConfig>,
    pub environments: Option<BTreeMap<String, EnvironmentConfig>>,
    pub volumes: Option<Vec<VolumeConfig>>,
}

/// The contents of a [`RailwayToml`].
pub struct RailwayTomlView {
    pub build: Option<BuildConfigView>,
    pub deploy: Option<DeployConfigView>,
    pub environments: Option<Map<Seq<char>, EnvironmentConfigView>>,
    pub volumes: Option<Seq<VolumeConfigView>>,
}

impl DeepView for BuildConfig {
    type V = BuildConfigView;

    open spec fn deep_view(&self) -> BuildConfigView {
        BuildConfigView {
            builder: self.builder.deep_view(),
            build_command: self.build_command.deep_view(),
            nixpacks_version: self.nixpacks_version.deep_view(),
            dockerfile_path: self.dockerfile_path.deep_view(),
            nixpacks_config_path: self.nixpacks_config_path.deep_view(),
            image: self.image.deep_view(),
            repo: self.repo.deep_view(),
        }
    }
}

impl DeepView for DeployConfig {
    type V = DeployConfigView;

    open spec fn deep_view(&self) -> DeployConfigView {
        DeployConfigView {
            start_command: self.start_command.deep_view(),
            pre_deploy_command: self.pre_deploy_command.deep_view(),
            num_replicas: self.num_replicas,
            healthcheck_path: self.healthcheck_path.deep_view(),
            healthcheck_timeout: self.healthcheck_timeout,
            restart_policy_type: self.restart_policy_type.deep_view(),
            restart_policy_max_retries: self.restart_policy_max_retries,
            cron_schedule: self.cron_schedule.deep_view(),
            region: self.region.deep_view(),
            runtime: self.runtime.deep_view(),
            sleep_application: self.sleep_application,
        }
    }
}

impl DeepView for VolumeConfig {
    type V = VolumeConfigView;

    open spec fn deep_view(&self) -> VolumeConfigView {
        VolumeConfigView {
            name: self.name.deep_view(),
            size_mb: self.size_mb,
            mount_path: self.mount_path.deep_view(),
        }
    }
}

impl DeepView for EnvironmentConfig {
    type V = EnvironmentConfigView;

    open spec fn deep_view(&self) -> EnvironmentConfigView {
        EnvironmentConfigView {
            build: self.build.deep_view(),
            deploy: self.deploy.deep_view(),
            volumes: self.volumes.deep_view(),
        }
    }
}

impl DeepView for RailwayToml {
    type V = RailwayTomlView;

    open spec fn deep_view(&self) -> RailwayTomlView {
        RailwayTomlView {
            build: self.build.deep_view(),
            deploy: self.deploy.deep_view(),
            environments: self.environments.deep_view(),
            volumes: self.volumes.deep_view(),
        }
    }
}

/// What is known of a service: how it is built, how it is run, what it mounts.
pub type ServiceConfig = (BuildConfig, DeployConfig, Vec<VolumeConfig>);

/// The contents of a [`ServiceConfig`].
pub type ServiceConfigView = (BuildConfigView, DeployConfigView, Seq<VolumeConfigView>);

/// The first of two settings that is there.
pub open spec fn either<A>(first: Option<A>, second: Option<A>) -> Option<A> {
    if first is Some {
        first
    } else {
        second
    }
}

/// The test for the environment with this id.
pub open spec fn with_id(id: Seq<char>) -> spec_fn(EnvironmentDetailsView) -> bool {
    |e: EnvironmentDetailsView| e.id == id
}

/// The test for the instances of this service.
pub open spec fn of_service(id: Seq<char>) -> spec_fn(ServiceInstanceView) -> bool {
    |s: ServiceInstanceView| s.service_id == id
}

/// The test for the named volumes of this service.
pub open spec fn mounted_by(id: Seq<char>) -> spec_fn(VolumeInstanceView) -> bool {
    |v: VolumeInstanceView| v.service_id == Some(id) && v.volume_name.len() > 0
}

/// The service to export: the one that was chosen, or else the only one that
/// runs in the environment.
pub open spec fn service_to_export(
    environment: EnvironmentDetailsView,
    chosen: Option<Seq<char>>,
) -> Option<Seq<char>> {
    match chosen {
        Some(id) => Some(id),
        None => if environment.service_instances.len() == 1 {
            Some(environment.service_instances[0].service_id)
        } else {
            None
        },
    }
}

/// How the instance is built: as the manifest says, from the instance's own
/// source; the deployed image stands in for an image the source lacks.
pub open spec fn build_config(
    instance: ServiceInstanceView,
    manifest: ManifestView,
) -> BuildConfigView {
    BuildConfigView {
        builder: manifest.builder,
        build_command: manifest.build_command,
        nixpacks_version: manifest.nixpacks_version,
        dockerfile_path: manifest.dockerfile_path,
        nixpacks_config_path: manifest.nixpacks_config_path,
        image: match instance.source {
            Some(source) => either(source.image, manifest.image),
            None => manifest.image,
        },
        repo: match instance.source {
            Some(source) => source.repo,
            None => None,
        },
    }
}

/// How the instance is run: as the manifest says, but with the instance's own
/// start command and cron schedule where it has them.
pub open spec fn deploy_config(
    instance: ServiceInstanceView,
    manifest: ManifestView,
) -> DeployConfigView {
    DeployConfigView {
        start_command: either(instance.start_command, manifest.start_command),
        pre_deploy_command: manifest.pre_deploy_command,
        num_replicas: manifest.num_replicas,
        healthcheck_path: manifest.healthcheck_path,
        healthcheck_timeout: manifest.healthcheck_timeout,
        restart_policy_type: manifest.restart_policy_type,
        restart_policy_max_retries: manifest.restart_policy_max_retries,
        cron_schedule: either(instance.cron_schedule, manifest.cron_schedule),
        region: manifest.region,
        runtime: manifest.runtime,
        sleep_application: manifest.sleep_application,
    }
}

/// A volume as it is exported.
pub open spec fn volume_config(volume: VolumeInstanceView) -> VolumeConfigView {
    VolumeConfigView {
        name: Some(volume.volume_name),
        size_mb: Some(narrowed(volume.size_mb as int)),
        mount_path: Some(volume.mount_path),
    }
}

/// The named volumes that a service mounts, in the environment's order.
pub open spec fn volume_configs(
    environment: EnvironmentDetailsView,
    service_id: Seq<char>,
) -> Seq<VolumeConfigView> {
    environment.volume_instances.filter(mounted_by(service_id)).map_values(
        |v: VolumeInstanceView| volume_config(v),
    )
}

/// What is exported of a service, from the project's details and a deployment's
/// manifest, or why nothing can be.
pub open spec fn service_config(
    project: ProjectDetailsView,
    environment_id: Seq<char>,
    chosen: Option<Seq<char>>,
    manifest: ManifestView,
) -> Result<ServiceConfigView, ExportErrorView> {
    match first_where(project.environments, with_id(environment_id)) {
        None => Err(ExportErrorView::EnvironmentNotFound(environment_id)),
        Some(environment) => match service_to_export(environment, chosen) {
            None => Err(ExportErrorView::ServiceNotFound("multiple services found"@)),
            Some(id) => match first_where(environment.service_instances, of_service(id)) {
                None => Err(ExportErrorView::ServiceNotFound(id)),
                Some(instance) => Ok(
                    (
                        build_config(instance, manifest),
                        deploy_config(instance, manifest),
                        volume_configs(environment, id),
                    ),
                ),
            },
        },
    }
}

/// The metadata of the first deployment of those that were fetched, whatever
/// service it is of.
pub open spec fn first_meta(deployments: Seq<DeploymentView>) -> Option<Json> {
    if deployments.len() > 0 {
        deployments[0].meta
    } else {
        None
    }
}

/// The id of the service that was chosen, if one was.
pub open spec fn id_of(service: Option<NormalisedServiceView>) -> Option<Seq<char>> {
    match service {
        Some(s) => Some(s.id),
        None => None,
    }
}

/// The first setting if it is there, else the second.
fn first_of(first: &Option<String>, second: &Option<String>) -> (r: Option<String>)
    ensures
        r.deep_view() == either(first.deep_view(), second.deep_view()),
{
    if first.is_some() {
        first.clone()
    } else {
        second.clone()
    }
}

/// How the instance is built.
fn read_build(instance: &ServiceInstance, manifest: &Manifest) -> (r: BuildConfig)
    ensures
        r.deep_view() == build_config(instance.deep_view(), manifest.deep_view()),
{
    let (image, repo) = match &instance.source {
        Some(source) => (first_of(&source.image, &manifest.image), source.repo.clone()),
        None => (manifest.image.clone(), None),
    };
    BuildConfig {
        builder: manifest.builder.clone(),
        build_command: manifest.build_command.clone(),
        nixpacks_version: manifest.nixpacks_version.clone(),
        dockerfile_path: manifest.dockerfile_path.clone(),
        nixpacks_config_path: manifest.nixpacks_config_path.clone(),
        image,
        repo,
    }
}

/// How the instance is run.
fn read_deploy(instance: &ServiceInstance, manifest: &Manifest) -> (r: DeployConfig)
    ensures
        r.deep_view() == deploy_config(instance.deep_view(), manifest.deep_view()),
{
    DeployConfig {
        start_command: first_of(&instance.start_command, &manifest.start_command),
        pre_deploy_command: manifest.pre_deploy_command.clone(),
        num_replicas: manifest.num_replicas,
        healthcheck_path: manifest.healthcheck_path.clone(),
        healthcheck_timeout: manifest.healthcheck_timeout,
        restart_policy_type: manifest.restart_policy_type.clone(),
        restart_policy_max_retries: manifest.restart_policy_max_retries,
        cron_schedule: first_of(&instance.cron_schedule, &manifest.cron_schedule),
        region: manifest.region.clone(),
        runtime: manifest.runtime.clone(),
        sleep_application: manifest.sleep_application,
    }
}

/// Whether the volume is a named one of this service.
fn is_mounted_by(volume: &VolumeInstance, service_id: &String) -> (r: bool)
    ensures
        r == mounted_by(service_id@)(volume.deep_view()),
{
    match &volume.service_id {
        Some(id) => *id == *service_id && !volume.volume_name.as_str().is_empty(),
        None => false,
    }
}

/// The named volumes that a service mounts.
fn read_volumes(environment: &EnvironmentDetails, service_id: &String) -> (r: Vec<VolumeConfig>)
    ensures
        r.deep_view() == volume_configs(environment.deep_view(), service_id@),
{
    let ghost all = environment.volume_instances.deep_view();
    let ghost export = |v: VolumeInstanceView| volume_config(v);
    let ghost mounted = mounted_by(service_id@);
    let mut volumes: Vec<VolumeConfig> = Vec::new();
    let mut i: usize = 0;
    proof {
        reveal(Seq::filter);
        assert(volumes.deep_view() =~= all.take(0).filter(mounted).map_values(export));
    }
    while i < environment.volume_instances.len()
        invariant
            all == environment.volume_instances.deep_view(),
            mounted == mounted_by(service_id@),
            export == (|v: VolumeInstanceView| volume_config(v)),
            0 <= i <= environment.volume_instances@.len(),
            volumes.deep_view() == all.take(i as int).filter(mounted).map_values(export),
        decreases environment.volume_instances@.len() - i,
    {
        let ghost before = volumes.deep_view();
        let volume = &environment.volume_instances[i];
        if is_mounted_by(volume, service_id) {
            volumes.push(
                VolumeConfig {
                    name: Some(volume.volume_name.clone()),
                    size_mb: Some(narrow(volume.size_mb)),
                    mount_path: Some(volume.mount_path.clone()),
                },
            );
            assert(volumes.deep_view() =~= before.push(export(all[i as int])));
        }
        proof {
            reveal(Seq::filter);
            let upto = all.take(i + 1);
            assert(upto.drop_last() =~= all.take(i as int));
            assert(upto.last() == all[i as int]);
            assert(volumes.deep_view() =~= upto.filter(mounted).map_values(export));
        }
        i += 1;
    }
    assert(all.take(i as int) =~= all);
    volumes
}

/// What is exported of a service, given a deployment's manifest.
pub fn combine_service_config(
    project: &ProjectDetails,
    environment_id: &str,
    service: Option<&NormalisedService>,
    manifest: &Manifest,
) -> (r: Result<ServiceConfig, ExportError>)
    ensures
        outcome(r) == service_config(
            project.deep_view(),
            environment_id@,
            id_of(service.deep_view()),
            manifest.deep_view(),
        ),
{
    let wanted = environment_id.to_string();
    let is_wanted = |e: &EnvironmentDetails| -> (b: bool)
        ensures
            b == with_id(wanted@)(e.deep_view()),
        { e.id == wanted };
    let environment = match find(
        &project.environments,
        is_wanted,
        Ghost(with_id(environment_id@)),
    ) {
        Some(at) => &project.environments[at],
        None => return Err(ExportError::EnvironmentNotFound(wanted)),
    };
    let service_id = match service {
        Some(s) => &s.id,
        None => if environment.service_instances.len() == 1 {
            &environment.service_instances[0].service_id
        } else {
            return Err(ExportError::ServiceNotFound("multiple services found".to_string()));
        },
    };
    let is_of_service = |s: &ServiceInstance| -> (b: bool)
        ensures
            b == of_service(service_id@)(s.deep_view()),
        { s.service_id == *service_id };
    let instance = match find(
        &environment.service_instances,
        is_of_service,
        Ghost(of_service(service_id@)),
    ) {
        Some(at) => &environment.service_instances[at],
        None => return Err(ExportError::ServiceNotFound(service_id.clone())),
    };
    Ok(
        (
            read_build(instance, manifest),
            read_deploy(instance, manifest),
            read_volumes(environment, service_id),
        ),
    )
}

/// What is exported of the chosen service, or of the only service that runs in
/// the environment if none was chosen. The manifest is that of the first
/// deployment that was fetched.
pub fn extract_service_config(
    project: &ProjectDetails,
    environment_id: &str,
    service: Option<&NormalisedService>,
    deployments: &[Deployment],
) -> (r: Result<ServiceConfig, ExportError>)
    ensures
        outcome(r) == service_config(
            project.deep_view(),
            environment_id@,
            id_of(service.deep_view()),
            manifest_of(first_meta(deployments.deep_view())),
        ),
{
    let meta = if deployments.len() > 0 {
        deployments[0].meta.as_ref()
    } else {
        None
    };
    let manifest = read_manifest(meta);
    combine_service_config(project, environment_id, service, &manifest)
}

/// Whether a build section is worth writing.
pub open spec fn has_build(build: BuildConfigView) -> bool {
    build.builder is Some || build.build_command is Some || build.image is Some || build.repo is Some
}

/// Whether a deploy section is worth writing.
pub open spec fn has_deploy(deploy: DeployConfigView) -> bool {
    deploy.start_command is Some || deploy.num_replicas is Some || deploy.healthcheck_path is Some
}

/// The exported file: each part that is worth writing, at the top level.
pub open spec fn railway_toml(config: ServiceConfigView) -> RailwayTomlView {
    RailwayTomlView {
        build: if has_build(config.0) {
            Some(config.0)
        } else {
            None
        },
        deploy: if has_deploy(config.1) {
            Some(config.1)
        } else {
            None
        },
        environments: None,
        volumes: if config.2.len() > 0 {
            Some(config.2)
        } else {
            None
        },
    }
}

/// Lays out the exported file.
pub fn build_railway_toml(config: ServiceConfig, _env_name: &str) -> (r: RailwayToml)
    ensures
        r.deep_view() == railway_toml(config.deep_view()),
        r.build == (if config.0.builder is Some || config.0.build_command is Some
            || config.0.image is Some || config.0.repo is Some {
            Some(config.0)
        } else {
            None
        }),
        r.deploy == (if config.1.start_command is Some || config.1.num_replicas is Some
            || config.1.healthcheck_path is Some {
            Some(config.1)
        } else {
            None
        }),
        r.volumes == (if config.2@.len() > 0 {
            Some(config.2)
        } else {
            None
        }),
        r.environments is None,
{
    let (build, deploy, volumes) = config;
    let has_build = build.builder.is_some() || build.build_command.is_some()
        || build.image.is_some() || build.repo.is_some();
    let has_deploy = deploy.start_command.is_some() || deploy.num_replicas.is_some()
        || deploy.healthcheck_path.is_some();
    let has_volumes = !volumes.is_empty();
    RailwayToml {
        build: if has_build { Some(build) } else { None },
        deploy: if has_deploy { Some(deploy) } else { None },
        environments: None,
        volumes: if has_volumes { Some(volumes) } else { None },
    }
}

} // verus!
