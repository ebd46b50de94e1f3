use railway_export::config::{
    build_railway_toml, combine_service_config, extract_service_config, BuildConfig, DeployConfig,
    RailwayToml, VolumeConfig,
};
use railway_export::details::{
    deployment_nodes, Deployment, DeploymentEdge, EnvironmentDetails, ProjectDetails,
    ServiceInstance, ServiceSource, VolumeInstance,
};
use railway_export::error::ExportError;
use railway_export::manifest::{narrow, read_manifest};
use railway_export::normalised::NormalisedService;
use serde_json::Value;

fn text(s: &str) -> String {
    s.to_string()
}

fn some(s: &str) -> Option<String> {
    Some(s.to_string())
}

fn json(s: &str) -> Value {
    serde_json::from_str(s).unwrap()
}

const META: &str = r#"{
    "image": "registry/app:1",
    "serviceManifest": {
        "build": {
            "builder": "NIXPACKS",
            "buildCommand": "make",
            "nixpacksVersion": "1.2",
            "dockerfilePath": "Dockerfile",
            "nixpacksConfigPath": "nixpacks.toml"
        },
        "deploy": {
            "startCommand": "run",
            "preDeployCommand": "migrate",
            "numReplicas": 2,
            "healthcheckPath": "/health",
            "healthcheckTimeout": 30,
            "restartPolicyType": "ON_FAILURE",
            "restartPolicyMaxRetries": 10,
            "cronSchedule": "0 * * * *",
            "region": "us-west1",
            "runtime": "V2",
            "sleepApplication": true
        }
    }
}"#;

fn instance(service_id: &str) -> ServiceInstance {
    ServiceInstance {
        service_id: text(service_id),
        source: None,
        start_command: None,
        cron_schedule: None,
    }
}

fn volume(service_id: Option<&str>, name: &str, size_mb: i64) -> VolumeInstance {
    VolumeInstance {
        service_id: service_id.map(text),
        volume_name: text(name),
        size_mb,
        mount_path: format!("/mnt/{name}"),
    }
}

fn details(service_instances: Vec<ServiceInstance>, volume_instances: Vec<VolumeInstance>) -> ProjectDetails {
    ProjectDetails {
        environments: vec![
            EnvironmentDetails {
                id: text("other"),
                service_instances: Vec::new(),
                volume_instances: Vec::new(),
            },
            EnvironmentDetails { id: text("e-1"), service_instances, volume_instances },
        ],
    }
}

fn service(id: &str) -> NormalisedService {
    NormalisedService::new(text(id), text("web"), Vec::new())
}

fn deployment(meta: &str) -> Deployment {
    Deployment { meta: Some(json(meta)) }
}

#[test]
fn narrowing_wraps() {
    assert_eq!(narrow(0), 0);
    assert_eq!(narrow(-7), -7);
    assert_eq!(narrow(2_147_483_647), i32::MAX);
    assert_eq!(narrow(2_147_483_648), i32::MIN);
    assert_eq!(narrow(-2_147_483_648), i32::MIN);
    assert_eq!(narrow(-2_147_483_649), i32::MAX);
    assert_eq!(narrow(4_294_967_298), 2);
    assert_eq!(narrow(i64::MAX), -1);
    assert_eq!(narrow(i64::MIN), 0);
}

#[test]
fn every_setting_of_the_manifest_is_read() {
    let meta = json(META);
    let m = read_manifest(Some(&meta));
    assert_eq!(m.image, some("registry/app:1"));
    assert_eq!(m.builder, some("NIXPACKS"));
    assert_eq!(m.build_command, some("make"));
    assert_eq!(m.nixpacks_version, some("1.2"));
    assert_eq!(m.dockerfile_path, some("Dockerfile"));
    assert_eq!(m.nixpacks_config_path, some("nixpacks.toml"));
    assert_eq!(m.start_command, some("run"));
    assert_eq!(m.pre_deploy_command, some("migrate"));
    assert_eq!(m.num_replicas, Some(2));
    assert_eq!(m.healthcheck_path, some("/health"));
    assert_eq!(m.healthcheck_timeout, Some(30));
    assert_eq!(m.restart_policy_type, some("ON_FAILURE"));
    assert_eq!(m.restart_policy_max_retries, Some(10));
    assert_eq!(m.cron_schedule, some("0 * * * *"));
    assert_eq!(m.region, some("us-west1"));
    assert_eq!(m.runtime, some("V2"));
    assert_eq!(m.sleep_application, Some(true));
}

#[test]
fn settings_of_the_wrong_kind_are_left_out() {
    let meta = json(
        r#"{
            "image": 7,
            "serviceManifest": {
                "build": ["builder"],
                "deploy": {
                    "startCommand": null,
                    "numReplicas": 1.5,
                    "healthcheckTimeout": "30",
                    "restartPolicyMaxRetries": 18446744073709551615,
                    "sleepApplication": "true",
                    "region": {"name": "x"}
                }
            }
        }"#,
    );
    let m = read_manifest(Some(&meta));
    assert_eq!(m.image, None);
    assert_eq!(m.builder, None);
    assert_eq!(m.start_command, None);
    assert_eq!(m.num_replicas, None);
    assert_eq!(m.healthcheck_timeout, None);
    assert_eq!(m.restart_policy_max_retries, None);
    assert_eq!(m.sleep_application, None);
    assert_eq!(m.region, None);
}

#[test]
fn metadata_that_is_no_object_has_no_settings() {
    for meta in ["null", "\"serviceManifest\"", "[1]", "3", "{\"serviceManifest\": \"build\"}"] {
        let value = json(meta);
        let m = read_manifest(Some(&value));
        assert_eq!(m.image, None);
        assert_eq!(m.builder, None);
        assert_eq!(m.start_command, None);
    }
    assert_eq!(read_manifest(None).image, None);
}

#[test]
fn large_numbers_wrap_and_negative_ones_are_read() {
    let meta = json(
        r#"{"serviceManifest": {"deploy": {"numReplicas": 4294967298, "healthcheckTimeout": -1, "sleepApplication": false}}}"#,
    );
    let m = read_manifest(Some(&meta));
    assert_eq!(m.num_replicas, Some(2));
    assert_eq!(m.healthcheck_timeout, Some(-1));
    assert_eq!(m.sleep_application, Some(false));
}

#[test]
fn service_is_exported_with_its_deployment() {
    let mut web = instance("s-1");
    web.source = Some(ServiceSource { image: None, repo: some("acme/web") });
    let project = details(
        vec![instance("s-0"), web],
        vec![
            volume(Some("s-1"), "data", 5000),
            volume(Some("s-0"), "foreign", 1),
            volume(None, "loose", 1),
            volume(Some("s-1"), "", 1),
            volume(Some("s-1"), "huge", 4_294_967_297),
        ],
    );
    let s = service("s-1");
    let (build, deploy, volumes) =
        extract_service_config(&project, "e-1", Some(&s), &[deployment(META), deployment("{}")])
            .unwrap();
    assert_eq!(
        build,
        BuildConfig {
            builder: some("NIXPACKS"),
            build_command: some("make"),
            nixpacks_version: some("1.2"),
            dockerfile_path: some("Dockerfile"),
            nixpacks_config_path: some("nixpacks.toml"),
            image: some("registry/app:1"),
            repo: some("acme/web"),
        }
    );
    assert_eq!(
        deploy,
        DeployConfig {
            start_command: some("run"),
            pre_deploy_command: some("migrate"),
            num_replicas: Some(2),
            healthcheck_path: some("/health"),
            healthcheck_timeout: Some(30),
            restart_policy_type: some("ON_FAILURE"),
            restart_policy_max_retries: Some(10),
            cron_schedule: some("0 * * * *"),
            region: some("us-west1"),
            runtime: some("V2"),
            sleep_application: Some(true),
        }
    );
    assert_eq!(
        volumes,
        [
            VolumeConfig { name: some("data"), size_mb: Some(5000), mount_path: some("/mnt/data") },
            VolumeConfig { name: some("huge"), size_mb: Some(1), mount_path: some("/mnt/huge") },
        ]
    );
}

#[test]
fn instance_settings_go_before_the_deployment() {
    let mut web = instance("s-1");
    web.source = Some(ServiceSource { image: some("own:2"), repo: None });
    web.start_command = some("own start");
    web.cron_schedule = some("@daily");
    let project = details(vec![web], Vec::new());
    let (build, deploy, _) =
        extract_service_config(&project, "e-1", None, &[deployment(META)]).unwrap();
    assert_eq!(build.image, some("own:2"));
    assert_eq!(build.repo, None);
    assert_eq!(deploy.start_command, some("own start"));
    assert_eq!(deploy.cron_schedule, some("@daily"));
    assert_eq!(deploy.pre_deploy_command, some("migrate"));
}

#[test]
fn without_deployments_only_the_instance_counts() {
    let mut web = instance("s-1");
    web.start_command = some("own start");
    let project = details(vec![web], Vec::new());
    for deployments in [Vec::new(), vec![Deployment { meta: None }, deployment(META)]] {
        let (build, deploy, volumes) =
            extract_service_config(&project, "e-1", None, &deployments).unwrap();
        assert_eq!(build, BuildConfig::default());
        assert_eq!(
            deploy,
            DeployConfig { start_command: some("own start"), ..DeployConfig::default() }
        );
        assert!(volumes.is_empty());
    }
}

#[test]
fn only_the_first_deployment_counts() {
    let project = details(vec![instance("s-1")], Vec::new());
    let (build, _, _) =
        extract_service_config(&project, "e-1", None, &[deployment("{}"), deployment(META)])
            .unwrap();
    assert_eq!(build, BuildConfig::default());
}

#[test]
fn missing_environment_is_refused() {
    let project = details(vec![instance("s-1")], Vec::new());
    assert_eq!(
        extract_service_config(&project, "E-1", None, &[]),
        Err(ExportError::EnvironmentNotFound(text("E-1")))
    );
}

#[test]
fn open_service_needs_exactly_one_instance() {
    let refused = Err(ExportError::ServiceNotFound(text("multiple services found")));
    let none = details(Vec::new(), Vec::new());
    assert_eq!(extract_service_config(&none, "e-1", None, &[]), refused);
    let two = details(vec![instance("s-1"), instance("s-1")], Vec::new());
    assert_eq!(extract_service_config(&two, "e-1", None, &[]), refused);
}

#[test]
fn service_that_does_not_run_is_refused() {
    let project = details(vec![instance("s-1")], Vec::new());
    let s = service("s-2");
    assert_eq!(
        extract_service_config(&project, "e-1", Some(&s), &[]),
        Err(ExportError::ServiceNotFound(text("s-2")))
    );
    let m = read_manifest(None);
    assert_eq!(
        combine_service_config(&project, "e-1", Some(&s), &m),
        Err(ExportError::ServiceNotFound(text("s-2")))
    );
}

#[test]
fn sections_are_written_when_they_are_worth_it() {
    let empty = build_railway_toml(
        (BuildConfig::default(), DeployConfig::default(), Vec::new()),
        "production",
    );
    assert_eq!(empty, RailwayToml::default());

    let thin = build_railway_toml(
        (
            BuildConfig { dockerfile_path: some("Dockerfile"), ..BuildConfig::default() },
            DeployConfig { region: some("us-west1"), ..DeployConfig::default() },
            Vec::new(),
        ),
        "production",
    );
    assert_eq!(thin, RailwayToml::default());

    let build = || BuildConfig {
        repo: some("acme/web"),
        dockerfile_path: some("Dockerfile"),
        ..BuildConfig::default()
    };
    let deploy = || DeployConfig {
        num_replicas: Some(1),
        region: some("us-west1"),
        ..DeployConfig::default()
    };
    let volume = || VolumeConfig { name: some("v"), size_mb: Some(1), mount_path: some("/v") };
    let full = build_railway_toml((build(), deploy(), vec![volume()]), "production");
    assert_eq!(
        full,
        RailwayToml {
            build: Some(build()),
            deploy: Some(deploy()),
            environments: None,
            volumes: Some(vec![volume()]),
        }
    );
}

#[test]
fn each_key_setting_brings_its_section() {
    for build in [
        BuildConfig { builder: some("x"), ..BuildConfig::default() },
        BuildConfig { build_command: some("x"), ..BuildConfig::default() },
        BuildConfig { image: some("x"), ..BuildConfig::default() },
        BuildConfig { repo: some("x"), ..BuildConfig::default() },
    ] {
        let toml = build_railway_toml((build, DeployConfig::default(), Vec::new()), "e");
        assert!(toml.build.is_some());
        assert!(toml.deploy.is_none());
    }
    for deploy in [
        DeployConfig { start_command: some("x"), ..DeployConfig::default() },
        DeployConfig { num_replicas: Some(1), ..DeployConfig::default() },
        DeployConfig { healthcheck_path: some("x"), ..DeployConfig::default() },
    ] {
        let toml = build_railway_toml((BuildConfig::default(), deploy, Vec::new()), "e");
        assert!(toml.build.is_none());
        assert!(toml.deploy.is_some());
    }
}

#[test]
fn edges_lead_to_their_deployments_in_order() {
    let edges = vec![
        DeploymentEdge { node: deployment("1") },
        DeploymentEdge { node: Deployment { meta: None } },
        DeploymentEdge { node: deployment("2") },
    ];
    let nodes = deployment_nodes(edges);
    assert_eq!(nodes.len(), 3);
    assert_eq!(nodes[0].meta, Some(json("1")));
    assert_eq!(nodes[1].meta, None);
    assert_eq!(nodes[2].meta, Some(json("2")));
}
