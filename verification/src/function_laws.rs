//! What the functions of the library return, whatever they are handed.
use crate::command::{begin, command, next, output_path, Action, Args, Event, Export};
use crate::config::{
    build_railway_toml, combine_service_config, extract_service_config, service_config, RailwayToml,
    ServiceConfig,
};
use crate::details::{deployment_nodes, Deployment, DeploymentEdge, ProjectDetails};
use crate::error::{outcome, ExportError};
use crate::export_laws::stands_for;
use crate::json::json_of;
use crate::manifest::{manifest_of, narrow, read_manifest, Manifest};
use crate::model::{LinkedProject, Project, Workspace};
use crate::normalised::{normalised, NormalisedEnvironment, NormalisedProject, NormalisedService};
use crate::request::{
    deployments_variables, project_variables, DeploymentsVariables, ProjectVariables,
};
use crate::select::{
    asked_project, asked_workspace, environment_choice, project_choice, prompt_workspace_projects,
    prompt_workspaces, select_environment_with_linked, select_project_with_linked,
    select_service_with_linked, select_workspace_with_linked, service_choice, workspace_choice,
    Decision,
};
use crate::text::{lower, lowered, same_ignoring_case};
use serde_json::Value;
use vstd::prelude::*;

verus! {

/// A run begins with what it was given, by fetching the workspaces.
pub proof fn runs_begin_with_the_workspaces(
    args: Args,
    linked: Option<LinkedProject>,
    interactive: bool,
    r: (Export, Action),
)
    requires
        call_ensures(begin, (args, linked, interactive), r),
    ensures
        r.0.args.deep_view() == args.deep_view(),
        r.0.linked.deep_view() == linked.deep_view(),
        r.0.interactive == interactive,
        r.0.stage.deep_view() is FetchingWorkspaces,
        r.1 is FetchWorkspaces,
{
}

/// A run keeps what it was given; only its stage moves on.
pub proof fn runs_keep_what_they_were_given(export: Export, event: Event, r: (Export, Action))
    requires
        call_ensures(command, (export, event), r),
    ensures
        r.0.args.deep_view() == export.args.deep_view(),
        r.0.linked.deep_view() == export.linked.deep_view(),
        r.0.interactive == export.interactive,
        (r.0.stage.deep_view(), r.1.deep_view()) == next(export.deep_view(), event.deep_view()),
{
}

/// The path of the file is the one asked for, or goes with the format.
pub proof fn paths_are_as_asked_for(args: Args, r: String)
    requires
        call_ensures(output_path, (&args,), r),
    ensures
        args.output matches Some(path) ==> r@ == path@,
        args.output is None && args.json ==> r@ == "railway.json"@,
        args.output is None && !args.json ==> r@ == "railway.toml"@,
{
}

/// The file is laid out of the sections that hold what makes them worth writing,
/// as they are, under any name of the environment.
pub proof fn files_are_laid_out_of_what_is_there(
    config: ServiceConfig,
    environment: &str,
    r: RailwayToml,
)
    requires
        call_ensures(build_railway_toml, (config, environment), r),
    ensures
        r.build == Some(config.0) <==> (config.0.builder is Some || config.0.build_command is Some
            || config.0.image is Some || config.0.repo is Some),
        r.build is Some ==> r.build == Some(config.0),
        r.deploy == Some(config.1) <==> (config.1.start_command is Some
            || config.1.num_replicas is Some || config.1.healthcheck_path is Some),
        r.deploy is Some ==> r.deploy == Some(config.1),
        r.volumes == Some(config.2) <==> config.2@.len() > 0,
        r.volumes is Some ==> r.volumes == Some(config.2),
        r.environments is None,
{
}

/// What is exported is told from the details, the environment's id, the chosen
/// service's id and the manifest of the first deployment.
pub proof fn exports_are_told_from_the_first_deployment(
    project: ProjectDetails,
    environment_id: &str,
    service: Option<&NormalisedService>,
    deployments: &[Deployment],
    chosen: Option<Seq<char>>,
    r: Result<ServiceConfig, ExportError>,
)
    requires
        call_ensures(extract_service_config, (&project, environment_id, service, deployments), r),
        service is Some ==> chosen == Some(service->0.id@),
        service is None ==> chosen is None,
    ensures
        deployments@.len() > 0 && deployments@[0].meta is Some ==> outcome(r) == service_config(
            project.deep_view(),
            environment_id@,
            chosen,
            manifest_of(Some(json_of(deployments@[0].meta->0))),
        ),
        deployments@.len() == 0 || deployments@[0].meta is None ==> outcome(r) == service_config(
            project.deep_view(),
            environment_id@,
            chosen,
            manifest_of(None),
        ),
{
}

/// What is exported with a manifest at hand is told from that manifest.
pub proof fn exports_are_told_from_the_manifest(
    project: ProjectDetails,
    environment_id: &str,
    service: Option<&NormalisedService>,
    manifest: Manifest,
    chosen: Option<Seq<char>>,
    r: Result<ServiceConfig, ExportError>,
)
    requires
        call_ensures(combine_service_config, (&project, environment_id, service, &manifest), r),
        service is Some ==> chosen == Some(service->0.id@),
        service is None ==> chosen is None,
    ensures
        outcome(r) == service_config(
            project.deep_view(),
            environment_id@,
            chosen,
            manifest.deep_view(),
        ),
{
}

/// The manifest is read from the metadata, if there is any.
pub proof fn manifests_are_read_from_metadata(v: Value, a: Manifest, b: Manifest)
    requires
        call_ensures(read_manifest, (Some(&v),), a),
        call_ensures(read_manifest, (None,), b),
    ensures
        a.deep_view() == manifest_of(Some(json_of(v))),
        b.deep_view() == manifest_of(None),
{
}

/// A 64-bit number is cut down to the 32-bit number that stands for it.
pub proof fn numbers_are_narrowed(n: i64, r: i32)
    requires
        call_ensures(narrow, (n,), r),
    ensures
        stands_for(r, n as int),
{
}

/// Edges lead to their nodes, in their order.
pub proof fn edges_lead_to_their_nodes(edges: Vec<DeploymentEdge>, r: Vec<Deployment>)
    requires
        call_ensures(deployment_nodes, (edges,), r),
    ensures
        r@.len() == edges@.len(),
        forall|i: int| 0 <= i < edges@.len() ==> #[trigger] r@[i] == edges@[i].node,
{
}

/// The queries ask for what they are given.
pub proof fn queries_ask_for_what_they_are_given(
    project_id: &str,
    environment_id: &str,
    first: i64,
    a: ProjectVariables,
    b: DeploymentsVariables,
)
    requires
        call_ensures(project_variables, (project_id,), a),
        call_ensures(deployments_variables, (project_id, environment_id, first), b),
    ensures
        a.id@ == project_id@,
        b.input.project_id.deep_view() == Some(project_id@),
        b.input.environment_id.deep_view() == Some(environment_id@),
        b.input.service_id.deep_view() is None,
        b.input.include_deleted is None,
        b.input.status.deep_view() is None,
        b.first == Some(first),
{
}

/// Texts are compared by their lower cases.
pub proof fn texts_are_compared_by_their_lower_cases(a: &str, b: &str, s: String, same: bool)
    requires
        call_ensures(lowered, (a,), s),
        call_ensures(same_ignoring_case, (a, b), same),
    ensures
        s@ == lower(a@),
        same <==> lower(a@) == lower(b@),
{
}

/// A workspace is chosen from all that the choice is handed.
pub proof fn workspaces_are_selected(
    workspace: Option<String>,
    project: Option<String>,
    linked: Option<&LinkedProject>,
    workspaces: Vec<Workspace>,
    interactive: bool,
    r: Result<Decision<Workspace, Workspace>, ExportError>,
)
    requires
        call_ensures(
            select_workspace_with_linked,
            (workspace, project, linked, workspaces, interactive),
            r,
        ),
    ensures
        outcome(r) == workspace_choice(
            workspace.deep_view(),
            project.deep_view(),
            linked.deep_view(),
            workspaces.deep_view(),
            interactive,
        ),
{
}

/// A project is chosen from all that the choice is handed.
pub proof fn projects_are_selected(
    workspace: Workspace,
    project: Option<String>,
    linked: Option<&LinkedProject>,
    interactive: bool,
    r: Result<Decision<NormalisedProject, Project>, ExportError>,
)
    requires
        call_ensures(select_project_with_linked, (workspace, project, linked, interactive), r),
    ensures
        outcome(r) == project_choice(
            workspace.deep_view(),
            project.deep_view(),
            linked.deep_view(),
            interactive,
        ),
{
}

/// An environment is chosen from all that the choice is handed.
pub proof fn environments_are_selected(
    environment: Option<String>,
    project: NormalisedProject,
    linked: Option<&LinkedProject>,
    interactive: bool,
    r: Result<Decision<NormalisedEnvironment, NormalisedEnvironment>, ExportError>,
)
    requires
        call_ensures(
            select_environment_with_linked,
            (environment, &project, linked, interactive),
            r,
        ),
    ensures
        outcome(r) == environment_choice(
            environment.deep_view(),
            project.deep_view(),
            linked.deep_view(),
            interactive,
        ),
{
}

/// A service is chosen from all that the choice is handed.
pub proof fn services_are_selected(
    project: NormalisedProject,
    environment: NormalisedEnvironment,
    service: Option<String>,
    linked: Option<&LinkedProject>,
    interactive: bool,
    r: Result<Decision<Option<NormalisedService>, NormalisedService>, ExportError>,
)
    requires
        call_ensures(
            select_service_with_linked,
            (&project, &environment, service, linked, interactive),
            r,
        ),
    ensures
        outcome(r) == service_choice(
            project.deep_view(),
            environment.deep_view(),
            service.deep_view(),
            linked.deep_view(),
            interactive,
        ),
{
}

/// Prompts ask about all that they are handed.
pub proof fn prompts_ask_about_what_they_are_handed(
    workspaces: Vec<Workspace>,
    projects: Vec<Project>,
    interactive: bool,
    a: Result<Decision<Workspace, Workspace>, ExportError>,
    b: Result<Decision<NormalisedProject, Project>, ExportError>,
)
    requires
        call_ensures(prompt_workspaces, (workspaces, interactive), a),
        call_ensures(prompt_workspace_projects, (projects, interactive), b),
    ensures
        outcome(a) == asked_workspace(workspaces.deep_view(), interactive),
        outcome(b) == asked_project(projects.deep_view(), interactive),
{
}

/// A project is normalised from its record.
pub proof fn projects_are_normalised(project: Project, r: NormalisedProject)
    requires
        call_ensures(<NormalisedProject as From<Project>>::from, (project,), r),
    ensures
        r.deep_view() == normalised(project.deep_view().record()),
{
}

/// The parts that are handed in are the parts that are there.
pub proof fn parts_are_put_together(
    id: String,
    name: String,
    environments: Vec<NormalisedEnvironment>,
    services: Vec<NormalisedService>,
    restricted: bool,
    instances: Vec<String>,
    a: NormalisedProject,
    b: NormalisedEnvironment,
    c: NormalisedService,
)
    requires
        call_ensures(NormalisedProject::new, (id, name, environments, services, restricted), a),
        call_ensures(NormalisedEnvironment::new, (id, name), b),
        call_ensures(NormalisedService::new, (id, name, instances), c),
    ensures
        a.id == id && a.name == name && a.environments == environments && a.services == services,
        a.has_restricted_environments == restricted,
        b.id == id && b.name == name,
        c.id == id && c.name == name && c.service_instances == instances,
{
}

/// Environments and services are shown by their names, and told by their ids.
pub proof fn names_are_shown_and_ids_told(
    project: NormalisedProject,
    environment: NormalisedEnvironment,
    service: NormalisedService,
    project_id: &str,
    shown_environment: String,
    service_id: &str,
    shown_service: String,
)
    requires
        call_ensures(NormalisedProject::id, (&project,), project_id),
        call_ensures(NormalisedEnvironment::to_string, (&environment,), shown_environment),
        call_ensures(NormalisedService::id, (&service,), service_id),
        call_ensures(NormalisedService::to_string, (&service,), shown_service),
    ensures
        project_id@ == project.id@,
        shown_environment@ == environment.name@,
        service_id@ == service.id@,
        shown_service@ == service.name@,
{
}

} // verus!
