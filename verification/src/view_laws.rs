//! What contracts see of each type: all of its parts, as they are.
use crate::command::{Action, ActionView, Args, Event, EventView, Export, Stage, StageView};
use crate::config::{BuildConfig, DeployConfig, EnvironmentConfig, RailwayToml, VolumeConfig};
use crate::details::{
    Deployment, DeploymentEdge, EnvironmentDetails, ProjectDetails, ServiceInstance, ServiceSource,
    VolumeInstance,
};
use crate::error::{outcome, ExportError, ExportErrorView};
use crate::json::json_of;
use crate::manifest::Manifest;
use crate::model::{
    EnvironmentRecord, LinkedProject, Project, ProjectRecord, ProjectView, ServiceRecord, Workspace,
};
use crate::normalised::{NormalisedEnvironment, NormalisedProject, NormalisedService};
use crate::request::{DeploymentListInput, DeploymentsVariables, ProjectVariables};
use crate::select::{Decision, DecisionView, Echo};
use vstd::prelude::*;

verus! {

/// The view of a service record shows each of its parts.
pub proof fn service_records_are_shown(x: ServiceRecord)
    ensures
        x.deep_view().id == x.id@,
        x.deep_view().name == x.name@,
{
}

/// The view of an environment record shows each of its parts.
pub proof fn environment_records_are_shown(x: EnvironmentRecord)
    ensures
        x.deep_view().id == x.id@,
        x.deep_view().name == x.name@,
        x.deep_view().can_access == x.can_access,
        x.deep_view().service_instances == x.service_instances.deep_view(),
{
}

/// The view of a project record shows each of its parts.
pub proof fn project_records_are_shown(x: ProjectRecord)
    ensures
        x.deep_view().id == x.id@,
        x.deep_view().name == x.name@,
        x.deep_view().label == x.label@,
        x.deep_view().deleted_at == x.deleted_at.deep_view(),
        x.deep_view().environments == x.environments.deep_view(),
        x.deep_view().services == x.services.deep_view(),
{
}

/// The view of a workspace shows each of its parts.
pub proof fn workspaces_are_shown(x: Workspace)
    ensures
        x.deep_view().id == x.id@,
        x.deep_view().team_id == x.team_id.deep_view(),
        x.deep_view().name == x.name@,
        x.deep_view().projects == x.projects.deep_view(),
{
}

/// The view of a link shows each of its parts.
pub proof fn links_are_shown(x: LinkedProject)
    ensures
        x.deep_view().project == x.project@,
        x.deep_view().name == x.name.deep_view(),
        x.deep_view().environment == x.environment.deep_view(),
        x.deep_view().service == x.service.deep_view(),
{
}

/// The view of a normalised project shows each of its parts.
pub proof fn normalised_projects_are_shown(x: NormalisedProject)
    ensures
        x.deep_view().id == x.id@,
        x.deep_view().name == x.name@,
        x.deep_view().environments == x.environments.deep_view(),
        x.deep_view().services == x.services.deep_view(),
        x.deep_view().has_restricted_environments == x.has_restricted_environments,
{
}

/// The view of a normalised environment shows each of its parts.
pub proof fn normalised_environments_are_shown(x: NormalisedEnvironment)
    ensures
        x.deep_view().id == x.id@,
        x.deep_view().name == x.name@,
{
}

/// The view of a normalised service shows each of its parts.
pub proof fn normalised_services_are_shown(x: NormalisedService)
    ensures
        x.deep_view().id == x.id@,
        x.deep_view().name == x.name@,
        x.deep_view().service_instances == x.service_instances.deep_view(),
{
}

/// The view of a source shows each of its parts.
pub proof fn sources_are_shown(x: ServiceSource)
    ensures
        x.deep_view().image == x.image.deep_view(),
        x.deep_view().repo == x.repo.deep_view(),
{
}

/// The view of a service instance shows each of its parts.
pub proof fn service_instances_are_shown(x: ServiceInstance)
    ensures
        x.deep_view().service_id == x.service_id@,
        x.deep_view().source == x.source.deep_view(),
        x.deep_view().start_command == x.start_command.deep_view(),
        x.deep_view().cron_schedule == x.cron_schedule.deep_view(),
{
}

/// The view of a volume instance shows each of its parts.
pub proof fn volume_instances_are_shown(x: VolumeInstance)
    ensures
        x.deep_view().service_id == x.service_id.deep_view(),
        x.deep_view().volume_name == x.volume_name@,
        x.deep_view().size_mb == x.size_mb,
        x.deep_view().mount_path == x.mount_path@,
{
}

/// The view of an environment's details shows each of its parts.
pub proof fn environment_details_are_shown(x: EnvironmentDetails)
    ensures
        x.deep_view().id == x.id@,
        x.deep_view().service_instances == x.service_instances.deep_view(),
        x.deep_view().volume_instances == x.volume_instances.deep_view(),
{
}

/// The view of a project's details shows each of its parts.
pub proof fn project_details_are_shown(x: ProjectDetails)
    ensures
        x.deep_view().environments == x.environments.deep_view(),
{
}

/// The view of a manifest shows each of its parts.
pub proof fn manifests_are_shown(x: Manifest)
    ensures
        x.deep_view().image == x.image.deep_view(),
        x.deep_view().builder == x.builder.deep_view(),
        x.deep_view().build_command == x.build_command.deep_view(),
        x.deep_view().nixpacks_version == x.nixpacks_version.deep_view(),
        x.deep_view().dockerfile_path == x.dockerfile_path.deep_view(),
        x.deep_view().nixpacks_config_path == x.nixpacks_config_path.deep_view(),
        x.deep_view().start_command == x.start_command.deep_view(),
        x.deep_view().pre_deploy_command == x.pre_deploy_command.deep_view(),
        x.deep_view().num_replicas == x.num_replicas,
        x.deep_view().healthcheck_path == x.healthcheck_path.deep_view(),
        x.deep_view().healthcheck_timeout == x.healthcheck_timeout,
        x.deep_view().restart_policy_type == x.restart_policy_type.deep_view(),
        x.deep_view().restart_policy_max_retries == x.restart_policy_max_retries,
        x.deep_view().cron_schedule == x.cron_schedule.deep_view(),
        x.deep_view().region == x.region.deep_view(),
        x.deep_view().runtime == x.runtime.deep_view(),
        x.deep_view().sleep_application == x.sleep_application,
{
}

/// The view of a build section shows each of its parts.
pub proof fn build_sections_are_shown(x: BuildConfig)
    ensures
        x.deep_view().builder == x.builder.deep_view(),
        x.deep_view().build_command == x.build_command.deep_view(),
        x.deep_view().nixpacks_version == x.nixpacks_version.deep_view(),
        x.deep_view().dockerfile_path == x.dockerfile_path.deep_view(),
        x.deep_view().nixpacks_config_path == x.nixpacks_config_path.deep_view(),
        x.deep_view().image == x.image.deep_view(),
        x.deep_view().repo == x.repo.deep_view(),
{
}

/// The view of a deploy section shows each of its parts.
pub proof fn deploy_sections_are_shown(x: DeployConfig)
    ensures
        x.deep_view().start_command == x.start_command.deep_view(),
        x.deep_view().pre_deploy_command == x.pre_deploy_command.deep_view(),
        x.deep_view().num_replicas == x.num_replicas,
        x.deep_view().healthcheck_path == x.healthcheck_path.deep_view(),
        x.deep_view().healthcheck_timeout == x.healthcheck_timeout,
        x.deep_view().restart_policy_type == x.restart_policy_type.deep_view(),
        x.deep_view().restart_policy_max_retries == x.restart_policy_max_retries,
        x.deep_view().cron_schedule == x.cron_schedule.deep_view(),
        x.deep_view().region == x.region.deep_view(),
        x.deep_view().runtime == x.runtime.deep_view(),
        x.deep_view().sleep_application == x.sleep_application,
{
}

/// The view of an exported volume shows each of its parts.
pub proof fn exported_volumes_are_shown(x: VolumeConfig)
    ensures
        x.deep_view().name == x.name.deep_view(),
        x.deep_view().size_mb == x.size_mb,
        x.deep_view().mount_path == x.mount_path.deep_view(),
{
}

/// The view of an environment's settings shows each of its parts.
pub proof fn environment_settings_are_shown(x: EnvironmentConfig)
    ensures
        x.deep_view().build == x.build.deep_view(),
        x.deep_view().deploy == x.deploy.deep_view(),
        x.deep_view().volumes == x.volumes.deep_view(),
{
}

/// The view of an exported file shows each of its parts.
pub proof fn exported_files_are_shown(x: RailwayToml)
    ensures
        x.deep_view().build == x.build.deep_view(),
        x.deep_view().deploy == x.deploy.deep_view(),
        x.deep_view().environments == x.environments.deep_view(),
        x.deep_view().volumes == x.volumes.deep_view(),
{
}

/// The view of a query for a project shows each of its parts.
pub proof fn project_queries_are_shown(x: ProjectVariables)
    ensures
        x.deep_view().id == x.id@,
{
}

/// The view of a selection of deployments shows each of its parts.
pub proof fn deployment_selections_are_shown(x: DeploymentListInput)
    ensures
        x.deep_view().project_id == x.project_id.deep_view(),
        x.deep_view().environment_id == x.environment_id.deep_view(),
        x.deep_view().service_id == x.service_id.deep_view(),
        x.deep_view().include_deleted == x.include_deleted,
        x.deep_view().status == x.status.deep_view(),
{
}

/// The view of a query for deployments shows each of its parts.
pub proof fn deployment_queries_are_shown(x: DeploymentsVariables)
    ensures
        x.deep_view().input == x.input.deep_view(),
        x.deep_view().first == x.first,
{
}

/// The view of a shown choice shows each of its parts.
pub proof fn shown_choices_are_shown(x: Echo)
    ensures
        x.deep_view().label == x.label@,
        x.deep_view().answer == x.answer@,
{
}

/// The view of the arguments shows each of its parts.
pub proof fn arguments_are_shown(x: Args)
    ensures
        x.deep_view().json == x.json,
        x.deep_view().output == x.output.deep_view(),
        x.deep_view().environment == x.environment.deep_view(),
        x.deep_view().project == x.project.deep_view(),
        x.deep_view().service == x.service.deep_view(),
        x.deep_view().workspace == x.workspace.deep_view(),
{
}

/// The view of a run shows each of its parts.
pub proof fn runs_are_shown(x: Export)
    ensures
        x.deep_view().args == x.args.deep_view(),
        x.deep_view().linked == x.linked.deep_view(),
        x.deep_view().interactive == x.interactive,
        x.deep_view().stage == x.stage.deep_view(),
{
}

/// The view of a project shows which way the user has got at it, and its record.
pub proof fn projects_are_shown(record: ProjectRecord)
    ensures
        Project::External(record).deep_view() == ProjectView::External(record.deep_view()),
        Project::Workspace(record).deep_view() == ProjectView::Workspace(record.deep_view()),
{
}

/// The view of a deployment shows its metadata, whether it is reached by an edge
/// or not.
pub proof fn deployments_are_shown(x: Deployment, edge: DeploymentEdge)
    ensures
        x.meta is Some ==> x.deep_view().meta == Some(json_of(x.meta->0)),
        x.meta is None ==> x.deep_view().meta is None,
        edge.deep_view() == edge.node.deep_view(),
{
}

/// The view of a decision shows which it is, and its parts.
pub proof fn decisions_are_shown<T: DeepView, O: DeepView>(x: Decision<T, O>)
    ensures
        x matches Decision::Chosen { value, echo } ==> x.deep_view() == (DecisionView::<
            T::V,
            O::V,
        >::Chosen {
            value: value.deep_view(),
            echo: echo.deep_view(),
        }),
        x matches Decision::Ask { label, options, skippable } ==> x.deep_view() == (
        DecisionView::<T::V, O::V>::Ask { label: label@, options: options.deep_view(), skippable }),
{
}

/// The view of an error shows which it is, and what it is about.
pub proof fn errors_are_shown(a: String, b: String)
    ensures
        ExportError::EnvironmentNotFound(a).deep_view() == ExportErrorView::EnvironmentNotFound(a@),
        ExportError::ServiceNotFound(a).deep_view() == ExportErrorView::ServiceNotFound(a@),
        ExportError::ProjectNotFoundInWorkspace(a, b).deep_view()
            == ExportErrorView::ProjectNotFoundInWorkspace(a@, b@),
        ExportError::NoPersonalWorkspace.deep_view() == ExportErrorView::NoPersonalWorkspace,
        ExportError::WorkspaceNotFound(a).deep_view() == ExportErrorView::WorkspaceNotFound(a@),
        ExportError::NoProjects.deep_view() == ExportErrorView::NoProjects,
        ExportError::Message(a).deep_view() == ExportErrorView::Message(a@),
{
}

/// What came of a step is its result, or else its error.
pub proof fn outcomes_are_shown<T: DeepView>(r: Result<T, ExportError>)
    ensures
        r is Ok <==> outcome(r) is Ok,
        r matches Ok(value) ==> outcome(r)->Ok_0 == value.deep_view(),
        r matches Err(error) ==> outcome(r)->Err_0 == error.deep_view(),
{
}

/// The view of an event shows which it is, and what came with it.
pub proof fn events_are_shown(x: Event)
    ensures
        x is Done ==> x.deep_view() is Done,
        x matches Event::Picked(at) ==> x.deep_view() == EventView::Picked(at),
        x is Skipped ==> x.deep_view() is Skipped,
        x matches Event::Workspaces(workspaces) ==> x.deep_view() == EventView::Workspaces(
            workspaces.deep_view(),
        ),
        x matches Event::Details(details) ==> x.deep_view() == EventView::Details(
            details.deep_view(),
        ),
        x matches Event::Deployments(edges) ==> x.deep_view() == EventView::Deployments(
            edges.deep_view(),
        ),
{
}

/// The view of an action shows which it is, and what goes with it.
pub proof fn actions_are_shown(x: Action)
    ensures
        x is FetchWorkspaces ==> x.deep_view() is FetchWorkspaces,
        x matches Action::Show(echo) ==> x.deep_view() == ActionView::Show(echo.deep_view()),
        x is GoOn ==> x.deep_view() is GoOn,
        x matches Action::Ask { label, options, skippable } ==> x.deep_view() == (ActionView::Ask {
            label: label@,
            options: options.deep_view(),
            skippable,
        }),
        x matches Action::FetchDetails(query) ==> x.deep_view() == ActionView::FetchDetails(
            query.deep_view(),
        ),
        x matches Action::FetchDeployments(query) ==> x.deep_view() == ActionView::FetchDeployments(
            query.deep_view(),
        ),
        x matches Action::Save { path, json, toml } ==> x.deep_view() == (ActionView::Save {
            path: path@,
            json,
            toml: toml.deep_view(),
        }),
        x matches Action::Report { path } ==> x.deep_view() == (ActionView::Report { path: path@ }),
        x matches Action::Fail(error) ==> x.deep_view() == ActionView::Fail(error.deep_view()),
        x is Unexpected ==> x.deep_view() is Unexpected,
{
}

/// The view of a stage shows which it is, and what is known at it.
pub proof fn stages_are_shown(x: Stage)
    ensures
        x is FetchingWorkspaces ==> x.deep_view() is FetchingWorkspaces,
        x matches Stage::PickingWorkspace { options } ==> x.deep_view() == (
        StageView::PickingWorkspace { options: options.deep_view() }),
        x matches Stage::WorkspaceChosen { workspace } ==> x.deep_view() == (
        StageView::WorkspaceChosen { workspace: workspace.deep_view() }),
        x matches Stage::PickingProject { options } ==> x.deep_view() == (
        StageView::PickingProject { options: options.deep_view() }),
        x matches Stage::ProjectChosen { project } ==> x.deep_view() == (StageView::ProjectChosen {
            project: project.deep_view(),
        }),
        x matches Stage::PickingEnvironment { project, options } ==> x.deep_view() == (
        StageView::PickingEnvironment {
            project: project.deep_view(),
            options: options.deep_view(),
        }),
        x matches Stage::EnvironmentChosen { project, environment } ==> x.deep_view() == (
        StageView::EnvironmentChosen {
            project: project.deep_view(),
            environment: environment.deep_view(),
        }),
        x matches Stage::PickingService { project, environment, options } ==> x.deep_view() == (
        StageView::PickingService {
            project: project.deep_view(),
            environment: environment.deep_view(),
            options: options.deep_view(),
        }),
        x matches Stage::ServiceChosen { project, environment, service } ==> x.deep_view() == (
        StageView::ServiceChosen {
            project: project.deep_view(),
            environment: environment.deep_view(),
            service: service.deep_view(),
        }),
        x matches Stage::FetchingDetails { project, environment, service } ==> x.deep_view() == (
        StageView::FetchingDetails {
            project: project.deep_view(),
            environment: environment.deep_view(),
            service: service.deep_view(),
        }),
        x matches Stage::FetchingDeployments { project, environment, service, details }
            ==> x.deep_view() == (StageView::FetchingDeployments {
            project: project.deep_view(),
            environment: environment.deep_view(),
            service: service.deep_view(),
            details: details.deep_view(),
        }),
        x matches Stage::Saving { path } ==> x.deep_view() == (StageView::Saving { path: path@ }),
        x is Finished ==> x.deep_view() is Finished,
        x is Failed ==> x.deep_view() is Failed,
{
}

} // verus!
