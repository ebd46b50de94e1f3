//! How a run of the command goes on, told from its arguments and from what came
//! of its actions.
use crate::command::{next, output_path_of, ActionView, ArgsView, EventView, ExportView, StageView};
use crate::config::{railway_toml, service_config};
use crate::details::{DeploymentView, ProjectDetailsView};
use crate::manifest::manifest_of;
use crate::model::{ProjectView, WorkspaceView};
use crate::normalised::{
    normalised, NormalisedEnvironmentView, NormalisedProjectView, NormalisedServiceView,
};
use crate::select::{
    environment_choice, project_choice, service_choice, workspace_choice, DecisionView,
};
use vstd::prelude::*;

verus! {

/// The file is saved where the user says, or else as `railway.json` or
/// `railway.toml`, by the format.
pub proof fn files_are_saved_where_they_should_be(args: ArgsView)
    ensures
        args.output is Some ==> output_path_of(args) == args.output->0,
        args.output is None && args.json ==> output_path_of(args) == "railway.json"@,
        args.output is None && !args.json ==> output_path_of(args) == "railway.toml"@,
{
}

/// Whether the event is one that the stage waits for. Of a pick, the position
/// must be that of an option.
pub open spec fn awaited(stage: StageView, event: EventView) -> bool {
    match stage {
        StageView::FetchingWorkspaces => event is Workspaces,
        StageView::PickingWorkspace { options } => event matches EventView::Picked(at) && at
            < options.len(),
        StageView::WorkspaceChosen { .. } => event is Done,
        StageView::PickingProject { options } => event matches EventView::Picked(at) && at
            < options.len(),
        StageView::ProjectChosen { .. } => event is Done,
        StageView::PickingEnvironment { options, .. } => event matches EventView::Picked(at) && at
            < options.len(),
        StageView::EnvironmentChosen { .. } => event is Done,
        StageView::PickingService { options, .. } => event is Skipped || (
        event matches EventView::Picked(at) && at < options.len()),
        StageView::ServiceChosen { .. } => event is Done,
        StageView::FetchingDetails { .. } => event is Details,
        StageView::FetchingDeployments { .. } => event is Deployments,
        StageView::Saving { .. } => event is Done,
        StageView::Finished => false,
        StageView::Failed => false,
    }
}

/// An event that the stage does not wait for changes nothing, and is told from
/// all others by the action.
pub proof fn only_awaited_events_count(run: ExportView, event: EventView)
    ensures
        next(run, event).1 is Unexpected <==> !awaited(run.stage, event),
        !awaited(run.stage, event) ==> next(run, event).0 == run.stage,
{
}

/// The workspace is chosen among those fetched, by the workspace and the project
/// asked for and by the link. A choice that is made is shown if it is to be
/// shown; else the user is asked by the workspaces' names.
pub proof fn workspaces_are_chosen_from(run: ExportView, workspaces: Seq<WorkspaceView>)
    requires
        run.stage is FetchingWorkspaces,
    ensures
        match workspace_choice(
            run.args.workspace,
            run.args.project,
            run.linked,
            workspaces,
            run.interactive,
        ) {
            Err(error) => next(run, EventView::Workspaces(workspaces)) == (
                StageView::Failed,
                ActionView::Fail(error),
            ),
            Ok(DecisionView::Chosen { value, echo }) => {
                &&& next(run, EventView::Workspaces(workspaces)).0 == (
                StageView::WorkspaceChosen { workspace: value })
                &&& echo is Some ==> next(run, EventView::Workspaces(workspaces)).1
                    == ActionView::Show(echo->0)
                &&& echo is None ==> next(run, EventView::Workspaces(workspaces)).1 is GoOn
            },
            Ok(DecisionView::Ask { label, options, skippable }) => {
                &&& next(run, EventView::Workspaces(workspaces)).0 == (
                StageView::PickingWorkspace { options })
                &&& next(run, EventView::Workspaces(workspaces)).1 matches ActionView::Ask {
                    label: asked,
                    options: names,
                    skippable: skip,
                }
                &&& asked == label
                &&& skip == skippable
                &&& names.len() == options.len()
                &&& forall|i: int|
                    0 <= i < options.len() ==> #[trigger] names[i] == options[i].name
            },
        },
{
}

/// The project is chosen in the workspace, by the project asked for and by the
/// link. A choice that is made is shown if it is to be shown; else the user is
/// asked by the projects' labels.
pub proof fn projects_are_chosen_in(run: ExportView, workspace: WorkspaceView)
    requires
        run.stage == (StageView::WorkspaceChosen { workspace }),
    ensures
        match project_choice(workspace, run.args.project, run.linked, run.interactive) {
            Err(error) => next(run, EventView::Done) == (
                StageView::Failed,
                ActionView::Fail(error),
            ),
            Ok(DecisionView::Chosen { value, echo }) => {
                &&& next(run, EventView::Done).0 == (StageView::ProjectChosen { project: value })
                &&& echo is Some ==> next(run, EventView::Done).1 == ActionView::Show(echo->0)
                &&& echo is None ==> next(run, EventView::Done).1 is GoOn
            },
            Ok(DecisionView::Ask { label, options, skippable }) => {
                &&& next(run, EventView::Done).0 == (StageView::PickingProject { options })
                &&& next(run, EventView::Done).1 matches ActionView::Ask {
                    label: asked,
                    options: names,
                    skippable: skip,
                }
                &&& asked == label
                &&& skip == skippable
                &&& names.len() == options.len()
                &&& forall|i: int|
                    0 <= i < options.len() ==> #[trigger] names[i] == options[i].record().label
            },
        },
{
}

/// The environment is chosen in the project, by the environment asked for and by
/// the link. A choice that is made is shown if it is to be shown; else the user
/// is asked by the environments' names.
pub proof fn environments_are_chosen_in(run: ExportView, project: NormalisedProjectView)
    requires
        run.stage == (StageView::ProjectChosen { project }),
    ensures
        match environment_choice(run.args.environment, project, run.linked, run.interactive) {
            Err(error) => next(run, EventView::Done) == (
                StageView::Failed,
                ActionView::Fail(error),
            ),
            Ok(DecisionView::Chosen { value, echo }) => {
                &&& next(run, EventView::Done).0 == (StageView::EnvironmentChosen {
                    project,
                    environment: value,
                })
                &&& echo is Some ==> next(run, EventView::Done).1 == ActionView::Show(echo->0)
                &&& echo is None ==> next(run, EventView::Done).1 is GoOn
            },
            Ok(DecisionView::Ask { label, options, skippable }) => {
                &&& next(run, EventView::Done).0 == (StageView::PickingEnvironment {
                    project,
                    options,
                })
                &&& next(run, EventView::Done).1 matches ActionView::Ask {
                    label: asked,
                    options: names,
                    skippable: skip,
                }
                &&& asked == label
                &&& skip == skippable
                &&& names.len() == options.len()
                &&& forall|i: int|
                    0 <= i < options.len() ==> #[trigger] names[i] == options[i].name
            },
        },
{
}

/// The service is chosen among those that run in the environment, by the service
/// asked for and by the link. A choice that is made is shown if it is to be
/// shown; else the user is asked by the services' names.
pub proof fn services_are_chosen_in(
    run: ExportView,
    project: NormalisedProjectView,
    environment: NormalisedEnvironmentView,
)
    requires
        run.stage == (StageView::EnvironmentChosen { project, environment }),
    ensures
        match service_choice(
            project,
            environment,
            run.args.service,
            run.linked,
            run.interactive,
        ) {
            Err(error) => next(run, EventView::Done) == (
                StageView::Failed,
                ActionView::Fail(error),
            ),
            Ok(DecisionView::Chosen { value, echo }) => {
                &&& next(run, EventView::Done).0 == (StageView::ServiceChosen {
                    project,
                    environment,
                    service: value,
                })
                &&& echo is Some ==> next(run, EventView::Done).1 == ActionView::Show(echo->0)
                &&& echo is None ==> next(run, EventView::Done).1 is GoOn
            },
            Ok(DecisionView::Ask { label, options, skippable }) => {
                &&& next(run, EventView::Done).0 == (StageView::PickingService {
                    project,
                    environment,
                    options,
                })
                &&& next(run, EventView::Done).1 matches ActionView::Ask {
                    label: asked,
                    options: names,
                    skippable: skip,
                }
                &&& asked == label
                &&& skip == skippable
                &&& names.len() == options.len()
                &&& forall|i: int|
                    0 <= i < options.len() ==> #[trigger] names[i] == options[i].name
            },
        },
{
}

/// The workspace that the user picks is the one that the run goes on with.
pub proof fn picked_workspace_is_taken(run: ExportView, options: Seq<WorkspaceView>, at: usize)
    requires
        run.stage == (StageView::PickingWorkspace { options }),
        at < options.len(),
    ensures
        next(run, EventView::Picked(at)).0 == (StageView::WorkspaceChosen {
            workspace: options[at as int],
        }),
        next(run, EventView::Picked(at)).1 is GoOn,
{
}

/// The project that the user picks is the one that the run goes on with,
/// normalised.
pub proof fn picked_project_is_taken(run: ExportView, options: Seq<ProjectView>, at: usize)
    requires
        run.stage == (StageView::PickingProject { options }),
        at < options.len(),
    ensures
        next(run, EventView::Picked(at)).0 == (StageView::ProjectChosen {
            project: normalised(options[at as int].record()),
        }),
        next(run, EventView::Picked(at)).1 is GoOn,
{
}

/// The environment that the user picks is the one that the run goes on with.
pub proof fn picked_environment_is_taken(
    run: ExportView,
    project: NormalisedProjectView,
    options: Seq<NormalisedEnvironmentView>,
    at: usize,
)
    requires
        run.stage == (StageView::PickingEnvironment { project, options }),
        at < options.len(),
    ensures
        next(run, EventView::Picked(at)).0 == (StageView::EnvironmentChosen {
            project,
            environment: options[at as int],
        }),
        next(run, EventView::Picked(at)).1 is GoOn,
{
}

/// The service that the user picks is the one that the run goes on with; a user
/// who picks none leaves the service open.
pub proof fn picked_service_is_taken(
    run: ExportView,
    project: NormalisedProjectView,
    environment: NormalisedEnvironmentView,
    options: Seq<NormalisedServiceView>,
    at: usize,
)
    requires
        run.stage == (StageView::PickingService { project, environment, options }),
    ensures
        at < options.len() ==> next(run, EventView::Picked(at)).0 == (StageView::ServiceChosen {
            project,
            environment,
            service: Some(options[at as int]),
        }),
        at < options.len() ==> next(run, EventView::Picked(at)).1 is GoOn,
        next(run, EventView::Skipped).0 == (StageView::ServiceChosen {
            project,
            environment,
            service: None,
        }),
        next(run, EventView::Skipped).1 is GoOn,
{
}

/// Once the service is known, the details of the chosen project are fetched.
pub proof fn details_of_the_chosen_project_are_fetched(
    run: ExportView,
    project: NormalisedProjectView,
    environment: NormalisedEnvironmentView,
    service: Option<NormalisedServiceView>,
)
    requires
        run.stage == (StageView::ServiceChosen { project, environment, service }),
    ensures
        next(run, EventView::Done).0 == (StageView::FetchingDetails {
            project,
            environment,
            service,
        }),
        next(run, EventView::Done).1 matches ActionView::FetchDetails(query) && query.id
            == project.id,
{
}

/// Once the details are there, the first five deployments of the chosen
/// environment are fetched, of any service and status.
pub proof fn deployments_of_the_chosen_environment_are_fetched(
    run: ExportView,
    project: NormalisedProjectView,
    environment: NormalisedEnvironmentView,
    service: Option<NormalisedServiceView>,
    details: ProjectDetailsView,
)
    requires
        run.stage == (StageView::FetchingDetails { project, environment, service }),
    ensures
        next(run, EventView::Details(details)).0 == (StageView::FetchingDeployments {
            project,
            environment,
            service,
            details,
        }),
        next(run, EventView::Details(details)).1 matches ActionView::FetchDeployments(query) && {
            &&& query.input.project_id == Some(project.id)
            &&& query.input.environment_id == Some(environment.id)
            &&& query.input.service_id is None
            &&& query.input.include_deleted is None
            &&& query.input.status is None
            &&& query.first == Some(5i64)
        },
{
}

/// Once the deployments are there, what is exported of the chosen service, with
/// the manifest of the first of them, is saved in the format asked for and where
/// it should be; or the run fails for the reason that nothing is exported.
pub proof fn the_export_is_saved(
    run: ExportView,
    project: NormalisedProjectView,
    environment: NormalisedEnvironmentView,
    service: Option<NormalisedServiceView>,
    details: ProjectDetailsView,
    deployments: Seq<DeploymentView>,
    chosen: Option<Seq<char>>,
)
    requires
        run.stage == (StageView::FetchingDeployments { project, environment, service, details }),
        service is Some ==> chosen == Some(service->0.id),
        service is None ==> chosen is None,
    ensures
        match service_config(
            details,
            environment.id,
            chosen,
            manifest_of(
                if deployments.len() > 0 {
                    deployments[0].meta
                } else {
                    None
                },
            ),
        ) {
            Err(error) => next(run, EventView::Deployments(deployments)) == (
                StageView::Failed,
                ActionView::Fail(error),
            ),
            Ok(config) => {
                &&& next(run, EventView::Deployments(deployments)).1 matches ActionView::Save {
                    path,
                    json,
                    toml,
                }
                &&& next(run, EventView::Deployments(deployments)).0 == (StageView::Saving { path })
                &&& json == run.args.json
                &&& toml == railway_toml(config)
                &&& run.args.output is Some ==> path == run.args.output->0
                &&& run.args.output is None && run.args.json ==> path == "railway.json"@
                &&& run.args.output is None && !run.args.json ==> path == "railway.toml"@
            },
        },
{
}

/// Once the file is saved, that is reported with the path that it was saved
/// under, and the run is over.
pub proof fn saved_files_are_reported(run: ExportView, path: Seq<char>)
    requires
        run.stage == (StageView::Saving { path }),
    ensures
        next(run, EventView::Done).0 is Finished,
        next(run, EventView::Done).1 == (ActionView::Report { path }),
{
}

} // verus!
