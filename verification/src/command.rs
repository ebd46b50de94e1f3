//! The export command, from its arguments to the file that is saved.
//!
//! The command alternates decisions with work that only the caller can do:
//! talking to the backend, asking the user, saving the file. [`begin`] and
//! [`command`] make the decisions and say, as an [`Action`], what to do next;
//! the caller does it and hands back, as an [`Event`], what came of it.
use crate::config::{
    build_railway_toml, extract_service_config, id_of, first_meta, railway_toml, service_config,
    RailwayToml, RailwayTomlView,
};
use crate::details::{
    deployment_nodes, DeploymentEdge, DeploymentView, ProjectDetails, ProjectDetailsView,
};
use crate::error::{outcome, ExportError, ExportErrorView};
use crate::manifest::manifest_of;
use crate::model::{
    LinkedProject, LinkedProjectView, Project, ProjectView, Workspace, WorkspaceView,
};
use crate::normalised::{
    normalised, NormalisedEnvironment, NormalisedEnvironmentView, NormalisedProject,
    NormalisedProjectView, NormalisedService, NormalisedServiceView,
};
use crate::request::{
    deployments_query, deployments_variables, project_query, project_variables,
    DeploymentsVariables, DeploymentsVariablesView, ProjectVariables, ProjectVariablesView,
};
use crate::select::{
    environment_choice, project_choice, select_environment_with_linked, select_project_with_linked,
    select_service_with_linked, select_workspace_with_linked, service_choice, workspace_choice,
    Decision, DecisionView, Echo, EchoView,
};
use vstd::prelude::*;

verus! {

/// How many deployments are fetched.
pub const DEPLOYMENTS_FETCHED: i64 = 5;

/// The arguments of the command.
#[derive(Debug, Default, PartialEq, Eq)]
pub struct Args {
    /// Output as JSON instead of TOML
    pub json: bool,
    /// Output file path (default: railway.toml or railway.json)
    pub output: Option<String>,
    /// Environment to export
    pub environment: Option<String>,
    /// Project to export
    pub project: Option<String>,
    /// Service to export
    pub service: Option<String>,
    /// Workspace to export from
    pub workspace: Option<String>,
}

/// The contents of an [`Args`].
pub struct ArgsView {
    pub json: bool,
    pub output: Option<Seq<char>>,
    pub environment: Option<Seq<char>>,
    pub project: Option<Seq<char>>,
    pub service: Option<Seq<char>>,
    pub workspace: Option<Seq<char>>,
}

/// How far the command has come.
pub enum Stage {
    /// The workspaces are being fetched.
    FetchingWorkspaces,
    /// The user is picking a workspace.
    PickingWorkspace { options: Vec<Workspace> },
    /// The workspace is known.
    WorkspaceChosen { workspace: Workspace },
    /// The user is picking a project.
    PickingProject { options: Vec<Project> },
    /// The project is known.
    ProjectChosen { project: NormalisedProject },
    /// The user is picking an environment.
    PickingEnvironment { project: NormalisedProject, options: Vec<NormalisedEnvironment> },
    /// The environment is known.
    EnvironmentChosen { project: NormalisedProject, environment: NormalisedEnvironment },
    /// The user is picking a service.
    PickingService {
        project: NormalisedProject,
        environment: NormalisedEnvironment,
        options: Vec<NormalisedService>,
    },
    /// The service is known, or known to be left open.
    ServiceChosen {
        project: NormalisedProject,
        environment: NormalisedEnvironment,
        service: Option<NormalisedService>,
    },
    /// The project's details are being fetched.
    FetchingDetails {
        project: NormalisedProject,
        environment: NormalisedEnvironment,
        service: Option<NormalisedService>,
    },
    /// The deployments are being fetched.
    FetchingDeployments {
        project: NormalisedProject,
        environment: NormalisedEnvironment,
        service: Option<NormalisedService>,
        details: ProjectDetails,
    },
    /// The file is being saved.
    Saving { path: String },
    /// The file is saved.
    Finished,
    /// The command cannot go on.
    Failed,
}

/// The contents of a [`Stage`].
pub enum StageView {
    FetchingWorkspaces,
    PickingWorkspace { options: Seq<WorkspaceView> },
    WorkspaceChosen { workspace: WorkspaceView },
    PickingProject { options: Seq<ProjectView> },
    ProjectChosen { project: NormalisedProjectView },
    PickingEnvironment {
        project: NormalisedProjectView,
        options: Seq<NormalisedEnvironmentView>,
    },
    EnvironmentChosen { project: NormalisedProjectView, environment: NormalisedEnvironmentView },
    PickingService {
        project: NormalisedProjectView,
        environment: NormalisedEnvironmentView,
        options: Seq<NormalisedServiceView>,
    },
    ServiceChosen {
        project: NormalisedProjectView,
        environment: NormalisedEnvironmentView,
        service: Option<NormalisedServiceView>,
    },
    FetchingDetails {
        project: NormalisedProjectView,
        environment: NormalisedEnvironmentView,
        service: Option<NormalisedServiceView>,
    },
    FetchingDeployments {
        project: NormalisedProjectView,
        environment: NormalisedEnvironmentView,
        service: Option<NormalisedServiceView>,
        details: ProjectDetailsView,
    },
    Saving { path: Seq<char> },
    Finished,
    Failed,
}

/// A run of the command.
pub struct Export {
    pub args: Args,
    /// What the working directory is linked to, if anything.
    pub linked: Option<LinkedProject>,
    /// Whether the user can be asked.
    pub interactive: bool,
    pub stage: Stage,
}

/// The contents of an [`Export`].
pub struct ExportView {
    pub args: ArgsView,
    pub linked: Option<LinkedProjectView>,
    pub interactive: bool,
    pub stage: StageView,
}

/// What came of an action.
pub enum Event {
    /// It is done, and there is nothing to tell.
    Done,
    /// The user picked the option at this position.
    Picked(usize),
    /// The user picked no option.
    Skipped,
    /// The workspaces were fetched.
    Workspaces(Vec<Workspace>),
    /// The project's details were fetched.
    Details(ProjectDetails),
    /// The deployments were fetched.
    Deployments(Vec<DeploymentEdge>),
}

/// The contents of an [`Event`].
pub enum EventView {
    Done,
    Picked(usize),
    Skipped,
    Workspaces(Seq<WorkspaceView>),
    Details(ProjectDetailsView),
    Deployments(Seq<DeploymentView>),
}

/// What to do next.
#[derive(Debug)]
pub enum Action {
    /// Fetch the workspaces.
    FetchWorkspaces,
    /// Show a choice as if the user had made it.
    Show(Echo),
    /// Nothing: go on.
    GoOn,
    /// Have the user pick an option.
    Ask { label: String, options: Vec<String>, skippable: bool },
    /// Fetch the project's details.
    FetchDetails(ProjectVariables),
    /// Fetch the deployments.
    FetchDeployments(DeploymentsVariables),
    /// Save the file, as JSON or as TOML.
    Save { path: String, json: bool, toml: RailwayToml },
    /// Report that the file is saved.
    Report { path: String },
    /// Give up.
    Fail(ExportError),
    /// The event does not belong to the stage; nothing has changed.
    Unexpected,
}

/// The contents of an [`Action`].
pub enum ActionView {
    FetchWorkspaces,
    Show(EchoView),
    GoOn,
    Ask { label: Seq<char>, options: Seq<Seq<char>>, skippable: bool },
    FetchDetails(ProjectVariablesView),
    FetchDeployments(DeploymentsVariablesView),
    Save { path: Seq<char>, json: bool, toml: RailwayTomlView },
    Report { path: Seq<char> },
    Fail(ExportErrorView),
    Unexpected,
}

impl DeepView for Args {
    type V = ArgsView;

    open spec fn deep_view(&self) -> ArgsView {
        ArgsView {
            json: self.json,
            output: self.output.deep_view(),
            environment: self.environment.deep_view(),
            project: self.project.deep_view(),
            service: self.service.deep_view(),
            workspace: self.workspace.deep_view(),
        }
    }
}

impl DeepView for Stage {
    type V = StageView;

    open spec fn deep_view(&self) -> StageView {
        match self {
            Stage::FetchingWorkspaces => StageView::FetchingWorkspaces,
            Stage::PickingWorkspace { options } => StageView::PickingWorkspace {
                options: options.deep_view(),
            },
            Stage::WorkspaceChosen { workspace } => StageView::WorkspaceChosen {
                workspace: workspace.deep_view(),
            },
            Stage::PickingProject { options } => StageView::PickingProject {
                options: options.deep_view(),
            },
            Stage::ProjectChosen { project } => StageView::ProjectChosen {
                project: project.deep_view(),
            },
            Stage::PickingEnvironment { project, options } => StageView::PickingEnvironment {
                project: project.deep_view(),
                options: options.deep_view(),
            },
            Stage::EnvironmentChosen { project, environment } => StageView::EnvironmentChosen {
                project: project.deep_view(),
                environment: environment.deep_view(),
            },
            Stage::PickingService { project, environment, options } => StageView::PickingService {
                project: project.deep_view(),
                environment: environment.deep_view(),
                options: options.deep_view(),
            },
            Stage::ServiceChosen { project, environment, service } => StageView::ServiceChosen {
                project: project.deep_view(),
                environment: environment.deep_view(),
                service: service.deep_view(),
            },
            Stage::FetchingDetails { project, environment, service } => StageView::FetchingDetails {
                project: project.deep_view(),
                environment: environment.deep_view(),
                service: service.deep_view(),
            },
            Stage::FetchingDeployments {
                project,
                environment,
                service,
                details,
            } => StageView::FetchingDeployments {
                project: project.deep_view(),
                environment: environment.deep_view(),
                service: service.deep_view(),
                details: details.deep_view(),
            },
            Stage::Saving { path } => StageView::Saving { path: path@ },
            Stage::Finished => StageView::Finished,
            Stage::Failed => StageView::Failed,
        }
    }
}

impl DeepView for Export {
    type V = ExportView;

    open spec fn deep_view(&self) -> ExportView {
        ExportView {
            args: self.args.deep_view(),
            linked: self.linked.deep_view(),
            interactive: self.interactive,
            stage: self.stage.deep_view(),
        }
    }
}

impl DeepView for Event {
    type V = EventView;

    open spec fn deep_view(&self) -> EventView {
        match self {
            Event::Done => EventView::Done,
            Event::Picked(at) => EventView::Picked(*at),
            Event::Skipped => EventView::Skipped,
            Event::Workspaces(workspaces) => EventView::Workspaces(workspaces.deep_view()),
            Event::Details(details) => EventView::Details(details.deep_view()),
            Event::Deployments(edges) => EventView::Deployments(edges.deep_view()),
        }
    }
}

impl DeepView for Action {
    type V = ActionView;

    open spec fn deep_view(&self) -> ActionView {
        match self {
            Action::FetchWorkspaces => ActionView::FetchWorkspaces,
            Action::Show(echo) => ActionView::Show(echo.deep_view()),
            Action::GoOn => ActionView::GoOn,
            Action::Ask { label, options, skippable } => ActionView::Ask {
                label: label@,
                options: options.deep_view(),
                skippable: *skippable,
            },
            Action::FetchDetails(variables) => ActionView::FetchDetails(variables.deep_view()),
            Action::FetchDeployments(variables) => ActionView::FetchDeployments(
                variables.deep_view(),
            ),
            Action::Save { path, json, toml } => ActionView::Save {
                path: path@,
                json: *json,
                toml: toml.deep_view(),
            },
            Action::Report { path } => ActionView::Report { path: path@ },
            Action::Fail(error) => ActionView::Fail(error.deep_view()),
            Action::Unexpected => ActionView::Unexpected,
        }
    }
}

/// Where the file is saved: where the user says, or else in the working
/// directory under the name that goes with the format.
pub open spec fn output_path_of(args: ArgsView) -> Seq<char> {
    match args.output {
        Some(path) => path,
        None => if args.json {
            "railway.json"@
        } else {
            "railway.toml"@
        },
    }
}

/// How a choice moves the command on: to `chosen` with a value that is known,
/// to `picking` with options that the user is asked about by their `name`s.
pub open spec fn settled<T, O>(
    choice: Result<DecisionView<T, O>, ExportErrorView>,
    chosen: spec_fn(T) -> StageView,
    picking: spec_fn(Seq<O>) -> StageView,
    name: spec_fn(O) -> Seq<char>,
) -> (StageView, ActionView) {
    match choice {
        Err(error) => (StageView::Failed, ActionView::Fail(error)),
        Ok(DecisionView::Chosen { value, echo: Some(echo) }) => (
            chosen(value),
            ActionView::Show(echo),
        ),
        Ok(DecisionView::Chosen { value, echo: None }) => (chosen(value), ActionView::GoOn),
        Ok(DecisionView::Ask { label, options, skippable }) => (
            picking(options),
            ActionView::Ask { label, options: options.map_values(name), skippable },
        ),
    }
}

/// What follows once the workspaces are known.
pub open spec fn after_workspaces(run: ExportView, workspaces: Seq<WorkspaceView>) -> (
    StageView,
    ActionView,
) {
    settled(
        workspace_choice(
            run.args.workspace,
            run.args.project,
            run.linked,
            workspaces,
            run.interactive,
        ),
        |workspace: WorkspaceView| StageView::WorkspaceChosen { workspace },
        |options: Seq<WorkspaceView>| StageView::PickingWorkspace { options },
        |w: WorkspaceView| w.name,
    )
}

/// What follows once the workspace is known.
pub open spec fn after_workspace(run: ExportView, workspace: WorkspaceView) -> (
    StageView,
    ActionView,
) {
    settled(
        project_choice(workspace, run.args.project, run.linked, run.interactive),
        |project: NormalisedProjectView| StageView::ProjectChosen { project },
        |options: Seq<ProjectView>| StageView::PickingProject { options },
        |p: ProjectView| p.record().label,
    )
}

/// What follows once the project is known.
pub open spec fn after_project(run: ExportView, project: NormalisedProjectView) -> (
    StageView,
    ActionView,
) {
    settled(
        environment_choice(run.args.environment, project, run.linked, run.interactive),
        |environment: NormalisedEnvironmentView| StageView::EnvironmentChosen {
            project,
            environment,
        },
        |options: Seq<NormalisedEnvironmentView>| StageView::PickingEnvironment {
            project,
            options,
        },
        |e: NormalisedEnvironmentView| e.name,
    )
}

/// What follows once the environment is known.
pub open spec fn after_environment(
    run: ExportView,
    project: NormalisedProjectView,
    environment: NormalisedEnvironmentView,
) -> (StageView, ActionView) {
    settled(
        service_choice(project, environment, run.args.service, run.linked, run.interactive),
        |service: Option<NormalisedServiceView>| StageView::ServiceChosen {
            project,
            environment,
            service,
        },
        |options: Seq<NormalisedServiceView>| StageView::PickingService {
            project,
            environment,
            options,
        },
        |s: NormalisedServiceView| s.name,
    )
}

/// What follows once the deployments are known.
pub open spec fn after_deployments(
    args: ArgsView,
    environment: NormalisedEnvironmentView,
    service: Option<NormalisedServiceView>,
    details: ProjectDetailsView,
    deployments: Seq<DeploymentView>,
) -> (StageView, ActionView) {
    match service_config(
        details,
        environment.id,
        id_of(service),
        manifest_of(first_meta(deployments)),
    ) {
        Err(error) => (StageView::Failed, ActionView::Fail(error)),
        Ok(config) => (
            StageView::Saving { path: output_path_of(args) },
            ActionView::Save {
                path: output_path_of(args),
                json: args.json,
                toml: railway_toml(config),
            },
        ),
    }
}

/// The stage and the action that follow an event. An event that does not
/// belong to the stage changes nothing.
pub open spec fn next(run: ExportView, event: EventView) -> (StageView, ActionView) {
    match (run.stage, event) {
        (StageView::FetchingWorkspaces, EventView::Workspaces(workspaces)) => after_workspaces(
            run,
            workspaces,
        ),
        (StageView::PickingWorkspace { options }, EventView::Picked(at)) => if at < options.len() {
            (StageView::WorkspaceChosen { workspace: options[at as int] }, ActionView::GoOn)
        } else {
            (run.stage, ActionView::Unexpected)
        },
        (StageView::WorkspaceChosen { workspace }, EventView::Done) => after_workspace(
            run,
            workspace,
        ),
        (StageView::PickingProject { options }, EventView::Picked(at)) => if at < options.len() {
            (
                StageView::ProjectChosen { project: normalised(options[at as int].record()) },
                ActionView::GoOn,
            )
        } else {
            (run.stage, ActionView::Unexpected)
        },
        (StageView::ProjectChosen { project }, EventView::Done) => after_project(run, project),
        (StageView::PickingEnvironment { project, options }, EventView::Picked(at)) => if at
            < options.len() {
            (
                StageView::EnvironmentChosen { project, environment: options[at as int] },
                ActionView::GoOn,
            )
        } else {
            (run.stage, ActionView::Unexpected)
        },
        (StageView::EnvironmentChosen { project, environment }, EventView::Done) =>
            after_environment(run, project, environment),
        (StageView::PickingService { project, environment, options }, EventView::Picked(at)) =>
            if at < options.len() {
                (
                    StageView::ServiceChosen {
                        project,
                        environment,
                        service: Some(options[at as int]),
                    },
                    ActionView::GoOn,
                )
            } else {
                (run.stage, ActionView::Unexpected)
            },
        (StageView::PickingService { project, environment, options }, EventView::Skipped) => (
            StageView::ServiceChosen { project, environment, service: None },
            ActionView::GoOn,
        ),
        (StageView::ServiceChosen { project, environment, service }, EventView::Done) => (
            StageView::FetchingDetails { project, environment, service },
            ActionView::FetchDetails(project_query(project.id)),
        ),
        (
            StageView::FetchingDetails { project, environment, service },
            EventView::Details(details),
        ) => (
            StageView::FetchingDeployments { project, environment, service, details },
            ActionView::FetchDeployments(
                deployments_query(project.id, environment.id, DEPLOYMENTS_FETCHED),
            ),
        ),
        (
            StageView::FetchingDeployments { project, environment, service, details },
            EventView::Deployments(deployments),
        ) => after_deployments(run.args, environment, service, details, deployments),
        (StageView::Saving { path }, EventView::Done) => (
            StageView::Finished,
            ActionView::Report { path },
        ),
        _ => (run.stage, ActionView::Unexpected),
    }
}

/// Where the file is saved.
pub fn output_path(args: &Args) -> (r: String)
    ensures
        r@ == output_path_of(args.deep_view()),
{
    match &args.output {
        Some(path) => path.clone(),
        None => if args.json {
            "railway.json".to_string()
        } else {
            "railway.toml".to_string()
        },
    }
}

/// The name that `name_of`, which reads as `reads` says, gives each item.
fn names<T: DeepView, F: Fn(&T) -> String>(
    items: &Vec<T>,
    name_of: F,
    Ghost(reads): Ghost<spec_fn(T::V) -> Seq<char>>,
) -> (r: Vec<String>)
    requires
        forall|t: &T| #[trigger] name_of.requires((t,)),
        forall|t: &T, s: String| #[trigger]
            name_of.ensures((t,), s) ==> s@ == reads(t.deep_view()),
    ensures
        r.deep_view() == items.deep_view().map_values(reads),
{
    let mut found: Vec<String> = Vec::new();
    let mut i: usize = 0;
    while i < items.len()
        invariant
            0 <= i <= items@.len(),
            found@.len() == i,
            forall|t: &T| #[trigger] name_of.requires((t,)),
            forall|t: &T, s: String| #[trigger]
                name_of.ensures((t,), s) ==> s@ == reads(t.deep_view()),
            forall|j: int|
                0 <= j < i ==> (#[trigger] found@[j])@ == reads(items@[j].deep_view()),
        decreases items@.len() - i,
    {
        found.push(name_of(&items[i]));
        i += 1;
    }
    assert(found.deep_view() =~= items.deep_view().map_values(reads));
    found
}

/// The action that goes with a choice that is made.
fn announce(echo: Option<Echo>) -> (r: Action)
    ensures
        r.deep_view() == match echo.deep_view() {
            Some(e) => ActionView::Show(e),
            None => ActionView::GoOn,
        },
{
    match echo {
        Some(e) => Action::Show(e),
        None => Action::GoOn,
    }
}

/// Goes on once the workspaces are known.
fn choose_workspace(
    args: &Args,
    linked: Option<&LinkedProject>,
    interactive: bool,
    workspaces: Vec<Workspace>,
    Ghost(run): Ghost<ExportView>,
) -> (r: (Stage, Action))
    requires
        run.args == args.deep_view(),
        run.linked == linked.deep_view(),
        run.interactive == interactive,
    ensures
        r.deep_view() == after_workspaces(run, workspaces.deep_view()),
{
    match select_workspace_with_linked(
        args.workspace.clone(),
        args.project.clone(),
        linked,
        workspaces,
        interactive,
    ) {
        Err(error) => (Stage::Failed, Action::Fail(error)),
        Ok(Decision::Chosen { value, echo }) => (
            Stage::WorkspaceChosen { workspace: value },
            announce(echo),
        ),
        Ok(Decision::Ask { label, options, skippable }) => {
            let name_of = |w: &Workspace| -> (s: String)
                ensures
                    s@ == w.deep_view().name,
                { w.name.clone() };
            let labels = names(&options, name_of, Ghost(|w: WorkspaceView| w.name));
            (
                Stage::PickingWorkspace { options },
                Action::Ask { label, options: labels, skippable },
            )
        },
    }
}

/// Goes on once the workspace is known.
fn choose_project(
    args: &Args,
    linked: Option<&LinkedProject>,
    interactive: bool,
    workspace: Workspace,
    Ghost(run): Ghost<ExportView>,
) -> (r: (Stage, Action))
    requires
        run.args == args.deep_view(),
        run.linked == linked.deep_view(),
        run.interactive == interactive,
    ensures
        r.deep_view() == after_workspace(run, workspace.deep_view()),
{
    match select_project_with_linked(workspace, args.project.clone(), linked, interactive) {
        Err(error) => (Stage::Failed, Action::Fail(error)),
        Ok(Decision::Chosen { value, echo }) => (
            Stage::ProjectChosen { project: value },
            announce(echo),
        ),
        Ok(Decision::Ask { label, options, skippable }) => {
            let name_of = |p: &Project| -> (s: String)
                ensures
                    s@ == p.deep_view().record().label,
                { p.label().to_string() };
            let labels = names(&options, name_of, Ghost(|p: ProjectView| p.record().label));
            (Stage::PickingProject { options }, Action::Ask { label, options: labels, skippable })
        },
    }
}

/// Goes on once the project is known.
fn choose_environment(
    args: &Args,
    linked: Option<&LinkedProject>,
    interactive: bool,
    project: NormalisedProject,
    Ghost(run): Ghost<ExportView>,
) -> (r: (Stage, Action))
    requires
        run.args == args.deep_view(),
        run.linked == linked.deep_view(),
        run.interactive == interactive,
    ensures
        r.deep_view() == after_project(run, project.deep_view()),
{
    match select_environment_with_linked(args.environment.clone(), &project, linked, interactive) {
        Err(error) => (Stage::Failed, Action::Fail(error)),
        Ok(Decision::Chosen { value, echo }) => (
            Stage::EnvironmentChosen { project, environment: value },
            announce(echo),
        ),
        Ok(Decision::Ask { label, options, skippable }) => {
            let name_of = |e: &NormalisedEnvironment| -> (s: String)
                ensures
                    s@ == e.deep_view().name,
                { e.to_string() };
            let labels = names(&options, name_of, Ghost(|e: NormalisedEnvironmentView| e.name));
            (
                Stage::PickingEnvironment { project, options },
                Action::Ask { label, options: labels, skippable },
            )
        },
    }
}

/// Goes on once the environment is known.
fn choose_service(
    args: &Args,
    linked: Option<&LinkedProject>,
    interactive: bool,
    project: NormalisedProject,
    environment: NormalisedEnvironment,
    Ghost(run): Ghost<ExportView>,
) -> (r: (Stage, Action))
    requires
        run.args == args.deep_view(),
        run.linked == linked.deep_view(),
        run.interactive == interactive,
    ensures
        r.deep_view() == after_environment(run, project.deep_view(), environment.deep_view()),
{
    match select_service_with_linked(
        &project,
        &environment,
        args.service.clone(),
        linked,
        interactive,
    ) {
        Err(error) => (Stage::Failed, Action::Fail(error)),
        Ok(Decision::Chosen { value, echo }) => (
            Stage::ServiceChosen { project, environment, service: value },
            announce(echo),
        ),
        Ok(Decision::Ask { label, options, skippable }) => {
            let name_of = |s: &NormalisedService| -> (t: String)
                ensures
                    t@ == s.deep_view().name,
                { s.to_string() };
            let labels = names(&options, name_of, Ghost(|s: NormalisedServiceView| s.name));
            (
                Stage::PickingService { project, environment, options },
                Action::Ask { label, options: labels, skippable },
            )
        },
    }
}

/// Goes on once the deployments are known.
fn finish(
    args: &Args,
    environment: &NormalisedEnvironment,
    service: Option<&NormalisedService>,
    details: &ProjectDetails,
    edges: Vec<DeploymentEdge>,
) -> (r: (Stage, Action))
    ensures
        r.deep_view() == after_deployments(
            args.deep_view(),
            environment.deep_view(),
            service.deep_view(),
            details.deep_view(),
            edges.deep_view(),
        ),
{
    let deployments = deployment_nodes(edges);
    match extract_service_config(
        details,
        environment.id.as_str(),
        service,
        deployments.as_slice(),
    ) {
        Err(error) => (Stage::Failed, Action::Fail(error)),
        Ok(config) => {
            let path = output_path(args);
            let toml = build_railway_toml(config, environment.name.as_str());
            (Stage::Saving { path: path.clone() }, Action::Save { path, json: args.json, toml })
        },
    }
}

/// Starts the command.
pub fn begin(args: Args, linked: Option<LinkedProject>, interactive: bool) -> (r: (Export, Action))
    ensures
        r.0.deep_view() == (ExportView {
            args: args.deep_view(),
            linked: linked.deep_view(),
            interactive,
            stage: StageView::FetchingWorkspaces,
        }),
        r.1 == Action::FetchWorkspaces,
{
    (
        Export { args, linked, interactive, stage: Stage::FetchingWorkspaces },
        Action::FetchWorkspaces,
    )
}

/// Moves the command on by what came of its last action.
pub fn command(export: Export, event: Event) -> (r: (Export, Action))
    ensures
        r.0.deep_view() == (ExportView {
            stage: next(export.deep_view(), event.deep_view()).0,
            ..export.deep_view()
        }),
        r.1.deep_view() == next(export.deep_view(), event.deep_view()).1,
{
    let ghost run = export.deep_view();
    let Export { args, linked, interactive, stage } = export;
    let (stage, action) = match (stage, event) {
        (Stage::FetchingWorkspaces, Event::Workspaces(workspaces)) => choose_workspace(
            &args,
            linked.as_ref(),
            interactive,
            workspaces,
            Ghost(run),
        ),
        (Stage::PickingWorkspace { options }, Event::Picked(at)) => if at < options.len() {
            (Stage::WorkspaceChosen { workspace: options[at].clone() }, Action::GoOn)
        } else {
            (Stage::PickingWorkspace { options }, Action::Unexpected)
        },
        (Stage::WorkspaceChosen { workspace }, Event::Done) => choose_project(
            &args,
            linked.as_ref(),
            interactive,
            workspace,
            Ghost(run),
        ),
        (Stage::PickingProject { options }, Event::Picked(at)) => if at < options.len() {
            let project = NormalisedProject::from(options[at].clone());
            (Stage::ProjectChosen { project }, Action::GoOn)
        } else {
            (Stage::PickingProject { options }, Action::Unexpected)
        },
        (Stage::ProjectChosen { project }, Event::Done) => choose_environment(
            &args,
            linked.as_ref(),
            interactive,
            project,
            Ghost(run),
        ),
        (Stage::PickingEnvironment { project, options }, Event::Picked(at)) => if at
            < options.len() {
            let environment = options[at].clone();
            (Stage::EnvironmentChosen { project, environment }, Action::GoOn)
        } else {
            (Stage::PickingEnvironment { project, options }, Action::Unexpected)
        },
        (Stage::EnvironmentChosen { project, environment }, Event::Done) => choose_service(
            &args,
            linked.as_ref(),
            interactive,
            project,
            environment,
            Ghost(run),
        ),
        (Stage::PickingService { project, environment, options }, Event::Picked(at)) => if at
            < options.len() {
            let service = Some(options[at].clone());
            (Stage::ServiceChosen { project, environment, service }, Action::GoOn)
        } else {
            (Stage::PickingService { project, environment, options }, Action::Unexpected)
        },
        (Stage::PickingService { project, environment, options: _ }, Event::Skipped) => (
            Stage::ServiceChosen { project, environment, service: None },
            Action::GoOn,
        ),
        (Stage::ServiceChosen { project, environment, service }, Event::Done) => {
            let variables = project_variables(project.id());
            (
                Stage::FetchingDetails { project, environment, service },
                Action::FetchDetails(variables),
            )
        },
        (Stage::FetchingDetails { project, environment, service }, Event::Details(details)) => {
            let variables = deployments_variables(
                project.id(),
                environment.id.as_str(),
                DEPLOYMENTS_FETCHED,
            );
            (
                Stage::FetchingDeployments { project, environment, service, details },
                Action::FetchDeployments(variables),
            )
        },
        (
            Stage::FetchingDeployments { project: _, environment, service, details },
            Event::Deployments(edges),
        ) => finish(&args, &environment, service.as_ref(), &details, edges),
        (Stage::Saving { path }, Event::Done) => (Stage::Finished, Action::Report { path }),
        (stage, _) => (stage, Action::Unexpected),
    };
    (Export { args, linked, interactive, stage }, action)
}

} // verus!
