//! Which workspace, project, environment and service to export.
//!
//! Each choice is made from what the user asked for on the command line, from
//! what the working directory is linked to, and, where neither settles it, by
//! asking. Asking is left to the caller: a [`Decision`] says what to ask.
use crate::error::{outcome, ExportError, ExportErrorView};
use crate::model::{
    LinkedProject, LinkedProjectView, Project, ProjectView, Workspace, WorkspaceView,
};
use crate::normalised::{
    normalised, NormalisedEnvironment, NormalisedEnvironmentView, NormalisedProject,
    NormalisedProjectView, NormalisedService, NormalisedServiceView,
};
use crate::search::{any, any_where, find, first_where, keep};
use crate::text::{alike, lower, lowered, same_ignoring_case};
use vstd::prelude::*;

verus! {

/// A choice that was made for the user, to be shown as if the user had made it.
#[derive(Debug, PartialEq, Eq)]
pub struct Echo {
    pub label: String,
    pub answer: String,
}

/// The contents of an [`Echo`].
pub struct EchoView {
    pub label: Seq<char>,
    pub answer: Seq<char>,
}

/// How a choice is settled: a `T` is wanted, the user picks among `O`s.
#[derive(Debug)]
pub enum Decision<T, O> {
    /// The choice is made.
    Chosen { value: T, echo: Option<Echo> },
    /// The user has to pick.
    Ask { label: String, options: Vec<O>, skippable: bool },
}

/// The contents of a [`Decision`].
pub enum DecisionView<T, O> {
    Chosen { value: T, echo: Option<EchoView> },
    Ask { label: Seq<char>, options: Seq<O>, skippable: bool },
}

impl DeepView for Echo {
    type V = EchoView;

    open spec fn deep_view(&self) -> EchoView {
        EchoView { label: self.label@, answer: self.answer@ }
    }
}

impl<T: DeepView, O: DeepView> DeepView for Decision<T, O> {
    type V = DecisionView<T::V, O::V>;

    open spec fn deep_view(&self) -> DecisionView<T::V, O::V> {
        match self {
            Decision::Chosen { value, echo } => DecisionView::Chosen {
                value: value.deep_view(),
                echo: echo.deep_view(),
            },
            Decision::Ask { label, options, skippable } => DecisionView::Ask {
                label: label@,
                options: options.deep_view(),
                skippable: *skippable,
            },
        }
    }
}

/// A choice that is shown.
pub open spec fn shown<T, O>(value: T, label: Seq<char>, answer: Seq<char>) -> DecisionView<T, O> {
    DecisionView::Chosen { value, echo: Some(EchoView { label, answer }) }
}

/// A choice that is not shown.
pub open spec fn silent<T, O>(value: T) -> DecisionView<T, O> {
    DecisionView::Chosen { value, echo: None }
}

/// Shows a choice.
fn show<T: DeepView, O: DeepView>(value: T, label: &str, answer: &str) -> (r: Decision<T, O>)
    ensures
        r.deep_view() == shown::<T::V, O::V>(value.deep_view(), label@, answer@),
{
    Decision::Chosen {
        value,
        echo: Some(Echo { label: label.to_string(), answer: answer.to_string() }),
    }
}

/// An error in words.
fn message(text: &str) -> (r: ExportError)
    ensures
        r.deep_view() == ExportErrorView::Message(text@),
{
    ExportError::Message(text.to_string())
}

/// The test for workspaces that go by `key`: their id, team id or name.
pub open spec fn workspace_called(key: Seq<char>) -> spec_fn(WorkspaceView) -> bool {
    |w: WorkspaceView|
        alike(w.id, key) || (w.team_id is Some && alike(w.team_id->0, key)) || alike(w.name, key)
}

/// The test for projects that go by `key`: their id or name.
pub open spec fn project_called(key: Seq<char>) -> spec_fn(ProjectView) -> bool {
    |p: ProjectView| alike(p.record().id, key) || alike(p.record().name, key)
}

/// The test for projects that the link may mean: the one with its id, and any
/// with its name. A link without a name goes by the empty one.
pub open spec fn project_linked(link: LinkedProjectView) -> spec_fn(ProjectView) -> bool {
    |p: ProjectView|
        alike(p.record().id, link.project) || lower(p.record().name) == match link.name {
            Some(name) => lower(name),
            None => Seq::empty(),
        }
}

/// The test for workspaces with a project that passes `test`.
pub open spec fn with_project(test: spec_fn(ProjectView) -> bool) -> spec_fn(WorkspaceView) -> bool {
    |w: WorkspaceView| any_where(w.projects, test)
}

/// The test for environments that go by `key`: their id or name.
pub open spec fn environment_called(key: Seq<char>) -> spec_fn(NormalisedEnvironmentView) -> bool {
    |e: NormalisedEnvironmentView| alike(e.id, key) || alike(e.name, key)
}

/// The test for services that go by `key`: their id or name.
pub open spec fn service_called(key: Seq<char>) -> spec_fn(NormalisedServiceView) -> bool {
    |s: NormalisedServiceView| alike(s.id, key) || alike(s.name, key)
}

/// The test for services with an instance in the environment.
pub open spec fn runs_in(environment_id: Seq<char>) -> spec_fn(NormalisedServiceView) -> bool {
    |s: NormalisedServiceView| s.service_instances.contains(environment_id)
}

/// The test for projects that were not deleted.
pub open spec fn not_deleted() -> spec_fn(ProjectView) -> bool {
    |p: ProjectView| p.record().deleted_at is None
}

/// How a choice of workspace comes out.
pub type WorkspaceOutcome = Result<DecisionView<WorkspaceView, WorkspaceView>, ExportErrorView>;

/// How a choice of project comes out.
pub type ProjectOutcome = Result<DecisionView<NormalisedProjectView, ProjectView>, ExportErrorView>;

/// How a choice of environment comes out.
pub type EnvironmentOutcome = Result<
    DecisionView<NormalisedEnvironmentView, NormalisedEnvironmentView>,
    ExportErrorView,
>;

/// How a choice of service comes out.
pub type ServiceOutcome = Result<
    DecisionView<Option<NormalisedServiceView>, NormalisedServiceView>,
    ExportErrorView,
>;

/// A workspace that was found, shown by its name.
pub open spec fn found_workspace(w: WorkspaceView) -> WorkspaceOutcome {
    Ok(shown(w, "Select a workspace"@, w.name))
}

/// A project that was found, normalised, and shown by its label.
pub open spec fn found_project(p: ProjectView) -> ProjectOutcome {
    Ok(shown(normalised(p.record()), "Select a project"@, p.record().label))
}

/// An environment that was found, shown by its name.
pub open spec fn found_environment(e: NormalisedEnvironmentView) -> EnvironmentOutcome {
    Ok(shown(e, "Select an environment"@, e.name))
}

/// A workspace by asking, where there is anything to ask.
pub open spec fn asked_workspace(
    workspaces: Seq<WorkspaceView>,
    interactive: bool,
) -> WorkspaceOutcome {
    if workspaces.len() == 0 {
        Err(ExportErrorView::NoProjects)
    } else if workspaces.len() == 1 {
        found_workspace(workspaces[0])
    } else if !interactive {
        Err(
            ExportErrorView::Message(
                "--workspace required in non-interactive mode (multiple workspaces available)"@,
            ),
        )
    } else {
        Ok(
            DecisionView::Ask {
                label: "Select a workspace"@,
                options: workspaces,
                skippable: false,
            },
        )
    }
}

/// The choice of workspace. A workspace that is asked for is found or refused.
/// Else the first with the project that is asked for, or that is linked to, is
/// taken; else the user picks.
pub open spec fn workspace_choice(
    workspace_name: Option<Seq<char>>,
    project: Option<Seq<char>>,
    linked: Option<LinkedProjectView>,
    workspaces: Seq<WorkspaceView>,
    interactive: bool,
) -> WorkspaceOutcome {
    match workspace_name {
        Some(key) => match first_where(workspaces, workspace_called(key)) {
            Some(w) => found_workspace(w),
            None => if lower(key) == "personal"@ {
                Err(ExportErrorView::NoPersonalWorkspace)
            } else {
                Err(ExportErrorView::WorkspaceNotFound(key))
            },
        },
        None => {
            let candidate = match (project, linked) {
                (Some(key), _) => first_where(workspaces, with_project(project_called(key))),
                (None, Some(link)) => first_where(workspaces, with_project(project_linked(link))),
                (None, None) => None,
            };
            match candidate {
                Some(w) => found_workspace(w),
                None => asked_workspace(workspaces, interactive),
            }
        },
    }
}

/// A project by asking.
pub open spec fn asked_project(projects: Seq<ProjectView>, interactive: bool) -> ProjectOutcome {
    if !interactive {
        Err(ExportErrorView::Message("--project required in non-interactive mode"@))
    } else {
        Ok(DecisionView::Ask { label: "Select a project"@, options: projects, skippable: false })
    }
}

/// The choice of project among those of the workspace that were not deleted. A
/// project that is asked for is found or refused. Else the linked one is taken;
/// else the user picks.
pub open spec fn project_choice(
    workspace: WorkspaceView,
    project: Option<Seq<char>>,
    linked: Option<LinkedProjectView>,
    interactive: bool,
) -> ProjectOutcome {
    let projects = workspace.projects.filter(not_deleted());
    match project {
        Some(key) => match first_where(projects, project_called(key)) {
            Some(p) => found_project(p),
            None => Err(ExportErrorView::ProjectNotFoundInWorkspace(key, workspace.name)),
        },
        None => {
            let candidate = match linked {
                Some(link) => first_where(projects, project_called(link.project)),
                None => None,
            };
            match candidate {
                Some(p) => found_project(p),
                None => asked_project(projects, interactive),
            }
        },
    }
}

/// The choice of environment. An environment that is asked for is found or
/// refused. Else the linked one is taken, or the only one; else the user picks.
pub open spec fn environment_choice(
    environment: Option<Seq<char>>,
    project: NormalisedProjectView,
    linked: Option<LinkedProjectView>,
    interactive: bool,
) -> EnvironmentOutcome {
    let environments = project.environments;
    if environments.len() == 0 {
        Err(
            ExportErrorView::Message(
                if project.has_restricted_environments {
                    "All environments in this project are restricted"@
                } else {
                    "Project has no environments"@
                },
            ),
        )
    } else {
        match environment {
            Some(key) => match first_where(environments, environment_called(key)) {
                Some(e) => found_environment(e),
                None => Err(ExportErrorView::EnvironmentNotFound(key)),
            },
            None => {
                let candidate = match linked {
                    Some(link) => match link.environment {
                        Some(key) => first_where(environments, environment_called(key)),
                        None => None,
                    },
                    None => None,
                };
                match candidate {
                    Some(e) => Ok(silent(e)),
                    None => if environments.len() == 1 {
                        found_environment(environments[0])
                    } else if !interactive {
                        Err(
                            ExportErrorView::Message(
                                "--environment required in non-interactive mode (multiple environments available)"@,
                            ),
                        )
                    } else {
                        Ok(
                            DecisionView::Ask {
                                label: "Select an environment"@,
                                options: environments,
                                skippable: false,
                            },
                        )
                    },
                }
            },
        }
    }
}

/// The choice of service among those that run in the environment. Where none
/// does, there is none to choose. A service that is asked for is found or
/// refused. Else the linked one is taken; else the user may pick.
pub open spec fn service_choice(
    project: NormalisedProjectView,
    environment: NormalisedEnvironmentView,
    service: Option<Seq<char>>,
    linked: Option<LinkedProjectView>,
    interactive: bool,
) -> ServiceOutcome {
    let services = project.services.filter(runs_in(environment.id));
    if services.len() == 0 {
        Ok(silent(None))
    } else {
        match service {
            Some(key) => match first_where(services, service_called(key)) {
                Some(s) => Ok(shown(Some(s), "Select a service"@, s.name)),
                None => Err(ExportErrorView::ServiceNotFound(key)),
            },
            None => {
                let candidate = match linked {
                    Some(link) => match link.service {
                        Some(key) => first_where(services, service_called(key)),
                        None => None,
                    },
                    None => None,
                };
                match candidate {
                    Some(s) => Ok(silent(Some(s))),
                    None => if interactive {
                        Ok(
                            DecisionView::Ask {
                                label: "Select a service <esc to skip>"@,
                                options: services,
                                skippable: true,
                            },
                        )
                    } else {
                        Ok(silent(None))
                    },
                }
            },
        }
    }
}

/// Whether the workspace goes by `key`.
fn workspace_is_called(w: &Workspace, key: &String) -> (r: bool)
    ensures
        r == workspace_called(key@)(w.deep_view()),
{
    let team = match w.team_id() {
        Some(team_id) => same_ignoring_case(team_id.as_str(), key.as_str()),
        None => false,
    };
    same_ignoring_case(w.id(), key.as_str()) || team || same_ignoring_case(w.name(), key.as_str())
}

/// Whether the project goes by `key`.
fn project_is_called(p: &Project, key: &String) -> (r: bool)
    ensures
        r == project_called(key@)(p.deep_view()),
{
    same_ignoring_case(p.id(), key.as_str()) || same_ignoring_case(p.name(), key.as_str())
}

/// Whether the link may mean the project.
fn project_is_linked(p: &Project, link: &LinkedProject) -> (r: bool)
    ensures
        r == project_linked(link.deep_view())(p.deep_view()),
{
    let linked_name = match &link.name {
        Some(name) => lowered(name.as_str()),
        None => String::new(),
    };
    same_ignoring_case(p.id(), link.project.as_str()) || lowered(p.name()) == linked_name
}

/// Whether the workspace has a project that goes by `key`.
fn workspace_has_project(w: &Workspace, key: &String) -> (r: bool)
    ensures
        r == with_project(project_called(key@))(w.deep_view()),
{
    let called = |p: &Project| -> (b: bool)
        ensures
            b == project_called(key@)(p.deep_view()),
        { project_is_called(p, key) };
    any(w.projects(), called, Ghost(project_called(key@)))
}

/// Whether the workspace has a project that the link may mean.
fn workspace_has_linked(w: &Workspace, link: &LinkedProject) -> (r: bool)
    ensures
        r == with_project(project_linked(link.deep_view()))(w.deep_view()),
{
    let linked = |p: &Project| -> (b: bool)
        ensures
            b == project_linked(link.deep_view())(p.deep_view()),
        { project_is_linked(p, link) };
    any(w.projects(), linked, Ghost(project_linked(link.deep_view())))
}

/// Takes the workspace at a position and shows it.
fn take_workspace(workspaces: &Vec<Workspace>, at: usize) -> (r: Decision<Workspace, Workspace>)
    requires
        at < workspaces@.len(),
    ensures
        found_workspace(workspaces.deep_view()[at as int]) == WorkspaceOutcome::Ok(r.deep_view()),
{
    let workspace = workspaces[at].clone();
    let name = workspace.name.clone();
    show(workspace, "Select a workspace", name.as_str())
}

/// The first workspace with the project that is asked for or linked to.
fn workspace_of_project(
    project: &Option<String>,
    linked: Option<&LinkedProject>,
    workspaces: &Vec<Workspace>,
) -> (r: Option<usize>)
    ensures
        ({
            let candidate = match (project.deep_view(), linked.deep_view()) {
                (Some(key), _) => first_where(
                    workspaces.deep_view(),
                    with_project(project_called(key)),
                ),
                (None, Some(link)) => first_where(
                    workspaces.deep_view(),
                    with_project(project_linked(link)),
                ),
                (None, None) => None,
            };
            match r {
                Some(at) => at < workspaces@.len() && candidate == Some(
                    workspaces.deep_view()[at as int],
                ),
                None => candidate is None,
            }
        }),
{
    match project {
        Some(key) => {
            let has_it = |w: &Workspace| -> (b: bool)
                ensures
                    b == with_project(project_called(key@))(w.deep_view()),
                { workspace_has_project(w, key) };
            find(workspaces, has_it, Ghost(with_project(project_called(key@))))
        },
        None => match linked {
            Some(link) => {
                let has_it = |w: &Workspace| -> (b: bool)
                    ensures
                        b == with_project(project_linked(link.deep_view()))(w.deep_view()),
                    { workspace_has_linked(w, link) };
                find(workspaces, has_it, Ghost(with_project(project_linked(link.deep_view()))))
            },
            None => None,
        },
    }
}

/// Chooses the workspace to export from.
pub fn select_workspace_with_linked(
    workspace_name: Option<String>,
    project: Option<String>,
    linked_project: Option<&LinkedProject>,
    workspaces: Vec<Workspace>,
    interactive: bool,
) -> (r: Result<Decision<Workspace, Workspace>, ExportError>)
    ensures
        outcome(r) == workspace_choice(
            workspace_name.deep_view(),
            project.deep_view(),
            linked_project.deep_view(),
            workspaces.deep_view(),
            interactive,
        ),
{
    match workspace_name {
        Some(key) => {
            let called = |w: &Workspace| -> (b: bool)
                ensures
                    b == workspace_called(key@)(w.deep_view()),
                { workspace_is_called(w, &key) };
            match find(&workspaces, called, Ghost(workspace_called(key@))) {
                Some(at) => Ok(take_workspace(&workspaces, at)),
                None => if lowered(key.as_str()) == "personal".to_string() {
                    Err(ExportError::NoPersonalWorkspace)
                } else {
                    Err(ExportError::WorkspaceNotFound(key))
                },
            }
        },
        None => match workspace_of_project(&project, linked_project, &workspaces) {
            Some(at) => Ok(take_workspace(&workspaces, at)),
            None => prompt_workspaces(workspaces, interactive),
        },
    }
}

/// Asks for the workspace, where there is anything to ask.
pub fn prompt_workspaces(workspaces: Vec<Workspace>, interactive: bool) -> (r: Result<
    Decision<Workspace, Workspace>,
    ExportError,
>)
    ensures
        outcome(r) == asked_workspace(workspaces.deep_view(), interactive),
{
    if workspaces.is_empty() {
        return Err(ExportError::NoProjects);
    }
    if workspaces.len() == 1 {
        return Ok(take_workspace(&workspaces, 0));
    }
    if !interactive {
        return Err(
            message("--workspace required in non-interactive mode (multiple workspaces available)"),
        );
    }
    Ok(
        Decision::Ask {
            label: "Select a workspace".to_string(),
            options: workspaces,
            skippable: false,
        },
    )
}

/// Takes the project at a position and shows it.
fn take_project(projects: &Vec<Project>, at: usize) -> (r: Decision<NormalisedProject, Project>)
    requires
        at < projects@.len(),
    ensures
        found_project(projects.deep_view()[at as int]) == ProjectOutcome::Ok(r.deep_view()),
{
    let project = projects[at].clone();
    let label = project.label().to_string();
    show(NormalisedProject::from(project), "Select a project", label.as_str())
}

/// The position of the first project that goes by `key`.
fn find_project(projects: &Vec<Project>, key: &String) -> (r: Option<usize>)
    ensures
        r is None <==> first_where(projects.deep_view(), project_called(key@)) is None,
        r matches Some(at) ==> {
            &&& at < projects@.len()
            &&& first_where(projects.deep_view(), project_called(key@)) == Some(
                projects.deep_view()[at as int],
            )
        },
{
    let called = |p: &Project| -> (b: bool)
        ensures
            b == project_called(key@)(p.deep_view()),
        { project_is_called(p, key) };
    find(projects, called, Ghost(project_called(key@)))
}

/// Chooses the project to export.
pub fn select_project_with_linked(
    workspace: Workspace,
    project: Option<String>,
    linked_project: Option<&LinkedProject>,
    interactive: bool,
) -> (r: Result<Decision<NormalisedProject, Project>, ExportError>)
    ensures
        outcome(r) == project_choice(
            workspace.deep_view(),
            project.deep_view(),
            linked_project.deep_view(),
            interactive,
        ),
{
    let there = |p: &Project| -> (b: bool)
        ensures
            b == not_deleted()(p.deep_view()),
        { p.deleted_at().is_none() };
    let projects = keep(workspace.projects(), there, Ghost(not_deleted()));
    match project {
        Some(key) => match find_project(&projects, &key) {
            Some(at) => Ok(take_project(&projects, at)),
            None => Err(
                ExportError::ProjectNotFoundInWorkspace(key, workspace.name().to_string()),
            ),
        },
        None => {
            let candidate = match linked_project {
                Some(link) => find_project(&projects, &link.project),
                None => None,
            };
            match candidate {
                Some(at) => Ok(take_project(&projects, at)),
                None => prompt_workspace_projects(projects, interactive),
            }
        },
    }
}

/// Asks for the project.
pub fn prompt_workspace_projects(projects: Vec<Project>, interactive: bool) -> (r: Result<
    Decision<NormalisedProject, Project>,
    ExportError,
>)
    ensures
        outcome(r) == asked_project(projects.deep_view(), interactive),
{
    if !interactive {
        return Err(message("--project required in non-interactive mode"));
    }
    Ok(
        Decision::Ask {
            label: "Select a project".to_string(),
            options: projects,
            skippable: false,
        },
    )
}

/// The position of the first environment that goes by `key`.
fn find_environment(environments: &Vec<NormalisedEnvironment>, key: &String) -> (r: Option<usize>)
    ensures
        r is None <==> first_where(environments.deep_view(), environment_called(key@)) is None,
        r matches Some(at) ==> {
            &&& at < environments@.len()
            &&& first_where(environments.deep_view(), environment_called(key@)) == Some(
                environments.deep_view()[at as int],
            )
        },
{
    let called = |e: &NormalisedEnvironment| -> (b: bool)
        ensures
            b == environment_called(key@)(e.deep_view()),
        {
            same_ignoring_case(e.id.as_str(), key.as_str()) || same_ignoring_case(
                e.name.as_str(),
                key.as_str(),
            )
        };
    find(environments, called, Ghost(environment_called(key@)))
}

/// Takes the environment at a position and shows it.
fn take_environment(environments: &Vec<NormalisedEnvironment>, at: usize) -> (r: Decision<
    NormalisedEnvironment,
    NormalisedEnvironment,
>)
    requires
        at < environments@.len(),
    ensures
        found_environment(environments.deep_view()[at as int]) == EnvironmentOutcome::Ok(
            r.deep_view(),
        ),
{
    let environment = environments[at].clone();
    let name = environment.name.clone();
    show(environment, "Select an environment", name.as_str())
}

/// Chooses the environment to export.
pub fn select_environment_with_linked(
    environment: Option<String>,
    project: &NormalisedProject,
    linked_project: Option<&LinkedProject>,
    interactive: bool,
) -> (r: Result<Decision<NormalisedEnvironment, NormalisedEnvironment>, ExportError>)
    ensures
        outcome(r) == environment_choice(
            environment.deep_view(),
            project.deep_view(),
            linked_project.deep_view(),
            interactive,
        ),
{
    let environments = &project.environments;
    if environments.is_empty() {
        if project.has_restricted_environments {
            return Err(message("All environments in this project are restricted"));
        } else {
            return Err(message("Project has no environments"));
        }
    }
    if let Some(key) = environment {
        return match find_environment(environments, &key) {
            Some(at) => Ok(take_environment(environments, at)),
            None => Err(ExportError::EnvironmentNotFound(key)),
        };
    }
    let candidate = match linked_project {
        Some(link) => match &link.environment {
            Some(key) => find_environment(environments, key),
            None => None,
        },
        None => None,
    };
    if let Some(at) = candidate {
        return Ok(Decision::Chosen { value: environments[at].clone(), echo: None });
    }
    if environments.len() == 1 {
        return Ok(take_environment(environments, 0));
    }
    if !interactive {
        return Err(
            message(
                "--environment required in non-interactive mode (multiple environments available)",
            ),
        );
    }
    let options = environments.clone();
    assert(options.deep_view() =~= environments.deep_view());
    Ok(Decision::Ask { label: "Select an environment".to_string(), options, skippable: false })
}

/// The position of the first service that goes by `key`.
fn find_service(services: &Vec<NormalisedService>, key: &String) -> (r: Option<usize>)
    ensures
        r is None <==> first_where(services.deep_view(), service_called(key@)) is None,
        r matches Some(at) ==> {
            &&& at < services@.len()
            &&& first_where(services.deep_view(), service_called(key@)) == Some(
                services.deep_view()[at as int],
            )
        },
{
    let called = |s: &NormalisedService| -> (b: bool)
        ensures
            b == service_called(key@)(s.deep_view()),
        {
            same_ignoring_case(s.id.as_str(), key.as_str()) || same_ignoring_case(
                s.name.as_str(),
                key.as_str(),
            )
        };
    find(services, called, Ghost(service_called(key@)))
}

/// Whether the service has an instance in the environment.
fn service_runs_in(s: &NormalisedService, environment_id: &String) -> (r: bool)
    ensures
        r == runs_in(environment_id@)(s.deep_view()),
{
    let is_it = |id: &String| -> (b: bool)
        ensures
            b == (id.deep_view() == environment_id@),
        { *id == *environment_id };
    any(&s.service_instances, is_it, Ghost(|id: Seq<char>| id == environment_id@))
}

/// Chooses the service to export, or none.
pub fn select_service_with_linked(
    project: &NormalisedProject,
    environment: &NormalisedEnvironment,
    service: Option<String>,
    linked_project: Option<&LinkedProject>,
    interactive: bool,
) -> (r: Result<Decision<Option<NormalisedService>, NormalisedService>, ExportError>)
    ensures
        outcome(r) == service_choice(
            project.deep_view(),
            environment.deep_view(),
            service.deep_view(),
            linked_project.deep_view(),
            interactive,
        ),
{
    let runs = |s: &NormalisedService| -> (b: bool)
        ensures
            b == runs_in(environment.id@)(s.deep_view()),
        { service_runs_in(s, &environment.id) };
    let services = keep(&project.services, runs, Ghost(runs_in(environment.id@)));
    if services.is_empty() {
        return Ok(Decision::Chosen { value: None, echo: None });
    }
    if let Some(key) = service {
        return match find_service(&services, &key) {
            Some(at) => {
                let found = services[at].clone();
                let name = found.name.clone();
                Ok(show(Some(found), "Select a service", name.as_str()))
            },
            None => Err(ExportError::ServiceNotFound(key)),
        };
    }
    let candidate = match linked_project {
        Some(link) => match &link.service {
            Some(key) => find_service(&services, key),
            None => None,
        },
        None => None,
    };
    match candidate {
        Some(at) => Ok(Decision::Chosen { value: Some(services[at].clone()), echo: None }),
        None => if interactive {
            Ok(
                Decision::Ask {
                    label: "Select a service <esc to skip>".to_string(),
                    options: services,
                    skippable: true,
                },
            )
        } else {
            Ok(Decision::Chosen { value: None, echo: None })
        },
    }
}

} // verus!
