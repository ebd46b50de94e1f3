//! How each choice comes out, told from what there is to choose from.
use crate::error::ExportErrorView;
use crate::model::{LinkedProjectView, ProjectView, WorkspaceView};
use crate::normalised::{
    normalised, NormalisedEnvironmentView, NormalisedProjectView, NormalisedServiceView,
};
use crate::search::{
    first_where, in_order, lemma_filter_in_order, lemma_first_kept_at, lemma_first_kept_none,
    lemma_first_where_at, lemma_first_where_none,
};
use crate::select::{
    asked_project, asked_workspace, environment_called, environment_choice, not_deleted,
    project_called, project_choice, project_linked, runs_in, service_called, service_choice,
    with_project, workspace_called, workspace_choice, DecisionView, EchoView, EnvironmentOutcome,
    ProjectOutcome, ServiceOutcome, WorkspaceOutcome,
};
use crate::text::{alike, lower, unicode_lower};
use vstd::prelude::*;

verus! {

/// Lowering ASCII text turns `A` to `Z` into `a` to `z` and keeps every other
/// character, and the length.
pub proof fn ascii_is_lowered_letter_by_letter(s: Seq<char>)
    requires
        forall|i: int| 0 <= i < s.len() ==> (#[trigger] s[i] as u32) < 128,
    ensures
        lower(s).len() == s.len(),
        forall|i: int|
            0 <= i < s.len() ==> #[trigger] lower(s)[i] as u32 == if 65 <= s[i] as u32 <= 90 {
                s[i] as u32 + 32
            } else {
                s[i] as u32 as int
            },
{
}

/// Text that is not all ASCII has the lower case that Unicode gives it.
pub proof fn other_text_is_lowered_as_unicode_says(s: Seq<char>, at: int)
    requires
        0 <= at < s.len(),
        s[at] as u32 >= 128,
    ensures
        lower(s) == unicode_lower(s),
{
}

/// Texts are alike just when their lower cases are equal; ASCII texts, just when
/// they are as long as each other and differ at most between `A` and `a`, `B`
/// and `b`, and so on.
pub proof fn texts_are_alike_up_to_case(a: Seq<char>, b: Seq<char>)
    ensures
        alike(a, b) <==> lower(a) == lower(b),
        ((forall|i: int| 0 <= i < a.len() ==> (#[trigger] a[i] as u32) < 128) && (forall|i: int|
            0 <= i < b.len() ==> (#[trigger] b[i] as u32) < 128)) ==> (alike(a, b) <==> {
            &&& a.len() == b.len()
            &&& forall|i: int|
                0 <= i < a.len() ==> {
                    ||| #[trigger] a[i] == #[trigger] b[i]
                    ||| 65 <= a[i] as u32 <= 90 && b[i] as u32 == a[i] as u32 + 32
                    ||| 65 <= b[i] as u32 <= 90 && a[i] as u32 == b[i] as u32 + 32
                }
        }),
{
    if (forall|i: int| 0 <= i < a.len() ==> (#[trigger] a[i] as u32) < 128) && (forall|i: int|
        0 <= i < b.len() ==> (#[trigger] b[i] as u32) < 128) {
        ascii_is_lowered_letter_by_letter(a);
        ascii_is_lowered_letter_by_letter(b);
        if alike(a, b) {
            assert forall|i: int| 0 <= i < a.len() implies {
                ||| #[trigger] a[i] == #[trigger] b[i]
                ||| 65 <= a[i] as u32 <= 90 && b[i] as u32 == a[i] as u32 + 32
                ||| 65 <= b[i] as u32 <= 90 && a[i] as u32 == b[i] as u32 + 32
            } by {
                assert(lower(a)[i] as u32 == lower(b)[i] as u32);
            }
        }
        if a.len() == b.len() && forall|i: int|
            0 <= i < a.len() ==> {
                ||| #[trigger] a[i] == #[trigger] b[i]
                ||| 65 <= a[i] as u32 <= 90 && b[i] as u32 == a[i] as u32 + 32
                ||| 65 <= b[i] as u32 <= 90 && a[i] as u32 == b[i] as u32 + 32
            } {
            assert forall|i: int| 0 <= i < a.len() implies lower(a)[i] == lower(b)[i] by {
                let _ = (a[i], b[i]);
                assert(lower(a)[i] as u32 == lower(b)[i] as u32);
            }
            assert(lower(a) =~= lower(b));
        }
    }
}

/// Whether the workspace goes by `key`: its id, its team's id or its name.
pub open spec fn workspace_goes_by(w: WorkspaceView, key: Seq<char>) -> bool {
    alike(w.id, key) || alike(w.name, key) || (w.team_id matches Some(team) && alike(team, key))
}

/// Whether a project with this id and name goes by `key`.
pub open spec fn goes_by(id: Seq<char>, name: Seq<char>, key: Seq<char>) -> bool {
    alike(id, key) || alike(name, key)
}

/// Whether the workspace has a project, deleted or not, that goes by `key`.
pub open spec fn has_project(w: WorkspaceView, key: Seq<char>) -> bool {
    exists|i: int|
        0 <= i < w.projects.len() && goes_by(
            (#[trigger] w.projects[i]).record().id,
            w.projects[i].record().name,
            key,
        )
}

/// Whether the link may mean a project of the workspace: one with the id that
/// is linked to, or with the linked name, which is empty if the link has none.
pub open spec fn has_linked(w: WorkspaceView, link: LinkedProjectView) -> bool {
    exists|i: int|
        0 <= i < w.projects.len() && {
            ||| alike((#[trigger] w.projects[i]).record().id, link.project)
            ||| (link.name matches Some(name) && alike(w.projects[i].record().name, name))
            ||| (link.name is None && lower(w.projects[i].record().name).len() == 0)
        }
}

proof fn lemma_has_project(w: WorkspaceView, key: Seq<char>)
    ensures
        with_project(project_called(key))(w) == has_project(w, key),
{
    if has_project(w, key) {
        let i = choose|i: int|
            0 <= i < w.projects.len() && goes_by(
                (#[trigger] w.projects[i]).record().id,
                w.projects[i].record().name,
                key,
            );
        assert(project_called(key)(w.projects[i]));
    }
    if with_project(project_called(key))(w) {
        let i = choose|i: int|
            0 <= i < w.projects.len() && project_called(key)(#[trigger] w.projects[i]);
        assert(goes_by(w.projects[i].record().id, w.projects[i].record().name, key));
    }
}

proof fn lemma_has_linked(w: WorkspaceView, link: LinkedProjectView)
    ensures
        with_project(project_linked(link))(w) == has_linked(w, link),
{
    assert forall|s: Seq<char>| #[trigger] s.len() == 0 <==> s == Seq::<char>::empty() by {
        if s.len() == 0 {
            assert(s =~= Seq::<char>::empty());
        }
    }
    if has_linked(w, link) {
        let i = choose|i: int|
            0 <= i < w.projects.len() && {
                ||| alike((#[trigger] w.projects[i]).record().id, link.project)
                ||| (link.name matches Some(name) && alike(w.projects[i].record().name, name))
                ||| (link.name is None && lower(w.projects[i].record().name).len() == 0)
            };
        assert(project_linked(link)(w.projects[i]));
    }
    if with_project(project_linked(link))(w) {
        let i = choose|i: int|
            0 <= i < w.projects.len() && project_linked(link)(#[trigger] w.projects[i]);
        assert(lower(w.projects[i].record().name).len() == 0 || link.name is Some || alike(
            w.projects[i].record().id,
            link.project,
        ));
    }
}

/// A workspace that is taken, and shown by its name.
pub open spec fn workspace_taken(w: WorkspaceView) -> WorkspaceOutcome {
    Ok(
        DecisionView::Chosen {
            value: w,
            echo: Some(EchoView { label: "Select a workspace"@, answer: w.name }),
        },
    )
}

/// The first workspace that goes by what is asked for is taken and shown by its
/// name, whatever else is asked for or linked to.
pub proof fn workspace_asked_for_is_taken(
    key: Seq<char>,
    project: Option<Seq<char>>,
    linked: Option<LinkedProjectView>,
    workspaces: Seq<WorkspaceView>,
    interactive: bool,
    at: int,
)
    requires
        0 <= at < workspaces.len(),
        workspace_goes_by(workspaces[at], key),
        forall|i: int| 0 <= i < at ==> !workspace_goes_by(#[trigger] workspaces[i], key),
    ensures
        workspace_choice(Some(key), project, linked, workspaces, interactive) == workspace_taken(
            workspaces[at],
        ),
{
    assert forall|i: int| 0 <= i < at implies !workspace_called(key)(#[trigger] workspaces[i]) by {
        assert(!workspace_goes_by(workspaces[i], key));
    }
    lemma_first_where_at(workspaces, workspace_called(key), at);
}

/// A workspace that is asked for and not there is refused: the personal one by
/// saying that there is none, any other by what was asked for.
pub proof fn workspace_asked_for_and_missing_is_refused(
    key: Seq<char>,
    project: Option<Seq<char>>,
    linked: Option<LinkedProjectView>,
    workspaces: Seq<WorkspaceView>,
    interactive: bool,
)
    requires
        forall|i: int|
            0 <= i < workspaces.len() ==> !workspace_goes_by(#[trigger] workspaces[i], key),
    ensures
        workspace_choice(Some(key), project, linked, workspaces, interactive)
            == WorkspaceOutcome::Err(
            if lower(key) == "personal"@ {
                ExportErrorView::NoPersonalWorkspace
            } else {
                ExportErrorView::WorkspaceNotFound(key)
            },
        ),
{
    assert forall|i: int| 0 <= i < workspaces.len() implies !workspace_called(key)(
        #[trigger] workspaces[i],
    ) by {
        assert(!workspace_goes_by(workspaces[i], key));
    }
    lemma_first_where_none(workspaces, workspace_called(key));
}

/// Where only a project is asked for, the first workspace that has a project
/// going by it is taken and shown, whether or not the user can be asked and
/// whatever is linked to.
pub proof fn workspace_of_the_project_asked_for_is_taken(
    key: Seq<char>,
    linked: Option<LinkedProjectView>,
    workspaces: Seq<WorkspaceView>,
    interactive: bool,
    at: int,
)
    requires
        0 <= at < workspaces.len(),
        has_project(workspaces[at], key),
        forall|i: int| 0 <= i < at ==> !has_project(#[trigger] workspaces[i], key),
    ensures
        workspace_choice(None, Some(key), linked, workspaces, interactive) == workspace_taken(
            workspaces[at],
        ),
{
    let test = with_project(project_called(key));
    assert forall|i: int| 0 <= i <= at implies test(#[trigger] workspaces[i]) == has_project(
        workspaces[i],
        key,
    ) by {
        lemma_has_project(workspaces[i], key);
    }
    lemma_first_where_at(workspaces, test, at);
}

/// Where nothing is asked for, the first workspace with a project that the link
/// may mean is taken and shown, whether or not the user can be asked.
pub proof fn workspace_of_the_linked_project_is_taken(
    link: LinkedProjectView,
    workspaces: Seq<WorkspaceView>,
    interactive: bool,
    at: int,
)
    requires
        0 <= at < workspaces.len(),
        has_linked(workspaces[at], link),
        forall|i: int| 0 <= i < at ==> !has_linked(#[trigger] workspaces[i], link),
    ensures
        workspace_choice(None, None, Some(link), workspaces, interactive) == workspace_taken(
            workspaces[at],
        ),
{
    let test = with_project(project_linked(link));
    assert forall|i: int| 0 <= i <= at implies test(#[trigger] workspaces[i]) == has_linked(
        workspaces[i],
        link,
    ) by {
        lemma_has_linked(workspaces[i], link);
    }
    lemma_first_where_at(workspaces, test, at);
}

/// Asking for a workspace: without any, there is nothing to export; an only one
/// is taken and shown; among several the user picks, or is told to name one.
pub proof fn workspaces_are_asked_about(workspaces: Seq<WorkspaceView>, interactive: bool)
    ensures
        workspaces.len() == 0 ==> asked_workspace(workspaces, interactive) == WorkspaceOutcome::Err(
            ExportErrorView::NoProjects,
        ),
        workspaces.len() == 1 ==> asked_workspace(workspaces, interactive) == workspace_taken(
            workspaces[0],
        ),
        workspaces.len() > 1 && interactive ==> asked_workspace(workspaces, interactive)
            == WorkspaceOutcome::Ok(
            DecisionView::Ask {
                label: "Select a workspace"@,
                options: workspaces,
                skippable: false,
            },
        ),
        workspaces.len() > 1 && !interactive ==> asked_workspace(workspaces, interactive)
            == WorkspaceOutcome::Err(
            ExportErrorView::Message(
                "--workspace required in non-interactive mode (multiple workspaces available)"@,
            ),
        ),
{
}

/// Where no workspace is asked for, and what is asked for or linked to leads to
/// none, the workspace is asked about.
pub proof fn unsettled_workspace_is_asked_about(
    project: Option<Seq<char>>,
    linked: Option<LinkedProjectView>,
    workspaces: Seq<WorkspaceView>,
    interactive: bool,
)
    requires
        project matches Some(key) ==> forall|i: int|
            0 <= i < workspaces.len() ==> !has_project(#[trigger] workspaces[i], key),
        (project is None && linked is Some) ==> forall|i: int|
            0 <= i < workspaces.len() ==> !has_linked(#[trigger] workspaces[i], linked->0),
    ensures
        workspace_choice(None, project, linked, workspaces, interactive) == asked_workspace(
            workspaces,
            interactive,
        ),
{
    match (project, linked) {
        (Some(key), _) => {
            assert forall|i: int| 0 <= i < workspaces.len() implies !with_project(
                project_called(key),
            )(#[trigger] workspaces[i]) by {
                lemma_has_project(workspaces[i], key);
            }
            lemma_first_where_none(workspaces, with_project(project_called(key)));
        },
        (None, Some(link)) => {
            assert forall|i: int| 0 <= i < workspaces.len() implies !with_project(
                project_linked(link),
            )(#[trigger] workspaces[i]) by {
                lemma_has_linked(workspaces[i], link);
            }
            lemma_first_where_none(workspaces, with_project(project_linked(link)));
        },
        (None, None) => {},
    }
}

/// Whether the project was not deleted and goes by `key`.
pub open spec fn live_by(p: ProjectView, key: Seq<char>) -> bool {
    p.record().deleted_at is None && goes_by(p.record().id, p.record().name, key)
}

/// A project that is taken, normalised, and shown by its label.
pub open spec fn project_taken(p: ProjectView) -> ProjectOutcome {
    Ok(
        DecisionView::Chosen {
            value: normalised(p.record()),
            echo: Some(EchoView { label: "Select a project"@, answer: p.record().label }),
        },
    )
}

/// The first project of the workspace that was not deleted and goes by what is
/// asked for, or else by the id that is linked to, is taken and shown.
pub proof fn project_asked_for_or_linked_is_taken(
    key: Seq<char>,
    workspace: WorkspaceView,
    project: Option<Seq<char>>,
    linked: Option<LinkedProjectView>,
    interactive: bool,
    at: int,
)
    requires
        project == Some(key) || (project is None && linked is Some && linked->0.project == key),
        0 <= at < workspace.projects.len(),
        live_by(workspace.projects[at], key),
        forall|i: int| 0 <= i < at ==> !live_by(#[trigger] workspace.projects[i], key),
    ensures
        project_choice(workspace, project, linked, interactive) == project_taken(
            workspace.projects[at],
        ),
{
    let projects = workspace.projects;
    assert forall|i: int| 0 <= i < at implies !(not_deleted()(#[trigger] projects[i])
        && project_called(key)(projects[i])) by {
        assert(!live_by(projects[i], key));
    }
    lemma_first_kept_at(projects, not_deleted(), project_called(key), at);
}

/// A project that is asked for and is not there, or was deleted, is refused by
/// what was asked for and by the workspace's name.
pub proof fn project_asked_for_and_missing_is_refused(
    key: Seq<char>,
    workspace: WorkspaceView,
    linked: Option<LinkedProjectView>,
    interactive: bool,
)
    requires
        forall|i: int|
            0 <= i < workspace.projects.len() ==> !live_by(#[trigger] workspace.projects[i], key),
    ensures
        project_choice(workspace, Some(key), linked, interactive) == ProjectOutcome::Err(
            ExportErrorView::ProjectNotFoundInWorkspace(key, workspace.name),
        ),
{
    let projects = workspace.projects;
    assert forall|i: int| 0 <= i < projects.len() implies !(not_deleted()(#[trigger] projects[i])
        && project_called(key)(projects[i])) by {
        assert(!live_by(projects[i], key));
    }
    lemma_first_kept_none(projects, not_deleted(), project_called(key));
}

/// Asking for a project: the user picks among all that are offered, or is told
/// to name one.
pub proof fn projects_are_asked_about(projects: Seq<ProjectView>, interactive: bool)
    ensures
        asked_project(projects, interactive) == if interactive {
            ProjectOutcome::Ok(
                DecisionView::Ask {
                    label: "Select a project"@,
                    options: projects,
                    skippable: false,
                },
            )
        } else {
            ProjectOutcome::Err(
                ExportErrorView::Message("--project required in non-interactive mode"@),
            )
        },
{
}

/// Where no project is asked for and the link leads to none, the user picks
/// among the projects that were not deleted, in their order, or is told to name
/// one. The result lists where the options stand in the workspace.
pub proof fn unsettled_project_is_asked_about(
    workspace: WorkspaceView,
    linked: Option<LinkedProjectView>,
    interactive: bool,
) -> (at: Seq<int>)
    requires
        linked matches Some(link) ==> forall|i: int|
            0 <= i < workspace.projects.len() ==> !live_by(
                #[trigger] workspace.projects[i],
                link.project,
            ),
    ensures
        in_order(
            at,
            workspace.projects.len(),
            |k: int| workspace.projects[k].record().deleted_at is None,
        ),
        !interactive ==> project_choice(workspace, None, linked, interactive)
            == ProjectOutcome::Err(
            ExportErrorView::Message("--project required in non-interactive mode"@),
        ),
        interactive ==> (project_choice(workspace, None, linked, interactive) matches Ok(
            DecisionView::Ask { label, options, skippable },
        ) && {
            &&& label == "Select a project"@
            &&& !skippable
            &&& options.len() == at.len()
            &&& forall|i: int|
                0 <= i < at.len() ==> #[trigger] options[i] == workspace.projects[at[i]]
        }),
{
    let projects = workspace.projects;
    if linked is Some {
        let key = linked->0.project;
        assert forall|i: int| 0 <= i < projects.len() implies !(not_deleted()(
            #[trigger] projects[i],
        ) && project_called(key)(projects[i])) by {
            assert(!live_by(projects[i], key));
        }
        lemma_first_kept_none(projects, not_deleted(), project_called(key));
    }
    lemma_filter_in_order(
        projects,
        not_deleted(),
        |k: int| workspace.projects[k].record().deleted_at is None,
    )
}

/// A project without environments for the user is refused, by whether any was
/// hidden, whatever is asked for.
pub proof fn project_without_environments_is_refused(
    environment: Option<Seq<char>>,
    project: NormalisedProjectView,
    linked: Option<LinkedProjectView>,
    interactive: bool,
)
    requires
        project.environments.len() == 0,
    ensures
        project.has_restricted_environments ==> environment_choice(
            environment,
            project,
            linked,
            interactive,
        ) == EnvironmentOutcome::Err(
            ExportErrorView::Message("All environments in this project are restricted"@),
        ),
        !project.has_restricted_environments ==> environment_choice(
            environment,
            project,
            linked,
            interactive,
        ) == EnvironmentOutcome::Err(ExportErrorView::Message("Project has no environments"@)),
{
}

/// The first environment that goes by what is asked for is taken and shown by
/// its name, whatever is linked to.
pub proof fn environment_asked_for_is_taken(
    key: Seq<char>,
    project: NormalisedProjectView,
    linked: Option<LinkedProjectView>,
    interactive: bool,
    at: int,
)
    requires
        0 <= at < project.environments.len(),
        goes_by(project.environments[at].id, project.environments[at].name, key),
        forall|i: int|
            0 <= i < at ==> !goes_by(
                (#[trigger] project.environments[i]).id,
                project.environments[i].name,
                key,
            ),
    ensures
        environment_choice(Some(key), project, linked, interactive) == EnvironmentOutcome::Ok(
            DecisionView::Chosen {
                value: project.environments[at],
                echo: Some(
                    EchoView {
                        label: "Select an environment"@,
                        answer: project.environments[at].name,
                    },
                ),
            },
        ),
{
    lemma_first_environment(project.environments, key, at);
}

proof fn lemma_first_environment(
    environments: Seq<NormalisedEnvironmentView>,
    key: Seq<char>,
    at: int,
)
    requires
        0 <= at < environments.len(),
        goes_by(environments[at].id, environments[at].name, key),
        forall|i: int|
            0 <= i < at ==> !goes_by((#[trigger] environments[i]).id, environments[i].name, key),
    ensures
        first_where(environments, environment_called(key)) == Some(environments[at]),
{
    assert forall|i: int| 0 <= i < at implies !environment_called(key)(
        #[trigger] environments[i],
    ) by {
        assert(!goes_by(environments[i].id, environments[i].name, key));
    }
    lemma_first_where_at(environments, environment_called(key), at);
}

proof fn lemma_no_environment(environments: Seq<NormalisedEnvironmentView>, key: Seq<char>)
    requires
        forall|i: int|
            0 <= i < environments.len() ==> !goes_by(
                (#[trigger] environments[i]).id,
                environments[i].name,
                key,
            ),
    ensures
        first_where(environments, environment_called(key)) is None,
{
    assert forall|i: int| 0 <= i < environments.len() implies !environment_called(key)(
        #[trigger] environments[i],
    ) by {
        assert(!goes_by(environments[i].id, environments[i].name, key));
    }
    lemma_first_where_none(environments, environment_called(key));
}

/// An environment that is asked for and is not there is refused by what was
/// asked for.
pub proof fn environment_asked_for_and_missing_is_refused(
    key: Seq<char>,
    project: NormalisedProjectView,
    linked: Option<LinkedProjectView>,
    interactive: bool,
)
    requires
        project.environments.len() > 0,
        forall|i: int|
            0 <= i < project.environments.len() ==> !goes_by(
                (#[trigger] project.environments[i]).id,
                project.environments[i].name,
                key,
            ),
    ensures
        environment_choice(Some(key), project, linked, interactive) == EnvironmentOutcome::Err(
            ExportErrorView::EnvironmentNotFound(key),
        ),
{
    lemma_no_environment(project.environments, key);
}

/// Where no environment is asked for, the first that goes by what is linked to,
/// id or name, is taken without being shown, whether or not the user can be
/// asked.
pub proof fn linked_environment_is_taken(
    key: Seq<char>,
    project: NormalisedProjectView,
    link: LinkedProjectView,
    interactive: bool,
    at: int,
)
    requires
        link.environment == Some(key),
        0 <= at < project.environments.len(),
        goes_by(project.environments[at].id, project.environments[at].name, key),
        forall|i: int|
            0 <= i < at ==> !goes_by(
                (#[trigger] project.environments[i]).id,
                project.environments[i].name,
                key,
            ),
    ensures
        environment_choice(None, project, Some(link), interactive) == EnvironmentOutcome::Ok(
            DecisionView::Chosen { value: project.environments[at], echo: None },
        ),
{
    lemma_first_environment(project.environments, key, at);
}

/// Where no environment is asked for and the link leads to none, an only one is
/// taken and shown; among several the user picks, or is told to name one.
pub proof fn unsettled_environment_is_asked_about(
    project: NormalisedProjectView,
    linked: Option<LinkedProjectView>,
    interactive: bool,
)
    requires
        project.environments.len() > 0,
        (linked is Some && linked->0.environment is Some) ==> forall|i: int|
            0 <= i < project.environments.len() ==> !goes_by(
                (#[trigger] project.environments[i]).id,
                project.environments[i].name,
                linked->0.environment->0,
            ),
    ensures
        project.environments.len() == 1 ==> environment_choice(None, project, linked, interactive)
            == EnvironmentOutcome::Ok(
            DecisionView::Chosen {
                value: project.environments[0],
                echo: Some(
                    EchoView {
                        label: "Select an environment"@,
                        answer: project.environments[0].name,
                    },
                ),
            },
        ),
        project.environments.len() > 1 && interactive ==> environment_choice(
            None,
            project,
            linked,
            interactive,
        ) == EnvironmentOutcome::Ok(
            DecisionView::Ask {
                label: "Select an environment"@,
                options: project.environments,
                skippable: false,
            },
        ),
        project.environments.len() > 1 && !interactive ==> environment_choice(
            None,
            project,
            linked,
            interactive,
        ) == EnvironmentOutcome::Err(
            ExportErrorView::Message(
                "--environment required in non-interactive mode (multiple environments available)"@,
            ),
        ),
{
    if linked is Some && linked->0.environment is Some {
        lemma_no_environment(project.environments, linked->0.environment->0);
    }
}

/// Whether the service has an instance in the environment and goes by `key`.
pub open spec fn runs_by(
    s: NormalisedServiceView,
    environment_id: Seq<char>,
    key: Seq<char>,
) -> bool {
    s.service_instances.contains(environment_id) && goes_by(s.id, s.name, key)
}

/// Where no service runs in the environment, none is chosen, whatever is asked
/// for.
pub proof fn without_services_none_is_chosen(
    project: NormalisedProjectView,
    environment: NormalisedEnvironmentView,
    service: Option<Seq<char>>,
    linked: Option<LinkedProjectView>,
    interactive: bool,
)
    requires
        forall|i: int|
            0 <= i < project.services.len() ==> !(
            #[trigger] project.services[i]).service_instances.contains(environment.id),
    ensures
        service_choice(project, environment, service, linked, interactive) == ServiceOutcome::Ok(
            DecisionView::Chosen { value: None, echo: None },
        ),
{
    let places = lemma_filter_in_order(
        project.services,
        runs_in(environment.id),
        |k: int| runs_in(environment.id)(project.services[k]),
    );
    if places.len() > 0 {
        assert(places.contains(places[0]));
        assert(!project.services[places[0]].service_instances.contains(environment.id));
    }
}

proof fn lemma_first_service(
    project: NormalisedProjectView,
    environment: NormalisedEnvironmentView,
    key: Seq<char>,
    at: int,
)
    requires
        0 <= at < project.services.len(),
        runs_by(project.services[at], environment.id, key),
        forall|i: int|
            0 <= i < at ==> !runs_by(#[trigger] project.services[i], environment.id, key),
    ensures
        project.services.filter(runs_in(environment.id)).len() > 0,
        first_where(
            project.services.filter(runs_in(environment.id)),
            service_called(key),
        ) == Some(project.services[at]),
{
    let services = project.services;
    let runs = runs_in(environment.id);
    assert forall|i: int| 0 <= i < at implies !(runs(#[trigger] services[i]) && service_called(key)(
        services[i],
    )) by {
        assert(!runs_by(services[i], environment.id, key));
    }
    lemma_first_kept_at(services, runs, service_called(key), at);
}

proof fn lemma_no_service(
    project: NormalisedProjectView,
    environment: NormalisedEnvironmentView,
    key: Seq<char>,
)
    requires
        forall|i: int|
            0 <= i < project.services.len() ==> !runs_by(
                #[trigger] project.services[i],
                environment.id,
                key,
            ),
    ensures
        first_where(
            project.services.filter(runs_in(environment.id)),
            service_called(key),
        ) is None,
{
    let services = project.services;
    let runs = runs_in(environment.id);
    assert forall|i: int| 0 <= i < services.len() implies !(runs(#[trigger] services[i])
        && service_called(key)(services[i])) by {
        assert(!runs_by(services[i], environment.id, key));
    }
    lemma_first_kept_none(services, runs, service_called(key));
}

proof fn lemma_some_service(
    project: NormalisedProjectView,
    environment: NormalisedEnvironmentView,
    there: int,
)
    requires
        0 <= there < project.services.len(),
        project.services[there].service_instances.contains(environment.id),
    ensures
        project.services.filter(runs_in(environment.id)).len() > 0,
{
    broadcast use vstd::seq_lib::group_filter_ensures;

    assert(runs_in(environment.id)(project.services[there]));
    assert(project.services.filter(runs_in(environment.id)).contains(project.services[there]));
}

/// The first service with an instance in the environment that goes by what is
/// asked for is taken and shown by its name, whatever is linked to.
pub proof fn service_asked_for_is_taken(
    key: Seq<char>,
    project: NormalisedProjectView,
    environment: NormalisedEnvironmentView,
    linked: Option<LinkedProjectView>,
    interactive: bool,
    at: int,
)
    requires
        0 <= at < project.services.len(),
        runs_by(project.services[at], environment.id, key),
        forall|i: int|
            0 <= i < at ==> !runs_by(#[trigger] project.services[i], environment.id, key),
    ensures
        service_choice(project, environment, Some(key), linked, interactive) == ServiceOutcome::Ok(
            DecisionView::Chosen {
                value: Some(project.services[at]),
                echo: Some(
                    EchoView { label: "Select a service"@, answer: project.services[at].name },
                ),
            },
        ),
{
    lemma_first_service(project, environment, key, at);
}

/// Where some service runs in the environment, one that is asked for and does
/// not run there is refused by what was asked for.
pub proof fn service_asked_for_and_missing_is_refused(
    key: Seq<char>,
    project: NormalisedProjectView,
    environment: NormalisedEnvironmentView,
    linked: Option<LinkedProjectView>,
    interactive: bool,
    there: int,
)
    requires
        0 <= there < project.services.len(),
        project.services[there].service_instances.contains(environment.id),
        forall|i: int|
            0 <= i < project.services.len() ==> !runs_by(
                #[trigger] project.services[i],
                environment.id,
                key,
            ),
    ensures
        service_choice(project, environment, Some(key), linked, interactive) == ServiceOutcome::Err(
            ExportErrorView::ServiceNotFound(key),
        ),
{
    lemma_some_service(project, environment, there);
    lemma_no_service(project, environment, key);
}

/// Where no service is asked for, the first with an instance in the environment
/// that goes by what is linked to is taken without being shown, whether or not
/// the user can be asked.
pub proof fn linked_service_is_taken(
    key: Seq<char>,
    project: NormalisedProjectView,
    environment: NormalisedEnvironmentView,
    link: LinkedProjectView,
    interactive: bool,
    at: int,
)
    requires
        link.service == Some(key),
        0 <= at < project.services.len(),
        runs_by(project.services[at], environment.id, key),
        forall|i: int|
            0 <= i < at ==> !runs_by(#[trigger] project.services[i], environment.id, key),
    ensures
        service_choice(project, environment, None, Some(link), interactive) == ServiceOutcome::Ok(
            DecisionView::Chosen { value: Some(project.services[at]), echo: None },
        ),
{
    lemma_first_service(project, environment, key, at);
}

/// Where some service runs in the environment, none is asked for and the link
/// leads to none, the user may pick among those that run there, in their order;
/// without a user none is chosen. The result lists where the options stand in
/// the project.
pub proof fn unsettled_service_is_asked_about(
    project: NormalisedProjectView,
    environment: NormalisedEnvironmentView,
    linked: Option<LinkedProjectView>,
    interactive: bool,
    there: int,
) -> (at: Seq<int>)
    requires
        0 <= there < project.services.len(),
        project.services[there].service_instances.contains(environment.id),
        (linked is Some && linked->0.service is Some) ==> forall|i: int|
            0 <= i < project.services.len() ==> !runs_by(
                #[trigger] project.services[i],
                environment.id,
                linked->0.service->0,
            ),
    ensures
        in_order(
            at,
            project.services.len(),
            |k: int| project.services[k].service_instances.contains(environment.id),
        ),
        !interactive ==> service_choice(project, environment, None, linked, interactive)
            == ServiceOutcome::Ok(DecisionView::Chosen { value: None, echo: None }),
        interactive ==> (service_choice(
            project,
            environment,
            None,
            linked,
            interactive,
        ) matches Ok(DecisionView::Ask { label, options, skippable }) && {
            &&& label == "Select a service <esc to skip>"@
            &&& skippable
            &&& options.len() == at.len()
            &&& forall|i: int|
                0 <= i < at.len() ==> #[trigger] options[i] == project.services[at[i]]
        }),
{
    lemma_some_service(project, environment, there);
    if linked is Some && linked->0.service is Some {
        lemma_no_service(project, environment, linked->0.service->0);
    }
    lemma_filter_in_order(
        project.services,
        runs_in(environment.id),
        |k: int| project.services[k].service_instances.contains(environment.id),
    )
}

} // verus!
