//! What holds of the export as a whole.
use crate::command::{next, output_path_of, ActionView, EventView, ExportView, StageView};
use crate::config::{
    first_meta, id_of, mounted_by, of_service, railway_toml, service_config, service_to_export,
    volume_config, volume_configs, with_id, ServiceConfigView, VolumeConfigView,
};
use crate::details::{
    DeploymentView, EnvironmentDetailsView, ProjectDetailsView, VolumeInstanceView,
};
use crate::error::ExportErrorView;
use crate::manifest::{manifest_of, narrowed, ManifestView};
use crate::model::{
    EnvironmentRecordView, LinkedProjectView, ProjectRecordView, ProjectView, WorkspaceView,
};
use crate::normalised::{
    accessible, environments_of, equal_to, normalised, normalised_environment, occurrences, repeated,
    repeats_earlier, NormalisedEnvironmentView, NormalisedProjectView, NormalisedServiceView,
};
use crate::request::{deployments_query, project_query};
use crate::search::{any_where, first_where, first_where_is_first, lemma_first_where_same};
use crate::select::{
    environment_called, environment_choice, not_deleted, project_called, project_choice, runs_in,
    service_called, service_choice, with_project, workspace_called, workspace_choice, DecisionView,
};
use crate::text::alike;
use vstd::prelude::*;

verus! {

/// Asking for a workspace by texts that differ in case only comes out the same,
/// but for the text in the error where there is no such workspace.
pub proof fn workspaces_are_found_in_any_case(
    a: Seq<char>,
    b: Seq<char>,
    project: Option<Seq<char>>,
    linked: Option<LinkedProjectView>,
    workspaces: Seq<WorkspaceView>,
    interactive: bool,
)
    requires
        alike(a, b),
    ensures
        ({
            let with_a = workspace_choice(Some(a), project, linked, workspaces, interactive);
            let with_b = workspace_choice(Some(b), project, linked, workspaces, interactive);
            ||| with_a == with_b
            ||| {
                &&& with_a == Err::<DecisionView<WorkspaceView, WorkspaceView>, _>(
                    ExportErrorView::WorkspaceNotFound(a),
                )
                &&& with_b == Err::<DecisionView<WorkspaceView, WorkspaceView>, _>(
                    ExportErrorView::WorkspaceNotFound(b),
                )
            }
        }),
{
    lemma_first_where_same(workspaces, workspace_called(a), workspace_called(b));
}

/// Asking for a project by texts that differ in case only finds the same
/// workspace to take it from.
pub proof fn workspaces_of_projects_are_found_in_any_case(
    a: Seq<char>,
    b: Seq<char>,
    linked: Option<LinkedProjectView>,
    workspaces: Seq<WorkspaceView>,
    interactive: bool,
)
    requires
        alike(a, b),
    ensures
        workspace_choice(None, Some(a), linked, workspaces, interactive) == workspace_choice(
            None,
            Some(b),
            linked,
            workspaces,
            interactive,
        ),
{
    let in_a = with_project(project_called(a));
    let in_b = with_project(project_called(b));
    assert forall|i: int| 0 <= i < workspaces.len() implies in_a(#[trigger] workspaces[i]) == in_b(
        workspaces[i],
    ) by {
        let projects = workspaces[i].projects;
        assert forall|j: int| 0 <= j < projects.len() implies project_called(a)(
            #[trigger] projects[j],
        ) == project_called(b)(projects[j]) by {}
        if any_where(projects, project_called(a)) {
            let j = choose|j: int|
                0 <= j < projects.len() && project_called(a)(#[trigger] projects[j]);
            assert(project_called(b)(projects[j]));
        }
        if any_where(projects, project_called(b)) {
            let j = choose|j: int|
                0 <= j < projects.len() && project_called(b)(#[trigger] projects[j]);
            assert(project_called(a)(projects[j]));
        }
    }
    lemma_first_where_same(workspaces, in_a, in_b);
}

/// Asking for a project by texts that differ in case only comes out the same,
/// but for the text in the error where there is no such project.
pub proof fn projects_are_found_in_any_case(
    a: Seq<char>,
    b: Seq<char>,
    workspace: WorkspaceView,
    linked: Option<LinkedProjectView>,
    interactive: bool,
)
    requires
        alike(a, b),
    ensures
        ({
            let with_a = project_choice(workspace, Some(a), linked, interactive);
            let with_b = project_choice(workspace, Some(b), linked, interactive);
            ||| with_a == with_b
            ||| {
                &&& with_a == Err::<DecisionView<NormalisedProjectView, ProjectView>, _>(
                    ExportErrorView::ProjectNotFoundInWorkspace(a, workspace.name),
                )
                &&& with_b == Err::<DecisionView<NormalisedProjectView, ProjectView>, _>(
                    ExportErrorView::ProjectNotFoundInWorkspace(b, workspace.name),
                )
            }
        }),
{
    lemma_first_where_same(
        workspace.projects.filter(not_deleted()),
        project_called(a),
        project_called(b),
    );
}

/// Asking for an environment by texts that differ in case only comes out the
/// same, but for the text in the error where there is no such environment.
pub proof fn environments_are_found_in_any_case(
    a: Seq<char>,
    b: Seq<char>,
    project: NormalisedProjectView,
    linked: Option<LinkedProjectView>,
    interactive: bool,
)
    requires
        alike(a, b),
    ensures
        ({
            let with_a = environment_choice(Some(a), project, linked, interactive);
            let with_b = environment_choice(Some(b), project, linked, interactive);
            ||| with_a == with_b
            ||| {
                &&& with_a == Err::<
                    DecisionView<NormalisedEnvironmentView, NormalisedEnvironmentView>,
                    _,
                >(ExportErrorView::EnvironmentNotFound(a))
                &&& with_b == Err::<
                    DecisionView<NormalisedEnvironmentView, NormalisedEnvironmentView>,
                    _,
                >(ExportErrorView::EnvironmentNotFound(b))
            }
        }),
{
    lemma_first_where_same(project.environments, environment_called(a), environment_called(b));
}

/// Asking for a service by texts that differ in case only comes out the same,
/// but for the text in the error where there is no such service.
pub proof fn services_are_found_in_any_case(
    a: Seq<char>,
    b: Seq<char>,
    project: NormalisedProjectView,
    environment: NormalisedEnvironmentView,
    linked: Option<LinkedProjectView>,
    interactive: bool,
)
    requires
        alike(a, b),
    ensures
        ({
            let with_a = service_choice(project, environment, Some(a), linked, interactive);
            let with_b = service_choice(project, environment, Some(b), linked, interactive);
            ||| with_a == with_b
            ||| {
                &&& with_a == Err::<
                    DecisionView<Option<NormalisedServiceView>, NormalisedServiceView>,
                    _,
                >(ExportErrorView::ServiceNotFound(a))
                &&& with_b == Err::<
                    DecisionView<Option<NormalisedServiceView>, NormalisedServiceView>,
                    _,
                >(ExportErrorView::ServiceNotFound(b))
            }
        }),
{
    lemma_first_where_same(
        project.services.filter(runs_in(environment.id)),
        service_called(a),
        service_called(b),
    );
}

/// What is asked for decides: neither the link nor whether the user can be
/// asked changes how the choice comes out, nor, for the workspace, the project
/// that is asked for.
pub proof fn what_is_asked_for_decides(
    key: Seq<char>,
    workspace: WorkspaceView,
    workspaces: Seq<WorkspaceView>,
    project_key: Option<Seq<char>>,
    project: NormalisedProjectView,
    environment: NormalisedEnvironmentView,
    link: Option<LinkedProjectView>,
    other_link: Option<LinkedProjectView>,
    interactive: bool,
    other_interactive: bool,
)
    ensures
        workspace_choice(Some(key), project_key, link, workspaces, interactive)
            == workspace_choice(Some(key), None, other_link, workspaces, other_interactive),
        project_choice(workspace, Some(key), link, interactive) == project_choice(
            workspace,
            Some(key),
            other_link,
            other_interactive,
        ),
        environment_choice(Some(key), project, link, interactive) == environment_choice(
            Some(key),
            project,
            other_link,
            other_interactive,
        ),
        service_choice(project, environment, Some(key), link, interactive) == service_choice(
            project,
            environment,
            Some(key),
            other_link,
            other_interactive,
        ),
{
}

/// A workspace that is chosen, or offered, is one of those there are; the
/// options are all there are.
pub proof fn workspaces_come_from_the_account(
    workspace_name: Option<Seq<char>>,
    project: Option<Seq<char>>,
    linked: Option<LinkedProjectView>,
    workspaces: Seq<WorkspaceView>,
    interactive: bool,
)
    ensures
        match workspace_choice(workspace_name, project, linked, workspaces, interactive) {
            Ok(DecisionView::Chosen { value, echo: _ }) => workspaces.contains(value),
            Ok(DecisionView::Ask { label: _, options, skippable }) => options == workspaces
                && !skippable && interactive,
            Err(_) => true,
        },
{
    match workspace_name {
        Some(key) => {
            first_where_is_first(workspaces, workspace_called(key));
        },
        None => {
            match (project, linked) {
                (Some(key), _) => {
                    first_where_is_first(workspaces, with_project(project_called(key)));
                },
                (None, Some(link)) => {
                    first_where_is_first(
                        workspaces,
                        with_project(crate::select::project_linked(link)),
                    );
                },
                (None, None) => {},
            }
            if workspaces.len() == 1 {
                assert(workspaces.contains(workspaces[0]));
            }
        },
    }
}

proof fn lemma_filter_picks<A>(items: Seq<A>, test: spec_fn(A) -> bool, x: A)
    requires
        items.filter(test).contains(x),
    ensures
        items.contains(x),
        test(x),
{
    broadcast use vstd::seq_lib::group_filter_ensures;

    items.lemma_filter_contains_rev(test, x);
}

/// Deleted projects are never exported: a project that is chosen, or offered,
/// is one of the workspace that was not deleted.
pub proof fn deleted_projects_are_left_out(
    workspace: WorkspaceView,
    project: Option<Seq<char>>,
    linked: Option<LinkedProjectView>,
    interactive: bool,
)
    ensures
        match project_choice(workspace, project, linked, interactive) {
            Ok(DecisionView::Chosen { value, echo: _ }) => exists|p: ProjectView|
                {
                    &&& #[trigger] workspace.projects.contains(p)
                    &&& p.record().deleted_at is None
                    &&& value == normalised(p.record())
                },
            Ok(DecisionView::Ask { label: _, options, skippable }) => {
                &&& interactive && !skippable
                &&& forall|p: ProjectView| #[trigger]
                    options.contains(p) ==> workspace.projects.contains(p)
                        && p.record().deleted_at is None
            },
            Err(_) => true,
        },
{
    let projects = workspace.projects.filter(not_deleted());
    assert forall|p: ProjectView| #[trigger] projects.contains(p) implies workspace.projects.contains(
        p,
    ) && p.record().deleted_at is None by {
        lemma_filter_picks(workspace.projects, not_deleted(), p);
    }
    let key = match (project, linked) {
        (Some(key), _) => Some(key),
        (None, Some(link)) => Some(link.project),
        (None, None) => None,
    };
    if key is Some {
        first_where_is_first(projects, project_called(key->0));
        let found = first_where(projects, project_called(key->0));
        if found is Some {
            assert(projects.contains(found->0));
            assert(workspace.projects.contains(found->0));
        }
    }
}

/// An environment that is chosen is one of the project; the options are all of
/// them.
pub proof fn environments_come_from_the_project(
    environment: Option<Seq<char>>,
    project: NormalisedProjectView,
    linked: Option<LinkedProjectView>,
    interactive: bool,
)
    ensures
        match environment_choice(environment, project, linked, interactive) {
            Ok(DecisionView::Chosen { value, echo: _ }) => project.environments.contains(value),
            Ok(DecisionView::Ask { label: _, options, skippable }) => options
                == project.environments && !skippable && interactive,
            Err(_) => true,
        },
{
    let environments = project.environments;
    let key = match (environment, linked) {
        (Some(key), _) => Some(key),
        (None, Some(link)) => link.environment,
        (None, None) => None,
    };
    if key is Some {
        first_where_is_first(environments, environment_called(key->0));
    }
    if environments.len() == 1 {
        assert(environments.contains(environments[0]));
    }
}

/// A service that is chosen, or offered, is one of the project that has an
/// instance in the environment.
pub proof fn services_run_in_the_environment(
    project: NormalisedProjectView,
    environment: NormalisedEnvironmentView,
    service: Option<Seq<char>>,
    linked: Option<LinkedProjectView>,
    interactive: bool,
)
    ensures
        match service_choice(project, environment, service, linked, interactive) {
            Ok(DecisionView::Chosen { value: Some(s), echo: _ }) => project.services.contains(s)
                && s.service_instances.contains(environment.id),
            Ok(DecisionView::Chosen { value: None, echo: _ }) => true,
            Ok(DecisionView::Ask { label: _, options, skippable }) => {
                &&& interactive && skippable
                &&& forall|s: NormalisedServiceView| #[trigger]
                    options.contains(s) ==> project.services.contains(s)
                        && s.service_instances.contains(environment.id)
            },
            Err(_) => true,
        },
{
    let services = project.services.filter(runs_in(environment.id));
    assert forall|s: NormalisedServiceView| #[trigger]
        services.contains(s) implies project.services.contains(s) && s.service_instances.contains(
        environment.id,
    ) by {
        lemma_filter_picks(project.services, runs_in(environment.id), s);
    }
    let key = match (service, linked) {
        (Some(key), _) => Some(key),
        (None, Some(link)) => link.service,
        (None, None) => None,
    };
    if key is Some {
        first_where_is_first(services, service_called(key->0));
        let found = first_where(services, service_called(key->0));
        if found is Some {
            assert(services.contains(found->0));
        }
    }
}

/// Where the user cannot be asked, no choice is left to asking.
pub proof fn nothing_is_asked_without_a_user(
    workspace_name: Option<Seq<char>>,
    project_name: Option<Seq<char>>,
    environment_name: Option<Seq<char>>,
    service_name: Option<Seq<char>>,
    linked: Option<LinkedProjectView>,
    workspaces: Seq<WorkspaceView>,
    workspace: WorkspaceView,
    project: NormalisedProjectView,
    environment: NormalisedEnvironmentView,
)
    ensures
        !(workspace_choice(workspace_name, project_name, linked, workspaces, false) matches Ok(d)
            && d is Ask),
        !(project_choice(workspace, project_name, linked, false) matches Ok(d) && d is Ask),
        !(environment_choice(environment_name, project, linked, false) matches Ok(d) && d is Ask),
        !(service_choice(project, environment, service_name, linked, false) matches Ok(d)
            && d is Ask),
{
}

/// Anything that is there is found by its id and by its name, and a workspace
/// by its team's id too: the choice is made, and what is chosen goes by the
/// text that was asked for.
pub proof fn what_is_there_is_found(
    key: Seq<char>,
    project_key: Option<Seq<char>>,
    linked: Option<LinkedProjectView>,
    interactive: bool,
    workspaces: Seq<WorkspaceView>,
    workspace: WorkspaceView,
    project: NormalisedProjectView,
    environment: NormalisedEnvironmentView,
)
    ensures
        (exists|w: WorkspaceView| #[trigger]
            workspaces.contains(w) && (key == w.id || key == w.name || Some(key) == w.team_id))
            ==> (workspace_choice(Some(key), project_key, linked, workspaces, interactive)
            matches Ok(DecisionView::Chosen { value, echo: _ }) && workspace_called(key)(value)),
        (exists|p: ProjectView| #[trigger]
            workspace.projects.contains(p) && p.record().deleted_at is None && (key
                == p.record().id || key == p.record().name)) ==> (project_choice(
            workspace,
            Some(key),
            linked,
            interactive,
        ) matches Ok(DecisionView::Chosen { value, echo: _ }) && (alike(value.id, key) || alike(
            value.name,
            key,
        ))),
        (exists|e: NormalisedEnvironmentView| #[trigger]
            project.environments.contains(e) && (key == e.id || key == e.name)) ==> (
        environment_choice(Some(key), project, linked, interactive) matches Ok(
            DecisionView::Chosen { value, echo: _ },
        ) && environment_called(key)(value)),
        (exists|s: NormalisedServiceView| #[trigger]
            project.services.contains(s) && s.service_instances.contains(environment.id) && (key
                == s.id || key == s.name)) ==> (service_choice(
            project,
            environment,
            Some(key),
            linked,
            interactive,
        ) matches Ok(DecisionView::Chosen { value: Some(s), echo: _ }) && service_called(key)(s)),
{
    broadcast use vstd::seq_lib::group_filter_ensures;

    first_where_is_first(workspaces, workspace_called(key));
    if exists|w: WorkspaceView| #[trigger]
        workspaces.contains(w) && (key == w.id || key == w.name || Some(key) == w.team_id) {
        let w = choose|w: WorkspaceView| #[trigger]
            workspaces.contains(w) && (key == w.id || key == w.name || Some(key) == w.team_id);
        let i = choose|i: int| 0 <= i < workspaces.len() && workspaces[i] == w;
        assert(workspace_called(key)(workspaces[i]));
    }
    let projects = workspace.projects.filter(not_deleted());
    first_where_is_first(projects, project_called(key));
    if exists|p: ProjectView| #[trigger]
        workspace.projects.contains(p) && p.record().deleted_at is None && (key == p.record().id
            || key == p.record().name) {
        let p = choose|p: ProjectView| #[trigger]
            workspace.projects.contains(p) && p.record().deleted_at is None && (key
                == p.record().id || key == p.record().name);
        let i = choose|i: int|
            0 <= i < workspace.projects.len() && workspace.projects[i] == p;
        assert(not_deleted()(workspace.projects[i]));
        assert(projects.contains(workspace.projects[i]));
        let j = choose|j: int| 0 <= j < projects.len() && projects[j] == p;
        assert(project_called(key)(projects[j]));
    }
    first_where_is_first(project.environments, environment_called(key));
    if exists|e: NormalisedEnvironmentView| #[trigger]
        project.environments.contains(e) && (key == e.id || key == e.name) {
        let e = choose|e: NormalisedEnvironmentView| #[trigger]
            project.environments.contains(e) && (key == e.id || key == e.name);
        let i = choose|i: int|
            0 <= i < project.environments.len() && project.environments[i] == e;
        assert(environment_called(key)(project.environments[i]));
    }
    let services = project.services.filter(runs_in(environment.id));
    first_where_is_first(services, service_called(key));
    if exists|s: NormalisedServiceView| #[trigger]
        project.services.contains(s) && s.service_instances.contains(environment.id) && (key
            == s.id || key == s.name) {
        let s = choose|s: NormalisedServiceView| #[trigger]
            project.services.contains(s) && s.service_instances.contains(environment.id) && (key
                == s.id || key == s.name);
        let i = choose|i: int| 0 <= i < project.services.len() && project.services[i] == s;
        assert(runs_in(environment.id)(project.services[i]));
        assert(services.contains(project.services[i]));
        let j = choose|j: int| 0 <= j < services.len() && services[j] == s;
        assert(service_called(key)(services[j]));
    }
}

/// The environments of a normalised project are those that the user may see
/// into, and the project says whether any was left out.
pub proof fn accessible_environments_are_kept(project: ProjectRecordView)
    ensures
        forall|x: NormalisedEnvironmentView| #[trigger]
            normalised(project).environments.contains(x) <==> exists|e: EnvironmentRecordView|
                {
                    &&& #[trigger] project.environments.contains(e)
                    &&& e.can_access
                    &&& x == normalised_environment(e)
                },
        normalised(project).has_restricted_environments <==> exists|e: EnvironmentRecordView|
            #[trigger] project.environments.contains(e) && !e.can_access,
{
    let kept = project.environments.filter(accessible());
    let environments = normalised(project).environments;
    broadcast use vstd::seq_lib::group_filter_ensures;

    assert forall|x: NormalisedEnvironmentView| #[trigger]
        environments.contains(x) implies exists|e: EnvironmentRecordView|
        {
            &&& #[trigger] project.environments.contains(e)
            &&& e.can_access
            &&& x == normalised_environment(e)
        } by {
        let i = choose|i: int| 0 <= i < environments.len() && environments[i] == x;
        assert(kept.contains(kept[i]));
        lemma_filter_picks(project.environments, accessible(), kept[i]);
    }
    assert forall|x: NormalisedEnvironmentView|
        (exists|e: EnvironmentRecordView|
            {
                &&& #[trigger] project.environments.contains(e)
                &&& e.can_access
                &&& x == normalised_environment(e)
            }) implies #[trigger] environments.contains(x) by {
        let e = choose|e: EnvironmentRecordView|
            {
                &&& #[trigger] project.environments.contains(e)
                &&& e.can_access
                &&& x == normalised_environment(e)
            };
        let i = choose|i: int|
            0 <= i < project.environments.len() && project.environments[i] == e;
        assert(kept.contains(project.environments[i]));
        let j = choose|j: int| 0 <= j < kept.len() && kept[j] == e;
        assert(environments[j] == x);
    }
    let restricted = crate::normalised::restricted();
    if any_where(project.environments, restricted) {
        let i = choose|i: int|
            0 <= i < project.environments.len() && restricted(#[trigger] project.environments[i]);
        assert(project.environments.contains(project.environments[i]));
    }
    if exists|e: EnvironmentRecordView|
        #[trigger] project.environments.contains(e) && !e.can_access {
        let e = choose|e: EnvironmentRecordView|
            #[trigger] project.environments.contains(e) && !e.can_access;
        let i = choose|i: int|
            0 <= i < project.environments.len() && project.environments[i] == e;
        assert(restricted(project.environments[i]));
    }
}

/// A project without environments and one whose environments are all hidden
/// from the user are told apart when an environment is to be chosen.
pub proof fn hidden_environments_are_told_from_none(
    project: ProjectRecordView,
    environment: Option<Seq<char>>,
    linked: Option<LinkedProjectView>,
    interactive: bool,
)
    requires
        forall|e: EnvironmentRecordView| #[trigger]
            project.environments.contains(e) ==> !e.can_access,
    ensures
        environment_choice(environment, normalised(project), linked, interactive) == Err::<
            DecisionView<NormalisedEnvironmentView, NormalisedEnvironmentView>,
            _,
        >(
            ExportErrorView::Message(
                if project.environments.len() > 0 {
                    "All environments in this project are restricted"@
                } else {
                    "Project has no environments"@
                },
            ),
        ),
{
    accessible_environments_are_kept(project);
    let environments = normalised(project).environments;
    if environments.len() > 0 {
        assert(environments.contains(environments[0]));
    }
    if project.environments.len() > 0 {
        assert(project.environments.contains(project.environments[0]));
    }
}

/// An environment is among those of a service just when an environment of that
/// id has an instance of the service.
pub proof fn instances_lead_to_their_environments(
    environments: Seq<EnvironmentRecordView>,
    service_id: Seq<char>,
    environment_id: Seq<char>,
)
    ensures
        environments_of(environments, service_id).contains(environment_id) <==> exists|
            e: EnvironmentRecordView,
        |
            {
                &&& #[trigger] environments.contains(e)
                &&& e.id == environment_id
                &&& e.service_instances.contains(service_id)
            },
    decreases environments.len(),
{
    let there = |e: EnvironmentRecordView|
        e.id == environment_id && e.service_instances.contains(service_id);
    let all = environments_of(environments, service_id);
    if environments.len() > 0 {
        let rest = environments.drop_last();
        let last = environments.last();
        let before = environments_of(rest, service_id);
        let own = repeated(last.id, occurrences(last.service_instances, service_id));
        instances_lead_to_their_environments(rest, service_id, environment_id);
        lemma_occurs(last.service_instances, service_id);
        if all.contains(environment_id) {
            let i = choose|i: int| 0 <= i < all.len() && all[i] == environment_id;
            if i < before.len() {
                assert(before[i] == environment_id);
                let e = choose|e: EnvironmentRecordView|
                    {
                        &&& #[trigger] rest.contains(e)
                        &&& e.id == environment_id
                        &&& e.service_instances.contains(service_id)
                    };
                let j = choose|j: int| 0 <= j < rest.len() && rest[j] == e;
                assert(environments[j] == e);
                assert(environments.contains(e));
            } else {
                assert(own[i - before.len()] == environment_id);
                assert(environments[environments.len() - 1] == last);
                assert(environments.contains(last));
            }
        }
        if exists|e: EnvironmentRecordView| #[trigger] environments.contains(e) && there(e) {
            let e = choose|e: EnvironmentRecordView| #[trigger]
                environments.contains(e) && there(e);
            let j = choose|j: int| 0 <= j < environments.len() && environments[j] == e;
            if j < rest.len() {
                assert(rest[j] == e);
                assert(rest.contains(e));
                let i = choose|i: int| 0 <= i < before.len() && before[i] == environment_id;
                assert(all[i] == environment_id);
            } else {
                assert(e == last);
                assert(own[0] == environment_id);
                assert(all[before.len() as int] == environment_id);
            }
        }
    }
}

proof fn lemma_occurs(items: Seq<Seq<char>>, x: Seq<char>)
    ensures
        occurrences(items, x) > 0 <==> items.contains(x),
{
    let is_x = equal_to(x);
    broadcast use vstd::seq_lib::group_filter_ensures;

    let kept = items.filter(is_x);
    if kept.len() > 0 {
        assert(kept.contains(kept[0]));
        lemma_filter_picks(items, is_x, kept[0]);
        assert(is_x(kept[0]));
    }
    if items.contains(x) {
        let i = choose|i: int| 0 <= i < items.len() && items[i] == x;
        assert(is_x(items[i]));
        assert(kept.contains(items[i]));
    }
}

/// A service keeps its id and name, and is a candidate for an environment just
/// when it has an instance in one of that id; of services that share an id,
/// this holds of the first.
pub proof fn services_are_candidates_where_they_run(
    project: ProjectRecordView,
    at: int,
    environment_id: Seq<char>,
)
    requires
        0 <= at < project.services.len(),
    ensures
        normalised(project).services.len() == project.services.len(),
        normalised(project).services[at].id == project.services[at].id,
        normalised(project).services[at].name == project.services[at].name,
        !repeats_earlier(project.services, at) ==> (runs_in(environment_id)(
            normalised(project).services[at],
        ) <==> exists|e: EnvironmentRecordView|
            {
                &&& #[trigger] project.environments.contains(e)
                &&& e.id == environment_id
                &&& e.service_instances.contains(project.services[at].id)
            }),
        repeats_earlier(project.services, at) ==> !runs_in(environment_id)(
            normalised(project).services[at],
        ),
{
    instances_lead_to_their_environments(
        project.environments,
        project.services[at].id,
        environment_id,
    );
}

/// A number that fits in 32 bits keeps its value; any other keeps its value up
/// to a multiple of two to the power 32.
pub proof fn small_numbers_are_kept(n: int)
    ensures
        i32::MIN <= n <= i32::MAX ==> narrowed(n) == n,
        (narrowed(n) - n) % 0x1_0000_0000 == 0,
{
}

/// Something is exported just when the environment is there, the service is
/// known, and it runs in the environment.
pub proof fn services_that_run_are_exported(
    project: ProjectDetailsView,
    environment_id: Seq<char>,
    chosen: Option<Seq<char>>,
    manifest: ManifestView,
)
    ensures
        service_config(project, environment_id, chosen, manifest) is Ok <==> ({
            &&& first_where(project.environments, with_id(environment_id)) matches Some(environment)
            &&& service_to_export(environment, chosen) matches Some(id)
            &&& any_where(environment.service_instances, of_service(id))
        }),
{
    if let Some(environment) = first_where(project.environments, with_id(environment_id)) {
        if let Some(id) = service_to_export(environment, chosen) {
            first_where_is_first(environment.service_instances, of_service(id));
        }
    }
}

/// What the service instance itself says goes before what its deployment says,
/// and its repository is exported as it is.
pub proof fn instances_go_before_deployments(
    project: ProjectDetailsView,
    environment_id: Seq<char>,
    chosen: Option<Seq<char>>,
    manifest: ManifestView,
)
    ensures
        service_config(project, environment_id, chosen, manifest) matches Ok(config) ==> {
            let environment = first_where(project.environments, with_id(environment_id))->0;
            let id = service_to_export(environment, chosen)->0;
            let instance = first_where(environment.service_instances, of_service(id))->0;
            &&& environment.id == environment_id
            &&& instance.service_id == id
            &&& instance.start_command is Some ==> config.1.start_command == instance.start_command
            &&& instance.cron_schedule is Some ==> config.1.cron_schedule == instance.cron_schedule
            &&& instance.source is Some && instance.source->0.image is Some ==> config.0.image
                == instance.source->0.image
            &&& config.0.repo == match instance.source {
                Some(source) => source.repo,
                None => None,
            }
        },
{
    if service_config(project, environment_id, chosen, manifest) is Ok {
        first_where_is_first(project.environments, with_id(environment_id));
        let environment = first_where(project.environments, with_id(environment_id))->0;
        let id = service_to_export(environment, chosen)->0;
        first_where_is_first(environment.service_instances, of_service(id));
    }
}

/// Without deployment metadata, only what the instance itself says is exported.
pub proof fn without_metadata_the_instance_is_exported(
    project: ProjectDetailsView,
    environment_id: Seq<char>,
    chosen: Option<Seq<char>>,
    deployments: Seq<DeploymentView>,
)
    requires
        deployments.len() == 0 || deployments[0].meta is None,
    ensures
        service_config(
            project,
            environment_id,
            chosen,
            manifest_of(first_meta(deployments)),
        ) matches Ok(config) ==> {
            let environment = first_where(project.environments, with_id(environment_id))->0;
            let id = service_to_export(environment, chosen)->0;
            let instance = first_where(environment.service_instances, of_service(id))->0;
            &&& config.0.builder is None && config.0.build_command is None
            &&& config.0.nixpacks_version is None && config.0.dockerfile_path is None
            &&& config.0.nixpacks_config_path is None
            &&& config.0.image == match instance.source {
                Some(source) => source.image,
                None => None,
            }
            &&& config.1.start_command == instance.start_command
            &&& config.1.cron_schedule == instance.cron_schedule
            &&& config.1.pre_deploy_command is None && config.1.num_replicas is None
            &&& config.1.healthcheck_path is None && config.1.healthcheck_timeout is None
            &&& config.1.restart_policy_type is None && config.1.restart_policy_max_retries is None
            &&& config.1.region is None && config.1.runtime is None
            &&& config.1.sleep_application is None
        },
{
}

/// Only the first deployment that was fetched counts.
pub proof fn later_deployments_do_not_count(a: Seq<DeploymentView>, b: Seq<DeploymentView>)
    requires
        a.len() > 0,
        b.len() > 0,
        a[0] == b[0],
    ensures
        manifest_of(first_meta(a)) == manifest_of(first_meta(b)),
{
}

/// Whether this is a named volume of the service, as it is exported.
pub open spec fn exported_volume(
    environment: EnvironmentDetailsView,
    service_id: Seq<char>,
    config: VolumeConfigView,
) -> bool {
    exists|v: VolumeInstanceView|
        {
            &&& #[trigger] environment.volume_instances.contains(v)
            &&& v.service_id == Some(service_id)
            &&& v.volume_name.len() > 0
            &&& config == volume_config(v)
        }
}

/// The volumes that are exported are the named ones of the service, each with
/// its name, its mount path and its size.
pub proof fn named_volumes_are_exported(
    environment: EnvironmentDetailsView,
    service_id: Seq<char>,
)
    ensures
        forall|i: int|
            0 <= i < volume_configs(environment, service_id).len() ==> exported_volume(
                environment,
                service_id,
                #[trigger] volume_configs(environment, service_id)[i],
            ),
        forall|v: VolumeInstanceView|
            (#[trigger] environment.volume_instances.contains(v) && v.service_id == Some(service_id)
                && v.volume_name.len() > 0) ==> volume_configs(environment, service_id).contains(
                volume_config(v),
            ),
        forall|v: VolumeInstanceView|
            {
                &&& (#[trigger] volume_config(v)).name == Some(v.volume_name)
                &&& volume_config(v).mount_path == Some(v.mount_path)
                &&& volume_config(v).size_mb is Some
                &&& i32::MIN <= v.size_mb <= i32::MAX ==> volume_config(v).size_mb->0 == v.size_mb
            },
{
    let volumes = environment.volume_instances;
    let mounted = mounted_by(service_id);
    let kept = volumes.filter(mounted);
    let exported = volume_configs(environment, service_id);
    broadcast use vstd::seq_lib::group_filter_ensures;

    assert forall|i: int| 0 <= i < exported.len() implies exported_volume(
        environment,
        service_id,
        #[trigger] exported[i],
    ) by {
        assert(kept.contains(kept[i]));
        lemma_filter_picks(volumes, mounted, kept[i]);
        assert(exported[i] == volume_config(kept[i]));
    }
    assert forall|v: VolumeInstanceView|
        (#[trigger] volumes.contains(v) && v.service_id == Some(service_id) && v.volume_name.len()
            > 0) implies exported.contains(volume_config(v)) by {
        let i = choose|i: int| 0 <= i < volumes.len() && volumes[i] == v;
        assert(mounted(volumes[i]));
        assert(kept.contains(volumes[i]));
        let j = choose|j: int| 0 <= j < kept.len() && kept[j] == v;
        assert(exported[j] == volume_config(v));
    }
    assert forall|v: VolumeInstanceView|
        i32::MIN <= v.size_mb <= i32::MAX implies (#[trigger] volume_config(v)).size_mb->0
        == v.size_mb by {
        small_numbers_are_kept(v.size_mb as int);
    }
}

/// Each part of the file holds all that is known, or is not there because what
/// makes it worth writing is missing. Nothing is written per environment.
pub proof fn files_hold_what_is_worth_writing(config: ServiceConfigView)
    ensures
        railway_toml(config).build == (if config.0.builder is Some || config.0.build_command is Some
            || config.0.image is Some || config.0.repo is Some {
            Some(config.0)
        } else {
            None
        }),
        railway_toml(config).deploy == (if config.1.start_command is Some
            || config.1.num_replicas is Some || config.1.healthcheck_path is Some {
            Some(config.1)
        } else {
            None
        }),
        railway_toml(config).volumes matches Some(volumes) ==> volumes == config.2 && volumes.len()
            > 0,
        railway_toml(config).volumes is None ==> config.2.len() == 0,
        railway_toml(config).environments is None,
{
}

/// The format goes with the flag, and the default name with the format.
pub proof fn files_are_named_after_their_format(run: ExportView, event: EventView)
    ensures
        next(run, event).1 matches ActionView::Save { path, json, toml: _ } ==> {
            &&& json == run.args.json
            &&& path == output_path_of(run.args)
            &&& run.args.output is Some ==> path == run.args.output->0
            &&& run.args.output is None && json ==> path == "railway.json"@
            &&& run.args.output is None && !json ==> path == "railway.toml"@
        },
{
}

/// How far along the command a stage is.
pub open spec fn progress(stage: StageView) -> nat {
    match stage {
        StageView::FetchingWorkspaces => 0,
        StageView::PickingWorkspace { .. } => 1,
        StageView::WorkspaceChosen { .. } => 2,
        StageView::PickingProject { .. } => 3,
        StageView::ProjectChosen { .. } => 4,
        StageView::PickingEnvironment { .. } => 5,
        StageView::EnvironmentChosen { .. } => 6,
        StageView::PickingService { .. } => 7,
        StageView::ServiceChosen { .. } => 8,
        StageView::FetchingDetails { .. } => 9,
        StageView::FetchingDeployments { .. } => 10,
        StageView::Saving { .. } => 11,
        StageView::Finished => 12,
        StageView::Failed => 12,
    }
}

/// The command never turns back: an event either moves it along or changes
/// nothing, and once it has finished or failed nothing moves it.
pub proof fn every_event_moves_the_command_along(run: ExportView, event: EventView)
    ensures
        progress(next(run, event).0) <= 12,
        next(run, event).1 is Unexpected ==> next(run, event).0 == run.stage,
        !(next(run, event).1 is Unexpected) ==> progress(next(run, event).0) > progress(run.stage),
        run.stage is Finished || run.stage is Failed ==> next(run, event).1 is Unexpected,
        next(run, event).0 is Failed && !(run.stage is Failed) <==> next(run, event).1 is Fail,
{
}

/// Where the user cannot be asked, the command never asks.
pub proof fn the_command_never_asks_without_a_user(run: ExportView, event: EventView)
    requires
        !run.interactive,
    ensures
        !(next(run, event).1 is Ask),
{
}

/// Whether what has been chosen so far fits together: the environment is one of
/// the project, the service is one of the project that runs in the environment.
pub open spec fn coherent(stage: StageView) -> bool {
    match stage {
        StageView::PickingEnvironment { project, options } => options == project.environments,
        StageView::EnvironmentChosen { project, environment } => project.environments.contains(
            environment,
        ),
        StageView::PickingService { project, environment, options } => {
            &&& project.environments.contains(environment)
            &&& forall|s: NormalisedServiceView| #[trigger]
                options.contains(s) ==> fits(project, environment, Some(s))
        },
        StageView::ServiceChosen { project, environment, service } => {
            &&& project.environments.contains(environment)
            &&& fits(project, environment, service)
        },
        StageView::FetchingDetails { project, environment, service } => {
            &&& project.environments.contains(environment)
            &&& fits(project, environment, service)
        },
        StageView::FetchingDeployments { project, environment, service, details: _ } => {
            &&& project.environments.contains(environment)
            &&& fits(project, environment, service)
        },
        _ => true,
    }
}

/// Whether the service, if there is one, is one of the project that runs in the
/// environment.
pub open spec fn fits(
    project: NormalisedProjectView,
    environment: NormalisedEnvironmentView,
    service: Option<NormalisedServiceView>,
) -> bool {
    match service {
        Some(s) => project.services.contains(s) && s.service_instances.contains(environment.id),
        None => true,
    }
}

/// What has been chosen fits together at every stage.
pub proof fn choices_stay_coherent(run: ExportView, event: EventView)
    requires
        coherent(run.stage),
    ensures
        coherent(next(run, event).0),
        coherent(StageView::FetchingWorkspaces),
{
    match (run.stage, event) {
        (StageView::ProjectChosen { project }, EventView::Done) => {
            environments_come_from_the_project(
                run.args.environment,
                project,
                run.linked,
                run.interactive,
            );
        },
        (StageView::PickingEnvironment { project, options }, EventView::Picked(at)) => {
            if at < options.len() {
                assert(options.contains(options[at as int]));
            }
        },
        (StageView::EnvironmentChosen { project, environment }, EventView::Done) => {
            services_run_in_the_environment(
                project,
                environment,
                run.args.service,
                run.linked,
                run.interactive,
            );
        },
        (StageView::PickingService { project, environment, options }, EventView::Picked(at)) => {
            if at < options.len() {
                assert(options.contains(options[at as int]));
            }
        },
        _ => {},
    }
}

/// Whether the project is one of a workspace in `workspaces` and was not deleted.
pub open spec fn live(workspaces: Seq<WorkspaceView>, project: ProjectView) -> bool {
    &&& project.record().deleted_at is None
    &&& exists|w: WorkspaceView| #[trigger]
        workspaces.contains(w) && w.projects.contains(project)
}

/// Whether this is a live project of `workspaces`, normalised.
pub open spec fn from_live(
    workspaces: Seq<WorkspaceView>,
    project: NormalisedProjectView,
) -> bool {
    exists|p: ProjectView| #[trigger] live(workspaces, p) && project == normalised(p.record())
}

/// Whether all that is offered or chosen so far was drawn from the workspaces
/// that were fetched: the workspace is one of them, and the project is one of
/// such a workspace and was not deleted.
pub open spec fn drawn_from(workspaces: Seq<WorkspaceView>, stage: StageView) -> bool {
    match stage {
        StageView::FetchingWorkspaces => true,
        StageView::PickingWorkspace { options } => options == workspaces,
        StageView::WorkspaceChosen { workspace } => workspaces.contains(workspace),
        StageView::PickingProject { options } => forall|p: ProjectView| #[trigger]
            options.contains(p) ==> live(workspaces, p),
        StageView::ProjectChosen { project } => from_live(workspaces, project),
        StageView::PickingEnvironment { project, options: _ } => from_live(workspaces, project),
        StageView::EnvironmentChosen { project, environment: _ } => from_live(workspaces, project),
        StageView::PickingService { project, environment: _, options: _ } => from_live(
            workspaces,
            project,
        ),
        StageView::ServiceChosen { project, environment: _, service: _ } => from_live(
            workspaces,
            project,
        ),
        StageView::FetchingDetails { project, environment: _, service: _ } => from_live(
            workspaces,
            project,
        ),
        StageView::FetchingDeployments { project, environment: _, service: _, details: _ } =>
            from_live(workspaces, project),
        StageView::Saving { path: _ } => true,
        StageView::Finished => true,
        StageView::Failed => true,
    }
}

/// All that is offered or chosen stays drawn from the workspaces that were
/// fetched.
pub proof fn choices_stay_drawn_from_the_account(
    workspaces: Seq<WorkspaceView>,
    run: ExportView,
    event: EventView,
)
    requires
        drawn_from(workspaces, run.stage),
        event matches EventView::Workspaces(fetched) ==> fetched == workspaces,
    ensures
        drawn_from(workspaces, next(run, event).0),
{
    match (run.stage, event) {
        (StageView::FetchingWorkspaces, EventView::Workspaces(fetched)) => {
            workspaces_come_from_the_account(
                run.args.workspace,
                run.args.project,
                run.linked,
                fetched,
                run.interactive,
            );
        },
        (StageView::PickingWorkspace { options }, EventView::Picked(at)) => {
            if at < options.len() {
                assert(options.contains(options[at as int]));
            }
        },
        (StageView::WorkspaceChosen { workspace }, EventView::Done) => {
            deleted_projects_are_left_out(
                workspace,
                run.args.project,
                run.linked,
                run.interactive,
            );
            assert forall|p: ProjectView| #[trigger]
                workspace.projects.contains(p) && p.record().deleted_at is None implies live(
                workspaces,
                p,
            ) by {
                assert(workspaces.contains(workspace) && workspace.projects.contains(p));
            }
        },
        (StageView::PickingProject { options }, EventView::Picked(at)) => {
            if at < options.len() {
                assert(options.contains(options[at as int]));
                assert(live(workspaces, options[at as int]));
            }
        },
        _ => {},
    }
}

/// Whether the project is a live one of `workspaces` and the environment is one
/// of its environments that the user may see into.
pub open spec fn exportable(
    workspaces: Seq<WorkspaceView>,
    project: NormalisedProjectView,
    environment: NormalisedEnvironmentView,
) -> bool {
    exists|p: ProjectView, e: EnvironmentRecordView|
        {
            &&& #[trigger] live(workspaces, p)
            &&& project == normalised(p.record())
            &&& #[trigger] p.record().environments.contains(e)
            &&& e.can_access
            &&& environment == normalised_environment(e)
        }
}

proof fn lemma_exportable(
    workspaces: Seq<WorkspaceView>,
    project: NormalisedProjectView,
    environment: NormalisedEnvironmentView,
)
    requires
        from_live(workspaces, project),
        project.environments.contains(environment),
    ensures
        exportable(workspaces, project, environment),
{
    let p = choose|p: ProjectView| #[trigger]
        live(workspaces, p) && project == normalised(p.record());
    accessible_environments_are_kept(p.record());
    let e = choose|e: EnvironmentRecordView|
        {
            &&& #[trigger] p.record().environments.contains(e)
            &&& e.can_access
            &&& environment == normalised_environment(e)
        };
    assert(live(workspaces, p) && p.record().environments.contains(e));
}

/// The run after a series of events.
pub open spec fn after(run: ExportView, events: Seq<EventView>) -> ExportView
    decreases events.len(),
{
    if events.len() == 0 {
        run
    } else {
        let before = after(run, events.drop_last());
        ExportView { stage: next(before, events.last()).0, ..before }
    }
}

/// However a run goes, what it has chosen is drawn from the workspaces that
/// were fetched and fits together, and its arguments stay as they were.
pub proof fn runs_stay_within_the_account(
    workspaces: Seq<WorkspaceView>,
    run: ExportView,
    events: Seq<EventView>,
)
    requires
        run.stage is FetchingWorkspaces,
        forall|i: int|
            0 <= i < events.len() ==> (#[trigger] events[i] matches EventView::Workspaces(fetched)
                ==> fetched == workspaces),
    ensures
        drawn_from(workspaces, after(run, events).stage),
        coherent(after(run, events).stage),
        after(run, events) == (ExportView { stage: after(run, events).stage, ..run }),
    decreases events.len(),
{
    if events.len() > 0 {
        let earlier = events.drop_last();
        assert forall|i: int| 0 <= i < earlier.len() implies (
        #[trigger] earlier[i] matches EventView::Workspaces(fetched) ==> fetched == workspaces) by {
            assert(earlier[i] == events[i]);
        }
        runs_stay_within_the_account(workspaces, run, earlier);
        assert(events.last() == events[events.len() - 1]);
        choices_stay_drawn_from_the_account(workspaces, after(run, earlier), events.last());
        choices_stay_coherent(after(run, earlier), events.last());
    }
}

/// However a run goes, the details and the deployments that it asks for, and
/// the file that it saves, are of a project that was not deleted, of a workspace
/// that was fetched, and of an environment of it that the user may see into; a
/// service that was chosen is one of the project that runs there.
pub proof fn only_what_the_user_may_see_is_exported(
    workspaces: Seq<WorkspaceView>,
    run: ExportView,
    events: Seq<EventView>,
    event: EventView,
)
    requires
        run.stage is FetchingWorkspaces,
        forall|i: int|
            0 <= i < events.len() ==> (#[trigger] events[i] matches EventView::Workspaces(fetched)
                ==> fetched == workspaces),
    ensures
        next(after(run, events), event).1 matches ActionView::FetchDetails(query) ==> (after(
            run,
            events,
        ).stage matches StageView::ServiceChosen { project, environment, service } && {
            &&& exportable(workspaces, project, environment)
            &&& fits(project, environment, service)
            &&& query == project_query(project.id)
        }),
        next(after(run, events), event).1 matches ActionView::FetchDeployments(query) ==> (after(
            run,
            events,
        ).stage matches StageView::FetchingDetails { project, environment, service } && {
            &&& exportable(workspaces, project, environment)
            &&& fits(project, environment, service)
            &&& query == deployments_query(project.id, environment.id, 5)
        }),
        next(after(run, events), event).1 matches ActionView::Save { path, json, toml } ==> (after(
            run,
            events,
        ).stage matches StageView::FetchingDeployments { project, environment, service, details }
            && event matches EventView::Deployments(deployments) && {
            &&& exportable(workspaces, project, environment)
            &&& fits(project, environment, service)
            &&& path == output_path_of(run.args)
            &&& json == run.args.json
            &&& service_config(
                details,
                environment.id,
                id_of(service),
                manifest_of(first_meta(deployments)),
            ) matches Ok(config) && toml == railway_toml(config)
        }),
{
    runs_stay_within_the_account(workspaces, run, events);
    match after(run, events).stage {
        StageView::ServiceChosen { project, environment, service: _ } => {
            lemma_exportable(workspaces, project, environment);
        },
        StageView::FetchingDetails { project, environment, service: _ } => {
            lemma_exportable(workspaces, project, environment);
        },
        StageView::FetchingDeployments { project, environment, service: _, details: _ } => {
            lemma_exportable(workspaces, project, environment);
        },
        _ => {},
    }
}

/// Once the choices are made, the details are fetched of the chosen project,
/// the deployments of the chosen environment of it, and what is saved is the
/// configuration of the chosen service in that environment.
pub proof fn what_is_chosen_is_exported(
    run: ExportView,
    project: NormalisedProjectView,
    environment: NormalisedEnvironmentView,
    service: Option<NormalisedServiceView>,
    details: ProjectDetailsView,
    deployments: Seq<DeploymentView>,
)
    requires
        run.stage == (StageView::ServiceChosen { project, environment, service }),
    ensures
        ({
            let (stage1, action1) = next(run, EventView::Done);
            let (stage2, action2) = next(
                ExportView { stage: stage1, ..run },
                EventView::Details(details),
            );
            let (stage3, action3) = next(
                ExportView { stage: stage2, ..run },
                EventView::Deployments(deployments),
            );
            let (stage4, action4) = next(ExportView { stage: stage3, ..run }, EventView::Done);
            let config = service_config(
                details,
                environment.id,
                id_of(service),
                manifest_of(first_meta(deployments)),
            );
            &&& action1 == ActionView::FetchDetails(project_query(project.id))
            &&& action2 == ActionView::FetchDeployments(
                deployments_query(project.id, environment.id, 5),
            )
            &&& config matches Ok(c) ==> {
                &&& action3 == ActionView::Save {
                    path: output_path_of(run.args),
                    json: run.args.json,
                    toml: railway_toml(c),
                }
                &&& action4 == ActionView::Report { path: output_path_of(run.args) }
            }
            &&& config matches Err(e) ==> action3 == ActionView::Fail(e) && stage3 is Failed
        }),
{
}

} // verus!
