use railway_export::error::ExportError;
use railway_export::model::{
    EnvironmentRecord, LinkedProject, Project, ProjectRecord, ServiceRecord, Workspace,
};
use railway_export::normalised::{NormalisedEnvironment, NormalisedProject, NormalisedService};
use railway_export::select::{
    prompt_workspace_projects, prompt_workspaces, select_environment_with_linked,
    select_project_with_linked, select_service_with_linked, select_workspace_with_linked, Decision,
    Echo,
};
use railway_export::text::{lowered, same_ignoring_case};

fn text(s: &str) -> String {
    s.to_string()
}

fn some(s: &str) -> Option<String> {
    Some(s.to_string())
}

fn record(id: &str, name: &str) -> ProjectRecord {
    ProjectRecord {
        id: text(id),
        name: text(name),
        label: format!("{name} [{id}]"),
        deleted_at: None,
        environments: Vec::new(),
        services: Vec::new(),
    }
}

fn workspace(id: &str, team_id: Option<&str>, name: &str, projects: Vec<Project>) -> Workspace {
    Workspace { id: text(id), team_id: team_id.map(text), name: text(name), projects }
}

fn account() -> Vec<Workspace> {
    vec![
        workspace("W-1", None, "Home", vec![Project::External(record("p-1", "Blog"))]),
        workspace(
            "W-2",
            Some("Team-2"),
            "Acme",
            vec![
                Project::Workspace(record("p-2", "Shop")),
                Project::Workspace(record("p-3", "")),
            ],
        ),
    ]
}

fn link(project: &str, name: Option<&str>) -> LinkedProject {
    LinkedProject { project: text(project), name: name.map(text), environment: None, service: None }
}

fn echo(label: &str, answer: &str) -> Option<Echo> {
    Some(Echo { label: text(label), answer: text(answer) })
}

fn chosen_workspace(r: Result<Decision<Workspace, Workspace>, ExportError>) -> (String, Option<Echo>) {
    match r {
        Ok(Decision::Chosen { value, echo }) => (value.id, echo),
        _ => panic!("no workspace was chosen"),
    }
}

fn environment(id: &str, name: &str) -> NormalisedEnvironment {
    NormalisedEnvironment::new(text(id), text(name))
}

fn service(id: &str, name: &str, environments: &[&str]) -> NormalisedService {
    NormalisedService::new(text(id), text(name), environments.iter().map(|e| text(e)).collect())
}

fn project(
    environments: Vec<NormalisedEnvironment>,
    services: Vec<NormalisedService>,
    restricted: bool,
) -> NormalisedProject {
    NormalisedProject::new(text("p"), text("Project"), environments, services, restricted)
}

#[test]
fn lowering_handles_ascii_and_other_letters() {
    assert_eq!(lowered("AbZ-09_[@"), "abz-09_[@");
    assert_eq!(lowered("ÉCOLE"), "école");
    assert_eq!(lowered("ΟΔΟΣ"), "οδος");
    assert!(same_ignoring_case("Production", "pRODUCTION"));
    assert!(same_ignoring_case("ÉCOLE", "école"));
    assert!(!same_ignoring_case("staging", "stagin"));
}

#[test]
fn workspace_is_found_by_id_team_and_name_in_any_case() {
    for key in ["w-2", "TEAM-2", "aCME"] {
        let r = select_workspace_with_linked(some(key), some("p-1"), None, account(), false);
        assert_eq!(chosen_workspace(r), (text("W-2"), echo("Select a workspace", "Acme")));
    }
}

#[test]
fn first_of_several_matching_workspaces_is_taken() {
    let twins = vec![
        workspace("a", None, "Same", Vec::new()),
        workspace("b", None, "same", Vec::new()),
    ];
    let r = select_workspace_with_linked(some("SAME"), None, None, twins, true);
    assert_eq!(chosen_workspace(r).0, "a");
}

#[test]
fn missing_workspace_is_refused() {
    let r = select_workspace_with_linked(some("Nope"), None, None, account(), true);
    assert_eq!(r.err(), Some(ExportError::WorkspaceNotFound(text("Nope"))));
    let r = select_workspace_with_linked(some("PERSONAL"), None, None, account(), true);
    assert_eq!(r.err(), Some(ExportError::NoPersonalWorkspace));
}

#[test]
fn workspace_called_personal_is_found() {
    let all = vec![workspace("x", None, "Personal", Vec::new())];
    let r = select_workspace_with_linked(some("personal"), None, None, all, false);
    assert_eq!(chosen_workspace(r).0, "x");
}

#[test]
fn workspace_is_found_by_the_project_asked_for() {
    let linked = link("p-1", None);
    let r = select_workspace_with_linked(None, some("SHOP"), Some(&linked), account(), false);
    assert_eq!(chosen_workspace(r).0, "W-2");
    let r = select_workspace_with_linked(None, some("P-1"), None, account(), false);
    assert_eq!(chosen_workspace(r).0, "W-1");
}

#[test]
fn deleted_project_still_leads_to_its_workspace() {
    let mut gone = record("p-9", "Old");
    gone.deleted_at = some("2024-01-01T00:00:00Z");
    let all = vec![
        workspace("a", None, "A", Vec::new()),
        workspace("b", None, "B", vec![Project::Workspace(gone)]),
    ];
    let r = select_workspace_with_linked(None, some("old"), None, all, false);
    assert_eq!(chosen_workspace(r).0, "b");
}

#[test]
fn workspace_is_found_by_the_link() {
    let linked = link("P-2", some("other").as_deref());
    let r = select_workspace_with_linked(None, None, Some(&linked), account(), false);
    assert_eq!(chosen_workspace(r), (text("W-2"), echo("Select a workspace", "Acme")));
    let linked = link("unknown", Some("BLOG"));
    let r = select_workspace_with_linked(None, None, Some(&linked), account(), false);
    assert_eq!(chosen_workspace(r).0, "W-1");
}

#[test]
fn link_without_a_name_goes_by_the_empty_name() {
    let linked = link("unknown", None);
    let r = select_workspace_with_linked(None, None, Some(&linked), account(), false);
    assert_eq!(chosen_workspace(r).0, "W-2");
}

#[test]
fn unsettled_workspace_is_asked_for() {
    let linked = link("unknown", Some("unknown"));
    match select_workspace_with_linked(None, None, Some(&linked), account(), true) {
        Ok(Decision::Ask { label, options, skippable }) => {
            assert_eq!(label, "Select a workspace");
            assert_eq!(options.len(), 2);
            assert_eq!(options[1].name(), "Acme");
            assert!(!skippable);
        }
        _ => panic!("nothing was asked"),
    }
    let r = select_workspace_with_linked(None, some("unknown"), Some(&linked), account(), false);
    assert_eq!(
        r.err(),
        Some(ExportError::Message(text(
            "--workspace required in non-interactive mode (multiple workspaces available)"
        )))
    );
}

#[test]
fn asking_for_a_workspace_needs_several() {
    assert_eq!(prompt_workspaces(Vec::new(), true).err(), Some(ExportError::NoProjects));
    let one = vec![workspace("only", None, "Only", Vec::new())];
    assert_eq!(
        chosen_workspace(prompt_workspaces(one, false)),
        (text("only"), echo("Select a workspace", "Only"))
    );
}

#[test]
fn project_is_found_and_normalised() {
    let home = workspace(
        "w",
        None,
        "Home",
        vec![Project::External(record("p-1", "Blog")), Project::Workspace(record("p-2", "Shop"))],
    );
    match select_project_with_linked(home, some("shop"), None, false) {
        Ok(Decision::Chosen { value, echo: shown }) => {
            assert_eq!(value.id(), "p-2");
            assert_eq!(shown, echo("Select a project", "Shop [p-2]"));
        }
        _ => panic!("no project was chosen"),
    }
}

#[test]
fn linked_project_is_taken_unless_another_is_asked_for() {
    let linked = link("SHOP", None);
    for (asked, expected) in [(None, "p-2"), (some("blog"), "p-1")] {
        let home = workspace(
            "w",
            None,
            "Home",
            vec![
                Project::External(record("p-1", "Blog")),
                Project::Workspace(record("p-2", "Shop")),
            ],
        );
        match select_project_with_linked(home, asked, Some(&linked), false) {
            Ok(Decision::Chosen { value, echo: shown }) => {
                assert_eq!(value.id(), expected);
                assert!(shown.is_some());
            }
            _ => panic!("no project was chosen"),
        }
    }
}

#[test]
fn deleted_project_is_refused() {
    let mut gone = record("p-9", "Old");
    gone.deleted_at = some("2024-01-01T00:00:00Z");
    let home = workspace("w", None, "Home", vec![Project::Workspace(gone)]);
    let linked = link("p-9", None);
    assert_eq!(
        select_project_with_linked(home.clone(), some("p-9"), None, true).err(),
        Some(ExportError::ProjectNotFoundInWorkspace(text("p-9"), text("Home")))
    );
    match select_project_with_linked(home, None, Some(&linked), true) {
        Ok(Decision::Ask { label, options, skippable }) => {
            assert_eq!(label, "Select a project");
            assert!(options.is_empty());
            assert!(!skippable);
        }
        _ => panic!("nothing was asked"),
    }
}

#[test]
fn asking_for_a_project_needs_a_user() {
    let r = prompt_workspace_projects(vec![Project::External(record("p", "P"))], false);
    assert_eq!(
        r.err(),
        Some(ExportError::Message(text("--project required in non-interactive mode")))
    );
}

#[test]
fn project_without_visible_environments_is_refused() {
    let r = select_environment_with_linked(some("x"), &project(Vec::new(), Vec::new(), true), None, true);
    assert_eq!(
        r.err(),
        Some(ExportError::Message(text("All environments in this project are restricted")))
    );
    let r = select_environment_with_linked(None, &project(Vec::new(), Vec::new(), false), None, true);
    assert_eq!(r.err(), Some(ExportError::Message(text("Project has no environments"))));
}

#[test]
fn environment_is_found_asked_for_or_refused() {
    let p = project(
        vec![environment("e-1", "production"), environment("e-2", "staging")],
        Vec::new(),
        false,
    );
    for key in ["E-2", "Staging"] {
        match select_environment_with_linked(some(key), &p, None, false) {
            Ok(Decision::Chosen { value, echo: shown }) => {
                assert_eq!(value.id, "e-2");
                assert_eq!(value.to_string(), "staging");
                assert_eq!(shown, echo("Select an environment", "staging"));
            }
            _ => panic!("no environment was chosen"),
        }
    }
    assert_eq!(
        select_environment_with_linked(some("qa"), &p, None, true).err(),
        Some(ExportError::EnvironmentNotFound(text("qa")))
    );
    assert_eq!(
        select_environment_with_linked(None, &p, None, false).err(),
        Some(ExportError::Message(text(
            "--environment required in non-interactive mode (multiple environments available)"
        )))
    );
    match select_environment_with_linked(None, &p, None, true) {
        Ok(Decision::Ask { label, options, skippable }) => {
            assert_eq!(label, "Select an environment");
            assert_eq!(options.len(), 2);
            assert!(!skippable);
        }
        _ => panic!("nothing was asked"),
    }
}

#[test]
fn linked_environment_is_taken_silently() {
    let p = project(
        vec![environment("e-1", "production"), environment("e-2", "staging")],
        Vec::new(),
        false,
    );
    let mut linked = link("p", None);
    linked.environment = some("STAGING");
    match select_environment_with_linked(None, &p, Some(&linked), false) {
        Ok(Decision::Chosen { value, echo: shown }) => {
            assert_eq!(value.id, "e-2");
            assert_eq!(shown, None);
        }
        _ => panic!("no environment was chosen"),
    }
}

#[test]
fn only_environment_is_taken_and_shown() {
    let p = project(vec![environment("e-1", "production")], Vec::new(), true);
    match select_environment_with_linked(None, &p, None, false) {
        Ok(Decision::Chosen { value, echo: shown }) => {
            assert_eq!(value.id, "e-1");
            assert_eq!(shown, echo("Select an environment", "production"));
        }
        _ => panic!("no environment was chosen"),
    }
}

#[test]
fn service_is_chosen_among_those_in_the_environment() {
    let e = environment("e-1", "production");
    let p = project(
        vec![environment("e-1", "production")],
        vec![
            service("s-1", "web", &["e-2"]),
            service("s-2", "Web", &["e-2", "e-1"]),
            service("s-3", "db", &["e-1"]),
        ],
        false,
    );
    match select_service_with_linked(&p, &e, some("WEB"), None, false) {
        Ok(Decision::Chosen { value: Some(s), echo: shown }) => {
            assert_eq!(s.id(), "s-2");
            assert_eq!(s.to_string(), "Web");
            assert_eq!(shown, echo("Select a service", "Web"));
        }
        _ => panic!("no service was chosen"),
    }
    assert_eq!(
        select_service_with_linked(&p, &e, some("s-1"), None, true).err(),
        Some(ExportError::ServiceNotFound(text("s-1")))
    );
    let mut linked = link("p", None);
    linked.service = some("DB");
    match select_service_with_linked(&p, &e, None, Some(&linked), true) {
        Ok(Decision::Chosen { value: Some(s), echo: None }) => assert_eq!(s.id(), "s-3"),
        _ => panic!("no service was chosen"),
    }
    match select_service_with_linked(&p, &e, None, None, true) {
        Ok(Decision::Ask { label, options, skippable }) => {
            assert_eq!(label, "Select a service <esc to skip>");
            assert_eq!(options.iter().map(|s| s.id()).collect::<Vec<_>>(), ["s-2", "s-3"]);
            assert!(skippable);
        }
        _ => panic!("nothing was asked"),
    }
    assert!(matches!(
        select_service_with_linked(&p, &e, None, None, false),
        Ok(Decision::Chosen { value: None, echo: None })
    ));
}

#[test]
fn no_service_in_the_environment_means_none() {
    let e = environment("E-1", "production");
    let p = project(Vec::new(), vec![service("s-1", "web", &["e-1"])], false);
    assert!(matches!(
        select_service_with_linked(&p, &e, some("web"), None, true),
        Ok(Decision::Chosen { value: None, echo: None })
    ));
}

#[test]
fn project_is_reduced_to_what_the_user_may_see() {
    let r = ProjectRecord {
        id: text("p"),
        name: text("Project"),
        label: text("Project"),
        deleted_at: None,
        environments: vec![
            EnvironmentRecord {
                id: text("e-1"),
                name: text("production"),
                can_access: false,
                service_instances: vec![text("s-1"), text("s-2"), text("s-1")],
            },
            EnvironmentRecord {
                id: text("e-2"),
                name: text("staging"),
                can_access: true,
                service_instances: vec![text("s-1"), text("unknown")],
            },
        ],
        services: vec![
            ServiceRecord { id: text("s-1"), name: text("web") },
            ServiceRecord { id: text("s-2"), name: text("db") },
            ServiceRecord { id: text("s-1"), name: text("twin") },
            ServiceRecord { id: text("s-3"), name: text("idle") },
        ],
    };
    let whole = Project::External(r.clone());
    assert_eq!(whole.id(), "p");
    assert_eq!(whole.name(), "Project");
    for p in [whole, Project::Workspace(r)] {
        let n = NormalisedProject::from(p);
        assert_eq!(n.id(), "p");
        assert_eq!(n.name, "Project");
        assert!(n.has_restricted_environments);
        assert_eq!(n.environments.len(), 1);
        assert_eq!(n.environments[0].id, "e-2");
        assert_eq!(n.services.len(), 4);
        assert_eq!(n.services[0].service_instances, ["e-1", "e-1", "e-2"]);
        assert_eq!(n.services[1].service_instances, ["e-1"]);
        assert_eq!(n.services[2].name, "twin");
        assert!(n.services[2].service_instances.is_empty());
        assert!(n.services[3].service_instances.is_empty());
    }
}

#[test]
fn project_with_open_environments_only_has_none_restricted() {
    let mut r = record("p", "P");
    r.environments.push(EnvironmentRecord {
        id: text("e"),
        name: text("production"),
        can_access: true,
        service_instances: Vec::new(),
    });
    assert!(!NormalisedProject::from(Project::Workspace(r)).has_restricted_environments);
    let empty = NormalisedProject::from(Project::Workspace(record("p", "P")));
    assert!(!empty.has_restricted_environments);
    assert!(empty.environments.is_empty());
}
