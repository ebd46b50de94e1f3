use railway_export::command::{begin, command, output_path, Action, Args, Event, Export, Stage};
use railway_export::details::{
    Deployment, DeploymentEdge, EnvironmentDetails, ProjectDetails, ServiceInstance,
};
use railway_export::error::ExportError;
use railway_export::model::{
    EnvironmentRecord, LinkedProject, Project, ProjectRecord, ServiceRecord, Workspace,
};
use railway_export::request::{deployments_variables, project_variables, ProjectVariables};
use railway_export::select::Echo;

fn text(s: &str) -> String {
    s.to_string()
}

fn some(s: &str) -> Option<String> {
    Some(s.to_string())
}

fn environment(id: &str, name: &str, services: &[&str]) -> EnvironmentRecord {
    EnvironmentRecord {
        id: text(id),
        name: text(name),
        can_access: true,
        service_instances: services.iter().map(|s| text(s)).collect(),
    }
}

fn project(id: &str, name: &str) -> Project {
    Project::Workspace(ProjectRecord {
        id: text(id),
        name: text(name),
        label: text(name),
        deleted_at: None,
        environments: vec![
            environment("e-1", "production", &["s-1", "s-2"]),
            environment("e-2", "staging", &["s-1"]),
        ],
        services: vec![
            ServiceRecord { id: text("s-1"), name: text("web") },
            ServiceRecord { id: text("s-2"), name: text("db") },
        ],
    })
}

fn account() -> Vec<Workspace> {
    vec![
        Workspace { id: text("w-1"), team_id: None, name: text("Home"), projects: Vec::new() },
        Workspace {
            id: text("w-2"),
            team_id: None,
            name: text("Acme"),
            projects: vec![project("p-1", "Blog"), project("p-2", "Shop")],
        },
    ]
}

fn running(service_ids: &[&str]) -> ProjectDetails {
    ProjectDetails {
        environments: vec![EnvironmentDetails {
            id: text("e-1"),
            service_instances: service_ids
                .iter()
                .map(|id| ServiceInstance {
                    service_id: text(id),
                    source: None,
                    start_command: Some(format!("start {id}")),
                    cron_schedule: None,
                })
                .collect(),
            volume_instances: Vec::new(),
        }],
    }
}

fn shown(action: Action) -> (String, String) {
    match action {
        Action::Show(Echo { label, answer }) => (label, answer),
        other => panic!("expected a choice to be shown, not {:?}", other),
    }
}

fn asked(action: Action) -> (String, Vec<String>, bool) {
    match action {
        Action::Ask { label, options, skippable } => (label, options, skippable),
        other => panic!("expected a question, not {:?}", other),
    }
}

fn step(export: Export, event: Event) -> (Export, Action) {
    command(export, event)
}

#[test]
fn output_path_follows_the_arguments() {
    assert_eq!(output_path(&Args::default()), "railway.toml");
    assert_eq!(output_path(&Args { json: true, ..Args::default() }), "railway.json");
    let named = Args { json: true, output: some("out.cfg"), ..Args::default() };
    assert_eq!(output_path(&named), "out.cfg");
}

#[test]
fn queries_name_the_project_and_the_environment() {
    assert_eq!(project_variables("p").id, "p");
    let v = deployments_variables("p", "e", 5);
    assert_eq!(v.input.project_id, some("p"));
    assert_eq!(v.input.environment_id, some("e"));
    assert_eq!(v.input.service_id, None);
    assert_eq!(v.input.include_deleted, None);
    assert_eq!(v.input.status, None);
    assert_eq!(v.first, Some(5));
}

#[test]
fn run_with_arguments_saves_what_was_asked_for() {
    let args = Args {
        json: true,
        output: None,
        environment: some("PRODUCTION"),
        project: some("shop"),
        service: some("DB"),
        workspace: None,
    };
    let (run, action) = begin(args, None, false);
    assert!(matches!(action, Action::FetchWorkspaces));
    let (run, action) = step(run, Event::Workspaces(account()));
    assert_eq!(shown(action), (text("Select a workspace"), text("Acme")));
    let (run, action) = step(run, Event::Done);
    assert_eq!(shown(action), (text("Select a project"), text("Shop")));
    let (run, action) = step(run, Event::Done);
    assert_eq!(shown(action), (text("Select an environment"), text("production")));
    let (run, action) = step(run, Event::Done);
    assert_eq!(shown(action), (text("Select a service"), text("db")));
    let (run, action) = step(run, Event::Done);
    match action {
        Action::FetchDetails(variables) => {
            assert_eq!(variables, ProjectVariables { id: text("p-2") })
        }
        other => panic!("expected details to be fetched, not {:?}", other),
    }
    let (run, action) = step(run, Event::Details(running(&["s-1", "s-2"])));
    match action {
        Action::FetchDeployments(variables) => {
            assert_eq!(variables, deployments_variables("p-2", "e-1", 5))
        }
        other => panic!("expected deployments to be fetched, not {:?}", other),
    }
    let meta = serde_json::from_str(r#"{"image": "app:1"}"#).unwrap();
    let edges = vec![DeploymentEdge { node: Deployment { meta: Some(meta) } }];
    let (run, action) = step(run, Event::Deployments(edges));
    match action {
        Action::Save { path, json, toml } => {
            assert_eq!(path, "railway.json");
            assert!(json);
            assert_eq!(toml.deploy.unwrap().start_command, some("start s-2"));
            assert_eq!(toml.build.unwrap().image, some("app:1"));
        }
        other => panic!("expected the file to be saved, not {:?}", other),
    }
    let (run, action) = step(run, Event::Done);
    match action {
        Action::Report { path } => assert_eq!(path, "railway.json"),
        other => panic!("expected a report, not {:?}", other),
    }
    assert!(matches!(run.stage, Stage::Finished));
    let (run, action) = step(run, Event::Done);
    assert!(matches!(action, Action::Unexpected));
    assert!(matches!(run.stage, Stage::Finished));
}

#[test]
fn run_by_asking_takes_what_is_picked() {
    let (run, _) = begin(Args::default(), None, true);
    let (run, action) = step(run, Event::Workspaces(account()));
    assert_eq!(asked(action), (text("Select a workspace"), vec![text("Home"), text("Acme")], false));
    let (run, action) = step(run, Event::Picked(2));
    assert!(matches!(action, Action::Unexpected));
    let (run, action) = step(run, Event::Skipped);
    assert!(matches!(action, Action::Unexpected));
    let (run, action) = step(run, Event::Picked(1));
    assert!(matches!(action, Action::GoOn));
    let (run, action) = step(run, Event::Done);
    assert_eq!(asked(action), (text("Select a project"), vec![text("Blog"), text("Shop")], false));
    let (run, action) = step(run, Event::Picked(0));
    assert!(matches!(action, Action::GoOn));
    let (run, action) = step(run, Event::Done);
    assert_eq!(
        asked(action),
        (text("Select an environment"), vec![text("production"), text("staging")], false)
    );
    let (run, action) = step(run, Event::Picked(0));
    assert!(matches!(action, Action::GoOn));
    let (run, action) = step(run, Event::Done);
    assert_eq!(
        asked(action),
        (text("Select a service <esc to skip>"), vec![text("web"), text("db")], true)
    );
    let (run, action) = step(run, Event::Skipped);
    assert!(matches!(action, Action::GoOn));
    let (run, action) = step(run, Event::Done);
    assert!(matches!(action, Action::FetchDetails(ProjectVariables { id }) if id == "p-1"));
    let (run, _) = step(run, Event::Details(running(&["s-1"])));
    let (run, action) = step(run, Event::Deployments(Vec::new()));
    match action {
        Action::Save { path, json, toml } => {
            assert_eq!(path, "railway.toml");
            assert!(!json);
            assert_eq!(toml.deploy.unwrap().start_command, some("start s-1"));
            assert!(toml.build.is_none());
        }
        other => panic!("expected the file to be saved, not {:?}", other),
    }
    assert!(matches!(run.stage, Stage::Saving { .. }));
}

#[test]
fn picked_service_is_exported() {
    let args = Args { environment: some("production"), ..Args::default() };
    let linked = LinkedProject {
        project: text("p-1"),
        name: None,
        environment: some("staging"),
        service: None,
    };
    let (run, _) = begin(args, Some(linked), true);
    let (run, action) = step(run, Event::Workspaces(account()));
    assert_eq!(shown(action).1, "Acme");
    let (run, action) = step(run, Event::Done);
    assert_eq!(shown(action).1, "Blog");
    let (run, action) = step(run, Event::Done);
    assert_eq!(shown(action).1, "production");
    let (run, action) = step(run, Event::Done);
    assert!(asked(action).2);
    let (run, _) = step(run, Event::Picked(1));
    let (run, _) = step(run, Event::Done);
    let (run, _) = step(run, Event::Details(running(&["s-2"])));
    let (_, action) = step(run, Event::Deployments(Vec::new()));
    match action {
        Action::Save { toml, .. } => {
            assert_eq!(toml.deploy.unwrap().start_command, some("start s-2"))
        }
        other => panic!("expected the file to be saved, not {:?}", other),
    }
}

#[test]
fn linked_environment_and_service_are_taken_silently() {
    let linked = LinkedProject {
        project: text("p-2"),
        name: some("Shop"),
        environment: some("e-1"),
        service: some("s-1"),
    };
    let (run, _) = begin(Args::default(), Some(linked), false);
    let (run, _) = step(run, Event::Workspaces(account()));
    let (run, _) = step(run, Event::Done);
    let (run, action) = step(run, Event::Done);
    assert!(matches!(action, Action::GoOn));
    let (run, action) = step(run, Event::Done);
    assert!(matches!(action, Action::GoOn));
    match run.stage {
        Stage::ServiceChosen { project, environment, service } => {
            assert_eq!(project.id(), "p-2");
            assert_eq!(environment.id, "e-1");
            assert_eq!(service.unwrap().id(), "s-1");
        }
        _ => panic!("no service was chosen"),
    }
}

#[test]
fn run_without_a_user_fails_where_it_would_ask() {
    let (run, _) = begin(Args::default(), None, false);
    let (run, action) = step(run, Event::Workspaces(account()));
    match action {
        Action::Fail(ExportError::Message(message)) => assert!(message.starts_with("--workspace")),
        other => panic!("expected a failure, not {:?}", other),
    }
    assert!(matches!(run.stage, Stage::Failed));
    let (_, action) = step(run, Event::Workspaces(account()));
    assert!(matches!(action, Action::Unexpected));
}

#[test]
fn run_fails_when_the_service_cannot_be_told() {
    let args = Args {
        workspace: some("acme"),
        project: some("blog"),
        environment: some("production"),
        ..Args::default()
    };
    let (run, _) = begin(args, None, false);
    let (run, _) = step(run, Event::Workspaces(account()));
    let (run, _) = step(run, Event::Done);
    let (run, _) = step(run, Event::Done);
    let (run, action) = step(run, Event::Done);
    assert!(matches!(action, Action::GoOn));
    let (run, _) = step(run, Event::Done);
    let (run, _) = step(run, Event::Details(running(&["s-1", "s-2"])));
    let (run, action) = step(run, Event::Deployments(Vec::new()));
    match action {
        Action::Fail(error) => {
            assert_eq!(error, ExportError::ServiceNotFound(text("multiple services found")))
        }
        other => panic!("expected a failure, not {:?}", other),
    }
    assert!(matches!(run.stage, Stage::Failed));
}

#[test]
fn run_offers_only_what_the_user_may_see() {
    let mut gone = project("p-0", "Old");
    if let Project::Workspace(record) = &mut gone {
        record.deleted_at = some("2024-01-01T00:00:00Z");
    }
    let mut kept = project("p-1", "Blog");
    if let Project::Workspace(record) = &mut kept {
        record.environments.push(environment("e-3", "qa", &["s-1"]));
        record.environments[0].can_access = false;
    }
    let all = vec![Workspace {
        id: text("w"),
        team_id: None,
        name: text("Home"),
        projects: vec![gone, kept],
    }];
    let (run, _) = begin(Args::default(), None, true);
    let (run, action) = step(run, Event::Workspaces(all));
    assert_eq!(shown(action).1, "Home");
    let (run, action) = step(run, Event::Done);
    assert_eq!(asked(action).1, [text("Blog")]);
    let (run, _) = step(run, Event::Picked(0));
    let (run, action) = step(run, Event::Done);
    assert_eq!(asked(action).1, [text("staging"), text("qa")]);
    let (run, _) = step(run, Event::Picked(1));
    let (run, action) = step(run, Event::Done);
    assert_eq!(asked(action).1, [text("web")]);
    let (run, _) = step(run, Event::Picked(0));
    let (run, _) = step(run, Event::Done);
    let (_, action) = step(run, Event::Details(running(&["s-1"])));
    match action {
        Action::FetchDeployments(variables) => {
            assert_eq!(variables, deployments_variables("p-1", "e-3", 5))
        }
        other => panic!("expected deployments to be fetched, not {:?}", other),
    }
}
