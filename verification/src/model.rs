//! The account as the backend describes it: workspaces, their projects, and
//! the project that the working directory is linked to.
use vstd::prelude::*;

verus! {

/// A service of a project.
pub struct ServiceRecord {
    pub id: String,
    pub name: String,
}

/// The contents of a [`ServiceRecord`].
pub struct ServiceRecordView {
    pub id: Seq<char>,
    pub name: Seq<char>,
}

/// An environment of a project.
pub struct EnvironmentRecord {
    pub id: String,
    pub name: String,
    /// Whether the user may see into the environment.
    pub can_access: bool,
    /// For each service instance in the environment, the id of its service.
    pub service_instances: Vec<String>,
}

/// The contents of an [`EnvironmentRecord`].
pub struct EnvironmentRecordView {
    pub id: Seq<char>,
    pub name: Seq<char>,
    pub can_access: bool,
    pub service_instances: Seq<Seq<char>>,
}

/// A project with its environments and services.
pub struct ProjectRecord {
    pub id: String,
    pub name: String,
    /// What the project is shown as when the user picks one.
    pub label: String,
    /// When the project was deleted, if it was.
    pub deleted_at: Option<String>,
    pub environments: Vec<EnvironmentRecord>,
    pub services: Vec<ServiceRecord>,
}

/// The contents of a [`ProjectRecord`].
pub struct ProjectRecordView {
    pub id: Seq<char>,
    pub name: Seq<char>,
    pub label: Seq<char>,
    pub deleted_at: Option<Seq<char>>,
    pub environments: Seq<EnvironmentRecordView>,
    pub services: Seq<ServiceRecordView>,
}

/// A project, by the way the user has got at it.
pub enum Project {
    /// Shared with the user from outside the workspace.
    External(ProjectRecord),
    /// Owned by the workspace.
    Workspace(ProjectRecord),
}

/// The contents of a [`Project`].
pub enum ProjectView {
    External(ProjectRecordView),
    Workspace(ProjectRecordView),
}

/// A workspace with its projects.
pub struct Workspace {
    pub id: String,
    /// The id of the team behind the workspace, if there is one.
    pub team_id: Option<String>,
    pub name: String,
    pub projects: Vec<Project>,
}

/// The contents of a [`Workspace`].
pub struct WorkspaceView {
    pub id: Seq<char>,
    pub team_id: Option<Seq<char>>,
    pub name: Seq<char>,
    pub projects: Seq<ProjectView>,
}

/// What the working directory is linked to.
pub struct LinkedProject {
    /// The id of the project.
    pub project: String,
    /// The name of the project.
    pub name: Option<String>,
    /// The environment, by id or name.
    pub environment: Option<String>,
    /// The service, by id or name.
    pub service: Option<String>,
}

/// The contents of a [`LinkedProject`].
pub struct LinkedProjectView {
    pub project: Seq<char>,
    pub name: Option<Seq<char>>,
    pub environment: Option<Seq<char>>,
    pub service: Option<Seq<char>>,
}

impl DeepView for ServiceRecord {
    type V = ServiceRecordView;

    open spec fn deep_view(&self) -> ServiceRecordView {
        ServiceRecordView { id: self.id@, name: self.name@ }
    }
}

impl DeepView for EnvironmentRecord {
    type V = EnvironmentRecordView;

    open spec fn deep_view(&self) -> EnvironmentRecordView {
        EnvironmentRecordView {
            id: self.id@,
            name: self.name@,
            can_access: self.can_access,
            service_instances: self.service_instances.deep_view(),
        }
    }
}

impl DeepView for ProjectRecord {
    type V = ProjectRecordView;

    open spec fn deep_view(&self) -> ProjectRecordView {
        ProjectRecordView {
            id: self.id@,
            name: self.name@,
            label: self.label@,
            deleted_at: self.deleted_at.deep_view(),
            environments: self.environments.deep_view(),
            services: self.services.deep_view(),
        }
    }
}

impl DeepView for Project {
    type V = ProjectView;

    open spec fn deep_view(&self) -> ProjectView {
        match self {
            Project::External(record) => ProjectView::External(record.deep_view()),
            Project::Workspace(record) => ProjectView::Workspace(record.deep_view()),
        }
    }
}

impl DeepView for Workspace {
    type V = WorkspaceView;

    open spec fn deep_view(&self) -> WorkspaceView {
        WorkspaceView {
            id: self.id@,
            team_id: self.team_id.deep_view(),
            name: self.name@,
            projects: self.projects.deep_view(),
        }
    }
}

impl DeepView for LinkedProject {
    type V = LinkedProjectView;

    open spec fn deep_view(&self) -> LinkedProjectView {
        LinkedProjectView {
            project: self.project@,
            name: self.name.deep_view(),
            environment: self.environment.deep_view(),
            service: self.service.deep_view(),
        }
    }
}

impl ProjectView {
    /// The project behind either way of getting at it.
    pub open spec fn record(self) -> ProjectRecordView {
        match self {
            ProjectView::External(record) => record,
            ProjectView::Workspace(record) => record,
        }
    }
}

impl Clone for ServiceRecord {
    fn clone(&self) -> (r: Self)
        ensures
            r.deep_view() == self.deep_view(),
    {
        ServiceRecord { id: self.id.clone(), name: self.name.clone() }
    }
}

impl Clone for EnvironmentRecord {
    fn clone(&self) -> (r: Self)
        ensures
            r.deep_view() == self.deep_view(),
    {
        let service_instances = self.service_instances.clone();
        assert(service_instances.deep_view() =~= self.service_instances.deep_view());
        EnvironmentRecord {
            id: self.id.clone(),
            name: self.name.clone(),
            can_access: self.can_access,
            service_instances,
        }
    }
}

impl Clone for ProjectRecord {
    fn clone(&self) -> (r: Self)
        ensures
            r.deep_view() == self.deep_view(),
    {
        let environments = self.environments.clone();
        assert(environments.deep_view() =~= self.environments.deep_view());
        let services = self.services.clone();
        assert(services.deep_view() =~= self.services.deep_view());
        ProjectRecord {
            id: self.id.clone(),
            name: self.name.clone(),
            label: self.label.clone(),
            deleted_at: self.deleted_at.clone(),
            environments,
            services,
        }
    }
}

impl Clone for Project {
    fn clone(&self) -> (r: Self)
        ensures
            r.deep_view() == self.deep_view(),
    {
        match self {
            Project::External(record) => Project::External(record.clone()),
            Project::Workspace(record) => Project::Workspace(record.clone()),
        }
    }
}

impl Clone for Workspace {
    fn clone(&self) -> (r: Self)
        ensures
            r.deep_view() == self.deep_view(),
    {
        let projects = self.projects.clone();
        assert(projects.deep_view() =~= self.projects.deep_view());
        Workspace {
            id: self.id.clone(),
            team_id: self.team_id.clone(),
            name: self.name.clone(),
            projects,
        }
    }
}

impl Project {
    /// The project behind either way of getting at it.
    fn record(&self) -> (r: &ProjectRecord)
        ensures
            r.deep_view() == self.deep_view().record(),
    {
        match self {
            Project::External(record) => record,
            Project::Workspace(record) => record,
        }
    }

    /// The project's id.
    pub fn id(&self) -> (r: &str)
        ensures
            r@ == self.deep_view().record().id,
    {
        self.record().id.as_str()
    }

    /// The project's name.
    pub fn name(&self) -> (r: &str)
        ensures
            r@ == self.deep_view().record().name,
    {
        self.record().name.as_str()
    }

    /// What the project is shown as.
    pub fn label(&self) -> (r: &str)
        ensures
            r@ == self.deep_view().record().label,
    {
        self.record().label.as_str()
    }

    /// When the project was deleted, if it was.
    pub fn deleted_at(&self) -> (r: &Option<String>)
        ensures
            r.deep_view() == self.deep_view().record().deleted_at,
    {
        &self.record().deleted_at
    }
}

impl Workspace {
    /// The workspace's id.
    pub fn id(&self) -> (r: &str)
        ensures
            r@ == self.deep_view().id,
    {
        self.id.as_str()
    }

    /// The workspace's name.
    pub fn name(&self) -> (r: &str)
        ensures
            r@ == self.deep_view().name,
    {
        self.name.as_str()
    }

    /// The id of the team behind the workspace, if there is one.
    pub fn team_id(&self) -> (r: &Option<String>)
        ensures
            r.deep_view() == self.deep_view().team_id,
    {
        &self.team_id
    }

    /// The workspace's projects.
    pub fn projects(&self) -> (r: &Vec<Project>)
        ensures
            r.deep_view() == self.deep_view().projects,
    {
        &self.projects
    }
}

} // verus!
