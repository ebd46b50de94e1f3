//! What the backend is asked for.
use vstd::prelude::*;

verus! {

/// The variables of the query for a project's details.
#[derive(Debug, PartialEq, Eq)]
pub struct ProjectVariables {
    pub id: String,
}

/// The contents of a [`ProjectVariables`].
pub struct ProjectVariablesView {
    pub id: Seq<char>,
}

/// Which deployments to list.
#[derive(Debug, PartialEq, Eq)]
pub struct DeploymentListInput {
    pub project_id: Option<String>,
    pub environment_id: Option<String>,
    pub service_id: Option<String>,
    pub include_deleted: Option<bool>,
    pub status: Option<String>,
}

/// The contents of a [`DeploymentListInput`].
pub struct DeploymentListInputView {
    pub project_id: Option<Seq<char>>,
    pub environment_id: Option<Seq<char>>,
    pub service_id: Option<Seq<char>>,
    pub include_deleted: Option<bool>,
    pub status: Option<Seq<char>>,
}

/// The variables of the query for deployments.
#[derive(Debug, PartialEq, Eq)]
pub struct DeploymentsVariables {
    pub input: DeploymentListInput,
    /// How many to list.
    pub first: Option<i64>,
}

/// The contents of a [`DeploymentsVariables`].
pub struct DeploymentsVariablesView {
    pub input: DeploymentListInputView,
    pub first: Option<i64>,
}

impl DeepView for ProjectVariables {
    type V = ProjectVariablesView;

    open spec fn deep_view(&self) -> ProjectVariablesView {
        ProjectVariablesView { id: self.id@ }
    }
}

impl DeepView for DeploymentListInput {
    type V = DeploymentListInputView;

    open spec fn deep_view(&self) -> DeploymentListInputView {
        DeploymentListInputView {
            project_id: self.project_id.deep_view(),
            environment_id: self.environment_id.deep_view(),
            service_id: self.service_id.deep_view(),
            include_deleted: self.include_deleted,
            status: self.status.deep_view(),
        }
    }
}

impl DeepView for DeploymentsVariables {
    type V = DeploymentsVariablesView;

    open spec fn deep_view(&self) -> DeploymentsVariablesView {
        DeploymentsVariablesView { input: self.input.deep_view(), first: self.first }
    }
}

/// The query for the details of one project.
pub open spec fn project_query(project_id: Seq<char>) -> ProjectVariablesView {
    ProjectVariablesView { id: project_id }
}

/// The query for the first deployments of one environment of one project,
/// whatever their service and status.
pub open spec fn deployments_query(
    project_id: Seq<char>,
    environment_id: Seq<char>,
    first: i64,
) -> DeploymentsVariablesView {
    DeploymentsVariablesView {
        input: DeploymentListInputView {
            project_id: Some(project_id),
            environment_id: Some(environment_id),
            service_id: None,
            include_deleted: None,
            status: None,
        },
        first: Some(first),
    }
}

/// The variables that fetch the details of one project.
pub fn project_variables(project_id: &str) -> (r: ProjectVariables)
    ensures
        r.deep_view() == project_query(project_id@),
{
    ProjectVariables { id: project_id.to_string() }
}

/// The variables that fetch the first deployments of one environment.
pub fn deployments_variables(project_id: &str, environment_id: &str, first: i64) -> (r:
    DeploymentsVariables)
    ensures
        r.deep_view() == deployments_query(project_id@, environment_id@, first),
{
    DeploymentsVariables {
        input: DeploymentListInput {
            project_id: Some(project_id.to_string()),
            environment_id: Some(environment_id.to_string()),
            service_id: None,
            include_deleted: None,
            status: None,
        },
        first: Some(first),
    }
}

} // verus!
