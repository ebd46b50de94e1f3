//! Why an export cannot go on.
use vstd::prelude::*;

verus! {

/// Why an export cannot go on.
#[derive(Debug, PartialEq, Eq)]
pub enum ExportError {
    /// No environment goes by this id or name.
    EnvironmentNotFound(String),
    /// No service goes by this id or name.
    ServiceNotFound(String),
    /// No project goes by the first id or name in the workspace with the
    /// second name.
    ProjectNotFoundInWorkspace(String, String),
    /// The personal workspace was asked for and there is none.
    NoPersonalWorkspace,
    /// No workspace goes by this id, team id or name.
    WorkspaceNotFound(String),
    /// There is no workspace to take a project from.
    NoProjects,
    /// Anything else, in words.
    Message(String),
}

/// The contents of an [`ExportError`].
pub enum ExportErrorView {
    EnvironmentNotFound(Seq<char>),
    ServiceNotFound(Seq<char>),
    ProjectNotFoundInWorkspace(Seq<char>, Seq<char>),
    NoPersonalWorkspace,
    WorkspaceNotFound(Seq<char>),
    NoProjects,
    Message(Seq<char>),
}

impl DeepView for ExportError {
    type V = ExportErrorView;

    open spec fn deep_view(&self) -> ExportErrorView {
        match self {
            ExportError::EnvironmentNotFound(e) => ExportErrorView::EnvironmentNotFound(e@),
            ExportError::ServiceNotFound(s) => ExportErrorView::ServiceNotFound(s@),
            ExportError::ProjectNotFoundInWorkspace(
                p,
                w,
            ) => ExportErrorView::ProjectNotFoundInWorkspace(p@, w@),
            ExportError::NoPersonalWorkspace => ExportErrorView::NoPersonalWorkspace,
            ExportError::WorkspaceNotFound(w) => ExportErrorView::WorkspaceNotFound(w@),
            ExportError::NoProjects => ExportErrorView::NoProjects,
            ExportError::Message(text) => ExportErrorView::Message(text@),
        }
    }
}

/// What came of a step: the contents of its result or of its error.
pub open spec fn outcome<T: DeepView>(r: Result<T, ExportError>) -> Result<T::V, ExportErrorView> {
    match r {
        Ok(value) => Ok(value.deep_view()),
        Err(error) => Err(error.deep_view()),
    }
}

} // verus!
