//! The details of one project that an export reads: what runs in each
//! environment, and the deployments.
use crate::json::{json_of, Json};
use vstd::prelude::*;

verus! {

/// Where a service instance comes from.
pub struct ServiceSource {
    pub image: Option<String>,
    pub repo: Option<String>,
}

/// The contents of a [`ServiceSource`].
pub struct ServiceSourceView {
    pub image: Option<Seq<char>>,
    pub repo: Option<Seq<char>>,
}

/// A service as it runs in one environment.
pub struct ServiceInstance {
    pub service_id: String,
    pub source: Option<ServiceSource>,
    pub start_command: Option<String>,
    pub cron_schedule: Option<String>,
}

/// The contents of a [`ServiceInstance`].
pub struct ServiceInstanceView {
    pub service_id: Seq<char>,
    pub source: Option<ServiceSourceView>,
    pub start_command: Option<Seq<char>>,
    pub cron_schedule: Option<Seq<char>>,
}

/// A volume as it is attached in one environment.
pub struct VolumeInstance {
    /// The service that the volume is attached to, if it is to one.
    pub service_id: Option<String>,
    pub volume_name: String,
    pub size_mb: i64,
    pub mount_path: String,
}

/// The contents of a [`VolumeInstance`].
pub struct VolumeInstanceView {
    pub service_id: Option<Seq<char>>,
    pub volume_name: Seq<char>,
    pub size_mb: i64,
    pub mount_path: Seq<char>,
}

/// What runs in an environment.
pub struct EnvironmentDetails {
    pub id: String,
    pub service_instances: Vec<ServiceInstance>,
    pub volume_instances: Vec<VolumeInstance>,
}

/// The contents of an [`EnvironmentDetails`].
pub struct EnvironmentDetailsView {
    pub id: Seq<char>,
    pub service_instances: Seq<ServiceInstanceView>,
    pub volume_instances: Seq<VolumeInstanceView>,
}

/// What runs in a project.
pub struct ProjectDetails {
    pub environments: Vec<EnvironmentDetails>,
}

/// The contents of a [`ProjectDetails`].
pub struct ProjectDetailsView {
    pub environments: Seq<EnvironmentDetailsView>,
}

/// A deployment, with what the backend noted about it.
pub struct Deployment {
    pub meta: Option<serde_json::Value>,
}

/// The contents of a [`Deployment`].
pub struct DeploymentView {
    pub meta: Option<Json>,
}

/// An edge of the backend's list of deployments.
pub struct DeploymentEdge {
    pub node: Deployment,
}

impl DeepView for ServiceSource {
    type V = ServiceSourceView;

    open spec fn deep_view(&self) -> ServiceSourceView {
        ServiceSourceView { image: self.image.deep_view(), repo: self.repo.deep_view() }
    }
}

impl DeepView for ServiceInstance {
    type V = ServiceInstanceView;

    open spec fn deep_view(&self) -> ServiceInstanceView {
        ServiceInstanceView {
            service_id: self.service_id@,
            source: self.source.deep_view(),
            start_command: self.start_command.deep_view(),
            cron_schedule: self.cron_schedule.deep_view(),
        }
    }
}

impl DeepView for VolumeInstance {
    type V = VolumeInstanceView;

    open spec fn deep_view(&self) -> VolumeInstanceView {
        VolumeInstanceView {
            service_id: self.service_id.deep_view(),
            volume_name: self.volume_name@,
            size_mb: self.size_mb,
            mount_path: self.mount_path@,
        }
    }
}

impl DeepView for EnvironmentDetails {
    type V = EnvironmentDetailsView;

    open spec fn deep_view(&self) -> EnvironmentDetailsView {
        EnvironmentDetailsView {
            id: self.id@,
            service_instances: self.service_instances.deep_view(),
            volume_instances: self.volume_instances.deep_view(),
        }
    }
}

impl DeepView for ProjectDetails {
    type V = ProjectDetailsView;

    open spec fn deep_view(&self) -> ProjectDetailsView {
        ProjectDetailsView { environments: self.environments.deep_view() }
    }
}

impl DeepView for Deployment {
    type V = DeploymentView;

    open spec fn deep_view(&self) -> DeploymentView {
        DeploymentView {
            meta: match self.meta {
                Some(value) => Some(json_of(value)),
                None => None,
            },
        }
    }
}

impl DeepView for DeploymentEdge {
    type V = DeploymentView;

    open spec fn deep_view(&self) -> DeploymentView {
        self.node.deep_view()
    }
}

/// The deployments that a list's edges lead to, in their order.
pub fn deployment_nodes(edges: Vec<DeploymentEdge>) -> (r: Vec<Deployment>)
    ensures
        r@.len() == edges@.len(),
        forall|i: int| 0 <= i < edges@.len() ==> #[trigger] r@[i] == edges@[i].node,
        r.deep_view() == edges.deep_view(),
{
    let mut nodes: Vec<Deployment> = Vec::new();
    for edge in it: edges
        invariant
            nodes@.len() == it.index(),
            it.seq() == edges@,
            forall|i: int| 0 <= i < nodes@.len() ==> #[trigger] nodes@[i] == edges@[i].node,
    {
        nodes.push(edge.node);
    }
    assert(nodes.deep_view() =~= edges.deep_view());
    nodes
}

} // verus!
