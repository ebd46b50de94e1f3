//! A project reduced to what the export needs.
use crate::model::{
    EnvironmentRecord, EnvironmentRecordView, Project, ProjectRecordView, ServiceRecordView,
};
use crate::search::any_where;
use vstd::prelude::*;

verus! {

/// A project with the environments that the user may see into.
#[derive(Debug)]
pub struct NormalisedProject {
    pub id: String,
    pub name: String,
    pub environments: Vec<NormalisedEnvironment>,
    pub services: Vec<NormalisedService>,
    /// Whether an environment was left out because the user may not see into
    /// it.
    pub has_restricted_environments: bool,
}

/// The contents of a [`NormalisedProject`].
pub struct NormalisedProjectView {
    pub id: Seq<char>,
    pub name: Seq<char>,
    pub environments: Seq<NormalisedEnvironmentView>,
    pub services: Seq<NormalisedServiceView>,
    pub has_restricted_environments: bool,
}

/// An environment that the user may see into.
#[derive(Debug)]
pub struct NormalisedEnvironment {
    pub id: String,
    pub name: String,
}

/// The contents of a [`NormalisedEnvironment`].
pub struct NormalisedEnvironmentView {
    pub id: Seq<char>,
    pub name: Seq<char>,
}

/// A service, with the environments that it has instances in.
#[derive(Debug)]
pub struct NormalisedService {
    pub id: String,
    pub name: String,
    /// For each instance of the service, the id of its environment.
    pub service_instances: Vec<String>,
}

/// The contents of a [`NormalisedService`].
pub struct NormalisedServiceView {
    pub id: Seq<char>,
    pub name: Seq<char>,
    pub service_instances: Seq<Seq<char>>,
}

impl DeepView for NormalisedEnvironment {
    type V = NormalisedEnvironmentView;

    open spec fn deep_view(&self) -> NormalisedEnvironmentView {
        NormalisedEnvironmentView { id: self.id@, name: self.name@ }
    }
}

impl DeepView for NormalisedService {
    type V = NormalisedServiceView;

    open spec fn deep_view(&self) -> NormalisedServiceView {
        NormalisedServiceView {
            id: self.id@,
            name: self.name@,
            service_instances: self.service_instances.deep_view(),
        }
    }
}

impl DeepView for NormalisedProject {
    type V = NormalisedProjectView;

    open spec fn deep_view(&self) -> NormalisedProjectView {
        NormalisedProjectView {
            id: self.id@,
            name: self.name@,
            environments: self.environments.deep_view(),
            services: self.services.deep_view(),
            has_restricted_environments: self.has_restricted_environments,
        }
    }
}

impl Clone for NormalisedEnvironment {
    fn clone(&self) -> (r: Self)
        ensures
            r.deep_view() == self.deep_view(),
    {
        NormalisedEnvironment { id: self.id.clone(), name: self.name.clone() }
    }
}

impl Clone for NormalisedService {
    fn clone(&self) -> (r: Self)
        ensures
            r.deep_view() == self.deep_view(),
    {
        let service_instances = self.service_instances.clone();
        assert(service_instances.deep_view() =~= self.service_instances.deep_view());
        NormalisedService { id: self.id.clone(), name: self.name.clone(), service_instances }
    }
}

impl Clone for NormalisedProject {
    fn clone(&self) -> (r: Self)
        ensures
            r.deep_view() == self.deep_view(),
    {
        let environments = self.environments.clone();
        assert(environments.deep_view() =~= self.environments.deep_view());
        let services = self.services.clone();
        assert(services.deep_view() =~= self.services.deep_view());
        NormalisedProject {
            id: self.id.clone(),
            name: self.name.clone(),
            environments,
            services,
            has_restricted_environments: self.has_restricted_environments,
        }
    }
}

impl NormalisedProject {
    /// A project of these parts.
    pub fn new(
        id: String,
        name: String,
        environments: Vec<NormalisedEnvironment>,
        services: Vec<NormalisedService>,
        has_restricted_environments: bool,
    ) -> (r: Self)
        ensures
            r == (NormalisedProject {
                id,
                name,
                environments,
                services,
                has_restricted_environments,
            }),
    {
        NormalisedProject { id, name, environments, services, has_restricted_environments }
    }

    /// The project's id.
    pub fn id(&self) -> (r: &str)
        ensures
            r@ == self.deep_view().id,
    {
        self.id.as_str()
    }
}

impl NormalisedEnvironment {
    /// An environment of these parts.
    pub fn new(id: String, name: String) -> (r: Self)
        ensures
            r == (NormalisedEnvironment { id, name }),
    {
        NormalisedEnvironment { id, name }
    }

    /// The environment as it is shown: its name.
    pub fn to_string(&self) -> (r: String)
        ensures
            r@ == self.deep_view().name,
    {
        self.name.clone()
    }
}

impl NormalisedService {
    /// A service of these parts.
    pub fn new(id: String, name: String, service_instances: Vec<String>) -> (r: Self)
        ensures
            r == (NormalisedService { id, name, service_instances }),
    {
        NormalisedService { id, name, service_instances }
    }

    /// The service's id.
    pub fn id(&self) -> (r: &str)
        ensures
            r@ == self.deep_view().id,
    {
        self.id.as_str()
    }

    /// The service as it is shown: its name.
    pub fn to_string(&self) -> (r: String)
        ensures
            r@ == self.deep_view().name,
    {
        self.name.clone()
    }
}

/// The test for texts that are `x`.
pub open spec fn equal_to(x: Seq<char>) -> spec_fn(Seq<char>) -> bool {
    |item: Seq<char>| item == x
}

/// How often `x` stands in `items`.
pub open spec fn occurrences(items: Seq<Seq<char>>, x: Seq<char>) -> nat {
    items.filter(equal_to(x)).len()
}

/// `x`, `n` times over.
pub open spec fn repeated(x: Seq<char>, n: nat) -> Seq<Seq<char>> {
    Seq::new(n, |i: int| x)
}

/// The environments that a service has instances in, in the project's order:
/// each is named once per instance, whether or not the user may see into it.
pub open spec fn environments_of(
    environments: Seq<EnvironmentRecordView>,
    service_id: Seq<char>,
) -> Seq<Seq<char>>
    decreases environments.len(),
{
    if environments.len() == 0 {
        Seq::empty()
    } else {
        environments_of(environments.drop_last(), service_id) + repeated(
            environments.last().id,
            occurrences(environments.last().service_instances, service_id),
        )
    }
}

/// Whether a service before position `at` has the same id as the one there.
pub open spec fn repeats_earlier(services: Seq<ServiceRecordView>, at: int) -> bool {
    exists|j: int| 0 <= j < at && (#[trigger] services[j]).id == services[at].id
}

/// The service at position `at` with the environments of its instances. Where
/// services share an id, the first has the instances and the others have none.
pub open spec fn normalised_service(project: ProjectRecordView, at: int) -> NormalisedServiceView {
    NormalisedServiceView {
        id: project.services[at].id,
        name: project.services[at].name,
        service_instances: if repeats_earlier(project.services, at) {
            Seq::empty()
        } else {
            environments_of(project.environments, project.services[at].id)
        },
    }
}

/// The test for the environments that the user may see into.
pub open spec fn accessible() -> spec_fn(EnvironmentRecordView) -> bool {
    |e: EnvironmentRecordView| e.can_access
}

/// The test for the environments that the user may not see into.
pub open spec fn restricted() -> spec_fn(EnvironmentRecordView) -> bool {
    |e: EnvironmentRecordView| !e.can_access
}

/// An environment reduced to its id and name.
pub open spec fn normalised_environment(e: EnvironmentRecordView) -> NormalisedEnvironmentView {
    NormalisedEnvironmentView { id: e.id, name: e.name }
}

/// The project reduced to what the export needs.
pub open spec fn normalised(project: ProjectRecordView) -> NormalisedProjectView {
    NormalisedProjectView {
        id: project.id,
        name: project.name,
        environments: project.environments.filter(accessible()).map_values(
            |e: EnvironmentRecordView| normalised_environment(e),
        ),
        services: Seq::new(project.services.len(), |i: int| normalised_service(project, i)),
        has_restricted_environments: any_where(project.environments, restricted()),
    }
}

/// The environments of each service's instances, by service id.
///
/// No service id stands in two entries.
struct ServiceEnvironments {
    entries: Vec<(String, Vec<String>)>,
}

/// What the entry for `service_id` holds; nothing if there is none.
spec fn held(entries: Seq<(String, Vec<String>)>, service_id: Seq<char>) -> Seq<Seq<char>> {
    if exists|i: int| 0 <= i < entries.len() && (#[trigger] entries[i]).0@ == service_id {
        let i = choose|i: int| 0 <= i < entries.len() && (#[trigger] entries[i]).0@ == service_id;
        entries[i].1.deep_view()
    } else {
        Seq::empty()
    }
}

/// No service id stands in two entries.
spec fn distinct(entries: Seq<(String, Vec<String>)>) -> bool {
    forall|i: int, j: int|
        0 <= i < j < entries.len() ==> (#[trigger] entries[i]).0@ != (#[trigger] entries[j]).0@
}

proof fn lemma_held_at(entries: Seq<(String, Vec<String>)>, at: int)
    requires
        distinct(entries),
        0 <= at < entries.len(),
    ensures
        held(entries, entries[at].0@) == entries[at].1.deep_view(),
{
    let s = entries[at].0@;
    let i = choose|i: int| 0 <= i < entries.len() && (#[trigger] entries[i]).0@ == s;
    assert(0 <= i < entries.len() && entries[i].0@ == s);
    assert(i == at);
}

/// Entries that agree on `s` hold the same for it.
proof fn lemma_held_same(
    a: Seq<(String, Vec<String>)>,
    b: Seq<(String, Vec<String>)>,
    s: Seq<char>,
)
    requires
        distinct(a),
        distinct(b),
        forall|i: int|
            0 <= i < a.len() && (#[trigger] a[i]).0@ == s ==> exists|j: int|
                0 <= j < b.len() && #[trigger] b[j] == a[i],
        forall|j: int|
            0 <= j < b.len() && (#[trigger] b[j]).0@ == s ==> exists|i: int|
                0 <= i < a.len() && #[trigger] a[i] == b[j],
    ensures
        held(a, s) == held(b, s),
{
    if exists|i: int| 0 <= i < a.len() && (#[trigger] a[i]).0@ == s {
        let i = choose|i: int| 0 <= i < a.len() && (#[trigger] a[i]).0@ == s;
        let j = choose|j: int| 0 <= j < b.len() && #[trigger] b[j] == a[i];
        lemma_held_at(a, i);
        lemma_held_at(b, j);
    }
}

impl ServiceEnvironments {
    spec fn wf(self) -> bool {
        distinct(self.entries@)
    }

    spec fn of(self, service_id: Seq<char>) -> Seq<Seq<char>> {
        held(self.entries@, service_id)
    }

    fn new() -> (r: Self)
        ensures
            r.wf(),
            forall|s: Seq<char>| #[trigger] r.of(s) == Seq::<Seq<char>>::empty(),
    {
        ServiceEnvironments { entries: Vec::new() }
    }

    fn position(&self, service_id: &String) -> (r: Option<usize>)
        ensures
            r matches Some(at) ==> at < self.entries@.len() && self.entries@[at as int].0@
                == service_id@,
            r is None ==> forall|i: int|
                0 <= i < self.entries@.len() ==> (#[trigger] self.entries@[i]).0@ != service_id@,
    {
        let mut i: usize = 0;
        while i < self.entries.len()
            invariant
                0 <= i <= self.entries@.len(),
                forall|j: int| 0 <= j < i ==> (#[trigger] self.entries@[j]).0@ != service_id@,
            decreases self.entries@.len() - i,
        {
            if self.entries[i].0 == *service_id {
                return Some(i);
            }
            i += 1;
        }
        None
    }

    /// Adds an environment to those of a service.
    fn add_environment(&mut self, service_id: &String, environment_id: &String)
        requires
            old(self).wf(),
        ensures
            final(self).wf(),
            final(self).of(service_id@) == old(self).of(service_id@).push(environment_id@),
            forall|s: Seq<char>| s != service_id@ ==> #[trigger] final(self).of(s) == old(self).of(s),
    {
        let ghost before = self.entries@;
        let ghost mut spot: int = before.len() as int;
        match self.position(service_id) {
            Some(at) => {
                proof {
                    lemma_held_at(before, at as int);
                    spot = at as int;
                }
                self.entries[at].1.push(environment_id.clone());
                assert(self.entries@ =~= before.update(at as int, self.entries@[at as int]));
            },
            None => {
                let mut environments: Vec<String> = Vec::new();
                environments.push(environment_id.clone());
                self.entries.push((service_id.clone(), environments));
            },
        }
        proof {
            let after = self.entries@;
            lemma_held_at(after, spot);
            assert(after[spot].1.deep_view() =~= held(before, service_id@).push(environment_id@));
            assert forall|s: Seq<char>| s != service_id@ implies #[trigger] self.of(s) == held(
                before,
                s,
            ) by {
                assert forall|i: int| 0 <= i < before.len() && (#[trigger] before[i]).0@ == s implies (
                exists|j: int| 0 <= j < after.len() && #[trigger] after[j] == before[i]) by {
                    assert(after[i] == before[i]);
                }
                assert forall|j: int| 0 <= j < after.len() && (#[trigger] after[j]).0@ == s implies (
                exists|i: int| 0 <= i < before.len() && #[trigger] before[i] == after[j]) by {
                    assert(after[j] == before[j]);
                }
                lemma_held_same(before, after, s);
            }
        }
    }

    /// Takes the environments of a service out.
    fn take(&mut self, service_id: &String) -> (r: Vec<String>)
        requires
            old(self).wf(),
        ensures
            final(self).wf(),
            r.deep_view() == old(self).of(service_id@),
            final(self).of(service_id@) == Seq::<Seq<char>>::empty(),
            forall|s: Seq<char>| s != service_id@ ==> #[trigger] final(self).of(s) == old(self).of(s),
    {
        let ghost before = self.entries@;
        match self.position(service_id) {
            Some(at) => {
                let taken = self.entries.remove(at).1;
                proof {
                    lemma_held_at(before, at as int);
                    let after = self.entries@;
                    let gap = at as int;
                    assert forall|s: Seq<char>| s != service_id@ implies #[trigger] self.of(s)
                        == held(before, s) by {
                        assert forall|i: int|
                            0 <= i < before.len() && (#[trigger] before[i]).0@ == s implies (
                        exists|j: int| 0 <= j < after.len() && #[trigger] after[j] == before[i]) by {
                            assert(after[if i < gap { i } else { i - 1 }] == before[i]);
                        }
                        assert forall|j: int|
                            0 <= j < after.len() && (#[trigger] after[j]).0@ == s implies (
                        exists|i: int| 0 <= i < before.len() && #[trigger] before[i] == after[j]) by {
                            assert(before[if j < gap { j } else { j + 1 }] == after[j]);
                        }
                        lemma_held_same(before, after, s);
                    }
                }
                taken
            },
            None => Vec::new(),
        }
    }
}

proof fn lemma_occurrences_push(items: Seq<Seq<char>>, item: Seq<char>, x: Seq<char>)
    ensures
        occurrences(items.push(item), x) == occurrences(items, x) + if item == x {
            1nat
        } else {
            0nat
        },
{
    reveal(Seq::filter);
    assert(items.push(item).drop_last() =~= items);
}

/// Filtering by access drops an environment just when one is restricted.
proof fn lemma_restricted_are_dropped(environments: Seq<EnvironmentRecordView>)
    ensures
        environments.filter(accessible()).len() <= environments.len(),
        environments.filter(accessible()).len() < environments.len() <==> any_where(
            environments,
            restricted(),
        ),
    decreases environments.len(),
{
    reveal(Seq::filter);
    if environments.len() > 0 {
        let rest = environments.drop_last();
        lemma_restricted_are_dropped(rest);
        if any_where(rest, restricted()) {
            let i = choose|i: int| 0 <= i < rest.len() && restricted()(#[trigger] rest[i]);
            assert(environments[i] == rest[i]);
        }
        if any_where(environments, restricted()) {
            let i = choose|i: int|
                0 <= i < environments.len() && restricted()(#[trigger] environments[i]);
            if i < rest.len() {
                assert(rest[i] == environments[i]);
            }
        }
        assert(environments.last() == environments[environments.len() - 1]);
    }
}

/// The environments of each service's instances.
fn service_environments(environments: &Vec<EnvironmentRecord>) -> (r: ServiceEnvironments)
    ensures
        r.wf(),
        forall|s: Seq<char>| #[trigger] r.of(s) == environments_of(environments.deep_view(), s),
{
    let ghost all = environments.deep_view();
    let mut found = ServiceEnvironments::new();
    let mut i: usize = 0;
    assert(all.take(0) =~= Seq::empty());
    while i < environments.len()
        invariant
            all == environments.deep_view(),
            0 <= i <= environments@.len(),
            found.wf(),
            forall|s: Seq<char>| #[trigger] found.of(s) == environments_of(all.take(i as int), s),
        decreases environments@.len() - i,
    {
        let environment = &environments[i];
        let ghost instances = environment.service_instances.deep_view();
        let ghost done = all.take(i as int);
        let mut j: usize = 0;
        assert forall|s: Seq<char>| #[trigger]
            found.of(s) == environments_of(done, s) + repeated(
                environment.id@,
                occurrences(instances.take(0), s),
            ) by {
            reveal(Seq::filter);
            assert(environments_of(done, s) =~= environments_of(done, s) + repeated(
                environment.id@,
                0,
            ));
        }
        while j < environment.service_instances.len()
            invariant
                instances == environment.service_instances.deep_view(),
                0 <= j <= environment.service_instances@.len(),
                found.wf(),
                forall|s: Seq<char>| #[trigger]
                    found.of(s) == environments_of(done, s) + repeated(
                        environment.id@,
                        occurrences(instances.take(j as int), s),
                    ),
            decreases environment.service_instances@.len() - j,
        {
            let ghost before = found;
            found.add_environment(&environment.service_instances[j], &environment.id);
            proof {
                assert(instances.take(j + 1) =~= instances.take(j as int).push(instances[j as int]));
                assert forall|s: Seq<char>| #[trigger]
                    found.of(s) == environments_of(done, s) + repeated(
                        environment.id@,
                        occurrences(instances.take(j + 1), s),
                    ) by {
                    lemma_occurrences_push(instances.take(j as int), instances[j as int], s);
                    assert(before.of(s) == environments_of(done, s) + repeated(
                        environment.id@,
                        occurrences(instances.take(j as int), s),
                    ));
                    if s == instances[j as int] {
                        assert(before.of(s).push(environment.id@) =~= environments_of(done, s)
                            + repeated(environment.id@, occurrences(instances.take(j + 1), s)));
                    }
                }
            }
            j += 1;
        }
        proof {
            assert(instances.take(j as int) =~= instances);
            assert(all.take(i + 1).drop_last() =~= done);
            assert(all.take(i + 1).last() == environment.deep_view());
        }
        i += 1;
    }
    assert(all.take(i as int) =~= all);
    found
}

/// The environments that the user may see into.
fn accessible_environments(environments: &Vec<EnvironmentRecord>) -> (r: Vec<NormalisedEnvironment>)
    ensures
        r.deep_view() == environments.deep_view().filter(accessible()).map_values(
            |e: EnvironmentRecordView| normalised_environment(e),
        ),
{
    let ghost all = environments.deep_view();
    let ghost reduce = |e: EnvironmentRecordView| normalised_environment(e);
    let mut kept: Vec<NormalisedEnvironment> = Vec::new();
    let mut i: usize = 0;
    proof {
        reveal(Seq::filter);
        assert(kept.deep_view() =~= all.take(0).filter(accessible()).map_values(reduce));
    }
    while i < environments.len()
        invariant
            all == environments.deep_view(),
            0 <= i <= environments@.len(),
            kept.deep_view() == all.take(i as int).filter(accessible()).map_values(reduce),
            reduce == (|e: EnvironmentRecordView| normalised_environment(e)),
        decreases environments@.len() - i,
    {
        let ghost before = kept.deep_view();
        let environment = &environments[i];
        if environment.can_access {
            kept.push(
                NormalisedEnvironment::new(environment.id.clone(), environment.name.clone()),
            );
            assert(kept.deep_view() =~= before.push(reduce(all[i as int])));
        }
        proof {
            reveal(Seq::filter);
            let upto = all.take(i + 1);
            assert(upto.drop_last() =~= all.take(i as int));
            assert(upto.last() == all[i as int]);
            assert(kept.deep_view() =~= upto.filter(accessible()).map_values(reduce));
        }
        i += 1;
    }
    assert(all.take(i as int) =~= all);
    kept
}

impl From<Project> for NormalisedProject {
    fn from(value: Project) -> (r: Self)
        ensures
            r.deep_view() == normalised(value.deep_view().record()),
    {
        let ghost project = value.deep_view().record();
        let record = match value {
            Project::External(record) => record,
            Project::Workspace(record) => record,
        };
        let total = record.environments.len();
        let mut environments_by_service = service_environments(&record.environments);
        let environments = accessible_environments(&record.environments);
        proof {
            lemma_restricted_are_dropped(project.environments);
        }
        let has_restricted = total > environments.len();
        assert(total == project.environments.len());
        assert(environments.deep_view().len() == project.environments.filter(accessible()).len());
        let mut services: Vec<NormalisedService> = Vec::new();
        let mut i: usize = 0;
        while i < record.services.len()
            invariant
                project == record.deep_view(),
                0 <= i <= record.services@.len(),
                environments_by_service.wf(),
                services@.len() == i,
                forall|k: int|
                    0 <= k < i ==> (#[trigger] services@[k]).deep_view() == normalised_service(
                        project,
                        k,
                    ),
                forall|s: Seq<char>| #[trigger]
                    environments_by_service.of(s) == if exists|j: int|
                        0 <= j < i && (#[trigger] project.services[j]).id == s {
                        Seq::empty()
                    } else {
                        environments_of(project.environments, s)
                    },
            decreases record.services@.len() - i,
        {
            let service = &record.services[i];
            let ghost before = environments_by_service;
            let service_instances = environments_by_service.take(&service.id);
            services.push(
                NormalisedService::new(service.id.clone(), service.name.clone(), service_instances),
            );
            proof {
                assert(project.services[i as int] == service.deep_view());
                assert(service_instances.deep_view() == before.of(service.id@));
            }
            i += 1;
        }
        assert(services.deep_view() =~= normalised(project).services);
        NormalisedProject::new(record.id, record.name, environments, services, has_restricted)
    }
}

// Spec code cannot build a `Vec`, so what `from` returns is stated
// on `from` itself, by its contents.
impl vstd::std_specs::convert::FromSpecImpl<Project> for NormalisedProject {
    open spec fn obeys_from_spec() -> bool {
        false
    }

    open spec fn from_spec(v: Project) -> Self {
        arbitrary()
    }
}

} // verus!
