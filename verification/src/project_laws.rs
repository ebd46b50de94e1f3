//! What normalising keeps of a project, told from the project's record.
use crate::model::{EnvironmentRecordView, ProjectRecordView, ProjectView};
use crate::normalised::{
    accessible, environments_of, equal_to, normalised, normalised_service, occurrences,
    repeats_earlier, restricted,
};
use crate::search::{in_order, lemma_filter_in_order};
use vstd::prelude::*;

verus! {

/// A project is the same whichever way the user has got at it.
pub proof fn both_kinds_of_project_are_read(record: ProjectRecordView)
    ensures
        ProjectView::External(record).record() == record,
        ProjectView::Workspace(record).record() == record,
{
}

/// A normalised project keeps its id and its name, and has restricted
/// environments just when there is one that the user may not see into.
pub proof fn projects_keep_their_identity(project: ProjectRecordView)
    ensures
        normalised(project).id == project.id,
        normalised(project).name == project.name,
        normalised(project).has_restricted_environments <==> exists|i: int|
            0 <= i < project.environments.len() && !(#[trigger] project.environments[i]).can_access,
{
    if exists|i: int|
        0 <= i < project.environments.len() && !(#[trigger] project.environments[i]).can_access {
        let i = choose|i: int|
            0 <= i < project.environments.len() && !(
            #[trigger] project.environments[i]).can_access;
        assert(restricted()(project.environments[i]));
    }
    if normalised(project).has_restricted_environments {
        let i = choose|i: int|
            0 <= i < project.environments.len() && restricted()(#[trigger] project.environments[i]);
        assert(!project.environments[i].can_access);
    }
}

/// The environments that the user may see into are kept, in their order, with
/// their ids and names. The result lists where they stand in the record.
pub proof fn visible_environments_are_kept_in_order(project: ProjectRecordView) -> (at: Seq<int>)
    ensures
        in_order(at, project.environments.len(), |k: int| project.environments[k].can_access),
        normalised(project).environments.len() == at.len(),
        forall|i: int|
            0 <= i < at.len() ==> {
                &&& (#[trigger] normalised(project).environments[i]).id
                    == project.environments[at[i]].id
                &&& normalised(project).environments[i].name == project.environments[at[i]].name
            },
{
    lemma_filter_in_order(
        project.environments,
        accessible(),
        |k: int| project.environments[k].can_access,
    )
}

/// The services are kept, all of them and in their order, with their ids and
/// names.
pub proof fn services_are_kept_in_order(project: ProjectRecordView)
    ensures
        normalised(project).services.len() == project.services.len(),
        forall|k: int|
            0 <= k < project.services.len() ==> {
                &&& (#[trigger] normalised(project).services[k]).id == project.services[k].id
                &&& normalised(project).services[k].name == project.services[k].name
            },
{
}

/// Whether an instance of the service stands at this place: the position of the
/// environment, and the position in it.
pub open spec fn instance_at(
    environments: Seq<EnvironmentRecordView>,
    service_id: Seq<char>,
    place: (int, int),
) -> bool {
    &&& 0 <= place.0 < environments.len()
    &&& 0 <= place.1 < environments[place.0].service_instances.len()
    &&& environments[place.0].service_instances[place.1] == service_id
}

/// Whether one place comes before another: in an earlier environment, or earlier
/// in the same one.
pub open spec fn comes_before(a: (int, int), b: (int, int)) -> bool {
    a.0 < b.0 || (a.0 == b.0 && a.1 < b.1)
}

/// Whether `at` lists, in their order, just the places where the service has an
/// instance.
pub open spec fn places_in_order(
    at: Seq<(int, int)>,
    environments: Seq<EnvironmentRecordView>,
    service_id: Seq<char>,
) -> bool {
    &&& forall|i: int, j: int|
        0 <= i < j < at.len() ==> #[trigger] comes_before(at[i], at[j])
    &&& forall|p: (int, int)| #[trigger]
        at.contains(p) <==> instance_at(environments, service_id, p)
}

proof fn lemma_places(environments: Seq<EnvironmentRecordView>, service_id: Seq<char>) -> (at: Seq<
    (int, int),
>)
    ensures
        places_in_order(at, environments, service_id),
        environments_of(environments, service_id).len() == at.len(),
        forall|i: int|
            0 <= i < at.len() ==> #[trigger] environments_of(environments, service_id)[i]
                == environments[at[i].0].id,
        forall|i: int| 0 <= i < at.len() ==> 0 <= (#[trigger] at[i]).0 < environments.len(),
    decreases environments.len(),
{
    if environments.len() == 0 {
        Seq::empty()
    } else {
        let rest = environments.drop_last();
        let last = environments.len() - 1;
        let before = lemma_places(rest, service_id);
        let items = environments.last().service_instances;
        let here = lemma_filter_in_order(
            items,
            equal_to(service_id),
            |k: int| items[k] == service_id,
        );
        assert(occurrences(items, service_id) == here.len());
        let added = Seq::new(here.len(), |i: int| (last, here[i]));
        let at = before + added;
        let found = environments_of(environments, service_id);
        assert(found.len() == at.len());
        assert forall|i: int| 0 <= i < at.len() implies #[trigger] found[i]
            == environments[at[i].0].id by {
            if i < before.len() {
                assert(environments_of(rest, service_id)[i] == rest[before[i].0].id);
                assert(at[i] == before[i]);
            } else {
                assert(at[i] == added[i - before.len()]);
            }
        }
        assert forall|i: int, j: int| 0 <= i < j < at.len() implies #[trigger] comes_before(
            at[i],
            at[j],
        ) by {
            if j < before.len() {
                assert(comes_before(before[i], before[j]));
            } else if i < before.len() {
                assert(before[i].0 < rest.len());
            } else {
                assert(here[i - before.len()] < here[j - before.len()]);
            }
        }
        assert forall|p: (int, int)| #[trigger]
            at.contains(p) <==> instance_at(environments, service_id, p) by {
            if at.contains(p) {
                let i = choose|i: int| 0 <= i < at.len() && at[i] == p;
                if i < before.len() {
                    assert(before[i] == p);
                    assert(before.contains(p));
                    assert(instance_at(rest, service_id, p));
                    assert(rest[p.0] == environments[p.0]);
                } else {
                    let k = i - before.len();
                    assert(added[k] == p);
                    assert(here.contains(here[k]));
                }
            }
            if instance_at(environments, service_id, p) {
                if p.0 < last {
                    assert(rest[p.0] == environments[p.0]);
                    assert(instance_at(rest, service_id, p));
                    assert(before.contains(p));
                    let i = choose|i: int| 0 <= i < before.len() && before[i] == p;
                    assert(at[i] == p);
                } else {
                    assert(here.contains(p.1));
                    let k = choose|k: int| 0 <= k < here.len() && here[k] == p.1;
                    assert(added[k] == p);
                    assert(at[before.len() + k] == p);
                }
            }
        }
        at
    }
}

/// A service is listed with the environment of each of its instances, seen or
/// not, in the order in which they stand; where several services share an id,
/// the first has them. The result lists where the instances stand.
pub proof fn instances_are_listed_in_order(project: ProjectRecordView, k: int) -> (at: Seq<
    (int, int),
>)
    requires
        0 <= k < project.services.len(),
        forall|j: int| 0 <= j < k ==> (#[trigger] project.services[j]).id != project.services[k].id,
    ensures
        places_in_order(at, project.environments, project.services[k].id),
        normalised(project).services[k].service_instances.len() == at.len(),
        forall|i: int|
            0 <= i < at.len() ==> #[trigger] normalised(project).services[k].service_instances[i]
                == project.environments[at[i].0].id,
{
    assert(!repeats_earlier(project.services, k));
    assert(normalised(project).services[k] == normalised_service(project, k));
    lemma_places(project.environments, project.services[k].id)
}

/// A service whose id an earlier one has is listed without instances.
pub proof fn later_services_of_an_id_have_no_instances(project: ProjectRecordView, j: int, k: int)
    requires
        0 <= j < k < project.services.len(),
        project.services[j].id == project.services[k].id,
    ensures
        normalised(project).services[k].service_instances.len() == 0,
{
    assert(repeats_earlier(project.services, k));
    assert(normalised(project).services[k] == normalised_service(project, k));
}

} // verus!
