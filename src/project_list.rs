use vstd::prelude::*;
use crate::models::Project;

verus! {

/// Whether activating a project should also update the views above the
/// project list.
#[derive(Clone, Copy, Debug, PartialEq, Eq, Structural)]
pub enum UpdateParents {
    Yes,
    No,
}

/// Whether `k` is the first project with id `id`.
pub open spec fn first_with_id(projects: Seq<Project>, id: i32, k: int) -> bool {
    &&& 0 <= k < projects.len()
    &&& projects[k].id == id
    &&& forall|j: int| 0 <= j < k ==> (#[trigger] projects[j]).id != id
}

/// The first project with id `id`, if any.
pub fn find_project(projects: &Vec<Project>, id: i32) -> (r: Option<usize>)
    ensures
        r matches Some(k) ==> first_with_id(projects@, id, k as int),
        r is None ==> forall|j: int| 0 <= j < projects.len() ==> (#[trigger] projects@[j]).id != id,
{
    let mut i: usize = 0;
    while i < projects.len()
        invariant
            i <= projects.len(),
            forall|j: int| 0 <= j < i ==> (#[trigger] projects@[j]).id != id,
        decreases projects.len() - i,
    {
        if projects[i].id == id {
            return Some(i);
        }
        i = i + 1;
    }
    None
}

/// Which project to activate once the list of projects was loaded again: the
/// one that was active if it is still there, without updating the views
/// above; else the first one, updating them; else none.
pub fn project_to_activate(projects: &Vec<Project>, active_project_id: Option<i32>) -> (r: Option<
    (usize, UpdateParents),
>)
    ensures
        match r {
            Some((k, UpdateParents::No)) => active_project_id matches Some(id) && first_with_id(
                projects@,
                id,
                k as int,
            ),
            Some((k, UpdateParents::Yes)) => k == 0 && projects.len() > 0 && (
            active_project_id matches Some(id) ==> forall|j: int|
                0 <= j < projects.len() ==> (#[trigger] projects@[j]).id != id),
            None => projects.len() == 0,
        },
{
    if let Some(id) = active_project_id {
        if let Some(k) = find_project(projects, id) {
            return Some((k, UpdateParents::No));
        }
    }
    if projects.len() > 0 {
        Some((0, UpdateParents::Yes))
    } else {
        None
    }
}

} // verus!
