//! Projects in the sled store: new projects and the projects of a user.
use vstd::prelude::*;
use crate::bolt::sequence::{sequence_failed, took_sequence};
use crate::bolt::store::BoltStore;
use crate::error::DbError;
use crate::model::Project;
use crate::page::{Selector, keep_fn, take_page};
use crate::time::now;

verus! {

/// The bucket of the projects.
pub open spec fn projects_bucket() -> Seq<char> {
    "projects"@
}

impl BoltStore {
    /// A new project as it is stored: created now, under the next number of
    /// the sequence of `projects`.
    pub fn new_project(&mut self, project: Project) -> (r: Result<Project, DbError>)
        ensures
            final(self).counters() == old(self).counters(),
            final(self).path() == old(self).path(),
            match r {
                Ok(x) => took_sequence(old(self).buckets(), final(self).buckets(), projects_bucket(), x.id)
                    && x == (Project { id: x.id, created: x.created, ..project }),
                Err(e) => sequence_failed(old(self).buckets(), final(self).buckets(), projects_bucket(), e),
            },
    {
        let id = match self.next_sequence("projects") {
            Ok(id) => id,
            Err(e) => { return Err(e); },
        };
        Ok(Project { id, created: now(), ..project })
    }
}

/// Keeps the projects whose id is listed.
pub struct MemberOf {
    pub projects: Vec<i32>,
}

impl Selector<Project> for MemberOf {
    open spec fn accepts(&self, p: Project) -> bool {
        self.projects@.contains(p.id)
    }

    fn test(&self, p: &Project) -> (b: bool) {
        let mut i: usize = 0;
        while i < self.projects.len()
            invariant
                i <= self.projects@.len(),
                forall|j: int| 0 <= j < i ==> self.projects@[j] != p.id,
            decreases self.projects.len() - i,
        {
            if self.projects[i] == p.id {
                assert(self.projects@[i as int] == p.id);
                return true;
            }
            i = i + 1;
        }
        false
    }
}

/// The projects a user belongs to, given the ids of those projects, in
/// stored order.
pub fn member_projects(projects: &Vec<Project>, member_of: Vec<i32>) -> (r: Vec<Project>)
    ensures
        r@ == projects@.filter(keep_fn(MemberOf { projects: member_of })),
{
    let sel = MemberOf { projects: member_of };
    let r = take_page(projects, &sel, 0, None);
    assert(projects@.subrange(0, projects@.len() as int) =~= projects@);
    r
}

} // verus!
