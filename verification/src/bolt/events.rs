//! Events in the sled store: new events and the listings of a project, of
//! the projects of a user, and of everything.
use vstd::prelude::*;
use crate::bolt::sequence::{sequence_failed, took_sequence};
use crate::bolt::store::BoltStore;
use crate::error::DbError;
use crate::model::{Event, RetrieveQueryParams};
use crate::page::{AcceptAll, Selector, paged, take_page};
use crate::time::now;

verus! {

/// The bucket of the events.
pub open spec fn events_bucket() -> Seq<char> {
    "events"@
}

impl BoltStore {
    /// A new event as it is stored, with the id it is stored under: created
    /// now, under the next number of the sequence of `events`; the event's
    /// own id field is kept.
    pub fn new_event(&mut self, event: Event) -> (r: Result<(i32, Event), DbError>)
        ensures
            final(self).counters() == old(self).counters(),
            final(self).path() == old(self).path(),
            match r {
                Ok((id, e)) => took_sequence(old(self).buckets(), final(self).buckets(), events_bucket(), id)
                    && e == (Event { created: e.created, ..event }),
                Err(e) => sequence_failed(old(self).buckets(), final(self).buckets(), events_bucket(), e),
            },
    {
        let id = match self.next_sequence("events") {
            Ok(id) => id,
            Err(e) => { return Err(e); },
        };
        Ok((id, Event { created: now(), ..event }))
    }
}

/// Keeps the events of one project.
pub struct ProjectEvents {
    pub project_id: i32,
}

impl Selector<Event> for ProjectEvents {
    open spec fn accepts(&self, e: Event) -> bool {
        e.project_id == Some(self.project_id)
    }

    fn test(&self, e: &Event) -> (b: bool) {
        match e.project_id {
            Some(p) => p == self.project_id,
            None => false,
        }
    }
}

/// Keeps the events of the projects a user belongs to.
pub struct MemberEvents {
    pub projects: Vec<i32>,
}

impl Selector<Event> for MemberEvents {
    open spec fn accepts(&self, e: Event) -> bool {
        e.project_id matches Some(p) && self.projects@.contains(p)
    }

    fn test(&self, e: &Event) -> (b: bool) {
        match e.project_id {
            Some(p) => {
                let mut i: usize = 0;
                while i < self.projects.len()
                    invariant
                        i <= self.projects@.len(),
                        e.project_id == Some(p),
                        forall|j: int| 0 <= j < i ==> self.projects@[j] != p,
                    decreases self.projects.len() - i,
                {
                    if self.projects[i] == p {
                        assert(self.projects@[i as int] == p);
                        return true;
                    }
                    i = i + 1;
                }
                false
            },
            None => false,
        }
    }
}

/// The page of a project's events: the stored events (newest first) after
/// the first `params.offset`, those of the project, up to the one that makes
/// their number exceed `params.count`.
pub fn select_project_events(events: &Vec<Event>, project_id: i32, params: &RetrieveQueryParams) -> (r: Vec<Event>)
    ensures
        r@ == paged(events@, params.offset as int, ProjectEvents { project_id }, params.count),
{
    take_page(events, &ProjectEvents { project_id }, params.offset, params.count)
}

/// The page of a user's events: as for a project, keeping the events of the
/// projects listed in `member_of`, those the user belongs to.
pub fn select_user_events(events: &Vec<Event>, member_of: Vec<i32>, params: &RetrieveQueryParams) -> (r: Vec<Event>)
    ensures
        r@ == paged(events@, params.offset as int, MemberEvents { projects: member_of }, params.count),
{
    let sel = MemberEvents { projects: member_of };
    take_page(events, &sel, params.offset, params.count)
}

/// The page of all events.
pub fn select_all_events(events: &Vec<Event>, params: &RetrieveQueryParams) -> (r: Vec<Event>)
    ensures
        r@ == paged(events@, params.offset as int, AcceptAll, params.count),
{
    take_page(events, &AcceptAll, params.offset, params.count)
}

} // verus!
