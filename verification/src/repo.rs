//! The persistence port: the repository contract consumed by the core, the
//! storage-row mapping, and a pure in-memory repository that implements the
//! contract and is verified against it.

use std::collections::HashMap;
use vstd::prelude::*;

use crate::domain::{
    ActiveTask, CompletedTask, NewTask, TaskContent, TaskDescription, TaskId, TaskView, Timestamp,
};

verus! {

broadcast use vstd::std_specs::hash::group_hash_axioms;

/// An underlying storage failure, opaque beyond its message.
#[derive(Debug)]
pub enum RepoError {
    DatabaseError(String),
}

/// A lookup outcome that distinguishes "legitimately absent" from
/// "storage broke".
#[derive(Debug)]
pub enum RepoFindError {
    NotFound,
    RepoError(RepoError),
}

/// What storage remembers of one task: the stored row, as a mathematical
/// value. The completion flag lives here, at the storage boundary; the
/// domain model encodes it as two distinct entity types instead.
pub ghost struct TaskData {
    pub content: Seq<char>,
    pub description: Seq<char>,
    pub completed: bool,
    pub created_at: int,
}

/// The task entity that a stored row of identifier `id` maps to.
pub open spec fn task_view(id: u64, d: TaskData) -> TaskView {
    TaskView { id, content: d.content, description: d.description, created_at: d.created_at }
}

/// Whether `v` lists every open task of `store` exactly once, each entry
/// agreeing with its stored row.
pub open spec fn lists_active_tasks(store: Map<u64, TaskData>, v: Seq<ActiveTask>) -> bool {
    &&& (forall|i: int|
        0 <= i < v.len() ==> {
            &&& store.contains_key((#[trigger] v[i])@.id)
            &&& !store[v[i]@.id].completed
            &&& v[i]@ == task_view(v[i]@.id, store[v[i]@.id])
        })
    &&& (forall|k: u64|
        store.contains_key(k) && !(#[trigger] store[k]).completed ==> exists|i: int|
            0 <= i < v.len() && (#[trigger] v[i])@.id == k)
    &&& (forall|i: int, j: int|
        0 <= i < j < v.len() ==> (#[trigger] v[i])@.id != (#[trigger] v[j])@.id)
}

/// The persistence contract: a keyed store of task rows. `store` is the
/// abstract state; `reliable` says whether the storage can still fail on
/// its own account (an unreliable store may answer any operation with a
/// storage error).
pub trait Repo: Sized {
    spec fn store(&self) -> Map<u64, TaskData>;

    spec fn reliable(&self) -> bool;

    /// Removes the row keyed by the task's identifier; deleting an
    /// already-absent identifier is not an error.
    fn delete_active_task(&mut self, task: ActiveTask) -> (r: Result<(), RepoError>)
        ensures
            final(self).reliable() == old(self).reliable(),
            match r {
                Ok(_) => final(self).store() == old(self).store().remove(task@.id),
                Err(_) => !old(self).reliable() && final(self).store() == old(self).store(),
            },
    ;

    /// Finds the row with that identifier in the open (not completed)
    /// state; `NotFound` exactly when no such row exists.
    fn find_active_task(&self, id: TaskId) -> (r: Result<ActiveTask, RepoFindError>)
        ensures
            match r {
                Ok(t) => self.store().contains_key(id@) && !self.store()[id@].completed
                    && t@ == task_view(id@, self.store()[id@]),
                Err(RepoFindError::NotFound) => !(self.store().contains_key(id@)
                    && !self.store()[id@].completed),
                Err(RepoFindError::RepoError(_)) => !self.reliable(),
            },
    ;

    /// Returns every open task, each exactly once; the empty sequence is
    /// a valid, non-error result.
    fn find_active_tasks(&self) -> (r: Result<Vec<ActiveTask>, RepoFindError>)
        ensures
            match r {
                Ok(v) => lists_active_tasks(self.store(), v@),
                Err(RepoFindError::NotFound) => false,
                Err(RepoFindError::RepoError(_)) => !self.reliable(),
            },
    ;

    /// Mirror of `find_active_task` for completed rows.
    fn find_closed_task(&self, id: TaskId) -> (r: Result<CompletedTask, RepoFindError>)
        ensures
            match r {
                Ok(t) => self.store().contains_key(id@) && self.store()[id@].completed
                    && t@ == task_view(id@, self.store()[id@]),
                Err(RepoFindError::NotFound) => !(self.store().contains_key(id@)
                    && self.store()[id@].completed),
                Err(RepoFindError::RepoError(_)) => !self.reliable(),
            },
    ;

    /// Persists content and description changes for an existing open row,
    /// keyed by the task's own identifier, and returns the freshly
    /// reloaded entity. Asking this of a completed row is a contract
    /// violation in the caller, not an error, so it is excluded here.
    fn save_active_task(&mut self, task: ActiveTask) -> (r: Result<ActiveTask, RepoError>)
        requires
            old(self).store().contains_key(task@.id) ==> !old(self).store()[task@.id].completed,
        ensures
            final(self).reliable() == old(self).reliable(),
            match r {
                Ok(t) => {
                    &&& old(self).store().contains_key(task@.id)
                    &&& final(self).store() == old(self).store().insert(
                        task@.id,
                        (TaskData {
                            content: task@.content,
                            description: task@.description,
                            ..old(self).store()[task@.id]
                        }),
                    )
                    &&& t@ == (TaskView {
                        id: task@.id,
                        content: task@.content,
                        description: task@.description,
                        created_at: old(self).store()[task@.id].created_at,
                    })
                },
                Err(_) => {
                    &&& !old(self).store().contains_key(task@.id) || !old(self).reliable()
                    &&& final(self).store() == old(self).store()
                },
            },
    ;

    /// Marks the row keyed by the task's identifier completed; content,
    /// description and creation time are read back from the row itself.
    fn save_closed_task(&mut self, task: CompletedTask) -> (r: Result<CompletedTask, RepoError>)
        ensures
            final(self).reliable() == old(self).reliable(),
            match r {
                Ok(t) => {
                    &&& old(self).store().contains_key(task@.id)
                    &&& final(self).store() == old(self).store().insert(
                        task@.id,
                        (TaskData { completed: true, ..old(self).store()[task@.id] }),
                    )
                    &&& t@ == (TaskView {
                        id: task@.id,
                        content: old(self).store()[task@.id].content,
                        description: old(self).store()[task@.id].description,
                        created_at: old(self).store()[task@.id].created_at,
                    })
                },
                Err(_) => {
                    &&& !old(self).store().contains_key(task@.id) || !old(self).reliable()
                    &&& final(self).store() == old(self).store()
                },
            },
    ;

    /// Persists a draft: assigns a fresh identifier and the creation
    /// timestamp, stores the row open, and returns the new entity.
    fn save_new_task(&mut self, task: NewTask) -> (r: Result<ActiveTask, RepoError>)
        ensures
            match r {
                Ok(t) => {
                    &&& !old(self).store().contains_key(t@.id)
                    &&& t@.content == task@.content
                    &&& t@.description == task@.description
                    &&& final(self).store() == old(self).store().insert(
                        t@.id,
                        (TaskData {
                            content: task@.content,
                            description: task@.description,
                            completed: false,
                            created_at: t@.created_at,
                        }),
                    )
                },
                Err(_) => !old(self).reliable() && final(self).store() == old(self).store(),
            },
    ;
}

/// A stored row as the relational adapter hands it over: plain values
/// only, not yet validated against the domain invariants.
#[derive(Debug)]
pub struct TaskRecord {
    pub id: u64,
    pub content: String,
    pub description: String,
    pub is_completed: bool,
    pub created_at_micros: i64,
}

impl TaskRecord {
    /// The row as a mathematical value.
    pub open spec fn data(&self) -> TaskData {
        TaskData {
            content: self.content@,
            description: self.description@,
            completed: self.is_completed,
            created_at: self.created_at_micros as int,
        }
    }

    /// Maps a stored row to the open-task entity. A completed row, or one
    /// whose text breaks the domain invariants, is a contract violation in
    /// the adapter — fatal, not recoverable — so such rows are excluded.
    pub fn into_active_task(self) -> (t: ActiveTask)
        requires
            !self.is_completed,
            1 <= self.content@.len() <= 500,
            1 <= self.description@.len() <= 2000,
        ensures
            t@ == task_view(self.id, self.data()),
    {
        let TaskRecord { id, content, description, is_completed: _, created_at_micros } = self;
        ActiveTask::new(
            TaskId::from(id),
            TaskContent::new_or_panic(content),
            TaskDescription::new_or_panic(description),
            Timestamp::from_micros(created_at_micros),
        )
    }

    /// Maps a stored row to the completed-task entity; mirror of
    /// `into_active_task`.
    pub fn into_completed_task(self) -> (t: CompletedTask)
        requires
            self.is_completed,
            1 <= self.content@.len() <= 500,
            1 <= self.description@.len() <= 2000,
        ensures
            t@ == task_view(self.id, self.data()),
    {
        let TaskRecord { id, content, description, is_completed: _, created_at_micros } = self;
        CompletedTask::new(
            TaskId::from(id),
            TaskContent::new_or_panic(content),
            TaskDescription::new_or_panic(description),
            Timestamp::from_micros(created_at_micros),
        )
    }
}

/// Relies on chrono's `Local::now`: the current local wall-clock instant,
/// read as microseconds since the Unix epoch. A clock reading depends on
/// the machine and the moment, so nothing is promised of the result.
#[verifier::external_body]
fn now_micros() -> i64 {
    chrono::Local::now().timestamp_micros()
}

/// One stored row of the in-memory repository. The identifier is the key
/// it is stored under.
struct StoredTask {
    content: TaskContent,
    description: TaskDescription,
    completed: bool,
    created_at: Timestamp,
}

impl StoredTask {
    spec fn data(&self) -> TaskData {
        TaskData {
            content: self.content@,
            description: self.description@,
            completed: self.completed,
            created_at: self.created_at@,
        }
    }
}

spec fn data_map(m: Map<u64, StoredTask>) -> Map<u64, TaskData> {
    m.map_values(|st: StoredTask| st.data())
}

proof fn lemma_data_map_insert(m: Map<u64, StoredTask>, k: u64, v: StoredTask)
    ensures
        data_map(m.insert(k, v)) == data_map(m).insert(k, v.data()),
{
    assert(data_map(m.insert(k, v)) =~= data_map(m).insert(k, v.data()));
}

proof fn lemma_data_map_remove(m: Map<u64, StoredTask>, k: u64)
    ensures
        data_map(m.remove(k)) == data_map(m).remove(k),
{
    assert(data_map(m.remove(k)) =~= data_map(m).remove(k));
}

/// The pure in-memory repository: the test double behind the same
/// contract as the relational adapter. Rows live in a hash map keyed by
/// identifier; identifiers are assigned from a counter, starting at 1,
/// and never reused after deletion.
pub struct InMemoryTaskRepo {
    tasks: HashMap<u64, StoredTask>,
    next_id: u64,
}

impl InMemoryTaskRepo {
    #[verifier::type_invariant]
    spec fn wf(self) -> bool {
        &&& 1 <= self.next_id
        &&& forall|k: u64| #[trigger] self.tasks@.contains_key(k) ==> 1 <= k < self.next_id
    }

    /// An empty repository; the first saved task gets identifier 1.
    pub fn new() -> (r: Self)
        ensures
            r.store() == Map::<u64, TaskData>::empty(),
            r.reliable(),
    {
        let r = InMemoryTaskRepo { tasks: HashMap::new(), next_id: 1 };
        proof {
            assert(r.store() =~= Map::<u64, TaskData>::empty());
        }
        r
    }
}

impl Repo for InMemoryTaskRepo {
    closed spec fn store(&self) -> Map<u64, TaskData> {
        data_map(self.tasks@)
    }

    closed spec fn reliable(&self) -> bool {
        self.next_id < u64::MAX
    }

    fn delete_active_task(&mut self, task: ActiveTask) -> (r: Result<(), RepoError>) {
        proof {
            use_type_invariant(&*self);
        }
        let key: u64 = u64::from(*task.id());
        let mut tasks: HashMap<u64, StoredTask> = HashMap::new();
        core::mem::swap(&mut tasks, &mut self.tasks);
        tasks.remove(&key);
        self.tasks = tasks;
        proof {
            lemma_data_map_remove(old(self).tasks@, key);
        }
        Ok(())
    }

    fn find_active_task(&self, id: TaskId) -> (r: Result<ActiveTask, RepoFindError>) {
        let key: u64 = u64::from(id);
        match self.tasks.get(&key) {
            Some(st) => {
                if !st.completed {
                    Ok(ActiveTask::new(
                        TaskId::from(key),
                        st.content.clone(),
                        st.description.clone(),
                        st.created_at,
                    ))
                } else {
                    Err(RepoFindError::NotFound)
                }
            },
            None => Err(RepoFindError::NotFound),
        }
    }

    fn find_active_tasks(&self) -> (r: Result<Vec<ActiveTask>, RepoFindError>) {
        proof {
            use_type_invariant(&*self);
        }
        let mut result: Vec<ActiveTask> = Vec::new();
        let mut k: u64 = 1;
        while k < self.next_id
            invariant
                1 <= k <= self.next_id,
                forall|k2: u64| #[trigger] self.tasks@.contains_key(k2) ==> 1 <= k2 < self.next_id,
                forall|i: int|
                    0 <= i < result@.len() ==> {
                        &&& 1 <= (#[trigger] result@[i])@.id < k
                        &&& self.store().contains_key(result@[i]@.id)
                        &&& !self.store()[result@[i]@.id].completed
                        &&& result@[i]@ == task_view(result@[i]@.id, self.store()[result@[i]@.id])
                    },
                forall|k2: u64|
                    1 <= k2 < k && self.store().contains_key(k2)
                        && !(#[trigger] self.store()[k2]).completed ==> exists|i: int|
                        0 <= i < result@.len() && (#[trigger] result@[i])@.id == k2,
                forall|i: int, j: int|
                    0 <= i < j < result@.len() ==> (#[trigger] result@[i])@.id
                        < (#[trigger] result@[j])@.id,
            decreases self.next_id - k,
        {
            let ghost result0 = result@;
            match self.tasks.get(&k) {
                Some(st) => {
                    if !st.completed {
                        result.push(ActiveTask::new(
                            TaskId::from(k),
                            st.content.clone(),
                            st.description.clone(),
                            st.created_at,
                        ));
                        proof {
                            assert((result@[result0.len() as int])@.id == k);
                        }
                    } else {
                        proof {
                            assert(self.store()[k] == st.data());
                        }
                    }
                },
                None => {
                    proof {
                        assert(!self.tasks@.contains_key(k));
                        assert(!self.store().contains_key(k));
                    }
                },
            }
            proof {
                assert forall|k2: u64|
                    1 <= k2 < k + 1 && self.store().contains_key(k2)
                        && !self.store()[k2].completed implies exists|i: int|
                    0 <= i < result@.len() && (#[trigger] result@[i])@.id == k2 by {
                    if k2 < k {
                        assert(exists|i: int|
                            0 <= i < result0.len() && (#[trigger] result0[i])@.id == k2);
                        let i = choose|i: int|
                            0 <= i < result0.len() && (#[trigger] result0[i])@.id == k2;
                        assert((result@[i])@.id == k2);
                    }
                }
            }
            k = k + 1;
        }
        proof {
            assert forall|k2: u64|
                self.store().contains_key(k2) && !self.store()[k2].completed implies exists|i: int|
                0 <= i < result@.len() && (#[trigger] result@[i])@.id == k2 by {
                assert(self.tasks@.contains_key(k2));
            }
            assert forall|i: int, j: int|
                0 <= i < j < result@.len() implies (#[trigger] result@[i])@.id
                != (#[trigger] result@[j])@.id by {
                assert((result@[i])@.id < (result@[j])@.id);
            }
            assert(lists_active_tasks(self.store(), result@));
        }
        Ok(result)
    }

    fn find_closed_task(&self, id: TaskId) -> (r: Result<CompletedTask, RepoFindError>) {
        let key: u64 = u64::from(id);
        match self.tasks.get(&key) {
            Some(st) => {
                if st.completed {
                    Ok(CompletedTask::new(
                        TaskId::from(key),
                        st.content.clone(),
                        st.description.clone(),
                        st.created_at,
                    ))
                } else {
                    Err(RepoFindError::NotFound)
                }
            },
            None => Err(RepoFindError::NotFound),
        }
    }

    fn save_active_task(&mut self, task: ActiveTask) -> (r: Result<ActiveTask, RepoError>) {
        proof {
            use_type_invariant(&*self);
        }
        let key: u64 = u64::from(*task.id());
        let (completed, created_at) = match self.tasks.get(&key) {
            Some(st) => (st.completed, st.created_at),
            None => {
                return Err(RepoError::DatabaseError("no row with the task's identifier".to_string()));
            },
        };
        let st = StoredTask {
            content: task.content().clone(),
            description: task.description().clone(),
            completed,
            created_at,
        };
        let mut tasks: HashMap<u64, StoredTask> = HashMap::new();
        core::mem::swap(&mut tasks, &mut self.tasks);
        proof {
            lemma_data_map_insert(tasks@, key, st);
        }
        tasks.insert(key, st);
        self.tasks = tasks;
        Ok(ActiveTask::new(
            TaskId::from(key),
            task.content().clone(),
            task.description().clone(),
            created_at,
        ))
    }

    fn save_closed_task(&mut self, task: CompletedTask) -> (r: Result<CompletedTask, RepoError>) {
        proof {
            use_type_invariant(&*self);
        }
        let key: u64 = u64::from(*task.id());
        let (content, description, created_at) = match self.tasks.get(&key) {
            Some(st) => (st.content.clone(), st.description.clone(), st.created_at),
            None => {
                return Err(RepoError::DatabaseError("no row with the task's identifier".to_string()));
            },
        };
        let st = StoredTask {
            content: content.clone(),
            description: description.clone(),
            completed: true,
            created_at,
        };
        let mut tasks: HashMap<u64, StoredTask> = HashMap::new();
        core::mem::swap(&mut tasks, &mut self.tasks);
        proof {
            lemma_data_map_insert(tasks@, key, st);
        }
        tasks.insert(key, st);
        self.tasks = tasks;
        Ok(CompletedTask::new(TaskId::from(key), content, description, created_at))
    }

    fn save_new_task(&mut self, task: NewTask) -> (r: Result<ActiveTask, RepoError>) {
        proof {
            use_type_invariant(&*self);
        }
        if self.next_id == u64::MAX {
            return Err(RepoError::DatabaseError("task identifier space exhausted".to_string()));
        }
        let id = self.next_id;
        let created_at = Timestamp::from_micros(now_micros());
        let st = StoredTask {
            content: task.content().clone(),
            description: task.description().clone(),
            completed: false,
            created_at,
        };
        let mut tasks: HashMap<u64, StoredTask> = HashMap::new();
        core::mem::swap(&mut tasks, &mut self.tasks);
        proof {
            lemma_data_map_insert(tasks@, id, st);
        }
        tasks.insert(id, st);
        self.next_id = id + 1;
        self.tasks = tasks;
        Ok(ActiveTask::new(
            TaskId::from(id),
            task.content().clone(),
            task.description().clone(),
            created_at,
        ))
    }
}

} // verus!
