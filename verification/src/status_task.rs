//! The registry of the commands that the user has issued.
//!
//! A command is registered as pending when it is issued and resolved once,
//! when the daemon has answered. Nothing is ever removed: the status line
//! decides what it still shows.

use crate::command::TaskKind;
use crate::torrent::RpcError;
use vstd::prelude::*;

verus! {

/// Where an issued command stands.
#[derive(Clone, Debug, PartialEq, Eq)]
pub enum TaskState {
    Pending,
    Success,
    Failed(String),
}

/// The state of a command over plain sequences.
pub enum TaskStateModel {
    Pending,
    Success,
    Failed(Seq<char>),
}

impl View for TaskState {
    type V = TaskStateModel;

    open spec fn view(&self) -> TaskStateModel {
        match self {
            TaskState::Pending => TaskStateModel::Pending,
            TaskState::Success => TaskStateModel::Success,
            TaskState::Failed(reason) => TaskStateModel::Failed(reason@),
        }
    }
}

/// An issued command and what became of it.
#[derive(Clone, Debug, PartialEq, Eq)]
pub struct StatusTask {
    pub id: usize,
    pub kind: TaskKind,
    pub description: String,
    pub state: TaskState,
}

/// An issued command over plain sequences.
pub struct StatusTaskModel {
    pub id: nat,
    pub kind: TaskKind,
    pub description: Seq<char>,
    pub state: TaskStateModel,
}

impl View for StatusTask {
    type V = StatusTaskModel;

    open spec fn view(&self) -> StatusTaskModel {
        StatusTaskModel {
            id: self.id as nat,
            kind: self.kind,
            description: self.description@,
            state: self.state@,
        }
    }
}

/// The state that an answer of the daemon puts a command in.
pub open spec fn outcome_state(outcome: Result<(), RpcError>) -> TaskStateModel {
    match outcome {
        Ok(_) => TaskStateModel::Success,
        Err(e) => TaskStateModel::Failed(e.message@),
    }
}

/// Every task has its position as its id.
pub open spec fn registry_wf(tasks: Seq<StatusTaskModel>) -> bool {
    forall|i: int| 0 <= i < tasks.len() ==> (#[trigger] tasks[i]).id == i
}

/// The registry after a command was registered: a pending task at the end,
/// with the next free id.
pub open spec fn registered(tasks: Seq<StatusTaskModel>, kind: TaskKind, description: Seq<char>) -> Seq<
    StatusTaskModel,
> {
    tasks.push(
        StatusTaskModel { id: tasks.len(), kind, description, state: TaskStateModel::Pending },
    )
}

/// Whether `id` names a task that is still pending.
pub open spec fn resolvable(tasks: Seq<StatusTaskModel>, id: nat) -> bool {
    id < tasks.len() && tasks[id as int].state is Pending
}

/// The registry after the answer for task `id` arrived: a pending task
/// takes the state; an unknown or already resolved one leaves the registry
/// as it is.
pub open spec fn resolved(tasks: Seq<StatusTaskModel>, id: nat, state: TaskStateModel) -> Seq<
    StatusTaskModel,
> {
    if resolvable(tasks, id) {
        tasks.update(id as int, StatusTaskModel { state, ..tasks[id as int] })
    } else {
        tasks
    }
}

/// No task is ever dropped or renamed: registering and resolving keep every
/// earlier task's id, kind and description, and never shorten the registry.
pub proof fn lemma_tasks_are_kept(
    tasks: Seq<StatusTaskModel>,
    kind: TaskKind,
    description: Seq<char>,
    id: nat,
    state: TaskStateModel,
)
    requires
        registry_wf(tasks),
    ensures
        registry_wf(registered(tasks, kind, description)),
        registry_wf(resolved(tasks, id, state)),
        registered(tasks, kind, description).len() == tasks.len() + 1,
        resolved(tasks, id, state).len() == tasks.len(),
        forall|i: int|
            0 <= i < tasks.len() ==> #[trigger] registered(tasks, kind, description)[i] == tasks[i],
        forall|i: int|
            0 <= i < tasks.len() ==> {
                let after = #[trigger] resolved(tasks, id, state)[i];
                &&& after.id == tasks[i].id
                &&& after.kind == tasks[i].kind
                &&& after.description == tasks[i].description
                &&& i != id ==> after.state == tasks[i].state
            },
{
}

/// The commands issued so far, oldest first.
#[derive(Clone, Debug)]
pub struct TaskRegistry {
    tasks: Vec<StatusTask>,
}

impl View for TaskRegistry {
    type V = Seq<StatusTaskModel>;

    closed spec fn view(&self) -> Seq<StatusTaskModel> {
        self.tasks@.map_values(|t: StatusTask| t@)
    }
}

impl TaskRegistry {
    /// An empty registry.
    pub fn new() -> (registry: TaskRegistry)
        ensures
            registry@ == Seq::<StatusTaskModel>::empty(),
            registry_wf(registry@),
    {
        let registry = TaskRegistry { tasks: Vec::new() };
        assert(registry@ =~= Seq::<StatusTaskModel>::empty());
        registry
    }

    /// Registers a newly issued command as pending and returns its id.
    pub fn register(&mut self, kind: TaskKind, description: String) -> (id: usize)
        requires
            registry_wf(old(self)@),
        ensures
            final(self)@ == registered(old(self)@, kind, description@),
            id == old(self)@.len(),
            registry_wf(final(self)@),
    {
        let id = self.tasks.len();
        self.tasks.push(StatusTask { id, kind, description, state: TaskState::Pending });
        proof {
            assert(self@ =~= registered(old(self)@, kind, description@));
        }
        id
    }

    /// Records the daemon's answer for task `id`. Says whether a pending
    /// task took the outcome.
    pub fn resolve(&mut self, id: usize, outcome: Result<(), RpcError>) -> (updated: bool)
        requires
            registry_wf(old(self)@),
        ensures
            final(self)@ == resolved(old(self)@, id as nat, outcome_state(outcome)),
            updated == resolvable(old(self)@, id as nat),
            registry_wf(final(self)@),
    {
        if id >= self.tasks.len() {
            return false;
        }
        let pending = match &self.tasks[id].state {
            TaskState::Pending => true,
            _ => false,
        };
        if !pending {
            return false;
        }
        let state = match outcome {
            Ok(_) => TaskState::Success,
            Err(e) => TaskState::Failed(e.message),
        };
        self.tasks[id].state = state;
        proof {
            assert(self@ =~= resolved(old(self)@, id as nat, outcome_state(outcome)));
        }
        true
    }

    /// The commands issued so far, oldest first.
    pub fn list(&self) -> (tasks: &Vec<StatusTask>)
        ensures
            tasks@.map_values(|t: StatusTask| t@) == self@,
    {
        &self.tasks
    }

    /// The number of commands issued so far.
    pub fn len(&self) -> (len: usize)
        ensures
            len == self@.len(),
    {
        self.tasks.len()
    }
}

} // verus!
