//! The task record, its enumerations, and the inputs of creation and update.

use vstd::prelude::*;

verus! {

/// Where a task stands in its lifecycle; any value may follow any other.
#[derive(Debug, Clone, Copy, PartialEq, Eq, Structural)]
pub enum TaskStatus {
    Todo,
    InProgress,
    Done,
}

#[derive(Debug, Clone, Copy, PartialEq, Eq, Structural)]
pub enum TaskPriority {
    Low,
    Medium,
    High,
}

/// One record of the collection. `id` and `created_at` are set when the task
/// is created and never change afterwards.
#[derive(Debug, PartialEq, Eq)]
pub struct Task {
    pub id: String,
    pub title: String,
    pub description: Option<String>,
    pub status: TaskStatus,
    pub priority: TaskPriority,
    pub created_at: String,
    pub due_date: Option<String>,
}

/// What the caller supplies to create a task.
#[derive(Debug)]
pub struct CreateTaskInput {
    pub title: String,
    pub description: Option<String>,
    pub priority: TaskPriority,
    pub due_date: Option<String>,
}

/// A sparse patch: each field that is `Some` replaces the task's field.
#[derive(Debug)]
pub struct UpdateTaskInput {
    pub title: Option<String>,
    pub description: Option<String>,
    pub status: Option<TaskStatus>,
    pub priority: Option<TaskPriority>,
    pub due_date: Option<String>,
}

fn clone_opt_string(s: &Option<String>) -> (r: Option<String>)
    ensures
        r == *s,
{
    match s {
        Some(v) => Some(v.clone()),
        None => None,
    }
}

impl Clone for Task {
    fn clone(&self) -> (r: Self)
        ensures
            r == *self,
    {
        Task {
            id: self.id.clone(),
            title: self.title.clone(),
            description: clone_opt_string(&self.description),
            status: self.status,
            priority: self.priority,
            created_at: self.created_at.clone(),
            due_date: clone_opt_string(&self.due_date),
        }
    }
}

/// The task that creation makes from `input`, with the given id and time.
pub open spec fn new_task_spec(input: CreateTaskInput, id: String, created_at: String) -> Task {
    Task {
        id,
        title: input.title,
        description: input.description,
        status: TaskStatus::Todo,
        priority: input.priority,
        created_at,
        due_date: input.due_date,
    }
}

/// `task` with every field that `patch` supplies replaced; `id` and
/// `created_at` are kept.
pub open spec fn patched(task: Task, patch: UpdateTaskInput) -> Task {
    Task {
        id: task.id,
        title: match patch.title {
            Some(t) => t,
            None => task.title,
        },
        description: match patch.description {
            Some(d) => Some(d),
            None => task.description,
        },
        status: match patch.status {
            Some(s) => s,
            None => task.status,
        },
        priority: match patch.priority {
            Some(p) => p,
            None => task.priority,
        },
        created_at: task.created_at,
        due_date: match patch.due_date {
            Some(d) => Some(d),
            None => task.due_date,
        },
    }
}

impl Task {
    /// Builds a fresh task from `input`: its status is `Todo`.
    pub fn new(input: CreateTaskInput, id: String, created_at: String) -> (r: Task)
        ensures
            r == new_task_spec(input, id, created_at),
    {
        Task {
            id,
            title: input.title,
            description: input.description,
            status: TaskStatus::Todo,
            priority: input.priority,
            created_at,
            due_date: input.due_date,
        }
    }

    /// Applies a sparse patch: only the fields that `patch` supplies change.
    pub fn apply_patch(self, patch: UpdateTaskInput) -> (r: Task)
        ensures
            r == patched(self, patch),
    {
        let mut t = self;
        if let Some(title) = patch.title {
            t.title = title;
        }
        if let Some(description) = patch.description {
            t.description = Some(description);
        }
        if let Some(status) = patch.status {
            t.status = status;
        }
        if let Some(priority) = patch.priority {
            t.priority = priority;
        }
        if let Some(due_date) = patch.due_date {
            t.due_date = Some(due_date);
        }
        t
    }
}

} // verus!
