//! A flat task collection: records with a status and a priority, created,
//! patched field by field and deleted, with every operation stated over the
//! collection as a sequence.

mod fresh;
pub mod laws;
pub mod store;
pub mod task;

pub use task::{CreateTaskInput, Task, TaskPriority, TaskStatus, UpdateTaskInput};
