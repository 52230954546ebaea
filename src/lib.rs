//! A small task tracker: an ordered collection of tasks with add, update,
//! delete, status changes and filtered listing. The current time comes from
//! chrono through one trusted wrapper in `clock`; everything else is verified.

pub mod clock;
pub mod task;

pub use task::{
    add_task, add_task_at, delete_task, lemma_deleted_not_listed, list_tasks, mark_done,
    mark_done_at, mark_in_progress, mark_in_progress_at, status_filter, update_task,
    update_task_at, Status, Task,
};
