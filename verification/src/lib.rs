//! The verified core of the orchestrate tool call: from a request, the
//! per-agent task creation calls to issue; from their replies, the result
//! to report; and what the confirmation card shows and decides.

pub mod card;
pub mod dispatch;
pub mod model;
pub mod task_id;
pub mod text;
