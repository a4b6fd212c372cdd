// Message processing engine: sends an external message, monitors the shard
// for its transaction and retries expiring messages on a bounded schedule.

pub mod deadline;
pub mod locator;
pub mod monitor;
pub mod processor;
pub mod types;
pub mod waiting;
