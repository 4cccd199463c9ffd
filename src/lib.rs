//! Decision logic of a concurrency stress harness for a key/value blob store:
//! cyclic keys, payload records, pool lease accounting, lookup selection and
//! the writer/reader task state machines that a runtime drives.

pub mod keys;
pub mod config;
pub mod pool;
pub mod lookup;
pub mod record;
pub mod task;
pub mod plan;
