use vstd::prelude::*;
use crate::config::HarnessConfig;
use crate::task::Role;

verus! {

/// The roles of the tasks a run starts, writers first.
pub open spec fn role_at(config: HarnessConfig, i: int) -> Role {
    if i < config.writer_tasks { Role::Writer } else { Role::Reader }
}

/// The tasks the supervisor starts, in order: every writer, then every reader.
pub fn plan_tasks(config: &HarnessConfig) -> (r: Vec<Role>)
    requires
        config.writer_tasks + config.reader_tasks <= usize::MAX,
    ensures
        r@.len() == config.writer_tasks + config.reader_tasks,
        forall|i: int| 0 <= i < r@.len() ==> #[trigger] r@[i] == role_at(*config, i),
{
    let total: u64 = config.writer_tasks + config.reader_tasks;
    let mut r: Vec<Role> = Vec::new();
    let mut i: u64 = 0;
    while i < total
        invariant
            total == config.writer_tasks + config.reader_tasks,
            total <= usize::MAX,
            i <= total,
            r@.len() == i,
            forall|j: int| 0 <= j < i ==> #[trigger] r@[j] == role_at(*config, j),
        decreases total - i,
    {
        if i < config.writer_tasks {
            r.push(Role::Writer);
        } else {
            r.push(Role::Reader);
        }
        i = i + 1;
    }
    r
}

} // verus!
