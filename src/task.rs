use vstd::prelude::*;
use crate::config::{HarnessConfig, PAYLOAD_LEN};
use crate::keys::{decimal, key_text, KeyCursor};
use crate::lookup::{has_key, resolve_lookup, FetchedRow, LookupOutcome};
use crate::record::{make_record, Record};

verus! {

/// Which statement a task issues each iteration.
#[derive(Debug, Clone, Copy, PartialEq, Eq, Structural)]
pub enum Role {
    Writer,
    Reader,
}

/// Where a task stands in its iteration.
#[derive(Debug, Clone, Copy, PartialEq, Eq, Structural)]
pub enum Phase {
    /// About to begin an iteration.
    Idle,
    /// Waiting for a pooled connection.
    Leasing,
    /// Holding a connection while its statement runs.
    Executing,
    /// Pausing between iterations, with no connection held.
    Resting,
    /// Stopped by its deadline; it does nothing more.
    Cancelled,
}

/// What the statement of one iteration came back with.
pub enum StatementResult {
    /// The insert of a writer succeeded.
    Written,
    /// The lookup of a reader returned these rows, in the store's order.
    Fetched(Vec<FetchedRow>),
    /// The store reported an error, described by the message.
    Failed(String),
}

/// What the runtime tells the task.
pub enum Event {
    /// The task may begin its next iteration (at start, or after a pause).
    Ready,
    /// A pooled connection was leased to the task.
    LeaseGranted,
    /// The pool could not lease a connection; the message says why.
    LeaseFailed(String),
    /// The statement finished.
    Completed(StatementResult),
    /// The task's deadline has passed.
    DeadlinePassed,
}

/// What one iteration observed, for the log.
pub enum Report {
    Inserted { key: String },
    InsertFailed { key: String, reason: String },
    Found { key: String, len: usize },
    NotFound { key: String },
    LookupFailed { key: String, reason: String },
}

/// What the task asks the runtime to do next.
pub enum Action {
    /// Lease a connection from the task's pool.
    Acquire,
    /// Insert this record as a new row, on the leased connection.
    Insert(Record),
    /// Look up the rows with this key, on the leased connection.
    Lookup { key: String },
    /// Log the report, give the connection back if `release`, then pause.
    Finish { report: Report, release: bool, pause_ms: u64 },
    /// End the task, giving the connection back if `release`.
    Stop { release: bool },
    /// The event does not apply in this phase; nothing changes.
    Ignore,
}

/// The decisions of one writer or reader task, from event to next action.
pub struct TaskMachine {
    pub role: Role,
    pub phase: Phase,
    pub cursor: KeyCursor,
    pub key: u64,
    pub holds_lease: bool,
    pub pause_ms: u64,
}

pub open spec fn key_of(report: Report) -> Seq<char> {
    match report {
        Report::Inserted { key } => key@,
        Report::InsertFailed { key, .. } => key@,
        Report::Found { key, .. } => key@,
        Report::NotFound { key } => key@,
        Report::LookupFailed { key, .. } => key@,
    }
}

impl TaskMachine {
    /// The task holds a connection exactly while its statement runs.
    pub open spec fn wf(&self) -> bool {
        &&& self.cursor.wf()
        &&& self.holds_lease <==> self.phase == Phase::Executing
        &&& self.key < self.cursor.modulus
    }

    /// A task of the given role, before its first iteration.
    pub fn new(role: Role, config: &HarnessConfig) -> (r: TaskMachine)
        requires
            config.wf(),
        ensures
            r.wf(),
            r.role == role,
            r.phase == Phase::Idle,
            !r.holds_lease,
            r.cursor.modulus == config.key_modulus,
            r.cursor.upcoming() == 0,
            r.pause_ms == config.pause_ms,
    {
        TaskMachine {
            role,
            phase: Phase::Idle,
            cursor: KeyCursor::new(config.key_modulus),
            key: 0,
            holds_lease: false,
            pause_ms: config.pause_ms,
        }
    }

    pub fn phase(&self) -> (r: Phase)
        ensures
            r == self.phase,
    {
        self.phase
    }

    pub fn holds_lease(&self) -> (r: bool)
        ensures
            r == self.holds_lease,
    {
        self.holds_lease
    }

    /// Takes one event and decides the next action.
    pub fn step(&mut self, event: Event) -> (action: Action)
        requires
            old(self).wf(),
        ensures
            final(self).wf(),
            final(self).role == old(self).role,
            final(self).pause_ms == old(self).pause_ms,
            final(self).cursor.modulus == old(self).cursor.modulus,
            // only the start of an iteration moves the key cursor
            !(event is Ready) ==> final(self).cursor == old(self).cursor && final(self).key == old(self).key,
            // the deadline cancels any live task and gives its connection back
            event is DeadlinePassed && old(self).phase != Phase::Cancelled ==> {
                &&& final(self).phase == Phase::Cancelled
                &&& !final(self).holds_lease
                &&& action == (Action::Stop { release: old(self).holds_lease })
            },
            // a cancelled task stays cancelled and holds nothing
            old(self).phase == Phase::Cancelled ==> *final(self) == *old(self) && action is Ignore,
            // an iteration begins with the next cyclic key and a lease request
            event is Ready && (old(self).phase == Phase::Idle || old(self).phase == Phase::Resting) ==> {
                &&& final(self).phase == Phase::Leasing
                &&& final(self).key == old(self).cursor.upcoming()
                &&& final(self).cursor.upcoming() == (old(self).cursor.upcoming() + 1)
                    % (old(self).cursor.modulus as nat)
                &&& action is Acquire
            },
            // with a connection, a writer inserts a fresh record of the fixed size
            event is LeaseGranted && old(self).phase == Phase::Leasing && old(self).role == Role::Writer
                ==> final(self).phase == Phase::Executing && match action {
                Action::Insert(rec) => {
                    &&& rec.key@ == decimal(old(self).key as nat)
                    &&& rec.payload@.len() == PAYLOAD_LEN
                },
                _ => false,
            },
            // with a connection, a reader looks up its current key
            event is LeaseGranted && old(self).phase == Phase::Leasing && old(self).role == Role::Reader
                ==> final(self).phase == Phase::Executing && match action {
                Action::Lookup { key } => key@ == decimal(old(self).key as nat),
                _ => false,
            },
            // without a connection, the iteration fails and the task pauses
            event is LeaseFailed && old(self).phase == Phase::Leasing ==> {
                &&& final(self).phase == Phase::Resting
                &&& match action {
                    Action::Finish { report, release, pause_ms } => {
                        &&& !release
                        &&& pause_ms == old(self).pause_ms
                        &&& key_of(report) == decimal(old(self).key as nat)
                        &&& (old(self).role == Role::Writer ==> report is InsertFailed)
                        &&& (old(self).role == Role::Reader ==> report is LookupFailed)
                    },
                    _ => false,
                }
            },
            // a finished statement is reported, its connection released, and the task pauses
            event is Completed && old(self).phase == Phase::Executing ==> match action {
                Action::Finish { report, release, pause_ms } => {
                    &&& final(self).phase == Phase::Resting
                    &&& release
                    &&& pause_ms == old(self).pause_ms
                    &&& key_of(report) == decimal(old(self).key as nat)
                    &&& report_fits(old(self).role, decimal(old(self).key as nat), event->Completed_0, report)
                },
                Action::Ignore => *final(self) == *old(self) && !fits_role(old(self).role, event->Completed_0),
                _ => false,
            },
            // any other event leaves the task as it was
            !accepts(old(self).phase, event) ==> *final(self) == *old(self) && action is Ignore,
    {
        if self.phase == Phase::Cancelled {
            return Action::Ignore;
        }
        match event {
            Event::DeadlinePassed => {
                let release = self.holds_lease;
                self.phase = Phase::Cancelled;
                self.holds_lease = false;
                Action::Stop { release }
            },
            Event::Ready => {
                if self.phase == Phase::Idle || self.phase == Phase::Resting {
                    self.key = self.cursor.next_key();
                    self.phase = Phase::Leasing;
                    Action::Acquire
                } else {
                    Action::Ignore
                }
            },
            Event::LeaseGranted => {
                if self.phase != Phase::Leasing {
                    return Action::Ignore;
                }
                match self.role {
                    Role::Writer => {
                        self.phase = Phase::Executing;
                        self.holds_lease = true;
                        Action::Insert(make_record(self.key, PAYLOAD_LEN))
                    },
                    Role::Reader => {
                        self.phase = Phase::Executing;
                        self.holds_lease = true;
                        Action::Lookup { key: key_text(self.key) }
                    },
                }
            },
            Event::LeaseFailed(reason) => {
                if self.phase != Phase::Leasing {
                    return Action::Ignore;
                }
                self.phase = Phase::Resting;
                let key = key_text(self.key);
                let report = match self.role {
                    Role::Writer => Report::InsertFailed { key, reason },
                    Role::Reader => Report::LookupFailed { key, reason },
                };
                Action::Finish { report, release: false, pause_ms: self.pause_ms }
            },
            Event::Completed(res) => {
                if self.phase != Phase::Executing {
                    return Action::Ignore;
                }
                let key = key_text(self.key);
                let report = match (self.role, res) {
                    (Role::Writer, StatementResult::Written) => Report::Inserted { key },
                    (Role::Writer, StatementResult::Failed(reason)) => Report::InsertFailed { key, reason },
                    (Role::Reader, StatementResult::Fetched(rows)) => match resolve_lookup(&key, &rows) {
                        LookupOutcome::Found { len } => Report::Found { key, len },
                        LookupOutcome::NotFound => Report::NotFound { key },
                    },
                    (Role::Reader, StatementResult::Failed(reason)) => Report::LookupFailed { key, reason },
                    _ => {
                        return Action::Ignore;
                    },
                };
                self.phase = Phase::Resting;
                self.holds_lease = false;
                Action::Finish { report, release: true, pause_ms: self.pause_ms }
            },
        }
    }
}

/// Whether an event moves a task in the given phase.
pub open spec fn accepts(phase: Phase, event: Event) -> bool {
    match event {
        Event::DeadlinePassed => phase != Phase::Cancelled,
        Event::Ready => phase == Phase::Idle || phase == Phase::Resting,
        Event::LeaseGranted => phase == Phase::Leasing,
        Event::LeaseFailed(_) => phase == Phase::Leasing,
        Event::Completed(_) => phase == Phase::Executing,
    }
}

/// Whether a statement result is one that a task of this role can get.
pub open spec fn fits_role(role: Role, res: StatementResult) -> bool {
    match res {
        StatementResult::Written => role == Role::Writer,
        StatementResult::Fetched(_) => role == Role::Reader,
        StatementResult::Failed(_) => true,
    }
}

/// The report owed for a statement result: a writer reports its insert, a
/// reader the size of the first row with its key or that none has it, and a
/// store error is reported as a failure with its message.
pub open spec fn report_fits(role: Role, key: Seq<char>, res: StatementResult, report: Report) -> bool {
    match res {
        StatementResult::Written => role == Role::Writer && report is Inserted,
        StatementResult::Failed(msg) => match report {
            Report::InsertFailed { reason, .. } => role == Role::Writer && reason == msg,
            Report::LookupFailed { reason, .. } => role == Role::Reader && reason == msg,
            _ => false,
        },
        StatementResult::Fetched(rows) => role == Role::Reader && match report {
            Report::NotFound { .. } => !has_key(rows@, key),
            Report::Found { len, .. } => exists|i: int|
                0 <= i < rows@.len() && #[trigger] rows@[i].key@ == key
                && rows@[i].payload_len == len
                && forall|j: int| 0 <= j < i ==> #[trigger] rows@[j].key@ != key,
            _ => false,
        },
    }
}

} // verus!
