use vstd::prelude::*;
use vstd::string::StringExecFns;
use crate::keys::{decimal, key_text};

verus! {

/// Size in bytes of every payload a writer inserts.
pub const PAYLOAD_LEN: usize = 4096;

/// Number of distinct keys the writers and readers cycle through.
pub const KEY_MODULUS: u64 = 3;

/// Pause between two iterations of a task, in milliseconds.
pub const PAUSE_MS: u64 = 10;

/// Hard deadline of each task, in milliseconds.
pub const TASK_DEADLINE_MS: u64 = 20000;

/// How long the supervisor waits before the run ends, in milliseconds.
pub const RUN_MS: u64 = 20000;

/// How long a statement waits on a contended lock, in milliseconds.
pub const BUSY_TIMEOUT_MS: u64 = 60000;

/// Size of the write-ahead log, in pages, at which it is checkpointed.
pub const WAL_CHECKPOINT_PAGES: u64 = 1000;

/// The fixed settings of one run.
pub struct HarnessConfig {
    pub key_modulus: u64,
    pub pause_ms: u64,
    pub task_deadline_ms: u64,
    pub run_ms: u64,
    pub writer_tasks: u64,
    pub reader_tasks: u64,
    pub busy_timeout_ms: u64,
    pub wal_checkpoint_pages: u64,
}

impl HarnessConfig {
    /// A usable configuration: keys can wrap, and the run lasts at least as
    /// long as each task's deadline.
    pub open spec fn wf(&self) -> bool {
        &&& self.key_modulus >= 1
        &&& self.run_ms >= self.task_deadline_ms
    }

    /// The settings of the standard stress run.
    pub fn standard() -> (r: HarnessConfig)
        ensures
            r.wf(),
            r.key_modulus == KEY_MODULUS,
            r.pause_ms == PAUSE_MS,
            r.task_deadline_ms == TASK_DEADLINE_MS,
            r.run_ms == RUN_MS,
            r.writer_tasks == 2,
            r.reader_tasks == 2,
            r.busy_timeout_ms == BUSY_TIMEOUT_MS,
            r.wal_checkpoint_pages == WAL_CHECKPOINT_PAGES,
    {
        HarnessConfig {
            key_modulus: KEY_MODULUS,
            pause_ms: PAUSE_MS,
            task_deadline_ms: TASK_DEADLINE_MS,
            run_ms: RUN_MS,
            writer_tasks: 2,
            reader_tasks: 2,
            busy_timeout_ms: BUSY_TIMEOUT_MS,
            wal_checkpoint_pages: WAL_CHECKPOINT_PAGES,
        }
    }
}

pub open spec fn create_table_sql() -> Seq<char> {
    "CREATE TABLE IF NOT EXISTS data (source TEXT, data BLOB)"@
}

pub open spec fn create_index_sql() -> Seq<char> {
    "CREATE INDEX IF NOT EXISTS data_index ON data(source)"@
}

pub open spec fn wal_mode_sql() -> Seq<char> {
    "PRAGMA journal_mode=WAL"@
}

pub open spec fn checkpoint_sql(pages: nat) -> Seq<char> {
    "PRAGMA wal_autocheckpoint="@ + decimal(pages)
}

pub open spec fn busy_timeout_sql(ms: nat) -> Seq<char> {
    "PRAGMA busy_timeout="@ + decimal(ms)
}

pub open spec fn insert_sql() -> Seq<char> {
    "INSERT INTO data VALUES (?, ?)"@
}

pub open spec fn lookup_sql() -> Seq<char> {
    "SELECT source, data FROM data WHERE source = ? ORDER BY rowid DESC LIMIT 1"@
}

/// The statement a writer runs: a new row of key and payload, never an update.
pub fn insert_statement() -> (r: String)
    ensures
        r@ == insert_sql(),
{
    proof {
        reveal_strlit("INSERT INTO data VALUES (?, ?)");
    }
    String::from_str("INSERT INTO data VALUES (?, ?)")
}

/// The statement a reader runs: the rows with the bound key. Among duplicate
/// keys the most recently inserted row comes first, and only it is fetched.
pub fn lookup_statement() -> (r: String)
    ensures
        r@ == lookup_sql(),
{
    proof {
        reveal_strlit("SELECT source, data FROM data WHERE source = ? ORDER BY rowid DESC LIMIT 1");
    }
    String::from_str("SELECT source, data FROM data WHERE source = ? ORDER BY rowid DESC LIMIT 1")
}

/// The statements that create the blob table and its non-unique key index.
pub fn schema_statements() -> (r: Vec<String>)
    ensures
        r@.len() == 2,
        r@[0]@ == create_table_sql(),
        r@[1]@ == create_index_sql(),
{
    proof {
        reveal_strlit("CREATE TABLE IF NOT EXISTS data (source TEXT, data BLOB)");
        reveal_strlit("CREATE INDEX IF NOT EXISTS data_index ON data(source)");
    }
    let mut r: Vec<String> = Vec::new();
    r.push(String::from_str("CREATE TABLE IF NOT EXISTS data (source TEXT, data BLOB)"));
    r.push(String::from_str("CREATE INDEX IF NOT EXISTS data_index ON data(source)"));
    r
}

/// The pragmas applied to every pool: write-ahead logging, its checkpoint
/// threshold, and the busy timeout.
pub fn pragma_statements(config: &HarnessConfig) -> (r: Vec<String>)
    ensures
        r@.len() == 3,
        r@[0]@ == wal_mode_sql(),
        r@[1]@ == checkpoint_sql(config.wal_checkpoint_pages as nat),
        r@[2]@ == busy_timeout_sql(config.busy_timeout_ms as nat),
{
    proof {
        reveal_strlit("PRAGMA journal_mode=WAL");
        reveal_strlit("PRAGMA wal_autocheckpoint=");
        reveal_strlit("PRAGMA busy_timeout=");
    }
    let mut r: Vec<String> = Vec::new();
    r.push(String::from_str("PRAGMA journal_mode=WAL"));
    let pages = key_text(config.wal_checkpoint_pages);
    r.push(String::from_str("PRAGMA wal_autocheckpoint=").concat(pages.as_str()));
    let busy = key_text(config.busy_timeout_ms);
    r.push(String::from_str("PRAGMA busy_timeout=").concat(busy.as_str()));
    r
}

} // verus!
