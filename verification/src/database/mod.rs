//! Database health and performance reports, from the figures the database
//! returns for them.

use vstd::prelude::*;
use vstd::string::*;
use crate::text::str_eq;

verus! {

/// The health of the database.
#[derive(Debug)]
pub struct DatabaseHealth {
    pub connection_count: u32,
    pub idle_connections: u32,
    pub active_connections: u32,
    pub integrity_ok: bool,
    pub journal_mode: String,
    pub database_size_bytes: i64,
    pub wal_mode_active: bool,
}

/// Performance figures of the database.
#[derive(Debug, PartialEq, Eq, Structural)]
pub struct PerformanceStats {
    pub cache_size: i64,
    pub wal_checkpoint_threshold: i64,
    pub slow_queries_count: i64,
}

/// The health of a SQLite database from its pool size, idle connections,
/// integrity check answer, journal mode, and page count and size: healthy
/// integrity is the answer `ok`, and write-ahead logging the mode `wal`.
pub fn sqlite_health(connection_count: u32, idle_connections: u32, integrity_result: &str, journal_mode: String, page_count: i64, page_size: i64) -> (r: DatabaseHealth)
    requires
        idle_connections <= connection_count,
        i64::MIN <= page_count * page_size <= i64::MAX,
    ensures
        r.connection_count == connection_count,
        r.idle_connections == idle_connections,
        r.active_connections == connection_count - idle_connections,
        r.integrity_ok == (integrity_result@ == "ok"@),
        r.journal_mode == journal_mode,
        r.database_size_bytes == page_count * page_size,
        r.wal_mode_active == (journal_mode@ == "wal"@),
{
    let wal = str_eq(journal_mode.as_str(), "wal");
    DatabaseHealth {
        connection_count,
        idle_connections,
        active_connections: connection_count - idle_connections,
        integrity_ok: str_eq(integrity_result, "ok"),
        journal_mode,
        database_size_bytes: page_count * page_size,
        wal_mode_active: wal,
    }
}

/// The health of a PostgreSQL database, which keeps its own integrity and
/// always logs ahead.
pub fn postgres_health(connection_count: u32, idle_connections: u32, database_size_bytes: i64) -> (r: DatabaseHealth)
    requires
        idle_connections <= connection_count,
    ensures
        r.connection_count == connection_count,
        r.idle_connections == idle_connections,
        r.active_connections == connection_count - idle_connections,
        r.integrity_ok,
        r.journal_mode@ == "wal"@,
        r.database_size_bytes == database_size_bytes,
        r.wal_mode_active,
{
    DatabaseHealth {
        connection_count,
        idle_connections,
        active_connections: connection_count - idle_connections,
        integrity_ok: true,
        journal_mode: String::from_str("wal"),
        database_size_bytes,
        wal_mode_active: true,
    }
}

/// SQLite figures: the cache size, the checkpoint threshold, and the number
/// of compile options, which stands in for slow queries.
pub fn sqlite_performance(cache_size: i64, wal_checkpoint_threshold: i64, compile_options_count: usize) -> (r: PerformanceStats)
    requires
        compile_options_count <= i64::MAX,
    ensures
        r == (PerformanceStats { cache_size, wal_checkpoint_threshold, slow_queries_count: compile_options_count as i64 }),
{
    PerformanceStats { cache_size, wal_checkpoint_threshold, slow_queries_count: compile_options_count as i64 }
}

/// PostgreSQL figures are not collected: all zero.
pub fn postgres_performance() -> (r: PerformanceStats)
    ensures
        r == (PerformanceStats { cache_size: 0, wal_checkpoint_threshold: 0, slow_queries_count: 0 }),
{
    PerformanceStats { cache_size: 0, wal_checkpoint_threshold: 0, slow_queries_count: 0 }
}

} // verus!
