//! A collector that samples blockchain metadata and a market price on a fixed
//! interval and appends each merged observation to a relational table.
//!
//! The library holds the verified decisions of that collector: decoding the
//! fetched payloads into snapshots, merging two snapshots into one row, the
//! schema and its additive migrations, the SQL text that carries them, and the
//! scheduler that decides what each cycle does next. Network, database and
//! timer work is performed by the caller, which feeds the outcomes back in.

pub mod snapshot;
pub mod text;
pub mod schema;
pub mod scheduler;
