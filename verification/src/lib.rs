//! Typed builders that assemble command lines for PostgreSQL client programs.

pub mod argument;
pub mod command;
pub mod decimal;
pub mod pg_restore;
pub mod traits;
pub mod vacuumlo;
