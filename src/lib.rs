//! Read-only commit-log queries over a jj repository: a plain-value model of
//! the repository view, the enrichment of each evaluated commit into a
//! self-contained record, and a size-capped, order-preserving commit log.

pub mod ids;
pub mod commit;
pub mod view;
pub mod timestamp;
pub mod log;

pub use commit::Commit;
