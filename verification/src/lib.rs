//! Persistence helper for a single `items` table: the rules for opening a
//! session, inserting a timestamped row and looking up the largest id, with
//! the storage driver itself left to the caller.
//!
//! - [`db_functions`]: the three operations and what each makes of the
//!   driver's answer.
//! - [`db_models`]: the persisted entity and the row that an insert hands over.
//! - [`db_errors`]: the failures, one variant per kind.
//! - [`db_bench`]: the ids of a run of inserts that starts from the largest id.

pub mod db_bench;
pub mod db_errors;
pub mod db_functions;
pub mod db_models;
