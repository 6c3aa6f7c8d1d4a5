//! Values, records and cursors of a row-oriented query engine.
//!
//! - `value`: borrowed and owned cells, aggregate states, conversions.
//! - `arith`: the numeric coercion table for addition and division.
//! - `record`: rows with a per-column decode cache filled on first access.
//! - `cursor`: the protocol by which an executor drives row sources and sinks.
//! - `sorter`: a cursor that buffers rows under a key and replays them.
pub mod arith;
pub mod cursor;
pub mod record;
pub mod sorter;
pub mod value;
