//! A foreign-data adapter that reads a paginated JSON collection endpoint
//! and hands its records to a query engine as typed rows.
//!
//! - `json`: the JSON values that the endpoint answers with, parsed and
//!   printed by serde_json.
//! - `page`: one page of the collection, and the walk that follows the
//!   continuation cursor until the last page.
//! - `projection`: the conversion of a record into a row of typed cells.
//! - `fdw`: the adapter's lifecycle, from its options to the last row.
//! - `error`: what the adapter reports when something fails.
pub mod error;
pub mod fdw;
pub mod json;
pub mod page;
pub mod projection;
