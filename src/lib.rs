// A query service over a tabular execution engine: results are fetched one
// engine batch at a time through cursors named by opaque identifiers.
//
// `registry` owns the open cursors and decides every create and fetch;
// `rows` turns a batch of rendered cells into rows; `naming` keeps the
// qualified name of a registered external table; `model` and `error` hold
// the values that cross the service's boundary.

pub mod error;
pub mod model;
pub mod naming;
pub mod registry;
pub mod rows;
