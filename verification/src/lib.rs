//! A verified model of a pipeline that copies a fixed-schema, tab-separated
//! log of SQL executions into a columnar container file.
//!
//! The library holds everything about the pipeline that can be decided on
//! plain values: the fixed sixteen-column schema, the rule that turns a raw
//! text cell into a value or a null, the running row counter with its
//! progress and summary lines, and the state machine that orders the run
//! (source before destination, no finalization after a parse error). The
//! surrounding program performs the file reads and writes and feeds each
//! outcome back into the state machine.

pub mod decimal;
pub mod messages;
pub mod pipeline;
pub mod rows;
pub mod schema;
