//! The storage engine's core: the schema model, the row model, and the
//! typed value model, together with the engine handle that owns the
//! accumulation state.

pub mod json;
pub mod schema;
pub mod value;

use vstd::prelude::*;
use crate::accumulator::Accumulator;
use crate::engine::schema::Schema;

verus! {

/// The storage engine: owns the accumulation state for one schema.
pub struct Engine {
    pub accumulator: Accumulator,
}

impl Engine {
    /// An engine with an empty accumulation window for the schema.
    pub fn new(schema: Schema) -> (e: Engine)
        requires
            schema.wf(),
        ensures
            e.accumulator.wf(),
            e.accumulator.schema == schema,
            e.accumulator.rows_count == 0,
    {
        Engine { accumulator: Accumulator::new(schema) }
    }
}

} // verus!
