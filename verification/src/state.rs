//! The state shared between the API layer and the engine.

use vstd::prelude::*;
use crate::engine::Engine;
use crate::service::SharedServiceErrors;

verus! {

/// The engine together with the service error board. One owner mutates
/// it; callers reach the engine through it.
pub struct SharedState {
    pub engine: Engine,
    pub se: SharedServiceErrors,
}

impl SharedState {
    /// Bundles an engine with the error board.
    pub fn new(engine: Engine, se: SharedServiceErrors) -> (s: SharedState)
        ensures
            s.engine == engine,
            s.se == se,
    {
        SharedState { engine, se }
    }

    /// The engine this state carries.
    pub fn engine(&self) -> (r: &Engine)
        ensures
            *r == self.engine,
    {
        &self.engine
    }
}

} // verus!
