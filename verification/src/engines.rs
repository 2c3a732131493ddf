//! The engines of all windows.

use std::collections::HashMap;
use std::sync::Arc;
use vstd::prelude::*;

verus! {

broadcast use vstd::std_specs::hash::group_hash_axioms;

/// The engine of each window, by the address of the window.
pub struct Engines<E> {
    by_window: HashMap<usize, Arc<E>>,
}

impl<E> View for Engines<E> {
    type V = Map<usize, Arc<E>>;

    closed spec fn view(&self) -> Map<usize, Arc<E>> {
        self.by_window@
    }
}

impl<E> Engines<E> {
    /// Returns a registry without engines.
    pub fn new() -> (engines: Self)
        ensures
            engines@ == Map::<usize, Arc<E>>::empty(),
    {
        Engines { by_window: HashMap::new() }
    }

    /// Makes `engine` the engine of `window`, in place of any that it had.
    pub(crate) fn register(&mut self, window: usize, engine: Arc<E>)
        ensures
            final(self)@ == old(self)@.insert(window, engine),
    {
        self.by_window.insert(window, engine);
    }

    /// Leaves `window` without an engine.
    pub(crate) fn unregister(&mut self, window: usize)
        ensures
            final(self)@ == old(self)@.remove(window),
    {
        self.by_window.remove(&window);
    }
}

/// The engine of `window` among `engines`, if it has one.
pub open spec fn engine_of<E>(engines: Map<usize, Arc<E>>, window: usize) -> Option<Arc<E>> {
    if engines.contains_key(window) {
        Some(engines[window])
    } else {
        None
    }
}

/// Returns the engine of `window`, if it has one.
pub fn get_engine<E>(engines: &Engines<E>, window: usize) -> (engine: Option<Arc<E>>)
    ensures
        engine == engine_of(engines@, window),
{
    match engines.by_window.get(&window) {
        Some(engine) => Some(engine.clone()),
        None => None,
    }
}

} // verus!
