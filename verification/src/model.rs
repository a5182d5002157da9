//! The application's model: what every request shares, and the state that
//! each request gets from it.
use vstd::prelude::*;

verus! {

/// The long-lived configuration of an application. Each request gets a
/// state of its own from it.
pub trait Model {
    /// The state that one request works on.
    type State;

    /// Whether `new_state` may return `state`. A model that says nothing
    /// of itself may return any state.
    open spec fn makes(&self, state: Self::State) -> bool {
        true
    }

    /// The state for a new request.
    fn new_state(&self) -> (state: Self::State)
        ensures
            self.makes(state),
    ;
}

impl Model for () {
    type State = ();

    fn new_state(&self) -> (state: ()) {
        ()
    }
}

} // verus!
