use vstd::prelude::*;

verus! {

/// What a condition may consult while it is evaluated.
pub trait Context {
}

/// The context that holds no data.
#[derive(Clone, Copy, Debug)]
pub struct NullContext;

impl Context for NullContext {
}

} // verus!
