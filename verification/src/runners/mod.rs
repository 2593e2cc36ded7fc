pub mod mqtt;

use vstd::prelude::*;

verus! {

/// A network publication handed from the core to a runner.
#[derive(Debug)]
pub struct NetworkAction {
    pub topic: String,
    pub payload: String,
}

} // verus!
