use vstd::prelude::*;

pub mod proximity;

verus! {

/// Which front end the program runs: a live desktop-notification watcher
/// or a tabular console monitor.
#[derive(Debug, Clone, Copy, PartialEq, Eq, Structural)]
pub enum Mode {
    Monitor,
    Nearby,
}

} // verus!
