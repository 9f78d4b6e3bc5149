//! A terminal setup wizard: the step state machine, its key dispatch and the
//! text of each frame, with the laws that the navigation obeys.

pub mod step;
pub mod key;
pub mod model;
pub mod wizard;
pub mod laws;
pub mod frame;
