//! Computational-graph layers for a feed-forward classifier: matrix shapes,
//! the cached state of each layer between its forward and backward passes,
//! and the routing of gradients through them.

pub mod error;
pub mod matrix;
pub mod layers;
