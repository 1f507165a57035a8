//! Singly linked containers built from heap-allocated nodes, each node owned
//! by its predecessor and the first node owned by the container.
//!
//! - `first`: a stack of `i32` over its own node type.
//! - `second`: a generic stack, with peeking and owning and shared iteration.
//! - `fifth`: a generic queue, with peeking and owning, shared and mutable
//!   iteration.
//! - `model`: what pushes and pops do to a container's elements, and the
//!   laws of the containers.
//!
//! Every container frees its nodes in a loop, one at a time, so that
//! dropping a long chain takes no more stack than dropping a short one.

mod chain;
pub mod model;
pub mod first;
pub mod second;
pub mod fifth;
