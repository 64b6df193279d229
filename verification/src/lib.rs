//! Asynchronous resource-state core: a typed promise container keyed by a
//! request value, pure projections for mounting it inside a larger state
//! tree, a state-driven view selector, and the dispatch protocol that
//! creates, reconciles, and observes promises without blocking the owner
//! thread.

pub mod bridge;
pub mod ctx;
pub mod data;
pub mod lens;
pub mod menu;
pub mod promise;
pub mod render;
pub mod show;
