//! One module per object kind: its state, its factory and its behaviour.

pub mod balloon;
pub mod chest;
pub mod fruit;
pub mod platform;
pub mod player;
pub mod smoke;
