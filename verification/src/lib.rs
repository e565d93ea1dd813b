//! Verified core of a web view embedded in a game-engine node: the queue of
//! signal events shared with the browser engine's delegates, the translation of
//! engine key codes and input gestures, the replies to pending embedder
//! controls, and the decisions of the browser node's lifecycle.

pub mod input_map;
pub mod shared;
pub mod signals;
pub mod delegate;
pub mod controls;
pub mod browser;
