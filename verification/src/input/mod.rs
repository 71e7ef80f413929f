//! Keyboard input: key identities, the keyboard state of one frame, and the
//! navigation input router with its mode stack.
pub mod keys;

pub mod nav_input;
