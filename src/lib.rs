//! Musical bindings: a microphone-driven control loop that feeds pitch
//! features to a user script, which in turn requests synthetic key input
//! guarded by the focused application window.
//!
//! This crate holds the verified decision logic: the rolling sample window,
//! the focus guard, the key-dispatch rules, the control-loop state machine,
//! the repeating timer and script loading.
pub mod binding;
pub mod control;
pub mod focus;
pub mod keys;
pub mod repeat_timer;
pub mod text;
pub mod window;
