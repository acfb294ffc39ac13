//! The decision logic of a small agent-steering simulation: an agent holds a
//! behavior (idle, move to a target, move away from a threat), completes it when
//! its goal is reached, issues guidance commands, and takes new behaviors from
//! selection buttons and change messages.
pub mod behavior;
pub mod messages;
pub mod input;
pub mod ui;
