//! Predator–prey population simulation: the parts of it that are proved.
//!
//! `intake` decides which value a prompt yields from the line the user typed;
//! `run` drives a fixed-step integration and records its samples.
pub mod intake;
pub mod run;
