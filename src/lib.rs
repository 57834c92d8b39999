//! A single-tape Turing machine simulator: machine descriptions and their
//! validation, an immutable tape, and a step-by-step simulator whose runs
//! end in acceptance or rejection.
pub mod simulator;
pub mod tape;
pub mod types;
pub mod validator;
