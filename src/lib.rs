//! Decision logic of an interactive command picker: the session state, the
//! Search, ParameterInput and Help screens, the controller step that routes
//! one input event, and the substitution of parameter values into a command.
pub mod text;
pub mod command;
pub mod state;
pub mod screens;
pub mod controller;

pub use state::DrawState;
pub use state::State;
