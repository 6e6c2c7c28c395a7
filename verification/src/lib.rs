//! Project scaffolding: a catalogue of questions, the queue of the choices
//! made, and the ordered effects that each choice has on a new project.

pub mod address;
pub mod catalog;
pub mod executor;
pub mod laws;
pub mod pipeline;
pub mod project;
pub mod protocol;
pub mod registry;
pub mod text;
