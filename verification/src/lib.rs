//! Core logic of a two-phase interactive narrative: a dialogue state machine
//! that walks a branching scene graph, and a recipe-resolution engine that
//! maps a pair of selected ingredients to a crafted result with trait deltas.
//! The trait deltas of the most recent combination choose the next dialogue
//! scene. Rendering and input handling live outside this crate; the library
//! only works on plain values (scene ids, frame indices, ingredient ids,
//! asset paths and text).

pub mod cooking;
pub mod dialogue;
pub mod numeral;
