//! A text-editing engine: a character document held in a rope, with a caret,
//! a selection anchor, sticky-column vertical movement, word-wise movement and
//! deletion, and viewport scroll tracking; and a small restaurant front of
//! house.

pub mod text;
pub mod rope;
pub mod editor;
pub mod laws;
pub mod restaurant;
