//! What the operations of the library are for, as laws: what must hold of every
//! result, and how the results of several operations belong together. They are stated
//! over the inputs and the fields of the states, so that each stands on its own.

pub mod capture;
pub mod compositor;
pub mod cursor;
pub mod effects;
pub mod recording;
pub mod values;
