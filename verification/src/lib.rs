//! Layer stack, input state and event routing of a small windowed
//! application, with every rule stated as a contract and proved.

pub mod application;
pub mod event;
pub mod input;
pub mod keycode;
pub mod layer;
pub mod mousecode;
