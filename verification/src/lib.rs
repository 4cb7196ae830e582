pub mod alu;
pub mod decode;
pub mod display;
pub mod display_laws;
pub mod fault;
pub mod flow;
pub mod font;
pub mod keypad;
pub mod laws;
pub mod machine;
mod random;
pub mod render;
pub mod state;
pub mod transfer;

pub use crate::display::{SCREEN_X, SCREEN_Y};
pub use crate::fault::{ErrorKind, Fault, Status};
pub use crate::machine::Core;
