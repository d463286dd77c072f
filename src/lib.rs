//! Input mapping, a dirty-flag cache and mesh assembly for a small
//! OpenGL viewer. Floating-point camera math lives with the host program;
//! everything here is integer or type-generic and carries a contract.

pub mod cache;
pub mod keymap;
pub mod mesh;
