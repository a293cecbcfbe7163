//! A small indexed-triangle renderer, described as the sequences of graphics
//! calls that build its GPU objects, draw one frame, and release them.
//!
//! The library decides every call and every argument; the host program
//! creates the window and object names and hands each call to the driver.

pub mod layout;
pub mod calls;
pub mod mesh;
pub mod shader;
pub mod frame;
