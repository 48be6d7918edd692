//! State and rules of a line-oriented chat console: the line editor, the
//! command grammar, the formatting of what arrives, and the geometry of the
//! screen. Everything here is a function from values to values, so that the
//! program around it only reads keys, draws and talks to the network.

pub mod clock;
pub mod command;
pub mod editor;
pub mod inbound;
pub mod laws;
pub mod screen;
pub mod session;
pub mod text;
