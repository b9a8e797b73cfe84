//! Turns an Xbox 360 controller into a keyboard.
//!
//! - [`xkey`]: the keyboard: chords of the controller select characters
//!   and editing macros, and the keys to type come out when the controller
//!   returns to rest; [`xkey::xboxcontroller`] decodes the controller's
//!   input reports and holds the chord table.
//! - [`poised`]: a simpler layout where a chord selects one character.
//! - [`reader`]: plain access to the decoded inputs.

pub mod xkey;
pub mod poised;
pub mod reader;
