//! Frame composition for the 128 by 40 monochrome display of a keyboard.
//!
//! Two kinds of content are shown: desktop notifications, as they are
//! published on the session bus, and system metrics, sampled once a second.
//! Each is drawn on a bit-packed frame, which is handed to the device whole.
//!
//! - [`framebuffer`]: the canvas and its wire layout.
//! - [`text`]: text on the canvas, with glyphs from `embedded-graphics`.
//! - [`notification`], [`sysinfo`]: the two kinds of content and their layouts.
//! - [`screen`]: the choice of the device and the frame that it shows.
//! - [`source`]: the bounded queue in which notifications wait.
//! - [`scheduler`]: what is shown next, and for how long.
//! - [`failure`]: which failures end the process.

pub mod failure;
pub mod framebuffer;
pub mod notification;
pub mod scheduler;
pub mod screen;
pub mod source;
pub mod sysinfo;
pub mod text;
