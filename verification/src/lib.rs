//! Bootstrap of a hardware-accelerated OpenGL rendering context on the
//! Win32 windowing system, as a set of verified decisions.
//!
//! The platform is reached only by the program around this library: it
//! performs each request the library issues and hands the answer back as a
//! plain value. Everything that is decided between two platform calls is
//! decided here, and stated in contracts.
//!
//! - `format`: the pixel format descriptor, and the basic format.
//! - `attributes`: the attribute list of the format that is negotiated.
//! - `symbols`: resolution of entry points, first source first.
//! - `surface`: window classes, message handlers, teardown of a window.
//! - `table`: the windows a thread owns, found by handle.
//! - `negotiator`: the two-phase bootstrap, one request at a time.
//! - `runs`: what holds of every run of the bootstrap, and its driver.
//! - `platform`: the trait a platform's window type implements.

pub mod attributes;
pub mod format;
pub mod negotiator;
pub mod platform;
pub mod runs;
pub mod surface;
pub mod symbols;
pub mod table;
