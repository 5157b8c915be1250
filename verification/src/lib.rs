//! Navigation and log browsing for a terminal client of a cloud function's
//! execution logs.
//!
//! The library is the part of the client that decides: which screen is
//! shown, which entries a filter keeps, where the cursor and the two
//! viewports stand. It reads no key, draws nothing and fetches nothing; its
//! caller hands it events and performs the actions that it answers with.
//!
//! - [`text`]: keyword matching and the lines of a plain text.
//! - [`document`]: JSON messages and their pretty-printed lines.
//! - [`entry`]: a log entry with the layout of its message.
//! - [`filter`]: the filtered view of a list, and what holds of it.
//! - [`entry_list`]: the lists of profiles and of functions.
//! - [`date_selection`]: the range selector.
//! - [`log_viewer`]: the log browser.
//! - [`navigation`]: the controller that leads from screen to screen.
//!
//! Each stateful component comes as a mathematical model, with the laws
//! that are proved of it, and an executable type whose operations are
//! proved to follow the model.

pub mod bounds;
pub mod date_selection;
pub mod document;
pub mod entry;
pub mod entry_list;
pub mod filter;
pub mod log_viewer;
pub mod navigation;
pub mod text;
