//! Turns a one-line free-text description of an event ("Lunch at 1pm",
//! "Welcome Week 9/1-9/8") into an iCalendar event, and reads the
//! properties of such an event back.
//!
//! - `datetime`: calendar dates, clock times and their textual forms.
//! - `text`: whitespace trimming of string slices.
//! - `matching`: the regular-expression operations.
//! - `property`: reading the value out of a rendered property line.
//! - `summary`: the event title left once date and time words are removed.
//! - `timing`: deciding when an event starts and ends.
//! - `event`: building the iCalendar event.
//! - `describe`: an event in words.
//! - `laws`: properties that span several of the functions above.

pub mod datetime;
pub mod text;
pub mod matching;
pub mod property;
pub mod summary;
pub mod timing;
pub mod event;
pub mod describe;
pub mod laws;
mod readback;
