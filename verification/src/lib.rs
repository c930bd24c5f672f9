//! Timetable resolution and presentation logic for a class-schedule chat bot.
//!
//! The library maps a day token (an English or Russian weekday name, or the
//! current date) to a weekday, filters a day's lesson list by the caller's
//! group profile, and renders lessons as display text with next-lesson lookup.

use vstd::prelude::*;

pub mod error;
pub mod groups;
pub mod lesson;
pub mod text;
pub mod weekday;

verus! {

} // verus!
