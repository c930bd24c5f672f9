use vstd::prelude::*;

verus! {

/// The error kinds a request can end in.  Every error is local to one
/// request; the dispatcher that sits around the library converts each into a
/// reply message instead of crashing.
#[derive(Debug, Clone, Copy, PartialEq, Eq, Structural)]
pub enum ScheduleError {
    /// The day token matched none of the recognized weekday names.
    UnknownDay,
    /// The remote timetable source was unreachable or returned invalid data.
    RemoteUnavailable,
    /// A set-group argument was outside the allowed value set for its track.
    InvalidGroupValue,
    /// The per-user profile store failed to read or write.
    ProfileStore,
}

} // verus!
