//! The error taxonomy of the library.
//!
//! Registry operations report the specific misuse (`DuplicateName`,
//! `NotFound`, `ActiveModeInUse`, `AlreadyActive`), the event pump reports a
//! missing active mode, the dispatcher reports an event that matches no
//! category, and configuration loading reports I/O and format failures.

use vstd::prelude::*;

verus! {

#[derive(Clone, Copy, Debug, PartialEq, Eq, Structural)]
pub enum CoreError {
    /// `add` was given a name that is already registered.
    DuplicateName,
    /// The named mode is not registered.
    NotFound,
    /// `remove` was given the name of the currently active mode.
    ActiveModeInUse,
    /// `activate` was given the name of the mode that is already active.
    AlreadyActive,
    /// The pump was started with no active mode.
    NoActiveMode,
    /// No mode was active when an event had to be handled.
    NoActiveModeDuringEvent,
    /// The event matched none of the known categories.
    UnclassifiedEvent,
    /// A configuration source could not be read.
    ExternalIo,
    /// A configuration source could not be parsed.
    ExternalFormat,
}

} // verus!
