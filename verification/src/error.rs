//! Error types.
//!
//! Three families of failure exist around a bar. Connection-establishment
//! errors are fatal and surface once, at startup, as a [`BarError`].
//! Protocol-request errors during a redraw are recoverable and stay at the
//! executing edge: a failed redraw leaves the previous surface in place and
//! the control loop goes on. Content errors are rejected at construction
//! time as a [`ContentError`].

use vstd::prelude::*;

verus! {

/// Different types of bar creation errors.
#[derive(Clone, Copy, Debug, Eq, Hash, Ord, PartialEq, PartialOrd, Structural)]
pub enum BarErrorKind {
    /// Unable to connect to the display server.
    ConnectionRefused,
    /// No primary output could be found.
    NoPrimaryOutput,
    /// The requested output could not be found.
    OutputNotFound,
}

impl BarErrorKind {
    /// A short description of the error.
    pub fn as_str(&self) -> (r: &'static str)
        ensures
            *self is ConnectionRefused ==> r@ == "Unable to connect to X.Org"@,
            *self is NoPrimaryOutput ==> r@ == "Unable to find primary output (see docs)"@,
            *self is OutputNotFound ==> r@ == "Unable to find specified output"@,
    {
        match *self {
            BarErrorKind::ConnectionRefused => "Unable to connect to X.Org",
            BarErrorKind::NoPrimaryOutput => "Unable to find primary output (see docs)",
            BarErrorKind::OutputNotFound => "Unable to find specified output",
        }
    }
}

/// Bar creation error: anything that went wrong while the bar was being
/// brought up.
#[derive(Clone, Copy, Debug, Eq, Hash, PartialEq, Structural)]
pub struct BarError {
    /// The kind of creation error.
    pub kind: BarErrorKind,
}

impl BarError {
    /// A short description of the error.
    pub fn description(&self) -> (r: &'static str)
        ensures
            self.kind is ConnectionRefused ==> r@ == "Unable to connect to X.Org"@,
            self.kind is NoPrimaryOutput ==> r@ == "Unable to find primary output (see docs)"@,
            self.kind is OutputNotFound ==> r@ == "Unable to find specified output"@,
    {
        self.kind.as_str()
    }
}

impl From<BarErrorKind> for BarError {
    /// Wrap a kind in the error carrier.
    fn from(kind: BarErrorKind) -> (r: BarError)
        ensures
            r == (BarError { kind }),
    {
        BarError { kind }
    }
}

impl vstd::std_specs::convert::FromSpecImpl<BarErrorKind> for BarError {
    open spec fn obeys_from_spec() -> bool {
        true
    }

    open spec fn from_spec(kind: BarErrorKind) -> BarError {
        BarError { kind }
    }
}

/// Content errors: a component handed the bar something it refuses to draw.
#[derive(Clone, Copy, Debug, Eq, Hash, PartialEq, Structural)]
pub enum ContentError {
    /// Text content must not be empty; an empty string is rejected rather
    /// than silently drawn as nothing.
    EmptyText,
}

impl ContentError {
    /// A short description of the error.
    pub fn as_str(&self) -> (r: &'static str)
        ensures
            r@ == "Text content empty"@,
    {
        match *self {
            ContentError::EmptyText => "Text content empty",
        }
    }
}

} // verus!
