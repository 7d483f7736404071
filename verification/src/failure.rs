//! What can go wrong, and what follows from it.
//!
//! Only a bad item of a source is passed over. Everything else ends the
//! process: a display that shows a stale frame cannot be told from one that
//! works, so the way back is a restart.

use crate::notification::SourceError;
use crate::screen::OpenError;
use crate::text::RenderFailure;
use vstd::prelude::*;

verus! {

/// The exit status of a process that ends on a failure.
pub const FATAL_EXIT_STATUS: i32 = 1;

/// Anything that can go wrong while the display is driven.
#[derive(Clone, Copy, Debug, PartialEq, Eq)]
pub enum Failure {
    /// A source yielded an item that is no notification.
    Source(SourceError),
    /// The connection to the desktop bus ended.
    ConnectionLost,
    /// The display could not be opened.
    Open(OpenError),
    /// An item could not be drawn.
    Render(RenderFailure),
    /// A frame could not be sent to the display.
    Write,
}

impl Failure {
    /// Whether the failure ends the process: every failure does but a bad
    /// item of a source.
    pub open spec fn spec_is_fatal(&self) -> bool {
        !(self is Source)
    }

    /// Whether the failure ends the process.
    #[verifier::when_used_as_spec(spec_is_fatal)]
    pub fn is_fatal(&self) -> (fatal: bool)
        ensures
            fatal == self.is_fatal(),
    {
        match self {
            Failure::Source(_) => false,
            _ => true,
        }
    }

    /// The status with which the process ends on this failure, if it ends:
    /// never zero.
    pub fn exit_status(&self) -> (status: Option<i32>)
        ensures
            status == (if self.is_fatal() {
                Some(1i32)
            } else {
                None
            }),
            status != Some(0i32),
    {
        if self.is_fatal() {
            Some(FATAL_EXIT_STATUS)
        } else {
            None
        }
    }
}

} // verus!
