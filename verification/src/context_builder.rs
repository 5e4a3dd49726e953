//! Context text for a call of the language model, built from the event and the recent history.

use vstd::prelude::*;

use crate::kernel::{Event, FormeError};

verus! {

/// Builds the context text of an event.
pub trait ContextBuilder<E: Event>: Send + Sync {
    /// Whether the builder may answer `reply` for `event` with the events `history` before it; a
    /// builder that does not say may answer anything.
    open spec fn composes(
        &self,
        event: &E,
        history: Seq<E>,
        reply: Result<String, FormeError>,
    ) -> bool {
        true
    }

    /// Builds the context of `event`; `history` holds the events before it, as many of them as
    /// the caller chose to keep. A failure is told as [`FormeError::ContextBuildFailed`].
    fn build(&self, event: &E, history: &[E]) -> (reply: Result<String, FormeError>)
        ensures
            self.composes(event, history@, reply),
            reply matches Err(e) ==> e@ is ContextBuildFailed,
    ;
}

/// A builder that adds no context: its text is always empty.
#[derive(Debug, Clone, Copy, PartialEq, Eq, Default)]
pub struct NoopBuilder;

impl<E: Event> ContextBuilder<E> for NoopBuilder {
    open spec fn composes(
        &self,
        event: &E,
        history: Seq<E>,
        reply: Result<String, FormeError>,
    ) -> bool {
        reply matches Ok(s) && s@ == Seq::<char>::empty()
    }

    fn build(&self, event: &E, history: &[E]) -> (reply: Result<String, FormeError>) {
        Ok(String::new())
    }
}

} // verus!
