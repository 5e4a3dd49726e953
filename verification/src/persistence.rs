//! Keeping the state of a program, so that it can be taken up again.

use vstd::prelude::*;

use crate::kernel::{FormeError, State};

verus! {

/// Some state, or none, that depends on the place alone, and of which nothing else is known.
pub closed spec fn some_checkpoint<C: ?Sized, S>(place: &C) -> Option<S> {
    (choose|kept: spec_fn(&C) -> Option<S>| #![trigger kept(place)] true)(place)
}

/// Whether `copy` is a clone of what is kept: a clone of the state, or nothing where nothing is.
pub open spec fn cloned_checkpoint<S: State>(kept: Option<S>, copy: Option<S>) -> bool {
    match (kept, copy) {
        (Some(state), Some(same)) => cloned(state, same),
        (None, None) => true,
        _ => false,
    }
}

/// A place for one state: the one that was saved last.
///
/// Saving takes the place exclusively. What a later `load` gives back is thereby what was saved,
/// whoever else knows of the place; one that is to be shared is put behind a lock.
pub trait Checkpointer<S: State>: Send + Sync {
    /// The state that is kept, if there is one.
    open spec fn checkpoint(&self) -> Option<S> {
        some_checkpoint(self)
    }

    /// Keeps `state` in place of what was kept before. A failure is told as
    /// [`FormeError::PersistenceFailed`].
    fn save(&mut self, state: &S) -> (reply: Result<(), FormeError>)
        ensures
            match reply {
                Ok(_) => cloned_checkpoint(Some(*state), final(self).checkpoint()),
                Err(e) => e@ is PersistenceFailed,
            },
    ;

    /// The state that is kept, or `None` where none was saved yet. A failure is told as
    /// [`FormeError::PersistenceFailed`].
    fn load(&self) -> (reply: Result<Option<S>, FormeError>)
        ensures
            match reply {
                Ok(state) => cloned_checkpoint(self.checkpoint(), state),
                Err(e) => e@ is PersistenceFailed,
            },
    ;
}

/// An option keeps a state in memory, and never fails to.
impl<S: State> Checkpointer<S> for Option<S> {
    open spec fn checkpoint(&self) -> Option<S> {
        *self
    }

    fn save(&mut self, state: &S) -> (reply: Result<(), FormeError>)
        ensures
            reply is Ok,
    {
        *self = Some(state.clone());
        Ok(())
    }

    fn load(&self) -> (reply: Result<Option<S>, FormeError>)
        ensures
            reply is Ok,
    {
        match self {
            Some(state) => Ok(Some(state.clone())),
            None => Ok(None),
        }
    }
}

/// What was saved is given back by a `load` that does not fail, where cloning a state does not
/// change it; and before anything was saved, nothing is given back.
pub proof fn load_gives_back_what_was_saved<S: State, C: Checkpointer<S>>(
    place: &C,
    saved: Option<S>,
    reply: Result<Option<S>, FormeError>,
)
    requires
        forall|state: S, copy: S| #[trigger] cloned(state, copy) ==> copy == state,
        cloned_checkpoint(saved, place.checkpoint()),
        call_ensures(<C as Checkpointer<S>>::load, (place,), reply),
    ensures
        match reply {
            Ok(state) => state == saved,
            Err(e) => e@ is PersistenceFailed,
        },
{
}

} // verus!
