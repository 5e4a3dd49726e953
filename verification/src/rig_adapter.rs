//! The language model behind one call: prompt and context in, completion out.

use std::fmt;
use std::sync::Arc;

use vstd::prelude::*;

use crate::kernel::{Event, FormeError, FormeErrorView};
use crate::show::{debug_struct, finish_non_exhaustive};
use crate::text::IntoText;

verus! {

/// A language model. `E` is there for programs that want one model per kind of event.
pub trait LlmAdapter<E: Event>: Send + Sync {
    /// Whether the model may answer `reply` to a prompt and a context; a model that does not say
    /// may answer anything.
    open spec fn replies(
        &self,
        prompt: String,
        context: String,
        reply: Result<String, FormeError>,
    ) -> bool {
        true
    }

    /// Asks the model.
    fn call(&self, prompt: String, context: String) -> (reply: Result<String, FormeError>)
        ensures
            self.replies(prompt, context, reply),
    ;
}

/// What a [`MockLlm`] does with a prompt and a context.
trait Handler: Send + Sync {
    /// Whether the handler may answer `reply`.
    spec fn may(&self, prompt: String, context: String, reply: Result<String, FormeError>) -> bool;

    /// The answer.
    fn handle(&self, prompt: String, context: String) -> (reply: Result<String, FormeError>)
        ensures
            self.may(prompt, context, reply),
    ;
}

/// Answers what a function makes of the prompt and the context.
struct Custom<F: Fn(String, String) -> Result<String, FormeError>> {
    func: F,
}

impl<F: Fn(String, String) -> Result<String, FormeError>> Custom<F> {
    /// The function takes every prompt and every context.
    #[verifier::type_invariant]
    spec fn total(self) -> bool {
        forall|prompt: String, context: String| #[trigger]
            call_requires(self.func, (prompt, context))
    }
}

impl<F: Fn(String, String) -> Result<String, FormeError> + Send + Sync> Handler for Custom<F> {
    closed spec fn may(
        &self,
        prompt: String,
        context: String,
        reply: Result<String, FormeError>,
    ) -> bool {
        call_ensures(self.func, (prompt, context), reply)
    }

    fn handle(&self, prompt: String, context: String) -> (reply: Result<String, FormeError>) {
        proof {
            use_type_invariant(self);
        }
        (self.func)(prompt, context)
    }
}

/// A model for tests and examples, whose answers are made up when it is made.
///
/// Clones share the handler.
pub struct MockLlm {
    handler: Arc<Box<dyn Handler>>,
}

impl MockLlm {
    /// Whether the mock may answer `reply` to a prompt and a context.
    pub closed spec fn may(
        &self,
        prompt: String,
        context: String,
        reply: Result<String, FormeError>,
    ) -> bool {
        self.handler.may(prompt, context, reply)
    }

    /// The mock that answers the empty text.
    pub fn new() -> (llm: Self)
        ensures
            forall|prompt: String, context: String, reply: Result<String, FormeError>| #[trigger]
                llm.may(prompt, context, reply) ==> (reply matches Ok(s) && s@ == Seq::<
                    char,
                >::empty()),
    {
        proof {
            reveal_strlit("");
            assert(""@ =~= Seq::<char>::empty());
        }
        MockLlm::with_response("")
    }

    /// The mock that always answers `response`.
    pub fn with_response<T: IntoText>(response: T) -> (llm: Self)
        ensures
            forall|prompt: String, context: String, reply: Result<String, FormeError>| #[trigger]
                llm.may(prompt, context, reply) ==> (reply matches Ok(s) && s@
                    == response.text()),
    {
        let text = response.into_text();
        let answer = move |prompt: String, context: String| -> (reply: Result<String, FormeError>)
            ensures
                reply matches Ok(s) && s@ == text@,
            { Ok(text.clone()) };
        MockLlm::with_fn(answer)
    }

    /// The mock that answers what `func` makes of the prompt and the context.
    pub fn with_fn<F>(func: F) -> (llm: Self) where
        F: Fn(String, String) -> Result<String, FormeError> + Send + Sync + 'static,

        requires
            forall|prompt: String, context: String| #[trigger]
                call_requires(func, (prompt, context)),
        ensures
            forall|prompt: String, context: String, reply: Result<String, FormeError>| #[trigger]
                llm.may(prompt, context, reply) <==> call_ensures(func, (prompt, context), reply),
    {
        let custom = Custom { func };
        let boxed: Box<dyn Handler> = Box::new(custom);
        assert(forall|prompt: String, context: String, reply: Result<String, FormeError>| #[trigger]
            boxed.may(prompt, context, reply) == call_ensures(func, (prompt, context), reply));
        let shared = Arc::new(boxed);
        assert(forall|prompt: String, context: String, reply: Result<String, FormeError>| #[trigger]
            shared.may(prompt, context, reply) == call_ensures(func, (prompt, context), reply));
        MockLlm { handler: shared }
    }

    /// The mock that always fails, with [`FormeError::LlmFailed`] and the reason given.
    pub fn with_error<T: IntoText>(reason: T) -> (llm: Self)
        ensures
            forall|prompt: String, context: String, reply: Result<String, FormeError>| #[trigger]
                llm.may(prompt, context, reply) ==> (reply matches Err(e) && e@
                    == FormeErrorView::LlmFailed(reason.text())),
    {
        let why = reason.into_text();
        let answer = move |prompt: String, context: String| -> (reply: Result<String, FormeError>)
            ensures
                reply matches Err(e) && e@ == FormeErrorView::LlmFailed(why@),
            { Err(FormeError::LlmFailed(why.clone())) };
        MockLlm::with_fn(answer)
    }
}

/// Shows a mock as `MockLlm { .. }`.
impl fmt::Debug for MockLlm {
    fn fmt(&self, f: &mut fmt::Formatter<'_>) -> (reply: fmt::Result) {
        let mut shown = debug_struct(f, "MockLlm");
        finish_non_exhaustive(&mut shown)
    }
}

impl Default for MockLlm {
    fn default() -> (llm: Self)
        ensures
            forall|prompt: String, context: String, reply: Result<String, FormeError>| #[trigger]
                llm.may(prompt, context, reply) ==> (reply matches Ok(s) && s@ == Seq::<
                    char,
                >::empty()),
    {
        MockLlm::new()
    }
}

impl Clone for MockLlm {
    fn clone(&self) -> (llm: Self)
        ensures
            llm == *self,
    {
        MockLlm { handler: self.handler.clone() }
    }
}

impl<E: Event> LlmAdapter<E> for MockLlm {
    open spec fn replies(
        &self,
        prompt: String,
        context: String,
        reply: Result<String, FormeError>,
    ) -> bool {
        self.may(prompt, context, reply)
    }

    fn call(&self, prompt: String, context: String) -> (reply: Result<String, FormeError>) {
        self.handler.handle(prompt, context)
    }
}

} // verus!
