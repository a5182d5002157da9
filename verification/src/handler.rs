//! The handlers that an application is made of.
use crate::context::Context;
use crate::model::Model;
use crate::status::Error;
use std::sync::Arc;
use vstd::prelude::*;

verus! {

/// What a middleware decides before the rest of the chain has run.
#[derive(Debug)]
pub enum Flow {
    /// Run the rest of the chain, then come back to this middleware.
    Next,
    /// Do not run the rest of the chain; this is the middleware's result.
    Done(Result<(), Error>),
}

/// A middleware: code that runs before the rest of the chain and code
/// that runs after it.
pub trait Handler<M: Model>: Send + Sync {
    /// Whether `before` may turn the context `before` into `after` and
    /// decide `flow`. A middleware that says nothing of itself may do
    /// anything.
    open spec fn enters(&self, before: Context<M>, after: Context<M>, flow: Flow) -> bool {
        true
    }

    /// Whether `after`, given the result `inner` of the rest of the chain,
    /// may turn the context `before` into `after` and return `outcome`. A
    /// middleware that says nothing of itself may do anything.
    open spec fn leaves(
        &self,
        before: Context<M>,
        inner: Result<(), Error>,
        after: Context<M>,
        outcome: Result<(), Error>,
    ) -> bool {
        true
    }

    /// Runs before the rest of the chain.
    fn before(&self, ctx: &mut Context<M>) -> (flow: Flow)
        ensures
            self.enters(*old(ctx), *final(ctx), flow),
    ;

    /// Runs after the rest of the chain, with its result.
    fn after(&self, ctx: &mut Context<M>, inner: Result<(), Error>) -> (outcome: Result<(), Error>)
        ensures
            self.leaves(*old(ctx), inner, *final(ctx), outcome),
    ;
}

/// The last handler of every chain: it does nothing and succeeds.
pub struct Last;

impl<M: Model> Handler<M> for Last {
    open spec fn enters(&self, before: Context<M>, after: Context<M>, flow: Flow) -> bool {
        after == before && flow == Flow::Done(Ok::<(), Error>(()))
    }

    open spec fn leaves(
        &self,
        before: Context<M>,
        inner: Result<(), Error>,
        after: Context<M>,
        outcome: Result<(), Error>,
    ) -> bool {
        after == before && outcome == inner
    }

    fn before(&self, ctx: &mut Context<M>) -> (flow: Flow) {
        Flow::Done(Ok(()))
    }

    fn after(&self, ctx: &mut Context<M>, inner: Result<(), Error>) -> (outcome: Result<(), Error>) {
        inner
    }
}

/// The rest of a chain: the handlers from `cursor` on, of `len` in all,
/// and behind them the last handler.
#[derive(Clone, Copy, Debug, PartialEq, Eq, Structural)]
pub struct Next {
    /// The place of the handler that runs next.
    pub cursor: usize,
    /// The number of handlers in the chain.
    pub len: usize,
}

/// What invoking the rest of a chain leads to.
#[derive(Clone, Copy, Debug, PartialEq, Eq, Structural)]
pub enum Step {
    /// The handler at this place runs, with this rest behind it.
    Handler(usize, Next),
    /// No handler is left: the last handler runs.
    Last,
}

impl Next {
    /// The whole of a chain of `len` handlers.
    pub fn first(len: usize) -> (next: Next)
        ensures
            next == (Next { cursor: 0, len }),
    {
        Next { cursor: 0, len }
    }

    /// Invokes the rest of the chain: the handler at the cursor together
    /// with the rest behind it, or the last handler where none is left.
    pub fn invoke(self) -> (step: Step)
        ensures
            step == if self.cursor < self.len {
                Step::Handler(
                    self.cursor,
                    Next { cursor: (self.cursor + 1) as usize, len: self.len },
                )
            } else {
                Step::Last
            },
    {
        if self.cursor < self.len {
            Step::Handler(self.cursor, Next { cursor: self.cursor + 1, len: self.len })
        } else {
            Step::Last
        }
    }
}

/// A middleware behind a pointer, as a chain holds it.
#[verifier::reject_recursive_types(M)]
pub struct DynHandler<M: Model> {
    /// The middleware.
    pub handler: Box<dyn Handler<M>>,
}

/// The middleware of an application, in the order they were joined: the
/// first is the outermost.
#[verifier::reject_recursive_types(M)]
pub struct Middleware<M: Model> {
    handlers: Vec<Arc<DynHandler<M>>>,
}

impl<M: Model> View for Middleware<M> {
    type V = Seq<DynHandler<M>>;

    closed spec fn view(&self) -> Seq<DynHandler<M>> {
        Seq::new(self.handlers@.len(), |i: int| *self.handlers@[i])
    }
}

/// `Arc::clone`: another pointer to the value that `shared` points to.
#[verifier::external_body]
pub(crate) fn share<T>(shared: &Arc<T>) -> (other: Arc<T>)
    ensures
        other == *shared,
{
    Arc::clone(shared)
}

/// One layer of a run: the `i`-th handler enters at `before` and leaves
/// the context `entered`. If it asks for the rest of the chain, it is given
/// the context `inner` and the result `result` when the rest has run, and
/// leaves at `after` with `outcome`. If not, what it decided is the outcome
/// and the context stays as it left it.
pub open spec fn wraps<M: Model>(
    handlers: Seq<DynHandler<M>>,
    i: int,
    before: Context<M>,
    entered: Context<M>,
    flow: Flow,
    inner: Context<M>,
    result: Result<(), Error>,
    after: Context<M>,
    outcome: Result<(), Error>,
) -> bool {
    &&& handlers[i].handler.enters(before, entered, flow)
    &&& match flow {
        Flow::Next => handlers[i].handler.leaves(inner, result, after, outcome),
        Flow::Done(decided) => after == entered && outcome == decided,
    }
}

/// Whether the handlers from the `i`-th on, run around the last handler,
/// which does nothing and succeeds, may turn the context `before` into
/// `after` with the result `outcome`. The `i`-th handler runs first; the
/// rest run where it asks for them, and it gets their result.
pub open spec fn runs<M: Model>(
    handlers: Seq<DynHandler<M>>,
    i: int,
    before: Context<M>,
    after: Context<M>,
    outcome: Result<(), Error>,
) -> bool
    decreases handlers.len() - i,
{
    if 0 <= i < handlers.len() {
        exists|entered: Context<M>, flow: Flow, inner: Context<M>, result: Result<(), Error>|
            #![trigger wraps(handlers, i, before, entered, flow, inner, result, after, outcome)]
            {
                &&& wraps(handlers, i, before, entered, flow, inner, result, after, outcome)
                &&& flow is Next ==> runs(handlers, i + 1, entered, inner, result)
            }
    } else {
        after == before && outcome == Ok::<(), Error>(())
    }
}

impl<M: Model> Middleware<M> {
    /// A chain without middleware.
    pub fn new() -> (chain: Self)
        ensures
            chain@.len() == 0,
    {
        Middleware { handlers: Vec::new() }
    }

    /// Puts `handler` behind the middleware joined so far.
    pub fn join(&mut self, handler: DynHandler<M>)
        ensures
            final(self)@ == old(self)@.push(handler),
    {
        self.handlers.push(Arc::new(handler));
        assert(self@ =~= old(self)@.push(handler));
    }

    /// The number of middleware.
    pub fn len(&self) -> (n: usize)
        ensures
            n == self@.len(),
    {
        self.handlers.len()
    }

    /// Runs the chain on `ctx`, around the last handler: the `before` of
    /// each middleware in the order in which they were joined, until one
    /// does not ask for the rest or none is left; then the `after` of each
    /// that asked, in the reverse order, each with the result of what ran
    /// inside it.
    pub fn run(&self, ctx: &mut Context<M>) -> (outcome: Result<(), Error>)
        ensures
            runs(self@, 0, *old(ctx), *final(ctx), outcome),
            self@.len() == 0 ==> outcome is Ok && *final(ctx) == *old(ctx),
    {
        let n: usize = self.handlers.len();
        let mut outcome: Result<(), Error> = Ok(());
        let mut stopped: bool = false;
        let mut next = Next::first(n);
        let mut i: usize = 0;
        let ghost mut downs: Seq<Context<M>> = seq![*ctx];
        while !stopped
            invariant
                n == self.handlers@.len(),
                n == self@.len(),
                i <= n,
                !stopped ==> next == (Next { cursor: i, len: n }),
                downs.len() == i + 1,
                downs[0] == *old(ctx),
                forall|j: int|
                    0 <= j < i ==> self@[j].handler.enters(
                        downs[j],
                        #[trigger] downs[j + 1],
                        Flow::Next,
                    ),
                i < n ==> stopped ==> self@[i as int].handler.enters(
                    downs[i as int],
                    *ctx,
                    Flow::Done(outcome),
                ),
                i == n || !stopped ==> downs[i as int] == *ctx && outcome == Ok::<(), Error>(()),
            decreases n - i + (if stopped { 0int } else { 1int }),
        {
            match next.invoke() {
                Step::Handler(index, rest) => {
                    let flow = self.handlers[index].handler.before(ctx);
                    match flow {
                        Flow::Next => {
                            proof {
                                downs = downs.push(*ctx);
                            }
                            next = rest;
                            i = i + 1;
                        },
                        Flow::Done(decided) => {
                            outcome = decided;
                            stopped = true;
                        },
                    }
                },
                Step::Last => {
                    if let Flow::Done(decided) = Last.before(ctx) {
                        outcome = decided;
                    }
                    stopped = true;
                },
            }
        }
        proof {
            if i < n {
                assert(wraps(
                    self@,
                    i as int,
                    downs[i as int],
                    *ctx,
                    Flow::Done(outcome),
                    *ctx,
                    outcome,
                    *ctx,
                    outcome,
                ));
            }
        }
        while i > 0
            invariant
                n == self.handlers@.len(),
                n == self@.len(),
                i <= n,
                downs.len() > i,
                downs[0] == *old(ctx),
                forall|j: int|
                    0 <= j < i ==> self@[j].handler.enters(
                        downs[j],
                        #[trigger] downs[j + 1],
                        Flow::Next,
                    ),
                runs(self@, i as int, downs[i as int], *ctx, outcome),
            decreases i,
        {
            i = i - 1;
            let ghost inner = *ctx;
            let ghost result = outcome;
            outcome = self.handlers[i].handler.after(ctx, outcome);
            proof {
                assert(self@[i as int].handler.enters(downs[i as int], downs[i + 1], Flow::Next));
                assert(wraps(
                    self@,
                    i as int,
                    downs[i as int],
                    downs[i + 1],
                    Flow::Next,
                    inner,
                    result,
                    *ctx,
                    outcome,
                ));
            }
        }
        outcome
    }
}

impl<M: Model> Clone for Middleware<M> {
    /// The same chain once more; the middleware themselves are shared.
    fn clone(&self) -> (copy: Self)
        ensures
            copy@ == self@,
    {
        let n: usize = self.handlers.len();
        let mut handlers: Vec<Arc<DynHandler<M>>> = Vec::new();
        let mut i: usize = 0;
        while i < n
            invariant
                n == self.handlers@.len(),
                i <= n,
                handlers@.len() == i,
                forall|j: int| 0 <= j < i ==> *handlers@[j] == *self.handlers@[j],
            decreases n - i,
        {
            handlers.push(share(&self.handlers[i]));
            i = i + 1;
        }
        let copy = Middleware { handlers };
        assert(copy@ =~= self@);
        copy
    }
}

} // verus!
