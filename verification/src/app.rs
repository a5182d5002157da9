//! The application: its middleware, its status handler and its model.
use crate::context::{Context, RemoteAddr};
use crate::handler::{runs, share, DynHandler, Middleware};
use crate::message::{Request, Response, ResponseView};
use crate::model::Model;
use crate::status::{Error, ErrorKind, StatusCode};
use std::sync::Arc;
use vstd::prelude::*;
use vstd::utf8::encode_utf8;

verus! {

/// What is done with an error that the chain did not catch.
pub trait StatusHandler<M: Model>: Send + Sync {
    /// Whether `handle`, given `error`, may turn the context `before` into
    /// `after` and return `outcome`. A handler that says nothing of itself
    /// may do anything.
    open spec fn handles(
        &self,
        before: Context<M>,
        error: Error,
        after: Context<M>,
        outcome: Result<(), Error>,
    ) -> bool {
        true
    }

    /// Handles `error`: `Ok` if the response now answers for it, `Err` if
    /// the dispatch has failed.
    fn handle(&self, ctx: &mut Context<M>, error: Error) -> (outcome: Result<(), Error>)
        ensures
            self.handles(*old(ctx), error, *final(ctx), outcome),
    ;
}

/// What the default status handler does: the response gets the error's
/// status and, if the error is exposed, its message after the body; a
/// server error is handed on, any other is settled.
pub open spec fn default_handles<M: Model>(
    before: Context<M>,
    error: Error,
    after: Context<M>,
    outcome: Result<(), Error>,
) -> bool {
    &&& after.request == before.request
    &&& after.state == before.state
    &&& after.remote_addr == before.remote_addr
    &&& after.response@ == if error.expose {
        before.response@.with_status(error.status_code@).written(encode_utf8(error.message@))
    } else {
        before.response@.with_status(error.status_code@)
    }
    &&& outcome == if error.kind == ErrorKind::ServerError {
        Err::<(), Error>(error)
    } else {
        Ok::<(), Error>(())
    }
}

/// The status handler of an application that has set none.
pub fn default_status_handler<M: Model>(ctx: &mut Context<M>, error: Error) -> (outcome: Result<
    (),
    Error,
>)
    ensures
        default_handles(*old(ctx), error, *final(ctx), outcome),
{
    ctx.resp_mut().status = error.status_code;
    if error.expose {
        ctx.resp_mut().write_str(error.message.as_str());
    }
    if error.need_throw() {
        Err(error)
    } else {
        Ok(())
    }
}

/// The default status handler, as a handler to set.
pub struct DefaultStatusHandler;

impl<M: Model> StatusHandler<M> for DefaultStatusHandler {
    open spec fn handles(
        &self,
        before: Context<M>,
        error: Error,
        after: Context<M>,
        outcome: Result<(), Error>,
    ) -> bool {
        default_handles(before, error, after, outcome)
    }

    fn handle(&self, ctx: &mut Context<M>, error: Error) -> (outcome: Result<(), Error>) {
        default_status_handler(ctx, error)
    }
}

/// A status handler behind a pointer, as an application holds it.
#[verifier::reject_recursive_types(M)]
pub struct DynStatusHandler<M: Model> {
    /// The status handler.
    pub handler: Box<dyn StatusHandler<M>>,
}

/// An application: middleware in the order they were added, a status
/// handler, and the model that makes each request's state.
#[verifier::reject_recursive_types(M)]
pub struct App<M: Model> {
    middleware: Middleware<M>,
    status_handler: Option<Arc<DynStatusHandler<M>>>,
    model: Arc<M>,
}

impl<M: Model> App<M> {
    /// The middleware, outermost first.
    pub closed spec fn middleware(&self) -> Seq<DynHandler<M>> {
        self.middleware@
    }

    /// The model.
    pub closed spec fn model(&self) -> M {
        *self.model
    }

    /// Whether `other` is made of what this application is made of: the
    /// same middleware, the same status handler, the same model.
    pub open spec fn shares(&self, other: &Self) -> bool {
        &&& other.middleware() == self.middleware()
        &&& other.has_default_handler() == self.has_default_handler()
        &&& forall|b: Context<M>, e: Error, a: Context<M>, o: Result<(), Error>|
            #[trigger] other.handles(b, e, a, o) == self.handles(b, e, a, o)
        &&& other.model() == self.model()
    }

    /// Whether no status handler has been set.
    pub closed spec fn has_default_handler(&self) -> bool {
        self.status_handler is None
    }

    /// Whether the status handler in force, given `error`, may turn the
    /// context `before` into `after` and return `outcome`.
    pub closed spec fn handles(
        &self,
        before: Context<M>,
        error: Error,
        after: Context<M>,
        outcome: Result<(), Error>,
    ) -> bool {
        match self.status_handler {
            None => default_handles(before, error, after, outcome),
            Some(custom) => custom.handler.handles(before, error, after, outcome),
        }
    }

    /// With no status handler set, the default one is in force.
    pub proof fn lemma_default_handler(
        self,
        before: Context<M>,
        error: Error,
        after: Context<M>,
        outcome: Result<(), Error>,
    )
        requires
            self.has_default_handler(),
        ensures
            self.handles(before, error, after, outcome) == default_handles(
                before,
                error,
                after,
                outcome,
            ),
    {
    }

    /// An application without middleware, with the default status handler.
    pub fn new(model: M) -> (app: Self)
        ensures
            app.middleware().len() == 0,
            app.has_default_handler(),
            app.model() == model,
    {
        App { middleware: Middleware::new(), status_handler: None, model: Arc::new(model) }
    }

    /// Adds `middleware` inside the middleware added so far.
    pub fn gate(&mut self, middleware: DynHandler<M>) -> (app: &mut Self)
        ensures
            app.middleware() == old(self).middleware().push(middleware),
            app.has_default_handler() == old(self).has_default_handler(),
            forall|b: Context<M>, e: Error, a: Context<M>, o: Result<(), Error>|
                app.handles(b, e, a, o) == old(self).handles(b, e, a, o),
            app.model() == old(self).model(),
            *final(app) == *final(self),
    {
        self.middleware.join(middleware);
        self
    }

    /// A state for a new request, from the model.
    pub fn new_state(&self) -> (state: M::State)
        ensures
            self.model().makes(state),
    {
        self.model.new_state()
    }

    /// This application bound to a connection from `remote_addr`.
    pub fn call(&self, remote_addr: RemoteAddr) -> (service: HttpService<M>)
        ensures
            self.shares(&service.app()),
            service.remote_addr() == remote_addr,
    {
        HttpService::new(self.clone(), remote_addr)
    }

    /// Sets the status handler.
    pub fn handle_status(&mut self, handler: DynStatusHandler<M>) -> (app: &mut Self)
        ensures
            !app.has_default_handler(),
            forall|b: Context<M>, e: Error, a: Context<M>, o: Result<(), Error>|
                app.handles(b, e, a, o) == handler.handler.handles(b, e, a, o),
            app.middleware() == old(self).middleware(),
            app.model() == old(self).model(),
            *final(app) == *final(self),
    {
        self.status_handler = Some(Arc::new(handler));
        self
    }
}

impl<M: Model> Clone for App<M> {
    /// The same application once more; what it is made of is shared.
    fn clone(&self) -> (copy: Self)
        ensures
            self.shares(&copy),
    {
        let status_handler = match &self.status_handler {
            None => None,
            Some(custom) => Some(share(custom)),
        };
        App { middleware: self.middleware.clone(), status_handler, model: share(&self.model) }
    }
}

/// One application bound to one connection: it serves the requests that
/// arrive from `remote_addr`.
#[verifier::reject_recursive_types(M)]
pub struct HttpService<M: Model> {
    app: App<M>,
    remote_addr: RemoteAddr,
}

/// One dispatch, step by step: the model makes `state`; the dispatch
/// starts with the context `start`; the chain turns it into `settled` with
/// `outcome`. If that is `Ok`, the result is the response of `settled`. If
/// it is an error, the status handler turns `settled` into `handled` with
/// `verdict`: on `Ok` the result is the response of `handled`, on an error
/// the dispatch fails with that error.
pub open spec fn dispatches<M: Model>(
    app: App<M>,
    remote_addr: RemoteAddr,
    request: Request,
    state: M::State,
    start: Context<M>,
    settled: Context<M>,
    outcome: Result<(), Error>,
    handled: Context<M>,
    verdict: Result<(), Error>,
    result: Result<Response, Error>,
) -> bool {
    &&& app.model().makes(state)
    &&& start.starts(request, state, remote_addr)
    &&& runs(app.middleware(), 0, start, settled, outcome)
    &&& match outcome {
        Ok(_) => result == Ok::<Response, Error>(settled.response),
        Err(error) => {
            &&& app.handles(settled, error, handled, verdict)
            &&& match verdict {
                Ok(_) => result == Ok::<Response, Error>(handled.response),
                Err(fatal) => result == Err::<Response, Error>(fatal),
            }
        },
    }
}

impl<M: Model> HttpService<M> {
    /// The application that serves.
    pub closed spec fn app(&self) -> App<M> {
        self.app
    }

    /// The peer of the connection.
    pub closed spec fn remote_addr(&self) -> RemoteAddr {
        self.remote_addr
    }

    /// Whether serving `request` may end in `result`.
    pub open spec fn serves(&self, request: Request, result: Result<Response, Error>) -> bool {
        exists|
            state: M::State,
            start: Context<M>,
            settled: Context<M>,
            outcome: Result<(), Error>,
            handled: Context<M>,
            verdict: Result<(), Error>,
        |
            #[trigger] dispatches(
                self.app(),
                self.remote_addr(),
                request,
                state,
                start,
                settled,
                outcome,
                handled,
                verdict,
                result,
            )
    }

    /// Binds `app` to a connection from `remote_addr`.
    pub fn new(app: App<M>, remote_addr: RemoteAddr) -> (service: Self)
        ensures
            service.app() == app,
            service.remote_addr() == remote_addr,
    {
        HttpService { app, remote_addr }
    }

    /// Serves one request: runs the chain on a fresh context; hands an
    /// error that the chain returns to the status handler; returns the
    /// response, or the error with which the status handler failed.
    pub fn serve(&self, request: Request) -> (result: Result<Response, Error>)
        ensures
            self.serves(request, result),
            self.app().middleware().len() == 0 ==> result is Ok && result->Ok_0@
                == ResponseView::empty(),
    {
        let mut context = Context::new(request, &self.app, self.remote_addr);
        let ghost start = context;
        let ghost state = context.state;
        let outcome = self.app.middleware.run(&mut context);
        let ghost settled = context;
        match outcome {
            Ok(_) => {
                let response = context.response.take();
                proof {
                    assert(dispatches(
                        self.app(),
                        self.remote_addr(),
                        request,
                        state,
                        start,
                        settled,
                        outcome,
                        settled,
                        outcome,
                        Ok(response),
                    ));
                }
                Ok(response)
            },
            Err(error) => {
                let verdict = match &self.app.status_handler {
                    None => default_status_handler(&mut context, error),
                    Some(custom) => custom.handler.handle(&mut context, error),
                };
                let ghost handled = context;
                let result = match verdict {
                    Ok(_) => Ok(context.response.take()),
                    Err(fatal) => Err(fatal),
                };
                proof {
                    assert(dispatches(
                        self.app(),
                        self.remote_addr(),
                        request,
                        state,
                        start,
                        settled,
                        outcome,
                        handled,
                        verdict,
                        result,
                    ));
                }
                result
            },
        }
    }

    /// The response that is sent for `result`: the response itself where
    /// the dispatch succeeded; where it failed, an untouched response with
    /// the status 500, which shows nothing of the error.
    pub open spec fn answers(result: Result<Response, Error>, response: Response) -> bool {
        match result {
            Ok(served) => response == served,
            Err(_) => response@ == ResponseView::empty().with_status(500),
        }
    }

    /// The response to send for the result of a dispatch.
    pub fn answer(result: Result<Response, Error>) -> (response: Response)
        ensures
            Self::answers(result, response),
    {
        match result {
            Ok(served) => served,
            Err(_) => {
                let mut response = Response::new();
                response.status = StatusCode::internal_server_error();
                response
            },
        }
    }

    /// Serves one request and always has a response to send: that of the
    /// dispatch, or the bare 500 if the dispatch failed.
    pub fn call(&self, request: Request) -> (response: Response)
        ensures
            exists|result: Result<Response, Error>|
                self.serves(request, result) && #[trigger] Self::answers(result, response),
            self.app().middleware().len() == 0 ==> response@ == ResponseView::empty(),
    {
        let result = self.serve(request);
        let response = Self::answer(result);
        assert(Self::answers(result, response));
        response
    }
}

impl<M: Model> Clone for HttpService<M> {
    /// Another service for the same application and connection.
    fn clone(&self) -> (copy: Self)
        ensures
            self.app().shares(&copy.app()),
            copy.remote_addr() == self.remote_addr(),
    {
        HttpService { app: self.app.clone(), remote_addr: self.remote_addr }
    }
}

} // verus!
