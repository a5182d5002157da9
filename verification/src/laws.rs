//! What holds of every chain and of every dispatch.
use crate::app::{default_handles, dispatches, App, HttpService};
use crate::context::{Context, RemoteAddr};
use crate::handler::{runs, wraps, DynHandler, Flow};
use crate::message::{Request, Response, ResponseView};
use crate::model::Model;
use crate::phase::{Event, Phase};
use crate::status::{kind_of, Error, ErrorKind};
use vstd::prelude::*;
use vstd::utf8::encode_utf8;

verus! {

/// A run of the handlers from the `first` on, laid out flat. The handlers
/// `first` to `depth - 1` ask for the rest of the chain, `depth` is where
/// the run turns round: at the end of the chain, or at a handler that does
/// not ask for the rest. `downs[k]` is the context that handler `first + k`
/// enters at, `ups[k]` the context that it leaves, `results[k]` its result.
pub open spec fn ordered<M: Model>(
    handlers: Seq<DynHandler<M>>,
    first: int,
    depth: int,
    downs: Seq<Context<M>>,
    ups: Seq<Context<M>>,
    results: Seq<Result<(), Error>>,
    before: Context<M>,
    after: Context<M>,
    outcome: Result<(), Error>,
) -> bool {
    let span = depth - first;
    &&& 0 <= first <= depth <= handlers.len()
    &&& downs.len() == span + 1
    &&& ups.len() == span + 1
    &&& results.len() == span + 1
    &&& downs[0] == before
    &&& ups[0] == after
    &&& results[0] == outcome
    &&& forall|k: int|
        0 <= k < span ==> handlers[first + k].handler.enters(
            downs[k],
            #[trigger] downs[k + 1],
            Flow::Next,
        )
    &&& forall|k: int|
        0 <= k < span ==> handlers[first + k].handler.leaves(
            #[trigger] ups[k + 1],
            results[k + 1],
            ups[k],
            results[k],
        )
    &&& if depth == handlers.len() {
        ups[span] == downs[span] && results[span] == Ok::<(), Error>(())
    } else {
        handlers[depth].handler.enters(downs[span], ups[span], Flow::Done(results[span]))
    }
}

/// Every run of a chain is an ordered one. The code that the middleware
/// run before the rest of the chain runs in the order in which they were
/// joined, each on the context that the one before it left. The code that
/// they run after the rest runs in the reverse order, each on the context
/// and with the result that the one joined after it left, and only
/// when everything inside it has run or was passed over.
pub proof fn lemma_onion_order<M: Model>(
    handlers: Seq<DynHandler<M>>,
    first: int,
    before: Context<M>,
    after: Context<M>,
    outcome: Result<(), Error>,
)
    requires
        0 <= first <= handlers.len(),
        runs(handlers, first, before, after, outcome),
    ensures
        exists|
            depth: int,
            downs: Seq<Context<M>>,
            ups: Seq<Context<M>>,
            results: Seq<Result<(), Error>>,
        |
            ordered(handlers, first, depth, downs, ups, results, before, after, outcome),
    decreases handlers.len() - first,
{
    if first < handlers.len() {
        let (entered, flow, inner, result) = choose|
            entered: Context<M>,
            flow: Flow,
            inner: Context<M>,
            result: Result<(), Error>,
        |
            {
                &&& #[trigger] wraps(handlers, first, before, entered, flow, inner, result, after, outcome)
                &&& flow is Next ==> runs(handlers, first + 1, entered, inner, result)
            };
        match flow {
            Flow::Next => {
                let next = first + 1;
                lemma_onion_order(handlers, next, entered, inner, result);
                let (depth, downs, ups, results) = choose|
                    depth: int,
                    downs: Seq<Context<M>>,
                    ups: Seq<Context<M>>,
                    results: Seq<Result<(), Error>>,
                |
                    ordered(handlers, next, depth, downs, ups, results, entered, inner, result);
                let downs2 = seq![before] + downs;
                let ups2 = seq![after] + ups;
                let results2 = seq![outcome] + results;
                let span = depth - first;
                assert forall|k: int| 0 <= k < span implies handlers[first + k].handler.enters(
                    downs2[k],
                    #[trigger] downs2[k + 1],
                    Flow::Next,
                ) by {
                    if k > 0 {
                        assert(downs2[k] == downs[k - 1]);
                        assert(downs2[k + 1] == downs[(k - 1) + 1]);
                        assert(first + k == (first + 1) + (k - 1));
                    } else {
                        assert(downs2[1] == downs[0]);
                    }
                }
                assert forall|k: int| 0 <= k < span implies handlers[first + k].handler.leaves(
                    #[trigger] ups2[k + 1],
                    results2[k + 1],
                    ups2[k],
                    results2[k],
                ) by {
                    if k > 0 {
                        assert(ups2[k] == ups[k - 1]);
                        assert(ups2[k + 1] == ups[(k - 1) + 1]);
                        assert(results2[k] == results[k - 1]);
                        assert(results2[k + 1] == results[(k - 1) + 1]);
                        assert(first + k == (first + 1) + (k - 1));
                    } else {
                        assert(ups2[1] == ups[0]);
                        assert(results2[1] == results[0]);
                    }
                }
                assert(downs2[span] == downs[span - 1]);
                assert(ups2[span] == ups[span - 1]);
                assert(results2[span] == results[span - 1]);
                assert(ordered(
                    handlers,
                    first,
                    depth,
                    downs2,
                    ups2,
                    results2,
                    before,
                    after,
                    outcome,
                ));
            },
            Flow::Done(decided) => {
                assert(ordered(
                    handlers,
                    first,
                    first,
                    seq![before],
                    seq![after],
                    seq![outcome],
                    before,
                    after,
                    outcome,
                ));
            },
        }
    } else {
        assert(ordered(
            handlers,
            first,
            first,
            seq![before],
            seq![after],
            seq![outcome],
            before,
            after,
            outcome,
        ));
    }
}

/// Every ordered run is a run of the chain: the flat layout says no less
/// than the nesting does.
pub proof fn lemma_ordered_runs<M: Model>(
    handlers: Seq<DynHandler<M>>,
    first: int,
    depth: int,
    downs: Seq<Context<M>>,
    ups: Seq<Context<M>>,
    results: Seq<Result<(), Error>>,
    before: Context<M>,
    after: Context<M>,
    outcome: Result<(), Error>,
)
    requires
        ordered(handlers, first, depth, downs, ups, results, before, after, outcome),
    ensures
        runs(handlers, first, before, after, outcome),
    decreases depth - first,
{
    if first < depth {
        let next = first + 1;
        let downs1 = downs.drop_first();
        let ups1 = ups.drop_first();
        let results1 = results.drop_first();
        let span1 = depth - next;
        assert forall|k: int| 0 <= k < span1 implies handlers[next + k].handler.enters(
            downs1[k],
            #[trigger] downs1[k + 1],
            Flow::Next,
        ) by {
            assert(downs1[k] == downs[k + 1]);
            assert(downs1[k + 1] == downs[(k + 1) + 1]);
            assert(next + k == first + (k + 1));
        }
        assert forall|k: int| 0 <= k < span1 implies handlers[next + k].handler.leaves(
            #[trigger] ups1[k + 1],
            results1[k + 1],
            ups1[k],
            results1[k],
        ) by {
            assert(ups1[k] == ups[k + 1]);
            assert(ups1[k + 1] == ups[(k + 1) + 1]);
            assert(results1[k] == results[k + 1]);
            assert(results1[k + 1] == results[(k + 1) + 1]);
            assert(next + k == first + (k + 1));
        }
        assert(downs1[span1] == downs[span1 + 1]);
        assert(ups1[span1] == ups[span1 + 1]);
        assert(results1[span1] == results[span1 + 1]);
        assert(downs1[0] == downs[1]);
        assert(ups1[0] == ups[1]);
        assert(results1[0] == results[1]);
        lemma_ordered_runs(
            handlers,
            next,
            depth,
            downs1,
            ups1,
            results1,
            downs[1],
            ups[1],
            results[1],
        );
        assert(handlers[first].handler.enters(downs[0], downs[1], Flow::Next));
        assert(handlers[first].handler.leaves(ups[1], results[1], ups[0], results[0]));
        assert(wraps(
            handlers,
            first,
            before,
            downs[1],
            Flow::Next,
            ups[1],
            results[1],
            after,
            outcome,
        ));
    } else if depth < handlers.len() {
        assert(wraps(
            handlers,
            first,
            before,
            after,
            Flow::Done(outcome),
            after,
            outcome,
            after,
            outcome,
        ));
    }
}

/// An error passes outwards unchanged through middleware that hand on
/// what they are given: in an ordered run in which every middleware that
/// asked for the rest returns the result of the rest, the result of the
/// run is the result at the place where the run turned round.
pub proof fn lemma_results_pass_outwards<M: Model>(
    handlers: Seq<DynHandler<M>>,
    first: int,
    depth: int,
    downs: Seq<Context<M>>,
    ups: Seq<Context<M>>,
    results: Seq<Result<(), Error>>,
    before: Context<M>,
    after: Context<M>,
    outcome: Result<(), Error>,
)
    requires
        ordered(handlers, first, depth, downs, ups, results, before, after, outcome),
        forall|
            k: int,
            inner: Context<M>,
            given: Result<(), Error>,
            left: Context<M>,
            returned: Result<(), Error>,
        |
            first <= k < depth && #[trigger] handlers[k].handler.leaves(
                inner,
                given,
                left,
                returned,
            ) ==> returned == given,
    ensures
        outcome == results[depth - first],
{
    let span = depth - first;
    assert forall|k: int| 0 <= k <= span implies results[0] == #[trigger] results[k] by {
        lemma_results_prefix(handlers, first, depth, ups, results, k);
    }
}

proof fn lemma_results_prefix<M: Model>(
    handlers: Seq<DynHandler<M>>,
    first: int,
    depth: int,
    ups: Seq<Context<M>>,
    results: Seq<Result<(), Error>>,
    k: int,
)
    requires
        0 <= k <= depth - first,
        ups.len() == depth - first + 1,
        results.len() == depth - first + 1,
        forall|j: int|
            0 <= j < depth - first ==> handlers[first + j].handler.leaves(
                #[trigger] ups[j + 1],
                results[j + 1],
                ups[j],
                results[j],
            ),
        forall|
            j: int,
            inner: Context<M>,
            given: Result<(), Error>,
            left: Context<M>,
            returned: Result<(), Error>,
        |
            first <= j < depth && #[trigger] handlers[j].handler.leaves(
                inner,
                given,
                left,
                returned,
            ) ==> returned == given,
    ensures
        results[0] == results[k],
    decreases k,
{
    if k > 0 {
        lemma_results_prefix(handlers, first, depth, ups, results, k - 1);
        let j = k - 1;
        assert(handlers[first + j].handler.leaves(ups[j + 1], results[j + 1], ups[j], results[j]));
    }
}

/// The kind of a status is given by the hundreds digit of its number, and
/// by nothing else: 1, 3, 4 and 5 have a kind, no other digit has one.
pub proof fn lemma_kind_by_hundreds(code: int)
    requires
        0 <= code,
    ensures
        kind_of(code) == if code / 100 == 1 {
            Some(ErrorKind::Informational)
        } else if code / 100 == 3 {
            Some(ErrorKind::Redirection)
        } else if code / 100 == 4 {
            Some(ErrorKind::ClientError)
        } else if code / 100 == 5 {
            Some(ErrorKind::ServerError)
        } else {
            None
        },
{
}

/// Two statuses with the same hundreds digit have the same kind.
pub proof fn lemma_kind_same_class(a: int, b: int)
    requires
        0 <= a,
        0 <= b,
        a / 100 == b / 100,
    ensures
        kind_of(a) == kind_of(b),
{
    lemma_kind_by_hundreds(a);
    lemma_kind_by_hundreds(b);
}

/// Under a status handler that settles every error, no dispatch fails,
/// whatever the chain does.
pub proof fn lemma_settling_handler_never_fails<M: Model>(
    service: HttpService<M>,
    request: Request,
    result: Result<Response, Error>,
)
    requires
        service.serves(request, result),
        forall|b: Context<M>, e: Error, a: Context<M>, o: Result<(), Error>| #[trigger]
            service.app().handles(b, e, a, o) ==> o is Ok,
    ensures
        result is Ok,
{
}

/// A dispatch whose chain succeeds answers with the response that the
/// chain left, and the status handler has no part in it.
pub proof fn lemma_success_is_answered_as_it_is<M: Model>(
    app: App<M>,
    remote_addr: RemoteAddr,
    request: Request,
    state: M::State,
    start: Context<M>,
    settled: Context<M>,
    handled: Context<M>,
    verdict: Result<(), Error>,
    result: Result<Response, Error>,
)
    requires
        dispatches(
            app,
            remote_addr,
            request,
            state,
            start,
            settled,
            Ok(()),
            handled,
            verdict,
            result,
        ),
    ensures
        result == Ok::<Response, Error>(settled.response),
{
}

/// Under the default status handler, an error of the chain that is no
/// server error is answered: the dispatch succeeds, and its response is
/// what the chain left, with the error's status and, if the error is
/// exposed, with its message written after the body.
pub proof fn lemma_default_answers_lesser_errors<M: Model>(
    app: App<M>,
    remote_addr: RemoteAddr,
    request: Request,
    state: M::State,
    start: Context<M>,
    settled: Context<M>,
    error: Error,
    handled: Context<M>,
    verdict: Result<(), Error>,
    result: Result<Response, Error>,
)
    requires
        app.has_default_handler(),
        error.kind != ErrorKind::ServerError,
        dispatches(
            app,
            remote_addr,
            request,
            state,
            start,
            settled,
            Err(error),
            handled,
            verdict,
            result,
        ),
    ensures
        result is Ok,
        result->Ok_0@ == if error.expose {
            settled.response@.with_status(error.status_code@).written(
                encode_utf8(error.message@),
            )
        } else {
            settled.response@.with_status(error.status_code@)
        },
{
    app.lemma_default_handler(settled, error, handled, verdict);
}

/// Under the default status handler, a server error of the chain fails
/// the dispatch, with that error.
pub proof fn lemma_default_fails_on_server_errors<M: Model>(
    app: App<M>,
    remote_addr: RemoteAddr,
    request: Request,
    state: M::State,
    start: Context<M>,
    settled: Context<M>,
    error: Error,
    handled: Context<M>,
    verdict: Result<(), Error>,
    result: Result<Response, Error>,
)
    requires
        app.has_default_handler(),
        error.kind == ErrorKind::ServerError,
        dispatches(
            app,
            remote_addr,
            request,
            state,
            start,
            settled,
            Err(error),
            handled,
            verdict,
            result,
        ),
    ensures
        result == Err::<Response, Error>(error),
{
    app.lemma_default_handler(settled, error, handled, verdict);
}

/// Nothing follows a resolved or a failed request.
pub proof fn lemma_terminal_phases_stay(phase: Phase, event: Event)
    requires
        phase.is_terminal(),
    ensures
        phase.next(event) is None,
{
}

/// A request passes through at most four events, and whatever passes
/// through four of them is then resolved or failed.
pub proof fn lemma_course_is_short(events: Seq<Event>)
    requires
        Phase::Received.after(events) is Some,
    ensures
        events.len() <= 4,
        events.len() == 4 ==> Phase::Received.after(events)->Some_0.is_terminal(),
{
    reveal_with_fuel(Phase::after, 6);
    if events.len() >= 4 {
        let e1 = events.drop_first();
        let e2 = e1.drop_first();
        let e3 = e2.drop_first();
        let e4 = e3.drop_first();
        let built = Phase::Received.next(events[0])->Some_0;
        let running = built.next(e1[0])->Some_0;
        let handling = running.next(e2[0])->Some_0;
        let ended = handling.next(e3[0])->Some_0;
        assert(ended.is_terminal());
        if e4.len() > 0 {
            lemma_terminal_phases_stay(ended, e4[0]);
        }
    }
}

/// The events of a dispatch whose chain returns `outcome` and, where that
/// is an error, whose status handler returns `verdict`.
pub open spec fn course(outcome: Result<(), Error>, verdict: Result<(), Error>) -> Seq<Event> {
    if outcome is Ok {
        seq![Event::ContextReady, Event::ChainStarted, Event::ChainReturned(outcome)]
    } else {
        seq![
            Event::ContextReady,
            Event::ChainStarted,
            Event::ChainReturned(outcome),
            Event::StatusHandled(verdict),
        ]
    }
}

/// A dispatch follows the phases: its events lead from `Received` to
/// `Resolved` where it has a response, and to `FatalError` with its error
/// where it fails.
pub proof fn lemma_dispatch_follows_phases<M: Model>(
    app: App<M>,
    remote_addr: RemoteAddr,
    request: Request,
    state: M::State,
    start: Context<M>,
    settled: Context<M>,
    outcome: Result<(), Error>,
    handled: Context<M>,
    verdict: Result<(), Error>,
    result: Result<Response, Error>,
)
    requires
        dispatches(
            app,
            remote_addr,
            request,
            state,
            start,
            settled,
            outcome,
            handled,
            verdict,
            result,
        ),
    ensures
        Phase::Received.after(course(outcome, verdict)) == match result {
            Ok(_) => Some(Phase::Resolved),
            Err(fatal) => Some(Phase::FatalError(fatal)),
        },
{
    reveal_with_fuel(Phase::after, 6);
    let events = course(outcome, verdict);
    let e1 = events.drop_first();
    let e2 = e1.drop_first();
    let e3 = e2.drop_first();
    assert(e1[0] == events[1]);
    assert(e2[0] == events[2]);
    if outcome is Err {
        let e4 = e3.drop_first();
        assert(e3[0] == events[3]);
        assert(e4.len() == 0);
    } else {
        assert(e3.len() == 0);
    }
}

/// Services of applications that share what they are made of, for peers
/// with the same address, serve alike: whatever one may answer to a
/// request, the other may.
pub proof fn lemma_shared_apps_serve_alike<M: Model>(
    one: HttpService<M>,
    other: HttpService<M>,
    request: Request,
    result: Result<Response, Error>,
)
    requires
        one.app().shares(&other.app()),
        one.remote_addr() == other.remote_addr(),
    ensures
        one.serves(request, result) == other.serves(request, result),
{
    let a = one.app();
    let b = other.app();
    let addr = one.remote_addr();
    assert forall|
        state: M::State,
        start: Context<M>,
        settled: Context<M>,
        outcome: Result<(), Error>,
        handled: Context<M>,
        verdict: Result<(), Error>,
    |
        #![trigger dispatches(a, addr, request, state, start, settled, outcome, handled, verdict, result)]
        #![trigger dispatches(b, addr, request, state, start, settled, outcome, handled, verdict, result)]
        dispatches(a, addr, request, state, start, settled, outcome, handled, verdict, result)
            == dispatches(b, addr, request, state, start, settled, outcome, handled, verdict, result) by {
        if outcome is Err {
            let error = outcome->Err_0;
            assert(b.handles(settled, error, handled, verdict) == a.handles(
                settled,
                error,
                handled,
                verdict,
            ));
        }
    }
}

/// Every dispatch starts from its own request and an untouched response,
/// whatever was served before it.
pub proof fn lemma_dispatch_starts_fresh<M: Model>(
    app: App<M>,
    remote_addr: RemoteAddr,
    request: Request,
    state: M::State,
    start: Context<M>,
    settled: Context<M>,
    outcome: Result<(), Error>,
    handled: Context<M>,
    verdict: Result<(), Error>,
    result: Result<Response, Error>,
)
    requires
        dispatches(
            app,
            remote_addr,
            request,
            state,
            start,
            settled,
            outcome,
            handled,
            verdict,
            result,
        ),
    ensures
        start.request == request,
        start.response@ == ResponseView::empty(),
        start.remote_addr == remote_addr,
        app.model().makes(start.state),
{
}

} // verus!
