use roa_core::{
    App, Context, DynHandler, Error, Flow, Handler, Middleware, Next, RemoteAddr, Request, StatusCode,
    Step, Version,
};

fn context() -> Context<()> {
    let request = Request {
        method: "GET".to_string(),
        uri: "/".to_string(),
        version: Version::Http11,
        headers: Vec::new(),
        body: Vec::new(),
    };
    Context::new(request, &App::new(()), RemoteAddr::V4 { octets: [10, 0, 0, 1], port: 4000 })
}

fn error(code: u16, message: &str) -> Error {
    Error::new(StatusCode::from_u16(code).unwrap(), message.to_string(), true)
}

/// Writes its name to the body on the way in and on the way out.
struct Mark(&'static str);

impl Handler<()> for Mark {
    fn before(&self, ctx: &mut Context<()>) -> Flow {
        ctx.resp_mut().write_str("<");
        ctx.resp_mut().write_str(self.0);
        Flow::Next
    }

    fn after(&self, ctx: &mut Context<()>, inner: Result<(), Error>) -> Result<(), Error> {
        ctx.resp_mut().write_str(self.0);
        ctx.resp_mut().write_str(">");
        inner
    }
}

/// Ends the chain with a result of its own.
struct Stop(Option<(u16, &'static str)>);

impl Handler<()> for Stop {
    fn before(&self, ctx: &mut Context<()>) -> Flow {
        ctx.resp_mut().write_str("|");
        match self.0 {
            None => Flow::Done(Ok(())),
            Some((code, message)) => Flow::Done(Err(error(code, message))),
        }
    }

    fn after(&self, ctx: &mut Context<()>, inner: Result<(), Error>) -> Result<(), Error> {
        ctx.resp_mut().write_str("never");
        inner
    }
}

/// Turns an error of the rest of the chain into success.
struct Catch;

impl Handler<()> for Catch {
    fn before(&self, _ctx: &mut Context<()>) -> Flow {
        Flow::Next
    }

    fn after(&self, ctx: &mut Context<()>, inner: Result<(), Error>) -> Result<(), Error> {
        if let Err(error) = inner {
            ctx.resp_mut().write_str("caught ");
            ctx.resp_mut().write_str(&error.message);
        }
        Ok(())
    }
}

fn gate<H: Handler<()> + 'static>(handler: H) -> DynHandler<()> {
    DynHandler { handler: Box::new(handler) }
}

fn body(ctx: &Context<()>) -> String {
    String::from_utf8(ctx.resp().body.clone()).unwrap()
}

#[test]
fn next_walks_the_chain_and_ends_with_the_last_handler() {
    let next = Next::first(2);
    assert_eq!(next, Next { cursor: 0, len: 2 });
    assert_eq!(next.invoke(), Step::Handler(0, Next { cursor: 1, len: 2 }));
    assert_eq!(
        Next { cursor: 1, len: 2 }.invoke(),
        Step::Handler(1, Next { cursor: 2, len: 2 })
    );
    assert_eq!(Next { cursor: 2, len: 2 }.invoke(), Step::Last);
    assert_eq!(Next::first(0).invoke(), Step::Last);
}

#[test]
fn join_counts() {
    let mut chain: Middleware<()> = Middleware::new();
    assert_eq!(chain.len(), 0);
    chain.join(gate(Mark("a")));
    chain.join(gate(Mark("b")));
    assert_eq!(chain.len(), 2);
    assert_eq!(chain.clone().len(), 2);
}

#[test]
fn empty_chain_succeeds_and_changes_nothing() {
    let chain: Middleware<()> = Middleware::new();
    let mut ctx = context();
    assert!(chain.run(&mut ctx).is_ok());
    assert_eq!(body(&ctx), "");
    assert_eq!(ctx.resp().status.as_u16(), 200);
}

#[test]
fn before_runs_in_order_and_after_in_reverse() {
    let mut chain: Middleware<()> = Middleware::new();
    chain.join(gate(Mark("a")));
    chain.join(gate(Mark("b")));
    chain.join(gate(Mark("c")));
    let mut ctx = context();
    assert!(chain.run(&mut ctx).is_ok());
    assert_eq!(body(&ctx), "<a<b<cc>b>a>");
}

#[test]
fn one_middleware_wraps_the_last_handler() {
    let mut chain: Middleware<()> = Middleware::new();
    chain.join(gate(Mark("only")));
    let mut ctx = context();
    assert!(chain.run(&mut ctx).is_ok());
    assert_eq!(body(&ctx), "<onlyonly>");
}

#[test]
fn a_middleware_that_skips_the_rest_ends_the_way_in() {
    let mut chain: Middleware<()> = Middleware::new();
    chain.join(gate(Mark("a")));
    chain.join(gate(Stop(None)));
    chain.join(gate(Mark("unreached")));
    let mut ctx = context();
    assert!(chain.run(&mut ctx).is_ok());
    assert_eq!(body(&ctx), "<a|a>");
}

#[test]
fn an_error_passes_outwards_through_every_after() {
    let mut chain: Middleware<()> = Middleware::new();
    chain.join(gate(Mark("a")));
    chain.join(gate(Mark("b")));
    chain.join(gate(Stop(Some((404, "missing")))));
    let mut ctx = context();
    let failed = chain.run(&mut ctx).unwrap_err();
    assert_eq!(failed.status_code.as_u16(), 404);
    assert_eq!(failed.message, "missing");
    assert_eq!(body(&ctx), "<a<b|b>a>");
}

#[test]
fn an_outer_middleware_can_catch_an_error() {
    let mut chain: Middleware<()> = Middleware::new();
    chain.join(gate(Mark("a")));
    chain.join(gate(Catch));
    chain.join(gate(Mark("b")));
    chain.join(gate(Stop(Some((500, "broken")))));
    let mut ctx = context();
    assert!(chain.run(&mut ctx).is_ok());
    assert_eq!(body(&ctx), "<a<b|b>caught brokena>");
}

#[test]
fn a_copy_of_a_chain_runs_alike() {
    let mut chain: Middleware<()> = Middleware::new();
    chain.join(gate(Mark("a")));
    chain.join(gate(Stop(Some((403, "no")))));
    let copy = chain.clone();
    let mut one = context();
    let mut other = context();
    let first = chain.run(&mut one).unwrap_err();
    let second = copy.run(&mut other).unwrap_err();
    assert_eq!(first.status_code, second.status_code);
    assert_eq!(body(&one), body(&other));
    assert_eq!(body(&one), "<a|a>");
}
