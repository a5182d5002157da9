use roa_core::{
    default_status_handler, App, Context, DefaultStatusHandler, DynHandler, DynStatusHandler,
    Error, ErrorKind, Flow, Handler, HttpService, Model, RemoteAddr, Request, Response,
    StatusCode, StatusHandler, Version,
};
use std::sync::{Arc, Mutex};
use std::time::Instant;

fn request_for(uri: &str) -> Request {
    Request {
        method: "GET".to_string(),
        uri: uri.to_string(),
        version: Version::Http11,
        headers: Vec::new(),
        body: Vec::new(),
    }
}

fn request() -> Request {
    request_for("/")
}

fn peer() -> RemoteAddr {
    RemoteAddr::V4 { octets: [127, 0, 0, 1], port: 8000 }
}

fn status(code: u16) -> StatusCode {
    StatusCode::from_u16(code).unwrap()
}

struct PassThrough;

impl<M: Model> Handler<M> for PassThrough {
    fn before(&self, _ctx: &mut Context<M>) -> Flow {
        Flow::Next
    }

    fn after(&self, _ctx: &mut Context<M>, inner: Result<(), Error>) -> Result<(), Error> {
        inner
    }
}

struct Throw {
    code: u16,
    message: &'static str,
    expose: bool,
}

impl<M: Model> Handler<M> for Throw {
    fn before(&self, _ctx: &mut Context<M>) -> Flow {
        Flow::Done(Err(Error::new(status(self.code), self.message.to_string(), self.expose)))
    }

    fn after(&self, _ctx: &mut Context<M>, inner: Result<(), Error>) -> Result<(), Error> {
        inner
    }
}

/// Answers with the target of the request.
struct Echo;

impl<M: Model> Handler<M> for Echo {
    fn before(&self, ctx: &mut Context<M>) -> Flow {
        let uri = ctx.req().uri.clone();
        ctx.resp_mut().write_str(&uri);
        Flow::Done(Ok(()))
    }

    fn after(&self, _ctx: &mut Context<M>, inner: Result<(), Error>) -> Result<(), Error> {
        inner
    }
}

fn gate<M: Model, H: Handler<M> + 'static>(handler: H) -> DynHandler<M> {
    DynHandler { handler: Box::new(handler) }
}

fn throwing(code: u16, message: &'static str, expose: bool) -> App<()> {
    let mut app = App::new(());
    app.gate(gate(PassThrough)).gate(gate(Throw { code, message, expose }));
    app
}

#[test]
fn gate_simple() {
    struct Timed;
    impl Handler<()> for Timed {
        fn before(&self, _ctx: &mut Context<()>) -> Flow {
            Flow::Next
        }

        fn after(&self, _ctx: &mut Context<()>, inner: Result<(), Error>) -> Result<(), Error> {
            let inbound = Instant::now();
            inner?;
            println!("time elapsed: {} ms", inbound.elapsed().as_millis());
            Ok(())
        }
    }
    let mut app = App::new(());
    app.gate(gate(Timed));
    let resp = app.call(peer()).serve(request()).unwrap();
    assert_eq!(StatusCode::ok(), resp.status);
}

#[test]
fn empty_chain_serves_default_response() {
    let app = App::new(());
    let service = HttpService::new(app, peer());
    let response = service.serve(request()).unwrap();
    assert_eq!(response, Response::new());
    assert_eq!(response.status.as_u16(), 200);
    assert!(response.body.is_empty());
    assert_eq!(service.call(request()), Response::new());
}

#[test]
fn client_error_is_answered_with_status_and_message() {
    let service = HttpService::new(throwing(404, "missing", true), peer());
    let response = service.serve(request()).unwrap();
    assert_eq!(response.status.as_u16(), 404);
    assert_eq!(response.body, b"missing".to_vec());
}

#[test]
fn hidden_message_is_not_written() {
    let service = HttpService::new(throwing(403, "secret", false), peer());
    let response = service.serve(request()).unwrap();
    assert_eq!(response.status.as_u16(), 403);
    assert!(response.body.is_empty());
}

#[test]
fn informational_and_redirection_are_answered() {
    for code in [100u16, 101, 301, 307] {
        let service = HttpService::new(throwing(code, "see", true), peer());
        let response = service.serve(request()).unwrap();
        assert_eq!(response.status.as_u16(), code);
        assert_eq!(response.body, b"see".to_vec());
    }
}

#[test]
fn server_error_fails_the_dispatch() {
    let service = HttpService::new(throwing(500, "broken", true), peer());
    let error = service.serve(request()).unwrap_err();
    assert_eq!(error.status_code.as_u16(), 500);
    assert_eq!(error.kind, ErrorKind::ServerError);
    assert_eq!(error.message, "broken");
    assert!(error.expose);
}

#[test]
fn failed_dispatch_is_answered_with_a_bare_500() {
    let service = HttpService::new(throwing(503, "broken inside", true), peer());
    let response = service.call(request());
    assert_eq!(response.status.as_u16(), 500);
    assert!(response.body.is_empty());
    assert!(response.headers.is_empty());
}

#[test]
fn answer_keeps_a_response_and_replaces_an_error() {
    let mut served = Response::new();
    served.status = status(201);
    served.write_str("made");
    let kept = HttpService::<()>::answer(Ok(served.clone()));
    assert_eq!(kept, served);
    let replaced =
        HttpService::<()>::answer(Err(Error::new(status(500), "inner".to_string(), true)));
    assert_eq!(replaced.status.as_u16(), 500);
    assert!(replaced.body.is_empty());
}

#[test]
fn default_status_handler_writes_status_and_exposed_message() {
    let mut ctx: Context<()> = Context::new(request(), &App::new(()), peer());
    ctx.resp_mut().write_str("so far; ");
    let outcome =
        default_status_handler(&mut ctx, Error::new(status(400), "bad".to_string(), true));
    assert!(outcome.is_ok());
    assert_eq!(ctx.resp().status.as_u16(), 400);
    assert_eq!(ctx.resp().body, b"so far; bad".to_vec());

    let mut ctx: Context<()> = Context::new(request(), &App::new(()), peer());
    let outcome =
        default_status_handler(&mut ctx, Error::new(status(502), "down".to_string(), false));
    let thrown = outcome.unwrap_err();
    assert_eq!(thrown.status_code.as_u16(), 502);
    assert_eq!(thrown.message, "down");
    assert_eq!(ctx.resp().status.as_u16(), 502);
    assert!(ctx.resp().body.is_empty());
}

struct Swallow;

impl StatusHandler<()> for Swallow {
    fn handle(&self, _ctx: &mut Context<()>, _error: Error) -> Result<(), Error> {
        Ok(())
    }
}

#[test]
fn swallowing_handler_never_fails() {
    for code in [100u16, 301, 404, 500, 503, 599] {
        let mut app = throwing(code, "x", false);
        app.handle_status(DynStatusHandler { handler: Box::new(Swallow) });
        let service = HttpService::new(app, peer());
        let response = service.serve(request()).unwrap();
        assert_eq!(response, Response::new());
    }
}

/// Fails every error with one of its own.
struct Escalate;

impl StatusHandler<()> for Escalate {
    fn handle(&self, ctx: &mut Context<()>, error: Error) -> Result<(), Error> {
        ctx.resp_mut().write_str("half written");
        Err(Error::new(status(501), format!("escalated {}", error.message), false))
    }
}

#[test]
fn status_handler_may_fail_with_another_error() {
    let mut app = throwing(404, "missing", true);
    app.handle_status(DynStatusHandler { handler: Box::new(Escalate) });
    let service = HttpService::new(app, peer());
    let error = service.serve(request()).unwrap_err();
    assert_eq!(error.status_code.as_u16(), 501);
    assert_eq!(error.message, "escalated missing");
    let response = service.call(request());
    assert_eq!(response.status.as_u16(), 500);
    assert!(response.body.is_empty());
}

#[test]
fn status_handler_is_not_asked_when_the_chain_succeeds() {
    let mut app = App::new(());
    app.gate(gate(Echo));
    app.handle_status(DynStatusHandler { handler: Box::new(Escalate) });
    let response = app.call(peer()).serve(request_for("/here")).unwrap();
    assert_eq!(response.body, b"/here".to_vec());
}

#[test]
fn the_default_handler_can_be_set_again() {
    let mut app = throwing(404, "missing", true);
    app.handle_status(DynStatusHandler { handler: Box::new(Swallow) })
        .handle_status(DynStatusHandler { handler: Box::new(DefaultStatusHandler) });
    let response = app.call(peer()).serve(request()).unwrap();
    assert_eq!(response.status.as_u16(), 404);
    assert_eq!(response.body, b"missing".to_vec());
}

#[test]
fn dispatches_do_not_see_each_other() {
    let mut app = App::new(());
    app.gate(gate(PassThrough)).gate(gate(Echo));
    let service = app.call(peer());
    let copy = service.clone();
    let first = service.serve(request_for("/one")).unwrap();
    let second = copy.serve(request_for("/two")).unwrap();
    let third = service.serve(request_for("/one")).unwrap();
    assert_eq!(first.body, b"/one".to_vec());
    assert_eq!(second.body, b"/two".to_vec());
    assert_eq!(third, first);
}

/// A model that counts the states it has made and gives each its number.
struct Counting {
    made: Arc<Mutex<usize>>,
}

impl Model for Counting {
    type State = usize;

    fn new_state(&self) -> usize {
        let mut made = self.made.lock().unwrap();
        *made += 1;
        *made - 1
    }
}

/// Writes the state of the request to the body, then changes the state.
struct ShowState;

impl Handler<Counting> for ShowState {
    fn before(&self, ctx: &mut Context<Counting>) -> Flow {
        let text = ctx.state().to_string();
        ctx.resp_mut().write_str(&text);
        *ctx.state_mut() = 1000;
        Flow::Next
    }

    fn after(&self, ctx: &mut Context<Counting>, inner: Result<(), Error>) -> Result<(), Error> {
        let text = format!(",{}", ctx.state());
        ctx.resp_mut().write_str(&text);
        inner
    }
}

#[test]
fn each_request_gets_a_state_of_its_own() {
    let made = Arc::new(Mutex::new(0));
    let mut app = App::new(Counting { made: made.clone() });
    app.gate(gate(ShowState));
    let service = app.call(peer());
    assert_eq!(service.serve(request()).unwrap().body, b"0,1000".to_vec());
    assert_eq!(service.clone().serve(request()).unwrap().body, b"1,1000".to_vec());
    assert_eq!(app.call(peer()).serve(request()).unwrap().body, b"2,1000".to_vec());
    assert_eq!(*made.lock().unwrap(), 3);
}

/// Answers with the port of the peer.
struct ShowPeer;

impl Handler<()> for ShowPeer {
    fn before(&self, ctx: &mut Context<()>) -> Flow {
        let port = match ctx.remote_addr() {
            RemoteAddr::V4 { port, .. } => port,
            RemoteAddr::V6 { port, .. } => port,
        };
        ctx.resp_mut().write_str(&port.to_string());
        Flow::Done(Ok(()))
    }

    fn after(&self, _ctx: &mut Context<()>, inner: Result<(), Error>) -> Result<(), Error> {
        inner
    }
}

#[test]
fn a_service_serves_for_its_own_peer() {
    let mut app = App::new(());
    app.gate(gate(ShowPeer));
    let near = app.call(RemoteAddr::V4 { octets: [127, 0, 0, 1], port: 1 });
    let far = app.call(RemoteAddr::V6 { segments: [0, 0, 0, 0, 0, 0, 0, 1], port: 2 });
    assert_eq!(near.serve(request()).unwrap().body, b"1".to_vec());
    assert_eq!(far.serve(request()).unwrap().body, b"2".to_vec());
}
