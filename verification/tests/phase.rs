use roa_core::{Error, Event, Phase, StatusCode};

fn error(code: u16) -> Error {
    Error::new(StatusCode::from_u16(code).unwrap(), "e".to_string(), false)
}

fn run(events: Vec<Event>) -> Option<Phase> {
    let mut phase = Phase::Received;
    for event in events {
        phase = phase.step(event)?;
    }
    Some(phase)
}

#[test]
fn a_chain_that_succeeds_resolves_the_request() {
    let end = run(vec![Event::ContextReady, Event::ChainStarted, Event::ChainReturned(Ok(()))]);
    assert!(matches!(end, Some(Phase::Resolved)));
}

#[test]
fn a_handled_error_resolves_the_request() {
    let end = run(vec![
        Event::ContextReady,
        Event::ChainStarted,
        Event::ChainReturned(Err(error(404))),
        Event::StatusHandled(Ok(())),
    ]);
    assert!(matches!(end, Some(Phase::Resolved)));
}

#[test]
fn an_error_of_the_status_handler_is_fatal() {
    let end = run(vec![
        Event::ContextReady,
        Event::ChainStarted,
        Event::ChainReturned(Err(error(404))),
        Event::StatusHandled(Err(error(500))),
    ]);
    match end {
        Some(Phase::FatalError(fatal)) => assert_eq!(fatal.status_code.as_u16(), 500),
        other => panic!("not fatal: {:?}", other),
    }
}

#[test]
fn the_status_handler_gets_the_error_of_the_chain() {
    let end =
        run(vec![Event::ContextReady, Event::ChainStarted, Event::ChainReturned(Err(error(418)))]);
    match end {
        Some(Phase::StatusHandling(held)) => assert_eq!(held.status_code.as_u16(), 418),
        other => panic!("not with the status handler: {:?}", other),
    }
}

#[test]
fn events_out_of_turn_are_refused() {
    assert!(Phase::Received.step(Event::ChainStarted).is_none());
    assert!(Phase::Received.step(Event::ChainReturned(Ok(()))).is_none());
    assert!(Phase::ContextBuilt.step(Event::ContextReady).is_none());
    assert!(Phase::ChainRunning.step(Event::StatusHandled(Ok(()))).is_none());
    assert!(Phase::StatusHandling(error(404)).step(Event::ChainReturned(Ok(()))).is_none());
}

#[test]
fn nothing_follows_a_terminal_phase() {
    assert!(Phase::Resolved.terminal());
    assert!(Phase::FatalError(error(500)).terminal());
    assert!(!Phase::Received.terminal());
    assert!(!Phase::ContextBuilt.terminal());
    assert!(!Phase::ChainRunning.terminal());
    assert!(!Phase::StatusHandling(error(404)).terminal());
    assert!(Phase::Resolved.step(Event::ContextReady).is_none());
    assert!(Phase::Resolved.step(Event::StatusHandled(Ok(()))).is_none());
    assert!(Phase::FatalError(error(500)).step(Event::ChainStarted).is_none());
}
