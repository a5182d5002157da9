//! The course of one request, as a state machine.
use crate::status::Error;
use vstd::prelude::*;

verus! {

/// Where the handling of one request stands.
#[derive(Debug)]
pub enum Phase {
    /// The request has arrived.
    Received,
    /// The context for it is built.
    ContextBuilt,
    /// The chain is running.
    ChainRunning,
    /// The chain has returned this error, and the status handler has it.
    StatusHandling(Error),
    /// There is a response to send. Nothing follows.
    Resolved,
    /// The dispatch has failed with this error. Nothing follows.
    FatalError(Error),
}

/// What happens to a request that is being handled.
#[derive(Debug)]
pub enum Event {
    /// The context has been built.
    ContextReady,
    /// The chain has been started.
    ChainStarted,
    /// The chain has returned.
    ChainReturned(Result<(), Error>),
    /// The status handler has returned.
    StatusHandled(Result<(), Error>),
}

impl Phase {
    /// Whether nothing follows this phase.
    pub open spec fn is_terminal(self) -> bool {
        self is Resolved || self is FatalError
    }

    /// The phase that follows this one on `event`; `None` where the event
    /// cannot happen in this phase.
    pub open spec fn next(self, event: Event) -> Option<Phase> {
        match (self, event) {
            (Phase::Received, Event::ContextReady) => Some(Phase::ContextBuilt),
            (Phase::ContextBuilt, Event::ChainStarted) => Some(Phase::ChainRunning),
            (Phase::ChainRunning, Event::ChainReturned(Ok(_))) => Some(Phase::Resolved),
            (Phase::ChainRunning, Event::ChainReturned(Err(error))) => Some(
                Phase::StatusHandling(error),
            ),
            (Phase::StatusHandling(_), Event::StatusHandled(Ok(_))) => Some(Phase::Resolved),
            (Phase::StatusHandling(_), Event::StatusHandled(Err(fatal))) => Some(
                Phase::FatalError(fatal),
            ),
            _ => None,
        }
    }

    /// The phase that a request is in after `events`, from this phase on;
    /// `None` if one of them cannot happen where it stands.
    pub open spec fn after(self, events: Seq<Event>) -> Option<Phase>
        decreases events.len(),
    {
        if events.len() == 0 {
            Some(self)
        } else {
            match self.next(events[0]) {
                Some(phase) => phase.after(events.drop_first()),
                None => None,
            }
        }
    }

    /// Whether nothing follows this phase.
    pub fn terminal(&self) -> (b: bool)
        ensures
            b == self.is_terminal(),
    {
        match self {
            Phase::Resolved => true,
            Phase::FatalError(_) => true,
            _ => false,
        }
    }

    /// Takes `event` in this phase.
    pub fn step(self, event: Event) -> (next: Option<Phase>)
        ensures
            next == self.next(event),
    {
        match self {
            Phase::Received => match event {
                Event::ContextReady => Some(Phase::ContextBuilt),
                _ => None,
            },
            Phase::ContextBuilt => match event {
                Event::ChainStarted => Some(Phase::ChainRunning),
                _ => None,
            },
            Phase::ChainRunning => match event {
                Event::ChainReturned(Ok(_)) => Some(Phase::Resolved),
                Event::ChainReturned(Err(error)) => Some(Phase::StatusHandling(error)),
                _ => None,
            },
            Phase::StatusHandling(_) => match event {
                Event::StatusHandled(Ok(_)) => Some(Phase::Resolved),
                Event::StatusHandled(Err(fatal)) => Some(Phase::FatalError(fatal)),
                _ => None,
            },
            Phase::Resolved => None,
            Phase::FatalError(_) => None,
        }
    }
}

} // verus!
