//! What one dispatch works on.
use crate::app::App;
use crate::message::{Request, Response, ResponseView};
use crate::model::Model;
use vstd::prelude::*;

verus! {

/// The address of the peer at the other end of a connection.
#[derive(Clone, Copy, Debug, PartialEq, Eq)]
pub enum RemoteAddr {
    /// An IPv4 address and a port.
    V4 { octets: [u8; 4], port: u16 },
    /// An IPv6 address and a port.
    V6 { segments: [u16; 8], port: u16 },
}

/// The request, the response and the state of one dispatch, and the
/// address the request came from.
pub struct Context<M: Model> {
    /// The request being served.
    pub request: Request,
    /// The response being built.
    pub response: Response,
    /// The state that the model made for this request.
    pub state: M::State,
    /// The peer of the connection.
    pub remote_addr: RemoteAddr,
}

impl<M: Model> Context<M> {
    /// Whether this is the context that a dispatch of `request` from
    /// `remote_addr` starts with, given the state made for it.
    pub open spec fn starts(
        &self,
        request: Request,
        state: M::State,
        remote_addr: RemoteAddr,
    ) -> bool {
        &&& self.request == request
        &&& self.response@ == ResponseView::empty()
        &&& self.state == state
        &&& self.remote_addr == remote_addr
    }

    /// The context that a dispatch by `app` starts with: the request as
    /// it came, an untouched response, and a state that the model of `app`
    /// makes for it.
    pub fn new(request: Request, app: &App<M>, remote_addr: RemoteAddr) -> (ctx: Self)
        ensures
            app.model().makes(ctx.state),
            ctx.starts(request, ctx.state, remote_addr),
    {
        Context { request, response: Response::new(), state: app.new_state(), remote_addr }
    }

    /// The request.
    pub fn req(&self) -> (request: &Request)
        ensures
            *request == self.request,
    {
        &self.request
    }

    /// The request, to change it. Nothing else changes.
    pub fn req_mut(&mut self) -> (request: &mut Request)
        ensures
            *request == old(self).request,
            *final(self) == (Context { request: *final(request), ..*old(self) }),
    {
        &mut self.request
    }

    /// The response.
    pub fn resp(&self) -> (response: &Response)
        ensures
            *response == self.response,
    {
        &self.response
    }

    /// The response, to change it. Nothing else changes.
    pub fn resp_mut(&mut self) -> (response: &mut Response)
        ensures
            *response == old(self).response,
            *final(self) == (Context { response: *final(response), ..*old(self) }),
    {
        &mut self.response
    }

    /// The state of this request.
    pub fn state(&self) -> (state: &M::State)
        ensures
            *state == self.state,
    {
        &self.state
    }

    /// The state of this request, to change it. Nothing else changes.
    pub fn state_mut(&mut self) -> (state: &mut M::State)
        ensures
            *state == old(self).state,
            *final(self) == (Context { state: *final(state), ..*old(self) }),
    {
        &mut self.state
    }

    /// The peer of the connection.
    pub fn remote_addr(&self) -> (addr: RemoteAddr)
        ensures
            addr == self.remote_addr,
    {
        self.remote_addr
    }
}

} // verus!
