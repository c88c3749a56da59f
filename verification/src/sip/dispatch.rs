//! Which handler an incoming message goes to.

use vstd::prelude::*;
use crate::sip::message::{SipMessage, SipMessageView, StartLine, StartLineView, Method, MethodView};
use crate::sip::response::{options_ok, build_options_ok};

verus! {

/// Where an incoming message goes.
#[derive(Debug, Clone, Copy, PartialEq, Eq, Structural)]
pub enum SipRoute {
    Register,
    Options,
    Invite,
    Bye,
    Cancel,
    /// An `ACK` is not answered.
    Ack,
    /// Any other request is answered `200 OK`.
    AnswerOk,
    /// A response is only noted, with its status code.
    ResponseReceived(u16),
}

pub open spec fn route_of(m: SipMessageView) -> SipRoute {
    match m.start {
        StartLineView::Request { method, .. } => match method {
            MethodView::Register => SipRoute::Register,
            MethodView::Options => SipRoute::Options,
            MethodView::Invite => SipRoute::Invite,
            MethodView::Bye => SipRoute::Bye,
            MethodView::Cancel => SipRoute::Cancel,
            MethodView::Ack => SipRoute::Ack,
            _ => SipRoute::AnswerOk,
        },
        StartLineView::Response { code, .. } => SipRoute::ResponseReceived(code),
    }
}

/// Routes an incoming message to its handler by request method.
pub fn handle_incoming_sip_message(msg: &SipMessage) -> (r: SipRoute)
    ensures
        r == route_of(msg@),
{
    match &msg.start_line {
        StartLine::Request(req) => match req.method {
            Method::Register => SipRoute::Register,
            Method::Options => SipRoute::Options,
            Method::Invite => SipRoute::Invite,
            Method::Bye => SipRoute::Bye,
            Method::Cancel => SipRoute::Cancel,
            Method::Ack => SipRoute::Ack,
            _ => SipRoute::AnswerOk,
        },
        StartLine::Response(resp) => SipRoute::ResponseReceived(resp.status_code),
    }
}

/// The answer to `OPTIONS`: `200 OK` with the supported methods.
pub fn handle_options(msg: &SipMessage, stamp: u128) -> (r: SipMessage)
    ensures
        r@ == options_ok(msg@, stamp),
{
    build_options_ok(msg, stamp)
}

} // verus!
