//! Messages between endpoints over the Colibri channel, and the pings among them that are answered
//! here.
use vstd::prelude::*;

use crate::inbound::opt_view;
use crate::text::{copy_opt, opt, same, signed_decimal};

verus! {

/// A message from one endpoint to another. Its payload is JSON.
pub struct EndpointMessage {
    pub from: Option<String>,
    pub to: Option<String>,
    pub payload: String,
}

pub struct EndpointMessageView {
    pub from: Option<Seq<char>>,
    pub to: Option<Seq<char>>,
    pub payload: Seq<char>,
}

impl View for EndpointMessage {
    type V = EndpointMessageView;

    open spec fn view(&self) -> EndpointMessageView {
        EndpointMessageView { from: opt(self.from), to: opt(self.to), payload: self.payload@ }
    }
}

/// The number of the ping that a JSON text asks for, if it asks for one.
pub uninterp spec fn ping_in(json: Seq<char>) -> Option<i32>;

/// The answer to the ping with this number, in JSON.
pub open spec fn pong(id: i32) -> Seq<char> {
    "{\"type\":\"e2e-ping-response\",\"id\":"@ + signed_decimal(id as int) + "}"@
}

/// `serde_json::from_str` into a `colibri::JsonMessage`, and the number where that is a request for
/// a ping: a function of the text.
#[verifier::external_body]
fn read_ping(json: &str) -> (r: Option<i32>)
    ensures
        r == ping_in(json@),
{
    match serde_json::from_str::<colibri::JsonMessage>(json) {
        Ok(colibri::JsonMessage::E2ePingRequest { id }) => Some(id),
        Ok(colibri::JsonMessage::E2ePingResponse { .. }) => None,
        Err(_) => None,
    }
}

/// `serde_json::to_string` on the answer to a ping: writes the type and the number as [`pong`] says.
/// The answer is not itself a request for a ping.
#[verifier::external_body]
fn write_pong(id: i32) -> (r: String)
    ensures
        r@ == pong(id),
        ping_in(r@) is None,
{
    serde_json::to_string(&colibri::JsonMessage::E2ePingResponse { id }).unwrap()
}

/// What an endpoint sends back for a message by itself, where it asks for the ping with this number
/// or for none: a ping that is addressed to the endpoint is answered to its sender. All other
/// messages are left to the application.
pub open spec fn reply_for(
    endpoint_id: Seq<char>,
    message: EndpointMessageView,
    ping: Option<i32>,
) -> Option<EndpointMessageView> {
    match ping {
        Some(id) => if message.to == Some(endpoint_id) {
            Some(EndpointMessageView { from: None, to: message.from, payload: pong(id) })
        } else {
            None
        },
        None => None,
    }
}

/// What an endpoint sends back for a message by itself.
pub open spec fn reply_to(
    endpoint_id: Seq<char>,
    message: EndpointMessageView,
) -> Option<EndpointMessageView> {
    reply_for(endpoint_id, message, ping_in(message.payload))
}

/// What to send back for a message that asks for the ping with this number, or for none.
pub fn answer_for(endpoint_id: &str, message: &EndpointMessage, ping: Option<i32>) -> (r: Option<
    EndpointMessage,
>)
    ensures
        opt_view(r) == reply_for(endpoint_id@, message@, ping),
        r is Some ==> ping_in(r->0@.payload) is None,
{
    match (&message.to, ping) {
        (Some(to), Some(id)) => if same(to.as_str(), endpoint_id) {
            Some(
                EndpointMessage { from: None, to: copy_opt(&message.from), payload: write_pong(id) },
            )
        } else {
            None
        },
        _ => None,
    }
}

/// What to send back for a message. Nothing means that the message is for the application. What is
/// sent back is never itself a ping, so that no answer calls for another.
pub fn answer(endpoint_id: &str, message: &EndpointMessage) -> (r: Option<EndpointMessage>)
    ensures
        opt_view(r) == reply_to(endpoint_id@, message@),
        r is Some ==> forall|other: Seq<char>| #[trigger] reply_to(other, r->0@) is None,
{
    answer_for(endpoint_id, message, read_ping(message.payload.as_str()))
}

/// A message that is addressed to nobody, or to another endpoint, is never answered.
pub proof fn law_only_own_pings_are_answered(endpoint_id: Seq<char>, message: EndpointMessageView)
    requires
        message.to != Some(endpoint_id),
    ensures
        reply_to(endpoint_id, message) is None,
{
}

/// The answer to a ping goes to the endpoint that sent it, names no sender, and carries the number
/// of the ping.
pub proof fn law_ping_is_answered_to_its_sender(
    endpoint_id: Seq<char>,
    message: EndpointMessageView,
    id: i32,
)
    requires
        message.to == Some(endpoint_id),
        ping_in(message.payload) == Some(id),
    ensures
        reply_to(endpoint_id, message) == Some(
            EndpointMessageView { from: None, to: message.from, payload: pong(id) },
        ),
{
}

} // verus!
