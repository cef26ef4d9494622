//! Pings that the server sends over the XMPP connection.
use vstd::prelude::*;
use xmpp_parsers::Element;

use crate::element::{children, is_named, tree_of, trees_of, Tree};
use crate::error::Error;
use crate::inbound::{iq_of, opt_view, read_iq, Iq, IqPayload, IqView};
use crate::jid::{FullJid, FullJidView, Jid, JidView};
use crate::stanza::{Payload, PayloadView, Stanza, StanzaView};

verus! {

/// Answers pings in the name of a JID.
pub struct Pinger {
    pub jid: FullJid,
}

/// Whether an element is an IQ that holds a ping.
pub open spec fn holds_ping(tree: Tree) -> bool {
    &&& tree.is("iq"@, "jabber:client"@)
    &&& exists|i: int|
        0 <= i < tree.elements().len() && #[trigger] tree.elements()[i].is(
            "ping"@,
            "urn:xmpp:ping"@,
        )
}

/// The answer to a ping: an acknowledgement to its sender. An IQ that is not a question gets none.
pub open spec fn pong_for(jid: FullJidView, iq: IqView) -> Option<StanzaView> {
    if iq.payload is Query {
        Some(
            StanzaView::Iq {
                from: Some(JidView::Full(jid)),
                to: iq.from,
                id: iq.id,
                payload: PayloadView::Empty,
            },
        )
    } else {
        None
    }
}

impl Pinger {
    /// Whether an element is for the pinger.
    pub fn filter(&self, element: &Element) -> (r: bool)
        ensures
            r == holds_ping(tree_of(*element)),
    {
        if !is_named(element, "iq", "jabber:client") {
            return false;
        }
        let elements = children(element);
        let ghost all = tree_of(*element).elements();
        for i in 0..elements.len()
            invariant
                tree_of(*element).is("iq"@, "jabber:client"@),
                all == tree_of(*element).elements(),
                all == trees_of(elements@),
                forall|j: int| 0 <= j < i ==> !(#[trigger] all[j].is("ping"@, "urn:xmpp:ping"@)),
        {
            assert(all[i as int] == tree_of(elements@[i as int]));
            if is_named(&elements[i], "ping", "urn:xmpp:ping") {
                return true;
            }
        }
        false
    }

    /// What to send for an IQ: an acknowledgement where it is a question, and nothing otherwise.
    pub fn answer(&self, iq: Iq) -> (r: Option<Stanza>)
        ensures
            opt_view(r) == pong_for(self.jid@, iq@),
    {
        match iq.payload {
            IqPayload::Query(_) => Some(
                Stanza::Iq {
                    from: Some(Jid::Full(self.jid.clone())),
                    to: iq.from,
                    id: iq.id,
                    payload: Payload::Empty,
                },
            ),
            _ => None,
        }
    }

    /// What to send for an element that is for the pinger.
    pub fn take(&self, element: &Element) -> (r: Result<Option<Stanza>, Error>)
        ensures
            (match (iq_of(tree_of(*element)), r) {
                (None, Err(e)) => e == Error::NotIq,
                (Some(iq), Ok(stanza)) => opt_view(stanza) == pong_for(self.jid@, iq),
                _ => false,
            }),
    {
        match read_iq(element) {
            None => Err(Error::NotIq),
            Some(iq) => Ok(self.answer(iq)),
        }
    }
}

} // verus!
