//! The stanzas that this client sends, and how they are written.
use vstd::prelude::*;

use crate::disco::{base64_of, disco_info, info_element, info_tree, own_info, to_base64};
use crate::element::{attr_name, built_trees, leaf, written, Built, Tree};
use crate::error::Error;
use crate::jid::{opt_jid, BareJid, BareJidView, Jid, JidView};
use crate::text::opt;

verus! {

/// How the client authenticates itself.
#[derive(Clone, Copy, Debug, PartialEq, Eq, Structural)]
pub enum Mechanism {
    Anonymous,
    Plain,
}

impl Mechanism {
    pub open spec fn text(self) -> Seq<char> {
        match self {
            Mechanism::Anonymous => "ANONYMOUS"@,
            Mechanism::Plain => "PLAIN"@,
        }
    }
}

/// What an IQ asks for or answers.
pub enum Payload {
    /// A request for a JID.
    Bind,
    /// A question for identities and features.
    DiscoInfoQuery,
    /// A question for external services.
    ServicesQuery,
    /// A request to the focus to open a room.
    Conference { machine_uid: String, room: String, properties: Vec<(String, String)> },
    /// An answer to a session offer.
    SessionAccept { jingle: Built },
    /// The identities and features of this client.
    DiscoInfo { node: Option<String> },
    /// A refusal: what was asked for does not exist.
    ItemNotFound { text: String },
    /// An acknowledgement.
    Empty,
}

pub enum Stanza {
    /// The opening of a stream.
    Open { domain: BareJid },
    /// The first step of the authentication.
    Auth { mechanism: Mechanism, data: Vec<u8> },
    Iq { from: Option<Jid>, to: Option<Jid>, id: String, payload: Payload },
    Presence { occupant: Jid, payloads: Vec<Built> },
    /// A message to a whole room that carries JSON.
    Message { sender: Jid, room: Jid, id: String, json: String },
}

pub enum PayloadView {
    Bind,
    DiscoInfoQuery,
    ServicesQuery,
    Conference {
        machine_uid: Seq<char>,
        room: Seq<char>,
        properties: Seq<(Seq<char>, Seq<char>)>,
    },
    SessionAccept { jingle: Tree },
    DiscoInfo { node: Option<Seq<char>> },
    ItemNotFound { text: Seq<char> },
    Empty,
}

pub enum StanzaView {
    Open { domain: BareJidView },
    Auth { mechanism: Mechanism, data: Seq<u8> },
    Iq { from: Option<JidView>, to: Option<JidView>, id: Seq<char>, payload: PayloadView },
    Presence { occupant: JidView, payloads: Seq<Tree> },
    Message { sender: JidView, room: JidView, id: Seq<char>, json: Seq<char> },
}

/// Pairs of strings, seen through their characters.
pub open spec fn pairs(properties: Seq<(String, String)>) -> Seq<(Seq<char>, Seq<char>)> {
    properties.map_values(|p: (String, String)| (p.0@, p.1@))
}

impl View for Payload {
    type V = PayloadView;

    open spec fn view(&self) -> PayloadView {
        match self {
            Payload::Bind => PayloadView::Bind,
            Payload::DiscoInfoQuery => PayloadView::DiscoInfoQuery,
            Payload::ServicesQuery => PayloadView::ServicesQuery,
            Payload::Conference { machine_uid, room, properties } => PayloadView::Conference {
                machine_uid: machine_uid@,
                room: room@,
                properties: pairs(properties@),
            },
            Payload::SessionAccept { jingle } => PayloadView::SessionAccept { jingle: jingle@ },
            Payload::DiscoInfo { node } => PayloadView::DiscoInfo { node: opt(*node) },
            Payload::ItemNotFound { text } => PayloadView::ItemNotFound { text: text@ },
            Payload::Empty => PayloadView::Empty,
        }
    }
}

impl View for Stanza {
    type V = StanzaView;

    open spec fn view(&self) -> StanzaView {
        match self {
            Stanza::Open { domain } => StanzaView::Open { domain: domain@ },
            Stanza::Auth { mechanism, data } => StanzaView::Auth {
                mechanism: *mechanism,
                data: data@,
            },
            Stanza::Iq { from, to, id, payload } => StanzaView::Iq {
                from: opt_jid(*from),
                to: opt_jid(*to),
                id: id@,
                payload: payload@,
            },
            Stanza::Presence { occupant, payloads } => StanzaView::Presence {
                occupant: occupant@,
                payloads: built_trees(payloads@),
            },
            Stanza::Message { sender, room, id, json } => StanzaView::Message {
                sender: sender@,
                room: room@,
                id: id@,
                json: json@,
            },
        }
    }
}

pub open spec fn property_tree(property: (Seq<char>, Seq<char>)) -> Tree {
    leaf("property"@, "http://jitsi.org/protocol/focus"@).with_attr("name"@, property.0).with_attr(
        "value"@,
        property.1,
    )
}

impl PayloadView {
    /// The type of an IQ with this payload.
    pub open spec fn iq_type(self) -> Seq<char> {
        match self {
            PayloadView::Bind => "set"@,
            PayloadView::DiscoInfoQuery => "get"@,
            PayloadView::ServicesQuery => "get"@,
            PayloadView::Conference { .. } => "set"@,
            PayloadView::SessionAccept { .. } => "set"@,
            PayloadView::DiscoInfo { .. } => "result"@,
            PayloadView::ItemNotFound { .. } => "error"@,
            PayloadView::Empty => "result"@,
        }
    }

    /// The element inside an IQ with this payload. An acknowledgement has none.
    pub open spec fn tree(self) -> Option<Tree> {
        match self {
            PayloadView::Bind => Some(leaf("bind"@, "urn:ietf:params:xml:ns:xmpp-bind"@)),
            PayloadView::DiscoInfoQuery => Some(
                leaf("query"@, "http://jabber.org/protocol/disco#info"@),
            ),
            PayloadView::ServicesQuery => Some(leaf("services"@, "urn:xmpp:extdisco:2"@)),
            PayloadView::Conference { machine_uid, room, properties } => Some(
                leaf("conference"@, "http://jitsi.org/protocol/focus"@).with_attr(
                    "machine-uid"@,
                    machine_uid,
                ).with_attr("room"@, room).with_children(
                    properties.map_values(|p: (Seq<char>, Seq<char>)| property_tree(p)),
                ),
            ),
            PayloadView::SessionAccept { jingle } => Some(jingle),
            PayloadView::DiscoInfo { node } => Some(info_tree(node, own_info())),
            PayloadView::ItemNotFound { text } => Some(
                leaf("error"@, "jabber:client"@).with_attr("type"@, "cancel"@).with_child(
                    leaf("item-not-found"@, "urn:ietf:params:xml:ns:xmpp-stanzas"@),
                ).with_child(
                    leaf("text"@, "urn:ietf:params:xml:ns:xmpp-stanzas"@).with_attr(
                        "xml:lang"@,
                        "en"@,
                    ).with_text(text),
                ),
            ),
            PayloadView::Empty => None,
        }
    }
}

/// The text of an optional JID.
pub open spec fn opt_text(jid: Option<JidView>) -> Option<Seq<char>> {
    match jid {
        Some(jid) => Some(jid.text()),
        None => None,
    }
}

impl StanzaView {
    /// The element that the stanza is.
    pub open spec fn tree(self) -> Tree {
        match self {
            StanzaView::Open { domain } => leaf(
                "open"@,
                "urn:ietf:params:xml:ns:xmpp-framing"@,
            ).with_attr("to"@, domain.text()).with_attr("version"@, "1.0"@),
            StanzaView::Auth { mechanism, data } => leaf(
                "auth"@,
                "urn:ietf:params:xml:ns:xmpp-sasl"@,
            ).with_attr("mechanism"@, mechanism.text()).with_text(base64_of(data)),
            StanzaView::Iq { from, to, id, payload } => {
                let iq = leaf("iq"@, "jabber:client"@).with_opt_attr(
                    "from"@,
                    opt_text(from),
                ).with_opt_attr("to"@, opt_text(to)).with_attr("id"@, id).with_attr(
                    "type"@,
                    payload.iq_type(),
                );
                match payload.tree() {
                    Some(child) => iq.with_child(child),
                    None => iq,
                }
            },
            StanzaView::Presence { occupant, payloads } => leaf(
                "presence"@,
                "jabber:client"@,
            ).with_attr("to"@, occupant.text()).with_children(payloads),
            StanzaView::Message { sender, room, id, json } => leaf(
                "message"@,
                "jabber:client"@,
            ).with_attr("from"@, sender.text()).with_attr("to"@, room.text()).with_attr(
                "id"@,
                id,
            ).with_attr("type"@, "groupchat"@).with_child(
                leaf("json-message"@, "http://jitsi.org/jitmeet"@).with_text(json),
            ),
        }
    }
}

/// The attribute names in use here are ones that XML takes.
proof fn lemma_attr_names()
    ensures
        attr_name("to"@),
        attr_name("from"@),
        attr_name("id"@),
        attr_name("type"@),
        attr_name("version"@),
        attr_name("mechanism"@),
        attr_name("machine-uid"@),
        attr_name("room"@),
        attr_name("name"@),
        attr_name("value"@),
{
    reveal_strlit("to");
    reveal_strlit("from");
    reveal_strlit("id");
    reveal_strlit("type");
    reveal_strlit("version");
    reveal_strlit("mechanism");
    reveal_strlit("machine-uid");
    reveal_strlit("room");
    reveal_strlit("name");
    reveal_strlit("value");
}

impl Payload {
    fn iq_type(&self) -> (r: &'static str)
        ensures
            r@ == self@.iq_type(),
    {
        match self {
            Payload::Bind => "set",
            Payload::DiscoInfoQuery => "get",
            Payload::ServicesQuery => "get",
            Payload::Conference { .. } => "set",
            Payload::SessionAccept { .. } => "set",
            Payload::DiscoInfo { .. } => "result",
            Payload::ItemNotFound { .. } => "error",
            Payload::Empty => "result",
        }
    }

    /// The element inside an IQ with this payload.
    fn to_element(&self) -> (r: Option<Built>)
        ensures
            (match r {
                Some(e) => self@.tree() == Some(e@),
                None => self@.tree() is None,
            }),
    {
        proof {
            lemma_attr_names();
        }
        match self {
            Payload::Bind => Some(Built::new("bind", "urn:ietf:params:xml:ns:xmpp-bind")),
            Payload::DiscoInfoQuery => Some(
                Built::new("query", "http://jabber.org/protocol/disco#info"),
            ),
            Payload::ServicesQuery => Some(Built::new("services", "urn:xmpp:extdisco:2")),
            Payload::Conference { machine_uid, room, properties } => {
                let mut children: Vec<Built> = Vec::new();
                for i in 0..properties.len()
                    invariant
                        attr_name("name"@),
                        attr_name("value"@),
                        children@.len() == i,
                        forall|j: int|
                            0 <= j < i ==> (#[trigger] children@[j])@ == property_tree(
                                pairs(properties@)[j],
                            ),
                {
                    children.push(
                        Built::new("property", "http://jitsi.org/protocol/focus").attr(
                            "name",
                            properties[i].0.as_str(),
                        ).attr("value", properties[i].1.as_str()),
                    );
                }
                assert(built_trees(children@) =~= pairs(properties@).map_values(
                    |p: (Seq<char>, Seq<char>)| property_tree(p),
                ));
                Some(
                    Built::new("conference", "http://jitsi.org/protocol/focus").attr(
                        "machine-uid",
                        machine_uid.as_str(),
                    ).attr("room", room.as_str()).children(&children),
                )
            },
            Payload::SessionAccept { jingle } => Some(jingle.clone()),
            Payload::DiscoInfo { node } => Some(info_element(node, &disco_info())),
            Payload::ItemNotFound { text } => Some(
                Built::new("error", "jabber:client").attr("type", "cancel").child(
                    Built::new("item-not-found", "urn:ietf:params:xml:ns:xmpp-stanzas"),
                ).child(
                    Built::new("text", "urn:ietf:params:xml:ns:xmpp-stanzas").attr(
                        "xml:lang",
                        "en",
                    ).text(text.as_str()),
                ),
            ),
            Payload::Empty => None,
        }
    }
}

fn jid_text(jid: &Option<Jid>) -> (r: Option<String>)
    ensures
        opt(r) == opt_text(opt_jid(*jid)),
{
    match jid {
        Some(jid) => Some(jid.to_string()),
        None => None,
    }
}

impl Stanza {
    /// The element that the stanza is.
    pub fn to_element(&self) -> (r: Built)
        ensures
            r@ == self@.tree(),
    {
        proof {
            lemma_attr_names();
        }
        match self {
            Stanza::Open { domain } => Built::new("open", "urn:ietf:params:xml:ns:xmpp-framing").attr(
                "to",
                domain.to_string().as_str(),
            ).attr("version", "1.0"),
            Stanza::Auth { mechanism, data } => {
                let name = match mechanism {
                    Mechanism::Anonymous => "ANONYMOUS",
                    Mechanism::Plain => "PLAIN",
                };
                Built::new("auth", "urn:ietf:params:xml:ns:xmpp-sasl").attr("mechanism", name).text(
                    to_base64(data).as_str(),
                )
            },
            Stanza::Iq { from, to, id, payload } => {
                let iq = Built::new("iq", "jabber:client").opt_attr(
                    "from",
                    &jid_text(from),
                ).opt_attr("to", &jid_text(to)).attr("id", id.as_str()).attr(
                    "type",
                    payload.iq_type(),
                );
                match payload.to_element() {
                    Some(child) => iq.child(child),
                    None => iq,
                }
            },
            Stanza::Presence { occupant, payloads } => Built::new("presence", "jabber:client").attr(
                "to",
                occupant.to_string().as_str(),
            ).children(payloads),
            Stanza::Message { sender, room, id, json } => Built::new("message", "jabber:client").attr(
                "from",
                sender.to_string().as_str(),
            ).attr("to", room.to_string().as_str()).attr("id", id.as_str()).attr(
                "type",
                "groupchat",
            ).child(Built::new("json-message", "http://jitsi.org/jitmeet").text(json.as_str())),
        }
    }

    /// The text that goes over the wire; an error where the stanza holds a character that XML
    /// cannot carry.
    pub fn to_xml(&self) -> (r: Result<String, Error>)
        ensures
            (match r {
                Ok(xml) => written(self@.tree()) == Some(xml@),
                Err(e) => e == Error::Unwritable && written(self@.tree()) is None,
            }),
    {
        match self.to_element().write() {
            Some(xml) => Ok(xml),
            None => Err(Error::Unwritable),
        }
    }
}

} // verus!
