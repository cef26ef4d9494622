//! What arrives, as the values that the rest of the library decides on.
use jitsi_jingle_sdp::SessionDescription;
use vstd::prelude::*;
use xmpp_parsers::iq::IqType;
use xmpp_parsers::presence::Type;
use xmpp_parsers::Element;

use crate::element::{attr, children, is_named, text, tree_of, trees_of, Tree};
use crate::jid::{jid_of, opt_full, opt_jid, BareJid, FullJid, FullJidView, Jid, JidView};
use crate::sdp::{add_sources, offer, offers_of, sdp_of, sources_added, SdpView};
use crate::text::opt;

verus! {

/// An IQ as it arrives.
pub struct Iq {
    pub from: Option<Jid>,
    pub id: String,
    pub payload: IqPayload,
}

pub enum IqPayload {
    /// A question.
    Query(Element),
    /// A request to do something.
    Command(Element),
    /// An answer, or an acknowledgement where it holds nothing.
    Answer(Option<Element>),
    Failure,
}

/// A presence as it arrives.
pub struct Presence {
    pub from: Option<Jid>,
    pub type_: PresenceType,
    pub payloads: Vec<Element>,
}

/// What a presence is for.
#[derive(Clone, Copy, Debug, PartialEq, Eq, Structural)]
pub enum PresenceType {
    /// The sender is there: the presence names no type.
    Available,
    Error,
    Probe,
    Subscribe,
    Subscribed,
    /// The sender is gone.
    Unavailable,
    Unsubscribe,
    Unsubscribed,
}

/// One occupant that a room tells of.
pub struct Item {
    pub jid: Option<FullJid>,
    pub nick: Option<String>,
}

/// What a room adds to a presence.
pub struct MucUser {
    /// The status codes, in decimal.
    pub statuses: Vec<String>,
    pub items: Vec<Item>,
}

/// A question for identities and features.
pub struct DiscoInfoQuery {
    pub node: Option<String>,
}

/// An ICE transport, as far as it matters here.
pub struct IceUdp {
    /// The URL of the Colibri WebSocket.
    pub web_socket: Option<String>,
}

/// How the media of a content travels.
pub enum Transport {
    IceUdp(IceUdp),
    Ibb,
    Socks5,
    Unknown,
}

/// One content of a session.
pub struct Content {
    pub transport: Option<Transport>,
}

/// A message of the session protocol.
pub struct Jingle {
    pub action: String,
    pub sid: String,
    pub contents: Vec<Content>,
}

pub struct IqView {
    pub from: Option<JidView>,
    pub id: Seq<char>,
    pub payload: IqPayloadView,
}

pub enum IqPayloadView {
    Query(Tree),
    Command(Tree),
    Answer(Option<Tree>),
    Failure,
}

pub struct PresenceView {
    pub from: Option<JidView>,
    pub type_: PresenceType,
    pub payloads: Seq<Tree>,
}

pub struct ItemView {
    pub jid: Option<FullJidView>,
    pub nick: Option<Seq<char>>,
}

pub struct MucUserView {
    pub statuses: Seq<Seq<char>>,
    pub items: Seq<ItemView>,
}

pub struct DiscoInfoQueryView {
    pub node: Option<Seq<char>>,
}

pub struct IceUdpView {
    pub web_socket: Option<Seq<char>>,
}

pub enum TransportView {
    IceUdp(IceUdpView),
    Ibb,
    Socks5,
    Unknown,
}

pub struct ContentView {
    pub transport: Option<TransportView>,
}

pub struct JingleView {
    pub action: Seq<char>,
    pub sid: Seq<char>,
    pub contents: Seq<ContentView>,
}

impl View for IqPayload {
    type V = IqPayloadView;

    open spec fn view(&self) -> IqPayloadView {
        match self {
            IqPayload::Query(e) => IqPayloadView::Query(tree_of(*e)),
            IqPayload::Command(e) => IqPayloadView::Command(tree_of(*e)),
            IqPayload::Answer(Some(e)) => IqPayloadView::Answer(Some(tree_of(*e))),
            IqPayload::Answer(None) => IqPayloadView::Answer(None),
            IqPayload::Failure => IqPayloadView::Failure,
        }
    }
}

impl View for Iq {
    type V = IqView;

    open spec fn view(&self) -> IqView {
        IqView { from: opt_jid(self.from), id: self.id@, payload: self.payload@ }
    }
}

impl View for Presence {
    type V = PresenceView;

    open spec fn view(&self) -> PresenceView {
        PresenceView {
            from: opt_jid(self.from),
            type_: self.type_,
            payloads: trees_of(self.payloads@),
        }
    }
}

impl View for Item {
    type V = ItemView;

    open spec fn view(&self) -> ItemView {
        ItemView { jid: opt_full(self.jid), nick: opt(self.nick) }
    }
}

impl View for MucUser {
    type V = MucUserView;

    open spec fn view(&self) -> MucUserView {
        MucUserView {
            statuses: self.statuses@.map_values(|s: String| s@),
            items: self.items@.map_values(|i: Item| i@),
        }
    }
}

impl View for DiscoInfoQuery {
    type V = DiscoInfoQueryView;

    open spec fn view(&self) -> DiscoInfoQueryView {
        DiscoInfoQueryView { node: opt(self.node) }
    }
}

impl View for IceUdp {
    type V = IceUdpView;

    open spec fn view(&self) -> IceUdpView {
        IceUdpView { web_socket: opt(self.web_socket) }
    }
}

impl View for Transport {
    type V = TransportView;

    open spec fn view(&self) -> TransportView {
        match self {
            Transport::IceUdp(ice_udp) => TransportView::IceUdp(ice_udp@),
            Transport::Ibb => TransportView::Ibb,
            Transport::Socks5 => TransportView::Socks5,
            Transport::Unknown => TransportView::Unknown,
        }
    }
}

impl View for Content {
    type V = ContentView;

    open spec fn view(&self) -> ContentView {
        ContentView { transport: opt_view(self.transport) }
    }
}

impl View for Jingle {
    type V = JingleView;

    open spec fn view(&self) -> JingleView {
        JingleView {
            action: self.action@,
            sid: self.sid@,
            contents: self.contents@.map_values(|c: Content| c@),
        }
    }
}

/// The view of an optional value.
pub open spec fn opt_view<T: View>(x: Option<T>) -> Option<T::V> {
    match x {
        Some(x) => Some(x@),
        None => None,
    }
}

/// The sender that an element names, if it names one.
pub open spec fn sender_of(tree: Tree) -> Option<JidView> {
    match tree.attr("from"@) {
        Some(from) => match jid_of(from) {
            Ok(jid) => Some(jid),
            Err(_) => None,
        },
        None => None,
    }
}

/// Whether the child elements of an IQ that reports a failure are what they have to be.
pub uninterp spec fn holds_failure(tree: Tree) -> bool;

/// What an IQ asks for or answers, where `failure` tells whether it reports a failure as it has to. A
/// question and a request have one child element, and an answer at most one.
pub open spec fn iq_payload_of(tree: Tree, failure: bool) -> Option<IqPayloadView> {
    let type_ = tree.attr("type"@);
    let children = tree.elements();
    if type_ == Some("get"@) && children.len() == 1 {
        Some(IqPayloadView::Query(children[0]))
    } else if type_ == Some("set"@) && children.len() == 1 {
        Some(IqPayloadView::Command(children[0]))
    } else if type_ == Some("result"@) && children.len() == 1 {
        Some(IqPayloadView::Answer(Some(children[0])))
    } else if type_ == Some("result"@) && children.len() == 0 {
        Some(IqPayloadView::Answer(None))
    } else if type_ == Some("error"@) && failure {
        Some(IqPayloadView::Failure)
    } else {
        None
    }
}

/// The IQ that an element is, if it is one, where `failure` tells whether it reports a failure as it
/// has to. It has an identifier, and where it names the two ends they are JIDs.
pub open spec fn iq_with(tree: Tree, failure: bool) -> Option<IqView> {
    match (tree.attr("id"@), iq_payload_of(tree, failure)) {
        (Some(id), Some(payload)) => if tree.is("iq"@, "jabber:client"@) && jid_or_absent(
            tree,
            "from"@,
        ) && jid_or_absent(tree, "to"@) {
            Some(IqView { from: sender_of(tree), id, payload })
        } else {
            None
        },
        _ => None,
    }
}

/// The IQ that an element is, if it is one.
pub open spec fn iq_of(tree: Tree) -> Option<IqView> {
    iq_with(tree, holds_failure(tree))
}

/// What a presence is for, if it says it in a way that is known.
pub open spec fn presence_type_of(tree: Tree) -> Option<PresenceType> {
    match tree.attr("type"@) {
        None => Some(PresenceType::Available),
        Some(type_) => if type_ == "error"@ {
            Some(PresenceType::Error)
        } else if type_ == "probe"@ {
            Some(PresenceType::Probe)
        } else if type_ == "subscribe"@ {
            Some(PresenceType::Subscribe)
        } else if type_ == "subscribed"@ {
            Some(PresenceType::Subscribed)
        } else if type_ == "unavailable"@ {
            Some(PresenceType::Unavailable)
        } else if type_ == "unsubscribe"@ {
            Some(PresenceType::Unsubscribe)
        } else if type_ == "unsubscribed"@ {
            Some(PresenceType::Unsubscribed)
        } else {
            None
        },
    }
}

/// Whether a child element of a presence tells how available its sender is. All others are payloads.
pub open spec fn is_availability(tree: Tree) -> bool {
    ||| tree.is("show"@, "jabber:client"@)
    ||| tree.is("status"@, "jabber:client"@)
    ||| tree.is("priority"@, "jabber:client"@)
}

/// Whether a presence tells how available its sender is as it has to.
pub uninterp spec fn availability_holds(tree: Tree) -> bool;

/// The presence that an element is, if it is one, where `availability` tells whether it says how
/// available its sender is as it has to. Where it names the two ends they are JIDs.
pub open spec fn presence_with(tree: Tree, availability: bool) -> Option<PresenceView> {
    match presence_type_of(tree) {
        Some(type_) => if tree.is("presence"@, "jabber:client"@) && jid_or_absent(tree, "from"@)
            && jid_or_absent(tree, "to"@) && availability {
            Some(
                PresenceView {
                    from: sender_of(tree),
                    type_,
                    payloads: tree.elements().filter(|t: Tree| !is_availability(t)),
                },
            )
        } else {
            None
        },
        None => None,
    }
}

/// The presence that an element is, if it is one.
pub open spec fn presence_of(tree: Tree) -> Option<PresenceView> {
    presence_with(tree, availability_holds(tree))
}

/// What a room adds to a presence, if the element is that.
pub uninterp spec fn muc_user_of(tree: Tree) -> Option<MucUserView>;

/// The nickname that an element gives, if it is one that does: its text.
pub open spec fn nick_of(tree: Tree) -> Option<Seq<char>> {
    if tree.is("nick"@, "http://jabber.org/protocol/nick"@) {
        Some(tree.text())
    } else {
        None
    }
}

/// The question for identities and features that an element is, if it is one. It has no child
/// elements.
pub open spec fn disco_query_of(tree: Tree) -> Option<DiscoInfoQueryView> {
    if tree.is("query"@, "http://jabber.org/protocol/disco#info"@) && tree.elements().len() == 0 {
        Some(DiscoInfoQueryView { node: tree.attr("node"@) })
    } else {
        None
    }
}

/// Whether an element is an answer to such a question.
pub uninterp spec fn is_disco_info(tree: Tree) -> bool;

/// The message of the session protocol that an element is, if it is one.
pub uninterp spec fn jingle_of(tree: Tree) -> Option<JingleView>;

/// Whether an attribute is absent or spells a JID.
pub open spec fn jid_or_absent(tree: Tree, name: Seq<char>) -> bool {
    match tree.attr(name) {
        Some(value) => jid_of(value) is Ok,
        None => true,
    }
}

/// Whether an element opens a stream. It has no child elements, and where it names the two ends they
/// are JIDs.
pub open spec fn is_open(tree: Tree) -> bool {
    &&& tree.is("open"@, "urn:ietf:params:xml:ns:xmpp-framing"@)
    &&& tree.elements().len() == 0
    &&& jid_or_absent(tree, "from"@)
    &&& jid_or_absent(tree, "to"@)
}

/// Whether an element reports that the authentication succeeded.
pub uninterp spec fn is_success(tree: Tree) -> bool;

/// The JID that an element says was bound, if it says so: the full JID in the text of its only child
/// element.
pub open spec fn bound_jid(tree: Tree) -> Option<FullJidView> {
    if tree.is("bind"@, "urn:ietf:params:xml:ns:xmpp-bind"@) && tree.elements().len() == 1
        && tree.elements()[0].is("jid"@, "urn:ietf:params:xml:ns:xmpp-bind"@) {
        match jid_of(tree.elements()[0].text()) {
            Ok(JidView::Full(jid)) => Some(jid),
            _ => None,
        }
    } else {
        None
    }
}

/// `xmpp_parsers::iq::Iq::try_from`: reads the IQ as [`iq_with`] says. Only whether an IQ of the type
/// `error` is accepted has a name in place of a statement; it is a function of what the element holds.
#[verifier::external_body]
pub(crate) fn read_iq(element: &Element) -> (r: Option<Iq>)
    ensures
        opt_view(r) == iq_with(tree_of(*element), holds_failure(tree_of(*element))),
{
    let iq = xmpp_parsers::iq::Iq::try_from(element.clone()).ok()?;
    Some(Iq {
        from: match iq.from {
            Some(xmpp_parsers::Jid::Bare(j)) => Some(Jid::Bare(BareJid { node: j.node, domain: j.domain })),
            Some(xmpp_parsers::Jid::Full(j)) => Some(Jid::Full(FullJid { node: j.node, domain: j.domain, resource: j.resource })),
            None => None,
        },
        id: iq.id,
        payload: match iq.payload {
            IqType::Get(e) => IqPayload::Query(e),
            IqType::Set(e) => IqPayload::Command(e),
            IqType::Result(e) => IqPayload::Answer(e),
            IqType::Error(_) => IqPayload::Failure,
        } })
}

/// `xmpp_parsers::presence::Presence::try_from`: reads the presence as [`presence_with`] says. Only
/// whether its `show`, `status` and `priority` children are accepted has a name in place of a
/// statement; it is a function of what the element holds.
#[verifier::external_body]
pub(crate) fn read_presence(element: &Element) -> (r: Option<Presence>)
    ensures
        opt_view(r) == presence_with(tree_of(*element), availability_holds(tree_of(*element))),
{
    let presence = xmpp_parsers::presence::Presence::try_from(element.clone()).ok()?;
    Some(Presence {
        from: match presence.from {
            Some(xmpp_parsers::Jid::Bare(j)) => Some(Jid::Bare(BareJid { node: j.node, domain: j.domain })),
            Some(xmpp_parsers::Jid::Full(j)) => Some(Jid::Full(FullJid { node: j.node, domain: j.domain, resource: j.resource })),
            None => None,
        },
        type_: match presence.type_ {
            Type::None => PresenceType::Available, Type::Error => PresenceType::Error,
            Type::Probe => PresenceType::Probe, Type::Subscribe => PresenceType::Subscribe,
            Type::Subscribed => PresenceType::Subscribed, Type::Unavailable => PresenceType::Unavailable,
            Type::Unsubscribe => PresenceType::Unsubscribe, Type::Unsubscribed => PresenceType::Unsubscribed,
        },
        payloads: presence.payloads })
}

/// `xmpp_parsers::muc::MucUser::try_from`: a function of what the element holds. Each status is given
/// by the code under which it is written.
#[verifier::external_body]
pub(crate) fn read_muc_user(element: &Element) -> (r: Option<MucUser>)
    ensures
        opt_view(r) == muc_user_of(tree_of(*element)),
{
    let muc_user = xmpp_parsers::muc::MucUser::try_from(element.clone()).ok()?;
    Some(MucUser {
        statuses: muc_user.status.into_iter().map(
            |status| Element::from(status).attr("code").unwrap_or_default().to_string(),
        ).collect(),
        items: muc_user.items.into_iter().map(|item| Item {
            jid: item.jid.map(|j| FullJid { node: j.node, domain: j.domain, resource: j.resource }),
            nick: item.nick,
        }).collect(),
    })
}

/// `xmpp_parsers::nick::Nick::try_from`: takes the text of an element of this name, as [`nick_of`]
/// says. Attributes and child elements do not matter: the crate is built without its validation.
#[verifier::external_body]
pub(crate) fn read_nick(element: &Element) -> (r: Option<String>)
    ensures
        opt(r) == nick_of(tree_of(*element)),
{
    xmpp_parsers::nick::Nick::try_from(element.clone()).ok().map(|nick| nick.0)
}

/// `xmpp_parsers::disco::DiscoInfoQuery::try_from`: takes the node of an element of this name without
/// child elements, as [`disco_query_of`] says. Other attributes do not matter: the crate is built
/// without its validation.
#[verifier::external_body]
pub(crate) fn read_disco_query(element: &Element) -> (r: Option<DiscoInfoQuery>)
    ensures
        opt_view(r) == disco_query_of(tree_of(*element)),
{
    let query = xmpp_parsers::disco::DiscoInfoQuery::try_from(element.clone()).ok()?;
    Some(DiscoInfoQuery { node: query.node })
}

/// `xmpp_parsers::disco::DiscoInfoResult::try_from`: whether it succeeds is a function of what the
/// element holds.
#[verifier::external_body]
pub(crate) fn reads_as_disco_info(element: &Element) -> (r: bool)
    ensures
        r == is_disco_info(tree_of(*element)),
{
    xmpp_parsers::disco::DiscoInfoResult::try_from(element.clone()).is_ok()
}

/// `jitsi_xmpp_parsers::jingle::Jingle::try_from`: a function of what the element holds. It panics
/// on the fingerprints that [`breaks_reader`] describes: such elements are left out.
#[verifier::external_body]
pub(crate) fn read_jingle(element: &Element) -> (r: Option<Jingle>)
    requires
        fingerprints_decodable(tree_of(*element)),
    ensures
        opt_view(r) == jingle_of(tree_of(*element)),
{
    let jingle = jitsi_xmpp_parsers::jingle::Jingle::try_from(element.clone()).ok()?;
    Some(Jingle {
        action: jingle.action.to_string(),
        sid: jingle.sid.0,
        contents: jingle.contents.into_iter().map(|content| Content {
            transport: content.transport.map(|transport| match transport {
                jitsi_xmpp_parsers::jingle::Transport::IceUdp(t) => Transport::IceUdp(
                    IceUdp { web_socket: t.web_socket.map(|web_socket| web_socket.url) }),
                jitsi_xmpp_parsers::jingle::Transport::Ibb(_) => Transport::Ibb,
                jitsi_xmpp_parsers::jingle::Transport::Socks5(_) => Transport::Socks5,
                jitsi_xmpp_parsers::jingle::Transport::Unknown(_) => Transport::Unknown,
            }),
        }).collect() })
}

/// `xmpp_parsers::websocket::Open::try_from`: succeeds where [`is_open`] says. Other attributes do not
/// matter: the crate is built without its validation.
#[verifier::external_body]
pub(crate) fn reads_as_open(element: &Element) -> (r: bool)
    ensures
        r == is_open(tree_of(*element)),
{
    xmpp_parsers::websocket::Open::try_from(element.clone()).is_ok()
}

/// `xmpp_parsers::sasl::Success::try_from`: whether it succeeds is a function of what the element
/// holds.
#[verifier::external_body]
pub(crate) fn reads_as_success(element: &Element) -> (r: bool)
    ensures
        r == is_success(tree_of(*element)),
{
    xmpp_parsers::sasl::Success::try_from(element.clone()).is_ok()
}

/// `xmpp_parsers::bind::BindResponse::try_from`, and the JID that the response gives, as
/// [`bound_jid`] says. Attributes do not matter: the crate is built without its validation.
#[verifier::external_body]
pub(crate) fn read_bind_response(element: &Element) -> (r: Option<FullJid>)
    ensures
        opt_full(r) == bound_jid(tree_of(*element)),
{
    let response = xmpp_parsers::bind::BindResponse::try_from(element.clone()).ok()?;
    let jid = xmpp_parsers::FullJid::from(response);
    Some(FullJid { node: jid.node, domain: jid.domain, resource: jid.resource })
}

/// Whether a character is a hexadecimal digit.
pub open spec fn is_hex_digit(c: char) -> bool {
    '0' <= c <= '9' || 'a' <= c <= 'f' || 'A' <= c <= 'F'
}

/// Whether two characters are read as a byte: two hexadecimal digits, or one behind a plus sign.
pub open spec fn is_hex_byte(a: char, b: char) -> bool {
    (is_hex_digit(a) || a == '+') && is_hex_digit(b)
}

/// Whether the reader of hexadecimal bytes set apart by colons breaks down on a text. It takes two
/// bytes of the text at a time and refuses the text where they are not a byte in hexadecimal, so
/// that what follows is not looked at. It breaks down where they end inside a character, and where
/// anything but a colon follows them.
pub open spec fn breaks_reader(s: Seq<char>) -> bool
    decreases s.len(),
{
    if s.len() == 0 {
        false
    } else if s[0] as u32 >= 0x80 {
        s[0] as u32 >= 0x800
    } else if s.len() == 1 {
        false
    } else if s[1] as u32 >= 0x80 {
        true
    } else if !is_hex_byte(s[0], s[1]) {
        false
    } else if s.len() == 2 {
        false
    } else {
        s[2] != ':' || breaks_reader(s.skip(3))
    }
}

/// Whether no fingerprint that the session protocol reads out of the element breaks its reader.
pub open spec fn fingerprints_decodable(jingle: Tree) -> bool {
    forall|i: int|
        0 <= i < jingle.elements().len() && #[trigger] jingle.elements()[i].is(
            "content"@,
            "urn:xmpp:jingle:1"@,
        ) ==> content_decodable(jingle.elements()[i])
}

/// The same for one content.
pub open spec fn content_decodable(content: Tree) -> bool {
    forall|i: int|
        0 <= i < content.elements().len() && #[trigger] content.elements()[i].is(
            "transport"@,
            "urn:xmpp:jingle:transports:ice-udp:1"@,
        ) ==> transport_decodable(content.elements()[i])
}

/// The same for one ICE transport.
pub open spec fn transport_decodable(transport: Tree) -> bool {
    forall|i: int|
        0 <= i < transport.elements().len() && #[trigger] transport.elements()[i].is(
            "fingerprint"@,
            "urn:xmpp:jingle:apps:dtls:0"@,
        ) ==> !breaks_reader(transport.elements()[i].text())
}

fn hex_digit(c: char) -> (r: bool)
    ensures
        r == is_hex_digit(c),
{
    ('0' <= c && c <= '9') || ('a' <= c && c <= 'f') || ('A' <= c && c <= 'F')
}

/// Whether the reader of hexadecimal bytes set apart by colons breaks down on a text.
pub fn check_breaks(s: &str) -> (r: bool)
    ensures
        r == breaks_reader(s@),
{
    let n: usize = s.unicode_len();
    let mut i: usize = 0;
    assert(s@.skip(0) =~= s@);
    while i < n
        invariant
            i <= n,
            n == s@.len(),
            breaks_reader(s@) == breaks_reader(s@.skip(i as int)),
        decreases n - i,
    {
        let ghost rest = s@.skip(i as int);
        let first = s.get_char(i);
        if first as u32 >= 0x80 {
            return first as u32 >= 0x800;
        }
        if n - i == 1 {
            return false;
        }
        let second = s.get_char(i + 1);
        if second as u32 >= 0x80 {
            return true;
        }
        if !((hex_digit(first) || first == '+') && hex_digit(second)) {
            return false;
        }
        if n - i == 2 {
            return false;
        }
        if s.get_char(i + 2) != ':' {
            return true;
        }
        assert(rest.skip(3) =~= s@.skip(i + 3));
        i = i + 3;
    }
    false
}

fn check_transport(transport: &Element) -> (r: bool)
    ensures
        r == transport_decodable(tree_of(*transport)),
{
    let elements = children(transport);
    let ghost all = tree_of(*transport).elements();
    assert(all =~= trees_of(elements@));
    for i in 0..elements.len()
        invariant
            all == tree_of(*transport).elements(),
            all == trees_of(elements@),
            forall|j: int|
                0 <= j < i && #[trigger] all[j].is("fingerprint"@, "urn:xmpp:jingle:apps:dtls:0"@)
                    ==> !breaks_reader(all[j].text()),
    {
        assert(all[i as int] == tree_of(elements@[i as int]));
        if is_named(&elements[i], "fingerprint", "urn:xmpp:jingle:apps:dtls:0") && check_breaks(
            text(&elements[i]).as_str(),
        ) {
            return false;
        }
    }
    true
}

fn check_content(content: &Element) -> (r: bool)
    ensures
        r == content_decodable(tree_of(*content)),
{
    let elements = children(content);
    let ghost all = tree_of(*content).elements();
    assert(all =~= trees_of(elements@));
    for i in 0..elements.len()
        invariant
            all == tree_of(*content).elements(),
            all == trees_of(elements@),
            forall|j: int|
                0 <= j < i && #[trigger] all[j].is(
                    "transport"@,
                    "urn:xmpp:jingle:transports:ice-udp:1"@,
                ) ==> transport_decodable(all[j]),
    {
        assert(all[i as int] == tree_of(elements@[i as int]));
        if is_named(&elements[i], "transport", "urn:xmpp:jingle:transports:ice-udp:1")
            && !check_transport(&elements[i]) {
            return false;
        }
    }
    true
}

fn check_fingerprints(jingle: &Element) -> (r: bool)
    ensures
        r == fingerprints_decodable(tree_of(*jingle)),
{
    let elements = children(jingle);
    let ghost all = tree_of(*jingle).elements();
    assert(all =~= trees_of(elements@));
    for i in 0..elements.len()
        invariant
            all == tree_of(*jingle).elements(),
            all == trees_of(elements@),
            forall|j: int|
                0 <= j < i && #[trigger] all[j].is("content"@, "urn:xmpp:jingle:1"@)
                    ==> content_decodable(all[j]),
    {
        assert(all[i as int] == tree_of(elements@[i as int]));
        if is_named(&elements[i], "content", "urn:xmpp:jingle:1") && !check_content(&elements[i]) {
            return false;
        }
    }
    true
}

/// What a conference reads out of an element: the IQ or the presence that it is, with the payloads
/// that matter read in turn.
pub struct Inbound {
    pub iq: Option<InboundIq>,
    pub presence: Option<InboundPresence>,
}

pub struct InboundIq {
    pub from: Option<Jid>,
    pub id: String,
    pub payload: InboundPayload,
}

pub enum InboundPayload {
    /// A question, and what it asks for where it asks for identities and features.
    Query { query: Option<DiscoInfoQuery> },
    /// A request, and what it says where it belongs to the session protocol.
    Command { jingle: Option<InboundJingle> },
    /// An answer, and what its payload says where it has one.
    Answer { conference: Option<ConferenceAnswer> },
    Failure,
}

/// A message of the session protocol, with the element that it was read from.
pub struct InboundJingle {
    jingle: Jingle,
    element: Element,
}

/// The answer of a focus to a request for a room.
pub struct ConferenceAnswer {
    pub ready: Option<String>,
}

/// A presence with its first nickname and its first word from the room. Either is absent, or there
/// but not readable, or there and read.
pub struct InboundPresence {
    pub from: Option<Jid>,
    pub unavailable: bool,
    pub nick: Option<Option<String>>,
    pub muc_user: Option<Option<MucUser>>,
}

pub struct InboundView {
    pub iq: Option<InboundIqView>,
    pub presence: Option<InboundPresenceView>,
}

pub struct InboundIqView {
    pub from: Option<JidView>,
    pub id: Seq<char>,
    pub payload: InboundPayloadView,
}

pub enum InboundPayloadView {
    Query { query: Option<DiscoInfoQueryView> },
    Command { jingle: Option<InboundJingleView> },
    Answer { conference: Option<ConferenceAnswerView> },
    Failure,
}

pub struct InboundJingleView {
    pub jingle: JingleView,
    pub tree: Tree,
}

pub struct ConferenceAnswerView {
    pub ready: Option<Seq<char>>,
}

pub struct InboundPresenceView {
    pub from: Option<JidView>,
    pub unavailable: bool,
    pub nick: Option<Option<Seq<char>>>,
    pub muc_user: Option<Option<MucUserView>>,
}

impl View for InboundJingle {
    type V = InboundJingleView;

    closed spec fn view(&self) -> InboundJingleView {
        InboundJingleView { jingle: self.jingle@, tree: tree_of(self.element) }
    }
}

impl InboundJingle {
    #[verifier::type_invariant]
    spec fn inv(self) -> bool {
        &&& fingerprints_decodable(tree_of(self.element))
        &&& jingle_of(tree_of(self.element)) == Some(self.jingle@)
    }

    /// Reads a message of the session protocol.
    pub fn read(element: Element) -> (r: Option<InboundJingle>)
        ensures
            opt_view(r) == inbound_jingle_of(tree_of(element)),
    {
        if !check_fingerprints(&element) {
            return None;
        }
        match read_jingle(&element) {
            Some(jingle) => Some(InboundJingle { jingle, element }),
            None => None,
        }
    }

    /// What the message says.
    pub fn jingle(&self) -> (r: &Jingle)
        ensures
            r@ == self@.jingle,
    {
        &self.jingle
    }

    /// The element that the message was read from.
    pub fn element(&self) -> (r: &Element)
        ensures
            tree_of(*r) == self@.tree,
    {
        &self.element
    }

    /// The session description that the message offers; nothing where the offer is incomplete.
    pub fn offer(&self) -> (r: Option<SessionDescription>)
        ensures
            (match r {
                Some(sdp) => offers_of(self@.tree).contains(sdp_of(sdp)),
                None => offers_of(self@.tree) == Set::<SdpView>::empty(),
            }),
    {
        proof {
            use_type_invariant(self);
        }
        offer(&self.element)
    }

    /// Adds the sources that the message names to a session description.
    pub fn add_sources(&self, sdp: &mut SessionDescription)
        ensures
            sources_added(sdp_of(*old(sdp)), self@.tree).contains(sdp_of(*final(sdp))),
            sdp_of(*final(sdp)).attributes == sdp_of(*old(sdp)).attributes,
            sdp_of(*old(sdp)).sections.is_prefix_of(sdp_of(*final(sdp)).sections),
    {
        proof {
            use_type_invariant(self);
        }
        add_sources(sdp, &self.element)
    }
}

impl View for ConferenceAnswer {
    type V = ConferenceAnswerView;

    open spec fn view(&self) -> ConferenceAnswerView {
        ConferenceAnswerView { ready: opt(self.ready) }
    }
}

impl View for InboundPayload {
    type V = InboundPayloadView;

    open spec fn view(&self) -> InboundPayloadView {
        match self {
            InboundPayload::Query { query } => InboundPayloadView::Query {
                query: opt_view(*query),
            },
            InboundPayload::Command { jingle } => InboundPayloadView::Command {
                jingle: opt_view(*jingle),
            },
            InboundPayload::Answer { conference } => InboundPayloadView::Answer {
                conference: opt_view(*conference),
            },
            InboundPayload::Failure => InboundPayloadView::Failure,
        }
    }
}

impl View for InboundIq {
    type V = InboundIqView;

    open spec fn view(&self) -> InboundIqView {
        InboundIqView { from: opt_jid(self.from), id: self.id@, payload: self.payload@ }
    }
}

impl View for InboundPresence {
    type V = InboundPresenceView;

    open spec fn view(&self) -> InboundPresenceView {
        InboundPresenceView {
            from: opt_jid(self.from),
            unavailable: self.unavailable,
            nick: match self.nick {
                Some(nick) => Some(opt(nick)),
                None => None,
            },
            muc_user: match self.muc_user {
                Some(muc_user) => Some(opt_view(muc_user)),
                None => None,
            },
        }
    }
}

impl View for Inbound {
    type V = InboundView;

    open spec fn view(&self) -> InboundView {
        InboundView { iq: opt_view(self.iq), presence: opt_view(self.presence) }
    }
}

/// The first of several elements with this name and this namespace.
pub open spec fn first_is(trees: Seq<Tree>, name: Seq<char>, ns: Seq<char>) -> Option<Tree>
    decreases trees.len(),
{
    if trees.len() == 0 {
        None
    } else if trees[0].is(name, ns) {
        Some(trees[0])
    } else {
        first_is(trees.skip(1), name, ns)
    }
}

/// What the session protocol says in an element. One with a fingerprint that breaks its reader says
/// nothing.
pub open spec fn inbound_jingle_of(tree: Tree) -> Option<InboundJingleView> {
    if fingerprints_decodable(tree) {
        match jingle_of(tree) {
            Some(jingle) => Some(InboundJingleView { jingle, tree }),
            None => None,
        }
    } else {
        None
    }
}

/// What a conference reads out of an IQ.
pub open spec fn inbound_iq_of(iq: IqView) -> InboundIqView {
    InboundIqView {
        from: iq.from,
        id: iq.id,
        payload: match iq.payload {
            IqPayloadView::Query(tree) => InboundPayloadView::Query { query: disco_query_of(tree) },
            IqPayloadView::Command(tree) => InboundPayloadView::Command {
                jingle: inbound_jingle_of(tree),
            },
            IqPayloadView::Answer(Some(tree)) => InboundPayloadView::Answer {
                conference: Some(ConferenceAnswerView { ready: tree.attr("ready"@) }),
            },
            IqPayloadView::Answer(None) => InboundPayloadView::Answer { conference: None },
            IqPayloadView::Failure => InboundPayloadView::Failure,
        },
    }
}

/// What a conference reads out of a presence.
pub open spec fn inbound_presence_of(presence: PresenceView) -> InboundPresenceView {
    InboundPresenceView {
        from: presence.from,
        unavailable: presence.type_ is Unavailable,
        nick: match first_is(presence.payloads, "nick"@, "http://jabber.org/protocol/nick"@) {
            Some(tree) => Some(nick_of(tree)),
            None => None,
        },
        muc_user: match first_is(
            presence.payloads,
            "x"@,
            "http://jabber.org/protocol/muc#user"@,
        ) {
            Some(tree) => Some(muc_user_of(tree)),
            None => None,
        },
    }
}

/// What a conference reads out of an element.
pub open spec fn inbound_of(tree: Tree) -> InboundView {
    InboundView {
        iq: match iq_of(tree) {
            Some(iq) => Some(inbound_iq_of(iq)),
            None => None,
        },
        presence: match presence_of(tree) {
            Some(presence) => Some(inbound_presence_of(presence)),
            None => None,
        },
    }
}

/// The first of several elements with this name and this namespace.
fn find<'a>(elements: &'a Vec<Element>, name: &str, ns: &str) -> (r: Option<&'a Element>)
    ensures
        (match r {
            Some(e) => first_is(trees_of(elements@), name@, ns@) == Some(tree_of(*e)),
            None => first_is(trees_of(elements@), name@, ns@) is None,
        }),
{
    let ghost all = trees_of(elements@);
    assert(all.skip(0) =~= all);
    for i in 0..elements.len()
        invariant
            all == trees_of(elements@),
            first_is(all, name@, ns@) == first_is(all.skip(i as int), name@, ns@),
    {
        assert(all.skip(i as int)[0] == tree_of(elements@[i as int]));
        assert(all.skip(i as int).skip(1) =~= all.skip(i + 1));
        if is_named(&elements[i], name, ns) {
            return Some(&elements[i]);
        }
    }
    None
}

fn read_inbound_payload(payload: IqPayload) -> (r: InboundPayload)
    ensures
        forall|from: Option<JidView>, id: Seq<char>|
            r@ == (#[trigger] inbound_iq_of(IqView { from, id, payload: payload@ })).payload,
{
    match payload {
        IqPayload::Query(element) => InboundPayload::Query { query: read_disco_query(&element) },
        IqPayload::Command(element) => InboundPayload::Command {
            jingle: InboundJingle::read(element),
        },
        IqPayload::Answer(Some(element)) => InboundPayload::Answer {
            conference: Some(ConferenceAnswer { ready: attr(&element, "ready") }),
        },
        IqPayload::Answer(None) => InboundPayload::Answer { conference: None },
        IqPayload::Failure => InboundPayload::Failure,
    }
}

fn read_inbound_presence(presence: Presence) -> (r: InboundPresence)
    ensures
        r@ == inbound_presence_of(presence@),
{
    let nick = match find(&presence.payloads, "nick", "http://jabber.org/protocol/nick") {
        Some(element) => Some(read_nick(element)),
        None => None,
    };
    let muc_user = match find(&presence.payloads, "x", "http://jabber.org/protocol/muc#user") {
        Some(element) => Some(read_muc_user(element)),
        None => None,
    };
    let unavailable = presence.type_ == PresenceType::Unavailable;
    InboundPresence { from: presence.from, unavailable, nick, muc_user }
}

/// Reads what a conference needs out of an element.
pub fn read_inbound(element: &Element) -> (r: Inbound)
    ensures
        r@ == inbound_of(tree_of(*element)),
{
    let iq = match read_iq(element) {
        Some(iq) => {
            let ghost view = iq@;
            let payload = read_inbound_payload(iq.payload);
            assert(payload@ == inbound_iq_of(view).payload);
            Some(InboundIq { from: iq.from, id: iq.id, payload })
        },
        None => None,
    };
    let presence = match read_presence(element) {
        Some(presence) => Some(read_inbound_presence(presence)),
        None => None,
    };
    Inbound { iq, presence }
}

} // verus!
