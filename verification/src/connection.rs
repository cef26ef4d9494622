//! The XMPP connection: its handshake, from the opening of the WebSocket to the point where
//! conferences can be joined.
use vstd::prelude::*;
use vstd::utf8::encode_utf8;
use xmpp_parsers::Element;

use crate::conference::{is_joining, room_config, Conference, ConferenceConfig, Joining};
use crate::element::{read, tree_in, tree_of, Tree};
use crate::error::Error;
use crate::extdisco::{copy_services, read_services, service_views, services_of, Service, ServiceView};
use crate::inbound::{
    bound_jid, iq_of, is_disco_info, is_open, is_success, opt_view, read_bind_response, read_iq,
    reads_as_disco_info, reads_as_open, reads_as_success, IqPayload, IqPayloadView,
};
use crate::jid::{jid_of, opt_full, BareJid, BareJidView, FullJid, FullJidView, Jid, JidView};
use crate::stanza::{Mechanism, Payload, PayloadView, Stanza, StanzaView};
use crate::text::{lowercase, lowercased};
use crate::util::{base64_unpadded, generate_id, generate_key, is_uuid};

verus! {

/// How far the handshake has come.
#[derive(Clone, Copy, Debug, PartialEq, Eq, Structural)]
pub enum ConnectionState {
    OpeningPreAuthentication,
    ReceivingFeaturesPreAuthentication,
    Authenticating,
    OpeningPostAuthentication,
    ReceivingFeaturesPostAuthentication,
    Binding,
    Discovering,
    DiscoveringExternalServices,
    Idle,
}

impl ConnectionState {
    /// The place of the state in the handshake.
    pub open spec fn rank(self) -> int {
        match self {
            ConnectionState::OpeningPreAuthentication => 0,
            ConnectionState::ReceivingFeaturesPreAuthentication => 1,
            ConnectionState::Authenticating => 2,
            ConnectionState::OpeningPostAuthentication => 3,
            ConnectionState::ReceivingFeaturesPostAuthentication => 4,
            ConnectionState::Binding => 5,
            ConnectionState::Discovering => 6,
            ConnectionState::DiscoveringExternalServices => 7,
            ConnectionState::Idle => 8,
        }
    }
}

/// Who the client claims to be.
pub enum Authentication {
    Anonymous,
    Plain { username: String, password: String },
}

pub enum AuthenticationView {
    Anonymous,
    Plain { username: Seq<char>, password: Seq<char> },
}

impl View for Authentication {
    type V = AuthenticationView;

    open spec fn view(&self) -> AuthenticationView {
        match self {
            Authentication::Anonymous => AuthenticationView::Anonymous,
            Authentication::Plain { username, password } => AuthenticationView::Plain {
                username: username@,
                password: password@,
            },
        }
    }
}

impl AuthenticationView {
    pub open spec fn mechanism(self) -> Mechanism {
        match self {
            AuthenticationView::Anonymous => Mechanism::Anonymous,
            AuthenticationView::Plain { .. } => Mechanism::Plain,
        }
    }

    /// The credentials as they are sent: nothing, or the name and the password in UTF-8, with a zero
    /// byte before each.
    pub open spec fn data(self) -> Seq<u8> {
        match self {
            AuthenticationView::Anonymous => Seq::empty(),
            AuthenticationView::Plain { username, password } => seq![0u8] + encode_utf8(username)
                + seq![0u8] + encode_utf8(password),
        }
    }
}

/// A connection. It holds what the handshake has found out so far.
pub struct Connection {
    state: ConnectionState,
    jid: Option<FullJid>,
    xmpp_domain: BareJid,
    authentication: Authentication,
    external_services: Vec<Service>,
    tls_insecure: bool,
}

pub struct ConnectionView {
    pub state: ConnectionState,
    pub jid: Option<FullJidView>,
    pub xmpp_domain: BareJidView,
    pub authentication: AuthenticationView,
    pub external_services: Seq<ServiceView>,
    pub tls_insecure: bool,
}

impl View for Connection {
    type V = ConnectionView;

    closed spec fn view(&self) -> ConnectionView {
        ConnectionView {
            state: self.state,
            jid: opt_full(self.jid),
            xmpp_domain: self.xmpp_domain@,
            authentication: self.authentication@,
            external_services: service_views(self.external_services@),
            tls_insecure: self.tls_insecure,
        }
    }
}

impl ConnectionView {
    /// The JID is known from the binding on, and not before. External services are known only at the
    /// end of the handshake.
    pub open spec fn wf(self) -> bool {
        &&& self.state.rank() > ConnectionState::Binding.rank() ==> self.jid is Some
        &&& self.jid is Some ==> self.state.rank() >= ConnectionState::Binding.rank()
        &&& self.external_services.len() > 0 ==> self.state is Idle
    }
}

/// What the handshake reads out of an element.
pub struct Facts {
    /// The element opens a stream.
    pub open: bool,
    /// The element reports that the authentication succeeded.
    pub success: bool,
    /// The element is an IQ.
    pub iq: Option<IqFacts>,
}

pub struct IqFacts {
    /// What the answer says, where the IQ is an answer with a payload.
    pub answer: Option<AnswerFacts>,
}

pub struct AnswerFacts {
    /// The JID that was bound.
    pub bound: Option<FullJid>,
    /// The payload gives identities and features.
    pub disco_info: bool,
    /// The external services that the payload lists.
    pub services: Option<Vec<Service>>,
}

pub struct FactsView {
    pub open: bool,
    pub success: bool,
    pub iq: Option<IqFactsView>,
}

pub struct IqFactsView {
    pub answer: Option<AnswerFactsView>,
}

pub struct AnswerFactsView {
    pub bound: Option<FullJidView>,
    pub disco_info: bool,
    pub services: Option<Seq<ServiceView>>,
}

impl View for AnswerFacts {
    type V = AnswerFactsView;

    open spec fn view(&self) -> AnswerFactsView {
        AnswerFactsView {
            bound: opt_full(self.bound),
            disco_info: self.disco_info,
            services: match self.services {
                Some(services) => Some(service_views(services@)),
                None => None,
            },
        }
    }
}

impl View for IqFacts {
    type V = IqFactsView;

    open spec fn view(&self) -> IqFactsView {
        IqFactsView { answer: opt_view(self.answer) }
    }
}

impl View for Facts {
    type V = FactsView;

    open spec fn view(&self) -> FactsView {
        FactsView { open: self.open, success: self.success, iq: opt_view(self.iq) }
    }
}

/// What the handshake reads out of an element.
pub open spec fn facts_of(tree: Tree) -> FactsView {
    FactsView {
        open: is_open(tree),
        success: is_success(tree),
        iq: match iq_of(tree) {
            Some(iq) => Some(
                IqFactsView {
                    answer: match iq.payload {
                        IqPayloadView::Answer(Some(answer)) => Some(
                            AnswerFactsView {
                                bound: bound_jid(answer),
                                disco_info: is_disco_info(answer),
                                services: services_of(answer),
                            },
                        ),
                        _ => None,
                    },
                },
            ),
            None => None,
        },
    }
}

/// What a connection does after a step.
pub struct Reaction {
    /// A stanza to send. Once it is sent, call [`Connection::sent`].
    pub send: Option<Stanza>,
    /// The handshake is complete.
    pub connected: bool,
    /// Pings are to be answered from now on, in the name of this JID.
    pub pinger: Option<FullJid>,
    /// The element is for the first filter that accepts it.
    pub dispatch: bool,
}

pub struct ReactionView {
    pub send: Option<StanzaView>,
    pub connected: bool,
    pub pinger: Option<FullJidView>,
    pub dispatch: bool,
}

impl View for Reaction {
    type V = ReactionView;

    open spec fn view(&self) -> ReactionView {
        ReactionView {
            send: opt_view(self.send),
            connected: self.connected,
            pinger: opt_full(self.pinger),
            dispatch: self.dispatch,
        }
    }
}

/// The result of a step, seen through its view.
pub open spec fn outcome(r: Result<Reaction, Error>) -> Result<ReactionView, Error> {
    match r {
        Ok(reaction) => Ok(reaction@),
        Err(e) => Err(e),
    }
}

/// No reaction.
pub open spec fn quiet() -> ReactionView {
    ReactionView { send: None, connected: false, pinger: None, dispatch: false }
}

pub open spec fn sending(stanza: StanzaView) -> ReactionView {
    ReactionView { send: Some(stanza), ..quiet() }
}

/// The next step of the handshake, where `id` is the identifier of the IQ to send, if there is one.
/// Where a stanza is to be sent, the state stays until it is: see [`after_send`]. An error leaves the
/// connection as it was, and ends it.
pub open spec fn step(c: ConnectionView, facts: FactsView, id: Seq<char>) -> (
    ConnectionView,
    Result<ReactionView, Error>,
) {
    match c.state {
        ConnectionState::OpeningPreAuthentication => if facts.open {
            (
                ConnectionView { state: ConnectionState::ReceivingFeaturesPreAuthentication, ..c },
                Ok(quiet()),
            )
        } else {
            (c, Err(Error::NotOpen))
        },
        ConnectionState::ReceivingFeaturesPreAuthentication => (
            c,
            Ok(
                sending(
                    StanzaView::Auth {
                        mechanism: c.authentication.mechanism(),
                        data: c.authentication.data(),
                    },
                ),
            ),
        ),
        ConnectionState::Authenticating => if facts.success {
            (c, Ok(sending(StanzaView::Open { domain: c.xmpp_domain })))
        } else {
            (c, Err(Error::NotSuccess))
        },
        ConnectionState::OpeningPostAuthentication => if facts.open {
            (
                ConnectionView { state: ConnectionState::ReceivingFeaturesPostAuthentication, ..c },
                Ok(quiet()),
            )
        } else {
            (c, Err(Error::NotOpen))
        },
        ConnectionState::ReceivingFeaturesPostAuthentication => (
            c,
            Ok(
                sending(
                    StanzaView::Iq { from: None, to: None, id, payload: PayloadView::Bind },
                ),
            ),
        ),
        ConnectionState::Binding => match facts.iq {
            // Anything but an IQ is ignored while the answer is awaited.
            None => (c, Ok(quiet())),
            Some(IqFactsView { answer: None }) => (c, Err(Error::BindFailed)),
            Some(IqFactsView { answer: Some(answer) }) => match answer.bound {
                None => (c, Err(Error::NotBindResponse)),
                Some(jid) => (
                    ConnectionView { jid: Some(jid), ..c },
                    Ok(sending(question(jid, c.xmpp_domain, id, PayloadView::DiscoInfoQuery))),
                ),
            },
        },
        ConnectionState::Discovering => match facts.iq {
            None => (c, Err(Error::NotIq)),
            Some(IqFactsView { answer: None }) => (c, Err(Error::DiscoFailed)),
            Some(IqFactsView { answer: Some(answer) }) => if answer.disco_info {
                (
                    c,
                    Ok(
                        sending(
                            question(c.jid->0, c.xmpp_domain, id, PayloadView::ServicesQuery),
                        ),
                    ),
                )
            } else {
                (c, Err(Error::NotDiscoInfo))
            },
        },
        ConnectionState::DiscoveringExternalServices => match facts.iq {
            None => (c, Err(Error::NotIq)),
            // A server without external services does not stop the handshake.
            Some(IqFactsView { answer: None }) => (
                ConnectionView { state: ConnectionState::Idle, ..c },
                Ok(ReactionView { connected: true, pinger: c.jid, ..quiet() }),
            ),
            Some(IqFactsView { answer: Some(answer) }) => match answer.services {
                None => (c, Err(Error::NotServices)),
                Some(services) => (
                    ConnectionView {
                        state: ConnectionState::Idle,
                        external_services: services,
                        ..c
                    },
                    Ok(ReactionView { connected: true, pinger: c.jid, ..quiet() }),
                ),
            },
        },
        ConnectionState::Idle => (c, Ok(ReactionView { dispatch: true, ..quiet() })),
    }
}

/// A connection once the stanza of its last step is sent.
pub open spec fn after_send(c: ConnectionView) -> ConnectionView {
    ConnectionView {
        state: match c.state {
            ConnectionState::ReceivingFeaturesPreAuthentication => ConnectionState::Authenticating,
            ConnectionState::Authenticating => ConnectionState::OpeningPostAuthentication,
            ConnectionState::ReceivingFeaturesPostAuthentication => ConnectionState::Binding,
            ConnectionState::Binding => if c.jid is Some {
                ConnectionState::Discovering
            } else {
                ConnectionState::Binding
            },
            ConnectionState::Discovering => ConnectionState::DiscoveringExternalServices,
            state => state,
        },
        ..c
    }
}

/// A connection after a step and after the stanza of the step, if there is one, was sent.
pub open spec fn after_step(c: ConnectionView, facts: FactsView, id: Seq<char>) -> ConnectionView {
    let (after, r) = step(c, facts, id);
    if r matches Ok(reaction) && reaction.send is Some {
        after_send(after)
    } else {
        after
    }
}

/// A question from the client to its server.
pub open spec fn question(
    jid: FullJidView,
    domain: BareJidView,
    id: Seq<char>,
    payload: PayloadView,
) -> StanzaView {
    StanzaView::Iq {
        from: Some(JidView::Full(jid)),
        to: Some(JidView::Bare(domain)),
        id,
        payload,
    }
}

/// What is asked of the server to open the WebSocket.
pub struct Handshake {
    pub url: String,
    pub headers: Vec<(String, String)>,
}

pub struct HandshakeView {
    pub url: Seq<char>,
    pub headers: Seq<(Seq<char>, Seq<char>)>,
}

impl View for Handshake {
    type V = HandshakeView;

    open spec fn view(&self) -> HandshakeView {
        HandshakeView { url: self.url@, headers: crate::stanza::pairs(self.headers@) }
    }
}

/// The handshake with a host under this key.
pub open spec fn handshake_of(url: Seq<char>, host: Seq<char>, key: Seq<char>) -> HandshakeView {
    HandshakeView {
        url,
        headers: seq![
            ("sec-websocket-protocol"@, "xmpp"@),
            ("sec-websocket-key"@, key),
            ("sec-websocket-version"@, "13"@),
            ("host"@, host),
            ("connection"@, "Upgrade"@),
            ("upgrade"@, "websocket"@),
        ],
    }
}

/// The host that a URL names: nothing where the text is not a URL, and nothing inside where the URL
/// has no host.
pub uninterp spec fn host_in(url: Seq<char>) -> Option<Option<Seq<char>>>;

/// The two layers of an optional host, seen through their characters.
pub open spec fn opt_opt(host: Option<Option<String>>) -> Option<Option<Seq<char>>> {
    match host {
        Some(host) => Some(crate::text::opt(host)),
        None => None,
    }
}

/// `http::Uri::from_str` and `http::Uri::host`: the host is a function of the text.
#[verifier::external_body]
fn read_host(url: &str) -> (r: Option<Option<String>>)
    ensures
        opt_opt(r) == host_in(url@),
{
    let uri = url.parse::<tokio_tungstenite::tungstenite::http::Uri>().ok()?;
    Some(uri.host().map(|host| host.to_string()))
}

/// A connection that is about to open its WebSocket.
pub struct Connecting {
    pub handshake: Handshake,
    pub connection: Connection,
    /// What to send once the WebSocket is open.
    pub open: Stanza,
}

/// What a connection attempt consists of, where `host` is what the URL names, or why there is none.
pub open spec fn is_connecting(
    url: Seq<char>,
    host: Option<Option<Seq<char>>>,
    xmpp_domain: Seq<char>,
    authentication: AuthenticationView,
    tls_insecure: bool,
    key: Seq<char>,
    r: Result<Connecting, Error>,
) -> bool {
    match (host, jid_of(xmpp_domain)) {
        (None, _) => r == Err::<Connecting, Error>(Error::InvalidWebSocketUrl),
        (Some(_), Err(e)) => r == Err::<Connecting, Error>(Error::InvalidDomain(e)),
        (Some(None), Ok(_)) => r == Err::<Connecting, Error>(Error::MissingHost),
        (Some(Some(host)), Ok(jid)) => match r {
            Ok(connecting) => {
                &&& connecting.handshake@ == handshake_of(url, host, key)
                &&& connecting.open@ == StanzaView::Open { domain: jid.bare() }
                &&& connecting.connection@ == ConnectionView {
                    state: ConnectionState::OpeningPreAuthentication,
                    jid: None,
                    xmpp_domain: jid.bare(),
                    authentication,
                    external_services: Seq::empty(),
                    tls_insecure,
                }
            },
            Err(_) => false,
        },
    }
}

/// What comes over the WebSocket.
pub enum Incoming {
    Text(String),
    /// A message that is not text.
    Other,
    /// The end of the stream.
    End,
}

pub enum IncomingView {
    Text(Seq<char>),
    Other,
    End,
}

impl View for Incoming {
    type V = IncomingView;

    open spec fn view(&self) -> IncomingView {
        match self {
            Incoming::Text(xml) => IncomingView::Text(xml@),
            Incoming::Other => IncomingView::Other,
            Incoming::End => IncomingView::End,
        }
    }
}

/// An element that was received, and what the connection does about it.
pub struct Received {
    pub element: Element,
    pub reaction: Reaction,
}

pub struct ReceivedView {
    pub tree: Tree,
    pub reaction: ReactionView,
}

impl View for Received {
    type V = ReceivedView;

    open spec fn view(&self) -> ReceivedView {
        ReceivedView { tree: tree_of(self.element), reaction: self.reaction@ }
    }
}

/// The result of receiving something, seen through its view.
pub open spec fn reception(r: Result<Option<Received>, Error>) -> Result<
    Option<ReceivedView>,
    Error,
> {
    match r {
        Ok(received) => Ok(opt_view(received)),
        Err(e) => Err(e),
    }
}

/// What a connection does about what came over the WebSocket, where `id` is the identifier of the IQ
/// to send, if there is one. Messages that are not text are skipped. An error ends the connection.
pub open spec fn receive_step(c: ConnectionView, incoming: IncomingView, id: Seq<char>) -> (
    ConnectionView,
    Result<Option<ReceivedView>, Error>,
) {
    match incoming {
        IncomingView::Text(xml) => match tree_in(xml) {
            Some(tree) => {
                let (after, r) = step(c, facts_of(tree), id);
                (
                    after,
                    match r {
                        Ok(reaction) => Ok(Some(ReceivedView { tree, reaction })),
                        Err(e) => Err(e),
                    },
                )
            },
            None => (c, Err(Error::InvalidXml)),
        },
        IncomingView::Other => (c, Ok(None)),
        IncomingView::End => (c, Err(Error::UnexpectedEof)),
    }
}

/// Reads what came over the WebSocket. Messages that are not text are skipped.
pub fn read_incoming(incoming: &Incoming) -> (r: Result<Option<Element>, Error>)
    ensures
        (match incoming {
            Incoming::Text(xml) => match r {
                Ok(Some(element)) => tree_in(xml@) == Some(tree_of(element)),
                Ok(None) => false,
                Err(e) => e == Error::InvalidXml && tree_in(xml@) is None,
            },
            Incoming::Other => r == Ok::<Option<Element>, Error>(None),
            Incoming::End => r == Err::<Option<Element>, Error>(Error::UnexpectedEof),
        }),
{
    match incoming {
        Incoming::Text(xml) => match read(xml.as_str()) {
            Some(element) => Ok(Some(element)),
            None => Err(Error::InvalidXml),
        },
        Incoming::Other => Ok(None),
        Incoming::End => Err(Error::UnexpectedEof),
    }
}

/// Reads what the handshake needs out of an element.
pub fn read_facts(element: &Element) -> (r: Facts)
    ensures
        r@ == facts_of(tree_of(*element)),
{
    let iq = match read_iq(element) {
        Some(iq) => Some(
            IqFacts {
                answer: match &iq.payload {
                    IqPayload::Answer(Some(answer)) => Some(
                        AnswerFacts {
                            bound: read_bind_response(answer),
                            disco_info: reads_as_disco_info(answer),
                            services: read_services(answer),
                        },
                    ),
                    _ => None,
                },
            },
        ),
        None => None,
    };
    Facts { open: reads_as_open(element), success: reads_as_success(element), iq }
}

/// The index of the first filter that accepts an element, where `accepts` tells which of them do.
pub fn first_accepting(accepts: &Vec<bool>) -> (r: Option<usize>)
    ensures
        (match r {
            Some(i) => {
                &&& i < accepts@.len()
                &&& accepts@[i as int]
                &&& forall|j: int| 0 <= j < i ==> !(#[trigger] accepts@[j])
            },
            None => forall|j: int| 0 <= j < accepts@.len() ==> !(#[trigger] accepts@[j]),
        }),
{
    for i in 0..accepts.len()
        invariant
            forall|j: int| 0 <= j < i ==> !(#[trigger] accepts@[j]),
    {
        if accepts[i] {
            return Some(i);
        }
    }
    None
}

fn header(name: &str, value: &str) -> (r: (String, String))
    ensures
        r.0@ == name@,
        r.1@ == value@,
{
    (name.to_owned(), value.to_owned())
}

/// The handshake with a host under a key.
pub fn handshake(url: &str, host: &str, key: &str) -> (r: Handshake)
    ensures
        r@ == handshake_of(url@, host@, key@),
{
    let mut headers: Vec<(String, String)> = Vec::new();
    headers.push(header("sec-websocket-protocol", "xmpp"));
    headers.push(header("sec-websocket-key", key));
    headers.push(header("sec-websocket-version", "13"));
    headers.push(header("host", host));
    headers.push(header("connection", "Upgrade"));
    headers.push(header("upgrade", "websocket"));
    let r = Handshake { url: url.to_owned(), headers };
    assert(r@.headers =~= handshake_of(url@, host@, key@).headers);
    r
}

impl Authentication {
    /// The first step of the authentication.
    pub fn auth(&self) -> (r: Stanza)
        ensures
            r@ == (StanzaView::Auth { mechanism: self@.mechanism(), data: self@.data() }),
    {
        match self {
            Authentication::Anonymous => {
                let data: Vec<u8> = Vec::new();
                assert(data@ =~= self@.data());
                Stanza::Auth { mechanism: Mechanism::Anonymous, data }
            },
            Authentication::Plain { username, password } => {
                let mut data: Vec<u8> = Vec::new();
                data.push(0u8);
                data.extend_from_slice(username.as_str().as_bytes());
                data.push(0u8);
                data.extend_from_slice(password.as_str().as_bytes());
                assert(data@ =~= self@.data());
                Stanza::Auth { mechanism: Mechanism::Plain, data }
            },
        }
    }
}

impl Connection {
    #[verifier::type_invariant]
    spec fn inv(self) -> bool {
        self@.wf()
    }

    /// A connection attempt where `host` is what the URL names and `key` is the key of the
    /// handshake.
    pub fn connect_to(
        websocket_url: &str,
        host: Option<Option<String>>,
        xmpp_domain: &str,
        authentication: Authentication,
        tls_insecure: bool,
        key: &str,
    ) -> (r: Result<Connecting, Error>)
        ensures
            is_connecting(
                websocket_url@,
                opt_opt(host),
                xmpp_domain@,
                authentication@,
                tls_insecure,
                key@,
                r,
            ),
            r is Ok ==> r->Ok_0.connection@.wf(),
    {
        let host = match host {
            Some(host) => host,
            None => {
                return Err(Error::InvalidWebSocketUrl);
            },
        };
        let xmpp_domain = match BareJid::parse(xmpp_domain) {
            Ok(jid) => jid,
            Err(e) => {
                return Err(Error::InvalidDomain(e));
            },
        };
        let host = match host {
            Some(host) => host,
            None => {
                return Err(Error::MissingHost);
            },
        };
        let external_services: Vec<Service> = Vec::new();
        assert(service_views(external_services@) =~= Seq::empty());
        Ok(
            Connecting {
                handshake: handshake(websocket_url, host.as_str(), key),
                open: Stanza::Open { domain: xmpp_domain.clone() },
                connection: Connection {
                    state: ConnectionState::OpeningPreAuthentication,
                    jid: None,
                    xmpp_domain,
                    authentication,
                    external_services,
                    tls_insecure,
                },
            },
        )
    }

    /// Begins a connection attempt, with a fresh key.
    pub fn connect(
        websocket_url: &str,
        xmpp_domain: &str,
        authentication: Authentication,
        tls_insecure: bool,
    ) -> (r: Result<Connecting, Error>)
        ensures
            exists|bytes: Seq<u8>|
                bytes.len() == 16 && is_connecting(
                    websocket_url@,
                    host_in(websocket_url@),
                    xmpp_domain@,
                    authentication@,
                    tls_insecure,
                    #[trigger] base64_unpadded(bytes),
                    r,
                ),
            r is Ok ==> r->Ok_0.handshake@.headers[1].1.len() == 22,
            r is Ok ==> r->Ok_0.connection@.wf(),
    {
        let key = generate_key();
        Connection::connect_to(
            websocket_url,
            read_host(websocket_url),
            xmpp_domain,
            authentication,
            tls_insecure,
            key.as_str(),
        )
    }

    /// The JID that was bound, once it is.
    pub fn jid(&self) -> (r: Option<FullJid>)
        ensures
            opt_full(r) == self@.jid,
    {
        match &self.jid {
            Some(jid) => Some(jid.clone()),
            None => None,
        }
    }

    /// The external services that the server told of.
    pub fn external_services(&self) -> (r: Vec<Service>)
        ensures
            service_views(r@) == self@.external_services,
    {
        copy_services(&self.external_services)
    }

    /// Whether the certificates of servers are accepted unchecked.
    pub fn tls_insecure(&self) -> (r: bool)
        ensures
            r == self@.tls_insecure,
    {
        self.tls_insecure
    }

    /// Joins the conference of this name, in lower case, with the defaults for everything else.
    pub fn join(&self, conference_name: &str, nick: &str) -> (r: Result<Joining, Error>)
        ensures
            (match room_config(self@.xmpp_domain, lowercased(conference_name@), nick@) {
                Err(e) => r == Err::<Joining, Error>(e),
                Ok(config) => exists|machine_uid: Seq<char>, id: Seq<char>| #[trigger]
                    is_uuid(machine_uid) && #[trigger] is_uuid(id) && is_joining(
                        self@,
                        config,
                        machine_uid,
                        id,
                        r,
                    ),
            }),
            r is Ok ==> r->Ok_0.conference@.wf(),
    {
        let room = lowercase(conference_name);
        match ConferenceConfig::for_room(&self.xmpp_domain, room.as_str(), nick) {
            Ok(config) => self.join_config(config),
            Err(e) => Err(e),
        }
    }

    /// Joins a conference.
    pub fn join_config(&self, conference_config: ConferenceConfig) -> (r: Result<Joining, Error>)
        ensures
            exists|machine_uid: Seq<char>, id: Seq<char>| #[trigger]
                is_uuid(machine_uid) && #[trigger] is_uuid(id) && is_joining(
                    self@,
                    conference_config@,
                    machine_uid,
                    id,
                    r,
                ),
            r is Ok ==> r->Ok_0.conference@.wf(),
    {
        Conference::new(self, conference_config)
    }

    /// How far the handshake has come.
    pub fn state(&self) -> (r: ConnectionState)
        ensures
            r == self@.state,
    {
        self.state
    }

    /// Takes the next step of the handshake. `id` is the identifier of the IQ to send, if there is
    /// one.
    pub fn advance(&mut self, facts: Facts, id: String) -> (r: Result<Reaction, Error>)
        ensures
            (final(self)@, outcome(r)) == step(old(self)@, facts@, id@),
            final(self)@.wf(),
    {
        proof {
            use_type_invariant(&*self);
        }
        match self.state {
            ConnectionState::OpeningPreAuthentication => {
                if !facts.open {
                    return Err(Error::NotOpen);
                }
                self.state = ConnectionState::ReceivingFeaturesPreAuthentication;
                Ok(Reaction { send: None, connected: false, pinger: None, dispatch: false })
            },
            ConnectionState::ReceivingFeaturesPreAuthentication => {
                let auth = self.authentication.auth();
                Ok(Reaction { send: Some(auth), connected: false, pinger: None, dispatch: false })
            },
            ConnectionState::Authenticating => {
                if !facts.success {
                    return Err(Error::NotSuccess);
                }
                let open = Stanza::Open { domain: self.xmpp_domain.clone() };
                Ok(Reaction { send: Some(open), connected: false, pinger: None, dispatch: false })
            },
            ConnectionState::OpeningPostAuthentication => {
                if !facts.open {
                    return Err(Error::NotOpen);
                }
                self.state = ConnectionState::ReceivingFeaturesPostAuthentication;
                Ok(Reaction { send: None, connected: false, pinger: None, dispatch: false })
            },
            ConnectionState::ReceivingFeaturesPostAuthentication => {
                let iq = Stanza::Iq { from: None, to: None, id, payload: Payload::Bind };
                Ok(Reaction { send: Some(iq), connected: false, pinger: None, dispatch: false })
            },
            ConnectionState::Binding => match facts.iq {
                None => Ok(
                    Reaction { send: None, connected: false, pinger: None, dispatch: false },
                ),
                Some(IqFacts { answer: None }) => Err(Error::BindFailed),
                Some(IqFacts { answer: Some(answer) }) => match answer.bound {
                    None => Err(Error::NotBindResponse),
                    Some(jid) => {
                        let iq = Stanza::Iq {
                            from: Some(Jid::Full(jid.clone())),
                            to: Some(Jid::Bare(self.xmpp_domain.clone())),
                            id,
                            payload: Payload::DiscoInfoQuery,
                        };
                        self.jid = Some(jid);
                        Ok(
                            Reaction {
                                send: Some(iq),
                                connected: false,
                                pinger: None,
                                dispatch: false,
                            },
                        )
                    },
                },
            },
            ConnectionState::Discovering => match facts.iq {
                None => Err(Error::NotIq),
                Some(IqFacts { answer: None }) => Err(Error::DiscoFailed),
                Some(IqFacts { answer: Some(answer) }) => {
                    if !answer.disco_info {
                        return Err(Error::NotDiscoInfo);
                    }
                    let iq = Stanza::Iq {
                        from: match &self.jid {
                            Some(jid) => Some(Jid::Full(jid.clone())),
                            None => None,
                        },
                        to: Some(Jid::Bare(self.xmpp_domain.clone())),
                        id,
                        payload: Payload::ServicesQuery,
                    };
                    Ok(Reaction { send: Some(iq), connected: false, pinger: None, dispatch: false })
                },
            },
            ConnectionState::DiscoveringExternalServices => match facts.iq {
                None => Err(Error::NotIq),
                Some(iq) => {
                    match iq.answer {
                        None => {
                            self.state = ConnectionState::Idle;
                        },
                        Some(answer) => match answer.services {
                            None => {
                                return Err(Error::NotServices);
                            },
                            Some(services) => {
                                self.state = ConnectionState::Idle;
                                self.external_services = services;
                            },
                        },
                    }
                    let pinger = self.jid();
                    Ok(Reaction { send: None, connected: true, pinger, dispatch: false })
                },
            },
            ConnectionState::Idle => Ok(
                Reaction { send: None, connected: false, pinger: None, dispatch: true },
            ),
        }
    }

    /// Goes on once the stanza of the last step is sent.
    pub fn sent(&mut self)
        ensures
            final(self)@ == after_send(old(self)@),
            final(self)@.wf(),
    {
        proof {
            use_type_invariant(&*self);
        }
        match self.state {
            ConnectionState::ReceivingFeaturesPreAuthentication => {
                self.state = ConnectionState::Authenticating;
            },
            ConnectionState::Authenticating => {
                self.state = ConnectionState::OpeningPostAuthentication;
            },
            ConnectionState::ReceivingFeaturesPostAuthentication => {
                self.state = ConnectionState::Binding;
            },
            ConnectionState::Binding => {
                if self.jid.is_some() {
                    self.state = ConnectionState::Discovering;
                }
            },
            ConnectionState::Discovering => {
                self.state = ConnectionState::DiscoveringExternalServices;
            },
            _ => {},
        }
    }

    /// Handles an element that arrived. An IQ that is sent in turn has a fresh identifier.
    pub fn handle(&mut self, element: &Element) -> (r: Result<Reaction, Error>)
        ensures
            exists|id: Seq<char>| #[trigger]
                is_uuid(id) && (final(self)@, outcome(r)) == step(
                    old(self)@,
                    facts_of(tree_of(*element)),
                    id,
                ),
            final(self)@.wf(),
    {
        let id = generate_id();
        self.advance(read_facts(element), id)
    }

    /// Receives what came over the WebSocket. An IQ that is sent in turn has a fresh identifier.
    pub fn receive(&mut self, incoming: &Incoming) -> (r: Result<Option<Received>, Error>)
        ensures
            exists|id: Seq<char>| #[trigger]
                is_uuid(id) && (final(self)@, reception(r)) == receive_step(
                    old(self)@,
                    incoming@,
                    id,
                ),
            final(self)@.wf(),
    {
        proof {
            use_type_invariant(&*self);
        }
        let id = generate_id();
        let ghost fresh = id@;
        assert(is_uuid(fresh));
        let element = match read_incoming(incoming) {
            Ok(Some(element)) => element,
            Ok(None) => {
                return Ok(None);
            },
            Err(e) => {
                return Err(e);
            },
        };
        match self.advance(read_facts(&element), id) {
            Ok(reaction) => Ok(Some(Received { element, reaction })),
            Err(e) => Err(e),
        }
    }
}

} // verus!
