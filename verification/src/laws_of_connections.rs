//! What is owed at every point of the handshake, whatever else holds of the connection.
use vstd::prelude::*;
use vstd::utf8::encode_utf8;

use crate::connection::{
    after_send, after_step, facts_of, handshake_of, is_connecting, receive_step, step,
    AnswerFactsView, AuthenticationView, Connecting, ConnectionState, ConnectionView, FactsView,
    IncomingView, ReactionView, ReceivedView,
};
use crate::element::{tree_in, Tree};
use crate::error::Error;
use crate::extdisco::{service_of, services_of};
use crate::inbound::{bound_jid, iq_of, is_disco_info, is_open, is_success, IqPayloadView};
use crate::jid::{jid_of, BareJidView, FullJidView, JidView};
use crate::stanza::{PayloadView, StanzaView};

verus! {

/// A stream that the server opens, before or after the authentication, is followed by the wait for its
/// features. Nothing is sent. Anything else that arrives is an error.
pub proof fn law_opened_stream_awaits_features(c: ConnectionView, facts: FactsView, id: Seq<char>)
    requires
        c.state is OpeningPreAuthentication || c.state is OpeningPostAuthentication,
    ensures
        facts.open ==> step(c, facts, id) == (
            ConnectionView {
                state: if c.state is OpeningPreAuthentication {
                    ConnectionState::ReceivingFeaturesPreAuthentication
                } else {
                    ConnectionState::ReceivingFeaturesPostAuthentication
                },
                ..c
            },
            Ok::<ReactionView, Error>(
                ReactionView { send: None, connected: false, pinger: None, dispatch: false },
            ),
        ),
        !facts.open ==> step(c, facts, id) == (c, Err::<ReactionView, Error>(Error::NotOpen)),
{
}

/// The first features are answered with the credentials, whatever the features are: nothing under
/// ANONYMOUS, and under PLAIN a zero byte, the name, a zero byte and the password.
pub proof fn law_features_are_answered_with_credentials(
    c: ConnectionView,
    facts: FactsView,
    id: Seq<char>,
)
    requires
        c.state is ReceivingFeaturesPreAuthentication,
    ensures
        step(c, facts, id).0 == c,
        step(c, facts, id).1 matches Ok(reaction) && {
            &&& reaction.connected == false && reaction.dispatch == false && reaction.pinger is None
            &&& reaction.send matches Some(StanzaView::Auth { mechanism, data }) && {
                match c.authentication {
                    AuthenticationView::Anonymous => mechanism is Anonymous && data.len() == 0,
                    AuthenticationView::Plain { username, password } => {
                        &&& mechanism is Plain
                        &&& data == seq![0u8] + encode_utf8(username) + seq![0u8] + encode_utf8(
                            password,
                        )
                    },
                }
            }
        },
        after_step(c, facts, id) == (ConnectionView { state: ConnectionState::Authenticating, ..c }),
{
}

/// A successful authentication is followed by a new stream to the domain of the connection. Anything
/// else that arrives is an error.
pub proof fn law_success_is_followed_by_a_new_stream(
    c: ConnectionView,
    facts: FactsView,
    id: Seq<char>,
)
    requires
        c.state is Authenticating,
    ensures
        facts.success ==> step(c, facts, id) == (
            c,
            Ok::<ReactionView, Error>(
                ReactionView {
                    send: Some(StanzaView::Open { domain: c.xmpp_domain }),
                    connected: false,
                    pinger: None,
                    dispatch: false,
                },
            ),
        ),
        facts.success ==> after_step(c, facts, id) == (ConnectionView {
            state: ConnectionState::OpeningPostAuthentication,
            ..c
        }),
        !facts.success ==> step(c, facts, id) == (c, Err::<ReactionView, Error>(Error::NotSuccess)),
{
}

/// The second features are answered with a request for a JID, whatever the features are.
pub proof fn law_features_are_answered_with_a_bind_request(
    c: ConnectionView,
    facts: FactsView,
    id: Seq<char>,
)
    requires
        c.state is ReceivingFeaturesPostAuthentication,
    ensures
        step(c, facts, id) == (
            c,
            Ok::<ReactionView, Error>(
                ReactionView {
                    send: Some(
                        StanzaView::Iq { from: None, to: None, id, payload: PayloadView::Bind },
                    ),
                    connected: false,
                    pinger: None,
                    dispatch: false,
                },
            ),
        ),
        after_step(c, facts, id) == (ConnectionView { state: ConnectionState::Binding, ..c }),
{
}

/// The JID that the server binds is kept as it is, and the domain of the connection is asked in its
/// name for identities and features.
pub proof fn law_bound_jid_asks_the_domain_for_features(
    c: ConnectionView,
    facts: FactsView,
    id: Seq<char>,
    jid: FullJidView,
)
    requires
        c.state is Binding,
        facts.iq matches Some(iq) && iq.answer matches Some(answer) && answer.bound == Some(jid),
    ensures
        step(c, facts, id) == (
            ConnectionView { jid: Some(jid), ..c },
            Ok::<ReactionView, Error>(
                ReactionView {
                    send: Some(
                        StanzaView::Iq {
                            from: Some(JidView::Full(jid)),
                            to: Some(JidView::Bare(c.xmpp_domain)),
                            id,
                            payload: PayloadView::DiscoInfoQuery,
                        },
                    ),
                    connected: false,
                    pinger: None,
                    dispatch: false,
                },
            ),
        ),
        after_step(c, facts, id) == (ConnectionView {
            state: ConnectionState::Discovering,
            jid: Some(jid),
            ..c
        }),
{
}

/// While a JID is awaited, what is not an IQ is passed over, an IQ that is no answer with a payload
/// says that the binding failed, and an answer that binds nothing is an error of its own.
pub proof fn law_binding_passes_over_or_fails(c: ConnectionView, facts: FactsView, id: Seq<char>)
    requires
        c.state is Binding,
    ensures
        facts.iq is None ==> step(c, facts, id) == (
            c,
            Ok::<ReactionView, Error>(
                ReactionView { send: None, connected: false, pinger: None, dispatch: false },
            ),
        ) && after_step(c, facts, id) == c,
        facts.iq matches Some(iq) && iq.answer is None ==> step(c, facts, id) == (
            c,
            Err::<ReactionView, Error>(Error::BindFailed),
        ),
        facts.iq matches Some(iq) && iq.answer matches Some(answer) && answer.bound is None ==> step(
            c,
            facts,
            id,
        ) == (c, Err::<ReactionView, Error>(Error::NotBindResponse)),
{
}

/// Once the server has told its identities and features, the domain of the connection is asked for
/// external services in the name of the JID that was bound.
pub proof fn law_known_domain_is_asked_for_services(
    c: ConnectionView,
    facts: FactsView,
    id: Seq<char>,
)
    requires
        c.state is Discovering,
        c.jid is Some,
        facts.iq matches Some(iq) && iq.answer matches Some(answer) && answer.disco_info,
    ensures
        step(c, facts, id) == (
            c,
            Ok::<ReactionView, Error>(
                ReactionView {
                    send: Some(
                        StanzaView::Iq {
                            from: Some(JidView::Full(c.jid->0)),
                            to: Some(JidView::Bare(c.xmpp_domain)),
                            id,
                            payload: PayloadView::ServicesQuery,
                        },
                    ),
                    connected: false,
                    pinger: None,
                    dispatch: false,
                },
            ),
        ),
        after_step(c, facts, id) == (ConnectionView {
            state: ConnectionState::DiscoveringExternalServices,
            ..c
        }),
{
}

/// While identities and features are awaited, what is not an IQ, an IQ that is no answer with a
/// payload, and an answer of another kind are three different errors.
pub proof fn law_discovery_fails_otherwise(c: ConnectionView, facts: FactsView, id: Seq<char>)
    requires
        c.state is Discovering,
    ensures
        facts.iq is None ==> step(c, facts, id) == (c, Err::<ReactionView, Error>(Error::NotIq)),
        facts.iq matches Some(iq) && iq.answer is None ==> step(c, facts, id) == (
            c,
            Err::<ReactionView, Error>(Error::DiscoFailed),
        ),
        facts.iq matches Some(iq) && iq.answer matches Some(answer) && !answer.disco_info ==> step(
            c,
            facts,
            id,
        ) == (c, Err::<ReactionView, Error>(Error::NotDiscoInfo)),
{
}

/// The external services that the server lists are kept, all of them and in their order, and the
/// handshake is complete. It is complete without them where the server answers with a failure or with
/// nothing. What is not an IQ, and an answer of another kind, are errors.
pub proof fn law_services_complete_the_handshake(
    c: ConnectionView,
    facts: FactsView,
    id: Seq<char>,
)
    requires
        c.state is DiscoveringExternalServices,
    ensures
        facts.iq is None ==> step(c, facts, id) == (c, Err::<ReactionView, Error>(Error::NotIq)),
        facts.iq matches Some(iq) && iq.answer is None ==> step(c, facts, id) == (
            ConnectionView { state: ConnectionState::Idle, ..c },
            Ok::<ReactionView, Error>(
                ReactionView { send: None, connected: true, pinger: c.jid, dispatch: false },
            ),
        ),
        facts.iq matches Some(iq) && iq.answer matches Some(answer) && answer.services is None
            ==> step(c, facts, id) == (c, Err::<ReactionView, Error>(Error::NotServices)),
        facts.iq matches Some(iq) && iq.answer matches Some(answer) && answer.services is Some
            ==> step(c, facts, id) == (
            ConnectionView {
                state: ConnectionState::Idle,
                external_services: facts.iq->0.answer->0.services->0,
                ..c
            },
            Ok::<ReactionView, Error>(
                ReactionView { send: None, connected: true, pinger: c.jid, dispatch: false },
            ),
        ),
{
}

/// Once the handshake is complete, every element is for the filters, and none changes the connection.
pub proof fn law_complete_connection_only_dispatches(
    c: ConnectionView,
    facts: FactsView,
    id: Seq<char>,
)
    requires
        c.state is Idle,
    ensures
        step(c, facts, id) == (
            c,
            Ok::<ReactionView, Error>(
                ReactionView { send: None, connected: false, pinger: None, dispatch: true },
            ),
        ),
        after_step(c, facts, id) == c,
{
}

/// The sending of a stanza moves each state that sends one to the next, and no other. Nothing but the
/// state changes.
pub proof fn law_sending_moves_to_the_next_state(c: ConnectionView)
    ensures
        c.state is ReceivingFeaturesPreAuthentication ==> after_send(c).state is Authenticating,
        c.state is Authenticating ==> after_send(c).state is OpeningPostAuthentication,
        c.state is ReceivingFeaturesPostAuthentication ==> after_send(c).state is Binding,
        c.state is Binding && c.jid is Some ==> after_send(c).state is Discovering,
        c.state is Binding && c.jid is None ==> after_send(c).state is Binding,
        c.state is Discovering ==> after_send(c).state is DiscoveringExternalServices,
        c.state is OpeningPreAuthentication || c.state is OpeningPostAuthentication
            || c.state is DiscoveringExternalServices || c.state is Idle ==> after_send(c) == c,
        after_send(c).jid == c.jid,
        after_send(c).xmpp_domain == c.xmpp_domain,
        after_send(c).authentication == c.authentication,
        after_send(c).external_services == c.external_services,
        after_send(c).tls_insecure == c.tls_insecure,
{
}

/// The identifier of a step matters only for the IQ that it sends: two steps that differ in it lead to
/// the same connection, to the same error, and to an IQ that differs in nothing else.
pub proof fn law_identifier_only_names_the_iq(
    c: ConnectionView,
    facts: FactsView,
    id1: Seq<char>,
    id2: Seq<char>,
)
    ensures
        step(c, facts, id1).0 == step(c, facts, id2).0,
        match (step(c, facts, id1).1, step(c, facts, id2).1) {
            (Ok(a), Ok(b)) => {
                &&& a.connected == b.connected && a.pinger == b.pinger && a.dispatch == b.dispatch
                &&& match (a.send, b.send) {
                    (None, None) => true,
                    (
                        Some(StanzaView::Iq { from: f1, to: t1, id: i1, payload: p1 }),
                        Some(StanzaView::Iq { from: f2, to: t2, id: i2, payload: p2 }),
                    ) => f1 == f2 && t1 == t2 && i1 == id1 && i2 == id2 && p1 == p2,
                    (Some(x), Some(y)) => x == y,
                    _ => false,
                }
            },
            (Err(a), Err(b)) => a == b,
            _ => false,
        },
{
}

/// What a step reads out of an element that is an answer is what the payload of the answer says; of
/// every other IQ it reads nothing; and it reads no IQ where the element is none.
pub proof fn law_steps_go_by_the_payload_of_the_answer(tree: Tree)
    ensures
        facts_of(tree).open == is_open(tree),
        facts_of(tree).success == is_success(tree),
        iq_of(tree) is None <==> facts_of(tree).iq is None,
        iq_of(tree) matches Some(iq) ==> match iq.payload {
            IqPayloadView::Answer(Some(payload)) => facts_of(tree).iq->0.answer == Some(
                AnswerFactsView {
                    bound: bound_jid(payload),
                    disco_info: is_disco_info(payload),
                    services: services_of(payload),
                },
            ),
            _ => facts_of(tree).iq->0.answer is None,
        },
{
}

/// Text that spells an element is handled as that element is, and the element is handed on with what
/// was done about it. Text that spells none is an error, as is the end of the stream, and a message
/// that is not text does nothing.
pub proof fn law_text_is_handled_as_its_element(c: ConnectionView, xml: Seq<char>, id: Seq<char>)
    ensures
        tree_in(xml) matches Some(tree) ==> {
            let (after, r) = receive_step(c, IncomingView::Text(xml), id);
            &&& after == step(c, facts_of(tree), id).0
            &&& match step(c, facts_of(tree), id).1 {
                Ok(reaction) => r matches Ok(Some(received)) && received.tree == tree
                    && received.reaction == reaction,
                Err(e) => r == Err::<Option<ReceivedView>, Error>(e),
            }
        },
        tree_in(xml) is None ==> receive_step(c, IncomingView::Text(xml), id) == (
            c,
            Err::<Option<ReceivedView>, Error>(Error::InvalidXml),
        ),
        receive_step(c, IncomingView::Other, id) == (c, Ok::<Option<ReceivedView>, Error>(None)),
        receive_step(c, IncomingView::End, id) == (
            c,
            Err::<Option<ReceivedView>, Error>(Error::UnexpectedEof),
        ),
{
}

/// A service is described by the attributes of its element, each taken as it is. A type and a host are
/// all that it needs.
pub proof fn law_service_is_what_its_attributes_say(t: Tree)
    ensures
        service_of(t) is Some <==> t.name == "service"@ && t.ns == "urn:xmpp:extdisco:2"@
            && t.attrs.contains_key("type"@) && t.attrs.contains_key("host"@),
        service_of(t) matches Some(service) ==> {
            &&& service.type_ == t.attrs["type"@]
            &&& service.host == t.attrs["host"@]
            &&& service.name == t.attr("name"@)
            &&& service.port == t.attr("port"@)
            &&& service.transport == t.attr("transport"@)
            &&& service.username == t.attr("username"@)
            &&& service.password == t.attr("password"@)
        },
{
}

/// A list of services gives the service of every child element, in order, however many there are. One
/// child that describes no service spoils the list.
pub proof fn law_every_service_is_listed(t: Tree)
    ensures
        services_of(t) is Some <==> t.name == "services"@ && t.ns == "urn:xmpp:extdisco:2"@ && (
        forall|i: int| 0 <= i < t.elements().len() ==> service_of(#[trigger] t.elements()[i]) is Some),
        services_of(t) matches Some(services) ==> {
            &&& services.len() == t.elements().len()
            &&& forall|i: int|
                0 <= i < services.len() ==> Some(#[trigger] services[i]) == service_of(
                    t.elements()[i],
                )
        },
{
    if services_of(t) is Some {
        let services = services_of(t)->0;
        assert forall|i: int| 0 <= i < services.len() implies Some(#[trigger] services[i])
            == service_of(t.elements()[i]) by {
            assert(service_of(t.elements()[i]) is Some);
        }
    }
}

/// A connection attempt fails for its URL first, then for its domain, and then for a URL without a
/// host, and for nothing else.
pub proof fn law_attempts_fail_for_their_addresses(
    url: Seq<char>,
    host: Option<Option<Seq<char>>>,
    xmpp_domain: Seq<char>,
    authentication: AuthenticationView,
    tls_insecure: bool,
    key: Seq<char>,
    r: Result<Connecting, Error>,
)
    requires
        is_connecting(url, host, xmpp_domain, authentication, tls_insecure, key, r),
    ensures
        r is Ok <==> (host matches Some(Some(_))) && jid_of(xmpp_domain) is Ok,
        host is None ==> r == Err::<Connecting, Error>(Error::InvalidWebSocketUrl),
        host is Some && jid_of(xmpp_domain) is Err ==> r == Err::<Connecting, Error>(
            Error::InvalidDomain(jid_of(xmpp_domain)->Err_0),
        ),
        host == Some(None::<Seq<char>>) && jid_of(xmpp_domain) is Ok ==> r == Err::<
            Connecting,
            Error,
        >(Error::MissingHost),
{
}

/// A connection begins with nothing known but what it was given, and with a stream to its domain,
/// which is the text that it was given without a resource.
pub proof fn law_attempts_begin_with_what_was_given(
    url: Seq<char>,
    host: Seq<char>,
    xmpp_domain: Seq<char>,
    authentication: AuthenticationView,
    tls_insecure: bool,
    key: Seq<char>,
    r: Result<Connecting, Error>,
)
    requires
        is_connecting(url, Some(Some(host)), xmpp_domain, authentication, tls_insecure, key, r),
        r is Ok,
    ensures
        ({
            let connection = r->Ok_0.connection@;
            &&& connection.state is OpeningPreAuthentication
            &&& connection.jid is None
            &&& connection.external_services.len() == 0
            &&& connection.authentication == authentication
            &&& connection.tls_insecure == tls_insecure
            &&& match jid_of(xmpp_domain) {
                Ok(JidView::Bare(jid)) => connection.xmpp_domain == jid,
                Ok(JidView::Full(jid)) => connection.xmpp_domain == BareJidView {
                    node: jid.node,
                    domain: jid.domain,
                },
                Err(_) => false,
            }
            &&& r->Ok_0.open@ == StanzaView::Open { domain: connection.xmpp_domain }
        }),
{
}

/// The WebSocket is asked for under the URL that was given, as XMPP, with the key, and with the host
/// that the URL names.
pub proof fn law_handshake_asks_for_xmpp(
    url: Seq<char>,
    host: Seq<char>,
    xmpp_domain: Seq<char>,
    authentication: AuthenticationView,
    tls_insecure: bool,
    key: Seq<char>,
    r: Result<Connecting, Error>,
)
    requires
        is_connecting(url, Some(Some(host)), xmpp_domain, authentication, tls_insecure, key, r),
        r is Ok,
    ensures
        ({
            let request = r->Ok_0.handshake@;
            &&& request.url == url
            &&& request.headers.len() == 6
            &&& request.headers.contains(("sec-websocket-protocol"@, "xmpp"@))
            &&& request.headers.contains(("sec-websocket-key"@, key))
            &&& request.headers.contains(("sec-websocket-version"@, "13"@))
            &&& request.headers.contains(("host"@, host))
            &&& request.headers.contains(("connection"@, "Upgrade"@))
            &&& request.headers.contains(("upgrade"@, "websocket"@))
        }),
{
    let headers = r->Ok_0.handshake@.headers;
    assert(headers == handshake_of(url, host, key).headers);
    assert(headers[0] == ("sec-websocket-protocol"@, "xmpp"@));
    assert(headers[1] == ("sec-websocket-key"@, key));
    assert(headers[2] == ("sec-websocket-version"@, "13"@));
    assert(headers[3] == ("host"@, host));
    assert(headers[4] == ("connection"@, "Upgrade"@));
    assert(headers[5] == ("upgrade"@, "websocket"@));
}

} // verus!
