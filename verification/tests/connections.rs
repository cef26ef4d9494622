use jitsi_meet_signalling::connection::{
    first_accepting, handshake, read_facts, read_incoming, Authentication, Connection,
    ConnectionState, Facts, Incoming, Reaction,
};
use jitsi_meet_signalling::error::{Error, JidError};
use jitsi_meet_signalling::inbound::{Iq, IqPayload};
use jitsi_meet_signalling::pinger::Pinger;
use jitsi_meet_signalling::stanza::Stanza;
use jitsi_meet_signalling::util::{generate_id, generate_key};
use xmpp_parsers::Element;

const OPEN: &str = "<open xmlns='urn:ietf:params:xml:ns:xmpp-framing' from='example.org' \
                    id='1' version='1.0'/>";
const FEATURES: &str = "<features xmlns='http://etherx.jabber.org/streams'/>";
const SUCCESS: &str = "<success xmlns='urn:ietf:params:xml:ns:xmpp-sasl'/>";
const BOUND: &str = "<iq xmlns='jabber:client' type='result' id='1'>\
                     <bind xmlns='urn:ietf:params:xml:ns:xmpp-bind'>\
                     <jid>ab12-cd@example.org/res</jid></bind></iq>";
const INFO: &str = "<iq xmlns='jabber:client' type='result' id='1' from='example.org'>\
                    <query xmlns='http://jabber.org/protocol/disco#info'>\
                    <identity category='server' type='im'/>\
                    <feature var='http://jabber.org/protocol/disco#info'/></query></iq>";
const SERVICES: &str = "<iq xmlns='jabber:client' type='result' id='1' from='example.org'>\
                        <services xmlns='urn:xmpp:extdisco:2'>\
                        <service type='turns' host='turn.example.org' port='443' transport='tcp' \
                        username='u' password='p' restricted='1'/>\
                        <service type='stun' host='stun.example.org'/></services></iq>";
const EMPTY: &str = "<iq xmlns='jabber:client' type='result' id='1' from='example.org'/>";

fn element(xml: &str) -> Element {
    match read_incoming(&Incoming::Text(xml.to_string())) {
        Ok(Some(element)) => element,
        _ => panic!("not an element"),
    }
}

fn fresh(authentication: Authentication) -> Connection {
    Connection::connect("wss://example.org/xmpp-websocket", "example.org", authentication, false)
        .ok()
        .unwrap()
        .connection
}

fn feed(connection: &mut Connection, xml: &str) -> Reaction {
    let reaction = connection.handle(&element(xml)).ok().unwrap();
    if reaction.send.is_some() {
        connection.sent();
    }
    reaction
}

fn refused(connection: &mut Connection, xml: &str) -> Option<Error> {
    let state = connection.state();
    let error = connection.handle(&element(xml)).err();
    assert_eq!(connection.state(), state);
    error
}

fn sent(reaction: &Reaction) -> Element {
    reaction.send.as_ref().unwrap().to_xml().ok().unwrap().parse().unwrap()
}

fn until(state: ConnectionState) -> Connection {
    let mut connection = fresh(Authentication::Anonymous);
    for xml in [OPEN, FEATURES, SUCCESS, OPEN, FEATURES, BOUND, INFO, SERVICES] {
        if connection.state() == state {
            return connection;
        }
        feed(&mut connection, xml);
    }
    assert_eq!(connection.state(), state);
    connection
}

#[test]
fn attempt_says_how_to_open_the_websocket() {
    let attempt = Connection::connect(
        "wss://meet.example.org/xmpp-websocket",
        "example.org",
        Authentication::Anonymous,
        true,
    )
    .ok()
    .unwrap();
    assert_eq!(attempt.handshake.url, "wss://meet.example.org/xmpp-websocket");
    let headers = &attempt.handshake.headers;
    let names: Vec<&str> = headers.iter().map(|h| h.0.as_str()).collect();
    assert_eq!(
        names,
        vec![
            "sec-websocket-protocol",
            "sec-websocket-key",
            "sec-websocket-version",
            "host",
            "connection",
            "upgrade"
        ]
    );
    assert_eq!(headers[0].1, "xmpp");
    assert_eq!(headers[1].1.len(), 22);
    assert_eq!(headers[2].1, "13");
    assert_eq!(headers[3].1, "meet.example.org");
    assert_eq!(headers[4].1, "Upgrade");
    assert_eq!(headers[5].1, "websocket");
    assert!(attempt.connection.tls_insecure());
    assert_eq!(attempt.connection.state(), ConnectionState::OpeningPreAuthentication);
    assert!(attempt.connection.jid().is_none());
    assert!(attempt.connection.external_services().is_empty());
    match attempt.open {
        Stanza::Open { domain } => assert_eq!(domain.to_string(), "example.org"),
        _ => panic!("not an open"),
    }
}

#[test]
fn keys_differ_from_attempt_to_attempt() {
    let url = "wss://meet.example.org/xmpp-websocket";
    let first = Connection::connect(url, "example.org", Authentication::Anonymous, false);
    let second = Connection::connect(url, "example.org", Authentication::Anonymous, false);
    assert_ne!(
        first.ok().unwrap().handshake.headers[1].1,
        second.ok().unwrap().handshake.headers[1].1
    );
}

#[test]
fn handshake_puts_the_key_in_its_place() {
    let request = handshake("wss://h/x", "h", "a2V5");
    assert_eq!(request.headers[1], ("sec-websocket-key".to_string(), "a2V5".to_string()));
    assert_eq!(request.headers[3], ("host".to_string(), "h".to_string()));
}

#[test]
fn bad_addresses_are_refused() {
    let attempt = |url: &str, domain: &str| {
        Connection::connect(url, domain, Authentication::Anonymous, false).err()
    };
    assert_eq!(attempt("not a url", "example.org"), Some(Error::InvalidWebSocketUrl));
    assert_eq!(attempt("not a url", ""), Some(Error::InvalidWebSocketUrl));
    assert_eq!(attempt("/path", "example.org"), Some(Error::MissingHost));
    assert_eq!(
        attempt("/path", ""),
        Some(Error::InvalidDomain(JidError::NoDomain))
    );
    assert_eq!(
        attempt("wss://h/x", "@example.org"),
        Some(Error::InvalidDomain(JidError::EmptyNode))
    );
}

#[test]
fn attempt_takes_the_host_that_was_read() {
    let attempt = Connection::connect_to(
        "wss://h/x",
        Some(Some("other".to_string())),
        "example.org/r",
        Authentication::Anonymous,
        false,
        "key",
    )
    .ok()
    .unwrap();
    assert_eq!(attempt.handshake.headers[3].1, "other");
    match attempt.open {
        Stanza::Open { domain } => assert_eq!(domain.to_string(), "example.org"),
        _ => panic!("not an open"),
    }
}

#[test]
fn handshake_runs_to_its_end() {
    let mut connection = fresh(Authentication::Anonymous);

    let reaction = feed(&mut connection, OPEN);
    assert!(reaction.send.is_none() && !reaction.connected && !reaction.dispatch);
    assert_eq!(connection.state(), ConnectionState::ReceivingFeaturesPreAuthentication);

    let auth = sent(&feed(&mut connection, FEATURES));
    assert!(auth.is("auth", "urn:ietf:params:xml:ns:xmpp-sasl"));
    assert_eq!(auth.attr("mechanism"), Some("ANONYMOUS"));
    assert_eq!(connection.state(), ConnectionState::Authenticating);

    let open = sent(&feed(&mut connection, SUCCESS));
    assert!(open.is("open", "urn:ietf:params:xml:ns:xmpp-framing"));
    assert_eq!(open.attr("to"), Some("example.org"));
    assert_eq!(connection.state(), ConnectionState::OpeningPostAuthentication);

    assert!(feed(&mut connection, OPEN).send.is_none());
    assert_eq!(connection.state(), ConnectionState::ReceivingFeaturesPostAuthentication);

    let bind = sent(&feed(&mut connection, FEATURES));
    assert_eq!(bind.attr("type"), Some("set"));
    assert_eq!(bind.attr("id").unwrap().len(), 36);
    assert!(bind.children().next().unwrap().is("bind", "urn:ietf:params:xml:ns:xmpp-bind"));
    assert_eq!(connection.state(), ConnectionState::Binding);
    assert!(connection.jid().is_none());

    let query = sent(&feed(&mut connection, BOUND));
    assert_eq!(query.attr("type"), Some("get"));
    assert_eq!(query.attr("from"), Some("ab12-cd@example.org/res"));
    assert_eq!(query.attr("to"), Some("example.org"));
    assert!(query.children().next().unwrap().is("query", "http://jabber.org/protocol/disco#info"));
    assert_eq!(connection.jid().unwrap().to_string(), "ab12-cd@example.org/res");
    assert_eq!(connection.state(), ConnectionState::Discovering);

    let query = sent(&feed(&mut connection, INFO));
    assert_eq!(query.attr("from"), Some("ab12-cd@example.org/res"));
    assert!(query.children().next().unwrap().is("services", "urn:xmpp:extdisco:2"));
    assert_eq!(connection.state(), ConnectionState::DiscoveringExternalServices);

    let reaction = feed(&mut connection, SERVICES);
    assert!(reaction.connected && !reaction.dispatch && reaction.send.is_none());
    assert_eq!(reaction.pinger.unwrap().to_string(), "ab12-cd@example.org/res");
    assert_eq!(connection.state(), ConnectionState::Idle);
    let services = connection.external_services();
    assert_eq!(services.len(), 2);
    assert_eq!(services[0].type_, "turns");
    assert_eq!(services[0].host, "turn.example.org");
    assert_eq!(services[0].port.as_deref(), Some("443"));
    assert_eq!(services[0].transport.as_deref(), Some("tcp"));
    assert_eq!(services[0].username.as_deref(), Some("u"));
    assert_eq!(services[0].password.as_deref(), Some("p"));
    assert_eq!(services[1].type_, "stun");
    assert_eq!(services[1].port, None);

    let reaction = feed(&mut connection, EMPTY);
    assert!(reaction.dispatch && !reaction.connected && reaction.send.is_none());
    assert!(reaction.pinger.is_none());
    assert_eq!(connection.state(), ConnectionState::Idle);
}

#[test]
fn plain_credentials_are_separated_by_zero_bytes() {
    let authentication = Authentication::Plain {
        username: "us\u{e9}r".to_string(),
        password: "p".to_string(),
    };
    match authentication.auth() {
        Stanza::Auth { data, .. } => {
            assert_eq!(data, vec![0, 117, 115, 195, 169, 114, 0, 112]);
        }
        _ => panic!("not an auth"),
    }
    let mut connection = fresh(authentication);
    feed(&mut connection, OPEN);
    let auth = sent(&feed(&mut connection, FEATURES));
    assert_eq!(auth.attr("mechanism"), Some("PLAIN"));
    assert_eq!(auth.text(), "AHVzw6lyAHA=");
}

#[test]
fn openings_have_to_open() {
    let mut connection = until(ConnectionState::OpeningPreAuthentication);
    assert_eq!(refused(&mut connection, SUCCESS), Some(Error::NotOpen));
    let mut connection = until(ConnectionState::OpeningPostAuthentication);
    assert_eq!(refused(&mut connection, FEATURES), Some(Error::NotOpen));
}

#[test]
fn authentication_has_to_succeed() {
    let mut connection = until(ConnectionState::Authenticating);
    let failure = "<failure xmlns='urn:ietf:params:xml:ns:xmpp-sasl'><not-authorized/></failure>";
    assert_eq!(refused(&mut connection, failure), Some(Error::NotSuccess));
}

#[test]
fn binding_waits_for_an_iq() {
    let mut connection = until(ConnectionState::Binding);
    let reaction = feed(&mut connection, FEATURES);
    assert!(reaction.send.is_none());
    assert_eq!(connection.state(), ConnectionState::Binding);
    assert_eq!(refused(&mut connection, EMPTY), Some(Error::BindFailed));
    assert_eq!(refused(&mut connection, INFO), Some(Error::NotBindResponse));
    feed(&mut connection, BOUND);
    assert_eq!(connection.state(), ConnectionState::Discovering);
}

#[test]
fn discovery_needs_an_answer() {
    let mut connection = until(ConnectionState::Discovering);
    assert_eq!(refused(&mut connection, OPEN), Some(Error::NotIq));
    assert_eq!(refused(&mut connection, EMPTY), Some(Error::DiscoFailed));
    assert_eq!(refused(&mut connection, SERVICES), Some(Error::NotDiscoInfo));
}

#[test]
fn external_services_are_optional() {
    let mut connection = until(ConnectionState::DiscoveringExternalServices);
    assert_eq!(refused(&mut connection, OPEN), Some(Error::NotIq));
    assert_eq!(refused(&mut connection, INFO), Some(Error::NotServices));
    let without_host = "<iq xmlns='jabber:client' type='result' id='1'>\
                        <services xmlns='urn:xmpp:extdisco:2'><service type='stun'/></services></iq>";
    assert_eq!(refused(&mut connection, without_host), Some(Error::NotServices));
    let reaction = feed(&mut connection, EMPTY);
    assert!(reaction.connected);
    assert_eq!(reaction.pinger.unwrap().to_string(), "ab12-cd@example.org/res");
    assert!(connection.external_services().is_empty());
}

#[test]
fn steps_follow_the_facts() {
    let mut connection = fresh(Authentication::Anonymous);
    let facts = Facts { open: false, success: true, iq: None };
    assert_eq!(connection.advance(facts, "1".to_string()).err(), Some(Error::NotOpen));
    let facts = Facts { open: true, success: false, iq: None };
    assert!(connection.advance(facts, "2".to_string()).is_ok());
    assert_eq!(connection.state(), ConnectionState::ReceivingFeaturesPreAuthentication);
    let facts = read_facts(&element(SERVICES));
    assert!(!facts.open && !facts.success);
    let answer = facts.iq.unwrap().answer.unwrap();
    assert!(answer.bound.is_none() && !answer.disco_info);
    assert_eq!(answer.services.unwrap().len(), 2);
}

#[test]
fn only_text_is_read() {
    assert_eq!(read_incoming(&Incoming::Other).ok(), Some(None));
    assert_eq!(read_incoming(&Incoming::End).err(), Some(Error::UnexpectedEof));
    assert_eq!(
        read_incoming(&Incoming::Text("<open".to_string())).err(),
        Some(Error::InvalidXml)
    );
    assert!(element(OPEN).is("open", "urn:ietf:params:xml:ns:xmpp-framing"));
}

#[test]
fn first_filter_that_accepts_gets_the_element() {
    assert_eq!(first_accepting(&vec![]), None);
    assert_eq!(first_accepting(&vec![false, false]), None);
    assert_eq!(first_accepting(&vec![false, true, true]), Some(1));
}

#[test]
fn pings_are_answered() {
    let pinger = Pinger { jid: until(ConnectionState::Idle).jid().unwrap() };
    let ping = element(
        "<iq xmlns='jabber:client' type='get' id='p1' from='example.org'>\
         <ping xmlns='urn:xmpp:ping'/></iq>",
    );
    assert!(pinger.filter(&ping));
    let answer: Element = match pinger.take(&ping) {
        Ok(Some(stanza)) => stanza.to_xml().ok().unwrap().parse().unwrap(),
        _ => panic!("no answer"),
    };
    assert_eq!(answer.attr("type"), Some("result"));
    assert_eq!(answer.attr("id"), Some("p1"));
    assert_eq!(answer.attr("to"), Some("example.org"));
    assert_eq!(answer.attr("from"), Some("ab12-cd@example.org/res"));
    assert!(!pinger.filter(&element(INFO)));
    assert!(!pinger.filter(&element(OPEN)));
    assert!(pinger.take(&element(OPEN)).err() == Some(Error::NotIq));
    assert!(matches!(pinger.take(&element(EMPTY)), Ok(None)));
}

#[test]
fn pongs_go_by_the_iq_that_was_read() {
    let pinger = Pinger { jid: until(ConnectionState::Idle).jid().unwrap() };
    let ping = Iq {
        from: None,
        id: "p2".to_string(),
        payload: IqPayload::Query(element("<ping xmlns='urn:xmpp:ping'/>")),
    };
    match pinger.answer(ping) {
        Some(Stanza::Iq { from, to, id, .. }) => {
            assert_eq!(from.unwrap().to_string(), "ab12-cd@example.org/res");
            assert!(to.is_none());
            assert_eq!(id, "p2");
        }
        _ => panic!("no answer"),
    }
    let failure = Iq { from: None, id: "p3".to_string(), payload: IqPayload::Failure };
    assert!(pinger.answer(failure).is_none());
}

#[test]
fn credentials_are_unambiguous() {
    let data = |username: &str, password: &str| {
        let authentication = Authentication::Plain {
            username: username.to_string(),
            password: password.to_string(),
        };
        match authentication.auth() {
            Stanza::Auth { data, .. } => data,
            _ => panic!("not an auth"),
        }
    };
    assert_eq!(data("", ""), vec![0, 0]);
    assert_ne!(data("a", "bc"), data("ab", "c"));
    assert_ne!(data("", "a"), data("a", ""));
}

#[test]
fn identifiers_and_keys_are_fresh() {
    let id = generate_id();
    assert_eq!(id.len(), 36);
    for (i, c) in id.chars().enumerate() {
        if [8, 13, 18, 23].contains(&i) {
            assert_eq!(c, '-');
        } else {
            assert!(c.is_ascii_digit() || ('a'..='f').contains(&c));
        }
    }
    assert_ne!(id, generate_id());
    assert_eq!(generate_key().len(), 22);
    assert_ne!(generate_key(), generate_key());
}

#[test]
fn only_text_has_an_effect() {
    let text = |xml: &str| Incoming::Text(xml.to_string());
    let mut plain = fresh(Authentication::Anonymous);
    let mut noisy = fresh(Authentication::Anonymous);
    for xml in [OPEN, FEATURES, SUCCESS, OPEN, FEATURES, BOUND, INFO, SERVICES, EMPTY] {
        assert!(matches!(noisy.receive(&Incoming::Other), Ok(None)));
        let expected = plain.receive(&text(xml)).ok().unwrap().unwrap();
        let received = noisy.receive(&text(xml)).ok().unwrap().unwrap();
        assert_eq!(received.element, expected.element);
        assert_eq!(received.reaction.send.is_some(), expected.reaction.send.is_some());
        assert_eq!(received.reaction.connected, expected.reaction.connected);
        assert_eq!(received.reaction.dispatch, expected.reaction.dispatch);
        if expected.reaction.send.is_some() {
            plain.sent();
            noisy.sent();
        }
        assert_eq!(noisy.state(), plain.state());
    }
    assert!(noisy.receive(&text("<")).err() == Some(Error::InvalidXml));
    assert!(noisy.receive(&Incoming::End).err() == Some(Error::UnexpectedEof));
}

#[test]
fn opening_names_jids_or_nobody() {
    let opens = |attributes: &str, inner: &str| {
        let xml = format!(
            "<open xmlns='urn:ietf:params:xml:ns:xmpp-framing'{}>{}</open>",
            attributes, inner
        );
        read_facts(&element(&xml)).open
    };
    assert!(opens("", ""));
    assert!(opens(" other='x'", "text"));
    assert!(opens(" from='a@example.org/r' to='example.org'", ""));
    assert!(!opens(" from='@'", ""));
    assert!(!opens(" to=''", ""));
    assert!(!opens("", "<a/>"));
    assert!(!read_facts(&element("<open xmlns='jabber:client'/>")).open);
}

#[test]
fn bound_jid_is_full() {
    let bound = |inner: &str| {
        let xml = format!(
            "<iq xmlns='jabber:client' type='result' id='1'>\
             <bind xmlns='urn:ietf:params:xml:ns:xmpp-bind'>{}</bind></iq>",
            inner
        );
        let facts = read_facts(&element(&xml));
        facts.iq.unwrap().answer.unwrap().bound.map(|jid| jid.to_string())
    };
    assert_eq!(bound("<jid>a@b/c</jid>"), Some("a@b/c".to_string()));
    assert_eq!(bound("<jid x='y'>b/<z/>c</jid>"), Some("b/c".to_string()));
    assert_eq!(bound("<jid>a@b</jid>"), None);
    assert_eq!(bound(""), None);
    assert_eq!(bound("<jid>a@b/c</jid><jid>a@b/c</jid>"), None);
    assert_eq!(bound("<other>a@b/c</other>"), None);
}

#[test]
fn state_waits_for_the_sending() {
    for (state, reply, next) in [
        (
            ConnectionState::ReceivingFeaturesPreAuthentication,
            FEATURES,
            ConnectionState::Authenticating,
        ),
        (
            ConnectionState::Authenticating,
            SUCCESS,
            ConnectionState::OpeningPostAuthentication,
        ),
        (
            ConnectionState::ReceivingFeaturesPostAuthentication,
            FEATURES,
            ConnectionState::Binding,
        ),
        (ConnectionState::Binding, BOUND, ConnectionState::Discovering),
        (
            ConnectionState::Discovering,
            INFO,
            ConnectionState::DiscoveringExternalServices,
        ),
    ] {
        let mut connection = until(state);
        assert!(connection.handle(&element(reply)).ok().unwrap().send.is_some());
        assert_eq!(connection.state(), state);
        connection.sent();
        assert_eq!(connection.state(), next);
    }
    let mut connection = until(ConnectionState::Binding);
    connection.sent();
    assert_eq!(connection.state(), ConnectionState::Binding);
    assert!(connection.handle(&element(BOUND)).is_ok());
    assert_eq!(connection.jid().unwrap().to_string(), "ab12-cd@example.org/res");
    assert_eq!(connection.state(), ConnectionState::Binding);
    let mut connection = until(ConnectionState::Idle);
    connection.sent();
    assert_eq!(connection.state(), ConnectionState::Idle);
}

#[test]
fn iqs_have_a_kind_and_the_children_for_it() {
    let is_iq = |attributes: &str, inner: &str| {
        let xml = format!("<iq xmlns='jabber:client'{}>{}</iq>", attributes, inner);
        read_facts(&element(&xml)).iq.is_some()
    };
    assert!(is_iq(" id='1' type='get'", "<a xmlns='b'/>"));
    assert!(is_iq(" id='1' type='set'", "<a xmlns='b'/>"));
    assert!(is_iq(" id='1' type='result'", ""));
    assert!(is_iq(" id='1' type='result'", "<a xmlns='b'/>"));
    assert!(!is_iq(" id='1' type='get'", ""));
    assert!(!is_iq(" id='1' type='set'", "<a xmlns='b'/><a xmlns='b'/>"));
    assert!(!is_iq(" id='1' type='result'", "<a xmlns='b'/><a xmlns='b'/>"));
    assert!(!is_iq(" id='1' type='error'", ""));
    assert!(!is_iq(" id='1' type='other'", "<a xmlns='b'/>"));
    assert!(!is_iq(" type='result'", ""));
    assert!(!is_iq(" id='1'", ""));
    assert!(!is_iq(" id='1' type='result' from='@'", ""));
    assert!(!is_iq(" id='1' type='result' to='@'", ""));
}
