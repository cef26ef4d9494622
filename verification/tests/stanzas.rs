use jitsi_meet_signalling::disco::{computed_caps_hash, computed_ecaps2_hash, disco_info};
use jitsi_meet_signalling::element::Built;
use jitsi_meet_signalling::error::Error;
use jitsi_meet_signalling::jid::{BareJid, FullJid, Jid};
use jitsi_meet_signalling::stanza::{Mechanism, Payload, Stanza};
use jitsi_meet_signalling::text::{bool_to_string, u32_to_string};
use xmpp_parsers::bind::BindQuery;
use xmpp_parsers::caps::{self, Caps};
use xmpp_parsers::disco::{DiscoInfoQuery, DiscoInfoResult, Feature, Identity};
use xmpp_parsers::ecaps2::{self, ECaps2};
use xmpp_parsers::hashes::Algo;
use xmpp_parsers::iq::Iq;
use xmpp_parsers::message::{Message, MessageType};
use xmpp_parsers::muc::Muc;
use xmpp_parsers::presence::{Presence, Type};
use xmpp_parsers::sasl::Auth;
use xmpp_parsers::stanza_error::{DefinedCondition, ErrorType, StanzaError};
use xmpp_parsers::websocket::Open;
use xmpp_parsers::Element;

fn xml(element: Element) -> String {
    let mut bytes = Vec::new();
    element.write_to(&mut bytes).unwrap();
    String::from_utf8(bytes).unwrap()
}

fn jid(text: &str) -> Jid {
    Jid::parse(text).ok().unwrap()
}

fn outside_jid(text: &str) -> xmpp_parsers::Jid {
    text.parse().unwrap()
}

fn iq(from: Option<&str>, to: Option<&str>, payload: Payload) -> String {
    let stanza = Stanza::Iq {
        from: from.map(jid),
        to: to.map(jid),
        id: "id-1".to_string(),
        payload,
    };
    stanza.to_xml().ok().unwrap()
}

fn info() -> DiscoInfoResult {
    DiscoInfoResult {
        node: None,
        identities: vec![Identity::new("client", "bot", "en", "lib-jitsi-meet-rs")],
        features: vec![
            Feature::new("http://jabber.org/protocol/disco#info"),
            Feature::new("urn:xmpp:jingle:apps:rtp:audio"),
            Feature::new("urn:xmpp:jingle:apps:rtp:video"),
            Feature::new("urn:xmpp:jingle:transports:ice-udp:1"),
            Feature::new("urn:xmpp:jingle:apps:dtls:0"),
            Feature::new("urn:ietf:rfc:5888"),
            Feature::new("urn:ietf:rfc:5761"),
            Feature::new("urn:ietf:rfc:4588"),
            Feature::new("http://jitsi.org/tcc"),
        ],
        extensions: vec![],
    }
}

#[test]
fn open_is_framed() {
    let stanza = Stanza::Open { domain: BareJid::parse("example.org").ok().unwrap() };
    let text = stanza.to_xml().ok().unwrap();
    assert_eq!(
        text,
        "<open xmlns='urn:ietf:params:xml:ns:xmpp-framing' to=\"example.org\" version=\"1.0\"/>"
    );
    assert_eq!(text, xml(Open::new("example.org".parse().unwrap()).into()));
}

#[test]
fn auth_carries_base64() {
    let stanza = Stanza::Auth { mechanism: Mechanism::Plain, data: vec![0, 117, 0, 112] };
    let expected = Auth {
        mechanism: xmpp_parsers::sasl::Mechanism::Plain,
        data: vec![0, 117, 0, 112],
    };
    let text = stanza.to_xml().ok().unwrap();
    assert_eq!(text, xml(expected.into()));
    assert_eq!(
        text,
        "<auth xmlns='urn:ietf:params:xml:ns:xmpp-sasl' mechanism=\"PLAIN\">AHUAcA==</auth>"
    );
    let stanza = Stanza::Auth { mechanism: Mechanism::Anonymous, data: vec![] };
    let expected = Auth {
        mechanism: xmpp_parsers::sasl::Mechanism::Anonymous,
        data: vec![],
    };
    assert_eq!(stanza.to_xml().ok().unwrap(), xml(expected.into()));
}

#[test]
fn bind_request_is_an_iq() {
    assert_eq!(
        iq(None, None, Payload::Bind),
        xml(Iq::from_set("id-1", BindQuery::new(None)).into())
    );
}

#[test]
fn questions_are_iqs() {
    let (from, to) = ("a-b@example.org/r", "example.org");
    let expected = Iq::from_get("id-1", DiscoInfoQuery { node: None })
        .with_from(outside_jid(from))
        .with_to(outside_jid(to));
    assert_eq!(iq(Some(from), Some(to), Payload::DiscoInfoQuery), xml(expected.into()));
    assert_eq!(
        iq(Some(from), Some(to), Payload::ServicesQuery),
        "<iq xmlns='jabber:client' from=\"a-b@example.org/r\" id=\"id-1\" to=\"example.org\" \
         type=\"get\"><services xmlns='urn:xmpp:extdisco:2'/></iq>"
    );
}

#[test]
fn acknowledgement_is_empty() {
    let (from, to) = ("a-b@example.org/r", "room@conference.example.org/focus");
    let expected = Iq::empty_result(outside_jid(to), "id-1").with_from(outside_jid(from));
    assert_eq!(iq(Some(from), Some(to), Payload::Empty), xml(expected.into()));
}

#[test]
fn features_are_listed() {
    let (from, to) = ("a-b@example.org/r", "c@example.org/s");
    let expected = Iq::from_result("id-1", Some(info()))
        .with_from(outside_jid(from))
        .with_to(outside_jid(to));
    assert_eq!(
        iq(Some(from), Some(to), Payload::DiscoInfo { node: None }),
        xml(expected.into())
    );
    let mut with_node = info();
    with_node.node = Some("https://example.org#x".to_string());
    let expected = Iq::from_result("id-1", Some(with_node))
        .with_from(outside_jid(from))
        .with_to(outside_jid(to));
    assert_eq!(
        iq(
            Some(from),
            Some(to),
            Payload::DiscoInfo { node: Some("https://example.org#x".to_string()) }
        ),
        xml(expected.into())
    );
}

#[test]
fn refusal_is_an_error() {
    let (from, to) = ("a-b@example.org/r", "c@example.org/s");
    let error = StanzaError::new(
        ErrorType::Cancel,
        DefinedCondition::ItemNotFound,
        "en",
        "Unknown disco#info node: x",
    );
    let expected = Iq::from_error("id-1", error)
        .with_from(outside_jid(from))
        .with_to(outside_jid(to));
    assert_eq!(
        iq(
            Some(from),
            Some(to),
            Payload::ItemNotFound { text: "Unknown disco#info node: x".to_string() }
        ),
        xml(expected.into())
    );
}

#[test]
fn room_request_lists_its_properties() {
    let payload = Payload::Conference {
        machine_uid: "uid".to_string(),
        room: "native@conference.example.org".to_string(),
        properties: vec![
            ("stereo".to_string(), "false".to_string()),
            ("startBitrate".to_string(), "800".to_string()),
        ],
    };
    assert_eq!(
        iq(None, Some("focus@auth.example.org/focus"), payload),
        "<iq xmlns='jabber:client' id=\"id-1\" to=\"focus@auth.example.org/focus\" type=\"set\">\
         <conference xmlns='http://jitsi.org/protocol/focus' machine-uid=\"uid\" \
         room=\"native@conference.example.org\"><property name=\"stereo\" value=\"false\"/>\
         <property name=\"startBitrate\" value=\"800\"/></conference></iq>"
    );
}

#[test]
fn presence_carries_its_payloads() {
    let to = "native@conference.example.org/ab12";
    let stanza = Stanza::Presence {
        occupant: jid(to),
        payloads: vec![
            Built::new("x", "http://jabber.org/protocol/muc"),
            Built::new("stats-id", "jabber:client").text("lib-jitsi-meet-rs"),
        ],
    };
    let mut expected = Presence::new(Type::None).with_to(outside_jid(to));
    expected.payloads = vec![
        Muc::new().into(),
        Element::builder("stats-id", "jabber:client")
            .append("lib-jitsi-meet-rs")
            .build(),
    ];
    assert_eq!(stanza.to_xml().ok().unwrap(), xml(expected.into()));
}

#[test]
fn message_goes_to_the_room() {
    let stanza = Stanza::Message {
        sender: Jid::Full(FullJid {
            node: Some("a-b".to_string()),
            domain: "example.org".to_string(),
            resource: "r".to_string(),
        }),
        room: jid("native@conference.example.org"),
        id: "id-1".to_string(),
        json: "{\"a\":1}".to_string(),
    };
    let expected = Message {
        from: Some(outside_jid("a-b@example.org/r")),
        to: Some(outside_jid("native@conference.example.org")),
        id: Some("id-1".to_string()),
        type_: MessageType::Groupchat,
        bodies: Default::default(),
        subjects: Default::default(),
        thread: None,
        payloads: vec![Element::builder("json-message", "http://jitsi.org/jitmeet")
            .append("{\"a\":1}")
            .build()],
    };
    assert_eq!(stanza.to_xml().ok().unwrap(), xml(expected.into()));
}

#[test]
fn hashes_are_those_of_the_features() {
    let own = disco_info();
    assert_eq!(own.features.len(), 9);
    assert_eq!(own.identities.len(), 1);
    let hash = caps::hash_caps(&caps::compute_disco(&info()), Algo::Sha_1).unwrap();
    assert_eq!(computed_caps_hash(), hash.to_base64());
    let element: Element =
        Caps::new("https://github.com/avstack/lib-jitsi-meet-rs", hash).into();
    assert_eq!(element.attr("ver"), Some(computed_caps_hash().as_str()));
    let hash = ecaps2::hash_ecaps2(&ecaps2::compute_disco(&info()).unwrap(), Algo::Sha_256).unwrap();
    assert_eq!(computed_ecaps2_hash(), hash.to_base64());
    let element: Element = ECaps2::new(vec![hash]).into();
    assert_eq!(
        element.children().next().unwrap().text(),
        computed_ecaps2_hash()
    );
}

#[test]
fn unwritable_text_is_refused() {
    let stanza = Stanza::Message {
        sender: jid("a-b@example.org/r"),
        room: jid("native@conference.example.org"),
        id: "id-1".to_string(),
        json: "\u{0}".to_string(),
    };
    assert_eq!(stanza.to_xml().err(), Some(Error::Unwritable));
}

#[test]
fn numbers_and_flags_are_spelled_out() {
    assert_eq!(u32_to_string(0), "0");
    assert_eq!(u32_to_string(800), "800");
    assert_eq!(u32_to_string(4294967295), "4294967295");
    assert_eq!(bool_to_string(true), "true");
    assert_eq!(bool_to_string(false), "false");
}
