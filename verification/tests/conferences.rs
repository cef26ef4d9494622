use jitsi_jingle_sdp::SessionDescription;
use jitsi_meet_signalling::conference::{
    answer_disco, Conference, ConferenceConfig, ConferenceState, MediaType, Participant,
    ParticipantEvent, Step, Then,
};
use jitsi_meet_signalling::connection::{Authentication, Connection};
use jitsi_meet_signalling::disco::computed_caps_hash;
use jitsi_meet_signalling::error::{Error, JidError};
use jitsi_meet_signalling::inbound::{
    check_breaks, read_inbound, DiscoInfoQuery, Inbound, InboundIq, InboundJingle, InboundPayload,
    InboundPresence, Transport,
};
use jitsi_meet_signalling::jid::{BareJid, Jid};
use jitsi_meet_signalling::stanza::{Payload, Stanza};
use xmpp_parsers::disco::{DiscoInfoResult, Feature, Identity};
use xmpp_parsers::hashes::Algo;
use xmpp_parsers::{caps, ecaps2, Element};

const OFFER: &str = "<jingle xmlns='urn:xmpp:jingle:1' action='session-initiate' sid='s1' \
    initiator='focus@auth.example.org/focus'>\
    <content creator='initiator' name='audio' senders='both'>\
    <description xmlns='urn:xmpp:jingle:apps:rtp:1' media='audio'>\
    <payload-type id='111' name='opus' clockrate='48000' channels='2'/>\
    <source xmlns='urn:xmpp:jingle:apps:rtp:ssma:0' ssrc='11'>\
    <parameter name='msid' value='mixedmslabel mixedlabelaudio0'/></source>\
    <rtcp-mux/></description>\
    <transport xmlns='urn:xmpp:jingle:transports:ice-udp:1' ufrag='u' pwd='p'>\
    <web-socket xmlns='http://jitsi.org/protocol/colibri' url='wss://jvb.example.org/ws'/>\
    <fingerprint xmlns='urn:xmpp:jingle:apps:dtls:0' hash='sha-256' setup='actpass'>\
    AA:BB:0C</fingerprint></transport></content></jingle>";

const SOURCE_ADD: &str = "<jingle xmlns='urn:xmpp:jingle:1' action='source-add' sid='s1'>\
    <content creator='initiator' name='audio'>\
    <description xmlns='urn:xmpp:jingle:apps:rtp:1' media='audio'>\
    <source xmlns='urn:xmpp:jingle:apps:rtp:ssma:0' ssrc='22'>\
    <parameter name='msid' value='a b'/></source></description></content></jingle>";

const FOCUS: &str = "focus@auth.example.org/focus";
const FOCUS_IN_ROOM: &str = "native@conference.example.org/focus";
const OWN: &str = "ab12-cd@example.org/res";

fn connected(own: &str) -> Connection {
    let mut connection = Connection::connect(
        "wss://example.org/xmpp-websocket",
        "example.org",
        Authentication::Anonymous,
        false,
    )
    .ok()
    .unwrap()
    .connection;
    let open = "<open xmlns='urn:ietf:params:xml:ns:xmpp-framing' version='1.0'/>";
    let features = "<features xmlns='http://etherx.jabber.org/streams'/>";
    let success = "<success xmlns='urn:ietf:params:xml:ns:xmpp-sasl'/>";
    let bound = format!(
        "<iq xmlns='jabber:client' type='result' id='1'>\
         <bind xmlns='urn:ietf:params:xml:ns:xmpp-bind'><jid>{}</jid></bind></iq>",
        own
    );
    for xml in [open, features, success, open, features, bound.as_str()] {
        let reaction = connection.handle(&element(xml)).ok().unwrap();
        if reaction.send.is_some() {
            connection.sent();
        }
    }
    connection
}

fn element(xml: &str) -> Element {
    xml.parse().unwrap()
}

fn written(stanza: &Stanza) -> Element {
    stanza.to_xml().ok().unwrap().parse().unwrap()
}

fn joining(own: &str) -> Conference {
    connected(own).join("Native", "rust-1").ok().unwrap().conference
}

fn iq(kind: &str, from: &str, id: &str, payload: &str) -> Element {
    element(&format!(
        "<iq xmlns='jabber:client' type='{}' from='{}' id='{}'>{}</iq>",
        kind, from, id, payload
    ))
}

fn ready(value: &str) -> Element {
    let payload = format!(
        "<conference xmlns='http://jitsi.org/protocol/focus' ready='{}'/>",
        value
    );
    iq("result", FOCUS, "1", &payload)
}

fn presence(resource: &str, kind: &str, payload: &str) -> Element {
    element(&format!(
        "<presence xmlns='jabber:client' from='native@conference.example.org/{}'{}>{}</presence>",
        resource, kind, payload
    ))
}

fn muc_user(inner: &str) -> String {
    format!("<x xmlns='http://jabber.org/protocol/muc#user'>{}</x>", inner)
}

fn item(jid: &str) -> String {
    format!("<item affiliation='none' role='participant' jid='{}'/>", jid)
}

fn self_presence() -> Element {
    let inner = format!("{}<status code='110'/>", item(OWN));
    presence("ab12", "", &muc_user(&inner))
}

fn step(conference: &mut Conference, element: &Element) -> Step {
    conference.take(element).ok().unwrap()
}

/// The stanza that a step sends, and the step that follows it.
fn send(conference: &mut Conference, element: &Element) -> (Element, Result<Step, Error>) {
    match step(conference, element) {
        Step::Send { stanza, then } => (written(&stanza), conference.sent(then)),
        _ => panic!("nothing is sent"),
    }
}

fn joined() -> Conference {
    let mut conference = joining(OWN);
    let (_, next) = send(&mut conference, &ready("true"));
    assert!(matches!(next, Ok(Step::Done)));
    assert!(matches!(step(&mut conference, &self_presence()), Step::Joined));
    assert_eq!(conference.state(), ConferenceState::Idle);
    conference
}

fn offered() -> (Conference, SessionDescription) {
    let mut conference = joined();
    let (_, next) = send(&mut conference, &iq("set", FOCUS_IN_ROOM, "i1", OFFER));
    match next {
        Ok(Step::Offer { offer }) => (conference, offer),
        _ => panic!("no offer"),
    }
}

fn sdp(text: &str) -> SessionDescription {
    SessionDescription::unmarshal(&mut std::io::Cursor::new(text.as_bytes())).unwrap()
}

fn events(step: Step) -> Vec<ParticipantEvent> {
    match step {
        Step::Participants { events } => events,
        _ => panic!("no word on participants"),
    }
}

fn joined_participant(event: &ParticipantEvent) -> &Participant {
    match event {
        ParticipantEvent::Joined(participant) => participant,
        ParticipantEvent::Left(_) => panic!("left"),
    }
}

#[test]
fn joining_asks_the_focus_for_the_room() {
    let attempt = connected(OWN).join("Native", "rust-1").ok().unwrap();
    let request = written(&attempt.request);
    assert_eq!(request.attr("to"), Some(FOCUS));
    assert_eq!(request.attr("type"), Some("set"));
    assert_eq!(request.attr("from"), None);
    assert_eq!(request.attr("id").unwrap().len(), 36);
    let conference = request.children().next().unwrap();
    assert!(conference.is("conference", "http://jitsi.org/protocol/focus"));
    assert_eq!(conference.attr("room"), Some("native@conference.example.org"));
    assert_eq!(conference.attr("machine-uid").unwrap().len(), 36);
    let properties: Vec<(&str, &str)> = conference
        .children()
        .map(|p| (p.attr("name").unwrap(), p.attr("value").unwrap()))
        .collect();
    assert_eq!(properties, vec![("stereo", "false"), ("startBitrate", "800")]);
    assert_eq!(attempt.conference.state(), ConferenceState::Discovering);
}

#[test]
fn joining_needs_a_jid() {
    let connection = Connection::connect(
        "wss://example.org/xmpp-websocket",
        "example.org",
        Authentication::Anonymous,
        false,
    )
    .ok()
    .unwrap()
    .connection;
    assert_eq!(connection.join("native", "rust-1").err(), Some(Error::NotConnected));
}

#[test]
fn rooms_need_a_name() {
    assert_eq!(
        connected(OWN).join("", "rust-1").err(),
        Some(Error::InvalidRoom(JidError::EmptyNode))
    );
}

#[test]
fn rooms_have_fixed_places() {
    let domain = BareJid::parse("example.org").ok().unwrap();
    let config = ConferenceConfig::for_room(&domain, "native", "rust-1").ok().unwrap();
    assert_eq!(config.muc.to_string(), "native@conference.example.org");
    assert_eq!(config.focus.to_string(), FOCUS);
    assert_eq!(config.nick, "rust-1");
    assert_eq!(config.region, None);
    assert_eq!(config.video_codec, "vp9");
    assert!(config.extra_muc_features.is_empty());
    assert_eq!(config.start_bitrate, 800);
    assert!(!config.stereo);
    let slashed = BareJid { node: None, domain: "/".to_string() };
    assert_eq!(
        ConferenceConfig::for_room(&slashed, "native", "rust-1").err(),
        Some(Error::InvalidRoom(JidError::EmptyResource))
    );
}

#[test]
fn entering_announces_the_client() {
    let mut conference = joining(OWN);
    let (presence, next) = send(&mut conference, &ready("true"));
    assert!(matches!(next, Ok(Step::Done)));
    assert_eq!(conference.state(), ConferenceState::JoiningMuc);
    assert!(presence.is("presence", "jabber:client"));
    assert_eq!(presence.attr("to"), Some("native@conference.example.org/ab12"));
    let names: Vec<&str> = presence.children().map(|c| c.name()).collect();
    assert_eq!(
        names,
        vec![
            "x",
            "c",
            "c",
            "stats-id",
            "jitsi_participant_codecType",
            "audiomuted",
            "videomuted",
            "nick"
        ]
    );
    let texts: Vec<String> = presence.children().skip(3).map(|c| c.text()).collect();
    assert_eq!(texts, vec!["lib-jitsi-meet-rs", "vp9", "false", "false", "rust-1"]);
}

#[test]
fn presence_is_what_the_protocol_writes() {
    let features = [
        "http://jabber.org/protocol/disco#info",
        "urn:xmpp:jingle:apps:rtp:audio",
        "urn:xmpp:jingle:apps:rtp:video",
        "urn:xmpp:jingle:transports:ice-udp:1",
        "urn:xmpp:jingle:apps:dtls:0",
        "urn:ietf:rfc:5888",
        "urn:ietf:rfc:5761",
        "urn:ietf:rfc:4588",
        "http://jitsi.org/tcc",
    ];
    let info = DiscoInfoResult {
        node: None,
        identities: vec![Identity::new("client", "bot", "en", "lib-jitsi-meet-rs")],
        features: features.iter().map(|f| Feature::new(*f)).collect(),
        extensions: vec![],
    };
    let caps_hash = caps::hash_caps(&caps::compute_disco(&info), Algo::Sha_1).unwrap();
    let ecaps2_hash =
        ecaps2::hash_ecaps2(&ecaps2::compute_disco(&info).unwrap(), Algo::Sha_256).unwrap();
    let node = "https://github.com/avstack/lib-jitsi-meet-rs";
    let expected: Vec<Element> = vec![
        xmpp_parsers::muc::Muc::new().into(),
        caps::Caps::new(node, caps_hash).into(),
        ecaps2::ECaps2::new(vec![ecaps2_hash]).into(),
        Element::builder("stats-id", "jabber:client").append("lib-jitsi-meet-rs").build(),
        Element::builder("jitsi_participant_codecType", "jabber:client").append("av1").build(),
        Element::builder("audiomuted", "jabber:client").append("false").build(),
        Element::builder("videomuted", "jabber:client").append("false").build(),
        Element::builder("nick", "http://jabber.org/protocol/nick").append("rust-1").build(),
        Element::builder("jitsi_participant_region", "jabber:client").append("eu").build(),
        Element::builder("region", "http://jitsi.org/jitsi-meet").attr("id", "eu").build(),
        Feature::new("f1").into(),
        Feature::new("f2").into(),
    ];
    let config = ConferenceConfig {
        muc: BareJid::parse("native@conference.example.org").ok().unwrap(),
        focus: Jid::parse(FOCUS).ok().unwrap(),
        nick: "rust-1".to_string(),
        region: Some("eu".to_string()),
        video_codec: "av1".to_string(),
        extra_muc_features: vec!["f1".to_string(), "f2".to_string()],
        start_bitrate: 1,
        stereo: true,
    };
    let presence = config.initial_presence();
    assert_eq!(presence.len(), expected.len());
    for (own, outside) in presence.iter().zip(expected) {
        let mut bytes = Vec::new();
        outside.write_to(&mut bytes).unwrap();
        assert_eq!(own.write().unwrap(), String::from_utf8(bytes).unwrap());
    }
}

#[test]
fn room_has_to_be_ready() {
    let mut conference = joining(OWN);
    assert_eq!(conference.take(&ready("false")).err(), Some(Error::RoomNotReady));
    assert_eq!(conference.take(&ready("yes")).err(), Some(Error::InvalidReady));
    let silent = iq("result", FOCUS, "1", "<conference xmlns='http://jitsi.org/protocol/focus'/>");
    assert_eq!(conference.take(&silent).err(), Some(Error::MissingReady));
    assert_eq!(
        conference.take(&iq("result", FOCUS, "1", "")).err(),
        Some(Error::FocusFailed)
    );
    assert_eq!(conference.take(&self_presence()).err(), Some(Error::NotIq));
    assert_eq!(conference.state(), ConferenceState::Discovering);
}

#[test]
fn entering_needs_a_node() {
    let mut conference = joining("example.org/res");
    assert_eq!(conference.take(&ready("true")).err(), Some(Error::InvalidJid));
    assert_eq!(conference.state(), ConferenceState::Discovering);
    assert_eq!(conference.endpoint_id().err(), Some(Error::InvalidJid));
    assert!(conference.set_muted(MediaType::Audio, true).err() == Some(Error::InvalidJid));
    assert_eq!(conference.colibri_opened().err(), Some(Error::InvalidJid));
    assert_eq!(conference.send_colibri_message(1u8).ok(), Some(1));
}

#[test]
fn node_without_hyphen_is_the_endpoint() {
    let conference = joining("abcd@example.org/res");
    assert_eq!(conference.endpoint_id().ok(), Some("abcd"));
    assert_eq!(
        conference.jid_in_muc().ok().unwrap().to_string(),
        "native@conference.example.org/abcd"
    );
    assert_eq!(conference.focus_jid_in_muc().to_string(), FOCUS_IN_ROOM);
    assert_eq!(joining(OWN).endpoint_id().ok(), Some("ab12"));
}

#[test]
fn joined_when_the_room_says_so() {
    let mut conference = joining(OWN);
    send(&mut conference, &ready("true"));
    assert_eq!(conference.take(&ready("true")).err(), Some(Error::NotPresence));
    let other = presence("cd34", "", &muc_user(&item("cd34-x@example.org/r")));
    assert!(matches!(step(&mut conference, &other), Step::Done));
    assert!(matches!(step(&mut conference, &presence("cd34", "", "")), Step::Done));
    let broken = presence("cd34", "", &muc_user("<item affiliation='none' role='no-such'/>"));
    assert_eq!(conference.take(&broken).err(), Some(Error::NotMucUser));
    assert_eq!(conference.state(), ConferenceState::JoiningMuc);
    assert!(matches!(step(&mut conference, &self_presence()), Step::Joined));
    assert!(matches!(step(&mut conference, &self_presence()), Step::Participants { .. }));
    assert_eq!(conference.state(), ConferenceState::Idle);
}

#[test]
fn filter_goes_by_sender_and_kind() {
    let conference = joining(OWN);
    assert!(conference.filter(&iq("get", FOCUS, "1", "<a xmlns='b'/>")));
    assert!(conference.filter(&iq("set", FOCUS_IN_ROOM, "1", OFFER)));
    assert!(conference.filter(&iq("get", "native@conference.example.org", "1", "<a xmlns='b'/>")));
    assert!(conference.filter(&presence("cd34", "", "")));
    let elsewhere = "<presence xmlns='jabber:client' from='other@conference.example.org/a'/>";
    assert!(!conference.filter(&element(elsewhere)));
    let from_focus = format!("<presence xmlns='jabber:client' from='{}'/>", FOCUS);
    assert!(!conference.filter(&element(&from_focus)));
    let message = "<message xmlns='jabber:client' from='native@conference.example.org/a'/>";
    assert!(!conference.filter(&element(message)));
    assert!(!conference.filter(&element("<iq xmlns='jabber:client' type='get' id='1'/>")));
    let not_a_jid = "<presence xmlns='jabber:client' from='@'/>";
    assert!(!conference.filter(&element(not_a_jid)));
}

#[test]
fn questions_for_features_are_answered() {
    let mut conference = joined();
    let query = |node: &str| {
        iq(
            "get",
            "native@conference.example.org/cd34",
            "q1",
            &format!("<query xmlns='http://jabber.org/protocol/disco#info'{}/>", node),
        )
    };
    let (answer, next) = send(&mut conference, &query(""));
    assert!(matches!(next, Ok(Step::Done)));
    assert_eq!(answer.attr("type"), Some("result"));
    assert_eq!(answer.attr("id"), Some("q1"));
    assert_eq!(answer.attr("to"), Some("native@conference.example.org/cd34"));
    assert_eq!(answer.attr("from"), Some(OWN));
    let info = answer.children().next().unwrap();
    assert_eq!(info.attr("node"), None);
    assert_eq!(info.children().count(), 10);

    let announced =
        format!("https://github.com/avstack/lib-jitsi-meet-rs#{}", computed_caps_hash());
    let (answer, _) = send(&mut conference, &query(&format!(" node='{}'", announced)));
    assert_eq!(answer.attr("type"), Some("result"));
    let info = answer.children().next().unwrap();
    assert_eq!(info.attr("node"), Some(announced.as_str()));
    assert_eq!(info.children().count(), 10);

    let (answer, _) = send(&mut conference, &query(" node='elsewhere#x'"));
    assert_eq!(answer.attr("type"), Some("error"));
    let error = answer.children().next().unwrap();
    assert_eq!(error.attr("type"), Some("cancel"));
    let text = error.children().find(|c| c.name() == "text").unwrap();
    assert_eq!(text.text(), "Unknown disco#info node: elsewhere#x");
}

#[test]
fn only_the_announced_node_exists() {
    assert!(matches!(answer_disco(None), Payload::DiscoInfo { node: None }));
    let uri = "https://github.com/avstack/lib-jitsi-meet-rs";
    let announced = format!("{}#{}", uri, computed_caps_hash());
    match answer_disco(Some(announced.clone())) {
        Payload::DiscoInfo { node } => assert_eq!(node, Some(announced)),
        _ => panic!("refused"),
    }
    for node in [uri.to_string(), format!("{}#x", uri), format!("x#{}", computed_caps_hash())] {
        match answer_disco(Some(node.clone())) {
            Payload::ItemNotFound { text } => {
                assert_eq!(text, format!("Unknown disco#info node: {}", node))
            }
            _ => panic!("answered"),
        }
    }
}

#[test]
fn question_without_sender_is_refused() {
    let mut conference = joined();
    let query = element(
        "<iq xmlns='jabber:client' type='get' id='q1'>\
         <query xmlns='http://jabber.org/protocol/disco#info'/></iq>",
    );
    assert_eq!(conference.take(&query).err(), Some(Error::MissingSender));
    let other = element("<iq xmlns='jabber:client' type='get' id='q1'><a xmlns='b'/></iq>");
    assert!(matches!(step(&mut conference, &other), Step::Done));
}

#[test]
fn what_was_read_decides() {
    let mut conference = joined();
    let inbound = Inbound {
        iq: Some(InboundIq {
            from: Some(Jid::parse("a@b/c").ok().unwrap()),
            id: "9".to_string(),
            payload: InboundPayload::Query { query: Some(DiscoInfoQuery { node: None }) },
        }),
        presence: None,
    };
    match conference.handle(inbound) {
        Ok(Step::Send { stanza, then: Then::Nothing }) => {
            let answer = written(&stanza);
            assert_eq!(answer.attr("to"), Some("a@b/c"));
            assert_eq!(answer.attr("id"), Some("9"));
        }
        _ => panic!("no answer"),
    }
    let failure = Inbound {
        iq: Some(InboundIq {
            from: None,
            id: "9".to_string(),
            payload: InboundPayload::Failure,
        }),
        presence: None,
    };
    assert!(matches!(conference.handle(failure), Ok(Step::Done)));
    assert!(matches!(conference.handle(Inbound { iq: None, presence: None }), Ok(Step::Done)));
}

#[test]
fn offer_is_acknowledged_and_handed_over() {
    let mut conference = joined();
    let (ack, next) = send(&mut conference, &iq("set", FOCUS_IN_ROOM, "i1", OFFER));
    assert_eq!(ack.attr("type"), Some("result"));
    assert_eq!(ack.attr("id"), Some("i1"));
    assert_eq!(ack.attr("to"), Some(FOCUS_IN_ROOM));
    assert_eq!(ack.attr("from"), Some(OWN));
    assert_eq!(ack.children().count(), 0);
    match next {
        Ok(Step::Offer { offer }) => {
            assert_eq!(offer.media_descriptions.len(), 1);
            assert_eq!(offer.media_descriptions[0].media_name.media, "audio");
        }
        _ => panic!("no offer"),
    }
}

#[test]
fn only_the_focus_begins_and_ends_sessions() {
    let mut conference = joined();
    let other = "native@conference.example.org/cd34";
    assert!(matches!(step(&mut conference, &iq("set", other, "i1", OFFER)), Step::Done));
    let end = "<jingle xmlns='urn:xmpp:jingle:1' action='session-terminate' sid='s1'/>";
    assert!(matches!(step(&mut conference, &iq("set", other, "i2", end)), Step::Done));
    let bare = "native@conference.example.org";
    assert!(matches!(step(&mut conference, &iq("set", bare, "i3", OFFER)), Step::Done));
    let info = "<jingle xmlns='urn:xmpp:jingle:1' action='session-info' sid='s1'/>";
    assert!(matches!(step(&mut conference, &iq("set", FOCUS_IN_ROOM, "i4", info)), Step::Done));
    let unknown = "<a xmlns='b'/>";
    assert!(matches!(step(&mut conference, &iq("set", FOCUS_IN_ROOM, "i5", unknown)), Step::Done));
}

#[test]
fn incomplete_offer_is_an_error() {
    let mut conference = joined();
    let incomplete = OFFER.replace(" name='opus'", "");
    let (_, next) = send(&mut conference, &iq("set", FOCUS_IN_ROOM, "i1", &incomplete));
    assert_eq!(next.err(), Some(Error::InvalidJingle));
    assert!(conference.accept(&sdp("v=0\r\no=- 1 1 IN IP4 0.0.0.0\r\ns=-\r\nt=0 0\r\n")).is_ok());
}

#[test]
fn malformed_fingerprints_are_not_read() {
    for text in ["AABB", "AA:BBCC", "AA-BB", "\u{e9}\u{e9}:AA"] {
        let offer = OFFER.replace("AA:BB:0C", text);
        assert!(InboundJingle::read(element(&offer)).is_none());
        let mut conference = joined();
        let offer = iq("set", FOCUS_IN_ROOM, "i1", &offer);
        assert!(matches!(step(&mut conference, &offer), Step::Done));
    }
    let jingle = InboundJingle::read(element(OFFER)).unwrap();
    assert_eq!(jingle.jingle().action, "session-initiate");
    assert_eq!(jingle.jingle().sid, "s1");
    match &jingle.jingle().contents[0].transport {
        Some(Transport::IceUdp(transport)) => {
            assert_eq!(transport.web_socket.as_deref(), Some("wss://jvb.example.org/ws"))
        }
        _ => panic!("no ICE transport"),
    }
    assert_eq!(jingle.element().attr("sid"), Some("s1"));
}

#[test]
fn session_is_accepted_once() {
    let (mut conference, offer) = offered();
    let accept = written(&conference.accept(&offer).ok().unwrap());
    assert_eq!(accept.attr("type"), Some("set"));
    assert_eq!(accept.attr("from"), Some(OWN));
    assert_eq!(accept.attr("to"), Some(FOCUS_IN_ROOM));
    assert_eq!(accept.attr("id").unwrap().len(), 36);
    let jingle = accept.children().next().unwrap();
    assert!(jingle.is("jingle", "urn:xmpp:jingle:1"));
    assert_eq!(jingle.attr("action"), Some("session-accept"));
    assert_eq!(jingle.attr("sid"), Some("s1"));
    assert_eq!(jingle.attr("initiator"), Some(FOCUS_IN_ROOM));
    assert_eq!(jingle.attr("responder"), Some(OWN));
    assert_eq!(jingle.children().next().unwrap().attr("name"), Some("audio"));
    assert!(conference.accept(&offer).err() == Some(Error::NoSession));
}

#[test]
fn nothing_to_accept_without_an_offer() {
    let mut conference = joined();
    let (_, offer) = offered();
    assert!(conference.accept(&offer).err() == Some(Error::NoSession));
}

#[test]
fn failed_acceptance_uses_up_the_offer() {
    let head = "v=0\r\no=- 1 1 IN IP4 0.0.0.0\r\ns=-\r\nt=0 0\r\n";
    let media = "m=audio 9 UDP/TLS/RTP/SAVPF 111\r\nc=IN IP4 0.0.0.0\r\n";
    let (mut conference, offer) = offered();
    let malformed = sdp(&format!("{}{}a=setup:active\r\na=fingerprint:sha-256 AABB\r\n", head, media));
    assert!(conference.accept(&malformed).err() == Some(Error::MalformedFingerprint));
    assert!(conference.accept(&offer).err() == Some(Error::NoSession));
    let (mut conference, _) = offered();
    let bad_map = sdp(&format!("{}{}a=rtpmap:x opus/48000\r\n", head, media));
    assert!(conference.accept(&bad_map).err() == Some(Error::InvalidJingle));
    assert!(conference.accept(&offer).err() == Some(Error::NoSession));
    let (mut conference, _) = offered();
    let second = format!(
        "{}{}a=rtpmap:111 opus/48000/2\r\n{}a=fingerprint:sha-256 AABB\r\n",
        head, media, media
    );
    assert!(conference.accept(&sdp(&second)).is_ok());
}

#[test]
fn acceptance_needs_parties_that_are_jids() {
    let config = ConferenceConfig {
        muc: BareJid { node: Some(String::new()), domain: "conference.example.org".to_string() },
        focus: Jid::parse(FOCUS).ok().unwrap(),
        nick: "rust-1".to_string(),
        region: None,
        video_codec: "vp9".to_string(),
        extra_muc_features: vec![],
        start_bitrate: 800,
        stereo: false,
    };
    let mut conference = connected(OWN).join_config(config).ok().unwrap().conference;
    let jingle = InboundJingle::read(element(OFFER)).unwrap();
    match conference.sent(Then::Initiate(jingle)) {
        Ok(Step::Offer { offer }) => {
            assert!(conference.accept(&offer).err() == Some(Error::InvalidJingleJid));
        }
        _ => panic!("no offer"),
    }
    let jingle = InboundJingle::read(element(OFFER)).unwrap();
    assert!(matches!(conference.sent(Then::Initiate(jingle)), Ok(Step::Offer { .. })));
    let malformed = audio("a=setup:active\r\na=fingerprint:sha-256 AABB\r\n");
    assert!(conference.accept(&malformed).err() == Some(Error::InvalidJingleJid));
}

/// A description with one section that carries audio and has these attributes.
fn audio(attributes: &str) -> SessionDescription {
    sdp(&format!(
        "v=0\r\no=- 1 1 IN IP4 0.0.0.0\r\ns=-\r\nt=0 0\r\n\
         m=audio 9 UDP/TLS/RTP/SAVPF 111\r\nc=IN IP4 0.0.0.0\r\n{}",
        attributes
    ))
}

fn refusal(attributes: &str) -> Option<Error> {
    let (mut conference, _) = offered();
    conference.accept(&audio(attributes)).err()
}

#[test]
fn fingerprints_are_read_after_what_precedes_them() {
    let broken = "a=fingerprint:sha-256 AABB\r\n";
    let setup = "a=setup:active\r\n";
    let bad_map = "a=rtpmap:x opus/48000\r\n";
    let bad_extmap = "a=extmap:x uri\r\n";
    let bad_ssrc = "a=ssrc:x msid:a\r\n";
    assert_eq!(refusal(&format!("{}{}", setup, broken)), Some(Error::MalformedFingerprint));
    assert_eq!(refusal(broken), Some(Error::InvalidJingle));
    assert_eq!(refusal(&format!("a=setup:holdconn\r\n{}", broken)), Some(Error::InvalidJingle));
    assert_eq!(
        refusal(&format!("{}a=fingerprint:sha-256 GG-AA\r\n", setup)),
        Some(Error::InvalidJingle)
    );
    assert_eq!(
        refusal(&format!("{}a=fingerprint:sha-256 AA:G-:AA\r\n", setup)),
        Some(Error::InvalidJingle)
    );
    assert_eq!(
        refusal(&format!("{}a=fingerprint: AABB\r\n", setup)),
        Some(Error::InvalidJingle)
    );
    assert_eq!(
        refusal(&format!("{}{}{}", setup, broken, bad_map)),
        Some(Error::InvalidJingle)
    );
    assert_eq!(
        refusal(&format!("{}{}{}", setup, broken, bad_extmap)),
        Some(Error::InvalidJingle)
    );
    assert_eq!(
        refusal(&format!("{}{}{}", setup, broken, bad_ssrc)),
        Some(Error::MalformedFingerprint)
    );
    let second = format!("m=video 9 UDP/TLS/RTP/SAVPF 100\r\n{}{}", setup, broken);
    assert_eq!(refusal(&second), Some(Error::MalformedFingerprint));
    assert_eq!(refusal(&format!("{}{}", bad_ssrc, second)), Some(Error::InvalidJingle));
    assert_eq!(refusal(&format!("{}a=fingerprint:sha-256 AA:+B:0c\r\n", setup)), None);
    assert_eq!(refusal("a=fingerprint:AABB\r\n"), None);
}

#[test]
fn hexadecimal_readers_break_on_misplaced_colons() {
    for text in ["", "A", "AA", "AA:", "AA:B", "AA:BB", "+A:BB", "GG", "A", "\u{e9}", "GGG", "AA:G-A"] {
        assert!(!check_breaks(text));
    }
    for text in ["AAB", "AA:BBC", "AA-BB", "A\u{e9}", "\u{20ac}", "AA\u{e9}", "AA:\u{20ac}"] {
        assert!(check_breaks(text));
    }
}

#[test]
fn nothing_but_an_offer_can_be_accepted_again() {
    let (mut conference, offer) = offered();
    conference.offer_answered(offer.clone(), true);
    assert!(conference.accept_as(&offer, "a1".to_string()).is_ok());
    assert!(matches!(
        step(&mut conference, &iq("result", FOCUS_IN_ROOM, "a1", "")),
        Step::ConnectColibri { .. }
    ));
    assert!(conference.colibri_opened().is_ok());
    assert!(conference.set_muted(MediaType::Video, true).is_ok());
    conference.set_send_resolution(180);
    send(&mut conference, &iq("set", FOCUS_IN_ROOM, "s1", SOURCE_ADD));
    step(&mut conference, &presence("cd34", "", &muc_user(&item("cd34-x@example.org/r"))));
    assert!(conference.accept(&offer).err() == Some(Error::NoSession));
    let (_, next) = send(&mut conference, &iq("set", FOCUS_IN_ROOM, "i2", OFFER));
    assert!(matches!(next, Ok(Step::Offer { .. })));
    assert!(conference.accept(&offer).is_ok());
}

#[test]
fn question_has_no_children() {
    let mut conference = joined();
    let query = "<query xmlns='http://jabber.org/protocol/disco#info' other='x'><a/></query>";
    let query = iq("get", "native@conference.example.org/cd34", "q1", query);
    assert!(matches!(step(&mut conference, &query), Step::Done));
    let query = "<query xmlns='http://jabber.org/protocol/disco#info' other='x'>text</query>";
    let query = iq("get", "native@conference.example.org/cd34", "q1", query);
    assert!(matches!(step(&mut conference, &query), Step::Send { .. }));
}

#[test]
fn nickname_is_the_text_of_its_element() {
    let mut conference = joined();
    let payload = format!(
        "<nick xmlns='http://jabber.org/protocol/nick' a='b'>An<c>x</c>n</nick>{}",
        muc_user(&item("cd34-x@example.org/r"))
    );
    let come = events(step(&mut conference, &presence("cd34", "", &payload)));
    assert_eq!(joined_participant(&come[0]).nick.as_deref(), Some("Ann"));
}

#[test]
fn acknowledged_acceptance_opens_the_channel() {
    let (mut conference, offer) = offered();
    assert_eq!(conference.send_colibri_message("m").err(), Some(Error::NoColibriChannel));
    let accept = conference.accept_as(&offer, "a1".to_string()).ok().unwrap();
    assert_eq!(written(&accept).attr("id"), Some("a1"));
    let stray = iq("result", FOCUS_IN_ROOM, "a2", "");
    assert!(matches!(step(&mut conference, &stray), Step::Done));
    let answer = iq("result", FOCUS_IN_ROOM, "a1", "");
    match step(&mut conference, &answer) {
        Step::ConnectColibri { url } => assert_eq!(url, "wss://jvb.example.org/ws"),
        _ => panic!("no channel"),
    }
    assert!(matches!(step(&mut conference, &answer), Step::Done));
    assert_eq!(conference.colibri_opened().ok().as_deref(), Some("ab12"));
    assert_eq!(conference.send_colibri_message("m").ok(), Some("m"));
}

#[test]
fn no_channel_without_a_url() {
    let mut conference = joined();
    let web_socket =
        "<web-socket xmlns='http://jitsi.org/protocol/colibri' url='wss://jvb.example.org/ws'/>";
    let offer = OFFER.replace(web_socket, "");
    let (_, next) = send(&mut conference, &iq("set", FOCUS_IN_ROOM, "i1", &offer));
    match next {
        Ok(Step::Offer { offer }) => {
            assert!(conference.accept_as(&offer, "a1".to_string()).is_ok());
        }
        _ => panic!("no offer"),
    }
    let answer = iq("result", FOCUS_IN_ROOM, "a1", "");
    assert!(matches!(step(&mut conference, &answer), Step::Done));
}

#[test]
fn sources_are_added_to_a_kept_offer() {
    let (mut conference, offer) = offered();
    let other = "native@conference.example.org/cd34";
    let (ack, next) = send(&mut conference, &iq("set", other, "s1", SOURCE_ADD));
    assert_eq!(ack.attr("to"), Some(other));
    assert_eq!(ack.attr("id"), Some("s1"));
    assert!(matches!(next, Ok(Step::Done)));
    conference.offer_answered(offer.clone(), false);
    let (_, next) = send(&mut conference, &iq("set", other, "s2", SOURCE_ADD));
    assert!(matches!(next, Ok(Step::Done)));
    conference.offer_answered(offer, true);
    let (_, next) = send(&mut conference, &iq("set", other, "s3", SOURCE_ADD));
    match next {
        Ok(Step::SourceAdded { offer }) => assert_eq!(offer.media_descriptions.len(), 2),
        _ => panic!("no sources"),
    }
    let (_, next) = send(&mut conference, &iq("set", other, "s4", SOURCE_ADD));
    match next {
        Ok(Step::SourceAdded { offer }) => assert_eq!(offer.media_descriptions.len(), 3),
        _ => panic!("no sources"),
    }
}

#[test]
fn sources_are_removed_from_a_kept_offer() {
    let (mut conference, offer) = offered();
    let remove = SOURCE_ADD.replace("source-add", "source-remove");
    let (ack, next) = send(&mut conference, &iq("set", FOCUS_IN_ROOM, "s1", &remove));
    assert_eq!(ack.attr("id"), Some("s1"));
    assert!(matches!(next, Ok(Step::Done)));
    conference.offer_answered(offer, true);
    let (_, next) = send(&mut conference, &iq("set", FOCUS_IN_ROOM, "s2", &remove));
    match next {
        Ok(Step::RemoveSources { mut offer, jingle }) => {
            assert_eq!(jingle.jingle().action, "source-remove");
            assert_eq!(offer.media_descriptions.len(), 1);
            offer.media_descriptions.clear();
            conference.sources_removed(offer);
        }
        _ => panic!("nothing to remove from"),
    }
    let (_, next) = send(&mut conference, &iq("set", FOCUS_IN_ROOM, "s3", &remove));
    match next {
        Ok(Step::RemoveSources { offer, .. }) => assert!(offer.media_descriptions.is_empty()),
        _ => panic!("nothing to remove from"),
    }
}

#[test]
fn end_of_the_session_forgets_it() {
    let (mut conference, offer) = offered();
    conference.offer_answered(offer.clone(), true);
    assert!(conference.accept_as(&offer, "a1".to_string()).is_ok());
    assert!(conference.colibri_opened().is_ok());
    let end = "<jingle xmlns='urn:xmpp:jingle:1' action='session-terminate' sid='s1'/>";
    let (ack, next) = send(&mut conference, &iq("set", FOCUS_IN_ROOM, "t1", end));
    assert_eq!(ack.attr("id"), Some("t1"));
    assert!(matches!(next, Ok(Step::Terminated { stop_colibri: true })));
    assert_eq!(conference.send_colibri_message(()).err(), Some(Error::NoColibriChannel));
    assert!(conference.accept(&offer).err() == Some(Error::NoSession));
    let answer = iq("result", FOCUS_IN_ROOM, "a1", "");
    assert!(matches!(step(&mut conference, &answer), Step::Done));
    let (_, next) = send(&mut conference, &iq("set", FOCUS_IN_ROOM, "s1", SOURCE_ADD));
    assert!(matches!(next, Ok(Step::Done)));
    let (_, next) = send(&mut conference, &iq("set", FOCUS_IN_ROOM, "t2", end));
    assert!(matches!(next, Ok(Step::Terminated { stop_colibri: false })));
}

#[test]
fn participants_come_and_leave() {
    let mut conference = joined();
    let payload = format!(
        "<nick xmlns='http://jabber.org/protocol/nick'>Ann</nick>{}",
        muc_user(&item("cd34-x@example.org/r"))
    );
    let come = events(step(&mut conference, &presence("cd34", "", &payload)));
    assert_eq!(come.len(), 1);
    let participant = joined_participant(&come[0]);
    assert_eq!(participant.jid.as_ref().unwrap().to_string(), "cd34-x@example.org/r");
    assert_eq!(participant.muc_jid.to_string(), "native@conference.example.org/cd34");
    assert_eq!(participant.nick.as_deref(), Some("Ann"));

    assert!(events(step(&mut conference, &presence("cd34", "", &payload))).is_empty());

    let gone = presence("cd34", " type='unavailable'", &muc_user(&item("cd34-x@example.org/r")));
    let leave = events(step(&mut conference, &gone));
    assert_eq!(leave.len(), 1);
    match &leave[0] {
        ParticipantEvent::Left(participant) => {
            assert_eq!(participant.muc_jid.resource, "cd34");
            assert_eq!(participant.nick, None);
        }
        ParticipantEvent::Joined(_) => panic!("joined"),
    }
    assert!(events(step(&mut conference, &gone)).is_empty());
    assert_eq!(events(step(&mut conference, &presence("cd34", "", &payload))).len(), 1);
}

#[test]
fn nickname_of_the_item_counts_first() {
    let mut conference = joined();
    let with_nick =
        "<item affiliation='none' role='participant' jid='cd34-x@example.org/r' nick='Bea'/>";
    let payload = format!(
        "<nick xmlns='http://jabber.org/protocol/nick'>Ann</nick>{}",
        muc_user(with_nick)
    );
    let come = events(step(&mut conference, &presence("cd34", "", &payload)));
    assert_eq!(joined_participant(&come[0]).nick.as_deref(), Some("Bea"));
}

#[test]
fn self_focus_and_strangers_are_not_participants() {
    let mut conference = joined();
    assert!(events(step(&mut conference, &self_presence())).is_empty());
    let stranger = muc_user(&item("cd34-x@example.org/r"));
    assert!(matches!(step(&mut conference, &presence("focus", "", &stranger)), Step::Done));
    let elsewhere = element(&format!(
        "<presence xmlns='jabber:client' from='other@conference.example.org/cd34'>{}</presence>",
        stranger
    ));
    assert!(matches!(step(&mut conference, &elsewhere), Step::Done));
    let room = element(&format!(
        "<presence xmlns='jabber:client' from='native@conference.example.org'>{}</presence>",
        stranger
    ));
    assert!(matches!(step(&mut conference, &room), Step::Done));
    let without_jid = muc_user("<item affiliation='none' role='participant'/>");
    assert!(events(step(&mut conference, &presence("cd34", "", &without_jid))).is_empty());
    assert!(matches!(step(&mut conference, &presence("cd34", "", "")), Step::Done));
}

#[test]
fn unreadable_presences_are_errors() {
    let mut conference = joined();
    let without_from = element("<presence xmlns='jabber:client'/>");
    assert_eq!(conference.take(&without_from).err(), Some(Error::MissingFrom));
    let unreadable_nick = Inbound {
        iq: None,
        presence: Some(InboundPresence {
            from: Some(Jid::parse("native@conference.example.org/cd34").ok().unwrap()),
            unavailable: false,
            nick: Some(None),
            muc_user: Some(None),
        }),
    };
    assert_eq!(conference.handle(unreadable_nick).err(), Some(Error::NotNick));
    let broken = muc_user("<item affiliation='none' role='no-such'/>");
    assert_eq!(conference.take(&presence("cd34", "", &broken)).err(), Some(Error::NotMucUser));
    assert!(matches!(step(&mut conference, &element("<a xmlns='b'/>")), Step::Done));
}

#[test]
fn muting_is_told_to_the_room() {
    let mut conference = joined();
    let muted = |conference: &mut Conference, media: MediaType, on: bool| -> Vec<(String, String)> {
        let presence = written(&conference.set_muted(media, on).ok().unwrap());
        assert_eq!(presence.attr("to"), Some("native@conference.example.org/ab12"));
        presence
            .children()
            .filter(|c| c.name().ends_with("muted"))
            .map(|c| (c.name().to_string(), c.text()))
            .collect()
    };
    let pair = |name: &str, value: &str| (name.to_string(), value.to_string());
    assert_eq!(
        muted(&mut conference, MediaType::Audio, true),
        vec![pair("videomuted", "false"), pair("audiomuted", "true")]
    );
    assert_eq!(
        muted(&mut conference, MediaType::Video, true),
        vec![pair("audiomuted", "true"), pair("videomuted", "true")]
    );
    assert_eq!(
        muted(&mut conference, MediaType::Audio, false),
        vec![pair("videomuted", "true"), pair("audiomuted", "false")]
    );
    let presence = written(&conference.send_presence().ok().unwrap());
    assert_eq!(presence.children().count(), 8);
}

#[test]
fn resolution_is_kept() {
    let mut conference = joined();
    assert_eq!(conference.send_resolution(), None);
    conference.set_send_resolution(720);
    assert_eq!(conference.send_resolution(), Some(720));
}

#[test]
fn json_goes_to_the_whole_room() {
    let conference = joined();
    let message = written(&conference.send_json_message("{\"a\":\"<b>\"}".to_string()));
    assert!(message.is("message", "jabber:client"));
    assert_eq!(message.attr("type"), Some("groupchat"));
    assert_eq!(message.attr("from"), Some(OWN));
    assert_eq!(message.attr("to"), Some("native@conference.example.org"));
    assert_eq!(message.attr("id").unwrap().len(), 36);
    let payload = message.children().next().unwrap();
    assert!(payload.is("json-message", "http://jitsi.org/jitmeet"));
    assert_eq!(payload.text(), "{\"a\":\"<b>\"}");
    let message = written(&conference.json_message("1".to_string(), "m1".to_string()));
    assert_eq!(message.attr("id"), Some("m1"));
}

#[test]
fn presence_is_read_with_its_first_payloads() {
    let inbound = read_inbound(&presence(
        "cd34",
        " type='unavailable'",
        &muc_user(&format!("{}<status code='110'/><status code='100'/>", item(OWN))),
    ));
    assert!(inbound.iq.is_none());
    let presence = inbound.presence.unwrap();
    assert!(presence.unavailable);
    assert!(presence.nick.is_none());
    let muc_user = presence.muc_user.unwrap().unwrap();
    assert_eq!(muc_user.statuses, vec!["110", "100"]);
    assert_eq!(muc_user.items.len(), 1);
    assert_eq!(muc_user.items[0].jid.as_ref().unwrap().to_string(), OWN);
}

#[test]
fn presence_is_about_its_sender() {
    let mut conference = joined();
    let first = presence("cd34", "", &muc_user(&item("cd34-x@example.org/r")));
    let second = presence("ef56", "", &muc_user(&item("ef56-x@example.org/r")));
    assert_eq!(events(step(&mut conference, &first)).len(), 1);
    assert_eq!(events(step(&mut conference, &second)).len(), 1);
    let gone = presence("cd34", " type='unavailable'", &muc_user(&item("cd34-x@example.org/r")));
    assert_eq!(events(step(&mut conference, &gone)).len(), 1);
    assert!(events(step(&mut conference, &second)).is_empty());
    assert_eq!(events(step(&mut conference, &first)).len(), 1);
}

#[test]
fn items_of_a_presence_count_one_after_the_other() {
    let mut conference = joined();
    let items = format!("{}{}", item("cd34-x@example.org/r"), item("cd34-y@example.org/r"));
    let come = events(step(&mut conference, &presence("cd34", "", &muc_user(&items))));
    assert_eq!(come.len(), 1);
    assert_eq!(
        joined_participant(&come[0]).jid.as_ref().unwrap().to_string(),
        "cd34-x@example.org/r"
    );
}

#[test]
fn own_presence_is_not_for_the_conference() {
    let conference = joined();
    let own = conference.send_presence().ok().unwrap().to_element();
    assert!(!conference.filter(own.as_element()));
    let from_room = own.attr("from", "native@conference.example.org/ab12");
    assert!(conference.filter(from_room.as_element()));
}

#[test]
fn presences_have_a_known_type_and_other_children_as_payloads() {
    let read = |kind: &str, inner: &str| read_inbound(&presence("cd34", kind, inner)).presence;
    let nick = "<nick xmlns='http://jabber.org/protocol/nick'>Ann</nick>";
    let inner = format!("<show>away</show><status>x</status><priority>1</priority>{}", nick);
    let present = read("", &inner).unwrap();
    assert!(!present.unavailable);
    assert_eq!(present.nick, Some(Some("Ann".to_string())));
    assert!(present.muc_user.is_none());
    assert!(read(" type='unavailable'", "").unwrap().unavailable);
    assert!(!read(" type='error'", "").unwrap().unavailable);
    assert!(read(" type='other'", "").is_none());
    assert!(read(" to='@'", "").is_none());
    assert!(read("", "<show>nowhere</show>").is_none());
}
