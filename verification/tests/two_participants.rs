use jitsi_meet_signalling::conference::{Conference, ConferenceState, ParticipantEvent, Step};
use jitsi_meet_signalling::connection::{
    read_incoming, Authentication, Connection, ConnectionState, Incoming,
};
use xmpp_parsers::Element;

const OFFER: &str = "<jingle xmlns='urn:xmpp:jingle:1' action='session-initiate' sid='s1'>\
    <content creator='initiator' name='audio' senders='both'>\
    <description xmlns='urn:xmpp:jingle:apps:rtp:1' media='audio'>\
    <payload-type id='111' name='opus' clockrate='48000' channels='2'/>\
    <source xmlns='urn:xmpp:jingle:apps:rtp:ssma:0' ssrc='11'/></description>\
    <transport xmlns='urn:xmpp:jingle:transports:ice-udp:1' ufrag='u' pwd='p'/></content></jingle>";

fn element(xml: &str) -> Element {
    match read_incoming(&Incoming::Text(xml.to_string())) {
        Ok(Some(element)) => element,
        _ => panic!("not an element"),
    }
}

fn connect(own: &str) -> Connection {
    let attempt = Connection::connect(
        "wss://meet.avstack.io/avstack/xmpp-websocket",
        "avstack.onavstack.net",
        Authentication::Anonymous,
        false,
    )
    .ok()
    .unwrap();
    assert_eq!(attempt.handshake.headers[3].1, "meet.avstack.io");
    let mut connection = attempt.connection;
    let open = "<open xmlns='urn:ietf:params:xml:ns:xmpp-framing' version='1.0'/>";
    let features = "<features xmlns='http://etherx.jabber.org/streams'/>";
    let bound = format!(
        "<iq xmlns='jabber:client' type='result' id='1'>\
         <bind xmlns='urn:ietf:params:xml:ns:xmpp-bind'><jid>{}</jid></bind></iq>",
        own
    );
    let replies = [
        open,
        features,
        "<success xmlns='urn:ietf:params:xml:ns:xmpp-sasl'/>",
        open,
        features,
        bound.as_str(),
        "<iq xmlns='jabber:client' type='result' id='1'>\
         <query xmlns='http://jabber.org/protocol/disco#info'>\
         <identity category='server' type='im'/>\
         <feature var='http://jabber.org/protocol/disco#info'/></query></iq>",
        "<iq xmlns='jabber:client' type='result' id='1'><services xmlns='urn:xmpp:extdisco:2'/></iq>",
    ];
    for reply in replies {
        let reaction = connection.handle(&element(reply)).ok().unwrap();
        if reaction.send.is_some() {
            connection.sent();
        }
    }
    assert_eq!(connection.state(), ConnectionState::Idle);
    connection
}

fn presence(endpoint: &str, jid: &str, status: &str) -> Element {
    element(&format!(
        "<presence xmlns='jabber:client' from='native@conference.avstack.onavstack.net/{}'>\
         <x xmlns='http://jabber.org/protocol/muc#user'>\
         <item affiliation='none' role='participant' jid='{}'/>{}</x></presence>",
        endpoint, jid, status
    ))
}

fn take(conference: &mut Conference, element: &Element) -> Step {
    assert!(conference.filter(element));
    match conference.take(element).ok().unwrap() {
        Step::Send { then, .. } => conference.sent(then).ok().unwrap(),
        step => step,
    }
}

fn join(connection: &Connection, nick: &str, endpoint: &str, jid: &str) -> Conference {
    let mut conference = connection.join("native", nick).ok().unwrap().conference;
    let ready = element(
        "<iq xmlns='jabber:client' type='result' id='1' \
         from='focus@auth.avstack.onavstack.net/focus'>\
         <conference xmlns='http://jitsi.org/protocol/focus' ready='true'/></iq>",
    );
    assert!(matches!(take(&mut conference, &ready), Step::Done));
    let own = presence(endpoint, jid, "<status code='110'/>");
    assert!(matches!(take(&mut conference, &own), Step::Joined));
    assert_eq!(conference.state(), ConferenceState::Idle);
    conference
}

#[test]
fn two_participants() {
    let (jid_1, jid_2) = ("aa11-x@avstack.onavstack.net/1", "bb22-y@avstack.onavstack.net/2");
    let connection_1 = connect(jid_1);
    let mut conference_1 = join(&connection_1, "rust-1", "aa11", jid_1);
    let connection_2 = connect(jid_2);
    let mut conference_2 = join(&connection_2, "rust-2", "bb22", jid_2);

    for (conference, endpoint, jid) in [
        (&mut conference_1, "bb22", jid_2),
        (&mut conference_2, "aa11", jid_1),
    ] {
        match take(conference, &presence(endpoint, jid, "")) {
            Step::Participants { events } => match events.as_slice() {
                [ParticipantEvent::Joined(participant)] => {
                    assert_eq!(participant.muc_jid.resource, endpoint)
                }
                _ => panic!("nobody joined"),
            },
            _ => panic!("no word on participants"),
        }
        let offer = element(&format!(
            "<iq xmlns='jabber:client' type='set' id='2' \
             from='native@conference.avstack.onavstack.net/focus'>{}</iq>",
            OFFER
        ));
        assert!(matches!(take(conference, &offer), Step::Offer { .. }));
    }
}
