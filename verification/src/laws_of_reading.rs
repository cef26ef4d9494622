//! What is read out of everything that arrives, whatever else it holds.
use vstd::prelude::*;

use crate::colibri::{ping_in, pong, reply_for, reply_to, EndpointMessageView};
use crate::conference::disco_reply;
use crate::element::Tree;
use crate::error::Error;
use crate::inbound::{
    breaks_reader, disco_query_of, inbound_of, iq_of, jingle_of, muc_user_of, presence_of,
    InboundJingleView, InboundPayloadView, IqPayloadView, IqView,
};
use crate::jid::{endpoint_id_of, jid_of, FullJidView, JidView};
use crate::pinger::{holds_ping, pong_for};
use crate::sdp::{
    answers_of, before_fingerprint, breaks, first_break, is_answer, AttributeView, SdpView,
    SectionView,
};
use crate::stanza::{PayloadView, StanzaView};
use crate::text::{before, decimal, spelled};

verus! {

/// Whether a transport holds a fingerprint that breaks its reader.
pub open spec fn breaking_fingerprint(t: Tree) -> bool {
    &&& t.name == "fingerprint"@ && t.ns == "urn:xmpp:jingle:apps:dtls:0"@
    &&& breaks_reader(t.text())
}

/// Whether a fingerprint that breaks its reader stands where the session protocol reads one.
pub open spec fn holds_breaking_fingerprint(jingle: Tree) -> bool {
    exists|i: int, j: int, k: int|
        {
            let content = jingle.elements()[i];
            let transport = content.elements()[j];
            &&& 0 <= i < jingle.elements().len()
            &&& content.name == "content"@ && content.ns == "urn:xmpp:jingle:1"@
            &&& 0 <= j < content.elements().len()
            &&& transport.name == "transport"@ && transport.ns
                == "urn:xmpp:jingle:transports:ice-udp:1"@
            &&& 0 <= k < transport.elements().len()
            &&& #[trigger] breaking_fingerprint(
                jingle.elements()[i].elements()[j].elements()[k],
            )
        }
}

/// An IQ is read with its sender and its identifier, and with what its payload says. A message of the
/// session protocol is read whatever its contents are, unless a fingerprint in it breaks its reader.
pub proof fn law_iqs_are_read_with_their_payload(tree: Tree)
    ensures
        iq_of(tree) is None <==> inbound_of(tree).iq is None,
        iq_of(tree) matches Some(iq) ==> {
            let read = inbound_of(tree).iq->0;
            &&& read.from == iq.from && read.id == iq.id
            &&& match iq.payload {
                IqPayloadView::Query(t) => read.payload == InboundPayloadView::Query {
                    query: disco_query_of(t),
                },
                IqPayloadView::Command(t) => read.payload matches InboundPayloadView::Command {
                    jingle,
                } && {
                    &&& jingle_of(t) is None || holds_breaking_fingerprint(t) ==> jingle is None
                    &&& jingle_of(t) is Some && !holds_breaking_fingerprint(t) ==> jingle == Some(
                        InboundJingleView { jingle: jingle_of(t)->0, tree: t },
                    )
                },
                IqPayloadView::Answer(None) => read.payload matches InboundPayloadView::Answer {
                    conference,
                } && conference is None,
                IqPayloadView::Answer(Some(t)) => read.payload matches InboundPayloadView::Answer {
                    conference: Some(answer),
                } && answer.ready == t.attr("ready"@),
                IqPayloadView::Failure => read.payload is Failure,
            }
        },
{
    if let Some(iq) = iq_of(tree) {
        if let IqPayloadView::Command(t) = iq.payload {
            lemma_breaking_fingerprints(t);
        }
    }
}

proof fn lemma_breaking_fingerprints(jingle: Tree)
    ensures
        crate::inbound::fingerprints_decodable(jingle) <==> !holds_breaking_fingerprint(jingle),
{
    if holds_breaking_fingerprint(jingle) {
        let (i, j, k) = choose|i: int, j: int, k: int|
            {
                let content = jingle.elements()[i];
                let transport = content.elements()[j];
                &&& 0 <= i < jingle.elements().len()
                &&& content.name == "content"@ && content.ns == "urn:xmpp:jingle:1"@
                &&& 0 <= j < content.elements().len()
                &&& transport.name == "transport"@ && transport.ns
                    == "urn:xmpp:jingle:transports:ice-udp:1"@
                &&& 0 <= k < transport.elements().len()
                &&& #[trigger] breaking_fingerprint(
                    jingle.elements()[i].elements()[j].elements()[k],
                )
            };
        let content = jingle.elements()[i];
        let transport = content.elements()[j];
        assert(content.is("content"@, "urn:xmpp:jingle:1"@));
        assert(transport.is("transport"@, "urn:xmpp:jingle:transports:ice-udp:1"@));
        assert(transport.elements()[k].is("fingerprint"@, "urn:xmpp:jingle:apps:dtls:0"@));
    } else {
        assert forall|i: int|
            0 <= i < jingle.elements().len() && #[trigger] jingle.elements()[i].is(
                "content"@,
                "urn:xmpp:jingle:1"@,
            ) implies crate::inbound::content_decodable(jingle.elements()[i]) by {
            let content = jingle.elements()[i];
            assert forall|j: int|
                0 <= j < content.elements().len() && #[trigger] content.elements()[j].is(
                    "transport"@,
                    "urn:xmpp:jingle:transports:ice-udp:1"@,
                ) implies crate::inbound::transport_decodable(content.elements()[j]) by {
                let transport = content.elements()[j];
                assert forall|k: int|
                    0 <= k < transport.elements().len() && #[trigger] transport.elements()[k].is(
                        "fingerprint"@,
                        "urn:xmpp:jingle:apps:dtls:0"@,
                    ) implies !breaks_reader(transport.elements()[k].text()) by {
                    assert(!breaking_fingerprint(
                        jingle.elements()[i].elements()[j].elements()[k],
                    ));
                }
            }
        }
    }
}

/// Whether an element is the first of several with its name and namespace.
pub open spec fn is_first(trees: Seq<Tree>, i: int, name: Seq<char>, ns: Seq<char>) -> bool {
    &&& 0 <= i < trees.len()
    &&& trees[i].name == name && trees[i].ns == ns
    &&& forall|j: int| 0 <= j < i ==> !((#[trigger] trees[j]).name == name && trees[j].ns == ns)
}

/// A presence is read with its sender, with whether the sender is gone, and with the first nickname
/// and the first word from the room among its payloads, wherever they stand.
pub proof fn law_presences_are_read_with_their_first_payloads(tree: Tree, i: int)
    ensures
        presence_of(tree) is None <==> inbound_of(tree).presence is None,
        presence_of(tree) matches Some(presence) ==> {
            let read = inbound_of(tree).presence->0;
            let (nick, nick_ns) = ("nick"@, "http://jabber.org/protocol/nick"@);
            let (x, x_ns) = ("x"@, "http://jabber.org/protocol/muc#user"@);
            let payloads = presence.payloads;
            &&& read.from == presence.from
            &&& read.unavailable <==> tree.attr("type"@) == Some("unavailable"@)
            &&& is_first(payloads, i, nick, nick_ns) ==> read.nick == Some(Some(payloads[i].text()))
            &&& (forall|j: int|
                0 <= j < payloads.len() ==> !((#[trigger] payloads[j]).name == nick && payloads[j].ns
                    == nick_ns)) ==> read.nick is None
            &&& is_first(payloads, i, x, x_ns) ==> read.muc_user == Some(muc_user_of(payloads[i]))
            &&& (forall|j: int|
                0 <= j < payloads.len() ==> !((#[trigger] payloads[j]).name == x && payloads[j].ns
                    == x_ns)) ==> read.muc_user is None
        },
{
    if let Some(presence) = presence_of(tree) {
        lemma_first(presence.payloads, i, "nick"@, "http://jabber.org/protocol/nick"@);
        lemma_first(presence.payloads, i, "x"@, "http://jabber.org/protocol/muc#user"@);
        lemma_type_texts();
    }
}

proof fn lemma_type_texts()
    ensures
        "unavailable"@ != "error"@,
        "unavailable"@ != "probe"@,
        "unavailable"@ != "subscribe"@,
        "unavailable"@ != "subscribed"@,
{
    reveal_strlit("unavailable");
    reveal_strlit("error");
    reveal_strlit("probe");
    reveal_strlit("subscribe");
    reveal_strlit("subscribed");
    assert("unavailable"@.len() == 11 && "error"@.len() == 5 && "probe"@.len() == 5);
    assert("subscribe"@.len() == 9 && "subscribed"@.len() == 10);
}

proof fn lemma_first(trees: Seq<Tree>, i: int, name: Seq<char>, ns: Seq<char>)
    ensures
        is_first(trees, i, name, ns) ==> crate::inbound::first_is(trees, name, ns) == Some(trees[i]),
        (forall|j: int|
            0 <= j < trees.len() ==> !((#[trigger] trees[j]).name == name && trees[j].ns == ns))
            ==> crate::inbound::first_is(trees, name, ns) is None,
    decreases trees.len(),
{
    if trees.len() > 0 {
        let rest = trees.skip(1);
        lemma_first(rest, i - 1, name, ns);
        if is_first(trees, i, name, ns) && i > 0 {
            assert(!(trees[0].name == name && trees[0].ns == ns));
            assert forall|j: int| 0 <= j < i - 1 implies !((#[trigger] rest[j]).name == name
                && rest[j].ns == ns) by {
                assert(rest[j] == trees[j + 1]);
            }
            assert(is_first(rest, i - 1, name, ns));
        }
        if forall|j: int|
            0 <= j < trees.len() ==> !((#[trigger] trees[j]).name == name && trees[j].ns == ns) {
            assert forall|j: int| 0 <= j < rest.len() implies !((#[trigger] rest[j]).name == name
                && rest[j].ns == ns) by {
                assert(rest[j] == trees[j + 1]);
            }
        }
    }
}

/// Bytes in hexadecimal, each of two digits and set apart by colons, never break their reader,
/// however many there are.
pub proof fn law_well_formed_bytes_can_be_read(s: Seq<char>, n: int)
    requires
        n > 0,
        s.len() == 3 * n - 1,
        forall|i: int| 0 <= i < n ==> is_byte(#[trigger] s[3 * i], s[3 * i + 1]),
        forall|i: int| 0 <= i < n - 1 ==> #[trigger] s[3 * i + 2] == ':',
    ensures
        !breaks_reader(s),
    decreases n,
{
    assert(is_byte(s[3 * 0int], s[3 * 0int + 1]));
    if n > 1 {
        let rest = s.skip(3);
        assert(s[3 * 0int + 2] == ':');
        assert forall|i: int| 0 <= i < n - 1 implies is_byte(#[trigger] rest[3 * i], rest[3 * i + 1])
        by {
            assert(is_byte(s[3 * (i + 1)], s[3 * (i + 1) + 1]));
        }
        assert forall|i: int| 0 <= i < n - 2 implies #[trigger] rest[3 * i + 2] == ':' by {
            assert(s[3 * (i + 1) + 2] == ':');
        }
        law_well_formed_bytes_can_be_read(rest, n - 1);
    }
}

/// Whether two characters are hexadecimal digits.
pub open spec fn is_byte(a: char, b: char) -> bool {
    &&& '0' <= a <= '9' || 'a' <= a <= 'f' || 'A' <= a <= 'F'
    &&& '0' <= b <= '9' || 'a' <= b <= 'f' || 'A' <= b <= 'F'
}

/// Bytes in hexadecimal break their reader where anything but a colon follows one of them, however
/// many go before.
pub proof fn law_bytes_that_run_on_cannot_be_read(s: Seq<char>, n: int)
    requires
        n > 0,
        s.len() >= 3 * n,
        forall|i: int| 0 <= i < n ==> is_byte(#[trigger] s[3 * i], s[3 * i + 1]),
        forall|i: int| 0 <= i < n - 1 ==> #[trigger] s[3 * i + 2] == ':',
        s[3 * n - 1] != ':',
    ensures
        breaks_reader(s),
    decreases n,
{
    assert(is_byte(s[3 * 0int], s[3 * 0int + 1]));
    if n > 1 {
        let rest = s.skip(3);
        assert(s[3 * 0int + 2] == ':');
        assert forall|i: int| 0 <= i < n - 1 implies is_byte(#[trigger] rest[3 * i], rest[3 * i + 1])
        by {
            assert(is_byte(s[3 * (i + 1)], s[3 * (i + 1) + 1]));
        }
        assert forall|i: int| 0 <= i < n - 2 implies #[trigger] rest[3 * i + 2] == ':' by {
            assert(s[3 * (i + 1) + 2] == ':');
        }
        assert(rest[3 * (n - 1) - 1] == s[3 * n - 1]);
        law_bytes_that_run_on_cannot_be_read(rest, n - 1);
    }
}

/// The reader goes byte by byte: what it makes of a text is what it makes of the rest behind a byte and
/// its colon. It stops without breaking where two characters are not a byte, and where the text ends;
/// it breaks where another character than a colon follows a byte, and where a byte ends inside a
/// character.
pub proof fn law_reader_goes_byte_by_byte(a: char, b: char, c: char, rest: Seq<char>)
    ensures
        ({
            let digit = |x: char| '0' <= x <= '9' || 'a' <= x <= 'f' || 'A' <= x <= 'F';
            let ascii = (a as u32) < 0x80 && (b as u32) < 0x80;
            let byte = (digit(a) || a == '+') && digit(b);
            &&& byte ==> breaks_reader(seq![a, b, ':'] + rest) == breaks_reader(rest)
            &&& byte && c != ':' ==> breaks_reader(seq![a, b, c] + rest)
            &&& ascii && !byte ==> !breaks_reader(seq![a, b] + rest)
            &&& byte ==> !breaks_reader(seq![a, b])
            &&& (a as u32) < 0x80 && (b as u32) >= 0x80 ==> breaks_reader(seq![a, b] + rest)
            &&& 0x80 <= (a as u32) < 0x800 ==> !breaks_reader(seq![a] + rest)
            &&& (a as u32) >= 0x800 ==> breaks_reader(seq![a] + rest)
            &&& (a as u32) < 0x80 ==> !breaks_reader(seq![a])
            &&& !breaks_reader(Seq::empty())
        }),
{
    assert((seq![a, b, ':'] + rest).skip(3) =~= rest);
    assert((seq![a, b, ':'] + rest)[0] == a);
    assert((seq![a, b, ':'] + rest)[1] == b);
    assert((seq![a, b, ':'] + rest)[2] == ':');
    assert((seq![a, b, c] + rest)[0] == a);
    assert((seq![a, b, c] + rest)[1] == b);
    assert((seq![a, b, c] + rest)[2] == c);
    assert((seq![a, b] + rest)[0] == a);
    assert((seq![a, b] + rest)[1] == b);
    assert((seq![a] + rest)[0] == a);
}

/// Whether a section is the first with its media and its fingerprint breaks its reader.
pub open spec fn is_breaking(sections: Seq<SectionView>, i: int) -> bool {
    &&& breaks(sections[i])
    &&& forall|j: int| 0 <= j < i ==> (#[trigger] sections[j]).media != sections[i].media
}

/// A description without a fingerprint that breaks its reader is accepted with one of the elements
/// that say it, if there is one, whatever its sections are. The element is an acceptance of this
/// session, from this initiator to this responder.
pub proof fn law_sound_descriptions_are_accepted(
    sdp: SdpView,
    session_id: Seq<char>,
    initiator: Seq<char>,
    responder: Seq<char>,
    r: Result<Tree, Error>,
)
    requires
        is_answer(sdp, session_id, initiator, responder, r),
        jid_of(initiator) is Ok,
        jid_of(responder) is Ok,
        forall|i: int| 0 <= i < sdp.sections.len() ==> !#[trigger] is_breaking(sdp.sections, i),
    ensures
        ({
            let answers = answers_of(sdp, session_id, initiator, responder);
            &&& answers == Set::<Tree>::empty() ==> r == Err::<Tree, Error>(Error::InvalidJingle)
            &&& answers != Set::<Tree>::empty() ==> r is Ok
            &&& r matches Ok(t) ==> {
                &&& answers.contains(t)
                &&& t.name == "jingle"@ && t.ns == "urn:xmpp:jingle:1"@
                &&& t.attr("action"@) == Some("session-accept"@)
                &&& t.attr("sid"@) == Some(session_id)
                &&& t.attr("initiator"@) == Some(initiator)
                &&& t.attr("responder"@) == Some(responder)
            }
        }),
{
    lemma_no_break(sdp.sections, 0);
}

/// An acceptance is refused for its parties before anything else. Then it is refused for a fingerprint
/// that breaks its reader, if what precedes the first such fingerprint can be said, and otherwise for
/// what precedes it.
pub proof fn law_unsound_descriptions_are_refused(
    sdp: SdpView,
    session_id: Seq<char>,
    initiator: Seq<char>,
    responder: Seq<char>,
    r: Result<Tree, Error>,
    i: int,
)
    requires
        is_answer(sdp, session_id, initiator, responder, r),
    ensures
        jid_of(initiator) is Err || jid_of(responder) is Err ==> r == Err::<Tree, Error>(
            Error::InvalidJingleJid,
        ),
        jid_of(initiator) is Ok && jid_of(responder) is Ok && 0 <= i < sdp.sections.len()
            && is_breaking(sdp.sections, i) && (forall|j: int|
            0 <= j < i ==> !#[trigger] is_breaking(sdp.sections, j)) ==> r == Err::<Tree, Error>(
            if answers_of(
                before_fingerprint(sdp.sections, i),
                session_id,
                initiator,
                responder,
            ) == Set::<Tree>::empty() {
                Error::InvalidJingle
            } else {
                Error::MalformedFingerprint
            },
        ),
{
    if 0 <= i < sdp.sections.len() && is_breaking(sdp.sections, i) && (forall|j: int|
        0 <= j < i ==> !#[trigger] is_breaking(sdp.sections, j)) {
        lemma_break(sdp.sections, 0, i);
    }
}

proof fn lemma_no_break(sections: Seq<SectionView>, from: int)
    requires
        0 <= from,
        forall|i: int| 0 <= i < sections.len() ==> !#[trigger] is_breaking(sections, i),
    ensures
        first_break(sections, from) is None,
    decreases sections.len() - from,
{
    if from < sections.len() {
        assert(!is_breaking(sections, from));
        lemma_no_break(sections, from + 1);
    }
}

proof fn lemma_break(sections: Seq<SectionView>, from: int, i: int)
    requires
        0 <= from <= i < sections.len(),
        is_breaking(sections, i),
        forall|j: int| 0 <= j < i ==> !#[trigger] is_breaking(sections, j),
    ensures
        first_break(sections, from) == Some(i),
    decreases i - from,
{
    if from < i {
        assert(!is_breaking(sections, from));
        lemma_break(sections, from + 1, i);
    }
}

/// What precedes the fingerprint of a section is every section before, as it is, and of the section
/// itself the attributes for formats and extensions, in their order.
pub proof fn law_fingerprints_are_preceded_by_formats(sections: Seq<SectionView>, i: int)
    requires
        0 <= i < sections.len(),
    ensures
        ({
            let sdp = before_fingerprint(sections, i);
            &&& sdp.attributes.len() == 0
            &&& sdp.sections.len() == i + 1
            &&& forall|j: int| 0 <= j < i ==> #[trigger] sdp.sections[j] == sections[j]
            &&& sdp.sections[i].media == sections[i].media
            &&& sdp.sections[i].attributes == sections[i].attributes.filter(
                |a: AttributeView|
                    a.key == "rtpmap"@ || a.key == "fmtp"@ || a.key == "rtcp-fb"@ || a.key
                        == "extmap"@,
            )
        }),
{
    let sdp = before_fingerprint(sections, i);
    lemma_same_filter(
        sections[i].attributes,
        |a: AttributeView| crate::sdp::precedes_fingerprint(a),
        |a: AttributeView|
            a.key == "rtpmap"@ || a.key == "fmtp"@ || a.key == "rtcp-fb"@ || a.key == "extmap"@,
    );
}

proof fn lemma_same_filter(
    s: Seq<AttributeView>,
    f: spec_fn(AttributeView) -> bool,
    g: spec_fn(AttributeView) -> bool,
)
    requires
        forall|a: AttributeView| #[trigger] f(a) == g(a),
    ensures
        s.filter(f) == s.filter(g),
    decreases s.len(),
{
    reveal(Seq::filter);
    if s.len() > 0 {
        lemma_same_filter(s.drop_last(), f, g);
        assert(f(s.last()) == g(s.last()));
    }
}

/// A fingerprint is read only where it has an algorithm, a space and a setup that is known. What
/// follows the first space of the first such attribute is what is read.
pub proof fn law_fingerprints_are_read_behind_their_algorithm(
    section: SectionView,
    i: int,
    j: int,
    algorithm: Seq<char>,
    hex: Seq<char>,
    setup: Seq<char>,
)
    requires
        is_first_attribute(section.attributes, i, "fingerprint"@),
        section.attributes[i].value == Some(algorithm + seq![' '] + hex),
        !algorithm.contains(' '),
        is_first_attribute(section.attributes, j, "setup"@),
        section.attributes[j].value == Some(setup),
    ensures
        breaks(section) <==> algorithm.len() > 0 && breaks_reader(hex) && (setup == "active"@
            || setup == "passive"@ || setup == "actpass"@),
{
    lemma_first_attribute(section.attributes, i, "fingerprint"@);
    lemma_first_attribute(section.attributes, j, "setup"@);
    crate::text::law_cut_of_joined(algorithm, ' ', hex);
}

/// A section without a fingerprint breaks nothing, and neither does one whose fingerprint has no value
/// or no space in it, or one without a setup or with a setup without a value.
pub proof fn law_sections_without_fingerprint_or_setup_break_nothing(section: SectionView, i: int)
    requires
        ({
            let (f, s) = ("fingerprint"@, "setup"@);
            let a = section.attributes;
            ||| forall|j: int| 0 <= j < a.len() ==> (#[trigger] a[j]).key != f
            ||| forall|j: int| 0 <= j < a.len() ==> (#[trigger] a[j]).key != s
            ||| is_first_attribute(a, i, f) && (a[i].value is None || !a[i].value->0.contains(' '))
            ||| is_first_attribute(a, i, s) && a[i].value is None
        }),
    ensures
        !breaks(section),
{
    let a = section.attributes;
    if forall|j: int| 0 <= j < a.len() ==> (#[trigger] a[j]).key != "fingerprint"@ {
        lemma_no_attribute(a, "fingerprint"@);
    }
    if forall|j: int| 0 <= j < a.len() ==> (#[trigger] a[j]).key != "setup"@ {
        lemma_no_attribute(a, "setup"@);
    }
    if is_first_attribute(a, i, "fingerprint"@) {
        lemma_first_attribute(a, i, "fingerprint"@);
        if a[i].value is Some && !a[i].value->0.contains(' ') {
            crate::text::law_cut_of_whole(a[i].value->0, ' ');
        }
    }
    if is_first_attribute(a, i, "setup"@) {
        lemma_first_attribute(a, i, "setup"@);
    }
}

proof fn lemma_no_attribute(attributes: Seq<AttributeView>, key: Seq<char>)
    requires
        forall|j: int| 0 <= j < attributes.len() ==> (#[trigger] attributes[j]).key != key,
    ensures
        crate::sdp::first_attribute(attributes, key) is None,
    decreases attributes.len(),
{
    if attributes.len() > 0 {
        lemma_no_attribute(attributes.skip(1), key);
    }
}

/// Whether an attribute is the first with its key.
pub open spec fn is_first_attribute(attributes: Seq<AttributeView>, i: int, key: Seq<char>) -> bool {
    &&& 0 <= i < attributes.len()
    &&& attributes[i].key == key
    &&& forall|j: int| 0 <= j < i ==> (#[trigger] attributes[j]).key != key
}

proof fn lemma_first_attribute(attributes: Seq<AttributeView>, i: int, key: Seq<char>)
    requires
        is_first_attribute(attributes, i, key),
    ensures
        crate::sdp::first_attribute(attributes, key) == Some(attributes[i]),
    decreases attributes.len(),
{
    if i > 0 {
        let rest = attributes.skip(1);
        assert(attributes[0].key != key);
        assert forall|j: int| 0 <= j < i - 1 implies (#[trigger] rest[j]).key != key by {
            assert(rest[j] == attributes[j + 1]);
        }
        lemma_first_attribute(rest, i - 1, key);
    }
}

/// A question for identities and features that names no node is answered with them.
pub proof fn law_questions_without_a_node_are_answered()
    ensures
        disco_reply(None) == (PayloadView::DiscoInfo { node: None }),
{
}

/// The endpoint of a JID is the head of its node. Without a node, or without a hyphen in it, there is
/// none.
pub proof fn law_endpoints_are_heads_of_nodes(head: Seq<char>, rest: Seq<char>)
    requires
        !head.contains('-'),
    ensures
        endpoint_id_of(Some(head + seq!['-'] + rest)) == Ok::<Seq<char>, Error>(head),
        endpoint_id_of(Some(head)) == Err::<Seq<char>, Error>(Error::InvalidNodeFormat),
        endpoint_id_of(None) == Err::<Seq<char>, Error>(Error::NoNode),
        before(head + seq!['-'] + rest, '-') == head,
        before(head, '-') == head,
{
    crate::text::law_cut_of_whole(head, '-');
    crate::text::law_cut_of_joined(head, '-', rest);
}

/// The number that decimal digits spell.
pub open spec fn number_of(s: Seq<char>) -> int
    decreases s.len(),
{
    if s.len() == 0 {
        0
    } else {
        10 * number_of(s.drop_last()) + (s.last() as int - '0' as int)
    }
}

/// A number is written in digits that spell it, without leading zeros. A flag is spelled out.
pub proof fn law_numbers_are_written_in_digits(n: nat)
    ensures
        number_of(decimal(n)) == n,
        decimal(n).len() > 0,
        forall|i: int| 0 <= i < decimal(n).len() ==> '0' <= #[trigger] decimal(n)[i] <= '9',
        n > 0 ==> decimal(n)[0] != '0',
        n == 0 ==> decimal(n).len() == 1,
        spelled(true) == "true"@,
        spelled(false) == "false"@,
    decreases n,
{
    reveal_with_fuel(number_of, 2);
    reveal_strlit("0");
    reveal_strlit("1");
    reveal_strlit("2");
    reveal_strlit("3");
    reveal_strlit("4");
    reveal_strlit("5");
    reveal_strlit("6");
    reveal_strlit("7");
    reveal_strlit("8");
    reveal_strlit("9");
    let s = decimal(n);
    if n < 10 {
        assert(s.len() == 1);
        assert(s.drop_last() =~= Seq::<char>::empty());
    } else {
        law_numbers_are_written_in_digits(n / 10);
        let head = decimal(n / 10);
        assert(s.drop_last() =~= head);
        assert forall|i: int| 0 <= i < s.len() implies '0' <= #[trigger] s[i] <= '9' by {
            if i < head.len() {
                assert(s[i] == head[i]);
            }
        }
        assert(s[0] == head[0]);
    }
}

/// An IQ with a ping among its child elements is for the pinger, wherever the ping stands, and nothing
/// else is.
pub proof fn law_pings_are_found_anywhere(tree: Tree)
    ensures
        holds_ping(tree) <==> tree.name == "iq"@ && tree.ns == "jabber:client"@ && exists|i: int|
            0 <= i < tree.elements().len() && (#[trigger] tree.elements()[i]).name == "ping"@
                && tree.elements()[i].ns == "urn:xmpp:ping"@,
{
    if holds_ping(tree) {
        let i = choose|i: int|
            0 <= i < tree.elements().len() && #[trigger] tree.elements()[i].is(
                "ping"@,
                "urn:xmpp:ping"@,
            );
        assert(tree.elements()[i].name == "ping"@);
    }
    if exists|i: int|
        0 <= i < tree.elements().len() && (#[trigger] tree.elements()[i]).name == "ping"@
            && tree.elements()[i].ns == "urn:xmpp:ping"@ {
        let i = choose|i: int|
            0 <= i < tree.elements().len() && (#[trigger] tree.elements()[i]).name == "ping"@
                && tree.elements()[i].ns == "urn:xmpp:ping"@;
        assert(tree.elements()[i].is("ping"@, "urn:xmpp:ping"@));
    }
}

/// A question that is for the pinger is acknowledged to its sender under its identifier. Anything else
/// gets no answer.
pub proof fn law_pings_are_acknowledged(jid: FullJidView, iq: IqView)
    ensures
        iq.payload is Query ==> pong_for(jid, iq) == Some(
            StanzaView::Iq {
                from: Some(JidView::Full(jid)),
                to: iq.from,
                id: iq.id,
                payload: PayloadView::Empty,
            },
        ),
        !(iq.payload is Query) ==> pong_for(jid, iq) is None,
{
}

/// A message between endpoints is answered if and only if it is addressed to this endpoint and asks
/// for a ping, whoever sent it: to its sender, without naming one, and with the number of the ping.
pub proof fn law_pings_between_endpoints_are_answered(
    endpoint_id: Seq<char>,
    message: EndpointMessageView,
    ping: Option<i32>,
)
    ensures
        reply_for(endpoint_id, message, ping) is Some <==> message.to == Some(endpoint_id)
            && ping is Some,
        reply_for(endpoint_id, message, ping) matches Some(reply) ==> reply.from is None && reply.to
            == message.from && reply.payload == pong(ping->0),
        reply_to(endpoint_id, message) == reply_for(endpoint_id, message, ping_in(message.payload)),
{
}

} // verus!
