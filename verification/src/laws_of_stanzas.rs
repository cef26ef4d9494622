//! What every stanza and every announcement is made of, whatever it says.
use vstd::prelude::*;

use crate::conference::{initial_presence, ConferenceConfigView};
use crate::disco::{base64_of, feature_tree, info_tree, own_caps, own_ecaps2, own_info, DiscoInfoView};
use crate::element::{Node, Tree};
use crate::jid::{BareJidView, FullJidView, JidView};
use crate::stanza::{Mechanism, PayloadView, StanzaView};

verus! {

/// A JID is written as its node and an `@`, where it has a node, its domain, and a `/` and its
/// resource, where it has one. Nothing is left out and nothing is changed.
pub proof fn law_jids_are_written_part_by_part(jid: JidView)
    ensures
        match jid {
            JidView::Bare(BareJidView { node: None, domain }) => jid.text() == domain,
            JidView::Bare(BareJidView { node: Some(node), domain }) => jid.text() == node + seq!['@']
                + domain,
            JidView::Full(FullJidView { node: None, domain, resource }) => jid.text() == domain
                + seq!['/'] + resource,
            JidView::Full(FullJidView { node: Some(node), domain, resource }) => jid.text() == node
                + seq!['@'] + domain + seq!['/'] + resource,
        },
        jid matches JidView::Bare(bare) ==> bare.text() == jid.text() && jid.bare() == bare,
        jid matches JidView::Full(full) ==> full.text() == jid.text() && jid.bare() == full.bare()
            && full.bare().node == full.node && full.bare().domain == full.domain
            && full.bare().with_resource(full.resource) == full,
{
    match jid {
        JidView::Bare(BareJidView { node: None, domain }) => {
            assert(jid.text() =~= domain);
        },
        JidView::Full(FullJidView { node: None, domain, resource }) => {
            assert(jid.text() =~= domain + seq!['/'] + resource);
        },
        _ => {},
    }
}

/// A stream is opened to the domain that is given, in the one version that there is.
pub proof fn law_openings_name_the_domain(domain: BareJidView)
    ensures
        (StanzaView::Open { domain }).tree() == (Tree {
            name: "open"@,
            ns: "urn:ietf:params:xml:ns:xmpp-framing"@,
            declares: false,
            attrs: map!["to"@ => JidView::Bare(domain).text(), "version"@ => "1.0"@],
            children: Seq::empty(),
        }),
{
}

/// Credentials go under the name of their mechanism, in base64, all of them.
pub proof fn law_credentials_are_written_in_base64(mechanism: Mechanism, data: Seq<u8>)
    ensures
        (StanzaView::Auth { mechanism, data }).tree() == (Tree {
            name: "auth"@,
            ns: "urn:ietf:params:xml:ns:xmpp-sasl"@,
            declares: false,
            attrs: map![
                "mechanism"@ => if mechanism is Anonymous { "ANONYMOUS"@ } else { "PLAIN"@ }
            ],
            children: seq![Node::Text(base64_of(data))],
        }),
{
    let t = (StanzaView::Auth { mechanism, data }).tree();
    assert(t.children =~= seq![Node::Text(base64_of(data))]);
}

/// The type of an IQ, by what it carries.
pub open spec fn type_owed(payload: PayloadView) -> Seq<char> {
    if payload is DiscoInfoQuery || payload is ServicesQuery {
        "get"@
    } else if payload is Bind || payload is Conference || payload is SessionAccept {
        "set"@
    } else if payload is ItemNotFound {
        "error"@
    } else {
        "result"@
    }
}

/// An IQ has its identifier, the type that goes with what it carries, and the two ends where they are
/// given, and no other attribute. It has one child, and none where it only acknowledges.
pub proof fn law_iqs_name_their_ends_and_carry_their_payload(
    from: Option<JidView>,
    to: Option<JidView>,
    id: Seq<char>,
    payload: PayloadView,
)
    ensures
        ({
            let t = (StanzaView::Iq { from, to, id, payload }).tree();
            &&& t.name == "iq"@ && t.ns == "jabber:client"@ && !t.declares
            &&& t.attr("id"@) == Some(id)
            &&& t.attr("type"@) == Some(type_owed(payload))
            &&& from matches Some(jid) ==> t.attr("from"@) == Some(jid.text())
            &&& from is None ==> t.attr("from"@) is None
            &&& to matches Some(jid) ==> t.attr("to"@) == Some(jid.text())
            &&& to is None ==> t.attr("to"@) is None
            &&& forall|k: Seq<char>| #[trigger]
                t.attrs.contains_key(k) ==> k == "id"@ || k == "type"@ || k == "from"@ || k == "to"@
            &&& payload is Empty ==> t.children.len() == 0
            &&& !(payload is Empty) ==> payload.tree() is Some && t.children == seq![
                Node::Element(payload.tree()->0),
            ]
        }),
{
    reveal_strlit("id");
    reveal_strlit("type");
    reveal_strlit("from");
    reveal_strlit("to");
    assert("id"@.len() == 2 && "to"@.len() == 2 && "type"@.len() == 4 && "from"@.len() == 4);
    assert("id"@[0] != "to"@[0]);
    assert("type"@[0] != "from"@[0]);
    let t = (StanzaView::Iq { from, to, id, payload }).tree();
    if !(payload is Empty) {
        assert(t.children =~= seq![Node::Element(payload.tree()->0)]);
    }
}

/// Requests and questions are empty elements, each of its own name and namespace.
pub proof fn law_requests_are_named_elements()
    ensures
        PayloadView::Bind.tree() == Some(
            Tree {
                name: "bind"@,
                ns: "urn:ietf:params:xml:ns:xmpp-bind"@,
                declares: false,
                attrs: Map::empty(),
                children: Seq::empty(),
            },
        ),
        PayloadView::DiscoInfoQuery.tree() == Some(
            Tree {
                name: "query"@,
                ns: "http://jabber.org/protocol/disco#info"@,
                declares: false,
                attrs: Map::empty(),
                children: Seq::empty(),
            },
        ),
        PayloadView::ServicesQuery.tree() == Some(
            Tree {
                name: "services"@,
                ns: "urn:xmpp:extdisco:2"@,
                declares: false,
                attrs: Map::empty(),
                children: Seq::empty(),
            },
        ),
{
}

/// The request for a room names the room and the machine, and lists every property, in order.
pub proof fn law_room_requests_list_every_property(
    machine_uid: Seq<char>,
    room: Seq<char>,
    properties: Seq<(Seq<char>, Seq<char>)>,
)
    ensures
        (PayloadView::Conference { machine_uid, room, properties }).tree() matches Some(t) && {
            &&& t.name == "conference"@ && t.ns == "http://jitsi.org/protocol/focus"@ && !t.declares
            &&& t.attrs == map!["machine-uid"@ => machine_uid, "room"@ => room]
            &&& t.children.len() == properties.len()
            &&& forall|i: int|
                0 <= i < properties.len() ==> #[trigger] t.children[i] == Node::Element(
                    Tree {
                        name: "property"@,
                        ns: "http://jitsi.org/protocol/focus"@,
                        declares: false,
                        attrs: map!["name"@ => properties[i].0, "value"@ => properties[i].1],
                        children: Seq::empty(),
                    },
                )
        },
{
}

/// An acceptance carries the session message as it is.
pub proof fn law_acceptances_carry_the_session(jingle: Tree)
    ensures
        (PayloadView::SessionAccept { jingle }).tree() == Some(jingle),
{
}

/// A refusal says that the item was not found, and gives its text in English.
pub proof fn law_refusals_give_their_text(text: Seq<char>)
    ensures
        (PayloadView::ItemNotFound { text }).tree() == Some(
            Tree {
                name: "error"@,
                ns: "jabber:client"@,
                declares: false,
                attrs: map!["type"@ => "cancel"@],
                children: seq![
                    Node::Element(
                        Tree {
                            name: "item-not-found"@,
                            ns: "urn:ietf:params:xml:ns:xmpp-stanzas"@,
                            declares: false,
                            attrs: Map::empty(),
                            children: Seq::empty(),
                        },
                    ),
                    Node::Element(
                        Tree {
                            name: "text"@,
                            ns: "urn:ietf:params:xml:ns:xmpp-stanzas"@,
                            declares: false,
                            attrs: map!["xml:lang"@ => "en"@],
                            children: seq![Node::Text(text)],
                        },
                    ),
                ],
            },
        ),
{
    let t = (PayloadView::ItemNotFound { text }).tree()->0;
    let inner = Tree {
        name: "text"@,
        ns: "urn:ietf:params:xml:ns:xmpp-stanzas"@,
        declares: false,
        attrs: map!["xml:lang"@ => "en"@],
        children: seq![Node::Text(text)],
    };
    assert(t.children[1]->Element_0.children =~= seq![Node::Text(text)]);
    assert(t.children =~= seq![
        Node::Element(
            Tree {
                name: "item-not-found"@,
                ns: "urn:ietf:params:xml:ns:xmpp-stanzas"@,
                declares: false,
                attrs: Map::empty(),
                children: Seq::empty(),
            },
        ),
        Node::Element(inner),
    ]);
}

/// The answer to a question for identities and features lists every identity and then every feature,
/// in order, each with all of its parts, and gives the node that was asked for.
pub proof fn law_answers_list_every_identity_and_feature(
    node: Option<Seq<char>>,
    info: DiscoInfoView,
)
    ensures
        ({
            let t = info_tree(node, info);
            let n = info.identities.len();
            &&& t.name == "query"@ && t.ns == "http://jabber.org/protocol/disco#info"@
            &&& !t.declares
            &&& node matches Some(node) ==> t.attrs == map!["node"@ => node]
            &&& node is None ==> t.attrs == Map::<Seq<char>, Seq<char>>::empty()
            &&& t.children.len() == n + info.features.len()
            &&& forall|i: int|
                0 <= i < n ==> #[trigger] t.children[i] == Node::Element(
                    Tree {
                        name: "identity"@,
                        ns: "http://jabber.org/protocol/disco#info"@,
                        declares: false,
                        attrs: map![
                            "category"@ => info.identities[i].category,
                            "type"@ => info.identities[i].type_,
                            "xml:lang"@ => info.identities[i].lang,
                            "name"@ => info.identities[i].name
                        ],
                        children: Seq::empty(),
                    },
                )
            &&& forall|i: int|
                n <= i < n + info.features.len() ==> #[trigger] t.children[i] == Node::Element(
                    Tree {
                        name: "feature"@,
                        ns: "http://jabber.org/protocol/disco#info"@,
                        declares: false,
                        attrs: map!["var"@ => info.features[i - n]],
                        children: Seq::empty(),
                    },
                )
        }),
        (PayloadView::DiscoInfo { node }).tree() == Some(info_tree(node, own_info())),
{
}

/// An announced feature is named as it is given.
pub proof fn law_features_are_named_as_given(var: Seq<char>)
    ensures
        feature_tree(var) == (Tree {
            name: "feature"@,
            ns: "http://jabber.org/protocol/disco#info"@,
            declares: false,
            attrs: map!["var"@ => var],
            children: Seq::empty(),
        }),
{
}

/// A presence goes to the place in the room that is given, and carries every payload, in order.
pub proof fn law_presences_carry_every_payload(occupant: JidView, payloads: Seq<Tree>)
    ensures
        ({
            let t = (StanzaView::Presence { occupant, payloads }).tree();
            &&& t.name == "presence"@ && t.ns == "jabber:client"@ && !t.declares
            &&& t.attrs == map!["to"@ => occupant.text()]
            &&& t.children.len() == payloads.len()
            &&& forall|i: int|
                0 <= i < payloads.len() ==> #[trigger] t.children[i] == Node::Element(payloads[i])
        }),
{
}

/// A message goes to the whole room and carries the JSON as it is.
pub proof fn law_messages_carry_their_json(
    sender: JidView,
    room: JidView,
    id: Seq<char>,
    json: Seq<char>,
)
    ensures
        (StanzaView::Message { sender, room, id, json }).tree() == (Tree {
            name: "message"@,
            ns: "jabber:client"@,
            declares: false,
            attrs: map![
                "from"@ => sender.text(),
                "to"@ => room.text(),
                "id"@ => id,
                "type"@ => "groupchat"@
            ],
            children: seq![
                Node::Element(
                    Tree {
                        name: "json-message"@,
                        ns: "http://jitsi.org/jitmeet"@,
                        declares: false,
                        attrs: Map::empty(),
                        children: seq![Node::Text(json)],
                    },
                ),
            ],
        }),
{
    let t = (StanzaView::Message { sender, room, id, json }).tree();
    let inner = Tree {
        name: "json-message"@,
        ns: "http://jitsi.org/jitmeet"@,
        declares: false,
        attrs: Map::empty(),
        children: seq![Node::Text(json)],
    };
    assert(t.children[0]->Element_0.children =~= seq![Node::Text(json)]);
    assert(t.children =~= seq![Node::Element(inner)]);
}

/// An element that holds one text, in the namespace of stanzas.
pub open spec fn word(name: Seq<char>, text: Seq<char>) -> Tree {
    Tree {
        name,
        ns: "jabber:client"@,
        declares: false,
        attrs: Map::empty(),
        children: seq![Node::Text(text)],
    }
}

/// A client enters a room with both of its hashes, its codec, its nickname and its region, with
/// nothing muted, and with every feature that it was configured with, however many there are.
pub proof fn law_clients_enter_with_all_they_have_to_tell(config: ConferenceConfigView)
    ensures
        ({
            let p = initial_presence(config);
            let n: int = if config.region is Some {
                10
            } else {
                8
            };
            &&& p.len() == n + config.extra_muc_features.len()
            &&& p[0] == Tree {
                name: "x"@,
                ns: "http://jabber.org/protocol/muc"@,
                declares: false,
                attrs: Map::empty(),
                children: Seq::empty(),
            }
            &&& p[1] == Tree {
                name: "c"@,
                ns: "http://jabber.org/protocol/caps"@,
                declares: false,
                attrs: map![
                    "hash"@ => "sha-1"@,
                    "node"@ => "https://github.com/avstack/lib-jitsi-meet-rs"@,
                    "ver"@ => own_caps()
                ],
                children: Seq::empty(),
            }
            &&& p[2] == Tree {
                name: "c"@,
                ns: "urn:xmpp:caps"@,
                declares: false,
                attrs: Map::empty(),
                children: seq![
                    Node::Element(
                        Tree {
                            name: "hash"@,
                            ns: "urn:xmpp:hashes:2"@,
                            declares: false,
                            attrs: map!["algo"@ => "sha-256"@],
                            children: seq![Node::Text(own_ecaps2())],
                        },
                    ),
                ],
            }
            &&& p[3] == word("stats-id"@, "lib-jitsi-meet-rs"@)
            &&& p[4] == word("jitsi_participant_codecType"@, config.video_codec)
            &&& p[5] == word("audiomuted"@, "false"@)
            &&& p[6] == word("videomuted"@, "false"@)
            &&& p[7] == Tree {
                ns: "http://jabber.org/protocol/nick"@,
                ..word("nick"@, config.nick)
            }
            &&& config.region matches Some(region) ==> p[8] == word(
                "jitsi_participant_region"@,
                region,
            ) && p[9] == Tree {
                name: "region"@,
                ns: "http://jitsi.org/jitsi-meet"@,
                declares: false,
                attrs: map!["id"@ => region],
                children: Seq::empty(),
            }
            &&& forall|i: int|
                n <= i < p.len() ==> #[trigger] p[i] == Tree {
                    name: "feature"@,
                    ns: "http://jabber.org/protocol/disco#info"@,
                    declares: false,
                    attrs: map!["var"@ => config.extra_muc_features[i - n]],
                    children: Seq::empty(),
                }
        }),
{
    let p = initial_presence(config);
    assert(p[2].children[0]->Element_0.children =~= seq![Node::Text(own_ecaps2())]);
    assert(p[2].children =~= seq![
        Node::Element(
            Tree {
                name: "hash"@,
                ns: "urn:xmpp:hashes:2"@,
                declares: false,
                attrs: map!["algo"@ => "sha-256"@],
                children: seq![Node::Text(own_ecaps2())],
            },
        ),
    ]);
    assert(p[3].children =~= word("stats-id"@, "lib-jitsi-meet-rs"@).children);
    assert(p[4].children =~= word("jitsi_participant_codecType"@, config.video_codec).children);
    assert(p[5].children =~= word("audiomuted"@, "false"@).children);
    assert(p[6].children =~= word("videomuted"@, "false"@).children);
    assert(p[7].children =~= word("nick"@, config.nick).children);
    if let Some(region) = config.region {
        assert(p[8].children =~= word("jitsi_participant_region"@, region).children);
    }
}

} // verus!
