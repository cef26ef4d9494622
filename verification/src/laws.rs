//! What holds of connections and conferences: of every step, of steps that follow each other, and of
//! the handshake and the stream as a whole.
use vstd::prelude::*;
use vstd::utf8::{
    char_is_scalar, char_u32_cast, encode_scalar, encode_utf8, encode_utf8_decode_utf8,
    has_width_1_encoding, has_width_2_encoding, has_width_3_encoding, has_width_4_encoding,
    is_scalar, last_continuation_byte, leading_byte_width_1, leading_byte_width_2,
    leading_byte_width_3, leading_byte_width_4, second_last_continuation_byte,
    third_last_continuation_byte,
};

use crate::conference::{
    answerable, caps_tree, disco_reply, initial_presence, is_acceptance, is_sequel, muted_presence,
    on_inbound, on_iq, on_item, on_items, on_jingle, on_presence, room_config, text_leaf,
    ConferenceConfigView, ConferenceState, ConferenceView, MediaType, ParticipantEventView,
    ParticipantView, StepView, ThenView,
};
use crate::connection::{
    after_send, after_step, receive_step, step, AuthenticationView, ConnectionState, ConnectionView,
    FactsView, IncomingView, ReceivedView,
};
use crate::disco::{disco_node, own_caps};
use crate::element::Tree;
use crate::error::Error;
use crate::extdisco::ServiceView;
use crate::inbound::{
    inbound_of, DiscoInfoQueryView, InboundIqView, InboundJingleView, InboundPayloadView,
    InboundPresenceView, InboundView, ItemView,
};
use crate::jid::{
    endpoint_id_of, law_bare_jid_round_trip, law_full_jid_round_trip, law_jid_text_round_trip,
    BareJidView, FullJidView, JidView,
};
use crate::sdp::{offers_of, sdp_of, SdpView};
use crate::stanza::{PayloadView, Stanza, StanzaView};
use crate::text::{law_cut_is_exact, law_cut_of_joined, spelled};

verus! {

/// The handshake never goes back and never skips a state. A step that fails changes nothing.
pub proof fn law_handshake_moves_forward(c: ConnectionView, facts: FactsView, id: Seq<char>)
    ensures
        c.state.rank() <= after_step(c, facts, id).state.rank() <= c.state.rank() + 1,
        step(c, facts, id).1 is Err ==> step(c, facts, id).0 == c,
{
}

/// A step that has a stanza to send leaves the state as it was, and the state moves on by one once the
/// stanza is sent. So where the sending fails, the state stays behind.
pub proof fn law_state_waits_for_sending(c: ConnectionView, facts: FactsView, id: Seq<char>)
    ensures
        ({
            let (after, r) = step(c, facts, id);
            r matches Ok(reaction) && reaction.send is Some ==> {
                &&& after.state == c.state
                &&& after_send(after).state.rank() == c.state.rank() + 1
            }
        }),
{
}

/// Neither a step nor the sending changes the domain, the credentials or the trust in certificates. A
/// JID stays once the binding is over, and so do the external services once the handshake is complete.
pub proof fn law_handshake_keeps_identity(c: ConnectionView, facts: FactsView, id: Seq<char>)
    ensures
        ({
            let after = step(c, facts, id).0;
            &&& after.xmpp_domain == c.xmpp_domain
            &&& after.authentication == c.authentication
            &&& after.tls_insecure == c.tls_insecure
            &&& c.state.rank() > ConnectionState::Binding.rank() ==> after.jid == c.jid
            &&& c.state is Idle ==> after == c
        }),
        after_send(c) == (ConnectionView { state: after_send(c).state, ..c }),
        c.state is Idle ==> after_send(c) == c,
{
}

/// The JID is known and the external services are where they should be after every step and after
/// every sending.
pub proof fn law_handshake_keeps_order(c: ConnectionView, facts: FactsView, id: Seq<char>)
    requires
        c.wf(),
    ensures
        step(c, facts, id).0.wf(),
        after_send(c).wf(),
        after_step(c, facts, id).wf(),
{
}

/// The credentials are sent on the way to the authentication and at no other step.
pub proof fn law_credentials_are_sent_once(c: ConnectionView, facts: FactsView, id: Seq<char>)
    ensures
        ({
            let r = step(c, facts, id).1;
            (r matches Ok(reaction) && reaction.send matches Some(StanzaView::Auth { .. }))
                <==> c.state is ReceivingFeaturesPreAuthentication
        }),
        c.state is ReceivingFeaturesPreAuthentication ==> after_step(
            c,
            facts,
            id,
        ).state is Authenticating,
{
}

/// A server can read the name and the password back from the credentials: where no name holds a zero
/// character, no two pairs are sent alike.
pub proof fn law_plain_credentials_are_unambiguous(
    username1: Seq<char>,
    password1: Seq<char>,
    username2: Seq<char>,
    password2: Seq<char>,
)
    requires
        !username1.contains('\0'),
        !username2.contains('\0'),
        (AuthenticationView::Plain { username: username1, password: password1 }).data()
            == (AuthenticationView::Plain { username: username2, password: password2 }).data(),
    ensures
        username1 == username2,
        password1 == password2,
{
    let (u1, u2) = (encode_utf8(username1), encode_utf8(username2));
    let (p1, p2) = (encode_utf8(password1), encode_utf8(password2));
    let d1 = seq![0u8] + u1 + seq![0u8] + p1;
    let d2 = seq![0u8] + u2 + seq![0u8] + p2;
    assert(d1 == d2);
    lemma_no_zero_bytes(username1);
    lemma_no_zero_bytes(username2);
    if u1.len() < u2.len() {
        assert(d1[1 + u1.len() as int] == 0u8);
        assert(d2[1 + u1.len() as int] == u2[u1.len() as int]);
    }
    if u2.len() < u1.len() {
        assert(d2[1 + u2.len() as int] == 0u8);
        assert(d1[1 + u2.len() as int] == u1[u2.len() as int]);
    }
    let n = u1.len() as int;
    assert(u1 =~= d1.subrange(1, 1 + n));
    assert(u2 =~= d2.subrange(1, 1 + n));
    assert(p1 =~= d1.subrange(2 + n, d1.len() as int));
    assert(p2 =~= d2.subrange(2 + n, d2.len() as int));
    encode_utf8_decode_utf8(username1);
    encode_utf8_decode_utf8(username2);
    encode_utf8_decode_utf8(password1);
    encode_utf8_decode_utf8(password2);
}

proof fn lemma_no_zero_bytes(s: Seq<char>)
    requires
        !s.contains('\0'),
    ensures
        forall|i: int| 0 <= i < encode_utf8(s).len() ==> #[trigger] encode_utf8(s)[i] != 0u8,
    decreases s.len(),
{
    if s.len() > 0 {
        let tail = s.drop_first();
        assert(!tail.contains('\0')) by {
            if tail.contains('\0') {
                let i = choose|i: int| 0 <= i < tail.len() && tail[i] == '\0';
                assert(s[i + 1] == '\0');
            }
        }
        lemma_no_zero_bytes(tail);
        assert(s[0] != '\0');
        let v = s[0] as u32;
        char_is_scalar(s[0]);
        char_u32_cast(s[0], v);
        assert('\0' as u32 == 0u32);
        char_u32_cast('\0', 0u32);
        lemma_scalar_has_no_zero_byte(v);
        let head = encode_scalar(v);
        assert forall|i: int| 0 <= i < encode_utf8(s).len() implies #[trigger] encode_utf8(s)[i]
            != 0u8 by {
            if i < head.len() {
                assert(encode_utf8(s)[i] == head[i]);
            } else {
                assert(encode_utf8(s)[i] == encode_utf8(tail)[i - head.len()]);
            }
        }
    }
}

proof fn lemma_scalar_has_no_zero_byte(v: u32)
    requires
        v != 0,
        is_scalar(v),
    ensures
        forall|i: int| 0 <= i < encode_scalar(v).len() ==> #[trigger] encode_scalar(v)[i] != 0u8,
{
    assert(has_width_1_encoding(v) && v != 0 ==> leading_byte_width_1(v) != 0) by (bit_vector);
    assert(has_width_2_encoding(v) ==> leading_byte_width_2(v) != 0) by (bit_vector);
    assert(has_width_3_encoding(v) ==> leading_byte_width_3(v) != 0) by (bit_vector);
    assert(has_width_4_encoding(v) ==> leading_byte_width_4(v) != 0) by (bit_vector);
    assert(last_continuation_byte(v) != 0) by (bit_vector);
    assert(second_last_continuation_byte(v) != 0) by (bit_vector);
    assert(third_last_continuation_byte(v) != 0) by (bit_vector);
}

/// The end of the handshake is reported at the step that reaches it and at no other. From there on
/// pings are answered in the name of the JID that was bound.
pub proof fn law_completion_is_reported_once(c: ConnectionView, facts: FactsView, id: Seq<char>)
    requires
        c.wf(),
    ensures
        ({
            let (after, r) = step(c, facts, id);
            &&& (r matches Ok(reaction) && reaction.connected) <==> (!(c.state is Idle)
                && after_step(c, facts, id).state is Idle)
            &&& r matches Ok(reaction) ==> (reaction.pinger is Some <==> reaction.connected) && (
            reaction.connected ==> reaction.pinger == after.jid)
        }),
{
}

/// Elements reach the filters from the end of the handshake on, and not before. By then the
/// connection sends nothing of its own.
pub proof fn law_dispatch_begins_with_completion(c: ConnectionView, facts: FactsView, id: Seq<char>)
    ensures
        ({
            let r = step(c, facts, id).1;
            &&& (r matches Ok(reaction) && reaction.dispatch) <==> c.state is Idle
            &&& r matches Ok(reaction) ==> (reaction.dispatch ==> reaction.send is None)
        }),
{
}

/// A server that answers every step as it should brings the connection to its end in eight steps:
/// with the JID that it bound and the services that it listed.
pub proof fn law_handshake_completes(
    c: ConnectionView,
    facts: Seq<FactsView>,
    ids: Seq<Seq<char>>,
    jid: FullJidView,
    services: Seq<ServiceView>,
)
    requires
        c.state is OpeningPreAuthentication,
        facts.len() == 8,
        ids.len() == 8,
        facts[0].open,
        facts[2].success,
        facts[3].open,
        facts[5].iq matches Some(iq) && iq.answer matches Some(answer) && answer.bound == Some(jid),
        facts[6].iq matches Some(iq) && iq.answer matches Some(answer) && answer.disco_info,
        facts[7].iq matches Some(iq) && iq.answer matches Some(answer) && answer.services == Some(
            services,
        ),
    ensures
        run(c, facts, ids) == (ConnectionView {
            state: ConnectionState::Idle,
            jid: Some(jid),
            external_services: services,
            ..c
        }),
{
    reveal_with_fuel(run, 9);
    let f = facts;
    let i = ids;
    assert(f.drop_last() =~= f.take(7) && i.drop_last() =~= i.take(7));
    assert(f.take(7).drop_last() =~= f.take(6) && i.take(7).drop_last() =~= i.take(6));
    assert(f.take(6).drop_last() =~= f.take(5) && i.take(6).drop_last() =~= i.take(5));
    assert(f.take(5).drop_last() =~= f.take(4) && i.take(5).drop_last() =~= i.take(4));
    assert(f.take(4).drop_last() =~= f.take(3) && i.take(4).drop_last() =~= i.take(3));
    assert(f.take(3).drop_last() =~= f.take(2) && i.take(3).drop_last() =~= i.take(2));
    assert(f.take(2).drop_last() =~= f.take(1) && i.take(2).drop_last() =~= i.take(1));
    assert(f.take(1).drop_last() =~= f.take(0) && i.take(1).drop_last() =~= i.take(0));
}

/// A connection after several steps, each with its stanza sent.
pub open spec fn run(c: ConnectionView, facts: Seq<FactsView>, ids: Seq<Seq<char>>) -> ConnectionView
    decreases facts.len(),
{
    if facts.len() == 0 {
        c
    } else {
        after_step(run(c, facts.drop_last(), ids.drop_last()), facts.last(), ids.last())
    }
}

/// What a connection has done about a stream.
pub struct Reading {
    /// The connection at the end.
    pub connection: ConnectionView,
    /// The elements that were handled, and what was done about each.
    pub handled: Seq<ReceivedView>,
    /// What ended the connection, if anything did.
    pub error: Option<Error>,
}

/// What a connection does about a stream, one message after the other, up to the first error, where
/// every stanza can be sent. The n-th element that is handled has the n-th identifier.
pub open spec fn read_all(
    c: ConnectionView,
    stream: Seq<IncomingView>,
    ids: Seq<Seq<char>>,
) -> Reading
    decreases stream.len(),
{
    if stream.len() == 0 {
        Reading { connection: c, handled: Seq::empty(), error: None }
    } else {
        let (after, r) = receive_step(c, stream[0], ids[0]);
        match r {
            Err(e) => Reading { connection: after, handled: Seq::empty(), error: Some(e) },
            Ok(None) => read_all(after, stream.skip(1), ids),
            Ok(Some(received)) => {
                let next = if received.reaction.send is Some {
                    after_send(after)
                } else {
                    after
                };
                let rest = read_all(next, stream.skip(1), ids.skip(1));
                Reading { handled: seq![received] + rest.handled, ..rest }
            },
        }
    }
}

/// Messages that are not text have no effect: a stream without them leads to the same connection, the
/// same elements handled in the same way, and the same error.
pub proof fn law_only_text_counts(
    c: ConnectionView,
    stream: Seq<IncomingView>,
    ids: Seq<Seq<char>>,
)
    ensures
        read_all(c, stream, ids) == read_all(
            c,
            stream.filter(|m: IncomingView| !(m is Other)),
            ids,
        ),
    decreases stream.len(),
{
    let counts = |m: IncomingView| !(m is Other);
    reveal(Seq::filter);
    if stream.len() > 0 {
        let (head, tail) = (stream.take(1), stream.skip(1));
        assert(stream =~= head + tail);
        Seq::filter_distributes_over_add(head, tail, counts);
        assert(head.drop_last().filter(counts) =~= Seq::<IncomingView>::empty());
        let kept = stream.filter(counts);
        if counts(stream[0]) {
            assert(head.filter(counts) =~= head);
            assert(kept[0] == stream[0]);
            assert(kept.skip(1) =~= tail.filter(counts));
        } else {
            assert(head.filter(counts) =~= Seq::empty());
            assert(kept =~= tail.filter(counts));
        }
        let after = receive_step(c, stream[0], ids[0]).0;
        law_only_text_counts(after, tail, ids);
        law_only_text_counts(after, tail, ids.skip(1));
        law_only_text_counts(after_send(after), tail, ids.skip(1));
    } else {
        assert(stream.filter(counts) =~= stream);
    }
}

/// Whether nothing that a conference was made with differs.
pub open spec fn same_conference(a: ConferenceView, b: ConferenceView) -> bool {
    &&& a.jid == b.jid
    &&& a.config == b.config
    &&& a.external_services == b.external_services
    &&& a.tls_insecure == b.tls_insecure
}

/// The place of a state on the way into the room.
pub open spec fn rank(state: ConferenceState) -> int {
    match state {
        ConferenceState::Discovering => 0,
        ConferenceState::JoiningMuc => 1,
        ConferenceState::Idle => 2,
    }
}

/// Nothing that arrives takes a conference back on its way into the room. It is reported as joined
/// at the step that completes the way and at no other. An error changes nothing.
pub proof fn law_joined_is_reported_once(c: ConferenceView, m: InboundView)
    ensures
        ({
            let (after, r) = on_inbound(c, m);
            &&& rank(c.state) <= rank(after.state)
            &&& r == Ok::<StepView, Error>(StepView::Joined) <==> (c.state is JoiningMuc
                && after.state is Idle)
            &&& r is Err ==> after == c
        }),
{
}

/// The room is entered only on the word of the focus that it is ready, and with the presence of this
/// client.
pub proof fn law_room_is_entered_when_ready(c: ConferenceView, m: InboundView)
    ensures
        ({
            let (after, r) = on_inbound(c, m);
            r matches Ok(StepView::Send { stanza, then: ThenView::Enter }) ==> {
                &&& c.state is Discovering
                &&& m.iq matches Some(iq) && iq.payload matches InboundPayloadView::Answer {
                    conference: Some(answer),
                } && answer.ready == Some("true"@)
                &&& c.presence_stanza() == Ok::<StanzaView, Error>(stanza)
                &&& after == c
            }
        }),
{
}

/// No step changes the JID, the configuration, the external services or the trust in certificates.
pub proof fn law_conference_keeps_identity(
    c: ConferenceView,
    m: InboundView,
    then: ThenView,
    after: ConferenceView,
    r: Result<StepView, Error>,
)
    ensures
        same_conference(on_inbound(c, m).0, c),
        is_sequel(c, then, after, r) ==> same_conference(after, c),
{
}

/// An element without a sender is never for a conference, and neither is one that is not an IQ or a
/// presence.
pub proof fn law_filter_needs_sender(c: ConferenceView, tree: Tree)
    ensures
        c.accepts(tree) ==> {
            &&& tree.attr("from"@) is Some
            &&& tree.is("iq"@, "jabber:client"@) || tree.is("presence"@, "jabber:client"@)
        },
{
}

/// Every IQ from the focus is for the conference.
pub proof fn law_filter_accepts_focus(c: ConferenceView, tree: Tree)
    requires
        tree.is("iq"@, "jabber:client"@),
        tree.attr("from"@) == Some(c.config.focus.text()),
    ensures
        c.accepts(tree),
{
}

/// Every IQ and every presence from an occupant of the room is for the conference, where the JID of
/// the room can be written and read back.
pub proof fn law_filter_accepts_occupants(c: ConferenceView, tree: Tree, resource: Seq<char>)
    requires
        tree.is("iq"@, "jabber:client"@) || tree.is("presence"@, "jabber:client"@),
        tree.attr("from"@) == Some(c.config.muc.with_resource(resource).text()),
        resource.len() > 0,
        c.config.muc.domain.len() > 0,
        !c.config.muc.domain.contains('/'),
        c.config.muc.node matches Some(node) ==> node.len() > 0 && !node.contains('@')
            && !node.contains('/'),
        c.config.muc.node is None ==> !c.config.muc.domain.contains('@'),
    ensures
        c.accepts(tree),
{
    law_full_jid_round_trip(c.config.muc.with_resource(resource));
}

/// What the filter accepts is what the conference acts on: an IQ from the focus or from the room, or a
/// presence from the room, by the sender that the filter has seen. Such an IQ can be answered.
pub proof fn law_accepted_elements_come_from_focus_or_room(c: ConferenceView, tree: Tree)
    requires
        c.accepts(tree),
    ensures
        ({
            let m = inbound_of(tree);
            &&& m.iq matches Some(iq) ==> iq.from matches Some(jid) && (jid.text()
                == c.config.focus.text() || jid.bare() == c.config.muc)
            &&& m.presence matches Some(presence) ==> presence.from matches Some(jid) && jid.bare()
                == c.config.muc
            &&& m.iq is None || m.presence is None
            &&& answerable(c, m)
        }),
{
    law_jid_text_round_trip(tree.attr("from"@)->0);
    reveal_strlit("iq");
    reveal_strlit("presence");
    assert("iq"@.len() == 2 && "presence"@.len() == 8);
}

/// A message of the session protocol is acted on only after an acknowledgement: from this client to
/// the sender, under the identifier of the message.
pub proof fn law_jingle_is_acknowledged_first(
    c: ConferenceView,
    iq: InboundIqView,
    jingle: InboundJingleView,
)
    requires
        iq.payload == (InboundPayloadView::Command { jingle: Some(jingle) }),
    ensures
        ({
            let (after, step) = on_iq(c, iq);
            &&& after == c
            &&& step is Done || (step matches StepView::Send { stanza, .. } && stanza
                == StanzaView::Iq {
                from: Some(JidView::Full(c.jid)),
                to: iq.from,
                id: iq.id,
                payload: PayloadView::Empty,
            })
        }),
{
}

/// A session that anyone but the focus wants to begin or end is left alone.
pub proof fn law_only_focus_runs_sessions(
    c: ConferenceView,
    from: FullJidView,
    id: Seq<char>,
    jingle: InboundJingleView,
)
    requires
        from.resource != "focus"@,
        jingle.jingle.action == "session-initiate"@ || jingle.jingle.action == "session-terminate"@,
    ensures
        on_jingle(c, from, id, jingle) is Done,
{
}

/// A session that the focus offers is taken up after the acknowledgement. What the agent then gets
/// is an offer that the message spells, and the session is the one to accept.
pub proof fn law_offer_reaches_agent(
    c: ConferenceView,
    iq: InboundIqView,
    from: FullJidView,
    jingle: InboundJingleView,
    after: ConferenceView,
    r: Result<StepView, Error>,
)
    requires
        c.state is Idle,
        iq.from == Some(JidView::Full(from)),
        from.resource == "focus"@,
        iq.payload == (InboundPayloadView::Command { jingle: Some(jingle) }),
        jingle.jingle.action == "session-initiate"@,
        is_sequel(c, ThenView::Initiate(jingle), after, r),
        offers_of(jingle.tree) != Set::<SdpView>::empty(),
    ensures
        on_iq(c, iq).1 matches StepView::Send { then, .. } && then == ThenView::Initiate(jingle),
        r matches Ok(StepView::Offer { offer }) && offers_of(jingle.tree).contains(sdp_of(offer)),
        after.jingle_session_id == Some(jingle.jingle.sid),
        after.remote_description == c.remote_description,
{
}

/// An answer to a question for identities and features goes to who asked, under the identifier of
/// the question.
pub proof fn law_disco_is_answered_to_asker(
    c: ConferenceView,
    iq: InboundIqView,
    query: DiscoInfoQueryView,
)
    requires
        iq.payload == (InboundPayloadView::Query { query: Some(query) }),
    ensures
        on_iq(c, iq) == (
            c,
            StepView::Send {
                stanza: StanzaView::Iq {
                    from: Some(JidView::Full(c.jid)),
                    to: iq.from,
                    id: iq.id,
                    payload: disco_reply(query.node),
                },
                then: ThenView::Nothing,
            },
        ),
{
}

/// The node that a presence announces the features under exists: whoever asks for the node and the
/// hash of the announcement gets the identities and features.
pub proof fn law_announced_features_can_be_asked_for(config: ConferenceConfigView)
    ensures
        ({
            let caps = initial_presence(config)[1];
            let node = caps.attr("node"@)->0 + seq!['#'] + caps.attr("ver"@)->0;
            &&& caps.is("c"@, "http://jabber.org/protocol/caps"@)
            &&& caps.attr("node"@) is Some && caps.attr("ver"@) is Some
            &&& disco_reply(Some(node)) == PayloadView::DiscoInfo { node: Some(node) }
        }),
{
    reveal_strlit("hash");
    reveal_strlit("node");
    reveal_strlit("ver");
    reveal_strlit("https://github.com/avstack/lib-jitsi-meet-rs");
    assert("hash"@.len() == 4 && "node"@.len() == 4 && "ver"@.len() == 3);
    assert("hash"@[0] != "node"@[0]);
    assert(initial_presence(config)[1] == caps_tree());
    assert(!disco_node().contains('#'));
    law_cut_of_joined(disco_node(), '#', own_caps());
}

/// Every other node is refused by name.
pub proof fn law_other_nodes_do_not_exist(node: Seq<char>)
    requires
        node != disco_node() + seq!['#'] + own_caps(),
    ensures
        disco_reply(Some(node)) == (PayloadView::ItemNotFound {
            text: "Unknown disco#info node: "@ + node,
        }),
{
    law_cut_is_exact(node, '#');
}

/// An offer is accepted at most once: after an attempt, whether it succeeds or not, there is no
/// session to accept.
pub proof fn law_offer_is_used_up(
    c: ConferenceView,
    sdp: SdpView,
    id: Seq<char>,
    after: ConferenceView,
    r: Result<Stanza, Error>,
    sdp2: SdpView,
    id2: Seq<char>,
    after2: ConferenceView,
    r2: Result<Stanza, Error>,
)
    requires
        is_acceptance(c, sdp, id, after, r),
        is_acceptance(after, sdp2, id2, after2, r2),
    ensures
        r2 == Err::<Stanza, Error>(Error::NoSession),
        after2 == after,
{
}

/// An acceptance touches nothing but the session that is on offer and the answer that is awaited.
/// Where it fails, the answer that is awaited stays the same.
pub proof fn law_acceptance_keeps_the_rest(
    c: ConferenceView,
    sdp: SdpView,
    id: Seq<char>,
    after: ConferenceView,
    r: Result<Stanza, Error>,
)
    requires
        is_acceptance(c, sdp, id, after, r),
    ensures
        after == (ConferenceView {
            jingle_session_id: None,
            accept_iq_id: after.accept_iq_id,
            ..c
        }),
        after.accept_iq_id == (if r is Ok {
            Some(id)
        } else {
            c.accept_iq_id
        }),
        c.wf() ==> after.wf(),
{
}

/// The acceptance of an offer names the session of the offer, and goes to the focus in the room.
pub proof fn law_acceptance_names_session(
    c: ConferenceView,
    jingle: InboundJingleView,
    offered: ConferenceView,
    step: Result<StepView, Error>,
    sdp: SdpView,
    id: Seq<char>,
    after: ConferenceView,
    r: Result<Stanza, Error>,
)
    requires
        is_sequel(c, ThenView::Initiate(jingle), offered, step),
        is_acceptance(offered, sdp, id, after, r),
    ensures
        r != Err::<Stanza, Error>(Error::NoSession),
        r matches Ok(stanza) ==> stanza@ matches StanzaView::Iq {
            from,
            to,
            id: iq_id,
            payload: PayloadView::SessionAccept { jingle: accept },
        } && {
            &&& from == Some(JidView::Full(c.jid))
            &&& to == Some(JidView::Full(c.config.muc.with_resource("focus"@)))
            &&& iq_id == id
            &&& accept.attr("action"@) == Some("session-accept"@)
            &&& accept.attr("sid"@) == Some(jingle.jingle.sid)
        },
{
}

/// The answer to an acceptance opens the Colibri channel that the offer named, and only the first
/// such answer does.
pub proof fn law_acknowledged_acceptance_opens_channel(
    c: ConferenceView,
    sdp: SdpView,
    id: Seq<char>,
    after: ConferenceView,
    r: Result<Stanza, Error>,
    answer: InboundIqView,
)
    requires
        is_acceptance(c, sdp, id, after, r),
        r is Ok,
        answer.id == id,
        answer.payload is Answer,
    ensures
        on_iq(after, answer).1 == (match c.colibri_url {
            Some(url) => StepView::ConnectColibri { url },
            None => StepView::Done,
        }),
        on_iq(on_iq(after, answer).0, answer) == (on_iq(after, answer).0, StepView::Done),
{
}

/// Nothing but the answer to the acceptance opens a Colibri channel.
pub proof fn law_channel_needs_awaited_answer(c: ConferenceView, m: InboundView, url: Seq<char>)
    requires
        on_inbound(c, m).1 == Ok::<StepView, Error>(StepView::ConnectColibri { url }),
    ensures
        c.state is Idle,
        c.colibri_url == Some(url),
        m.iq matches Some(iq) && iq.payload is Answer && c.accept_iq_id == Some(iq.id),
{
}

/// After the end of a session there is nothing to accept, no answer opens a channel, sources that are
/// added lead to nothing, and no Colibri channel is left.
pub proof fn law_terminated_session_is_forgotten(
    c: ConferenceView,
    after: ConferenceView,
    r: Result<StepView, Error>,
    sdp: SdpView,
    id: Seq<char>,
    after2: ConferenceView,
    r2: Result<Stanza, Error>,
    answer: InboundIqView,
    jingle: InboundJingleView,
    after3: ConferenceView,
    r3: Result<StepView, Error>,
)
    requires
        is_sequel(c, ThenView::Terminate, after, r),
        is_acceptance(after, sdp, id, after2, r2),
        answer.payload is Answer,
        is_sequel(after, ThenView::AddSources(jingle), after3, r3),
    ensures
        !after.colibri_channel,
        r2 == Err::<Stanza, Error>(Error::NoSession),
        on_iq(after, answer) == (after, StepView::Done),
        after3 == after && r3 == Ok::<StepView, Error>(StepView::Done),
{
}

/// What follows a stanza changes the remote description in two ways only: the end of the session
/// drops it, and added sources append to it. An offer is kept only once the agent has taken it.
pub proof fn law_remote_description_is_kept(
    c: ConferenceView,
    then: ThenView,
    after: ConferenceView,
    r: Result<StepView, Error>,
)
    requires
        is_sequel(c, then, after, r),
    ensures
        !(then is Terminate) && !(then is AddSources) ==> after.remote_description
            == c.remote_description,
        then is AddSources ==> match (c.remote_description, after.remote_description) {
            (None, None) => true,
            (Some(old_sdp), Some(new_sdp)) => {
                &&& sdp_of(old_sdp).attributes == sdp_of(new_sdp).attributes
                &&& sdp_of(old_sdp).sections.is_prefix_of(sdp_of(new_sdp).sections)
            },
            _ => false,
        },
{
}

/// Everyone in the room stays there under the right name, as somebody else than this client and the
/// focus, whatever arrives and whatever follows a stanza.
pub proof fn law_room_stays_in_order(
    c: ConferenceView,
    m: InboundView,
    then: ThenView,
    after: ConferenceView,
    r: Result<StepView, Error>,
)
    requires
        c.wf(),
    ensures
        on_inbound(c, m).0.wf(),
        is_sequel(c, then, after, r) ==> after.wf(),
{
    if c.state is Idle && m.iq is None {
        if let Some(presence) = m.presence {
            if let Some(JidView::Full(from)) = presence.from {
                if let Some(Some(muc_user)) = presence.muc_user {
                    if from.bare() == c.config.muc && from.resource != "focus"@ {
                        lemma_items_keep_order(c, presence, from, muc_user.items);
                    }
                }
            }
        }
    }
}

proof fn lemma_items_keep_order(
    c: ConferenceView,
    presence: InboundPresenceView,
    from: FullJidView,
    items: Seq<ItemView>,
)
    requires
        c.wf(),
        from.bare() == c.config.muc,
        from.resource != "focus"@,
    ensures
        (ConferenceView {
            participants: on_items(c.participants, c.jid, presence, from, items).0,
            ..c
        }).wf(),
    decreases items.len(),
{
    if items.len() > 0 {
        lemma_items_keep_order(c, presence, from, items.drop_last());
        assert(from == c.config.muc.with_resource(from.resource));
    }
}

/// A participant is reported as joined if and only if they were not in the room and now are, and as
/// left if and only if they were and now are not. Nobody else is touched.
pub proof fn law_events_tell_membership(
    participants: Map<Seq<char>, ParticipantView>,
    own: FullJidView,
    presence: InboundPresenceView,
    from: FullJidView,
    item: ItemView,
)
    ensures
        ({
            let (after, event) = on_item(participants, own, presence, from, item);
            let was = participants.contains_key(from.resource);
            let is_there = after.contains_key(from.resource);
            &&& (event matches Some(ParticipantEventView::Joined(_))) <==> !was && is_there
            &&& (event matches Some(ParticipantEventView::Left(_))) <==> was && !is_there
            &&& forall|k: Seq<char>|
                k != from.resource ==> (#[trigger] after.contains_key(k) <==> participants.contains_key(
                    k,
                )) && (after.contains_key(k) ==> after[k] == participants[k])
        }),
{
}

/// A presence changes nothing but the entry of the occupant that it comes from.
pub proof fn law_presence_is_about_its_sender(
    c: ConferenceView,
    presence: InboundPresenceView,
    from: FullJidView,
    k: Seq<char>,
)
    requires
        presence.from == Some(JidView::Full(from)),
        k != from.resource,
    ensures
        ({
            let after = on_presence(c, presence).0.participants;
            &&& after.contains_key(k) <==> c.participants.contains_key(k)
            &&& after.contains_key(k) ==> after[k] == c.participants[k]
        }),
{
    if let Some(Some(muc_user)) = presence.muc_user {
        lemma_items_are_about_sender(c.participants, c.jid, presence, from, muc_user.items, k);
    }
}

proof fn lemma_items_are_about_sender(
    participants: Map<Seq<char>, ParticipantView>,
    own: FullJidView,
    presence: InboundPresenceView,
    from: FullJidView,
    items: Seq<ItemView>,
    k: Seq<char>,
)
    requires
        k != from.resource,
    ensures
        ({
            let after = on_items(participants, own, presence, from, items).0;
            &&& after.contains_key(k) <==> participants.contains_key(k)
            &&& after.contains_key(k) ==> after[k] == participants[k]
        }),
    decreases items.len(),
{
    if items.len() > 0 {
        lemma_items_are_about_sender(participants, own, presence, from, items.drop_last(), k);
    }
}

/// Who comes and leaves again is reported once each, and leaves the room as it was.
pub proof fn law_leaving_undoes_joining(
    participants: Map<Seq<char>, ParticipantView>,
    own: FullJidView,
    presence: InboundPresenceView,
    leaving: InboundPresenceView,
    from: FullJidView,
    item: ItemView,
)
    requires
        !participants.contains_key(from.resource),
        item.jid matches Some(jid) && jid != own,
        !presence.unavailable,
        leaving.unavailable,
    ensures
        ({
            let (joined, event) = on_item(participants, own, presence, from, item);
            let (left, event2) = on_item(joined, own, leaving, from, item);
            &&& event matches Some(ParticipantEventView::Joined(p)) && p.muc_jid == from && p.jid
                == item.jid
            &&& event2 matches Some(ParticipantEventView::Left(p)) && p.muc_jid == from && p.jid
                == item.jid
            &&& left == participants
        }),
{
    let joined = on_item(participants, own, presence, from, item).0;
    assert(joined.remove(from.resource) =~= participants);
}

/// Further presences of somebody who is in the room are not reported.
pub proof fn law_rejoining_is_silent(
    participants: Map<Seq<char>, ParticipantView>,
    own: FullJidView,
    presence: InboundPresenceView,
    from: FullJidView,
    item: ItemView,
)
    requires
        participants.contains_key(from.resource),
        !presence.unavailable,
    ensures
        on_item(participants, own, presence, from, item).1 is None,
        on_item(participants, own, presence, from, item).0.contains_key(from.resource),
{
}

/// Neither this client nor the focus is ever reported.
pub proof fn law_self_and_focus_are_not_reported(
    c: ConferenceView,
    presence: InboundPresenceView,
    from: FullJidView,
    items: Seq<ItemView>,
)
    requires
        presence.from == Some(JidView::Full(from)),
        presence.muc_user matches Some(Some(muc_user)) && muc_user.items == items,
        from.resource == "focus"@ || forall|i: int|
            0 <= i < items.len() ==> (#[trigger] items[i]).jid == Some(c.jid),
    ensures
        on_presence(c, presence).0.participants == c.participants,
        on_presence(c, presence).1 matches Ok(StepView::Participants { events }) ==> events.len()
            == 0,
{
    if from.resource != "focus"@ {
        lemma_own_items_change_nothing(c.participants, c.jid, presence, from, items);
    }
}

proof fn lemma_own_items_change_nothing(
    participants: Map<Seq<char>, ParticipantView>,
    own: FullJidView,
    presence: InboundPresenceView,
    from: FullJidView,
    items: Seq<ItemView>,
)
    requires
        forall|i: int| 0 <= i < items.len() ==> (#[trigger] items[i]).jid == Some(own),
    ensures
        on_items(participants, own, presence, from, items) == (
            participants,
            Seq::<ParticipantEventView>::empty(),
        ),
    decreases items.len(),
{
    if items.len() > 0 {
        lemma_own_items_change_nothing(participants, own, presence, from, items.drop_last());
    }
}

/// After muting or unmuting, the last word of the presence tells of it, and it is the only one that
/// does.
pub proof fn law_muting_is_told_once(presence: Seq<Tree>, media: MediaType, muted: bool)
    ensures
        ({
            let after = muted_presence(presence, media, muted);
            &&& after.last() == text_leaf(media.muted_name(), spelled(muted))
            &&& forall|i: int|
                0 <= i < after.len() - 1 ==> (#[trigger] after[i]).name != media.muted_name()
        }),
{
    broadcast use vstd::seq_lib::group_filter_ensures;

    let other = |t: Tree| t.name != media.muted_name();
    let after = muted_presence(presence, media, muted);
    let kept = presence.filter(other);
    assert forall|i: int| 0 <= i < after.len() - 1 implies (#[trigger] after[i]).name
        != media.muted_name() by {
        assert(after[i] == kept[i]);
        assert(other(kept[i]));
    }
}

/// Muting leaves everything else in the presence, in its order.
pub proof fn law_muting_keeps_the_rest(presence: Seq<Tree>, media: MediaType, muted: bool)
    ensures
        ({
            let other = |t: Tree| t.name != media.muted_name();
            muted_presence(presence, media, muted).filter(other) == presence.filter(other)
        }),
{
    let other = |t: Tree| t.name != media.muted_name();
    let kept = presence.filter(other);
    lemma_filter_twice(presence, other);
    reveal(Seq::filter);
    let after = muted_presence(presence, media, muted);
    assert(after.drop_last() =~= kept);
    assert(!other(after.last()));
}

proof fn lemma_filter_twice(s: Seq<Tree>, f: spec_fn(Tree) -> bool)
    ensures
        s.filter(f).filter(f) == s.filter(f),
    decreases s.len(),
{
    reveal(Seq::filter);
    if s.len() > 0 {
        lemma_filter_twice(s.drop_last(), f);
        let kept = s.drop_last().filter(f);
        if f(s.last()) {
            assert(kept.push(s.last()).drop_last() =~= kept);
        }
    }
}

/// Of several changes to the same media, the last one counts.
pub proof fn law_last_muting_counts(
    presence: Seq<Tree>,
    media: MediaType,
    first: bool,
    second: bool,
)
    ensures
        muted_presence(muted_presence(presence, media, first), media, second) == muted_presence(
            presence,
            media,
            second,
        ),
{
    law_muting_keeps_the_rest(presence, media, first);
}

/// The endpoint of a client in a conference is the endpoint of its JID, where the node of the JID
/// has a hyphen. Its JID in the room then has that endpoint as its resource.
pub proof fn law_endpoint_ids_agree(c: ConferenceView)
    requires
        c.jid.node matches Some(node) && node.contains('-'),
    ensures
        c.endpoint_id() == endpoint_id_of(c.jid.node),
        c.jid_in_muc() matches Ok(jid) && endpoint_id_of(c.jid.node) == Ok::<Seq<char>, Error>(
            jid.resource,
        ) && !jid.resource.contains('-'),
{
    law_cut_is_exact(c.jid.node->0, '-');
}

/// Under a plain domain, a room of a plain name is a JID of its own, and so is the focus.
pub proof fn law_rooms_have_fixed_places(domain: BareJidView, room: Seq<char>, nick: Seq<char>)
    requires
        domain.node is None,
        !domain.domain.contains('/'),
        room.len() > 0,
        !room.contains('@'),
        !room.contains('/'),
    ensures
        ({
            let r = room_config(domain, room, nick);
            &&& r is Ok
            &&& r->Ok_0.muc == BareJidView {
                node: Some(room),
                domain: "conference."@ + domain.domain,
            }
            &&& r->Ok_0.focus == JidView::Full(
                FullJidView {
                    node: Some("focus"@),
                    domain: "auth."@ + domain.domain,
                    resource: "focus"@,
                },
            )
            &&& r->Ok_0.nick == nick
        }),
{
    reveal_strlit("@conference.");
    reveal_strlit("conference.");
    reveal_strlit("focus@auth.");
    reveal_strlit("focus");
    reveal_strlit("auth.");
    reveal_strlit("/focus");
    let muc = BareJidView { node: Some(room), domain: "conference."@ + domain.domain };
    assert(!muc.domain.contains('/')) by {
        if muc.domain.contains('/') {
            let i = choose|i: int| 0 <= i < muc.domain.len() && muc.domain[i] == '/';
            if i >= 11 {
                assert(domain.domain[i - 11] == '/');
            }
        }
    }
    law_bare_jid_round_trip(muc);
    assert(muc.text() =~= room + "@conference."@ + domain.text());
    let focus = FullJidView {
        node: Some("focus"@),
        domain: "auth."@ + domain.domain,
        resource: "focus"@,
    };
    assert(!focus.domain.contains('/')) by {
        if focus.domain.contains('/') {
            let i = choose|i: int| 0 <= i < focus.domain.len() && focus.domain[i] == '/';
            if i >= 5 {
                assert(domain.domain[i - 5] == '/');
            }
        }
    }
    law_full_jid_round_trip(focus);
    assert(focus.text() =~= "focus@auth."@ + domain.text() + "/focus"@);
}

} // verus!
