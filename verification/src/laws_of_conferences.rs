//! What is owed at every point of a conference, whatever else holds of it.
use vstd::prelude::*;

use crate::conference::{
    answerable, initial_presence, is_acceptance, is_joining, is_sequel, muted_presence, on_element,
    on_inbound, on_item, on_items, room_config, ConferenceConfigView, ConferenceState,
    ConferenceView, Joining, MediaType, ParticipantEventView, ParticipantView, StepView, ThenView,
};
use crate::connection::ConnectionView;
use crate::disco::own_caps;
use crate::element::{Node, Tree};
use crate::error::Error;
use crate::inbound::{
    InboundIqView, InboundJingleView, InboundPayloadView, InboundPresenceView, InboundView, ItemView,
    MucUserView, TransportView,
};
use crate::jid::{jid_of, BareJidView, FullJidView, JidView};
use crate::sdp::{is_answer, offers_of, sdp_of, sources_added, SdpView};
use crate::stanza::{PayloadView, Stanza, StanzaView};

verus! {

/// An element changes and leads to the same whether or not it is checked for a sender first, but for
/// one: a question for identities and features, in a conference that is joined, that does not name its
/// sender. That one is refused and changes nothing.
pub proof fn law_only_unanswerable_questions_are_refused(c: ConferenceView, m: InboundView)
    ensures
        ({
            let unanswerable = match (c.state, m.iq) {
                (
                    ConferenceState::Idle,
                    Some(InboundIqView { from: None, id: _, payload }),
                ) => payload matches InboundPayloadView::Query { query: Some(_) },
                _ => false,
            };
            &&& answerable(c, m) <==> !unanswerable
            &&& !unanswerable ==> on_element(c, m) == on_inbound(c, m)
            &&& unanswerable ==> on_element(c, m) == (
                c,
                Err::<StepView, Error>(Error::MissingSender),
            )
        }),
{
}

/// When the focus answers that the room is ready, the room is entered: what the conference has to tell
/// is sent to the place of this client in the room, which is named by the head of its node.
pub proof fn law_ready_room_is_entered(
    c: ConferenceView,
    m: InboundView,
    iq: InboundIqView,
    node: Seq<char>,
    resource: Seq<char>,
    rest: Seq<char>,
)
    requires
        c.state is Discovering,
        m.iq == Some(iq),
        iq.payload matches InboundPayloadView::Answer { conference: Some(answer) } && answer.ready
            == Some("true"@),
        c.jid.node == Some(node),
        !resource.contains('-'),
        node == resource || node == resource + seq!['-'] + rest,
    ensures
        on_element(c, m) == (
            c,
            Ok::<StepView, Error>(
                StepView::Send {
                    stanza: StanzaView::Presence {
                        occupant: JidView::Full(
                            FullJidView {
                                node: c.config.muc.node,
                                domain: c.config.muc.domain,
                                resource,
                            },
                        ),
                        payloads: c.presence,
                    },
                    then: ThenView::Enter,
                },
            ),
        ),
{
    if node == resource {
        crate::text::law_cut_of_whole(node, '-');
    } else {
        crate::text::law_cut_of_joined(resource, '-', rest);
    }
}

/// Every other answer of the focus keeps the conference where it is, each with an error of its own.
pub proof fn law_room_that_is_not_ready_is_not_entered(c: ConferenceView, m: InboundView)
    requires
        c.state is Discovering,
    ensures
        on_element(c, m).0 == c,
        m.iq is None ==> on_element(c, m).1 == Err::<StepView, Error>(Error::NotIq),
        m.iq matches Some(iq) ==> match iq.payload {
            InboundPayloadView::Answer { conference: Some(answer) } => match answer.ready {
                None => on_element(c, m).1 == Err::<StepView, Error>(Error::MissingReady),
                Some(ready) => {
                    &&& ready == "false"@ ==> on_element(c, m).1 == Err::<StepView, Error>(
                        Error::RoomNotReady,
                    )
                    &&& ready != "false"@ && ready != "true"@ ==> on_element(c, m).1 == Err::<
                        StepView,
                        Error,
                    >(Error::InvalidReady)
                    &&& ready == "true"@ && c.jid.node is None ==> on_element(c, m).1 == Err::<
                        StepView,
                        Error,
                    >(Error::InvalidJid)
                },
            },
            _ => on_element(c, m).1 == Err::<StepView, Error>(Error::FocusFailed),
        },
{
    reveal_strlit("true");
    reveal_strlit("false");
    assert("true"@.len() == 4 && "false"@.len() == 5);
}

/// While the room is being entered, a presence in which the room gives the self status, among whatever
/// other codes and with whatever else in it, completes the joining and changes nothing else.
pub proof fn law_self_status_completes_the_joining(
    c: ConferenceView,
    m: InboundView,
    presence: InboundPresenceView,
    muc_user: MucUserView,
    i: int,
)
    requires
        c.state is JoiningMuc,
        m.presence == Some(presence),
        presence.muc_user == Some(Some(muc_user)),
        0 <= i < muc_user.statuses.len(),
        muc_user.statuses[i] == "110"@,
    ensures
        on_element(c, m) == (
            ConferenceView { state: ConferenceState::Idle, ..c },
            Ok::<StepView, Error>(StepView::Joined),
        ),
{
    assert(muc_user.statuses.contains("110"@));
}

/// While the room is being entered, nothing else completes the joining. What is not a presence is an
/// error, as is a presence whose word from the room cannot be read; other presences are passed over.
pub proof fn law_joining_waits_for_the_self_status(c: ConferenceView, m: InboundView)
    requires
        c.state is JoiningMuc,
    ensures
        m.presence is None ==> on_element(c, m) == (c, Err::<StepView, Error>(Error::NotPresence)),
        m.presence matches Some(presence) ==> match presence.muc_user {
            None => on_element(c, m) == (c, Ok::<StepView, Error>(StepView::Done)),
            Some(None) => on_element(c, m) == (c, Err::<StepView, Error>(Error::NotMucUser)),
            Some(Some(muc_user)) => (forall|i: int|
                0 <= i < muc_user.statuses.len() ==> #[trigger] muc_user.statuses[i] != "110"@)
                ==> on_element(c, m) == (c, Ok::<StepView, Error>(StepView::Done)),
        },
{
}

/// In a conference that is joined, a question for identities and features is answered, whatever else
/// goes on: from this client to who asked, under the identifier of the question.
pub proof fn law_questions_are_answered_at_any_time(
    c: ConferenceView,
    m: InboundView,
    iq: InboundIqView,
    node: Option<Seq<char>>,
)
    requires
        c.state is Idle,
        m.iq == Some(iq),
        iq.from is Some,
        iq.payload matches InboundPayloadView::Query { query: Some(query) } && query.node == node,
    ensures
        on_element(c, m).0 == c,
        on_element(c, m).1 matches Ok(StepView::Send { stanza, then: ThenView::Nothing })
            && stanza matches StanzaView::Iq { from, to, id, payload } && {
            &&& from == Some(JidView::Full(c.jid))
            &&& to == iq.from
            &&& id == iq.id
            &&& match node {
                None => payload == PayloadView::DiscoInfo { node: None },
                Some(node) => payload == if node == "https://github.com/avstack/lib-jitsi-meet-rs"@
                    + seq!['#'] + own_caps() {
                    PayloadView::DiscoInfo { node: Some(node) }
                } else {
                    PayloadView::ItemNotFound { text: "Unknown disco#info node: "@ + node }
                },
            }
        },
{
    if let Some(node) = node {
        let own = "https://github.com/avstack/lib-jitsi-meet-rs"@;
        reveal_strlit("https://github.com/avstack/lib-jitsi-meet-rs");
        assert(!own.contains('#'));
        crate::text::law_cut_of_joined(own, '#', own_caps());
        crate::text::law_cut_is_exact(node, '#');
    }
}

/// In a conference that is joined, a message of the session protocol from an occupant is acknowledged
/// to that occupant and then followed, whatever else goes on: sources from anybody, and the beginning
/// and the end of a session from the focus.
pub proof fn law_session_messages_are_followed_at_any_time(
    c: ConferenceView,
    m: InboundView,
    iq: InboundIqView,
    from: FullJidView,
    jingle: InboundJingleView,
)
    requires
        c.state is Idle,
        m.iq == Some(iq),
        iq.from == Some(JidView::Full(from)),
        iq.payload == (InboundPayloadView::Command { jingle: Some(jingle) }),
    ensures
        on_element(c, m).0 == c,
        ({
            let ack = StanzaView::Iq {
                from: Some(JidView::Full(c.jid)),
                to: Some(JidView::Full(from)),
                id: iq.id,
                payload: PayloadView::Empty,
            };
            let action = jingle.jingle.action;
            let r = on_element(c, m).1;
            &&& action == "session-initiate"@ && from.resource == "focus"@ ==> r == Ok::<
                StepView,
                Error,
            >(StepView::Send { stanza: ack, then: ThenView::Initiate(jingle) })
            &&& action == "session-terminate"@ && from.resource == "focus"@ ==> r == Ok::<
                StepView,
                Error,
            >(StepView::Send { stanza: ack, then: ThenView::Terminate })
            &&& action == "source-add"@ ==> r == Ok::<StepView, Error>(
                StepView::Send { stanza: ack, then: ThenView::AddSources(jingle) },
            )
            &&& action == "source-remove"@ ==> r == Ok::<StepView, Error>(
                StepView::Send { stanza: ack, then: ThenView::RemoveSources(jingle) },
            )
            &&& (action == "session-initiate"@ || action == "session-terminate"@) && from.resource
                != "focus"@ ==> r == Ok::<StepView, Error>(StepView::Done)
            &&& action != "session-initiate"@ && action != "session-terminate"@ && action
                != "source-add"@ && action != "source-remove"@ ==> r == Ok::<StepView, Error>(
                StepView::Done,
            )
        }),
{
    reveal_strlit("session-initiate");
    reveal_strlit("session-terminate");
    reveal_strlit("source-add");
    reveal_strlit("source-remove");
    assert("session-initiate"@.len() == 16 && "session-terminate"@.len() == 17);
    assert("source-add"@.len() == 10 && "source-remove"@.len() == 13);
}

/// In a conference that is joined, requests that are not of the session protocol or do not come from
/// an occupant, questions of other kinds, and failures lead to nothing. So does what is neither an IQ
/// nor a presence.
pub proof fn law_other_iqs_lead_to_nothing(c: ConferenceView, m: InboundView)
    requires
        c.state is Idle,
        m.iq is None ==> m.presence is None,
        m.iq matches Some(iq) ==> match iq.payload {
            InboundPayloadView::Query { query } => query is None,
            InboundPayloadView::Command { jingle } => jingle is None || !(iq.from matches Some(
                JidView::Full(_),
            )),
            InboundPayloadView::Answer { .. } => false,
            InboundPayloadView::Failure => true,
        },
    ensures
        on_element(c, m) == (c, Ok::<StepView, Error>(StepView::Done)),
{
}

/// In a conference that is joined, an answer counts where its identifier is the one that is awaited:
/// the Colibri channel is opened where a URL is known, and the answer is no longer awaited. Any other
/// answer leads to nothing.
pub proof fn law_awaited_answer_opens_the_known_channel(
    c: ConferenceView,
    m: InboundView,
    iq: InboundIqView,
)
    requires
        c.state is Idle,
        m.iq == Some(iq),
        iq.payload is Answer,
    ensures
        c.accept_iq_id == Some(iq.id) ==> {
            &&& on_element(c, m).0 == ConferenceView { accept_iq_id: None, ..c }
            &&& c.colibri_url matches Some(url) ==> on_element(c, m).1 == Ok::<StepView, Error>(
                StepView::ConnectColibri { url },
            )
            &&& c.colibri_url is None ==> on_element(c, m).1 == Ok::<StepView, Error>(StepView::Done)
        },
        c.accept_iq_id != Some(iq.id) ==> on_element(c, m) == (
            c,
            Ok::<StepView, Error>(StepView::Done),
        ),
{
}

/// Who is in the room and who else comes has no bearing on IQs: two conferences that differ only in
/// their participants and in what they tell the room do the same about them.
pub proof fn law_iqs_do_not_depend_on_participants(
    c: ConferenceView,
    m: InboundView,
    participants: Map<Seq<char>, ParticipantView>,
    presence: Seq<Tree>,
)
    requires
        c.state is Idle,
        m.iq is Some,
    ensures
        ({
            let other = ConferenceView { participants, presence, ..c };
            &&& on_element(other, m).1 == on_element(c, m).1
            &&& on_element(other, m).0 == ConferenceView {
                participants,
                presence,
                ..on_element(c, m).0
            }
        }),
{
}

/// Whether a presence is from an occupant of the room that can take part.
pub open spec fn is_from_occupant(
    c: ConferenceView,
    presence: InboundPresenceView,
    from: FullJidView,
) -> bool {
    &&& presence.from == Some(JidView::Full(from))
    &&& from.node == c.config.muc.node && from.domain == c.config.muc.domain
    &&& from.resource != "focus"@
    &&& presence.nick != Some(None::<Seq<char>>)
}

/// The nickname of a participant: that of the item, or else that of the presence.
pub open spec fn is_nick(
    nick: Option<Seq<char>>,
    item: ItemView,
    presence: InboundPresenceView,
) -> bool {
    &&& item.nick is Some ==> nick == item.nick
    &&& item.nick is None && presence.nick is Some ==> nick == presence.nick->0
    &&& item.nick is None && presence.nick is None ==> nick is None
}

/// Whoever comes into the room is kept and reported, whoever else is in it and however many: a
/// presence that names somebody else than this client, from an occupant that is not the focus, puts
/// them among the participants. They are reported as joined if they were not there, and not reported
/// if they were.
pub proof fn law_every_newcomer_is_reported(
    c: ConferenceView,
    m: InboundView,
    presence: InboundPresenceView,
    from: FullJidView,
    muc_user: MucUserView,
    item: ItemView,
    jid: FullJidView,
)
    requires
        c.state is Idle,
        m.iq is None,
        m.presence == Some(presence),
        is_from_occupant(c, presence, from),
        !presence.unavailable,
        presence.muc_user == Some(Some(muc_user)),
        muc_user.items == seq![item],
        item.jid == Some(jid),
        jid != c.jid,
    ensures
        ({
            let (after, r) = on_element(c, m);
            &&& after.participants.contains_key(from.resource)
            &&& after.participants[from.resource].jid == Some(jid)
            &&& after.participants[from.resource].muc_jid == from
            &&& is_nick(after.participants[from.resource].nick, item, presence)
            &&& after == ConferenceView { participants: after.participants, ..c }
            &&& forall|k: Seq<char>|
                k != from.resource ==> (#[trigger] after.participants.contains_key(k)
                    <==> c.participants.contains_key(k)) && (c.participants.contains_key(k)
                    ==> after.participants[k] == c.participants[k])
            &&& r matches Ok(StepView::Participants { events }) && if c.participants.contains_key(
                from.resource,
            ) {
                events.len() == 0
            } else {
                &&& events.len() == 1
                &&& events[0] == ParticipantEventView::Joined(after.participants[from.resource])
            }
        }),
{
    lemma_one_item(c, presence, from, item);
}

/// Whoever leaves the room is dropped and reported, whoever else is in it and however many. Who was
/// not there is not reported.
pub proof fn law_everybody_who_leaves_is_reported(
    c: ConferenceView,
    m: InboundView,
    presence: InboundPresenceView,
    from: FullJidView,
    muc_user: MucUserView,
    item: ItemView,
    jid: FullJidView,
)
    requires
        c.state is Idle,
        m.iq is None,
        m.presence == Some(presence),
        is_from_occupant(c, presence, from),
        presence.unavailable,
        presence.muc_user == Some(Some(muc_user)),
        muc_user.items == seq![item],
        item.jid == Some(jid),
        jid != c.jid,
    ensures
        ({
            let (after, r) = on_element(c, m);
            &&& !after.participants.contains_key(from.resource)
            &&& after == ConferenceView { participants: after.participants, ..c }
            &&& forall|k: Seq<char>|
                k != from.resource ==> (#[trigger] after.participants.contains_key(k)
                    <==> c.participants.contains_key(k)) && (c.participants.contains_key(k)
                    ==> after.participants[k] == c.participants[k])
            &&& r matches Ok(StepView::Participants { events }) && if c.participants.contains_key(
                from.resource,
            ) {
                &&& events.len() == 1
                &&& events[0] matches ParticipantEventView::Left(p) && p.jid == Some(jid)
                    && p.muc_jid == from && is_nick(p.nick, item, presence)
            } else {
                events.len() == 0
            }
        }),
{
    lemma_one_item(c, presence, from, item);
}

proof fn lemma_one_item(
    c: ConferenceView,
    presence: InboundPresenceView,
    from: FullJidView,
    item: ItemView,
)
    ensures
        on_items(c.participants, c.jid, presence, from, seq![item]) == ({
            let (after, event) = on_item(c.participants, c.jid, presence, from, item);
            (
                after,
                match event {
                    Some(event) => seq![event],
                    None => Seq::empty(),
                },
            )
        }),
{
    let items = seq![item];
    reveal_with_fuel(on_items, 2);
    assert(items.drop_last() =~= Seq::<ItemView>::empty());
    let (after, event) = on_item(c.participants, c.jid, presence, from, item);
    if let Some(event) = event {
        assert(Seq::empty().push(event) =~= seq![event]);
    }
}

/// The items of a presence count one after the other: with one more item, a presence does what it
/// does without it, and then what a presence with that item alone does. Without items, it does
/// nothing.
pub proof fn law_items_count_one_after_the_other(
    c: ConferenceView,
    m: InboundView,
    presence: InboundPresenceView,
    from: FullJidView,
    muc_user: MucUserView,
    items: Seq<ItemView>,
    item: ItemView,
)
    requires
        c.state is Idle,
        m.iq is None,
        m.presence == Some(presence),
        is_from_occupant(c, presence, from),
        presence.muc_user == Some(Some(muc_user)),
    ensures
        ({
            let with = |items: Seq<ItemView>|
                InboundView {
                    presence: Some(
                        InboundPresenceView {
                            muc_user: Some(Some(MucUserView { items, ..muc_user })),
                            ..presence
                        },
                    ),
                    ..m
                };
            let (first, r1) = on_element(c, with(items));
            let (second, r2) = on_element(first, with(seq![item]));
            let (all, r) = on_element(c, with(items.push(item)));
            &&& all == second
            &&& r1 matches Ok(StepView::Participants { events: events1 })
            &&& r2 matches Ok(StepView::Participants { events: events2 })
            &&& r matches Ok(StepView::Participants { events })
            &&& events == events1 + events2
            &&& on_element(c, with(Seq::empty())) == (
                c,
                Ok::<StepView, Error>(StepView::Participants { events: Seq::empty() }),
            )
        }),
{
    let with = |items: Seq<ItemView>|
        InboundView {
            presence: Some(
                InboundPresenceView {
                    muc_user: Some(Some(MucUserView { items, ..muc_user })),
                    ..presence
                },
            ),
            ..m
        };
    let p0 = with(items).presence->0;
    let p1 = with(seq![item]).presence->0;
    let p2 = with(items.push(item)).presence->0;
    lemma_items_read_the_rest(c.participants, c.jid, p0, p2, from, items);
    assert(items.push(item).drop_last() =~= items);
    let first = on_element(c, with(items)).0;
    lemma_one_item(first, p1, from, item);
    let (before, events) = on_items(c.participants, c.jid, p2, from, items);
    let (after, event) = on_item(before, c.jid, p2, from, item);
    if let Some(event) = event {
        assert(events.push(event) =~= events + seq![event]);
    } else {
        assert(events =~= events + Seq::empty());
    }
    assert(on_element(c, with(Seq::empty())).0 == c);
}

/// Of a presence, the items go by its nickname and by whether its sender is gone, and by nothing else.
proof fn lemma_items_read_the_rest(
    participants: Map<Seq<char>, ParticipantView>,
    own: FullJidView,
    p: InboundPresenceView,
    q: InboundPresenceView,
    from: FullJidView,
    items: Seq<ItemView>,
)
    requires
        p.nick == q.nick,
        p.unavailable == q.unavailable,
    ensures
        on_items(participants, own, p, from, items) == on_items(participants, own, q, from, items),
    decreases items.len(),
{
    if items.len() > 0 {
        lemma_items_read_the_rest(participants, own, p, q, from, items.drop_last());
    }
}

/// An item without a JID, and an item with the JID of this client, say nothing of others.
pub proof fn law_items_without_others_say_nothing(
    c: ConferenceView,
    m: InboundView,
    presence: InboundPresenceView,
    from: FullJidView,
    muc_user: MucUserView,
    item: ItemView,
)
    requires
        c.state is Idle,
        m.iq is None,
        m.presence == Some(presence),
        is_from_occupant(c, presence, from),
        presence.muc_user == Some(Some(muc_user)),
        muc_user.items == seq![item],
        item.jid is None || item.jid == Some(c.jid),
    ensures
        on_element(c, m).0 == c,
        on_element(c, m).1 matches Ok(StepView::Participants { events }) && events.len() == 0,
{
    lemma_one_item(c, presence, from, item);
}

/// Presences that are not from an occupant of this room that can take part, and presences without a
/// word from the room, lead to nothing. What is missing or cannot be read is an error, the nickname
/// before the word from the room. None of them changes anything.
pub proof fn law_other_presences_lead_to_nothing(
    c: ConferenceView,
    m: InboundView,
    presence: InboundPresenceView,
)
    requires
        c.state is Idle,
        m.iq is None,
        m.presence == Some(presence),
    ensures
        ({
            let r = on_element(c, m);
            let done = (c, Ok::<StepView, Error>(StepView::Done));
            match presence.from {
                None => r == (c, Err::<StepView, Error>(Error::MissingFrom)),
                Some(JidView::Bare(_)) => r == done,
                Some(JidView::Full(from)) => {
                    let here = from.node == c.config.muc.node && from.domain == c.config.muc.domain
                        && from.resource != "focus"@;
                    &&& !here ==> r == done
                    &&& here && presence.nick == Some(None::<Seq<char>>) ==> r == (
                        c,
                        Err::<StepView, Error>(Error::NotNick),
                    )
                    &&& here && presence.nick != Some(None::<Seq<char>>)
                        && presence.muc_user is None ==> r == done
                    &&& here && presence.nick != Some(None::<Seq<char>>) && presence.muc_user
                        == Some(None::<MucUserView>) ==> r == (
                        c,
                        Err::<StepView, Error>(Error::NotMucUser),
                    )
                },
            }
        }),
{
}

/// A session that is taken up is the one to accept, whatever session there was. Its Colibri channel
/// is that of the first content, however many contents there are; where the first content has no ICE
/// transport, or there is none, the channel that was known stays. Nothing else changes.
pub proof fn law_session_is_taken_up_with_its_channel(
    c: ConferenceView,
    jingle: InboundJingleView,
    after: ConferenceView,
    r: Result<StepView, Error>,
)
    requires
        is_sequel(c, ThenView::Initiate(jingle), after, r),
    ensures
        after.jingle_session_id == Some(jingle.jingle.sid),
        jingle.jingle.contents.len() > 0 ==> match jingle.jingle.contents[0].transport {
            Some(TransportView::IceUdp(ice_udp)) => after.colibri_url == ice_udp.web_socket,
            Some(TransportView::Ibb) => after.colibri_url == c.colibri_url,
            Some(TransportView::Socks5) => after.colibri_url == c.colibri_url,
            Some(TransportView::Unknown) => after.colibri_url == c.colibri_url,
            None => after.colibri_url == c.colibri_url,
        },
        jingle.jingle.contents.len() == 0 ==> after.colibri_url == c.colibri_url,
        after == (ConferenceView {
            jingle_session_id: after.jingle_session_id,
            colibri_url: after.colibri_url,
            ..c
        }),
        offers_of(jingle.tree) == Set::<SdpView>::empty() ==> r == Err::<StepView, Error>(
            Error::InvalidJingle,
        ),
        offers_of(jingle.tree) != Set::<SdpView>::empty() ==> (r matches Ok(
            StepView::Offer { offer },
        ) && offers_of(jingle.tree).contains(sdp_of(offer))),
{
}

/// A session that is taken up and accepted opens the Colibri channel of the first content once the
/// focus acknowledges it, however many contents there are and whatever was known before.
pub proof fn law_accepted_session_opens_its_channel(
    c: ConferenceView,
    jingle: InboundJingleView,
    url: Seq<char>,
    offered: ConferenceView,
    r1: Result<StepView, Error>,
    sdp: SdpView,
    id: Seq<char>,
    accepted: ConferenceView,
    r2: Result<Stanza, Error>,
    m: InboundView,
    iq: InboundIqView,
)
    requires
        c.state is Idle,
        is_sequel(c, ThenView::Initiate(jingle), offered, r1),
        jingle.jingle.contents.len() > 0,
        jingle.jingle.contents[0].transport matches Some(TransportView::IceUdp(ice_udp))
            && ice_udp.web_socket == Some(url),
        is_acceptance(offered, sdp, id, accepted, r2),
        r2 is Ok,
        m.iq == Some(iq),
        iq.id == id,
        iq.payload is Answer,
    ensures
        on_element(accepted, m).1 == Ok::<StepView, Error>(StepView::ConnectColibri { url }),
{
}

/// The end of a session drops everything that is known of it, in whatever state it is, and says
/// whether there is a channel to stop. Nothing else changes.
pub proof fn law_end_of_session_drops_it(
    c: ConferenceView,
    after: ConferenceView,
    r: Result<StepView, Error>,
)
    requires
        is_sequel(c, ThenView::Terminate, after, r),
    ensures
        after.accept_iq_id is None,
        after.jingle_session_id is None,
        after.remote_description is None,
        after.colibri_url is None,
        !after.colibri_channel,
        after.jid == c.jid && after.config == c.config,
        after.external_services == c.external_services && after.tls_insecure == c.tls_insecure,
        after.participants == c.participants && after.presence == c.presence,
        after.state == c.state && after.send_resolution == c.send_resolution,
        r == Ok::<StepView, Error>(StepView::Terminated { stop_colibri: c.colibri_channel }),
{
}

/// Sources that are added go to the remote description wherever one is kept, in every state of the
/// session, accepted or not: the agent gets a description with the sources added to the one that was
/// kept, and that one is kept now. Without a remote description nothing happens.
pub proof fn law_sources_are_added_in_every_state(
    c: ConferenceView,
    jingle: InboundJingleView,
    after: ConferenceView,
    r: Result<StepView, Error>,
)
    requires
        is_sequel(c, ThenView::AddSources(jingle), after, r),
    ensures
        c.remote_description is None ==> after == c && r == Ok::<StepView, Error>(StepView::Done),
        c.remote_description matches Some(kept) ==> r matches Ok(StepView::SourceAdded { offer })
            && {
            &&& sources_added(sdp_of(kept), jingle.tree).contains(sdp_of(offer))
            &&& sdp_of(offer).attributes == sdp_of(kept).attributes
            &&& sdp_of(kept).sections.is_prefix_of(sdp_of(offer).sections)
            &&& after == ConferenceView { remote_description: Some(offer), ..c }
        },
{
}

/// Sources that are removed are to be taken from the remote description wherever one is kept, in every
/// state of the session. Nothing changes before that is done.
pub proof fn law_sources_are_removed_in_every_state(
    c: ConferenceView,
    jingle: InboundJingleView,
    after: ConferenceView,
    r: Result<StepView, Error>,
)
    requires
        is_sequel(c, ThenView::RemoveSources(jingle), after, r),
    ensures
        after == c,
        c.remote_description is None ==> r == Ok::<StepView, Error>(StepView::Done),
        c.remote_description matches Some(offer) ==> r == Ok::<StepView, Error>(
            StepView::RemoveSources { offer, jingle },
        ),
{
}

/// A room that is entered is awaited from then on, and after an answer nothing follows.
pub proof fn law_entering_awaits_the_room(
    c: ConferenceView,
    then: ThenView,
    after: ConferenceView,
    r: Result<StepView, Error>,
)
    requires
        is_sequel(c, then, after, r),
        then is Enter || then is Nothing,
    ensures
        r == Ok::<StepView, Error>(StepView::Done),
        then is Enter ==> after == (ConferenceView { state: ConferenceState::JoiningMuc, ..c }),
        then is Nothing ==> after == c,
{
}

/// A session that is on offer is accepted in every state of the conference, under its own identifier,
/// from this client to the focus in the room. From then on the answer to that is awaited, and the
/// session is no longer on offer. It fails only for the parties and the description.
pub proof fn law_session_on_offer_is_accepted(
    c: ConferenceView,
    session_id: Seq<char>,
    sdp: SdpView,
    id: Seq<char>,
    after: ConferenceView,
    r: Result<Stanza, Error>,
)
    requires
        c.jingle_session_id == Some(session_id),
        is_acceptance(c, sdp, id, after, r),
    ensures
        ({
            let focus = FullJidView {
                node: c.config.muc.node,
                domain: c.config.muc.domain,
                resource: "focus"@,
            };
            let initiator = JidView::Full(focus).text();
            let responder = JidView::Full(c.jid).text();
            match r {
                Ok(stanza) => {
                    &&& stanza@ matches StanzaView::Iq {
                        from,
                        to,
                        id: iq_id,
                        payload: PayloadView::SessionAccept { jingle },
                    } && from == Some(JidView::Full(c.jid)) && to == Some(JidView::Full(focus))
                        && iq_id == id && is_answer(
                        sdp,
                        session_id,
                        initiator,
                        responder,
                        Ok::<Tree, Error>(jingle),
                    )
                    &&& after == ConferenceView {
                        jingle_session_id: None,
                        accept_iq_id: Some(id),
                        ..c
                    }
                },
                Err(e) => {
                    &&& is_answer(sdp, session_id, initiator, responder, Err::<Tree, Error>(e))
                    &&& e != Error::NoSession
                    &&& after == ConferenceView { jingle_session_id: None, ..c }
                },
            }
        }),
{
}

/// Without a session on offer an acceptance fails, and changes nothing.
pub proof fn law_nothing_is_accepted_without_an_offer(
    c: ConferenceView,
    sdp: SdpView,
    id: Seq<char>,
    after: ConferenceView,
    r: Result<Stanza, Error>,
)
    requires
        c.jingle_session_id is None,
        is_acceptance(c, sdp, id, after, r),
    ensures
        after == c,
        r == Err::<Stanza, Error>(Error::NoSession),
{
}

/// A client is an endpoint of the conference under the head of its node, and in the room under that
/// name. Without a node it is neither.
pub proof fn law_endpoint_is_the_head_of_the_node(
    c: ConferenceView,
    head: Seq<char>,
    rest: Seq<char>,
)
    requires
        !head.contains('-'),
    ensures
        c.jid.node == Some(head) || c.jid.node == Some(head + seq!['-'] + rest) ==> {
            &&& c.endpoint_id() == Ok::<Seq<char>, Error>(head)
            &&& c.jid_in_muc() == Ok::<FullJidView, Error>(
                FullJidView {
                    node: c.config.muc.node,
                    domain: c.config.muc.domain,
                    resource: head,
                },
            )
            &&& c.presence_stanza() == Ok::<StanzaView, Error>(
                StanzaView::Presence {
                    occupant: JidView::Full(
                        FullJidView {
                            node: c.config.muc.node,
                            domain: c.config.muc.domain,
                            resource: head,
                        },
                    ),
                    payloads: c.presence,
                },
            )
        },
        c.jid.node is None ==> {
            &&& c.endpoint_id() == Err::<Seq<char>, Error>(Error::InvalidJid)
            &&& c.jid_in_muc() == Err::<FullJidView, Error>(Error::InvalidJid)
            &&& c.presence_stanza() == Err::<StanzaView, Error>(Error::InvalidJid)
        },
        c.focus_jid_in_muc() == (FullJidView {
            node: c.config.muc.node,
            domain: c.config.muc.domain,
            resource: "focus"@,
        }),
{
    crate::text::law_cut_of_whole(head, '-');
    crate::text::law_cut_of_joined(head, '-', rest);
}

/// An element is for the conference if and only if it is an IQ from the focus, or an IQ or a presence
/// from the room or anyone in it.
pub proof fn law_filter_goes_by_sender_and_kind(c: ConferenceView, tree: Tree)
    ensures
        c.accepts(tree) <==> {
            let iq = tree.name == "iq"@ && tree.ns == "jabber:client"@;
            let presence = tree.name == "presence"@ && tree.ns == "jabber:client"@;
            let from = tree.attrs["from"@];
            &&& tree.attrs.contains_key("from"@)
            &&& (iq && from == c.config.focus.text()) || ((iq || presence) && match jid_of(from) {
                Ok(JidView::Bare(jid)) => jid == c.config.muc,
                Ok(JidView::Full(jid)) => jid.node == c.config.muc.node && jid.domain
                    == c.config.muc.domain,
                Err(_) => false,
            })
        },
{
}

/// What the room is told of muting is named after the media and spelled out, whatever else the
/// presence holds. It stands at the end, in place of every earlier word on that media.
pub proof fn law_muting_is_spelled_out(presence: Seq<Tree>, media: MediaType, muted: bool)
    ensures
        ({
            let after = muted_presence(presence, media, muted);
            let name = if media is Audio {
                "audiomuted"@
            } else {
                "videomuted"@
            };
            &&& after.len() > 0
            &&& after.last() == Tree {
                name,
                ns: "jabber:client"@,
                declares: false,
                attrs: Map::empty(),
                children: seq![
                    Node::Text(
                        if muted {
                            "true"@
                        } else {
                            "false"@
                        },
                    ),
                ],
            }
            &&& after.drop_last() == presence.filter(|t: Tree| t.name != name)
        }),
{
    let after = muted_presence(presence, media, muted);
    assert(after.last().children =~= seq![
        Node::Text(
            if muted {
                "true"@
            } else {
                "false"@
            },
        ),
    ]);
    let name = media.muted_name();
    assert(after.drop_last() =~= presence.filter(|t: Tree| t.name != name));
}

/// A conference begins with nothing known but the connection and the configuration that it was given:
/// nobody in the room, no session, and the focus asked under its JID to open the room of the
/// configuration, with its settings. It fails only for want of a JID.
pub proof fn law_conferences_begin_with_what_was_given(
    connection: ConnectionView,
    config: ConferenceConfigView,
    machine_uid: Seq<char>,
    id: Seq<char>,
    r: Result<Joining, Error>,
)
    requires
        is_joining(connection, config, machine_uid, id, r),
    ensures
        connection.jid is None <==> r is Err,
        r matches Err(e) ==> e == Error::NotConnected,
        r matches Ok(joining) ==> {
            let c = joining.conference@;
            &&& Some(c.jid) == connection.jid
            &&& c.config == config
            &&& c.external_services == connection.external_services
            &&& c.tls_insecure == connection.tls_insecure
            &&& c.state is Discovering
            &&& c.participants.dom() == Set::<Seq<char>>::empty()
            &&& c.presence == initial_presence(config)
            &&& c.send_resolution is None
            &&& c.accept_iq_id is None
            &&& c.jingle_session_id is None
            &&& c.remote_description is None
            &&& c.colibri_url is None
            &&& !c.colibri_channel
            &&& joining.request@ matches StanzaView::Iq {
                from,
                to,
                id: iq_id,
                payload: PayloadView::Conference { machine_uid: uid, room, properties },
            } && {
                &&& from is None && to == Some(config.focus) && iq_id == id
                &&& uid == machine_uid
                &&& room == JidView::Bare(config.muc).text()
                &&& properties == seq![
                    (
                        "stereo"@,
                        if config.stereo {
                            "true"@
                        } else {
                            "false"@
                        },
                    ),
                    ("startBitrate"@, crate::text::decimal(config.start_bitrate as nat)),
                ]
            }
        },
{
    if let Ok(joining) = r {
        assert(joining.conference@.participants.dom() =~= Set::<Seq<char>>::empty());
    }
}

/// A room of any name under any domain is looked for at its place there, and its focus at its own. The
/// rest of the configuration does not depend on either. It fails only where one of the two places is
/// not a JID, the room first.
pub proof fn law_rooms_are_found_by_name_and_domain(
    domain: BareJidView,
    room: Seq<char>,
    nick: Seq<char>,
)
    ensures
        ({
            let muc = jid_of(room + "@conference."@ + JidView::Bare(domain).text());
            let focus = jid_of("focus@auth."@ + JidView::Bare(domain).text() + "/focus"@);
            let r = room_config(domain, room, nick);
            &&& muc matches Err(e) ==> r == Err::<ConferenceConfigView, Error>(Error::InvalidRoom(e))
            &&& muc is Ok && focus is Err ==> r == Err::<ConferenceConfigView, Error>(
                Error::InvalidFocus(focus->Err_0),
            )
            &&& muc is Ok && focus is Ok ==> r is Ok
            &&& r matches Ok(config) ==> {
                &&& match muc->Ok_0 {
                    JidView::Bare(jid) => config.muc == jid,
                    JidView::Full(jid) => config.muc.node == jid.node && config.muc.domain
                        == jid.domain,
                }
                &&& config.focus == focus->Ok_0
                &&& config.nick == nick
                &&& config.region is None
                &&& config.video_codec == "vp9"@
                &&& config.extra_muc_features.len() == 0
                &&& config.start_bitrate == 800
                &&& !config.stereo
            }
        }),
{
}

} // verus!
