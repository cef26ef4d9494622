//! A conference: how its room is entered, who is in it, and the sessions that its focus offers.
use jitsi_jingle_sdp::SessionDescription;
use vstd::hash_map::StringHashMap;
use vstd::prelude::*;
use xmpp_parsers::Element;

use crate::connection::{Connection, ConnectionView};
use crate::disco::{
    computed_caps_hash, computed_ecaps2_hash, disco_node, feature_element, feature_tree, own_caps,
    own_ecaps2,
};
use crate::element::{
    attr, attr_name, built_trees, copy_all, is_named, leaf, tree_of, Built, Tree,
};
use crate::error::Error;
use crate::extdisco::{service_views, Service, ServiceView};
use crate::inbound::{
    inbound_of, opt_view, read_inbound, Inbound, InboundIq, InboundIqView, InboundJingle,
    InboundJingleView, InboundPayload, InboundPayloadView, InboundPresence, InboundPresenceView,
    InboundView, Item, ItemView, JingleView, Transport,
    TransportView,
};
use crate::jid::{jid_of, opt_full, BareJid, BareJidView, FullJid, FullJidView, Jid, JidView};
use crate::sdp::{
    copy_sdp, is_answer, offers_of, sdp_of, session_accept, sources_added, SdpView,
};
use crate::stanza::{Payload, PayloadView, Stanza, StanzaView};
use crate::text::{
    before, bool_to_string, concat, copy_opt, cut, decimal, opt, same, spelled, split_once,
    u32_to_string,
};
use crate::util::{generate_id, is_uuid};

verus! {

/// A kind of media that a participant can mute.
#[derive(Clone, Copy, Debug, PartialEq, Eq, Structural)]
pub enum MediaType {
    Audio,
    Video,
}

impl MediaType {
    /// The name of the element that tells in a presence whether the media is muted.
    pub open spec fn muted_name(self) -> Seq<char> {
        match self {
            MediaType::Audio => "audiomuted"@,
            MediaType::Video => "videomuted"@,
        }
    }

    /// The name of the element that tells in a presence whether the media is muted.
    pub fn jitsi_muted_presence_element_name(&self) -> (r: &'static str)
        ensures
            r@ == self.muted_name(),
    {
        match self {
            MediaType::Audio => "audiomuted",
            MediaType::Video => "videomuted",
        }
    }
}

/// What a conference is to be like.
#[derive(Debug)]
pub struct ConferenceConfig {
    /// The room.
    pub muc: BareJid,
    /// The focus that opens the room.
    pub focus: Jid,
    pub nick: String,
    pub region: Option<String>,
    pub video_codec: String,
    pub extra_muc_features: Vec<String>,
    pub start_bitrate: u32,
    pub stereo: bool,
}

pub struct ConferenceConfigView {
    pub muc: BareJidView,
    pub focus: JidView,
    pub nick: Seq<char>,
    pub region: Option<Seq<char>>,
    pub video_codec: Seq<char>,
    pub extra_muc_features: Seq<Seq<char>>,
    pub start_bitrate: u32,
    pub stereo: bool,
}

impl View for ConferenceConfig {
    type V = ConferenceConfigView;

    open spec fn view(&self) -> ConferenceConfigView {
        ConferenceConfigView {
            muc: self.muc@,
            focus: self.focus@,
            nick: self.nick@,
            region: opt(self.region),
            video_codec: self.video_codec@,
            extra_muc_features: self.extra_muc_features@.map_values(|f: String| f@),
            start_bitrate: self.start_bitrate,
            stereo: self.stereo,
        }
    }
}

impl Clone for ConferenceConfig {
    fn clone(&self) -> (r: ConferenceConfig)
        ensures
            r@ == self@,
    {
        let r = ConferenceConfig {
            muc: self.muc.clone(),
            focus: self.focus.clone(),
            nick: self.nick.clone(),
            region: copy_opt(&self.region),
            video_codec: self.video_codec.clone(),
            extra_muc_features: self.extra_muc_features.clone(),
            start_bitrate: self.start_bitrate,
            stereo: self.stereo,
        };
        assert(r@.extra_muc_features =~= self@.extra_muc_features);
        r
    }
}

/// Somebody else in the room.
#[derive(Debug)]
pub struct Participant {
    pub jid: Option<FullJid>,
    /// The JID of the participant in the room.
    pub muc_jid: FullJid,
    pub nick: Option<String>,
}

pub struct ParticipantView {
    pub jid: Option<FullJidView>,
    pub muc_jid: FullJidView,
    pub nick: Option<Seq<char>>,
}

impl View for Participant {
    type V = ParticipantView;

    open spec fn view(&self) -> ParticipantView {
        ParticipantView { jid: opt_full(self.jid), muc_jid: self.muc_jid@, nick: opt(self.nick) }
    }
}

impl Clone for Participant {
    fn clone(&self) -> (r: Participant)
        ensures
            r@ == self@,
    {
        Participant {
            jid: match &self.jid {
                Some(jid) => Some(jid.clone()),
                None => None,
            },
            muc_jid: self.muc_jid.clone(),
            nick: copy_opt(&self.nick),
        }
    }
}

/// How far a conference has come.
#[derive(Clone, Copy, Debug, PartialEq, Eq, Structural)]
pub enum ConferenceState {
    /// The focus was asked to open the room.
    Discovering,
    /// The room was entered, and its word on that is awaited.
    JoiningMuc,
    /// The conference is joined.
    Idle,
}

/// A conference.
pub struct Conference {
    jid: FullJid,
    config: ConferenceConfig,
    external_services: Vec<Service>,
    tls_insecure: bool,
    participants: StringHashMap<Participant>,
    presence: Vec<Built>,
    state: ConferenceState,
    send_resolution: Option<i32>,
    accept_iq_id: Option<String>,
    jingle_session_id: Option<String>,
    remote_description: Option<SessionDescription>,
    colibri_url: Option<String>,
    colibri_channel: bool,
}

pub struct ConferenceView {
    /// The JID of this client.
    pub jid: FullJidView,
    pub config: ConferenceConfigView,
    pub external_services: Seq<ServiceView>,
    pub tls_insecure: bool,
    /// The other participants, by their resource in the room.
    pub participants: Map<Seq<char>, ParticipantView>,
    /// What this client tells the room of itself.
    pub presence: Seq<Tree>,
    pub state: ConferenceState,
    pub send_resolution: Option<i32>,
    /// The identifier of the IQ that accepted the session, until it is acknowledged.
    pub accept_iq_id: Option<Seq<char>>,
    /// The session that is on offer, until it is accepted.
    pub jingle_session_id: Option<Seq<char>>,
    pub remote_description: Option<SessionDescription>,
    pub colibri_url: Option<Seq<char>>,
    /// Whether a Colibri channel is open.
    pub colibri_channel: bool,
}

/// Participants, seen through their views.
pub open spec fn participant_views(participants: Map<Seq<char>, Participant>) -> Map<
    Seq<char>,
    ParticipantView,
> {
    participants.map_values(|p: Participant| p@)
}

impl View for Conference {
    type V = ConferenceView;

    closed spec fn view(&self) -> ConferenceView {
        ConferenceView {
            jid: self.jid@,
            config: self.config@,
            external_services: service_views(self.external_services@),
            tls_insecure: self.tls_insecure,
            participants: participant_views(self.participants@),
            presence: built_trees(self.presence@),
            state: self.state,
            send_resolution: self.send_resolution,
            accept_iq_id: opt(self.accept_iq_id),
            jingle_session_id: opt(self.jingle_session_id),
            remote_description: self.remote_description,
            colibri_url: opt(self.colibri_url),
            colibri_channel: self.colibri_channel,
        }
    }
}

/// A change in who is in the room.
pub enum ParticipantEvent {
    Joined(Participant),
    Left(Participant),
}

pub enum ParticipantEventView {
    Joined(ParticipantView),
    Left(ParticipantView),
}

impl View for ParticipantEvent {
    type V = ParticipantEventView;

    open spec fn view(&self) -> ParticipantEventView {
        match self {
            ParticipantEvent::Joined(p) => ParticipantEventView::Joined(p@),
            ParticipantEvent::Left(p) => ParticipantEventView::Left(p@),
        }
    }
}

/// What to go on with once a stanza is sent.
pub enum Then {
    Nothing,
    /// The room is being entered.
    Enter,
    /// The session that was offered is taken up.
    Initiate(InboundJingle),
    /// The session is dropped.
    Terminate,
    /// The sources are added to the session.
    AddSources(InboundJingle),
    /// The sources are removed from the session.
    RemoveSources(InboundJingle),
}

pub enum ThenView {
    Nothing,
    Enter,
    Initiate(InboundJingleView),
    Terminate,
    AddSources(InboundJingleView),
    RemoveSources(InboundJingleView),
}

impl View for Then {
    type V = ThenView;

    open spec fn view(&self) -> ThenView {
        match self {
            Then::Nothing => ThenView::Nothing,
            Then::Enter => ThenView::Enter,
            Then::Initiate(jingle) => ThenView::Initiate(jingle@),
            Then::Terminate => ThenView::Terminate,
            Then::AddSources(jingle) => ThenView::AddSources(jingle@),
            Then::RemoveSources(jingle) => ThenView::RemoveSources(jingle@),
        }
    }
}

/// What a conference needs done next.
pub enum Step {
    Done,
    /// Send the stanza, and then call [`Conference::sent`].
    Send { stanza: Stanza, then: Then },
    /// Tell whoever waits for it that the conference is joined.
    Joined,
    /// Hand the offer to the agent, and then call [`Conference::offer_answered`].
    Offer { offer: SessionDescription },
    /// Tell the agent that sources were added.
    SourceAdded { offer: SessionDescription },
    /// Remove the sources from the offer, call [`Conference::sources_removed`], and hand the offer
    /// to the agent.
    RemoveSources { offer: SessionDescription, jingle: InboundJingle },
    /// Tell the agent that the session is over, after the Colibri channel was stopped where there
    /// is one.
    Terminated { stop_colibri: bool },
    /// Open a Colibri channel, and then call [`Conference::colibri_opened`].
    ConnectColibri { url: String },
    /// Tell the agent who came and who left, in this order.
    Participants { events: Vec<ParticipantEvent> },
}

pub enum StepView {
    Done,
    Send { stanza: StanzaView, then: ThenView },
    Joined,
    Offer { offer: SessionDescription },
    SourceAdded { offer: SessionDescription },
    RemoveSources { offer: SessionDescription, jingle: InboundJingleView },
    Terminated { stop_colibri: bool },
    ConnectColibri { url: Seq<char> },
    Participants { events: Seq<ParticipantEventView> },
}

/// Events, seen through their views.
pub open spec fn event_views(events: Seq<ParticipantEvent>) -> Seq<ParticipantEventView> {
    events.map_values(|e: ParticipantEvent| e@)
}

impl View for Step {
    type V = StepView;

    open spec fn view(&self) -> StepView {
        match self {
            Step::Done => StepView::Done,
            Step::Send { stanza, then } => StepView::Send { stanza: stanza@, then: then@ },
            Step::Joined => StepView::Joined,
            Step::Offer { offer } => StepView::Offer { offer: *offer },
            Step::SourceAdded { offer } => StepView::SourceAdded { offer: *offer },
            Step::RemoveSources { offer, jingle } => StepView::RemoveSources {
                offer: *offer,
                jingle: jingle@,
            },
            Step::Terminated { stop_colibri } => StepView::Terminated {
                stop_colibri: *stop_colibri,
            },
            Step::ConnectColibri { url } => StepView::ConnectColibri { url: url@ },
            Step::Participants { events } => StepView::Participants {
                events: event_views(events@),
            },
        }
    }
}

/// The result of a step, seen through its view.
pub open spec fn outcome(r: Result<Step, Error>) -> Result<StepView, Error> {
    match r {
        Ok(step) => Ok(step@),
        Err(e) => Err(e),
    }
}

/// An element of a presence that holds nothing but text.
pub open spec fn text_leaf(name: Seq<char>, text: Seq<char>) -> Tree {
    leaf(name, "jabber:client"@).with_text(text)
}

/// The announcement of the capability hash.
pub open spec fn caps_tree() -> Tree {
    leaf("c"@, "http://jabber.org/protocol/caps"@).with_attr("hash"@, "sha-1"@).with_attr(
        "node"@,
        disco_node(),
    ).with_attr("ver"@, own_caps())
}

/// The announcement of the second kind of capability hash.
pub open spec fn ecaps2_tree() -> Tree {
    leaf("c"@, "urn:xmpp:caps"@).with_child(
        leaf("hash"@, "urn:xmpp:hashes:2"@).with_attr("algo"@, "sha-256"@).with_text(own_ecaps2()),
    )
}

/// What a client says of its region.
pub open spec fn region_trees(region: Option<Seq<char>>) -> Seq<Tree> {
    match region {
        Some(region) => seq![
            text_leaf("jitsi_participant_region"@, region),
            leaf("region"@, "http://jitsi.org/jitsi-meet"@).with_attr("id"@, region),
        ],
        None => Seq::empty(),
    }
}

/// What a client tells the room of itself when it enters: nothing is muted.
pub open spec fn initial_presence(config: ConferenceConfigView) -> Seq<Tree> {
    seq![
        leaf("x"@, "http://jabber.org/protocol/muc"@),
        caps_tree(),
        ecaps2_tree(),
        text_leaf("stats-id"@, "lib-jitsi-meet-rs"@),
        text_leaf("jitsi_participant_codecType"@, config.video_codec),
        text_leaf("audiomuted"@, "false"@),
        text_leaf("videomuted"@, "false"@),
        leaf("nick"@, "http://jabber.org/protocol/nick"@).with_text(config.nick),
    ] + region_trees(config.region) + config.extra_muc_features.map_values(
        |var: Seq<char>| feature_tree(var),
    )
}

/// A presence after the media was muted or unmuted: the word on it comes last, and only once.
pub open spec fn muted_presence(presence: Seq<Tree>, media: MediaType, muted: bool) -> Seq<Tree> {
    presence.filter(|t: Tree| t.name != media.muted_name()).push(
        text_leaf(media.muted_name(), spelled(muted)),
    )
}

/// The request to the focus to open the room.
pub open spec fn room_request(
    config: ConferenceConfigView,
    machine_uid: Seq<char>,
    id: Seq<char>,
) -> StanzaView {
    StanzaView::Iq {
        from: None,
        to: Some(config.focus),
        id,
        payload: PayloadView::Conference {
            machine_uid,
            room: config.muc.text(),
            properties: seq![
                ("stereo"@, spelled(config.stereo)),
                ("startBitrate"@, decimal(config.start_bitrate as nat)),
            ],
        },
    }
}

impl ConferenceView {
    /// The endpoint of this client: what stands before the first hyphen of its node, or all of the
    /// node.
    pub open spec fn endpoint_id(self) -> Result<Seq<char>, Error> {
        match self.jid.node {
            Some(node) => Ok(before(node, '-')),
            None => Err(Error::InvalidJid),
        }
    }

    /// The JID of this client in the room.
    pub open spec fn jid_in_muc(self) -> Result<FullJidView, Error> {
        match self.endpoint_id() {
            Ok(id) => Ok(self.config.muc.with_resource(id)),
            Err(e) => Err(e),
        }
    }

    /// The JID of the focus in the room.
    pub open spec fn focus_jid_in_muc(self) -> FullJidView {
        self.config.muc.with_resource("focus"@)
    }

    /// What this client tells the room of itself.
    pub open spec fn presence_stanza(self) -> Result<StanzaView, Error> {
        match self.jid_in_muc() {
            Ok(jid) => Ok(
                StanzaView::Presence { occupant: JidView::Full(jid), payloads: self.presence },
            ),
            Err(e) => Err(e),
        }
    }

    /// Whether an element is for the conference: an IQ from the focus, or an IQ or a presence from
    /// the room or anyone in it.
    pub open spec fn accepts(self, tree: Tree) -> bool {
        match tree.attr("from"@) {
            None => false,
            Some(from) => {
                ||| from == self.config.focus.text() && tree.is("iq"@, "jabber:client"@)
                ||| {
                    &&& jid_of(from) matches Ok(jid) && jid.bare() == self.config.muc
                    &&& tree.is("presence"@, "jabber:client"@) || tree.is("iq"@, "jabber:client"@)
                }
            },
        }
    }

    /// An answer to an IQ.
    pub open spec fn reply(
        self,
        to: Option<JidView>,
        id: Seq<char>,
        payload: PayloadView,
    ) -> StanzaView {
        StanzaView::Iq { from: Some(JidView::Full(self.jid)), to, id, payload }
    }

    /// Whether everyone who is in the room is there under the right name, as somebody else than
    /// this client and the focus.
    pub open spec fn wf(self) -> bool {
        forall|k: Seq<char>| #[trigger]
            self.participants.contains_key(k) ==> {
                let p = self.participants[k];
                &&& p.muc_jid == self.config.muc.with_resource(k)
                &&& k != "focus"@
                &&& p.jid is Some
                &&& p.jid != Some(self.jid)
            }
    }
}

/// What a question for identities and features at a node is answered with. The node that the
/// capability hash is announced under exists; every other does not.
pub open spec fn disco_reply(node: Option<Seq<char>>) -> PayloadView {
    match node {
        None => PayloadView::DiscoInfo { node: None },
        Some(node) => if cut(node, '#') == Some((disco_node(), own_caps())) {
            PayloadView::DiscoInfo { node: Some(node) }
        } else {
            PayloadView::ItemNotFound { text: "Unknown disco#info node: "@ + node }
        },
    }
}

/// Whether an IQ can be answered where an answer is owed: a question has to name its sender.
pub open spec fn answerable(c: ConferenceView, m: InboundView) -> bool {
    match (c.state, m.iq) {
        (ConferenceState::Idle, Some(iq)) => match iq.payload {
            InboundPayloadView::Query { query: Some(_) } => iq.from is Some,
            _ => true,
        },
        _ => true,
    }
}

/// The answer of the focus: the room has to be ready.
pub open spec fn on_discovering(c: ConferenceView, m: InboundView) -> Result<StepView, Error> {
    match m.iq {
        None => Err(Error::NotIq),
        Some(iq) => match iq.payload {
            InboundPayloadView::Answer { conference: Some(answer) } => match answer.ready {
                None => Err(Error::MissingReady),
                Some(ready) => if ready == "true"@ {
                    match c.presence_stanza() {
                        Ok(stanza) => Ok(StepView::Send { stanza, then: ThenView::Enter }),
                        Err(e) => Err(e),
                    }
                } else if ready == "false"@ {
                    Err(Error::RoomNotReady)
                } else {
                    Err(Error::InvalidReady)
                },
            },
            _ => Err(Error::FocusFailed),
        },
    }
}

/// The word of the room that this client has entered.
pub open spec fn on_joining(c: ConferenceView, m: InboundView) -> (
    ConferenceView,
    Result<StepView, Error>,
) {
    match m.presence {
        None => (c, Err(Error::NotPresence)),
        Some(presence) => match presence.muc_user {
            None => (c, Ok(StepView::Done)),
            Some(None) => (c, Err(Error::NotMucUser)),
            Some(Some(muc_user)) => if muc_user.statuses.contains("110"@) {
                (ConferenceView { state: ConferenceState::Idle, ..c }, Ok(StepView::Joined))
            } else {
                (c, Ok(StepView::Done))
            },
        },
    }
}

/// What a message of the session protocol leads to: an acknowledgement to its sender, and then what
/// it asks for. Only the focus can begin and end a session.
pub open spec fn on_jingle(
    c: ConferenceView,
    from: FullJidView,
    id: Seq<char>,
    jingle: InboundJingleView,
) -> StepView {
    let stanza = c.reply(Some(JidView::Full(from)), id, PayloadView::Empty);
    let action = jingle.jingle.action;
    if action == "session-initiate"@ {
        if from.resource == "focus"@ {
            StepView::Send { stanza, then: ThenView::Initiate(jingle) }
        } else {
            StepView::Done
        }
    } else if action == "session-terminate"@ {
        if from.resource == "focus"@ {
            StepView::Send { stanza, then: ThenView::Terminate }
        } else {
            StepView::Done
        }
    } else if action == "source-add"@ {
        StepView::Send { stanza, then: ThenView::AddSources(jingle) }
    } else if action == "source-remove"@ {
        StepView::Send { stanza, then: ThenView::RemoveSources(jingle) }
    } else {
        StepView::Done
    }
}

/// What an IQ leads to once the conference is joined.
pub open spec fn on_iq(c: ConferenceView, iq: InboundIqView) -> (ConferenceView, StepView) {
    match iq.payload {
        InboundPayloadView::Query { query: Some(query) } => (
            c,
            StepView::Send {
                stanza: c.reply(iq.from, iq.id, disco_reply(query.node)),
                then: ThenView::Nothing,
            },
        ),
        InboundPayloadView::Query { query: None } => (c, StepView::Done),
        InboundPayloadView::Command { jingle: Some(jingle) } => match iq.from {
            Some(JidView::Full(from)) => (c, on_jingle(c, from, iq.id, jingle)),
            _ => (c, StepView::Done),
        },
        InboundPayloadView::Command { jingle: None } => (c, StepView::Done),
        InboundPayloadView::Answer { .. } => if c.accept_iq_id == Some(iq.id) {
            (
                ConferenceView { accept_iq_id: None, ..c },
                match c.colibri_url {
                    Some(url) => StepView::ConnectColibri { url },
                    None => StepView::Done,
                },
            )
        } else {
            (c, StepView::Done)
        },
        InboundPayloadView::Failure => (c, StepView::Done),
    }
}

/// What one item of a presence from the room changes: who is told of with a JID, and is not this
/// client, comes or leaves.
pub open spec fn on_item(
    participants: Map<Seq<char>, ParticipantView>,
    own: FullJidView,
    presence: InboundPresenceView,
    from: FullJidView,
    item: ItemView,
) -> (Map<Seq<char>, ParticipantView>, Option<ParticipantEventView>) {
    match item.jid {
        None => (participants, None),
        Some(jid) => if jid == own {
            (participants, None)
        } else {
            let participant = ParticipantView {
                jid: Some(jid),
                muc_jid: from,
                nick: match (item.nick, presence.nick) {
                    (Some(nick), _) => Some(nick),
                    (None, Some(nick)) => nick,
                    (None, None) => None,
                },
            };
            let there = participants.contains_key(from.resource);
            if presence.unavailable {
                (
                    participants.remove(from.resource),
                    if there {
                        Some(ParticipantEventView::Left(participant))
                    } else {
                        None
                    },
                )
            } else {
                (
                    participants.insert(from.resource, participant),
                    if there {
                        None
                    } else {
                        Some(ParticipantEventView::Joined(participant))
                    },
                )
            }
        },
    }
}

/// What the items of a presence from the room change, one after the other.
pub open spec fn on_items(
    participants: Map<Seq<char>, ParticipantView>,
    own: FullJidView,
    presence: InboundPresenceView,
    from: FullJidView,
    items: Seq<ItemView>,
) -> (Map<Seq<char>, ParticipantView>, Seq<ParticipantEventView>)
    decreases items.len(),
{
    if items.len() == 0 {
        (participants, Seq::empty())
    } else {
        let (before, events) = on_items(participants, own, presence, from, items.drop_last());
        let (after, event) = on_item(before, own, presence, from, items.last());
        (
            after,
            match event {
                Some(event) => events.push(event),
                None => events,
            },
        )
    }
}

/// What a presence leads to once the conference is joined. Only presences of occupants of the room
/// count, and not that of the focus.
pub open spec fn on_presence(c: ConferenceView, presence: InboundPresenceView) -> (
    ConferenceView,
    Result<StepView, Error>,
) {
    match presence.from {
        None => (c, Err(Error::MissingFrom)),
        Some(JidView::Bare(_)) => (c, Ok(StepView::Done)),
        Some(JidView::Full(from)) => if from.bare() != c.config.muc || from.resource == "focus"@ {
            (c, Ok(StepView::Done))
        } else if presence.nick == Some(None::<Seq<char>>) {
            (c, Err(Error::NotNick))
        } else {
            match presence.muc_user {
                None => (c, Ok(StepView::Done)),
                Some(None) => (c, Err(Error::NotMucUser)),
                Some(Some(muc_user)) => {
                    let (participants, events) = on_items(
                        c.participants,
                        c.jid,
                        presence,
                        from,
                        muc_user.items,
                    );
                    (
                        ConferenceView { participants, ..c },
                        Ok(StepView::Participants { events }),
                    )
                },
            }
        },
    }
}

/// What an element leads to.
pub open spec fn on_inbound(c: ConferenceView, m: InboundView) -> (
    ConferenceView,
    Result<StepView, Error>,
) {
    match c.state {
        ConferenceState::Discovering => (c, on_discovering(c, m)),
        ConferenceState::JoiningMuc => on_joining(c, m),
        ConferenceState::Idle => match (m.iq, m.presence) {
            (Some(iq), _) => {
                let (after, step) = on_iq(c, iq);
                (after, Ok(step))
            },
            (None, Some(presence)) => on_presence(c, presence),
            (None, None) => (c, Ok(StepView::Done)),
        },
    }
}

/// What an element leads to, where a question need not name its sender: one that does not is refused.
pub open spec fn on_element(c: ConferenceView, m: InboundView) -> (
    ConferenceView,
    Result<StepView, Error>,
) {
    if answerable(c, m) {
        on_inbound(c, m)
    } else {
        (c, Err(Error::MissingSender))
    }
}

/// The conference once a session that was offered is known. The URL of the Colibri channel is that
/// of the first content, where it has an ICE transport.
pub open spec fn with_session(c: ConferenceView, jingle: JingleView) -> ConferenceView {
    ConferenceView {
        jingle_session_id: Some(jingle.sid),
        colibri_url: if jingle.contents.len() > 0 {
            match jingle.contents[0].transport {
                Some(TransportView::IceUdp(ice_udp)) => ice_udp.web_socket,
                _ => c.colibri_url,
            }
        } else {
            c.colibri_url
        },
        ..c
    }
}

/// The conference once its session is over.
pub open spec fn without_session(c: ConferenceView) -> ConferenceView {
    ConferenceView {
        accept_iq_id: None,
        jingle_session_id: None,
        remote_description: None,
        colibri_url: None,
        colibri_channel: false,
        ..c
    }
}

/// Whether `after` and `r` are what follows once a stanza is sent.
pub open spec fn is_sequel(
    c: ConferenceView,
    then: ThenView,
    after: ConferenceView,
    r: Result<StepView, Error>,
) -> bool {
    match then {
        ThenView::Nothing => after == c && r == Ok::<StepView, Error>(StepView::Done),
        ThenView::Enter => {
            &&& after == ConferenceView { state: ConferenceState::JoiningMuc, ..c }
            &&& r == Ok::<StepView, Error>(StepView::Done)
        },
        ThenView::Initiate(jingle) => {
            &&& after == with_session(c, jingle.jingle)
            &&& match r {
                Ok(StepView::Offer { offer }) => offers_of(jingle.tree).contains(sdp_of(offer)),
                Ok(_) => false,
                Err(e) => e == Error::InvalidJingle && offers_of(jingle.tree) == Set::<
                    SdpView,
                >::empty(),
            }
        },
        ThenView::Terminate => {
            &&& after == without_session(c)
            &&& r == Ok::<StepView, Error>(StepView::Terminated { stop_colibri: c.colibri_channel })
        },
        ThenView::AddSources(jingle) => match c.remote_description {
            None => after == c && r == Ok::<StepView, Error>(StepView::Done),
            Some(sdp) => r matches Ok(StepView::SourceAdded { offer }) && {
                &&& after == ConferenceView { remote_description: Some(offer), ..c }
                &&& sources_added(sdp_of(sdp), jingle.tree).contains(sdp_of(offer))
                &&& sdp_of(offer).attributes == sdp_of(sdp).attributes
                &&& sdp_of(sdp).sections.is_prefix_of(sdp_of(offer).sections)
            },
        },
        ThenView::RemoveSources(jingle) => {
            &&& after == c
            &&& match c.remote_description {
                None => r == Ok::<StepView, Error>(StepView::Done),
                Some(offer) => r == Ok::<StepView, Error>(
                    StepView::RemoveSources { offer, jingle },
                ),
            }
        },
    }
}

fn text_element(name: &str, text: &str) -> (r: Built)
    ensures
        r@ == text_leaf(name@, text@),
{
    Built::new(name, "jabber:client").text(text)
}

/// The attribute names in use here are ones that XML takes.
proof fn lemma_attr_names()
    ensures
        attr_name("hash"@),
        attr_name("node"@),
        attr_name("ver"@),
        attr_name("algo"@),
        attr_name("id"@),
{
    reveal_strlit("hash");
    reveal_strlit("node");
    reveal_strlit("ver");
    reveal_strlit("algo");
    reveal_strlit("id");
}

/// The conference in the room of this name, with the defaults for everything else. The room and the
/// focus have fixed places under the domain.
pub open spec fn room_config(domain: BareJidView, room: Seq<char>, nick: Seq<char>) -> Result<
    ConferenceConfigView,
    Error,
> {
    match (
        jid_of(room + "@conference."@ + domain.text()),
        jid_of("focus@auth."@ + domain.text() + "/focus"@),
    ) {
        (Err(e), _) => Err(Error::InvalidRoom(e)),
        (Ok(_), Err(e)) => Err(Error::InvalidFocus(e)),
        (Ok(muc), Ok(focus)) => Ok(
            ConferenceConfigView {
                muc: muc.bare(),
                focus,
                nick,
                region: None,
                video_codec: "vp9"@,
                extra_muc_features: Seq::empty(),
                start_bitrate: 800,
                stereo: false,
            },
        ),
    }
}

impl ConferenceConfig {
    /// The conference in the room of this name, with the defaults for everything else.
    pub fn for_room(domain: &BareJid, room: &str, nick: &str) -> (r: Result<ConferenceConfig, Error>)
        ensures
            (match r {
                Ok(config) => room_config(domain@, room@, nick@) == Ok::<
                    ConferenceConfigView,
                    Error,
                >(config@),
                Err(e) => room_config(domain@, room@, nick@) == Err::<ConferenceConfigView, Error>(
                    e,
                ),
            }),
    {
        let domain = domain.to_string();
        let mut muc = concat(room, "@conference.");
        muc.append(domain.as_str());
        let muc = match BareJid::parse(muc.as_str()) {
            Ok(jid) => jid,
            Err(e) => {
                return Err(Error::InvalidRoom(e));
            },
        };
        let mut focus = concat("focus@auth.", domain.as_str());
        focus.append("/focus");
        let focus = match Jid::parse(focus.as_str()) {
            Ok(jid) => jid,
            Err(e) => {
                return Err(Error::InvalidFocus(e));
            },
        };
        let extra_muc_features: Vec<String> = Vec::new();
        assert(extra_muc_features@.map_values(|f: String| f@) =~= Seq::empty());
        Ok(
            ConferenceConfig {
                muc,
                focus,
                nick: nick.to_owned(),
                region: None,
                video_codec: "vp9".to_owned(),
                extra_muc_features,
                start_bitrate: 800,
                stereo: false,
            },
        )
    }

    /// What this client tells the room of itself when it enters.
    pub fn initial_presence(&self) -> (r: Vec<Built>)
        ensures
            built_trees(r@) == initial_presence(self@),
    {
        proof {
            lemma_attr_names();
        }
        let mut presence: Vec<Built> = Vec::new();
        presence.push(Built::new("x", "http://jabber.org/protocol/muc"));
        presence.push(
            Built::new("c", "http://jabber.org/protocol/caps").attr("hash", "sha-1").attr(
                "node",
                "https://github.com/avstack/lib-jitsi-meet-rs",
            ).attr("ver", computed_caps_hash().as_str()),
        );
        presence.push(
            Built::new("c", "urn:xmpp:caps").child(
                Built::new("hash", "urn:xmpp:hashes:2").attr("algo", "sha-256").text(
                    computed_ecaps2_hash().as_str(),
                ),
            ),
        );
        presence.push(text_element("stats-id", "lib-jitsi-meet-rs"));
        presence.push(text_element("jitsi_participant_codecType", self.video_codec.as_str()));
        presence.push(text_element("audiomuted", "false"));
        presence.push(text_element("videomuted", "false"));
        presence.push(
            Built::new("nick", "http://jabber.org/protocol/nick").text(self.nick.as_str()),
        );
        if let Some(region) = &self.region {
            presence.push(text_element("jitsi_participant_region", region.as_str()));
            presence.push(
                Built::new("region", "http://jitsi.org/jitsi-meet").attr("id", region.as_str()),
            );
        }
        let ghost head = built_trees(presence@);
        let ghost features = self@.extra_muc_features.map_values(
            |var: Seq<char>| feature_tree(var),
        );
        assert(built_trees(presence@) =~= head + features.take(0));
        for i in 0..self.extra_muc_features.len()
            invariant
                features == self@.extra_muc_features.map_values(
                    |var: Seq<char>| feature_tree(var),
                ),
                built_trees(presence@) == head + features.take(i as int),
        {
            let ghost before = presence@;
            presence.push(feature_element(self.extra_muc_features[i].as_str()));
            assert(built_trees(presence@) =~= built_trees(before).push(features[i as int]));
            assert(features.take(i + 1) =~= features.take(i as int).push(features[i as int]));
            assert(built_trees(presence@) =~= head + features.take(i + 1));
        }
        assert(features.take(self.extra_muc_features.len() as int) =~= features);
        assert(built_trees(presence@) =~= initial_presence(self@));
        presence
    }
}

/// A conference that is about to ask its focus to open the room.
pub struct Joining {
    pub conference: Conference,
    pub request: Stanza,
}

/// A conference as it is made, over a connection with this JID.
pub open spec fn new_conference(
    c: ConnectionView,
    jid: FullJidView,
    config: ConferenceConfigView,
) -> ConferenceView {
    ConferenceView {
        jid,
        config,
        external_services: c.external_services,
        tls_insecure: c.tls_insecure,
        participants: Map::empty(),
        presence: initial_presence(config),
        state: ConferenceState::Discovering,
        send_resolution: None,
        accept_iq_id: None,
        jingle_session_id: None,
        remote_description: None,
        colibri_url: None,
        colibri_channel: false,
    }
}

/// What joining a conference consists of, or why it cannot be joined.
pub open spec fn is_joining(
    c: ConnectionView,
    config: ConferenceConfigView,
    machine_uid: Seq<char>,
    id: Seq<char>,
    r: Result<Joining, Error>,
) -> bool {
    match c.jid {
        None => r == Err::<Joining, Error>(Error::NotConnected),
        Some(jid) => match r {
            Ok(joining) => {
                &&& joining.request@ == room_request(config, machine_uid, id)
                &&& joining.conference@ == new_conference(c, jid, config)
            },
            Err(_) => false,
        },
    }
}

impl Conference {
    /// A conference that joins under these identifiers.
    pub fn create(
        connection: &Connection,
        config: ConferenceConfig,
        machine_uid: String,
        id: String,
    ) -> (r: Result<Joining, Error>)
        ensures
            is_joining(connection@, config@, machine_uid@, id@, r),
            r is Ok ==> r->Ok_0.conference@.wf(),
    {
        let jid = match connection.jid() {
            Some(jid) => jid,
            None => {
                return Err(Error::NotConnected);
            },
        };
        let mut properties: Vec<(String, String)> = Vec::new();
        properties.push(("stereo".to_owned(), bool_to_string(config.stereo)));
        properties.push(("startBitrate".to_owned(), u32_to_string(config.start_bitrate)));
        assert(crate::stanza::pairs(properties@) =~= seq![
            ("stereo"@, spelled(config.stereo)),
            ("startBitrate"@, decimal(config.start_bitrate as nat)),
        ]);
        let request = Stanza::Iq {
            from: None,
            to: Some(config.focus.clone()),
            id,
            payload: Payload::Conference { machine_uid, room: config.muc.to_string(), properties },
        };
        let participants: StringHashMap<Participant> = StringHashMap::new();
        assert(participant_views(participants@) =~= Map::empty());
        let presence = config.initial_presence();
        let conference = Conference {
            jid,
            config,
            external_services: connection.external_services(),
            tls_insecure: connection.tls_insecure(),
            participants,
            presence,
            state: ConferenceState::Discovering,
            send_resolution: None,
            accept_iq_id: None,
            jingle_session_id: None,
            remote_description: None,
            colibri_url: None,
            colibri_channel: false,
        };
        Ok(Joining { conference, request })
    }

    /// A conference that joins under fresh identifiers.
    pub fn new(connection: &Connection, config: ConferenceConfig) -> (r: Result<Joining, Error>)
        ensures
            exists|machine_uid: Seq<char>, id: Seq<char>| #[trigger]
                is_uuid(machine_uid) && #[trigger] is_uuid(id) && is_joining(
                    connection@,
                    config@,
                    machine_uid,
                    id,
                    r,
                ),
            r is Ok ==> r->Ok_0.conference@.wf(),
    {
        let machine_uid = generate_id();
        let id = generate_id();
        Conference::create(connection, config, machine_uid, id)
    }

    /// The JID of this client.
    pub fn jid(&self) -> (r: FullJid)
        ensures
            r@ == self@.jid,
    {
        self.jid.clone()
    }

    /// How far the conference has come.
    pub fn state(&self) -> (r: ConferenceState)
        ensures
            r == self@.state,
    {
        self.state
    }

    /// The endpoint of this client.
    pub fn endpoint_id(&self) -> (r: Result<&str, Error>)
        ensures
            (match r {
                Ok(id) => self@.endpoint_id() == Ok::<Seq<char>, Error>(id@),
                Err(e) => self@.endpoint_id() == Err::<Seq<char>, Error>(e),
            }),
    {
        match &self.jid.node {
            Some(node) => match split_once(node.as_str(), '-') {
                Some((head, _)) => Ok(head),
                None => Ok(node.as_str()),
            },
            None => Err(Error::InvalidJid),
        }
    }

    /// The JID of this client in the room.
    pub fn jid_in_muc(&self) -> (r: Result<FullJid, Error>)
        ensures
            (match r {
                Ok(jid) => self@.jid_in_muc() == Ok::<FullJidView, Error>(jid@),
                Err(e) => self@.jid_in_muc() == Err::<FullJidView, Error>(e),
            }),
    {
        match self.endpoint_id() {
            Ok(id) => Ok(self.config.muc.with_resource(id)),
            Err(e) => Err(e),
        }
    }

    /// The JID of the focus in the room.
    pub fn focus_jid_in_muc(&self) -> (r: FullJid)
        ensures
            r@ == self@.focus_jid_in_muc(),
    {
        self.config.muc.with_resource("focus")
    }

    /// What this client tells the room of itself.
    pub fn send_presence(&self) -> (r: Result<Stanza, Error>)
        ensures
            (match r {
                Ok(stanza) => self@.presence_stanza() == Ok::<StanzaView, Error>(stanza@),
                Err(e) => self@.presence_stanza() == Err::<StanzaView, Error>(e),
            }),
    {
        match self.jid_in_muc() {
            Ok(jid) => Ok(
                Stanza::Presence { occupant: Jid::Full(jid), payloads: copy_all(&self.presence) },
            ),
            Err(e) => Err(e),
        }
    }

    /// Mutes or unmutes media, and says what to tell the room. The change stays even where there is
    /// nobody to tell it as.
    pub fn set_muted(&mut self, media_type: MediaType, muted: bool) -> (r: Result<Stanza, Error>)
        ensures
            final(self)@ == (ConferenceView {
                presence: muted_presence(old(self)@.presence, media_type, muted),
                ..old(self)@
            }),
            (match r {
                Ok(stanza) => final(self)@.presence_stanza() == Ok::<StanzaView, Error>(stanza@),
                Err(e) => final(self)@.presence_stanza() == Err::<StanzaView, Error>(e),
            }),
    {
        let name = media_type.jitsi_muted_presence_element_name();
        let ghost all = self@.presence;
        let ghost other = |t: Tree| t.name != media_type.muted_name();
        let mut presence: Vec<Built> = Vec::new();
        proof {
            reveal(Seq::filter);
            assert(all.take(0).filter(other) =~= Seq::empty());
            assert(built_trees(presence@) =~= Seq::empty());
        }
        for i in 0..self.presence.len()
            invariant
                *self == *old(self),
                all == self@.presence,
                all.len() == self.presence@.len(),
                name@ == media_type.muted_name(),
                other == (|t: Tree| t.name != media_type.muted_name()),
                built_trees(presence@) == all.take(i as int).filter(other),
        {
            let ghost kept = presence@;
            assert(all[i as int] == self.presence@[i as int]@);
            if !same(self.presence[i].name(), name) {
                presence.push(self.presence[i].clone());
                assert(built_trees(presence@) =~= built_trees(kept).push(all[i as int]));
            }
            proof {
                reveal(Seq::filter);
                assert(all.take(i + 1).drop_last() =~= all.take(i as int));
                assert(all.take(i + 1).last() == all[i as int]);
            }
        }
        assert(all.take(all.len() as int) =~= all);
        let ghost kept = presence@;
        presence.push(text_element(name, bool_to_string(muted).as_str()));
        assert(built_trees(presence@) =~= muted_presence(all, media_type, muted));
        self.presence = presence;
        self.send_presence()
    }

    /// Sets the maximum resolution that is being sent.
    pub fn set_send_resolution(&mut self, height: i32)
        ensures
            final(self)@ == (ConferenceView { send_resolution: Some(height), ..old(self)@ }),
    {
        self.send_resolution = Some(height);
    }

    /// The maximum resolution that is being sent, once it was set.
    pub fn send_resolution(&self) -> (r: Option<i32>)
        ensures
            r == self@.send_resolution,
    {
        self.send_resolution
    }

    /// Gives the message back for the Colibri channel, where there is one.
    pub fn send_colibri_message<M>(&self, message: M) -> (r: Result<M, Error>)
        ensures
            r == (if self@.colibri_channel {
                Ok::<M, Error>(message)
            } else {
                Err::<M, Error>(Error::NoColibriChannel)
            }),
    {
        if self.colibri_channel {
            Ok(message)
        } else {
            Err(Error::NoColibriChannel)
        }
    }

    /// A message to the whole room that carries JSON, with this identifier.
    pub fn json_message(&self, json: String, id: String) -> (r: Stanza)
        ensures
            r@ == (StanzaView::Message {
                sender: JidView::Full(self@.jid),
                room: JidView::Bare(self@.config.muc),
                id: id@,
                json: json@,
            }),
    {
        Stanza::Message {
            sender: Jid::Full(self.jid.clone()),
            room: Jid::Bare(self.config.muc.clone()),
            id,
            json,
        }
    }

    /// A message to the whole room that carries JSON, with a fresh identifier.
    pub fn send_json_message(&self, json: String) -> (r: Stanza)
        ensures
            exists|id: Seq<char>| #[trigger]
                is_uuid(id) && r@ == (StanzaView::Message {
                    sender: JidView::Full(self@.jid),
                    room: JidView::Bare(self@.config.muc),
                    id,
                    json: json@,
                }),
    {
        let id = generate_id();
        self.json_message(json, id)
    }

    /// Whether an element is for the conference.
    pub fn filter(&self, element: &Element) -> (r: bool)
        ensures
            r == self@.accepts(tree_of(*element)),
    {
        let from = match attr(element, "from") {
            Some(from) => from,
            None => {
                return false;
            },
        };
        let iq = is_named(element, "iq", "jabber:client");
        if same(from.as_str(), self.config.focus.to_string().as_str()) && iq {
            return true;
        }
        let in_room = match BareJid::parse(from.as_str()) {
            Ok(jid) => jid.same(&self.config.muc),
            Err(_) => false,
        };
        in_room && (is_named(element, "presence", "jabber:client") || iq)
    }

    /// The answer of the focus to the request for the room.
    fn handle_discovering(&self, inbound: Inbound) -> (r: Result<Step, Error>)
        ensures
            outcome(r) == on_discovering(self@, inbound@),
    {
        let iq = match inbound.iq {
            Some(iq) => iq,
            None => {
                return Err(Error::NotIq);
            },
        };
        match iq.payload {
            InboundPayload::Answer { conference: Some(answer) } => match answer.ready {
                None => Err(Error::MissingReady),
                Some(ready) => if same(ready.as_str(), "true") {
                    match self.send_presence() {
                        Ok(stanza) => Ok(Step::Send { stanza, then: Then::Enter }),
                        Err(e) => Err(e),
                    }
                } else if same(ready.as_str(), "false") {
                    Err(Error::RoomNotReady)
                } else {
                    Err(Error::InvalidReady)
                },
            },
            _ => Err(Error::FocusFailed),
        }
    }

    /// The word of the room that this client has entered.
    fn handle_joining(&mut self, inbound: Inbound) -> (r: Result<Step, Error>)
        ensures
            (final(self)@, outcome(r)) == on_joining(old(self)@, inbound@),
    {
        let presence = match inbound.presence {
            Some(presence) => presence,
            None => {
                return Err(Error::NotPresence);
            },
        };
        match presence.muc_user {
            None => Ok(Step::Done),
            Some(None) => Err(Error::NotMucUser),
            Some(Some(muc_user)) => if has_self_presence(&muc_user.statuses) {
                self.state = ConferenceState::Idle;
                Ok(Step::Joined)
            } else {
                Ok(Step::Done)
            },
        }
    }

    /// A message of the session protocol.
    fn handle_jingle(&self, from: FullJid, id: String, jingle: InboundJingle) -> (r: Step)
        ensures
            r@ == on_jingle(self@, from@, id@, jingle@),
    {
        let initiate = same(jingle.jingle().action.as_str(), "session-initiate");
        let terminate = same(jingle.jingle().action.as_str(), "session-terminate");
        let add = same(jingle.jingle().action.as_str(), "source-add");
        let remove = same(jingle.jingle().action.as_str(), "source-remove");
        let is_focus = same(from.resource.as_str(), "focus");
        let stanza = Stanza::Iq {
            from: Some(Jid::Full(self.jid.clone())),
            to: Some(Jid::Full(from)),
            id,
            payload: Payload::Empty,
        };
        if initiate {
            if is_focus {
                Step::Send { stanza, then: Then::Initiate(jingle) }
            } else {
                Step::Done
            }
        } else if terminate {
            if is_focus {
                Step::Send { stanza, then: Then::Terminate }
            } else {
                Step::Done
            }
        } else if add {
            Step::Send { stanza, then: Then::AddSources(jingle) }
        } else if remove {
            Step::Send { stanza, then: Then::RemoveSources(jingle) }
        } else {
            Step::Done
        }
    }

    /// An IQ once the conference is joined.
    fn handle_iq(&mut self, iq: InboundIq) -> (r: Step)
        ensures
            (final(self)@, r@) == on_iq(old(self)@, iq@),
    {
        match iq.payload {
            InboundPayload::Query { query: Some(query) } => {
                let stanza = Stanza::Iq {
                    from: Some(Jid::Full(self.jid.clone())),
                    to: iq.from,
                    id: iq.id,
                    payload: answer_disco(query.node),
                };
                Step::Send { stanza, then: Then::Nothing }
            },
            InboundPayload::Query { query: None } => Step::Done,
            InboundPayload::Command { jingle: Some(jingle) } => match iq.from {
                Some(Jid::Full(from)) => self.handle_jingle(from, iq.id, jingle),
                _ => Step::Done,
            },
            InboundPayload::Command { jingle: None } => Step::Done,
            InboundPayload::Answer { .. } => {
                let expected = match &self.accept_iq_id {
                    Some(id) => *id == iq.id,
                    None => false,
                };
                if !expected {
                    return Step::Done;
                }
                self.accept_iq_id = None;
                match &self.colibri_url {
                    Some(url) => Step::ConnectColibri { url: url.clone() },
                    None => Step::Done,
                }
            },
            InboundPayload::Failure => Step::Done,
        }
    }

    /// One item of a presence from the room.
    fn handle_item(
        &mut self,
        unavailable: bool,
        nick: &Option<String>,
        from: &FullJid,
        item: &Item,
        Ghost(presence): Ghost<InboundPresenceView>,
    ) -> (r: Option<ParticipantEvent>)
        requires
            presence.unavailable == unavailable,
            presence.nick == (match opt(*nick) {
                Some(nick) => Some(Some(nick)),
                None => None,
            }),
        ensures
            (final(self)@.participants, opt_view(r)) == on_item(
                old(self)@.participants,
                old(self)@.jid,
                presence,
                from@,
                item@,
            ),
            final(self)@ == (ConferenceView {
                participants: final(self)@.participants,
                ..old(self)@
            }),
    {
        let jid = match &item.jid {
            Some(jid) => jid,
            None => {
                return None;
            },
        };
        if jid.same(&self.jid) {
            return None;
        }
        let participant = Participant {
            jid: Some(jid.clone()),
            muc_jid: from.clone(),
            nick: match &item.nick {
                Some(nick) => Some(nick.clone()),
                None => copy_opt(nick),
            },
        };
        let there = self.participants.contains_key(from.resource.as_str());
        let ghost before = self.participants@;
        if unavailable {
            self.participants.remove(from.resource.as_str());
            assert(participant_views(self.participants@) =~= participant_views(before).remove(
                from.resource@,
            ));
            if there {
                Some(ParticipantEvent::Left(participant))
            } else {
                None
            }
        } else {
            self.participants.insert(from.resource.clone(), participant.clone());
            assert(participant_views(self.participants@) =~= participant_views(before).insert(
                from.resource@,
                participant@,
            ));
            if there {
                None
            } else {
                Some(ParticipantEvent::Joined(participant))
            }
        }
    }

    /// A presence once the conference is joined.
    fn handle_presence(&mut self, presence: InboundPresence) -> (r: Result<Step, Error>)
        ensures
            (final(self)@, outcome(r)) == on_presence(old(self)@, presence@),
    {
        let ghost view = presence@;
        let from = match presence.from {
            None => {
                return Err(Error::MissingFrom);
            },
            Some(Jid::Bare(_)) => {
                return Ok(Step::Done);
            },
            Some(Jid::Full(from)) => from,
        };
        if !from.bare().same(&self.config.muc) || same(from.resource.as_str(), "focus") {
            return Ok(Step::Done);
        }
        let nick = match presence.nick {
            None => None,
            Some(None) => {
                return Err(Error::NotNick);
            },
            Some(Some(nick)) => Some(nick),
        };
        let muc_user = match presence.muc_user {
            None => {
                return Ok(Step::Done);
            },
            Some(None) => {
                return Err(Error::NotMucUser);
            },
            Some(Some(muc_user)) => muc_user,
        };
        let ghost items = muc_user@.items;
        let ghost start = self@;
        let mut events: Vec<ParticipantEvent> = Vec::new();
        assert(event_views(events@) =~= Seq::empty());
        assert(items.take(0) =~= Seq::empty());
        for i in 0..muc_user.items.len()
            invariant
                items == muc_user@.items,
                view.unavailable == presence.unavailable,
                view.nick == (match opt(nick) {
                    Some(nick) => Some(Some(nick)),
                    None => None,
                }),
                self@ == (ConferenceView { participants: self@.participants, ..start }),
                (self@.participants, event_views(events@)) == on_items(
                    start.participants,
                    start.jid,
                    view,
                    from@,
                    items.take(i as int),
                ),
        {
            let ghost seen = events@;
            proof {
                assert(items.take(i + 1).drop_last() =~= items.take(i as int));
                assert(items.take(i + 1).last() == muc_user.items@[i as int]@);
            }
            match self.handle_item(
                presence.unavailable,
                &nick,
                &from,
                &muc_user.items[i],
                Ghost(view),
            ) {
                Some(event) => {
                    let ghost event_view = event@;
                    events.push(event);
                    assert(event_views(events@) =~= event_views(seen).push(event_view));
                },
                None => {},
            }
        }
        assert(items.take(items.len() as int) =~= items);
        Ok(Step::Participants { events })
    }

    /// Handles what was read out of an element. A question has to name its sender.
    pub fn handle(&mut self, inbound: Inbound) -> (r: Result<Step, Error>)
        requires
            answerable(old(self)@, inbound@),
        ensures
            (final(self)@, outcome(r)) == on_inbound(old(self)@, inbound@),
    {
        match self.state {
            ConferenceState::Discovering => self.handle_discovering(inbound),
            ConferenceState::JoiningMuc => self.handle_joining(inbound),
            ConferenceState::Idle => match inbound.iq {
                Some(iq) => Ok(self.handle_iq(iq)),
                None => match inbound.presence {
                    Some(presence) => self.handle_presence(presence),
                    None => Ok(Step::Done),
                },
            },
        }
    }

    /// Handles an element. A question that does not name its sender is refused. No element that the
    /// filter accepts is refused for want of a sender.
    pub fn take(&mut self, element: &Element) -> (r: Result<Step, Error>)
        ensures
            (final(self)@, outcome(r)) == on_element(old(self)@, inbound_of(tree_of(*element))),
            old(self)@.accepts(tree_of(*element)) ==> r != Err::<Step, Error>(Error::MissingSender)
                && r != Err::<Step, Error>(Error::MissingFrom),
    {
        let inbound = read_inbound(element);
        let unanswerable = match (&self.state, &inbound.iq) {
            (
                ConferenceState::Idle,
                Some(InboundIq { from: None, id: _, payload: InboundPayload::Query { query: Some(_) } }),
            ) => true,
            _ => false,
        };
        if unanswerable {
            return Err(Error::MissingSender);
        }
        self.handle(inbound)
    }

    /// Goes on once a stanza is sent.
    pub fn sent(&mut self, then: Then) -> (r: Result<Step, Error>)
        ensures
            is_sequel(old(self)@, then@, final(self)@, outcome(r)),
    {
        match then {
            Then::Nothing => Ok(Step::Done),
            Then::Enter => {
                self.state = ConferenceState::JoiningMuc;
                Ok(Step::Done)
            },
            Then::Initiate(jingle) => {
                let message = jingle.jingle();
                self.jingle_session_id = Some(message.sid.clone());
                if message.contents.len() > 0 {
                    assert(message@.contents[0] == message.contents@[0]@);
                    if let Some(Transport::IceUdp(ice_udp)) = &message.contents[0].transport {
                        self.colibri_url = copy_opt(&ice_udp.web_socket);
                    }
                }
                match jingle.offer() {
                    Some(offer) => Ok(Step::Offer { offer }),
                    None => Err(Error::InvalidJingle),
                }
            },
            Then::Terminate => {
                let stop_colibri = self.colibri_channel;
                self.accept_iq_id = None;
                self.jingle_session_id = None;
                self.remote_description = None;
                self.colibri_url = None;
                self.colibri_channel = false;
                Ok(Step::Terminated { stop_colibri })
            },
            Then::AddSources(jingle) => match &self.remote_description {
                None => Ok(Step::Done),
                Some(sdp) => {
                    let mut offer = copy_sdp(sdp);
                    jingle.add_sources(&mut offer);
                    self.remote_description = Some(copy_sdp(&offer));
                    Ok(Step::SourceAdded { offer })
                },
            },
            Then::RemoveSources(jingle) => match &self.remote_description {
                None => Ok(Step::Done),
                Some(sdp) => Ok(Step::RemoveSources { offer: copy_sdp(sdp), jingle }),
            },
        }
    }

    /// Keeps an offer that the agent has taken; one that it has not taken is dropped.
    pub fn offer_answered(&mut self, offer: SessionDescription, accepted: bool)
        ensures
            final(self)@ == (if accepted {
                ConferenceView { remote_description: Some(offer), ..old(self)@ }
            } else {
                old(self)@
            }),
    {
        if accepted {
            self.remote_description = Some(offer);
        }
    }

    /// Keeps an offer from which sources were removed.
    pub fn sources_removed(&mut self, offer: SessionDescription)
        ensures
            final(self)@ == (ConferenceView {
                remote_description: Some(offer),
                ..old(self)@
            }),
    {
        self.remote_description = Some(offer);
    }

    /// Notes that the Colibri channel is open, and returns the endpoint that messages over it are
    /// addressed to.
    pub fn colibri_opened(&mut self) -> (r: Result<String, Error>)
        ensures
            final(self)@ == (ConferenceView { colibri_channel: true, ..old(self)@ }),
            (match r {
                Ok(id) => old(self)@.endpoint_id() == Ok::<Seq<char>, Error>(id@),
                Err(e) => old(self)@.endpoint_id() == Err::<Seq<char>, Error>(e),
            }),
    {
        self.colibri_channel = true;
        match self.endpoint_id() {
            Ok(id) => Ok(id.to_owned()),
            Err(e) => Err(e),
        }
    }

    /// Accepts the session that is on offer with a description, in an IQ with this identifier. The
    /// offer is used up even where that fails.
    pub fn accept_as(&mut self, sdp: &SessionDescription, id: String) -> (r: Result<Stanza, Error>)
        ensures
            is_acceptance(old(self)@, sdp_of(*sdp), id@, final(self)@, r),
    {
        let session_id = match &self.jingle_session_id {
            Some(session_id) => session_id.clone(),
            None => {
                return Err(Error::NoSession);
            },
        };
        self.jingle_session_id = None;
        let focus = self.focus_jid_in_muc();
        let jingle = match session_accept(
            sdp,
            session_id.as_str(),
            focus.to_string().as_str(),
            self.jid.to_string().as_str(),
        ) {
            Ok(jingle) => jingle,
            Err(e) => {
                return Err(e);
            },
        };
        self.accept_iq_id = Some(id.clone());
        Ok(
            Stanza::Iq {
                from: Some(Jid::Full(self.jid.clone())),
                to: Some(Jid::Full(focus)),
                id,
                payload: Payload::SessionAccept { jingle },
            },
        )
    }

    /// Accepts the session that is on offer, in an IQ with a fresh identifier.
    pub fn accept(&mut self, sdp: &SessionDescription) -> (r: Result<Stanza, Error>)
        ensures
            exists|id: Seq<char>| #[trigger]
                is_uuid(id) && is_acceptance(old(self)@, sdp_of(*sdp), id, final(self)@, r),
    {
        let id = generate_id();
        self.accept_as(sdp, id)
    }
}

/// Whether `after` and `r` are what the acceptance of a session leads to.
pub open spec fn is_acceptance(
    c: ConferenceView,
    sdp: SdpView,
    id: Seq<char>,
    after: ConferenceView,
    r: Result<Stanza, Error>,
) -> bool {
    match c.jingle_session_id {
        None => after == c && r == Err::<Stanza, Error>(Error::NoSession),
        Some(session_id) => {
            let focus = c.focus_jid_in_muc();
            match r {
                Ok(stanza) => {
                    &&& after == ConferenceView {
                        jingle_session_id: None,
                        accept_iq_id: Some(id),
                        ..c
                    }
                    &&& stanza@ matches StanzaView::Iq {
                        from,
                        to,
                        id: iq_id,
                        payload: PayloadView::SessionAccept { jingle },
                    } && {
                        &&& from == Some(JidView::Full(c.jid))
                        &&& to == Some(JidView::Full(focus))
                        &&& iq_id == id
                        &&& is_answer(
                            sdp,
                            session_id,
                            focus.text(),
                            c.jid.text(),
                            Ok::<Tree, Error>(jingle),
                        )
                    }
                },
                Err(e) => {
                    &&& after == ConferenceView { jingle_session_id: None, ..c }
                    &&& is_answer(
                        sdp,
                        session_id,
                        focus.text(),
                        c.jid.text(),
                        Err::<Tree, Error>(e),
                    )
                },
            }
        },
    }
}

/// Whether one of the status codes says that the presence is about its receiver.
fn has_self_presence(statuses: &Vec<String>) -> (r: bool)
    ensures
        r == statuses@.map_values(|s: String| s@).contains("110"@),
{
    let ghost codes = statuses@.map_values(|s: String| s@);
    for i in 0..statuses.len()
        invariant
            codes == statuses@.map_values(|s: String| s@),
            forall|j: int| 0 <= j < i ==> #[trigger] codes[j] != "110"@,
    {
        if same(statuses[i].as_str(), "110") {
            assert(codes[i as int] == "110"@);
            return true;
        }
    }
    false
}

/// What a question for identities and features at a node is answered with.
pub fn answer_disco(node: Option<String>) -> (r: Payload)
    ensures
        r@ == disco_reply(opt(node)),
{
    let node = match node {
        Some(node) => node,
        None => {
            return Payload::DiscoInfo { node: None };
        },
    };
    let known = match split_once(node.as_str(), '#') {
        Some((uri, hash)) => same(uri, "https://github.com/avstack/lib-jitsi-meet-rs") && same(
            hash,
            computed_caps_hash().as_str(),
        ),
        None => false,
    };
    if known {
        Payload::DiscoInfo { node: Some(node) }
    } else {
        Payload::ItemNotFound { text: concat("Unknown disco#info node: ", node.as_str()) }
    }
}

} // verus!
