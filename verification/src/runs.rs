//! What holds of a conference over everything that happens to it.
use jitsi_jingle_sdp::SessionDescription;
use vstd::prelude::*;

use crate::conference::{
    is_acceptance, is_sequel, muted_presence, new_conference, on_element, on_item, on_items,
    ConferenceConfigView, ConferenceView, MediaType, ParticipantEventView, ParticipantView, StepView,
    ThenView,
};
use crate::connection::ConnectionView;
use crate::error::Error;
use crate::inbound::{InboundPayloadView, InboundPresenceView, InboundView, ItemView};
use crate::jid::FullJidView;
use crate::sdp::SdpView;
use crate::stanza::Stanza;

verus! {

/// Something that happens to a conference.
pub enum Stimulus {
    /// An element is taken.
    Arrived(InboundView),
    /// A stanza was sent.
    Sent(ThenView),
    /// The session that is on offer is accepted.
    Accept { sdp: SdpView, id: Seq<char> },
    /// The agent has taken an offer, or has not.
    OfferAnswered { offer: SessionDescription, accepted: bool },
    /// Sources were removed from the session.
    SourcesRemoved { offer: SessionDescription },
    /// The Colibri channel was opened.
    ColibriOpened,
    /// Media is muted or unmuted.
    Muted { media: MediaType, muted: bool },
    /// The maximum resolution is set.
    ResolutionSet { height: i32 },
}

/// Something that happened to a conference, and what it led to. Only what arrives and what follows a
/// stanza lead to a step.
pub struct Moment {
    pub stimulus: Stimulus,
    pub after: ConferenceView,
    pub step: Result<StepView, Error>,
}

/// Whether a moment can be the next one of a conference.
pub open spec fn is_next(c: ConferenceView, moment: Moment) -> bool {
    let after = moment.after;
    match moment.stimulus {
        Stimulus::Arrived(m) => (after, moment.step) == on_element(c, m),
        Stimulus::Sent(then) => is_sequel(c, then, after, moment.step),
        Stimulus::Accept { sdp, id } => {
            &&& exists|r: Result<Stanza, Error>| #[trigger] is_acceptance(c, sdp, id, after, r)
            &&& moment.step == Ok::<StepView, Error>(StepView::Done)
        },
        Stimulus::OfferAnswered { offer, accepted } => {
            &&& after == if accepted {
                ConferenceView { remote_description: Some(offer), ..c }
            } else {
                c
            }
            &&& moment.step == Ok::<StepView, Error>(StepView::Done)
        },
        Stimulus::SourcesRemoved { offer } => {
            &&& after == ConferenceView { remote_description: Some(offer), ..c }
            &&& moment.step == Ok::<StepView, Error>(StepView::Done)
        },
        Stimulus::ColibriOpened => {
            &&& after == ConferenceView { colibri_channel: true, ..c }
            &&& moment.step == Ok::<StepView, Error>(StepView::Done)
        },
        Stimulus::Muted { media, muted } => {
            &&& after == ConferenceView {
                presence: muted_presence(c.presence, media, muted),
                ..c
            }
            &&& moment.step == Ok::<StepView, Error>(StepView::Done)
        },
        Stimulus::ResolutionSet { height } => {
            &&& after == ConferenceView { send_resolution: Some(height), ..c }
            &&& moment.step == Ok::<StepView, Error>(StepView::Done)
        },
    }
}

/// A conference at the end of a run.
pub open spec fn at_end(c: ConferenceView, run: Seq<Moment>) -> ConferenceView {
    if run.len() == 0 {
        c
    } else {
        run.last().after
    }
}

/// Whether the moments can happen to a conference, one after the other.
pub open spec fn is_run(c: ConferenceView, run: Seq<Moment>) -> bool
    decreases run.len(),
{
    run.len() == 0 || {
        &&& is_run(c, run.drop_last())
        &&& is_next(at_end(c, run.drop_last()), run.last())
    }
}

/// The changes in who is in the room that a step reports.
pub open spec fn events_of(step: Result<StepView, Error>) -> Seq<ParticipantEventView> {
    match step {
        Ok(StepView::Participants { events }) => events,
        _ => Seq::empty(),
    }
}

/// The changes in who is in the room that a run reports, in order.
pub open spec fn events_in(run: Seq<Moment>) -> Seq<ParticipantEventView>
    decreases run.len(),
{
    if run.len() == 0 {
        Seq::empty()
    } else {
        events_in(run.drop_last()) + events_of(run.last().step)
    }
}

/// Who an event is about.
pub open spec fn participant_of(event: ParticipantEventView) -> ParticipantView {
    match event {
        ParticipantEventView::Joined(p) => p,
        ParticipantEventView::Left(p) => p,
    }
}

/// The events that are about one resource in the room.
pub open spec fn about(events: Seq<ParticipantEventView>, resource: Seq<char>) -> Seq<
    ParticipantEventView,
> {
    events.filter(|e: ParticipantEventView| participant_of(e).muc_jid.resource == resource)
}

/// Whether events go back and forth, beginning with somebody who joins.
pub open spec fn alternates(events: Seq<ParticipantEventView>) -> bool {
    forall|i: int|
        0 <= i < events.len() ==> ((#[trigger] events[i]) is Joined <==> i % 2 == 0)
}

/// Whether the last of several events tells of somebody who joined.
pub open spec fn ends_joined(events: Seq<ParticipantEventView>) -> bool {
    events.len() > 0 && events.last() is Joined
}

/// From the making of a conference on, whoever is in the room under one resource is reported as
/// joined and as left in turn, beginning with joined. At every moment they are in the room exactly
/// where the last report was of their joining.
pub proof fn law_joining_and_leaving_alternate(
    c: ConnectionView,
    jid: FullJidView,
    config: ConferenceConfigView,
    run: Seq<Moment>,
    resource: Seq<char>,
)
    requires
        is_run(new_conference(c, jid, config), run),
    ensures
        alternates(about(events_in(run), resource)),
        at_end(new_conference(c, jid, config), run).participants.contains_key(resource)
            <==> ends_joined(about(events_in(run), resource)),
{
    lemma_alternating_run(new_conference(c, jid, config), run, resource);
}

proof fn lemma_alternating_run(start: ConferenceView, run: Seq<Moment>, resource: Seq<char>)
    requires
        start.participants == Map::<Seq<char>, ParticipantView>::empty(),
        is_run(start, run),
    ensures
        alternates(about(events_in(run), resource)),
        at_end(start, run).participants.contains_key(resource) <==> ends_joined(
            about(events_in(run), resource),
        ),
    decreases run.len(),
{
    reveal(Seq::filter);
    if run.len() > 0 {
        let before = run.drop_last();
        lemma_alternating_run(start, before, resource);
        let c = at_end(start, before);
        let moment = run.last();
        if let Ok(StepView::Participants { events }) = moment.step {
            let m = moment.stimulus->Arrived_0;
            let presence = m.presence->0;
            let from = presence.from->0->Full_0;
            let items = presence.muc_user->0->0.items;
            lemma_alternating_items(
                about(events_in(before), resource),
                c.participants,
                c.jid,
                presence,
                from,
                items,
                resource,
            );
            Seq::filter_distributes_over_add(
                events_in(before),
                events,
                |e: ParticipantEventView| participant_of(e).muc_jid.resource == resource,
            );
        } else {
            assert(events_in(run) =~= events_in(before));
            assert(moment.after.participants == c.participants);
        }
    }
}

proof fn lemma_alternating_items(
    past: Seq<ParticipantEventView>,
    participants: Map<Seq<char>, ParticipantView>,
    own: FullJidView,
    presence: InboundPresenceView,
    from: FullJidView,
    items: Seq<ItemView>,
    resource: Seq<char>,
)
    requires
        alternates(past),
        participants.contains_key(resource) <==> ends_joined(past),
    ensures
        ({
            let (after, events) = on_items(participants, own, presence, from, items);
            &&& alternates(past + about(events, resource))
            &&& after.contains_key(resource) <==> ends_joined(past + about(events, resource))
        }),
    decreases items.len(),
{
    reveal(Seq::filter);
    if items.len() == 0 {
        assert(past + about(Seq::empty(), resource) =~= past);
    } else {
        lemma_alternating_items(
            past,
            participants,
            own,
            presence,
            from,
            items.drop_last(),
            resource,
        );
        let (before, events) = on_items(participants, own, presence, from, items.drop_last());
        let (after, event) = on_item(before, own, presence, from, items.last());
        let told = past + about(events, resource);
        if let Some(e) = event {
            let pushed = events.push(e);
            assert(pushed.drop_last() =~= events);
            assert(participant_of(e).muc_jid == from);
            if from.resource == resource {
                assert(past + about(pushed, resource) =~= told.push(e));
            } else {
                assert(past + about(pushed, resource) =~= told);
            }
        }
    }
}

/// Whether an element is the answer of the focus that the room is ready.
pub open spec fn says_ready(m: InboundView) -> bool {
    &&& m.iq matches Some(iq)
    &&& iq.payload matches InboundPayloadView::Answer { conference: Some(answer) }
    &&& answer.ready == Some("true"@)
}

/// Whether an element is a presence in which the room says that it is about this client.
pub open spec fn says_self(m: InboundView) -> bool {
    &&& m.presence matches Some(presence)
    &&& presence.muc_user matches Some(Some(muc_user))
    &&& muc_user.statuses.contains("110"@)
}

/// Whether a moment is the arrival of the answer that the room is ready, on which the room is to be
/// entered.
pub open spec fn is_ready(moment: Moment) -> bool {
    &&& moment.stimulus matches Stimulus::Arrived(m)
    &&& says_ready(m)
    &&& moment.step matches Ok(StepView::Send { then: ThenView::Enter, .. })
}

/// Whether a moment is the one at which the room is entered.
pub open spec fn is_entering(moment: Moment) -> bool {
    moment.stimulus == Stimulus::Sent(ThenView::Enter)
}

/// Whether what follows a stanza follows only on a step that asked for the stanza.
pub open spec fn is_orderly(run: Seq<Moment>) -> bool {
    forall|j: int|
        0 <= j < run.len() ==> ((#[trigger] run[j]).stimulus matches Stimulus::Sent(then)
            ==> exists|i: int|
            0 <= i < j && ((#[trigger] run[i]).step matches Ok(StepView::Send { then: asked, .. })
                && asked == then))
}

/// A conference is joined only after the focus has answered that the room is ready, then the room was
/// entered, and then the room said in a presence that this client is in it.
pub proof fn law_joined_after_ready_and_entered(
    c: ConnectionView,
    jid: FullJidView,
    config: ConferenceConfigView,
    run: Seq<Moment>,
)
    requires
        is_run(new_conference(c, jid, config), run),
        is_orderly(run),
        run.len() > 0,
        run.last().step == Ok::<StepView, Error>(StepView::Joined),
    ensures
        exists|i: int, j: int|
            0 <= i < j < run.len() - 1 && #[trigger] is_ready(run[i]) && #[trigger] is_entering(
                run[j],
            ),
        run.last().stimulus matches Stimulus::Arrived(m) && says_self(m),
{
    let start = new_conference(c, jid, config);
    let before = run.drop_last();
    assert(at_end(start, before).state is JoiningMuc);
    let j = lemma_entered(start, before);
    assert(before[j] == run[j]);
    let i = choose|i: int|
        0 <= i < j && ((#[trigger] run[i]).step matches Ok(StepView::Send { then: asked, .. })
            && asked == ThenView::Enter);
    lemma_moment_of_run(start, run, i);
    assert(is_ready(run[i]) && is_entering(run[j]));
}

/// A conference that is neither being discovered nor joined has been entered.
proof fn lemma_entered(start: ConferenceView, run: Seq<Moment>) -> (j: int)
    requires
        start.state is Discovering,
        is_run(start, run),
        !(at_end(start, run).state is Discovering),
    ensures
        0 <= j < run.len(),
        is_entering(run[j]),
    decreases run.len(),
{
    let before = run.drop_last();
    if at_end(start, before).state is Discovering {
        run.len() - 1
    } else {
        let j = lemma_entered(start, before);
        assert(before[j] == run[j]);
        j
    }
}

/// Every moment of a run is the next one after those before it.
proof fn lemma_moment_of_run(start: ConferenceView, run: Seq<Moment>, i: int)
    requires
        is_run(start, run),
        0 <= i < run.len(),
    ensures
        is_next(at_end(start, run.take(i)), run[i]),
    decreases run.len(),
{
    let before = run.drop_last();
    if i == run.len() - 1 {
        assert(run.take(i) =~= before);
    } else {
        lemma_moment_of_run(start, before, i);
        assert(before.take(i) =~= run.take(i));
        assert(before[i] == run[i]);
    }
}

/// Whether a run takes up no session.
pub open spec fn takes_up_no_session(run: Seq<Moment>) -> bool {
    forall|i: int|
        0 <= i < run.len() ==> !((#[trigger] run[i]).stimulus matches Stimulus::Sent(
            ThenView::Initiate(_),
        ))
}

/// There is a session to accept only where one was taken up since the latest of these: the making of
/// the conference, an acceptance, successful or not, and the end of a session. Without one, an
/// acceptance fails and changes nothing.
pub proof fn law_no_session_unless_taken_up(
    c: ConnectionView,
    jid: FullJidView,
    config: ConferenceConfigView,
    earlier: ConferenceView,
    start: ConferenceView,
    origin: Moment,
    run: Seq<Moment>,
    sdp: SdpView,
    id: Seq<char>,
    after: ConferenceView,
    r: Result<Stanza, Error>,
)
    requires
        start == new_conference(c, jid, config) || {
            &&& is_next(earlier, origin)
            &&& origin.after == start
            &&& origin.stimulus is Accept || origin.stimulus == Stimulus::Sent(
                ThenView::Terminate,
            )
        },
        is_run(start, run),
        takes_up_no_session(run),
        is_acceptance(at_end(start, run), sdp, id, after, r),
    ensures
        at_end(start, run).jingle_session_id is None,
        r == Err::<Stanza, Error>(Error::NoSession),
        after == at_end(start, run),
{
    lemma_no_session(start, run);
}

proof fn lemma_no_session(start: ConferenceView, run: Seq<Moment>)
    requires
        start.jingle_session_id is None,
        is_run(start, run),
        takes_up_no_session(run),
    ensures
        at_end(start, run).jingle_session_id is None,
    decreases run.len(),
{
    if run.len() > 0 {
        let before = run.drop_last();
        assert(takes_up_no_session(before)) by {
            assert forall|i: int| 0 <= i < before.len() implies !((
            #[trigger] before[i]).stimulus matches Stimulus::Sent(ThenView::Initiate(_))) by {
                assert(before[i] == run[i]);
            }
        }
        lemma_no_session(start, before);
        assert(run.last() == run[run.len() - 1]);
    }
}

} // verus!
