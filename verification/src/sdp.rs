//! Session descriptions: what an offer turns into, and how an answer is put into the session
//! protocol.
use jitsi_jingle_sdp::{SessionDescription, SessionDescriptionJingleConversionsExt};
use vstd::prelude::*;
use xmpp_parsers::Element;

use crate::element::{tree_of, Built, Tree};
use crate::error::Error;
use crate::inbound::{breaks_reader, check_breaks, fingerprints_decodable, jingle_of};
use crate::jid::{jid_of, Jid};
use crate::text::{copy_opt, cut, opt, same, split_once};

verus! {

/// An attribute of a session or of one of its sections.
pub struct Attribute {
    pub key: String,
    pub value: Option<String>,
}

/// A section of a session: one stream of audio or video.
pub struct Section {
    pub media: String,
    pub attributes: Vec<Attribute>,
}

pub struct AttributeView {
    pub key: Seq<char>,
    pub value: Option<Seq<char>>,
}

pub struct SectionView {
    pub media: Seq<char>,
    pub attributes: Seq<AttributeView>,
}

pub struct SdpView {
    pub attributes: Seq<AttributeView>,
    pub sections: Seq<SectionView>,
}

impl View for Attribute {
    type V = AttributeView;

    open spec fn view(&self) -> AttributeView {
        AttributeView { key: self.key@, value: opt(self.value) }
    }
}

impl View for Section {
    type V = SectionView;

    open spec fn view(&self) -> SectionView {
        SectionView {
            media: self.media@,
            attributes: attribute_views(self.attributes@),
        }
    }
}

/// Attributes, seen through their views.
pub open spec fn attribute_views(attributes: Seq<Attribute>) -> Seq<AttributeView> {
    attributes.map_values(|a: Attribute| a@)
}

/// Sections, seen through their views.
pub open spec fn section_views(sections: Seq<Section>) -> Seq<SectionView> {
    sections.map_values(|s: Section| s@)
}

/// `sdp::SessionDescription`, by the name under which `jitsi_jingle_sdp` exports it.
#[verifier::external_type_specification]
#[verifier::external_body]
pub struct ExSessionDescription(SessionDescription);

/// The attributes and the sections of a session description.
pub uninterp spec fn sdp_of(sdp: SessionDescription) -> SdpView;

/// The session descriptions that an offer can turn into. Their sections come in no fixed order.
/// There is none where the offer is incomplete.
pub uninterp spec fn offers_of(jingle: Tree) -> Set<SdpView>;

/// The session descriptions that a description can turn into when sources are added to it. The new
/// sections come in no fixed order.
pub uninterp spec fn sources_added(sdp: SdpView, jingle: Tree) -> Set<SdpView>;

/// The elements that accept a session with a description. Their contents come in no fixed order.
/// There is none where the description cannot be expressed.
pub uninterp spec fn answers_of(
    sdp: SdpView,
    session_id: Seq<char>,
    initiator: Seq<char>,
    responder: Seq<char>,
) -> Set<Tree>;

/// `SessionDescription::try_from_jingle`, on the element read as a message of the session protocol.
/// It goes through hash maps, so that the order of what comes out differs from call to call; whether
/// it fails does not.
#[verifier::external_body]
pub(crate) fn offer(element: &Element) -> (r: Option<SessionDescription>)
    requires
        fingerprints_decodable(tree_of(*element)),
        jingle_of(tree_of(*element)) is Some,
    ensures
        (match r {
            Some(sdp) => offers_of(tree_of(*element)).contains(sdp_of(sdp)),
            None => offers_of(tree_of(*element)) == Set::<SdpView>::empty(),
        }),
{
    let jingle = jitsi_jingle_sdp::Jingle::try_from(element.clone()).ok()?;
    SessionDescription::try_from_jingle(&jingle).ok()
}

/// `SessionDescription::add_sources_from_jingle`, on the element read as a message of the session
/// protocol. It never fails; it keeps the attributes and the sections that are there, and appends
/// new ones.
#[verifier::external_body]
pub(crate) fn add_sources(sdp: &mut SessionDescription, element: &Element)
    requires
        fingerprints_decodable(tree_of(*element)),
        jingle_of(tree_of(*element)) is Some,
    ensures
        sources_added(sdp_of(*old(sdp)), tree_of(*element)).contains(sdp_of(*final(sdp))),
        sdp_of(*final(sdp)).attributes == sdp_of(*old(sdp)).attributes,
        sdp_of(*old(sdp)).sections.is_prefix_of(sdp_of(*final(sdp)).sections),
{
    let jingle = jitsi_jingle_sdp::Jingle::try_from(element.clone()).unwrap();
    sdp.add_sources_from_jingle(&jingle).unwrap();
}

/// Why a session description could not be put into the session protocol.
#[derive(Clone, Copy, Debug, PartialEq, Eq, Structural)]
pub enum SdpError {
    InvalidJingle,
    InvalidJid,
    Unknown,
}

/// `SessionDescription::try_to_jingle` for the acceptance of a session, and the element that its
/// result is written as. Either of the two parties can fail to be a JID; apart from that, whether it
/// fails is a function of the description. The element names the action, the session and the two
/// parties. The order of its contents differs from call to call. `try_to_jingle` panics where it gets
/// to a fingerprint that breaks its reader: descriptions with one are left out.
#[verifier::external_body]
fn to_jingle(
    sdp: &SessionDescription,
    session_id: &str,
    initiator: &str,
    responder: &str,
) -> (r: Result<Element, SdpError>)
    requires
        sdp_decodable(sdp_of(*sdp)),
    ensures
        (match r {
            Ok(element) => {
                let t = tree_of(element);
                &&& jid_of(initiator@) is Ok && jid_of(responder@) is Ok
                &&& answers_of(sdp_of(*sdp), session_id@, initiator@, responder@).contains(t)
                &&& t.writable()
                &&& t.is("jingle"@, "urn:xmpp:jingle:1"@)
                &&& t.attr("action"@) == Some("session-accept"@)
                &&& t.attr("sid"@) == Some(session_id@)
                &&& t.attr("initiator"@) == Some(initiator@)
                &&& t.attr("responder"@) == Some(responder@)
            },
            Err(SdpError::InvalidJid) => jid_of(initiator@) is Err || jid_of(responder@) is Err,
            Err(SdpError::InvalidJingle) => {
                &&& jid_of(initiator@) is Ok && jid_of(responder@) is Ok
                &&& answers_of(sdp_of(*sdp), session_id@, initiator@, responder@) == Set::<
                    Tree,
                >::empty()
            },
            Err(SdpError::Unknown) => false,
        }),
{
    let action = jitsi_jingle_sdp::Action::SessionAccept;
    match sdp.try_to_jingle(action, session_id, initiator, responder) {
        Ok(jingle) => Ok(Element::from(jingle)),
        Err(jitsi_jingle_sdp::Error::InvalidJingle) => Err(SdpError::InvalidJingle),
        Err(jitsi_jingle_sdp::Error::InvalidJid) => Err(SdpError::InvalidJid),
        Err(jitsi_jingle_sdp::Error::Unknown) => Err(SdpError::Unknown),
    }
}

/// `SessionDescription::clone`: the same description.
#[verifier::external_body]
pub(crate) fn copy_sdp(sdp: &SessionDescription) -> (r: SessionDescription)
    ensures
        r == *sdp,
{
    sdp.clone()
}

/// The field `media_descriptions` of `SessionDescription`: for each section, what it carries, and
/// its attributes.
#[verifier::external_body]
fn sections(sdp: &SessionDescription) -> (r: Vec<Section>)
    ensures
        section_views(r@) == sdp_of(*sdp).sections,
{
    sdp.media_descriptions.iter().map(|section| Section {
        media: section.media_name.media.clone(),
        attributes: section.attributes.iter().map(|attribute| Attribute {
            key: attribute.key.clone(),
            value: attribute.value.clone(),
        }).collect(),
    }).collect()
}

/// `SessionDescription::default`, with these sections in its field `media_descriptions`: each carries
/// this media and has these attributes. The session itself has no attributes.
#[verifier::external_body]
fn describe(sections: &Vec<Section>) -> (r: SessionDescription)
    ensures
        sdp_of(r) == (SdpView { attributes: Seq::empty(), sections: section_views(sections@) }),
{
    let mut sdp = SessionDescription::default();
    sdp.media_descriptions.resize_with(sections.len(), Default::default);
    for (description, section) in sdp.media_descriptions.iter_mut().zip(sections) {
        description.media_name.media = section.media.clone();
        description.attributes.resize_with(section.attributes.len(), Default::default);
        for (outside, attribute) in description.attributes.iter_mut().zip(&section.attributes) {
            outside.key = attribute.key.clone();
            outside.value = attribute.value.clone();
        }
    }
    sdp
}

/// The first attribute with this key.
pub open spec fn first_attribute(
    attributes: Seq<AttributeView>,
    key: Seq<char>,
) -> Option<AttributeView>
    decreases attributes.len(),
{
    if attributes.len() == 0 {
        None
    } else if attributes[0].key == key {
        Some(attributes[0])
    } else {
        first_attribute(attributes.skip(1), key)
    }
}

/// Whether a section says which side opens the secured transport.
pub open spec fn has_setup(section: SectionView) -> bool {
    match first_attribute(section.attributes, "setup"@) {
        Some(AttributeView { key: _, value: Some(value) }) => value == "passive"@ || value
            == "active"@ || value == "actpass"@,
        _ => false,
    }
}

/// Whether the fingerprint of a section breaks its reader. The fingerprint is in the first attribute
/// of that name: the algorithm, a space, and the bytes. The bytes are read only where there is an
/// algorithm and a setup.
pub open spec fn breaks(section: SectionView) -> bool {
    match first_attribute(section.attributes, "fingerprint"@) {
        Some(AttributeView { key: _, value: Some(value) }) => match cut(value, ' ') {
            Some((algorithm, hex)) => algorithm.len() > 0 && has_setup(section) && breaks_reader(
                hex,
            ),
            None => false,
        },
        _ => false,
    }
}

/// Whether a section is the first that carries its media. Of several sections with the same media,
/// the fingerprint of the first is read.
pub open spec fn leads(sections: Seq<SectionView>, i: int) -> bool {
    forall|j: int| 0 <= j < i ==> (#[trigger] sections[j]).media != sections[i].media
}

/// Whether no fingerprint that is read out of a description breaks its reader.
pub open spec fn sdp_decodable(sdp: SdpView) -> bool {
    forall|i: int|
        0 <= i < sdp.sections.len() && leads(sdp.sections, i) ==> !breaks(
            #[trigger] sdp.sections[i],
        )
}

/// The first section, from one on, whose fingerprint is read and breaks its reader.
pub open spec fn first_break(sections: Seq<SectionView>, from: int) -> Option<int>
    decreases sections.len() - from,
{
    if from >= sections.len() {
        None
    } else if leads(sections, from) && breaks(sections[from]) {
        Some(from)
    } else {
        first_break(sections, from + 1)
    }
}

/// Whether an attribute of a section can be refused before its fingerprint is read.
pub open spec fn precedes_fingerprint(a: AttributeView) -> bool {
    a.key == "rtpmap"@ || a.key == "fmtp"@ || a.key == "rtcp-fb"@ || a.key == "extmap"@
}

/// What is read out of a description before the fingerprint of a section: the sections before, and
/// of the section itself what precedes the fingerprint.
pub open spec fn before_fingerprint(sections: Seq<SectionView>, i: int) -> SdpView {
    SdpView {
        attributes: Seq::empty(),
        sections: sections.take(i).push(
            SectionView {
                media: sections[i].media,
                attributes: sections[i].attributes.filter(
                    |a: AttributeView| precedes_fingerprint(a),
                ),
            },
        ),
    }
}

fn find_attribute<'a>(attributes: &'a Vec<Attribute>, key: &str) -> (r: Option<&'a Attribute>)
    ensures
        (match r {
            Some(a) => first_attribute(attribute_views(attributes@), key@) == Some(a@),
            None => first_attribute(attribute_views(attributes@), key@) is None,
        }),
{
    let ghost all = attribute_views(attributes@);
    assert(all.skip(0) =~= all);
    for i in 0..attributes.len()
        invariant
            all == attribute_views(attributes@),
            first_attribute(all, key@) == first_attribute(all.skip(i as int), key@),
    {
        assert(all.skip(i as int)[0] == attributes@[i as int]@);
        assert(all.skip(i as int).skip(1) =~= all.skip(i + 1));
        if same(attributes[i].key.as_str(), key) {
            return Some(&attributes[i]);
        }
    }
    None
}

fn check_setup(section: &Section) -> (r: bool)
    ensures
        r == has_setup(section@),
{
    match find_attribute(&section.attributes, "setup") {
        Some(attribute) => match &attribute.value {
            Some(value) => same(value.as_str(), "passive") || same(value.as_str(), "active")
                || same(value.as_str(), "actpass"),
            None => false,
        },
        None => false,
    }
}

fn check_section(section: &Section) -> (r: bool)
    ensures
        r == breaks(section@),
{
    match find_attribute(&section.attributes, "fingerprint") {
        Some(attribute) => match &attribute.value {
            Some(value) => match split_once(value.as_str(), ' ') {
                Some((algorithm, hex)) => algorithm.unicode_len() > 0 && check_setup(section)
                    && check_breaks(hex),
                None => false,
            },
            None => false,
        },
        None => false,
    }
}

fn check_leads(sections: &Vec<Section>, i: usize) -> (r: bool)
    requires
        i < sections@.len(),
    ensures
        r == leads(section_views(sections@), i as int),
{
    let ghost all = section_views(sections@);
    for j in 0..i
        invariant
            i < sections@.len(),
            all == section_views(sections@),
            forall|k: int| 0 <= k < j ==> (#[trigger] all[k]).media != all[i as int].media,
    {
        if same(sections[j].media.as_str(), sections[i].media.as_str()) {
            assert(all[j as int].media == all[i as int].media);
            return false;
        }
    }
    true
}

/// The first section whose fingerprint is read and breaks its reader.
fn find_break(sections: &Vec<Section>) -> (r: Option<usize>)
    ensures
        (match r {
            Some(i) => {
                &&& i < sections@.len()
                &&& first_break(section_views(sections@), 0) == Some(i as int)
                &&& forall|k: int|
                    0 <= k < i && leads(section_views(sections@), k) ==> !breaks(
                        #[trigger] section_views(sections@)[k],
                    )
            },
            None => {
                &&& first_break(section_views(sections@), 0) is None
                &&& forall|k: int|
                    0 <= k < sections@.len() && leads(section_views(sections@), k) ==> !breaks(
                        #[trigger] section_views(sections@)[k],
                    )
            },
        }),
{
    let ghost all = section_views(sections@);
    for i in 0..sections.len()
        invariant
            all == section_views(sections@),
            first_break(all, 0) == first_break(all, i as int),
            forall|k: int| 0 <= k < i && leads(all, k) ==> !breaks(#[trigger] all[k]),
    {
        assert(all[i as int] == sections@[i as int]@);
        if check_leads(sections, i) && check_section(&sections[i]) {
            return Some(i);
        }
    }
    None
}

fn precedes(attribute: &Attribute) -> (r: bool)
    ensures
        r == precedes_fingerprint(attribute@),
{
    let key = attribute.key.as_str();
    same(key, "rtpmap") || same(key, "fmtp") || same(key, "rtcp-fb") || same(key, "extmap")
}

fn copy_attribute(attribute: &Attribute) -> (r: Attribute)
    ensures
        r@ == attribute@,
{
    Attribute { key: attribute.key.clone(), value: copy_opt(&attribute.value) }
}

fn copy_section(section: &Section) -> (r: Section)
    ensures
        r@ == section@,
{
    let mut attributes: Vec<Attribute> = Vec::new();
    for i in 0..section.attributes.len()
        invariant
            attributes@.len() == i,
            forall|j: int| 0 <= j < i ==> (#[trigger] attributes@[j])@ == section.attributes@[j]@,
    {
        attributes.push(copy_attribute(&section.attributes[i]));
    }
    assert(attribute_views(attributes@) =~= attribute_views(section.attributes@));
    Section { media: section.media.clone(), attributes }
}

/// What is read out of a description before the fingerprint of a section.
fn sections_before(sections: &Vec<Section>, i: usize) -> (r: Vec<Section>)
    requires
        i < sections@.len(),
    ensures
        section_views(r@) == before_fingerprint(section_views(sections@), i as int).sections,
{
    let ghost all = section_views(sections@);
    let mut r: Vec<Section> = Vec::new();
    for j in 0..i
        invariant
            i < sections@.len(),
            r@.len() == j,
            forall|k: int| 0 <= k < j ==> (#[trigger] r@[k])@ == sections@[k]@,
    {
        r.push(copy_section(&sections[j]));
    }
    let ghost start = r@;
    let ghost read = |a: AttributeView| precedes_fingerprint(a);
    let ghost from = attribute_views(sections@[i as int].attributes@);
    let mut attributes: Vec<Attribute> = Vec::new();
    proof {
        reveal(Seq::filter);
        assert(from.take(0).filter(read) =~= Seq::empty());
        assert(attribute_views(attributes@) =~= Seq::empty());
    }
    let section = &sections[i];
    for j in 0..section.attributes.len()
        invariant
            read == (|a: AttributeView| precedes_fingerprint(a)),
            from == attribute_views(section.attributes@),
            attribute_views(attributes@) == from.take(j as int).filter(read),
    {
        let ghost kept = attributes@;
        assert(from[j as int] == section.attributes@[j as int]@);
        if precedes(&section.attributes[j]) {
            attributes.push(copy_attribute(&section.attributes[j]));
            assert(attribute_views(attributes@) =~= attribute_views(kept).push(from[j as int]));
        }
        proof {
            reveal(Seq::filter);
            assert(from.take(j + 1).drop_last() =~= from.take(j as int));
            assert(from.take(j + 1).last() == from[j as int]);
        }
    }
    assert(from.take(from.len() as int) =~= from);
    r.push(Section { media: section.media.clone(), attributes });
    assert(section_views(r@) =~= before_fingerprint(all, i as int).sections) by {
        let target = before_fingerprint(all, i as int).sections;
        assert(section_views(r@).last() == target.last());
        assert forall|k: int| 0 <= k < i implies #[trigger] section_views(r@)[k] == target[k] by {
            assert(start[k]@ == sections@[k]@);
        }
    }
    r
}

/// Nothing that precedes the first fingerprint that breaks its reader breaks a reader.
proof fn lemma_before_fingerprint_decodable(sections: Seq<SectionView>, i: int)
    requires
        0 <= i < sections.len(),
        forall|k: int| 0 <= k < i && leads(sections, k) ==> !breaks(#[trigger] sections[k]),
    ensures
        sdp_decodable(before_fingerprint(sections, i)),
{
    let probe = before_fingerprint(sections, i).sections;
    assert forall|k: int| 0 <= k < probe.len() && leads(probe, k) implies !breaks(
        #[trigger] probe[k],
    ) by {
        if k < i {
            assert(probe[k] == sections[k]);
            assert(leads(sections, k)) by {
                assert forall|j: int| 0 <= j < k implies (#[trigger] sections[j]).media
                    != sections[k].media by {
                    assert(probe[j] == sections[j]);
                }
            }
        } else {
            let read = |a: AttributeView| precedes_fingerprint(a);
            let kept = sections[i].attributes.filter(read);
            assert forall|j: int| 0 <= j < kept.len() implies (#[trigger] kept[j]).key
                != "fingerprint"@ by {
                broadcast use vstd::seq_lib::group_filter_ensures;

                assert(read(kept[j]));
                reveal_strlit("fingerprint");
                reveal_strlit("rtpmap");
                reveal_strlit("fmtp");
                reveal_strlit("rtcp-fb");
                reveal_strlit("extmap");
                assert("fingerprint"@.len() == 11);
                assert("rtpmap"@.len() == 6 && "fmtp"@.len() == 4);
                assert("rtcp-fb"@.len() == 7 && "extmap"@.len() == 6);
            }
            lemma_absent_attribute(kept, "fingerprint"@);
        }
    }
}

proof fn lemma_absent_attribute(attributes: Seq<AttributeView>, key: Seq<char>)
    requires
        forall|j: int| 0 <= j < attributes.len() ==> (#[trigger] attributes[j]).key != key,
    ensures
        first_attribute(attributes, key) is None,
    decreases attributes.len(),
{
    if attributes.len() > 0 {
        lemma_absent_attribute(attributes.skip(1), key);
    }
}

/// What an acceptance of a session is, or why there is none. The two parties are read first. Where a
/// fingerprint breaks its reader, the description is refused as malformed if it is not refused for
/// what precedes the fingerprint.
pub open spec fn is_answer(
    sdp: SdpView,
    session_id: Seq<char>,
    initiator: Seq<char>,
    responder: Seq<char>,
    r: Result<Tree, Error>,
) -> bool {
    if jid_of(initiator) is Err || jid_of(responder) is Err {
        r == Err::<Tree, Error>(Error::InvalidJingleJid)
    } else if let Some(i) = first_break(sdp.sections, 0) {
        let preceding = answers_of(
            before_fingerprint(sdp.sections, i),
            session_id,
            initiator,
            responder,
        );
        r == Err::<Tree, Error>(
            if preceding == Set::<Tree>::empty() {
                Error::InvalidJingle
            } else {
                Error::MalformedFingerprint
            },
        )
    } else if answers_of(sdp, session_id, initiator, responder) == Set::<Tree>::empty() {
        r == Err::<Tree, Error>(Error::InvalidJingle)
    } else {
        match r {
            Ok(t) => {
                &&& answers_of(sdp, session_id, initiator, responder).contains(t)
                &&& t.is("jingle"@, "urn:xmpp:jingle:1"@)
                &&& t.attr("action"@) == Some("session-accept"@)
                &&& t.attr("sid"@) == Some(session_id)
                &&& t.attr("initiator"@) == Some(initiator)
                &&& t.attr("responder"@) == Some(responder)
            },
            Err(_) => false,
        }
    }
}

/// Puts the acceptance of a session into the session protocol.
pub fn session_accept(
    sdp: &SessionDescription,
    session_id: &str,
    initiator: &str,
    responder: &str,
) -> (r: Result<Built, Error>)
    ensures
        is_answer(
            sdp_of(*sdp),
            session_id@,
            initiator@,
            responder@,
            match r {
                Ok(jingle) => Ok(jingle@),
                Err(e) => Err(e),
            },
        ),
{
    if Jid::parse(initiator).is_err() || Jid::parse(responder).is_err() {
        return Err(Error::InvalidJingleJid);
    }
    let sections = sections(sdp);
    if let Some(i) = find_break(&sections) {
        proof {
            lemma_before_fingerprint_decodable(sdp_of(*sdp).sections, i as int);
        }
        let preceding = describe(&sections_before(&sections, i));
        return match to_jingle(&preceding, session_id, initiator, responder) {
            Err(_) => Err(Error::InvalidJingle),
            Ok(_) => Err(Error::MalformedFingerprint),
        };
    }
    match to_jingle(sdp, session_id, initiator, responder) {
        Ok(element) => Ok(Built::adopt(element)),
        Err(_) => Err(Error::InvalidJingle),
    }
}

} // verus!
