//! What this client says of itself when it is asked, and the hashes of it that it announces.
use vstd::prelude::*;

use crate::element::{attr_name, built_trees, leaf, Built, Tree};
use crate::text::opt;

verus! {

/// One of the roles that an entity can have, with its name in one language.
pub struct Identity {
    pub category: String,
    pub type_: String,
    pub lang: String,
    pub name: String,
}

/// The identities and features of an entity.
pub struct DiscoInfo {
    pub identities: Vec<Identity>,
    pub features: Vec<String>,
}

pub struct IdentityView {
    pub category: Seq<char>,
    pub type_: Seq<char>,
    pub lang: Seq<char>,
    pub name: Seq<char>,
}

pub struct DiscoInfoView {
    pub identities: Seq<IdentityView>,
    pub features: Seq<Seq<char>>,
}

impl View for Identity {
    type V = IdentityView;

    open spec fn view(&self) -> IdentityView {
        IdentityView {
            category: self.category@,
            type_: self.type_@,
            lang: self.lang@,
            name: self.name@,
        }
    }
}

impl View for DiscoInfo {
    type V = DiscoInfoView;

    open spec fn view(&self) -> DiscoInfoView {
        DiscoInfoView {
            identities: self.identities@.map_values(|i: Identity| i@),
            features: self.features@.map_values(|f: String| f@),
        }
    }
}

/// The URI under which this client announces its features.
pub open spec fn disco_node() -> Seq<char> {
    "https://github.com/avstack/lib-jitsi-meet-rs"@
}

/// What this client says of itself.
pub open spec fn own_info() -> DiscoInfoView {
    DiscoInfoView {
        identities: seq![
            IdentityView {
                category: "client"@,
                type_: "bot"@,
                lang: "en"@,
                name: "lib-jitsi-meet-rs"@,
            },
        ],
        features: seq![
            "http://jabber.org/protocol/disco#info"@,
            "urn:xmpp:jingle:apps:rtp:audio"@,
            "urn:xmpp:jingle:apps:rtp:video"@,
            "urn:xmpp:jingle:transports:ice-udp:1"@,
            "urn:xmpp:jingle:apps:dtls:0"@,
            "urn:ietf:rfc:5888"@,
            "urn:ietf:rfc:5761"@,
            "urn:ietf:rfc:4588"@,
            "http://jitsi.org/tcc"@,
        ],
    }
}

/// The bytes that the capability hash is taken of.
pub uninterp spec fn caps_input(info: DiscoInfoView) -> Seq<u8>;

/// The capability hash of such bytes: their SHA-1.
pub uninterp spec fn caps_hash(data: Seq<u8>) -> Seq<u8>;

/// The bytes that the second kind of capability hash is taken of.
pub uninterp spec fn ecaps2_input(info: DiscoInfoView) -> Seq<u8>;

/// The second kind of capability hash of such bytes: their SHA-256.
pub uninterp spec fn ecaps2_hash(data: Seq<u8>) -> Seq<u8>;

/// Bytes in base64, with padding.
pub uninterp spec fn base64_of(data: Seq<u8>) -> Seq<char>;

/// The capability hash that this client announces, in base64.
pub open spec fn own_caps() -> Seq<char> {
    base64_of(caps_hash(caps_input(own_info())))
}

/// The second kind of capability hash that this client announces, in base64.
pub open spec fn own_ecaps2() -> Seq<char> {
    base64_of(ecaps2_hash(ecaps2_input(own_info())))
}

/// `xmpp_parsers::caps::compute_disco`: a function of the identities and features alone.
#[verifier::external_body]
fn compute_caps(info: &DiscoInfo) -> (r: Vec<u8>)
    ensures
        r@ == caps_input(info@),
{
    xmpp_parsers::caps::compute_disco(
        &xmpp_parsers::disco::DiscoInfoResult {
            node: None,
            identities: info.identities.iter().map(
                |i| xmpp_parsers::disco::Identity::new(&*i.category, &*i.type_, &*i.lang, &*i.name),
            ).collect(),
            features: info.features.iter().map(|f| xmpp_parsers::disco::Feature::new(f)).collect(),
            extensions: Vec::new(),
        },
    )
}

/// `xmpp_parsers::caps::hash_caps` with SHA-1, which it supports: a function of the bytes.
#[verifier::external_body]
fn hash_caps(data: &Vec<u8>) -> (r: Vec<u8>)
    ensures
        r@ == caps_hash(data@),
{
    xmpp_parsers::caps::hash_caps(data, xmpp_parsers::hashes::Algo::Sha_1).unwrap().hash
}

/// `xmpp_parsers::ecaps2::compute_disco`: a function of the identities and features alone. It fails
/// only on extensions, of which there are none here.
#[verifier::external_body]
fn compute_ecaps2(info: &DiscoInfo) -> (r: Vec<u8>)
    ensures
        r@ == ecaps2_input(info@),
{
    xmpp_parsers::ecaps2::compute_disco(
        &xmpp_parsers::disco::DiscoInfoResult {
            node: None,
            identities: info.identities.iter().map(
                |i| xmpp_parsers::disco::Identity::new(&*i.category, &*i.type_, &*i.lang, &*i.name),
            ).collect(),
            features: info.features.iter().map(|f| xmpp_parsers::disco::Feature::new(f)).collect(),
            extensions: Vec::new(),
        },
    ).unwrap()
}

/// `xmpp_parsers::ecaps2::hash_ecaps2` with SHA-256, which it supports: a function of the bytes.
#[verifier::external_body]
fn hash_ecaps2(data: &Vec<u8>) -> (r: Vec<u8>)
    ensures
        r@ == ecaps2_hash(data@),
{
    xmpp_parsers::ecaps2::hash_ecaps2(data, xmpp_parsers::hashes::Algo::Sha_256).unwrap().hash
}

/// `xmpp_parsers::hashes::Hash::to_base64`: the bytes of the hash in base64, whatever algorithm the
/// hash is labelled with.
#[verifier::external_body]
pub(crate) fn to_base64(data: &Vec<u8>) -> (r: String)
    ensures
        r@ == base64_of(data@),
{
    xmpp_parsers::hashes::Hash::new(xmpp_parsers::hashes::Algo::Sha_1, data.clone()).to_base64()
}

/// What this client says of itself.
pub fn disco_info() -> (r: DiscoInfo)
    ensures
        r@ == own_info(),
{
    let mut identities: Vec<Identity> = Vec::new();
    identities.push(
        Identity {
            category: "client".to_owned(),
            type_: "bot".to_owned(),
            lang: "en".to_owned(),
            name: "lib-jitsi-meet-rs".to_owned(),
        },
    );
    let mut features: Vec<String> = Vec::new();
    features.push("http://jabber.org/protocol/disco#info".to_owned());
    features.push("urn:xmpp:jingle:apps:rtp:audio".to_owned());
    features.push("urn:xmpp:jingle:apps:rtp:video".to_owned());
    features.push("urn:xmpp:jingle:transports:ice-udp:1".to_owned());
    features.push("urn:xmpp:jingle:apps:dtls:0".to_owned());
    features.push("urn:ietf:rfc:5888".to_owned());
    features.push("urn:ietf:rfc:5761".to_owned());
    features.push("urn:ietf:rfc:4588".to_owned());
    features.push("http://jitsi.org/tcc".to_owned());
    let r = DiscoInfo { identities, features };
    assert(r@.identities =~= own_info().identities);
    assert(r@.features =~= own_info().features);
    r
}

/// The capability hash that this client announces.
pub fn computed_caps_hash() -> (r: String)
    ensures
        r@ == own_caps(),
{
    to_base64(&hash_caps(&compute_caps(&disco_info())))
}

/// The second kind of capability hash that this client announces.
pub fn computed_ecaps2_hash() -> (r: String)
    ensures
        r@ == own_ecaps2(),
{
    to_base64(&hash_ecaps2(&compute_ecaps2(&disco_info())))
}

pub open spec fn identity_tree(identity: IdentityView) -> Tree {
    leaf("identity"@, "http://jabber.org/protocol/disco#info"@).with_attr(
        "category"@,
        identity.category,
    ).with_attr("type"@, identity.type_).with_attr("xml:lang"@, identity.lang).with_attr(
        "name"@,
        identity.name,
    )
}

pub open spec fn feature_tree(var: Seq<char>) -> Tree {
    leaf("feature"@, "http://jabber.org/protocol/disco#info"@).with_attr("var"@, var)
}

/// The answer to a question for `info` at a node: the identities, then the features.
pub open spec fn info_tree(node: Option<Seq<char>>, info: DiscoInfoView) -> Tree {
    leaf("query"@, "http://jabber.org/protocol/disco#info"@).with_opt_attr(
        "node"@,
        node,
    ).with_children(
        info.identities.map_values(|i: IdentityView| identity_tree(i)),
    ).with_children(info.features.map_values(|f: Seq<char>| feature_tree(f)))
}

/// The attribute names in use here are ones that XML takes.
proof fn lemma_attr_names()
    ensures
        attr_name("category"@),
        attr_name("type"@),
        attr_name("name"@),
        attr_name("var"@),
        attr_name("node"@),
{
    reveal_strlit("category");
    reveal_strlit("type");
    reveal_strlit("name");
    reveal_strlit("var");
    reveal_strlit("node");
}

fn identity_element(identity: &Identity) -> (r: Built)
    ensures
        r@ == identity_tree(identity@),
{
    proof {
        lemma_attr_names();
    }
    Built::new("identity", "http://jabber.org/protocol/disco#info").attr(
        "category",
        identity.category.as_str(),
    ).attr("type", identity.type_.as_str()).attr("xml:lang", identity.lang.as_str()).attr(
        "name",
        identity.name.as_str(),
    )
}

/// An announcement of one feature.
pub fn feature_element(var: &str) -> (r: Built)
    ensures
        r@ == feature_tree(var@),
{
    proof {
        lemma_attr_names();
    }
    Built::new("feature", "http://jabber.org/protocol/disco#info").attr("var", var)
}

/// The answer to a question for `info` at a node.
pub fn info_element(node: &Option<String>, info: &DiscoInfo) -> (r: Built)
    ensures
        r@ == info_tree(opt(*node), info@),
{
    proof {
        lemma_attr_names();
    }
    let mut identities: Vec<Built> = Vec::new();
    for i in 0..info.identities.len()
        invariant
            identities@.len() == i,
            forall|j: int|
                0 <= j < i ==> (#[trigger] identities@[j])@ == identity_tree(info.identities@[j]@),
    {
        identities.push(identity_element(&info.identities[i]));
    }
    assert(built_trees(identities@) =~= info@.identities.map_values(|i: IdentityView| identity_tree(i)));
    let mut features: Vec<Built> = Vec::new();
    for i in 0..info.features.len()
        invariant
            features@.len() == i,
            forall|j: int|
                0 <= j < i ==> (#[trigger] features@[j])@ == feature_tree(info.features@[j]@),
    {
        features.push(feature_element(info.features[i].as_str()));
    }
    assert(built_trees(features@) =~= info@.features.map_values(|f: Seq<char>| feature_tree(f)));
    Built::new("query", "http://jabber.org/protocol/disco#info").opt_attr("node", node).children(
        &identities,
    ).children(&features)
}

} // verus!
