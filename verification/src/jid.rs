//! Jabber IDs.
use vstd::prelude::*;

use crate::error::{Error, JidError};
use crate::text::{before, concat, copy_opt, cut, opt, same_opt, split_once};

verus! {

/// A JID without a resource: `node@domain`, or just `domain`.
#[derive(Debug)]
pub struct BareJid {
    pub node: Option<String>,
    pub domain: String,
}

/// A JID with a resource: `node@domain/resource`, or just `domain/resource`.
#[derive(Debug)]
pub struct FullJid {
    pub node: Option<String>,
    pub domain: String,
    pub resource: String,
}

#[derive(Debug)]
pub enum Jid {
    Bare(BareJid),
    Full(FullJid),
}

pub struct BareJidView {
    pub node: Option<Seq<char>>,
    pub domain: Seq<char>,
}

pub struct FullJidView {
    pub node: Option<Seq<char>>,
    pub domain: Seq<char>,
    pub resource: Seq<char>,
}

pub enum JidView {
    Bare(BareJidView),
    Full(FullJidView),
}

impl View for BareJid {
    type V = BareJidView;

    open spec fn view(&self) -> BareJidView {
        BareJidView { node: opt(self.node), domain: self.domain@ }
    }
}

impl View for FullJid {
    type V = FullJidView;

    open spec fn view(&self) -> FullJidView {
        FullJidView { node: opt(self.node), domain: self.domain@, resource: self.resource@ }
    }
}

impl View for Jid {
    type V = JidView;

    open spec fn view(&self) -> JidView {
        match self {
            Jid::Bare(jid) => JidView::Bare(jid@),
            Jid::Full(jid) => JidView::Full(jid@),
        }
    }
}

/// An optional JID, seen through its view.
pub open spec fn opt_jid(jid: Option<Jid>) -> Option<JidView> {
    match jid {
        Some(jid) => Some(jid@),
        None => None,
    }
}

/// An optional full JID, seen through its view.
pub open spec fn opt_full(jid: Option<FullJid>) -> Option<FullJidView> {
    match jid {
        Some(jid) => Some(jid@),
        None => None,
    }
}

/// The node and its `@`, where there is a node.
pub open spec fn node_prefix(node: Option<Seq<char>>) -> Seq<char> {
    match node {
        Some(node) => node + seq!['@'],
        None => Seq::empty(),
    }
}

impl BareJidView {
    /// How the JID is written.
    pub open spec fn text(self) -> Seq<char> {
        node_prefix(self.node) + self.domain
    }

    pub open spec fn with_resource(self, resource: Seq<char>) -> FullJidView {
        FullJidView { node: self.node, domain: self.domain, resource }
    }
}

impl FullJidView {
    /// How the JID is written.
    pub open spec fn text(self) -> Seq<char> {
        node_prefix(self.node) + self.domain + seq!['/'] + self.resource
    }

    pub open spec fn bare(self) -> BareJidView {
        BareJidView { node: self.node, domain: self.domain }
    }
}

impl JidView {
    /// How the JID is written.
    pub open spec fn text(self) -> Seq<char> {
        match self {
            JidView::Bare(jid) => jid.text(),
            JidView::Full(jid) => jid.text(),
        }
    }

    pub open spec fn node(self) -> Option<Seq<char>> {
        match self {
            JidView::Bare(jid) => jid.node,
            JidView::Full(jid) => jid.node,
        }
    }

    pub open spec fn bare(self) -> BareJidView {
        match self {
            JidView::Bare(jid) => jid,
            JidView::Full(jid) => jid.bare(),
        }
    }
}

/// The JID that a text spells. The resource is what follows the first `/`; the node is what stands
/// before the first `@` of the rest; the domain is what is left. None of the three may be empty.
pub open spec fn jid_of(s: Seq<char>) -> Result<JidView, JidError> {
    let (head, resource) = match cut(s, '/') {
        Some((head, resource)) => (head, Some(resource)),
        None => (s, None),
    };
    let (node, domain) = match cut(head, '@') {
        Some((node, domain)) => (Some(node), domain),
        None => (None, head),
    };
    if node == Some(Seq::<char>::empty()) {
        Err(JidError::EmptyNode)
    } else if domain.len() == 0 {
        Err(JidError::NoDomain)
    } else {
        match resource {
            None => Ok(JidView::Bare(BareJidView { node, domain })),
            Some(resource) => if resource.len() == 0 {
                Err(JidError::EmptyResource)
            } else {
                Ok(JidView::Full(FullJidView { node, domain, resource }))
            },
        }
    }
}

/// `xmpp_parsers::Jid::from_str`: splits the text as [`jid_of`] says, and gives the same error.
#[verifier::external_body]
fn read_jid(s: &str) -> (r: Result<Jid, JidError>)
    ensures
        (match r {
            Ok(jid) => jid_of(s@) == Ok::<JidView, JidError>(jid@),
            Err(e) => jid_of(s@) == Err::<JidView, JidError>(e),
        }),
{
    match s.parse::<xmpp_parsers::Jid>() {
        Ok(xmpp_parsers::Jid::Bare(jid)) => Ok(
            Jid::Bare(BareJid { node: jid.node, domain: jid.domain }),
        ),
        Ok(xmpp_parsers::Jid::Full(jid)) => Ok(
            Jid::Full(FullJid { node: jid.node, domain: jid.domain, resource: jid.resource }),
        ),
        Err(xmpp_parsers::JidParseError::NoDomain) => Err(JidError::NoDomain),
        Err(xmpp_parsers::JidParseError::NoResource) => Err(JidError::NoResource),
        Err(xmpp_parsers::JidParseError::EmptyNode) => Err(JidError::EmptyNode),
        Err(xmpp_parsers::JidParseError::EmptyResource) => Err(JidError::EmptyResource),
    }
}

/// `xmpp_parsers::BareJid::from_str`: reads the text as [`jid_of`] says and drops the resource, if
/// there is one. A text that is no JID gives the same error.
#[verifier::external_body]
fn read_bare_jid(s: &str) -> (r: Result<BareJid, JidError>)
    ensures
        (match (r, jid_of(s@)) {
            (Ok(jid), Ok(v)) => jid@ == v.bare(),
            (Err(e), Err(f)) => e == f,
            _ => false,
        }),
{
    match s.parse::<xmpp_parsers::BareJid>() {
        Ok(jid) => Ok(BareJid { node: jid.node, domain: jid.domain }),
        Err(xmpp_parsers::JidParseError::NoDomain) => Err(JidError::NoDomain),
        Err(xmpp_parsers::JidParseError::NoResource) => Err(JidError::NoResource),
        Err(xmpp_parsers::JidParseError::EmptyNode) => Err(JidError::EmptyNode),
        Err(xmpp_parsers::JidParseError::EmptyResource) => Err(JidError::EmptyResource),
    }
}

fn prefix_of(node: &Option<String>) -> (r: String)
    ensures
        r@ == node_prefix(opt(*node)),
{
    match node {
        Some(node) => {
            proof {
                reveal_strlit("@");
                assert("@"@ =~= seq!['@']);
            }
            concat(node.as_str(), "@")
        },
        None => String::new(),
    }
}

impl Clone for BareJid {
    fn clone(&self) -> (r: BareJid)
        ensures
            r@ == self@,
    {
        BareJid { node: copy_opt(&self.node), domain: self.domain.clone() }
    }
}

impl Clone for FullJid {
    fn clone(&self) -> (r: FullJid)
        ensures
            r@ == self@,
    {
        FullJid {
            node: copy_opt(&self.node),
            domain: self.domain.clone(),
            resource: self.resource.clone(),
        }
    }
}

impl Clone for Jid {
    fn clone(&self) -> (r: Jid)
        ensures
            r@ == self@,
    {
        match self {
            Jid::Bare(jid) => Jid::Bare(jid.clone()),
            Jid::Full(jid) => Jid::Full(jid.clone()),
        }
    }
}

impl BareJid {
    /// Reads a JID from its text. A resource in the text is dropped.
    pub fn parse(s: &str) -> (r: Result<BareJid, JidError>)
        ensures
            (match (r, jid_of(s@)) {
                (Ok(jid), Ok(v)) => jid@ == v.bare(),
                (Err(e), Err(f)) => e == f,
                _ => false,
            }),
    {
        read_bare_jid(s)
    }

    pub fn to_string(&self) -> (r: String)
        ensures
            r@ == self@.text(),
    {
        concat(prefix_of(&self.node).as_str(), self.domain.as_str())
    }

    pub fn with_resource(&self, resource: &str) -> (r: FullJid)
        ensures
            r@ == self@.with_resource(resource@),
    {
        FullJid {
            node: copy_opt(&self.node),
            domain: self.domain.clone(),
            resource: resource.to_owned(),
        }
    }

    pub fn same(&self, other: &BareJid) -> (r: bool)
        ensures
            r == (self@ == other@),
    {
        same_opt(&self.node, &other.node) && self.domain == other.domain
    }

    /// The endpoint that the JID belongs to: see [`endpoint_id_from_node`].
    pub fn endpoint_id(&self) -> (r: Result<&str, Error>)
        ensures
            is_endpoint_id(self@.node, r),
    {
        match &self.node {
            Some(node) => endpoint_id_from_node(node.as_str()),
            None => Err(Error::NoNode),
        }
    }
}

impl FullJid {
    pub fn to_string(&self) -> (r: String)
        ensures
            r@ == self@.text(),
    {
        proof {
            reveal_strlit("/");
            assert("/"@ =~= seq!['/']);
        }
        let mut r = concat(prefix_of(&self.node).as_str(), self.domain.as_str());
        r.append("/");
        r.append(self.resource.as_str());
        r
    }

    /// The JID without its resource.
    pub fn bare(&self) -> (r: BareJid)
        ensures
            r@ == self@.bare(),
    {
        BareJid { node: copy_opt(&self.node), domain: self.domain.clone() }
    }

    pub fn same(&self, other: &FullJid) -> (r: bool)
        ensures
            r == (self@ == other@),
    {
        same_opt(&self.node, &other.node) && self.domain == other.domain && self.resource
            == other.resource
    }

    /// The endpoint that the JID belongs to: see [`endpoint_id_from_node`].
    pub fn endpoint_id(&self) -> (r: Result<&str, Error>)
        ensures
            is_endpoint_id(self@.node, r),
    {
        match &self.node {
            Some(node) => endpoint_id_from_node(node.as_str()),
            None => Err(Error::NoNode),
        }
    }
}

impl Jid {
    /// Reads a JID from its text.
    pub fn parse(s: &str) -> (r: Result<Jid, JidError>)
        ensures
            (match r {
                Ok(jid) => jid_of(s@) == Ok::<JidView, JidError>(jid@),
                Err(e) => jid_of(s@) == Err::<JidView, JidError>(e),
            }),
    {
        read_jid(s)
    }

    pub fn to_string(&self) -> (r: String)
        ensures
            r@ == self@.text(),
    {
        match self {
            Jid::Bare(jid) => jid.to_string(),
            Jid::Full(jid) => jid.to_string(),
        }
    }

    /// The endpoint that the JID belongs to: see [`endpoint_id_from_node`].
    pub fn endpoint_id(&self) -> (r: Result<&str, Error>)
        ensures
            is_endpoint_id(self@.node(), r),
    {
        match self {
            Jid::Bare(jid) => jid.endpoint_id(),
            Jid::Full(jid) => jid.endpoint_id(),
        }
    }
}

/// What the endpoint ID of a JID with this node is: what stands before the first hyphen of the
/// node. Without a node, or without a hyphen in it, there is none.
pub open spec fn endpoint_id_of(node: Option<Seq<char>>) -> Result<Seq<char>, Error> {
    match node {
        None => Err(Error::NoNode),
        Some(node) => match cut(node, '-') {
            Some((head, _)) => Ok(head),
            None => Err(Error::InvalidNodeFormat),
        },
    }
}

/// Whether `r` is the endpoint ID of a JID with this node.
pub open spec fn is_endpoint_id(node: Option<Seq<char>>, r: Result<&str, Error>) -> bool {
    match r {
        Ok(id) => endpoint_id_of(node) == Ok::<Seq<char>, Error>(id@),
        Err(e) => endpoint_id_of(node) == Err::<Seq<char>, Error>(e),
    }
}

/// What stands before the first hyphen of a node; an error where there is no hyphen.
pub fn endpoint_id_from_node(node: &str) -> (r: Result<&str, Error>)
    ensures
        is_endpoint_id(Some(node@), r),
{
    match split_once(node, '-') {
        Some((before, _)) => Ok(before),
        None => Err(Error::InvalidNodeFormat),
    }
}

/// Reading a JID and writing it gives the text back.
pub proof fn law_jid_text_round_trip(s: Seq<char>)
    ensures
        jid_of(s) matches Ok(jid) ==> jid.text() == s,
{
    crate::text::law_cut_is_exact(s, '/');
    let head = before(s, '/');
    crate::text::law_cut_is_exact(head, '@');
    if let Ok(jid) = jid_of(s) {
        assert(jid.text() =~= s);
    }
}

/// Writing a bare JID whose parts are not empty and hold no separator that would move the split,
/// and reading it, gives the JID back.
pub proof fn law_bare_jid_round_trip(jid: BareJidView)
    requires
        jid.domain.len() > 0,
        !jid.domain.contains('/'),
        jid.node matches Some(node) ==> node.len() > 0 && !node.contains('@') && !node.contains('/'),
        jid.node is None ==> !jid.domain.contains('@'),
    ensures
        jid_of(jid.text()) == Ok::<JidView, JidError>(JidView::Bare(jid)),
{
    let s = jid.text();
    assert(!s.contains('/')) by {
        if s.contains('/') {
            let i = choose|i: int| 0 <= i < s.len() && s[i] == '/';
            let n = node_prefix(jid.node).len();
            if i < n {
                assert(node_prefix(jid.node)[i] == '/');
                assert(i < jid.node->0.len());
                assert(jid.node->0[i] == '/');
            } else {
                assert(jid.domain[i - n] == '/');
            }
        }
    }
    crate::text::law_cut_of_whole(s, '/');
    match jid.node {
        Some(node) => {
            assert(s =~= node + seq!['@'] + jid.domain);
            crate::text::law_cut_of_joined(node, '@', jid.domain);
        },
        None => {
            assert(s =~= jid.domain);
            crate::text::law_cut_of_whole(s, '@');
        },
    }
}

/// The same for a full JID. Its resource may hold anything.
pub proof fn law_full_jid_round_trip(jid: FullJidView)
    requires
        jid.resource.len() > 0,
        jid.domain.len() > 0,
        !jid.domain.contains('/'),
        jid.node matches Some(node) ==> node.len() > 0 && !node.contains('@') && !node.contains('/'),
        jid.node is None ==> !jid.domain.contains('@'),
    ensures
        jid_of(jid.text()) == Ok::<JidView, JidError>(JidView::Full(jid)),
{
    law_bare_jid_round_trip(jid.bare());
    let head = jid.bare().text();
    assert(!head.contains('/')) by {
        if head.contains('/') {
            head.index_of_first_ensures('/');
            crate::text::law_cut_is_exact(head, '/');
        }
    }
    assert(jid.text() =~= head + seq!['/'] + jid.resource);
    crate::text::law_cut_of_joined(head, '/', jid.resource);
    crate::text::law_cut_is_exact(head, '/');
}

} // verus!
