//! XML elements: what they hold, how they are read, built and written.
use vstd::prelude::*;
use xmpp_parsers::Element;

verus! {

/// What an XML element holds: its local name, its namespace, its attributes, and its child nodes in
/// document order. `declares` tells whether the element itself declares namespaces, as elements
/// read from text do and elements built piece by piece do not.
pub struct Tree {
    pub name: Seq<char>,
    pub ns: Seq<char>,
    pub declares: bool,
    pub attrs: Map<Seq<char>, Seq<char>>,
    pub children: Seq<Node>,
}

pub enum Node {
    Element(Tree),
    Text(Seq<char>),
}

impl Tree {
    pub open spec fn is(self, name: Seq<char>, ns: Seq<char>) -> bool {
        self.name == name && self.ns == ns
    }

    pub open spec fn attr(self, name: Seq<char>) -> Option<Seq<char>> {
        if self.attrs.contains_key(name) {
            Some(self.attrs[name])
        } else {
            None
        }
    }

    /// The child elements, in order, without the text between them.
    pub open spec fn elements(self) -> Seq<Tree> {
        elements_of(self.children)
    }

    /// The text directly inside the element.
    pub open spec fn text(self) -> Seq<char> {
        text_of(self.children)
    }

    pub open spec fn with_attr(self, name: Seq<char>, value: Seq<char>) -> Tree {
        Tree { attrs: self.attrs.insert(name, value), ..self }
    }

    /// With the attribute where there is a value for it, and unchanged otherwise.
    pub open spec fn with_opt_attr(self, name: Seq<char>, value: Option<Seq<char>>) -> Tree {
        match value {
            Some(value) => self.with_attr(name, value),
            None => self,
        }
    }

    pub open spec fn with_child(self, child: Tree) -> Tree {
        Tree { children: self.children.push(Node::Element(child)), ..self }
    }

    pub open spec fn with_text(self, text: Seq<char>) -> Tree {
        Tree { children: self.children.push(Node::Text(text)), ..self }
    }

    /// With the elements appended in order.
    pub open spec fn with_children(self, children: Seq<Tree>) -> Tree {
        Tree { children: self.children + children.map_values(|t: Tree| Node::Element(t)), ..self }
    }

    /// Whether the element can be written out: nothing in it declares namespaces, and every
    /// attribute name is one that XML takes.
    pub open spec fn writable(self) -> bool
        decreases self,
    {
        &&& !self.declares
        &&& forall|k: Seq<char>| #[trigger] self.attrs.contains_key(k) ==> attr_name(k)
        &&& forall|i: int|
            0 <= i < self.children.len() ==> match #[trigger] self.children[i] {
                Node::Element(child) => child.writable(),
                Node::Text(_) => true,
            }
    }
}

/// An element without attributes and children.
pub open spec fn leaf(name: Seq<char>, ns: Seq<char>) -> Tree {
    Tree { name, ns, declares: false, attrs: Map::empty(), children: Seq::empty() }
}

pub open spec fn elements_of(children: Seq<Node>) -> Seq<Tree>
    decreases children.len(),
{
    if children.len() == 0 {
        Seq::empty()
    } else {
        match children.last() {
            Node::Element(child) => elements_of(children.drop_last()).push(child),
            Node::Text(_) => elements_of(children.drop_last()),
        }
    }
}

pub open spec fn text_of(children: Seq<Node>) -> Seq<char>
    decreases children.len(),
{
    if children.len() == 0 {
        Seq::empty()
    } else {
        match children.last() {
            Node::Element(_) => text_of(children.drop_last()),
            Node::Text(text) => text_of(children.drop_last()) + text,
        }
    }
}

/// Lower-case letters and hyphens, the first a letter; or `xml:lang`.
pub open spec fn attr_name(k: Seq<char>) -> bool {
    ||| k == "xml:lang"@
    ||| {
        &&& k.len() > 0
        &&& k[0] != '-'
        &&& forall|i: int| 0 <= i < k.len() ==> #[trigger] k[i] == '-' || 'a' <= k[i] <= 'z'
    }
}

/// `minidom::Element`, by the name under which `xmpp_parsers` exports it.
#[verifier::external_type_specification]
#[verifier::external_body]
pub struct ExElement(Element);

/// What an element holds.
pub uninterp spec fn tree_of(element: Element) -> Tree;

/// What the element that a text spells holds; nothing where the text spells none.
pub uninterp spec fn tree_in(xml: Seq<char>) -> Option<Tree>;

/// How a writable element is written; nothing where it holds a character that XML cannot carry.
pub uninterp spec fn written(tree: Tree) -> Option<Seq<char>>;

/// What each of several elements holds.
pub open spec fn trees_of(elements: Seq<Element>) -> Seq<Tree> {
    elements.map_values(|e: Element| tree_of(e))
}

/// `minidom::Element::from_str`: reads an element from its text. What comes back is a function of
/// the text alone.
#[verifier::external_body]
pub(crate) fn read(xml: &str) -> (r: Option<Element>)
    ensures
        (match r {
            Some(e) => tree_in(xml@) == Some(tree_of(e)),
            None => tree_in(xml@) is None,
        }),
{
    xml.parse::<Element>().ok()
}

/// `minidom::Element::bare`: an element with this name and namespace and nothing in it.
#[verifier::external_body]
fn bare(name: &str, ns: &str) -> (r: Element)
    ensures
        tree_of(r) == leaf(name@, ns@),
{
    Element::bare(name, ns)
}

/// `minidom::Element::set_attr`: adds the attribute, or replaces its value.
#[verifier::external_body]
fn set_attr(element: &mut Element, name: &str, value: &str)
    ensures
        tree_of(*final(element)) == tree_of(*old(element)).with_attr(name@, value@),
{
    element.set_attr(name, value)
}

/// `minidom::Element::append_child`: adds the element as the last child.
#[verifier::external_body]
fn append_child(element: &mut Element, child: Element)
    ensures
        tree_of(*final(element)) == tree_of(*old(element)).with_child(tree_of(child)),
{
    element.append_child(child);
}

/// `minidom::Element::append_text_node`: adds the text as the last child.
#[verifier::external_body]
fn append_text(element: &mut Element, text: &str)
    ensures
        tree_of(*final(element)) == tree_of(*old(element)).with_text(text@),
{
    element.append_text_node(text)
}

/// `minidom::Element::attr`: the value of the attribute, if the element has it.
#[verifier::external_body]
pub(crate) fn attr(element: &Element, name: &str) -> (r: Option<String>)
    ensures
        crate::text::opt(r) == tree_of(*element).attr(name@),
{
    element.attr(name).map(|value| value.to_string())
}

/// `minidom::Element::name`: the local name.
#[verifier::external_body]
pub(crate) fn name(element: &Element) -> (r: &str)
    ensures
        r@ == tree_of(*element).name,
{
    element.name()
}

/// `minidom::Element::is`: whether the element has this name and this namespace.
#[verifier::external_body]
pub(crate) fn is_named(element: &Element, name: &str, ns: &str) -> (r: bool)
    ensures
        r == tree_of(*element).is(name@, ns@),
{
    element.is(name, ns)
}

/// `minidom::Element::children`: copies of the child elements, in order.
#[verifier::external_body]
pub(crate) fn children(element: &Element) -> (r: Vec<Element>)
    ensures
        trees_of(r@) == tree_of(*element).elements(),
{
    element.children().cloned().collect()
}

/// `minidom::Element::text`: the text nodes directly inside the element, one after the other.
#[verifier::external_body]
pub(crate) fn text(element: &Element) -> (r: String)
    ensures
        r@ == tree_of(*element).text(),
{
    element.text()
}

/// `minidom::Element::clone`: an element that holds the same.
#[verifier::external_body]
pub(crate) fn copy(element: &Element) -> (r: Element)
    ensures
        tree_of(r) == tree_of(*element),
{
    element.clone()
}

/// `minidom::Element::write_to`: writes the element out. What is written, and whether it can be, is
/// a function of what the element holds. Where an element declares namespaces, or has an attribute
/// whose name is not one, `write_to` can panic: such elements are left out.
#[verifier::external_body]
fn write(element: &Element) -> (r: Option<String>)
    requires
        tree_of(*element).writable(),
    ensures
        crate::text::opt(r) == written(tree_of(*element)),
{
    let mut bytes = Vec::new();
    element.write_to(&mut bytes).ok()?;
    String::from_utf8(bytes).ok()
}

/// An element that was built here, and so can be written out.
pub struct Built {
    element: Element,
}

impl View for Built {
    type V = Tree;

    closed spec fn view(&self) -> Tree {
        tree_of(self.element)
    }
}

/// What each of several built elements holds.
pub open spec fn built_trees(elements: Seq<Built>) -> Seq<Tree> {
    elements.map_values(|e: Built| e@)
}

impl Clone for Built {
    fn clone(&self) -> (r: Built)
        ensures
            r@ == self@,
    {
        proof {
            use_type_invariant(self);
        }
        Built { element: copy(&self.element) }
    }
}

impl Built {
    #[verifier::type_invariant]
    spec fn inv(self) -> bool {
        tree_of(self.element).writable()
    }

    /// An element with this name and namespace and nothing in it.
    pub fn new(name: &str, ns: &str) -> (r: Built)
        ensures
            r@ == leaf(name@, ns@),
    {
        proof {
            lemma_writable_leaf(name@, ns@);
        }
        Built { element: bare(name, ns) }
    }

    /// Takes over an element that can be written out.
    pub(crate) fn adopt(element: Element) -> (r: Built)
        requires
            tree_of(element).writable(),
        ensures
            r@ == tree_of(element),
    {
        Built { element }
    }

    /// With this attribute.
    pub fn attr(self, name: &str, value: &str) -> (r: Built)
        requires
            attr_name(name@),
        ensures
            r@ == self@.with_attr(name@, value@),
    {
        proof {
            use_type_invariant(&self);
            lemma_writable_attr(self@, name@, value@);
        }
        let mut element = self.element;
        set_attr(&mut element, name, value);
        Built { element }
    }

    /// With this attribute where there is a value for it.
    pub fn opt_attr(self, name: &str, value: &Option<String>) -> (r: Built)
        requires
            attr_name(name@),
        ensures
            r@ == self@.with_opt_attr(name@, crate::text::opt(*value)),
    {
        match value {
            Some(value) => self.attr(name, value.as_str()),
            None => self,
        }
    }

    /// With this element as the last child.
    pub fn child(self, child: Built) -> (r: Built)
        ensures
            r@ == self@.with_child(child@),
    {
        proof {
            use_type_invariant(&self);
            use_type_invariant(&child);
            lemma_writable_child(self@, child@);
        }
        let mut element = self.element;
        append_child(&mut element, child.element);
        Built { element }
    }

    /// With copies of these elements as the last children, in order.
    pub fn children(self, children: &Vec<Built>) -> (r: Built)
        ensures
            r@ == self@.with_children(built_trees(children@)),
    {
        let ghost start = self@;
        let ghost all = built_trees(children@);
        let mut r = self;
        assert(start.with_children(all.take(0)).children =~= start.children);
        for i in 0..children.len()
            invariant
                all == built_trees(children@),
                r@ == start.with_children(all.take(i as int)),
        {
            r = r.child(children[i].clone());
            proof {
                assert(all.take(i + 1) =~= all.take(i as int).push(all[i as int]));
                assert(r@.children =~= start.with_children(all.take(i + 1)).children);
            }
        }
        assert(all.take(children.len() as int) =~= all);
        r
    }

    /// With this text as the last child.
    pub fn text(self, text: &str) -> (r: Built)
        ensures
            r@ == self@.with_text(text@),
    {
        proof {
            use_type_invariant(&self);
            lemma_writable_text(self@, text@);
        }
        let mut element = self.element;
        append_text(&mut element, text);
        Built { element }
    }

    /// The element itself.
    pub fn as_element(&self) -> (r: &Element)
        ensures
            tree_of(*r) == self@,
    {
        &self.element
    }

    /// The local name.
    pub fn name(&self) -> (r: &str)
        ensures
            r@ == self@.name,
    {
        name(&self.element)
    }

    /// How the element is written; nothing where it holds a character that XML cannot carry.
    pub fn write(&self) -> (r: Option<String>)
        ensures
            crate::text::opt(r) == written(self@),
    {
        proof {
            use_type_invariant(self);
        }
        write(&self.element)
    }
}

/// Copies of several built elements.
pub fn copy_all(elements: &Vec<Built>) -> (r: Vec<Built>)
    ensures
        built_trees(r@) == built_trees(elements@),
{
    let mut r: Vec<Built> = Vec::new();
    for i in 0..elements.len()
        invariant
            r@.len() == i,
            forall|j: int| 0 <= j < i ==> (#[trigger] r@[j])@ == elements@[j]@,
    {
        r.push(elements[i].clone());
    }
    assert(built_trees(r@) =~= built_trees(elements@));
    r
}

proof fn lemma_writable_leaf(name: Seq<char>, ns: Seq<char>)
    ensures
        leaf(name, ns).writable(),
{
}

proof fn lemma_writable_attr(t: Tree, name: Seq<char>, value: Seq<char>)
    requires
        t.writable(),
        attr_name(name),
    ensures
        t.with_attr(name, value).writable(),
{
}

proof fn lemma_writable_child(t: Tree, child: Tree)
    requires
        t.writable(),
        child.writable(),
    ensures
        t.with_child(child).writable(),
{
    let r = t.with_child(child);
    assert forall|i: int| 0 <= i < r.children.len() implies match #[trigger] r.children[i] {
        Node::Element(c) => c.writable(),
        Node::Text(_) => true,
    } by {
        if i < t.children.len() {
            assert(r.children[i] == t.children[i]);
        }
    }
}

proof fn lemma_writable_text(t: Tree, text: Seq<char>)
    requires
        t.writable(),
    ensures
        t.with_text(text).writable(),
{
    let r = t.with_text(text);
    assert forall|i: int| 0 <= i < r.children.len() implies match #[trigger] r.children[i] {
        Node::Element(c) => c.writable(),
        Node::Text(_) => true,
    } by {
        if i < t.children.len() {
            assert(r.children[i] == t.children[i]);
        }
    }
}

} // verus!
