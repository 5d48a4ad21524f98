use vstd::prelude::*;
use crate::nesting::{nesting_within, MAX_NESTING};
use crate::text::same_text;

verus! {

/// One attribute of an element: its local name and its value.
pub struct Attribute {
    pub name: String,
    pub value: String,
}

/// An element of a parsed document as the extraction reads it: its local
/// name and its attributes.
pub struct Element {
    pub name: String,
    pub attributes: Vec<Attribute>,
}

/// A child of the document's root: an element, or some other node (text,
/// a comment, a processing instruction) that extraction passes over.
pub enum Node {
    Element(Element),
    Other,
}

/// What an element's attributes say: each name mapped to its value. Should
/// a name occur twice, the later value stands.
pub open spec fn attribute_map(attrs: Seq<Attribute>) -> Map<Seq<char>, Seq<char>>
    decreases attrs.len(),
{
    if attrs.len() == 0 {
        Map::empty()
    } else {
        attribute_map(attrs.drop_last()).insert(attrs.last().name@, attrs.last().value@)
    }
}

impl View for Element {
    type V = (Seq<char>, Map<Seq<char>, Seq<char>>);

    open spec fn view(&self) -> Self::V {
        (self.name@, attribute_map(self.attributes@))
    }
}

impl View for Node {
    type V = Option<(Seq<char>, Map<Seq<char>, Seq<char>>)>;

    open spec fn view(&self) -> Self::V {
        match self {
            Node::Element(e) => Some(e@),
            Node::Other => None,
        }
    }
}

/// The views of a sequence of nodes.
pub open spec fn nodes_view(nodes: Seq<Node>) -> Seq<Option<(Seq<char>, Map<Seq<char>, Seq<char>>)>> {
    nodes.map_values(|n: Node| n@)
}

/// The direct children of the root element of the XML document `text`, in
/// document order, or `None` where the XML parser rejects the text.
pub uninterp spec fn xml_root_children(text: Seq<char>) -> Option<
    Seq<Option<(Seq<char>, Map<Seq<char>, Seq<char>>)>>,
>;

/// Relies on xmltree::Element::parse: it returns the document's root
/// element, with its children in document order and each element's
/// attributes keyed by local name, or an error where the parser rejects the
/// text. It builds the tree by one recursive call per level of nesting, so
/// the nesting is bounded first; the bound's scan follows the tokens of
/// xml-rs 0.8.4, the parser underneath.
#[verifier::external_body]
pub(crate) fn parse_root_children(text: &str) -> (r: Option<Vec<Node>>)
    requires
        nesting_within(text@, MAX_NESTING as nat),
    ensures
        match r {
            Some(nodes) => xml_root_children(text@) == Some(nodes_view(nodes@)),
            None => xml_root_children(text@) is None,
        },
{
    let root = match xmltree::Element::parse(text.as_bytes()) {
        Ok(root) => root,
        Err(_) => return None,
    };
    Some(root.children.into_iter().map(|node| match node {
        xmltree::XMLNode::Element(e) => Node::Element(Element {
            name: e.name,
            attributes: e.attributes.into_iter().map(|(name, value)| Attribute { name, value }).collect(),
        }),
        _ => Node::Other,
    }).collect())
}

/// The value of the attribute `name` of `element`, if it has one.
pub fn attribute_value(element: &Element, name: &str) -> (r: Option<String>)
    ensures
        match r {
            Some(v) => element@.1.contains_key(name@) && element@.1[name@] == v@,
            None => !element@.1.contains_key(name@),
        },
{
    let mut found: Option<String> = None;
    let mut i: usize = 0;
    while i < element.attributes.len()
        invariant
            i <= element.attributes.len(),
            match found {
                Some(v) => attribute_map(element.attributes@.take(i as int)).contains_key(name@)
                    && attribute_map(element.attributes@.take(i as int))[name@] == v@,
                None => !attribute_map(element.attributes@.take(i as int)).contains_key(name@),
            },
        decreases element.attributes.len() - i,
    {
        let attr = &element.attributes[i];
        proof {
            assert(element.attributes@.take(i + 1).drop_last() =~= element.attributes@.take(i as int));
        }
        if same_text(attr.name.as_str(), name) {
            found = Some(attr.value.clone());
        }
        i = i + 1;
    }
    proof {
        assert(element.attributes@.take(i as int) =~= element.attributes@);
    }
    found
}

} // verus!
