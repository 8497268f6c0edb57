//! Parsed XML as a flat list of nodes in document order, which is what the
//! response readers of this crate walk.

use vstd::prelude::*;
use crate::text::owned;

verus! {

/// One node of a document: where it hangs, whether it is an element, its
/// local tag name (empty unless it is an element), and its text: for an
/// element that of its first child if that is a text node, for a text or
/// comment node its own.
pub struct XmlNode {
    pub parent: Option<usize>,
    pub element: bool,
    pub name: String,
    pub text: Option<String>,
}

pub struct XmlNodeView {
    pub parent: Option<usize>,
    pub element: bool,
    pub name: Seq<char>,
    pub text: Option<Seq<char>>,
}

impl View for XmlNode {
    type V = XmlNodeView;

    open spec fn view(&self) -> XmlNodeView {
        XmlNodeView {
            parent: self.parent,
            element: self.element,
            name: self.name@,
            text: match self.text {
                Some(t) => Some(t@),
                None => None,
            },
        }
    }
}

/// A document: its nodes in document order, the root first.
pub struct XmlDocument {
    pub nodes: Vec<XmlNode>,
}

impl View for XmlDocument {
    type V = Seq<XmlNodeView>;

    open spec fn view(&self) -> Seq<XmlNodeView> {
        self.nodes@.map_values(|n: XmlNode| n@)
    }
}

/// Why `roxmltree` refused a text.
#[verifier::external_type_specification]
#[verifier::external_body]
pub struct ExXmlError(roxmltree::Error);

/// The nodes that `roxmltree` reads out of a text, or `None` where it
/// refuses the text.
pub uninterp spec fn xml_nodes(text: Seq<char>) -> Option<Seq<XmlNodeView>>;

/// `roxmltree::Document::parse`, with each node of `descendants()` (which
/// walks the whole document in order, the node's id being its position)
/// copied out: `parent().id()`, `is_element()`, `tag_name().name()` and
/// `text()`. The contract only names that result.
#[verifier::external_body]
fn read_nodes(text: &str) -> (r: Result<Vec<XmlNode>, roxmltree::Error>)
    ensures
        match r {
            Ok(nodes) => xml_nodes(text@) == Some(nodes@.map_values(|n: XmlNode| n@)),
            Err(_) => xml_nodes(text@) is None,
        },
{
    let doc = roxmltree::Document::parse(text)?;
    Ok(
        doc.descendants().map(
            |n|
                XmlNode {
                    parent: n.parent().map(|p| p.id().get_usize()),
                    element: n.is_element(),
                    name: n.tag_name().name().to_string(),
                    text: n.text().map(String::from),
                },
        ).collect(),
    )
}

/// Whether `node` is an element with the local tag name `name`.
pub open spec fn is_tag(node: XmlNodeView, name: Seq<char>) -> bool {
    node.element && node.name == name
}

/// What a search looks for: an element, under `parent` if one is given, with
/// the tag `name` if one is given.
pub struct Pattern {
    pub parent: Option<usize>,
    pub name: Option<Seq<char>>,
}

/// Whether `node` is what `pattern` looks for.
pub open spec fn fits(node: XmlNodeView, pattern: Pattern) -> bool {
    &&& node.element
    &&& pattern.parent is Some ==> node.parent == pattern.parent
    &&& pattern.name matches Some(n) ==> node.name == n
}

/// The first node at or after `from` that fits `pattern`.
pub open spec fn first_fit(nodes: Seq<XmlNodeView>, pattern: Pattern, from: int) -> Option<usize>
    decreases nodes.len() - from,
{
    if from < 0 || from >= nodes.len() {
        None
    } else if fits(nodes[from], pattern) {
        Some(from as usize)
    } else {
        first_fit(nodes, pattern, from + 1)
    }
}

/// The first node with tag `name`, anywhere in the document.
pub open spec fn first_tag(nodes: Seq<XmlNodeView>, name: Seq<char>) -> Option<usize> {
    first_fit(nodes, Pattern { parent: None, name: Some(name) }, 0)
}

/// The first child of `parent` with tag `name`.
pub open spec fn first_child_tag(nodes: Seq<XmlNodeView>, parent: usize, name: Seq<char>) -> Option<
    usize,
> {
    first_fit(nodes, Pattern { parent: Some(parent), name: Some(name) }, 0)
}

/// The first child of `parent` that is an element.
pub open spec fn first_child_element(nodes: Seq<XmlNodeView>, parent: usize) -> Option<usize> {
    first_fit(nodes, Pattern { parent: Some(parent), name: None }, 0)
}

/// The text of node `i`, when `i` is a node that has one.
pub open spec fn text_of_node(nodes: Seq<XmlNodeView>, i: Option<usize>) -> Option<Seq<char>> {
    match i {
        Some(i) => if i < nodes.len() {
            nodes[i as int].text
        } else {
            None
        },
        None => None,
    }
}

impl XmlDocument {
    /// Reads `text` as XML.
    pub fn parse(text: &str) -> (r: Option<XmlDocument>)
        ensures
            match r {
                Some(doc) => xml_nodes(text@) == Some(doc@),
                None => xml_nodes(text@) is None,
            },
    {
        match read_nodes(text) {
            Ok(nodes) => Some(XmlDocument { nodes }),
            Err(_) => None,
        }
    }

    /// Number of nodes.
    pub fn len(&self) -> (r: usize)
        ensures
            r == self@.len(),
    {
        self.nodes.len()
    }

    /// Whether node `i` is an element with the tag `name`.
    pub fn has_tag_name(&self, i: usize, name: &str) -> (r: bool)
        requires
            i < self@.len(),
        ensures
            r == is_tag(self@[i as int], name@),
    {
        self.nodes[i].element && self.nodes[i].name == owned(name)
    }

    /// The first element under `parent`, if one is given, with the tag
    /// `name`, if one is given.
    pub fn find(&self, parent: Option<usize>, name: Option<&str>) -> (r: Option<usize>)
        ensures
            r == first_fit(
                self@,
                Pattern {
                    parent,
                    name: match name {
                        Some(n) => Some(n@),
                        None => None,
                    },
                },
                0,
            ),
            r matches Some(i) ==> i < self@.len(),
    {
        let ghost pattern = Pattern {
            parent,
            name: match name {
                Some(n) => Some(n@),
                None => None,
            },
        };
        let mut i: usize = 0;
        while i < self.nodes.len()
            invariant
                i <= self.nodes.len(),
                pattern.parent == parent,
                pattern.name == match name {
                    Some(n) => Some(n@),
                    None => None,
                },
                first_fit(self@, pattern, 0) == first_fit(self@, pattern, i as int),
            decreases self.nodes.len() - i,
        {
            let node = &self.nodes[i];
            let under = match parent {
                Some(p) => match node.parent {
                    Some(q) => q == p,
                    None => false,
                },
                None => true,
            };
            let named = match name {
                Some(n) => node.name == owned(n),
                None => true,
            };
            if node.element && under && named {
                return Some(i);
            }
            i += 1;
        }
        None
    }

    /// The first node with the tag `name`, anywhere in the document.
    pub fn find_tag(&self, name: &str) -> (r: Option<usize>)
        ensures
            r == first_tag(self@, name@),
            r matches Some(i) ==> i < self@.len(),
    {
        self.find(None, Some(name))
    }

    /// The first child of node `parent` with the tag `name`.
    pub fn find_child(&self, parent: usize, name: &str) -> (r: Option<usize>)
        ensures
            r == first_child_tag(self@, parent, name@),
            r matches Some(i) ==> i < self@.len(),
    {
        self.find(Some(parent), Some(name))
    }

    /// The first child of node `parent` that is an element.
    pub fn first_element_child(&self, parent: usize) -> (r: Option<usize>)
        ensures
            r == first_child_element(self@, parent),
            r matches Some(i) ==> i < self@.len(),
    {
        self.find(Some(parent), None)
    }

    /// The text of node `i`, where `i` is a node that has one.
    pub fn text(&self, i: Option<usize>) -> (r: Option<&String>)
        ensures
            match r {
                Some(t) => text_of_node(self@, i) == Some(t@),
                None => text_of_node(self@, i) is None,
            },
    {
        match i {
            Some(i) => {
                if i < self.nodes.len() {
                    match &self.nodes[i].text {
                        Some(t) => Some(t),
                        None => None,
                    }
                } else {
                    None
                }
            },
            None => None,
        }
    }
}

} // verus!
