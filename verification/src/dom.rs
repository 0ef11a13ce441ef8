//! The document tree that layout reads: element and text nodes linked through
//! `first_child` and `next_sibling`, plus the search that locates the
//! body-equivalent layout root.

use vstd::prelude::*;

verus! {

/// The element vocabulary that the engine recognizes.
#[derive(Debug, Clone, Copy, PartialEq, Eq, Structural)]
pub enum ElementKind {
    Html,
    Head,
    Body,
    Div,
    P,
    Span,
    A,
    H1,
}

/// What a document node is: an element of some kind, or a run of text.
#[derive(Debug, Clone, PartialEq, Eq)]
pub enum NodeKind {
    Element(ElementKind),
    Text(String),
}

/// One node of the document tree. Layout only reads these; the tree is owned
/// through `first_child` and `next_sibling`.
#[derive(Debug, PartialEq, Eq)]
pub struct Node {
    pub kind: NodeKind,
    pub first_child: Option<Box<Node>>,
    pub next_sibling: Option<Box<Node>>,
}

impl Node {
    /// A leaf node with no children and no following sibling.
    pub fn new(kind: NodeKind) -> (r: Node)
        ensures
            r.kind == kind,
            r.first_child is None,
            r.next_sibling is None,
    {
        Node { kind, first_child: None, next_sibling: None }
    }
}

/// Copies a node classification; the copy is equal to the original.
pub fn clone_node_kind(kind: &NodeKind) -> (r: NodeKind)
    ensures
        r == *kind,
{
    match kind {
        NodeKind::Element(e) => NodeKind::Element(*e),
        NodeKind::Text(s) => NodeKind::Text(s.clone()),
    }
}

/// Whether `kind` classifies an element node of kind `element_kind`.
pub open spec fn spec_is_element_of(kind: NodeKind, element_kind: ElementKind) -> bool {
    kind == NodeKind::Element(element_kind)
}

/// The first node of element kind `element_kind` in the subtree rooted at
/// `node` (the node itself, then its descendants, then its following
/// siblings and their descendants, in document order).
pub open spec fn spec_find_element(node: Node, element_kind: ElementKind) -> Option<Node>
    decreases node,
{
    if spec_is_element_of(node.kind, element_kind) {
        Some(node)
    } else if spec_find_element_opt(node.first_child, element_kind) is Some {
        spec_find_element_opt(node.first_child, element_kind)
    } else {
        spec_find_element_opt(node.next_sibling, element_kind)
    }
}

/// `spec_find_element`, lifted to an optional starting node.
pub open spec fn spec_find_element_opt(node: Option<Box<Node>>, element_kind: ElementKind) -> Option<
    Node,
>
    decreases node,
{
    match node {
        None => None,
        Some(n) => spec_find_element(*n, element_kind),
    }
}

/// Tests whether a node classification is an element of the given kind.
pub fn node_is_element_of(kind: &NodeKind, element_kind: ElementKind) -> (r: bool)
    ensures
        r == spec_is_element_of(*kind, element_kind),
{
    match kind {
        NodeKind::Element(e) => *e == element_kind,
        NodeKind::Text(_) => false,
    }
}

/// Returns the first node of kind `element_kind` in document order, searching
/// `node` itself, then its subtree, then its following siblings.
pub fn get_target_element_node<'a>(node: &'a Node, element_kind: ElementKind) -> (r: Option<
    &'a Node,
>)
    ensures
        match r {
            Some(found) => spec_find_element(*node, element_kind) == Some(*found),
            None => spec_find_element(*node, element_kind) is None,
        },
    decreases *node,
{
    if node_is_element_of(&node.kind, element_kind) {
        Some(node)
    } else {
        let in_children = get_target_element_node_opt(&node.first_child, element_kind);
        match in_children {
            Some(found) => Some(found),
            None => get_target_element_node_opt(&node.next_sibling, element_kind),
        }
    }
}

/// `get_target_element_node`, lifted to an optional starting node.
pub fn get_target_element_node_opt<'a>(
    node: &'a Option<Box<Node>>,
    element_kind: ElementKind,
) -> (r: Option<&'a Node>)
    ensures
        match r {
            Some(found) => spec_find_element_opt(*node, element_kind) == Some(*found),
            None => spec_find_element_opt(*node, element_kind) is None,
        },
    decreases *node,
{
    match node {
        None => None,
        Some(n) => get_target_element_node(&**n, element_kind),
    }
}

} // verus!
