//! Elements: the immutable description of one desired node of the tree.
//!
//! Elements live in an arena (`Context::elements`) and refer to their
//! children by arena index. An element's children always have smaller
//! indices than the element itself, so element trees are acyclic by
//! construction.

use vstd::prelude::*;
use crate::props::ElementProps;

verus! {

/// The tag identity of an element or fiber.
pub enum NodeType {
    /// The synthetic type of the tree root.
    Root,
    /// A host element of the given tag.
    Host(String),
    /// A text node.
    Text,
    /// A functional component.
    Functional,
}

/// Whether two tags denote the same node type. Host tags are compared by
/// contents; two functional nodes always match, whichever component they run.
pub open spec fn type_matches(a: NodeType, b: NodeType) -> bool {
    match (a, b) {
        (NodeType::Root, NodeType::Root) => true,
        (NodeType::Host(x), NodeType::Host(y)) => x@ == y@,
        (NodeType::Text, NodeType::Text) => true,
        (NodeType::Functional, NodeType::Functional) => true,
        _ => false,
    }
}

/// Whether a tag marks a functional component.
pub open spec fn is_functional_type(t: NodeType) -> bool {
    t is Functional
}

/// Compares two tags.
pub fn node_type_eq(a: &NodeType, b: &NodeType) -> (r: bool)
    ensures
        r == type_matches(*a, *b),
{
    match (a, b) {
        (NodeType::Root, NodeType::Root) => true,
        (NodeType::Host(x), NodeType::Host(y)) => x.eq(y),
        (NodeType::Text, NodeType::Text) => true,
        (NodeType::Functional, NodeType::Functional) => true,
        _ => false,
    }
}

/// Clones a tag.
pub fn clone_node_type(t: &NodeType) -> (r: NodeType)
    ensures
        r == *t,
{
    match t {
        NodeType::Root => NodeType::Root,
        NodeType::Host(s) => NodeType::Host(s.clone()),
        NodeType::Text => NodeType::Text,
        NodeType::Functional => NodeType::Functional,
    }
}

/// One immutable description node. `children` holds element-arena indices;
/// the component fields are present only on functional elements and name the
/// component function and its argument by embedding-level handles.
pub struct Element {
    pub element_type: NodeType,
    pub props: ElementProps,
    pub children: Vec<usize>,
    pub component_function: Option<u64>,
    pub component_props: Option<u64>,
}

impl Element {
    /// A plain element of the given type, properties and children.
    pub fn new(element_type: NodeType, props: ElementProps, children: Vec<usize>) -> (r: Element)
        ensures
            r.element_type == element_type,
            r.props == props,
            r.children == children,
            r.component_function is None,
            r.component_props is None,
    {
        Element {
            element_type,
            props,
            children,
            component_function: Option::None,
            component_props: Option::None,
        }
    }

    /// Whether this element describes a text node.
    pub fn is_text_element(&self) -> (r: bool)
        ensures
            r == (self.element_type is Text),
    {
        match self.element_type {
            NodeType::Text => true,
            _ => false,
        }
    }

    /// The tag identity of this element.
    pub fn element_type(&self) -> (r: &NodeType)
        ensures
            r == &self.element_type,
    {
        &self.element_type
    }

    /// The property bag of this element.
    pub fn props(&self) -> (r: &ElementProps)
        ensures
            r == &self.props,
    {
        &self.props
    }

    /// The child elements, as arena indices.
    pub fn children(&self) -> (r: &Vec<usize>)
        ensures
            r == &self.children,
    {
        &self.children
    }
}

} // verus!
