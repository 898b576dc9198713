//! Fibers: the mutable work units of the engine.
//!
//! A fiber records one tree position of one render pass. Fibers live in an
//! arena (`Context::fibers`) and link to parent, first child, next sibling
//! and to their `alternate` — the fiber at the same position in the
//! previously committed tree — by arena index.

use vstd::prelude::*;
use crate::element::NodeType;
use crate::props::ElementProps;

verus! {

/// What a fiber needs applied to the host tree.
#[derive(Clone, Copy, PartialEq, Eq, Structural, Debug)]
pub enum FiberEffect {
    Placement,
    Update,
    Deletion,
}

/// One work unit. All links are indices into the fiber arena.
pub struct Fiber {
    /// Tag identity, copied from the element that seeded this fiber, or
    /// `Root` for a tree root.
    pub fiber_type: NodeType,
    /// Current properties; absent on a fresh root.
    pub props: Option<ElementProps>,
    /// Pending, not yet reconciled child elements (element-arena indices).
    pub element_children: Option<Vec<usize>>,
    /// The corresponding host node, absent until created.
    pub host_node: Option<usize>,
    /// The enclosing fiber.
    pub parent: Option<usize>,
    /// The next fiber at the same depth.
    pub sibling: Option<usize>,
    /// The first child fiber.
    pub child: Option<usize>,
    /// The fiber at the same position in the previously committed tree.
    pub alternate: Option<usize>,
    /// The pending host mutation, if any.
    pub effect_tag: Option<FiberEffect>,
    /// The component function handle; present only on functional fibers.
    pub component_function: Option<u64>,
    /// The component argument handle; present only on functional fibers.
    pub component_props: Option<u64>,
    /// Ordered state cells; meaningful only for functional fibers.
    pub hooks: Vec<u64>,
    /// Index of the next state cell to be read during this fiber's run.
    pub hook_index: usize,
}

impl Fiber {
    /// A fresh, unlinked fiber of the given type.
    pub fn new(fiber_type: NodeType) -> (r: Fiber)
        ensures
            r.fiber_type == fiber_type,
            r.props is None,
            r.element_children is None,
            r.host_node is None,
            r.parent is None,
            r.sibling is None,
            r.child is None,
            r.alternate is None,
            r.effect_tag is None,
            r.component_function is None,
            r.component_props is None,
            r.hooks@ == Seq::<u64>::empty(),
            r.hook_index == 0,
    {
        Fiber {
            fiber_type,
            props: Option::None,
            element_children: Option::None,
            host_node: Option::None,
            parent: Option::None,
            sibling: Option::None,
            child: Option::None,
            alternate: Option::None,
            effect_tag: Option::None,
            component_function: Option::None,
            component_props: Option::None,
            hooks: Vec::new(),
            hook_index: 0,
        }
    }

    /// A fresh root fiber.
    pub fn new_root() -> (r: Fiber)
        ensures
            r.fiber_type is Root,
            r.props is None,
            r.element_children is None,
            r.host_node is None,
            r.parent is None,
            r.sibling is None,
            r.child is None,
            r.alternate is None,
            r.effect_tag is None,
            r.component_function is None,
            r.component_props is None,
            r.hooks@ == Seq::<u64>::empty(),
            r.hook_index == 0,
    {
        Fiber::new(NodeType::Root)
    }

    /// Whether this fiber runs a functional component.
    pub fn is_functional_tree(&self) -> (r: bool)
        ensures
            r == (self.fiber_type is Functional),
    {
        match self.fiber_type {
            NodeType::Functional => true,
            _ => false,
        }
    }

    /// Whether this fiber stands for a text node.
    pub fn is_text_fiber(&self) -> (r: bool)
        ensures
            r == (self.fiber_type is Text),
    {
        match self.fiber_type {
            NodeType::Text => true,
            _ => false,
        }
    }
}

} // verus!
