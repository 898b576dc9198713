//! The engine: reconciliation, the work loop, hooks and the commit pass.
//!
//! All state lives in a [`Context`]: the element arena, the fiber arena, the
//! model host tree and the bookkeeping pointers of the double-buffered
//! current / work-in-progress trees.

use vstd::prelude::*;
use vstd::pervasive::VecAdditionalExecFns;
use crate::element::{Element, NodeType, clone_node_type, is_functional_type, node_type_eq, type_matches};
use crate::fiber::{Fiber, FiberEffect};
use crate::host::{EngineError, HostTree, log_extends};
use crate::props::{ElementProps, opt_props_differ, opt_props_eq, props_eq_spec};
use crate::util::{copy_ids, vec_replace};

verus! {

broadcast use vstd::seq_lib::lemma_seq_contains_after_push;

/// The engine state: three arenas and the render bookkeeping.
pub struct Context {
    /// The element arena. An element's children always have smaller indices.
    pub elements: Vec<Element>,
    /// The fiber arena, across all render passes.
    pub fibers: Vec<Fiber>,
    /// The model host tree and the command log.
    pub host: HostTree,
    /// The root fiber of the render being built, if one is pending.
    pub wip_root: Option<usize>,
    /// The root fiber of the last committed render.
    pub current_root: Option<usize>,
    /// The fiber the work loop performs next.
    pub next_unit_of_work: Option<usize>,
    /// The functional fiber whose component is running, while one is.
    pub wip_functional_fiber: Option<usize>,
    /// Fibers carrying an effect tag, in the order they were recorded.
    pub effects: Vec<usize>,
}

/// `g` equals `f` except that it is tagged for deletion.
pub open spec fn deletion_marked(f: Fiber, g: Fiber) -> bool {
    g == Fiber { effect_tag: Option::Some(FiberEffect::Deletion), ..f }
}

/// The pending child elements of a fiber.
pub open spec fn pending_children(f: Fiber) -> Seq<usize> {
    match f.element_children {
        Option::Some(v) => v@,
        Option::None => Seq::empty(),
    }
}

/// The parts of a context the reconciler never touches: the element arena,
/// the host tree, and the render bookkeeping pointers.
pub open spec fn same_outside_fibers(a: Context, b: Context) -> bool {
    &&& a.elements@ == b.elements@
    &&& a.host.nodes@ == b.host.nodes@
    &&& a.host.commands@ == b.host.commands@
    &&& a.wip_root == b.wip_root
    &&& a.current_root == b.current_root
    &&& a.next_unit_of_work == b.next_unit_of_work
    &&& a.wip_functional_fiber == b.wip_functional_fiber
}

impl Context {
    /// A fresh engine state: empty arenas, no current or pending root.
    pub fn new() -> (r: Context)
        ensures
            r.elements@ == Seq::<Element>::empty(),
            r.fibers@ == Seq::<Fiber>::empty(),
            r.host.nodes@ == Seq::<crate::host::Node>::empty(),
            r.host.commands@ == Seq::<crate::host::HostCommand>::empty(),
            r.wip_root is None,
            r.current_root is None,
            r.next_unit_of_work is None,
            r.wip_functional_fiber is None,
            r.effects@ == Seq::<usize>::empty(),
    {
        Context {
            elements: Vec::new(),
            fibers: Vec::new(),
            host: HostTree::new(),
            wip_root: Option::None,
            current_root: Option::None,
            next_unit_of_work: Option::None,
            wip_functional_fiber: Option::None,
            effects: Vec::new(),
        }
    }

    /// Records a fiber on the effect list.
    fn add_effect(&mut self, effect: usize)
        ensures
            final(self).effects@ == old(self).effects@.push(effect),
            final(self).fibers@ == old(self).fibers@,
            same_outside_fibers(*final(self), *old(self)),
    {
        self.effects.push(effect);
    }

    /// Creates one child fiber of `parent` for the element `elem`, against
    /// `old_child` — the fiber at the same position in the previous commit,
    /// passed only when its type matches the element's.
    ///
    /// The effect tag follows the diffing rules: with no previous fiber the
    /// child is tagged `Placement`; with one of the same type it is tagged
    /// `Update` exactly when the previous properties exist and differ from
    /// the new ones — except that a functional fiber is never tagged
    /// `Update`, since only its output carries property changes.
    pub fn reconcile_child(
        &mut self,
        parent: usize,
        elem: usize,
        old_child: Option<usize>,
    ) -> (r: usize)
        requires
            elem < old(self).elements@.len(),
            old_child matches Option::Some(o) ==> o < old(self).fibers@.len() && type_matches(
                old(self).fibers@[o as int].fiber_type,
                old(self).elements@[elem as int].element_type,
            ),
        ensures
            r == old(self).fibers@.len(),
            final(self).fibers@.len() == old(self).fibers@.len() + 1,
            forall|j: int|
                0 <= j < old(self).fibers@.len() ==> final(self).fibers@[j] == old(self).fibers@[j],
            same_outside_fibers(*final(self), *old(self)),
            final(self).effects@ == old(self).effects@,
            ({
                let e = old(self).elements@[elem as int];
                let f = final(self).fibers@[r as int];
                &&& f.fiber_type == e.element_type
                &&& f.props == Option::Some(e.props)
                &&& f.element_children is Some
                &&& (f.element_children->0)@ == e.children@
                &&& f.parent == Option::Some(parent)
                &&& f.sibling is None
                &&& f.child is None
                &&& f.alternate == old_child
                &&& (old_child is None ==> f.host_node is None)
                &&& (old_child is Some ==> f.host_node == old(self).fibers@[(old_child->0) as int].host_node)
                &&& f.component_function == e.component_function
                &&& f.component_props == e.component_props
                &&& f.hooks@ == Seq::<u64>::empty()
                &&& f.hook_index == 0
                &&& (old_child is None ==> f.effect_tag == Option::Some(FiberEffect::Placement))
                &&& (old_child is Some && e.element_type is Functional ==> f.effect_tag is None)
                &&& (!is_functional_type(e.element_type) && old_child is Some && old(self).fibers@[(old_child->0) as int].props is None ==> f.effect_tag is None)
                &&& (!is_functional_type(e.element_type) && old_child is Some && opt_props_eq(
                    old(self).fibers@[(old_child->0) as int].props,
                    e.props,
                ) ==> f.effect_tag is None)
                &&& (!is_functional_type(e.element_type) && old_child is Some && opt_props_differ(
                    old(self).fibers@[(old_child->0) as int].props,
                    e.props,
                ) ==> f.effect_tag == Option::Some(FiberEffect::Update))
            }),
    {
        let e = &self.elements[elem];
        let functional = match e.element_type {
            NodeType::Functional => true,
            _ => false,
        };
        let effect: Option<FiberEffect> = match old_child {
            Option::None => Option::Some(FiberEffect::Placement),
            Option::Some(o) => if functional {
                Option::None
            } else {
                match &self.fibers[o].props {
                    Option::Some(op) => if e.props.same_as(op) {
                        Option::None
                    } else {
                        Option::Some(FiberEffect::Update)
                    },
                    Option::None => Option::None,
                }
            },
        };
        let host_node: Option<usize> = match old_child {
            Option::Some(o) => self.fibers[o].host_node,
            Option::None => Option::None,
        };
        let newf = Fiber {
            fiber_type: clone_node_type(&e.element_type),
            props: Option::Some(e.props.duplicate()),
            element_children: Option::Some(copy_ids(&e.children)),
            host_node,
            parent: Option::Some(parent),
            sibling: Option::None,
            child: Option::None,
            alternate: old_child,
            effect_tag: effect,
            component_function: e.component_function,
            component_props: e.component_props,
            hooks: Vec::new(),
            hook_index: 0,
        };
        let r = self.fibers.len();
        self.fibers.push(newf);
        r
    }
}

/// `g` equals `f` except possibly for its first-child link and a deletion
/// tag: all a parent fiber can gain while its children are reconciled.
pub open spec fn same_but_child(f: Fiber, g: Fiber, c: Option<usize>) -> bool {
    g == Fiber { child: c, ..f } || g == Fiber {
        child: c,
        effect_tag: Option::Some(FiberEffect::Deletion),
        ..f
    }
}

/// A fiber value used only while another fiber is temporarily out of the
/// arena.
fn fiber_placeholder() -> (r: Fiber)
    ensures
        r.fiber_type is Root,
{
    Fiber::new(NodeType::Root)
}

/// The head of the previous child list: the first child of `wip`'s
/// alternate, if the alternate link is in range.
pub open spec fn alt_first_child(fibers: Seq<Fiber>, wip: int) -> Option<usize> {
    match fibers[wip].alternate {
        Option::Some(a) => if (a as int) < fibers.len() {
            fibers[a as int].child
        } else {
            Option::None
        },
        Option::None => Option::None,
    }
}

/// The sibling chain from `cur`; empty at an out-of-range link or when the
/// fuel runs out.
pub open spec fn old_child_chain(fibers: Seq<Fiber>, cur: Option<usize>, fuel: nat) -> Seq<usize>
    decreases fuel,
{
    match cur {
        Option::None => Seq::empty(),
        Option::Some(o) => if fuel == 0 || o >= fibers.len() {
            Seq::empty()
        } else {
            seq![o] + old_child_chain(fibers, fibers[o as int].sibling, (fuel - 1) as nat)
        },
    }
}

/// Whether the sibling chain from `cur` ends within `fuel` steps with every
/// link in range: the condition under which the diff can walk it.
pub open spec fn chain_closed(fibers: Seq<Fiber>, cur: Option<usize>, fuel: nat) -> bool
    decreases fuel,
{
    match cur {
        Option::None => true,
        Option::Some(o) => fuel > 0 && o < fibers.len() && chain_closed(
            fibers,
            fibers[o as int].sibling,
            (fuel - 1) as nat,
        ),
    }
}

/// Whether position `i` of the diff pairs a new element with an old fiber
/// of the same type: the condition for reuse instead of placement and
/// deletion.
pub open spec fn chain_matched(
    fibers: Seq<Fiber>,
    elements: Seq<Element>,
    chain: Seq<usize>,
    pend: Seq<usize>,
    i: int,
) -> bool {
    &&& 0 <= i < chain.len()
    &&& i < pend.len()
    &&& pend[i] < elements.len()
    &&& chain[i] < fibers.len()
    &&& type_matches(fibers[chain[i] as int].fiber_type, elements[pend[i] as int].element_type)
}

/// The old fibers of the first `k` positions that the diff tags for
/// deletion — those without a same-typed new element at their position —
/// in chain order.
pub open spec fn marked_prefix(
    fibers: Seq<Fiber>,
    elements: Seq<Element>,
    chain: Seq<usize>,
    pend: Seq<usize>,
    k: int,
) -> Seq<usize>
    decreases k,
{
    if k <= 0 {
        Seq::empty()
    } else {
        let prev = marked_prefix(fibers, elements, chain, pend, k - 1);
        if k - 1 < chain.len() && !chain_matched(fibers, elements, chain, pend, k - 1) {
            prev.push(chain[k - 1])
        } else {
            prev
        }
    }
}

/// Every deletion the diff records, in chain order.
pub open spec fn marked_deletions(
    fibers: Seq<Fiber>,
    elements: Seq<Element>,
    chain: Seq<usize>,
    pend: Seq<usize>,
) -> Seq<usize> {
    marked_prefix(fibers, elements, chain, pend, chain.len() as int)
}

/// Positions past the chain's end add nothing to `marked_prefix`.
proof fn lemma_marked_prefix_stable(
    fibers: Seq<Fiber>,
    elements: Seq<Element>,
    chain: Seq<usize>,
    pend: Seq<usize>,
    k: int,
)
    requires
        k >= chain.len(),
    ensures
        marked_prefix(fibers, elements, chain, pend, k) == marked_deletions(
            fibers,
            elements,
            chain,
            pend,
        ),
    decreases k,
{
    if k > chain.len() {
        lemma_marked_prefix_stable(fibers, elements, chain, pend, k - 1);
    }
}

/// What the diff guarantees of the new child fiber `f` built at position
/// `i`: identity and properties from the element; the old fiber's host node
/// and an alternate link exactly when the types match; the effect tag per
/// the diffing rules — `Placement` for every unmatched child, `Update` only
/// for a same-typed, non-functional child whose previous properties exist
/// and differ.
pub open spec fn child_reconciled(
    fibers: Seq<Fiber>,
    elements: Seq<Element>,
    chain: Seq<usize>,
    pend: Seq<usize>,
    i: int,
    f: Fiber,
    wip: usize,
) -> bool {
    let e = elements[pend[i] as int];
    let matched = chain_matched(fibers, elements, chain, pend, i);
    &&& pend[i] < elements.len()
    &&& f.fiber_type == e.element_type
    &&& f.props == Option::Some(e.props)
    &&& f.element_children is Some
    &&& (f.element_children->0)@ == e.children@
    &&& f.parent == Option::Some(wip)
    &&& f.child is None
    &&& f.component_function == e.component_function
    &&& f.component_props == e.component_props
    &&& f.hooks@ == Seq::<u64>::empty()
    &&& f.hook_index == 0
    &&& (matched ==> f.alternate == Option::Some(chain[i]) && f.host_node == fibers[chain[i] as int].host_node)
    &&& (!matched ==> f.alternate is None && f.host_node is None)
    &&& (!matched ==> f.effect_tag == Option::Some(FiberEffect::Placement))
    &&& (matched && e.element_type is Functional ==> f.effect_tag is None)
    &&& (!is_functional_type(e.element_type) && matched && fibers[chain[i] as int].props is None
        ==> f.effect_tag is None)
    &&& (!is_functional_type(e.element_type) && matched && opt_props_eq(
        fibers[chain[i] as int].props,
        e.props,
    ) ==> f.effect_tag is None)
    &&& (!is_functional_type(e.element_type) && matched && opt_props_differ(
        fibers[chain[i] as int].props,
        e.props,
    ) ==> f.effect_tag == Option::Some(FiberEffect::Update))
}

/// When the diff of `wip`'s pending children `pend` succeeds: the alternate
/// link and every pending element id are in range, and the old sibling
/// chain is in range and acyclic.
pub open spec fn reconcile_would_succeed(
    fibers: Seq<Fiber>,
    elements: Seq<Element>,
    wip: int,
    pend: Seq<usize>,
) -> bool {
    &&& (fibers[wip].alternate matches Option::Some(a) ==> a < fibers.len())
    &&& chain_closed(fibers, alt_first_child(fibers, wip), fibers.len() as nat)
    &&& (forall|i: int| 0 <= i < pend.len() ==> pend[i] < elements.len())
}

/// Everything the diff of `wip`'s pending children `pend` guarantees on
/// success, relating the context before (`pre`) and after (`post`): one new
/// fiber per pending element, reconciled per position against the old
/// sibling chain, linked in order under `wip`; every unmatched old child
/// tagged for deletion and recorded on the effect list, in chain order, and
/// nothing else of the arena or the rest of the context touched.
pub open spec fn children_reconciled(pre: Context, post: Context, wip: usize, pend: Seq<usize>) -> bool {
    let base = pre.fibers@.len() as int;
    let n = pend.len() as int;
    let chain = old_child_chain(
        pre.fibers@,
        alt_first_child(pre.fibers@, wip as int),
        pre.fibers@.len() as nat,
    );
    &&& post.fibers@.len() == base + n
    &&& (forall|j: int|
        base <= j < base + n ==> child_reconciled(
            pre.fibers@,
            pre.elements@,
            chain,
            pend,
            j - base,
            post.fibers@[j],
            wip,
        ))
    &&& (forall|j: int|
        base <= j < base + n - 1 ==> post.fibers@[j].sibling == Option::Some((j + 1) as usize))
    &&& (n > 0 ==> post.fibers@[base + n - 1].sibling is None)
    &&& (n > 0 ==> post.fibers@[wip as int].child == Option::Some(base as usize))
    &&& (n == 0 ==> post.fibers@[wip as int].child == pre.fibers@[wip as int].child)
    &&& same_but_child(
        pre.fibers@[wip as int],
        post.fibers@[wip as int],
        post.fibers@[wip as int].child,
    )
    &&& (forall|j: int|
        0 <= j < base && j != wip ==> post.fibers@[j] == pre.fibers@[j] || deletion_marked(
            pre.fibers@[j],
            post.fibers@[j],
        ))
    &&& (forall|i: int|
        0 <= i < chain.len() && !chain_matched(pre.fibers@, pre.elements@, chain, pend, i)
            ==> post.fibers@[chain[i] as int].effect_tag == Option::Some(FiberEffect::Deletion))
    &&& post.effects@ == pre.effects@ + marked_deletions(pre.fibers@, pre.elements@, chain, pend)
    &&& (forall|j: int|
        0 <= j < base && j != wip && post.fibers@[j] != pre.fibers@[j] ==> marked_deletions(
            pre.fibers@,
            pre.elements@,
            chain,
            pend,
        ).contains(j as usize))
    &&& same_outside_fibers(post, pre)
}

impl Context {
    /// Walks the pending child elements of `wip_unit` and the previous
    /// child fibers (the alternate's children) in parallel, by position:
    /// each position gets a fresh child fiber — reusing the old fiber's
    /// host node when the types match — and each old fiber without a
    /// same-typed new element is tagged `Deletion` and recorded on the
    /// effect list at once, in chain order. The new fibers are linked as a
    /// sibling chain, in order, and the first becomes the parent's child.
    /// `children_reconciled` states the whole outcome; the diff succeeds
    /// exactly when the links it walks are in range and the old chain is
    /// acyclic (`reconcile_would_succeed`).
    #[verifier::loop_isolation(false)]
    #[verifier::rlimit(60)]
    pub fn reconcile_children(&mut self, wip_unit: usize) -> (r: Result<(), EngineError>)
        requires
            wip_unit < old(self).fibers@.len(),
        ensures
            same_outside_fibers(*final(self), *old(self)),
            crate::util::seq_extends(old(self).effects@, final(self).effects@),
            final(self).fibers@.len() >= old(self).fibers@.len(),
            forall|j: int|
                0 <= j < old(self).fibers@.len() && j != wip_unit ==> final(self).fibers@[j] == old(self).fibers@[j] || deletion_marked(old(self).fibers@[j], final(self).fibers@[j]),
            forall|j: int|
                0 <= j < old(self).fibers@.len() && j != wip_unit && final(self).fibers@[j] != old(self).fibers@[j] ==> final(self).effects@.contains(j as usize),
            r is Ok <==> reconcile_would_succeed(
                old(self).fibers@,
                old(self).elements@,
                wip_unit as int,
                pending_children(old(self).fibers@[wip_unit as int]),
            ),
            r is Ok ==> children_reconciled(
                *old(self),
                *final(self),
                wip_unit,
                pending_children(old(self).fibers@[wip_unit as int]),
            ),
    {
        let ghost self0 = *self;
        let children: Vec<usize> = match &self.fibers[wip_unit].element_children {
            Option::Some(v) => copy_ids(v),
            Option::None => Vec::new(),
        };
        let n = children.len();
        let base_exec = self.fibers.len();
        let ghost base = self.fibers@.len() as int;
        let ghost pend = children@;
        let alt: Option<usize> = self.fibers[wip_unit].alternate;
        let mut old_child: Option<usize> = match alt {
            Option::Some(a) => {
                if a >= base_exec {
                    return Result::Err(EngineError::BrokenLink);
                }
                self.fibers[a].child
            },
            Option::None => Option::None,
        };
        let ghost chain = old_child_chain(
            self0.fibers@,
            alt_first_child(self0.fibers@, wip_unit as int),
            self0.fibers@.len() as nat,
        );
        proof {
            assert(old_child == alt_first_child(self0.fibers@, wip_unit as int));
        }
        let mut i: usize = 0;
        let mut fuel: usize = base_exec;
        let ghost mut k: int = 0;
        let ghost mut pos: int = 0;
        let mut previous_sibling: Option<usize> = Option::None;
        let mut first_child: Option<usize> = Option::None;
        while i < n || old_child.is_some()
            invariant
                self.fibers@.len() == base + i,
                i <= n,
                same_outside_fibers(*self, self0),
                0 <= pos <= chain.len(),
                old_child_chain(self0.fibers@, old_child, fuel as nat) =~= chain.skip(pos),
                old_child is None ==> pos == chain.len(),
                old_child is Some ==> k == pos,
                pos <= k,
                i as int == (if k <= n as int {
                    k
                } else {
                    n as int
                }),
                chain_closed(
                    self0.fibers@,
                    alt_first_child(self0.fibers@, wip_unit as int),
                    base as nat,
                ) == chain_closed(self0.fibers@, old_child, fuel as nat),
                forall|j: int|
                    0 <= j < base ==> self.fibers@[j] == self0.fibers@[j] || deletion_marked(
                        self0.fibers@[j],
                        self.fibers@[j],
                    ),
                forall|j: int|
                    0 <= j < base && self.fibers@[j] != self0.fibers@[j] ==> self.effects@.contains(
                        j as usize,
                    ),
                forall|j: int|
                    0 <= j < base && self.fibers@[j] != self0.fibers@[j] ==> marked_prefix(
                        self0.fibers@,
                        self0.elements@,
                        chain,
                        pend,
                        k,
                    ).contains(j as usize),
                self.effects@ == self0.effects@ + marked_prefix(
                    self0.fibers@,
                    self0.elements@,
                    chain,
                    pend,
                    k,
                ),
                forall|t: int| 0 <= t < pos ==> chain[t] < base,
                forall|t: int|
                    0 <= t < pos && !chain_matched(self0.fibers@, self0.elements@, chain, pend, t)
                        ==> self.fibers@[chain[t] as int].effect_tag == Option::Some(
                        FiberEffect::Deletion,
                    ),
                forall|t: int| 0 <= t < i ==> pend[t] < self0.elements@.len(),
                forall|j: int|
                    base <= j < base + i ==> child_reconciled(
                        self0.fibers@,
                        self0.elements@,
                        chain,
                        pend,
                        j - base,
                        self.fibers@[j],
                        wip_unit,
                    ),
                forall|j: int|
                    base <= j < base + i as int - 1 ==> self.fibers@[j].sibling == Option::Some(
                        (j + 1) as usize,
                    ),
                i > 0 ==> self.fibers@[base + i - 1].sibling is None,
                i > 0 ==> previous_sibling == Option::Some((base + i - 1) as usize),
                i == 0 ==> previous_sibling is None,
                i > 0 ==> first_child == Option::Some(base as usize),
                i == 0 ==> first_child is None,
            decreases n - i + fuel,
        {
            let ghost oc0 = old_child;
            let ghost state0 = *self;
            match old_child {
                Option::Some(o) => {
                    if fuel == 0 || o >= base_exec {
                        proof {
                            assert(!chain_closed(self0.fibers@, old_child, fuel as nat));
                        }
                        return Result::Err(EngineError::BrokenLink);
                    }
                },
                Option::None => {},
            }
            let child_elem: Option<usize> = if i < n {
                Option::Some(children[i])
            } else {
                Option::None
            };
            match child_elem {
                Option::Some(ce) => {
                    if ce >= self.elements.len() {
                        return Result::Err(EngineError::BrokenLink);
                    }
                },
                Option::None => {},
            }
            proof {
                if oc0 is Some {
                    assert(chain.skip(pos).len() > 0);
                    assert(chain.skip(pos)[0] == chain[pos]);
                    assert(chain[pos] == oc0->0);
                }
            }
            let has_same_type: bool = match (old_child, child_elem) {
                (Option::Some(o), Option::Some(ce)) => node_type_eq(
                    &self.fibers[o].fiber_type,
                    &self.elements[ce].element_type,
                ),
                _ => false,
            };
            proof {
                if oc0 is Some {
                    let o = oc0->0 as int;
                    assert(self.fibers@[o] == self0.fibers@[o] || deletion_marked(
                        self0.fibers@[o],
                        self.fibers@[o],
                    ));
                    assert(self.fibers@[o].fiber_type == self0.fibers@[o].fiber_type);
                    assert(self.fibers@[o].props == self0.fibers@[o].props);
                    assert(self.fibers@[o].host_node == self0.fibers@[o].host_node);
                    assert(self.fibers@[o].sibling == self0.fibers@[o].sibling);
                }
                if oc0 is Some && child_elem is Some {
                    assert(has_same_type == chain_matched(
                        self0.fibers@,
                        self0.elements@,
                        chain,
                        pend,
                        k,
                    ));
                }
                if oc0 is None || child_elem is None {
                    assert(!chain_matched(self0.fibers@, self0.elements@, chain, pend, k));
                }
            }
            let new_fiber: Option<usize> = match child_elem {
                Option::Some(ce) => {
                    let old_same: Option<usize> = if has_same_type {
                        old_child
                    } else {
                        Option::None
                    };
                    Option::Some(self.reconcile_child(wip_unit, ce, old_same))
                },
                Option::None => Option::None,
            };
            proof {
                if child_elem is Some {
                    assert(child_reconciled(
                        self0.fibers@,
                        self0.elements@,
                        chain,
                        pend,
                        (base + i) - base,
                        self.fibers@[base + i],
                        wip_unit,
                    ));
                }
            }
            match old_child {
                Option::Some(o) => {
                    if !has_same_type {
                        let mut f = vec_replace(&mut self.fibers, o, fiber_placeholder());
                        f.effect_tag = Option::Some(FiberEffect::Deletion);
                        let _ = vec_replace(&mut self.fibers, o, f);
                        self.effects.push(o);
                    }
                },
                Option::None => {},
            }
            proof {
                assert(self.effects@ == self0.effects@ + marked_prefix(
                    self0.fibers@,
                    self0.elements@,
                    chain,
                    pend,
                    k + 1,
                )) by {
                    if oc0 is Some && !chain_matched(self0.fibers@, self0.elements@, chain, pend, k) {
                        assert(self.effects@ =~= self0.effects@ + marked_prefix(
                            self0.fibers@,
                            self0.elements@,
                            chain,
                            pend,
                            k,
                        ).push(chain[k]));
                    }
                }
            }
            match old_child {
                Option::Some(o) => {
                    fuel = fuel - 1;
                    old_child = self.fibers[o].sibling;
                    proof {
                        assert(self.fibers@[o as int].sibling == self0.fibers@[o as int].sibling);
                        assert(old_child_chain(self0.fibers@, oc0, (fuel + 1) as nat) == seq![
                            oc0->0,
                        ] + old_child_chain(self0.fibers@, old_child, fuel as nat));
                        assert(chain.skip(pos) =~= seq![oc0->0] + old_child_chain(
                            self0.fibers@,
                            old_child,
                            fuel as nat,
                        ));
                        assert(pos < chain.len());
                        let sub = old_child_chain(self0.fibers@, old_child, fuel as nat);
                        assert(sub.len() == chain.len() - pos - 1);
                        assert forall|j: int| 0 <= j < sub.len() implies sub[j] == chain.skip(
                            pos + 1,
                        )[j] by {
                            assert(sub[j] == (seq![oc0->0] + sub)[j + 1]);
                            assert((seq![oc0->0] + sub)[j + 1] == chain.skip(pos)[j + 1]);
                            assert(chain.skip(pos)[j + 1] == chain[pos + 1 + j]);
                            assert(chain.skip(pos + 1)[j] == chain[pos + 1 + j]);
                        }
                        assert(sub =~= chain.skip(pos + 1));
                        pos = pos + 1;
                    }
                },
                Option::None => {},
            }
            match new_fiber {
                Option::Some(nf) => {
                    if i == 0 {
                        first_child = Option::Some(nf);
                    } else {
                        match previous_sibling {
                            Option::Some(ps) => {
                                let mut f = vec_replace(&mut self.fibers, ps, fiber_placeholder());
                                f.sibling = Option::Some(nf);
                                let _ = vec_replace(&mut self.fibers, ps, f);
                            },
                            Option::None => {},
                        }
                    }
                    previous_sibling = Option::Some(nf);
                    i = i + 1;
                },
                Option::None => {},
            }
            proof {
                k = k + 1;
            }
        }
        proof {
            lemma_marked_prefix_stable(self0.fibers@, self0.elements@, chain, pend, k);
        }
        match first_child {
            Option::Some(fc) => {
                let mut f = vec_replace(&mut self.fibers, wip_unit, fiber_placeholder());
                f.child = Option::Some(fc);
                let _ = vec_replace(&mut self.fibers, wip_unit, f);
            },
            Option::None => {},
        }
        Result::Ok(())
    }
}


/// Where the work loop stopped.
#[derive(Clone, Copy, PartialEq, Eq, Structural, Debug)]
pub enum WorkStatus {
    /// No work remains; a pending work-in-progress root was committed.
    Idle,
    /// Work remains, but the time budget was exhausted.
    Yielded,
    /// The next unit is a functional fiber: the embedding must invoke the
    /// component behind `function` with `props` — during which the engine's
    /// state reads are valid — and hand the resulting child element to
    /// [`Context::finish_component`].
    NeedsComponent { fiber: usize, function: u64, props: u64 },
}

/// The sibling of the first fiber on the parent chain of `cur` that has one:
/// where the depth-first traversal backtracks to.
pub open spec fn parent_next(fibers: Seq<Fiber>, cur: Option<usize>, fuel: nat) -> Option<usize>
    decreases fuel,
{
    match cur {
        Option::None => Option::None,
        Option::Some(p) => if fuel == 0 || p >= fibers.len() {
            Option::None
        } else if fibers[p as int].sibling is Some {
            fibers[p as int].sibling
        } else {
            parent_next(fibers, fibers[p as int].parent, (fuel - 1) as nat)
        },
    }
}

/// The unit the work loop performs after `u`: its child, else its sibling,
/// else the nearest ancestor's sibling.
pub open spec fn next_unit_spec(fibers: Seq<Fiber>, u: int) -> Option<usize>
    recommends
        0 <= u < fibers.len(),
{
    if fibers[u].child is Some {
        fibers[u].child
    } else if fibers[u].sibling is Some {
        fibers[u].sibling
    } else {
        parent_next(fibers, fibers[u].parent, fibers.len())
    }
}

/// The host node of the nearest ancestor of `cur` that owns one: where a
/// placed node is appended. Functional ancestors own none and are skipped.
pub open spec fn host_ancestor(fibers: Seq<Fiber>, cur: Option<usize>, fuel: nat) -> Option<usize>
    decreases fuel,
{
    match cur {
        Option::None => Option::None,
        Option::Some(p) => if fuel == 0 || p >= fibers.len() {
            Option::None
        } else if fibers[p as int].host_node is Some {
            fibers[p as int].host_node
        } else {
            host_ancestor(fibers, fibers[p as int].parent, (fuel - 1) as nat)
        },
    }
}

/// `g` equals `f` in every field but its pending child elements.
pub open spec fn same_but_pending(f: Fiber, g: Fiber) -> bool {
    &&& g.fiber_type == f.fiber_type
    &&& g.props == f.props
    &&& g.host_node == f.host_node
    &&& g.parent == f.parent
    &&& g.sibling == f.sibling
    &&& g.child == f.child
    &&& g.alternate == f.alternate
    &&& g.effect_tag == f.effect_tag
    &&& g.component_function == f.component_function
    &&& g.component_props == f.component_props
    &&& g.hooks == f.hooks
    &&& g.hook_index == f.hook_index
}

/// The chain walk reads only lengths and sibling links, so arenas that
/// agree on those yield the same chain.
proof fn lemma_chain_congruent(f1: Seq<Fiber>, f2: Seq<Fiber>, cur: Option<usize>, fuel: nat)
    requires
        f1.len() == f2.len(),
        forall|j: int| 0 <= j < f1.len() ==> f1[j].sibling == f2[j].sibling,
    ensures
        old_child_chain(f1, cur, fuel) == old_child_chain(f2, cur, fuel),
        chain_closed(f1, cur, fuel) == chain_closed(f2, cur, fuel),
    decreases fuel,
{
    match cur {
        Option::None => {},
        Option::Some(o) => {
            if fuel == 0 || o >= f1.len() {
            } else {
                lemma_chain_congruent(f1, f2, f1[o as int].sibling, (fuel - 1) as nat);
            }
        },
    }
}

/// The diff's success condition reads only lengths and the sibling, child
/// and alternate links, so arenas that agree on those agree on it.
proof fn lemma_would_succeed_congruent(
    f1: Seq<Fiber>,
    f2: Seq<Fiber>,
    elements: Seq<Element>,
    wip: int,
    pend: Seq<usize>,
)
    requires
        f1.len() == f2.len(),
        0 <= wip < f1.len(),
        forall|j: int|
            0 <= j < f1.len() ==> f1[j].sibling == f2[j].sibling && f1[j].child == f2[j].child
                && f1[j].alternate == f2[j].alternate,
    ensures
        reconcile_would_succeed(f1, elements, wip, pend) == reconcile_would_succeed(
            f2,
            elements,
            wip,
            pend,
        ),
{
    assert(alt_first_child(f1, wip) == alt_first_child(f2, wip));
    lemma_chain_congruent(f1, f2, alt_first_child(f1, wip), f1.len() as nat);
}

/// The state after one unit of work's bookkeeping tail: the fiber recorded
/// on the effect list exactly when it carries a tag, and the next unit
/// selected by the traversal rule; nothing else touched.
pub open spec fn unit_finished(pre: Context, post: Context, unit: usize) -> bool {
    &&& post.elements@ == pre.elements@
    &&& post.fibers@ == pre.fibers@
    &&& post.host.nodes@ == pre.host.nodes@
    &&& post.host.commands@ == pre.host.commands@
    &&& post.wip_root == pre.wip_root
    &&& post.current_root == pre.current_root
    &&& post.wip_functional_fiber == pre.wip_functional_fiber
    &&& post.effects@ == (if pre.fibers@[unit as int].effect_tag is Some {
        pre.effects@.push(unit)
    } else {
        pre.effects@
    })
    &&& post.next_unit_of_work == next_unit_spec(pre.fibers@, unit as int)
}

/// The state after a component's output was staged on its fiber: the
/// active-component marker cleared and — when the component returned a
/// child — that child installed as the fiber's only pending element;
/// nothing else touched.
pub open spec fn component_output_staged(
    pre: Context,
    post: Context,
    unit: usize,
    child: Option<usize>,
) -> bool {
    &&& post.elements@ == pre.elements@
    &&& post.host.nodes@ == pre.host.nodes@
    &&& post.host.commands@ == pre.host.commands@
    &&& post.wip_root == pre.wip_root
    &&& post.current_root == pre.current_root
    &&& post.next_unit_of_work == pre.next_unit_of_work
    &&& post.effects@ == pre.effects@
    &&& post.wip_functional_fiber is None
    &&& post.fibers@.len() == pre.fibers@.len()
    &&& (forall|j: int|
        0 <= j < pre.fibers@.len() && j != unit ==> post.fibers@[j] == pre.fibers@[j])
    &&& (child is None ==> post.fibers@[unit as int] == pre.fibers@[unit as int])
    &&& (child is Some ==> same_but_pending(
        pre.fibers@[unit as int],
        post.fibers@[unit as int],
    ) && pending_children(post.fibers@[unit as int]) == seq![child->0])
}

/// The whole of one completed functional unit: the component output
/// staged, the children reconciled against the old chain, and the
/// bookkeeping tail run — witnessed by the two intermediate states.
pub open spec fn component_unit_done(
    pre: Context,
    post: Context,
    unit: usize,
    child: Option<usize>,
    pend: Seq<usize>,
) -> bool {
    exists|m1: Context, m2: Context|
        component_output_staged(pre, m1, unit, child) && children_reconciled(m1, m2, unit, pend)
            && unit_finished(m2, post, unit)
}

/// The whole of one performed host unit: the host node ensured, the
/// children reconciled against the old chain, and the bookkeeping tail
/// run — witnessed by the two intermediate states.
pub open spec fn host_unit_done(pre: Context, post: Context, unit: usize, pend: Seq<usize>) -> bool {
    exists|m1: Context, m2: Context|
        host_node_ensured(pre, m1, unit) && children_reconciled(m1, m2, unit, pend)
            && unit_finished(m2, post, unit)
}

/// When performing the non-functional unit `unit` succeeds: its host node
/// exists or can be created (a text or host fiber with the needed
/// properties and a non-empty tag), and its children's diff succeeds.
pub open spec fn unit_performable(ctx: Context, unit: usize) -> bool {
    let fib = ctx.fibers@[unit as int];
    &&& (fib.host_node is None ==> (fib.fiber_type is Text || fib.fiber_type is Host)
        && fib.props is Some && (fib.fiber_type is Text ==> ((fib.props->0).node_value) is Some)
        && (fib.fiber_type is Host ==> ((fib.fiber_type->0)@.len() != 0)))
    &&& reconcile_would_succeed(ctx.fibers@, ctx.elements@, unit as int, pending_children(fib))
}

/// When a whole work-loop pass from `pre` succeeds: every unit the
/// traversal reaches — whatever state the units before it left, per
/// `host_unit_done` — is performable (or a ready functional unit, where
/// the pass pauses), and once no unit remains any pending commit is
/// applicable. `fuel` bounds the number of units.
pub open spec fn pass_applicable(pre: Context, fuel: nat) -> bool
    decreases fuel,
{
    match pre.next_unit_of_work {
        Option::None => pre.wip_root is None || effects_applicable(
            pre.fibers@,
            pre.host.nodes@,
            pre.effects@,
        ),
        Option::Some(u) => u < pre.fibers@.len() && (if is_functional_type(
            pre.fibers@[u as int].fiber_type,
        ) {
            functional_unit_ready(pre)
        } else {
            fuel > 0 && unit_performable(pre, u) && (forall|mid: Context|
                host_unit_done(pre, mid, u, pending_children(pre.fibers@[u as int]))
                    ==> pass_applicable(mid, (fuel - 1) as nat))
        }),
    }
}

/// The state after the host node of `unit` was ensured: nothing changes
/// when the fiber already owns one; otherwise exactly one node — a text
/// node seeded with the fiber's text value, or an element of the fiber's
/// tag carrying the present subset of its properties — is appended to the
/// host tree and linked into the fiber.
pub open spec fn host_node_ensured(pre: Context, post: Context, unit: usize) -> bool {
    &&& post.elements@ == pre.elements@
    &&& post.wip_root == pre.wip_root
    &&& post.current_root == pre.current_root
    &&& post.next_unit_of_work == pre.next_unit_of_work
    &&& post.wip_functional_fiber == pre.wip_functional_fiber
    &&& post.effects@ == pre.effects@
    &&& (pre.fibers@[unit as int].host_node is Some ==> post == pre)
    &&& (pre.fibers@[unit as int].host_node is None ==> ({
        let fib = pre.fibers@[unit as int];
        let h = pre.host.nodes@.len() as int;
        &&& post.fibers@.len() == pre.fibers@.len()
        &&& (forall|j: int|
            0 <= j < pre.fibers@.len() && j != unit ==> post.fibers@[j] == pre.fibers@[j])
        &&& post.fibers@[unit as int] == Fiber {
            host_node: Option::Some(pre.host.nodes@.len() as usize),
            ..fib
        }
        &&& post.host.nodes@.len() == pre.host.nodes@.len() + 1
        &&& (forall|j: int|
            0 <= j < pre.host.nodes@.len() ==> post.host.nodes@[j] == pre.host.nodes@[j])
        &&& log_extends(pre.host.commands@, post.host.commands@)
        &&& (fib.fiber_type is Text ==> post.host.nodes@[h] is Text && crate::host::text_of(
            post.host.nodes@[h],
        ).value@ == (((fib.props->0).node_value)->0)@ && crate::host::node_parent(
            post.host.nodes@[h],
        ) is None)
        &&& (fib.fiber_type is Host ==> post.host.nodes@[h] is Element && ({
            let e = crate::host::elem_of(post.host.nodes@[h]);
            let p = fib.props->0;
            &&& e.tag@ == (fib.fiber_type->0)@
            &&& crate::props::opt_str(e.class_name) == crate::props::opt_str(p.class_name)
            &&& crate::props::opt_str(e.input_type) == crate::props::opt_str(p.input_type)
            &&& crate::props::opt_str(e.input_value) == crate::props::opt_str(p.input_value)
            &&& crate::props::opt_str(e.input_placeholder) == crate::props::opt_str(
                p.input_placeholder,
            )
            &&& e.input_checked == p.input_checked
            &&& e.on_click == p.on_click
            &&& e.on_change == p.on_change
            &&& e.on_blur == p.on_blur
            &&& e.on_keydown == p.on_keydown
            &&& e.parent is None
            &&& e.children@ == Seq::<usize>::empty()
        }))
    }))
}

impl Context {
    /// Selects the next unit of work after `u`, depth first: child, else
    /// sibling, else the nearest ancestor's sibling.
    #[verifier::loop_isolation(false)]
    pub fn select_next(&self, u: usize) -> (r: Option<usize>)
        requires
            u < self.fibers@.len(),
        ensures
            r == next_unit_spec(self.fibers@, u as int),
    {
        match self.fibers[u].child {
            Option::Some(c) => {
                return Option::Some(c);
            },
            Option::None => {},
        }
        match self.fibers[u].sibling {
            Option::Some(s) => {
                return Option::Some(s);
            },
            Option::None => {},
        }
        let mut cur: Option<usize> = self.fibers[u].parent;
        let mut fuel: usize = self.fibers.len();
        while cur.is_some()
            invariant
                parent_next(self.fibers@, cur, fuel as nat) == parent_next(
                    self.fibers@,
                    self.fibers@[u as int].parent,
                    self.fibers@.len() as nat,
                ),
            decreases fuel,
        {
            let p = cur.unwrap();
            if fuel == 0 || p >= self.fibers.len() {
                return Option::None;
            }
            match self.fibers[p].sibling {
                Option::Some(s) => {
                    return Option::Some(s);
                },
                Option::None => {},
            }
            cur = self.fibers[p].parent;
            fuel = fuel - 1;
        }
        Option::None
    }

    /// Finds the host node under which a placed fiber's node is appended.
    #[verifier::loop_isolation(false)]
    fn find_host_ancestor(&self, f: usize) -> (r: Option<usize>)
        requires
            f < self.fibers@.len(),
        ensures
            r == host_ancestor(self.fibers@, self.fibers@[f as int].parent, self.fibers@.len() as nat),
    {
        let mut cur: Option<usize> = self.fibers[f].parent;
        let mut fuel: usize = self.fibers.len();
        while cur.is_some()
            invariant
                host_ancestor(self.fibers@, cur, fuel as nat) == host_ancestor(
                    self.fibers@,
                    self.fibers@[f as int].parent,
                    self.fibers@.len() as nat,
                ),
            decreases fuel,
        {
            let p = cur.unwrap();
            if fuel == 0 || p >= self.fibers.len() {
                return Option::None;
            }
            match self.fibers[p].host_node {
                Option::Some(h) => {
                    return Option::Some(h);
                },
                Option::None => {},
            }
            cur = self.fibers[p].parent;
            fuel = fuel - 1;
        }
        Option::None
    }

    /// Performs one non-functional unit of work: creates the fiber's host
    /// node if it has none yet, reconciles its pending children, records its
    /// effect, and selects the next unit. On success the three phases
    /// compose: `host_node_ensured`, then `children_reconciled`, then
    /// `unit_finished`; the unit succeeds exactly when the node can be
    /// created (or exists) and the diff's success condition holds.
    fn perform_host_unit(&mut self, unit: usize) -> (r: Result<(), EngineError>)
        requires
            unit < old(self).fibers@.len(),
            !is_functional_type(old(self).fibers@[unit as int].fiber_type),
        ensures
            final(self).elements@ == old(self).elements@,
            final(self).wip_root == old(self).wip_root,
            final(self).current_root == old(self).current_root,
            final(self).wip_functional_fiber == old(self).wip_functional_fiber,
            crate::util::seq_extends(old(self).effects@, final(self).effects@),
            crate::util::seq_extends(old(self).host.nodes@, final(self).host.nodes@),
            log_extends(old(self).host.commands@, final(self).host.commands@),
            final(self).fibers@.len() >= old(self).fibers@.len(),
            r is Ok ==> final(self).fibers@[unit as int].host_node is Some,
            r is Ok && old(self).fibers@[unit as int].host_node is Some ==> final(self).fibers@[unit as int].host_node == old(self).fibers@[unit as int].host_node,
            r is Ok && old(self).fibers@[unit as int].host_node is None && old(self).fibers@[unit as int].fiber_type is Text ==> ({
                let props = old(self).fibers@[unit as int].props;
                let h = final(self).fibers@[unit as int].host_node->0;
                &&& props is Some
                &&& (props->0).node_value is Some
                &&& h == old(self).host.nodes@.len()
                &&& h < final(self).host.nodes@.len()
                &&& final(self).host.nodes@[h as int] is Text
                &&& crate::host::text_of(final(self).host.nodes@[h as int]).value@ == (((props->0).node_value)->0)@
            }),
            r is Ok && old(self).fibers@[unit as int].host_node is None && old(self).fibers@[unit as int].fiber_type is Host ==> ({
                let props = old(self).fibers@[unit as int].props;
                let h = final(self).fibers@[unit as int].host_node->0;
                &&& props is Some
                &&& h == old(self).host.nodes@.len()
                &&& h < final(self).host.nodes@.len()
                &&& final(self).host.nodes@[h as int] is Element
                &&& ({
                    let e = crate::host::elem_of(final(self).host.nodes@[h as int]);
                    let p = props->0;
                    &&& e.tag@ == (old(self).fibers@[unit as int].fiber_type->0)@
                    &&& crate::props::opt_str(e.class_name) == crate::props::opt_str(p.class_name)
                    &&& crate::props::opt_str(e.input_type) == crate::props::opt_str(p.input_type)
                    &&& crate::props::opt_str(e.input_value) == crate::props::opt_str(p.input_value)
                    &&& crate::props::opt_str(e.input_placeholder) == crate::props::opt_str(p.input_placeholder)
                    &&& e.input_checked == p.input_checked
                    &&& e.on_click == p.on_click
                    &&& e.on_change == p.on_change
                    &&& e.on_blur == p.on_blur
                    &&& e.on_keydown == p.on_keydown
                })
            }),
            r is Ok <==> unit_performable(*old(self), unit),
            r is Ok ==> host_unit_done(
                *old(self),
                *final(self),
                unit,
                pending_children(old(self).fibers@[unit as int]),
            ),
    {
        let ghost pre = *old(self);
        let needs_node = self.fibers[unit].host_node.is_none();
        if needs_node {
            let props: ElementProps = match &self.fibers[unit].props {
                Option::Some(p) => p.duplicate(),
                Option::None => {
                    return Result::Err(EngineError::MissingProps);
                },
            };
            let is_text = self.fibers[unit].is_text_fiber();
            let created: usize = if is_text {
                let v: String = match &props.node_value {
                    Option::Some(v) => v.clone(),
                    Option::None => {
                        return Result::Err(EngineError::MissingProps);
                    },
                };
                self.host.create_text_node(v)
            } else {
                let tag: String = match &self.fibers[unit].fiber_type {
                    NodeType::Host(t) => t.clone(),
                    _ => {
                        return Result::Err(EngineError::MissingNode);
                    },
                };
                let id = match self.host.create_element_node(tag) {
                    Result::Ok(id) => id,
                    Result::Err(e) => {
                        return Result::Err(e);
                    },
                };
                match self.host.update_element(id, Option::None, &props) {
                    Result::Ok(()) => {},
                    Result::Err(e) => {
                        return Result::Err(e);
                    },
                }
                id
            };
            let mut f = vec_replace(&mut self.fibers, unit, fiber_placeholder());
            f.host_node = Option::Some(created);
            let _ = vec_replace(&mut self.fibers, unit, f);
        }
        let ghost mid1 = *self;
        proof {
            assert(host_node_ensured(pre, mid1, unit));
            assert(pending_children(mid1.fibers@[unit as int]) == pending_children(
                pre.fibers@[unit as int],
            ));
            lemma_would_succeed_congruent(
                mid1.fibers@,
                pre.fibers@,
                pre.elements@,
                unit as int,
                pending_children(pre.fibers@[unit as int]),
            );
        }
        match self.reconcile_children(unit) {
            Result::Ok(()) => {},
            Result::Err(e) => {
                return Result::Err(e);
            },
        }
        let ghost mid2 = *self;
        proof {
            assert(children_reconciled(
                mid1,
                mid2,
                unit,
                pending_children(pre.fibers@[unit as int]),
            ));
        }
        self.after_unit(unit);
        proof {
            assert(unit_finished(mid2, *self, unit));
            assert(host_unit_done(
                pre,
                *self,
                unit,
                pending_children(pre.fibers@[unit as int]),
            )) by {
                assert(host_node_ensured(pre, mid1, unit) && children_reconciled(
                    mid1,
                    mid2,
                    unit,
                    pending_children(pre.fibers@[unit as int]),
                ) && unit_finished(mid2, *self, unit));
            }
        }
        Result::Ok(())
    }

    /// The common tail of one unit of work: record the fiber on the effect
    /// list if it carries a tag, and select the next unit.
    fn after_unit(&mut self, unit: usize)
        requires
            unit < old(self).fibers@.len(),
        ensures
            unit_finished(*old(self), *final(self), unit),
    {
        let has_effect = self.fibers[unit].effect_tag.is_some();
        if has_effect {
            self.add_effect(unit);
        }
        let next = self.select_next(unit);
        self.next_unit_of_work = next;
    }

    /// Completes a functional unit of work once its component has run:
    /// `child` is the element the component returned, and becomes the
    /// fiber's only pending child. The active-component marker is cleared,
    /// the children are reconciled, and the next unit is selected.
    #[verifier::rlimit(30)]
    pub fn finish_component(&mut self, child: Option<usize>) -> (r: Result<(), EngineError>)
        ensures
            final(self).elements@ == old(self).elements@,
            final(self).wip_root == old(self).wip_root,
            final(self).current_root == old(self).current_root,
            final(self).host.nodes@ == old(self).host.nodes@,
            final(self).host.commands@ == old(self).host.commands@,
            crate::util::seq_extends(old(self).effects@, final(self).effects@),
            r is Ok ==> final(self).wip_functional_fiber is None,
            old(self).wip_functional_fiber is None ==> r == Result::<(), EngineError>::Err(
                EngineError::NoActiveComponent,
            ),
            r is Ok && old(self).wip_functional_fiber is Some ==> ({
                let u = old(self).wip_functional_fiber->0;
                &&& u < old(self).fibers@.len()
                &&& (child is Some ==> pending_children(final(self).fibers@[u as int]) == seq![
                    child->0,
                ])
                &&& (child is None ==> final(self).fibers@[u as int].element_children == old(self).fibers@[u as int].element_children)
            }),
            old(self).wip_functional_fiber is Some ==> final(self).wip_functional_fiber is None,
            // A functional fiber never gains a host node of its own here.
            r is Ok && old(self).wip_functional_fiber is Some && (old(self).wip_functional_fiber->0) < old(self).fibers@.len() ==> final(self).fibers@[(old(self).wip_functional_fiber->0) as int].host_node == old(self).fibers@[(old(self).wip_functional_fiber->0) as int].host_node,
            old(self).wip_functional_fiber is Some && (old(self).wip_functional_fiber->0) < old(self).fibers@.len() ==> ({
                let u = old(self).wip_functional_fiber->0;
                let pend = (if child is Some {
                    seq![child->0]
                } else {
                    pending_children(old(self).fibers@[u as int])
                });
                r is Ok <==> reconcile_would_succeed(
                    old(self).fibers@,
                    old(self).elements@,
                    u as int,
                    pend,
                )
            }),
            r is Ok && old(self).wip_functional_fiber is Some && (old(self).wip_functional_fiber->0) < old(self).fibers@.len() ==> ({
                let u = old(self).wip_functional_fiber->0;
                let pend = (if child is Some {
                    seq![child->0]
                } else {
                    pending_children(old(self).fibers@[u as int])
                });
                component_unit_done(*old(self), *final(self), u, child, pend)
            }),
    {
        let unit = match self.wip_functional_fiber {
            Option::Some(u) => u,
            Option::None => {
                return Result::Err(EngineError::NoActiveComponent);
            },
        };
        self.wip_functional_fiber = Option::None;
        if unit >= self.fibers.len() {
            return Result::Err(EngineError::MissingNode);
        }
        let ghost pre = *old(self);
        match child {
            Option::Some(c) => {
                let mut f = vec_replace(&mut self.fibers, unit, fiber_placeholder());
                let mut v: Vec<usize> = Vec::new();
                v.push(c);
                f.element_children = Option::Some(v);
                let _ = vec_replace(&mut self.fibers, unit, f);
            },
            Option::None => {},
        }
        let ghost mid1 = *self;
        proof {
            assert(component_output_staged(pre, mid1, unit, child));
            lemma_would_succeed_congruent(
                mid1.fibers@,
                pre.fibers@,
                pre.elements@,
                unit as int,
                pending_children(mid1.fibers@[unit as int]),
            );
        }
        match self.reconcile_children(unit) {
            Result::Ok(()) => {},
            Result::Err(e) => {
                return Result::Err(e);
            },
        }
        let ghost mid2 = *self;
        proof {
            assert(children_reconciled(
                mid1,
                mid2,
                unit,
                pending_children(mid1.fibers@[unit as int]),
            ));
        }
        self.after_unit(unit);
        proof {
            assert(unit_finished(mid2, *self, unit));
            let pend = (if child is Some {
                seq![child->0]
            } else {
                pending_children(pre.fibers@[unit as int])
            });
            assert(pend == pending_children(mid1.fibers@[unit as int]));
            assert(component_unit_done(pre, *self, unit, child, pend)) by {
                assert(component_output_staged(pre, mid1, unit, child) && children_reconciled(
                    mid1,
                    mid2,
                    unit,
                    pend,
                ) && unit_finished(mid2, *self, unit));
            }
        }
        Result::Ok(())
    }
}

/// The parts of a context the commit pass never touches: everything but the
/// host tree.
pub open spec fn same_outside_host(a: Context, b: Context) -> bool {
    &&& a.elements@ == b.elements@
    &&& a.fibers@ == b.fibers@
    &&& a.wip_root == b.wip_root
    &&& a.current_root == b.current_root
    &&& a.next_unit_of_work == b.next_unit_of_work
    &&& a.wip_functional_fiber == b.wip_functional_fiber
    &&& a.effects@ == b.effects@
}

/// What applying one effect fiber `f` does to the host tree, per tag:
/// a placement appends the fiber's host node under the nearest
/// ancestor-owned host node; an update writes the changed properties
/// against the alternate's; a deletion detaches the fiber's node — or, for
/// a functional fiber, its first child's. Where the protocol skips (a
/// missing node or ancestor, a text ancestor), the host tree is untouched.
pub open spec fn effect_applied(
    fibers: Seq<Fiber>,
    pre_n: Seq<crate::host::Node>,
    pre_c: Seq<crate::host::HostCommand>,
    post_n: Seq<crate::host::Node>,
    post_c: Seq<crate::host::HostCommand>,
    f: usize,
) -> bool {
    &&& (f as int) < fibers.len()
    &&& ({
        let fib = fibers[f as int];
        match fib.effect_tag {
            Option::None => post_n == pre_n && post_c == pre_c,
            Option::Some(FiberEffect::Placement) => ({
                let anc = host_ancestor(fibers, fib.parent, fibers.len() as nat);
                &&& (fib.host_node is None || anc is None ==> post_n == pre_n && post_c == pre_c)
                &&& (fib.host_node is Some && anc is Some && (anc->0 as int) < pre_n.len()
                    && pre_n[anc->0 as int] is Text ==> post_n == pre_n && post_c == pre_c)
                &&& (fib.host_node is Some && anc is Some && (anc->0 as int) < pre_n.len() && (
                fib.host_node->0 as int) < pre_n.len() && pre_n[anc->0 as int] is Element
                    ==> crate::host::child_appended(
                    pre_n,
                    post_n,
                    anc->0 as int,
                    fib.host_node->0 as int,
                ) && post_c == pre_c.push(
                    crate::host::HostCommand::AppendChild {
                        parent: anc->0,
                        child: fib.host_node->0,
                    },
                ))
            }),
            Option::Some(FiberEffect::Update) => ({
                &&& (fib.host_node is None || fib.alternate is None ==> post_n == pre_n && post_c
                    == pre_c)
                &&& (fib.host_node is Some && fib.alternate is Some && (fib.alternate->0 as int)
                    < fibers.len() && (fib.host_node->0 as int) < pre_n.len() && fib.props is Some
                    ==> ({
                    let h = fib.host_node->0 as int;
                    let prev = fibers[fib.alternate->0 as int].props;
                    &&& (pre_n[h] is Element ==> crate::host::element_updated(
                        pre_n,
                        post_n,
                        h,
                        prev,
                        fib.props->0,
                    ))
                    &&& (pre_n[h] is Text ==> crate::host::text_updated(
                        pre_n,
                        post_n,
                        h,
                        prev,
                        fib.props->0,
                    ))
                    &&& log_extends(pre_c, post_c)
                }))
            }),
            Option::Some(FiberEffect::Deletion) => ({
                let target = if fib.fiber_type is Functional && fib.child is Some {
                    fib.child->0
                } else {
                    f
                };
                (target as int) < fibers.len() ==> ({
                    let t = fibers[target as int];
                    &&& (t.host_node is None ==> post_n == pre_n && post_c == pre_c)
                    &&& (t.host_node is Some && (t.host_node->0 as int) < pre_n.len()
                        ==> crate::host::node_removed(pre_n, post_n, t.host_node->0 as int)
                        && post_c == pre_c.push(
                        crate::host::HostCommand::RemoveNode { node: t.host_node->0 },
                    ))
                })
            }),
        }
    })
}

/// When applying one effect fiber `f` to the host tree `nodes` succeeds:
/// its tag's handles are in range and its target node is placeable,
/// updatable or removable — the guards of the per-tag commit operations.
pub open spec fn effect_applicable(
    fibers: Seq<Fiber>,
    nodes: Seq<crate::host::Node>,
    f: usize,
) -> bool {
    &&& (f as int) < fibers.len()
    &&& ({
        let fib = fibers[f as int];
        match fib.effect_tag {
            Option::None => true,
            Option::Some(FiberEffect::Placement) => ({
                let anc = host_ancestor(fibers, fib.parent, fibers.len() as nat);
                fib.host_node is None || anc is None || ((anc->0 as int) < nodes.len() && (
                fib.host_node->0 as int) < nodes.len() && (nodes[anc->0 as int] is Text || (
                nodes[anc->0 as int] is Element && crate::host::node_parent(
                    nodes[fib.host_node->0 as int],
                ) is None && crate::host::no_cycle_to(
                    nodes,
                    anc,
                    fib.host_node->0,
                    nodes.len() as nat,
                ))))
            }),
            Option::Some(FiberEffect::Update) => fib.host_node is None || fib.alternate is None
                || ((fib.alternate->0 as int) < fibers.len() && (fib.host_node->0 as int)
                < nodes.len() && fib.props is Some),
            Option::Some(FiberEffect::Deletion) => ({
                let target = if fib.fiber_type is Functional && fib.child is Some {
                    fib.child->0
                } else {
                    f
                };
                (target as int) < fibers.len() && ({
                    let hn = fibers[target as int].host_node;
                    hn is None || ((hn->0 as int) < nodes.len() && (crate::host::node_parent(
                        nodes[hn->0 as int],
                    ) is None || (crate::host::node_parent(nodes[hn->0 as int]) matches
                        Option::Some(p) && p < nodes.len() && p != hn->0
                        && nodes[p as int] is Element && crate::host::elem_children(
                        nodes[p as int],
                    ).contains(hn->0))))
                })
            }),
        }
    })
}

/// When a whole effect list commits without failure: each effect is
/// applicable in the host state the effects before it leave behind,
/// whichever of the outcomes `effect_applied` admits they produce.
pub open spec fn effects_applicable(
    fibers: Seq<Fiber>,
    nodes: Seq<crate::host::Node>,
    effects: Seq<usize>,
) -> bool
    decreases effects.len(),
{
    if effects.len() == 0 {
        true
    } else {
        &&& effect_applicable(fibers, nodes, effects[0])
        &&& (forall|
            pre_c: Seq<crate::host::HostCommand>,
            mid_n: Seq<crate::host::Node>,
            mid_c: Seq<crate::host::HostCommand>,
        |
            effect_applied(fibers, nodes, pre_c, mid_n, mid_c, effects[0]) ==> effects_applicable(
                fibers,
                mid_n,
                effects.drop_first(),
            ))
    }
}

/// The whole commit pass: every effect of `effects` applied to the host
/// tree in order, each step per `effect_applied`.
pub open spec fn effects_applied(
    fibers: Seq<Fiber>,
    pre_n: Seq<crate::host::Node>,
    pre_c: Seq<crate::host::HostCommand>,
    post_n: Seq<crate::host::Node>,
    post_c: Seq<crate::host::HostCommand>,
    effects: Seq<usize>,
) -> bool
    decreases effects.len(),
{
    if effects.len() == 0 {
        post_n == pre_n && post_c == pre_c
    } else {
        exists|mid_n: Seq<crate::host::Node>, mid_c: Seq<crate::host::HostCommand>|
            effects_applied(fibers, pre_n, pre_c, mid_n, mid_c, effects.drop_last())
                && effect_applied(fibers, mid_n, mid_c, post_n, post_c, effects.last())
    }
}

/// The outcome of a successful commit of a pending work-in-progress root:
/// every recorded effect applied to the host tree in order, the
/// work-in-progress root promoted to current, and the effect list cleared;
/// the arenas and the traversal pointers untouched.
pub open spec fn root_committed(pre: Context, post: Context) -> bool {
    &&& post.elements@ == pre.elements@
    &&& post.fibers@ == pre.fibers@
    &&& post.next_unit_of_work == pre.next_unit_of_work
    &&& post.wip_functional_fiber == pre.wip_functional_fiber
    &&& post.host.nodes@.len() == pre.host.nodes@.len()
    &&& log_extends(pre.host.commands@, post.host.commands@)
    &&& post.current_root == pre.wip_root
    &&& post.wip_root is None
    &&& post.effects@.len() == 0
    &&& effects_applied(
        pre.fibers@,
        pre.host.nodes@,
        pre.host.commands@,
        post.host.nodes@,
        post.host.commands@,
        pre.effects@,
    )
}

impl Context {
    /// Appends a placed fiber's host node under the nearest ancestor-owned
    /// host node. Appending is skipped silently when either side owns no
    /// host node, or when the ancestor's node is a text node.
    fn commit_node_append(&mut self, f: usize, parent_host: Option<usize>) -> (r: Result<
        (),
        EngineError,
    >)
        requires
            f < old(self).fibers@.len(),
        ensures
            same_outside_host(*final(self), *old(self)),
            final(self).host.nodes@.len() == old(self).host.nodes@.len(),
            log_extends(old(self).host.commands@, final(self).host.commands@),
            r is Ok ==> ({
                let hn = old(self).fibers@[f as int].host_node;
                &&& (hn is None || parent_host is None ==> final(self).host.nodes@ == old(self).host.nodes@ && final(self).host.commands@ == old(self).host.commands@)
                &&& (hn is Some && parent_host is Some && (parent_host->0 as int) < old(self).host.nodes@.len() && old(self).host.nodes@[parent_host->0 as int] is Text
                    ==> final(self).host.nodes@ == old(self).host.nodes@ && final(self).host.commands@ == old(self).host.commands@)
                &&& (hn is Some && parent_host is Some && (parent_host->0 as int) < old(self).host.nodes@.len() && (hn->0 as int) < old(self).host.nodes@.len() && old(self).host.nodes@[parent_host->0 as int] is Element ==> crate::host::child_appended(
                    old(self).host.nodes@,
                    final(self).host.nodes@,
                    parent_host->0 as int,
                    hn->0 as int,
                ) && final(self).host.commands@ == old(self).host.commands@.push(
                    crate::host::HostCommand::AppendChild {
                        parent: parent_host->0,
                        child: hn->0,
                    },
                ))
            }),
            ({
                let hn = old(self).fibers@[f as int].host_node;
                hn is Some && parent_host is Some && (parent_host->0 as int) < old(self).host.nodes@.len() && (hn->0 as int) < old(self).host.nodes@.len() && old(self).host.nodes@[parent_host->0 as int] is Element && crate::host::node_parent(
                    old(self).host.nodes@[hn->0 as int],
                ) is None && crate::host::no_cycle_to(
                    old(self).host.nodes@,
                    parent_host,
                    hn->0,
                    old(self).host.nodes@.len() as nat,
                )
            }) ==> r is Ok,
            old(self).fibers@[f as int].host_node is None || parent_host is None ==> r is Ok,
            ({
                let hn = old(self).fibers@[f as int].host_node;
                hn is Some && parent_host is Some && (parent_host->0 as int) < old(self).host.nodes@.len() && (hn->0 as int) < old(self).host.nodes@.len() && old(self).host.nodes@[parent_host->0 as int] is Text
            }) ==> r is Ok,
    {
        let hn = self.fibers[f].host_node;
        match (hn, parent_host) {
            (Option::Some(c), Option::Some(p)) => {
                if p >= self.host.nodes.len() || c >= self.host.nodes.len() {
                    return Result::Err(EngineError::MissingNode);
                }
                match &self.host.nodes[p] {
                    crate::host::Node::Element(_) => self.host.append_child(p, c),
                    crate::host::Node::Text(_) => Result::Ok(()),
                }
            },
            _ => Result::Ok(()),
        }
    }

    /// Applies an updated fiber's changed properties to its host node,
    /// diffing against the alternate's previous properties. Skipped silently
    /// when the fiber owns no host node or has no alternate.
    fn commit_node_update(&mut self, f: usize) -> (r: Result<(), EngineError>)
        requires
            f < old(self).fibers@.len(),
        ensures
            same_outside_host(*final(self), *old(self)),
            final(self).host.nodes@.len() == old(self).host.nodes@.len(),
            log_extends(old(self).host.commands@, final(self).host.commands@),
            r is Ok ==> ({
                let fib = old(self).fibers@[f as int];
                &&& (fib.host_node is None || fib.alternate is None ==> final(self).host.nodes@
                    == old(self).host.nodes@ && final(self).host.commands@ == old(self).host.commands@)
                &&& (fib.host_node is Some && fib.alternate is Some && (fib.alternate->0 as int)
                    < old(self).fibers@.len() && (fib.host_node->0 as int) < old(self).host.nodes@.len() && fib.props is Some ==> ({
                    let h = fib.host_node->0 as int;
                    let prev = old(self).fibers@[fib.alternate->0 as int].props;
                    &&& (old(self).host.nodes@[h] is Element ==> crate::host::element_updated(
                        old(self).host.nodes@,
                        final(self).host.nodes@,
                        h,
                        prev,
                        fib.props->0,
                    ))
                    &&& (old(self).host.nodes@[h] is Text ==> crate::host::text_updated(
                        old(self).host.nodes@,
                        final(self).host.nodes@,
                        h,
                        prev,
                        fib.props->0,
                    ))
                }))
            }),
            ({
                let fib = old(self).fibers@[f as int];
                fib.host_node is None || fib.alternate is None
            }) ==> r is Ok && final(self).host.nodes@ == old(self).host.nodes@ && final(self).host.commands@ == old(self).host.commands@,
            ({
                let fib = old(self).fibers@[f as int];
                fib.host_node is Some && fib.alternate is Some && (fib.alternate->0 as int) < old(self).fibers@.len() && (fib.host_node->0 as int) < old(self).host.nodes@.len()
                    && fib.props is Some
            }) ==> r is Ok,
    {
        let hn = self.fibers[f].host_node;
        let alt = self.fibers[f].alternate;
        match (hn, alt) {
            (Option::Some(h), Option::Some(a)) => {
                if a >= self.fibers.len() {
                    return Result::Err(EngineError::BrokenLink);
                }
                let next: ElementProps = match &self.fibers[f].props {
                    Option::Some(p) => p.duplicate(),
                    Option::None => {
                        return Result::Err(EngineError::MissingProps);
                    },
                };
                let prev_owned: Option<ElementProps> = match &self.fibers[a].props {
                    Option::Some(p) => Option::Some(p.duplicate()),
                    Option::None => Option::None,
                };
                if h >= self.host.nodes.len() {
                    return Result::Err(EngineError::MissingNode);
                }
                match &self.host.nodes[h] {
                    crate::host::Node::Element(_) => self.host.update_element(
                        h,
                        prev_owned.as_ref(),
                        &next,
                    ),
                    crate::host::Node::Text(_) => self.host.update_text(
                        h,
                        prev_owned.as_ref(),
                        &next,
                    ),
                }
            },
            _ => Result::Ok(()),
        }
    }

    /// Removes a deleted fiber's host node from the host tree. Skipped
    /// silently when the fiber owns no host node.
    fn commit_node_deletion(&mut self, f: usize) -> (r: Result<(), EngineError>)
        requires
            f < old(self).fibers@.len(),
        ensures
            same_outside_host(*final(self), *old(self)),
            final(self).host.nodes@.len() == old(self).host.nodes@.len(),
            log_extends(old(self).host.commands@, final(self).host.commands@),
            r is Ok ==> ({
                let hn = old(self).fibers@[f as int].host_node;
                &&& (hn is None ==> final(self).host.nodes@ == old(self).host.nodes@ && final(self).host.commands@ == old(self).host.commands@)
                &&& (hn is Some && (hn->0 as int) < old(self).host.nodes@.len()
                    ==> crate::host::node_removed(
                    old(self).host.nodes@,
                    final(self).host.nodes@,
                    hn->0 as int,
                ) && final(self).host.commands@ == old(self).host.commands@.push(
                    crate::host::HostCommand::RemoveNode { node: hn->0 },
                ))
            }),
            old(self).fibers@[f as int].host_node is None ==> r is Ok,
            ({
                let hn = old(self).fibers@[f as int].host_node;
                hn is Some && (hn->0 as int) < old(self).host.nodes@.len() && (
                crate::host::node_parent(old(self).host.nodes@[hn->0 as int]) is None || (
                crate::host::node_parent(old(self).host.nodes@[hn->0 as int]) matches Option::Some(
                    p,
                ) && p < old(self).host.nodes@.len() && p != hn->0 && old(self).host.nodes@[p as int] is Element && crate::host::elem_children(
                    old(self).host.nodes@[p as int],
                ).contains(hn->0)))
            }) ==> r is Ok,
    {
        match self.fibers[f].host_node {
            Option::Some(h) => {
                if h >= self.host.nodes.len() {
                    return Result::Err(EngineError::MissingNode);
                }
                self.host.remove_node(h)
            },
            Option::None => Result::Ok(()),
        }
    }

    /// Applies one effect fiber to the host tree, by tag. A deleted
    /// functional fiber owns no host node, so its first child is deleted in
    /// its place; a chain of functional fibers with no host node in between
    /// is not descended further.
    fn commit_work(&mut self, f: usize) -> (r: Result<(), EngineError>)
        ensures
            same_outside_host(*final(self), *old(self)),
            final(self).host.nodes@.len() == old(self).host.nodes@.len(),
            log_extends(old(self).host.commands@, final(self).host.commands@),
            r is Ok ==> effect_applied(
                old(self).fibers@,
                old(self).host.nodes@,
                old(self).host.commands@,
                final(self).host.nodes@,
                final(self).host.commands@,
                f,
            ),
            f < old(self).fibers@.len() && old(self).fibers@[f as int].effect_tag is None ==> r
                is Ok,
            effect_applicable(old(self).fibers@, old(self).host.nodes@, f) ==> r is Ok,
    {
        if f >= self.fibers.len() {
            return Result::Err(EngineError::MissingNode);
        }
        match self.fibers[f].effect_tag {
            Option::Some(FiberEffect::Placement) => {
                let parent_host = self.find_host_ancestor(f);
                self.commit_node_append(f, parent_host)
            },
            Option::Some(FiberEffect::Update) => self.commit_node_update(f),
            Option::Some(FiberEffect::Deletion) => {
                if self.fibers[f].is_functional_tree() {
                    match self.fibers[f].child {
                        Option::Some(c) => {
                            if c >= self.fibers.len() {
                                return Result::Err(EngineError::BrokenLink);
                            }
                            self.commit_node_deletion(c)
                        },
                        Option::None => self.commit_node_deletion(f),
                    }
                } else {
                    self.commit_node_deletion(f)
                }
            },
            Option::None => Result::Ok(()),
        }
    }

    /// Applies every recorded effect to the host tree, in order, then
    /// promotes the work-in-progress tree: it becomes the current root and
    /// the work-in-progress root is cleared.
    ///
    /// Commit is atomic with respect to promotion: if any effect fails, the
    /// current root is not advanced, the work-in-progress root and the
    /// effect list are kept as they stand, and the caller may retry. With no
    /// pending work-in-progress root nothing is applied.
    #[verifier::loop_isolation(false)]
    pub fn commit_root(&mut self) -> (r: Result<(), EngineError>)
        ensures
            final(self).elements@ == old(self).elements@,
            final(self).fibers@ == old(self).fibers@,
            final(self).next_unit_of_work == old(self).next_unit_of_work,
            final(self).wip_functional_fiber == old(self).wip_functional_fiber,
            final(self).host.nodes@.len() == old(self).host.nodes@.len(),
            log_extends(old(self).host.commands@, final(self).host.commands@),
            r is Err ==> final(self).current_root == old(self).current_root && final(self).wip_root
                == old(self).wip_root && final(self).effects@ == old(self).effects@,
            r is Ok && old(self).wip_root is Some ==> final(self).current_root == old(self).wip_root
                && final(self).wip_root is None && final(self).effects@.len() == 0,
            r is Ok && old(self).wip_root is None ==> final(self).current_root == old(self).current_root && final(self).wip_root is None && final(self).effects@ == old(self).effects@,
            old(self).wip_root is None ==> r is Ok && *final(self) == *old(self),
            old(self).wip_root is Some && old(self).effects@.len() == 0 ==> r is Ok,
            r is Ok && old(self).wip_root is Some ==> effects_applied(
                old(self).fibers@,
                old(self).host.nodes@,
                old(self).host.commands@,
                final(self).host.nodes@,
                final(self).host.commands@,
                old(self).effects@,
            ),
            r is Ok && old(self).wip_root is Some ==> root_committed(*old(self), *final(self)),
            old(self).wip_root is Some && effects_applicable(
                old(self).fibers@,
                old(self).host.nodes@,
                old(self).effects@,
            ) ==> r is Ok,
    {
        if self.wip_root.is_some() {
            let mut idx: usize = 0;
            proof {
                assert(old(self).effects@.skip(0) =~= old(self).effects@);
            }
            while idx < self.effects.len()
                invariant
                    same_outside_host(*self, *old(self)),
                    self.host.nodes@.len() == old(self).host.nodes@.len(),
                    log_extends(old(self).host.commands@, self.host.commands@),
                    idx <= self.effects@.len(),
                    effects_applied(
                        old(self).fibers@,
                        old(self).host.nodes@,
                        old(self).host.commands@,
                        self.host.nodes@,
                        self.host.commands@,
                        old(self).effects@.take(idx as int),
                    ),
                    effects_applicable(
                        old(self).fibers@,
                        old(self).host.nodes@,
                        old(self).effects@,
                    ) ==> effects_applicable(
                        old(self).fibers@,
                        self.host.nodes@,
                        old(self).effects@.skip(idx as int),
                    ),
                decreases self.effects@.len() - idx,
            {
                let e = self.effects[idx];
                let ghost mid_n = self.host.nodes@;
                let ghost mid_c = self.host.commands@;
                proof {
                    if effects_applicable(old(self).fibers@, old(self).host.nodes@, old(self).effects@) {
                        assert(old(self).effects@.skip(idx as int)[0] == old(self).effects@[idx as int]);
                        assert(effect_applicable(old(self).fibers@, self.host.nodes@, e));
                    }
                }
                match self.commit_work(e) {
                    Result::Ok(()) => {},
                    Result::Err(er) => {
                        return Result::Err(er);
                    },
                }
                proof {
                    if effects_applicable(old(self).fibers@, old(self).host.nodes@, old(self).effects@) {
                        assert(effect_applied(
                            old(self).fibers@,
                            mid_n,
                            mid_c,
                            self.host.nodes@,
                            self.host.commands@,
                            old(self).effects@.skip(idx as int)[0],
                        ));
                        assert(effects_applicable(
                            old(self).fibers@,
                            self.host.nodes@,
                            old(self).effects@.skip(idx as int).drop_first(),
                        ));
                        assert(old(self).effects@.skip(idx as int).drop_first() =~= old(self).effects@.skip(idx as int + 1));
                    }
                }
                proof {
                    let done = old(self).effects@.take(idx + 1);
                    assert(done.drop_last() =~= old(self).effects@.take(idx as int));
                    assert(done.last() == old(self).effects@[idx as int]);
                    assert(effect_applied(
                        old(self).fibers@,
                        mid_n,
                        mid_c,
                        self.host.nodes@,
                        self.host.commands@,
                        done.last(),
                    ));
                    assert(effects_applied(
                        old(self).fibers@,
                        old(self).host.nodes@,
                        old(self).host.commands@,
                        self.host.nodes@,
                        self.host.commands@,
                        done,
                    ));
                }
                idx = idx + 1;
            }
            proof {
                assert(old(self).effects@.take(self.effects@.len() as int) =~= old(self).effects@);
            }
            self.effects.clear();
            self.current_root = self.wip_root;
            self.wip_root = Option::None;
        }
        Result::Ok(())
    }
}

/// Builds an element in the context's arena and hands back its index.
/// The children must already stand in the arena.
pub fn create_element(
    context: &mut Context,
    element_type: NodeType,
    props: ElementProps,
    children: Vec<usize>,
) -> (r: usize)
    requires
        forall|j: int| 0 <= j < children@.len() ==> children@[j] < old(context).elements@.len(),
    ensures
        r == old(context).elements@.len(),
        final(context).elements@ == old(context).elements@.push(
            final(context).elements@[r as int],
        ),
        ({
            let e = final(context).elements@[r as int];
            &&& e.element_type == element_type
            &&& e.props == props
            &&& e.children@ == children@
            &&& e.component_function is None
            &&& e.component_props is None
        }),
        final(context).fibers@ == old(context).fibers@,
        final(context).effects@ == old(context).effects@,
        final(context).host.nodes@ == old(context).host.nodes@,
        final(context).host.commands@ == old(context).host.commands@,
        final(context).wip_root == old(context).wip_root,
        final(context).current_root == old(context).current_root,
        final(context).next_unit_of_work == old(context).next_unit_of_work,
        final(context).wip_functional_fiber == old(context).wip_functional_fiber,
{
    let r = context.elements.len();
    context.elements.push(Element::new(element_type, props, children));
    r
}

/// Builds a text element holding the given value.
pub fn create_text_element(context: &mut Context, value: String) -> (r: usize)
    ensures
        r == old(context).elements@.len(),
        final(context).elements@.len() == old(context).elements@.len() + 1,
        forall|j: int|
            0 <= j < old(context).elements@.len() ==> final(context).elements@[j] == old(context).elements@[j],
        ({
            let e = final(context).elements@[r as int];
            &&& e.element_type is Text
            &&& e.props.node_value == Option::Some(value)
            &&& e.props.class_name matches Option::Some(c) && c@ == Seq::<char>::empty()
            &&& e.children@ == Seq::<usize>::empty()
            &&& e.component_function is None
            &&& e.component_props is None
        }),
        final(context).fibers@ == old(context).fibers@,
        final(context).effects@ == old(context).effects@,
        final(context).host.nodes@ == old(context).host.nodes@,
        final(context).host.commands@ == old(context).host.commands@,
        final(context).wip_root == old(context).wip_root,
        final(context).current_root == old(context).current_root,
        final(context).next_unit_of_work == old(context).next_unit_of_work,
        final(context).wip_functional_fiber == old(context).wip_functional_fiber,
{
    let r = context.elements.len();
    context.elements.push(
        Element::new(NodeType::Text, ElementProps::new(String::new(), value), Vec::new()),
    );
    r
}

/// Builds a functional element: its component function and argument are
/// embedding-level handles, and it describes no children of its own — its
/// output does.
pub fn create_functional_element(context: &mut Context, function: u64, props: u64) -> (r: usize)
    ensures
        r == old(context).elements@.len(),
        final(context).elements@.len() == old(context).elements@.len() + 1,
        forall|j: int|
            0 <= j < old(context).elements@.len() ==> final(context).elements@[j] == old(context).elements@[j],
        ({
            let e = final(context).elements@[r as int];
            &&& e.element_type is Functional
            &&& e.component_function == Option::Some(function)
            &&& e.component_props == Option::Some(props)
            &&& e.children@ == Seq::<usize>::empty()
        }),
        final(context).fibers@ == old(context).fibers@,
        final(context).effects@ == old(context).effects@,
        final(context).host.nodes@ == old(context).host.nodes@,
        final(context).host.commands@ == old(context).host.commands@,
        final(context).wip_root == old(context).wip_root,
        final(context).current_root == old(context).current_root,
        final(context).next_unit_of_work == old(context).next_unit_of_work,
        final(context).wip_functional_fiber == old(context).wip_functional_fiber,
{
    let r = context.elements.len();
    context.elements.push(
        Element {
            element_type: NodeType::Functional,
            props: ElementProps::empty(),
            children: Vec::new(),
            component_function: Option::Some(function),
            component_props: Option::Some(props),
        },
    );
    r
}

/// The update capability a state read hands out: it addresses one state
/// cell of one fiber, and is redeemed through [`set_state`].
#[derive(Clone, Copy, PartialEq, Eq, Structural, Debug)]
pub struct UpdateHandle {
    pub fiber: usize,
    pub hook: usize,
}

/// Whether the fiber `f`'s alternate carries a state cell at `idx`: the
/// condition under which a state read recovers a prior value.
pub open spec fn hook_stored(ctx: Context, f: int, idx: int) -> bool {
    &&& 0 <= f < ctx.fibers@.len()
    &&& ctx.fibers@[f].alternate is Some
    &&& (ctx.fibers@[f].alternate->0 as int) < ctx.fibers@.len()
    &&& 0 <= idx < ctx.fibers@[ctx.fibers@[f].alternate->0 as int].hooks@.len()
}

/// The value a state read at cell `idx` of fiber `f` observes: the value
/// carried over from the alternate's cell at the same position, or the
/// caller's initial value when no prior cell exists.
pub open spec fn hook_current_value(ctx: Context, f: int, idx: int, initial: u64) -> u64 {
    if hook_stored(ctx, f, idx) {
        ctx.fibers@[ctx.fibers@[f].alternate->0 as int].hooks@[idx]
    } else {
        initial
    }
}

/// `g` equals `f` in every field but its state cells and its cell cursor.
pub open spec fn same_but_hooks(f: Fiber, g: Fiber) -> bool {
    &&& g.fiber_type == f.fiber_type
    &&& g.props == f.props
    &&& g.element_children == f.element_children
    &&& g.host_node == f.host_node
    &&& g.parent == f.parent
    &&& g.sibling == f.sibling
    &&& g.child == f.child
    &&& g.alternate == f.alternate
    &&& g.effect_tag == f.effect_tag
    &&& g.component_function == f.component_function
    &&& g.component_props == f.component_props
}

/// Reads the state cell at the active functional fiber's cursor: the value
/// is the one carried over from the fiber's alternate at the same cell
/// position, or `initial_value` the first time this position is read for
/// this fiber identity. The cell is appended to the fiber's cell list, the
/// cursor advances, and an update capability for the cell is handed back.
///
/// Valid only while a functional fiber is active.
pub fn use_state(context: &mut Context, initial_value: u64) -> (r: Result<
    (u64, UpdateHandle),
    EngineError,
>)
    ensures
        final(context).elements@ == old(context).elements@,
        final(context).host.nodes@ == old(context).host.nodes@,
        final(context).host.commands@ == old(context).host.commands@,
        final(context).wip_root == old(context).wip_root,
        final(context).current_root == old(context).current_root,
        final(context).next_unit_of_work == old(context).next_unit_of_work,
        final(context).wip_functional_fiber == old(context).wip_functional_fiber,
        final(context).effects@ == old(context).effects@,
        r is Ok <==> (old(context).wip_functional_fiber matches Option::Some(f) && f < old(context).fibers@.len() && old(context).fibers@[f as int].hook_index < usize::MAX),
        old(context).wip_functional_fiber is None ==> r == Result::<
            (u64, UpdateHandle),
            EngineError,
        >::Err(EngineError::NoActiveComponent),
        r is Err ==> final(context).fibers@ == old(context).fibers@,
        r is Ok ==> ({
            let f = (old(context).wip_functional_fiber->0) as int;
            let idx = old(context).fibers@[f].hook_index as int;
            let value = (r->Ok_0).0;
            &&& value == hook_current_value(*old(context), f, idx, initial_value)
            &&& (r->Ok_0).1 == UpdateHandle {
                fiber: old(context).wip_functional_fiber->0,
                hook: old(context).fibers@[f].hook_index,
            }
            &&& final(context).fibers@.len() == old(context).fibers@.len()
            &&& (forall|j: int|
                0 <= j < old(context).fibers@.len() && j != f ==> final(context).fibers@[j] == old(context).fibers@[j])
            &&& same_but_hooks(old(context).fibers@[f], final(context).fibers@[f])
            &&& final(context).fibers@[f].hooks@ == old(context).fibers@[f].hooks@.push(value)
            &&& final(context).fibers@[f].hook_index == idx + 1
            &&& (old(context).fibers@[f].hooks@.len() == old(context).fibers@[f].hook_index
                ==> final(context).fibers@[f].hooks@.len() == final(context).fibers@[f].hook_index)
        }),
{
    let f = match context.wip_functional_fiber {
        Option::Some(f) => f,
        Option::None => {
            return Result::Err(EngineError::NoActiveComponent);
        },
    };
    if f >= context.fibers.len() {
        return Result::Err(EngineError::MissingNode);
    }
    let idx = context.fibers[f].hook_index;
    if idx == usize::MAX {
        return Result::Err(EngineError::BrokenLink);
    }
    let stored: Option<u64> = match context.fibers[f].alternate {
        Option::Some(a) => {
            if a < context.fibers.len() {
                if idx < context.fibers[a].hooks.len() {
                    Option::Some(context.fibers[a].hooks[idx])
                } else {
                    Option::None
                }
            } else {
                Option::None
            }
        },
        Option::None => Option::None,
    };
    let value = match stored {
        Option::Some(v) => v,
        Option::None => initial_value,
    };
    let mut fib = vec_replace(&mut context.fibers, f, fiber_placeholder());
    fib.hooks.push(value);
    fib.hook_index = idx + 1;
    let _ = vec_replace(&mut context.fibers, f, fib);
    Result::Ok((value, UpdateHandle { fiber: f, hook: idx }))
}

/// Redeems an update capability: writes `new_value` into the addressed
/// state cell, then schedules a fresh render — a new root fiber whose
/// alternate is the committed current root, inheriting its pending child
/// elements and its host node, installed as both work-in-progress root and
/// next unit of work. The caller re-enters the work loop afterwards.
pub fn set_state(context: &mut Context, handle: UpdateHandle, new_value: u64) -> (r: Result<
    (),
    EngineError,
>)
    ensures
        final(context).elements@ == old(context).elements@,
        final(context).host.nodes@ == old(context).host.nodes@,
        final(context).host.commands@ == old(context).host.commands@,
        final(context).current_root == old(context).current_root,
        final(context).wip_functional_fiber == old(context).wip_functional_fiber,
        final(context).effects@ == old(context).effects@,
        r is Ok <==> handle.fiber < old(context).fibers@.len() && handle.hook < old(context).fibers@[handle.fiber as int].hooks@.len() && (old(context).current_root matches Option::Some(cr) ==> cr < old(context).fibers@.len()),
        r is Err ==> final(context).fibers@ == old(context).fibers@ && final(context).wip_root
            == old(context).wip_root && final(context).next_unit_of_work == old(context).next_unit_of_work,
        r is Ok ==> ({
            let base = old(context).fibers@.len();
            &&& final(context).fibers@.len() == base + 1
            &&& same_but_hooks(
                old(context).fibers@[handle.fiber as int],
                final(context).fibers@[handle.fiber as int],
            )
            &&& final(context).fibers@[handle.fiber as int].hooks@ == old(context).fibers@[handle.fiber as int].hooks@.update(handle.hook as int, new_value)
            &&& final(context).fibers@[handle.fiber as int].hook_index == old(context).fibers@[handle.fiber as int].hook_index
            &&& (forall|j: int|
                0 <= j < base && j != handle.fiber ==> final(context).fibers@[j] == old(context).fibers@[j])
            &&& ({
                let root = final(context).fibers@[base as int];
                &&& root.fiber_type is Root
                &&& root.props is None
                &&& root.alternate == old(context).current_root
                &&& root.effect_tag is None
                &&& root.parent is None
                &&& root.sibling is None
                &&& root.child is None
                &&& root.hooks@ == Seq::<u64>::empty()
                &&& (old(context).current_root is None ==> root.element_children is None
                    && root.host_node is None)
                &&& (old(context).current_root matches Option::Some(cr)
                    ==> pending_children(root) == pending_children(
                    old(context).fibers@[cr as int],
                ) && root.host_node == old(context).fibers@[cr as int].host_node)
            })
            &&& final(context).wip_root == Option::Some(base as usize)
            &&& final(context).next_unit_of_work == Option::Some(base as usize)
        }),
{
    if handle.fiber >= context.fibers.len() {
        return Result::Err(EngineError::MissingNode);
    }
    match context.current_root {
        Option::Some(cr) => {
            if cr >= context.fibers.len() {
                return Result::Err(EngineError::BrokenLink);
            }
        },
        Option::None => {},
    }
    let mut fib = vec_replace(&mut context.fibers, handle.fiber, fiber_placeholder());
    if handle.hook >= fib.hooks.len() {
        let _ = vec_replace(&mut context.fibers, handle.fiber, fib);
        proof {
            assert(context.fibers@ =~= old(context).fibers@);
        }
        return Result::Err(EngineError::BrokenLink);
    }
    fib.hooks.set(handle.hook, new_value);
    let _ = vec_replace(&mut context.fibers, handle.fiber, fib);
    let mut root = Fiber::new_root();
    match context.current_root {
        Option::Some(cr) => {
            root.alternate = Option::Some(cr);
            match &context.fibers[cr].element_children {
                Option::Some(v) => {
                    root.element_children = Option::Some(copy_ids(v));
                },
                Option::None => {},
            }
            root.host_node = context.fibers[cr].host_node;
        },
        Option::None => {},
    }
    let base = context.fibers.len();
    context.fibers.push(root);
    context.wip_root = Option::Some(base);
    context.next_unit_of_work = Option::Some(base);
    Result::Ok(())
}

/// Seeds a render: a fresh root fiber whose single pending child element is
/// `element`, whose host node is `container`, and whose alternate is the
/// current root, if one was committed; the root becomes both work-in-progress
/// root and next unit of work.
pub fn render(context: &mut Context, element: usize, container: usize) -> (r: usize)
    ensures
        r == old(context).fibers@.len(),
        final(context).fibers@.len() == old(context).fibers@.len() + 1,
        forall|j: int|
            0 <= j < old(context).fibers@.len() ==> final(context).fibers@[j] == old(context).fibers@[j],
        ({
            let f = final(context).fibers@[r as int];
            &&& f.fiber_type is Root
            &&& f.props is None
            &&& pending_children(f) == seq![element]
            &&& f.host_node == Option::Some(container)
            &&& f.parent is None
            &&& f.sibling is None
            &&& f.child is None
            &&& f.alternate == old(context).current_root
            &&& f.effect_tag is None
            &&& f.hooks@ == Seq::<u64>::empty()
            &&& f.hook_index == 0
        }),
        final(context).wip_root == Option::Some(r),
        final(context).next_unit_of_work == Option::Some(r),
        final(context).current_root == old(context).current_root,
        final(context).wip_functional_fiber == old(context).wip_functional_fiber,
        final(context).effects@ == old(context).effects@,
        final(context).elements@ == old(context).elements@,
        final(context).host.nodes@ == old(context).host.nodes@,
        final(context).host.commands@ == old(context).host.commands@,
{
    let mut root = Fiber::new_root();
    let mut children: Vec<usize> = Vec::new();
    children.push(element);
    root.element_children = Option::Some(children);
    root.host_node = Option::Some(container);
    root.alternate = context.current_root;
    let r = context.fibers.len();
    context.fibers.push(root);
    context.wip_root = Option::Some(r);
    context.next_unit_of_work = Option::Some(r);
    r
}


/// Whether the next unit of work is a functional fiber ready to run: in
/// range, functional, and carrying both component handles.
pub open spec fn functional_unit_ready(ctx: Context) -> bool {
    match ctx.next_unit_of_work {
        Option::Some(u) => u < ctx.fibers@.len() && ctx.fibers@[u as int].fiber_type is Functional
            && ctx.fibers@[u as int].component_function is Some
            && ctx.fibers@[u as int].component_props is Some,
        Option::None => false,
    }
}

/// One cooperative pass fragment: `steps` units of work performed from
/// `pre`, each the engine's next unit, each a non-functional unit completed
/// per `host_unit_done`.
pub open spec fn units_performed(pre: Context, post: Context, steps: nat) -> bool
    decreases steps,
{
    if steps == 0 {
        post == pre
    } else {
        exists|mid: Context|
            ({
                &&& pre.next_unit_of_work is Some
                &&& (pre.next_unit_of_work->0) < pre.fibers@.len()
                &&& !is_functional_type(
                    pre.fibers@[(pre.next_unit_of_work->0) as int].fiber_type,
                )
                &&& host_unit_done(
                    pre,
                    mid,
                    pre.next_unit_of_work->0,
                    pending_children(pre.fibers@[(pre.next_unit_of_work->0) as int]),
                )
                &&& units_performed(mid, post, (steps - 1) as nat)
            })
    }
}

/// A performed-units chain extends by one unit at its end.
proof fn lemma_units_snoc(a: Context, b: Context, c: Context, steps: nat)
    requires
        units_performed(a, b, steps),
        b.next_unit_of_work is Some,
        (b.next_unit_of_work->0) < b.fibers@.len(),
        !is_functional_type(b.fibers@[(b.next_unit_of_work->0) as int].fiber_type),
        host_unit_done(
            b,
            c,
            b.next_unit_of_work->0,
            pending_children(b.fibers@[(b.next_unit_of_work->0) as int]),
        ),
    ensures
        units_performed(a, c, (steps + 1) as nat),
    decreases steps,
{
    if steps == 0 {
        assert(b == a);
        assert(units_performed(c, c, 0));
        assert(units_performed(a, c, 1));
    } else {
        let mid = choose|mid: Context|
            ({
                &&& a.next_unit_of_work is Some
                &&& (a.next_unit_of_work->0) < a.fibers@.len()
                &&& !is_functional_type(a.fibers@[(a.next_unit_of_work->0) as int].fiber_type)
                &&& host_unit_done(
                    a,
                    mid,
                    a.next_unit_of_work->0,
                    pending_children(a.fibers@[(a.next_unit_of_work->0) as int]),
                )
                &&& units_performed(mid, b, (steps - 1) as nat)
            });
        lemma_units_snoc(mid, b, c, (steps - 1) as nat);
        assert(units_performed(a, c, (steps + 1) as nat));
    }
}

/// The public outcome of one work-loop call without a timeout signal: some
/// units performed in traversal order up to an intermediate state `mid`,
/// then — for `Idle` — no unit left and the pending root committed per
/// `root_committed` (or nothing pending and nothing more done); for
/// `NeedsComponent` — a ready functional unit reached and marked active,
/// with everything else as the performed units left it.
pub open spec fn pass_outcome(pre: Context, post: Context, status: WorkStatus) -> bool {
    exists|mid: Context, steps: nat|
        ({
            &&& units_performed(pre, mid, steps)
            &&& (status is Idle ==> mid.next_unit_of_work is None && (mid.wip_root is Some
                ==> root_committed(mid, post)) && (mid.wip_root is None ==> post == mid))
            &&& (status is NeedsComponent ==> functional_unit_ready(mid)
                && mid.next_unit_of_work == Option::Some(status->NeedsComponent_fiber) && post
                == Context {
                wip_functional_fiber: Option::Some(status->NeedsComponent_fiber),
                ..mid
            })
            &&& (status is Yielded ==> post == mid)
        })
}

/// Drives the work loop: performs units of work until no next unit remains
/// or the time budget is exhausted, then — once no work remains and a
/// work-in-progress root is pending — commits synchronously.
///
/// With `did_timeout` set no unit is performed: the call only commits if
/// the previous invocation already exhausted the work.
///
/// When the next unit is a functional fiber the loop stops and hands the
/// component invocation back to the embedding (see [`WorkStatus`]); the
/// engine cannot run host-language components itself.
#[verifier::loop_isolation(false)]
pub fn work_loop(context: &mut Context, did_timeout: bool) -> (r: Result<WorkStatus, EngineError>)
    ensures
        final(context).elements@ == old(context).elements@,
        r is Err ==> final(context).current_root == old(context).current_root && final(context).wip_root == old(context).wip_root,
        // With the time budget spent, no unit of work is performed: the
        // fiber arena and the next unit stand as they were, and only a
        // pending commit may run.
        did_timeout ==> final(context).fibers@ == old(context).fibers@ && final(context).next_unit_of_work == old(context).next_unit_of_work && final(context).wip_functional_fiber == old(context).wip_functional_fiber,
        did_timeout && old(context).next_unit_of_work is Some ==> r == Result::<
            WorkStatus,
            EngineError,
        >::Ok(WorkStatus::Yielded) && *final(context) == *old(context),
        // The loop yields only to the external scheduler: without the
        // timeout signal it runs until nothing is left or a component must
        // be invoked.
        r == Result::<WorkStatus, EngineError>::Ok(WorkStatus::Yielded) <==> did_timeout && old(context).next_unit_of_work is Some,
        // A functional next unit with both handles stops the loop at once
        // and hands the invocation to the embedding, touching nothing else.
        !did_timeout && functional_unit_ready(*old(context)) ==> ({
            let u = old(context).next_unit_of_work->0;
            &&& r == Result::<WorkStatus, EngineError>::Ok(
                WorkStatus::NeedsComponent {
                    fiber: u,
                    function: old(context).fibers@[u as int].component_function->0,
                    props: old(context).fibers@[u as int].component_props->0,
                },
            )
            &&& final(context).fibers@ == old(context).fibers@
            &&& final(context).host.nodes@ == old(context).host.nodes@
            &&& final(context).host.commands@ == old(context).host.commands@
            &&& final(context).effects@ == old(context).effects@
            &&& final(context).wip_root == old(context).wip_root
            &&& final(context).next_unit_of_work == old(context).next_unit_of_work
            &&& final(context).wip_functional_fiber == Option::Some(u)
        }),
        // With no work pending at entry, nothing is performed; with no
        // pending root either, the call is a no-op.
        old(context).next_unit_of_work is None ==> final(context).fibers@ == old(context).fibers@
            && final(context).next_unit_of_work is None,
        old(context).next_unit_of_work is None && old(context).wip_root is None ==> r == Result::<
            WorkStatus,
            EngineError,
        >::Ok(WorkStatus::Idle) && *final(context) == *old(context),
        r is Ok && r->Ok_0 is Idle ==> final(context).next_unit_of_work is None && final(context).wip_root is None,
        r is Ok && r->Ok_0 is Idle && old(context).wip_root is Some ==> final(context).current_root
            == old(context).wip_root && final(context).effects@.len() == 0,
        r is Ok && r->Ok_0 is Idle && old(context).wip_root is None ==> final(context).current_root
            == old(context).current_root,
        // Without a timeout the pass is composed end to end: the pending
        // units are performed, then the commit or the component hand-over.
        !did_timeout && r is Ok ==> pass_outcome(*old(context), *final(context), r->Ok_0),
        // Success is owed whenever every unit the traversal reaches is
        // performable and the final commit is applicable.
        !did_timeout && pass_applicable(*old(context), usize::MAX as nat) ==> r is Ok,
        r is Ok && r->Ok_0 is NeedsComponent ==> ({
            let s = r->Ok_0;
            &&& final(context).wip_functional_fiber == Option::Some(s->NeedsComponent_fiber)
            &&& s->NeedsComponent_fiber < final(context).fibers@.len()
            &&& final(context).fibers@[s->NeedsComponent_fiber as int].fiber_type is Functional
            &&& final(context).fibers@[s->NeedsComponent_fiber as int].component_function
                == Option::Some(s->NeedsComponent_function)
            &&& final(context).fibers@[s->NeedsComponent_fiber as int].component_props
                == Option::Some(s->NeedsComponent_props)
            &&& final(context).next_unit_of_work == Option::Some(s->NeedsComponent_fiber)
            &&& final(context).current_root == old(context).current_root
            &&& final(context).wip_root == old(context).wip_root
        }),
{
    let ghost entry = *context;
    let ghost mut steps: nat = 0;
    if !did_timeout {
        let mut fuel: usize = usize::MAX;
        let mut first = true;
        while context.next_unit_of_work.is_some()
            invariant
                !did_timeout,
                units_performed(entry, *context, steps),
                pass_applicable(*old(context), usize::MAX as nat) ==> pass_applicable(
                    *context,
                    fuel as nat,
                ),
                context.elements@ == old(context).elements@,
                context.wip_root == old(context).wip_root,
                context.current_root == old(context).current_root,
                context.wip_functional_fiber == old(context).wip_functional_fiber,
                first ==> *context == entry && fuel == usize::MAX,
                !first ==> !functional_unit_ready(*old(context)),
                entry == *old(context),
                old(context).next_unit_of_work is None ==> *context == *old(context),
            decreases fuel,
        {
            let unit = context.next_unit_of_work.unwrap();
            if unit >= context.fibers.len() {
                return Result::Err(EngineError::MissingNode);
            }
            let functional = context.fibers[unit].is_functional_tree();
            if functional {
                let func = match context.fibers[unit].component_function {
                    Option::Some(f) => f,
                    Option::None => {
                        return Result::Err(EngineError::MissingProps);
                    },
                };
                let props = match context.fibers[unit].component_props {
                    Option::Some(p) => p,
                    Option::None => {
                        return Result::Err(EngineError::MissingProps);
                    },
                };
                let ghost midg = *context;
                context.wip_functional_fiber = Option::Some(unit);
                let ghost st = WorkStatus::NeedsComponent { fiber: unit, function: func, props };
                proof {
                    assert(*context == Context {
                        wip_functional_fiber: Option::Some(unit),
                        ..midg
                    });
                    assert(pass_outcome(entry, *context, st)) by {
                        assert(units_performed(entry, midg, steps) && functional_unit_ready(midg)
                            && midg.next_unit_of_work == Option::Some(st->NeedsComponent_fiber)
                            && *context == Context {
                            wip_functional_fiber: Option::Some(st->NeedsComponent_fiber),
                            ..midg
                        });
                    }
                }
                return Result::Ok(
                    WorkStatus::NeedsComponent { fiber: unit, function: func, props },
                );
            }
            if fuel == 0 {
                return Result::Err(EngineError::BrokenLink);
            }
            fuel = fuel - 1;
            let ghost pre_it = *context;
            match context.perform_host_unit(unit) {
                Result::Ok(()) => {},
                Result::Err(e) => {
                    proof {
                        if pass_applicable(*old(context), usize::MAX as nat) {
                            assert(unit_performable(pre_it, unit));
                            assert(false);
                        }
                    }
                    return Result::Err(e);
                },
            }
            proof {
                lemma_units_snoc(entry, pre_it, *context, steps);
                steps = (steps + 1) as nat;
                if pass_applicable(*old(context), usize::MAX as nat) {
                    assert(host_unit_done(
                        pre_it,
                        *context,
                        unit,
                        pending_children(pre_it.fibers@[unit as int]),
                    ));
                    assert(pass_applicable(*context, fuel as nat));
                }
            }
            first = false;
        }
        proof {
            if pass_applicable(*old(context), usize::MAX as nat) {
                assert(context.wip_root is None || effects_applicable(
                    context.fibers@,
                    context.host.nodes@,
                    context.effects@,
                ));
            }
        }
    }
    if context.next_unit_of_work.is_none() {
        let ghost midg = *context;
        if context.wip_root.is_some() {
            match context.commit_root() {
                Result::Ok(()) => {},
                Result::Err(e) => {
                    proof {
                        if !did_timeout && pass_applicable(*old(context), usize::MAX as nat) {
                            assert(false);
                        }
                    }
                    return Result::Err(e);
                },
            }
        }
        proof {
            if !did_timeout {
                assert(pass_outcome(entry, *context, WorkStatus::Idle)) by {
                    assert(units_performed(entry, midg, steps) && midg.next_unit_of_work is None
                        && (midg.wip_root is Some ==> root_committed(midg, *context)) && (
                    midg.wip_root is None ==> *context == midg));
                }
            }
        }
        Result::Ok(WorkStatus::Idle)
    } else {
        Result::Ok(WorkStatus::Yielded)
    }
}


} // verus!
