//! The model host tree and the host-command log.
//!
//! The engine applies every host mutation to this model tree, and records the
//! same mutation as a [`HostCommand`]. An embedding that owns a real display
//! surface replays the commands one for one; the model tree is the engine's
//! own record of what the surface holds, and what the contracts speak of.

use vstd::prelude::*;
use crate::props::{ElementProps, opt_str};
use crate::util::vec_replace;

verus! {

/// Why an engine operation was refused.
#[derive(Clone, Copy, PartialEq, Eq, Structural, Debug)]
pub enum EngineError {
    /// A node or fiber index points outside its arena.
    MissingNode,
    /// The operation needs a host element, but the node is a text node.
    NotAnElement,
    /// The operation needs a text node, but the node is a host element.
    NotAText,
    /// A host element cannot be created with an empty tag.
    EmptyTag,
    /// Appending here would make the node an ancestor of itself.
    CycleDetected,
    /// A fiber lacks the properties the algorithm relies on.
    MissingProps,
    /// A link between fibers or host nodes is inconsistent.
    BrokenLink,
    /// A state read is only valid while a functional fiber is active.
    NoActiveComponent,
}

/// An event a listener can be attached for.
#[derive(Clone, Copy, PartialEq, Eq, Structural, Debug)]
pub enum EventKind {
    Click,
    Change,
    Blur,
    Keydown,
}

/// One primitive host mutation, in the order it must be replayed.
#[derive(Clone, PartialEq, Eq, Debug)]
pub enum HostCommand {
    CreateElement { node: usize, tag: String },
    CreateText { node: usize, value: String },
    SetClassName { node: usize, value: String },
    SetInputType { node: usize, value: String },
    SetInputValue { node: usize, value: String },
    SetInputChecked { node: usize, value: bool },
    SetInputPlaceholder { node: usize, value: String },
    AddListener { node: usize, event: EventKind, handler: u64 },
    RemoveListener { node: usize, event: EventKind, handler: u64 },
    SetTextValue { node: usize, value: String },
    AppendChild { parent: usize, child: usize },
    RemoveNode { node: usize },
}

/// A text node of the host tree.
#[derive(Clone, PartialEq, Eq, Debug)]
pub struct TextNode {
    pub value: String,
    pub parent: Option<usize>,
}

/// An element node of the host tree.
#[derive(Clone, PartialEq, Eq, Debug)]
pub struct ElementNode {
    pub tag: String,
    pub class_name: Option<String>,
    pub input_type: Option<String>,
    pub input_value: Option<String>,
    pub input_placeholder: Option<String>,
    pub input_checked: Option<bool>,
    pub on_click: Option<u64>,
    pub on_change: Option<u64>,
    pub on_blur: Option<u64>,
    pub on_keydown: Option<u64>,
    pub parent: Option<usize>,
    pub children: Vec<usize>,
}

/// One host node.
#[derive(Clone, PartialEq, Eq, Debug)]
pub enum Node {
    Text(TextNode),
    Element(ElementNode),
}

/// The model host tree: an arena of nodes, and the log of every mutation.
pub struct HostTree {
    pub nodes: Vec<Node>,
    pub commands: Vec<HostCommand>,
}

/// The element behind a node.
pub open spec fn elem_of(n: Node) -> ElementNode
    recommends
        n is Element,
{
    match n {
        Node::Element(e) => e,
        Node::Text(_) => vstd::pervasive::arbitrary(),
    }
}

/// The text node behind a node.
pub open spec fn text_of(n: Node) -> TextNode
    recommends
        n is Text,
{
    match n {
        Node::Text(t) => t,
        Node::Element(_) => vstd::pervasive::arbitrary(),
    }
}

/// The parent link of a node.
pub open spec fn node_parent(n: Node) -> Option<usize> {
    match n {
        Node::Text(t) => t.parent,
        Node::Element(e) => e.parent,
    }
}

/// The child list of an element node.
pub open spec fn elem_children(n: Node) -> Seq<usize>
    recommends
        n is Element,
{
    elem_of(n).children@
}

/// What an attribute becomes when properties `next` replace `prev` on a node
/// whose attribute currently reads `cur`: a present value is written only
/// when the previous properties did not already hold it, and an absent value
/// leaves the attribute as it stands.
pub open spec fn apply_attr(
    cur: Option<Seq<char>>,
    prev: Option<Seq<char>>,
    next: Option<Seq<char>>,
) -> Option<Seq<char>> {
    if next is Some && prev != next {
        next
    } else {
        cur
    }
}

/// `apply_attr` for boolean attributes.
pub open spec fn apply_flag(
    cur: Option<bool>,
    prev: Option<bool>,
    next: Option<bool>,
) -> Option<bool> {
    if next is Some && prev != next {
        next
    } else {
        cur
    }
}

/// What a listener slot becomes: a previous listener with no successor is
/// removed; a new listener is attached, detaching the previous one first.
pub open spec fn apply_listener(cur: Option<u64>, prev: Option<u64>, next: Option<u64>) -> Option<
    u64,
> {
    match (prev, next) {
        (Option::Some(_), Option::None) => Option::None,
        (_, Option::Some(n)) => Option::Some(n),
        (Option::None, Option::None) => cur,
    }
}

/// The previous property bag of an update, or an all-absent bag when the node
/// was only just created.
pub open spec fn eff_prev(prev: Option<&ElementProps>) -> ElementProps {
    match prev {
        Option::Some(p) => *p,
        Option::None => ElementProps {
            class_name: Option::None,
            node_value: Option::None,
            input_type: Option::None,
            input_value: Option::None,
            input_placeholder: Option::None,
            input_checked: Option::None,
            on_click: Option::None,
            on_change: Option::None,
            on_blur: Option::None,
            on_keydown: Option::None,
        },
    }
}

/// `eff_prev` for an owned previous property bag.
pub open spec fn eff_prev_v(prev: Option<ElementProps>) -> ElementProps {
    match prev {
        Option::Some(p) => p,
        Option::None => ElementProps {
            class_name: Option::None,
            node_value: Option::None,
            input_type: Option::None,
            input_value: Option::None,
            input_placeholder: Option::None,
            input_checked: Option::None,
            on_click: Option::None,
            on_change: Option::None,
            on_blur: Option::None,
            on_keydown: Option::None,
        },
    }
}

/// The command a changed class name records.
pub open spec fn class_cmds(id: usize, prev: ElementProps, next: ElementProps) -> Seq<HostCommand> {
    if next.class_name is Some && opt_str(prev.class_name) != opt_str(next.class_name) {
        seq![HostCommand::SetClassName { node: id, value: next.class_name->0 }]
    } else {
        Seq::empty()
    }
}

/// The command a changed input type records.
pub open spec fn input_type_cmds(id: usize, prev: ElementProps, next: ElementProps) -> Seq<
    HostCommand,
> {
    if next.input_type is Some && opt_str(prev.input_type) != opt_str(next.input_type) {
        seq![HostCommand::SetInputType { node: id, value: next.input_type->0 }]
    } else {
        Seq::empty()
    }
}

/// The command a changed input value records.
pub open spec fn input_value_cmds(id: usize, prev: ElementProps, next: ElementProps) -> Seq<
    HostCommand,
> {
    if next.input_value is Some && opt_str(prev.input_value) != opt_str(next.input_value) {
        seq![HostCommand::SetInputValue { node: id, value: next.input_value->0 }]
    } else {
        Seq::empty()
    }
}

/// The command a changed checked flag records.
pub open spec fn input_checked_cmds(id: usize, prev: ElementProps, next: ElementProps) -> Seq<
    HostCommand,
> {
    if next.input_checked is Some && prev.input_checked != next.input_checked {
        seq![HostCommand::SetInputChecked { node: id, value: next.input_checked->0 }]
    } else {
        Seq::empty()
    }
}

/// The command a changed placeholder records.
pub open spec fn input_placeholder_cmds(id: usize, prev: ElementProps, next: ElementProps) -> Seq<
    HostCommand,
> {
    if next.input_placeholder is Some && opt_str(prev.input_placeholder) != opt_str(
        next.input_placeholder,
    ) {
        seq![HostCommand::SetInputPlaceholder { node: id, value: next.input_placeholder->0 }]
    } else {
        Seq::empty()
    }
}

/// The commands one listener slot records: a removal, a remove-then-add
/// pair, an attachment, or nothing.
pub open spec fn listener_cmds(
    id: usize,
    event: EventKind,
    prev: Option<u64>,
    next: Option<u64>,
) -> Seq<HostCommand> {
    match (prev, next) {
        (Option::Some(p), Option::None) => seq![
            HostCommand::RemoveListener { node: id, event: event, handler: p },
        ],
        (Option::Some(p), Option::Some(n)) => seq![
            HostCommand::RemoveListener { node: id, event: event, handler: p },
            HostCommand::AddListener { node: id, event: event, handler: n },
        ],
        (Option::None, Option::Some(n)) => seq![
            HostCommand::AddListener { node: id, event: event, handler: n },
        ],
        (Option::None, Option::None) => Seq::empty(),
    }
}

/// Every attribute command an element update records, in write order.
pub open spec fn attr_cmds(id: usize, prev: ElementProps, next: ElementProps) -> Seq<HostCommand> {
    class_cmds(id, prev, next) + input_type_cmds(id, prev, next) + input_value_cmds(id, prev, next)
        + input_checked_cmds(id, prev, next) + input_placeholder_cmds(id, prev, next)
}

/// Every command an element update records, in the order it writes them:
/// the attribute writes, then the listener changes.
pub open spec fn update_cmds(id: usize, prev: ElementProps, next: ElementProps) -> Seq<
    HostCommand,
> {
    attr_cmds(id, prev, next) + listener_cmds(id, EventKind::Click, prev.on_click, next.on_click)
        + listener_cmds(id, EventKind::Change, prev.on_change, next.on_change) + listener_cmds(
        id,
        EventKind::Blur,
        prev.on_blur,
        next.on_blur,
    ) + listener_cmds(id, EventKind::Keydown, prev.on_keydown, next.on_keydown)
}

/// The command a changed text value records.
pub open spec fn text_cmds(id: usize, prev: ElementProps, next: ElementProps) -> Seq<HostCommand> {
    if next.node_value is Some && opt_str(prev.node_value) != opt_str(next.node_value) {
        seq![HostCommand::SetTextValue { node: id, value: next.node_value->0 }]
    } else {
        Seq::empty()
    }
}

/// The node list after `update_element` wrote the changed subset of `next`
/// against `prev` to the element at `id`: every attribute and listener per
/// its apply rule, everything else untouched.
pub open spec fn element_updated(
    pre: Seq<Node>,
    post: Seq<Node>,
    id: int,
    prev: Option<ElementProps>,
    next: ElementProps,
) -> bool {
    let oldn = elem_of(pre[id]);
    let newn = elem_of(post[id]);
    let p = eff_prev_v(prev);
    &&& 0 <= id < pre.len()
    &&& pre[id] is Element
    &&& post.len() == pre.len()
    &&& (forall|j: int| 0 <= j < pre.len() && j != id ==> post[j] == pre[j])
    &&& post[id] is Element
    &&& newn.tag == oldn.tag
    &&& newn.parent == oldn.parent
    &&& newn.children == oldn.children
    &&& opt_str(newn.class_name) == apply_attr(
        opt_str(oldn.class_name),
        opt_str(p.class_name),
        opt_str(next.class_name),
    )
    &&& opt_str(newn.input_type) == apply_attr(
        opt_str(oldn.input_type),
        opt_str(p.input_type),
        opt_str(next.input_type),
    )
    &&& opt_str(newn.input_value) == apply_attr(
        opt_str(oldn.input_value),
        opt_str(p.input_value),
        opt_str(next.input_value),
    )
    &&& opt_str(newn.input_placeholder) == apply_attr(
        opt_str(oldn.input_placeholder),
        opt_str(p.input_placeholder),
        opt_str(next.input_placeholder),
    )
    &&& newn.input_checked == apply_flag(oldn.input_checked, p.input_checked, next.input_checked)
    &&& newn.on_click == apply_listener(oldn.on_click, p.on_click, next.on_click)
    &&& newn.on_change == apply_listener(oldn.on_change, p.on_change, next.on_change)
    &&& newn.on_blur == apply_listener(oldn.on_blur, p.on_blur, next.on_blur)
    &&& newn.on_keydown == apply_listener(oldn.on_keydown, p.on_keydown, next.on_keydown)
}

/// The node list after `update_text` wrote a changed value to the text node
/// at `id`, everything else untouched.
pub open spec fn text_updated(
    pre: Seq<Node>,
    post: Seq<Node>,
    id: int,
    prev: Option<ElementProps>,
    next: ElementProps,
) -> bool {
    let oldn = text_of(pre[id]);
    let newn = text_of(post[id]);
    &&& 0 <= id < pre.len()
    &&& pre[id] is Text
    &&& post.len() == pre.len()
    &&& (forall|j: int| 0 <= j < pre.len() && j != id ==> post[j] == pre[j])
    &&& post[id] is Text
    &&& newn.parent == oldn.parent
    &&& Option::Some(newn.value@) == apply_attr(
        Option::Some(oldn.value@),
        opt_str(eff_prev_v(prev).node_value),
        opt_str(next.node_value),
    )
}

/// The node list after `append_child` attached `child` as the last child of
/// the element `parent`; for a previously detached child, nothing else
/// moved.
pub open spec fn child_appended(pre: Seq<Node>, post: Seq<Node>, parent: int, child: int) -> bool {
    &&& 0 <= parent < pre.len()
    &&& 0 <= child < pre.len()
    &&& parent != child
    &&& pre[parent] is Element
    &&& post.len() == pre.len()
    &&& post[parent] is Element
    &&& node_parent(post[child]) == Option::Some(parent as usize)
    &&& elem_children(post[parent]).len() > 0
    &&& elem_children(post[parent]).last() == child as usize
    &&& (node_parent(pre[child]) is None ==> elem_with_children(
        elem_of(pre[parent]),
        elem_of(post[parent]),
        elem_children(pre[parent]).push(child as usize),
    ) && node_with_parent(pre[child], post[child], Option::Some(parent as usize)) && (forall|
        j: int,
    |
        0 <= j < pre.len() && j != parent && j != child ==> post[j] == pre[j]))
}

/// The node list after `remove_node` detached the node at `id`: unlinked
/// from its parent's child list, nothing else moved.
pub open spec fn node_removed(pre: Seq<Node>, post: Seq<Node>, id: int) -> bool {
    &&& 0 <= id < pre.len()
    &&& post.len() == pre.len()
    &&& node_parent(post[id]) is None
    &&& (node_parent(pre[id]) is None ==> post == pre)
    &&& (node_parent(pre[id]) matches Option::Some(p) ==> ({
        let ch = elem_children(pre[p as int]);
        &&& (p as int) < pre.len()
        &&& pre[p as int] is Element
        &&& post[p as int] is Element
        &&& (exists|k: int|
            0 <= k < ch.len() && ch[k] == id as usize && (forall|j: int|
                0 <= j < k ==> ch[j] != id as usize) && elem_with_children(
                elem_of(pre[p as int]),
                elem_of(post[p as int]),
                ch.remove(k),
            ))
        &&& node_with_parent(pre[id], post[id], Option::None)
        &&& (forall|j: int|
            0 <= j < pre.len() && j != p && j != id ==> post[j] == pre[j])
    }))
}

/// True when walking parent links up from `start` reaches the top within
/// `fuel` steps without meeting `avoid`.
pub open spec fn no_cycle_to(
    nodes: Seq<Node>,
    start: Option<usize>,
    avoid: usize,
    fuel: nat,
) -> bool
    decreases fuel,
{
    match start {
        Option::None => true,
        Option::Some(i) => fuel > 0 && i < nodes.len() && i != avoid && no_cycle_to(
            nodes,
            node_parent(nodes[i as int]),
            avoid,
            (fuel - 1) as nat,
        ),
    }
}

/// Two host trees that hold the same nodes and the same log.
pub open spec fn same_tree(a: HostTree, b: HostTree) -> bool {
    a.nodes@ == b.nodes@ && a.commands@ == b.commands@
}

/// `f` equals `e` in every field but the child list, which reads `ch`.
pub open spec fn elem_with_children(e: ElementNode, f: ElementNode, ch: Seq<usize>) -> bool {
    &&& f.tag == e.tag
    &&& f.class_name == e.class_name
    &&& f.input_type == e.input_type
    &&& f.input_value == e.input_value
    &&& f.input_placeholder == e.input_placeholder
    &&& f.input_checked == e.input_checked
    &&& f.on_click == e.on_click
    &&& f.on_change == e.on_change
    &&& f.on_blur == e.on_blur
    &&& f.on_keydown == e.on_keydown
    &&& f.parent == e.parent
    &&& f.children@ == ch
}

/// `m` equals `n` except for its parent link, which reads `p`.
pub open spec fn node_with_parent(n: Node, m: Node, p: Option<usize>) -> bool {
    match (n, m) {
        (Node::Text(a), Node::Text(b)) => b.value == a.value && b.parent == p,
        (Node::Element(a), Node::Element(b)) => {
            &&& b.tag == a.tag
            &&& b.class_name == a.class_name
            &&& b.input_type == a.input_type
            &&& b.input_value == a.input_value
            &&& b.input_placeholder == a.input_placeholder
            &&& b.input_checked == a.input_checked
            &&& b.on_click == a.on_click
            &&& b.on_change == a.on_change
            &&& b.on_blur == a.on_blur
            &&& b.on_keydown == a.on_keydown
            &&& b.children == a.children
            &&& b.parent == p
        },
        _ => false,
    }
}

/// The command log only grows: `newer` holds every entry of `older`, in
/// place, and possibly more.
pub open spec fn log_extends(older: Seq<HostCommand>, newer: Seq<HostCommand>) -> bool {
    &&& older.len() <= newer.len()
    &&& (forall|j: int| 0 <= j < older.len() ==> newer[j] == older[j])
}

/// Whether a present attribute must be written, comparing against the
/// previous properties by contents.
fn should_set(prev: &Option<String>, next: &Option<String>) -> (r: bool)
    ensures
        r == (next is Some && opt_str(*prev) != opt_str(*next)),
{
    match next {
        Option::Some(n) => match prev {
            Option::Some(p) => !p.eq(n),
            Option::None => true,
        },
        Option::None => false,
    }
}

/// A node value used only while another node is temporarily out of the arena.
fn placeholder_node() -> (r: Node)
    ensures
        r is Text,
{
    Node::Text(TextNode { value: String::new(), parent: Option::None })
}

impl HostTree {
    /// An empty host tree with an empty command log.
    pub fn new() -> (r: HostTree)
        ensures
            r.nodes@ == Seq::<Node>::empty(),
            r.commands@ == Seq::<HostCommand>::empty(),
    {
        HostTree { nodes: Vec::new(), commands: Vec::new() }
    }

    /// Creates a detached text node seeded with the given value.
    pub fn create_text_node(&mut self, value: String) -> (id: usize)
        ensures
            id == old(self).nodes@.len(),
            final(self).nodes@ == old(self).nodes@.push(
                Node::Text(TextNode { value: value, parent: Option::None }),
            ),
            final(self).commands@ == old(self).commands@.push(
                HostCommand::CreateText { node: id, value: value },
            ),
    {
        let id = self.nodes.len();
        let stored = value.clone();
        self.nodes.push(Node::Text(TextNode { value: stored, parent: Option::None }));
        self.commands.push(HostCommand::CreateText { node: id, value });
        id
    }

    /// Creates a detached host element of the given tag, with every
    /// attribute and listener absent. An empty tag is refused.
    pub fn create_element_node(&mut self, tag: String) -> (r: Result<usize, EngineError>)
        ensures
            r is Ok <==> tag@.len() != 0,
            r is Err ==> same_tree(*final(self), *old(self)) && r == Result::<usize, EngineError>::Err(
                EngineError::EmptyTag,
            ),
            r is Ok ==> {
                let id = r->Ok_0;
                &&& id == old(self).nodes@.len()
                &&& final(self).nodes@.len() == old(self).nodes@.len() + 1
                &&& (forall|j: int|
                    0 <= j < id ==> final(self).nodes@[j] == old(self).nodes@[j])
                &&& final(self).nodes@[id as int] is Element
                &&& ({
                    let e = elem_of(final(self).nodes@[id as int]);
                    &&& e.tag == tag
                    &&& e.class_name is None
                    &&& e.input_type is None
                    &&& e.input_value is None
                    &&& e.input_placeholder is None
                    &&& e.input_checked is None
                    &&& e.on_click is None
                    &&& e.on_change is None
                    &&& e.on_blur is None
                    &&& e.on_keydown is None
                    &&& e.parent is None
                    &&& e.children@ == Seq::<usize>::empty()
                })
                &&& final(self).commands@ == old(self).commands@.push(
                    HostCommand::CreateElement { node: id, tag: tag },
                )
            },
    {
        if tag.as_str().is_empty() {
            return Result::Err(EngineError::EmptyTag);
        }
        let id = self.nodes.len();
        let stored = tag.clone();
        self.nodes.push(
            Node::Element(
                ElementNode {
                    tag: stored,
                    class_name: Option::None,
                    input_type: Option::None,
                    input_value: Option::None,
                    input_placeholder: Option::None,
                    input_checked: Option::None,
                    on_click: Option::None,
                    on_change: Option::None,
                    on_blur: Option::None,
                    on_keydown: Option::None,
                    parent: Option::None,
                    children: Vec::new(),
                },
            ),
        );
        self.commands.push(HostCommand::CreateElement { node: id, tag });
        Result::Ok(id)
    }

    /// Applies to a host element the subset of `next` that differs from
    /// `prev`, recording one command per written attribute or listener.
    /// `prev` is absent when the node was only just created.
    #[verifier::rlimit(100)]
    pub fn update_element(
        &mut self,
        id: usize,
        prev: Option<&ElementProps>,
        next: &ElementProps,
    ) -> (r: Result<(), EngineError>)
        ensures
            r is Err ==> same_tree(*final(self), *old(self)),
            r is Ok <==> id < old(self).nodes@.len() && old(self).nodes@[id as int] is Element,
            r is Ok ==> ({
                let oldn = elem_of(old(self).nodes@[id as int]);
                let newn = elem_of(final(self).nodes@[id as int]);
                let p = eff_prev(prev);
                &&& final(self).nodes@.len() == old(self).nodes@.len()
                &&& (forall|j: int|
                    0 <= j < old(self).nodes@.len() && j != id ==> final(self).nodes@[j] == old(self).nodes@[j])
                &&& final(self).nodes@[id as int] is Element
                &&& newn.tag == oldn.tag
                &&& newn.parent == oldn.parent
                &&& newn.children == oldn.children
                &&& opt_str(newn.class_name) == apply_attr(
                    opt_str(oldn.class_name),
                    opt_str(p.class_name),
                    opt_str(next.class_name),
                )
                &&& opt_str(newn.input_type) == apply_attr(
                    opt_str(oldn.input_type),
                    opt_str(p.input_type),
                    opt_str(next.input_type),
                )
                &&& opt_str(newn.input_value) == apply_attr(
                    opt_str(oldn.input_value),
                    opt_str(p.input_value),
                    opt_str(next.input_value),
                )
                &&& opt_str(newn.input_placeholder) == apply_attr(
                    opt_str(oldn.input_placeholder),
                    opt_str(p.input_placeholder),
                    opt_str(next.input_placeholder),
                )
                &&& newn.input_checked == apply_flag(
                    oldn.input_checked,
                    p.input_checked,
                    next.input_checked,
                )
                &&& newn.on_click == apply_listener(oldn.on_click, p.on_click, next.on_click)
                &&& newn.on_change == apply_listener(oldn.on_change, p.on_change, next.on_change)
                &&& newn.on_blur == apply_listener(oldn.on_blur, p.on_blur, next.on_blur)
                &&& newn.on_keydown == apply_listener(
                    oldn.on_keydown,
                    p.on_keydown,
                    next.on_keydown,
                )
                &&& final(self).commands@ == old(self).commands@ + update_cmds(
                    id,
                    eff_prev(prev),
                    *next,
                )
            }),
    {
        if id >= self.nodes.len() {
            return Result::Err(EngineError::MissingNode);
        }
        let n = vec_replace(&mut self.nodes, id, placeholder_node());
        let mut e = match n {
            Node::Element(e) => e,
            other => {
                let _ = vec_replace(&mut self.nodes, id, other);
                proof {
                    assert(self.nodes@ =~= old(self).nodes@);
                }
                return Result::Err(EngineError::NotAnElement);
            },
        };
        let ghost p0 = eff_prev(prev);
        apply_attr_writes(&mut self.commands, &mut e, id, prev, next);
        let ghost snap1 = self.commands@;

        let prev_click: Option<u64> = match prev {
            Option::Some(p) => p.on_click,
            Option::None => Option::None,
        };
        e.on_click = update_listener(
            &mut self.commands,
            id,
            EventKind::Click,
            e.on_click,
            prev_click,
            next.on_click,
        );
        let ghost snap2 = self.commands@;
        let prev_change: Option<u64> = match prev {
            Option::Some(p) => p.on_change,
            Option::None => Option::None,
        };
        e.on_change = update_listener(
            &mut self.commands,
            id,
            EventKind::Change,
            e.on_change,
            prev_change,
            next.on_change,
        );
        let ghost snap3 = self.commands@;
        let prev_blur: Option<u64> = match prev {
            Option::Some(p) => p.on_blur,
            Option::None => Option::None,
        };
        e.on_blur = update_listener(
            &mut self.commands,
            id,
            EventKind::Blur,
            e.on_blur,
            prev_blur,
            next.on_blur,
        );
        let ghost snap4 = self.commands@;
        let prev_keydown: Option<u64> = match prev {
            Option::Some(p) => p.on_keydown,
            Option::None => Option::None,
        };
        e.on_keydown = update_listener(
            &mut self.commands,
            id,
            EventKind::Keydown,
            e.on_keydown,
            prev_keydown,
            next.on_keydown,
        );
        proof {
            assert(self.commands@ =~= old(self).commands@ + update_cmds(id, p0, *next));
        }
        let _ = vec_replace(&mut self.nodes, id, Node::Element(e));
        Result::Ok(())
    }

    /// Applies a changed text value to a host text node, recording the
    /// command. `prev` is absent when the node was only just created.
    pub fn update_text(
        &mut self,
        id: usize,
        prev: Option<&ElementProps>,
        next: &ElementProps,
    ) -> (r: Result<(), EngineError>)
        ensures
            r is Err ==> same_tree(*final(self), *old(self)),
            r is Ok <==> id < old(self).nodes@.len() && old(self).nodes@[id as int] is Text,
            r is Ok ==> ({
                let oldn = text_of(old(self).nodes@[id as int]);
                let newn = text_of(final(self).nodes@[id as int]);
                &&& final(self).nodes@.len() == old(self).nodes@.len()
                &&& (forall|j: int|
                    0 <= j < old(self).nodes@.len() && j != id ==> final(self).nodes@[j] == old(self).nodes@[j])
                &&& final(self).nodes@[id as int] is Text
                &&& newn.parent == oldn.parent
                &&& Option::Some(newn.value@) == apply_attr(
                    Option::Some(oldn.value@),
                    opt_str(eff_prev(prev).node_value),
                    opt_str(next.node_value),
                )
                &&& final(self).commands@ == old(self).commands@ + text_cmds(
                    id,
                    eff_prev(prev),
                    *next,
                )
            }),
    {
        if id >= self.nodes.len() {
            return Result::Err(EngineError::MissingNode);
        }
        let n = vec_replace(&mut self.nodes, id, placeholder_node());
        let mut t = match n {
            Node::Text(t) => t,
            other => {
                let _ = vec_replace(&mut self.nodes, id, other);
                proof {
                    assert(self.nodes@ =~= old(self).nodes@);
                }
                return Result::Err(EngineError::NotAText);
            },
        };
        let none_str: Option<String> = Option::None;
        let prev_value: &Option<String> = match prev {
            Option::Some(p) => &p.node_value,
            Option::None => &none_str,
        };
        if should_set(prev_value, &next.node_value) {
            let v = match &next.node_value {
                Option::Some(s) => s.clone(),
                Option::None => String::new(),
            };
            self.commands.push(HostCommand::SetTextValue { node: id, value: v.clone() });
            t.value = v;
        }
        proof {
            assert(self.commands@ =~= old(self).commands@ + text_cmds(id, eff_prev(prev), *next));
        }
        let _ = vec_replace(&mut self.nodes, id, Node::Text(t));
        Result::Ok(())
    }
}

impl HostTree {
    /// Unlinks a node from its parent's child list, if it has a parent.
    /// Records no command.
    fn detach(&mut self, child: usize) -> (r: Result<(), EngineError>)
        requires
            child < old(self).nodes@.len(),
        ensures
            r is Err ==> same_tree(*final(self), *old(self)),
            final(self).commands@ == old(self).commands@,
            final(self).nodes@.len() == old(self).nodes@.len(),
            node_parent(old(self).nodes@[child as int]) is None ==> r is Ok && final(self).nodes@ == old(self).nodes@,
            node_parent(old(self).nodes@[child as int]) matches Option::Some(p) ==> {
                &&& ((p < old(self).nodes@.len() && p != child && old(self).nodes@[p as int] is Element && elem_children(old(self).nodes@[p as int]).contains(
                    child,
                )) ==> r is Ok)
                &&& (r is Ok ==> {
                    let ch = elem_children(old(self).nodes@[p as int]);
                    &&& p < old(self).nodes@.len()
                    &&& p != child
                    &&& old(self).nodes@[p as int] is Element
                    &&& final(self).nodes@[p as int] is Element
                    &&& (exists|k: int|
                        0 <= k < ch.len() && ch[k] == child && (forall|j: int|
                            0 <= j < k ==> ch[j] != child) && elem_with_children(
                            elem_of(old(self).nodes@[p as int]),
                            elem_of(final(self).nodes@[p as int]),
                            ch.remove(k),
                        ))
                    &&& node_with_parent(
                        old(self).nodes@[child as int],
                        final(self).nodes@[child as int],
                        Option::None,
                    )
                    &&& (forall|j: int|
                        0 <= j < old(self).nodes@.len() && j != p && j != child ==> final(self).nodes@[j] == old(self).nodes@[j])
                })
            },
    {
        let pid_opt: Option<usize> = match &self.nodes[child] {
            Node::Text(t) => t.parent,
            Node::Element(e) => e.parent,
        };
        let p = match pid_opt {
            Option::None => {
                return Result::Ok(());
            },
            Option::Some(p) => p,
        };
        if p >= self.nodes.len() || p == child {
            return Result::Err(EngineError::BrokenLink);
        }
        let pn = vec_replace(&mut self.nodes, p, placeholder_node());
        let mut pe = match pn {
            Node::Element(e) => e,
            other => {
                let _ = vec_replace(&mut self.nodes, p, other);
                proof {
                    assert(self.nodes@ =~= old(self).nodes@);
                }
                return Result::Err(EngineError::BrokenLink);
            },
        };
        let mut k: usize = 0;
        while k < pe.children.len() && pe.children[k] != child
            invariant
                k <= pe.children@.len(),
                forall|j: int| 0 <= j < k ==> pe.children@[j] != child,
            decreases pe.children@.len() - k,
        {
            k = k + 1;
        }
        if k >= pe.children.len() {
            let _ = vec_replace(&mut self.nodes, p, Node::Element(pe));
            proof {
                assert(self.nodes@ =~= old(self).nodes@);
            }
            return Result::Err(EngineError::BrokenLink);
        }
        pe.children.remove(k);
        let _ = vec_replace(&mut self.nodes, p, Node::Element(pe));
        let cn = vec_replace(&mut self.nodes, child, placeholder_node());
        let cn2 = match cn {
            Node::Text(mut t) => {
                t.parent = Option::None;
                Node::Text(t)
            },
            Node::Element(mut e) => {
                e.parent = Option::None;
                Node::Element(e)
            },
        };
        let _ = vec_replace(&mut self.nodes, child, cn2);
        proof {
            let ch = elem_children(old(self).nodes@[p as int]);
            assert(0 <= k < ch.len() && ch[k as int] == child && (forall|j: int|
                0 <= j < k ==> ch[j] != child) && elem_with_children(
                elem_of(old(self).nodes@[p as int]),
                elem_of(self.nodes@[p as int]),
                ch.remove(k as int),
            ));
        }
        Result::Ok(())
    }

    /// Attaches `child` as the last child of the element `parent`, moving it
    /// out of any previous parent first. Appending a node under itself or
    /// under one of its descendants is refused.
    pub fn append_child(&mut self, parent: usize, child: usize) -> (r: Result<(), EngineError>)
        ensures
            r is Err ==> same_tree(*final(self), *old(self)),
            (parent < old(self).nodes@.len() && child < old(self).nodes@.len() && old(self).nodes@[parent as int] is Element && node_parent(
                old(self).nodes@[child as int],
            ) is None && no_cycle_to(
                old(self).nodes@,
                Option::Some(parent),
                child,
                old(self).nodes@.len() as nat,
            )) ==> r is Ok,
            r is Ok ==> parent < old(self).nodes@.len() && child < old(self).nodes@.len()
                && parent != child && old(self).nodes@[parent as int] is Element,
            r is Ok ==> final(self).nodes@.len() == old(self).nodes@.len() && final(self).commands@ == old(self).commands@.push(
                HostCommand::AppendChild { parent: parent, child: child },
            ),
            r is Ok ==> final(self).nodes@[parent as int] is Element && node_parent(
                final(self).nodes@[child as int],
            ) == Option::Some(parent) && elem_children(final(self).nodes@[parent as int]).len() > 0
                && elem_children(final(self).nodes@[parent as int]).last() == child,
            r is Ok && node_parent(old(self).nodes@[child as int]) is None ==> elem_with_children(
                elem_of(old(self).nodes@[parent as int]),
                elem_of(final(self).nodes@[parent as int]),
                elem_children(old(self).nodes@[parent as int]).push(child),
            ) && node_with_parent(
                old(self).nodes@[child as int],
                final(self).nodes@[child as int],
                Option::Some(parent),
            ) && (forall|j: int|
                0 <= j < old(self).nodes@.len() && j != parent && j != child ==> final(self).nodes@[j] == old(self).nodes@[j]),
            r is Ok && node_parent(old(self).nodes@[child as int]) is Some && (node_parent(
                old(self).nodes@[child as int],
            )->0) != parent ==> ({
                let p0 = node_parent(old(self).nodes@[child as int])->0;
                let ch = elem_children(old(self).nodes@[p0 as int]);
                &&& p0 < old(self).nodes@.len()
                &&& old(self).nodes@[p0 as int] is Element
                &&& final(self).nodes@[p0 as int] is Element
                &&& (exists|k: int|
                    0 <= k < ch.len() && ch[k] == child && (forall|j: int|
                        0 <= j < k ==> ch[j] != child) && elem_with_children(
                        elem_of(old(self).nodes@[p0 as int]),
                        elem_of(final(self).nodes@[p0 as int]),
                        ch.remove(k),
                    ))
                &&& elem_with_children(
                    elem_of(old(self).nodes@[parent as int]),
                    elem_of(final(self).nodes@[parent as int]),
                    elem_children(old(self).nodes@[parent as int]).push(child),
                )
                &&& node_with_parent(
                    old(self).nodes@[child as int],
                    final(self).nodes@[child as int],
                    Option::Some(parent),
                )
                &&& (forall|j: int|
                    0 <= j < old(self).nodes@.len() && j != parent && j != child && j != p0
                        ==> final(self).nodes@[j] == old(self).nodes@[j])
            }),
            r is Ok && node_parent(old(self).nodes@[child as int]) == Option::Some(parent) ==> ({
                let ch = elem_children(old(self).nodes@[parent as int]);
                &&& (exists|k: int|
                    0 <= k < ch.len() && ch[k] == child && (forall|j: int|
                        0 <= j < k ==> ch[j] != child) && elem_with_children(
                        elem_of(old(self).nodes@[parent as int]),
                        elem_of(final(self).nodes@[parent as int]),
                        ch.remove(k).push(child),
                    ))
                &&& node_with_parent(
                    old(self).nodes@[child as int],
                    final(self).nodes@[child as int],
                    Option::Some(parent),
                )
                &&& (forall|j: int|
                    0 <= j < old(self).nodes@.len() && j != parent && j != child ==> final(self).nodes@[j] == old(self).nodes@[j])
            }),
    {
        if parent >= self.nodes.len() || child >= self.nodes.len() {
            return Result::Err(EngineError::MissingNode);
        }
        match &self.nodes[parent] {
            Node::Element(_) => {},
            Node::Text(_) => {
                return Result::Err(EngineError::NotAnElement);
            },
        }
        let ghost nodes0 = self.nodes@;
        let mut cur: Option<usize> = Option::Some(parent);
        let mut fuel: usize = self.nodes.len();
        while cur.is_some()
            invariant
                self.nodes@ == nodes0,
                self.commands@ == old(self).commands@,
                child < nodes0.len(),
                fuel <= nodes0.len(),
                no_cycle_to(nodes0, Option::Some(parent), child, nodes0.len() as nat)
                    == no_cycle_to(nodes0, cur, child, fuel as nat),
            decreases fuel,
        {
            let i = cur.unwrap();
            if fuel == 0 || i >= self.nodes.len() || i == child {
                return Result::Err(EngineError::CycleDetected);
            }
            cur = match &self.nodes[i] {
                Node::Text(t) => t.parent,
                Node::Element(e) => e.parent,
            };
            fuel = fuel - 1;
        }
        proof {
            assert(no_cycle_to(nodes0, Option::Some(parent), child, nodes0.len() as nat));
            assert(parent != child);
        }
        match self.detach(child) {
            Result::Ok(()) => {},
            Result::Err(e) => {
                return Result::Err(e);
            },
        }
        let pn = vec_replace(&mut self.nodes, parent, placeholder_node());
        let mut pe = match pn {
            Node::Element(e) => e,
            other => {
                let _ = vec_replace(&mut self.nodes, parent, other);
                return Result::Err(EngineError::NotAnElement);
            },
        };
        pe.children.push(child);
        let _ = vec_replace(&mut self.nodes, parent, Node::Element(pe));
        let cn = vec_replace(&mut self.nodes, child, placeholder_node());
        let cn2 = match cn {
            Node::Text(mut t) => {
                t.parent = Option::Some(parent);
                Node::Text(t)
            },
            Node::Element(mut e) => {
                e.parent = Option::Some(parent);
                Node::Element(e)
            },
        };
        let _ = vec_replace(&mut self.nodes, child, cn2);
        self.commands.push(HostCommand::AppendChild { parent, child });
        Result::Ok(())
    }

    /// Detaches a node from the host tree and records the removal. Removing
    /// an already detached node only records the removal.
    pub fn remove_node(&mut self, id: usize) -> (r: Result<(), EngineError>)
        ensures
            r is Err ==> same_tree(*final(self), *old(self)),
            id < old(self).nodes@.len() && node_parent(old(self).nodes@[id as int]) is None ==> r
                is Ok,
            id < old(self).nodes@.len() && (node_parent(
                old(self).nodes@[id as int],
            ) matches Option::Some(p) && p < old(self).nodes@.len() && p != id && old(self).nodes@[p as int] is Element && elem_children(old(self).nodes@[p as int]).contains(id))
                ==> r is Ok,
            r is Ok ==> id < old(self).nodes@.len() && final(self).nodes@.len() == old(self).nodes@.len() && final(self).commands@ == old(self).commands@.push(
                HostCommand::RemoveNode { node: id },
            ) && node_parent(final(self).nodes@[id as int]) is None,
            r is Ok && node_parent(old(self).nodes@[id as int]) is None ==> final(self).nodes@
                == old(self).nodes@,
            r is Ok && node_parent(old(self).nodes@[id as int]) is Some ==> {
                let p = node_parent(old(self).nodes@[id as int])->0;
                let ch = elem_children(old(self).nodes@[p as int]);
                &&& p < old(self).nodes@.len()
                &&& old(self).nodes@[p as int] is Element
                &&& final(self).nodes@[p as int] is Element
                &&& (exists|k: int|
                    0 <= k < ch.len() && ch[k] == id && (forall|j: int|
                        0 <= j < k ==> ch[j] != id) && elem_with_children(
                        elem_of(old(self).nodes@[p as int]),
                        elem_of(final(self).nodes@[p as int]),
                        ch.remove(k),
                    ))
                &&& node_with_parent(
                    old(self).nodes@[id as int],
                    final(self).nodes@[id as int],
                    Option::None,
                )
                &&& (forall|j: int|
                    0 <= j < old(self).nodes@.len() && j != p && j != id ==> final(self).nodes@[j]
                        == old(self).nodes@[j])
            },
    {
        if id >= self.nodes.len() {
            return Result::Err(EngineError::MissingNode);
        }
        match self.detach(id) {
            Result::Ok(()) => {},
            Result::Err(e) => {
                return Result::Err(e);
            },
        }
        self.commands.push(HostCommand::RemoveNode { node: id });
        Result::Ok(())
    }
}

/// Writes the changed attribute subset of `next` against `prev` into an
/// element node, recording one command per written attribute.
#[verifier::rlimit(100)]
fn apply_attr_writes(
    commands: &mut Vec<HostCommand>,
    e: &mut ElementNode,
    id: usize,
    prev: Option<&ElementProps>,
    next: &ElementProps,
)
    ensures
        final(commands)@ == old(commands)@ + attr_cmds(id, eff_prev(prev), *next),
        ({
            let p = eff_prev(prev);
            &&& final(e).tag == old(e).tag
            &&& final(e).parent == old(e).parent
            &&& final(e).children == old(e).children
            &&& final(e).on_click == old(e).on_click
            &&& final(e).on_change == old(e).on_change
            &&& final(e).on_blur == old(e).on_blur
            &&& final(e).on_keydown == old(e).on_keydown
            &&& opt_str(final(e).class_name) == apply_attr(
                opt_str(old(e).class_name),
                opt_str(p.class_name),
                opt_str(next.class_name),
            )
            &&& opt_str(final(e).input_type) == apply_attr(
                opt_str(old(e).input_type),
                opt_str(p.input_type),
                opt_str(next.input_type),
            )
            &&& opt_str(final(e).input_value) == apply_attr(
                opt_str(old(e).input_value),
                opt_str(p.input_value),
                opt_str(next.input_value),
            )
            &&& opt_str(final(e).input_placeholder) == apply_attr(
                opt_str(old(e).input_placeholder),
                opt_str(p.input_placeholder),
                opt_str(next.input_placeholder),
            )
            &&& final(e).input_checked == apply_flag(
                old(e).input_checked,
                p.input_checked,
                next.input_checked,
            )
        }),
{
    let none_str: Option<String> = Option::None;
    let ghost p0 = eff_prev(prev);
    let ghost done0 = old(commands)@;

    let prev_class: &Option<String> = match prev {
        Option::Some(p) => &p.class_name,
        Option::None => &none_str,
    };
    if should_set(prev_class, &next.class_name) {
        let v = match &next.class_name {
            Option::Some(s) => s.clone(),
            Option::None => String::new(),
        };
        commands.push(HostCommand::SetClassName { node: id, value: v.clone() });
        e.class_name = Option::Some(v);
    }
    let ghost done1 = done0 + class_cmds(id, p0, *next);
    proof {
        assert(commands@ =~= done1);
    }

    let prev_type: &Option<String> = match prev {
        Option::Some(p) => &p.input_type,
        Option::None => &none_str,
    };
    if should_set(prev_type, &next.input_type) {
        let v = match &next.input_type {
            Option::Some(s) => s.clone(),
            Option::None => String::new(),
        };
        commands.push(HostCommand::SetInputType { node: id, value: v.clone() });
        e.input_type = Option::Some(v);
    }
    let ghost done2 = done1 + input_type_cmds(id, p0, *next);
    proof {
        assert(commands@ =~= done2);
    }

    let prev_value: &Option<String> = match prev {
        Option::Some(p) => &p.input_value,
        Option::None => &none_str,
    };
    if should_set(prev_value, &next.input_value) {
        let v = match &next.input_value {
            Option::Some(s) => s.clone(),
            Option::None => String::new(),
        };
        commands.push(HostCommand::SetInputValue { node: id, value: v.clone() });
        e.input_value = Option::Some(v);
    }
    let ghost done3 = done2 + input_value_cmds(id, p0, *next);
    proof {
        assert(commands@ =~= done3);
    }

    let prev_checked: Option<bool> = match prev {
        Option::Some(p) => p.input_checked,
        Option::None => Option::None,
    };
    match next.input_checked {
        Option::Some(b) => {
            let changed = match prev_checked {
                Option::Some(pb) => pb != b,
                Option::None => true,
            };
            if changed {
                commands.push(HostCommand::SetInputChecked { node: id, value: b });
                e.input_checked = Option::Some(b);
            }
        },
        Option::None => {},
    }
    let ghost done4 = done3 + input_checked_cmds(id, p0, *next);
    proof {
        assert(commands@ =~= done4);
    }

    let prev_placeholder: &Option<String> = match prev {
        Option::Some(p) => &p.input_placeholder,
        Option::None => &none_str,
    };
    if should_set(prev_placeholder, &next.input_placeholder) {
        let v = match &next.input_placeholder {
            Option::Some(s) => s.clone(),
            Option::None => String::new(),
        };
        commands.push(HostCommand::SetInputPlaceholder { node: id, value: v.clone() });
        e.input_placeholder = Option::Some(v);
    }
    proof {
        assert(commands@ =~= done4 + input_placeholder_cmds(id, p0, *next));
        assert(commands@ =~= old(commands)@ + attr_cmds(id, p0, *next));
    }
}

/// Applies one listener slot of an update, recording the commands: a removal
/// detaches the previous listener, an attachment detaches the previous
/// listener first.
fn update_listener(
    commands: &mut Vec<HostCommand>,
    node: usize,
    event: EventKind,
    cur: Option<u64>,
    prev: Option<u64>,
    next: Option<u64>,
) -> (r: Option<u64>)
    ensures
        r == apply_listener(cur, prev, next),
        final(commands)@ == old(commands)@ + listener_cmds(node, event, prev, next),
{
    proof {
        assert(old(commands)@ + Seq::<HostCommand>::empty() =~= old(commands)@);
    }
    match (prev, next) {
        (Option::Some(p), Option::None) => {
            commands.push(HostCommand::RemoveListener { node, event, handler: p });
            proof {
                assert(commands@ =~= old(commands)@ + listener_cmds(node, event, prev, next));
            }
            Option::None
        },
        (Option::Some(p), Option::Some(n)) => {
            commands.push(HostCommand::RemoveListener { node, event, handler: p });
            commands.push(HostCommand::AddListener { node, event, handler: n });
            proof {
                assert(commands@ =~= old(commands)@ + listener_cmds(node, event, prev, next));
            }
            Option::Some(n)
        },
        (Option::None, Option::Some(n)) => {
            commands.push(HostCommand::AddListener { node, event, handler: n });
            proof {
                assert(commands@ =~= old(commands)@ + listener_cmds(node, event, prev, next));
            }
            Option::Some(n)
        },
        (Option::None, Option::None) => cur,
    }
}

} // verus!
