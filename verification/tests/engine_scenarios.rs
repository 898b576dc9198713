//! End-to-end scenarios: render, re-render, list shrinking, hooks.

use fusion::element::NodeType;
use fusion::engine::{
    create_element, create_functional_element, create_text_element, render, set_state, use_state,
    work_loop, Context, UpdateHandle, WorkStatus,
};
use fusion::fiber::FiberEffect;
use fusion::host::{EngineError, HostCommand, Node};
use fusion::props::create_props;

fn new_container(ctx: &mut Context) -> usize {
    ctx.host.create_element_node("root".to_string()).unwrap()
}

fn div_with_class(ctx: &mut Context, class: &str, children: Vec<usize>) -> usize {
    let props = create_props(class.to_string(), String::new());
    create_element(ctx, NodeType::Host("div".to_string()), props, children)
}

fn run_to_idle(ctx: &mut Context) {
    match work_loop(ctx, false).unwrap() {
        WorkStatus::Idle => {}
        other => panic!("work loop did not finish: {:?}", other),
    }
}

fn element_node(ctx: &Context, id: usize) -> &fusion::host::ElementNode {
    match &ctx.host.nodes[id] {
        Node::Element(e) => e,
        Node::Text(_) => panic!("expected an element node"),
    }
}

fn text_node(ctx: &Context, id: usize) -> &fusion::host::TextNode {
    match &ctx.host.nodes[id] {
        Node::Text(t) => t,
        Node::Element(_) => panic!("expected a text node"),
    }
}

#[test]
fn render_div_with_class_a() {
    let mut ctx = Context::new();
    let container = new_container(&mut ctx);
    let elem = div_with_class(&mut ctx, "a", vec![]);
    render(&mut ctx, elem, container);
    run_to_idle(&mut ctx);

    let root = element_node(&ctx, container);
    assert_eq!(root.children.len(), 1);
    let child = element_node(&ctx, root.children[0]);
    assert_eq!(child.tag, "div");
    assert_eq!(child.class_name, Some("a".to_string()));
    assert!(ctx.current_root.is_some());
    assert!(ctx.wip_root.is_none());
}

#[test]
fn rerender_mutates_class_without_new_node() {
    let mut ctx = Context::new();
    let container = new_container(&mut ctx);
    let elem = div_with_class(&mut ctx, "a", vec![]);
    render(&mut ctx, elem, container);
    run_to_idle(&mut ctx);
    let first_child = element_node(&ctx, container).children[0];
    let nodes_before = ctx.host.nodes.len();

    let elem2 = div_with_class(&mut ctx, "b", vec![]);
    render(&mut ctx, elem2, container);
    run_to_idle(&mut ctx);

    // Same host node handle, mutated in place; no node created.
    assert_eq!(ctx.host.nodes.len(), nodes_before);
    let children = &element_node(&ctx, container).children;
    assert_eq!(children.len(), 1);
    assert_eq!(children[0], first_child);
    assert_eq!(element_node(&ctx, first_child).class_name, Some("b".to_string()));
    assert!(ctx
        .host
        .commands
        .iter()
        .any(|c| matches!(c, HostCommand::SetClassName { node, value } if *node == first_child && value == "b")));
}

#[test]
fn rerender_with_identical_props_emits_no_update() {
    let mut ctx = Context::new();
    let container = new_container(&mut ctx);
    let elem = div_with_class(&mut ctx, "a", vec![]);
    render(&mut ctx, elem, container);
    run_to_idle(&mut ctx);
    let commands_before = ctx.host.commands.len();

    let elem2 = div_with_class(&mut ctx, "a", vec![]);
    render(&mut ctx, elem2, container);
    run_to_idle(&mut ctx);

    // No-op update suppression: nothing was written to the host tree.
    assert_eq!(ctx.host.commands.len(), commands_before);
}

#[test]
fn fresh_render_places_every_node_in_pre_order() {
    let mut ctx = Context::new();
    let container = new_container(&mut ctx);
    let x = create_text_element(&mut ctx, "x".to_string());
    let span = create_element(
        &mut ctx,
        NodeType::Host("span".to_string()),
        create_props(String::new(), String::new()),
        vec![x],
    );
    let p = create_element(
        &mut ctx,
        NodeType::Host("p".to_string()),
        create_props(String::new(), String::new()),
        vec![],
    );
    let div = div_with_class(&mut ctx, "c", vec![span, p]);
    render(&mut ctx, div, container);
    let log_start = ctx.host.commands.len();
    run_to_idle(&mut ctx);

    // Creations happen in traversal order, and the placements replay the
    // effect list: one per node, in pre-order.
    let tags: Vec<String> = ctx.host.commands[log_start..]
        .iter()
        .filter_map(|c| match c {
            HostCommand::CreateElement { tag, .. } => Some(tag.clone()),
            HostCommand::CreateText { value, .. } => Some(format!("text:{}", value)),
            _ => None,
        })
        .collect();
    assert_eq!(tags, vec!["div", "span", "text:x", "p"]);

    let appends: Vec<(usize, usize)> = ctx.host.commands[log_start..]
        .iter()
        .filter_map(|c| match c {
            HostCommand::AppendChild { parent, child } => Some((*parent, *child)),
            _ => None,
        })
        .collect();
    assert_eq!(appends.len(), 4);
    // The first appended node goes under the container; each later parent
    // was appended before its children (pre-order).
    assert_eq!(appends[0].0, container);
    let div_node = appends[0].1;
    assert_eq!(appends[1].0, div_node);
    let span_node = appends[1].1;
    assert_eq!(appends[2].0, span_node);
    assert_eq!(appends[3].0, div_node);
}

#[test]
fn type_change_deletes_old_and_places_new() {
    let mut ctx = Context::new();
    let container = new_container(&mut ctx);
    let d = div_with_class(&mut ctx, "a", vec![]);
    render(&mut ctx, d, container);
    run_to_idle(&mut ctx);
    let old_child_fiber = {
        let root = ctx.current_root.unwrap();
        ctx.fibers[root].child.unwrap()
    };
    let old_node = ctx.fibers[old_child_fiber].host_node.unwrap();

    let s = create_element(
        &mut ctx,
        NodeType::Host("span".to_string()),
        create_props("a".to_string(), String::new()),
        vec![],
    );
    render(&mut ctx, s, container);
    run_to_idle(&mut ctx);

    // The old fiber was tagged for deletion, the new one placed — never
    // updated in place.
    assert_eq!(ctx.fibers[old_child_fiber].effect_tag, Some(FiberEffect::Deletion));
    let new_child_fiber = {
        let root = ctx.current_root.unwrap();
        ctx.fibers[root].child.unwrap()
    };
    assert_ne!(new_child_fiber, old_child_fiber);
    let new_node = ctx.fibers[new_child_fiber].host_node.unwrap();
    assert_ne!(new_node, old_node);
    let children = &element_node(&ctx, container).children;
    assert_eq!(children, &vec![new_node]);
    assert!(ctx
        .host
        .commands
        .iter()
        .any(|c| matches!(c, HostCommand::RemoveNode { node } if *node == old_node)));
}

#[test]
fn list_shrink_updates_by_position_and_deletes_tail() {
    let mut ctx = Context::new();
    let container = new_container(&mut ctx);
    let x = create_text_element(&mut ctx, "x".to_string());
    let y = create_text_element(&mut ctx, "y".to_string());
    let z = create_text_element(&mut ctx, "z".to_string());
    let list = div_with_class(&mut ctx, "l", vec![x, y, z]);
    render(&mut ctx, list, container);
    run_to_idle(&mut ctx);
    let div_node = element_node(&ctx, container).children[0];
    let texts_before = element_node(&ctx, div_node).children.clone();
    assert_eq!(texts_before.len(), 3);
    let tail_node = texts_before[2];

    let x2 = create_text_element(&mut ctx, "x".to_string());
    let z2 = create_text_element(&mut ctx, "z".to_string());
    let list2 = div_with_class(&mut ctx, "l", vec![x2, z2]);
    render(&mut ctx, list2, container);
    run_to_idle(&mut ctx);

    // Position 1's node mutated from "y" to "z"; position 2's old node
    // removed; position 0 untouched.
    let texts_after = element_node(&ctx, div_node).children.clone();
    assert_eq!(texts_after, vec![texts_before[0], texts_before[1]]);
    assert_eq!(text_node(&ctx, texts_after[0]).value, "x");
    assert_eq!(text_node(&ctx, texts_after[1]).value, "z");
    assert!(ctx
        .host
        .commands
        .iter()
        .any(|c| matches!(c, HostCommand::RemoveNode { node } if *node == tail_node)));
}

/// Drives the work loop, running a counter component that reads one state
/// cell and renders its value as a text node. Returns the values each
/// invocation observed and the update capabilities it was handed.
fn run_counter(ctx: &mut Context) -> (Vec<u64>, Vec<UpdateHandle>) {
    let mut observed = Vec::new();
    let mut handles = Vec::new();
    loop {
        match work_loop(ctx, false).unwrap() {
            WorkStatus::Idle => break,
            WorkStatus::Yielded => panic!("unexpected yield"),
            WorkStatus::NeedsComponent { function, .. } => {
                assert_eq!(function, 1);
                let (value, handle) = use_state(ctx, 0).unwrap();
                observed.push(value);
                handles.push(handle);
                let child = create_text_element(ctx, format!("{}", value));
                ctx.finish_component(Some(child)).unwrap();
            }
        }
    }
    (observed, handles)
}

#[test]
fn use_state_update_capability_rerenders_with_new_value() {
    let mut ctx = Context::new();
    let container = new_container(&mut ctx);
    let app = create_functional_element(&mut ctx, 1, 0);
    render(&mut ctx, app, container);

    let (observed, handles) = run_counter(&mut ctx);
    assert_eq!(observed, vec![0]);
    let text = element_node(&ctx, container).children[0];
    assert_eq!(text_node(&ctx, text).value, "0");

    set_state(&mut ctx, handles[0], 5).unwrap();
    let (observed2, _) = run_counter(&mut ctx);
    assert_eq!(observed2, vec![5]);
    assert_eq!(text_node(&ctx, text).value, "5");
}

#[test]
fn hook_order_is_stable_across_renders() {
    let mut ctx = Context::new();
    let container = new_container(&mut ctx);
    let app = create_functional_element(&mut ctx, 1, 0);
    render(&mut ctx, app, container);

    // A component that reads two cells in a fixed order.
    let mut first_handles = Vec::new();
    loop {
        match work_loop(&mut ctx, false).unwrap() {
            WorkStatus::Idle => break,
            WorkStatus::Yielded => panic!("unexpected yield"),
            WorkStatus::NeedsComponent { .. } => {
                let (a, ha) = use_state(&mut ctx, 10).unwrap();
                let (b, hb) = use_state(&mut ctx, 20).unwrap();
                assert_eq!((a, b), (10, 20));
                first_handles = vec![ha, hb];
                let child = create_text_element(&mut ctx, String::new());
                ctx.finish_component(Some(child)).unwrap();
            }
        }
    }
    // Update only the second cell, then re-render with other initial
    // values: each read still observes its own slot's prior value.
    set_state(&mut ctx, first_handles[1], 99).unwrap();
    loop {
        match work_loop(&mut ctx, false).unwrap() {
            WorkStatus::Idle => break,
            WorkStatus::Yielded => panic!("unexpected yield"),
            WorkStatus::NeedsComponent { .. } => {
                let (a, _) = use_state(&mut ctx, 1000).unwrap();
                let (b, _) = use_state(&mut ctx, 2000).unwrap();
                assert_eq!((a, b), (10, 99));
                let child = create_text_element(&mut ctx, String::new());
                ctx.finish_component(Some(child)).unwrap();
            }
        }
    }
}

#[test]
fn use_state_outside_component_is_refused() {
    let mut ctx = Context::new();
    assert_eq!(use_state(&mut ctx, 0), Err(EngineError::NoActiveComponent));
}

#[test]
fn failed_commit_does_not_advance_current_root() {
    let mut ctx = Context::new();
    let container = new_container(&mut ctx);
    let mut root = fusion::fiber::Fiber::new_root();
    root.host_node = Some(container);
    ctx.fibers.push(root);
    // A placed fiber whose host node handle points outside the host arena:
    // applying its effect fails.
    let mut broken = fusion::fiber::Fiber::new(NodeType::Host("div".to_string()));
    broken.parent = Some(0);
    broken.host_node = Some(999);
    broken.effect_tag = Some(FiberEffect::Placement);
    ctx.fibers.push(broken);
    ctx.effects.push(1);
    ctx.wip_root = Some(0);

    let r = ctx.commit_root();
    assert_eq!(r, Err(EngineError::MissingNode));
    assert_eq!(ctx.current_root, None);
    assert_eq!(ctx.wip_root, Some(0));
    assert_eq!(ctx.effects, vec![1]);
}

#[test]
fn list_growth_places_trailing_nodes() {
    let mut ctx = Context::new();
    let container = new_container(&mut ctx);
    let x = create_text_element(&mut ctx, "x".to_string());
    let y = create_text_element(&mut ctx, "y".to_string());
    let list = div_with_class(&mut ctx, "l", vec![x, y]);
    render(&mut ctx, list, container);
    run_to_idle(&mut ctx);
    let div_node = element_node(&ctx, container).children[0];
    let before = element_node(&ctx, div_node).children.clone();

    let x2 = create_text_element(&mut ctx, "x".to_string());
    let y2 = create_text_element(&mut ctx, "y".to_string());
    let z2 = create_text_element(&mut ctx, "z".to_string());
    let list2 = div_with_class(&mut ctx, "l", vec![x2, y2, z2]);
    render(&mut ctx, list2, container);
    run_to_idle(&mut ctx);

    let after = element_node(&ctx, div_node).children.clone();
    assert_eq!(after.len(), 3);
    assert_eq!(&after[..2], &before[..]);
    assert_eq!(text_node(&ctx, after[2]).value, "z");
}

#[test]
fn listener_props_flow_to_the_host_tree() {
    let mut ctx = Context::new();
    let container = new_container(&mut ctx);
    let mut props = create_props("b".to_string(), String::new());
    props.on_click = Some(41);
    let button = create_element(&mut ctx, NodeType::Host("button".to_string()), props, vec![]);
    render(&mut ctx, button, container);
    run_to_idle(&mut ctx);
    let node = element_node(&ctx, container).children[0];
    match &ctx.host.nodes[node] {
        fusion::host::Node::Element(e) => assert_eq!(e.on_click, Some(41)),
        fusion::host::Node::Text(_) => panic!("expected an element node"),
    }

    let mut props2 = create_props("b".to_string(), String::new());
    props2.on_click = Some(42);
    let button2 = create_element(&mut ctx, NodeType::Host("button".to_string()), props2, vec![]);
    render(&mut ctx, button2, container);
    run_to_idle(&mut ctx);
    match &ctx.host.nodes[node] {
        fusion::host::Node::Element(e) => assert_eq!(e.on_click, Some(42)),
        fusion::host::Node::Text(_) => panic!("expected an element node"),
    }
    assert!(ctx.host.commands.iter().any(
        |c| matches!(c, HostCommand::RemoveListener { handler: 41, .. })
    ));
    assert!(ctx.host.commands.iter().any(
        |c| matches!(c, HostCommand::AddListener { handler: 42, .. })
    ));
}

#[test]
fn deleting_a_functional_fiber_removes_its_childs_node() {
    let mut ctx = Context::new();
    let container = new_container(&mut ctx);
    let app = create_functional_element(&mut ctx, 1, 0);
    render(&mut ctx, app, container);
    loop {
        match work_loop(&mut ctx, false).unwrap() {
            WorkStatus::Idle => break,
            WorkStatus::Yielded => panic!("unexpected yield"),
            WorkStatus::NeedsComponent { .. } => {
                let inner = div_with_class(&mut ctx, "inner", vec![]);
                ctx.finish_component(Some(inner)).unwrap();
            }
        }
    }
    let inner_node = element_node(&ctx, container).children[0];

    // Replace the functional component with a plain host element: the old
    // functional fiber is deleted, and — owning no host node itself — its
    // child's node is removed in its place.
    let span = create_element(
        &mut ctx,
        NodeType::Host("span".to_string()),
        create_props(String::new(), String::new()),
        vec![],
    );
    render(&mut ctx, span, container);
    run_to_idle(&mut ctx);
    assert!(ctx.host.commands.iter().any(
        |c| matches!(c, HostCommand::RemoveNode { node } if *node == inner_node)
    ));
    let children = &element_node(&ctx, container).children;
    assert_eq!(children.len(), 1);
    assert_ne!(children[0], inner_node);
}

#[test]
fn fresh_functional_fiber_is_tagged_placement() {
    let mut ctx = Context::new();
    let container = new_container(&mut ctx);
    let app = create_functional_element(&mut ctx, 1, 0);
    render(&mut ctx, app, container);
    let (_, _) = run_counter(&mut ctx);

    // Every node of a fresh render carries a Placement tag, the functional
    // one included; commit skips it, since it owns no host node.
    let func_fiber = ctx.fibers[ctx.current_root.unwrap()].child.unwrap();
    assert!(ctx.fibers[func_fiber].is_functional_tree());
    assert_eq!(ctx.fibers[func_fiber].effect_tag, Some(FiberEffect::Placement));
    assert!(ctx.fibers[func_fiber].host_node.is_none());
}
