//! Elements, property bags and the remaining engine error paths.

use fusion::element::{Element, NodeType};
use fusion::engine::{
    create_element, create_functional_element, render, set_state, work_loop, Context, UpdateHandle,
};
use fusion::host::EngineError;
use fusion::props::{create_props, ElementProps};

#[test]
fn element_accessors() {
    let props = create_props("c".to_string(), String::new());
    let e = Element::new(NodeType::Host("div".to_string()), props, vec![]);
    assert!(!e.is_text_element());
    assert!(matches!(e.element_type(), NodeType::Host(t) if t == "div"));
    assert_eq!(e.props().class_name(), &Some("c".to_string()));
    assert_eq!(e.children().len(), 0);

    let t = Element::new(
        NodeType::Text,
        ElementProps::new(String::new(), "x".to_string()),
        vec![],
    );
    assert!(t.is_text_element());
    assert_eq!(t.props().node_value(), &Some("x".to_string()));
}

#[test]
fn props_shallow_comparison() {
    let a = create_props("a".to_string(), "v".to_string());
    let b = create_props("a".to_string(), "v".to_string());
    let c = create_props("b".to_string(), "v".to_string());
    assert!(a.same_as(&b));
    assert!(!a.same_as(&c));
    let mut d = a.duplicate();
    assert!(a.same_as(&d));
    d.on_click = Some(3);
    assert!(!a.same_as(&d));
}

#[test]
fn functional_elements_carry_their_handles() {
    let mut ctx = Context::new();
    let f = create_functional_element(&mut ctx, 4, 9);
    assert_eq!(ctx.elements[f].component_function, Some(4));
    assert_eq!(ctx.elements[f].component_props, Some(9));
    assert!(matches!(ctx.elements[f].element_type, NodeType::Functional));
}

#[test]
fn set_state_refuses_a_stale_or_foreign_handle() {
    let mut ctx = Context::new();
    let bad = UpdateHandle { fiber: 0, hook: 0 };
    assert_eq!(set_state(&mut ctx, bad, 1), Err(EngineError::MissingNode));

    ctx.fibers.push(fusion::fiber::Fiber::new_root());
    // The fiber exists but has no state cell at this position.
    assert_eq!(set_state(&mut ctx, bad, 1), Err(EngineError::BrokenLink));
    assert_eq!(ctx.wip_root, None);
    assert_eq!(ctx.next_unit_of_work, None);
}

#[test]
fn missing_props_fail_loudly() {
    let mut ctx = Context::new();
    let container = ctx.host.create_element_node("root".to_string()).unwrap();
    // Text nodes need a value.
    let text = Element::new(NodeType::Text, ElementProps::empty(), vec![]);
    let tid = ctx.elements.len();
    ctx.elements.push(text);
    let holder = create_element(
        &mut ctx,
        NodeType::Host("div".to_string()),
        create_props(String::new(), String::new()),
        vec![tid],
    );
    render(&mut ctx, holder, container);
    assert_eq!(work_loop(&mut ctx, false), Err(EngineError::MissingProps));
}

#[test]
fn work_loop_with_timeout_performs_nothing() {
    let mut ctx = Context::new();
    let container = ctx.host.create_element_node("root".to_string()).unwrap();
    let elem = create_element(
        &mut ctx,
        NodeType::Host("div".to_string()),
        create_props("a".to_string(), String::new()),
        vec![],
    );
    render(&mut ctx, elem, container);
    let fibers_before = ctx.fibers.len();
    let r = work_loop(&mut ctx, true).unwrap();
    assert_eq!(ctx.fibers.len(), fibers_before);
    assert!(matches!(r, fusion::engine::WorkStatus::Yielded));
    assert_eq!(ctx.current_root, None);

    // Resuming with the same persisted state finishes the render.
    let r = work_loop(&mut ctx, false).unwrap();
    assert!(matches!(r, fusion::engine::WorkStatus::Idle));
    assert!(ctx.current_root.is_some());
    match &ctx.host.nodes[container] {
        fusion::host::Node::Element(e) => assert_eq!(e.children.len(), 1),
        fusion::host::Node::Text(_) => panic!("expected an element node"),
    }
}
