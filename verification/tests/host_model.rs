//! The model host tree: the property diff and the structural operations.

use fusion::host::{EngineError, EventKind, HostCommand, HostTree, Node};
use fusion::props::ElementProps;

fn elem(t: &HostTree, id: usize) -> &fusion::host::ElementNode {
    match &t.nodes[id] {
        Node::Element(e) => e,
        Node::Text(_) => panic!("expected an element node"),
    }
}

fn props_with_class(class: &str) -> ElementProps {
    let mut p = ElementProps::empty();
    p.class_name = Some(class.to_string());
    p
}

#[test]
fn empty_tag_is_refused() {
    let mut t = HostTree::new();
    assert_eq!(t.create_element_node(String::new()), Err(EngineError::EmptyTag));
    assert_eq!(t.nodes.len(), 0);
}

#[test]
fn update_writes_only_the_changed_subset() {
    let mut t = HostTree::new();
    let id = t.create_element_node("input".to_string()).unwrap();
    let mut first = ElementProps::empty();
    first.class_name = Some("a".to_string());
    first.input_type = Some("text".to_string());
    first.input_value = Some("v".to_string());
    t.update_element(id, None, &first).unwrap();
    assert_eq!(elem(&t, id).class_name, Some("a".to_string()));
    assert_eq!(elem(&t, id).input_type, Some("text".to_string()));
    assert_eq!(elem(&t, id).input_value, Some("v".to_string()));

    // Same class, new value: only the value is written.
    let log = t.commands.len();
    let mut second = ElementProps::empty();
    second.class_name = Some("a".to_string());
    second.input_type = Some("text".to_string());
    second.input_value = Some("w".to_string());
    t.update_element(id, Some(&first), &second).unwrap();
    let written: Vec<&HostCommand> = t.commands[log..].iter().collect();
    assert_eq!(written.len(), 1);
    assert!(matches!(written[0], HostCommand::SetInputValue { value, .. } if value == "w"));
    assert_eq!(elem(&t, id).input_value, Some("w".to_string()));

    // An absent next field leaves the attribute as it stands.
    let log = t.commands.len();
    let third = ElementProps::empty();
    t.update_element(id, Some(&second), &third).unwrap();
    assert_eq!(t.commands.len(), log);
    assert_eq!(elem(&t, id).class_name, Some("a".to_string()));
}

#[test]
fn listener_update_removes_then_adds() {
    let mut t = HostTree::new();
    let id = t.create_element_node("button".to_string()).unwrap();
    let mut first = ElementProps::empty();
    first.on_click = Some(7);
    t.update_element(id, None, &first).unwrap();
    assert_eq!(elem(&t, id).on_click, Some(7));

    // Both present: always remove then add, to avoid duplicate bindings.
    let log = t.commands.len();
    let mut second = ElementProps::empty();
    second.on_click = Some(7);
    t.update_element(id, Some(&first), &second).unwrap();
    let written: Vec<&HostCommand> = t.commands[log..].iter().collect();
    assert_eq!(
        written,
        vec![
            &HostCommand::RemoveListener { node: id, event: EventKind::Click, handler: 7 },
            &HostCommand::AddListener { node: id, event: EventKind::Click, handler: 7 },
        ]
    );

    // Present, then absent: the listener is detached.
    let third = ElementProps::empty();
    t.update_element(id, Some(&second), &third).unwrap();
    assert_eq!(elem(&t, id).on_click, None);
    assert!(matches!(
        t.commands.last(),
        Some(HostCommand::RemoveListener { handler: 7, .. })
    ));
}

#[test]
fn text_update_by_equality() {
    let mut t = HostTree::new();
    let id = t.create_text_node("y".to_string());
    let mut next = ElementProps::empty();
    next.node_value = Some("y".to_string());
    let mut prev = ElementProps::empty();
    prev.node_value = Some("y".to_string());
    let log = t.commands.len();
    t.update_text(id, Some(&prev), &next).unwrap();
    assert_eq!(t.commands.len(), log);

    let mut changed = ElementProps::empty();
    changed.node_value = Some("z".to_string());
    t.update_text(id, Some(&prev), &changed).unwrap();
    match &t.nodes[id] {
        Node::Text(tn) => assert_eq!(tn.value, "z"),
        Node::Element(_) => panic!("expected a text node"),
    }
}

#[test]
fn update_refuses_wrong_node_kind() {
    let mut t = HostTree::new();
    let e = t.create_element_node("div".to_string()).unwrap();
    let x = t.create_text_node("x".to_string());
    let p = ElementProps::empty();
    assert_eq!(t.update_element(x, None, &p), Err(EngineError::NotAnElement));
    assert_eq!(t.update_text(e, None, &p), Err(EngineError::NotAText));
    assert_eq!(t.update_element(9, None, &p), Err(EngineError::MissingNode));
}

#[test]
fn append_child_attaches_and_moves() {
    let mut t = HostTree::new();
    let a = t.create_element_node("div".to_string()).unwrap();
    let b = t.create_element_node("div".to_string()).unwrap();
    let x = t.create_text_node("x".to_string());
    t.append_child(a, x).unwrap();
    assert_eq!(elem(&t, a).children, vec![x]);

    // Appending under another parent moves the node.
    t.append_child(b, x).unwrap();
    assert_eq!(elem(&t, a).children, Vec::<usize>::new());
    assert_eq!(elem(&t, b).children, vec![x]);

    assert_eq!(t.append_child(a, 9), Err(EngineError::MissingNode));
    assert_eq!(t.append_child(x, a), Err(EngineError::NotAnElement));
}

#[test]
fn append_refuses_cycles() {
    let mut t = HostTree::new();
    let a = t.create_element_node("div".to_string()).unwrap();
    let b = t.create_element_node("div".to_string()).unwrap();
    t.append_child(a, b).unwrap();
    assert_eq!(t.append_child(b, a), Err(EngineError::CycleDetected));
    assert_eq!(t.append_child(a, a), Err(EngineError::CycleDetected));
}

#[test]
fn remove_node_detaches() {
    let mut t = HostTree::new();
    let a = t.create_element_node("div".to_string()).unwrap();
    let x = t.create_text_node("x".to_string());
    let y = t.create_text_node("y".to_string());
    t.append_child(a, x).unwrap();
    t.append_child(a, y).unwrap();
    t.remove_node(x).unwrap();
    assert_eq!(elem(&t, a).children, vec![y]);
    // Removing a detached node only records the removal.
    t.remove_node(x).unwrap();
    assert_eq!(elem(&t, a).children, vec![y]);
    assert_eq!(t.remove_node(9), Err(EngineError::MissingNode));
}
