//! Property bags attached to elements and fibers.
//!
//! A property bag carries the class name, the text value of a text node, the
//! input-specific attributes, and the event-listener handles. Listener and
//! component handles are plain integers: the embedding maps them to real
//! callbacks of the host language.

use vstd::prelude::*;

verus! {

/// The property bag of one element or fiber.
///
/// Every field is optional; an absent field is never written to the host
/// tree, and an update never clears a field that the new properties leave
/// absent.
pub struct ElementProps {
    pub class_name: Option<String>,
    pub node_value: Option<String>,
    pub input_type: Option<String>,
    pub input_value: Option<String>,
    pub input_placeholder: Option<String>,
    pub input_checked: Option<bool>,
    pub on_click: Option<u64>,
    pub on_change: Option<u64>,
    pub on_blur: Option<u64>,
    pub on_keydown: Option<u64>,
}

/// The view of an optional string: the character sequence it holds, if any.
pub open spec fn opt_str(o: Option<String>) -> Option<Seq<char>> {
    match o {
        Option::Some(s) => Option::Some(s@),
        Option::None => Option::None,
    }
}

/// Shallow equality of two property bags, comparing strings by contents and
/// handles by value.
pub open spec fn props_eq_spec(a: ElementProps, b: ElementProps) -> bool {
    &&& opt_str(a.class_name) == opt_str(b.class_name)
    &&& opt_str(a.node_value) == opt_str(b.node_value)
    &&& opt_str(a.input_type) == opt_str(b.input_type)
    &&& opt_str(a.input_value) == opt_str(b.input_value)
    &&& opt_str(a.input_placeholder) == opt_str(b.input_placeholder)
    &&& a.input_checked == b.input_checked
    &&& a.on_click == b.on_click
    &&& a.on_change == b.on_change
    &&& a.on_blur == b.on_blur
    &&& a.on_keydown == b.on_keydown
}

/// Whether `a` holds a property bag equal to `b`.
pub open spec fn opt_props_eq(a: Option<ElementProps>, b: ElementProps) -> bool {
    match a {
        Option::Some(p) => props_eq_spec(p, b),
        Option::None => false,
    }
}

/// Whether `a` holds a property bag that differs from `b`: the condition
/// under which a same-typed reused fiber is tagged for update.
pub open spec fn opt_props_differ(a: Option<ElementProps>, b: ElementProps) -> bool {
    match a {
        Option::Some(p) => !props_eq_spec(p, b),
        Option::None => false,
    }
}

/// Compares two optional strings by contents.
pub fn opt_string_eq(a: &Option<String>, b: &Option<String>) -> (r: bool)
    ensures
        r == (opt_str(*a) == opt_str(*b)),
{
    match (a, b) {
        (Option::Some(x), Option::Some(y)) => x.eq(y),
        (Option::None, Option::None) => true,
        _ => false,
    }
}

/// Compares two optional handles.
pub fn opt_u64_eq(a: &Option<u64>, b: &Option<u64>) -> (r: bool)
    ensures
        r == (*a == *b),
{
    match (a, b) {
        (Option::Some(x), Option::Some(y)) => *x == *y,
        (Option::None, Option::None) => true,
        _ => false,
    }
}

/// Compares two optional booleans.
pub fn opt_bool_eq(a: &Option<bool>, b: &Option<bool>) -> (r: bool)
    ensures
        r == (*a == *b),
{
    match (a, b) {
        (Option::Some(x), Option::Some(y)) => *x == *y,
        (Option::None, Option::None) => true,
        _ => false,
    }
}

/// Clones an optional string, keeping its contents.
pub fn clone_opt_string(o: &Option<String>) -> (r: Option<String>)
    ensures
        r == *o,
{
    match o {
        Option::Some(s) => Option::Some(s.clone()),
        Option::None => Option::None,
    }
}

impl ElementProps {
    /// A property bag with every field absent.
    pub fn empty() -> (r: ElementProps)
        ensures
            r.class_name is None,
            r.node_value is None,
            r.input_type is None,
            r.input_value is None,
            r.input_placeholder is None,
            r.input_checked is None,
            r.on_click is None,
            r.on_change is None,
            r.on_blur is None,
            r.on_keydown is None,
    {
        ElementProps {
            class_name: Option::None,
            node_value: Option::None,
            input_type: Option::None,
            input_value: Option::None,
            input_placeholder: Option::None,
            input_checked: Option::None,
            on_click: Option::None,
            on_change: Option::None,
            on_blur: Option::None,
            on_keydown: Option::None,
        }
    }

    /// A property bag holding a class name and a text value.
    pub fn new(class_name: String, node_value: String) -> (r: ElementProps)
        ensures
            r.class_name == Option::Some(class_name),
            r.node_value == Option::Some(node_value),
            r.input_type is None,
            r.input_value is None,
            r.input_placeholder is None,
            r.input_checked is None,
            r.on_click is None,
            r.on_change is None,
            r.on_blur is None,
            r.on_keydown is None,
    {
        ElementProps {
            class_name: Option::Some(class_name),
            node_value: Option::Some(node_value),
            input_type: Option::None,
            input_value: Option::None,
            input_placeholder: Option::None,
            input_checked: Option::None,
            on_click: Option::None,
            on_change: Option::None,
            on_blur: Option::None,
            on_keydown: Option::None,
        }
    }

    /// The class name, if any.
    pub fn class_name(&self) -> (r: &Option<String>)
        ensures
            r == &self.class_name,
    {
        &self.class_name
    }

    /// The text value, if any.
    pub fn node_value(&self) -> (r: &Option<String>)
        ensures
            r == &self.node_value,
    {
        &self.node_value
    }

    /// A copy of this property bag.
    pub fn duplicate(&self) -> (r: ElementProps)
        ensures
            r == *self,
    {
        ElementProps {
            class_name: clone_opt_string(&self.class_name),
            node_value: clone_opt_string(&self.node_value),
            input_type: clone_opt_string(&self.input_type),
            input_value: clone_opt_string(&self.input_value),
            input_placeholder: clone_opt_string(&self.input_placeholder),
            input_checked: self.input_checked,
            on_click: self.on_click,
            on_change: self.on_change,
            on_blur: self.on_blur,
            on_keydown: self.on_keydown,
        }
    }

    /// Shallow comparison with another property bag.
    pub fn same_as(&self, other: &ElementProps) -> (r: bool)
        ensures
            r == props_eq_spec(*self, *other),
    {
        opt_string_eq(&self.class_name, &other.class_name)
            && opt_string_eq(&self.node_value, &other.node_value)
            && opt_string_eq(&self.input_type, &other.input_type)
            && opt_string_eq(&self.input_value, &other.input_value)
            && opt_string_eq(&self.input_placeholder, &other.input_placeholder)
            && opt_bool_eq(&self.input_checked, &other.input_checked)
            && opt_u64_eq(&self.on_click, &other.on_click)
            && opt_u64_eq(&self.on_change, &other.on_change)
            && opt_u64_eq(&self.on_blur, &other.on_blur)
            && opt_u64_eq(&self.on_keydown, &other.on_keydown)
    }
}

/// Builds a property bag from a class name and a text value.
pub fn create_props(class_name: String, node_value: String) -> (r: ElementProps)
    ensures
        r.class_name == Option::Some(class_name),
        r.node_value == Option::Some(node_value),
        r.input_type is None,
        r.input_value is None,
        r.input_placeholder is None,
        r.input_checked is None,
        r.on_click is None,
        r.on_change is None,
        r.on_blur is None,
        r.on_keydown is None,
{
    ElementProps::new(class_name, node_value)
}

} // verus!
