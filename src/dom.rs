use vstd::prelude::*;

verus! {

/// A handle to an input handler registered with the host, by its slot in the
/// host's registry.
#[derive(Debug, Clone, Copy, PartialEq, Eq, Hash, Structural)]
pub struct CallbackId {
    pub slot: usize,
}

/// What a node shows.
#[derive(Debug, PartialEq, Eq)]
pub enum NodeType {
    Div,
    Label(String),
}

/// One node of a rendered tree fragment.
#[derive(Debug, PartialEq, Eq)]
pub struct DomNode {
    pub node_type: NodeType,
    /// Style classes, in the order they were attached.
    pub classes: Vec<String>,
    /// The handler the host invokes when the pointer is released over the node.
    pub on_mouse_up: Option<CallbackId>,
    pub children: Vec<DomNode>,
}

/// A tree fragment: a sequence of sibling root nodes.
#[derive(Debug, PartialEq, Eq)]
pub struct Dom {
    pub roots: Vec<DomNode>,
}

/// The style class of the container that wraps the closed dropdown.
pub open spec fn parent_class() -> Seq<char> {
    "dropdown-parent"@
}

/// The style class of every label node of the dropdown.
pub open spec fn node_class() -> Seq<char> {
    "dropdown-node"@
}

/// `n` is a childless label showing `text`, of the single class
/// `node_class()`, with `callback` on pointer release.
pub open spec fn is_label_node(n: DomNode, text: Seq<char>, callback: Option<CallbackId>) -> bool {
    &&& n.node_type matches NodeType::Label(s) && s@ == text
    &&& n.classes@.len() == 1
    &&& n.classes@[0]@ == node_class()
    &&& n.on_mouse_up == callback
    &&& n.children@.len() == 0
}

/// `n` is a container of the single class `parent_class()`, with no handler,
/// whose one child is a label node showing `text` with `callback`.
pub open spec fn is_parent_node(n: DomNode, text: Seq<char>, callback: Option<CallbackId>) -> bool {
    &&& n.node_type is Div
    &&& n.classes@.len() == 1
    &&& n.classes@[0]@ == parent_class()
    &&& n.on_mouse_up is None
    &&& n.children@.len() == 1
    &&& is_label_node(n.children@[0], text, callback)
}

impl DomNode {
    /// A label node showing `text`, of class `node_class()`, that calls
    /// `callback` on pointer release.
    pub fn label(text: String, callback: Option<CallbackId>) -> (r: DomNode)
        ensures
            is_label_node(r, text@, callback),
    {
        let mut classes: Vec<String> = Vec::new();
        classes.push("dropdown-node".to_owned());
        DomNode { node_type: NodeType::Label(text), classes, on_mouse_up: callback, children: Vec::new() }
    }

    /// A container of class `parent_class()` holding the one node `child`.
    pub fn parent(child: DomNode) -> (r: DomNode)
        ensures
            r.node_type is Div,
            r.classes@.len() == 1,
            r.classes@[0]@ == parent_class(),
            r.on_mouse_up is None,
            r.children@ == seq![child],
    {
        let mut classes: Vec<String> = Vec::new();
        classes.push("dropdown-parent".to_owned());
        let mut children: Vec<DomNode> = Vec::new();
        children.push(child);
        DomNode { node_type: NodeType::Div, classes, on_mouse_up: None, children }
    }
}

} // verus!
