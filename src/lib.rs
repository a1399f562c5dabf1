//! A dropdown (select) widget: its state machine, and the tree fragment it
//! renders into for a host GUI framework.

mod dom;
mod state;
mod view;

pub use dom::{is_label_node, is_parent_node, node_class, parent_class, CallbackId, Dom, DomNode, NodeType};
pub use state::{lemma_input_toggles_open, DropdownState, UpdateScreen};
pub use view::{renders, Dropdown};
