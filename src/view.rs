use vstd::prelude::*;
use crate::dom::{is_label_node, is_parent_node, CallbackId, Dom, DomNode};
use crate::state::DropdownState;

verus! {

/// The dropdown's view: the handle of its input handler, once bound.
#[derive(Debug, Clone, Copy, Hash, PartialEq, Eq, Structural)]
pub struct Dropdown {
    on_input_callback: Option<CallbackId>,
}

/// The dropdown's rendering of `state`, with `callback` attached to every
/// label: while open, one label per option in order, unwrapped; while
/// closed, a single container around one label showing `closed_label`.
pub open spec fn renders(dom: Dom, state: DropdownState, callback: Option<CallbackId>) -> bool {
    if state.open {
        &&& dom.roots@.len() == state.selections@.len()
        &&& forall|i: int|
            0 <= i < dom.roots@.len() ==> is_label_node(
                #[trigger] dom.roots@[i],
                state.selections@[i]@,
                callback,
            )
    } else {
        &&& dom.roots@.len() == 1
        &&& is_parent_node(dom.roots@[0], state.closed_label(), callback)
    }
}

impl Dropdown {
    /// The handler this view attaches to its nodes.
    pub closed spec fn callback(self) -> Option<CallbackId> {
        self.on_input_callback
    }

    /// A view with no handler bound.
    pub fn new() -> (r: Self)
        ensures
            r.callback() is None,
    {
        Dropdown { on_input_callback: None }
    }

    /// The view after binding to the host: `registered` is the handle the
    /// host gave for the input handler, or `None` where the state could not be
    /// reached from the application data and nothing was registered.
    pub fn bind(self, registered: Option<CallbackId>) -> (r: Self)
        ensures
            r.callback() == registered,
    {
        Dropdown { on_input_callback: registered }
    }

    /// Renders `state` into a tree fragment.
    pub fn dom(&self, state: &DropdownState) -> (r: Dom)
        ensures
            renders(r, *state, self.callback()),
    {
        let callback = self.on_input_callback;
        if state.open {
            let mut roots: Vec<DomNode> = Vec::new();
            let n = state.selections.len();
            let mut i: usize = 0;
            while i < n
                invariant
                    n == state.selections@.len(),
                    i <= n,
                    roots@.len() == i,
                    forall|j: int|
                        0 <= j < i ==> is_label_node(
                            #[trigger] roots@[j],
                            state.selections@[j]@,
                            callback,
                        ),
                decreases n - i,
            {
                roots.push(DomNode::label(state.selections[i].clone(), callback));
                i = i + 1;
            }
            Dom { roots }
        } else {
            let mut roots: Vec<DomNode> = Vec::new();
            roots.push(DomNode::parent(DomNode::label(closed_label_text(state), callback)));
            Dom { roots }
        }
    }
}

/// The text of the label shown while `state` is closed.
fn closed_label_text(state: &DropdownState) -> (r: String)
    ensures
        r@ == state.closed_label(),
{
    match &state.selected {
        Some(s) => s.clone(),
        None => match &state.unselected_label {
            Some(l) => l.clone(),
            None => String::new(),
        },
    }
}

} // verus!
