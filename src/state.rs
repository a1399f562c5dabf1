use vstd::prelude::*;

verus! {

/// What an input handler asks of the host after it ran.
#[derive(Debug, Clone, Copy, PartialEq, Eq, Structural)]
pub enum UpdateScreen {
    Redraw,
    DontRedraw,
}

/// The state of one dropdown, owned by the application.
pub struct DropdownState {
    /// Whether the list of options is expanded.
    pub open: bool,
    /// Placeholder shown while closed and nothing is selected.
    pub unselected_label: Option<String>,
    /// The options, in display order.
    pub selections: Vec<String>,
    /// The current selection, if any.
    pub selected: Option<String>,
}

impl DropdownState {
    /// The text of the label shown while the dropdown is closed: the
    /// selection, else the placeholder, else nothing.
    pub open spec fn closed_label(self) -> Seq<char> {
        match self.selected {
            Some(s) => s@,
            None => match self.unselected_label {
                Some(l) => l@,
                None => Seq::empty(),
            },
        }
    }

    /// An input may carry an index only into the options that were shown:
    /// while open, the first index of the path must name an option.
    pub open spec fn input_allowed(self, index_path: Seq<usize>) -> bool {
        self.open && index_path.len() > 0 ==> index_path[0] < self.selections@.len()
    }

    /// The state after one input whose target has the given index path.
    pub open spec fn after_input(self, index_path: Seq<usize>) -> DropdownState {
        DropdownState {
            open: !self.open,
            unselected_label: self.unselected_label,
            selections: self.selections,
            selected: if self.open && index_path.len() > 0 {
                Some(self.selections@[index_path[0] as int])
            } else {
                self.selected
            },
        }
    }

    /// Handles a click on one of the dropdown's nodes. `index_path` locates
    /// the clicked node; its first index is the option's position while the
    /// list is open. A click while open selects that option and closes the
    /// list; a click while closed only opens it.
    pub fn on_input(&mut self, index_path: &[usize]) -> (r: UpdateScreen)
        requires
            old(self).input_allowed(index_path@),
        ensures
            r == UpdateScreen::Redraw,
            *final(self) == old(self).after_input(index_path@),
            final(self).open == !old(self).open,
            !old(self).open ==> final(self).selected == old(self).selected,
            old(self).open && index_path@.len() > 0 ==> final(self).selected == Some(
                old(self).selections@[index_path@[0] as int],
            ),
    {
        if self.open {
            if index_path.len() > 0 {
                let selected_idx = index_path[0];
                self.selected = Some(self.selections[selected_idx].clone());
            }
        }
        self.open = !self.open;
        UpdateScreen::Redraw
    }
}

/// Every input flips whether the dropdown is open, so two inputs in a row,
/// whatever nodes they hit, leave it as open or closed as it was.
pub proof fn lemma_input_toggles_open(s: DropdownState, first: Seq<usize>, second: Seq<usize>)
    ensures
        s.after_input(first).open == !s.open,
        s.after_input(first).after_input(second).open == s.open,
{
}

impl Default for DropdownState {
    /// A closed dropdown with no placeholder, no options and no selection.
    fn default() -> (r: Self)
        ensures
            !r.open,
            r.unselected_label is None,
            r.selections@.len() == 0,
            r.selected is None,
    {
        DropdownState { open: false, unselected_label: None, selections: Vec::new(), selected: None }
    }
}

} // verus!
