//! The fixed, strictly ordered dispatch stages of one step.

use vstd::prelude::*;

verus! {

/// The named stages one step flows through, in this fixed order:
/// `PreInput`, `Input`, `PostInput`, `PreAction`, `Action`, `PostAction`.
/// Raw-input sampling and the tracker update happen in `Input`; consumer
/// logic runs in `Action` or later and so always observes a fully updated
/// tracker for the current step.
#[derive(Clone, Copy, Debug, PartialEq, Eq, Hash, Structural)]
pub enum MenuSet {
    PreInput,
    Input,
    PostInput,
    PreAction,
    Action,
    PostAction,
}

impl MenuSet {
    /// The position of this stage in the fixed order, counted from zero.
    pub open spec fn spec_index(self) -> int {
        match self {
            MenuSet::PreInput => 0,
            MenuSet::Input => 1,
            MenuSet::PostInput => 2,
            MenuSet::PreAction => 3,
            MenuSet::Action => 4,
            MenuSet::PostAction => 5,
        }
    }

    /// The stage that runs right after this one, if any.
    pub open spec fn spec_next(self) -> Option<MenuSet> {
        match self {
            MenuSet::PreInput => Some(MenuSet::Input),
            MenuSet::Input => Some(MenuSet::PostInput),
            MenuSet::PostInput => Some(MenuSet::PreAction),
            MenuSet::PreAction => Some(MenuSet::Action),
            MenuSet::Action => Some(MenuSet::PostAction),
            MenuSet::PostAction => None,
        }
    }

    /// Returns the position of this stage in the fixed order.
    pub fn index(&self) -> (i: usize)
        ensures
            i as int == self.spec_index(),
    {
        match self {
            MenuSet::PreInput => 0,
            MenuSet::Input => 1,
            MenuSet::PostInput => 2,
            MenuSet::PreAction => 3,
            MenuSet::Action => 4,
            MenuSet::PostAction => 5,
        }
    }

    /// Returns the stage that runs right after this one, or `None` for the
    /// last stage of the step.
    pub fn next(&self) -> (n: Option<MenuSet>)
        ensures
            n == self.spec_next(),
            n matches Some(s) ==> s.spec_index() == self.spec_index() + 1,
            n is None <==> *self == MenuSet::PostAction,
    {
        match self {
            MenuSet::PreInput => Some(MenuSet::Input),
            MenuSet::Input => Some(MenuSet::PostInput),
            MenuSet::PostInput => Some(MenuSet::PreAction),
            MenuSet::PreAction => Some(MenuSet::Action),
            MenuSet::Action => Some(MenuSet::PostAction),
            MenuSet::PostAction => None,
        }
    }

    /// Reports whether this stage must complete before `other` starts.
    pub fn comes_before(&self, other: &MenuSet) -> (r: bool)
        ensures
            r == (self.spec_index() < other.spec_index()),
    {
        self.index() < other.index()
    }
}

} // verus!
