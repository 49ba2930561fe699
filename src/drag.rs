use vstd::prelude::*;

verus! {

/// Where the select-and-drag interaction stands. `P` is the caller's world
/// point type; this module only stores and hands back its values.
pub enum DragState<P> {
    /// Nothing is selected.
    Idle,
    /// A candidate was clicked; `impact` is where the pick ray hit it.
    Selected { index: usize, impact: P },
    /// The selected candidate is being dragged toward `target`, a point on
    /// the drag plane through `impact`.
    Dragging { index: usize, impact: P, target: P },
}

/// What the caller has to do for this tick's input.
#[derive(PartialEq, Eq, Structural, Clone, Copy, Debug)]
pub enum Request {
    /// The button is up: the interaction ends.
    Release,
    /// Cast the cursor ray and pick the nearest candidate.
    Pick,
    /// Project the cursor ray onto the drag plane through the hit impact.
    ProjectOntoDragPlane,
    /// Nothing to do.
    Nothing,
}

/// The request that a tick with these buttons held asks for in `state`.
pub open spec fn request_spec<P>(state: DragState<P>, button: bool, modifier: bool) -> Request {
    if !button {
        Request::Release
    } else if !modifier {
        Request::Pick
    } else if state is Idle {
        Request::Nothing
    } else {
        Request::ProjectOntoDragPlane
    }
}

/// The selected candidate's index, if any.
pub open spec fn selected_spec<P>(state: DragState<P>) -> Option<usize> {
    match state {
        DragState::Idle => None,
        DragState::Selected { index, .. } => Some(index),
        DragState::Dragging { index, .. } => Some(index),
    }
}

/// Where the pick ray hit the selected candidate, if any.
pub open spec fn impact_spec<P>(state: DragState<P>) -> Option<P> {
    match state {
        DragState::Idle => None,
        DragState::Selected { impact, .. } => Some(impact),
        DragState::Dragging { impact, .. } => Some(impact),
    }
}

/// The drag target, if a drag is under way.
pub open spec fn target_spec<P>(state: DragState<P>) -> Option<P> {
    match state {
        DragState::Dragging { target, .. } => Some(target),
        _ => None,
    }
}

/// The state after a pick: a hit selects the candidate, a miss keeps the
/// current state.
pub open spec fn after_pick<P>(state: DragState<P>, hit: Option<(usize, P)>) -> DragState<P> {
    match hit {
        Some((index, impact)) => DragState::Selected { index, impact },
        None => state,
    }
}

/// The state after projecting onto the drag plane: a point found while
/// something is selected becomes the drag target; otherwise nothing changes.
pub open spec fn after_projection<P>(state: DragState<P>, point: Option<P>) -> DragState<P> {
    match (state, point) {
        (DragState::Selected { index, impact }, Some(target)) => DragState::Dragging {
            index,
            impact,
            target,
        },
        (DragState::Dragging { index, impact, .. }, Some(target)) => DragState::Dragging {
            index,
            impact,
            target,
        },
        (s, _) => s,
    }
}

/// The state after the solver could not reach the drag target: the target is
/// dropped and the candidate stays selected.
pub open spec fn after_solve_failed<P>(state: DragState<P>) -> DragState<P> {
    match state {
        DragState::Dragging { index, impact, .. } => DragState::Selected { index, impact },
        s => s,
    }
}

/// The IK arm's selection: which cube is selected, where it was hit, and the
/// point it is being dragged toward.
pub struct SelectedIkCube<P> {
    pub state: DragState<P>,
}

impl<P: Copy> SelectedIkCube<P> {
    /// Nothing selected.
    pub fn new() -> (r: Self)
        ensures
            r.state is Idle,
    {
        SelectedIkCube { state: DragState::Idle }
    }

    /// Selects candidate `index`, hit at `impact`.
    pub fn set_selected(&mut self, index: usize, impact: P)
        ensures
            final(self).state == (DragState::Selected { index, impact }),
    {
        self.state = DragState::Selected { index, impact };
    }

    /// The selected candidate's index.
    pub fn get(&self) -> (r: Option<usize>)
        ensures
            r == selected_spec(self.state),
    {
        match self.state {
            DragState::Idle => None,
            DragState::Selected { index, .. } => Some(index),
            DragState::Dragging { index, .. } => Some(index),
        }
    }

    /// Where the pick ray hit the selected candidate.
    pub fn hit_impact(&self) -> (r: Option<P>)
        ensures
            r == impact_spec(self.state),
    {
        match self.state {
            DragState::Idle => None,
            DragState::Selected { impact, .. } => Some(impact),
            DragState::Dragging { impact, .. } => Some(impact),
        }
    }

    /// The point the selected candidate is being dragged toward.
    pub fn target_location(&self) -> (r: Option<P>)
        ensures
            r == target_spec(self.state),
    {
        match self.state {
            DragState::Dragging { target, .. } => Some(target),
            _ => None,
        }
    }

    /// What to do this tick, given whether the pointer button and the drag
    /// modifier are held.
    pub fn request(&self, button: bool, modifier: bool) -> (r: Request)
        ensures
            r == request_spec(self.state, button, modifier),
    {
        if !button {
            Request::Release
        } else if !modifier {
            Request::Pick
        } else {
            match self.state {
                DragState::Idle => Request::Nothing,
                _ => Request::ProjectOntoDragPlane,
            }
        }
    }

    /// The button went up: back to idle.
    pub fn release(&mut self)
        ensures
            final(self).state is Idle,
    {
        self.state = DragState::Idle;
    }

    /// Takes the result of a pick: the nearest candidate's index and hit
    /// point, or `None` when the ray hit nothing.
    pub fn on_pick(&mut self, hit: Option<(usize, P)>)
        ensures
            final(self).state == after_pick(old(self).state, hit),
    {
        if let Some((index, impact)) = hit {
            self.state = DragState::Selected { index, impact };
        }
    }

    /// Takes the cursor ray's point on the drag plane, or `None` when the ray
    /// runs parallel to it or away from it.
    pub fn on_drag_point(&mut self, point: Option<P>)
        ensures
            final(self).state == after_projection(old(self).state, point),
    {
        if let Some(target) = point {
            match self.state {
                DragState::Selected { index, impact } => {
                    self.state = DragState::Dragging { index, impact, target };
                },
                DragState::Dragging { index, impact, .. } => {
                    self.state = DragState::Dragging { index, impact, target };
                },
                DragState::Idle => {},
            }
        }
    }

    /// The solver could not reach the drag target.
    pub fn on_solve_failed(&mut self)
        ensures
            final(self).state == after_solve_failed(old(self).state),
    {
        if let DragState::Dragging { index, impact, .. } = self.state {
            self.state = DragState::Selected { index, impact };
        }
    }
}

} // verus!
