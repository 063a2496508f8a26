use vstd::prelude::*;

verus! {

/// Identifies a client surface: the index of the window quad that shows it.
/// Quads are only ever appended, so an index keeps naming the same surface.
pub type SurfaceId = usize;

/// Which client surface holds keyboard focus.
#[derive(Clone, Copy, Debug, PartialEq, Eq)]
pub struct InputManager {
    pub focused_surface: Option<SurfaceId>,
}

impl InputManager {
    /// No surface has focus.
    pub fn new() -> (manager: Self)
        ensures
            manager.focused_surface is None,
    {
        InputManager { focused_surface: None }
    }

    /// Gives keyboard focus to `surface` (or to nothing). Returns whether the
    /// focus changed, in which case the seat's keyboard must be told; giving
    /// focus to the surface that already has it does nothing.
    pub fn set_focus(&mut self, surface: Option<SurfaceId>) -> (changed: bool)
        ensures
            final(self).focused_surface == surface,
            changed == (old(self).focused_surface != surface),
    {
        let changed = match (self.focused_surface, surface) {
            (Some(a), Some(b)) => a != b,
            (None, None) => false,
            _ => true,
        };
        self.focused_surface = surface;
        changed
    }
}

} // verus!
