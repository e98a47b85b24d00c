//! The pointer as the controller sees it, already unprojected into world space.
use vstd::prelude::*;

verus! {

/// Marks the camera through which pointer positions are unprojected.
#[derive(Clone, Copy, Debug, Default, PartialEq, Eq, Structural)]
pub struct MainCamera;

/// Names the host application's per-frame pointer tracking.
#[derive(Clone, Copy, Debug, Default, PartialEq, Eq, Structural)]
pub struct CursorPlugin;

/// The pointer's world position this frame, or `None` while it is outside
/// the viewport.
pub struct CursorCoords<P> {
    pub position: Option<P>,
}

impl<P> CursorCoords<P> {
    /// No pointer seen yet.
    pub fn new() -> (r: CursorCoords<P>)
        ensures
            r.position is None,
    {
        CursorCoords { position: None }
    }

    /// Takes this frame's reading; a pointer outside the viewport clears the
    /// position rather than keeping a stale one.
    pub fn update(&mut self, seen: Option<P>)
        ensures
            final(self).position == seen,
    {
        self.position = seen;
    }

    /// Where a click spawns a body: the pointer's position, or nothing when
    /// the pointer is outside the viewport.
    pub fn spawn_point(&self) -> (r: Option<&P>)
        ensures
            match r {
                Some(p) => self.position == Some(*p),
                None => self.position is None,
            },
    {
        match &self.position {
            Some(p) => Some(p),
            None => None,
        }
    }
}

} // verus!
