//! The per-call context handed down the element tree: the bounds allotted
//! to an element and the ambient enabled state. A context is a value,
//! rebuilt at every boundary that changes either.
use vstd::prelude::*;
use crate::geometry::Rect;

verus! {

/// Bounds and enabled state for one draw or dispatch call.
#[derive(Debug, Clone, Copy, PartialEq, Eq, Structural)]
pub struct Context {
    pub bounds: Rect,
    pub enabled: bool,
}

impl Context {
    /// An enabled context over `bounds`.
    pub fn new(bounds: Rect) -> (r: Context)
        ensures
            r == (Context { bounds, enabled: true }),
    {
        Context { bounds, enabled: true }
    }

    /// The same context over other bounds, for a child's sub-rectangle.
    pub fn with_bounds(&self, bounds: Rect) -> (r: Context)
        ensures
            r == (Context { bounds, enabled: self.enabled }),
    {
        Context { bounds, enabled: self.enabled }
    }

    /// The same context, narrowed to disabled where `enabled` is false; a
    /// disabled context never becomes enabled again below.
    pub fn narrowed(&self, enabled: bool) -> (r: Context)
        ensures
            r == (Context { bounds: self.bounds, enabled: self.enabled && enabled }),
    {
        Context { bounds: self.bounds, enabled: self.enabled && enabled }
    }
}

} // verus!
