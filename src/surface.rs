//! The presentable surface's configuration, as plain values.
use vstd::prelude::*;

verus! {

/// A size in physical pixels.
#[derive(Clone, Copy, Debug, PartialEq, Eq, Structural)]
pub struct Size {
    pub width: u32,
    pub height: u32,
}

impl Size {
    /// Both dimensions are non-zero: a frame can be acquired at this size.
    pub open spec fn is_positive(self) -> bool {
        self.width > 0 && self.height > 0
    }

    pub fn new(width: u32, height: u32) -> (r: Size)
        ensures
            r.width == width,
            r.height == height,
    {
        Size { width, height }
    }
}

/// What the frame loop knows of the window's surface: the last valid size,
/// the size the surface is configured with, and whether a first resize with
/// non-zero dimensions has arrived, after which frames may be drawn.
#[derive(Clone, Copy, Debug, PartialEq, Eq, Structural)]
pub struct State {
    pub size: Size,
    pub config: Size,
    pub state_ready: bool,
}

/// `n` raised to at least one.
pub open spec fn at_least_one(n: u32) -> u32 {
    if n == 0 {
        1
    } else {
        n
    }
}

/// The state after a resize to `new_size`: a degenerate size is ignored.
pub open spec fn resized(s: State, new_size: Size) -> State {
    if new_size.is_positive() {
        State { size: new_size, config: new_size, ..s }
    } else {
        s
    }
}

impl State {
    /// The stored size is positive and the surface is configured with it.
    pub open spec fn wf(&self) -> bool {
        &&& self.size.is_positive()
        &&& self.config == self.size
    }

    /// The state for a window whose inner size is `inner`; a zero dimension
    /// is raised to one, and the surface is configured with the result.
    pub fn new(inner: Size) -> (s: State)
        ensures
            s.wf(),
            s.size == (Size { width: at_least_one(inner.width), height: at_least_one(inner.height) }),
            !s.state_ready,
    {
        let width: u32 = if inner.width == 0 { 1 } else { inner.width };
        let height: u32 = if inner.height == 0 { 1 } else { inner.height };
        let size = Size { width, height };
        State { size, config: size, state_ready: false }
    }

    /// Takes a new size. Returns whether the surface must be reconfigured,
    /// which is so exactly when both dimensions are non-zero; then the stored
    /// size and the configuration become `new_size`, else nothing changes.
    pub fn resize(&mut self, new_size: Size) -> (reconfigure: bool)
        requires
            old(self).wf(),
        ensures
            final(self).wf(),
            reconfigure == new_size.is_positive(),
            *final(self) == resized(*old(self), new_size),
    {
        if new_size.width > 0 && new_size.height > 0 {
            self.size = new_size;
            self.config.width = new_size.width;
            self.config.height = new_size.height;
            true
        } else {
            false
        }
    }
}

/// Some entry of `srgb` is true.
pub open spec fn has_srgb(srgb: Seq<bool>) -> bool {
    exists|i: int| 0 <= i < srgb.len() && srgb[i]
}

/// Picks the surface format among the supported ones, given for each whether
/// it is sRGB: the first sRGB format, or the first format where none is.
pub fn pick_format(srgb: &Vec<bool>) -> (r: usize)
    requires
        srgb.len() > 0,
    ensures
        r < srgb.len(),
        has_srgb(srgb@) ==> srgb@[r as int] && forall|j: int| 0 <= j < r ==> !srgb@[j],
        !has_srgb(srgb@) ==> r == 0,
{
    let mut i: usize = 0;
    while i < srgb.len()
        invariant
            i <= srgb.len(),
            forall|j: int| 0 <= j < i ==> !srgb@[j],
        decreases srgb.len() - i,
    {
        if srgb[i] {
            return i;
        }
        i = i + 1;
    }
    0
}

/// A resize with a zero dimension leaves the stored size and the surface
/// configuration as they were.
pub proof fn lemma_degenerate_resize_keeps_config(s: State, new_size: Size)
    requires
        new_size.width == 0 || new_size.height == 0,
    ensures
        resized(s, new_size) == s,
{
}

/// After a resize with positive dimensions the stored size, and the size the
/// surface is configured with, equal the event's dimensions.
pub proof fn lemma_positive_resize_stores_size(s: State, new_size: Size)
    requires
        new_size.is_positive(),
    ensures
        resized(s, new_size).size == new_size,
        resized(s, new_size).config == new_size,
        s.wf() ==> resized(s, new_size).wf(),
{
}

} // verus!
