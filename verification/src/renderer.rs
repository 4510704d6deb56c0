//! The decisions of the cached renderer: when the fractal image must be
//! rendered again, when its render target must be created anew, and when
//! there is an image to draw. The GPU work itself happens outside.
use vstd::prelude::*;

verus! {

/// What the renderer knows about its last image.
#[derive(Clone, Copy, Debug)]
pub struct RenderState {
    /// The image no longer shows the current fractal and must be rendered again.
    pub dirty: bool,
    /// An image has been rendered, for some view that the caller keeps.
    pub has_view: bool,
    /// Width and height in pixels of the render target, once there is one.
    pub target_size: Option<(u32, u32)>,
}

/// What one call of `cached_render` asks the caller to do.
#[derive(Clone, Copy, Debug, PartialEq, Eq, Structural)]
pub struct RenderPlan {
    /// Render the fractal (and remember the view it was rendered for).
    pub render: bool,
    /// Before rendering, create a new render target of the requested size.
    pub new_target: bool,
}

/// The state and plan after a forced render at `size`: the image now shows
/// the current fractal in the new view, in a target of that size.
pub open spec fn spec_render(s: RenderState, size: (u32, u32)) -> (RenderState, bool) {
    (RenderState { dirty: false, has_view: true, target_size: Some(size) }, s.target_size != Some(size))
}

/// The state and plan after a cached render of a view of `size`;
/// `view_matches` tells whether the view equals the one last rendered.
pub open spec fn spec_cached_render(s: RenderState, view_matches: bool, size: (u32, u32)) -> (
    RenderState,
    RenderPlan,
) {
    if s.dirty || !s.has_view || !view_matches {
        let (r, new_target) = spec_render(s, size);
        (r, RenderPlan { render: true, new_target })
    } else {
        (s, RenderPlan { render: false, new_target: false })
    }
}

impl RenderState {
    /// Well-formed: a rendered image always lives in a render target.
    pub open spec fn wf(self) -> bool {
        self.has_view ==> self.target_size is Some
    }

    /// A renderer that has drawn nothing yet: no target, no image, dirty.
    pub fn new() -> (s: RenderState)
        ensures
            s.wf(),
            s.dirty,
            !s.has_view,
            s.target_size is None,
    {
        RenderState { dirty: true, has_view: false, target_size: None }
    }

    /// The fractal changed: the next cached render must render again.
    pub fn invalidate(&mut self)
        ensures
            *final(self) == (RenderState { dirty: true, ..*old(self) }),
            old(self).wf() ==> final(self).wf(),
    {
        self.dirty = true;
    }

    /// Forced render to a view of `size` pixels; afterwards the image is up
    /// to date. Returns whether the render target must be (re)created first:
    /// only when it is missing or has another size.
    pub fn render(&mut self, size: (u32, u32)) -> (new_target: bool)
        ensures
            (*final(self), new_target) == spec_render(*old(self), size),
            new_target == (old(self).target_size != Some(size)),
            final(self).target_size == Some(size),
            final(self).wf(),
    {
        let new_target = match self.target_size {
            Some(t) => t.0 != size.0 || t.1 != size.1,
            None => true,
        };
        self.dirty = false;
        self.has_view = true;
        self.target_size = Some(size);
        new_target
    }

    /// Cached render: renders only if nothing was rendered yet, the fractal
    /// changed since the last render (`invalidate`), or the view differs from
    /// the one last rendered (`view_matches` is false). Afterwards the image is
    /// never dirty.
    pub fn cached_render(&mut self, view_matches: bool, size: (u32, u32)) -> (plan: RenderPlan)
        ensures
            (*final(self), plan) == spec_cached_render(*old(self), view_matches, size),
            plan.render == (old(self).dirty || !old(self).has_view || !view_matches),
            plan.render ==> plan.new_target == (old(self).target_size != Some(size)),
            plan.render ==> final(self).target_size == Some(size) && final(self).has_view,
            !plan.render ==> !plan.new_target,
            !final(self).dirty,
            old(self).wf() ==> final(self).wf(),
    {
        if !view_matches || !self.has_view {
            self.dirty = true;
        }
        if self.dirty {
            let new_target = self.render(size);
            RenderPlan { render: true, new_target }
        } else {
            RenderPlan { render: false, new_target: false }
        }
    }

    /// Whether there is an image to draw: a target exists and a view was
    /// rendered into it.
    pub fn can_draw(&self) -> (r: bool)
        ensures
            r == (self.target_size is Some && self.has_view),
    {
        self.target_size.is_some() && self.has_view
    }
}

/// Rendering a view twice in a row renders it once: the second cached render
/// of the same view does nothing.
pub proof fn lemma_same_view_renders_once(s: RenderState, first_matches: bool, size: (u32, u32), size2: (u32, u32))
    ensures
        !spec_cached_render(spec_cached_render(s, first_matches, size).0, true, size2).1.render,
        spec_cached_render(spec_cached_render(s, first_matches, size).0, true, size2).0
            == spec_cached_render(s, first_matches, size).0,
{
}

/// A forced render leaves nothing to do: a cached render of the same view
/// right after it renders nothing.
pub proof fn lemma_forced_then_cached_renders_nothing(s: RenderState, size: (u32, u32), size2: (u32, u32))
    ensures
        !spec_cached_render(spec_render(s, size).0, true, size2).1.render,
{
}

/// After any cached render of a well-formed state there is an image to draw.
pub proof fn lemma_can_draw_after_cached_render(s: RenderState, view_matches: bool, size: (u32, u32))
    requires
        s.wf(),
    ensures
        spec_cached_render(s, view_matches, size).0.wf(),
        spec_cached_render(s, view_matches, size).0.target_size is Some,
        spec_cached_render(s, view_matches, size).0.has_view,
        spec_render(s, size).0.target_size is Some && spec_render(s, size).0.has_view,
{
}

/// A cached render that renders asks for a new target exactly when there is
/// none or its size (width or height) differs from the view's; afterwards the
/// target has the view's size. One that does not render asks for nothing and
/// changes nothing.
pub proof fn lemma_cached_render_target(s: RenderState, view_matches: bool, size: (u32, u32))
    ensures
        ({
            let (t, plan) = spec_cached_render(s, view_matches, size);
            &&& plan.render ==> plan.new_target == (s.target_size != Some(size))
            &&& plan.render ==> t.target_size == Some(size)
            &&& plan.render ==> (plan.new_target <==> (s.target_size is None || s.target_size.unwrap().0
                != size.0 || s.target_size.unwrap().1 != size.1))
            &&& !plan.render ==> !plan.new_target && t == s
        }),
{
}

/// A change of view always renders again.
pub proof fn lemma_new_view_renders(s: RenderState, size: (u32, u32))
    ensures
        spec_cached_render(s, false, size).1.render,
        spec_cached_render(s, false, size).0.has_view,
        spec_cached_render(s, false, size).0.target_size == Some(size),
{
}

/// A change of fractal always renders again, even for the same view.
pub proof fn lemma_invalidate_renders(s: RenderState, size: (u32, u32))
    ensures
        spec_cached_render(RenderState { dirty: true, ..s }, true, size).1.render,
{
}

/// A render target is created only when none exists or its size differs:
/// rendering again at the same size reuses it.
pub proof fn lemma_target_reused(s: RenderState, size: (u32, u32))
    ensures
        !spec_render(spec_render(s, size).0, size).1,
        spec_render(s, size).1 == (s.target_size != Some(size)),
{
}

} // verus!
