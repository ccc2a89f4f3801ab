use vstd::prelude::*;

verus! {

/// What the frame driver does on a redraw request.
#[derive(Clone, Copy, Debug, PartialEq, Eq, Structural)]
pub enum RedrawAction {
    /// Run the per-frame callback and render.
    Frame,
    /// Run the teardown callback; the loop stops.
    Teardown,
    /// Nothing is left to do.
    Idle,
}

/// State shared by the frame driver and the application: the quit signal,
/// whether the loop has stopped, and the current viewport resolution.
pub struct Context {
    quit_requested: bool,
    closed: bool,
    torn_down: bool,
    width: u32,
    height: u32,
}

/// Asks the application to stop; the frame driver sees the request at the
/// start of the next redraw. Asking twice is not allowed.
pub fn quit(ctx: &mut Context)
    requires
        !old(ctx).is_quit_requested(),
    ensures
        final(ctx).is_quit_requested(),
        final(ctx).is_closed() == old(ctx).is_closed(),
        final(ctx).is_torn_down() == old(ctx).is_torn_down(),
        final(ctx).resolution_spec() == old(ctx).resolution_spec(),
{
    ctx.quit_requested = true;
}

impl Context {
    pub closed spec fn is_quit_requested(&self) -> bool {
        self.quit_requested
    }

    pub closed spec fn is_closed(&self) -> bool {
        self.closed
    }

    pub closed spec fn is_torn_down(&self) -> bool {
        self.torn_down
    }

    pub closed spec fn resolution_spec(&self) -> (u32, u32) {
        (self.width, self.height)
    }

    /// A running application with the given viewport size.
    pub fn new(width: u32, height: u32) -> (r: Self)
        ensures
            !r.is_quit_requested(),
            !r.is_closed(),
            !r.is_torn_down(),
            r.resolution_spec() == (width, height),
    {
        Context { quit_requested: false, closed: false, torn_down: false, width, height }
    }

    /// Whether `quit` has been called.
    pub fn quit_requested(&self) -> (r: bool)
        ensures
            r == self.is_quit_requested(),
    {
        self.quit_requested
    }

    /// The current viewport size, as (width, height).
    pub fn resolution(&self) -> (r: (u32, u32))
        ensures
            r == self.resolution_spec(),
    {
        (self.width, self.height)
    }

    /// Records a new viewport size.
    pub fn resize(&mut self, width: u32, height: u32)
        ensures
            final(self).resolution_spec() == (width, height),
            final(self).is_quit_requested() == old(self).is_quit_requested(),
            final(self).is_closed() == old(self).is_closed(),
            final(self).is_torn_down() == old(self).is_torn_down(),
    {
        self.width = width;
        self.height = height;
    }

    /// The window was asked to close: the loop stops at the next redraw.
    pub fn close_requested(&mut self)
        ensures
            final(self).is_closed(),
            final(self).is_quit_requested() == old(self).is_quit_requested(),
            final(self).is_torn_down() == old(self).is_torn_down(),
            final(self).resolution_spec() == old(self).resolution_spec(),
    {
        self.closed = true;
    }

    /// Decides what a redraw does. A quit request closes the loop; a closed
    /// loop runs the teardown callback exactly once and then does nothing.
    pub fn redraw(&mut self) -> (r: RedrawAction)
        ensures
            final(self).is_closed() == (old(self).is_closed() || old(self).is_quit_requested()),
            final(self).is_torn_down() == (old(self).is_torn_down() || final(self).is_closed()),
            final(self).is_quit_requested() == old(self).is_quit_requested(),
            final(self).resolution_spec() == old(self).resolution_spec(),
            r == (if !final(self).is_closed() {
                RedrawAction::Frame
            } else if !old(self).is_torn_down() {
                RedrawAction::Teardown
            } else {
                RedrawAction::Idle
            }),
    {
        if self.quit_requested {
            self.closed = true;
        }
        if !self.closed {
            RedrawAction::Frame
        } else if !self.torn_down {
            self.torn_down = true;
            RedrawAction::Teardown
        } else {
            RedrawAction::Idle
        }
    }
}

} // verus!
