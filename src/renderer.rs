use crate::fan::{scene_spec, scene_vertices, Shape, ShapeVertex};
use vstd::prelude::*;

verus! {

/// The size of the presentation surface, in pixels.
#[derive(Clone, Copy, Debug, PartialEq, Eq, Structural)]
pub struct SurfaceSize {
    pub width: u32,
    pub height: u32,
}

/// The aspect-ratio uniform, kept as the fraction `height / width` of the
/// window size it was computed from.
#[derive(Clone, Copy, Debug, PartialEq, Eq, Structural)]
pub struct Aspect {
    pub height: u32,
    pub width: u32,
}

/// What the renderer knows once its GPU resources exist.
#[derive(Clone, Copy, Debug, PartialEq, Eq, Structural)]
pub struct ReadyState {
    /// The size the surface is configured with.
    pub surface: SurfaceSize,
    /// The aspect ratio last written to the uniform buffer.
    pub aspect: Aspect,
    /// The number of vertices in the vertex buffer.
    pub vertex_count: u32,
}

/// The frame renderer: no GPU resources yet, or all of them.
#[derive(Clone, Copy, Debug, PartialEq, Eq, Structural)]
pub enum Renderer {
    Uninitialized,
    Ready(ReadyState),
}

/// What one frame draws: one render pass, one non-indexed draw call over the
/// vertex range `vertex_start..vertex_end` and the instance range
/// `instance_start..instance_end`, with the aspect uniform bound.
#[derive(Clone, Copy, Debug, PartialEq, Eq, Structural)]
pub struct Frame {
    pub vertex_start: u32,
    pub vertex_end: u32,
    pub instance_start: u32,
    pub instance_end: u32,
    pub aspect: Aspect,
}

/// The work that sets the renderer up: upload `vertices`, write `aspect` to
/// the uniform buffer, configure the surface with `surface`.
#[derive(Debug)]
pub struct Setup {
    pub vertices: Vec<ShapeVertex>,
    pub surface: SurfaceSize,
    pub aspect: Aspect,
}

/// Why the renderer could not be set up.
#[derive(Clone, Copy, Debug, PartialEq, Eq, Structural)]
pub enum InitError {
    /// The renderer is set up already: that happens once.
    AlreadyReady,
    /// The scene has more vertices than a draw call can cover.
    TooManyVertices,
}

/// A window event, as the renderer sees it.
#[derive(Clone, Copy, Debug, PartialEq, Eq, Structural)]
pub enum Event {
    Resized { width: u32, height: u32 },
    RedrawRequested,
    CloseRequested,
    KeyPressed,
    CursorMoved,
    Other,
}

/// What the host is to do in answer to an event.
#[derive(Clone, Copy, Debug, PartialEq, Eq, Structural)]
pub enum Action {
    /// Configure the surface with `surface`, write `aspect` to the uniform
    /// buffer, and request a redraw.
    Reconfigure { surface: SurfaceSize, aspect: Aspect },
    /// Render and present this frame.
    Draw(Frame),
    /// Stop the event loop.
    Exit,
    /// Report the pressed key.
    ReportKey,
    /// Request a redraw.
    RequestRedraw,
    /// Nothing.
    Ignore,
}

/// `x`, but at least 1.
pub open spec fn at_least_one(x: u32) -> u32 {
    if x == 0 {
        1
    } else {
        x
    }
}

/// The surface size for a window of `width` by `height`, each side at least 1.
pub open spec fn clamped(width: u32, height: u32) -> SurfaceSize {
    SurfaceSize { width: at_least_one(width), height: at_least_one(height) }
}

/// The surface size for a window, each side at least 1.
pub fn clamp_size(width: u32, height: u32) -> (r: SurfaceSize)
    ensures
        r == clamped(width, height),
{
    SurfaceSize {
        width: if width == 0 { 1 } else { width },
        height: if height == 0 { 1 } else { height },
    }
}

/// The state after a resize to `width` by `height`.
pub open spec fn resized(s: Renderer, width: u32, height: u32) -> Renderer {
    match s {
        Renderer::Uninitialized => Renderer::Uninitialized,
        Renderer::Ready(r) => Renderer::Ready(
            ReadyState {
                surface: clamped(width, height),
                aspect: Aspect { height, width },
                ..r
            },
        ),
    }
}

/// The frame a state draws, if it can draw one.
pub open spec fn frame_of(s: Renderer) -> Option<Frame> {
    match s {
        Renderer::Uninitialized => None,
        Renderer::Ready(r) => Some(
            Frame {
                vertex_start: 0,
                vertex_end: r.vertex_count,
                instance_start: 0,
                instance_end: 1,
                aspect: r.aspect,
            },
        ),
    }
}

/// The state set up for a scene in a window of `size`.
pub open spec fn ready_for(vertex_count: u32, size: SurfaceSize) -> Renderer {
    Renderer::Ready(
        ReadyState {
            surface: clamped(size.width, size.height),
            aspect: Aspect { height: size.height, width: size.width },
            vertex_count,
        },
    )
}

/// The next state and the action for `event` in state `s`.
pub open spec fn step(s: Renderer, event: Event) -> (Renderer, Action) {
    match event {
        Event::Resized { width, height } => match s {
            Renderer::Uninitialized => (s, Action::Ignore),
            Renderer::Ready(_) => (
                resized(s, width, height),
                Action::Reconfigure {
                    surface: clamped(width, height),
                    aspect: Aspect { height, width },
                },
            ),
        },
        Event::RedrawRequested => match frame_of(s) {
            Some(f) => (s, Action::Draw(f)),
            None => (s, Action::Ignore),
        },
        Event::CloseRequested => (s, Action::Exit),
        Event::KeyPressed => (s, Action::ReportKey),
        Event::CursorMoved => (s, if s is Ready {
            Action::RequestRedraw
        } else {
            Action::Ignore
        }),
        Event::Other => (s, Action::Ignore),
    }
}

impl Renderer {
    /// A renderer with no GPU resources yet.
    pub fn new() -> (r: Renderer)
        ensures
            r == Renderer::Uninitialized,
    {
        Renderer::Uninitialized
    }

    /// Sets the renderer up for `shapes` in a window of `size`: tessellates
    /// the scene, and plans the vertex upload, the first aspect uniform and
    /// the surface configuration.
    pub fn initialize<P, L>(
        &mut self,
        shapes: &Vec<Shape<P, L>>,
        size: SurfaceSize,
    ) -> (r: Result<Setup, InitError>)
        ensures
            (*old(self)) is Ready ==> r == Err::<Setup, InitError>(InitError::AlreadyReady),
            (*old(self)) is Ready ==> *final(self) == *old(self),
            (*old(self)) is Uninitialized && scene_spec(shapes@).len() > u32::MAX ==> r == Err::<
                Setup,
                InitError,
            >(InitError::TooManyVertices) && *final(self) == *old(self),
            (*old(self)) is Uninitialized && scene_spec(shapes@).len() <= u32::MAX ==> {
                &&& r is Ok
                &&& r->Ok_0.vertices@ == scene_spec(shapes@)
                &&& r->Ok_0.surface == clamped(size.width, size.height)
                &&& r->Ok_0.aspect == (Aspect { height: size.height, width: size.width })
                &&& *final(self) == ready_for(scene_spec(shapes@).len() as u32, size)
            },
    {
        if let Renderer::Ready(_) = self {
            return Err(InitError::AlreadyReady);
        }
        let vertices = scene_vertices(shapes);
        if vertices.len() > 0xffff_ffff {
            return Err(InitError::TooManyVertices);
        }
        let surface = clamp_size(size.width, size.height);
        let aspect = Aspect { height: size.height, width: size.width };
        *self = Renderer::Ready(
            ReadyState { surface, aspect, vertex_count: vertices.len() as u32 },
        );
        Ok(Setup { vertices, surface, aspect })
    }

    /// Answers a resize: once ready, the surface is reconfigured with each
    /// side at least 1 and the aspect uniform is rewritten for the new size.
    pub fn resize(&mut self, width: u32, height: u32) -> (r: Option<Action>)
        ensures
            *final(self) == resized(*old(self), width, height),
            (*old(self)) is Uninitialized ==> r is None,
            (*old(self)) is Ready ==> r == Some(
                Action::Reconfigure {
                    surface: clamped(width, height),
                    aspect: Aspect { height, width },
                },
            ),
    {
        match self {
            Renderer::Uninitialized => None,
            Renderer::Ready(r) => {
                let surface = clamp_size(width, height);
                let aspect = Aspect { height, width };
                r.surface = surface;
                r.aspect = aspect;
                Some(Action::Reconfigure { surface, aspect })
            },
        }
    }

    /// The frame to draw now: the whole vertex buffer, one instance.
    pub fn render_frame(&self) -> (r: Option<Frame>)
        ensures
            r == frame_of(*self),
    {
        match self {
            Renderer::Uninitialized => None,
            Renderer::Ready(r) => Some(
                Frame {
                    vertex_start: 0,
                    vertex_end: r.vertex_count,
                    instance_start: 0,
                    instance_end: 1,
                    aspect: r.aspect,
                },
            ),
        }
    }

    /// Decides what to do about a window event, and moves to the next state.
    pub fn on_event(&mut self, event: Event) -> (r: Action)
        ensures
            (*final(self), r) == step(*old(self), event),
    {
        match event {
            Event::Resized { width, height } => match self.resize(width, height) {
                Some(action) => action,
                None => Action::Ignore,
            },
            Event::RedrawRequested => match self.render_frame() {
                Some(f) => Action::Draw(f),
                None => Action::Ignore,
            },
            Event::CloseRequested => Action::Exit,
            Event::KeyPressed => Action::ReportKey,
            Event::CursorMoved => match self {
                Renderer::Ready(_) => Action::RequestRedraw,
                Renderer::Uninitialized => Action::Ignore,
            },
            Event::Other => Action::Ignore,
        }
    }
}

/// A resize never leaves the surface with a side of 0: a ready renderer
/// stays ready, with each side of its surface at least 1, and a resize to
/// 0 by 0 configures 1 by 1.
pub proof fn lemma_resize_keeps_surface_nonempty(s: Renderer, width: u32, height: u32)
    requires
        s is Ready,
    ensures
        resized(s, width, height) is Ready,
        resized(s, width, height)->Ready_0.surface.width >= 1,
        resized(s, width, height)->Ready_0.surface.height >= 1,
        width == 0 && height == 0 ==> resized(s, width, height)->Ready_0.surface == (SurfaceSize {
            width: 1,
            height: 1,
        }),
{
}

/// Resizing twice to the same size is resizing once.
pub proof fn lemma_resize_idempotent(s: Renderer, width: u32, height: u32)
    ensures
        resized(resized(s, width, height), width, height) == resized(s, width, height),
{
}

/// The frame drawn after a resize binds the aspect uniform of the new size,
/// whatever size came before, and still draws the same vertex range.
pub proof fn lemma_frame_after_resize(s: Renderer, width: u32, height: u32)
    requires
        s is Ready,
    ensures
        frame_of(resized(s, width, height)) is Some,
        frame_of(resized(s, width, height))->Some_0.aspect == (Aspect { height, width }),
        frame_of(resized(s, width, height))->Some_0.vertex_start == frame_of(s)->Some_0.vertex_start,
        frame_of(resized(s, width, height))->Some_0.vertex_end == frame_of(s)->Some_0.vertex_end,
{
}

/// Once set up for a scene, and after any resize, the renderer draws exactly
/// the scene's vertices: the range `0..n` where `n` is the number uploaded.
pub proof fn lemma_draw_covers_scene<P, L>(
    shapes: Seq<Shape<P, L>>,
    size: SurfaceSize,
    width: u32,
    height: u32,
)
    requires
        scene_spec(shapes).len() <= u32::MAX,
    ensures
        ({
            let s = ready_for(scene_spec(shapes).len() as u32, size);
            &&& frame_of(s) is Some
            &&& frame_of(s)->Some_0.vertex_start == 0
            &&& frame_of(s)->Some_0.vertex_end == scene_spec(shapes).len()
            &&& frame_of(resized(s, width, height)) is Some
            &&& frame_of(resized(s, width, height))->Some_0.vertex_end == scene_spec(shapes).len()
        }),
{
}

} // verus!
