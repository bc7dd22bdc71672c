use circle_fan::fan::{scene_vertices, Shape};
use circle_fan::renderer::{
    clamp_size, Action, Aspect, Event, Frame, InitError, Renderer, ReadyState, SurfaceSize,
};

fn aspect_value(a: Aspect) -> f32 {
    a.height as f32 / a.width as f32
}

fn one_circle() -> Vec<Shape<[f32; 2], f32>> {
    vec![Shape::Circle { center: [0.0, 0.0], radius: 0.05, segments: 32 }]
}

fn ready(width: u32, height: u32) -> Renderer {
    let mut r = Renderer::new();
    r.initialize(&one_circle(), SurfaceSize { width, height }).unwrap();
    r
}

#[test]
fn new_renderer_draws_nothing() {
    let r = Renderer::new();
    assert_eq!(r, Renderer::Uninitialized);
    assert_eq!(r.render_frame(), None);
}

#[test]
fn end_to_end_circle_uploads_and_draws_96_vertices() {
    let mut r = Renderer::new();
    let setup = r.initialize(&one_circle(), SurfaceSize { width: 800, height: 600 }).unwrap();
    assert_eq!(setup.vertices.len(), 96);
    assert_eq!(setup.vertices, scene_vertices(&one_circle()));
    assert_eq!(setup.surface, SurfaceSize { width: 800, height: 600 });
    assert_eq!(setup.aspect, Aspect { height: 600, width: 800 });
    let f = r.render_frame().unwrap();
    assert_eq!(f.vertex_start, 0);
    assert_eq!(f.vertex_end, 96);
    assert_eq!((f.instance_start, f.instance_end), (0, 1));
}

#[test]
fn initialize_happens_once() {
    let mut r = ready(800, 600);
    let before = r;
    let again = r.initialize(&one_circle(), SurfaceSize { width: 10, height: 10 });
    assert_eq!(again.unwrap_err(), InitError::AlreadyReady);
    assert_eq!(r, before);
}

#[test]
fn initialize_clamps_a_zero_surface() {
    let mut r = Renderer::new();
    let setup = r.initialize(&one_circle(), SurfaceSize { width: 0, height: 0 }).unwrap();
    assert_eq!(setup.surface, SurfaceSize { width: 1, height: 1 });
    assert_eq!(setup.aspect, Aspect { height: 0, width: 0 });
}

#[test]
fn resize_to_zero_configures_one_by_one() {
    let mut r = ready(800, 600);
    let a = r.resize(0, 0).unwrap();
    assert_eq!(
        a,
        Action::Reconfigure {
            surface: SurfaceSize { width: 1, height: 1 },
            aspect: Aspect { height: 0, width: 0 },
        }
    );
    match r {
        Renderer::Ready(ReadyState { surface, .. }) => {
            assert_eq!(surface, SurfaceSize { width: 1, height: 1 })
        }
        Renderer::Uninitialized => panic!("renderer lost its state"),
    }
}

#[test]
fn resize_then_render_uses_new_aspect_ratio() {
    let mut r = Renderer::new();
    r.initialize(&one_circle(), SurfaceSize { width: 640, height: 480 }).unwrap();
    r.resize(800, 600);
    let f = r.render_frame().unwrap();
    assert_eq!(aspect_value(f.aspect), 0.75);
    r.resize(1920, 1080);
    let f = r.render_frame().unwrap();
    assert_eq!(f.aspect, Aspect { height: 1080, width: 1920 });
    assert_eq!(aspect_value(f.aspect), 0.5625);
    assert_eq!(f.vertex_end, 96);
}

#[test]
fn resize_twice_to_same_size_is_idempotent() {
    let mut once = ready(800, 600);
    once.resize(1024, 768);
    let mut twice = once;
    twice.resize(1024, 768);
    assert_eq!(once, twice);
}

#[test]
fn resize_before_ready_does_nothing() {
    let mut r = Renderer::new();
    assert_eq!(r.resize(800, 600), None);
    assert_eq!(r, Renderer::Uninitialized);
}

#[test]
fn clamp_size_raises_zero_sides_only() {
    assert_eq!(clamp_size(0, 5), SurfaceSize { width: 1, height: 5 });
    assert_eq!(clamp_size(7, 0), SurfaceSize { width: 7, height: 1 });
    assert_eq!(clamp_size(7, 5), SurfaceSize { width: 7, height: 5 });
}

#[test]
fn events_map_to_actions() {
    let mut r = Renderer::new();
    assert_eq!(r.on_event(Event::RedrawRequested), Action::Ignore);
    assert_eq!(r.on_event(Event::CursorMoved), Action::Ignore);
    assert_eq!(r.on_event(Event::Resized { width: 3, height: 4 }), Action::Ignore);
    assert_eq!(r.on_event(Event::CloseRequested), Action::Exit);
    assert_eq!(r.on_event(Event::KeyPressed), Action::ReportKey);
    assert_eq!(r.on_event(Event::Other), Action::Ignore);
    r.initialize(&one_circle(), SurfaceSize { width: 800, height: 600 }).unwrap();
    assert_eq!(r.on_event(Event::CursorMoved), Action::RequestRedraw);
    assert_eq!(
        r.on_event(Event::Resized { width: 1920, height: 0 }),
        Action::Reconfigure {
            surface: SurfaceSize { width: 1920, height: 1 },
            aspect: Aspect { height: 0, width: 1920 },
        }
    );
    assert_eq!(
        r.on_event(Event::RedrawRequested),
        Action::Draw(Frame {
            vertex_start: 0,
            vertex_end: 96,
            instance_start: 0,
            instance_end: 1,
            aspect: Aspect { height: 0, width: 1920 },
        })
    );
    assert_eq!(r.on_event(Event::CloseRequested), Action::Exit);
}
