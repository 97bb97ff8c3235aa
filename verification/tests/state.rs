use stellar_engine::math::{Ratio, Vector2};
use stellar_engine::rendering::shapes::{Quad, Shape, Triangle};
use stellar_engine::rendering::state::{background, choose_surface_format};
use stellar_engine::rendering::{
    BufferUpdate, BufferUsage, DrawCall, Frame, RenderError, RenderPass, RendererState,
    SurfaceError,
};

fn single(r: Ratio) -> u32 {
    (r.num as f32 / r.den as f32).to_bits()
}

fn read_floats(bytes: &[u8]) -> Vec<f32> {
    bytes.chunks(4).map(|c| f32::from_ne_bytes([c[0], c[1], c[2], c[3]])).collect()
}

fn read_indices(bytes: &[u8]) -> Vec<u16> {
    bytes.chunks(2).map(|c| u16::from_ne_bytes([c[0], c[1]])).collect()
}

fn corner_triangle() -> Triangle {
    Triangle { points: [Vector2::new(0, 0), Vector2::new(800, 600), Vector2::new(400, 300)] }
}

fn configured(width: u32, height: u32) -> RendererState {
    let mut state = RendererState::new(width, height).unwrap();
    assert!(state.resize(width, height));
    state
}

#[test]
fn new_state_is_unconfigured_and_empty() {
    let state = RendererState::new(800, 600).unwrap();
    assert_eq!(state.window_size(), (800, 600));
    assert!(!state.is_surface_configured());
    assert_eq!(state.render_queue.len(), 0);
    assert_eq!(state.indices_count(), 0);
    assert_eq!(state.vertex_buffer().usage(), BufferUsage::Vertex);
    assert_eq!(state.vertex_buffer().contents(), &vec![0u8; 640]);
    assert_eq!(state.index_buffer().usage(), BufferUsage::Index);
    assert_eq!(state.index_buffer().contents(), &vec![0u8; 64]);
}

#[test]
fn resize_configures_the_surface() {
    let mut state = RendererState::new(0, 0).unwrap();
    assert!(state.resize(1024, 768));
    assert!(state.is_surface_configured());
    assert_eq!(state.window_size(), (1024, 768));
    assert!(state.resize(1, 1));
    assert_eq!(state.window_size(), (1, 1));
    assert!(state.resize(u32::MAX, u32::MAX));
    assert_eq!(state.window_size(), (u32::MAX, u32::MAX));
}

#[test]
fn resize_to_no_width_changes_nothing() {
    let mut state = configured(800, 600);
    assert!(!state.resize(0, 480));
    assert!(state.is_surface_configured());
    assert_eq!(state.window_size(), (800, 600));
}

#[test]
fn resize_to_no_height_changes_nothing() {
    let mut state = configured(800, 600);
    assert!(!state.resize(640, 0));
    assert!(state.is_surface_configured());
    assert_eq!(state.window_size(), (800, 600));
    assert!(!state.resize(0, 0));
    assert_eq!(state.window_size(), (800, 600));
}

#[test]
fn resize_to_nothing_does_not_configure() {
    let mut state = RendererState::new(800, 600).unwrap();
    assert!(!state.resize(0, 600));
    assert!(!state.resize(800, 0));
    assert!(!state.is_surface_configured());
    assert_eq!(state.window_size(), (800, 600));
}

#[test]
fn render_before_configuration_does_nothing() {
    let mut state = RendererState::new(800, 600).unwrap();
    state.queue_add(Shape::Triangle(corner_triangle()));
    assert_eq!(state.render(&single), Ok(None));
    assert_eq!(state.indices_count(), 0);
    assert_eq!(state.vertex_buffer().contents(), &vec![0u8; 640]);
    assert_eq!(state.index_buffer().contents(), &vec![0u8; 64]);
    assert_eq!(state.render_queue.len(), 1);
}

#[test]
fn render_of_an_empty_queue_draws_no_indices() {
    let mut state = configured(800, 600);
    let frame = state.render(&single).unwrap().unwrap();
    assert_eq!(
        frame,
        Frame {
            vertex_buffer: BufferUpdate::Keep,
            index_buffer: BufferUpdate::Keep,
            indices_count: 0,
        }
    );
    assert_eq!(state.indices_count(), 0);
    let pass = frame.draw(Ok(())).unwrap();
    assert_eq!(pass.draw.index_count, 0);
    assert_eq!(pass.draw.first_index, 0);
}

#[test]
fn render_stages_vertices_and_indices() {
    let mut state = configured(800, 600);
    state.queue_add(Shape::Triangle(corner_triangle()));
    let frame = state.render(&single).unwrap().unwrap();
    assert_eq!(
        frame,
        Frame {
            vertex_buffer: BufferUpdate::Write { bytes: 60 },
            index_buffer: BufferUpdate::Write { bytes: 8 },
            indices_count: 3,
        }
    );
    assert_eq!(state.indices_count(), 3);
    assert_eq!(
        read_floats(&state.vertex_buffer().contents()[..60]),
        vec![
            -1.0, -1.0, 0.75, 0.75, 0.0, //
            1.0, 1.0, 0.75, 0.75, 0.0, //
            0.0, 0.0, 0.75, 0.75, 0.0,
        ]
    );
    assert!(state.vertex_buffer().contents()[60..].iter().all(|&b| b == 0));
    assert_eq!(read_indices(&state.index_buffer().contents()[..6]), vec![0, 1, 2]);
    assert!(state.index_buffer().contents()[6..].iter().all(|&b| b == 0));
    assert_eq!(state.vertex_buffer().capacity(), 640);
    assert_eq!(state.index_buffer().capacity(), 64);
}

#[test]
fn render_maps_to_the_size_of_the_surface() {
    let mut state = configured(200, 100);
    state.queue_add(Shape::Quad(Quad::square(Vector2::new(100, 50), 100)));
    let frame = state.render(&single).unwrap().unwrap();
    assert_eq!(frame.vertex_buffer, BufferUpdate::Write { bytes: 80 });
    assert_eq!(frame.index_buffer, BufferUpdate::Write { bytes: 12 });
    assert_eq!(frame.indices_count, 6);
    assert_eq!(
        read_floats(&state.vertex_buffer().contents()[..80]),
        vec![
            -0.5, 1.0, 1.0, 0.2, 0.0, //
            -0.5, -1.0, 1.0, 0.2, 0.0, //
            0.5, -1.0, 1.0, 0.2, 0.0, //
            0.5, 1.0, 1.0, 0.2, 0.0,
        ]
    );
    assert_eq!(read_indices(&state.index_buffer().contents()[..12]), vec![0, 1, 2, 0, 2, 3]);
    assert!(state.resize(400, 100));
    state.render(&single).unwrap().unwrap();
    assert_eq!(read_floats(&state.vertex_buffer().contents()[..8]), vec![-0.75, 1.0]);
}

#[test]
fn render_keeps_buffers_that_are_large_enough() {
    let mut state = configured(800, 600);
    for _ in 0..10 {
        state.queue_add(Shape::Triangle(corner_triangle()));
    }
    let frame = state.render(&single).unwrap().unwrap();
    assert_eq!(
        frame,
        Frame {
            vertex_buffer: BufferUpdate::Write { bytes: 600 },
            index_buffer: BufferUpdate::Write { bytes: 60 },
            indices_count: 30,
        }
    );
    assert_eq!(state.vertex_buffer().capacity(), 640);
    assert_eq!(state.index_buffer().capacity(), 64);
    assert_eq!(state.vertex_buffer().usage(), BufferUsage::Vertex);
    assert_eq!(state.index_buffer().usage(), BufferUsage::Index);
    state.queue_clear();
    for _ in 0..7 {
        state.queue_add(Shape::Triangle(corner_triangle()));
    }
    let frame = state.render(&single).unwrap().unwrap();
    assert_eq!(frame.vertex_buffer, BufferUpdate::Write { bytes: 420 });
    assert_eq!(frame.index_buffer, BufferUpdate::Write { bytes: 44 });
    assert_eq!(state.vertex_buffer().capacity(), 640);
    assert_eq!(state.index_buffer().capacity(), 64);
    assert_eq!(
        read_indices(&state.index_buffer().contents()[..42]),
        (0..21u16).collect::<Vec<u16>>()
    );
    assert_eq!(state.index_buffer().contents()[42..44], [0, 0]);
}

#[test]
fn state_shows_its_parts() {
    let mut state = RendererState::new(30, 20).unwrap();
    assert_eq!(state.config.width, 30);
    assert_eq!(state.config.height, 20);
    assert!(!state.is_surface_configured);
    assert_eq!(state.indices_count, 0);
    assert_eq!(state.vertex_buffer.usage(), BufferUsage::Vertex);
    assert_eq!(state.vertex_buffer.capacity(), 640);
    assert_eq!(state.index_buffer.usage(), BufferUsage::Index);
    assert_eq!(state.index_buffer.capacity(), 64);
    state.render_queue.add(Shape::Triangle(corner_triangle()));
    assert!(state.resize(30, 20));
    let frame = state.render(&single).unwrap().unwrap();
    assert_eq!(frame.indices_count, 3);
    assert_eq!(state.indices_count, 3);
    assert!(state.is_surface_configured);
}

#[test]
fn render_grows_buffers_that_are_too_small() {
    let mut state = configured(800, 600);
    for _ in 0..33 {
        state.queue_add(Shape::Triangle(corner_triangle()));
    }
    let frame = state.render(&single).unwrap().unwrap();
    assert_eq!(
        frame,
        Frame {
            vertex_buffer: BufferUpdate::Replace { capacity: 2560 },
            index_buffer: BufferUpdate::Replace { capacity: 256 },
            indices_count: 99,
        }
    );
    assert_eq!(state.vertex_buffer().capacity(), 2560);
    assert_eq!(state.index_buffer().capacity(), 256);
    assert_eq!(
        read_indices(&state.index_buffer().contents()[..198]),
        (0..99u16).collect::<Vec<u16>>()
    );
    assert!(state.index_buffer().contents()[198..].iter().all(|&b| b == 0));
    assert_eq!(
        read_floats(&state.vertex_buffer().contents()[1960..1980]),
        vec![0.0, 0.0, 0.75, 0.75, 0.0]
    );
    let again = state.render(&single).unwrap().unwrap();
    assert_eq!(again.vertex_buffer, BufferUpdate::Write { bytes: 1980 });
    assert_eq!(again.index_buffer, BufferUpdate::Write { bytes: 200 });
    assert_eq!(again.indices_count, 99);
    assert_eq!(state.vertex_buffer().capacity(), 2560);
}

#[test]
fn render_grows_one_buffer_without_the_other() {
    let mut state = configured(800, 600);
    for _ in 0..10 {
        state.queue_add(Shape::Quad(Quad::square(Vector2::new(50, 50), 10)));
    }
    let frame = state.render(&single).unwrap().unwrap();
    assert_eq!(
        frame,
        Frame {
            vertex_buffer: BufferUpdate::Replace { capacity: 1280 },
            index_buffer: BufferUpdate::Replace { capacity: 128 },
            indices_count: 60,
        }
    );
    let mut small = configured(800, 600);
    for _ in 0..6 {
        small.queue_add(Shape::Quad(Quad::square(Vector2::new(50, 50), 10)));
    }
    let frame = small.render(&single).unwrap().unwrap();
    assert_eq!(frame.vertex_buffer, BufferUpdate::Write { bytes: 480 });
    assert_eq!(frame.index_buffer, BufferUpdate::Replace { capacity: 128 });
    assert_eq!(small.vertex_buffer().capacity(), 640);
    assert_eq!(small.index_buffer().capacity(), 128);
}

#[test]
fn buffers_keep_their_size_when_the_queue_shrinks() {
    let mut state = configured(800, 600);
    for _ in 0..40 {
        state.queue_add(Shape::Triangle(corner_triangle()));
    }
    state.render(&single).unwrap().unwrap();
    assert_eq!(state.vertex_buffer().capacity(), 2560);
    state.queue_clear();
    assert_eq!(state.indices_count(), 120);
    let frame = state.render(&single).unwrap().unwrap();
    assert_eq!(frame.indices_count, 0);
    assert_eq!(frame.vertex_buffer, BufferUpdate::Keep);
    assert_eq!(frame.index_buffer, BufferUpdate::Keep);
    assert_eq!(state.indices_count(), 0);
    assert_eq!(state.vertex_buffer().capacity(), 2560);
    assert_eq!(state.index_buffer().capacity(), 256);
}

#[test]
fn queue_contents_decide_each_frame() {
    let mut state = configured(800, 600);
    state.queue_add(Shape::Triangle(corner_triangle()));
    state.render(&single).unwrap().unwrap();
    let first_vertices = state.vertex_buffer().read(60).unwrap();
    let first_indices = state.index_buffer().read(6).unwrap();
    state.queue_add(Shape::Quad(Quad::square(Vector2::new(10, 10), 4)));
    state.render(&single).unwrap().unwrap();
    state.queue_clear();
    state.queue_add(Shape::Triangle(corner_triangle()));
    let frame = state.render(&single).unwrap().unwrap();
    assert_eq!(frame.indices_count, 3);
    assert_eq!(state.vertex_buffer().read(60).unwrap(), first_vertices);
    assert_eq!(state.index_buffer().read(6).unwrap(), first_indices);
}

#[test]
fn render_refuses_more_vertices_than_indices_can_name() {
    let mut state = configured(800, 600);
    state.queue_add(Shape::Triangle(corner_triangle()));
    state.render(&single).unwrap().unwrap();
    let vertices = state.vertex_buffer().contents().clone();
    for _ in 0..16384 {
        state.render_queue.add(Shape::Quad(Quad::square(Vector2::new(50, 50), 10)));
    }
    assert_eq!(state.render(&single), Err(RenderError::TooManyVertices));
    assert_eq!(state.indices_count(), 3);
    assert_eq!(state.vertex_buffer().contents(), &vertices);
    assert_eq!(state.render_queue.len(), 16385);
}

#[test]
fn queue_can_be_filled_through_the_state() {
    let mut state = RendererState::new(10, 10).unwrap();
    state.queue_add(Shape::Triangle(corner_triangle()));
    state.render_queue.add(Shape::Quad(Quad::square(Vector2::new(5, 5), 2)));
    assert_eq!(state.render_queue.len(), 2);
    assert_eq!(state.render_queue.shapes()[0], Shape::Triangle(corner_triangle()));
    state.queue_clear();
    assert_eq!(state.render_queue.len(), 0);
}

#[test]
fn draw_is_one_pass_over_all_indices() {
    let frame = Frame {
        vertex_buffer: BufferUpdate::Write { bytes: 140 },
        index_buffer: BufferUpdate::Replace { capacity: 128 },
        indices_count: 9,
    };
    assert_eq!(
        frame.draw(Ok(())),
        Ok(RenderPass {
            clear_color: [
                Ratio { num: 1, den: 10 },
                Ratio { num: 1, den: 5 },
                Ratio { num: 3, den: 10 },
                Ratio { num: 1, den: 1 },
            ],
            draw: DrawCall {
                first_index: 0,
                index_count: 9,
                base_vertex: 0,
                first_instance: 0,
                instance_count: 1,
            },
        })
    );
    assert_eq!(frame.draw(Ok(())).unwrap().clear_color, background());
}

#[test]
fn draw_hands_on_every_surface_error() {
    let frame = Frame {
        vertex_buffer: BufferUpdate::Keep,
        index_buffer: BufferUpdate::Keep,
        indices_count: 0,
    };
    for e in [
        SurfaceError::Timeout,
        SurfaceError::Outdated,
        SurfaceError::Lost,
        SurfaceError::OutOfMemory,
        SurfaceError::Other,
    ] {
        assert_eq!(frame.draw(Err(e)), Err(RenderError::Surface(e)));
    }
}

#[test]
fn first_srgb_format_is_chosen() {
    assert_eq!(choose_surface_format(&vec![false, true, true]), Some(1));
    assert_eq!(choose_surface_format(&vec![true, false]), Some(0));
    assert_eq!(choose_surface_format(&vec![false, false, false, true]), Some(3));
}

#[test]
fn first_format_is_chosen_where_none_is_srgb() {
    assert_eq!(choose_surface_format(&vec![false]), Some(0));
    assert_eq!(choose_surface_format(&vec![false, false, false]), Some(0));
}

#[test]
fn no_format_is_chosen_where_there_is_none() {
    assert_eq!(choose_surface_format(&vec![]), None);
}
