use render_core::frame::{FrameCommand, FrameLoop, LoopEvent, PrimitiveKind, ReleaseCommand};
use render_core::handle::HandleLedger;
use render_core::layout::{AttributeSlot, UploadReport, VertexLayoutBinding, VertexSchema};
use render_core::pipeline::{LinkReport, Pipeline};
use render_core::shader::{CompileReport, ShaderKind, ShaderStage};
use render_core::state::RenderState;

const VERT_SRC: &str = "#version 330 core\nlayout (location = 0) in vec3 pos;\nlayout (location = 1) in vec3 col;\nout vec3 vertex_color;\nvoid main() { gl_Position = vec4(pos, 1.0); vertex_color = col; }\n";
const FRAG_SRC: &str = "#version 330 core\nin vec3 vertex_color;\nout vec4 color;\nvoid main() { color = vec4(vertex_color, 1.0); }\n";

struct Scene {
    shader_ledger: HandleLedger,
    buffer_ledger: HandleLedger,
    array_ledger: HandleLedger,
    pipeline: Pipeline,
    binding: VertexLayoutBinding,
    vertices: Vec<f32>,
}

/// Builds the triangle scene: `vec3 pos` at (-0.5,-0.5,0), (0.5,-0.5,0),
/// (0,0.5,0) with corner colors red, green, blue, interleaved six floats per
/// vertex.
fn triangle_scene() -> Scene {
    // shader and program objects share one driver name space; buffer and
    // vertex-array names each come from their own, numbered from one again
    let mut shader_ledger = HandleLedger::new();
    let mut buffer_ledger = HandleLedger::new();
    let mut array_ledger = HandleLedger::new();
    let v = ShaderStage::compile(
        VERT_SRC,
        ShaderKind::Vertex,
        CompileReport { handle: 1, success: true, log: String::new() },
        &mut shader_ledger,
    )
    .unwrap_or_else(|_| panic!("driver accepted this compile"));
    let f = ShaderStage::compile(
        FRAG_SRC,
        ShaderKind::Fragment,
        CompileReport { handle: 2, success: true, log: String::new() },
        &mut shader_ledger,
    )
    .unwrap_or_else(|_| panic!("driver accepted this compile"));
    let stages = vec![v, f];
    let pipeline = Pipeline::link(
        &stages,
        LinkReport { handle: 3, success: true, log: String::new() },
        &mut shader_ledger,
    )
    .unwrap_or_else(|_| panic!("driver accepted this link"));
    // the stages may be dropped right after linking
    for stage in stages {
        stage.release(&mut shader_ledger);
    }
    let slots = vec![
        AttributeSlot { location: 0, components: 3, normalized: false },
        AttributeSlot { location: 1, components: 3, normalized: false },
    ];
    let schema = VertexSchema::new(slots).unwrap_or_else(|| panic!("valid schema"));
    let vertices: Vec<f32> = vec![
        -0.5, -0.5, 0.0, 1.0, 0.0, 0.0, //
        0.5, -0.5, 0.0, 0.0, 1.0, 0.0, //
        0.0, 0.5, 0.0, 0.0, 0.0, 1.0,
    ];
    assert!(schema.accepts(vertices.len()));
    let binding = VertexLayoutBinding::upload(
        schema,
        vertices.len(),
        UploadReport { buffer: 1, array: 1 },
        &mut buffer_ledger,
        &mut array_ledger,
    );
    Scene { shader_ledger, buffer_ledger, array_ledger, pipeline, binding, vertices }
}

#[test]
fn frame_emits_the_five_commands_in_order() {
    let scene = triangle_scene();
    let mut frame_loop = FrameLoop::new(&scene.pipeline, &scene.binding);
    let commands = frame_loop
        .tick(&vec![LoopEvent::Other])
        .unwrap_or_else(|| panic!("a running loop emits a frame"));
    assert_eq!(commands.len(), 5);
    assert!(matches!(commands[0], FrameCommand::Clear));
    assert!(matches!(commands[1], FrameCommand::UsePipeline { program: 3 }));
    assert!(matches!(commands[2], FrameCommand::UseVertexLayout { array: 1 }));
    assert!(matches!(
        commands[3],
        FrameCommand::Draw { primitive: PrimitiveKind::Triangles, vertex_count: 3 }
    ));
    assert!(matches!(commands[4], FrameCommand::Present));
}

#[test]
fn uploaded_three_vertices_draw_three_vertices() {
    // round trip: 3 vertices of (position x3, color x3) in, a 3-vertex
    // triangle-list draw out
    let scene = triangle_scene();
    assert_eq!(scene.vertices.len(), 18);
    assert_eq!(scene.binding.vertex_count(), 3);
    let mut frame_loop = FrameLoop::new(&scene.pipeline, &scene.binding);
    let commands = frame_loop
        .tick(&Vec::new())
        .unwrap_or_else(|| panic!("a running loop emits a frame"));
    match commands[3] {
        FrameCommand::Draw { primitive, vertex_count } => {
            assert!(matches!(primitive, PrimitiveKind::Triangles));
            assert_eq!(vertex_count, scene.binding.vertex_count());
        },
        _ => panic!("the fourth command of a frame is the draw"),
    }
}

#[test]
fn scenario_triangle_is_non_degenerate_and_layout_agrees() {
    let scene = triangle_scene();
    // stride of six floats, color three floats in
    assert_eq!(scene.binding.schema().stride_bytes(), 24);
    assert_eq!(scene.binding.schema().offset_bytes(1), 12);
    // the three positions span a triangle of nonzero area in clip space
    let stride = 6;
    let (x0, y0) = (scene.vertices[0], scene.vertices[1]);
    let (x1, y1) = (scene.vertices[stride], scene.vertices[stride + 1]);
    let (x2, y2) = (scene.vertices[2 * stride], scene.vertices[2 * stride + 1]);
    let doubled_area = (x1 - x0) * (y2 - y0) - (y1 - y0) * (x2 - x0);
    assert!(doubled_area != 0.0);
    // every corner sits inside the clip-space square an identity transform maps to the screen
    for corner in 0..3 {
        for axis in 0..3 {
            let c = scene.vertices[corner * stride + axis];
            assert!((-1.0..=1.0).contains(&c));
        }
    }
}

#[test]
fn bind_twice_equals_bind_once() {
    let scene = triangle_scene();
    let mut state = RenderState::new();
    scene.pipeline.bind(&mut state);
    let after_once = state.active_program;
    scene.pipeline.bind(&mut state);
    assert_eq!(state.active_program, after_once);
    assert_eq!(state.active_program, Some(3));
    assert_eq!(state.active_array, None);
}

#[test]
fn quit_mid_loop_stops_without_a_further_draw() {
    let scene = triangle_scene();
    let mut frame_loop = FrameLoop::new(&scene.pipeline, &scene.binding);
    assert!(frame_loop.tick(&Vec::new()).is_some());
    // quit arrives among this tick's drained events
    let events = vec![LoopEvent::Other, LoopEvent::Quit, LoopEvent::Other];
    assert!(frame_loop.tick(&events).is_none());
    assert!(!frame_loop.is_running());
    // stopped stays stopped: no later tick draws again
    assert!(frame_loop.tick(&Vec::new()).is_none());
}

#[test]
fn low_memory_stops_like_quit() {
    let scene = triangle_scene();
    let mut frame_loop = FrameLoop::new(&scene.pipeline, &scene.binding);
    assert!(frame_loop.tick(&vec![LoopEvent::LowMemory]).is_none());
    assert!(!frame_loop.is_running());
}

#[test]
fn shutdown_releases_everything_exactly_once() {
    let mut scene = triangle_scene();
    let mut frame_loop = FrameLoop::new(&scene.pipeline, &scene.binding);
    // a running loop refuses to shut down
    assert!(frame_loop.shutdown().is_none());
    assert!(frame_loop.tick(&vec![LoopEvent::Quit]).is_none());
    let releases = frame_loop
        .shutdown()
        .unwrap_or_else(|| panic!("first shutdown after stopping emits the releases"));
    // reverse acquisition order: vertex array, buffer, program
    assert_eq!(releases.len(), 3);
    assert!(matches!(releases[0], ReleaseCommand::DeleteVertexArray { array: 1 }));
    assert!(matches!(releases[1], ReleaseCommand::DeleteBuffer { buffer: 1 }));
    assert!(matches!(releases[2], ReleaseCommand::DeleteProgram { program: 3 }));
    // a second shutdown hands nothing out: each object is released once
    assert!(frame_loop.shutdown().is_none());
    // the owners give the handles back; afterwards nothing stays alive
    scene.binding.release(&mut scene.buffer_ledger, &mut scene.array_ledger);
    scene.pipeline.release(&mut scene.shader_ledger);
    assert_eq!(scene.shader_ledger.live_count(), 0);
    assert_eq!(scene.buffer_ledger.live_count(), 0);
    assert_eq!(scene.array_ledger.live_count(), 0);
}
