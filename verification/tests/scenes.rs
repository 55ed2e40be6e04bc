//! A mesh from its setup to its frames.

use rpong::error::FatalSetupError;
use rpong::graphics::command::{
    AttributeLayout, BufferKind, ClearMask, ColorBits, Command, ElementType, Payload, PolygonMode,
    Upload, UsageHint,
};
use rpong::graphics::context::Context;
use rpong::graphics::model::AttributeState;
use rpong::graphics::scene::{render_frame, Mesh};
use rpong::graphics::shader_build::{BuildReply, BuildRequest, ShaderBuild};
use rpong::graphics::window::{Action, Event, Key, Window};
use rpong::graphics::wrapper::buffer_object::BufferObject;
use rpong::graphics::wrapper::color::Color;
use rpong::graphics::wrapper::shader_program::ShaderProgram;
use rpong::graphics::wrapper::vertex_array_object::VertexArrayObject;

const QUAD: [f32; 12] = [0.5, 0.5, 0.0, 0.5, -0.5, 0.0, -0.5, -0.5, 0.0, -0.5, 0.5, 0.0];

const INDICES: [i32; 6] = [0, 1, 2, 2, 3, 0];

fn quad_bits() -> Vec<u32> {
    QUAD.iter().map(|number| number.to_bits()).collect()
}

fn opened() -> (Window, Context) {
    let mut window = Window::new(300, 300, String::from("Pong!"), true).unwrap();
    let gpu = window.init_gl();
    (window, gpu)
}

/// A program as a build without failures leaves it.
fn linked(gpu: &mut Context, handle: u32) -> ShaderProgram {
    let mut build =
        ShaderBuild::new(Some(b"void main() {}".to_vec()), Some(b"void main() {}".to_vec()))
            .unwrap();
    while let Some(request) = build.request() {
        let reply = match request {
            BuildRequest::CreateShader { .. } => BuildReply::Handle(handle + 100),
            BuildRequest::CreateProgram => BuildReply::Handle(handle),
            BuildRequest::CompileStatus { .. } | BuildRequest::LinkStatus { .. } => {
                BuildReply::Status(true)
            }
            _ => BuildReply::Done,
        };
        build = build.reply(reply);
    }
    ShaderProgram::new(gpu, build).unwrap()
}

fn setup_commands(bits: Vec<u32>) -> Vec<Command> {
    vec![
        Command::BindVertexArray { array: 1 },
        Command::BindBuffer { kind: BufferKind::VertexData, buffer: 1 },
        Command::BufferData {
            kind: BufferKind::VertexData,
            upload: Upload::new(Payload::Floats(bits)).unwrap(),
            usage: UsageHint::StaticDraw,
        },
        Command::BindBuffer { kind: BufferKind::IndexData, buffer: 2 },
        Command::BufferData {
            kind: BufferKind::IndexData,
            upload: Upload::new(Payload::Integers(INDICES.to_vec())).unwrap(),
            usage: UsageHint::StaticDraw,
        },
        Command::VertexAttribPointer {
            slot: 0,
            layout: AttributeLayout {
                components: 3,
                element: ElementType::Float,
                normalized: false,
                stride: 12,
                offset: 0,
            },
        },
        Command::EnableVertexAttribArray { slot: 0 },
        Command::BindBuffer { kind: BufferKind::VertexData, buffer: 0 },
    ]
}

#[test]
fn mesh_setup_records_the_quad() {
    let (_, mut gpu) = opened();
    let mesh = Mesh::new(&mut gpu, 1, 1, 2, UsageHint::StaticDraw, &quad_bits(), &INDICES).unwrap();
    assert_eq!(mesh.index_count(), 6);
    assert_eq!(gpu.take_commands(), setup_commands(quad_bits()));
    assert_eq!(gpu.bound_vertex_array(), 1);
    assert_eq!(gpu.bound_buffer(BufferKind::VertexData), 0);
    assert_eq!(gpu.bound_buffer(BufferKind::IndexData), 2);
    assert_eq!(gpu.buffer_size(1), Some(48));
    assert_eq!(gpu.buffer_size(2), Some(24));
    assert_eq!(
        gpu.attribute(0),
        AttributeState {
            layout: Some(AttributeLayout {
                components: 3,
                element: ElementType::Float,
                normalized: false,
                stride: 12,
                offset: 0,
            }),
            source: 1,
            enabled: true,
        }
    );
}

#[test]
fn mesh_is_ready_once_a_program_is_bound() {
    let (_, mut gpu) = opened();
    let mesh = Mesh::new(&mut gpu, 1, 1, 2, UsageHint::StaticDraw, &quad_bits(), &INDICES).unwrap();
    assert!(!mesh.is_ready(&gpu));
    let program = linked(&mut gpu, 3);
    assert!(!mesh.is_ready(&gpu));
    program.bind(&mut gpu);
    assert!(mesh.is_ready(&gpu));
    assert!(gpu.can_draw(6));
    assert!(!gpu.can_draw(7));
    gpu.take_commands();
    mesh.draw(&mut gpu);
    assert_eq!(gpu.take_commands(), vec![Command::DrawElements { count: 6 }]);
}

#[test]
fn mesh_with_a_handle_at_fault_is_fatal_and_records_nothing() {
    let (_, mut gpu) = opened();
    let array = VertexArrayObject::new(&mut gpu, 8).unwrap();
    let buffer =
        BufferObject::new(&mut gpu, BufferKind::VertexData, UsageHint::StaticDraw, 9).unwrap();
    let bits = quad_bits();
    let cases = [
        ((0, 1, 2), FatalSetupError::VertexArrayAllocation),
        ((8, 1, 2), FatalSetupError::VertexArrayAllocation),
        ((0, 0, 0), FatalSetupError::VertexArrayAllocation),
        ((1, 0, 2), FatalSetupError::BufferAllocation),
        ((1, 1, 0), FatalSetupError::BufferAllocation),
        ((1, 9, 2), FatalSetupError::BufferAllocation),
        ((1, 1, 9), FatalSetupError::BufferAllocation),
        ((1, 2, 2), FatalSetupError::BufferAllocation),
    ];
    for ((vertex_array, vertex_buffer, index_buffer), error) in cases {
        let made = Mesh::new(
            &mut gpu,
            vertex_array,
            vertex_buffer,
            index_buffer,
            UsageHint::StaticDraw,
            &bits,
            &INDICES,
        );
        assert_eq!(made.unwrap_err(), error);
        assert!(gpu.take_commands().is_empty());
        assert!(!gpu.has_vertex_array(1));
        assert!(!gpu.has_buffer(1));
        assert!(!gpu.has_buffer(2));
        assert_eq!(gpu.bound_vertex_array(), 0);
    }
    assert!(array.id() == 8 && buffer.id() == 9);
    assert!(Mesh::new(&mut gpu, 1, 1, 2, UsageHint::StaticDraw, &bits, &INDICES).is_ok());
}

#[test]
fn mesh_delete_releases_its_objects() {
    let (_, mut gpu) = opened();
    let program = linked(&mut gpu, 3);
    program.bind(&mut gpu);
    let mesh = Mesh::new(&mut gpu, 4, 5, 6, UsageHint::DynamicDraw, &quad_bits(), &INDICES).unwrap();
    assert!(mesh.is_ready(&gpu));
    gpu.take_commands();
    mesh.delete(&mut gpu);
    assert_eq!(
        gpu.take_commands(),
        vec![
            Command::DeleteBuffer { buffer: 6 },
            Command::DeleteBuffer { buffer: 5 },
            Command::DeleteVertexArray { array: 4 },
        ]
    );
    assert!(!gpu.has_vertex_array(4));
    assert!(!gpu.has_buffer(5));
    assert!(!gpu.has_buffer(6));
    assert_eq!(gpu.bound_vertex_array(), 0);
    assert_eq!(gpu.bound_buffer(BufferKind::IndexData), 0);
    assert!(!gpu.is_drawable());
}

#[test]
fn quad_renders_frame_after_frame_until_escape() {
    let (mut window, mut gpu) = opened();
    let program = linked(&mut gpu, 3);
    program.bind(&mut gpu);
    let mesh = Mesh::new(&mut gpu, 1, 1, 2, UsageHint::StaticDraw, &quad_bits(), &INDICES).unwrap();
    let mask = ClearMask { color: true, depth: false, stencil: false };
    let color =
        Color::new(0.2f32.to_bits(), 0.3f32.to_bits(), 0.3f32.to_bits(), 1.0f32.to_bits(), mask);
    let channels = ColorBits {
        red: 0.2f32.to_bits(),
        green: 0.3f32.to_bits(),
        blue: 0.3f32.to_bits(),
        alpha: 1.0f32.to_bits(),
    };

    let mut commands = vec![Command::UseProgram { program: 3 }];
    commands.extend(setup_commands(quad_bits()));
    assert_eq!(gpu.take_commands(), commands);

    let frames: [&[Event]; 4] = [
        &[],
        &[
            Event::Key { key: Key::L, action: Action::Press },
            Event::FramebufferSize { width: 600, height: 400 },
        ],
        &[Event::Other, Event::Key { key: Key::L, action: Action::Release }],
        &[Event::Key { key: Key::Escape, action: Action::Press }],
    ];
    let reactions: [Vec<Command>; 4] = [
        vec![],
        vec![Command::TogglePolygonMode, Command::Viewport { width: 600, height: 400 }],
        vec![],
        vec![Command::CloseWindow],
    ];
    for (events, reaction) in frames.iter().zip(reactions) {
        assert!(!window.should_close());
        assert!(mesh.is_ready(&gpu));
        render_frame(&mut window, &mut gpu, &color, &mesh, events);
        let mut expected = vec![
            Command::ClearColor { color: channels },
            Command::Clear { mask },
            Command::DrawElements { count: 6 },
        ];
        expected.extend(reaction);
        expected.push(Command::PollEvents);
        expected.push(Command::SwapBuffers);
        assert_eq!(gpu.take_commands(), expected);
        assert!(mesh.is_ready(&gpu));
    }
    assert!(window.should_close());
    assert_eq!(gpu.polygon_mode(), PolygonMode::Line);
    assert_eq!(gpu.viewport(), Some((600, 400)));
    assert_eq!(gpu.clear_color(), channels);
}

#[test]
fn an_empty_mesh_draws_no_index() {
    let (_, mut gpu) = opened();
    let program = linked(&mut gpu, 3);
    program.bind(&mut gpu);
    let mesh = Mesh::new(&mut gpu, 1, 1, 2, UsageHint::StaticDraw, &[], &[]).unwrap();
    assert_eq!(mesh.index_count(), 0);
    assert!(mesh.is_ready(&gpu));
    assert_eq!(gpu.buffer_size(1), Some(0));
    assert_eq!(gpu.buffer_size(2), Some(0));
}
