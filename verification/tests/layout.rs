//! Vertex arrays, the inputs described in them, clears and draws.

use rpong::error::FatalSetupError;
use rpong::graphics::command::{
    AttributeLayout, BufferKind, ClearMask, ColorBits, Command, ElementType, Payload, Upload,
    UsageHint,
};
use rpong::graphics::context::Context;
use rpong::graphics::model::AttributeState;
use rpong::graphics::shader_build::{BuildReply, ShaderBuild};
use rpong::graphics::window::Window;
use rpong::graphics::wrapper::buffer_object::BufferObject;
use rpong::graphics::wrapper::color::Color;
use rpong::graphics::wrapper::shader_program::ShaderProgram;
use rpong::graphics::wrapper::vertex_array_object::VertexArrayObject;
use rpong::graphics::wrapper::vertex_attribute_pointer::VertexAttributePointer;

fn context() -> Context {
    let mut window = Window::new(300, 300, String::from("Pong!"), true).unwrap();
    window.init_gl()
}

/// A program as a build without failures leaves it.
fn program(gpu: &mut Context, handle: u32) -> ShaderProgram {
    let mut build = ShaderBuild::new(Some(b"void main() {}".to_vec()), Some(b"void main() {}".to_vec()))
        .unwrap();
    let replies = [
        BuildReply::Handle(101),
        BuildReply::Done,
        BuildReply::Done,
        BuildReply::Status(true),
        BuildReply::Handle(102),
        BuildReply::Done,
        BuildReply::Done,
        BuildReply::Status(true),
        BuildReply::Handle(handle),
        BuildReply::Done,
        BuildReply::Done,
        BuildReply::Done,
        BuildReply::Status(true),
        BuildReply::Done,
        BuildReply::Done,
    ];
    for reply in replies {
        build = build.reply(reply);
    }
    assert!(build.has_ended());
    ShaderProgram::new(gpu, build).unwrap()
}

const POSITION: AttributeLayout = AttributeLayout {
    components: 3,
    element: ElementType::Float,
    normalized: false,
    stride: 12,
    offset: 0,
};

#[test]
fn new_vertex_array_has_no_inputs() {
    let mut gpu = context();
    let array = VertexArrayObject::new(&mut gpu, 1).unwrap();
    assert_eq!(array.id(), 1);
    assert!(gpu.has_vertex_array(1));
    assert!(!array.is_bound(&gpu));
    array.bind(&mut gpu);
    assert!(array.is_bound(&gpu));
    assert_eq!(gpu.attribute(0), AttributeState { layout: None, source: 0, enabled: false });
    assert!(!gpu.is_drawable());
}

#[test]
fn new_vertex_array_without_a_handle_is_fatal() {
    let mut gpu = context();
    assert_eq!(
        VertexArrayObject::new(&mut gpu, 0).unwrap_err(),
        FatalSetupError::VertexArrayAllocation
    );
}

#[test]
fn new_vertex_array_with_a_handle_in_use_is_fatal() {
    let mut gpu = context();
    let first = VertexArrayObject::new(&mut gpu, 4).unwrap();
    assert_eq!(
        VertexArrayObject::new(&mut gpu, 4).unwrap_err(),
        FatalSetupError::VertexArrayAllocation
    );
    first.delete(&mut gpu);
    assert!(VertexArrayObject::new(&mut gpu, 4).is_ok());
}

#[test]
fn vertex_array_binding_follows_the_last_call() {
    let mut gpu = context();
    let array = VertexArrayObject::new(&mut gpu, 2).unwrap();
    array.bind(&mut gpu);
    assert_eq!(gpu.bound_vertex_array(), 2);
    array.unbind(&mut gpu);
    assert_eq!(gpu.bound_vertex_array(), 0);
    array.bind(&mut gpu);
    array.bind(&mut gpu);
    assert_eq!(gpu.bound_vertex_array(), 2);
    assert_eq!(
        gpu.take_commands(),
        vec![
            Command::BindVertexArray { array: 2 },
            Command::BindVertexArray { array: 0 },
            Command::BindVertexArray { array: 2 },
            Command::BindVertexArray { array: 2 },
        ]
    );
}

#[test]
fn an_input_is_described_from_the_bound_vertex_buffer() {
    let mut gpu = context();
    let array = VertexArrayObject::new(&mut gpu, 1).unwrap();
    let buffer =
        BufferObject::new(&mut gpu, BufferKind::VertexData, UsageHint::StaticDraw, 5).unwrap();
    array.bind(&mut gpu);
    buffer.bind(&mut gpu);
    let pointer =
        VertexAttributePointer::new(&mut gpu, 2, 3, ElementType::Float, false, 12, 0);
    assert_eq!(pointer.index(), 2);
    assert_eq!(
        gpu.attribute(2),
        AttributeState { layout: Some(POSITION), source: 5, enabled: false }
    );
    assert_eq!(gpu.attribute(0), AttributeState { layout: None, source: 0, enabled: false });
    let commands = gpu.take_commands();
    assert_eq!(commands[2], Command::VertexAttribPointer { slot: 2, layout: POSITION });
}

#[test]
fn enable_and_disable_switch_the_input_and_keep_its_description() {
    let mut gpu = context();
    let array = VertexArrayObject::new(&mut gpu, 1).unwrap();
    let buffer =
        BufferObject::new(&mut gpu, BufferKind::VertexData, UsageHint::StaticDraw, 5).unwrap();
    array.bind(&mut gpu);
    buffer.bind(&mut gpu);
    let pointer = VertexAttributePointer::new(&mut gpu, 0, 3, ElementType::Float, false, 12, 0);
    gpu.take_commands();
    pointer.enable(&mut gpu);
    assert!(gpu.attribute(0).enabled);
    pointer.enable(&mut gpu);
    assert_eq!(
        gpu.attribute(0),
        AttributeState { layout: Some(POSITION), source: 5, enabled: true }
    );
    pointer.disable(&mut gpu);
    assert_eq!(
        gpu.attribute(0),
        AttributeState { layout: Some(POSITION), source: 5, enabled: false }
    );
    assert_eq!(
        gpu.take_commands(),
        vec![
            Command::EnableVertexAttribArray { slot: 0 },
            Command::EnableVertexAttribArray { slot: 0 },
            Command::DisableVertexAttribArray { slot: 0 },
        ]
    );
}

#[test]
fn a_second_description_replaces_the_first_and_keeps_the_switch() {
    let mut gpu = context();
    let array = VertexArrayObject::new(&mut gpu, 1).unwrap();
    let first =
        BufferObject::new(&mut gpu, BufferKind::VertexData, UsageHint::StaticDraw, 5).unwrap();
    let second =
        BufferObject::new(&mut gpu, BufferKind::VertexData, UsageHint::StaticDraw, 6).unwrap();
    array.bind(&mut gpu);
    first.bind(&mut gpu);
    VertexAttributePointer::new(&mut gpu, 1, 3, ElementType::Float, false, 12, 0).enable(&mut gpu);
    second.bind(&mut gpu);
    VertexAttributePointer::new(&mut gpu, 1, 2, ElementType::Short, true, 4, 8);
    assert_eq!(
        gpu.attribute(1),
        AttributeState {
            layout: Some(AttributeLayout {
                components: 2,
                element: ElementType::Short,
                normalized: true,
                stride: 4,
                offset: 8,
            }),
            source: 6,
            enabled: true,
        }
    );
}

#[test]
fn inputs_belong_to_the_vertex_array_that_was_bound() {
    let mut gpu = context();
    let first = VertexArrayObject::new(&mut gpu, 1).unwrap();
    let second = VertexArrayObject::new(&mut gpu, 2).unwrap();
    let buffer =
        BufferObject::new(&mut gpu, BufferKind::VertexData, UsageHint::StaticDraw, 5).unwrap();
    buffer.bind(&mut gpu);
    first.bind(&mut gpu);
    let pointer = VertexAttributePointer::new(&mut gpu, 0, 3, ElementType::Float, false, 12, 0);
    pointer.enable(&mut gpu);
    second.bind(&mut gpu);
    assert_eq!(gpu.attribute(0), AttributeState { layout: None, source: 0, enabled: false });
    pointer.enable(&mut gpu);
    assert_eq!(gpu.attribute(0), AttributeState { layout: None, source: 0, enabled: true });
    first.bind(&mut gpu);
    assert_eq!(
        gpu.attribute(0),
        AttributeState { layout: Some(POSITION), source: 5, enabled: true }
    );
}

#[test]
fn many_inputs_keep_apart() {
    let mut gpu = context();
    let array = VertexArrayObject::new(&mut gpu, 1).unwrap();
    let buffer =
        BufferObject::new(&mut gpu, BufferKind::VertexData, UsageHint::StaticDraw, 5).unwrap();
    array.bind(&mut gpu);
    buffer.bind(&mut gpu);
    for slot in [7u32, 0, 3, u32::MAX] {
        let pointer = VertexAttributePointer::new(
            &mut gpu,
            slot,
            (slot % 4) as i32 + 1,
            ElementType::Float,
            false,
            0,
            slot as usize,
        );
        if slot != 3 {
            pointer.enable(&mut gpu);
        }
    }
    for slot in [7u32, 0, 3, u32::MAX] {
        let state = gpu.attribute(slot);
        assert_eq!(state.enabled, slot != 3);
        assert_eq!(state.source, 5);
        let layout = state.layout.unwrap();
        assert_eq!(layout.components, (slot % 4) as i32 + 1);
        assert_eq!(layout.offset, slot as usize);
    }
    assert_eq!(gpu.attribute(1), AttributeState { layout: None, source: 0, enabled: false });
}

#[test]
fn one_input_described_and_enabled_makes_the_layout_drawable() {
    let mut gpu = context();
    let program = program(&mut gpu, 30);
    let array = VertexArrayObject::new(&mut gpu, 1).unwrap();
    let buffer =
        BufferObject::new(&mut gpu, BufferKind::VertexData, UsageHint::StaticDraw, 5).unwrap();
    array.bind(&mut gpu);
    buffer.bind(&mut gpu);
    let pointer = VertexAttributePointer::new(&mut gpu, 0, 3, ElementType::Float, false, 12, 0);
    assert!(!gpu.is_drawable());
    pointer.enable(&mut gpu);
    assert!(!gpu.is_drawable());
    program.bind(&mut gpu);
    array.bind(&mut gpu);
    assert!(gpu.is_drawable());
}

#[test]
fn a_layout_is_not_drawable_without_its_parts() {
    let mut gpu = context();
    let program = program(&mut gpu, 30);
    let array = VertexArrayObject::new(&mut gpu, 1).unwrap();
    let buffer =
        BufferObject::new(&mut gpu, BufferKind::VertexData, UsageHint::StaticDraw, 5).unwrap();
    array.bind(&mut gpu);
    buffer.bind(&mut gpu);
    let pointer = VertexAttributePointer::new(&mut gpu, 0, 3, ElementType::Float, false, 12, 0);
    pointer.enable(&mut gpu);
    program.bind(&mut gpu);
    assert!(gpu.is_drawable());

    program.unbind(&mut gpu);
    assert!(!gpu.is_drawable());
    program.bind(&mut gpu);
    array.unbind(&mut gpu);
    assert!(!gpu.is_drawable());
    array.bind(&mut gpu);
    pointer.disable(&mut gpu);
    assert!(!gpu.is_drawable());
    pointer.enable(&mut gpu);
    assert!(gpu.is_drawable());

    // An input that is switched on but was never described has nothing to
    // read from.
    let stray = VertexAttributePointer::new(&mut gpu, 1, 3, ElementType::Float, false, 12, 0);
    let other = VertexArrayObject::new(&mut gpu, 2).unwrap();
    other.bind(&mut gpu);
    stray.enable(&mut gpu);
    assert!(!gpu.is_drawable());
    array.bind(&mut gpu);
    assert!(gpu.is_drawable());

    // Nor has one whose buffer is gone.
    buffer.delete(&mut gpu);
    assert!(!gpu.is_drawable());
}

#[test]
fn a_deleted_program_draws_nothing() {
    let mut gpu = context();
    let program = program(&mut gpu, 30);
    let array = VertexArrayObject::new(&mut gpu, 1).unwrap();
    let buffer =
        BufferObject::new(&mut gpu, BufferKind::VertexData, UsageHint::StaticDraw, 5).unwrap();
    array.bind(&mut gpu);
    buffer.bind(&mut gpu);
    VertexAttributePointer::new(&mut gpu, 0, 3, ElementType::Float, false, 12, 0).enable(&mut gpu);
    program.bind(&mut gpu);
    assert!(gpu.is_drawable());
    program.delete(&mut gpu);
    assert!(!gpu.has_program(30));
    assert_eq!(gpu.bound_program(), 30);
    assert!(!gpu.is_drawable());
}

#[test]
fn a_deleted_vertex_array_is_bound_no_longer() {
    let mut gpu = context();
    let array = VertexArrayObject::new(&mut gpu, 1).unwrap();
    array.bind(&mut gpu);
    array.delete(&mut gpu);
    assert_eq!(gpu.bound_vertex_array(), 0);
    assert!(!gpu.has_vertex_array(1));
}

#[test]
fn quad_setup_is_ready_to_draw_six_indices() {
    let vertices: [f32; 12] = [0.5, 0.5, 0.0, 0.5, -0.5, 0.0, -0.5, -0.5, 0.0, -0.5, 0.5, 0.0];
    let bits: Vec<u32> = vertices.iter().map(|number| number.to_bits()).collect();
    let indices = [0, 1, 2, 2, 3, 0];

    let mut gpu = context();
    let program = program(&mut gpu, 3);
    program.bind(&mut gpu);

    let vao = VertexArrayObject::new(&mut gpu, 1).unwrap();
    vao.bind(&mut gpu);

    let vbo =
        BufferObject::new(&mut gpu, BufferKind::VertexData, UsageHint::StaticDraw, 1).unwrap();
    vbo.bind(&mut gpu);
    vbo.store_f32_data(&mut gpu, &bits);

    let ebo = BufferObject::new(&mut gpu, BufferKind::IndexData, UsageHint::StaticDraw, 2).unwrap();
    ebo.bind(&mut gpu);
    ebo.store_i32_data(&mut gpu, &indices);

    let vap = VertexAttributePointer::new(&mut gpu, 0, 3, ElementType::Float, false, 3 * 4, 0);
    vap.enable(&mut gpu);

    vbo.unbind(&mut gpu);

    assert!(gpu.is_drawable());
    assert!(gpu.can_draw(6));
    assert!(gpu.can_draw(0));
    assert!(!gpu.can_draw(7));
    assert!(!gpu.can_draw(-1));
    assert!(gpu.permits(&Command::DrawElements { count: 6 }));
    assert_eq!(gpu.buffer_size(1), Some(48));
    assert_eq!(gpu.buffer_size(2), Some(24));

    let color = Color::new(
        0.2f32.to_bits(),
        0.3f32.to_bits(),
        0.3f32.to_bits(),
        1.0f32.to_bits(),
        ClearMask { color: true, depth: false, stencil: false },
    );
    color.clear(&mut gpu);
    gpu.draw_elements(6);

    assert_eq!(
        gpu.take_commands(),
        vec![
            Command::UseProgram { program: 3 },
            Command::BindVertexArray { array: 1 },
            Command::BindBuffer { kind: BufferKind::VertexData, buffer: 1 },
            Command::BufferData {
                kind: BufferKind::VertexData,
                upload: Upload::new(Payload::Floats(bits)).unwrap(),
                usage: UsageHint::StaticDraw,
            },
            Command::BindBuffer { kind: BufferKind::IndexData, buffer: 2 },
            Command::BufferData {
                kind: BufferKind::IndexData,
                upload: Upload::new(Payload::Integers(vec![0, 1, 2, 2, 3, 0])).unwrap(),
                usage: UsageHint::StaticDraw,
            },
            Command::VertexAttribPointer {
                slot: 0,
                layout: AttributeLayout {
                    components: 3,
                    element: ElementType::Float,
                    normalized: false,
                    stride: 12,
                    offset: 0,
                },
            },
            Command::EnableVertexAttribArray { slot: 0 },
            Command::BindBuffer { kind: BufferKind::VertexData, buffer: 0 },
            Command::ClearColor {
                color: ColorBits {
                    red: 0.2f32.to_bits(),
                    green: 0.3f32.to_bits(),
                    blue: 0.3f32.to_bits(),
                    alpha: 1.0f32.to_bits(),
                },
            },
            Command::Clear { mask: ClearMask { color: true, depth: false, stencil: false } },
            Command::DrawElements { count: 6 },
        ]
    );
}

#[test]
fn a_draw_needs_an_index_buffer_with_enough_indices() {
    let mut gpu = context();
    let program = program(&mut gpu, 3);
    let vao = VertexArrayObject::new(&mut gpu, 1).unwrap();
    let vbo =
        BufferObject::new(&mut gpu, BufferKind::VertexData, UsageHint::StaticDraw, 1).unwrap();
    let ebo = BufferObject::new(&mut gpu, BufferKind::IndexData, UsageHint::StaticDraw, 2).unwrap();
    program.bind(&mut gpu);
    vao.bind(&mut gpu);
    vbo.bind(&mut gpu);
    VertexAttributePointer::new(&mut gpu, 0, 3, ElementType::Float, false, 12, 0).enable(&mut gpu);
    assert!(gpu.is_drawable());
    assert!(!gpu.can_draw(0));
    ebo.bind(&mut gpu);
    assert!(gpu.can_draw(0));
    assert!(!gpu.can_draw(1));
    ebo.store_i32_data(&mut gpu, &[0, 1, 2]);
    assert!(gpu.can_draw(3));
    assert!(!gpu.can_draw(4));
    assert!(!gpu.can_draw(i32::MAX));
    ebo.unbind(&mut gpu);
    assert!(!gpu.can_draw(3));
    ebo.bind(&mut gpu);
    ebo.delete(&mut gpu);
    assert!(!gpu.can_draw(0));
}

#[test]
fn permits_tells_what_a_command_needs() {
    let mut gpu = context();
    let upload = Command::BufferData {
        kind: BufferKind::VertexData,
        upload: Upload::new(Payload::Integers(vec![1, 2])).unwrap(),
        usage: UsageHint::StaticDraw,
    };
    let describe = Command::VertexAttribPointer { slot: 0, layout: POSITION };
    assert!(!gpu.permits(&upload));
    assert!(!gpu.permits(&describe));
    assert!(gpu.permits(&Command::BindVertexArray { array: 9 }));
    assert!(gpu.permits(&Command::TogglePolygonMode));

    let vbo =
        BufferObject::new(&mut gpu, BufferKind::VertexData, UsageHint::StaticDraw, 1).unwrap();
    vbo.bind(&mut gpu);
    assert!(gpu.permits(&upload));
    assert!(!gpu.permits(&describe));
    assert!(!gpu.permits(&Command::BufferData {
        kind: BufferKind::IndexData,
        upload: Upload::new(Payload::Integers(vec![1, 2])).unwrap(),
        usage: UsageHint::StaticDraw,
    }));

    let vao = VertexArrayObject::new(&mut gpu, 1).unwrap();
    vao.bind(&mut gpu);
    assert!(gpu.permits(&describe));
    for (components, stride) in [(0, 12), (5, 12), (3, -1), (-3, 0)] {
        assert!(!gpu.permits(&Command::VertexAttribPointer {
            slot: 0,
            layout: AttributeLayout { components, stride, ..POSITION },
        }));
    }
    for components in 1..=4 {
        let layout = AttributeLayout { components, stride: 0, ..POSITION };
        assert!(layout.is_valid());
        assert!(gpu.permits(&Command::VertexAttribPointer { slot: 0, layout }));
    }
}

#[test]
fn clear_sets_the_color_and_wipes_the_planes() {
    let mut gpu = context();
    assert_eq!(gpu.clear_color(), ColorBits { red: 0, green: 0, blue: 0, alpha: 0 });
    let mask = ClearMask { color: true, depth: true, stencil: false };
    let color = Color::new(0.2f32.to_bits(), 0.3f32.to_bits(), 0.3f32.to_bits(), 1.0f32.to_bits(), mask);
    let channels = ColorBits {
        red: 0x3E4C_CCCD,
        green: 0x3E99_999A,
        blue: 0x3E99_999A,
        alpha: 0x3F80_0000,
    };
    assert_eq!(color.channels(), channels);
    assert_eq!(color.mask(), mask);
    color.clear(&mut gpu);
    color.clear(&mut gpu);
    assert_eq!(gpu.clear_color(), channels);
    assert_eq!(
        gpu.take_commands(),
        vec![
            Command::ClearColor { color: channels },
            Command::Clear { mask },
            Command::ClearColor { color: channels },
            Command::Clear { mask },
        ]
    );
}

#[test]
fn other_channels_keep_the_planes_and_record_nothing() {
    let mut gpu = context();
    let mask = ClearMask { color: true, depth: false, stencil: true };
    let first = Color::new(0, 0, 0, 1.0f32.to_bits(), mask);
    let second = first.with_channels(1.0f32.to_bits(), 0.5f32.to_bits(), 0, 1.0f32.to_bits());
    assert_eq!(second.mask(), mask);
    assert_eq!(
        second.channels(),
        ColorBits { red: 0x3F80_0000, green: 0x3F00_0000, blue: 0, alpha: 0x3F80_0000 }
    );
    assert_eq!(first.channels(), ColorBits { red: 0, green: 0, blue: 0, alpha: 0x3F80_0000 });
    assert!(gpu.take_commands().is_empty());
    assert_eq!(gpu.clear_color(), ColorBits { red: 0, green: 0, blue: 0, alpha: 0 });
    second.clear(&mut gpu);
    assert_eq!(gpu.clear_color(), second.channels());
}
