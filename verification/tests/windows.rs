//! The window: opening, the dispatch of events, the end of a frame.

use rpong::error::FatalSetupError;
use rpong::graphics::command::{Command, PolygonMode};
use rpong::graphics::context::Context;
use rpong::graphics::window::{Action, Event, Key, Window};

fn window() -> (Window, Context) {
    let mut window = Window::new(300, 300, String::from("Pong!"), true).unwrap();
    let gpu = window.init_gl();
    (window, gpu)
}

const ESCAPE: Event = Event::Key { key: Key::Escape, action: Action::Press };

const TOGGLE: Event = Event::Key { key: Key::L, action: Action::Press };

#[test]
fn new_window_is_open_and_has_no_graphics_yet() {
    let window = Window::new(300, 300, String::from("Pong!"), true).unwrap();
    assert_eq!(window.width(), 300);
    assert_eq!(window.height(), 300);
    assert_eq!(window.title(), "Pong!");
    assert!(!window.graphics_loaded());
    assert!(!window.should_close());
}

#[test]
fn a_window_that_did_not_open_is_fatal() {
    assert_eq!(
        Window::new(300, 300, String::from("Pong!"), false).unwrap_err(),
        FatalSetupError::WindowCreation
    );
}

#[test]
fn init_gl_hands_out_a_fresh_context() {
    let mut window = Window::new(640, 480, String::from("w"), true).unwrap();
    let mut gpu = window.init_gl();
    assert!(window.graphics_loaded());
    assert!(!window.should_close());
    assert_eq!(window.width(), 640);
    assert_eq!(window.height(), 480);
    assert_eq!(gpu.bound_vertex_array(), 0);
    assert_eq!(gpu.bound_program(), 0);
    assert_eq!(gpu.polygon_mode(), PolygonMode::Fill);
    assert_eq!(gpu.viewport(), None);
    assert!(!gpu.is_drawable());
    assert!(gpu.take_commands().is_empty());
}

#[test]
fn toggle_switches_to_wireframe_and_back() {
    let (mut window, mut gpu) = window();
    assert_eq!(gpu.polygon_mode(), PolygonMode::Fill);
    window.process_event(&mut gpu, TOGGLE);
    assert_eq!(gpu.polygon_mode(), PolygonMode::Line);
    window.process_event(&mut gpu, TOGGLE);
    assert_eq!(gpu.polygon_mode(), PolygonMode::Fill);
    assert!(!window.should_close());
    assert_eq!(
        gpu.take_commands(),
        vec![Command::TogglePolygonMode, Command::TogglePolygonMode]
    );
}

#[test]
fn the_driver_switches_by_what_it_reads_back() {
    assert_eq!(PolygonMode::switch_for(gl::FILL as i32), Some(PolygonMode::Line));
    assert_eq!(PolygonMode::switch_for(gl::LINE as i32), Some(PolygonMode::Fill));
    assert_eq!(PolygonMode::switch_for(gl::POINT as i32), None);
    assert_eq!(PolygonMode::switch_for(0), None);
    assert_eq!(PolygonMode::switch_for(-1), None);
    // A driver that starts from filled faces and switches by its readings.
    let mut mode = PolygonMode::Fill;
    for expected in [PolygonMode::Line, PolygonMode::Fill, PolygonMode::Line] {
        if let Some(next) = PolygonMode::switch_for(mode.code() as i32) {
            mode = next;
        }
        assert_eq!(mode, expected);
    }
    assert_eq!(PolygonMode::Fill.toggled(), PolygonMode::Line);
    assert_eq!(PolygonMode::Line.toggled(), PolygonMode::Fill);
    assert_eq!(PolygonMode::Point.toggled(), PolygonMode::Point);
}

#[test]
fn only_the_press_of_the_toggle_key_toggles() {
    let (mut window, mut gpu) = window();
    for event in [
        Event::Key { key: Key::L, action: Action::Release },
        Event::Key { key: Key::L, action: Action::Repeat },
        Event::Key { key: Key::Other, action: Action::Press },
        Event::Other,
    ] {
        window.process_event(&mut gpu, event);
    }
    assert_eq!(gpu.polygon_mode(), PolygonMode::Fill);
    assert!(!window.should_close());
    assert!(gpu.take_commands().is_empty());
}

#[test]
fn escape_closes_the_window_for_good() {
    let (mut window, mut gpu) = window();
    window.update(&mut gpu, &[]);
    assert!(!window.should_close());
    window.update(&mut gpu, &[TOGGLE, ESCAPE, TOGGLE]);
    assert!(window.should_close());
    for events in [
        vec![],
        vec![Event::Key { key: Key::Escape, action: Action::Release }],
        vec![TOGGLE, Event::Other, Event::FramebufferSize { width: 1, height: 1 }],
        vec![ESCAPE],
    ] {
        window.update(&mut gpu, &events);
        assert!(window.should_close());
    }
}

#[test]
fn only_the_press_of_escape_closes() {
    let (mut window, mut gpu) = window();
    window.update(
        &mut gpu,
        &[
            Event::Key { key: Key::Escape, action: Action::Release },
            Event::Key { key: Key::Escape, action: Action::Repeat },
            Event::Key { key: Key::Other, action: Action::Press },
            TOGGLE,
            Event::Other,
            Event::FramebufferSize { width: 10, height: 10 },
        ],
    );
    assert!(!window.should_close());
    window.process_event(&mut gpu, ESCAPE);
    assert!(window.should_close());
}

#[test]
fn a_request_to_close_closes_without_a_command() {
    let (mut window, mut gpu) = window();
    window.process_event(&mut gpu, Event::Close);
    assert!(window.should_close());
    assert!(gpu.take_commands().is_empty());
}

#[test]
fn escape_marks_the_window_as_due_to_close() {
    let (mut window, mut gpu) = window();
    window.process_event(&mut gpu, ESCAPE);
    assert_eq!(gpu.take_commands(), vec![Command::CloseWindow]);
}

#[test]
fn a_new_size_moves_the_viewport() {
    let (mut window, mut gpu) = window();
    window.process_event(&mut gpu, Event::FramebufferSize { width: 800, height: 600 });
    assert_eq!(gpu.viewport(), Some((800, 600)));
    window.process_event(&mut gpu, Event::FramebufferSize { width: 1024, height: 768 });
    assert_eq!(gpu.viewport(), Some((1024, 768)));
    assert_eq!(window.width(), 300);
    assert_eq!(
        gpu.take_commands(),
        vec![
            Command::Viewport { width: 800, height: 600 },
            Command::Viewport { width: 1024, height: 768 },
        ]
    );
}

#[test]
fn update_takes_the_events_then_ends_the_frame() {
    let (mut window, mut gpu) = window();
    window.update(
        &mut gpu,
        &[
            Event::FramebufferSize { width: 640, height: 480 },
            TOGGLE,
            Event::Other,
            ESCAPE,
            TOGGLE,
            TOGGLE,
        ],
    );
    assert_eq!(
        gpu.take_commands(),
        vec![
            Command::Viewport { width: 640, height: 480 },
            Command::TogglePolygonMode,
            Command::CloseWindow,
            Command::TogglePolygonMode,
            Command::TogglePolygonMode,
            Command::PollEvents,
            Command::SwapBuffers,
        ]
    );
    assert_eq!(gpu.polygon_mode(), PolygonMode::Line);
    assert_eq!(gpu.viewport(), Some((640, 480)));
    assert!(window.should_close());
}

#[test]
fn update_without_events_only_ends_the_frame() {
    let (mut window, mut gpu) = window();
    window.update(&mut gpu, &[]);
    window.update(&mut gpu, &[]);
    assert_eq!(
        gpu.take_commands(),
        vec![
            Command::PollEvents,
            Command::SwapBuffers,
            Command::PollEvents,
            Command::SwapBuffers,
        ]
    );
    assert!(!window.should_close());
}

#[test]
fn process_events_takes_the_events_and_leaves_the_frame_open() {
    let (mut window, mut gpu) = window();
    window.process_events(
        &mut gpu,
        &[TOGGLE, Event::FramebufferSize { width: 320, height: 200 }, Event::Close, TOGGLE],
    );
    assert_eq!(
        gpu.take_commands(),
        vec![
            Command::TogglePolygonMode,
            Command::Viewport { width: 320, height: 200 },
            Command::TogglePolygonMode,
        ]
    );
    assert!(window.should_close());
    assert_eq!(gpu.polygon_mode(), PolygonMode::Fill);
    window.process_events(&mut gpu, &[]);
    assert!(gpu.take_commands().is_empty());
    assert!(window.should_close());
}
