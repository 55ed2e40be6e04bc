use vstd::prelude::*;
use crate::error::FatalSetupError;
use crate::graphics::command::{Command, CommandView};
use crate::graphics::context::Context;
use crate::graphics::model::{lemma_apply_all_joined, lemma_apply_all_single, GpuModel};

verus! {

/// A key of the keyboard, as far as the window tells keys apart.
#[derive(Clone, Copy, Debug, PartialEq, Eq, Structural)]
pub enum Key {
    /// The key that closes the window.
    Escape,
    /// The key that switches between filled faces and wireframe.
    L,
    /// Any other key.
    Other,
}

/// What happened to a key.
#[derive(Clone, Copy, Debug, PartialEq, Eq, Structural)]
pub enum Action {
    Release,
    Press,
    /// The key is held down, and the keyboard repeats it.
    Repeat,
}

/// One piece of input that the window has received.
#[derive(Clone, Copy, Debug, PartialEq, Eq, Structural)]
pub enum Event {
    /// The framebuffer has a new size, in pixels.
    FramebufferSize { width: i32, height: i32 },
    /// Something happened to a key.
    Key { key: Key, action: Action },
    /// The user asked the window to close.
    Close,
    /// Anything else.
    Other,
}

impl Event {
    /// Whether the event asks the window to close: the press of the escape
    /// key does, and the request to close.
    pub open spec fn closes(self) -> bool {
        self == (Event::Key { key: Key::Escape, action: Action::Press }) || self == Event::Close
    }

    /// The command that the event calls for, if it calls for one. A new
    /// size of the framebuffer makes the drawing rectangle follow; the press
    /// of the escape key marks the window as due to close; the press of the
    /// wireframe key switches the rasterization mode. Nothing else calls for
    /// a command.
    pub open spec fn command(self) -> Option<CommandView> {
        match self {
            Event::FramebufferSize { width, height } => Some(
                CommandView::Viewport { width, height },
            ),
            Event::Key { key: Key::Escape, action: Action::Press } => Some(
                CommandView::CloseWindow,
            ),
            Event::Key { key: Key::L, action: Action::Press } => Some(
                CommandView::TogglePolygonMode,
            ),
            _ => None,
        }
    }

    /// The commands that the event calls for: one or none.
    pub open spec fn reaction(self) -> Seq<CommandView> {
        match self.command() {
            Some(command) => seq![command],
            None => Seq::empty(),
        }
    }
}

/// Whether an event of `events` asks the window to close.
pub open spec fn any_closes(events: Seq<Event>) -> bool {
    exists|i: int| 0 <= i < events.len() && (#[trigger] events[i]).closes()
}

/// The commands that the events of `events` call for, in order.
pub open spec fn reactions(events: Seq<Event>) -> Seq<CommandView>
    decreases events.len(),
{
    if events.len() == 0 {
        Seq::empty()
    } else {
        reactions(events.drop_last()) + events.last().reaction()
    }
}

/// The commands that end a frame: collect new input, then present what was
/// drawn.
pub open spec fn frame_end() -> Seq<CommandView> {
    seq![CommandView::PollEvents, CommandView::SwapBuffers]
}

/// The mathematical value of a [`Window`].
pub struct WindowView {
    /// The width that the window was opened with.
    pub width: u32,
    /// The height that the window was opened with.
    pub height: u32,
    /// The title that the window was opened with.
    pub title: Seq<char>,
    /// Whether the graphics interface has been loaded.
    pub graphics_loaded: bool,
    /// Whether the window is due to close.
    pub should_close: bool,
}

impl WindowView {
    /// The window after `event`: due to close if it was, or if the event asks
    /// for it; all else as it was.
    pub open spec fn after(self, event: Event) -> WindowView {
        WindowView { should_close: self.should_close || event.closes(), ..self }
    }

    /// The window after the events of `events`, in order.
    pub open spec fn after_all(self, events: Seq<Event>) -> WindowView
        decreases events.len(),
    {
        if events.len() == 0 {
            self
        } else {
            self.after_all(events.drop_last()).after(events.last())
        }
    }
}

/// A window with a rendering context, as far as this library decides about
/// it: what it was opened with, whether the graphics interface is loaded,
/// and whether it is due to close.
#[derive(Debug)]
pub struct Window {
    width: u32,
    height: u32,
    title: String,
    graphics_loaded: bool,
    should_close: bool,
}

impl View for Window {
    type V = WindowView;

    closed spec fn view(&self) -> WindowView {
        WindowView {
            width: self.width,
            height: self.height,
            title: self.title@,
            graphics_loaded: self.graphics_loaded,
            should_close: self.should_close,
        }
    }
}

impl Window {
    /// The state of a window of the given size and title. `opened` says
    /// whether the window and its rendering context could be created; that
    /// they could not is a fatal error.
    ///
    /// A new window is not due to close, and its graphics interface is not
    /// loaded.
    pub fn new(width: u32, height: u32, title: String, opened: bool) -> (made: Result<
        Window,
        FatalSetupError,
    >)
        ensures
            made is Ok <==> opened,
            made matches Ok(window) ==> window@ == (WindowView {
                width,
                height,
                title: title@,
                graphics_loaded: false,
                should_close: false,
            }),
            made matches Err(error) ==> error == FatalSetupError::WindowCreation,
    {
        if !opened {
            return Err(FatalSetupError::WindowCreation);
        }
        Ok(Window { width, height, title, graphics_loaded: false, should_close: false })
    }

    /// The width that the window was opened with.
    pub fn width(&self) -> (width: u32)
        ensures
            width == self@.width,
    {
        self.width
    }

    /// The height that the window was opened with.
    pub fn height(&self) -> (height: u32)
        ensures
            height == self@.height,
    {
        self.height
    }

    /// The title that the window was opened with.
    pub fn title(&self) -> (title: &str)
        ensures
            title@ == self@.title,
    {
        self.title.as_str()
    }

    /// Whether the graphics interface has been loaded.
    pub fn graphics_loaded(&self) -> (loaded: bool)
        ensures
            loaded == self@.graphics_loaded,
    {
        self.graphics_loaded
    }

    /// Notes that the graphics interface is loaded, and hands out the
    /// context in which GPU objects are made: one in which nothing has
    /// happened yet.
    ///
    /// The interface is loaded once.
    pub fn init_gl(&mut self) -> (gpu: Context)
        requires
            !old(self)@.graphics_loaded,
        ensures
            final(self)@ == (WindowView { graphics_loaded: true, ..old(self)@ }),
            gpu.model() == GpuModel::initial(),
            gpu.pending() == Seq::<CommandView>::empty(),
    {
        self.graphics_loaded = true;
        Context::new()
    }

    /// Whether the window is due to close. Once it is, it stays so.
    pub fn should_close(&self) -> (closing: bool)
        ensures
            closing == self@.should_close,
    {
        self.should_close
    }

    /// Takes one event: the window becomes due to close if the event asks
    /// for it, and the commands that the event calls for are recorded.
    pub fn process_event(&mut self, gpu: &mut Context, event: Event)
        ensures
            final(self)@ == old(self)@.after(event),
            final(gpu).model() == match event.command() {
                Some(command) => old(gpu).model().apply(command),
                None => old(gpu).model(),
            },
            final(gpu).pending() == old(gpu).pending() + event.reaction(),
    {
        match event {
            Event::FramebufferSize { width, height } => {
                gpu.record(Command::Viewport { width, height });
            },
            Event::Key { key: Key::Escape, action: Action::Press } => {
                self.should_close = true;
                gpu.record(Command::CloseWindow);
            },
            Event::Key { key: Key::L, action: Action::Press } => {
                gpu.record(Command::TogglePolygonMode);
            },
            Event::Close => {
                self.should_close = true;
            },
            _ => {},
        }
        assert(gpu.pending() =~= old(gpu).pending() + event.reaction());
    }

    /// Takes the events of `events` in order, each as
    /// [`process_event`](Window::process_event) takes it.
    pub fn process_events(&mut self, gpu: &mut Context, events: &[Event])
        ensures
            final(self)@ == old(self)@.after_all(events@),
            final(self)@.should_close == (old(self)@.should_close || any_closes(events@)),
            final(gpu).model() == old(gpu).model().apply_all(reactions(events@)),
            final(gpu).pending() == old(gpu).pending() + reactions(events@),
    {
        let mut i: usize = 0;
        proof {
            assert(events@.take(0) =~= Seq::<Event>::empty());
            assert(gpu.pending() =~= old(gpu).pending() + reactions(events@.take(0)));
        }
        while i < events.len()
            invariant
                i <= events@.len(),
                self@ == old(self)@.after_all(events@.take(i as int)),
                gpu.model() == old(gpu).model().apply_all(reactions(events@.take(i as int))),
                gpu.pending() == old(gpu).pending() + reactions(events@.take(i as int)),
            decreases events@.len() - i,
        {
            let ghost done = events@.take(i as int);
            let ghost more = events@.take(i + 1);
            proof {
                assert(more.drop_last() =~= done);
                assert(more.last() == events@[i as int]);
                lemma_apply_all_joined(
                    old(gpu).model(),
                    reactions(done),
                    events@[i as int].reaction(),
                );
                if let Some(command) = events@[i as int].command() {
                    lemma_apply_all_single(gpu.model(), command);
                }
            }
            self.process_event(gpu, events[i]);
            assert(gpu.pending() =~= old(gpu).pending() + reactions(more));
            i += 1;
        }
        proof {
            assert(events@.take(i as int) =~= events@);
            lemma_closing_follows_events(old(self)@, events@);
        }
    }

    /// Ends a frame. The events of `events`, which arrived since the frame
    /// before, are taken as [`process_events`](Window::process_events) takes
    /// them; then the commands that collect new input and present the frame
    /// are recorded.
    pub fn update(&mut self, gpu: &mut Context, events: &[Event])
        ensures
            final(self)@ == old(self)@.after_all(events@),
            final(self)@.should_close == (old(self)@.should_close || any_closes(events@)),
            final(gpu).model() == old(gpu).model().apply_all(reactions(events@)),
            final(gpu).pending() == old(gpu).pending() + reactions(events@) + frame_end(),
    {
        self.process_events(gpu, events);
        gpu.record(Command::PollEvents);
        gpu.record(Command::SwapBuffers);
        assert(gpu.pending() =~= old(gpu).pending() + reactions(events@) + frame_end());
    }
}

/// Events change nothing of a window but whether it is due to close; and it
/// is due to close after them if it was before, or if one of them asks for
/// it.
pub proof fn lemma_closing_follows_events(window: WindowView, events: Seq<Event>)
    ensures
        window.after_all(events) == (WindowView {
            should_close: window.should_close || any_closes(events),
            ..window
        }),
    decreases events.len(),
{
    if events.len() == 0 {
    } else {
        let front = events.drop_last();
        lemma_closing_follows_events(window, front);
        if any_closes(front) {
            let i = choose|i: int| 0 <= i < front.len() && (#[trigger] front[i]).closes();
            assert(events[i].closes());
        }
        if events.last().closes() {
            assert(events[events.len() - 1].closes());
        }
        if any_closes(events) {
            let i = choose|i: int| 0 <= i < events.len() && (#[trigger] events[i]).closes();
            if i < front.len() {
                assert(front[i].closes());
            }
        }
    }
}

/// A window that is due to close stays so, whatever events follow; and the
/// press of the escape key among the events makes it so.
pub proof fn lemma_close_is_final(window: WindowView, events: Seq<Event>, later: Seq<Event>)
    ensures
        window.should_close ==> window.after_all(events).should_close,
        any_closes(events) ==> window.after_all(events).should_close,
        window.after_all(events).should_close ==> window.after_all(events).after_all(
            later,
        ).should_close,
        events.contains(Event::Key { key: Key::Escape, action: Action::Press })
            ==> window.after_all(events).should_close,
{
    lemma_closing_follows_events(window, events);
    lemma_closing_follows_events(window.after_all(events), later);
    let escape = Event::Key { key: Key::Escape, action: Action::Press };
    if events.contains(escape) {
        let i = choose|i: int| 0 <= i < events.len() && events[i] == escape;
        assert(events[i].closes());
    }
}

} // verus!
