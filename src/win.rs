//! Building a window: the settings of a configuration are set on the
//! windowing system's builder, and a model of that builder in plain values
//! records what each setting did.
use crate::config::{DisplayConfig, Tuple};
use crate::events::Events;
use crate::request::{
    mode_of_choice, mode_of_code, needs_monitor, needs_video_mode, select_fullscreen, title_spec,
    BuildError, FullscreenChoice, FullscreenMode, WindowRequest,
};
use vstd::prelude::*;
use winit::dpi::PhysicalSize;
use winit::event_loop::EventLoop;
use winit::monitor::{MonitorHandle, VideoMode};
use winit::window::{Fullscreen, Window, WindowBuilder};

verus! {

#[verifier::external_type_specification]
#[verifier::external_body]
pub struct ExWindow(Window);

#[verifier::external_type_specification]
#[verifier::external_body]
pub struct ExWindowBuilder(WindowBuilder);

#[verifier::external_type_specification]
#[verifier::external_body]
pub struct ExMonitorHandle(MonitorHandle);

#[verifier::external_type_specification]
#[verifier::external_body]
pub struct ExVideoMode(VideoMode);

/// The attributes set on a window builder, as winit keeps them in
/// `WindowBuilder::window`. `None` is an attribute left at winit's default.
pub struct BuilderModel {
    pub title: Option<Seq<char>>,
    pub visible: Option<bool>,
    pub inner_size: Option<Tuple>,
    pub min_inner_size: Option<Tuple>,
    pub max_inner_size: Option<Tuple>,
    pub fullscreen: Option<FullscreenChoice<MonitorHandle, VideoMode>>,
}

/// A builder with no attribute set.
pub open spec fn empty_model() -> BuilderModel {
    BuilderModel {
        title: None,
        visible: None,
        inner_size: None,
        min_inner_size: None,
        max_inner_size: None,
        fullscreen: None,
    }
}

/// A window of the windowing system.
pub struct Win {
    pub win: Window,
}

/// The settings of a window to build, with the event loop it is built on.
pub struct WinBuilder {
    events: Events,
    inner: WindowBuilder,
    model: Ghost<BuilderModel>,
}

/// Relies on winit's `WindowBuilder::new`: a builder with every attribute at
/// its default.
#[verifier::external_body]
fn new_window_builder(events: Events) -> (r: WinBuilder)
    ensures
        r.model() == empty_model(),
        r.events() == events,
{
    WinBuilder { events, inner: WindowBuilder::new(), model: Ghost(empty_model()) }
}

/// Relies on winit's `WindowBuilder::with_title`: it sets the title alone.
#[verifier::external_body]
fn set_title(b: &mut WinBuilder, title: &String)
    ensures
        final(b).model() == (BuilderModel { title: Some(title@), ..old(b).model() }),
        final(b).events() == old(b).events(),
{
    b.inner = std::mem::take(&mut b.inner).with_title(title.as_str());
}

/// Relies on winit's `WindowBuilder::with_visible`: it sets the visibility alone.
#[verifier::external_body]
fn set_visible(b: &mut WinBuilder, visible: bool)
    ensures
        final(b).model() == (BuilderModel { visible: Some(visible), ..old(b).model() }),
        final(b).events() == old(b).events(),
{
    b.inner = std::mem::take(&mut b.inner).with_visible(visible);
}

/// Relies on winit's `WindowBuilder::with_inner_size`: it sets the size alone,
/// here in physical pixels.
#[verifier::external_body]
fn set_inner_size(b: &mut WinBuilder, size: Tuple)
    ensures
        final(b).model() == (BuilderModel { inner_size: Some(size), ..old(b).model() }),
        final(b).events() == old(b).events(),
{
    b.inner = std::mem::take(&mut b.inner).with_inner_size(PhysicalSize::new(size.v1, size.v2));
}

/// Relies on winit's `WindowBuilder::with_min_inner_size`: it sets the
/// smallest size alone, here in physical pixels.
#[verifier::external_body]
fn set_min_inner_size(b: &mut WinBuilder, size: Tuple)
    ensures
        final(b).model() == (BuilderModel { min_inner_size: Some(size), ..old(b).model() }),
        final(b).events() == old(b).events(),
{
    b.inner = std::mem::take(&mut b.inner).with_min_inner_size(PhysicalSize::new(size.v1, size.v2));
}

/// Relies on winit's `WindowBuilder::with_max_inner_size`: it sets the
/// largest size alone, here in physical pixels.
#[verifier::external_body]
fn set_max_inner_size(b: &mut WinBuilder, size: Tuple)
    ensures
        final(b).model() == (BuilderModel { max_inner_size: Some(size), ..old(b).model() }),
        final(b).events() == old(b).events(),
{
    b.inner = std::mem::take(&mut b.inner).with_max_inner_size(PhysicalSize::new(size.v1, size.v2));
}

/// Relies on winit's `WindowBuilder::with_fullscreen`: it sets the fullscreen
/// attribute alone, to exclusive fullscreen in a video mode or borderless
/// fullscreen on a monitor.
#[verifier::external_body]
fn set_fullscreen(b: &mut WinBuilder, choice: Option<FullscreenChoice<MonitorHandle, VideoMode>>)
    ensures
        final(b).model() == (BuilderModel { fullscreen: choice, ..old(b).model() }),
        final(b).events() == old(b).events(),
{
    let f = match choice {
        None => None,
        Some(FullscreenChoice::Exclusive(mode)) => Some(Fullscreen::Exclusive(mode)),
        Some(FullscreenChoice::Borderless(monitor)) => Some(Fullscreen::Borderless(Some(monitor))),
    };
    b.inner = std::mem::take(&mut b.inner).with_fullscreen(f);
}

/// Relies on winit's `EventLoop::available_monitors`: the first monitor it
/// lists, if any. Which monitors there are depends on the machine.
#[verifier::external_body]
fn first_monitor(event_loop: &EventLoop<()>) -> Option<MonitorHandle> {
    event_loop.available_monitors().next()
}

/// Relies on winit's `MonitorHandle::video_modes`: the first video mode it
/// lists, if any. Which modes there are depends on the monitor.
#[verifier::external_body]
fn first_video_mode(monitor: &MonitorHandle) -> Option<VideoMode> {
    monitor.video_modes().next()
}

impl Win {
    /// A builder on the given event loop, with every attribute at winit's
    /// default.
    pub fn builder(events: Events) -> (r: WinBuilder)
        ensures
            r.model() == empty_model(),
            r.events() == events,
    {
        new_window_builder(events)
    }
}

impl WinBuilder {
    /// The attributes set so far.
    pub closed spec fn model(&self) -> BuilderModel {
        self.model@
    }

    /// The event loop the window will be built on.
    pub closed spec fn events(&self) -> Events {
        self.events
    }

    /// Sets the window's title.
    pub fn title(self, ele: String) -> (r: WinBuilder)
        ensures
            r.model() == (BuilderModel { title: Some(ele@), ..self.model() }),
            r.events() == self.events(),
    {
        let mut b = self;
        set_title(&mut b, &ele);
        b
    }

    /// Sets the visibility and the size bounds of a configuration, resolves
    /// its fullscreen code as `fullscreen` does, then sets its title. A window
    /// is visible only where `visibility` is `1`; the three sizes are set as
    /// they are, with no check of their order; a title that could not be read
    /// gives a fixed fallback title.
    pub fn config(self, config: &DisplayConfig) -> (r: Result<WinBuilder, BuildError>)
        ensures
            r is Ok ==> ({
                let m = r->Ok_0.model();
                &&& m.title == Some(
                    title_spec(
                        match config.title {
                            Some(s) => Some(s@),
                            None => None,
                        },
                    ),
                )
                &&& m.visible == Some(config.visibility == 1)
                &&& m.inner_size == Some(config.dimensions)
                &&& m.min_inner_size == Some(config.min_dimensions)
                &&& m.max_inner_size == Some(config.max_dimensions)
                &&& Some(mode_of_choice(m.fullscreen)) == mode_of_code(config.fullscreen)
            }),
            r is Ok ==> r->Ok_0.events() == self.events(),
            r is Err ==> fullscreen_failure(config.fullscreen, r->Err_0),
            mode_of_code(config.fullscreen) is None ==> r == Err::<WinBuilder, BuildError>(
                BuildError::UnknownFullscreen { code: config.fullscreen },
            ),
            config.fullscreen == 0 ==> r is Ok,
    {
        let req = WindowRequest::new().apply_config(config);
        let mut b = self;
        set_visible(&mut b, config.visibility == 1);
        set_max_inner_size(&mut b, config.max_dimensions);
        set_min_inner_size(&mut b, config.min_dimensions);
        set_inner_size(&mut b, config.dimensions);
        let b = b.fullscreen(config.fullscreen)?;
        match req.title {
            Some(t) => Ok(b.title(t)),
            None => Ok(b),
        }
    }

    /// Sets the fullscreen mode: `0` none, `1` exclusive fullscreen in the
    /// first video mode of the first monitor, `2` borderless fullscreen on the
    /// first monitor. Any other code is refused; so is fullscreen where no
    /// monitor is found, and exclusive fullscreen where it lists no video mode.
    pub fn fullscreen(self, fullscreen: u8) -> (r: Result<WinBuilder, BuildError>)
        ensures
            r is Ok ==> Some(mode_of_choice(r->Ok_0.model().fullscreen)) == mode_of_code(
                fullscreen,
            ),
            r is Ok ==> r->Ok_0.model() == (BuilderModel {
                fullscreen: r->Ok_0.model().fullscreen,
                ..self.model()
            }),
            r is Ok ==> r->Ok_0.events() == self.events(),
            fullscreen == 0 ==> r is Ok && r->Ok_0.model().fullscreen is None,
            r is Err ==> fullscreen_failure(fullscreen, r->Err_0),
            mode_of_code(fullscreen) is None ==> r == Err::<WinBuilder, BuildError>(
                BuildError::UnknownFullscreen { code: fullscreen },
            ),
    {
        let monitor = if needs_monitor(fullscreen) {
            first_monitor(&self.events.events_loop)
        } else {
            None
        };
        let mode = if needs_video_mode(fullscreen) {
            match &monitor {
                Some(m) => first_video_mode(m),
                None => None,
            }
        } else {
            None
        };
        let choice = select_fullscreen(fullscreen, monitor, mode)?;
        let mut b = self;
        set_fullscreen(&mut b, choice);
        Ok(b)
    }

    /// The windowing system's builder and the event loop, to build the window.
    pub fn into_parts(self) -> (r: (WindowBuilder, Events))
        ensures
            r.1 == self.events(),
    {
        (self.inner, self.events)
    }
}

/// The errors that resolving a fullscreen code can end in, whatever monitors
/// the machine has.
pub open spec fn fullscreen_failure(code: u8, e: BuildError) -> bool {
    ||| (code > 2 && e == BuildError::UnknownFullscreen { code })
    ||| ((code == 1 || code == 2) && e == BuildError::NoMonitor)
    ||| (code == 1 && e == BuildError::NoVideoMode)
}

} // verus!
