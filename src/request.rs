//! What a window asks of the windowing system, in plain values: the title,
//! the visibility, the size bounds and the fullscreen mode, and how a
//! configuration's fullscreen code and the monitors found resolve to a mode.
use crate::config::{DisplayConfig, Tuple};
use vstd::prelude::*;

verus! {

/// Why a window cannot be built.
#[derive(PartialEq, Eq, Structural, Clone, Copy, Debug)]
pub enum BuildError {
    /// The fullscreen code is none of `0`, `1`, `2`.
    UnknownFullscreen { code: u8 },
    /// Fullscreen was asked for and no monitor was found.
    NoMonitor,
    /// Exclusive fullscreen was asked for and the monitor lists no video mode.
    NoVideoMode,
    /// The window has no native surface handle for the running platform.
    NoNativeHandle,
}

/// The fullscreen mode that a fullscreen code asks for.
#[derive(PartialEq, Eq, Structural, Clone, Copy, Debug)]
pub enum FullscreenMode {
    /// An ordinary window.
    Windowed,
    /// Exclusive fullscreen, in the first video mode of the first monitor.
    Exclusive,
    /// Borderless fullscreen on the first monitor.
    Borderless,
}

/// A fullscreen request with what it was resolved on: a video mode `V` for
/// exclusive fullscreen, a monitor `M` for borderless fullscreen.
#[derive(PartialEq, Eq, Clone, Copy, Debug)]
pub enum FullscreenChoice<M, V> {
    Exclusive(V),
    Borderless(M),
}

/// The mode that a fullscreen code stands for, where it stands for one.
pub open spec fn mode_of_code(code: u8) -> Option<FullscreenMode> {
    if code == 0 {
        Some(FullscreenMode::Windowed)
    } else if code == 1 {
        Some(FullscreenMode::Exclusive)
    } else if code == 2 {
        Some(FullscreenMode::Borderless)
    } else {
        None
    }
}

/// How resolving a fullscreen code ends, given whether a first monitor and a
/// first video mode of it were found.
pub open spec fn fullscreen_outcome(code: u8, has_monitor: bool, has_mode: bool) -> Result<
    FullscreenMode,
    BuildError,
> {
    match mode_of_code(code) {
        None => Err(BuildError::UnknownFullscreen { code }),
        Some(FullscreenMode::Windowed) => Ok(FullscreenMode::Windowed),
        Some(FullscreenMode::Exclusive) => if !has_monitor {
            Err(BuildError::NoMonitor)
        } else if !has_mode {
            Err(BuildError::NoVideoMode)
        } else {
            Ok(FullscreenMode::Exclusive)
        },
        Some(FullscreenMode::Borderless) => if !has_monitor {
            Err(BuildError::NoMonitor)
        } else {
            Ok(FullscreenMode::Borderless)
        },
    }
}

/// The mode of a choice.
pub open spec fn mode_of_choice<M, V>(c: Option<FullscreenChoice<M, V>>) -> FullscreenMode {
    match c {
        None => FullscreenMode::Windowed,
        Some(FullscreenChoice::Exclusive(_)) => FullscreenMode::Exclusive,
        Some(FullscreenChoice::Borderless(_)) => FullscreenMode::Borderless,
    }
}

/// Reads a fullscreen code: `0` windowed, `1` exclusive, `2` borderless.
pub fn fullscreen_mode(code: u8) -> (r: Result<FullscreenMode, BuildError>)
    ensures
        match mode_of_code(code) {
            Some(m) => r == Ok::<FullscreenMode, BuildError>(m),
            None => r == Err::<FullscreenMode, BuildError>(BuildError::UnknownFullscreen { code }),
        },
{
    match code {
        0 => Ok(FullscreenMode::Windowed),
        1 => Ok(FullscreenMode::Exclusive),
        2 => Ok(FullscreenMode::Borderless),
        _ => Err(BuildError::UnknownFullscreen { code }),
    }
}

/// Whether resolving the code needs the first monitor.
pub fn needs_monitor(code: u8) -> (r: bool)
    ensures
        r <==> (code == 1 || code == 2),
{
    code == 1 || code == 2
}

/// Whether resolving the code needs a video mode of the first monitor.
pub fn needs_video_mode(code: u8) -> (r: bool)
    ensures
        r <==> code == 1,
{
    code == 1
}

/// Resolves a fullscreen code on the first monitor found and the first video
/// mode found on it (`None` where there was none, or where none was looked for).
///
/// Code `0` asks for no fullscreen; `1` for exclusive fullscreen in `mode`,
/// which needs both a monitor and a mode; `2` for borderless fullscreen on
/// `monitor`. Any other code is refused.
pub fn select_fullscreen<M, V>(code: u8, monitor: Option<M>, mode: Option<V>) -> (r: Result<
    Option<FullscreenChoice<M, V>>,
    BuildError,
>)
    ensures
        r is Ok <==> fullscreen_outcome(code, monitor is Some, mode is Some) is Ok,
        r is Ok ==> mode_of_choice(r->Ok_0) == fullscreen_outcome(
            code,
            monitor is Some,
            mode is Some,
        )->Ok_0,
        r is Err ==> r->Err_0 == fullscreen_outcome(code, monitor is Some, mode is Some)->Err_0,
        code == 0 ==> r == Ok::<Option<FullscreenChoice<M, V>>, BuildError>(None),
        code == 1 && monitor is Some && mode is Some ==> r == Ok::<
            Option<FullscreenChoice<M, V>>,
            BuildError,
        >(Some(FullscreenChoice::Exclusive(mode->Some_0))),
        code == 2 && monitor is Some ==> r == Ok::<Option<FullscreenChoice<M, V>>, BuildError>(
            Some(FullscreenChoice::Borderless(monitor->Some_0)),
        ),
{
    match fullscreen_mode(code) {
        Err(e) => Err(e),
        Ok(FullscreenMode::Windowed) => Ok(None),
        Ok(FullscreenMode::Exclusive) => match monitor {
            None => Err(BuildError::NoMonitor),
            Some(_) => match mode {
                None => Err(BuildError::NoVideoMode),
                Some(v) => Ok(Some(FullscreenChoice::Exclusive(v))),
            },
        },
        Ok(FullscreenMode::Borderless) => match monitor {
            None => Err(BuildError::NoMonitor),
            Some(m) => Ok(Some(FullscreenChoice::Borderless(m))),
        },
    }
}

/// The title used where the configured one cannot be read as text.
pub open spec fn fallback_title_spec() -> Seq<char> {
    seq!['窗', '口', 'T', 'i', 't', 'l', 'e', '设', '置', '失', '败']
}

/// The title a window gets from a configured one.
pub open spec fn title_spec(t: Option<Seq<char>>) -> Seq<char> {
    match t {
        Some(s) => s,
        None => fallback_title_spec(),
    }
}

/// The configured title, or a fixed fallback where it could not be read.
pub fn resolve_title(title: &Option<String>) -> (r: String)
    ensures
        r@ == title_spec(
            match title {
                Some(s) => Some(s@),
                None => None,
            },
        ),
{
    match title {
        Some(s) => s.clone(),
        None => {
            proof {
                reveal_strlit("窗口Title设置失败");
            }
            let r = "窗口Title设置失败".to_owned();
            proof {
                assert(r@ =~= fallback_title_spec());
            }
            r
        },
    }
}

/// The settings a window is asked for. `None` leaves a setting to the
/// windowing system's default.
#[derive(Clone, Debug)]
pub struct WindowRequest {
    pub title: Option<String>,
    pub visible: Option<bool>,
    pub inner_size: Option<Tuple>,
    pub min_inner_size: Option<Tuple>,
    pub max_inner_size: Option<Tuple>,
    pub fullscreen: FullscreenMode,
}

impl WindowRequest {
    /// A request that leaves every setting to the windowing system, windowed.
    pub fn new() -> (r: WindowRequest)
        ensures
            r.title is None,
            r.visible is None,
            r.inner_size is None,
            r.min_inner_size is None,
            r.max_inner_size is None,
            r.fullscreen == FullscreenMode::Windowed,
    {
        WindowRequest {
            title: None,
            visible: None,
            inner_size: None,
            min_inner_size: None,
            max_inner_size: None,
            fullscreen: FullscreenMode::Windowed,
        }
    }

    /// The same request with the title set.
    pub fn with_title(self, title: String) -> (r: WindowRequest)
        ensures
            r.title == Some(title),
            r.visible == self.visible,
            r.inner_size == self.inner_size,
            r.min_inner_size == self.min_inner_size,
            r.max_inner_size == self.max_inner_size,
            r.fullscreen == self.fullscreen,
    {
        WindowRequest { title: Some(title), ..self }
    }

    /// The same request with the fullscreen mode set.
    pub fn with_fullscreen(self, mode: FullscreenMode) -> (r: WindowRequest)
        ensures
            r.title == self.title,
            r.visible == self.visible,
            r.inner_size == self.inner_size,
            r.min_inner_size == self.min_inner_size,
            r.max_inner_size == self.max_inner_size,
            r.fullscreen == mode,
    {
        WindowRequest { fullscreen: mode, ..self }
    }

    /// The request with a configuration's title, visibility and size bounds.
    /// A window is visible only where `visibility` is `1`; the three sizes are
    /// taken as they are, with no check of their order. The fullscreen mode
    /// is left as it was: it is resolved against the monitors found.
    pub fn apply_config(self, config: &DisplayConfig) -> (r: WindowRequest)
        ensures
            r.title is Some,
            r.title->Some_0@ == title_spec(
                match config.title {
                    Some(s) => Some(s@),
                    None => None,
                },
            ),
            r.visible == Some(config.visibility == 1),
            r.inner_size == Some(config.dimensions),
            r.min_inner_size == Some(config.min_dimensions),
            r.max_inner_size == Some(config.max_dimensions),
            r.fullscreen == self.fullscreen,
    {
        let title = resolve_title(&config.title);
        WindowRequest {
            title: Some(title),
            visible: Some(config.visibility == 1),
            inner_size: Some(config.dimensions),
            min_inner_size: Some(config.min_dimensions),
            max_inner_size: Some(config.max_dimensions),
            fullscreen: self.fullscreen,
        }
    }
}

/// Resolving a valid fullscreen code succeeds where a monitor was found and,
/// for exclusive fullscreen, a video mode of it.
pub proof fn lemma_valid_code_resolves(code: u8, has_monitor: bool, has_mode: bool)
    requires
        code <= 2,
        code >= 1 ==> has_monitor,
        code == 1 ==> has_mode,
    ensures
        fullscreen_outcome(code, has_monitor, has_mode) == Ok::<FullscreenMode, BuildError>(
            mode_of_code(code)->Some_0,
        ),
{
}

/// Fullscreen without a monitor fails, and so does exclusive fullscreen on a
/// monitor with no video mode.
pub proof fn lemma_missing_monitor_fails(code: u8, has_mode: bool)
    requires
        code == 1 || code == 2,
    ensures
        fullscreen_outcome(code, false, has_mode) == Err::<FullscreenMode, BuildError>(
            BuildError::NoMonitor,
        ),
        code == 1 ==> fullscreen_outcome(code, true, false) == Err::<FullscreenMode, BuildError>(
            BuildError::NoVideoMode,
        ),
{
}

/// A fullscreen code other than `0`, `1`, `2` fails, whatever was found.
pub proof fn lemma_unknown_code_fails(code: u8, has_monitor: bool, has_mode: bool)
    requires
        code > 2,
    ensures
        fullscreen_outcome(code, has_monitor, has_mode) == Err::<FullscreenMode, BuildError>(
            BuildError::UnknownFullscreen { code },
        ),
{
}

} // verus!
