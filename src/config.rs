//! The configuration: what to rotate, how often, and with which transitions.
//! Every setting is optional; the getters supply the defaults.

use vstd::prelude::*;
use vstd::string::*;

use crate::text::{decimal, decimal_string, join_path, milli_string, milli_text, milli_text_nat,
    path_join, signed_milli_string};
use crate::transition::{filter_name, flavour_name, resize_name, Bezier, FilterMethod,
    ResizeMethod, TransitionFlavour};

verus! {

pub const DEFAULT_BEZIER: Bezier = [400, 0, 600, 1000];
pub const DEFAULT_DURATION: u64 = 1000;
pub const DEFAULT_DYNAMIC_DURATION: bool = true;
pub const DEFAULT_INTERVAL: u64 = 300;
pub const DEFAULT_FILTER: FilterMethod = FilterMethod::Lanczos3;
pub const DEFAULT_RESIZE: ResizeMethod = ResizeMethod::Crop;
pub const DEFAULT_SHUFFLE: bool = true;
pub const DEFAULT_STEP: u8 = 60;
pub const DEFAULT_WAVE_SIZE: (u32, u32, u32, u32) = (70, 80, 35, 40);
pub const FALLBACK_FPS: u32 = 60;
pub const FALLBACK_WIDTH: i32 = 1920;
pub const FALLBACK_HEIGHT: i32 = 1080;

pub open spec fn default_fill() -> Seq<char> {
    "000000"@
}

pub open spec fn default_debug() -> Seq<char> {
    "info"@
}

pub open spec fn default_swww_path() -> Seq<char> {
    "/usr/bin/swww"@
}

pub open spec fn default_wallpaper_dir() -> Seq<char> {
    "Wallpapers"@
}

/// Every style, in the order they are offered by default.
pub open spec fn default_flavours() -> Seq<TransitionFlavour> {
    seq![
        TransitionFlavour::Wipe,
        TransitionFlavour::Wave,
        TransitionFlavour::Grow,
        TransitionFlavour::Outer,
    ]
}

/// How much the daemon logs.
#[derive(Clone, Copy, Debug, PartialEq, Eq, Structural)]
pub enum LogLevel {
    Off,
    Error,
    Warn,
    Info,
    Debug,
    Trace,
}

/// Whether `a` is the lower-case ASCII letter or character `l`, or its upper-case form.
pub open spec fn ascii_fold_eq(a: char, l: char) -> bool {
    a == l || ('a' <= l && l <= 'z' && (a as u32) + 32 == (l as u32))
}

/// Whether `s` spells the lower-case ASCII name `name` in any ASCII letter case.
pub open spec fn names_ignoring_case(s: Seq<char>, name: Seq<char>) -> bool {
    s.len() == name.len() && forall|i: int| 0 <= i < s.len() ==> ascii_fold_eq(#[trigger] s[i], name[i])
}

/// The level that a name stands for, in any ASCII letter case.
pub open spec fn level_named(s: Seq<char>) -> Option<LogLevel> {
    if names_ignoring_case(s, "off"@) {
        Some(LogLevel::Off)
    } else if names_ignoring_case(s, "error"@) {
        Some(LogLevel::Error)
    } else if names_ignoring_case(s, "warn"@) {
        Some(LogLevel::Warn)
    } else if names_ignoring_case(s, "info"@) {
        Some(LogLevel::Info)
    } else if names_ignoring_case(s, "debug"@) {
        Some(LogLevel::Debug)
    } else if names_ignoring_case(s, "trace"@) {
        Some(LogLevel::Trace)
    } else {
        None
    }
}

/// Relies on log::LevelFilter::from_str, which compares the text, ignoring
/// ASCII letter case, with the names OFF, ERROR, WARN, INFO, DEBUG and TRACE
/// in turn, and fails when none matches.
#[verifier::external_body]
fn parse_level(s: &str) -> (r: Option<LogLevel>)
    ensures
        r == level_named(s@),
{
    match <log::LevelFilter as std::str::FromStr>::from_str(s) {
        Ok(log::LevelFilter::Off) => Some(LogLevel::Off),
        Ok(log::LevelFilter::Error) => Some(LogLevel::Error),
        Ok(log::LevelFilter::Warn) => Some(LogLevel::Warn),
        Ok(log::LevelFilter::Info) => Some(LogLevel::Info),
        Ok(log::LevelFilter::Debug) => Some(LogLevel::Debug),
        Ok(log::LevelFilter::Trace) => Some(LogLevel::Trace),
        Err(_) => None,
    }
}

/// The level that a setting names, `info` when it names none.
pub fn level_of_name(s: &str) -> (r: LogLevel)
    ensures
        r == match level_named(s@) { Some(l) => l, None => LogLevel::Info },
{
    match parse_level(s) {
        Some(l) => l,
        None => LogLevel::Info,
    }
}

/// A screen size in pixels.
#[derive(Clone, Copy, Debug, PartialEq, Eq, Structural)]
pub struct Resolution {
    pub width: i32,
    pub height: i32,
}

/// The resolution assumed when none is configured or detected.
pub open spec fn fallback_resolution() -> Resolution {
    Resolution { width: FALLBACK_WIDTH, height: FALLBACK_HEIGHT }
}

/// The `[general]` section.
#[derive(Debug)]
pub struct General {
    pub debug: Option<String>,
    pub interval: Option<u64>,
    pub resolution: Option<Resolution>,
    pub shuffle: Option<bool>,
    pub swww_path: Option<String>,
    pub wallpaper_path: Option<String>,
}

/// The `[transition]` section.
#[derive(Debug)]
pub struct Transition {
    pub bezier: Option<Bezier>,
    /// Milliseconds.
    pub duration: Option<u64>,
    pub dynamic_duration: Option<bool>,
    pub fill: Option<String>,
    pub filter: Option<FilterMethod>,
    pub flavour: Option<Vec<TransitionFlavour>>,
    pub fps: Option<u32>,
    pub resize: Option<ResizeMethod>,
    pub step: Option<u8>,
    /// Least and greatest wave width, then least and greatest wave height.
    pub wave_size: Option<(u32, u32, u32, u32)>,
}

/// The whole configuration.
#[derive(Debug)]
pub struct Config {
    pub general: Option<General>,
    pub transition: Option<Transition>,
}

/// The fill colour that a `[transition]` section (or its absence) gives.
pub open spec fn fill_of(t: Option<Transition>) -> Seq<char> {
    match t {
        Some(t) => text_or(t.fill, default_fill()),
        None => default_fill(),
    }
}

pub open spec fn filter_of(t: Option<Transition>) -> FilterMethod {
    match t {
        Some(t) => match t.filter { Some(v) => v, None => DEFAULT_FILTER },
        None => DEFAULT_FILTER,
    }
}

pub open spec fn fps_of(t: Option<Transition>) -> u32 {
    match t {
        Some(t) => match t.fps { Some(v) => v, None => FALLBACK_FPS },
        None => FALLBACK_FPS,
    }
}

pub open spec fn resize_of(t: Option<Transition>) -> ResizeMethod {
    match t {
        Some(t) => match t.resize { Some(v) => v, None => DEFAULT_RESIZE },
        None => DEFAULT_RESIZE,
    }
}

pub open spec fn step_of(t: Option<Transition>) -> u8 {
    match t {
        Some(t) => match t.step { Some(v) => v, None => DEFAULT_STEP },
        None => DEFAULT_STEP,
    }
}

pub open spec fn bezier_of(t: Option<Transition>) -> Bezier {
    match t {
        Some(t) => match t.bezier { Some(v) => v, None => DEFAULT_BEZIER },
        None => DEFAULT_BEZIER,
    }
}

pub open spec fn dynamic_of(t: Option<Transition>) -> bool {
    match t {
        Some(t) => match t.dynamic_duration { Some(v) => v, None => DEFAULT_DYNAMIC_DURATION },
        None => DEFAULT_DYNAMIC_DURATION,
    }
}

pub open spec fn duration_of(t: Option<Transition>) -> u64 {
    match t {
        Some(t) => match t.duration { Some(v) => v, None => DEFAULT_DURATION },
        None => DEFAULT_DURATION,
    }
}

/// The configured wave bounds: least and greatest width, least and greatest height.
pub open spec fn wave_bounds(t: Option<Transition>) -> (u32, u32, u32, u32) {
    match t {
        Some(t) => match t.wave_size { Some(v) => v, None => DEFAULT_WAVE_SIZE },
        None => DEFAULT_WAVE_SIZE,
    }
}

/// The styles to draw from: the configured ones, or every style when the
/// list is missing or empty.
pub open spec fn offered_flavours(t: Option<Transition>) -> Seq<TransitionFlavour> {
    match t {
        Some(t) => match t.flavour {
            Some(v) => if v@.len() > 0 { v@ } else { default_flavours() },
            None => default_flavours(),
        },
        None => default_flavours(),
    }
}

/// The text of an optional setting, or the given default.
pub open spec fn text_or(v: Option<String>, d: Seq<char>) -> Seq<char> {
    match v {
        Some(s) => s@,
        None => d,
    }
}

fn text_or_default(v: &Option<String>, d: &str) -> (r: String)
    ensures
        r@ == text_or(*v, d@),
{
    match v {
        Some(s) => s.clone(),
        None => String::from_str(d),
    }
}

impl General {
    /// The defaults, with the wallpapers in `Wallpapers` under the given
    /// pictures directory and no resolution.
    pub fn defaults(pictures_dir: &str) -> (r: General)
        ensures
            r.debug matches Some(d) && d@ == default_debug(),
            r.interval == Some(DEFAULT_INTERVAL),
            r.resolution is None,
            r.shuffle == Some(DEFAULT_SHUFFLE),
            r.swww_path matches Some(p) && p@ == default_swww_path(),
            r.wallpaper_path matches Some(p) && p@ == path_join(pictures_dir@, default_wallpaper_dir()),
    {
        General {
            debug: Some(String::from_str("info")),
            interval: Some(DEFAULT_INTERVAL),
            resolution: None,
            shuffle: Some(DEFAULT_SHUFFLE),
            swww_path: Some(String::from_str("/usr/bin/swww")),
            wallpaper_path: Some(join_path(pictures_dir, "Wallpapers")),
        }
    }

    /// The configured log level (`info` when unset); a name that is no level
    /// gives `info` too.
    pub fn debug(&self) -> (r: LogLevel)
        ensures
            r == match level_named(text_or(self.debug, default_debug())) {
                Some(l) => l,
                None => LogLevel::Info,
            },
    {
        let name = text_or_default(&self.debug, "info");
        level_of_name(name.as_str())
    }

    /// Seconds between rotations.
    pub fn interval(&self) -> (r: u64)
        ensures
            r == match self.interval { Some(v) => v, None => DEFAULT_INTERVAL },
    {
        match self.interval {
            Some(v) => v,
            None => DEFAULT_INTERVAL,
        }
    }

    pub fn resolution(&self) -> (r: Resolution)
        ensures
            r == match self.resolution { Some(v) => v, None => fallback_resolution() },
    {
        match self.resolution {
            Some(v) => v,
            None => Resolution { width: FALLBACK_WIDTH, height: FALLBACK_HEIGHT },
        }
    }

    pub fn shuffle(&self) -> (r: bool)
        ensures
            r == match self.shuffle { Some(v) => v, None => DEFAULT_SHUFFLE },
    {
        match self.shuffle {
            Some(v) => v,
            None => DEFAULT_SHUFFLE,
        }
    }

    /// The wallpaper setter's executable.
    pub fn swww_path(&self) -> (r: String)
        ensures
            r@ == text_or(self.swww_path, default_swww_path()),
    {
        text_or_default(&self.swww_path, "/usr/bin/swww")
    }

    /// The root of the wallpaper tree; empty when not configured.
    pub fn wallpaper_path(&self) -> (r: String)
        ensures
            r@ == text_or(self.wallpaper_path, Seq::empty()),
    {
        proof {
            reveal_strlit("");
        }
        let r = text_or_default(&self.wallpaper_path, "");
        assert(""@ =~= Seq::<char>::empty());
        r
    }
}

impl Transition {
    /// Every setting at its default, with no frame rate.
    pub fn defaults() -> (r: Transition)
        ensures
            r.bezier == Some(DEFAULT_BEZIER),
            r.duration == Some(DEFAULT_DURATION),
            r.dynamic_duration == Some(DEFAULT_DYNAMIC_DURATION),
            r.fill matches Some(f) && f@ == default_fill(),
            r.filter == Some(DEFAULT_FILTER),
            r.flavour matches Some(fs) && fs@ == default_flavours(),
            r.fps is None,
            r.resize == Some(DEFAULT_RESIZE),
            r.step == Some(DEFAULT_STEP),
            r.wave_size == Some(DEFAULT_WAVE_SIZE),
    {
        let mut flavours: Vec<TransitionFlavour> = Vec::new();
        flavours.push(TransitionFlavour::Wipe);
        flavours.push(TransitionFlavour::Wave);
        flavours.push(TransitionFlavour::Grow);
        flavours.push(TransitionFlavour::Outer);
        assert(flavours@ =~= default_flavours());
        Transition {
            bezier: Some(DEFAULT_BEZIER),
            duration: Some(DEFAULT_DURATION),
            dynamic_duration: Some(DEFAULT_DYNAMIC_DURATION),
            fill: Some(String::from_str("000000")),
            filter: Some(DEFAULT_FILTER),
            flavour: Some(flavours),
            fps: None,
            resize: Some(DEFAULT_RESIZE),
            step: Some(DEFAULT_STEP),
            wave_size: Some(DEFAULT_WAVE_SIZE),
        }
    }

    pub fn bezier(&self) -> (r: Bezier)
        ensures
            r == match self.bezier { Some(v) => v, None => DEFAULT_BEZIER },
    {
        match self.bezier {
            Some(v) => v,
            None => DEFAULT_BEZIER,
        }
    }

    /// Milliseconds.
    pub fn duration(&self) -> (r: u64)
        ensures
            r == match self.duration { Some(v) => v, None => DEFAULT_DURATION },
    {
        match self.duration {
            Some(v) => v,
            None => DEFAULT_DURATION,
        }
    }

    pub fn dynamic_duration(&self) -> (r: bool)
        ensures
            r == match self.dynamic_duration { Some(v) => v, None => DEFAULT_DYNAMIC_DURATION },
    {
        match self.dynamic_duration {
            Some(v) => v,
            None => DEFAULT_DYNAMIC_DURATION,
        }
    }

    pub fn fill(&self) -> (r: String)
        ensures
            r@ == text_or(self.fill, default_fill()),
    {
        text_or_default(&self.fill, "000000")
    }

    pub fn filter(&self) -> (r: FilterMethod)
        ensures
            r == match self.filter { Some(v) => v, None => DEFAULT_FILTER },
    {
        match self.filter {
            Some(v) => v,
            None => DEFAULT_FILTER,
        }
    }

    /// The configured styles, or every style when none are configured.
    pub fn flavour(&self) -> (r: Vec<TransitionFlavour>)
        ensures
            r@ == match self.flavour { Some(v) => v@, None => default_flavours() },
    {
        match &self.flavour {
            Some(v) => {
                let mut out: Vec<TransitionFlavour> = Vec::new();
                let mut i: usize = 0;
                while i < v.len()
                    invariant
                        i <= v@.len(),
                        out@ == v@.subrange(0, i as int),
                    decreases v@.len() - i,
                {
                    out.push(v[i]);
                    i = i + 1;
                    assert(out@ =~= v@.subrange(0, i as int));
                }
                assert(v@.subrange(0, v@.len() as int) =~= v@);
                out
            },
            None => {
                let mut flavours: Vec<TransitionFlavour> = Vec::new();
                flavours.push(TransitionFlavour::Wipe);
                flavours.push(TransitionFlavour::Wave);
                flavours.push(TransitionFlavour::Grow);
                flavours.push(TransitionFlavour::Outer);
                assert(flavours@ =~= default_flavours());
                flavours
            },
        }
    }

    pub fn fps(&self) -> (r: u32)
        ensures
            r == match self.fps { Some(v) => v, None => FALLBACK_FPS },
    {
        match self.fps {
            Some(v) => v,
            None => FALLBACK_FPS,
        }
    }

    pub fn resize(&self) -> (r: ResizeMethod)
        ensures
            r == match self.resize { Some(v) => v, None => DEFAULT_RESIZE },
    {
        match self.resize {
            Some(v) => v,
            None => DEFAULT_RESIZE,
        }
    }

    pub fn step(&self) -> (r: u8)
        ensures
            r == match self.step { Some(v) => v, None => DEFAULT_STEP },
    {
        match self.step {
            Some(v) => v,
            None => DEFAULT_STEP,
        }
    }

    pub fn wave_size(&self) -> (r: (u32, u32, u32, u32))
        ensures
            r == match self.wave_size { Some(v) => v, None => DEFAULT_WAVE_SIZE },
    {
        match self.wave_size {
            Some(v) => v,
            None => DEFAULT_WAVE_SIZE,
        }
    }
}

impl Config {
    /// Both sections at their defaults (see `General::defaults`).
    pub fn defaults(pictures_dir: &str) -> (r: Config)
        ensures
            r.general matches Some(g) && g.resolution is None && (g.wallpaper_path matches Some(
                p,
            ) && p@ == path_join(pictures_dir@, default_wallpaper_dir())),
            r.transition matches Some(t) && t.fps is None,
    {
        Config { general: Some(General::defaults(pictures_dir)), transition: Some(Transition::defaults()) }
    }

    /// Fills in what the file left open about the display: the resolution in
    /// `[general]` and the frame rate in `[transition]`, from the detected (or
    /// fallback) values. A missing section is added at its defaults.
    pub fn complete(&mut self, fps: u32, res: Resolution, pictures_dir: &str)
        ensures
            final(self).general matches Some(g) && g.resolution == Some(match old(self).general {
                Some(og) => match og.resolution { Some(v) => v, None => res },
                None => res,
            }),
            final(self).transition matches Some(t) && t.fps == Some(match old(self).transition {
                Some(ot) => match ot.fps { Some(v) => v, None => fps },
                None => fps,
            }),
            old(self).general is Some ==> final(self).general == old(self).general->0.with_resolution_spec(res),
            old(self).transition is Some ==> final(self).transition == old(self).transition->0.with_fps_spec(fps),
    {
        match &mut self.general {
            Some(g) => {
                if g.resolution.is_none() {
                    g.resolution = Some(res);
                }
            },
            None => {
                let mut g = General::defaults(pictures_dir);
                g.resolution = Some(res);
                self.general = Some(g);
            },
        }
        match &mut self.transition {
            Some(t) => {
                if t.fps.is_none() {
                    t.fps = Some(fps);
                }
            },
            None => {
                let mut t = Transition::defaults();
                t.fps = Some(fps);
                self.transition = Some(t);
            },
        }
    }
}

impl General {
    /// This section with its resolution set to `res` where it was not set.
    pub open spec fn with_resolution_spec(self, res: Resolution) -> Option<General> {
        Some(General { resolution: Some(match self.resolution { Some(v) => v, None => res }), ..self })
    }
}

impl Transition {
    /// This section with its frame rate set to `fps` where it was not set.
    pub open spec fn with_fps_spec(self, fps: u32) -> Option<Transition> {
        Some(Transition { fps: Some(match self.fps { Some(v) => v, None => fps }), ..self })
    }
}

impl Config {
    /// Seconds between rotations.
    pub open spec fn interval_spec(&self) -> u64 {
        match self.general {
            Some(g) => match g.interval { Some(v) => v, None => DEFAULT_INTERVAL },
            None => DEFAULT_INTERVAL,
        }
    }

    /// Whether the queue starts in random order.
    pub open spec fn shuffle_spec(&self) -> bool {
        match self.general {
            Some(g) => match g.shuffle { Some(v) => v, None => DEFAULT_SHUFFLE },
            None => DEFAULT_SHUFFLE,
        }
    }

    /// The root of the wallpaper tree; empty when not configured.
    pub open spec fn wallpaper_path_spec(&self) -> Seq<char> {
        match self.general {
            Some(g) => text_or(g.wallpaper_path, Seq::empty()),
            None => Seq::empty(),
        }
    }

    pub fn interval(&self) -> (r: u64)
        ensures
            r == self.interval_spec(),
    {
        match &self.general {
            Some(g) => g.interval(),
            None => DEFAULT_INTERVAL,
        }
    }

    pub fn shuffle(&self) -> (r: bool)
        ensures
            r == self.shuffle_spec(),
    {
        match &self.general {
            Some(g) => g.shuffle(),
            None => DEFAULT_SHUFFLE,
        }
    }

    pub fn wallpaper_path(&self) -> (r: String)
        ensures
            r@ == self.wallpaper_path_spec(),
    {
        match &self.general {
            Some(g) => g.wallpaper_path(),
            None => {
                proof {
                    reveal_strlit("");
                }
                let r = String::from_str("");
                assert(r@ =~= Seq::<char>::empty());
                r
            },
        }
    }

    /// The wallpaper setter's executable.
    pub fn swww_path(&self) -> (r: String)
        ensures
            r@ == match self.general {
                Some(g) => text_or(g.swww_path, default_swww_path()),
                None => default_swww_path(),
            },
    {
        match &self.general {
            Some(g) => g.swww_path(),
            None => String::from_str("/usr/bin/swww"),
        }
    }

    /// The screen size used to scale durations.
    pub fn resolution(&self) -> (r: Resolution)
        ensures
            r == match self.general {
                Some(g) => match g.resolution { Some(v) => v, None => fallback_resolution() },
                None => fallback_resolution(),
            },
    {
        match &self.general {
            Some(g) => g.resolution(),
            None => Resolution { width: FALLBACK_WIDTH, height: FALLBACK_HEIGHT },
        }
    }

    /// The configured log level, as `General::debug` gives it.
    pub fn debug(&self) -> (r: LogLevel)
        ensures
            r == match level_named(match self.general {
                Some(g) => text_or(g.debug, default_debug()),
                None => default_debug(),
            }) {
                Some(l) => l,
                None => LogLevel::Info,
            },
    {
        match &self.general {
            Some(g) => g.debug(),
            None => level_of_name("info"),
        }
    }
}

/// What the configuration watcher does about one event on the file.
#[derive(Clone, Copy, Debug, PartialEq, Eq, Structural)]
pub struct WatchReaction {
    /// Send a `Reload` command.
    pub reload: bool,
    /// Watch the path again after a short delay: an editor may have replaced the file.
    pub rearm: bool,
}

/// The delay before the watch on a removed file is armed again, in milliseconds.
pub const REARM_DELAY_MS: u64 = 200;

/// A change or a removal of the file asks for a reload; a removal also asks
/// for the watch to be armed again. Other events are ignored.
pub fn react_to_file_event(is_modify: bool, is_remove: bool) -> (r: WatchReaction)
    ensures
        r.reload == (is_modify || is_remove),
        r.rearm == is_remove,
{
    WatchReaction { reload: is_modify || is_remove, rearm: is_remove }
}

pub open spec fn bool_text(b: bool) -> Seq<char> {
    if b { "true"@ } else { "false"@ }
}

/// A signed integer in decimal.
pub open spec fn int_text(v: int) -> Seq<char> {
    if v < 0 { "-"@ + decimal((-v) as nat) } else { decimal(v as nat) }
}

/// The style names, separated by a comma and a space.
pub open spec fn flavours_text(fs: Seq<TransitionFlavour>) -> Seq<char>
    decreases fs.len(),
{
    if fs.len() == 0 {
        Seq::empty()
    } else if fs.len() == 1 {
        flavour_name(fs[0])
    } else {
        flavours_text(fs.drop_last()) + ", "@ + flavour_name(fs.last())
    }
}

/// The `[general]` section as printed, unset settings as `None`.
pub open spec fn general_text(g: General) -> Seq<char> {
    let res = match g.resolution { Some(v) => v, None => fallback_resolution() };
    "[General]\n"@
        + "debug = "@ + text_or(g.debug, "None"@) + "\n"@
        + "interval = "@ + (match g.interval { Some(v) => decimal(v as nat), None => "None"@ }) + "\n"@
        + "resolution = { width = "@ + int_text(res.width as int) + ", height = "@ + int_text(res.height as int) + " }\n"@
        + "shuffle = "@ + (match g.shuffle { Some(v) => bool_text(v), None => "None"@ }) + "\n"@
        + "swww_path = "@ + text_or(g.swww_path, "None"@) + "\n"@
        + "wallpaper_path = "@ + text_or(g.wallpaper_path, "None"@) + "\n"@
}

/// The `[transition]` section as printed, unset settings as `None` (the
/// bezier curve, styles and wave size at their defaults).
pub open spec fn transition_text(t: Transition) -> Seq<char> {
    let b = match t.bezier { Some(v) => v, None => DEFAULT_BEZIER };
    let w = match t.wave_size { Some(v) => v, None => DEFAULT_WAVE_SIZE };
    let fs = match t.flavour { Some(v) => v@, None => default_flavours() };
    "[Transition]\n"@
        + "bezier = ["@ + milli_text(b[0] as int) + ", "@ + milli_text(b[1] as int) + ", "@ + milli_text(b[2] as int) + ", "@ + milli_text(b[3] as int) + "]\n"@
        + "duration = "@ + (match t.duration { Some(v) => milli_text_nat(v as nat), None => "None"@ }) + "\n"@
        + "dynamic_duration = "@ + (match t.dynamic_duration { Some(v) => bool_text(v), None => "None"@ }) + "\n"@
        + "fill = "@ + text_or(t.fill, "None"@) + "\n"@
        + "filter = "@ + (match t.filter { Some(v) => filter_name(v), None => "None"@ }) + "\n"@
        + "flavour = ["@ + flavours_text(fs) + "]\n"@
        + "fps = "@ + (match t.fps { Some(v) => decimal(v as nat), None => "None"@ }) + "\n"@
        + "step = "@ + (match t.step { Some(v) => decimal(v as nat), None => "None"@ }) + "\n"@
        + "resize = "@ + (match t.resize { Some(v) => resize_name(v), None => "None"@ }) + "\n"@
        + "wave_size = ["@ + decimal(w.0 as nat) + ", "@ + decimal(w.1 as nat) + ", "@ + decimal(w.2 as nat) + ", "@ + decimal(w.3 as nat) + "]\n"@
}

fn bool_string(b: bool) -> (r: String)
    ensures
        r@ == bool_text(b),
{
    if b { String::from_str("true") } else { String::from_str("false") }
}

fn int_string(v: i32) -> (r: String)
    ensures
        r@ == int_text(v as int),
{
    if v < 0 {
        let magnitude: u64 = (0i64 - v as i64) as u64;
        String::from_str("-").concat(decimal_string(magnitude).as_str())
    } else {
        decimal_string(v as u64)
    }
}

fn flavours_string(fs: &Vec<TransitionFlavour>) -> (r: String)
    ensures
        r@ == flavours_text(fs@),
{
    let mut out = String::from_str("");
    proof {
        reveal_strlit("");
    }
    assert(fs@.subrange(0, 0) =~= Seq::<TransitionFlavour>::empty());
    let mut i: usize = 0;
    while i < fs.len()
        invariant
            i <= fs@.len(),
            out@ == flavours_text(fs@.subrange(0, i as int)),
        decreases fs@.len() - i,
    {
        let name = fs[i].to_string();
        let ghost prefix = fs@.subrange(0, i + 1);
        assert(prefix.drop_last() =~= fs@.subrange(0, i as int));
        assert(prefix.last() == fs@[i as int]);
        if i == 0 {
            assert(prefix.len() == 1);
            out = name;
        } else {
            out = out.concat(", ").concat(name.as_str());
        }
        i = i + 1;
    }
    assert(fs@.subrange(0, fs@.len() as int) =~= fs@);
    out
}

fn opt_u64_string(v: Option<u64>) -> (r: String)
    ensures
        r@ == match v { Some(x) => decimal(x as nat), None => "None"@ },
{
    match v {
        Some(x) => decimal_string(x),
        None => String::from_str("None"),
    }
}

fn opt_bool_string(v: Option<bool>) -> (r: String)
    ensures
        r@ == match v { Some(x) => bool_text(x), None => "None"@ },
{
    match v {
        Some(x) => bool_string(x),
        None => String::from_str("None"),
    }
}

impl General {
    /// The section as printed by `Config::describe`.
    pub fn describe(&self) -> (r: String)
        ensures
            r@ == general_text(*self),
    {
        let res = self.resolution();
        String::from_str("[General]\n")
            .concat("debug = ").concat(text_or_default(&self.debug, "None").as_str()).concat("\n")
            .concat("interval = ").concat(opt_u64_string(self.interval).as_str()).concat("\n")
            .concat("resolution = { width = ").concat(int_string(res.width).as_str())
            .concat(", height = ").concat(int_string(res.height).as_str()).concat(" }\n")
            .concat("shuffle = ").concat(opt_bool_string(self.shuffle).as_str()).concat("\n")
            .concat("swww_path = ").concat(text_or_default(&self.swww_path, "None").as_str()).concat("\n")
            .concat("wallpaper_path = ").concat(text_or_default(&self.wallpaper_path, "None").as_str()).concat("\n")
    }
}

impl Transition {
    /// The section as printed by `Config::describe`.
    pub fn describe(&self) -> (r: String)
        ensures
            r@ == transition_text(*self),
    {
        let b = self.bezier();
        let w = self.wave_size();
        let fs = self.flavour();
        let duration = match self.duration {
            Some(v) => milli_string(v),
            None => String::from_str("None"),
        };
        let filter = match self.filter {
            Some(v) => v.to_string(),
            None => String::from_str("None"),
        };
        let resize = match self.resize {
            Some(v) => v.to_string(),
            None => String::from_str("None"),
        };
        let fps = match self.fps {
            Some(v) => decimal_string(v as u64),
            None => String::from_str("None"),
        };
        let step = match self.step {
            Some(v) => decimal_string(v as u64),
            None => String::from_str("None"),
        };
        String::from_str("[Transition]\n")
            .concat("bezier = [").concat(signed_milli_string(b[0]).as_str())
            .concat(", ").concat(signed_milli_string(b[1]).as_str())
            .concat(", ").concat(signed_milli_string(b[2]).as_str())
            .concat(", ").concat(signed_milli_string(b[3]).as_str()).concat("]\n")
            .concat("duration = ").concat(duration.as_str()).concat("\n")
            .concat("dynamic_duration = ").concat(opt_bool_string(self.dynamic_duration).as_str()).concat("\n")
            .concat("fill = ").concat(text_or_default(&self.fill, "None").as_str()).concat("\n")
            .concat("filter = ").concat(filter.as_str()).concat("\n")
            .concat("flavour = [").concat(flavours_string(&fs).as_str()).concat("]\n")
            .concat("fps = ").concat(fps.as_str()).concat("\n")
            .concat("step = ").concat(step.as_str()).concat("\n")
            .concat("resize = ").concat(resize.as_str()).concat("\n")
            .concat("wave_size = [").concat(decimal_string(w.0 as u64).as_str())
            .concat(", ").concat(decimal_string(w.1 as u64).as_str())
            .concat(", ").concat(decimal_string(w.2 as u64).as_str())
            .concat(", ").concat(decimal_string(w.3 as u64).as_str()).concat("]\n")
    }
}

impl Config {
    /// The configuration as printed for the user: a heading, then each
    /// section followed by a blank line. A missing section is printed with
    /// every setting unset.
    pub fn describe(&self) -> (r: String)
        ensures
            r@ == "\nCurrent configuration\n---------------------\n"@
                + (match self.general { Some(g) => general_text(g), None => general_text(unset_general()) })
                + "\n"@
                + (match self.transition { Some(t) => transition_text(t), None => transition_text(unset_transition()) })
                + "\n"@,
    {
        let general = match &self.general {
            Some(g) => g.describe(),
            None => General::unset().describe(),
        };
        let transition = match &self.transition {
            Some(t) => t.describe(),
            None => Transition::unset().describe(),
        };
        String::from_str("\nCurrent configuration\n---------------------\n")
            .concat(general.as_str())
            .concat("\n")
            .concat(transition.as_str())
            .concat("\n")
    }
}

/// A `[general]` section with nothing set.
pub open spec fn unset_general() -> General {
    General {
        debug: None,
        interval: None,
        resolution: None,
        shuffle: None,
        swww_path: None,
        wallpaper_path: None,
    }
}

/// A `[transition]` section with nothing set.
pub open spec fn unset_transition() -> Transition {
    Transition {
        bezier: None,
        duration: None,
        dynamic_duration: None,
        fill: None,
        filter: None,
        flavour: None,
        fps: None,
        resize: None,
        step: None,
        wave_size: None,
    }
}

impl General {
    /// A section with nothing set.
    pub fn unset() -> (r: General)
        ensures
            r == unset_general(),
    {
        General {
            debug: None,
            interval: None,
            resolution: None,
            shuffle: None,
            swww_path: None,
            wallpaper_path: None,
        }
    }
}

impl Transition {
    /// A section with nothing set.
    pub fn unset() -> (r: Transition)
        ensures
            r == unset_transition(),
    {
        Transition {
            bezier: None,
            duration: None,
            dynamic_duration: None,
            fill: None,
            filter: None,
            flavour: None,
            fps: None,
            resize: None,
            step: None,
            wave_size: None,
        }
    }
}

} // verus!
