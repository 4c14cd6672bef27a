//! Transition styles and the argument list handed to the wallpaper setter.
//!
//! Values that the setter reads as decimals are held in thousandths: a
//! duration in milliseconds, an angle in thousandths of a degree, a position
//! and bezier control points in thousandths of a unit.

use rand::rngs::SmallRng;
use rand::Rng;
use vstd::prelude::*;
use vstd::string::*;

use crate::config::{bezier_of, default_flavours, dynamic_of, fill_of, filter_of, fps_of,
    offered_flavours, resize_of, step_of, wave_bounds, Transition};

use crate::text::{decimal, decimal_string, milli_string, milli_text, milli_text_nat,
    signed_milli_string, text_eq};

verus! {

/// A transition style of the wallpaper setter.
#[derive(Clone, Copy, Debug, PartialEq, Eq, Structural)]
pub enum TransitionFlavour {
    Wipe,
    Wave,
    Grow,
    Outer,
}

/// An image scaling filter of the wallpaper setter.
#[derive(Clone, Copy, Debug, PartialEq, Eq, Structural)]
pub enum FilterMethod {
    Nearest,
    Bilinear,
    CatmullRom,
    Mitchell,
    Lanczos3,
}

/// How the wallpaper setter fits an image to the screen.
#[derive(Clone, Copy, Debug, PartialEq, Eq, Structural)]
pub enum ResizeMethod {
    No,
    Crop,
    Fit,
}

/// The size of a wave transition's waves.
#[derive(Clone, Copy, Debug, PartialEq, Eq, Structural)]
pub struct WaveSize {
    pub width: u32,
    pub height: u32,
}

/// A point on screen, each coordinate in thousandths of the screen's extent.
#[derive(Clone, Copy, Debug, PartialEq, Eq, Structural)]
pub struct Pos {
    pub x: u32,
    pub y: u32,
}

/// Bezier control points, in thousandths.
pub type Bezier = [i32; 4];

/// A transition name that is none of the known styles.
#[derive(Clone, Debug, PartialEq, Eq)]
pub enum ParseTransitionFlavourError {
    InvalidFlavour(String),
}

pub open spec fn flavour_name(f: TransitionFlavour) -> Seq<char> {
    match f {
        TransitionFlavour::Wipe => "wipe"@,
        TransitionFlavour::Wave => "wave"@,
        TransitionFlavour::Grow => "grow"@,
        TransitionFlavour::Outer => "outer"@,
    }
}

pub open spec fn filter_name(f: FilterMethod) -> Seq<char> {
    match f {
        FilterMethod::Nearest => "Nearest"@,
        FilterMethod::Bilinear => "Bilinear"@,
        FilterMethod::CatmullRom => "CatmullRom"@,
        FilterMethod::Mitchell => "Mitchell"@,
        FilterMethod::Lanczos3 => "Lanczos3"@,
    }
}

pub open spec fn resize_name(r: ResizeMethod) -> Seq<char> {
    match r {
        ResizeMethod::No => "no"@,
        ResizeMethod::Crop => "crop"@,
        ResizeMethod::Fit => "fit"@,
    }
}

/// The style that a lower-case name stands for.
pub open spec fn flavour_named(t: Seq<char>) -> Option<TransitionFlavour> {
    if t == "wipe"@ {
        Some(TransitionFlavour::Wipe)
    } else if t == "wave"@ {
        Some(TransitionFlavour::Wave)
    } else if t == "grow"@ {
        Some(TransitionFlavour::Grow)
    } else if t == "outer"@ {
        Some(TransitionFlavour::Outer)
    } else {
        None
    }
}

/// The filter that a lower-case name stands for.
pub open spec fn filter_named(t: Seq<char>) -> Option<FilterMethod> {
    if t == "nearest"@ {
        Some(FilterMethod::Nearest)
    } else if t == "bilinear"@ {
        Some(FilterMethod::Bilinear)
    } else if t == "catmullrom"@ {
        Some(FilterMethod::CatmullRom)
    } else if t == "mitchell"@ {
        Some(FilterMethod::Mitchell)
    } else if t == "lanczos3"@ {
        Some(FilterMethod::Lanczos3)
    } else {
        None
    }
}

/// The resize method that a lower-case name stands for.
pub open spec fn resize_named(t: Seq<char>) -> Option<ResizeMethod> {
    if t == "no"@ {
        Some(ResizeMethod::No)
    } else if t == "fit"@ {
        Some(ResizeMethod::Fit)
    } else if t == "crop"@ {
        Some(ResizeMethod::Crop)
    } else {
        None
    }
}

/// The lower-case form of a text, as `str::to_lowercase` gives it.
pub uninterp spec fn lower_of(s: Seq<char>) -> Seq<char>;

/// Relies on str::to_lowercase: the result depends on the characters alone.
#[verifier::external_body]
fn lowercase(s: &str) -> (r: String)
    ensures
        r@ == lower_of(s@),
{
    s.to_lowercase()
}

impl TransitionFlavour {
    /// The setter's name of the style.
    pub fn to_string(&self) -> (r: String)
        ensures
            r@ == flavour_name(*self),
    {
        match self {
            TransitionFlavour::Wipe => String::from_str("wipe"),
            TransitionFlavour::Wave => String::from_str("wave"),
            TransitionFlavour::Grow => String::from_str("grow"),
            TransitionFlavour::Outer => String::from_str("outer"),
        }
    }

    /// The style named by an already lower-case text.
    pub fn from_lowercase(t: &str) -> (r: Option<TransitionFlavour>)
        ensures
            r == flavour_named(t@),
    {
        if text_eq(t, "wipe") {
            Some(TransitionFlavour::Wipe)
        } else if text_eq(t, "wave") {
            Some(TransitionFlavour::Wave)
        } else if text_eq(t, "grow") {
            Some(TransitionFlavour::Grow)
        } else if text_eq(t, "outer") {
            Some(TransitionFlavour::Outer)
        } else {
            None
        }
    }

    /// The style named by a text in any letter case.
    pub fn from_name(s: &str) -> (r: Result<TransitionFlavour, ParseTransitionFlavourError>)
        ensures
            r is Ok <==> flavour_named(lower_of(s@)) is Some,
            r matches Ok(f) ==> flavour_named(lower_of(s@)) == Some(f),
            r matches Err(ParseTransitionFlavourError::InvalidFlavour(t)) ==> t@ == s@,
    {
        let low = lowercase(s);
        match TransitionFlavour::from_lowercase(low.as_str()) {
            Some(f) => Ok(f),
            None => Err(ParseTransitionFlavourError::InvalidFlavour(String::from_str(s))),
        }
    }

    /// Whether the style sweeps across the screen at an angle.
    pub fn is_angled(&self) -> (r: bool)
        ensures
            r <==> (*self == TransitionFlavour::Wipe || *self == TransitionFlavour::Wave),
    {
        match self {
            TransitionFlavour::Wipe | TransitionFlavour::Wave => true,
            _ => false,
        }
    }
}

impl FilterMethod {
    /// The setter's name of the filter.
    pub fn to_string(&self) -> (r: String)
        ensures
            r@ == filter_name(*self),
    {
        match self {
            FilterMethod::Nearest => String::from_str("Nearest"),
            FilterMethod::Bilinear => String::from_str("Bilinear"),
            FilterMethod::CatmullRom => String::from_str("CatmullRom"),
            FilterMethod::Mitchell => String::from_str("Mitchell"),
            FilterMethod::Lanczos3 => String::from_str("Lanczos3"),
        }
    }

    /// The filter named by an already lower-case text.
    pub fn from_lowercase(t: &str) -> (r: Option<FilterMethod>)
        ensures
            r == filter_named(t@),
    {
        if text_eq(t, "nearest") {
            Some(FilterMethod::Nearest)
        } else if text_eq(t, "bilinear") {
            Some(FilterMethod::Bilinear)
        } else if text_eq(t, "catmullrom") {
            Some(FilterMethod::CatmullRom)
        } else if text_eq(t, "mitchell") {
            Some(FilterMethod::Mitchell)
        } else if text_eq(t, "lanczos3") {
            Some(FilterMethod::Lanczos3)
        } else {
            None
        }
    }

    /// The filter named by a text in any letter case; the error message names the text.
    pub fn from_name(s: &str) -> (r: Result<FilterMethod, String>)
        ensures
            r is Ok <==> filter_named(lower_of(s@)) is Some,
            r matches Ok(f) ==> filter_named(lower_of(s@)) == Some(f),
            r matches Err(m) ==> m@ == "Invalid filter method: "@ + s@,
    {
        let low = lowercase(s);
        match FilterMethod::from_lowercase(low.as_str()) {
            Some(f) => Ok(f),
            None => Err(String::from_str("Invalid filter method: ").concat(s)),
        }
    }
}

impl ResizeMethod {
    /// The setter's name of the resize method.
    pub fn to_string(&self) -> (r: String)
        ensures
            r@ == resize_name(*self),
    {
        match self {
            ResizeMethod::No => String::from_str("no"),
            ResizeMethod::Crop => String::from_str("crop"),
            ResizeMethod::Fit => String::from_str("fit"),
        }
    }

    /// The resize method named by an already lower-case text.
    pub fn from_lowercase(t: &str) -> (r: Option<ResizeMethod>)
        ensures
            r == resize_named(t@),
    {
        if text_eq(t, "no") {
            Some(ResizeMethod::No)
        } else if text_eq(t, "fit") {
            Some(ResizeMethod::Fit)
        } else if text_eq(t, "crop") {
            Some(ResizeMethod::Crop)
        } else {
            None
        }
    }

    /// The resize method named by a text in any letter case; the error message names the text.
    pub fn from_name(s: &str) -> (r: Result<ResizeMethod, String>)
        ensures
            r is Ok <==> resize_named(lower_of(s@)) is Some,
            r matches Ok(m) ==> resize_named(lower_of(s@)) == Some(m),
            r matches Err(m) ==> m@ == "Invalid resize method: "@ + s@,
    {
        let low = lowercase(s);
        match ResizeMethod::from_lowercase(low.as_str()) {
            Some(m) => Ok(m),
            None => Err(String::from_str("Invalid resize method: ").concat(s)),
        }
    }
}

impl ParseTransitionFlavourError {
    /// The message of the error.
    pub fn to_string(&self) -> (r: String)
        ensures
            self matches ParseTransitionFlavourError::InvalidFlavour(t) ==> r@
                == "Invalid transition type: "@ + t@,
    {
        match self {
            ParseTransitionFlavourError::InvalidFlavour(t) => String::from_str(
                "Invalid transition type: ",
            ).concat(t.as_str()),
        }
    }
}

/// Reads a list of style names in any letter case; the first unknown one is the error.
pub fn parse_flavours(names: &Vec<String>) -> (r: Result<Vec<TransitionFlavour>, ParseTransitionFlavourError>)
    ensures
        r is Ok <==> forall|j: int| 0 <= j < names@.len() ==> #[trigger] flavour_named(lower_of(names@[j]@)) is Some,
        r matches Ok(fs) ==> fs@.len() == names@.len() && forall|j: int| 0 <= j < names@.len() ==> Some(#[trigger] fs@[j]) == flavour_named(lower_of(names@[j]@)),
        r matches Err(ParseTransitionFlavourError::InvalidFlavour(t)) ==> exists|j: int| 0 <= j < names@.len() && t@ == names@[j]@ && (#[trigger] flavour_named(lower_of(names@[j]@))) is None,
{
    let mut out: Vec<TransitionFlavour> = Vec::new();
    let mut i: usize = 0;
    while i < names.len()
        invariant
            i <= names@.len(),
            out@.len() == i,
            forall|j: int| 0 <= j < i ==> Some(#[trigger] out@[j]) == flavour_named(lower_of(names@[j]@)),
        decreases names@.len() - i,
    {
        match TransitionFlavour::from_name(names[i].as_str()) {
            Ok(f) => out.push(f),
            Err(e) => {
                assert(flavour_named(lower_of(names@[i as int]@)) is None);
                return Err(e);
            },
        }
        i = i + 1;
    }
    assert forall|j: int| 0 <= j < names@.len() implies #[trigger] flavour_named(
        lower_of(names@[j]@),
    ) is Some by {
        assert(Some(out@[j]) == flavour_named(lower_of(names@[j]@)));
    }
    Ok(out)
}

/// The text of a bezier curve: its four control points, comma-separated.
pub open spec fn bezier_text(b: Bezier) -> Seq<char> {
    milli_text(b[0] as int) + ","@ + milli_text(b[1] as int) + ","@ + milli_text(b[2] as int) + ","@
        + milli_text(b[3] as int)
}

/// The text of a wave size: width and height, comma-separated.
pub open spec fn wave_text(w: WaveSize) -> Seq<char> {
    decimal(w.width as nat) + ","@ + decimal(w.height as nat)
}

/// The text of a position: x and y, comma-separated.
pub open spec fn pos_text(p: Pos) -> Seq<char> {
    milli_text_nat(p.x as nat) + ","@ + milli_text_nat(p.y as nat)
}

/// Builds the argument list of the wallpaper setter's `img` command, one
/// option and its value at a time, in the order the options are added.
#[derive(Debug)]
pub struct TransitionArgBuilder {
    args: Vec<String>,
}

impl TransitionArgBuilder {
    /// The arguments so far.
    pub closed spec fn arg_list(&self) -> Seq<Seq<char>> {
        self.args@.map_values(|a: String| a@)
    }

    /// A builder holding the command name alone.
    pub fn new() -> (r: TransitionArgBuilder)
        ensures
            r.arg_list() == seq!["img"@],
    {
        let mut args: Vec<String> = Vec::new();
        args.push(String::from_str("img"));
        let r = TransitionArgBuilder { args };
        assert(r.arg_list() =~= seq!["img"@]);
        r
    }

    /// The arguments, in order.
    pub fn build(self) -> (r: Vec<String>)
        ensures
            r@.map_values(|a: String| a@) == self.arg_list(),
    {
        self.args
    }

    fn push_option(&mut self, flag: &str, value: String)
        ensures
            final(self).arg_list() == old(self).arg_list() + seq![flag@, value@],
    {
        self.args.push(String::from_str(flag));
        self.args.push(value);
        assert(self.arg_list() =~= old(self).arg_list() + seq![flag@, value@]);
    }

    pub fn with_resize(self, resize: ResizeMethod) -> (r: TransitionArgBuilder)
        ensures
            r.arg_list() == self.arg_list() + seq!["--resize"@, resize_name(resize)],
    {
        let mut b = self;
        b.push_option("--resize", resize.to_string());
        b
    }

    /// Adds the fill colour, six hexadecimal digits `RRGGBB`.
    pub fn with_fill(self, color: String) -> (r: TransitionArgBuilder)
        ensures
            r.arg_list() == self.arg_list() + seq!["--fill-color"@, color@],
    {
        let mut b = self;
        b.push_option("--fill-color", color);
        b
    }

    pub fn with_filter(self, filter: FilterMethod) -> (r: TransitionArgBuilder)
        ensures
            r.arg_list() == self.arg_list() + seq!["--filter"@, filter_name(filter)],
    {
        let mut b = self;
        b.push_option("--filter", filter.to_string());
        b
    }

    pub fn with_transition(self, flavour: &TransitionFlavour) -> (r: TransitionArgBuilder)
        ensures
            r.arg_list() == self.arg_list() + seq!["--transition-type"@, flavour_name(*flavour)],
    {
        let mut b = self;
        b.push_option("--transition-type", flavour.to_string());
        b
    }

    pub fn with_step(self, step: u8) -> (r: TransitionArgBuilder)
        ensures
            r.arg_list() == self.arg_list() + seq!["--transition-step"@, decimal(step as nat)],
    {
        let mut b = self;
        b.push_option("--transition-step", decimal_string(step as u64));
        b
    }

    /// Adds the duration, given in milliseconds and written in seconds.
    pub fn with_duration(self, duration: u64) -> (r: TransitionArgBuilder)
        ensures
            r.arg_list() == self.arg_list() + seq![
                "--transition-duration"@,
                milli_text_nat(duration as nat),
            ],
    {
        let mut b = self;
        b.push_option("--transition-duration", milli_string(duration));
        b
    }

    pub fn with_fps(self, fps: u32) -> (r: TransitionArgBuilder)
        ensures
            r.arg_list() == self.arg_list() + seq!["--transition-fps"@, decimal(fps as nat)],
    {
        let mut b = self;
        b.push_option("--transition-fps", decimal_string(fps as u64));
        b
    }

    pub fn with_bezier(self, bezier: Bezier) -> (r: TransitionArgBuilder)
        ensures
            r.arg_list() == self.arg_list() + seq!["--transition-bezier"@, bezier_text(bezier)],
    {
        let text = signed_milli_string(bezier[0]).concat(",").concat(
            signed_milli_string(bezier[1]).as_str(),
        ).concat(",").concat(signed_milli_string(bezier[2]).as_str()).concat(",").concat(
            signed_milli_string(bezier[3]).as_str(),
        );
        let mut b = self;
        b.push_option("--transition-bezier", text);
        b
    }

    /// Adds the angle, given in thousandths of a degree and written in degrees.
    pub fn with_angle(self, angle: u32) -> (r: TransitionArgBuilder)
        ensures
            r.arg_list() == self.arg_list() + seq![
                "--transition-angle"@,
                milli_text_nat(angle as nat),
            ],
    {
        let mut b = self;
        b.push_option("--transition-angle", milli_string(angle as u64));
        b
    }

    pub fn with_pos(self, pos: Pos) -> (r: TransitionArgBuilder)
        ensures
            r.arg_list() == self.arg_list() + seq!["--transition-pos"@, pos_text(pos)],
    {
        let text = milli_string(pos.x as u64).concat(",").concat(milli_string(pos.y as u64).as_str());
        let mut b = self;
        b.push_option("--transition-pos", text);
        b
    }

    pub fn with_wave(self, wave: WaveSize) -> (r: TransitionArgBuilder)
        ensures
            r.arg_list() == self.arg_list() + seq!["--transition-wave"@, wave_text(wave)],
    {
        let text = decimal_string(wave.width as u64).concat(",").concat(
            decimal_string(wave.height as u64).as_str(),
        );
        let mut b = self;
        b.push_option("--transition-wave", text);
        b
    }
}

#[verifier::external_type_specification]
#[verifier::external_body]
pub struct ExSmallRng(SmallRng);

/// Relies on rand::Rng::random_range over `0..n`: the result lies in the
/// range, which must not be empty (it panics on an empty one).
#[verifier::external_body]
fn random_below(rng: &mut SmallRng, n: u32) -> (r: u32)
    requires
        n > 0,
    ensures
        r < n,
{
    rng.random_range(0..n)
}

/// Relies on rand::Rng::random_range over `lo..=hi`: the result lies in the
/// range, which must not be empty (it panics on an empty one).
#[verifier::external_body]
fn random_between(rng: &mut SmallRng, lo: u32, hi: u32) -> (r: u32)
    requires
        lo <= hi,
    ensures
        lo <= r <= hi,
{
    rng.random_range(lo..=hi)
}

/// Relies on rand::rngs::SmallRng::from_os_rng, a generator seeded from the
/// operating system.
#[verifier::external_body]
pub(crate) fn new_rng() -> (r: SmallRng) {
    <SmallRng as rand::SeedableRng>::from_os_rng()
}

/// A full turn, in thousandths of a degree.
pub const FULL_TURN: u32 = 360000;

/// What the random draws of one rotation picked. The angle is in thousandths
/// of a degree, below a full turn; which fields matter depends on the style.
#[derive(Clone, Copy, Debug, PartialEq, Eq, Structural)]
pub struct TransitionDraw {
    pub flavour: TransitionFlavour,
    pub angle: u32,
    pub wave: WaveSize,
    pub pos: Pos,
}

/// Whether `v` lies between `a` and `b`, in either order.
pub open spec fn between(v: u32, a: u32, b: u32) -> bool {
    (a <= v && v <= b) || (b <= v && v <= a)
}

/// Draws the style, angle, wave size and position of one rotation: the style
/// uniformly from the offered ones, the angle below a full turn, each wave
/// dimension between its configured bounds, each coordinate in `[0, 1]`.
pub fn draw_transition(rng: &mut SmallRng, t: &Transition) -> (r: TransitionDraw)
    ensures
        offered_flavours(Some(*t)).contains(r.flavour),
        r.angle < FULL_TURN,
        between(r.wave.width, wave_bounds(Some(*t)).0, wave_bounds(Some(*t)).1),
        between(r.wave.height, wave_bounds(Some(*t)).2, wave_bounds(Some(*t)).3),
        r.pos.x <= 1000,
        r.pos.y <= 1000,
{
    let configured = t.flavour();
    let flavours = if configured.len() > 0 {
        configured
    } else {
        let mut all: Vec<TransitionFlavour> = Vec::new();
        all.push(TransitionFlavour::Wipe);
        all.push(TransitionFlavour::Wave);
        all.push(TransitionFlavour::Grow);
        all.push(TransitionFlavour::Outer);
        assert(all@ =~= default_flavours());
        all
    };
    let n: u32 = if flavours.len() > 0xffff_ffff { 0xffff_ffff } else { flavours.len() as u32 };
    let k = random_below(rng, n);
    let flavour = flavours[k as usize];
    assert(flavours@[k as int] == flavour);
    let angle = random_below(rng, FULL_TURN);
    let (wmin, wmax, hmin, hmax) = t.wave_size();
    let width = if wmin <= wmax { random_between(rng, wmin, wmax) } else { random_between(rng, wmax, wmin) };
    let height = if hmin <= hmax { random_between(rng, hmin, hmax) } else { random_between(rng, hmax, hmin) };
    let x = random_between(rng, 0, 1000);
    let y = random_between(rng, 0, 1000);
    TransitionDraw { flavour, angle, wave: WaveSize { width, height }, pos: Pos { x, y } }
}

/// Whether the duration of this rotation is to be scaled to the screen: the
/// configuration asks for it and the style sweeps at an angle.
pub open spec fn scales_duration(t: Option<Transition>, d: TransitionDraw) -> bool {
    dynamic_of(t) && (d.flavour == TransitionFlavour::Wipe || d.flavour == TransitionFlavour::Wave)
}

/// Whether the duration of this rotation is to be scaled to the screen.
pub fn needs_scaled_duration(t: &Transition, d: &TransitionDraw) -> (r: bool)
    ensures
        r == scales_duration(Some(*t), *d),
{
    t.dynamic_duration() && d.flavour.is_angled()
}

/// The angle of a wave's travel: a quarter turn back from the drawn angle, so
/// that the crests run across it.
pub open spec fn wave_angle(angle: u32) -> u32 {
    ((FULL_TURN + angle - 90000) % (FULL_TURN as int)) as u32
}

/// The options that every rotation passes, in order.
pub open spec fn common_args(t: Option<Transition>, d: TransitionDraw, duration: u64) -> Seq<Seq<char>> {
    seq![
        "img"@,
        "--transition-type"@, flavour_name(d.flavour),
        "--transition-duration"@, milli_text_nat(duration as nat),
        "--fill-color"@, fill_of(t),
        "--filter"@, filter_name(filter_of(t)),
        "--transition-fps"@, decimal(fps_of(t) as nat),
        "--resize"@, resize_name(resize_of(t)),
        "--transition-step"@, decimal(step_of(t) as nat),
        "--transition-bezier"@, bezier_text(bezier_of(t)),
    ]
}

/// The options that depend on the style: the angle for a wipe; the turned
/// angle and the wave size for a wave; the position for the others.
pub open spec fn style_args(d: TransitionDraw) -> Seq<Seq<char>> {
    match d.flavour {
        TransitionFlavour::Wipe => seq!["--transition-angle"@, milli_text_nat(d.angle as nat)],
        TransitionFlavour::Wave => seq![
            "--transition-angle"@, milli_text_nat(wave_angle(d.angle) as nat),
            "--transition-wave"@, wave_text(d.wave),
        ],
        _ => seq!["--transition-pos"@, pos_text(d.pos)],
    }
}

/// The setter's arguments for one rotation, with the drawn values and the
/// duration (in milliseconds) already settled.
pub fn transition_args(t: &Transition, d: &TransitionDraw, duration: u64) -> (r: Vec<String>)
    requires
        d.angle < FULL_TURN,
    ensures
        r@.map_values(|a: String| a@) == common_args(Some(*t), *d, duration) + style_args(*d),
{
    let b = TransitionArgBuilder::new()
        .with_transition(&d.flavour)
        .with_duration(duration)
        .with_fill(t.fill())
        .with_filter(t.filter())
        .with_fps(t.fps())
        .with_resize(t.resize())
        .with_step(t.step())
        .with_bezier(t.bezier());
    assert(b.arg_list() =~= common_args(Some(*t), *d, duration));
    let b = match d.flavour {
        TransitionFlavour::Wipe => b.with_angle(d.angle),
        TransitionFlavour::Wave => {
            let turned = (FULL_TURN + d.angle - 90000) % FULL_TURN;
            b.with_angle(turned).with_wave(d.wave)
        },
        _ => b.with_pos(d.pos),
    };
    assert(b.arg_list() =~= common_args(Some(*t), *d, duration) + style_args(*d));
    b.build()
}

} // verus!
