//! The viewer's settings: their defaults, the limits that every stored or
//! returned value keeps, and the overlay of a partial update.

use crate::number::Number;
use vstd::prelude::*;
use vstd::string::StringExecFns;

verus! {

/// The bits of 0.75, the smallest font scale.
pub const MIN_FONT_SCALE: u64 = 0x3FE8_0000_0000_0000;

/// The bits of 2.25, the largest font scale.
pub const MAX_FONT_SCALE: u64 = 0x4002_0000_0000_0000;

/// The bits of 1, the font scale of a fresh installation.
pub const DEFAULT_FONT_SCALE: u64 = 0x3FF0_0000_0000_0000;

/// The bits of 640, the smallest window width.
pub const MIN_WIDTH: u64 = 0x4084_0000_0000_0000;

/// The bits of 420, the smallest window height.
pub const MIN_HEIGHT: u64 = 0x407A_4000_0000_0000;

/// The bits of 1280, the window width of a fresh installation.
pub const DEFAULT_WIDTH: u64 = 0x4094_0000_0000_0000;

/// The bits of 820, the window height of a fresh installation.
pub const DEFAULT_HEIGHT: u64 = 0x4089_A000_0000_0000;

/// Size, position and state of the viewer's window.
#[derive(Clone, Copy, Debug, PartialEq, Eq)]
pub struct WindowState {
    pub width: Number,
    pub height: Number,
    pub x: Option<Number>,
    pub y: Option<Number>,
    pub maximized: Option<bool>,
}

/// What the user has chosen for the viewer.
#[derive(Clone, Debug, PartialEq, Eq)]
pub struct ViewerSettings {
    pub theme: String,
    pub font_scale: Number,
    pub minimap_visible: bool,
    pub last_search_mode: String,
    pub window_state: WindowState,
}

/// An update of some fields of a `WindowState`. A field that is `None`
/// leaves the current value as it is.
#[derive(Clone, Copy, Debug, PartialEq, Eq)]
pub struct WindowStatePatch {
    pub width: Option<Number>,
    pub height: Option<Number>,
    pub x: Option<Number>,
    pub y: Option<Number>,
    pub maximized: Option<bool>,
}

/// An update of some fields of a `ViewerSettings`. A field that is `None`
/// leaves the current value as it is.
#[derive(Clone, Debug, PartialEq, Eq)]
pub struct ViewerSettingsPatch {
    pub theme: Option<String>,
    pub font_scale: Option<Number>,
    pub minimap_visible: Option<bool>,
    pub last_search_mode: Option<String>,
    pub window_state: Option<WindowStatePatch>,
}

/// A `ViewerSettings` as a mathematical value.
pub struct SettingsModel {
    pub theme: Seq<char>,
    pub font_scale: Number,
    pub minimap_visible: bool,
    pub last_search_mode: Seq<char>,
    pub window_state: WindowState,
}

/// A `ViewerSettingsPatch` as a mathematical value.
pub struct PatchModel {
    pub theme: Option<Seq<char>>,
    pub font_scale: Option<Number>,
    pub minimap_visible: Option<bool>,
    pub last_search_mode: Option<Seq<char>>,
    pub window_state: Option<WindowStatePatch>,
}

impl View for ViewerSettings {
    type V = SettingsModel;

    open spec fn view(&self) -> SettingsModel {
        SettingsModel {
            theme: self.theme@,
            font_scale: self.font_scale,
            minimap_visible: self.minimap_visible,
            last_search_mode: self.last_search_mode@,
            window_state: self.window_state,
        }
    }
}

impl View for ViewerSettingsPatch {
    type V = PatchModel;

    open spec fn view(&self) -> PatchModel {
        PatchModel {
            theme: match self.theme {
                Some(t) => Some(t@),
                None => None,
            },
            font_scale: self.font_scale,
            minimap_visible: self.minimap_visible,
            last_search_mode: match self.last_search_mode {
                Some(m) => Some(m@),
                None => None,
            },
            window_state: self.window_state,
        }
    }
}

/// The theme that `theme` stands for: `light` for itself, `dark` for
/// anything else.
pub open spec fn known_theme(theme: Seq<char>) -> Seq<char> {
    if theme == "light"@ {
        "light"@
    } else {
        "dark"@
    }
}

/// The search mode that `mode` stands for: `filter` for itself, `find` for
/// anything else.
pub open spec fn known_search_mode(mode: Seq<char>) -> Seq<char> {
    if mode == "filter"@ {
        "filter"@
    } else {
        "find"@
    }
}

/// A font scale within its limits: the smallest for one below it, the
/// largest for one above it. What is not a number gives the smallest, as it
/// does for the window's width and height.
pub open spec fn bounded_font_scale(scale: Number) -> Number {
    if scale.is_nan() {
        Number { bits: MIN_FONT_SCALE }
    } else {
        scale.clamped(Number { bits: MIN_FONT_SCALE }, Number { bits: MAX_FONT_SCALE })
    }
}

/// A window state whose width and height are at least the smallest ones.
/// The position and the maximized flag stay as they are.
pub open spec fn sanitized_window(w: WindowState) -> WindowState {
    WindowState {
        width: w.width.raised(Number { bits: MIN_WIDTH }),
        height: w.height.raised(Number { bits: MIN_HEIGHT }),
        x: w.x,
        y: w.y,
        maximized: w.maximized,
    }
}

/// The window of a fresh installation.
pub open spec fn default_window() -> WindowState {
    WindowState {
        width: Number { bits: DEFAULT_WIDTH },
        height: Number { bits: DEFAULT_HEIGHT },
        x: None,
        y: None,
        maximized: None,
    }
}

/// The settings of a fresh installation.
pub open spec fn default_settings() -> SettingsModel {
    SettingsModel {
        theme: "dark"@,
        font_scale: Number { bits: DEFAULT_FONT_SCALE },
        minimap_visible: true,
        last_search_mode: "find"@,
        window_state: default_window(),
    }
}

/// `s` with every field brought within its limits.
pub open spec fn sanitized(s: SettingsModel) -> SettingsModel {
    SettingsModel {
        theme: known_theme(s.theme),
        font_scale: bounded_font_scale(s.font_scale),
        minimap_visible: s.minimap_visible,
        last_search_mode: known_search_mode(s.last_search_mode),
        window_state: sanitized_window(s.window_state),
    }
}

/// The limits that every stored or returned value keeps: a known theme and
/// search mode, a font scale from the smallest to the largest, a width and a
/// height not below the smallest; each of the three a number.
pub open spec fn within_limits(s: SettingsModel) -> bool {
    &&& s.theme == "dark"@ || s.theme == "light"@
    &&& s.last_search_mode == "find"@ || s.last_search_mode == "filter"@
    &&& !s.font_scale.is_nan()
    &&& !s.font_scale.less_than(Number { bits: MIN_FONT_SCALE })
    &&& !(Number { bits: MAX_FONT_SCALE }).less_than(s.font_scale)
    &&& !s.window_state.width.is_nan()
    &&& !s.window_state.width.less_than(Number { bits: MIN_WIDTH })
    &&& !s.window_state.height.is_nan()
    &&& !s.window_state.height.less_than(Number { bits: MIN_HEIGHT })
}

/// `w` with the fields that `p` gives in place of its own.
pub open spec fn overlaid_window(w: WindowState, p: WindowStatePatch) -> WindowState {
    WindowState {
        width: if let Some(v) = p.width { v } else { w.width },
        height: if let Some(v) = p.height { v } else { w.height },
        x: if p.x is Some { p.x } else { w.x },
        y: if p.y is Some { p.y } else { w.y },
        maximized: if p.maximized is Some { p.maximized } else { w.maximized },
    }
}

/// `s` with the fields that `p` gives in place of its own.
pub open spec fn overlaid(s: SettingsModel, p: PatchModel) -> SettingsModel {
    SettingsModel {
        theme: if let Some(v) = p.theme { v } else { s.theme },
        font_scale: if let Some(v) = p.font_scale { v } else { s.font_scale },
        minimap_visible: if let Some(v) = p.minimap_visible { v } else { s.minimap_visible },
        last_search_mode: if let Some(v) = p.last_search_mode { v } else { s.last_search_mode },
        window_state: if let Some(wp) = p.window_state {
            overlaid_window(s.window_state, wp)
        } else {
            s.window_state
        },
    }
}

/// What an update leaves: the overlay, brought within the limits.
pub open spec fn merged(s: SettingsModel, p: PatchModel) -> SettingsModel {
    sanitized(overlaid(s, p))
}

impl Default for WindowState {
    fn default() -> (r: WindowState)
        ensures
            r == default_window(),
    {
        WindowState {
            width: Number { bits: DEFAULT_WIDTH },
            height: Number { bits: DEFAULT_HEIGHT },
            x: None,
            y: None,
            maximized: None,
        }
    }
}

impl Default for ViewerSettings {
    fn default() -> (r: ViewerSettings)
        ensures
            r@ == default_settings(),
    {
        ViewerSettings {
            theme: String::from_str("dark"),
            font_scale: Number { bits: DEFAULT_FONT_SCALE },
            minimap_visible: true,
            last_search_mode: String::from_str("find"),
            window_state: WindowState::default(),
        }
    }
}

/// The name of the theme that `theme` stands for.
pub fn coerce_theme(theme: &String) -> (r: String)
    ensures
        r@ == known_theme(theme@),
{
    let light = String::from_str("light");
    if *theme == light {
        light
    } else {
        String::from_str("dark")
    }
}

/// The name of the search mode that `mode` stands for.
pub fn coerce_search_mode(mode: &String) -> (r: String)
    ensures
        r@ == known_search_mode(mode@),
{
    let filter = String::from_str("filter");
    if *mode == filter {
        filter
    } else {
        String::from_str("find")
    }
}

/// Brings a font scale within its limits.
pub fn clamp_font_scale(scale: Number) -> (r: Number)
    ensures
        r == bounded_font_scale(scale),
{
    if scale.not_a_number() {
        Number { bits: MIN_FONT_SCALE }
    } else {
        scale.clamp_to(Number { bits: MIN_FONT_SCALE }, Number { bits: MAX_FONT_SCALE })
    }
}

/// Brings every field of `input` within its limits.
pub fn sanitized_settings(input: ViewerSettings) -> (r: ViewerSettings)
    ensures
        r@ == sanitized(input@),
        within_limits(r@),
{
    proof {
        lemma_sanitized_within_limits(input@);
    }
    ViewerSettings {
        theme: coerce_theme(&input.theme),
        font_scale: clamp_font_scale(input.font_scale),
        minimap_visible: input.minimap_visible,
        last_search_mode: coerce_search_mode(&input.last_search_mode),
        window_state: WindowState {
            width: input.window_state.width.at_least(Number { bits: MIN_WIDTH }),
            height: input.window_state.height.at_least(Number { bits: MIN_HEIGHT }),
            x: input.window_state.x,
            y: input.window_state.y,
            maximized: input.window_state.maximized,
        },
    }
}

/// Applies `patch` to `current`: each field that the patch gives replaces
/// the current one, and the result is brought within the limits.
pub fn merge_settings(current: &mut ViewerSettings, patch: ViewerSettingsPatch)
    ensures
        final(current)@ == merged(old(current)@, patch@),
        within_limits(final(current)@),
{
    proof {
        lemma_sanitized_within_limits(overlaid(old(current)@, patch@));
    }
    if let Some(theme) = patch.theme {
        current.theme = theme;
    }
    if let Some(font_scale) = patch.font_scale {
        current.font_scale = font_scale;
    }
    if let Some(minimap_visible) = patch.minimap_visible {
        current.minimap_visible = minimap_visible;
    }
    if let Some(last_search_mode) = patch.last_search_mode {
        current.last_search_mode = last_search_mode;
    }
    if let Some(window_state) = patch.window_state {
        if let Some(width) = window_state.width {
            current.window_state.width = width;
        }
        if let Some(height) = window_state.height {
            current.window_state.height = height;
        }
        if let Some(x) = window_state.x {
            current.window_state.x = Some(x);
        }
        if let Some(y) = window_state.y {
            current.window_state.y = Some(y);
        }
        if let Some(maximized) = window_state.maximized {
            current.window_state.maximized = Some(maximized);
        }
    }
    assert(current@ == overlaid(old(current)@, patch@));
    current.theme = coerce_theme(&current.theme);
    current.last_search_mode = coerce_search_mode(&current.last_search_mode);
    current.font_scale = clamp_font_scale(current.font_scale);
    current.window_state.width = current.window_state.width.at_least(Number { bits: MIN_WIDTH });
    current.window_state.height = current.window_state.height.at_least(
        Number { bits: MIN_HEIGHT },
    );
}

/// What the settings file stands for: the settings it held, or those of a
/// fresh installation where it did not exist or could not be understood.
pub open spec fn stored_or_default(parsed: Option<ViewerSettings>) -> SettingsModel {
    match parsed {
        Some(s) => s@,
        None => default_settings(),
    }
}

/// The settings to work with, given what the settings file held: `parsed`
/// where the file held settings, the defaults where it did not exist or
/// could not be understood; in both cases brought within the limits.
pub fn loaded_settings(parsed: Option<ViewerSettings>) -> (r: ViewerSettings)
    ensures
        r@ == sanitized(stored_or_default(parsed)),
        within_limits(r@),
        parsed is None ==> r@ == default_settings(),
{
    proof {
        lemma_defaults_unchanged();
    }
    match parsed {
        Some(s) => sanitized_settings(s),
        None => sanitized_settings(ViewerSettings::default()),
    }
}

/// The settings that an update leaves, given what the settings file held
/// before it: what is to be stored and returned.
pub fn patched_settings(parsed: Option<ViewerSettings>, patch: ViewerSettingsPatch) -> (r:
    ViewerSettings)
    ensures
        r@ == merged(sanitized(stored_or_default(parsed)), patch@),
        within_limits(r@),
{
    let mut settings = loaded_settings(parsed);
    merge_settings(&mut settings, patch);
    settings
}

/// The name of the file that holds the settings, within the directory of
/// the application's configuration.
pub fn settings_file_name() -> (r: String)
    ensures
        r@ == "viewer-settings.json"@,
{
    String::from_str("viewer-settings.json")
}

/// Whatever goes in, what comes out of `sanitized` is within the limits.
pub proof fn lemma_sanitized_within_limits(s: SettingsModel)
    ensures
        within_limits(sanitized(s)),
{
}

/// Bringing settings within the limits a second time changes nothing.
pub proof fn lemma_sanitized_idempotent(s: SettingsModel)
    ensures
        sanitized(sanitized(s)) == sanitized(s),
{
}

/// The settings of a fresh installation are within the limits as they are.
pub proof fn lemma_defaults_unchanged()
    ensures
        sanitized(default_settings()) == default_settings(),
        within_limits(default_settings()),
{
}

/// What an update leaves is read back unchanged: bringing it within the
/// limits again gives the same settings.
pub proof fn lemma_merged_is_stable(s: SettingsModel, p: PatchModel)
    ensures
        sanitized(merged(s, p)) == merged(s, p),
        within_limits(merged(s, p)),
{
    lemma_sanitized_idempotent(overlaid(s, p));
    lemma_sanitized_within_limits(overlaid(s, p));
}

/// An update that gives a font scale within the limits, and nothing else,
/// changes the font scale of settings that are within the limits, and
/// nothing else.
pub proof fn lemma_font_scale_patch(s: SettingsModel, scale: Number)
    requires
        within_limits(s),
        bounded_font_scale(scale) == scale,
    ensures
        merged(
            s,
            (PatchModel {
                theme: None,
                font_scale: Some(scale),
                minimap_visible: None,
                last_search_mode: None,
                window_state: None,
            }),
        ) == (SettingsModel { font_scale: scale, ..s }),
{
}

/// An update that gives nothing leaves settings that are within the limits
/// as they are.
pub proof fn lemma_empty_patch(s: SettingsModel)
    requires
        within_limits(s),
    ensures
        merged(
            s,
            (PatchModel {
                theme: None,
                font_scale: None,
                minimap_visible: None,
                last_search_mode: None,
                window_state: None,
            }),
        ) == s,
{
}

} // verus!
