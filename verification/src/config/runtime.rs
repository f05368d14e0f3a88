//! Versioned v1 portable configuration.

use vstd::prelude::*;

verus! {

pub const CONFIG_VERSION: u32 = 1;

pub const MAX_WINDOW_DIP: u32 = 16_384;

pub const MIN_WINDOW_WIDTH_DIP: u32 = 220;

pub const MIN_WINDOW_HEIGHT_DIP: u32 = 120;

/// Durable integer percentage used by every document-content projection.
#[derive(Debug, Clone, Copy, PartialEq, Eq, Structural)]
pub struct ContentZoomPercent(u16);

pub const CONTENT_ZOOM_MIN: u16 = 50;

pub const CONTENT_ZOOM_MAX: u16 = 300;

pub const CONTENT_ZOOM_DEFAULT: u16 = 100;

pub open spec fn clamp_zoom(value: int) -> u16 {
    if value < CONTENT_ZOOM_MIN {
        CONTENT_ZOOM_MIN
    } else if value > CONTENT_ZOOM_MAX {
        CONTENT_ZOOM_MAX
    } else {
        value as u16
    }
}

/// Every clamped or stepped zoom lies in the shared 50–300 % range.
pub proof fn lemma_zoom_stays_in_range(value: int)
    ensures
        CONTENT_ZOOM_MIN <= clamp_zoom(value) <= CONTENT_ZOOM_MAX,
{
}

impl ContentZoomPercent {
    pub closed spec fn spec_value(self) -> u16 {
        self.0
    }

    /// The percentage clamped into the supported 50..=300 range.
    pub fn new_clamped(value: u16) -> (r: ContentZoomPercent)
        ensures
            r.spec_value() == clamp_zoom(value as int),
    {
        if value < CONTENT_ZOOM_MIN {
            ContentZoomPercent(CONTENT_ZOOM_MIN)
        } else if value > CONTENT_ZOOM_MAX {
            ContentZoomPercent(CONTENT_ZOOM_MAX)
        } else {
            ContentZoomPercent(value)
        }
    }

    /// The percentage exactly as a configuration file stores it; `is_valid`
    /// tells whether it lies in the supported range.
    pub fn from_stored(value: u16) -> (r: ContentZoomPercent)
        ensures
            r.spec_value() == value,
    {
        ContentZoomPercent(value)
    }

    pub fn value(self) -> (r: u16)
        ensures
            r == self.spec_value(),
    {
        self.0
    }

    /// The zoom moved by `delta` percentage points, clamped to the range.
    pub fn stepped(self, delta: i16) -> (r: ContentZoomPercent)
        ensures
            r.spec_value() == clamp_zoom(self.spec_value() + delta),
    {
        let next = self.0 as i32 + delta as i32;
        let bounded = if next < CONTENT_ZOOM_MIN as i32 {
            CONTENT_ZOOM_MIN as i32
        } else if next > CONTENT_ZOOM_MAX as i32 {
            CONTENT_ZOOM_MAX as i32
        } else {
            next
        };
        ContentZoomPercent::new_clamped(bounded as u16)
    }

    pub fn is_valid(self) -> (r: bool)
        ensures
            r == (CONTENT_ZOOM_MIN <= self.spec_value() <= CONTENT_ZOOM_MAX),
    {
        self.0 >= CONTENT_ZOOM_MIN && self.0 <= CONTENT_ZOOM_MAX
    }
}

impl Default for ContentZoomPercent {
    fn default() -> (r: ContentZoomPercent)
        ensures
            r.spec_value() == CONTENT_ZOOM_DEFAULT,
    {
        ContentZoomPercent(CONTENT_ZOOM_DEFAULT)
    }
}

#[derive(Debug, Clone, Copy, PartialEq, Eq, Structural)]
pub enum ThemeMode {
    Light,
    System,
    Dark,
}

#[derive(Debug, Clone, Copy, PartialEq, Eq, Structural)]
pub enum ViewMode {
    Source,
    Split,
    Preview,
}

#[derive(Debug, Clone, Copy, PartialEq, Eq, Structural)]
pub enum DockEdge {
    Undocked,
    Left,
    Right,
    Top,
}

/// A stored `f32` ratio, held as its IEEE-754 bit pattern.
#[derive(Debug, Clone, Copy, PartialEq, Eq, Structural)]
pub struct RatioBits(pub u32);

pub open spec fn is_nan_bits(bits: u32) -> bool {
    (bits & 0x7f80_0000u32) == 0x7f80_0000u32 && (bits & 0x007f_ffffu32) != 0
}

/// IEEE-754 equality of two `f32` values given by their bits: NaN equals
/// nothing, and positive and negative zero are equal.
pub open spec fn f32_bits_eq(a: u32, b: u32) -> bool {
    !is_nan_bits(a) && !is_nan_bits(b) && (a == b || ((a & 0x7fff_ffffu32) == 0 && (b
        & 0x7fff_ffffu32) == 0))
}

/// A finite ratio within `0.0..=1.0`: a non-negative value whose bits do not
/// exceed those of `1.0`, or negative zero.
pub open spec fn valid_ratio_bits(bits: u32) -> bool {
    bits <= 0x3f80_0000u32 || bits == 0x8000_0000u32
}

impl RatioBits {
    pub fn same_value(self, other: RatioBits) -> (r: bool)
        ensures
            r == f32_bits_eq(self.0, other.0),
    {
        let a_nan = (self.0 & 0x7f80_0000u32) == 0x7f80_0000u32 && (self.0 & 0x007f_ffffu32) != 0;
        let b_nan = (other.0 & 0x7f80_0000u32) == 0x7f80_0000u32 && (other.0 & 0x007f_ffffu32)
            != 0;
        !a_nan && !b_nan && (self.0 == other.0 || ((self.0 & 0x7fff_ffffu32) == 0 && (other.0
            & 0x7fff_ffffu32) == 0))
    }

    pub fn is_valid_ratio(self) -> (r: bool)
        ensures
            r == valid_ratio_bits(self.0),
    {
        self.0 <= 0x3f80_0000u32 || self.0 == 0x8000_0000u32
    }
}

#[derive(Debug, Clone, PartialEq, Eq)]
pub struct WindowConfig {
    pub width_dip: u32,
    pub height_dip: u32,
    pub monitor_id: String,
    pub dock_edge: DockEdge,
    pub dock_offset_ratio: RatioBits,
    pub floating_x_ratio: RatioBits,
    pub floating_y_ratio: RatioBits,
}

#[derive(Debug, Clone, PartialEq, Eq)]
pub struct RuntimeConfig {
    pub version: u32,
    pub theme: ThemeMode,
    pub opacity: u8,
    pub content_zoom_percent: ContentZoomPercent,
    pub split_scroll_sync: bool,
    pub always_on_top: bool,
    pub view_mode: ViewMode,
    pub window: WindowConfig,
}

/// Field-wise equality of two window configurations, ratios compared as `f32`.
pub open spec fn window_config_eq(a: WindowConfig, b: WindowConfig) -> bool {
    &&& a.width_dip == b.width_dip
    &&& a.height_dip == b.height_dip
    &&& a.monitor_id@ == b.monitor_id@
    &&& a.dock_edge == b.dock_edge
    &&& f32_bits_eq(a.dock_offset_ratio.0, b.dock_offset_ratio.0)
    &&& f32_bits_eq(a.floating_x_ratio.0, b.floating_x_ratio.0)
    &&& f32_bits_eq(a.floating_y_ratio.0, b.floating_y_ratio.0)
}

/// Field-wise equality of two configurations.
pub open spec fn config_eq(a: RuntimeConfig, b: RuntimeConfig) -> bool {
    &&& a.version == b.version
    &&& a.theme == b.theme
    &&& a.opacity == b.opacity
    &&& a.content_zoom_percent == b.content_zoom_percent
    &&& a.split_scroll_sync == b.split_scroll_sync
    &&& a.always_on_top == b.always_on_top
    &&& a.view_mode == b.view_mode
    &&& window_config_eq(a.window, b.window)
}

/// A configuration every field of which may be used as it is.
pub open spec fn spec_semantically_valid(c: RuntimeConfig) -> bool {
    &&& 40 <= c.opacity <= 100
    &&& CONTENT_ZOOM_MIN <= c.content_zoom_percent.spec_value() <= CONTENT_ZOOM_MAX
    &&& MIN_WINDOW_WIDTH_DIP <= c.window.width_dip <= MAX_WINDOW_DIP
    &&& MIN_WINDOW_HEIGHT_DIP <= c.window.height_dip <= MAX_WINDOW_DIP
    &&& valid_ratio_bits(c.window.dock_offset_ratio.0)
    &&& valid_ratio_bits(c.window.floating_x_ratio.0)
    &&& valid_ratio_bits(c.window.floating_y_ratio.0)
}

impl WindowConfig {
    /// An equal copy.
    pub fn duplicate(&self) -> (r: WindowConfig)
        ensures
            r == *self,
    {
        WindowConfig {
            width_dip: self.width_dip,
            height_dip: self.height_dip,
            monitor_id: self.monitor_id.clone(),
            dock_edge: self.dock_edge,
            dock_offset_ratio: self.dock_offset_ratio,
            floating_x_ratio: self.floating_x_ratio,
            floating_y_ratio: self.floating_y_ratio,
        }
    }

    pub fn same_as(&self, other: &WindowConfig) -> (r: bool)
        ensures
            r == window_config_eq(*self, *other),
    {
        self.width_dip == other.width_dip && self.height_dip == other.height_dip
            && self.monitor_id == other.monitor_id && self.dock_edge == other.dock_edge
            && self.dock_offset_ratio.same_value(other.dock_offset_ratio)
            && self.floating_x_ratio.same_value(other.floating_x_ratio)
            && self.floating_y_ratio.same_value(other.floating_y_ratio)
    }
}

impl Default for WindowConfig {
    fn default() -> (r: WindowConfig)
        ensures
            r.width_dip == 520,
            r.height_dip == 680,
            r.monitor_id@ == Seq::<char>::empty(),
            r.dock_edge == DockEdge::Undocked,
            r.dock_offset_ratio.0 == 0x3f00_0000u32,
            r.floating_x_ratio.0 == 0x3f00_0000u32,
            r.floating_y_ratio.0 == 0x3e80_0000u32,
    {
        WindowConfig {
            width_dip: 520,
            height_dip: 680,
            monitor_id: String::new(),
            dock_edge: DockEdge::Undocked,
            dock_offset_ratio: RatioBits(0x3f00_0000u32),
            floating_x_ratio: RatioBits(0x3f00_0000u32),
            floating_y_ratio: RatioBits(0x3e80_0000u32),
        }
    }
}

impl Default for RuntimeConfig {
    fn default() -> (r: RuntimeConfig)
        ensures
            r.version == CONFIG_VERSION,
            r.theme == ThemeMode::Light,
            r.opacity == 96,
            r.content_zoom_percent.spec_value() == CONTENT_ZOOM_DEFAULT,
            r.split_scroll_sync,
            !r.always_on_top,
            r.view_mode == ViewMode::Source,
            r.window.width_dip == 520,
            r.window.height_dip == 680,
            r.window.monitor_id@ == Seq::<char>::empty(),
            r.window.dock_edge == DockEdge::Undocked,
            r.window.dock_offset_ratio.0 == 0x3f00_0000u32,
            r.window.floating_x_ratio.0 == 0x3f00_0000u32,
            r.window.floating_y_ratio.0 == 0x3e80_0000u32,
    {
        RuntimeConfig {
            version: CONFIG_VERSION,
            theme: ThemeMode::Light,
            opacity: 96,
            content_zoom_percent: ContentZoomPercent::default(),
            split_scroll_sync: true,
            always_on_top: false,
            view_mode: ViewMode::Source,
            window: WindowConfig::default(),
        }
    }
}

impl RuntimeConfig {
    /// An equal copy.
    pub fn duplicate(&self) -> (r: RuntimeConfig)
        ensures
            r == *self,
    {
        RuntimeConfig {
            version: self.version,
            theme: self.theme,
            opacity: self.opacity,
            content_zoom_percent: self.content_zoom_percent,
            split_scroll_sync: self.split_scroll_sync,
            always_on_top: self.always_on_top,
            view_mode: self.view_mode,
            window: self.window.duplicate(),
        }
    }

    pub fn same_as(&self, other: &RuntimeConfig) -> (r: bool)
        ensures
            r == config_eq(*self, *other),
    {
        self.version == other.version && self.theme == other.theme && self.opacity
            == other.opacity && self.content_zoom_percent == other.content_zoom_percent
            && self.split_scroll_sync == other.split_scroll_sync && self.always_on_top
            == other.always_on_top && self.view_mode == other.view_mode && self.window.same_as(
            &other.window,
        )
    }

    /// Whether every field is within its supported range.
    pub fn is_semantically_valid(&self) -> (r: bool)
        ensures
            r == spec_semantically_valid(*self),
    {
        40 <= self.opacity && self.opacity <= 100 && self.content_zoom_percent.is_valid()
            && MIN_WINDOW_WIDTH_DIP <= self.window.width_dip && self.window.width_dip
            <= MAX_WINDOW_DIP && MIN_WINDOW_HEIGHT_DIP <= self.window.height_dip
            && self.window.height_dip <= MAX_WINDOW_DIP
            && self.window.dock_offset_ratio.is_valid_ratio()
            && self.window.floating_x_ratio.is_valid_ratio()
            && self.window.floating_y_ratio.is_valid_ratio()
    }
}

}
