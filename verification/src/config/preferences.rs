//! Typed window-preference coordination through the single config authority.

use vstd::prelude::*;

use super::coordinator::{ConfigCoordinator, ConfigRevisionExhausted, ConfigView};
use super::runtime::{ContentZoomPercent, RuntimeConfig, ThemeMode};

verus! {

/// Window preference instructions emitted by the shell.
#[derive(Debug, Clone, Copy, PartialEq, Eq, Structural)]
pub enum WindowPreferenceIntent {
    SetTheme(ThemeMode),
    PreviewOpacity(u8),
    CommitOpacity(u8),
    SetAlwaysOnTop(bool),
    SetContentZoom(ContentZoomPercent),
}

/// Capability request produced after the sole config authority accepts an intent.
#[derive(Debug, Clone, Copy, PartialEq, Eq, Structural)]
pub enum WindowPreferenceEffect {
    NoOp,
    ApplyTheme(ThemeMode),
    ApplyOpacity { opacity: u8, persist: bool },
    ApplyAlwaysOnTop(bool),
    ApplyContentZoom(ContentZoomPercent),
}

pub open spec fn clamp_opacity(value: u8) -> u8 {
    if value < 40 {
        40
    } else if value > 100 {
        100
    } else {
        value
    }
}

pub fn clamped_opacity(value: u8) -> (r: u8)
    ensures
        r == clamp_opacity(value),
{
    if value < 40 {
        40
    } else if value > 100 {
        100
    } else {
        value
    }
}

/// The configuration an accepted intent asks for, if it asks for one.
pub open spec fn requested_config(current: RuntimeConfig, intent: WindowPreferenceIntent) -> Option<
    RuntimeConfig,
> {
    match intent {
        WindowPreferenceIntent::SetTheme(theme) => Some(RuntimeConfig { theme, ..current }),
        WindowPreferenceIntent::PreviewOpacity(_) => None,
        WindowPreferenceIntent::CommitOpacity(o) => Some(
            RuntimeConfig { opacity: clamp_opacity(o), ..current },
        ),
        WindowPreferenceIntent::SetAlwaysOnTop(t) => Some(RuntimeConfig { always_on_top: t, ..current }),
        WindowPreferenceIntent::SetContentZoom(z) => Some(
            RuntimeConfig { content_zoom_percent: z, ..current },
        ),
    }
}

/// The outcome of one preference intent on the configuration authority.
pub open spec fn spec_coordinate(v: ConfigView, intent: WindowPreferenceIntent) -> (
    ConfigView,
    Result<WindowPreferenceEffect, ConfigRevisionExhausted>,
) {
    match intent {
        WindowPreferenceIntent::PreviewOpacity(o) => (
            v,
            Ok(WindowPreferenceEffect::ApplyOpacity { opacity: clamp_opacity(o), persist: false }),
        ),
        _ => {
            let (next, r) = v.updated(requested_config(v.current, intent)->0);
            (
                next,
                match r {
                    Err(e) => Err(e),
                    Ok(changed) => Ok(
                        match intent {
                            WindowPreferenceIntent::SetTheme(theme) => if changed {
                                WindowPreferenceEffect::ApplyTheme(theme)
                            } else {
                                WindowPreferenceEffect::NoOp
                            },
                            WindowPreferenceIntent::CommitOpacity(o) => WindowPreferenceEffect::ApplyOpacity {
                                opacity: clamp_opacity(o),
                                persist: changed,
                            },
                            WindowPreferenceIntent::SetAlwaysOnTop(t) => if changed {
                                WindowPreferenceEffect::ApplyAlwaysOnTop(t)
                            } else {
                                WindowPreferenceEffect::NoOp
                            },
                            WindowPreferenceIntent::SetContentZoom(z) => if changed {
                                WindowPreferenceEffect::ApplyContentZoom(z)
                            } else {
                                WindowPreferenceEffect::NoOp
                            },
                            WindowPreferenceIntent::PreviewOpacity(o) => WindowPreferenceEffect::NoOp,
                        },
                    ),
                },
            )
        },
    }
}

/// Applies one typed preference instruction to the configuration authority.
pub fn coordinate_window_preference(
    config: &mut ConfigCoordinator,
    intent: WindowPreferenceIntent,
) -> (r: Result<WindowPreferenceEffect, ConfigRevisionExhausted>)
    ensures
        (final(config)@, r) == spec_coordinate(old(config)@, intent),
{
    match intent {
        WindowPreferenceIntent::SetTheme(theme) => {
            let mut candidate = config.current().duplicate();
            candidate.theme = theme;
            if config.update(candidate)? {
                Ok(WindowPreferenceEffect::ApplyTheme(theme))
            } else {
                Ok(WindowPreferenceEffect::NoOp)
            }
        },
        WindowPreferenceIntent::PreviewOpacity(opacity) => {
            Ok(WindowPreferenceEffect::ApplyOpacity { opacity: clamped_opacity(opacity), persist: false })
        },
        WindowPreferenceIntent::CommitOpacity(opacity) => {
            let opacity = clamped_opacity(opacity);
            let mut candidate = config.current().duplicate();
            candidate.opacity = opacity;
            let persist = config.update(candidate)?;
            Ok(WindowPreferenceEffect::ApplyOpacity { opacity, persist })
        },
        WindowPreferenceIntent::SetAlwaysOnTop(topmost) => {
            let mut candidate = config.current().duplicate();
            candidate.always_on_top = topmost;
            if config.update(candidate)? {
                Ok(WindowPreferenceEffect::ApplyAlwaysOnTop(topmost))
            } else {
                Ok(WindowPreferenceEffect::NoOp)
            }
        },
        WindowPreferenceIntent::SetContentZoom(zoom) => {
            let mut candidate = config.current().duplicate();
            candidate.content_zoom_percent = zoom;
            if config.update(candidate)? {
                Ok(WindowPreferenceEffect::ApplyContentZoom(zoom))
            } else {
                Ok(WindowPreferenceEffect::NoOp)
            }
        },
    }
}

/// Previewing an opacity never touches the configuration; committed opacities
/// are always within 40..=100.
pub proof fn lemma_opacity_previews_do_not_persist(v: ConfigView, o: u8)
    ensures
        spec_coordinate(v, WindowPreferenceIntent::PreviewOpacity(o)).0 == v,
        40 <= clamp_opacity(o) <= 100,
        spec_coordinate(v, WindowPreferenceIntent::CommitOpacity(o)).1 matches Ok(
            WindowPreferenceEffect::ApplyOpacity { opacity, .. },
        ) ==> opacity == clamp_opacity(o),
{
}

}
