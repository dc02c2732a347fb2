//! Widget kinds and states, and short value labels.
use vstd::prelude::*;

use crate::text::{decimal, string_of, usize_to_decimal};

verus! {

#[derive(Clone, Copy, Debug, PartialEq, Eq, Structural)]
pub enum ButtonVariant {
    Primary,
    GhostStyle,
    Toggle,
    Tool,
    Icon,
}

#[derive(Clone, Copy, Debug, PartialEq, Eq, Structural)]
pub struct ButtonState {
    pub active: bool,
    pub enabled: bool,
}

impl Default for ButtonState {
    /// Inactive and enabled.
    fn default() -> (r: Self)
        ensures
            !r.active,
            r.enabled,
    {
        ButtonState { active: false, enabled: true }
    }
}

impl ButtonState {
    /// State of a toggle button: active when `on`, always enabled.
    pub fn toggle(on: bool) -> (r: Self)
        ensures
            r.active == on,
            r.enabled,
    {
        ButtonState { active: on, enabled: true }
    }

    /// State of a tool-strip button.
    pub fn tool(active: bool, enabled: bool) -> (r: Self)
        ensures
            r.active == active,
            r.enabled == enabled,
    {
        ButtonState { active, enabled }
    }
}

#[derive(Clone, Copy, Debug, PartialEq, Eq, Structural)]
pub enum KnobSize {
    Sm,
    Md,
    Lg,
}

#[derive(Clone, Copy, Debug, PartialEq, Eq, Structural)]
pub enum KnobStyle {
    Normal,
    Wired,
    Disabled,
}

impl Default for KnobStyle {
    fn default() -> (r: Self)
        ensures
            r == KnobStyle::Normal,
    {
        KnobStyle::Normal
    }
}

impl KnobStyle {
    /// Whether a knob drawn in this style takes input (every style but `Disabled`).
    pub fn is_enabled(self) -> (r: bool)
        ensures
            r == (self != KnobStyle::Disabled),
    {
        match self {
            KnobStyle::Disabled => false,
            _ => true,
        }
    }
}

/// `1 voice` for zero or one voices, else `N voices`.
pub fn format_unison(count: u32) -> (r: String)
    ensures
        r@ == if count <= 1 {
            "1 voice"@
        } else {
            decimal(count as nat) + " voices"@
        },
{
    if count <= 1 {
        string_of("1 voice")
    } else {
        let mut out = usize_to_decimal(count as usize);
        out.append(" voices");
        out
    }
}

} // verus!
