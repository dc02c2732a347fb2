//! Shell layout options and where the modulation / FX sections are placed.
use vstd::prelude::*;

verus! {

/// Layout options for the performance / full shell.
#[derive(Debug, Clone, Copy, PartialEq, Eq, Structural)]
pub struct ShellLayoutOptions {
    pub piano_visible: bool,
    pub show_osc_column: bool,
    pub show_mod_matrix: bool,
    pub mod_matrix_open: bool,
    pub show_fx_rack: bool,
    pub fx_rack_open: bool,
}

impl Default for ShellLayoutOptions {
    /// Piano shown, osc column / mod matrix / FX rack hidden, sections open when shown.
    fn default() -> (r: Self)
        ensures
            r.piano_visible,
            !r.show_osc_column,
            !r.show_mod_matrix,
            r.mod_matrix_open,
            !r.show_fx_rack,
            r.fx_rack_open,
    {
        ShellLayoutOptions {
            piano_visible: true,
            show_osc_column: false,
            show_mod_matrix: false,
            mod_matrix_open: true,
            show_fx_rack: false,
            fx_rack_open: true,
        }
    }
}

/// Mod matrix + FX live in the center column when the osc column is visible.
pub fn embed_mod_fx_in_center(options: ShellLayoutOptions) -> (r: bool)
    ensures
        r == (options.show_osc_column && (options.show_mod_matrix || options.show_fx_rack)),
{
    options.show_osc_column && (options.show_mod_matrix || options.show_fx_rack)
}

/// Whether the bottom modulation strip takes height in the shell: it is shown and
/// not embedded in the center column.
pub fn bottom_mod_strip_visible(options: ShellLayoutOptions) -> (r: bool)
    ensures
        r == (options.show_mod_matrix && !embed_mod_fx_in_center_spec(options)),
{
    options.show_mod_matrix && !embed_mod_fx_in_center(options)
}

/// Whether the bottom FX strip takes height in the shell: it is shown and not embedded
/// in the center column.
pub fn bottom_fx_strip_visible(options: ShellLayoutOptions) -> (r: bool)
    ensures
        r == (options.show_fx_rack && !embed_mod_fx_in_center_spec(options)),
{
    options.show_fx_rack && !embed_mod_fx_in_center(options)
}

pub open spec fn embed_mod_fx_in_center_spec(options: ShellLayoutOptions) -> bool {
    options.show_osc_column && (options.show_mod_matrix || options.show_fx_rack)
}

/// High-level auditable shell regions (legacy + registry bridge).
#[derive(Debug, Clone, Copy, PartialEq, Eq, Structural)]
pub enum AuditElement {
    Header,
    Osc,
    Center,
    Rail,
    Footer,
    ModStrip,
    FxStrip,
    PianoWrap,
}

/// Name an element is reported under when its content leaves its bounds.
pub fn audit_element_label(element: AuditElement) -> (r: &'static str)
    ensures
        r@ == match element {
            AuditElement::Header => "header"@,
            AuditElement::Osc => "osc"@,
            AuditElement::Center => "center"@,
            AuditElement::Rail => "rail"@,
            AuditElement::Footer => "footer"@,
            AuditElement::ModStrip => "mod_strip"@,
            AuditElement::FxStrip => "fx_strip"@,
            AuditElement::PianoWrap => "piano_wrap"@,
        },
{
    match element {
        AuditElement::Header => "header",
        AuditElement::Osc => "osc",
        AuditElement::Center => "center",
        AuditElement::Rail => "rail",
        AuditElement::Footer => "footer",
        AuditElement::ModStrip => "mod_strip",
        AuditElement::FxStrip => "fx_strip",
        AuditElement::PianoWrap => "piano_wrap",
    }
}

} // verus!
