//! Shell modes and settings, and bookkeeping of the oscillator list and its active tab.
use vstd::prelude::*;

verus! {

#[derive(Debug, Clone, Copy, PartialEq, Eq, Structural)]
pub enum WtView3dMode {
    Stack,
    /// Default Design right pane: full bank frame morph mesh.
    Morph,
}

impl Default for WtView3dMode {
    fn default() -> (r: Self)
        ensures
            r == WtView3dMode::Morph,
    {
        WtView3dMode::Morph
    }
}

#[derive(Debug, Clone, Copy, PartialEq, Eq, Structural)]
pub enum ShellMode {
    Design,
    Compose,
}

impl Default for ShellMode {
    fn default() -> (r: Self)
        ensures
            r == ShellMode::Design,
    {
        ShellMode::Design
    }
}

#[derive(Debug, Clone, Copy, PartialEq, Eq, Structural)]
pub struct ShellConfig {
    pub show_wt_editor: bool,
    pub show_osc_column: bool,
    pub show_mod_matrix: bool,
    pub show_fx_rack: bool,
}

impl Default for ShellConfig {
    /// Every optional section hidden.
    fn default() -> (r: Self)
        ensures
            !r.show_wt_editor && !r.show_osc_column && !r.show_mod_matrix && !r.show_fx_rack,
    {
        ShellConfig {
            show_wt_editor: false,
            show_osc_column: false,
            show_mod_matrix: false,
            show_fx_rack: false,
        }
    }
}

/// App-level settings shown in the header Settings dropdown (not a modal).
#[derive(Debug, Clone)]
pub struct ShellAppSettings {
    pub graphics_backend_idx: usize,
    pub gpu_waveforms: bool,
    pub auto_midi_keyboard: bool,
    pub auto_audio_output: bool,
    pub keyboard_layout_idx: usize,
    pub pending_backend_restart: bool,
    /// Display-only label for detected computer keyboard layout.
    pub detected_keyboard_label: String,
    /// Set by the Settings menu when any control changes.
    pub dirty: bool,
}

/// Graphics backend names; index 0 is automatic selection.
pub open spec fn backend_labels() -> Seq<Seq<char>> {
    seq!["Auto"@, "GPU (WGPU)"@, "OpenGL (Glow)"@]
}

/// Keyboard layout names; index 0 is automatic detection.
pub open spec fn keyboard_layout_labels() -> Seq<Seq<char>> {
    seq!["Auto"@, "QWERTY"@, "AZERTY"@, "QWERTZ"@]
}

/// Entry `i` of `names`, or `Auto` past its end.
pub open spec fn label_or_auto(names: Seq<Seq<char>>, i: nat) -> Seq<char> {
    if i < names.len() {
        names[i as int]
    } else {
        "Auto"@
    }
}

impl Default for ShellAppSettings {
    /// Automatic backend and layout, GPU waveforms, auto MIDI and audio, QWERTY shown.
    fn default() -> (r: Self)
        ensures
            r.graphics_backend_idx == 0,
            r.gpu_waveforms,
            r.auto_midi_keyboard,
            r.auto_audio_output,
            r.keyboard_layout_idx == 0,
            !r.pending_backend_restart,
            r.detected_keyboard_label@ == "QWERTY"@,
            !r.dirty,
    {
        ShellAppSettings {
            graphics_backend_idx: 0,
            gpu_waveforms: true,
            auto_midi_keyboard: true,
            auto_audio_output: true,
            keyboard_layout_idx: 0,
            pending_backend_restart: false,
            detected_keyboard_label: crate::text::string_of("QWERTY"),
            dirty: false,
        }
    }
}

impl ShellAppSettings {
    /// Select graphics backend `i` from the settings menu: choosing another backend
    /// records it, marks a restart as pending and the settings as changed; choosing the
    /// current one changes nothing.
    pub fn pick_backend(&mut self, i: usize)
        ensures
            old(self).graphics_backend_idx == i ==> *final(self) == *old(self),
            old(self).graphics_backend_idx != i ==> *final(self) == (ShellAppSettings {
                graphics_backend_idx: i,
                pending_backend_restart: true,
                dirty: true,
                ..*old(self)
            }),
    {
        if self.graphics_backend_idx != i {
            self.graphics_backend_idx = i;
            self.pending_backend_restart = true;
            self.dirty = true;
        }
    }

    pub fn backend_label(&self) -> (r: &'static str)
        ensures
            r@ == label_or_auto(backend_labels(), self.graphics_backend_idx as nat),
    {
        match self.graphics_backend_idx {
            0 => "Auto",
            1 => "GPU (WGPU)",
            2 => "OpenGL (Glow)",
            _ => "Auto",
        }
    }

    pub fn layout_label(&self) -> (r: &'static str)
        ensures
            r@ == label_or_auto(keyboard_layout_labels(), self.keyboard_layout_idx as nat),
    {
        match self.keyboard_layout_idx {
            0 => "Auto",
            1 => "QWERTY",
            2 => "AZERTY",
            3 => "QWERTZ",
            _ => "Auto",
        }
    }
}

pub struct ShellMidiDevices<'a> {
    pub names: &'a [String],
    pub selected: usize,
}

pub struct ShellAudioDevices<'a> {
    pub names: &'a [String],
    pub selected: usize,
}

/// Fewest oscillators the Design shell keeps.
pub const MIN_OSCILLATORS: usize = 1;

/// Index of the active oscillator: the tab clamped to the last oscillator (0 when none).
pub open spec fn spec_active_index(osc_tab: nat, count: nat) -> nat {
    if count == 0 {
        0
    } else if osc_tab < count {
        osc_tab
    } else {
        (count - 1) as nat
    }
}

/// Index of the active oscillator for tab `osc_tab` among `count` oscillators.
pub fn active_osc_index(osc_tab: usize, count: usize) -> (r: usize)
    ensures
        r == spec_active_index(osc_tab as nat, count as nat),
{
    let last = if count == 0 {
        0
    } else {
        count - 1
    };
    if osc_tab < last {
        osc_tab
    } else {
        last
    }
}

/// Append an oscillator and make it the active tab.
pub fn add_oscillator<T>(oscillators: &mut Vec<T>, osc_tab: &mut usize, osc: T)
    requires
        old(oscillators)@.len() < usize::MAX,
    ensures
        final(oscillators)@ == old(oscillators)@.push(osc),
        *final(osc_tab) == old(oscillators)@.len(),
{
    oscillators.push(osc);
    *osc_tab = oscillators.len() - 1;
}

/// Remove the oscillator at `index` unless only the minimum remain or the index is out
/// of range; the active tab is clamped to the remaining oscillators.
pub fn remove_oscillator<T>(oscillators: &mut Vec<T>, osc_tab: &mut usize, index: usize)
    ensures
        old(oscillators)@.len() <= MIN_OSCILLATORS || index >= old(oscillators)@.len() ==> {
            &&& final(oscillators)@ == old(oscillators)@
            &&& *final(osc_tab) == *old(osc_tab)
        },
        old(oscillators)@.len() > MIN_OSCILLATORS && index < old(oscillators)@.len() ==> {
            &&& final(oscillators)@ == old(oscillators)@.remove(index as int)
            &&& *final(osc_tab) == spec_active_index(
                *old(osc_tab) as nat,
                final(oscillators)@.len(),
            )
        },
{
    if oscillators.len() <= MIN_OSCILLATORS {
        return;
    }
    if index < oscillators.len() {
        oscillators.remove(index);
        *osc_tab = active_osc_index(*osc_tab, oscillators.len());
    }
}

/// The active index always names an existing oscillator when there is one.
pub proof fn lemma_active_index_in_range(osc_tab: nat, count: nat)
    requires
        count > 0,
    ensures
        spec_active_index(osc_tab, count) < count,
{
}

/// Removing an oscillator never drops below the minimum and leaves the active tab
/// pointing at an existing oscillator.
pub proof fn lemma_remove_keeps_minimum<T>(before: Seq<T>, index: int, tab: nat)
    requires
        before.len() > MIN_OSCILLATORS,
        0 <= index < before.len(),
    ensures
        before.remove(index).len() >= MIN_OSCILLATORS,
        spec_active_index(tab, before.remove(index).len()) < before.remove(index).len(),
{
}

} // verus!
