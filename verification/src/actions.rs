//! Per-frame results that panels hand back to the shell, and the compose tools.
use vstd::prelude::*;

verus! {

/// Result of drawing the filter chain.
pub struct FilterRackResult {
    pub changed: bool,
}

/// Result of drawing the effect rack.
pub struct FxRackResult {
    pub changed: bool,
}

/// Result of drawing the overtone filter chain.
pub struct OvertoneRackResult {
    pub changed: bool,
}

/// Result of drawing the oscillator column.
pub struct OscColumnResult {
    pub changed: bool,
    pub osc_count_changed: bool,
}

pub struct ArrangementActions {
    pub clip_selected: bool,
    pub clip_created: bool,
    pub playhead_scrubbed: bool,
    pub sequence_changed: bool,
}

impl Default for ArrangementActions {
    fn default() -> (r: Self)
        ensures
            !r.clip_selected && !r.clip_created && !r.playhead_scrubbed && !r.sequence_changed,
    {
        ArrangementActions {
            clip_selected: false,
            clip_created: false,
            playhead_scrubbed: false,
            sequence_changed: false,
        }
    }
}

pub struct SceneGridActions {
    pub scene_launched: Option<usize>,
}

impl Default for SceneGridActions {
    fn default() -> (r: Self)
        ensures
            r.scene_launched is None,
    {
        SceneGridActions { scene_launched: None }
    }
}

pub struct TrackListActions {
    pub selection_changed: bool,
    pub track_state_changed: bool,
}

impl Default for TrackListActions {
    fn default() -> (r: Self)
        ensures
            !r.selection_changed && !r.track_state_changed,
    {
        TrackListActions { selection_changed: false, track_state_changed: false }
    }
}

pub struct TransportBarActions {
    pub play: bool,
    pub stop: bool,
    pub record: bool,
    pub params_changed: bool,
}

impl Default for TransportBarActions {
    fn default() -> (r: Self)
        ensures
            !r.play && !r.stop && !r.record && !r.params_changed,
    {
        TransportBarActions { play: false, stop: false, record: false, params_changed: false }
    }
}

pub struct ArpPanelActions {
    pub params_changed: bool,
}

impl Default for ArpPanelActions {
    fn default() -> (r: Self)
        ensures
            !r.params_changed,
    {
        ArpPanelActions { params_changed: false }
    }
}

pub struct ChordGridActions {
    pub chord_degree_on: Option<usize>,
    pub chord_degree_off: Option<usize>,
}

impl Default for ChordGridActions {
    fn default() -> (r: Self)
        ensures
            r.chord_degree_on is None && r.chord_degree_off is None,
    {
        ChordGridActions { chord_degree_on: None, chord_degree_off: None }
    }
}

pub struct PerformanceHeaderActions {
    pub params_changed: bool,
    pub chord_degree_on: Option<usize>,
    pub chord_degree_off: Option<usize>,
}

impl Default for PerformanceHeaderActions {
    fn default() -> (r: Self)
        ensures
            !r.params_changed && r.chord_degree_on is None && r.chord_degree_off is None,
    {
        PerformanceHeaderActions {
            params_changed: false,
            chord_degree_on: None,
            chord_degree_off: None,
        }
    }
}

/// Which optional sections the single-screen shell shows.
#[derive(Debug, Clone, Copy, PartialEq, Eq, Structural)]
pub struct S1ShellConfig {
    /// 2D waveform + 3D mesh panels in the center column.
    pub show_wt_editor: bool,
    /// Osc column and live ADSR/LFO rail.
    pub show_osc_column: bool,
    /// Modulation matrix section below the main columns.
    pub show_mod_matrix: bool,
    /// FX rack section below the mod matrix.
    pub show_fx_rack: bool,
}

impl Default for S1ShellConfig {
    fn default() -> (r: Self)
        ensures
            !r.show_wt_editor && !r.show_osc_column && !r.show_mod_matrix && !r.show_fx_rack,
    {
        S1ShellConfig {
            show_wt_editor: false,
            show_osc_column: false,
            show_mod_matrix: false,
            show_fx_rack: false,
        }
    }
}

/// Requests raised by the single-screen shell in one frame.
pub struct S1Actions {
    pub params_changed: bool,
    pub note_on: Option<u8>,
    pub note_off: Option<u8>,
    pub open_preset: bool,
    pub save_preset: bool,
    pub import_wt_file: bool,
    pub save_wt_file: bool,
    pub import_factory_wt: Option<String>,
    pub import_vital_wt: bool,
    pub import_wav_folder: bool,
    pub import_serum_fxp: bool,
    pub frame_edited: bool,
    pub midi_device_selected: Option<usize>,
}

impl Default for S1Actions {
    /// No request raised.
    fn default() -> (r: Self)
        ensures
            !r.params_changed && r.note_on is None && r.note_off is None && !r.open_preset
                && !r.save_preset && !r.import_wt_file && !r.save_wt_file
                && r.import_factory_wt is None && !r.import_vital_wt && !r.import_wav_folder
                && !r.import_serum_fxp && !r.frame_edited && r.midi_device_selected is None,
    {
        S1Actions {
            params_changed: false,
            note_on: None,
            note_off: None,
            open_preset: false,
            save_preset: false,
            import_wt_file: false,
            save_wt_file: false,
            import_factory_wt: None,
            import_vital_wt: false,
            import_wav_folder: false,
            import_serum_fxp: false,
            frame_edited: false,
            midi_device_selected: None,
        }
    }
}

pub struct S1MidiDevices<'a> {
    pub names: &'a [String],
    pub selected: usize,
}

/// Piano-roll editing tool.
#[derive(Clone, Copy, Debug, PartialEq, Eq, Structural)]
pub enum PianoRollTool {
    Select,
    Pencil,
    Eraser,
}

/// Notes pressed and released on the on-screen piano in one frame.
pub struct PianoResponse {
    pub note_on: Option<u8>,
    pub note_off: Option<u8>,
}

} // verus!
