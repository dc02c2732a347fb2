//! Registry of auditable UI subelements: their stable labels, which automated checks
//! apply to each, the element whose bounds contain each, and the shell region each
//! falls back to.
use vstd::prelude::*;

use crate::text::{decimal, lemma_decimal_injective, string_of, usize_to_decimal};

verus! {

/// Which automated checks apply to a registry entry.
#[derive(Debug, Clone, Copy, PartialEq, Eq, Structural)]
pub struct AuditChecks {
    pub bounds: bool,
    pub overlap: bool,
    pub overflow: bool,
    pub contrast: bool,
    pub utilization: bool,
}

/// Preset `B`: bounds.
pub open spec fn spec_bounds_only() -> AuditChecks {
    AuditChecks { bounds: true, overlap: false, overflow: false, contrast: false, utilization: false }
}

/// Preset `BO`: bounds, overlap.
pub open spec fn spec_bounds_overlap() -> AuditChecks {
    AuditChecks { bounds: true, overlap: true, overflow: false, contrast: false, utilization: false }
}

/// Preset `BX`: bounds, overflow.
pub open spec fn spec_bounds_overflow() -> AuditChecks {
    AuditChecks { bounds: true, overlap: false, overflow: true, contrast: false, utilization: false }
}

/// Preset `BU`: bounds, utilization.
pub open spec fn spec_bounds_utilization() -> AuditChecks {
    AuditChecks { bounds: true, overlap: false, overflow: false, contrast: false, utilization: true }
}

/// Preset `BUX`: bounds, overflow, utilization.
pub open spec fn spec_bounds_utilization_overflow() -> AuditChecks {
    AuditChecks { bounds: true, overlap: false, overflow: true, contrast: false, utilization: true }
}

/// Preset `BOX`: bounds, overlap, overflow.
pub open spec fn spec_bounds_overlap_overflow() -> AuditChecks {
    AuditChecks { bounds: true, overlap: true, overflow: true, contrast: false, utilization: false }
}

/// Preset `C`: contrast.
pub open spec fn spec_contrast_only() -> AuditChecks {
    AuditChecks { bounds: false, overlap: false, overflow: false, contrast: true, utilization: false }
}

/// Preset `BC`: bounds, contrast.
pub open spec fn spec_bounds_contrast() -> AuditChecks {
    AuditChecks { bounds: true, overlap: false, overflow: false, contrast: true, utilization: false }
}

/// Preset `X`: overflow.
pub open spec fn spec_overflow_only() -> AuditChecks {
    AuditChecks { bounds: false, overlap: false, overflow: true, contrast: false, utilization: false }
}

impl AuditChecks {
    pub fn bounds_only() -> (r: Self)
        ensures
            r == spec_bounds_only(),
    {
        AuditChecks { bounds: true, overlap: false, overflow: false, contrast: false, utilization: false }
    }

    pub fn bounds_overlap() -> (r: Self)
        ensures
            r == spec_bounds_overlap(),
    {
        AuditChecks { bounds: true, overlap: true, overflow: false, contrast: false, utilization: false }
    }

    pub fn bounds_overflow() -> (r: Self)
        ensures
            r == spec_bounds_overflow(),
    {
        AuditChecks { bounds: true, overlap: false, overflow: true, contrast: false, utilization: false }
    }

    pub fn bounds_utilization() -> (r: Self)
        ensures
            r == spec_bounds_utilization(),
    {
        AuditChecks { bounds: true, overlap: false, overflow: false, contrast: false, utilization: true }
    }

    pub fn bounds_utilization_overflow() -> (r: Self)
        ensures
            r == spec_bounds_utilization_overflow(),
    {
        AuditChecks { bounds: true, overlap: false, overflow: true, contrast: false, utilization: true }
    }

    pub fn bounds_overlap_overflow() -> (r: Self)
        ensures
            r == spec_bounds_overlap_overflow(),
    {
        AuditChecks { bounds: true, overlap: true, overflow: true, contrast: false, utilization: false }
    }

    pub fn contrast_only() -> (r: Self)
        ensures
            r == spec_contrast_only(),
    {
        AuditChecks { bounds: false, overlap: false, overflow: false, contrast: true, utilization: false }
    }

    pub fn bounds_contrast() -> (r: Self)
        ensures
            r == spec_bounds_contrast(),
    {
        AuditChecks { bounds: true, overlap: false, overflow: false, contrast: true, utilization: false }
    }

    pub fn overflow_only() -> (r: Self)
        ensures
            r == spec_overflow_only(),
    {
        AuditChecks { bounds: false, overlap: false, overflow: true, contrast: false, utilization: false }
    }

    /// No check enabled.
    pub fn none() -> (r: Self)
        ensures
            !r.bounds && !r.overlap && !r.overflow && !r.contrast && !r.utilization,
    {
        AuditChecks { bounds: false, overlap: false, overflow: false, contrast: false, utilization: false }
    }
}

impl Default for AuditChecks {
    fn default() -> (r: Self)
        ensures
            !r.bounds && !r.overlap && !r.overflow && !r.contrast && !r.utilization,
    {
        AuditChecks::none()
    }
}

/// One variant per subelement in the UI audit registry.
#[derive(Debug, Clone, Copy, PartialEq, Eq, Hash, Structural)]
pub enum AuditId {
    ShellHeader,
    ShellMain,
    ShellFooter,
    ShellModStrip,
    ShellFxStrip,
    ShellPianoWrap,
    HeaderBrand,
    HeaderOpenBtn,
    HeaderSaveBtn,
    HeaderModeDesign,
    HeaderModeCompose,
    HeaderPerformance,
    HeaderWtMenu,
    HeaderSettingsMenu,
    HeaderMidiCombo,
    HeaderAudioCombo,
    HeaderPianoToggle,
    HeaderLeftCluster,
    HeaderRightCluster,
    OscColumn,
    OscPanelOscillators,
    OscStripCards,
    OscTypeSelect,
    OscKnobsLevelPanCoarse,
    OscWtQuant,
    OscWtPositionSlider,
    OscWarpSelect,
    OscWarpAmtSlider,
    OscPulseWidth,
    OscUnisonSlider,
    OscSpreadSlider,
    OscPanelStack,
    OscStackLayerRow(usize),
    OscPanelFm,
    OscFmAlgorithm,
    OscFmKnobs,
    OscFxPanel,
    OscFxSlot(usize),
    OscFxSlotHeader(usize),
    OscFxSlotParams(usize),
    OscFxAddBtn,
    OscModPanel,
    OscModRow(usize),
    OscModSourceSelect(usize),
    OscModTargetSelect(usize),
    OscModAmountDrag(usize),
    CenterColumn,
    CenterScope,
    CenterScopeCellOsc,
    CenterScopeCellFilter,
    CenterScopeCellFx,
    CenterScopeCellOut,
    CenterWtStrip,
    CenterWtStripCell(usize),
    CenterWtStripLayerChip(usize),
    CenterWtMorph,
    CenterWtViews,
    CenterWt2d,
    CenterWt2dToolbar,
    CenterWt2dPlot,
    CenterWt2dResult,
    CenterWtResult,
    CenterWtSelected,
    CenterWt2dCurveEditor,
    CenterWt2dShapeEditor,
    CenterWt2dAnalyzeDialog,
    CenterWt3dStack,
    CenterWt3dMorph,
    CenterWt3dModeToggle,
    CenterPiano,
    RailColumn,
    RailPanelFilter,
    RailFilterTabs,
    RailFilterKnobs,
    RailPanelFiltEnv,
    RailFiltEnvGraph,
    RailFiltEnvKnobs,
    RailPanelAmpEnv,
    RailAmpEnvGraph,
    RailAmpEnvKnobs,
    RailPanelLfos,
    RailLfo1Block,
    RailLfo2Block,
    RailLevelMeter,
    FooterStatus,
    FooterChordGrid,
    FooterChordPad(usize),
    FooterPianoCompact,
    ComposeTransport,
    ComposeTransportPlay,
    ComposeTransportBpm,
    ComposeTransportSnap,
    ComposeTrackList,
    ComposeTrackRow(usize),
    ComposeArrangement,
    ComposeArrangementClip(usize),
    ComposePianoRoll,
    ComposeRollToolbar,
    ComposeRollKeys,
    ComposeRollGrid,
    ComposeRollVelocity,
    ComposeRollAutomation,
    ComposeSceneGrid,
    ComposeSceneCell(usize),
    WidgetKnobSm,
    WidgetKnobMd,
    WidgetKnobLg,
    WidgetPanel,
    WidgetSidebarPanel,
    WidgetLabeledSelect,
    WidgetReelCombo,
    WidgetTabBar,
    WidgetButtonGhost,
    WidgetButtonToggle,
    WidgetAdsrGraph,
}

/// Shell layout region an element falls back to when it has no recorded parent.
#[derive(Debug, Clone, Copy, PartialEq, Eq, Structural)]
pub enum ShellRegion {
    Header,
    Main,
    Footer,
    ModMatrix,
    FxRack,
    PianoWrap,
    Osc,
    Center,
    Rail,
}

/// Where the bounds that contain an element come from.
#[derive(Debug, Clone, Copy, PartialEq, Eq, Structural)]
pub enum AuditParent {
    /// The recorded bounds of this element, else the shell region.
    Element(AuditId),
    /// The recorded bounds of FX slot `i`, else those of the FX panel; no shell fallback.
    FxSlotOrPanel(usize),
    /// Only the shell region.
    ShellOnly,
}

/// Stable label of a non-indexed element (`unknown` for indexed ones).
pub open spec fn static_label_of(id: AuditId) -> Seq<char> {
    match id {
        AuditId::ShellHeader => "shell.header"@,
        AuditId::ShellMain => "shell.main"@,
        AuditId::ShellFooter => "shell.footer"@,
        AuditId::ShellModStrip => "shell.mod_strip"@,
        AuditId::ShellFxStrip => "shell.fx_strip"@,
        AuditId::ShellPianoWrap => "shell.piano_wrap"@,
        AuditId::HeaderBrand => "header.brand"@,
        AuditId::HeaderOpenBtn => "header.open_btn"@,
        AuditId::HeaderSaveBtn => "header.save_btn"@,
        AuditId::HeaderModeDesign => "header.mode_design"@,
        AuditId::HeaderModeCompose => "header.mode_compose"@,
        AuditId::HeaderPerformance => "header.performance"@,
        AuditId::HeaderWtMenu => "header.wt_menu"@,
        AuditId::HeaderSettingsMenu => "header.settings_menu"@,
        AuditId::HeaderMidiCombo => "header.midi_combo"@,
        AuditId::HeaderAudioCombo => "header.audio_combo"@,
        AuditId::HeaderPianoToggle => "header.piano_toggle"@,
        AuditId::HeaderLeftCluster => "header.left_cluster"@,
        AuditId::HeaderRightCluster => "header.right_cluster"@,
        AuditId::OscColumn => "osc.column"@,
        AuditId::OscPanelOscillators => "osc.panel_oscillators"@,
        AuditId::OscStripCards => "osc.strip_cards"@,
        AuditId::OscTypeSelect => "osc.type_select"@,
        AuditId::OscKnobsLevelPanCoarse => "osc.knobs_level_pan_coarse"@,
        AuditId::OscWtQuant => "osc.wt_quant"@,
        AuditId::OscWtPositionSlider => "osc.wt_position_slider"@,
        AuditId::OscWarpSelect => "osc.warp_select"@,
        AuditId::OscWarpAmtSlider => "osc.warp_amt_slider"@,
        AuditId::OscPulseWidth => "osc.pulse_width"@,
        AuditId::OscUnisonSlider => "osc.unison_slider"@,
        AuditId::OscSpreadSlider => "osc.spread_slider"@,
        AuditId::OscPanelStack => "osc.panel_stack"@,
        AuditId::OscPanelFm => "osc.panel_fm"@,
        AuditId::OscFmAlgorithm => "osc.fm_algorithm"@,
        AuditId::OscFmKnobs => "osc.fm_knobs"@,
        AuditId::OscFxPanel => "osc.fx.panel"@,
        AuditId::OscFxAddBtn => "osc.fx.add_btn"@,
        AuditId::OscModPanel => "osc.mod.panel"@,
        AuditId::CenterColumn => "center.column"@,
        AuditId::CenterScope => "center.scope"@,
        AuditId::CenterScopeCellOsc => "center.scope.cell_osc"@,
        AuditId::CenterScopeCellFilter => "center.scope.cell_filter"@,
        AuditId::CenterScopeCellFx => "center.scope.cell_fx"@,
        AuditId::CenterScopeCellOut => "center.scope.cell_out"@,
        AuditId::CenterWtStrip => "center.wt_strip"@,
        AuditId::CenterWtMorph => "center.wt_morph"@,
        AuditId::CenterWtViews => "center.wt_views"@,
        AuditId::CenterWt2d => "center.wt_2d"@,
        AuditId::CenterWt2dToolbar => "center.wt_2d.toolbar"@,
        AuditId::CenterWt2dPlot => "center.wt_2d.plot"@,
        AuditId::CenterWt2dResult => "center.wt_2d.result"@,
        AuditId::CenterWtResult => "center.wt_result"@,
        AuditId::CenterWtSelected => "center.wt_selected"@,
        AuditId::CenterWt2dCurveEditor => "center.wt_2d.curve_editor"@,
        AuditId::CenterWt2dShapeEditor => "center.wt_2d.shape_editor"@,
        AuditId::CenterWt2dAnalyzeDialog => "center.wt_2d.analyze_dialog"@,
        AuditId::CenterWt3dStack => "center.wt_3d_stack"@,
        AuditId::CenterWt3dMorph => "center.wt_3d_morph"@,
        AuditId::CenterWt3dModeToggle => "center.wt_3d_mode_toggle"@,
        AuditId::CenterPiano => "center.piano"@,
        AuditId::RailColumn => "rail.column"@,
        AuditId::RailPanelFilter => "rail.panel_filter"@,
        AuditId::RailFilterTabs => "rail.filter_tabs"@,
        AuditId::RailFilterKnobs => "rail.filter_knobs"@,
        AuditId::RailPanelFiltEnv => "rail.panel_filt_env"@,
        AuditId::RailFiltEnvGraph => "rail.filt_env_graph"@,
        AuditId::RailFiltEnvKnobs => "rail.filt_env_knobs"@,
        AuditId::RailPanelAmpEnv => "rail.panel_amp_env"@,
        AuditId::RailAmpEnvGraph => "rail.amp_env_graph"@,
        AuditId::RailAmpEnvKnobs => "rail.amp_env_knobs"@,
        AuditId::RailPanelLfos => "rail.panel_lfos"@,
        AuditId::RailLfo1Block => "rail.lfo1_block"@,
        AuditId::RailLfo2Block => "rail.lfo2_block"@,
        AuditId::RailLevelMeter => "rail.level_meter"@,
        AuditId::FooterStatus => "footer.status"@,
        AuditId::FooterChordGrid => "footer.chord_grid"@,
        AuditId::FooterPianoCompact => "footer.piano_compact"@,
        AuditId::ComposeTransport => "compose.transport"@,
        AuditId::ComposeTransportPlay => "compose.transport_play"@,
        AuditId::ComposeTransportBpm => "compose.transport_bpm"@,
        AuditId::ComposeTransportSnap => "compose.transport_snap"@,
        AuditId::ComposeTrackList => "compose.track_list"@,
        AuditId::ComposeArrangement => "compose.arrangement"@,
        AuditId::ComposePianoRoll => "compose.piano_roll"@,
        AuditId::ComposeRollToolbar => "compose.roll_toolbar"@,
        AuditId::ComposeRollKeys => "compose.roll_keys"@,
        AuditId::ComposeRollGrid => "compose.roll_grid"@,
        AuditId::ComposeRollVelocity => "compose.roll_velocity"@,
        AuditId::ComposeRollAutomation => "compose.roll_automation"@,
        AuditId::ComposeSceneGrid => "compose.scene_grid"@,
        AuditId::WidgetKnobSm => "widget.knob_sm"@,
        AuditId::WidgetKnobMd => "widget.knob_md"@,
        AuditId::WidgetKnobLg => "widget.knob_lg"@,
        AuditId::WidgetPanel => "widget.panel"@,
        AuditId::WidgetSidebarPanel => "widget.sidebar_panel"@,
        AuditId::WidgetLabeledSelect => "widget.labeled_select"@,
        AuditId::WidgetReelCombo => "widget.reel_combo"@,
        AuditId::WidgetTabBar => "widget.tab_bar"@,
        AuditId::WidgetButtonGhost => "widget.button_ghost"@,
        AuditId::WidgetButtonToggle => "widget.button_toggle"@,
        AuditId::WidgetAdsrGraph => "widget.adsr_graph"@,
        _ => "unknown"@,
    }
}

/// Stable label of an element; indexed elements carry their index in brackets.
pub open spec fn audit_label(id: AuditId) -> Seq<char> {
    match id {
        AuditId::OscStackLayerRow(i) => "osc.stack_layer_row["@ + decimal(i as nat) + "]"@,
        AuditId::OscFxSlot(i) => "osc.fx.slot["@ + decimal(i as nat) + "]"@,
        AuditId::OscFxSlotHeader(i) => "osc.fx.slot_header["@ + decimal(i as nat) + "]"@,
        AuditId::OscFxSlotParams(i) => "osc.fx.slot_params["@ + decimal(i as nat) + "]"@,
        AuditId::OscModRow(i) => "osc.mod.row["@ + decimal(i as nat) + "]"@,
        AuditId::OscModSourceSelect(i) => "osc.mod.source_select["@ + decimal(i as nat) + "]"@,
        AuditId::OscModTargetSelect(i) => "osc.mod.target_select["@ + decimal(i as nat) + "]"@,
        AuditId::OscModAmountDrag(i) => "osc.mod.amount_drag["@ + decimal(i as nat) + "]"@,
        AuditId::CenterWtStripCell(i) => "center.wt_strip.cell["@ + decimal(i as nat) + "]"@,
        AuditId::CenterWtStripLayerChip(i) => "center.wt_strip.layer["@ + decimal(i as nat) + "]"@,
        AuditId::FooterChordPad(i) => "footer.chord_pad["@ + decimal(i as nat) + "]"@,
        AuditId::ComposeTrackRow(i) => "compose.track_row["@ + decimal(i as nat) + "]"@,
        AuditId::ComposeArrangementClip(i) => "compose.arrangement_clip["@ + decimal(i as nat) + "]"@,
        AuditId::ComposeSceneCell(i) => "compose.scene_cell["@ + decimal(i as nat) + "]"@,
        _ => static_label_of(id),
    }
}

/// Checks that apply to an element.
pub open spec fn audit_checks(id: AuditId) -> AuditChecks {
    match id {
        AuditId::ShellHeader | AuditId::ShellMain | AuditId::ShellModStrip | AuditId::ShellFxStrip | AuditId::HeaderPerformance | AuditId::HeaderLeftCluster | AuditId::HeaderRightCluster | AuditId::OscFxPanel | AuditId::OscModPanel | AuditId::CenterColumn | AuditId::CenterScope | AuditId::CenterWtStrip | AuditId::CenterWtMorph | AuditId::CenterWtViews | AuditId::CenterWt2dToolbar | AuditId::CenterWt2dAnalyzeDialog | AuditId::CenterPiano | AuditId::FooterChordGrid | AuditId::ComposeTransport | AuditId::ComposeTrackList | AuditId::ComposeArrangement | AuditId::ComposePianoRoll | AuditId::ComposeSceneGrid => spec_bounds_overlap(),
        AuditId::ShellFooter | AuditId::ShellPianoWrap | AuditId::HeaderWtMenu | AuditId::HeaderSettingsMenu | AuditId::HeaderPianoToggle | AuditId::OscColumn | AuditId::OscWtQuant | AuditId::OscWarpSelect | AuditId::OscPulseWidth | AuditId::OscUnisonSlider | AuditId::OscSpreadSlider | AuditId::OscFmAlgorithm | AuditId::OscFxSlotHeader(_) | AuditId::OscFxAddBtn | AuditId::OscModAmountDrag(_) | AuditId::CenterScopeCellOsc | AuditId::CenterScopeCellFilter | AuditId::CenterScopeCellFx | AuditId::CenterScopeCellOut | AuditId::CenterWtStripCell(_) | AuditId::CenterWtStripLayerChip(_) | AuditId::CenterWt2d | AuditId::CenterWt2dPlot | AuditId::CenterWt2dResult | AuditId::CenterWtResult | AuditId::CenterWtSelected | AuditId::CenterWt2dCurveEditor | AuditId::CenterWt2dShapeEditor | AuditId::CenterWt3dStack | AuditId::CenterWt3dMorph | AuditId::CenterWt3dModeToggle | AuditId::RailColumn | AuditId::RailFilterTabs | AuditId::RailFiltEnvGraph | AuditId::RailAmpEnvGraph | AuditId::RailLevelMeter | AuditId::FooterPianoCompact | AuditId::ComposeTransportPlay | AuditId::ComposeTransportBpm | AuditId::ComposeTransportSnap | AuditId::ComposeTrackRow(_) | AuditId::ComposeArrangementClip(_) | AuditId::ComposeRollToolbar | AuditId::ComposeRollKeys | AuditId::ComposeRollGrid | AuditId::ComposeRollVelocity | AuditId::ComposeRollAutomation | AuditId::ComposeSceneCell(_) | AuditId::WidgetKnobSm | AuditId::WidgetKnobMd | AuditId::WidgetKnobLg | AuditId::WidgetPanel | AuditId::WidgetTabBar | AuditId::WidgetAdsrGraph => spec_bounds_only(),
        AuditId::HeaderBrand | AuditId::FooterStatus | AuditId::WidgetButtonGhost | AuditId::WidgetButtonToggle => spec_contrast_only(),
        AuditId::HeaderOpenBtn | AuditId::HeaderSaveBtn | AuditId::HeaderModeDesign | AuditId::HeaderModeCompose | AuditId::FooterChordPad(_) => spec_bounds_contrast(),
        AuditId::HeaderMidiCombo | AuditId::HeaderAudioCombo | AuditId::OscStripCards | AuditId::OscTypeSelect | AuditId::OscKnobsLevelPanCoarse | AuditId::OscWtPositionSlider | AuditId::OscWarpAmtSlider | AuditId::OscStackLayerRow(_) | AuditId::OscFmKnobs | AuditId::OscFxSlot(_) | AuditId::OscFxSlotParams(_) | AuditId::OscModRow(_) | AuditId::RailFilterKnobs | AuditId::RailFiltEnvKnobs | AuditId::RailAmpEnvKnobs | AuditId::RailLfo1Block | AuditId::RailLfo2Block => spec_bounds_overflow(),
        AuditId::OscPanelOscillators | AuditId::OscPanelStack | AuditId::OscPanelFm | AuditId::RailPanelFilter | AuditId::RailPanelFiltEnv | AuditId::RailPanelAmpEnv | AuditId::RailPanelLfos | AuditId::WidgetSidebarPanel => spec_bounds_utilization(),
        AuditId::OscModSourceSelect(_) | AuditId::OscModTargetSelect(_) | AuditId::WidgetLabeledSelect | AuditId::WidgetReelCombo => spec_overflow_only(),
    }
}

/// Element whose bounds contain `id`.
pub open spec fn audit_parent_of(id: AuditId) -> AuditParent {
    match id {
        AuditId::HeaderBrand | AuditId::HeaderOpenBtn | AuditId::HeaderSaveBtn | AuditId::HeaderModeDesign | AuditId::HeaderModeCompose | AuditId::HeaderPerformance | AuditId::HeaderWtMenu | AuditId::HeaderSettingsMenu => AuditParent::Element(AuditId::HeaderLeftCluster),
        AuditId::HeaderMidiCombo | AuditId::HeaderAudioCombo | AuditId::HeaderPianoToggle => AuditParent::Element(AuditId::HeaderRightCluster),
        AuditId::OscStripCards | AuditId::OscTypeSelect | AuditId::OscKnobsLevelPanCoarse | AuditId::OscWtQuant | AuditId::OscWtPositionSlider | AuditId::OscWarpSelect | AuditId::OscWarpAmtSlider | AuditId::OscPulseWidth | AuditId::OscUnisonSlider | AuditId::OscSpreadSlider => AuditParent::Element(AuditId::OscPanelOscillators),
        AuditId::OscStackLayerRow(_) => AuditParent::Element(AuditId::OscPanelStack),
        AuditId::OscFmAlgorithm | AuditId::OscFmKnobs => AuditParent::Element(AuditId::OscPanelFm),
        AuditId::OscFxSlot(_) | AuditId::OscFxAddBtn => AuditParent::Element(AuditId::OscFxPanel),
        AuditId::OscFxSlotHeader(i) => AuditParent::FxSlotOrPanel(i),
        AuditId::OscFxSlotParams(i) => AuditParent::FxSlotOrPanel(i),
        AuditId::OscModRow(_) | AuditId::OscModSourceSelect(_) | AuditId::OscModTargetSelect(_) | AuditId::OscModAmountDrag(_) => AuditParent::Element(AuditId::OscModPanel),
        AuditId::CenterScopeCellOsc | AuditId::CenterScopeCellFilter | AuditId::CenterScopeCellFx | AuditId::CenterScopeCellOut => AuditParent::Element(AuditId::CenterScope),
        AuditId::CenterWtStripCell(_) | AuditId::CenterWtStripLayerChip(_) => AuditParent::Element(AuditId::CenterWtStrip),
        AuditId::CenterWt2dToolbar | AuditId::CenterWt2dPlot | AuditId::CenterWt2dResult | AuditId::CenterWtResult | AuditId::CenterWtSelected | AuditId::CenterWt2dCurveEditor | AuditId::CenterWt2dShapeEditor => AuditParent::Element(AuditId::CenterWt2d),
        AuditId::RailFilterTabs | AuditId::RailFilterKnobs => AuditParent::Element(AuditId::RailPanelFilter),
        AuditId::RailFiltEnvGraph | AuditId::RailFiltEnvKnobs => AuditParent::Element(AuditId::RailPanelFiltEnv),
        AuditId::RailAmpEnvGraph | AuditId::RailAmpEnvKnobs => AuditParent::Element(AuditId::RailPanelAmpEnv),
        AuditId::RailLfo1Block | AuditId::RailLfo2Block => AuditParent::Element(AuditId::RailPanelLfos),
        AuditId::FooterChordPad(_) => AuditParent::Element(AuditId::FooterChordGrid),
        AuditId::ComposeTransportPlay | AuditId::ComposeTransportBpm | AuditId::ComposeTransportSnap => AuditParent::Element(AuditId::ComposeTransport),
        AuditId::ComposeTrackRow(_) => AuditParent::Element(AuditId::ComposeTrackList),
        AuditId::ComposeArrangementClip(_) => AuditParent::Element(AuditId::ComposeArrangement),
        AuditId::ComposeRollToolbar | AuditId::ComposeRollKeys | AuditId::ComposeRollGrid | AuditId::ComposeRollVelocity | AuditId::ComposeRollAutomation => AuditParent::Element(AuditId::ComposePianoRoll),
        AuditId::ComposeSceneCell(_) => AuditParent::Element(AuditId::ComposeSceneGrid),
        _ => AuditParent::ShellOnly,
    }
}

/// Shell region an element falls back to.
pub open spec fn shell_region_of(id: AuditId) -> Option<ShellRegion> {
    match id {
        AuditId::ShellHeader | AuditId::HeaderLeftCluster | AuditId::HeaderRightCluster => Some(ShellRegion::Header),
        AuditId::ShellMain => Some(ShellRegion::Main),
        AuditId::ShellFooter => Some(ShellRegion::Footer),
        AuditId::ShellModStrip => Some(ShellRegion::ModMatrix),
        AuditId::ShellFxStrip => Some(ShellRegion::FxRack),
        AuditId::ShellPianoWrap | AuditId::FooterChordGrid | AuditId::FooterPianoCompact => Some(ShellRegion::PianoWrap),
        AuditId::OscColumn | AuditId::OscPanelOscillators | AuditId::OscPanelStack | AuditId::OscPanelFm | AuditId::OscFxPanel | AuditId::OscModPanel => Some(ShellRegion::Osc),
        AuditId::CenterColumn | AuditId::CenterScope | AuditId::CenterWtStrip | AuditId::CenterWtMorph | AuditId::CenterWtViews | AuditId::CenterWt2d | AuditId::CenterPiano => Some(ShellRegion::Center),
        AuditId::RailColumn | AuditId::RailPanelFilter | AuditId::RailPanelFiltEnv | AuditId::RailPanelAmpEnv | AuditId::RailPanelLfos | AuditId::RailLevelMeter => Some(ShellRegion::Rail),
        _ => None,
    }
}

/// `prefix`, the decimal index and a closing bracket.
fn indexed_label(prefix: &str, i: usize) -> (r: String)
    ensures
        r@ == prefix@ + decimal(i as nat) + "]"@,
{
    let mut out = string_of(prefix);
    let digits = usize_to_decimal(i);
    out.append(digits.as_str());
    out.append("]");
    out
}

impl AuditId {
    pub fn label(&self) -> (r: String)
        ensures
            r@ == audit_label(*self),
    {
        match self {
            AuditId::OscStackLayerRow(i) => indexed_label("osc.stack_layer_row[", *i),
            AuditId::OscFxSlot(i) => indexed_label("osc.fx.slot[", *i),
            AuditId::OscFxSlotHeader(i) => indexed_label("osc.fx.slot_header[", *i),
            AuditId::OscFxSlotParams(i) => indexed_label("osc.fx.slot_params[", *i),
            AuditId::OscModRow(i) => indexed_label("osc.mod.row[", *i),
            AuditId::OscModSourceSelect(i) => indexed_label("osc.mod.source_select[", *i),
            AuditId::OscModTargetSelect(i) => indexed_label("osc.mod.target_select[", *i),
            AuditId::OscModAmountDrag(i) => indexed_label("osc.mod.amount_drag[", *i),
            AuditId::CenterWtStripCell(i) => indexed_label("center.wt_strip.cell[", *i),
            AuditId::CenterWtStripLayerChip(i) => indexed_label("center.wt_strip.layer[", *i),
            AuditId::FooterChordPad(i) => indexed_label("footer.chord_pad[", *i),
            AuditId::ComposeTrackRow(i) => indexed_label("compose.track_row[", *i),
            AuditId::ComposeArrangementClip(i) => indexed_label("compose.arrangement_clip[", *i),
            AuditId::ComposeSceneCell(i) => indexed_label("compose.scene_cell[", *i),
            other => string_of(static_label(other)),
        }
    }

    pub fn checks(&self) -> (r: AuditChecks)
        ensures
            r == audit_checks(*self),
    {
        match self {
            AuditId::ShellHeader | AuditId::ShellMain | AuditId::ShellModStrip | AuditId::ShellFxStrip | AuditId::HeaderPerformance | AuditId::HeaderLeftCluster | AuditId::HeaderRightCluster | AuditId::OscFxPanel | AuditId::OscModPanel | AuditId::CenterColumn | AuditId::CenterScope | AuditId::CenterWtStrip | AuditId::CenterWtMorph | AuditId::CenterWtViews | AuditId::CenterWt2dToolbar | AuditId::CenterWt2dAnalyzeDialog | AuditId::CenterPiano | AuditId::FooterChordGrid | AuditId::ComposeTransport | AuditId::ComposeTrackList | AuditId::ComposeArrangement | AuditId::ComposePianoRoll | AuditId::ComposeSceneGrid => AuditChecks::bounds_overlap(),
            AuditId::ShellFooter | AuditId::ShellPianoWrap | AuditId::HeaderWtMenu | AuditId::HeaderSettingsMenu | AuditId::HeaderPianoToggle | AuditId::OscColumn | AuditId::OscWtQuant | AuditId::OscWarpSelect | AuditId::OscPulseWidth | AuditId::OscUnisonSlider | AuditId::OscSpreadSlider | AuditId::OscFmAlgorithm | AuditId::OscFxSlotHeader(_) | AuditId::OscFxAddBtn | AuditId::OscModAmountDrag(_) | AuditId::CenterScopeCellOsc | AuditId::CenterScopeCellFilter | AuditId::CenterScopeCellFx | AuditId::CenterScopeCellOut | AuditId::CenterWtStripCell(_) | AuditId::CenterWtStripLayerChip(_) | AuditId::CenterWt2d | AuditId::CenterWt2dPlot | AuditId::CenterWt2dResult | AuditId::CenterWtResult | AuditId::CenterWtSelected | AuditId::CenterWt2dCurveEditor | AuditId::CenterWt2dShapeEditor | AuditId::CenterWt3dStack | AuditId::CenterWt3dMorph | AuditId::CenterWt3dModeToggle | AuditId::RailColumn | AuditId::RailFilterTabs | AuditId::RailFiltEnvGraph | AuditId::RailAmpEnvGraph | AuditId::RailLevelMeter | AuditId::FooterPianoCompact | AuditId::ComposeTransportPlay | AuditId::ComposeTransportBpm | AuditId::ComposeTransportSnap | AuditId::ComposeTrackRow(_) | AuditId::ComposeArrangementClip(_) | AuditId::ComposeRollToolbar | AuditId::ComposeRollKeys | AuditId::ComposeRollGrid | AuditId::ComposeRollVelocity | AuditId::ComposeRollAutomation | AuditId::ComposeSceneCell(_) | AuditId::WidgetKnobSm | AuditId::WidgetKnobMd | AuditId::WidgetKnobLg | AuditId::WidgetPanel | AuditId::WidgetTabBar | AuditId::WidgetAdsrGraph => AuditChecks::bounds_only(),
            AuditId::HeaderBrand | AuditId::FooterStatus | AuditId::WidgetButtonGhost | AuditId::WidgetButtonToggle => AuditChecks::contrast_only(),
            AuditId::HeaderOpenBtn | AuditId::HeaderSaveBtn | AuditId::HeaderModeDesign | AuditId::HeaderModeCompose | AuditId::FooterChordPad(_) => AuditChecks::bounds_contrast(),
            AuditId::HeaderMidiCombo | AuditId::HeaderAudioCombo | AuditId::OscStripCards | AuditId::OscTypeSelect | AuditId::OscKnobsLevelPanCoarse | AuditId::OscWtPositionSlider | AuditId::OscWarpAmtSlider | AuditId::OscStackLayerRow(_) | AuditId::OscFmKnobs | AuditId::OscFxSlot(_) | AuditId::OscFxSlotParams(_) | AuditId::OscModRow(_) | AuditId::RailFilterKnobs | AuditId::RailFiltEnvKnobs | AuditId::RailAmpEnvKnobs | AuditId::RailLfo1Block | AuditId::RailLfo2Block => AuditChecks::bounds_overflow(),
            AuditId::OscPanelOscillators | AuditId::OscPanelStack | AuditId::OscPanelFm | AuditId::RailPanelFilter | AuditId::RailPanelFiltEnv | AuditId::RailPanelAmpEnv | AuditId::RailPanelLfos | AuditId::WidgetSidebarPanel => AuditChecks::bounds_utilization(),
            AuditId::OscModSourceSelect(_) | AuditId::OscModTargetSelect(_) | AuditId::WidgetLabeledSelect | AuditId::WidgetReelCombo => AuditChecks::overflow_only(),
        }
    }
}

pub fn static_label(id: &AuditId) -> (r: &'static str)
    ensures
        r@ == static_label_of(*id),
{
    match id {
        AuditId::ShellHeader => "shell.header",
        AuditId::ShellMain => "shell.main",
        AuditId::ShellFooter => "shell.footer",
        AuditId::ShellModStrip => "shell.mod_strip",
        AuditId::ShellFxStrip => "shell.fx_strip",
        AuditId::ShellPianoWrap => "shell.piano_wrap",
        AuditId::HeaderBrand => "header.brand",
        AuditId::HeaderOpenBtn => "header.open_btn",
        AuditId::HeaderSaveBtn => "header.save_btn",
        AuditId::HeaderModeDesign => "header.mode_design",
        AuditId::HeaderModeCompose => "header.mode_compose",
        AuditId::HeaderPerformance => "header.performance",
        AuditId::HeaderWtMenu => "header.wt_menu",
        AuditId::HeaderSettingsMenu => "header.settings_menu",
        AuditId::HeaderMidiCombo => "header.midi_combo",
        AuditId::HeaderAudioCombo => "header.audio_combo",
        AuditId::HeaderPianoToggle => "header.piano_toggle",
        AuditId::HeaderLeftCluster => "header.left_cluster",
        AuditId::HeaderRightCluster => "header.right_cluster",
        AuditId::OscColumn => "osc.column",
        AuditId::OscPanelOscillators => "osc.panel_oscillators",
        AuditId::OscStripCards => "osc.strip_cards",
        AuditId::OscTypeSelect => "osc.type_select",
        AuditId::OscKnobsLevelPanCoarse => "osc.knobs_level_pan_coarse",
        AuditId::OscWtQuant => "osc.wt_quant",
        AuditId::OscWtPositionSlider => "osc.wt_position_slider",
        AuditId::OscWarpSelect => "osc.warp_select",
        AuditId::OscWarpAmtSlider => "osc.warp_amt_slider",
        AuditId::OscPulseWidth => "osc.pulse_width",
        AuditId::OscUnisonSlider => "osc.unison_slider",
        AuditId::OscSpreadSlider => "osc.spread_slider",
        AuditId::OscPanelStack => "osc.panel_stack",
        AuditId::OscPanelFm => "osc.panel_fm",
        AuditId::OscFmAlgorithm => "osc.fm_algorithm",
        AuditId::OscFmKnobs => "osc.fm_knobs",
        AuditId::OscFxPanel => "osc.fx.panel",
        AuditId::OscFxAddBtn => "osc.fx.add_btn",
        AuditId::OscModPanel => "osc.mod.panel",
        AuditId::CenterColumn => "center.column",
        AuditId::CenterScope => "center.scope",
        AuditId::CenterScopeCellOsc => "center.scope.cell_osc",
        AuditId::CenterScopeCellFilter => "center.scope.cell_filter",
        AuditId::CenterScopeCellFx => "center.scope.cell_fx",
        AuditId::CenterScopeCellOut => "center.scope.cell_out",
        AuditId::CenterWtStrip => "center.wt_strip",
        AuditId::CenterWtMorph => "center.wt_morph",
        AuditId::CenterWtViews => "center.wt_views",
        AuditId::CenterWt2d => "center.wt_2d",
        AuditId::CenterWt2dToolbar => "center.wt_2d.toolbar",
        AuditId::CenterWt2dPlot => "center.wt_2d.plot",
        AuditId::CenterWt2dResult => "center.wt_2d.result",
        AuditId::CenterWtResult => "center.wt_result",
        AuditId::CenterWtSelected => "center.wt_selected",
        AuditId::CenterWt2dCurveEditor => "center.wt_2d.curve_editor",
        AuditId::CenterWt2dShapeEditor => "center.wt_2d.shape_editor",
        AuditId::CenterWt2dAnalyzeDialog => "center.wt_2d.analyze_dialog",
        AuditId::CenterWt3dStack => "center.wt_3d_stack",
        AuditId::CenterWt3dMorph => "center.wt_3d_morph",
        AuditId::CenterWt3dModeToggle => "center.wt_3d_mode_toggle",
        AuditId::CenterPiano => "center.piano",
        AuditId::RailColumn => "rail.column",
        AuditId::RailPanelFilter => "rail.panel_filter",
        AuditId::RailFilterTabs => "rail.filter_tabs",
        AuditId::RailFilterKnobs => "rail.filter_knobs",
        AuditId::RailPanelFiltEnv => "rail.panel_filt_env",
        AuditId::RailFiltEnvGraph => "rail.filt_env_graph",
        AuditId::RailFiltEnvKnobs => "rail.filt_env_knobs",
        AuditId::RailPanelAmpEnv => "rail.panel_amp_env",
        AuditId::RailAmpEnvGraph => "rail.amp_env_graph",
        AuditId::RailAmpEnvKnobs => "rail.amp_env_knobs",
        AuditId::RailPanelLfos => "rail.panel_lfos",
        AuditId::RailLfo1Block => "rail.lfo1_block",
        AuditId::RailLfo2Block => "rail.lfo2_block",
        AuditId::RailLevelMeter => "rail.level_meter",
        AuditId::FooterStatus => "footer.status",
        AuditId::FooterChordGrid => "footer.chord_grid",
        AuditId::FooterPianoCompact => "footer.piano_compact",
        AuditId::ComposeTransport => "compose.transport",
        AuditId::ComposeTransportPlay => "compose.transport_play",
        AuditId::ComposeTransportBpm => "compose.transport_bpm",
        AuditId::ComposeTransportSnap => "compose.transport_snap",
        AuditId::ComposeTrackList => "compose.track_list",
        AuditId::ComposeArrangement => "compose.arrangement",
        AuditId::ComposePianoRoll => "compose.piano_roll",
        AuditId::ComposeRollToolbar => "compose.roll_toolbar",
        AuditId::ComposeRollKeys => "compose.roll_keys",
        AuditId::ComposeRollGrid => "compose.roll_grid",
        AuditId::ComposeRollVelocity => "compose.roll_velocity",
        AuditId::ComposeRollAutomation => "compose.roll_automation",
        AuditId::ComposeSceneGrid => "compose.scene_grid",
        AuditId::WidgetKnobSm => "widget.knob_sm",
        AuditId::WidgetKnobMd => "widget.knob_md",
        AuditId::WidgetKnobLg => "widget.knob_lg",
        AuditId::WidgetPanel => "widget.panel",
        AuditId::WidgetSidebarPanel => "widget.sidebar_panel",
        AuditId::WidgetLabeledSelect => "widget.labeled_select",
        AuditId::WidgetReelCombo => "widget.reel_combo",
        AuditId::WidgetTabBar => "widget.tab_bar",
        AuditId::WidgetButtonGhost => "widget.button_ghost",
        AuditId::WidgetButtonToggle => "widget.button_toggle",
        AuditId::WidgetAdsrGraph => "widget.adsr_graph",
        _ => "unknown",
    }
}

/// Element whose recorded bounds contain `id` during an audit.
pub fn audit_parent(id: AuditId) -> (r: AuditParent)
    ensures
        r == audit_parent_of(id),
{
    match id {
        AuditId::HeaderBrand | AuditId::HeaderOpenBtn | AuditId::HeaderSaveBtn | AuditId::HeaderModeDesign | AuditId::HeaderModeCompose | AuditId::HeaderPerformance | AuditId::HeaderWtMenu | AuditId::HeaderSettingsMenu => AuditParent::Element(AuditId::HeaderLeftCluster),
        AuditId::HeaderMidiCombo | AuditId::HeaderAudioCombo | AuditId::HeaderPianoToggle => AuditParent::Element(AuditId::HeaderRightCluster),
        AuditId::OscStripCards | AuditId::OscTypeSelect | AuditId::OscKnobsLevelPanCoarse | AuditId::OscWtQuant | AuditId::OscWtPositionSlider | AuditId::OscWarpSelect | AuditId::OscWarpAmtSlider | AuditId::OscPulseWidth | AuditId::OscUnisonSlider | AuditId::OscSpreadSlider => AuditParent::Element(AuditId::OscPanelOscillators),
        AuditId::OscStackLayerRow(_) => AuditParent::Element(AuditId::OscPanelStack),
        AuditId::OscFmAlgorithm | AuditId::OscFmKnobs => AuditParent::Element(AuditId::OscPanelFm),
        AuditId::OscFxSlot(_) | AuditId::OscFxAddBtn => AuditParent::Element(AuditId::OscFxPanel),
        AuditId::OscFxSlotHeader(i) => AuditParent::FxSlotOrPanel(i),
        AuditId::OscFxSlotParams(i) => AuditParent::FxSlotOrPanel(i),
        AuditId::OscModRow(_) | AuditId::OscModSourceSelect(_) | AuditId::OscModTargetSelect(_) | AuditId::OscModAmountDrag(_) => AuditParent::Element(AuditId::OscModPanel),
        AuditId::CenterScopeCellOsc | AuditId::CenterScopeCellFilter | AuditId::CenterScopeCellFx | AuditId::CenterScopeCellOut => AuditParent::Element(AuditId::CenterScope),
        AuditId::CenterWtStripCell(_) | AuditId::CenterWtStripLayerChip(_) => AuditParent::Element(AuditId::CenterWtStrip),
        AuditId::CenterWt2dToolbar | AuditId::CenterWt2dPlot | AuditId::CenterWt2dResult | AuditId::CenterWtResult | AuditId::CenterWtSelected | AuditId::CenterWt2dCurveEditor | AuditId::CenterWt2dShapeEditor => AuditParent::Element(AuditId::CenterWt2d),
        AuditId::RailFilterTabs | AuditId::RailFilterKnobs => AuditParent::Element(AuditId::RailPanelFilter),
        AuditId::RailFiltEnvGraph | AuditId::RailFiltEnvKnobs => AuditParent::Element(AuditId::RailPanelFiltEnv),
        AuditId::RailAmpEnvGraph | AuditId::RailAmpEnvKnobs => AuditParent::Element(AuditId::RailPanelAmpEnv),
        AuditId::RailLfo1Block | AuditId::RailLfo2Block => AuditParent::Element(AuditId::RailPanelLfos),
        AuditId::FooterChordPad(_) => AuditParent::Element(AuditId::FooterChordGrid),
        AuditId::ComposeTransportPlay | AuditId::ComposeTransportBpm | AuditId::ComposeTransportSnap => AuditParent::Element(AuditId::ComposeTransport),
        AuditId::ComposeTrackRow(_) => AuditParent::Element(AuditId::ComposeTrackList),
        AuditId::ComposeArrangementClip(_) => AuditParent::Element(AuditId::ComposeArrangement),
        AuditId::ComposeRollToolbar | AuditId::ComposeRollKeys | AuditId::ComposeRollGrid | AuditId::ComposeRollVelocity | AuditId::ComposeRollAutomation => AuditParent::Element(AuditId::ComposePianoRoll),
        AuditId::ComposeSceneCell(_) => AuditParent::Element(AuditId::ComposeSceneGrid),
        _ => AuditParent::ShellOnly,
    }
}

/// Shell region whose rect bounds `id` when no parent bounds are recorded.
pub fn shell_region(id: AuditId) -> (r: Option<ShellRegion>)
    ensures
        r == shell_region_of(id),
{
    match id {
        AuditId::ShellHeader | AuditId::HeaderLeftCluster | AuditId::HeaderRightCluster => Some(ShellRegion::Header),
        AuditId::ShellMain => Some(ShellRegion::Main),
        AuditId::ShellFooter => Some(ShellRegion::Footer),
        AuditId::ShellModStrip => Some(ShellRegion::ModMatrix),
        AuditId::ShellFxStrip => Some(ShellRegion::FxRack),
        AuditId::ShellPianoWrap | AuditId::FooterChordGrid | AuditId::FooterPianoCompact => Some(ShellRegion::PianoWrap),
        AuditId::OscColumn | AuditId::OscPanelOscillators | AuditId::OscPanelStack | AuditId::OscPanelFm | AuditId::OscFxPanel | AuditId::OscModPanel => Some(ShellRegion::Osc),
        AuditId::CenterColumn | AuditId::CenterScope | AuditId::CenterWtStrip | AuditId::CenterWtMorph | AuditId::CenterWtViews | AuditId::CenterWt2d | AuditId::CenterPiano => Some(ShellRegion::Center),
        AuditId::RailColumn | AuditId::RailPanelFilter | AuditId::RailPanelFiltEnv | AuditId::RailPanelAmpEnv | AuditId::RailPanelLfos | AuditId::RailLevelMeter => Some(ShellRegion::Rail),
        _ => None,
    }
}

/// Base (field-less) element by its position in declaration order.
pub open spec fn base_variant_at(i: int) -> AuditId {
    if i == 0 {
        AuditId::ShellHeader
    } else if i == 1 {
        AuditId::ShellMain
    } else if i == 2 {
        AuditId::ShellFooter
    } else if i == 3 {
        AuditId::ShellModStrip
    } else if i == 4 {
        AuditId::ShellFxStrip
    } else if i == 5 {
        AuditId::ShellPianoWrap
    } else if i == 6 {
        AuditId::HeaderBrand
    } else if i == 7 {
        AuditId::HeaderOpenBtn
    } else if i == 8 {
        AuditId::HeaderSaveBtn
    } else if i == 9 {
        AuditId::HeaderModeDesign
    } else if i == 10 {
        AuditId::HeaderModeCompose
    } else if i == 11 {
        AuditId::HeaderPerformance
    } else if i == 12 {
        AuditId::HeaderWtMenu
    } else if i == 13 {
        AuditId::HeaderSettingsMenu
    } else if i == 14 {
        AuditId::HeaderMidiCombo
    } else if i == 15 {
        AuditId::HeaderAudioCombo
    } else if i == 16 {
        AuditId::HeaderPianoToggle
    } else if i == 17 {
        AuditId::HeaderLeftCluster
    } else if i == 18 {
        AuditId::HeaderRightCluster
    } else if i == 19 {
        AuditId::OscColumn
    } else if i == 20 {
        AuditId::OscPanelOscillators
    } else if i == 21 {
        AuditId::OscStripCards
    } else if i == 22 {
        AuditId::OscTypeSelect
    } else if i == 23 {
        AuditId::OscKnobsLevelPanCoarse
    } else if i == 24 {
        AuditId::OscWtQuant
    } else if i == 25 {
        AuditId::OscWtPositionSlider
    } else if i == 26 {
        AuditId::OscWarpSelect
    } else if i == 27 {
        AuditId::OscWarpAmtSlider
    } else if i == 28 {
        AuditId::OscPulseWidth
    } else if i == 29 {
        AuditId::OscUnisonSlider
    } else if i == 30 {
        AuditId::OscSpreadSlider
    } else if i == 31 {
        AuditId::OscPanelStack
    } else if i == 32 {
        AuditId::OscPanelFm
    } else if i == 33 {
        AuditId::OscFmAlgorithm
    } else if i == 34 {
        AuditId::OscFmKnobs
    } else if i == 35 {
        AuditId::OscFxPanel
    } else if i == 36 {
        AuditId::OscFxAddBtn
    } else if i == 37 {
        AuditId::OscModPanel
    } else if i == 38 {
        AuditId::CenterColumn
    } else if i == 39 {
        AuditId::CenterScope
    } else if i == 40 {
        AuditId::CenterScopeCellOsc
    } else if i == 41 {
        AuditId::CenterScopeCellFilter
    } else if i == 42 {
        AuditId::CenterScopeCellFx
    } else if i == 43 {
        AuditId::CenterScopeCellOut
    } else if i == 44 {
        AuditId::CenterWtStrip
    } else if i == 45 {
        AuditId::CenterWtMorph
    } else if i == 46 {
        AuditId::CenterWtViews
    } else if i == 47 {
        AuditId::CenterWt2d
    } else if i == 48 {
        AuditId::CenterWt2dToolbar
    } else if i == 49 {
        AuditId::CenterWt2dPlot
    } else if i == 50 {
        AuditId::CenterWt2dResult
    } else if i == 51 {
        AuditId::CenterWtResult
    } else if i == 52 {
        AuditId::CenterWtSelected
    } else if i == 53 {
        AuditId::CenterWt2dCurveEditor
    } else if i == 54 {
        AuditId::CenterWt2dShapeEditor
    } else if i == 55 {
        AuditId::CenterWt2dAnalyzeDialog
    } else if i == 56 {
        AuditId::CenterWt3dStack
    } else if i == 57 {
        AuditId::CenterWt3dMorph
    } else if i == 58 {
        AuditId::CenterWt3dModeToggle
    } else if i == 59 {
        AuditId::CenterPiano
    } else if i == 60 {
        AuditId::RailColumn
    } else if i == 61 {
        AuditId::RailPanelFilter
    } else if i == 62 {
        AuditId::RailFilterTabs
    } else if i == 63 {
        AuditId::RailFilterKnobs
    } else if i == 64 {
        AuditId::RailPanelFiltEnv
    } else if i == 65 {
        AuditId::RailFiltEnvGraph
    } else if i == 66 {
        AuditId::RailFiltEnvKnobs
    } else if i == 67 {
        AuditId::RailPanelAmpEnv
    } else if i == 68 {
        AuditId::RailAmpEnvGraph
    } else if i == 69 {
        AuditId::RailAmpEnvKnobs
    } else if i == 70 {
        AuditId::RailPanelLfos
    } else if i == 71 {
        AuditId::RailLfo1Block
    } else if i == 72 {
        AuditId::RailLfo2Block
    } else if i == 73 {
        AuditId::RailLevelMeter
    } else if i == 74 {
        AuditId::FooterStatus
    } else if i == 75 {
        AuditId::FooterChordGrid
    } else if i == 76 {
        AuditId::FooterPianoCompact
    } else if i == 77 {
        AuditId::ComposeTransport
    } else if i == 78 {
        AuditId::ComposeTransportPlay
    } else if i == 79 {
        AuditId::ComposeTransportBpm
    } else if i == 80 {
        AuditId::ComposeTransportSnap
    } else if i == 81 {
        AuditId::ComposeTrackList
    } else if i == 82 {
        AuditId::ComposeArrangement
    } else if i == 83 {
        AuditId::ComposePianoRoll
    } else if i == 84 {
        AuditId::ComposeRollToolbar
    } else if i == 85 {
        AuditId::ComposeRollKeys
    } else if i == 86 {
        AuditId::ComposeRollGrid
    } else if i == 87 {
        AuditId::ComposeRollVelocity
    } else if i == 88 {
        AuditId::ComposeRollAutomation
    } else if i == 89 {
        AuditId::ComposeSceneGrid
    } else if i == 90 {
        AuditId::WidgetKnobSm
    } else if i == 91 {
        AuditId::WidgetKnobMd
    } else if i == 92 {
        AuditId::WidgetKnobLg
    } else if i == 93 {
        AuditId::WidgetPanel
    } else if i == 94 {
        AuditId::WidgetSidebarPanel
    } else if i == 95 {
        AuditId::WidgetLabeledSelect
    } else if i == 96 {
        AuditId::WidgetReelCombo
    } else if i == 97 {
        AuditId::WidgetTabBar
    } else if i == 98 {
        AuditId::WidgetButtonGhost
    } else if i == 99 {
        AuditId::WidgetButtonToggle
    } else if i == 100 {
        AuditId::WidgetAdsrGraph
    } else {
        AuditId::ShellHeader
    }
}

/// The field-less elements, in declaration order.
pub open spec fn base_audit_variants() -> Seq<AuditId> {
    Seq::new(101, |i: int| base_variant_at(i))
}

/// Position of a field-less element in declaration order; -1 for indexed elements.
pub open spec fn base_rank(id: AuditId) -> int {
    match id {
        AuditId::ShellHeader => 0,
        AuditId::ShellMain => 1,
        AuditId::ShellFooter => 2,
        AuditId::ShellModStrip => 3,
        AuditId::ShellFxStrip => 4,
        AuditId::ShellPianoWrap => 5,
        AuditId::HeaderBrand => 6,
        AuditId::HeaderOpenBtn => 7,
        AuditId::HeaderSaveBtn => 8,
        AuditId::HeaderModeDesign => 9,
        AuditId::HeaderModeCompose => 10,
        AuditId::HeaderPerformance => 11,
        AuditId::HeaderWtMenu => 12,
        AuditId::HeaderSettingsMenu => 13,
        AuditId::HeaderMidiCombo => 14,
        AuditId::HeaderAudioCombo => 15,
        AuditId::HeaderPianoToggle => 16,
        AuditId::HeaderLeftCluster => 17,
        AuditId::HeaderRightCluster => 18,
        AuditId::OscColumn => 19,
        AuditId::OscPanelOscillators => 20,
        AuditId::OscStripCards => 21,
        AuditId::OscTypeSelect => 22,
        AuditId::OscKnobsLevelPanCoarse => 23,
        AuditId::OscWtQuant => 24,
        AuditId::OscWtPositionSlider => 25,
        AuditId::OscWarpSelect => 26,
        AuditId::OscWarpAmtSlider => 27,
        AuditId::OscPulseWidth => 28,
        AuditId::OscUnisonSlider => 29,
        AuditId::OscSpreadSlider => 30,
        AuditId::OscPanelStack => 31,
        AuditId::OscPanelFm => 32,
        AuditId::OscFmAlgorithm => 33,
        AuditId::OscFmKnobs => 34,
        AuditId::OscFxPanel => 35,
        AuditId::OscFxAddBtn => 36,
        AuditId::OscModPanel => 37,
        AuditId::CenterColumn => 38,
        AuditId::CenterScope => 39,
        AuditId::CenterScopeCellOsc => 40,
        AuditId::CenterScopeCellFilter => 41,
        AuditId::CenterScopeCellFx => 42,
        AuditId::CenterScopeCellOut => 43,
        AuditId::CenterWtStrip => 44,
        AuditId::CenterWtMorph => 45,
        AuditId::CenterWtViews => 46,
        AuditId::CenterWt2d => 47,
        AuditId::CenterWt2dToolbar => 48,
        AuditId::CenterWt2dPlot => 49,
        AuditId::CenterWt2dResult => 50,
        AuditId::CenterWtResult => 51,
        AuditId::CenterWtSelected => 52,
        AuditId::CenterWt2dCurveEditor => 53,
        AuditId::CenterWt2dShapeEditor => 54,
        AuditId::CenterWt2dAnalyzeDialog => 55,
        AuditId::CenterWt3dStack => 56,
        AuditId::CenterWt3dMorph => 57,
        AuditId::CenterWt3dModeToggle => 58,
        AuditId::CenterPiano => 59,
        AuditId::RailColumn => 60,
        AuditId::RailPanelFilter => 61,
        AuditId::RailFilterTabs => 62,
        AuditId::RailFilterKnobs => 63,
        AuditId::RailPanelFiltEnv => 64,
        AuditId::RailFiltEnvGraph => 65,
        AuditId::RailFiltEnvKnobs => 66,
        AuditId::RailPanelAmpEnv => 67,
        AuditId::RailAmpEnvGraph => 68,
        AuditId::RailAmpEnvKnobs => 69,
        AuditId::RailPanelLfos => 70,
        AuditId::RailLfo1Block => 71,
        AuditId::RailLfo2Block => 72,
        AuditId::RailLevelMeter => 73,
        AuditId::FooterStatus => 74,
        AuditId::FooterChordGrid => 75,
        AuditId::FooterPianoCompact => 76,
        AuditId::ComposeTransport => 77,
        AuditId::ComposeTransportPlay => 78,
        AuditId::ComposeTransportBpm => 79,
        AuditId::ComposeTransportSnap => 80,
        AuditId::ComposeTrackList => 81,
        AuditId::ComposeArrangement => 82,
        AuditId::ComposePianoRoll => 83,
        AuditId::ComposeRollToolbar => 84,
        AuditId::ComposeRollKeys => 85,
        AuditId::ComposeRollGrid => 86,
        AuditId::ComposeRollVelocity => 87,
        AuditId::ComposeRollAutomation => 88,
        AuditId::ComposeSceneGrid => 89,
        AuditId::WidgetKnobSm => 90,
        AuditId::WidgetKnobMd => 91,
        AuditId::WidgetKnobLg => 92,
        AuditId::WidgetPanel => 93,
        AuditId::WidgetSidebarPanel => 94,
        AuditId::WidgetLabeledSelect => 95,
        AuditId::WidgetReelCombo => 96,
        AuditId::WidgetTabBar => 97,
        AuditId::WidgetButtonGhost => 98,
        AuditId::WidgetButtonToggle => 99,
        AuditId::WidgetAdsrGraph => 100,
        _ => -1,
    }
}

/// Expected registry variant count (coverage gate).
pub const REGISTRY_VARIANT_COUNT: usize = 101;

/// Count of the field-less `AuditId` variants, for drift detection: the length of the
/// list of base elements, which holds each of them exactly once
/// (`lemma_base_variants_exact`).
pub fn count_base_audit_variants() -> (r: usize)
    ensures
        r == base_audit_variants().len(),
        r == REGISTRY_VARIANT_COUNT,
{
    101
}

} // verus!

verus! {

/// Containment never nests deeper than two steps: the element parent of an element has
/// no parent of its own, and an FX slot's header and params fall back through the slot
/// to the FX panel, which has none. In particular no element contains itself.
pub proof fn lemma_parents_are_shallow(id: AuditId)
    ensures
        audit_parent_of(id) != AuditParent::Element(id),
        audit_parent_of(id) is Element ==> audit_parent_of(audit_parent_of(id)->Element_0)
            == AuditParent::ShellOnly,
        audit_parent_of(id) is FxSlotOrPanel ==> audit_parent_of(
            AuditId::OscFxSlot(audit_parent_of(id)->FxSlotOrPanel_0),
        ) == AuditParent::Element(AuditId::OscFxPanel),
        audit_parent_of(AuditId::OscFxPanel) == AuditParent::ShellOnly,
{
}

/// Every registry entry is subject to at least one automated check.
pub proof fn lemma_every_element_is_checked(id: AuditId)
    ensures
        ({
            let c = audit_checks(id);
            c.bounds || c.overlap || c.overflow || c.contrast || c.utilization
        }),
{
}

} // verus!

verus! {

/// Whether an element carries an index.
pub open spec fn is_indexed(id: AuditId) -> bool {
    match id {
        AuditId::OscStackLayerRow(_) | AuditId::OscFxSlot(_) | AuditId::OscFxSlotHeader(_) | AuditId::OscFxSlotParams(_) | AuditId::OscModRow(_) | AuditId::OscModSourceSelect(_) | AuditId::OscModTargetSelect(_) | AuditId::OscModAmountDrag(_) | AuditId::CenterWtStripCell(_) | AuditId::CenterWtStripLayerChip(_) | AuditId::FooterChordPad(_) | AuditId::ComposeTrackRow(_) | AuditId::ComposeArrangementClip(_) | AuditId::ComposeSceneCell(_) => true,
        _ => false,
    }
}

/// Distinct indexed elements have distinct labels: rows, slots, pads and cells of one kind
/// are told apart by their index, and kinds by their label prefix.
proof fn lemma_indexed_labels_distinct(a: AuditId, b: AuditId)
    requires
        is_indexed(a),
        is_indexed(b),
    ensures
        audit_label(a) == audit_label(b) ==> a == b,
{
    reveal_strlit("]");
    let la = audit_label(a);
    let lb = audit_label(b);
    if la == lb {
        match (a, b) {
            (AuditId::OscStackLayerRow(i), AuditId::OscStackLayerRow(j)) => {
                reveal_strlit("osc.stack_layer_row[");
                let n = "osc.stack_layer_row["@.len() as int;
                assert(la.subrange(n, la.len() - 1) =~= decimal(i as nat));
                assert(lb.subrange(n, lb.len() - 1) =~= decimal(j as nat));
                lemma_decimal_injective(i as nat, j as nat);
            },
            (AuditId::OscStackLayerRow(_), AuditId::OscFxSlot(_)) => { reveal_strlit("osc.stack_layer_row["); reveal_strlit("osc.fx.slot["); assert(la[4] != lb[4]); },
            (AuditId::OscStackLayerRow(_), AuditId::OscFxSlotHeader(_)) => { reveal_strlit("osc.stack_layer_row["); reveal_strlit("osc.fx.slot_header["); assert(la[4] != lb[4]); },
            (AuditId::OscStackLayerRow(_), AuditId::OscFxSlotParams(_)) => { reveal_strlit("osc.stack_layer_row["); reveal_strlit("osc.fx.slot_params["); assert(la[4] != lb[4]); },
            (AuditId::OscStackLayerRow(_), AuditId::OscModRow(_)) => { reveal_strlit("osc.stack_layer_row["); reveal_strlit("osc.mod.row["); assert(la[4] != lb[4]); },
            (AuditId::OscStackLayerRow(_), AuditId::OscModSourceSelect(_)) => { reveal_strlit("osc.stack_layer_row["); reveal_strlit("osc.mod.source_select["); assert(la[4] != lb[4]); },
            (AuditId::OscStackLayerRow(_), AuditId::OscModTargetSelect(_)) => { reveal_strlit("osc.stack_layer_row["); reveal_strlit("osc.mod.target_select["); assert(la[4] != lb[4]); },
            (AuditId::OscStackLayerRow(_), AuditId::OscModAmountDrag(_)) => { reveal_strlit("osc.stack_layer_row["); reveal_strlit("osc.mod.amount_drag["); assert(la[4] != lb[4]); },
            (AuditId::OscStackLayerRow(_), AuditId::CenterWtStripCell(_)) => { reveal_strlit("osc.stack_layer_row["); reveal_strlit("center.wt_strip.cell["); assert(la[0] != lb[0]); },
            (AuditId::OscStackLayerRow(_), AuditId::CenterWtStripLayerChip(_)) => { reveal_strlit("osc.stack_layer_row["); reveal_strlit("center.wt_strip.layer["); assert(la[0] != lb[0]); },
            (AuditId::OscStackLayerRow(_), AuditId::FooterChordPad(_)) => { reveal_strlit("osc.stack_layer_row["); reveal_strlit("footer.chord_pad["); assert(la[0] != lb[0]); },
            (AuditId::OscStackLayerRow(_), AuditId::ComposeTrackRow(_)) => { reveal_strlit("osc.stack_layer_row["); reveal_strlit("compose.track_row["); assert(la[0] != lb[0]); },
            (AuditId::OscStackLayerRow(_), AuditId::ComposeArrangementClip(_)) => { reveal_strlit("osc.stack_layer_row["); reveal_strlit("compose.arrangement_clip["); assert(la[0] != lb[0]); },
            (AuditId::OscStackLayerRow(_), AuditId::ComposeSceneCell(_)) => { reveal_strlit("osc.stack_layer_row["); reveal_strlit("compose.scene_cell["); assert(la[0] != lb[0]); },
            (AuditId::OscFxSlot(_), AuditId::OscStackLayerRow(_)) => { reveal_strlit("osc.fx.slot["); reveal_strlit("osc.stack_layer_row["); assert(la[4] != lb[4]); },
            (AuditId::OscFxSlot(i), AuditId::OscFxSlot(j)) => {
                reveal_strlit("osc.fx.slot[");
                let n = "osc.fx.slot["@.len() as int;
                assert(la.subrange(n, la.len() - 1) =~= decimal(i as nat));
                assert(lb.subrange(n, lb.len() - 1) =~= decimal(j as nat));
                lemma_decimal_injective(i as nat, j as nat);
            },
            (AuditId::OscFxSlot(_), AuditId::OscFxSlotHeader(_)) => { reveal_strlit("osc.fx.slot["); reveal_strlit("osc.fx.slot_header["); assert(la[11] != lb[11]); },
            (AuditId::OscFxSlot(_), AuditId::OscFxSlotParams(_)) => { reveal_strlit("osc.fx.slot["); reveal_strlit("osc.fx.slot_params["); assert(la[11] != lb[11]); },
            (AuditId::OscFxSlot(_), AuditId::OscModRow(_)) => { reveal_strlit("osc.fx.slot["); reveal_strlit("osc.mod.row["); assert(la[4] != lb[4]); },
            (AuditId::OscFxSlot(_), AuditId::OscModSourceSelect(_)) => { reveal_strlit("osc.fx.slot["); reveal_strlit("osc.mod.source_select["); assert(la[4] != lb[4]); },
            (AuditId::OscFxSlot(_), AuditId::OscModTargetSelect(_)) => { reveal_strlit("osc.fx.slot["); reveal_strlit("osc.mod.target_select["); assert(la[4] != lb[4]); },
            (AuditId::OscFxSlot(_), AuditId::OscModAmountDrag(_)) => { reveal_strlit("osc.fx.slot["); reveal_strlit("osc.mod.amount_drag["); assert(la[4] != lb[4]); },
            (AuditId::OscFxSlot(_), AuditId::CenterWtStripCell(_)) => { reveal_strlit("osc.fx.slot["); reveal_strlit("center.wt_strip.cell["); assert(la[0] != lb[0]); },
            (AuditId::OscFxSlot(_), AuditId::CenterWtStripLayerChip(_)) => { reveal_strlit("osc.fx.slot["); reveal_strlit("center.wt_strip.layer["); assert(la[0] != lb[0]); },
            (AuditId::OscFxSlot(_), AuditId::FooterChordPad(_)) => { reveal_strlit("osc.fx.slot["); reveal_strlit("footer.chord_pad["); assert(la[0] != lb[0]); },
            (AuditId::OscFxSlot(_), AuditId::ComposeTrackRow(_)) => { reveal_strlit("osc.fx.slot["); reveal_strlit("compose.track_row["); assert(la[0] != lb[0]); },
            (AuditId::OscFxSlot(_), AuditId::ComposeArrangementClip(_)) => { reveal_strlit("osc.fx.slot["); reveal_strlit("compose.arrangement_clip["); assert(la[0] != lb[0]); },
            (AuditId::OscFxSlot(_), AuditId::ComposeSceneCell(_)) => { reveal_strlit("osc.fx.slot["); reveal_strlit("compose.scene_cell["); assert(la[0] != lb[0]); },
            (AuditId::OscFxSlotHeader(_), AuditId::OscStackLayerRow(_)) => { reveal_strlit("osc.fx.slot_header["); reveal_strlit("osc.stack_layer_row["); assert(la[4] != lb[4]); },
            (AuditId::OscFxSlotHeader(_), AuditId::OscFxSlot(_)) => { reveal_strlit("osc.fx.slot_header["); reveal_strlit("osc.fx.slot["); assert(la[11] != lb[11]); },
            (AuditId::OscFxSlotHeader(i), AuditId::OscFxSlotHeader(j)) => {
                reveal_strlit("osc.fx.slot_header[");
                let n = "osc.fx.slot_header["@.len() as int;
                assert(la.subrange(n, la.len() - 1) =~= decimal(i as nat));
                assert(lb.subrange(n, lb.len() - 1) =~= decimal(j as nat));
                lemma_decimal_injective(i as nat, j as nat);
            },
            (AuditId::OscFxSlotHeader(_), AuditId::OscFxSlotParams(_)) => { reveal_strlit("osc.fx.slot_header["); reveal_strlit("osc.fx.slot_params["); assert(la[12] != lb[12]); },
            (AuditId::OscFxSlotHeader(_), AuditId::OscModRow(_)) => { reveal_strlit("osc.fx.slot_header["); reveal_strlit("osc.mod.row["); assert(la[4] != lb[4]); },
            (AuditId::OscFxSlotHeader(_), AuditId::OscModSourceSelect(_)) => { reveal_strlit("osc.fx.slot_header["); reveal_strlit("osc.mod.source_select["); assert(la[4] != lb[4]); },
            (AuditId::OscFxSlotHeader(_), AuditId::OscModTargetSelect(_)) => { reveal_strlit("osc.fx.slot_header["); reveal_strlit("osc.mod.target_select["); assert(la[4] != lb[4]); },
            (AuditId::OscFxSlotHeader(_), AuditId::OscModAmountDrag(_)) => { reveal_strlit("osc.fx.slot_header["); reveal_strlit("osc.mod.amount_drag["); assert(la[4] != lb[4]); },
            (AuditId::OscFxSlotHeader(_), AuditId::CenterWtStripCell(_)) => { reveal_strlit("osc.fx.slot_header["); reveal_strlit("center.wt_strip.cell["); assert(la[0] != lb[0]); },
            (AuditId::OscFxSlotHeader(_), AuditId::CenterWtStripLayerChip(_)) => { reveal_strlit("osc.fx.slot_header["); reveal_strlit("center.wt_strip.layer["); assert(la[0] != lb[0]); },
            (AuditId::OscFxSlotHeader(_), AuditId::FooterChordPad(_)) => { reveal_strlit("osc.fx.slot_header["); reveal_strlit("footer.chord_pad["); assert(la[0] != lb[0]); },
            (AuditId::OscFxSlotHeader(_), AuditId::ComposeTrackRow(_)) => { reveal_strlit("osc.fx.slot_header["); reveal_strlit("compose.track_row["); assert(la[0] != lb[0]); },
            (AuditId::OscFxSlotHeader(_), AuditId::ComposeArrangementClip(_)) => { reveal_strlit("osc.fx.slot_header["); reveal_strlit("compose.arrangement_clip["); assert(la[0] != lb[0]); },
            (AuditId::OscFxSlotHeader(_), AuditId::ComposeSceneCell(_)) => { reveal_strlit("osc.fx.slot_header["); reveal_strlit("compose.scene_cell["); assert(la[0] != lb[0]); },
            (AuditId::OscFxSlotParams(_), AuditId::OscStackLayerRow(_)) => { reveal_strlit("osc.fx.slot_params["); reveal_strlit("osc.stack_layer_row["); assert(la[4] != lb[4]); },
            (AuditId::OscFxSlotParams(_), AuditId::OscFxSlot(_)) => { reveal_strlit("osc.fx.slot_params["); reveal_strlit("osc.fx.slot["); assert(la[11] != lb[11]); },
            (AuditId::OscFxSlotParams(_), AuditId::OscFxSlotHeader(_)) => { reveal_strlit("osc.fx.slot_params["); reveal_strlit("osc.fx.slot_header["); assert(la[12] != lb[12]); },
            (AuditId::OscFxSlotParams(i), AuditId::OscFxSlotParams(j)) => {
                reveal_strlit("osc.fx.slot_params[");
                let n = "osc.fx.slot_params["@.len() as int;
                assert(la.subrange(n, la.len() - 1) =~= decimal(i as nat));
                assert(lb.subrange(n, lb.len() - 1) =~= decimal(j as nat));
                lemma_decimal_injective(i as nat, j as nat);
            },
            (AuditId::OscFxSlotParams(_), AuditId::OscModRow(_)) => { reveal_strlit("osc.fx.slot_params["); reveal_strlit("osc.mod.row["); assert(la[4] != lb[4]); },
            (AuditId::OscFxSlotParams(_), AuditId::OscModSourceSelect(_)) => { reveal_strlit("osc.fx.slot_params["); reveal_strlit("osc.mod.source_select["); assert(la[4] != lb[4]); },
            (AuditId::OscFxSlotParams(_), AuditId::OscModTargetSelect(_)) => { reveal_strlit("osc.fx.slot_params["); reveal_strlit("osc.mod.target_select["); assert(la[4] != lb[4]); },
            (AuditId::OscFxSlotParams(_), AuditId::OscModAmountDrag(_)) => { reveal_strlit("osc.fx.slot_params["); reveal_strlit("osc.mod.amount_drag["); assert(la[4] != lb[4]); },
            (AuditId::OscFxSlotParams(_), AuditId::CenterWtStripCell(_)) => { reveal_strlit("osc.fx.slot_params["); reveal_strlit("center.wt_strip.cell["); assert(la[0] != lb[0]); },
            (AuditId::OscFxSlotParams(_), AuditId::CenterWtStripLayerChip(_)) => { reveal_strlit("osc.fx.slot_params["); reveal_strlit("center.wt_strip.layer["); assert(la[0] != lb[0]); },
            (AuditId::OscFxSlotParams(_), AuditId::FooterChordPad(_)) => { reveal_strlit("osc.fx.slot_params["); reveal_strlit("footer.chord_pad["); assert(la[0] != lb[0]); },
            (AuditId::OscFxSlotParams(_), AuditId::ComposeTrackRow(_)) => { reveal_strlit("osc.fx.slot_params["); reveal_strlit("compose.track_row["); assert(la[0] != lb[0]); },
            (AuditId::OscFxSlotParams(_), AuditId::ComposeArrangementClip(_)) => { reveal_strlit("osc.fx.slot_params["); reveal_strlit("compose.arrangement_clip["); assert(la[0] != lb[0]); },
            (AuditId::OscFxSlotParams(_), AuditId::ComposeSceneCell(_)) => { reveal_strlit("osc.fx.slot_params["); reveal_strlit("compose.scene_cell["); assert(la[0] != lb[0]); },
            (AuditId::OscModRow(_), AuditId::OscStackLayerRow(_)) => { reveal_strlit("osc.mod.row["); reveal_strlit("osc.stack_layer_row["); assert(la[4] != lb[4]); },
            (AuditId::OscModRow(_), AuditId::OscFxSlot(_)) => { reveal_strlit("osc.mod.row["); reveal_strlit("osc.fx.slot["); assert(la[4] != lb[4]); },
            (AuditId::OscModRow(_), AuditId::OscFxSlotHeader(_)) => { reveal_strlit("osc.mod.row["); reveal_strlit("osc.fx.slot_header["); assert(la[4] != lb[4]); },
            (AuditId::OscModRow(_), AuditId::OscFxSlotParams(_)) => { reveal_strlit("osc.mod.row["); reveal_strlit("osc.fx.slot_params["); assert(la[4] != lb[4]); },
            (AuditId::OscModRow(i), AuditId::OscModRow(j)) => {
                reveal_strlit("osc.mod.row[");
                let n = "osc.mod.row["@.len() as int;
                assert(la.subrange(n, la.len() - 1) =~= decimal(i as nat));
                assert(lb.subrange(n, lb.len() - 1) =~= decimal(j as nat));
                lemma_decimal_injective(i as nat, j as nat);
            },
            (AuditId::OscModRow(_), AuditId::OscModSourceSelect(_)) => { reveal_strlit("osc.mod.row["); reveal_strlit("osc.mod.source_select["); assert(la[8] != lb[8]); },
            (AuditId::OscModRow(_), AuditId::OscModTargetSelect(_)) => { reveal_strlit("osc.mod.row["); reveal_strlit("osc.mod.target_select["); assert(la[8] != lb[8]); },
            (AuditId::OscModRow(_), AuditId::OscModAmountDrag(_)) => { reveal_strlit("osc.mod.row["); reveal_strlit("osc.mod.amount_drag["); assert(la[8] != lb[8]); },
            (AuditId::OscModRow(_), AuditId::CenterWtStripCell(_)) => { reveal_strlit("osc.mod.row["); reveal_strlit("center.wt_strip.cell["); assert(la[0] != lb[0]); },
            (AuditId::OscModRow(_), AuditId::CenterWtStripLayerChip(_)) => { reveal_strlit("osc.mod.row["); reveal_strlit("center.wt_strip.layer["); assert(la[0] != lb[0]); },
            (AuditId::OscModRow(_), AuditId::FooterChordPad(_)) => { reveal_strlit("osc.mod.row["); reveal_strlit("footer.chord_pad["); assert(la[0] != lb[0]); },
            (AuditId::OscModRow(_), AuditId::ComposeTrackRow(_)) => { reveal_strlit("osc.mod.row["); reveal_strlit("compose.track_row["); assert(la[0] != lb[0]); },
            (AuditId::OscModRow(_), AuditId::ComposeArrangementClip(_)) => { reveal_strlit("osc.mod.row["); reveal_strlit("compose.arrangement_clip["); assert(la[0] != lb[0]); },
            (AuditId::OscModRow(_), AuditId::ComposeSceneCell(_)) => { reveal_strlit("osc.mod.row["); reveal_strlit("compose.scene_cell["); assert(la[0] != lb[0]); },
            (AuditId::OscModSourceSelect(_), AuditId::OscStackLayerRow(_)) => { reveal_strlit("osc.mod.source_select["); reveal_strlit("osc.stack_layer_row["); assert(la[4] != lb[4]); },
            (AuditId::OscModSourceSelect(_), AuditId::OscFxSlot(_)) => { reveal_strlit("osc.mod.source_select["); reveal_strlit("osc.fx.slot["); assert(la[4] != lb[4]); },
            (AuditId::OscModSourceSelect(_), AuditId::OscFxSlotHeader(_)) => { reveal_strlit("osc.mod.source_select["); reveal_strlit("osc.fx.slot_header["); assert(la[4] != lb[4]); },
            (AuditId::OscModSourceSelect(_), AuditId::OscFxSlotParams(_)) => { reveal_strlit("osc.mod.source_select["); reveal_strlit("osc.fx.slot_params["); assert(la[4] != lb[4]); },
            (AuditId::OscModSourceSelect(_), AuditId::OscModRow(_)) => { reveal_strlit("osc.mod.source_select["); reveal_strlit("osc.mod.row["); assert(la[8] != lb[8]); },
            (AuditId::OscModSourceSelect(i), AuditId::OscModSourceSelect(j)) => {
                reveal_strlit("osc.mod.source_select[");
                let n = "osc.mod.source_select["@.len() as int;
                assert(la.subrange(n, la.len() - 1) =~= decimal(i as nat));
                assert(lb.subrange(n, lb.len() - 1) =~= decimal(j as nat));
                lemma_decimal_injective(i as nat, j as nat);
            },
            (AuditId::OscModSourceSelect(_), AuditId::OscModTargetSelect(_)) => { reveal_strlit("osc.mod.source_select["); reveal_strlit("osc.mod.target_select["); assert(la[8] != lb[8]); },
            (AuditId::OscModSourceSelect(_), AuditId::OscModAmountDrag(_)) => { reveal_strlit("osc.mod.source_select["); reveal_strlit("osc.mod.amount_drag["); assert(la[8] != lb[8]); },
            (AuditId::OscModSourceSelect(_), AuditId::CenterWtStripCell(_)) => { reveal_strlit("osc.mod.source_select["); reveal_strlit("center.wt_strip.cell["); assert(la[0] != lb[0]); },
            (AuditId::OscModSourceSelect(_), AuditId::CenterWtStripLayerChip(_)) => { reveal_strlit("osc.mod.source_select["); reveal_strlit("center.wt_strip.layer["); assert(la[0] != lb[0]); },
            (AuditId::OscModSourceSelect(_), AuditId::FooterChordPad(_)) => { reveal_strlit("osc.mod.source_select["); reveal_strlit("footer.chord_pad["); assert(la[0] != lb[0]); },
            (AuditId::OscModSourceSelect(_), AuditId::ComposeTrackRow(_)) => { reveal_strlit("osc.mod.source_select["); reveal_strlit("compose.track_row["); assert(la[0] != lb[0]); },
            (AuditId::OscModSourceSelect(_), AuditId::ComposeArrangementClip(_)) => { reveal_strlit("osc.mod.source_select["); reveal_strlit("compose.arrangement_clip["); assert(la[0] != lb[0]); },
            (AuditId::OscModSourceSelect(_), AuditId::ComposeSceneCell(_)) => { reveal_strlit("osc.mod.source_select["); reveal_strlit("compose.scene_cell["); assert(la[0] != lb[0]); },
            (AuditId::OscModTargetSelect(_), AuditId::OscStackLayerRow(_)) => { reveal_strlit("osc.mod.target_select["); reveal_strlit("osc.stack_layer_row["); assert(la[4] != lb[4]); },
            (AuditId::OscModTargetSelect(_), AuditId::OscFxSlot(_)) => { reveal_strlit("osc.mod.target_select["); reveal_strlit("osc.fx.slot["); assert(la[4] != lb[4]); },
            (AuditId::OscModTargetSelect(_), AuditId::OscFxSlotHeader(_)) => { reveal_strlit("osc.mod.target_select["); reveal_strlit("osc.fx.slot_header["); assert(la[4] != lb[4]); },
            (AuditId::OscModTargetSelect(_), AuditId::OscFxSlotParams(_)) => { reveal_strlit("osc.mod.target_select["); reveal_strlit("osc.fx.slot_params["); assert(la[4] != lb[4]); },
            (AuditId::OscModTargetSelect(_), AuditId::OscModRow(_)) => { reveal_strlit("osc.mod.target_select["); reveal_strlit("osc.mod.row["); assert(la[8] != lb[8]); },
            (AuditId::OscModTargetSelect(_), AuditId::OscModSourceSelect(_)) => { reveal_strlit("osc.mod.target_select["); reveal_strlit("osc.mod.source_select["); assert(la[8] != lb[8]); },
            (AuditId::OscModTargetSelect(i), AuditId::OscModTargetSelect(j)) => {
                reveal_strlit("osc.mod.target_select[");
                let n = "osc.mod.target_select["@.len() as int;
                assert(la.subrange(n, la.len() - 1) =~= decimal(i as nat));
                assert(lb.subrange(n, lb.len() - 1) =~= decimal(j as nat));
                lemma_decimal_injective(i as nat, j as nat);
            },
            (AuditId::OscModTargetSelect(_), AuditId::OscModAmountDrag(_)) => { reveal_strlit("osc.mod.target_select["); reveal_strlit("osc.mod.amount_drag["); assert(la[8] != lb[8]); },
            (AuditId::OscModTargetSelect(_), AuditId::CenterWtStripCell(_)) => { reveal_strlit("osc.mod.target_select["); reveal_strlit("center.wt_strip.cell["); assert(la[0] != lb[0]); },
            (AuditId::OscModTargetSelect(_), AuditId::CenterWtStripLayerChip(_)) => { reveal_strlit("osc.mod.target_select["); reveal_strlit("center.wt_strip.layer["); assert(la[0] != lb[0]); },
            (AuditId::OscModTargetSelect(_), AuditId::FooterChordPad(_)) => { reveal_strlit("osc.mod.target_select["); reveal_strlit("footer.chord_pad["); assert(la[0] != lb[0]); },
            (AuditId::OscModTargetSelect(_), AuditId::ComposeTrackRow(_)) => { reveal_strlit("osc.mod.target_select["); reveal_strlit("compose.track_row["); assert(la[0] != lb[0]); },
            (AuditId::OscModTargetSelect(_), AuditId::ComposeArrangementClip(_)) => { reveal_strlit("osc.mod.target_select["); reveal_strlit("compose.arrangement_clip["); assert(la[0] != lb[0]); },
            (AuditId::OscModTargetSelect(_), AuditId::ComposeSceneCell(_)) => { reveal_strlit("osc.mod.target_select["); reveal_strlit("compose.scene_cell["); assert(la[0] != lb[0]); },
            (AuditId::OscModAmountDrag(_), AuditId::OscStackLayerRow(_)) => { reveal_strlit("osc.mod.amount_drag["); reveal_strlit("osc.stack_layer_row["); assert(la[4] != lb[4]); },
            (AuditId::OscModAmountDrag(_), AuditId::OscFxSlot(_)) => { reveal_strlit("osc.mod.amount_drag["); reveal_strlit("osc.fx.slot["); assert(la[4] != lb[4]); },
            (AuditId::OscModAmountDrag(_), AuditId::OscFxSlotHeader(_)) => { reveal_strlit("osc.mod.amount_drag["); reveal_strlit("osc.fx.slot_header["); assert(la[4] != lb[4]); },
            (AuditId::OscModAmountDrag(_), AuditId::OscFxSlotParams(_)) => { reveal_strlit("osc.mod.amount_drag["); reveal_strlit("osc.fx.slot_params["); assert(la[4] != lb[4]); },
            (AuditId::OscModAmountDrag(_), AuditId::OscModRow(_)) => { reveal_strlit("osc.mod.amount_drag["); reveal_strlit("osc.mod.row["); assert(la[8] != lb[8]); },
            (AuditId::OscModAmountDrag(_), AuditId::OscModSourceSelect(_)) => { reveal_strlit("osc.mod.amount_drag["); reveal_strlit("osc.mod.source_select["); assert(la[8] != lb[8]); },
            (AuditId::OscModAmountDrag(_), AuditId::OscModTargetSelect(_)) => { reveal_strlit("osc.mod.amount_drag["); reveal_strlit("osc.mod.target_select["); assert(la[8] != lb[8]); },
            (AuditId::OscModAmountDrag(i), AuditId::OscModAmountDrag(j)) => {
                reveal_strlit("osc.mod.amount_drag[");
                let n = "osc.mod.amount_drag["@.len() as int;
                assert(la.subrange(n, la.len() - 1) =~= decimal(i as nat));
                assert(lb.subrange(n, lb.len() - 1) =~= decimal(j as nat));
                lemma_decimal_injective(i as nat, j as nat);
            },
            (AuditId::OscModAmountDrag(_), AuditId::CenterWtStripCell(_)) => { reveal_strlit("osc.mod.amount_drag["); reveal_strlit("center.wt_strip.cell["); assert(la[0] != lb[0]); },
            (AuditId::OscModAmountDrag(_), AuditId::CenterWtStripLayerChip(_)) => { reveal_strlit("osc.mod.amount_drag["); reveal_strlit("center.wt_strip.layer["); assert(la[0] != lb[0]); },
            (AuditId::OscModAmountDrag(_), AuditId::FooterChordPad(_)) => { reveal_strlit("osc.mod.amount_drag["); reveal_strlit("footer.chord_pad["); assert(la[0] != lb[0]); },
            (AuditId::OscModAmountDrag(_), AuditId::ComposeTrackRow(_)) => { reveal_strlit("osc.mod.amount_drag["); reveal_strlit("compose.track_row["); assert(la[0] != lb[0]); },
            (AuditId::OscModAmountDrag(_), AuditId::ComposeArrangementClip(_)) => { reveal_strlit("osc.mod.amount_drag["); reveal_strlit("compose.arrangement_clip["); assert(la[0] != lb[0]); },
            (AuditId::OscModAmountDrag(_), AuditId::ComposeSceneCell(_)) => { reveal_strlit("osc.mod.amount_drag["); reveal_strlit("compose.scene_cell["); assert(la[0] != lb[0]); },
            (AuditId::CenterWtStripCell(_), AuditId::OscStackLayerRow(_)) => { reveal_strlit("center.wt_strip.cell["); reveal_strlit("osc.stack_layer_row["); assert(la[0] != lb[0]); },
            (AuditId::CenterWtStripCell(_), AuditId::OscFxSlot(_)) => { reveal_strlit("center.wt_strip.cell["); reveal_strlit("osc.fx.slot["); assert(la[0] != lb[0]); },
            (AuditId::CenterWtStripCell(_), AuditId::OscFxSlotHeader(_)) => { reveal_strlit("center.wt_strip.cell["); reveal_strlit("osc.fx.slot_header["); assert(la[0] != lb[0]); },
            (AuditId::CenterWtStripCell(_), AuditId::OscFxSlotParams(_)) => { reveal_strlit("center.wt_strip.cell["); reveal_strlit("osc.fx.slot_params["); assert(la[0] != lb[0]); },
            (AuditId::CenterWtStripCell(_), AuditId::OscModRow(_)) => { reveal_strlit("center.wt_strip.cell["); reveal_strlit("osc.mod.row["); assert(la[0] != lb[0]); },
            (AuditId::CenterWtStripCell(_), AuditId::OscModSourceSelect(_)) => { reveal_strlit("center.wt_strip.cell["); reveal_strlit("osc.mod.source_select["); assert(la[0] != lb[0]); },
            (AuditId::CenterWtStripCell(_), AuditId::OscModTargetSelect(_)) => { reveal_strlit("center.wt_strip.cell["); reveal_strlit("osc.mod.target_select["); assert(la[0] != lb[0]); },
            (AuditId::CenterWtStripCell(_), AuditId::OscModAmountDrag(_)) => { reveal_strlit("center.wt_strip.cell["); reveal_strlit("osc.mod.amount_drag["); assert(la[0] != lb[0]); },
            (AuditId::CenterWtStripCell(i), AuditId::CenterWtStripCell(j)) => {
                reveal_strlit("center.wt_strip.cell[");
                let n = "center.wt_strip.cell["@.len() as int;
                assert(la.subrange(n, la.len() - 1) =~= decimal(i as nat));
                assert(lb.subrange(n, lb.len() - 1) =~= decimal(j as nat));
                lemma_decimal_injective(i as nat, j as nat);
            },
            (AuditId::CenterWtStripCell(_), AuditId::CenterWtStripLayerChip(_)) => { reveal_strlit("center.wt_strip.cell["); reveal_strlit("center.wt_strip.layer["); assert(la[16] != lb[16]); },
            (AuditId::CenterWtStripCell(_), AuditId::FooterChordPad(_)) => { reveal_strlit("center.wt_strip.cell["); reveal_strlit("footer.chord_pad["); assert(la[0] != lb[0]); },
            (AuditId::CenterWtStripCell(_), AuditId::ComposeTrackRow(_)) => { reveal_strlit("center.wt_strip.cell["); reveal_strlit("compose.track_row["); assert(la[1] != lb[1]); },
            (AuditId::CenterWtStripCell(_), AuditId::ComposeArrangementClip(_)) => { reveal_strlit("center.wt_strip.cell["); reveal_strlit("compose.arrangement_clip["); assert(la[1] != lb[1]); },
            (AuditId::CenterWtStripCell(_), AuditId::ComposeSceneCell(_)) => { reveal_strlit("center.wt_strip.cell["); reveal_strlit("compose.scene_cell["); assert(la[1] != lb[1]); },
            (AuditId::CenterWtStripLayerChip(_), AuditId::OscStackLayerRow(_)) => { reveal_strlit("center.wt_strip.layer["); reveal_strlit("osc.stack_layer_row["); assert(la[0] != lb[0]); },
            (AuditId::CenterWtStripLayerChip(_), AuditId::OscFxSlot(_)) => { reveal_strlit("center.wt_strip.layer["); reveal_strlit("osc.fx.slot["); assert(la[0] != lb[0]); },
            (AuditId::CenterWtStripLayerChip(_), AuditId::OscFxSlotHeader(_)) => { reveal_strlit("center.wt_strip.layer["); reveal_strlit("osc.fx.slot_header["); assert(la[0] != lb[0]); },
            (AuditId::CenterWtStripLayerChip(_), AuditId::OscFxSlotParams(_)) => { reveal_strlit("center.wt_strip.layer["); reveal_strlit("osc.fx.slot_params["); assert(la[0] != lb[0]); },
            (AuditId::CenterWtStripLayerChip(_), AuditId::OscModRow(_)) => { reveal_strlit("center.wt_strip.layer["); reveal_strlit("osc.mod.row["); assert(la[0] != lb[0]); },
            (AuditId::CenterWtStripLayerChip(_), AuditId::OscModSourceSelect(_)) => { reveal_strlit("center.wt_strip.layer["); reveal_strlit("osc.mod.source_select["); assert(la[0] != lb[0]); },
            (AuditId::CenterWtStripLayerChip(_), AuditId::OscModTargetSelect(_)) => { reveal_strlit("center.wt_strip.layer["); reveal_strlit("osc.mod.target_select["); assert(la[0] != lb[0]); },
            (AuditId::CenterWtStripLayerChip(_), AuditId::OscModAmountDrag(_)) => { reveal_strlit("center.wt_strip.layer["); reveal_strlit("osc.mod.amount_drag["); assert(la[0] != lb[0]); },
            (AuditId::CenterWtStripLayerChip(_), AuditId::CenterWtStripCell(_)) => { reveal_strlit("center.wt_strip.layer["); reveal_strlit("center.wt_strip.cell["); assert(la[16] != lb[16]); },
            (AuditId::CenterWtStripLayerChip(i), AuditId::CenterWtStripLayerChip(j)) => {
                reveal_strlit("center.wt_strip.layer[");
                let n = "center.wt_strip.layer["@.len() as int;
                assert(la.subrange(n, la.len() - 1) =~= decimal(i as nat));
                assert(lb.subrange(n, lb.len() - 1) =~= decimal(j as nat));
                lemma_decimal_injective(i as nat, j as nat);
            },
            (AuditId::CenterWtStripLayerChip(_), AuditId::FooterChordPad(_)) => { reveal_strlit("center.wt_strip.layer["); reveal_strlit("footer.chord_pad["); assert(la[0] != lb[0]); },
            (AuditId::CenterWtStripLayerChip(_), AuditId::ComposeTrackRow(_)) => { reveal_strlit("center.wt_strip.layer["); reveal_strlit("compose.track_row["); assert(la[1] != lb[1]); },
            (AuditId::CenterWtStripLayerChip(_), AuditId::ComposeArrangementClip(_)) => { reveal_strlit("center.wt_strip.layer["); reveal_strlit("compose.arrangement_clip["); assert(la[1] != lb[1]); },
            (AuditId::CenterWtStripLayerChip(_), AuditId::ComposeSceneCell(_)) => { reveal_strlit("center.wt_strip.layer["); reveal_strlit("compose.scene_cell["); assert(la[1] != lb[1]); },
            (AuditId::FooterChordPad(_), AuditId::OscStackLayerRow(_)) => { reveal_strlit("footer.chord_pad["); reveal_strlit("osc.stack_layer_row["); assert(la[0] != lb[0]); },
            (AuditId::FooterChordPad(_), AuditId::OscFxSlot(_)) => { reveal_strlit("footer.chord_pad["); reveal_strlit("osc.fx.slot["); assert(la[0] != lb[0]); },
            (AuditId::FooterChordPad(_), AuditId::OscFxSlotHeader(_)) => { reveal_strlit("footer.chord_pad["); reveal_strlit("osc.fx.slot_header["); assert(la[0] != lb[0]); },
            (AuditId::FooterChordPad(_), AuditId::OscFxSlotParams(_)) => { reveal_strlit("footer.chord_pad["); reveal_strlit("osc.fx.slot_params["); assert(la[0] != lb[0]); },
            (AuditId::FooterChordPad(_), AuditId::OscModRow(_)) => { reveal_strlit("footer.chord_pad["); reveal_strlit("osc.mod.row["); assert(la[0] != lb[0]); },
            (AuditId::FooterChordPad(_), AuditId::OscModSourceSelect(_)) => { reveal_strlit("footer.chord_pad["); reveal_strlit("osc.mod.source_select["); assert(la[0] != lb[0]); },
            (AuditId::FooterChordPad(_), AuditId::OscModTargetSelect(_)) => { reveal_strlit("footer.chord_pad["); reveal_strlit("osc.mod.target_select["); assert(la[0] != lb[0]); },
            (AuditId::FooterChordPad(_), AuditId::OscModAmountDrag(_)) => { reveal_strlit("footer.chord_pad["); reveal_strlit("osc.mod.amount_drag["); assert(la[0] != lb[0]); },
            (AuditId::FooterChordPad(_), AuditId::CenterWtStripCell(_)) => { reveal_strlit("footer.chord_pad["); reveal_strlit("center.wt_strip.cell["); assert(la[0] != lb[0]); },
            (AuditId::FooterChordPad(_), AuditId::CenterWtStripLayerChip(_)) => { reveal_strlit("footer.chord_pad["); reveal_strlit("center.wt_strip.layer["); assert(la[0] != lb[0]); },
            (AuditId::FooterChordPad(i), AuditId::FooterChordPad(j)) => {
                reveal_strlit("footer.chord_pad[");
                let n = "footer.chord_pad["@.len() as int;
                assert(la.subrange(n, la.len() - 1) =~= decimal(i as nat));
                assert(lb.subrange(n, lb.len() - 1) =~= decimal(j as nat));
                lemma_decimal_injective(i as nat, j as nat);
            },
            (AuditId::FooterChordPad(_), AuditId::ComposeTrackRow(_)) => { reveal_strlit("footer.chord_pad["); reveal_strlit("compose.track_row["); assert(la[0] != lb[0]); },
            (AuditId::FooterChordPad(_), AuditId::ComposeArrangementClip(_)) => { reveal_strlit("footer.chord_pad["); reveal_strlit("compose.arrangement_clip["); assert(la[0] != lb[0]); },
            (AuditId::FooterChordPad(_), AuditId::ComposeSceneCell(_)) => { reveal_strlit("footer.chord_pad["); reveal_strlit("compose.scene_cell["); assert(la[0] != lb[0]); },
            (AuditId::ComposeTrackRow(_), AuditId::OscStackLayerRow(_)) => { reveal_strlit("compose.track_row["); reveal_strlit("osc.stack_layer_row["); assert(la[0] != lb[0]); },
            (AuditId::ComposeTrackRow(_), AuditId::OscFxSlot(_)) => { reveal_strlit("compose.track_row["); reveal_strlit("osc.fx.slot["); assert(la[0] != lb[0]); },
            (AuditId::ComposeTrackRow(_), AuditId::OscFxSlotHeader(_)) => { reveal_strlit("compose.track_row["); reveal_strlit("osc.fx.slot_header["); assert(la[0] != lb[0]); },
            (AuditId::ComposeTrackRow(_), AuditId::OscFxSlotParams(_)) => { reveal_strlit("compose.track_row["); reveal_strlit("osc.fx.slot_params["); assert(la[0] != lb[0]); },
            (AuditId::ComposeTrackRow(_), AuditId::OscModRow(_)) => { reveal_strlit("compose.track_row["); reveal_strlit("osc.mod.row["); assert(la[0] != lb[0]); },
            (AuditId::ComposeTrackRow(_), AuditId::OscModSourceSelect(_)) => { reveal_strlit("compose.track_row["); reveal_strlit("osc.mod.source_select["); assert(la[0] != lb[0]); },
            (AuditId::ComposeTrackRow(_), AuditId::OscModTargetSelect(_)) => { reveal_strlit("compose.track_row["); reveal_strlit("osc.mod.target_select["); assert(la[0] != lb[0]); },
            (AuditId::ComposeTrackRow(_), AuditId::OscModAmountDrag(_)) => { reveal_strlit("compose.track_row["); reveal_strlit("osc.mod.amount_drag["); assert(la[0] != lb[0]); },
            (AuditId::ComposeTrackRow(_), AuditId::CenterWtStripCell(_)) => { reveal_strlit("compose.track_row["); reveal_strlit("center.wt_strip.cell["); assert(la[1] != lb[1]); },
            (AuditId::ComposeTrackRow(_), AuditId::CenterWtStripLayerChip(_)) => { reveal_strlit("compose.track_row["); reveal_strlit("center.wt_strip.layer["); assert(la[1] != lb[1]); },
            (AuditId::ComposeTrackRow(_), AuditId::FooterChordPad(_)) => { reveal_strlit("compose.track_row["); reveal_strlit("footer.chord_pad["); assert(la[0] != lb[0]); },
            (AuditId::ComposeTrackRow(i), AuditId::ComposeTrackRow(j)) => {
                reveal_strlit("compose.track_row[");
                let n = "compose.track_row["@.len() as int;
                assert(la.subrange(n, la.len() - 1) =~= decimal(i as nat));
                assert(lb.subrange(n, lb.len() - 1) =~= decimal(j as nat));
                lemma_decimal_injective(i as nat, j as nat);
            },
            (AuditId::ComposeTrackRow(_), AuditId::ComposeArrangementClip(_)) => { reveal_strlit("compose.track_row["); reveal_strlit("compose.arrangement_clip["); assert(la[8] != lb[8]); },
            (AuditId::ComposeTrackRow(_), AuditId::ComposeSceneCell(_)) => { reveal_strlit("compose.track_row["); reveal_strlit("compose.scene_cell["); assert(la[8] != lb[8]); },
            (AuditId::ComposeArrangementClip(_), AuditId::OscStackLayerRow(_)) => { reveal_strlit("compose.arrangement_clip["); reveal_strlit("osc.stack_layer_row["); assert(la[0] != lb[0]); },
            (AuditId::ComposeArrangementClip(_), AuditId::OscFxSlot(_)) => { reveal_strlit("compose.arrangement_clip["); reveal_strlit("osc.fx.slot["); assert(la[0] != lb[0]); },
            (AuditId::ComposeArrangementClip(_), AuditId::OscFxSlotHeader(_)) => { reveal_strlit("compose.arrangement_clip["); reveal_strlit("osc.fx.slot_header["); assert(la[0] != lb[0]); },
            (AuditId::ComposeArrangementClip(_), AuditId::OscFxSlotParams(_)) => { reveal_strlit("compose.arrangement_clip["); reveal_strlit("osc.fx.slot_params["); assert(la[0] != lb[0]); },
            (AuditId::ComposeArrangementClip(_), AuditId::OscModRow(_)) => { reveal_strlit("compose.arrangement_clip["); reveal_strlit("osc.mod.row["); assert(la[0] != lb[0]); },
            (AuditId::ComposeArrangementClip(_), AuditId::OscModSourceSelect(_)) => { reveal_strlit("compose.arrangement_clip["); reveal_strlit("osc.mod.source_select["); assert(la[0] != lb[0]); },
            (AuditId::ComposeArrangementClip(_), AuditId::OscModTargetSelect(_)) => { reveal_strlit("compose.arrangement_clip["); reveal_strlit("osc.mod.target_select["); assert(la[0] != lb[0]); },
            (AuditId::ComposeArrangementClip(_), AuditId::OscModAmountDrag(_)) => { reveal_strlit("compose.arrangement_clip["); reveal_strlit("osc.mod.amount_drag["); assert(la[0] != lb[0]); },
            (AuditId::ComposeArrangementClip(_), AuditId::CenterWtStripCell(_)) => { reveal_strlit("compose.arrangement_clip["); reveal_strlit("center.wt_strip.cell["); assert(la[1] != lb[1]); },
            (AuditId::ComposeArrangementClip(_), AuditId::CenterWtStripLayerChip(_)) => { reveal_strlit("compose.arrangement_clip["); reveal_strlit("center.wt_strip.layer["); assert(la[1] != lb[1]); },
            (AuditId::ComposeArrangementClip(_), AuditId::FooterChordPad(_)) => { reveal_strlit("compose.arrangement_clip["); reveal_strlit("footer.chord_pad["); assert(la[0] != lb[0]); },
            (AuditId::ComposeArrangementClip(_), AuditId::ComposeTrackRow(_)) => { reveal_strlit("compose.arrangement_clip["); reveal_strlit("compose.track_row["); assert(la[8] != lb[8]); },
            (AuditId::ComposeArrangementClip(i), AuditId::ComposeArrangementClip(j)) => {
                reveal_strlit("compose.arrangement_clip[");
                let n = "compose.arrangement_clip["@.len() as int;
                assert(la.subrange(n, la.len() - 1) =~= decimal(i as nat));
                assert(lb.subrange(n, lb.len() - 1) =~= decimal(j as nat));
                lemma_decimal_injective(i as nat, j as nat);
            },
            (AuditId::ComposeArrangementClip(_), AuditId::ComposeSceneCell(_)) => { reveal_strlit("compose.arrangement_clip["); reveal_strlit("compose.scene_cell["); assert(la[8] != lb[8]); },
            (AuditId::ComposeSceneCell(_), AuditId::OscStackLayerRow(_)) => { reveal_strlit("compose.scene_cell["); reveal_strlit("osc.stack_layer_row["); assert(la[0] != lb[0]); },
            (AuditId::ComposeSceneCell(_), AuditId::OscFxSlot(_)) => { reveal_strlit("compose.scene_cell["); reveal_strlit("osc.fx.slot["); assert(la[0] != lb[0]); },
            (AuditId::ComposeSceneCell(_), AuditId::OscFxSlotHeader(_)) => { reveal_strlit("compose.scene_cell["); reveal_strlit("osc.fx.slot_header["); assert(la[0] != lb[0]); },
            (AuditId::ComposeSceneCell(_), AuditId::OscFxSlotParams(_)) => { reveal_strlit("compose.scene_cell["); reveal_strlit("osc.fx.slot_params["); assert(la[0] != lb[0]); },
            (AuditId::ComposeSceneCell(_), AuditId::OscModRow(_)) => { reveal_strlit("compose.scene_cell["); reveal_strlit("osc.mod.row["); assert(la[0] != lb[0]); },
            (AuditId::ComposeSceneCell(_), AuditId::OscModSourceSelect(_)) => { reveal_strlit("compose.scene_cell["); reveal_strlit("osc.mod.source_select["); assert(la[0] != lb[0]); },
            (AuditId::ComposeSceneCell(_), AuditId::OscModTargetSelect(_)) => { reveal_strlit("compose.scene_cell["); reveal_strlit("osc.mod.target_select["); assert(la[0] != lb[0]); },
            (AuditId::ComposeSceneCell(_), AuditId::OscModAmountDrag(_)) => { reveal_strlit("compose.scene_cell["); reveal_strlit("osc.mod.amount_drag["); assert(la[0] != lb[0]); },
            (AuditId::ComposeSceneCell(_), AuditId::CenterWtStripCell(_)) => { reveal_strlit("compose.scene_cell["); reveal_strlit("center.wt_strip.cell["); assert(la[1] != lb[1]); },
            (AuditId::ComposeSceneCell(_), AuditId::CenterWtStripLayerChip(_)) => { reveal_strlit("compose.scene_cell["); reveal_strlit("center.wt_strip.layer["); assert(la[1] != lb[1]); },
            (AuditId::ComposeSceneCell(_), AuditId::FooterChordPad(_)) => { reveal_strlit("compose.scene_cell["); reveal_strlit("footer.chord_pad["); assert(la[0] != lb[0]); },
            (AuditId::ComposeSceneCell(_), AuditId::ComposeTrackRow(_)) => { reveal_strlit("compose.scene_cell["); reveal_strlit("compose.track_row["); assert(la[8] != lb[8]); },
            (AuditId::ComposeSceneCell(_), AuditId::ComposeArrangementClip(_)) => { reveal_strlit("compose.scene_cell["); reveal_strlit("compose.arrangement_clip["); assert(la[8] != lb[8]); },
            (AuditId::ComposeSceneCell(i), AuditId::ComposeSceneCell(j)) => {
                reveal_strlit("compose.scene_cell[");
                let n = "compose.scene_cell["@.len() as int;
                assert(la.subrange(n, la.len() - 1) =~= decimal(i as nat));
                assert(lb.subrange(n, lb.len() - 1) =~= decimal(j as nat));
                lemma_decimal_injective(i as nat, j as nat);
            },
            _ => {},
        }
    }
}

} // verus!

verus! {

/// The non-indexed element whose label is `s`, if any: a decision on the label's
/// length and a few of its characters, confirmed against the whole label.
pub open spec fn static_label_owner(s: Seq<char>) -> Option<AuditId> {
    if s.len() == 10 {
        if s[0] == 's' {
            if s == "shell.main"@ {
                Some(AuditId::ShellMain)
            } else {
                None
            }
        } else if s[0] == 'o' {
            if s == "osc.column"@ {
                Some(AuditId::OscColumn)
            } else {
                None
            }
        } else {
            None
        }
    } else if s.len() == 11 {
        if s == "rail.column"@ {
            Some(AuditId::RailColumn)
        } else {
            None
        }
    } else if s.len() == 12 {
        if s[8] == 'a' {
            if s[0] == 's' {
                if s == "shell.header"@ {
                    Some(AuditId::ShellHeader)
                } else {
                    None
                }
            } else if s[0] == 'o' {
                if s == "osc.fx.panel"@ {
                    Some(AuditId::OscFxPanel)
                } else {
                    None
                }
            } else if s[0] == 'w' {
                if s == "widget.panel"@ {
                    Some(AuditId::WidgetPanel)
                } else {
                    None
                }
            } else {
                None
            }
        } else if s[8] == 'o' {
            if s == "shell.footer"@ {
                Some(AuditId::ShellFooter)
            } else {
                None
            }
        } else if s[8] == 'r' {
            if s == "header.brand"@ {
                Some(AuditId::HeaderBrand)
            } else {
                None
            }
        } else if s[8] == 'u' {
            if s == "osc.wt_quant"@ {
                Some(AuditId::OscWtQuant)
            } else {
                None
            }
        } else if s[8] == 'l' {
            if s == "osc.panel_fm"@ {
                Some(AuditId::OscPanelFm)
            } else {
                None
            }
        } else if s[8] == 'n' {
            if s == "osc.fm_knobs"@ {
                Some(AuditId::OscFmKnobs)
            } else {
                None
            }
        } else if s[8] == 'c' {
            if s == "center.scope"@ {
                Some(AuditId::CenterScope)
            } else {
                None
            }
        } else if s[8] == 't' {
            if s == "center.wt_2d"@ {
                Some(AuditId::CenterWt2d)
            } else {
                None
            }
        } else if s[8] == 'i' {
            if s == "center.piano"@ {
                Some(AuditId::CenterPiano)
            } else {
                None
            }
        } else {
            None
        }
    } else if s.len() == 13 {
        if s[0] == 'o' {
            if s == "osc.mod.panel"@ {
                Some(AuditId::OscModPanel)
            } else {
                None
            }
        } else if s[0] == 'c' {
            if s == "center.column"@ {
                Some(AuditId::CenterColumn)
            } else {
                None
            }
        } else if s[0] == 'f' {
            if s == "footer.status"@ {
                Some(AuditId::FooterStatus)
            } else {
                None
            }
        } else {
            None
        }
    } else if s.len() == 14 {
        if s[12] == 'i' {
            if s == "shell.fx_strip"@ {
                Some(AuditId::ShellFxStrip)
            } else {
                None
            }
        } else if s[12] == 'n' {
            if s == "header.wt_menu"@ {
                Some(AuditId::HeaderWtMenu)
            } else {
                None
            }
        } else if s[12] == 't' {
            if s == "osc.fx.add_btn"@ {
                Some(AuditId::OscFxAddBtn)
            } else {
                None
            }
        } else if s[12] == 's' {
            if s == "widget.knob_sm"@ {
                Some(AuditId::WidgetKnobSm)
            } else {
                None
            }
        } else if s[12] == 'm' {
            if s == "widget.knob_md"@ {
                Some(AuditId::WidgetKnobMd)
            } else {
                None
            }
        } else if s[12] == 'l' {
            if s == "widget.knob_lg"@ {
                Some(AuditId::WidgetKnobLg)
            } else {
                None
            }
        } else if s[12] == 'a' {
            if s == "widget.tab_bar"@ {
                Some(AuditId::WidgetTabBar)
            } else {
                None
            }
        } else {
            None
        }
    } else if s.len() == 15 {
        if s[8] == 'd' {
            if s == "shell.mod_strip"@ {
                Some(AuditId::ShellModStrip)
            } else {
                None
            }
        } else if s[8] == 'p' {
            if s[0] == 'h' {
                if s == "header.open_btn"@ {
                    Some(AuditId::HeaderOpenBtn)
                } else {
                    None
                }
            } else if s[0] == 'o' {
                if s == "osc.strip_cards"@ {
                    Some(AuditId::OscStripCards)
                } else {
                    None
                }
            } else {
                None
            }
        } else if s[8] == 'a' {
            if s == "header.save_btn"@ {
                Some(AuditId::HeaderSaveBtn)
            } else {
                None
            }
        } else if s[8] == '_' {
            if s[4] == 't' {
                if s == "osc.type_select"@ {
                    Some(AuditId::OscTypeSelect)
                } else {
                    None
                }
            } else if s[4] == 'w' {
                if s == "osc.warp_select"@ {
                    Some(AuditId::OscWarpSelect)
                } else {
                    None
                }
            } else {
                None
            }
        } else if s[8] == 'e' {
            if s[0] == 'o' {
                if s == "osc.pulse_width"@ {
                    Some(AuditId::OscPulseWidth)
                } else {
                    None
                }
            } else if s[0] == 'r' {
                if s == "rail.panel_lfos"@ {
                    Some(AuditId::RailPanelLfos)
                } else {
                    None
                }
            } else {
                None
            }
        } else if s[8] == 'l' {
            if s == "osc.panel_stack"@ {
                Some(AuditId::OscPanelStack)
            } else {
                None
            }
        } else if s[8] == 't' {
            if s[10] == 's' {
                if s == "center.wt_strip"@ {
                    Some(AuditId::CenterWtStrip)
                } else {
                    None
                }
            } else if s[10] == 'm' {
                if s == "center.wt_morph"@ {
                    Some(AuditId::CenterWtMorph)
                } else {
                    None
                }
            } else if s[10] == 'v' {
                if s == "center.wt_views"@ {
                    Some(AuditId::CenterWtViews)
                } else {
                    None
                }
            } else {
                None
            }
        } else if s[8] == '1' {
            if s == "rail.lfo1_block"@ {
                Some(AuditId::RailLfo1Block)
            } else {
                None
            }
        } else if s[8] == '2' {
            if s == "rail.lfo2_block"@ {
                Some(AuditId::RailLfo2Block)
            } else {
                None
            }
        } else {
            None
        }
    } else if s.len() == 16 {
        if s[5] == '.' {
            if s == "shell.piano_wrap"@ {
                Some(AuditId::ShellPianoWrap)
            } else {
                None
            }
        } else if s[5] == 'm' {
            if s == "osc.fm_algorithm"@ {
                Some(AuditId::OscFmAlgorithm)
            } else {
                None
            }
        } else if s[5] == 'r' {
            if s == "center.wt_result"@ {
                Some(AuditId::CenterWtResult)
            } else {
                None
            }
        } else if s[5] == 'f' {
            if s == "rail.filter_tabs"@ {
                Some(AuditId::RailFilterTabs)
            } else {
                None
            }
        } else if s[5] == 'l' {
            if s == "rail.level_meter"@ {
                Some(AuditId::RailLevelMeter)
            } else {
                None
            }
        } else {
            None
        }
    } else if s.len() == 17 {
        if s[7] == 'm' {
            if s == "header.midi_combo"@ {
                Some(AuditId::HeaderMidiCombo)
            } else {
                None
            }
        } else if s[7] == 's' {
            if s == "osc.unison_slider"@ {
                Some(AuditId::OscUnisonSlider)
            } else {
                None
            }
        } else if s[7] == 'e' {
            if s == "osc.spread_slider"@ {
                Some(AuditId::OscSpreadSlider)
            } else {
                None
            }
        } else if s[7] == 'w' {
            if s == "center.wt_2d.plot"@ {
                Some(AuditId::CenterWt2dPlot)
            } else {
                None
            }
        } else if s[7] == 'n' {
            if s == "rail.panel_filter"@ {
                Some(AuditId::RailPanelFilter)
            } else {
                None
            }
        } else if s[7] == 'l' {
            if s == "rail.filter_knobs"@ {
                Some(AuditId::RailFilterKnobs)
            } else {
                None
            }
        } else if s[7] == 'c' {
            if s == "footer.chord_grid"@ {
                Some(AuditId::FooterChordGrid)
            } else {
                None
            }
        } else if s[7] == '.' {
            if s[13] == 'p' {
                if s == "compose.transport"@ {
                    Some(AuditId::ComposeTransport)
                } else {
                    None
                }
            } else if s[13] == 'k' {
                if s == "compose.roll_keys"@ {
                    Some(AuditId::ComposeRollKeys)
                } else {
                    None
                }
            } else if s[13] == 'g' {
                if s == "compose.roll_grid"@ {
                    Some(AuditId::ComposeRollGrid)
                } else {
                    None
                }
            } else {
                None
            }
        } else if s[7] == 'r' {
            if s == "widget.reel_combo"@ {
                Some(AuditId::WidgetReelCombo)
            } else {
                None
            }
        } else if s[7] == 'a' {
            if s == "widget.adsr_graph"@ {
                Some(AuditId::WidgetAdsrGraph)
            } else {
                None
            }
        } else {
            None
        }
    } else if s.len() == 18 {
        if s[14] == 's' {
            if s == "header.mode_design"@ {
                Some(AuditId::HeaderModeDesign)
            } else {
                None
            }
        } else if s[14] == 'a' {
            if s == "header.performance"@ {
                Some(AuditId::HeaderPerformance)
            } else {
                None
            }
        } else if s[14] == 'o' {
            if s[0] == 'h' {
                if s == "header.audio_combo"@ {
                    Some(AuditId::HeaderAudioCombo)
                } else {
                    None
                }
            } else if s[0] == 'c' {
                if s == "center.wt_3d_morph"@ {
                    Some(AuditId::CenterWt3dMorph)
                } else {
                    None
                }
            } else {
                None
            }
        } else if s[14] == 'c' {
            if s == "center.wt_selected"@ {
                Some(AuditId::CenterWtSelected)
            } else {
                None
            }
        } else if s[14] == 't' {
            if s == "center.wt_3d_stack"@ {
                Some(AuditId::CenterWt3dStack)
            } else {
                None
            }
        } else if s[14] == '_' {
            if s == "rail.panel_amp_env"@ {
                Some(AuditId::RailPanelAmpEnv)
            } else {
                None
            }
        } else if s[14] == 'r' {
            if s[0] == 'r' {
                if s == "rail.amp_env_graph"@ {
                    Some(AuditId::RailAmpEnvGraph)
                } else {
                    None
                }
            } else if s[0] == 'c' {
                if s == "compose.piano_roll"@ {
                    Some(AuditId::ComposePianoRoll)
                } else {
                    None
                }
            } else {
                None
            }
        } else if s[14] == 'n' {
            if s == "rail.amp_env_knobs"@ {
                Some(AuditId::RailAmpEnvKnobs)
            } else {
                None
            }
        } else if s[14] == 'l' {
            if s == "compose.track_list"@ {
                Some(AuditId::ComposeTrackList)
            } else {
                None
            }
        } else if s[14] == 'g' {
            if s == "compose.scene_grid"@ {
                Some(AuditId::ComposeSceneGrid)
            } else {
                None
            }
        } else {
            None
        }
    } else if s.len() == 19 {
        if s[15] == 'p' {
            if s == "header.mode_compose"@ {
                Some(AuditId::HeaderModeCompose)
            } else {
                None
            }
        } else if s[15] == 'g' {
            if s == "header.piano_toggle"@ {
                Some(AuditId::HeaderPianoToggle)
            } else {
                None
            }
        } else if s[15] == 's' {
            if s[0] == 'h' {
                if s == "header.left_cluster"@ {
                    Some(AuditId::HeaderLeftCluster)
                } else {
                    None
                }
            } else if s[0] == 'c' {
                if s == "center.wt_2d.result"@ {
                    Some(AuditId::CenterWt2dResult)
                } else {
                    None
                }
            } else {
                None
            }
        } else if s[15] == 'i' {
            if s == "osc.warp_amt_slider"@ {
                Some(AuditId::OscWarpAmtSlider)
            } else {
                None
            }
        } else if s[15] == '_' {
            if s == "rail.panel_filt_env"@ {
                Some(AuditId::RailPanelFiltEnv)
            } else {
                None
            }
        } else if s[15] == 'r' {
            if s == "rail.filt_env_graph"@ {
                Some(AuditId::RailFiltEnvGraph)
            } else {
                None
            }
        } else if s[15] == 'n' {
            if s == "rail.filt_env_knobs"@ {
                Some(AuditId::RailFiltEnvKnobs)
            } else {
                None
            }
        } else if s[15] == 'm' {
            if s == "compose.arrangement"@ {
                Some(AuditId::ComposeArrangement)
            } else {
                None
            }
        } else if s[15] == 'h' {
            if s == "widget.button_ghost"@ {
                Some(AuditId::WidgetButtonGhost)
            } else {
                None
            }
        } else {
            None
        }
    } else if s.len() == 20 {
        if s[10] == 't' {
            if s[0] == 'h' {
                if s == "header.settings_menu"@ {
                    Some(AuditId::HeaderSettingsMenu)
                } else {
                    None
                }
            } else if s[0] == 'w' {
                if s == "widget.button_toggle"@ {
                    Some(AuditId::WidgetButtonToggle)
                } else {
                    None
                }
            } else {
                None
            }
        } else if s[10] == 'h' {
            if s == "header.right_cluster"@ {
                Some(AuditId::HeaderRightCluster)
            } else {
                None
            }
        } else if s[10] == 'p' {
            if s == "center.scope.cell_fx"@ {
                Some(AuditId::CenterScopeCellFx)
            } else {
                None
            }
        } else if s[10] == '2' {
            if s == "center.wt_2d.toolbar"@ {
                Some(AuditId::CenterWt2dToolbar)
            } else {
                None
            }
        } else if s[10] == 'n' {
            if s == "footer.piano_compact"@ {
                Some(AuditId::FooterPianoCompact)
            } else {
                None
            }
        } else if s[10] == 'l' {
            if s == "compose.roll_toolbar"@ {
                Some(AuditId::ComposeRollToolbar)
            } else {
                None
            }
        } else if s[10] == 'e' {
            if s == "widget.sidebar_panel"@ {
                Some(AuditId::WidgetSidebarPanel)
            } else {
                None
            }
        } else {
            None
        }
    } else if s.len() == 21 {
        if s[19] == 'r' {
            if s == "osc.panel_oscillators"@ {
                Some(AuditId::OscPanelOscillators)
            } else {
                None
            }
        } else if s[19] == 's' {
            if s == "center.scope.cell_osc"@ {
                Some(AuditId::CenterScopeCellOsc)
            } else {
                None
            }
        } else if s[19] == 'u' {
            if s == "center.scope.cell_out"@ {
                Some(AuditId::CenterScopeCellOut)
            } else {
                None
            }
        } else if s[19] == 'p' {
            if s == "compose.transport_bpm"@ {
                Some(AuditId::ComposeTransportBpm)
            } else {
                None
            }
        } else if s[19] == 't' {
            if s == "compose.roll_velocity"@ {
                Some(AuditId::ComposeRollVelocity)
            } else {
                None
            }
        } else if s[19] == 'c' {
            if s == "widget.labeled_select"@ {
                Some(AuditId::WidgetLabeledSelect)
            } else {
                None
            }
        } else {
            None
        }
    } else if s.len() == 22 {
        if s[18] == 'i' {
            if s == "osc.wt_position_slider"@ {
                Some(AuditId::OscWtPositionSlider)
            } else {
                None
            }
        } else if s[18] == 'p' {
            if s == "compose.transport_play"@ {
                Some(AuditId::ComposeTransportPlay)
            } else {
                None
            }
        } else if s[18] == 's' {
            if s == "compose.transport_snap"@ {
                Some(AuditId::ComposeTransportSnap)
            } else {
                None
            }
        } else {
            None
        }
    } else if s.len() == 23 {
        if s == "compose.roll_automation"@ {
            Some(AuditId::ComposeRollAutomation)
        } else {
            None
        }
    } else if s.len() == 24 {
        if s[7] == 's' {
            if s == "center.scope.cell_filter"@ {
                Some(AuditId::CenterScopeCellFilter)
            } else {
                None
            }
        } else if s[7] == 'w' {
            if s == "center.wt_3d_mode_toggle"@ {
                Some(AuditId::CenterWt3dModeToggle)
            } else {
                None
            }
        } else {
            None
        }
    } else if s.len() == 25 {
        if s[13] == 'c' {
            if s == "center.wt_2d.curve_editor"@ {
                Some(AuditId::CenterWt2dCurveEditor)
            } else {
                None
            }
        } else if s[13] == 's' {
            if s == "center.wt_2d.shape_editor"@ {
                Some(AuditId::CenterWt2dShapeEditor)
            } else {
                None
            }
        } else {
            None
        }
    } else if s.len() == 26 {
        if s == "osc.knobs_level_pan_coarse"@ {
            Some(AuditId::OscKnobsLevelPanCoarse)
        } else {
            None
        }
    } else if s.len() == 27 {
        if s == "center.wt_2d.analyze_dialog"@ {
            Some(AuditId::CenterWt2dAnalyzeDialog)
        } else {
            None
        }
    } else {
        None
    }
}

/// A non-indexed element is found again from its label, which never ends in `]`.
proof fn lemma_static_label_owner(id: AuditId)
    requires
        !is_indexed(id),
    ensures
        static_label_owner(static_label_of(id)) == Some(id),
        static_label_of(id).len() > 0,
        static_label_of(id).last() != ']',
{
    match id {
        AuditId::ShellHeader => {
            reveal_strlit("shell.header");
        },
        AuditId::ShellMain => {
            reveal_strlit("shell.main");
        },
        AuditId::ShellFooter => {
            reveal_strlit("shell.footer");
        },
        AuditId::ShellModStrip => {
            reveal_strlit("shell.mod_strip");
        },
        AuditId::ShellFxStrip => {
            reveal_strlit("shell.fx_strip");
        },
        AuditId::ShellPianoWrap => {
            reveal_strlit("shell.piano_wrap");
        },
        AuditId::HeaderBrand => {
            reveal_strlit("header.brand");
        },
        AuditId::HeaderOpenBtn => {
            reveal_strlit("header.open_btn");
        },
        AuditId::HeaderSaveBtn => {
            reveal_strlit("header.save_btn");
        },
        AuditId::HeaderModeDesign => {
            reveal_strlit("header.mode_design");
        },
        AuditId::HeaderModeCompose => {
            reveal_strlit("header.mode_compose");
        },
        AuditId::HeaderPerformance => {
            reveal_strlit("header.performance");
        },
        AuditId::HeaderWtMenu => {
            reveal_strlit("header.wt_menu");
        },
        AuditId::HeaderSettingsMenu => {
            reveal_strlit("header.settings_menu");
        },
        AuditId::HeaderMidiCombo => {
            reveal_strlit("header.midi_combo");
        },
        AuditId::HeaderAudioCombo => {
            reveal_strlit("header.audio_combo");
        },
        AuditId::HeaderPianoToggle => {
            reveal_strlit("header.piano_toggle");
        },
        AuditId::HeaderLeftCluster => {
            reveal_strlit("header.left_cluster");
        },
        AuditId::HeaderRightCluster => {
            reveal_strlit("header.right_cluster");
        },
        AuditId::OscColumn => {
            reveal_strlit("osc.column");
        },
        AuditId::OscPanelOscillators => {
            reveal_strlit("osc.panel_oscillators");
        },
        AuditId::OscStripCards => {
            reveal_strlit("osc.strip_cards");
        },
        AuditId::OscTypeSelect => {
            reveal_strlit("osc.type_select");
        },
        AuditId::OscKnobsLevelPanCoarse => {
            reveal_strlit("osc.knobs_level_pan_coarse");
        },
        AuditId::OscWtQuant => {
            reveal_strlit("osc.wt_quant");
        },
        AuditId::OscWtPositionSlider => {
            reveal_strlit("osc.wt_position_slider");
        },
        AuditId::OscWarpSelect => {
            reveal_strlit("osc.warp_select");
        },
        AuditId::OscWarpAmtSlider => {
            reveal_strlit("osc.warp_amt_slider");
        },
        AuditId::OscPulseWidth => {
            reveal_strlit("osc.pulse_width");
        },
        AuditId::OscUnisonSlider => {
            reveal_strlit("osc.unison_slider");
        },
        AuditId::OscSpreadSlider => {
            reveal_strlit("osc.spread_slider");
        },
        AuditId::OscPanelStack => {
            reveal_strlit("osc.panel_stack");
        },
        AuditId::OscPanelFm => {
            reveal_strlit("osc.panel_fm");
        },
        AuditId::OscFmAlgorithm => {
            reveal_strlit("osc.fm_algorithm");
        },
        AuditId::OscFmKnobs => {
            reveal_strlit("osc.fm_knobs");
        },
        AuditId::OscFxPanel => {
            reveal_strlit("osc.fx.panel");
        },
        AuditId::OscFxAddBtn => {
            reveal_strlit("osc.fx.add_btn");
        },
        AuditId::OscModPanel => {
            reveal_strlit("osc.mod.panel");
        },
        AuditId::CenterColumn => {
            reveal_strlit("center.column");
        },
        AuditId::CenterScope => {
            reveal_strlit("center.scope");
        },
        AuditId::CenterScopeCellOsc => {
            reveal_strlit("center.scope.cell_osc");
        },
        AuditId::CenterScopeCellFilter => {
            reveal_strlit("center.scope.cell_filter");
        },
        AuditId::CenterScopeCellFx => {
            reveal_strlit("center.scope.cell_fx");
        },
        AuditId::CenterScopeCellOut => {
            reveal_strlit("center.scope.cell_out");
        },
        AuditId::CenterWtStrip => {
            reveal_strlit("center.wt_strip");
        },
        AuditId::CenterWtMorph => {
            reveal_strlit("center.wt_morph");
        },
        AuditId::CenterWtViews => {
            reveal_strlit("center.wt_views");
        },
        AuditId::CenterWt2d => {
            reveal_strlit("center.wt_2d");
        },
        AuditId::CenterWt2dToolbar => {
            reveal_strlit("center.wt_2d.toolbar");
        },
        AuditId::CenterWt2dPlot => {
            reveal_strlit("center.wt_2d.plot");
        },
        AuditId::CenterWt2dResult => {
            reveal_strlit("center.wt_2d.result");
        },
        AuditId::CenterWtResult => {
            reveal_strlit("center.wt_result");
        },
        AuditId::CenterWtSelected => {
            reveal_strlit("center.wt_selected");
        },
        AuditId::CenterWt2dCurveEditor => {
            reveal_strlit("center.wt_2d.curve_editor");
        },
        AuditId::CenterWt2dShapeEditor => {
            reveal_strlit("center.wt_2d.shape_editor");
        },
        AuditId::CenterWt2dAnalyzeDialog => {
            reveal_strlit("center.wt_2d.analyze_dialog");
        },
        AuditId::CenterWt3dStack => {
            reveal_strlit("center.wt_3d_stack");
        },
        AuditId::CenterWt3dMorph => {
            reveal_strlit("center.wt_3d_morph");
        },
        AuditId::CenterWt3dModeToggle => {
            reveal_strlit("center.wt_3d_mode_toggle");
        },
        AuditId::CenterPiano => {
            reveal_strlit("center.piano");
        },
        AuditId::RailColumn => {
            reveal_strlit("rail.column");
        },
        AuditId::RailPanelFilter => {
            reveal_strlit("rail.panel_filter");
        },
        AuditId::RailFilterTabs => {
            reveal_strlit("rail.filter_tabs");
        },
        AuditId::RailFilterKnobs => {
            reveal_strlit("rail.filter_knobs");
        },
        AuditId::RailPanelFiltEnv => {
            reveal_strlit("rail.panel_filt_env");
        },
        AuditId::RailFiltEnvGraph => {
            reveal_strlit("rail.filt_env_graph");
        },
        AuditId::RailFiltEnvKnobs => {
            reveal_strlit("rail.filt_env_knobs");
        },
        AuditId::RailPanelAmpEnv => {
            reveal_strlit("rail.panel_amp_env");
        },
        AuditId::RailAmpEnvGraph => {
            reveal_strlit("rail.amp_env_graph");
        },
        AuditId::RailAmpEnvKnobs => {
            reveal_strlit("rail.amp_env_knobs");
        },
        AuditId::RailPanelLfos => {
            reveal_strlit("rail.panel_lfos");
        },
        AuditId::RailLfo1Block => {
            reveal_strlit("rail.lfo1_block");
        },
        AuditId::RailLfo2Block => {
            reveal_strlit("rail.lfo2_block");
        },
        AuditId::RailLevelMeter => {
            reveal_strlit("rail.level_meter");
        },
        AuditId::FooterStatus => {
            reveal_strlit("footer.status");
        },
        AuditId::FooterChordGrid => {
            reveal_strlit("footer.chord_grid");
        },
        AuditId::FooterPianoCompact => {
            reveal_strlit("footer.piano_compact");
        },
        AuditId::ComposeTransport => {
            reveal_strlit("compose.transport");
        },
        AuditId::ComposeTransportPlay => {
            reveal_strlit("compose.transport_play");
        },
        AuditId::ComposeTransportBpm => {
            reveal_strlit("compose.transport_bpm");
        },
        AuditId::ComposeTransportSnap => {
            reveal_strlit("compose.transport_snap");
        },
        AuditId::ComposeTrackList => {
            reveal_strlit("compose.track_list");
        },
        AuditId::ComposeArrangement => {
            reveal_strlit("compose.arrangement");
        },
        AuditId::ComposePianoRoll => {
            reveal_strlit("compose.piano_roll");
        },
        AuditId::ComposeRollToolbar => {
            reveal_strlit("compose.roll_toolbar");
        },
        AuditId::ComposeRollKeys => {
            reveal_strlit("compose.roll_keys");
        },
        AuditId::ComposeRollGrid => {
            reveal_strlit("compose.roll_grid");
        },
        AuditId::ComposeRollVelocity => {
            reveal_strlit("compose.roll_velocity");
        },
        AuditId::ComposeRollAutomation => {
            reveal_strlit("compose.roll_automation");
        },
        AuditId::ComposeSceneGrid => {
            reveal_strlit("compose.scene_grid");
        },
        AuditId::WidgetKnobSm => {
            reveal_strlit("widget.knob_sm");
        },
        AuditId::WidgetKnobMd => {
            reveal_strlit("widget.knob_md");
        },
        AuditId::WidgetKnobLg => {
            reveal_strlit("widget.knob_lg");
        },
        AuditId::WidgetPanel => {
            reveal_strlit("widget.panel");
        },
        AuditId::WidgetSidebarPanel => {
            reveal_strlit("widget.sidebar_panel");
        },
        AuditId::WidgetLabeledSelect => {
            reveal_strlit("widget.labeled_select");
        },
        AuditId::WidgetReelCombo => {
            reveal_strlit("widget.reel_combo");
        },
        AuditId::WidgetTabBar => {
            reveal_strlit("widget.tab_bar");
        },
        AuditId::WidgetButtonGhost => {
            reveal_strlit("widget.button_ghost");
        },
        AuditId::WidgetButtonToggle => {
            reveal_strlit("widget.button_toggle");
        },
        AuditId::WidgetAdsrGraph => {
            reveal_strlit("widget.adsr_graph");
        },
        _ => {},
    }
}

/// An indexed element's label ends with the closing bracket after its index.
proof fn lemma_indexed_label_ends_in_bracket(id: AuditId)
    requires
        is_indexed(id),
    ensures
        audit_label(id).len() > 0,
        audit_label(id).last() == ']',
{
    reveal_strlit("]");
}

/// Labels identify elements: two elements with the same label are the same element,
/// and no element is labelled `unknown`.
pub proof fn lemma_labels_identify_elements(a: AuditId, b: AuditId)
    ensures
        audit_label(a) == audit_label(b) ==> a == b,
        audit_label(a) != "unknown"@,
{
    reveal_strlit("unknown");
    if is_indexed(a) {
        lemma_indexed_label_ends_in_bracket(a);
    } else {
        lemma_static_label_owner(a);
        assert(static_label_owner("unknown"@) is None);
    }
    if is_indexed(b) {
        lemma_indexed_label_ends_in_bracket(b);
    } else {
        lemma_static_label_owner(b);
    }
    if is_indexed(a) && is_indexed(b) {
        lemma_indexed_labels_distinct(a, b);
    }
}

/// Each field-less element sits at its rank in the list of base elements.
proof fn lemma_base_rank(id: AuditId)
    ensures
        !is_indexed(id) ==> 0 <= base_rank(id) < base_audit_variants().len() && base_variant_at(
            base_rank(id),
        ) == id,
{
}

/// Each entry of the list of base elements has its position as its rank.
proof fn lemma_rank_of_entry(i: int)
    requires
        0 <= i < base_audit_variants().len(),
    ensures
        base_rank(base_variant_at(i)) == i,
        !is_indexed(base_variant_at(i)),
{
}

/// The list of base elements holds each field-less element exactly once and no
/// indexed element, so its length is the number of field-less variants.
pub proof fn lemma_base_variants_exact(id: AuditId)
    ensures
        base_audit_variants().contains(id) <==> !is_indexed(id),
        forall|i: int, j: int|
            0 <= i < j < base_audit_variants().len() ==> base_audit_variants()[i]
                != base_audit_variants()[j],
{
    let b = base_audit_variants();
    lemma_base_rank(id);
    if !is_indexed(id) {
        assert(b[base_rank(id)] == id);
    }
    if b.contains(id) {
        let k = choose|k: int| 0 <= k < b.len() && b[k] == id;
        lemma_rank_of_entry(k);
    }
    assert forall|i: int, j: int| 0 <= i < j < b.len() implies b[i] != b[j] by {
        lemma_rank_of_entry(i);
        lemma_rank_of_entry(j);
    }
}

} // verus!
