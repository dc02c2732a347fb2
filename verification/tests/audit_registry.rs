use reelsynth_ui::audit_registry::{
    audit_parent, count_base_audit_variants, shell_region, static_label, AuditChecks, AuditId,
    AuditParent, ShellRegion, REGISTRY_VARIANT_COUNT,
};

#[test]
fn registry_variant_count_matches_plan() {
    assert_eq!(count_base_audit_variants(), REGISTRY_VARIANT_COUNT);
}

#[test]
fn labels_are_stable() {
    assert_eq!(AuditId::ShellHeader.label(), "shell.header");
    assert_eq!(AuditId::CenterWt2dAnalyzeDialog.label(), "center.wt_2d.analyze_dialog");
    assert_eq!(AuditId::OscFxSlot(3).label(), "osc.fx.slot[3]");
    assert_eq!(AuditId::ComposeSceneCell(12).label(), "compose.scene_cell[12]");
    assert_eq!(AuditId::OscModAmountDrag(0).label(), "osc.mod.amount_drag[0]");
    assert_eq!(static_label(&AuditId::FooterChordPad(1)), "unknown");
    assert_eq!(static_label(&AuditId::WidgetAdsrGraph), "widget.adsr_graph");
}

#[test]
fn checks_follow_the_registry_table() {
    let c = AuditId::ShellHeader.checks();
    assert!(c.bounds && c.overlap && !c.overflow && !c.contrast && !c.utilization);
    let c = AuditId::HeaderBrand.checks();
    assert!(!c.bounds && c.contrast);
    let c = AuditId::RailPanelLfos.checks();
    assert!(c.bounds && c.utilization && !c.overlap);
    let c = AuditId::OscModSourceSelect(2).checks();
    assert!(c.overflow && !c.bounds);
    let c = AuditId::FooterChordPad(4).checks();
    assert!(c.bounds && c.contrast);
    let d = AuditChecks::default();
    assert!(!d.bounds && !d.overlap && !d.overflow && !d.contrast && !d.utilization);
    assert_eq!(AuditChecks::bounds_overflow(), AuditId::HeaderMidiCombo.checks());
}

#[test]
fn parents_and_shell_regions() {
    assert_eq!(audit_parent(AuditId::HeaderSaveBtn), AuditParent::Element(AuditId::HeaderLeftCluster));
    assert_eq!(audit_parent(AuditId::OscFxSlotParams(2)), AuditParent::FxSlotOrPanel(2));
    assert_eq!(audit_parent(AuditId::OscFxSlot(2)), AuditParent::Element(AuditId::OscFxPanel));
    assert_eq!(audit_parent(AuditId::ComposeRollGrid), AuditParent::Element(AuditId::ComposePianoRoll));
    assert_eq!(audit_parent(AuditId::ShellMain), AuditParent::ShellOnly);
    assert_eq!(shell_region(AuditId::OscModPanel), Some(ShellRegion::Osc));
    assert_eq!(shell_region(AuditId::FooterPianoCompact), Some(ShellRegion::PianoWrap));
    assert_eq!(shell_region(AuditId::HeaderRightCluster), Some(ShellRegion::Header));
    assert_eq!(shell_region(AuditId::ComposeTransport), None);
}

#[test]
fn every_label_names_one_element() {
    let mut ids = vec![
        AuditId::ShellHeader,
        AuditId::ShellMain,
        AuditId::ShellFooter,
        AuditId::ShellModStrip,
        AuditId::ShellFxStrip,
        AuditId::ShellPianoWrap,
        AuditId::HeaderBrand,
        AuditId::HeaderOpenBtn,
        AuditId::HeaderSaveBtn,
        AuditId::HeaderModeDesign,
        AuditId::HeaderModeCompose,
        AuditId::HeaderPerformance,
        AuditId::HeaderWtMenu,
        AuditId::HeaderSettingsMenu,
        AuditId::HeaderMidiCombo,
        AuditId::HeaderAudioCombo,
        AuditId::HeaderPianoToggle,
        AuditId::HeaderLeftCluster,
        AuditId::HeaderRightCluster,
        AuditId::OscColumn,
        AuditId::OscPanelOscillators,
        AuditId::OscStripCards,
        AuditId::OscTypeSelect,
        AuditId::OscKnobsLevelPanCoarse,
        AuditId::OscWtQuant,
        AuditId::OscWtPositionSlider,
        AuditId::OscWarpSelect,
        AuditId::OscWarpAmtSlider,
        AuditId::OscPulseWidth,
        AuditId::OscUnisonSlider,
        AuditId::OscSpreadSlider,
        AuditId::OscPanelStack,
        AuditId::OscPanelFm,
        AuditId::OscFmAlgorithm,
        AuditId::OscFmKnobs,
        AuditId::OscFxPanel,
        AuditId::OscFxAddBtn,
        AuditId::OscModPanel,
        AuditId::CenterColumn,
        AuditId::CenterScope,
        AuditId::CenterScopeCellOsc,
        AuditId::CenterScopeCellFilter,
        AuditId::CenterScopeCellFx,
        AuditId::CenterScopeCellOut,
        AuditId::CenterWtStrip,
        AuditId::CenterWtMorph,
        AuditId::CenterWtViews,
        AuditId::CenterWt2d,
        AuditId::CenterWt2dToolbar,
        AuditId::CenterWt2dPlot,
        AuditId::CenterWt2dResult,
        AuditId::CenterWtResult,
        AuditId::CenterWtSelected,
        AuditId::CenterWt2dCurveEditor,
        AuditId::CenterWt2dShapeEditor,
        AuditId::CenterWt2dAnalyzeDialog,
        AuditId::CenterWt3dStack,
        AuditId::CenterWt3dMorph,
        AuditId::CenterWt3dModeToggle,
        AuditId::CenterPiano,
        AuditId::RailColumn,
        AuditId::RailPanelFilter,
        AuditId::RailFilterTabs,
        AuditId::RailFilterKnobs,
        AuditId::RailPanelFiltEnv,
        AuditId::RailFiltEnvGraph,
        AuditId::RailFiltEnvKnobs,
        AuditId::RailPanelAmpEnv,
        AuditId::RailAmpEnvGraph,
        AuditId::RailAmpEnvKnobs,
        AuditId::RailPanelLfos,
        AuditId::RailLfo1Block,
        AuditId::RailLfo2Block,
        AuditId::RailLevelMeter,
        AuditId::FooterStatus,
        AuditId::FooterChordGrid,
        AuditId::FooterPianoCompact,
        AuditId::ComposeTransport,
        AuditId::ComposeTransportPlay,
        AuditId::ComposeTransportBpm,
        AuditId::ComposeTransportSnap,
        AuditId::ComposeTrackList,
        AuditId::ComposeArrangement,
        AuditId::ComposePianoRoll,
        AuditId::ComposeRollToolbar,
        AuditId::ComposeRollKeys,
        AuditId::ComposeRollGrid,
        AuditId::ComposeRollVelocity,
        AuditId::ComposeRollAutomation,
        AuditId::ComposeSceneGrid,
        AuditId::WidgetKnobSm,
        AuditId::WidgetKnobMd,
        AuditId::WidgetKnobLg,
        AuditId::WidgetPanel,
        AuditId::WidgetSidebarPanel,
        AuditId::WidgetLabeledSelect,
        AuditId::WidgetReelCombo,
        AuditId::WidgetTabBar,
        AuditId::WidgetButtonGhost,
        AuditId::WidgetButtonToggle,
        AuditId::WidgetAdsrGraph,
    ];
    assert_eq!(ids.len(), count_base_audit_variants());
    assert_eq!(count_base_audit_variants(), 101);
    for i in [0usize, 1, 2, 10, 11, 123] {
        ids.extend([
            AuditId::OscStackLayerRow(i),
            AuditId::OscFxSlot(i),
            AuditId::OscFxSlotHeader(i),
            AuditId::OscFxSlotParams(i),
            AuditId::OscModRow(i),
            AuditId::OscModSourceSelect(i),
            AuditId::OscModTargetSelect(i),
            AuditId::OscModAmountDrag(i),
            AuditId::CenterWtStripCell(i),
            AuditId::CenterWtStripLayerChip(i),
            AuditId::FooterChordPad(i),
            AuditId::ComposeTrackRow(i),
            AuditId::ComposeArrangementClip(i),
            AuditId::ComposeSceneCell(i),
        ]);
    }
    let mut seen = std::collections::HashSet::new();
    for id in &ids {
        let label = id.label();
        assert_ne!(label, "unknown");
        assert!(seen.insert(label), "label of {:?} repeats", id);
    }
    assert_eq!(seen.len(), ids.len());
}

#[test]
fn indexed_labels_render_any_index_in_decimal() {
    assert_eq!(AuditId::OscFxSlot(0).label(), "osc.fx.slot[0]");
    assert_eq!(AuditId::OscFxSlot(10).label(), "osc.fx.slot[10]");
    assert_eq!(AuditId::ComposeTrackRow(1_234_567).label(), "compose.track_row[1234567]");
    assert_eq!(
        AuditId::FooterChordPad(usize::MAX).label(),
        format!("footer.chord_pad[{}]", usize::MAX)
    );
}
